//! The state cache: for each enabled provider the latest snapshot, the last
//! error and whether a fetch is in flight.
//!
//! The cache is the single owner of every provider's runtime state. It is
//! changed in whole steps only: each operation replaces one provider's state
//! and leaves every other provider's state as it was.

use crate::error::{FetchError, FetchErrorView};
use crate::kind::{contains_kind, copy_kinds, ProviderKind, PROVIDER_COUNT};
use crate::time::Timestamp;
use crate::usage::{clone_text, snapshot_view, text_of, UsageSnapshot, UsageSnapshotView};
use vstd::prelude::*;

verus! {

/// What the cache holds for one provider.
///
/// `last_snapshot` is replaced as a whole on success and left alone on
/// failure. `last_error` is set on failure and cleared on success.
/// `is_refreshing` is true from the start of a fetch to its completion.
#[derive(Debug)]
pub struct ProviderRuntimeState {
    pub last_snapshot: Option<UsageSnapshot>,
    pub last_error: Option<String>,
    pub is_refreshing: bool,
}

/// The mathematical content of a `ProviderRuntimeState`.
pub struct RuntimeStateView {
    pub last_snapshot: Option<UsageSnapshotView>,
    pub last_error: Option<Seq<char>>,
    pub is_refreshing: bool,
}

impl View for ProviderRuntimeState {
    type V = RuntimeStateView;

    open spec fn view(&self) -> RuntimeStateView {
        RuntimeStateView {
            last_snapshot: snapshot_view(self.last_snapshot),
            last_error: text_of(self.last_error),
            is_refreshing: self.is_refreshing,
        }
    }
}

impl Clone for ProviderRuntimeState {
    fn clone(&self) -> (r: Self)
        ensures
            r == *self,
    {
        ProviderRuntimeState {
            last_snapshot: match &self.last_snapshot {
                Some(s) => Some(s.clone()),
                None => None,
            },
            last_error: clone_text(&self.last_error),
            is_refreshing: self.is_refreshing,
        }
    }
}

/// The content of the result of a fetch.
pub open spec fn result_view(result: Result<UsageSnapshot, FetchError>) -> Result<
    UsageSnapshotView,
    FetchErrorView,
> {
    match result {
        Ok(snapshot) => Ok(snapshot@),
        Err(error) => Err(error@),
    }
}

impl RuntimeStateView {
    /// The state of a provider of which nothing is known yet.
    pub open spec fn empty() -> RuntimeStateView {
        RuntimeStateView { last_snapshot: None, last_error: None, is_refreshing: false }
    }

    /// This state with a fetch in flight.
    pub open spec fn started(self) -> RuntimeStateView {
        RuntimeStateView { is_refreshing: true, ..self }
    }

    /// This state after a fetch completed with `result`.
    ///
    /// Success replaces the snapshot and clears the error. Failure records
    /// the description of the error and keeps the snapshot. Either way no
    /// fetch is in flight afterwards.
    pub open spec fn applied(self, result: Result<UsageSnapshotView, FetchErrorView>)
        -> RuntimeStateView {
        match result {
            Ok(snapshot) => RuntimeStateView {
                last_snapshot: Some(snapshot),
                last_error: None,
                is_refreshing: false,
            },
            Err(error) => RuntimeStateView {
                last_snapshot: self.last_snapshot,
                last_error: Some(error.description()),
                is_refreshing: false,
            },
        }
    }
}

impl ProviderRuntimeState {
    /// The state of a provider of which nothing is known yet.
    pub fn new() -> (r: ProviderRuntimeState)
        ensures
            r@ == RuntimeStateView::empty(),
    {
        ProviderRuntimeState { last_snapshot: None, last_error: None, is_refreshing: false }
    }
}

/// The items of `s` in order, each at its first occurrence only.
pub open spec fn first_occurrences(s: Seq<ProviderKind>) -> Seq<ProviderKind>
    decreases s.len(),
{
    if s.len() == 0 {
        Seq::empty()
    } else {
        let before = first_occurrences(s.drop_last());
        if before.contains(s.last()) {
            before
        } else {
            before.push(s.last())
        }
    }
}

/// The mathematical content of the cache: the enabled providers in order,
/// and the state of each.
pub struct CacheView {
    pub enabled: Seq<ProviderKind>,
    pub states: Map<ProviderKind, RuntimeStateView>,
}

impl CacheView {
    /// No provider is enabled twice, and the cache holds a state for the
    /// enabled providers and for no other.
    pub open spec fn wf(self) -> bool {
        &&& self.enabled.no_duplicates()
        &&& forall|kind: ProviderKind|
            self.states.dom().contains(kind) <==> self.enabled.contains(kind)
    }

    /// The cache with no provider enabled.
    pub open spec fn empty() -> CacheView {
        CacheView { enabled: Seq::empty(), states: Map::empty() }
    }

    /// Whether `kind` is enabled.
    pub open spec fn is_enabled(self, kind: ProviderKind) -> bool {
        self.states.dom().contains(kind)
    }

    /// The state of `kind`: the empty state where it is not enabled.
    pub open spec fn state(self, kind: ProviderKind) -> RuntimeStateView {
        if self.is_enabled(kind) {
            self.states[kind]
        } else {
            RuntimeStateView::empty()
        }
    }

    /// Whether a fetch for `kind` may start: it is enabled and none is in
    /// flight.
    pub open spec fn can_start(self, kind: ProviderKind) -> bool {
        self.is_enabled(kind) && !self.states[kind].is_refreshing
    }

    /// The cache after a fetch for `kind` started. Nothing changes where no
    /// fetch may start.
    pub open spec fn begin_refresh(self, kind: ProviderKind) -> CacheView {
        if self.can_start(kind) {
            CacheView { states: self.states.insert(kind, self.states[kind].started()), ..self }
        } else {
            self
        }
    }

    /// The cache after a fetch for `kind` completed with `result`. The
    /// result of a provider that is not enabled is dropped.
    pub open spec fn apply_result(
        self,
        kind: ProviderKind,
        result: Result<UsageSnapshotView, FetchErrorView>,
    ) -> CacheView {
        if self.is_enabled(kind) {
            CacheView { states: self.states.insert(kind, self.states[kind].applied(result)), ..self }
        } else {
            self
        }
    }

    /// The cache after the set of enabled providers became `providers`.
    ///
    /// The order is that of `providers`, each at its first occurrence. A
    /// provider that stays enabled keeps its state, a new one starts empty,
    /// and the state of one that is no longer enabled is dropped.
    pub open spec fn set_enabled(self, providers: Seq<ProviderKind>) -> CacheView {
        CacheView {
            enabled: first_occurrences(providers),
            states: Map::new(
                |kind: ProviderKind| providers.contains(kind),
                |kind: ProviderKind| self.state(kind),
            ),
        }
    }

    /// Whether the snapshot of `kind` is stale at `now`. Without a snapshot
    /// nothing is stale.
    pub open spec fn is_stale(self, kind: ProviderKind, now: Timestamp) -> bool {
        match self.state(kind).last_snapshot {
            Some(snapshot) => snapshot.is_stale(now),
            None => false,
        }
    }
}

/// An item occurs among the first occurrences of a sequence exactly if it
/// occurs in the sequence.
pub proof fn lemma_first_occurrences_contains(s: Seq<ProviderKind>, kind: ProviderKind)
    ensures
        first_occurrences(s).contains(kind) <==> s.contains(kind),
    decreases s.len(),
{
    if s.len() > 0 {
        let front = s.drop_last();
        lemma_first_occurrences_contains(front, kind);
        let before = first_occurrences(front);
        let after = first_occurrences(s);
        if s.contains(kind) {
            let i = choose|i: int| 0 <= i < s.len() && s[i] == kind;
            if i < s.len() - 1 {
                assert(front[i] == kind);
                assert(front.contains(kind));
                let j = choose|j: int| 0 <= j < before.len() && before[j] == kind;
                assert(after[j] == kind);
            } else if !before.contains(kind) {
                assert(after[after.len() - 1] == kind);
            } else {
                let j = choose|j: int| 0 <= j < before.len() && before[j] == kind;
                assert(after[j] == kind);
            }
        }
        if after.contains(kind) {
            let j = choose|j: int| 0 <= j < after.len() && after[j] == kind;
            if j < before.len() {
                assert(before[j] == kind);
                assert(before.contains(kind));
                let i = choose|i: int| 0 <= i < front.len() && front[i] == kind;
                assert(s[i] == kind);
            } else {
                assert(s[s.len() - 1] == kind);
            }
        }
    }
}

/// No item occurs twice among the first occurrences of a sequence.
pub proof fn lemma_first_occurrences_distinct(s: Seq<ProviderKind>)
    ensures
        first_occurrences(s).no_duplicates(),
    decreases s.len(),
{
    if s.len() > 0 {
        lemma_first_occurrences_distinct(s.drop_last());
    }
}

/// A sequence without repetitions is its own sequence of first occurrences.
pub proof fn lemma_first_occurrences_of_distinct(s: Seq<ProviderKind>)
    requires
        s.no_duplicates(),
    ensures
        first_occurrences(s) == s,
    decreases s.len(),
{
    if s.len() > 0 {
        let front = s.drop_last();
        lemma_first_occurrences_of_distinct(front);
        lemma_first_occurrences_contains(front, s.last());
        if front.contains(s.last()) {
            let i = choose|i: int| 0 <= i < front.len() && front[i] == s.last();
            assert(s[i] == s[s.len() - 1]);
        }
        assert(front.push(s.last()) =~= s);
    }
}

/// A table with one empty state for each provider.
fn empty_slots() -> (slots: Vec<ProviderRuntimeState>)
    ensures
        slots.len() == PROVIDER_COUNT,
        forall|i: int| 0 <= i < PROVIDER_COUNT ==> slots@[i]@ == RuntimeStateView::empty(),
{
    let mut slots: Vec<ProviderRuntimeState> = Vec::new();
    let mut i: usize = 0;
    while i < PROVIDER_COUNT
        invariant
            i <= PROVIDER_COUNT,
            slots.len() == i,
            forall|j: int| 0 <= j < i ==> slots@[j]@ == RuntimeStateView::empty(),
        decreases PROVIDER_COUNT - i,
    {
        slots.push(ProviderRuntimeState::new());
        i = i + 1;
    }
    slots
}

/// The cache of provider states.
///
/// One slot per provider of the enumeration holds the state; the list of
/// enabled providers says which slots count.
pub struct StateCache {
    enabled: Vec<ProviderKind>,
    slots: Vec<ProviderRuntimeState>,
}

impl View for StateCache {
    type V = CacheView;

    closed spec fn view(&self) -> CacheView {
        CacheView {
            enabled: self.enabled@,
            states: Map::new(
                |kind: ProviderKind| self.enabled@.contains(kind),
                |kind: ProviderKind| self.slots@[kind.index()]@,
            ),
        }
    }
}

impl StateCache {
    #[verifier::type_invariant]
    spec fn inv(self) -> bool {
        &&& self.slots.len() == PROVIDER_COUNT
        &&& self.enabled@.no_duplicates()
    }

    /// A cache with no provider enabled.
    pub fn new() -> (cache: StateCache)
        ensures
            cache@ == CacheView::empty(),
            cache@.wf(),
    {
        let cache = StateCache { enabled: Vec::new(), slots: empty_slots() };
        assert(cache@.states =~= Map::empty());
        cache
    }

    /// The enabled providers, in order.
    pub fn enabled_providers(&self) -> (providers: Vec<ProviderKind>)
        ensures
            providers@ == self@.enabled,
            self@.wf(),
    {
        proof {
            use_type_invariant(self);
        }
        copy_kinds(&self.enabled)
    }

    /// Whether `kind` is enabled.
    pub fn is_enabled(&self, kind: ProviderKind) -> (r: bool)
        ensures
            r == self@.is_enabled(kind),
            r == self@.enabled.contains(kind),
    {
        contains_kind(&self.enabled, kind)
    }

    /// The last snapshot that a fetch for `kind` brought, also while an
    /// error is recorded. `None` where there is none or `kind` is not
    /// enabled.
    pub fn get_snapshot(&self, kind: ProviderKind) -> (r: Option<UsageSnapshot>)
        ensures
            snapshot_view(r) == self@.state(kind).last_snapshot,
    {
        proof {
            use_type_invariant(self);
        }
        if !contains_kind(&self.enabled, kind) {
            return None;
        }
        match &self.slots[kind.to_index()].last_snapshot {
            Some(snapshot) => Some(snapshot.clone()),
            None => None,
        }
    }

    /// The description of the error of the last fetch for `kind`, where
    /// that fetch failed.
    pub fn get_error(&self, kind: ProviderKind) -> (r: Option<String>)
        ensures
            text_of(r) == self@.state(kind).last_error,
    {
        proof {
            use_type_invariant(self);
        }
        if !contains_kind(&self.enabled, kind) {
            return None;
        }
        clone_text(&self.slots[kind.to_index()].last_error)
    }

    /// Whether a fetch for `kind` is in flight.
    pub fn is_refreshing(&self, kind: ProviderKind) -> (r: bool)
        ensures
            r == self@.state(kind).is_refreshing,
    {
        proof {
            use_type_invariant(self);
        }
        contains_kind(&self.enabled, kind) && self.slots[kind.to_index()].is_refreshing
    }

    /// Whether the snapshot of `kind` is stale at `now`: more than ten
    /// minutes old. Computed from the snapshot at each call, never stored.
    pub fn is_stale(&self, kind: ProviderKind, now: Timestamp) -> (r: bool)
        ensures
            r == self@.is_stale(kind, now),
    {
        proof {
            use_type_invariant(self);
        }
        if !contains_kind(&self.enabled, kind) {
            return false;
        }
        match &self.slots[kind.to_index()].last_snapshot {
            Some(snapshot) => snapshot.is_stale(now),
            None => false,
        }
    }

    /// Mark the start of a fetch for `kind`, unless one is in flight or
    /// `kind` is not enabled. Returns whether the fetch is to start.
    pub fn begin_refresh(&mut self, kind: ProviderKind) -> (start: bool)
        ensures
            start == old(self)@.can_start(kind),
            final(self)@ == old(self)@.begin_refresh(kind),
            final(self)@.wf(),
    {
        proof {
            use_type_invariant(&*self);
        }
        let idx = kind.to_index();
        if !contains_kind(&self.enabled, kind) || self.slots[idx].is_refreshing {
            return false;
        }
        let state = &mut self.slots[idx];
        state.is_refreshing = true;
        proof {
            assert(self@.states =~= old(self)@.begin_refresh(kind).states);
        }
        true
    }

    /// Record the result of a fetch for `kind`. This is the one way in
    /// which a fetch changes the cache.
    ///
    /// Success replaces the snapshot as a whole and clears the error.
    /// Failure records the description of the error and leaves the snapshot
    /// untouched. Either way the provider is no longer refreshing, and no
    /// other provider's state changes. The result of a provider that is not
    /// enabled is dropped.
    pub fn apply_result(&mut self, kind: ProviderKind, result: Result<UsageSnapshot, FetchError>)
        ensures
            final(self)@ == old(self)@.apply_result(kind, result_view(result)),
            final(self)@.wf(),
            final(self)@.enabled == old(self)@.enabled,
            forall|other: ProviderKind|
                other != kind ==> final(self)@.state(other) == old(self)@.state(other),
            !final(self)@.state(kind).is_refreshing,
    {
        proof {
            use_type_invariant(&*self);
        }
        let idx = kind.to_index();
        if !contains_kind(&self.enabled, kind) {
            return ;
        }
        let state = &mut self.slots[idx];
        match result {
            Ok(snapshot) => {
                state.last_snapshot = Some(snapshot);
                state.last_error = None;
            },
            Err(error) => {
                state.last_error = Some(error.describe());
            },
        }
        state.is_refreshing = false;
        proof {
            assert(self@.states =~= old(self)@.apply_result(kind, result_view(result)).states);
        }
    }

    /// Make `providers` the set of enabled providers, in that order.
    ///
    /// A provider that was enabled before keeps its state, a newly enabled
    /// one starts with the empty state, and the state of a provider that is
    /// no longer enabled is dropped. A provider named twice counts once, at
    /// its first place.
    pub fn set_enabled(&mut self, providers: &Vec<ProviderKind>)
        ensures
            final(self)@ == old(self)@.set_enabled(providers@),
            final(self)@.wf(),
    {
        proof {
            use_type_invariant(&*self);
        }
        let ghost before = self@;
        let mut enabled: Vec<ProviderKind> = Vec::new();
        let mut i: usize = 0;
        while i < providers.len()
            invariant
                i <= providers.len(),
                self.slots.len() == PROVIDER_COUNT,
                self.enabled@ == before.enabled,
                self.enabled@.no_duplicates(),
                before == old(self)@,
                enabled@ == first_occurrences(providers@.take(i as int)),
                forall|kind: ProviderKind|
                    before.is_enabled(kind) ==> self.slots@[kind.index()]@ == before.states[kind],
                forall|kind: ProviderKind|
                    providers@.take(i as int).contains(kind) && !before.is_enabled(kind)
                        ==> self.slots@[kind.index()]@ == RuntimeStateView::empty(),
            decreases providers.len() - i,
        {
            let kind = providers[i];
            let idx = kind.to_index();
            proof {
                let seen = providers@.take(i as int);
                let next = providers@.take(i + 1);
                assert(next.drop_last() =~= seen);
                assert(next.last() == kind);
                assert(first_occurrences(next) == if first_occurrences(seen).contains(kind) {
                    first_occurrences(seen)
                } else {
                    first_occurrences(seen).push(kind)
                });
                assert forall|other: ProviderKind| next.contains(other) implies seen.contains(other)
                    || other == kind by {
                    let j = choose|j: int| 0 <= j < next.len() && next[j] == other;
                    if j < i {
                        assert(seen[j] == other);
                    }
                }
            }
            if !contains_kind(&enabled, kind) {
                if !contains_kind(&self.enabled, kind) {
                    let slot = &mut self.slots[idx];
                    *slot = ProviderRuntimeState::new();
                }
                enabled.push(kind);
            } else {
                proof {
                    lemma_first_occurrences_contains(providers@.take(i as int), kind);
                }
            }
            i = i + 1;
        }
        proof {
            assert(providers@.take(i as int) =~= providers@);
            lemma_first_occurrences_distinct(providers@);
            assert forall|kind: ProviderKind|
                first_occurrences(providers@).contains(kind) <==> providers@.contains(kind) by {
                lemma_first_occurrences_contains(providers@, kind);
            }
        }
        self.enabled = enabled;
        proof {
            assert(self@.states =~= before.set_enabled(providers@).states);
        }
    }
}

/// A successful fetch replaces the snapshot and clears any earlier error:
/// what is read afterwards is the new snapshot, whole, and no error.
pub proof fn lemma_success_replaces_snapshot(
    cache: CacheView,
    kind: ProviderKind,
    snapshot: UsageSnapshotView,
)
    requires
        cache.wf(),
        cache.is_enabled(kind),
    ensures
        cache.apply_result(kind, Ok(snapshot)).state(kind).last_snapshot == Some(snapshot),
        cache.apply_result(kind, Ok(snapshot)).state(kind).last_error.is_none(),
        !cache.apply_result(kind, Ok(snapshot)).state(kind).is_refreshing,
        cache.apply_result(kind, Ok(snapshot)).wf(),
{
}

/// A failed fetch leaves the snapshot as it was and records the error's
/// description.
pub proof fn lemma_failure_keeps_snapshot(
    cache: CacheView,
    kind: ProviderKind,
    error: FetchErrorView,
)
    requires
        cache.wf(),
    ensures
        cache.apply_result(kind, Err(error)).state(kind).last_snapshot == cache.state(
            kind,
        ).last_snapshot,
        cache.is_enabled(kind) ==> cache.apply_result(kind, Err(error)).state(kind).last_error
            == Some(error.description()),
        !cache.apply_result(kind, Err(error)).state(kind).is_refreshing,
        cache.apply_result(kind, Err(error)).wf(),
{
}

/// A snapshot survives a cycle of failure and is replaced by the next
/// success only: after a success, any number of failures, here two, leave
/// exactly that snapshot to be read.
pub proof fn lemma_snapshot_survives_errors(
    cache: CacheView,
    kind: ProviderKind,
    snapshot: UsageSnapshotView,
    first: FetchErrorView,
    second: FetchErrorView,
)
    requires
        cache.wf(),
        cache.is_enabled(kind),
    ensures
        cache.apply_result(kind, Ok(snapshot)).apply_result(kind, Err(first)).apply_result(
            kind,
            Err(second),
        ).state(kind).last_snapshot == Some(snapshot),
{
}

/// The result of one provider's fetch changes no other provider's state,
/// whatever that result is.
pub proof fn lemma_results_are_isolated(
    cache: CacheView,
    kind: ProviderKind,
    result: Result<UsageSnapshotView, FetchErrorView>,
    other: ProviderKind,
)
    requires
        other != kind,
    ensures
        cache.apply_result(kind, result).state(other) == cache.state(other),
        cache.apply_result(kind, result).is_enabled(other) == cache.is_enabled(other),
        cache.apply_result(kind, result).enabled == cache.enabled,
{
}

/// The results of two different providers can be recorded in either order:
/// the cache ends up the same.
pub proof fn lemma_results_commute(
    cache: CacheView,
    a: ProviderKind,
    result_a: Result<UsageSnapshotView, FetchErrorView>,
    b: ProviderKind,
    result_b: Result<UsageSnapshotView, FetchErrorView>,
)
    requires
        a != b,
    ensures
        cache.apply_result(a, result_a).apply_result(b, result_b) == cache.apply_result(
            b,
            result_b,
        ).apply_result(a, result_a),
{
    let left = cache.apply_result(a, result_a).apply_result(b, result_b);
    let right = cache.apply_result(b, result_b).apply_result(a, result_a);
    assert(left.states =~= right.states);
}

/// Enabling the providers that are enabled already, in their order, changes
/// nothing.
pub proof fn lemma_set_enabled_same(cache: CacheView)
    requires
        cache.wf(),
    ensures
        cache.set_enabled(cache.enabled) == cache,
{
    lemma_first_occurrences_of_distinct(cache.enabled);
    assert(cache.set_enabled(cache.enabled).states =~= cache.states);
}

/// A provider that is disabled and enabled again starts from the empty
/// state.
pub proof fn lemma_reenabled_starts_empty(
    cache: CacheView,
    without: Seq<ProviderKind>,
    with: Seq<ProviderKind>,
    kind: ProviderKind,
)
    requires
        !without.contains(kind),
        with.contains(kind),
    ensures
        cache.set_enabled(without).set_enabled(with).state(kind) == RuntimeStateView::empty(),
{
}

} // verus!
