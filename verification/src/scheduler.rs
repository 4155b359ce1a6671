//! The refresh scheduler: which fetches start, and what becomes of their
//! outcomes.
//!
//! The scheduler decides and the caller acts. Each operation takes the cache
//! and an event, changes the cache and answers with the providers whose
//! fetch the caller is to launch. The caller runs the fetches, each on its
//! own, and hands every outcome back through `complete`.

use crate::cache::{result_view, CacheView, RuntimeStateView, StateCache};
use crate::error::{FetchError, FetchErrorView};
use crate::kind::ProviderKind;
use crate::time::Timestamp;
use crate::usage::{UsageSnapshot, UsageSnapshotView};
use vstd::prelude::*;

verus! {

/// Default time between two background refreshes: five minutes.
pub const DEFAULT_REFRESH_INTERVAL_MILLIS: i64 = 300_000;

/// Default bound on the duration of one fetch: thirty seconds.
pub const DEFAULT_FETCH_TIMEOUT_MILLIS: i64 = 30_000;

/// The two knobs of the scheduler.
#[derive(Clone, Copy, Debug, PartialEq, Eq, Structural)]
pub struct SchedulerConfig {
    /// Time between two background refreshes.
    pub refresh_interval_millis: i64,
    /// Bound on the duration of one fetch.
    pub fetch_timeout_millis: i64,
}

impl SchedulerConfig {
    /// The timeout is positive and the interval is longer than the timeout,
    /// so that a background refresh does not meet its predecessor's fetches
    /// still in flight.
    pub open spec fn wf(self) -> bool {
        0 < self.fetch_timeout_millis < self.refresh_interval_millis
    }

    /// The configuration with the given interval and timeout, where the
    /// timeout is positive and shorter than the interval.
    pub fn new(refresh_interval_millis: i64, fetch_timeout_millis: i64) -> (r: Option<
        SchedulerConfig,
    >)
        ensures
            r is Some <==> 0 < fetch_timeout_millis < refresh_interval_millis,
            r is Some ==> r->0 == (SchedulerConfig {
                refresh_interval_millis,
                fetch_timeout_millis,
            }) && r->0.wf(),
    {
        if 0 < fetch_timeout_millis && fetch_timeout_millis < refresh_interval_millis {
            Some(SchedulerConfig { refresh_interval_millis, fetch_timeout_millis })
        } else {
            None
        }
    }

    /// The default configuration.
    pub fn standard() -> (r: SchedulerConfig)
        ensures
            r.wf(),
            r.refresh_interval_millis == DEFAULT_REFRESH_INTERVAL_MILLIS,
            r.fetch_timeout_millis == DEFAULT_FETCH_TIMEOUT_MILLIS,
    {
        SchedulerConfig {
            refresh_interval_millis: DEFAULT_REFRESH_INTERVAL_MILLIS,
            fetch_timeout_millis: DEFAULT_FETCH_TIMEOUT_MILLIS,
        }
    }

    /// Whether a fetch that started at `started_at` has exceeded its time
    /// bound at `now`.
    pub fn has_timed_out(&self, started_at: Timestamp, now: Timestamp) -> (r: bool)
        ensures
            r == (now@ - started_at@ > self.fetch_timeout_millis),
    {
        started_at.is_older_than(now, self.fetch_timeout_millis)
    }
}

/// How a fetch ended.
#[derive(Debug)]
pub enum FetchOutcome {
    /// The fetcher returned, with a snapshot or with its own error.
    Completed(Result<UsageSnapshot, FetchError>),
    /// The fetch exceeded its time bound.
    TimedOut,
    /// The fetcher broke down; `message` says how.
    Aborted { message: String },
}

/// The mathematical content of a `FetchOutcome`.
pub enum FetchOutcomeView {
    Completed(Result<UsageSnapshotView, FetchErrorView>),
    TimedOut,
    Aborted { message: Seq<char> },
}

impl View for FetchOutcome {
    type V = FetchOutcomeView;

    open spec fn view(&self) -> FetchOutcomeView {
        match self {
            FetchOutcome::Completed(result) => FetchOutcomeView::Completed(result_view(*result)),
            FetchOutcome::TimedOut => FetchOutcomeView::TimedOut,
            FetchOutcome::Aborted { message } => FetchOutcomeView::Aborted { message: message@ },
        }
    }
}

impl FetchOutcomeView {
    /// The result that is recorded for this outcome. A fetch that timed out
    /// is a transport error with the reason `timeout`; one that broke down
    /// is a transport error too, with the message after `fetch aborted: `.
    pub open spec fn result(self) -> Result<UsageSnapshotView, FetchErrorView> {
        match self {
            FetchOutcomeView::Completed(result) => result,
            FetchOutcomeView::TimedOut => Err(
                FetchErrorView::TransportError { reason: "timeout"@ },
            ),
            FetchOutcomeView::Aborted { message } => Err(
                FetchErrorView::TransportError { reason: "fetch aborted: "@ + message },
            ),
        }
    }
}

impl FetchOutcome {
    /// The result that is recorded for this outcome.
    pub fn into_result(self) -> (r: Result<UsageSnapshot, FetchError>)
        ensures
            result_view(r) == self@.result(),
            r is Ok <==> self matches FetchOutcome::Completed(Ok(_)),
    {
        match self {
            FetchOutcome::Completed(result) => result,
            FetchOutcome::TimedOut => Err(FetchError::timeout()),
            FetchOutcome::Aborted { message } => {
                let mut reason = String::from_str("fetch aborted: ");
                reason.append(message.as_str());
                Err(FetchError::TransportError { reason })
            },
        }
    }
}

impl CacheView {
    /// The test that picks the providers whose fetch may start.
    pub open spec fn startable(self) -> spec_fn(ProviderKind) -> bool {
        |kind: ProviderKind| self.can_start(kind)
    }

    /// The providers whose fetch starts when all are asked to refresh: the
    /// enabled ones without a fetch in flight, in order.
    pub open spec fn to_start(self) -> Seq<ProviderKind> {
        self.enabled.filter(self.startable())
    }

    /// The cache after every enabled provider was asked to refresh: each of
    /// them is refreshing.
    pub open spec fn refresh_all(self) -> CacheView {
        CacheView {
            enabled: self.enabled,
            states: Map::new(
                |kind: ProviderKind| self.is_enabled(kind),
                |kind: ProviderKind| self.states[kind].started(),
            ),
        }
    }
}

/// What the scheduler remembers between events: its configuration and the
/// time of the last background refresh.
#[derive(Debug)]
pub struct RefreshScheduler {
    config: SchedulerConfig,
    last_tick: Option<Timestamp>,
}

impl RefreshScheduler {
    #[verifier::type_invariant]
    spec fn inv(self) -> bool {
        self.config.wf()
    }

    /// The configuration.
    pub closed spec fn spec_config(&self) -> SchedulerConfig {
        self.config
    }

    /// The time of the last background refresh, if there was one.
    pub closed spec fn spec_last_tick(&self) -> Option<Timestamp> {
        self.last_tick
    }

    /// Whether a background refresh is due at `now`: none has happened yet,
    /// or at least the refresh interval has passed since the last one.
    pub open spec fn tick_due(&self, now: Timestamp) -> bool {
        match self.spec_last_tick() {
            Some(last) => now@ - last@ >= self.spec_config().refresh_interval_millis,
            None => true,
        }
    }

    /// A scheduler with the default configuration that has not refreshed
    /// yet.
    pub fn new() -> (r: RefreshScheduler)
        ensures
            r.spec_config() == SchedulerConfig::standard_spec(),
            r.spec_last_tick() is None,
    {
        RefreshScheduler { config: SchedulerConfig::standard(), last_tick: None }
    }

    /// A scheduler with the given configuration that has not refreshed yet.
    /// `None` where the configuration is not well-formed.
    pub fn with_config(config: SchedulerConfig) -> (r: Option<RefreshScheduler>)
        ensures
            r is Some <==> config.wf(),
            r is Some ==> r->0.spec_config() == config && r->0.spec_last_tick() is None,
    {
        if 0 < config.fetch_timeout_millis && config.fetch_timeout_millis
            < config.refresh_interval_millis {
            Some(RefreshScheduler { config, last_tick: None })
        } else {
            None
        }
    }

    /// The configuration.
    pub fn config(&self) -> (r: SchedulerConfig)
        ensures
            r == self.spec_config(),
            r.wf(),
    {
        proof {
            use_type_invariant(self);
        }
        self.config
    }

    /// Ask for a refresh of one provider.
    ///
    /// Where a fetch for it is in flight already, or the provider is not
    /// enabled, nothing happens and the answer is `false`. Otherwise the
    /// provider is marked as refreshing and the answer is `true`: the caller
    /// launches the fetch.
    pub fn refresh_provider(&self, cache: &mut StateCache, kind: ProviderKind) -> (start: bool)
        ensures
            start == old(cache)@.can_start(kind),
            final(cache)@ == old(cache)@.begin_refresh(kind),
            !start ==> final(cache)@ == old(cache)@,
            final(cache)@.wf(),
    {
        cache.begin_refresh(kind)
    }

    /// Ask for a refresh of every enabled provider.
    ///
    /// The answer lists the providers whose fetch the caller is to launch:
    /// the enabled ones without a fetch in flight, in order. Afterwards
    /// every enabled provider is refreshing.
    pub fn refresh_all(&self, cache: &mut StateCache) -> (started: Vec<ProviderKind>)
        ensures
            started@ == old(cache)@.to_start(),
            final(cache)@ == old(cache)@.refresh_all(),
            final(cache)@.wf(),
    {
        let ghost before = cache@;
        let providers = cache.enabled_providers();
        let mut started: Vec<ProviderKind> = Vec::new();
        let mut i: usize = 0;
        while i < providers.len()
            invariant
                i <= providers.len(),
                before.wf(),
                providers@ == before.enabled,
                cache@.enabled == before.enabled,
                cache@.wf(),
                started@ == before.enabled.take(i as int).filter(before.startable()),
                forall|kind: ProviderKind|
                    before.enabled.take(i as int).contains(kind) ==> cache@.states[kind]
                        == before.states[kind].started(),
                forall|kind: ProviderKind|
                    before.is_enabled(kind) && !before.enabled.take(i as int).contains(kind)
                        ==> cache@.states[kind] == before.states[kind],
            decreases providers.len() - i,
        {
            let kind = providers[i];
            let ghost mid = cache@;
            let ghost seen = before.enabled.take(i as int);
            let ghost next = before.enabled.take(i + 1);
            proof {
                assert(next =~= seen.push(kind));
                seen.lemma_filter_push(kind, before.startable());
                assert(before.enabled[i as int] == kind);
                assert(before.enabled.contains(kind));
                assert(before.is_enabled(kind));
                if seen.contains(kind) {
                    let j = choose|j: int| 0 <= j < seen.len() && seen[j] == kind;
                    assert(before.enabled[j] == before.enabled[i as int]);
                    assert(false);
                }
                assert(mid.states[kind] == before.states[kind]);
                assert(mid.is_enabled(kind));
                assert(mid.can_start(kind) == (before.startable())(kind));
            }
            if cache.begin_refresh(kind) {
                started.push(kind);
            }
            proof {
                assert(cache@ == mid.begin_refresh(kind));
                if !mid.can_start(kind) {
                    assert(before.states[kind].started() == before.states[kind]);
                }
                assert(cache@.states[kind] == before.states[kind].started());
                assert forall|other: ProviderKind| next.contains(other) implies cache@.states[other]
                    == before.states[other].started() by {
                    let j = choose|j: int| 0 <= j < next.len() && next[j] == other;
                    if j < i {
                        assert(seen[j] == other);
                        assert(seen.contains(other));
                        assert(mid.states[other] == before.states[other].started());
                    }
                }
                assert forall|other: ProviderKind|
                    before.is_enabled(other) && !next.contains(other) implies cache@.states[other]
                    == before.states[other] by {
                    assert(next[i as int] == kind);
                    if seen.contains(other) {
                        let j = choose|j: int| 0 <= j < seen.len() && seen[j] == other;
                        assert(next[j] == other);
                    }
                }
            }
            i = i + 1;
        }
        proof {
            assert(before.enabled.take(i as int) =~= before.enabled);
            assert forall|kind: ProviderKind| before.is_enabled(kind) implies cache@.states[kind]
                == before.states[kind].started() by {
                assert(before.enabled.contains(kind));
            }
            assert(cache@.states =~= before.refresh_all().states);
        }
        started
    }

    /// Record how the fetch for `kind` ended.
    ///
    /// The outcome becomes a result (see `FetchOutcomeView::result`) and the
    /// result is applied to the cache: the provider is no longer refreshing,
    /// a failure of any sort leaves its snapshot in place, and no other
    /// provider is touched.
    pub fn complete(&self, cache: &mut StateCache, kind: ProviderKind, outcome: FetchOutcome)
        ensures
            final(cache)@ == old(cache)@.apply_result(kind, outcome@.result()),
            final(cache)@.wf(),
            !final(cache)@.state(kind).is_refreshing,
            forall|other: ProviderKind|
                other != kind ==> final(cache)@.state(other) == old(cache)@.state(other),
    {
        cache.apply_result(kind, outcome.into_result());
    }

    /// Handle the firing of the background timer at `now`.
    ///
    /// Where a background refresh is due every enabled provider is asked to
    /// refresh and `now` is remembered as the time of this refresh. Where
    /// none is due nothing changes and no fetch starts.
    pub fn on_timer(&mut self, cache: &mut StateCache, now: Timestamp) -> (started: Vec<
        ProviderKind,
    >)
        ensures
            final(self).spec_config() == old(self).spec_config(),
            old(self).tick_due(now) ==> {
                &&& started@ == old(cache)@.to_start()
                &&& final(cache)@ == old(cache)@.refresh_all()
                &&& final(self).spec_last_tick() == Some(now)
            },
            !old(self).tick_due(now) ==> {
                &&& started@.len() == 0
                &&& final(cache)@ == old(cache)@
                &&& final(self).spec_last_tick() == old(self).spec_last_tick()
            },
    {
        proof {
            use_type_invariant(&*self);
        }
        let due = match self.last_tick {
            Some(last) => now.millis as i128 - last.millis as i128
                >= self.config.refresh_interval_millis as i128,
            None => true,
        };
        if due {
            self.last_tick = Some(now);
            self.refresh_all(cache)
        } else {
            Vec::new()
        }
    }
}

impl SchedulerConfig {
    /// The default configuration.
    pub open spec fn standard_spec() -> SchedulerConfig {
        SchedulerConfig {
            refresh_interval_millis: DEFAULT_REFRESH_INTERVAL_MILLIS,
            fetch_timeout_millis: DEFAULT_FETCH_TIMEOUT_MILLIS,
        }
    }
}

/// At most one fetch per provider: once a refresh of a provider has begun, a
/// second request for the same provider starts nothing and changes nothing,
/// as long as the first fetch has not completed.
pub proof fn lemma_refresh_deduplicates(cache: CacheView, kind: ProviderKind)
    requires
        cache.wf(),
    ensures
        !cache.begin_refresh(kind).can_start(kind),
        cache.begin_refresh(kind).begin_refresh(kind) == cache.begin_refresh(kind),
        cache.begin_refresh(kind).wf(),
{
}

/// Once the fetch has completed, with whatever outcome, the provider can be
/// refreshed again.
pub proof fn lemma_completion_allows_refresh(
    cache: CacheView,
    kind: ProviderKind,
    outcome: FetchOutcomeView,
)
    requires
        cache.wf(),
        cache.is_enabled(kind),
    ensures
        cache.begin_refresh(kind).apply_result(kind, outcome.result()).can_start(kind),
{
}

/// Beginning a refresh touches nothing but the flag: the snapshot and the
/// error of the provider, and every other provider's state, stay as they
/// were.
pub proof fn lemma_begin_refresh_keeps_data(
    cache: CacheView,
    kind: ProviderKind,
    other: ProviderKind,
)
    requires
        cache.wf(),
    ensures
        cache.begin_refresh(kind).state(kind).last_snapshot == cache.state(kind).last_snapshot,
        cache.begin_refresh(kind).state(kind).last_error == cache.state(kind).last_error,
        other != kind ==> cache.begin_refresh(kind).state(other) == cache.state(other),
        cache.begin_refresh(kind).enabled == cache.enabled,
{
}

/// A refresh of all providers right after another starts nothing: every
/// enabled provider is in flight already.
pub proof fn lemma_refresh_all_deduplicates(cache: CacheView)
    requires
        cache.wf(),
    ensures
        cache.refresh_all().to_start() == Seq::<ProviderKind>::empty(),
        cache.refresh_all().refresh_all() == cache.refresh_all(),
        cache.refresh_all().wf(),
{
    let after = cache.refresh_all();
    assert forall|i: int| 0 <= i < after.enabled.len() implies !(after.startable())(
        #[trigger] after.enabled[i],
    ) by {
        assert(cache.enabled.contains(after.enabled[i]));
    }
    after.enabled.lemma_all_neg_filter_empty(after.startable());
    assert(after.refresh_all().states =~= after.states);
}

/// A fetch that fails in any way, by its own error, by timing out or by
/// breaking down, leaves every other provider's state alone and its own
/// snapshot in place: the other fetches go on and complete as if it had not
/// happened.
pub proof fn lemma_failure_is_contained(
    cache: CacheView,
    failing: ProviderKind,
    outcome: FetchOutcomeView,
    other: ProviderKind,
    snapshot: UsageSnapshotView,
)
    requires
        cache.wf(),
        cache.is_enabled(other),
        other != failing,
        outcome.result() is Err,
    ensures
        cache.apply_result(failing, outcome.result()).state(other) == cache.state(other),
        cache.apply_result(failing, outcome.result()).state(failing).last_snapshot == cache.state(
            failing,
        ).last_snapshot,
        cache.apply_result(failing, outcome.result()).apply_result(other, Ok(snapshot)).state(
            other,
        ) == (RuntimeStateView {
            last_snapshot: Some(snapshot),
            last_error: None,
            is_refreshing: false,
        }),
{
}

} // verus!
