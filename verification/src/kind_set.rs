//! Sets of providers, held as one flag per provider of the enumeration.

use crate::kind::{kind_at, lemma_kind_at_index, ProviderKind, PROVIDER_COUNT};
use vstd::prelude::*;

verus! {

/// A set of providers.
#[derive(Debug)]
pub struct KindSet {
    flags: Vec<bool>,
}

impl View for KindSet {
    type V = Set<ProviderKind>;

    closed spec fn view(&self) -> Set<ProviderKind> {
        Set::new(|kind: ProviderKind| self.flags@[kind.index()])
    }
}

/// The members of `set` among the first `bound` providers of the
/// enumeration, in enumeration order.
pub open spec fn members_below(set: Set<ProviderKind>, bound: int) -> Seq<ProviderKind>
    decreases bound,
{
    if bound <= 0 {
        Seq::empty()
    } else {
        let before = members_below(set, bound - 1);
        match kind_at(bound - 1) {
            Some(kind) => if set.contains(kind) {
                before.push(kind)
            } else {
                before
            },
            None => before,
        }
    }
}

/// The members of `set`, in enumeration order.
pub open spec fn members(set: Set<ProviderKind>) -> Seq<ProviderKind> {
    members_below(set, PROVIDER_COUNT as int)
}

/// The members below a bound are members of the set, and every member whose
/// index lies below the bound is among them.
pub proof fn lemma_members_below(set: Set<ProviderKind>, bound: int, kind: ProviderKind)
    requires
        0 <= bound <= PROVIDER_COUNT,
    ensures
        members_below(set, bound).contains(kind) <==> set.contains(kind) && kind.index() < bound,
        members_below(set, bound).len() <= bound,
    decreases bound,
{
    if bound > 0 {
        lemma_members_below(set, bound - 1, kind);
        lemma_kind_at_index(bound - 1);
        let before = members_below(set, bound - 1);
        let after = members_below(set, bound);
        let last = kind_at(bound - 1)->0;
        if before.contains(kind) {
            let j = choose|j: int| 0 <= j < before.len() && before[j] == kind;
            assert(after[j] == kind);
        }
        if set.contains(last) {
            assert(after[after.len() - 1] == last);
        }
        if after.contains(kind) {
            let j = choose|j: int| 0 <= j < after.len() && after[j] == kind;
            if j < before.len() {
                assert(before[j] == kind);
            }
        }
    }
}

/// The members of a set are exactly its elements, and there are at most as
/// many as there are providers.
pub proof fn lemma_members(set: Set<ProviderKind>, kind: ProviderKind)
    ensures
        members(set).contains(kind) <==> set.contains(kind),
        members(set).len() <= PROVIDER_COUNT,
{
    lemma_members_below(set, PROVIDER_COUNT as int, kind);
}

/// The set of a sequence with one more item is the set of the sequence with
/// that item put in.
pub proof fn lemma_push_to_set(s: Seq<ProviderKind>, kind: ProviderKind)
    ensures
        s.push(kind).to_set() == s.to_set().insert(kind),
{
    let next = s.push(kind);
    assert forall|other: ProviderKind| next.to_set().contains(other) <==> s.to_set().insert(
        kind,
    ).contains(other) by {
        if s.contains(other) {
            let j = choose|j: int| 0 <= j < s.len() && s[j] == other;
            assert(next[j] == other);
        }
        if other == kind {
            assert(next[s.len() as int] == other);
        }
        if next.contains(other) {
            let j = choose|j: int| 0 <= j < next.len() && next[j] == other;
            if j < s.len() {
                assert(s[j] == other);
            }
        }
    }
    assert(next.to_set() =~= s.to_set().insert(kind));
}

impl KindSet {
    #[verifier::type_invariant]
    spec fn inv(self) -> bool {
        self.flags.len() == PROVIDER_COUNT
    }

    /// The empty set.
    pub fn new() -> (set: KindSet)
        ensures
            set@ == Set::<ProviderKind>::empty(),
    {
        let mut flags: Vec<bool> = Vec::new();
        let mut i: usize = 0;
        while i < PROVIDER_COUNT
            invariant
                i <= PROVIDER_COUNT,
                flags.len() == i,
                forall|j: int| 0 <= j < i ==> !flags@[j],
            decreases PROVIDER_COUNT - i,
        {
            flags.push(false);
            i = i + 1;
        }
        let set = KindSet { flags };
        assert(set@ =~= Set::<ProviderKind>::empty());
        set
    }

    /// The set of the providers that occur in `kinds`.
    pub fn from_kinds(kinds: &Vec<ProviderKind>) -> (set: KindSet)
        ensures
            set@ == kinds@.to_set(),
    {
        let mut set = KindSet::new();
        let mut i: usize = 0;
        while i < kinds.len()
            invariant
                i <= kinds.len(),
                set@ == kinds@.take(i as int).to_set(),
            decreases kinds.len() - i,
        {
            set.insert(kinds[i]);
            proof {
                assert(kinds@.take(i + 1) =~= kinds@.take(i as int).push(kinds@[i as int]));
                lemma_push_to_set(kinds@.take(i as int), kinds@[i as int]);
            }
            i = i + 1;
        }
        assert(kinds@.take(i as int) =~= kinds@);
        set
    }

    /// Whether `kind` is in the set.
    pub fn contains(&self, kind: ProviderKind) -> (r: bool)
        ensures
            r == self@.contains(kind),
    {
        proof {
            use_type_invariant(self);
        }
        self.flags[kind.to_index()]
    }

    /// Put `kind` into the set. Returns whether it was new to the set.
    pub fn insert(&mut self, kind: ProviderKind) -> (added: bool)
        ensures
            final(self)@ == old(self)@.insert(kind),
            added == !old(self)@.contains(kind),
        no_unwind
    {
        proof {
            use_type_invariant(&*self);
        }
        let idx = kind.to_index();
        let added = !self.flags[idx];
        let flag = &mut self.flags[idx];
        *flag = true;
        assert(self@ =~= old(self)@.insert(kind));
        added
    }

    /// Take `kind` out of the set. Returns whether it was in the set.
    pub fn remove(&mut self, kind: ProviderKind) -> (removed: bool)
        ensures
            final(self)@ == old(self)@.remove(kind),
            removed == old(self)@.contains(kind),
        no_unwind
    {
        proof {
            use_type_invariant(&*self);
        }
        let idx = kind.to_index();
        let removed = self.flags[idx];
        let flag = &mut self.flags[idx];
        *flag = false;
        assert(self@ =~= old(self)@.remove(kind));
        removed
    }

    /// Take every provider out of the set.
    pub fn clear(&mut self)
        ensures
            final(self)@ == Set::<ProviderKind>::empty(),
        no_unwind
    {
        proof {
            use_type_invariant(&*self);
        }
        let mut i: usize = 0;
        while i < PROVIDER_COUNT
            invariant
                i <= PROVIDER_COUNT,
                self.flags.len() == PROVIDER_COUNT,
                forall|j: int| 0 <= j < i ==> !self.flags@[j],
            decreases PROVIDER_COUNT - i,
        {
            let flag = &mut self.flags[i];
            *flag = false;
            i = i + 1;
        }
        assert(self@ =~= Set::<ProviderKind>::empty());
    }

    /// The members of the set, in enumeration order.
    pub fn to_vec(&self) -> (kinds: Vec<ProviderKind>)
        ensures
            kinds@ == members(self@),
            kinds@.len() <= PROVIDER_COUNT,
    {
        proof {
            use_type_invariant(self);
        }
        let mut kinds: Vec<ProviderKind> = Vec::new();
        let mut i: usize = 0;
        while i < PROVIDER_COUNT
            invariant
                i <= PROVIDER_COUNT,
                self.flags.len() == PROVIDER_COUNT,
                kinds@ == members_below(self@, i as int),
                kinds@.len() <= i,
            decreases PROVIDER_COUNT - i,
        {
            match ProviderKind::from_index(i) {
                Some(kind) => {
                    if self.flags[i] {
                        kinds.push(kind);
                    }
                },
                None => {},
            }
            i = i + 1;
        }
        kinds
    }

    /// Whether the set has no member.
    pub fn is_empty(&self) -> (r: bool)
        ensures
            r == (self@ == Set::<ProviderKind>::empty()),
    {
        proof {
            use_type_invariant(self);
        }
        let mut i: usize = 0;
        while i < PROVIDER_COUNT
            invariant
                i <= PROVIDER_COUNT,
                self.flags.len() == PROVIDER_COUNT,
                forall|j: int| 0 <= j < i ==> !self.flags@[j],
            decreases PROVIDER_COUNT - i,
        {
            if self.flags[i] {
                proof {
                    lemma_kind_at_index(i as int);
                    assert(self@.contains(kind_at(i as int)->0));
                }
                return false;
            }
            i = i + 1;
        }
        assert(self@ =~= Set::<ProviderKind>::empty());
        true
    }
}

} // verus!
