//! The closed set of supported providers.

use vstd::prelude::*;

verus! {

/// The number of supported providers.
pub const PROVIDER_COUNT: usize = 13;

/// The index code that stands for "no provider".
pub const NO_PROVIDER_CODE: u8 = 255;

/// A supported provider. Used as the primary key everywhere.
#[derive(Clone, Copy, Debug, PartialEq, Eq, Hash, Structural)]
pub enum ProviderKind {
    Codex,
    Claude,
    Cursor,
    Gemini,
    Copilot,
    Factory,
    VertexAI,
    Zai,
    Augment,
    Kiro,
    MiniMax,
    Antigravity,
    Synthetic,
}

/// The provider at position `i` of the enumeration, if there is one.
pub open spec fn kind_at(i: int) -> Option<ProviderKind> {
    if i == 0 {
        Some(ProviderKind::Codex)
    } else if i == 1 {
        Some(ProviderKind::Claude)
    } else if i == 2 {
        Some(ProviderKind::Cursor)
    } else if i == 3 {
        Some(ProviderKind::Gemini)
    } else if i == 4 {
        Some(ProviderKind::Copilot)
    } else if i == 5 {
        Some(ProviderKind::Factory)
    } else if i == 6 {
        Some(ProviderKind::VertexAI)
    } else if i == 7 {
        Some(ProviderKind::Zai)
    } else if i == 8 {
        Some(ProviderKind::Augment)
    } else if i == 9 {
        Some(ProviderKind::Kiro)
    } else if i == 10 {
        Some(ProviderKind::MiniMax)
    } else if i == 11 {
        Some(ProviderKind::Antigravity)
    } else if i == 12 {
        Some(ProviderKind::Synthetic)
    } else {
        None
    }
}

/// Every provider, in enumeration order.
pub open spec fn all_kinds() -> Seq<ProviderKind> {
    Seq::new(PROVIDER_COUNT as nat, |i: int| kind_at(i).unwrap())
}

/// The one-byte code of an optional provider: its index, or
/// `NO_PROVIDER_CODE` for none.
pub open spec fn code_of(provider: Option<ProviderKind>) -> int {
    match provider {
        Some(kind) => kind.index(),
        None => NO_PROVIDER_CODE as int,
    }
}

impl ProviderKind {
    /// The position of this provider in the enumeration.
    pub open spec fn index(self) -> int {
        match self {
            ProviderKind::Codex => 0,
            ProviderKind::Claude => 1,
            ProviderKind::Cursor => 2,
            ProviderKind::Gemini => 3,
            ProviderKind::Copilot => 4,
            ProviderKind::Factory => 5,
            ProviderKind::VertexAI => 6,
            ProviderKind::Zai => 7,
            ProviderKind::Augment => 8,
            ProviderKind::Kiro => 9,
            ProviderKind::MiniMax => 10,
            ProviderKind::Antigravity => 11,
            ProviderKind::Synthetic => 12,
        }
    }

    /// The position of this provider in the enumeration.
    pub fn to_index(self) -> (i: usize)
        ensures
            i == self.index(),
            i < PROVIDER_COUNT,
            kind_at(i as int) == Some(self),
        no_unwind
    {
        match self {
            ProviderKind::Codex => 0,
            ProviderKind::Claude => 1,
            ProviderKind::Cursor => 2,
            ProviderKind::Gemini => 3,
            ProviderKind::Copilot => 4,
            ProviderKind::Factory => 5,
            ProviderKind::VertexAI => 6,
            ProviderKind::Zai => 7,
            ProviderKind::Augment => 8,
            ProviderKind::Kiro => 9,
            ProviderKind::MiniMax => 10,
            ProviderKind::Antigravity => 11,
            ProviderKind::Synthetic => 12,
        }
    }

    /// The provider at a position of the enumeration; `None` past its end.
    pub fn from_index(i: usize) -> (r: Option<ProviderKind>)
        ensures
            r == kind_at(i as int),
            r is Some <==> i < PROVIDER_COUNT,
            r is Some ==> r->0.index() == i,
    {
        match i {
            0 => Some(ProviderKind::Codex),
            1 => Some(ProviderKind::Claude),
            2 => Some(ProviderKind::Cursor),
            3 => Some(ProviderKind::Gemini),
            4 => Some(ProviderKind::Copilot),
            5 => Some(ProviderKind::Factory),
            6 => Some(ProviderKind::VertexAI),
            7 => Some(ProviderKind::Zai),
            8 => Some(ProviderKind::Augment),
            9 => Some(ProviderKind::Kiro),
            10 => Some(ProviderKind::MiniMax),
            11 => Some(ProviderKind::Antigravity),
            12 => Some(ProviderKind::Synthetic),
            _ => None,
        }
    }

    /// Every provider, in enumeration order.
    pub fn all() -> (v: Vec<ProviderKind>)
        ensures
            v@ == all_kinds(),
    {
        let mut v: Vec<ProviderKind> = Vec::new();
        let mut i: usize = 0;
        while i < PROVIDER_COUNT
            invariant
                i <= PROVIDER_COUNT,
                v@.len() == i,
                forall|j: int| 0 <= j < i ==> kind_at(j) == Some(#[trigger] v@[j]),
            decreases PROVIDER_COUNT - i,
        {
            match ProviderKind::from_index(i) {
                Some(kind) => {
                    v.push(kind);
                },
                None => {},
            }
            i = i + 1;
        }
        assert(v@ =~= all_kinds());
        v
    }

    /// The one-byte code of an optional provider, as handed to a click
    /// delegate: the provider's index, or `NO_PROVIDER_CODE` for none.
    pub fn to_code(provider: Option<ProviderKind>) -> (code: u8)
        ensures
            code == code_of(provider),
            provider is None <==> code == NO_PROVIDER_CODE,
    {
        match provider {
            Some(kind) => kind.to_index() as u8,
            None => NO_PROVIDER_CODE,
        }
    }

    /// The optional provider that a one-byte code stands for.
    /// `NO_PROVIDER_CODE` and every code past the enumeration give `None`.
    pub fn from_code(code: u8) -> (r: Option<ProviderKind>)
        ensures
            r == kind_at(code as int),
            r is Some <==> code < PROVIDER_COUNT,
    {
        if code == NO_PROVIDER_CODE {
            None
        } else {
            ProviderKind::from_index(code as usize)
        }
    }
}

/// A copy of a list of providers.
pub fn copy_kinds(kinds: &Vec<ProviderKind>) -> (copy: Vec<ProviderKind>)
    ensures
        copy@ == kinds@,
{
    let mut copy: Vec<ProviderKind> = Vec::new();
    let mut i: usize = 0;
    while i < kinds.len()
        invariant
            i <= kinds.len(),
            copy@ == kinds@.take(i as int),
        decreases kinds.len() - i,
    {
        copy.push(kinds[i]);
        assert(kinds@.take(i + 1) =~= kinds@.take(i as int).push(kinds@[i as int]));
        i = i + 1;
    }
    assert(kinds@.take(i as int) =~= kinds@);
    copy
}

/// Whether `kind` occurs in `kinds`.
pub fn contains_kind(kinds: &Vec<ProviderKind>, kind: ProviderKind) -> (found: bool)
    ensures
        found == kinds@.contains(kind),
{
    let mut i: usize = 0;
    while i < kinds.len()
        invariant
            i <= kinds.len(),
            forall|j: int| 0 <= j < i ==> kinds@[j] != kind,
        decreases kinds.len() - i,
    {
        if kinds[i] == kind {
            return true;
        }
        i = i + 1;
    }
    false
}

/// A provider's index leads back to the provider, and lies inside the
/// enumeration.
pub proof fn lemma_index_round_trip(kind: ProviderKind)
    ensures
        0 <= kind.index() < PROVIDER_COUNT,
        kind_at(kind.index()) == Some(kind),
{
}

/// Two providers with the same index are the same provider.
pub proof fn lemma_index_injective(a: ProviderKind, b: ProviderKind)
    requires
        a.index() == b.index(),
    ensures
        a == b,
{
}

/// A position inside the enumeration holds a provider whose index is that
/// position.
pub proof fn lemma_kind_at_index(i: int)
    requires
        0 <= i < PROVIDER_COUNT,
    ensures
        kind_at(i) is Some,
        kind_at(i)->0.index() == i,
{
}

/// Decoding the code of an optional provider gives the provider back.
pub proof fn lemma_code_round_trip(provider: Option<ProviderKind>)
    ensures
        0 <= code_of(provider) <= u8::MAX,
        kind_at(code_of(provider)) == provider,
{
}

/// Every provider occurs exactly once in the full list.
pub proof fn lemma_all_kinds_complete(kind: ProviderKind)
    ensures
        all_kinds().len() == PROVIDER_COUNT,
        all_kinds()[kind.index()] == kind,
        all_kinds().contains(kind),
        all_kinds().no_duplicates(),
{
    assert(all_kinds()[kind.index()] == kind);
    assert forall|i: int, j: int|
        0 <= i < all_kinds().len() && 0 <= j < all_kinds().len() && i != j implies all_kinds()[i]
        != all_kinds()[j] by {
        lemma_kind_at_index(i);
        lemma_kind_at_index(j);
    }
}

} // verus!
