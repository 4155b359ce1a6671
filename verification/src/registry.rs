//! Static metadata of each provider: names, window labels and the way its
//! usage is fetched.

use crate::kind::{lemma_kind_at_index, ProviderKind, PROVIDER_COUNT};
use vstd::prelude::*;

verus! {

/// The way a provider's usage is fetched.
#[derive(Clone, Copy, Debug, PartialEq, Eq, Structural)]
pub enum FetchStrategy {
    /// An HTTP API, authenticated with an API key.
    Api,
    /// A local command-line tool or its configuration files.
    Cli,
}

/// The static metadata of one provider.
#[derive(Clone, Copy, Debug)]
pub struct ProviderDescriptor {
    pub kind: ProviderKind,
    /// The stable identifier under which credentials are stored.
    pub id: &'static str,
    pub display_name: &'static str,
    /// The label of the primary, session-scoped window.
    pub session_label: &'static str,
    /// The label of the secondary, longer window.
    pub weekly_label: &'static str,
    pub fetch_strategy: FetchStrategy,
}

/// The mathematical content of a `ProviderDescriptor`.
pub struct ProviderDescriptorView {
    pub kind: ProviderKind,
    pub id: Seq<char>,
    pub display_name: Seq<char>,
    pub session_label: Seq<char>,
    pub weekly_label: Seq<char>,
    pub fetch_strategy: FetchStrategy,
}

impl View for ProviderDescriptor {
    type V = ProviderDescriptorView;

    open spec fn view(&self) -> ProviderDescriptorView {
        ProviderDescriptorView {
            kind: self.kind,
            id: self.id@,
            display_name: self.display_name@,
            session_label: self.session_label@,
            weekly_label: self.weekly_label@,
            fetch_strategy: self.fetch_strategy,
        }
    }
}

/// The stable identifier of a provider.
pub open spec fn id_of(kind: ProviderKind) -> Seq<char> {
    match kind {
        ProviderKind::Codex => "codex"@,
        ProviderKind::Claude => "anthropic"@,
        ProviderKind::Cursor => "cursor"@,
        ProviderKind::Gemini => "gemini"@,
        ProviderKind::Copilot => "copilot"@,
        ProviderKind::Factory => "factory"@,
        ProviderKind::VertexAI => "vertexai"@,
        ProviderKind::Zai => "zai"@,
        ProviderKind::Augment => "augment"@,
        ProviderKind::Kiro => "kiro"@,
        ProviderKind::MiniMax => "minimax"@,
        ProviderKind::Antigravity => "antigravity"@,
        ProviderKind::Synthetic => "synthetic"@,
    }
}

/// The name under which a provider is shown.
pub open spec fn display_name_of(kind: ProviderKind) -> Seq<char> {
    match kind {
        ProviderKind::Codex => "Codex"@,
        ProviderKind::Claude => "Anthropic"@,
        ProviderKind::Cursor => "Cursor"@,
        ProviderKind::Gemini => "Gemini"@,
        ProviderKind::Copilot => "Copilot"@,
        ProviderKind::Factory => "Factory"@,
        ProviderKind::VertexAI => "Vertex AI"@,
        ProviderKind::Zai => "z.ai"@,
        ProviderKind::Augment => "Augment"@,
        ProviderKind::Kiro => "Kiro"@,
        ProviderKind::MiniMax => "MiniMax"@,
        ProviderKind::Antigravity => "Antigravity"@,
        ProviderKind::Synthetic => "Synthetic"@,
    }
}

/// The way a provider's usage is fetched.
pub open spec fn fetch_strategy_of(kind: ProviderKind) -> FetchStrategy {
    match kind {
        ProviderKind::Codex => FetchStrategy::Cli,
        ProviderKind::Claude => FetchStrategy::Cli,
        ProviderKind::Cursor => FetchStrategy::Cli,
        ProviderKind::Gemini => FetchStrategy::Cli,
        ProviderKind::Copilot => FetchStrategy::Api,
        ProviderKind::Factory => FetchStrategy::Cli,
        ProviderKind::VertexAI => FetchStrategy::Cli,
        ProviderKind::Zai => FetchStrategy::Api,
        ProviderKind::Augment => FetchStrategy::Cli,
        ProviderKind::Kiro => FetchStrategy::Cli,
        ProviderKind::MiniMax => FetchStrategy::Api,
        ProviderKind::Antigravity => FetchStrategy::Cli,
        ProviderKind::Synthetic => FetchStrategy::Api,
    }
}

/// The descriptor of a provider.
pub open spec fn descriptor_of(kind: ProviderKind) -> ProviderDescriptorView {
    ProviderDescriptorView {
        kind,
        id: id_of(kind),
        display_name: display_name_of(kind),
        session_label: "Session"@,
        weekly_label: "Weekly"@,
        fetch_strategy: fetch_strategy_of(kind),
    }
}

impl ProviderKind {
    /// The stable identifier of this provider.
    pub fn id(self) -> (s: &'static str)
        ensures
            s@ == id_of(self),
    {
        match self {
            ProviderKind::Codex => "codex",
            ProviderKind::Claude => "anthropic",
            ProviderKind::Cursor => "cursor",
            ProviderKind::Gemini => "gemini",
            ProviderKind::Copilot => "copilot",
            ProviderKind::Factory => "factory",
            ProviderKind::VertexAI => "vertexai",
            ProviderKind::Zai => "zai",
            ProviderKind::Augment => "augment",
            ProviderKind::Kiro => "kiro",
            ProviderKind::MiniMax => "minimax",
            ProviderKind::Antigravity => "antigravity",
            ProviderKind::Synthetic => "synthetic",
        }
    }

    /// The name under which this provider is shown.
    pub fn display_name(self) -> (s: &'static str)
        ensures
            s@ == display_name_of(self),
    {
        match self {
            ProviderKind::Codex => "Codex",
            ProviderKind::Claude => "Anthropic",
            ProviderKind::Cursor => "Cursor",
            ProviderKind::Gemini => "Gemini",
            ProviderKind::Copilot => "Copilot",
            ProviderKind::Factory => "Factory",
            ProviderKind::VertexAI => "Vertex AI",
            ProviderKind::Zai => "z.ai",
            ProviderKind::Augment => "Augment",
            ProviderKind::Kiro => "Kiro",
            ProviderKind::MiniMax => "MiniMax",
            ProviderKind::Antigravity => "Antigravity",
            ProviderKind::Synthetic => "Synthetic",
        }
    }

    /// The way this provider's usage is fetched.
    pub fn fetch_strategy(self) -> (s: FetchStrategy)
        ensures
            s == fetch_strategy_of(self),
    {
        match self {
            ProviderKind::Copilot => FetchStrategy::Api,
            ProviderKind::Zai => FetchStrategy::Api,
            ProviderKind::MiniMax => FetchStrategy::Api,
            ProviderKind::Synthetic => FetchStrategy::Api,
            _ => FetchStrategy::Cli,
        }
    }
}

/// The provider with the given stable identifier, if there is one.
pub fn provider_by_id(id: &str) -> (r: Option<ProviderKind>)
    ensures
        match r {
            Some(kind) => id_of(kind) == id@,
            None => forall|kind: ProviderKind| id_of(kind) != id@,
        },
{
    let wanted = String::from_str(id);
    let mut i: usize = 0;
    while i < PROVIDER_COUNT
        invariant
            i <= PROVIDER_COUNT,
            wanted@ == id@,
            forall|kind: ProviderKind| kind.index() < i ==> id_of(kind) != id@,
        decreases PROVIDER_COUNT - i,
    {
        match ProviderKind::from_index(i) {
            Some(kind) => {
                if String::from_str(kind.id()) == wanted {
                    return Some(kind);
                }
                assert forall|other: ProviderKind| other.index() < i + 1 implies id_of(other)
                    != id@ by {
                    if other.index() == i {
                        assert(other == kind);
                    }
                }
            },
            None => {
                proof {
                    lemma_kind_at_index(i as int);
                }
            },
        }
        i = i + 1;
    }
    None
}

/// The metadata of a provider. Every provider has a descriptor.
pub fn descriptor(kind: ProviderKind) -> (d: ProviderDescriptor)
    ensures
        d@ == descriptor_of(kind),
{
    ProviderDescriptor {
        kind,
        id: kind.id(),
        display_name: kind.display_name(),
        session_label: "Session",
        weekly_label: "Weekly",
        fetch_strategy: kind.fetch_strategy(),
    }
}

/// Identifiers are unique: two providers with the same identifier are the
/// same provider.
pub proof fn lemma_id_injective(a: ProviderKind, b: ProviderKind)
    requires
        id_of(a) == id_of(b),
    ensures
        a == b,
{
    reveal_strlit("codex");
    reveal_strlit("anthropic");
    reveal_strlit("cursor");
    reveal_strlit("gemini");
    reveal_strlit("copilot");
    reveal_strlit("factory");
    reveal_strlit("vertexai");
    reveal_strlit("zai");
    reveal_strlit("augment");
    reveal_strlit("kiro");
    reveal_strlit("minimax");
    reveal_strlit("antigravity");
    reveal_strlit("synthetic");
    if a != b {
        let x = id_of(a);
        let y = id_of(b);
        assert(x.len() != y.len() || x[0] != y[0] || x[1] != y[1] || x[2] != y[2]);
    }
}

} // verus!
