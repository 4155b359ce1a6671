//! The uniform usage model that every provider's response is normalized into.

use crate::fixed::Fixed;
use crate::kind::ProviderKind;
use crate::time::{Timestamp, STALE_AFTER_MILLIS};
use vstd::prelude::*;

verus! {

/// How an account is authenticated with its provider.
#[derive(Clone, Copy, Debug, PartialEq, Eq, Structural)]
pub enum LoginMethod {
    ApiKey,
    OAuth,
    CliSession,
}

/// Where a snapshot's data came from.
#[derive(Clone, Copy, Debug, PartialEq, Eq, Structural)]
pub enum FetchSource {
    Api,
    Cli,
    Cache,
}

/// The characters of an optional text.
pub open spec fn text_of(s: Option<String>) -> Option<Seq<char>> {
    match s {
        Some(s) => Some(s@),
        None => None,
    }
}

/// A copy of an optional text.
pub fn clone_text(s: &Option<String>) -> (r: Option<String>)
    ensures
        r == *s,
{
    match s {
        Some(s) => Some(s.clone()),
        None => None,
    }
}

/// One quota window.
///
/// `used_percent` is not clamped to `[0, 100]` here. Where `resets_at` is
/// present it takes precedence over `reset_description`.
#[derive(Debug)]
pub struct UsageWindow {
    pub used_percent: Fixed,
    pub window_minutes: Option<u32>,
    pub resets_at: Option<Timestamp>,
    pub reset_description: Option<String>,
}

/// The mathematical content of a `UsageWindow`.
pub struct UsageWindowView {
    pub used_percent: Fixed,
    pub window_minutes: Option<u32>,
    pub resets_at: Option<Timestamp>,
    pub reset_description: Option<Seq<char>>,
}

impl View for UsageWindow {
    type V = UsageWindowView;

    open spec fn view(&self) -> UsageWindowView {
        UsageWindowView {
            used_percent: self.used_percent,
            window_minutes: self.window_minutes,
            resets_at: self.resets_at,
            reset_description: text_of(self.reset_description),
        }
    }
}

impl Clone for UsageWindow {
    fn clone(&self) -> (r: Self)
        ensures
            r == *self,
    {
        UsageWindow {
            used_percent: self.used_percent,
            window_minutes: self.window_minutes,
            resets_at: self.resets_at,
            reset_description: clone_text(&self.reset_description),
        }
    }
}

/// The view of an optional window.
pub open spec fn window_view(w: Option<UsageWindow>) -> Option<UsageWindowView> {
    match w {
        Some(w) => Some(w@),
        None => None,
    }
}

/// A copy of an optional window.
pub fn clone_window(w: &Option<UsageWindow>) -> (r: Option<UsageWindow>)
    ensures
        r == *w,
{
    match w {
        Some(w) => Some(w.clone()),
        None => None,
    }
}

/// Who is authenticated with a provider.
#[derive(Debug)]
pub struct ProviderIdentity {
    pub provider: ProviderKind,
    pub account_email: Option<String>,
    pub plan_name: Option<String>,
    pub login_method: Option<LoginMethod>,
}

/// The mathematical content of a `ProviderIdentity`.
pub struct ProviderIdentityView {
    pub provider: ProviderKind,
    pub account_email: Option<Seq<char>>,
    pub plan_name: Option<Seq<char>>,
    pub login_method: Option<LoginMethod>,
}

impl View for ProviderIdentity {
    type V = ProviderIdentityView;

    open spec fn view(&self) -> ProviderIdentityView {
        ProviderIdentityView {
            provider: self.provider,
            account_email: text_of(self.account_email),
            plan_name: text_of(self.plan_name),
            login_method: self.login_method,
        }
    }
}

impl Clone for ProviderIdentity {
    fn clone(&self) -> (r: Self)
        ensures
            r == *self,
    {
        ProviderIdentity {
            provider: self.provider,
            account_email: clone_text(&self.account_email),
            plan_name: clone_text(&self.plan_name),
            login_method: self.login_method,
        }
    }
}

impl ProviderIdentity {
    /// An identity for `provider` about which nothing else is known.
    pub fn new(provider: ProviderKind) -> (r: ProviderIdentity)
        ensures
            r@ == (ProviderIdentityView {
                provider,
                account_email: None,
                plan_name: None,
                login_method: None,
            }),
    {
        ProviderIdentity { provider, account_email: None, plan_name: None, login_method: None }
    }
}

/// The view of an optional identity.
pub open spec fn identity_view(i: Option<ProviderIdentity>) -> Option<ProviderIdentityView> {
    match i {
        Some(i) => Some(i@),
        None => None,
    }
}

/// The latest normalized usage record of one provider.
///
/// `updated_at` is the time at which the fetch completed. Whether the
/// snapshot is stale is not stored: it follows from `updated_at` and the
/// time of the question.
#[derive(Debug)]
pub struct UsageSnapshot {
    pub primary: Option<UsageWindow>,
    pub secondary: Option<UsageWindow>,
    pub tertiary: Option<UsageWindow>,
    pub search: Option<UsageWindow>,
    pub identity: Option<ProviderIdentity>,
    pub fetch_source: FetchSource,
    pub updated_at: Timestamp,
}

/// The mathematical content of a `UsageSnapshot`.
pub struct UsageSnapshotView {
    pub primary: Option<UsageWindowView>,
    pub secondary: Option<UsageWindowView>,
    pub tertiary: Option<UsageWindowView>,
    pub search: Option<UsageWindowView>,
    pub identity: Option<ProviderIdentityView>,
    pub fetch_source: FetchSource,
    pub updated_at: Timestamp,
}

impl View for UsageSnapshot {
    type V = UsageSnapshotView;

    open spec fn view(&self) -> UsageSnapshotView {
        UsageSnapshotView {
            primary: window_view(self.primary),
            secondary: window_view(self.secondary),
            tertiary: window_view(self.tertiary),
            search: window_view(self.search),
            identity: identity_view(self.identity),
            fetch_source: self.fetch_source,
            updated_at: self.updated_at,
        }
    }
}

impl Clone for UsageSnapshot {
    fn clone(&self) -> (r: Self)
        ensures
            r == *self,
    {
        UsageSnapshot {
            primary: clone_window(&self.primary),
            secondary: clone_window(&self.secondary),
            tertiary: clone_window(&self.tertiary),
            search: clone_window(&self.search),
            identity: match &self.identity {
                Some(i) => Some(i.clone()),
                None => None,
            },
            fetch_source: self.fetch_source,
            updated_at: self.updated_at,
        }
    }
}

/// The view of an optional snapshot.
pub open spec fn snapshot_view(s: Option<UsageSnapshot>) -> Option<UsageSnapshotView> {
    match s {
        Some(s) => Some(s@),
        None => None,
    }
}

impl UsageSnapshotView {
    /// Whether the snapshot is stale at `now`: more than ten minutes old.
    /// A snapshot of exactly ten minutes is not stale.
    pub open spec fn is_stale(self, now: Timestamp) -> bool {
        now@ - self.updated_at@ > STALE_AFTER_MILLIS
    }
}

impl UsageSnapshot {
    /// A snapshot without windows or identity, taken from `fetch_source` and
    /// completed at `updated_at`.
    pub fn new(fetch_source: FetchSource, updated_at: Timestamp) -> (r: UsageSnapshot)
        ensures
            r@ == (UsageSnapshotView {
                primary: None,
                secondary: None,
                tertiary: None,
                search: None,
                identity: None,
                fetch_source,
                updated_at,
            }),
    {
        UsageSnapshot {
            primary: None,
            secondary: None,
            tertiary: None,
            search: None,
            identity: None,
            fetch_source,
            updated_at,
        }
    }

    /// Whether the snapshot is stale at `now`: strictly more than ten
    /// minutes have passed since `updated_at`.
    pub fn is_stale(&self, now: Timestamp) -> (r: bool)
        ensures
            r == self@.is_stale(now),
            r == (now@ - self.updated_at@ > 600_000),
    {
        self.updated_at.is_older_than(now, STALE_AFTER_MILLIS)
    }
}

/// Staleness has one threshold, ten minutes, and the threshold itself is on
/// the fresh side: an age of eleven minutes or more is stale, an age of ten
/// minutes or less (nine, say) is not.
pub proof fn lemma_staleness_threshold(snapshot: UsageSnapshotView, now: Timestamp)
    ensures
        now@ - snapshot.updated_at@ >= 11 * 60_000 ==> snapshot.is_stale(now),
        now@ - snapshot.updated_at@ <= 10 * 60_000 ==> !snapshot.is_stale(now),
        snapshot.is_stale(now) <==> now@ - snapshot.updated_at@ > 10 * 60_000,
{
}

} // verus!
