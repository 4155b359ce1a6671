//! The popup menu's state and the data of its cards: which tab is selected,
//! which providers are listed, and what a provider's card shows.

use crate::cache::{CacheView, StateCache};
use crate::kind::{copy_kinds, ProviderKind};
use crate::metrics::{metrics_of, UsageMetricsSection};
use crate::registry::{descriptor, display_name_of};
use crate::usage::{
    clone_text, snapshot_view, text_of, UsageSnapshot, UsageSnapshotView,
};
use vstd::prelude::*;

verus! {

/// The tab of the menu that is selected: all providers, or one of them.
#[derive(Clone, Copy, Debug, PartialEq, Eq, Structural)]
pub enum SelectedTab {
    All,
    Provider(ProviderKind),
}

impl SelectedTab {
    /// Whether the tab of all providers is selected.
    pub fn is_all(&self) -> (r: bool)
        ensures
            r == (*self == SelectedTab::All),
    {
        match self {
            SelectedTab::All => true,
            SelectedTab::Provider(_) => false,
        }
    }
}

/// The providers whose cards a tab lists: every enabled provider for the
/// tab of all, the one provider for its own tab.
pub open spec fn listed_providers(tab: SelectedTab, enabled: Seq<ProviderKind>) -> Seq<
    ProviderKind,
> {
    match tab {
        SelectedTab::All => enabled,
        SelectedTab::Provider(provider) => seq![provider],
    }
}

/// The main popup panel.
#[derive(Debug)]
pub struct MenuPanel {
    selected_tab: SelectedTab,
}

/// A second name of the panel.
pub type TrayMenu = MenuPanel;

impl MenuPanel {
    /// The selected tab.
    pub closed spec fn tab(&self) -> SelectedTab {
        self.selected_tab
    }

    /// A panel that opens on the tab of `initial_provider`, or on the tab of
    /// all providers where none is given.
    pub fn new(initial_provider: Option<ProviderKind>) -> (panel: Self)
        ensures
            panel.tab() == match initial_provider {
                Some(provider) => SelectedTab::Provider(provider),
                None => SelectedTab::All,
            },
    {
        MenuPanel {
            selected_tab: match initial_provider {
                Some(provider) => SelectedTab::Provider(provider),
                None => SelectedTab::All,
            },
        }
    }

    /// The selected tab.
    pub fn selected_tab(&self) -> (tab: SelectedTab)
        ensures
            tab == self.tab(),
    {
        self.selected_tab
    }

    /// Whether the tab of `provider` is selected.
    pub fn is_selected(&self, provider: ProviderKind) -> (r: bool)
        ensures
            r == (self.tab() == SelectedTab::Provider(provider)),
    {
        match self.selected_tab {
            SelectedTab::All => false,
            SelectedTab::Provider(selected) => selected == provider,
        }
    }

    /// Select the tab of all providers.
    pub fn select_all(&mut self)
        ensures
            final(self).tab() == SelectedTab::All,
    {
        self.selected_tab = SelectedTab::All;
    }

    /// Select the tab of `provider`. Returns whether a refresh of the
    /// provider is to be asked for: it is where the cache has no snapshot
    /// of it.
    pub fn select_provider(&mut self, provider: ProviderKind, cache: &StateCache) -> (refresh:
        bool)
        ensures
            final(self).tab() == SelectedTab::Provider(provider),
            refresh == cache@.state(provider).last_snapshot.is_none(),
    {
        self.selected_tab = SelectedTab::Provider(provider);
        cache.get_snapshot(provider).is_none()
    }

    /// Whether the provider switcher is shown: only with more than one
    /// provider enabled.
    pub fn shows_switcher(enabled: &Vec<ProviderKind>) -> (r: bool)
        ensures
            r == (enabled@.len() > 1),
    {
        enabled.len() > 1
    }

    /// The providers whose cards are listed, in order.
    pub fn listed_providers(&self, enabled: &Vec<ProviderKind>) -> (listed: Vec<ProviderKind>)
        ensures
            listed@ == listed_providers(self.tab(), enabled@),
    {
        match self.selected_tab {
            SelectedTab::All => copy_kinds(enabled),
            SelectedTab::Provider(provider) => {
                let mut listed: Vec<ProviderKind> = Vec::new();
                listed.push(provider);
                assert(listed@ =~= seq![provider]);
                listed
            },
        }
    }
}

/// The parts that the body of a card shows.
#[derive(Clone, Copy, Debug, PartialEq, Eq, Structural)]
pub struct CardSections {
    /// The error of the last fetch.
    pub error: bool,
    /// The usage metrics of the last snapshot.
    pub usage: bool,
    /// A note that there is no data yet.
    pub placeholder: bool,
}

/// What a provider's card shows.
#[derive(Debug)]
pub struct MenuCardData {
    pub provider: ProviderKind,
    pub provider_name: String,
    pub email: String,
    pub plan: Option<String>,
    pub snapshot: Option<UsageSnapshot>,
    pub is_refreshing: bool,
    pub error: Option<String>,
    pub session_label: &'static str,
    pub weekly_label: &'static str,
    /// Whether percentages are labelled as used rather than remaining.
    pub show_used: bool,
    /// Whether resets are shown as a time of day rather than as a span.
    pub show_absolute: bool,
}

/// The mathematical content of a `MenuCardData`.
pub struct MenuCardView {
    pub provider: ProviderKind,
    pub provider_name: Seq<char>,
    pub email: Seq<char>,
    pub plan: Option<Seq<char>>,
    pub snapshot: Option<UsageSnapshotView>,
    pub is_refreshing: bool,
    pub error: Option<Seq<char>>,
    pub session_label: Seq<char>,
    pub weekly_label: Seq<char>,
    pub show_used: bool,
    pub show_absolute: bool,
}

impl View for MenuCardData {
    type V = MenuCardView;

    open spec fn view(&self) -> MenuCardView {
        MenuCardView {
            provider: self.provider,
            provider_name: self.provider_name@,
            email: self.email@,
            plan: text_of(self.plan),
            snapshot: snapshot_view(self.snapshot),
            is_refreshing: self.is_refreshing,
            error: text_of(self.error),
            session_label: self.session_label@,
            weekly_label: self.weekly_label@,
            show_used: self.show_used,
            show_absolute: self.show_absolute,
        }
    }
}

/// The account's e-mail address of a snapshot: empty where the snapshot, its
/// identity or the address is missing.
pub open spec fn email_of(snapshot: Option<UsageSnapshotView>) -> Seq<char> {
    match snapshot {
        Some(snapshot) => match snapshot.identity {
            Some(identity) => match identity.account_email {
                Some(email) => email,
                None => Seq::empty(),
            },
            None => Seq::empty(),
        },
        None => Seq::empty(),
    }
}

/// The plan name of a snapshot, where the snapshot has an identity that
/// names one.
pub open spec fn plan_of(snapshot: Option<UsageSnapshotView>) -> Option<Seq<char>> {
    match snapshot {
        Some(snapshot) => match snapshot.identity {
            Some(identity) => identity.plan_name,
            None => None,
        },
        None => None,
    }
}

/// The card of `provider` for the state that `cache` holds of it.
pub open spec fn card_of(
    cache: CacheView,
    provider: ProviderKind,
    show_used: bool,
    show_absolute: bool,
) -> MenuCardView {
    let state = cache.state(provider);
    MenuCardView {
        provider,
        provider_name: display_name_of(provider),
        email: email_of(state.last_snapshot),
        plan: plan_of(state.last_snapshot),
        snapshot: state.last_snapshot,
        is_refreshing: state.is_refreshing,
        error: state.last_error,
        session_label: "Session"@,
        weekly_label: "Weekly"@,
        show_used,
        show_absolute,
    }
}

impl MenuCardView {
    /// The parts that the body of the card shows: the error where the last
    /// fetch failed, and the usage where there is a snapshot, both where
    /// there are both. With neither the body holds a placeholder, unless
    /// the first fetch is under way.
    pub open spec fn sections(self) -> CardSections {
        CardSections {
            error: self.error is Some,
            usage: self.snapshot is Some,
            placeholder: self.error is None && self.snapshot is None && !self.is_refreshing,
        }
    }

    /// The status line of the card's header.
    pub open spec fn status_text(self) -> Seq<char> {
        if self.is_refreshing {
            "Refreshing..."@
        } else if self.error is Some {
            "Error"@
        } else {
            "Updated just now"@
        }
    }
}

impl MenuCardData {
    /// The card of `provider`, read from the cache, with the two display
    /// settings.
    pub fn new(provider: ProviderKind, cache: &StateCache, show_used: bool, show_absolute: bool)
        -> (data: Self)
        ensures
            data@ == card_of(cache@, provider, show_used, show_absolute),
    {
        let snapshot = cache.get_snapshot(provider);
        let is_refreshing = cache.is_refreshing(provider);
        let error = cache.get_error(provider);
        let descriptor = descriptor(provider);
        let mut email = String::new();
        let mut plan: Option<String> = None;
        match &snapshot {
            Some(snapshot) => match &snapshot.identity {
                Some(identity) => {
                    match &identity.account_email {
                        Some(address) => {
                            email = address.clone();
                        },
                        None => {},
                    }
                    plan = clone_text(&identity.plan_name);
                },
                None => {},
            },
            None => {},
        }
        MenuCardData {
            provider,
            provider_name: String::from_str(descriptor.display_name),
            email,
            plan,
            snapshot,
            is_refreshing,
            error,
            session_label: descriptor.session_label,
            weekly_label: descriptor.weekly_label,
            show_used,
            show_absolute,
        }
    }
}

/// A provider's card.
#[derive(Debug)]
pub struct MenuCard {
    data: MenuCardData,
}

impl View for MenuCard {
    type V = MenuCardView;

    closed spec fn view(&self) -> MenuCardView {
        self.data@
    }
}

impl MenuCard {
    /// The card that shows `data`.
    pub fn new(data: MenuCardData) -> (card: Self)
        ensures
            card@ == data@,
    {
        MenuCard { data }
    }

    /// What the card shows.
    pub fn data(&self) -> (data: &MenuCardData)
        ensures
            data@ == self@,
    {
        &self.data
    }

    /// Whether the header is drawn in the colour of errors.
    pub fn has_error(&self) -> (r: bool)
        ensures
            r == self@.error is Some,
    {
        self.data.error.is_some()
    }

    /// The status line of the header: `Refreshing...` while a fetch is in
    /// flight, else `Error` where the last fetch failed, else
    /// `Updated just now`.
    pub fn status_text(&self) -> (s: &'static str)
        ensures
            s@ == self@.status_text(),
    {
        if self.data.is_refreshing {
            "Refreshing..."
        } else if self.data.error.is_some() {
            "Error"
        } else {
            "Updated just now"
        }
    }

    /// The parts that the body of the card shows.
    pub fn sections(&self) -> (sections: CardSections)
        ensures
            sections == self@.sections(),
    {
        let error = self.data.error.is_some();
        let usage = self.data.snapshot.is_some();
        CardSections { error, usage, placeholder: !error && !usage && !self.data.is_refreshing }
    }

    /// The usage metrics of the card: those of its snapshot, whether or not
    /// an error is shown with them. Without a snapshot there are none.
    pub fn usage_metrics(&self) -> (metrics: Option<UsageMetricsSection>)
        ensures
            metrics is Some <==> self@.snapshot is Some,
            metrics is Some ==> metrics->0@ == metrics_of(
                self@.snapshot->0,
                self@.session_label,
                self@.weekly_label,
                Some("Search"@),
                self@.show_used,
                self@.show_absolute,
            ),
    {
        match &self.data.snapshot {
            Some(snapshot) => Some(
                UsageMetricsSection::new(
                    snapshot,
                    self.data.session_label,
                    self.data.weekly_label,
                    Some("Search"),
                    self.data.show_used,
                    self.data.show_absolute,
                ),
            ),
            None => None,
        }
    }
}

/// Whether the first-run settings are to be opened: only where no provider
/// is enabled.
pub fn should_show_onboarding(cache: &StateCache) -> (r: bool)
    ensures
        r == (cache@.enabled.len() == 0),
{
    cache.enabled_providers().len() == 0
}

/// Data that is known stays on the card while an error is shown with it:
/// the card of a provider whose fetch failed still carries the snapshot of
/// the last success, and its body shows the error and, where there is such
/// a snapshot, the usage beside it.
pub proof fn lemma_card_keeps_snapshot_on_error(
    cache: CacheView,
    provider: ProviderKind,
    error: crate::error::FetchErrorView,
    show_used: bool,
    show_absolute: bool,
)
    requires
        cache.wf(),
        cache.is_enabled(provider),
    ensures
        card_of(
            cache.apply_result(provider, Err(error)),
            provider,
            show_used,
            show_absolute,
        ).snapshot == card_of(cache, provider, show_used, show_absolute).snapshot,
        card_of(
            cache.apply_result(provider, Err(error)),
            provider,
            show_used,
            show_absolute,
        ).sections() == (CardSections {
            error: true,
            usage: cache.state(provider).last_snapshot is Some,
            placeholder: false,
        }),
{
}

} // verus!
