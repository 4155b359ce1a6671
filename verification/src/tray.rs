//! The bookkeeping of the system tray: which status items exist, what an
//! icon shows, and what a click or a menu entry asks for.
//!
//! Nothing here draws or talks to the desktop. Each operation changes the
//! bookkeeping and answers with what the caller is to do natively.

use crate::cache::{CacheView, StateCache};
use crate::kind::{copy_kinds, kind_at, ProviderKind};
use crate::kind_set::{lemma_members, lemma_push_to_set, members, KindSet};
use crate::time::Timestamp;
use vstd::prelude::*;

verus! {

/// Time that passes between two random animations at least: thirty seconds.
pub const RANDOM_ANIMATION_COOLDOWN_MILLIS: u64 = 30_000;

/// The kind of tray that the desktop offers.
#[derive(Clone, Copy, Debug, PartialEq, Eq, Structural)]
pub enum TrayPlatform {
    /// A status bar with one item per provider, or one merged item.
    StatusBar,
    /// A notifier area with a single icon for the application.
    Notifier,
}

/// What an icon shows.
#[derive(Clone, Copy, Debug, PartialEq, Eq, Structural)]
pub enum IconMode {
    /// A fetch is in flight.
    Loading,
    /// The usage of the last snapshot, dimmed where the snapshot is stale,
    /// and beside it the mark of an error where the last fetch failed. An
    /// error does not take the usage off the icon.
    Usage { stale: bool, error: bool },
}

/// The native item whose image an icon update replaces.
#[derive(Clone, Copy, Debug, PartialEq, Eq, Structural)]
pub enum IconTarget {
    /// The merged status item.
    Merged,
    /// The status item of one provider.
    Item(ProviderKind),
    /// The single icon of the notifier area.
    Shared,
}

/// A position on the screen.
#[derive(Clone, Copy, Debug, PartialEq, Eq, Structural)]
pub struct ScreenPoint {
    pub x: i32,
    pub y: i32,
}

/// What the caller is to do with the popup menu.
#[derive(Clone, Copy, Debug, PartialEq, Eq, Structural)]
pub enum MenuAction {
    Open,
    Close,
}

/// An event of the notifier tray.
#[derive(Clone, Copy, Debug, PartialEq, Eq, Structural)]
pub enum LinuxTrayEvent {
    /// The icon was clicked at a position of the screen.
    Activate { x: i32, y: i32 },
    /// The menu entry that opens the popup.
    OpenMenu,
    /// The menu entry that refreshes every provider.
    Refresh,
    /// The menu entry that opens the settings.
    Settings,
    /// The menu entry that quits.
    Quit,
}

/// What a click or a menu entry asks for.
#[derive(Clone, Copy, Debug, PartialEq, Eq, Structural)]
pub enum TrayCommand {
    /// Open the popup, or close it where it is open.
    ToggleMenu { provider: Option<ProviderKind>, position: Option<ScreenPoint> },
    RefreshAll,
    OpenSettings,
    Quit,
}

/// The animation that plays on an icon.
#[derive(Clone, Copy, Debug, PartialEq, Eq, Structural)]
pub enum AnimationKind {
    Blink,
    Wiggle,
    Tilt,
}

/// The outcome of one look at the random animations.
#[derive(Clone, Copy, Debug, PartialEq, Eq, Structural)]
pub enum RandomAnimation {
    /// Random animations are off, or the last one is too recent. The time of
    /// the last one stays as it is.
    NotDue,
    /// It was time, but chance or the lack of a provider said no. The
    /// waiting starts anew.
    Missed,
    /// An animation plays. The waiting starts anew.
    Play { provider: ProviderKind, animation: AnimationKind },
}

/// The native items to remove and to create.
#[derive(Debug)]
pub struct ItemPlan {
    /// Whether every status item, the merged one too, is removed first.
    pub remove_all: bool,
    /// The provider whose icon the new merged item shows, where one is
    /// created.
    pub create_merged: Option<ProviderKind>,
    /// The providers that get a status item of their own, in order.
    pub create_items: Vec<ProviderKind>,
}

/// The mathematical content of an `ItemPlan`.
pub struct ItemPlanView {
    pub remove_all: bool,
    pub create_merged: Option<ProviderKind>,
    pub create_items: Seq<ProviderKind>,
}

impl View for ItemPlan {
    type V = ItemPlanView;

    open spec fn view(&self) -> ItemPlanView {
        ItemPlanView {
            remove_all: self.remove_all,
            create_merged: self.create_merged,
            create_items: self.create_items@,
        }
    }
}

/// The mathematical content of the tray's bookkeeping.
pub struct TrayView {
    pub platform: TrayPlatform,
    /// Whether one merged item stands for all providers.
    pub merge_mode: bool,
    /// Whether the merged item exists.
    pub merged_item: bool,
    /// The providers with a status item of their own.
    pub status_items: Set<ProviderKind>,
    /// The providers whose icon can be animated.
    pub animated: Set<ProviderKind>,
    pub menu_open: bool,
    pub surprise_me_enabled: bool,
    /// Whether the click listener runs.
    pub listening: bool,
}

/// The first item of a sequence, if it has one.
pub open spec fn first_of(s: Seq<ProviderKind>) -> Option<ProviderKind> {
    if s.len() > 0 {
        Some(s[0])
    } else {
        None
    }
}

/// The status items that a tray in the given mode has for `providers`.
pub open spec fn items_for(platform: TrayPlatform, merge_mode: bool, providers: Seq<ProviderKind>)
    -> ItemPlanView {
    match platform {
        TrayPlatform::StatusBar => if merge_mode {
            ItemPlanView {
                remove_all: false,
                create_merged: first_of(providers),
                create_items: Seq::empty(),
            }
        } else {
            ItemPlanView { remove_all: false, create_merged: None, create_items: providers }
        },
        TrayPlatform::Notifier => ItemPlanView {
            remove_all: false,
            create_merged: None,
            create_items: Seq::empty(),
        },
    }
}

/// The animation that a draw selects.
pub open spec fn animation_of(draw: u8) -> AnimationKind {
    if draw % 3 == 0 {
        AnimationKind::Blink
    } else if draw % 3 == 1 {
        AnimationKind::Wiggle
    } else {
        AnimationKind::Tilt
    }
}

/// What a click or a menu entry of the notifier tray asks for.
pub open spec fn command_of(event: LinuxTrayEvent) -> TrayCommand {
    match event {
        LinuxTrayEvent::Activate { x, y } => TrayCommand::ToggleMenu {
            provider: None,
            position: Some(ScreenPoint { x, y }),
        },
        LinuxTrayEvent::OpenMenu => TrayCommand::ToggleMenu { provider: None, position: None },
        LinuxTrayEvent::Refresh => TrayCommand::RefreshAll,
        LinuxTrayEvent::Settings => TrayCommand::OpenSettings,
        LinuxTrayEvent::Quit => TrayCommand::Quit,
    }
}

/// What the icon of `kind` shows at `now`, given the cache: loading while a
/// fetch is in flight, else the usage of the last snapshot, stale or fresh,
/// with the mark of an error where the last fetch failed.
pub open spec fn icon_mode_of(cache: CacheView, kind: ProviderKind, now: Timestamp) -> IconMode {
    if cache.state(kind).is_refreshing {
        IconMode::Loading
    } else {
        IconMode::Usage {
            stale: cache.is_stale(kind, now),
            error: cache.state(kind).last_error is Some,
        }
    }
}

/// The providers whose icons a full update redraws: every enabled provider
/// on a status bar, the first one only in a notifier area.
pub open spec fn update_targets(platform: TrayPlatform, enabled: Seq<ProviderKind>) -> Seq<
    ProviderKind,
> {
    match platform {
        TrayPlatform::StatusBar => enabled,
        TrayPlatform::Notifier => match first_of(enabled) {
            Some(first) => seq![first],
            None => Seq::empty(),
        },
    }
}

/// Pixels in the byte order alpha, red, green, blue, made from pixels in the
/// order red, green, blue, alpha. Bytes after the last whole pixel stay.
pub open spec fn argb_of(rgba: Seq<u8>) -> Seq<u8> {
    Seq::new(
        rgba.len(),
        |i: int|
            if i - i % 4 + 4 <= rgba.len() {
                if i % 4 == 0 {
                    rgba[i + 3]
                } else {
                    rgba[i - 1]
                }
            } else {
                rgba[i]
            },
    )
}

impl TrayView {
    /// Whether no provider has a status item of its own.
    pub open spec fn has_no_item(self) -> bool {
        forall|kind: ProviderKind| !self.status_items.contains(kind)
    }

    /// A merged item exists only in merge mode on a status bar; providers
    /// have items of their own only out of merge mode on a status bar.
    pub open spec fn wf(self) -> bool {
        &&& self.merged_item ==> self.merge_mode && self.platform == TrayPlatform::StatusBar
        &&& self.merge_mode || self.platform == TrayPlatform::Notifier ==> self.has_no_item()
    }

    /// The tray as it is set up for `providers`.
    pub open spec fn initial(
        platform: TrayPlatform,
        providers: Seq<ProviderKind>,
        merge_mode: bool,
        surprise_me_enabled: bool,
    ) -> TrayView {
        TrayView {
            platform,
            merge_mode,
            merged_item: items_for(platform, merge_mode, providers).create_merged is Some,
            status_items: items_for(platform, merge_mode, providers).create_items.to_set(),
            animated: providers.to_set(),
            menu_open: false,
            surprise_me_enabled,
            listening: false,
        }
    }

    /// Whether a change to `merge` rebuilds the status items: only on a
    /// status bar, and only where the mode really changes.
    pub open spec fn rebuilds_for(self, merge: bool) -> bool {
        self.platform == TrayPlatform::StatusBar && self.merge_mode != merge
    }

    /// The tray after merge mode was set to `merge`, with `providers`
    /// enabled.
    pub open spec fn set_merge_mode(self, merge: bool, providers: Seq<ProviderKind>) -> TrayView {
        if self.rebuilds_for(merge) {
            TrayView {
                merge_mode: merge,
                merged_item: items_for(self.platform, merge, providers).create_merged is Some,
                status_items: items_for(self.platform, merge, providers).create_items.to_set(),
                ..self
            }
        } else {
            TrayView { merge_mode: merge, ..self }
        }
    }

    /// The native items that the change to `merge` removes and creates.
    pub open spec fn merge_plan(self, merge: bool, providers: Seq<ProviderKind>) -> ItemPlanView {
        if self.rebuilds_for(merge) {
            ItemPlanView { remove_all: true, ..items_for(self.platform, merge, providers) }
        } else {
            ItemPlanView { remove_all: false, create_merged: None, create_items: Seq::empty() }
        }
    }

    /// Whether adding `provider` creates a status item: on a status bar out
    /// of merge mode, where the provider has none yet.
    pub open spec fn creates_item(self, provider: ProviderKind) -> bool {
        self.platform == TrayPlatform::StatusBar && !self.merge_mode && !self.status_items.contains(
            provider,
        )
    }

    /// The tray after `provider` was added.
    pub open spec fn add_provider(self, provider: ProviderKind) -> TrayView {
        TrayView {
            animated: self.animated.insert(provider),
            status_items: if self.creates_item(provider) {
                self.status_items.insert(provider)
            } else {
                self.status_items
            },
            ..self
        }
    }

    /// The tray after `provider` was removed.
    pub open spec fn remove_provider(self, provider: ProviderKind) -> TrayView {
        TrayView {
            animated: self.animated.remove(provider),
            status_items: self.status_items.remove(provider),
            ..self
        }
    }

    /// The native item that shows the icon of `provider`, if there is one.
    pub open spec fn icon_target(self, provider: ProviderKind) -> Option<IconTarget> {
        match self.platform {
            TrayPlatform::Notifier => Some(IconTarget::Shared),
            TrayPlatform::StatusBar => if self.merge_mode {
                if self.merged_item {
                    Some(IconTarget::Merged)
                } else {
                    None
                }
            } else if self.status_items.contains(provider) {
                Some(IconTarget::Item(provider))
            } else {
                None
            },
        }
    }

    /// The native item under which the popup opens for a click on
    /// `provider`, if there is one.
    pub open spec fn anchor(self, provider: Option<ProviderKind>) -> Option<IconTarget> {
        match self.platform {
            TrayPlatform::Notifier => None,
            TrayPlatform::StatusBar => if self.merge_mode {
                if self.merged_item {
                    Some(IconTarget::Merged)
                } else {
                    None
                }
            } else {
                match provider {
                    Some(provider) => if self.status_items.contains(provider) {
                        Some(IconTarget::Item(provider))
                    } else {
                        None
                    },
                    None => None,
                }
            },
        }
    }

    /// The animation that the two draws select: one of the providers that
    /// can be animated, counted in enumeration order, and one of the three
    /// animations. Without such a provider the look is a miss.
    pub open spec fn pick_animation(self, provider_draw: usize, animation_draw: u8)
        -> RandomAnimation {
        let candidates = members(self.animated);
        if candidates.len() == 0 {
            RandomAnimation::Missed
        } else {
            RandomAnimation::Play {
                provider: candidates[(provider_draw as int) % (candidates.len() as int)],
                animation: animation_of(animation_draw),
            }
        }
    }

    /// Whether it is time for a random animation, `elapsed_millis` after the
    /// last one.
    pub open spec fn animation_due(self, elapsed_millis: u64) -> bool {
        self.surprise_me_enabled && elapsed_millis >= RANDOM_ANIMATION_COOLDOWN_MILLIS
    }

    /// The outcome of a look at the random animations, given the time since
    /// the last one, whether chance said yes, and the two draws.
    pub open spec fn random_animation(
        self,
        elapsed_millis: u64,
        chance_hit: bool,
        provider_draw: usize,
        animation_draw: u8,
    ) -> RandomAnimation {
        if !self.animation_due(elapsed_millis) {
            RandomAnimation::NotDue
        } else if !chance_hit {
            RandomAnimation::Missed
        } else {
            self.pick_animation(provider_draw, animation_draw)
        }
    }
}

impl RandomAnimation {
    /// Whether the waiting for the next random animation starts anew.
    pub fn restarts_waiting(&self) -> (r: bool)
        ensures
            r == (*self != RandomAnimation::NotDue),
    {
        match self {
            RandomAnimation::NotDue => false,
            _ => true,
        }
    }
}

/// `rand::random::<usize>()`: a random number. Nothing is promised of it.
#[verifier::external_body]
fn random_usize() -> usize {
    rand::random::<usize>()
}

/// `rand::random::<u8>()`: a random number. Nothing is promised of it.
#[verifier::external_body]
fn random_u8() -> u8 {
    rand::random::<u8>()
}

/// What a click or a menu entry of the notifier tray asks for.
pub fn command_for(event: LinuxTrayEvent) -> (command: TrayCommand)
    ensures
        command == command_of(event),
{
    match event {
        LinuxTrayEvent::Activate { x, y } => TrayCommand::ToggleMenu {
            provider: None,
            position: Some(ScreenPoint { x, y }),
        },
        LinuxTrayEvent::OpenMenu => TrayCommand::ToggleMenu { provider: None, position: None },
        LinuxTrayEvent::Refresh => TrayCommand::RefreshAll,
        LinuxTrayEvent::Settings => TrayCommand::OpenSettings,
        LinuxTrayEvent::Quit => TrayCommand::Quit,
    }
}

/// What a click on a status item asks for, given the code that the item's
/// delegate carries: the popup of the provider that the code stands for.
pub fn command_for_click(code: u8) -> (command: TrayCommand)
    ensures
        command == (TrayCommand::ToggleMenu { provider: kind_at(code as int), position: None }),
{
    TrayCommand::ToggleMenu { provider: ProviderKind::from_code(code), position: None }
}

/// What the icon of `kind` shows at `now`.
pub fn icon_mode(cache: &StateCache, kind: ProviderKind, now: Timestamp) -> (mode: IconMode)
    ensures
        mode == icon_mode_of(cache@, kind, now),
{
    if cache.is_refreshing(kind) {
        IconMode::Loading
    } else {
        IconMode::Usage { stale: cache.is_stale(kind, now), error: cache.get_error(kind).is_some() }
    }
}

/// Turn pixels from the byte order red, green, blue, alpha into the order
/// alpha, red, green, blue, in place. Bytes after the last whole pixel stay
/// as they are.
pub fn rgba_to_argb(pixels: &mut Vec<u8>)
    ensures
        final(pixels)@ == argb_of(old(pixels)@),
        final(pixels)@.len() == old(pixels)@.len(),
{
    let n = pixels.len();
    let mut i: usize = 0;
    while n - i >= 4
        invariant
            n == pixels.len(),
            n == old(pixels)@.len(),
            i % 4 == 0,
            i <= n,
            forall|j: int| 0 <= j < i ==> pixels@[j] == argb_of(old(pixels)@)[j],
            forall|j: int| i <= j < n ==> pixels@[j] == old(pixels)@[j],
        decreases n - i,
    {
        let r = pixels[i];
        let g = pixels[i + 1];
        let b = pixels[i + 2];
        let a = pixels[i + 3];
        pixels.set(i, a);
        pixels.set(i + 1, r);
        pixels.set(i + 2, g);
        pixels.set(i + 3, b);
        i = i + 4;
    }
    assert(pixels@ =~= argb_of(old(pixels)@));
}

/// The native items that a tray in the given mode creates for `providers`.
fn plan_items(platform: TrayPlatform, merge_mode: bool, providers: &Vec<ProviderKind>) -> (plan:
    ItemPlan)
    ensures
        plan@ == items_for(platform, merge_mode, providers@),
{
    match platform {
        TrayPlatform::StatusBar => {
            if merge_mode {
                ItemPlan {
                    remove_all: false,
                    create_merged: if providers.len() > 0 {
                        Some(providers[0])
                    } else {
                        None
                    },
                    create_items: Vec::new(),
                }
            } else {
                ItemPlan {
                    remove_all: false,
                    create_merged: None,
                    create_items: copy_kinds(providers),
                }
            }
        },
        TrayPlatform::Notifier => ItemPlan {
            remove_all: false,
            create_merged: None,
            create_items: Vec::new(),
        },
    }
}

/// The bookkeeping of the system tray.
#[derive(Debug)]
pub struct SystemTray {
    platform: TrayPlatform,
    merge_mode: bool,
    merged_item: bool,
    status_items: KindSet,
    animation_states: KindSet,
    menu_open: bool,
    surprise_me_enabled: bool,
    listening: bool,
}

impl View for SystemTray {
    type V = TrayView;

    closed spec fn view(&self) -> TrayView {
        TrayView {
            platform: self.platform,
            merge_mode: self.merge_mode,
            merged_item: self.merged_item,
            status_items: self.status_items@,
            animated: self.animation_states@,
            menu_open: self.menu_open,
            surprise_me_enabled: self.surprise_me_enabled,
            listening: self.listening,
        }
    }
}

impl SystemTray {
    #[verifier::type_invariant]
    spec fn inv(self) -> bool {
        self@.wf()
    }

    /// The tray for the providers that `cache` has enabled, and the native
    /// items to create for it.
    ///
    /// In merge mode a status bar gets one merged item, with the icon of the
    /// first provider, where there is a provider at all; out of merge mode
    /// it gets an item for each provider. A notifier area gets no status
    /// item. The icon of every enabled provider can be animated.
    pub fn new(
        platform: TrayPlatform,
        cache: &StateCache,
        merge_mode: bool,
        surprise_me_enabled: bool,
    ) -> (r: (SystemTray, ItemPlan))
        ensures
            r.0@ == TrayView::initial(platform, cache@.enabled, merge_mode, surprise_me_enabled),
            r.1@ == items_for(platform, merge_mode, cache@.enabled),
            r.0@.wf(),
    {
        let providers = cache.enabled_providers();
        let plan = plan_items(platform, merge_mode, &providers);
        let tray = SystemTray {
            platform,
            merge_mode,
            merged_item: plan.create_merged.is_some(),
            status_items: KindSet::from_kinds(&plan.create_items),
            animation_states: KindSet::from_kinds(&providers),
            menu_open: false,
            surprise_me_enabled,
            listening: false,
        };
        (tray, plan)
    }

    /// Whether one merged item stands for all providers.
    pub fn merge_mode(&self) -> (r: bool)
        ensures
            r == self@.merge_mode,
    {
        self.merge_mode
    }

    /// Whether the popup menu is open.
    pub fn is_menu_open(&self) -> (r: bool)
        ensures
            r == self@.menu_open,
    {
        self.menu_open
    }

    /// Note the start of the click listener. Returns whether it is to
    /// start: `false` where it runs already.
    pub fn start_click_listener(&mut self) -> (start: bool)
        ensures
            start == !old(self)@.listening,
            final(self)@ == (TrayView { listening: true, ..old(self)@ }),
    {
        proof {
            use_type_invariant(&*self);
        }
        let start = !self.listening;
        self.listening = true;
        start
    }

    /// Switch the random animations on or off.
    pub fn set_surprise_me_enabled(&mut self, enabled: bool)
        ensures
            final(self)@ == (TrayView { surprise_me_enabled: enabled, ..old(self)@ }),
    {
        proof {
            use_type_invariant(&*self);
        }
        self.surprise_me_enabled = enabled;
    }

    /// Set merge mode, and say which native items to remove and to create.
    ///
    /// On a status bar a change of the mode removes every item and creates
    /// those of the new mode for the providers that `cache` has enabled. A
    /// call that changes nothing, and any call in a notifier area, touches
    /// no item.
    pub fn set_merge_mode(&mut self, merge: bool, cache: &StateCache) -> (plan: ItemPlan)
        ensures
            final(self)@ == old(self)@.set_merge_mode(merge, cache@.enabled),
            plan@ == old(self)@.merge_plan(merge, cache@.enabled),
            final(self)@.wf(),
    {
        proof {
            use_type_invariant(&*self);
        }
        match self.platform {
            TrayPlatform::Notifier => {
                self.merge_mode = merge;
                ItemPlan { remove_all: false, create_merged: None, create_items: Vec::new() }
            },
            TrayPlatform::StatusBar => {
                if self.merge_mode == merge {
                    return ItemPlan {
                        remove_all: false,
                        create_merged: None,
                        create_items: Vec::new(),
                    };
                }
                let providers = cache.enabled_providers();
                let mut plan = plan_items(TrayPlatform::StatusBar, merge, &providers);
                plan.remove_all = true;
                self.status_items.clear();
                self.merged_item = false;
                self.merge_mode = merge;
                self.merged_item = plan.create_merged.is_some();
                let mut i: usize = 0;
                while i < plan.create_items.len()
                    invariant
                        i <= plan.create_items.len(),
                        self.status_items@ == plan.create_items@.take(i as int).to_set(),
                        self.merge_mode == merge,
                        self.platform == TrayPlatform::StatusBar,
                        merge ==> plan.create_items@.len() == 0,
                        self.merged_item ==> merge,
                        self.merged_item == plan.create_merged.is_some(),
                        self.animation_states@ == old(self).animation_states@,
                        self.menu_open == old(self).menu_open,
                        self.surprise_me_enabled == old(self).surprise_me_enabled,
                        self.listening == old(self).listening,
                    decreases plan.create_items.len() - i,
                {
                    self.status_items.insert(plan.create_items[i]);
                    proof {
                        let seen = plan.create_items@.take(i as int);
                        let next = plan.create_items@.take(i + 1);
                        assert(next =~= seen.push(plan.create_items@[i as int]));
                        lemma_push_to_set(seen, plan.create_items@[i as int]);
                    }
                    i = i + 1;
                }
                assert(plan.create_items@.take(i as int) =~= plan.create_items@);
                plan
            },
        }
    }

    /// Add a provider. Its icon can be animated from now on. Returns
    /// whether a status item is to be created for it: on a status bar out of
    /// merge mode, where it has none yet.
    pub fn add_provider(&mut self, provider: ProviderKind) -> (create_item: bool)
        ensures
            create_item == old(self)@.creates_item(provider),
            final(self)@ == old(self)@.add_provider(provider),
            final(self)@.wf(),
    {
        proof {
            use_type_invariant(&*self);
        }
        self.animation_states.insert(provider);
        let create_item = match self.platform {
            TrayPlatform::StatusBar => !self.merge_mode && !self.status_items.contains(provider),
            TrayPlatform::Notifier => false,
        };
        if create_item {
            self.status_items.insert(provider);
        }
        create_item
    }

    /// Remove a provider. Its icon is no longer animated. Returns whether
    /// its status item is to be removed: where it had one.
    pub fn remove_provider(&mut self, provider: ProviderKind) -> (remove_item: bool)
        ensures
            remove_item == old(self)@.status_items.contains(provider),
            final(self)@ == old(self)@.remove_provider(provider),
            final(self)@.wf(),
    {
        proof {
            use_type_invariant(&*self);
        }
        self.animation_states.remove(provider);
        self.status_items.remove(provider)
    }

    /// Toggle the popup menu: close it where it is open, else ask for it to
    /// be opened. The menu counts as open only once `menu_opened` is called.
    pub fn toggle_menu(&mut self) -> (action: MenuAction)
        ensures
            action == if old(self)@.menu_open {
                MenuAction::Close
            } else {
                MenuAction::Open
            },
            final(self)@ == (TrayView { menu_open: false, ..old(self)@ }),
    {
        proof {
            use_type_invariant(&*self);
        }
        if self.menu_open {
            self.menu_open = false;
            MenuAction::Close
        } else {
            MenuAction::Open
        }
    }

    /// Note that the popup menu was opened.
    pub fn menu_opened(&mut self)
        ensures
            final(self)@ == (TrayView { menu_open: true, ..old(self)@ }),
    {
        proof {
            use_type_invariant(&*self);
        }
        self.menu_open = true;
    }

    /// The native item that shows the icon of `provider`, if there is one.
    pub fn icon_target(&self, provider: ProviderKind) -> (target: Option<IconTarget>)
        ensures
            target == self@.icon_target(provider),
    {
        match self.platform {
            TrayPlatform::Notifier => Some(IconTarget::Shared),
            TrayPlatform::StatusBar => {
                if self.merge_mode {
                    if self.merged_item {
                        Some(IconTarget::Merged)
                    } else {
                        None
                    }
                } else if self.status_items.contains(provider) {
                    Some(IconTarget::Item(provider))
                } else {
                    None
                }
            },
        }
    }

    /// The native item under which the popup opens for a click on
    /// `provider`, if there is one.
    pub fn get_status_item_target(&self, provider: Option<ProviderKind>) -> (target: Option<
        IconTarget,
    >)
        ensures
            target == self@.anchor(provider),
    {
        match self.platform {
            TrayPlatform::Notifier => None,
            TrayPlatform::StatusBar => {
                if self.merge_mode {
                    if self.merged_item {
                        Some(IconTarget::Merged)
                    } else {
                        None
                    }
                } else {
                    match provider {
                        Some(provider) => {
                            if self.status_items.contains(provider) {
                                Some(IconTarget::Item(provider))
                            } else {
                                None
                            }
                        },
                        None => None,
                    }
                }
            },
        }
    }

    /// What the icon of `provider` shows at `now`, and the native item that
    /// shows it.
    pub fn update_icon_at(&self, provider: ProviderKind, cache: &StateCache, now: Timestamp) -> (r:
        (IconMode, Option<IconTarget>))
        ensures
            r.0 == icon_mode_of(cache@, provider, now),
            r.1 == self@.icon_target(provider),
    {
        (icon_mode(cache, provider, now), self.icon_target(provider))
    }

    /// What the icon of `provider` shows at the current time, by the system
    /// clock, and the native item that shows it. Only the staleness of a
    /// snapshot depends on the clock: without a snapshot nothing is stale.
    pub fn update_icon(&self, provider: ProviderKind, cache: &StateCache) -> (r: (
        IconMode,
        Option<IconTarget>,
    ))
        ensures
            exists|now: Timestamp| r.0 == icon_mode_of(cache@, provider, now),
            r.0 == IconMode::Loading <==> cache@.state(provider).is_refreshing,
            r.0 matches IconMode::Usage { error, .. } ==> error == cache@.state(
                provider,
            ).last_error is Some,
            r.0 matches IconMode::Usage { stale, .. } ==> (stale ==> cache@.state(
                provider,
            ).last_snapshot is Some),
            r.1 == self@.icon_target(provider),
    {
        let now = Timestamp::now();
        let r = self.update_icon_at(provider, cache, now);
        assert(r.0 == icon_mode_of(cache@, provider, now));
        r
    }

    /// Whether it is time for a random animation, `elapsed_millis` after the
    /// last one: random animations are on and thirty seconds have passed.
    pub fn is_animation_due(&self, elapsed_millis: u64) -> (due: bool)
        ensures
            due == self@.animation_due(elapsed_millis),
    {
        self.surprise_me_enabled && elapsed_millis >= RANDOM_ANIMATION_COOLDOWN_MILLIS
    }

    /// The providers whose icons a full update redraws, in order: every
    /// enabled provider on a status bar, the first one only in a notifier
    /// area.
    pub fn update_all(&self, cache: &StateCache) -> (providers: Vec<ProviderKind>)
        ensures
            providers@ == update_targets(self@.platform, cache@.enabled),
    {
        let enabled = cache.enabled_providers();
        match self.platform {
            TrayPlatform::StatusBar => enabled,
            TrayPlatform::Notifier => {
                let mut first: Vec<ProviderKind> = Vec::new();
                if enabled.len() > 0 {
                    first.push(enabled[0]);
                    assert(first@ =~= seq![enabled@[0]]);
                }
                first
            },
        }
    }

    /// Whether a blink can be started on the icon of `provider`: only where
    /// the icon can be animated.
    pub fn trigger_blink(&self, provider: ProviderKind) -> (blink: bool)
        ensures
            blink == self@.animated.contains(provider),
    {
        self.animation_states.contains(provider)
    }

    /// The animation that two draws select.
    pub fn pick_animation(&self, provider_draw: usize, animation_draw: u8) -> (r: RandomAnimation)
        ensures
            r == self@.pick_animation(provider_draw, animation_draw),
            r matches RandomAnimation::Play { provider, .. } ==> self@.animated.contains(provider),
            r != RandomAnimation::NotDue,
    {
        let candidates = self.animation_states.to_vec();
        if candidates.len() == 0 {
            return RandomAnimation::Missed;
        }
        let provider = candidates[provider_draw % candidates.len()];
        proof {
            let at = (provider_draw as int) % (candidates@.len() as int);
            assert(candidates@[at] == provider);
            assert(candidates@.contains(provider));
            lemma_members(self@.animated, provider);
        }
        let animation = match animation_draw % 3 {
            0 => AnimationKind::Blink,
            1 => AnimationKind::Wiggle,
            _ => AnimationKind::Tilt,
        };
        RandomAnimation::Play { provider, animation }
    }

    /// The outcome of a look at the random animations, `elapsed_millis`
    /// after the last one, for given draws.
    ///
    /// Nothing is due while random animations are off or less than thirty
    /// seconds have passed. Once it is time, chance decides; where chance
    /// says yes, the draws select the provider and the animation.
    pub fn random_animation(
        &self,
        elapsed_millis: u64,
        chance_hit: bool,
        provider_draw: usize,
        animation_draw: u8,
    ) -> (r: RandomAnimation)
        ensures
            r == self@.random_animation(elapsed_millis, chance_hit, provider_draw, animation_draw),
    {
        if !self.surprise_me_enabled || elapsed_millis < RANDOM_ANIMATION_COOLDOWN_MILLIS {
            RandomAnimation::NotDue
        } else if !chance_hit {
            RandomAnimation::Missed
        } else {
            self.pick_animation(provider_draw, animation_draw)
        }
    }

    /// Look at the random animations, `elapsed_millis` after the last one,
    /// with `chance_hit` saying whether chance allows one now. The provider
    /// and the animation are drawn at random.
    pub fn maybe_random_animation(&self, elapsed_millis: u64, chance_hit: bool) -> (r:
        RandomAnimation)
        ensures
            exists|provider_draw: usize, animation_draw: u8|
                r == self@.random_animation(
                    elapsed_millis,
                    chance_hit,
                    provider_draw,
                    animation_draw,
                ),
            !self@.animation_due(elapsed_millis) <==> r == RandomAnimation::NotDue,
            r matches RandomAnimation::Play { provider, .. } ==> chance_hit
                && self@.animated.contains(provider),
    {
        if !self.surprise_me_enabled || elapsed_millis < RANDOM_ANIMATION_COOLDOWN_MILLIS {
            assert(RandomAnimation::NotDue == self@.random_animation(
                elapsed_millis,
                chance_hit,
                0usize,
                0u8,
            ));
            return RandomAnimation::NotDue;
        }
        if !chance_hit {
            assert(RandomAnimation::Missed == self@.random_animation(
                elapsed_millis,
                chance_hit,
                0usize,
                0u8,
            ));
            return RandomAnimation::Missed;
        }
        let provider_draw = random_usize();
        let animation_draw = random_u8();
        let r = self.pick_animation(provider_draw, animation_draw);
        assert(r == self@.random_animation(
            elapsed_millis,
            chance_hit,
            provider_draw,
            animation_draw,
        ));
        r
    }
}

/// Turning the bytes of each pixel four times brings every byte back to its
/// place, and no turn changes the number of bytes.
pub proof fn lemma_argb_four_times(pixels: Seq<u8>)
    ensures
        argb_of(pixels).len() == pixels.len(),
        argb_of(argb_of(argb_of(argb_of(pixels)))) == pixels,
{
    let once = argb_of(pixels);
    let twice = argb_of(once);
    let thrice = argb_of(twice);
    let back = argb_of(thrice);
    assert forall|i: int| 0 <= i < pixels.len() implies back[i] == pixels[i] by {
        let base = i - i % 4;
        if base + 4 <= pixels.len() {
            assert(once[base] == pixels[base + 3] && once[base + 1] == pixels[base] && once[base
                + 2] == pixels[base + 1] && once[base + 3] == pixels[base + 2]);
            assert(twice[base] == once[base + 3] && twice[base + 1] == once[base] && twice[base
                + 2] == once[base + 1] && twice[base + 3] == once[base + 2]);
            assert(thrice[base] == twice[base + 3] && thrice[base + 1] == twice[base]
                && thrice[base + 2] == twice[base + 1] && thrice[base + 3] == twice[base + 2]);
            assert(back[base] == thrice[base + 3] && back[base + 1] == thrice[base] && back[base
                + 2] == thrice[base + 1] && back[base + 3] == thrice[base + 2]);
        }
    }
    assert(back =~= pixels);
}

/// An error does not take the usage off the icon: with an error recorded, a
/// snapshot in the cache and no fetch in flight, the icon shows the usage of
/// that snapshot, stale or fresh as the snapshot is, with the mark of the
/// error beside it.
pub proof fn lemma_icon_keeps_usage_on_error(cache: CacheView, kind: ProviderKind, now: Timestamp)
    requires
        cache.state(kind).last_error is Some,
        cache.state(kind).last_snapshot is Some,
        !cache.state(kind).is_refreshing,
    ensures
        icon_mode_of(cache, kind, now) == (IconMode::Usage {
            stale: cache.state(kind).last_snapshot->0.is_stale(now),
            error: true,
        }),
{
}

/// A provider that is removed and added again on a status bar out of merge
/// mode gets a new status item.
pub proof fn lemma_readded_provider_gets_item(tray: TrayView, provider: ProviderKind)
    requires
        tray.wf(),
        tray.platform == TrayPlatform::StatusBar,
        !tray.merge_mode,
    ensures
        tray.remove_provider(provider).creates_item(provider),
        tray.remove_provider(provider).add_provider(provider).status_items.contains(provider),
        tray.remove_provider(provider).add_provider(provider).wf(),
{
}

} // verus!
