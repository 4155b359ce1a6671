use exactobar::cache::StateCache;
use exactobar::error::FetchError;
use exactobar::fixed::Fixed;
use exactobar::kind::ProviderKind;
use exactobar::theme::{
    is_dark_mode, usage_level, ThemeMode, UsageColors, UsageLevel, WindowAppearance,
};
use exactobar::time::Timestamp;
use exactobar::tray::{
    command_for, command_for_click, icon_mode, rgba_to_argb, AnimationKind, IconMode, IconTarget,
    LinuxTrayEvent, MenuAction, RandomAnimation, ScreenPoint, SystemTray, TrayCommand,
    TrayPlatform, RANDOM_ANIMATION_COOLDOWN_MILLIS,
};
use exactobar::usage::{FetchSource, UsageSnapshot};

fn cache_with(kinds: &[ProviderKind]) -> StateCache {
    let mut cache = StateCache::new();
    cache.set_enabled(&kinds.to_vec());
    cache
}

#[test]
fn pixels_turn_from_rgba_to_argb() {
    let mut pixels = vec![1, 2, 3, 4, 10, 20, 30, 40];
    rgba_to_argb(&mut pixels);
    assert_eq!(pixels, vec![4, 1, 2, 3, 40, 10, 20, 30]);
}

#[test]
fn trailing_bytes_of_a_broken_pixel_stay() {
    let mut pixels = vec![1, 2, 3, 4, 9, 8, 7];
    rgba_to_argb(&mut pixels);
    assert_eq!(pixels, vec![4, 1, 2, 3, 9, 8, 7]);
    let mut short = vec![5, 6];
    rgba_to_argb(&mut short);
    assert_eq!(short, vec![5, 6]);
    let mut none: Vec<u8> = Vec::new();
    rgba_to_argb(&mut none);
    assert!(none.is_empty());
}

#[test]
fn four_turns_bring_the_pixels_back() {
    let original: Vec<u8> = (0..=254).collect();
    let mut pixels = original.clone();
    for _ in 0..4 {
        rgba_to_argb(&mut pixels);
    }
    assert_eq!(pixels, original);
}

#[test]
fn tray_events_become_commands() {
    assert_eq!(
        command_for(LinuxTrayEvent::Activate { x: 10, y: -3 }),
        TrayCommand::ToggleMenu { provider: None, position: Some(ScreenPoint { x: 10, y: -3 }) }
    );
    assert_eq!(
        command_for(LinuxTrayEvent::OpenMenu),
        TrayCommand::ToggleMenu { provider: None, position: None }
    );
    assert_eq!(command_for(LinuxTrayEvent::Refresh), TrayCommand::RefreshAll);
    assert_eq!(command_for(LinuxTrayEvent::Settings), TrayCommand::OpenSettings);
    assert_eq!(command_for(LinuxTrayEvent::Quit), TrayCommand::Quit);
}

#[test]
fn clicks_carry_the_provider_code() {
    let code = ProviderKind::to_code(Some(ProviderKind::Gemini));
    assert_eq!(
        command_for_click(code),
        TrayCommand::ToggleMenu { provider: Some(ProviderKind::Gemini), position: None }
    );
    assert_eq!(
        command_for_click(255),
        TrayCommand::ToggleMenu { provider: None, position: None }
    );
    assert_eq!(
        command_for_click(200),
        TrayCommand::ToggleMenu { provider: None, position: None }
    );
}

#[test]
fn icon_modes_follow_the_cache() {
    let kind = ProviderKind::Codex;
    let mut cache = cache_with(&[kind]);
    let fetched = 1_000_000_000;
    let soon = Timestamp::from_millis(fetched + 60_000);
    let late = Timestamp::from_millis(fetched + 11 * 60_000);

    assert_eq!(icon_mode(&cache, kind, soon), IconMode::Usage { stale: false, error: false });
    cache.apply_result(
        kind,
        Ok(UsageSnapshot::new(FetchSource::Cli, Timestamp::from_millis(fetched))),
    );
    assert_eq!(icon_mode(&cache, kind, soon), IconMode::Usage { stale: false, error: false });
    assert_eq!(icon_mode(&cache, kind, late), IconMode::Usage { stale: true, error: false });
    assert!(cache.begin_refresh(kind));
    assert_eq!(icon_mode(&cache, kind, late), IconMode::Loading);
}

#[test]
fn an_error_does_not_take_the_usage_off_the_icon() {
    let kind = ProviderKind::Codex;
    let mut cache = cache_with(&[kind]);
    let fetched = 1_000_000_000;
    let soon = Timestamp::from_millis(fetched + 60_000);
    let late = Timestamp::from_millis(fetched + 11 * 60_000);

    cache.apply_result(kind, Err(FetchError::timeout()));
    assert_eq!(icon_mode(&cache, kind, late), IconMode::Usage { stale: false, error: true });

    cache.apply_result(
        kind,
        Ok(UsageSnapshot::new(FetchSource::Cli, Timestamp::from_millis(fetched))),
    );
    cache.apply_result(kind, Err(FetchError::timeout()));
    assert!(cache.get_snapshot(kind).is_some());
    assert_eq!(icon_mode(&cache, kind, soon), IconMode::Usage { stale: false, error: true });
    assert_eq!(icon_mode(&cache, kind, late), IconMode::Usage { stale: true, error: true });

    assert!(cache.begin_refresh(kind));
    assert_eq!(icon_mode(&cache, kind, late), IconMode::Loading);
    cache.apply_result(
        kind,
        Ok(UsageSnapshot::new(FetchSource::Cli, Timestamp::from_millis(fetched + 10 * 60_000))),
    );
    assert_eq!(icon_mode(&cache, kind, late), IconMode::Usage { stale: false, error: false });
}

#[test]
fn status_bar_tray_has_an_item_per_provider() {
    let cache = cache_with(&[ProviderKind::Zai, ProviderKind::Codex]);
    let (tray, plan) = SystemTray::new(TrayPlatform::StatusBar, &cache, false, true);
    assert!(!plan.remove_all);
    assert_eq!(plan.create_merged, None);
    assert_eq!(plan.create_items, vec![ProviderKind::Zai, ProviderKind::Codex]);
    assert!(!tray.merge_mode());
    assert!(!tray.is_menu_open());
    assert_eq!(tray.icon_target(ProviderKind::Zai), Some(IconTarget::Item(ProviderKind::Zai)));
    assert_eq!(tray.icon_target(ProviderKind::Kiro), None);
    assert_eq!(
        tray.get_status_item_target(Some(ProviderKind::Codex)),
        Some(IconTarget::Item(ProviderKind::Codex))
    );
    assert_eq!(tray.get_status_item_target(None), None);
    assert_eq!(tray.update_all(&cache), vec![ProviderKind::Zai, ProviderKind::Codex]);
}

#[test]
fn merged_tray_has_one_item() {
    let cache = cache_with(&[ProviderKind::Zai, ProviderKind::Codex]);
    let (tray, plan) = SystemTray::new(TrayPlatform::StatusBar, &cache, true, false);
    assert_eq!(plan.create_merged, Some(ProviderKind::Zai));
    assert!(plan.create_items.is_empty());
    assert!(tray.merge_mode());
    assert_eq!(tray.icon_target(ProviderKind::Codex), Some(IconTarget::Merged));
    assert_eq!(tray.icon_target(ProviderKind::Kiro), Some(IconTarget::Merged));
    assert_eq!(tray.get_status_item_target(None), Some(IconTarget::Merged));

    let nothing = cache_with(&[]);
    let (bare, plan) = SystemTray::new(TrayPlatform::StatusBar, &nothing, true, false);
    assert_eq!(plan.create_merged, None);
    assert_eq!(bare.icon_target(ProviderKind::Codex), None);
}

#[test]
fn notifier_tray_has_a_single_icon() {
    let cache = cache_with(&[ProviderKind::Zai, ProviderKind::Codex]);
    let (mut tray, plan) = SystemTray::new(TrayPlatform::Notifier, &cache, false, false);
    assert_eq!(plan.create_merged, None);
    assert!(plan.create_items.is_empty());
    assert_eq!(tray.icon_target(ProviderKind::Codex), Some(IconTarget::Shared));
    assert_eq!(tray.get_status_item_target(Some(ProviderKind::Codex)), None);
    assert_eq!(tray.update_all(&cache), vec![ProviderKind::Zai]);
    assert!(tray.update_all(&cache_with(&[])).is_empty());

    let plan = tray.set_merge_mode(true, &cache);
    assert!(!plan.remove_all);
    assert!(plan.create_items.is_empty());
    assert!(tray.merge_mode());
    assert!(!tray.add_provider(ProviderKind::Kiro));
    assert!(tray.trigger_blink(ProviderKind::Kiro));
    assert!(!tray.remove_provider(ProviderKind::Kiro));
    assert!(!tray.trigger_blink(ProviderKind::Kiro));
}

#[test]
fn changing_merge_mode_rebuilds_the_items() {
    let cache = cache_with(&[ProviderKind::Zai, ProviderKind::Codex]);
    let (mut tray, _) = SystemTray::new(TrayPlatform::StatusBar, &cache, false, false);

    let same = tray.set_merge_mode(false, &cache);
    assert!(!same.remove_all);
    assert!(same.create_items.is_empty());
    assert_eq!(same.create_merged, None);

    let merged = tray.set_merge_mode(true, &cache);
    assert!(merged.remove_all);
    assert_eq!(merged.create_merged, Some(ProviderKind::Zai));
    assert!(merged.create_items.is_empty());
    assert_eq!(tray.icon_target(ProviderKind::Codex), Some(IconTarget::Merged));
    assert!(!tray.add_provider(ProviderKind::Kiro));

    let split = tray.set_merge_mode(false, &cache);
    assert!(split.remove_all);
    assert_eq!(split.create_merged, None);
    assert_eq!(split.create_items, vec![ProviderKind::Zai, ProviderKind::Codex]);
    assert_eq!(tray.icon_target(ProviderKind::Codex), Some(IconTarget::Item(ProviderKind::Codex)));
    assert_eq!(tray.icon_target(ProviderKind::Kiro), None);
}

#[test]
fn providers_come_and_go() {
    let cache = cache_with(&[ProviderKind::Zai]);
    let (mut tray, _) = SystemTray::new(TrayPlatform::StatusBar, &cache, false, false);
    assert!(!tray.trigger_blink(ProviderKind::Kiro));
    assert!(tray.add_provider(ProviderKind::Kiro));
    assert!(!tray.add_provider(ProviderKind::Kiro));
    assert!(!tray.add_provider(ProviderKind::Zai));
    assert!(tray.trigger_blink(ProviderKind::Kiro));
    assert_eq!(tray.icon_target(ProviderKind::Kiro), Some(IconTarget::Item(ProviderKind::Kiro)));
    assert!(tray.remove_provider(ProviderKind::Kiro));
    assert!(!tray.remove_provider(ProviderKind::Kiro));
    assert_eq!(tray.icon_target(ProviderKind::Kiro), None);
    assert!(!tray.trigger_blink(ProviderKind::Kiro));
    assert!(tray.add_provider(ProviderKind::Kiro));
}

#[test]
fn the_menu_toggles() {
    let cache = cache_with(&[ProviderKind::Zai]);
    let (mut tray, _) = SystemTray::new(TrayPlatform::StatusBar, &cache, false, false);
    assert_eq!(tray.toggle_menu(), MenuAction::Open);
    assert!(!tray.is_menu_open());
    assert_eq!(tray.toggle_menu(), MenuAction::Open);
    tray.menu_opened();
    assert!(tray.is_menu_open());
    assert_eq!(tray.toggle_menu(), MenuAction::Close);
    assert!(!tray.is_menu_open());
    assert_eq!(tray.toggle_menu(), MenuAction::Open);
}

#[test]
fn the_click_listener_starts_once() {
    let cache = cache_with(&[]);
    let (mut tray, _) = SystemTray::new(TrayPlatform::Notifier, &cache, false, false);
    assert!(tray.start_click_listener());
    assert!(!tray.start_click_listener());
    assert!(!tray.start_click_listener());
}

#[test]
fn update_icon_names_mode_and_target() {
    let kind = ProviderKind::Zai;
    let mut cache = cache_with(&[kind]);
    let (tray, _) = SystemTray::new(TrayPlatform::StatusBar, &cache, false, false);
    assert!(cache.begin_refresh(kind));
    assert_eq!(
        tray.update_icon_at(kind, &cache, Timestamp::from_millis(0)),
        (IconMode::Loading, Some(IconTarget::Item(kind)))
    );
    assert_eq!(
        tray.update_icon_at(ProviderKind::Codex, &cache, Timestamp::from_millis(0)),
        (IconMode::Usage { stale: false, error: false }, None)
    );
}

#[test]
fn random_animations_wait_for_the_cooldown() {
    assert_eq!(RANDOM_ANIMATION_COOLDOWN_MILLIS, 30_000);
    let cache = cache_with(&[ProviderKind::Codex, ProviderKind::Zai, ProviderKind::Kiro]);
    let (mut tray, _) = SystemTray::new(TrayPlatform::StatusBar, &cache, false, true);

    assert_eq!(tray.random_animation(29_999, true, 0, 0), RandomAnimation::NotDue);
    assert_eq!(tray.random_animation(30_000, false, 0, 0), RandomAnimation::Missed);
    assert_eq!(
        tray.random_animation(30_000, true, 0, 0),
        RandomAnimation::Play { provider: ProviderKind::Codex, animation: AnimationKind::Blink }
    );
    assert_eq!(
        tray.random_animation(u64::MAX, true, 1, 1),
        RandomAnimation::Play { provider: ProviderKind::Zai, animation: AnimationKind::Wiggle }
    );
    assert_eq!(
        tray.random_animation(30_000, true, 5, 2),
        RandomAnimation::Play { provider: ProviderKind::Kiro, animation: AnimationKind::Tilt }
    );
    assert_eq!(
        tray.pick_animation(usize::MAX, 255),
        RandomAnimation::Play {
            provider: [ProviderKind::Codex, ProviderKind::Zai, ProviderKind::Kiro][usize::MAX % 3],
            animation: AnimationKind::Blink,
        }
    );
    assert!(!RandomAnimation::NotDue.restarts_waiting());
    assert!(RandomAnimation::Missed.restarts_waiting());

    assert!(!tray.is_animation_due(29_999));
    assert!(tray.is_animation_due(30_000));
    tray.set_surprise_me_enabled(false);
    assert!(!tray.is_animation_due(60_000));
    assert_eq!(tray.random_animation(60_000, true, 0, 0), RandomAnimation::NotDue);
    assert_eq!(tray.maybe_random_animation(60_000, true), RandomAnimation::NotDue);
}

#[test]
fn random_animations_need_a_provider() {
    let cache = cache_with(&[]);
    let (tray, _) = SystemTray::new(TrayPlatform::StatusBar, &cache, false, true);
    assert_eq!(tray.random_animation(30_000, true, 7, 7), RandomAnimation::Missed);
    assert_eq!(tray.maybe_random_animation(30_000, true), RandomAnimation::Missed);
}

#[test]
fn drawn_animations_pick_an_animated_provider() {
    let kinds = [ProviderKind::Codex, ProviderKind::Zai];
    let cache = cache_with(&kinds);
    let (tray, _) = SystemTray::new(TrayPlatform::StatusBar, &cache, false, true);
    assert_eq!(tray.maybe_random_animation(10, true), RandomAnimation::NotDue);
    assert_eq!(tray.maybe_random_animation(40_000, false), RandomAnimation::Missed);
    for _ in 0..50 {
        match tray.maybe_random_animation(40_000, true) {
            RandomAnimation::Play { provider, .. } => assert!(kinds.contains(&provider)),
            other => panic!("unexpected {:?}", other),
        }
    }
}

#[test]
fn dark_mode_follows_choice_or_system() {
    let appearances = [
        (WindowAppearance::Light, false),
        (WindowAppearance::VibrantLight, false),
        (WindowAppearance::Dark, true),
        (WindowAppearance::VibrantDark, true),
    ];
    for (appearance, dark) in appearances {
        assert!(is_dark_mode(ThemeMode::Dark, appearance));
        assert!(!is_dark_mode(ThemeMode::Light, appearance));
        assert_eq!(is_dark_mode(ThemeMode::System, appearance), dark);
    }
}

#[test]
fn usage_levels_and_colours() {
    assert_eq!(usage_level(Fixed::from_milli(i64::MIN)), UsageLevel::Good);
    assert_eq!(usage_level(Fixed::from_units(0)), UsageLevel::Good);
    assert_eq!(usage_level(Fixed::from_milli(49_999)), UsageLevel::Good);
    assert_eq!(usage_level(Fixed::from_units(50)), UsageLevel::Warning);
    assert_eq!(usage_level(Fixed::from_milli(79_999)), UsageLevel::Warning);
    assert_eq!(usage_level(Fixed::from_units(80)), UsageLevel::Danger);
    assert_eq!(usage_level(Fixed::from_milli(i64::MAX)), UsageLevel::Danger);

    let colours = UsageColors { good: "green", warning: "orange", danger: "red", background: "grey" };
    assert_eq!(*colours.for_usage(Fixed::from_units(10)), "green");
    assert_eq!(*colours.for_usage(Fixed::from_units(50)), "orange");
    assert_eq!(*colours.for_usage(Fixed::from_units(95)), "red");
    assert_eq!(*colours.for_percent(Fixed::from_units(90)), "green");
    assert_eq!(*colours.for_percent(Fixed::from_units(50)), "orange");
    assert_eq!(*colours.for_percent(Fixed::from_milli(50_001)), "green");
    assert_eq!(*colours.for_percent(Fixed::from_units(20)), "red");
    assert_eq!(*colours.for_percent(Fixed::from_units(0)), "red");
    assert_eq!(*colours.for_percent(Fixed::from_milli(i64::MIN)), "red");
    assert_eq!(*colours.for_percent(Fixed::from_milli(i64::MAX)), "green");
}

#[test]
fn update_icon_reads_the_clock_for_staleness() {
    let kind = ProviderKind::Zai;
    let mut cache = cache_with(&[kind]);
    let (tray, _) = SystemTray::new(TrayPlatform::Notifier, &cache, false, false);
    let now = Timestamp::now().millis();

    cache.apply_result(
        kind,
        Ok(UsageSnapshot::new(FetchSource::Api, Timestamp::from_millis(now - 60_000))),
    );
    assert_eq!(
        tray.update_icon(kind, &cache),
        (IconMode::Usage { stale: false, error: false }, Some(IconTarget::Shared))
    );
    cache.apply_result(
        kind,
        Ok(UsageSnapshot::new(FetchSource::Api, Timestamp::from_millis(now - 11 * 60_000))),
    );
    assert_eq!(
        tray.update_icon(kind, &cache),
        (IconMode::Usage { stale: true, error: false }, Some(IconTarget::Shared))
    );
    cache.apply_result(kind, Err(FetchError::timeout()));
    assert_eq!(
        tray.update_icon(kind, &cache).0,
        IconMode::Usage { stale: true, error: true }
    );
    assert!(cache.begin_refresh(kind));
    assert_eq!(tray.update_icon(kind, &cache).0, IconMode::Loading);
}
