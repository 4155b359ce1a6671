use exactobar::cache::{ProviderRuntimeState, StateCache};
use exactobar::error::FetchError;
use exactobar::fixed::Fixed;
use exactobar::kind::ProviderKind;
use exactobar::scheduler::{
    FetchOutcome, RefreshScheduler, SchedulerConfig, DEFAULT_FETCH_TIMEOUT_MILLIS,
    DEFAULT_REFRESH_INTERVAL_MILLIS,
};
use exactobar::synthetic::SyntheticApiClient;
use exactobar::time::Timestamp;
use exactobar::usage::{FetchSource, UsageSnapshot, UsageWindow};

const MINUTE: i64 = 60_000;

fn snapshot_at(millis: i64, used_milli: i64) -> UsageSnapshot {
    let mut snapshot = UsageSnapshot::new(FetchSource::Api, Timestamp::from_millis(millis));
    snapshot.primary = Some(UsageWindow {
        used_percent: Fixed::from_milli(used_milli),
        window_minutes: Some(300),
        resets_at: Some(Timestamp::from_millis(millis + 5 * MINUTE)),
        reset_description: Some("in five minutes".to_string()),
    });
    snapshot
}

fn cache_with(kinds: &[ProviderKind]) -> StateCache {
    let mut cache = StateCache::new();
    cache.set_enabled(&kinds.to_vec());
    cache
}

fn used_of(cache: &StateCache, kind: ProviderKind) -> Option<i64> {
    cache.get_snapshot(kind).map(|s| s.primary.unwrap().used_percent.milli())
}

#[test]
fn new_cache_is_empty() {
    let cache = StateCache::new();
    assert!(cache.enabled_providers().is_empty());
    for kind in ProviderKind::all() {
        assert!(!cache.is_enabled(kind));
        assert!(cache.get_snapshot(kind).is_none());
        assert!(cache.get_error(kind).is_none());
        assert!(!cache.is_refreshing(kind));
    }
}

#[test]
fn empty_runtime_state() {
    let state = ProviderRuntimeState::new();
    assert!(state.last_snapshot.is_none());
    assert!(state.last_error.is_none());
    assert!(!state.is_refreshing);
}

#[test]
fn enabled_providers_keep_their_order() {
    let cache = cache_with(&[ProviderKind::Synthetic, ProviderKind::Codex, ProviderKind::Zai]);
    assert_eq!(
        cache.enabled_providers(),
        vec![ProviderKind::Synthetic, ProviderKind::Codex, ProviderKind::Zai]
    );
    assert!(cache.is_enabled(ProviderKind::Codex));
    assert!(!cache.is_enabled(ProviderKind::Kiro));
}

#[test]
fn a_provider_named_twice_counts_once() {
    let cache = cache_with(&[
        ProviderKind::Zai,
        ProviderKind::Codex,
        ProviderKind::Zai,
        ProviderKind::Codex,
        ProviderKind::Kiro,
    ]);
    assert_eq!(
        cache.enabled_providers(),
        vec![ProviderKind::Zai, ProviderKind::Codex, ProviderKind::Kiro]
    );
}

#[test]
fn success_replaces_snapshot_and_clears_error() {
    let kind = ProviderKind::Synthetic;
    let mut cache = cache_with(&[kind]);
    cache.apply_result(kind, Err(FetchError::timeout()));
    assert_eq!(cache.get_error(kind).as_deref(), Some("Transport error: timeout"));
    assert!(cache.get_snapshot(kind).is_none());

    cache.apply_result(kind, Ok(snapshot_at(1_000, 10_000)));
    assert_eq!(cache.get_error(kind), None);
    let first = cache.get_snapshot(kind).unwrap();
    assert_eq!(first.updated_at, Timestamp::from_millis(1_000));
    assert_eq!(first.primary.as_ref().unwrap().used_percent.milli(), 10_000);

    cache.apply_result(kind, Ok(snapshot_at(2_000, 20_000)));
    let second = cache.get_snapshot(kind).unwrap();
    assert_eq!(second.updated_at, Timestamp::from_millis(2_000));
    let window = second.primary.unwrap();
    assert_eq!(window.used_percent.milli(), 20_000);
    assert_eq!(window.resets_at, Some(Timestamp::from_millis(2_000 + 5 * MINUTE)));
    assert_eq!(window.reset_description.as_deref(), Some("in five minutes"));
    assert_eq!(window.window_minutes, Some(300));
}

#[test]
fn snapshot_survives_an_error_cycle() {
    let kind = ProviderKind::Cursor;
    let mut cache = cache_with(&[kind]);
    cache.apply_result(kind, Ok(snapshot_at(5_000, 42_000)));
    let before = cache.get_snapshot(kind).unwrap();

    cache.apply_result(kind, Err(FetchError::AuthenticationFailed));
    cache.apply_result(
        kind,
        Err(FetchError::ApiError { status: 500, body: "boom".to_string() }),
    );
    let after = cache.get_snapshot(kind).unwrap();
    assert_eq!(after.updated_at, before.updated_at);
    assert_eq!(after.fetch_source, before.fetch_source);
    let (a, b) = (after.primary.unwrap(), before.primary.unwrap());
    assert_eq!(a.used_percent, b.used_percent);
    assert_eq!(a.resets_at, b.resets_at);
    assert_eq!(a.reset_description, b.reset_description);
    assert_eq!(a.window_minutes, b.window_minutes);
    assert_eq!(cache.get_error(kind).as_deref(), Some("HTTP 500: boom"));
}

#[test]
fn apply_result_always_clears_the_refreshing_flag() {
    let kind = ProviderKind::Gemini;
    let mut cache = cache_with(&[kind]);
    assert!(cache.begin_refresh(kind));
    assert!(cache.is_refreshing(kind));
    cache.apply_result(kind, Err(FetchError::CredentialMissing));
    assert!(!cache.is_refreshing(kind));

    assert!(cache.begin_refresh(kind));
    cache.apply_result(kind, Ok(snapshot_at(1, 1)));
    assert!(!cache.is_refreshing(kind));
}

#[test]
fn results_of_a_disabled_provider_are_dropped() {
    let mut cache = cache_with(&[ProviderKind::Codex]);
    cache.apply_result(ProviderKind::Kiro, Ok(snapshot_at(1, 1)));
    cache.apply_result(ProviderKind::Zai, Err(FetchError::timeout()));
    assert!(cache.get_snapshot(ProviderKind::Kiro).is_none());
    assert!(cache.get_error(ProviderKind::Zai).is_none());
    assert!(!cache.begin_refresh(ProviderKind::Kiro));
    assert!(!cache.is_refreshing(ProviderKind::Kiro));
    assert_eq!(cache.enabled_providers(), vec![ProviderKind::Codex]);
}

#[test]
fn one_providers_result_leaves_the_others_alone() {
    let mut cache = cache_with(&[ProviderKind::Codex, ProviderKind::Synthetic, ProviderKind::Zai]);
    cache.apply_result(ProviderKind::Codex, Ok(snapshot_at(100, 11_000)));
    cache.apply_result(ProviderKind::Zai, Err(FetchError::CredentialMissing));
    assert!(cache.begin_refresh(ProviderKind::Codex));

    cache.apply_result(ProviderKind::Synthetic, Ok(snapshot_at(200, 22_000)));

    assert_eq!(used_of(&cache, ProviderKind::Codex), Some(11_000));
    assert!(cache.is_refreshing(ProviderKind::Codex));
    assert_eq!(cache.get_error(ProviderKind::Codex), None);
    assert_eq!(used_of(&cache, ProviderKind::Zai), None);
    assert!(cache.get_error(ProviderKind::Zai).is_some());
    assert_eq!(used_of(&cache, ProviderKind::Synthetic), Some(22_000));
}

#[test]
fn staying_enabled_keeps_state_and_reenabling_starts_empty() {
    let mut cache = cache_with(&[ProviderKind::Codex, ProviderKind::Zai]);
    cache.apply_result(ProviderKind::Codex, Ok(snapshot_at(1, 5_000)));
    cache.apply_result(ProviderKind::Zai, Ok(snapshot_at(2, 6_000)));
    assert!(cache.begin_refresh(ProviderKind::Zai));

    cache.set_enabled(&vec![ProviderKind::Kiro, ProviderKind::Codex]);
    assert_eq!(cache.enabled_providers(), vec![ProviderKind::Kiro, ProviderKind::Codex]);
    assert_eq!(used_of(&cache, ProviderKind::Codex), Some(5_000));
    assert_eq!(used_of(&cache, ProviderKind::Zai), None);
    assert!(!cache.is_refreshing(ProviderKind::Zai));
    assert_eq!(used_of(&cache, ProviderKind::Kiro), None);

    cache.set_enabled(&vec![ProviderKind::Zai, ProviderKind::Codex]);
    assert_eq!(used_of(&cache, ProviderKind::Zai), None);
    assert!(cache.get_error(ProviderKind::Zai).is_none());
    assert!(!cache.is_refreshing(ProviderKind::Zai));
    assert_eq!(used_of(&cache, ProviderKind::Codex), Some(5_000));
}

#[test]
fn staleness_threshold_is_ten_minutes_exclusive() {
    let now = Timestamp::from_millis(1_700_000_000_000);
    let at = |age: i64| UsageSnapshot::new(FetchSource::Api, Timestamp::from_millis(now.millis() - age));
    assert!(at(11 * MINUTE).is_stale(now));
    assert!(!at(9 * MINUTE).is_stale(now));
    assert!(!at(10 * MINUTE).is_stale(now));
    assert!(at(10 * MINUTE + 1).is_stale(now));
    assert!(!at(0).is_stale(now));
    assert!(!at(-MINUTE).is_stale(now));
}

#[test]
fn cache_staleness_is_computed_at_read_time() {
    let kind = ProviderKind::Synthetic;
    let mut cache = cache_with(&[kind]);
    let fetched = 1_700_000_000_000;
    assert!(!cache.is_stale(kind, Timestamp::from_millis(fetched + 60 * MINUTE)));
    cache.apply_result(kind, Ok(snapshot_at(fetched, 1_000)));
    assert!(!cache.is_stale(kind, Timestamp::from_millis(fetched + 9 * MINUTE)));
    assert!(!cache.is_stale(kind, Timestamp::from_millis(fetched + 10 * MINUTE)));
    assert!(cache.is_stale(kind, Timestamp::from_millis(fetched + 11 * MINUTE)));
    cache.apply_result(kind, Err(FetchError::timeout()));
    assert!(cache.is_stale(kind, Timestamp::from_millis(fetched + 11 * MINUTE)));
    assert!(!cache.is_stale(ProviderKind::Codex, Timestamp::from_millis(fetched + 11 * MINUTE)));
}

#[test]
fn refresh_provider_deduplicates_in_flight_fetches() {
    let kind = ProviderKind::Synthetic;
    let mut cache = cache_with(&[kind]);
    let scheduler = RefreshScheduler::new();

    let mut fetches = 0;
    if scheduler.refresh_provider(&mut cache, kind) {
        fetches += 1;
    }
    if scheduler.refresh_provider(&mut cache, kind) {
        fetches += 1;
    }
    assert_eq!(fetches, 1);
    assert!(cache.is_refreshing(kind));

    scheduler.complete(&mut cache, kind, FetchOutcome::Completed(Ok(snapshot_at(1, 1))));
    assert!(!cache.is_refreshing(kind));
    assert!(scheduler.refresh_provider(&mut cache, kind));
}

#[test]
fn refresh_provider_ignores_disabled_providers() {
    let mut cache = cache_with(&[ProviderKind::Codex]);
    let scheduler = RefreshScheduler::new();
    assert!(!scheduler.refresh_provider(&mut cache, ProviderKind::Kiro));
    assert!(!cache.is_refreshing(ProviderKind::Kiro));
}

#[test]
fn refresh_all_starts_every_idle_provider_in_order() {
    let mut cache = cache_with(&[ProviderKind::Zai, ProviderKind::Codex, ProviderKind::Synthetic]);
    let scheduler = RefreshScheduler::new();
    assert!(scheduler.refresh_provider(&mut cache, ProviderKind::Codex));

    let started = scheduler.refresh_all(&mut cache);
    assert_eq!(started, vec![ProviderKind::Zai, ProviderKind::Synthetic]);
    for kind in cache.enabled_providers() {
        assert!(cache.is_refreshing(kind));
    }
    assert!(scheduler.refresh_all(&mut cache).is_empty());
}

#[test]
fn missing_credential_scenario() {
    let kind = ProviderKind::Synthetic;
    let mut cache = cache_with(&[kind]);
    let scheduler = RefreshScheduler::new();

    assert!(scheduler.refresh_provider(&mut cache, kind));
    let result = match SyntheticApiClient::get_api_key(None, None) {
        Ok(_) => unreachable!("there is no credential"),
        Err(error) => Err(error),
    };
    assert!(matches!(result, Err(FetchError::CredentialMissing)));
    scheduler.complete(&mut cache, kind, FetchOutcome::Completed(result));

    assert!(cache.get_snapshot(kind).is_none());
    assert!(!cache.is_refreshing(kind));
    assert_eq!(
        cache.get_error(kind).as_deref(),
        Some("Credential missing: no API key or login found")
    );
}

#[test]
fn a_broken_fetch_does_not_stop_the_others() {
    let a = ProviderKind::Codex;
    let b = ProviderKind::Synthetic;
    let mut cache = cache_with(&[a, b]);
    let scheduler = RefreshScheduler::new();

    let started = scheduler.refresh_all(&mut cache);
    assert_eq!(started, vec![a, b]);

    scheduler.complete(
        &mut cache,
        a,
        FetchOutcome::Aborted { message: "index out of bounds".to_string() },
    );
    assert!(cache.is_refreshing(b));
    scheduler.complete(&mut cache, b, FetchOutcome::Completed(Ok(snapshot_at(7, 70_000))));

    assert_eq!(
        cache.get_error(a).as_deref(),
        Some("Transport error: fetch aborted: index out of bounds")
    );
    assert!(cache.get_snapshot(a).is_none());
    assert!(!cache.is_refreshing(a));
    assert_eq!(used_of(&cache, b), Some(70_000));
    assert_eq!(cache.get_error(b), None);
    assert!(!cache.is_refreshing(b));
}

#[test]
fn a_timeout_is_a_transport_error() {
    let kind = ProviderKind::Copilot;
    let mut cache = cache_with(&[kind]);
    let scheduler = RefreshScheduler::new();
    cache.apply_result(kind, Ok(snapshot_at(3, 30_000)));
    assert!(scheduler.refresh_provider(&mut cache, kind));
    scheduler.complete(&mut cache, kind, FetchOutcome::TimedOut);
    assert_eq!(cache.get_error(kind).as_deref(), Some("Transport error: timeout"));
    assert_eq!(used_of(&cache, kind), Some(30_000));
    assert!(!cache.is_refreshing(kind));
}

#[test]
fn outcomes_become_results() {
    assert!(FetchOutcome::Completed(Ok(snapshot_at(1, 1))).into_result().is_ok());
    assert!(matches!(
        FetchOutcome::Completed(Err(FetchError::AuthenticationFailed)).into_result(),
        Err(FetchError::AuthenticationFailed)
    ));
    match FetchOutcome::TimedOut.into_result() {
        Err(FetchError::TransportError { reason }) => assert_eq!(reason, "timeout"),
        other => panic!("unexpected {:?}", other),
    }
    match (FetchOutcome::Aborted { message: "oops".to_string() }).into_result() {
        Err(FetchError::TransportError { reason }) => assert_eq!(reason, "fetch aborted: oops"),
        other => panic!("unexpected {:?}", other),
    }
}

#[test]
fn scheduler_configuration() {
    let standard = SchedulerConfig::standard();
    assert_eq!(standard.refresh_interval_millis, DEFAULT_REFRESH_INTERVAL_MILLIS);
    assert_eq!(standard.fetch_timeout_millis, DEFAULT_FETCH_TIMEOUT_MILLIS);
    assert_eq!(standard.refresh_interval_millis, 300_000);
    assert_eq!(standard.fetch_timeout_millis, 30_000);
    assert_eq!(RefreshScheduler::new().config(), standard);

    assert_eq!(
        SchedulerConfig::new(60_000, 10_000),
        Some(SchedulerConfig { refresh_interval_millis: 60_000, fetch_timeout_millis: 10_000 })
    );
    assert_eq!(SchedulerConfig::new(10_000, 10_000), None);
    assert_eq!(SchedulerConfig::new(10_000, 60_000), None);
    assert_eq!(SchedulerConfig::new(60_000, 0), None);
    assert_eq!(SchedulerConfig::new(60_000, -1), None);

    let odd = SchedulerConfig { refresh_interval_millis: 5, fetch_timeout_millis: 50 };
    assert!(RefreshScheduler::with_config(odd).is_none());
    let fine = SchedulerConfig { refresh_interval_millis: 50, fetch_timeout_millis: 5 };
    assert_eq!(RefreshScheduler::with_config(fine).unwrap().config(), fine);
}

#[test]
fn fetches_time_out_after_the_bound() {
    let config = SchedulerConfig::standard();
    let started = Timestamp::from_millis(1_000_000);
    assert!(!config.has_timed_out(started, Timestamp::from_millis(1_000_000)));
    assert!(!config.has_timed_out(started, Timestamp::from_millis(1_030_000)));
    assert!(config.has_timed_out(started, Timestamp::from_millis(1_030_001)));
    assert!(!config.has_timed_out(started, Timestamp::from_millis(999_000)));
}

#[test]
fn the_timer_refreshes_at_the_interval() {
    let mut cache = cache_with(&[ProviderKind::Codex, ProviderKind::Zai]);
    let config = SchedulerConfig::new(60_000, 5_000).unwrap();
    let mut scheduler = RefreshScheduler::with_config(config).unwrap();

    let t0 = 1_000_000;
    let started = scheduler.on_timer(&mut cache, Timestamp::from_millis(t0));
    assert_eq!(started, vec![ProviderKind::Codex, ProviderKind::Zai]);
    for kind in started {
        scheduler.complete(&mut cache, kind, FetchOutcome::Completed(Ok(snapshot_at(t0, 1))));
    }

    assert!(scheduler.on_timer(&mut cache, Timestamp::from_millis(t0 + 59_999)).is_empty());
    assert!(!cache.is_refreshing(ProviderKind::Codex));

    let again = scheduler.on_timer(&mut cache, Timestamp::from_millis(t0 + 60_000));
    assert_eq!(again, vec![ProviderKind::Codex, ProviderKind::Zai]);

    // a timer that fires while fetches are in flight starts no duplicate
    let overlap = scheduler.on_timer(&mut cache, Timestamp::from_millis(t0 + 120_000));
    assert!(overlap.is_empty());
    assert!(cache.is_refreshing(ProviderKind::Codex));
}
