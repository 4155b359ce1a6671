use exactobar::fixed::Fixed;
use exactobar::text::{append_decimal, append_padded2, decimal_i64, decimal_u64};
use exactobar::time::{ClockTime, Timestamp, MILLIS_PER_MINUTE, STALE_AFTER_MILLIS};

#[test]
fn percent_of_is_used_over_limit_times_hundred() {
    assert_eq!(Fixed::percent_of(Fixed::from_units(50), 100).milli(), 50_000);
    assert_eq!(Fixed::percent_of(Fixed::from_units(1), 3).milli(), 33_333);
    assert_eq!(Fixed::percent_of(Fixed::from_units(2), 3).milli(), 66_666);
    assert_eq!(Fixed::percent_of(Fixed::from_milli(1), 1000).milli(), 0);
    assert_eq!(Fixed::percent_of(Fixed::from_units(0), 5).milli(), 0);
    assert_eq!(Fixed::percent_of(Fixed::from_units(250), 100).milli(), 250_000);
}

#[test]
fn percent_of_rounds_toward_zero_for_negative_usage() {
    assert_eq!(Fixed::percent_of(Fixed::from_units(-1), 3).milli(), -33_333);
    assert_eq!(Fixed::percent_of(Fixed::from_units(-2), 3).milli(), -66_666);
    assert_eq!(Fixed::percent_of(Fixed::from_milli(-1), 1000).milli(), 0);
}

#[test]
fn percent_of_without_a_positive_limit_is_zero() {
    assert_eq!(Fixed::percent_of(Fixed::from_units(50), 0), Fixed::zero());
    assert_eq!(Fixed::percent_of(Fixed::from_units(50), -100), Fixed::zero());
    assert_eq!(Fixed::percent_of(Fixed::from_milli(i64::MAX), i64::MIN), Fixed::zero());
    assert_eq!(Fixed::percent_of(Fixed::from_milli(i64::MIN), 0), Fixed::zero());
}

#[test]
fn percent_of_saturates_at_the_ends_of_the_range() {
    assert_eq!(Fixed::percent_of(Fixed::from_milli(i64::MAX), 1).milli(), i64::MAX);
    assert_eq!(Fixed::percent_of(Fixed::from_milli(i64::MIN), 1).milli(), i64::MIN);
    assert_eq!(Fixed::percent_of(Fixed::from_milli(i64::MAX), 100).milli(), i64::MAX);
    assert_eq!(Fixed::percent_of(Fixed::from_milli(i64::MAX), i64::MAX).milli(), 100);
}

#[test]
fn from_units_scales_by_a_thousand() {
    assert_eq!(Fixed::from_units(50).milli(), 50_000);
    assert_eq!(Fixed::from_units(-3).milli(), -3_000);
    assert_eq!(Fixed::from_units(0), Fixed::zero());
    assert_eq!(Fixed::from_units(i64::MAX).milli(), i64::MAX);
    assert_eq!(Fixed::from_units(i64::MIN).milli(), i64::MIN);
    assert_eq!(Fixed::from_milli(7).milli(), 7);
}

#[test]
fn decimal_of_unsigned_numbers() {
    assert_eq!(decimal_u64(0), "0");
    assert_eq!(decimal_u64(7), "7");
    assert_eq!(decimal_u64(10), "10");
    assert_eq!(decimal_u64(135), "135");
    assert_eq!(decimal_u64(1_000_000), "1000000");
    assert_eq!(decimal_u64(u64::MAX), "18446744073709551615");
}

#[test]
fn decimal_of_signed_numbers() {
    assert_eq!(decimal_i64(0), "0");
    assert_eq!(decimal_i64(42), "42");
    assert_eq!(decimal_i64(-1), "-1");
    assert_eq!(decimal_i64(-9_876_543_210), "-9876543210");
    assert_eq!(decimal_i64(i64::MAX), "9223372036854775807");
    assert_eq!(decimal_i64(i64::MIN), "-9223372036854775808");
}

#[test]
fn decimal_agrees_with_the_standard_rendering() {
    for n in [0_u64, 1, 9, 10, 11, 99, 100, 101, 999, 1000, 65_535, 4_294_967_296] {
        assert_eq!(decimal_u64(n), n.to_string());
    }
    for n in [-1000_i64, -999, -10, -9, -1, 0, 1, 9, 10, 999, 1000] {
        assert_eq!(decimal_i64(n), n.to_string());
    }
}

#[test]
fn append_keeps_what_is_there() {
    let mut s = String::from("n=");
    append_decimal(&mut s, 305);
    assert_eq!(s, "n=305");
    append_padded2(&mut s, 7);
    assert_eq!(s, "n=30507");
    append_padded2(&mut s, 0);
    assert_eq!(s, "n=3050700");
    append_padded2(&mut s, 59);
    assert_eq!(s, "n=305070059");
    append_padded2(&mut s, 123);
    assert_eq!(s, "n=305070059123");
}

#[test]
fn timestamps_compare_by_their_milliseconds() {
    let early = Timestamp::from_millis(1_000);
    let late = Timestamp::from_millis(2_000);
    assert_eq!(early.millis(), 1_000);
    assert!(late.is_after(early));
    assert!(!early.is_after(late));
    assert!(!early.is_after(early));
}

#[test]
fn is_older_than_is_strict_and_does_not_overflow() {
    let then = Timestamp::from_millis(0);
    assert!(!then.is_older_than(Timestamp::from_millis(600_000), STALE_AFTER_MILLIS));
    assert!(then.is_older_than(Timestamp::from_millis(600_001), STALE_AFTER_MILLIS));
    assert!(!then.is_older_than(Timestamp::from_millis(-5), STALE_AFTER_MILLIS));
    let first = Timestamp::from_millis(i64::MIN);
    let last = Timestamp::from_millis(i64::MAX);
    assert!(first.is_older_than(last, i64::MAX));
    assert!(!last.is_older_than(first, i64::MIN));
}

#[test]
fn minutes_until_rounds_toward_zero() {
    let start = Timestamp::from_millis(10_000);
    assert_eq!(start.minutes_until(Timestamp::from_millis(10_000)), 0);
    assert_eq!(start.minutes_until(Timestamp::from_millis(10_000 + 59_999)), 0);
    assert_eq!(start.minutes_until(Timestamp::from_millis(10_000 + 60_000)), 1);
    assert_eq!(start.minutes_until(Timestamp::from_millis(10_000 + 150 * MILLIS_PER_MINUTE)), 150);
    assert_eq!(start.minutes_until(Timestamp::from_millis(10_000 - 59_999)), 0);
    assert_eq!(start.minutes_until(Timestamp::from_millis(10_000 - 60_000)), -1);
    assert_eq!(start.minutes_until(Timestamp::from_millis(10_000 - 61_000)), -1);
    let first = Timestamp::from_millis(i64::MIN);
    let last = Timestamp::from_millis(i64::MAX);
    assert_eq!(first.minutes_until(last), 307_445_734_561_825);
    assert_eq!(last.minutes_until(first), -307_445_734_561_825);
}

#[test]
fn rfc3339_texts_become_instants() {
    assert_eq!(
        Timestamp::from_rfc3339("2025-09-21T14:36:14.288Z"),
        Some(Timestamp::from_millis(1_758_465_374_288))
    );
    assert_eq!(Timestamp::from_rfc3339("1970-01-01T00:00:00Z"), Some(Timestamp::from_millis(0)));
    assert_eq!(
        Timestamp::from_rfc3339("1970-01-01T01:00:00+01:00"),
        Some(Timestamp::from_millis(0))
    );
    assert_eq!(
        Timestamp::from_rfc3339("1970-01-01T00:00:01.5Z"),
        Some(Timestamp::from_millis(1_500))
    );
    assert_eq!(Timestamp::from_rfc3339("14:36:14"), None);
    assert_eq!(Timestamp::from_rfc3339("2025-09-21T14:36:14.288Z trailing"), None);
    assert_eq!(Timestamp::from_rfc3339(""), None);
}

#[test]
fn clock_times_are_checked() {
    assert_eq!(ClockTime::new(0, 0), Some(ClockTime { hour: 0, minute: 0 }));
    assert_eq!(ClockTime::new(23, 59), Some(ClockTime { hour: 23, minute: 59 }));
    assert_eq!(ClockTime::new(24, 0), None);
    assert_eq!(ClockTime::new(0, 60), None);
    assert_eq!(ClockTime::new(255, 255), None);
}

#[test]
fn minutes_until_agrees_with_chrono() {
    let spans: [i64; 12] =
        [0, 1, 59_999, 60_000, 60_001, 3_599_999, 3_600_000, 86_400_000, -1, -59_999, -60_000, -90_000];
    for span in spans {
        let now = chrono::DateTime::from_timestamp_millis(1_758_465_374_288).unwrap();
        let later = chrono::DateTime::from_timestamp_millis(1_758_465_374_288 + span).unwrap();
        let expected = (later - now).num_minutes();
        let start = Timestamp::from_millis(now.timestamp_millis());
        let end = Timestamp::from_millis(later.timestamp_millis());
        assert_eq!(start.minutes_until(end), expected, "for a span of {} ms", span);
    }
}

#[test]
fn staleness_agrees_with_chrono() {
    let threshold = chrono::Duration::minutes(10);
    assert_eq!(threshold.num_milliseconds(), STALE_AFTER_MILLIS);
    for age in [0_i64, 540_000, 599_999, 600_000, 600_001, 660_000] {
        let now = chrono::DateTime::from_timestamp_millis(1_758_465_374_288).unwrap();
        let updated = chrono::DateTime::from_timestamp_millis(1_758_465_374_288 - age).unwrap();
        let expected = now - updated > threshold;
        let got = Timestamp::from_millis(updated.timestamp_millis())
            .is_older_than(Timestamp::from_millis(now.timestamp_millis()), STALE_AFTER_MILLIS);
        assert_eq!(got, expected, "for an age of {} ms", age);
    }
}

#[test]
fn now_is_the_system_time() {
    let before = chrono::Utc::now().timestamp_millis();
    let now = Timestamp::now();
    let after = chrono::Utc::now().timestamp_millis();
    assert!(before <= now.millis() && now.millis() <= after);
}
