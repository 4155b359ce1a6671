//! Points in time, as milliseconds of UNIX time.

use chrono::Timelike;
use vstd::prelude::*;

verus! {

/// Milliseconds in one minute.
pub const MILLIS_PER_MINUTE: i64 = 60_000;

/// The age beyond which a snapshot counts as stale: ten minutes.
pub const STALE_AFTER_MILLIS: i64 = 600_000;

/// A point in time: milliseconds since 1970-01-01T00:00:00Z, not counting
/// leap seconds.
#[derive(Clone, Copy, Debug, PartialEq, Eq, Structural)]
pub struct Timestamp {
    pub millis: i64,
}

impl View for Timestamp {
    type V = int;

    /// The count of milliseconds.
    open spec fn view(&self) -> int {
        self.millis as int
    }
}

/// A time of day on a 24-hour clock, in some time zone.
#[derive(Clone, Copy, Debug, PartialEq, Eq, Structural)]
pub struct ClockTime {
    pub hour: u8,
    pub minute: u8,
}

impl ClockTime {
    /// Whether the fields name a time of day.
    pub open spec fn wf(self) -> bool {
        self.hour < 24 && self.minute < 60
    }

    /// The time of day with the given hour and minute, if they name one.
    pub fn new(hour: u8, minute: u8) -> (r: Option<ClockTime>)
        ensures
            r is Some <==> hour < 24 && minute < 60,
            r is Some ==> r->0 == (ClockTime { hour, minute }),
    {
        if hour < 24 && minute < 60 {
            Some(ClockTime { hour, minute })
        } else {
            None
        }
    }
}

/// The instant that a text in RFC 3339 form denotes, in milliseconds of UNIX
/// time, or `None` where the text is not in that form.
pub uninterp spec fn rfc3339_millis(text: Seq<char>) -> Option<i64>;

/// The milliseconds of an optional timestamp.
pub open spec fn millis_of(t: Option<Timestamp>) -> Option<i64> {
    match t {
        Some(t) => Some(t.millis),
        None => None,
    }
}

/// The whole minutes in a span of milliseconds, rounded toward zero.
pub open spec fn whole_minutes(span_millis: int) -> int {
    if span_millis >= 0 {
        span_millis / (MILLIS_PER_MINUTE as int)
    } else {
        -((-span_millis) / (MILLIS_PER_MINUTE as int))
    }
}

/// `chrono::DateTime::parse_from_rfc3339`, followed by the conversion to UTC
/// and `DateTime::timestamp_millis`. The result is a function of the text
/// alone; the contract gives it the name `rfc3339_millis` and says nothing
/// else about it.
#[verifier::external_body]
pub(crate) fn parse_rfc3339(text: &str) -> (r: Option<Timestamp>)
    ensures
        millis_of(r) == rfc3339_millis(text@),
{
    match chrono::DateTime::parse_from_rfc3339(text) {
        Ok(parsed) => Some(Timestamp { millis: parsed.with_timezone(&chrono::Utc).timestamp_millis() }),
        Err(_) => None,
    }
}

/// `chrono::Utc::now`, followed by `DateTime::timestamp_millis`: the reading
/// of the system clock. Nothing is promised of it. It fails where the
/// system clock stands before 1970.
#[verifier::external_body]
pub(crate) fn system_time() -> Timestamp {
    Timestamp { millis: chrono::Utc::now().timestamp_millis() }
}

/// `chrono::DateTime::from_timestamp_millis`, followed by the conversion to
/// `chrono::Local`, `Timelike::hour` and `Timelike::minute`: the local time of
/// day of an instant. The contract claims that there is a value for exactly
/// the instants from `NaiveDate::MIN` to `NaiveDate::MAX`, and that hour and
/// minute lie in the ranges that `Timelike` documents. The conversion fails
/// where chrono cannot use the time zone data of the machine.
#[verifier::external_body]
pub(crate) fn local_time_of_day(at: Timestamp) -> (r: Option<ClockTime>)
    ensures
        r is Some <==> at.has_date(),
        r is Some ==> r->0.wf(),
{
    match chrono::DateTime::from_timestamp_millis(at.millis) {
        Some(utc) => {
            let local = utc.with_timezone(&chrono::Local);
            Some(ClockTime { hour: local.hour() as u8, minute: local.minute() as u8 })
        },
        None => None,
    }
}

impl ClockTime {
    /// The time of day of `at` in the time zone of the machine: there is one
    /// for every instant that has a calendar date, and for no other.
    pub fn local(at: Timestamp) -> (r: Option<ClockTime>)
        ensures
            r is Some <==> at.has_date(),
            r is Some ==> r->0.wf(),
    {
        local_time_of_day(at)
    }
}
impl Timestamp {
    /// The current time, by the system clock.
    pub fn now() -> Timestamp {
        system_time()
    }

    /// Whether this instant has a calendar date, and with it a time of day
    /// in every time zone: its date lies in the years from -262143 to
    /// 262142.
    pub open spec fn has_date(self) -> bool {
        EARLIEST_DATED_MILLIS <= self@ <= LATEST_DATED_MILLIS
    }

    /// The point in time at `millis` milliseconds of UNIX time.
    pub fn from_millis(millis: i64) -> (r: Timestamp)
        ensures
            r@ == millis,
    {
        Timestamp { millis }
    }

    /// The count of milliseconds of UNIX time.
    pub fn millis(&self) -> (r: i64)
        ensures
            r == self@,
    {
        self.millis
    }

    /// The instant that a text in RFC 3339 form denotes; `None` where the
    /// text is not in that form.
    pub fn from_rfc3339(text: &str) -> (r: Option<Timestamp>)
        ensures
            millis_of(r) == rfc3339_millis(text@),
    {
        parse_rfc3339(text)
    }

    /// Whether this point in time lies strictly after `other`.
    pub fn is_after(&self, other: Timestamp) -> (r: bool)
        ensures
            r == (self@ > other@),
    {
        self.millis > other.millis
    }

    /// Whether more than `threshold_millis` have passed between this point
    /// in time and `now`.
    pub fn is_older_than(&self, now: Timestamp, threshold_millis: i64) -> (r: bool)
        ensures
            r == (now@ - self@ > threshold_millis),
    {
        now.millis as i128 - self.millis as i128 > threshold_millis as i128
    }

    /// The whole minutes from this point in time until `later`, rounded
    /// toward zero; negative when `later` lies before it.
    pub fn minutes_until(&self, later: Timestamp) -> (r: i64)
        ensures
            r == whole_minutes(later@ - self@),
    {
        let span: i128 = later.millis as i128 - self.millis as i128;
        let minutes: i128 = if span >= 0 {
            span / (MILLIS_PER_MINUTE as i128)
        } else {
            -((-span) / (MILLIS_PER_MINUTE as i128))
        };
        minutes as i64
    }
}

/// The first instant that has a calendar date: the start of January 1 of
/// the year -262143, which is 96 465 292 days before 1970.
pub const EARLIEST_DATED_MILLIS: i64 = -8_334_601_228_800_000;

/// The last instant that has a calendar date: the last millisecond of
/// December 31 of the year 262142, the day 95 026 236 after January 1, 1970.
pub const LATEST_DATED_MILLIS: i64 = 8_210_266_876_799_999;

} // verus!
