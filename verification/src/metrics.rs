//! The usage metrics that are shown for a snapshot: one row per window, with
//! its percentage and the time of its reset in words.

use crate::fixed::Fixed;
use crate::text::{append_decimal, append_padded2, decimal_nat, decimal_padded2};
use crate::time::{whole_minutes, ClockTime, Timestamp};
use crate::usage::{clone_text, text_of, UsageSnapshot, UsageSnapshotView, UsageWindow, UsageWindowView};
use vstd::prelude::*;

verus! {

/// One hundred percent, in thousandths of a percent.
pub const FULL_PERCENT_MILLI: i64 = 100_000;

/// One row of usage: the title of a window and what the window says.
#[derive(Debug)]
pub struct UsageMetric {
    pub title: String,
    pub used_percent: Fixed,
    pub resets_at: Option<Timestamp>,
    pub reset_description: Option<String>,
    /// Whether the percentage is labelled as used rather than remaining.
    pub show_used: bool,
    /// Whether the reset is shown as a time of day rather than as a span.
    pub show_absolute: bool,
}

/// The mathematical content of a `UsageMetric`.
pub struct UsageMetricView {
    pub title: Seq<char>,
    pub used_percent: Fixed,
    pub resets_at: Option<Timestamp>,
    pub reset_description: Option<Seq<char>>,
    pub show_used: bool,
    pub show_absolute: bool,
}

impl View for UsageMetric {
    type V = UsageMetricView;

    open spec fn view(&self) -> UsageMetricView {
        UsageMetricView {
            title: self.title@,
            used_percent: self.used_percent,
            resets_at: self.resets_at,
            reset_description: text_of(self.reset_description),
            show_used: self.show_used,
            show_absolute: self.show_absolute,
        }
    }
}

impl Clone for UsageMetric {
    fn clone(&self) -> (r: Self)
        ensures
            r == *self,
    {
        UsageMetric {
            title: self.title.clone(),
            used_percent: self.used_percent,
            resets_at: self.resets_at,
            reset_description: clone_text(&self.reset_description),
            show_used: self.show_used,
            show_absolute: self.show_absolute,
        }
    }
}

/// The contents of a list of metrics.
pub open spec fn metric_views(metrics: Seq<UsageMetric>) -> Seq<UsageMetricView> {
    metrics.map_values(|m: UsageMetric| m@)
}

/// The row of a window under a title.
pub open spec fn metric_of(
    title: Seq<char>,
    window: UsageWindowView,
    show_used: bool,
    show_absolute: bool,
) -> UsageMetricView {
    UsageMetricView {
        title,
        used_percent: window.used_percent,
        resets_at: window.resets_at,
        reset_description: window.reset_description,
        show_used,
        show_absolute,
    }
}

/// The row of an optional window: one row where the window is present, none
/// where it is not.
pub open spec fn optional_metric(
    title: Seq<char>,
    window: Option<UsageWindowView>,
    show_used: bool,
    show_absolute: bool,
) -> Seq<UsageMetricView> {
    match window {
        Some(window) => seq![metric_of(title, window, show_used, show_absolute)],
        None => Seq::empty(),
    }
}

/// The title of the search row: the given label, or `Search` without one.
pub open spec fn search_title(search_label: Option<Seq<char>>) -> Seq<char> {
    match search_label {
        Some(label) => label,
        None => "Search"@,
    }
}

/// The rows of a snapshot: the primary window under the session label, the
/// secondary under the weekly label, the tertiary as `Premium` and the
/// search window under the search label, each only where it is present.
pub open spec fn metrics_of(
    snapshot: UsageSnapshotView,
    session_label: Seq<char>,
    weekly_label: Seq<char>,
    search_label: Option<Seq<char>>,
    show_used: bool,
    show_absolute: bool,
) -> Seq<UsageMetricView> {
    optional_metric(session_label, snapshot.primary, show_used, show_absolute) + optional_metric(
        weekly_label,
        snapshot.secondary,
        show_used,
        show_absolute,
    ) + optional_metric("Premium"@, snapshot.tertiary, show_used, show_absolute) + optional_metric(
        search_title(search_label),
        snapshot.search,
        show_used,
        show_absolute,
    )
}

/// The characters of an optional label.
pub open spec fn label_of(label: Option<&str>) -> Option<Seq<char>> {
    match label {
        Some(label) => Some(label@),
        None => None,
    }
}

/// The rows of usage of one snapshot.
#[derive(Debug)]
pub struct UsageMetricsSection {
    metrics: Vec<UsageMetric>,
}

impl View for UsageMetricsSection {
    type V = Seq<UsageMetricView>;

    closed spec fn view(&self) -> Seq<UsageMetricView> {
        metric_views(self.metrics@)
    }
}

/// Append the row of `window`, where it is present, to `metrics`.
fn push_metric(
    metrics: &mut Vec<UsageMetric>,
    title: &str,
    window: &Option<UsageWindow>,
    show_used: bool,
    show_absolute: bool,
)
    ensures
        metric_views(final(metrics)@) == metric_views(old(metrics)@) + optional_metric(
            title@,
            crate::usage::window_view(*window),
            show_used,
            show_absolute,
        ),
{
    match window {
        Some(window) => {
            metrics.push(
                UsageMetric {
                    title: String::from_str(title),
                    used_percent: window.used_percent,
                    resets_at: window.resets_at,
                    reset_description: clone_text(&window.reset_description),
                    show_used,
                    show_absolute,
                },
            );
            assert(metric_views(metrics@) =~= metric_views(old(metrics)@) + optional_metric(
                title@,
                crate::usage::window_view(Some(*window)),
                show_used,
                show_absolute,
            ));
        },
        None => {
            assert(metric_views(metrics@) =~= metric_views(old(metrics)@) + Seq::empty());
        },
    }
}

impl UsageMetricsSection {
    /// The rows of `snapshot`, in the order primary, secondary, tertiary,
    /// search, with a row for each window that is present.
    pub fn new(
        snapshot: &UsageSnapshot,
        session_label: &str,
        weekly_label: &str,
        search_label: Option<&str>,
        show_used: bool,
        show_absolute: bool,
    ) -> (section: Self)
        ensures
            section@ == metrics_of(
                snapshot@,
                session_label@,
                weekly_label@,
                label_of(search_label),
                show_used,
                show_absolute,
            ),
    {
        let mut metrics: Vec<UsageMetric> = Vec::new();
        assert(metric_views(metrics@) =~= Seq::empty());
        push_metric(&mut metrics, session_label, &snapshot.primary, show_used, show_absolute);
        push_metric(&mut metrics, weekly_label, &snapshot.secondary, show_used, show_absolute);
        push_metric(&mut metrics, "Premium", &snapshot.tertiary, show_used, show_absolute);
        let search_title = match search_label {
            Some(label) => label,
            None => "Search",
        };
        push_metric(&mut metrics, search_title, &snapshot.search, show_used, show_absolute);
        assert(metric_views(metrics@) =~= metrics_of(
            snapshot@,
            session_label@,
            weekly_label@,
            label_of(search_label),
            show_used,
            show_absolute,
        ));
        UsageMetricsSection { metrics }
    }

    /// The number of rows.
    pub fn len(&self) -> (n: usize)
        ensures
            n == self@.len(),
    {
        self.metrics.len()
    }

    /// Whether there is no row at all: the snapshot had no window.
    pub fn is_empty(&self) -> (r: bool)
        ensures
            r == (self@.len() == 0),
    {
        self.metrics.len() == 0
    }

    /// A copy of the row at `index`, or `None` past the last row.
    pub fn get(&self, index: usize) -> (r: Option<UsageMetric>)
        ensures
            r is Some <==> index < self@.len(),
            r is Some ==> r->0@ == self@[index as int],
    {
        if index < self.metrics.len() {
            Some(self.metrics[index].clone())
        } else {
            None
        }
    }

    /// The rows, in order.
    pub fn into_rows(self) -> (rows: Vec<UsageMetricRow>)
        ensures
            rows@.len() == self@.len(),
            forall|i: int| 0 <= i < rows@.len() ==> (#[trigger] rows@[i]).metric@ == self@[i],
    {
        let mut rows: Vec<UsageMetricRow> = Vec::new();
        let mut i: usize = 0;
        while i < self.metrics.len()
            invariant
                i <= self.metrics.len(),
                rows@.len() == i,
                forall|j: int| 0 <= j < i ==> (#[trigger] rows@[j]).metric@ == self@[j],
            decreases self.metrics.len() - i,
        {
            rows.push(UsageMetricRow::new(self.metrics[i].clone()));
            i = i + 1;
        }
        rows
    }
}

/// `p` limited to the range from zero to one hundred percent.
pub open spec fn clamped_percent(p: int) -> int {
    if p < 0 {
        0
    } else if p > FULL_PERCENT_MILLI {
        FULL_PERCENT_MILLI as int
    } else {
        p
    }
}

/// The whole number nearest to `milli` thousandths, for `milli` not below
/// zero; of two equally near numbers the even one.
pub open spec fn round_half_even(milli: int) -> int
    recommends
        milli >= 0,
{
    let whole = milli / 1000;
    let rest = milli % 1000;
    if rest < 500 {
        whole
    } else if rest > 500 {
        whole + 1
    } else if whole % 2 == 0 {
        whole
    } else {
        whole + 1
    }
}

/// The whole percentage that is shown for `p` thousandths of a percent.
pub open spec fn shown_percent(p: int) -> int {
    round_half_even(clamped_percent(p))
}

/// The hour of a 12-hour clock for an hour of the day: 12 for midnight and
/// noon.
pub open spec fn hour12(hour: int) -> int {
    if hour % 12 == 0 {
        12
    } else {
        hour % 12
    }
}

/// A time of day on a 12-hour clock: the hour, a colon, the minute in two
/// digits, a space and `AM` or `PM`.
pub open spec fn clock_text(clock: ClockTime) -> Seq<char> {
    decimal_nat(hour12(clock.hour as int) as nat) + ":"@ + decimal_padded2(clock.minute as nat)
        + if clock.hour >= 12 {
        " PM"@
    } else {
        " AM"@
    }
}

/// A span of whole minutes in words: hours and minutes from one hour on,
/// minutes alone below.
pub open spec fn span_text(total_minutes: int) -> Seq<char>
    recommends
        total_minutes >= 0,
{
    if total_minutes / 60 > 0 {
        decimal_nat((total_minutes / 60) as nat) + "h "@ + decimal_nat((total_minutes % 60) as nat)
            + "m"@
    } else {
        decimal_nat((total_minutes % 60) as nat) + "m"@
    }
}

impl UsageMetricView {
    /// The usage limited to the range from zero to one hundred percent, in
    /// thousandths of a percent.
    pub open spec fn clamped(self) -> int {
        clamped_percent(self.used_percent@)
    }

    /// The label of the percentage: the shown percentage, then `% used`.
    pub open spec fn percent_label(self) -> Seq<char> {
        decimal_nat(shown_percent(self.used_percent@) as nat) + "% used"@
    }

    /// The provider's own words for the reset, after `Resets `, where the
    /// provider gave a description.
    pub open spec fn description_text(self) -> Option<Seq<char>> {
        match self.reset_description {
            Some(description) => Some("Resets "@ + description),
            None => None,
        }
    }

    /// The reset of this row in words, at the time `now`.
    ///
    /// A row without a reset time falls back on the provider's description,
    /// whatever the way in which times are shown. A row with a reset time
    /// does not read the description. With absolute times it names the time
    /// of day `reset_clock` of the reset, where that is known. With relative
    /// times it names a reset in the future by the span until it, and a
    /// reset that is not in the future as `soon`.
    pub open spec fn reset_text(self, now: Timestamp, reset_clock: Option<ClockTime>) -> Option<
        Seq<char>,
    > {
        match self.resets_at {
            Some(reset_at) => if self.show_absolute {
                match reset_clock {
                    Some(clock) => Some("Resets at "@ + clock_text(clock)),
                    None => None,
                }
            } else if reset_at@ > now@ {
                Some("Resets in "@ + span_text(whole_minutes(reset_at@ - now@)))
            } else {
                Some("Resets soon"@)
            },
            None => self.description_text(),
        }
    }
}

/// The time of day on a 12-hour clock, as text.
pub fn format_clock(clock: ClockTime) -> (s: String)
    ensures
        s@ == clock_text(clock),
{
    let hour = clock.hour % 12;
    let hour = if hour == 0 {
        12
    } else {
        hour
    };
    let mut s = String::new();
    append_decimal(&mut s, hour as u64);
    s.append(":");
    append_padded2(&mut s, clock.minute as u64);
    if clock.hour >= 12 {
        s.append(" PM");
    } else {
        s.append(" AM");
    }
    assert(s@ =~= clock_text(clock));
    s
}

/// A span of whole minutes in words.
pub fn format_span(total_minutes: u64) -> (s: String)
    ensures
        s@ == span_text(total_minutes as int),
{
    let hours = total_minutes / 60;
    let minutes = total_minutes % 60;
    let mut s = String::new();
    if hours > 0 {
        append_decimal(&mut s, hours);
        s.append("h ");
        append_decimal(&mut s, minutes);
        s.append("m");
    } else {
        append_decimal(&mut s, minutes);
        s.append("m");
    }
    assert(s@ =~= span_text(total_minutes as int));
    s
}

/// One row of usage, ready to be shown.
#[derive(Debug)]
pub struct UsageMetricRow {
    pub metric: UsageMetric,
}

impl UsageMetricRow {
    /// The row of a metric.
    pub fn new(metric: UsageMetric) -> (row: Self)
        ensures
            row.metric == metric,
    {
        UsageMetricRow { metric }
    }

    /// The usage limited to the range from zero to one hundred percent: the
    /// share of the progress bar that is filled.
    pub fn clamped_percent(&self) -> (r: Fixed)
        ensures
            r@ == self.metric@.clamped(),
            0 <= r@ <= FULL_PERCENT_MILLI,
    {
        let p = self.metric.used_percent.milli;
        if p < 0 {
            Fixed { milli: 0 }
        } else if p > FULL_PERCENT_MILLI {
            Fixed { milli: FULL_PERCENT_MILLI }
        } else {
            Fixed { milli: p }
        }
    }

    /// The whole percentage that is shown: the clamped usage, rounded to the
    /// nearest whole number, a half to the even neighbour.
    pub fn shown_percent(&self) -> (r: u8)
        ensures
            r == shown_percent(self.metric.used_percent@),
            r <= 100,
    {
        let p = self.clamped_percent().milli;
        let whole = p / 1000;
        let rest = p % 1000;
        let rounded = if rest < 500 {
            whole
        } else if rest > 500 {
            whole + 1
        } else if whole % 2 == 0 {
            whole
        } else {
            whole + 1
        };
        rounded as u8
    }

    /// The label of the percentage, as in `42% used`.
    pub fn percent_label(&self) -> (s: String)
        ensures
            s@ == self.metric@.percent_label(),
    {
        let mut s = String::new();
        append_decimal(&mut s, self.shown_percent() as u64);
        s.append("% used");
        assert(s@ =~= self.metric@.percent_label());
        s
    }

    /// The reset of this row in words, at the time `now`; `None` where
    /// nothing is known about the reset.
    ///
    /// `reset_clock` is the time of day of the reset in the time zone in
    /// which it is to be shown. It is read only where absolute times are
    /// shown and the row has a reset time.
    pub fn format_reset_time_at(&self, now: Timestamp, reset_clock: Option<ClockTime>) -> (r: Option<
        String,
    >)
        ensures
            text_of(r) == self.metric@.reset_text(now, reset_clock),
    {
        match self.metric.resets_at {
            Some(reset_at) => {
                if self.metric.show_absolute {
                    match reset_clock {
                        Some(clock) => {
                            let mut s = String::from_str("Resets at ");
                            let clock_text = format_clock(clock);
                            s.append(clock_text.as_str());
                            Some(s)
                        },
                        None => None,
                    }
                } else if reset_at.is_after(now) {
                    let total_minutes = now.minutes_until(reset_at);
                    let mut s = String::from_str("Resets in ");
                    let span = format_span(total_minutes as u64);
                    s.append(span.as_str());
                    Some(s)
                } else {
                    Some(String::from_str("Resets soon"))
                }
            },
            None => match &self.metric.reset_description {
                Some(description) => {
                    let mut s = String::from_str("Resets ");
                    s.append(description.as_str());
                    Some(s)
                },
                None => None,
            },
        }
    }

    /// The reset of this row in words, at the current time; `None` where
    /// nothing is known about the reset.
    ///
    /// A row without a reset time gives the provider's description. For a
    /// row with a reset time the current time is read from the system
    /// clock, and for absolute times the time of day of the reset is taken
    /// in the time zone of the machine: there is a text for every reset
    /// time that has a calendar date, and it names a time of day. The text
    /// is that of `format_reset_time_at` for what clock and time zone gave.
    pub fn format_reset_time(&self) -> (r: Option<String>)
        ensures
            exists|now: Timestamp, reset_clock: Option<ClockTime>|
                text_of(r) == self.metric@.reset_text(now, reset_clock),
            self.metric.resets_at is None ==> text_of(r) == self.metric@.description_text(),
            self.metric.resets_at is Some && self.metric.show_absolute ==> (r is Some
                <==> self.metric.resets_at->0.has_date()),
            self.metric.resets_at is Some && self.metric.show_absolute && r is Some ==> exists|
                clock: ClockTime,
            |
                clock.wf() && r->0@ == "Resets at "@ + clock_text(clock),
            self.metric.resets_at is Some && !self.metric.show_absolute ==> r is Some,
    {
        let now = Timestamp::now();
        let reset_clock = match self.metric.resets_at {
            Some(reset_at) => {
                if self.metric.show_absolute {
                    ClockTime::local(reset_at)
                } else {
                    None
                }
            },
            None => None,
        };
        let r = self.format_reset_time_at(now, reset_clock);
        proof {
            assert(text_of(r) == self.metric@.reset_text(now, reset_clock));
            if self.metric.resets_at is Some && self.metric.show_absolute && r is Some {
                let clock = reset_clock->0;
                assert(clock.wf() && r->0@ == "Resets at "@ + clock_text(clock));
            }
        }
        r
    }
}

/// A reset time, where present, decides the text: the provider's
/// description is read only for a row that has no reset time.
pub proof fn lemma_reset_time_takes_precedence(
    metric: UsageMetricView,
    other_description: Option<Seq<char>>,
    now: Timestamp,
    reset_clock: Option<ClockTime>,
)
    requires
        metric.resets_at is Some,
    ensures
        (UsageMetricView { reset_description: other_description, ..metric }).reset_text(
            now,
            reset_clock,
        ) == metric.reset_text(now, reset_clock),
{
}

/// The provider's description is the fallback for every row without a reset
/// time, whichever way times are shown and whatever the clock says.
pub proof fn lemma_description_is_the_fallback(
    metric: UsageMetricView,
    now: Timestamp,
    reset_clock: Option<ClockTime>,
)
    requires
        metric.resets_at is None,
    ensures
        metric.reset_text(now, reset_clock) == metric.description_text(),
        metric.reset_description is Some ==> metric.reset_text(now, reset_clock) == Some(
            "Resets "@ + metric.reset_description->0,
        ),
{
}

/// The shown percentage lies between 0 and 100, whatever the usage.
pub proof fn lemma_shown_percent_in_range(p: int)
    ensures
        0 <= shown_percent(p) <= 100,
        0 <= clamped_percent(p) <= FULL_PERCENT_MILLI,
{
}

} // verus!
