//! Wall-clock time as plain calendar fields, the fixed timestamp format
//! used in notification texts, and the quiet-hours window arithmetic.

use vstd::prelude::*;
use chrono::{Datelike, Timelike};
use crate::strutil::{four_digits, push_char, two_digits, u64_to_four_digits, u64_to_two_digits};

verus! {

/// A local wall-clock instant, broken into calendar fields.
#[derive(Clone, Copy)]
pub struct LocalTime {
    pub year: i64,
    pub month: u8,
    pub day: u8,
    pub hour: u8,
    pub minute: u8,
    pub second: u8,
}

impl LocalTime {
    /// Field ranges of a civil date-time.
    pub open spec fn well_formed(&self) -> bool {
        &&& 1 <= self.month <= 12
        &&& 1 <= self.day <= 31
        &&& self.hour < 24
        &&& self.minute < 60
        &&& self.second < 60
    }
}

/// Relies on `chrono::Local::now` with the `Datelike` / `Timelike`
/// accessors: month is 1..=12, day is 1..=31, hour is 0..=23, minute and
/// second are 0..=59 (a leap second is carried in the nanosecond field,
/// not here).
#[verifier::external_body]
pub fn now_local() -> (t: LocalTime)
    ensures
        t.well_formed(),
{
    let now = chrono::Local::now();
    LocalTime {
        year: now.year() as i64,
        month: now.month() as u8,
        day: now.day() as u8,
        hour: now.hour() as u8,
        minute: now.minute() as u8,
        second: now.second() as u8,
    }
}

/// The `%Y-%m-%d %H:%M:%S` rendering of `t`.
pub open spec fn spec_format_timestamp(t: LocalTime) -> Seq<char> {
    four_digits(t.year as int) + seq!['-'] + two_digits(t.month as int) + seq!['-'] + two_digits(
        t.day as int,
    ) + seq![' '] + two_digits(t.hour as int) + seq![':'] + two_digits(t.minute as int) + seq![':']
        + two_digits(t.second as int)
}

/// Renders `t` in the fixed `%Y-%m-%d %H:%M:%S` form appended to
/// notification texts.
pub fn format_timestamp(t: &LocalTime) -> (r: String)
    requires
        t.well_formed(),
        0 <= t.year < 10000,
    ensures
        r@ == spec_format_timestamp(*t),
{
    let mut r = u64_to_four_digits(t.year as u64);
    push_char(&mut r, '-');
    r.append(u64_to_two_digits(t.month as u64).as_str());
    push_char(&mut r, '-');
    r.append(u64_to_two_digits(t.day as u64).as_str());
    push_char(&mut r, ' ');
    r.append(u64_to_two_digits(t.hour as u64).as_str());
    push_char(&mut r, ':');
    r.append(u64_to_two_digits(t.minute as u64).as_str());
    push_char(&mut r, ':');
    r.append(u64_to_two_digits(t.second as u64).as_str());
    proof {
        assert(r@ =~= spec_format_timestamp(*t));
    }
    r
}

/// Whether `hour` falls in the daily quiet window `[start, end)`, with
/// wraparound past midnight when `start > end`.
pub open spec fn spec_in_quiet_hours(start: u8, end: u8, hour: u8) -> bool {
    if start > end {
        hour >= start || hour < end
    } else {
        hour >= start && hour < end
    }
}

/// Quiet-hours test over the current local hour.
pub fn in_quiet_hours(start: u8, end: u8, hour: u8) -> (r: bool)
    ensures
        r == spec_in_quiet_hours(start, end, hour),
{
    if start > end {
        hour >= start || hour < end
    } else {
        hour >= start && hour < end
    }
}

/// Seconds from the clock `hour:minute:second` until the next `end:00:00`,
/// for an instant inside the quiet window.
pub open spec fn spec_quiet_delay_seconds(start: u8, end: u8, hour: u8, minute: u8, second: u8) -> int {
    if hour < end {
        (end - hour) * 3600 - minute * 60 - second
    } else {
        (24 - hour) * 3600 - minute * 60 - second + end * 3600
    }
}

/// Computes how long a quieted message waits before it is re-enqueued:
/// the distance to the end of the quiet window, which is today's `end:00`
/// when the clock is before it and tomorrow's otherwise.  The delay is
/// always at least one second, so a re-enqueued message lands strictly
/// after the window opens.
pub fn quiet_delay_seconds(start: u8, end: u8, hour: u8, minute: u8, second: u8) -> (r: u64)
    requires
        end <= 23,
        hour < 24,
        minute < 60,
        second < 60,
        spec_in_quiet_hours(start, end, hour),
    ensures
        r == spec_quiet_delay_seconds(start, end, hour, minute, second),
        1 <= r <= 24 * 3600,
{
    let h = hour as u64;
    let m = minute as u64;
    let s = second as u64;
    if hour < end {
        (end as u64 - h) * 3600 - m * 60 - s
    } else {
        (24 - h) * 3600 - m * 60 - s + end as u64 * 3600
    }
}

} // verus!
