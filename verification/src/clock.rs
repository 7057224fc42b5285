//! Local calendar time: the model of a date-time, and everything that is
//! asked of `chrono`.
//!
//! A [`LocalDateTime`] holds the fields of a date-time in plain integers, so
//! that contracts can speak of them. `chrono` decides which dates exist, reads
//! the clock, measures the time between two date-times, writes one out and
//! tells how the zone's rules map one. Each of these calls stands in a small
//! function of its own whose contract is believed, not proved.

use chrono::{Datelike, TimeZone, Timelike};
use vstd::prelude::*;

verus! {

/// The first year that `chrono` can hold.
pub const MIN_YEAR: i32 = -262_143;

/// The last year that `chrono` can hold.
pub const MAX_YEAR: i32 = 262_142;

/// One more than the largest count of nanoseconds within a second.
pub const NANOS_PER_SECOND: u32 = 1_000_000_000;

/// `year` has a 29th of February in the proleptic Gregorian calendar.
pub open spec fn is_leap_year(year: int) -> bool {
    year % 4 == 0 && (year % 100 != 0 || year % 400 == 0)
}

/// The number of days of `month` in `year`.
pub open spec fn days_in_month(year: int, month: int) -> int
    recommends
        1 <= month <= 12,
{
    if month == 2 {
        if is_leap_year(year) {
            29
        } else {
            28
        }
    } else if month == 4 || month == 6 || month == 9 || month == 11 {
        30
    } else {
        31
    }
}

/// The day exists in the proleptic Gregorian calendar, in a year that
/// `chrono` can hold.
pub open spec fn is_calendar_date(year: int, month: int, day: int) -> bool {
    &&& MIN_YEAR <= year <= MAX_YEAR
    &&& 1 <= month <= 12
    &&& 1 <= day <= days_in_month(year, month)
}

/// The time exists on a day without a leap second.
pub open spec fn is_clock_time(hour: int, minute: int, second: int) -> bool {
    &&& 0 <= hour < 24
    &&& 0 <= minute < 60
    &&& 0 <= second < 60
}

/// A date and a time of day as a wall clock in the local zone shows them,
/// without an offset from UTC.
#[derive(Clone, Copy, Debug, PartialEq, Eq, Structural)]
pub struct LocalDateTime {
    pub year: i32,
    pub month: u32,
    pub day: u32,
    pub hour: u32,
    pub minute: u32,
    pub second: u32,
    pub nanosecond: u32,
}

/// How the local zone's rules map a wall-clock date-time to an instant.
#[derive(Clone, Copy, Debug, PartialEq, Eq, Structural)]
pub enum LocalMapping {
    /// Exactly one instant shows this date-time.
    Unique,
    /// Two instants show it: clocks were set back over it.
    Ambiguous,
    /// No instant shows it: clocks were set forward over it.
    Nonexistent,
}

/// The whole seconds from `earlier` to `later` as `chrono` counts them: what
/// `NaiveDateTime::signed_duration_since` followed by `TimeDelta::num_seconds`
/// returns for the two date-times. A part of a second is cut off towards zero.
pub uninterp spec fn seconds_between(later: LocalDateTime, earlier: LocalDateTime) -> int;

/// The text that `chrono` writes for a date-time through `Display`.
pub uninterp spec fn rendered(t: LocalDateTime) -> Seq<char>;

/// `NaiveDate::from_ymd_opt` of `chrono` finds a date for these numbers.
///
/// Believed: it does so exactly for the days of the proleptic Gregorian
/// calendar in the years from `MIN_YEAR` to `MAX_YEAR`.
#[verifier::external_body]
pub(crate) fn date_exists(year: i32, month: u32, day: u32) -> (found: bool)
    ensures
        found == is_calendar_date(year as int, month as int, day as int),
{
    chrono::NaiveDate::from_ymd_opt(year, month, day).is_some()
}

/// `NaiveTime::from_hms_opt` of `chrono` finds a time for these numbers.
///
/// Believed: it does so exactly where the hour is under 24 and the minute and
/// the second are under 60.
#[verifier::external_body]
pub(crate) fn time_exists(hour: u32, minute: u32, second: u32) -> (found: bool)
    ensures
        found == is_clock_time(hour as int, minute as int, second as int),
{
    chrono::NaiveTime::from_hms_opt(hour, minute, second).is_some()
}

/// The wall-clock time of this moment in the local zone: `Local::now` of
/// `chrono`, then `DateTime::naive_local`.
///
/// Believed: the fields form a date-time that exists, with less than a second
/// of nanoseconds. Nothing is said of which one: two calls differ. `chrono`
/// panics where the system clock stands before 1970.
#[verifier::external_body]
pub(crate) fn read_local_clock() -> (now: LocalDateTime)
    ensures
        now.wf(),
{
    let now = chrono::Local::now().naive_local();
    LocalDateTime {
        year: now.year(),
        month: now.month(),
        day: now.day(),
        hour: now.hour(),
        minute: now.minute(),
        second: now.second(),
        nanosecond: now.nanosecond(),
    }
}

/// The whole seconds from `earlier` to `later`:
/// `NaiveDateTime::signed_duration_since` of `chrono`, then
/// `TimeDelta::num_seconds`.
///
/// Believed: the result depends on the two date-times alone.
#[verifier::external_body]
pub(crate) fn count_seconds_between(later: &LocalDateTime, earlier: &LocalDateTime) -> (seconds: i64)
    requires
        later.wf(),
        earlier.wf(),
    ensures
        seconds == seconds_between(*later, *earlier),
{
    let a = chrono::NaiveDate::from_ymd_opt(later.year, later.month, later.day)
        .unwrap()
        .and_hms_nano_opt(later.hour, later.minute, later.second, later.nanosecond)
        .unwrap();
    let b = chrono::NaiveDate::from_ymd_opt(earlier.year, earlier.month, earlier.day)
        .unwrap()
        .and_hms_nano_opt(earlier.hour, earlier.minute, earlier.second, earlier.nanosecond)
        .unwrap();
    a.signed_duration_since(b).num_seconds()
}

/// The text of a date-time: `to_string` on a `NaiveDateTime` of `chrono`, that
/// is its `Display`.
///
/// Believed: the text depends on the date-time alone.
#[verifier::external_body]
fn render(t: &LocalDateTime) -> (text: String)
    requires
        t.wf(),
    ensures
        text@ == rendered(*t),
{
    chrono::NaiveDate::from_ymd_opt(t.year, t.month, t.day)
        .unwrap()
        .and_hms_nano_opt(t.hour, t.minute, t.second, t.nanosecond)
        .unwrap()
        .to_string()
}

/// How the rules of the machine's time zone map `t`:
/// `TimeZone::from_local_datetime` of `chrono` on `Local`.
///
/// Nothing is believed of the result: it depends on the zone that the machine
/// is set to.
#[verifier::external_body]
pub(crate) fn map_in_local_zone(t: &LocalDateTime) -> (mapping: LocalMapping)
    requires
        t.wf(),
{
    let naive = chrono::NaiveDate::from_ymd_opt(t.year, t.month, t.day)
        .unwrap()
        .and_hms_nano_opt(t.hour, t.minute, t.second, t.nanosecond)
        .unwrap();
    match chrono::Local.from_local_datetime(&naive) {
        chrono::LocalResult::Single(_) => LocalMapping::Unique,
        chrono::LocalResult::Ambiguous(_, _) => LocalMapping::Ambiguous,
        chrono::LocalResult::None => LocalMapping::Nonexistent,
    }
}

impl LocalDateTime {
    /// The date and the time exist, and the nanoseconds stay within the
    /// second.
    pub open spec fn wf(&self) -> bool {
        &&& is_calendar_date(self.year as int, self.month as int, self.day as int)
        &&& is_clock_time(self.hour as int, self.minute as int, self.second as int)
        &&& self.nanosecond < NANOS_PER_SECOND
    }

    /// `self` is the same wall-clock time as `other` or an earlier one: the
    /// fields compare in the order year, month, day, hour, minute, second,
    /// nanosecond.
    pub open spec fn at_or_before(&self, other: &LocalDateTime) -> bool {
        if self.year != other.year {
            self.year < other.year
        } else if self.month != other.month {
            self.month < other.month
        } else if self.day != other.day {
            self.day < other.day
        } else if self.hour != other.hour {
            self.hour < other.hour
        } else if self.minute != other.minute {
            self.minute < other.minute
        } else if self.second != other.second {
            self.second < other.second
        } else {
            self.nanosecond <= other.nanosecond
        }
    }

    /// The date-time with these fields, if it exists.
    pub fn new(
        year: i32,
        month: u32,
        day: u32,
        hour: u32,
        minute: u32,
        second: u32,
        nanosecond: u32,
    ) -> (r: Option<LocalDateTime>)
        ensures
            r == (if (LocalDateTime { year, month, day, hour, minute, second, nanosecond }).wf() {
                Some(LocalDateTime { year, month, day, hour, minute, second, nanosecond })
            } else {
                None
            }),
    {
        if date_exists(year, month, day) && time_exists(hour, minute, second) && nanosecond
            < NANOS_PER_SECOND {
            Some(LocalDateTime { year, month, day, hour, minute, second, nanosecond })
        } else {
            None
        }
    }

    /// Whether `self` is the same wall-clock time as `other` or an earlier
    /// one.
    pub fn is_at_or_before(&self, other: &LocalDateTime) -> (b: bool)
        ensures
            b == self.at_or_before(other),
    {
        if self.year != other.year {
            self.year < other.year
        } else if self.month != other.month {
            self.month < other.month
        } else if self.day != other.day {
            self.day < other.day
        } else if self.hour != other.hour {
            self.hour < other.hour
        } else if self.minute != other.minute {
            self.minute < other.minute
        } else if self.second != other.second {
            self.second < other.second
        } else {
            self.nanosecond <= other.nanosecond
        }
    }

    /// The date-time as text, such as `2024-09-07 18:00:00`.
    pub fn to_string(&self) -> (text: String)
        requires
            self.wf(),
        ensures
            text@ == rendered(*self),
    {
        render(self)
    }
}

} // verus!
