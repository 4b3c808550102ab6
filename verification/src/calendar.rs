//! Calendar arithmetic: the Unix time of midnight UTC on a civil date.
//!
//! Dates are proleptic Gregorian. Times are whole seconds since
//! 1970-01-01T00:00:00Z, which is the resolution of the compile timestamp
//! stored in a binary's file header.

use chrono::{DateTime, NaiveDate, NaiveDateTime, NaiveTime, Utc};
use vstd::prelude::*;

verus! {

/// Earliest year the date library can represent.
pub const MIN_YEAR: i32 = -262_143;

/// Latest year the date library can represent.
pub const MAX_YEAR: i32 = 262_142;

/// Whether `year` has a 29th of February.
pub open spec fn is_leap_year(year: int) -> bool {
    year % 4 == 0 && (year % 100 != 0 || year % 400 == 0)
}

/// Number of days in `month` of `year`; zero for a month that does not exist.
pub open spec fn days_in_month(year: int, month: int) -> int {
    if month == 2 {
        if is_leap_year(year) { 29 } else { 28 }
    } else if month == 4 || month == 6 || month == 9 || month == 11 {
        30
    } else if 1 <= month <= 12 {
        31
    } else {
        0
    }
}

/// Whether (`year`, `month`, `day`) names a day of the calendar.
pub open spec fn is_calendar_date(year: int, month: int, day: int) -> bool {
    1 <= month <= 12 && 1 <= day <= days_in_month(year, month)
}

/// Whether the date is a day of the calendar in a year that the date library
/// can represent.
pub open spec fn is_representable_date(year: int, month: int, day: int) -> bool {
    MIN_YEAR <= year <= MAX_YEAR && is_calendar_date(year, month, day)
}

/// Number of days of `year` that lie before the first of `month`.
pub open spec fn days_before_month(year: int, month: int) -> int
    decreases month,
{
    if month <= 1 {
        0
    } else {
        days_before_month(year, month - 1) + days_in_month(year, month - 1)
    }
}

/// Ordinal of a day counted from 0001-01-01, which is day 1.
pub open spec fn days_from_common_era(year: int, month: int, day: int) -> int {
    let y: int = year - 1;
    365 * y + y / 4 - y / 100 + y / 400 + days_before_month(year, month) + day
}

/// Unix time, in seconds, of midnight UTC on the given date.
#[verifier::opaque]
pub open spec fn midnight_unix_seconds(year: int, month: int, day: int) -> int {
    (days_from_common_era(year, month, day) - days_from_common_era(1970, 1, 1)) * 86_400
}

/// Calls chrono's `NaiveDate::from_ymd_opt`, pairs the date with
/// `NaiveTime::MIN` through `NaiveDateTime::new`, places it in UTC with
/// `DateTime::from_naive_utc_and_offset` and reads `DateTime::timestamp`.
///
/// Trusted: chrono yields a date exactly for the days of the proleptic
/// Gregorian calendar whose year it can represent, and the timestamp of
/// midnight on that day is its day count since 1970-01-01 times 86 400.
#[verifier::external_body]
fn midnight_utc(year: i32, month: u32, day: u32) -> (r: Option<i64>)
    ensures
        r.is_some() == is_representable_date(year as int, month as int, day as int),
        r matches Some(t) ==> t == midnight_unix_seconds(year as int, month as int, day as int),
{
    match NaiveDate::from_ymd_opt(year, month, day) {
        Some(date) => Some(
            DateTime::<Utc>::from_naive_utc_and_offset(
                NaiveDateTime::new(date, NaiveTime::MIN),
                Utc,
            ).timestamp(),
        ),
        None => None,
    }
}

/// A day of the proleptic Gregorian calendar, written as year, month and
/// day of the month.
#[derive(Debug, Copy, Clone, PartialEq, Eq, Hash, Structural)]
pub struct CalendarDate {
    pub year: i32,
    pub month: u32,
    pub day: u32,
}

impl CalendarDate {
    /// Whether the three fields name a day that exists and that the date
    /// library can represent.
    pub open spec fn is_valid(self) -> bool {
        is_representable_date(self.year as int, self.month as int, self.day as int)
    }

    /// Unix time, in seconds, of midnight UTC on this day.
    pub open spec fn unix_seconds(self) -> int {
        midnight_unix_seconds(self.year as int, self.month as int, self.day as int)
    }

    /// Unix time, in seconds, of midnight UTC on this day; `None` where the
    /// fields name no day that exists and can be represented.
    pub fn midnight(&self) -> (t: Option<i64>)
        ensures
            t.is_some() == self.is_valid(),
            t matches Some(seconds) ==> seconds == self.unix_seconds(),
    {
        midnight_utc(self.year, self.month, self.day)
    }
}

/// Unix time, in seconds, of midnight UTC on a day of the calendar.
pub fn date_to_timestamp(date: CalendarDate) -> (t: i64)
    requires
        date.is_valid(),
    ensures
        t == date.unix_seconds(),
{
    match date.midnight() {
        Some(t) => t,
        None => unreached(),
    }
}

} // verus!
