//! Julian Date of a calendar date, as exact integer terms.
//!
//! The Julian Date of a date `(year, month, day)` at a time of day is
//!
//! `floor(365.25 (y + 4716)) + floor(30.6001 (m + 1)) + d + b - 1524.5`
//!
//! where January and February count as months 13 and 14 of the year before,
//! `d` is the day with the time of day as its fraction, and
//! `b = 2 - floor(y / 100) + floor(y / 400)`. Every term but the fraction of
//! the day is an integer, and the fraction is a whole number of seconds over
//! 86400: the date is kept here as those integers, and as a whole number of
//! seconds it is exact.

use vstd::prelude::*;

verus! {

/// Seconds in a day.
pub const SECONDS_PER_DAY: u64 = 86400;

/// The year in which the formula counts `month` of `year`: January and
/// February belong to the year before.
pub open spec fn shifted_year(year: int, month: int) -> int {
    if month > 2 {
        year
    } else {
        year - 1
    }
}

/// The number under which the formula counts `month`: 3 to 12 for March to
/// December, 13 and 14 for January and February.
pub open spec fn shifted_month(month: int) -> int {
    if month > 2 {
        month
    } else {
        month + 12
    }
}

/// `floor(365.25 (y + 4716))`.
pub open spec fn year_days(y: int) -> int {
    (1461 * (y + 4716)) / 4
}

/// `floor(30.6001 (m + 1))`.
pub open spec fn month_days(m: int) -> int {
    (306001 * (m + 1)) / 10000
}

/// `2 - floor(y / 100) + floor(y / 400)`.
pub open spec fn century_correction(y: int) -> int {
    2 - y / 100 + y / 400
}

/// Seconds from midnight to the given time of day.
pub open spec fn seconds_of_day(hour: int, minute: int, second: int) -> int {
    hour * 3600 + minute * 60 + second
}

/// The integer terms of the formula summed up: the Julian Date of the date at
/// midnight is this number less 1524.5.
pub open spec fn day_count(year: int, month: int, day: int) -> int {
    year_days(shifted_year(year, month)) + month_days(shifted_month(month)) + day
        + century_correction(shifted_year(year, month))
}

/// The Julian Date in seconds: 86400 times the Julian Date.
pub open spec fn julian_seconds(
    year: int,
    month: int,
    day: int,
    hour: int,
    minute: int,
    second: int,
) -> int {
    86400 * day_count(year, month, day) - 131716800 + seconds_of_day(hour, minute, second)
}

/// A Julian Date, held as the terms of the formula.
#[derive(Clone, Copy, Debug, PartialEq, Eq)]
pub struct JulianDate {
    /// `floor(365.25 (y + 4716))`.
    pub year_days: u64,
    /// `floor(30.6001 (m + 1))`.
    pub month_days: u64,
    /// `2 - floor(y / 100) + floor(y / 400)`.
    pub century_correction: i64,
    /// Day of the month.
    pub day: u32,
    /// Seconds from midnight.
    pub day_seconds: u64,
}

impl JulianDate {
    /// The sum of the integer terms; the Julian Date at midnight is this
    /// number less 1524.5.
    pub open spec fn day_count(self) -> int {
        self.year_days + self.month_days + self.day + self.century_correction
    }

    /// 86400 times the Julian Date.
    pub open spec fn seconds(self) -> int {
        86400 * self.day_count() - 131716800 + self.day_seconds
    }

    /// The sum of the integer terms.
    pub fn whole_days(&self) -> (r: i128)
        ensures
            r == self.day_count(),
    {
        self.year_days as i128 + self.month_days as i128 + self.day as i128
            + self.century_correction as i128
    }

    /// The Julian Date in seconds: 86400 times the Julian Date, exactly.
    pub fn total_seconds(&self) -> (r: i128)
        ensures
            r == self.seconds(),
    {
        86400 * self.whole_days() - 131716800 + self.day_seconds as i128
    }
}

/// The Julian Date of `day`.`month`.`year` at `hour`:`minute`:`second`.
///
/// No field is held to a calendar's range: month 14 or hour 30 are taken as
/// numbers and the formula is applied to them.
pub fn date_to_jd(year: u32, month: u32, day: u32, hour: u32, minute: u32, second: u32) -> (r:
    JulianDate)
    ensures
        r.year_days == year_days(shifted_year(year as int, month as int)),
        r.month_days == month_days(shifted_month(month as int)),
        r.century_correction == century_correction(shifted_year(year as int, month as int)),
        r.day == day,
        r.day_seconds == seconds_of_day(hour as int, minute as int, second as int),
        r.day_count() == day_count(year as int, month as int, day as int),
        r.seconds() == julian_seconds(
            year as int,
            month as int,
            day as int,
            hour as int,
            minute as int,
            second as int,
        ),
{
    // y + 4716 and m + 1, both positive even where the year is 0.
    let (y_off, m_next): (u64, u64) = if month > 2 {
        (year as u64 + 4716, month as u64 + 1)
    } else {
        (year as u64 + 4715, month as u64 + 13)
    };
    let year_days: u64 = (1461 * y_off) / 4;
    let month_days: u64 = (306001 * m_next) / 10000;
    let century_correction: i64 = if y_off >= 4716 {
        let y: u64 = y_off - 4716;
        let centuries: i64 = (y / 100) as i64;
        let quads: i64 = (y / 400) as i64;
        2 - centuries + quads
    } else {
        // The year before year 0: both floors are -1.
        2
    };
    let day_seconds: u64 = hour as u64 * 3600 + minute as u64 * 60 + second as u64;
    JulianDate { year_days, month_days, century_correction, day, day_seconds }
}

/// Whether `year` is a leap year of the Gregorian calendar.
pub open spec fn is_leap_year(year: int) -> bool {
    year % 4 == 0 && (year % 100 != 0 || year % 400 == 0)
}

/// Days of `month` in `year`, for a month from 1 to 12.
pub open spec fn days_in_month(year: int, month: int) -> int {
    if month == 2 {
        if is_leap_year(year) {
            29
        } else {
            28
        }
    } else if month == 4 || month == 6 || month == 9 || month == 11 {
        30
    } else {
        31
    }
}

/// Days of `year` that lie before the first of `month`, for a month from 1 to
/// 12.
pub open spec fn days_before_month(year: int, month: int) -> int {
    let leap: int = if is_leap_year(year) && month > 2 {
        1
    } else {
        0
    };
    let common: int = if month <= 1 {
        0
    } else if month == 2 {
        31
    } else if month == 3 {
        59
    } else if month == 4 {
        90
    } else if month == 5 {
        120
    } else if month == 6 {
        151
    } else if month == 7 {
        181
    } else if month == 8 {
        212
    } else if month == 9 {
        243
    } else if month == 10 {
        273
    } else if month == 11 {
        304
    } else {
        334
    };
    common + leap
}

/// Each month begins where the month before it ends.
pub proof fn months_follow_each_other(year: int, month: int)
    requires
        1 <= month < 12,
    ensures
        days_before_month(year, month + 1) == days_before_month(year, month) + days_in_month(
            year,
            month,
        ),
{
}

/// The terms of the formula that depend on the year grow from one year to the
/// next by the length of the year.
proof fn year_terms_step(year: int)
    requires
        year >= 0,
    ensures
        year_days(year) + century_correction(year) == year_days(year - 1) + century_correction(
            year - 1,
        ) + 365 + (if is_leap_year(year) {
            1int
        } else {
            0int
        }),
{
    let x: int = year + 4716;
    assert(year_days(year) == 365 * x + x / 4);
    assert(year_days(year - 1) == 365 * (x - 1) + (x - 1) / 4);
    assert(x % 4 == year % 4);
}

/// Whether the three numbers are a date of the Gregorian calendar, in a year
/// from 0 on.
pub open spec fn is_calendar_date(year: int, month: int, day: int) -> bool {
    year >= 0 && 1 <= month <= 12 && 1 <= day <= days_in_month(year, month)
}

/// Whether the three numbers are a time of day.
pub open spec fn is_time_of_day(hour: int, minute: int, second: int) -> bool {
    0 <= hour < 24 && 0 <= minute < 60 && 0 <= second < 60
}

/// Whether the first date comes before the second in the calendar.
pub open spec fn date_before(y1: int, m1: int, d1: int, y2: int, m2: int, d2: int) -> bool {
    y1 < y2 || (y1 == y2 && (m1 < m2 || (m1 == m2 && d1 < d2)))
}

/// Within a year the formula counts days as the calendar does: a date's count
/// is that of the first of January, more by the days of the year before it.
pub proof fn day_count_within_year(year: int, month: int, day: int)
    requires
        year >= 0,
        1 <= month <= 12,
    ensures
        day_count(year, month, day) == day_count(year, 1, 1) + days_before_month(year, month)
            + day - 1,
{
    assert(month_days(13) == 428 && month_days(14) == 459);
    if month > 2 {
        year_terms_step(year);
        assert(month_days(month) == 63 + days_before_month(year, month) - (if is_leap_year(year) {
            1int
        } else {
            0int
        }));
    }
}

/// The first of January of a later year has a greater count than any date of
/// an earlier year.
pub proof fn day_count_across_years(y1: int, m1: int, d1: int, y2: int)
    requires
        is_calendar_date(y1, m1, d1),
        y1 < y2,
    ensures
        day_count(y1, m1, d1) < day_count(y2, 1, 1),
{
    day_count_within_year(y1, m1, d1);
    assert(days_before_month(y1, m1) + d1 <= days_before_month(y1, 12) + 31);
    year_terms_step(y1);
    assert(day_count(y1 + 1, 1, 1) == day_count(y1, 1, 1) + days_before_month(y1, 12) + 31);
    assert(day_count(y1 + 1, 1, 1) <= day_count(y2, 1, 1));
}

/// The count of days grows with the calendar: of two dates, the earlier has
/// the smaller count.
pub proof fn day_count_increases(y1: int, m1: int, d1: int, y2: int, m2: int, d2: int)
    requires
        is_calendar_date(y1, m1, d1),
        is_calendar_date(y2, m2, d2),
        date_before(y1, m1, d1, y2, m2, d2),
    ensures
        day_count(y1, m1, d1) < day_count(y2, m2, d2),
{
    day_count_within_year(y1, m1, d1);
    day_count_within_year(y2, m2, d2);
    if y1 < y2 {
        day_count_across_years(y1, m1, d1, y2);
    } else if m1 < m2 {
        assert(days_before_month(y1, m1) + days_in_month(y1, m1) <= days_before_month(y1, m2));
    }
}

/// The Julian Date grows with time: of two moments, each a calendar date and
/// a time of day, the earlier has the smaller Julian Date.
pub proof fn julian_date_increases(
    y1: int,
    m1: int,
    d1: int,
    h1: int,
    min1: int,
    s1: int,
    y2: int,
    m2: int,
    d2: int,
    h2: int,
    min2: int,
    s2: int,
)
    requires
        is_calendar_date(y1, m1, d1),
        is_calendar_date(y2, m2, d2),
        is_time_of_day(h1, min1, s1),
        is_time_of_day(h2, min2, s2),
        date_before(y1, m1, d1, y2, m2, d2) || (y1 == y2 && m1 == m2 && d1 == d2
            && seconds_of_day(h1, min1, s1) < seconds_of_day(h2, min2, s2)),
    ensures
        julian_seconds(y1, m1, d1, h1, min1, s1) < julian_seconds(y2, m2, d2, h2, min2, s2),
{
    if date_before(y1, m1, d1, y2, m2, d2) {
        day_count_increases(y1, m1, d1, y2, m2, d2);
    }
}

} // verus!
