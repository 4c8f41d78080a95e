//! Local mean sidereal time, and its clock reading.
//!
//! With `t` the Julian centuries from the epoch J2000.0 to midnight of the
//! date, `u` the seconds from midnight to the time of day, and the longitude
//! `l` in degrees, east counted positive, the local mean sidereal time in
//! seconds is
//!
//! `24110.54841 + 8640184.812866 t + 0.093104 t^2 - 0.0000062 t^3
//!  + 1.00273790935 u + 240 l`.
//!
//! Midnight of a date lies a whole number `k` of half days from the epoch, so
//! `t` is `k / 73050`, and a longitude of `a` seconds of arc is `a / 15`
//! seconds of time. Times `10^11 * 73050^3` every term is an integer: the
//! time is computed as that integer, exactly, and its whole seconds are the
//! floor of the quotient.
//!
//! Such a time may be many days long or negative. Its clock reading is the
//! count of whole seconds split into hours, minutes and seconds by floors,
//! the hours then reduced to one day.

use crate::julian::{date_to_jd, day_count, seconds_of_day};
use vstd::prelude::*;

verus! {

/// `10^11 * 73050^3`: what the sidereal time in seconds is multiplied by.
pub const SCALE: i128 = 38_981_689_762_500_000_000_000_000;

/// `24110.54841`, scaled.
pub const CONSTANT_TERM: i128 = 939_869_918_122_357_652_625_000_000_000;

/// `8640184.812866 / 73050`, scaled.
pub const LINEAR_TERM: i128 = 4_610_663_981_735_886_796_500_000_000;

/// `0.093104 / 73050^2`, scaled.
pub const SQUARE_TERM: i128 = 680_124_720_000_000;

/// `0.0000062 / 73050^3`, scaled.
pub const CUBE_TERM: i128 = 620_000;

/// `1.00273790935`, scaled: sidereal seconds in a second of the day.
pub const RATE_TERM: i128 = 39_088_418_095_379_548_029_375_000;

/// `1 / 15`, scaled: seconds of time in a second of arc of longitude.
pub const ARC_TERM: i128 = 2_598_779_317_500_000_000_000_000;

/// Greatest value of each field of the date and time for which
/// [`date_to_sideral`] computes in 128 bits.
pub const FIELD_LIMIT: u32 = 1_000_000;

/// Greatest longitude, in seconds of arc and to either side, for which
/// [`date_to_sideral`] computes in 128 bits.
pub const LONGITUDE_LIMIT: i64 = 1_000_000_000;

/// Half days from the epoch J2000.0 to midnight of the date with the given
/// count of days.
pub open spec fn half_days_from_epoch(day_count: int) -> int {
    2 * day_count - 4906139
}

/// The local mean sidereal time, in seconds times [`SCALE`], of the date with
/// the given count of days, `elapsed` seconds after midnight, at `longitude`
/// seconds of arc east.
pub open spec fn scaled_sidereal_time(day_count: int, elapsed: int, longitude: int) -> int {
    let k = half_days_from_epoch(day_count);
    CONSTANT_TERM + LINEAR_TERM * k + SQUARE_TERM * (k * k) - CUBE_TERM * (k * k * k) + RATE_TERM
        * elapsed + ARC_TERM * longitude
}

/// The whole seconds of the local mean sidereal time: its floor.
pub open spec fn sidereal_seconds(day_count: int, elapsed: int, longitude: int) -> int {
    scaled_sidereal_time(day_count, elapsed, longitude) / (SCALE as int)
}

/// Hour of the clock at `seconds`: whole hours, reduced modulo 24.
pub open spec fn clock_hour(seconds: int) -> int {
    (seconds / 3600) % 24
}

/// Minute of the clock at `seconds`: whole minutes left when the whole hours
/// are taken out.
pub open spec fn clock_minute(seconds: int) -> int {
    (seconds - 3600 * (seconds / 3600)) / 60
}

/// Second of the clock at `seconds`: what is left when the whole hours and
/// the whole minutes are taken out.
pub open spec fn clock_second(seconds: int) -> int {
    seconds - 3600 * (seconds / 3600) - 60 * clock_minute(seconds)
}

/// Splits a sidereal time of `seconds` whole seconds into the hour, minute
/// and second of its clock. The hours are found by a floor and only then reduced modulo 24, so
/// a time before zero reads as the clock of the day it falls in.
pub fn sidereal_clock(seconds: i64) -> (r: (i32, i32, i32))
    ensures
        r.0 == clock_hour(seconds as int),
        r.1 == clock_minute(seconds as int),
        r.2 == clock_second(seconds as int),
        0 <= r.0 < 24,
        0 <= r.1 < 60,
        0 <= r.2 < 60,
        seconds == 3600 * (seconds as int / 3600) + 60 * r.1 + r.2,
{
    // Floors of a negative count, found on the non-negative side.
    let (hours, rest): (i64, i64) = if seconds >= 0 {
        (seconds / 3600, seconds % 3600)
    } else {
        let back: i64 = -(seconds + 1);
        (-(back / 3600) - 1, 3599 - back % 3600)
    };
    let hour: i64 = if hours >= 0 {
        hours % 24
    } else {
        let back: i64 = -(hours + 1);
        23 - back % 24
    };
    let minute: i64 = rest / 60;
    let second: i64 = rest % 60;
    (hour as i32, minute as i32, second as i32)
}

/// The floor of a scaled time in seconds.
fn whole_seconds(scaled: i128) -> (r: i128)
    ensures
        r == scaled as int / (SCALE as int),
{
    if scaled >= 0 {
        scaled / SCALE
    } else {
        let back: i128 = -(scaled + 1);
        -(back / SCALE) - 1
    }
}

/// The local mean sidereal clock on `day`.`month`.`year` at
/// `hour`:`minute`:`second`, at `longitude` seconds of arc east of Greenwich:
/// its hour, minute and second.
///
/// The date enters by its Julian Date at midnight, the time of day by its
/// seconds. No field is held to a calendar's range; the limits are those of
/// the 128 bits in which the time is computed.
pub fn date_to_sideral(
    year: u32,
    month: u32,
    day: u32,
    hour: u32,
    minute: u32,
    second: u32,
    longitude: i64,
) -> (r: (i32, i32, i32))
    requires
        year <= FIELD_LIMIT,
        month <= FIELD_LIMIT,
        day <= FIELD_LIMIT,
        hour <= FIELD_LIMIT,
        minute <= FIELD_LIMIT,
        second <= FIELD_LIMIT,
        -LONGITUDE_LIMIT <= longitude <= LONGITUDE_LIMIT,
    ensures
        r.0 == clock_hour(
            sidereal_seconds(
                day_count(year as int, month as int, day as int),
                seconds_of_day(hour as int, minute as int, second as int),
                longitude as int,
            ),
        ),
        r.1 == clock_minute(
            sidereal_seconds(
                day_count(year as int, month as int, day as int),
                seconds_of_day(hour as int, minute as int, second as int),
                longitude as int,
            ),
        ),
        r.2 == clock_second(
            sidereal_seconds(
                day_count(year as int, month as int, day as int),
                seconds_of_day(hour as int, minute as int, second as int),
                longitude as int,
            ),
        ),
        0 <= r.0 < 24,
        0 <= r.1 < 60,
        0 <= r.2 < 60,
{
    let date = date_to_jd(year, month, day, hour, minute, second);
    let days: i128 = date.whole_days();
    let k: i128 = 2 * days - 4906139;
    assert(-2_000_000 <= k <= 1_000_000_000);
    assert(0 <= k * k <= 1_000_000_000_000_000_000) by (nonlinear_arith)
        requires
            -2_000_000 <= k <= 1_000_000_000,
    ;
    let square: i128 = k * k;
    assert(-2_000_000_000_000_000_000_000_000 <= square * k
        <= 1_000_000_000_000_000_000_000_000_000) by (nonlinear_arith)
        requires
            -2_000_000 <= k <= 1_000_000_000,
            0 <= square <= 1_000_000_000_000_000_000,
    ;
    let cube: i128 = square * k;
    assert(cube == k * k * k);
    let elapsed: i128 = date.day_seconds as i128;
    let arc: i128 = longitude as i128;
    let scaled: i128 = CONSTANT_TERM + LINEAR_TERM * k + SQUARE_TERM * square - CUBE_TERM * cube
        + RATE_TERM * elapsed + ARC_TERM * arc;
    let seconds: i128 = whole_seconds(scaled);
    sidereal_clock(seconds as i64)
}

/// Fifteen degrees of longitude to the east are an hour of sidereal time.
pub proof fn fifteen_degrees_are_an_hour(day_count: int, elapsed: int, longitude: int)
    ensures
        sidereal_seconds(day_count, elapsed, longitude + 15 * 3600) == sidereal_seconds(
            day_count,
            elapsed,
            longitude,
        ) + 3600,
{
}

/// The hour of a sidereal clock lies in one day, whatever the time: before
/// zero, or many days long.
pub proof fn hour_within_day(seconds: int)
    ensures
        0 <= clock_hour(seconds) < 24,
{
}

/// A whole day more or less leaves the clock as it is.
pub proof fn clock_repeats_daily(seconds: int)
    ensures
        clock_hour(seconds + 86400) == clock_hour(seconds),
        clock_minute(seconds + 86400) == clock_minute(seconds),
        clock_second(seconds + 86400) == clock_second(seconds),
{
}

} // verus!
