use star_positions::julian::{date_to_jd, JulianDate};

/// The Julian Date as a float, summed in the order of the formula.
fn jd(date: &JulianDate) -> f64 {
    let d = date.day as f64 + (date.day_seconds as f64 / (24. * 60. * 60.));
    date.year_days as f64 + date.month_days as f64 + d + date.century_correction as f64 - 1524.5
}

/// 86400 times the Julian Date, exactly.
fn jd_seconds(date: &JulianDate) -> i128 {
    date.total_seconds()
}

#[test]
fn test_date_to_jd() {
    assert_eq!(jd(&date_to_jd(2020, 9, 17, 8, 14, 35)), 2459109.8434606483);
    assert_eq!(jd(&date_to_jd(2000, 1, 1, 12, 0, 0)), 2451545.0);
    assert_eq!(jd(&date_to_jd(1899, 12, 31, 19, 31, 28)), 2415020.3135185186);
    assert_eq!(jd(&date_to_jd(2020, 9, 17, 19, 52, 52)), 2459110.3283796296);
    assert_eq!(jd(&date_to_jd(2015, 9, 28, 18, 51, 00)), 2457294.285416667);
    assert_eq!(jd(&date_to_jd(2017, 2, 6, 12, 11, 00)), 2457791.007638889);
    assert_eq!(jd(&date_to_jd(2020, 08, 17, 20, 32, 48)), 2459079.356111111);
}

#[test]
fn j2000_terms() {
    let date = date_to_jd(2000, 1, 1, 12, 0, 0);
    // January counts as month 13 of 1999.
    assert_eq!(date.year_days, 2452653);
    assert_eq!(date.month_days, 428);
    assert_eq!(date.century_correction, -13);
    assert_eq!(date.day, 1);
    assert_eq!(date.day_seconds, 43200);
    assert_eq!(date.whole_days(), 2452653 + 428 - 13 + 1);
    assert_eq!(jd_seconds(&date), 2451545 * 86400);
}

#[test]
fn march_is_not_shifted() {
    let date = date_to_jd(2020, 9, 17, 8, 14, 35);
    assert_eq!(date.year_days, 2460324);
    assert_eq!(date.month_days, 306);
    assert_eq!(date.century_correction, -13);
    assert_eq!(date.day_seconds, 8 * 3600 + 14 * 60 + 35);
}

#[test]
fn year_zero_in_january() {
    // The formula counts January of year 0 in the year before it.
    let date = date_to_jd(0, 1, 1, 0, 0, 0);
    assert_eq!(date.year_days, 1722153);
    assert_eq!(date.month_days, 428);
    assert_eq!(date.century_correction, 2);
    let march = date_to_jd(0, 3, 1, 0, 0, 0);
    assert_eq!(march.century_correction, 2);
    assert_eq!(jd_seconds(&march) - jd_seconds(&date), 60 * 86400);
}

#[test]
fn fields_out_of_range_are_taken_as_numbers() {
    let date = date_to_jd(2021, 14, 40, 30, 70, 80);
    assert_eq!(date.year_days, 2460689);
    assert_eq!(date.month_days, 459);
    assert_eq!(date.day, 40);
    assert_eq!(date.day_seconds, 30 * 3600 + 70 * 60 + 80);
    let far = date_to_jd(u32::MAX, u32::MAX, u32::MAX, u32::MAX, u32::MAX, u32::MAX);
    assert_eq!(far.day, u32::MAX);
    assert_eq!(far.day_seconds, 4294967295u64 * 3661);
    assert_eq!(far.year_days, (1461 * (4294967295u64 + 4716)) / 4);
    assert_eq!(far.month_days, (306001 * (4294967295u64 + 1)) / 10000);
    assert_eq!(far.century_correction, 2 - 42949672 + 10737418);
    assert_eq!(
        far.total_seconds(),
        86400 * (1568738527017 + 131426428754 - 32212252 + 4294967295) - 131716800
            + 4294967295 * 3661
    );
}

#[test]
fn julian_date_grows_with_time() {
    let moments = [
        (1999, 12, 31, 23, 59, 59),
        (2000, 1, 1, 0, 0, 0),
        (2000, 1, 1, 0, 0, 1),
        (2000, 2, 28, 12, 0, 0),
        (2000, 2, 29, 0, 0, 0),
        (2000, 3, 1, 0, 0, 0),
        (2000, 12, 31, 23, 59, 59),
        (2001, 1, 1, 0, 0, 0),
        (2100, 2, 28, 23, 59, 59),
        (2100, 3, 1, 0, 0, 0),
    ];
    for pair in moments.windows(2) {
        let (a, b) = (pair[0], pair[1]);
        let first = date_to_jd(a.0, a.1, a.2, a.3, a.4, a.5);
        let second = date_to_jd(b.0, b.1, b.2, b.3, b.4, b.5);
        assert!(jd_seconds(&first) < jd_seconds(&second));
        assert!(jd(&first) < jd(&second));
    }
}

#[test]
fn days_follow_each_other_over_month_ends() {
    let pairs = [
        ((2000, 2, 29), (2000, 3, 1)),
        ((1900, 2, 28), (1900, 3, 1)),
        ((2021, 12, 31), (2022, 1, 1)),
        ((2021, 1, 31), (2021, 2, 1)),
        ((2021, 4, 30), (2021, 5, 1)),
    ];
    for (a, b) in pairs {
        let first = date_to_jd(a.0, a.1, a.2, 0, 0, 0);
        let second = date_to_jd(b.0, b.1, b.2, 0, 0, 0);
        assert_eq!(jd_seconds(&second) - jd_seconds(&first), 86400);
    }
}
