//! Calendar arithmetic and time-of-day parsing, cross-checked against
//! chrono.

use auto_open::civil::{
    current_moment, days_from_civil, days_in_month, is_leap_year, next_day, parse_hhmm,
    resolve_local, utc_now_seconds, CivilDate,
};

fn date(year: i32, month: u8, day: u8) -> CivilDate {
    CivilDate { year, month, day }
}

#[test]
fn leap_years() {
    assert!(is_leap_year(2024));
    assert!(!is_leap_year(2023));
    assert!(!is_leap_year(1900));
    assert!(is_leap_year(2000));
}

#[test]
fn month_lengths() {
    assert_eq!(days_in_month(2024, 2), 29);
    assert_eq!(days_in_month(2023, 2), 28);
    assert_eq!(days_in_month(2024, 1), 31);
    assert_eq!(days_in_month(2024, 4), 30);
    assert_eq!(days_in_month(2024, 12), 31);
}

#[test]
fn next_day_steps_within_month() {
    assert_eq!(next_day(&date(2024, 3, 14)), date(2024, 3, 15));
}

#[test]
fn next_day_steps_over_month_and_year() {
    assert_eq!(next_day(&date(2024, 2, 29)), date(2024, 3, 1));
    assert_eq!(next_day(&date(2023, 2, 28)), date(2023, 3, 1));
    assert_eq!(next_day(&date(2024, 12, 31)), date(2025, 1, 1));
    assert_eq!(next_day(&date(2024, 4, 30)), date(2024, 5, 1));
}

#[test]
fn day_count_of_epoch_is_zero() {
    assert_eq!(days_from_civil(&date(1970, 1, 1)), 0);
    assert_eq!(days_from_civil(&date(1970, 1, 2)), 1);
    assert_eq!(days_from_civil(&date(1969, 12, 31)), -1);
}

#[test]
fn day_count_matches_chrono() {
    let samples = [
        (1970, 1, 1),
        (1999, 12, 31),
        (2000, 2, 29),
        (2024, 1, 10),
        (2024, 3, 1),
        (2038, 1, 19),
        (9999, 12, 31),
    ];
    for &(y, m, d) in samples.iter() {
        let ours = days_from_civil(&date(y, m as u8, d as u8));
        let chron = chrono::NaiveDate::from_ymd_opt(y, m, d)
            .unwrap()
            .signed_duration_since(chrono::NaiveDate::from_ymd_opt(1970, 1, 1).unwrap())
            .num_days();
        assert_eq!(ours, chron, "day count differs for {}-{}-{}", y, m, d);
    }
}

#[test]
fn weekday_matches_chrono() {
    let mut d = chrono::NaiveDate::from_ymd_opt(2023, 12, 25).unwrap();
    for _ in 0..500 {
        let ours = auto_open::civil::weekday_index(&date(
            chrono::Datelike::year(&d),
            chrono::Datelike::month(&d) as u8,
            chrono::Datelike::day(&d) as u8,
        ));
        let theirs = chrono::Datelike::weekday(&d).num_days_from_monday() as u8;
        assert_eq!(ours, theirs, "weekday differs on {}", d);
        d = d.succ_opt().unwrap();
    }
}

#[test]
fn parses_well_formed_times() {
    assert_eq!(parse_hhmm("09:30"), Some((9, 30)));
    assert_eq!(parse_hhmm("9:30"), Some((9, 30)));
    assert_eq!(parse_hhmm("23:5"), Some((23, 5)));
    assert_eq!(parse_hhmm("0:0"), Some((0, 0)));
    assert_eq!(parse_hhmm("00:00"), Some((0, 0)));
    assert_eq!(parse_hhmm("23:59"), Some((23, 59)));
}

#[test]
fn rejects_malformed_times() {
    assert_eq!(parse_hhmm(""), None);
    assert_eq!(parse_hhmm("24:00"), None);
    assert_eq!(parse_hhmm("12:60"), None);
    assert_eq!(parse_hhmm("banana"), None);
    assert_eq!(parse_hhmm("12"), None);
    assert_eq!(parse_hhmm("12:345"), None);
    assert_eq!(parse_hhmm(":30"), None);
    assert_eq!(parse_hhmm("12:"), None);
    assert_eq!(parse_hhmm("1 :30"), None);
    assert_eq!(parse_hhmm(" 9:30"), None);
}

#[test]
fn resolution_matches_chrono() {
    let expected = chrono::TimeZone::from_local_datetime(
        &chrono::Local,
        &chrono::NaiveDate::from_ymd_opt(2024, 6, 15)
            .unwrap()
            .and_hms_opt(14, 30, 0)
            .unwrap(),
    )
    .latest()
    .map(|t| t.timestamp());
    assert_eq!(resolve_local(2024, 6, 15, 14, 30, 0), expected);
}

#[test]
fn resolution_rejects_fields_naming_no_date() {
    assert_eq!(resolve_local(2023, 2, 29, 12, 0, 0), None);
    assert_eq!(resolve_local(2024, 13, 1, 12, 0, 0), None);
    assert_eq!(resolve_local(2024, 6, 15, 24, 0, 0), None);
}

#[test]
fn clock_reads_are_consistent() {
    let m = current_moment().expect("the machine clock should be in range");
    let civil = days_from_civil(&m.date) * 86400
        + m.hour as i64 * 3600
        + m.minute as i64 * 60
        + m.second as i64;
    assert!((m.utc_seconds - civil).abs() < 86400);
    let utc = utc_now_seconds();
    assert!((utc - m.utc_seconds).abs() < 5);
}
