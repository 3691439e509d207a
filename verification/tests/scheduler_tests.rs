//! Trigger evaluation and misfire policy.

use auto_open::civil::{days_from_civil, CivilDate, LocalMoment};
use auto_open::models::{MisfirePolicy, TaskState, Trigger};
use auto_open::scheduler::{check_misfire, compute_next_run, compute_next_run_with, rand_jitter};

fn blank_state() -> TaskState {
    TaskState::new_for(&String::from("task-1"))
}

/// A local moment whose instant equals its naive wall-clock seconds
/// (as in a zone at UTC offset zero).
fn moment(year: i32, month: u8, day: u8, hour: u8, minute: u8, second: u8) -> LocalMoment {
    let date = CivilDate { year, month, day };
    let utc_seconds = days_from_civil(&date) * 86400
        + hour as i64 * 3600
        + minute as i64 * 60
        + second as i64;
    LocalMoment { date, hour, minute, second, utc_seconds }
}

/// The instant the system zone assigns to a local wall-clock reading.
fn local_instant(year: i32, month: u8, day: u8, hour: u8, minute: u8) -> i64 {
    chrono::TimeZone::from_local_datetime(
        &chrono::Local,
        &chrono::NaiveDate::from_ymd_opt(year, month as u32, day as u32)
            .unwrap()
            .and_hms_opt(hour as u32, minute as u32, 0)
            .unwrap(),
    )
    .latest()
    .unwrap()
    .timestamp()
}

/// The current moment as the library's model of local time, read
/// through chrono.
fn now_moment() -> LocalMoment {
    auto_open::civil::current_moment().expect("machine clock in range")
}

#[test]
fn on_login_never_polls() {
    let t = Trigger::OnLogin { enabled: true, delay_seconds: 5 };
    let now = moment(2024, 1, 10, 12, 0, 0);
    assert_eq!(compute_next_run(&t, &now, &blank_state()), None);
}

#[test]
fn interval_is_exactly_one_period_after_last_run() {
    // A 60-second interval, no jitter, last run at T, evaluated at
    // T+30: due exactly at T+60.
    let now = moment(2024, 1, 10, 12, 0, 30);
    let t_last = now.utc_seconds - 30;
    let mut state = blank_state();
    state.last_run_at_utc = Some(t_last);
    let t = Trigger::Interval { enabled: true, every_seconds: 60, jitter_seconds: None };
    assert_eq!(compute_next_run_with(&t, &now, &state, 0), Some(t_last + 60));
    assert_eq!(compute_next_run(&t, &now, &state), Some(t_last + 60));
}

#[test]
fn interval_in_the_past_collapses_to_now() {
    let now = moment(2024, 1, 10, 12, 10, 0);
    let mut state = blank_state();
    state.last_run_at_utc = Some(now.utc_seconds - 600);
    let t = Trigger::Interval { enabled: true, every_seconds: 60, jitter_seconds: None };
    assert_eq!(compute_next_run_with(&t, &now, &state, 0), Some(now.utc_seconds));
}

#[test]
fn interval_without_last_run_counts_from_now() {
    let now = moment(2024, 1, 10, 12, 0, 0);
    let t = Trigger::Interval { enabled: true, every_seconds: 300, jitter_seconds: None };
    assert_eq!(
        compute_next_run_with(&t, &now, &blank_state(), 0),
        Some(now.utc_seconds + 300)
    );
}

#[test]
fn interval_below_the_floor_never_fires() {
    let now = moment(2024, 1, 10, 12, 0, 0);
    let t = Trigger::Interval { enabled: true, every_seconds: 59, jitter_seconds: None };
    assert_eq!(compute_next_run_with(&t, &now, &blank_state(), 0), None);
    let t = Trigger::Interval { enabled: false, every_seconds: 600, jitter_seconds: None };
    assert_eq!(compute_next_run_with(&t, &now, &blank_state(), 0), None);
}

#[test]
fn interval_jitter_shifts_the_instant() {
    let now = moment(2024, 1, 10, 12, 0, 0);
    let t = Trigger::Interval { enabled: true, every_seconds: 600, jitter_seconds: Some(30) };
    assert_eq!(
        compute_next_run_with(&t, &now, &blank_state(), 7),
        Some(now.utc_seconds + 607)
    );
}

#[test]
fn drawn_jitter_stays_below_its_maximum() {
    for _ in 0..50 {
        assert!(rand_jitter(10) < 10);
        assert_eq!(rand_jitter(1), 0);
    }
}

#[test]
fn once_per_day_does_not_fire_twice_on_one_date() {
    let now = moment(2024, 1, 10, 12, 0, 0);
    let t = Trigger::OncePerDay { enabled: true, earliest_time_local: None, days_of_week: None };
    let mut state = blank_state();
    state.last_run_date_local = Some(now.date);
    assert_eq!(compute_next_run_with(&t, &now, &state, 0), None);
    // A different recorded date fires now.
    state.last_run_date_local = Some(CivilDate { year: 2024, month: 1, day: 9 });
    assert_eq!(compute_next_run_with(&t, &now, &state, 0), Some(now.utc_seconds));
}

#[test]
fn once_per_day_honors_the_day_filter_case_insensitively() {
    // 2024-01-08 was a Monday.
    let now = moment(2024, 1, 8, 12, 0, 0);
    let on_monday = Trigger::OncePerDay {
        enabled: true,
        earliest_time_local: None,
        days_of_week: Some(vec!["MON".to_string(), "tue".to_string()]),
    };
    assert_eq!(
        compute_next_run_with(&on_monday, &now, &blank_state(), 0),
        Some(now.utc_seconds)
    );
    let weekend_only = Trigger::OncePerDay {
        enabled: true,
        earliest_time_local: None,
        days_of_week: Some(vec!["Sat".to_string(), "Sun".to_string()]),
    };
    assert_eq!(compute_next_run_with(&weekend_only, &now, &blank_state(), 0), None);
}

#[test]
fn once_per_day_waits_for_the_earliest_time() {
    let now = moment(2024, 6, 15, 8, 0, 0);
    let t = Trigger::OncePerDay {
        enabled: true,
        earliest_time_local: Some("09:30".to_string()),
        days_of_week: None,
    };
    assert_eq!(
        compute_next_run_with(&t, &now, &blank_state(), 0),
        Some(local_instant(2024, 6, 15, 9, 30))
    );
    // Past the bound it fires now.
    let later = moment(2024, 6, 15, 10, 0, 0);
    assert_eq!(
        compute_next_run_with(&t, &later, &blank_state(), 0),
        Some(later.utc_seconds)
    );
}

#[test]
fn once_per_day_with_malformed_earliest_fires_now() {
    let now = moment(2024, 6, 15, 8, 0, 0);
    let t = Trigger::OncePerDay {
        enabled: true,
        earliest_time_local: Some("not a time".to_string()),
        days_of_week: None,
    };
    assert_eq!(compute_next_run_with(&t, &now, &blank_state(), 0), Some(now.utc_seconds));
}

#[test]
fn daily_at_picks_today_before_the_time_and_tomorrow_after() {
    let t = Trigger::DailyAt {
        enabled: true,
        time_local: "14:30".to_string(),
        days_of_week: None,
    };
    let morning = now_like(2024, 6, 15, 12, 0);
    assert_eq!(
        compute_next_run_with(&t, &morning, &blank_state(), 0),
        Some(local_instant(2024, 6, 15, 14, 30))
    );
    let evening = now_like(2024, 6, 15, 15, 0);
    assert_eq!(
        compute_next_run_with(&t, &evening, &blank_state(), 0),
        Some(local_instant(2024, 6, 16, 14, 30))
    );
}

/// A moment at the given local wall clock whose instant is the system
/// zone's reading of it, so DailyAt comparisons agree with chrono.
fn now_like(year: i32, month: u8, day: u8, hour: u8, minute: u8) -> LocalMoment {
    LocalMoment {
        date: CivilDate { year, month, day },
        hour,
        minute,
        second: 0,
        utc_seconds: local_instant(year, month, day, hour, minute),
    }
}

#[test]
fn daily_at_lands_within_the_week_and_after_now() {
    let t = Trigger::DailyAt {
        enabled: true,
        time_local: "03:00".to_string(),
        days_of_week: Some(vec!["Wed".to_string()]),
    };
    let now = now_like(2024, 6, 15, 12, 0); // a Saturday
    let due = compute_next_run_with(&t, &now, &blank_state(), 0).unwrap();
    assert!(due > now.utc_seconds);
    assert!(due <= now.utc_seconds + 7 * 86400);
    // 2024-06-19 is the Wednesday after.
    assert_eq!(due, local_instant(2024, 6, 19, 3, 0));
}

#[test]
fn daily_at_with_malformed_time_never_fires() {
    let now = now_like(2024, 6, 15, 12, 0);
    for bad in ["25:00", "banana", "", "12:61"] {
        let t = Trigger::DailyAt {
            enabled: true,
            time_local: bad.to_string(),
            days_of_week: None,
        };
        assert_eq!(compute_next_run_with(&t, &now, &blank_state(), 0), None);
    }
    let disabled = Trigger::DailyAt {
        enabled: false,
        time_local: "12:00".to_string(),
        days_of_week: None,
    };
    assert_eq!(compute_next_run_with(&disabled, &now, &blank_state(), 0), None);
}

#[test]
fn drawn_interval_jitter_stays_within_its_configured_maximum() {
    let now = moment(2024, 1, 10, 12, 0, 0);
    let t = Trigger::Interval { enabled: true, every_seconds: 600, jitter_seconds: Some(20) };
    for _ in 0..20 {
        let due = compute_next_run(&t, &now, &blank_state()).unwrap();
        assert!(due >= now.utc_seconds + 600);
        assert!(due < now.utc_seconds + 620);
    }
    // A zero maximum never perturbs.
    let t0 = Trigger::Interval { enabled: true, every_seconds: 600, jitter_seconds: Some(0) };
    assert_eq!(compute_next_run(&t0, &now, &blank_state()), Some(now.utc_seconds + 600));
}

#[test]
fn misfire_skips_only_strictly_over_the_threshold() {
    let policy = MisfirePolicy::SkipIfLateOverSeconds { seconds: 60 };
    let t = 1_700_000_000;
    assert!(!check_misfire(&policy, t, t + 60));
    assert!(check_misfire(&policy, t, t + 61));
    assert!(!check_misfire(&policy, t, t));
    assert!(!check_misfire(&MisfirePolicy::RunImmediately, t, t + 1_000_000));
}
