//! Data-model defaults, settings round trips, and run-log building.

use auto_open::civil::CivilDate;
use auto_open::executor::{ExecutionResult, ExecutorError};
use auto_open::models::{
    find_task_index, settings_from_pairs, settings_to_pairs, IfRunningAction, MisfirePolicy,
    RunResult, RunStatus, RunWindowStyle, Settings, SkipReason, Task, TaskState, TargetType,
    Trigger, WaitPolicy,
};
use auto_open::runlog::{build_execution_log, build_skip_log, conclude_attempt, updated_task_state};

#[test]
fn task_defaults_match_the_documented_values() {
    let t = Task::default();
    assert_eq!(t.id.len(), 36);
    assert!(t.enabled);
    assert_eq!(t.name, "");
    assert!(matches!(t.target_type, TargetType::File));
    assert!(matches!(t.run_window_style, RunWindowStyle::Normal));
    assert!(matches!(t.wait_policy, WaitPolicy::DontWait));
    assert!(t.singleton);
    assert_eq!(t.max_retries, 0);
    assert_eq!(t.retry_backoff_seconds, 10);
    assert_eq!(t.success_exit_codes, Some(vec![0]));
    assert!(matches!(t.misfire_policy, MisfirePolicy::RunImmediately));
    assert!(matches!(t.if_running_action, IfRunningAction::Skip));
    assert!(t.triggers.is_empty());
    assert!(t.conditions.is_empty());
    // Two defaults get distinct identities.
    assert_ne!(t.id, Task::default().id);
}

#[test]
fn settings_defaults_match_the_documented_values() {
    let s = Settings::default();
    assert!(!s.start_with_windows);
    assert!(!s.start_minimized_to_tray);
    assert!(s.show_notifications);
    assert_eq!(s.timezone_id, "system");
    assert_eq!(s.log_retention_days, 30);
    assert_eq!(s.max_parallel_runs, 3);
}

fn pair(k: &str, v: &str) -> (String, String) {
    (k.to_string(), v.to_string())
}

#[test]
fn settings_fold_in_stored_pairs() {
    let s = settings_from_pairs(&vec![
        pair("start_with_windows", "true"),
        pair("timezone_id", "Asia/Ho_Chi_Minh"),
        pair("log_retention_days", "90"),
        pair("max_parallel_runs", "5"),
        pair("unknown_key", "ignored"),
    ]);
    assert!(s.start_with_windows);
    assert!(!s.start_minimized_to_tray);
    assert_eq!(s.timezone_id, "Asia/Ho_Chi_Minh");
    assert_eq!(s.log_retention_days, 90);
    assert_eq!(s.max_parallel_runs, 5);
}

#[test]
fn malformed_settings_values_fall_back() {
    let s = settings_from_pairs(&vec![
        pair("start_with_windows", "TRUE"),
        pair("log_retention_days", "soon"),
        pair("max_parallel_runs", "9000"),
    ]);
    // Only the exact text "true" reads as true.
    assert!(!s.start_with_windows);
    assert_eq!(s.log_retention_days, 30);
    assert_eq!(s.max_parallel_runs, 3);
}

#[test]
fn numeric_settings_accept_exact_bounds() {
    let s = settings_from_pairs(&vec![
        pair("log_retention_days", "4294967295"),
        pair("max_parallel_runs", "255"),
    ]);
    assert_eq!(s.log_retention_days, u32::MAX);
    assert_eq!(s.max_parallel_runs, 255);
    // One past the integer's top falls back.
    let s = settings_from_pairs(&vec![
        pair("log_retention_days", "4294967296"),
        pair("max_parallel_runs", "256"),
    ]);
    assert_eq!(s.log_retention_days, 30);
    assert_eq!(s.max_parallel_runs, 3);
    // Leading zeroes still read as digits.
    let s = settings_from_pairs(&vec![pair("log_retention_days", "007")]);
    assert_eq!(s.log_retention_days, 7);
    // A sign is not a digit.
    let s = settings_from_pairs(&vec![pair("log_retention_days", "+7")]);
    assert_eq!(s.log_retention_days, 30);
}

#[test]
fn settings_round_trip_through_pairs() {
    let before = Settings {
        start_with_windows: true,
        start_minimized_to_tray: false,
        show_notifications: true,
        timezone_id: "system".to_string(),
        log_retention_days: 14,
        max_parallel_runs: 7,
    };
    let pairs = settings_to_pairs(&before);
    assert_eq!(pairs.len(), 6);
    let back = settings_from_pairs(&pairs);
    assert_eq!(back.start_with_windows, before.start_with_windows);
    assert_eq!(back.start_minimized_to_tray, before.start_minimized_to_tray);
    assert_eq!(back.show_notifications, before.show_notifications);
    assert_eq!(back.timezone_id, before.timezone_id);
    assert_eq!(back.log_retention_days, before.log_retention_days);
    assert_eq!(back.max_parallel_runs, before.max_parallel_runs);
}

#[test]
fn fresh_task_state_is_blank() {
    let s = TaskState::new_for(&"t-9".to_string());
    assert_eq!(s.task_id, "t-9");
    assert!(s.last_run_date_local.is_none());
    assert!(s.last_run_at_utc.is_none());
    assert!(s.last_result.is_none());
    assert!(s.last_error.is_none());
    assert!(s.next_run_at_utc.is_none());
}

#[test]
fn triggers_describe_their_kind() {
    let t = Trigger::DailyAt { enabled: true, time_local: "12:00".to_string(), days_of_week: None };
    assert_eq!(t.describe(), "DailyAt");
    let t = Trigger::Interval { enabled: true, every_seconds: 60, jitter_seconds: None };
    assert_eq!(t.describe(), "Interval");
    let t = Trigger::OnLogin { enabled: true, delay_seconds: 0 };
    assert_eq!(t.describe(), "OnLogin");
    let t = Trigger::OncePerDay { enabled: true, earliest_time_local: None, days_of_week: None };
    assert_eq!(t.describe(), "OncePerDay");
}

#[test]
fn tasks_are_found_by_id() {
    let mut a = Task::default();
    a.name = "a".to_string();
    let mut b = Task::default();
    b.name = "b".to_string();
    let b_id = b.id.clone();
    let tasks = vec![a, b];
    let i = find_task_index(&tasks, &b_id).expect("the id is present");
    assert_eq!(tasks[i].name, "b");
    assert_eq!(find_task_index(&tasks, &"no-such-id".to_string()), None);
}

#[test]
fn a_skip_leaves_one_skipped_record() {
    let task = Task::default();
    let trigger = Trigger::OncePerDay { enabled: true, earliest_time_local: None, days_of_week: None };
    let log = build_skip_log(&task, &trigger, SkipReason::Singleton, 1_700_000_000);
    assert_eq!(log.run_id.len(), 36);
    assert_eq!(log.task_id, task.id);
    assert_eq!(log.trigger_type, "OncePerDay");
    assert!(matches!(log.status, RunStatus::Skipped));
    assert!(matches!(log.skip_reason, Some(SkipReason::Singleton)));
    assert_eq!(log.scheduled_time_utc, Some(1_700_000_000));
    assert_eq!(log.exit_code, None);
    assert_eq!(log.error_message, None);
}

#[test]
fn a_missing_path_leaves_exactly_one_failed_record() {
    let mut task = Task::default();
    task.target_type = TargetType::Exe;
    task.path_or_url = "C:\\gone\\app.exe".to_string();
    let trigger = Trigger::Interval { enabled: true, every_seconds: 60, jitter_seconds: None };

    // The executor refuses the attempt before anything is spawned.
    let outcome = auto_open::executor::prepare_execution(&task, false, false);
    let failure: Result<ExecutionResult, ExecutorError> = match outcome {
        Err(e) => Err(e),
        Ok(_) => panic!("a missing path must fail"),
    };

    // Concluding the attempt yields one log and one state update.
    let today = CivilDate { year: 2024, month: 6, day: 15 };
    let (log, state) = conclude_attempt(&task, &trigger, &failure, today, 1_700_000_000);
    assert!(matches!(log.status, RunStatus::Failed));
    assert_eq!(
        log.error_message.as_deref(),
        Some("Path not found: C:\\gone\\app.exe")
    );
    assert_eq!(log.task_id, task.id);
    assert!(matches!(state.last_result, Some(RunResult::Failed)));
    assert_eq!(state.last_run_date_local, Some(today));
    assert_eq!(state.last_run_at_utc, Some(1_700_000_000));
    assert_eq!(
        state.last_error.as_deref(),
        Some("Path not found: C:\\gone\\app.exe")
    );
}

#[test]
fn execution_logs_carry_the_outcome() {
    let task = Task::default();
    let trigger = Trigger::Interval { enabled: true, every_seconds: 60, jitter_seconds: None };
    let ok: Result<ExecutionResult, ExecutorError> = Ok(ExecutionResult {
        success: true,
        exit_code: Some(0),
        error_message: None,
        output: Some("done".to_string()),
    });
    let log = build_execution_log(&task, &trigger, &ok, 42);
    assert!(matches!(log.status, RunStatus::Success));
    assert_eq!(log.exit_code, Some(0));
    assert_eq!(log.output.as_deref(), Some("done"));
    assert_eq!(log.error_message, None);
    assert_eq!(log.started_at_utc, 42);
    assert_eq!(log.finished_at_utc, Some(42));

    let failed: Result<ExecutionResult, ExecutorError> = Ok(ExecutionResult {
        success: false,
        exit_code: Some(3),
        error_message: Some("Exit code: 3".to_string()),
        output: None,
    });
    let log = build_execution_log(&task, &trigger, &failed, 42);
    assert!(matches!(log.status, RunStatus::Failed));
    assert_eq!(log.error_message.as_deref(), Some("Exit code: 3"));
}

#[test]
fn state_updates_record_the_attempt() {
    let id = "task-7".to_string();
    let ok: Result<ExecutionResult, ExecutorError> = Ok(ExecutionResult {
        success: true,
        exit_code: Some(0),
        error_message: None,
        output: None,
    });
    let today = CivilDate { year: 2024, month: 1, day: 10 };
    let s = updated_task_state(&id, &ok, today, 99);
    assert_eq!(s.task_id, "task-7");
    assert!(matches!(s.last_result, Some(RunResult::Success)));
    assert!(s.last_error.is_none());
    assert!(s.next_run_at_utc.is_none());

    let err: Result<ExecutionResult, ExecutorError> = Err(ExecutorError::Timeout(30));
    let s = updated_task_state(&id, &err, today, 99);
    assert!(matches!(s.last_result, Some(RunResult::Failed)));
    assert_eq!(
        s.last_error.as_deref(),
        Some("Process timed out after 30 seconds")
    );
}
