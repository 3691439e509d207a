//! The data model: tasks, triggers, conditions, policies, run logs and
//! settings.
//!
//! Instants are whole seconds since the Unix epoch; local calendar
//! dates use [`crate::civil::CivilDate`]. The persistence layer and the
//! interface bridge convert between these plain values and whatever
//! they store or display.

use vstd::prelude::*;

use crate::civil::CivilDate;
use crate::text::{spec_parse_u32, str_eq, u32_string, parse_u32};

verus! {

/// What a task opens or runs.
#[derive(Clone, Copy, Debug, PartialEq, Eq, Structural)]
pub enum TargetType {
    Exe,
    File,
    Folder,
    Shortcut,
    Url,
}

/// Window visibility asked of a launched executable.
#[derive(Clone, Copy, Debug, PartialEq, Eq, Structural)]
pub enum RunWindowStyle {
    Normal,
    Minimized,
    Hidden,
}

impl Default for RunWindowStyle {
    fn default() -> (r: Self)
        ensures
            r is Normal,
    {
        RunWindowStyle::Normal
    }
}

/// Whether execution waits for the target to exit.
#[derive(Clone, Copy, Debug)]
pub enum WaitPolicy {
    DontWait,
    WaitForExit { timeout_seconds: Option<u32> },
}

impl Default for WaitPolicy {
    fn default() -> (r: Self)
        ensures
            r is DontWait,
    {
        WaitPolicy::DontWait
    }
}

/// When a task becomes due.
#[derive(Clone, Debug)]
pub enum Trigger {
    OnLogin { enabled: bool, delay_seconds: u32 },
    OncePerDay {
        enabled: bool,
        earliest_time_local: Option<String>,
        days_of_week: Option<Vec<String>>,
    },
    DailyAt { enabled: bool, time_local: String, days_of_week: Option<Vec<String>> },
    Interval { enabled: bool, every_seconds: u32, jitter_seconds: Option<u32> },
}

/// The kind of a trigger, as a short name for run logs.
pub open spec fn spec_trigger_kind(t: Trigger) -> Seq<char> {
    match t {
        Trigger::OnLogin { .. } => "OnLogin"@,
        Trigger::OncePerDay { .. } => "OncePerDay"@,
        Trigger::DailyAt { .. } => "DailyAt"@,
        Trigger::Interval { .. } => "Interval"@,
    }
}

impl Trigger {
    /// A short name of the trigger's kind, used as the trigger
    /// description of a run log.
    pub fn describe(&self) -> (s: String)
        ensures
            s@ == spec_trigger_kind(*self),
    {
        match self {
            Trigger::OnLogin { .. } => String::from_str("OnLogin"),
            Trigger::OncePerDay { .. } => String::from_str("OncePerDay"),
            Trigger::DailyAt { .. } => String::from_str("DailyAt"),
            Trigger::Interval { .. } => String::from_str("Interval"),
        }
    }
}

/// A precondition checked right before dispatch.
#[derive(Clone, Debug)]
pub enum Condition {
    NetworkAvailable,
    OnAcPower,
    ProcessNotRunning { process_name: String },
    OnlyIfPathExists,
    IdleForSeconds { seconds: u32 },
}

/// What to do with a trigger that fires later than scheduled.
#[derive(Clone, Copy, Debug, PartialEq, Eq, Structural)]
pub enum MisfirePolicy {
    RunImmediately,
    SkipIfLateOverSeconds { seconds: u32 },
}

impl Default for MisfirePolicy {
    fn default() -> (r: Self)
        ensures
            r is RunImmediately,
    {
        MisfirePolicy::RunImmediately
    }
}

/// What to do when the target process is already running.
#[derive(Clone, Copy, Debug, PartialEq, Eq, Structural)]
pub enum IfRunningAction {
    /// Skip this execution.
    Skip,
    /// Close the existing instance and start a new one.
    Restart,
    /// Run another instance anyway.
    RunAnyway,
}

impl Default for IfRunningAction {
    fn default() -> (r: Self)
        ensures
            r is Skip,
    {
        IfRunningAction::Skip
    }
}

/// Relies on `uuid::Uuid::new_v4` and its `Display` through
/// `to_string`: a fresh random identifier in the hyphenated format,
/// which is exactly 36 characters.
#[verifier::external_body]
pub fn fresh_uuid() -> (s: String)
    ensures
        s@.len() == 36,
{
    uuid::Uuid::new_v4().to_string()
}

/// A scheduled task: identity, target, execution options, triggers and
/// conditions.
#[derive(Clone, Debug)]
pub struct Task {
    pub id: String,
    pub enabled: bool,
    pub name: String,
    pub description: Option<String>,
    pub target_type: TargetType,
    pub path_or_url: String,
    pub args: Option<String>,
    pub working_dir: Option<String>,
    pub start_delay_seconds: u32,
    pub run_window_style: RunWindowStyle,
    pub wait_policy: WaitPolicy,
    pub singleton: bool,
    pub priority: Option<i32>,
    pub max_retries: u8,
    pub retry_backoff_seconds: u32,
    pub success_exit_codes: Option<Vec<i32>>,
    pub misfire_policy: MisfirePolicy,
    pub if_running_action: IfRunningAction,
    pub triggers: Vec<Trigger>,
    pub conditions: Vec<Condition>,
    pub created_at_utc: i64,
    pub updated_at_utc: i64,
}

impl Default for Task {
    /// A blank enabled singleton task with a fresh identity, created
    /// now, whose only success exit code is zero.
    fn default() -> (r: Self)
        ensures
            r.id@.len() == 36,
            r.enabled,
            r.name@ == Seq::<char>::empty(),
            r.description is None,
            r.target_type is File,
            r.path_or_url@ == Seq::<char>::empty(),
            r.args is None,
            r.working_dir is None,
            r.start_delay_seconds == 0,
            r.run_window_style is Normal,
            r.wait_policy is DontWait,
            r.singleton,
            r.priority is None,
            r.max_retries == 0,
            r.retry_backoff_seconds == 10,
            r.success_exit_codes matches Some(codes) && codes@ =~= seq![0i32],
            r.misfire_policy is RunImmediately,
            r.if_running_action is Skip,
            r.triggers@.len() == 0,
            r.conditions@.len() == 0,
    {
        Task {
            id: fresh_uuid(),
            enabled: true,
            name: String::new(),
            description: None,
            target_type: TargetType::File,
            path_or_url: String::new(),
            args: None,
            working_dir: None,
            start_delay_seconds: 0,
            run_window_style: RunWindowStyle::default(),
            wait_policy: WaitPolicy::default(),
            singleton: true,
            priority: None,
            max_retries: 0,
            retry_backoff_seconds: 10,
            success_exit_codes: Some(vec![0]),
            misfire_policy: MisfirePolicy::default(),
            if_running_action: IfRunningAction::default(),
            triggers: Vec::new(),
            conditions: Vec::new(),
            created_at_utc: crate::civil::utc_now_seconds(),
            updated_at_utc: crate::civil::utc_now_seconds(),
        }
    }
}

/// The per-task runtime record, exactly one per task, updated after
/// each attempt.
#[derive(Clone, Debug)]
pub struct TaskState {
    pub task_id: String,
    pub last_run_date_local: Option<CivilDate>,
    pub last_run_at_utc: Option<i64>,
    pub last_result: Option<RunResult>,
    pub last_error: Option<String>,
    pub next_run_at_utc: Option<i64>,
}

impl TaskState {
    /// The blank state of a task that has never run.
    pub fn new_for(task_id: &String) -> (s: TaskState)
        ensures
            s.task_id@ == task_id@,
            s.last_run_date_local is None,
            s.last_run_at_utc is None,
            s.last_result is None,
            s.last_error is None,
            s.next_run_at_utc is None,
    {
        TaskState {
            task_id: task_id.clone(),
            last_run_date_local: None,
            last_run_at_utc: None,
            last_result: None,
            last_error: None,
            next_run_at_utc: None,
        }
    }
}

impl Default for TaskState {
    fn default() -> (s: Self)
        ensures
            s.task_id@ == Seq::<char>::empty(),
            s.last_run_date_local is None,
            s.last_run_at_utc is None,
            s.last_result is None,
            s.last_error is None,
            s.next_run_at_utc is None,
    {
        TaskState {
            task_id: String::new(),
            last_run_date_local: None,
            last_run_at_utc: None,
            last_result: None,
            last_error: None,
            next_run_at_utc: None,
        }
    }
}

/// The overall result of one attempt.
#[derive(Clone, Copy, Debug, PartialEq, Eq, Structural)]
pub enum RunResult {
    Success,
    Failed,
    Skipped,
}

/// Why an attempt was skipped.
#[derive(Clone, Copy, Debug, PartialEq, Eq, Structural)]
pub enum SkipReason {
    Disabled,
    ConditionFail,
    Singleton,
    MisfireSkip,
    PathMissing,
    AlreadyRanToday,
    DayNotAllowed,
    Paused,
    ManualOverride,
}

/// An append-only record of one execution attempt.
#[derive(Clone, Debug)]
pub struct RunLog {
    pub run_id: String,
    pub task_id: String,
    pub task_name: String,
    pub trigger_type: String,
    pub scheduled_time_utc: Option<i64>,
    pub started_at_utc: i64,
    pub finished_at_utc: Option<i64>,
    pub status: RunStatus,
    pub skip_reason: Option<SkipReason>,
    pub exit_code: Option<i32>,
    pub error_message: Option<String>,
    pub output: Option<String>,
}

/// The status recorded in a run log.
#[derive(Clone, Copy, Debug, PartialEq, Eq, Structural)]
pub enum RunStatus {
    Started,
    Success,
    Failed,
    Skipped,
}

/// A task that targets an executable, with its probed liveness.
#[derive(Clone, Debug)]
pub struct RunningProcess {
    pub task_id: String,
    pub task_name: String,
    pub process_name: String,
    pub is_running: bool,
}

/// Application settings.
#[derive(Clone, Debug)]
pub struct Settings {
    pub start_with_windows: bool,
    pub start_minimized_to_tray: bool,
    pub show_notifications: bool,
    pub timezone_id: String,
    pub log_retention_days: u32,
    pub max_parallel_runs: u8,
}

impl Default for Settings {
    fn default() -> (s: Self)
        ensures
            !s.start_with_windows,
            !s.start_minimized_to_tray,
            s.show_notifications,
            s.timezone_id@ == "system"@,
            s.log_retention_days == 30,
            s.max_parallel_runs == 3,
    {
        Settings {
            start_with_windows: false,
            start_minimized_to_tray: false,
            show_notifications: true,
            timezone_id: String::from_str("system"),
            log_retention_days: 30,
            max_parallel_runs: 3,
        }
    }
}

/// Finds the task with a given id: the index of the first task whose
/// id matches, or `None` when no task has it.
pub fn find_task_index(tasks: &Vec<Task>, id: &String) -> (r: Option<usize>)
    ensures
        match r {
            Some(i) => i < tasks@.len() && tasks@[i as int].id@ == id@,
            None => forall|j: int| 0 <= j < tasks@.len() ==> (#[trigger] tasks@[j]).id@ != id@,
        },
{
    let mut i: usize = 0;
    while i < tasks.len()
        invariant
            i <= tasks@.len(),
            forall|j: int| 0 <= j < i ==> (#[trigger] tasks@[j]).id@ != id@,
        decreases tasks@.len() - i,
    {
        if str_eq(tasks[i].id.as_str(), id.as_str()) {
            return Some(i);
        }
        i = i + 1;
    }
    None
}

/// The mathematical content of a [`Settings`] value.
pub struct SettingsView {
    pub start_with_windows: bool,
    pub start_minimized_to_tray: bool,
    pub show_notifications: bool,
    pub timezone_id: Seq<char>,
    pub log_retention_days: u32,
    pub max_parallel_runs: u8,
}

impl View for Settings {
    type V = SettingsView;

    open spec fn view(&self) -> SettingsView {
        SettingsView {
            start_with_windows: self.start_with_windows,
            start_minimized_to_tray: self.start_minimized_to_tray,
            show_notifications: self.show_notifications,
            timezone_id: self.timezone_id@,
            log_retention_days: self.log_retention_days,
            max_parallel_runs: self.max_parallel_runs,
        }
    }
}

/// The default settings, as a view.
pub open spec fn spec_default_settings() -> SettingsView {
    SettingsView {
        start_with_windows: false,
        start_minimized_to_tray: false,
        show_notifications: true,
        timezone_id: "system"@,
        log_retention_days: 30,
        max_parallel_runs: 3,
    }
}

/// `"true"` exactly; every other value reads as false.
pub open spec fn spec_bool_value(v: Seq<char>) -> bool {
    v == "true"@
}

/// A retention-days value: parsed as a number, or 30 when malformed.
pub open spec fn spec_u32_value(v: Seq<char>, fallback: u32) -> u32 {
    match spec_parse_u32(v) {
        Some(n) => n,
        None => fallback,
    }
}

/// A parallel-runs value: parsed as a number that fits a byte, or 3
/// when malformed.
pub open spec fn spec_u8_value(v: Seq<char>, fallback: u8) -> u8 {
    match spec_parse_u32(v) {
        Some(n) => if n <= 255 {
            n as u8
        } else {
            fallback
        },
        None => fallback,
    }
}

/// One stored key/value pair folded into the settings; unknown keys
/// change nothing.
pub open spec fn spec_apply_setting(s: SettingsView, key: Seq<char>, value: Seq<char>)
    -> SettingsView {
    if key == "start_with_windows"@ {
        SettingsView { start_with_windows: spec_bool_value(value), ..s }
    } else if key == "start_minimized_to_tray"@ {
        SettingsView { start_minimized_to_tray: spec_bool_value(value), ..s }
    } else if key == "show_notifications"@ {
        SettingsView { show_notifications: spec_bool_value(value), ..s }
    } else if key == "timezone_id"@ {
        SettingsView { timezone_id: value, ..s }
    } else if key == "log_retention_days"@ {
        SettingsView { log_retention_days: spec_u32_value(value, 30), ..s }
    } else if key == "max_parallel_runs"@ {
        SettingsView { max_parallel_runs: spec_u8_value(value, 3), ..s }
    } else {
        s
    }
}

/// The stored pairs folded, in order, into the default settings.
pub open spec fn spec_settings_from_pairs(ps: Seq<(String, String)>) -> SettingsView
    decreases ps.len(),
{
    if ps.len() == 0 {
        spec_default_settings()
    } else {
        spec_apply_setting(
            spec_settings_from_pairs(ps.drop_last()),
            ps.last().0@,
            ps.last().1@,
        )
    }
}

fn apply_setting(s: Settings, key: &String, value: String) -> (r: Settings)
    ensures
        r@ == spec_apply_setting(s@, key@, value@),
{
    if str_eq(key.as_str(), "start_with_windows") {
        Settings { start_with_windows: str_eq(value.as_str(), "true"), ..s }
    } else if str_eq(key.as_str(), "start_minimized_to_tray") {
        Settings { start_minimized_to_tray: str_eq(value.as_str(), "true"), ..s }
    } else if str_eq(key.as_str(), "show_notifications") {
        Settings { show_notifications: str_eq(value.as_str(), "true"), ..s }
    } else if str_eq(key.as_str(), "timezone_id") {
        Settings { timezone_id: value, ..s }
    } else if str_eq(key.as_str(), "log_retention_days") {
        let n: u32 = match parse_u32(value.as_str()) {
            Some(n) => n,
            None => 30,
        };
        Settings { log_retention_days: n, ..s }
    } else if str_eq(key.as_str(), "max_parallel_runs") {
        let n: u8 = match parse_u32(value.as_str()) {
            Some(n) => if n <= 255 {
                n as u8
            } else {
                3
            },
            None => 3,
        };
        Settings { max_parallel_runs: n, ..s }
    } else {
        s
    }
}

/// Rebuilds the settings from stored key/value pairs, applied in
/// order over the defaults; unknown keys are ignored and malformed
/// numbers fall back to their defaults.
pub fn settings_from_pairs(pairs: &Vec<(String, String)>) -> (s: Settings)
    ensures
        s@ == spec_settings_from_pairs(pairs@),
{
    let mut s = Settings::default();
    let mut i: usize = 0;
    while i < pairs.len()
        invariant
            i <= pairs@.len(),
            s@ == spec_settings_from_pairs(pairs@.take(i as int)),
        decreases pairs@.len() - i,
    {
        let key = &pairs[i].0;
        let value = pairs[i].1.clone();
        s = apply_setting(s, key, value);
        proof {
            assert(pairs@.take(i + 1).drop_last() =~= pairs@.take(i as int));
            assert(pairs@.take(i + 1).last() == pairs@[i as int]);
        }
        i = i + 1;
    }
    proof {
        assert(pairs@.take(pairs@.len() as int) =~= pairs@);
    }
    s
}

/// `"true"` or `"false"`.
pub open spec fn spec_bool_string(b: bool) -> Seq<char> {
    if b {
        "true"@
    } else {
        "false"@
    }
}

fn bool_string(b: bool) -> (s: String)
    ensures
        s@ == spec_bool_string(b),
{
    if b {
        String::from_str("true")
    } else {
        String::from_str("false")
    }
}

/// Flattens the settings into the key/value pairs the store keeps,
/// one per field, in a fixed order.
pub fn settings_to_pairs(settings: &Settings) -> (r: Vec<(String, String)>)
    ensures
        r@.len() == 6,
        r@[0].0@ == "start_with_windows"@,
        r@[0].1@ == spec_bool_string(settings.start_with_windows),
        r@[1].0@ == "start_minimized_to_tray"@,
        r@[1].1@ == spec_bool_string(settings.start_minimized_to_tray),
        r@[2].0@ == "show_notifications"@,
        r@[2].1@ == spec_bool_string(settings.show_notifications),
        r@[3].0@ == "timezone_id"@,
        r@[3].1@ == settings.timezone_id@,
        r@[4].0@ == "log_retention_days"@,
        r@[4].1@ == crate::text::spec_nat_string(settings.log_retention_days as nat),
        r@[5].0@ == "max_parallel_runs"@,
        r@[5].1@ == crate::text::spec_nat_string(settings.max_parallel_runs as nat),
{
    let mut r: Vec<(String, String)> = Vec::new();
    r.push((String::from_str("start_with_windows"), bool_string(settings.start_with_windows)));
    r.push((
        String::from_str("start_minimized_to_tray"),
        bool_string(settings.start_minimized_to_tray),
    ));
    r.push((String::from_str("show_notifications"), bool_string(settings.show_notifications)));
    r.push((String::from_str("timezone_id"), settings.timezone_id.clone()));
    r.push((String::from_str("log_retention_days"), u32_string(settings.log_retention_days)));
    r.push((
        String::from_str("max_parallel_runs"),
        u32_string(settings.max_parallel_runs as u32),
    ));
    r
}

} // verus!
