//! Building run logs and task-state updates from attempt outcomes.
//!
//! Every attempt — executed, failed or skipped — concludes through
//! exactly one of these builders, so it leaves exactly one run log
//! record; the persistence layer only appends what it is handed.

use vstd::prelude::*;

use crate::civil::CivilDate;
use crate::executor::{spec_error_message, ExecutionResult, ExecutorError};
use crate::models::{
    fresh_uuid, spec_trigger_kind, RunLog, RunResult, RunStatus, SkipReason, Task, TaskState,
    Trigger,
};

verus! {

/// The status a finished attempt records: success only for a
/// successful execution, failure otherwise.
pub open spec fn spec_outcome_status(result: Result<ExecutionResult, ExecutorError>) -> RunStatus {
    match result {
        Ok(res) => if res.success {
            RunStatus::Success
        } else {
            RunStatus::Failed
        },
        Err(_) => RunStatus::Failed,
    }
}

/// The run log of a skipped attempt: one record, status Skipped, with
/// the reason, stamped at `now_utc`, without exit code or output.
pub fn build_skip_log(task: &Task, trigger: &Trigger, reason: SkipReason, now_utc: i64) -> (log:
    RunLog)
    ensures
        log.run_id@.len() == 36,
        log.task_id@ == task.id@,
        log.task_name@ == task.name@,
        log.trigger_type@ == spec_trigger_kind(*trigger),
        log.scheduled_time_utc == Some(now_utc),
        log.started_at_utc == now_utc,
        log.finished_at_utc == Some(now_utc),
        log.status is Skipped,
        log.skip_reason == Some(reason),
        log.exit_code is None,
        log.error_message is None,
        log.output is None,
{
    RunLog {
        run_id: fresh_uuid(),
        task_id: task.id.clone(),
        task_name: task.name.clone(),
        trigger_type: trigger.describe(),
        scheduled_time_utc: Some(now_utc),
        started_at_utc: now_utc,
        finished_at_utc: Some(now_utc),
        status: RunStatus::Skipped,
        skip_reason: Some(reason),
        exit_code: None,
        error_message: None,
        output: None,
    }
}

/// The run log of a concluded attempt: one record carrying the
/// outcome's status, exit code, error message and output.
pub fn build_outcome_log(
    task: &Task,
    trigger_type: String,
    scheduled_time_utc: Option<i64>,
    result: &Result<ExecutionResult, ExecutorError>,
    now_utc: i64,
) -> (log: RunLog)
    ensures
        log.run_id@.len() == 36,
        log.task_id@ == task.id@,
        log.task_name@ == task.name@,
        log.trigger_type == trigger_type,
        log.scheduled_time_utc == scheduled_time_utc,
        log.started_at_utc == now_utc,
        log.finished_at_utc == Some(now_utc),
        log.status == spec_outcome_status(*result),
        log.skip_reason is None,
        match result {
            Ok(res) => {
                &&& log.exit_code == res.exit_code
                &&& log.output == res.output
                &&& (res.success ==> log.error_message is None)
                &&& (!res.success ==> log.error_message == res.error_message)
            },
            Err(e) => {
                &&& log.exit_code is None
                &&& log.output is None
                &&& (log.error_message matches Some(m) && m@ == spec_error_message(*e))
            },
        },
{
    let (status, error_message, exit_code, output): (
        RunStatus,
        Option<String>,
        Option<i32>,
        Option<String>,
    ) = match result {
        Ok(res) => {
            if res.success {
                (RunStatus::Success, None, res.exit_code, res.output.clone())
            } else {
                (RunStatus::Failed, res.error_message.clone(), res.exit_code, res.output.clone())
            }
        },
        Err(e) => (RunStatus::Failed, Some(e.message()), None, None),
    };
    RunLog {
        run_id: fresh_uuid(),
        task_id: task.id.clone(),
        task_name: task.name.clone(),
        trigger_type,
        scheduled_time_utc,
        started_at_utc: now_utc,
        finished_at_utc: Some(now_utc),
        status,
        skip_reason: None,
        exit_code,
        error_message,
        output,
    }
}

/// The run log of a concluded scheduled attempt, described by its
/// trigger and stamped at `now_utc`.
pub fn build_execution_log(
    task: &Task,
    trigger: &Trigger,
    result: &Result<ExecutionResult, ExecutorError>,
    now_utc: i64,
) -> (log: RunLog)
    ensures
        log.run_id@.len() == 36,
        log.task_id@ == task.id@,
        log.task_name@ == task.name@,
        log.trigger_type@ == spec_trigger_kind(*trigger),
        log.scheduled_time_utc == Some(now_utc),
        log.started_at_utc == now_utc,
        log.finished_at_utc == Some(now_utc),
        log.status == spec_outcome_status(*result),
        log.skip_reason is None,
        match result {
            Ok(res) => {
                &&& log.exit_code == res.exit_code
                &&& log.output == res.output
                &&& (res.success ==> log.error_message is None)
                &&& (!res.success ==> log.error_message == res.error_message)
            },
            Err(e) => {
                &&& log.exit_code is None
                &&& log.output is None
                &&& (log.error_message matches Some(m) && m@ == spec_error_message(*e))
            },
        },
{
    build_outcome_log(task, trigger.describe(), Some(now_utc), result, now_utc)
}

/// The task state recorded after an attempt: last run stamped with
/// the local date and the instant, the result folded to
/// success/failure, the error kept on failure, and the next run left
/// for the next tick to recompute.
pub fn updated_task_state(
    task_id: &String,
    result: &Result<ExecutionResult, ExecutorError>,
    today: CivilDate,
    now_utc: i64,
) -> (s: TaskState)
    ensures
        s.task_id@ == task_id@,
        s.last_run_date_local == Some(today),
        s.last_run_at_utc == Some(now_utc),
        s.last_result == Some(
            match *result {
                Ok(res) => if res.success {
                    RunResult::Success
                } else {
                    RunResult::Failed
                },
                Err(_) => RunResult::Failed,
            },
        ),
        match result {
            Ok(_) => s.last_error is None,
            Err(e) => s.last_error matches Some(m) && m@ == spec_error_message(*e),
        },
        s.next_run_at_utc is None,
{
    let last_result = match result {
        Ok(res) => if res.success {
            RunResult::Success
        } else {
            RunResult::Failed
        },
        Err(_) => RunResult::Failed,
    };
    let last_error = match result {
        Ok(_) => None,
        Err(e) => Some(e.message()),
    };
    TaskState {
        task_id: task_id.clone(),
        last_run_date_local: Some(today),
        last_run_at_utc: Some(now_utc),
        last_result: Some(last_result),
        last_error,
        next_run_at_utc: None,
    }
}

/// Concludes one attempt: exactly one run log record and the updated
/// task state, both reflecting the same outcome.
pub fn conclude_attempt(
    task: &Task,
    trigger: &Trigger,
    result: &Result<ExecutionResult, ExecutorError>,
    today: CivilDate,
    now_utc: i64,
) -> (out: (RunLog, TaskState))
    ensures
        out.0.task_id@ == task.id@,
        out.0.status == spec_outcome_status(*result),
        out.0.trigger_type@ == spec_trigger_kind(*trigger),
        (result matches Err(e) ==> (out.0.error_message matches Some(m) && m@
            == spec_error_message(*e))),
        out.1.task_id@ == task.id@,
        out.1.last_run_date_local == Some(today),
        out.1.last_run_at_utc == Some(now_utc),
        out.1.last_result == Some(
            match *result {
                Ok(res) => if res.success {
                    RunResult::Success
                } else {
                    RunResult::Failed
                },
                Err(_) => RunResult::Failed,
            },
        ),
{
    let log = build_execution_log(task, trigger, result, now_utc);
    let state = updated_task_state(&task.id, result, today, now_utc);
    (log, state)
}

} // verus!
