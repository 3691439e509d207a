//! The process executor's decision logic.
//!
//! Spawning, polling and killing processes is outside work; the
//! verified part decides everything around it: whether a missing path
//! fails the attempt, what the already-running policy does, how the
//! free-form argument string tokenizes, which working directory and
//! window flag a launch uses, and how an exit classifies into success
//! or failure. The unverified runner performs the probes and spawns
//! and feeds the outcomes back in as plain values.

use vstd::prelude::*;

use crate::models::{IfRunningAction, RunWindowStyle, Task, TargetType, WaitPolicy};
use crate::text::{i32_string, spec_int_string, u32_string, spec_nat_string};

verus! {

/// A recoverable execution failure; the caller logs it, marks the
/// task failed, and the loop continues.
#[derive(Clone, Debug, PartialEq)]
pub enum ExecutorError {
    PathNotFound(String),
    OpenFailed(String),
    Timeout(u32),
    ExitCodeFailed(i32),
    IoError(String),
}

/// The message of an execution failure.
pub open spec fn spec_error_message(e: ExecutorError) -> Seq<char> {
    match e {
        ExecutorError::PathNotFound(p) => "Path not found: "@ + p@,
        ExecutorError::OpenFailed(m) => "Failed to open: "@ + m@,
        ExecutorError::Timeout(s) => "Process timed out after "@ + spec_nat_string(s as nat)
            + " seconds"@,
        ExecutorError::ExitCodeFailed(c) => "Exit code "@ + spec_int_string(c as int)
            + " is not in the success list"@,
        ExecutorError::IoError(m) => "IO error: "@ + m@,
    }
}

impl ExecutorError {
    /// Renders the failure as a human-readable message.
    pub fn message(&self) -> (r: String)
        ensures
            r@ == spec_error_message(*self),
    {
        match self {
            ExecutorError::PathNotFound(p) => {
                let mut s = String::from_str("Path not found: ");
                s.append(p.as_str());
                s
            },
            ExecutorError::OpenFailed(m) => {
                let mut s = String::from_str("Failed to open: ");
                s.append(m.as_str());
                s
            },
            ExecutorError::Timeout(secs) => {
                let mut s = String::from_str("Process timed out after ");
                let n = u32_string(*secs);
                s.append(n.as_str());
                s.append(" seconds");
                s
            },
            ExecutorError::ExitCodeFailed(code) => {
                let mut s = String::from_str("Exit code ");
                let n = i32_string(*code);
                s.append(n.as_str());
                s.append(" is not in the success list");
                s
            },
            ExecutorError::IoError(m) => {
                let mut s = String::from_str("IO error: ");
                s.append(m.as_str());
                s
            },
        }
    }
}

/// The transient value an attempt produces: consumed to build a run
/// log and update the task state.
#[derive(Clone, Debug)]
pub struct ExecutionResult {
    pub success: bool,
    pub exit_code: Option<i32>,
    pub error_message: Option<String>,
    pub output: Option<String>,
}

/// One step of the argument tokenizer: the tokens closed so far, the
/// token being built, and whether we are inside double quotes.
pub open spec fn spec_tokenize_step(
    acc: (Seq<Seq<char>>, Seq<char>, bool),
    c: char,
) -> (Seq<Seq<char>>, Seq<char>, bool) {
    if c == '"' {
        (acc.0, acc.1, !acc.2)
    } else if (c == ' ' || c == '\t') && !acc.2 {
        if acc.1.len() > 0 {
            (acc.0.push(acc.1), Seq::empty(), acc.2)
        } else {
            acc
        }
    } else {
        (acc.0, acc.1.push(c), acc.2)
    }
}

/// The tokenizer folded over the whole string.
pub open spec fn spec_tokenize_fold(s: Seq<char>) -> (Seq<Seq<char>>, Seq<char>, bool)
    decreases s.len(),
{
    if s.len() == 0 {
        (Seq::empty(), Seq::empty(), false)
    } else {
        spec_tokenize_step(spec_tokenize_fold(s.drop_last()), s.last())
    }
}

/// The tokens of a free-form argument string: double quotes toggle
/// quoting and are stripped, unquoted spaces and tabs split tokens,
/// and a trailing partial token is closed at the end.
pub open spec fn spec_tokenize(s: Seq<char>) -> Seq<Seq<char>> {
    let folded = spec_tokenize_fold(s);
    if folded.1.len() > 0 {
        folded.0.push(folded.1)
    } else {
        folded.0
    }
}

/// Tokenizes a free-form argument string, respecting double-quote
/// grouping: quotes toggle state and are stripped, unquoted
/// whitespace splits tokens.
pub fn parse_args(args: &str) -> (r: Vec<String>)
    ensures
        r.deep_view() == spec_tokenize(args@),
{
    let len = args.unicode_len();
    let mut toks: Vec<String> = Vec::new();
    let mut cur: String = String::new();
    let mut in_quotes: bool = false;
    let mut i: usize = 0;
    while i < len
        invariant
            len == args@.len(),
            i <= len,
            (toks.deep_view(), cur@, in_quotes) == spec_tokenize_fold(args@.take(i as int)),
        decreases len - i,
    {
        proof {
            assert(args@.take(i + 1).drop_last() =~= args@.take(i as int));
            assert(args@.take(i + 1).last() == args@[i as int]);
        }
        let ghost prev = (toks.deep_view(), cur@, in_quotes);
        let c = args.get_char(i);
        if c == '"' {
            in_quotes = !in_quotes;
        } else if (c == ' ' || c == '\t') && !in_quotes {
            if cur.unicode_len() > 0 {
                let done = cur;
                cur = String::new();
                toks.push(done);
                proof {
                    assert(toks.deep_view() =~= prev.0.push(prev.1));
                }
            }
        } else {
            crate::text::push_char(&mut cur, c);
        }
        proof {
            assert((toks.deep_view(), cur@, in_quotes) == spec_tokenize_step(
                prev,
                args@[i as int],
            ));
        }
        i = i + 1;
    }
    proof {
        assert(args@.take(len as int) =~= args@);
    }
    if cur.unicode_len() > 0 {
        let ghost prev = toks.deep_view();
        toks.push(cur);
        proof {
            assert(toks.deep_view() =~= prev.push(cur@));
        }
    }
    toks
}

/// Whether an exit code counts as success: membership in the
/// configured set when one is present, zero otherwise.
pub open spec fn spec_exit_success(code: i32, codes: Option<Vec<i32>>) -> bool {
    match codes {
        Some(list) => list@.contains(code),
        None => code == 0,
    }
}

/// Decides whether an exit code counts as success: membership in the
/// configured success set when one is present, exit code zero
/// otherwise.
pub fn check_exit_code(code: i32, success_codes: &Option<Vec<i32>>) -> (r: bool)
    ensures
        r == spec_exit_success(code, *success_codes),
{
    match success_codes {
        Some(list) => {
            let mut i: usize = 0;
            while i < list.len()
                invariant
                    i <= list@.len(),
                    *success_codes is Some,
                    (*success_codes)->0 == *list,
                    forall|j: int| 0 <= j < i ==> list@[j] != code,
                decreases list@.len() - i,
            {
                if list[i] == code {
                    assert(list@.contains(code)) by {
                        assert(list@[i as int] == code);
                    }
                    return true;
                }
                i = i + 1;
            }
            assert(!list@.contains(code));
            false
        },
        None => code == 0,
    }
}

/// Whether `c` separates path components.
pub open spec fn spec_is_sep(c: char) -> bool {
    c == '/' || c == '\\'
}

/// The characters after the last path separator; empty when the
/// string ends with a separator or is empty.
pub open spec fn spec_after_last_sep(s: Seq<char>) -> Seq<char>
    decreases s.len(),
{
    if s.len() == 0 {
        Seq::empty()
    } else if spec_is_sep(s.last()) {
        Seq::empty()
    } else {
        spec_after_last_sep(s.drop_last()).push(s.last())
    }
}

/// The process image name derived from a path: what follows the last
/// separator, or the whole path when that would be empty.
pub open spec fn spec_process_name(s: Seq<char>) -> Seq<char> {
    let tail = spec_after_last_sep(s);
    if tail.len() == 0 {
        s
    } else {
        tail
    }
}

/// Derives the process image name from a path: the component after
/// the last `/` or `\`, or the whole path when there is none.
pub fn get_process_name(path: &str) -> (r: String)
    ensures
        r@ == spec_process_name(path@),
{
    let len = path.unicode_len();
    let mut cur: String = String::new();
    let mut i: usize = 0;
    while i < len
        invariant
            len == path@.len(),
            i <= len,
            cur@ == spec_after_last_sep(path@.take(i as int)),
        decreases len - i,
    {
        proof {
            assert(path@.take(i + 1).drop_last() =~= path@.take(i as int));
            assert(path@.take(i + 1).last() == path@[i as int]);
        }
        let c = path.get_char(i);
        if c == '/' || c == '\\' {
            cur = String::new();
        } else {
            crate::text::push_char(&mut cur, c);
        }
        i = i + 1;
    }
    proof {
        assert(path@.take(len as int) =~= path@);
    }
    if cur.unicode_len() > 0 {
        cur
    } else {
        path.to_owned()
    }
}

/// Derives the process image name from a path.
pub fn get_process_name_from_path(path: &str) -> (r: String)
    ensures
        r@ == spec_process_name(path@),
{
    get_process_name(path)
}

/// The text before the last path separator; `None` when the path has
/// no separator.
pub open spec fn spec_parent_dir(s: Seq<char>) -> Option<Seq<char>>
    decreases s.len(),
{
    if s.len() == 0 {
        None
    } else if spec_is_sep(s.last()) {
        Some(s.drop_last())
    } else {
        spec_parent_dir(s.drop_last())
    }
}

/// The directory part of a path: the text before the last separator,
/// `None` when there is none.
pub fn parent_dir(path: &str) -> (r: Option<String>)
    ensures
        match r {
            Some(p) => spec_parent_dir(path@) == Some(p@),
            None => spec_parent_dir(path@) is None,
        },
{
    let len = path.unicode_len();
    proof {
        assert(path@.take(len as int) =~= path@);
    }
    let mut i: usize = len;
    while i > 0
        invariant
            len == path@.len(),
            i <= len,
            spec_parent_dir(path@) == spec_parent_dir(path@.take(i as int)),
        decreases i,
    {
        proof {
            assert(path@.take(i as int).drop_last() =~= path@.take(i - 1));
            assert(path@.take(i as int).last() == path@[i - 1]);
        }
        let c = path.get_char(i - 1);
        if c == '/' || c == '\\' {
            let dir = path.substring_char(0, i - 1);
            proof {
                assert(path@.take(i as int).drop_last() =~= path@.subrange(0, i - 1));
            }
            return Some(dir.to_owned());
        }
        i = i - 1;
    }
    proof {
        assert(path@.take(0) =~= Seq::<char>::empty());
    }
    None
}

/// Whether a target type names something on the file system; only
/// URLs do not.
pub open spec fn spec_needs_path(t: TargetType) -> bool {
    !(t is Url)
}

/// Whether a target type requires the path to exist before launch.
pub fn target_needs_path(t: &TargetType) -> (r: bool)
    ensures
        r == spec_needs_path(*t),
{
    match t {
        TargetType::Url => false,
        _ => true,
    }
}

/// How an attempt proceeds after the path and liveness checks.
#[derive(Clone, Copy, Debug, PartialEq, Eq, Structural)]
pub enum RunPreparation {
    /// Launch the executable directly.
    Launch,
    /// Hand the target to the OS default handler.
    ShellOpen,
    /// The target already runs and the policy says skip: report a
    /// soft-skip success.
    SkipAlreadyRunning,
    /// The target already runs and the policy says restart: kill it,
    /// wait a short grace period, then launch.
    KillThenLaunch,
}

/// What the path and liveness checks decide, in order: a missing path
/// fails every file-system target; a running executable target goes
/// by the if-running action; executables launch directly and
/// everything else opens through the OS handler.
pub open spec fn spec_prepare(task: Task, path_exists: bool, target_running: bool) -> Result<
    RunPreparation,
    ExecutorError,
> {
    if spec_needs_path(task.target_type) && !path_exists {
        Err(ExecutorError::PathNotFound(task.path_or_url))
    } else if task.target_type is Exe && target_running {
        match task.if_running_action {
            IfRunningAction::Skip => Ok(RunPreparation::SkipAlreadyRunning),
            IfRunningAction::Restart => Ok(RunPreparation::KillThenLaunch),
            IfRunningAction::RunAnyway => Ok(RunPreparation::Launch),
        }
    } else if task.target_type is Exe {
        Ok(RunPreparation::Launch)
    } else {
        Ok(RunPreparation::ShellOpen)
    }
}

/// Decides how an attempt proceeds, given whether the target path
/// exists and whether the target process already runs. A missing
/// path always fails with `PathNotFound`.
pub fn prepare_execution(task: &Task, path_exists: bool, target_running: bool) -> (r: Result<
    RunPreparation,
    ExecutorError,
>)
    ensures
        r == spec_prepare(*task, path_exists, target_running),
{
    if target_needs_path(&task.target_type) && !path_exists {
        return Err(ExecutorError::PathNotFound(task.path_or_url.clone()));
    }
    if let TargetType::Exe = task.target_type {
        if target_running {
            return match task.if_running_action {
                IfRunningAction::Skip => Ok(RunPreparation::SkipAlreadyRunning),
                IfRunningAction::Restart => Ok(RunPreparation::KillThenLaunch),
                IfRunningAction::RunAnyway => Ok(RunPreparation::Launch),
            };
        }
        Ok(RunPreparation::Launch)
    } else {
        Ok(RunPreparation::ShellOpen)
    }
}

/// The soft-skip result reported when the target already runs and
/// the policy says skip: a success, distinguishable from a true run
/// by its explanatory message and missing exit code.
pub fn skip_result(process_name: &str) -> (r: ExecutionResult)
    ensures
        r.success,
        r.exit_code is None,
        r.output is None,
        r.error_message matches Some(m) && m@ == "Skipped - "@ + process_name@
            + " already running"@,
{
    let mut msg = String::from_str("Skipped - ");
    msg.append(process_name);
    msg.append(" already running");
    ExecutionResult { success: true, exit_code: None, error_message: Some(msg), output: None }
}

/// The platform creation flag for a window style: `CREATE_NO_WINDOW`
/// for hidden, nothing otherwise (minimized degrades to normal).
pub open spec fn spec_creation_flags(style: RunWindowStyle) -> u32 {
    if style is Hidden {
        0x08000000
    } else {
        0
    }
}

/// The platform creation flag requested for a window style.
pub fn creation_flags(style: &RunWindowStyle) -> (r: u32)
    ensures
        r == spec_creation_flags(*style),
{
    match style {
        RunWindowStyle::Hidden => 0x08000000,
        _ => 0,
    }
}

/// Everything a direct launch needs: the program, its tokenized
/// arguments, the working directory, and the window flag.
#[derive(Clone, Debug)]
pub struct LaunchPlan {
    pub program: String,
    pub args: Vec<String>,
    pub working_dir: Option<String>,
    pub creation_flags: u32,
}

/// Builds the launch plan of an executable target: the program is the
/// configured path, the arguments are the tokenized argument string
/// (none when unset), the working directory is the configured one or
/// else the executable's parent directory, and the window flag
/// follows the window style.
pub fn build_launch_plan(task: &Task) -> (r: LaunchPlan)
    ensures
        r.program@ == task.path_or_url@,
        r.args.deep_view() == (match task.args {
            Some(a) => spec_tokenize(a@),
            None => Seq::<Seq<char>>::empty(),
        }),
        match task.working_dir {
            Some(wd) => r.working_dir matches Some(w) && w@ == wd@,
            None => (match r.working_dir {
                Some(w) => spec_parent_dir(task.path_or_url@) == Some(w@),
                None => spec_parent_dir(task.path_or_url@) is None,
            }),
        },
        r.creation_flags == spec_creation_flags(task.run_window_style),
{
    let args: Vec<String> = match &task.args {
        Some(a) => parse_args(a.as_str()),
        None => {
            let empty: Vec<String> = Vec::new();
            proof {
                assert(empty.deep_view() =~= Seq::<Seq<char>>::empty());
            }
            empty
        },
    };
    let working_dir: Option<String> = match &task.working_dir {
        Some(wd) => Some(wd.clone()),
        None => parent_dir(task.path_or_url.as_str()),
    };
    LaunchPlan {
        program: task.path_or_url.clone(),
        args,
        working_dir,
        creation_flags: creation_flags(&task.run_window_style),
    }
}

/// What came back from the spawned process, fed in by the unverified
/// runner.
#[derive(Clone, Debug)]
pub enum SpawnWaitOutcome {
    /// The spawn (or a wait on the child) failed with an I/O error.
    SpawnFailed(String),
    /// The process was spawned and not waited for.
    Launched,
    /// The process exited with the given code (`None` when the
    /// platform reports no code).
    Exited(Option<i32>),
    /// The process exited while its output was captured: code, then
    /// standard output and standard error.
    ExitedCaptured(Option<i32>, String, String),
    /// The wait outlived the configured timeout and the process was
    /// killed.
    TimedOut,
}

/// The exit code used for classification: the reported one, or -1
/// when the platform reports none.
pub open spec fn spec_effective_code(c: Option<i32>) -> i32 {
    match c {
        Some(v) => v,
        None => -1i32,
    }
}

/// A classified exit: the code recorded, success decided by the
/// success set, and a failure carrying an `Exit code: N` message.
pub open spec fn spec_classified(res: ExecutionResult, code: i32, codes: Option<Vec<i32>>)
    -> bool {
    &&& res.exit_code == Some(code)
    &&& res.success == spec_exit_success(code, codes)
    &&& (res.success ==> res.error_message is None)
    &&& (!res.success ==> (res.error_message matches Some(m) && m@ == "Exit code: "@
        + spec_int_string(code as int)))
}

/// Captured output combined: standard error appended after a clear
/// separator, when there is any.
pub open spec fn spec_combined_output(so: Seq<char>, se: Seq<char>) -> Seq<char> {
    if se.len() == 0 {
        so
    } else {
        so + "\n--- STDERR ---\n"@ + se
    }
}

fn classify_exit(code: Option<i32>, success_codes: &Option<Vec<i32>>) -> (r: ExecutionResult)
    ensures
        spec_classified(r, spec_effective_code(code), *success_codes),
        r.output is None,
{
    let effective: i32 = match code {
        Some(v) => v,
        None => -1,
    };
    let success = check_exit_code(effective, success_codes);
    let error_message: Option<String> = if success {
        None
    } else {
        let mut m = String::from_str("Exit code: ");
        let n = i32_string(effective);
        m.append(n.as_str());
        Some(m)
    };
    ExecutionResult { success, exit_code: Some(effective), error_message, output: None }
}

/// Classifies what came back from a direct launch under the wait
/// policy: a spawn failure is an I/O error, an unawaited launch is a
/// success without exit code, a timeout fails with the configured
/// timeout, and an exit is classified against the success set, with
/// captured output combined after a separator.
pub fn conclude_launch(
    wait_policy: &WaitPolicy,
    success_codes: &Option<Vec<i32>>,
    outcome: SpawnWaitOutcome,
) -> (r: Result<ExecutionResult, ExecutorError>)
    requires
        outcome is TimedOut ==> wait_policy matches WaitPolicy::WaitForExit {
            timeout_seconds: Some(_),
        },
    ensures
        outcome matches SpawnWaitOutcome::SpawnFailed(m) ==> r == Err::<
            ExecutionResult,
            ExecutorError,
        >(ExecutorError::IoError(m)),
        outcome is Launched ==> (r matches Ok(res) && res.success && res.exit_code is None
            && res.error_message is None && res.output is None),
        outcome is TimedOut ==> (wait_policy matches WaitPolicy::WaitForExit {
            timeout_seconds: Some(t),
        } && r == Err::<ExecutionResult, ExecutorError>(ExecutorError::Timeout(*t))),
        outcome matches SpawnWaitOutcome::Exited(c) ==> (r matches Ok(res) && spec_classified(
            res,
            spec_effective_code(c),
            *success_codes,
        ) && res.output is None),
        outcome matches SpawnWaitOutcome::ExitedCaptured(c, so, se) ==> (r matches Ok(res)
            && spec_classified(res, spec_effective_code(c), *success_codes) && (
        res.output matches Some(o) && o@ == spec_combined_output(so@, se@))),
{
    match outcome {
        SpawnWaitOutcome::SpawnFailed(m) => Err(ExecutorError::IoError(m)),
        SpawnWaitOutcome::Launched => Ok(
            ExecutionResult { success: true, exit_code: None, error_message: None, output: None },
        ),
        SpawnWaitOutcome::TimedOut => match wait_policy {
            WaitPolicy::WaitForExit { timeout_seconds: Some(t) } => Err(
                ExecutorError::Timeout(*t),
            ),
            _ => vstd::pervasive::unreached(),
        },
        SpawnWaitOutcome::Exited(c) => Ok(classify_exit(c, success_codes)),
        SpawnWaitOutcome::ExitedCaptured(c, so, se) => {
            let mut res = classify_exit(c, success_codes);
            let mut combined = so;
            if !se.as_str().is_empty() {
                combined.append("\n--- STDERR ---\n");
                combined.append(se.as_str());
            }
            res.output = Some(combined);
            Ok(res)
        },
    }
}

/// Classifies what came back from an OS default-handler open: the
/// handler's own success flag and exit code, with a fixed message on
/// failure.
pub fn conclude_shell_open(opened: bool, code: Option<i32>) -> (r: ExecutionResult)
    ensures
        r.success == opened,
        r.exit_code == code,
        opened ==> r.error_message is None,
        !opened ==> (r.error_message matches Some(m) && m@ == "Failed to open"@),
        r.output is None,
{
    ExecutionResult {
        success: opened,
        exit_code: code,
        error_message: if opened {
            None
        } else {
            Some(String::from_str("Failed to open"))
        },
        output: None,
    }
}

} // verus!
