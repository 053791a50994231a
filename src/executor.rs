//! The decisions of the local and remote executors: what to run, and how a
//! run's outcome becomes a terminal record.

use vstd::prelude::*;
use crate::record::{distinct_keys, CommandRequest, CommandStatus, Termination, VmDetails, NO_EXIT_CODE};
use crate::store::{finished_in, JobStore};
use crate::text::{decimal, decimal_string};

verus! {

/// What running a shell command produced.
pub enum ProcessOutcome {
    /// The process ran to its end; `code` is `None` when a signal ended it.
    Exited { stdout: Vec<u8>, stderr: Vec<u8>, code: Option<i32> },
    /// The process could not be started or waited on; `message` says why.
    SpawnFailed { message: String },
    /// The deadline passed before the process ended; its output is not kept.
    TimedOut,
}

/// What `String::from_utf8_lossy` makes of the given bytes.
pub uninterp spec fn lossy_text(b: Seq<u8>) -> Seq<char>;

/// Relies on `String::from_utf8_lossy`: decodes UTF-8, putting U+FFFD in place
/// of invalid sequences; the text depends on the bytes alone.
#[verifier::external_body]
fn decode_lossy(b: &Vec<u8>) -> (r: String)
    ensures
        r@ == lossy_text(b@),
{
    String::from_utf8_lossy(b.as_slice()).into_owned()
}

pub open spec fn timeout_message(on_vm: bool, seconds: nat) -> Seq<char> {
    (if on_vm {
        "Command on VM timed out after "@
    } else {
        "Command timed out after "@
    }) + decimal(seconds) + " seconds"@
}

pub open spec fn spawn_message(on_vm: bool, detail: Seq<char>) -> Seq<char> {
    (if on_vm {
        "Failed to execute command on VM: "@
    } else {
        "Failed to execute command: "@
    }) + detail
}

/// The exit code a record carries for a process that ran to its end.
pub open spec fn recorded_exit_code(code: Option<i32>) -> i32 {
    match code {
        Some(c) => c,
        None => NO_EXIT_CODE,
    }
}

/// The termination of a process that ran to its end with the given output.
pub open spec fn is_exited_termination(
    t: Termination,
    stdout: Seq<char>,
    stderr: Seq<char>,
    code: Option<i32>,
    elapsed_ms: u64,
    now: i64,
) -> bool {
    &&& t.status == if code == Some(0i32) {
        CommandStatus::Completed
    } else {
        CommandStatus::Failed
    }
    &&& t.stdout matches Some(s) && s@ == stdout
    &&& t.stderr@ == stderr
    &&& t.exit_code == recorded_exit_code(code)
    &&& t.execution_time_ms == elapsed_ms
    &&& t.completed_at == now
}

/// A termination that carries only an error: no output, the exit code sentinel.
pub open spec fn is_error_termination(
    t: Termination,
    status: CommandStatus,
    stderr: Seq<char>,
    elapsed_ms: u64,
    now: i64,
) -> bool {
    &&& t.status == status
    &&& t.stdout is None
    &&& t.stderr@ == stderr
    &&& t.exit_code == NO_EXIT_CODE
    &&& t.execution_time_ms == elapsed_ms
    &&& t.completed_at == now
}

/// The termination of a process stopped at its deadline: empty output, the
/// timeout message, the exit code sentinel.
pub open spec fn is_timeout_termination(
    t: Termination,
    stderr: Seq<char>,
    elapsed_ms: u64,
    now: i64,
) -> bool {
    &&& t.status == CommandStatus::TimedOut
    &&& t.stdout matches Some(s) && s@ == Seq::<char>::empty()
    &&& t.stderr@ == stderr
    &&& t.exit_code == NO_EXIT_CODE
    &&& t.execution_time_ms == elapsed_ms
    &&& t.completed_at == now
}

/// How a process that ran to its end terminates its job: `Completed` on exit
/// code zero, `Failed` on any other code or on a signal.
pub fn exited_termination(
    stdout: String,
    stderr: String,
    code: Option<i32>,
    elapsed_ms: u64,
    now: i64,
) -> (r: Termination)
    ensures
        r.wf(),
        is_exited_termination(r, stdout@, stderr@, code, elapsed_ms, now),
{
    let status = match code {
        Some(c) => if c == 0 {
            CommandStatus::Completed
        } else {
            CommandStatus::Failed
        },
        None => CommandStatus::Failed,
    };
    let exit_code = match code {
        Some(c) => c,
        None => NO_EXIT_CODE,
    };
    Termination {
        status,
        stdout: Some(stdout),
        stderr,
        exit_code,
        execution_time_ms: elapsed_ms,
        completed_at: now,
    }
}

/// A `Failed` termination that carries only the error text `message`.
pub fn failure_termination(message: String, elapsed_ms: u64, now: i64) -> (r: Termination)
    ensures
        r.wf(),
        is_error_termination(r, CommandStatus::Failed, message@, elapsed_ms, now),
{
    Termination {
        status: CommandStatus::Failed,
        stdout: None,
        stderr: message,
        exit_code: NO_EXIT_CODE,
        execution_time_ms: elapsed_ms,
        completed_at: now,
    }
}

/// The message of a run whose deadline of `seconds` passed.
pub fn timeout_text(on_vm: bool, seconds: u64) -> (r: String)
    ensures
        r@ == timeout_message(on_vm, seconds as nat),
{
    let mut s = if on_vm {
        String::from_str("Command on VM timed out after ")
    } else {
        String::from_str("Command timed out after ")
    };
    let n = decimal_string(seconds);
    s.append(n.as_str());
    s.append(" seconds");
    s
}

/// The message of a run that could not be started.
pub fn spawn_text(on_vm: bool, detail: &String) -> (r: String)
    ensures
        r@ == spawn_message(on_vm, detail@),
{
    let mut s = if on_vm {
        String::from_str("Failed to execute command on VM: ")
    } else {
        String::from_str("Failed to execute command: ")
    };
    s.append(detail.as_str());
    s
}

/// The termination that a run's outcome gives, on the local host or on a machine.
pub open spec fn is_outcome_termination(
    t: Termination,
    on_vm: bool,
    outcome: ProcessOutcome,
    timeout_seconds: u64,
    elapsed_ms: u64,
    now: i64,
) -> bool {
    match outcome {
        ProcessOutcome::Exited { stdout, stderr, code } => is_exited_termination(
            t,
            lossy_text(stdout@),
            lossy_text(stderr@),
            code,
            elapsed_ms,
            now,
        ),
        ProcessOutcome::SpawnFailed { message } => is_error_termination(
            t,
            CommandStatus::Failed,
            spawn_message(on_vm, message@),
            elapsed_ms,
            now,
        ),
        ProcessOutcome::TimedOut => is_timeout_termination(
            t,
            timeout_message(on_vm, timeout_seconds as nat),
            elapsed_ms,
            now,
        ),
    }
}

/// How a run's outcome terminates its job. Output is decoded as UTF-8, lossily.
pub fn outcome_termination(
    on_vm: bool,
    outcome: ProcessOutcome,
    timeout_seconds: u64,
    elapsed_ms: u64,
    now: i64,
) -> (r: Termination)
    ensures
        r.wf(),
        is_outcome_termination(r, on_vm, outcome, timeout_seconds, elapsed_ms, now),
{
    match outcome {
        ProcessOutcome::Exited { stdout, stderr, code } => {
            let out = decode_lossy(&stdout);
            let err = decode_lossy(&stderr);
            exited_termination(out, err, code, elapsed_ms, now)
        },
        ProcessOutcome::SpawnFailed { message } => {
            let m = spawn_text(on_vm, &message);
            failure_termination(m, elapsed_ms, now)
        },
        ProcessOutcome::TimedOut => {
            let m = timeout_text(on_vm, timeout_seconds);
            let t = Termination {
                status: CommandStatus::TimedOut,
                stdout: Some(String::new()),
                stderr: m,
                exit_code: NO_EXIT_CODE,
                execution_time_ms: elapsed_ms,
                completed_at: now,
            };
            t
        },
    }
}

/// Terminates the job under `id` with what its run produced.
pub fn complete(
    store: &mut JobStore,
    id: &String,
    on_vm: bool,
    outcome: ProcessOutcome,
    timeout_seconds: u64,
    elapsed_ms: u64,
    now: i64,
)
    requires
        old(store).wf(),
    ensures
        final(store).wf(),
        exists|t: Termination|
            is_outcome_termination(t, on_vm, outcome, timeout_seconds, elapsed_ms, now)
                && t.wf() && final(store)@ == finished_in(old(store)@, id@, t),
{
    let t = outcome_termination(on_vm, outcome, timeout_seconds, elapsed_ms, now);
    store.finish(id, t);
}

/// A shell command line to run with `sh -c`, and the process settings around it.
pub struct ShellInvocation {
    pub command_line: String,
    pub working_directory: Option<String>,
    pub environment: Vec<(String, String)>,
}

/// How a local job runs: its command as given, in its directory, with its
/// environment overrides, which an admitted request names once each.
pub fn local_invocation(req: CommandRequest) -> (r: ShellInvocation)
    requires
        req.spec_environment_distinct(),
    ensures
        distinct_keys(r.environment@),
        r.command_line == req.command,
        r.working_directory == req.working_directory,
        r.environment@ == match req.environment {
            Some(e) => e@,
            None => Seq::<(String, String)>::empty(),
        },
{
    let environment = match req.environment {
        Some(e) => e,
        None => Vec::new(),
    };
    ShellInvocation {
        command_line: req.command,
        working_directory: req.working_directory,
        environment,
    }
}

} // verus!
