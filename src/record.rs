//! Job records, their lifecycle states, and the machine descriptor a remote job carries.

use vstd::prelude::*;

verus! {

/// Where a job stands in its lifecycle: `Pending`, then `Running`, then one
/// of the three terminal states.
#[derive(Clone, Copy, Debug, PartialEq, Eq, Structural)]
pub enum CommandStatus {
    Pending,
    Running,
    Completed,
    Failed,
    TimedOut,
}

impl CommandStatus {
    /// Position along the lifecycle: 0 pending, 1 running, 2 terminal.
    pub open spec fn rank(self) -> nat {
        match self {
            CommandStatus::Pending => 0,
            CommandStatus::Running => 1,
            _ => 2,
        }
    }

    pub open spec fn spec_is_terminal(&self) -> bool {
        self.rank() == 2
    }

    /// Whether no further transition can leave this state.
    #[verifier::when_used_as_spec(spec_is_terminal)]
    pub fn is_terminal(&self) -> (r: bool)
        ensures
            r == self.spec_is_terminal(),
    {
        match self {
            CommandStatus::Pending | CommandStatus::Running => false,
            _ => true,
        }
    }
}

/// A snapshot of a virtual machine as the fleet service described it.
#[derive(Clone, Debug)]
pub struct VmDetails {
    pub id: String,
    pub name: String,
    pub state: String,
    pub ip_address: Option<String>,
    pub ngrok_url: Option<String>,
    pub ssh_username: Option<String>,
    pub ssh_password: Option<String>,
}

/// A copy of an optional string.
pub fn copy_opt(o: &Option<String>) -> (r: Option<String>)
    ensures
        r == *o,
{
    match o {
        Some(s) => Some(s.clone()),
        None => None,
    }
}

impl VmDetails {
    /// A field-for-field copy.
    pub fn snapshot(&self) -> (r: VmDetails)
        ensures
            r == *self,
    {
        VmDetails {
            id: self.id.clone(),
            name: self.name.clone(),
            state: self.state.clone(),
            ip_address: copy_opt(&self.ip_address),
            ngrok_url: copy_opt(&self.ngrok_url),
            ssh_username: copy_opt(&self.ssh_username),
            ssh_password: copy_opt(&self.ssh_password),
        }
    }
}

/// A submission: the command and how and where to run it.
#[derive(Clone, Debug)]
pub struct CommandRequest {
    pub command: String,
    pub task_id: Option<String>,
    pub vm_id: Option<String>,
    pub timeout_seconds: Option<u64>,
    pub working_directory: Option<String>,
    pub environment: Option<Vec<(String, String)>>,
}

/// No variable name appears twice among the environment overrides.
pub open spec fn distinct_keys(env: Seq<(String, String)>) -> bool {
    forall|i: int, j: int| 0 <= i < j < env.len() ==> #[trigger] env[i].0@ != #[trigger] env[j].0@
}

/// The timeout applied when a request names none, in seconds.
pub const DEFAULT_TIMEOUT_SECONDS: u64 = 60;

impl CommandRequest {
    pub open spec fn spec_timeout(&self) -> u64 {
        match self.timeout_seconds {
            Some(t) => t,
            None => DEFAULT_TIMEOUT_SECONDS,
        }
    }

    /// The environment overrides, if any, name each variable once.
    pub open spec fn spec_environment_distinct(&self) -> bool {
        match self.environment {
            Some(e) => distinct_keys(e@),
            None => true,
        }
    }

    /// Whether the environment overrides, if any, name each variable once.
    #[verifier::when_used_as_spec(spec_environment_distinct)]
    pub fn environment_distinct(&self) -> (r: bool)
        ensures
            r == self.spec_environment_distinct(),
    {
        match &self.environment {
            None => true,
            Some(env) => {
                let n = env.len();
                let mut j: usize = 1;
                while j < n
                    invariant
                        self.environment == Some(*env),
                        n == env@.len(),
                        1 <= j <= n || n == 0,
                        forall|a: int, b: int|
                            0 <= a < b < j && b < n ==> #[trigger] env@[a].0@
                                != #[trigger] env@[b].0@,
                    decreases n - j,
                {
                    let mut i: usize = 0;
                    while i < j
                        invariant
                            self.environment == Some(*env),
                            n == env@.len(),
                            j < n,
                            i <= j,
                            forall|a: int| 0 <= a < i ==> #[trigger] env@[a].0@ != env@[j as int].0@,
                        decreases j - i,
                    {
                        if env[i].0 == env[j].0 {
                            assert(!distinct_keys(env@)) by {
                                assert(env@[i as int].0@ == env@[j as int].0@);
                            }
                            return false;
                        }
                        i = i + 1;
                    }
                    j = j + 1;
                }
                true
            },
        }
    }

    /// The timeout to enforce, in seconds.
    #[verifier::when_used_as_spec(spec_timeout)]
    pub fn timeout(&self) -> (r: u64)
        ensures
            r == self.spec_timeout(),
    {
        match self.timeout_seconds {
            Some(t) => t,
            None => DEFAULT_TIMEOUT_SECONDS,
        }
    }
}

/// How a job ended: the fields filled in on entry to a terminal state.
pub struct Termination {
    pub status: CommandStatus,
    pub stdout: Option<String>,
    pub stderr: String,
    pub exit_code: i32,
    pub execution_time_ms: u64,
    pub completed_at: i64,
}

impl Termination {
    /// The state is terminal, and output is missing only where no process was
    /// started: a spawn failure, or a remote job that failed before its command
    /// was relayed. Such a termination is a failure with the exit code sentinel.
    pub open spec fn wf(&self) -> bool {
        &&& self.status.spec_is_terminal()
        &&& self.stdout is None ==> self.exit_code == NO_EXIT_CODE && self.status
            == CommandStatus::Failed
    }
}

/// Everything known about one job. Timestamps are milliseconds since the Unix epoch.
#[derive(Clone, Debug)]
pub struct CommandResult {
    pub id: String,
    pub task_id: Option<String>,
    pub vm_id: Option<String>,
    pub command: String,
    pub status: CommandStatus,
    pub stdout: Option<String>,
    pub stderr: Option<String>,
    pub exit_code: Option<i32>,
    pub execution_time_ms: Option<u64>,
    pub created_at: i64,
    pub completed_at: Option<i64>,
    pub vm_details: Option<VmDetails>,
}

/// The exit code recorded when no process exit code is available.
pub const NO_EXIT_CODE: i32 = -1;

impl CommandResult {
    /// The fields filled on termination are set exactly when the job is terminal.
    /// Output is missing only where no process was started: a spawn failure, or a
    /// remote job that failed before its command was relayed (a failed lookup, a
    /// machine that is not running, a missing tunnel endpoint). Such a job has
    /// failed, with the exit code sentinel.
    pub open spec fn wf(&self) -> bool {
        if self.status.spec_is_terminal() {
            &&& self.stderr is Some
            &&& self.exit_code is Some
            &&& self.execution_time_ms is Some
            &&& self.completed_at is Some
            &&& self.stdout is None ==> self.exit_code == Some(NO_EXIT_CODE)
                && self.status == CommandStatus::Failed
        } else {
            &&& self.stdout is None
            &&& self.stderr is None
            &&& self.exit_code is None
            &&& self.execution_time_ms is None
            &&& self.completed_at is None
        }
    }

    /// A field-for-field copy.
    pub fn snapshot(&self) -> (r: CommandResult)
        ensures
            r == *self,
    {
        CommandResult {
            id: self.id.clone(),
            task_id: copy_opt(&self.task_id),
            vm_id: copy_opt(&self.vm_id),
            command: self.command.clone(),
            status: self.status,
            stdout: copy_opt(&self.stdout),
            stderr: copy_opt(&self.stderr),
            exit_code: self.exit_code,
            execution_time_ms: self.execution_time_ms,
            created_at: self.created_at,
            completed_at: self.completed_at,
            vm_details: match &self.vm_details {
                Some(v) => Some(v.snapshot()),
                None => None,
            },
        }
    }
}

/// `b` is a later state of the same job as `a`: identity and submission are kept,
/// the status has not moved back, and a terminal record is never changed.
pub open spec fn advances(a: CommandResult, b: CommandResult) -> bool {
    &&& b.id == a.id
    &&& b.task_id == a.task_id
    &&& b.command == a.command
    &&& b.created_at == a.created_at
    &&& a.status.rank() <= b.status.rank()
    &&& a.status.spec_is_terminal() ==> b == a
}

impl CommandResult {
    pub open spec fn spec_started(self) -> CommandResult {
        if self.status == CommandStatus::Pending {
            CommandResult { status: CommandStatus::Running, ..self }
        } else {
            self
        }
    }

    /// The record once its executor has picked it up: a pending job becomes running;
    /// any other is left as it is.
    #[verifier::when_used_as_spec(spec_started)]
    pub fn started(self) -> (r: CommandResult)
        ensures
            r == self.spec_started(),
    {
        if self.status == CommandStatus::Pending {
            CommandResult { status: CommandStatus::Running, ..self }
        } else {
            self
        }
    }

    pub open spec fn spec_with_vm(self, vm: VmDetails) -> CommandResult {
        if self.status.spec_is_terminal() {
            self
        } else {
            CommandResult { vm_id: Some(vm.id), vm_details: Some(vm), ..self }
        }
    }

    /// The record with the machine it targets filled in; a terminal record is left as it is.
    #[verifier::when_used_as_spec(spec_with_vm)]
    pub fn with_vm(self, vm: VmDetails) -> (r: CommandResult)
        ensures
            r == self.spec_with_vm(vm),
    {
        if self.status.is_terminal() {
            self
        } else {
            let vm_id = vm.id.clone();
            CommandResult { vm_id: Some(vm_id), vm_details: Some(vm), ..self }
        }
    }

    pub open spec fn spec_terminated(self, t: Termination) -> CommandResult {
        if self.status.spec_is_terminal() {
            self
        } else {
            CommandResult {
                status: t.status,
                stdout: t.stdout,
                stderr: Some(t.stderr),
                exit_code: Some(t.exit_code),
                execution_time_ms: Some(t.execution_time_ms),
                completed_at: Some(t.completed_at),
                ..self
            }
        }
    }

    /// The record with the outcome `t` filled in, all at once; a terminal record
    /// is left as it is.
    #[verifier::when_used_as_spec(spec_terminated)]
    pub fn terminated(self, t: Termination) -> (r: CommandResult)
        ensures
            r == self.spec_terminated(t),
    {
        if self.status.is_terminal() {
            self
        } else {
            CommandResult {
                status: t.status,
                stdout: t.stdout,
                stderr: Some(t.stderr),
                exit_code: Some(t.exit_code),
                execution_time_ms: Some(t.execution_time_ms),
                completed_at: Some(t.completed_at),
                ..self
            }
        }
    }
}

} // verus!
