//! Remote execution: finding the machine behind a task or machine id, deciding
//! whether it can take the command, and the SSH command line that relays it.

use vstd::prelude::*;
use crate::executor::{failure_termination, is_error_termination, ShellInvocation};
use crate::record::{copy_opt, CommandRequest, CommandResult, CommandStatus, Termination, VmDetails};
use crate::store::{attached_in, finished_in, JobStore};
use crate::text::{is_running_state, lower_of, running_word, shell_quote, shell_quoted};

verus! {

/// Why the fleet service could not describe the target machine.
pub enum ResolveError {
    /// The request names neither a task nor a machine.
    NoTarget,
    /// The request did not reach the service or got no answer.
    Connect(String),
    /// The service answered with a status other than success; the status text.
    Status(String),
    /// The answer was not a machine description.
    Parse(String),
}

impl ResolveError {
    pub open spec fn spec_message(&self) -> Seq<char> {
        match self {
            ResolveError::NoTarget => "Either task_id or vm_id is required"@,
            ResolveError::Connect(d) => "Failed to connect to VM Manager: "@ + d@,
            ResolveError::Status(d) => "VM Manager returned error: "@ + d@,
            ResolveError::Parse(d) => "Failed to parse VM response: "@ + d@,
        }
    }

    /// The diagnostic text of this error.
    pub fn message(&self) -> (r: String)
        ensures
            r@ == self.spec_message(),
    {
        let (mut s, d) = match self {
            ResolveError::NoTarget => {
                return String::from_str("Either task_id or vm_id is required");
            },
            ResolveError::Connect(d) => (String::from_str("Failed to connect to VM Manager: "), d),
            ResolveError::Status(d) => (String::from_str("VM Manager returned error: "), d),
            ResolveError::Parse(d) => (String::from_str("Failed to parse VM response: "), d),
        };
        s.append(d.as_str());
        s
    }
}

/// A machine as the fleet service describes it.
#[derive(Clone, Debug)]
pub struct VmResponse {
    pub id: String,
    pub name: String,
    pub state: String,
    pub ip_address: Option<String>,
    pub ngrok_url: Option<String>,
    pub task_id: Option<String>,
    pub ssh_username: String,
    pub ssh_password: String,
}

impl VmResponse {
    /// The descriptor a job keeps of this machine.
    pub fn into_details(self) -> (r: VmDetails)
        ensures
            r == (VmDetails {
                id: self.id,
                name: self.name,
                state: self.state,
                ip_address: self.ip_address,
                ngrok_url: self.ngrok_url,
                ssh_username: Some(self.ssh_username),
                ssh_password: Some(self.ssh_password),
            }),
    {
        VmDetails {
            id: self.id,
            name: self.name,
            state: self.state,
            ip_address: self.ip_address,
            ngrok_url: self.ngrok_url,
            ssh_username: Some(self.ssh_username),
            ssh_password: Some(self.ssh_password),
        }
    }
}

/// The fleet service address that describes the request's target: by machine id
/// when one is given, else the machine bound to the task; none without either.
pub open spec fn resolution_address(base: Seq<char>, req: CommandRequest) -> Option<Seq<char>> {
    match req.vm_id {
        Some(v) => Some(base + "/vms/"@ + v@),
        None => match req.task_id {
            Some(t) => Some(base + "/tasks/"@ + t@ + "/vm"@),
            None => None,
        },
    }
}

/// The address to ask the fleet service at `base` about the request's target.
pub fn resolution_url(base: &String, req: &CommandRequest) -> (r: Option<String>)
    ensures
        match resolution_address(base@, *req) {
            Some(a) => r matches Some(u) && u@ == a,
            None => r is None,
        },
{
    match &req.vm_id {
        Some(v) => {
            let mut u = base.clone();
            u.append("/vms/");
            u.append(v.as_str());
            Some(u)
        },
        None => match &req.task_id {
            Some(t) => {
                let mut u = base.clone();
                u.append("/tasks/");
                u.append(t.as_str());
                u.append("/vm");
                Some(u)
            },
            None => None,
        },
    }
}

/// The user to log in as: the machine's, else `agent`.
pub open spec fn ssh_user(vm: VmDetails) -> Seq<char> {
    match vm.ssh_username {
        Some(u) => u@,
        None => "agent"@,
    }
}

/// The password to log in with: the machine's, else blank.
pub open spec fn ssh_secret(vm: VmDetails) -> Seq<char> {
    match vm.ssh_password {
        Some(p) => p@,
        None => Seq::empty(),
    }
}

/// The command line that runs `command` on the machine behind `endpoint`. The
/// password travels in the environment, never on the command line.
pub open spec fn ssh_command_line(user: Seq<char>, endpoint: Seq<char>, command: Seq<char>) -> Seq<
    char,
> {
    "sshpass -e ssh -o StrictHostKeyChecking=no -o UserKnownHostsFile=/dev/null -l "@
        + shell_quoted(user) + " "@ + shell_quoted(endpoint) + " "@ + shell_quoted(command)
}

/// The one environment variable `sshpass -e` reads the password from.
pub open spec fn is_ssh_environment(env: Seq<(String, String)>, secret: Seq<char>) -> bool {
    &&& env.len() == 1
    &&& env[0].0@ == "SSHPASS"@
    &&& env[0].1@ == secret
}

/// How a command runs on a machine reached through `endpoint`.
pub fn ssh_invocation(vm: &VmDetails, endpoint: &String, command: &String) -> (r:
    ShellInvocation)
    ensures
        r.command_line@ == ssh_command_line(ssh_user(*vm), endpoint@, command@),
        r.working_directory is None,
        is_ssh_environment(r.environment@, ssh_secret(*vm)),
{
    let user = match &vm.ssh_username {
        Some(u) => shell_quote(u.as_str()),
        None => shell_quote("agent"),
    };
    let secret = match &vm.ssh_password {
        Some(p) => p.clone(),
        None => String::new(),
    };
    let mut line = String::from_str(
        "sshpass -e ssh -o StrictHostKeyChecking=no -o UserKnownHostsFile=/dev/null -l ",
    );
    line.append(user.as_str());
    line.append(" ");
    line.append(shell_quote(endpoint.as_str()).as_str());
    line.append(" ");
    line.append(shell_quote(command.as_str()).as_str());
    let mut environment: Vec<(String, String)> = Vec::new();
    environment.push((String::from_str("SSHPASS"), secret));
    ShellInvocation { command_line: line, working_directory: None, environment }
}

pub open spec fn resolution_failure_message(e: ResolveError) -> Seq<char> {
    "Failed to get VM details: "@ + e.spec_message()
}

pub open spec fn not_running_message(state: Seq<char>) -> Seq<char> {
    "VM is not running: "@ + state
}

pub open spec fn no_endpoint_message() -> Seq<char> {
    "VM does not have an ngrok URL"@
}

/// `after` is `before` with the job under `id` failed, carrying only the error text `message`.
pub open spec fn fails_with(
    before: Map<Seq<char>, CommandResult>,
    after: Map<Seq<char>, CommandResult>,
    id: Seq<char>,
    message: Seq<char>,
    elapsed_ms: u64,
    now: i64,
) -> bool {
    exists|t: Termination|
        t.wf() && is_error_termination(t, CommandStatus::Failed, message, elapsed_ms, now)
            && after == #[trigger] finished_in(before, id, t)
}

/// What the remote executor does once the target is resolved, or not: a failed
/// resolution, a machine that is not running, or one without a tunnel endpoint
/// fails the job at once and nothing runs; otherwise the machine is recorded on
/// the job and the SSH invocation to run is returned.
pub fn apply_resolution(
    store: &mut JobStore,
    id: &String,
    command: &String,
    resolution: Result<VmDetails, ResolveError>,
    elapsed_ms: u64,
    now: i64,
) -> (r: Option<ShellInvocation>)
    requires
        old(store).wf(),
    ensures
        final(store).wf(),
        match resolution {
            Err(e) => r is None && fails_with(
                old(store)@,
                final(store)@,
                id@,
                resolution_failure_message(e),
                elapsed_ms,
                now,
            ),
            Ok(vm) => {
                let attached = attached_in(old(store)@, id@, vm);
                if lower_of(vm.state@) != running_word() {
                    r is None && fails_with(
                        attached,
                        final(store)@,
                        id@,
                        not_running_message(vm.state@),
                        elapsed_ms,
                        now,
                    )
                } else if vm.ngrok_url is None {
                    r is None && fails_with(
                        attached,
                        final(store)@,
                        id@,
                        no_endpoint_message(),
                        elapsed_ms,
                        now,
                    )
                } else {
                    &&& final(store)@ == attached
                    &&& r matches Some(inv) && inv.command_line@ == ssh_command_line(
                        ssh_user(vm),
                        vm.ngrok_url->Some_0@,
                        command@,
                    ) && inv.working_directory is None && is_ssh_environment(
                        inv.environment@,
                        ssh_secret(vm),
                    )
                }
            },
        },
{
    match resolution {
        Err(e) => {
            let mut m = String::from_str("Failed to get VM details: ");
            m.append(e.message().as_str());
            let t = failure_termination(m, elapsed_ms, now);
            store.finish(id, t);
            None
        },
        Ok(vm) => {
            let running = is_running_state(&vm.state);
            let endpoint = copy_opt(&vm.ngrok_url);
            if !running {
                let mut m = String::from_str("VM is not running: ");
                m.append(vm.state.as_str());
                store.attach_vm(id, vm);
                let t = failure_termination(m, elapsed_ms, now);
                store.finish(id, t);
                None
            } else {
                match endpoint {
                    None => {
                        store.attach_vm(id, vm);
                        let t = failure_termination(
                            String::from_str("VM does not have an ngrok URL"),
                            elapsed_ms,
                            now,
                        );
                        store.finish(id, t);
                        None
                    },
                    Some(url) => {
                        let inv = ssh_invocation(&vm, &url, command);
                        store.attach_vm(id, vm);
                        Some(inv)
                    },
                }
            }
        },
    }
}

} // verus!
