use command_executor::admission::{
    admit_local, admit_remote, lookup, pending_record, submit_local, submit_remote,
    validate_local, validate_remote, LookupError, RejectReason, SubmitError,
};
use command_executor::executor::{
    complete, exited_termination, failure_termination, local_invocation, outcome_termination,
    spawn_text, timeout_text, ProcessOutcome,
};
use command_executor::record::{CommandRequest, CommandResult, CommandStatus, VmDetails};
use command_executor::remote::{
    apply_resolution, resolution_url, ssh_invocation, ResolveError, VmResponse,
};
use command_executor::store::JobStore;
use command_executor::text::{decimal_string, is_blank, is_running_state, shell_quote};

fn request(command: &str) -> CommandRequest {
    CommandRequest {
        command: command.to_string(),
        task_id: None,
        vm_id: None,
        timeout_seconds: None,
        working_directory: None,
        environment: None,
    }
}

fn vm(state: &str, url: Option<&str>) -> VmDetails {
    VmDetails {
        id: "vm-1".to_string(),
        name: "builder".to_string(),
        state: state.to_string(),
        ip_address: Some("10.0.0.5".to_string()),
        ngrok_url: url.map(|u| u.to_string()),
        ssh_username: Some("ubuntu".to_string()),
        ssh_password: Some("pw".to_string()),
    }
}

fn running_job(store: &mut JobStore, id: &str, command: &str) -> String {
    let id = id.to_string();
    admit_local(store, &request(command), id.clone(), 1_000).unwrap();
    store.mark_running(&id);
    id
}

fn record(store: &JobStore, id: &str) -> CommandResult {
    lookup(store, &id.to_string()).unwrap()
}

#[test]
fn blank_command_is_rejected_and_creates_nothing() {
    let mut store = JobStore::new();
    for cmd in ["", "   ", "\t\n ", "\u{3000}\u{a0}"] {
        let r = submit_local(&mut store, &request(cmd));
        assert_eq!(r.unwrap_err(), SubmitError::InvalidRequest(RejectReason::EmptyCommand));
        let mut remote = request(cmd);
        remote.vm_id = Some("vm-1".to_string());
        let r = submit_remote(&mut store, &remote);
        assert_eq!(r.unwrap_err(), SubmitError::InvalidRequest(RejectReason::EmptyCommand));
    }
    assert_eq!(store.len(), 0);
}

#[test]
fn remote_submission_without_target_is_rejected() {
    let mut store = JobStore::new();
    let r = submit_remote(&mut store, &request("uptime"));
    assert_eq!(r.unwrap_err(), SubmitError::InvalidRequest(RejectReason::MissingTarget));
    assert_eq!(store.len(), 0);
    assert_eq!(validate_remote(&request("uptime")), Err(RejectReason::MissingTarget));
    let mut with_task = request("uptime");
    with_task.task_id = Some("task-9".to_string());
    assert_eq!(validate_remote(&with_task), Ok(()));
}

#[test]
fn validation_messages() {
    assert_eq!(
        SubmitError::InvalidRequest(RejectReason::EmptyCommand).message(),
        "Command cannot be empty"
    );
    assert_eq!(
        SubmitError::InvalidRequest(RejectReason::MissingTarget).message(),
        "Either task_id or vm_id is required"
    );
    assert_eq!(SubmitError::DuplicateId.message(), "Job id already in use");
    assert_eq!(validate_local(&request(" ls ")), Ok(()));
}

#[test]
fn submission_files_a_pending_record() {
    let mut store = JobStore::new();
    let mut req = request("echo hello");
    req.task_id = Some("task-1".to_string());
    let rec = submit_local(&mut store, &req).unwrap();
    assert_eq!(rec.id.len(), 36);
    assert_eq!(rec.id.matches('-').count(), 4);
    assert_eq!(rec.status, CommandStatus::Pending);
    assert_eq!(rec.command, "echo hello");
    assert_eq!(rec.task_id.as_deref(), Some("task-1"));
    assert!(rec.stdout.is_none() && rec.stderr.is_none() && rec.exit_code.is_none());
    assert!(rec.completed_at.is_none() && rec.execution_time_ms.is_none());
    assert!(rec.created_at > 0);
    assert_eq!(store.len(), 1);
    let again = record(&store, &rec.id);
    assert_eq!(again.id, rec.id);
    assert_eq!(again.status, CommandStatus::Pending);
}

#[test]
fn each_submission_gets_its_own_id() {
    let mut store = JobStore::new();
    let a = submit_local(&mut store, &request("true")).unwrap();
    let b = submit_local(&mut store, &request("true")).unwrap();
    assert_ne!(a.id, b.id);
    assert_eq!(store.len(), 2);
}

#[test]
fn an_id_in_use_is_not_reused() {
    let mut store = JobStore::new();
    admit_local(&mut store, &request("a"), "job".to_string(), 5).unwrap();
    let r = admit_local(&mut store, &request("b"), "job".to_string(), 6);
    assert_eq!(r.unwrap_err(), SubmitError::DuplicateId);
    assert_eq!(record(&store, "job").command, "a");
    assert_eq!(record(&store, "job").created_at, 5);
}

#[test]
fn lookup_of_unknown_id_is_not_found() {
    let mut store = JobStore::new();
    assert_eq!(lookup(&store, &"nope".to_string()).unwrap_err(), LookupError::NotFound);
    running_job(&mut store, "known", "ls");
    assert_eq!(lookup(&store, &"nope".to_string()).unwrap_err(), LookupError::NotFound);
    assert_eq!(record(&store, "known").id, "known");
}

#[test]
fn echo_hello_completes() {
    let mut store = JobStore::new();
    let id = running_job(&mut store, "j1", "echo hello");
    assert_eq!(record(&store, &id).status, CommandStatus::Running);
    let outcome = ProcessOutcome::Exited {
        stdout: b"hello\n".to_vec(),
        stderr: Vec::new(),
        code: Some(0),
    };
    complete(&mut store, &id, false, outcome, 60, 12, 2_000);
    let r = record(&store, &id);
    assert_eq!(r.status, CommandStatus::Completed);
    assert_eq!(r.exit_code, Some(0));
    assert!(r.stdout.as_deref().unwrap().contains("hello"));
    assert_eq!(r.stderr.as_deref(), Some(""));
    assert_eq!(r.execution_time_ms, Some(12));
    assert_eq!(r.completed_at, Some(2_000));
}

#[test]
fn sleep_past_its_timeout_times_out() {
    let mut store = JobStore::new();
    let mut req = request("sleep 5");
    req.timeout_seconds = Some(1);
    admit_local(&mut store, &req, "j2".to_string(), 0).unwrap();
    let id = "j2".to_string();
    store.mark_running(&id);
    complete(&mut store, &id, false, ProcessOutcome::TimedOut, req.timeout(), 1_003, 1_003);
    let r = record(&store, &id);
    assert_eq!(r.status, CommandStatus::TimedOut);
    assert_eq!(r.exit_code, Some(-1));
    assert_eq!(r.stdout.as_deref(), Some(""));
    assert_eq!(r.stderr.as_deref(), Some("Command timed out after 1 seconds"));
    let elapsed = r.execution_time_ms.unwrap();
    assert!(elapsed >= 1_000 && elapsed < 5_000);
}

#[test]
fn nonzero_exit_and_signal_fail() {
    let t = exited_termination("".to_string(), "boom".to_string(), Some(2), 1, 2);
    assert_eq!(t.status, CommandStatus::Failed);
    assert_eq!(t.exit_code, 2);
    assert_eq!(t.stderr, "boom");
    let t = exited_termination("out".to_string(), "".to_string(), None, 1, 2);
    assert_eq!(t.status, CommandStatus::Failed);
    assert_eq!(t.exit_code, -1);
    assert_eq!(t.stdout.as_deref(), Some("out"));
}

#[test]
fn spawn_failure_has_no_output() {
    let outcome = ProcessOutcome::SpawnFailed { message: "No such file".to_string() };
    let t = outcome_termination(false, outcome, 60, 3, 4);
    assert_eq!(t.status, CommandStatus::Failed);
    assert_eq!(t.stdout, None);
    assert_eq!(t.exit_code, -1);
    assert_eq!(t.stderr, "Failed to execute command: No such file");
    assert_eq!(spawn_text(true, &"x".to_string()), "Failed to execute command on VM: x");
}

#[test]
fn output_is_decoded_lossily() {
    let outcome = ProcessOutcome::Exited {
        stdout: vec![0x68, 0x69, 0xff],
        stderr: "é".as_bytes().to_vec(),
        code: Some(0),
    };
    let t = outcome_termination(false, outcome, 60, 0, 0);
    assert_eq!(t.stdout.as_deref(), Some("hi\u{fffd}"));
    assert_eq!(t.stderr, "é");
}

#[test]
fn timeout_messages() {
    assert_eq!(timeout_text(false, 60), "Command timed out after 60 seconds");
    assert_eq!(timeout_text(true, 7), "Command on VM timed out after 7 seconds");
    assert_eq!(request("x").timeout(), 60);
}

#[test]
fn status_never_moves_back() {
    let mut store = JobStore::new();
    let id = running_job(&mut store, "j3", "ls");
    store.finish(&id, failure_termination("first".to_string(), 5, 6));
    store.mark_running(&id);
    store.finish(&id, exited_termination("x".to_string(), "".to_string(), Some(0), 7, 8));
    store.attach_vm(&id, vm("running", None));
    let r = record(&store, &id);
    assert_eq!(r.status, CommandStatus::Failed);
    assert_eq!(r.stderr.as_deref(), Some("first"));
    assert_eq!(r.completed_at, Some(6));
    assert!(r.vm_details.is_none());
}

#[test]
fn pending_job_may_terminate_directly() {
    let mut store = JobStore::new();
    admit_local(&mut store, &request("ls"), "p".to_string(), 0).unwrap();
    store.finish(&"p".to_string(), failure_termination("gone".to_string(), 0, 1));
    assert_eq!(record(&store, "p").status, CommandStatus::Failed);
}

#[test]
fn jobs_do_not_share_output() {
    let mut store = JobStore::new();
    let ids: Vec<String> = (0..8).map(|i| running_job(&mut store, &format!("job-{}", i), "echo")).collect();
    for (i, id) in ids.iter().enumerate().rev() {
        let outcome = ProcessOutcome::Exited {
            stdout: format!("out {}", i).into_bytes(),
            stderr: format!("err {}", i).into_bytes(),
            code: Some(i as i32),
        };
        complete(&mut store, id, false, outcome, 60, i as u64, i as i64);
    }
    assert_eq!(store.len(), 8);
    for (i, id) in ids.iter().enumerate() {
        let r = record(&store, id);
        assert_eq!(r.id, *id);
        assert_eq!(r.stdout, Some(format!("out {}", i)));
        assert_eq!(r.stderr, Some(format!("err {}", i)));
        assert_eq!(r.exit_code, Some(i as i32));
        let want = if i == 0 { CommandStatus::Completed } else { CommandStatus::Failed };
        assert_eq!(r.status, want);
    }
}

#[test]
fn unknown_id_updates_change_nothing() {
    let mut store = JobStore::new();
    let id = running_job(&mut store, "a", "ls");
    let other = "b".to_string();
    store.mark_running(&other);
    store.finish(&other, failure_termination("x".to_string(), 0, 0));
    store.update(&other, |c| c);
    assert_eq!(store.len(), 1);
    assert_eq!(record(&store, &id).status, CommandStatus::Running);
    assert!(!store.contains(&other));
}

#[test]
fn update_applies_the_mutator() {
    let mut store = JobStore::new();
    let id = running_job(&mut store, "u", "ls");
    store.update(&id, |mut c| {
        c.task_id = Some("t".to_string());
        c
    });
    assert_eq!(record(&store, &id).task_id.as_deref(), Some("t"));
}

#[test]
fn put_overwrites() {
    let mut store = JobStore::new();
    let req = request("one");
    store.put(pending_record("k".to_string(), &req, 1));
    store.put(pending_record("k".to_string(), &request("two"), 2));
    assert_eq!(store.len(), 1);
    assert_eq!(record(&store, "k").command, "two");
    assert!(store.get(&"x".to_string()).is_none());
}

#[test]
fn stopped_vm_fails_without_running() {
    let mut store = JobStore::new();
    let mut req = request("uptime");
    req.vm_id = Some("vm-1".to_string());
    admit_remote(&mut store, &req, "r1".to_string(), 0).unwrap();
    let id = "r1".to_string();
    store.mark_running(&id);
    let inv = apply_resolution(&mut store, &id, &req.command, Ok(vm("stopped", Some("tcp://h:1"))), 9, 10);
    assert!(inv.is_none());
    let r = record(&store, &id);
    assert_eq!(r.status, CommandStatus::Failed);
    assert_eq!(r.stderr.as_deref(), Some("VM is not running: stopped"));
    assert_eq!(r.exit_code, Some(-1));
    assert_eq!(r.stdout, None);
    assert_eq!(r.execution_time_ms, Some(9));
    assert_eq!(r.vm_details.unwrap().state, "stopped");
    assert_eq!(r.vm_id.as_deref(), Some("vm-1"));
}

#[test]
fn vm_without_endpoint_fails_without_running() {
    let mut store = JobStore::new();
    let id = running_job(&mut store, "r2", "uptime");
    let inv = apply_resolution(&mut store, &id, &"uptime".to_string(), Ok(vm("RUNNING", None)), 1, 2);
    assert!(inv.is_none());
    let r = record(&store, &id);
    assert_eq!(r.status, CommandStatus::Failed);
    assert_eq!(r.stderr.as_deref(), Some("VM does not have an ngrok URL"));
    assert_eq!(r.exit_code, Some(-1));
}

#[test]
fn failed_resolution_fails_the_job() {
    let mut store = JobStore::new();
    let id = running_job(&mut store, "r3", "uptime");
    let err = ResolveError::Status("404 Not Found".to_string());
    let inv = apply_resolution(&mut store, &id, &"uptime".to_string(), Err(err), 4, 5);
    assert!(inv.is_none());
    let r = record(&store, &id);
    assert_eq!(r.status, CommandStatus::Failed);
    assert_eq!(
        r.stderr.as_deref(),
        Some("Failed to get VM details: VM Manager returned error: 404 Not Found")
    );
    assert!(r.vm_details.is_none());
    assert_eq!(
        ResolveError::Connect("refused".to_string()).message(),
        "Failed to connect to VM Manager: refused"
    );
    assert_eq!(
        ResolveError::Parse("eof".to_string()).message(),
        "Failed to parse VM response: eof"
    );
}

#[test]
fn running_vm_gets_an_ssh_invocation() {
    let mut store = JobStore::new();
    let id = running_job(&mut store, "r4", "echo 'hi'");
    let inv = apply_resolution(
        &mut store,
        &id,
        &"echo 'hi'".to_string(),
        Ok(vm("Running", Some("tcp://0.tcp.ngrok.io:1234"))),
        0,
        0,
    )
    .unwrap();
    assert_eq!(
        inv.command_line,
        "sshpass -e ssh -o StrictHostKeyChecking=no -o UserKnownHostsFile=/dev/null -l 'ubuntu' 'tcp://0.tcp.ngrok.io:1234' 'echo '\\''hi'\\'''"
    );
    assert_eq!(inv.environment, vec![("SSHPASS".to_string(), "pw".to_string())]);
    assert!(inv.working_directory.is_none());
    let r = record(&store, &id);
    assert_eq!(r.status, CommandStatus::Running);
    assert_eq!(r.vm_details.unwrap().id, "vm-1");
}

#[test]
fn ssh_defaults_when_credentials_missing() {
    let mut v = vm("running", Some("h"));
    v.ssh_username = None;
    v.ssh_password = None;
    let inv = ssh_invocation(&v, &"h".to_string(), &"ls".to_string());
    assert!(inv.command_line.ends_with("-l 'agent' 'h' 'ls'"));
    assert_eq!(inv.environment, vec![("SSHPASS".to_string(), "".to_string())]);
}

#[test]
fn resolution_urls() {
    let base = "http://vm-manager:8083".to_string();
    let mut req = request("ls");
    assert_eq!(resolution_url(&base, &req), None);
    req.task_id = Some("t7".to_string());
    assert_eq!(resolution_url(&base, &req).as_deref(), Some("http://vm-manager:8083/tasks/t7/vm"));
    req.vm_id = Some("v3".to_string());
    assert_eq!(resolution_url(&base, &req).as_deref(), Some("http://vm-manager:8083/vms/v3"));
}

#[test]
fn vm_response_becomes_details() {
    let resp = VmResponse {
        id: "v".to_string(),
        name: "n".to_string(),
        state: "running".to_string(),
        ip_address: None,
        ngrok_url: Some("u".to_string()),
        task_id: Some("t".to_string()),
        ssh_username: "root".to_string(),
        ssh_password: "s".to_string(),
    };
    let d = resp.into_details();
    assert_eq!(d.ssh_username.as_deref(), Some("root"));
    assert_eq!(d.ssh_password.as_deref(), Some("s"));
    assert_eq!(d.ngrok_url.as_deref(), Some("u"));
}

#[test]
fn local_invocation_keeps_settings() {
    let mut req = request("pwd");
    req.working_directory = Some("/tmp".to_string());
    req.environment = Some(vec![("A".to_string(), "1".to_string())]);
    let inv = local_invocation(req);
    assert_eq!(inv.command_line, "pwd");
    assert_eq!(inv.working_directory.as_deref(), Some("/tmp"));
    assert_eq!(inv.environment, vec![("A".to_string(), "1".to_string())]);
    assert!(local_invocation(request("ls")).environment.is_empty());
}

#[test]
fn text_helpers() {
    assert!(is_blank(""));
    assert!(is_blank(" \t\r\n\u{85}\u{2028}"));
    assert!(!is_blank(" a "));
    assert!(is_running_state(&"RUNNING".to_string()));
    assert!(is_running_state(&"running".to_string()));
    assert!(!is_running_state(&"Run".to_string()));
    assert_eq!(decimal_string(0), "0");
    assert_eq!(decimal_string(1234), "1234");
    assert_eq!(decimal_string(u64::MAX), u64::MAX.to_string());
    assert_eq!(shell_quote("it's"), "'it'\\''s'");
    assert_eq!(shell_quote(""), "''");
}

#[test]
fn missing_target_resolution_message() {
    assert_eq!(ResolveError::NoTarget.message(), "Either task_id or vm_id is required");
}

#[test]
fn repeated_environment_variable_is_rejected() {
    let mut store = JobStore::new();
    let mut req = request("env");
    req.environment = Some(vec![
        ("A".to_string(), "1".to_string()),
        ("B".to_string(), "2".to_string()),
        ("A".to_string(), "3".to_string()),
    ]);
    assert!(!req.environment_distinct());
    let r = submit_local(&mut store, &req);
    assert_eq!(r.unwrap_err(), SubmitError::InvalidRequest(RejectReason::DuplicateEnvironmentKey));
    req.vm_id = Some("vm".to_string());
    assert_eq!(validate_remote(&req), Err(RejectReason::DuplicateEnvironmentKey));
    assert_eq!(store.len(), 0);
    assert_eq!(
        SubmitError::InvalidRequest(RejectReason::DuplicateEnvironmentKey).message(),
        "Environment variable names must be distinct"
    );
    req.environment = Some(vec![("A".to_string(), "1".to_string()), ("B".to_string(), "1".to_string())]);
    assert!(req.environment_distinct());
    assert!(submit_local(&mut store, &req).is_ok());
}

#[test]
fn remote_timeout_keeps_empty_output() {
    let t = outcome_termination(true, ProcessOutcome::TimedOut, 3, 3_000, 9);
    assert_eq!(t.status, CommandStatus::TimedOut);
    assert_eq!(t.stdout.as_deref(), Some(""));
    assert_eq!(t.stderr, "Command on VM timed out after 3 seconds");
    assert_eq!(t.exit_code, -1);
}

#[test]
fn valid_submission_into_empty_store_succeeds() {
    let mut store = JobStore::new();
    let mut req = request("ls");
    req.task_id = Some("t".to_string());
    assert!(submit_local(&mut store, &req).is_ok());
    assert!(submit_remote(&mut store, &req).is_ok());
    assert_eq!(store.len(), 2);
}
