//! Admitting jobs: validation, the initial pending record, and lookups.

use vstd::prelude::*;
use crate::record::{copy_opt, CommandRequest, CommandResult, CommandStatus};
use crate::store::JobStore;
use crate::text::{is_blank, is_blank_seq};

verus! {

/// What makes a submission invalid.
#[derive(Clone, Copy, Debug, PartialEq, Eq, Structural)]
pub enum RejectReason {
    /// The command is empty or white space only.
    EmptyCommand,
    /// A remote submission names neither a task nor a machine.
    MissingTarget,
    /// The environment overrides name some variable twice.
    DuplicateEnvironmentKey,
}

/// Why a submission created no job.
#[derive(Clone, Copy, Debug, PartialEq, Eq, Structural)]
pub enum SubmitError {
    /// The submission itself is malformed.
    InvalidRequest(RejectReason),
    /// The job id drawn for it is already in use, and ids are never reused.
    DuplicateId,
}

impl SubmitError {
    /// A diagnostic text for the caller.
    pub fn message(&self) -> (r: String)
        ensures
            r@ == match self {
                SubmitError::InvalidRequest(RejectReason::EmptyCommand) =>
                    "Command cannot be empty"@,
                SubmitError::InvalidRequest(RejectReason::MissingTarget) =>
                    "Either task_id or vm_id is required"@,
                SubmitError::InvalidRequest(RejectReason::DuplicateEnvironmentKey) =>
                    "Environment variable names must be distinct"@,
                SubmitError::DuplicateId => "Job id already in use"@,
            },
    {
        match self {
            SubmitError::InvalidRequest(RejectReason::EmptyCommand) => String::from_str(
                "Command cannot be empty",
            ),
            SubmitError::InvalidRequest(RejectReason::MissingTarget) => String::from_str(
                "Either task_id or vm_id is required",
            ),
            SubmitError::InvalidRequest(RejectReason::DuplicateEnvironmentKey) => String::from_str(
                "Environment variable names must be distinct",
            ),
            SubmitError::DuplicateId => String::from_str("Job id already in use"),
        }
    }
}

/// A lookup of an id that names no job.
#[derive(Clone, Copy, Debug, PartialEq, Eq, Structural)]
pub enum LookupError {
    NotFound,
}

/// Why a local submission is rejected, if it is.
pub open spec fn local_rejection(req: CommandRequest) -> Option<RejectReason> {
    if is_blank_seq(req.command@) {
        Some(RejectReason::EmptyCommand)
    } else if !req.spec_environment_distinct() {
        Some(RejectReason::DuplicateEnvironmentKey)
    } else {
        None
    }
}

/// Why a remote submission is rejected, if it is.
pub open spec fn remote_rejection(req: CommandRequest) -> Option<RejectReason> {
    if is_blank_seq(req.command@) {
        Some(RejectReason::EmptyCommand)
    } else if req.task_id is None && req.vm_id is None {
        Some(RejectReason::MissingTarget)
    } else if !req.spec_environment_distinct() {
        Some(RejectReason::DuplicateEnvironmentKey)
    } else {
        None
    }
}

pub open spec fn rejection(req: CommandRequest, remote: bool) -> Option<RejectReason> {
    if remote {
        remote_rejection(req)
    } else {
        local_rejection(req)
    }
}

/// Checks a submission to run on the local host: the command must not be blank,
/// and the environment overrides must name each variable once.
pub fn validate_local(req: &CommandRequest) -> (r: Result<(), RejectReason>)
    ensures
        match local_rejection(*req) {
            Some(reason) => r == Err::<(), RejectReason>(reason),
            None => r is Ok,
        },
{
    if is_blank(req.command.as_str()) {
        Err(RejectReason::EmptyCommand)
    } else if !req.environment_distinct() {
        Err(RejectReason::DuplicateEnvironmentKey)
    } else {
        Ok(())
    }
}

/// Checks a submission to run on a remote machine: as for the local host, and it
/// must name a task or a machine.
pub fn validate_remote(req: &CommandRequest) -> (r: Result<(), RejectReason>)
    ensures
        match remote_rejection(*req) {
            Some(reason) => r == Err::<(), RejectReason>(reason),
            None => r is Ok,
        },
{
    if is_blank(req.command.as_str()) {
        Err(RejectReason::EmptyCommand)
    } else if req.task_id.is_none() && req.vm_id.is_none() {
        Err(RejectReason::MissingTarget)
    } else if !req.environment_distinct() {
        Err(RejectReason::DuplicateEnvironmentKey)
    } else {
        Ok(())
    }
}

/// `c` is the record a job starts with: pending, with nothing but what was submitted.
pub open spec fn is_pending_record(
    c: CommandResult,
    id: Seq<char>,
    req: CommandRequest,
    created_at: i64,
) -> bool {
    &&& c.id@ == id
    &&& c.task_id == req.task_id
    &&& c.vm_id == req.vm_id
    &&& c.command == req.command
    &&& c.status == CommandStatus::Pending
    &&& c.stdout is None
    &&& c.stderr is None
    &&& c.exit_code is None
    &&& c.execution_time_ms is None
    &&& c.created_at == created_at
    &&& c.completed_at is None
    &&& c.vm_details is None
}

/// The record a job starts with.
pub fn pending_record(id: String, req: &CommandRequest, created_at: i64) -> (r: CommandResult)
    ensures
        r.id == id,
        r.wf(),
        is_pending_record(r, id@, *req, created_at),
{
    CommandResult {
        id,
        task_id: copy_opt(&req.task_id),
        vm_id: copy_opt(&req.vm_id),
        command: req.command.clone(),
        status: CommandStatus::Pending,
        stdout: None,
        stderr: None,
        exit_code: None,
        execution_time_ms: None,
        created_at,
        completed_at: None,
        vm_details: None,
    }
}

/// What admitting `req` under `id` at `created_at` does to the store and returns.
pub open spec fn admits(
    before: Map<Seq<char>, CommandResult>,
    after: Map<Seq<char>, CommandResult>,
    req: CommandRequest,
    remote: bool,
    id: Seq<char>,
    created_at: i64,
    r: Result<CommandResult, SubmitError>,
) -> bool {
    match rejection(req, remote) {
        Some(reason) => r == Err::<CommandResult, SubmitError>(SubmitError::InvalidRequest(reason))
            && after == before,
        None => if before.contains_key(id) {
            r == Err::<CommandResult, SubmitError>(SubmitError::DuplicateId) && after == before
        } else {
            r matches Ok(c) && is_pending_record(c, id, req, created_at) && after == before.insert(
                id,
                c,
            )
        },
    }
}

fn enqueue(store: &mut JobStore, req: &CommandRequest, remote: bool, id: String, created_at: i64) -> (r:
    Result<CommandResult, SubmitError>)
    requires
        old(store).wf(),
    ensures
        final(store).wf(),
        admits(old(store)@, final(store)@, *req, remote, id@, created_at, r),
{
    let checked = if remote {
        validate_remote(req)
    } else {
        validate_local(req)
    };
    match checked {
        Err(reason) => Err(SubmitError::InvalidRequest(reason)),
        Ok(()) => {
            if store.contains(&id) {
                Err(SubmitError::DuplicateId)
            } else {
                let rec = pending_record(id, req, created_at);
                let out = rec.snapshot();
                store.put(rec);
                Ok(out)
            }
        },
    }
}

/// Admits a job to run on the local host under `id`, created at `created_at`:
/// files its pending record and returns a snapshot of it. An invalid submission,
/// or an id already in use, leaves the store as it was.
pub fn admit_local(store: &mut JobStore, req: &CommandRequest, id: String, created_at: i64) -> (r:
    Result<CommandResult, SubmitError>)
    requires
        old(store).wf(),
    ensures
        final(store).wf(),
        admits(old(store)@, final(store)@, *req, false, id@, created_at, r),
{
    enqueue(store, req, false, id, created_at)
}

/// Admits a job to run on a remote machine, as `admit_local` does, once the
/// request also names a task or a machine.
pub fn admit_remote(store: &mut JobStore, req: &CommandRequest, id: String, created_at: i64) -> (r:
    Result<CommandResult, SubmitError>)
    requires
        old(store).wf(),
    ensures
        final(store).wf(),
        admits(old(store)@, final(store)@, *req, true, id@, created_at, r),
{
    enqueue(store, req, true, id, created_at)
}

/// Relies on `uuid::Uuid::new_v4` and its `Display`: a random version 4 id in the
/// hyphenated form, 36 characters.
#[verifier::external_body]
fn new_job_id() -> (r: String)
    ensures
        r@.len() == 36,
{
    uuid::Uuid::new_v4().to_string()
}

/// Relies on `chrono::Utc::now` and `DateTime::timestamp_millis`: the current
/// time in milliseconds since the Unix epoch.
#[verifier::external_body]
fn now_millis() -> (r: i64) {
    chrono::Utc::now().timestamp_millis()
}

/// What a submission does, whatever id and time were drawn for it. A valid
/// submission succeeds whenever no job id in use has the length of a drawn id.
pub open spec fn submits(
    before: Map<Seq<char>, CommandResult>,
    after: Map<Seq<char>, CommandResult>,
    req: CommandRequest,
    remote: bool,
    r: Result<CommandResult, SubmitError>,
) -> bool {
    match rejection(req, remote) {
        Some(reason) => r == Err::<CommandResult, SubmitError>(SubmitError::InvalidRequest(reason))
            && after == before,
        None => {
            &&& match r {
                Ok(c) => c.id@.len() == 36 && !before.contains_key(c.id@) && is_pending_record(
                    c,
                    c.id@,
                    req,
                    c.created_at,
                ) && after == before.insert(c.id@, c),
                Err(e) => e == SubmitError::DuplicateId && after == before && exists|k: Seq<char>|
                    #[trigger] before.contains_key(k) && k.len() == 36,
            }
            &&& (forall|k: Seq<char>| #[trigger] before.contains_key(k) ==> k.len() != 36) ==> r is Ok
        },
    }
}

/// Submits a job to run on the local host under a fresh random id, stamped with
/// the current time.
pub fn submit_local(store: &mut JobStore, req: &CommandRequest) -> (r: Result<
    CommandResult,
    SubmitError,
>)
    requires
        old(store).wf(),
    ensures
        final(store).wf(),
        submits(old(store)@, final(store)@, *req, false, r),
{
    let id = new_job_id();
    let now = now_millis();
    admit_local(store, req, id, now)
}

/// Submits a job to run on a remote machine under a fresh random id, stamped
/// with the current time.
pub fn submit_remote(store: &mut JobStore, req: &CommandRequest) -> (r: Result<
    CommandResult,
    SubmitError,
>)
    requires
        old(store).wf(),
    ensures
        final(store).wf(),
        submits(old(store)@, final(store)@, *req, true, r),
{
    let id = new_job_id();
    let now = now_millis();
    admit_remote(store, req, id, now)
}

/// The record of the job `id`, or `NotFound`.
pub fn lookup(store: &JobStore, id: &String) -> (r: Result<CommandResult, LookupError>)
    requires
        store.wf(),
    ensures
        match r {
            Ok(c) => store@.contains_key(id@) && c == store@[id@] && c.id@ == id@,
            Err(e) => e == LookupError::NotFound && !store@.contains_key(id@),
        },
{
    proof {
        store.lemma_valid();
    }
    match store.get(id) {
        Some(c) => Ok(c),
        None => Err(LookupError::NotFound),
    }
}

} // verus!
