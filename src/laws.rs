//! Properties of the job lifecycle that hold across operations.

use vstd::prelude::*;
use crate::admission::{admits, submits, RejectReason, SubmitError};
use crate::executor::is_error_termination;
use crate::record::{
    advances, CommandRequest, CommandResult, CommandStatus, Termination, VmDetails, NO_EXIT_CODE,
};
use crate::remote::fails_with;
use crate::store::{attached_in, finished_in, started_in, valid_records};
use crate::text::is_blank_seq;

verus! {

/// Every job of `before` is still in `after`, and has only moved forward.
pub open spec fn store_advances(
    before: Map<Seq<char>, CommandResult>,
    after: Map<Seq<char>, CommandResult>,
) -> bool {
    forall|k: Seq<char>| #[trigger]
        before.contains_key(k) ==> after.contains_key(k) && advances(before[k], after[k])
}

/// No job other than `id` appears, disappears or changes.
pub open spec fn only_touches(
    before: Map<Seq<char>, CommandResult>,
    after: Map<Seq<char>, CommandResult>,
    id: Seq<char>,
) -> bool {
    forall|k: Seq<char>|
        k != id ==> (#[trigger] after.contains_key(k) == before.contains_key(k)) && (
        before.contains_key(k) ==> after[k] == before[k])
}

/// Moving forward is transitive: over any run of steps, no job's status ever goes back.
pub proof fn lemma_advances_transitive(
    a: Map<Seq<char>, CommandResult>,
    b: Map<Seq<char>, CommandResult>,
    c: Map<Seq<char>, CommandResult>,
)
    requires
        store_advances(a, b),
        store_advances(b, c),
    ensures
        store_advances(a, c),
{
    assert forall|k: Seq<char>| #[trigger] a.contains_key(k) implies c.contains_key(k) && advances(
        a[k],
        c[k],
    ) by {
        assert(b.contains_key(k));
    }
}

/// Picking a job up moves it forward and touches no other job.
pub proof fn lemma_start_step(m: Map<Seq<char>, CommandResult>, id: Seq<char>)
    ensures
        store_advances(m, started_in(m, id)),
        only_touches(m, started_in(m, id), id),
{
}

/// Recording a job's machine moves it forward and touches no other job.
pub proof fn lemma_attach_step(m: Map<Seq<char>, CommandResult>, id: Seq<char>, vm: VmDetails)
    ensures
        store_advances(m, attached_in(m, id, vm)),
        only_touches(m, attached_in(m, id, vm), id),
{
}

/// Terminating a job moves it forward and touches no other job.
pub proof fn lemma_finish_step(m: Map<Seq<char>, CommandResult>, id: Seq<char>, t: Termination)
    requires
        t.wf(),
    ensures
        store_advances(m, finished_in(m, id, t)),
        only_touches(m, finished_in(m, id, t), id),
{
}

/// Failing a job with an error text, as the remote executor does when the target
/// cannot take the command, moves it forward and touches no other job.
pub proof fn lemma_failure_step(
    before: Map<Seq<char>, CommandResult>,
    after: Map<Seq<char>, CommandResult>,
    id: Seq<char>,
    message: Seq<char>,
    elapsed_ms: u64,
    now: i64,
)
    requires
        fails_with(before, after, id, message, elapsed_ms, now),
    ensures
        store_advances(before, after),
        only_touches(before, after, id),
{
    let t = choose|t: Termination|
        t.wf() && is_error_termination(t, CommandStatus::Failed, message, elapsed_ms, now)
            && after == #[trigger] finished_in(before, id, t);
    lemma_finish_step(before, id, t);
}

/// Admitting a job changes no job already there, and adds at most the new one.
pub proof fn lemma_admission_step(
    before: Map<Seq<char>, CommandResult>,
    after: Map<Seq<char>, CommandResult>,
    req: CommandRequest,
    remote: bool,
    id: Seq<char>,
    created_at: i64,
    r: Result<CommandResult, SubmitError>,
)
    requires
        admits(before, after, req, remote, id, created_at, r),
    ensures
        store_advances(before, after),
        only_touches(before, after, id),
{
}

/// A submission changes no job already there; when it succeeds it adds its own
/// job and nothing else, and when it fails the store is as it was.
pub proof fn lemma_submission_step(
    before: Map<Seq<char>, CommandResult>,
    after: Map<Seq<char>, CommandResult>,
    req: CommandRequest,
    remote: bool,
    r: Result<CommandResult, SubmitError>,
)
    requires
        submits(before, after, req, remote, r),
    ensures
        store_advances(before, after),
        r matches Ok(c) ==> only_touches(before, after, c.id@) && after[c.id@] == c,
        r is Err ==> after == before,
{
}

/// Two successful submissions, one after the other, get different ids, and both
/// jobs are then filed, each with its own command.
pub proof fn lemma_submissions_distinct(
    s0: Map<Seq<char>, CommandResult>,
    s1: Map<Seq<char>, CommandResult>,
    s2: Map<Seq<char>, CommandResult>,
    req1: CommandRequest,
    remote1: bool,
    r1: Result<CommandResult, SubmitError>,
    req2: CommandRequest,
    remote2: bool,
    r2: Result<CommandResult, SubmitError>,
)
    requires
        submits(s0, s1, req1, remote1, r1),
        submits(s1, s2, req2, remote2, r2),
        r1 is Ok,
        r2 is Ok,
    ensures
        r1->Ok_0.id@ != r2->Ok_0.id@,
        s2.contains_key(r1->Ok_0.id@) && s2[r1->Ok_0.id@] == r1->Ok_0,
        s2.contains_key(r2->Ok_0.id@) && s2[r2->Ok_0.id@] == r2->Ok_0,
        s2[r1->Ok_0.id@].command == req1.command,
        s2[r2->Ok_0.id@].command == req2.command,
{
}

/// A terminal record has its error text, exit code, run time and completion time;
/// output is missing only where no process was started, and then the job failed
/// with the exit code sentinel.
pub proof fn lemma_terminal_record_complete(m: Map<Seq<char>, CommandResult>, id: Seq<char>)
    requires
        valid_records(m),
        m.contains_key(id),
        m[id].status.spec_is_terminal(),
    ensures
        m[id].stderr is Some,
        m[id].exit_code is Some,
        m[id].execution_time_ms is Some,
        m[id].completed_at is Some,
        m[id].stdout is None ==> m[id].exit_code == Some(NO_EXIT_CODE) && m[id].status
            == CommandStatus::Failed,
{
    assert(m[id].wf());
}

/// A blank command is always rejected as invalid, and no record is created.
pub proof fn lemma_blank_command_rejected(
    before: Map<Seq<char>, CommandResult>,
    after: Map<Seq<char>, CommandResult>,
    req: CommandRequest,
    remote: bool,
    r: Result<CommandResult, SubmitError>,
)
    requires
        submits(before, after, req, remote, r),
        is_blank_seq(req.command@),
    ensures
        r == Err::<CommandResult, SubmitError>(
            SubmitError::InvalidRequest(RejectReason::EmptyCommand),
        ),
        after == before,
{
}

/// A remote submission naming neither a task nor a machine is always rejected
/// as invalid, and no record is created.
pub proof fn lemma_untargeted_remote_rejected(
    before: Map<Seq<char>, CommandResult>,
    after: Map<Seq<char>, CommandResult>,
    req: CommandRequest,
    r: Result<CommandResult, SubmitError>,
)
    requires
        submits(before, after, req, true, r),
        req.task_id is None,
        req.vm_id is None,
    ensures
        r matches Err(SubmitError::InvalidRequest(_)),
        after == before,
{
}

} // verus!
