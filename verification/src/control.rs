//! How the daemon routes a job request, answers the client, and reports the ends of jobs and
//! of the daemon itself.
use vstd::prelude::*;
use vstd::string::*;

use crate::error::{error_message, DaemonError, StateErrorKind};
use crate::jobs::{BackgroundReconciliationError, ReconciliationJobCompletion};
use crate::scope::ReconciliationScope;
use crate::text::{concat2, str_equal};

verus! {

/// Where a job request goes.
pub enum JobRoute {
    /// A reconciliation of the given scope text.
    Reconcile,
    /// The System Managed Resource update.
    Update,
    /// Any other request: recorded and answered without reconciliation work.
    Started,
}

/// `reconcile` requests reconcile; `update` of `system` updates; anything else is a started job.
pub fn job_route(kind: &str, scope: &str) -> (route: JobRoute)
    ensures
        kind@ == "reconcile"@ ==> route is Reconcile,
        kind@ != "reconcile"@ && kind@ == "update"@ && scope@ == "system"@ ==> route is Update,
        kind@ != "reconcile"@ && !(kind@ == "update"@ && scope@ == "system"@) ==> route is Started,
{
    if str_equal(kind, "reconcile") {
        JobRoute::Reconcile
    } else if str_equal(kind, "update") && str_equal(scope, "system") {
        JobRoute::Update
    } else {
        JobRoute::Started
    }
}

/// A response line to the client's request.
pub enum DaemonResponse {
    Accepted { message: String, job_id: String },
    Error { message: String },
}

/// A foreground reconciliation is refused when its scope names a Project that is not linked,
/// both before it is queued and again when it joined a queued one; `project_linked` says
/// whether the scope's Project is linked, and is not looked at for other scopes.
pub fn require_project_scope_exists(scope: &ReconciliationScope, project_linked: bool) -> (r: Result<
    (),
    StateErrorKind,
>)
    ensures
        match scope {
            ReconciliationScope::Project { id } => if project_linked {
                r is Ok
            } else {
                r == Err::<(), StateErrorKind>(StateErrorKind::ProjectNotFound { target: *id })
            },
            _ => r is Ok,
        },
{
    match scope {
        ReconciliationScope::Project { id } => {
            if project_linked {
                Ok(())
            } else {
                Err(StateErrorKind::ProjectNotFound { target: id.clone() })
            }
        },
        _ => Ok(()),
    }
}

/// How the daemon answers a refused enqueue: a held coordination lock, or a missing Project
/// for a reconciliation, is answered with the refusal's text; any other failure is the job's
/// error.
pub fn reconciliation_enqueue_refusal(error: DaemonError) -> (r: Result<DaemonResponse, DaemonError>)
    ensures
        match error {
            DaemonError::State(state) => match state.kind {
                StateErrorKind::CoordinationLockHeld { .. } => r == Ok::<DaemonResponse, DaemonError>(
                    DaemonResponse::Error { message: state.message },
                ),
                StateErrorKind::ProjectNotFound { .. } => r == Ok::<DaemonResponse, DaemonError>(
                    DaemonResponse::Error { message: state.message },
                ),
                _ => r == Err::<DaemonResponse, DaemonError>(DaemonError::State(state)),
            },
            _ => r == Err::<DaemonResponse, DaemonError>(error),
        },
{
    match error {
        DaemonError::State(state) => match state.kind {
            StateErrorKind::CoordinationLockHeld { .. } => Ok(
                DaemonResponse::Error { message: state.message },
            ),
            StateErrorKind::ProjectNotFound { .. } => Ok(DaemonResponse::Error { message: state.message }),
            _ => Err(DaemonError::State(state)),
        },
        _ => Err(error),
    }
}

/// How the daemon answers a refused update enqueue: only a held coordination lock is answered.
pub fn update_enqueue_refusal(error: DaemonError) -> (r: Result<DaemonResponse, DaemonError>)
    ensures
        match error {
            DaemonError::State(state) => match state.kind {
                StateErrorKind::CoordinationLockHeld { .. } => r == Ok::<DaemonResponse, DaemonError>(
                    DaemonResponse::Error { message: state.message },
                ),
                _ => r == Err::<DaemonResponse, DaemonError>(DaemonError::State(state)),
            },
            _ => r == Err::<DaemonResponse, DaemonError>(error),
        },
{
    match error {
        DaemonError::State(state) => match state.kind {
            StateErrorKind::CoordinationLockHeld { .. } => Ok(
                DaemonResponse::Error { message: state.message },
            ),
            _ => Err(DaemonError::State(state)),
        },
        _ => Err(error),
    }
}

/// The acceptance of a queued job.
pub fn job_accepted(job_id: String) -> (response: DaemonResponse)
    ensures
        response matches DaemonResponse::Accepted { message, job_id: id } && (message@
            == "job accepted"@ && id == job_id),
{
    DaemonResponse::Accepted { message: String::from_str("job accepted"), job_id }
}

/// The answer to a reconciliation request that joined a queued or running one.
pub fn coalesced_reconciliation_response(job_id: String) -> (response: DaemonResponse)
    ensures
        response matches DaemonResponse::Accepted { message, job_id: id } && (message@
            == "reconciliation already queued or running"@ && id == job_id),
{
    DaemonResponse::Accepted {
        message: String::from_str("reconciliation already queued or running"),
        job_id,
    }
}

/// The answer to an update request while another update is queued or running.
pub fn coalesced_update_response() -> (response: DaemonResponse)
    ensures
        response matches DaemonResponse::Error { message } && message@
            == "update already queued or running"@,
{
    DaemonResponse::Error { message: String::from_str("update already queued or running") }
}

/// What a startup reconciliation does after trying to enqueue.
pub enum StartupEnqueue<T> {
    /// Enqueued (or joined): continue with it.
    Enqueued(T),
    /// The jobs lock is held: wait and try again.
    Retry,
    /// Admission failed.
    Fail(BackgroundReconciliationError),
}

/// Whether `e` is the state store's refusal because the coordination lock at `lock` is held.
pub open spec fn lock_held_at(e: DaemonError, lock: Seq<char>) -> bool {
    match e {
        DaemonError::State(state) => match state.kind {
            StateErrorKind::CoordinationLockHeld { path } => path@ == lock,
            _ => false,
        },
        _ => false,
    }
}

/// A held jobs lock is retried; any other failure fails admission.
pub fn startup_enqueue_decision<T>(result: Result<T, DaemonError>, jobs_lock: &str) -> (decision:
    StartupEnqueue<T>)
    ensures
        match result {
            Ok(t) => decision == StartupEnqueue::Enqueued(t),
            Err(e) => if lock_held_at(e, jobs_lock@) {
                decision is Retry
            } else {
                decision == StartupEnqueue::<T>::Fail(BackgroundReconciliationError::Admission(Box::new(e)))
            },
        },
{
    match result {
        Ok(t) => StartupEnqueue::Enqueued(t),
        Err(e) => {
            if is_jobs_lock_held(&e, jobs_lock) {
                StartupEnqueue::Retry
            } else {
                StartupEnqueue::Fail(BackgroundReconciliationError::Admission(Box::new(e)))
            }
        },
    }
}

fn is_jobs_lock_held(e: &DaemonError, jobs_lock: &str) -> (held: bool)
    ensures
        held == lock_held_at(*e, jobs_lock@),
{
    match e {
        DaemonError::State(state) => match &state.kind {
            StateErrorKind::CoordinationLockHeld { path } => str_equal(path.as_str(), jobs_lock),
            _ => false,
        },
        _ => false,
    }
}

/// The result of a startup reconciliation whose shutdown arrived while it was enqueueing:
/// nothing to report when the enqueue succeeded or found the jobs lock held.
pub fn startup_shutdown_during_enqueue<T>(result: Result<T, DaemonError>, jobs_lock: &str) -> (r: Result<
    (),
    BackgroundReconciliationError,
>)
    ensures
        match result {
            Ok(_) => r is Ok,
            Err(e) => if lock_held_at(e, jobs_lock@) {
                r is Ok
            } else {
                r == Err::<(), BackgroundReconciliationError>(BackgroundReconciliationError::Admission(Box::new(e)))
            },
        },
{
    match result {
        Ok(_) => Ok(()),
        Err(e) => {
            if is_jobs_lock_held(&e, jobs_lock) {
                Ok(())
            } else {
                Err(BackgroundReconciliationError::Admission(Box::new(e)))
            }
        },
    }
}

/// What happens to the queue slot of a background job once it ends.
pub enum SlotRelease {
    /// The job finished: release the slot normally.
    Finish,
    /// The job was cancelled: abandon the slot.
    Abandon,
}

/// A background job that succeeded or failed finishes its slot, a cancelled one abandons it;
/// a failure is reported with its job id and any failure to record it.
pub fn background_job_result(job_id: String, completion: ReconciliationJobCompletion) -> (r: (
    SlotRelease,
    Result<(), BackgroundReconciliationError>,
))
    ensures
        match completion {
            ReconciliationJobCompletion::Succeeded(_) => r.0 is Finish && r.1 is Ok,
            ReconciliationJobCompletion::Cancelled => r.0 is Abandon && r.1 is Ok,
            ReconciliationJobCompletion::Failed { error, recording_error } => r.0 is Finish && r.1
                == Err::<(), BackgroundReconciliationError>(
                BackgroundReconciliationError::Execution { job_id, error, recording_error },
            ),
        },
{
    match completion {
        ReconciliationJobCompletion::Succeeded(_summary) => (SlotRelease::Finish, Ok(())),
        ReconciliationJobCompletion::Cancelled => (SlotRelease::Abandon, Ok(())),
        ReconciliationJobCompletion::Failed { error, recording_error } => (
            SlotRelease::Finish,
            Err(BackgroundReconciliationError::Execution { job_id, error, recording_error }),
        ),
    }
}

/// An unresolved failed job as the state store lists it.
pub struct JobFailureRecord {
    pub kind: String,
    pub scope: String,
    pub error: Option<String>,
}

/// Whether one record is a failed reconciliation of `scope` with this error text.
pub open spec fn records_failure(record: JobFailureRecord, scope: Seq<char>, message: Seq<char>) -> bool {
    &&& record.kind@ == "reconcile"@
    &&& record.scope@ == scope
    &&& match record.error {
        Some(error) => error@ == message,
        None => false,
    }
}

/// Whether a failed reconciliation of `scope` with this error text is already recorded.
pub open spec fn failure_recorded(failures: Seq<JobFailureRecord>, scope: Seq<char>, message: Seq<char>) -> bool {
    exists|i: int| 0 <= i < failures.len() && #[trigger] records_failure(failures[i], scope, message)
}

/// Whether a background reconciliation failure is already recorded as unresolved: a failed
/// `reconcile` job of the same scope with the same error text.
pub fn background_failure_already_recorded(
    failures: &Vec<JobFailureRecord>,
    scope: &str,
    message: &str,
) -> (recorded: bool)
    ensures
        recorded == failure_recorded(failures@, scope@, message@),
{
    let mut i: usize = 0;
    while i < failures.len()
        invariant
            i <= failures@.len(),
            forall|j: int|
                0 <= j < i ==> !#[trigger] records_failure(failures@[j], scope@, message@),
        decreases failures.len() - i,
    {
        let f = &failures[i];
        if str_equal(f.kind.as_str(), "reconcile") && str_equal(f.scope.as_str(), scope) {
            match &f.error {
                Some(error) => {
                    if str_equal(error.as_str(), message) {
                        assert(records_failure(failures@[i as int], scope@, message@));
                        return true;
                    }
                },
                None => {},
            }
        }
        i = i + 1;
    }
    false
}

/// A background failure is recorded once: once its failed job is among the unresolved
/// failures, the same failure (same scope, same text) is not recorded again; once no unresolved
/// failure of its scope is left, as after a later successful job covered the scope, the same
/// failure is recorded anew.
pub proof fn lemma_background_failure_recorded_once(
    unresolved: Seq<JobFailureRecord>,
    recorded: JobFailureRecord,
    resolved: Seq<JobFailureRecord>,
    scope: Seq<char>,
    message: Seq<char>,
)
    requires
        records_failure(recorded, scope, message),
        forall|i: int| 0 <= i < resolved.len() ==> (#[trigger] resolved[i]).scope@ != scope,
    ensures
        failure_recorded(unresolved.push(recorded), scope, message),
        !failure_recorded(resolved, scope, message),
{
    let after = unresolved.push(recorded);
    assert(records_failure(after[unresolved.len() as int], scope, message));
}

/// The outcome of a background reconciliation that was started as a job: on failure, the job
/// is failed with the error's text, and the error is returned.
pub fn complete_or_fail_background_reconciliation(result: Result<(), DaemonError>) -> (r: (
    Option<String>,
    Result<(), DaemonError>,
))
    ensures
        match result {
            Ok(()) => r.0 is None && r.1 is Ok,
            Err(e) => r.0 matches Some(text) && text@ == error_message(e) && r.1 == Err::<(), DaemonError>(e),
        },
{
    match result {
        Ok(()) => (None, Ok(())),
        Err(error) => {
            let text = error.message();
            (Some(text), Err(error))
        },
    }
}

/// How a request that reaches no reconciliation ends.
pub enum StartedJobOutcome {
    /// The job fails with this error text.
    Failed { error: String },
    /// The job completes with this summary.
    Completed { summary: String },
}

/// The text of an unsupported job's failure.
pub open spec fn unsupported_job_text(kind: Seq<char>, scope: Seq<char>) -> Seq<char> {
    "unsupported daemon job `"@ + kind + "` with scope `"@ + scope + "`"@
}

/// A `reconcile` request of a valid scope completes as a stub; any other request fails as
/// unsupported.
pub fn started_job_outcome(kind: &str, scope: &str, scope_is_valid: bool) -> (outcome: StartedJobOutcome)
    ensures
        if kind@ != "reconcile"@ || !scope_is_valid {
            outcome matches StartedJobOutcome::Failed { error } && error@ == unsupported_job_text(kind@, scope@)
        } else {
            outcome matches StartedJobOutcome::Completed { summary } && summary@ == "stub job completed"@
        },
{
    if !str_equal(kind, "reconcile") || !scope_is_valid {
        let mut error = concat2("unsupported daemon job `", kind);
        error.append("` with scope `");
        error.append(scope);
        error.append("`");
        StartedJobOutcome::Failed { error }
    } else {
        StartedJobOutcome::Completed { summary: String::from_str("stub job completed") }
    }
}

/// The text of the failure of a request with an invalid reconciliation scope.
pub fn invalid_scope_error(scope: &str, parse_error: &str) -> (error: String)
    ensures
        error@ == "invalid reconciliation scope `"@ + scope@ + "`: "@ + parse_error@,
{
    let mut error = concat2("invalid reconciliation scope `", scope);
    error.append("`: ");
    error.append(parse_error);
    error
}

/// The error reported when a foreground job's last event could not be written in time.
pub fn terminal_event_timeout_error() -> (e: DaemonError)
    ensures
        e matches DaemonError::Io { message } && message@ == "foreground job terminal event write timed out"@,
{
    DaemonError::Io { message: String::from_str("foreground job terminal event write timed out") }
}

/// A joined task's result: the join's failure, or else the task's own result.
pub open spec fn flatten_join(join: Result<Result<(), DaemonError>, DaemonError>) -> Result<(), DaemonError> {
    match join {
        Ok(task) => task,
        Err(e) => Err(e),
    }
}

/// The first failure among steps taken in order, or success when all succeeded.
pub open spec fn first_failure(steps: Seq<Result<(), DaemonError>>) -> Result<(), DaemonError>
    decreases steps.len(),
{
    if steps.len() == 0 {
        Ok(())
    } else if steps.len() == 1 || steps[0] is Err {
        steps[0]
    } else {
        first_failure(steps.drop_first())
    }
}

proof fn lemma_first_failure_of_three(
    a: Result<(), DaemonError>,
    b: Result<(), DaemonError>,
    c: Result<(), DaemonError>,
)
    ensures
        first_failure(seq![a, b, c]) == (if a is Err {
            a
        } else if b is Err {
            b
        } else {
            c
        }),
{
    let s = seq![a, b, c];
    assert(s.drop_first() =~= seq![b, c]);
    assert(seq![b, c].drop_first() =~= seq![c]);
    assert(seq![c].drop_first() =~= Seq::<Result<(), DaemonError>>::empty());
    assert(first_failure(seq![c]) == c);
    assert(first_failure(seq![b, c]) == (if b is Err { b } else { first_failure(seq![c]) }));
    assert(first_failure(s) == (if a is Err { a } else { first_failure(seq![b, c]) }));
}

/// The result of stopping the daemon: the IPC endpoint's removal, then the DNS resolver, then
/// the server task's join, then the server's own result, the first failure winning; the stop
/// is logged only when all succeeded.
pub fn shutdown_result(
    socket_result: Result<(), DaemonError>,
    dns_result: Result<(), DaemonError>,
    join_result: Result<Result<(), DaemonError>, DaemonError>,
) -> (r: (Result<(), DaemonError>, bool))
    ensures
        r.0 == first_failure(seq![socket_result, dns_result, flatten_join(join_result)]),
        r.1 == r.0 is Ok,
{
    proof {
        lemma_first_failure_of_three(socket_result, dns_result, flatten_join(join_result));
    }
    match socket_result {
        Err(e) => return (Err(e), false),
        Ok(()) => {},
    }
    match dns_result {
        Err(e) => return (Err(e), false),
        Ok(()) => {},
    }
    match join_result {
        Err(e) => (Err(e), false),
        Ok(task) => {
            let stopped = task.is_ok();
            (task, stopped)
        },
    }
}

/// The result of the daemon once its server task ended by itself: the endpoint's removal,
/// then the DNS resolver, then the join, the first failure winning; otherwise the server's
/// result, logged as a stop when it succeeded.
pub fn server_ended_result(
    socket_result: Result<(), DaemonError>,
    dns_result: Result<(), DaemonError>,
    join_result: Result<Result<(), DaemonError>, DaemonError>,
) -> (r: (Result<(), DaemonError>, bool))
    ensures
        r.0 == first_failure(seq![socket_result, dns_result, flatten_join(join_result)]),
        r.1 == r.0 is Ok,
{
    shutdown_result(socket_result, dns_result, join_result)
}

/// The result of the daemon once its DNS resolver ended by itself: the endpoint's removal,
/// then the join, then the server's result, the first failure winning; otherwise the
/// resolver's result, logged as a stop when it succeeded.
pub fn dns_ended_result(
    socket_result: Result<(), DaemonError>,
    join_result: Result<Result<(), DaemonError>, DaemonError>,
    dns_result: Result<(), DaemonError>,
) -> (r: (Result<(), DaemonError>, bool))
    ensures
        r.0 == first_failure(seq![socket_result, flatten_join(join_result), dns_result]),
        r.1 == r.0 is Ok,
{
    proof {
        lemma_first_failure_of_three(socket_result, flatten_join(join_result), dns_result);
    }
    match socket_result {
        Err(e) => return (Err(e), false),
        Ok(()) => {},
    }
    match join_result {
        Err(e) => (Err(e), false),
        Ok(Err(e)) => (Err(e), false),
        Ok(Ok(())) => {
            let stopped = dns_result.is_ok();
            (dns_result, stopped)
        },
    }
}

} // verus!
