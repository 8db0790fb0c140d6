//! How reconciliation and update jobs turn their partial results into a job result.
use vstd::prelude::*;
use vstd::string::*;

use crate::error::DaemonError;

verus! {

/// The outcome of work that a fallback shutdown may cut short.
pub enum ReconciliationOutcome<T> {
    Completed(T),
    Cancelled,
}

/// What one pass over the linked Projects achieved.
pub struct SystemProjectReconciliationReport {
    pub total: usize,
    pub succeeded: usize,
    pub successful_project_ids: Vec<String>,
    pub summaries: Vec<String>,
    pub failures: Vec<DaemonError>,
}

impl SystemProjectReconciliationReport {
    /// A report of a pass over no Projects.
    pub fn empty() -> (report: Self)
        ensures
            report.total == 0,
            report.succeeded == 0,
            report.successful_project_ids@.len() == 0,
            report.summaries@.len() == 0,
            report.failures@.len() == 0,
    {
        SystemProjectReconciliationReport {
            total: 0,
            succeeded: 0,
            successful_project_ids: Vec::new(),
            summaries: Vec::new(),
            failures: Vec::new(),
        }
    }
}

/// A finished reconciliation: its summary and the diagnostic subjects it covered.
pub struct CompletedReconciliationJob<S> {
    pub summary: String,
    pub coverage: Vec<S>,
}

/// Why a background reconciliation did not succeed.
pub enum BackgroundReconciliationError {
    /// The job could not be admitted to the queue.
    Admission(Box<DaemonError>),
    /// The admitted job failed; recording that failure may have failed too.
    Execution {
        job_id: String,
        error: Box<DaemonError>,
        recording_error: Option<Box<DaemonError>>,
    },
}

impl BackgroundReconciliationError {
    /// The error that stopped the job.
    pub fn into_error(self) -> (e: DaemonError)
        ensures
            e == match self {
                BackgroundReconciliationError::Admission(error) => *error,
                BackgroundReconciliationError::Execution { error, .. } => *error,
            },
    {
        match self {
            BackgroundReconciliationError::Admission(error) => *error,
            BackgroundReconciliationError::Execution { error, .. } => *error,
        }
    }
}

/// The reason reported when a foreground job ends cancelled with nobody shutting down.
pub open spec fn cancelled_without_shutdown_reason() -> Seq<char> {
    "foreground reconciliation was cancelled without a shutdown signal"@
}

/// Whether `e` is the error reported for a cancellation without a shutdown signal.
pub open spec fn is_cancelled_without_shutdown(e: DaemonError) -> bool {
    e matches DaemonError::UnexpectedProtocolResponse { reason } && reason@
        == cancelled_without_shutdown_reason()
}

fn cancelled_without_shutdown_error() -> (e: DaemonError)
    ensures
        is_cancelled_without_shutdown(e),
{
    DaemonError::UnexpectedProtocolResponse {
        reason: String::from_str(
            "foreground reconciliation was cancelled without a shutdown signal",
        ),
    }
}

/// `r` is the result reported for a job that ended as `completion`.
pub open spec fn job_result_of(completion: ReconciliationJobCompletion, r: Result<String, DaemonError>) -> bool {
    match completion {
        ReconciliationJobCompletion::Succeeded(summary) => r == Ok::<String, DaemonError>(summary),
        ReconciliationJobCompletion::Cancelled => r matches Err(e) && is_cancelled_without_shutdown(e),
        ReconciliationJobCompletion::Failed { error, recording_error } => r == Err::<String, DaemonError>(
            match recording_error {
                Some(recording) => *recording,
                None => *error,
            },
        ),
    }
}

/// How a reconciliation or update job ended.
pub enum ReconciliationJobCompletion {
    Succeeded(String),
    Cancelled,
    Failed { error: Box<DaemonError>, recording_error: Option<Box<DaemonError>> },
}

impl ReconciliationJobCompletion {
    /// The job's result: its summary, or the error to report. A failure to record the job's
    /// failure is reported in place of the failure itself.
    pub fn into_result(self) -> (r: Result<String, DaemonError>)
        ensures
            job_result_of(self, r),
    {
        match self {
            ReconciliationJobCompletion::Succeeded(summary) => Ok(summary),
            ReconciliationJobCompletion::Cancelled => Err(cancelled_without_shutdown_error()),
            ReconciliationJobCompletion::Failed { error, recording_error } => match recording_error {
                Some(recording) => Err(*recording),
                None => Err(*error),
            },
        }
    }

    /// Whether the job succeeded.
    pub fn is_succeeded(&self) -> (b: bool)
        ensures
            b == (*self is Succeeded),
    {
        match self {
            ReconciliationJobCompletion::Succeeded(_) => true,
            _ => false,
        }
    }
}

/// A foreground job that holds the reconciliation slot is either finalized or cancelled by a
/// fallback shutdown.
pub enum ForegroundReconciliationCompletion {
    Finalized(Result<(), DaemonError>),
    Cancelled,
}

impl ForegroundReconciliationCompletion {
    /// The result of the foreground job.
    pub fn into_result(self) -> (r: Result<(), DaemonError>)
        ensures
            match self {
                ForegroundReconciliationCompletion::Finalized(result) => r == result,
                ForegroundReconciliationCompletion::Cancelled => r matches Err(e)
                    && is_cancelled_without_shutdown(e),
            },
    {
        match self {
            ForegroundReconciliationCompletion::Finalized(result) => result,
            ForegroundReconciliationCompletion::Cancelled => {
                let r = ReconciliationJobCompletion::Cancelled.into_result();
                match r {
                    Ok(_summary) => Ok(()),
                    Err(e) => Err(e),
                }
            },
        }
    }
}

/// The result of a foreground job whose acceptance was written to the client: a failed
/// reconciliation takes precedence; otherwise the outcome of writing the acceptance stands.
pub fn foreground_reconciliation_result(
    accepted_result: Result<(), DaemonError>,
    reconciliation_result: Result<(), DaemonError>,
) -> (r: Result<(), DaemonError>)
    ensures
        r == match reconciliation_result {
            Err(e) => Err(e),
            Ok(()) => accepted_result,
        },
{
    match reconciliation_result {
        Err(e) => Err(e),
        Ok(()) => accepted_result,
    }
}

/// The error of a partial update whose follow-up reconciliation failed as well.
pub fn partial_update_reconciliation_error(
    update_error: DaemonError,
    reconciliation_error: DaemonError,
) -> (e: DaemonError)
    ensures
        e == (DaemonError::PartialUpdateReconciliationFailed {
            source: Box::new(update_error),
            reconciliation: Box::new(reconciliation_error),
        }),
{
    DaemonError::PartialUpdateReconciliationFailed {
        source: Box::new(update_error),
        reconciliation: Box::new(reconciliation_error),
    }
}

/// The error of a Caddy update whose rollback or gateway recovery failed as well.
pub fn caddy_compensation_error(original_error: DaemonError, compensation_error: DaemonError) -> (e:
    DaemonError)
    ensures
        e == (DaemonError::CaddyUpdateCompensationFailed {
            source: Box::new(original_error),
            compensation: Box::new(compensation_error),
        }),
{
    DaemonError::CaddyUpdateCompensationFailed {
        source: Box::new(original_error),
        compensation: Box::new(compensation_error),
    }
}

/// The single error that stands for the failures of one System reconciliation.
pub open spec fn combined_failures(failures: Seq<DaemonError>, as_vec: Vec<DaemonError>) -> DaemonError {
    if failures.len() == 1 {
        failures[0]
    } else {
        DaemonError::SystemReconciliationFailures { failures: as_vec }
    }
}

/// One failure is reported as itself; several are reported together, in order.
pub fn combined_system_reconciliation_error(failures: Vec<DaemonError>) -> (e: DaemonError)
    ensures
        failures@.len() == 1 ==> e == failures@[0],
        failures@.len() != 1 ==> e == (DaemonError::SystemReconciliationFailures { failures }),
{
    let mut failures = failures;
    if failures.len() == 1 {
        failures.remove(0)
    } else {
        DaemonError::SystemReconciliationFailures { failures }
    }
}

/// After a fallback shutdown: cancelled when nothing failed, otherwise the failures are
/// preserved rather than hidden behind the cancellation.
pub fn cancel_or_preserve_reconciliation_errors<T>(failures: Vec<DaemonError>) -> (r: Result<
    ReconciliationOutcome<T>,
    DaemonError,
>)
    ensures
        failures@.len() == 0 ==> r is Ok && r->Ok_0 is Cancelled,
        failures@.len() == 1 ==> r == Err::<ReconciliationOutcome<T>, DaemonError>(failures@[0]),
        failures@.len() > 1 ==> r == Err::<ReconciliationOutcome<T>, DaemonError>(
            DaemonError::SystemReconciliationFailures { failures },
        ),
{
    if failures.len() == 0 {
        Ok(ReconciliationOutcome::Cancelled)
    } else {
        Err(combined_system_reconciliation_error(failures))
    }
}

/// The failures of a System pass in the order they are reported: resources, then the
/// Projects (or the error that stopped the Project pass), then cleanup.
pub open spec fn system_failures(
    resources_result: Result<(), DaemonError>,
    project_result: Result<SystemProjectReconciliationReport, DaemonError>,
    cleanup_result: Result<(), DaemonError>,
) -> Seq<DaemonError> {
    (match resources_result {
        Err(e) => seq![e],
        Ok(_) => Seq::empty(),
    }) + (match project_result {
        Ok(report) => report.failures@,
        Err(e) => seq![e],
    }) + (match cleanup_result {
        Err(e) => seq![e],
        Ok(_) => Seq::empty(),
    })
}

/// Collects [`system_failures`] into a list.
pub fn collect_system_failures(
    resources_result: Result<(), DaemonError>,
    project_result: Result<SystemProjectReconciliationReport, DaemonError>,
    cleanup_result: Result<(), DaemonError>,
) -> (failures: Vec<DaemonError>)
    ensures
        failures@ == system_failures(resources_result, project_result, cleanup_result),
{
    let ghost expected = system_failures(resources_result, project_result, cleanup_result);
    let mut failures: Vec<DaemonError> = Vec::new();
    match resources_result {
        Err(e) => failures.push(e),
        Ok(()) => {},
    }
    match project_result {
        Ok(report) => {
            let mut project_failures = report.failures;
            failures.append(&mut project_failures);
        },
        Err(e) => failures.push(e),
    }
    match cleanup_result {
        Err(e) => failures.push(e),
        Ok(()) => {},
    }
    proof {
        assert(failures@ =~= expected);
    }
    failures
}

/// After a fallback shutdown in a System pass: cancelled when the resources, Projects and
/// cleanup all succeeded, otherwise their failures are preserved.
pub fn cancel_or_preserve_system_reconciliation_errors<S>(
    resources_result: Result<(), DaemonError>,
    project_result: Result<SystemProjectReconciliationReport, DaemonError>,
    cleanup_result: Result<(), DaemonError>,
) -> (r: Result<ReconciliationOutcome<CompletedReconciliationJob<S>>, DaemonError>)
    ensures
        ({
            let failures = system_failures(resources_result, project_result, cleanup_result);
            &&& failures.len() == 0 ==> r is Ok && r->Ok_0 is Cancelled
            &&& failures.len() == 1 ==> r == Err::<
                ReconciliationOutcome<CompletedReconciliationJob<S>>,
                DaemonError,
            >(failures[0])
            &&& failures.len() > 1 ==> (r matches Err(
                DaemonError::SystemReconciliationFailures { failures: all },
            ) && all@ == failures)
        }),
{
    let failures = collect_system_failures(resources_result, project_result, cleanup_result);
    cancel_or_preserve_reconciliation_errors(failures)
}

/// A job's result is a success exactly when the job succeeded: a cancelled or failed job
/// never reports success, and a succeeded one never reports an error.
pub proof fn lemma_job_result_ok_iff_succeeded(
    completion: ReconciliationJobCompletion,
    r: Result<String, DaemonError>,
)
    requires
        job_result_of(completion, r),
    ensures
        (r is Ok) <==> (completion is Succeeded),
{
}

} // verus!
