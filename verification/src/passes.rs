//! The bookkeeping of a pass over the linked Projects: what each Project's apply adds to the
//! pass's report, and when the pass stops.
use vstd::prelude::*;
use vstd::string::*;

use crate::error::DaemonError;
use crate::jobs::SystemProjectReconciliationReport;

verus! {

/// How one Project's apply ended.
pub enum ProjectApplyOutcome {
    Completed { summary: String },
    /// A fallback shutdown cut the apply short.
    Cancelled,
    Failed(DaemonError),
}

/// What the pass does after a Project.
pub enum PassNext {
    /// Go on with the next Project.
    Continue,
    /// End the pass with the report so far.
    Stop,
    /// End the pass with this error.
    Abort(DaemonError),
}

/// The label a Project is reported under: its primary hostname, or else its slug.
pub fn project_label(primary_hostname: &Option<String>, slug: &String) -> (label: String)
    ensures
        label@ == match primary_hostname {
            Some(hostname) => hostname@,
            None => slug@,
        },
{
    match primary_hostname {
        Some(hostname) => hostname.clone(),
        None => slug.clone(),
    }
}

/// The report is unchanged but for its failures, which gained `failure`.
pub open spec fn failure_added(
    before: SystemProjectReconciliationReport,
    after: SystemProjectReconciliationReport,
    failure: DaemonError,
) -> bool {
    &&& after.total == before.total
    &&& after.succeeded == before.succeeded
    &&& after.successful_project_ids@ == before.successful_project_ids@
    &&& after.summaries@ == before.summaries@
    &&& after.failures@ == before.failures@.push(failure)
}

/// The report is unchanged.
pub open spec fn report_unchanged(before: SystemProjectReconciliationReport, after: SystemProjectReconciliationReport) -> bool {
    &&& after.total == before.total
    &&& after.succeeded == before.succeeded
    &&& after.successful_project_ids@ == before.successful_project_ids@
    &&& after.summaries@ == before.summaries@
    &&& after.failures@ == before.failures@
}

/// Adds a Project's apply to the pass's report: a completed apply counts as succeeded with
/// its Project id and summary; a cancelled one stops the pass; a failure to record a
/// Project's environment failure ends the pass with that error; any other failure is
/// reported under the Project's label.
pub fn record_project_apply(
    report: &mut SystemProjectReconciliationReport,
    project_id: String,
    project_label: String,
    outcome: ProjectApplyOutcome,
) -> (next: PassNext)
    requires
        old(report).succeeded < usize::MAX,
    ensures
        match outcome {
            ProjectApplyOutcome::Completed { summary } => {
                &&& next is Continue
                &&& final(report).total == old(report).total
                &&& final(report).succeeded == old(report).succeeded + 1
                &&& final(report).successful_project_ids@ == old(report).successful_project_ids@.push(project_id)
                &&& final(report).summaries@ == old(report).summaries@.push(summary)
                &&& final(report).failures@ == old(report).failures@
            },
            ProjectApplyOutcome::Cancelled => next is Stop && report_unchanged(*old(report), *final(report)),
            ProjectApplyOutcome::Failed(e) => if e is ProjectEnvFailureRecordingFailed {
                next == PassNext::Abort(e) && report_unchanged(*old(report), *final(report))
            } else {
                next is Continue && failure_added(
                    *old(report),
                    *final(report),
                    DaemonError::ProjectReconciliation { project_label, source: Box::new(e) },
                )
            },
        },
{
    match outcome {
        ProjectApplyOutcome::Completed { summary } => {
            report.succeeded = report.succeeded + 1;
            report.successful_project_ids.push(project_id);
            report.summaries.push(summary);
            PassNext::Continue
        },
        ProjectApplyOutcome::Cancelled => PassNext::Stop,
        ProjectApplyOutcome::Failed(e) => {
            if matches!(e, DaemonError::ProjectEnvFailureRecordingFailed { .. }) {
                PassNext::Abort(e)
            } else {
                report.failures.push(DaemonError::ProjectReconciliation { project_label, source: Box::new(e) });
                PassNext::Continue
            }
        },
    }
}

/// Adds a Project whose resource allocation failed before its apply: when recording that
/// failure failed, the pass ends with both errors; otherwise the allocation failure is
/// reported under the Project's label.
pub fn record_allocation_failure(
    report: &mut SystemProjectReconciliationReport,
    project_id: String,
    project_label: String,
    error: DaemonError,
    recording: Result<(), DaemonError>,
) -> (next: PassNext)
    ensures
        match recording {
            Err(r) => next == PassNext::Abort(
                DaemonError::ProjectAllocationFailureRecordingFailed {
                    project_id,
                    allocation: Box::new(error),
                    recording: Box::new(r),
                },
            ) && report_unchanged(*old(report), *final(report)),
            Ok(()) => next is Continue && failure_added(
                *old(report),
                *final(report),
                DaemonError::ProjectReconciliation { project_label, source: Box::new(error) },
            ),
        },
{
    match recording {
        Err(r) => PassNext::Abort(
            DaemonError::ProjectAllocationFailureRecordingFailed {
                project_id,
                allocation: Box::new(error),
                recording: Box::new(r),
            },
        ),
        Ok(()) => {
            report.failures.push(DaemonError::ProjectReconciliation { project_label, source: Box::new(error) });
            PassNext::Continue
        },
    }
}

} // verus!
