//! What the phase log records when a Project or demand-discovery phase finishes.
use vstd::prelude::*;

use crate::demand::SystemProjectDemandReport;
use crate::error::DaemonError;
use crate::jobs::SystemProjectReconciliationReport;
use crate::timing::usize_as_u64;

verus! {

/// How a timed phase ended.
#[derive(PartialEq, Eq, Structural)]
pub enum PhaseOutcome {
    Succeeded,
    Failed,
    Skipped,
    Fallback,
}

impl PhaseOutcome {
    /// `Succeeded` when `succeeded`, `Failed` otherwise.
    pub fn from_succeeded(succeeded: bool) -> (outcome: Self)
        ensures
            outcome == if succeeded {
                PhaseOutcome::Succeeded
            } else {
                PhaseOutcome::Failed
            },
    {
        if succeeded {
            PhaseOutcome::Succeeded
        } else {
            PhaseOutcome::Failed
        }
    }
}

/// The record of a finished Project Apply phase.
pub struct ProjectPhaseRecord {
    pub outcome: PhaseOutcome,
    pub project_count: u64,
    pub succeeded_count: u64,
    pub failed_count: u64,
}

/// The record of a finished demand-discovery phase.
pub struct DemandDiscoveryPhaseRecord {
    pub outcome: PhaseOutcome,
    pub project_count: u64,
    pub fallback_count: u64,
}

/// `record` is the Project Apply record of a pass that ended with `result`.
pub open spec fn project_record_of(
    result: Result<SystemProjectReconciliationReport, DaemonError>,
    record: ProjectPhaseRecord,
) -> bool {
    match result {
        Ok(report) => {
            &&& record.outcome == if report.failures@.len() == 0 {
                PhaseOutcome::Succeeded
            } else {
                PhaseOutcome::Failed
            }
            &&& record.project_count == report.total
            &&& record.succeeded_count == report.succeeded
            &&& record.failed_count == report.failures@.len()
        },
        Err(_) => {
            &&& record.outcome == PhaseOutcome::Failed
            &&& record.project_count == 0
            &&& record.succeeded_count == 0
            &&& record.failed_count == 0
        },
    }
}

/// `record` is the demand-discovery record of a discovery that ended with `result`.
pub open spec fn demand_record_of(
    result: Result<SystemProjectDemandReport, DaemonError>,
    record: DemandDiscoveryPhaseRecord,
) -> bool {
    match result {
        Ok(report) => {
            &&& record.outcome == if report.fallback_count > 0 {
                PhaseOutcome::Fallback
            } else {
                PhaseOutcome::Succeeded
            }
            &&& record.project_count == report.project_count
            &&& record.fallback_count == report.fallback_count
        },
        Err(_) => {
            &&& record.outcome == PhaseOutcome::Failed
            &&& record.project_count == 0
            &&& record.fallback_count == 0
        },
    }
}

/// The Project Apply phase succeeded when the pass ran and no Project failed; its counts are
/// those of the pass, or zero when the pass itself failed.
pub fn finish_project_phase(result: &Result<SystemProjectReconciliationReport, DaemonError>) -> (record:
    ProjectPhaseRecord)
    ensures
        project_record_of(*result, record),
{
    match result {
        Ok(report) => ProjectPhaseRecord {
            outcome: PhaseOutcome::from_succeeded(report.failures.len() == 0),
            project_count: usize_as_u64(report.total),
            succeeded_count: usize_as_u64(report.succeeded),
            failed_count: usize_as_u64(report.failures.len()),
        },
        Err(_) => ProjectPhaseRecord {
            outcome: PhaseOutcome::Failed,
            project_count: 0,
            succeeded_count: 0,
            failed_count: 0,
        },
    }
}

/// Demand discovery that fell back for some Project is recorded as a fallback; a failed
/// discovery records no counts.
pub fn finish_demand_discovery_phase(result: &Result<SystemProjectDemandReport, DaemonError>) -> (record:
    DemandDiscoveryPhaseRecord)
    ensures
        demand_record_of(*result, record),
{
    match result {
        Ok(report) => {
            if report.fallback_count > 0 {
                DemandDiscoveryPhaseRecord {
                    outcome: PhaseOutcome::Fallback,
                    project_count: usize_as_u64(report.project_count),
                    fallback_count: usize_as_u64(report.fallback_count),
                }
            } else {
                DemandDiscoveryPhaseRecord {
                    outcome: PhaseOutcome::Succeeded,
                    project_count: usize_as_u64(report.project_count),
                    fallback_count: 0,
                }
            }
        },
        Err(_) => DemandDiscoveryPhaseRecord {
            outcome: PhaseOutcome::Failed,
            project_count: 0,
            fallback_count: 0,
        },
    }
}

} // verus!
