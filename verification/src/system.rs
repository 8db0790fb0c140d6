//! The decisions of a System reconciliation.
//!
//! A System reconciliation discovers the linked Projects' demand, reconciles the desired
//! Managed Resources (retrying once), picks up demand from Projects linked meanwhile,
//! applies the Projects, stops runtimes nobody demands, re-verifies resources when something
//! failed, reconciles the gateway and records its coverage. The work itself happens outside;
//! [`system_step`] takes the state and what the last piece of work returned, and says what to
//! do next. A fallback shutdown observed after a step cancels the pass, unless a failure is
//! already known: failures are then reported rather than hidden behind the cancellation.
use vstd::prelude::*;

use crate::demand::SystemProjectDemandReport;
use crate::error::DaemonError;
use crate::jobs::{
    cancel_or_preserve_system_reconciliation_errors, collect_system_failures,
    combined_system_reconciliation_error, system_failures, CompletedReconciliationJob,
    ReconciliationOutcome, SystemProjectReconciliationReport,
};
use crate::phases::{
    demand_record_of, finish_demand_discovery_phase, finish_project_phase, project_record_of,
    DemandDiscoveryPhaseRecord, PhaseOutcome, ProjectPhaseRecord,
};
use crate::stream::ReconciliationPhase;
use crate::summary::{system_reconciliation_summary, system_summary_text};

verus! {

/// The diagnostic subject a failed System pass is recorded against.
#[derive(PartialEq, Eq, Structural)]
pub enum FailureSubject {
    GatewayRuntime,
    SystemReconciliation,
}

/// Where a System reconciliation stands: which piece of work it waits for, and the results
/// gathered so far.
pub enum SystemState {
    /// Nothing has run yet.
    Start,
    /// Waiting for demand discovery over the linked Projects.
    DiscoveringDemand,
    /// Waiting for the first Resources pass.
    ReconcilingResources,
    /// Waiting for the retried Resources pass.
    RetryingResources,
    /// Waiting to learn whether Projects linked meanwhile add resource demand.
    DiscoveringLateDemand { resources: Result<(), DaemonError> },
    /// Waiting for the Resources pass over the added demand.
    ReconcilingLateResources,
    /// Waiting for the list of linked Projects.
    ListingProjects { resources: Result<(), DaemonError> },
    /// Waiting for the Project Apply pass.
    ApplyingProjects { resources: Result<(), DaemonError> },
    /// Waiting for runtimes without demand to be stopped.
    StoppingRuntimes {
        resources: Result<(), DaemonError>,
        project: Result<SystemProjectReconciliationReport, DaemonError>,
    },
    /// Waiting for the read-only re-verification of the installed resources.
    VerifyingResources {
        project: Result<SystemProjectReconciliationReport, DaemonError>,
        cleanup: Result<(), DaemonError>,
    },
    /// Waiting to observe the fallback shutdown before the gateway.
    CheckingShutdown {
        resources: Result<(), DaemonError>,
        project: Result<SystemProjectReconciliationReport, DaemonError>,
        cleanup: Result<(), DaemonError>,
    },
    /// Waiting for the gateway reconciliation.
    ReconcilingGateway {
        resources: Result<(), DaemonError>,
        project: Result<SystemProjectReconciliationReport, DaemonError>,
        cleanup: Result<(), DaemonError>,
    },
    /// Waiting for the coverage of the completed pass.
    ComputingCoverage { summary: String },
    /// The pass has finished.
    Finished,
}

/// What the last piece of work returned, with whether a fallback shutdown was requested
/// by the time it returned.
pub enum SystemEvent<S> {
    Began { shutdown: bool },
    /// What discovery found over the linked Projects.
    DemandDiscovered { result: Result<SystemProjectDemandReport, DaemonError>, shutdown: bool },
    /// `shutdown_pending` also counts a pending startup shutdown signal.
    ResourcesReconciled { result: Result<(), DaemonError>, shutdown: bool, shutdown_pending: bool },
    ResourcesRetried { result: Result<(), DaemonError>, shutdown: bool },
    /// `Ok(true)` when Projects linked meanwhile add resource demand.
    LateDemandDiscovered { result: Result<bool, DaemonError>, shutdown: bool },
    LateResourcesReconciled { result: Result<(), DaemonError>, shutdown: bool },
    ProjectsListed { result: Result<(), DaemonError>, shutdown: bool },
    ProjectsApplied { result: Result<SystemProjectReconciliationReport, DaemonError>, shutdown: bool },
    RuntimesStopped { result: Result<(), DaemonError>, shutdown: bool },
    ResourcesVerified { result: Result<(), DaemonError>, shutdown: bool },
    ShutdownChecked { shutdown: bool },
    /// The gateway's summary, or its cancellation by the fallback shutdown.
    GatewayReconciled { result: Result<ReconciliationOutcome<String>, DaemonError> },
    CoverageComputed { result: Result<Vec<S>, DaemonError> },
}

/// What to do next.
pub enum SystemAction<S> {
    DiscoverDemand,
    ReconcileResources,
    RetryResources,
    DiscoverLateDemand,
    ReconcileLateResources,
    ListProjects,
    ApplyProjects,
    StopUndemandedRuntimes,
    /// Re-verify the installed resources; Projects applied successfully keep their tracks.
    VerifyResources,
    /// Look once more whether a fallback shutdown was requested.
    CheckShutdown,
    /// Reconcile the gateway; the failure subject is now the gateway runtime.
    ReconcileGateway,
    /// Compute the coverage of the Projects in the report.
    ComputeCoverage { report: SystemProjectReconciliationReport },
    /// The pass is over; record failures against `subject` when it is set.
    Finish {
        result: Result<ReconciliationOutcome<CompletedReconciliationJob<S>>, DaemonError>,
        subject: Option<FailureSubject>,
    },
}

/// Whether `event` answers the work `state` waits for.
pub open spec fn event_fits<S>(state: SystemState, event: SystemEvent<S>) -> bool {
    match state {
        SystemState::Start => event is Began,
        SystemState::DiscoveringDemand => event is DemandDiscovered,
        SystemState::ReconcilingResources => event is ResourcesReconciled,
        SystemState::RetryingResources => event is ResourcesRetried,
        SystemState::DiscoveringLateDemand { .. } => event is LateDemandDiscovered,
        SystemState::ReconcilingLateResources => event is LateResourcesReconciled,
        SystemState::ListingProjects { .. } => event is ProjectsListed,
        SystemState::ApplyingProjects { .. } => event is ProjectsApplied,
        SystemState::StoppingRuntimes { .. } => event is RuntimesStopped,
        SystemState::VerifyingResources { .. } => event is ResourcesVerified,
        SystemState::CheckingShutdown { .. } => event is ShutdownChecked,
        SystemState::ReconcilingGateway { .. } => event is GatewayReconciled,
        SystemState::ComputingCoverage { .. } => event is CoverageComputed,
        SystemState::Finished => false,
    }
}

/// How far a state is from the end of the pass: every step that does not finish lowers it.
pub open spec fn system_rank(state: SystemState) -> nat {
    match state {
        SystemState::Start => 13,
        SystemState::DiscoveringDemand => 12,
        SystemState::ReconcilingResources => 11,
        SystemState::RetryingResources => 10,
        SystemState::DiscoveringLateDemand { .. } => 9,
        SystemState::ReconcilingLateResources => 8,
        SystemState::ListingProjects { .. } => 7,
        SystemState::ApplyingProjects { .. } => 6,
        SystemState::StoppingRuntimes { .. } => 5,
        SystemState::VerifyingResources { .. } => 4,
        SystemState::CheckingShutdown { .. } => 3,
        SystemState::ReconcilingGateway { .. } => 2,
        SystemState::ComputingCoverage { .. } => 1,
        SystemState::Finished => 0,
    }
}

/// `result` cancels the pass when `resources` succeeded, and reports its failure otherwise.
pub open spec fn cancelled_or_resources_failure<S>(
    resources: Result<(), DaemonError>,
    result: Result<ReconciliationOutcome<CompletedReconciliationJob<S>>, DaemonError>,
) -> bool {
    match resources {
        Ok(()) => result is Ok && result->Ok_0 is Cancelled,
        Err(e) => result == Err::<ReconciliationOutcome<CompletedReconciliationJob<S>>, DaemonError>(e),
    }
}

/// `result` cancels the pass when `failures` is empty, and otherwise reports them: a single
/// failure as itself, several together in order.
pub open spec fn cancelled_or_failures<S>(
    failures: Seq<DaemonError>,
    result: Result<ReconciliationOutcome<CompletedReconciliationJob<S>>, DaemonError>,
) -> bool {
    &&& failures.len() == 0 ==> result is Ok && result->Ok_0 is Cancelled
    &&& failures.len() == 1 ==> result == Err::<
        ReconciliationOutcome<CompletedReconciliationJob<S>>,
        DaemonError,
    >(failures[0])
    &&& failures.len() > 1 ==> (result matches Err(
        DaemonError::SystemReconciliationFailures { failures: all },
    ) && all@ == failures)
}

/// `action` finishes the pass with a result meeting `p` and no failure subject.
pub open spec fn finishes_unattributed<S>(
    action: SystemAction<S>,
    p: spec_fn(Result<ReconciliationOutcome<CompletedReconciliationJob<S>>, DaemonError>) -> bool,
) -> bool {
    &&& action matches SystemAction::Finish { result, subject }
    &&& subject is None
    &&& p(result)
}

/// Whether some failure is known: resources, the Project pass or one of its Projects, or cleanup.
pub open spec fn has_system_failure(
    resources: Result<(), DaemonError>,
    project: Result<SystemProjectReconciliationReport, DaemonError>,
    cleanup: Result<(), DaemonError>,
) -> bool {
    resources is Err || (match project {
        Ok(report) => report.failures@.len() > 0,
        Err(_) => true,
    }) || cleanup is Err
}

/// Whether the resources must be re-verified after the Project pass: the resources failed,
/// or some Project did.
pub open spec fn needs_verification(
    resources: Result<(), DaemonError>,
    project: Result<SystemProjectReconciliationReport, DaemonError>,
) -> bool {
    resources is Err || (project matches Ok(report) && report.failures@.len() > 0)
}

/// The transitions of a System reconciliation.
pub open spec fn system_transition<S>(
    state: SystemState,
    event: SystemEvent<S>,
    next: SystemState,
    action: SystemAction<S>,
) -> bool {
    match (state, event) {
        (SystemState::Start, SystemEvent::Began { shutdown }) => if shutdown {
            next is Finished && finishes_unattributed(
                action,
                |r: Result<ReconciliationOutcome<CompletedReconciliationJob<S>>, DaemonError>|
                    r is Ok && r->Ok_0 is Cancelled,
            )
        } else {
            next is DiscoveringDemand && action is DiscoverDemand
        },
        (SystemState::DiscoveringDemand, SystemEvent::DemandDiscovered { result, shutdown }) =>
            match result {
            Err(e) => next is Finished && finishes_unattributed(
                action,
                |r: Result<ReconciliationOutcome<CompletedReconciliationJob<S>>, DaemonError>|
                    r == Err::<ReconciliationOutcome<CompletedReconciliationJob<S>>, DaemonError>(e),
            ),
            Ok(_) => if shutdown {
                next is Finished && finishes_unattributed(
                    action,
                    |r: Result<ReconciliationOutcome<CompletedReconciliationJob<S>>, DaemonError>|
                        r is Ok && r->Ok_0 is Cancelled,
                )
            } else {
                next is ReconcilingResources && action is ReconcileResources
            },
        },
        (
            SystemState::ReconcilingResources,
            SystemEvent::ResourcesReconciled { result, shutdown, shutdown_pending },
        ) => if shutdown {
            next is Finished && finishes_unattributed(
                action,
                |r: Result<ReconciliationOutcome<CompletedReconciliationJob<S>>, DaemonError>|
                    cancelled_or_resources_failure(result, r),
            )
        } else if result is Err && !shutdown_pending {
            next is RetryingResources && action is RetryResources
        } else {
            next == (SystemState::DiscoveringLateDemand { resources: result })
                && action is DiscoverLateDemand
        },
        (SystemState::RetryingResources, SystemEvent::ResourcesRetried { result, shutdown }) =>
            if shutdown {
            next is Finished && finishes_unattributed(
                action,
                |r: Result<ReconciliationOutcome<CompletedReconciliationJob<S>>, DaemonError>|
                    cancelled_or_resources_failure(result, r),
            )
        } else {
            next == (SystemState::DiscoveringLateDemand { resources: result })
                && action is DiscoverLateDemand
        },
        (
            SystemState::DiscoveringLateDemand { resources },
            SystemEvent::LateDemandDiscovered { result, shutdown },
        ) => match result {
            Err(e) => next is Finished && finishes_unattributed(
                action,
                |r: Result<ReconciliationOutcome<CompletedReconciliationJob<S>>, DaemonError>|
                    r == Err::<ReconciliationOutcome<CompletedReconciliationJob<S>>, DaemonError>(e),
            ),
            Ok(late) => if shutdown {
                next is Finished && finishes_unattributed(
                    action,
                    |r: Result<ReconciliationOutcome<CompletedReconciliationJob<S>>, DaemonError>|
                        cancelled_or_resources_failure(resources, r),
                )
            } else if late {
                next is ReconcilingLateResources && action is ReconcileLateResources
            } else {
                next == (SystemState::ListingProjects { resources }) && action is ListProjects
            },
        },
        (
            SystemState::ReconcilingLateResources,
            SystemEvent::LateResourcesReconciled { result, shutdown },
        ) => if shutdown {
            next is Finished && finishes_unattributed(
                action,
                |r: Result<ReconciliationOutcome<CompletedReconciliationJob<S>>, DaemonError>|
                    cancelled_or_resources_failure(result, r),
            )
        } else {
            next == (SystemState::ListingProjects { resources: result }) && action is ListProjects
        },
        (SystemState::ListingProjects { resources }, SystemEvent::ProjectsListed { result, shutdown }) =>
            match result {
            Err(e) => next is Finished && finishes_unattributed(
                action,
                |r: Result<ReconciliationOutcome<CompletedReconciliationJob<S>>, DaemonError>|
                    r == Err::<ReconciliationOutcome<CompletedReconciliationJob<S>>, DaemonError>(e),
            ),
            Ok(()) => if shutdown {
                next is Finished && finishes_unattributed(
                    action,
                    |r: Result<ReconciliationOutcome<CompletedReconciliationJob<S>>, DaemonError>|
                        cancelled_or_resources_failure(resources, r),
                )
            } else {
                next == (SystemState::ApplyingProjects { resources }) && action is ApplyProjects
            },
        },
        (
            SystemState::ApplyingProjects { resources },
            SystemEvent::ProjectsApplied { result, shutdown },
        ) => if shutdown {
            next is Finished && finishes_unattributed(
                action,
                |r: Result<ReconciliationOutcome<CompletedReconciliationJob<S>>, DaemonError>|
                    cancelled_or_failures(system_failures(resources, result, Ok(())), r),
            )
        } else {
            next == (SystemState::StoppingRuntimes { resources, project: result })
                && action is StopUndemandedRuntimes
        },
        (
            SystemState::StoppingRuntimes { resources, project },
            SystemEvent::RuntimesStopped { result, shutdown },
        ) => if shutdown {
            next is Finished && finishes_unattributed(
                action,
                |r: Result<ReconciliationOutcome<CompletedReconciliationJob<S>>, DaemonError>|
                    cancelled_or_failures(system_failures(resources, project, result), r),
            )
        } else if needs_verification(resources, project) {
            next == (SystemState::VerifyingResources { project, cleanup: result })
                && action is VerifyResources
        } else {
            next == (SystemState::CheckingShutdown { resources, project, cleanup: result })
                && action is CheckShutdown
        },
        (
            SystemState::VerifyingResources { project, cleanup },
            SystemEvent::ResourcesVerified { result, shutdown },
        ) => if shutdown {
            next is Finished && finishes_unattributed(
                action,
                |r: Result<ReconciliationOutcome<CompletedReconciliationJob<S>>, DaemonError>|
                    cancelled_or_failures(system_failures(result, project, cleanup), r),
            )
        } else {
            next == (SystemState::ReconcilingGateway { resources: result, project, cleanup })
                && action is ReconcileGateway
        },
        (
            SystemState::CheckingShutdown { resources, project, cleanup },
            SystemEvent::ShutdownChecked { shutdown },
        ) => if shutdown {
            next is Finished && finishes_unattributed(
                action,
                |r: Result<ReconciliationOutcome<CompletedReconciliationJob<S>>, DaemonError>|
                    cancelled_or_failures(system_failures(resources, project, cleanup), r),
            )
        } else {
            next == (SystemState::ReconcilingGateway { resources, project, cleanup })
                && action is ReconcileGateway
        },
        (
            SystemState::ReconcilingGateway { resources, project, cleanup },
            SystemEvent::GatewayReconciled { result },
        ) => match (resources, project, cleanup, result) {
            (Ok(()), Ok(report), Ok(()), Ok(ReconciliationOutcome::Completed(gateway))) => {
                &&& next matches SystemState::ComputingCoverage { summary }
                &&& summary@ == system_summary_text(report, gateway@)
                &&& action == (SystemAction::<S>::ComputeCoverage { report })
            },
            (Ok(()), Ok(report), Ok(()), Ok(ReconciliationOutcome::Cancelled)) => {
                &&& next is Finished
                &&& action matches SystemAction::Finish { result: r, subject }
                &&& subject == (if report.failures@.len() > 0 {
                    Some(FailureSubject::SystemReconciliation)
                } else {
                    Some(FailureSubject::GatewayRuntime)
                })
                &&& cancelled_or_failures(report.failures@, r)
            },
            _ => {
                &&& next is Finished
                &&& action matches SystemAction::Finish { result: r, subject }
                &&& subject == (if has_system_failure(resources, project, cleanup) {
                    Some(FailureSubject::SystemReconciliation)
                } else {
                    Some(FailureSubject::GatewayRuntime)
                })
                &&& ({
                let failures = system_failures(resources, project, cleanup) + match result {
                    Err(e) => seq![e],
                    Ok(_) => Seq::empty(),
                };
                &&& failures.len() == 1 ==> r == Err::<
                    ReconciliationOutcome<CompletedReconciliationJob<S>>,
                    DaemonError,
                >(failures[0])
                &&& failures.len() != 1 ==> (r matches Err(
                    DaemonError::SystemReconciliationFailures { failures: all },
                ) && all@ == failures)
            })
            },
        },
        (SystemState::ComputingCoverage { summary }, SystemEvent::CoverageComputed { result }) => {
            &&& next is Finished
            &&& action matches SystemAction::Finish { result: r, subject }
            &&& subject == Some(FailureSubject::SystemReconciliation)
            &&& match result {
            Ok(coverage) => r == Ok::<
                ReconciliationOutcome<CompletedReconciliationJob<S>>,
                DaemonError,
            >(ReconciliationOutcome::Completed(CompletedReconciliationJob { summary, coverage })),
            Err(e) => r == Err::<ReconciliationOutcome<CompletedReconciliationJob<S>>, DaemonError>(
                e,
            ),
            }
        },
        _ => false,
    }
}

fn finish<S>(
    result: Result<ReconciliationOutcome<CompletedReconciliationJob<S>>, DaemonError>,
    subject: Option<FailureSubject>,
) -> (step: (SystemState, SystemAction<S>))
    ensures
        step.0 is Finished,
        step.1 == (SystemAction::Finish { result, subject }),
{
    (SystemState::Finished, SystemAction::Finish { result, subject })
}

fn cancelled<S>() -> (r: Result<ReconciliationOutcome<CompletedReconciliationJob<S>>, DaemonError>)
    ensures
        r is Ok && r->Ok_0 is Cancelled,
{
    Ok(ReconciliationOutcome::Cancelled)
}

fn cancel_or_resources_failure<S>(resources: Result<(), DaemonError>) -> (r: Result<
    ReconciliationOutcome<CompletedReconciliationJob<S>>,
    DaemonError,
>)
    ensures
        cancelled_or_resources_failure(resources, r),
{
    match resources {
        Ok(()) => Ok(ReconciliationOutcome::Cancelled),
        Err(e) => Err(e),
    }
}

/// Decides what a System reconciliation does after `event`, from `state`.
pub fn system_step<S>(state: SystemState, event: SystemEvent<S>) -> (step: (SystemState, SystemAction<S>))
    requires
        event_fits(state, event),
    ensures
        system_transition(state, event, step.0, step.1),
        step.1 is Finish || system_rank(step.0) < system_rank(state),
{
    match state {
        SystemState::Start => match event {
            SystemEvent::Began { shutdown } => {
                if shutdown {
                    finish(cancelled(), None)
                } else {
                    (SystemState::DiscoveringDemand, SystemAction::DiscoverDemand)
                }
            },
            _ => (SystemState::Finished, SystemAction::DiscoverDemand),
        },
        SystemState::DiscoveringDemand => match event {
            SystemEvent::DemandDiscovered { result, shutdown } => match result {
                Err(e) => finish(Err(e), None),
                Ok(_) => {
                    if shutdown {
                        finish(cancelled(), None)
                    } else {
                        (SystemState::ReconcilingResources, SystemAction::ReconcileResources)
                    }
                },
            },
            _ => (SystemState::Finished, SystemAction::DiscoverDemand),
        },
        SystemState::ReconcilingResources => match event {
            SystemEvent::ResourcesReconciled { result, shutdown, shutdown_pending } => {
                if shutdown {
                    finish(cancel_or_resources_failure(result), None)
                } else if result.is_err() && !shutdown_pending {
                    (SystemState::RetryingResources, SystemAction::RetryResources)
                } else {
                    (
                        SystemState::DiscoveringLateDemand { resources: result },
                        SystemAction::DiscoverLateDemand,
                    )
                }
            },
            _ => (SystemState::Finished, SystemAction::DiscoverDemand),
        },
        SystemState::RetryingResources => match event {
            SystemEvent::ResourcesRetried { result, shutdown } => {
                if shutdown {
                    finish(cancel_or_resources_failure(result), None)
                } else {
                    (
                        SystemState::DiscoveringLateDemand { resources: result },
                        SystemAction::DiscoverLateDemand,
                    )
                }
            },
            _ => (SystemState::Finished, SystemAction::DiscoverDemand),
        },
        SystemState::DiscoveringLateDemand { resources } => match event {
            SystemEvent::LateDemandDiscovered { result, shutdown } => match result {
                Err(e) => finish(Err(e), None),
                Ok(late) => {
                    if shutdown {
                        finish(cancel_or_resources_failure(resources), None)
                    } else if late {
                        (SystemState::ReconcilingLateResources, SystemAction::ReconcileLateResources)
                    } else {
                        (SystemState::ListingProjects { resources }, SystemAction::ListProjects)
                    }
                },
            },
            _ => (SystemState::Finished, SystemAction::DiscoverDemand),
        },
        SystemState::ReconcilingLateResources => match event {
            SystemEvent::LateResourcesReconciled { result, shutdown } => {
                if shutdown {
                    finish(cancel_or_resources_failure(result), None)
                } else {
                    (SystemState::ListingProjects { resources: result }, SystemAction::ListProjects)
                }
            },
            _ => (SystemState::Finished, SystemAction::DiscoverDemand),
        },
        SystemState::ListingProjects { resources } => match event {
            SystemEvent::ProjectsListed { result, shutdown } => match result {
                Err(e) => finish(Err(e), None),
                Ok(()) => {
                    if shutdown {
                        finish(cancel_or_resources_failure(resources), None)
                    } else {
                        (SystemState::ApplyingProjects { resources }, SystemAction::ApplyProjects)
                    }
                },
            },
            _ => (SystemState::Finished, SystemAction::DiscoverDemand),
        },
        SystemState::ApplyingProjects { resources } => match event {
            SystemEvent::ProjectsApplied { result, shutdown } => {
                if shutdown {
                    finish(
                        cancel_or_preserve_system_reconciliation_errors(resources, result, Ok(())),
                        None,
                    )
                } else {
                    (
                        SystemState::StoppingRuntimes { resources, project: result },
                        SystemAction::StopUndemandedRuntimes,
                    )
                }
            },
            _ => (SystemState::Finished, SystemAction::DiscoverDemand),
        },
        SystemState::StoppingRuntimes { resources, project } => match event {
            SystemEvent::RuntimesStopped { result, shutdown } => {
                if shutdown {
                    finish(
                        cancel_or_preserve_system_reconciliation_errors(resources, project, result),
                        None,
                    )
                } else {
                    let verify = match &resources {
                        Err(_) => true,
                        Ok(()) => match &project {
                            Ok(report) => report.failures.len() > 0,
                            Err(_) => false,
                        },
                    };
                    if verify {
                        (
                            SystemState::VerifyingResources { project, cleanup: result },
                            SystemAction::VerifyResources,
                        )
                    } else {
                        (
                            SystemState::CheckingShutdown { resources, project, cleanup: result },
                            SystemAction::CheckShutdown,
                        )
                    }
                }
            },
            _ => (SystemState::Finished, SystemAction::DiscoverDemand),
        },
        SystemState::VerifyingResources { project, cleanup } => match event {
            SystemEvent::ResourcesVerified { result, shutdown } => {
                if shutdown {
                    finish(
                        cancel_or_preserve_system_reconciliation_errors(result, project, cleanup),
                        None,
                    )
                } else {
                    (
                        SystemState::ReconcilingGateway { resources: result, project, cleanup },
                        SystemAction::ReconcileGateway,
                    )
                }
            },
            _ => (SystemState::Finished, SystemAction::DiscoverDemand),
        },
        SystemState::CheckingShutdown { resources, project, cleanup } => match event {
            SystemEvent::ShutdownChecked { shutdown } => {
                if shutdown {
                    finish(
                        cancel_or_preserve_system_reconciliation_errors(resources, project, cleanup),
                        None,
                    )
                } else {
                    (
                        SystemState::ReconcilingGateway { resources, project, cleanup },
                        SystemAction::ReconcileGateway,
                    )
                }
            },
            _ => (SystemState::Finished, SystemAction::DiscoverDemand),
        },
        SystemState::ReconcilingGateway { resources, project, cleanup } => match event {
            SystemEvent::GatewayReconciled { result } => {
                gateway_step(resources, project, cleanup, result)
            },
            _ => (SystemState::Finished, SystemAction::DiscoverDemand),
        },
        SystemState::ComputingCoverage { summary } => match event {
            SystemEvent::CoverageComputed { result } => match result {
                Ok(coverage) => finish(
                    Ok(ReconciliationOutcome::Completed(CompletedReconciliationJob { summary, coverage })),
                    Some(FailureSubject::SystemReconciliation),
                ),
                Err(e) => finish(Err(e), Some(FailureSubject::SystemReconciliation)),
            },
            _ => (SystemState::Finished, SystemAction::DiscoverDemand),
        },
        SystemState::Finished => (SystemState::Finished, SystemAction::DiscoverDemand),
    }
}

fn gateway_step<S>(
    resources: Result<(), DaemonError>,
    project: Result<SystemProjectReconciliationReport, DaemonError>,
    cleanup: Result<(), DaemonError>,
    gateway: Result<ReconciliationOutcome<String>, DaemonError>,
) -> (step: (SystemState, SystemAction<S>))
    ensures
        system_transition(
            SystemState::ReconcilingGateway { resources, project, cleanup },
            SystemEvent::<S>::GatewayReconciled { result: gateway },
            step.0,
            step.1,
        ),
        step.1 is Finish || step.0 is ComputingCoverage,
{
    let all_ok = resources.is_ok() && project.is_ok() && cleanup.is_ok() && gateway.is_ok();
    if all_ok {
        let report = match project {
            Ok(report) => report,
            Err(_) => SystemProjectReconciliationReport::empty(),
        };
        match gateway {
            Ok(ReconciliationOutcome::Completed(gateway_summary)) => {
                let summary = system_reconciliation_summary(&report, gateway_summary.as_str());
                return (
                    SystemState::ComputingCoverage { summary },
                    SystemAction::ComputeCoverage { report },
                );
            },
            _ => {
                let subject = if report.failures.len() > 0 {
                    FailureSubject::SystemReconciliation
                } else {
                    FailureSubject::GatewayRuntime
                };
                let result = cancel_or_preserve_system_reconciliation_errors(
                    Ok(()),
                    Ok(report),
                    Ok(()),
                );
                proof {
                    assert(system_failures(Ok(()), Ok(report), Ok(())) =~= report.failures@);
                }
                return finish(result, Some(subject));
            },
        }
    }
    let system_failure = resources.is_err() || match &project {
        Ok(report) => report.failures.len() > 0,
        Err(_) => true,
    } || cleanup.is_err();
    let subject = if system_failure {
        FailureSubject::SystemReconciliation
    } else {
        FailureSubject::GatewayRuntime
    };
    let ghost earlier = system_failures(resources, project, cleanup);
    let ghost gateway_failure = if gateway is Err {
        seq![gateway->Err_0]
    } else {
        Seq::<DaemonError>::empty()
    };
    let mut failures = collect_system_failures(resources, project, cleanup);
    match gateway {
        Err(e) => failures.push(e),
        Ok(_) => {},
    }
    proof {
        assert(failures@ =~= earlier + gateway_failure);
    }
    finish(Err(combined_system_reconciliation_error(failures)), Some(subject))
}

/// `next` waits for the very work `action` asks for.
pub open spec fn system_awaits<S>(next: SystemState, action: SystemAction<S>) -> bool {
    match (next, action) {
        (SystemState::DiscoveringDemand, SystemAction::DiscoverDemand) => true,
        (SystemState::ReconcilingResources, SystemAction::ReconcileResources) => true,
        (SystemState::RetryingResources, SystemAction::RetryResources) => true,
        (SystemState::DiscoveringLateDemand { .. }, SystemAction::DiscoverLateDemand) => true,
        (SystemState::ReconcilingLateResources, SystemAction::ReconcileLateResources) => true,
        (SystemState::ListingProjects { .. }, SystemAction::ListProjects) => true,
        (SystemState::ApplyingProjects { .. }, SystemAction::ApplyProjects) => true,
        (SystemState::StoppingRuntimes { .. }, SystemAction::StopUndemandedRuntimes) => true,
        (SystemState::VerifyingResources { .. }, SystemAction::VerifyResources) => true,
        (SystemState::CheckingShutdown { .. }, SystemAction::CheckShutdown) => true,
        (SystemState::ReconcilingGateway { .. }, SystemAction::ReconcileGateway) => true,
        (SystemState::ComputingCoverage { .. }, SystemAction::ComputeCoverage { .. }) => true,
        (SystemState::Finished, SystemAction::Finish { .. }) => true,
        _ => false,
    }
}

/// A System reconciliation always ends: each step either finishes or moves closer to the end.
/// After each step, the state waits for exactly the work the step asks for.
pub proof fn lemma_system_step_progresses<S>(
    state: SystemState,
    event: SystemEvent<S>,
    next: SystemState,
    action: SystemAction<S>,
)
    requires
        event_fits(state, event),
        system_transition(state, event, next, action),
    ensures
        system_awaits(next, action),
        action is Finish || system_rank(next) < system_rank(state),
        action is Finish ==> next is Finished,
{
}

/// A phase record that a System pass writes when a piece of its work ends.
pub enum SystemPhaseRecord {
    /// Demand discovery ended.
    DemandDiscovery(DemandDiscoveryPhaseRecord),
    /// A Resources pass ended: the first, the retried, or the one over late demand.
    Resources(PhaseOutcome),
    /// The Project Apply pass ended.
    ProjectApply(ProjectPhaseRecord),
}

/// The phase that the work `action` asks for opens, reported live as it starts.
pub open spec fn system_action_phase<S>(action: SystemAction<S>) -> Option<ReconciliationPhase> {
    match action {
        SystemAction::DiscoverDemand => Some(ReconciliationPhase::DemandDiscovery),
        SystemAction::ReconcileResources => Some(ReconciliationPhase::Resources),
        SystemAction::RetryResources => Some(ReconciliationPhase::Resources),
        SystemAction::ReconcileLateResources => Some(ReconciliationPhase::Resources),
        SystemAction::ApplyProjects => Some(ReconciliationPhase::ProjectApply),
        _ => None,
    }
}

/// The phase record written when the work that `event` reports ends.
pub open spec fn system_event_record<S>(event: SystemEvent<S>, record: Option<SystemPhaseRecord>) -> bool {
    match event {
        SystemEvent::DemandDiscovered { result, .. } => record matches Some(
            SystemPhaseRecord::DemandDiscovery(r),
        ) && demand_record_of(result, r),
        SystemEvent::ResourcesReconciled { result, .. } => record == Some(
            SystemPhaseRecord::Resources(if result is Ok { PhaseOutcome::Succeeded } else { PhaseOutcome::Failed }),
        ),
        SystemEvent::ResourcesRetried { result, .. } => record == Some(
            SystemPhaseRecord::Resources(if result is Ok { PhaseOutcome::Succeeded } else { PhaseOutcome::Failed }),
        ),
        SystemEvent::LateResourcesReconciled { result, .. } => record == Some(
            SystemPhaseRecord::Resources(if result is Ok { PhaseOutcome::Succeeded } else { PhaseOutcome::Failed }),
        ),
        SystemEvent::ProjectsApplied { result, .. } => record matches Some(
            SystemPhaseRecord::ProjectApply(r),
        ) && project_record_of(result, r),
        _ => record is None,
    }
}

/// The phase that the work `action` asks for opens: demand discovery, each Resources pass,
/// and Project Apply are timed phases of the System pass.
pub fn system_phase_started<S>(action: &SystemAction<S>) -> (phase: Option<ReconciliationPhase>)
    ensures
        phase == system_action_phase(*action),
{
    match action {
        SystemAction::DiscoverDemand => Some(ReconciliationPhase::DemandDiscovery),
        SystemAction::ReconcileResources => Some(ReconciliationPhase::Resources),
        SystemAction::RetryResources => Some(ReconciliationPhase::Resources),
        SystemAction::ReconcileLateResources => Some(ReconciliationPhase::Resources),
        SystemAction::ApplyProjects => Some(ReconciliationPhase::ProjectApply),
        _ => None,
    }
}

/// The phase record written when the work that `event` reports ends, before the step decides
/// what follows: demand discovery with its counts, each Resources pass as succeeded or
/// failed, and Project Apply with the pass's counts. Other work writes no System phase record.
pub fn system_phase_record<S>(event: &SystemEvent<S>) -> (record: Option<SystemPhaseRecord>)
    ensures
        system_event_record(*event, record),
{
    match event {
        SystemEvent::DemandDiscovered { result, .. } => Some(
            SystemPhaseRecord::DemandDiscovery(finish_demand_discovery_phase(result)),
        ),
        SystemEvent::ResourcesReconciled { result, .. } => Some(
            SystemPhaseRecord::Resources(PhaseOutcome::from_succeeded(result.is_ok())),
        ),
        SystemEvent::ResourcesRetried { result, .. } => Some(
            SystemPhaseRecord::Resources(PhaseOutcome::from_succeeded(result.is_ok())),
        ),
        SystemEvent::LateResourcesReconciled { result, .. } => Some(
            SystemPhaseRecord::Resources(PhaseOutcome::from_succeeded(result.is_ok())),
        ),
        SystemEvent::ProjectsApplied { result, .. } => Some(
            SystemPhaseRecord::ProjectApply(finish_project_phase(result)),
        ),
        _ => None,
    }
}

/// A failed Resources pass is retried once, in a Resources phase of its own, unless a
/// shutdown is requested or pending; each of the two passes is recorded as failed, and after
/// the retry the pass goes on to late demand whatever the retry gave.
pub proof fn lemma_failed_resources_retried_once<S>(
    first: Result<(), DaemonError>,
    retry: Result<(), DaemonError>,
    next: SystemState,
    action: SystemAction<S>,
    after: SystemState,
    after_action: SystemAction<S>,
    record: Option<SystemPhaseRecord>,
    retry_record: Option<SystemPhaseRecord>,
)
    requires
        first is Err,
        system_transition(
            SystemState::ReconcilingResources,
            SystemEvent::<S>::ResourcesReconciled { result: first, shutdown: false, shutdown_pending: false },
            next,
            action,
        ),
        system_event_record(
            SystemEvent::<S>::ResourcesReconciled { result: first, shutdown: false, shutdown_pending: false },
            record,
        ),
        next is RetryingResources ==> system_transition(
            next,
            SystemEvent::<S>::ResourcesRetried { result: retry, shutdown: false },
            after,
            after_action,
        ),
        system_event_record(SystemEvent::<S>::ResourcesRetried { result: retry, shutdown: false }, retry_record),
    ensures
        action is RetryResources,
        system_action_phase(action) == Some(ReconciliationPhase::Resources),
        record == Some(SystemPhaseRecord::Resources(PhaseOutcome::Failed)),
        retry is Err ==> retry_record == Some(SystemPhaseRecord::Resources(PhaseOutcome::Failed)),
        after == (SystemState::DiscoveringLateDemand { resources: retry }),
        after_action is DiscoverLateDemand,
        system_action_phase(after_action) is None,
{
}

/// Demand added by Projects linked during the Resources pass is reconciled before any
/// Project is applied: unless a shutdown is requested, the next work is a Resources pass over
/// it, and only once that pass has returned are the Projects listed, with its result.
pub proof fn lemma_late_demand_reconciled_before_projects<S>(
    resources: Result<(), DaemonError>,
    next: SystemState,
    action: SystemAction<S>,
    late: Result<(), DaemonError>,
    after: SystemState,
    after_action: SystemAction<S>,
)
    requires
        system_transition(
            SystemState::DiscoveringLateDemand { resources },
            SystemEvent::<S>::LateDemandDiscovered { result: Ok(true), shutdown: false },
            next,
            action,
        ),
        next is ReconcilingLateResources ==> system_transition(
            next,
            SystemEvent::<S>::LateResourcesReconciled { result: late, shutdown: false },
            after,
            after_action,
        ),
    ensures
        action is ReconcileLateResources,
        system_action_phase(action) == Some(ReconciliationPhase::Resources),
        after_action is ListProjects,
        after == (SystemState::ListingProjects { resources: late }),
{
}

} // verus!
