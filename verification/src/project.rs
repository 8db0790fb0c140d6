//! The decisions of a Project reconciliation.
//!
//! A Project reconciliation records the Project's requirements, installs the resources it
//! declares (a repair of other missing resources may fail without stopping it), completes the
//! staged apply, and then reconciles the Project's gateway runtimes, which may promote the
//! job to a System reconciliation. The work happens outside; the functions here decide what
//! follows each piece of it.
use vstd::prelude::*;
use vstd::string::*;

use crate::error::DaemonError;
use crate::jobs::{combined_system_reconciliation_error, ReconciliationOutcome};
use crate::phases::PhaseOutcome;
use crate::stream::ReconciliationPhase;
use crate::summary::CADDY_NOT_INSTALLED;
use crate::text::str_equal;

verus! {

/// What a job's diagnostics are recorded against.
pub enum DiagnosticSubject {
    SystemReconciliation,
    GatewayRuntime,
    UpdateAssessment,
    Project { id: String },
    Resource { name: String, track: String },
}

/// What installing a Project's declared resources achieved: whether an install ran, and the
/// failure of the repair pass over other missing resources, which does not stop the apply.
pub struct ProjectResourceInstall {
    pub installed: bool,
    pub deferred_error: Option<DaemonError>,
}

/// The Project Apply phase outcome of a staged Project step.
pub fn apply_phase_outcome<T>(result: &Result<ReconciliationOutcome<T>, DaemonError>) -> (outcome:
    PhaseOutcome)
    ensures
        outcome == match result {
            Ok(ReconciliationOutcome::Completed(_)) => PhaseOutcome::Succeeded,
            Ok(ReconciliationOutcome::Cancelled) => PhaseOutcome::Skipped,
            Err(_) => PhaseOutcome::Failed,
        },
{
    match result {
        Ok(ReconciliationOutcome::Completed(_)) => PhaseOutcome::Succeeded,
        Ok(ReconciliationOutcome::Cancelled) => PhaseOutcome::Skipped,
        Err(_) => PhaseOutcome::Failed,
    }
}

/// The Resources phase outcome of a Project's install: a deferred repair failure fails it,
/// an install that ran succeeds it, and otherwise it was skipped.
pub fn install_phase_outcome(result: &Result<ProjectResourceInstall, DaemonError>) -> (outcome:
    PhaseOutcome)
    ensures
        outcome == match result {
            Ok(install) => if install.deferred_error is Some {
                PhaseOutcome::Failed
            } else if install.installed {
                PhaseOutcome::Succeeded
            } else {
                PhaseOutcome::Skipped
            },
            Err(_) => PhaseOutcome::Failed,
        },
{
    match result {
        Ok(install) => {
            if install.deferred_error.is_some() {
                PhaseOutcome::Failed
            } else if install.installed {
                PhaseOutcome::Succeeded
            } else {
                PhaseOutcome::Skipped
            }
        },
        Err(_) => PhaseOutcome::Failed,
    }
}

/// Where a Project's environment reconciliation stands.
pub enum ProjectEnvState {
    Start,
    RecordingRequirements,
    InstallingResources,
    /// The deferred repair failure, if any, is kept for the apply.
    Applying { deferred: Option<DaemonError> },
    Finished,
}

/// What the last piece of work returned, with whether a fallback shutdown was requested by
/// the time it returned.
pub enum ProjectEnvEvent<T> {
    Began { shutdown: bool },
    RequirementsRecorded { result: Result<ReconciliationOutcome<()>, DaemonError>, shutdown: bool },
    ResourcesInstalled { result: Result<ProjectResourceInstall, DaemonError>, shutdown: bool },
    Applied { result: Result<ReconciliationOutcome<T>, DaemonError>, shutdown: bool },
}

/// What to do next.
pub enum ProjectEnvAction<T> {
    RecordRequirements,
    InstallResources,
    CompleteStagedApply,
    Finish(Result<ReconciliationOutcome<T>, DaemonError>),
}

/// Whether `event` answers the work `state` waits for.
pub open spec fn project_env_event_fits<T>(state: ProjectEnvState, event: ProjectEnvEvent<T>) -> bool {
    match state {
        ProjectEnvState::Start => event is Began,
        ProjectEnvState::RecordingRequirements => event is RequirementsRecorded,
        ProjectEnvState::InstallingResources => event is ResourcesInstalled,
        ProjectEnvState::Applying { .. } => event is Applied,
        ProjectEnvState::Finished => false,
    }
}

/// The result of the staged apply given the deferred repair failure: the apply's failure is
/// primary and keeps the repair failure with it; a repair failure alone fails a successful or
/// cancelled apply.
pub open spec fn staged_apply_result<T>(
    apply: Result<ReconciliationOutcome<T>, DaemonError>,
    deferred: Option<DaemonError>,
) -> Result<ReconciliationOutcome<T>, DaemonError> {
    match (apply, deferred) {
        (Ok(outcome), None) => Ok(outcome),
        (Ok(_), Some(repair)) => Err(repair),
        (Err(apply_error), None) => Err(apply_error),
        (Err(apply_error), Some(repair)) => Err(
            DaemonError::ProjectApplyAfterResourceRepairFailed {
                source: Box::new(apply_error),
                repair: Box::new(repair),
            },
        ),
    }
}

/// `action` finishes the reconciliation as cancelled.
pub open spec fn finishes_cancelled<T>(action: ProjectEnvAction<T>) -> bool {
    &&& action matches ProjectEnvAction::Finish(r)
    &&& r is Ok
    &&& r->Ok_0 is Cancelled
}

/// The transitions of a Project's environment reconciliation.
pub open spec fn project_env_transition<T>(
    state: ProjectEnvState,
    event: ProjectEnvEvent<T>,
    next: ProjectEnvState,
    action: ProjectEnvAction<T>,
) -> bool {
    match (state, event) {
        (ProjectEnvState::Start, ProjectEnvEvent::Began { shutdown }) => if shutdown {
            next is Finished && finishes_cancelled(action)
        } else {
            next is RecordingRequirements && action is RecordRequirements
        },
        (
            ProjectEnvState::RecordingRequirements,
            ProjectEnvEvent::RequirementsRecorded { result, shutdown },
        ) => match result {
            Err(e) => next is Finished && action == ProjectEnvAction::<T>::Finish(Err(e)),
            Ok(ReconciliationOutcome::Cancelled) => next is Finished && finishes_cancelled(action),
            Ok(ReconciliationOutcome::Completed(())) => if shutdown {
                next is Finished && finishes_cancelled(action)
            } else {
                next is InstallingResources && action is InstallResources
            },
        },
        (
            ProjectEnvState::InstallingResources,
            ProjectEnvEvent::ResourcesInstalled { result, shutdown },
        ) => match result {
            Err(e) => next is Finished && action == ProjectEnvAction::<T>::Finish(Err(e)),
            Ok(install) => if shutdown {
                next is Finished && match install.deferred_error {
                    Some(e) => action == ProjectEnvAction::<T>::Finish(Err(e)),
                    None => finishes_cancelled(action),
                }
            } else {
                next == (ProjectEnvState::Applying { deferred: install.deferred_error })
                    && action is CompleteStagedApply
            },
        },
        (ProjectEnvState::Applying { deferred }, ProjectEnvEvent::Applied { result, shutdown }) => {
            &&& next is Finished
            &&& match staged_apply_result(result, deferred) {
                Ok(ReconciliationOutcome::Completed(summary)) => if shutdown {
                    finishes_cancelled(action)
                } else {
                    action == ProjectEnvAction::Finish(
                        Ok::<ReconciliationOutcome<T>, DaemonError>(
                            ReconciliationOutcome::Completed(summary),
                        ),
                    )
                },
                Ok(ReconciliationOutcome::Cancelled) => finishes_cancelled(action),
                Err(e) => action == ProjectEnvAction::<T>::Finish(Err(e)),
            }
        },
        _ => false,
    }
}

fn cancelled<T>() -> (action: ProjectEnvAction<T>)
    ensures
        finishes_cancelled(action),
{
    ProjectEnvAction::Finish(Ok(ReconciliationOutcome::Cancelled))
}

/// Decides what a Project's environment reconciliation does after `event`, from `state`.
pub fn project_env_step<T>(state: ProjectEnvState, event: ProjectEnvEvent<T>) -> (step: (
    ProjectEnvState,
    ProjectEnvAction<T>,
))
    requires
        project_env_event_fits(state, event),
    ensures
        project_env_transition(state, event, step.0, step.1),
{
    match (state, event) {
        (ProjectEnvState::Start, ProjectEnvEvent::Began { shutdown }) => {
            if shutdown {
                (ProjectEnvState::Finished, cancelled())
            } else {
                (ProjectEnvState::RecordingRequirements, ProjectEnvAction::RecordRequirements)
            }
        },
        (
            ProjectEnvState::RecordingRequirements,
            ProjectEnvEvent::RequirementsRecorded { result, shutdown },
        ) => match result {
            Err(e) => (ProjectEnvState::Finished, ProjectEnvAction::Finish(Err(e))),
            Ok(ReconciliationOutcome::Cancelled) => (ProjectEnvState::Finished, cancelled()),
            Ok(ReconciliationOutcome::Completed(())) => {
                if shutdown {
                    (ProjectEnvState::Finished, cancelled())
                } else {
                    (ProjectEnvState::InstallingResources, ProjectEnvAction::InstallResources)
                }
            },
        },
        (
            ProjectEnvState::InstallingResources,
            ProjectEnvEvent::ResourcesInstalled { result, shutdown },
        ) => match result {
            Err(e) => (ProjectEnvState::Finished, ProjectEnvAction::Finish(Err(e))),
            Ok(install) => {
                if shutdown {
                    match install.deferred_error {
                        Some(e) => (ProjectEnvState::Finished, ProjectEnvAction::Finish(Err(e))),
                        None => (ProjectEnvState::Finished, cancelled()),
                    }
                } else {
                    (
                        ProjectEnvState::Applying { deferred: install.deferred_error },
                        ProjectEnvAction::CompleteStagedApply,
                    )
                }
            },
        },
        (ProjectEnvState::Applying { deferred }, ProjectEnvEvent::Applied { result, shutdown }) => {
            let combined: Result<ReconciliationOutcome<T>, DaemonError> = match (result, deferred) {
                (Ok(outcome), None) => Ok(outcome),
                (Ok(_), Some(repair)) => Err(repair),
                (Err(apply_error), None) => Err(apply_error),
                (Err(apply_error), Some(repair)) => Err(
                    DaemonError::ProjectApplyAfterResourceRepairFailed {
                        source: Box::new(apply_error),
                        repair: Box::new(repair),
                    },
                ),
            };
            match combined {
                Ok(ReconciliationOutcome::Completed(summary)) => {
                    if shutdown {
                        (ProjectEnvState::Finished, cancelled())
                    } else {
                        (
                            ProjectEnvState::Finished,
                            ProjectEnvAction::Finish(Ok(ReconciliationOutcome::Completed(summary))),
                        )
                    }
                },
                Ok(ReconciliationOutcome::Cancelled) => (ProjectEnvState::Finished, cancelled()),
                Err(e) => (ProjectEnvState::Finished, ProjectEnvAction::Finish(Err(e))),
            }
        },
        (_, _) => (ProjectEnvState::Finished, cancelled()),
    }
}

/// What a Project's gateway reconciliation concluded.
pub enum ProjectGatewayOutcome {
    /// The Project's gateway runtimes were reconciled; `gateway_evaluated` when the gateway
    /// itself was examined.
    Reconciled { summary: String, gateway_evaluated: bool },
    /// The Project's routes cannot be settled alone: reconcile the whole System.
    PromoteSystem,
}

/// How a Project reconciliation continues once its environment reconciliation ended.
pub enum AfterProjectEnv<T> {
    /// Cancelled by the fallback shutdown.
    Cancelled,
    /// Report this failure.
    Fail(DaemonError),
    /// The environment failed: still reconcile the gateway, then report the failure.
    RecoverGatewayThenFail(DaemonError),
    /// The environment is applied with this summary: reconcile the Project's gateway runtimes.
    ReconcileProjectGateway(T),
}

/// An environment failure still reconciles the gateway, unless the fallback shutdown was
/// requested.
pub fn after_project_env<T>(result: Result<ReconciliationOutcome<T>, DaemonError>, shutdown: bool) -> (next:
    AfterProjectEnv<T>)
    ensures
        match result {
            Ok(ReconciliationOutcome::Completed(summary)) => next == AfterProjectEnv::ReconcileProjectGateway(summary),
            Ok(ReconciliationOutcome::Cancelled) => next is Cancelled,
            Err(e) => if shutdown {
                next == AfterProjectEnv::<T>::Fail(e)
            } else {
                next == AfterProjectEnv::<T>::RecoverGatewayThenFail(e)
            },
        },
{
    match result {
        Ok(ReconciliationOutcome::Completed(summary)) => AfterProjectEnv::ReconcileProjectGateway(summary),
        Ok(ReconciliationOutcome::Cancelled) => AfterProjectEnv::Cancelled,
        Err(e) => {
            if shutdown {
                AfterProjectEnv::Fail(e)
            } else {
                AfterProjectEnv::RecoverGatewayThenFail(e)
            }
        },
    }
}

/// The failure of a Project whose environment failed, after the gateway was recovered: the
/// Project failure alone when the gateway recovered or was cancelled, both otherwise.
pub fn project_failure_after_gateway_recovery(
    project_error: DaemonError,
    gateway_result: Result<ReconciliationOutcome<String>, DaemonError>,
) -> (e: DaemonError)
    ensures
        match gateway_result {
            Ok(_) => e == project_error,
            Err(gateway_error) => e matches DaemonError::SystemReconciliationFailures { failures }
                && failures@ == seq![project_error, gateway_error],
        },
{
    match gateway_result {
        Ok(_) => project_error,
        Err(gateway_error) => {
            let mut failures = Vec::new();
            failures.push(project_error);
            failures.push(gateway_error);
            proof {
                assert(failures@ =~= seq![project_error, gateway_error]);
            }
            combined_system_reconciliation_error(failures)
        },
    }
}

/// The summary of a reconciled Project: its environment summary, followed by the gateway
/// summary unless Caddy is not installed.
pub open spec fn project_summary_text(env_summary: Seq<char>, gateway_summary: Seq<char>) -> Seq<char> {
    if gateway_summary == CADDY_NOT_INSTALLED@ {
        env_summary
    } else {
        env_summary + "; "@ + gateway_summary
    }
}

/// What a Project reconciliation concludes from its gateway reconciliation.
pub enum ProjectConclusion {
    /// Completed with this summary and coverage.
    Completed { summary: String, coverage: Vec<DiagnosticSubject> },
    /// Promoted: run a System reconciliation, recording failures against the System pass.
    PromoteSystem,
}

/// A reconciled Project covers itself, and the gateway runtime when the gateway was evaluated.
pub fn project_conclusion(project_id: String, env_summary: &str, gateway: ProjectGatewayOutcome) -> (conclusion:
    ProjectConclusion)
    ensures
        match gateway {
            ProjectGatewayOutcome::PromoteSystem => conclusion is PromoteSystem,
            ProjectGatewayOutcome::Reconciled { summary, gateway_evaluated } => conclusion matches ProjectConclusion::Completed {
                summary: text,
                coverage,
            } && text@ == project_summary_text(env_summary@, summary@) && coverage@.len() == (if gateway_evaluated {
                2int
            } else {
                1int
            }) && coverage@[0] == (DiagnosticSubject::Project { id: project_id }) && (gateway_evaluated
                ==> coverage@[1] is GatewayRuntime),
        },
{
    match gateway {
        ProjectGatewayOutcome::PromoteSystem => ProjectConclusion::PromoteSystem,
        ProjectGatewayOutcome::Reconciled { summary, gateway_evaluated } => {
            let text = if str_equal(summary.as_str(), CADDY_NOT_INSTALLED) {
                String::from_str(env_summary)
            } else {
                let mut text = String::from_str(env_summary);
                text.append("; ");
                text.append(summary.as_str());
                text
            };
            let mut coverage = Vec::new();
            coverage.push(DiagnosticSubject::Project { id: project_id });
            if gateway_evaluated {
                coverage.push(DiagnosticSubject::GatewayRuntime);
            }
            ProjectConclusion::Completed { summary: text, coverage }
        },
    }
}

/// How far a Project's environment reconciliation is from its end.
pub open spec fn project_env_rank(state: ProjectEnvState) -> nat {
    match state {
        ProjectEnvState::Start => 4,
        ProjectEnvState::RecordingRequirements => 3,
        ProjectEnvState::InstallingResources => 2,
        ProjectEnvState::Applying { .. } => 1,
        ProjectEnvState::Finished => 0,
    }
}

/// `next` waits for the very work `action` asks for.
pub open spec fn project_env_awaits<T>(next: ProjectEnvState, action: ProjectEnvAction<T>) -> bool {
    match (next, action) {
        (ProjectEnvState::RecordingRequirements, ProjectEnvAction::RecordRequirements) => true,
        (ProjectEnvState::InstallingResources, ProjectEnvAction::InstallResources) => true,
        (ProjectEnvState::Applying { .. }, ProjectEnvAction::CompleteStagedApply) => true,
        (ProjectEnvState::Finished, ProjectEnvAction::Finish(_)) => true,
        _ => false,
    }
}

/// A Project's environment reconciliation always ends: each step either finishes it or
/// moves it closer to its end, and it finishes exactly when it reports its result.
/// After each step, the state waits for exactly the work the step asks for.
pub proof fn lemma_project_env_step_progresses<T>(
    state: ProjectEnvState,
    event: ProjectEnvEvent<T>,
    next: ProjectEnvState,
    action: ProjectEnvAction<T>,
)
    requires
        project_env_event_fits(state, event),
        project_env_transition(state, event, next, action),
    ensures
        project_env_awaits(next, action),
        project_env_rank(next) < project_env_rank(state),
        action is Finish <==> next is Finished,
{
}

/// The phase that the work `action` asks for opens: recording the requirements and the staged
/// apply are Project Apply phases, installing the resources a Resources phase.
pub open spec fn project_env_action_phase<T>(action: ProjectEnvAction<T>) -> Option<ReconciliationPhase> {
    match action {
        ProjectEnvAction::RecordRequirements => Some(ReconciliationPhase::ProjectApply),
        ProjectEnvAction::InstallResources => Some(ReconciliationPhase::Resources),
        ProjectEnvAction::CompleteStagedApply => Some(ReconciliationPhase::ProjectApply),
        ProjectEnvAction::Finish(_) => None,
    }
}

/// The phase record written when the work that `event` reports ends: its phase and outcome.
pub open spec fn project_env_event_record<T>(event: ProjectEnvEvent<T>) -> Option<(ReconciliationPhase, PhaseOutcome)> {
    match event {
        ProjectEnvEvent::Began { .. } => None,
        ProjectEnvEvent::RequirementsRecorded { result, .. } => Some((
            ReconciliationPhase::ProjectApply,
            match result {
                Ok(ReconciliationOutcome::Completed(_)) => PhaseOutcome::Succeeded,
                Ok(ReconciliationOutcome::Cancelled) => PhaseOutcome::Skipped,
                Err(_) => PhaseOutcome::Failed,
            },
        )),
        ProjectEnvEvent::ResourcesInstalled { result, .. } => Some((
            ReconciliationPhase::Resources,
            match result {
                Ok(install) => if install.deferred_error is Some {
                    PhaseOutcome::Failed
                } else if install.installed {
                    PhaseOutcome::Succeeded
                } else {
                    PhaseOutcome::Skipped
                },
                Err(_) => PhaseOutcome::Failed,
            },
        )),
        ProjectEnvEvent::Applied { result, .. } => Some((
            ReconciliationPhase::ProjectApply,
            match result {
                Ok(ReconciliationOutcome::Completed(_)) => PhaseOutcome::Succeeded,
                Ok(ReconciliationOutcome::Cancelled) => PhaseOutcome::Skipped,
                Err(_) => PhaseOutcome::Failed,
            },
        )),
    }
}

/// The phase that the work `action` asks for opens, reported live as it starts.
pub fn project_env_phase_started<T>(action: &ProjectEnvAction<T>) -> (phase: Option<ReconciliationPhase>)
    ensures
        phase == project_env_action_phase(*action),
{
    match action {
        ProjectEnvAction::RecordRequirements => Some(ReconciliationPhase::ProjectApply),
        ProjectEnvAction::InstallResources => Some(ReconciliationPhase::Resources),
        ProjectEnvAction::CompleteStagedApply => Some(ReconciliationPhase::ProjectApply),
        ProjectEnvAction::Finish(_) => None,
    }
}

/// The phase record written when the work that `event` reports ends, before the step
/// decides what follows.
pub fn project_env_phase_record<T>(event: &ProjectEnvEvent<T>) -> (record: Option<(ReconciliationPhase, PhaseOutcome)>)
    ensures
        record == project_env_event_record(*event),
{
    match event {
        ProjectEnvEvent::Began { .. } => None,
        ProjectEnvEvent::RequirementsRecorded { result, .. } => Some(
            (ReconciliationPhase::ProjectApply, apply_phase_outcome(result)),
        ),
        ProjectEnvEvent::ResourcesInstalled { result, .. } => Some(
            (ReconciliationPhase::Resources, install_phase_outcome(result)),
        ),
        ProjectEnvEvent::Applied { result, .. } => Some(
            (ReconciliationPhase::ProjectApply, apply_phase_outcome(result)),
        ),
    }
}

/// A resource repair that failed while the Project's resources were installed fails the
/// Project reconciliation, however the staged apply ends: it never completes, and its error is
/// the repair failure, or the apply's failure carrying the repair failure.
pub proof fn lemma_repair_failure_fails_the_reconciliation<T>(
    install: ProjectResourceInstall,
    shutdown: bool,
    next: ProjectEnvState,
    action: ProjectEnvAction<T>,
    applied: Result<ReconciliationOutcome<T>, DaemonError>,
    applied_shutdown: bool,
    last_state: ProjectEnvState,
    last: ProjectEnvAction<T>,
)
    requires
        install.deferred_error is Some,
        project_env_transition(
            ProjectEnvState::InstallingResources,
            ProjectEnvEvent::<T>::ResourcesInstalled { result: Ok(install), shutdown },
            next,
            action,
        ),
        !(action is Finish) ==> project_env_transition(
            next,
            ProjectEnvEvent::<T>::Applied { result: applied, shutdown: applied_shutdown },
            last_state,
            last,
        ),
    ensures
        ({
            let end = if action is Finish {
                action
            } else {
                last
            };
            let repair = install.deferred_error->Some_0;
            &&& end matches ProjectEnvAction::Finish(Err(e))
            &&& (e == repair || (e matches DaemonError::ProjectApplyAfterResourceRepairFailed {
                repair: r,
                ..
            } && *r == repair))
        }),
{
}

} // verus!
