//! The decisions of a Managed Resource update job.
//!
//! An update installs newer artifacts for the installed tracks. When nothing changed, the job
//! completes at once. When some artifacts changed, a System reconciliation follows; if it
//! fails, an updated Caddy is rolled back and the gateway recovered. When the update itself
//! failed part way, a System reconciliation still runs over what was installed.
use vstd::prelude::*;
use vstd::string::*;

use crate::error::DaemonError;
use crate::jobs::{
    partial_update_reconciliation_error, caddy_compensation_error, CompletedReconciliationJob,
    ReconciliationOutcome,
};
use crate::project::DiagnosticSubject;
use crate::system::FailureSubject;
use crate::text::{decimal, decimal_string};

verus! {

/// What the installer reported: how many tracks were installed before, how many artifacts
/// were updated, and the failure that stopped the update part way, if any.
pub struct ManagedResourceUpdateReport {
    pub installed_count: usize,
    pub updated_count: usize,
    pub failure: Option<DaemonError>,
}

impl ManagedResourceUpdateReport {
    /// The report, or the partial failure it carries.
    pub fn into_result(self) -> (r: Result<ManagedResourceUpdateReport, DaemonError>)
        ensures
            match self.failure {
                None => r == Ok::<ManagedResourceUpdateReport, DaemonError>(self),
                Some(source) => r == Err::<ManagedResourceUpdateReport, DaemonError>(
                    DaemonError::ManagedResourcePartialUpdateFailed { source: Box::new(source) },
                ),
            },
    {
        match self.failure {
            None => Ok(ManagedResourceUpdateReport {
                installed_count: self.installed_count,
                updated_count: self.updated_count,
                failure: None,
            }),
            Some(source) => Err(
                DaemonError::ManagedResourcePartialUpdateFailed { source: Box::new(source) },
            ),
        }
    }
}

/// The summary of an update that changed nothing.
pub open spec fn unchanged_summary_text(installed_count: usize) -> Seq<char> {
    if installed_count == 0 {
        "none installed"@
    } else {
        "current"@
    }
}

/// `none installed` when no track is installed, `current` otherwise.
pub fn unchanged_update_summary(report: &ManagedResourceUpdateReport) -> (summary: String)
    ensures
        summary@ == unchanged_summary_text(report.installed_count),
{
    if report.installed_count == 0 {
        String::from_str("none installed")
    } else {
        String::from_str("current")
    }
}

/// The summary of an update followed by a System reconciliation.
pub open spec fn updated_summary_text(updated_count: usize, reconciled: Seq<char>) -> Seq<char> {
    "updated "@ + decimal(updated_count as nat) + " artifact(s); reconciled: "@ + reconciled
}

/// `updated <n> artifact(s); reconciled: <summary>`.
pub fn updated_summary(updated_count: usize, reconciled: &str) -> (summary: String)
    ensures
        summary@ == updated_summary_text(updated_count, reconciled@),
{
    let mut s = String::from_str("updated ");
    let n = decimal_string(updated_count as u64);
    s.append(n.as_str());
    s.append(" artifact(s); reconciled: ");
    s.append(reconciled);
    s
}

/// A failed update, with the subject its failure is recorded against.
pub struct FailedUpdateJob {
    pub error: DaemonError,
    pub subject: DiagnosticSubject,
}

impl FailedUpdateJob {
    /// Records that the update failed with `error`, against `subject`.
    pub fn new(error: DaemonError, subject: DiagnosticSubject) -> (failed: Self)
        ensures
            failed.error == error,
            failed.subject == subject,
    {
        FailedUpdateJob { error, subject }
    }
}

/// The diagnostic subject for a System pass's failure subject.
pub open spec fn subject_of(subject: FailureSubject) -> DiagnosticSubject {
    match subject {
        FailureSubject::GatewayRuntime => DiagnosticSubject::GatewayRuntime,
        FailureSubject::SystemReconciliation => DiagnosticSubject::SystemReconciliation,
    }
}

/// Where an update job stands.
pub enum UpdateState {
    Start,
    Updating,
    /// The update failed part way; a System reconciliation runs over what was installed.
    ReconcilingAfterPartialFailure { update_error: DaemonError },
    /// Artifacts were updated; a System reconciliation runs over them.
    ReconcilingUpdated { report: ManagedResourceUpdateReport },
    /// The reconciliation after the update failed; an updated Caddy is rolled back.
    RollingBackCaddy { error: DaemonError, subject: DiagnosticSubject },
    /// Caddy was rolled back; the gateway is recovered.
    RecoveringGateway { error: DaemonError, subject: DiagnosticSubject },
    Finished,
}

/// What the last piece of work returned, with whether a fallback shutdown was requested by
/// the time it returned.
pub enum UpdateEvent<S> {
    Began { shutdown: bool },
    Updated { result: Result<ManagedResourceUpdateReport, DaemonError>, shutdown: bool },
    /// The System reconciliation's result, with the failure subject it settled on, if any.
    Reconciled {
        result: Result<ReconciliationOutcome<CompletedReconciliationJob<S>>, DaemonError>,
        subject: Option<FailureSubject>,
        shutdown: bool,
    },
    /// `Ok(true)` when an updated Caddy was rolled back.
    CaddyRolledBack { result: Result<bool, DaemonError>, shutdown: bool },
    /// Whether the gateway recovered; a cancelled recovery counts as recovered.
    GatewayRecovered { result: Result<(), DaemonError> },
}

/// What to do next.
pub enum UpdateAction<S> {
    UpdateInstalled,
    ReconcileSystem,
    RollBackCaddy,
    RecoverGateway,
    Finish(Result<ReconciliationOutcome<CompletedReconciliationJob<S>>, FailedUpdateJob>),
}

/// Whether `event` answers the work `state` waits for.
pub open spec fn update_event_fits<S>(state: UpdateState, event: UpdateEvent<S>) -> bool {
    match state {
        UpdateState::Start => event is Began,
        UpdateState::Updating => event is Updated,
        UpdateState::ReconcilingAfterPartialFailure { .. } => event is Reconciled,
        UpdateState::ReconcilingUpdated { .. } => event is Reconciled,
        UpdateState::RollingBackCaddy { .. } => event is CaddyRolledBack,
        UpdateState::RecoveringGateway { .. } => event is GatewayRecovered,
        UpdateState::Finished => false,
    }
}

/// `action` finishes the update as cancelled.
pub open spec fn update_cancelled<S>(action: UpdateAction<S>) -> bool {
    &&& action matches UpdateAction::Finish(r)
    &&& r is Ok
    &&& r->Ok_0 is Cancelled
}

/// `action` finishes the update as failed with `error` against `subject`.
pub open spec fn update_failed<S>(action: UpdateAction<S>, error: DaemonError, subject: DiagnosticSubject) -> bool {
    action == UpdateAction::<S>::Finish(Err(FailedUpdateJob { error, subject }))
}

/// The transitions of an update job.
pub open spec fn update_transition<S>(
    state: UpdateState,
    event: UpdateEvent<S>,
    next: UpdateState,
    action: UpdateAction<S>,
) -> bool {
    match (state, event) {
        (UpdateState::Start, UpdateEvent::Began { shutdown }) => if shutdown {
            next is Finished && update_cancelled(action)
        } else {
            next is Updating && action is UpdateInstalled
        },
        (UpdateState::Updating, UpdateEvent::Updated { result, shutdown }) => match result {
            Err(e) => next is Finished && update_failed(action, e, DiagnosticSubject::UpdateAssessment),
            Ok(report) => match report.failure {
                Some(source) => {
                    let update_error = DaemonError::ManagedResourcePartialUpdateFailed {
                        source: Box::new(source),
                    };
                    if shutdown {
                        next is Finished && update_failed(
                            action,
                            update_error,
                            DiagnosticSubject::UpdateAssessment,
                        )
                    } else {
                        next == (UpdateState::ReconcilingAfterPartialFailure { update_error })
                            && action is ReconcileSystem
                    }
                },
                None => if report.updated_count == 0 {
                    &&& next is Finished
                    &&& action matches UpdateAction::Finish(Ok(ReconciliationOutcome::Completed(c)))
                    &&& c.summary@ == unchanged_summary_text(report.installed_count)
                    &&& c.coverage@.len() == 0
                } else if shutdown {
                    next is Finished && update_cancelled(action)
                } else {
                    next == (UpdateState::ReconcilingUpdated { report }) && action is ReconcileSystem
                },
            },
        },
        (
            UpdateState::ReconcilingAfterPartialFailure { update_error },
            UpdateEvent::Reconciled { result, .. },
        ) => next is Finished && match result {
            Ok(_) => update_failed(action, update_error, DiagnosticSubject::UpdateAssessment),
            Err(e) => update_failed(
                action,
                DaemonError::PartialUpdateReconciliationFailed {
                    source: Box::new(update_error),
                    reconciliation: Box::new(e),
                },
                DiagnosticSubject::UpdateAssessment,
            ),
        },
        (UpdateState::ReconcilingUpdated { report }, UpdateEvent::Reconciled { result, subject, .. }) =>
            match result {
            Ok(ReconciliationOutcome::Completed(c)) => {
                &&& next is Finished
                &&& action matches UpdateAction::Finish(Ok(ReconciliationOutcome::Completed(done)))
                &&& done.summary@ == updated_summary_text(report.updated_count, c.summary@)
                &&& done.coverage == c.coverage
            },
            Ok(ReconciliationOutcome::Cancelled) => next is Finished && update_cancelled(action),
            Err(e) => next == (UpdateState::RollingBackCaddy {
                error: e,
                subject: match subject {
                    Some(s) => subject_of(s),
                    None => DiagnosticSubject::SystemReconciliation,
                },
            }) && action is RollBackCaddy,
        },
        (UpdateState::RollingBackCaddy { error, subject }, UpdateEvent::CaddyRolledBack { result, shutdown }) =>
            match result {
            Ok(true) => if shutdown {
                next is Finished && update_failed(action, error, subject)
            } else {
                next == (UpdateState::RecoveringGateway { error, subject }) && action is RecoverGateway
            },
            Ok(false) => next is Finished && update_failed(action, error, subject),
            Err(rollback_error) => next is Finished && update_failed(
                action,
                DaemonError::CaddyUpdateCompensationFailed {
                    source: Box::new(error),
                    compensation: Box::new(rollback_error),
                },
                subject,
            ),
        },
        (UpdateState::RecoveringGateway { error, subject }, UpdateEvent::GatewayRecovered { result }) =>
            next is Finished && match result {
            Ok(()) => update_failed(
                action,
                error,
                if subject is GatewayRuntime {
                    DiagnosticSubject::UpdateAssessment
                } else {
                    subject
                },
            ),
            Err(recovery_error) => update_failed(
                action,
                DaemonError::CaddyUpdateCompensationFailed {
                    source: Box::new(error),
                    compensation: Box::new(recovery_error),
                },
                subject,
            ),
        },
        _ => false,
    }
}

fn fail<S>(error: DaemonError, subject: DiagnosticSubject) -> (step: (UpdateState, UpdateAction<S>))
    ensures
        step.0 is Finished,
        update_failed(step.1, error, subject),
{
    (UpdateState::Finished, UpdateAction::Finish(Err(FailedUpdateJob { error, subject })))
}

fn cancel<S>() -> (step: (UpdateState, UpdateAction<S>))
    ensures
        step.0 is Finished,
        update_cancelled(step.1),
{
    (UpdateState::Finished, UpdateAction::Finish(Ok(ReconciliationOutcome::Cancelled)))
}

fn diagnostic_subject(subject: Option<FailureSubject>) -> (s: DiagnosticSubject)
    ensures
        s == match subject {
            Some(f) => subject_of(f),
            None => DiagnosticSubject::SystemReconciliation,
        },
{
    match subject {
        Some(FailureSubject::GatewayRuntime) => DiagnosticSubject::GatewayRuntime,
        Some(FailureSubject::SystemReconciliation) => DiagnosticSubject::SystemReconciliation,
        None => DiagnosticSubject::SystemReconciliation,
    }
}

/// Decides what an update job does after `event`, from `state`.
pub fn update_step<S>(state: UpdateState, event: UpdateEvent<S>) -> (step: (UpdateState, UpdateAction<S>))
    requires
        update_event_fits(state, event),
    ensures
        update_transition(state, event, step.0, step.1),
{
    match (state, event) {
        (UpdateState::Start, UpdateEvent::Began { shutdown }) => {
            if shutdown {
                cancel()
            } else {
                (UpdateState::Updating, UpdateAction::UpdateInstalled)
            }
        },
        (UpdateState::Updating, UpdateEvent::Updated { result, shutdown }) => match result {
            Err(e) => fail(e, DiagnosticSubject::UpdateAssessment),
            Ok(report) => {
                let installed_count = report.installed_count;
                let updated_count = report.updated_count;
                match report.into_result() {
                    Err(update_error) => {
                        if shutdown {
                            fail(update_error, DiagnosticSubject::UpdateAssessment)
                        } else {
                            (
                                UpdateState::ReconcilingAfterPartialFailure { update_error },
                                UpdateAction::ReconcileSystem,
                            )
                        }
                    },
                    Ok(report) => {
                        if updated_count == 0 {
                            let summary = unchanged_update_summary(&report);
                            (
                                UpdateState::Finished,
                                UpdateAction::Finish(
                                    Ok(
                                        ReconciliationOutcome::Completed(
                                            CompletedReconciliationJob { summary, coverage: Vec::new() },
                                        ),
                                    ),
                                ),
                            )
                        } else if shutdown {
                            cancel()
                        } else {
                            (UpdateState::ReconcilingUpdated { report }, UpdateAction::ReconcileSystem)
                        }
                    },
                }
            },
        },
        (
            UpdateState::ReconcilingAfterPartialFailure { update_error },
            UpdateEvent::Reconciled { result, .. },
        ) => match result {
            Ok(_) => fail(update_error, DiagnosticSubject::UpdateAssessment),
            Err(e) => fail(
                partial_update_reconciliation_error(update_error, e),
                DiagnosticSubject::UpdateAssessment,
            ),
        },
        (UpdateState::ReconcilingUpdated { report }, UpdateEvent::Reconciled { result, subject, .. }) => {
            match result {
                Ok(ReconciliationOutcome::Completed(c)) => {
                    let summary = updated_summary(report.updated_count, c.summary.as_str());
                    (
                        UpdateState::Finished,
                        UpdateAction::Finish(
                            Ok(
                                ReconciliationOutcome::Completed(
                                    CompletedReconciliationJob { summary, coverage: c.coverage },
                                ),
                            ),
                        ),
                    )
                },
                Ok(ReconciliationOutcome::Cancelled) => cancel(),
                Err(e) => (
                    UpdateState::RollingBackCaddy { error: e, subject: diagnostic_subject(subject) },
                    UpdateAction::RollBackCaddy,
                ),
            }
        },
        (UpdateState::RollingBackCaddy { error, subject }, UpdateEvent::CaddyRolledBack { result, shutdown }) => {
            match result {
                Ok(true) => {
                    if shutdown {
                        fail(error, subject)
                    } else {
                        (UpdateState::RecoveringGateway { error, subject }, UpdateAction::RecoverGateway)
                    }
                },
                Ok(false) => fail(error, subject),
                Err(rollback_error) => fail(caddy_compensation_error(error, rollback_error), subject),
            }
        },
        (UpdateState::RecoveringGateway { error, subject }, UpdateEvent::GatewayRecovered { result }) => {
            match result {
                Ok(()) => {
                    let subject = match subject {
                        DiagnosticSubject::GatewayRuntime => DiagnosticSubject::UpdateAssessment,
                        other => other,
                    };
                    fail(error, subject)
                },
                Err(recovery_error) => fail(caddy_compensation_error(error, recovery_error), subject),
            }
        },
        (_, _) => cancel(),
    }
}

/// The coverage recorded for a completed update: the update assessment, then what the
/// reconciliation covered.
pub fn update_coverage(covered: Vec<DiagnosticSubject>) -> (coverage: Vec<DiagnosticSubject>)
    ensures
        coverage@ == seq![DiagnosticSubject::UpdateAssessment] + covered@,
{
    let mut coverage = Vec::new();
    coverage.push(DiagnosticSubject::UpdateAssessment);
    let mut covered = covered;
    coverage.append(&mut covered);
    coverage
}

/// What an update job records once it has ended.
pub enum UpdateFinalization {
    /// The job was cancelled: nothing is recorded.
    Cancelled,
    /// Record the completion with this summary and coverage.
    RecordCompletion { summary: String, coverage: Vec<DiagnosticSubject> },
    /// Record the failure, against its subject.
    RecordFailure { error: DaemonError, subject: DiagnosticSubject },
}

/// `finalization` records an update job that ended with `result`.
pub open spec fn update_records(
    result: Result<ReconciliationOutcome<CompletedReconciliationJob<DiagnosticSubject>>, FailedUpdateJob>,
    finalization: UpdateFinalization,
) -> bool {
    match result {
        Ok(ReconciliationOutcome::Cancelled) => finalization is Cancelled,
        Ok(ReconciliationOutcome::Completed(completed)) => finalization matches UpdateFinalization::RecordCompletion {
            summary,
            coverage,
        } && summary == completed.summary && coverage@ == seq![DiagnosticSubject::UpdateAssessment]
            + completed.coverage@,
        Err(failed) => finalization == (UpdateFinalization::RecordFailure {
            error: failed.error,
            subject: failed.subject,
        }),
    }
}

/// How an update job's result is recorded: a completion is recorded with the update
/// assessment covered first, then what the reconciliation covered (only the assessment when
/// nothing changed); a failure is recorded against its subject.
pub fn update_finalization_of(
    result: Result<ReconciliationOutcome<CompletedReconciliationJob<DiagnosticSubject>>, FailedUpdateJob>,
) -> (finalization: UpdateFinalization)
    ensures
        update_records(result, finalization),
{
    match result {
        Ok(ReconciliationOutcome::Cancelled) => UpdateFinalization::Cancelled,
        Ok(ReconciliationOutcome::Completed(completed)) => UpdateFinalization::RecordCompletion {
            summary: completed.summary,
            coverage: update_coverage(completed.coverage),
        },
        Err(failed) => UpdateFinalization::RecordFailure { error: failed.error, subject: failed.subject },
    }
}

/// How far an update job is from its end.
pub open spec fn update_rank(state: UpdateState) -> nat {
    match state {
        UpdateState::Start => 5,
        UpdateState::Updating => 4,
        UpdateState::ReconcilingAfterPartialFailure { .. } => 3,
        UpdateState::ReconcilingUpdated { .. } => 3,
        UpdateState::RollingBackCaddy { .. } => 2,
        UpdateState::RecoveringGateway { .. } => 1,
        UpdateState::Finished => 0,
    }
}

/// `next` waits for the very work `action` asks for.
pub open spec fn update_awaits<S>(next: UpdateState, action: UpdateAction<S>) -> bool {
    match (next, action) {
        (UpdateState::Updating, UpdateAction::UpdateInstalled) => true,
        (UpdateState::ReconcilingAfterPartialFailure { .. }, UpdateAction::ReconcileSystem) => true,
        (UpdateState::ReconcilingUpdated { .. }, UpdateAction::ReconcileSystem) => true,
        (UpdateState::RollingBackCaddy { .. }, UpdateAction::RollBackCaddy) => true,
        (UpdateState::RecoveringGateway { .. }, UpdateAction::RecoverGateway) => true,
        (UpdateState::Finished, UpdateAction::Finish(_)) => true,
        _ => false,
    }
}

/// An update job always ends: each step either finishes it or moves it closer to its end,
/// and it finishes exactly when it reports its result.
/// After each step, the state waits for exactly the work the step asks for.
pub proof fn lemma_update_step_progresses<S>(
    state: UpdateState,
    event: UpdateEvent<S>,
    next: UpdateState,
    action: UpdateAction<S>,
)
    requires
        update_event_fits(state, event),
        update_transition(state, event, next, action),
    ensures
        update_awaits(next, action),
        update_rank(next) < update_rank(state),
        action is Finish <==> next is Finished,
{
}

/// An update that changed nothing completes at once, without a System reconciliation, and
/// records only the update assessment as covered, so earlier failures of the System or the
/// gateway stay unresolved.
pub proof fn lemma_noop_update_covers_only_the_assessment(
    report: ManagedResourceUpdateReport,
    shutdown: bool,
    next: UpdateState,
    action: UpdateAction<DiagnosticSubject>,
    finalization: UpdateFinalization,
)
    requires
        report.failure is None,
        report.updated_count == 0,
        update_transition(
            UpdateState::Updating,
            UpdateEvent::Updated { result: Ok(report), shutdown },
            next,
            action,
        ),
        action matches UpdateAction::Finish(result) && update_records(result, finalization),
    ensures
        next is Finished,
        finalization matches UpdateFinalization::RecordCompletion { summary, coverage } && summary@
            == unchanged_summary_text(report.installed_count) && coverage@ == seq![
            DiagnosticSubject::UpdateAssessment,
        ],
{
    if let UpdateAction::Finish(Ok(ReconciliationOutcome::Completed(c))) = action {
        assert(c.coverage@ =~= Seq::<DiagnosticSubject>::empty());
        assert(seq![DiagnosticSubject::UpdateAssessment] + c.coverage@ =~= seq![DiagnosticSubject::UpdateAssessment]);
    }
}

/// An update that failed part way never succeeds: whether it ends at once or after the
/// System reconciliation over what was installed, it fails against the update assessment with
/// the partial update failure, alone or as the source of the reconciliation's failure.
pub proof fn lemma_partial_update_always_fails<S>(
    report: ManagedResourceUpdateReport,
    shutdown: bool,
    next: UpdateState,
    action: UpdateAction<S>,
    reconciled: UpdateEvent<S>,
    last_state: UpdateState,
    last: UpdateAction<S>,
)
    requires
        report.failure is Some,
        update_transition(UpdateState::Updating, UpdateEvent::Updated { result: Ok(report), shutdown }, next, action),
        !(action is Finish) ==> reconciled is Reconciled && update_transition(next, reconciled, last_state, last),
    ensures
        ({
            let end = if action is Finish {
                action
            } else {
                last
            };
            let partial = DaemonError::ManagedResourcePartialUpdateFailed {
                source: Box::new(report.failure->Some_0),
            };
            &&& end matches UpdateAction::Finish(Err(failed))
            &&& failed.subject == DiagnosticSubject::UpdateAssessment
            &&& (failed.error == partial || (failed.error matches DaemonError::PartialUpdateReconciliationFailed {
                source,
                ..
            } && *source == partial))
        }),
{
}

} // verus!
