//! How a reconciliation or update job is dispatched and how its outcome is recorded.
//!
//! Recording happens in the state store; the functions here decide what to record and what
//! the job reports once the store has answered.
use vstd::prelude::*;
use vstd::string::*;

use crate::error::DaemonError;
use crate::jobs::{CompletedReconciliationJob, ReconciliationJobCompletion, ReconciliationOutcome};
use crate::phases::PhaseOutcome;
use crate::scope::{is_gateway_runtime_resource, gateway_runtime_resource, ReconciliationScope};
use crate::timing::{duration_milliseconds, usize_as_u64, Span};

verus! {

/// Which reconciliation runs for an effective scope.
pub enum ReconciliationKind {
    System,
    Gateway,
    ManagedResource { name: String, track: String },
    Project { id: String },
}

/// Resource scopes for gateway runtimes reconcile the gateway; other resource scopes reconcile
/// their Managed Resource track.
pub fn reconciliation_kind(effective_scope: ReconciliationScope) -> (kind: ReconciliationKind)
    ensures
        match effective_scope {
            ReconciliationScope::System => kind is System,
            ReconciliationScope::Project { id } => kind == (ReconciliationKind::Project { id }),
            ReconciliationScope::Resource { name, track } => if is_gateway_runtime_resource(name@) {
                kind is Gateway
            } else {
                kind == (ReconciliationKind::ManagedResource { name, track })
            },
        },
{
    match effective_scope {
        ReconciliationScope::System => ReconciliationKind::System,
        ReconciliationScope::Project { id } => ReconciliationKind::Project { id },
        ReconciliationScope::Resource { name, track } => {
            if gateway_runtime_resource(name.as_str()) {
                ReconciliationKind::Gateway
            } else {
                ReconciliationKind::ManagedResource { name, track }
            }
        },
    }
}

/// The Project whose existence decides whether a background job is obsolete: only a Project
/// scope with obsolete Projects discarded has one.
pub fn obsolete_project_candidate(discard_obsolete_project: bool, scope: &ReconciliationScope) -> (id:
    Option<String>)
    ensures
        match scope {
            ReconciliationScope::Project { id: project } => if discard_obsolete_project {
                id == Some(*project)
            } else {
                id is None
            },
            _ => id is None,
        },
{
    if !discard_obsolete_project {
        return None;
    }
    match scope {
        ReconciliationScope::Project { id } => Some(id.clone()),
        _ => None,
    }
}

/// The summary of a background job whose Project was removed before it ran.
pub open spec fn obsolete_project_summary_text() -> Seq<char> {
    "Project was removed before background reconciliation; skipped"@
}

/// The completion of a background job whose Project was removed before it ran: nothing was
/// covered.
pub fn obsolete_project_completion<S>() -> (completed: CompletedReconciliationJob<S>)
    ensures
        completed.summary@ == obsolete_project_summary_text(),
        completed.coverage@.len() == 0,
{
    CompletedReconciliationJob {
        summary: String::from_str("Project was removed before background reconciliation; skipped"),
        coverage: Vec::new(),
    }
}

/// Which reconciliation runs for an effective scope, as [`reconciliation_kind`] decides.
pub open spec fn reconciliation_kind_of(effective_scope: ReconciliationScope) -> ReconciliationKind {
    match effective_scope {
        ReconciliationScope::System => ReconciliationKind::System,
        ReconciliationScope::Project { id } => ReconciliationKind::Project { id },
        ReconciliationScope::Resource { name, track } => if is_gateway_runtime_resource(name@) {
            ReconciliationKind::Gateway
        } else {
            ReconciliationKind::ManagedResource { name, track }
        },
    }
}

/// How a reconciliation job starts.
pub enum ReconciliationDispatch<S> {
    /// The job's Project was removed: its Project Apply phase is recorded as skipped, no
    /// Project, Resource or Gateway work runs, and the job completes with `completed`.
    Skip { project_id: String, completed: CompletedReconciliationJob<S> },
    /// Looking the Project up failed; the job fails with the error.
    Fail { error: DaemonError },
    /// The reconciliation of this kind runs.
    Run { kind: ReconciliationKind },
}

/// How a reconciliation job of `scope`, reconciled as `effective_scope`, starts. When obsolete
/// Projects are discarded and the scope is a Project, `project_exists` says whether the
/// Project is still linked (or why that could not be told); it is not looked at otherwise.
/// A removed Project skips all work and completes with the removal summary, covering nothing.
pub fn reconciliation_dispatch<S>(
    discard_obsolete_project: bool,
    scope: &ReconciliationScope,
    effective_scope: ReconciliationScope,
    project_exists: Result<bool, DaemonError>,
) -> (dispatch: ReconciliationDispatch<S>)
    ensures
        match scope {
            ReconciliationScope::Project { id } if discard_obsolete_project => match project_exists {
                Err(e) => dispatch == ReconciliationDispatch::<S>::Fail { error: e },
                Ok(false) => dispatch matches ReconciliationDispatch::Skip { project_id, completed }
                    && project_id == id && completed.summary@ == obsolete_project_summary_text()
                    && completed.coverage@.len() == 0,
                Ok(true) => dispatch == ReconciliationDispatch::<S>::Run {
                    kind: reconciliation_kind_of(effective_scope),
                },
            },
            _ => dispatch == ReconciliationDispatch::<S>::Run { kind: reconciliation_kind_of(effective_scope) },
        },
{
    match obsolete_project_candidate(discard_obsolete_project, scope) {
        Some(project_id) => match project_exists {
            Err(error) => ReconciliationDispatch::Fail { error },
            Ok(false) => ReconciliationDispatch::Skip { project_id, completed: obsolete_project_completion() },
            Ok(true) => ReconciliationDispatch::Run { kind: reconciliation_kind(effective_scope) },
        },
        None => ReconciliationDispatch::Run { kind: reconciliation_kind(effective_scope) },
    }
}

/// Where the recording of a finished job stands.
pub enum JobRecording {
    /// The job completed; its completion is being recorded.
    RecordingCompletion { summary: String },
    /// The job failed, or its completion could not be recorded; the failure is being recorded.
    RecordingFailure { error: DaemonError },
}

/// What follows a reconciliation's outcome: nothing to record when it was cancelled,
/// otherwise the completion or the failure is recorded.
pub enum JobFinalization<S> {
    Cancelled,
    Record { recording: JobRecording, coverage: Vec<S> },
}

/// Decides how a reconciliation's outcome is recorded.
pub fn finalization_of<S>(result: Result<ReconciliationOutcome<CompletedReconciliationJob<S>>, DaemonError>) -> (finalization:
    JobFinalization<S>)
    ensures
        match result {
            Ok(ReconciliationOutcome::Cancelled) => finalization is Cancelled,
            Ok(ReconciliationOutcome::Completed(completed)) => finalization == (JobFinalization::Record {
                recording: JobRecording::RecordingCompletion { summary: completed.summary },
                coverage: completed.coverage,
            }),
            Err(error) => finalization matches JobFinalization::Record { recording, coverage }
                && recording == (JobRecording::RecordingFailure { error }) && coverage@.len() == 0,
        },
{
    match result {
        Ok(ReconciliationOutcome::Cancelled) => JobFinalization::Cancelled,
        Ok(ReconciliationOutcome::Completed(completed)) => JobFinalization::Record {
            recording: JobRecording::RecordingCompletion { summary: completed.summary },
            coverage: completed.coverage,
        },
        Err(error) => JobFinalization::Record {
            recording: JobRecording::RecordingFailure { error },
            coverage: Vec::new(),
        },
    }
}

/// The next step of recording a reconciliation job, once the store answered `stored`.
pub enum RecordingStep {
    /// Record this failure next.
    RecordFailure { error: DaemonError },
    /// The job ended so.
    Done(ReconciliationJobCompletion),
}

/// A recorded completion succeeds the job; a completion that could not be recorded turns
/// into a failure to record; a recorded failure fails the job, and a failure that could not
/// be recorded is reported along with it.
pub fn reconciliation_recording_step(recording: JobRecording, stored: Result<(), DaemonError>) -> (step:
    RecordingStep)
    ensures
        match recording {
            JobRecording::RecordingCompletion { summary } => match stored {
                Ok(()) => step == RecordingStep::Done(ReconciliationJobCompletion::Succeeded(summary)),
                Err(e) => step == (RecordingStep::RecordFailure { error: e }),
            },
            JobRecording::RecordingFailure { error } => match stored {
                Ok(()) => step == RecordingStep::Done(
                    ReconciliationJobCompletion::Failed {
                        error: Box::new(error),
                        recording_error: None,
                    },
                ),
                Err(e) => step == RecordingStep::Done(
                    ReconciliationJobCompletion::Failed {
                        error: Box::new(error),
                        recording_error: Some(Box::new(e)),
                    },
                ),
            },
        },
{
    match recording {
        JobRecording::RecordingCompletion { summary } => match stored {
            Ok(()) => RecordingStep::Done(ReconciliationJobCompletion::Succeeded(summary)),
            Err(e) => RecordingStep::RecordFailure { error: e },
        },
        JobRecording::RecordingFailure { error } => finish_failed_reconciliation_job(error, stored),
    }
}

/// A failed reconciliation job, with the failure to record it when there was one.
pub fn finish_failed_reconciliation_job(error: DaemonError, recorded: Result<(), DaemonError>) -> (step:
    RecordingStep)
    ensures
        step == RecordingStep::Done(
            ReconciliationJobCompletion::Failed {
                error: Box::new(error),
                recording_error: match recorded {
                    Ok(()) => None,
                    Err(e) => Some(Box::new(e)),
                },
            },
        ),
{
    let recording_error = match recorded {
        Ok(()) => None,
        Err(e) => Some(Box::new(e)),
    };
    RecordingStep::Done(ReconciliationJobCompletion::Failed { error: Box::new(error), recording_error })
}

/// An update job ends as its recording ends: a recorded completion succeeds it; a completion
/// that could not be recorded fails it with that error and nothing more is recorded; a
/// failure fails it, with the failure to record it when there was one.
pub fn update_recording_completion(recording: JobRecording, stored: Result<(), DaemonError>) -> (completion:
    ReconciliationJobCompletion)
    ensures
        match recording {
            JobRecording::RecordingCompletion { summary } => match stored {
                Ok(()) => completion == ReconciliationJobCompletion::Succeeded(summary),
                Err(e) => completion == (ReconciliationJobCompletion::Failed {
                    error: Box::new(e),
                    recording_error: None,
                }),
            },
            JobRecording::RecordingFailure { error } => completion == (
            ReconciliationJobCompletion::Failed {
                error: Box::new(error),
                recording_error: match stored {
                    Ok(()) => None,
                    Err(e) => Some(Box::new(e)),
                },
            }),
        },
{
    match recording {
        JobRecording::RecordingCompletion { summary } => match stored {
            Ok(()) => ReconciliationJobCompletion::Succeeded(summary),
            Err(e) => ReconciliationJobCompletion::Failed { error: Box::new(e), recording_error: None },
        },
        JobRecording::RecordingFailure { error } => {
            let recording_error = match stored {
                Ok(()) => None,
                Err(e) => Some(Box::new(e)),
            };
            ReconciliationJobCompletion::Failed { error: Box::new(error), recording_error }
        },
    }
}

/// The record of a finished finalization phase.
pub struct FinalizationRecord {
    pub outcome: PhaseOutcome,
    pub total_execution_ms: u64,
    pub coverage_count: u64,
}

/// The finalization phase succeeds exactly when the job did; it records how long the job ran
/// and how many subjects it covered.
pub fn finalization_record(
    completion: &ReconciliationJobCompletion,
    execution_elapsed: Span,
    coverage_count: usize,
) -> (record: FinalizationRecord)
    requires
        execution_elapsed.wf(),
    ensures
        record.outcome == (if *completion is Succeeded {
            PhaseOutcome::Succeeded
        } else {
            PhaseOutcome::Failed
        }),
        record.total_execution_ms as int == if execution_elapsed.total_nanos() / 1_000_000
            <= u64::MAX as int {
            execution_elapsed.total_nanos() / 1_000_000
        } else {
            u64::MAX as int
        },
        record.coverage_count == coverage_count,
{
    FinalizationRecord {
        outcome: PhaseOutcome::from_succeeded(completion.is_succeeded()),
        total_execution_ms: duration_milliseconds(execution_elapsed),
        coverage_count: usize_as_u64(coverage_count),
    }
}

/// A reconciliation job reports success only when it completed and its completion was
/// recorded: a recorded failure, or a completion that could not be recorded, never succeeds.
pub proof fn lemma_recording_succeeds_only_when_stored(
    recording: JobRecording,
    stored: Result<(), DaemonError>,
    step: RecordingStep,
)
    requires
        match recording {
            JobRecording::RecordingCompletion { summary } => match stored {
                Ok(()) => step == RecordingStep::Done(ReconciliationJobCompletion::Succeeded(summary)),
                Err(e) => step == (RecordingStep::RecordFailure { error: e }),
            },
            JobRecording::RecordingFailure { error } => step matches RecordingStep::Done(c)
                && c is Failed,
        },
    ensures
        (step matches RecordingStep::Done(c) && c is Succeeded) <==> (recording is RecordingCompletion
            && stored is Ok),
{
}

} // verus!
