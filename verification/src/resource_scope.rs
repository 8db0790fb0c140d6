//! The decisions of a reconciliation scoped to one Managed Resource track.
//!
//! The dependents of the track whose established demand is not ready are recorded as failed
//! and skipped. The requirements of the linked Projects are recorded, the track is reconciled
//! for its dependents (its failures skip their Projects too), and the staged apply completes
//! for the remaining dependents. The work happens outside; [`resource_scope_step`] decides
//! what follows each piece of it. After a fallback shutdown the failures known so far are
//! reported, or the job is cancelled when there are none.
use vstd::prelude::*;
use vstd::string::*;

use crate::error::{error_message, DaemonError};
use crate::jobs::{
    cancel_or_preserve_reconciliation_errors, CompletedReconciliationJob, ReconciliationOutcome,
    SystemProjectReconciliationReport,
};
use crate::phases::{finish_project_phase, project_record_of, PhaseOutcome, ProjectPhaseRecord};
use crate::stream::ReconciliationPhase;
use crate::project::DiagnosticSubject;
use crate::summary::{
    managed_resource_reconciliation_summary, managed_resource_summary_text_of,
    project_summary_text_of,
};

verus! {

/// A dependent Project refused before the passes: its id, the label it is reported under
/// (its primary hostname, its slug, or its id), and why.
pub struct StrictFailure {
    pub project_id: String,
    pub project_label: String,
    pub error: DaemonError,
}

/// A Project whose resources failed in the track's Resources pass.
pub struct TrackFailure {
    pub project_id: String,
    pub error: DaemonError,
}

/// Where a resource-scoped reconciliation stands.
pub enum ResourceScopeState {
    Start,
    /// Waiting for the dependents' readiness check and the recording of its refusals.
    CheckingDependents,
    RecordingRequirements { strict: Vec<StrictFailure> },
    ReconcilingTrack { strict: Vec<StrictFailure>, recorded: Vec<DaemonError> },
    Applying {
        strict: Vec<StrictFailure>,
        recorded: Vec<DaemonError>,
        track: Vec<TrackFailure>,
    },
    Finished,
}

/// What the last piece of work returned, with whether a fallback shutdown was requested by
/// the time it returned.
pub enum ResourceScopeEvent {
    Began { shutdown: bool },
    /// The dependents refused, in Project id order, once their refusals were recorded.
    DependentsChecked { result: Result<Vec<StrictFailure>, DaemonError>, shutdown: bool },
    RequirementsRecorded { result: Result<SystemProjectReconciliationReport, DaemonError>, shutdown: bool },
    /// Whether the track was reconciled, and the Projects it failed in Project id order, once
    /// their failures were recorded.
    TrackReconciled { result: Result<(bool, Vec<TrackFailure>), DaemonError>, shutdown: bool },
    Applied { result: Result<SystemProjectReconciliationReport, DaemonError>, shutdown: bool },
}

/// What to do next.
pub enum ResourceScopeAction {
    CheckDependents,
    /// Record the requirements of the linked Projects, skipping these.
    RecordRequirements { skip: Vec<String> },
    ReconcileTrack,
    /// Complete the staged apply for the dependents, skipping these.
    CompleteStagedApply { skip: Vec<String> },
    Finish(Result<ReconciliationOutcome<CompletedReconciliationJob<DiagnosticSubject>>, DaemonError>),
}

/// The errors of the refused dependents.
pub open spec fn strict_errors(strict: Seq<StrictFailure>) -> Seq<DaemonError> {
    strict.map_values(|f: StrictFailure| f.error)
}

/// The ids of the refused dependents.
pub open spec fn strict_ids(strict: Seq<StrictFailure>) -> Seq<String> {
    strict.map_values(|f: StrictFailure| f.project_id)
}

/// The errors of the Projects the track failed.
pub open spec fn track_errors(track: Seq<TrackFailure>) -> Seq<DaemonError> {
    track.map_values(|f: TrackFailure| f.error)
}

/// The ids of the Projects the track failed.
pub open spec fn track_ids(track: Seq<TrackFailure>) -> Seq<String> {
    track.map_values(|f: TrackFailure| f.project_id)
}

/// The refusals of the dependents, as Project failures.
pub open spec fn strict_project_failures(strict: Seq<StrictFailure>) -> Seq<DaemonError> {
    strict.map_values(
        |f: StrictFailure|
            DaemonError::ProjectReconciliation {
                project_label: f.project_label,
                source: Box::new(f.error),
            },
    )
}

/// Whether `event` answers the work `state` waits for.
pub open spec fn resource_scope_event_fits(state: ResourceScopeState, event: ResourceScopeEvent) -> bool {
    match state {
        ResourceScopeState::Start => event is Began,
        ResourceScopeState::CheckingDependents => event is DependentsChecked,
        ResourceScopeState::RecordingRequirements { .. } => event is RequirementsRecorded,
        ResourceScopeState::ReconcilingTrack { .. } => event is TrackReconciled,
        ResourceScopeState::Applying { .. } => event is Applied,
        ResourceScopeState::Finished => false,
    }
}

/// `action` finishes the job with `failures` preserved, or cancelled when there are none.
pub open spec fn finishes_preserving(action: ResourceScopeAction, failures: Seq<DaemonError>) -> bool {
    &&& action matches ResourceScopeAction::Finish(r)
    &&& failures.len() == 0 ==> r is Ok && r->Ok_0 is Cancelled
    &&& failures.len() == 1 ==> r == Err::<
        ReconciliationOutcome<CompletedReconciliationJob<DiagnosticSubject>>,
        DaemonError,
    >(failures[0])
    &&& failures.len() > 1 ==> (r matches Err(
        DaemonError::SystemReconciliationFailures { failures: all },
    ) && all@ == failures)
}

/// `action` finishes the job with `e`.
pub open spec fn finishes_with_error(action: ResourceScopeAction, e: DaemonError) -> bool {
    action == ResourceScopeAction::Finish(Err(e))
}

/// The transitions of a resource-scoped reconciliation of track `track` of `resource_name`.
pub open spec fn resource_scope_transition(
    resource_name: String,
    track_name: String,
    state: ResourceScopeState,
    event: ResourceScopeEvent,
    next: ResourceScopeState,
    action: ResourceScopeAction,
) -> bool {
    match (state, event) {
        (ResourceScopeState::Start, ResourceScopeEvent::Began { shutdown }) => if shutdown {
            next is Finished && finishes_preserving(action, Seq::empty())
        } else {
            next is CheckingDependents && action is CheckDependents
        },
        (ResourceScopeState::CheckingDependents, ResourceScopeEvent::DependentsChecked { result, shutdown }) =>
            match result {
            Err(e) => next is Finished && finishes_with_error(action, e),
            Ok(strict) => if shutdown {
                next is Finished && finishes_preserving(action, strict_errors(strict@))
            } else {
                &&& next == (ResourceScopeState::RecordingRequirements { strict })
                &&& action matches ResourceScopeAction::RecordRequirements { skip }
                &&& skip@ == strict_ids(strict@)
            },
        },
        (
            ResourceScopeState::RecordingRequirements { strict },
            ResourceScopeEvent::RequirementsRecorded { result, shutdown },
        ) => match result {
            Err(e) => next is Finished && finishes_with_error(action, e),
            Ok(report) => if shutdown {
                next is Finished && finishes_preserving(
                    action,
                    strict_errors(strict@) + report.failures@,
                )
            } else {
                next == (ResourceScopeState::ReconcilingTrack { strict, recorded: report.failures })
                    && action is ReconcileTrack
            },
        },
        (
            ResourceScopeState::ReconcilingTrack { strict, recorded },
            ResourceScopeEvent::TrackReconciled { result, shutdown },
        ) => match result {
            Err(e) => next is Finished && finishes_with_error(action, e),
            Ok((_, track)) => if shutdown {
                next is Finished && finishes_preserving(
                    action,
                    strict_errors(strict@) + track_errors(track@) + recorded@,
                )
            } else {
                &&& next == (ResourceScopeState::Applying { strict, recorded, track })
                &&& action matches ResourceScopeAction::CompleteStagedApply { skip }
                &&& skip@ == strict_ids(strict@) + track_ids(track@)
            },
        },
        (
            ResourceScopeState::Applying { strict, recorded, track },
            ResourceScopeEvent::Applied { result, shutdown },
        ) => match result {
            Err(e) => next is Finished && finishes_with_error(action, e),
            Ok(report) => {
                let project_failures = report.failures@ + strict_project_failures(strict@);
                &&& next is Finished
                &&& if shutdown {
                    finishes_preserving(action, recorded@ + track_errors(track@) + project_failures)
                } else {
                    &&& action matches ResourceScopeAction::Finish(
                        Ok(ReconciliationOutcome::Completed(done)),
                    )
                    &&& done.summary@ == managed_resource_summary_text_of(
                        resource_name@,
                        track_name@,
                        project_summary_text_of(
                            report.total,
                            report.succeeded,
                            report.summaries@,
                            project_failures,
                        ),
                    )
                    &&& done.coverage@ == seq![DiagnosticSubject::Resource {
                        name: resource_name,
                        track: track_name,
                    }] + project_coverage(report.successful_project_ids@)
                }
            },
        },
        _ => false,
    }
}

/// The coverage of the Projects that applied successfully.
pub open spec fn project_coverage(ids: Seq<String>) -> Seq<DiagnosticSubject> {
    ids.map_values(|id: String| DiagnosticSubject::Project { id })
}

fn strict_skip(strict: &Vec<StrictFailure>) -> (skip: Vec<String>)
    ensures
        skip@ == strict_ids(strict@),
{
    let mut skip: Vec<String> = Vec::new();
    let mut i: usize = 0;
    while i < strict.len()
        invariant
            i <= strict@.len(),
            skip@ == strict_ids(strict@.take(i as int)),
        decreases strict.len() - i,
    {
        skip.push(strict[i].project_id.clone());
        proof {
            assert(strict_ids(strict@.take(i + 1)) =~= strict_ids(strict@.take(i as int)).push(
                strict@[i as int].project_id,
            ));
        }
        i = i + 1;
    }
    proof {
        assert(strict@.take(strict@.len() as int) =~= strict@);
    }
    skip
}

fn track_skip(track: &Vec<TrackFailure>) -> (skip: Vec<String>)
    ensures
        skip@ == track_ids(track@),
{
    let mut skip: Vec<String> = Vec::new();
    let mut i: usize = 0;
    while i < track.len()
        invariant
            i <= track@.len(),
            skip@ == track_ids(track@.take(i as int)),
        decreases track.len() - i,
    {
        skip.push(track[i].project_id.clone());
        proof {
            assert(track_ids(track@.take(i + 1)) =~= track_ids(track@.take(i as int)).push(
                track@[i as int].project_id,
            ));
        }
        i = i + 1;
    }
    proof {
        assert(track@.take(track@.len() as int) =~= track@);
    }
    skip
}

fn take_strict_errors(strict: Vec<StrictFailure>) -> (errors: Vec<DaemonError>)
    ensures
        errors@ == strict_errors(strict@),
{
    let ghost original = strict@;
    let mut strict = strict;
    let mut errors: Vec<DaemonError> = Vec::new();
    let mut taken: usize = 0;
    let total = strict.len();
    proof {
        assert(original.len() == total);
    }
    while strict.len() > 0
        invariant
            taken <= original.len(),
            original.len() <= usize::MAX,
            strict@ == original.subrange(taken as int, original.len() as int),
            errors@ == strict_errors(original.take(taken as int)),
        decreases strict.len(),
    {
        let f = strict.remove(0);
        proof {
            assert(f == original[taken as int]);
            assert(strict_errors(original.take(taken + 1)) =~= strict_errors(
                original.take(taken as int),
            ).push(f.error));
        }
        errors.push(f.error);
        taken = taken + 1;
    }
    proof {
        assert(original.take(taken as int) =~= original);
    }
    errors
}

fn take_strict_project_failures(strict: Vec<StrictFailure>) -> (errors: Vec<DaemonError>)
    ensures
        errors@ == strict_project_failures(strict@),
{
    let ghost original = strict@;
    let mut strict = strict;
    let mut errors: Vec<DaemonError> = Vec::new();
    let mut taken: usize = 0;
    let total = strict.len();
    proof {
        assert(original.len() == total);
    }
    while strict.len() > 0
        invariant
            taken <= original.len(),
            original.len() <= usize::MAX,
            strict@ == original.subrange(taken as int, original.len() as int),
            errors@ == strict_project_failures(original.take(taken as int)),
        decreases strict.len(),
    {
        let f = strict.remove(0);
        proof {
            assert(f == original[taken as int]);
            assert(strict_project_failures(original.take(taken + 1)) =~= strict_project_failures(
                original.take(taken as int),
            ).push(
                DaemonError::ProjectReconciliation {
                    project_label: f.project_label,
                    source: Box::new(f.error),
                },
            ));
        }
        errors.push(
            DaemonError::ProjectReconciliation {
                project_label: f.project_label,
                source: Box::new(f.error),
            },
        );
        taken = taken + 1;
    }
    proof {
        assert(original.take(taken as int) =~= original);
    }
    errors
}

fn take_track_errors(track: Vec<TrackFailure>) -> (errors: Vec<DaemonError>)
    ensures
        errors@ == track_errors(track@),
{
    let ghost original = track@;
    let mut track = track;
    let mut errors: Vec<DaemonError> = Vec::new();
    let mut taken: usize = 0;
    let total = track.len();
    proof {
        assert(original.len() == total);
    }
    while track.len() > 0
        invariant
            taken <= original.len(),
            original.len() <= usize::MAX,
            track@ == original.subrange(taken as int, original.len() as int),
            errors@ == track_errors(original.take(taken as int)),
        decreases track.len(),
    {
        let f = track.remove(0);
        proof {
            assert(f == original[taken as int]);
            assert(track_errors(original.take(taken + 1)) =~= track_errors(
                original.take(taken as int),
            ).push(f.error));
        }
        errors.push(f.error);
        taken = taken + 1;
    }
    proof {
        assert(original.take(taken as int) =~= original);
    }
    errors
}

fn coverage_of(resource_name: &String, track_name: &String, ids: &Vec<String>) -> (coverage: Vec<
    DiagnosticSubject,
>)
    ensures
        coverage@ == seq![DiagnosticSubject::Resource { name: *resource_name, track: *track_name }]
            + project_coverage(ids@),
{
    let mut coverage: Vec<DiagnosticSubject> = Vec::new();
    coverage.push(
        DiagnosticSubject::Resource { name: resource_name.clone(), track: track_name.clone() },
    );
    let ghost head = seq![DiagnosticSubject::Resource { name: *resource_name, track: *track_name }];
    let mut i: usize = 0;
    while i < ids.len()
        invariant
            i <= ids@.len(),
            head == seq![DiagnosticSubject::Resource { name: *resource_name, track: *track_name }],
            coverage@ == head + project_coverage(ids@.take(i as int)),
        decreases ids.len() - i,
    {
        coverage.push(DiagnosticSubject::Project { id: ids[i].clone() });
        proof {
            assert(project_coverage(ids@.take(i + 1)) =~= project_coverage(ids@.take(i as int)).push(
                DiagnosticSubject::Project { id: ids@[i as int] },
            ));
        }
        i = i + 1;
    }
    proof {
        assert(ids@.take(ids@.len() as int) =~= ids@);
    }
    coverage
}

fn preserve(failures: Vec<DaemonError>) -> (action: ResourceScopeAction)
    ensures
        finishes_preserving(action, failures@),
{
    ResourceScopeAction::Finish(cancel_or_preserve_reconciliation_errors(failures))
}

/// Decides what a reconciliation of track `track_name` of `resource_name` does after
/// `event`, from `state`.
pub fn resource_scope_step(
    resource_name: &String,
    track_name: &String,
    state: ResourceScopeState,
    event: ResourceScopeEvent,
) -> (step: (ResourceScopeState, ResourceScopeAction))
    requires
        resource_scope_event_fits(state, event),
    ensures
        resource_scope_transition(*resource_name, *track_name, state, event, step.0, step.1),
{
    match (state, event) {
        (ResourceScopeState::Start, ResourceScopeEvent::Began { shutdown }) => {
            if shutdown {
                let none: Vec<DaemonError> = Vec::new();
                (ResourceScopeState::Finished, preserve(none))
            } else {
                (ResourceScopeState::CheckingDependents, ResourceScopeAction::CheckDependents)
            }
        },
        (ResourceScopeState::CheckingDependents, ResourceScopeEvent::DependentsChecked { result, shutdown }) => {
            match result {
                Err(e) => (ResourceScopeState::Finished, ResourceScopeAction::Finish(Err(e))),
                Ok(strict) => {
                    if shutdown {
                        (ResourceScopeState::Finished, preserve(take_strict_errors(strict)))
                    } else {
                        let skip = strict_skip(&strict);
                        (
                            ResourceScopeState::RecordingRequirements { strict },
                            ResourceScopeAction::RecordRequirements { skip },
                        )
                    }
                },
            }
        },
        (
            ResourceScopeState::RecordingRequirements { strict },
            ResourceScopeEvent::RequirementsRecorded { result, shutdown },
        ) => match result {
            Err(e) => (ResourceScopeState::Finished, ResourceScopeAction::Finish(Err(e))),
            Ok(report) => {
                if shutdown {
                    let mut failures = take_strict_errors(strict);
                    let mut recorded = report.failures;
                    failures.append(&mut recorded);
                    (ResourceScopeState::Finished, preserve(failures))
                } else {
                    (
                        ResourceScopeState::ReconcilingTrack { strict, recorded: report.failures },
                        ResourceScopeAction::ReconcileTrack,
                    )
                }
            },
        },
        (
            ResourceScopeState::ReconcilingTrack { strict, recorded },
            ResourceScopeEvent::TrackReconciled { result, shutdown },
        ) => match result {
            Err(e) => (ResourceScopeState::Finished, ResourceScopeAction::Finish(Err(e))),
            Ok((_, track)) => {
                if shutdown {
                    let mut failures = take_strict_errors(strict);
                    let mut track_failures = take_track_errors(track);
                    let mut recorded = recorded;
                    failures.append(&mut track_failures);
                    failures.append(&mut recorded);
                    (ResourceScopeState::Finished, preserve(failures))
                } else {
                    let mut skip = strict_skip(&strict);
                    let mut more = track_skip(&track);
                    skip.append(&mut more);
                    (
                        ResourceScopeState::Applying { strict, recorded, track },
                        ResourceScopeAction::CompleteStagedApply { skip },
                    )
                }
            },
        },
        (
            ResourceScopeState::Applying { strict, recorded, track },
            ResourceScopeEvent::Applied { result, shutdown },
        ) => match result {
            Err(e) => (ResourceScopeState::Finished, ResourceScopeAction::Finish(Err(e))),
            Ok(report) => {
                let mut project_failures = report.failures;
                let mut strict_failures = take_strict_project_failures(strict);
                project_failures.append(&mut strict_failures);
                if shutdown {
                    let mut failures = recorded;
                    let mut track_failures = take_track_errors(track);
                    failures.append(&mut track_failures);
                    failures.append(&mut project_failures);
                    (ResourceScopeState::Finished, preserve(failures))
                } else {
                    let report = SystemProjectReconciliationReport {
                        total: report.total,
                        succeeded: report.succeeded,
                        successful_project_ids: report.successful_project_ids,
                        summaries: report.summaries,
                        failures: project_failures,
                    };
                    let summary = managed_resource_reconciliation_summary(
                        resource_name.as_str(),
                        track_name.as_str(),
                        &report,
                    );
                    let coverage = coverage_of(resource_name, track_name, &report.successful_project_ids);
                    (
                        ResourceScopeState::Finished,
                        ResourceScopeAction::Finish(
                            Ok(ReconciliationOutcome::Completed(CompletedReconciliationJob { summary, coverage })),
                        ),
                    )
                }
            },
        },
        (_, _) => (ResourceScopeState::Finished, preserve(Vec::new())),
    }
}

/// The Resources phase outcome of the track's pass: skipped when the track was not
/// reconciled, succeeded when it was, failed when the pass failed.
pub fn track_phase_outcome(result: &Result<(bool, Vec<TrackFailure>), DaemonError>) -> (outcome:
    PhaseOutcome)
    ensures
        outcome == match result {
            Ok((reconciled, _)) => if *reconciled {
                PhaseOutcome::Succeeded
            } else {
                PhaseOutcome::Skipped
            },
            Err(_) => PhaseOutcome::Failed,
        },
{
    match result {
        Ok((reconciled, _)) => {
            if *reconciled {
                PhaseOutcome::Succeeded
            } else {
                PhaseOutcome::Skipped
            }
        },
        Err(_) => PhaseOutcome::Failed,
    }
}

/// How far a resource-scoped reconciliation is from its end.
pub open spec fn resource_scope_rank(state: ResourceScopeState) -> nat {
    match state {
        ResourceScopeState::Start => 5,
        ResourceScopeState::CheckingDependents => 4,
        ResourceScopeState::RecordingRequirements { .. } => 3,
        ResourceScopeState::ReconcilingTrack { .. } => 2,
        ResourceScopeState::Applying { .. } => 1,
        ResourceScopeState::Finished => 0,
    }
}

/// `next` waits for the very work `action` asks for.
pub open spec fn resource_scope_awaits(next: ResourceScopeState, action: ResourceScopeAction) -> bool {
    match (next, action) {
        (ResourceScopeState::CheckingDependents, ResourceScopeAction::CheckDependents) => true,
        (ResourceScopeState::RecordingRequirements { .. }, ResourceScopeAction::RecordRequirements { .. }) => true,
        (ResourceScopeState::ReconcilingTrack { .. }, ResourceScopeAction::ReconcileTrack) => true,
        (ResourceScopeState::Applying { .. }, ResourceScopeAction::CompleteStagedApply { .. }) => true,
        (ResourceScopeState::Finished, ResourceScopeAction::Finish(_)) => true,
        _ => false,
    }
}

/// A resource-scoped reconciliation always ends: each step either finishes it or moves it
/// closer to its end, and it finishes exactly when it reports its result.
/// After each step, the state waits for exactly the work the step asks for.
pub proof fn lemma_resource_scope_step_progresses(
    resource_name: String,
    track_name: String,
    state: ResourceScopeState,
    event: ResourceScopeEvent,
    next: ResourceScopeState,
    action: ResourceScopeAction,
)
    requires
        resource_scope_event_fits(state, event),
        resource_scope_transition(resource_name, track_name, state, event, next, action),
    ensures
        resource_scope_awaits(next, action),
        resource_scope_rank(next) < resource_scope_rank(state),
        action is Finish <==> next is Finished,
{
}

/// A phase record that a resource-scoped reconciliation writes.
pub enum ScopePhaseRecord {
    /// A pass over the dependent Projects ended: recording requirements, or the staged apply.
    ProjectApply(ProjectPhaseRecord),
    /// The track's Resources pass ended.
    Resources(PhaseOutcome),
}

/// The phase that the work `action` asks for opens.
pub open spec fn resource_scope_action_phase(action: ResourceScopeAction) -> Option<ReconciliationPhase> {
    match action {
        ResourceScopeAction::RecordRequirements { .. } => Some(ReconciliationPhase::ProjectApply),
        ResourceScopeAction::ReconcileTrack => Some(ReconciliationPhase::Resources),
        ResourceScopeAction::CompleteStagedApply { .. } => Some(ReconciliationPhase::ProjectApply),
        _ => None,
    }
}

/// The phase record written when the work that `event` reports ends.
pub open spec fn resource_scope_event_record(event: ResourceScopeEvent, record: Option<ScopePhaseRecord>) -> bool {
    match event {
        ResourceScopeEvent::RequirementsRecorded { result, .. } => record matches Some(
            ScopePhaseRecord::ProjectApply(r),
        ) && project_record_of(result, r),
        ResourceScopeEvent::TrackReconciled { result, .. } => record == Some(
            ScopePhaseRecord::Resources(
                match result {
                    Ok((reconciled, _)) => if reconciled {
                        PhaseOutcome::Succeeded
                    } else {
                        PhaseOutcome::Skipped
                    },
                    Err(_) => PhaseOutcome::Failed,
                },
            ),
        ),
        ResourceScopeEvent::Applied { result, .. } => record matches Some(ScopePhaseRecord::ProjectApply(r))
            && project_record_of(result, r),
        _ => record is None,
    }
}

/// The phase that the work `action` asks for opens, reported live as it starts.
pub fn resource_scope_phase_started(action: &ResourceScopeAction) -> (phase: Option<ReconciliationPhase>)
    ensures
        phase == resource_scope_action_phase(*action),
{
    match action {
        ResourceScopeAction::RecordRequirements { .. } => Some(ReconciliationPhase::ProjectApply),
        ResourceScopeAction::ReconcileTrack => Some(ReconciliationPhase::Resources),
        ResourceScopeAction::CompleteStagedApply { .. } => Some(ReconciliationPhase::ProjectApply),
        _ => None,
    }
}

/// The phase record written when the work that `event` reports ends, before the step decides
/// what follows: each pass over the dependents with its counts, and the track's Resources
/// pass as succeeded, skipped (nothing to reconcile) or failed.
pub fn resource_scope_phase_record(event: &ResourceScopeEvent) -> (record: Option<ScopePhaseRecord>)
    ensures
        resource_scope_event_record(*event, record),
{
    match event {
        ResourceScopeEvent::RequirementsRecorded { result, .. } => Some(
            ScopePhaseRecord::ProjectApply(finish_project_phase(result)),
        ),
        ResourceScopeEvent::TrackReconciled { result, .. } => Some(
            ScopePhaseRecord::Resources(track_phase_outcome(result)),
        ),
        ResourceScopeEvent::Applied { result, .. } => Some(
            ScopePhaseRecord::ProjectApply(finish_project_phase(result)),
        ),
        _ => None,
    }
}

/// The refusals to record, by Project id and text, for the first `n` refused dependents:
/// those whose Project is not already observed as failed, in order.
pub open spec fn refusals_to_record(strict: Seq<StrictFailure>, already_failed: Seq<bool>, n: nat) -> Seq<
    (Seq<char>, Seq<char>),
>
    decreases n,
{
    if n == 0 {
        Seq::empty()
    } else {
        let prev = refusals_to_record(strict, already_failed, (n - 1) as nat);
        if already_failed[n - 1] {
            prev
        } else {
            prev.push((strict[n - 1].project_id@, error_message(strict[n - 1].error)))
        }
    }
}

/// Which refusals of the dependents are recorded as their Project's failure, by Project id
/// and text: a Project already observed as failed keeps its earlier failure cause rather than
/// having it replaced by this recheck's refusal. `already_failed[i]` says whether the Project
/// of `strict[i]` is observed as failed.
pub fn strict_failures_to_record(strict: &Vec<StrictFailure>, already_failed: &Vec<bool>) -> (records: Vec<
    (String, String),
>)
    requires
        already_failed@.len() == strict@.len(),
    ensures
        records@.map_values(|r: (String, String)| (r.0@, r.1@)) == refusals_to_record(
            strict@,
            already_failed@,
            strict@.len(),
        ),
{
    let mut records: Vec<(String, String)> = Vec::new();
    let mut i: usize = 0;
    while i < strict.len()
        invariant
            i <= strict@.len(),
            already_failed@.len() == strict@.len(),
            records@.map_values(|r: (String, String)| (r.0@, r.1@)) == refusals_to_record(
                strict@,
                already_failed@,
                i as nat,
            ),
        decreases strict.len() - i,
    {
        if !already_failed[i] {
            let ghost before = records@;
            let text = strict[i].error.message();
            records.push((strict[i].project_id.clone(), text));
            proof {
                assert(records@ == before.push(records@[before.len() as int]));
                assert(records@.map_values(|r: (String, String)| (r.0@, r.1@)) =~= before.map_values(
                    |r: (String, String)| (r.0@, r.1@),
                ).push((strict@[i as int].project_id@, error_message(strict@[i as int].error))));
            }
        }
        i = i + 1;
    }
    records
}

/// After the track's Resources pass, unless a shutdown is requested, the staged apply runs and
/// skips every dependent refused before the passes and every Project the track pass failed.
pub proof fn lemma_staged_apply_skips_failed_projects(
    resource_name: String,
    track_name: String,
    strict: Vec<StrictFailure>,
    recorded: Vec<DaemonError>,
    reconciled: bool,
    track: Vec<TrackFailure>,
    next: ResourceScopeState,
    action: ResourceScopeAction,
)
    requires
        resource_scope_transition(
            resource_name,
            track_name,
            ResourceScopeState::ReconcilingTrack { strict, recorded },
            ResourceScopeEvent::TrackReconciled { result: Ok((reconciled, track)), shutdown: false },
            next,
            action,
        ),
    ensures
        action matches ResourceScopeAction::CompleteStagedApply { skip } && (forall|i: int|
            0 <= i < track@.len() ==> skip@.contains(#[trigger] track@[i].project_id)) && (forall|
            i: int,
        |
            0 <= i < strict@.len() ==> skip@.contains(#[trigger] strict@[i].project_id)),
{
    if let ResourceScopeAction::CompleteStagedApply { skip } = action {
        assert forall|i: int| 0 <= i < track@.len() implies skip@.contains(#[trigger] track@[i].project_id) by {
            assert(skip@[strict@.len() + i] == track@[i].project_id);
        }
        assert forall|i: int| 0 <= i < strict@.len() implies skip@.contains(#[trigger] strict@[i].project_id) by {
            assert(skip@[i] == strict@[i].project_id);
        }
    }
}

} // verus!
