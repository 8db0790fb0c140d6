//! The decisions of reconciling one Managed Resource track for a Project.
//!
//! A track whose resource has no runtime adapter needs nothing when its environment was
//! seeded, and fails otherwise. A track with an adapter gets its artifact, then its ports;
//! when a port is taken by a process pv has no record of, or the runtime finds a listener
//! pv did not start, the track's runtime files and ports are cleaned up and the start is
//! tried again, up to [`RESOURCE_START_ATTEMPTS`] attempts. A failure is recorded as the
//! track's observed runtime status before it is returned. The work happens outside;
//! [`track_step`] decides what follows each piece of it.
use vstd::prelude::*;
use vstd::string::*;

use crate::error::{error_message, DaemonError};

verus! {

/// How many times a track's runtime start is attempted.
pub const RESOURCE_START_ATTEMPTS: usize = 10;

/// Where the reconciliation of a track stands.
pub enum TrackState {
    Start,
    /// Waiting for whether the adapter-less resource has seeded environment context.
    CheckingSeededEnv { resource: String },
    /// Waiting for the track's artifact.
    EnsuringArtifact { resource: String, track: String },
    /// Waiting for the ports of this attempt and whether one is taken by an unknown process.
    AssigningPorts { attempt: usize },
    /// Waiting for the cleanup before the next attempt.
    CleaningUp { attempt: usize },
    /// Waiting for the runtime of this attempt.
    Running { attempt: usize },
    /// Waiting for the failure to be recorded as the track's observed status.
    RecordingFailure { error: DaemonError },
    Finished,
}

/// What the last piece of work returned.
pub enum TrackEvent {
    /// Whether the catalog has a runtime adapter for the resource.
    Began { adapter_found: bool },
    SeededEnvChecked { result: Result<bool, DaemonError> },
    /// The track's artifact, and whether its record has an artifact path.
    ArtifactEnsured { result: Result<bool, DaemonError> },
    /// The ports were assigned, and whether one is taken by a process without a recorded
    /// runtime.
    PortsAssigned { result: Result<bool, DaemonError> },
    CleanedUp { result: Result<(), DaemonError> },
    RuntimeFinished { result: Result<(), DaemonError> },
    FailureRecorded { result: Result<(), DaemonError> },
}

/// What to do next.
pub enum TrackAction {
    CheckSeededEnv,
    EnsureArtifact,
    AssignPorts,
    /// Delete the track's runtime files and release its ports.
    CleanUp,
    StartRuntime,
    /// Record the track's runtime as failed with this text.
    RecordFailure { message: String },
    Finish(Result<(), DaemonError>),
}

/// Whether `event` answers the work `state` waits for.
pub open spec fn track_event_fits(state: TrackState, event: TrackEvent) -> bool {
    match (state, event) {
        (TrackState::Start, TrackEvent::Began { .. }) => true,
        (TrackState::CheckingSeededEnv { .. }, TrackEvent::SeededEnvChecked { .. }) => true,
        (TrackState::EnsuringArtifact { .. }, TrackEvent::ArtifactEnsured { .. }) => true,
        (TrackState::AssigningPorts { .. }, TrackEvent::PortsAssigned { .. }) => true,
        (TrackState::CleaningUp { .. }, TrackEvent::CleanedUp { .. }) => true,
        (TrackState::Running { .. }, TrackEvent::RuntimeFinished { .. }) => true,
        (TrackState::RecordingFailure { .. }, TrackEvent::FailureRecorded { .. }) => true,
        _ => false,
    }
}

/// The attempts stay within [`RESOURCE_START_ATTEMPTS`].
pub open spec fn track_state_valid(state: TrackState) -> bool {
    match state {
        TrackState::AssigningPorts { attempt } => 1 <= attempt <= RESOURCE_START_ATTEMPTS,
        TrackState::CleaningUp { attempt } => 1 <= attempt < RESOURCE_START_ATTEMPTS,
        TrackState::Running { attempt } => 1 <= attempt <= RESOURCE_START_ATTEMPTS,
        _ => true,
    }
}

/// The failure `error` is recorded next.
pub open spec fn records(next: TrackState, action: TrackAction, error: DaemonError) -> bool {
    &&& next == TrackState::RecordingFailure { error }
    &&& match action {
        TrackAction::RecordFailure { message } => message@ == error_message(error),
        _ => false,
    }
}

/// The transition from `state` on `event`.
pub open spec fn track_transition(
    resource: String,
    track: String,
    state: TrackState,
    event: TrackEvent,
    next: TrackState,
    action: TrackAction,
) -> bool {
    match (state, event) {
        (TrackState::Start, TrackEvent::Began { adapter_found }) => if adapter_found {
            next == TrackState::EnsuringArtifact { resource, track } && action is EnsureArtifact
        } else {
            next == TrackState::CheckingSeededEnv { resource } && action is CheckSeededEnv
        },
        (TrackState::CheckingSeededEnv { resource: r }, TrackEvent::SeededEnvChecked { result }) => match result {
            Err(e) => next is Finished && action == TrackAction::Finish(Err(e)),
            Ok(true) => next is Finished && action == TrackAction::Finish(Ok(())),
            Ok(false) => match next {
                TrackState::RecordingFailure { error } => records(next, action, error) && match error {
                    DaemonError::UnsupportedManagedResourceRuntime { resource: name } => name@ == r@,
                    _ => false,
                },
                _ => false,
            },
        },
        (TrackState::EnsuringArtifact { resource: r, track: t }, TrackEvent::ArtifactEnsured { result }) => match result {
            Err(e) => records(next, action, e),
            Ok(false) => match next {
                TrackState::RecordingFailure { error } => records(next, action, error) && match error {
                    DaemonError::ManagedResourceArtifactMissing { resource: name, track: tr } => name@ == r@ && tr@
                        == t@,
                    _ => false,
                },
                _ => false,
            },
            Ok(true) => next == TrackState::AssigningPorts { attempt: 1 } && action is AssignPorts,
        },
        (TrackState::AssigningPorts { attempt }, TrackEvent::PortsAssigned { result }) => match result {
            Err(e) => records(next, action, e),
            Ok(occupied) => if occupied && attempt < RESOURCE_START_ATTEMPTS {
                next == TrackState::CleaningUp { attempt } && action is CleanUp
            } else {
                next == TrackState::Running { attempt } && action is StartRuntime
            },
        },
        (TrackState::CleaningUp { attempt }, TrackEvent::CleanedUp { result }) => match result {
            Err(e) => records(next, action, e),
            Ok(()) => next == TrackState::AssigningPorts { attempt: (attempt + 1) as usize } && action is AssignPorts,
        },
        (TrackState::Running { attempt }, TrackEvent::RuntimeFinished { result }) => match result {
            Ok(()) => next is Finished && action == TrackAction::Finish(Ok(())),
            Err(e) => if e is NonPvManagedResourceRuntimeListener && attempt < RESOURCE_START_ATTEMPTS {
                next == TrackState::CleaningUp { attempt } && action is CleanUp
            } else {
                records(next, action, e)
            },
        },
        (TrackState::RecordingFailure { error }, TrackEvent::FailureRecorded { result }) => next is Finished
            && match result {
            Err(e) => action == TrackAction::Finish(Err(e)),
            Ok(()) => action == TrackAction::Finish(Err(error)),
        },
        _ => false,
    }
}

fn record_failure(error: DaemonError) -> (step: (TrackState, TrackAction))
    ensures
        records(step.0, step.1, error),
{
    let message = error.message();
    (TrackState::RecordingFailure { error }, TrackAction::RecordFailure { message })
}

/// What follows `event` in the reconciliation of `resource` `track`.
pub fn track_step(resource: &String, track: &String, state: TrackState, event: TrackEvent) -> (step: (
    TrackState,
    TrackAction,
))
    requires
        track_event_fits(state, event),
        track_state_valid(state),
    ensures
        track_transition(*resource, *track, state, event, step.0, step.1),
        track_state_valid(step.0),
{
    match (state, event) {
        (TrackState::Start, TrackEvent::Began { adapter_found }) => {
            if adapter_found {
                (
                    TrackState::EnsuringArtifact { resource: resource.clone(), track: track.clone() },
                    TrackAction::EnsureArtifact,
                )
            } else {
                (TrackState::CheckingSeededEnv { resource: resource.clone() }, TrackAction::CheckSeededEnv)
            }
        },
        (TrackState::CheckingSeededEnv { resource: r }, TrackEvent::SeededEnvChecked { result }) => match result {
            Err(e) => (TrackState::Finished, TrackAction::Finish(Err(e))),
            Ok(true) => (TrackState::Finished, TrackAction::Finish(Ok(()))),
            Ok(false) => record_failure(DaemonError::UnsupportedManagedResourceRuntime { resource: r }),
        },
        (TrackState::EnsuringArtifact { resource: r, track: t }, TrackEvent::ArtifactEnsured { result }) => match result {
            Err(e) => record_failure(e),
            Ok(false) => record_failure(DaemonError::ManagedResourceArtifactMissing { resource: r, track: t }),
            Ok(true) => (TrackState::AssigningPorts { attempt: 1 }, TrackAction::AssignPorts),
        },
        (TrackState::AssigningPorts { attempt }, TrackEvent::PortsAssigned { result }) => match result {
            Err(e) => record_failure(e),
            Ok(occupied) => {
                if occupied && attempt < RESOURCE_START_ATTEMPTS {
                    (TrackState::CleaningUp { attempt }, TrackAction::CleanUp)
                } else {
                    (TrackState::Running { attempt }, TrackAction::StartRuntime)
                }
            },
        },
        (TrackState::CleaningUp { attempt }, TrackEvent::CleanedUp { result }) => match result {
            Err(e) => record_failure(e),
            Ok(()) => (TrackState::AssigningPorts { attempt: attempt + 1 }, TrackAction::AssignPorts),
        },
        (TrackState::Running { attempt }, TrackEvent::RuntimeFinished { result }) => match result {
            Ok(()) => (TrackState::Finished, TrackAction::Finish(Ok(()))),
            Err(e) => {
                let listener = matches!(e, DaemonError::NonPvManagedResourceRuntimeListener { .. });
                if listener && attempt < RESOURCE_START_ATTEMPTS {
                    (TrackState::CleaningUp { attempt }, TrackAction::CleanUp)
                } else {
                    record_failure(e)
                }
            },
        },
        (TrackState::RecordingFailure { error }, TrackEvent::FailureRecorded { result }) => match result {
            Err(e) => (TrackState::Finished, TrackAction::Finish(Err(e))),
            Ok(()) => (TrackState::Finished, TrackAction::Finish(Err(error))),
        },
        _ => (TrackState::Finished, TrackAction::Finish(Ok(()))),
    }
}

/// How far a track's reconciliation is from its end.
pub open spec fn track_rank(state: TrackState) -> nat {
    match state {
        TrackState::Start => 100,
        TrackState::CheckingSeededEnv { .. } => 90,
        TrackState::EnsuringArtifact { .. } => 90,
        TrackState::AssigningPorts { attempt } => (4 * (RESOURCE_START_ATTEMPTS - attempt) + 5) as nat,
        TrackState::CleaningUp { attempt } => (4 * (RESOURCE_START_ATTEMPTS - attempt) + 3) as nat,
        TrackState::Running { attempt } => (4 * (RESOURCE_START_ATTEMPTS - attempt) + 4) as nat,
        TrackState::RecordingFailure { .. } => 1,
        TrackState::Finished => 0,
    }
}

/// `next` waits for the very work `action` asks for.
pub open spec fn track_awaits(next: TrackState, action: TrackAction) -> bool {
    match (next, action) {
        (TrackState::CheckingSeededEnv { .. }, TrackAction::CheckSeededEnv) => true,
        (TrackState::EnsuringArtifact { .. }, TrackAction::EnsureArtifact) => true,
        (TrackState::AssigningPorts { .. }, TrackAction::AssignPorts) => true,
        (TrackState::CleaningUp { .. }, TrackAction::CleanUp) => true,
        (TrackState::Running { .. }, TrackAction::StartRuntime) => true,
        (TrackState::RecordingFailure { .. }, TrackAction::RecordFailure { .. }) => true,
        (TrackState::Finished, TrackAction::Finish(_)) => true,
        _ => false,
    }
}

/// Every step of a track's reconciliation brings it closer to its end, so it ends: the
/// start is retried at most [`RESOURCE_START_ATTEMPTS`] times, and a failure is recorded
/// once before it is returned.
/// After each step, the state waits for exactly the work the step asks for.
pub proof fn lemma_track_step_progresses(
    resource: String,
    track: String,
    state: TrackState,
    event: TrackEvent,
    next: TrackState,
    action: TrackAction,
)
    requires
        track_event_fits(state, event),
        track_state_valid(state),
        track_transition(resource, track, state, event, next, action),
    ensures
        track_awaits(next, action),
        track_rank(next) < track_rank(state),
        action is Finish <==> next is Finished,
{
}

} // verus!
