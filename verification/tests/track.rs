use daemon::error::DaemonError;
use daemon::track::{track_step, TrackAction, TrackEvent, TrackState, RESOURCE_START_ATTEMPTS};

fn step(state: TrackState, event: TrackEvent) -> (TrackState, TrackAction) {
    track_step(&"mysql".to_string(), &"8.4".to_string(), state, event)
}

#[test]
fn seeded_adapterless_track_needs_nothing() {
    let (state, action) = step(TrackState::Start, TrackEvent::Began { adapter_found: false });
    assert!(matches!(action, TrackAction::CheckSeededEnv));
    let (state, action) = step(state, TrackEvent::SeededEnvChecked { result: Ok(true) });
    assert!(matches!(state, TrackState::Finished));
    assert!(matches!(action, TrackAction::Finish(Ok(()))));
}

#[test]
fn unseeded_adapterless_track_fails_after_recording() {
    let (state, _) = step(TrackState::Start, TrackEvent::Began { adapter_found: false });
    let (state, action) = step(state, TrackEvent::SeededEnvChecked { result: Ok(false) });
    match action {
        TrackAction::RecordFailure { message } => assert_eq!(message, "Managed Resource `mysql` has no runtime adapter"),
        _ => panic!("expected the failure to be recorded"),
    }
    let (state, action) = step(state, TrackEvent::FailureRecorded { result: Ok(()) });
    assert!(matches!(state, TrackState::Finished));
    assert!(matches!(action, TrackAction::Finish(Err(DaemonError::UnsupportedManagedResourceRuntime { resource })) if resource == "mysql"));
}

#[test]
fn failing_to_record_returns_the_recording_error() {
    let (state, _) = step(
        TrackState::EnsuringArtifact { resource: "mysql".to_string(), track: "8.4".to_string() },
        TrackEvent::ArtifactEnsured { result: Ok(false) },
    );
    let (_, action) = step(state, TrackEvent::FailureRecorded { result: Err(DaemonError::Io { message: "disk".to_string() }) });
    assert!(matches!(action, TrackAction::Finish(Err(DaemonError::Io { message })) if message == "disk"));
}

#[test]
fn occupied_ports_are_retried_until_the_last_attempt() {
    let (mut state, action) = step(TrackState::Start, TrackEvent::Began { adapter_found: true });
    assert!(matches!(action, TrackAction::EnsureArtifact));
    let (next, action) = step(state, TrackEvent::ArtifactEnsured { result: Ok(true) });
    assert!(matches!(action, TrackAction::AssignPorts));
    state = next;
    let mut cleanups = 0;
    loop {
        let (next, action) = step(state, TrackEvent::PortsAssigned { result: Ok(true) });
        match action {
            TrackAction::CleanUp => {
                cleanups += 1;
                let (after, again) = step(next, TrackEvent::CleanedUp { result: Ok(()) });
                assert!(matches!(again, TrackAction::AssignPorts));
                state = after;
            }
            TrackAction::StartRuntime => {
                assert!(matches!(next, TrackState::Running { attempt } if attempt == RESOURCE_START_ATTEMPTS));
                break;
            }
            _ => panic!("unexpected action"),
        }
    }
    assert_eq!(cleanups, RESOURCE_START_ATTEMPTS - 1);
}

#[test]
fn foreign_listener_is_retried_and_other_failures_are_recorded() {
    let (state, action) = step(
        TrackState::Running { attempt: 3 },
        TrackEvent::RuntimeFinished {
            result: Err(DaemonError::NonPvManagedResourceRuntimeListener { name: "mysql-8.4".to_string() }),
        },
    );
    assert!(matches!(action, TrackAction::CleanUp));
    assert!(matches!(state, TrackState::CleaningUp { attempt: 3 }));

    let (state, action) = step(
        TrackState::Running { attempt: RESOURCE_START_ATTEMPTS },
        TrackEvent::RuntimeFinished {
            result: Err(DaemonError::NonPvManagedResourceRuntimeListener { name: "mysql-8.4".to_string() }),
        },
    );
    assert!(matches!(state, TrackState::RecordingFailure { .. }));
    assert!(matches!(action, TrackAction::RecordFailure { message } if message == "a process not started by pv listens on the mysql-8.4 port"));

    let (state, action) = step(TrackState::Running { attempt: 1 }, TrackEvent::RuntimeFinished { result: Ok(()) });
    assert!(matches!(state, TrackState::Finished));
    assert!(matches!(action, TrackAction::Finish(Ok(()))));
}

#[test]
fn port_assignment_failure_is_recorded() {
    let (_, action) = step(
        TrackState::AssigningPorts { attempt: 1 },
        TrackEvent::PortsAssigned { result: Err(DaemonError::Other { message: "no free port".to_string() }) },
    );
    assert!(matches!(action, TrackAction::RecordFailure { message } if message == "no free port"));
}
