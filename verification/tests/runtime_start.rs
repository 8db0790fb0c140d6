use daemon::error::DaemonError;
use daemon::start::{
    async_readiness_on_probe, async_readiness_on_remaining, start_step, started_wait_step,
    AsyncReadinessAction, ProbeOutcome, StartAction, StartEvent, StartState, StartedWait,
};
use daemon::timing::Span;

fn other(message: &str) -> DaemonError {
    DaemonError::Other { message: message.to_string() }
}

#[test]
fn adopted_runtime_is_only_waited_for() {
    let (state, action) = start_step("mysql-8.4", StartState::Start, StartEvent::Adopted { result: Ok(true) });
    assert!(matches!(action, StartAction::WaitForAdopted));
    let (state, action) = start_step("mysql-8.4", state, StartEvent::AdoptedReady { result: Ok(()) });
    assert!(matches!(state, StartState::Finished));
    assert!(matches!(action, StartAction::Finish(Ok(()))));
}

#[test]
fn a_foreign_listener_is_refused() {
    let (state, _) = start_step("mysql-8.4", StartState::Start, StartEvent::Adopted { result: Ok(false) });
    let (state, action) = start_step("mysql-8.4", state, StartEvent::RecordedChecked { result: Ok(false) });
    assert!(matches!(action, StartAction::ProbeListener));
    let (_, action) = start_step("mysql-8.4", state, StartEvent::ListenerProbed { answered: true });
    assert!(matches!(
        action,
        StartAction::Finish(Err(DaemonError::NonPvManagedResourceRuntimeListener { name })) if name == "mysql-8.4"
    ));
}

#[test]
fn a_recorded_runtime_is_stopped_before_starting() {
    let (state, _) = start_step("r", StartState::Start, StartEvent::Adopted { result: Ok(false) });
    let (state, action) = start_step("r", state, StartEvent::RecordedChecked { result: Ok(true) });
    assert!(matches!(action, StartAction::StopRecorded));
    let (state, action) = start_step("r", state, StartEvent::RecordedStopped { result: Ok(()) });
    assert!(matches!(action, StartAction::StartAndWait));
    let (state, action) = start_step("r", state, StartEvent::StartedReady { result: Ok(()) });
    assert!(matches!(action, StartAction::CheckExit));
    let (_, action) = start_step("r", state, StartEvent::ExitChecked { result: Ok(false) });
    assert!(matches!(action, StartAction::Finish(Ok(()))));
}

#[test]
fn failed_readiness_is_reported_after_cleanup() {
    let (state, action) = start_step("r", StartState::WaitingForStarted, StartEvent::StartedReady { result: Err(other("timeout")) });
    assert!(matches!(action, StartAction::StopAndCleanUp));
    let (_, action) = start_step("r", state, StartEvent::CleanedUp { result: Ok(()) });
    assert!(matches!(action, StartAction::Finish(Err(DaemonError::Other { message })) if message == "timeout"));
}

#[test]
fn exit_after_readiness_fails_the_start() {
    let (state, action) = start_step("mysql-8.4", StartState::CheckingExit, StartEvent::ExitChecked { result: Ok(true) });
    assert!(matches!(action, StartAction::CleanUp));
    let (_, action) = start_step("mysql-8.4", state, StartEvent::CleanedUp { result: Ok(()) });
    match action {
        StartAction::Finish(Err(error)) => assert_eq!(
            error.message(),
            "daemon protocol error: runtime `mysql-8.4` exited before readiness was verified"
        ),
        _ => panic!("expected the exit error"),
    }
}

#[test]
fn started_wait_reports_exits_and_readiness() {
    assert!(matches!(started_wait_step("r", Some(Ok(())), Ok(true)), StartedWait::Done(Ok(()))));
    assert!(matches!(
        started_wait_step("r", Some(Err(other("refused"))), Ok(false)),
        StartedWait::Done(Err(DaemonError::Other { message })) if message == "refused"
    ));
    assert!(matches!(
        started_wait_step("r", Some(Err(other("refused"))), Ok(true)),
        StartedWait::Done(Err(DaemonError::UnexpectedProtocolResponse { .. }))
    ));
    assert!(matches!(started_wait_step("r", None, Ok(false)), StartedWait::KeepWaiting));
    assert!(matches!(
        started_wait_step("r", None, Err(other("ps failed"))),
        StartedWait::Done(Err(DaemonError::Other { message })) if message == "ps failed"
    ));
}

#[test]
fn adapter_readiness_probes_within_the_time_left_and_times_out_with_the_last_failure() {
    let timeout = Span { secs: 15, nanos: 0 };
    assert!(matches!(
        async_readiness_on_remaining("mysql-admin", timeout, Some(Span { secs: 3, nanos: 0 }), None),
        AsyncReadinessAction::Probe { within } if within.secs == 3 && within.nanos == 0
    ));
    match async_readiness_on_remaining("mysql-admin", timeout, None, Some("refused".to_string())) {
        AsyncReadinessAction::Finish(Err(DaemonError::ReadinessTimedOut { check, timeout_ms, last_error })) => {
            assert_eq!(check, "async:mysql-admin");
            assert_eq!(timeout_ms, 15_000);
            assert_eq!(last_error, Some("refused".to_string()));
        }
        _ => panic!("expected a timeout"),
    }
    let (action, last) = async_readiness_on_probe(
        "mysql-admin",
        timeout,
        Span { secs: 0, nanos: 20_000_000 },
        ProbeOutcome::Failed { message: "refused".to_string() },
    );
    assert!(matches!(action, AsyncReadinessAction::Pause { duration } if duration.secs == 0 && duration.nanos == 20_000_000));
    assert_eq!(last, Some("refused".to_string()));
    let (action, _) = async_readiness_on_probe(
        "mysql-admin",
        timeout,
        Span { secs: 2, nanos: 0 },
        ProbeOutcome::Failed { message: "refused".to_string() },
    );
    assert!(matches!(action, AsyncReadinessAction::Pause { duration } if duration.secs == 0 && duration.nanos == 50_000_000));
    let (action, _) = async_readiness_on_probe("mysql-admin", timeout, Span { secs: 2, nanos: 0 }, ProbeOutcome::Passed);
    assert!(matches!(action, AsyncReadinessAction::Finish(Ok(()))));
    let (action, _) = async_readiness_on_probe(
        "mysql-admin",
        timeout,
        Span { secs: 2, nanos: 0 },
        ProbeOutcome::CutOff { message: "deadline has elapsed".to_string() },
    );
    assert!(matches!(
        action,
        AsyncReadinessAction::Finish(Err(DaemonError::ReadinessTimedOut { last_error: Some(text), .. })) if text == "deadline has elapsed"
    ));
}
