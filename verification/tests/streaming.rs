use daemon::stream::ReconciliationPhase;
use daemon::streamed::{streamed_output_step, StreamedOutputAction, StreamedOutputEvent, StreamedOutputState};

fn waiting() -> StreamedOutputState {
    StreamedOutputState::Waiting { phases_open: true, events_open: true, next_phase: 0 }
}

fn step(
    state: StreamedOutputState,
    event: StreamedOutputEvent<&'static str>,
) -> (StreamedOutputState, StreamedOutputAction<&'static str>) {
    streamed_output_step(state, event)
}

#[test]
fn new_phases_are_written_in_order_then_the_stream_waits() {
    let phases = vec![ReconciliationPhase::Queue, ReconciliationPhase::Resources];
    let (state, action) = step(waiting(), StreamedOutputEvent::PhasesChanged { phases });
    assert!(matches!(action, StreamedOutputAction::WritePhase { phase: ReconciliationPhase::Queue }));
    let (state, action) = step(state, StreamedOutputEvent::Written { ok: true });
    assert!(matches!(action, StreamedOutputAction::WritePhase { phase: ReconciliationPhase::Resources }));
    let (state, action) = step(state, StreamedOutputEvent::Written { ok: true });
    assert!(matches!(action, StreamedOutputAction::Wait { watch_phases: true, watch_events: true }));
    assert!(matches!(state, StreamedOutputState::Waiting { next_phase: 2, .. }));
    let phases = vec![ReconciliationPhase::Queue, ReconciliationPhase::Resources, ReconciliationPhase::Gateway];
    let (_, action) = step(state, StreamedOutputEvent::PhasesChanged { phases });
    assert!(matches!(action, StreamedOutputAction::WritePhase { phase: ReconciliationPhase::Gateway }));
}

#[test]
fn a_failed_phase_write_stops_phase_reports_but_not_the_stream() {
    let phases = vec![ReconciliationPhase::Queue, ReconciliationPhase::Resources];
    let (state, _) = step(waiting(), StreamedOutputEvent::PhasesChanged { phases });
    let (state, action) = step(state, StreamedOutputEvent::Written { ok: false });
    assert!(matches!(action, StreamedOutputAction::Wait { watch_phases: false, watch_events: true }));
    assert!(matches!(state, StreamedOutputState::Waiting { phases_open: false, next_phase: 2, .. }));
}

#[test]
fn a_failed_heartbeat_closes_the_transport_and_awaits_the_job() {
    let (state, action) = step(waiting(), StreamedOutputEvent::HeartbeatDue);
    assert!(matches!(action, StreamedOutputAction::WriteHeartbeat));
    let (state, action) = step(state, StreamedOutputEvent::Written { ok: false });
    assert!(matches!(action, StreamedOutputAction::AwaitCompletion));
    assert!(matches!(state, StreamedOutputState::Finished));
}

#[test]
fn a_job_event_is_written_and_a_completion_during_it_finishes_with_pending_phases() {
    let (state, action) = step(waiting(), StreamedOutputEvent::JobEvent { event: "download" });
    assert!(matches!(action, StreamedOutputAction::WriteEvent { event: "download" }));
    let (state, action) =
        step(state, StreamedOutputEvent::Completed { phases: vec![ReconciliationPhase::Finalization] });
    assert!(matches!(action, StreamedOutputAction::WritePhase { phase: ReconciliationPhase::Finalization }));
    let (state, action) = step(state, StreamedOutputEvent::Written { ok: false });
    assert!(matches!(action, StreamedOutputAction::Finish));
    assert!(matches!(state, StreamedOutputState::Finished));
}

#[test]
fn completion_without_pending_phases_finishes_with_the_transport_open() {
    let (_, action) = step(waiting(), StreamedOutputEvent::Completed { phases: Vec::new() });
    assert!(matches!(action, StreamedOutputAction::Finish));
    let (state, action) = step(waiting(), StreamedOutputEvent::EventsClosed);
    assert!(matches!(action, StreamedOutputAction::Wait { watch_phases: true, watch_events: false }));
    let (_, action) = step(state, StreamedOutputEvent::PhasesClosed);
    assert!(matches!(action, StreamedOutputAction::Wait { watch_phases: false, watch_events: false }));
}
