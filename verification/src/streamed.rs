//! How a foreground job's output is streamed while the job runs.
//!
//! While the job runs, the stream waits, in this order of preference, for a change of the
//! reported phases, for the job's completion, for a job event and for the heartbeat. New phases
//! are written as progress events in order; the first failed phase write stops the phase
//! reports, but the stream goes on. A job event or heartbeat is written while the job may
//! complete; if the job completes first, the stream finishes; if the write fails, the
//! transport counts as closed and the job's completion is still awaited. When the job
//! completes, the phases still pending are written, up to the first failed write, and the
//! stream ends with the transport open.
use vstd::prelude::*;

use crate::stream::{pending_phases, ReconciliationPhase};

verus! {

/// Where the streaming of a job's output stands.
pub enum StreamedOutputState {
    /// Waiting for the next source; phase changes and job events are watched while open.
    Waiting { phases_open: bool, events_open: bool, next_phase: usize },
    /// Writing new phases while the job runs; `remaining` follow the one being written.
    WritingPhases {
        phases_open: bool,
        events_open: bool,
        next_phase: usize,
        remaining: Vec<ReconciliationPhase>,
    },
    /// Writing a job event or a heartbeat while the job may complete.
    Writing { phases_open: bool, events_open: bool, next_phase: usize },
    /// The job completed; writing the phases still pending, `remaining` after this one.
    FinishingPhases { remaining: Vec<ReconciliationPhase> },
    /// The stream has ended.
    Finished,
}

/// What happened since the last action.
pub enum StreamedOutputEvent<E> {
    /// The reported phases changed; `phases` are all phases reported so far.
    PhasesChanged { phases: Vec<ReconciliationPhase> },
    /// No more phases will be reported.
    PhasesClosed,
    /// The job completed; `phases` are all phases reported by then.
    Completed { phases: Vec<ReconciliationPhase> },
    /// A job event arrived.
    JobEvent { event: E },
    /// No more job events will arrive.
    EventsClosed,
    /// The heartbeat is due.
    HeartbeatDue,
    /// The write asked for ended, before the job completed; whether it succeeded in time.
    Written { ok: bool },
}

/// What to do next.
pub enum StreamedOutputAction<E> {
    /// Wait for the next source: the phases when `watch_phases`, the completion, a job event
    /// when `watch_events`, then the heartbeat.
    Wait { watch_phases: bool, watch_events: bool },
    /// Write this phase as a progress event.
    WritePhase { phase: ReconciliationPhase },
    /// Write this job event while the job may complete.
    WriteEvent { event: E },
    /// Write a heartbeat while the job may complete.
    WriteHeartbeat,
    /// The transport is closed: await the job's completion and end with the transport closed.
    AwaitCompletion,
    /// End with the transport open.
    Finish,
}

/// The phases reported after position `next_phase`.
pub open spec fn pending_of(phases: Seq<ReconciliationPhase>, next_phase: usize) -> Seq<ReconciliationPhase> {
    if next_phase <= phases.len() {
        phases.subrange(next_phase as int, phases.len() as int)
    } else {
        Seq::empty()
    }
}

/// The position after the phases reported so far.
pub open spec fn position_after(phases: Seq<ReconciliationPhase>, next_phase: usize) -> int {
    if next_phase <= phases.len() {
        phases.len() as int
    } else {
        next_phase as int
    }
}

/// Whether `event` can follow the action that left `state`.
pub open spec fn streamed_event_fits<E>(state: StreamedOutputState, event: StreamedOutputEvent<E>) -> bool {
    match state {
        StreamedOutputState::Waiting { phases_open, events_open, .. } => match event {
            StreamedOutputEvent::PhasesChanged { .. } => phases_open,
            StreamedOutputEvent::PhasesClosed => phases_open,
            StreamedOutputEvent::JobEvent { .. } => events_open,
            StreamedOutputEvent::EventsClosed => events_open,
            StreamedOutputEvent::Written { .. } => false,
            _ => true,
        },
        StreamedOutputState::WritingPhases { .. } => event is Written,
        StreamedOutputState::Writing { .. } => event is Written || event is Completed,
        StreamedOutputState::FinishingPhases { .. } => event is Written,
        StreamedOutputState::Finished => false,
    }
}

/// `next` and `action` go on waiting with these sources open.
pub open spec fn waits<E>(
    next: StreamedOutputState,
    action: StreamedOutputAction<E>,
    phases_open: bool,
    events_open: bool,
    next_phase: int,
) -> bool {
    &&& next matches StreamedOutputState::Waiting { phases_open: p, events_open: e, next_phase: n }
    &&& p == phases_open && e == events_open && n == next_phase
    &&& action == StreamedOutputAction::<E>::Wait { watch_phases: phases_open, watch_events: events_open }
}

/// `next` and `action` write `pending` while the job runs, or go on waiting when it is empty.
pub open spec fn writes_new_phases<E>(
    pending: Seq<ReconciliationPhase>,
    next: StreamedOutputState,
    action: StreamedOutputAction<E>,
    phases_open: bool,
    events_open: bool,
    next_phase: int,
) -> bool {
    if pending.len() == 0 {
        waits(next, action, phases_open, events_open, next_phase)
    } else {
        &&& next matches StreamedOutputState::WritingPhases {
            phases_open: p,
            events_open: e,
            next_phase: n,
            remaining,
        }
        &&& p == phases_open && e == events_open && n == next_phase
        &&& remaining@ == pending.drop_first()
        &&& action == StreamedOutputAction::<E>::WritePhase { phase: pending[0] }
    }
}

/// `next` and `action` write the phases `pending` at the end, or end when there are none.
pub open spec fn finishes_with_phases<E>(
    pending: Seq<ReconciliationPhase>,
    next: StreamedOutputState,
    action: StreamedOutputAction<E>,
) -> bool {
    if pending.len() == 0 {
        next is Finished && action is Finish
    } else {
        &&& next matches StreamedOutputState::FinishingPhases { remaining }
        &&& remaining@ == pending.drop_first()
        &&& action == StreamedOutputAction::<E>::WritePhase { phase: pending[0] }
    }
}

/// The steps of streaming a job's output.
pub open spec fn streamed_transition<E>(
    state: StreamedOutputState,
    event: StreamedOutputEvent<E>,
    next: StreamedOutputState,
    action: StreamedOutputAction<E>,
) -> bool {
    match (state, event) {
        (
            StreamedOutputState::Waiting { phases_open, events_open, next_phase },
            StreamedOutputEvent::PhasesChanged { phases },
        ) => writes_new_phases(
            pending_of(phases@, next_phase),
            next,
            action,
            phases_open,
            events_open,
            position_after(phases@, next_phase),
        ),
        (StreamedOutputState::Waiting { events_open, next_phase, .. }, StreamedOutputEvent::PhasesClosed) => waits(
            next,
            action,
            false,
            events_open,
            next_phase as int,
        ),
        (StreamedOutputState::Waiting { next_phase, .. }, StreamedOutputEvent::Completed { phases }) =>
            finishes_with_phases(pending_of(phases@, next_phase), next, action),
        (
            StreamedOutputState::Writing { next_phase, .. },
            StreamedOutputEvent::Completed { phases },
        ) => finishes_with_phases(pending_of(phases@, next_phase), next, action),
        (
            StreamedOutputState::Waiting { phases_open, events_open, next_phase },
            StreamedOutputEvent::JobEvent { event: e },
        ) => next == (StreamedOutputState::Writing { phases_open, events_open, next_phase })
            && action == StreamedOutputAction::<E>::WriteEvent { event: e },
        (StreamedOutputState::Waiting { phases_open, next_phase, .. }, StreamedOutputEvent::EventsClosed) => waits(
            next,
            action,
            phases_open,
            false,
            next_phase as int,
        ),
        (
            StreamedOutputState::Waiting { phases_open, events_open, next_phase },
            StreamedOutputEvent::HeartbeatDue,
        ) => next == (StreamedOutputState::Writing { phases_open, events_open, next_phase })
            && action is WriteHeartbeat,
        (
            StreamedOutputState::WritingPhases { phases_open, events_open, next_phase, remaining },
            StreamedOutputEvent::Written { ok },
        ) => if !ok {
            waits(next, action, false, events_open, next_phase as int)
        } else {
            writes_new_phases(remaining@, next, action, phases_open, events_open, next_phase as int)
        },
        (
            StreamedOutputState::Writing { phases_open, events_open, next_phase },
            StreamedOutputEvent::Written { ok },
        ) => if ok {
            waits(next, action, phases_open, events_open, next_phase as int)
        } else {
            next is Finished && action is AwaitCompletion
        },
        (StreamedOutputState::FinishingPhases { remaining }, StreamedOutputEvent::Written { ok }) => if ok {
            finishes_with_phases(remaining@, next, action)
        } else {
            next is Finished && action is Finish
        },
        _ => false,
    }
}

fn split_first(pending: Vec<ReconciliationPhase>) -> (r: Option<(ReconciliationPhase, Vec<ReconciliationPhase>)>)
    ensures
        pending@.len() == 0 ==> r is None,
        pending@.len() > 0 ==> (r matches Some((phase, rest)) && phase == pending@[0] && rest@
            == pending@.drop_first()),
{
    if pending.len() == 0 {
        None
    } else {
        let mut rest = pending;
        let phase = rest.remove(0);
        proof {
            assert(rest@ =~= pending@.drop_first());
        }
        Some((phase, rest))
    }
}

fn write_new_phases<E>(
    pending: Vec<ReconciliationPhase>,
    phases_open: bool,
    events_open: bool,
    next_phase: usize,
) -> (step: (StreamedOutputState, StreamedOutputAction<E>))
    ensures
        writes_new_phases(pending@, step.0, step.1, phases_open, events_open, next_phase as int),
{
    match split_first(pending) {
        None => (
            StreamedOutputState::Waiting { phases_open, events_open, next_phase },
            StreamedOutputAction::Wait { watch_phases: phases_open, watch_events: events_open },
        ),
        Some((phase, remaining)) => (
            StreamedOutputState::WritingPhases { phases_open, events_open, next_phase, remaining },
            StreamedOutputAction::WritePhase { phase },
        ),
    }
}

fn finish_with_phases<E>(pending: Vec<ReconciliationPhase>) -> (step: (StreamedOutputState, StreamedOutputAction<E>))
    ensures
        finishes_with_phases(pending@, step.0, step.1),
{
    match split_first(pending) {
        None => (StreamedOutputState::Finished, StreamedOutputAction::Finish),
        Some((phase, remaining)) => (
            StreamedOutputState::FinishingPhases { remaining },
            StreamedOutputAction::WritePhase { phase },
        ),
    }
}

/// The next step of streaming a job's output, after `event`.
pub fn streamed_output_step<E>(state: StreamedOutputState, event: StreamedOutputEvent<E>) -> (step: (
    StreamedOutputState,
    StreamedOutputAction<E>,
))
    requires
        streamed_event_fits(state, event),
    ensures
        streamed_transition(state, event, step.0, step.1),
{
    match (state, event) {
        (
            StreamedOutputState::Waiting { phases_open, events_open, next_phase },
            StreamedOutputEvent::PhasesChanged { phases },
        ) => {
            let (pending, after) = pending_phases(&phases, next_phase);
            write_new_phases(pending, phases_open, events_open, after)
        },
        (StreamedOutputState::Waiting { events_open, next_phase, .. }, StreamedOutputEvent::PhasesClosed) => (
            StreamedOutputState::Waiting { phases_open: false, events_open, next_phase },
            StreamedOutputAction::Wait { watch_phases: false, watch_events: events_open },
        ),
        (StreamedOutputState::Waiting { next_phase, .. }, StreamedOutputEvent::Completed { phases }) => {
            let (pending, _after) = pending_phases(&phases, next_phase);
            finish_with_phases(pending)
        },
        (StreamedOutputState::Writing { next_phase, .. }, StreamedOutputEvent::Completed { phases }) => {
            let (pending, _after) = pending_phases(&phases, next_phase);
            finish_with_phases(pending)
        },
        (
            StreamedOutputState::Waiting { phases_open, events_open, next_phase },
            StreamedOutputEvent::JobEvent { event },
        ) => (
            StreamedOutputState::Writing { phases_open, events_open, next_phase },
            StreamedOutputAction::WriteEvent { event },
        ),
        (StreamedOutputState::Waiting { phases_open, next_phase, .. }, StreamedOutputEvent::EventsClosed) => (
            StreamedOutputState::Waiting { phases_open, events_open: false, next_phase },
            StreamedOutputAction::Wait { watch_phases: phases_open, watch_events: false },
        ),
        (
            StreamedOutputState::Waiting { phases_open, events_open, next_phase },
            StreamedOutputEvent::HeartbeatDue,
        ) => (
            StreamedOutputState::Writing { phases_open, events_open, next_phase },
            StreamedOutputAction::WriteHeartbeat,
        ),
        (
            StreamedOutputState::WritingPhases { phases_open, events_open, next_phase, remaining },
            StreamedOutputEvent::Written { ok },
        ) => {
            if !ok {
                (
                    StreamedOutputState::Waiting { phases_open: false, events_open, next_phase },
                    StreamedOutputAction::Wait { watch_phases: false, watch_events: events_open },
                )
            } else {
                write_new_phases(remaining, phases_open, events_open, next_phase)
            }
        },
        (
            StreamedOutputState::Writing { phases_open, events_open, next_phase },
            StreamedOutputEvent::Written { ok },
        ) => {
            if ok {
                (
                    StreamedOutputState::Waiting { phases_open, events_open, next_phase },
                    StreamedOutputAction::Wait { watch_phases: phases_open, watch_events: events_open },
                )
            } else {
                (StreamedOutputState::Finished, StreamedOutputAction::AwaitCompletion)
            }
        },
        (StreamedOutputState::FinishingPhases { remaining }, StreamedOutputEvent::Written { ok }) => {
            if ok {
                finish_with_phases(remaining)
            } else {
                (StreamedOutputState::Finished, StreamedOutputAction::Finish)
            }
        },
        _ => {
            proof {
                assert(false);
            }
            (StreamedOutputState::Finished, StreamedOutputAction::Finish)
        },
    }
}

/// The stream ends only once the job has completed or is awaited: it ends with the transport
/// closed exactly after a failed job event or heartbeat write, and a failed phase write stops
/// the phase reports without ending the stream or closing the transport.
pub proof fn lemma_streamed_output_ends_after_completion<E>(
    state: StreamedOutputState,
    event: StreamedOutputEvent<E>,
    next: StreamedOutputState,
    action: StreamedOutputAction<E>,
)
    requires
        streamed_event_fits(state, event),
        streamed_transition(state, event, next, action),
    ensures
        action is AwaitCompletion <==> (state is Writing && event == StreamedOutputEvent::<E>::Written {
            ok: false,
        }),
        action is Finish ==> event is Completed || state is FinishingPhases,
        (action is Finish || action is AwaitCompletion) <==> next is Finished,
        (state is WritingPhases && event == StreamedOutputEvent::<E>::Written { ok: false }) ==> (
        next matches StreamedOutputState::Waiting { phases_open, .. } && !phases_open),
{
}

} // verus!
