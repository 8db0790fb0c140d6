//! The decisions of starting a Managed Resource runtime and waiting for it to be ready.
//!
//! A runtime that is already running as specified is adopted and waited for. A recorded
//! runtime that differs is stopped and its records removed before a new one starts. With no
//! recorded runtime, a network check that already passes means someone else listens on the
//! runtime's port. A started runtime that fails its readiness is stopped and its records
//! removed; one that exits right after it was seen ready fails too. The work happens
//! outside; the step functions here decide what follows each piece of it.
use vstd::prelude::*;
use vstd::string::*;

use crate::error::DaemonError;
use crate::runtime::{exited_before_readiness_reason, runtime_exited_before_readiness_error};
use crate::text::concat2;
use crate::timing::{duration_milliseconds, Span};

verus! {

/// Where a runtime start stands.
pub enum StartState {
    Start,
    /// Waiting for the adopted runtime to be ready.
    WaitingForAdopted,
    /// Waiting for whether a recorded runtime exists.
    CheckingRecorded,
    /// Waiting for the recorded runtime to stop and its pid and metadata to be removed.
    StoppingRecorded,
    /// Waiting for whether the runtime's network check already passes.
    ProbingListener,
    /// Waiting for the started runtime to be ready.
    WaitingForStarted,
    /// Waiting for the failed runtime to stop and its records to be removed.
    CleaningUpFailed { error: DaemonError },
    /// Waiting for whether the runtime exited right after it was seen ready.
    CheckingExit,
    /// Waiting for the records of the exited runtime to be removed.
    CleaningUpExited,
    Finished,
}

/// What the last piece of work returned.
pub enum StartEvent {
    /// Whether a runtime running as specified was adopted.
    Adopted { result: Result<bool, DaemonError> },
    AdoptedReady { result: Result<(), DaemonError> },
    /// Whether a recorded runtime was found.
    RecordedChecked { result: Result<bool, DaemonError> },
    RecordedStopped { result: Result<(), DaemonError> },
    /// Whether the readiness is a network check that already passes.
    ListenerProbed { answered: bool },
    /// The runtime was started and waited for.
    StartedReady { result: Result<(), DaemonError> },
    CleanedUp { result: Result<(), DaemonError> },
    /// Whether the runtime had exited.
    ExitChecked { result: Result<bool, DaemonError> },
}

/// What to do next.
pub enum StartAction {
    /// Wait for the adopted runtime's readiness.
    WaitForAdopted,
    CheckRecorded,
    /// Stop the recorded runtime and remove its pid and metadata.
    StopRecorded,
    /// Probe the network readiness check once, when there is one.
    ProbeListener,
    /// Start the runtime and wait for its readiness.
    StartAndWait,
    /// Stop the runtime and remove its records.
    StopAndCleanUp,
    /// After a short pause, check whether the runtime exited.
    CheckExit,
    /// Remove the runtime's records.
    CleanUp,
    Finish(Result<(), DaemonError>),
}

/// Whether `event` answers the work `state` waits for.
pub open spec fn start_event_fits(state: StartState, event: StartEvent) -> bool {
    match (state, event) {
        (StartState::Start, StartEvent::Adopted { .. }) => true,
        (StartState::WaitingForAdopted, StartEvent::AdoptedReady { .. }) => true,
        (StartState::CheckingRecorded, StartEvent::RecordedChecked { .. }) => true,
        (StartState::StoppingRecorded, StartEvent::RecordedStopped { .. }) => true,
        (StartState::ProbingListener, StartEvent::ListenerProbed { .. }) => true,
        (StartState::WaitingForStarted, StartEvent::StartedReady { .. }) => true,
        (StartState::CleaningUpFailed { .. }, StartEvent::CleanedUp { .. }) => true,
        (StartState::CheckingExit, StartEvent::ExitChecked { .. }) => true,
        (StartState::CleaningUpExited, StartEvent::CleanedUp { .. }) => true,
        _ => false,
    }
}

/// `action` finishes with the error that the runtime `name` exited before readiness.
pub open spec fn finishes_exited(name: Seq<char>, next: StartState, action: StartAction) -> bool {
    &&& next is Finished
    &&& match action {
        StartAction::Finish(Err(DaemonError::UnexpectedProtocolResponse { reason })) => reason@
            == exited_before_readiness_reason(name),
        _ => false,
    }
}

/// The transition from `state` on `event` for the runtime named `name`.
pub open spec fn start_transition(name: Seq<char>, state: StartState, event: StartEvent, next: StartState, action: StartAction) -> bool {
    match (state, event) {
        (StartState::Start, StartEvent::Adopted { result }) => match result {
            Err(e) => next is Finished && action == StartAction::Finish(Err(e)),
            Ok(true) => next is WaitingForAdopted && action is WaitForAdopted,
            Ok(false) => next is CheckingRecorded && action is CheckRecorded,
        },
        (StartState::WaitingForAdopted, StartEvent::AdoptedReady { result }) => next is Finished && action
            == StartAction::Finish(result),
        (StartState::CheckingRecorded, StartEvent::RecordedChecked { result }) => match result {
            Err(e) => next is Finished && action == StartAction::Finish(Err(e)),
            Ok(true) => next is StoppingRecorded && action is StopRecorded,
            Ok(false) => next is ProbingListener && action is ProbeListener,
        },
        (StartState::StoppingRecorded, StartEvent::RecordedStopped { result }) => match result {
            Err(e) => next is Finished && action == StartAction::Finish(Err(e)),
            Ok(()) => next is WaitingForStarted && action is StartAndWait,
        },
        (StartState::ProbingListener, StartEvent::ListenerProbed { answered }) => if answered {
            next is Finished && match action {
                StartAction::Finish(Err(DaemonError::NonPvManagedResourceRuntimeListener { name: n })) => n@ == name,
                _ => false,
            }
        } else {
            next is WaitingForStarted && action is StartAndWait
        },
        (StartState::WaitingForStarted, StartEvent::StartedReady { result }) => match result {
            Err(e) => next == StartState::CleaningUpFailed { error: e } && action is StopAndCleanUp,
            Ok(()) => next is CheckingExit && action is CheckExit,
        },
        (StartState::CleaningUpFailed { error }, StartEvent::CleanedUp { result }) => next is Finished && match result {
            Err(e) => action == StartAction::Finish(Err(e)),
            Ok(()) => action == StartAction::Finish(Err(error)),
        },
        (StartState::CheckingExit, StartEvent::ExitChecked { result }) => match result {
            Err(e) => next is Finished && action == StartAction::Finish(Err(e)),
            Ok(true) => next is CleaningUpExited && action is CleanUp,
            Ok(false) => next is Finished && action == StartAction::Finish(Ok(())),
        },
        (StartState::CleaningUpExited, StartEvent::CleanedUp { result }) => match result {
            Err(e) => next is Finished && action == StartAction::Finish(Err(e)),
            Ok(()) => finishes_exited(name, next, action),
        },
        _ => false,
    }
}

/// What follows `event` in starting the runtime named `name`.
pub fn start_step(name: &str, state: StartState, event: StartEvent) -> (step: (StartState, StartAction))
    requires
        start_event_fits(state, event),
    ensures
        start_transition(name@, state, event, step.0, step.1),
{
    match (state, event) {
        (StartState::Start, StartEvent::Adopted { result }) => match result {
            Err(e) => (StartState::Finished, StartAction::Finish(Err(e))),
            Ok(true) => (StartState::WaitingForAdopted, StartAction::WaitForAdopted),
            Ok(false) => (StartState::CheckingRecorded, StartAction::CheckRecorded),
        },
        (StartState::WaitingForAdopted, StartEvent::AdoptedReady { result }) => (
            StartState::Finished,
            StartAction::Finish(result),
        ),
        (StartState::CheckingRecorded, StartEvent::RecordedChecked { result }) => match result {
            Err(e) => (StartState::Finished, StartAction::Finish(Err(e))),
            Ok(true) => (StartState::StoppingRecorded, StartAction::StopRecorded),
            Ok(false) => (StartState::ProbingListener, StartAction::ProbeListener),
        },
        (StartState::StoppingRecorded, StartEvent::RecordedStopped { result }) => match result {
            Err(e) => (StartState::Finished, StartAction::Finish(Err(e))),
            Ok(()) => (StartState::WaitingForStarted, StartAction::StartAndWait),
        },
        (StartState::ProbingListener, StartEvent::ListenerProbed { answered }) => {
            if answered {
                (
                    StartState::Finished,
                    StartAction::Finish(
                        Err(DaemonError::NonPvManagedResourceRuntimeListener { name: String::from_str(name) }),
                    ),
                )
            } else {
                (StartState::WaitingForStarted, StartAction::StartAndWait)
            }
        },
        (StartState::WaitingForStarted, StartEvent::StartedReady { result }) => match result {
            Err(e) => (StartState::CleaningUpFailed { error: e }, StartAction::StopAndCleanUp),
            Ok(()) => (StartState::CheckingExit, StartAction::CheckExit),
        },
        (StartState::CleaningUpFailed { error }, StartEvent::CleanedUp { result }) => match result {
            Err(e) => (StartState::Finished, StartAction::Finish(Err(e))),
            Ok(()) => (StartState::Finished, StartAction::Finish(Err(error))),
        },
        (StartState::CheckingExit, StartEvent::ExitChecked { result }) => match result {
            Err(e) => (StartState::Finished, StartAction::Finish(Err(e))),
            Ok(true) => (StartState::CleaningUpExited, StartAction::CleanUp),
            Ok(false) => (StartState::Finished, StartAction::Finish(Ok(()))),
        },
        (StartState::CleaningUpExited, StartEvent::CleanedUp { result }) => match result {
            Err(e) => (StartState::Finished, StartAction::Finish(Err(e))),
            Ok(()) => (StartState::Finished, StartAction::Finish(Err(runtime_exited_before_readiness_error(name)))),
        },
        _ => (StartState::Finished, StartAction::Finish(Ok(()))),
    }
}

/// How far a runtime start is from its end.
pub open spec fn start_rank(state: StartState) -> nat {
    match state {
        StartState::Start => 6,
        StartState::CheckingRecorded => 5,
        StartState::StoppingRecorded => 4,
        StartState::ProbingListener => 4,
        StartState::WaitingForStarted => 3,
        StartState::CheckingExit => 2,
        StartState::CleaningUpFailed { .. } => 1,
        StartState::CleaningUpExited => 1,
        StartState::WaitingForAdopted => 1,
        StartState::Finished => 0,
    }
}

/// `next` waits for the very work `action` asks for.
pub open spec fn start_awaits(next: StartState, action: StartAction) -> bool {
    match (next, action) {
        (StartState::WaitingForAdopted, StartAction::WaitForAdopted) => true,
        (StartState::CheckingRecorded, StartAction::CheckRecorded) => true,
        (StartState::StoppingRecorded, StartAction::StopRecorded) => true,
        (StartState::ProbingListener, StartAction::ProbeListener) => true,
        (StartState::WaitingForStarted, StartAction::StartAndWait) => true,
        (StartState::CleaningUpFailed { .. }, StartAction::StopAndCleanUp) => true,
        (StartState::CheckingExit, StartAction::CheckExit) => true,
        (StartState::CleaningUpExited, StartAction::CleanUp) => true,
        (StartState::Finished, StartAction::Finish(_)) => true,
        _ => false,
    }
}

/// A runtime start always ends, and it succeeds only with a runtime that was seen ready:
/// either an adopted one, or a started one that had not exited after it was seen ready.
/// After each step, the state waits for exactly the work the step asks for.
pub proof fn lemma_start_step_progresses(
    name: Seq<char>,
    state: StartState,
    event: StartEvent,
    next: StartState,
    action: StartAction,
)
    requires
        start_event_fits(state, event),
        start_transition(name, state, event, next, action),
    ensures
        start_awaits(next, action),
        start_rank(next) < start_rank(state),
        action is Finish <==> next is Finished,
        action == StartAction::Finish(Ok(())) ==> (state is WaitingForAdopted && event == StartEvent::AdoptedReady {
            result: Ok(()),
        }) || (state is CheckingExit && event == StartEvent::ExitChecked { result: Ok(false) }),
{
}

/// How the wait for a started runtime's readiness ends after an event.
pub enum StartedWait {
    /// Keep waiting.
    KeepWaiting,
    Done(Result<(), DaemonError>),
}

/// The wait for a started runtime's readiness, at the end of the readiness wait or at a
/// periodic exit check: a failed readiness of a runtime that has exited, or an exit seen at
/// a periodic check, ends it with the error that the runtime exited; otherwise the
/// readiness result ends it, and a periodic check of a running runtime keeps waiting. A
/// failure to tell whether the runtime exited ends it with that failure.
pub fn started_wait_step(
    name: &str,
    readiness: Option<Result<(), DaemonError>>,
    exited: Result<bool, DaemonError>,
) -> (wait: StartedWait)
    ensures
        match readiness {
            Some(Ok(())) => wait == StartedWait::Done(Ok(())),
            Some(Err(e)) => match exited {
                Err(x) => wait == StartedWait::Done(Err(x)),
                Ok(true) => wait matches StartedWait::Done(Err(DaemonError::UnexpectedProtocolResponse { reason }))
                    && reason@ == exited_before_readiness_reason(name@),
                Ok(false) => wait == StartedWait::Done(Err(e)),
            },
            None => match exited {
                Err(x) => wait == StartedWait::Done(Err(x)),
                Ok(true) => wait matches StartedWait::Done(Err(DaemonError::UnexpectedProtocolResponse { reason }))
                    && reason@ == exited_before_readiness_reason(name@),
                Ok(false) => wait is KeepWaiting,
            },
        },
{
    match readiness {
        Some(Ok(())) => StartedWait::Done(Ok(())),
        Some(Err(e)) => match exited {
            Err(x) => StartedWait::Done(Err(x)),
            Ok(true) => StartedWait::Done(Err(runtime_exited_before_readiness_error(name))),
            Ok(false) => StartedWait::Done(Err(e)),
        },
        None => match exited {
            Err(x) => StartedWait::Done(Err(x)),
            Ok(true) => StartedWait::Done(Err(runtime_exited_before_readiness_error(name))),
            Ok(false) => StartedWait::KeepWaiting,
        },
    }
}

/// The pause between two probes of an adapter readiness check.
pub open spec fn poll_interval() -> Span {
    Span { secs: 0, nanos: 50_000_000 }
}

/// What an adapter readiness wait does next.
pub enum AsyncReadinessAction {
    /// Run one probe, cut off after this long.
    Probe { within: Span },
    /// Pause this long, then measure the time left.
    Pause { duration: Span },
    Finish(Result<(), DaemonError>),
}

/// How one probe ended.
pub enum ProbeOutcome {
    Passed,
    /// It failed with this text.
    Failed { message: String },
    /// It was cut off; the text says so.
    CutOff { message: String },
}

/// The error of an adapter readiness check named `name` that did not pass within
/// `timeout`, with the last probe failure.
pub open spec fn async_timeout_error(name: Seq<char>, timeout: Span, last_error: Option<String>, e: DaemonError) -> bool {
    match e {
        DaemonError::ReadinessTimedOut { check, timeout_ms, last_error: last } => {
            &&& check@ == "async:"@ + name
            &&& timeout_ms as int == if timeout.total_nanos() / 1_000_000 <= u64::MAX as int {
                timeout.total_nanos() / 1_000_000
            } else {
                u64::MAX as int
            }
            &&& last == last_error
        },
        _ => false,
    }
}

fn async_timeout(name: &str, timeout: Span, last_error: Option<String>) -> (e: DaemonError)
    requires
        timeout.wf(),
    ensures
        async_timeout_error(name@, timeout, last_error, e),
{
    DaemonError::ReadinessTimedOut {
        check: concat2("async:", name),
        timeout_ms: duration_milliseconds(timeout),
        last_error,
    }
}

/// The next step of waiting for an adapter readiness check named `name` within `timeout`,
/// once the time left was measured as `remaining`: with no time left, the wait times out
/// with the last probe failure; otherwise one probe runs within the time left.
pub fn async_readiness_on_remaining(
    name: &str,
    timeout: Span,
    remaining: Option<Span>,
    last_error: Option<String>,
) -> (action: AsyncReadinessAction)
    requires
        timeout.wf(),
    ensures
        match remaining {
            Some(left) => action == AsyncReadinessAction::Probe { within: left },
            None => match action {
                AsyncReadinessAction::Finish(Err(e)) => async_timeout_error(name@, timeout, last_error, e),
                _ => false,
            },
        },
{
    match remaining {
        Some(left) => AsyncReadinessAction::Probe { within: left },
        None => AsyncReadinessAction::Finish(Err(async_timeout(name, timeout, last_error))),
    }
}

/// The next step after a probe that ran with `remaining` left: a passed probe ends the
/// wait; a failed one is kept as the last failure and the wait pauses for the poll interval
/// or what is left, whichever is shorter; a probe that was cut off ends the wait with a
/// timeout whose last failure says so.
pub fn async_readiness_on_probe(
    name: &str,
    timeout: Span,
    remaining: Span,
    outcome: ProbeOutcome,
) -> (step: (AsyncReadinessAction, Option<String>))
    requires
        timeout.wf(),
        remaining.wf(),
    ensures
        match outcome {
            ProbeOutcome::Passed => step.0 == AsyncReadinessAction::Finish(Ok(())),
            ProbeOutcome::Failed { message } => step.1 == Some(message) && step.0 == AsyncReadinessAction::Pause {
                duration: if remaining.total_nanos() < poll_interval().total_nanos() {
                    remaining
                } else {
                    poll_interval()
                },
            },
            ProbeOutcome::CutOff { message } => step.1 == Some(message) && match step.0 {
                AsyncReadinessAction::Finish(Err(e)) => async_timeout_error(name@, timeout, Some(message), e),
                _ => false,
            },
        },
{
    match outcome {
        ProbeOutcome::Passed => (AsyncReadinessAction::Finish(Ok(())), None),
        ProbeOutcome::Failed { message } => {
            let shorter = remaining.secs == 0 && remaining.nanos < 50_000_000;
            let duration = if shorter {
                Span { secs: remaining.secs, nanos: remaining.nanos }
            } else {
                Span { secs: 0, nanos: 50_000_000 }
            };
            (AsyncReadinessAction::Pause { duration }, Some(message))
        },
        ProbeOutcome::CutOff { message } => {
            let last = Some(message.clone());
            (AsyncReadinessAction::Finish(Err(async_timeout(name, timeout, last))), Some(message))
        },
    }
}

} // verus!
