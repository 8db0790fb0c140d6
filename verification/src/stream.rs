//! What a foreground job streams to its client, and how the stream ends.
use vstd::prelude::*;
use vstd::string::*;

use crate::error::{error_message, DaemonError};
use crate::jobs::{ForegroundReconciliationCompletion, ReconciliationJobCompletion};
use crate::scope::{reconciliation_started_message, started_message_text, ReconciliationScope};

verus! {

/// The phases a reconciliation or update reports while it runs.
#[derive(Clone, Copy, PartialEq, Eq, Structural)]
pub enum ReconciliationPhase {
    Queue,
    DemandDiscovery,
    Resources,
    ProjectApply,
    Workers,
    Gateway,
    Finalization,
    Manifest,
    Download,
    Install,
}

/// The name a phase is reported under.
pub open spec fn phase_name(phase: ReconciliationPhase) -> Seq<char> {
    match phase {
        ReconciliationPhase::Queue => "queue"@,
        ReconciliationPhase::DemandDiscovery => "demand_discovery"@,
        ReconciliationPhase::Resources => "resources"@,
        ReconciliationPhase::ProjectApply => "project_apply"@,
        ReconciliationPhase::Workers => "workers"@,
        ReconciliationPhase::Gateway => "gateway"@,
        ReconciliationPhase::Finalization => "finalization"@,
        ReconciliationPhase::Manifest => "manifest"@,
        ReconciliationPhase::Download => "download"@,
        ReconciliationPhase::Install => "install"@,
    }
}

impl ReconciliationPhase {
    /// The name the phase is reported under.
    pub fn as_str(&self) -> (name: &'static str)
        ensures
            name@ == phase_name(*self),
    {
        match self {
            ReconciliationPhase::Queue => "queue",
            ReconciliationPhase::DemandDiscovery => "demand_discovery",
            ReconciliationPhase::Resources => "resources",
            ReconciliationPhase::ProjectApply => "project_apply",
            ReconciliationPhase::Workers => "workers",
            ReconciliationPhase::Gateway => "gateway",
            ReconciliationPhase::Finalization => "finalization",
            ReconciliationPhase::Manifest => "manifest",
            ReconciliationPhase::Download => "download",
            ReconciliationPhase::Install => "install",
        }
    }
}

/// An event of a job's stream; the job id is added when it is written.
pub enum JobStreamEvent {
    JobStarted { kind: String, scope: String },
    Log { message: String },
    Progress { message: String },
    JobCompleted { summary: String },
    JobFailed { error: String },
}

/// The phases reported since `next_phase`, and the position after them. A position past the
/// end has nothing pending.
pub fn pending_phases(phases: &Vec<ReconciliationPhase>, next_phase: usize) -> (pending: (Vec<
    ReconciliationPhase,
>, usize))
    ensures
        next_phase <= phases@.len() ==> pending.0@ == phases@.subrange(
            next_phase as int,
            phases@.len() as int,
        ) && pending.1 == phases@.len(),
        next_phase > phases@.len() ==> pending.0@.len() == 0 && pending.1 == next_phase,
{
    let mut pending: Vec<ReconciliationPhase> = Vec::new();
    if next_phase > phases.len() {
        return (pending, next_phase);
    }
    let mut i = next_phase;
    while i < phases.len()
        invariant
            next_phase <= i <= phases@.len(),
            pending@ == phases@.subrange(next_phase as int, i as int),
        decreases phases.len() - i,
    {
        pending.push(phases[i]);
        proof {
            assert(pending@ =~= phases@.subrange(next_phase as int, i + 1));
        }
        i = i + 1;
    }
    (pending, i)
}

/// Progress events that report `phases`, in order.
pub fn phase_progress_events(phases: &Vec<ReconciliationPhase>) -> (events: Vec<JobStreamEvent>)
    ensures
        events@.len() == phases@.len(),
        forall|i: int| 0 <= i < phases@.len() ==> (#[trigger] events@[i] matches JobStreamEvent::Progress { message }
            && message@ == phase_name(phases@[i])),
{
    let mut events: Vec<JobStreamEvent> = Vec::new();
    let mut i: usize = 0;
    while i < phases.len()
        invariant
            i <= phases@.len(),
            events@.len() == i,
            forall|j: int| 0 <= j < i ==> (#[trigger] events@[j] matches JobStreamEvent::Progress { message }
                && message@ == phase_name(phases@[j])),
        decreases phases.len() - i,
    {
        let name = phases[i].as_str();
        events.push(JobStreamEvent::Progress { message: String::from_str(name) });
        i = i + 1;
    }
    events
}

/// The events that open the stream of a reconciliation: the job start with its scope, then
/// the message for its effective scope.
pub fn reconciliation_started_events(scope_text: String, effective_scope: &ReconciliationScope) -> (events:
    Vec<JobStreamEvent>)
    ensures
        events@.len() == 2,
        events@[0] matches JobStreamEvent::JobStarted { kind, scope } && kind@ == "reconcile"@
            && scope == scope_text,
        events@[1] matches JobStreamEvent::Log { message } && message@ == started_message_text(
            *effective_scope,
        ),
{
    let mut events = Vec::new();
    events.push(JobStreamEvent::JobStarted { kind: String::from_str("reconcile"), scope: scope_text });
    let message = reconciliation_started_message(effective_scope);
    events.push(JobStreamEvent::Log { message: String::from_str(message) });
    events
}

/// The events that open the stream of a Managed Resource update.
pub fn update_started_events() -> (events: Vec<JobStreamEvent>)
    ensures
        events@.len() == 2,
        events@[0] matches JobStreamEvent::JobStarted { kind, scope } && kind@ == "update"@
            && scope@ == "system"@,
        events@[1] matches JobStreamEvent::Log { message } && message@
            == "Managed Resource update started"@,
{
    let mut events = Vec::new();
    events.push(
        JobStreamEvent::JobStarted {
            kind: String::from_str("update"),
            scope: String::from_str("system"),
        },
    );
    events.push(JobStreamEvent::Log { message: String::from_str("Managed Resource update started") });
    events
}

/// How a streamed foreground job ends once its work is done.
pub enum StreamEnding {
    /// The job was cancelled by a fallback shutdown.
    Cancelled,
    /// The job is finalized with this result; nothing more is written.
    Finalized(Result<(), DaemonError>),
    /// Write this terminal event; the outcome of writing it is the job's result.
    WriteTerminal(JobStreamEvent),
}

/// Decides how a streamed job ends. A cancelled job ends cancelled. Otherwise a failure to
/// write the opening events is the job's result; a stream that was never open, or closed while
/// the job ran, gets nothing more and the job's own result stands; an open stream gets the
/// job's completion or failure as its last event.
pub fn stream_ending(
    stream_is_open: bool,
    started_stream_result: Result<(), DaemonError>,
    completion: ReconciliationJobCompletion,
    transport_is_open: bool,
) -> (ending: StreamEnding)
    ensures
        completion is Cancelled ==> ending is Cancelled,
        !(completion is Cancelled) ==> match started_stream_result {
            Err(e) => ending == StreamEnding::Finalized(Err(e)),
            Ok(()) => if !stream_is_open || !transport_is_open {
                ending matches StreamEnding::Finalized(r) && match completion {
                    ReconciliationJobCompletion::Succeeded(_) => r is Ok,
                    ReconciliationJobCompletion::Failed { error, recording_error } => r == Err::<(), DaemonError>(
                        match recording_error {
                            Some(recording) => *recording,
                            None => *error,
                        },
                    ),
                    ReconciliationJobCompletion::Cancelled => false,
                }
            } else {
                ending matches StreamEnding::WriteTerminal(event) && match completion {
                    ReconciliationJobCompletion::Succeeded(summary) => event == (JobStreamEvent::JobCompleted { summary }),
                    ReconciliationJobCompletion::Failed { error, recording_error } => event matches JobStreamEvent::JobFailed { error: text }
                        && text@ == error_message(
                        match recording_error {
                            Some(recording) => *recording,
                            None => *error,
                        },
                    ),
                    ReconciliationJobCompletion::Cancelled => false,
                }
            },
        },
{
    if completion.is_succeeded() {
    } else {
        match &completion {
            ReconciliationJobCompletion::Cancelled => {
                return StreamEnding::Cancelled;
            },
            _ => {},
        }
    }
    let result = completion.into_result();
    match started_stream_result {
        Err(e) => return StreamEnding::Finalized(Err(e)),
        Ok(()) => {},
    }
    if !stream_is_open || !transport_is_open {
        return match result {
            Ok(_summary) => StreamEnding::Finalized(Ok(())),
            Err(e) => StreamEnding::Finalized(Err(e)),
        };
    }
    match result {
        Ok(summary) => StreamEnding::WriteTerminal(JobStreamEvent::JobCompleted { summary }),
        Err(e) => {
            let text = e.message();
            StreamEnding::WriteTerminal(JobStreamEvent::JobFailed { error: text })
        },
    }
}

/// The completion of a foreground job from how its stream ended and, for a terminal event,
/// the outcome of writing it.
pub fn foreground_completion(ending: StreamEnding, written: Result<(), DaemonError>) -> (completion:
    ForegroundReconciliationCompletion)
    ensures
        match ending {
            StreamEnding::Cancelled => completion is Cancelled,
            StreamEnding::Finalized(r) => completion == ForegroundReconciliationCompletion::Finalized(r),
            StreamEnding::WriteTerminal(_) => completion == ForegroundReconciliationCompletion::Finalized(written),
        },
{
    match ending {
        StreamEnding::Cancelled => ForegroundReconciliationCompletion::Cancelled,
        StreamEnding::Finalized(r) => ForegroundReconciliationCompletion::Finalized(r),
        StreamEnding::WriteTerminal(_) => ForegroundReconciliationCompletion::Finalized(written),
    }
}

} // verus!
