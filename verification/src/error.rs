//! The daemon's error type and the text each error renders as.
//!
//! Errors raised by the state store, the filesystem, configuration parsing or the
//! artifact tooling reach the library already rendered: they carry their message.
//! Errors that the library itself composes are structured, and their text is
//! defined here from the text of their parts.
use vstd::prelude::*;
use vstd::string::*;

use crate::text::{concat2, decimal, decimal_string, join_strings, joined, string_views};

verus! {

/// What the state store reported, as far as the daemon's decisions look at it.
#[derive(Debug)]
pub enum StateErrorKind {
    /// A coordination lock file is held by someone else.
    CoordinationLockHeld { path: String },
    /// No linked Project matches the target.
    ProjectNotFound { target: String },
    /// No persisted job has this id.
    JobNotFound { id: String },
    /// A schema migration failed.
    MigrationFailed,
    /// A recorded migration name does not match the expected one.
    MigrationNameMismatch,
    /// Any other state store failure.
    Other,
}

/// A state store error with the text it renders as.
#[derive(Debug)]
pub struct StateError {
    pub kind: StateErrorKind,
    pub message: String,
}

/// A failed Managed Resource track on behalf of a Project.
#[derive(Debug)]
pub struct ManagedResourceProjectFailure {
    pub resource_name: String,
    pub track: String,
    pub error: Box<DaemonError>,
}

/// The errors of the daemon.
#[allow(inconsistent_fields)]
#[derive(Debug)]
pub enum DaemonError {
    /// An I/O failure, with the text of the underlying error.
    Io { message: String },
    /// A state store failure.
    State(StateError),
    /// A Project configuration failure, with the text of the underlying error.
    Config { message: String },
    /// An artifact command failure, with the text of the underlying error.
    ManagedResourceCommand { message: String },
    /// A response or state the daemon did not expect.
    UnexpectedProtocolResponse { reason: String },
    /// The DNS resolver could not bind its port.
    DnsBind { protocol: String, port: u16, message: String },
    /// Startup failed and removing the IPC endpoint failed too.
    StartupCleanupFailed { source: Box<DaemonError>, cleanup: Box<DaemonError> },
    /// A partial Managed Resource update failed and so did the reconciliation after it.
    PartialUpdateReconciliationFailed {
        source: Box<DaemonError>,
        reconciliation: Box<DaemonError>,
    },
    /// A Caddy update failed and rolling it back or recovering the gateway failed too.
    CaddyUpdateCompensationFailed { source: Box<DaemonError>, compensation: Box<DaemonError> },
    /// Several failures of one System reconciliation, in the order they arose.
    SystemReconciliationFailures { failures: Vec<DaemonError> },
    /// Several failed default installs, already rendered, in install order.
    ManagedResourceDefaultInstallFailures { failures: Vec<String> },
    /// A Project failed to reconcile.
    ProjectReconciliation { project_label: String, source: Box<DaemonError> },
    /// A Project's environment depends on resources that are not applied.
    ProjectEnvDependenciesNotApplied { project_id: String, reason: String },
    /// The Project apply failed after the resource repair had failed as well.
    ProjectApplyAfterResourceRepairFailed { source: Box<DaemonError>, repair: Box<DaemonError> },
    /// One Managed Resource track failed for a Project.
    ManagedResourceProjectFailed { failure: ManagedResourceProjectFailure },
    /// Several Managed Resource tracks failed for a Project.
    ManagedResourceProjectFailures { failures: Vec<ManagedResourceProjectFailure> },
    /// A runtime adapter asks for a port under the reserved name.
    ManagedResourcePortNameReserved { resource: String, track: String, port: String },
    /// A runtime adapter needs a port that was not assigned.
    ManagedResourcePortMissing { resource: String, track: String, port: String },
    /// A readiness check did not pass in time.
    ReadinessTimedOut { check: String, timeout_ms: u64, last_error: Option<String> },
    /// A Project demands an allocation of a Managed Resource that is not ready to provide its
    /// environment.
    MissingAllocationEnvContext { resource: String, allocation: String },
    /// Some installed artifacts could not be updated.
    ManagedResourcePartialUpdateFailed { source: Box<DaemonError> },
    /// No runtime adapter is registered for a Managed Resource.
    UnsupportedManagedResourceRuntime { resource: String },
    /// A Managed Resource track that should be installed has no current artifact.
    ManagedResourceArtifactMissing { resource: String, track: String },
    /// A Project's environment failed and recording that failure failed too.
    ProjectEnvFailureRecordingFailed {
        project_id: String,
        reconciliation: Box<DaemonError>,
        recording: Box<DaemonError>,
    },
    /// A Project's resource allocation failed and recording that failure failed too.
    ProjectAllocationFailureRecordingFailed {
        project_id: String,
        allocation: Box<DaemonError>,
        recording: Box<DaemonError>,
    },
    /// A runtime config could not be serialized, with the serializer's text.
    Json { message: String },
    /// A required artifact download is missing from the prefetched downloads.
    MissingArtifactDownload { resource: String, artifact_version: String },
    /// A track still has its artifact while it is meant to be removed.
    ManagedResourceTrackRemoved { resource: String, track: String },
    /// A process that pv did not start listens on a port assigned to a Managed Resource.
    NonPvManagedResourceRuntimeListener { name: String },
    /// Any other failure, with its text.
    Other { message: String },
}

/// The text of a state store error.
pub open spec fn state_error_message(e: StateError) -> Seq<char> {
    e.message@
}

/// The text of a failure list entry for a Managed Resource track.
pub open spec fn project_failure_message(f: ManagedResourceProjectFailure) -> Seq<char>
    decreases f,
{
    f.resource_name@ + " "@ + f.track@ + ": "@ + error_message(*f.error)
}

/// The texts of `failures`, joined by `"; "`.
pub open spec fn project_failures_message(failures: Seq<ManagedResourceProjectFailure>) -> Seq<char>
    decreases failures,
{
    if failures.len() == 0 {
        Seq::empty()
    } else if failures.len() == 1 {
        project_failure_message(failures[0])
    } else {
        project_failures_message(failures.subrange(0, failures.len() - 1)) + "; "@
            + project_failure_message(failures[failures.len() - 1])
    }
}

/// The texts of `failures`, joined by `"; "`.
pub open spec fn errors_message(failures: Seq<DaemonError>) -> Seq<char>
    decreases failures,
{
    if failures.len() == 0 {
        Seq::empty()
    } else if failures.len() == 1 {
        error_message(failures[0])
    } else {
        errors_message(failures.subrange(0, failures.len() - 1)) + "; "@ + error_message(
            failures[failures.len() - 1],
        )
    }
}

/// The text an error renders as.
pub open spec fn error_message(e: DaemonError) -> Seq<char>
    decreases e,
{
    match e {
        DaemonError::Io { message } => "I/O error: "@ + message@,
        DaemonError::State(state) => state_error_message(state),
        DaemonError::Config { message } => "Project config error: "@ + message@,
        DaemonError::ManagedResourceCommand { message } => "Managed Resource command failed: "@
            + message@,
        DaemonError::UnexpectedProtocolResponse { reason } => "daemon protocol error: "@
            + reason@,
        DaemonError::DnsBind { protocol, port, message } => "DNS resolver failed to bind "@
            + protocol@ + " on 127.0.0.1:"@ + decimal(port as nat) + ": "@ + message@,
        DaemonError::StartupCleanupFailed { source, cleanup } => error_message(*source)
            + "; endpoint cleanup failed: "@ + error_message(*cleanup),
        DaemonError::PartialUpdateReconciliationFailed { source, reconciliation } => error_message(
            *source,
        ) + "; reconciliation after the partial update failed: "@ + error_message(
            *reconciliation,
        ),
        DaemonError::CaddyUpdateCompensationFailed { source, compensation } => error_message(
            *source,
        ) + "; Caddy update compensation failed: "@ + error_message(*compensation),
        DaemonError::SystemReconciliationFailures { failures } => "System reconciliation failed: "@
            + errors_message(failures@),
        DaemonError::ManagedResourceDefaultInstallFailures { failures } =>
            "Managed Resource default installs failed: "@ + joined(
            string_views(failures@),
            "; "@,
        ),
        DaemonError::ProjectReconciliation { project_label, source } => project_label@ + ": "@
            + error_message(*source),
        DaemonError::ProjectEnvDependenciesNotApplied { project_id, reason } => "Project `"@
            + project_id@ + "` depends on resources that are not applied: "@ + reason@,
        DaemonError::ProjectApplyAfterResourceRepairFailed { source, repair } => error_message(
            *source,
        ) + "; resource repair failed before it: "@ + error_message(*repair),
        DaemonError::ManagedResourceProjectFailed { failure } => project_failure_message(failure),
        DaemonError::ManagedResourceProjectFailures { failures } =>
            "Managed Resource runtimes failed: "@ + project_failures_message(failures@),
        DaemonError::ManagedResourcePortNameReserved { resource, track, port } => "Managed Resource "@
            + resource@ + " track "@ + track@ + " asks for the reserved port name `"@ + port@ + "`"@,
        DaemonError::ManagedResourcePortMissing { resource, track, port } => "Managed Resource "@
            + resource@ + " track "@ + track@ + " has no `"@ + port@ + "` port assigned"@,
        DaemonError::ReadinessTimedOut { check, timeout_ms, last_error } => "readiness check "@
            + check@ + " timed out after "@ + decimal(timeout_ms as nat) + "ms"@ + match last_error {
            Some(last) => "; last error: "@ + last@,
            None => Seq::empty(),
        },
        DaemonError::MissingAllocationEnvContext { resource, allocation } =>
            "Project config error: Managed Resource `"@ + resource@ + "` allocation `"@ + allocation@
            + "` has no env context"@,
        DaemonError::ManagedResourcePartialUpdateFailed { source } =>
            "Managed Resource update partially failed: "@ + error_message(*source),
        DaemonError::UnsupportedManagedResourceRuntime { resource } => "Managed Resource `"@
            + resource@ + "` has no runtime adapter"@,
        DaemonError::ManagedResourceArtifactMissing { resource, track } => "Managed Resource "@
            + resource@ + " track "@ + track@ + " has no installed artifact"@,
        DaemonError::ProjectEnvFailureRecordingFailed { project_id, reconciliation, recording } =>
            error_message(*reconciliation) + "; recording the failure of Project `"@ + project_id@
            + "` failed: "@ + error_message(*recording),
        DaemonError::ProjectAllocationFailureRecordingFailed { project_id, allocation, recording } =>
            error_message(*allocation) + "; recording the allocation failure of Project `"@ + project_id@
            + "` failed: "@ + error_message(*recording),
        DaemonError::Json { message } => "JSON error: "@ + message@,
        DaemonError::MissingArtifactDownload { resource, artifact_version } =>
            "Managed Resource command failed: missing artifact download for "@ + resource@ + " "@
            + artifact_version@,
        DaemonError::ManagedResourceTrackRemoved { resource, track } => "Managed Resource "@
            + resource@ + " track "@ + track@ + " is being removed"@,
        DaemonError::NonPvManagedResourceRuntimeListener { name } => "a process not started by pv listens on the "@
            + name@ + " port"@,
        DaemonError::Other { message } => message@,
    }
}

/// Renders the list of a failure aggregate.
fn errors_text(failures: &Vec<DaemonError>) -> (s: String)
    ensures
        s@ == errors_message(failures@),
    decreases failures,
{
    let mut s = String::new();
    let mut i: usize = 0;
    while i < failures.len()
        invariant
            i <= failures.len(),
            s@ == errors_message(failures@.subrange(0, i as int)),
        decreases failures.len() - i,
    {
        proof {
            let next = failures@.subrange(0, i + 1);
            assert(next.subrange(0, next.len() - 1) =~= failures@.subrange(0, i as int));
            assert(next[next.len() - 1] == failures@[i as int]);
            assert(decreases_to!(failures => failures@));
            assert(decreases_to!(failures@ => failures@[i as int]));
        }
        if i > 0 {
            s.append("; ");
        }
        let text = failures[i].message();
        s.append(text.as_str());
        proof {
            if i == 0 {
                assert(s@ =~= errors_message(failures@.subrange(0, 1)));
            }
        }
        i = i + 1;
    }
    proof {
        assert(failures@.subrange(0, failures.len() as int) =~= failures@);
    }
    s
}

impl ManagedResourceProjectFailure {
    /// Records that `error` stopped `resource_name` `track` for a Project.
    pub fn new(resource_name: String, track: String, error: DaemonError) -> (f: Self)
        ensures
            f.resource_name == resource_name,
            f.track == track,
            *f.error == error,
    {
        ManagedResourceProjectFailure { resource_name, track, error: Box::new(error) }
    }

    /// The error reported when this failure stands alone.
    pub fn into_error(self) -> (e: DaemonError)
        ensures
            e == (DaemonError::ManagedResourceProjectFailed { failure: self }),
    {
        DaemonError::ManagedResourceProjectFailed { failure: self }
    }

    /// The text of this failure.
    pub fn message(&self) -> (m: String)
        ensures
            m@ == project_failure_message(*self),
        decreases self,
    {
        let mut s = concat2(self.resource_name.as_str(), " ");
        s.append(self.track.as_str());
        s.append(": ");
        proof {
            assert(decreases_to!(*self => self.error));
        }
        let text = self.error.message();
        s.append(text.as_str());
        s
    }
}

fn project_failures_text(failures: &Vec<ManagedResourceProjectFailure>) -> (s: String)
    ensures
        s@ == project_failures_message(failures@),
    decreases failures,
{
    let mut s = String::new();
    let mut i: usize = 0;
    while i < failures.len()
        invariant
            i <= failures.len(),
            s@ == project_failures_message(failures@.subrange(0, i as int)),
        decreases failures.len() - i,
    {
        proof {
            let next = failures@.subrange(0, i + 1);
            assert(next.subrange(0, next.len() - 1) =~= failures@.subrange(0, i as int));
            assert(next[next.len() - 1] == failures@[i as int]);
            assert(decreases_to!(failures => failures@));
            assert(decreases_to!(failures@ => failures@[i as int]));
        }
        if i > 0 {
            s.append("; ");
        }
        let m = failures[i].message();
        s.append(m.as_str());
        proof {
            if i == 0 {
                assert(s@ =~= project_failures_message(failures@.subrange(0, 1)));
            }
        }
        i = i + 1;
    }
    proof {
        assert(failures@.subrange(0, failures.len() as int) =~= failures@);
    }
    s
}

impl DaemonError {
    /// The text this error renders as.
    pub fn message(&self) -> (m: String)
        ensures
            m@ == error_message(*self),
        decreases self,
    {
        match self {
            DaemonError::Io { message } => concat2("I/O error: ", message.as_str()),
            DaemonError::State(state) => state.message.clone(),
            DaemonError::Config { message } => concat2("Project config error: ", message.as_str()),
            DaemonError::ManagedResourceCommand { message } => concat2(
                "Managed Resource command failed: ",
                message.as_str(),
            ),
            DaemonError::UnexpectedProtocolResponse { reason } => concat2(
                "daemon protocol error: ",
                reason.as_str(),
            ),
            DaemonError::DnsBind { protocol, port, message } => {
                let mut s = concat2("DNS resolver failed to bind ", protocol.as_str());
                s.append(" on 127.0.0.1:");
                let p = decimal_string(*port as u64);
                s.append(p.as_str());
                s.append(": ");
                s.append(message.as_str());
                s
            },
            DaemonError::StartupCleanupFailed { source, cleanup } => {
                let mut s = String::new();
                let text = source.message();
                s.append(text.as_str());
                s.append("; endpoint cleanup failed: ");
                let text = cleanup.message();
                s.append(text.as_str());
                s
            },
            DaemonError::PartialUpdateReconciliationFailed { source, reconciliation } => {
                let mut s = String::new();
                let text = source.message();
                s.append(text.as_str());
                s.append("; reconciliation after the partial update failed: ");
                let text = reconciliation.message();
                s.append(text.as_str());
                s
            },
            DaemonError::CaddyUpdateCompensationFailed { source, compensation } => {
                let mut s = String::new();
                let text = source.message();
                s.append(text.as_str());
                s.append("; Caddy update compensation failed: ");
                let text = compensation.message();
                s.append(text.as_str());
                s
            },
            DaemonError::SystemReconciliationFailures { failures } => {
                let mut s = String::from_str("System reconciliation failed: ");
                let rest = errors_text(failures);
                s.append(rest.as_str());
                s
            },
            DaemonError::ManagedResourceDefaultInstallFailures { failures } => {
                let mut s = String::from_str("Managed Resource default installs failed: ");
                let rest = join_strings(failures, "; ");
                s.append(rest.as_str());
                s
            },
            DaemonError::ProjectReconciliation { project_label, source } => {
                let mut s = concat2(project_label.as_str(), ": ");
                let text = source.message();
                s.append(text.as_str());
                s
            },
            DaemonError::ProjectEnvDependenciesNotApplied { project_id, reason } => {
                let mut s = concat2("Project `", project_id.as_str());
                s.append("` depends on resources that are not applied: ");
                s.append(reason.as_str());
                s
            },
            DaemonError::ProjectApplyAfterResourceRepairFailed { source, repair } => {
                let mut s = String::new();
                let text = source.message();
                s.append(text.as_str());
                s.append("; resource repair failed before it: ");
                let text = repair.message();
                s.append(text.as_str());
                s
            },
            DaemonError::ManagedResourceProjectFailed { failure } => failure.message(),
            DaemonError::ManagedResourceProjectFailures { failures } => {
                let mut s = String::from_str("Managed Resource runtimes failed: ");
                let rest = project_failures_text(failures);
                s.append(rest.as_str());
                s
            },
            DaemonError::ManagedResourcePortNameReserved { resource, track, port } => {
                let mut s = concat2("Managed Resource ", resource.as_str());
                s.append(" track ");
                s.append(track.as_str());
                s.append(" asks for the reserved port name `");
                s.append(port.as_str());
                s.append("`");
                s
            },
            DaemonError::ManagedResourcePortMissing { resource, track, port } => {
                let mut s = concat2("Managed Resource ", resource.as_str());
                s.append(" track ");
                s.append(track.as_str());
                s.append(" has no `");
                s.append(port.as_str());
                s.append("` port assigned");
                s
            },
            DaemonError::ReadinessTimedOut { check, timeout_ms, last_error } => {
                let mut s = concat2("readiness check ", check.as_str());
                s.append(" timed out after ");
                let t = decimal_string(*timeout_ms);
                s.append(t.as_str());
                s.append("ms");
                match last_error {
                    Some(last) => {
                        s.append("; last error: ");
                        s.append(last.as_str());
                    },
                    None => {},
                }
                s
            },
            DaemonError::MissingAllocationEnvContext { resource, allocation } => {
                let mut s = concat2("Project config error: Managed Resource `", resource.as_str());
                s.append("` allocation `");
                s.append(allocation.as_str());
                s.append("` has no env context");
                s
            },
            DaemonError::ManagedResourcePartialUpdateFailed { source } => {
                let mut s = String::from_str("Managed Resource update partially failed: ");
                let text = source.message();
                s.append(text.as_str());
                s
            },
            DaemonError::UnsupportedManagedResourceRuntime { resource } => {
                let mut s = concat2("Managed Resource `", resource.as_str());
                s.append("` has no runtime adapter");
                s
            },
            DaemonError::ManagedResourceArtifactMissing { resource, track } => {
                let mut s = concat2("Managed Resource ", resource.as_str());
                s.append(" track ");
                s.append(track.as_str());
                s.append(" has no installed artifact");
                s
            },
            DaemonError::ProjectEnvFailureRecordingFailed { project_id, reconciliation, recording } => {
                let mut s = reconciliation.message();
                s.append("; recording the failure of Project `");
                s.append(project_id.as_str());
                s.append("` failed: ");
                let text = recording.message();
                s.append(text.as_str());
                s
            },
            DaemonError::ProjectAllocationFailureRecordingFailed { project_id, allocation, recording } => {
                let mut s = allocation.message();
                s.append("; recording the allocation failure of Project `");
                s.append(project_id.as_str());
                s.append("` failed: ");
                let text = recording.message();
                s.append(text.as_str());
                s
            },
            DaemonError::Json { message } => concat2("JSON error: ", message.as_str()),
            DaemonError::MissingArtifactDownload { resource, artifact_version } => {
                let mut s = concat2("Managed Resource command failed: missing artifact download for ", resource.as_str());
                s.append(" ");
                s.append(artifact_version.as_str());
                s
            },
            DaemonError::ManagedResourceTrackRemoved { resource, track } => {
                let mut s = concat2("Managed Resource ", resource.as_str());
                s.append(" track ");
                s.append(track.as_str());
                s.append(" is being removed");
                s
            },
            DaemonError::NonPvManagedResourceRuntimeListener { name } => {
                let mut s = concat2("a process not started by pv listens on the ", name.as_str());
                s.append(" port");
                s
            },
            DaemonError::Other { message } => message.clone(),
        }
    }

}

} // verus!
