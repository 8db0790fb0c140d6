//! How a failed daemon startup is reported.
use vstd::prelude::*;

use crate::error::{DaemonError, StateErrorKind};

verus! {

/// The error of a failed startup after the IPC endpoint was cleaned up: the startup error
/// stays primary, and a cleanup failure is attached to it.
pub fn startup_error_after_endpoint_cleanup(
    startup_error: DaemonError,
    cleanup_result: Result<(), DaemonError>,
) -> (e: DaemonError)
    ensures
        e == match cleanup_result {
            Ok(()) => startup_error,
            Err(cleanup) => DaemonError::StartupCleanupFailed {
                source: Box::new(startup_error),
                cleanup: Box::new(cleanup),
            },
        },
{
    match cleanup_result {
        Ok(()) => startup_error,
        Err(cleanup) => DaemonError::StartupCleanupFailed {
            source: Box::new(startup_error),
            cleanup: Box::new(cleanup),
        },
    }
}

/// The kind recorded in the startup failure marker.
pub open spec fn startup_failure_kind_text(error: DaemonError) -> Seq<char>
    decreases error,
{
    match error {
        DaemonError::StartupCleanupFailed { source, .. } => startup_failure_kind_text(*source),
        DaemonError::State(state) => match state.kind {
            StateErrorKind::MigrationFailed => "migration_failed"@,
            StateErrorKind::MigrationNameMismatch => "migration_failed"@,
            _ => "startup_failed"@,
        },
        _ => "startup_failed"@,
    }
}

/// The kind recorded in the startup failure marker: `migration_failed` when the startup
/// error is a failed or mismatched migration, `startup_failed` otherwise.
pub fn startup_failure_kind(error: &DaemonError) -> (kind: &'static str)
    ensures
        kind@ == startup_failure_kind_text(*error),
    decreases error,
{
    match error {
        DaemonError::StartupCleanupFailed { source, .. } => startup_failure_kind(source),
        DaemonError::State(state) => match state.kind {
            StateErrorKind::MigrationFailed => "migration_failed",
            StateErrorKind::MigrationNameMismatch => "migration_failed",
            _ => "startup_failed",
        },
        _ => "startup_failed",
    }
}

} // verus!
