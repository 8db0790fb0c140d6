use daemon::error::{DaemonError, StateError, StateErrorKind};
use daemon::jobs::{
    cancel_or_preserve_system_reconciliation_errors, combined_system_reconciliation_error,
    foreground_reconciliation_result, BackgroundReconciliationError,
    ForegroundReconciliationCompletion, ReconciliationJobCompletion, ReconciliationOutcome,
    SystemProjectReconciliationReport,
};
use daemon::project::DiagnosticSubject;
use daemon::startup::startup_error_after_endpoint_cleanup;

fn io(message: &str) -> DaemonError {
    DaemonError::Io {
        message: message.to_string(),
    }
}

fn protocol(reason: &str) -> DaemonError {
    DaemonError::UnexpectedProtocolResponse {
        reason: reason.to_string(),
    }
}

#[test]
fn foreground_reconciliation_result_takes_precedence_over_accepted_write_error() {
    let result = foreground_reconciliation_result(
        Err(io("accepted write failed")),
        Err(DaemonError::State(StateError {
            kind: StateErrorKind::JobNotFound {
                id: "reconcile_1".to_string(),
            },
            message: "job `reconcile_1` was not found".to_string(),
        })),
    );

    assert!(matches!(
        result,
        Err(DaemonError::State(StateError { kind: StateErrorKind::JobNotFound { id }, .. }))
            if id == "reconcile_1"
    ));
}

#[test]
fn foreground_reconciliation_returns_accepted_write_error_after_successful_reconciliation() {
    let result = foreground_reconciliation_result(Err(io("accepted write failed")), Ok(()));

    assert!(matches!(
        result,
        Err(DaemonError::Io { message }) if message == "accepted write failed"
    ));
}

#[test]
fn foreground_reconciliation_result_is_ok_when_both_succeed() {
    assert!(foreground_reconciliation_result(Ok(()), Ok(())).is_ok());
}

#[test]
fn system_project_failures_outrank_gateway_cancellation() {
    let mut report = SystemProjectReconciliationReport::empty();
    report.failures.push(protocol("project sentinel"));
    let result = cancel_or_preserve_system_reconciliation_errors::<DiagnosticSubject>(
        Ok(()),
        Ok(report),
        Ok(()),
    );
    let error = match result {
        Err(error) => error,
        Ok(_) => panic!("cancellation replaced the Project failure"),
    };
    assert_eq!(error.message(), "daemon protocol error: project sentinel");
}

#[test]
fn cancellation_without_failures_is_cancelled() {
    let result = cancel_or_preserve_system_reconciliation_errors::<DiagnosticSubject>(
        Ok(()),
        Ok(SystemProjectReconciliationReport::empty()),
        Ok(()),
    );
    assert!(matches!(result, Ok(ReconciliationOutcome::Cancelled)));
}

#[test]
fn several_cancellation_failures_are_reported_in_order() {
    let mut report = SystemProjectReconciliationReport::empty();
    report.failures.push(protocol("project"));
    let result = cancel_or_preserve_system_reconciliation_errors::<DiagnosticSubject>(
        Err(io("resources")),
        Ok(report),
        Err(io("cleanup")),
    );
    let error = match result {
        Err(error) => error,
        Ok(_) => panic!("expected failures"),
    };
    assert_eq!(
        error.message(),
        "System reconciliation failed: I/O error: resources; daemon protocol error: project; I/O error: cleanup"
    );
}

#[test]
fn single_system_failure_is_reported_as_itself() {
    let error = combined_system_reconciliation_error(vec![io("alone")]);
    assert!(matches!(error, DaemonError::Io { message } if message == "alone"));
}

#[test]
fn recording_failure_replaces_job_failure() {
    let completion = ReconciliationJobCompletion::Failed {
        error: Box::new(io("job failed")),
        recording_error: Some(Box::new(io("recording failed"))),
    };
    assert!(!completion.is_succeeded());
    let result = completion.into_result();
    assert!(matches!(result, Err(DaemonError::Io { message }) if message == "recording failed"));
}

#[test]
fn succeeded_job_reports_its_summary() {
    let completion = ReconciliationJobCompletion::Succeeded("done".to_string());
    assert!(completion.is_succeeded());
    assert_eq!(completion.into_result().ok(), Some("done".to_string()));
}

#[test]
fn cancelled_foreground_job_is_a_protocol_error() {
    let result = ForegroundReconciliationCompletion::Cancelled.into_result();
    let error = result.err().expect("cancelled job reports an error");
    assert_eq!(
        error.message(),
        "daemon protocol error: foreground reconciliation was cancelled without a shutdown signal"
    );
}

#[test]
fn background_execution_error_reports_the_job_error() {
    let error = BackgroundReconciliationError::Execution {
        job_id: "reconcile_7".to_string(),
        error: Box::new(io("background task failed")),
        recording_error: None,
    }
    .into_error();
    assert_eq!(error.message(), "I/O error: background task failed");
}

#[test]
fn startup_cleanup_failure_keeps_startup_error_primary() {
    let startup_error = DaemonError::DnsBind {
        protocol: "UDP".to_string(),
        port: 5353,
        message: "dns port is busy".to_string(),
    };
    let cleanup_error = io("socket cleanup failed");

    let error = startup_error_after_endpoint_cleanup(startup_error, Err(cleanup_error));
    let message = error.message();

    assert!(matches!(
        &error,
        DaemonError::StartupCleanupFailed { source, .. }
            if matches!(
                **source,
                DaemonError::DnsBind { ref protocol, port: 5353, .. } if protocol == "UDP"
            )
    ));
    assert!(
        message.starts_with("DNS resolver failed to bind UDP on 127.0.0.1:5353"),
        "{message}"
    );
    assert!(message.contains("socket cleanup failed"), "{message}");
}

#[test]
fn successful_cleanup_keeps_startup_error_unchanged() {
    let error = startup_error_after_endpoint_cleanup(io("startup failed"), Ok(()));
    assert!(matches!(error, DaemonError::Io { message } if message == "startup failed"));
}
