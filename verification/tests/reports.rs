use daemon::error::{DaemonError, ManagedResourceProjectFailure, StateError, StateErrorKind};
use daemon::jobs::{ReconciliationJobCompletion, SystemProjectReconciliationReport};
use daemon::order::str_lt;
use daemon::demand::SystemProjectDemandReport;
use daemon::phases::{finish_demand_discovery_phase, finish_project_phase, PhaseOutcome};
use daemon::scope::{gateway_runtime_resource, reconciliation_started_message, ReconciliationScope};
use daemon::startup::startup_failure_kind;
use daemon::stream::{
    pending_phases, phase_progress_events, reconciliation_started_events, stream_ending, update_started_events,
    JobStreamEvent, ReconciliationPhase, StreamEnding,
};
use daemon::summary::{
    managed_resource_reconciliation_summary, system_project_summary, system_reconciliation_summary,
    CADDY_NOT_INSTALLED,
};
use daemon::text::{decimal_string, join_strings, str_equal};

fn other(message: &str) -> DaemonError {
    DaemonError::Other { message: message.to_string() }
}

fn report(total: usize, succeeded: usize, summaries: &[&str], failures: Vec<DaemonError>) -> SystemProjectReconciliationReport {
    let mut report = SystemProjectReconciliationReport::empty();
    report.total = total;
    report.succeeded = succeeded;
    report.summaries = summaries.iter().map(|s| s.to_string()).collect();
    report.failures = failures;
    report
}

#[test]
fn project_summary_counts_failures_and_successes() {
    assert!(system_project_summary(&report(0, 0, &[], Vec::new())).is_none());
    let failed = report(
        1,
        0,
        &[],
        vec![DaemonError::ProjectReconciliation {
            project_label: "project.test".to_string(),
            source: Box::new(DaemonError::Config {
                message: "malformed PV-managed .env block: start marker without end marker".to_string(),
            }),
        }],
    );
    assert_eq!(
        system_project_summary(&failed).unwrap(),
        "Project env reconciled for 0 of 1 Projects; failures: project.test: Project config error: malformed PV-managed .env block: start marker without end marker"
    );
    assert_eq!(system_project_summary(&report(1, 1, &["applied blog"], Vec::new())).unwrap(), "applied blog");
    assert_eq!(
        system_project_summary(&report(3, 3, &["a", "b", "c"], Vec::new())).unwrap(),
        "Project env reconciled for 3 Projects"
    );
}

#[test]
fn system_summary_adds_the_gateway_unless_caddy_is_missing() {
    let projects = report(2, 2, &["a", "b"], Vec::new());
    assert_eq!(
        system_reconciliation_summary(&projects, "gateway reconciled"),
        "Project env reconciled for 2 Projects; gateway reconciled"
    );
    assert_eq!(system_reconciliation_summary(&projects, CADDY_NOT_INSTALLED), "Project env reconciled for 2 Projects");
    assert_eq!(system_reconciliation_summary(&report(0, 0, &[], Vec::new()), "gateway reconciled"), "gateway reconciled");
    assert_eq!(
        managed_resource_reconciliation_summary("mysql", "8.4", &report(1, 1, &["applied blog"], Vec::new())),
        "Managed Resource mysql track 8.4 reconciled; applied blog"
    );
    assert_eq!(
        managed_resource_reconciliation_summary("mysql", "8.4", &report(0, 0, &[], Vec::new())),
        "Managed Resource mysql track 8.4 reconciled"
    );
}

#[test]
fn started_messages_depend_on_the_effective_scope() {
    assert_eq!(reconciliation_started_message(&ReconciliationScope::System), "System reconciliation started");
    assert_eq!(
        reconciliation_started_message(&ReconciliationScope::Project { id: "p".to_string() }),
        "Project env reconciliation started"
    );
    assert_eq!(
        reconciliation_started_message(&ReconciliationScope::Resource { name: "frankenphp".to_string(), track: "8.4".to_string() }),
        "Gateway runtime reconciliation started"
    );
    assert_eq!(
        reconciliation_started_message(&ReconciliationScope::Resource { name: "mysql".to_string(), track: "8.4".to_string() }),
        "Managed Resource runtime reconciliation started"
    );
    assert!(gateway_runtime_resource("caddy") && gateway_runtime_resource("php") && !gateway_runtime_resource("redis"));
    assert_eq!(ReconciliationScope::Resource { name: "mysql".to_string(), track: "8.4".to_string() }.text(), "resource:mysql:8.4");
    assert_eq!(ReconciliationScope::Project { id: "abc".to_string() }.text(), "project:abc");
}

#[test]
fn streams_open_with_the_job_and_its_scope() {
    let events = reconciliation_started_events("system".to_string(), &ReconciliationScope::System);
    assert!(matches!(&events[0], JobStreamEvent::JobStarted { kind, scope } if kind == "reconcile" && scope == "system"));
    assert!(matches!(&events[1], JobStreamEvent::Log { message } if message == "System reconciliation started"));
    let events = update_started_events();
    assert!(matches!(&events[0], JobStreamEvent::JobStarted { kind, scope } if kind == "update" && scope == "system"));
    assert!(matches!(&events[1], JobStreamEvent::Log { message } if message == "Managed Resource update started"));
}

#[test]
fn pending_phases_are_reported_once_each_in_order() {
    let phases = vec![ReconciliationPhase::Queue, ReconciliationPhase::Resources, ReconciliationPhase::Gateway];
    let (pending, next) = pending_phases(&phases, 1);
    assert_eq!(pending.len(), 2);
    assert_eq!(next, 3);
    let events = phase_progress_events(&pending);
    let names: Vec<String> = events
        .iter()
        .map(|e| match e {
            JobStreamEvent::Progress { message } => message.clone(),
            _ => String::new(),
        })
        .collect();
    assert_eq!(names, vec!["resources", "gateway"]);
    let (pending, next) = pending_phases(&phases, 5);
    assert!(pending.is_empty());
    assert_eq!(next, 5);
    assert_eq!(ReconciliationPhase::DemandDiscovery.as_str(), "demand_discovery");
    assert_eq!(ReconciliationPhase::ProjectApply.as_str(), "project_apply");
}

#[test]
fn stream_endings_follow_the_stream_and_the_job() {
    assert!(matches!(
        stream_ending(true, Ok(()), ReconciliationJobCompletion::Cancelled, true),
        StreamEnding::Cancelled
    ));
    assert!(matches!(
        stream_ending(true, Err(other("write")), ReconciliationJobCompletion::Succeeded("done".to_string()), true),
        StreamEnding::Finalized(Err(DaemonError::Other { message })) if message == "write"
    ));
    assert!(matches!(
        stream_ending(true, Ok(()), ReconciliationJobCompletion::Succeeded("done".to_string()), true),
        StreamEnding::WriteTerminal(JobStreamEvent::JobCompleted { summary }) if summary == "done"
    ));
    assert!(matches!(
        stream_ending(false, Ok(()), ReconciliationJobCompletion::Succeeded("done".to_string()), true),
        StreamEnding::Finalized(Ok(()))
    ));
    assert!(matches!(
        stream_ending(
            true,
            Ok(()),
            ReconciliationJobCompletion::Failed { error: Box::new(other("job")), recording_error: None },
            true
        ),
        StreamEnding::WriteTerminal(JobStreamEvent::JobFailed { error }) if error == "job"
    ));
}

#[test]
fn phase_records_carry_the_pass_counts() {
    let record = finish_project_phase(&Ok(report(3, 2, &["a", "b"], vec![other("x")])));
    assert!(matches!(record.outcome, PhaseOutcome::Failed));
    assert_eq!((record.project_count, record.succeeded_count, record.failed_count), (3, 2, 1));
    let record = finish_project_phase(&Err(other("x")));
    assert_eq!((record.project_count, record.succeeded_count, record.failed_count), (0, 0, 0));
    let record = finish_demand_discovery_phase(&Ok(SystemProjectDemandReport { project_count: 4, fallback_count: 1, resource_tracks: Vec::new() }));
    assert!(matches!(record.outcome, PhaseOutcome::Fallback));
    assert_eq!((record.project_count, record.fallback_count), (4, 1));
    let record = finish_demand_discovery_phase(&Ok(SystemProjectDemandReport { project_count: 4, fallback_count: 0, resource_tracks: Vec::new() }));
    assert!(matches!(record.outcome, PhaseOutcome::Succeeded));
}

#[test]
fn errors_render_their_parts() {
    assert_eq!(DaemonError::Io { message: "denied".to_string() }.message(), "I/O error: denied");
    assert_eq!(
        DaemonError::DnsBind { protocol: "udp".to_string(), port: 5353, message: "in use".to_string() }.message(),
        "DNS resolver failed to bind udp on 127.0.0.1:5353: in use"
    );
    assert_eq!(
        DaemonError::SystemReconciliationFailures { failures: vec![other("a"), other("b")] }.message(),
        "System reconciliation failed: a; b"
    );
    assert_eq!(
        DaemonError::ManagedResourceDefaultInstallFailures { failures: vec!["x: 1".to_string(), "y: 2".to_string()] }.message(),
        "Managed Resource default installs failed: x: 1; y: 2"
    );
    assert_eq!(
        DaemonError::ReadinessTimedOut { check: "tcp:127.0.0.1:3306".to_string(), timeout_ms: 15000, last_error: None }.message(),
        "readiness check tcp:127.0.0.1:3306 timed out after 15000ms"
    );
    assert_eq!(
        DaemonError::ManagedResourceProjectFailures {
            failures: vec![
                ManagedResourceProjectFailure::new("mysql".to_string(), "8.4".to_string(), other("a")),
                ManagedResourceProjectFailure::new("redis".to_string(), "7".to_string(), other("b")),
            ],
        }
        .message(),
        "Managed Resource runtimes failed: mysql 8.4: a; redis 7: b"
    );
    assert_eq!(
        DaemonError::ManagedResourcePortMissing { resource: "mysql".to_string(), track: "8.4".to_string(), port: "mysql".to_string() }.message(),
        "Managed Resource mysql track 8.4 has no `mysql` port assigned"
    );
    assert_eq!(DaemonError::Json { message: "eof".to_string() }.message(), "JSON error: eof");
}

#[test]
fn startup_failures_are_classified() {
    let migration = DaemonError::State(StateError { kind: StateErrorKind::MigrationFailed, message: "m".to_string() });
    assert_eq!(startup_failure_kind(&migration), "migration_failed");
    let wrapped = DaemonError::StartupCleanupFailed { source: Box::new(migration), cleanup: Box::new(other("c")) };
    assert_eq!(startup_failure_kind(&wrapped), "migration_failed");
    assert_eq!(startup_failure_kind(&other("x")), "startup_failed");
}

#[test]
fn text_helpers_render_and_compare() {
    assert_eq!(decimal_string(0), "0");
    assert_eq!(decimal_string(18446744073709551615), "18446744073709551615");
    assert_eq!(join_strings(&vec!["a".to_string(), "b".to_string()], ", "), "a, b");
    assert_eq!(join_strings(&Vec::new(), ", "), "");
    assert!(str_equal("same", "same") && !str_equal("same", "sam"));
    assert!(str_lt("abc", "abd") && str_lt("ab", "abc") && !str_lt("abc", "abc") && str_lt("Z", "a"));
}
