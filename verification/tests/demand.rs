use daemon::coverage::{complete_gateway_reconciliation, completed_system_reconciliation_coverage};
use daemon::demand::{add_late_demand, projects_without_demand, system_project_demand, ProjectDemand};
use daemon::desired::DemandedResourceTrack;
use daemon::error::DaemonError;
use daemon::jobs::{ReconciliationOutcome, SystemProjectReconciliationReport};
use daemon::project::DiagnosticSubject;

fn track(name: &str, track: &str) -> DemandedResourceTrack {
    DemandedResourceTrack { resource_name: name.to_string(), track: track.to_string() }
}

fn demand(tracks: &[(&str, &str)], persisted: bool) -> ProjectDemand {
    ProjectDemand {
        resource_tracks: tracks.iter().map(|(n, t)| track(n, t)).collect(),
        used_persisted_state: persisted,
    }
}

fn pairs(tracks: &[DemandedResourceTrack]) -> Vec<(String, String)> {
    tracks.iter().map(|t| (t.resource_name.clone(), t.track.clone())).collect()
}

fn owned(pairs: &[(&str, &str)]) -> Vec<(String, String)> {
    pairs.iter().map(|(a, b)| (a.to_string(), b.to_string())).collect()
}

fn ids(values: &[&str]) -> Vec<String> {
    values.iter().map(|v| v.to_string()).collect()
}

fn report(successful: &[&str], failures: Vec<DaemonError>) -> SystemProjectReconciliationReport {
    SystemProjectReconciliationReport {
        total: successful.len() + failures.len(),
        succeeded: successful.len(),
        successful_project_ids: ids(successful),
        summaries: successful.iter().map(|_| "Project env current".to_string()).collect(),
        failures,
    }
}

fn subject_text(subject: &DiagnosticSubject) -> String {
    match subject {
        DiagnosticSubject::SystemReconciliation => "system".to_string(),
        DiagnosticSubject::GatewayRuntime => "gateway".to_string(),
        DiagnosticSubject::UpdateAssessment => "update".to_string(),
        DiagnosticSubject::Project { id } => format!("project:{id}"),
        DiagnosticSubject::Resource { name, track } => format!("resource:{name}:{track}"),
    }
}

#[test]
fn system_demand_unites_tracks_in_order_and_counts_fallbacks() {
    let demands = vec![
        demand(&[("mysql", "8.4"), ("php", "8.3")], false),
        demand(&[("mailpit", "1"), ("mysql", "8.4")], true),
        demand(&[], true),
    ];
    let report = system_project_demand(&demands);
    assert_eq!(report.project_count, 3);
    assert_eq!(report.fallback_count, 2);
    assert_eq!(pairs(&report.resource_tracks), owned(&[("mailpit", "1"), ("mysql", "8.4"), ("php", "8.3")]));
}

#[test]
fn system_demand_of_no_projects_is_empty() {
    let report = system_project_demand(&Vec::new());
    assert_eq!(report.project_count, 0);
    assert_eq!(report.fallback_count, 0);
    assert!(report.resource_tracks.is_empty());
}

#[test]
fn only_projects_without_known_demand_are_discovered_late() {
    let known = ids(&["a", "c"]);
    let linked = ids(&["a", "b", "c", "d"]);
    assert_eq!(projects_without_demand(&known, &linked), ids(&["b", "d"]));
    assert_eq!(projects_without_demand(&Vec::new(), &linked), linked);
    assert!(projects_without_demand(&linked, &linked).is_empty());
}

#[test]
fn late_demand_with_tracks_calls_for_another_resources_pass() {
    let mut tracks = vec![track("mysql", "8.4")];
    let added = add_late_demand(&mut tracks, &vec![demand(&[], false), demand(&[("redis", "7"), ("mysql", "8.4")], false)]);
    assert!(added);
    assert_eq!(pairs(&tracks), owned(&[("mysql", "8.4"), ("redis", "7")]));
}

#[test]
fn late_projects_without_tracks_add_no_resource_demand() {
    let mut tracks = vec![track("mysql", "8.4")];
    assert!(!add_late_demand(&mut tracks, &vec![demand(&[], true)]));
    assert!(!add_late_demand(&mut tracks, &Vec::new()));
    assert_eq!(pairs(&tracks), owned(&[("mysql", "8.4")]));
}

#[test]
fn system_coverage_lists_system_gateway_projects_then_unique_resources() {
    let coverage = completed_system_reconciliation_coverage(
        &report(&["p2", "p1"], Vec::new()),
        &vec![vec![track("php", "8.3"), track("mysql", "8.4")], vec![track("mysql", "8.4"), track("mailpit", "1")]],
    );
    let texts: Vec<String> = coverage.iter().map(subject_text).collect();
    assert_eq!(
        texts,
        vec![
            "system",
            "gateway",
            "project:p2",
            "project:p1",
            "resource:mailpit:1",
            "resource:mysql:8.4",
            "resource:php:8.3",
        ]
    );
}

#[test]
fn system_coverage_without_successful_projects_covers_system_and_gateway() {
    let coverage = completed_system_reconciliation_coverage(&report(&[], Vec::new()), &Vec::new());
    let texts: Vec<String> = coverage.iter().map(subject_text).collect();
    assert_eq!(texts, vec!["system", "gateway"]);
}

#[test]
fn gateway_reconciliation_covers_the_gateway_runtime() {
    match complete_gateway_reconciliation(Ok(ReconciliationOutcome::Completed("Caddy reloaded".to_string()))) {
        Ok(ReconciliationOutcome::Completed(done)) => {
            assert_eq!(done.summary, "Caddy reloaded");
            assert_eq!(done.coverage.len(), 1);
            assert!(matches!(done.coverage[0], DiagnosticSubject::GatewayRuntime));
        }
        _ => panic!("expected a completed gateway reconciliation"),
    }
    assert!(matches!(
        complete_gateway_reconciliation(Ok(ReconciliationOutcome::Cancelled)),
        Ok(ReconciliationOutcome::Cancelled)
    ));
    match complete_gateway_reconciliation(Err(DaemonError::Other { message: "boom".to_string() })) {
        Err(DaemonError::Other { message }) => assert_eq!(message, "boom"),
        _ => panic!("expected the gateway failure"),
    }
}

#[test]
fn system_coverage_excludes_failed_projects_and_their_resources() {
    let failure = DaemonError::ProjectReconciliation {
        project_label: "failed.test".to_string(),
        source: Box::new(DaemonError::Other { message: "failed".to_string() }),
    };
    let report = report(&["successful"], vec![failure]);
    let coverage = completed_system_reconciliation_coverage(&report, &vec![vec![track("redis", "8.0")]]);
    let texts: Vec<String> = coverage.iter().map(subject_text).collect();
    assert_eq!(texts, vec!["system", "gateway", "project:successful", "resource:redis:8.0"]);
}
