use daemon::error::DaemonError;
use daemon::finalize::{
    finalization_of, reconciliation_recording_step, update_recording_completion, JobFinalization, JobRecording,
    RecordingStep,
};
use daemon::jobs::{
    CompletedReconciliationJob, ReconciliationJobCompletion, ReconciliationOutcome, SystemProjectReconciliationReport,
};
use daemon::project::{project_env_step, DiagnosticSubject, ProjectEnvAction, ProjectEnvEvent, ProjectEnvState, ProjectResourceInstall};
use daemon::demand::SystemProjectDemandReport;
use daemon::phases::PhaseOutcome;
use daemon::stream::ReconciliationPhase;
use daemon::system::{
    system_phase_record, system_phase_started, system_step, FailureSubject, SystemAction, SystemEvent, SystemPhaseRecord,
    SystemState,
};
use daemon::update::{update_step, ManagedResourceUpdateReport, UpdateAction, UpdateEvent, UpdateState};

fn other(message: &str) -> DaemonError {
    DaemonError::Other { message: message.to_string() }
}

fn one_project_report() -> SystemProjectReconciliationReport {
    let mut report = SystemProjectReconciliationReport::empty();
    report.total = 1;
    report.succeeded = 1;
    report.successful_project_ids = vec!["p1".to_string()];
    report.summaries = vec!["applied blog".to_string()];
    report
}

fn demand(project_count: usize, fallback_count: usize) -> SystemProjectDemandReport {
    SystemProjectDemandReport { project_count, fallback_count, resource_tracks: Vec::new() }
}

fn phase_text(phase: ReconciliationPhase) -> &'static str {
    phase.as_str()
}

fn record_text(record: &SystemPhaseRecord) -> String {
    let outcome = |o: &PhaseOutcome| match o {
        PhaseOutcome::Succeeded => "succeeded",
        PhaseOutcome::Failed => "failed",
        PhaseOutcome::Skipped => "skipped",
        PhaseOutcome::Fallback => "fallback",
    };
    match record {
        SystemPhaseRecord::DemandDiscovery(r) => {
            format!("demand_discovery {} {} {}", outcome(&r.outcome), r.project_count, r.fallback_count)
        }
        SystemPhaseRecord::Resources(o) => format!("resources {}", outcome(o)),
        SystemPhaseRecord::ProjectApply(r) => {
            format!("project_apply {} {} {} {}", outcome(&r.outcome), r.project_count, r.succeeded_count, r.failed_count)
        }
    }
}

#[test]
fn failed_resources_passes_are_recorded_as_failed_phases() {
    let mut started: Vec<&'static str> = Vec::new();
    let mut records: Vec<String> = Vec::new();
    let events: Vec<SystemEvent<u8>> = vec![
        SystemEvent::DemandDiscovered { result: Ok(demand(1, 0)), shutdown: false },
        SystemEvent::ResourcesReconciled { result: Err(other("manifest")), shutdown: false, shutdown_pending: false },
        SystemEvent::ResourcesRetried { result: Err(other("manifest")), shutdown: false },
        SystemEvent::LateDemandDiscovered { result: Ok(false), shutdown: false },
        SystemEvent::ProjectsListed { result: Ok(()), shutdown: false },
        SystemEvent::ProjectsApplied { result: Ok(one_project_report()), shutdown: false },
    ];
    let (mut state, action) = system_step::<u8>(SystemState::Start, SystemEvent::Began { shutdown: false });
    if let Some(phase) = system_phase_started(&action) {
        started.push(phase_text(phase));
    }
    for event in events {
        if let Some(record) = system_phase_record(&event) {
            records.push(record_text(&record));
        }
        let (next, action) = system_step(state, event);
        state = next;
        if let Some(phase) = system_phase_started(&action) {
            started.push(phase_text(phase));
        }
    }
    assert_eq!(started, vec!["demand_discovery", "resources", "resources", "project_apply"]);
    assert_eq!(
        records,
        vec![
            "demand_discovery succeeded 1 0",
            "resources failed",
            "resources failed",
            "project_apply succeeded 1 1 0",
        ]
    );
}

#[test]
fn a_clean_system_pass_walks_every_phase_and_completes() {
    let (s, a) = system_step::<u8>(SystemState::Start, SystemEvent::Began { shutdown: false });
    assert!(matches!(a, SystemAction::DiscoverDemand));
    let (s, a) = system_step::<u8>(s, SystemEvent::DemandDiscovered { result: Ok(demand(2, 0)), shutdown: false });
    assert!(matches!(a, SystemAction::ReconcileResources));
    let (s, a) = system_step::<u8>(s, SystemEvent::ResourcesReconciled { result: Ok(()), shutdown: false, shutdown_pending: false });
    assert!(matches!(a, SystemAction::DiscoverLateDemand));
    let (s, a) = system_step::<u8>(s, SystemEvent::LateDemandDiscovered { result: Ok(false), shutdown: false });
    assert!(matches!(a, SystemAction::ListProjects));
    let (s, a) = system_step::<u8>(s, SystemEvent::ProjectsListed { result: Ok(()), shutdown: false });
    assert!(matches!(a, SystemAction::ApplyProjects));
    let (s, a) = system_step::<u8>(s, SystemEvent::ProjectsApplied { result: Ok(one_project_report()), shutdown: false });
    assert!(matches!(a, SystemAction::StopUndemandedRuntimes));
    let (s, a) = system_step::<u8>(s, SystemEvent::RuntimesStopped { result: Ok(()), shutdown: false });
    assert!(matches!(a, SystemAction::CheckShutdown));
    let (s, a) = system_step::<u8>(s, SystemEvent::ShutdownChecked { shutdown: false });
    assert!(matches!(a, SystemAction::ReconcileGateway));
    let (s, a) = system_step::<u8>(
        s,
        SystemEvent::GatewayReconciled { result: Ok(ReconciliationOutcome::Completed("gateway reconciled".to_string())) },
    );
    assert!(matches!(a, SystemAction::ComputeCoverage { .. }));
    let (s, a) = system_step::<u8>(s, SystemEvent::CoverageComputed { result: Ok(vec![7]) });
    assert!(matches!(s, SystemState::Finished));
    match a {
        SystemAction::Finish { result: Ok(ReconciliationOutcome::Completed(job)), subject } => {
            assert_eq!(job.summary, "applied blog; gateway reconciled");
            assert_eq!(job.coverage, vec![7]);
            assert!(matches!(subject, Some(FailureSubject::SystemReconciliation)));
        }
        _ => panic!("expected a completed pass"),
    }
}

#[test]
fn failed_resources_are_retried_once_and_reverified() {
    let (s, a) = system_step::<u8>(
        SystemState::ReconcilingResources,
        SystemEvent::ResourcesReconciled { result: Err(other("resources")), shutdown: false, shutdown_pending: false },
    );
    assert!(matches!(a, SystemAction::RetryResources));
    let (s, _) = system_step::<u8>(s, SystemEvent::ResourcesRetried { result: Err(other("still")), shutdown: false });
    let (s, _) = system_step::<u8>(s, SystemEvent::LateDemandDiscovered { result: Ok(false), shutdown: false });
    let (s, _) = system_step::<u8>(s, SystemEvent::ProjectsListed { result: Ok(()), shutdown: false });
    let (s, _) = system_step::<u8>(s, SystemEvent::ProjectsApplied { result: Ok(one_project_report()), shutdown: false });
    let (s, a) = system_step::<u8>(s, SystemEvent::RuntimesStopped { result: Ok(()), shutdown: false });
    assert!(matches!(a, SystemAction::VerifyResources));
    let (s, a) = system_step::<u8>(s, SystemEvent::ResourcesVerified { result: Err(other("verify")), shutdown: false });
    assert!(matches!(a, SystemAction::ReconcileGateway));
    let (_, a) = system_step::<u8>(
        s,
        SystemEvent::GatewayReconciled { result: Ok(ReconciliationOutcome::Completed("g".to_string())) },
    );
    match a {
        SystemAction::Finish { result: Err(DaemonError::Other { message }), subject } => {
            assert_eq!(message, "verify");
            assert!(matches!(subject, Some(FailureSubject::SystemReconciliation)));
        }
        _ => panic!("expected the verification failure"),
    }
}

#[test]
fn a_shutdown_cancels_a_pass_without_failures() {
    let (_, a) = system_step::<u8>(SystemState::Start, SystemEvent::Began { shutdown: true });
    assert!(matches!(a, SystemAction::Finish { result: Ok(ReconciliationOutcome::Cancelled), subject: None }));
    let (_, a) = system_step::<u8>(
        SystemState::ApplyingProjects { resources: Err(other("r")) },
        SystemEvent::ProjectsApplied { result: Ok(one_project_report()), shutdown: true },
    );
    assert!(matches!(a, SystemAction::Finish { result: Err(DaemonError::Other { .. }), subject: None }));
}

#[test]
fn an_update_without_changes_completes_at_once() {
    let (s, a) = update_step::<u8>(UpdateState::Start, UpdateEvent::Began { shutdown: false });
    assert!(matches!(a, UpdateAction::UpdateInstalled));
    let report = ManagedResourceUpdateReport { installed_count: 2, updated_count: 0, failure: None };
    let (s, a) = update_step::<u8>(s, UpdateEvent::Updated { result: Ok(report), shutdown: false });
    assert!(matches!(s, UpdateState::Finished));
    match a {
        UpdateAction::Finish(Ok(ReconciliationOutcome::Completed(job))) => assert_eq!(job.summary, "current"),
        _ => panic!("expected a completed update"),
    }
}

#[test]
fn an_update_that_changed_artifacts_reconciles_and_rolls_back_on_failure() {
    let report = ManagedResourceUpdateReport { installed_count: 2, updated_count: 1, failure: None };
    let (s, a) = update_step::<u8>(UpdateState::Updating, UpdateEvent::Updated { result: Ok(report), shutdown: false });
    assert!(matches!(a, UpdateAction::ReconcileSystem));
    let (s, a) = update_step::<u8>(s, UpdateEvent::Reconciled { result: Err(other("system")), subject: None, shutdown: false });
    assert!(matches!(a, UpdateAction::RollBackCaddy));
    let (s, a) = update_step::<u8>(s, UpdateEvent::CaddyRolledBack { result: Ok(true), shutdown: false });
    assert!(matches!(a, UpdateAction::RecoverGateway));
    let (s, a) = update_step::<u8>(s, UpdateEvent::GatewayRecovered { result: Ok(()) });
    assert!(matches!(s, UpdateState::Finished));
    assert!(matches!(a, UpdateAction::Finish(Err(_))));
}

#[test]
fn a_project_env_reconciliation_installs_then_applies() {
    let (s, a) = project_env_step::<String>(ProjectEnvState::Start, ProjectEnvEvent::Began { shutdown: false });
    assert!(matches!(a, ProjectEnvAction::RecordRequirements));
    let (s, a) = project_env_step::<String>(
        s,
        ProjectEnvEvent::RequirementsRecorded { result: Ok(ReconciliationOutcome::Completed(())), shutdown: false },
    );
    assert!(matches!(a, ProjectEnvAction::InstallResources));
    let (s, a) = project_env_step::<String>(
        s,
        ProjectEnvEvent::ResourcesInstalled {
            result: Ok(ProjectResourceInstall { installed: true, deferred_error: None }),
            shutdown: false,
        },
    );
    assert!(matches!(a, ProjectEnvAction::CompleteStagedApply));
    let (s, a) = project_env_step::<String>(
        s,
        ProjectEnvEvent::Applied { result: Ok(ReconciliationOutcome::Completed("ok".to_string())), shutdown: false },
    );
    assert!(matches!(s, ProjectEnvState::Finished));
    assert!(matches!(a, ProjectEnvAction::Finish(Ok(ReconciliationOutcome::Completed(text))) if text == "ok"));
}

#[test]
fn outcomes_are_recorded_as_completions_or_failures() {
    let completed: Result<ReconciliationOutcome<CompletedReconciliationJob<DiagnosticSubject>>, DaemonError> =
        Ok(ReconciliationOutcome::Completed(CompletedReconciliationJob { summary: "done".to_string(), coverage: Vec::new() }));
    match finalization_of(completed) {
        JobFinalization::Record { recording: JobRecording::RecordingCompletion { summary }, .. } => assert_eq!(summary, "done"),
        _ => panic!("expected the completion to be recorded"),
    }
    assert!(matches!(
        finalization_of::<DiagnosticSubject>(Ok(ReconciliationOutcome::Cancelled)),
        JobFinalization::Cancelled
    ));
    let step = reconciliation_recording_step(JobRecording::RecordingCompletion { summary: "done".to_string() }, Err(other("db")));
    assert!(matches!(step, RecordingStep::RecordFailure { error: DaemonError::Other { message } } if message == "db"));
    let step = reconciliation_recording_step(JobRecording::RecordingFailure { error: other("job") }, Err(other("db")));
    assert!(matches!(
        step,
        RecordingStep::Done(ReconciliationJobCompletion::Failed { recording_error: Some(_), .. })
    ));
    let completion = update_recording_completion(JobRecording::RecordingCompletion { summary: "s".to_string() }, Err(other("db")));
    assert!(matches!(completion, ReconciliationJobCompletion::Failed { recording_error: None, .. }));
}
