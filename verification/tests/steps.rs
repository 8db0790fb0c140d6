use daemon::control::background_failure_already_recorded;
use daemon::desired::{
    desired_install_step, DemandedResourceTrack, DesiredInstallAction, DesiredInstallEvent, DesiredInstallState,
    DesiredResourceInstall, DesiredResourceInstallPlan, InstallAttempt,
};
use daemon::error::DaemonError;
use daemon::finalize::{reconciliation_dispatch, ReconciliationDispatch, ReconciliationKind};
use daemon::jobs::{CompletedReconciliationJob, ReconciliationOutcome};
use daemon::mysql::{mysql_init_file_path, mysql_socket_path};
use daemon::phases::PhaseOutcome;
use daemon::prefetch::{ArtifactDownloadResult, PrefetchedProjectInstall, ProjectInstallRequest, Resolution, ResolvedArtifact};
use daemon::prefetch_steps::{prefetch_step, PrefetchAction, PrefetchEvent, PrefetchState};
use daemon::project::{
    project_env_phase_record, project_env_phase_started, DiagnosticSubject, ProjectEnvAction, ProjectEnvEvent,
    ProjectResourceInstall,
};
use daemon::resource_scope::{
    resource_scope_phase_record, strict_failures_to_record, ScopePhaseRecord, StrictFailure, TrackFailure,
};
use daemon::scope::ReconciliationScope;
use daemon::stream::ReconciliationPhase;
use daemon::update::{update_finalization_of, FailedUpdateJob, UpdateFinalization};

fn other(message: &str) -> DaemonError {
    DaemonError::Other { message: message.to_string() }
}

fn track(name: &str, track: &str) -> DemandedResourceTrack {
    DemandedResourceTrack { resource_name: name.to_string(), track: track.to_string() }
}

#[test]
fn removed_project_scope_is_skipped_with_the_removal_summary() {
    let scope = ReconciliationScope::Project { id: "project_1".to_string() };
    let effective = ReconciliationScope::Project { id: "project_1".to_string() };
    match reconciliation_dispatch::<DiagnosticSubject>(true, &scope, effective, Ok(false)) {
        ReconciliationDispatch::Skip { project_id, completed } => {
            assert_eq!(project_id, "project_1");
            assert_eq!(completed.summary, "Project was removed before background reconciliation; skipped");
            assert!(completed.coverage.is_empty());
        }
        _ => panic!("expected the removed Project to be skipped"),
    }
}

#[test]
fn dispatch_runs_existing_projects_and_fails_on_lookup_errors() {
    let scope = ReconciliationScope::Project { id: "p".to_string() };
    let run = reconciliation_dispatch::<DiagnosticSubject>(true, &scope, ReconciliationScope::System, Ok(true));
    assert!(matches!(run, ReconciliationDispatch::Run { kind: ReconciliationKind::System }));
    let failed = reconciliation_dispatch::<DiagnosticSubject>(true, &scope, ReconciliationScope::System, Err(other("db")));
    assert!(matches!(failed, ReconciliationDispatch::Fail { error: DaemonError::Other { message } } if message == "db"));
    // Without discarding, a missing Project is not looked at.
    let kept = reconciliation_dispatch::<DiagnosticSubject>(
        false,
        &scope,
        ReconciliationScope::Project { id: "p".to_string() },
        Ok(false),
    );
    assert!(matches!(kept, ReconciliationDispatch::Run { kind: ReconciliationKind::Project { id } } if id == "p"));
    let gateway = ReconciliationScope::Resource { name: "caddy".to_string(), track: "2".to_string() };
    let run = reconciliation_dispatch::<DiagnosticSubject>(true, &gateway, gateway_copy(), Ok(false));
    assert!(matches!(run, ReconciliationDispatch::Run { kind: ReconciliationKind::Gateway }));
}

fn gateway_copy() -> ReconciliationScope {
    ReconciliationScope::Resource { name: "caddy".to_string(), track: "2".to_string() }
}

fn subject_names(coverage: &[DiagnosticSubject]) -> Vec<&'static str> {
    coverage
        .iter()
        .map(|s| match s {
            DiagnosticSubject::SystemReconciliation => "system",
            DiagnosticSubject::GatewayRuntime => "gateway",
            DiagnosticSubject::UpdateAssessment => "update",
            DiagnosticSubject::Project { .. } => "project",
            DiagnosticSubject::Resource { .. } => "resource",
        })
        .collect()
}

#[test]
fn update_records_the_assessment_before_the_pass_coverage() {
    let noop = CompletedReconciliationJob { summary: "current".to_string(), coverage: Vec::new() };
    match update_finalization_of(Ok(ReconciliationOutcome::Completed(noop))) {
        UpdateFinalization::RecordCompletion { summary, coverage } => {
            assert_eq!(summary, "current");
            assert_eq!(subject_names(&coverage), vec!["update"]);
        }
        _ => panic!("expected a completion"),
    }
    let updated = CompletedReconciliationJob {
        summary: "updated 1 artifact(s); reconciled: ok".to_string(),
        coverage: vec![DiagnosticSubject::SystemReconciliation, DiagnosticSubject::GatewayRuntime],
    };
    match update_finalization_of(Ok(ReconciliationOutcome::Completed(updated))) {
        UpdateFinalization::RecordCompletion { coverage, .. } => {
            assert_eq!(subject_names(&coverage), vec!["update", "system", "gateway"]);
        }
        _ => panic!("expected a completion"),
    }
    let failed = FailedUpdateJob { error: other("x"), subject: DiagnosticSubject::UpdateAssessment };
    assert!(matches!(
        update_finalization_of(Err(failed)),
        UpdateFinalization::RecordFailure { subject: DiagnosticSubject::UpdateAssessment, .. }
    ));
    assert!(matches!(update_finalization_of(Ok(ReconciliationOutcome::Cancelled)), UpdateFinalization::Cancelled));
}

fn artifact(name: &str) -> ResolvedArtifact {
    ResolvedArtifact {
        resource_name: name.to_string(),
        track: "1".to_string(),
        artifact_version: "1.0".to_string(),
        sha256: format!("{name}-sha"),
        download_required: true,
    }
}

#[test]
fn prefetch_without_requests_to_resolve_fetches_no_manifest() {
    let requests = vec![ProjectInstallRequest::Failed { key: track("memcached", "1"), error: other("unsupported") }];
    let (state, action) = prefetch_step(PrefetchState::Start { requests }, PrefetchEvent::Began);
    assert!(matches!(state, PrefetchState::Finished));
    match action {
        PrefetchAction::Finish(prefetched) => assert!(prefetched.has_failure("memcached", "1")),
        _ => panic!("expected the prefetch to end at once"),
    }
}

#[test]
fn prefetch_stops_when_the_manifest_cannot_be_had() {
    let requests = vec![
        ProjectInstallRequest::Resolve { key: track("mysql", "8.4"), adapter: 0 },
        ProjectInstallRequest::Resolve { key: track("redis", "7"), adapter: 1 },
    ];
    let (state, action) = prefetch_step(PrefetchState::Start { requests }, PrefetchEvent::Began);
    assert!(matches!(action, PrefetchAction::FetchManifest));
    let (state, action) = prefetch_step(state, PrefetchEvent::ManifestFetched { result: Err(other("offline")) });
    assert!(matches!(state, PrefetchState::Finished));
    match action {
        PrefetchAction::Finish(mut prefetched) => {
            assert!(matches!(prefetched.remove("mysql", "8.4"), Some(PrefetchedProjectInstall::Failed(_))));
            assert!(prefetched.remove("redis", "7").is_none());
        }
        _ => panic!("expected the prefetch to end at once"),
    }
}

#[test]
fn prefetch_resolves_then_downloads_then_builds_the_installs() {
    let requests = vec![ProjectInstallRequest::Resolve { key: track("mysql", "8.4"), adapter: 0 }];
    let (state, _) = prefetch_step(PrefetchState::Start { requests }, PrefetchEvent::Began);
    let (state, action) = prefetch_step(state, PrefetchEvent::ManifestFetched { result: Ok(()) });
    assert!(matches!(action, PrefetchAction::ResolveRequests));
    let resolutions =
        vec![Resolution { adapter_resource_name: "mysql".to_string(), resolved: Ok(artifact("mysql")) }];
    let (state, action) = prefetch_step(state, PrefetchEvent::Resolved { resolutions });
    match &action {
        PrefetchAction::Download { keys } => {
            assert_eq!(keys.len(), 1);
            assert_eq!(keys[0].resource_name, "mysql");
        }
        _ => panic!("expected the downloads"),
    }
    let downloads = vec![ArtifactDownloadResult {
        resource_name: "mysql".to_string(),
        artifact_version: "1.0".to_string(),
        sha256: "mysql-sha".to_string(),
        result: Ok(()),
    }];
    let (_, action) = prefetch_step(state, PrefetchEvent::Downloaded { downloads });
    match action {
        PrefetchAction::Finish(mut prefetched) => {
            assert!(matches!(prefetched.remove("mysql", "8.4"), Some(PrefetchedProjectInstall::Ready { .. })));
        }
        _ => panic!("expected the prefetch to finish"),
    }
}

#[test]
fn default_installs_without_installs_fetch_no_manifest() {
    let plan = DesiredResourceInstallPlan { installs: Vec::new(), failures: Vec::new() };
    let (state, action) = desired_install_step(DesiredInstallState::Start { plan }, DesiredInstallEvent::Began);
    assert!(matches!(state, DesiredInstallState::Finished));
    assert!(matches!(action, DesiredInstallAction::Finish(Ok(()))));
}

#[test]
fn default_installs_stop_when_the_manifest_cannot_be_had() {
    let plan = DesiredResourceInstallPlan { installs: vec![DesiredResourceInstall::Composer], failures: Vec::new() };
    let (state, action) = desired_install_step(DesiredInstallState::Start { plan }, DesiredInstallEvent::Began);
    assert!(matches!(action, DesiredInstallAction::FetchManifest));
    let (state, action) = desired_install_step(state, DesiredInstallEvent::ManifestFetched { result: Err(other("offline")) });
    assert!(matches!(state, DesiredInstallState::Finished));
    assert!(matches!(action, DesiredInstallAction::Finish(Err(DaemonError::Other { message })) if message == "offline"));
}

#[test]
fn default_installs_run_each_install_once_the_manifest_is_had() {
    let plan = DesiredResourceInstallPlan { installs: vec![DesiredResourceInstall::Composer], failures: Vec::new() };
    let (state, _) = desired_install_step(DesiredInstallState::Start { plan }, DesiredInstallEvent::Began);
    let (state, action) = desired_install_step(state, DesiredInstallEvent::ManifestFetched { result: Ok(()) });
    assert!(matches!(action, DesiredInstallAction::InstallEach));
    let (_, action) =
        desired_install_step(state, DesiredInstallEvent::Attempted { attempts: vec![InstallAttempt::Installed] });
    assert!(matches!(action, DesiredInstallAction::Finish(Ok(()))));
}

#[test]
fn project_env_steps_record_their_phases() {
    let action: ProjectEnvAction<String> = ProjectEnvAction::InstallResources;
    assert!(matches!(project_env_phase_started(&action), Some(ReconciliationPhase::Resources)));
    let event: ProjectEnvEvent<String> = ProjectEnvEvent::ResourcesInstalled {
        result: Ok(ProjectResourceInstall { installed: false, deferred_error: None }),
        shutdown: false,
    };
    assert!(matches!(project_env_phase_record(&event), Some((ReconciliationPhase::Resources, PhaseOutcome::Skipped))));
    let event: ProjectEnvEvent<String> =
        ProjectEnvEvent::Applied { result: Ok(ReconciliationOutcome::Cancelled), shutdown: true };
    assert!(matches!(project_env_phase_record(&event), Some((ReconciliationPhase::ProjectApply, PhaseOutcome::Skipped))));
    let event: ProjectEnvEvent<String> = ProjectEnvEvent::Began { shutdown: false };
    assert!(project_env_phase_record(&event).is_none());
}

#[test]
fn resource_scope_records_the_track_pass() {
    let event = daemon::resource_scope::ResourceScopeEvent::TrackReconciled {
        result: Ok((true, vec![TrackFailure { project_id: "p".to_string(), error: other("x") }])),
        shutdown: false,
    };
    assert!(matches!(resource_scope_phase_record(&event), Some(ScopePhaseRecord::Resources(PhaseOutcome::Succeeded))));
    let event = daemon::resource_scope::ResourceScopeEvent::TrackReconciled { result: Err(other("x")), shutdown: false };
    assert!(matches!(resource_scope_phase_record(&event), Some(ScopePhaseRecord::Resources(PhaseOutcome::Failed))));
}

#[test]
fn an_existing_project_failure_is_kept_over_the_recheck_refusal() {
    let strict = vec![
        StrictFailure { project_id: "a".to_string(), project_label: "a.test".to_string(), error: other("not applied") },
        StrictFailure { project_id: "b".to_string(), project_label: "b.test".to_string(), error: other("not ready") },
    ];
    let records = strict_failures_to_record(&strict, &vec![true, false]);
    assert_eq!(records, vec![("b".to_string(), "not ready".to_string())]);
}

#[test]
fn mysql_runtime_files_live_under_the_run_directory() {
    assert_eq!(mysql_socket_path("/pv/run", "8.4"), "/pv/run/resources/mysql-8.4.sock");
    assert_eq!(mysql_init_file_path("/pv/run/", "8.4"), "/pv/run/resources/mysql-8.4.init.sql");
}

#[test]
fn background_reconciliation_error_records_failed_job() {
    let error = DaemonError::Io { message: "background task failed".to_string() }.message();
    assert_eq!(error, "I/O error: background task failed");
    // No failure of the scope is unresolved yet, so the failed job is recorded.
    assert!(!background_failure_already_recorded(&Vec::new(), "project:project_1", &error));
}
