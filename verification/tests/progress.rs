use daemon::phases::PhaseOutcome;
use daemon::progress::{
    artifact_subject, download_progress_report, operation_finished_record, resource_operation_phase,
    retry_keeps_manifest_snapshot, ArtifactInfo, DownloadProgressEvent, InstallFailures, OperationRecord,
    ResourceOperation, ResourceOperationOutcome,
};
use daemon::stream::ReconciliationPhase;

fn artifact() -> ArtifactInfo {
    ArtifactInfo {
        resource_name: "mysql".to_string(),
        track: "8.4".to_string(),
        artifact_version: "8.4.3".to_string(),
        size: 4096,
    }
}

#[test]
fn artifact_subject_is_resource_track_and_version() {
    assert_eq!(artifact_subject(&artifact()), "mysql:8.4:8.4.3");
}

#[test]
fn operations_are_timed_under_their_phase() {
    assert!(matches!(resource_operation_phase(&ResourceOperation::Manifest), ReconciliationPhase::Manifest));
    assert!(matches!(resource_operation_phase(&ResourceOperation::Download(artifact())), ReconciliationPhase::Download));
    assert!(matches!(resource_operation_phase(&ResourceOperation::Install(artifact())), ReconciliationPhase::Install));
}

#[test]
fn download_progress_reaches_only_a_foreground_client() {
    assert!(download_progress_report(false, DownloadProgressEvent::Started { artifact: artifact() }).is_none());
    let started = download_progress_report(true, DownloadProgressEvent::Started { artifact: artifact() }).unwrap();
    assert_eq!(started.downloaded_bytes, 0);
    assert_eq!(started.total_bytes, 4096);
    assert_eq!(started.resource, "mysql");
    assert_eq!(started.track, "8.4");
    assert_eq!(started.artifact_version, "8.4.3");
    let advanced = download_progress_report(
        true,
        DownloadProgressEvent::Advanced { artifact: artifact(), downloaded_bytes: 1024 },
    )
    .unwrap();
    assert_eq!(advanced.downloaded_bytes, 1024);
    let finished = download_progress_report(
        true,
        DownloadProgressEvent::Finished { artifact: artifact(), downloaded_bytes: 4096 },
    )
    .unwrap();
    assert_eq!(finished.downloaded_bytes, 4096);
}

fn completed(record: OperationRecord) -> daemon::progress::OperationCompletion {
    match record {
        OperationRecord::Completed(c) => c,
        _ => panic!("expected a timed record"),
    }
}

#[test]
fn latest_manifest_is_recorded_with_its_source() {
    let c = completed(operation_finished_record(true, false, ResourceOperation::Manifest, ResourceOperationOutcome::Succeeded));
    assert!(matches!(c.phase, ReconciliationPhase::Manifest));
    assert_eq!(c.subject, "artifact_manifest");
    assert!(matches!(c.outcome, PhaseOutcome::Succeeded));
    assert_eq!(c.counts, vec![("manifest_count".to_string(), 1)]);
    assert_eq!(c.fields, vec![("manifest_source".to_string(), "latest".to_string())]);
}

#[test]
fn manifest_fallback_is_recorded_with_its_reason() {
    let c = completed(operation_finished_record(
        true,
        false,
        ResourceOperation::Manifest,
        ResourceOperationOutcome::Fallback { reason: "offline".to_string() },
    ));
    assert!(matches!(c.outcome, PhaseOutcome::Fallback));
    assert_eq!(
        c.fields,
        vec![
            ("manifest_source".to_string(), "cached".to_string()),
            ("fallback_reason".to_string(), "offline".to_string()),
        ]
    );
}

#[test]
fn downloads_count_their_bytes_and_installs_their_artifact() {
    let download = completed(operation_finished_record(
        true,
        false,
        ResourceOperation::Download(artifact()),
        ResourceOperationOutcome::Failed,
    ));
    assert_eq!(download.subject, "mysql:8.4:8.4.3");
    assert!(matches!(download.outcome, PhaseOutcome::Failed));
    assert_eq!(
        download.counts,
        vec![("artifact_count".to_string(), 1), ("artifact_bytes".to_string(), 4096)]
    );
    assert!(download.fields.is_empty());
    let install = completed(operation_finished_record(
        true,
        false,
        ResourceOperation::Install(artifact()),
        ResourceOperationOutcome::Skipped,
    ));
    assert!(matches!(install.outcome, PhaseOutcome::Skipped));
    assert_eq!(install.counts, vec![("artifact_count".to_string(), 1)]);
    assert!(install.fields.is_empty());
}

#[test]
fn suppressed_operations_note_only_a_manifest_fallback() {
    assert!(matches!(
        operation_finished_record(
            true,
            true,
            ResourceOperation::Manifest,
            ResourceOperationOutcome::Fallback { reason: "offline".to_string() },
        ),
        OperationRecord::ManifestFallback { reason } if reason == "offline"
    ));
    assert!(matches!(
        operation_finished_record(true, true, ResourceOperation::Manifest, ResourceOperationOutcome::Succeeded),
        OperationRecord::Nothing
    ));
    assert!(matches!(
        operation_finished_record(false, false, ResourceOperation::Manifest, ResourceOperationOutcome::Succeeded),
        OperationRecord::Nothing
    ));
}

#[test]
fn a_retry_drops_only_a_cached_manifest_failure() {
    assert!(!retry_keeps_manifest_snapshot(Some(false)));
    assert!(retry_keeps_manifest_snapshot(Some(true)));
    assert!(retry_keeps_manifest_snapshot(None));
}

#[test]
fn install_failures_read_back_what_was_last_set() {
    let mut failures = InstallFailures::new();
    assert_eq!(failures.install_failure("redis 7"), None);
    failures.set_install_failure("redis 7".to_string(), Some("first".to_string()));
    failures.set_install_failure("mysql 8.4".to_string(), Some("other".to_string()));
    failures.set_install_failure("redis 7".to_string(), Some("second".to_string()));
    assert_eq!(failures.install_failure("redis 7"), Some("second".to_string()));
    assert_eq!(failures.install_failure("mysql 8.4"), Some("other".to_string()));
    failures.set_install_failure("redis 7".to_string(), None);
    assert_eq!(failures.install_failure("redis 7"), None);
    assert_eq!(failures.install_failure("mysql 8.4"), Some("other".to_string()));
}
