use daemon::desired::{CatalogAdapter, DemandedResourceTrack, DesiredState, ResourceTrackRecord};
use daemon::error::DaemonError;
use daemon::prefetch::{
    installed_track, missing_project_install_requests, prefetch_missing_project_installs_blocking,
    take_prefetched_install, take_project_prefetch_failures, unsupported_resource_has_seeded_env_context,
    ArtifactDownloadResult, PrefetchedInstalls, PrefetchedProjectInstall, ProjectInstallRequest,
    Resolution, ResolvedArtifact,
};

fn track(name: &str, track: &str) -> DemandedResourceTrack {
    DemandedResourceTrack { resource_name: name.to_string(), track: track.to_string() }
}

fn record(name: &str, track: &str, state: DesiredState, artifact: bool, env: bool) -> ResourceTrackRecord {
    ResourceTrackRecord {
        resource_name: name.to_string(),
        track: track.to_string(),
        desired_state: state,
        has_current_artifact: artifact,
        has_env_context: env,
        usage_count: 0,
    }
}

fn adapter(name: &str, error: Option<&str>) -> CatalogAdapter {
    CatalogAdapter { resource_name: name.to_string(), artifact_adapter_error: error.map(|e| e.to_string()) }
}

fn other(message: &str) -> DaemonError {
    DaemonError::Other { message: message.to_string() }
}

fn describe(requests: &[ProjectInstallRequest]) -> Vec<String> {
    requests
        .iter()
        .map(|r| match r {
            ProjectInstallRequest::Resolve { key, adapter } => format!("resolve {} {} @{}", key.resource_name, key.track, adapter),
            ProjectInstallRequest::Failed { key, error } => format!("failed {} {}: {}", key.resource_name, key.track, error.message()),
        })
        .collect()
}

#[test]
fn installed_track_needs_an_artifact_and_refuses_removed_tracks() {
    let records = vec![
        record("redis", "7", DesiredState::Installed, true, false),
        record("mysql", "8.4", DesiredState::Installed, false, false),
        record("postgres", "17", DesiredState::Removed, true, false),
    ];
    assert_eq!(installed_track(&records, "redis", "7").unwrap(), Some(0));
    assert_eq!(installed_track(&records, "mysql", "8.4").unwrap(), None);
    assert_eq!(installed_track(&records, "mailpit", "1").unwrap(), None);
    assert!(matches!(
        installed_track(&records, "postgres", "17"),
        Err(DaemonError::ManagedResourceTrackRemoved { resource, track }) if resource == "postgres" && track == "17"
    ));
}

#[test]
fn seeded_env_context_is_looked_up_by_track() {
    let records = vec![record("rustfs", "1", DesiredState::Installed, false, true)];
    assert!(unsupported_resource_has_seeded_env_context(&records, "rustfs", "1"));
    assert!(!unsupported_resource_has_seeded_env_context(&records, "rustfs", "2"));
}

#[test]
fn requests_skip_installed_and_seeded_tracks_and_stop_at_the_first_failure() {
    let records = vec![
        record("redis", "7", DesiredState::Installed, true, false),
        record("rustfs", "1", DesiredState::Installed, false, true),
    ];
    let tracks = vec![
        track("redis", "7"),
        track("rustfs", "1"),
        track("mysql", "8.4"),
        track("postgres", "17"),
        track("mailpit", "1"),
    ];
    let catalog = vec![adapter("mysql", None), adapter("postgres", Some("broken")), adapter("mailpit", None)];
    let requests = missing_project_install_requests(&tracks, Ok(records), &catalog);
    assert_eq!(describe(&requests), vec!["resolve mysql 8.4 @0", "failed postgres 17: broken"]);
}

#[test]
fn requests_stop_at_an_unsupported_unseeded_track() {
    let tracks = vec![track("mysql", "8.4"), track("memcached", "1"), track("mailpit", "1")];
    let catalog = vec![adapter("mysql", None), adapter("mailpit", None)];
    let requests = missing_project_install_requests(&tracks, Ok(Vec::new()), &catalog);
    assert_eq!(describe(&requests), vec!["resolve mysql 8.4 @0"]);
}

#[test]
fn unreadable_track_records_fail_the_first_track() {
    let tracks = vec![track("mysql", "8.4"), track("redis", "7")];
    let requests = missing_project_install_requests(&tracks, Err(other("database locked")), &Vec::new());
    assert_eq!(describe(&requests), vec!["failed mysql 8.4: database locked"]);
    assert!(missing_project_install_requests(&Vec::new(), Err(other("x")), &Vec::new()).is_empty());
}

fn artifact(name: &str, required: bool) -> ResolvedArtifact {
    ResolvedArtifact {
        resource_name: name.to_string(),
        track: "1".to_string(),
        artifact_version: "1.0".to_string(),
        sha256: format!("{name}-sha"),
        download_required: required,
    }
}

#[test]
fn prefetch_outcomes_follow_resolution_and_downloads() {
    let requests = vec![
        ProjectInstallRequest::Failed { key: track("memcached", "1"), error: other("unsupported") },
        ProjectInstallRequest::Resolve { key: track("mysql", "8.4"), adapter: 0 },
        ProjectInstallRequest::Resolve { key: track("redis", "7"), adapter: 1 },
        ProjectInstallRequest::Resolve { key: track("postgres", "17"), adapter: 2 },
        ProjectInstallRequest::Resolve { key: track("mailpit", "1"), adapter: 3 },
        ProjectInstallRequest::Resolve { key: track("rustfs", "1"), adapter: 4 },
    ];
    let resolutions = vec![
        Resolution { adapter_resource_name: "mysql".to_string(), resolved: Ok(artifact("mysql", true)) },
        Resolution { adapter_resource_name: "redis".to_string(), resolved: Ok(artifact("redis", false)) },
        Resolution { adapter_resource_name: "mariadb".to_string(), resolved: Ok(artifact("mariadb", true)) },
        Resolution { adapter_resource_name: "mailpit".to_string(), resolved: Err(other("no such track")) },
        Resolution { adapter_resource_name: "rustfs".to_string(), resolved: Ok(artifact("rustfs", true)) },
    ];
    let downloads = vec![ArtifactDownloadResult {
        resource_name: "mysql".to_string(),
        artifact_version: "1.0".to_string(),
        sha256: "mysql-sha".to_string(),
        result: Ok(()),
    }];
    let mut prefetched = prefetch_missing_project_installs_blocking(requests, Ok(()), resolutions, &downloads);

    assert!(matches!(
        take_prefetched_install(&mut prefetched, "mysql", "8.4"),
        Ok((0, 0, Some(0)))
    ));
    assert!(matches!(
        take_prefetched_install(&mut prefetched, "redis", "7"),
        Ok((1, 1, None))
    ));
    assert!(matches!(
        take_prefetched_install(&mut prefetched, "postgres", "17"),
        Err(DaemonError::UnexpectedProtocolResponse { reason })
            if reason == "runtime adapter resolved `mariadb` while reconciling `postgres`"
    ));
    assert!(matches!(
        take_prefetched_install(&mut prefetched, "mailpit", "1"),
        Err(DaemonError::Other { message }) if message == "no such track"
    ));
    assert!(matches!(
        take_prefetched_install(&mut prefetched, "rustfs", "1"),
        Err(DaemonError::MissingArtifactDownload { resource, artifact_version })
            if resource == "rustfs" && artifact_version == "1.0"
    ));
    assert!(matches!(
        take_prefetched_install(&mut prefetched, "memcached", "1"),
        Err(DaemonError::Other { message }) if message == "unsupported"
    ));
    assert!(matches!(
        take_prefetched_install(&mut prefetched, "mysql", "8.4"),
        Err(DaemonError::UnexpectedProtocolResponse { reason })
            if reason == "missing prefetched install for mysql track 8.4"
    ));
}

#[test]
fn failed_download_fails_its_install_with_the_download_error() {
    let requests = vec![ProjectInstallRequest::Resolve { key: track("mysql", "8.4"), adapter: 0 }];
    let resolutions = vec![Resolution { adapter_resource_name: "mysql".to_string(), resolved: Ok(artifact("mysql", true)) }];
    let downloads = vec![ArtifactDownloadResult {
        resource_name: "mysql".to_string(),
        artifact_version: "1.0".to_string(),
        sha256: "mysql-sha".to_string(),
        result: Err("checksum mismatch".to_string()),
    }];
    let mut prefetched = prefetch_missing_project_installs_blocking(requests, Ok(()), resolutions, &downloads);
    assert!(matches!(
        take_prefetched_install(&mut prefetched, "mysql", "8.4"),
        Err(DaemonError::ManagedResourceCommand { message }) if message == "checksum mismatch"
    ));
}

#[test]
fn manifest_failure_fails_only_the_first_request_to_resolve() {
    let requests = vec![
        ProjectInstallRequest::Resolve { key: track("mysql", "8.4"), adapter: 0 },
        ProjectInstallRequest::Resolve { key: track("redis", "7"), adapter: 1 },
    ];
    let mut prefetched = prefetch_missing_project_installs_blocking(requests, Err(other("offline")), Vec::new(), &Vec::new());
    assert!(matches!(
        take_prefetched_install(&mut prefetched, "mysql", "8.4"),
        Err(DaemonError::Other { message }) if message == "offline"
    ));
    assert!(matches!(
        take_prefetched_install(&mut prefetched, "redis", "7"),
        Err(DaemonError::UnexpectedProtocolResponse { .. })
    ));
}

#[test]
fn later_prefetch_of_a_track_replaces_the_earlier_one() {
    let mut prefetched = PrefetchedInstalls::new();
    prefetched.insert(track("mysql", "8.4"), PrefetchedProjectInstall::Failed(other("first")));
    prefetched.insert(track("mysql", "8.4"), PrefetchedProjectInstall::Ready { adapter: 2, resolution: 3, download: None });
    assert!(!prefetched.has_failure("mysql", "8.4"));
    assert!(matches!(take_prefetched_install(&mut prefetched, "mysql", "8.4"), Ok((2, 3, None))));
}

#[test]
fn prefetch_failures_are_taken_in_track_order_and_ready_installs_stay() {
    let mut prefetched = PrefetchedInstalls::new();
    prefetched.insert(track("redis", "7"), PrefetchedProjectInstall::Failed(other("redis failed")));
    prefetched.insert(track("mysql", "8.4"), PrefetchedProjectInstall::Ready { adapter: 0, resolution: 0, download: None });
    prefetched.insert(track("postgres", "17"), PrefetchedProjectInstall::Failed(other("postgres failed")));
    let tracks = vec![track("postgres", "17"), track("mysql", "8.4"), track("redis", "7")];
    let failures = take_project_prefetch_failures(&tracks, &mut prefetched);
    let rendered: Vec<String> = failures.iter().map(|f| f.message()).collect();
    assert_eq!(rendered, vec!["postgres 17: postgres failed", "redis 7: redis failed"]);
    assert!(!prefetched.has_failure("redis", "7"));
    assert!(matches!(take_prefetched_install(&mut prefetched, "mysql", "8.4"), Ok((0, 0, None))));
    assert!(take_prefetched_install(&mut prefetched, "redis", "7").is_err());
}
