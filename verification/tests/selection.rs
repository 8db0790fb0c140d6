use daemon::artifacts::{prefetched_download, resolved_download_failures, runtime_adapter_mismatch, ResolvedDesiredResourceInstallKind};
use daemon::desired::{CatalogAdapter, DemandedResourceTrack, DesiredState, ResourceTrackRecord};
use daemon::error::DaemonError;
use daemon::mailpit::ManagedResourcePortSpec;
use daemon::prefetch::{ArtifactDownloadResult, PrefetchedInstalls, PrefetchedProjectInstall, ResolvedArtifact};
use daemon::selection::{
    check_port_names, declared_tracks_with_adapters, desired_allocations, missing_gateway_runtime_resource,
    project_resources_failure, resource_track_ports, undemanded_catalog_tracks, AllocationEntry, PortOwner,
};

fn track(name: &str, track: &str) -> DemandedResourceTrack {
    DemandedResourceTrack { resource_name: name.to_string(), track: track.to_string() }
}

fn record(name: &str, track: &str, state: DesiredState, artifact: bool, usage: u64) -> ResourceTrackRecord {
    ResourceTrackRecord {
        resource_name: name.to_string(),
        track: track.to_string(),
        desired_state: state,
        has_current_artifact: artifact,
        has_env_context: false,
        usage_count: usage,
    }
}

fn adapter(name: &str) -> CatalogAdapter {
    CatalogAdapter { resource_name: name.to_string(), artifact_adapter_error: None }
}

fn artifact(name: &str, track: &str, required: bool) -> ResolvedArtifact {
    ResolvedArtifact {
        resource_name: name.to_string(),
        track: track.to_string(),
        artifact_version: "1.0".to_string(),
        sha256: format!("{name}-sha"),
        download_required: required,
    }
}

fn download(name: &str, result: Result<(), String>) -> ArtifactDownloadResult {
    ArtifactDownloadResult {
        resource_name: name.to_string(),
        artifact_version: "1.0".to_string(),
        sha256: format!("{name}-sha"),
        result,
    }
}

#[test]
fn unused_undemanded_catalog_runtimes_are_stopped() {
    let records = vec![
        record("mysql", "8.4", DesiredState::Installed, true, 0),
        record("mysql", "8.0", DesiredState::Installed, true, 1),
        record("redis", "7", DesiredState::Installed, true, 0),
        record("caddy", "2", DesiredState::Installed, true, 0),
    ];
    let catalog = vec![adapter("mysql"), adapter("redis")];
    let demanded = vec![track("redis", "7")];
    assert_eq!(undemanded_catalog_tracks(&records, &catalog, &demanded), vec![0]);
}

#[test]
fn gateway_runtime_without_artifact_needs_repair() {
    assert!(missing_gateway_runtime_resource(&vec![record("frankenphp", "8.4", DesiredState::Installed, false, 0)]));
    assert!(!missing_gateway_runtime_resource(&vec![record("frankenphp", "8.4", DesiredState::Removed, false, 0)]));
    assert!(!missing_gateway_runtime_resource(&vec![record("mysql", "8.4", DesiredState::Installed, false, 0)]));
}

#[test]
fn only_tracks_with_adapters_are_installed_for_a_project() {
    let recorded = vec![track("mysql", "8.4"), track("memcached", "1"), track("redis", "7")];
    let declared = declared_tracks_with_adapters(&recorded, &vec![adapter("redis"), adapter("mysql")]);
    let names: Vec<String> = declared.into_iter().map(|t| t.resource_name).collect();
    assert_eq!(names, vec!["mysql", "redis"]);
}

#[test]
fn allocations_follow_the_plan_and_the_track() {
    let allocations = vec![
        AllocationEntry { track: "8.4".to_string(), allocation_name: "app".to_string() },
        AllocationEntry { track: "8.0".to_string(), allocation_name: "app".to_string() },
        AllocationEntry { track: "8.4".to_string(), allocation_name: "old".to_string() },
        AllocationEntry { track: "8.4".to_string(), allocation_name: "tests".to_string() },
    ];
    let planned = Some(vec!["tests".to_string(), "app".to_string()]);
    assert_eq!(desired_allocations(&planned, &allocations, "8.4"), vec![0, 3]);
    assert!(desired_allocations(&None, &allocations, "8.4").is_empty());
}

#[test]
fn only_the_track_ports_are_released() {
    let owners = vec![
        PortOwner::Resource { name: "mysql".to_string(), track: "8.4".to_string(), port: "mysql".to_string() },
        PortOwner::Other,
        PortOwner::Resource { name: "mysql".to_string(), track: "8.0".to_string(), port: "mysql".to_string() },
        PortOwner::Resource { name: "mysql".to_string(), track: "8.4".to_string(), port: "x".to_string() },
    ];
    assert_eq!(resource_track_ports(&owners, "mysql", "8.4"), vec![0, 3]);
}

#[test]
fn the_default_port_name_is_reserved() {
    let ok = vec![ManagedResourcePortSpec { name: "mysql", preferred_port: 3306 }];
    assert!(check_port_names("mysql", "8.4", &ok).is_ok());
    let reserved = vec![
        ManagedResourcePortSpec { name: "smtp", preferred_port: 1025 },
        ManagedResourcePortSpec { name: "default", preferred_port: 1 },
    ];
    match check_port_names("mailpit", "1", &reserved) {
        Err(error) => assert_eq!(error.message(), "Managed Resource mailpit track 1 asks for the reserved port name `default`"),
        Ok(()) => panic!("expected the reserved name to be refused"),
    }
}

#[test]
fn a_failed_track_is_reported_with_the_later_failed_prefetches() {
    let tracks = vec![track("mysql", "8.4"), track("redis", "7"), track("postgres", "17")];
    let mut prefetched = PrefetchedInstalls::new();
    prefetched.insert(track("postgres", "17"), PrefetchedProjectInstall::Failed(DaemonError::Other { message: "pg".to_string() }));
    prefetched.insert(track("redis", "7"), PrefetchedProjectInstall::Ready { adapter: 0, resolution: 0, download: None });
    let error = project_resources_failure(&tracks, 0, DaemonError::Other { message: "mysql".to_string() }, &mut prefetched);
    assert_eq!(error.message(), "Managed Resource runtimes failed: mysql 8.4: mysql; postgres 17: pg");
    let mut none = PrefetchedInstalls::new();
    let alone = project_resources_failure(&tracks, 2, DaemonError::Other { message: "pg".to_string() }, &mut none);
    assert!(matches!(alone, DaemonError::ManagedResourceProjectFailed { .. }));
    assert_eq!(alone.message(), "postgres 17: pg");
}

#[test]
fn prefetched_downloads_are_found_by_key() {
    let downloads = vec![download("mysql", Ok(())), download("redis", Err("bad checksum".to_string()))];
    assert_eq!(prefetched_download(&downloads, &artifact("mysql", "8.4", true)).unwrap(), Some(0));
    assert_eq!(prefetched_download(&downloads, &artifact("postgres", "17", false)).unwrap(), None);
    assert!(matches!(
        prefetched_download(&downloads, &artifact("redis", "7", true)),
        Err(DaemonError::ManagedResourceCommand { message }) if message == "bad checksum"
    ));
    assert!(matches!(
        prefetched_download(&downloads, &artifact("postgres", "17", true)),
        Err(DaemonError::UnexpectedProtocolResponse { reason }) if reason == "missing prefetched artifact for postgres 1.0"
    ));
}

#[test]
fn php_pair_download_failures_are_labelled_per_resource() {
    let downloads = vec![download("php", Err("php broke".to_string()))];
    let install = ResolvedDesiredResourceInstallKind::PhpPair {
        php: artifact("php", "8.4", true),
        frankenphp: artifact("frankenphp", "8.4", true),
    };
    let failures = resolved_download_failures(&downloads, &install, "php/frankenphp 8.4");
    let labels: Vec<String> = failures.iter().map(|(label, _)| label.clone()).collect();
    assert_eq!(labels, vec!["php 8.4", "frankenphp 8.4"]);
    let runtime = ResolvedDesiredResourceInstallKind::Runtime { artifact: artifact("redis", "7", false) };
    assert!(resolved_download_failures(&downloads, &runtime, "redis 7").is_empty());
    let composer = ResolvedDesiredResourceInstallKind::Composer { artifact: artifact("composer", "2", true) };
    let failures = resolved_download_failures(&downloads, &composer, "composer 2");
    assert_eq!(failures.len(), 1);
    assert_eq!(failures[0].0, "composer 2");
}

#[test]
fn adapters_must_resolve_their_own_resource() {
    assert!(runtime_adapter_mismatch("mysql", "mysql").is_none());
    assert!(matches!(
        runtime_adapter_mismatch("mariadb", "mysql"),
        Some(DaemonError::UnexpectedProtocolResponse { reason }) if reason == "runtime adapter resolved `mariadb` while reconciling `mysql`"
    ));
}
