use daemon::artifacts::{required_project_artifacts, unique_required_artifacts};
use daemon::desired::{
    desired_installs_outcome, desired_resource_install_plan, missing_desired_resource_installs_with_demands,
    missing_resource_tracks, CatalogAdapter, DemandedResourceTrack, DesiredResourceInstall,
    DesiredResourceInstallPlan, DesiredState, InstallAttempt, ResourceTrackRecord, RuntimeAdapterSource,
};
use daemon::error::DaemonError;
use daemon::install::{finish_desired_resource_install_failures, DesiredResourceInstallFailure};
use daemon::prefetch::{ProjectInstallRequest, Resolution, ResolvedArtifact};

fn track(name: &str, track: &str) -> DemandedResourceTrack {
    DemandedResourceTrack { resource_name: name.to_string(), track: track.to_string() }
}

fn record(name: &str, track: &str, state: DesiredState, artifact: bool) -> ResourceTrackRecord {
    ResourceTrackRecord {
        resource_name: name.to_string(),
        track: track.to_string(),
        desired_state: state,
        has_current_artifact: artifact,
        has_env_context: false,
        usage_count: 0,
    }
}

fn adapter(name: &str, error: Option<&str>) -> CatalogAdapter {
    CatalogAdapter { resource_name: name.to_string(), artifact_adapter_error: error.map(|e| e.to_string()) }
}

fn keys(tracks: &[DemandedResourceTrack]) -> Vec<(String, String)> {
    tracks.iter().map(|t| (t.resource_name.clone(), t.track.clone())).collect()
}

fn labels(plan: &DesiredResourceInstallPlan) -> Vec<String> {
    plan.installs.iter().map(|install| install.label()).collect()
}

#[test]
fn missing_tracks_are_wanted_without_artifact_or_demanded_and_not_installed() {
    let records = vec![
        record("redis", "7", DesiredState::Installed, false),
        record("mysql", "8.4", DesiredState::Installed, true),
        record("postgres", "17", DesiredState::Removed, false),
    ];
    let demanded = vec![track("mysql", "8.4"), track("caddy", "2"), track("redis", "7"), track("caddy", "2")];
    let missing = missing_resource_tracks(&records, &demanded);
    assert_eq!(
        keys(&missing),
        vec![("caddy".to_string(), "2".to_string()), ("redis".to_string(), "7".to_string())]
    );
}

#[test]
fn missing_tracks_sort_by_name_then_track_in_code_point_order() {
    let demanded = vec![
        track("php", "8.4"),
        track("php", "8.10"),
        track("frankenphp", "8.4"),
        track("Zed", "1"),
        track("php", "8"),
    ];
    let missing = missing_resource_tracks(&Vec::new(), &demanded);
    assert_eq!(
        keys(&missing),
        vec![
            ("Zed".to_string(), "1".to_string()),
            ("frankenphp".to_string(), "8.4".to_string()),
            ("php".to_string(), "8".to_string()),
            ("php".to_string(), "8.10".to_string()),
            ("php".to_string(), "8.4".to_string()),
        ]
    );
}

#[test]
fn plan_orders_caddy_then_php_pairs_then_composer_then_runtimes() {
    let missing = vec![
        track("caddy", "2"),
        track("composer", "2"),
        track("frankenphp", "8.3"),
        track("mysql", "8.4"),
        track("php", "8.3"),
        track("php", "8.4"),
        track("redis", "7"),
    ];
    let catalog = vec![adapter("mysql", None), adapter("redis", None)];
    let plan = desired_resource_install_plan(&missing, &catalog, Ok(())).unwrap();
    assert_eq!(
        labels(&plan),
        vec!["caddy 2", "php/frankenphp 8.3", "php/frankenphp 8.4", "composer 2", "mysql 8.4", "redis 7"]
    );
    assert!(plan.failures.is_empty());
    assert!(matches!(
        &plan.installs[0],
        DesiredResourceInstall::Runtime { adapter: RuntimeAdapterSource::Caddy, .. }
    ));
    assert!(matches!(
        &plan.installs[5],
        DesiredResourceInstall::Runtime { adapter: RuntimeAdapterSource::Catalog { index: 1 }, .. }
    ));
}

#[test]
fn plan_records_unplannable_tracks_in_order() {
    let missing = vec![track("composer", "1"), track("memcached", "1"), track("mysql", "8.4"), track("redis", "7")];
    let catalog = vec![adapter("mysql", Some("adapter broken")), adapter("redis", None)];
    let plan = desired_resource_install_plan(&missing, &catalog, Ok(())).unwrap();
    assert_eq!(labels(&plan), vec!["redis 7"]);
    assert_eq!(plan.failures.len(), 3);
    let rendered: Vec<(usize, String)> = plan.failures.iter().map(|f| (f.order, f.message())).collect();
    assert_eq!(
        rendered,
        vec![
            (0, "composer 1: daemon protocol error: Composer setup default expected track `2`, got `1`".to_string()),
            (1, "memcached 1: Managed Resource `memcached` has no runtime adapter".to_string()),
            (2, "mysql 8.4: adapter broken".to_string()),
        ]
    );
}

#[test]
fn caddy_adapter_failure_fails_the_plan_only_when_caddy_is_missing() {
    let broken = || Err(DaemonError::Other { message: "no caddy adapter".to_string() });
    let with_caddy = desired_resource_install_plan(&vec![track("caddy", "2")], &Vec::new(), broken());
    assert!(matches!(with_caddy, Err(DaemonError::Other { message }) if message == "no caddy adapter"));
    let without = desired_resource_install_plan(&vec![track("php", "8.4")], &Vec::new(), broken()).unwrap();
    assert_eq!(labels(&without), vec!["php/frankenphp 8.4"]);
}

#[test]
fn planning_from_records_walks_the_missing_tracks() {
    let records = vec![record("mysql", "8.4", DesiredState::Installed, false)];
    let demanded = vec![track("caddy", "2")];
    let plan = missing_desired_resource_installs_with_demands(&records, &demanded, &vec![adapter("mysql", None)], Ok(()))
        .unwrap();
    assert_eq!(labels(&plan), vec!["caddy 2", "mysql 8.4"]);
}

fn failure(order: usize, label: &str, message: &str) -> DesiredResourceInstallFailure {
    DesiredResourceInstallFailure::new(order, label.to_string(), DaemonError::Other { message: message.to_string() })
}

#[test]
fn install_failures_report_none_one_or_all_in_install_order() {
    assert!(finish_desired_resource_install_failures(Vec::new()).is_ok());
    let single = finish_desired_resource_install_failures(vec![failure(4, "redis 7", "boom")]);
    assert!(matches!(single, Err(DaemonError::Other { message }) if message == "boom"));
    let several = finish_desired_resource_install_failures(vec![
        failure(2, "b", "second"),
        failure(0, "a", "first"),
        failure(2, "c", "third"),
    ]);
    match several {
        Err(DaemonError::ManagedResourceDefaultInstallFailures { failures }) => {
            assert_eq!(failures, vec!["a: first", "b: second", "c: third"]);
        }
        _ => panic!("expected the aggregate"),
    }
}

#[test]
fn nothing_to_install_reports_the_plan_failures() {
    let plan = DesiredResourceInstallPlan { installs: Vec::new(), failures: vec![failure(0, "x", "plan")] };
    let result = desired_installs_outcome(plan, Err(DaemonError::Other { message: "unused".to_string() }), Vec::new());
    assert!(matches!(result, Err(DaemonError::Other { message }) if message == "plan"));
}

#[test]
fn manifest_failure_alone_is_the_result() {
    let plan = DesiredResourceInstallPlan { installs: vec![DesiredResourceInstall::Composer], failures: Vec::new() };
    let result = desired_installs_outcome(plan, Err(DaemonError::Other { message: "offline".to_string() }), Vec::new());
    assert!(matches!(result, Err(DaemonError::Other { message }) if message == "offline"));
}

#[test]
fn manifest_failure_joins_the_plan_failures() {
    let plan = DesiredResourceInstallPlan {
        installs: vec![DesiredResourceInstall::Composer],
        failures: vec![failure(0, "memcached 1", "unsupported")],
    };
    let result = desired_installs_outcome(plan, Err(DaemonError::Other { message: "offline".to_string() }), Vec::new());
    match result {
        Err(DaemonError::ManagedResourceDefaultInstallFailures { failures }) => {
            assert_eq!(failures, vec!["memcached 1: unsupported", "artifact manifest: offline"]);
        }
        _ => panic!("expected the aggregate"),
    }
}

#[test]
fn install_failures_are_numbered_after_the_plan_and_reported_in_install_order() {
    let plan = DesiredResourceInstallPlan {
        installs: vec![
            DesiredResourceInstall::PhpPair { track: "8.4".to_string() },
            DesiredResourceInstall::Composer,
            DesiredResourceInstall::Runtime {
                adapter: RuntimeAdapterSource::Catalog { index: 0 },
                resource_name: "redis".to_string(),
                track: "7".to_string(),
            },
            DesiredResourceInstall::Runtime {
                adapter: RuntimeAdapterSource::Catalog { index: 1 },
                resource_name: "mysql".to_string(),
                track: "8.4".to_string(),
            },
        ],
        failures: vec![failure(0, "memcached 1", "unsupported")],
    };
    let attempts = vec![
        InstallAttempt::DownloadsFailed {
            failures: vec![
                ("php 8.4".to_string(), DaemonError::Other { message: "php download".to_string() }),
                ("frankenphp 8.4".to_string(), DaemonError::Other { message: "frankenphp download".to_string() }),
            ],
        },
        InstallAttempt::Installed,
        InstallAttempt::InstallFailed { error: DaemonError::Other { message: "disk full".to_string() } },
        InstallAttempt::ResolveFailed { error: DaemonError::Other { message: "no artifact".to_string() } },
    ];
    match desired_installs_outcome(plan, Ok(()), attempts) {
        Err(DaemonError::ManagedResourceDefaultInstallFailures { failures }) => {
            assert_eq!(
                failures,
                vec![
                    "memcached 1: unsupported",
                    "php 8.4: php download",
                    "frankenphp 8.4: frankenphp download",
                    "redis 7: disk full",
                    "mysql 8.4: no artifact",
                ]
            );
        }
        _ => panic!("expected the aggregate"),
    }
}

#[test]
fn all_installs_succeeding_is_ok() {
    let plan = DesiredResourceInstallPlan { installs: vec![DesiredResourceInstall::Composer], failures: Vec::new() };
    assert!(desired_installs_outcome(plan, Ok(()), vec![InstallAttempt::Installed]).is_ok());
}

fn artifact(name: &str, version: &str, sha: &str, required: bool) -> ResolvedArtifact {
    ResolvedArtifact {
        resource_name: name.to_string(),
        track: "1".to_string(),
        artifact_version: version.to_string(),
        sha256: sha.to_string(),
        download_required: required,
    }
}

#[test]
fn required_artifacts_are_each_downloaded_once_in_key_order() {
    let artifacts = vec![
        artifact("php", "8.4.1", "bb", true),
        artifact("frankenphp", "1.3", "aa", true),
        artifact("php", "8.4.1", "bb", true),
        artifact("mysql", "8.4.3", "cc", false),
        artifact("php", "8.4.1", "ab", true),
    ];
    let keys: Vec<(String, String, String)> = unique_required_artifacts(&artifacts)
        .into_iter()
        .map(|k| (k.resource_name, k.artifact_version, k.sha256))
        .collect();
    assert_eq!(
        keys,
        vec![
            ("frankenphp".to_string(), "1.3".to_string(), "aa".to_string()),
            ("php".to_string(), "8.4.1".to_string(), "ab".to_string()),
            ("php".to_string(), "8.4.1".to_string(), "bb".to_string()),
        ]
    );
}

#[test]
fn project_downloads_come_from_resolved_matching_requests() {
    let requests = vec![
        ProjectInstallRequest::Resolve { key: track("redis", "7"), adapter: 0 },
        ProjectInstallRequest::Failed { key: track("memcached", "1"), error: DaemonError::Other { message: "x".to_string() } },
        ProjectInstallRequest::Resolve { key: track("mysql", "8.4"), adapter: 1 },
        ProjectInstallRequest::Resolve { key: track("postgres", "17"), adapter: 2 },
    ];
    let resolutions = vec![
        Resolution { adapter_resource_name: "redis".to_string(), resolved: Ok(artifact("redis", "7.4", "r", true)) },
        Resolution { adapter_resource_name: "mariadb".to_string(), resolved: Ok(artifact("mariadb", "1", "m", true)) },
        Resolution { adapter_resource_name: "postgres".to_string(), resolved: Err(DaemonError::Other { message: "y".to_string() }) },
    ];
    let keys: Vec<String> = required_project_artifacts(&requests, &resolutions)
        .into_iter()
        .map(|k| k.resource_name)
        .collect();
    assert_eq!(keys, vec!["redis"]);
}
