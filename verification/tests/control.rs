use daemon::control::{
    background_failure_already_recorded, background_job_result, complete_or_fail_background_reconciliation, coalesced_reconciliation_response,
    coalesced_update_response, dns_ended_result, invalid_scope_error, job_accepted, job_route,
    reconciliation_enqueue_refusal, require_project_scope_exists, server_ended_result, shutdown_result, started_job_outcome,
    startup_enqueue_decision, startup_shutdown_during_enqueue, terminal_event_timeout_error,
    update_enqueue_refusal, DaemonResponse, JobFailureRecord, JobRoute, SlotRelease, StartedJobOutcome,
    StartupEnqueue,
};
use daemon::error::{DaemonError, StateError, StateErrorKind};
use daemon::jobs::{BackgroundReconciliationError, ReconciliationJobCompletion};
use daemon::jobs::SystemProjectReconciliationReport;
use daemon::scope::ReconciliationScope;
use daemon::passes::{project_label, record_allocation_failure, record_project_apply, PassNext, ProjectApplyOutcome};

fn lock_held(path: &str) -> DaemonError {
    DaemonError::State(StateError {
        kind: StateErrorKind::CoordinationLockHeld { path: path.to_string() },
        message: format!("coordination lock `{path}` is held"),
    })
}

fn other(message: &str) -> DaemonError {
    DaemonError::Other { message: message.to_string() }
}

#[test]
fn jobs_are_routed_by_kind_and_scope() {
    assert!(matches!(job_route("reconcile", "system"), JobRoute::Reconcile));
    assert!(matches!(job_route("update", "system"), JobRoute::Update));
    assert!(matches!(job_route("update", "project:a"), JobRoute::Started));
    assert!(matches!(job_route("status", "system"), JobRoute::Started));
}

#[test]
fn enqueue_refusals_answer_held_locks_and_missing_projects() {
    assert!(matches!(
        reconciliation_enqueue_refusal(lock_held("/pv/jobs.lock")),
        Ok(DaemonResponse::Error { message }) if message == "coordination lock `/pv/jobs.lock` is held"
    ));
    let missing = DaemonError::State(StateError {
        kind: StateErrorKind::ProjectNotFound { target: "blog".to_string() },
        message: "no linked Project matches `blog`".to_string(),
    });
    assert!(matches!(
        reconciliation_enqueue_refusal(missing),
        Ok(DaemonResponse::Error { message }) if message == "no linked Project matches `blog`"
    ));
    assert!(matches!(reconciliation_enqueue_refusal(other("x")), Err(DaemonError::Other { .. })));
    assert!(matches!(update_enqueue_refusal(lock_held("l")), Ok(DaemonResponse::Error { .. })));
    let missing = DaemonError::State(StateError {
        kind: StateErrorKind::ProjectNotFound { target: "blog".to_string() },
        message: "m".to_string(),
    });
    assert!(matches!(update_enqueue_refusal(missing), Err(DaemonError::State(_))));
}

#[test]
fn responses_carry_their_fixed_texts() {
    assert!(matches!(job_accepted("j1".to_string()), DaemonResponse::Accepted { message, job_id } if message == "job accepted" && job_id == "j1"));
    assert!(matches!(
        coalesced_reconciliation_response("j2".to_string()),
        DaemonResponse::Accepted { message, job_id } if message == "reconciliation already queued or running" && job_id == "j2"
    ));
    assert!(matches!(coalesced_update_response(), DaemonResponse::Error { message } if message == "update already queued or running"));
    assert!(matches!(
        terminal_event_timeout_error(),
        DaemonError::Io { message } if message == "foreground job terminal event write timed out"
    ));
    assert_eq!(invalid_scope_error("nope", "unknown scope"), "invalid reconciliation scope `nope`: unknown scope");
}

#[test]
fn startup_enqueue_retries_only_on_the_jobs_lock() {
    assert!(matches!(startup_enqueue_decision(Ok::<u8, DaemonError>(5), "/jobs.lock"), StartupEnqueue::Enqueued(5)));
    assert!(matches!(startup_enqueue_decision::<u8>(Err(lock_held("/jobs.lock")), "/jobs.lock"), StartupEnqueue::Retry));
    assert!(matches!(
        startup_enqueue_decision::<u8>(Err(lock_held("/other.lock")), "/jobs.lock"),
        StartupEnqueue::Fail(BackgroundReconciliationError::Admission(_))
    ));
    assert!(startup_shutdown_during_enqueue::<u8>(Err(lock_held("/jobs.lock")), "/jobs.lock").is_ok());
    assert!(startup_shutdown_during_enqueue::<u8>(Err(other("x")), "/jobs.lock").is_err());
}

#[test]
fn background_jobs_release_their_slot_by_outcome() {
    let (release, result) = background_job_result("j".to_string(), ReconciliationJobCompletion::Cancelled);
    assert!(matches!(release, SlotRelease::Abandon));
    assert!(result.is_ok());
    let (release, result) = background_job_result(
        "j".to_string(),
        ReconciliationJobCompletion::Failed { error: Box::new(other("boom")), recording_error: None },
    );
    assert!(matches!(release, SlotRelease::Finish));
    assert!(matches!(result, Err(BackgroundReconciliationError::Execution { job_id, .. }) if job_id == "j"));
}

#[test]
fn recorded_background_failures_match_scope_and_text() {
    let failures = vec![
        JobFailureRecord { kind: "update".to_string(), scope: "system".to_string(), error: Some("boom".to_string()) },
        JobFailureRecord { kind: "reconcile".to_string(), scope: "system".to_string(), error: None },
        JobFailureRecord { kind: "reconcile".to_string(), scope: "system".to_string(), error: Some("boom".to_string()) },
    ];
    assert!(background_failure_already_recorded(&failures, "system", "boom"));
    assert!(!background_failure_already_recorded(&failures, "project:a", "boom"));
    let earlier = vec![
        JobFailureRecord { kind: "update".to_string(), scope: "system".to_string(), error: Some("boom".to_string()) },
        JobFailureRecord { kind: "reconcile".to_string(), scope: "system".to_string(), error: None },
    ];
    assert!(!background_failure_already_recorded(&earlier, "system", "boom"));
}

#[test]
fn started_jobs_complete_only_for_valid_reconcile_requests() {
    assert!(matches!(
        started_job_outcome("reconcile", "system", true),
        StartedJobOutcome::Completed { summary } if summary == "stub job completed"
    ));
    assert!(matches!(
        started_job_outcome("status", "system", true),
        StartedJobOutcome::Failed { error } if error == "unsupported daemon job `status` with scope `system`"
    ));
    assert!(matches!(started_job_outcome("reconcile", "bogus", false), StartedJobOutcome::Failed { .. }));
}

#[test]
fn stopping_reports_the_first_failure_in_order() {
    let ok = || Ok::<(), DaemonError>(());
    let (result, logged) = shutdown_result(ok(), ok(), Ok(ok()));
    assert!(result.is_ok() && logged);
    let (result, logged) = shutdown_result(Err(other("socket")), Err(other("dns")), Ok(ok()));
    assert!(matches!(result, Err(DaemonError::Other { message }) if message == "socket"));
    assert!(!logged);
    let (result, _) = server_ended_result(ok(), Err(other("dns")), Err(other("join")));
    assert!(matches!(result, Err(DaemonError::Other { message }) if message == "dns"));
    let (result, _) = shutdown_result(ok(), ok(), Ok(Err(other("server"))));
    assert!(matches!(result, Err(DaemonError::Other { message }) if message == "server"));
    let (result, _) = dns_ended_result(ok(), Err(other("join")), Err(other("dns")));
    assert!(matches!(result, Err(DaemonError::Other { message }) if message == "join"));
    let (result, logged) = dns_ended_result(ok(), Ok(ok()), Err(other("dns")));
    assert!(matches!(result, Err(DaemonError::Other { message }) if message == "dns"));
    assert!(!logged);
}

#[test]
fn project_passes_count_successes_and_label_failures() {
    let mut report = SystemProjectReconciliationReport::empty();
    report.total = 3;
    let next = record_project_apply(
        &mut report,
        "p1".to_string(),
        "a.test".to_string(),
        ProjectApplyOutcome::Completed { summary: "applied a".to_string() },
    );
    assert!(matches!(next, PassNext::Continue));
    let next = record_project_apply(&mut report, "p2".to_string(), "b".to_string(), ProjectApplyOutcome::Failed(other("broken")));
    assert!(matches!(next, PassNext::Continue));
    assert_eq!(report.succeeded, 1);
    assert_eq!(report.successful_project_ids, vec!["p1"]);
    assert_eq!(report.summaries, vec!["applied a"]);
    assert_eq!(report.failures.len(), 1);
    assert_eq!(report.failures[0].message(), "b: broken");
    let next = record_project_apply(&mut report, "p3".to_string(), "c".to_string(), ProjectApplyOutcome::Cancelled);
    assert!(matches!(next, PassNext::Stop));
    let recording = DaemonError::ProjectEnvFailureRecordingFailed {
        project_id: "p3".to_string(),
        reconciliation: Box::new(other("env")),
        recording: Box::new(other("db")),
    };
    let next = record_project_apply(&mut report, "p3".to_string(), "c".to_string(), ProjectApplyOutcome::Failed(recording));
    assert!(matches!(next, PassNext::Abort(DaemonError::ProjectEnvFailureRecordingFailed { .. })));
    assert_eq!(report.failures.len(), 1);
}

#[test]
fn allocation_failures_are_reported_unless_recording_them_fails() {
    let mut report = SystemProjectReconciliationReport::empty();
    let next = record_allocation_failure(&mut report, "p".to_string(), "site.test".to_string(), other("alloc"), Ok(()));
    assert!(matches!(next, PassNext::Continue));
    assert_eq!(report.failures[0].message(), "site.test: alloc");
    let next = record_allocation_failure(&mut report, "p".to_string(), "site.test".to_string(), other("alloc"), Err(other("db")));
    match next {
        PassNext::Abort(error) => assert_eq!(
            error.message(),
            "alloc; recording the allocation failure of Project `p` failed: db"
        ),
        _ => panic!("expected the pass to end"),
    }
    assert_eq!(report.failures.len(), 1);
}

#[test]
fn projects_are_labelled_by_hostname_or_slug() {
    assert_eq!(project_label(&Some("blog.test".to_string()), &"blog".to_string()), "blog.test");
    assert_eq!(project_label(&None, &"blog".to_string()), "blog");
}

#[test]
fn joined_reconciliation_of_an_unlinked_project_is_refused() {
    let scope = ReconciliationScope::Project { id: "project_1".to_string() };
    assert!(require_project_scope_exists(&scope, true).is_ok());
    match require_project_scope_exists(&scope, false) {
        Err(StateErrorKind::ProjectNotFound { target }) => assert_eq!(target, "project_1"),
        _ => panic!("expected the missing Project"),
    }
    assert!(require_project_scope_exists(&ReconciliationScope::System, false).is_ok());
    let resource = ReconciliationScope::Resource { name: "mailpit".to_string(), track: "1.0".to_string() };
    assert!(require_project_scope_exists(&resource, false).is_ok());
}

#[test]
fn foreground_reconciliation_still_rejects_missing_project() {
    let scope = ReconciliationScope::Project { id: "missing".to_string() };
    match require_project_scope_exists(&scope, false) {
        Err(StateErrorKind::ProjectNotFound { target }) => assert_eq!(target, "missing"),
        _ => panic!("expected the missing Project to be refused before the job is queued"),
    }
}

#[test]
fn background_reconciliation_failure_marks_started_job_failed() {
    let (failure_text, result) =
        complete_or_fail_background_reconciliation(Err(DaemonError::Io { message: "reconcile failed".to_string() }));
    assert!(result.is_err());
    assert_eq!(failure_text.as_deref(), Some("I/O error: reconcile failed"));
    let (failure_text, result) = complete_or_fail_background_reconciliation(Ok(()));
    assert!(result.is_ok());
    assert!(failure_text.is_none());
}

fn failed_reconcile(scope: &str, error: &str) -> JobFailureRecord {
    JobFailureRecord { kind: "reconcile".to_string(), scope: scope.to_string(), error: Some(error.to_string()) }
}

#[test]
fn background_error_deduplication_resets_after_successful_coverage() {
    let error = DaemonError::Io { message: "background task failed".to_string() }.message();
    let scope = "project:project_1";
    let mut unresolved: Vec<JobFailureRecord> = Vec::new();
    let mut failed_jobs = 0;
    for _ in 0..2 {
        if !background_failure_already_recorded(&unresolved, scope, &error) {
            unresolved.push(failed_reconcile(scope, &error));
            failed_jobs += 1;
        }
    }
    assert_eq!(failed_jobs, 1);
    // A later successful reconciliation covering the Project resolves its failures.
    unresolved.retain(|failure| failure.scope != scope);
    if !background_failure_already_recorded(&unresolved, scope, &error) {
        unresolved.push(failed_reconcile(scope, &error));
        failed_jobs += 1;
    }
    assert_eq!(failed_jobs, 2);
    assert_eq!(unresolved.len(), 1);
}
