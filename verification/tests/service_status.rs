use openot_persistence::contracts::{
    CommitOutcome, MaintenanceOutcome, PersistenceCheckpoint, PersistenceError,
};
use openot_persistence::status::{
    apply_worker_error, apply_worker_snapshot, drain_complete, finish_shutdown, next_retry_delay,
    stops_after_error, OpenOtPersistenceState, OpenOtPersistenceStatus, ReconnectTotals,
};
use openot_persistence::supervisor::{LoopAction, LoopPolicy, Supervisor};
use openot_persistence::worker::{
    record_commit, record_maintenance, OpenOtPersistenceWorkerStatus, WorkerCore, WorkerStep,
};

fn outcome(inserted: usize, duplicated: usize, cursor_abs: u64) -> CommitOutcome {
    CommitOutcome {
        inserted,
        duplicated,
        remote_pending: 0,
        projection_rows_committed: inserted * 2,
        unclassified_events: 0,
        unresolved_documents: 1,
        loss_ranges: 1,
        lost_records: 4,
        pending_parts: 0,
        checkpoint: PersistenceCheckpoint { buffer_id: 7, run_id: 1, cursor_abs },
    }
}

fn running(status: &mut OpenOtPersistenceStatus, snapshot: &OpenOtPersistenceWorkerStatus) {
    apply_worker_snapshot(status, snapshot, &ReconnectTotals::new(), true, 42);
}

#[test]
fn states_have_stable_names() {
    let names: Vec<&str> = [
        OpenOtPersistenceState::Disabled,
        OpenOtPersistenceState::Starting,
        OpenOtPersistenceState::Ready,
        OpenOtPersistenceState::CatchingUp,
        OpenOtPersistenceState::Degraded,
        OpenOtPersistenceState::Retrying,
        OpenOtPersistenceState::Stopped,
        OpenOtPersistenceState::Faulted,
    ]
    .into_iter()
    .map(OpenOtPersistenceState::as_str)
    .collect();
    assert_eq!(
        names,
        vec!["disabled", "starting", "ready", "catching_up", "degraded", "retrying", "stopped", "faulted"]
    );
}

#[test]
fn a_commit_advances_every_counter_and_the_cursor() {
    let mut counters = OpenOtPersistenceWorkerStatus::new();
    record_commit(&mut counters, &outcome(3, 2, 500));
    assert_eq!(counters.documents_read, 5);
    assert_eq!(counters.documents_committed, 3);
    assert_eq!(counters.documents_duplicated, 2);
    assert_eq!(counters.projection_rows_committed, 6);
    assert_eq!(counters.unresolved, 1);
    assert_eq!(counters.loss_range_count, 1);
    assert_eq!(counters.lost_record_count, 4);
    assert_eq!(counters.cursor_abs, 500);
    record_maintenance(
        &mut counters,
        &MaintenanceOutcome { remote_pending: 2, reconciled_parts: 3, pending_parts: 4 },
    );
    assert_eq!(counters.remote_pending, 2);
    assert_eq!(counters.reconciled_part_count, 3);
    assert_eq!(counters.pending_part_count, 4);
}

#[test]
fn caught_up_status_is_ready_and_lag_is_catching_up() {
    let mut status = OpenOtPersistenceStatus::starting(Some("sqlite".to_string()));
    let mut snapshot = OpenOtPersistenceWorkerStatus::new();
    snapshot.cursor_abs = 100;
    snapshot.head_abs = 100;
    running(&mut status, &snapshot);
    assert_eq!(status.state, OpenOtPersistenceState::Ready);
    assert_eq!(status.last_success_time_ns, Some(42));
    snapshot.head_abs = 160;
    running(&mut status, &snapshot);
    assert_eq!(status.state, OpenOtPersistenceState::CatchingUp);
    assert_eq!(status.pending, 60);
}

#[test]
fn unresolved_document_keeps_caught_up_status_degraded() {
    let mut status = OpenOtPersistenceStatus::starting(Some("sqlite".to_string()));
    let mut snapshot = OpenOtPersistenceWorkerStatus::new();
    snapshot.unresolved = 1;
    snapshot.cursor_abs = 10;
    snapshot.head_abs = 10;
    running(&mut status, &snapshot);
    assert_eq!(status.state, OpenOtPersistenceState::Degraded);
    assert_eq!(status.last_error, None);
}

#[test]
fn reconnect_totals_keep_status_cumulative() {
    let mut first = OpenOtPersistenceWorkerStatus::new();
    record_commit(&mut first, &outcome(3, 0, 10));
    let mut totals = ReconnectTotals::new();
    totals.accumulate(&first);
    let mut second = OpenOtPersistenceWorkerStatus::new();
    record_commit(&mut second, &outcome(2, 1, 20));
    let mut status = OpenOtPersistenceStatus::starting(None);
    apply_worker_snapshot(&mut status, &second, &totals, false, 7);
    assert_eq!(status.documents_committed, 5);
    assert_eq!(status.documents_read, 6);
    assert_eq!(status.last_success_time_ns, None);
}

#[test]
fn transient_failures_retry_until_the_budget_is_spent() {
    let mut status = OpenOtPersistenceStatus::starting(Some("postgresql".to_string()));
    let mut retries = 0u32;
    let failure = PersistenceError::Connection("PostgreSQL connect: refused".to_string());
    apply_worker_error(&mut status, &failure, &mut retries, 2);
    assert_eq!(status.state, OpenOtPersistenceState::Retrying);
    assert_eq!(retries, 1);
    assert!(!stops_after_error(&failure, retries, 2));
    apply_worker_error(&mut status, &failure, &mut retries, 2);
    assert_eq!(status.state, OpenOtPersistenceState::Faulted);
    assert_eq!(status.documents_retried, 2);
    assert_eq!(
        status.last_error.as_deref(),
        Some("OpenOT persistence retry budget exhausted after 2 consecutive failures")
    );
    assert!(stops_after_error(&failure, retries, 2));
}

#[test]
fn permanent_failures_fault_without_spending_the_budget() {
    let mut status = OpenOtPersistenceStatus::starting(Some("sqlite".to_string()));
    let mut retries = 0u32;
    let failure = PersistenceError::InvalidConfig("/private/secret".to_string());
    apply_worker_error(&mut status, &failure, &mut retries, 5);
    assert_eq!(retries, 0);
    assert_eq!(status.state, OpenOtPersistenceState::Faulted);
    assert_eq!(status.documents_retried, 0);
    assert_eq!(
        status.last_error.as_deref(),
        Some("OpenOT persistence configuration is invalid; inspect the local runtime log")
    );
    assert!(stops_after_error(&failure, retries, 5));
}

#[test]
fn retry_delay_grows_to_its_ceiling() {
    assert_eq!(next_retry_delay(100, 2, 1_000), 200);
    assert_eq!(next_retry_delay(800, 2, 1_000), 1_000);
    assert_eq!(next_retry_delay(u64::MAX, 2, 5_000), 5_000);
}

#[test]
fn shutdown_waits_for_the_target_head_and_remote_delivery() {
    let mut snapshot = OpenOtPersistenceWorkerStatus::new();
    snapshot.cursor_abs = 90;
    assert!(!drain_complete(&snapshot, 100));
    snapshot.cursor_abs = 100;
    assert!(drain_complete(&snapshot, 100));
    snapshot.remote_pending = 1;
    assert!(!drain_complete(&snapshot, 100));
}

#[test]
fn shutdown_timeout_faults_with_the_backlog() {
    let mut status = OpenOtPersistenceStatus::starting(None);
    status.pending = 12;
    status.remote_pending = 3;
    finish_shutdown(&mut status, true);
    assert_eq!(status.state, OpenOtPersistenceState::Faulted);
    assert_eq!(
        status.last_error.as_deref(),
        Some("OpenOT persistence shutdown timed out with 12 source bytes and 3 remote documents pending")
    );
    let mut clean = OpenOtPersistenceStatus::starting(None);
    finish_shutdown(&mut clean, false);
    assert_eq!(clean.state, OpenOtPersistenceState::Stopped);
}

#[test]
fn unreadable_status_is_faulted() {
    let status = OpenOtPersistenceStatus::unreadable();
    assert_eq!(status.state, OpenOtPersistenceState::Faulted);
    assert_eq!(status.last_error.as_deref(), Some("persistence status lock poisoned"));
}

#[test]
fn worker_retries_the_pending_batch_before_polling() {
    let mut worker: WorkerCore<u32> = WorkerCore::new();
    assert_eq!(worker.begin(), WorkerStep::Poll);
    worker.stage(9);
    assert_eq!(worker.begin(), WorkerStep::CommitPending);
    assert_eq!(worker.pending(), Some(&9));
    let reported = worker.record_committed(
        outcome(1, 0, 30),
        Ok(MaintenanceOutcome { remote_pending: 1, reconciled_parts: 0, pending_parts: 2 }),
    );
    assert_eq!(reported.remote_pending, 1);
    assert_eq!(reported.pending_parts, 2);
    assert_eq!(worker.pending(), None);
    assert_eq!(worker.status().cursor_abs, 30);
    assert_eq!(worker.begin(), WorkerStep::Poll);
}

#[test]
fn worker_publishes_the_commit_before_reporting_a_maintenance_failure() {
    let mut worker: WorkerCore<u32> = WorkerCore::new();
    worker.stage(1);
    let failure = PersistenceError::Connection("InfluxDB 3 write: refused".to_string());
    let reported = worker.record_committed(outcome(2, 0, 40), Err(failure.clone()));
    assert_eq!(reported.inserted, 2);
    assert_eq!(worker.status().documents_committed, 2);
    assert_eq!(worker.begin(), WorkerStep::ReportDeferred(failure));
    assert_eq!(worker.begin(), WorkerStep::Poll);
}

#[test]
fn idle_worker_runs_maintenance_and_exposes_the_remote_backlog() {
    let mut worker: WorkerCore<u32> = WorkerCore::new();
    worker.observe_poll(80, 3);
    assert!(WorkerCore::<u32>::is_idle(0, 50, 50));
    assert!(!WorkerCore::<u32>::is_idle(1, 50, 50));
    assert!(!WorkerCore::<u32>::is_idle(0, 60, 50));
    worker.record_idle(50, &MaintenanceOutcome { remote_pending: 4, reconciled_parts: 1, pending_parts: 6 });
    assert_eq!(worker.status().cursor_abs, 50);
    assert_eq!(worker.status().head_abs, 80);
    assert_eq!(worker.status().rejected, 3);
    assert_eq!(worker.status().remote_pending, 4);
    assert_eq!(worker.status().pending_part_count, 6);
}

fn policy() -> LoopPolicy {
    LoopPolicy {
        flush_interval_ms: 100,
        retry_initial_ms: 10,
        retry_max_ms: 25,
        retry_multiplier: 2,
        retry_max_attempts: 3,
    }
}

#[test]
fn supervisor_backs_off_between_reconnects_and_stops_when_the_budget_is_spent() {
    let mut supervisor = Supervisor::new(policy());
    let mut status = OpenOtPersistenceStatus::starting(Some("postgresql".to_string()));
    let refused = PersistenceError::Connection("PostgreSQL connect: refused".to_string());
    assert_eq!(supervisor.worker_failed(&mut status, &refused, None), LoopAction::Sleep(10));
    assert_eq!(status.state, OpenOtPersistenceState::Retrying);
    assert_eq!(supervisor.worker_failed(&mut status, &refused, None), LoopAction::Sleep(20));
    assert_eq!(supervisor.retry_delay_ms, 25);
    assert_eq!(supervisor.worker_failed(&mut status, &refused, None), LoopAction::Exit);
    assert_eq!(status.state, OpenOtPersistenceState::Faulted);
}

#[test]
fn supervisor_faults_at_once_on_a_permanent_failure() {
    let mut supervisor = Supervisor::new(policy());
    let mut status = OpenOtPersistenceStatus::starting(Some("sqlite".to_string()));
    let incompatible = PersistenceError::InvalidConfig("schema".to_string());
    assert_eq!(supervisor.worker_failed(&mut status, &incompatible, None), LoopAction::Exit);
    assert_eq!(supervisor.consecutive_retries, 0);
}

#[test]
fn supervisor_carries_counters_over_a_reconnect() {
    let mut supervisor = Supervisor::new(policy());
    let mut status = OpenOtPersistenceStatus::starting(Some("postgresql".to_string()));
    let mut failed = OpenOtPersistenceWorkerStatus::new();
    record_commit(&mut failed, &outcome(4, 0, 10));
    let lost = PersistenceError::Connection("PostgreSQL commit: connection closed".to_string());
    assert_eq!(supervisor.worker_failed(&mut status, &lost, Some(&failed)), LoopAction::Sleep(10));
    assert_eq!(supervisor.worker_opened(&mut status, 1), LoopAction::Continue);
    assert_eq!(status.schema_version, Some(1));
    let mut fresh = OpenOtPersistenceWorkerStatus::new();
    record_commit(&mut fresh, &outcome(1, 0, 11));
    assert_eq!(supervisor.pass_succeeded(&mut status, &fresh, true, 99, false), LoopAction::Sleep(100));
    assert_eq!(status.documents_committed, 5);
    assert_eq!(supervisor.consecutive_retries, 0);
    assert_eq!(supervisor.retry_delay_ms, 10);
}

#[test]
fn supervisor_drains_to_the_head_seen_when_stop_was_requested() {
    let mut supervisor = Supervisor::new(policy());
    let mut status = OpenOtPersistenceStatus::starting(None);
    let mut snapshot = OpenOtPersistenceWorkerStatus::new();
    snapshot.cursor_abs = 40;
    snapshot.head_abs = 100;
    assert_eq!(supervisor.pass_succeeded(&mut status, &snapshot, false, 1, true), LoopAction::Continue);
    assert_eq!(supervisor.drain_target, Some(100));
    snapshot.cursor_abs = 100;
    snapshot.head_abs = 180;
    assert_eq!(supervisor.pass_succeeded(&mut status, &snapshot, true, 2, true), LoopAction::Exit);
}

#[test]
fn service_faults_incompatible_pre_release_schema_without_spending_reconnect_budget() {
    let mut supervisor = Supervisor::new(policy());
    let mut status = OpenOtPersistenceStatus::starting(Some("sqlite".to_string()));
    let incompatible = PersistenceError::Commit(
        "SQLite incompatible pre-release schema generation 5; back up and recreate the development database"
            .to_string(),
    );
    assert_eq!(supervisor.worker_failed(&mut status, &incompatible, None), LoopAction::Exit);
    assert_eq!(status.state, OpenOtPersistenceState::Faulted);
    assert_eq!(status.documents_retried, 0);
    assert_eq!(supervisor.consecutive_retries, 0);
    assert_eq!(
        status.last_error.as_deref(),
        Some("selected OpenOT persistence backend operation failed"),
        "operator status must redact storage details: {status:?}"
    );
}

#[test]
fn a_refused_commit_is_permanent_and_a_lost_connection_is_not() {
    let mut status = OpenOtPersistenceStatus::starting(Some("mysql".to_string()));
    let mut retries = 0u32;
    let refused = PersistenceError::Commit("MySQL insert document: duplicate entry".to_string());
    apply_worker_error(&mut status, &refused, &mut retries, 3);
    assert_eq!(status.state, OpenOtPersistenceState::Faulted);
    assert_eq!(retries, 0);
    assert!(stops_after_error(&refused, retries, 3));
    let lost = PersistenceError::Connection("MySQL insert document: broken pipe".to_string());
    assert!(!stops_after_error(&lost, retries, 3));
}
