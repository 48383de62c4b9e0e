//! Observable lifecycle and status of the persistence service, and the
//! supervision decisions of its worker loop: how a worker snapshot and a
//! failure are projected into status, how retries back off and when the
//! retry budget is spent, and how shutdown concludes.

use vstd::prelude::*;

use crate::contracts::PersistenceError;
use crate::redaction::{redacted_error, redacted_text};
use crate::text::{decimal, push_decimal};
use crate::worker::{sat_add, OpenOtPersistenceWorkerStatus};

verus! {

/// Observable lifecycle of the persistence service.
#[derive(Debug, Clone, Copy, PartialEq, Eq, Structural)]
pub enum OpenOtPersistenceState {
    /// No worker exists because persistence is disabled.
    Disabled,
    /// Startup validation or backend migration is in progress.
    Starting,
    /// The worker is reachable, migrated, and caught up.
    Ready,
    /// Durable cursor trails the observed producer head and is making progress.
    CatchingUp,
    /// Persistence is running with pressure, loss, or unresolved data.
    Degraded,
    /// A transient failure is waiting for the next bounded retry.
    Retrying,
    /// Shutdown completed.
    Stopped,
    /// An unrecoverable persistence error stopped progress.
    Faulted,
}

pub open spec fn state_name(state: OpenOtPersistenceState) -> Seq<char> {
    match state {
        OpenOtPersistenceState::Disabled => "disabled"@,
        OpenOtPersistenceState::Starting => "starting"@,
        OpenOtPersistenceState::Ready => "ready"@,
        OpenOtPersistenceState::CatchingUp => "catching_up"@,
        OpenOtPersistenceState::Degraded => "degraded"@,
        OpenOtPersistenceState::Retrying => "retrying"@,
        OpenOtPersistenceState::Stopped => "stopped"@,
        OpenOtPersistenceState::Faulted => "faulted"@,
    }
}

impl OpenOtPersistenceState {
    /// Stable lowercase control/status representation.
    pub fn as_str(self) -> (r: &'static str)
        ensures
            r@ == state_name(self),
    {
        match self {
            OpenOtPersistenceState::Disabled => "disabled",
            OpenOtPersistenceState::Starting => "starting",
            OpenOtPersistenceState::Ready => "ready",
            OpenOtPersistenceState::CatchingUp => "catching_up",
            OpenOtPersistenceState::Degraded => "degraded",
            OpenOtPersistenceState::Retrying => "retrying",
            OpenOtPersistenceState::Stopped => "stopped",
            OpenOtPersistenceState::Faulted => "faulted",
        }
    }
}

/// Status snapshot projected by the runtime host.
#[derive(Debug, Clone, PartialEq, Eq)]
pub struct OpenOtPersistenceStatus {
    /// Current service lifecycle.
    pub state: OpenOtPersistenceState,
    /// TOML-selected backend name, absent when disabled.
    pub backend: Option<String>,
    /// Compatible schema version, absent until a selected sink opens.
    pub schema_version: Option<u32>,
    /// Canonical documents prepared by the worker.
    pub documents_read: u64,
    /// Documents newly committed by the selected sink.
    pub documents_committed: u64,
    /// Idempotent duplicate documents observed by the sink.
    pub documents_duplicated: u64,
    /// Documents durable in a required local spool but not acknowledged remotely.
    pub remote_pending: u64,
    /// Descriptive public read-model rows newly committed by this runtime.
    pub projection_rows_committed: u64,
    /// Future event records retained with fields that could not be classified.
    pub unclassified_event_count: u64,
    /// Durable remote-delivery parts confirmed by reconciliation.
    pub reconciled_part_count: u64,
    /// Durable remote-delivery parts still awaiting reconciliation.
    pub pending_part_count: u64,
    /// Retry attempts made after transient failures.
    pub documents_retried: u64,
    /// Source-ring bytes observed beyond the last durable cursor.
    pub pending: u64,
    /// Malformed carriage records rejected by the raw reader.
    pub rejected: u64,
    /// Placeholder documents preserved without guessed meaning.
    pub unresolved: u64,
    /// Queryable loss ranges emitted by loss accounting.
    pub loss_range_count: u64,
    /// Total records represented by emitted loss ranges.
    pub lost_record_count: u64,
    /// Last durable carriage cursor.
    pub cursor_abs: u64,
    /// Most recently observed producer head.
    pub head_abs: u64,
    /// Host timestamp of the most recent successful commit.
    pub last_success_time_ns: Option<u64>,
    /// Redacted actionable error, when faulted.
    pub last_error: Option<String>,
}

impl OpenOtPersistenceStatus {
    /// The status of a service whose worker has not opened its sink yet.
    pub fn starting(backend: Option<String>) -> (r: Self)
        ensures
            r.state == OpenOtPersistenceState::Starting,
            r.backend == backend,
            r.schema_version is None,
            r.documents_read == 0 && r.documents_committed == 0 && r.documents_duplicated == 0,
            r.remote_pending == 0 && r.projection_rows_committed == 0,
            r.unclassified_event_count == 0 && r.reconciled_part_count == 0,
            r.pending_part_count == 0 && r.documents_retried == 0 && r.pending == 0,
            r.rejected == 0 && r.unresolved == 0 && r.loss_range_count == 0,
            r.lost_record_count == 0 && r.cursor_abs == 0 && r.head_abs == 0,
            r.last_success_time_ns is None,
            r.last_error is None,
    {
        OpenOtPersistenceStatus {
            state: OpenOtPersistenceState::Starting,
            backend,
            schema_version: None,
            documents_read: 0,
            documents_committed: 0,
            documents_duplicated: 0,
            remote_pending: 0,
            projection_rows_committed: 0,
            unclassified_event_count: 0,
            reconciled_part_count: 0,
            pending_part_count: 0,
            documents_retried: 0,
            pending: 0,
            rejected: 0,
            unresolved: 0,
            loss_range_count: 0,
            lost_record_count: 0,
            cursor_abs: 0,
            head_abs: 0,
            last_success_time_ns: None,
            last_error: None,
        }
    }

    /// The status reported when the shared status cannot be read.
    pub fn unreadable() -> (r: Self)
        ensures
            r.state == OpenOtPersistenceState::Faulted,
            r.backend is None,
            r.schema_version is None,
            r.documents_read == 0 && r.documents_committed == 0 && r.documents_duplicated == 0,
            r.remote_pending == 0 && r.projection_rows_committed == 0,
            r.unclassified_event_count == 0 && r.reconciled_part_count == 0,
            r.pending_part_count == 0 && r.documents_retried == 0 && r.pending == 0,
            r.rejected == 0 && r.unresolved == 0 && r.loss_range_count == 0,
            r.lost_record_count == 0 && r.cursor_abs == 0 && r.head_abs == 0,
            r.last_success_time_ns is None,
            r.last_error matches Some(m) && m@ == "persistence status lock poisoned"@,
    {
        let mut status = OpenOtPersistenceStatus::starting(None);
        status.state = OpenOtPersistenceState::Faulted;
        let mut m = String::new();
        m.append("persistence status lock poisoned");
        status.last_error = Some(m);
        status
    }
}

/// Counters carried over from workers that were replaced after a failure,
/// so that status stays cumulative across reconnects.
#[derive(Debug, Clone, Copy, PartialEq, Eq, Structural)]
pub struct ReconnectTotals {
    pub documents_read: u64,
    pub documents_committed: u64,
    pub documents_duplicated: u64,
    pub projection_rows_committed: u64,
    pub unclassified_event_count: u64,
    pub reconciled_part_count: u64,
    pub rejected: u64,
    pub unresolved: u64,
    pub loss_range_count: u64,
    pub lost_record_count: u64,
}

pub open spec fn accumulated(t: ReconnectTotals, s: OpenOtPersistenceWorkerStatus) -> ReconnectTotals {
    ReconnectTotals {
        documents_read: sat_add(t.documents_read, s.documents_read as nat),
        documents_committed: sat_add(t.documents_committed, s.documents_committed as nat),
        documents_duplicated: sat_add(t.documents_duplicated, s.documents_duplicated as nat),
        projection_rows_committed: sat_add(
            t.projection_rows_committed,
            s.projection_rows_committed as nat,
        ),
        unclassified_event_count: sat_add(t.unclassified_event_count, s.unclassified_event_count as nat),
        reconciled_part_count: sat_add(t.reconciled_part_count, s.reconciled_part_count as nat),
        rejected: sat_add(t.rejected, s.rejected as nat),
        unresolved: sat_add(t.unresolved, s.unresolved as nat),
        loss_range_count: sat_add(t.loss_range_count, s.loss_range_count as nat),
        lost_record_count: sat_add(t.lost_record_count, s.lost_record_count as nat),
    }
}

fn sat(a: u64, b: u64) -> (r: u64)
    ensures
        r == sat_add(a, b as nat),
{
    a.saturating_add(b)
}

impl ReconnectTotals {
    /// Nothing carried over yet.
    pub fn new() -> (r: Self)
        ensures
            r.documents_read == 0 && r.documents_committed == 0 && r.documents_duplicated == 0,
            r.projection_rows_committed == 0 && r.unclassified_event_count == 0,
            r.reconciled_part_count == 0 && r.rejected == 0 && r.unresolved == 0,
            r.loss_range_count == 0 && r.lost_record_count == 0,
    {
        ReconnectTotals {
            documents_read: 0,
            documents_committed: 0,
            documents_duplicated: 0,
            projection_rows_committed: 0,
            unclassified_event_count: 0,
            reconciled_part_count: 0,
            rejected: 0,
            unresolved: 0,
            loss_range_count: 0,
            lost_record_count: 0,
        }
    }

    /// Adds the counters of a worker that is being replaced.
    pub fn accumulate(&mut self, status: &OpenOtPersistenceWorkerStatus)
        ensures
            *final(self) == accumulated(*old(self), *status),
    {
        self.documents_read = sat(self.documents_read, status.documents_read);
        self.documents_committed = sat(self.documents_committed, status.documents_committed);
        self.documents_duplicated = sat(self.documents_duplicated, status.documents_duplicated);
        self.projection_rows_committed = sat(
            self.projection_rows_committed,
            status.projection_rows_committed,
        );
        self.unclassified_event_count = sat(
            self.unclassified_event_count,
            status.unclassified_event_count,
        );
        self.reconciled_part_count = sat(self.reconciled_part_count, status.reconciled_part_count);
        self.rejected = sat(self.rejected, status.rejected);
        self.unresolved = sat(self.unresolved, status.unresolved);
        self.loss_range_count = sat(self.loss_range_count, status.loss_range_count);
        self.lost_record_count = sat(self.lost_record_count, status.lost_record_count);
    }
}

/// The lifecycle state a healthy worker pass implies: loss or unresolved
/// data degrades the service, lag or remote backlog means catching up.
pub open spec fn running_state(unresolved: u64, loss_ranges: u64, pending: u64, remote_pending: u64)
    -> OpenOtPersistenceState
{
    if unresolved > 0 || loss_ranges > 0 {
        OpenOtPersistenceState::Degraded
    } else if pending > 0 || remote_pending > 0 {
        OpenOtPersistenceState::CatchingUp
    } else {
        OpenOtPersistenceState::Ready
    }
}

pub open spec fn sat_sub(a: u64, b: u64) -> u64 {
    if a >= b {
        (a - b) as u64
    } else {
        0
    }
}

/// The status after a successful worker pass: the counters carried over
/// from replaced workers plus the live worker's, its cursor, head and lag,
/// the lifecycle state they imply, and no error.
pub open spec fn snapshot_applied(
    before: OpenOtPersistenceStatus,
    after: OpenOtPersistenceStatus,
    snapshot: OpenOtPersistenceWorkerStatus,
    reconnect: ReconnectTotals,
    committed_this_pass: bool,
    now_ns: u64,
) -> bool {
    &&& after.documents_read == sat_add(reconnect.documents_read, snapshot.documents_read as nat)
    &&& after.documents_committed == sat_add(
        reconnect.documents_committed,
        snapshot.documents_committed as nat,
    )
    &&& after.documents_duplicated == sat_add(
        reconnect.documents_duplicated,
        snapshot.documents_duplicated as nat,
    )
    &&& after.remote_pending == snapshot.remote_pending
    &&& after.projection_rows_committed == sat_add(
        reconnect.projection_rows_committed,
        snapshot.projection_rows_committed as nat,
    )
    &&& after.unclassified_event_count == sat_add(
        reconnect.unclassified_event_count,
        snapshot.unclassified_event_count as nat,
    )
    &&& after.reconciled_part_count == sat_add(
        reconnect.reconciled_part_count,
        snapshot.reconciled_part_count as nat,
    )
    &&& after.pending_part_count == snapshot.pending_part_count
    &&& after.rejected == sat_add(reconnect.rejected, snapshot.rejected as nat)
    &&& after.unresolved == sat_add(reconnect.unresolved, snapshot.unresolved as nat)
    &&& after.loss_range_count == sat_add(
        reconnect.loss_range_count,
        snapshot.loss_range_count as nat,
    )
    &&& after.lost_record_count == sat_add(
        reconnect.lost_record_count,
        snapshot.lost_record_count as nat,
    )
    &&& after.cursor_abs == snapshot.cursor_abs
    &&& after.head_abs == snapshot.head_abs
    &&& after.pending == sat_sub(snapshot.head_abs, snapshot.cursor_abs)
    &&& after.state == running_state(
        after.unresolved,
        after.loss_range_count,
        after.pending,
        after.remote_pending,
    )
    &&& after.last_success_time_ns == if committed_this_pass {
        Some(now_ns)
    } else {
        before.last_success_time_ns
    }
    &&& after.last_error is None
    &&& after.backend == before.backend
    &&& after.schema_version == before.schema_version
    &&& after.documents_retried == before.documents_retried
}

/// Projects a successful worker pass into the service status.
pub fn apply_worker_snapshot(
    status: &mut OpenOtPersistenceStatus,
    snapshot: &OpenOtPersistenceWorkerStatus,
    reconnect: &ReconnectTotals,
    committed_this_pass: bool,
    now_ns: u64,
)
    ensures
        snapshot_applied(*old(status), *final(status), *snapshot, *reconnect, committed_this_pass, now_ns),
{
    status.documents_read = sat(reconnect.documents_read, snapshot.documents_read);
    status.documents_committed = sat(reconnect.documents_committed, snapshot.documents_committed);
    status.documents_duplicated = sat(reconnect.documents_duplicated, snapshot.documents_duplicated);
    status.remote_pending = snapshot.remote_pending;
    status.projection_rows_committed = sat(
        reconnect.projection_rows_committed,
        snapshot.projection_rows_committed,
    );
    status.unclassified_event_count = sat(
        reconnect.unclassified_event_count,
        snapshot.unclassified_event_count,
    );
    status.reconciled_part_count = sat(reconnect.reconciled_part_count, snapshot.reconciled_part_count);
    status.pending_part_count = snapshot.pending_part_count;
    status.rejected = sat(reconnect.rejected, snapshot.rejected);
    status.unresolved = sat(reconnect.unresolved, snapshot.unresolved);
    status.loss_range_count = sat(reconnect.loss_range_count, snapshot.loss_range_count);
    status.lost_record_count = sat(reconnect.lost_record_count, snapshot.lost_record_count);
    status.cursor_abs = snapshot.cursor_abs;
    status.head_abs = snapshot.head_abs;
    status.pending = snapshot.head_abs.saturating_sub(snapshot.cursor_abs);
    status.state = if status.unresolved > 0 || status.loss_range_count > 0 {
        OpenOtPersistenceState::Degraded
    } else if status.pending > 0 || status.remote_pending > 0 {
        OpenOtPersistenceState::CatchingUp
    } else {
        OpenOtPersistenceState::Ready
    };
    if committed_this_pass {
        status.last_success_time_ns = Some(now_ns);
    }
    status.last_error = None;
}

/// Failures a reconnect and retry may repair: lost or refused connections.
/// Every other failure, a refused commit or an incompatible schema among
/// them, is permanent and faults the service without spending the budget.
pub open spec fn is_transient(error: PersistenceError) -> bool {
    error is Connection
}

pub open spec fn retries_after(retries: u32, error: PersistenceError) -> u32 {
    if is_transient(error) {
        if retries < u32::MAX {
            (retries + 1) as u32
        } else {
            u32::MAX
        }
    } else {
        retries
    }
}

/// The retry budget is spent by a transient failure once the consecutive
/// failures reach the configured number of attempts.
pub open spec fn budget_exhausted(retries_now: u32, error: PersistenceError, max_attempts: u32) -> bool {
    is_transient(error) && retries_now >= max_attempts
}

pub open spec fn exhausted_text(retries: u32) -> Seq<char> {
    "OpenOT persistence retry budget exhausted after "@ + decimal(retries as nat)
        + " consecutive failures"@
}

/// The status after a failed pass: a transient failure counts one more
/// consecutive retry and leaves the service retrying until the budget is
/// spent; any other failure faults it. The error shown is the redacted one,
/// or the exhausted budget. Counters, cursor and lag stand.
pub open spec fn error_applied(
    before: OpenOtPersistenceStatus,
    after: OpenOtPersistenceStatus,
    error: PersistenceError,
    retries_before: u32,
    retries_now: u32,
    retry_max_attempts: u32,
) -> bool {
    &&& retries_now == retries_after(retries_before, error)
    &&& after.state == if is_transient(error) && !budget_exhausted(retries_now, error, retry_max_attempts) {
        OpenOtPersistenceState::Retrying
    } else {
        OpenOtPersistenceState::Faulted
    }
    &&& after.documents_retried == if is_transient(error) {
        sat_add(before.documents_retried, 1)
    } else {
        before.documents_retried
    }
    &&& after.last_error matches Some(m) && m@ == if budget_exhausted(retries_now, error, retry_max_attempts) {
        exhausted_text(retries_now)
    } else {
        redacted_text(error)
    }
    &&& after.documents_read == before.documents_read
    &&& after.documents_committed == before.documents_committed
    &&& after.cursor_abs == before.cursor_abs
    &&& after.head_abs == before.head_abs
    &&& after.pending == before.pending
    &&& after.remote_pending == before.remote_pending
    &&& after.last_success_time_ns == before.last_success_time_ns
}

/// Projects a worker failure into status and counts a transient failure
/// against the retry budget.
pub fn apply_worker_error(
    status: &mut OpenOtPersistenceStatus,
    error: &PersistenceError,
    consecutive_retries: &mut u32,
    retry_max_attempts: u32,
)
    ensures
        error_applied(
            *old(status),
            *final(status),
            *error,
            *old(consecutive_retries),
            *final(consecutive_retries),
            retry_max_attempts,
        ),
{
    let transient = match error {
        PersistenceError::Connection(_) => true,
        _ => false,
    };
    if transient {
        *consecutive_retries = consecutive_retries.saturating_add(1);
    }
    let exhausted = transient && *consecutive_retries >= retry_max_attempts;
    status.state = if transient && !exhausted {
        OpenOtPersistenceState::Retrying
    } else {
        OpenOtPersistenceState::Faulted
    };
    if transient {
        status.documents_retried = status.documents_retried.saturating_add(1);
    }
    if exhausted {
        let mut m = String::new();
        m.append("OpenOT persistence retry budget exhausted after ");
        push_decimal(&mut m, *consecutive_retries as u64);
        m.append(" consecutive failures");
        assert(m@ =~= exhausted_text(*consecutive_retries));
        status.last_error = Some(m);
    } else {
        status.last_error = Some(redacted_error(error));
    }
}

/// Whether the worker loop stops after a failure: on a permanent failure,
/// or when the retry budget is spent.
pub fn stops_after_error(error: &PersistenceError, consecutive_retries: u32, retry_max_attempts: u32) -> (r: bool)
    ensures
        r == (!is_transient(*error) || consecutive_retries >= retry_max_attempts),
{
    let transient = match error {
        PersistenceError::Connection(_) => true,
        _ => false,
    };
    !transient || consecutive_retries >= retry_max_attempts
}

/// The next backoff delay: the current one times the multiplier, capped.
pub open spec fn backoff(delay_ms: u64, multiplier: u32, max_ms: u64) -> u64 {
    if delay_ms * multiplier <= max_ms {
        (delay_ms * multiplier) as u64
    } else {
        max_ms
    }
}

pub fn next_retry_delay(delay_ms: u64, multiplier: u32, max_ms: u64) -> (r: u64)
    ensures
        r == backoff(delay_ms, multiplier, max_ms),
{
    let scaled = match delay_ms.checked_mul(multiplier as u64) {
        Some(value) => value,
        None => max_ms,
    };
    if scaled < max_ms {
        scaled
    } else {
        max_ms
    }
}

/// During shutdown the worker stops once the cursor reaches the producer
/// head observed when the drain began and no remote delivery is pending.
pub fn drain_complete(snapshot: &OpenOtPersistenceWorkerStatus, target_head: u64) -> (r: bool)
    ensures
        r == (snapshot.cursor_abs >= target_head && snapshot.remote_pending == 0
            && snapshot.pending_part_count == 0),
{
    snapshot.cursor_abs >= target_head && snapshot.remote_pending == 0
        && snapshot.pending_part_count == 0
}

pub open spec fn shutdown_timeout_text(pending: u64, remote_pending: u64) -> Seq<char> {
    "OpenOT persistence shutdown timed out with "@ + decimal(pending as nat) + " source bytes and "@
        + decimal(remote_pending as nat) + " remote documents pending"@
}

/// Concludes shutdown: stopped, or faulted when the worker did not finish
/// draining before the deadline.
pub fn finish_shutdown(status: &mut OpenOtPersistenceStatus, timed_out: bool)
    ensures
        timed_out ==> final(status).state == OpenOtPersistenceState::Faulted
            && (final(status).last_error matches Some(m) && m@ == shutdown_timeout_text(
            old(status).pending,
            old(status).remote_pending,
        )),
        !timed_out ==> final(status).state == OpenOtPersistenceState::Stopped
            && final(status).last_error == old(status).last_error,
        final(status).pending == old(status).pending,
        final(status).remote_pending == old(status).remote_pending,
        final(status).documents_committed == old(status).documents_committed,
{
    if timed_out {
        status.state = OpenOtPersistenceState::Faulted;
        let mut m = String::new();
        m.append("OpenOT persistence shutdown timed out with ");
        push_decimal(&mut m, status.pending);
        m.append(" source bytes and ");
        push_decimal(&mut m, status.remote_pending);
        m.append(" remote documents pending");
        assert(m@ =~= shutdown_timeout_text(status.pending, status.remote_pending));
        status.last_error = Some(m);
    } else {
        status.state = OpenOtPersistenceState::Stopped;
    }
}

/// Starting from no failures, `k` consecutive transient failures leave the
/// service retrying while `k` is below the configured attempts and faulted
/// from then on.
pub proof fn law_retry_budget(k: u32, max_attempts: u32, error: PersistenceError)
    requires
        is_transient(error),
        k >= 1,
    ensures
        budget_exhausted(k, error, max_attempts) <==> k >= max_attempts,
        retries_after((k - 1) as u32, error) == k,
{
}

/// Loss or unresolved data always shows as degraded, whatever the lag.
pub proof fn law_loss_dominates_lag(unresolved: u64, loss_ranges: u64, pending: u64, remote: u64)
    requires
        unresolved > 0 || loss_ranges > 0,
    ensures
        running_state(unresolved, loss_ranges, pending, remote) == OpenOtPersistenceState::Degraded,
{
}

/// After a successful pass the service is ready exactly when nothing is
/// missing: no unresolved record, no loss range, the cursor at the head and
/// no document still awaiting remote delivery; with no unresolved record
/// and no loss it is catching up exactly while the cursor trails the head
/// or the remote backlog is not empty.
pub proof fn law_ready_only_when_caught_up_and_delivered(
    before: OpenOtPersistenceStatus,
    after: OpenOtPersistenceStatus,
    snapshot: OpenOtPersistenceWorkerStatus,
    reconnect: ReconnectTotals,
    committed_this_pass: bool,
    now_ns: u64,
)
    requires
        snapshot_applied(before, after, snapshot, reconnect, committed_this_pass, now_ns),
    ensures
        (after.state == OpenOtPersistenceState::Ready) == (after.unresolved == 0 && after.loss_range_count == 0
            && snapshot.cursor_abs >= snapshot.head_abs && snapshot.remote_pending == 0),
        after.unresolved == 0 && after.loss_range_count == 0 ==> ((after.state
            == OpenOtPersistenceState::CatchingUp) == (snapshot.cursor_abs < snapshot.head_abs
            || snapshot.remote_pending > 0)),
        snapshot.remote_pending > 0 ==> after.state != OpenOtPersistenceState::Ready,
{
}

} // verus!
