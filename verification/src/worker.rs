//! Decisions of the supervised persistence worker, kept apart from the
//! source and sink it drives: what one pass does next, and how a committed
//! batch and a maintenance pass update the cumulative counters.
//!
//! One pass (`begin`): a maintenance failure deferred from the previous
//! pass is reported first; otherwise a prepared batch whose commit failed
//! is retried before the source is polled again; otherwise the source is
//! polled, the durable cursor loaded, and the poll prepared. A prepared
//! batch that adds nothing beyond the durable cursor only runs maintenance.

use vstd::prelude::*;

use crate::contracts::{CommitOutcome, MaintenanceOutcome, PersistenceError};

verus! {

/// Mutable worker counters suitable for projection into runtime status.
#[derive(Debug, Clone, Copy, PartialEq, Eq, Structural)]
pub struct OpenOtPersistenceWorkerStatus {
    /// Canonical documents prepared from source records and loss accounting.
    pub documents_read: u64,
    /// Documents newly inserted by durable sink transactions.
    pub documents_committed: u64,
    /// Byte-identical documents accepted as idempotent duplicates.
    pub documents_duplicated: u64,
    /// Documents durable in a required local spool but not acknowledged remotely.
    pub remote_pending: u64,
    /// Descriptive public read-model rows newly committed by this worker.
    pub projection_rows_committed: u64,
    /// Future events committed with fields retained as unclassified.
    pub unclassified_event_count: u64,
    /// Delivery parts confirmed remotely during this worker lifetime.
    pub reconciled_part_count: u64,
    /// Delivery parts still awaiting remote confirmation.
    pub pending_part_count: u64,
    /// Malformed carriage records rejected by the source reader.
    pub rejected: u64,
    /// Placeholder documents emitted because resolution correctly failed closed.
    pub unresolved: u64,
    /// Distinct loss documents emitted by the converter.
    pub loss_range_count: u64,
    /// Source records represented by emitted loss documents.
    pub lost_record_count: u64,
    /// Last cursor durably acknowledged by the selected sink.
    pub cursor_abs: u64,
    /// Producer head observed by the most recent source poll.
    pub head_abs: u64,
}

pub open spec fn sat_add(a: u64, b: nat) -> u64 {
    if a + b <= u64::MAX {
        (a + b) as u64
    } else {
        u64::MAX
    }
}

pub open spec fn zero_worker_status() -> OpenOtPersistenceWorkerStatus {
    OpenOtPersistenceWorkerStatus {
        documents_read: 0,
        documents_committed: 0,
        documents_duplicated: 0,
        remote_pending: 0,
        projection_rows_committed: 0,
        unclassified_event_count: 0,
        reconciled_part_count: 0,
        pending_part_count: 0,
        rejected: 0,
        unresolved: 0,
        loss_range_count: 0,
        lost_record_count: 0,
        cursor_abs: 0,
        head_abs: 0,
    }
}

impl OpenOtPersistenceWorkerStatus {
    /// All counters zero.
    pub fn new() -> (r: Self)
        ensures
            r == zero_worker_status(),
    {
        OpenOtPersistenceWorkerStatus {
            documents_read: 0,
            documents_committed: 0,
            documents_duplicated: 0,
            remote_pending: 0,
            projection_rows_committed: 0,
            unclassified_event_count: 0,
            reconciled_part_count: 0,
            pending_part_count: 0,
            rejected: 0,
            unresolved: 0,
            loss_range_count: 0,
            lost_record_count: 0,
            cursor_abs: 0,
            head_abs: 0,
        }
    }
}

impl Default for OpenOtPersistenceWorkerStatus {
    fn default() -> (r: Self)
        ensures
            r == zero_worker_status(),
    {
        OpenOtPersistenceWorkerStatus::new()
    }
}

/// Counters after a durable commit (before the maintenance that follows it).
pub open spec fn after_commit(
    s: OpenOtPersistenceWorkerStatus,
    o: CommitOutcome,
) -> OpenOtPersistenceWorkerStatus {
    OpenOtPersistenceWorkerStatus {
        documents_read: sat_add(s.documents_read, (o.inserted + o.duplicated) as nat),
        documents_committed: sat_add(s.documents_committed, o.inserted as nat),
        documents_duplicated: sat_add(s.documents_duplicated, o.duplicated as nat),
        projection_rows_committed: sat_add(
            s.projection_rows_committed,
            o.projection_rows_committed as nat,
        ),
        unclassified_event_count: sat_add(s.unclassified_event_count, o.unclassified_events as nat),
        unresolved: sat_add(s.unresolved, o.unresolved_documents as nat),
        loss_range_count: sat_add(s.loss_range_count, o.loss_ranges as nat),
        lost_record_count: sat_add(s.lost_record_count, o.lost_records as nat),
        cursor_abs: o.checkpoint.cursor_abs,
        remote_pending: o.remote_pending as u64,
        pending_part_count: o.pending_parts as u64,
        ..s
    }
}

/// Counters after a successful maintenance pass.
pub open spec fn after_maintenance(
    s: OpenOtPersistenceWorkerStatus,
    m: MaintenanceOutcome,
) -> OpenOtPersistenceWorkerStatus {
    OpenOtPersistenceWorkerStatus {
        remote_pending: m.remote_pending as u64,
        reconciled_part_count: sat_add(s.reconciled_part_count, m.reconciled_parts as nat),
        pending_part_count: m.pending_parts as u64,
        ..s
    }
}

fn add_count(a: u64, b: usize) -> (r: u64)
    ensures
        r == sat_add(a, b as nat),
{
    a.saturating_add(b as u64)
}

/// Folds one durable commit into the cumulative counters.
pub fn record_commit(status: &mut OpenOtPersistenceWorkerStatus, outcome: &CommitOutcome)
    ensures
        *final(status) == after_commit(*old(status), *outcome),
{
    let read: u64 = (outcome.inserted as u64).saturating_add(outcome.duplicated as u64);
    status.documents_read = status.documents_read.saturating_add(read);
    assert(status.documents_read == sat_add(
        old(status).documents_read,
        (outcome.inserted + outcome.duplicated) as nat,
    ));
    status.documents_committed = add_count(status.documents_committed, outcome.inserted);
    status.documents_duplicated = add_count(status.documents_duplicated, outcome.duplicated);
    status.projection_rows_committed = add_count(
        status.projection_rows_committed,
        outcome.projection_rows_committed,
    );
    status.unclassified_event_count = add_count(
        status.unclassified_event_count,
        outcome.unclassified_events,
    );
    status.unresolved = add_count(status.unresolved, outcome.unresolved_documents);
    status.loss_range_count = add_count(status.loss_range_count, outcome.loss_ranges);
    status.lost_record_count = status.lost_record_count.saturating_add(outcome.lost_records);
    status.cursor_abs = outcome.checkpoint.cursor_abs;
    status.remote_pending = outcome.remote_pending as u64;
    status.pending_part_count = outcome.pending_parts as u64;
}

/// Folds one successful maintenance pass into the counters.
pub fn record_maintenance(status: &mut OpenOtPersistenceWorkerStatus, maintenance: &MaintenanceOutcome)
    ensures
        *final(status) == after_maintenance(*old(status), *maintenance),
{
    status.remote_pending = maintenance.remote_pending as u64;
    status.reconciled_part_count = add_count(
        status.reconciled_part_count,
        maintenance.reconciled_parts,
    );
    status.pending_part_count = maintenance.pending_parts as u64;
}

/// A prepared poll adds nothing when it holds no document and does not
/// move the cursor beyond the durable one.
pub open spec fn adds_nothing(document_count: nat, prepared_cursor: u64, durable_cursor: u64) -> bool {
    document_count == 0 && prepared_cursor <= durable_cursor
}

/// What one worker pass does first.
#[derive(Debug, Clone, PartialEq, Eq)]
pub enum WorkerStep {
    /// Report the maintenance failure deferred from the previous pass.
    ReportDeferred(PersistenceError),
    /// Retry the commit of the batch that is still pending.
    CommitPending,
    /// Poll the source for a new batch.
    Poll,
}

/// The worker's own state between passes: its counters, the prepared batch
/// whose commit has not yet succeeded, and a deferred maintenance failure.
pub struct WorkerCore<B> {
    status: OpenOtPersistenceWorkerStatus,
    pending: Option<B>,
    deferred: Option<PersistenceError>,
}

impl<B> WorkerCore<B> {
    pub closed spec fn counters(&self) -> OpenOtPersistenceWorkerStatus {
        self.status
    }

    pub closed spec fn pending_batch(&self) -> Option<B> {
        self.pending
    }

    pub closed spec fn deferred_error(&self) -> Option<PersistenceError> {
        self.deferred
    }

    /// A worker that has done nothing yet.
    pub fn new() -> (r: Self)
        ensures
            r.counters() == zero_worker_status(),
            r.pending_batch() is None,
            r.deferred_error() is None,
    {
        WorkerCore { status: OpenOtPersistenceWorkerStatus::new(), pending: None, deferred: None }
    }

    /// The latest counters.
    pub fn status(&self) -> (r: &OpenOtPersistenceWorkerStatus)
        ensures
            *r == self.counters(),
    {
        &self.status
    }

    /// The batch awaiting commit, if any.
    pub fn pending(&self) -> (r: Option<&B>)
        ensures
            match r {
                Some(b) => self.pending_batch() == Some(*b),
                None => self.pending_batch() is None,
            },
    {
        match &self.pending {
            Some(b) => Some(b),
            None => None,
        }
    }

    /// Chooses the first action of a pass; a deferred failure is taken out
    /// and reported exactly once.
    pub fn begin(&mut self) -> (r: WorkerStep)
        ensures
            match old(self).deferred_error() {
                Some(e) => r == WorkerStep::ReportDeferred(e) && final(self).deferred_error() is None,
                None => final(self).deferred_error() is None && if old(self).pending_batch() is Some {
                    r == WorkerStep::CommitPending
                } else {
                    r == WorkerStep::Poll
                },
            },
            final(self).counters() == old(self).counters(),
            final(self).pending_batch() == old(self).pending_batch(),
    {
        match self.deferred.take() {
            Some(error) => WorkerStep::ReportDeferred(error),
            None => if self.pending.is_some() {
                WorkerStep::CommitPending
            } else {
                WorkerStep::Poll
            },
        }
    }

    /// Records what a poll observed: the producer head and the cumulative
    /// number of rejected carriage records.
    pub fn observe_poll(&mut self, head_abs: u64, rejected_total: u64)
        ensures
            final(self).counters() == (OpenOtPersistenceWorkerStatus {
                head_abs,
                rejected: rejected_total,
                ..old(self).counters()
            }),
            final(self).pending_batch() == old(self).pending_batch(),
            final(self).deferred_error() == old(self).deferred_error(),
    {
        self.status.head_abs = head_abs;
        self.status.rejected = rejected_total;
    }

    /// Whether a prepared poll adds nothing beyond the durable cursor.
    pub fn is_idle(document_count: usize, prepared_cursor: u64, durable_cursor: u64) -> (r: bool)
        ensures
            r == adds_nothing(document_count as nat, prepared_cursor, durable_cursor),
    {
        document_count == 0 && prepared_cursor <= durable_cursor
    }

    /// An idle pass: the durable cursor stands and maintenance reports the
    /// remote backlog.
    pub fn record_idle(&mut self, durable_cursor: u64, maintenance: &MaintenanceOutcome)
        ensures
            final(self).counters() == after_maintenance(
                OpenOtPersistenceWorkerStatus { cursor_abs: durable_cursor, ..old(self).counters() },
                *maintenance,
            ),
            final(self).pending_batch() == old(self).pending_batch(),
            final(self).deferred_error() == old(self).deferred_error(),
    {
        self.status.cursor_abs = durable_cursor;
        record_maintenance(&mut self.status, maintenance);
    }

    /// Keeps a prepared batch until its commit succeeds.
    pub fn stage(&mut self, batch: B)
        ensures
            final(self).pending_batch() == Some(batch),
            final(self).counters() == old(self).counters(),
            final(self).deferred_error() == old(self).deferred_error(),
    {
        self.pending = Some(batch);
    }

    /// A durable commit of the pending batch succeeded; the batch is
    /// released, the counters advance, and the maintenance that follows is
    /// folded in (its failure is deferred to the next pass, after the
    /// commit has been published). Returns the outcome to report.
    pub fn record_committed(
        &mut self,
        outcome: CommitOutcome,
        maintenance: Result<MaintenanceOutcome, PersistenceError>,
    ) -> (r: CommitOutcome)
        ensures
            final(self).pending_batch() is None,
            match maintenance {
                Ok(m) => {
                    &&& final(self).counters() == after_maintenance(
                        after_commit(old(self).counters(), outcome),
                        m,
                    )
                    &&& r == (CommitOutcome {
                        remote_pending: m.remote_pending,
                        pending_parts: m.pending_parts,
                        ..outcome
                    })
                    &&& final(self).deferred_error() == old(self).deferred_error()
                },
                Err(e) => {
                    &&& final(self).counters() == after_commit(old(self).counters(), outcome)
                    &&& r == outcome
                    &&& final(self).deferred_error() == Some(e)
                },
            },
    {
        self.pending = None;
        record_commit(&mut self.status, &outcome);
        let mut reported = outcome;
        match maintenance {
            Ok(m) => {
                reported.remote_pending = m.remote_pending;
                reported.pending_parts = m.pending_parts;
                record_maintenance(&mut self.status, &m);
            },
            Err(error) => {
                self.deferred = Some(error);
            },
        }
        reported
    }
}

/// Cumulative counters never decrease across a commit.
pub proof fn law_commit_counters_never_decrease(
    s: OpenOtPersistenceWorkerStatus,
    o: CommitOutcome,
)
    ensures
        after_commit(s, o).documents_read >= s.documents_read,
        after_commit(s, o).documents_committed >= s.documents_committed,
        after_commit(s, o).documents_duplicated >= s.documents_duplicated,
        after_commit(s, o).projection_rows_committed >= s.projection_rows_committed,
        after_commit(s, o).unclassified_event_count >= s.unclassified_event_count,
        after_commit(s, o).unresolved >= s.unresolved,
        after_commit(s, o).loss_range_count >= s.loss_range_count,
        after_commit(s, o).lost_record_count >= s.lost_record_count,
        after_commit(s, o).reconciled_part_count == s.reconciled_part_count,
{
}

} // verus!
