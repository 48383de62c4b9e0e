//! The decisions of the service loop that supervises the persistence worker:
//! reopening the sink after failures with a bounded, growing delay, folding
//! each pass into the shared status, and draining up to the producer head
//! seen when shutdown was requested. The host runs the loop itself (opening
//! sinks, running passes, sleeping) and hands each outcome to these methods.

use vstd::prelude::*;
use crate::contracts::PersistenceError;
use crate::status::{
    accumulated, apply_worker_error, apply_worker_snapshot, backoff, drain_complete, error_applied,
    is_transient, next_retry_delay, snapshot_applied, stops_after_error, OpenOtPersistenceStatus,
    ReconnectTotals,
};
use crate::worker::OpenOtPersistenceWorkerStatus;

verus! {

/// Timing and retry settings of the loop, in milliseconds.
#[derive(Debug, Clone, Copy, PartialEq, Eq, Structural)]
pub struct LoopPolicy {
    pub flush_interval_ms: u64,
    pub retry_initial_ms: u64,
    pub retry_max_ms: u64,
    pub retry_multiplier: u32,
    pub retry_max_attempts: u32,
}

/// What the loop does next.
#[derive(Debug, Clone, Copy, PartialEq, Eq, Structural)]
pub enum LoopAction {
    /// Run the next pass at once.
    Continue,
    /// Sleep this many milliseconds (or until woken), then go on.
    Sleep(u64),
    /// Leave the loop.
    Exit,
}

/// The loop's own state between events.
#[derive(Debug, Clone, Copy, PartialEq, Eq, Structural)]
pub struct Supervisor {
    pub policy: LoopPolicy,
    /// The wait before the next reconnect.
    pub retry_delay_ms: u64,
    /// Transient failures since the last successful pass.
    pub consecutive_retries: u32,
    /// Counters of the workers replaced so far.
    pub totals: ReconnectTotals,
    /// The producer head the drain must reach, fixed by the first pass after
    /// shutdown was requested.
    pub drain_target: Option<u64>,
}

pub open spec fn no_totals() -> ReconnectTotals {
    ReconnectTotals {
        documents_read: 0,
        documents_committed: 0,
        documents_duplicated: 0,
        projection_rows_committed: 0,
        unclassified_event_count: 0,
        reconciled_part_count: 0,
        rejected: 0,
        unresolved: 0,
        loss_range_count: 0,
        lost_record_count: 0,
    }
}

/// The loop stops after a failure that is permanent or spends the budget.
pub open spec fn stops(error: PersistenceError, retries_now: u32, retry_max_attempts: u32) -> bool {
    !is_transient(error) || retries_now >= retry_max_attempts
}

/// The drain is done: the cursor reached the target and nothing waits for
/// remote delivery.
pub open spec fn drained(snapshot: OpenOtPersistenceWorkerStatus, target: u64) -> bool {
    snapshot.cursor_abs >= target && snapshot.remote_pending == 0 && snapshot.pending_part_count == 0
}

impl Supervisor {
    /// A loop that has not opened a worker yet.
    pub fn new(policy: LoopPolicy) -> (r: Self)
        ensures
            r.policy == policy,
            r.retry_delay_ms == policy.retry_initial_ms,
            r.consecutive_retries == 0,
            r.totals == no_totals(),
            r.drain_target is None,
    {
        Supervisor {
            policy,
            retry_delay_ms: policy.retry_initial_ms,
            consecutive_retries: 0,
            totals: ReconnectTotals::new(),
            drain_target: None,
        }
    }

    /// The worker opened its sink at `schema_version`; the next pass runs at
    /// once.
    pub fn worker_opened(&self, status: &mut OpenOtPersistenceStatus, schema_version: u32) -> (a: LoopAction)
        ensures
            *final(status) == (OpenOtPersistenceStatus { schema_version: Some(schema_version), ..*old(status) }),
            a == LoopAction::Continue,
    {
        status.schema_version = Some(schema_version);
        LoopAction::Continue
    }

    /// Opening the worker failed (`failed` is `None`), or a pass of the
    /// worker failed (`failed` holds its counters, which are carried over
    /// before it is dropped). A permanent failure or a spent budget ends the
    /// loop; otherwise the loop sleeps for the current delay, which then
    /// grows by the multiplier up to its ceiling.
    pub fn worker_failed(
        &mut self,
        status: &mut OpenOtPersistenceStatus,
        error: &PersistenceError,
        failed: Option<&OpenOtPersistenceWorkerStatus>,
    ) -> (a: LoopAction)
        ensures
            error_applied(
                *old(status),
                *final(status),
                *error,
                old(self).consecutive_retries,
                final(self).consecutive_retries,
                old(self).policy.retry_max_attempts,
            ),
            final(self).policy == old(self).policy,
            final(self).drain_target == old(self).drain_target,
            stops(*error, final(self).consecutive_retries, old(self).policy.retry_max_attempts) ==> {
                &&& a == LoopAction::Exit
                &&& final(self).totals == old(self).totals
                &&& final(self).retry_delay_ms == old(self).retry_delay_ms
            },
            !stops(*error, final(self).consecutive_retries, old(self).policy.retry_max_attempts) ==> {
                &&& a == LoopAction::Sleep(old(self).retry_delay_ms)
                &&& final(self).retry_delay_ms == backoff(
                    old(self).retry_delay_ms,
                    old(self).policy.retry_multiplier,
                    old(self).policy.retry_max_ms,
                )
                &&& final(self).totals == match failed {
                    Some(w) => accumulated(old(self).totals, *w),
                    None => old(self).totals,
                }
            },
    {
        let max_attempts = self.policy.retry_max_attempts;
        apply_worker_error(status, error, &mut self.consecutive_retries, max_attempts);
        if stops_after_error(error, self.consecutive_retries, max_attempts) {
            return LoopAction::Exit;
        }
        if let Some(w) = failed {
            self.totals.accumulate(w);
        }
        let wait = self.retry_delay_ms;
        self.retry_delay_ms = next_retry_delay(
            self.retry_delay_ms,
            self.policy.retry_multiplier,
            self.policy.retry_max_ms,
        );
        LoopAction::Sleep(wait)
    }

    /// A pass succeeded: the retry budget and delay reset and the status
    /// shows the live counters. Without a stop request the loop waits for
    /// the flush interval; after one it keeps running until the cursor
    /// reaches the head seen at the first pass after the request and the
    /// remote backlog is empty.
    pub fn pass_succeeded(
        &mut self,
        status: &mut OpenOtPersistenceStatus,
        snapshot: &OpenOtPersistenceWorkerStatus,
        committed_this_pass: bool,
        now_ns: u64,
        stop_requested: bool,
    ) -> (a: LoopAction)
        ensures
            snapshot_applied(*old(status), *final(status), *snapshot, old(self).totals, committed_this_pass, now_ns),
            final(self).policy == old(self).policy,
            final(self).retry_delay_ms == old(self).policy.retry_initial_ms,
            final(self).consecutive_retries == 0,
            final(self).totals == old(self).totals,
            stop_requested ==> {
                let target = match old(self).drain_target {
                    Some(t) => t,
                    None => snapshot.head_abs,
                };
                &&& final(self).drain_target == Some(target)
                &&& a == if drained(*snapshot, target) {
                    LoopAction::Exit
                } else {
                    LoopAction::Continue
                }
            },
            !stop_requested ==> final(self).drain_target == old(self).drain_target && a == LoopAction::Sleep(
                old(self).policy.flush_interval_ms,
            ),
    {
        self.retry_delay_ms = self.policy.retry_initial_ms;
        self.consecutive_retries = 0;
        apply_worker_snapshot(status, snapshot, &self.totals, committed_this_pass, now_ns);
        if stop_requested {
            let target = match self.drain_target {
                Some(t) => t,
                None => snapshot.head_abs,
            };
            self.drain_target = Some(target);
            if drain_complete(snapshot, target) {
                LoopAction::Exit
            } else {
                LoopAction::Continue
            }
        } else {
            LoopAction::Sleep(self.policy.flush_interval_ms)
        }
    }
}

/// A reconnect wait that starts at or below the ceiling stays at or below
/// it, and with a multiplier of at least one it never shrinks.
pub proof fn law_reconnect_delay_is_bounded(delay_ms: u64, multiplier: u32, max_ms: u64)
    requires
        delay_ms <= max_ms,
        multiplier >= 1,
    ensures
        backoff(delay_ms, multiplier, max_ms) <= max_ms,
        delay_ms <= backoff(delay_ms, multiplier, max_ms),
{
    assert(delay_ms * multiplier >= delay_ms) by (nonlinear_arith)
        requires
            multiplier >= 1,
    ;
}

} // verus!
