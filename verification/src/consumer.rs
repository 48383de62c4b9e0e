//! The decisions the carriage consumer makes around record resolution: which
//! definition an epoch is bound to, which definition (and semantic version)
//! a record is resolved against, which records are new beyond the durable
//! cursor, and which loss ranges have not been emitted yet.
//!
//! Definition content hashes are carried as the big-endian `u64` of their
//! eight bytes.

use std::collections::BTreeSet;
use vstd::prelude::*;
use crate::contracts::{PersistenceCheckpoint, PersistenceError};
use crate::text::{decimal, push_decimal};

verus! {

broadcast use {vstd::std_specs::btree::group_btree_axioms, vstd::laws_cmp::group_laws_cmp};

/// The control-block fields that bind an epoch to a definition.
#[derive(Debug, Clone, Copy, PartialEq, Eq, Structural)]
pub struct EpochBinding {
    pub run_id: u64,
    pub epoch_id: u64,
    pub definition_hash: u64,
    pub prev_definition_hash: u64,
    /// First absolute ring position of the current epoch.
    pub epoch_first_abs: u64,
}

/// The definition hash of the current epoch: a producer that has not yet
/// published any run, epoch or hash is running the compiled bundle
/// definition.
pub open spec fn effective_hash_spec(b: EpochBinding, compiled_hash: u64) -> u64 {
    if b.run_id == 0 && b.epoch_id == 0 && b.definition_hash == 0 && b.prev_definition_hash == 0 {
        compiled_hash
    } else {
        b.definition_hash
    }
}

pub fn effective_definition_hash(b: EpochBinding, compiled_hash: u64) -> (r: u64)
    ensures
        r == effective_hash_spec(b, compiled_hash),
{
    if b.run_id == 0 && b.epoch_id == 0 && b.definition_hash == 0 && b.prev_definition_hash == 0 {
        compiled_hash
    } else {
        b.definition_hash
    }
}

/// Which known definition supplies a record's semantic version.
#[derive(Debug, Clone, Copy, PartialEq, Eq, Structural)]
pub enum KnownDefinition {
    /// The compiled current definition.
    Current,
    /// The retained immediately-prior definition.
    Prior,
    /// Neither: the record keeps its hash but no semantic version.
    Unknown,
}

/// The definition a record is resolved against.
#[derive(Debug, Clone, Copy, PartialEq, Eq, Structural)]
pub struct RecordDefinition {
    pub hash: u64,
    pub known: KnownDefinition,
}

/// A record written at or after the current epoch's first position belongs
/// to the current epoch's definition, an earlier one to the previous
/// epoch's; the semantic version is known only when that hash is the
/// current (respectively prior) definition's.
pub open spec fn record_definition_spec(
    start_abs: u64,
    b: EpochBinding,
    effective_hash: u64,
    current_hash: u64,
    prior_hash: Option<u64>,
) -> RecordDefinition {
    if start_abs >= b.epoch_first_abs {
        RecordDefinition {
            hash: effective_hash,
            known: if effective_hash == current_hash {
                KnownDefinition::Current
            } else {
                KnownDefinition::Unknown
            },
        }
    } else {
        RecordDefinition {
            hash: b.prev_definition_hash,
            known: if prior_hash == Some(b.prev_definition_hash) {
                KnownDefinition::Prior
            } else {
                KnownDefinition::Unknown
            },
        }
    }
}

pub fn record_definition(
    start_abs: u64,
    b: EpochBinding,
    effective_hash: u64,
    current_hash: u64,
    prior_hash: Option<u64>,
) -> (r: RecordDefinition)
    ensures
        r == record_definition_spec(start_abs, b, effective_hash, current_hash, prior_hash),
{
    if start_abs >= b.epoch_first_abs {
        RecordDefinition {
            hash: effective_hash,
            known: if effective_hash == current_hash {
                KnownDefinition::Current
            } else {
                KnownDefinition::Unknown
            },
        }
    } else {
        let known = match prior_hash {
            Some(p) => if p == b.prev_definition_hash {
                KnownDefinition::Prior
            } else {
                KnownDefinition::Unknown
            },
            None => KnownDefinition::Unknown,
        };
        RecordDefinition { hash: b.prev_definition_hash, known }
    }
}

/// The positions of the records that end beyond the durable cursor, in
/// poll order: only those become documents.
pub fn new_records(end_abs: &Vec<u64>, durable_cursor_abs: u64) -> (r: Vec<usize>)
    ensures
        forall|k: int| 0 <= k < r@.len() ==> (#[trigger] r@[k]) < end_abs@.len() && end_abs@[r@[k] as int] > durable_cursor_abs,
        forall|k: int, l: int| 0 <= k < l < r@.len() ==> r@[k] < r@[l],
        forall|i: int|
            0 <= i < end_abs@.len() && end_abs@[i] > durable_cursor_abs ==> exists|k: int|
                0 <= k < r@.len() && r@[k] == i,
{
    let mut r: Vec<usize> = Vec::new();
    let mut i: usize = 0;
    while i < end_abs.len()
        invariant
            i <= end_abs.len(),
            forall|k: int| 0 <= k < r@.len() ==> (#[trigger] r@[k]) < i && end_abs@[r@[k] as int] > durable_cursor_abs,
            forall|k: int, l: int| 0 <= k < l < r@.len() ==> r@[k] < r@[l],
            forall|j: int|
                0 <= j < i && end_abs@[j] > durable_cursor_abs ==> exists|k: int| 0 <= k < r@.len() && r@[k] == j,
        decreases end_abs.len() - i,
    {
        if end_abs[i] > durable_cursor_abs {
            let ghost before = r@;
            r.push(i);
            proof {
                assert forall|j: int|
                    0 <= j <= i && end_abs@[j] > durable_cursor_abs implies exists|k: int|
                        0 <= k < r@.len() && r@[k] == j by {
                    if j < i {
                        let k = choose|k: int| 0 <= k < before.len() && before[k] == j;
                        assert(r@[k] == j);
                    } else {
                        assert(r@[before.len() as int] == j);
                    }
                }
            }
        }
        i = i + 1;
    }
    r
}

/// The cursor a prepared poll makes durable: the position after the last
/// record the poll read, in the producer's buffer and run.
pub fn poll_checkpoint(buffer_id: u32, run_id: u64, next_abs: u64) -> (r: PersistenceCheckpoint)
    ensures
        r == (PersistenceCheckpoint { buffer_id, run_id, cursor_abs: next_abs }),
{
    PersistenceCheckpoint { buffer_id, run_id, cursor_abs: next_abs }
}

/// A loss range as loss accounting reports it: buffer, run, source, first
/// and last lost sequence, and 1 when the range was inferred (0 when the
/// producer reported it).
pub type LossKey = (u32, u64, u32, u64, u64, u8);

/// The loss ranges already turned into documents during this run.
pub struct LossEmissions {
    emitted: BTreeSet<LossKey>,
}

impl LossEmissions {
    pub closed spec fn emitted(&self) -> Set<LossKey> {
        self.emitted@
    }

    /// No range emitted yet.
    pub fn new() -> (r: Self)
        ensures
            r.emitted() == Set::<LossKey>::empty(),
    {
        LossEmissions { emitted: BTreeSet::new() }
    }

    /// Records a reported loss range; true exactly when it had not been
    /// emitted before, so each range becomes one loss document.
    pub fn first_report(&mut self, key: LossKey) -> (r: bool)
        ensures
            r == !old(self).emitted().contains(key),
            final(self).emitted() == old(self).emitted().insert(key),
    {
        self.emitted.insert(key)
    }
}

/// Whether the loss accounting must restart: it belongs to another buffer
/// than the one this poll read, or none exists yet.
pub fn accounting_restarts(accounted_buffer: Option<u32>, buffer_id: u32) -> (r: bool)
    ensures
        r == !(accounted_buffer == Some(buffer_id)),
{
    match accounted_buffer {
        Some(b) => b != buffer_id,
        None => true,
    }
}

/// Reporting a loss range a second time yields no second document: after
/// its first report the range counts as emitted, and reporting it again
/// leaves the emissions as they were.
pub proof fn law_each_loss_range_is_emitted_once(before: Set<LossKey>, key: LossKey)
    ensures
        before.insert(key).contains(key),
        before.insert(key).insert(key) == before.insert(key),
{
    assert(before.insert(key).insert(key) =~= before.insert(key));
}

// ---------------------------------------------------------------------------
// Splitting source polls into batches

pub open spec fn over_capacity_text(records: nat, queue_capacity: nat) -> Seq<char> {
    "OpenOT source poll contained "@ + decimal(records) + " records, exceeding queue_capacity "@
        + decimal(queue_capacity)
        + "; increase the configured bound and restart before the ring overwrites the uncommitted cursor"@
}

/// A poll holding more records than the in-memory queue may keep is
/// refused: the ring would overwrite the uncommitted cursor.
pub fn check_poll_capacity(records: usize, queue_capacity: usize) -> (r: Result<(), PersistenceError>)
    ensures
        records <= queue_capacity ==> r is Ok,
        records > queue_capacity ==> (r matches Err(PersistenceError::InvalidConfig(m)) && m@
            == over_capacity_text(records as nat, queue_capacity as nat)),
{
    if records > queue_capacity {
        let mut m = String::new();
        m.append("OpenOT source poll contained ");
        push_decimal(&mut m, records as u64);
        m.append(" records, exceeding queue_capacity ");
        push_decimal(&mut m, queue_capacity as u64);
        m.append(
            "; increase the configured bound and restart before the ring overwrites the uncommitted cursor",
        );
        return Err(PersistenceError::InvalidConfig(m));
    }
    Ok(())
}

/// How many of the available records one batch takes.
pub fn batch_take(available: usize, batch_size: usize) -> (r: usize)
    ensures
        r == if available <= batch_size { available } else { batch_size },
{
    if available <= batch_size {
        available
    } else {
        batch_size
    }
}

/// The cursor after a batch: the end of its last record, or `fallback` when
/// it holds none.
pub fn batch_next_abs(ends: &Vec<u64>, fallback: u64) -> (r: u64)
    ensures
        ends@.len() > 0 ==> r == ends@.last(),
        ends@.len() == 0 ==> r == fallback,
{
    if ends.len() > 0 {
        ends[ends.len() - 1]
    } else {
        fallback
    }
}

/// The loss ranges of `reported` that become documents, given the ranges
/// `emitted` before: each one not emitted before, at its first report.
pub open spec fn fresh_losses(emitted: Set<LossKey>, reported: Seq<LossKey>) -> Seq<LossKey>
    decreases reported.len(),
{
    if reported.len() == 0 {
        Seq::empty()
    } else {
        let k = reported.last();
        let rest = reported.drop_last();
        fresh_losses(emitted, rest) + if emitted.contains(k) || rest.contains(k) {
            Seq::empty()
        } else {
            seq![k]
        }
    }
}

/// The ranges counted as emitted once `reported` has been planned.
pub open spec fn after_reports(emitted: Set<LossKey>, reported: Seq<LossKey>) -> Set<LossKey> {
    Set::new(|k: LossKey| emitted.contains(k) || reported.contains(k))
}

/// What one poll turns into: the indices of the records beyond the durable
/// cursor (resolved in that order), the loss ranges that become documents
/// after them, and the checkpoint committed with them.
pub struct PollPlan {
    pub records: Vec<usize>,
    pub losses: Vec<LossKey>,
    pub checkpoint: PersistenceCheckpoint,
}

/// Plans one poll of a buffer and run: the records whose end lies beyond
/// the durable cursor, in ring order, then the reported loss ranges not
/// emitted before (each once), and the checkpoint at the poll's end.
pub fn plan_poll(
    end_abs: &Vec<u64>,
    durable_cursor_abs: u64,
    reported: &Vec<LossKey>,
    emissions: &mut LossEmissions,
    buffer_id: u32,
    run_id: u64,
    next_abs: u64,
) -> (r: PollPlan)
    ensures
        forall|k: int| 0 <= k < r.records@.len() ==> (#[trigger] r.records@[k]) < end_abs@.len()
            && end_abs@[r.records@[k] as int] > durable_cursor_abs,
        forall|k: int, l: int| 0 <= k < l < r.records@.len() ==> r.records@[k] < r.records@[l],
        forall|i: int|
            0 <= i < end_abs@.len() && end_abs@[i] > durable_cursor_abs ==> exists|k: int|
                0 <= k < r.records@.len() && r.records@[k] == i,
        r.losses@ == fresh_losses(old(emissions).emitted(), reported@),
        final(emissions).emitted() == after_reports(old(emissions).emitted(), reported@),
        r.checkpoint == (PersistenceCheckpoint { buffer_id, run_id, cursor_abs: next_abs }),
{
    broadcast use vstd::seq_lib::lemma_seq_contains_after_push;

    let records = new_records(end_abs, durable_cursor_abs);
    let ghost before = emissions.emitted();
    let mut losses: Vec<LossKey> = Vec::new();
    let mut i: usize = 0;
    assert(reported@.take(0) =~= Seq::<LossKey>::empty());
    assert(after_reports(before, reported@.take(0)) =~= before);
    while i < reported.len()
        invariant
            i <= reported@.len(),
            emissions.emitted() == after_reports(before, reported@.take(i as int)),
            losses@ == fresh_losses(before, reported@.take(i as int)),
        decreases reported@.len() - i,
    {
        let key = reported[i];
        let ghost prefix = reported@.take(i as int);
        let ghost next = reported@.take(i + 1);
        assert(next =~= prefix.push(key));
        assert(next.drop_last() =~= prefix);
        let fresh = emissions.first_report(key);
        if fresh {
            losses.push(key);
        }
        proof {
            assert(fresh == !(before.contains(key) || prefix.contains(key)));
            assert(losses@ =~= fresh_losses(before, next));
            assert(emissions.emitted() =~= after_reports(before, next));
        }
        i = i + 1;
    }
    assert(reported@.take(reported@.len() as int) =~= reported@);
    PollPlan { records, losses, checkpoint: poll_checkpoint(buffer_id, run_id, next_abs) }
}

proof fn lemma_fresh_losses(emitted: Set<LossKey>, reported: Seq<LossKey>)
    ensures
        forall|i: int|
            0 <= i < fresh_losses(emitted, reported).len() ==> !emitted.contains(
                #[trigger] fresh_losses(emitted, reported)[i],
            ) && reported.contains(fresh_losses(emitted, reported)[i]),
        forall|i: int, j: int|
            0 <= i < j < fresh_losses(emitted, reported).len() ==> #[trigger] fresh_losses(emitted, reported)[i]
                != #[trigger] fresh_losses(emitted, reported)[j],
    decreases reported.len(),
{
    broadcast use vstd::seq_lib::lemma_seq_contains_after_push;

    if reported.len() > 0 {
        let rest = reported.drop_last();
        let k = reported.last();
        lemma_fresh_losses(emitted, rest);
        assert(reported =~= rest.push(k));
        let f = fresh_losses(emitted, reported);
        let g = fresh_losses(emitted, rest);
        assert forall|i: int| 0 <= i < f.len() implies !emitted.contains(#[trigger] f[i]) && reported.contains(f[i]) by {
            if i < g.len() {
                assert(f[i] == g[i]);
            }
        }
        assert forall|i: int, j: int| 0 <= i < j < f.len() implies #[trigger] f[i] != #[trigger] f[j] by {
            if j < g.len() {
                assert(f[i] == g[i] && f[j] == g[j]);
            } else {
                assert(f[i] == g[i]);
                assert(rest.contains(g[i]));
            }
        }
    }
}

/// A loss range becomes at most one document over the polls of a run: the
/// ranges a poll plans were not emitted before, none is planned twice in
/// one poll, and none of them is planned again by a later poll.
pub proof fn law_loss_ranges_are_planned_once(
    emitted: Set<LossKey>,
    first: Seq<LossKey>,
    second: Seq<LossKey>,
)
    ensures
        forall|i: int|
            0 <= i < fresh_losses(emitted, first).len() ==> !emitted.contains(
                #[trigger] fresh_losses(emitted, first)[i],
            ),
        forall|i: int, j: int|
            0 <= i < j < fresh_losses(emitted, first).len() ==> #[trigger] fresh_losses(emitted, first)[i]
                != #[trigger] fresh_losses(emitted, first)[j],
        forall|i: int, j: int|
            0 <= i < fresh_losses(emitted, first).len() && 0 <= j < fresh_losses(
                after_reports(emitted, first),
                second,
            ).len() ==> #[trigger] fresh_losses(emitted, first)[i] != #[trigger] fresh_losses(
                after_reports(emitted, first),
                second,
            )[j],
{
    lemma_fresh_losses(emitted, first);
    lemma_fresh_losses(after_reports(emitted, first), second);
}

} // verus!
