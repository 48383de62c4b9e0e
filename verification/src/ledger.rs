//! The durable commit contract shared by every document sink: a batch of
//! identity-keyed canonical documents and its checkpoint commit together or
//! not at all; an identical retry is a no-op; a stale cursor is refused.
//!
//! `plan_commit` is the decision every database adapter makes inside its
//! transaction, from the checkpoint row and the canonical content already
//! stored at each identity. `InMemoryDocumentSink` applies the same plan to
//! an in-process store.

use vstd::prelude::*;

use crate::contracts::{
    check_regression, regresses, CommitOutcome, MaintenanceOutcome, PersistenceCheckpoint,
    PersistenceError,
};

verus! {

/// One resolved document ready for durable storage: its identity key, its
/// canonical JSON, and the read-model counters its projection produces.
#[derive(Debug, Clone, PartialEq, Eq)]
pub struct StagedDocument {
    /// Storage identity (see `DocumentIdentity::storage_key`).
    pub identity_key: String,
    /// Canonical serialized document.
    pub canonical_json: String,
    /// Public read-model rows the projection of this document produces.
    pub projection_rows: usize,
    /// The document is an event with fields that could not be classified.
    pub unclassified_event: bool,
    /// Placeholder (unresolved) rows the projection produces.
    pub unresolved: usize,
    /// Loss ranges the projection produces.
    pub loss_ranges: usize,
    /// Source records represented by those loss ranges.
    pub lost_records: u64,
}

/// Ordered resolved documents and the cursor acknowledged by their commit.
#[derive(Debug, Clone, PartialEq, Eq)]
pub struct PersistenceBatch {
    /// Documents in source delivery order.
    pub documents: Vec<StagedDocument>,
    /// Cursor that becomes durable atomically with the documents.
    pub checkpoint: PersistenceCheckpoint,
}

/// A durably stored document.
#[derive(Debug, Clone, PartialEq, Eq)]
pub struct StoredDocument {
    pub identity_key: String,
    pub canonical_json: String,
}

/// Identity key and canonical content.
pub type Entry = (Seq<char>, Seq<char>);

pub open spec fn staged_entry(d: StagedDocument) -> Entry {
    (d.identity_key@, d.canonical_json@)
}

pub open spec fn stored_entry(d: StoredDocument) -> Entry {
    (d.identity_key@, d.canonical_json@)
}

pub open spec fn stored_entries(docs: Seq<StoredDocument>) -> Seq<Entry> {
    docs.map_values(|d: StoredDocument| stored_entry(d))
}

/// The canonical content stored at identity `key`, if any (the most recent
/// entry with that key).
pub open spec fn lookup(entries: Seq<Entry>, key: Seq<char>) -> Option<Seq<char>>
    decreases entries.len(),
{
    if entries.len() == 0 {
        None
    } else if entries.last().0 == key {
        Some(entries.last().1)
    } else {
        lookup(entries.drop_last(), key)
    }
}

/// Counters accumulated by a batch.
pub struct Tally {
    pub inserted: nat,
    pub duplicated: nat,
    pub projection_rows: nat,
    pub unclassified_events: nat,
    pub unresolved_documents: nat,
    pub loss_ranges: nat,
    pub lost_records: nat,
}

pub open spec fn zero_tally() -> Tally {
    Tally {
        inserted: 0,
        duplicated: 0,
        projection_rows: 0,
        unclassified_events: 0,
        unresolved_documents: 0,
        loss_ranges: 0,
        lost_records: 0,
    }
}

pub open spec fn count_insert(t: Tally, d: StagedDocument) -> Tally {
    Tally {
        inserted: t.inserted + 1,
        projection_rows: t.projection_rows + d.projection_rows as nat,
        unclassified_events: t.unclassified_events + if d.unclassified_event {
            1nat
        } else {
            0nat
        },
        unresolved_documents: t.unresolved_documents + d.unresolved as nat,
        loss_ranges: t.loss_ranges + d.loss_ranges as nat,
        lost_records: t.lost_records + d.lost_records as nat,
        ..t
    }
}

pub open spec fn count_duplicate(t: Tally) -> Tally {
    Tally { duplicated: t.duplicated + 1, ..t }
}

/// Effect of the documents of one batch on a store.
pub enum BatchEffect {
    /// Every document is new or byte-identical; `entries` is the resulting store.
    Applied { entries: Seq<Entry>, tally: Tally },
    /// Some identity already holds different canonical content.
    Conflict { identity: Seq<char> },
}

/// One document against the store `entries`, where `found` is the content
/// already at its identity.
pub open spec fn apply_one(
    entries: Seq<Entry>,
    tally: Tally,
    d: StagedDocument,
    found: Option<Seq<char>>,
) -> BatchEffect {
    match found {
        Some(existing) => if existing == d.canonical_json@ {
            BatchEffect::Applied { entries, tally: count_duplicate(tally) }
        } else {
            BatchEffect::Conflict { identity: d.identity_key@ }
        },
        None => BatchEffect::Applied {
            entries: entries.push(staged_entry(d)),
            tally: count_insert(tally, d),
        },
    }
}

/// The documents of a batch applied in order to `stored`.
pub open spec fn apply_documents(stored: Seq<Entry>, docs: Seq<StagedDocument>) -> BatchEffect
    decreases docs.len(),
{
    if docs.len() == 0 {
        BatchEffect::Applied { entries: stored, tally: zero_tally() }
    } else {
        match apply_documents(stored, docs.drop_last()) {
            BatchEffect::Conflict { identity } => BatchEffect::Conflict { identity },
            BatchEffect::Applied { entries, tally } => apply_one(
                entries,
                tally,
                docs.last(),
                lookup(entries, docs.last().identity_key@),
            ),
        }
    }
}

/// The documents of a batch applied in order, where `existing[i]` is the
/// content stored before the batch at the identity of `docs[i]`; the
/// resulting `entries` are only the newly inserted documents.
pub open spec fn plan_documents(
    docs: Seq<StagedDocument>,
    existing: Seq<Option<Seq<char>>>,
) -> BatchEffect
    decreases docs.len(),
{
    if docs.len() == 0 || existing.len() != docs.len() {
        BatchEffect::Applied { entries: Seq::empty(), tally: zero_tally() }
    } else {
        match plan_documents(docs.drop_last(), existing.drop_last()) {
            BatchEffect::Conflict { identity } => BatchEffect::Conflict { identity },
            BatchEffect::Applied { entries, tally } => apply_one(
                entries,
                tally,
                docs.last(),
                match lookup(entries, docs.last().identity_key@) {
                    Some(found) => Some(found),
                    None => existing.last(),
                },
            ),
        }
    }
}

pub open spec fn sum_projection_rows(docs: Seq<StagedDocument>) -> nat
    decreases docs.len(),
{
    if docs.len() == 0 {
        0
    } else {
        sum_projection_rows(docs.drop_last()) + docs.last().projection_rows as nat
    }
}

pub open spec fn sum_unresolved(docs: Seq<StagedDocument>) -> nat
    decreases docs.len(),
{
    if docs.len() == 0 {
        0
    } else {
        sum_unresolved(docs.drop_last()) + docs.last().unresolved as nat
    }
}

pub open spec fn sum_loss_ranges(docs: Seq<StagedDocument>) -> nat
    decreases docs.len(),
{
    if docs.len() == 0 {
        0
    } else {
        sum_loss_ranges(docs.drop_last()) + docs.last().loss_ranges as nat
    }
}

/// The per-batch counters fit the machine counters they are reported in.
pub open spec fn batch_counts_fit(docs: Seq<StagedDocument>) -> bool {
    &&& sum_projection_rows(docs) <= usize::MAX
    &&& sum_unresolved(docs) <= usize::MAX
    &&& sum_loss_ranges(docs) <= usize::MAX
}

pub open spec fn min_u64(n: nat) -> u64 {
    if n <= u64::MAX {
        n as u64
    } else {
        u64::MAX
    }
}

/// The outcome a commit reports for a batch tally.
pub open spec fn outcome_of(
    tally: Tally,
    remote_pending: usize,
    pending_parts: usize,
    checkpoint: PersistenceCheckpoint,
) -> CommitOutcome {
    CommitOutcome {
        inserted: tally.inserted as usize,
        duplicated: tally.duplicated as usize,
        remote_pending,
        projection_rows_committed: tally.projection_rows as usize,
        unclassified_events: tally.unclassified_events as usize,
        unresolved_documents: tally.unresolved_documents as usize,
        loss_ranges: tally.loss_ranges as usize,
        lost_records: min_u64(tally.lost_records),
        pending_parts,
        checkpoint,
    }
}

/// The decision made for one batch before any durable write.
#[derive(Debug, Clone, PartialEq, Eq)]
pub struct CommitPlan {
    /// Indices of the batch documents to insert, in batch order.
    pub inserts: Vec<usize>,
    /// Outcome to report once the plan is durable (no remote delivery state).
    pub outcome: CommitOutcome,
}

pub open spec fn planned_entries(docs: Seq<StagedDocument>, inserts: Seq<usize>) -> Seq<Entry> {
    inserts.map_values(|i: usize| staged_entry(docs[i as int]))
}

/// The plan matches the batch effect computed from the prefetched content.
pub open spec fn plan_matches(
    plan: CommitPlan,
    docs: Seq<StagedDocument>,
    existing: Seq<Option<Seq<char>>>,
    checkpoint: PersistenceCheckpoint,
) -> bool {
    match plan_documents(docs, existing) {
        BatchEffect::Applied { entries, tally } => {
            &&& planned_entries(docs, plan.inserts@) == entries
            &&& forall|j: int| 0 <= j < plan.inserts@.len() ==> plan.inserts@[j] < docs.len()
            &&& plan.outcome == outcome_of(tally, 0, 0, checkpoint)
        },
        BatchEffect::Conflict { .. } => false,
    }
}

proof fn lemma_tally_bounds(docs: Seq<StagedDocument>, existing: Seq<Option<Seq<char>>>)
    requires
        existing.len() == docs.len(),
    ensures
        plan_documents(docs, existing) matches BatchEffect::Applied { entries, tally } ==> {
            &&& tally.inserted + tally.duplicated == docs.len()
            &&& tally.projection_rows <= sum_projection_rows(docs)
            &&& tally.unresolved_documents <= sum_unresolved(docs)
            &&& tally.loss_ranges <= sum_loss_ranges(docs)
            &&& tally.unclassified_events <= tally.inserted
        },
    decreases docs.len(),
{
    if docs.len() > 0 {
        lemma_tally_bounds(docs.drop_last(), existing.drop_last());
    }
}

/// Looks up the content at `key` among `entries` (most recent first).
fn find_content(entries: &Vec<StoredDocument>, key: &String) -> (r: Option<String>)
    ensures
        match r {
            Some(s) => lookup(stored_entries(entries@), key@) == Some(s@),
            None => lookup(stored_entries(entries@), key@) is None,
        },
{
    let mut i = entries.len();
    assert(entries@.take(entries.len() as int) =~= entries@);
    while i > 0
        invariant
            i <= entries.len(),
            lookup(stored_entries(entries@), key@) == lookup(
                stored_entries(entries@.take(i as int)),
                key@,
            ),
        decreases i,
    {
        proof {
            assert(stored_entries(entries@.take(i as int)).drop_last() =~= stored_entries(
                entries@.take(i - 1),
            ));
        }
        if entries[i - 1].identity_key == *key {
            return Some(entries[i - 1].canonical_json.clone());
        }
        i = i - 1;
    }
    assert(stored_entries(entries@.take(0)) =~= Seq::<Entry>::empty());
    proof {
        assert(stored_entries(entries@.take(entries.len() as int)) =~= stored_entries(entries@));
    }
    None
}

/// Plans a commit: refuses a regressing cursor, then classifies each
/// document as new, an identical duplicate, or a conflict, where
/// `existing[i]` is the content durably stored before this batch at the
/// identity of `docs[i]` (documents earlier in the same batch count too).
pub fn plan_commit(
    current: Option<PersistenceCheckpoint>,
    checkpoint: PersistenceCheckpoint,
    docs: &Vec<StagedDocument>,
    existing: &Vec<Option<String>>,
) -> (r: Result<CommitPlan, PersistenceError>)
    requires
        existing.len() == docs.len(),
        batch_counts_fit(docs@),
    ensures
        match current {
            Some(c) => regresses(c, checkpoint) ==> r == Err::<CommitPlan, PersistenceError>(
                PersistenceError::CheckpointRegression {
                    current: c.cursor_abs,
                    requested: checkpoint.cursor_abs,
                },
            ),
            None => true,
        },
        !(current matches Some(c) && regresses(c, checkpoint)) ==> match plan_documents(
            docs@,
            existing@.map_values(|o: Option<String>| opt_view(o)),
        ) {
            BatchEffect::Conflict { identity } => r matches Err(
                PersistenceError::IdentityConflict(k),
            ) && k@ == identity,
            BatchEffect::Applied { .. } => r matches Ok(plan) && plan_matches(
                plan,
                docs@,
                existing@.map_values(|o: Option<String>| opt_view(o)),
                checkpoint,
            ),
        },
{
    match check_regression(current, checkpoint) {
        Ok(()) => {},
        Err(error) => return Err(error),
    }
    assert(!(current matches Some(c) && regresses(c, checkpoint)));
    let ghost ex = existing@.map_values(|o: Option<String>| opt_view(o));
    let mut staged: Vec<StoredDocument> = Vec::new();
    let mut inserts: Vec<usize> = Vec::new();
    let mut inserted: usize = 0;
    let mut duplicated: usize = 0;
    let mut projection_rows: usize = 0;
    let mut unclassified: usize = 0;
    let mut unresolved: usize = 0;
    let mut loss_ranges: usize = 0;
    let mut lost_records: u64 = 0;
    let mut i: usize = 0;
    while i < docs.len()
        invariant
            i <= docs.len(),
            existing.len() == docs.len(),
            ex == existing@.map_values(|o: Option<String>| opt_view(o)),
            batch_counts_fit(docs@),
            !(current matches Some(c) && regresses(c, checkpoint)),
            plan_documents(docs@.take(i as int), ex.take(i as int)) matches BatchEffect::Applied {
                entries,
                tally,
            } && {
                &&& stored_entries(staged@) == entries
                &&& planned_entries(docs@, inserts@) == entries
                &&& forall|j: int| 0 <= j < inserts@.len() ==> inserts@[j] < docs.len()
                &&& inserted == tally.inserted
                &&& duplicated == tally.duplicated
                &&& projection_rows == tally.projection_rows
                &&& unclassified == tally.unclassified_events
                &&& unresolved == tally.unresolved_documents
                &&& loss_ranges == tally.loss_ranges
                &&& lost_records == min_u64(tally.lost_records)
            },
        decreases docs.len() - i,
    {
        let ghost prev_docs = docs@.take(i as int);
        let ghost prev_ex = ex.take(i as int);
        proof {
            assert(docs@.take(i + 1).drop_last() =~= prev_docs);
            assert(ex.take(i + 1).drop_last() =~= prev_ex);
            lemma_tally_bounds(docs@.take(i + 1), ex.take(i + 1));
            lemma_sums_prefix(docs@, i + 1);
        }
        let d = &docs[i];
        let found = match find_content(&staged, &d.identity_key) {
            Some(content) => Some(content),
            None => match &existing[i] {
                Some(content) => Some(content.clone()),
                None => None,
            },
        };
        match found {
            Some(content) => {
                if content != d.canonical_json {
                    proof {
                        lemma_conflict_persists(docs@, ex, i + 1);
                    }
                    return Err(PersistenceError::IdentityConflict(d.identity_key.clone()));
                }
                duplicated = duplicated + 1;
            },
            None => {
                staged.push(
                    StoredDocument {
                        identity_key: d.identity_key.clone(),
                        canonical_json: d.canonical_json.clone(),
                    },
                );
                inserts.push(i);
                inserted = inserted + 1;
                projection_rows = projection_rows + d.projection_rows;
                if d.unclassified_event {
                    unclassified = unclassified + 1;
                }
                unresolved = unresolved + d.unresolved;
                loss_ranges = loss_ranges + d.loss_ranges;
                lost_records = lost_records.saturating_add(d.lost_records);
                proof {
                    assert(stored_entries(staged@) =~= stored_entries(staged@.drop_last()).push(
                        staged_entry(docs@[i as int]),
                    ));
                    assert(planned_entries(docs@, inserts@) =~= planned_entries(
                        docs@,
                        inserts@.drop_last(),
                    ).push(staged_entry(docs@[i as int])));
                }
            },
        }
        i = i + 1;
    }
    proof {
        assert(docs@.take(docs.len() as int) =~= docs@);
        assert(ex.take(docs.len() as int) =~= ex);
    }
    Ok(
        CommitPlan {
            inserts,
            outcome: CommitOutcome {
                inserted,
                duplicated,
                remote_pending: 0,
                projection_rows_committed: projection_rows,
                unclassified_events: unclassified,
                unresolved_documents: unresolved,
                loss_ranges,
                lost_records,
                pending_parts: 0,
                checkpoint,
            },
        },
    )
}

pub open spec fn opt_view(o: Option<String>) -> Option<Seq<char>> {
    match o {
        Some(s) => Some(s@),
        None => None,
    }
}

/// A conflict in a prefix of the batch is the conflict of the whole batch.
proof fn lemma_conflict_persists(docs: Seq<StagedDocument>, ex: Seq<Option<Seq<char>>>, n: int)
    requires
        0 <= n <= docs.len(),
        ex.len() == docs.len(),
        plan_documents(docs.take(n), ex.take(n)) is Conflict,
    ensures
        plan_documents(docs, ex) == plan_documents(docs.take(n), ex.take(n)),
    decreases docs.len(),
{
    if n < docs.len() {
        assert(docs.drop_last().take(n) =~= docs.take(n));
        assert(ex.drop_last().take(n) =~= ex.take(n));
        lemma_conflict_persists(docs.drop_last(), ex.drop_last(), n);
    } else {
        assert(docs.take(n) =~= docs);
        assert(ex.take(n) =~= ex);
    }
}

proof fn lemma_sums_prefix(docs: Seq<StagedDocument>, n: int)
    requires
        0 <= n <= docs.len(),
    ensures
        sum_projection_rows(docs.take(n)) <= sum_projection_rows(docs),
        sum_unresolved(docs.take(n)) <= sum_unresolved(docs),
        sum_loss_ranges(docs.take(n)) <= sum_loss_ranges(docs),
    decreases docs.len(),
{
    if n < docs.len() {
        assert(docs.drop_last().take(n) =~= docs.take(n));
        lemma_sums_prefix(docs.drop_last(), n);
    } else {
        assert(docs.take(n) =~= docs);
    }
}


/// Effect of committing a batch to a store with a current checkpoint.
pub enum SinkEffect {
    /// The batch cursor would move the stored cursor backward.
    Regression { current: u64, requested: u64 },
    /// An identity already holds different canonical content.
    Conflict { identity: Seq<char> },
    /// Every document is new or identical; `entries` is the resulting store.
    Committed { entries: Seq<Entry>, tally: Tally },
}

pub open spec fn commit_effect(
    entries: Seq<Entry>,
    current: Option<PersistenceCheckpoint>,
    docs: Seq<StagedDocument>,
    checkpoint: PersistenceCheckpoint,
) -> SinkEffect {
    if current matches Some(c) && regresses(c, checkpoint) {
        SinkEffect::Regression { current: current->0.cursor_abs, requested: checkpoint.cursor_abs }
    } else {
        match apply_documents(entries, docs) {
            BatchEffect::Conflict { identity } => SinkEffect::Conflict { identity },
            BatchEffect::Applied { entries, tally } => SinkEffect::Committed { entries, tally },
        }
    }
}

/// The checkpoint that `load_checkpoint` reports for one buffer and run.
pub open spec fn checkpoint_view(
    checkpoint: Option<PersistenceCheckpoint>,
    buffer_id: u32,
    run_id: u64,
) -> Option<PersistenceCheckpoint> {
    match checkpoint {
        Some(c) => if c.buffer_id == buffer_id && c.run_id == run_id {
            Some(c)
        } else {
            None
        },
        None => None,
    }
}

proof fn lemma_lookup_push(entries: Seq<Entry>, e: Entry, key: Seq<char>)
    ensures
        lookup(entries.push(e), key) == if e.0 == key {
            Some(e.1)
        } else {
            lookup(entries, key)
        },
{
    assert(entries.push(e).drop_last() =~= entries);
}

proof fn lemma_lookup_concat(stored: Seq<Entry>, added: Seq<Entry>, key: Seq<char>)
    ensures
        lookup(stored + added, key) == match lookup(added, key) {
            Some(found) => Some(found),
            None => lookup(stored, key),
        },
    decreases added.len(),
{
    if added.len() == 0 {
        assert(stored + added =~= stored);
    } else {
        assert((stored + added).drop_last() =~= stored + added.drop_last());
        lemma_lookup_concat(stored, added.drop_last(), key);
    }
}

/// With content prefetched from the store, the plan is the store's effect.
proof fn lemma_plan_is_apply(
    stored: Seq<Entry>,
    docs: Seq<StagedDocument>,
    ex: Seq<Option<Seq<char>>>,
)
    requires
        ex.len() == docs.len(),
        forall|i: int| 0 <= i < docs.len() ==> ex[i] == lookup(stored, #[trigger] docs[i].identity_key@),
    ensures
        match plan_documents(docs, ex) {
            BatchEffect::Conflict { identity } => apply_documents(stored, docs)
                == BatchEffect::Conflict { identity },
            BatchEffect::Applied { entries, tally } => apply_documents(stored, docs)
                == BatchEffect::Applied { entries: stored + entries, tally },
        },
    decreases docs.len(),
{
    if docs.len() == 0 {
        assert(stored + Seq::<Entry>::empty() =~= stored);
    } else {
        let last = docs.len() - 1;
        assert(ex[last] == lookup(stored, docs[last].identity_key@));
        assert forall|i: int| 0 <= i < docs.drop_last().len() implies ex.drop_last()[i]
            == lookup(stored, #[trigger] docs.drop_last()[i].identity_key@) by {
            assert(docs.drop_last()[i] == docs[i]);
        }
        lemma_plan_is_apply(stored, docs.drop_last(), ex.drop_last());
        match plan_documents(docs.drop_last(), ex.drop_last()) {
            BatchEffect::Conflict { identity } => {},
            BatchEffect::Applied { entries, tally } => {
                lemma_lookup_concat(stored, entries, docs.last().identity_key@);
                let d = docs.last();
                if lookup(entries, d.identity_key@) is None && ex.last() is None {
                    assert((stored + entries).push(staged_entry(d)) =~= stored + entries.push(
                        staged_entry(d),
                    ));
                }
            },
        }
    }
}

/// After an applied batch every one of its documents is stored with its content.
proof fn lemma_applied_documents_are_stored(stored: Seq<Entry>, docs: Seq<StagedDocument>)
    ensures
        apply_documents(stored, docs) matches BatchEffect::Applied { entries, tally } ==> forall|
            i: int,
        |
            0 <= i < docs.len() ==> lookup(entries, #[trigger] docs[i].identity_key@) == Some(
                docs[i].canonical_json@,
            ),
    decreases docs.len(),
{
    if docs.len() > 0 {
        lemma_applied_documents_are_stored(stored, docs.drop_last());
        match apply_documents(stored, docs.drop_last()) {
            BatchEffect::Conflict { .. } => {},
            BatchEffect::Applied { entries, tally } => {
                let d = docs.last();
                let res = apply_documents(stored, docs);
                assert(res == apply_one(entries, tally, d, lookup(entries, d.identity_key@)));
                if res is Applied {
                    if lookup(entries, d.identity_key@) is None {
                        assert forall|i: int| 0 <= i < docs.len() implies lookup(
                            entries.push(staged_entry(d)),
                            #[trigger] docs[i].identity_key@,
                        ) == Some(docs[i].canonical_json@) by {
                            lemma_lookup_push(entries, staged_entry(d), docs[i].identity_key@);
                            if i < docs.len() - 1 {
                                assert(docs.drop_last()[i] == docs[i]);
                            }
                        }
                    } else {
                        assert forall|i: int| 0 <= i < docs.len() implies lookup(
                            entries,
                            #[trigger] docs[i].identity_key@,
                        ) == Some(docs[i].canonical_json@) by {
                            if i < docs.len() - 1 {
                                assert(docs.drop_last()[i] == docs[i]);
                            }
                        }
                    }
                }
            },
        }
    }
}

/// Tally of a batch whose documents are all identical duplicates.
pub open spec fn duplicate_tally(n: nat) -> Tally {
    Tally { duplicated: n, ..zero_tally() }
}

proof fn lemma_all_present_is_duplicate(entries: Seq<Entry>, docs: Seq<StagedDocument>)
    requires
        forall|i: int| 0 <= i < docs.len() ==> lookup(entries, #[trigger] docs[i].identity_key@)
            == Some(docs[i].canonical_json@),
    ensures
        apply_documents(entries, docs) == (BatchEffect::Applied {
            entries,
            tally: duplicate_tally(docs.len()),
        }),
    decreases docs.len(),
{
    if docs.len() > 0 {
        assert forall|i: int| 0 <= i < docs.drop_last().len() implies lookup(
            entries,
            #[trigger] docs.drop_last()[i].identity_key@,
        ) == Some(docs.drop_last()[i].canonical_json@) by {
            assert(docs.drop_last()[i] == docs[i]);
        }
        lemma_all_present_is_duplicate(entries, docs.drop_last());
        assert(lookup(entries, docs[docs.len() - 1].identity_key@) == Some(
            docs[docs.len() - 1].canonical_json@,
        ));
    }
}

/// Committing the identical batch again inserts nothing, reports every
/// document as a duplicate, and leaves the store and checkpoint as they are.
pub proof fn law_identical_retry_is_idempotent(
    entries: Seq<Entry>,
    current: Option<PersistenceCheckpoint>,
    docs: Seq<StagedDocument>,
    checkpoint: PersistenceCheckpoint,
)
    requires
        commit_effect(entries, current, docs, checkpoint) is Committed,
    ensures
        ({
            let committed = commit_effect(entries, current, docs, checkpoint)->Committed_entries;
            commit_effect(committed, Some(checkpoint), docs, checkpoint) == SinkEffect::Committed {
                entries: committed,
                tally: duplicate_tally(docs.len()),
            }
        }),
{
    lemma_applied_documents_are_stored(entries, docs);
    let committed = commit_effect(entries, current, docs, checkpoint)->Committed_entries;
    lemma_all_present_is_duplicate(committed, docs);
}

/// A committed batch only appends: the earlier store is a prefix of the new
/// one, so no stored document is ever rewritten or removed.
pub proof fn law_commit_only_appends(
    entries: Seq<Entry>,
    current: Option<PersistenceCheckpoint>,
    docs: Seq<StagedDocument>,
    checkpoint: PersistenceCheckpoint,
)
    requires
        commit_effect(entries, current, docs, checkpoint) is Committed,
    ensures
        ({
            let committed = commit_effect(entries, current, docs, checkpoint)->Committed_entries;
            &&& entries.len() <= committed.len()
            &&& committed.subrange(0, entries.len() as int) == entries
        }),
{
    lemma_apply_appends(entries, docs);
}

/// What a committed batch writes is what is read back: its checkpoint is
/// the one loaded for its buffer and run, and each of its documents is
/// stored under its identity with its canonical content.
pub proof fn law_commit_is_read_back(
    entries: Seq<Entry>,
    current: Option<PersistenceCheckpoint>,
    docs: Seq<StagedDocument>,
    checkpoint: PersistenceCheckpoint,
)
    requires
        commit_effect(entries, current, docs, checkpoint) is Committed,
    ensures
        checkpoint_view(Some(checkpoint), checkpoint.buffer_id, checkpoint.run_id) == Some(checkpoint),
        ({
            let committed = commit_effect(entries, current, docs, checkpoint)->Committed_entries;
            forall|i: int|
                0 <= i < docs.len() ==> lookup(committed, #[trigger] docs[i].identity_key@) == Some(
                    docs[i].canonical_json@,
                )
        }),
{
    lemma_applied_documents_are_stored(entries, docs);
}

/// A restart catches up once: after a committed batch, the cursor loaded
/// for its buffer and run is the committed one, and committing again any of
/// the documents already committed, with a cursor that does not regress,
/// inserts none of them and changes no stored document.
pub proof fn law_restart_commits_nothing_twice(
    entries: Seq<Entry>,
    current: Option<PersistenceCheckpoint>,
    docs: Seq<StagedDocument>,
    checkpoint: PersistenceCheckpoint,
    replay: Seq<StagedDocument>,
    next: PersistenceCheckpoint,
)
    requires
        commit_effect(entries, current, docs, checkpoint) is Committed,
        forall|j: int| 0 <= j < replay.len() ==> exists|i: int| 0 <= i < docs.len() && docs[i] == #[trigger] replay[j],
        !regresses(checkpoint, next),
    ensures
        checkpoint_view(Some(checkpoint), checkpoint.buffer_id, checkpoint.run_id) == Some(checkpoint),
        ({
            let committed = commit_effect(entries, current, docs, checkpoint)->Committed_entries;
            commit_effect(committed, Some(checkpoint), replay, next) == SinkEffect::Committed {
                entries: committed,
                tally: duplicate_tally(replay.len()),
            }
        }),
{
    lemma_applied_documents_are_stored(entries, docs);
    let committed = commit_effect(entries, current, docs, checkpoint)->Committed_entries;
    assert forall|j: int| 0 <= j < replay.len() implies lookup(committed, #[trigger] replay[j].identity_key@)
        == Some(replay[j].canonical_json@) by {
        let i = choose|i: int| 0 <= i < docs.len() && docs[i] == replay[j];
        assert(lookup(committed, docs[i].identity_key@) == Some(docs[i].canonical_json@));
    }
    lemma_all_present_is_duplicate(committed, replay);
}

/// Only a cursor of the same buffer and run can be refused as a regression:
/// a commit is refused so exactly when its checkpoint names the stored
/// buffer and run with a smaller cursor, and a stored checkpoint of another
/// buffer or run plays no part in whether a commit succeeds.
pub proof fn law_only_the_same_buffer_and_run_regress(
    entries: Seq<Entry>,
    current: PersistenceCheckpoint,
    docs: Seq<StagedDocument>,
    checkpoint: PersistenceCheckpoint,
)
    ensures
        (commit_effect(entries, Some(current), docs, checkpoint) is Regression) == (current.buffer_id
            == checkpoint.buffer_id && current.run_id == checkpoint.run_id && checkpoint.cursor_abs
            < current.cursor_abs),
        regresses(current, checkpoint) ==> checkpoint.buffer_id == current.buffer_id && checkpoint.run_id
            == current.run_id,
        current.buffer_id != checkpoint.buffer_id || current.run_id != checkpoint.run_id
            ==> commit_effect(entries, Some(current), docs, checkpoint) == commit_effect(
            entries,
            None,
            docs,
            checkpoint,
        ),
{
}

/// Within one buffer and run the durable cursor never moves backward: a
/// commit that is accepted leaves a cursor at least the current one.
pub proof fn law_cursor_never_moves_backward(
    entries: Seq<Entry>,
    current: PersistenceCheckpoint,
    docs: Seq<StagedDocument>,
    checkpoint: PersistenceCheckpoint,
)
    requires
        commit_effect(entries, Some(current), docs, checkpoint) is Committed,
        checkpoint.buffer_id == current.buffer_id,
        checkpoint.run_id == current.run_id,
    ensures
        checkpoint.cursor_abs >= current.cursor_abs,
{
}

proof fn lemma_apply_appends(stored: Seq<Entry>, docs: Seq<StagedDocument>)
    ensures
        apply_documents(stored, docs) matches BatchEffect::Applied { entries, tally } ==> {
            &&& stored.len() <= entries.len()
            &&& entries.subrange(0, stored.len() as int) == stored
        },
    decreases docs.len(),
{
    if docs.len() > 0 {
        lemma_apply_appends(stored, docs.drop_last());
        match apply_documents(stored, docs.drop_last()) {
            BatchEffect::Conflict { .. } => {},
            BatchEffect::Applied { entries, tally } => {
                let e = staged_entry(docs.last());
                assert(entries.push(e).subrange(0, stored.len() as int) =~= entries.subrange(
                    0,
                    stored.len() as int,
                ));
            },
        }
    } else {
        assert(stored.subrange(0, stored.len() as int) =~= stored);
    }
}

/// In-process document sink with the same atomic, idempotent commit as the
/// database adapters, and test hooks for an injected transaction failure and
/// a configured remote backlog.
pub struct InMemoryDocumentSink {
    documents: Vec<StoredDocument>,
    checkpoint: Option<PersistenceCheckpoint>,
    fail_next_commit: bool,
    remote_pending: usize,
    maintenance_calls: usize,
}

impl InMemoryDocumentSink {
    pub closed spec fn entries(&self) -> Seq<Entry> {
        stored_entries(self.documents@)
    }

    pub closed spec fn durable_checkpoint(&self) -> Option<PersistenceCheckpoint> {
        self.checkpoint
    }

    pub closed spec fn failure_armed(&self) -> bool {
        self.fail_next_commit
    }

    pub closed spec fn backlog(&self) -> usize {
        self.remote_pending
    }

    pub closed spec fn maintenance_count(&self) -> usize {
        self.maintenance_calls
    }

    /// An empty sink with no checkpoint.
    pub fn new() -> (s: Self)
        ensures
            s.entries() == Seq::<Entry>::empty(),
            s.durable_checkpoint() is None,
            !s.failure_armed(),
            s.backlog() == 0,
            s.maintenance_count() == 0,
    {
        let s = InMemoryDocumentSink {
            documents: Vec::new(),
            checkpoint: None,
            fail_next_commit: false,
            remote_pending: 0,
            maintenance_calls: 0,
        };
        assert(stored_entries(s.documents@) =~= Seq::<Entry>::empty());
        s
    }

    /// Makes the next commit fail as an aborted transaction would.
    pub fn fail_next_commit(&mut self)
        ensures
            final(self).failure_armed(),
            final(self).entries() == old(self).entries(),
            final(self).durable_checkpoint() == old(self).durable_checkpoint(),
            final(self).backlog() == old(self).backlog(),
            final(self).maintenance_count() == old(self).maintenance_count(),
    {
        self.fail_next_commit = true;
    }

    /// Sets the number of documents reported as awaiting remote delivery.
    pub fn set_remote_pending(&mut self, remote_pending: usize)
        ensures
            final(self).backlog() == remote_pending,
            final(self).entries() == old(self).entries(),
            final(self).durable_checkpoint() == old(self).durable_checkpoint(),
            final(self).failure_armed() == old(self).failure_armed(),
            final(self).maintenance_count() == old(self).maintenance_count(),
    {
        self.remote_pending = remote_pending;
    }

    /// The stored documents, in commit order.
    pub fn documents(&self) -> (r: &Vec<StoredDocument>)
        ensures
            stored_entries(r@) == self.entries(),
    {
        &self.documents
    }

    /// The durable checkpoint, whatever buffer and run it belongs to.
    pub fn checkpoint(&self) -> (r: Option<PersistenceCheckpoint>)
        ensures
            r == self.durable_checkpoint(),
    {
        self.checkpoint
    }

    /// Number of maintenance passes run so far.
    pub fn maintenance_calls(&self) -> (r: usize)
        ensures
            r == self.maintenance_count(),
    {
        self.maintenance_calls
    }

    /// Runs a maintenance pass and reports the remote backlog.
    pub fn maintenance_status(&mut self) -> (r: Result<MaintenanceOutcome, PersistenceError>)
        ensures
            r == Ok::<MaintenanceOutcome, PersistenceError>(
                MaintenanceOutcome {
                    remote_pending: old(self).backlog(),
                    reconciled_parts: 0,
                    pending_parts: 0,
                },
            ),
            final(self).maintenance_count() == if old(self).maintenance_count() < usize::MAX {
                (old(self).maintenance_count() + 1) as usize
            } else {
                usize::MAX
            },
            final(self).entries() == old(self).entries(),
            final(self).durable_checkpoint() == old(self).durable_checkpoint(),
            final(self).failure_armed() == old(self).failure_armed(),
            final(self).backlog() == old(self).backlog(),
    {
        self.maintenance_calls = self.maintenance_calls.saturating_add(1);
        Ok(
            MaintenanceOutcome {
                remote_pending: self.remote_pending,
                reconciled_parts: 0,
                pending_parts: 0,
            },
        )
    }

    /// Loads the durable cursor for one buffer and run.
    pub fn load_checkpoint(&self, buffer_id: u32, run_id: u64) -> (r: Result<
        Option<PersistenceCheckpoint>,
        PersistenceError,
    >)
        ensures
            r == Ok::<Option<PersistenceCheckpoint>, PersistenceError>(
                checkpoint_view(self.durable_checkpoint(), buffer_id, run_id),
            ),
    {
        match self.checkpoint {
            Some(c) => if c.buffer_id == buffer_id && c.run_id == run_id {
                Ok(Some(c))
            } else {
                Ok(None)
            },
            None => Ok(None),
        }
    }

    /// Commits all documents and the checkpoint together, or neither.
    pub fn commit(&mut self, batch: &PersistenceBatch) -> (r: Result<
        CommitOutcome,
        PersistenceError,
    >)
        requires
            batch_counts_fit(batch.documents@),
        ensures
            final(self).backlog() == old(self).backlog(),
            final(self).maintenance_count() == old(self).maintenance_count(),
            !final(self).failure_armed(),
            r is Err ==> final(self).entries() == old(self).entries()
                && final(self).durable_checkpoint() == old(self).durable_checkpoint(),
            old(self).failure_armed() ==> (r matches Err(PersistenceError::Commit(m)) && m@
                == "injected in-memory transaction failure"@),
            !old(self).failure_armed() ==> match commit_effect(
                old(self).entries(),
                old(self).durable_checkpoint(),
                batch.documents@,
                batch.checkpoint,
            ) {
                SinkEffect::Regression { current, requested } => r
                    == Err::<CommitOutcome, PersistenceError>(
                    PersistenceError::CheckpointRegression { current, requested },
                ),
                SinkEffect::Conflict { identity } => r matches Err(
                    PersistenceError::IdentityConflict(k),
                ) && k@ == identity,
                SinkEffect::Committed { entries, tally } => {
                    &&& r == Ok::<CommitOutcome, PersistenceError>(
                        outcome_of(tally, old(self).backlog(), 0, batch.checkpoint),
                    )
                    &&& final(self).entries() == entries
                    &&& final(self).durable_checkpoint() == Some(batch.checkpoint)
                },
            },
    {
        if self.fail_next_commit {
            self.fail_next_commit = false;
            let mut m = String::new();
            m.append("injected in-memory transaction failure");
            return Err(PersistenceError::Commit(m));
        }
        let docs = &batch.documents;
        let mut existing: Vec<Option<String>> = Vec::new();
        let mut i: usize = 0;
        while i < docs.len()
            invariant
                i <= docs.len(),
                existing.len() == i,
                self.remote_pending == old(self).remote_pending,
                self.maintenance_calls == old(self).maintenance_calls,
                !self.fail_next_commit,
                self.documents == old(self).documents,
                self.checkpoint == old(self).checkpoint,
                forall|j: int| 0 <= j < i ==> opt_view(#[trigger] existing@[j]) == lookup(
                    stored_entries(self.documents@),
                    docs@[j].identity_key@,
                ),
            decreases docs.len() - i,
        {
            let found = find_content(&self.documents, &docs[i].identity_key);
            existing.push(found);
            i = i + 1;
        }
        let ghost ex = existing@.map_values(|o: Option<String>| opt_view(o));
        proof {
            assert forall|j: int| 0 <= j < docs@.len() implies ex[j] == lookup(
                stored_entries(self.documents@),
                #[trigger] docs@[j].identity_key@,
            ) by {
                assert(ex[j] == opt_view(existing@[j]));
            }
            lemma_plan_is_apply(stored_entries(self.documents@), docs@, ex);
        }
        let plan = match plan_commit(self.checkpoint, batch.checkpoint, docs, &existing) {
            Ok(plan) => plan,
            Err(error) => return Err(error),
        };
        let ghost before = self.documents@;
        let mut k: usize = 0;
        while k < plan.inserts.len()
            invariant
                k <= plan.inserts.len(),
                self.remote_pending == old(self).remote_pending,
                self.maintenance_calls == old(self).maintenance_calls,
                !self.fail_next_commit,
                self.checkpoint == old(self).checkpoint,
                forall|j: int| 0 <= j < plan.inserts@.len() ==> plan.inserts@[j] < docs.len(),
                stored_entries(self.documents@) == stored_entries(before) + planned_entries(
                    docs@,
                    plan.inserts@.take(k as int),
                ),
            decreases plan.inserts.len() - k,
        {
            let index = plan.inserts[k];
            let d = &docs[index];
            let ghost prev = self.documents@;
            self.documents.push(
                StoredDocument {
                    identity_key: d.identity_key.clone(),
                    canonical_json: d.canonical_json.clone(),
                },
            );
            k = k + 1;
            proof {
                assert(planned_entries(docs@, plan.inserts@.take(k as int)) =~= planned_entries(
                    docs@,
                    plan.inserts@.take(k - 1),
                ).push(staged_entry(docs@[index as int])));
                assert(stored_entries(self.documents@) =~= stored_entries(prev).push(
                    staged_entry(docs@[index as int]),
                ));
            }
        }
        proof {
            assert(plan.inserts@.take(plan.inserts.len() as int) =~= plan.inserts@);
        }
        self.checkpoint = Some(batch.checkpoint);
        let mut outcome = plan.outcome;
        outcome.remote_pending = self.remote_pending;
        Ok(outcome)
    }
}
} // verus!
