//! How a batch of projected documents settles against what a database
//! already holds, and the outcome a relational commit reports.
//!
//! Two lookup disciplines exist. Adapters that look each identity up inside
//! the transaction, one document after another, see the documents inserted
//! earlier in the same batch: they stage each document
//! (`stage_projected`) and plan with `ledger::plan_commit`. Adapters that
//! read all identities of the batch in one query settle against that
//! snapshot (`settle_against_snapshot`).

use vstd::prelude::*;
use crate::contracts::{CommitOutcome, PersistenceCheckpoint, PersistenceError};
use crate::ledger::{lookup, stored_entries, Entry, StagedDocument, StoredDocument};
use crate::rows::{
    batch_special_counts, committed_special_counts, public_rows, special_counts, total_domain_rows,
    ProjectedDocument,
};

verus! {

/// The document is an event whose type the registry does not classify.
pub open spec fn unclassified(p: ProjectedDocument) -> bool {
    p.event matches Some(e) && e.has_unclassified_fields
}

/// What staging a projected document yields: its identity and content and
/// the counts of its projection, or the failure of reading a loss count.
pub open spec fn staged_from(p: ProjectedDocument, s: StagedDocument) -> bool {
    &&& s.identity_key@ == p.canonical.identity_key@
    &&& s.canonical_json@ == p.canonical.canonical_json@
    &&& s.projection_rows == public_rows(p)
    &&& s.unclassified_event == unclassified(p)
    &&& special_counts(p.domains@) matches Ok(c) && s.unresolved == c.0 && s.loss_ranges == c.1
        && s.lost_records == c.2
}

/// Stages one projected document for a commit that looks identities up one
/// at a time.
pub fn stage_projected(p: &ProjectedDocument) -> (r: Result<StagedDocument, PersistenceError>)
    requires
        p.logged_values@.len() + p.domains@.len() < usize::MAX,
    ensures
        special_counts(p.domains@) is Ok ==> (r matches Ok(s) && staged_from(*p, s)),
        special_counts(p.domains@) matches Err(m) ==> (r matches Err(PersistenceError::Commit(e))
            && e@ == m),
{
    let rows = p.public_row_count();
    let unclassified_event = p.has_unclassified_event();
    let counts = match p.loss_and_unresolved_counts() {
        Ok(c) => c,
        Err(e) => return Err(e),
    };
    let identity_key = p.canonical.identity_key.clone();
    let canonical_json = p.canonical.canonical_json.clone();
    assert(identity_key@ == p.canonical.identity_key@);
    assert(canonical_json@ == p.canonical.canonical_json@);
    Ok(
        StagedDocument {
            identity_key,
            canonical_json,
            projection_rows: rows,
            unclassified_event,
            unresolved: counts.0,
            loss_ranges: counts.1,
            lost_records: counts.2,
        },
    )
}

/// Where settling a batch against a snapshot of stored identities ends.
pub enum Settled {
    /// The documents still to insert, in order, and the duplicates skipped.
    Pending { pending: Seq<ProjectedDocument>, duplicated: nat },
    /// The first document whose identity is stored with other content.
    Conflict { key: Seq<char> },
}

/// Settles documents in order against a fixed snapshot: a stored identity
/// with the same canonical JSON is a duplicate, with other content a
/// conflict; an identity the snapshot lacks is pending.
pub open spec fn settle(existing: Seq<StoredDocument>, docs: Seq<ProjectedDocument>) -> Settled
    decreases docs.len(),
{
    if docs.len() == 0 {
        Settled::Pending { pending: Seq::empty(), duplicated: 0 }
    } else {
        match settle(existing, docs.drop_last()) {
            Settled::Conflict { key } => Settled::Conflict { key },
            Settled::Pending { pending, duplicated } => {
                let d = docs.last();
                match lookup(stored_entries(existing), d.canonical.identity_key@) {
                    Some(json) => if json == d.canonical.canonical_json@ {
                        Settled::Pending { pending, duplicated: duplicated + 1 }
                    } else {
                        Settled::Conflict { key: d.canonical.identity_key@ }
                    },
                    None => Settled::Pending { pending: pending.push(d), duplicated },
                }
            },
        }
    }
}

/// The documents a snapshot settlement leaves to insert.
pub struct Settlement {
    pub pending: Vec<ProjectedDocument>,
    pub duplicated: usize,
}

/// The canonical JSON stored at `key` in the snapshot, searching from its
/// most recent row.
fn stored_json<'a>(existing: &'a Vec<StoredDocument>, key: &String) -> (r: Option<&'a String>)
    ensures
        match lookup(stored_entries(existing@), key@) {
            Some(json) => r matches Some(s) && s@ == json,
            None => r is None,
        },
{
    let mut i = existing.len();
    assert(existing@.take(i as int) =~= existing@);
    while i > 0
        invariant
            i <= existing.len(),
            lookup(stored_entries(existing@), key@) == lookup(stored_entries(existing@.take(i as int)), key@),
        decreases i,
    {
        let ghost prefix = existing@.take(i as int);
        assert(stored_entries(prefix).drop_last() =~= stored_entries(existing@.take(i - 1)));
        assert(stored_entries(prefix).last() == (existing@[i - 1].identity_key@, existing@[i - 1].canonical_json@));
        if existing[i - 1].identity_key == *key {
            return Some(&existing[i - 1].canonical_json);
        }
        i = i - 1;
    }
    assert(stored_entries(existing@.take(0)) =~= Seq::<(Seq<char>, Seq<char>)>::empty());
    None
}

proof fn lemma_conflict_persists(existing: Seq<StoredDocument>, docs: Seq<ProjectedDocument>, n: int)
    requires
        0 <= n <= docs.len(),
        settle(existing, docs.take(n)) is Conflict,
    ensures
        settle(existing, docs) == settle(existing, docs.take(n)),
    decreases docs.len(),
{
    if n < docs.len() {
        assert(docs.drop_last().take(n) =~= docs.take(n));
        lemma_conflict_persists(existing, docs.drop_last(), n);
    } else {
        assert(docs.take(n) =~= docs);
    }
}

/// Settles a batch against the stored identities one query returned.
pub fn settle_against_snapshot(existing: &Vec<StoredDocument>, projected: Vec<ProjectedDocument>) -> (r: Result<
    Settlement,
    PersistenceError,
>)
    ensures
        match settle(existing@, projected@) {
            Settled::Pending { pending, duplicated } => r matches Ok(s) && s.pending@ == pending
                && s.duplicated == duplicated,
            Settled::Conflict { key } => r matches Err(PersistenceError::IdentityConflict(k)) && k@ == key,
        },
{
    let ghost all = projected@;
    let total = projected.len();
    assert(all.len() == total);
    let mut rest = projected;
    let mut pending: Vec<ProjectedDocument> = Vec::new();
    let mut duplicated: usize = 0;
    let mut k: usize = 0;
    assert(all.take(0) =~= Seq::<ProjectedDocument>::empty());
    while rest.len() > 0
        invariant
            k + rest@.len() == all.len(),
            rest@ == all.skip(k as int),
            settle(existing@, all.take(k as int)) == (Settled::Pending {
                pending: pending@,
                duplicated: duplicated as nat,
            }),
            duplicated <= k,
            all.len() <= usize::MAX,
            all == projected@,
        decreases rest@.len(),
    {
        let d = rest.remove(0);
        proof {
            assert(all.take(k + 1).drop_last() =~= all.take(k as int));
            assert(all.take(k + 1).last() == d);
            assert(rest@ =~= all.skip(k + 1));
        }
        match stored_json(existing, &d.canonical.identity_key) {
            Some(json) => {
                if *json == d.canonical.canonical_json {
                    duplicated = duplicated + 1;
                } else {
                    proof {
                        assert(settle(existing@, all.take(k + 1)) == (Settled::Conflict {
                            key: d.canonical.identity_key@,
                        }));
                        lemma_conflict_persists(existing@, all, k + 1);
                    }
                    let key = d.canonical.identity_key;
                    assert(key@ == d.canonical.identity_key@);
                    return Err(PersistenceError::IdentityConflict(key));
                }
            },
            None => {
                pending.push(d);
            },
        }
        k = k + 1;
    }
    assert(all.take(k as int) =~= all);
    Ok(Settlement { pending, duplicated })
}

/// Public rows across documents.
pub open spec fn sum_public_rows(docs: Seq<ProjectedDocument>) -> nat
    decreases docs.len(),
{
    if docs.len() == 0 {
        0
    } else {
        sum_public_rows(docs.drop_last()) + public_rows(docs.last())
    }
}

/// Documents whose event is unclassified.
pub open spec fn count_unclassified(docs: Seq<ProjectedDocument>) -> nat
    decreases docs.len(),
{
    if docs.len() == 0 {
        0
    } else {
        count_unclassified(docs.drop_last()) + if unclassified(docs.last()) {
            1nat
        } else {
            0nat
        }
    }
}

/// Logged values and domain rows across documents: what bounds the counts.
pub open spec fn total_rows(docs: Seq<ProjectedDocument>) -> nat
    decreases docs.len(),
{
    if docs.len() == 0 {
        0
    } else {
        total_rows(docs.drop_last()) + 1 + docs.last().logged_values@.len() + docs.last().domains@.len()
    }
}

proof fn lemma_rows_bounded(docs: Seq<ProjectedDocument>)
    ensures
        sum_public_rows(docs) <= total_rows(docs),
        count_unclassified(docs) <= docs.len(),
        total_domain_rows(docs) <= total_rows(docs),
        docs.len() <= total_rows(docs),
    decreases docs.len(),
{
    if docs.len() > 0 {
        lemma_rows_bounded(docs.drop_last());
    }
}

proof fn lemma_rows_prefix(docs: Seq<ProjectedDocument>, n: int)
    requires
        0 <= n <= docs.len(),
    ensures
        total_rows(docs.take(n)) <= total_rows(docs),
    decreases docs.len(),
{
    if n < docs.len() {
        assert(docs.drop_last().take(n) =~= docs.take(n));
        lemma_rows_prefix(docs.drop_last(), n);
    } else {
        assert(docs.take(n) =~= docs);
    }
}

/// What a relational commit reports for the documents it inserted.
pub open spec fn snapshot_outcome_spec(
    pending: Seq<ProjectedDocument>,
    duplicated: usize,
    checkpoint: PersistenceCheckpoint,
    c: (nat, nat, u64),
) -> CommitOutcome {
    CommitOutcome {
        inserted: pending.len() as usize,
        duplicated,
        remote_pending: 0,
        projection_rows_committed: sum_public_rows(pending) as usize,
        unclassified_events: count_unclassified(pending) as usize,
        unresolved_documents: c.0 as usize,
        loss_ranges: c.1 as usize,
        lost_records: c.2,
        pending_parts: 0,
        checkpoint,
    }
}

/// The outcome of a relational commit that inserted `pending` and skipped
/// `duplicated` documents; nothing waits for remote delivery.
pub fn snapshot_outcome(
    pending: &Vec<ProjectedDocument>,
    duplicated: usize,
    checkpoint: PersistenceCheckpoint,
) -> (r: Result<CommitOutcome, PersistenceError>)
    requires
        total_rows(pending@) < usize::MAX,
    ensures
        match batch_special_counts(pending@) {
            Ok(c) => r == Ok::<CommitOutcome, PersistenceError>(
                snapshot_outcome_spec(pending@, duplicated, checkpoint, c),
            ),
            Err(m) => r matches Err(PersistenceError::Commit(e)) && e@ == m,
        },
{
    proof {
        lemma_rows_bounded(pending@);
    }
    let mut rows: usize = 0;
    let mut unclassified_events: usize = 0;
    let mut i: usize = 0;
    while i < pending.len()
        invariant
            i <= pending.len(),
            total_rows(pending@) < usize::MAX,
            rows == sum_public_rows(pending@.take(i as int)),
            unclassified_events == count_unclassified(pending@.take(i as int)),
            sum_public_rows(pending@.take(i as int)) <= total_rows(pending@.take(i as int)),
            total_rows(pending@.take(i as int)) <= total_rows(pending@),
        decreases pending.len() - i,
    {
        let ghost next = pending@.take(i + 1);
        assert(next.drop_last() =~= pending@.take(i as int));
        proof {
            lemma_rows_prefix(pending@, i + 1);
            lemma_rows_bounded(next);
        }
        rows = rows + pending[i].public_row_count();
        if pending[i].has_unclassified_event() {
            unclassified_events = unclassified_events + 1;
        }
        i = i + 1;
    }
    assert(pending@.take(pending.len() as int) =~= pending@);
    let counts = match committed_special_counts(pending.as_slice()) {
        Ok(c) => c,
        Err(e) => return Err(e),
    };
    Ok(
        CommitOutcome {
            inserted: pending.len(),
            duplicated,
            remote_pending: 0,
            projection_rows_committed: rows,
            unclassified_events,
            unresolved_documents: counts.0,
            loss_ranges: counts.1,
            lost_records: counts.2,
            pending_parts: 0,
            checkpoint,
        },
    )
}


/// A projected document as a stored entry: identity and canonical content.
pub open spec fn projected_entry(d: ProjectedDocument) -> Entry {
    (d.canonical.identity_key@, d.canonical.canonical_json@)
}

/// No identity occurs twice.
pub open spec fn distinct_keys(es: Seq<Entry>) -> bool {
    forall|i: int, j: int| 0 <= i < j < es.len() ==> (#[trigger] es[i]).0 != (#[trigger] es[j]).0
}

proof fn lemma_lookup_found(es: Seq<Entry>, k: Seq<char>)
    ensures
        lookup(es, k) matches Some(v) ==> exists|j: int| 0 <= j < es.len() && es[j].0 == k && es[j].1 == v,
    decreases es.len(),
{
    if es.len() > 0 {
        lemma_lookup_found(es.drop_last(), k);
        if es.last().0 != k {
            if lookup(es.drop_last(), k) is Some {
                let j = choose|j: int| 0 <= j < es.drop_last().len() && es.drop_last()[j].0 == k
                    && es.drop_last()[j].1 == lookup(es.drop_last(), k)->Some_0;
                assert(es[j] == es.drop_last()[j]);
            }
        }
    }
}

proof fn lemma_lookup_distinct(es: Seq<Entry>, j: int)
    requires
        distinct_keys(es),
        0 <= j < es.len(),
    ensures
        lookup(es, es[j].0) == Some(es[j].1),
    decreases es.len(),
{
    if j < es.len() - 1 {
        assert(es.last().0 != es[j].0);
        assert forall|a: int, b: int| 0 <= a < b < es.drop_last().len() implies (#[trigger] es.drop_last()[a]).0
            != (#[trigger] es.drop_last()[b]).0 by {
            assert(es.drop_last()[a] == es[a]);
            assert(es.drop_last()[b] == es[b]);
        }
        assert(es.drop_last()[j] == es[j]);
        lemma_lookup_distinct(es.drop_last(), j);
    }
}

proof fn lemma_lookup_concat_entries(stored: Seq<Entry>, added: Seq<Entry>, key: Seq<char>)
    ensures
        lookup(stored + added, key) == match lookup(added, key) {
            Some(found) => Some(found),
            None => lookup(stored, key),
        },
    decreases added.len(),
{
    if added.len() == 0 {
        assert(stored + added =~= stored);
    } else {
        assert((stored + added).drop_last() =~= stored + added.drop_last());
        lemma_lookup_concat_entries(stored, added.drop_last(), key);
    }
}

proof fn lemma_settle_facts(existing: Seq<StoredDocument>, docs: Seq<ProjectedDocument>)
    ensures
        settle(existing, docs) matches Settled::Pending { pending, duplicated } ==> {
            &&& forall|j: int| 0 <= j < pending.len() ==> lookup(stored_entries(existing), (#[trigger] pending[j]).canonical.identity_key@) is None
            &&& forall|i: int| 0 <= i < docs.len() && lookup(stored_entries(existing), (#[trigger] docs[i]).canonical.identity_key@) is None
                ==> pending.contains(docs[i])
            &&& forall|i: int| 0 <= i < docs.len() && lookup(stored_entries(existing), (#[trigger] docs[i]).canonical.identity_key@) is Some
                ==> lookup(stored_entries(existing), docs[i].canonical.identity_key@) == Some(docs[i].canonical.canonical_json@)
        },
    decreases docs.len(),
{
    if docs.len() > 0 {
        let init = docs.drop_last();
        lemma_settle_facts(existing, init);
        match settle(existing, init) {
            Settled::Conflict { .. } => {},
            Settled::Pending { pending, duplicated } => {
                let d = docs.last();
                match settle(existing, docs) {
                    Settled::Conflict { .. } => {},
                    Settled::Pending { pending: p2, duplicated: d2 } => {
                        assert forall|i: int| 0 <= i < docs.len() && lookup(stored_entries(existing), (#[trigger] docs[i]).canonical.identity_key@) is None
                            implies p2.contains(docs[i]) by {
                            if i < docs.len() - 1 {
                                assert(init[i] == docs[i]);
                                assert(pending.contains(init[i]));
                                let j = choose|j: int| 0 <= j < pending.len() && pending[j] == init[i];
                                if lookup(stored_entries(existing), d.canonical.identity_key@) is None {
                                    assert(p2[j] == pending[j]);
                                }
                            } else {
                                assert(p2[p2.len() - 1] == d);
                            }
                        }
                        assert forall|i: int| 0 <= i < docs.len() && lookup(stored_entries(existing), (#[trigger] docs[i]).canonical.identity_key@) is Some
                            implies lookup(stored_entries(existing), docs[i].canonical.identity_key@) == Some(docs[i].canonical.canonical_json@) by {
                            if i < docs.len() - 1 {
                                assert(init[i] == docs[i]);
                            }
                        }
                    },
                }
            },
        }
    }
}

proof fn lemma_all_stored_settles_as_duplicates(existing: Seq<StoredDocument>, docs: Seq<ProjectedDocument>)
    requires
        forall|i: int| 0 <= i < docs.len() ==> lookup(stored_entries(existing), (#[trigger] docs[i]).canonical.identity_key@)
            == Some(docs[i].canonical.canonical_json@),
    ensures
        settle(existing, docs) == (Settled::Pending { pending: Seq::empty(), duplicated: docs.len() }),
    decreases docs.len(),
{
    if docs.len() > 0 {
        assert forall|i: int| 0 <= i < docs.drop_last().len() implies lookup(stored_entries(existing), (#[trigger] docs.drop_last()[i]).canonical.identity_key@)
            == Some(docs.drop_last()[i].canonical.canonical_json@) by {
            assert(docs.drop_last()[i] == docs[i]);
        }
        lemma_all_stored_settles_as_duplicates(existing, docs.drop_last());
        assert(lookup(stored_entries(existing), docs[docs.len() - 1].canonical.identity_key@) == Some(docs[docs.len() - 1].canonical.canonical_json@));
    }
}

/// Retrying a batch after its settlement was inserted inserts nothing:
/// every document is then a duplicate. This holds whenever no identity
/// occurs twice among the inserted documents (a batch that repeats a new
/// identity fails on the database's unique key and inserts nothing).
pub proof fn law_snapshot_retry_is_idempotent(
    existing: Seq<StoredDocument>,
    docs: Seq<ProjectedDocument>,
    inserted: Seq<StoredDocument>,
)
    requires
        settle(existing, docs) is Pending,
        stored_entries(inserted) == settle(existing, docs)->Pending_pending.map_values(
            |d: ProjectedDocument| projected_entry(d),
        ),
        distinct_keys(stored_entries(inserted)),
    ensures
        settle(existing + inserted, docs) == (Settled::Pending { pending: Seq::empty(), duplicated: docs.len() }),
{
    let pending = settle(existing, docs)->Pending_pending;
    let es = stored_entries(existing);
    let ins = stored_entries(inserted);
    lemma_settle_facts(existing, docs);
    assert(stored_entries(existing + inserted) =~= es + ins);
    assert forall|i: int| 0 <= i < docs.len() implies lookup(stored_entries(existing + inserted), (#[trigger] docs[i]).canonical.identity_key@)
        == Some(docs[i].canonical.canonical_json@) by {
        let key = docs[i].canonical.identity_key@;
        lemma_lookup_concat_entries(es, ins, key);
        if lookup(es, key) is Some {
            lemma_lookup_found(ins, key);
            if lookup(ins, key) is Some {
                let j = choose|j: int| 0 <= j < ins.len() && ins[j].0 == key && ins[j].1 == lookup(ins, key)->Some_0;
                assert(ins[j] == projected_entry(pending[j]));
                assert(lookup(es, pending[j].canonical.identity_key@) is None);
            }
        } else {
            assert(pending.contains(docs[i]));
            let j = choose|j: int| 0 <= j < pending.len() && pending[j] == docs[i];
            assert(ins[j] == projected_entry(pending[j]));
            lemma_lookup_distinct(ins, j);
        }
    }
    lemma_all_stored_settles_as_duplicates(existing + inserted, docs);
}

} // verus!
