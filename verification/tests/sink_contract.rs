use openot_persistence::contracts::{PersistenceCheckpoint, PersistenceError};
use openot_persistence::identity::{DocumentIdentity, LossBasis};
use openot_persistence::ledger::{InMemoryDocumentSink, PersistenceBatch, StagedDocument};

const CANONICAL_DOCUMENT_COUNT: usize = 37;

fn event(seq: u64) -> StagedDocument {
    let key = DocumentIdentity::Record {
        buffer_id: 7,
        run_id: 1,
        source_id: 1,
        seq,
    }
    .storage_key();
    StagedDocument {
        identity_key: key,
        canonical_json: format!("{{\"kind\":\"event\",\"seq\":{seq}}}"),
        projection_rows: 2,
        unclassified_event: false,
        unresolved: 0,
        loss_ranges: 0,
        lost_records: 0,
    }
}

/// 35 events, one loss range of two records, one unresolved placeholder.
fn canonical_documents() -> Vec<StagedDocument> {
    let mut documents: Vec<StagedDocument> = (0..35).map(event).collect();
    let loss_key = DocumentIdentity::Loss {
        buffer_id: 7,
        run_id: 1,
        source_id: 1,
        epoch_id: 0,
        first_seq: 35,
        last_seq: 36,
        basis: LossBasis::Authoritative,
    }
    .storage_key();
    documents.push(StagedDocument {
        identity_key: loss_key,
        canonical_json: "{\"kind\":\"loss\",\"count\":2}".to_string(),
        projection_rows: 1,
        unclassified_event: false,
        unresolved: 0,
        loss_ranges: 1,
        lost_records: 2,
    });
    let placeholder_key = DocumentIdentity::Record {
        buffer_id: 7,
        run_id: 1,
        source_id: 1,
        seq: 37,
    }
    .storage_key();
    documents.push(StagedDocument {
        identity_key: placeholder_key,
        canonical_json: "{\"kind\":\"placeholder\",\"seq\":37}".to_string(),
        projection_rows: 1,
        unclassified_event: false,
        unresolved: 1,
        loss_ranges: 0,
        lost_records: 0,
    });
    documents
}

fn stored_pairs(sink: &InMemoryDocumentSink) -> Vec<(String, String)> {
    sink.documents()
        .iter()
        .map(|d| (d.identity_key.clone(), d.canonical_json.clone()))
        .collect()
}

fn staged_pairs(documents: &[StagedDocument]) -> Vec<(String, String)> {
    documents
        .iter()
        .map(|d| (d.identity_key.clone(), d.canonical_json.clone()))
        .collect()
}

#[test]
fn sink_checkpoint_contract_reads_none_then_committed_cursor() {
    let mut sink = InMemoryDocumentSink::new();
    assert_eq!(sink.load_checkpoint(9, 1).expect("load empty checkpoint"), None);
    let batch = PersistenceBatch {
        documents: Vec::new(),
        checkpoint: PersistenceCheckpoint {
            buffer_id: 9,
            run_id: 1,
            cursor_abs: 123,
        },
    };
    sink.commit(&batch).expect("commit checkpoint");
    assert_eq!(
        sink.load_checkpoint(9, 1).expect("load committed checkpoint"),
        Some(batch.checkpoint)
    );
    assert_eq!(sink.load_checkpoint(10, 1).expect("load other buffer"), None);
}

#[test]
fn in_memory_sink_commits_event_loss_placeholder_and_checkpoint_unchanged() {
    let documents = canonical_documents();
    let checkpoint = PersistenceCheckpoint {
        buffer_id: 7,
        run_id: 1,
        cursor_abs: 4096,
    };
    let batch = PersistenceBatch {
        documents: documents.clone(),
        checkpoint,
    };
    let mut sink = InMemoryDocumentSink::new();

    let outcome = sink.commit(&batch).expect("batch should commit atomically");

    assert_eq!(stored_pairs(&sink), staged_pairs(&documents));
    assert_eq!(sink.checkpoint(), Some(checkpoint));
    assert_eq!(outcome.inserted, CANONICAL_DOCUMENT_COUNT);
    assert_eq!(outcome.duplicated, 0);
    assert_eq!(outcome.unresolved_documents, 1);
    assert_eq!(outcome.loss_ranges, 1);
    assert_eq!(outcome.lost_records, 2);
    assert_eq!(outcome.checkpoint, checkpoint);
}

#[test]
fn failed_sink_commit_advances_neither_documents_nor_checkpoint() {
    let original_checkpoint = PersistenceCheckpoint {
        buffer_id: 7,
        run_id: 1,
        cursor_abs: 100,
    };
    let original_batch = PersistenceBatch {
        documents: vec![canonical_documents().remove(0)],
        checkpoint: original_checkpoint,
    };
    let mut sink = InMemoryDocumentSink::new();
    sink.commit(&original_batch).expect("baseline commit");
    let original_documents = stored_pairs(&sink);

    sink.fail_next_commit();
    let failed_batch = PersistenceBatch {
        documents: canonical_documents(),
        checkpoint: PersistenceCheckpoint {
            buffer_id: 7,
            run_id: 1,
            cursor_abs: 200,
        },
    };
    let result = sink.commit(&failed_batch);

    assert!(result.is_err(), "injected transaction failure must be visible");
    assert_eq!(stored_pairs(&sink), original_documents);
    assert_eq!(sink.checkpoint(), Some(original_checkpoint));
}

#[test]
fn retrying_identical_batch_is_idempotent() {
    let documents = canonical_documents();
    let checkpoint = PersistenceCheckpoint {
        buffer_id: 7,
        run_id: 1,
        cursor_abs: 4096,
    };
    let batch = PersistenceBatch {
        documents: documents.clone(),
        checkpoint,
    };
    let mut sink = InMemoryDocumentSink::new();
    sink.commit(&batch).expect("first commit");

    let retried = sink.commit(&batch).expect("idempotent retry");

    assert_eq!(stored_pairs(&sink), staged_pairs(&documents));
    assert_eq!(sink.checkpoint(), Some(checkpoint));
    assert_eq!(retried.inserted, 0);
    assert_eq!(retried.duplicated, CANONICAL_DOCUMENT_COUNT);
    assert_eq!(retried.unresolved_documents, 0);
    assert_eq!(retried.loss_ranges, 0);
    assert_eq!(retried.lost_records, 0);
}

#[test]
fn sink_rejects_checkpoint_regression_without_changing_durable_state() {
    let documents = canonical_documents();
    let mut sink = InMemoryDocumentSink::new();
    let committed = PersistenceBatch {
        documents: documents.clone(),
        checkpoint: PersistenceCheckpoint {
            buffer_id: 7,
            run_id: 1,
            cursor_abs: 200,
        },
    };
    sink.commit(&committed).expect("baseline commit");

    let stale = PersistenceBatch {
        documents: Vec::new(),
        checkpoint: PersistenceCheckpoint {
            buffer_id: 7,
            run_id: 1,
            cursor_abs: 100,
        },
    };
    let result = sink.commit(&stale);

    assert!(result.is_err(), "a stale cursor must fail closed");
    assert_eq!(stored_pairs(&sink), staged_pairs(&documents));
    assert_eq!(sink.checkpoint(), Some(committed.checkpoint));
}

#[test]
fn regression_error_names_both_cursors() {
    let mut sink = InMemoryDocumentSink::new();
    let first = PersistenceBatch {
        documents: Vec::new(),
        checkpoint: PersistenceCheckpoint { buffer_id: 7, run_id: 1, cursor_abs: 200 },
    };
    sink.commit(&first).expect("baseline commit");
    let stale = PersistenceBatch {
        documents: Vec::new(),
        checkpoint: PersistenceCheckpoint { buffer_id: 7, run_id: 1, cursor_abs: 100 },
    };
    assert_eq!(
        sink.commit(&stale),
        Err(PersistenceError::CheckpointRegression { current: 200, requested: 100 })
    );
}

#[test]
fn cursor_of_another_run_does_not_regress() {
    let mut sink = InMemoryDocumentSink::new();
    let first = PersistenceBatch {
        documents: Vec::new(),
        checkpoint: PersistenceCheckpoint { buffer_id: 7, run_id: 1, cursor_abs: 200 },
    };
    sink.commit(&first).expect("baseline commit");
    let new_run = PersistenceBatch {
        documents: Vec::new(),
        checkpoint: PersistenceCheckpoint { buffer_id: 7, run_id: 2, cursor_abs: 10 },
    };
    sink.commit(&new_run).expect("a recreated ring starts its own cursor");
    assert_eq!(sink.load_checkpoint(7, 1).expect("load old run"), None);
    assert_eq!(
        sink.load_checkpoint(7, 2).expect("load new run"),
        Some(new_run.checkpoint)
    );
}

#[test]
fn same_identity_with_other_content_is_a_conflict() {
    let mut sink = InMemoryDocumentSink::new();
    let first = event(1);
    let mut changed = event(1);
    changed.canonical_json = "{\"kind\":\"event\",\"seq\":1,\"changed\":true}".to_string();
    let checkpoint = PersistenceCheckpoint { buffer_id: 7, run_id: 1, cursor_abs: 1 };
    sink.commit(&PersistenceBatch { documents: vec![first.clone()], checkpoint })
        .expect("first commit");
    let result = sink.commit(&PersistenceBatch {
        documents: vec![changed],
        checkpoint: PersistenceCheckpoint { cursor_abs: 2, ..checkpoint },
    });
    assert_eq!(result, Err(PersistenceError::IdentityConflict(first.identity_key.clone())));
    assert_eq!(sink.documents().len(), 1);
    assert_eq!(sink.checkpoint(), Some(checkpoint));
}

#[test]
fn injected_failure_message_is_fixed() {
    let mut sink = InMemoryDocumentSink::new();
    sink.fail_next_commit();
    let result = sink.commit(&PersistenceBatch {
        documents: vec![event(1)],
        checkpoint: PersistenceCheckpoint { buffer_id: 7, run_id: 1, cursor_abs: 1 },
    });
    assert_eq!(
        result,
        Err(PersistenceError::Commit("injected in-memory transaction failure".to_string()))
    );
    assert!(sink.documents().is_empty());
    assert_eq!(sink.checkpoint(), None);
}

#[test]
fn remote_backlog_is_reported_by_maintenance_and_commits() {
    let mut sink = InMemoryDocumentSink::new();
    sink.set_remote_pending(5);
    let maintenance = sink.maintenance_status().unwrap();
    assert_eq!(maintenance.remote_pending, 5);
    assert_eq!(sink.maintenance_calls(), 1);
    let outcome = sink
        .commit(&PersistenceBatch {
            documents: vec![event(1)],
            checkpoint: PersistenceCheckpoint { buffer_id: 7, run_id: 1, cursor_abs: 1 },
        })
        .unwrap();
    assert_eq!(outcome.remote_pending, 5);
    assert_eq!(outcome.inserted, 1);
}

#[test]
fn record_keys_sort_as_their_identities() {
    let key = |buffer_id: u32, run_id: u64, source_id: u32, seq: u64| {
        DocumentIdentity::Record { buffer_id, run_id, source_id, seq }.storage_key()
    };
    let ordered = [
        key(1, 0, 0, 0),
        key(1, 0, 0, 9),
        key(1, 0, 0, 10),
        key(1, 0, 2, 0),
        key(1, 15, 0, 0),
        key(1, 16, 0, 0),
        key(2, 0, 0, 0),
        key(u32::MAX, u64::MAX, u32::MAX, u64::MAX),
    ];
    for pair in ordered.windows(2) {
        assert!(pair[0].as_bytes() < pair[1].as_bytes(), "{} !< {}", pair[0], pair[1]);
    }
}

#[test]
fn a_restart_replaying_committed_documents_commits_nothing_twice() {
    let mut sink = InMemoryDocumentSink::new();
    let first = PersistenceBatch {
        documents: vec![event(1), event(2), event(3)],
        checkpoint: PersistenceCheckpoint { buffer_id: 7, run_id: 1, cursor_abs: 192 },
    };
    sink.commit(&first).unwrap();
    assert_eq!(sink.load_checkpoint(7, 1), Ok(Some(first.checkpoint)));
    let stored = stored_pairs(&sink);
    let replay = PersistenceBatch {
        documents: vec![event(2), event(3)],
        checkpoint: PersistenceCheckpoint { buffer_id: 7, run_id: 1, cursor_abs: 256 },
    };
    let outcome = sink.commit(&replay).unwrap();
    assert_eq!(outcome.inserted, 0);
    assert_eq!(outcome.duplicated, 2);
    assert_eq!(stored_pairs(&sink), stored);
}
