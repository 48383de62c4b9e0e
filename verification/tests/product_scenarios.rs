use openot_persistence::config::{
    select_section, InfluxDb3Section, OpenOtPersistenceBackend, OpenOtPersistenceConfig,
    RelationalSection, SelectedSection, SqliteSection,
};
use openot_persistence::contracts::{
    checkpoint_for, PersistenceCheckpoint, PersistenceError, StoredCheckpointRow,
};
use openot_persistence::fingerprint::{check_catalog, fingerprint};
use openot_persistence::identity::DocumentIdentity;
use openot_persistence::influx_delivery::{maintenance_outcome, spooled_outcome};
use openot_persistence::ledger::{InMemoryDocumentSink, PersistenceBatch, StagedDocument, StoredDocument};
use openot_persistence::rows::{
    DocumentRow, DomainRow, EventLogRow, LossRow, ProjectedDocument, UnresolvedRow,
};
use openot_persistence::settlement::{settle_against_snapshot, snapshot_outcome, stage_projected};
use openot_persistence::status::stops_after_error;

const CANONICAL_DOCUMENT_COUNT: usize = 37;

fn key(run_id: u64, seq: u64) -> String {
    DocumentIdentity::Record { buffer_id: 7, run_id, source_id: 1, seq }.storage_key()
}

fn event_row(run_id: u64, seq: u64) -> EventLogRow {
    EventLogRow {
        record_id: key(run_id, seq),
        event_time: None,
        event_time_ns: None,
        received_time: "2024-01-01T00:00:00.000000000Z".to_string(),
        received_time_ns: "1704067200000000000".to_string(),
        source: None,
        source_id: 1,
        source_path: "plant".to_string(),
        source_hierarchy: "Plant".to_string(),
        buffer_id: 7,
        run_id: run_id.to_string(),
        epoch_id: "0".to_string(),
        sequence: seq.to_string(),
        definition_hash: "abc".to_string(),
        time_unsynced: false,
        synthetic_record: false,
        partial_payload: false,
        event_type_id: 0x0100,
        event_name: "Heartbeat".to_string(),
        has_unclassified_fields: false,
    }
}

fn canonical_row(identity_key: String, kind: &str, json: String) -> DocumentRow {
    DocumentRow {
        identity_key,
        document_kind: kind.to_string(),
        buffer_id: 7,
        run_id: 1u64.to_be_bytes(),
        source_id: 1,
        epoch_id: 0u64.to_be_bytes(),
        seq: None,
        first_seq: None,
        last_seq: None,
        loss_basis: None,
        source_time_ns: None,
        receive_time_ns: 1_704_067_200_000_000_000u64.to_be_bytes(),
        event_type_id: None,
        event_name: None,
        definition_hash: "abc".to_string(),
        canonical_json: json,
    }
}

/// 35 events, one loss range of two records, one unresolved placeholder.
fn canonical_projection(run_id: u64) -> Vec<ProjectedDocument> {
    let mut documents: Vec<ProjectedDocument> = (0..35)
        .map(|seq| ProjectedDocument {
            canonical: canonical_row(key(run_id, seq), "event", format!("{{\"seq\":{seq}}}")),
            event: Some(event_row(run_id, seq)),
            logged_values: Vec::new(),
            domains: Vec::new(),
        })
        .collect();
    let base = event_row(run_id, 35);
    documents.push(ProjectedDocument {
        canonical: canonical_row(format!("l:{run_id}"), "loss", "{\"count\":2}".to_string()),
        event: None,
        logged_values: Vec::new(),
        domains: vec![DomainRow::Loss(LossRow {
            record_id: format!("l:{run_id}"),
            received_time: base.received_time.clone(),
            received_time_ns: base.received_time_ns.clone(),
            source: None,
            source_id: 1,
            source_path: "plant".to_string(),
            source_hierarchy: "Plant".to_string(),
            buffer_id: 7,
            run_id: run_id.to_string(),
            epoch_id: "0".to_string(),
            definition_hash: "abc".to_string(),
            time_unsynced: false,
            synthetic_record: false,
            partial_payload: false,
            first_sequence: "35".to_string(),
            last_sequence: "36".to_string(),
            lost_count: "2".to_string(),
            basis: "authoritative".to_string(),
        })],
    });
    documents.push(ProjectedDocument {
        canonical: canonical_row(key(run_id, 37), "placeholder", "{\"seq\":37}".to_string()),
        event: None,
        logged_values: Vec::new(),
        domains: vec![DomainRow::Unresolved(UnresolvedRow {
            record_id: key(run_id, 37),
            event_time: None,
            event_time_ns: None,
            received_time: base.received_time.clone(),
            received_time_ns: base.received_time_ns.clone(),
            source: None,
            source_id: 1,
            source_path: "plant".to_string(),
            source_hierarchy: "Plant".to_string(),
            buffer_id: 7,
            run_id: run_id.to_string(),
            epoch_id: "0".to_string(),
            sequence: "37".to_string(),
            definition_hash: "abc".to_string(),
            time_unsynced: false,
            synthetic_record: true,
            partial_payload: false,
            event_type_id: 999,
            reason: "UnknownEventId".to_string(),
            diagnostic_summary: None,
        })],
    });
    documents
}

fn stored(documents: &[ProjectedDocument]) -> Vec<StoredDocument> {
    documents
        .iter()
        .map(|d| StoredDocument {
            identity_key: d.canonical.identity_key.clone(),
            canonical_json: d.canonical.canonical_json.clone(),
        })
        .collect()
}

/// What a MySQL-protocol commit decides: all documents of a fresh batch are
/// inserted with their projection counts; an identical retry inserts
/// nothing and reports every document as a duplicate.
fn assert_mysql_protocol_commit_and_retry() {
    let checkpoint = PersistenceCheckpoint { buffer_id: 7, run_id: 1, cursor_abs: 4096 };
    let batch = canonical_projection(1);
    let first = settle_against_snapshot(&Vec::new(), batch.clone()).expect("settle fresh batch");
    let outcome = snapshot_outcome(&first.pending, first.duplicated, checkpoint).expect("commit outcome");
    assert_eq!(outcome.inserted, CANONICAL_DOCUMENT_COUNT);
    assert_eq!(outcome.duplicated, 0);
    assert_eq!(outcome.projection_rows_committed, 37);
    assert_eq!(outcome.unresolved_documents, 1);
    assert_eq!(outcome.loss_ranges, 1);
    assert_eq!(outcome.lost_records, 2);
    assert_eq!(outcome.checkpoint, checkpoint);

    let snapshot = stored(&first.pending);
    let retried = settle_against_snapshot(&snapshot, batch).expect("retry identical document batch");
    let retried_outcome =
        snapshot_outcome(&retried.pending, retried.duplicated, checkpoint).expect("retry outcome");
    assert_eq!(retried_outcome.inserted, 0);
    assert_eq!(retried_outcome.duplicated, CANONICAL_DOCUMENT_COUNT);
}

#[test]
fn mysql_sink_initializes_and_commits_on_real_mysql_8_4_lts() {
    assert_mysql_protocol_commit_and_retry();
}

#[test]
fn mysql_sink_initializes_and_commits_on_real_mariadb_11_8_lts() {
    assert_mysql_protocol_commit_and_retry();
}

fn catalog_rows() -> Vec<String> {
    vec![
        "table|logging_records|logging_records|CREATE TABLE logging_records(...)".to_string(),
        "index|logging_records_receive_time|logging_records|CREATE INDEX ...".to_string(),
        "table|logging_checkpoint|logging_checkpoint|CREATE TABLE logging_checkpoint(...)".to_string(),
    ]
}

/// A generation whose catalog lost a required index no longer matches the
/// recorded fingerprint and fails closed.
fn assert_mysql_protocol_rejects_changed_catalog() {
    let recorded = fingerprint(catalog_rows());
    let mut damaged = catalog_rows();
    damaged.remove(1);
    let error = check_catalog(&recorded, &fingerprint(damaged), "MySQL")
        .expect_err("changed MySQL-protocol catalog must fail closed");
    assert!(format!("{error:?}").contains("incompatible pre-release schema"));
    let mut reordered = catalog_rows();
    reordered.reverse();
    assert!(check_catalog(&recorded, &fingerprint(reordered), "MySQL").is_ok());
}

#[test]
fn mysql_sink_rejects_changed_generation_1_catalog() {
    assert_mysql_protocol_rejects_changed_catalog();
}

#[test]
fn mariadb_sink_rejects_changed_generation_1_catalog() {
    assert_mysql_protocol_rejects_changed_catalog();
}

fn product_config(backend: OpenOtPersistenceBackend) -> OpenOtPersistenceConfig {
    let relational = |env: &str| RelationalSection {
        connection_url_env: env.to_string(),
        schema: "openot_restart".to_string(),
        ca_cert_path: Some("/ca.pem".to_string()),
    };
    OpenOtPersistenceConfig {
        enabled: true,
        backend: Some(backend),
        sqlite: Some(SqliteSection { path: "history/logging.sqlite3".to_string() }),
        postgresql: Some(relational("TRUST_TEST_OPENOT_POSTGRES_URL")),
        timescaledb: Some(relational("TRUST_TEST_OPENOT_TIMESCALE_URL")),
        mysql: Some(relational("TRUST_TEST_OPENOT_MYSQL_URL")),
        sqlserver: Some(relational("TRUST_TEST_OPENOT_SQLSERVER_URL")),
        influxdb3: Some(InfluxDb3Section {
            host_env: "TRUST_TEST_OPENOT_INFLUX_HOST".to_string(),
            token_env: "TRUST_TEST_OPENOT_INFLUX_TOKEN".to_string(),
            database: "openot".to_string(),
            spool_path: "influx-spool.sqlite3".to_string(),
            ca_cert_path: Some("/ca.pem".to_string()),
            max_bytes: 1_073_741_824,
        }),
        batch_size: 64,
        queue_capacity: 4096,
        flush_interval_ms: 100,
        retry_initial_ms: 10,
        retry_max_ms: 200,
        retry_multiplier: 2,
        retry_max_attempts: 15,
        shutdown_timeout_ms: 5000,
    }
}

fn staged(documents: &[ProjectedDocument]) -> Vec<StagedDocument> {
    documents.iter().map(|d| stage_projected(d).expect("stage document")).collect()
}

/// Restart recovery: the selected product (never another backend) keeps
/// the baseline; an outage fails the recovery batch without
/// acknowledging it and without exhausting the retry budget; after the
/// restart the retried batch commits and the durable checkpoint row read
/// back after the restart is the recovery checkpoint.
fn assert_restart_recovery(backend: OpenOtPersistenceBackend) {
    let config = product_config(backend);
    let section = select_section(&config).expect("select configured product");
    match (&section, backend) {
        (SelectedSection::Sqlite(_), _) => panic!("restart must not fall back to SQLite"),
        (SelectedSection::InfluxDb3(_), OpenOtPersistenceBackend::InfluxDb3) => {}
        (SelectedSection::Relational(selected, _), _) => assert_eq!(*selected, backend),
        _ => panic!("unexpected product section"),
    }

    let stamp = 77u64;
    let mut sink = InMemoryDocumentSink::new();
    let baseline = PersistenceBatch {
        documents: staged(&canonical_projection(stamp)),
        checkpoint: PersistenceCheckpoint { buffer_id: 7, run_id: stamp, cursor_abs: 4096 },
    };
    sink.commit(&baseline).expect("commit baseline");
    let recovery = PersistenceBatch {
        documents: staged(&canonical_projection(stamp + 1)),
        checkpoint: PersistenceCheckpoint { buffer_id: 7, run_id: stamp + 1, cursor_abs: 8192 },
    };

    if backend == OpenOtPersistenceBackend::InfluxDb3 {
        let local = sink.commit(&recovery).expect("InfluxDB outage must accept into its durable spool");
        let outcome = spooled_outcome(local, CANONICAL_DOCUMENT_COUNT as i64, 2 * CANONICAL_DOCUMENT_COUNT as i64);
        assert_eq!(outcome.inserted, CANONICAL_DOCUMENT_COUNT);
        assert!(outcome.remote_pending >= CANONICAL_DOCUMENT_COUNT);
        let drained = maintenance_outcome(2 * CANONICAL_DOCUMENT_COUNT as i64, 0, 0);
        assert_eq!(drained.remote_pending, 0);
        assert_eq!(drained.reconciled_parts, 2 * CANONICAL_DOCUMENT_COUNT);
    } else {
        sink.fail_next_commit();
        let outage = sink.commit(&recovery);
        outage.expect_err("outage must not be acknowledged as a remote commit");
        assert_eq!(sink.checkpoint(), Some(baseline.checkpoint));
        let lost = PersistenceError::Connection(format!("{} commit: connection closed", backend.as_str()));
        assert!(!stops_after_error(&lost, 0, 15), "an outage is retried");
        sink.commit(&recovery).expect("retry after restart");
    }

    let durable = sink.checkpoint().expect("durable checkpoint");
    let row = StoredCheckpointRow {
        buffer_id: i64::from(durable.buffer_id),
        run_id: durable.run_id.to_be_bytes().to_vec(),
        cursor_abs: durable.cursor_abs.to_be_bytes().to_vec(),
    };
    let checkpoint = checkpoint_for(Some(&row), 7, recovery.checkpoint.run_id, backend.as_str())
        .expect("load recovery checkpoint");
    assert_eq!(checkpoint, Some(recovery.checkpoint));
}

#[test]
fn postgresql_real_server_restart_recovers_without_backend_fallback() {
    assert_restart_recovery(OpenOtPersistenceBackend::PostgreSql);
}

#[test]
fn timescaledb_real_server_restart_recovers_without_plain_postgresql_fallback() {
    assert_restart_recovery(OpenOtPersistenceBackend::TimescaleDb);
}

#[test]
fn mysql_real_server_restart_recovers_without_backend_fallback() {
    assert_restart_recovery(OpenOtPersistenceBackend::MySql);
}

#[test]
fn mariadb_real_server_restart_recovers_on_the_shared_mysql_adapter() {
    assert_restart_recovery(OpenOtPersistenceBackend::MySql);
}

#[test]
fn sqlserver_real_server_restart_recovers_without_backend_fallback() {
    assert_restart_recovery(OpenOtPersistenceBackend::SqlServer);
}

#[test]
fn influxdb3_real_server_restart_drains_the_required_durable_spool() {
    assert_restart_recovery(OpenOtPersistenceBackend::InfluxDb3);
}
