use openot_persistence::contracts::PersistenceCheckpoint;
use openot_persistence::rows::{
    DocumentRow, DomainRow, EventLogRow, LossRow, OperatorRow, ProjectedDocument, UnresolvedRow,
};
use openot_persistence::sql_binds::{loss_params, special_row_inserts, unresolved_params, SqlParam};
use openot_persistence::sqlserver_plan::{
    checkpoint_merge, event_insert_statement, identity_lookup_statement, records_insert_statement,
    repeated_domains_statement, validate_sqlserver_schema, value_chunks, value_insert_statement,
    LOGGED_VALUE_PARAMETERS, SQLSERVER_LOGGED_VALUE_ROWS_PER_STATEMENT, SQLSERVER_PARAMETER_LIMIT,
};

fn common(seq: u64) -> EventLogRow {
    EventLogRow {
        record_id: format!("r:00000007:0000000000000001:00000001:{seq:016x}"),
        event_time: None,
        event_time_ns: None,
        received_time: "2024-01-01T00:00:00.000000000Z".to_string(),
        received_time_ns: "1704067200000000000".to_string(),
        source: Some("line-1".to_string()),
        source_id: 1,
        source_path: "plant/line-1".to_string(),
        source_hierarchy: "Plant/Line 1".to_string(),
        buffer_id: 7,
        run_id: "1".to_string(),
        epoch_id: "0".to_string(),
        sequence: seq.to_string(),
        definition_hash: "abc".to_string(),
        time_unsynced: false,
        synthetic_record: false,
        partial_payload: false,
        event_type_id: 0x0400,
        event_name: "OperatorAction".to_string(),
        has_unclassified_fields: false,
    }
}

fn loss_row(first: u64) -> LossRow {
    LossRow {
        record_id: format!("l:00000007:0000000000000001:00000001:0000000000000000:{first:016x}:{:016x}:authoritative", first + 1),
        received_time: "2024-01-01T00:00:00.000000000Z".to_string(),
        received_time_ns: "1704067200000000000".to_string(),
        source: None,
        source_id: 1,
        source_path: "plant/line-1".to_string(),
        source_hierarchy: "Plant/Line 1".to_string(),
        buffer_id: 7,
        run_id: "1".to_string(),
        epoch_id: "0".to_string(),
        definition_hash: "abc".to_string(),
        time_unsynced: true,
        synthetic_record: true,
        partial_payload: true,
        first_sequence: first.to_string(),
        last_sequence: (first + 1).to_string(),
        lost_count: "2".to_string(),
        basis: "authoritative".to_string(),
    }
}

fn unresolved_row(seq: u64) -> UnresolvedRow {
    UnresolvedRow {
        record_id: format!("r:00000007:0000000000000001:00000001:{seq:016x}"),
        event_time: None,
        event_time_ns: None,
        received_time: "2024-01-01T00:00:00.000000000Z".to_string(),
        received_time_ns: "1704067200000000000".to_string(),
        source: None,
        source_id: 1,
        source_path: "plant/line-1".to_string(),
        source_hierarchy: "Plant/Line 1".to_string(),
        buffer_id: 7,
        run_id: "1".to_string(),
        epoch_id: "0".to_string(),
        sequence: seq.to_string(),
        definition_hash: "abc".to_string(),
        time_unsynced: false,
        synthetic_record: true,
        partial_payload: false,
        event_type_id: 999,
        reason: "UnknownEventId".to_string(),
        diagnostic_summary: None,
    }
}

fn document(key: &str, domains: Vec<DomainRow>) -> ProjectedDocument {
    ProjectedDocument {
        canonical: DocumentRow {
            identity_key: key.to_string(),
            document_kind: "event".to_string(),
            buffer_id: 7,
            run_id: 1u64.to_be_bytes(),
            source_id: 1,
            epoch_id: 0u64.to_be_bytes(),
            seq: None,
            first_seq: None,
            last_seq: None,
            loss_basis: None,
            source_time_ns: None,
            receive_time_ns: 1u64.to_be_bytes(),
            event_type_id: None,
            event_name: None,
            definition_hash: "abc".to_string(),
            canonical_json: "{}".to_string(),
        },
        event: None,
        logged_values: Vec::new(),
        domains,
    }
}

fn operator(seq: u64) -> DomainRow {
    DomainRow::Operator(OperatorRow {
        common: common(seq),
        action: "OperatorAction".to_string(),
        action_id: None,
        actor: None,
        workstation: None,
        role: None,
        authorization_result: None,
        reason: None,
        context_references: None,
    })
}

#[test]
fn logged_value_batches_stay_within_sql_server_parameter_limit() {
    assert_eq!(SQLSERVER_LOGGED_VALUE_ROWS_PER_STATEMENT, 53);
    assert!(SQLSERVER_LOGGED_VALUE_ROWS_PER_STATEMENT * LOGGED_VALUE_PARAMETERS <= SQLSERVER_PARAMETER_LIMIT);
    let chunks = value_chunks(120);
    assert_eq!(chunks, vec![(0, 53), (53, 106), (106, 120)]);
    for (start, end) in chunks {
        assert!(end - start <= SQLSERVER_LOGGED_VALUE_ROWS_PER_STATEMENT);
        assert!((end - start) * LOGGED_VALUE_PARAMETERS <= SQLSERVER_PARAMETER_LIMIT);
    }
    let statement = value_insert_statement("trust_logging", SQLSERVER_LOGGED_VALUE_ROWS_PER_STATEMENT);
    assert!(statement.contains("@P2067)"));
    assert!(!statement.contains("@P2068"));
}

#[test]
fn every_special_document_is_projected_without_first_match_collapse() {
    let documents = vec![
        document("a", vec![operator(1), DomainRow::Loss(loss_row(10)), DomainRow::Loss(loss_row(20))]),
        document("b", vec![DomainRow::Unresolved(unresolved_row(30))]),
        document("c", vec![DomainRow::Loss(loss_row(40)), operator(2), DomainRow::Unresolved(unresolved_row(50))]),
    ];
    let inserts = special_row_inserts("trust_logging", &documents);
    assert_eq!(inserts.len(), 5);
    let tables: Vec<bool> = inserts
        .iter()
        .map(|insert| insert.statement.contains("].data_loss("))
        .collect();
    assert_eq!(tables, vec![true, true, false, true, false]);
    assert_eq!(inserts[0].params[10], SqlParam::Text("10".to_string()));
    assert_eq!(inserts[1].params[10], SqlParam::Text("20".to_string()));
    assert_eq!(inserts[3].params[10], SqlParam::Text("40".to_string()));
    assert_eq!(inserts[2].params[12], SqlParam::Text("30".to_string()));
    assert_eq!(inserts[4].params[12], SqlParam::Text("50".to_string()));
}

#[test]
fn loss_and_unresolved_inserts_bind_complete_provenance() {
    let loss = loss_params(&loss_row(10));
    assert_eq!(loss.len(), 18);
    assert_eq!(loss[5], SqlParam::Text("plant/line-1".to_string()));
    assert_eq!(loss[6], SqlParam::Text("Plant/Line 1".to_string()));
    assert_eq!(loss[12], SqlParam::Bit(true));
    assert_eq!(loss[13], SqlParam::Bit(true));
    assert_eq!(loss[14], SqlParam::Bit(true));
    let unresolved = unresolved_params(&unresolved_row(30));
    assert_eq!(unresolved.len(), 20);
    assert_eq!(unresolved[7], SqlParam::Text("plant/line-1".to_string()));
    assert_eq!(unresolved[8], SqlParam::Text("Plant/Line 1".to_string()));
    assert_eq!(unresolved[14], SqlParam::Bit(false));
    assert_eq!(unresolved[15], SqlParam::Bit(true));
    assert_eq!(unresolved[16], SqlParam::Bit(false));
}

#[test]
fn loss_params_follow_placeholder_order() {
    let params = loss_params(&loss_row(10));
    assert_eq!(params[0], SqlParam::Text(loss_row(10).record_id));
    assert_eq!(params[3], SqlParam::NullableText(None));
    assert_eq!(params[4], SqlParam::BigInt(1));
    assert_eq!(params[7], SqlParam::BigInt(7));
    assert_eq!(params[15], SqlParam::Text("11".to_string()));
    assert_eq!(params[16], SqlParam::Text("2".to_string()));
    assert_eq!(params[17], SqlParam::Text("authoritative".to_string()));
}

#[test]
fn identity_lookup_numbers_every_identity() {
    assert_eq!(
        identity_lookup_statement("s", 3),
        "SELECT identity_key,canonical_json FROM [s].logging_records WITH(UPDLOCK,HOLDLOCK) WHERE identity_key IN (@P1,@P2,@P3)"
    );
}

#[test]
fn records_insert_uses_sixteen_parameters_per_row() {
    let statement = records_insert_statement("s", 2);
    assert!(statement.starts_with("INSERT INTO [s].logging_records(identity_key,document_kind,"));
    assert!(statement.ends_with(
        " VALUES (@P1,@P2,@P3,@P4,@P5,@P6,@P7,@P8,@P9,@P10,@P11,@P12,@P13,@P14,@P15,@P16),(@P17,@P18,@P19,@P20,@P21,@P22,@P23,@P24,@P25,@P26,@P27,@P28,@P29,@P30,@P31,@P32)"
    ));
}

#[test]
fn event_insert_converts_times_and_nanoseconds() {
    let statement = event_insert_statement("s", 1);
    assert!(statement.ends_with(
        " VALUES (@P1,CONVERT(DATETIME2(7),LEFT(@P2,27),127),CONVERT(DECIMAL(20,0),@P3),CONVERT(DATETIME2(7),LEFT(@P4,27),127),CONVERT(DECIMAL(20,0),@P5),@P6,@P7,@P8,@P9,@P10,@P11,@P12,@P13,@P14,@P15,@P16,@P17,@P18,@P19,@P20)"
    ));
}

#[test]
fn repeated_domains_number_parameters_across_tables() {
    let statement = repeated_domains_statement("s", 1, 0, 1, 0);
    let parts: Vec<&str> = statement.split(';').collect();
    assert_eq!(parts.len(), 2);
    assert!(parts[0].starts_with("INSERT INTO [s].alarm_history("));
    assert!(parts[0].contains("JOIN (VALUES (@P1,@P2,@P3,@P4)) rows(record_id,condition,condition_class,lifecycle_action)"));
    assert!(parts[1].starts_with("INSERT INTO [s].operator_activity("));
    assert!(parts[1].contains("(VALUES (@P5,@P6,@P7,@P8,@P9,@P10,@P11,@P12,@P13))"));
    assert_eq!(repeated_domains_statement("s", 0, 0, 0, 0), "");
}

#[test]
fn checkpoint_merge_writes_hex_cursor_and_commits() {
    let statement = checkpoint_merge(
        "s",
        PersistenceCheckpoint { buffer_id: 7, run_id: 1, cursor_abs: 4096 },
    );
    assert!(statement.starts_with("MERGE [s].logging_checkpoint WITH(HOLDLOCK) AS t USING(SELECT CAST(1 AS BIT) singleton,7 buffer_id,0x0000000000000001 run_id,0x0000000000001000 cursor_abs)"));
    assert!(statement.ends_with("COMMIT TRANSACTION;"));
}

#[test]
fn sqlserver_schema_must_be_an_identifier() {
    assert!(validate_sqlserver_schema("trust_logging").is_ok());
    assert!(validate_sqlserver_schema("_x1").is_ok());
    for bad in ["", "1abc", "a-b", "a]b; DROP TABLE x"] {
        assert_eq!(
            validate_sqlserver_schema(bad),
            Err(openot_persistence::contracts::PersistenceError::InvalidConfig(
                "SQL Server schema must be a SQL identifier".to_string()
            ))
        );
    }
}
