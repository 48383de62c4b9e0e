use openot_persistence::contracts::PersistenceError;
use openot_persistence::influx_points::{canonical_line_protocol, domain_line, event_line, line_protocol};
use openot_persistence::line_protocol::{custom_line, escape_field, escape_tag, validate_database};
use openot_persistence::rows::{
    AuditRow, BatchRow, DocumentRow, DomainRow, EventLogRow, LoggedValueRow, LossRow, MaterialRow,
    MessageRow, OperatorRow, ProjectedDocument, RecipeRow, SignatureRow, StateRow, TypedDisplay,
    UnresolvedRow,
};
use openot_persistence::timestamp::{format_timestamp, logging_timestamp, render_utc, UtcParts};

const RECORD: &str = "r:00000007:0000000000000001:00000001:0000000000000005";
const COMMON_FIELDS: &str = "received_time=\"2024-01-01T00:00:00.000000000Z\",received_time_ns=1704067200000000000u,source=\"line-1\",source_path=\"plant/line-1\",source_hierarchy=\"Plant/Line 1\",buffer_id=7u,epoch_id=0u,sequence=5u,definition_hash=\"abc\",time_unsynced=false,synthetic_record=false,partial_payload=false";

fn event() -> EventLogRow {
    EventLogRow {
        record_id: RECORD.to_string(),
        event_time: None,
        event_time_ns: None,
        received_time: "2024-01-01T00:00:00.000000000Z".to_string(),
        received_time_ns: "1704067200000000000".to_string(),
        source: Some("line-1".to_string()),
        source_id: 1,
        source_path: "plant/line-1".to_string(),
        source_hierarchy: "Plant/Line 1".to_string(),
        buffer_id: 7,
        run_id: "1".to_string(),
        epoch_id: "0".to_string(),
        sequence: "5".to_string(),
        definition_hash: "abc".to_string(),
        time_unsynced: false,
        synthetic_record: false,
        partial_payload: false,
        event_type_id: 0x0400,
        event_name: "OperatorAction".to_string(),
        has_unclassified_fields: false,
    }
}

fn document(receive_time_ns: u64) -> DocumentRow {
    DocumentRow {
        identity_key: RECORD.to_string(),
        document_kind: "record".to_string(),
        buffer_id: 7,
        run_id: 1u64.to_be_bytes(),
        source_id: 1,
        epoch_id: 0u64.to_be_bytes(),
        seq: Some(5u64.to_be_bytes().to_vec()),
        first_seq: None,
        last_seq: None,
        loss_basis: None,
        source_time_ns: None,
        receive_time_ns: receive_time_ns.to_be_bytes(),
        event_type_id: Some(0x0400),
        event_name: Some("OperatorAction".to_string()),
        definition_hash: "abc".to_string(),
        canonical_json: "{\"a\":\"b c\"}".to_string(),
    }
}

fn operator() -> OperatorRow {
    OperatorRow {
        common: event(),
        action: "start".to_string(),
        action_id: None,
        actor: None,
        workstation: None,
        role: None,
        authorization_result: None,
        reason: None,
        context_references: None,
    }
}

fn loss() -> LossRow {
    LossRow {
        record_id: "l:00000007:0000000000000001:00000001:0000000000000000:0000000000000003:0000000000000004:authoritative".to_string(),
        received_time: "2024-01-01T00:00:00.000000000Z".to_string(),
        received_time_ns: "1704067200000000000".to_string(),
        source: None,
        source_id: 1,
        source_path: "plant/line-1".to_string(),
        source_hierarchy: "Plant/Line 1".to_string(),
        buffer_id: 7,
        run_id: "1".to_string(),
        epoch_id: "0".to_string(),
        definition_hash: "abc".to_string(),
        time_unsynced: false,
        synthetic_record: true,
        partial_payload: false,
        first_sequence: "3".to_string(),
        last_sequence: "4".to_string(),
        lost_count: "2".to_string(),
        basis: "authoritative".to_string(),
    }
}

#[test]
fn tag_escaping_covers_backslash_comma_equals_and_space() {
    assert_eq!(escape_tag("a b,c=d\\e"), "a\\ b\\,c\\=d\\\\e");
    assert_eq!(escape_tag("plain"), "plain");
}

#[test]
fn field_escaping_covers_backslash_quote_and_line_breaks() {
    assert_eq!(escape_field("say \"hi\"\n\r\\"), "say \\\"hi\\\"\\n\\r\\\\");
    assert_eq!(escape_field("a b,c=d"), "a b,c=d");
}

#[test]
fn database_names_are_ascii_words_with_dashes() {
    assert!(validate_database("plant_01-a").is_ok());
    for bad in ["", "bad name", "daten/bank", "größe"] {
        match validate_database(bad) {
            Err(PersistenceError::InvalidConfig(message)) => assert_eq!(
                message,
                "InfluxDB 3 database must contain only ASCII letters, digits, '_' or '-'"
            ),
            other => panic!("{bad:?} must be rejected, got {other:?}"),
        }
    }
}

#[test]
fn custom_line_escapes_tags_and_joins_fields() {
    let fields = vec!["lost_count=2u".to_string(), "basis=\"authoritative\"".to_string()];
    let line = custom_line("data_loss", "l:1,2", "run 1", 3, "projection", &fields, "-42").unwrap();
    assert_eq!(
        line,
        "data_loss,record_id=l:1\\,2,run_id=run\\ 1,source_id=3,part_id=projection lost_count=2u,basis=\"authoritative\" -42"
    );
}

#[test]
fn custom_line_rejects_a_timestamp_that_is_not_an_i64() {
    let cases = [
        ("12x", "invalid digit found in string"),
        ("", "cannot parse integer from empty string"),
        ("9223372036854775808", "number too large to fit in target type"),
        ("-9223372036854775809", "number too small to fit in target type"),
    ];
    for (timestamp, detail) in cases {
        match custom_line("event_log", "r", "1", 1, "event", &Vec::new(), timestamp) {
            Err(PersistenceError::Commit(message)) => {
                assert_eq!(message, format!("InfluxDB 3 point timestamp is invalid: {detail}"))
            }
            other => panic!("{timestamp:?} must be rejected, got {other:?}"),
        }
    }
}

#[test]
fn event_line_appends_the_shared_event_fields() {
    let line = event_line("event_log", &event(), "event", vec!["event_name=\"OperatorAction\"".to_string()]).unwrap();
    assert_eq!(
        line,
        format!("event_log,record_id={RECORD},run_id=1,source_id=1,part_id=event event_name=\"OperatorAction\",{COMMON_FIELDS} 1704067200000000000")
    );
}

#[test]
fn event_line_prefers_the_source_time() {
    let mut row = event();
    row.event_time_ns = Some("1704067199000000000".to_string());
    row.source = None;
    let line = event_line("event_log", &row, "event", Vec::new()).unwrap();
    assert!(line.ends_with(" 1704067199000000000"), "{line}");
    assert!(line.contains(" event_time_ns=1704067199000000000u,received_time="), "{line}");
    assert!(!line.contains("source=\""), "{line}");
}

#[test]
fn canonical_line_carries_identity_kind_json_and_receive_time() {
    let line = canonical_line_protocol(&document(1_704_067_200_000_000_000)).unwrap();
    assert_eq!(
        line,
        format!("logging_records,identity_key={RECORD},document_kind=record canonical_json=\"{{\\\"a\\\":\\\"b c\\\"}}\",buffer_id=7u,source_id=1u 1704067200000000000")
    );
}

#[test]
fn canonical_line_rejects_a_receive_time_beyond_signed_nanoseconds() {
    match canonical_line_protocol(&document(1u64 << 63)) {
        Err(PersistenceError::Commit(message)) => {
            assert_eq!(message, "InfluxDB 3 timestamp exceeds signed nanosecond range")
        }
        other => panic!("expected a commit error, got {other:?}"),
    }
}

#[test]
fn loss_line_reports_the_range_at_receive_time() {
    let line = domain_line(&DomainRow::Loss(loss())).unwrap();
    assert_eq!(
        line,
        format!("data_loss,record_id={},run_id=1,source_id=1,part_id=projection first_sequence=3u,last_sequence=4u,lost_count=2u,basis=\"authoritative\",received_time=\"2024-01-01T00:00:00.000000000Z\",received_time_ns=1704067200000000000u,source_path=\"plant/line-1\",source_hierarchy=\"Plant/Line 1\",buffer_id=7u,epoch_id=0u,sequence=3u,definition_hash=\"abc\",time_unsynced=false,synthetic_record=true,partial_payload=false 1704067200000000000", loss().record_id)
    );
}

#[test]
fn unresolved_line_uses_the_event_time_when_known() {
    let row = UnresolvedRow {
        record_id: RECORD.to_string(),
        event_time: Some("2023-12-31T23:59:59.000000000Z".to_string()),
        event_time_ns: Some("1704067199000000000".to_string()),
        received_time: "2024-01-01T00:00:00.000000000Z".to_string(),
        received_time_ns: "1704067200000000000".to_string(),
        source: None,
        source_id: 1,
        source_path: "plant".to_string(),
        source_hierarchy: "Plant".to_string(),
        buffer_id: 7,
        run_id: "1".to_string(),
        epoch_id: "0".to_string(),
        sequence: "5".to_string(),
        definition_hash: "abc".to_string(),
        time_unsynced: false,
        synthetic_record: true,
        partial_payload: false,
        event_type_id: 999,
        reason: "UnknownEventId".to_string(),
        diagnostic_summary: None,
    };
    let line = domain_line(&DomainRow::Unresolved(row)).unwrap();
    assert_eq!(
        line,
        format!("unresolved_records,record_id={RECORD},run_id=1,source_id=1,part_id=projection event_type_id=999u,reason=\"UnknownEventId\",event_time=\"2023-12-31T23:59:59.000000000Z\",event_time_ns=1704067199000000000u,received_time=\"2024-01-01T00:00:00.000000000Z\",received_time_ns=1704067200000000000u,source_path=\"plant\",source_hierarchy=\"Plant\",buffer_id=7u,epoch_id=0u,sequence=5u,definition_hash=\"abc\",time_unsynced=false,synthetic_record=true,partial_payload=false 1704067199000000000")
    );
}

#[test]
fn message_line_numbers_its_arguments() {
    let row = MessageRow {
        common: event(),
        message_template: "Tank {1} at {2}".to_string(),
        severity: Some(3),
        severity_label: None,
        args: vec![
            TypedDisplay { declared_type: "STRING".to_string(), display: "T1".to_string() },
            TypedDisplay { declared_type: "LREAL".to_string(), display: "4.5".to_string() },
        ],
    };
    let line = domain_line(&DomainRow::Message(row)).unwrap();
    assert!(
        line.contains(" message_template=\"Tank {1} at {2}\",severity=3u,arg1_type=\"STRING\",arg1_value=\"T1\",arg2_type=\"LREAL\",arg2_value=\"4.5\",received_time=\"2024-01-01T00:00:00.000000000Z\",received_time_ns="),
        "{line}"
    );
    assert!(line.starts_with(&format!("message_log,record_id={RECORD},run_id=1,source_id=1,part_id=message ")));
}

#[test]
fn document_points_are_joined_canonical_first() {
    let projected = ProjectedDocument {
        canonical: document(1_704_067_200_000_000_000),
        event: Some(event()),
        logged_values: Vec::new(),
        domains: vec![DomainRow::Operator(operator())],
    };
    let text = line_protocol(&projected).unwrap();
    let lines: Vec<&str> = text.split('\n').collect();
    assert_eq!(lines.len(), 3);
    assert_eq!(lines[0], canonical_line_protocol(&projected.canonical).unwrap());
    assert_eq!(
        lines[1],
        format!("event_log,record_id={RECORD},run_id=1,source_id=1,part_id=event event_type_id=1024u,event_name=\"OperatorAction\",has_unclassified_fields=false,{COMMON_FIELDS} 1704067200000000000")
    );
    assert_eq!(
        lines[2],
        format!("operator_activity,record_id={RECORD},run_id=1,source_id=1,part_id=operator action=\"start\",{COMMON_FIELDS} 1704067200000000000")
    );
}

#[test]
fn document_points_stop_at_the_first_invalid_point() {
    let mut bad = operator();
    bad.common.received_time_ns = "not-a-time".to_string();
    let projected = ProjectedDocument {
        canonical: document(1_704_067_200_000_000_000),
        event: Some(event()),
        logged_values: Vec::new(),
        domains: vec![DomainRow::Operator(bad)],
    };
    match line_protocol(&projected) {
        Err(PersistenceError::Commit(message)) => {
            assert_eq!(message, "InfluxDB 3 point timestamp is invalid: invalid digit found in string")
        }
        other => panic!("expected a commit error, got {other:?}"),
    }
}

#[test]
fn timestamps_render_as_utc_with_nanoseconds() {
    assert_eq!(format_timestamp(0).unwrap(), "1970-01-01T00:00:00.000000000Z");
    assert_eq!(
        format_timestamp(1_704_067_200_000_000_000).unwrap(),
        "2024-01-01T00:00:00.000000000Z"
    );
    assert_eq!(
        format_timestamp(1_704_067_200_123_456_789).unwrap(),
        "2024-01-01T00:00:00.123456789Z"
    );
    assert_eq!(
        logging_timestamp(86_399_999_999_999).unwrap(),
        "1970-01-01T23:59:59.999999999Z"
    );
    assert_eq!(
        format_timestamp(951_782_400_000_000_000).unwrap(),
        "2000-02-29T00:00:00.000000000Z"
    );
}

#[test]
fn utc_fields_are_zero_padded() {
    let parts = UtcParts { year: 987, month: 3, day: 4, hour: 5, minute: 6, second: 7, nanosecond: 8 };
    assert_eq!(render_utc(parts), "0987-03-04T05:06:07.000000008Z");
}

fn timed_event() -> EventLogRow {
    let mut row = event();
    row.event_time = Some("2023-12-31T23:59:59.000000000Z".to_string());
    row.event_time_ns = Some("1704067199000000000".to_string());
    row
}

fn projected(domains: Vec<DomainRow>, logged_values: Vec<LoggedValueRow>) -> ProjectedDocument {
    ProjectedDocument {
        canonical: document(1_704_067_200_000_000_000),
        event: Some(timed_event()),
        logged_values,
        domains,
    }
}

#[test]
fn influx_logged_values_preserve_previous_and_audit_fields() {
    let value = LoggedValueRow {
        common: timed_event(),
        value_id: 3,
        value_name: "Setpoint".to_string(),
        value_type: "LREAL".to_string(),
        unit: Some("degC".to_string()),
        quality: Some(192),
        semantic_role: 1,
        boolean_value: None,
        signed_value: None,
        unsigned_value: None,
        number_value: Some("42.5".to_string()),
        text_value: None,
        exact_value: "42.5".to_string(),
        previous_boolean_value: Some(false),
        previous_signed_value: Some(-17),
        previous_unsigned_value: Some(u64::MAX.to_string()),
        previous_number_value: Some("12.5".to_string()),
        previous_text_value: Some("previous text".to_string()),
        previous_exact_value: Some("previous exact".to_string()),
        is_audited: true,
        actor: Some("operator-a".to_string()),
        reason: Some("tuning".to_string()),
        authorization_result: Some("authorized".to_string()),
    };
    let value_lines = line_protocol(&projected(Vec::new(), vec![value])).unwrap();
    for field in [
        "previous_boolean_value=",
        "previous_signed_value=",
        "previous_unsigned_value=",
        "previous_number_value=",
        "previous_text_value=",
        "previous_exact_value=",
        "actor=",
        "reason=",
        "authorization_result=",
    ] {
        assert!(value_lines.contains(field), "Influx logged_values must retain {field}: {value_lines}");
    }
    assert!(value_lines.contains(
        ",previous_boolean_value=false,previous_signed_value=-17i,previous_unsigned_value=18446744073709551615u,previous_number_value=12.5,previous_text_value=\"previous text\",previous_exact_value=\"previous exact\",actor=\"operator-a\",reason=\"tuning\",authorization_result=\"authorized\","
    ), "{value_lines}");
}

#[test]
fn influx_domain_measurements_preserve_the_complete_backend_neutral_rows() {
    let text = |s: &str| Some(s.to_string());
    let domains = vec![
        DomainRow::State(StateRow {
            common: timed_event(),
            state_machine: "Unit".to_string(),
            state_category: "ISA88".to_string(),
            previous_state: "Idle".to_string(),
            previous_state_label: text("Idle label"),
            new_state: "Running".to_string(),
            new_state_label: text("Running label"),
        }),
        DomainRow::Batch(BatchRow {
            common: timed_event(),
            batch_id: "Batch-1".to_string(),
            recipe_id: text("Recipe-1"),
            previous_state: text("Idle"),
            new_state: "Running".to_string(),
            new_state_label: text("Running label"),
        }),
        DomainRow::Recipe(RecipeRow {
            common: timed_event(),
            action: "load".to_string(),
            recipe_id: "Recipe-1".to_string(),
            recipe_version: text("2"),
            batch_id: text("Batch-1"),
            actor: text("operator-a"),
            authorization_result: text("authorized"),
        }),
        DomainRow::Material(MaterialRow {
            common: timed_event(),
            batch_id: "Batch-1".to_string(),
            material_id: "M-1".to_string(),
            quantity: "2.5".to_string(),
            exact_quantity: "2.5".to_string(),
            unit: text("kg"),
        }),
        DomainRow::Operator(OperatorRow {
            common: timed_event(),
            action: "start".to_string(),
            action_id: text("Action-1"),
            actor: text("operator-a"),
            workstation: text("station-1"),
            role: text("operator"),
            authorization_result: text("authorized"),
            reason: text("approved"),
            context_references: text("Batch-1"),
        }),
        DomainRow::Audit(AuditRow {
            common: timed_event(),
            action: "change".to_string(),
            target: "Setpoint".to_string(),
            actor: "operator-a".to_string(),
            reason: "tuning".to_string(),
            authorization_result: text("authorized"),
            value_type: "LREAL".to_string(),
            previous_value: "1".to_string(),
            current_value: "2".to_string(),
            workstation: text("station-1"),
        }),
        DomainRow::Signature(SignatureRow {
            common: timed_event(),
            action_id: "Action-1".to_string(),
            actor: "operator-a".to_string(),
            meaning: "approved".to_string(),
            authorization_result: text("authorized"),
            signed_source_id: 1,
            signed_sequence: "5".to_string(),
        }),
        DomainRow::Unresolved(UnresolvedRow {
            record_id: RECORD.to_string(),
            event_time: text("2023-12-31T23:59:59.000000000Z"),
            event_time_ns: text("1704067199000000000"),
            received_time: "2024-01-01T00:00:00.000000000Z".to_string(),
            received_time_ns: "1704067200000000000".to_string(),
            source: text("UnitA"),
            source_id: 1,
            source_path: "plant".to_string(),
            source_hierarchy: "Plant".to_string(),
            buffer_id: 7,
            run_id: "1".to_string(),
            epoch_id: "0".to_string(),
            sequence: "5".to_string(),
            definition_hash: "abc".to_string(),
            time_unsynced: false,
            synthetic_record: true,
            partial_payload: false,
            event_type_id: 999,
            reason: "UnknownEventId".to_string(),
            diagnostic_summary: text("unknown event"),
        }),
        DomainRow::Loss(LossRow { source: text("UnitA"), ..loss() }),
    ];
    let lines = line_protocol(&projected(domains, Vec::new())).unwrap();
    for (measurement, fields) in [
        ("state_history,", &["previous_state_label=", "new_state_label="][..]),
        ("batch_history,", &["recipe_id=", "previous_state=", "new_state_label="]),
        ("recipe_history,", &["recipe_version=", "batch_id=", "actor=", "authorization_result="]),
        ("material_additions,", &["unit="][..]),
        (
            "operator_activity,",
            &[
                "action_id=",
                "actor=",
                "workstation=",
                "role=",
                "authorization_result=",
                "reason=",
                "context_references=",
            ],
        ),
        ("audit_log,", &["authorization_result=", "workstation="][..]),
        ("electronic_signatures,", &["authorization_result="][..]),
        (
            "data_loss,",
            &[
                "received_time=",
                "received_time_ns=",
                "source=",
                "buffer_id=",
                "epoch_id=",
                ",sequence=",
                "definition_hash=",
            ],
        ),
        (
            "unresolved_records,",
            &[
                "event_time=",
                "event_time_ns=",
                "received_time=",
                "received_time_ns=",
                "source=",
                "buffer_id=",
                "epoch_id=",
                "sequence=",
                "definition_hash=",
                "diagnostic_summary=",
            ],
        ),
    ] {
        let line = lines
            .lines()
            .find(|line| line.starts_with(measurement))
            .unwrap_or_else(|| panic!("missing {measurement} measurement"));
        for field in fields {
            assert!(line.contains(field), "{measurement} must retain {field}: {line}");
        }
    }
    let event_line = lines.lines().find(|line| line.starts_with("event_log,")).expect("event-log measurement");
    for field in ["event_time=", "event_time_ns=", "received_time=", "received_time_ns="] {
        assert!(event_line.contains(field), "Influx event rows must retain named common time field {field}: {event_line}");
    }
}

#[test]
fn the_latest_u64_instant_still_has_a_calendar_date() {
    assert_eq!(format_timestamp(u64::MAX).unwrap(), "2554-07-21T23:34:33.709551615Z");
    assert_eq!(logging_timestamp(u64::MAX).unwrap(), "2554-07-21T23:34:33.709551615Z");
}

#[test]
fn escaped_fields_hold_no_raw_line_break_and_read_back() {
    let original = "a\\b \"q\"\nline\rend";
    let escaped = escape_field(original);
    assert!(!escaped.contains('\n') && !escaped.contains('\r'));
    assert_eq!(escaped, "a\\\\b \\\"q\\\"\\nline\\rend");
    let mut decoded = String::new();
    let mut chars = escaped.chars();
    while let Some(c) = chars.next() {
        if c == '\\' {
            match chars.next() {
                Some('n') => decoded.push('\n'),
                Some('r') => decoded.push('\r'),
                Some(other) => decoded.push(other),
                None => decoded.push('\\'),
            }
        } else {
            decoded.push(c);
        }
    }
    assert_eq!(decoded, original);
}
