use openot_persistence::contracts::{MaintenanceOutcome, PersistenceError};
use openot_persistence::influx_delivery::{
    bearer, check_durability, check_spool_capacity, check_spool_fits, checked_host,
    confirmed_parts, delivery_result, http_error, maintenance_outcome, query_url, reconciled_count,
    spool_bytes, to_count, write_url, HttpFailure,
};
use openot_persistence::influx_reconcile::{
    plan_reconciliation, ReconciliationQuery, SpooledPoint, RECONCILIATION_POINTS_PER_QUERY,
};
use openot_persistence::influx_spool::{delivery_parts, reconciliation_point, ReconciliationPoint};

fn commit_message(result: Result<ReconciliationPoint, PersistenceError>) -> String {
    match result {
        Err(PersistenceError::Commit(message)) => message,
        Err(other) => panic!("expected a commit error, got {other:?}"),
        Ok(point) => panic!("expected an error, got {} / {}", point.measurement, point.predicate),
    }
}

fn point(part_id: &str, measurement: &str, predicate: &str) -> SpooledPoint {
    SpooledPoint {
        part_id: part_id.to_string(),
        point: ReconciliationPoint { measurement: measurement.to_string(), predicate: predicate.to_string() },
    }
}

#[test]
fn every_line_becomes_one_numbered_part() {
    let parts = delivery_parts("r:1", "logging_records a 1\nevent_log b 2\r\noperator_activity c 3");
    let seen: Vec<(&str, usize, &str)> =
        parts.iter().map(|p| (p.part_id.as_str(), p.ordinal, p.line.as_str())).collect();
    assert_eq!(
        seen,
        vec![
            ("r:1:0", 0, "logging_records a 1"),
            ("r:1:1", 1, "event_log b 2"),
            ("r:1:2", 2, "operator_activity c 3"),
        ]
    );
}

#[test]
fn a_trailing_newline_adds_no_part() {
    assert_eq!(delivery_parts("k", "only 1\n").len(), 1);
    assert_eq!(delivery_parts("k", "").len(), 0);
    let parts = delivery_parts("k", "a\n\nb");
    assert_eq!(parts.len(), 3);
    assert_eq!(parts[1].line, "");
    assert_eq!(parts[2].part_id, "k:2");
}

#[test]
fn projection_points_are_found_by_record_id_and_time() {
    let found = reconciliation_point(
        "event_log,record_id=r:1,run_id=1,source_id=1,part_id=event name=\"a b\",x=1u 1704067200000000000",
    )
    .unwrap();
    assert_eq!(found.measurement, "event_log");
    assert_eq!(
        found.predicate,
        "(record_id='r:1' AND time=to_timestamp_nanos(1704067200000000000))"
    );
}

#[test]
fn canonical_points_are_found_by_identity_key_with_quotes_doubled() {
    let found = reconciliation_point(
        "logging_records,identity_key=o'k,document_kind=record canonical_json=\"x y\",buffer_id=7u 5",
    )
    .unwrap();
    assert_eq!(found.measurement, "logging_records");
    assert_eq!(found.predicate, "(identity_key='o''k' AND time=to_timestamp_nanos(5))");
}

#[test]
fn malformed_spooled_lines_are_rejected() {
    assert_eq!(commit_message(reconciliation_point("nospace")), "InfluxDB 3 spooled line omitted fields");
    assert_eq!(
        commit_message(reconciliation_point("m,run_id=1 f=1 2")),
        "InfluxDB 3 spooled line omitted identity tag"
    );
    assert_eq!(
        commit_message(reconciliation_point("m,record_id=x f=1")),
        "InfluxDB 3 spooled line omitted timestamp"
    );
}

#[test]
fn reconciliation_groups_by_measurement_in_byte_order() {
    let points = vec![
        point("a:0", "zeta", "(p1)"),
        point("b:0", "alpha", "(p2)"),
        point("a:1", "zeta", "(p3)"),
    ];
    let plan = plan_reconciliation(&points);
    assert_eq!(plan.measurements, vec!["alpha".to_string(), "zeta".to_string()]);
    assert_eq!(plan.queries.len(), 2);
    assert_eq!(plan.queries[0].sql, "SELECT COUNT(*) AS count FROM alpha WHERE (p2)");
    assert_eq!(plan.queries[0].part_ids, vec!["b:0".to_string()]);
    assert_eq!(plan.queries[1].sql, "SELECT COUNT(*) AS count FROM zeta WHERE (p1) OR (p3)");
    assert_eq!(plan.queries[1].part_ids, vec!["a:0".to_string(), "a:1".to_string()]);
}

#[test]
fn reconciliation_queries_hold_at_most_thirty_two_points() {
    assert_eq!(RECONCILIATION_POINTS_PER_QUERY, 32);
    let points: Vec<SpooledPoint> =
        (0..33).map(|i| point(&format!("d:{i}"), "event_log", &format!("(q{i})"))).collect();
    let plan = plan_reconciliation(&points);
    assert_eq!(plan.queries.len(), 2);
    assert_eq!(plan.queries[0].part_ids.len(), 32);
    assert_eq!(plan.queries[1].part_ids, vec!["d:32".to_string()]);
    assert_eq!(plan.queries[1].sql, "SELECT COUNT(*) AS count FROM event_log WHERE (q32)");
}

#[test]
fn each_spooled_part_lands_in_exactly_one_query() {
    let mut points: Vec<SpooledPoint> = Vec::new();
    for i in 0..70 {
        let measurement = match i % 3 {
            0 => "logging_records",
            1 => "event_log",
            _ => "operator_activity",
        };
        points.push(point(&format!("p:{i}"), measurement, &format!("(q{i})")));
    }
    let plan = plan_reconciliation(&points);
    let mut queried: Vec<String> =
        plan.queries.iter().flat_map(|q| q.part_ids.iter().cloned()).collect();
    let mut spooled: Vec<String> = points.iter().map(|p| p.part_id.clone()).collect();
    queried.sort();
    spooled.sort();
    assert_eq!(queried, spooled);
    assert!(plan.queries.iter().all(|q| q.part_ids.len() <= RECONCILIATION_POINTS_PER_QUERY));
}

#[test]
fn an_empty_spool_needs_no_query() {
    let plan = plan_reconciliation(&Vec::new());
    assert!(plan.measurements.is_empty());
    assert!(plan.queries.is_empty());
}

#[test]
fn endpoints_encode_database_and_query() {
    assert_eq!(
        write_url("https://influx.example", "plant db"),
        "https://influx.example/api/v3/write_lp?db=plant%20db&precision=nanosecond&accept_partial=false&no_sync=false"
    );
    assert_eq!(
        query_url("https://influx.example", "plant", "SELECT COUNT(*) AS count FROM t WHERE (a='b')"),
        "https://influx.example/api/v3/query_sql?db=plant&q=SELECT%20COUNT%28%2A%29%20AS%20count%20FROM%20t%20WHERE%20%28a%3D%27b%27%29&format=json"
    );
    assert_eq!(bearer("secret-token"), "Bearer secret-token");
}

#[test]
fn hosts_must_use_tls_and_lose_trailing_slashes() {
    assert_eq!(checked_host("https://influx.example//").unwrap(), "https://influx.example");
    assert_eq!(checked_host("https://influx.example").unwrap(), "https://influx.example");
    match checked_host("http://influx.example") {
        Err(PersistenceError::InvalidConfig(message)) => {
            assert_eq!(message, "InfluxDB 3 host must use https://")
        }
        other => panic!("plain HTTP must be rejected, got {other:?}"),
    }
}

#[test]
fn reconciliation_replies_report_the_first_count() {
    assert_eq!(reconciled_count("[{\"count\":3}]").unwrap(), 3);
    assert_eq!(reconciled_count("[]").unwrap(), 0);
    assert_eq!(reconciled_count("[{\"other\":1}]").unwrap(), 0);
    match reconciled_count("{") {
        Err(PersistenceError::Commit(message)) => {
            assert!(message.starts_with("InfluxDB 3 decode reconciliation query: "), "{message}")
        }
        other => panic!("an undecodable reply must fail, got {other:?}"),
    }
}

#[test]
fn a_reply_confirms_all_parts_or_none() {
    let query = ReconciliationQuery {
        sql: "SELECT 1".to_string(),
        part_ids: vec!["a:0".to_string(), "a:1".to_string()],
    };
    assert_eq!(confirmed_parts(&query, 2), vec!["a:0".to_string(), "a:1".to_string()]);
    assert!(confirmed_parts(&query, 1).is_empty());
    assert!(confirmed_parts(&query, 3).is_empty());
}

#[test]
fn a_delivery_pass_fails_when_parts_are_missing() {
    assert_eq!(delivery_result(2, 2).unwrap(), 2);
    match delivery_result(1, 2) {
        Err(PersistenceError::Commit(message)) => {
            assert_eq!(message, "InfluxDB 3 reconciliation found 1 of 2 expected delivery parts")
        }
        other => panic!("expected a commit error, got {other:?}"),
    }
}

#[test]
fn spool_counts_and_maintenance() {
    assert_eq!(to_count(5), 5);
    assert_eq!(to_count(-1), usize::MAX);
    assert_eq!(
        maintenance_outcome(10, 4, 2),
        MaintenanceOutcome { remote_pending: 2, reconciled_parts: 6, pending_parts: 4 }
    );
    assert_eq!(
        maintenance_outcome(3, 5, 1),
        MaintenanceOutcome { remote_pending: 1, reconciled_parts: 0, pending_parts: 5 }
    );
}

#[test]
fn spool_size_and_ceiling() {
    assert_eq!(spool_bytes(10, 4096).unwrap(), 40960);
    assert_eq!(spool_bytes(i64::MAX, i64::MAX).unwrap(), u64::MAX);
    assert_eq!(
        spool_bytes(-1, 4096),
        Err(PersistenceError::Commit("InfluxDB 3 spool page count is negative".to_string()))
    );
    assert_eq!(
        spool_bytes(1, -1),
        Err(PersistenceError::Commit("InfluxDB 3 spool page size is negative".to_string()))
    );
    assert!(check_spool_capacity(100, 100).is_ok());
    assert_eq!(
        check_spool_capacity(101, 100),
        Err(PersistenceError::CapacityExhausted(
            "InfluxDB 3 spool reached configured max_bytes 100".to_string()
        ))
    );
    assert!(check_spool_fits(100, 100).is_ok());
    assert_eq!(
        check_spool_fits(4096, 1),
        Err(PersistenceError::InvalidConfig(
            "InfluxDB 3 spool schema exceeds configured max_bytes 1".to_string()
        ))
    );
}

#[test]
fn spool_durability_requires_foreign_keys_full_sync_and_wal() {
    assert!(check_durability(1, 2, "wal").is_ok());
    assert!(check_durability(1, 2, "WAL").is_ok());
    assert_eq!(
        check_durability(0, 1, "delete"),
        Err(PersistenceError::Commit(
            "InfluxDB 3 spool durability settings were not applied: foreign_keys=0, synchronous=1, journal_mode=delete"
                .to_string()
        ))
    );
}

#[test]
fn initial_http_transport_failure_is_retryable_connection_error() {
    for failure in [
        HttpFailure::Io,
        HttpFailure::Timeout,
        HttpFailure::HostNotFound,
        HttpFailure::ConnectionFailed,
        HttpFailure::ConnectProxyFailed,
    ] {
        let classified = http_error("initial health request", failure, "connection refused");
        assert_eq!(
            classified,
            PersistenceError::Connection(
                "InfluxDB 3 initial health request: connection refused".to_string()
            )
        );
    }
}

#[test]
fn initial_http_status_failure_remains_permanent() {
    let classified = http_error("initial health request", HttpFailure::StatusCode(401), "http status: 401");
    assert!(matches!(classified, PersistenceError::Commit(_)));
    let other = http_error("initial health request", HttpFailure::Other, "bad header");
    assert_eq!(other, PersistenceError::Commit("InfluxDB 3 initial health request: bad header".to_string()));
}
