use openot_persistence::config::{
    backend_unavailable,
    complete_open_request, database_ca_path, required_environment, resolve_path, select_section,
    validate_mysql_database, validate_postgresql_schema, InfluxDb3Section,
    OpenOtPersistenceBackend, OpenOtPersistenceConfig, RelationalSection, SelectedSection,
    SinkOpenRequest, SqliteSection,
};
use openot_persistence::contracts::{
    check_private_directory, check_regression, decode_u64, PersistenceCheckpoint, PersistenceError,
};
use openot_persistence::fingerprint::{
    check_catalog, check_generation, check_marker_generation, check_required_objects,
    check_store_catalog, check_store_generation, fingerprint, incompatible,
};
use openot_persistence::failure::{
    classified_failure, error_source_is_transient, sqlstate_is_transient, ErrorCause,
};
use openot_persistence::rows::{message_args, TypedDisplay};
use openot_persistence::sqlserver_plan::validate_sqlserver_schema;
use openot_persistence::text::{parse_i64, parse_u64, IntParseFailure};
use sha2::{Digest, Sha256};

fn relational(env: &str, ca: Option<&str>) -> RelationalSection {
    RelationalSection {
        connection_url_env: env.to_string(),
        schema: "trust_logging".to_string(),
        ca_cert_path: ca.map(str::to_string),
    }
}

fn config(backend: Option<OpenOtPersistenceBackend>) -> OpenOtPersistenceConfig {
    OpenOtPersistenceConfig {
        enabled: true,
        backend,
        sqlite: Some(SqliteSection { path: "history/logging.sqlite3".to_string() }),
        postgresql: Some(relational("PG_URL", Some("certs/ca.pem"))),
        timescaledb: None,
        mysql: Some(relational("MYSQL_URL", None)),
        sqlserver: None,
        influxdb3: Some(InfluxDb3Section {
            host_env: "INFLUX_HOST".to_string(),
            token_env: "INFLUX_TOKEN".to_string(),
            database: "openot".to_string(),
            spool_path: "spool.sqlite3".to_string(),
            ca_cert_path: Some("/etc/ca.pem".to_string()),
            max_bytes: 1 << 20,
        }),
        batch_size: 64,
        queue_capacity: 4096,
        flush_interval_ms: 100,
        retry_initial_ms: 10,
        retry_max_ms: 200,
        retry_multiplier: 2,
        retry_max_attempts: 3,
        shutdown_timeout_ms: 5000,
    }
}

fn invalid_config(result: Result<SinkOpenRequest, PersistenceError>) -> String {
    match result {
        Err(PersistenceError::InvalidConfig(message)) => message,
        other => panic!("expected a configuration error, got {other:?}"),
    }
}

#[test]
fn sqlite_paths_are_resolved_against_the_bundle() {
    let section = select_section(&config(Some(OpenOtPersistenceBackend::Sqlite))).unwrap();
    assert!(required_environment(&section).is_empty());
    assert_eq!(
        complete_open_request(&section, &Vec::new(), "/srv/bundle").unwrap(),
        SinkOpenRequest::Sqlite { path: "/srv/bundle/history/logging.sqlite3".to_string() }
    );
    assert_eq!(resolve_path("/srv/bundle/", "a.db"), "/srv/bundle/a.db");
    assert_eq!(resolve_path("/srv/bundle", "/abs/a.db"), "/abs/a.db");
    assert_eq!(resolve_path("", "a.db"), "a.db");
}

#[test]
fn relational_backends_need_their_url_and_a_ca() {
    let section = select_section(&config(Some(OpenOtPersistenceBackend::PostgreSql))).unwrap();
    assert_eq!(required_environment(&section), vec!["PG_URL".to_string()]);
    assert_eq!(
        complete_open_request(&section, &vec![Some("postgres://db".to_string())], "/b").unwrap(),
        SinkOpenRequest::Relational {
            backend: OpenOtPersistenceBackend::PostgreSql,
            connection_url: "postgres://db".to_string(),
            schema: "trust_logging".to_string(),
            ca_cert_path: "/b/certs/ca.pem".to_string(),
        }
    );
    assert_eq!(
        invalid_config(complete_open_request(&section, &vec![None], "/b")),
        "environment variable 'PG_URL' is not set"
    );
    let mysql = select_section(&config(Some(OpenOtPersistenceBackend::MySql))).unwrap();
    assert_eq!(
        invalid_config(complete_open_request(&mysql, &vec![Some("mysql://db".to_string())], "/b")),
        "runtime.openot.persistence.mysql.ca_cert_path is required"
    );
}

#[test]
fn influx_needs_host_and_token() {
    let section = select_section(&config(Some(OpenOtPersistenceBackend::InfluxDb3))).unwrap();
    assert_eq!(
        required_environment(&section),
        vec!["INFLUX_HOST".to_string(), "INFLUX_TOKEN".to_string()]
    );
    assert_eq!(
        invalid_config(complete_open_request(&section, &vec![Some("https://h".to_string()), None], "/b")),
        "environment variable 'INFLUX_TOKEN' is not set"
    );
    assert_eq!(
        complete_open_request(
            &section,
            &vec![Some("https://h".to_string()), Some("t".to_string())],
            "/b"
        )
        .unwrap(),
        SinkOpenRequest::InfluxDb3 {
            host: "https://h".to_string(),
            token: "t".to_string(),
            database: "openot".to_string(),
            spool_path: "/b/spool.sqlite3".to_string(),
            ca_cert_path: "/etc/ca.pem".to_string(),
            max_bytes: 1 << 20,
        }
    );
}

#[test]
fn selection_requires_the_named_section() {
    match select_section(&config(Some(OpenOtPersistenceBackend::SqlServer))) {
        Err(PersistenceError::InvalidConfig(message)) => {
            assert_eq!(message, "runtime.openot.persistence.sqlserver is required")
        }
        other => panic!("a missing section must be rejected, got {other:?}"),
    }
    match select_section(&config(Some(OpenOtPersistenceBackend::PostgreSql))).unwrap() {
        SelectedSection::Relational(backend, section) => {
            assert_eq!(backend, OpenOtPersistenceBackend::PostgreSql);
            assert_eq!(section.connection_url_env, "PG_URL");
        }
        other => panic!("expected the PostgreSQL section, got {other:?}"),
    }
}

#[test]
fn startup_checks_the_ca_of_network_backends_only() {
    assert_eq!(database_ca_path(&config(Some(OpenOtPersistenceBackend::Sqlite)), "/b"), Ok(None));
    assert_eq!(
        database_ca_path(&config(Some(OpenOtPersistenceBackend::PostgreSql)), "/b"),
        Ok(Some((OpenOtPersistenceBackend::PostgreSql, "/b/certs/ca.pem".to_string())))
    );
    assert_eq!(
        database_ca_path(&config(Some(OpenOtPersistenceBackend::TimescaleDb)), "/b"),
        Err(PersistenceError::InvalidConfig(
            "runtime.openot.persistence.timescaledb.ca_cert_path is required".to_string()
        ))
    );
    assert_eq!(
        database_ca_path(&config(None), "/b"),
        Err(PersistenceError::InvalidConfig("runtime.openot.persistence.backend is required".to_string()))
    );
}

#[test]
fn schema_names_must_be_sql_identifiers() {
    assert!(validate_postgresql_schema("trust_logging").is_ok());
    assert!(validate_postgresql_schema("_t1").is_ok());
    assert_eq!(
        validate_postgresql_schema("1st"),
        Err(PersistenceError::InvalidConfig("PostgreSQL schema must be a SQL identifier".to_string()))
    );
    assert_eq!(
        validate_mysql_database("bad-name"),
        Err(PersistenceError::InvalidConfig("MySQL database must be a SQL identifier".to_string()))
    );
    assert!(validate_sqlserver_schema("dbo").is_ok());
    assert!(validate_sqlserver_schema("").is_err());
}

#[test]
fn stored_integers_are_eight_big_endian_bytes() {
    assert_eq!(decode_u64(&0x0102_0304_0506_0708u64.to_be_bytes(), "SQLite", "checkpoint cursor"), Ok(0x0102_0304_0506_0708));
    assert_eq!(decode_u64(&u64::MAX.to_be_bytes(), "MySQL", "run"), Ok(u64::MAX));
    assert_eq!(
        decode_u64(&[1, 2, 3], "SQLite", "checkpoint cursor"),
        Err(PersistenceError::Commit("SQLite checkpoint cursor is not an 8-byte unsigned value".to_string()))
    );
}

#[test]
fn checkpoints_only_regress_within_one_run() {
    let current = PersistenceCheckpoint { buffer_id: 7, run_id: 1, cursor_abs: 200 };
    assert_eq!(
        check_regression(Some(current), PersistenceCheckpoint { cursor_abs: 100, ..current }),
        Err(PersistenceError::CheckpointRegression { current: 200, requested: 100 })
    );
    assert_eq!(check_regression(Some(current), PersistenceCheckpoint { cursor_abs: 200, ..current }), Ok(()));
    assert_eq!(
        check_regression(Some(current), PersistenceCheckpoint { run_id: 2, cursor_abs: 0, ..current }),
        Ok(())
    );
    assert_eq!(check_regression(None, current), Ok(()));
}

#[test]
fn error_messages_name_their_kind() {
    assert_eq!(
        PersistenceError::CheckpointRegression { current: 5, requested: 3 }.message(),
        "OpenOT checkpoint regressed from 5 to 3"
    );
    assert_eq!(
        PersistenceError::BackendUnavailable("x".to_string()).message(),
        "backend_not_available: x"
    );
    assert_eq!(
        PersistenceError::Commit("SQLite insert: full".to_string()).message(),
        "OpenOT persistence commit failed: SQLite insert: full"
    );
}

#[test]
fn decimal_parsing_follows_std() {
    assert_eq!(parse_u64("0"), Ok(0));
    assert_eq!(parse_u64("+7"), Ok(7));
    assert_eq!(parse_u64("18446744073709551615"), Ok(u64::MAX));
    assert_eq!(parse_u64("18446744073709551616"), Err(IntParseFailure::TooLarge));
    assert_eq!(parse_u64("-1"), Err(IntParseFailure::InvalidDigit));
    assert_eq!(parse_u64(""), Err(IntParseFailure::Empty));
    assert_eq!(parse_u64("+"), Err(IntParseFailure::InvalidDigit));
    assert_eq!(parse_i64("-9223372036854775808"), Ok(i64::MIN));
    assert_eq!(parse_i64("9223372036854775807"), Ok(i64::MAX));
    assert_eq!(parse_i64("-9223372036854775809"), Err(IntParseFailure::TooSmall));
    assert_eq!(parse_i64("-"), Err(IntParseFailure::InvalidDigit));
    assert_eq!(parse_i64("1 2"), Err(IntParseFailure::InvalidDigit));
    for (text, failure) in [("", IntParseFailure::Empty), ("x", IntParseFailure::InvalidDigit)] {
        assert_eq!(parse_i64(text), Err(failure));
        assert_eq!(format!("{}", failure.text()), text.parse::<i64>().unwrap_err().to_string());
    }
}

#[test]
fn catalog_fingerprint_is_the_sha256_of_sorted_length_framed_rows() {
    let rows = vec!["table|b".to_string(), "column|a|1".to_string()];
    let mut sorted = rows.clone();
    sorted.sort();
    let mut digest = Sha256::new();
    for row in &sorted {
        digest.update((row.len() as u64).to_be_bytes());
        digest.update(row.as_bytes());
    }
    let expected: String = digest.finalize().iter().map(|b| format!("{b:02x}")).collect();
    let actual = fingerprint(rows.clone());
    assert_eq!(actual, expected);
    assert_eq!(actual.len(), 64);
    assert_eq!(fingerprint(vec![rows[1].clone(), rows[0].clone()]), actual);
    assert_ne!(fingerprint(vec!["table|b".to_string()]), actual);
}

#[test]
fn a_changed_catalog_is_incompatible() {
    assert!(check_catalog("abc", "abc", "SQLite").is_ok());
    assert_eq!(check_catalog("abc", "abd", "SQLite"), Err(incompatible("SQLite")));
    assert_eq!(
        incompatible("MySQL"),
        PersistenceError::Commit(
            "MySQL incompatible pre-release schema: the generation-1 catalog definition changed; back up and recreate the development database"
                .to_string()
        )
    );
}

#[test]
fn message_rows_store_four_argument_slots() {
    let args = vec![
        TypedDisplay { declared_type: "STRING".to_string(), display: "T1".to_string() },
        TypedDisplay { declared_type: "INT".to_string(), display: "4".to_string() },
    ];
    assert_eq!(
        message_args(&args),
        vec![
            (Some("STRING".to_string()), Some("T1".to_string())),
            (Some("INT".to_string()), Some("4".to_string())),
            (None, None),
            (None, None),
        ]
    );
    assert_eq!(message_args(&[]), vec![(None, None); 4]);
}

#[test]
fn database_directories_must_not_be_group_or_world_writable() {
    assert!(check_private_directory(0o700, "SQLite").is_ok());
    assert!(check_private_directory(0o755, "SQLite").is_ok());
    for mode in [0o775, 0o757, 0o777] {
        assert_eq!(
            check_private_directory(mode, "SQLite"),
            Err(PersistenceError::InvalidConfig(
                "SQLite database directory must not be group/world writable".to_string()
            ))
        );
    }
}

#[test]
fn the_first_missing_required_table_is_named() {
    let owned = |names: &[&str]| names.iter().map(|n| n.to_string()).collect::<Vec<_>>();
    let required = owned(&["logging_schema", "logging_records", "event_log"]);
    assert!(check_required_objects("MySQL", "schema", "database", &owned(&["event_log", "x", "logging_records", "logging_schema"]), &required).is_ok());
    assert_eq!(
        check_required_objects("MySQL", "schema", "database", &owned(&["logging_schema"]), &required),
        Err(PersistenceError::Commit(
            "MySQL incompatible pre-release schema: required object logging_records is missing; back up and recreate the development database"
                .to_string()
        ))
    );
}

#[test]
fn unreachable_or_restarting_servers_are_transient() {
    for code in ["08000", "08006", "08P01", "57P01", "57P02", "57P03"] {
        assert!(sqlstate_is_transient(code), "{code}");
    }
    for code in ["57P04", "23505", "42P01", "0", "", "28000"] {
        assert!(!sqlstate_is_transient(code), "{code}");
    }
    assert_eq!(classified_failure("x".to_string(), true), PersistenceError::Connection("x".to_string()));
    assert_eq!(classified_failure("x".to_string(), false), PersistenceError::Commit("x".to_string()));
}

#[test]
fn sink_factory_rejects_recognized_backend_omitted_from_binary_without_fallback() {
    assert_eq!(
        backend_unavailable(OpenOtPersistenceBackend::PostgreSql).message(),
        "backend_not_available: runtime.openot.persistence.backend 'postgresql' is not compiled into this binary"
    );
}

#[test]
fn typed_io_error_is_retryable_without_diagnostic_text_matching() {
    assert!(error_source_is_transient(&[ErrorCause::Io]));
    assert!(error_source_is_transient(&[ErrorCause::Other, ErrorCause::Io]));
}

#[test]
fn typed_tls_error_is_permanent_even_when_it_wraps_connection_text() {
    assert!(!error_source_is_transient(&[ErrorCause::Tls]));
    assert!(!error_source_is_transient(&[ErrorCause::Tls, ErrorCause::Io]));
    assert!(!error_source_is_transient(&[ErrorCause::Io, ErrorCause::Tls]));
}

#[test]
fn unknown_no_sqlstate_error_is_permanent() {
    assert!(!error_source_is_transient(&[ErrorCause::Other]));
    assert!(!error_source_is_transient(&[]));
}

#[test]
fn only_schema_generation_one_opens() {
    assert_eq!(check_generation("SQLite", 1), Ok(()));
    assert_eq!(
        check_generation("SQLite", 2),
        Err(PersistenceError::Commit(
            "SQLite incompatible pre-release schema generation 2 is newer than the supported generation 1; upgrade the runtime or back up and recreate the development database".to_string()
        ))
    );
    assert_eq!(
        check_generation("SQL Server", -1),
        Err(PersistenceError::Commit(
            "SQL Server incompatible pre-release schema generation -1; back up and recreate the development database".to_string()
        ))
    );
}

#[test]
fn an_existing_schema_needs_its_generation_marker() {
    assert_eq!(check_marker_generation("MySQL", Some(1)), Ok(()));
    assert_eq!(
        check_marker_generation("MySQL", None),
        Err(PersistenceError::Commit(
            "MySQL incompatible pre-release schema generation None; back up and recreate the development database".to_string()
        ))
    );
    assert_eq!(
        check_marker_generation("PostgreSQL", Some(2)),
        Err(PersistenceError::Commit(
            "PostgreSQL incompatible pre-release schema generation Some(2) is newer than the supported generation 1; upgrade the runtime or back up and recreate the development database".to_string()
        ))
    );
}

#[test]
fn service_rejects_missing_database_environment_before_worker_start() {
    let section = select_section(&config(Some(OpenOtPersistenceBackend::PostgreSql))).unwrap();
    for value in [None, Some(String::new())] {
        let error = complete_open_request(&section, &vec![value], "/b").expect_err("no usable URL");
        let diagnostic = error.message();
        assert_eq!(
            diagnostic,
            "invalid OpenOT persistence configuration: environment variable 'PG_URL' is not set"
        );
        assert!(!diagnostic.contains("postgresql://"));
    }
    let influx = select_section(&config(Some(OpenOtPersistenceBackend::InfluxDb3))).unwrap();
    assert_eq!(
        invalid_config(complete_open_request(&influx, &vec![Some(String::new()), Some("t".to_string())], "/b")),
        "environment variable 'INFLUX_HOST' is not set"
    );
    assert_eq!(
        invalid_config(complete_open_request(&influx, &vec![Some("https://h".to_string()), Some(String::new())], "/b")),
        "environment variable 'INFLUX_TOKEN' is not set"
    );
}

#[test]
fn a_newer_schema_marker_is_refused_as_newer() {
    for backend in ["PostgreSQL", "MySQL", "SQL Server", "InfluxDB 3"] {
        let error = check_marker_generation(backend, Some(4)).unwrap_err();
        assert!(format!("{error:?}").contains("newer"), "{error:?}");
        assert!(format!("{error:?}").contains("incompatible pre-release schema"));
    }
    let sqlite = check_generation("SQLite", 5).unwrap_err();
    assert!(format!("{sqlite:?}").contains("newer"));
    assert!(format!("{sqlite:?}").contains("incompatible pre-release schema"));
    assert!(!format!("{:?}", check_generation("SQLite", -1).unwrap_err()).contains("newer"));
    assert!(!format!("{:?}", check_marker_generation("MySQL", None).unwrap_err()).contains("newer"));
}

#[test]
fn spool_generation_and_catalog_are_checked_like_a_schema() {
    assert_eq!(check_store_generation("InfluxDB 3", "spool", "spool", 1), Ok(()));
    assert_eq!(
        check_store_generation("InfluxDB 3", "spool", "spool", 0),
        Err(PersistenceError::Commit(
            "InfluxDB 3 incompatible pre-release spool generation 0; back up and recreate the development spool".to_string()
        ))
    );
    assert_eq!(
        check_store_generation("InfluxDB 3", "spool", "spool", 4),
        Err(PersistenceError::Commit(
            "InfluxDB 3 incompatible pre-release spool generation 4 is newer than the supported generation 1; upgrade the runtime or back up and recreate the development spool".to_string()
        ))
    );
    assert_eq!(check_store_catalog("ab", "ab", "InfluxDB 3", "spool schema", "spool"), Ok(()));
    assert_eq!(
        check_store_catalog("ab", "abc", "InfluxDB 3", "spool schema", "spool"),
        Err(PersistenceError::Commit(
            "InfluxDB 3 incompatible pre-release spool schema: the generation-1 catalog definition changed; back up and recreate the development spool".to_string()
        ))
    );
}

#[test]
fn eight_big_endian_bytes_decode_back_to_their_value() {
    for x in [0u64, 1, 255, 256, 0x0123_4567_89ab_cdef, u64::MAX] {
        assert_eq!(decode_u64(&x.to_be_bytes(), "InfluxDB 3", "checkpoint cursor"), Ok(x));
    }
}

#[test]
fn catalog_fingerprints_are_64_lowercase_hex_digits() {
    for rows in [Vec::new(), vec!["a".to_string()], vec!["table t".to_string(), "index i".to_string()]] {
        let text = fingerprint(rows);
        assert_eq!(text.len(), 64);
        assert!(text.chars().all(|c| c.is_ascii_digit() || ('a'..='f').contains(&c)), "{text}");
    }
}
