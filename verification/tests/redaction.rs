use openot_persistence::contracts::PersistenceError;
use openot_persistence::redaction::{redacted_error, safe_commit_context};

#[test]
fn backend_error_keeps_safe_action_but_removes_sensitive_detail() {
    let projected = redacted_error(&PersistenceError::Commit(
        "PostgreSQL connect with required TLS: password=plant-secret /private/ca.pem".into(),
    ));

    assert!(projected.contains("PostgreSQL connect with required TLS"));
    assert!(!projected.contains("plant-secret"));
    assert!(!projected.contains("/private"));
}

#[test]
fn operator_status_redacts_backend_secrets_and_sensitive_paths() {
    let secret = "password=plant-secret token=operator-token /private/customer/history.db";
    for error in [
        PersistenceError::InvalidConfig(secret.to_string()),
        PersistenceError::Commit(secret.to_string()),
        PersistenceError::Connection(secret.to_string()),
        PersistenceError::CapacityExhausted(secret.to_string()),
    ] {
        let projected = redacted_error(&error);
        assert!(!projected.contains("plant-secret"));
        assert!(!projected.contains("operator-token"));
        assert!(!projected.contains("/private/customer"));
    }
}

#[test]
fn redacted_commit_keeps_known_backend_context_exactly() {
    assert_eq!(
        redacted_error(&PersistenceError::Commit(
            "SQLite insert document: UNIQUE constraint failed".into()
        )),
        "selected OpenOT persistence backend operation failed: SQLite insert document"
    );
}

#[test]
fn unknown_backend_context_is_dropped() {
    assert_eq!(
        redacted_error(&PersistenceError::Commit("Oracle insert: boom".into())),
        "selected OpenOT persistence backend operation failed"
    );
    assert_eq!(safe_commit_context("Oracle insert: boom"), None);
}

#[test]
fn context_with_path_characters_is_dropped() {
    assert_eq!(safe_commit_context("SQLite open /var/db: denied"), None);
    assert_eq!(
        safe_commit_context("MySQL commit document transaction: deadlock"),
        Some("MySQL commit document transaction".to_string())
    );
}

#[test]
fn context_longer_than_120_characters_is_dropped() {
    let long = format!("SQLite {}: detail", "a".repeat(120));
    assert_eq!(safe_commit_context(&long), None);
}

#[test]
fn connection_failures_are_redacted_like_commits() {
    assert_eq!(
        redacted_error(&PersistenceError::Connection(
            "PostgreSQL connect with required TLS: host=10.0.0.1".into()
        )),
        "selected OpenOT persistence backend connection failed: PostgreSQL connect with required TLS"
    );
}

#[test]
fn non_backend_errors_have_fixed_operator_text() {
    assert_eq!(
        redacted_error(&PersistenceError::NotImplemented),
        "persistence behavior is unavailable"
    );
    assert_eq!(
        redacted_error(&PersistenceError::IdentityConflict("r:1".into())),
        "OpenOT document identity conflict at r:1"
    );
    assert_eq!(
        redacted_error(&PersistenceError::CheckpointRegression { current: 200, requested: 100 }),
        "OpenOT checkpoint regression: current=200, requested=100"
    );
    assert_eq!(
        redacted_error(&PersistenceError::InvalidConfig("secret".into())),
        "OpenOT persistence configuration is invalid; inspect the local runtime log"
    );
    assert_eq!(
        redacted_error(&PersistenceError::BackendUnavailable("sqlite is not compiled".into())),
        "sqlite is not compiled"
    );
    assert_eq!(
        redacted_error(&PersistenceError::CapacityExhausted("/private".into())),
        "OpenOT persistence durable capacity is exhausted; free space or increase the configured bound"
    );
}
