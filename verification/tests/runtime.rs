use caduceus::error::CaduceusError;
use caduceus::runtime::audit::{
    emit_investigation_archived, emit_needs_attention,
    emit_review_migration_terminated_investigation, record_circuit_transition, AuditRecord,
    INVESTIGATION_ARCHIVED_EVENT, REVIEW_MIGRATION_TERMINATED_INVESTIGATION_EVENT,
};
use caduceus::scheduler::circuit::{CircuitState, ExhaustedEntry};

fn fields(record: &AuditRecord) -> Vec<(String, String)> {
    record.fields.iter().map(|f| (f.name.to_string(), f.value.clone())).collect()
}

fn field(name: &str, value: &str) -> (String, String) {
    (name.to_string(), value.to_string())
}

#[test]
fn transitions_are_recorded() {
    let r = record_circuit_transition(
        "provider",
        "github",
        &CircuitState::Closed,
        &CircuitState::Open,
        -5,
    );
    assert!(!r.warning);
    assert_eq!(r.message, "circuit state transition");
    assert_eq!(
        fields(&r),
        vec![
            field("circuit.scope", "provider"),
            field("circuit.scope_id", "github"),
            field("circuit.from", "closed"),
            field("circuit.to", "open"),
            field("circuit.timestamp", "-5"),
        ]
    );
}

#[test]
fn a_missing_time_is_no_field() {
    let entry = ExhaustedEntry {
        scope: "repository".to_string(),
        scope_id: "o/r".to_string(),
        consecutive_failures: 4,
        last_failure_at: None,
        opened_at: Some(100),
    };
    let r = emit_needs_attention("repository", "o/r", "too long", &entry);
    assert!(r.warning);
    assert_eq!(
        fields(&r),
        vec![
            field("circuit.scope", "repository"),
            field("circuit.scope_id", "o/r"),
            field("circuit.reason", "too long"),
            field("circuit.consecutive_failures", "4"),
            field("circuit.opened_at", "100"),
        ]
    );
}

#[test]
fn investigations_leave_a_record() {
    let archived = emit_investigation_archived("o/r", 7, "queue", "done");
    assert!(!archived.warning);
    assert_eq!(archived.message, "investigation entry archived under deprecation (DAR §12)");
    assert_eq!(fields(&archived)[0], field("event", INVESTIGATION_ARCHIVED_EVENT));
    assert_eq!(fields(&archived)[2], field("issue", "7"));
    let ended = emit_review_migration_terminated_investigation("o/r", 7, "queued");
    assert!(ended.warning);
    assert!(ended.message.contains("startup reconcile pass (DAR §4.4); the work never executed"));
    assert_eq!(
        fields(&ended),
        vec![
            field("event", REVIEW_MIGRATION_TERMINATED_INVESTIGATION_EVENT),
            field("repo", "o/r"),
            field("issue", "7"),
            field("phase_before", "queued"),
        ]
    );
}

#[test]
fn errors_say_what_they_are() {
    let sha = CaduceusError::HeadShaUnavailable { sha: "abc".to_string() };
    assert_eq!(sha.message_text(), "head commit is unavailable: abc");
    let schema = CaduceusError::ReviewSchemaVersion { found: 9, supported: 1 };
    assert_eq!(schema.message_text(), "unsupported review schema version 9");
    let git = CaduceusError::Git { operation: "fetch", stderr: "refused".to_string() };
    assert_eq!(git.message_text(), "refused");
    assert_eq!(CaduceusError::Cancelled.message_text(), "cancelled");
}
