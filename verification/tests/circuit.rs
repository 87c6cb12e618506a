use caduceus::scheduler::circuit::{
    AdmissionResult, CircuitConfig, CircuitScope, CircuitState, CircuitStore,
};

const START: i64 = 1_700_000_000;

fn circuit_store() -> CircuitStore {
    CircuitStore::new(Vec::new(), CircuitConfig::test_defaults())
}

fn opened() -> CircuitStore {
    let mut store = circuit_store();
    for _ in 0..3 {
        let _ = store.record_failure("repository", "owner/repo", START).unwrap_or_else(|_| panic!());
    }
    store
}

fn probing() -> CircuitStore {
    let mut store = opened();
    let _ = store.try_admit("repository", "owner/repo", START + 1800);
    store
}

#[test]
fn circuit_state_round_trip() {
    assert_eq!(CircuitState::Closed.as_str(), "closed");
    assert_eq!(CircuitState::Open.as_str(), "open");
    assert_eq!(CircuitState::HalfOpen.as_str(), "half_open");
    assert_eq!("closed".parse::<CircuitState>().unwrap(), CircuitState::Closed);
    assert_eq!("open".parse::<CircuitState>().unwrap(), CircuitState::Open);
    assert_eq!("half_open".parse::<CircuitState>().unwrap(), CircuitState::HalfOpen);
    assert!("invalid".parse::<CircuitState>().is_err());
}

#[test]
fn circuit_scope_round_trip() {
    assert_eq!(CircuitScope::Provider.as_str(), "provider");
    assert_eq!(CircuitScope::Repository.as_str(), "repository");
    assert_eq!("provider".parse::<CircuitScope>().unwrap(), CircuitScope::Provider);
    assert_eq!("repository".parse::<CircuitScope>().unwrap(), CircuitScope::Repository);
    assert!("invalid".parse::<CircuitScope>().is_err());
}

#[test]
fn threshold_opens_circuit() {
    let mut store = circuit_store();

    let r1 = store.record_failure("repository", "owner/repo", START).unwrap_or_else(|_| panic!());
    assert_eq!(r1.state, CircuitState::Closed);
    assert_eq!(r1.consecutive_failures, 1);

    let r2 = store.record_failure("repository", "owner/repo", START).unwrap_or_else(|_| panic!());
    assert_eq!(r2.state, CircuitState::Closed);
    assert_eq!(r2.consecutive_failures, 2);

    let r3 = store.record_failure("repository", "owner/repo", START).unwrap_or_else(|_| panic!());
    assert_eq!(r3.state, CircuitState::Open);
    assert_eq!(r3.consecutive_failures, 3);
    assert!(r3.opened_at.is_some());
}

#[test]
fn closed_circuit_admits() {
    let mut store = circuit_store();
    let result = store.try_admit("repository", "owner/repo", START);
    assert_eq!(result, AdmissionResult::NoCircuit);
}

#[test]
fn open_circuit_rejects_admission() {
    let mut store = opened();
    let result = store.try_admit("repository", "owner/repo", START);
    match result {
        AdmissionResult::CircuitOpen { retry_after, probe_in_flight } => {
            assert!(retry_after > 0);
            assert!(!probe_in_flight);
        }
        other => panic!("expected CircuitOpen, got {other:?}"),
    }
}

#[test]
fn half_open_transition_after_open_interval() {
    let mut store = opened();
    let result = store.try_admit("repository", "owner/repo", START + 1800);
    assert_eq!(result, AdmissionResult::Admitted);

    let record = store.get_record("repository", "owner/repo").unwrap();
    assert_eq!(record.state, CircuitState::HalfOpen);
}

#[test]
fn successful_probe_resets_circuit() {
    let mut store = probing();
    store.record_probe_result("repository", "owner/repo", true, START + 1800);

    let record = store.get_record("repository", "owner/repo").unwrap();
    assert_eq!(record.state, CircuitState::Closed);
    assert_eq!(record.consecutive_failures, 0);
}

#[test]
fn failed_probe_reopens_circuit() {
    let mut store = probing();
    store.record_probe_result("repository", "owner/repo", false, START + 1800);

    let record = store.get_record("repository", "owner/repo").unwrap();
    assert_eq!(record.state, CircuitState::Open);
    assert!(record.opened_at.is_some());
}

#[test]
fn twentyfour_hour_age_triggers_escalation() {
    let mut store = opened();
    let now = START + 86400;
    let result = store.try_admit("repository", "owner/repo", now);
    assert_eq!(result, AdmissionResult::MaxDegradedAgeExceeded);

    let exhausted = store.exhausted_to_needs_attention(now).unwrap_or_else(|_| panic!());
    assert_eq!(exhausted.len(), 1);
    assert_eq!(exhausted[0].scope_id, "owner/repo");
}

#[test]
fn open_less_than_24h_does_not_escalate() {
    let mut store = opened();
    let now = START + 300;
    let result = store.try_admit("repository", "owner/repo", now);
    match result {
        AdmissionResult::CircuitOpen { .. } => {}
        other => panic!("expected CircuitOpen, got {other:?}"),
    }

    let exhausted = store.exhausted_to_needs_attention(now).unwrap_or_else(|_| panic!());
    assert!(exhausted.is_empty());
}

#[test]
fn restart_preserves_state() {
    let store = opened();
    let rows = store.rows;

    let store = CircuitStore::new(rows, CircuitConfig::test_defaults());
    let record = store.get_record("repository", "owner/repo").unwrap();
    assert_eq!(record.state, CircuitState::Open);
    assert_eq!(record.consecutive_failures, 3);
}

#[test]
fn a_second_probe_waits_for_the_first() {
    let mut store = probing();
    match store.try_admit("repository", "owner/repo", START + 1801) {
        AdmissionResult::CircuitOpen { probe_in_flight, .. } => assert!(probe_in_flight),
        other => panic!("expected CircuitOpen, got {other:?}"),
    }
    for (later, wait) in [(1800, 5), (1801, 4), (1804, 1), (1805, 5), (90_000, 5)] {
        assert_eq!(
            store.try_admit("repository", "owner/repo", START + later),
            AdmissionResult::CircuitOpen { retry_after: wait, probe_in_flight: true }
        );
    }
    store.record_probe_result("repository", "owner/repo", true, START + 90_001);
    assert_eq!(
        store.try_admit("repository", "owner/repo", START + 90_002),
        AdmissionResult::Admitted
    );
}

#[test]
fn circuits_do_not_touch_each_other() {
    let mut store = opened();
    let other = store.try_admit("repository", "other/repo", START);
    assert_eq!(other, AdmissionResult::NoCircuit);
    let provider = store.try_admit("provider", "owner/repo", START);
    assert_eq!(provider, AdmissionResult::NoCircuit);
    assert_eq!(store.rows.len(), 1);
}
