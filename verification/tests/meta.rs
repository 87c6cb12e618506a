use caduceus::meta::{
    append_diagnostic, load, quarantine_name, CadenceDecision, CadenceGate, MetaFile, MetaStore,
    RateLimitInfo, RateLimitObservation, RateLimitObserver, StateMeta, TickOutcome,
};
use caduceus::time::Timestamp;

fn at(secs: i64) -> Timestamp {
    Timestamp { secs: 1_700_000_000 + secs, nanos: 0 }
}

fn cadence() -> CadenceGate {
    CadenceGate::open("/state", MetaFile::Missing).unwrap_or_else(|_| panic!())
}

fn observation(remaining: u32, reset: i64, observed: i64) -> RateLimitObservation {
    RateLimitObservation {
        limit: Some(5000),
        remaining,
        reset_at: at(reset),
        observed_at: at(observed),
    }
}

fn info(remaining: u32, reset: i64, observed: i64) -> RateLimitInfo {
    RateLimitInfo {
        limit: Some(5000),
        remaining,
        reset_at: at(reset),
        observed_at: at(observed),
    }
}

#[test]
fn a_missing_file_says_nothing() {
    let m = load("/state/state_meta.json", MetaFile::Missing).unwrap_or_else(|_| panic!());
    assert_eq!(m.version, 1);
    assert!(m.last_outcome.is_none());
}

#[test]
fn a_bad_file_is_corrupt() {
    let bad = load("/m", MetaFile::Decoded(Err("eof".to_string())));
    assert!(bad.is_err());
    let mut m = StateMeta::empty();
    m.version = 9;
    assert!(load("/m", MetaFile::Decoded(Ok(m))).is_err());
    assert!(load("/m", MetaFile::Unreadable("perm".to_string())).is_err());
    assert!(quarantine_name(42).contains("42"));
}

#[test]
fn observations_never_regress() {
    let store = MetaStore::open("/state", MetaFile::Missing).unwrap_or_else(|_| panic!());
    let mut o = RateLimitObserver::new(store);
    o.observe(observation(10, 100, 5));
    o.observe(observation(99, 90, 6));
    assert_eq!(o.store.snapshot().rate_limit.unwrap().remaining, 10);
    o.observe(observation(8, 110, 7));
    assert_eq!(o.store.snapshot().rate_limit.unwrap().remaining, 8);
    assert!(observation(0, 2, 0).is_newer_than(&observation(0, 1, 0)));
    assert!(!observation(0, 1, 0).is_newer_than(&observation(0, 1, 0)));
}

#[test]
fn ticks_keep_the_interval() {
    let mut g = cadence();
    assert!(g.precheck(at(0), 60).is_proceed());
    g.record_tick_started(at(0));
    g.record_tick_finished(at(1), TickOutcome::Processed, Some(200), 60, None, None);
    match g.precheck(at(60), 60) {
        CadenceDecision::Cadence { next_allowed_at } => assert_eq!(next_allowed_at, at(61)),
        _ => panic!(),
    }
    assert_eq!(g.precheck(at(60), 60).tick_outcome(), Some(TickOutcome::SkippedCadence));
    assert!(g.precheck(at(61), 60).is_proceed());
    assert_eq!(g.store().snapshot().next_allowed_poll_at, Some(at(61)));
    assert!(g.precheck(at(0), u64::MAX).is_proceed());
}

#[test]
fn an_exhausted_rate_limit_blocks() {
    let mut g = cadence();
    g.record_tick_finished(
        at(1),
        TickOutcome::RateLimited,
        Some(403),
        60,
        Some(info(0, 900, 1)),
        Some("limited".to_string()),
    );
    match g.precheck(at(899), 60) {
        CadenceDecision::RateLimited { next_allowed_at } => assert_eq!(next_allowed_at, at(900)),
        _ => panic!(),
    }
    assert!(g.precheck(at(900), 60).is_proceed());
    assert_eq!(g.store().snapshot().next_allowed_poll_at, Some(at(900)));
    g.record_tick_finished(at(901), TickOutcome::RateLimited, None, 60, None, None);
    assert_eq!(g.store().snapshot().next_allowed_poll_at, Some(at(961)));
    let info = Some(info(50, 5000, 1000));
    g.record_tick_finished(at(1000), TickOutcome::Processed, Some(200), 60, info, None);
    assert_eq!(g.store().snapshot().next_allowed_poll_at, Some(at(5000)));
}

#[test]
fn suggestions_only_slow_down() {
    let mut g = cadence();
    g.record_tick_finished(at(0), TickOutcome::IdleEmpty, None, 60, None, None);
    g.record_poll_interval(at(0), 10);
    assert_eq!(g.store().snapshot().next_allowed_poll_at, Some(at(60)));
    g.record_poll_interval(at(0), 120);
    assert_eq!(g.store().snapshot().next_allowed_poll_at, Some(at(120)));
}

#[test]
fn diagnostics_are_bounded() {
    let mut m = StateMeta::empty();
    for i in 0..30 {
        append_diagnostic(&mut m, &format!("code-{i}"), None, "message", at(i));
    }
    assert_eq!(m.recent_diagnostics.len(), 20);
    append_diagnostic(&mut m, "code-29", None, &"é".repeat(400), at(40));
    assert_eq!(m.recent_diagnostics.len(), 20);
    for d in &m.recent_diagnostics {
        assert!(d.message.len() <= 256);
    }
}
