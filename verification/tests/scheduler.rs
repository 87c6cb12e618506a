use caduceus::error::CaduceusError;
use caduceus::ordered::StringMap;
use caduceus::scheduler::exclusion::RepoExclusionMap;
use caduceus::scheduler::leadership::{lock_path, try_acquire, with_lock, LockAttempt};
use caduceus::scheduler::leases::{LeaseState, LeaseStore};
use caduceus::scheduler::pool::{Admission, DrainConfig, Pool, PoolState};

const NOW: i64 = 1_700_000_000;

fn leases() -> LeaseStore {
    LeaseStore::new(StringMap::new())
}

fn pool() -> Pool {
    Pool::new(2, DrainConfig::from_seconds_and_ms(30, 250), 7, NOW)
}

#[test]
fn a_lease_is_exclusive() {
    let mut s = leases();
    let lease = s.acquire("o/r#1", "a", 60, NOW).unwrap();
    assert_eq!(lease.fencing_token, 1);
    assert_eq!(lease.expires_at, NOW + 60);
    assert_eq!(lease.state, LeaseState::Held);
    match s.acquire("o/r#1", "b", 60, NOW + 59).err().unwrap() {
        CaduceusError::LeadershipContended { context, stderr } => {
            assert_eq!(context, "acquire");
            assert_eq!(stderr, format!("lease for o/r#1 held by a until {}", NOW + 60));
        }
        _ => panic!(),
    }
}

#[test]
fn fencing_tokens_grow() {
    let mut s = leases();
    s.acquire("k", "a", 60, NOW).unwrap();
    let second = s.acquire("k", "b", 60, NOW + 60).unwrap();
    assert_eq!(second.fencing_token, 2);
    assert!(s.verify_fencing_token("k", "b", 2).is_ok());
    assert!(s.verify_fencing_token("k", "a", 1).is_err());
    assert!(matches!(
        s.verify_fencing_token("k", "b", 1).err().unwrap(),
        CaduceusError::FencingTokenRegression { stale_token: 1, current_token: 2, .. }
    ));
    assert!(s.verify_fencing_token("other", "b", 2).is_err());
}

#[test]
fn a_lease_is_released_once() {
    let mut s = leases();
    let lease = s.acquire("k", "a", 60, NOW).unwrap();
    assert!(s.release_definitively_dead("k", "a", 9).is_err());
    s.release_definitively_dead("k", "a", lease.fencing_token).unwrap();
    assert!(s.release_definitively_dead("k", "a", lease.fencing_token).is_err());
    let again = s.acquire("k", "b", 60, NOW).unwrap();
    assert_eq!(again.fencing_token, 2);
}

#[test]
fn leases_are_renewed_by_their_holder() {
    let mut s = leases();
    s.acquire("k", "a", 60, NOW).unwrap();
    s.renew("k", "a", 60, NOW + 50).unwrap();
    assert!(s.acquire("k", "b", 60, NOW + 100).is_err());
    match s.renew("k", "b", 60, NOW).err().unwrap() {
        CaduceusError::LeaseStale { context, stderr } => {
            assert_eq!(context, "renew");
            assert_eq!(stderr, "no held lease for k with owner b");
        }
        _ => panic!(),
    }
}

#[test]
fn lease_states_have_labels() {
    assert_eq!(LeaseState::from_str("held"), Some(LeaseState::Held));
    assert_eq!(LeaseState::from_str("nowhere"), None);
}

#[test]
fn one_lock_for_each_repository() {
    let mut m = RepoExclusionMap::new();
    let a = m.get_or_init("o/a");
    let b = m.get_or_init("o/b");
    assert_ne!(a, b);
    assert_eq!(m.get_or_init("o/a"), a);
    assert_eq!(m.len(), 2);
}

#[test]
fn a_pool_says_what_it_does() {
    let p = pool();
    assert_eq!(p.state(2), PoolState::Idle);
    assert_eq!(p.state(1), PoolState::Active(1));
    assert_eq!(p.state(0), PoolState::Saturated);
    assert_eq!(p.current_depth(1), 1);
    assert_eq!(PoolState::Active(1).describe(), "active(1)");
}

#[test]
fn a_draining_pool_admits_nobody() {
    let mut p = pool();
    p.begin_drain();
    assert_eq!(p.state(2), PoolState::Draining);
    assert!(matches!(
        p.begin_admit("k", "o/r", 2, NOW).err().unwrap(),
        CaduceusError::DrainTimeout { .. }
    ));
    assert_eq!(p.next_drain_wait(0, 0), Some(30_000));
    assert_eq!(p.next_drain_wait(1, 29_999), Some(1));
    assert_eq!(p.next_drain_wait(1, 30_000), None);
    assert_eq!(p.next_drain_wait(2, 0), None);
}

#[test]
fn an_admission_needs_a_permit() {
    let mut p = pool();
    let (slot, lease) = p.begin_admit("k", "o/r", 2, NOW).unwrap();
    assert!(lease.is_none());
    assert!(matches!(
        p.finish_admit(slot, None, true, 1).unwrap(),
        Admission::Admitted { .. }
    ));
    assert!(matches!(
        p.finish_admit(slot, None, false, 0).err().unwrap(),
        CaduceusError::PoolSaturated { current_depth: 2, max_depth: 2 }
    ));
}

#[test]
fn one_worker_for_each_key_across_pools() {
    let mut p = pool().with_lease_store(leases(), 600);
    let (_, lease) = p.begin_admit("k", "o/r", 2, NOW).unwrap();
    assert_eq!(lease.unwrap().fencing_token, 1);
    assert!(matches!(
        p.begin_admit("k", "o/r", 1, NOW).err().unwrap(),
        CaduceusError::PoolSaturated { .. }
    ));
}

#[test]
fn leadership_is_won_or_not() {
    assert_eq!(lock_path("/s"), "/s/scheduler.lock");
    assert_eq!(try_acquire(LockAttempt::Locked).unwrap(), true);
    assert_eq!(try_acquire(LockAttempt::WouldBlock).unwrap(), false);
    match try_acquire(LockAttempt::OpenFailed("perm".to_string())).err().unwrap() {
        CaduceusError::LeadershipContended { context, stderr } => {
            assert_eq!(context, "try_acquire");
            assert_eq!(stderr, "open lock file: perm");
        }
        _ => panic!(),
    }
    assert!(try_acquire(LockAttempt::LockFailed("io".to_string())).is_err());
    assert!(with_lock(LockAttempt::Locked).is_ok());
    assert!(with_lock(LockAttempt::WouldBlock).is_err());
}
