//! The worker pool: bounded concurrency, exclusion per repository, and drain.
//!
//! The permits themselves are a semaphore outside; the pool decides from the
//! number that is free.

use vstd::prelude::*;

use super::exclusion::RepoExclusionMap;
use super::leases;
use super::leases::{Lease, LeaseStore};
use crate::error::{CaduceusError, Fault};
use crate::text;

verus! {

/// Seconds for which a worker's lease is taken.
pub const DEFAULT_WORKER_LEASE_SECONDS: u64 = 600;

/// How long to wait.
#[derive(Clone, Copy, Debug, PartialEq, Eq, Structural)]
pub struct DrainConfig {
    /// Longest wait for workers during a drain, in seconds.
    pub drain_timeout_seconds: u64,
    /// Longest wait for a permit, in milliseconds.
    pub backpressure_budget_ms: u64,
}

impl DrainConfig {
    /// Waits from seconds and milliseconds.
    pub fn from_seconds_and_ms(drain_timeout_seconds: u64, backpressure_budget_ms: u64) -> (r:
        DrainConfig)
        ensures
            r == (DrainConfig { drain_timeout_seconds, backpressure_budget_ms }),
    {
        DrainConfig { drain_timeout_seconds, backpressure_budget_ms }
    }
}

/// What the pool is doing.
#[derive(Clone, Copy, Debug, PartialEq, Eq, Structural)]
pub enum PoolState {
    Idle,
    /// So many workers are active, and capacity remains.
    Active(u32),
    Saturated,
    /// New admissions are refused.
    Draining,
}

impl PoolState {
    /// The state in words.
    pub open spec fn words(self) -> Seq<char> {
        match self {
            PoolState::Idle => "idle"@,
            PoolState::Active(n) => "active("@ + text::dec(n as nat) + ")"@,
            PoolState::Saturated => "saturated"@,
            PoolState::Draining => "draining"@,
        }
    }

    /// The state in words.
    pub fn describe(&self) -> (r: String)
        ensures
            r@ == self.words(),
    {
        match self {
            PoolState::Idle => "idle".to_owned(),
            PoolState::Active(n) => {
                let mut s = text::cat("active(", text::decimal(*n as u64).as_str());
                s.append(")");
                s
            },
            PoolState::Saturated => "saturated".to_owned(),
            PoolState::Draining => "draining".to_owned(),
        }
    }
}

/// What an admission came to. Where it was granted it names the lock of the
/// repository and the lease, if the pool takes leases.
pub enum Admission {
    Admitted { exclusion: usize, lease: Option<Lease> },
    PoolSaturated { current_depth: u32, max_depth: u32 },
    DrainTimeout { timed_out_run_ids: Vec<String> },
}

/// Workers that hold a permit, of `max` permits of which `available` are free.
pub open spec fn depth(max: u32, available: u32) -> u32 {
    if available <= max {
        (max - available) as u32
    } else {
        0
    }
}

/// The error for a pool without a free permit.
pub open spec fn saturated(max: u32, available: u32) -> Fault {
    Fault::PoolSaturated { current_depth: depth(max, available), max_depth: max }
}

/// What the pool is doing.
pub open spec fn state_of(max: u32, draining: bool, available: u32) -> PoolState {
    if draining {
        PoolState::Draining
    } else if depth(max, available) == 0 {
        PoolState::Idle
    } else if depth(max, available) >= max {
        PoolState::Saturated
    } else {
        PoolState::Active(depth(max, available))
    }
}

/// The pool.
#[derive(Debug)]
pub struct Pool {
    pub max_permits: u32,
    pub exclusion: RepoExclusionMap,
    pub draining: bool,
    pub drain_config: DrainConfig,
    /// Leases per repository across processes, where the pool takes them.
    pub lease_store: Option<LeaseStore>,
    pub worker_lease_seconds: u64,
    pub worker_owner_id: String,
}

impl Pool {
    pub open spec fn wf(&self) -> bool {
        &&& self.exclusion.wf()
        &&& self.lease_store matches Some(s) ==> s.wf()
    }

    /// A pool of `parallelism` permits without a lease store. The identity of
    /// its workers is made of the process and its start.
    pub fn new(parallelism: u32, drain_config: DrainConfig, pid: u32, started_at: i64) -> (r: Pool)
        ensures
            r.wf(),
            r.max_permits == parallelism,
            r.exclusion@ == Map::<Seq<char>, usize>::empty(),
            !r.draining,
            r.drain_config == drain_config,
            r.lease_store is None,
            r.worker_lease_seconds == DEFAULT_WORKER_LEASE_SECONDS,
            r.worker_owner_id@ == text::dec(pid as nat) + "@"@ + text::dec_int(started_at as int),
    {
        let mut owner = text::decimal(pid as u64);
        owner.append("@");
        owner.append(text::decimal_signed(started_at).as_str());
        Pool {
            max_permits: parallelism,
            exclusion: RepoExclusionMap::new(),
            draining: false,
            drain_config,
            lease_store: None,
            worker_lease_seconds: DEFAULT_WORKER_LEASE_SECONDS,
            worker_owner_id: owner,
        }
    }

    /// The pool with a lease store, and the time for which it takes leases.
    pub fn with_lease_store(self, store: LeaseStore, worker_lease_seconds: u64) -> (r: Pool)
        requires
            self.wf(),
            store.wf(),
        ensures
            r.wf(),
            r.lease_store == Some(store),
            r.worker_lease_seconds == worker_lease_seconds,
            r.max_permits == self.max_permits,
            r.exclusion == self.exclusion,
            r.draining == self.draining,
            r.drain_config == self.drain_config,
            r.worker_owner_id == self.worker_owner_id,
    {
        Pool { lease_store: Some(store), worker_lease_seconds, ..self }
    }

    /// Workers that hold a permit, with `available` permits free.
    pub fn current_depth(&self, available: u32) -> (r: u32)
        ensures
            r == depth(self.max_permits, available),
    {
        self.max_permits.saturating_sub(available)
    }

    /// What the pool is doing, with `available` permits free.
    pub fn state(&self, available: u32) -> (r: PoolState)
        ensures
            r == state_of(self.max_permits, self.draining, available),
    {
        if self.draining {
            return PoolState::Draining;
        }
        let active: u32 = self.current_depth(available);
        if active == 0 {
            PoolState::Idle
        } else if active >= self.max_permits {
            PoolState::Saturated
        } else {
            PoolState::Active(active)
        }
    }

    /// The first part of an admission, before anything is waited for: refused
    /// during a drain; otherwise the lease is taken, where the pool takes
    /// leases, and the lock of the repository is named. A lease that is held
    /// elsewhere counts as saturation.
    pub fn begin_admit(&mut self, issue_key: &str, repo_key: &str, available: u32, now: i64) -> (r:
        Result<(usize, Option<Lease>), CaduceusError>)
        requires
            old(self).wf(),
            old(self).exclusion.slots.keys.len() < usize::MAX,
            i64::MIN <= leases::expiry(now, old(self).worker_lease_seconds) <= i64::MAX,
            old(self).lease_store matches Some(s) ==> s.rows.keys.len() < usize::MAX && (
            s@.contains_key(issue_key@) ==> s@[issue_key@].fencing_token < i64::MAX),
        ensures
            final(self).wf(),
            final(self).max_permits == old(self).max_permits,
            final(self).draining == old(self).draining,
            final(self).drain_config == old(self).drain_config,
            final(self).worker_lease_seconds == old(self).worker_lease_seconds,
            final(self).worker_owner_id == old(self).worker_owner_id,
            begun(*old(self), *final(self), issue_key@, repo_key@, available, now, r),
    {
        if self.draining {
            let none: Vec<String> = Vec::new();
            proof {
                assert(text::texts(none@) =~= Seq::<Seq<char>>::empty());
            }
            return Err(CaduceusError::DrainTimeout { timed_out_run_ids: none });
        }
        let mut store = None;
        std::mem::swap(&mut store, &mut self.lease_store);
        let lease: Option<Lease> = match store {
            None => None,
            Some(s) => {
                let mut s = s;
                let taken = s.acquire(
                    issue_key,
                    self.worker_owner_id.as_str(),
                    self.worker_lease_seconds,
                    now,
                );
                self.lease_store = Some(s);
                match taken {
                    Ok(l) => Some(l),
                    Err(CaduceusError::LeadershipContended { .. }) => {
                        return Err(
                            CaduceusError::PoolSaturated {
                                current_depth: self.current_depth(available),
                                max_depth: self.max_permits,
                            },
                        );
                    },
                    Err(e) => {
                        return Err(e);
                    },
                }
            },
        };
        let slot: usize = self.exclusion.get_or_init(repo_key);
        Ok((slot, lease))
    }

    /// The second part of an admission, once the lock of the repository is
    /// held: granted with a permit; without one the pool is saturated.
    pub fn finish_admit(
        &self,
        exclusion: usize,
        lease: Option<Lease>,
        permit: bool,
        available: u32,
    ) -> (r: Result<Admission, CaduceusError>)
        ensures
            match r {
                Ok(a) => permit && a == (Admission::Admitted { exclusion, lease }),
                Err(e) => !permit && e@ == saturated(self.max_permits, available),
            },
    {
        if permit {
            Ok(Admission::Admitted { exclusion, lease })
        } else {
            Err(
                CaduceusError::PoolSaturated {
                    current_depth: self.current_depth(available),
                    max_depth: self.max_permits,
                },
            )
        }
    }

    /// How long a drain waits for the next permit, in milliseconds, when it has
    /// `taken` permits and has waited `elapsed_ms`; none when it is over, with
    /// all permits or out of time.
    pub fn next_drain_wait(&self, taken: u32, elapsed_ms: u64) -> (r: Option<u128>)
        ensures
            r == drain_wait(
                self.max_permits,
                self.drain_config.drain_timeout_seconds,
                DrainMoment { taken, elapsed_ms },
            ),
    {
        let limit: u128 = self.drain_config.drain_timeout_seconds as u128 * 1000;
        if taken >= self.max_permits || elapsed_ms as u128 >= limit {
            None
        } else {
            Some(limit - elapsed_ms as u128)
        }
    }

    /// Start a drain: from now on admissions are refused.
    pub fn begin_drain(&mut self)
        requires
            old(self).wf(),
        ensures
            final(self).wf(),
            final(self).draining,
            final(self).max_permits == old(self).max_permits,
            final(self).exclusion == old(self).exclusion,
            final(self).drain_config == old(self).drain_config,
            final(self).lease_store == old(self).lease_store,
            final(self).worker_lease_seconds == old(self).worker_lease_seconds,
            final(self).worker_owner_id == old(self).worker_owner_id,
    {
        self.draining = true;
    }
}

/// A moment of a drain: the permits that it has taken back, and the milliseconds
/// that it has waited.
#[derive(Clone, Copy, Debug, PartialEq, Eq, Structural)]
pub struct DrainMoment {
    pub taken: u32,
    pub elapsed_ms: u64,
}

/// How long a drain waits for the next permit: until the timeout, unless it has
/// all permits.
pub open spec fn drain_wait(max_permits: u32, timeout_seconds: u64, at: DrainMoment) -> Option<u128> {
    let limit = timeout_seconds * 1000;
    if at.taken >= max_permits || at.elapsed_ms >= limit {
        None
    } else {
        Some((limit - at.elapsed_ms) as u128)
    }
}

/// A wait went by: a permit came back, or the whole wait is over without one.
pub open spec fn drain_step(max_permits: u32, timeout_seconds: u64, a: DrainMoment, b: DrainMoment) -> bool {
    drain_wait(max_permits, timeout_seconds, a) matches Some(wait) && {
        ||| b.taken == a.taken + 1 && b.elapsed_ms >= a.elapsed_ms
        ||| b.taken == a.taken && b.elapsed_ms >= a.elapsed_ms + wait
    }
}

/// The moments of a drain, from its start on.
pub open spec fn drain_run(max_permits: u32, timeout_seconds: u64, run: Seq<DrainMoment>) -> bool {
    &&& run.len() > 0
    &&& run[0].taken == 0
    &&& forall|i: int|
        0 <= i < run.len() - 1 ==> drain_step(
            max_permits,
            timeout_seconds,
            #[trigger] run[i],
            run[i + 1],
        )
}

/// A drain goes on while a worker holds a permit and the timeout is not reached,
/// and is over exactly when every permit is back or the timeout is reached. It
/// waits once for each permit, and once more at most.
pub proof fn law_a_drain_waits_for_the_workers(
    max_permits: u32,
    timeout_seconds: u64,
    run: Seq<DrainMoment>,
)
    requires
        drain_run(max_permits, timeout_seconds, run),
    ensures
        forall|i: int|
            0 <= i < run.len() - 1 ==> (#[trigger] run[i]).taken < max_permits && run[i].elapsed_ms
                < timeout_seconds * 1000,
        drain_wait(max_permits, timeout_seconds, run.last()) is None <==> run.last().taken
            == max_permits || run.last().elapsed_ms >= timeout_seconds * 1000,
        run.len() <= max_permits + 2,
    decreases run.len(),
{
    let n = run.len() as int;
    lemma_drain_takes(max_permits, timeout_seconds, run, n - 1);
    if n > 1 {
        assert(drain_step(max_permits, timeout_seconds, run[n - 2], run[n - 1]));
        lemma_drain_takes(max_permits, timeout_seconds, run, n - 2);
    }
}

/// Until its last moment a drain has taken a permit with every wait.
proof fn lemma_drain_takes(max_permits: u32, timeout_seconds: u64, run: Seq<DrainMoment>, i: int)
    requires
        drain_run(max_permits, timeout_seconds, run),
        0 <= i < run.len(),
    ensures
        run[i].taken <= max_permits,
        i < run.len() - 1 ==> run[i].taken == i,
    decreases i,
{
    if i > 0 {
        lemma_drain_takes(max_permits, timeout_seconds, run, i - 1);
        assert(drain_step(max_permits, timeout_seconds, run[i - 1], run[i]));
        if i < run.len() - 1 {
            assert(drain_step(max_permits, timeout_seconds, run[i], run[i + 1]));
        }
    }
}

/// What the first part of an admission does.
pub open spec fn begun(
    before: Pool,
    after: Pool,
    issue_key: Seq<char>,
    repo_key: Seq<char>,
    available: u32,
    now: i64,
    r: Result<(usize, Option<Lease>), CaduceusError>,
) -> bool {
    if before.draining {
        &&& r matches Err(e) && e@ == Fault::DrainTimeout(Seq::empty())
        &&& after.lease_store == before.lease_store
        &&& after.exclusion@ == before.exclusion@
    } else {
        match before.lease_store {
            None => {
                &&& r matches Ok((slot, lease)) && lease is None && locked(
                    before,
                    after,
                    repo_key,
                    slot,
                )
                &&& after.lease_store is None
            },
            Some(s) => {
                let taken = leases::acquired(
                    s@,
                    issue_key,
                    before.worker_owner_id@,
                    leases::expiry(now, before.worker_lease_seconds) as i64,
                    now,
                );
                &&& after.lease_store is Some
                &&& match taken {
                    Err(_) => {
                        &&& r matches Err(e) && e@ == saturated(before.max_permits, available)
                        &&& after.lease_store->0@ == s@
                        &&& after.exclusion@ == before.exclusion@
                    },
                    Ok((after_leases, taken_lease)) => {
                        &&& r matches Ok((slot, lease)) && (lease matches Some(l) && l@
                            == taken_lease) && locked(before, after, repo_key, slot)
                        &&& after.lease_store->0@ == after_leases
                    },
                }
            },
        }
    }
}

/// The repository has its lock.
pub open spec fn locked(before: Pool, after: Pool, repo_key: Seq<char>, slot: usize) -> bool {
    if before.exclusion@.contains_key(repo_key) {
        slot == before.exclusion@[repo_key] && after.exclusion@ == before.exclusion@
    } else {
        slot == before.exclusion.slots.keys.len() && after.exclusion@ == before.exclusion@.insert(
            repo_key,
            slot,
        )
    }
}

/// Nobody is admitted during a drain, and the pool says that it is draining.
pub proof fn law_a_draining_pool_admits_nobody(
    before: Pool,
    after: Pool,
    issue_key: Seq<char>,
    repo_key: Seq<char>,
    available: u32,
    now: i64,
    r: Result<(usize, Option<Lease>), CaduceusError>,
)
    requires
        before.draining,
        begun(before, after, issue_key, repo_key, available, now, r),
    ensures
        r is Err,
        state_of(before.max_permits, before.draining, available) == PoolState::Draining,
{
}

/// The workers that hold a permit and the free permits make up the pool, and
/// the pool is saturated exactly when none is free.
pub proof fn law_permits_bound_the_workers(max: u32, available: u32)
    requires
        available <= max,
        max > 0,
    ensures
        depth(max, available) + available == max,
        state_of(max, false, available) == PoolState::Saturated <==> available == 0,
        state_of(max, false, available) == PoolState::Idle <==> available == max,
{
}

/// With leases, one worker at a time is admitted per issue key across all
/// pools that share the lease store: while the first lease lasts, a second
/// admission is refused as saturation.
pub proof fn law_one_worker_per_key_across_pools(
    first: Pool,
    second: Pool,
    after_second: Pool,
    issue_key: Seq<char>,
    repo_key: Seq<char>,
    available: u32,
    now: i64,
    later: i64,
    r: Result<(usize, Option<Lease>), CaduceusError>,
)
    requires
        first.lease_store is Some,
        second.lease_store is Some,
        !second.draining,
        ({
            let taken = leases::acquired(
                first.lease_store->0@,
                issue_key,
                first.worker_owner_id@,
                leases::expiry(now, first.worker_lease_seconds) as i64,
                now,
            );
            taken is Ok && second.lease_store->0@ == taken->Ok_0.0
        }),
        later < leases::expiry(now, first.worker_lease_seconds) <= i64::MAX,
        begun(second, after_second, issue_key, repo_key, available, later, r),
    ensures
        r matches Err(e) && e@ == saturated(second.max_permits, available),
{
    leases::law_a_lease_is_exclusive(
        first.lease_store->0@,
        issue_key,
        first.worker_owner_id@,
        leases::expiry(now, first.worker_lease_seconds) as i64,
        now,
        second.worker_owner_id@,
        leases::expiry(later, second.worker_lease_seconds) as i64,
        later,
    );
}

/// What the pool says of itself: draining above all, idle with no worker,
/// saturated with no permit free, and otherwise how many workers it has.
pub proof fn law_the_pool_says_what_it_does(max: u32, available: u32)
    requires
        0 < max,
        available <= max,
    ensures
        state_of(max, true, available) == PoolState::Draining,
        available == max ==> state_of(max, false, available) == PoolState::Idle,
        available == 0 ==> state_of(max, false, available) == PoolState::Saturated,
        0 < available < max ==> state_of(max, false, available) == PoolState::Active(
            (max - available) as u32,
        ),
{
}

/// The states by their words.
pub proof fn law_pool_states_have_their_words(n: u32)
    ensures
        PoolState::Idle.words() == "idle"@,
        PoolState::Active(n).words() == "active("@ + text::dec(n as nat) + ")"@,
        PoolState::Saturated.words() == "saturated"@,
        PoolState::Draining.words() == "draining"@,
{
}

/// A pool that is full answers with how many workers it has and may have.
pub proof fn law_a_full_pool_says_so(max: u32, available: u32)
    requires
        available <= max,
    ensures
        saturated(max, available) == (Fault::PoolSaturated {
            current_depth: (max - available) as u32,
            max_depth: max,
        }),
{
}

/// A pool that is not draining takes the lease of the issue, if it keeps leases,
/// and the lock of the repository: the one that it has, or a new one. Without the
/// lease it answers that it is full.
pub proof fn law_an_admission_takes_lease_and_lock(
    before: Pool,
    after: Pool,
    issue_key: Seq<char>,
    repo_key: Seq<char>,
    available: u32,
    now: i64,
    r: Result<(usize, Option<Lease>), CaduceusError>,
)
    requires
        begun(before, after, issue_key, repo_key, available, now, r),
        !before.draining,
        before.worker_lease_seconds <= 1000000000,
        0 <= now <= 1000000000000,
        available <= before.max_permits,
    ensures
        before.lease_store is None ==> r is Ok && r->Ok_0.1 is None,
        r is Ok && before.exclusion@.contains_key(repo_key) ==> r->Ok_0.0
            == before.exclusion@[repo_key] && after.exclusion@ == before.exclusion@,
        r is Ok && !before.exclusion@.contains_key(repo_key) ==> r->Ok_0.0
            == before.exclusion.slots.keys.len() && after.exclusion@ == before.exclusion@.insert(
            repo_key,
            r->Ok_0.0,
        ),
        r is Ok ==> after.exclusion@.contains_key(repo_key) && after.exclusion@[repo_key]
            == r->Ok_0.0,
        before.lease_store is Some && r is Ok ==> {
            &&& r->Ok_0.1 is Some
            &&& after.lease_store->0@.contains_key(issue_key)
            &&& after.lease_store->0@[issue_key].owner_id == before.worker_owner_id@
            &&& after.lease_store->0@[issue_key].expires_at == now + before.worker_lease_seconds
            &&& after.lease_store->0@[issue_key].state == "held"@
        },
        r matches Err(e) ==> e@ == (Fault::PoolSaturated {
            current_depth: (before.max_permits - available) as u32,
            max_depth: before.max_permits,
        }) && after.exclusion@ == before.exclusion@,
        before.lease_store is Some && before.lease_store->0@.contains_key(issue_key)
            && before.lease_store->0@[issue_key].state == "held"@
            && before.lease_store->0@[issue_key].expires_at > now ==> r is Err,
{
    if before.lease_store is Some {
        leases::law_an_acquisition_is_on_record(
            before.lease_store->0@,
            issue_key,
            before.worker_owner_id@,
            leases::expiry(now, before.worker_lease_seconds) as i64,
            now,
        );
    }
}

/// A drain waits until its timeout while a permit is out; with all permits back, or
/// the timeout over, it waits no more.
pub proof fn law_a_drain_waits_until_its_timeout(max: u32, timeout_seconds: u64, at: DrainMoment)
    ensures
        drain_wait(max, timeout_seconds, at) is Some <==> at.taken < max && at.elapsed_ms
            < timeout_seconds * 1000,
        drain_wait(max, timeout_seconds, at) matches Some(w) ==> at.elapsed_ms + w
            == timeout_seconds * 1000,
{
}

/// A new pool has all of its permits, no lock and no lease, and is not draining; a
/// drain makes it draining for good.
pub proof fn law_a_new_pool_is_open(
    parallelism: u32,
    drain_config: DrainConfig,
    pid: u32,
    started_at: i64,
    r: Pool,
    p: &mut Pool,
    u: (),
)
    ensures
        call_ensures(Pool::new, (parallelism, drain_config, pid, started_at), r) ==> {
            &&& r.max_permits == parallelism
            &&& !r.draining
            &&& r.lease_store is None
            &&& r.worker_owner_id@ == text::dec(pid as nat) + "@"@ + text::dec_int(
                started_at as int,
            )
        },
        call_ensures(Pool::begin_drain, (p,), u) ==> final(p).draining && final(p).max_permits
            == old(p).max_permits,
{
}

/// Who gets a permit is admitted with the lock and the lease that were taken; who
/// gets none is told that the pool is full.
pub proof fn law_a_permit_admits(
    p: &Pool,
    exclusion: usize,
    lease: Option<Lease>,
    permit: bool,
    available: u32,
    r: Result<Admission, CaduceusError>,
)
    requires
        call_ensures(Pool::finish_admit, (p, exclusion, lease, permit, available), r),
    ensures
        r is Ok <==> permit,
        r matches Ok(a) ==> a == (Admission::Admitted { exclusion, lease }),
        r matches Err(e) ==> e@ == saturated(p.max_permits, available),
{
}

/// Leases of workers last ten minutes unless another time is given.
pub proof fn law_worker_leases_last_ten_minutes(
    parallelism: u32,
    drain_config: DrainConfig,
    pid: u32,
    started_at: i64,
    p: Pool,
    store: LeaseStore,
    seconds: u64,
    r: Pool,
)
    requires
        call_ensures(Pool::new, (parallelism, drain_config, pid, started_at), p),
        call_ensures(Pool::with_lease_store, (p, store, seconds), r),
    ensures
        p.worker_lease_seconds == 600,
        r.worker_lease_seconds == seconds,
        r.lease_store == Some(store),
        r.max_permits == parallelism,
{
}

/// Who asks during a drain is told so, with no run to name, and takes neither lease
/// nor lock.
pub proof fn law_a_drain_turns_away(
    p: &mut Pool,
    issue_key: &str,
    repo_key: &str,
    available: u32,
    now: i64,
    r: Result<(usize, Option<Lease>), CaduceusError>,
)
    requires
        call_ensures(Pool::begin_admit, (p, issue_key, repo_key, available, now), r),
        old(p).draining,
    ensures
        r matches Err(e) && e@ == Fault::DrainTimeout(Seq::empty()),
        final(p).lease_store == old(p).lease_store,
        final(p).exclusion@ == old(p).exclusion@,
        final(p).draining,
{
}

} // verus!
