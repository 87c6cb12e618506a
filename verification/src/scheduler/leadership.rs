//! Leadership: the holder of the exclusive lock on the scheduler's lock file
//! may change the state.

use vstd::prelude::*;

use crate::error::{CaduceusError, Fault};
use crate::path;

verus! {

/// Name of the lock file.
pub const SCHEDULER_LOCK_FILENAME: &'static str = "scheduler.lock";

/// How taking the lock went; errors carry their texts.
pub enum LockAttempt {
    Locked,
    /// Another process holds the lock.
    WouldBlock,
    OpenFailed(String),
    LockFailed(String),
}

/// The lock file in a state directory.
pub fn lock_path(state_dir: &str) -> (r: String)
    ensures
        r@ == path::joined(state_dir@, SCHEDULER_LOCK_FILENAME@),
{
    path::join(state_dir, SCHEDULER_LOCK_FILENAME)
}

/// Whether leadership was won; an error where the lock could not be asked for.
pub open spec fn leads(attempt: LockAttempt) -> Result<bool, Fault> {
    match attempt {
        LockAttempt::Locked => Ok(true),
        LockAttempt::WouldBlock => Ok(false),
        LockAttempt::OpenFailed(e) => Err(
            Fault::LeadershipContended {
                context: "try_acquire"@,
                stderr: "open lock file: "@ + e@,
            },
        ),
        LockAttempt::LockFailed(e) => Err(
            Fault::LeadershipContended { context: "try_lock_exclusive"@, stderr: e@ },
        ),
    }
}

/// Whether leadership was won.
pub fn try_acquire(attempt: LockAttempt) -> (r: Result<bool, CaduceusError>)
    ensures
        match r {
            Ok(won) => leads(attempt) == Ok::<bool, Fault>(won),
            Err(e) => leads(attempt) == Err::<bool, Fault>(e@),
        },
{
    match attempt {
        LockAttempt::Locked => Ok(true),
        LockAttempt::WouldBlock => Ok(false),
        LockAttempt::OpenFailed(e) => Err(
            CaduceusError::LeadershipContended {
                context: "try_acquire",
                stderr: crate::text::cat("open lock file: ", e.as_str()),
            },
        ),
        LockAttempt::LockFailed(e) => Err(
            CaduceusError::LeadershipContended { context: "try_lock_exclusive", stderr: e },
        ),
    }
}

/// May work under the lock run? It may where leadership was won; where the
/// lock is held elsewhere, that is an error too.
pub fn with_lock(attempt: LockAttempt) -> (r: Result<(), CaduceusError>)
    ensures
        crate::error::verdict(r) == (match leads(attempt) {
            Err(f) => Err(f),
            Ok(true) => Ok(()),
            Ok(false) => Err(
                Fault::LeadershipContended {
                    context: "with_lock"@,
                    stderr: "leadership lock contended"@,
                },
            ),
        }),
{
    match try_acquire(attempt) {
        Err(e) => Err(e),
        Ok(true) => Ok(()),
        Ok(false) => Err(
            CaduceusError::LeadershipContended {
                context: "with_lock",
                stderr: "leadership lock contended".to_owned(),
            },
        ),
    }
}

/// Who has the lock leads; who finds it held does not, and that is no error.
pub proof fn law_the_lock_makes_the_leader(attempt: LockAttempt)
    ensures
        leads(attempt) == Ok::<bool, Fault>(true) <==> attempt is Locked,
        leads(attempt) == Ok::<bool, Fault>(false) <==> attempt is WouldBlock,
        attempt matches LockAttempt::OpenFailed(e) ==> leads(attempt) == Err::<bool, Fault>(
            Fault::LeadershipContended {
                context: "try_acquire"@,
                stderr: "open lock file: "@ + e@,
            },
        ),
        attempt matches LockAttempt::LockFailed(e) ==> leads(attempt) == Err::<bool, Fault>(
            Fault::LeadershipContended { context: "try_lock_exclusive"@, stderr: e@ },
        ),
{
}

/// The lock is in the state directory. Work under the lock is done exactly by who
/// has it.
pub proof fn law_work_is_done_under_the_lock(
    state_dir: &str,
    attempt: LockAttempt,
    place: String,
    r: Result<(), CaduceusError>,
)
    requires
        call_ensures(lock_path, (state_dir,), place),
        call_ensures(with_lock, (attempt,), r),
    ensures
        place@ == path::joined(state_dir@, "scheduler.lock"@),
        r is Ok <==> attempt is Locked,
        attempt is WouldBlock ==> (r matches Err(e) && e@ == Fault::LeadershipContended {
            context: "with_lock"@,
            stderr: "leadership lock contended"@,
        }),
{
}

} // verus!
