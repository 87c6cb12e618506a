//! The lock that one tick of the daemon holds.

use vstd::prelude::*;

use crate::error::{CaduceusError, Fault};
use crate::path;
use crate::state::queue::DAEMON_LOCK_FILENAME;

verus! {

/// Of what kind the refusal of a lock is.
#[derive(Clone, Copy, Debug, PartialEq, Eq, Structural)]
pub enum LockRefusal {
    /// Another process holds the lock.
    WouldBlock,
    /// How a platform without such locks says the same.
    AlreadyExists,
    /// The system could not lock.
    Other,
}

/// The lock file in a state directory.
pub fn daemon_lock_path(state_dir: &str) -> (r: String)
    ensures
        r@ == path::joined(state_dir@, DAEMON_LOCK_FILENAME@),
{
    path::join(state_dir, DAEMON_LOCK_FILENAME)
}

/// Whether this tick holds the lock: another tick that holds it is no error.
pub fn try_acquire(attempt: Result<(), (LockRefusal, String)>) -> (r: Result<bool, CaduceusError>)
    ensures
        match (attempt, r) {
            (Ok(_), Ok(held)) => held,
            (Err(e), Ok(held)) => !held && e.0 != LockRefusal::Other,
            (Err(e), Err(f)) => e.0 == LockRefusal::Other && f@ == Fault::Io(e.1@),
            (Ok(_), Err(_)) => false,
        },
{
    match attempt {
        Ok(_) => Ok(true),
        Err(e) => match e.0 {
            LockRefusal::WouldBlock => Ok(false),
            LockRefusal::AlreadyExists => Ok(false),
            LockRefusal::Other => Err(CaduceusError::Io(e.1)),
        },
    }
}

/// The daemon's lock is in the state directory. It is held by who could take it; one
/// that is held by another is no error.
pub proof fn law_the_daemon_lock_has_one_holder(
    state_dir: &str,
    attempt: Result<(), (LockRefusal, String)>,
    place: String,
    r: Result<bool, CaduceusError>,
)
    requires
        call_ensures(daemon_lock_path, (state_dir,), place),
        call_ensures(try_acquire, (attempt,), r),
    ensures
        place@ == path::joined(state_dir@, "daemon.lock"@),
        r == Ok::<bool, CaduceusError>(true) <==> attempt is Ok,
        r is Err <==> attempt is Err && attempt->Err_0.0 == LockRefusal::Other,
{
}

} // verus!
