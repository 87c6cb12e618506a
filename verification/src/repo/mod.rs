//! Repositories that the daemon owns: bare mirrors, and worktrees that are
//! made for one run and thrown away.

use vstd::prelude::*;

use crate::error::{CaduceusError, Fault};
use crate::text;

pub mod fork_quarantine;
pub mod mirror;
pub mod review_integrity;
pub mod review_worktree;
pub mod storage;
pub mod worktree;

verus! {

/// How a git command ended.
#[derive(Debug)]
pub struct GitOutput {
    /// Its exit status, if it had one.
    pub status: Option<i32>,
    pub stdout: String,
    pub stderr: String,
    pub cancelled: bool,
    pub timed_out: bool,
}

/// Why a git command did not do its work, by its status alone.
pub open spec fn status_fault(operation: Seq<char>, out: GitOutput) -> Option<Fault> {
    if out.status == Some(0i32) {
        None
    } else {
        Some(Fault::Git { operation, stderr: out.stderr@ })
    }
}

/// Did the command end with status zero?
pub fn exited_zero(out: &GitOutput) -> (r: bool)
    ensures
        r == (out.status == Some(0i32)),
{
    match out.status {
        Some(n) => n == 0,
        None => false,
    }
}

/// Check a git command by its status alone.
pub fn check_status(operation: &'static str, out: &GitOutput) -> (r: Result<(), CaduceusError>)
    ensures
        crate::error::verdict(r) == crate::review::unless(status_fault(operation@, *out)),
{
    if exited_zero(out) {
        Ok(())
    } else {
        Err(CaduceusError::Git { operation, stderr: out.stderr.clone() })
    }
}

/// The command did not end with status zero in its time.
pub open spec fn broke(out: GitOutput) -> bool {
    out.timed_out || out.status != Some(0i32)
}

/// Did the command fail to end with status zero in its time?
pub fn has_broken(out: &GitOutput) -> (r: bool)
    ensures
        r == broke(*out),
{
    out.timed_out || !exited_zero(out)
}

/// Why a git command did not do its work: it was cancelled, or it broke.
pub open spec fn run_fault(operation: Seq<char>, out: GitOutput) -> Option<Fault> {
    if out.cancelled {
        Some(Fault::Cancelled)
    } else if broke(out) {
        Some(Fault::Git { operation, stderr: out.stderr@ })
    } else {
        None
    }
}

/// Check a git command.
pub fn check_run(operation: &'static str, out: &GitOutput) -> (r: Result<(), CaduceusError>)
    ensures
        crate::error::verdict(r) == crate::review::unless(run_fault(operation@, *out)),
{
    if out.cancelled {
        Err(CaduceusError::Cancelled)
    } else if has_broken(out) {
        Err(CaduceusError::Git { operation, stderr: out.stderr.clone() })
    } else {
        Ok(())
    }
}

/// Borrowed texts by their views.
pub open spec fn str_views(v: Seq<&str>) -> Seq<Seq<char>> {
    v.map_values(|s: &str| s@)
}

/// The arguments of a command.
pub fn arguments(parts: &Vec<&str>) -> (r: Vec<String>)
    ensures
        text::texts(r@) == str_views(parts@),
{
    let mut out: Vec<String> = Vec::new();
    let mut i: usize = 0;
    while i < parts.len()
        invariant
            i <= parts.len(),
            out.len() == i,
            forall|j: int| 0 <= j < i ==> (#[trigger] out@[j])@ == parts@[j]@,
        decreases parts.len() - i,
    {
        out.push(parts[i].to_owned());
        i += 1;
    }
    proof {
        assert(text::texts(out@) =~= str_views(parts@));
    }
    out
}

/// A command is a success exactly when it ended with status zero; a run is one
/// when, beyond that, it was neither cancelled nor timed out. A cancelled run is
/// told as such, whatever else happened.
pub proof fn law_success_is_status_zero(operation: Seq<char>, out: GitOutput)
    ensures
        status_fault(operation, out) is None <==> out.status == Some(0i32),
        status_fault(operation, out) matches Some(f) ==> f == (Fault::Git {
            operation,
            stderr: out.stderr@,
        }),
        run_fault(operation, out) is None <==> !out.cancelled && !out.timed_out && out.status
            == Some(0i32),
        out.cancelled ==> run_fault(operation, out) == Some(Fault::Cancelled),
        !out.cancelled && (out.timed_out || out.status != Some(0i32)) ==> run_fault(operation, out)
            == Some(Fault::Git { operation, stderr: out.stderr@ }),
{
}

} // verus!
