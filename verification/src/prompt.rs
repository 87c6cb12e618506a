//! The prompt of a run.

use vstd::prelude::*;

use crate::error::CaduceusError;

verus! {

/// Write the prompt of a run into its worktree. There is nothing to write yet.
pub fn write(_worktree: &str) -> (r: Result<(), CaduceusError>)
    ensures
        r is Ok,
{
    Ok(())
}

} // verus!
