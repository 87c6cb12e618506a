//! Validation of outbound text.

use vstd::prelude::*;

use crate::error::CaduceusError;

verus! {

/// Check a text before it is published. No text is refused.
pub fn public_text(_text: &str) -> (r: Result<(), CaduceusError>)
    ensures
        r is Ok,
{
    Ok(())
}

} // verus!
