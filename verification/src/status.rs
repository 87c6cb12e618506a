//! The status report.

use vstd::prelude::*;

use crate::error::CaduceusError;
use crate::meta::RateLimitObservation;
use crate::ordered::StringMap;
use crate::time::Timestamp;

verus! {

/// What a status report says.
#[derive(Debug)]
pub struct StatusReport {
    pub version: String,
    pub state_dir: String,
    pub last_tick: Option<String>,
    pub last_outcome: Option<String>,
    /// Number of entries in each phase.
    pub phases: StringMap<u64>,
    pub next_head: Option<String>,
    pub recent_errors: Vec<String>,
    pub rate_limit: Option<RateLimitObservation>,
    pub current_run: Option<CurrentRun>,
}

/// A worker that is running.
#[derive(Debug)]
pub struct CurrentRun {
    pub run_id: String,
    pub issue: String,
    pub started_at: Timestamp,
    pub transcript_path: String,
}

/// The status report of a state directory, in either form.
pub fn report(_state_dir: &str, _json: bool) -> (r: Result<String, CaduceusError>)
    ensures
        r matches Ok(s) && s@ == "status: stub\n"@,
{
    Ok("status: stub\n".to_owned())
}

} // verus!
