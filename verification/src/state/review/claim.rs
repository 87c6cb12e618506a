//! Review claims: the issue queue's claims, for review targets.

use vstd::prelude::*;

use super::queue::ReviewQueueEntry;
use crate::path;
use crate::review::ReviewTarget;
use crate::text;
use crate::time::Timestamp;

verus! {

/// Proof of a review claim.
#[derive(Debug)]
pub struct ReviewClaimToken {
    pub(crate) claims_dir: String,
    pub(crate) digest: String,
    pub(crate) run_id: String,
}

/// A [`ReviewClaimToken`] with its texts as character sequences.
pub struct ReviewTokenView {
    pub claims_dir: Seq<char>,
    pub digest: Seq<char>,
    pub run_id: Seq<char>,
}

impl View for ReviewClaimToken {
    type V = ReviewTokenView;

    closed spec fn view(&self) -> ReviewTokenView {
        ReviewTokenView {
            claims_dir: self.claims_dir@,
            digest: self.digest@,
            run_id: self.run_id@,
        }
    }
}

impl ReviewClaimToken {
    /// Hexadecimal SHA-256 of the canonical review key.
    pub fn digest(&self) -> (r: &str)
        ensures
            r@ == self@.digest,
    {
        self.digest.as_str()
    }

    /// The run that holds the claim.
    pub fn run_id(&self) -> (r: &str)
        ensures
            r@ == self@.run_id,
    {
        self.run_id.as_str()
    }

    /// A token that no claim stands behind.
    pub fn for_test(claims_dir: String, digest: &str, run_id: &str) -> (r: ReviewClaimToken)
        ensures
            r@ == (ReviewTokenView { claims_dir: claims_dir@, digest: digest@, run_id: run_id@ }),
    {
        ReviewClaimToken { claims_dir, digest: digest.to_owned(), run_id: run_id.to_owned() }
    }

    /// The token of a claim.
    pub(crate) fn new(claims_dir: String, digest: String, run_id: String) -> (r: ReviewClaimToken)
        ensures
            r@ == (ReviewTokenView { claims_dir: claims_dir@, digest: digest@, run_id: run_id@ }),
    {
        ReviewClaimToken { claims_dir, digest, run_id }
    }

    /// Path of the claim file.
    pub fn claim_path(&self) -> (r: String)
        ensures
            r@ == path::joined(self@.claims_dir, self@.digest + ".claim"@),
    {
        path::join(self.claims_dir.as_str(), text::cat(self.digest.as_str(), ".claim").as_str())
    }
}

/// A claimed entry and the token that later transitions present.
#[derive(Debug)]
pub struct ClaimedReview {
    pub entry: ReviewQueueEntry,
    pub claim: ReviewClaimToken,
}

/// Body of a review claim file.
#[derive(Debug)]
pub struct ReviewClaimFileBody {
    pub version: u32,
    pub target: ReviewTarget,
    pub run_id: String,
    pub pid: u32,
    pub process_start_identity: String,
    pub started_at: Timestamp,
    pub worktree_path: Option<String>,
}

impl ReviewClaimFileBody {
    /// The format version that this daemon writes.
    pub fn version_value(&self) -> (r: u32)
        ensures
            r == super::REVIEW_CLAIM_FILE_VERSION,
    {
        super::REVIEW_CLAIM_FILE_VERSION
    }

    /// The body of a new claim file.
    pub fn new(
        entry: &ReviewQueueEntry,
        run_id: &str,
        pid: u32,
        process_start_identity: String,
        now: Timestamp,
    ) -> (r: ReviewClaimFileBody)
        ensures
            r.version == super::REVIEW_CLAIM_FILE_VERSION,
            r.target == entry.target,
            r.run_id@ == run_id@,
            r.pid == pid,
            r.process_start_identity == process_start_identity,
            r.started_at == now,
            r.worktree_path is None,
    {
        ReviewClaimFileBody {
            version: super::REVIEW_CLAIM_FILE_VERSION,
            target: entry.target.clone(),
            run_id: run_id.to_owned(),
            pid,
            process_start_identity,
            started_at: now,
            worktree_path: None,
        }
    }
}

} // verus!
