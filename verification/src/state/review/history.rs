//! The review history: one row per completed run, only ever appended to.

use vstd::prelude::*;

use crate::review::{RepositoryId, RepositoryView};
use crate::time::Timestamp;

verus! {

/// One completed run. The run id identifies it; several rows may share a
/// repository, pull request and commit.
#[derive(Debug)]
pub struct ReviewHistoryRow {
    pub review_run_id: String,
    pub repository: RepositoryId,
    pub pull_request: u64,
    pub head_sha: String,
    pub review_generation: u64,
    pub completed_at: Timestamp,
    /// The result document, verbatim.
    pub result_json: String,
}

/// A [`ReviewHistoryRow`] with its texts as character sequences.
pub struct RowView {
    pub review_run_id: Seq<char>,
    pub repository: RepositoryView,
    pub pull_request: u64,
    pub head_sha: Seq<char>,
    pub review_generation: u64,
    pub completed_at: Timestamp,
    pub result_json: Seq<char>,
}

impl View for ReviewHistoryRow {
    type V = RowView;

    open spec fn view(&self) -> RowView {
        RowView {
            review_run_id: self.review_run_id@,
            repository: self.repository@,
            pull_request: self.pull_request,
            head_sha: self.head_sha@,
            review_generation: self.review_generation,
            completed_at: self.completed_at,
            result_json: self.result_json@,
        }
    }
}

impl Clone for ReviewHistoryRow {
    fn clone(&self) -> (r: Self)
        ensures
            r == *self,
    {
        ReviewHistoryRow {
            review_run_id: self.review_run_id.clone(),
            repository: self.repository.clone(),
            pull_request: self.pull_request,
            head_sha: self.head_sha.clone(),
            review_generation: self.review_generation,
            completed_at: self.completed_at,
            result_json: self.result_json.clone(),
        }
    }
}

/// Rows by their views.
pub open spec fn row_views(rows: Seq<ReviewHistoryRow>) -> Seq<RowView> {
    rows.map_values(|r: ReviewHistoryRow| r@)
}

/// The history, oldest row first.
pub struct ReviewHistoryFile {
    pub version: u32,
    pub rows: Vec<ReviewHistoryRow>,
}

impl View for ReviewHistoryFile {
    type V = Seq<RowView>;

    open spec fn view(&self) -> Seq<RowView> {
        row_views(self.rows@)
    }
}

impl ReviewHistoryFile {
    /// A history without rows.
    pub fn empty() -> (r: ReviewHistoryFile)
        ensures
            r.version == super::REVIEW_HISTORY_FILE_VERSION,
            r@ == Seq::<RowView>::empty(),
    {
        let r = ReviewHistoryFile {
            version: super::REVIEW_HISTORY_FILE_VERSION,
            rows: Vec::new(),
        };
        proof {
            assert(r@ =~= Seq::<RowView>::empty());
        }
        r
    }
}

} // verus!
