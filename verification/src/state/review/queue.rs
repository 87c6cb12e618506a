//! The review queue: entries keyed by what is to be reviewed.

use vstd::prelude::*;

use crate::ordered::StringMap;
use crate::review::{ReviewTarget, TargetView};
use crate::text;
use crate::time::Timestamp;

verus! {

/// Where one review target stands.
#[derive(Clone, Copy, Debug, PartialEq, Eq, Structural)]
pub enum ReviewPhase {
    Queued,
    InProgress,
    Done,
    Failed,
    Skipped,
    NeedsAttention,
}

impl ReviewPhase {
    /// The stable label of the phase.
    pub open spec fn label(self) -> Seq<char> {
        match self {
            ReviewPhase::Queued => "queued"@,
            ReviewPhase::InProgress => "in_progress"@,
            ReviewPhase::Done => "done"@,
            ReviewPhase::Failed => "failed"@,
            ReviewPhase::Skipped => "skipped"@,
            ReviewPhase::NeedsAttention => "needs_attention"@,
        }
    }

    /// In flight.
    pub open spec fn active(self) -> bool {
        self == ReviewPhase::Queued || self == ReviewPhase::InProgress
    }

    /// The stable label of the phase.
    pub fn as_str(&self) -> (r: &'static str)
        ensures
            r@ == self.label(),
    {
        match self {
            ReviewPhase::Queued => "queued",
            ReviewPhase::InProgress => "in_progress",
            ReviewPhase::Done => "done",
            ReviewPhase::Failed => "failed",
            ReviewPhase::Skipped => "skipped",
            ReviewPhase::NeedsAttention => "needs_attention",
        }
    }

    /// The phase that a label names.
    pub fn from_label(label: &str) -> (r: Option<ReviewPhase>)
        ensures
            match r {
                Some(p) => p.label() == label@,
                None => forall|p: ReviewPhase| p.label() != label@,
            },
    {
        if text::same(label, "queued") {
            Some(ReviewPhase::Queued)
        } else if text::same(label, "in_progress") {
            Some(ReviewPhase::InProgress)
        } else if text::same(label, "done") {
            Some(ReviewPhase::Done)
        } else if text::same(label, "failed") {
            Some(ReviewPhase::Failed)
        } else if text::same(label, "skipped") {
            Some(ReviewPhase::Skipped)
        } else if text::same(label, "needs_attention") {
            Some(ReviewPhase::NeedsAttention)
        } else {
            None
        }
    }

    /// Is the entry in flight?
    pub fn is_active(&self) -> (r: bool)
        ensures
            r == self.active(),
    {
        match self {
            ReviewPhase::Queued => true,
            ReviewPhase::InProgress => true,
            _ => false,
        }
    }
}

/// Two phases never share a label: a label reads back as its phase.
pub proof fn law_phase_labels_differ(a: ReviewPhase, b: ReviewPhase)
    ensures
        a.label() == b.label() ==> a == b,
{
    reveal_strlit("queued");
    reveal_strlit("in_progress");
    reveal_strlit("done");
    reveal_strlit("failed");
    reveal_strlit("skipped");
    reveal_strlit("needs_attention");
    assert("queued"@.len() == 6 && "queued"@[0] == 'q');
    assert("in_progress"@.len() == 11);
    assert("done"@.len() == 4);
    assert("failed"@.len() == 6 && "failed"@[0] == 'f');
    assert("skipped"@.len() == 7);
    assert("needs_attention"@.len() == 15);
}

/// One entry of the review queue.
#[derive(Debug)]
pub struct ReviewQueueEntry {
    pub target: ReviewTarget,
    pub phase: ReviewPhase,
    pub attempts: u32,
    pub last_error: Option<String>,
    pub last_run_id: Option<String>,
    pub next_attempt_at: Option<Timestamp>,
    pub queued_at: Timestamp,
    pub updated_at: Timestamp,
    /// The generation assigned at admission.
    pub review_generation: u64,
}

/// A [`ReviewQueueEntry`] with its texts as character sequences.
pub struct ReviewEntryView {
    pub target: TargetView,
    pub phase: ReviewPhase,
    pub attempts: u32,
    pub last_error: Option<Seq<char>>,
    pub last_run_id: Option<Seq<char>>,
    pub next_attempt_at: Option<Timestamp>,
    pub queued_at: Timestamp,
    pub updated_at: Timestamp,
    pub review_generation: u64,
}

impl View for ReviewQueueEntry {
    type V = ReviewEntryView;

    open spec fn view(&self) -> ReviewEntryView {
        ReviewEntryView {
            target: self.target@,
            phase: self.phase,
            attempts: self.attempts,
            last_error: text::opt(self.last_error),
            last_run_id: text::opt(self.last_run_id),
            next_attempt_at: self.next_attempt_at,
            queued_at: self.queued_at,
            updated_at: self.updated_at,
            review_generation: self.review_generation,
        }
    }
}

impl Clone for ReviewQueueEntry {
    fn clone(&self) -> (r: Self)
        ensures
            r == *self,
    {
        ReviewQueueEntry {
            target: self.target.clone(),
            phase: self.phase,
            attempts: self.attempts,
            last_error: self.last_error.clone(),
            last_run_id: self.last_run_id.clone(),
            next_attempt_at: self.next_attempt_at,
            queued_at: self.queued_at,
            updated_at: self.updated_at,
            review_generation: self.review_generation,
        }
    }
}

/// The review queue, by canonical key.
pub type ReviewQueueMap = Map<Seq<char>, ReviewEntryView>;

/// The validated review queue.
pub struct ReviewQueueState {
    pub version: u32,
    pub entries: StringMap<ReviewQueueEntry>,
}

impl View for ReviewQueueState {
    type V = ReviewQueueMap;

    open spec fn view(&self) -> ReviewQueueMap {
        self.entries@
    }
}

impl ReviewQueueState {
    /// A queue without entries.
    pub fn empty() -> (r: ReviewQueueState)
        ensures
            r.version == super::REVIEW_QUEUE_FILE_VERSION,
            r.entries.wf(),
            r@ == ReviewQueueMap::empty(),
    {
        ReviewQueueState {
            version: super::REVIEW_QUEUE_FILE_VERSION,
            entries: StringMap::new(),
        }
    }
}

/// What an admission did.
#[derive(Clone, Copy, Debug, PartialEq, Eq, Structural)]
pub enum ReviewEnqueueOutcome {
    Inserted,
    AlreadyPresent,
}

} // verus!
