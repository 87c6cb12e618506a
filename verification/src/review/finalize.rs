//! Publication of finished reviews, safe to resume after a crash.
//!
//! The result of a review is in the history before anything is published, so
//! publication only presents it and can be repeated. One step runs through
//! three functions, with the outside work between them: [`begin_finalize`]
//! picks the result to publish, [`claim_decoded`] claims the publication once
//! the result is decoded, and [`finish_publication`] records how it went.

use vstd::prelude::*;

use super::sticky_comment::StickyOutcome;
use super::{
    PublicationState, RepositoryId, RepositoryView, ResultView, Review, ReviewResult, ReviewState,
    ReviewView, StateView, Verdict, MAX_PUBLISH_ERROR_BYTES,
};
use crate::error::CaduceusError;
use crate::state::review as stores;
use crate::state::review::history::{ReviewHistoryRow, RowView};
use crate::state::review::state::{ReviewStates, ReviewStore, ReviewStoreView};
use crate::text;
use crate::time::Timestamp;
use vstd::arithmetic::power2::pow2;

verus! {

/// Event: publication began, after the claim and before any request.
pub const EVENT_PUBLISH_STARTED: &'static str = "review_publish_started";

/// Event: the comment was published, or found to hold the text already.
pub const EVENT_PUBLISHED: &'static str = "review_published";

/// Event: publication failed and will be tried again.
pub const EVENT_PUBLISH_FAILED_RETRYABLE: &'static str = "review_publish_failed_retryable";

/// Event: a newer generation owns the presentation.
pub const EVENT_SUPPRESSED_STALE_GENERATION: &'static str =
    "review_publication_suppressed_stale_generation";

/// Event: the pull request was closed without a merge.
pub const EVENT_SKIPPED_PR_CLOSED_UNMERGED: &'static str = "review_skipped_pr_closed_unmerged";

/// Reason on record: the pull request is gone.
pub const PUBLISH_ERROR_PR_NOT_FOUND: &'static str = "pr_not_found";

/// Reason on record: the pull request was closed without a merge.
pub const PUBLISH_ERROR_CLOSED_UNMERGED: &'static str = "closed_unmerged";

/// Reason on record: a newer generation owns the presentation.
pub const PUBLISH_ERROR_SUPPRESSED_STALE: &'static str = "suppressed_stale_generation";

/// Reason on record: the result carries no review.
pub const PUBLISH_ERROR_NO_PUBLISHABLE_RESULT: &'static str = "no_publishable_result";

/// A finalization that is due: the run that completed, and the generation to
/// guard against.
#[derive(Debug)]
pub struct DueFinalization {
    pub repository: RepositoryId,
    pub pull_request: u64,
    pub run_generation: u64,
    pub head_sha: String,
}

/// A [`DueFinalization`] with its texts as character sequences.
pub struct DueView {
    pub repository: RepositoryView,
    pub pull_request: u64,
    pub run_generation: u64,
    pub head_sha: Seq<char>,
}

impl View for DueFinalization {
    type V = DueView;

    open spec fn view(&self) -> DueView {
        DueView {
            repository: self.repository@,
            pull_request: self.pull_request,
            run_generation: self.run_generation,
            head_sha: self.head_sha@,
        }
    }
}

/// What one step decided.
#[derive(Clone, Copy, Debug, PartialEq, Eq, Structural)]
pub enum FinalizeOutcome {
    /// Nothing to publish.
    NoState,
    /// Publication was final already.
    AlreadyFinal,
    /// The retry is not due yet.
    SkipRetryNotDue,
    /// The claim, or the record of a failure, lost to a newer admission.
    SkipConcurrent,
    /// A newer generation owns the presentation.
    SuppressedStaleGeneration,
    Published,
    /// The comment held the text already.
    PublishedUnchanged,
    /// The comment was gone: another was adopted or created.
    PublishedRecreated,
    /// The pull request is gone.
    PrGone,
    /// The pull request was closed without a merge.
    SkippedClosedUnmerged,
    /// Publication failed; the next attempt may run at the given time.
    FailedRetryable { next_attempt_at: Timestamp },
}

impl FinalizeOutcome {
    /// The event that reports the outcome.
    pub open spec fn event(self) -> Option<Seq<char>> {
        match self {
            FinalizeOutcome::Published => Some(EVENT_PUBLISHED@),
            FinalizeOutcome::PublishedUnchanged => Some(EVENT_PUBLISHED@),
            FinalizeOutcome::PublishedRecreated => Some(EVENT_PUBLISHED@),
            FinalizeOutcome::SuppressedStaleGeneration => Some(EVENT_SUPPRESSED_STALE_GENERATION@),
            FinalizeOutcome::SkippedClosedUnmerged => Some(EVENT_SKIPPED_PR_CLOSED_UNMERGED@),
            FinalizeOutcome::FailedRetryable { .. } => Some(EVENT_PUBLISH_FAILED_RETRYABLE@),
            _ => None,
        }
    }

    /// The event that reports the outcome; the quiet outcomes have none.
    pub fn event_name(&self) -> (r: Option<&'static str>)
        ensures
            text::opt_str(r) == self.event(),
    {
        match self {
            FinalizeOutcome::Published => Some(EVENT_PUBLISHED),
            FinalizeOutcome::PublishedUnchanged => Some(EVENT_PUBLISHED),
            FinalizeOutcome::PublishedRecreated => Some(EVENT_PUBLISHED),
            FinalizeOutcome::SuppressedStaleGeneration => Some(EVENT_SUPPRESSED_STALE_GENERATION),
            FinalizeOutcome::SkippedClosedUnmerged => Some(EVENT_SKIPPED_PR_CLOSED_UNMERGED),
            FinalizeOutcome::FailedRetryable { .. } => Some(EVENT_PUBLISH_FAILED_RETRYABLE),
            _ => None,
        }
    }
}

// ---------------------------------------------------------------------------
// Backoff
// ---------------------------------------------------------------------------

/// Seconds to wait after attempt `n`: thirty times two to the `n`, at most an
/// hour.
pub open spec fn backoff(n: nat) -> int {
    let k: nat = if n < 12 {
        n
    } else {
        12
    };
    if pow2(k) * 30 < 3600 {
        (pow2(k) * 30) as int
    } else {
        3600
    }
}

/// Seconds to wait after attempt `publication_attempt_count`.
pub fn backoff_delay(publication_attempt_count: u32) -> (r: i64)
    ensures
        r == backoff(publication_attempt_count as nat),
        30 <= r <= 3600,
{
    let shift: u32 = if publication_attempt_count < 12 {
        publication_attempt_count
    } else {
        12
    };
    let mut factor: u64 = 1;
    let mut i: u32 = 0;
    proof {
        vstd::arithmetic::power2::lemma2_to64();
    }
    while i < shift
        invariant
            i <= shift <= 12,
            factor == pow2(i as nat),
            1 <= factor,
            i == 0 ==> factor == 1,
            factor <= 4096,
            pow2(12) == 4096,
        decreases shift - i,
    {
        proof {
            vstd::arithmetic::power2::lemma_pow2_unfold((i + 1) as nat);
            if i + 1 < 12 {
                vstd::arithmetic::power2::lemma_pow2_strictly_increases((i + 1) as nat, 12);
            }
        }
        factor = factor * 2;
        i += 1;
    }
    let secs: u64 = factor * 30;
    if secs < 3600 {
        secs as i64
    } else {
        3600
    }
}

/// Longer waits come with more attempts, from thirty seconds to one hour.
pub proof fn law_backoff_grows_to_an_hour(a: nat, b: nat)
    ensures
        a <= b ==> backoff(a) <= backoff(b),
        30 <= backoff(a) <= 3600,
        a >= 7 ==> backoff(a) == 3600,
{
    vstd::arithmetic::power2::lemma2_to64();
    let ka: nat = if a < 12 {
        a
    } else {
        12
    };
    let kb: nat = if b < 12 {
        b
    } else {
        12
    };
    if ka < kb {
        vstd::arithmetic::power2::lemma_pow2_strictly_increases(ka, kb);
    }
    if 0 < ka {
        vstd::arithmetic::power2::lemma_pow2_strictly_increases(0, ka);
    }
    if 7 < ka {
        vstd::arithmetic::power2::lemma_pow2_strictly_increases(7, ka);
    }
}

/// An error message cut to the size that a review state may hold.
pub fn truncate_error(msg: &str) -> (r: String)
    ensures
        r@ == text::clip(msg@, MAX_PUBLISH_ERROR_BYTES as nat),
{
    text::clipped(msg, MAX_PUBLISH_ERROR_BYTES)
}

// ---------------------------------------------------------------------------
// Transitions of the state
// ---------------------------------------------------------------------------

impl StateView {
    /// Publication is claimed.
    pub open spec fn publishing(self) -> StateView {
        StateView {
            publication_state: PublicationState::Publishing,
            publication_attempt_count: if self.publication_attempt_count == u32::MAX {
                u32::MAX
            } else {
                (self.publication_attempt_count + 1) as u32
            },
            next_publish_at: None,
            ..self
        }
    }

    /// Published as the comment `comment_id`.
    pub open spec fn published(
        self,
        verdict: Verdict,
        row: RowView,
        comment_id: u64,
        now: Timestamp,
    ) -> StateView {
        StateView {
            publication_state: PublicationState::Published,
            sticky_comment_id: Some(comment_id),
            next_publish_at: None,
            last_publish_error: None,
            last_reviewed_head_sha: Some(row.head_sha),
            last_verdict: Some(verdict),
            last_reviewed_at: Some(now),
            last_run_id: Some(row.review_run_id),
            ..self
        }
    }

    /// Final without a publication, for the given reason.
    pub open spec fn closed_without(self, row: RowView, reason: Seq<char>, now: Timestamp) -> StateView {
        StateView {
            publication_state: PublicationState::Published,
            next_publish_at: None,
            last_publish_error: Some(reason),
            last_reviewed_head_sha: Some(row.head_sha),
            last_reviewed_at: Some(now),
            last_run_id: Some(row.review_run_id),
            ..self
        }
    }

    /// Failed, to be tried again.
    pub open spec fn failed_retryable(self, error: Seq<char>, now: Timestamp) -> StateView {
        StateView {
            publication_state: PublicationState::FailedRetryable,
            next_publish_at: Some(now.plus(backoff(self.publication_attempt_count as nat))),
            last_publish_error: Some(text::clip(error, MAX_PUBLISH_ERROR_BYTES as nat)),
            ..self
        }
    }
}

/// The states once `s` is saved; when the save is refused, as they were.
pub open spec fn saved_or_same(m: ReviewStates, s: StateView) -> ReviewStates {
    match stores::state::saved(m, s) {
        Ok(m) => m,
        Err(_) => m,
    }
}

/// The save of `s` is accepted.
pub open spec fn accepts(m: ReviewStates, s: StateView) -> bool {
    stores::state::saved(m, s) is Ok
}

fn save(store: &mut ReviewStore, state: &ReviewState) -> (r: bool)
    requires
        old(store).wf(),
        old(store).states.states.keys.len() < usize::MAX,
    ensures
        final(store).wf(),
        r == accepts(old(store)@.states, state@),
        final(store)@ == (ReviewStoreView {
            states: saved_or_same(old(store)@.states, state@),
            ..old(store)@
        }),
{
    match store.save_review_state(state) {
        Ok(()) => true,
        Err(_) => false,
    }
}

/// Claim the publication of a review. `false` when the save is refused because
/// a newer admission won the race: nothing must be published then.
pub fn claim_for_publication(store: &mut ReviewStore, state: &ReviewState) -> (r: bool)
    requires
        old(store).wf(),
        old(store).states.states.keys.len() < usize::MAX,
    ensures
        final(store).wf(),
        r == accepts(old(store)@.states, state@.publishing()),
        final(store)@ == (ReviewStoreView {
            states: saved_or_same(old(store)@.states, state@.publishing()),
            ..old(store)@
        }),
{
    let claimed = publishing(state);
    save(store, &claimed)
}

fn publishing(state: &ReviewState) -> (r: ReviewState)
    ensures
        r@ == state@.publishing(),
{
    let mut claimed = state.clone();
    claimed.publication_state = PublicationState::Publishing;
    claimed.publication_attempt_count = claimed.publication_attempt_count.saturating_add(1);
    claimed.next_publish_at = None;
    claimed
}

// ---------------------------------------------------------------------------
// First part: pick the result
// ---------------------------------------------------------------------------

/// What is to be done first.
pub enum FinalizeStart {
    Finished(FinalizeOutcome),
    /// Decode the result document of this row.
    Decode { state: ReviewState, row: ReviewHistoryRow },
}

/// A [`FinalizeStart`] by its views.
pub enum StartView {
    Finished(FinalizeOutcome),
    Decode { state: StateView, row: RowView },
}

impl View for FinalizeStart {
    type V = StartView;

    open spec fn view(&self) -> StartView {
        match *self {
            FinalizeStart::Finished(o) => StartView::Finished(o),
            FinalizeStart::Decode { state, row } => StartView::Decode { state: state@, row: row@ },
        }
    }
}

/// The rows of one commit of a pull request.
pub open spec fn rows_for(s: ReviewStoreView, due: DueView) -> Seq<RowView> {
    s.history.filter(
        |x: RowView| stores::state::of_pull_request(x, due.repository, due.pull_request),
    ).filter(|x: RowView| x.head_sha == due.head_sha)
}

/// Publication of `s` waits for a time after `now`.
pub open spec fn waits(s: StateView, now: Timestamp) -> bool {
    s.publication_state == PublicationState::FailedRetryable && (s.next_publish_at matches Some(t)
        && now.lt(t))
}

/// What is to be done first: the guards, and then the latest result of the
/// commit.
pub open spec fn started(s: ReviewStoreView, due: DueView, now: Timestamp) -> StartView {
    let k = stores::state_key(due.repository, due.pull_request);
    if !s.states.contains_key(k) {
        StartView::Finished(FinalizeOutcome::NoState)
    } else {
        let state = s.states[k];
        if due.run_generation > state.review_generation {
            StartView::Finished(FinalizeOutcome::NoState)
        } else if due.run_generation < state.review_generation {
            StartView::Finished(FinalizeOutcome::SuppressedStaleGeneration)
        } else if state.publication_state == PublicationState::Published {
            StartView::Finished(FinalizeOutcome::AlreadyFinal)
        } else if waits(state, now) {
            StartView::Finished(FinalizeOutcome::SkipRetryNotDue)
        } else if rows_for(s, due).len() == 0 {
            StartView::Finished(FinalizeOutcome::NoState)
        } else {
            StartView::Decode { state, row: rows_for(s, due).last() }
        }
    }
}

/// Pick the result to publish for a due finalization. Writes nothing.
pub fn begin_finalize(store: &ReviewStore, due: &DueFinalization, now: Timestamp) -> (r: FinalizeStart)
    requires
        store.wf(),
    ensures
        r@ == started(store@, due@, now),
{
    let state = match store.review_state(&due.repository, due.pull_request) {
        Some(s) => s,
        None => {
            return FinalizeStart::Finished(FinalizeOutcome::NoState);
        },
    };
    if due.run_generation > state.review_generation {
        return FinalizeStart::Finished(FinalizeOutcome::NoState);
    }
    if due.run_generation < state.review_generation {
        return FinalizeStart::Finished(FinalizeOutcome::SuppressedStaleGeneration);
    }
    match state.publication_state {
        PublicationState::Published => {
            return FinalizeStart::Finished(FinalizeOutcome::AlreadyFinal);
        },
        PublicationState::FailedRetryable => match state.next_publish_at {
            Some(t) => {
                if now.is_before(&t) {
                    return FinalizeStart::Finished(FinalizeOutcome::SkipRetryNotDue);
                }
            },
            None => {},
        },
        _ => {},
    }
    let mut rows = store.history_for_head_sha(
        &due.repository,
        due.pull_request,
        due.head_sha.as_str(),
    );
    let ghost found = stores::history::row_views(rows@);
    proof {
        assert(found == rows_for(store@, due@));
        assert(found.len() == rows.len());
    }
    match rows.pop() {
        None => FinalizeStart::Finished(FinalizeOutcome::NoState),
        Some(row) => {
            proof {
                assert(row@ == found.last());
            }
            FinalizeStart::Decode { state, row }
        },
    }
}

// ---------------------------------------------------------------------------
// Second part: claim
// ---------------------------------------------------------------------------

/// What is to be done once the result is decoded.
pub enum ClaimStep {
    Finished(FinalizeOutcome),
    /// Publish this review; the state is claimed.
    Publish { state: ReviewState, review: Review },
}

/// A [`ClaimStep`] by its views.
pub enum ClaimView {
    Finished(FinalizeOutcome),
    Publish { state: StateView, review: ReviewView },
}

impl View for ClaimStep {
    type V = ClaimView;

    open spec fn view(&self) -> ClaimView {
        match *self {
            ClaimStep::Finished(o) => ClaimView::Finished(o),
            ClaimStep::Publish { state, review } => ClaimView::Publish {
                state: state@,
                review: review@,
            },
        }
    }
}

/// What is done with the decoded result, and the states after it.
pub open spec fn claimed(
    m: ReviewStates,
    state: StateView,
    row: RowView,
    result: ResultView,
    now: Timestamp,
) -> (ClaimView, ReviewStates) {
    match result.review {
        None => (
            ClaimView::Finished(FinalizeOutcome::NoState),
            saved_or_same(
                m,
                state.closed_without(row, PUBLISH_ERROR_NO_PUBLISHABLE_RESULT@, now),
            ),
        ),
        Some(review) => if accepts(m, state.publishing()) {
            (
                ClaimView::Publish { state: state.publishing(), review },
                saved_or_same(m, state.publishing()),
            )
        } else {
            (ClaimView::Finished(FinalizeOutcome::SkipConcurrent), m)
        },
    }
}

/// Claim the publication of the decoded result. A result without a review is
/// final without a publication. `decoded` is the row's document as a review
/// result, or the decoder's message.
pub fn claim_decoded(
    store: &mut ReviewStore,
    state: ReviewState,
    row: &ReviewHistoryRow,
    decoded: Result<ReviewResult, String>,
    now: Timestamp,
) -> (r: Result<ClaimStep, CaduceusError>)
    requires
        old(store).wf(),
        old(store).states.states.keys.len() < usize::MAX,
    ensures
        final(store).wf(),
        match super::accepted(decoded) {
            Err(f) => (r matches Err(e) && e@ == f) && final(store)@ == old(store)@,
            Ok(result) => {
                &&& r matches Ok(step) && step@ == claimed(
                    old(store)@.states,
                    state@,
                    row@,
                    result,
                    now,
                ).0
                &&& final(store)@ == (ReviewStoreView {
                    states: claimed(old(store)@.states, state@, row@, result, now).1,
                    ..old(store)@
                })
            },
        },
{
    let result = match super::parse_review_result(decoded) {
        Ok(r) => r,
        Err(e) => return Err(e),
    };
    match result.review {
        None => {
            finalize_without_publication(
                store,
                state,
                row,
                PUBLISH_ERROR_NO_PUBLISHABLE_RESULT,
                now,
            );
            Ok(ClaimStep::Finished(FinalizeOutcome::NoState))
        },
        Some(review) => {
            if claim_for_publication(store, &state) {
                Ok(ClaimStep::Publish { state: publishing(&state), review })
            } else {
                Ok(ClaimStep::Finished(FinalizeOutcome::SkipConcurrent))
            }
        },
    }
}

// ---------------------------------------------------------------------------
// Third part: record how it went
// ---------------------------------------------------------------------------

/// The outcome of a publication whose record is accepted or not: a record that
/// loses to a newer admission leaves the presentation to it.
pub open spec fn published_outcome(ok: bool, outcome: FinalizeOutcome) -> FinalizeOutcome {
    if ok {
        outcome
    } else {
        FinalizeOutcome::SuppressedStaleGeneration
    }
}

/// The outcome and the states after publishing went as `sticky` says; an error
/// carries its text.
pub open spec fn finished(
    m: ReviewStates,
    state: StateView,
    verdict: Verdict,
    row: RowView,
    sticky: Result<StickyOutcome, Seq<char>>,
    now: Timestamp,
) -> (FinalizeOutcome, ReviewStates) {
    match sticky {
        Err(error) => {
            let s = state.failed_retryable(error, now);
            (
                if accepts(m, s) {
                    FinalizeOutcome::FailedRetryable { next_attempt_at: s.next_publish_at->0 }
                } else {
                    FinalizeOutcome::SkipConcurrent
                },
                saved_or_same(m, s),
            )
        },
        Ok(StickyOutcome::Published { comment_id }) => {
            let s = state.published(verdict, row, comment_id, now);
            (published_outcome(accepts(m, s), FinalizeOutcome::Published), saved_or_same(m, s))
        },
        Ok(StickyOutcome::Unchanged { comment_id }) => {
            let s = state.published(verdict, row, comment_id, now);
            (
                published_outcome(accepts(m, s), FinalizeOutcome::PublishedUnchanged),
                saved_or_same(m, s),
            )
        },
        Ok(StickyOutcome::CommentGoneRecreated { new_comment_id }) => {
            let s = state.published(verdict, row, new_comment_id, now);
            (
                published_outcome(accepts(m, s), FinalizeOutcome::PublishedRecreated),
                saved_or_same(m, s),
            )
        },
        Ok(StickyOutcome::PrNotFound) => (
            FinalizeOutcome::PrGone,
            saved_or_same(m, state.closed_without(row, PUBLISH_ERROR_PR_NOT_FOUND@, now)),
        ),
        Ok(StickyOutcome::PrClosedUnmerged) => (
            FinalizeOutcome::SkippedClosedUnmerged,
            saved_or_same(m, state.closed_without(row, PUBLISH_ERROR_CLOSED_UNMERGED@, now)),
        ),
        Ok(_) => (
            FinalizeOutcome::SuppressedStaleGeneration,
            saved_or_same(m, state.closed_without(row, PUBLISH_ERROR_SUPPRESSED_STALE@, now)),
        ),
    }
}

/// A publication result by its views.
pub open spec fn sticky_seen(r: Result<StickyOutcome, String>) -> Result<StickyOutcome, Seq<char>> {
    match r {
        Ok(o) => Ok(o),
        Err(e) => Err(e@),
    }
}

/// Record how the publication of a claimed review went. `sticky` is an error,
/// with its text, when asking for the pull request or publishing failed.
pub fn finish_publication(
    store: &mut ReviewStore,
    state: ReviewState,
    verdict: Verdict,
    row: &ReviewHistoryRow,
    sticky: Result<StickyOutcome, String>,
    now: Timestamp,
) -> (r: FinalizeOutcome)
    requires
        old(store).wf(),
        old(store).states.states.keys.len() < usize::MAX,
        now.secs <= i64::MAX - 3600,
    ensures
        final(store).wf(),
        r == finished(old(store)@.states, state@, verdict, row@, sticky_seen(sticky), now).0,
        final(store)@ == (ReviewStoreView {
            states: finished(
                old(store)@.states,
                state@,
                verdict,
                row@,
                sticky_seen(sticky),
                now,
            ).1,
            ..old(store)@
        }),
{
    match sticky {
        Err(error) => save_retryable(store, state, error.as_str(), now),
        Ok(StickyOutcome::Published { comment_id }) => {
            if finalize_published(store, state, verdict, row, comment_id, now) {
                FinalizeOutcome::Published
            } else {
                FinalizeOutcome::SuppressedStaleGeneration
            }
        },
        Ok(StickyOutcome::Unchanged { comment_id }) => {
            if finalize_published(store, state, verdict, row, comment_id, now) {
                FinalizeOutcome::PublishedUnchanged
            } else {
                FinalizeOutcome::SuppressedStaleGeneration
            }
        },
        Ok(StickyOutcome::CommentGoneRecreated { new_comment_id }) => {
            if finalize_published(store, state, verdict, row, new_comment_id, now) {
                FinalizeOutcome::PublishedRecreated
            } else {
                FinalizeOutcome::SuppressedStaleGeneration
            }
        },
        Ok(StickyOutcome::PrNotFound) => {
            finalize_without_publication(store, state, row, PUBLISH_ERROR_PR_NOT_FOUND, now);
            FinalizeOutcome::PrGone
        },
        Ok(StickyOutcome::PrClosedUnmerged) => {
            finalize_without_publication(store, state, row, PUBLISH_ERROR_CLOSED_UNMERGED, now);
            FinalizeOutcome::SkippedClosedUnmerged
        },
        Ok(_) => {
            finalize_without_publication(store, state, row, PUBLISH_ERROR_SUPPRESSED_STALE, now);
            FinalizeOutcome::SuppressedStaleGeneration
        },
    }
}

fn finalize_published(
    store: &mut ReviewStore,
    state: ReviewState,
    verdict: Verdict,
    row: &ReviewHistoryRow,
    comment_id: u64,
    now: Timestamp,
) -> (r: bool)
    requires
        old(store).wf(),
        old(store).states.states.keys.len() < usize::MAX,
    ensures
        final(store).wf(),
        r == accepts(old(store)@.states, state@.published(verdict, row@, comment_id, now)),
        final(store)@ == (ReviewStoreView {
            states: saved_or_same(
                old(store)@.states,
                state@.published(verdict, row@, comment_id, now),
            ),
            ..old(store)@
        }),
{
    let mut s = state;
    s.publication_state = PublicationState::Published;
    s.sticky_comment_id = Some(comment_id);
    s.next_publish_at = None;
    s.last_publish_error = None;
    s.last_reviewed_head_sha = Some(row.head_sha.clone());
    s.last_verdict = Some(verdict);
    s.last_reviewed_at = Some(now);
    s.last_run_id = Some(row.review_run_id.clone());
    save(store, &s)
}

fn finalize_without_publication(
    store: &mut ReviewStore,
    state: ReviewState,
    row: &ReviewHistoryRow,
    sentinel: &str,
    now: Timestamp,
)
    requires
        old(store).wf(),
        old(store).states.states.keys.len() < usize::MAX,
    ensures
        final(store).wf(),
        final(store)@ == (ReviewStoreView {
            states: saved_or_same(
                old(store)@.states,
                state@.closed_without(row@, sentinel@, now),
            ),
            ..old(store)@
        }),
{
    let mut s = state;
    s.publication_state = PublicationState::Published;
    s.next_publish_at = None;
    s.last_publish_error = Some(sentinel.to_owned());
    s.last_reviewed_head_sha = Some(row.head_sha.clone());
    s.last_reviewed_at = Some(now);
    s.last_run_id = Some(row.review_run_id.clone());
    let _ = save(store, &s);
}

fn save_retryable(store: &mut ReviewStore, state: ReviewState, error: &str, now: Timestamp) -> (r:
    FinalizeOutcome)
    requires
        old(store).wf(),
        old(store).states.states.keys.len() < usize::MAX,
        now.secs <= i64::MAX - 3600,
    ensures
        final(store).wf(),
        ({
            let s = state@.failed_retryable(error@, now);
            &&& r == if accepts(old(store)@.states, s) {
                FinalizeOutcome::FailedRetryable { next_attempt_at: s.next_publish_at->0 }
            } else {
                FinalizeOutcome::SkipConcurrent
            }
            &&& final(store)@ == (ReviewStoreView {
                states: saved_or_same(old(store)@.states, s),
                ..old(store)@
            })
        }),
{
    let next_attempt_at = now.plus_seconds(backoff_delay(state.publication_attempt_count));
    let mut s = state;
    s.publication_state = PublicationState::FailedRetryable;
    s.next_publish_at = Some(next_attempt_at);
    s.last_publish_error = Some(truncate_error(error));
    if save(store, &s) {
        FinalizeOutcome::FailedRetryable { next_attempt_at }
    } else {
        FinalizeOutcome::SkipConcurrent
    }
}

// ---------------------------------------------------------------------------
// Laws
// ---------------------------------------------------------------------------

/// A run whose generation is not the current one never reaches publication,
/// and nothing is written.
pub proof fn law_only_the_current_generation_publishes(s: ReviewStoreView, due: DueView, now: Timestamp)
    ensures
        started(s, due, now) is Decode ==> {
            let k = stores::state_key(due.repository, due.pull_request);
            s.states.contains_key(k) && s.states[k].review_generation == due.run_generation
        },
{
}

proof fn lemma_filtered(s: Seq<RowView>, p: spec_fn(RowView) -> bool, x: RowView)
    requires
        s.filter(p).contains(x),
    ensures
        s.contains(x) && p(x),
    decreases s.len(),
{
    reveal(Seq::filter);
    let rest = s.drop_last();
    if p(s.last()) && x == s.last() {
        assert(s[s.len() - 1] == x);
    } else {
        let i = choose|i: int| 0 <= i < s.filter(p).len() && s.filter(p)[i] == x;
        assert(rest.filter(p)[i] == x);
        lemma_filtered(rest, p, x);
        let j = choose|j: int| 0 <= j < rest.len() && rest[j] == x;
        assert(s[j] == x);
    }
}

/// Only a result that is in the history, for that very commit, is published.
pub proof fn law_only_durable_results_are_published(s: ReviewStoreView, due: DueView, now: Timestamp)
    ensures
        started(s, due, now) matches StartView::Decode { state, row } ==> s.history.contains(row)
            && row.head_sha == due.head_sha && row.pull_request == due.pull_request,
{
    match started(s, due, now) {
        StartView::Decode { state, row } => {
            let p = |x: RowView|
                stores::state::of_pull_request(x, due.repository, due.pull_request);
            let q = |x: RowView| x.head_sha == due.head_sha;
            let inner = s.history.filter(p);
            let rows = inner.filter(q);
            assert(rows == rows_for(s, due));
            assert(rows.contains(row)) by {
                assert(rows[rows.len() - 1] == row);
            }
            lemma_filtered(inner, q, row);
            lemma_filtered(s.history, p, row);
        },
        _ => {},
    }
}

/// What a step writes never lowers the generation of any pull request, and
/// touches no other pull request.
pub proof fn law_a_step_writes_one_state(
    m: ReviewStates,
    state: StateView,
    verdict: Verdict,
    row: RowView,
    sticky: Result<StickyOutcome, Seq<char>>,
    now: Timestamp,
    k: Seq<char>,
)
    requires
        m.contains_key(k),
    ensures
        ({
            let after = finished(m, state, verdict, row, sticky, now).1;
            &&& after.contains_key(k)
            &&& after[k].review_generation >= m[k].review_generation
            &&& k != stores::state_key(state.repository, state.pull_request) ==> after[k] == m[k]
        }),
{
}

/// A step that outlives its generation changes nothing: the newer admission
/// owns the state.
pub proof fn law_a_newer_admission_wins(
    m: ReviewStates,
    state: StateView,
    verdict: Verdict,
    row: RowView,
    sticky: Result<StickyOutcome, Seq<char>>,
    now: Timestamp,
)
    requires
        ({
            let k = stores::state_key(state.repository, state.pull_request);
            m.contains_key(k) && state.review_generation < m[k].review_generation
        }),
    ensures
        finished(m, state, verdict, row, sticky, now).1 == m,
        !accepts(m, state.publishing()),
{
}

/// A failed publication is tried again, and not before its time: until then
/// the step is skipped, and from then on it is not.
pub proof fn law_a_failed_publication_is_retried_when_due(
    s: ReviewStoreView,
    due: DueView,
    state: StateView,
    error: Seq<char>,
    now: Timestamp,
    later: Timestamp,
)
    requires
        ({
            let k = stores::state_key(due.repository, due.pull_request);
            s.states.contains_key(k) && s.states[k] == state.failed_retryable(error, now)
        }),
        state.review_generation == due.run_generation,
        rows_for(s, due).len() > 0,
    ensures
        later.lt(now.plus(backoff(state.publication_attempt_count as nat))) ==> started(
            s,
            due,
            later,
        ) == StartView::Finished(FinalizeOutcome::SkipRetryNotDue),
        !later.lt(now.plus(backoff(state.publication_attempt_count as nat))) ==> started(
            s,
            due,
            later,
        ) is Decode,
{
}

/// A claim that crashed is picked up again: a publishing state is never final
/// and never waits.
pub proof fn law_a_crashed_claim_is_resumed(s: ReviewStoreView, due: DueView, now: Timestamp)
    requires
        ({
            let k = stores::state_key(due.repository, due.pull_request);
            &&& s.states.contains_key(k)
            &&& s.states[k].publication_state == PublicationState::Publishing
            &&& s.states[k].review_generation == due.run_generation
        }),
        rows_for(s, due).len() > 0,
    ensures
        started(s, due, now) is Decode,
{
}

/// Once final, always final: until the next admission every step ends at once.
pub proof fn law_a_final_publication_stays(s: ReviewStoreView, due: DueView, now: Timestamp)
    requires
        ({
            let k = stores::state_key(due.repository, due.pull_request);
            &&& s.states.contains_key(k)
            &&& s.states[k].publication_state == PublicationState::Published
            &&& s.states[k].review_generation == due.run_generation
        }),
    ensures
        started(s, due, now) == StartView::Finished(FinalizeOutcome::AlreadyFinal),
{
}

/// A new admission re-arms publication: the next generation's result is
/// published though the last one was final.
pub proof fn law_an_admission_rearms_publication(
    s: ReviewStoreView,
    target: super::TargetView,
    admitted: Timestamp,
    due: DueView,
    now: Timestamp,
)
    requires
        due.repository == target.repository,
        due.pull_request == target.pull_request,
        due.run_generation == stores::state::admitted_state(s.states, target).review_generation,
        rows_for(s, due).len() > 0,
    ensures
        started(s.with_admitted(target, admitted), due, now) is Decode,
{
}

} // verus!
