//! What holds of the review stores across operations.

use vstd::prelude::*;

use super::claim::{ClaimedReview, ReviewClaimToken, ReviewTokenView};
use super::history::{ReviewHistoryRow, RowView};
use super::queue::{
    ReviewEnqueueOutcome, ReviewEntryView, ReviewPhase, ReviewQueueEntry, ReviewQueueMap,
};
use super::state;
use super::state::{
    ReviewQueueFile, ReviewStateFile, ReviewStates, ReviewStore, ReviewStoreView,
};
use crate::digest;
use crate::error::{CaduceusError, Fault};
use crate::json::JsonView;
use crate::ordered;
use crate::review::{
    PublicationState, RepositoryId, RepositoryView, ReviewResult, ReviewState, ReviewTarget,
    StateView, TargetView, Verdict,
};
use crate::text;
use crate::time::Timestamp;

verus! {

/// An admission gives the queue entry and the state of the pull request the
/// same generation, one above the last.
pub proof fn law_queue_and_state_share_the_generation(
    s: ReviewStoreView,
    t: TargetView,
    now: Timestamp,
)
    requires
        ({
            let k = super::state_key(t.repository, t.pull_request);
            s.states.contains_key(k) ==> s.states[k].review_generation < u64::MAX
        }),
    ensures
        ({
            let k = super::state_key(t.repository, t.pull_request);
            let after = s.with_admitted(t, now);
            &&& after.queue[super::queue_key(t)].review_generation
                == after.states[k].review_generation
            &&& s.states.contains_key(k) ==> after.states[k].review_generation
                == s.states[k].review_generation + 1
            &&& !s.states.contains_key(k) ==> after.states[k].review_generation == 1
        }),
{
}

/// What was admitted is in flight, so the same commit is not admitted twice.
pub proof fn law_an_admitted_target_is_in_flight(s: ReviewStoreView, t: TargetView, now: Timestamp)
    ensures
        s.with_admitted(t, now).in_flight(t),
        state::already_seen(s.with_admitted(t, now), t),
{
}

/// An admission leaves every other queue entry, every other pull request and
/// the history alone.
pub proof fn law_an_admission_touches_one_pull_request(
    s: ReviewStoreView,
    t: TargetView,
    now: Timestamp,
    j: Seq<char>,
)
    ensures
        ({
            let after = s.with_admitted(t, now);
            &&& j != super::queue_key(t) ==> after.queue.contains_key(j) == s.queue.contains_key(j)
                && (s.queue.contains_key(j) ==> after.queue[j] == s.queue[j])
            &&& j != super::state_key(t.repository, t.pull_request) ==> after.states.contains_key(j)
                == s.states.contains_key(j) && (s.states.contains_key(j) ==> after.states[j]
                == s.states[j])
            &&& after.history == s.history
        }),
{
}

/// A claimed review cannot be claimed again.
pub proof fn law_a_review_claim_is_exclusive(
    m: ReviewQueueMap,
    k: Seq<char>,
    run_id: Seq<char>,
    now: Timestamp,
    later: Timestamp,
    taken: Seq<Seq<char>>,
)
    requires
        m.contains_key(k),
    ensures
        !state::claimable(m.insert(k, m[k].claimed(run_id, now)), later, taken, k),
        state::next_key(m.insert(k, m[k].claimed(run_id, now)), later, taken) != Some(k),
{
    let after = m.insert(k, m[k].claimed(run_id, now));
    if state::next_key(after, later, taken) == Some(k) {
        let c = choose|c: Seq<char>| state::is_next(after, later, taken, c);
        assert(state::is_next(after, later, taken, c));
    }
}

/// The token that a claim issues is accepted, where no two keys share a digest.
pub proof fn law_an_issued_review_token_is_accepted(
    m: ReviewQueueMap,
    k: Seq<char>,
    run_id: Seq<char>,
    claims_dir: Seq<char>,
    now: Timestamp,
)
    requires
        m.contains_key(k),
        forall|j: Seq<char>| #[trigger]
            m.contains_key(j) && j != k ==> digest::text_digest(j) != digest::text_digest(k),
    ensures
        state::token_key(
            m.insert(k, m[k].claimed(run_id, now)),
            (ReviewTokenView { claims_dir, digest: digest::text_digest(k), run_id }),
        ) == Some(k),
{
    let after = m.insert(k, m[k].claimed(run_id, now));
    let t = ReviewTokenView { claims_dir, digest: digest::text_digest(k), run_id };
    let p = |k: Seq<char>, e: ReviewEntryView| state::matches(k, e, t);
    assert(p(k, after[k]));
    assert forall|j: Seq<char>| #[trigger] after.contains_key(j) && p(j, after[j]) implies j == k by {
        if j != k {
            assert(m.contains_key(j));
        }
    }
    assert(ordered::is_least(after, p, k));
    ordered::lemma_least(after, p, k);
}

/// Once a review has ended, no token matches it: a token is good for one
/// transition.
pub proof fn law_an_ended_review_matches_no_token(
    k: Seq<char>,
    e: ReviewEntryView,
    t: ReviewTokenView,
    reason: Option<Seq<char>>,
    error: Seq<char>,
    budget: u32,
    now: Timestamp,
)
    ensures
        !state::matches(k, e.ended(ReviewPhase::Done, reason, now), t),
        !state::matches(k, e.ended(ReviewPhase::Skipped, reason, now), t),
        !state::matches(k, e.retried(error, budget, now), t),
{
}

/// An entry fails on the attempt that uses up its budget and not before, and
/// a retried entry is not claimed before its delay is over.
pub proof fn law_the_budget_bounds_the_review_attempts(
    e: ReviewEntryView,
    error: Seq<char>,
    budget: u32,
    now: Timestamp,
    later: Timestamp,
)
    requires
        budget > 0,
        e.attempts < u32::MAX,
    ensures
        e.attempts + 1 < budget ==> e.retried(error, budget, now).phase == ReviewPhase::Queued,
        e.attempts + 1 >= budget ==> e.retried(error, budget, now).phase == ReviewPhase::Failed,
        e.retried(error, budget, now).attempts == e.attempts + 1,
        e.attempts + 1 < budget ==> (state::eligible(e.retried(error, budget, now), later)
            <==> now.plus(state::REVIEW_RETRY_BACKOFF_SECONDS as int).le(later)),
{
}

/// A save never lowers the generation of a pull request and touches no other.
pub proof fn law_a_save_never_regresses(m: ReviewStates, s: StateView, k: Seq<char>)
    requires
        state::saved(m, s) is Ok,
        m.contains_key(k),
    ensures
        state::saved(m, s)->Ok_0.contains_key(k),
        state::saved(m, s)->Ok_0[k].review_generation >= m[k].review_generation,
        k != super::state_key(s.repository, s.pull_request) ==> state::saved(m, s)->Ok_0[k] == m[k],
{
}

/// A valid state of a generation that is not older is saved, and what is saved
/// is read back.
pub proof fn law_a_saved_state_is_read_back(m: ReviewStates, s: StateView)
    requires
        super::stored_state_fault(s) is None,
        ({
            let k = super::state_key(s.repository, s.pull_request);
            m.contains_key(k) ==> m[k].review_generation <= s.review_generation
        }),
    ensures
        state::saved(m, s) is Ok,
        state::saved(m, s)->Ok_0[super::state_key(s.repository, s.pull_request)] == s,
{
}

/// The history only grows: an append keeps every row in its place.
pub proof fn law_the_history_is_append_only(
    h: Seq<RowView>,
    row: RowView,
    decoded: Result<ReviewResult, String>,
    i: int,
)
    requires
        state::appended(h, row, decoded) is Ok,
        0 <= i < h.len(),
    ensures
        state::appended(h, row, decoded)->Ok_0.len() == h.len() + 1,
        state::appended(h, row, decoded)->Ok_0[i] == h[i],
        state::appended(h, row, decoded)->Ok_0.last() == row,
{
}

/// A run is recorded at most once: appending it again is an error.
pub proof fn law_a_run_is_recorded_once(
    h: Seq<RowView>,
    row: RowView,
    decoded: Result<ReviewResult, String>,
    again: RowView,
    redecoded: Result<ReviewResult, String>,
)
    requires
        state::appended(h, row, decoded) is Ok,
        again.review_run_id == row.review_run_id,
    ensures
        state::appended(state::appended(h, row, decoded)->Ok_0, again, redecoded) is Err,
{
    let after = state::appended(h, row, decoded)->Ok_0;
    assert(after[h.len() as int] == row);
}

/// A commit may be reviewed many times: another run on it is appended.
pub proof fn law_a_commit_may_have_many_runs(
    h: Seq<RowView>,
    row: RowView,
    decoded: Result<ReviewResult, String>,
)
    requires
        super::row_fault(row, decoded) is None,
        !state::has_run(h, row.review_run_id),
    ensures
        state::appended(h, row, decoded) == Ok::<Seq<RowView>, Fault>(h.push(row)),
{
}

// ---------------------------------------------------------------------------
// What each operation leaves on record
// ---------------------------------------------------------------------------

/// A commit counts as seen exactly when its own entry is in the queue or in
/// progress, or when it is the commit that the state of its pull request says was
/// reviewed last, whatever the queue holds.
pub proof fn law_a_reviewed_commit_counts_as_seen(s: ReviewStoreView, t: TargetView)
    ensures
        ({
            let k = super::state_key(t.repository, t.pull_request);
            let q = super::state_key(t.repository, t.pull_request) + "@"@ + t.head_sha;
            let reviewed = s.states.contains_key(k) && s.states[k].last_reviewed_head_sha == Some(
                t.head_sha,
            );
            let in_queue = s.queue.contains_key(q) && (s.queue[q].phase == ReviewPhase::Queued
                || s.queue[q].phase == ReviewPhase::InProgress);
            &&& reviewed ==> state::already_seen(s, t)
            &&& in_queue ==> state::already_seen(s, t)
            &&& state::already_seen(s, t) ==> reviewed || in_queue
            &&& s.in_flight(t) == in_queue
        }),
{
}

/// An admission queues the target afresh. The state of a pull request that is
/// known keeps what was reviewed and published, moves to the next generation, and
/// is to be published again; that of a new one starts blank at generation one.
pub proof fn law_an_admission_is_on_record(s: ReviewStoreView, t: TargetView, now: Timestamp)
    requires
        ({
            let k = super::state_key(t.repository, t.pull_request);
            s.states.contains_key(k) ==> s.states[k].review_generation < u64::MAX
        }),
    ensures
        ({
            let k = super::state_key(t.repository, t.pull_request);
            let q = super::queue_key(t);
            let after = s.with_admitted(t, now);
            let e = after.queue[q];
            let st = after.states[k];
            &&& after.queue.contains_key(q)
            &&& e.target == t
            &&& e.phase == ReviewPhase::Queued
            &&& e.attempts == 0
            &&& e.last_error is None
            &&& e.last_run_id is None
            &&& e.next_attempt_at is None
            &&& e.queued_at == now
            &&& e.updated_at == now
            &&& e.review_generation == st.review_generation
            &&& after.states.contains_key(k)
            &&& st.publication_state == PublicationState::Pending
            &&& st.next_publish_at is None
            &&& st.last_publish_error is None
            &&& s.states.contains_key(k) ==> {
                let was = s.states[k];
                &&& st.review_generation == was.review_generation + 1
                &&& st.last_reviewed_head_sha == was.last_reviewed_head_sha
                &&& st.last_verdict == was.last_verdict
                &&& st.last_reviewed_at == was.last_reviewed_at
                &&& st.last_run_id == was.last_run_id
                &&& st.sticky_comment_id == was.sticky_comment_id
                &&& st.publication_attempt_count == was.publication_attempt_count
                &&& st.repository == was.repository
                &&& st.pull_request == was.pull_request
            }
            &&& !s.states.contains_key(k) ==> {
                &&& st.review_generation == 1
                &&& st.repository == t.repository
                &&& st.pull_request == t.pull_request
                &&& st.last_reviewed_head_sha is None
                &&& st.last_verdict is None
                &&& st.sticky_comment_id is None
                &&& st.publication_attempt_count == 0
            }
            &&& after.history == s.history
        }),
{
}

/// What can be claimed: a review in the queue whose time has come, and for which
/// there is no claim file.
pub proof fn law_only_due_reviews_are_claimed(
    m: ReviewQueueMap,
    now: Timestamp,
    taken: Seq<Seq<char>>,
    k: Seq<char>,
)
    ensures
        state::claimable(m, now, taken, k) <==> {
            &&& m.contains_key(k)
            &&& m[k].phase == ReviewPhase::Queued
            &&& m[k].next_attempt_at matches Some(t) ==> t.secs < now.secs || (t.secs == now.secs
                && t.nanos <= now.nanos)
            &&& !taken.contains(digest::text_digest(k))
        },
{
}

/// The review that is claimed next is claimable, and no claimable one was queued
/// before it.
pub proof fn law_the_oldest_review_is_claimed_first(
    m: ReviewQueueMap,
    now: Timestamp,
    taken: Seq<Seq<char>>,
    j: Seq<char>,
)
    requires
        state::claimable(m, now, taken, j),
        state::next_key(m, now, taken) is Some,
    ensures
        ({
            let k = state::next_key(m, now, taken)->0;
            &&& state::claimable(m, now, taken, k)
            &&& m[k].queued_at.secs < m[j].queued_at.secs || (m[k].queued_at.secs
                == m[j].queued_at.secs && m[k].queued_at.nanos <= m[j].queued_at.nanos)
            &&& m[k].queued_at == m[j].queued_at && k != j ==> text::str_lt(k, j)
        }),
{
    let k = state::next_key(m, now, taken)->0;
    assert(state::is_next(m, now, taken, k));
}

/// A claim puts the review in progress under its run and changes nothing else;
/// its end leaves phase and reason, and no run; a failure counts, and is tried
/// again five minutes later within the budget.
pub proof fn law_runs_of_a_review_are_on_record(
    e: ReviewEntryView,
    run_id: Seq<char>,
    phase: ReviewPhase,
    reason: Option<Seq<char>>,
    error: Seq<char>,
    budget: u32,
    now: Timestamp,
)
    requires
        e.attempts < u32::MAX,
    ensures
        e.claimed(run_id, now) == (ReviewEntryView {
            phase: ReviewPhase::InProgress,
            last_run_id: Some(run_id),
            updated_at: now,
            ..e
        }),
        e.ended(phase, reason, now) == (ReviewEntryView {
            phase,
            last_error: reason,
            last_run_id: None,
            next_attempt_at: None,
            updated_at: now,
            ..e
        }),
        ({
            let a = e.retried(error, budget, now);
            &&& a.attempts == e.attempts + 1
            &&& a.last_error == Some(error)
            &&& a.last_run_id is None
            &&& a.updated_at == now
            &&& e.attempts + 1 < budget ==> a.phase == ReviewPhase::Queued && a.next_attempt_at
                == Some(now.plus(300))
            &&& e.attempts + 1 >= budget ==> a.phase == ReviewPhase::Failed
                && a.next_attempt_at is None
            &&& a.target == e.target
            &&& a.queued_at == e.queued_at
            &&& a.review_generation == e.review_generation
        }),
{
}

/// A token carries a claim exactly when the review is in progress under its run,
/// and its digest is that of the review's key.
pub proof fn law_a_review_token_is_of_its_run(k: Seq<char>, e: ReviewEntryView, t: ReviewTokenView)
    ensures
        state::matches(k, e, t) <==> e.phase == ReviewPhase::InProgress && e.last_run_id == Some(
            t.run_id,
        ) && t.digest == digest::text_digest(k),
{
}

/// A row of the history is of a repository when the names are the same up to
/// case, and of a pull request when the number is the same too.
pub proof fn law_history_is_told_by_names_and_number(
    r: RowView,
    repo: RepositoryView,
    pr: u64,
)
    ensures
        state::of_repository(r, repo) <==> text::lowercase(r.repository.owner) == text::lowercase(
            repo.owner,
        ) && text::lowercase(r.repository.repo) == text::lowercase(repo.repo),
        state::of_pull_request(r, repo, pr) <==> r.pull_request == pr && text::lowercase(
            r.repository.owner,
        ) == text::lowercase(repo.owner) && text::lowercase(r.repository.repo) == text::lowercase(
            repo.repo,
        ),
{
}

/// A run identifier has something in it and at most 64 bytes.
pub proof fn law_run_identifiers_are_short(run_id: Seq<char>)
    ensures
        state::run_id_fault(run_id) is None <==> 0 < run_id.len() && text::utf8_len(run_id) <= 64,
{
}

/// The identity of a history row has its four texts, each with something in it:
/// the names with at most 256 bytes, the commit and the run with at most 64.
pub proof fn law_a_history_row_keeps_its_caps(r: RowView)
    ensures
        super::identity_fault(r) is None <==> {
            &&& 0 < r.repository.owner.len() && text::utf8_len(r.repository.owner) <= 256
            &&& 0 < r.repository.repo.len() && text::utf8_len(r.repository.repo) <= 256
            &&& 0 < r.head_sha.len() && text::utf8_len(r.head_sha) <= 64
            &&& 0 < r.review_run_id.len() && text::utf8_len(r.review_run_id) <= 64
        },
{
}

/// The queued and the running reviews are active, the others are not, and each
/// phase has its word.
pub proof fn law_phases_have_their_words()
    ensures
        ReviewPhase::Queued.active() && ReviewPhase::InProgress.active(),
        !ReviewPhase::Done.active() && !ReviewPhase::Failed.active(),
        !ReviewPhase::Skipped.active() && !ReviewPhase::NeedsAttention.active(),
        ReviewPhase::Queued.label() == "queued"@,
        ReviewPhase::InProgress.label() == "in_progress"@,
        ReviewPhase::Done.label() == "done"@,
        ReviewPhase::Failed.label() == "failed"@,
        ReviewPhase::Skipped.label() == "skipped"@,
        ReviewPhase::NeedsAttention.label() == "needs_attention"@,
        PublicationState::Pending.label() == "pending"@,
        PublicationState::Publishing.label() == "publishing"@,
        PublicationState::Published.label() == "published"@,
        PublicationState::FailedRetryable.label() == "failed_retryable"@,
        Verdict::Pass.label() == "pass"@,
        Verdict::Fail.label() == "fail"@,
{
}

/// The key of a review is that of its pull request, then the commit.
pub proof fn law_review_keys_have_their_form(t: TargetView)
    requires
        text::is_ascii(t.repository.owner),
        text::is_ascii(t.repository.repo),
    ensures
        super::queue_key(t) == text::ascii_lower(t.repository.owner) + "/"@ + text::ascii_lower(
            t.repository.repo,
        ) + "#"@ + text::dec(t.pull_request as nat) + "@"@ + t.head_sha,
{
}

/// A queue entry that is read stands under the key of its target, is within the
/// caps, and has a generation.
pub proof fn law_a_sound_review_entry_is_read(key: Seq<char>, e: ReviewEntryView)
    ensures
        state::entry_fault(key, e) is None <==> key == super::queue_key(e.target)
            && crate::review::target_fault(e.target) is None && e.review_generation > 0,
{
}

/// A state that is read stands under the key of its pull request and is within
/// the caps.
pub proof fn law_a_sound_review_state_is_read(key: Seq<char>, s: StateView)
    ensures
        state::keyed_state_fault(key, s) is None <==> key == super::state_key(
            s.repository,
            s.pull_request,
        ) && crate::review::state_fault(s) is None,
{
}

/// A file is of the version that is supported, or refused with both versions.
pub proof fn law_a_store_file_has_its_version(file: Seq<char>, found: u32, supported: u32)
    ensures
        super::version_fault(file, found, supported) is None <==> found == supported,
        super::version_fault(file, found, supported) matches Some(
            Fault::StoreVersionUnsupported { path, found: f, supported: s, .. },
        ) ==> path == file && f == found && s == supported,
        super::REVIEW_QUEUE_FILE_VERSION == 1,
        super::REVIEW_STATE_FILE_VERSION == 1,
        super::REVIEW_HISTORY_FILE_VERSION == 1,
        super::REVIEW_CLAIM_FILE_VERSION == 1,
{
}

/// A result document is kept when it is an object with an unsigned version; one of
/// the current version has to be a review result within its caps.
pub proof fn law_a_stored_result_has_a_version(
    j: JsonView,
    error: Seq<char>,
    decoded: Result<ReviewResult, String>,
)
    ensures
        super::blob_fault(Err(error), decoded) == Some(
            Fault::StateCorrupt {
                path: "<review-history>"@,
                message: "result_json is not valid JSON: "@ + error,
            },
        ),
        j.field("schema_version"@) is None ==> super::blob_fault(Ok(j), decoded) is Some,
        j.field("schema_version"@) matches Some(f) ==> (f.value.as_unsigned() is None
            ==> super::blob_fault(Ok(j), decoded) is Some),
        j.field("schema_version"@) matches Some(f) ==> (f.value.as_unsigned() matches Some(v)
            ==> (v != 1 ==> super::blob_fault(Ok(j), decoded) is None) && (v == 1 && decoded is Err
            ==> super::blob_fault(Ok(j), decoded) is Some) && (v == 1 && decoded is Ok
            ==> super::blob_fault(Ok(j), decoded) == crate::review::result_fault(decoded->Ok_0@))),
{
}

/// A stored text is refused when it is empty or longer than its cap; a state is
/// refused with the rule that it breaks.
pub proof fn law_stored_texts_keep_their_caps(
    scope: Seq<char>,
    field: Seq<char>,
    value: Seq<char>,
    max: usize,
    s: StateView,
)
    ensures
        super::bound_fault(scope, field, value, max) is None <==> 0 < value.len() && text::utf8_len(
            value,
        ) <= max,
        value.len() == 0 ==> super::bound_fault(scope, field, value, max) == Some(
            Fault::StateCorrupt { path: scope, message: field + " must not be empty"@ },
        ),
        super::stored_state_fault(s) is None <==> crate::review::state_fault(s) is None,
        crate::review::state_fault(s) matches Some(f) ==> super::stored_state_fault(s) == Some(
            Fault::StateCorrupt {
                path: "<review-store>"@,
                message: "review state invalid: "@ + crate::error::message(f),
            },
        ),
{
}

/// A state is saved exactly when it keeps its caps and is of no older generation
/// than the one on record; then it stands under its own key, and the others stay.
pub proof fn law_a_state_is_saved_under_its_key(m: ReviewStates, s: StateView)
    ensures
        ({
            let k = super::state_key(s.repository, s.pull_request);
            let old = m.contains_key(k) && s.review_generation < m[k].review_generation;
            &&& state::saved(m, s) is Ok <==> crate::review::state_fault(s) is None && !old
            &&& state::saved(m, s) matches Ok(after) ==> after == m.insert(k, s)
            &&& crate::review::state_fault(s) is None && old ==> state::saved(m, s) == Err::<
                ReviewStates,
                Fault,
            >(
                Fault::StateCorrupt {
                    path: "<review-state>"@,
                    message: "review_generation regression for "@ + k + ": stored "@ + text::dec(
                        m[k].review_generation as nat,
                    ) + ", incoming "@ + text::dec(s.review_generation as nat),
                },
            )
        }),
{
}

/// A state that is admitted again counts a generation and waits to be published,
/// with no retry and no error; what was reviewed last stays.
pub proof fn law_an_admission_counts_a_generation(s: StateView)
    requires
        s.review_generation < u64::MAX,
    ensures
        s.readmitted() == (StateView {
            review_generation: (s.review_generation + 1) as u64,
            publication_state: PublicationState::Pending,
            next_publish_at: None,
            last_publish_error: None,
            ..s
        }),
{
}

/// A token opens exactly the review that is in progress in the token's run and has
/// the token's key.
pub proof fn law_a_token_opens_its_review_alone(
    k: Seq<char>,
    e: ReviewEntryView,
    t: ReviewTokenView,
)
    ensures
        state::matches(k, e, t) <==> e.phase == ReviewPhase::InProgress && e.last_run_id == Some(
            t.run_id,
        ) && t.digest == digest::text_digest(k),
{
}

/// What is said of a review that the stores refuse.
pub proof fn law_a_refused_review_says_why(
    key: Seq<char>,
    e: ReviewEntryView,
    s: StateView,
    t: ReviewTokenView,
    run_id: Seq<char>,
    history: Seq<RowView>,
    row: RowView,
    decoded: Result<ReviewResult, String>,
)
    ensures
        key != super::queue_key(e.target) ==> state::entry_fault(key, e) == Some(
            Fault::StateCorrupt {
                path: "<review-queue>"@,
                message: "review queue map key "@ + text::quote(key) + " does not match entry "@
                    + super::queue_key(e.target),
            },
        ),
        key == super::queue_key(e.target) ==> (crate::review::target_fault(e.target) matches Some(f)
            ==> state::entry_fault(key, e) == Some(
            Fault::StateCorrupt {
                path: "<review-queue>"@,
                message: "review queue entry invalid: "@ + crate::error::message(f),
            },
        )),
        key == super::queue_key(e.target) && crate::review::target_fault(e.target) is None
            && e.review_generation == 0 ==> state::entry_fault(key, e) == Some(
            Fault::StateCorrupt {
                path: "<review-queue>"@,
                message: "review queue entry "@ + key + " has review_generation 0"@,
            },
        ),
        key != super::state_key(s.repository, s.pull_request) ==> state::keyed_state_fault(key, s)
            == Some(
            Fault::StateCorrupt {
                path: "<review-state>"@,
                message: "review state map key "@ + text::quote(key) + " does not match entry "@
                    + super::state_key(s.repository, s.pull_request),
            },
        ),
        state::mismatch(t) == (Fault::Queue {
            context: "review-claim-terminal-mismatch"@,
            stderr: "review claim token run_id "@ + text::quote(t.run_id) + " digest "@ + t.digest
                + " does not match any in-progress review entry"@,
        }),
        state::run_id_fault(run_id) is Some <==> run_id.len() == 0 || text::utf8_len(run_id) > 64,
        state::run_id_fault(run_id) is Some ==> state::run_id_fault(run_id) == Some(
            Fault::Queue {
                context: "review-claim"@,
                stderr: "invalid run_id: must be non-empty and at most 64 bytes (got "@ + text::dec(
                    text::utf8_len(run_id),
                ) + ")"@,
            },
        ),
        super::row_fault(row, decoded) is None && state::has_run(history, row.review_run_id)
            ==> state::appended(history, row, decoded) == Err::<Seq<RowView>, Fault>(
            Fault::StateCorrupt {
                path: "<review-history>"@,
                message: "duplicate review_run_id "@ + row.review_run_id
                    + " — completed runs are never re-appended"@,
            },
        ),
        super::row_fault(row, decoded) is None && !state::has_run(history, row.review_run_id)
            ==> state::appended(history, row, decoded) == Ok::<Seq<RowView>, Fault>(
            history.push(row),
        ),
{
}

/// What is said of a store file that does not parse, or is of another version.
pub proof fn law_a_refused_store_file_says_why(
    error: String,
    file: Seq<char>,
    found: u32,
    supported: u32,
)
    ensures
        state::queue_of(Err(error)) == Err::<ReviewQueueMap, Fault>(
            Fault::StateCorrupt {
                path: "<review-queue>"@,
                message: "review queue JSON parse: "@ + error@,
            },
        ),
        state::states_of(Err(error)) == Err::<ReviewStates, Fault>(
            Fault::StateCorrupt {
                path: "<review-state>"@,
                message: "review state JSON parse: "@ + error@,
            },
        ),
        state::history_of(Err(error)) == Err::<Seq<RowView>, Fault>(
            Fault::StateCorrupt {
                path: "<review-history>"@,
                message: "review history JSON parse: "@ + error@,
            },
        ),
        found != supported ==> super::version_fault(file, found, supported) == Some(
            Fault::StoreVersionUnsupported {
                backend: "json"@,
                path: file,
                found: found as i64,
                supported: supported as i64,
                guidance: crate::error::guidance(found > supported),
            },
        ),
{
}

/// Completing a review makes the entry of its claim done, and leaves the others
/// alone.
pub proof fn law_complete_review_ends_the_run(
    s: &mut ReviewStore,
    claim: ReviewClaimToken,
    now: Timestamp,
    r: Result<(), CaduceusError>,
    k: Seq<char>,
    j: Seq<char>,
)
    requires
        call_ensures(ReviewStore::complete_review, (s, claim, now), r),
        state::token_key(old(s)@.queue, claim@) == Some(k),
    ensures
        r is Ok,
        old(s)@.queue[k].phase == ReviewPhase::InProgress,
        old(s)@.queue[k].last_run_id == Some(claim@.run_id),
        final(s)@.queue.contains_key(k),
        final(s)@.queue[k].phase == ReviewPhase::Done,
        final(s)@.queue[k].target == old(s)@.queue[k].target,
        final(s)@.states == old(s)@.states,
        final(s)@.history == old(s)@.history,
        j != k ==> (final(s)@.queue.contains_key(j) <==> old(s)@.queue.contains_key(j)),
        j != k ==> final(s)@.queue[j] == old(s)@.queue[j],
{
    ordered::law_the_least_key_comes_first(
        old(s)@.queue,
        |x: Seq<char>, e: ReviewEntryView| state::matches(x, e, claim@),
        k,
    );
}

/// Skipping a review puts the entry of its claim aside with the reason, and leaves
/// the others alone.
pub proof fn law_skip_review_ends_the_run(
    s: &mut ReviewStore,
    claim: ReviewClaimToken,
    reason: &str,
    now: Timestamp,
    r: Result<(), CaduceusError>,
    k: Seq<char>,
    j: Seq<char>,
)
    requires
        call_ensures(ReviewStore::skip_review, (s, claim, reason, now), r),
        state::token_key(old(s)@.queue, claim@) == Some(k),
    ensures
        r is Ok,
        final(s)@.queue.contains_key(k),
        final(s)@.queue[k].phase == ReviewPhase::Skipped,
        final(s)@.queue[k].last_error == Some(reason@),
        final(s)@.states == old(s)@.states,
        final(s)@.history == old(s)@.history,
        j != k ==> (final(s)@.queue.contains_key(j) <==> old(s)@.queue.contains_key(j)),
        j != k ==> final(s)@.queue[j] == old(s)@.queue[j],
{
}

/// A failed review counts an attempt. While the attempts are below the budget it is
/// queued again; otherwise it has failed. The answer is the phase.
pub proof fn law_a_failed_review_is_retried_within_the_budget(
    s: &mut ReviewStore,
    claim: ReviewClaimToken,
    error: &str,
    budget: u32,
    now: Timestamp,
    r: Result<ReviewPhase, CaduceusError>,
    k: Seq<char>,
)
    requires
        call_ensures(ReviewStore::retry_or_fail_review, (s, claim, error, budget, now), r),
        state::token_key(old(s)@.queue, claim@) == Some(k),
        budget > 0,
        old(s)@.queue[k].attempts < u32::MAX,
    ensures
        r is Ok,
        final(s)@.queue.contains_key(k),
        r->Ok_0 == final(s)@.queue[k].phase,
        final(s)@.queue[k].attempts == old(s)@.queue[k].attempts + 1,
        final(s)@.queue[k].attempts < budget ==> r->Ok_0 == ReviewPhase::Queued,
        final(s)@.queue[k].attempts >= budget ==> r->Ok_0 == ReviewPhase::Failed,
        final(s)@.queue[k].last_error == Some(error@),
        final(s)@.states == old(s)@.states,
{
}

/// A token that opens no review changes nothing, and is told so.
pub proof fn law_a_token_without_a_review_changes_nothing(
    s: &mut ReviewStore,
    claim: ReviewClaimToken,
    reason: &str,
    now: Timestamp,
    r: Result<(), CaduceusError>,
)
    requires
        state::token_key(old(s)@.queue, claim@) is None,
        call_ensures(ReviewStore::complete_review, (s, claim, now), r) || call_ensures(
            ReviewStore::skip_review,
            (s, claim, reason, now),
            r,
        ),
    ensures
        final(s)@ == old(s)@,
        r matches Err(e) && e@ == state::mismatch(claim@),
{
}

/// A commit is active or reviewed exactly when a review of it is queued or running,
/// or it is the one that was reviewed last for its pull request.
pub proof fn law_active_or_reviewed_is_told(
    s: &ReviewStore,
    target: &ReviewTarget,
    r: Result<bool, CaduceusError>,
)
    requires
        call_ensures(ReviewStore::is_active_or_reviewed, (s, target), r),
    ensures
        ({
            let k = super::queue_key(target@);
            let p = super::state_key(target@.repository, target@.pull_request);
            let active = s@.queue.contains_key(k) && (s@.queue[k].phase == ReviewPhase::Queued
                || s@.queue[k].phase == ReviewPhase::InProgress);
            let reviewed = s@.states.contains_key(p) && s@.states[p].last_reviewed_head_sha == Some(
                target@.head_sha,
            );
            &&& r is Ok <==> crate::review::target_fault(target@) is None
            &&& r is Ok ==> (r->Ok_0 <==> active || reviewed)
        }),
{
}

/// A review of a commit that is in flight is not queued again; any other is queued,
/// and its pull request counts a generation.
pub proof fn law_enqueue_review_admits_once(
    s: &mut ReviewStore,
    target: &ReviewTarget,
    now: Timestamp,
    r: Result<ReviewEnqueueOutcome, CaduceusError>,
)
    requires
        call_ensures(ReviewStore::enqueue_review, (s, target, now), r),
    ensures
        ({
            let k = super::queue_key(target@);
            let p = super::state_key(target@.repository, target@.pull_request);
            let active = old(s)@.queue.contains_key(k) && (old(s)@.queue[k].phase
                == ReviewPhase::Queued || old(s)@.queue[k].phase == ReviewPhase::InProgress);
            &&& r is Ok <==> crate::review::target_fault(target@) is None
            &&& r is Err ==> final(s)@ == old(s)@
            &&& r is Ok && active ==> r->Ok_0 == ReviewEnqueueOutcome::AlreadyPresent && final(s)@
                == old(s)@
            &&& r is Ok && !active ==> r->Ok_0 == ReviewEnqueueOutcome::Inserted
            &&& r is Ok && !active ==> final(s)@.queue.contains_key(k) && final(s)@.queue[k].phase
                == ReviewPhase::Queued && final(s)@.queue[k].target.head_sha == target@.head_sha
            &&& r is Ok && !active ==> final(s)@.states.contains_key(p) && final(s)@.states[p].publication_state
                == PublicationState::Pending
            &&& r is Ok && !active ==> final(s)@.history == old(s)@.history
        }),
{
}

/// The claim that is handed out is of the review that it names: it is in progress in
/// the run that asked.
pub proof fn law_acquire_review_claims_for_the_run(
    s: &mut ReviewStore,
    run_id: &str,
    now: Timestamp,
    taken: &Vec<String>,
    r: Result<Option<ClaimedReview>, CaduceusError>,
    k: Seq<char>,
)
    requires
        call_ensures(ReviewStore::acquire_next_review, (s, run_id, now, taken), r),
        0 < run_id@.len(),
        text::utf8_len(run_id@) <= 64,
    ensures
        r is Ok,
        state::next_key(old(s)@.queue, now, text::texts(taken@)) is None ==> r->Ok_0 is None
            && final(s)@ == old(s)@,
        state::next_key(old(s)@.queue, now, text::texts(taken@)) == Some(k) ==> {
            &&& r->Ok_0 is Some
            &&& final(s)@.queue.contains_key(k)
            &&& final(s)@.queue[k] == r->Ok_0->0.entry@
            &&& final(s)@.queue[k].phase == ReviewPhase::InProgress
            &&& final(s)@.queue[k].last_run_id == Some(run_id@)
            &&& r->Ok_0->0.claim@.run_id == run_id@
            &&& r->Ok_0->0.claim@.digest == digest::text_digest(k)
        },
{
}

/// A state that was saved is the one that is found for its pull request.
pub proof fn law_a_saved_state_is_found(
    s: &mut ReviewStore,
    saved: &ReviewState,
    r: Result<(), CaduceusError>,
    after: &ReviewStore,
    repo: &RepositoryId,
    pr: u64,
    found: Option<ReviewState>,
)
    requires
        call_ensures(ReviewStore::save_review_state, (s, saved), r),
        call_ensures(ReviewStore::review_state, (after, repo, pr), found),
        after@ == final(s)@,
        repo@ == saved@.repository,
        pr == saved@.pull_request,
    ensures
        r is Ok ==> found is Some && found->0@ == saved@,
        r is Err ==> final(s)@ == old(s)@,
        final(s)@.queue == old(s)@.queue,
        final(s)@.history == old(s)@.history,
{
}

/// The history of a pull request is exactly its rows, in order; that of a head is
/// those of them with the head.
pub proof fn law_history_is_found_by_pull_request_and_head(
    s: &ReviewStore,
    repo: &RepositoryId,
    pr: u64,
    head: &str,
    all: Vec<ReviewHistoryRow>,
    some: Vec<ReviewHistoryRow>,
    x: RowView,
)
    requires
        call_ensures(ReviewStore::history_for_pull_request, (s, repo, pr), all),
        call_ensures(ReviewStore::history_for_head_sha, (s, repo, pr, head), some),
    ensures
        super::history::row_views(all@).contains(x) <==> s@.history.contains(x)
            && state::of_pull_request(x, repo@, pr),
        super::history::row_views(some@).contains(x) <==> s@.history.contains(x)
            && state::of_pull_request(x, repo@, pr) && x.head_sha == head@,
{
    let p = |y: RowView| state::of_pull_request(y, repo@, pr);
    let q = |y: RowView| y.head_sha == head@;
    lemma_filtered(s@.history, p, x);
    lemma_filtered(s@.history.filter(p), q, x);
}

proof fn lemma_filtered(v: Seq<RowView>, p: spec_fn(RowView) -> bool, x: RowView)
    ensures
        v.filter(p).contains(x) <==> v.contains(x) && p(x),
{
    broadcast use vstd::seq_lib::group_filter_ensures;

    if v.filter(p).contains(x) {
        v.lemma_filter_contains_rev(p, x);
        let f = v.filter(p);
        let i = choose|i: int| 0 <= i < f.len() && f[i] == x;
        assert(p(f[i]));
    }
    if v.contains(x) && p(x) {
        let i = choose|i: int| 0 <= i < v.len() && v[i] == x;
        assert(v.filter(p).contains(v[i]));
    }
}

/// A file that is read holds exactly its entries, each under its key; of two under
/// one key the last.
pub proof fn law_a_review_queue_file_holds_its_entries(
    file: ReviewQueueFile,
    i: int,
    k: Seq<char>,
)
    requires
        state::queue_of(Ok(file)) is Ok,
    ensures
        0 <= i < file.entries@.len() && (forall|j: int|
            i < j < file.entries@.len() ==> (#[trigger] file.entries@[j]).0@
                != file.entries@[i].0@) ==> state::queue_of(Ok(file))->Ok_0.contains_key(
            file.entries@[i].0@,
        ) && state::queue_of(Ok(file))->Ok_0[file.entries@[i].0@] == file.entries@[i].1@,
        state::queue_of(Ok(file))->Ok_0.contains_key(k) ==> exists|j: int|
            0 <= j < file.entries@.len() && (#[trigger] file.entries@[j]).0@ == k,
{
    lemma_entry_map(file.entries@, i, k);
}

proof fn lemma_entry_map(entries: Seq<(String, ReviewQueueEntry)>, i: int, k: Seq<char>)
    ensures
        0 <= i < entries.len() && (forall|j: int|
            i < j < entries.len() ==> (#[trigger] entries[j]).0@ != entries[i].0@)
            ==> state::entry_map(entries).contains_key(entries[i].0@) && state::entry_map(
            entries,
        )[entries[i].0@] == entries[i].1@,
        state::entry_map(entries).contains_key(k) ==> exists|j: int|
            0 <= j < entries.len() && (#[trigger] entries[j]).0@ == k,
    decreases entries.len(),
{
    if entries.len() > 0 {
        let init = entries.drop_last();
        lemma_entry_map(init, i, k);
        let hit = 0 <= i < entries.len() && (forall|j: int|
            i < j < entries.len() ==> (#[trigger] entries[j]).0@ != entries[i].0@);
        if hit && i < entries.len() - 1 {
            assert(entries[entries.len() - 1].0@ != entries[i].0@);
            assert forall|j: int| i < j < init.len() implies (#[trigger] init[j]).0@
                != init[i].0@ by {
                assert(entries[j].0@ != entries[i].0@);
            }
        }
        if state::entry_map(entries).contains_key(k) {
            if state::entry_map(init).contains_key(k) {
                let j = choose|j: int| 0 <= j < init.len() && (#[trigger] init[j]).0@ == k;
                assert(entries[j].0@ == k);
            } else {
                assert(entries[entries.len() - 1].0@ == k);
            }
        }
    }
}

/// A file of states that is read holds exactly its states, each under its key; of
/// two under one key the last.
pub proof fn law_a_review_state_file_holds_its_states(
    file: ReviewStateFile,
    i: int,
    k: Seq<char>,
)
    requires
        state::states_of(Ok(file)) is Ok,
    ensures
        0 <= i < file.states@.len() && (forall|j: int|
            i < j < file.states@.len() ==> (#[trigger] file.states@[j]).0@ != file.states@[i].0@)
            ==> state::states_of(Ok(file))->Ok_0.contains_key(file.states@[i].0@)
            && state::states_of(Ok(file))->Ok_0[file.states@[i].0@] == file.states@[i].1@,
        state::states_of(Ok(file))->Ok_0.contains_key(k) ==> exists|j: int|
            0 <= j < file.states@.len() && (#[trigger] file.states@[j]).0@ == k,
{
    lemma_state_map(file.states@, i, k);
}

proof fn lemma_state_map(states: Seq<(String, ReviewState)>, i: int, k: Seq<char>)
    ensures
        0 <= i < states.len() && (forall|j: int|
            i < j < states.len() ==> (#[trigger] states[j]).0@ != states[i].0@)
            ==> state::state_map(states).contains_key(states[i].0@) && state::state_map(
            states,
        )[states[i].0@] == states[i].1@,
        state::state_map(states).contains_key(k) ==> exists|j: int|
            0 <= j < states.len() && (#[trigger] states[j]).0@ == k,
    decreases states.len(),
{
    if states.len() > 0 {
        let init = states.drop_last();
        lemma_state_map(init, i, k);
        let hit = 0 <= i < states.len() && (forall|j: int|
            i < j < states.len() ==> (#[trigger] states[j]).0@ != states[i].0@);
        if hit && i < states.len() - 1 {
            assert(states[states.len() - 1].0@ != states[i].0@);
            assert forall|j: int| i < j < init.len() implies (#[trigger] init[j]).0@
                != init[i].0@ by {
                assert(states[j].0@ != states[i].0@);
            }
        }
        if state::state_map(states).contains_key(k) {
            if state::state_map(init).contains_key(k) {
                let j = choose|j: int| 0 <= j < init.len() && (#[trigger] init[j]).0@ == k;
                assert(states[j].0@ == k);
            } else {
                assert(states[states.len() - 1].0@ == k);
            }
        }
    }
}

/// A review's claim file is in the directory of claims, under the digest of its key;
/// a new one names the target, the run and the process.
pub proof fn law_a_review_claim_is_of_its_run(
    t: &ReviewClaimToken,
    place: String,
    entry: &ReviewQueueEntry,
    run_id: &str,
    pid: u32,
    identity: String,
    now: Timestamp,
    body: super::claim::ReviewClaimFileBody,
)
    requires
        call_ensures(ReviewClaimToken::claim_path, (t,), place),
        call_ensures(
            super::claim::ReviewClaimFileBody::new,
            (entry, run_id, pid, identity, now),
            body,
        ),
    ensures
        place@ == crate::path::joined(t@.claims_dir, t@.digest + ".claim"@),
        body.version == 1,
        body.target == entry.target,
        body.run_id@ == run_id@,
        body.pid == pid,
        body.process_start_identity == identity,
        body.started_at == now,
        body.worktree_path is None,
{
}

/// The files of the review stores by their names, and the wait before a retry.
pub proof fn law_the_review_stores_have_their_files()
    ensures
        super::REVIEW_QUEUE_FILENAME@ == "review_queue.json"@,
        super::REVIEW_STATE_FILENAME@ == "review_state.json"@,
        super::REVIEW_HISTORY_FILENAME@ == "review_history.json"@,
        super::REVIEW_CLAIMS_DIRNAME@ == "review-claims"@,
        super::REVIEW_LOCK_FILENAME@ == "review.lock"@,
        state::REVIEW_RETRY_BACKOFF_SECONDS == 300,
{
}

/// A store is opened with what its files hold; a file that is not there holds
/// nothing, and one that is refused refuses the store.
pub proof fn law_a_store_is_opened_with_its_files(
    state_dir: Seq<char>,
    queue: Option<Result<ReviewQueueFile, String>>,
    states: Option<Result<ReviewStateFile, String>>,
)
    ensures
        ({
            let r = state::opened(state_dir, queue, states, None);
            &&& queue matches Some(f) ==> (state::queue_of(f) is Err ==> r is Err)
            &&& states matches Some(f) ==> (state::states_of(f) is Err ==> r is Err)
            &&& r matches Ok(s) ==> {
                &&& s.state_dir == state_dir
                &&& s.claims_dir == crate::path::joined(state_dir, "review-claims"@)
                &&& queue is None ==> s.queue == ReviewQueueMap::empty()
                &&& queue matches Some(f) ==> s.queue == state::queue_of(f)->Ok_0
                &&& states is None ==> s.states == ReviewStates::empty()
                &&& states matches Some(f) ==> s.states == state::states_of(f)->Ok_0
                &&& s.history.len() == 0
            }
            &&& queue is None && states is None ==> r is Ok
        }),
{
}

} // verus!
