//! What holds of the queue across transitions.

use vstd::prelude::*;

use super::claim;
use super::store;
use super::{
    CheckpointView, EnqueueOutcome, EntryView, Phase, QueueEntry, QueueFile, QueueMap, TicketType,
    TokenView,
};
use crate::digest;
use crate::error::{CaduceusError, Fault};
use crate::issue::{IssueKey, IssueView};
use crate::ordered;
use crate::text;
use crate::time::Timestamp;

verus! {

/// A claimed entry cannot be claimed again while it is in progress, at any
/// time.
pub proof fn law_a_claim_is_exclusive(
    m: QueueMap,
    k: Seq<char>,
    run_id: Seq<char>,
    now: Timestamp,
    later: Timestamp,
    taken: Seq<Seq<char>>,
)
    requires
        m.contains_key(k),
    ensures
        !store::claimable(m.insert(k, m[k].claimed(run_id, now)), later, taken, k),
        store::next_key(m.insert(k, m[k].claimed(run_id, now)), later, taken) != Some(k),
{
    let after = m.insert(k, m[k].claimed(run_id, now));
    if store::next_key(after, later, taken) == Some(k) {
        let c = choose|c: Seq<char>| store::is_next(after, later, taken, c);
        assert(store::is_next(after, later, taken, c));
    }
}

/// The token that a claim hands out is the token of the claimed entry, and
/// later transitions accept it.
pub proof fn law_an_issued_token_is_accepted(
    m: QueueMap,
    k: Seq<char>,
    run_id: Seq<char>,
    claims_dir: Seq<char>,
    now: Timestamp,
)
    requires
        super::keys_match(m),
        m.contains_key(k),
        forall|j: Seq<char>| #[trigger]
            m.contains_key(j) && j != k ==> digest::text_digest(j) != digest::text_digest(k),
    ensures
        store::token_key(
            m.insert(k, m[k].claimed(run_id, now)),
            TokenView { claims_dir, digest: digest::text_digest(k), run_id },
        ) == Some(k),
{
    let after = m.insert(k, m[k].claimed(run_id, now));
    let t = TokenView { claims_dir, digest: digest::text_digest(k), run_id };
    let p = |j: Seq<char>, e: EntryView| claim::matches(e, t);
    assert forall|j: Seq<char>| #[trigger] after.contains_key(j) && p(j, after[j]) implies j == k
        || crate::text::str_lt(k, j) by {
        if j != k {
            assert(m.contains_key(j));
        }
    }
    ordered::lemma_least(after, p, k);
}

/// A transition that ends a claim consumes the token: no token matches the
/// entry afterwards.
pub proof fn law_an_ended_claim_matches_no_token(
    e: EntryView,
    t: TokenView,
    message: Seq<char>,
    budget: u32,
    not_before: Timestamp,
    now: Timestamp,
)
    ensures
        !claim::matches(e.completed(Phase::Done, now), t),
        !claim::matches(e.completed(Phase::Previewed, now), t),
        !claim::matches(e.retried(message, budget, now), t),
        !claim::matches(e.requeued(message, not_before, now), t),
        !claim::matches(e.skipped(message, now), t),
{
}

/// A token of another run, or with another digest, is refused and changes
/// nothing.
pub proof fn law_a_forged_token_is_refused(
    m: QueueMap,
    t: TokenView,
    f: spec_fn(EntryView) -> EntryView,
)
    requires
        forall|k: Seq<char>| #[trigger]
            m.contains_key(k) ==> m[k].phase != Phase::InProgress || m[k].last_run_id != Some(
                t.run_id,
            ) || digest::text_digest(m[k].key.display_key()) != t.digest,
    ensures
        store::under_token(m, t, f) == Err::<QueueMap, Fault>(claim::mismatch(t)),
{
    ordered::lemma_least_none(m, |k: Seq<char>, e: EntryView| claim::matches(e, t));
}

/// A transition under a token changes one entry, the claimed one.
pub proof fn law_a_transition_touches_one_entry(
    m: QueueMap,
    t: TokenView,
    f: spec_fn(EntryView) -> EntryView,
    j: Seq<char>,
)
    requires
        store::under_token(m, t, f) is Ok,
        store::token_key(m, t) != Some(j),
    ensures
        store::under_token(m, t, f)->Ok_0.contains_key(j) == m.contains_key(j),
        m.contains_key(j) ==> store::under_token(m, t, f)->Ok_0[j] == m[j],
        claim::matches(m[store::token_key(m, t)->0], t),
{
    let p = |k: Seq<char>, e: EntryView| claim::matches(e, t);
    let k = store::token_key(m, t)->0;
    assert(ordered::is_least(m, p, k));
}

/// Queueing an issue twice is queueing it once.
pub proof fn law_enqueue_is_idempotent(
    m: QueueMap,
    key: IssueView,
    ticket_type: TicketType,
    dry_run: bool,
    now: Timestamp,
    later: Timestamp,
)
    ensures
        ({
            let once = store::enqueued(m, key, ticket_type, dry_run, now).1;
            store::enqueued(once, key, ticket_type, dry_run, later) == (
                EnqueueOutcome::AlreadyPresent,
                once,
            )
        }),
{
}

/// A previewed entry stays through dry runs and is queued by the first run
/// that is not dry.
pub proof fn law_a_preview_is_promoted_once(
    m: QueueMap,
    k: IssueView,
    ticket_type: TicketType,
    now: Timestamp,
)
    requires
        m.contains_key(k.display_key()),
        m[k.display_key()].phase == Phase::Previewed,
    ensures
        store::enqueued(m, k, ticket_type, true, now) == (EnqueueOutcome::AlreadyPresent, m),
        store::enqueued(m, k, ticket_type, false, now).0 == EnqueueOutcome::Promoted,
        store::eligible(
            store::enqueued(m, k, ticket_type, false, now).1[k.display_key()],
            now,
        ),
{
}

/// A dry run that is finished leaves its entry previewed, with nothing of the run
/// on it but its attempts and its checkpoint. Further dry runs leave it so, and
/// the first run that is not dry queues it.
pub proof fn law_a_finished_preview_waits_for_a_run(
    m: QueueMap,
    t: TokenView,
    k: IssueView,
    ticket_type: TicketType,
    now: Timestamp,
    later: Timestamp,
)
    requires
        store::token_key(m, t) == Some(k.display_key()),
    ensures
        ({
            let done = store::under_token(
                m,
                t,
                |e: EntryView| e.completed(Phase::Previewed, now),
            );
            let key = k.display_key();
            &&& done is Ok
            &&& done->Ok_0.contains_key(key)
            &&& done->Ok_0[key].phase == Phase::Previewed
            &&& done->Ok_0[key].last_error is None
            &&& done->Ok_0[key].last_run_id is None
            &&& done->Ok_0[key].next_attempt_at is None
            &&& done->Ok_0[key].attempts == m[key].attempts
            &&& done->Ok_0[key].finalization == m[key].finalization
            &&& store::enqueued(done->Ok_0, k, ticket_type, true, later) == (
                EnqueueOutcome::AlreadyPresent,
                done->Ok_0,
            )
            &&& store::enqueued(done->Ok_0, k, ticket_type, false, later).0
                == EnqueueOutcome::Promoted
            &&& store::enqueued(done->Ok_0, k, ticket_type, false, later).1[key].phase
                == Phase::Queued
        }),
{
}

/// With a budget of `budget` attempts, the attempts before the last go back to
/// the queue and the last one fails; the count of attempts never goes down.
pub proof fn law_the_budget_bounds_the_attempts(
    e: EntryView,
    error: Seq<char>,
    budget: u32,
    now: Timestamp,
)
    requires
        budget > 0,
        e.attempts < u32::MAX,
    ensures
        e.attempts + 1 < budget ==> e.retried(error, budget, now).phase == Phase::Queued,
        e.attempts + 1 >= budget ==> e.retried(error, budget, now).phase == Phase::Failed,
        e.retried(error, budget, now).attempts == e.attempts + 1,
{
}

/// Work that fails over and over is given up after exactly `budget` failures.
pub proof fn law_budget_failures_exhaust_an_entry(e: EntryView, budget: u32, n: nat)
    requires
        budget > 0,
        e.attempts == 0,
        e.phase == Phase::Queued,
    ensures
        n < budget ==> after_failures(e, budget, n).phase == Phase::Queued,
        n == budget ==> after_failures(e, budget, n).phase == Phase::Failed,
        n <= budget ==> after_failures(e, budget, n).attempts == n,
    decreases n,
{
    if n > 0 {
        law_budget_failures_exhaust_an_entry(e, budget, (n - 1) as nat);
    }
}

/// The entry after `n` failed attempts.
pub open spec fn after_failures(e: EntryView, budget: u32, n: nat) -> EntryView
    decreases n,
{
    if n == 0 {
        e
    } else {
        after_failures(e, budget, (n - 1) as nat).retried(
            Seq::empty(),
            budget,
            Timestamp { secs: 0, nanos: 0 },
        )
    }
}

/// An infrastructure failure costs no attempt, and holds the entry back until
/// the given time and no longer.
pub proof fn law_infrastructure_failures_cost_no_attempt(
    e: EntryView,
    error: Seq<char>,
    not_before: Timestamp,
    now: Timestamp,
    later: Timestamp,
)
    ensures
        e.requeued(error, not_before, now).attempts == e.attempts,
        store::eligible(e.requeued(error, not_before, now), later) <==> not_before.le(later),
{
}

/// A reset keeps the finalization checkpoint unless it is told to clear it,
/// and gives back the whole budget.
pub proof fn law_a_reset_keeps_the_checkpoint(e: EntryView, clear: bool, now: Timestamp)
    ensures
        !clear ==> e.reset(clear, now).finalization == e.finalization,
        clear ==> e.reset(clear, now).finalization is None,
        e.reset(clear, now).attempts == 0,
        store::eligible(e.reset(clear, now), now),
{
}

/// Reprocessing makes a later generation.
pub proof fn law_reprocessing_advances_the_generation(e: EntryView, now: Timestamp)
    requires
        e.generation < u32::MAX,
    ensures
        e.reprocessed(now).generation == e.generation + 1,
        store::eligible(e.reprocessed(now), now),
{
}

/// A resolved review is not resolved again: once the entry has left
/// `AwaitingReview`, both resolutions are refused.
pub proof fn law_a_review_is_resolved_once(
    m: QueueMap,
    context: Seq<char>,
    key: Seq<char>,
    f: spec_fn(EntryView) -> EntryView,
    g: spec_fn(EntryView) -> EntryView,
)
    requires
        store::after_review(m, context, key, f) is Ok,
        f(m[key]).phase != Phase::AwaitingReview,
    ensures
        store::after_review(store::after_review(m, context, key, f)->Ok_0, context, key, g) is Err,
{
}

// ---------------------------------------------------------------------------
// What each operation leaves in an entry
// ---------------------------------------------------------------------------

/// What an entry is about stays: its issue, the kind of its ticket, and when it
/// was queued.
pub open spec fn same_ticket(a: EntryView, b: EntryView) -> bool {
    a.key == b.key && a.ticket_type == b.ticket_type && a.queued_at == b.queued_at
}

/// A new issue is queued under its canonical key, ready to be claimed, with no
/// attempts, as the first generation.
pub proof fn law_a_new_issue_is_queued(
    m: QueueMap,
    key: IssueView,
    ticket_type: TicketType,
    dry_run: bool,
    now: Timestamp,
)
    requires
        !m.contains_key(key.display_key()),
    ensures
        ({
            let after = store::enqueued(m, key, ticket_type, dry_run, now);
            let e = after.1[key.display_key()];
            &&& after.0 == EnqueueOutcome::Inserted
            &&& after.1.dom() == m.dom().insert(key.display_key())
            &&& forall|j: Seq<char>| #[trigger] m.contains_key(j) ==> after.1[j] == m[j]
            &&& e.key == key
            &&& e.ticket_type == ticket_type
            &&& e.phase == Phase::Queued
            &&& e.attempts == 0
            &&& e.generation == 1
            &&& e.last_error is None
            &&& e.last_run_id is None
            &&& e.next_attempt_at is None
            &&& e.finalization is None
            &&& e.queued_at == now
            &&& e.updated_at == now
        }),
{
    assert(store::enqueued(m, key, ticket_type, dry_run, now).1.dom() =~= m.dom().insert(
        key.display_key(),
    ));
}

/// An issue that is there stays as it is, but for a preview that a real run
/// queues.
pub proof fn law_a_known_issue_is_not_queued_again(
    m: QueueMap,
    key: IssueView,
    ticket_type: TicketType,
    dry_run: bool,
    now: Timestamp,
)
    requires
        m.contains_key(key.display_key()),
    ensures
        ({
            let after = store::enqueued(m, key, ticket_type, dry_run, now);
            let k = key.display_key();
            if m[k].phase == Phase::Previewed && !dry_run {
                &&& after.0 == EnqueueOutcome::Promoted
                &&& after.1[k].phase == Phase::Queued
                &&& after.1[k].next_attempt_at is None
                &&& same_ticket(after.1[k], m[k])
                &&& after.1[k].attempts == m[k].attempts
                &&& after.1[k].generation == m[k].generation
                &&& after.1[k].finalization == m[k].finalization
                &&& after.1[k].updated_at == now
                &&& forall|j: Seq<char>| j != k && #[trigger] m.contains_key(j) ==> after.1[j] == m[j]
            } else {
                after == (EnqueueOutcome::AlreadyPresent, m)
            }
        }),
{
}

/// What can be claimed: an entry in the queue whose time has come, and for whose
/// issue there is no claim file.
pub proof fn law_only_what_is_due_is_claimed(
    m: QueueMap,
    now: Timestamp,
    taken: Seq<Seq<char>>,
    k: Seq<char>,
)
    ensures
        store::claimable(m, now, taken, k) <==> {
            &&& m.contains_key(k)
            &&& m[k].phase == Phase::Queued
            &&& m[k].next_attempt_at matches Some(t) ==> t.secs < now.secs || (t.secs == now.secs
                && t.nanos <= now.nanos)
            &&& !taken.contains(digest::text_digest(k))
        },
{
}

/// The entry that is claimed next is claimable, and no claimable entry was queued
/// before it.
pub proof fn law_the_oldest_is_claimed_first(
    m: QueueMap,
    now: Timestamp,
    taken: Seq<Seq<char>>,
    j: Seq<char>,
)
    requires
        store::claimable(m, now, taken, j),
        store::next_key(m, now, taken) is Some,
    ensures
        ({
            let k = store::next_key(m, now, taken)->0;
            &&& store::claimable(m, now, taken, k)
            &&& m[k].queued_at.secs < m[j].queued_at.secs || (m[k].queued_at.secs
                == m[j].queued_at.secs && m[k].queued_at.nanos <= m[j].queued_at.nanos)
            &&& m[k].queued_at == m[j].queued_at && k != j ==> text::str_lt(k, j)
        }),
{
    let k = store::next_key(m, now, taken)->0;
    assert(store::is_next(m, now, taken, k));
}

/// A claim puts the entry in progress under its run, and changes nothing else.
pub proof fn law_a_claim_is_on_record(e: EntryView, run_id: Seq<char>, now: Timestamp)
    ensures
        ({
            let a = e.claimed(run_id, now);
            &&& a.phase == Phase::InProgress
            &&& a.last_run_id == Some(run_id)
            &&& a.updated_at == now
            &&& same_ticket(a, e)
            &&& a.attempts == e.attempts
            &&& a.generation == e.generation
            &&& a.finalization == e.finalization
            &&& a.last_error == e.last_error
            &&& a.next_attempt_at == e.next_attempt_at
        }),
{
}

/// A token carries a claim exactly when the entry is in progress under its run,
/// and its digest is that of the issue.
pub proof fn law_a_token_is_of_its_run_and_issue(e: EntryView, t: TokenView)
    ensures
        claim::matches(e, t) <==> e.phase == Phase::InProgress && e.last_run_id == Some(t.run_id)
            && t.digest == digest::text_digest(e.key.display_key()),
{
}

/// A finished run leaves the entry in the phase that was asked for, with no error
/// and no run; its attempts, generation and checkpoint stay.
pub proof fn law_a_finished_run_is_on_record(e: EntryView, target: Phase, now: Timestamp)
    ensures
        ({
            let a = e.completed(target, now);
            &&& a.phase == target
            &&& a.last_error is None
            &&& a.last_run_id is None
            &&& a.next_attempt_at is None
            &&& a.updated_at == now
            &&& same_ticket(a, e)
            &&& a.attempts == e.attempts
            &&& a.generation == e.generation
            &&& a.finalization == e.finalization
        }),
{
}

/// A failure counts as an attempt and is on record. Within the budget the entry
/// is queued for five minutes later; at the budget it has failed for good.
pub proof fn law_a_failure_is_on_record(
    e: EntryView,
    error: Seq<char>,
    budget: u32,
    now: Timestamp,
)
    requires
        e.attempts < u32::MAX,
    ensures
        ({
            let a = e.retried(error, budget, now);
            &&& a.attempts == e.attempts + 1
            &&& a.last_error == Some(error)
            &&& a.last_run_id is None
            &&& a.updated_at == now
            &&& e.attempts + 1 < budget ==> a.phase == Phase::Queued && a.next_attempt_at == Some(
                now.plus(300),
            )
            &&& e.attempts + 1 >= budget ==> a.phase == Phase::Failed && a.next_attempt_at is None
            &&& same_ticket(a, e)
            &&& a.generation == e.generation
            &&& a.finalization == e.finalization
        }),
{
}

/// A failure of the surroundings queues the entry for the given time, and a skip
/// takes it out of the queue; each leaves its reason, and counts no attempt.
pub proof fn law_requeues_and_skips_are_on_record(
    e: EntryView,
    reason: Seq<char>,
    not_before: Timestamp,
    now: Timestamp,
)
    ensures
        ({
            let a = e.requeued(reason, not_before, now);
            &&& a.phase == Phase::Queued
            &&& a.next_attempt_at == Some(not_before)
            &&& a.last_error == Some(reason)
            &&& a.last_run_id is None
            &&& a.attempts == e.attempts
            &&& a.generation == e.generation
            &&& a.finalization == e.finalization
            &&& a.updated_at == now
            &&& same_ticket(a, e)
        }),
        ({
            let a = e.skipped(reason, now);
            &&& a.phase == Phase::Skipped
            &&& a.next_attempt_at is None
            &&& a.last_error == Some(reason)
            &&& a.last_run_id is None
            &&& a.attempts == e.attempts
            &&& a.generation == e.generation
            &&& a.finalization == e.finalization
            &&& a.updated_at == now
            &&& same_ticket(a, e)
        }),
{
}

/// A failed entry, and a skipped one, is reset where no claim file is in the way:
/// it is in the queue afresh, with its checkpoint unless that is cleared too.
pub proof fn law_a_failed_or_skipped_entry_is_reset(
    m: QueueMap,
    key: Seq<char>,
    clear_finalization: bool,
    now: Timestamp,
)
    requires
        m.contains_key(key),
        m[key].phase == Phase::Failed || m[key].phase == Phase::Skipped,
    ensures
        ({
            let after = store::reset_queue(m, key, clear_finalization, false, now);
            &&& after is Ok
            &&& after->Ok_0.dom() == m.dom()
            &&& after->Ok_0[key].phase == Phase::Queued
            &&& after->Ok_0[key].attempts == 0
            &&& after->Ok_0[key].last_error is None
            &&& after->Ok_0[key].last_run_id is None
            &&& after->Ok_0[key].next_attempt_at is None
            &&& after->Ok_0[key].updated_at == now
            &&& after->Ok_0[key].generation == m[key].generation
            &&& same_ticket(after->Ok_0[key], m[key])
            &&& clear_finalization ==> after->Ok_0[key].finalization is None
            &&& !clear_finalization ==> after->Ok_0[key].finalization == m[key].finalization
            &&& forall|j: Seq<char>|
                j != key && #[trigger] m.contains_key(j) ==> after->Ok_0[j] == m[j]
        }),
{
    assert(store::reset_queue(m, key, clear_finalization, false, now)->Ok_0.dom() =~= m.dom());
}

/// No other entry is reset, and none while a claim file is there; the error names
/// the entry.
pub proof fn law_no_other_entry_is_reset(
    m: QueueMap,
    key: Seq<char>,
    clear_finalization: bool,
    claim_exists: bool,
    now: Timestamp,
)
    ensures
        ({
            let r = store::reset_queue(m, key, clear_finalization, claim_exists, now);
            &&& !m.contains_key(key) ==> r == Err::<QueueMap, Fault>(
                Fault::Queue { context: "reset"@, stderr: "no entry for "@ + key },
            )
            &&& m.contains_key(key) && m[key].phase != Phase::Failed && m[key].phase
                != Phase::Skipped ==> r == Err::<QueueMap, Fault>(
                Fault::Queue {
                    context: "reset"@,
                    stderr: "refusing to reset entry "@ + key + ": phase is "@ + m[key].phase.name()
                        + ", must be Failed or Skipped"@,
                },
            )
            &&& m.contains_key(key) && (m[key].phase == Phase::Failed || m[key].phase
                == Phase::Skipped) && claim_exists ==> r == Err::<QueueMap, Fault>(
                Fault::Queue {
                    context: "reset"@,
                    stderr: "refusing to reset entry "@ + key + ": active claim file exists"@,
                },
            )
        }),
{
}

/// Reprocessing queues an entry of any phase afresh, as the next generation; only
/// one that a human has yet to decide on is refused.
pub proof fn law_reprocessing_starts_over(m: QueueMap, key: Seq<char>, now: Timestamp)
    ensures
        ({
            let r = store::reprocess_queue(m, key, now);
            &&& r is Ok <==> m.contains_key(key) && m[key].phase != Phase::AwaitingReview
            &&& r matches Ok(after) ==> {
                &&& after[key].phase == Phase::Queued
                &&& after[key].attempts == 0
                &&& after[key].last_error is None
                &&& after[key].last_run_id is None
                &&& after[key].next_attempt_at is None
                &&& after[key].updated_at == now
                &&& m[key].generation < u32::MAX ==> after[key].generation == m[key].generation + 1
                &&& after[key].finalization == m[key].finalization
                &&& same_ticket(after[key], m[key])
                &&& forall|j: Seq<char>| j != key && #[trigger] m.contains_key(j) ==> after[j] == m[j]
            }
        }),
{
}

/// A completion comment leaves the entry waiting for review. From there a human
/// ends it, or it goes to an operator with the reason; neither touches anything
/// else of it.
pub proof fn law_a_review_moves_the_phase_alone(e: EntryView, reason: Seq<char>, now: Timestamp)
    ensures
        e.awaiting_review(now) == (EntryView {
            phase: Phase::AwaitingReview,
            updated_at: now,
            ..e
        }),
        e.merged(now) == (EntryView { phase: Phase::Done, updated_at: now, ..e }),
        e.needing_attention(reason, now) == (EntryView {
            phase: Phase::NeedsAttention,
            last_error: Some(reason),
            updated_at: now,
            ..e
        }),
{
}

/// Only an entry that waits for review is moved on by its review.
pub proof fn law_only_a_waiting_entry_is_reviewed(
    m: QueueMap,
    context: Seq<char>,
    key: Seq<char>,
    f: spec_fn(EntryView) -> EntryView,
)
    ensures
        store::after_review(m, context, key, f) is Ok <==> m.contains_key(key) && m[key].phase
            == Phase::AwaitingReview,
        store::after_review(m, context, key, f) matches Ok(after) ==> after == m.insert(
            key,
            f(m[key]),
        ),
{
}

/// A checkpoint is saved under the claim of its own run, and replaces the last.
pub proof fn law_a_checkpoint_is_of_its_run(
    m: QueueMap,
    t: TokenView,
    c: CheckpointView,
    now: Timestamp,
)
    requires
        store::token_key(m, t) is Some,
    ensures
        ({
            let k = store::token_key(m, t)->0;
            let r = store::finalized(m, t, c, now);
            &&& r is Ok <==> c.run_id == t.run_id
            &&& r matches Ok(after) ==> after[k].finalization == Some(c) && after[k].updated_at
                == now && after[k].phase == m[k].phase && after[k].attempts == m[k].attempts
                && after[k].last_run_id == m[k].last_run_id && after[k].generation
                == m[k].generation && same_ticket(after[k], m[k])
        }),
{
}

/// A queue file is read when it is of version one, and every entry stands under
/// the canonical key of a valid issue.
pub proof fn law_a_sound_queue_file_is_read(file: QueueFile)
    ensures
        super::queue_of(file) is Ok <==> file.version == 1 && forall|i: int|
            0 <= i < file.entries@.len() ==> {
                &&& (#[trigger] file.entries@[i]).0@ == file.entries@[i].1@.key.display_key()
                &&& file.entries@[i].1@.key.valid()
            },
{
    lemma_first_fault(file.entries@, 0);
}

proof fn lemma_first_fault(entries: Seq<(String, QueueEntry)>, i: int)
    requires
        0 <= i <= entries.len(),
    ensures
        super::first_fault(entries, i) is None <==> forall|j: int|
            i <= j < entries.len() ==> {
                &&& (#[trigger] entries[j]).0@ == entries[j].1@.key.display_key()
                &&& entries[j].1@.key.valid()
            },
    decreases entries.len() - i,
{
    if i < entries.len() {
        lemma_first_fault(entries, i + 1);
    }
}

/// What is said of an entry that is not there, or not waiting.
pub proof fn law_a_refusal_names_the_entry(context: Seq<char>, key: Seq<char>, phase: Phase)
    ensures
        store::no_entry(context, key) == (Fault::Queue { context, stderr: "no entry for "@ + key }),
        store::not_awaiting(context, key, phase) == (Fault::Queue {
            context,
            stderr: "entry "@ + key + " is "@ + phase.name() + ", must be AwaitingReview"@,
        }),
{
}

/// What is said of a request that the queue refuses.
pub proof fn law_a_refused_request_says_why(
    m: QueueMap,
    key: Seq<char>,
    t: TokenView,
    c: CheckpointView,
    now: Timestamp,
)
    ensures
        !m.contains_key(key) ==> store::reprocess_queue(m, key, now) == Err::<QueueMap, Fault>(
            Fault::Queue { context: "reprocess"@, stderr: "no entry for "@ + key },
        ),
        m.contains_key(key) && m[key].phase == Phase::AwaitingReview ==> store::reprocess_queue(
            m,
            key,
            now,
        ) == Err::<QueueMap, Fault>(
            Fault::Queue {
                context: "reprocess"@,
                stderr: "refusing to reprocess entry "@ + key
                    + ": phase is AwaitingReview, human review must complete first"@,
            },
        ),
        store::token_key(m, t) is None ==> store::finalized(m, t, c, now) == Err::<QueueMap, Fault>(
            Fault::Queue {
                context: "claim"@,
                stderr: "claim token run_id "@ + text::quote(t.run_id) + " digest "@ + t.digest
                    + " does not match any in-progress entry"@,
            },
        ),
        store::token_key(m, t) is Some && c.run_id != t.run_id ==> store::finalized(m, t, c, now)
            == Err::<QueueMap, Fault>(
            Fault::Queue {
                context: "save_finalization"@,
                stderr: "checkpoint run_id "@ + text::quote(c.run_id)
                    + " does not match claim run_id "@ + text::quote(t.run_id),
            },
        ),
{
}

/// The phases by their names.
pub proof fn law_phases_have_their_names()
    ensures
        Phase::Queued.name() == "Queued"@,
        Phase::InProgress.name() == "InProgress"@,
        Phase::Previewed.name() == "Previewed"@,
        Phase::AwaitingReview.name() == "AwaitingReview"@,
        Phase::Done.name() == "Done"@,
        Phase::Failed.name() == "Failed"@,
        Phase::Skipped.name() == "Skipped"@,
        Phase::NeedsAttention.name() == "NeedsAttention"@,
{
}

/// A queue file of another version is refused, with both versions.
pub proof fn law_a_queue_file_of_another_version_is_refused(file: QueueFile)
    requires
        file.version != super::QUEUE_FILE_VERSION,
    ensures
        super::queue_of(file) == Err::<QueueMap, Fault>(
            Fault::StateCorrupt {
                path: super::queue_scope(),
                message: "unsupported queue state version: got "@ + text::dec(file.version as nat)
                    + ", expected "@ + text::dec(super::QUEUE_FILE_VERSION as nat),
            },
        ),
{
}

/// Completing a run makes the entry of its claim done, and leaves the others alone.
pub proof fn law_complete_ends_the_run(
    s: &mut store::StateStore,
    claim: super::ClaimToken,
    now: Timestamp,
    r: Result<(), CaduceusError>,
    k: Seq<char>,
    j: Seq<char>,
)
    requires
        call_ensures(store::StateStore::complete, (s, claim, now), r),
        store::token_key(old(s)@.queue, claim@) == Some(k),
    ensures
        r is Ok,
        old(s)@.queue[k].phase == Phase::InProgress,
        old(s)@.queue[k].last_run_id == Some(claim@.run_id),
        final(s)@.queue.contains_key(k),
        final(s)@.queue[k].phase == Phase::Done,
        final(s)@.queue[k].updated_at == now,
        final(s)@.queue[k].key == old(s)@.queue[k].key,
        j != k ==> (final(s)@.queue.contains_key(j) <==> old(s)@.queue.contains_key(j)) && final(s)@.queue[j] == old(s)@.queue[j],
{
    ordered::law_the_least_key_comes_first(
        old(s)@.queue,
        |x: Seq<char>, e: EntryView| claim::matches(e, claim@),
        k,
    );
}

/// Completing an investigation makes the entry of its claim done, and leaves the
/// others alone.
pub proof fn law_complete_investigation_ends_the_run(
    s: &mut store::StateStore,
    claim: super::ClaimToken,
    now: Timestamp,
    r: Result<(), CaduceusError>,
    k: Seq<char>,
    j: Seq<char>,
)
    requires
        call_ensures(store::StateStore::complete_investigation, (s, claim, now), r),
        store::token_key(old(s)@.queue, claim@) == Some(k),
    ensures
        r is Ok,
        old(s)@.queue[k].phase == Phase::InProgress,
        old(s)@.queue[k].last_run_id == Some(claim@.run_id),
        final(s)@.queue.contains_key(k),
        final(s)@.queue[k].phase == Phase::Done,
        final(s)@.queue[k].updated_at == now,
        final(s)@.queue[k].key == old(s)@.queue[k].key,
        j != k ==> (final(s)@.queue.contains_key(j) <==> old(s)@.queue.contains_key(j)) && final(s)@.queue[j] == old(s)@.queue[j],
{
    ordered::law_the_least_key_comes_first(
        old(s)@.queue,
        |x: Seq<char>, e: EntryView| claim::matches(e, claim@),
        k,
    );
}

/// Completing a preview puts the entry of its claim aside for a look, and leaves the
/// others alone.
pub proof fn law_complete_preview_ends_the_run(
    s: &mut store::StateStore,
    claim: super::ClaimToken,
    now: Timestamp,
    r: Result<(), CaduceusError>,
    k: Seq<char>,
    j: Seq<char>,
)
    requires
        call_ensures(store::StateStore::complete_preview, (s, claim, now), r),
        store::token_key(old(s)@.queue, claim@) == Some(k),
    ensures
        r is Ok,
        old(s)@.queue[k].phase == Phase::InProgress,
        old(s)@.queue[k].last_run_id == Some(claim@.run_id),
        final(s)@.queue.contains_key(k),
        final(s)@.queue[k].phase == Phase::Previewed,
        final(s)@.queue[k].updated_at == now,
        final(s)@.queue[k].key == old(s)@.queue[k].key,
        j != k ==> (final(s)@.queue.contains_key(j) <==> old(s)@.queue.contains_key(j)) && final(s)@.queue[j] == old(s)@.queue[j],
{
    ordered::law_the_least_key_comes_first(
        old(s)@.queue,
        |x: Seq<char>, e: EntryView| claim::matches(e, claim@),
        k,
    );
}

/// Skipping an entry puts it aside with the reason, and leaves the others alone.
pub proof fn law_skip_ends_the_run(
    s: &mut store::StateStore,
    claim: super::ClaimToken,
    reason: &str,
    now: Timestamp,
    r: Result<(), CaduceusError>,
    k: Seq<char>,
    j: Seq<char>,
)
    requires
        call_ensures(store::StateStore::skip, (s, claim, reason, now), r),
        store::token_key(old(s)@.queue, claim@) == Some(k),
    ensures
        r is Ok,
        final(s)@.queue.contains_key(k),
        final(s)@.queue[k].phase == Phase::Skipped,
        final(s)@.queue[k].last_error == Some(reason@),
        final(s)@.queue[k].updated_at == now,
        j != k ==> (final(s)@.queue.contains_key(j) <==> old(s)@.queue.contains_key(j)) && final(s)@.queue[j] == old(s)@.queue[j],
{
    ordered::law_the_least_key_comes_first(
        old(s)@.queue,
        |x: Seq<char>, e: EntryView| claim::matches(e, claim@),
        k,
    );
}

/// An entry that is queued again for a fault of the host keeps its attempts and waits
/// until the time that is given; the others are left alone.
pub proof fn law_requeue_costs_no_attempt(
    s: &mut store::StateStore,
    claim: super::ClaimToken,
    error: &str,
    not_before: Timestamp,
    now: Timestamp,
    r: Result<(), CaduceusError>,
    k: Seq<char>,
    j: Seq<char>,
)
    requires
        call_ensures(store::StateStore::requeue_infrastructure, (s, claim, error, not_before, now), r),
        store::token_key(old(s)@.queue, claim@) == Some(k),
    ensures
        r is Ok,
        final(s)@.queue.contains_key(k),
        final(s)@.queue[k].phase == Phase::Queued,
        final(s)@.queue[k].attempts == old(s)@.queue[k].attempts,
        final(s)@.queue[k].last_error == Some(error@),
        final(s)@.queue[k].next_attempt_at == Some(not_before),
        j != k ==> (final(s)@.queue.contains_key(j) <==> old(s)@.queue.contains_key(j)) && final(s)@.queue[j] == old(s)@.queue[j],
{
    ordered::law_the_least_key_comes_first(
        old(s)@.queue,
        |x: Seq<char>, e: EntryView| claim::matches(e, claim@),
        k,
    );
}

/// A failed run counts an attempt. While the attempts are below the budget the entry
/// is queued again; otherwise it has failed. The answer is the phase.
pub proof fn law_a_failure_is_retried_within_the_budget(
    s: &mut store::StateStore,
    claim: super::ClaimToken,
    error: &str,
    budget: u32,
    now: Timestamp,
    r: Result<Phase, CaduceusError>,
    k: Seq<char>,
    j: Seq<char>,
)
    requires
        call_ensures(store::StateStore::retry_or_fail, (s, claim, error, budget, now), r),
        store::token_key(old(s)@.queue, claim@) == Some(k),
        budget > 0,
        old(s)@.queue[k].attempts < u32::MAX,
    ensures
        r is Ok,
        final(s)@.queue.contains_key(k),
        r->Ok_0 == final(s)@.queue[k].phase,
        final(s)@.queue[k].attempts == old(s)@.queue[k].attempts + 1,
        final(s)@.queue[k].attempts < budget ==> r->Ok_0 == Phase::Queued,
        final(s)@.queue[k].attempts >= budget ==> r->Ok_0 == Phase::Failed,
        final(s)@.queue[k].last_error == Some(error@),
        j != k ==> (final(s)@.queue.contains_key(j) <==> old(s)@.queue.contains_key(j)) && final(s)@.queue[j] == old(s)@.queue[j],
{
    ordered::law_the_least_key_comes_first(
        old(s)@.queue,
        |x: Seq<char>, e: EntryView| claim::matches(e, claim@),
        k,
    );
}

/// A token that opens no entry changes nothing, and is told so.
pub proof fn law_a_token_without_an_entry_changes_nothing(
    s: &mut store::StateStore,
    claim: super::ClaimToken,
    reason: &str,
    now: Timestamp,
    r: Result<(), CaduceusError>,
)
    requires
        store::token_key(old(s)@.queue, claim@) is None,
        call_ensures(store::StateStore::complete, (s, claim, now), r) || call_ensures(
            store::StateStore::complete_investigation,
            (s, claim, now),
            r,
        ) || call_ensures(store::StateStore::complete_preview, (s, claim, now), r) || call_ensures(
            store::StateStore::skip,
            (s, claim, reason, now),
            r,
        ),
    ensures
        final(s)@ == old(s)@,
        r matches Err(e) && e@ == claim::mismatch(claim@),
{
}

/// A new issue is queued. One that is known stays as it is, but a previewed one goes
/// on, unless it is a dry run. What is no issue is refused.
pub proof fn law_enqueue_adds_new_issues(
    s: &mut store::StateStore,
    key: &IssueKey,
    ticket_type: TicketType,
    dry_run: bool,
    now: Timestamp,
    r: Result<EnqueueOutcome, CaduceusError>,
    j: Seq<char>,
)
    requires
        call_ensures(store::StateStore::enqueue, (s, key, ticket_type, dry_run, now), r),
    ensures
        ({
            let k = key@.display_key();
            let m = old(s)@.queue;
            let known = m.contains_key(k);
            let goes_on = known && m[k].phase == Phase::Previewed && !dry_run;
            let e = final(s)@.queue[k];
            &&& r is Ok <==> key@.valid()
            &&& r is Err ==> final(s)@ == old(s)@
            &&& r is Ok ==> final(s)@.queue.contains_key(k)
            &&& r is Ok && !known ==> r->Ok_0 == EnqueueOutcome::Inserted && e.phase
                == Phase::Queued && e.key == key@ && e.ticket_type == ticket_type && e.attempts == 0
                && e.queued_at == now
            &&& r is Ok && goes_on ==> r->Ok_0 == EnqueueOutcome::Promoted && e.phase
                == Phase::Queued
            &&& r is Ok && known && !goes_on ==> r->Ok_0 == EnqueueOutcome::AlreadyPresent && final(
                s)@ == old(s)@
        }),
        j != key@.display_key() ==> (final(s)@.queue.contains_key(j) <==> old(s)@.queue.contains_key(j)) && final(s)@.queue[j] == old(s)@.queue[j],
{
}

/// The claim that is handed out is of the entry that it names: the entry is in
/// progress in the run that asked, and was claimable before.
pub proof fn law_acquire_claims_for_the_run(
    s: &mut store::StateStore,
    run_id: &str,
    now: Timestamp,
    taken: &Vec<String>,
    r: Option<super::ClaimedEntry>,
    k: Seq<char>,
)
    requires
        call_ensures(store::StateStore::acquire_next, (s, run_id, now, taken), r),
        store::next_key(old(s)@.queue, now, text::texts(taken@)) == Some(k),
    ensures
        r is Some,
        final(s)@.queue.contains_key(k),
        final(s)@.queue[k] == r->0.entry@,
        r->0.entry@.phase == Phase::InProgress,
        r->0.entry@.last_run_id == Some(run_id@),
        r->0.claim@.run_id == run_id@,
        r->0.claim@.digest == digest::text_digest(k),
{
}

/// With nothing to claim, nothing changes.
pub proof fn law_acquire_without_a_candidate_changes_nothing(
    s: &mut store::StateStore,
    run_id: &str,
    now: Timestamp,
    taken: &Vec<String>,
    r: Option<super::ClaimedEntry>,
)
    requires
        call_ensures(store::StateStore::acquire_next, (s, run_id, now, taken), r),
        store::next_key(old(s)@.queue, now, text::texts(taken@)) is None,
    ensures
        r is None,
        final(s)@ == old(s)@,
{
}

/// A reset puts a failed or skipped entry without a claim back into the queue, and
/// says which checkpoint it dropped; it does nothing to any other.
pub proof fn law_reset_puts_back_what_failed(
    s: &mut store::StateStore,
    key: &IssueKey,
    clear: bool,
    claim_exists: bool,
    now: Timestamp,
    r: Result<super::ResetOutcome, CaduceusError>,
)
    requires
        call_ensures(store::StateStore::reset_entry, (s, key, clear, claim_exists, now), r),
    ensures
        ({
            let k = key@.display_key();
            let known = old(s)@.queue.contains_key(k);
            let ended = known && (old(s)@.queue[k].phase == Phase::Failed || old(s)@.queue[k].phase
                == Phase::Skipped);
            &&& r is Ok ==> ended && !claim_exists
            &&& r is Err ==> final(s)@ == old(s)@
            &&& r is Ok ==> final(s)@.queue[k].phase == Phase::Queued
            &&& r is Ok ==> r->Ok_0.cleared_finalization == clear
            &&& r is Ok && !clear ==> final(s)@.queue[k].finalization
                == old(s)@.queue[k].finalization
            &&& r is Ok && clear ==> final(s)@.queue[k].finalization is None
        }),
{
}

/// After a review an entry is done; one that needs a person is told so, with the
/// reason. Only an entry that waits for its review is touched.
pub proof fn law_a_review_settles_a_waiting_entry(
    s: &mut store::StateStore,
    key: &IssueKey,
    reason: &str,
    now: Timestamp,
    r: Result<(), CaduceusError>,
)
    ensures
        ({
            let k = key@.display_key();
            let m = old(s)@.queue;
            let waits = m.contains_key(k) && m[k].phase == Phase::AwaitingReview;
            let done = call_ensures(
                store::StateStore::resolve_awaiting_review_as_done,
                (s, key, now),
                r,
            );
            let asks = call_ensures(
                store::StateStore::route_to_needs_attention,
                (s, key, reason, now),
                r,
            );
            &&& done || asks ==> (r is Ok <==> waits)
            &&& done || asks ==> (r is Err ==> final(s)@ == old(s)@)
            &&& done && waits ==> final(s)@.queue[k].phase == Phase::Done
            &&& asks && waits ==> final(s)@.queue[k].phase == Phase::NeedsAttention && final(s)@.queue[k].last_error == Some(reason@)
        }),
{
}

/// An entry whose work is done waits for its review.
pub proof fn law_finished_work_waits_for_review(
    s: &mut store::StateStore,
    key: &IssueKey,
    now: Timestamp,
    r: Result<(), CaduceusError>,
)
    requires
        call_ensures(store::StateStore::complete_awaiting_review, (s, key, now), r),
    ensures
        r is Ok <==> old(s)@.queue.contains_key(key@.display_key()),
        r is Ok ==> final(s)@.queue[key@.display_key()].phase == Phase::AwaitingReview,
        r is Err ==> final(s)@ == old(s)@,
{
}

/// The checkpoint of an issue is the one of its entry.
pub proof fn law_a_checkpoint_is_found_by_its_issue(
    s: &store::StateStore,
    key: &IssueKey,
    r: Option<super::FinalizationCheckpoint>,
)
    requires
        call_ensures(store::StateStore::finalization_for, (s, key), r),
    ensures
        key@.valid() && s@.queue.contains_key(key@.display_key()) ==> super::checkpoint(r)
            == s@.queue[key@.display_key()].finalization,
        !s@.queue.contains_key(key@.display_key()) ==> super::checkpoint(r) is None,
{
}

/// A stale claim sends its entry back to the queue, and the answer says what became
/// of it.
pub proof fn law_reaping_tells_what_it_did(
    s: &mut store::StateStore,
    body: &super::ClaimFileBody,
    now: Timestamp,
    r: super::reaper::ReapEffect,
)
    requires
        call_ensures(store::StateStore::reap_one_stale_claim, (s, body, now), r),
    ensures
        ({
            let k = body.key@.display_key();
            let m = old(s)@.queue;
            let running = m.contains_key(k) && m[k].phase == Phase::InProgress;
            &&& r == super::reaper::ReapEffect::Orphaned <==> !m.contains_key(k)
            &&& r == super::reaper::ReapEffect::Requeued <==> running
            &&& running ==> final(s)@.queue[k].phase == Phase::Queued
            &&& !running ==> final(s)@.queue == m
        }),
{
}

/// A queue file that is read holds exactly its entries, each under its key; of two
/// under one key the last.
pub proof fn law_a_queue_file_holds_its_entries(file: QueueFile, i: int, k: Seq<char>)
    requires
        super::queue_of(file) is Ok,
    ensures
        0 <= i < file.entries@.len() && (forall|j: int|
            i < j < file.entries@.len() ==> (#[trigger] file.entries@[j]).0@
                != file.entries@[i].0@) ==> super::queue_of(file)->Ok_0.contains_key(
            file.entries@[i].0@,
        ) && super::queue_of(file)->Ok_0[file.entries@[i].0@] == file.entries@[i].1@,
        super::queue_of(file)->Ok_0.contains_key(k) ==> exists|j: int|
            0 <= j < file.entries@.len() && (#[trigger] file.entries@[j]).0@ == k,
{
    lemma_entry_map(file.entries@, i, k);
}

proof fn lemma_entry_map(entries: Seq<(String, QueueEntry)>, i: int, k: Seq<char>)
    ensures
        0 <= i < entries.len() && (forall|j: int|
            i < j < entries.len() ==> (#[trigger] entries[j]).0@ != entries[i].0@)
            ==> super::entry_map(entries).contains_key(entries[i].0@) && super::entry_map(
            entries,
        )[entries[i].0@] == entries[i].1@,
        super::entry_map(entries).contains_key(k) ==> exists|j: int|
            0 <= j < entries.len() && (#[trigger] entries[j]).0@ == k,
    decreases entries.len(),
{
    if entries.len() > 0 {
        let init = entries.drop_last();
        lemma_entry_map(init, i, k);
        let hit = 0 <= i < entries.len() && (forall|j: int|
            i < j < entries.len() ==> (#[trigger] entries[j]).0@ != entries[i].0@);
        if hit && i < entries.len() - 1 {
            assert(entries[entries.len() - 1].0@ != entries[i].0@);
            assert forall|j: int| i < j < init.len() implies (#[trigger] init[j]).0@
                != init[i].0@ by {
                assert(entries[j].0@ != entries[i].0@);
            }
        }
        if super::entry_map(entries).contains_key(k) {
            if super::entry_map(init).contains_key(k) {
                let j = choose|j: int| 0 <= j < init.len() && (#[trigger] init[j]).0@ == k;
                assert(entries[j].0@ == k);
            } else {
                assert(entries[entries.len() - 1].0@ == k);
            }
        }
    }
}

/// A claim file is in the directory of claims, under the digest of its issue.
pub proof fn law_a_claim_file_has_its_place(t: &super::ClaimToken, r: String)
    requires
        call_ensures(super::ClaimToken::claim_path, (t,), r),
    ensures
        r@ == crate::path::joined(t@.claims_dir, t@.digest + ".claim"@),
{
}

/// A worktree is noted on a claim without any other change.
pub proof fn law_a_claim_notes_its_worktree(
    body: super::ClaimFileBody,
    worktree: Option<String>,
    r: super::ClaimFileBody,
)
    requires
        call_ensures(claim::update_claim_worktree, (body, worktree), r),
    ensures
        r.worktree_path == worktree,
        r.key == body.key,
        r.run_id == body.run_id,
        r.pid == body.pid,
        r.process_start_identity == body.process_start_identity,
        r.started_at == body.started_at,
        r.version == body.version,
{
}

/// The files of the queue by their names, and the wait before a retry.
pub proof fn law_the_queue_has_its_files()
    ensures
        super::STATE_FILENAME@ == "state.json"@,
        super::CLAIMS_DIRNAME@ == "claims"@,
        super::STATE_LOCK_FILENAME@ == "state.lock"@,
        store::RETRY_BACKOFF_SECONDS == 300,
{
}

/// What is said of an entry that is not reset.
pub proof fn law_a_refused_reset_says_why(
    m: QueueMap,
    key: Seq<char>,
    clear: bool,
    now: Timestamp,
)
    ensures
        !m.contains_key(key) ==> store::reset_queue(m, key, clear, false, now) == Err::<
            QueueMap,
            Fault,
        >(Fault::Queue { context: "reset"@, stderr: "no entry for "@ + key }),
        m.contains_key(key) && m[key].phase != Phase::Failed && m[key].phase != Phase::Skipped
            ==> store::reset_queue(m, key, clear, false, now) == Err::<QueueMap, Fault>(
            Fault::Queue {
                context: "reset"@,
                stderr: "refusing to reset entry "@ + key + ": phase is "@ + m[key].phase.name()
                    + ", must be Failed or Skipped"@,
            },
        ),
        m.contains_key(key) && m[key].phase == Phase::Failed ==> store::reset_queue(
            m,
            key,
            clear,
            true,
            now,
        ) == Err::<QueueMap, Fault>(
            Fault::Queue {
                context: "reset"@,
                stderr: "refusing to reset entry "@ + key + ": active claim file exists"@,
            },
        ),
{
}

} // verus!
