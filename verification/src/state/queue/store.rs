//! The queue store: every transition an entry can take.
//!
//! The store holds the queue as it was loaded under the lock; the caller
//! persists it after a transition that succeeds. A transition that fails
//! leaves the queue as it was.

use vstd::prelude::*;

use super::claim;
use super::{
    ClaimFileBody, ClaimToken, ClaimedEntry, CheckpointView, EnqueueOutcome, EntryView,
    FinalizationCheckpoint, Phase, QueueEntry, QueueFile, QueueMap, QueueState, ResetOutcome,
    TicketType, TokenView, CLAIMS_DIRNAME, CLAIM_FILE_VERSION, STATE_FILENAME, STATE_LOCK_FILENAME,
};
use crate::digest;
use crate::error::{CaduceusError, Fault};
use crate::issue::{IssueKey, IssueView};
use crate::ordered;
use crate::path;
use crate::text;
use crate::time::Timestamp;

verus! {

/// Seconds that a retried entry waits.
pub const RETRY_BACKOFF_SECONDS: i64 = 300;

/// The queue and where it lives.
pub struct StateStore {
    pub state_dir: String,
    pub state_path: String,
    pub claims_dir: String,
    pub lock_path: String,
    pub queue: QueueState,
}

/// A [`StateStore`] with its texts as character sequences and its queue as a
/// map.
pub struct StoreView {
    pub state_dir: Seq<char>,
    pub state_path: Seq<char>,
    pub claims_dir: Seq<char>,
    pub lock_path: Seq<char>,
    pub queue: QueueMap,
}

impl View for StateStore {
    type V = StoreView;

    open spec fn view(&self) -> StoreView {
        StoreView {
            state_dir: self.state_dir@,
            state_path: self.state_path@,
            claims_dir: self.claims_dir@,
            lock_path: self.lock_path@,
            queue: self.queue@,
        }
    }
}

impl StoreView {
    /// The store with another queue.
    pub open spec fn with(self, queue: QueueMap) -> StoreView {
        StoreView { queue, ..self }
    }
}

/// The store before and after a transition: `expected` is the queue that a
/// success leaves, or the fault that leaves the store alone.
pub open spec fn stepped(
    r: Result<(), CaduceusError>,
    before: StoreView,
    after: StoreView,
    expected: Result<QueueMap, Fault>,
) -> bool {
    match expected {
        Ok(queue) => r is Ok && after == before.with(queue),
        Err(f) => r matches Err(e) && e@ == f && after == before,
    }
}

// ---------------------------------------------------------------------------
// Transitions of one entry
// ---------------------------------------------------------------------------

impl EntryView {
    /// A new entry.
    pub open spec fn fresh(key: IssueView, ticket_type: TicketType, now: Timestamp) -> EntryView {
        EntryView {
            key,
            phase: Phase::Queued,
            ticket_type,
            attempts: 0,
            last_error: None,
            last_run_id: None,
            next_attempt_at: None,
            finalization: None,
            queued_at: now,
            updated_at: now,
            generation: 1,
        }
    }

    /// A previewed entry that is to run for real.
    pub open spec fn promoted(self, now: Timestamp) -> EntryView {
        EntryView { phase: Phase::Queued, next_attempt_at: None, updated_at: now, ..self }
    }

    /// Claimed by a run.
    pub open spec fn claimed(self, run_id: Seq<char>, now: Timestamp) -> EntryView {
        EntryView {
            phase: Phase::InProgress,
            last_run_id: Some(run_id),
            updated_at: now,
            ..self
        }
    }

    /// Seen alive by its run.
    pub open spec fn touched(self, now: Timestamp) -> EntryView {
        EntryView { updated_at: now, ..self }
    }

    /// With a finalization checkpoint.
    pub open spec fn checkpointed(self, c: CheckpointView, now: Timestamp) -> EntryView {
        EntryView { finalization: Some(c), updated_at: now, ..self }
    }

    /// Finished in `target`.
    pub open spec fn completed(self, target: Phase, now: Timestamp) -> EntryView {
        EntryView {
            phase: target,
            last_error: None,
            last_run_id: None,
            next_attempt_at: None,
            updated_at: now,
            ..self
        }
    }

    /// Number of attempts once one more has failed.
    pub open spec fn attempts_after_failure(self) -> u32 {
        if self.attempts == u32::MAX {
            u32::MAX
        } else {
            (self.attempts + 1) as u32
        }
    }

    /// The phase after one more failed attempt.
    pub open spec fn phase_after_failure(self, budget: u32) -> Phase {
        if self.attempts_after_failure() >= budget {
            Phase::Failed
        } else {
            Phase::Queued
        }
    }

    /// After one more failed attempt: out of attempts, or queued again with a
    /// delay.
    pub open spec fn retried(self, error: Seq<char>, budget: u32, now: Timestamp) -> EntryView {
        EntryView {
            attempts: self.attempts_after_failure(),
            last_error: Some(error),
            last_run_id: None,
            phase: self.phase_after_failure(budget),
            next_attempt_at: if self.attempts_after_failure() >= budget {
                None
            } else {
                Some(now.plus(RETRY_BACKOFF_SECONDS as int))
            },
            updated_at: now,
            ..self
        }
    }

    /// Queued again for a reason that does not count as an attempt.
    pub open spec fn requeued(
        self,
        error: Seq<char>,
        not_before: Timestamp,
        now: Timestamp,
    ) -> EntryView {
        EntryView {
            phase: Phase::Queued,
            last_error: Some(error),
            last_run_id: None,
            next_attempt_at: Some(not_before),
            updated_at: now,
            ..self
        }
    }

    /// Skipped by the operator.
    pub open spec fn skipped(self, reason: Seq<char>, now: Timestamp) -> EntryView {
        EntryView {
            phase: Phase::Skipped,
            last_error: Some(reason),
            last_run_id: None,
            next_attempt_at: None,
            updated_at: now,
            ..self
        }
    }

    /// Waiting for a human to decide on the pull request.
    pub open spec fn awaiting_review(self, now: Timestamp) -> EntryView {
        EntryView { phase: Phase::AwaitingReview, updated_at: now, ..self }
    }

    /// Handed to the operator.
    pub open spec fn needing_attention(self, reason: Seq<char>, now: Timestamp) -> EntryView {
        EntryView {
            phase: Phase::NeedsAttention,
            last_error: Some(reason),
            updated_at: now,
            ..self
        }
    }

    /// Done because the pull request was merged.
    pub open spec fn merged(self, now: Timestamp) -> EntryView {
        EntryView { phase: Phase::Done, updated_at: now, ..self }
    }

    /// Queued afresh; the checkpoint stays unless it is to be cleared.
    pub open spec fn reset(self, clear_finalization: bool, now: Timestamp) -> EntryView {
        EntryView {
            phase: Phase::Queued,
            attempts: 0,
            last_error: None,
            last_run_id: None,
            next_attempt_at: None,
            finalization: if clear_finalization {
                None
            } else {
                self.finalization
            },
            updated_at: now,
            ..self
        }
    }

    /// Queued afresh as a new generation.
    pub open spec fn reprocessed(self, now: Timestamp) -> EntryView {
        EntryView {
            phase: Phase::Queued,
            attempts: 0,
            last_error: None,
            last_run_id: None,
            next_attempt_at: None,
            generation: if self.generation == u32::MAX {
                u32::MAX
            } else {
                (self.generation + 1) as u32
            },
            updated_at: now,
            ..self
        }
    }

    /// May be reset by the operator.
    pub open spec fn resettable(self) -> bool {
        self.phase == Phase::Failed || self.phase == Phase::Skipped
    }
}

// ---------------------------------------------------------------------------
// Transitions of the queue
// ---------------------------------------------------------------------------

/// The key of the entry that the token claims.
pub open spec fn token_key(m: QueueMap, t: TokenView) -> Option<Seq<char>> {
    ordered::least(m, |k: Seq<char>, e: EntryView| claim::matches(e, t))
}

/// `f` applied to the entry that the token claims.
pub open spec fn under_token(
    m: QueueMap,
    t: TokenView,
    f: spec_fn(EntryView) -> EntryView,
) -> Result<QueueMap, Fault> {
    match token_key(m, t) {
        None => Err(claim::mismatch(t)),
        Some(k) => Ok(m.insert(k, f(m[k]))),
    }
}

/// The error for an issue that is not queued.
pub open spec fn no_entry(context: Seq<char>, key: Seq<char>) -> Fault {
    Fault::Queue { context, stderr: "no entry for "@ + key }
}

/// The error for an entry that is not waiting for review.
pub open spec fn not_awaiting(context: Seq<char>, key: Seq<char>, phase: Phase) -> Fault {
    Fault::Queue {
        context,
        stderr: "entry "@ + key + " is "@ + phase.name() + ", must be AwaitingReview"@,
    }
}

/// `f` applied to the entry of `key`, which must be waiting for review.
pub open spec fn after_review(
    m: QueueMap,
    context: Seq<char>,
    key: Seq<char>,
    f: spec_fn(EntryView) -> EntryView,
) -> Result<QueueMap, Fault> {
    if !m.contains_key(key) {
        Err(no_entry(context, key))
    } else if m[key].phase != Phase::AwaitingReview {
        Err(not_awaiting(context, key, m[key].phase))
    } else {
        Ok(m.insert(key, f(m[key])))
    }
}

/// The queue after a reset, or why the reset is refused.
pub open spec fn reset_queue(
    m: QueueMap,
    key: Seq<char>,
    clear_finalization: bool,
    claim_exists: bool,
    now: Timestamp,
) -> Result<QueueMap, Fault> {
    if !m.contains_key(key) {
        Err(no_entry("reset"@, key))
    } else if !m[key].resettable() {
        Err(
            Fault::Queue {
                context: "reset"@,
                stderr: "refusing to reset entry "@ + key + ": phase is "@ + m[key].phase.name()
                    + ", must be Failed or Skipped"@,
            },
        )
    } else if claim_exists {
        Err(
            Fault::Queue {
                context: "reset"@,
                stderr: "refusing to reset entry "@ + key + ": active claim file exists"@,
            },
        )
    } else {
        Ok(m.insert(key, m[key].reset(clear_finalization, now)))
    }
}

/// The queue after reprocessing, or why it is refused.
pub open spec fn reprocess_queue(m: QueueMap, key: Seq<char>, now: Timestamp) -> Result<
    QueueMap,
    Fault,
> {
    if !m.contains_key(key) {
        Err(no_entry("reprocess"@, key))
    } else if m[key].phase == Phase::AwaitingReview {
        Err(
            Fault::Queue {
                context: "reprocess"@,
                stderr: "refusing to reprocess entry "@ + key
                    + ": phase is AwaitingReview, human review must complete first"@,
            },
        )
    } else {
        Ok(m.insert(key, m[key].reprocessed(now)))
    }
}

/// What enqueueing an issue does.
pub open spec fn enqueued(
    m: QueueMap,
    key: IssueView,
    ticket_type: TicketType,
    dry_run: bool,
    now: Timestamp,
) -> (EnqueueOutcome, QueueMap) {
    let k = key.display_key();
    if !m.contains_key(k) {
        (EnqueueOutcome::Inserted, m.insert(k, EntryView::fresh(key, ticket_type, now)))
    } else if m[k].phase == Phase::Previewed && !dry_run {
        (EnqueueOutcome::Promoted, m.insert(k, m[k].promoted(now)))
    } else {
        (EnqueueOutcome::AlreadyPresent, m)
    }
}

// ---------------------------------------------------------------------------
// Claiming
// ---------------------------------------------------------------------------

/// Queued, and not held back by a delay.
pub open spec fn eligible(e: EntryView, now: Timestamp) -> bool {
    &&& e.phase == Phase::Queued
    &&& match e.next_attempt_at {
        Some(t) => t.le(now),
        None => true,
    }
}

/// The entry under `k` may be claimed: it is eligible and no claim file for
/// its digest is taken.
pub open spec fn claimable(
    m: QueueMap,
    now: Timestamp,
    taken: Seq<Seq<char>>,
    k: Seq<char>,
) -> bool {
    m.contains_key(k) && eligible(m[k], now) && !taken.contains(digest::text_digest(k))
}

/// `k` was queued before `j`, or at the same time with a lesser key.
pub open spec fn precedes(m: QueueMap, k: Seq<char>, j: Seq<char>) -> bool {
    m[k].queued_at.lt(m[j].queued_at) || (m[k].queued_at == m[j].queued_at && text::str_lt(k, j))
}

/// `k` is the oldest claimable entry.
pub open spec fn is_next(m: QueueMap, now: Timestamp, taken: Seq<Seq<char>>, k: Seq<char>) -> bool {
    &&& claimable(m, now, taken, k)
    &&& forall|j: Seq<char>|
        #[trigger] claimable(m, now, taken, j) ==> j == k || precedes(m, k, j)
}

/// The oldest claimable entry, if there is one.
pub open spec fn next_key(m: QueueMap, now: Timestamp, taken: Seq<Seq<char>>) -> Option<Seq<char>> {
    if exists|k: Seq<char>| is_next(m, now, taken, k) {
        Some(choose|k: Seq<char>| is_next(m, now, taken, k))
    } else {
        None
    }
}

/// Only one entry is the oldest.
pub proof fn lemma_next(m: QueueMap, now: Timestamp, taken: Seq<Seq<char>>, k: Seq<char>)
    requires
        is_next(m, now, taken, k),
    ensures
        next_key(m, now, taken) == Some(k),
{
    let c = choose|c: Seq<char>| is_next(m, now, taken, c);
    if c != k {
        assert(claimable(m, now, taken, c) && claimable(m, now, taken, k));
        text::lemma_str_lt_total(c, k);
    }
}

/// Replacing an entry by one of the same issue keeps every key in place.
proof fn lemma_keys_match_insert(m: QueueMap, k: Seq<char>, e: EntryView)
    requires
        super::keys_match(m),
        e.key.display_key() == k,
        e.key.valid(),
    ensures
        super::keys_match(m.insert(k, e)),
{
}

impl StateStore {
    pub open spec fn wf(&self) -> bool {
        self.queue.wf()
    }

    /// A store over the queue file in `state_dir`. `file` is `None` when there
    /// is no file, which counts as the empty queue.
    pub fn open(state_dir: &str, file: Option<Result<QueueFile, String>>) -> (r: Result<
        StateStore,
        CaduceusError,
    >)
        ensures
            match r {
                Ok(s) => {
                    &&& s.wf()
                    &&& s@ == (StoreView {
                        state_dir: state_dir@,
                        state_path: path::joined(state_dir@, STATE_FILENAME@),
                        claims_dir: path::joined(state_dir@, CLAIMS_DIRNAME@),
                        lock_path: path::joined(state_dir@, STATE_LOCK_FILENAME@),
                        queue: s.queue@,
                    })
                    &&& loaded(file, path::joined(state_dir@, STATE_FILENAME@)) == Ok::<
                        QueueMap,
                        Fault,
                    >(s.queue@)
                },
                Err(e) => loaded(file, path::joined(state_dir@, STATE_FILENAME@)) == Err::<
                    QueueMap,
                    Fault,
                >(e@),
            },
    {
        let state_path = path::join(state_dir, STATE_FILENAME);
        let queue = match StateStore::load_validated(state_path.as_str(), file) {
            Ok(q) => q,
            Err(e) => {
                return Err(e);
            },
        };
        Ok(
            StateStore {
                state_dir: state_dir.to_owned(),
                claims_dir: path::join(state_dir, CLAIMS_DIRNAME),
                lock_path: path::join(state_dir, STATE_LOCK_FILENAME),
                state_path,
                queue,
            },
        )
    }

    /// Validate the queue file at `state_path`; a missing file is the empty
    /// queue, and a corrupt one is reported under its path.
    pub fn load_validated(state_path: &str, file: Option<Result<QueueFile, String>>) -> (r: Result<
        QueueState,
        CaduceusError,
    >)
        ensures
            crate::error::seen(r) == loaded(file, state_path@),
            r matches Ok(q) ==> q.wf(),
    {
        match file {
            None => Ok(QueueState::empty()),
            Some(read) => match super::parse_queue_state(read) {
                Ok(q) => Ok(q),
                Err(CaduceusError::StateCorrupt { path: _, message }) => Err(
                    crate::error::corrupt(state_path, message),
                ),
                Err(other) => Err(other),
            },
        }
    }

    /// Path of the queue file.
    pub fn state_path(&self) -> (r: String)
        ensures
            r@ == self@.state_path,
    {
        self.state_path.clone()
    }

    /// Path of the claims directory.
    pub fn claims_dir(&self) -> (r: String)
        ensures
            r@ == self@.claims_dir,
    {
        self.claims_dir.clone()
    }

    /// Path of the state directory.
    pub fn state_dir(&self) -> (r: String)
        ensures
            r@ == self@.state_dir,
    {
        self.state_dir.clone()
    }

    /// The queue as it stands.
    pub fn snapshot(&self) -> (r: &QueueState)
        requires
            self.wf(),
        ensures
            r@ == self@.queue,
            r.wf(),
    {
        &self.queue
    }

    /// Position of the entry that the token claims.
    fn find_token(&self, claim: &ClaimToken) -> (r: Option<usize>)
        requires
            self.wf(),
        ensures
            match r {
                Some(i) => i < self.queue.entries.keys.len() && token_key(self@.queue, claim@)
                    == Some(self.queue.entries.keys@[i as int]@),
                None => token_key(self@.queue, claim@) is None,
            },
    {
        let ghost p = |k: Seq<char>, e: EntryView| claim::matches(e, claim@);
        let mut i: usize = 0;
        while i < self.queue.entries.len()
            invariant
                self.wf(),
                i <= self.queue.entries.keys.len(),
                p == (|k: Seq<char>, e: EntryView| claim::matches(e, claim@)),
                forall|j: int|
                    0 <= j < i ==> !p(
                        #[trigger] self.queue.entries.keys@[j]@,
                        self.queue.entries.values@[j]@,
                    ),
            decreases self.queue.entries.keys.len() - i,
        {
            if claim::matches_token(&self.queue.entries.values[i], claim) {
                proof {
                    self.queue.entries.lemma_first(i as int, p);
                }
                return Some(i);
            }
            i += 1;
        }
        proof {
            self.queue.entries.lemma_no_first(p);
        }
        None
    }

    /// Put `entry` in the place of the one at position `i`, of the same issue.
    pub(crate) fn replace(&mut self, i: usize, entry: QueueEntry)
        requires
            old(self).wf(),
            i < old(self).queue.entries.keys.len(),
            entry@.key == old(self).queue.entries.values@[i as int]@.key,
        ensures
            final(self).wf(),
            final(self)@ == old(self)@.with(
                old(self)@.queue.insert(old(self).queue.entries.keys@[i as int]@, entry@),
            ),
            final(self).queue.entries.keys.len() == old(self).queue.entries.keys.len(),
    {
        proof {
            self.queue.entries.lemma_at(i as int);
            lemma_keys_match_insert(self@.queue, self.queue.entries.keys@[i as int]@, entry@);
        }
        self.queue.entries.set_value(i, entry);
    }

    /// A copy of the entry at position `i`.
    pub(crate) fn copy_of(&self, i: usize) -> (r: QueueEntry)
        requires
            self.wf(),
            i < self.queue.entries.keys.len(),
        ensures
            r@ == self@.queue[self.queue.entries.keys@[i as int]@],
            r == self.queue.entries.values@[i as int],
    {
        proof {
            self.queue.entries.lemma_at(i as int);
        }
        self.queue.entries.values[i].clone()
    }

    /// Queue an issue, leave it when it is there already, or promote a preview
    /// when this is not a dry run.
    pub fn enqueue(
        &mut self,
        key: &IssueKey,
        ticket_type: TicketType,
        dry_run: bool,
        now: Timestamp,
    ) -> (r: Result<EnqueueOutcome, CaduceusError>)
        requires
            old(self).wf(),
            old(self).queue.entries.keys.len() < usize::MAX,
        ensures
            final(self).wf(),
            match r {
                Ok(outcome) => {
                    &&& key@.valid()
                    &&& (outcome, final(self)@.queue) == enqueued(
                        old(self)@.queue,
                        key@,
                        ticket_type,
                        dry_run,
                        now,
                    )
                    &&& final(self)@ == old(self)@.with(final(self)@.queue)
                },
                Err(e) => !key@.valid() && e@ == key@.complaint() && final(self)@ == old(self)@,
            },
    {
        match key.validate() {
            Ok(()) => {},
            Err(e) => {
                return Err(e);
            },
        }
        let k = key.display_key();
        match self.queue.entries.position(k.as_str()) {
            Some(i) => {
                let mut e = self.copy_of(i);
                if e.phase == Phase::Previewed && !dry_run {
                    e.phase = Phase::Queued;
                    e.next_attempt_at = None;
                    e.updated_at = now;
                    self.replace(i, e);
                    Ok(EnqueueOutcome::Promoted)
                } else {
                    Ok(EnqueueOutcome::AlreadyPresent)
                }
            },
            None => {
                let e = QueueEntry {
                    key: key.clone(),
                    phase: Phase::Queued,
                    ticket_type,
                    attempts: 0,
                    last_error: None,
                    last_run_id: None,
                    next_attempt_at: None,
                    finalization: None,
                    queued_at: now,
                    updated_at: now,
                    generation: 1,
                };
                proof {
                    lemma_keys_match_insert(self@.queue, k@, e@);
                }
                self.queue.entries.insert(k, e);
                Ok(EnqueueOutcome::Inserted)
            },
        }
    }

    /// Position of the oldest entry that can be claimed; `taken` lists the
    /// digests whose claim files exist already.
    pub fn next_candidate(&self, now: Timestamp, taken: &Vec<String>) -> (r: Option<usize>)
        requires
            self.wf(),
        ensures
            match r {
                Some(i) => i < self.queue.entries.keys.len() && next_key(
                    self@.queue,
                    now,
                    text::texts(taken@),
                ) == Some(self.queue.entries.keys@[i as int]@),
                None => {
                    &&& next_key(self@.queue, now, text::texts(taken@)) is None
                    &&& forall|k: Seq<char>| !#[trigger]
                        claimable(self@.queue, now, text::texts(taken@), k)
                },
            },
    {
        let ghost m = self@.queue;
        let ghost lost = text::texts(taken@);
        let mut best: Option<usize> = None;
        let mut i: usize = 0;
        while i < self.queue.entries.len()
            invariant
                self.wf(),
                m == self@.queue,
                lost == text::texts(taken@),
                i <= self.queue.entries.keys.len(),
                match best {
                    Some(b) => {
                        &&& b < i
                        &&& claimable(m, now, lost, self.queue.entries.keys@[b as int]@)
                        &&& forall|j: int|
                            0 <= j < i && j != b && claimable(
                                m,
                                now,
                                lost,
                                #[trigger] self.queue.entries.keys@[j]@,
                            ) ==> precedes(
                                m,
                                self.queue.entries.keys@[b as int]@,
                                self.queue.entries.keys@[j]@,
                            )
                    },
                    None => forall|j: int|
                        0 <= j < i ==> !claimable(m, now, lost, #[trigger] self.queue.entries.keys@[j]@),
                },
            decreases self.queue.entries.keys.len() - i,
        {
            let e = &self.queue.entries.values[i];
            proof {
                self.queue.entries.lemma_at(i as int);
            }
            let waits = match e.next_attempt_at {
                Some(t) => now.is_before(&t),
                None => false,
            };
            if e.phase == Phase::Queued && !waits {
                let d = claim::display_digest(self.queue.entries.keys[i].as_str());
                if !text::member(taken, d.as_str()) {
                    match best {
                        Some(b) => {
                            proof {
                                self.queue.entries.lemma_at(b as int);
                            }
                            let first = &self.queue.entries.values[b];
                            if e.queued_at.is_before(&first.queued_at) {
                                proof {
                                    assert forall|j: int|
                                        0 <= j < i + 1 && j != i && claimable(
                                            m,
                                            now,
                                            lost,
                                            #[trigger] self.queue.entries.keys@[j]@,
                                        ) implies precedes(
                                        m,
                                        self.queue.entries.keys@[i as int]@,
                                        self.queue.entries.keys@[j]@,
                                    ) by {
                                        self.queue.entries.lemma_at(j);
                                    }
                                }
                                best = Some(i);
                            } else {
                                proof {
                                    assert(text::str_lt(
                                        self.queue.entries.keys@[b as int]@,
                                        self.queue.entries.keys@[i as int]@,
                                    ));
                                }
                            }
                        },
                        None => {
                            best = Some(i);
                        },
                    }
                }
            }
            i += 1;
        }
        proof {
            match best {
                Some(b) => {
                    let k = self.queue.entries.keys@[b as int]@;
                    assert forall|j: Seq<char>| #[trigger] claimable(m, now, lost, j) implies j == k
                        || precedes(m, k, j) by {
                        let c = self.queue.entries.lemma_position(j);
                        assert(self.queue.entries.keys@[c]@ == j);
                    }
                    lemma_next(m, now, lost, k);
                },
                None => {
                    assert forall|k: Seq<char>| !#[trigger] claimable(m, now, lost, k) by {
                        if claimable(m, now, lost, k) {
                            let c = self.queue.entries.lemma_position(k);
                            assert(self.queue.entries.keys@[c]@ == k);
                        }
                    }
                },
            }
        }
        best
    }

    /// Claim the oldest entry that can be claimed for the run `run_id`.
    /// `taken` lists the digests whose claim files exist already: those claims
    /// are lost, and the next entry is tried.
    pub fn acquire_next(&mut self, run_id: &str, now: Timestamp, taken: &Vec<String>) -> (r: Option<
        ClaimedEntry,
    >)
        requires
            old(self).wf(),
        ensures
            final(self).wf(),
            match next_key(old(self)@.queue, now, text::texts(taken@)) {
                Some(k) => {
                    &&& r matches Some(c) && c.entry@ == old(self)@.queue[k].claimed(run_id@, now)
                        && c.claim@ == (TokenView {
                        claims_dir: old(self)@.claims_dir,
                        digest: digest::text_digest(k),
                        run_id: run_id@,
                    })
                    &&& final(self)@ == old(self)@.with(
                        old(self)@.queue.insert(k, old(self)@.queue[k].claimed(run_id@, now)),
                    )
                },
                None => r is None && final(self)@ == old(self)@,
            },
    {
        match self.next_candidate(now, taken) {
            None => None,
            Some(i) => {
                let d = claim::display_digest(self.queue.entries.keys[i].as_str());
                let mut e = self.copy_of(i);
                e.phase = Phase::InProgress;
                e.last_run_id = Some(run_id.to_owned());
                e.updated_at = now;
                let entry = e.clone();
                self.replace(i, e);
                Some(
                    ClaimedEntry {
                        entry,
                        claim: ClaimToken {
                            claims_dir: self.claims_dir.clone(),
                            digest: d,
                            run_id: run_id.to_owned(),
                        },
                    },
                )
            },
        }
    }

    /// Check that the token claims an entry.
    pub fn verify_claim_run_id(&self, claim: &ClaimToken) -> (r: Result<(), CaduceusError>)
        requires
            self.wf(),
        ensures
            crate::error::verdict(r) == (match token_key(self@.queue, claim@) {
                Some(_) => Ok(()),
                None => Err(claim::mismatch(claim@)),
            }),
    {
        match self.find_token(claim) {
            Some(_) => Ok(()),
            None => Err(claim::claim_mismatch(claim)),
        }
    }

    /// Note that the claiming run has recorded its worktree.
    pub fn set_worktree(&mut self, claim: &ClaimToken, now: Timestamp) -> (r: Result<
        (),
        CaduceusError,
    >)
        requires
            old(self).wf(),
        ensures
            final(self).wf(),
            stepped(
                r,
                old(self)@,
                final(self)@,
                under_token(old(self)@.queue, claim@, |e: EntryView| e.touched(now)),
            ),
    {
        match self.find_token(claim) {
            None => Err(claim::claim_mismatch(claim)),
            Some(i) => {
                let mut e = self.copy_of(i);
                e.updated_at = now;
                self.replace(i, e);
                Ok(())
            },
        }
    }

    /// Record a finalization checkpoint of the claiming run.
    pub fn save_finalization(
        &mut self,
        claim: &ClaimToken,
        checkpoint: FinalizationCheckpoint,
        now: Timestamp,
    ) -> (r: Result<(), CaduceusError>)
        requires
            old(self).wf(),
        ensures
            final(self).wf(),
            stepped(
                r,
                old(self)@,
                final(self)@,
                finalized(old(self)@.queue, claim@, checkpoint@, now),
            ),
    {
        match self.find_token(claim) {
            None => Err(claim::claim_mismatch(claim)),
            Some(i) => {
                if !text::same(checkpoint.run_id.as_str(), claim.run_id()) {
                    let mut m = text::cat(
                        "checkpoint run_id ",
                        text::quoted(checkpoint.run_id.as_str()).as_str(),
                    );
                    m.append(" does not match claim run_id ");
                    m.append(text::quoted(claim.run_id()).as_str());
                    return Err(CaduceusError::Queue { context: "save_finalization", stderr: m });
                }
                let mut e = self.copy_of(i);
                e.finalization = Some(checkpoint);
                e.updated_at = now;
                self.replace(i, e);
                Ok(())
            },
        }
    }

    /// Finish a successful code run.
    pub fn complete(&mut self, claim: ClaimToken, now: Timestamp) -> (r: Result<(), CaduceusError>)
        requires
            old(self).wf(),
        ensures
            final(self).wf(),
            stepped(
                r,
                old(self)@,
                final(self)@,
                under_token(old(self)@.queue, claim@, |e: EntryView| e.completed(Phase::Done, now)),
            ),
    {
        self.complete_with(&claim, Phase::Done, now)
    }

    /// Finish a successful investigation.
    pub fn complete_investigation(&mut self, claim: ClaimToken, now: Timestamp) -> (r: Result<
        (),
        CaduceusError,
    >)
        requires
            old(self).wf(),
        ensures
            final(self).wf(),
            stepped(
                r,
                old(self)@,
                final(self)@,
                under_token(old(self)@.queue, claim@, |e: EntryView| e.completed(Phase::Done, now)),
            ),
    {
        self.complete_with(&claim, Phase::Done, now)
    }

    /// Finish a successful dry run.
    pub fn complete_preview(&mut self, claim: ClaimToken, now: Timestamp) -> (r: Result<
        (),
        CaduceusError,
    >)
        requires
            old(self).wf(),
        ensures
            final(self).wf(),
            stepped(
                r,
                old(self)@,
                final(self)@,
                under_token(
                    old(self)@.queue,
                    claim@,
                    |e: EntryView| e.completed(Phase::Previewed, now),
                ),
            ),
    {
        self.complete_with(&claim, Phase::Previewed, now)
    }

    /// Finish the claimed entry in `target`.
    pub fn complete_with(&mut self, claim: &ClaimToken, target: Phase, now: Timestamp) -> (r: Result<
        (),
        CaduceusError,
    >)
        requires
            old(self).wf(),
        ensures
            final(self).wf(),
            stepped(
                r,
                old(self)@,
                final(self)@,
                under_token(old(self)@.queue, claim@, |e: EntryView| e.completed(target, now)),
            ),
    {
        match self.find_token(claim) {
            None => Err(claim::claim_mismatch(claim)),
            Some(i) => {
                let mut e = self.copy_of(i);
                e.phase = target;
                e.last_error = None;
                e.last_run_id = None;
                e.next_attempt_at = None;
                e.updated_at = now;
                self.replace(i, e);
                Ok(())
            },
        }
    }

    /// Record a failed attempt: back to the queue with a delay while the
    /// budget lasts, failed once it is used up. Returns the new phase.
    pub fn retry_or_fail(&mut self, claim: ClaimToken, error: &str, budget: u32, now: Timestamp) -> (r:
        Result<Phase, CaduceusError>)
        requires
            old(self).wf(),
            now.secs <= i64::MAX - RETRY_BACKOFF_SECONDS,
        ensures
            final(self).wf(),
            match r {
                Ok(phase) => {
                    &&& budget > 0
                    &&& token_key(old(self)@.queue, claim@) matches Some(k) && phase == old(
                        self,
                    )@.queue[k].phase_after_failure(budget) && final(self)@ == old(self)@.with(
                        old(self)@.queue.insert(k, old(self)@.queue[k].retried(error@, budget, now)),
                    )
                },
                Err(e) => {
                    &&& final(self)@ == old(self)@
                    &&& if budget == 0 {
                        e@ == Fault::Config("retry_or_fail budget must be > 0"@)
                    } else {
                        token_key(old(self)@.queue, claim@) is None && e@ == claim::mismatch(claim@)
                    }
                },
            },
    {
        if budget == 0 {
            return Err(CaduceusError::Config("retry_or_fail budget must be > 0".to_owned()));
        }
        match self.find_token(&claim) {
            None => Err(claim::claim_mismatch(&claim)),
            Some(i) => {
                let mut e = self.copy_of(i);
                e.attempts = e.attempts.saturating_add(1);
                e.last_error = Some(error.to_owned());
                e.last_run_id = None;
                if e.attempts >= budget {
                    e.phase = Phase::Failed;
                    e.next_attempt_at = None;
                } else {
                    e.phase = Phase::Queued;
                    e.next_attempt_at = Some(now.plus_seconds(RETRY_BACKOFF_SECONDS));
                }
                e.updated_at = now;
                let phase = e.phase;
                self.replace(i, e);
                Ok(phase)
            },
        }
    }

    /// Back to the queue for a reason that does not count as an attempt.
    pub fn requeue_infrastructure(
        &mut self,
        claim: ClaimToken,
        error: &str,
        not_before: Timestamp,
        now: Timestamp,
    ) -> (r: Result<(), CaduceusError>)
        requires
            old(self).wf(),
        ensures
            final(self).wf(),
            stepped(
                r,
                old(self)@,
                final(self)@,
                under_token(
                    old(self)@.queue,
                    claim@,
                    |e: EntryView| e.requeued(error@, not_before, now),
                ),
            ),
    {
        match self.find_token(&claim) {
            None => Err(claim::claim_mismatch(&claim)),
            Some(i) => {
                let mut e = self.copy_of(i);
                e.phase = Phase::Queued;
                e.last_error = Some(error.to_owned());
                e.last_run_id = None;
                e.next_attempt_at = Some(not_before);
                e.updated_at = now;
                self.replace(i, e);
                Ok(())
            },
        }
    }

    /// Skip the claimed entry, for the operator's reason.
    pub fn skip(&mut self, claim: ClaimToken, reason: &str, now: Timestamp) -> (r: Result<
        (),
        CaduceusError,
    >)
        requires
            old(self).wf(),
        ensures
            final(self).wf(),
            stepped(
                r,
                old(self)@,
                final(self)@,
                under_token(old(self)@.queue, claim@, |e: EntryView| e.skipped(reason@, now)),
            ),
    {
        match self.find_token(&claim) {
            None => Err(claim::claim_mismatch(&claim)),
            Some(i) => {
                let mut e = self.copy_of(i);
                e.phase = Phase::Skipped;
                e.last_error = Some(reason.to_owned());
                e.last_run_id = None;
                e.next_attempt_at = None;
                e.updated_at = now;
                self.replace(i, e);
                Ok(())
            },
        }
    }

    /// The completion comment is posted: wait for a human. The entry is found
    /// by its issue, since its claim may be gone already.
    pub fn complete_awaiting_review(&mut self, key: &IssueKey, now: Timestamp) -> (r: Result<
        (),
        CaduceusError,
    >)
        requires
            old(self).wf(),
        ensures
            final(self).wf(),
            stepped(
                r,
                old(self)@,
                final(self)@,
                ({
                    let k = key@.display_key();
                    let m = old(self)@.queue;
                    if m.contains_key(k) {
                        Ok(m.insert(k, m[k].awaiting_review(now)))
                    } else {
                        Err(no_entry("complete_awaiting_review"@, k))
                    }
                }),
            ),
    {
        let target = key.display_key();
        match self.queue.entries.position(target.as_str()) {
            None => Err(missing("complete_awaiting_review", target.as_str())),
            Some(i) => {
                let mut e = self.copy_of(i);
                e.phase = Phase::AwaitingReview;
                e.updated_at = now;
                self.replace(i, e);
                Ok(())
            },
        }
    }

    /// Hand an entry that waits for review to the operator.
    pub fn route_to_needs_attention(&mut self, key: &IssueKey, reason: &str, now: Timestamp) -> (r:
        Result<(), CaduceusError>)
        requires
            old(self).wf(),
        ensures
            final(self).wf(),
            stepped(
                r,
                old(self)@,
                final(self)@,
                after_review(
                    old(self)@.queue,
                    "route_to_needs_attention"@,
                    key@.display_key(),
                    |e: EntryView| e.needing_attention(reason@, now),
                ),
            ),
    {
        let target = key.display_key();
        match self.queue.entries.position(target.as_str()) {
            None => Err(missing("route_to_needs_attention", target.as_str())),
            Some(i) => {
                let mut e = self.copy_of(i);
                if e.phase != Phase::AwaitingReview {
                    return Err(
                        wrong_phase("route_to_needs_attention", target.as_str(), e.phase),
                    );
                }
                e.phase = Phase::NeedsAttention;
                e.last_error = Some(reason.to_owned());
                e.updated_at = now;
                self.replace(i, e);
                Ok(())
            },
        }
    }

    /// The pull request of an entry that waits for review was merged.
    pub fn resolve_awaiting_review_as_done(&mut self, key: &IssueKey, now: Timestamp) -> (r: Result<
        (),
        CaduceusError,
    >)
        requires
            old(self).wf(),
        ensures
            final(self).wf(),
            stepped(
                r,
                old(self)@,
                final(self)@,
                after_review(
                    old(self)@.queue,
                    "resolve_awaiting_review_as_done"@,
                    key@.display_key(),
                    |e: EntryView| e.merged(now),
                ),
            ),
    {
        let target = key.display_key();
        match self.queue.entries.position(target.as_str()) {
            None => Err(missing("resolve_awaiting_review_as_done", target.as_str())),
            Some(i) => {
                let mut e = self.copy_of(i);
                if e.phase != Phase::AwaitingReview {
                    return Err(
                        wrong_phase("resolve_awaiting_review_as_done", target.as_str(), e.phase),
                    );
                }
                e.phase = Phase::Done;
                e.updated_at = now;
                self.replace(i, e);
                Ok(())
            },
        }
    }

    /// Queue a failed or skipped entry afresh; any other is refused. Refused too
    /// while a claim file for the entry exists (`claim_exists`). The finalization
    /// checkpoint stays unless `clear_finalization`, and is then handed back.
    pub fn reset_entry(
        &mut self,
        key: &IssueKey,
        clear_finalization: bool,
        claim_exists: bool,
        now: Timestamp,
    ) -> (r: Result<ResetOutcome, CaduceusError>)
        requires
            old(self).wf(),
        ensures
            final(self).wf(),
            match reset_queue(
                old(self)@.queue,
                key@.display_key(),
                clear_finalization,
                claim_exists,
                now,
            ) {
                Ok(queue) => {
                    &&& final(self)@ == old(self)@.with(queue)
                    &&& r matches Ok(o) && o.cleared_finalization == clear_finalization
                        && super::checkpoint(o.dropped_checkpoint) == (if clear_finalization {
                        old(self)@.queue[key@.display_key()].finalization
                    } else {
                        None
                    })
                },
                Err(f) => final(self)@ == old(self)@ && (r matches Err(e) && e@ == f),
            },
    {
        let target = key.display_key();
        match self.queue.entries.position(target.as_str()) {
            None => Err(missing("reset", target.as_str())),
            Some(i) => {
                let mut e = self.copy_of(i);
                if e.phase != Phase::Failed && e.phase != Phase::Skipped {
                    let mut m = text::cat("refusing to reset entry ", target.as_str());
                    m.append(": phase is ");
                    m.append(e.phase.name_text());
                    m.append(", must be Failed or Skipped");
                    return Err(CaduceusError::Queue { context: "reset", stderr: m });
                }
                if claim_exists {
                    let mut m = text::cat("refusing to reset entry ", target.as_str());
                    m.append(": active claim file exists");
                    return Err(CaduceusError::Queue { context: "reset", stderr: m });
                }
                let dropped_checkpoint = if clear_finalization {
                    e.finalization.take()
                } else {
                    None
                };
                e.phase = Phase::Queued;
                e.attempts = 0;
                e.last_error = None;
                e.last_run_id = None;
                e.next_attempt_at = None;
                e.updated_at = now;
                self.replace(i, e);
                Ok(ResetOutcome { cleared_finalization: clear_finalization, dropped_checkpoint })
            },
        }
    }

    /// The finalization checkpoint of an issue.
    pub fn finalization_for(&self, key: &IssueKey) -> (r: Option<FinalizationCheckpoint>)
        requires
            self.wf(),
        ensures
            super::checkpoint(r) == (if key@.valid() && self@.queue.contains_key(
                key@.display_key(),
            ) {
                self@.queue[key@.display_key()].finalization
            } else {
                None
            }),
    {
        match self.queue.entry(key) {
            Some(e) => e.finalization.clone(),
            None => None,
        }
    }

    /// Queue an entry afresh as a new generation, unless a human has yet to
    /// decide on its pull request.
    pub fn reprocess_entry(&mut self, key: &IssueKey, now: Timestamp) -> (r: Result<
        (),
        CaduceusError,
    >)
        requires
            old(self).wf(),
        ensures
            final(self).wf(),
            stepped(
                r,
                old(self)@,
                final(self)@,
                reprocess_queue(old(self)@.queue, key@.display_key(), now),
            ),
    {
        let target = key.display_key();
        match self.queue.entries.position(target.as_str()) {
            None => Err(missing("reprocess", target.as_str())),
            Some(i) => {
                let mut e = self.copy_of(i);
                if e.phase == Phase::AwaitingReview {
                    let mut m = text::cat("refusing to reprocess entry ", target.as_str());
                    m.append(": phase is AwaitingReview, human review must complete first");
                    return Err(CaduceusError::Queue { context: "reprocess", stderr: m });
                }
                e.phase = Phase::Queued;
                e.attempts = 0;
                e.last_error = None;
                e.last_run_id = None;
                e.next_attempt_at = None;
                e.generation = e.generation.saturating_add(1);
                e.updated_at = now;
                self.replace(i, e);
                Ok(())
            },
        }
    }
}

/// What loading the queue file gives: a missing file is the empty queue.
pub open spec fn loaded(file: Option<Result<QueueFile, String>>, state_path: Seq<char>) -> Result<
    QueueMap,
    Fault,
> {
    match file {
        None => Ok(QueueMap::empty()),
        Some(Err(e)) => Err(
            Fault::StateCorrupt { path: state_path, message: "queue state JSON parse: "@ + e@ },
        ),
        Some(Ok(f)) => match super::queue_of(f) {
            Ok(m) => Ok(m),
            Err(Fault::StateCorrupt { path, message }) => Err(
                Fault::StateCorrupt { path: state_path, message },
            ),
            Err(other) => Err(other),
        },
    }
}

/// What saving a checkpoint does.
pub open spec fn finalized(m: QueueMap, t: TokenView, c: CheckpointView, now: Timestamp) -> Result<
    QueueMap,
    Fault,
> {
    match token_key(m, t) {
        None => Err(claim::mismatch(t)),
        Some(k) => if c.run_id != t.run_id {
            Err(
                Fault::Queue {
                    context: "save_finalization"@,
                    stderr: "checkpoint run_id "@ + text::quote(c.run_id)
                        + " does not match claim run_id "@ + text::quote(t.run_id),
                },
            )
        } else {
            Ok(m.insert(k, m[k].checkpointed(c, now)))
        },
    }
}

fn missing(context: &'static str, key: &str) -> (r: CaduceusError)
    ensures
        r@ == no_entry(context@, key@),
{
    CaduceusError::Queue { context, stderr: text::cat("no entry for ", key) }
}

fn wrong_phase(context: &'static str, key: &str, phase: Phase) -> (r: CaduceusError)
    ensures
        r@ == not_awaiting(context@, key@, phase),
{
    let mut m = text::cat("entry ", key);
    m.append(" is ");
    m.append(phase.name_text());
    m.append(", must be AwaitingReview");
    CaduceusError::Queue { context, stderr: m }
}

/// The body of a new claim file.
pub fn new_claim_body(
    entry: &QueueEntry,
    run_id: &str,
    pid: u32,
    process_start_identity: String,
    now: Timestamp,
) -> (r: ClaimFileBody)
    ensures
        r.version == CLAIM_FILE_VERSION,
        r.key == entry.key,
        r.run_id@ == run_id@,
        r.pid == pid,
        r.process_start_identity == process_start_identity,
        r.started_at == now,
        r.worktree_path is None,
{
    ClaimFileBody {
        version: CLAIM_FILE_VERSION,
        key: entry.key.clone(),
        run_id: run_id.to_owned(),
        pid,
        process_start_identity,
        started_at: now,
        worktree_path: None,
    }
}

} // verus!
