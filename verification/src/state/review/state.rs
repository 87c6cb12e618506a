//! The review store: admission, claiming and completion of reviews, the state
//! of each pull request, and the history.
//!
//! The store holds what was loaded under the lock; the caller persists it after
//! an operation that succeeds. An operation that fails leaves it as it was.

use vstd::prelude::*;

use super::claim::{ClaimedReview, ReviewClaimToken, ReviewTokenView};
use super::history::{row_views, ReviewHistoryFile, ReviewHistoryRow, RowView};
use super::queue::{
    ReviewEnqueueOutcome, ReviewEntryView, ReviewPhase, ReviewQueueEntry, ReviewQueueMap,
    ReviewQueueState,
};
use super::{
    REVIEW_CLAIMS_DIRNAME, REVIEW_HISTORY_FILE_VERSION, REVIEW_QUEUE_FILE_VERSION,
    REVIEW_STATE_FILE_VERSION,
};
use crate::digest;
use crate::error::{CaduceusError, Fault};
use crate::ordered;
use crate::ordered::StringMap;
use crate::path;
use crate::review;
use crate::review::{
    PublicationState, RepositoryId, RepositoryView, ReviewResult, ReviewState, ReviewTarget,
    StateView, TargetView,
};
use crate::text;
use crate::time::Timestamp;

verus! {

/// Seconds that a retried review waits.
pub const REVIEW_RETRY_BACKOFF_SECONDS: i64 = 300;

/// The state of every pull request, by canonical key.
pub type ReviewStates = Map<Seq<char>, StateView>;

/// The validated states.
pub struct ReviewStateMap {
    pub version: u32,
    pub states: StringMap<ReviewState>,
}

impl View for ReviewStateMap {
    type V = ReviewStates;

    open spec fn view(&self) -> ReviewStates {
        self.states@
    }
}

impl ReviewStateMap {
    /// No states.
    pub fn empty() -> (r: ReviewStateMap)
        ensures
            r.wf(),
            r@ == ReviewStates::empty(),
    {
        ReviewStateMap { version: REVIEW_STATE_FILE_VERSION, states: StringMap::new() }
    }

    /// Every state stands under the key of its own pull request.
    pub open spec fn wf(&self) -> bool {
        &&& self.version == REVIEW_STATE_FILE_VERSION
        &&& self.states.wf()
        &&& states_match(self@)
    }
}

/// Every state stands under the key of its own pull request and is within its
/// caps.
pub open spec fn states_match(m: ReviewStates) -> bool {
    forall|k: Seq<char>| #[trigger]
        m.contains_key(k) ==> k == super::state_key(m[k].repository, m[k].pull_request)
            && review::state_fault(m[k]) is None
}

/// Every entry stands under the key of its own target, which is within its
/// caps.
pub open spec fn targets_match(m: ReviewQueueMap) -> bool {
    forall|k: Seq<char>| #[trigger]
        m.contains_key(k) ==> k == super::queue_key(m[k].target) && review::target_fault(
            m[k].target,
        ) is None
}

// ---------------------------------------------------------------------------
// The files
// ---------------------------------------------------------------------------

/// A review queue file as it was read, entries in key order.
pub struct ReviewQueueFile {
    pub version: u32,
    pub entries: Vec<(String, ReviewQueueEntry)>,
}

/// A review state file as it was read, states in key order.
pub struct ReviewStateFile {
    pub version: u32,
    pub states: Vec<(String, ReviewState)>,
}

/// A history row as it was read, with its result document as a review result
/// or the decoder's message.
pub struct ReadRow {
    pub row: ReviewHistoryRow,
    pub decoded: Result<ReviewResult, String>,
}

/// A review history file as it was read.
pub struct ReviewHistoryRead {
    pub version: u32,
    pub rows: Vec<ReadRow>,
}

/// The rule that an entry under `key` breaks.
pub open spec fn entry_fault(key: Seq<char>, e: ReviewEntryView) -> Option<Fault> {
    let expected = super::queue_key(e.target);
    if key != expected {
        Some(
            Fault::StateCorrupt {
                path: "<review-queue>"@,
                message: "review queue map key "@ + text::quote(key) + " does not match entry "@
                    + expected,
            },
        )
    } else if review::target_fault(e.target) is Some {
        super::stored_fault(
            "<review-queue>"@,
            "review queue entry invalid: "@,
            review::target_fault(e.target),
        )
    } else if e.review_generation == 0 {
        Some(
            Fault::StateCorrupt {
                path: "<review-queue>"@,
                message: "review queue entry "@ + key + " has review_generation 0"@,
            },
        )
    } else {
        None
    }
}

/// The first broken rule among the entries from position `i` on.
pub open spec fn entries_fault(entries: Seq<(String, ReviewQueueEntry)>, i: int) -> Option<Fault>
    decreases entries.len() - i,
{
    if i < 0 || i >= entries.len() {
        None
    } else {
        review::or_fault(
            entry_fault(entries[i].0@, entries[i].1@),
            entries_fault(entries, i + 1),
        )
    }
}

/// The entries as a map; of entries under one key the last counts.
pub open spec fn entry_map(entries: Seq<(String, ReviewQueueEntry)>) -> ReviewQueueMap
    decreases entries.len(),
{
    if entries.len() == 0 {
        Map::empty()
    } else {
        entry_map(entries.drop_last()).insert(entries.last().0@, entries.last().1@)
    }
}

/// What a review queue file holds, or why it is refused.
pub open spec fn queue_of(read: Result<ReviewQueueFile, String>) -> Result<ReviewQueueMap, Fault> {
    match read {
        Err(e) => Err(
            Fault::StateCorrupt {
                path: "<review-queue>"@,
                message: "review queue JSON parse: "@ + e@,
            },
        ),
        Ok(f) => match review::or_fault(
            super::version_fault("<review-queue>"@, f.version, REVIEW_QUEUE_FILE_VERSION),
            entries_fault(f.entries@, 0),
        ) {
            Some(fault) => Err(fault),
            None => Ok(entry_map(f.entries@)),
        },
    }
}

/// Validate a review queue file. `read` is an error, with the decoder's
/// message, when the text is no such file.
pub fn parse_review_queue_state(read: Result<ReviewQueueFile, String>) -> (r: Result<
    ReviewQueueState,
    CaduceusError,
>)
    ensures
        crate::error::seen(r) == queue_of(read),
        r matches Ok(q) ==> q.version == REVIEW_QUEUE_FILE_VERSION && q.entries.wf()
            && targets_match(q@),
{
    let scope = "<review-queue>";
    let file = match read {
        Ok(f) => f,
        Err(e) => {
            return Err(
                crate::error::corrupt(scope, text::cat("review queue JSON parse: ", e.as_str())),
            );
        },
    };
    match super::require_review_file_version(scope, file.version, REVIEW_QUEUE_FILE_VERSION) {
        Err(e) => return Err(e),
        Ok(()) => {},
    }
    let mut entries: StringMap<ReviewQueueEntry> = StringMap::new();
    let mut i: usize = 0;
    while i < file.entries.len()
        invariant
            scope@ == "<review-queue>"@,
            read matches Ok(f) && f == file,
            file.version == REVIEW_QUEUE_FILE_VERSION,
            i <= file.entries.len(),
            entries.wf(),
            entries.keys.len() <= i,
            entries@ == entry_map(file.entries@.take(i as int)),
            targets_match(entries@),
            entries_fault(file.entries@, 0) == entries_fault(file.entries@, i as int),
        decreases file.entries.len() - i,
    {
        let pair = &file.entries[i];
        let expected = super::review_queue_key(&pair.1.target);
        if !text::same(pair.0.as_str(), expected.as_str()) {
            let mut m = text::cat("review queue map key ", text::quoted(pair.0.as_str()).as_str());
            m.append(" does not match entry ");
            m.append(expected.as_str());
            return Err(crate::error::corrupt(scope, m));
        }
        match review::validate_review_target(&pair.1.target) {
            Ok(()) => {},
            Err(e) => {
                return Err(
                    crate::error::corrupt(
                        scope,
                        text::cat("review queue entry invalid: ", e.message_text().as_str()),
                    ),
                );
            },
        }
        if pair.1.review_generation == 0 {
            let mut m = text::cat("review queue entry ", pair.0.as_str());
            m.append(" has review_generation 0");
            return Err(crate::error::corrupt(scope, m));
        }
        entries.insert(pair.0.clone(), pair.1.clone());
        proof {
            let taken = file.entries@.take(i + 1);
            assert(taken.drop_last() =~= file.entries@.take(i as int));
            assert(taken.last() == file.entries@[i as int]);
        }
        i += 1;
    }
    proof {
        assert(file.entries@.take(i as int) =~= file.entries@);
    }
    Ok(ReviewQueueState { version: REVIEW_QUEUE_FILE_VERSION, entries })
}

/// The rule that a state under `key` breaks.
pub open spec fn keyed_state_fault(key: Seq<char>, s: StateView) -> Option<Fault> {
    let expected = super::state_key(s.repository, s.pull_request);
    if key != expected {
        Some(
            Fault::StateCorrupt {
                path: "<review-state>"@,
                message: "review state map key "@ + text::quote(key) + " does not match entry "@
                    + expected,
            },
        )
    } else {
        super::stored_state_fault(s)
    }
}

/// The first broken rule among the states from position `i` on.
pub open spec fn states_fault(states: Seq<(String, ReviewState)>, i: int) -> Option<Fault>
    decreases states.len() - i,
{
    if i < 0 || i >= states.len() {
        None
    } else {
        review::or_fault(
            keyed_state_fault(states[i].0@, states[i].1@),
            states_fault(states, i + 1),
        )
    }
}

/// The states as a map; of states under one key the last counts.
pub open spec fn state_map(states: Seq<(String, ReviewState)>) -> ReviewStates
    decreases states.len(),
{
    if states.len() == 0 {
        Map::empty()
    } else {
        state_map(states.drop_last()).insert(states.last().0@, states.last().1@)
    }
}

/// What a review state file holds, or why it is refused.
pub open spec fn states_of(read: Result<ReviewStateFile, String>) -> Result<ReviewStates, Fault> {
    match read {
        Err(e) => Err(
            Fault::StateCorrupt {
                path: "<review-state>"@,
                message: "review state JSON parse: "@ + e@,
            },
        ),
        Ok(f) => match review::or_fault(
            super::version_fault("<review-state>"@, f.version, REVIEW_STATE_FILE_VERSION),
            states_fault(f.states@, 0),
        ) {
            Some(fault) => Err(fault),
            None => Ok(state_map(f.states@)),
        },
    }
}

/// Validate a review state file.
pub fn parse_review_state_map(read: Result<ReviewStateFile, String>) -> (r: Result<
    ReviewStateMap,
    CaduceusError,
>)
    ensures
        crate::error::seen(r) == states_of(read),
        r matches Ok(m) ==> m.wf(),
{
    let scope = "<review-state>";
    let file = match read {
        Ok(f) => f,
        Err(e) => {
            return Err(
                crate::error::corrupt(scope, text::cat("review state JSON parse: ", e.as_str())),
            );
        },
    };
    match super::require_review_file_version(scope, file.version, REVIEW_STATE_FILE_VERSION) {
        Err(e) => return Err(e),
        Ok(()) => {},
    }
    let mut states: StringMap<ReviewState> = StringMap::new();
    let mut i: usize = 0;
    while i < file.states.len()
        invariant
            scope@ == "<review-state>"@,
            read matches Ok(f) && f == file,
            file.version == REVIEW_STATE_FILE_VERSION,
            i <= file.states.len(),
            states.wf(),
            states.keys.len() <= i,
            states@ == state_map(file.states@.take(i as int)),
            states_match(states@),
            states_fault(file.states@, 0) == states_fault(file.states@, i as int),
        decreases file.states.len() - i,
    {
        let pair = &file.states[i];
        let expected = super::review_state_key(&pair.1.repository, pair.1.pull_request);
        if !text::same(pair.0.as_str(), expected.as_str()) {
            let mut m = text::cat("review state map key ", text::quoted(pair.0.as_str()).as_str());
            m.append(" does not match entry ");
            m.append(expected.as_str());
            return Err(crate::error::corrupt(scope, m));
        }
        match super::validated_review_state(&pair.1) {
            Err(e) => return Err(e),
            Ok(()) => {},
        }
        states.insert(pair.0.clone(), pair.1.clone());
        proof {
            let taken = file.states@.take(i + 1);
            assert(taken.drop_last() =~= file.states@.take(i as int));
            assert(taken.last() == file.states@[i as int]);
        }
        i += 1;
    }
    proof {
        assert(file.states@.take(i as int) =~= file.states@);
    }
    Ok(ReviewStateMap { version: REVIEW_STATE_FILE_VERSION, states })
}

/// The first broken rule among the rows from position `i` on.
pub open spec fn rows_fault(rows: Seq<ReadRow>, i: int) -> Option<Fault>
    decreases rows.len() - i,
{
    if i < 0 || i >= rows.len() {
        None
    } else {
        review::or_fault(super::row_fault(rows[i].row@, rows[i].decoded), rows_fault(rows, i + 1))
    }
}

/// Rows that were read, by their views.
pub open spec fn read_rows(rows: Seq<ReadRow>) -> Seq<RowView> {
    rows.map_values(|r: ReadRow| r.row@)
}

/// What a review history file holds, or why it is refused.
pub open spec fn history_of(read: Result<ReviewHistoryRead, String>) -> Result<Seq<RowView>, Fault> {
    match read {
        Err(e) => Err(
            Fault::StateCorrupt {
                path: "<review-history>"@,
                message: "review history JSON parse: "@ + e@,
            },
        ),
        Ok(f) => match review::or_fault(
            super::version_fault("<review-history>"@, f.version, REVIEW_HISTORY_FILE_VERSION),
            rows_fault(f.rows@, 0),
        ) {
            Some(fault) => Err(fault),
            None => Ok(read_rows(f.rows@)),
        },
    }
}

/// Validate a review history file; the row order is kept.
pub fn parse_review_history(read: Result<ReviewHistoryRead, String>) -> (r: Result<
    ReviewHistoryFile,
    CaduceusError,
>)
    ensures
        crate::error::seen(r) == history_of(read),
        r matches Ok(h) ==> h.version == REVIEW_HISTORY_FILE_VERSION,
{
    let scope = "<review-history>";
    let file = match read {
        Ok(f) => f,
        Err(e) => {
            return Err(
                crate::error::corrupt(scope, text::cat("review history JSON parse: ", e.as_str())),
            );
        },
    };
    match super::require_review_file_version(scope, file.version, REVIEW_HISTORY_FILE_VERSION) {
        Err(e) => return Err(e),
        Ok(()) => {},
    }
    let mut rows: Vec<ReviewHistoryRow> = Vec::new();
    let mut i: usize = 0;
    proof {
        assert(row_views(rows@) =~= read_rows(file.rows@).take(0));
    }
    while i < file.rows.len()
        invariant
            read matches Ok(f) && f == file,
            file.version == REVIEW_HISTORY_FILE_VERSION,
            i <= file.rows.len(),
            row_views(rows@) == read_rows(file.rows@).take(i as int),
            rows_fault(file.rows@, 0) == rows_fault(file.rows@, i as int),
        decreases file.rows.len() - i,
    {
        match super::validate_history_row(&file.rows[i].row, &file.rows[i].decoded) {
            Err(e) => return Err(e),
            Ok(()) => {},
        }
        let ghost before = rows@;
        rows.push(file.rows[i].row.clone());
        proof {
            assert(row_views(rows@) =~= row_views(before).push(file.rows@[i as int].row@));
            assert(read_rows(file.rows@).take(i + 1) =~= read_rows(file.rows@).take(
                i as int,
            ).push(file.rows@[i as int].row@));
        }
        i += 1;
    }
    proof {
        assert(read_rows(file.rows@).take(i as int) =~= read_rows(file.rows@));
    }
    Ok(ReviewHistoryFile { version: REVIEW_HISTORY_FILE_VERSION, rows })
}

// ---------------------------------------------------------------------------
// Transitions
// ---------------------------------------------------------------------------

impl ReviewEntryView {
    /// A newly admitted target.
    pub open spec fn admitted(target: TargetView, generation: u64, now: Timestamp) -> ReviewEntryView {
        ReviewEntryView {
            target,
            phase: ReviewPhase::Queued,
            attempts: 0,
            last_error: None,
            last_run_id: None,
            next_attempt_at: None,
            queued_at: now,
            updated_at: now,
            review_generation: generation,
        }
    }

    /// Claimed by a run.
    pub open spec fn claimed(self, run_id: Seq<char>, now: Timestamp) -> ReviewEntryView {
        ReviewEntryView {
            phase: ReviewPhase::InProgress,
            last_run_id: Some(run_id),
            updated_at: now,
            ..self
        }
    }

    /// Finished in `phase`, for `reason` if there is one.
    pub open spec fn ended(
        self,
        phase: ReviewPhase,
        reason: Option<Seq<char>>,
        now: Timestamp,
    ) -> ReviewEntryView {
        ReviewEntryView {
            phase,
            last_error: reason,
            last_run_id: None,
            next_attempt_at: None,
            updated_at: now,
            ..self
        }
    }

    /// Number of attempts once one more has failed.
    pub open spec fn attempts_after_failure(self) -> u32 {
        if self.attempts == u32::MAX {
            u32::MAX
        } else {
            (self.attempts + 1) as u32
        }
    }

    /// The phase after one more failed attempt.
    pub open spec fn phase_after_failure(self, budget: u32) -> ReviewPhase {
        if self.attempts_after_failure() >= budget {
            ReviewPhase::Failed
        } else {
            ReviewPhase::Queued
        }
    }

    /// After one more failed attempt.
    pub open spec fn retried(self, error: Seq<char>, budget: u32, now: Timestamp) -> ReviewEntryView {
        ReviewEntryView {
            attempts: self.attempts_after_failure(),
            last_error: Some(error),
            last_run_id: None,
            phase: self.phase_after_failure(budget),
            next_attempt_at: if self.attempts_after_failure() >= budget {
                None
            } else {
                Some(now.plus(REVIEW_RETRY_BACKOFF_SECONDS as int))
            },
            updated_at: now,
            ..self
        }
    }
}

impl StateView {
    /// A new generation is admitted: publication starts over, without the
    /// debt of the generation before.
    pub open spec fn readmitted(self) -> StateView {
        StateView {
            review_generation: (self.review_generation + 1) as u64,
            publication_state: PublicationState::Pending,
            next_publish_at: None,
            last_publish_error: None,
            ..self
        }
    }
}

/// The review store as mathematical values.
pub struct ReviewStoreView {
    pub state_dir: Seq<char>,
    pub claims_dir: Seq<char>,
    pub queue: ReviewQueueMap,
    pub states: ReviewStates,
    pub history: Seq<RowView>,
}

/// The three stores and where they live.
pub struct ReviewStore {
    pub state_dir: String,
    pub claims_dir: String,
    pub queue: ReviewQueueState,
    pub states: ReviewStateMap,
    pub history: ReviewHistoryFile,
}

impl View for ReviewStore {
    type V = ReviewStoreView;

    open spec fn view(&self) -> ReviewStoreView {
        ReviewStoreView {
            state_dir: self.state_dir@,
            claims_dir: self.claims_dir@,
            queue: self.queue@,
            states: self.states@,
            history: self.history@,
        }
    }
}

/// The store over the three files, or the first fault among them.
pub open spec fn opened(
    state_dir: Seq<char>,
    queue: Option<Result<ReviewQueueFile, String>>,
    states: Option<Result<ReviewStateFile, String>>,
    history: Option<Result<ReviewHistoryRead, String>>,
) -> Result<ReviewStoreView, Fault> {
    let queue = match queue {
        None => Ok(Map::empty()),
        Some(f) => queue_of(f),
    };
    let states = match states {
        None => Ok(Map::empty()),
        Some(f) => states_of(f),
    };
    let history = match history {
        None => Ok(Seq::empty()),
        Some(f) => history_of(f),
    };
    match (queue, states, history) {
        (Err(f), _, _) => Err(f),
        (_, Err(f), _) => Err(f),
        (_, _, Err(f)) => Err(f),
        (Ok(queue), Ok(states), Ok(history)) => Ok(
            ReviewStoreView {
                state_dir,
                claims_dir: path::joined(state_dir, REVIEW_CLAIMS_DIRNAME@),
                queue,
                states,
                history,
            },
        ),
    }
}

/// The state that an admission of `t` leaves for its pull request.
pub open spec fn admitted_state(states: ReviewStates, t: TargetView) -> StateView {
    let k = super::state_key(t.repository, t.pull_request);
    if states.contains_key(k) {
        states[k].readmitted()
    } else {
        StateView::fresh(t.repository, t.pull_request, 1)
    }
}

impl ReviewStoreView {
    /// The target is in flight.
    pub open spec fn in_flight(self, t: TargetView) -> bool {
        let k = super::queue_key(t);
        self.queue.contains_key(k) && self.queue[k].phase.active()
    }

    /// The store once `t` is admitted.
    pub open spec fn with_admitted(self, t: TargetView, now: Timestamp) -> ReviewStoreView {
        let s = admitted_state(self.states, t);
        ReviewStoreView {
            queue: self.queue.insert(
                super::queue_key(t),
                ReviewEntryView::admitted(t, s.review_generation, now),
            ),
            states: self.states.insert(super::state_key(t.repository, t.pull_request), s),
            ..self
        }
    }

    /// The store with another queue.
    pub open spec fn with_queue(self, queue: ReviewQueueMap) -> ReviewStoreView {
        ReviewStoreView { queue, ..self }
    }
}

/// The token is the one under which the entry `e`, under the key `k`, was
/// claimed.
pub open spec fn matches(k: Seq<char>, e: ReviewEntryView, t: ReviewTokenView) -> bool {
    &&& e.phase == ReviewPhase::InProgress
    &&& e.last_run_id == Some(t.run_id)
    &&& digest::text_digest(k) == t.digest
}

/// The key of the entry that the token claims.
pub open spec fn token_key(m: ReviewQueueMap, t: ReviewTokenView) -> Option<Seq<char>> {
    ordered::least(m, |k: Seq<char>, e: ReviewEntryView| matches(k, e, t))
}

/// The error for a token that matches no review in progress.
pub open spec fn mismatch(t: ReviewTokenView) -> Fault {
    Fault::Queue {
        context: "review-claim-terminal-mismatch"@,
        stderr: "review claim token run_id "@ + text::quote(t.run_id) + " digest "@ + t.digest
            + " does not match any in-progress review entry"@,
    }
}

/// Queued, and not held back by a delay.
pub open spec fn eligible(e: ReviewEntryView, now: Timestamp) -> bool {
    &&& e.phase == ReviewPhase::Queued
    &&& match e.next_attempt_at {
        Some(t) => t.le(now),
        None => true,
    }
}

/// The entry under `k` may be claimed.
pub open spec fn claimable(
    m: ReviewQueueMap,
    now: Timestamp,
    taken: Seq<Seq<char>>,
    k: Seq<char>,
) -> bool {
    m.contains_key(k) && eligible(m[k], now) && !taken.contains(digest::text_digest(k))
}

/// `k` was queued before `j`, or at the same time with a lesser key.
pub open spec fn precedes(m: ReviewQueueMap, k: Seq<char>, j: Seq<char>) -> bool {
    m[k].queued_at.lt(m[j].queued_at) || (m[k].queued_at == m[j].queued_at && text::str_lt(k, j))
}

/// `k` is the oldest claimable entry.
pub open spec fn is_next(
    m: ReviewQueueMap,
    now: Timestamp,
    taken: Seq<Seq<char>>,
    k: Seq<char>,
) -> bool {
    &&& claimable(m, now, taken, k)
    &&& forall|j: Seq<char>|
        #[trigger] claimable(m, now, taken, j) ==> j == k || precedes(m, k, j)
}

/// The oldest claimable entry, if there is one.
pub open spec fn next_key(m: ReviewQueueMap, now: Timestamp, taken: Seq<Seq<char>>) -> Option<
    Seq<char>,
> {
    if exists|k: Seq<char>| is_next(m, now, taken, k) {
        Some(choose|k: Seq<char>| is_next(m, now, taken, k))
    } else {
        None
    }
}

/// Only one entry is the oldest.
pub proof fn lemma_next(m: ReviewQueueMap, now: Timestamp, taken: Seq<Seq<char>>, k: Seq<char>)
    requires
        is_next(m, now, taken, k),
    ensures
        next_key(m, now, taken) == Some(k),
{
    let c = choose|c: Seq<char>| is_next(m, now, taken, c);
    if c != k {
        assert(claimable(m, now, taken, c) && claimable(m, now, taken, k));
        text::lemma_str_lt_total(c, k);
    }
}

/// The rule that a run id breaks.
pub open spec fn run_id_fault(run_id: Seq<char>) -> Option<Fault> {
    if run_id.len() == 0 || text::utf8_len(run_id) > 64 {
        Some(
            Fault::Queue {
                context: "review-claim"@,
                stderr: "invalid run_id: must be non-empty and at most 64 bytes (got "@ + text::dec(
                    text::utf8_len(run_id),
                ) + ")"@,
            },
        )
    } else {
        None
    }
}

/// The error for a write of an older generation.
pub open spec fn regression(key: Seq<char>, stored: u64, incoming: u64) -> Fault {
    Fault::StateCorrupt {
        path: "<review-state>"@,
        message: "review_generation regression for "@ + key + ": stored "@ + text::dec(
            stored as nat,
        ) + ", incoming "@ + text::dec(incoming as nat),
    }
}

/// The states once `s` is saved, or why it is refused: a state of an older
/// generation never replaces a newer one.
pub open spec fn saved(m: ReviewStates, s: StateView) -> Result<ReviewStates, Fault> {
    let k = super::state_key(s.repository, s.pull_request);
    match super::stored_state_fault(s) {
        Some(f) => Err(f),
        None => if m.contains_key(k) && s.review_generation < m[k].review_generation {
            Err(regression(k, m[k].review_generation, s.review_generation))
        } else {
            Ok(m.insert(k, s))
        },
    }
}

/// The row belongs to the repository, whatever the case of its names.
pub open spec fn of_repository(r: RowView, repo: RepositoryView) -> bool {
    text::lowercase(r.repository.owner) == text::lowercase(repo.owner) && text::lowercase(
        r.repository.repo,
    ) == text::lowercase(repo.repo)
}

/// The row belongs to the pull request.
pub open spec fn of_pull_request(r: RowView, repo: RepositoryView, pr: u64) -> bool {
    of_repository(r, repo) && r.pull_request == pr
}

/// Some row records the run.
pub open spec fn has_run(rows: Seq<RowView>, run_id: Seq<char>) -> bool {
    exists|i: int| 0 <= i < rows.len() && (#[trigger] rows[i]).review_run_id == run_id
}

impl ReviewStore {
    pub open spec fn wf(&self) -> bool {
        &&& self.queue.version == REVIEW_QUEUE_FILE_VERSION
        &&& self.queue.entries.wf()
        &&& targets_match(self.queue@)
        &&& self.states.wf()
        &&& self.history.version == REVIEW_HISTORY_FILE_VERSION
    }

    /// A store over the three files in `state_dir`; a missing file is empty.
    pub fn open(
        state_dir: &str,
        queue: Option<Result<ReviewQueueFile, String>>,
        states: Option<Result<ReviewStateFile, String>>,
        history: Option<Result<ReviewHistoryRead, String>>,
    ) -> (r: Result<ReviewStore, CaduceusError>)
        ensures
            crate::error::seen(r) == opened(state_dir@, queue, states, history),
            r matches Ok(s) ==> s.wf(),
    {
        let queue = match queue {
            None => ReviewQueueState::empty(),
            Some(f) => match parse_review_queue_state(f) {
                Ok(q) => q,
                Err(e) => {
                    return Err(e);
                },
            },
        };
        let states = match states {
            None => ReviewStateMap::empty(),
            Some(f) => match parse_review_state_map(f) {
                Ok(m) => m,
                Err(e) => {
                    return Err(e);
                },
            },
        };
        let history = match history {
            None => ReviewHistoryFile::empty(),
            Some(f) => match parse_review_history(f) {
                Ok(h) => h,
                Err(e) => {
                    return Err(e);
                },
            },
        };
        Ok(
            ReviewStore {
                state_dir: state_dir.to_owned(),
                claims_dir: path::join(state_dir, REVIEW_CLAIMS_DIRNAME),
                queue,
                states,
                history,
            },
        )
    }

    /// Directory of the store.
    pub fn state_dir(&self) -> (r: String)
        ensures
            r@ == self@.state_dir,
    {
        self.state_dir.clone()
    }

    /// Directory of the review claim files.
    pub fn claims_dir(&self) -> (r: String)
        ensures
            r@ == self@.claims_dir,
    {
        self.claims_dir.clone()
    }

    /// The review queue as it stands.
    pub fn review_queue_snapshot(&self) -> (r: &ReviewQueueState)
        ensures
            r@ == self@.queue,
    {
        &self.queue
    }

    /// Admit a review target: queue it under the next generation of its pull
    /// request and start its publication over. A target in flight is left
    /// alone.
    pub fn enqueue_review(&mut self, target: &ReviewTarget, now: Timestamp) -> (r: Result<
        ReviewEnqueueOutcome,
        CaduceusError,
    >)
        requires
            old(self).wf(),
            old(self).queue.entries.keys.len() < usize::MAX,
            old(self).states.states.keys.len() < usize::MAX,
            ({
                let k = super::state_key(target@.repository, target@.pull_request);
                old(self)@.states.contains_key(k) ==> old(self)@.states[k].review_generation
                    < u64::MAX
            }),
        ensures
            final(self).wf(),
            match r {
                Ok(ReviewEnqueueOutcome::AlreadyPresent) => {
                    &&& review::target_fault(target@) is None
                    &&& old(self)@.in_flight(target@)
                    &&& final(self)@ == old(self)@
                },
                Ok(ReviewEnqueueOutcome::Inserted) => {
                    &&& review::target_fault(target@) is None
                    &&& !old(self)@.in_flight(target@)
                    &&& final(self)@ == old(self)@.with_admitted(target@, now)
                },
                Err(e) => review::target_fault(target@) == Some(e@) && final(self)@ == old(self)@,
            },
    {
        match review::validate_review_target(target) {
            Err(e) => return Err(e),
            Ok(()) => {},
        }
        let key = super::review_queue_key(target);
        match self.queue.entries.get(key.as_str()) {
            Some(existing) => {
                if existing.phase.is_active() {
                    return Ok(ReviewEnqueueOutcome::AlreadyPresent);
                }
            },
            None => {},
        }
        let state_key = super::review_state_key(&target.repository, target.pull_request);
        let generation: u64 = match self.states.states.position(state_key.as_str()) {
            Some(i) => {
                let mut s = self.states.states.values[i].clone();
                s.review_generation = s.review_generation + 1;
                s.publication_state = PublicationState::Pending;
                s.next_publish_at = None;
                s.last_publish_error = None;
                let g = s.review_generation;
                proof {
                    self.states.states.lemma_at(i as int);
                }
                self.states.states.set_value(i, s);
                g
            },
            None => {
                let fresh = ReviewState::new(target.repository.clone(), target.pull_request, 1);
                self.states.states.insert(state_key, fresh);
                1
            },
        };
        let entry = ReviewQueueEntry {
            target: target.clone(),
            phase: ReviewPhase::Queued,
            attempts: 0,
            last_error: None,
            last_run_id: None,
            next_attempt_at: None,
            queued_at: now,
            updated_at: now,
            review_generation: generation,
        };
        self.queue.entries.insert(key, entry);
        Ok(ReviewEnqueueOutcome::Inserted)
    }

    /// Position of the oldest entry that can be claimed; `taken` lists the
    /// digests whose claim files exist already.
    pub fn next_candidate(&self, now: Timestamp, taken: &Vec<String>) -> (r: Option<usize>)
        requires
            self.wf(),
        ensures
            match r {
                Some(i) => i < self.queue.entries.keys.len() && next_key(
                    self@.queue,
                    now,
                    text::texts(taken@),
                ) == Some(self.queue.entries.keys@[i as int]@),
                None => {
                    &&& next_key(self@.queue, now, text::texts(taken@)) is None
                    &&& forall|k: Seq<char>| !#[trigger]
                        claimable(self@.queue, now, text::texts(taken@), k)
                },
            },
    {
        let ghost m = self@.queue;
        let ghost lost = text::texts(taken@);
        let mut best: Option<usize> = None;
        let mut i: usize = 0;
        while i < self.queue.entries.len()
            invariant
                self.wf(),
                m == self@.queue,
                lost == text::texts(taken@),
                i <= self.queue.entries.keys.len(),
                match best {
                    Some(b) => {
                        &&& b < i
                        &&& claimable(m, now, lost, self.queue.entries.keys@[b as int]@)
                        &&& forall|j: int|
                            0 <= j < i && j != b && claimable(
                                m,
                                now,
                                lost,
                                #[trigger] self.queue.entries.keys@[j]@,
                            ) ==> precedes(
                                m,
                                self.queue.entries.keys@[b as int]@,
                                self.queue.entries.keys@[j]@,
                            )
                    },
                    None => forall|j: int|
                        0 <= j < i ==> !claimable(m, now, lost, #[trigger] self.queue.entries.keys@[j]@),
                },
            decreases self.queue.entries.keys.len() - i,
        {
            let e = &self.queue.entries.values[i];
            proof {
                self.queue.entries.lemma_at(i as int);
            }
            let waits = match e.next_attempt_at {
                Some(t) => now.is_before(&t),
                None => false,
            };
            if e.phase == ReviewPhase::Queued && !waits {
                let d = super::review_claim_digest(self.queue.entries.keys[i].as_str());
                if !text::member(taken, d.as_str()) {
                    match best {
                        Some(b) => {
                            proof {
                                self.queue.entries.lemma_at(b as int);
                            }
                            let first = &self.queue.entries.values[b];
                            if e.queued_at.is_before(&first.queued_at) {
                                proof {
                                    assert forall|j: int|
                                        0 <= j < i + 1 && j != i && claimable(
                                            m,
                                            now,
                                            lost,
                                            #[trigger] self.queue.entries.keys@[j]@,
                                        ) implies precedes(
                                        m,
                                        self.queue.entries.keys@[i as int]@,
                                        self.queue.entries.keys@[j]@,
                                    ) by {
                                        self.queue.entries.lemma_at(j);
                                    }
                                }
                                best = Some(i);
                            } else {
                                proof {
                                    assert(text::str_lt(
                                        self.queue.entries.keys@[b as int]@,
                                        self.queue.entries.keys@[i as int]@,
                                    ));
                                }
                            }
                        },
                        None => {
                            best = Some(i);
                        },
                    }
                }
            }
            i += 1;
        }
        proof {
            match best {
                Some(b) => {
                    let k = self.queue.entries.keys@[b as int]@;
                    assert forall|j: Seq<char>| #[trigger] claimable(m, now, lost, j) implies j == k
                        || precedes(m, k, j) by {
                        let c = self.queue.entries.lemma_position(j);
                        assert(self.queue.entries.keys@[c]@ == j);
                    }
                    lemma_next(m, now, lost, k);
                },
                None => {
                    assert forall|k: Seq<char>| !#[trigger] claimable(m, now, lost, k) by {
                        if claimable(m, now, lost, k) {
                            let c = self.queue.entries.lemma_position(k);
                            assert(self.queue.entries.keys@[c]@ == k);
                        }
                    }
                },
            }
        }
        best
    }

    /// Put `entry` in the place of the one at position `i`, of the same target.
    fn replace(&mut self, i: usize, entry: ReviewQueueEntry)
        requires
            old(self).wf(),
            i < old(self).queue.entries.keys.len(),
            entry@.target == old(self).queue.entries.values@[i as int]@.target,
        ensures
            final(self).wf(),
            final(self)@ == old(self)@.with_queue(
                old(self)@.queue.insert(old(self).queue.entries.keys@[i as int]@, entry@),
            ),
    {
        proof {
            self.queue.entries.lemma_at(i as int);
        }
        self.queue.entries.set_value(i, entry);
    }

    /// A copy of the entry at position `i`.
    fn copy_of(&self, i: usize) -> (r: ReviewQueueEntry)
        requires
            self.wf(),
            i < self.queue.entries.keys.len(),
        ensures
            r@ == self@.queue[self.queue.entries.keys@[i as int]@],
            r == self.queue.entries.values@[i as int],
    {
        proof {
            self.queue.entries.lemma_at(i as int);
        }
        self.queue.entries.values[i].clone()
    }

    /// Claim the oldest review that can be claimed for the run `run_id`.
    /// `taken` lists the digests whose claim files exist already.
    pub fn acquire_next_review(&mut self, run_id: &str, now: Timestamp, taken: &Vec<String>) -> (r:
        Result<Option<ClaimedReview>, CaduceusError>)
        requires
            old(self).wf(),
        ensures
            final(self).wf(),
            match run_id_fault(run_id@) {
                Some(f) => (r matches Err(e) && e@ == f) && final(self)@ == old(self)@,
                None => match next_key(old(self)@.queue, now, text::texts(taken@)) {
                    Some(k) => {
                        &&& r matches Ok(Some(c)) && c.entry@ == old(self)@.queue[k].claimed(
                            run_id@,
                            now,
                        ) && c.claim@ == (ReviewTokenView {
                            claims_dir: old(self)@.claims_dir,
                            digest: digest::text_digest(k),
                            run_id: run_id@,
                        })
                        &&& final(self)@ == old(self)@.with_queue(
                            old(self)@.queue.insert(k, old(self)@.queue[k].claimed(run_id@, now)),
                        )
                    },
                    None => (r matches Ok(None)) && final(self)@ == old(self)@,
                },
            },
    {
        let n = text::byte_len(run_id);
        if run_id.is_empty() || n > 64 {
            let mut m = text::cat(
                "invalid run_id: must be non-empty and at most 64 bytes (got ",
                text::decimal(n as u64).as_str(),
            );
            m.append(")");
            return Err(CaduceusError::Queue { context: "review-claim", stderr: m });
        }
        match self.next_candidate(now, taken) {
            None => Ok(None),
            Some(i) => {
                let d = super::review_claim_digest(self.queue.entries.keys[i].as_str());
                let mut e = self.copy_of(i);
                e.phase = ReviewPhase::InProgress;
                e.last_run_id = Some(run_id.to_owned());
                e.updated_at = now;
                let entry = e.clone();
                self.replace(i, e);
                Ok(
                    Some(
                        ClaimedReview {
                            entry,
                            claim: ReviewClaimToken::new(
                                self.claims_dir.clone(),
                                d,
                                run_id.to_owned(),
                            ),
                        },
                    ),
                )
            },
        }
    }

    /// Position of the entry that the token claims.
    fn review_entry_for_claim(&self, claim: &ReviewClaimToken) -> (r: Option<usize>)
        requires
            self.wf(),
        ensures
            match r {
                Some(i) => i < self.queue.entries.keys.len() && token_key(self@.queue, claim@)
                    == Some(self.queue.entries.keys@[i as int]@),
                None => token_key(self@.queue, claim@) is None,
            },
    {
        let ghost p = |k: Seq<char>, e: ReviewEntryView| matches(k, e, claim@);
        let mut i: usize = 0;
        while i < self.queue.entries.len()
            invariant
                self.wf(),
                i <= self.queue.entries.keys.len(),
                p == (|k: Seq<char>, e: ReviewEntryView| matches(k, e, claim@)),
                forall|j: int|
                    0 <= j < i ==> !p(
                        #[trigger] self.queue.entries.keys@[j]@,
                        self.queue.entries.values@[j]@,
                    ),
            decreases self.queue.entries.keys.len() - i,
        {
            let e = &self.queue.entries.values[i];
            let mut hit = false;
            if e.phase == ReviewPhase::InProgress && text::opt_is(&e.last_run_id, claim.run_id()) {
                let d = super::review_claim_digest(self.queue.entries.keys[i].as_str());
                hit = text::same(d.as_str(), claim.digest());
            }
            if hit {
                proof {
                    self.queue.entries.lemma_first(i as int, p);
                }
                return Some(i);
            }
            i += 1;
        }
        proof {
            self.queue.entries.lemma_no_first(p);
        }
        None
    }

    /// Finish a successful review.
    pub fn complete_review(&mut self, claim: ReviewClaimToken, now: Timestamp) -> (r: Result<
        (),
        CaduceusError,
    >)
        requires
            old(self).wf(),
        ensures
            final(self).wf(),
            ended(r, old(self)@, final(self)@, claim@, ReviewPhase::Done, None, now),
    {
        self.terminal_review(&claim, ReviewPhase::Done, None, now)
    }

    /// Skip the claimed review, for the operator's reason.
    pub fn skip_review(&mut self, claim: ReviewClaimToken, reason: &str, now: Timestamp) -> (r: Result<
        (),
        CaduceusError,
    >)
        requires
            old(self).wf(),
        ensures
            final(self).wf(),
            ended(r, old(self)@, final(self)@, claim@, ReviewPhase::Skipped, Some(reason@), now),
    {
        self.terminal_review(&claim, ReviewPhase::Skipped, Some(reason), now)
    }

    fn terminal_review(
        &mut self,
        claim: &ReviewClaimToken,
        phase: ReviewPhase,
        reason: Option<&str>,
        now: Timestamp,
    ) -> (r: Result<(), CaduceusError>)
        requires
            old(self).wf(),
        ensures
            final(self).wf(),
            ended(r, old(self)@, final(self)@, claim@, phase, text::opt_str(reason), now),
    {
        match self.review_entry_for_claim(claim) {
            None => Err(review_claim_mismatch(claim)),
            Some(i) => {
                let mut e = self.copy_of(i);
                e.phase = phase;
                e.last_error = match reason {
                    Some(s) => Some(s.to_owned()),
                    None => None,
                };
                e.last_run_id = None;
                e.next_attempt_at = None;
                e.updated_at = now;
                self.replace(i, e);
                Ok(())
            },
        }
    }

    /// Record a failed attempt of the claimed review: back to the queue with a
    /// delay while the budget lasts, failed once it is used up. Returns the new
    /// phase.
    pub fn retry_or_fail_review(
        &mut self,
        claim: ReviewClaimToken,
        error: &str,
        budget: u32,
        now: Timestamp,
    ) -> (r: Result<ReviewPhase, CaduceusError>)
        requires
            old(self).wf(),
            now.secs <= i64::MAX - REVIEW_RETRY_BACKOFF_SECONDS,
        ensures
            final(self).wf(),
            match r {
                Ok(phase) => {
                    &&& budget > 0
                    &&& token_key(old(self)@.queue, claim@) matches Some(k) && phase == old(
                        self,
                    )@.queue[k].phase_after_failure(budget) && final(self)@ == old(
                        self,
                    )@.with_queue(
                        old(self)@.queue.insert(
                            k,
                            old(self)@.queue[k].retried(error@, budget, now),
                        ),
                    )
                },
                Err(e) => {
                    &&& final(self)@ == old(self)@
                    &&& if budget == 0 {
                        e@ == Fault::Config("retry_or_fail_review budget must be > 0"@)
                    } else {
                        token_key(old(self)@.queue, claim@) is None && e@ == mismatch(claim@)
                    }
                },
            },
    {
        if budget == 0 {
            return Err(CaduceusError::Config("retry_or_fail_review budget must be > 0".to_owned()));
        }
        match self.review_entry_for_claim(&claim) {
            None => Err(review_claim_mismatch(&claim)),
            Some(i) => {
                let mut e = self.copy_of(i);
                e.attempts = e.attempts.saturating_add(1);
                e.last_error = Some(error.to_owned());
                e.last_run_id = None;
                if e.attempts >= budget {
                    e.phase = ReviewPhase::Failed;
                    e.next_attempt_at = None;
                } else {
                    e.phase = ReviewPhase::Queued;
                    e.next_attempt_at = Some(now.plus_seconds(REVIEW_RETRY_BACKOFF_SECONDS));
                }
                e.updated_at = now;
                let phase = e.phase;
                self.replace(i, e);
                Ok(phase)
            },
        }
    }

    /// Save the state of a pull request, unless it is of an older generation
    /// than the one stored.
    pub fn save_review_state(&mut self, state: &ReviewState) -> (r: Result<(), CaduceusError>)
        requires
            old(self).wf(),
            old(self).states.states.keys.len() < usize::MAX,
        ensures
            final(self).wf(),
            match saved(old(self)@.states, state@) {
                Ok(states) => r is Ok && final(self)@ == (ReviewStoreView { states, ..old(self)@ }),
                Err(f) => (r matches Err(e) && e@ == f) && final(self)@ == old(self)@,
            },
            final(self).states.states.keys.len() <= old(self).states.states.keys.len() + 1,
    {
        match super::validated_review_state(state) {
            Err(e) => return Err(e),
            Ok(()) => {},
        }
        let key = super::review_state_key(&state.repository, state.pull_request);
        match self.states.states.get(key.as_str()) {
            Some(existing) => {
                if state.review_generation < existing.review_generation {
                    let mut m = text::cat("review_generation regression for ", key.as_str());
                    m.append(": stored ");
                    m.append(text::decimal(existing.review_generation).as_str());
                    m.append(", incoming ");
                    m.append(text::decimal(state.review_generation).as_str());
                    return Err(crate::error::corrupt("<review-state>", m));
                }
            },
            None => {},
        }
        self.states.states.insert(key, state.clone());
        Ok(())
    }

    /// The state of a pull request.
    pub fn review_state(&self, repo: &RepositoryId, pr: u64) -> (r: Option<ReviewState>)
        requires
            self.wf(),
        ensures
            match r {
                Some(s) => self@.states.contains_key(super::state_key(repo@, pr)) && s@
                    == self@.states[super::state_key(repo@, pr)],
                None => !self@.states.contains_key(super::state_key(repo@, pr)),
            },
    {
        match self.states.states.get(super::review_state_key(repo, pr).as_str()) {
            Some(s) => Some(s.clone()),
            None => None,
        }
    }

    /// Is this very commit reviewed already, or in flight?
    pub fn is_active_or_reviewed(&self, target: &ReviewTarget) -> (r: Result<bool, CaduceusError>)
        requires
            self.wf(),
        ensures
            match r {
                Ok(b) => review::target_fault(target@) is None && b == already_seen(self@, target@),
                Err(e) => review::target_fault(target@) == Some(e@),
            },
    {
        match review::validate_review_target(target) {
            Err(e) => return Err(e),
            Ok(()) => {},
        }
        match self.queue.entries.get(super::review_queue_key(target).as_str()) {
            Some(e) => {
                if e.phase.is_active() {
                    return Ok(true);
                }
            },
            None => {},
        }
        let key = super::review_state_key(&target.repository, target.pull_request);
        Ok(
            match self.states.states.get(key.as_str()) {
                Some(s) => text::opt_is(&s.last_reviewed_head_sha, target.head_sha.as_str()),
                None => false,
            },
        )
    }

    /// Append a completed run. A run that is recorded already is refused.
    pub fn append_history(
        &mut self,
        row: ReviewHistoryRow,
        decoded: &Result<ReviewResult, String>,
    ) -> (r: Result<(), CaduceusError>)
        requires
            old(self).wf(),
        ensures
            final(self).wf(),
            match appended(old(self)@.history, row@, *decoded) {
                Ok(history) => r is Ok && final(self)@ == (ReviewStoreView {
                    history,
                    ..old(self)@
                }),
                Err(f) => (r matches Err(e) && e@ == f) && final(self)@ == old(self)@,
            },
    {
        match super::validate_history_row(&row, decoded) {
            Err(e) => return Err(e),
            Ok(()) => {},
        }
        let mut i: usize = 0;
        while i < self.history.rows.len()
            invariant
                *self == *old(self),
                self.wf(),
                i <= self.history.rows.len(),
                forall|j: int|
                    0 <= j < i ==> (#[trigger] self.history@[j]).review_run_id != row@.review_run_id,
                super::row_fault(row@, *decoded) is None,
            decreases self.history.rows.len() - i,
        {
            if text::same(
                self.history.rows[i].review_run_id.as_str(),
                row.review_run_id.as_str(),
            ) {
                proof {
                    assert(self.history@[i as int].review_run_id == row@.review_run_id);
                }
                let mut m = text::cat("duplicate review_run_id ", row.review_run_id.as_str());
                m.append(" — completed runs are never re-appended");
                return Err(crate::error::corrupt("<review-history>", m));
            }
            proof {
                assert(self.history@[i as int] == self.history.rows@[i as int]@);
            }
            i += 1;
        }
        let ghost before = self.history.rows@;
        self.history.rows.push(row);
        proof {
            assert(row_views(self.history.rows@) =~= row_views(before).push(row@));
        }
        Ok(())
    }

    /// The rows of a pull request, oldest first.
    pub fn history_for_pull_request(&self, repo: &RepositoryId, pr: u64) -> (r: Vec<
        ReviewHistoryRow,
    >)
        ensures
            row_views(r@) == self@.history.filter(|x: RowView| of_pull_request(x, repo@, pr)),
    {
        let owner = text::lowered(repo.owner.as_str());
        let name = text::lowered(repo.repo.as_str());
        let ghost p = |x: RowView| of_pull_request(x, repo@, pr);
        let mut out: Vec<ReviewHistoryRow> = Vec::new();
        let mut i: usize = 0;
        proof {
            reveal(Seq::filter);
            assert(row_views(out@) =~= self@.history.take(0).filter(p));
        }
        while i < self.history.rows.len()
            invariant
                i <= self.history.rows.len(),
                owner@ == text::lowercase(repo@.owner),
                name@ == text::lowercase(repo@.repo),
                p == (|x: RowView| of_pull_request(x, repo@, pr)),
                row_views(out@) == self@.history.take(i as int).filter(p),
            decreases self.history.rows.len() - i,
        {
            let row = &self.history.rows[i];
            let ghost before = out@;
            proof {
                reveal(Seq::filter);
                assert(self@.history.take(i + 1).drop_last() =~= self@.history.take(i as int));
                assert(self@.history.take(i + 1).last() == row@);
            }
            if row.pull_request == pr && row_of(row, owner.as_str(), name.as_str()) {
                out.push(row.clone());
                proof {
                    assert(row_views(out@) =~= row_views(before).push(row@));
                }
            }
            i += 1;
        }
        proof {
            assert(self@.history.take(i as int) =~= self@.history);
        }
        out
    }

    /// The rows of one commit of a pull request, oldest first; there may be
    /// several.
    pub fn history_for_head_sha(&self, repo: &RepositoryId, pr: u64, head_sha: &str) -> (r: Vec<
        ReviewHistoryRow,
    >)
        ensures
            row_views(r@) == self@.history.filter(
                |x: RowView| of_pull_request(x, repo@, pr),
            ).filter(|x: RowView| x.head_sha == head_sha@),
    {
        let rows = self.history_for_pull_request(repo, pr);
        let ghost all = row_views(rows@);
        let ghost p = |x: RowView| x.head_sha == head_sha@;
        let mut out: Vec<ReviewHistoryRow> = Vec::new();
        let mut i: usize = 0;
        proof {
            reveal(Seq::filter);
            assert(row_views(out@) =~= all.take(0).filter(p));
        }
        while i < rows.len()
            invariant
                i <= rows.len(),
                all == row_views(rows@),
                p == (|x: RowView| x.head_sha == head_sha@),
                row_views(out@) == all.take(i as int).filter(p),
            decreases rows.len() - i,
        {
            let ghost before = out@;
            proof {
                reveal(Seq::filter);
                assert(all.take(i + 1).drop_last() =~= all.take(i as int));
                assert(all.take(i + 1).last() == rows@[i as int]@);
            }
            if text::same(rows[i].head_sha.as_str(), head_sha) {
                out.push(rows[i].clone());
                proof {
                    assert(row_views(out@) =~= row_views(before).push(rows@[i as int]@));
                }
            }
            i += 1;
        }
        proof {
            assert(all.take(i as int) =~= all);
        }
        out
    }

    /// The rows of a repository, oldest first.
    pub fn history_for_repository(&self, repo: &RepositoryId) -> (r: Vec<ReviewHistoryRow>)
        ensures
            row_views(r@) == self@.history.filter(|x: RowView| of_repository(x, repo@)),
    {
        let owner = text::lowered(repo.owner.as_str());
        let name = text::lowered(repo.repo.as_str());
        let ghost p = |x: RowView| of_repository(x, repo@);
        let mut out: Vec<ReviewHistoryRow> = Vec::new();
        let mut i: usize = 0;
        proof {
            reveal(Seq::filter);
            assert(row_views(out@) =~= self@.history.take(0).filter(p));
        }
        while i < self.history.rows.len()
            invariant
                i <= self.history.rows.len(),
                owner@ == text::lowercase(repo@.owner),
                name@ == text::lowercase(repo@.repo),
                p == (|x: RowView| of_repository(x, repo@)),
                row_views(out@) == self@.history.take(i as int).filter(p),
            decreases self.history.rows.len() - i,
        {
            let row = &self.history.rows[i];
            let ghost before = out@;
            proof {
                reveal(Seq::filter);
                assert(self@.history.take(i + 1).drop_last() =~= self@.history.take(i as int));
                assert(self@.history.take(i + 1).last() == row@);
            }
            if row_of(row, owner.as_str(), name.as_str()) {
                out.push(row.clone());
                proof {
                    assert(row_views(out@) =~= row_views(before).push(row@));
                }
            }
            i += 1;
        }
        proof {
            assert(self@.history.take(i as int) =~= self@.history);
        }
        out
    }
}

/// The effect of ending a claimed review.
pub open spec fn ended(
    r: Result<(), CaduceusError>,
    before: ReviewStoreView,
    after: ReviewStoreView,
    t: ReviewTokenView,
    phase: ReviewPhase,
    reason: Option<Seq<char>>,
    now: Timestamp,
) -> bool {
    match token_key(before.queue, t) {
        None => (r matches Err(e) && e@ == mismatch(t)) && after == before,
        Some(k) => r is Ok && after == before.with_queue(
            before.queue.insert(k, before.queue[k].ended(phase, reason, now)),
        ),
    }
}

/// The target's commit is reviewed, or in flight.
pub open spec fn already_seen(s: ReviewStoreView, t: TargetView) -> bool {
    let k = super::state_key(t.repository, t.pull_request);
    s.in_flight(t) || (s.states.contains_key(k) && s.states[k].last_reviewed_head_sha == Some(
        t.head_sha,
    ))
}

/// The history once a row is appended, or why it is refused.
pub open spec fn appended(
    history: Seq<RowView>,
    row: RowView,
    decoded: Result<ReviewResult, String>,
) -> Result<Seq<RowView>, Fault> {
    match super::row_fault(row, decoded) {
        Some(f) => Err(f),
        None => if has_run(history, row.review_run_id) {
            Err(
                Fault::StateCorrupt {
                    path: "<review-history>"@,
                    message: "duplicate review_run_id "@ + row.review_run_id
                        + " — completed runs are never re-appended"@,
                },
            )
        } else {
            Ok(history.push(row))
        },
    }
}

fn row_of(row: &ReviewHistoryRow, owner: &str, name: &str) -> (r: bool)
    ensures
        r == (text::lowercase(row@.repository.owner) == owner@ && text::lowercase(
            row@.repository.repo,
        ) == name@),
{
    text::same(text::lowered(row.repository.owner.as_str()).as_str(), owner) && text::same(
        text::lowered(row.repository.repo.as_str()).as_str(),
        name,
    )
}

/// The error for a token that matches no review in progress.
pub fn review_claim_mismatch(claim: &ReviewClaimToken) -> (r: CaduceusError)
    ensures
        r@ == mismatch(claim@),
{
    let mut m = text::cat("review claim token run_id ", text::quoted(claim.run_id()).as_str());
    m.append(" digest ");
    m.append(claim.digest());
    m.append(" does not match any in-progress review entry");
    CaduceusError::Queue { context: "review-claim-terminal-mismatch", stderr: m }
}

} // verus!
