//! The review stores as database rows.

use vstd::prelude::*;

use super::history::{row_views, ReviewHistoryFile, ReviewHistoryRow, RowView};
use super::queue::{ReviewEntryView, ReviewPhase, ReviewQueueEntry, ReviewQueueMap, ReviewQueueState};
use super::state::{ReviewStateMap, ReviewStates};
use super::{REVIEW_HISTORY_FILE_VERSION, REVIEW_QUEUE_FILE_VERSION, REVIEW_STATE_FILE_VERSION};
use crate::error::{CaduceusError, Fault};
use crate::ordered::StringMap;
use crate::review;
use crate::review::{
    PublicationState, RepositoryId, RepositoryView, ReviewResult, ReviewState, ReviewTarget,
    StateView, TargetView, Verdict,
};
use crate::state::columns;
use crate::text;
use crate::time;
use crate::time::Timestamp;

verus! {

/// A value, or the fault that an earlier step found.
pub open spec fn corrupt_at(path: Seq<char>, message: Seq<char>) -> Fault {
    Fault::StateCorrupt { path, message }
}

/// The repository that two name columns name.
pub fn repository_from_columns(owner: &str, repo: &str) -> (r: RepositoryId)
    ensures
        r@ == (RepositoryView { owner: owner@, repo: repo@ }),
{
    RepositoryId { owner: owner.to_owned(), repo: repo.to_owned() }
}

/// The repository with its names in lowercase.
pub open spec fn lowered(r: RepositoryView) -> RepositoryView {
    RepositoryView { owner: text::lowercase(r.owner), repo: text::lowercase(r.repo) }
}

/// Lowercasing the lowercased names again changes nothing.
pub open spec fn settled(r: RepositoryView) -> bool {
    lowered(lowered(r)) == lowered(r)
}

// ---------------------------------------------------------------------------
// Queue
// ---------------------------------------------------------------------------

/// A row of the review queue table.
#[derive(Debug)]
pub struct ReviewQueueRow {
    pub review_key: String,
    pub owner: String,
    pub repo: String,
    pub pull_request: i64,
    pub head_sha: String,
    pub base_sha: String,
    pub base_ref: String,
    pub merge_base: String,
    pub phase: String,
    pub attempts: i64,
    pub last_error: Option<String>,
    pub last_run_id: Option<String>,
    pub next_attempt_at: Option<String>,
    pub queued_at: String,
    pub updated_at: String,
    pub review_generation: i64,
}

/// A [`ReviewQueueRow`] with its texts as character sequences.
pub struct QueueRowView {
    pub review_key: Seq<char>,
    pub owner: Seq<char>,
    pub repo: Seq<char>,
    pub pull_request: i64,
    pub head_sha: Seq<char>,
    pub base_sha: Seq<char>,
    pub base_ref: Seq<char>,
    pub merge_base: Seq<char>,
    pub phase: Seq<char>,
    pub attempts: i64,
    pub last_error: Option<Seq<char>>,
    pub last_run_id: Option<Seq<char>>,
    pub next_attempt_at: Option<Seq<char>>,
    pub queued_at: Seq<char>,
    pub updated_at: Seq<char>,
    pub review_generation: i64,
}

impl View for ReviewQueueRow {
    type V = QueueRowView;

    open spec fn view(&self) -> QueueRowView {
        QueueRowView {
            review_key: self.review_key@,
            owner: self.owner@,
            repo: self.repo@,
            pull_request: self.pull_request,
            head_sha: self.head_sha@,
            base_sha: self.base_sha@,
            base_ref: self.base_ref@,
            merge_base: self.merge_base@,
            phase: self.phase@,
            attempts: self.attempts,
            last_error: text::opt(self.last_error),
            last_run_id: text::opt(self.last_run_id),
            next_attempt_at: text::opt(self.next_attempt_at),
            queued_at: self.queued_at@,
            updated_at: self.updated_at@,
            review_generation: self.review_generation,
        }
    }
}

/// The phase with the label, or why there is none.
pub open spec fn phase_of(label: Seq<char>, path: Seq<char>) -> Result<ReviewPhase, Fault> {
    match columns::label_text(label) {
        Some(s) => if exists|p: ReviewPhase| p.label() == s {
            Ok(choose|p: ReviewPhase| p.label() == s)
        } else {
            Err(columns::bad_label(label, "review phase"@, path))
        },
        None => Err(columns::bad_label(label, "review phase"@, path)),
    }
}

fn read_phase(label: &str, path: &str) -> (r: Result<ReviewPhase, CaduceusError>)
    ensures
        match r {
            Ok(p) => phase_of(label@, path@) == Ok::<ReviewPhase, Fault>(p),
            Err(e) => phase_of(label@, path@) == Err::<ReviewPhase, Fault>(e@),
        },
{
    match columns::read_label(label) {
        Some(s) => match ReviewPhase::from_label(s.as_str()) {
            Some(p) => {
                proof {
                    let c = choose|c: ReviewPhase| c.label() == s@;
                    super::queue::law_phase_labels_differ(p, c);
                }
                Ok(p)
            },
            None => Err(columns::label_error(label, "review phase", path)),
        },
        None => Err(columns::label_error(label, "review phase", path)),
    }
}

/// The entry that a row holds once its columns are read.
pub open spec fn entry_with(
    row: QueueRowView,
    pull_request: u64,
    phase: ReviewPhase,
    next_attempt_at: Option<Timestamp>,
    queued_at: Timestamp,
    updated_at: Timestamp,
) -> ReviewEntryView {
    ReviewEntryView {
        target: TargetView {
            repository: RepositoryView { owner: row.owner, repo: row.repo },
            pull_request,
            head_sha: row.head_sha,
            base_sha: row.base_sha,
            base_ref: row.base_ref,
            merge_base: row.merge_base,
        },
        phase,
        attempts: columns::counter(row.attempts),
        last_error: row.last_error,
        last_run_id: row.last_run_id,
        next_attempt_at,
        queued_at,
        updated_at,
        review_generation: columns::floored(row.review_generation),
    }
}

/// The entry that a row holds, or why the row is refused.
pub open spec fn entry_of(row: QueueRowView, path: Seq<char>) -> Result<ReviewEntryView, Fault> {
    match columns::unsigned(row.pull_request) {
        None => Err(
            corrupt_at(path, crate::error::message(columns::negative_pr(row.pull_request))),
        ),
        Some(pr) => match phase_of(row.phase, path) {
            Err(f) => Err(f),
            Ok(phase) => match columns::opt_instant(
                row.next_attempt_at,
                "next_attempt_at"@,
                path,
            ) {
                Err(f) => Err(f),
                Ok(next) => match columns::instant(row.queued_at, "queued_at"@, path) {
                    Err(f) => Err(f),
                    Ok(queued) => match columns::instant(row.updated_at, "updated_at"@, path) {
                        Err(f) => Err(f),
                        Ok(updated) => checked_entry(
                            row.review_key,
                            entry_with(row, pr, phase, next, queued, updated),
                            path,
                        ),
                    },
                },
            },
        },
    }
}

/// The entry, if its target is within the caps and its key is the stored one.
pub open spec fn checked_entry(key: Seq<char>, e: ReviewEntryView, path: Seq<char>) -> Result<
    ReviewEntryView,
    Fault,
> {
    match review::target_fault(e.target) {
        Some(f) => Err(
            corrupt_at(path, "review queue row invalid: "@ + crate::error::message(f)),
        ),
        None => if key != super::queue_key(e.target) {
            Err(
                corrupt_at(
                    path,
                    "review queue key drift: stored "@ + text::quote(key) + ", computed "@
                        + text::quote(super::queue_key(e.target)),
                ),
            )
        } else {
            Ok(e)
        },
    }
}

fn read_queue_row(row: &ReviewQueueRow, path: &str) -> (r: Result<ReviewQueueEntry, CaduceusError>)
    ensures
        crate::error::seen(r) == entry_of(row@, path@),
{
    let pull_request: u64 = match columns::parse_pr_u64(row.pull_request) {
        Ok(n) => n,
        Err(e) => return Err(crate::error::corrupt(path, e.message_text())),
    };
    let phase = match read_phase(row.phase.as_str(), path) {
        Ok(p) => p,
        Err(e) => return Err(e),
    };
    let next_attempt_at = match columns::parse_optional_timestamp(
        &row.next_attempt_at,
        "next_attempt_at",
        path,
    ) {
        Ok(t) => t,
        Err(e) => return Err(e),
    };
    let queued_at = match columns::parse_timestamp(row.queued_at.as_str(), "queued_at", path) {
        Ok(t) => t,
        Err(e) => return Err(e),
    };
    let updated_at = match columns::parse_timestamp(row.updated_at.as_str(), "updated_at", path) {
        Ok(t) => t,
        Err(e) => return Err(e),
    };
    let entry = ReviewQueueEntry {
        target: ReviewTarget {
            repository: repository_from_columns(row.owner.as_str(), row.repo.as_str()),
            pull_request,
            head_sha: row.head_sha.clone(),
            base_sha: row.base_sha.clone(),
            base_ref: row.base_ref.clone(),
            merge_base: row.merge_base.clone(),
        },
        phase,
        attempts: columns::parse_counter(row.attempts),
        last_error: row.last_error.clone(),
        last_run_id: row.last_run_id.clone(),
        next_attempt_at,
        queued_at,
        updated_at,
        review_generation: columns::parse_generation(row.review_generation),
    };
    match review::validate_review_target(&entry.target) {
        Err(e) => {
            return Err(
                crate::error::corrupt(
                    path,
                    text::cat("review queue row invalid: ", e.message_text().as_str()),
                ),
            );
        },
        Ok(()) => {},
    }
    let key = super::review_queue_key(&entry.target);
    if !text::same(row.review_key.as_str(), key.as_str()) {
        let mut m = text::cat(
            "review queue key drift: stored ",
            text::quoted(row.review_key.as_str()).as_str(),
        );
        m.append(", computed ");
        m.append(text::quoted(key.as_str()).as_str());
        return Err(crate::error::corrupt(path, m));
    }
    Ok(entry)
}

/// What the first `n` rows hold, or the first fault among them. A row that
/// the database cannot hand out is an error with its message.
pub open spec fn queue_from(rows: Seq<Result<ReviewQueueRow, String>>, n: int, path: Seq<char>) -> Result<
    ReviewQueueMap,
    Fault,
>
    decreases n,
{
    if n <= 0 {
        Ok(Map::empty())
    } else {
        match queue_from(rows, n - 1, path) {
            Err(f) => Err(f),
            Ok(m) => match rows[n - 1] {
                Err(e) => Err(corrupt_at(path, "cannot decode review queue row: "@ + e@)),
                Ok(row) => match entry_of(row@, path) {
                    Err(f) => Err(f),
                    Ok(e) => Ok(m.insert(super::queue_key(e.target), e)),
                },
            },
        }
    }
}

proof fn lemma_queue_fault_stays(
    rows: Seq<Result<ReviewQueueRow, String>>,
    n: int,
    m: int,
    path: Seq<char>,
)
    requires
        n <= m,
        queue_from(rows, n, path) is Err,
    ensures
        queue_from(rows, m, path) == queue_from(rows, n, path),
    decreases m - n,
{
    if n < m {
        lemma_queue_fault_stays(rows, n, m - 1, path);
    }
}

/// The review queue that the rows hold; `path` is the database.
pub fn load_queue_sqlite(path: &str, rows: &Vec<Result<ReviewQueueRow, String>>) -> (r: Result<
    ReviewQueueState,
    CaduceusError,
>)
    ensures
        crate::error::seen(r) == queue_from(rows@, rows.len() as int, path@),
        r matches Ok(q) ==> q.version == REVIEW_QUEUE_FILE_VERSION && q.entries.wf()
            && super::state::targets_match(q@),
{
    let mut entries: StringMap<ReviewQueueEntry> = StringMap::new();
    let mut i: usize = 0;
    while i < rows.len()
        invariant
            i <= rows.len(),
            entries.wf(),
            entries.keys.len() <= i,
            super::state::targets_match(entries@),
            queue_from(rows@, i as int, path@) == Ok::<ReviewQueueMap, Fault>(entries@),
        decreases rows.len() - i,
    {
        let entry = match &rows[i] {
            Err(e) => {
                proof {
                    lemma_queue_fault_stays(rows@, i + 1, rows.len() as int, path@);
                }
                return Err(
                    crate::error::corrupt(
                        path,
                        text::cat("cannot decode review queue row: ", e.as_str()),
                    ),
                );
            },
            Ok(row) => match read_queue_row(row, path) {
                Ok(e) => e,
                Err(e) => {
                    proof {
                        lemma_queue_fault_stays(rows@, i + 1, rows.len() as int, path@);
                    }
                    return Err(e);
                },
            },
        };
        let key = super::review_queue_key(&entry.target);
        entries.insert(key, entry);
        i += 1;
    }
    Ok(ReviewQueueState { version: REVIEW_QUEUE_FILE_VERSION, entries })
}

/// The row that stores an entry under its key.
pub open spec fn row_of_entry(key: Seq<char>, e: ReviewEntryView) -> QueueRowView {
    QueueRowView {
        review_key: key,
        owner: text::lowercase(e.target.repository.owner),
        repo: text::lowercase(e.target.repository.repo),
        pull_request: columns::signed(e.target.pull_request),
        head_sha: e.target.head_sha,
        base_sha: e.target.base_sha,
        base_ref: e.target.base_ref,
        merge_base: e.target.merge_base,
        phase: e.phase.label(),
        attempts: e.attempts as i64,
        last_error: e.last_error,
        last_run_id: e.last_run_id,
        next_attempt_at: columns::opt_text(e.next_attempt_at),
        queued_at: time::rfc3339_text(e.queued_at),
        updated_at: time::rfc3339_text(e.updated_at),
        review_generation: columns::signed(e.review_generation),
    }
}

/// Every instant of the entry is one that chrono can hold.
pub open spec fn entry_datable(e: ReviewEntryView) -> bool {
    columns::opt_valid(e.next_attempt_at) && e.queued_at.valid() && e.updated_at.valid()
}

/// The entry with its repository names in lowercase.
pub open spec fn lowered_entry(e: ReviewEntryView) -> ReviewEntryView {
    ReviewEntryView {
        target: TargetView { repository: lowered(e.target.repository), ..e.target },
        ..e
    }
}

/// The entry survives storage: its numbers fit signed columns, its years have
/// four digits, and it is valid with its names in lowercase.
pub open spec fn entry_storable(e: ReviewEntryView) -> bool {
    &&& e.target.pull_request <= i64::MAX
    &&& e.review_generation <= i64::MAX
    &&& columns::opt_four_digit(e.next_attempt_at)
    &&& e.queued_at.four_digit_year()
    &&& e.updated_at.four_digit_year()
    &&& settled(e.target.repository)
    &&& review::target_fault(lowered_entry(e).target) is None
}

proof fn lemma_phase_label_reads(p: ReviewPhase, path: Seq<char>)
    ensures
        phase_of(p.label(), path) == Ok::<ReviewPhase, Fault>(p),
{
    let l = p.label();
    reveal_strlit("queued");
    reveal_strlit("in_progress");
    reveal_strlit("done");
    reveal_strlit("failed");
    reveal_strlit("skipped");
    reveal_strlit("needs_attention");
    assert(columns::plain(l));
    let c = choose|c: ReviewPhase| c.label() == l;
    assert(p.label() == l);
    super::queue::law_phase_labels_differ(p, c);
}

/// The row that stores an entry. Reading it gives the entry back, with its
/// repository names in lowercase.
pub fn review_queue_row(key: &str, entry: &ReviewQueueEntry) -> (r: ReviewQueueRow)
    requires
        entry_datable(entry@),
    ensures
        r@ == row_of_entry(key@, entry@),
        entry_storable(entry@) && key@ == super::queue_key(entry@.target) ==> forall|path: Seq<char>|
            #[trigger] entry_of(r@, path) == Ok::<ReviewEntryView, Fault>(lowered_entry(entry@)),
{
    let next_attempt_at = columns::optional_timestamp_text(entry.next_attempt_at);
    let queued_at = time::format_rfc3339(entry.queued_at);
    let updated_at = time::format_rfc3339(entry.updated_at);
    let r = ReviewQueueRow {
        review_key: key.to_owned(),
        owner: text::lowered(entry.target.repository.owner.as_str()),
        repo: text::lowered(entry.target.repository.repo.as_str()),
        pull_request: columns::to_signed(entry.target.pull_request),
        head_sha: entry.target.head_sha.clone(),
        base_sha: entry.target.base_sha.clone(),
        base_ref: entry.target.base_ref.clone(),
        merge_base: entry.target.merge_base.clone(),
        phase: entry.phase.as_str().to_owned(),
        attempts: entry.attempts as i64,
        last_error: entry.last_error.clone(),
        last_run_id: entry.last_run_id.clone(),
        next_attempt_at,
        queued_at,
        updated_at,
        review_generation: columns::to_signed(entry.review_generation),
    };
    proof {
        let e = entry@;
        if entry_storable(e) && key@ == super::queue_key(e.target) {
            let low = lowered_entry(e);
            assert(super::queue_key(low.target) == super::queue_key(e.target));
            assert forall|path: Seq<char>| #[trigger] entry_of(r@, path) == Ok::<
                ReviewEntryView,
                Fault,
            >(low) by {
                lemma_phase_label_reads(e.phase, path);
                assert(columns::opt_instant(r@.next_attempt_at, "next_attempt_at"@, path) == Ok::<
                    Option<Timestamp>,
                    Fault,
                >(e.next_attempt_at));
                assert(columns::counter(r@.attempts) == e.attempts);
                assert(entry_with(
                    r@,
                    e.target.pull_request,
                    e.phase,
                    e.next_attempt_at,
                    e.queued_at,
                    e.updated_at,
                ) == low);
            }
        }
    }
    r
}

// ---------------------------------------------------------------------------
// State
// ---------------------------------------------------------------------------

/// A row of the review state table.
#[derive(Debug)]
pub struct ReviewStateRow {
    pub owner: String,
    pub repo: String,
    pub pull_request: i64,
    pub last_reviewed_head_sha: Option<String>,
    pub last_verdict: Option<String>,
    pub last_reviewed_at: Option<String>,
    pub sticky_comment_id: Option<i64>,
    pub last_run_id: Option<String>,
    pub review_generation: i64,
    pub publication_state: String,
    pub publication_attempt_count: i64,
    pub next_publish_at: Option<String>,
    pub last_publish_error: Option<String>,
}

/// A [`ReviewStateRow`] with its texts as character sequences.
pub struct StateRowView {
    pub owner: Seq<char>,
    pub repo: Seq<char>,
    pub pull_request: i64,
    pub last_reviewed_head_sha: Option<Seq<char>>,
    pub last_verdict: Option<Seq<char>>,
    pub last_reviewed_at: Option<Seq<char>>,
    pub sticky_comment_id: Option<i64>,
    pub last_run_id: Option<Seq<char>>,
    pub review_generation: i64,
    pub publication_state: Seq<char>,
    pub publication_attempt_count: i64,
    pub next_publish_at: Option<Seq<char>>,
    pub last_publish_error: Option<Seq<char>>,
}

impl View for ReviewStateRow {
    type V = StateRowView;

    open spec fn view(&self) -> StateRowView {
        StateRowView {
            owner: self.owner@,
            repo: self.repo@,
            pull_request: self.pull_request,
            last_reviewed_head_sha: text::opt(self.last_reviewed_head_sha),
            last_verdict: text::opt(self.last_verdict),
            last_reviewed_at: text::opt(self.last_reviewed_at),
            sticky_comment_id: self.sticky_comment_id,
            last_run_id: text::opt(self.last_run_id),
            review_generation: self.review_generation,
            publication_state: self.publication_state@,
            publication_attempt_count: self.publication_attempt_count,
            next_publish_at: text::opt(self.next_publish_at),
            last_publish_error: text::opt(self.last_publish_error),
        }
    }
}

/// The verdict with the label, or why there is none.
pub open spec fn verdict_of(label: Option<Seq<char>>, path: Seq<char>) -> Result<
    Option<Verdict>,
    Fault,
> {
    match label {
        None => Ok(None),
        Some(label) => match columns::label_text(label) {
            Some(s) => if exists|v: Verdict| v.label() == s {
                Ok(Some(choose|v: Verdict| v.label() == s))
            } else {
                Err(columns::bad_label(label, "last_verdict"@, path))
            },
            None => Err(columns::bad_label(label, "last_verdict"@, path)),
        },
    }
}

fn read_verdict(label: &Option<String>, path: &str) -> (r: Result<Option<Verdict>, CaduceusError>)
    ensures
        match r {
            Ok(v) => verdict_of(text::opt(*label), path@) == Ok::<Option<Verdict>, Fault>(v),
            Err(e) => verdict_of(text::opt(*label), path@) == Err::<Option<Verdict>, Fault>(e@),
        },
{
    match label {
        None => Ok(None),
        Some(label) => match columns::read_label(label.as_str()) {
            Some(s) => match Verdict::from_label(s.as_str()) {
                Some(v) => {
                    proof {
                        let c = choose|c: Verdict| c.label() == s@;
                        review::law_verdict_labels_differ(v, c);
                    }
                    Ok(Some(v))
                },
                None => Err(columns::label_error(label.as_str(), "last_verdict", path)),
            },
            None => Err(columns::label_error(label.as_str(), "last_verdict", path)),
        },
    }
}

/// The publication state with the label, or why there is none.
pub open spec fn publication_of(label: Seq<char>, path: Seq<char>) -> Result<
    PublicationState,
    Fault,
> {
    match columns::label_text(label) {
        Some(s) => if exists|p: PublicationState| p.label() == s {
            Ok(choose|p: PublicationState| p.label() == s)
        } else {
            Err(columns::bad_label(label, "publication_state"@, path))
        },
        None => Err(columns::bad_label(label, "publication_state"@, path)),
    }
}

fn read_publication(label: &str, path: &str) -> (r: Result<PublicationState, CaduceusError>)
    ensures
        match r {
            Ok(p) => publication_of(label@, path@) == Ok::<PublicationState, Fault>(p),
            Err(e) => publication_of(label@, path@) == Err::<PublicationState, Fault>(e@),
        },
{
    match columns::read_label(label) {
        Some(s) => match PublicationState::from_label(s.as_str()) {
            Some(p) => {
                proof {
                    let c = choose|c: PublicationState| c.label() == s@;
                    review::law_publication_labels_differ(p, c);
                }
                Ok(p)
            },
            None => Err(columns::label_error(label, "publication_state", path)),
        },
        None => Err(columns::label_error(label, "publication_state", path)),
    }
}

/// The comment id that a column holds, or why it is refused.
pub open spec fn comment_of(v: Option<i64>, path: Seq<char>) -> Result<Option<u64>, Fault> {
    match v {
        None => Ok(None),
        Some(v) => match columns::unsigned(v) {
            Some(n) => Ok(Some(n)),
            None => Err(
                corrupt_at(path, "negative sticky_comment_id "@ + text::dec_int(v as int)),
            ),
        },
    }
}

/// The state that a row holds once its columns are read.
pub open spec fn state_with(
    row: StateRowView,
    pull_request: u64,
    last_verdict: Option<Verdict>,
    publication_state: PublicationState,
    sticky_comment_id: Option<u64>,
    last_reviewed_at: Option<Timestamp>,
    next_publish_at: Option<Timestamp>,
) -> StateView {
    StateView {
        repository: RepositoryView { owner: row.owner, repo: row.repo },
        pull_request,
        last_reviewed_head_sha: row.last_reviewed_head_sha,
        last_verdict,
        last_reviewed_at,
        sticky_comment_id,
        last_run_id: row.last_run_id,
        review_generation: columns::floored(row.review_generation),
        publication_state,
        publication_attempt_count: columns::counter(row.publication_attempt_count),
        next_publish_at,
        last_publish_error: row.last_publish_error,
    }
}

/// The key that the name columns of a row spell.
pub open spec fn stored_key(s: StateView) -> Seq<char> {
    s.repository.owner + "/"@ + s.repository.repo + "#"@ + text::dec(s.pull_request as nat)
}

/// The state, if it is within the caps and its columns spell its key.
pub open spec fn checked_state(s: StateView, path: Seq<char>) -> Result<StateView, Fault> {
    match super::stored_state_fault(s) {
        Some(f) => Err(corrupt_at(path, crate::error::message(f))),
        None => {
            let key = super::state_key(s.repository, s.pull_request);
            if key != stored_key(s) {
                Err(
                    corrupt_at(
                        path,
                        "review state key drift: stored "@ + stored_key(s) + ", computed "@ + key,
                    ),
                )
            } else {
                Ok(s)
            }
        },
    }
}

/// The state that a row holds, or why the row is refused.
pub open spec fn state_of(row: StateRowView, path: Seq<char>) -> Result<StateView, Fault> {
    match columns::unsigned(row.pull_request) {
        None => Err(
            corrupt_at(path, crate::error::message(columns::negative_pr(row.pull_request))),
        ),
        Some(pr) => match verdict_of(row.last_verdict, path) {
            Err(f) => Err(f),
            Ok(verdict) => match publication_of(row.publication_state, path) {
                Err(f) => Err(f),
                Ok(publication) => match comment_of(row.sticky_comment_id, path) {
                    Err(f) => Err(f),
                    Ok(comment) => match columns::opt_instant(
                        row.last_reviewed_at,
                        "last_reviewed_at"@,
                        path,
                    ) {
                        Err(f) => Err(f),
                        Ok(reviewed) => match columns::opt_instant(
                            row.next_publish_at,
                            "next_publish_at"@,
                            path,
                        ) {
                            Err(f) => Err(f),
                            Ok(next) => checked_state(
                                state_with(row, pr, verdict, publication, comment, reviewed, next),
                                path,
                            ),
                        },
                    },
                },
            },
        },
    }
}

fn read_state_row(row: &ReviewStateRow, path: &str) -> (r: Result<ReviewState, CaduceusError>)
    ensures
        crate::error::seen(r) == state_of(row@, path@),
{
    let pull_request: u64 = match columns::parse_pr_u64(row.pull_request) {
        Ok(n) => n,
        Err(e) => return Err(crate::error::corrupt(path, e.message_text())),
    };
    let last_verdict = match read_verdict(&row.last_verdict, path) {
        Ok(v) => v,
        Err(e) => return Err(e),
    };
    let publication_state = match read_publication(row.publication_state.as_str(), path) {
        Ok(p) => p,
        Err(e) => return Err(e),
    };
    let sticky_comment_id: Option<u64> = match row.sticky_comment_id {
        None => None,
        Some(v) => {
            if v < 0 {
                return Err(
                    crate::error::corrupt(
                        path,
                        text::cat(
                            "negative sticky_comment_id ",
                            text::decimal_signed(v).as_str(),
                        ),
                    ),
                );
            }
            Some(v as u64)
        },
    };
    let last_reviewed_at = match columns::parse_optional_timestamp(
        &row.last_reviewed_at,
        "last_reviewed_at",
        path,
    ) {
        Ok(t) => t,
        Err(e) => return Err(e),
    };
    let next_publish_at = match columns::parse_optional_timestamp(
        &row.next_publish_at,
        "next_publish_at",
        path,
    ) {
        Ok(t) => t,
        Err(e) => return Err(e),
    };
    let state = ReviewState {
        repository: repository_from_columns(row.owner.as_str(), row.repo.as_str()),
        pull_request,
        last_reviewed_head_sha: row.last_reviewed_head_sha.clone(),
        last_verdict,
        last_reviewed_at,
        sticky_comment_id,
        last_run_id: row.last_run_id.clone(),
        review_generation: columns::parse_generation(row.review_generation),
        publication_state,
        publication_attempt_count: columns::parse_counter(row.publication_attempt_count),
        next_publish_at,
        last_publish_error: row.last_publish_error.clone(),
    };
    match super::validated_review_state(&state) {
        Err(e) => return Err(crate::error::corrupt(path, e.message_text())),
        Ok(()) => {},
    }
    let key = super::review_state_key(&state.repository, pull_request);
    let mut stored = text::cat(row.owner.as_str(), "/");
    stored.append(row.repo.as_str());
    stored.append("#");
    stored.append(text::decimal(pull_request).as_str());
    if !text::same(key.as_str(), stored.as_str()) {
        let mut m = text::cat("review state key drift: stored ", stored.as_str());
        m.append(", computed ");
        m.append(key.as_str());
        return Err(crate::error::corrupt(path, m));
    }
    Ok(state)
}

/// What the first `n` rows hold, or the first fault among them.
pub open spec fn states_from(rows: Seq<Result<ReviewStateRow, String>>, n: int, path: Seq<char>) -> Result<
    ReviewStates,
    Fault,
>
    decreases n,
{
    if n <= 0 {
        Ok(Map::empty())
    } else {
        match states_from(rows, n - 1, path) {
            Err(f) => Err(f),
            Ok(m) => match rows[n - 1] {
                Err(e) => Err(corrupt_at(path, "cannot decode review state row: "@ + e@)),
                Ok(row) => match state_of(row@, path) {
                    Err(f) => Err(f),
                    Ok(s) => Ok(m.insert(super::state_key(s.repository, s.pull_request), s)),
                },
            },
        }
    }
}

proof fn lemma_states_fault_stays(
    rows: Seq<Result<ReviewStateRow, String>>,
    n: int,
    m: int,
    path: Seq<char>,
)
    requires
        n <= m,
        states_from(rows, n, path) is Err,
    ensures
        states_from(rows, m, path) == states_from(rows, n, path),
    decreases m - n,
{
    if n < m {
        lemma_states_fault_stays(rows, n, m - 1, path);
    }
}

/// The review states that the rows hold; `path` is the database.
pub fn load_state_map_sqlite(path: &str, rows: &Vec<Result<ReviewStateRow, String>>) -> (r: Result<
    ReviewStateMap,
    CaduceusError,
>)
    ensures
        crate::error::seen(r) == states_from(rows@, rows.len() as int, path@),
        r matches Ok(m) ==> m.wf(),
{
    let mut states: StringMap<ReviewState> = StringMap::new();
    let mut i: usize = 0;
    while i < rows.len()
        invariant
            i <= rows.len(),
            states.wf(),
            states.keys.len() <= i,
            super::state::states_match(states@),
            states_from(rows@, i as int, path@) == Ok::<ReviewStates, Fault>(states@),
        decreases rows.len() - i,
    {
        let state = match &rows[i] {
            Err(e) => {
                proof {
                    lemma_states_fault_stays(rows@, i + 1, rows.len() as int, path@);
                }
                return Err(
                    crate::error::corrupt(
                        path,
                        text::cat("cannot decode review state row: ", e.as_str()),
                    ),
                );
            },
            Ok(row) => match read_state_row(row, path) {
                Ok(s) => s,
                Err(e) => {
                    proof {
                        lemma_states_fault_stays(rows@, i + 1, rows.len() as int, path@);
                    }
                    return Err(e);
                },
            },
        };
        let key = super::review_state_key(&state.repository, state.pull_request);
        states.insert(key, state);
        i += 1;
    }
    Ok(ReviewStateMap { version: REVIEW_STATE_FILE_VERSION, states })
}

/// The label column of an optional verdict.
pub open spec fn verdict_label(v: Option<Verdict>) -> Option<Seq<char>> {
    match v {
        Some(v) => Some(v.label()),
        None => None,
    }
}

/// The row that stores a state.
pub open spec fn row_of_state(s: StateView) -> StateRowView {
    StateRowView {
        owner: text::lowercase(s.repository.owner),
        repo: text::lowercase(s.repository.repo),
        pull_request: columns::signed(s.pull_request),
        last_reviewed_head_sha: s.last_reviewed_head_sha,
        last_verdict: verdict_label(s.last_verdict),
        last_reviewed_at: columns::opt_text(s.last_reviewed_at),
        sticky_comment_id: match s.sticky_comment_id {
            Some(n) => Some(columns::signed(n)),
            None => None,
        },
        last_run_id: s.last_run_id,
        review_generation: columns::signed(s.review_generation),
        publication_state: s.publication_state.label(),
        publication_attempt_count: s.publication_attempt_count as i64,
        next_publish_at: columns::opt_text(s.next_publish_at),
        last_publish_error: s.last_publish_error,
    }
}

/// Every instant of the state is one that chrono can hold.
pub open spec fn state_datable(s: StateView) -> bool {
    columns::opt_valid(s.last_reviewed_at) && columns::opt_valid(s.next_publish_at)
}

/// The state with its repository names in lowercase.
pub open spec fn lowered_state(s: StateView) -> StateView {
    StateView { repository: lowered(s.repository), ..s }
}

/// The state survives storage: its numbers fit signed columns, its years have
/// four digits, and it is valid with its names in lowercase.
pub open spec fn state_storable(s: StateView) -> bool {
    &&& s.pull_request <= i64::MAX
    &&& s.review_generation <= i64::MAX
    &&& s.sticky_comment_id matches Some(n) ==> n <= i64::MAX
    &&& columns::opt_four_digit(s.last_reviewed_at)
    &&& columns::opt_four_digit(s.next_publish_at)
    &&& settled(s.repository)
    &&& review::state_fault(lowered_state(s)) is None
}

proof fn lemma_state_labels_read(s: StateView, path: Seq<char>)
    ensures
        verdict_of(verdict_label(s.last_verdict), path) == Ok::<Option<Verdict>, Fault>(
            s.last_verdict,
        ),
        publication_of(s.publication_state.label(), path) == Ok::<PublicationState, Fault>(
            s.publication_state,
        ),
{
    reveal_strlit("pass");
    reveal_strlit("fail");
    reveal_strlit("pending");
    reveal_strlit("publishing");
    reveal_strlit("published");
    reveal_strlit("failed_retryable");
    match s.last_verdict {
        Some(v) => {
            let l = v.label();
            assert(columns::plain(l));
            let c = choose|c: Verdict| c.label() == l;
            assert(v.label() == l);
            review::law_verdict_labels_differ(v, c);
        },
        None => {},
    }
    let p = s.publication_state;
    let l = p.label();
    assert(columns::plain(l));
    let c = choose|c: PublicationState| c.label() == l;
    assert(p.label() == l);
    review::law_publication_labels_differ(p, c);
}

/// The row that stores a state. Reading it gives the state back, with its
/// repository names in lowercase.
pub fn review_state_row(state: &ReviewState) -> (r: ReviewStateRow)
    requires
        state_datable(state@),
    ensures
        r@ == row_of_state(state@),
        state_storable(state@) ==> forall|path: Seq<char>| #[trigger]
            state_of(r@, path) == Ok::<StateView, Fault>(lowered_state(state@)),
{
    let last_reviewed_at = columns::optional_timestamp_text(state.last_reviewed_at);
    let next_publish_at = columns::optional_timestamp_text(state.next_publish_at);
    let r = ReviewStateRow {
        owner: text::lowered(state.repository.owner.as_str()),
        repo: text::lowered(state.repository.repo.as_str()),
        pull_request: columns::to_signed(state.pull_request),
        last_reviewed_head_sha: state.last_reviewed_head_sha.clone(),
        last_verdict: match state.last_verdict {
            Some(v) => Some(v.as_str().to_owned()),
            None => None,
        },
        last_reviewed_at,
        sticky_comment_id: match state.sticky_comment_id {
            Some(n) => Some(columns::to_signed(n)),
            None => None,
        },
        last_run_id: state.last_run_id.clone(),
        review_generation: columns::to_signed(state.review_generation),
        publication_state: state.publication_state.as_str().to_owned(),
        publication_attempt_count: state.publication_attempt_count as i64,
        next_publish_at,
        last_publish_error: state.last_publish_error.clone(),
    };
    proof {
        let s = state@;
        if state_storable(s) {
            let low = lowered_state(s);
            assert forall|path: Seq<char>| #[trigger] state_of(r@, path) == Ok::<StateView, Fault>(
                low,
            ) by {
                lemma_state_labels_read(s, path);
                assert(columns::opt_instant(r@.last_reviewed_at, "last_reviewed_at"@, path) == Ok::<
                    Option<Timestamp>,
                    Fault,
                >(s.last_reviewed_at));
                assert(columns::opt_instant(r@.next_publish_at, "next_publish_at"@, path) == Ok::<
                    Option<Timestamp>,
                    Fault,
                >(s.next_publish_at));
                assert(comment_of(r@.sticky_comment_id, path) == Ok::<Option<u64>, Fault>(
                    s.sticky_comment_id,
                ));
                assert(columns::counter(r@.publication_attempt_count)
                    == s.publication_attempt_count);
                assert(state_with(
                    r@,
                    s.pull_request,
                    s.last_verdict,
                    s.publication_state,
                    s.sticky_comment_id,
                    s.last_reviewed_at,
                    s.next_publish_at,
                ) == low);
                assert(super::state_key(low.repository, low.pull_request) == stored_key(low));
            }
        }
    }
    r
}

// ---------------------------------------------------------------------------
// History
// ---------------------------------------------------------------------------

/// A row of the review history table.
#[derive(Debug)]
pub struct StoredHistoryRow {
    pub review_run_id: String,
    pub owner: String,
    pub repo: String,
    pub pull_request: i64,
    pub head_sha: String,
    pub review_generation: i64,
    pub completed_at: String,
    pub result_json: String,
}

/// A [`StoredHistoryRow`] with its texts as character sequences.
pub struct StoredRowView {
    pub review_run_id: Seq<char>,
    pub owner: Seq<char>,
    pub repo: Seq<char>,
    pub pull_request: i64,
    pub head_sha: Seq<char>,
    pub review_generation: i64,
    pub completed_at: Seq<char>,
    pub result_json: Seq<char>,
}

impl View for StoredHistoryRow {
    type V = StoredRowView;

    open spec fn view(&self) -> StoredRowView {
        StoredRowView {
            review_run_id: self.review_run_id@,
            owner: self.owner@,
            repo: self.repo@,
            pull_request: self.pull_request,
            head_sha: self.head_sha@,
            review_generation: self.review_generation,
            completed_at: self.completed_at@,
            result_json: self.result_json@,
        }
    }
}

/// A history row as the database handed it out, with its result document as a
/// review result or the decoder's message.
pub struct StoredRow {
    pub row: StoredHistoryRow,
    pub decoded: Result<ReviewResult, String>,
}

/// The history row that a row holds once its columns are read.
pub open spec fn history_with(row: StoredRowView, pull_request: u64, at: Timestamp) -> RowView {
    RowView {
        review_run_id: row.review_run_id,
        repository: RepositoryView { owner: row.owner, repo: row.repo },
        pull_request,
        head_sha: row.head_sha,
        review_generation: columns::floored(row.review_generation),
        completed_at: at,
        result_json: row.result_json,
    }
}

/// The history row that a row holds, or why the row is refused.
pub open spec fn history_row_of(
    row: StoredRowView,
    decoded: Result<ReviewResult, String>,
    path: Seq<char>,
) -> Result<RowView, Fault> {
    match columns::unsigned(row.pull_request) {
        None => Err(
            corrupt_at(path, crate::error::message(columns::negative_pr(row.pull_request))),
        ),
        Some(pr) => match columns::instant(row.completed_at, "completed_at"@, path) {
            Err(f) => Err(f),
            Ok(at) => match super::row_fault(history_with(row, pr, at), decoded) {
                Some(f) => Err(corrupt_at(path, crate::error::message(f))),
                None => Ok(history_with(row, pr, at)),
            },
        },
    }
}

fn read_history_row(stored: &StoredRow, path: &str) -> (r: Result<ReviewHistoryRow, CaduceusError>)
    ensures
        crate::error::seen(r) == history_row_of(stored.row@, stored.decoded, path@),
{
    let row = &stored.row;
    let pull_request: u64 = match columns::parse_pr_u64(row.pull_request) {
        Ok(n) => n,
        Err(e) => return Err(crate::error::corrupt(path, e.message_text())),
    };
    let completed_at = match columns::parse_timestamp(
        row.completed_at.as_str(),
        "completed_at",
        path,
    ) {
        Ok(t) => t,
        Err(e) => return Err(e),
    };
    let out = ReviewHistoryRow {
        review_run_id: row.review_run_id.clone(),
        repository: repository_from_columns(row.owner.as_str(), row.repo.as_str()),
        pull_request,
        head_sha: row.head_sha.clone(),
        review_generation: columns::parse_generation(row.review_generation),
        completed_at,
        result_json: row.result_json.clone(),
    };
    match super::validate_history_row(&out, &stored.decoded) {
        Err(e) => Err(crate::error::corrupt(path, e.message_text())),
        Ok(()) => Ok(out),
    }
}

/// What the first `n` rows hold, or the first fault among them.
pub open spec fn history_from(rows: Seq<Result<StoredRow, String>>, n: int, path: Seq<char>) -> Result<
    Seq<RowView>,
    Fault,
>
    decreases n,
{
    if n <= 0 {
        Ok(Seq::empty())
    } else {
        match history_from(rows, n - 1, path) {
            Err(f) => Err(f),
            Ok(s) => match rows[n - 1] {
                Err(e) => Err(corrupt_at(path, "cannot decode review history row: "@ + e@)),
                Ok(row) => match history_row_of(row.row@, row.decoded, path) {
                    Err(f) => Err(f),
                    Ok(h) => Ok(s.push(h)),
                },
            },
        }
    }
}

proof fn lemma_history_fault_stays(
    rows: Seq<Result<StoredRow, String>>,
    n: int,
    m: int,
    path: Seq<char>,
)
    requires
        n <= m,
        history_from(rows, n, path) is Err,
    ensures
        history_from(rows, m, path) == history_from(rows, n, path),
    decreases m - n,
{
    if n < m {
        lemma_history_fault_stays(rows, n, m - 1, path);
    }
}

/// The review history that the rows hold, in their order; `path` is the
/// database.
pub fn load_history_sqlite(path: &str, rows: &Vec<Result<StoredRow, String>>) -> (r: Result<
    ReviewHistoryFile,
    CaduceusError,
>)
    ensures
        crate::error::seen(r) == history_from(rows@, rows.len() as int, path@),
        r matches Ok(h) ==> h.version == REVIEW_HISTORY_FILE_VERSION,
{
    let mut out: Vec<ReviewHistoryRow> = Vec::new();
    let mut i: usize = 0;
    proof {
        assert(row_views(out@) =~= Seq::<RowView>::empty());
    }
    while i < rows.len()
        invariant
            i <= rows.len(),
            history_from(rows@, i as int, path@) == Ok::<Seq<RowView>, Fault>(row_views(out@)),
        decreases rows.len() - i,
    {
        let row = match &rows[i] {
            Err(e) => {
                proof {
                    lemma_history_fault_stays(rows@, i + 1, rows.len() as int, path@);
                }
                return Err(
                    crate::error::corrupt(
                        path,
                        text::cat("cannot decode review history row: ", e.as_str()),
                    ),
                );
            },
            Ok(row) => match read_history_row(row, path) {
                Ok(h) => h,
                Err(e) => {
                    proof {
                        lemma_history_fault_stays(rows@, i + 1, rows.len() as int, path@);
                    }
                    return Err(e);
                },
            },
        };
        let ghost before = out@;
        out.push(row);
        proof {
            assert(row_views(out@) =~= row_views(before).push(row@));
        }
        i += 1;
    }
    Ok(ReviewHistoryFile { version: REVIEW_HISTORY_FILE_VERSION, rows: out })
}

/// The row that stores a history row.
pub open spec fn row_of_history(h: RowView) -> StoredRowView {
    StoredRowView {
        review_run_id: h.review_run_id,
        owner: text::lowercase(h.repository.owner),
        repo: text::lowercase(h.repository.repo),
        pull_request: columns::signed(h.pull_request),
        head_sha: h.head_sha,
        review_generation: columns::signed(h.review_generation),
        completed_at: time::rfc3339_text(h.completed_at),
        result_json: h.result_json,
    }
}

/// The history row with its repository names in lowercase.
pub open spec fn lowered_history(h: RowView) -> RowView {
    RowView { repository: lowered(h.repository), ..h }
}

/// The row that stores a history row. Reading it gives the row back, with its
/// repository names in lowercase, when its numbers fit signed columns, its
/// year has four digits and it is valid with its names in lowercase.
pub fn review_history_row(row: &ReviewHistoryRow) -> (r: StoredHistoryRow)
    requires
        row@.completed_at.valid(),
    ensures
        r@ == row_of_history(row@),
        row@.pull_request <= i64::MAX && row@.review_generation <= i64::MAX
            && row@.completed_at.four_digit_year() ==> forall|
            decoded: Result<ReviewResult, String>,
            path: Seq<char>,
        |
            super::row_fault(lowered_history(row@), decoded) is None ==> #[trigger] history_row_of(
                r@,
                decoded,
                path,
            ) == Ok::<RowView, Fault>(lowered_history(row@)),
{
    let completed_at = time::format_rfc3339(row.completed_at);
    let r = StoredHistoryRow {
        review_run_id: row.review_run_id.clone(),
        owner: text::lowered(row.repository.owner.as_str()),
        repo: text::lowered(row.repository.repo.as_str()),
        pull_request: columns::to_signed(row.pull_request),
        head_sha: row.head_sha.clone(),
        review_generation: columns::to_signed(row.review_generation),
        completed_at,
        result_json: row.result_json.clone(),
    };
    proof {
        assert(row@.pull_request <= i64::MAX && row@.review_generation <= i64::MAX ==> history_with(
            r@,
            row@.pull_request,
            row@.completed_at,
        ) == lowered_history(row@));
    }
    r
}

// ---------------------------------------------------------------------------
// Laws
// ---------------------------------------------------------------------------

/// A row of the queue keeps the entry column by column, with the names in small
/// letters.
pub proof fn law_a_queue_row_keeps_its_entry(key: Seq<char>, e: ReviewEntryView)
    ensures
        ({
            let r = row_of_entry(key, e);
            &&& r.review_key == key
            &&& r.owner == text::lowercase(e.target.repository.owner)
            &&& r.repo == text::lowercase(e.target.repository.repo)
            &&& e.target.pull_request <= i64::MAX ==> r.pull_request == e.target.pull_request
            &&& r.head_sha == e.target.head_sha
            &&& r.base_sha == e.target.base_sha
            &&& r.base_ref == e.target.base_ref
            &&& r.merge_base == e.target.merge_base
            &&& r.phase == e.phase.label()
            &&& r.attempts == e.attempts
            &&& r.last_error == e.last_error
            &&& r.last_run_id == e.last_run_id
            &&& e.next_attempt_at matches Some(t) ==> r.next_attempt_at == Some(
                time::rfc3339_text(t),
            )
            &&& e.next_attempt_at is None ==> r.next_attempt_at is None
            &&& r.queued_at == time::rfc3339_text(e.queued_at)
            &&& r.updated_at == time::rfc3339_text(e.updated_at)
            &&& e.review_generation <= i64::MAX ==> r.review_generation == e.review_generation
        }),
{
}

/// An entry that is read from a row has the row's columns.
pub proof fn law_an_entry_is_read_from_its_columns(row: QueueRowView, path: Seq<char>)
    ensures
        entry_of(row, path) matches Ok(e) ==> {
            &&& e.target.repository.owner == row.owner
            &&& e.target.repository.repo == row.repo
            &&& e.target.pull_request == row.pull_request
            &&& e.target.head_sha == row.head_sha
            &&& e.target.base_sha == row.base_sha
            &&& e.target.base_ref == row.base_ref
            &&& e.target.merge_base == row.merge_base
            &&& phase_of(row.phase, path) == Ok::<ReviewPhase, Fault>(e.phase)
            &&& 0 <= row.attempts <= u32::MAX ==> e.attempts == row.attempts
            &&& e.last_error == row.last_error
            &&& e.last_run_id == row.last_run_id
            &&& columns::opt_instant(row.next_attempt_at, "next_attempt_at"@, path) == Ok::<
                Option<Timestamp>,
                Fault,
            >(e.next_attempt_at)
            &&& time::rfc3339(row.queued_at) == Ok::<Timestamp, Seq<char>>(e.queued_at)
            &&& time::rfc3339(row.updated_at) == Ok::<Timestamp, Seq<char>>(e.updated_at)
            &&& row.review_generation >= 0 ==> e.review_generation == row.review_generation
            &&& row.review_key == super::queue_key(e.target)
        },
        row.pull_request < 0 ==> entry_of(row, path) is Err,
{
}

/// A plain word reads as the phase that has it as its label, if one has.
pub proof fn law_a_phase_is_read_by_its_label(p: ReviewPhase, label: Seq<char>, path: Seq<char>)
    requires
        columns::plain(label),
    ensures
        phase_of(label, path) matches Ok(q) ==> q.label() == label,
        phase_of(label, path) is Err ==> p.label() != label,
{
}

/// A row of the states keeps the state column by column, with the names in small
/// letters.
pub proof fn law_a_state_row_keeps_its_state(s: StateView)
    ensures
        ({
            let r = row_of_state(s);
            &&& r.owner == text::lowercase(s.repository.owner)
            &&& r.repo == text::lowercase(s.repository.repo)
            &&& s.pull_request <= i64::MAX ==> r.pull_request == s.pull_request
            &&& r.last_reviewed_head_sha == s.last_reviewed_head_sha
            &&& s.last_verdict matches Some(v) ==> r.last_verdict == Some(v.label())
            &&& s.last_verdict is None ==> r.last_verdict is None
            &&& s.last_reviewed_at matches Some(t) ==> r.last_reviewed_at == Some(
                time::rfc3339_text(t),
            )
            &&& s.last_reviewed_at is None ==> r.last_reviewed_at is None
            &&& s.sticky_comment_id matches Some(n) ==> (n <= i64::MAX ==> r.sticky_comment_id
                == Some(n as i64))
            &&& s.sticky_comment_id is None ==> r.sticky_comment_id is None
            &&& r.last_run_id == s.last_run_id
            &&& s.review_generation <= i64::MAX ==> r.review_generation == s.review_generation
            &&& r.publication_state == s.publication_state.label()
            &&& r.publication_attempt_count == s.publication_attempt_count
            &&& s.next_publish_at matches Some(t) ==> r.next_publish_at == Some(
                time::rfc3339_text(t),
            )
            &&& s.next_publish_at is None ==> r.next_publish_at is None
            &&& r.last_publish_error == s.last_publish_error
        }),
{
}

/// A state that is read from a row has the row's columns.
pub proof fn law_a_state_is_read_from_its_columns(row: StateRowView, path: Seq<char>)
    ensures
        state_of(row, path) matches Ok(s) ==> {
            &&& s.repository.owner == row.owner
            &&& s.repository.repo == row.repo
            &&& s.pull_request == row.pull_request
            &&& s.last_reviewed_head_sha == row.last_reviewed_head_sha
            &&& verdict_of(row.last_verdict, path) == Ok::<Option<Verdict>, Fault>(s.last_verdict)
            &&& columns::opt_instant(row.last_reviewed_at, "last_reviewed_at"@, path) == Ok::<
                Option<Timestamp>,
                Fault,
            >(s.last_reviewed_at)
            &&& row.sticky_comment_id is None ==> s.sticky_comment_id is None
            &&& row.sticky_comment_id matches Some(n) ==> s.sticky_comment_id == Some(n as u64)
                && n >= 0
            &&& s.last_run_id == row.last_run_id
            &&& row.review_generation >= 0 ==> s.review_generation == row.review_generation
            &&& publication_of(row.publication_state, path) == Ok::<PublicationState, Fault>(
                s.publication_state,
            )
            &&& 0 <= row.publication_attempt_count <= u32::MAX ==> s.publication_attempt_count
                == row.publication_attempt_count
            &&& columns::opt_instant(row.next_publish_at, "next_publish_at"@, path) == Ok::<
                Option<Timestamp>,
                Fault,
            >(s.next_publish_at)
            &&& s.last_publish_error == row.last_publish_error
        },
        row.pull_request < 0 ==> state_of(row, path) is Err,
        row.sticky_comment_id matches Some(n) ==> (n < 0 ==> state_of(row, path) is Err),
{
}

/// Verdicts and publication states are read by their labels.
pub proof fn law_labels_are_read(
    v: Verdict,
    p: PublicationState,
    label: Seq<char>,
    path: Seq<char>,
)
    requires
        columns::plain(label),
    ensures
        verdict_of(None, path) == Ok::<Option<Verdict>, Fault>(None),
        verdict_of(Some(label), path) matches Ok(r) ==> r is Some && r->0.label() == label,
        verdict_of(Some(label), path) is Err ==> v.label() != label,
        publication_of(label, path) matches Ok(q) ==> q.label() == label,
        publication_of(label, path) is Err ==> p.label() != label,
{
}

/// A row of the history keeps its columns both ways.
pub proof fn law_a_history_row_keeps_its_columns(
    h: RowView,
    row: StoredRowView,
    decoded: Result<ReviewResult, String>,
    path: Seq<char>,
)
    ensures
        ({
            let r = row_of_history(h);
            &&& r.review_run_id == h.review_run_id
            &&& r.owner == text::lowercase(h.repository.owner)
            &&& r.repo == text::lowercase(h.repository.repo)
            &&& h.pull_request <= i64::MAX ==> r.pull_request == h.pull_request
            &&& r.head_sha == h.head_sha
            &&& h.review_generation <= i64::MAX ==> r.review_generation == h.review_generation
            &&& r.completed_at == time::rfc3339_text(h.completed_at)
            &&& r.result_json == h.result_json
        }),
        history_row_of(row, decoded, path) matches Ok(g) ==> {
            &&& g.review_run_id == row.review_run_id
            &&& g.repository.owner == row.owner
            &&& g.repository.repo == row.repo
            &&& g.pull_request == row.pull_request
            &&& g.head_sha == row.head_sha
            &&& row.review_generation >= 0 ==> g.review_generation == row.review_generation
            &&& time::rfc3339(row.completed_at) == Ok::<Timestamp, Seq<char>>(g.completed_at)
            &&& g.result_json == row.result_json
            &&& super::row_fault(g, decoded) is None
        },
        row.pull_request < 0 ==> history_row_of(row, decoded, path) is Err,
{
}

/// A table is read row by row: a row that cannot be decoded or read stops it.
pub proof fn law_tables_are_read_row_by_row(
    queue: Seq<Result<ReviewQueueRow, String>>,
    states: Seq<Result<ReviewStateRow, String>>,
    history: Seq<Result<StoredRow, String>>,
    n: int,
    path: Seq<char>,
)
    ensures
        0 < n <= queue.len() && queue[n - 1] is Err ==> queue_from(queue, n, path) is Err,
        0 < n <= states.len() && states[n - 1] is Err ==> states_from(states, n, path) is Err,
        0 < n <= history.len() && history[n - 1] is Err ==> history_from(history, n, path) is Err,
        0 < n <= queue.len() && queue_from(queue, n, path) is Ok ==> ({
            let e = entry_of(queue[n - 1]->Ok_0@, path)->Ok_0;
            &&& entry_of(queue[n - 1]->Ok_0@, path) is Ok
            &&& queue_from(queue, n, path)->Ok_0 == queue_from(queue, n - 1, path)->Ok_0.insert(
                queue[n - 1]->Ok_0@.review_key,
                e,
            )
        }),
        0 < n <= history.len() && history_from(history, n, path) is Ok ==> history_from(
            history,
            n,
            path,
        )->Ok_0.len() == history_from(history, n - 1, path)->Ok_0.len() + 1,
        queue_from(queue, 0, path) is Ok,
        queue_from(queue, 0, path)->Ok_0 == ReviewQueueMap::empty(),
        states_from(states, 0, path)->Ok_0 == ReviewStates::empty(),
        history_from(history, 0, path)->Ok_0.len() == 0,
{
}

/// What is said of a row that cannot be read.
pub proof fn law_an_unreadable_row_says_why(
    row: QueueRowView,
    label: Seq<char>,
    n: i64,
    error: String,
    e: ReviewEntryView,
    key: Seq<char>,
    path: Seq<char>,
)
    ensures
        phase_of(label, path) is Err ==> phase_of(label, path) == Err::<ReviewPhase, Fault>(
            columns::bad_label(label, "review phase"@, path),
        ),
        verdict_of(Some(label), path) is Err ==> verdict_of(Some(label), path) == Err::<
            Option<Verdict>,
            Fault,
        >(columns::bad_label(label, "last_verdict"@, path)),
        publication_of(label, path) is Err ==> publication_of(label, path) == Err::<
            PublicationState,
            Fault,
        >(columns::bad_label(label, "publication_state"@, path)),
        n < 0 ==> comment_of(Some(n), path) == Err::<Option<u64>, Fault>(
            Fault::StateCorrupt {
                path,
                message: "negative sticky_comment_id "@ + text::dec_int(n as int),
            },
        ),
        row.pull_request < 0 ==> entry_of(row, path) == Err::<ReviewEntryView, Fault>(
            Fault::StateCorrupt {
                path,
                message: "negative pull_request value "@ + text::dec_int(row.pull_request as int),
            },
        ),
        review::target_fault(e.target) matches Some(f) ==> checked_entry(key, e, path) == Err::<
            ReviewEntryView,
            Fault,
        >(
            Fault::StateCorrupt {
                path,
                message: "review queue row invalid: "@ + crate::error::message(f),
            },
        ),
        review::target_fault(e.target) is None && key != super::queue_key(e.target)
            ==> checked_entry(key, e, path) == Err::<ReviewEntryView, Fault>(
            Fault::StateCorrupt {
                path,
                message: "review queue key drift: stored "@ + text::quote(key) + ", computed "@
                    + text::quote(super::queue_key(e.target)),
            },
        ),
        review::target_fault(e.target) is None && key == super::queue_key(e.target)
            ==> checked_entry(key, e, path) == Ok::<ReviewEntryView, Fault>(e),
        queue_from(seq![Err(error)], 1, path) == Err::<ReviewQueueMap, Fault>(
            Fault::StateCorrupt {
                path,
                message: "cannot decode review queue row: "@ + error@,
            },
        ),
        states_from(seq![Err(error)], 1, path) == Err::<ReviewStates, Fault>(
            Fault::StateCorrupt {
                path,
                message: "cannot decode review state row: "@ + error@,
            },
        ),
        history_from(seq![Err(error)], 1, path) == Err::<Seq<RowView>, Fault>(
            Fault::StateCorrupt {
                path,
                message: "cannot decode review history row: "@ + error@,
            },
        ),
{
    assert(queue_from(seq![Err(error)], 0, path) is Ok);
    assert(states_from(seq![Err(error)], 0, path) is Ok);
    assert(history_from(seq![Err(error)], 0, path) is Ok);
}

} // verus!
