//! The issue queue: its model, its versioned envelope, and the claim token
//! that every transition of a claimed entry must present.

use vstd::prelude::*;

use crate::error::{CaduceusError, Fault};
use crate::issue::{IssueKey, IssueView};
use crate::ordered::StringMap;
use crate::path;
use crate::text;
use crate::time::Timestamp;

pub mod claim;
pub mod daemon_lock;
pub mod identity;
pub mod laws;
pub mod reaper;
pub mod store;

verus! {

/// Schema version of the queue file. The daemon refuses any other value.
pub const QUEUE_FILE_VERSION: u32 = 1;

/// Name of the queue file inside the state directory.
pub const STATE_FILENAME: &'static str = "state.json";

/// Name of the directory that holds the claim files.
pub const CLAIMS_DIRNAME: &'static str = "claims";

/// Name of the lock file that serialises queue mutations.
pub const STATE_LOCK_FILENAME: &'static str = "state.lock";

/// Name of the lock file that a whole tick holds.
pub const DAEMON_LOCK_FILENAME: &'static str = "daemon.lock";

/// How stores spell the kind of ticket that asks for an investigation.
pub const LEGACY_TICKET_TYPE_STRING: &'static str = "investigation";

/// How stores spell the stage at which an investigation is ready.
pub const LEGACY_STAGE_INVESTIGATION_READY: &'static str = "investigation_ready";

/// How stores spell the stage at which an investigation is commented.
pub const LEGACY_STAGE_INVESTIGATION_COMMENTED: &'static str = "investigation_commented";

/// Format version of a claim file.
pub const CLAIM_FILE_VERSION: u32 = 1;

/// Where one issue stands.
#[derive(Clone, Copy, Debug, PartialEq, Eq, Structural)]
pub enum Phase {
    Queued,
    InProgress,
    Previewed,
    /// The completion comment is posted and a human has yet to decide on the
    /// pull request.
    AwaitingReview,
    Done,
    Failed,
    Skipped,
    /// The operator must look before the entry can be queued again.
    NeedsAttention,
}

impl Phase {
    /// The name of the phase as error messages spell it.
    pub open spec fn name(self) -> Seq<char> {
        match self {
            Phase::Queued => "Queued"@,
            Phase::InProgress => "InProgress"@,
            Phase::Previewed => "Previewed"@,
            Phase::AwaitingReview => "AwaitingReview"@,
            Phase::Done => "Done"@,
            Phase::Failed => "Failed"@,
            Phase::Skipped => "Skipped"@,
            Phase::NeedsAttention => "NeedsAttention"@,
        }
    }

    /// The name of the phase as error messages spell it.
    pub fn name_text(&self) -> (r: &'static str)
        ensures
            r@ == self.name(),
    {
        match self {
            Phase::Queued => "Queued",
            Phase::InProgress => "InProgress",
            Phase::Previewed => "Previewed",
            Phase::AwaitingReview => "AwaitingReview",
            Phase::Done => "Done",
            Phase::Failed => "Failed",
            Phase::Skipped => "Skipped",
            Phase::NeedsAttention => "NeedsAttention",
        }
    }
}

/// Ticket kind selected by the trigger label.
#[derive(Clone, Copy, Debug, PartialEq, Eq, Structural)]
pub enum TicketType {
    Code,
    Investigation,
}

/// How far finalization has come, recorded after every side effect.
#[derive(Clone, Copy, Debug, PartialEq, Eq, Structural)]
pub enum FinalizationStage {
    ResultValidated,
    Committed,
    Pushed,
    PrCreated,
    Commented,
    AwaitingReview,
    Done,
    InvestigationReady,
    InvestigationCommented,
}

impl FinalizationStage {
    /// The stable label of the stage.
    pub open spec fn label(self) -> Seq<char> {
        match self {
            FinalizationStage::ResultValidated => "result_validated"@,
            FinalizationStage::Committed => "committed"@,
            FinalizationStage::Pushed => "pushed"@,
            FinalizationStage::PrCreated => "pr_created"@,
            FinalizationStage::Commented => "commented"@,
            FinalizationStage::AwaitingReview => "awaiting_review"@,
            FinalizationStage::Done => "done"@,
            FinalizationStage::InvestigationReady => LEGACY_STAGE_INVESTIGATION_READY@,
            FinalizationStage::InvestigationCommented => LEGACY_STAGE_INVESTIGATION_COMMENTED@,
        }
    }

    /// Two stages never share a label.
    pub proof fn law_stage_labels_differ(a: FinalizationStage, b: FinalizationStage)
        ensures
            a.label() == b.label() ==> a == b,
    {
        reveal_strlit("result_validated");
        reveal_strlit("committed");
        reveal_strlit("pushed");
        reveal_strlit("pr_created");
        reveal_strlit("commented");
        reveal_strlit("awaiting_review");
        reveal_strlit("done");
        reveal_strlit("investigation_ready");
        reveal_strlit("investigation_commented");
        assert("result_validated"@.len() == 16);
        assert("committed"@.len() == 9 && "committed"@[4] == 'i');
        assert("pushed"@.len() == 6);
        assert("pr_created"@.len() == 10);
        assert("commented"@.len() == 9 && "commented"@[4] == 'e');
        assert("awaiting_review"@.len() == 15);
        assert("done"@.len() == 4);
        assert("investigation_ready"@.len() == 19);
        assert("investigation_commented"@.len() == 23);
    }

    /// The stable label of the stage.
    pub fn as_str(&self) -> (r: &'static str)
        ensures
            r@ == self.label(),
    {
        match self {
            FinalizationStage::ResultValidated => "result_validated",
            FinalizationStage::Committed => "committed",
            FinalizationStage::Pushed => "pushed",
            FinalizationStage::PrCreated => "pr_created",
            FinalizationStage::Commented => "commented",
            FinalizationStage::AwaitingReview => "awaiting_review",
            FinalizationStage::Done => "done",
            FinalizationStage::InvestigationReady => LEGACY_STAGE_INVESTIGATION_READY,
            FinalizationStage::InvestigationCommented => LEGACY_STAGE_INVESTIGATION_COMMENTED,
        }
    }

    /// The stage that a label names.
    pub fn from_str(s: &str) -> (r: Option<FinalizationStage>)
        ensures
            match r {
                Some(stage) => stage.label() == s@,
                None => forall|stage: FinalizationStage| stage.label() != s@,
            },
    {
        if text::same(s, "result_validated") {
            Some(FinalizationStage::ResultValidated)
        } else if text::same(s, "committed") {
            Some(FinalizationStage::Committed)
        } else if text::same(s, "pushed") {
            Some(FinalizationStage::Pushed)
        } else if text::same(s, "pr_created") {
            Some(FinalizationStage::PrCreated)
        } else if text::same(s, "commented") {
            Some(FinalizationStage::Commented)
        } else if text::same(s, "awaiting_review") {
            Some(FinalizationStage::AwaitingReview)
        } else if text::same(s, "done") {
            Some(FinalizationStage::Done)
        } else if text::same(s, LEGACY_STAGE_INVESTIGATION_READY) {
            Some(FinalizationStage::InvestigationReady)
        } else if text::same(s, LEGACY_STAGE_INVESTIGATION_COMMENTED) {
            Some(FinalizationStage::InvestigationCommented)
        } else {
            None
        }
    }
}

/// Checkpoint from which an interrupted finalization resumes.
#[derive(Debug)]
pub struct FinalizationCheckpoint {
    pub run_id: String,
    pub branch_name: String,
    pub result_path: String,
    pub stage: FinalizationStage,
    pub commit_oid: Option<String>,
    pub pr_number: Option<u64>,
    pub pr_url: Option<String>,
}

/// A [`FinalizationCheckpoint`] with its texts as character sequences.
pub struct CheckpointView {
    pub run_id: Seq<char>,
    pub branch_name: Seq<char>,
    pub result_path: Seq<char>,
    pub stage: FinalizationStage,
    pub commit_oid: Option<Seq<char>>,
    pub pr_number: Option<u64>,
    pub pr_url: Option<Seq<char>>,
}

impl View for FinalizationCheckpoint {
    type V = CheckpointView;

    open spec fn view(&self) -> CheckpointView {
        CheckpointView {
            run_id: self.run_id@,
            branch_name: self.branch_name@,
            result_path: self.result_path@,
            stage: self.stage,
            commit_oid: text::opt(self.commit_oid),
            pr_number: self.pr_number,
            pr_url: text::opt(self.pr_url),
        }
    }
}

impl Clone for FinalizationCheckpoint {
    fn clone(&self) -> (r: Self)
        ensures
            r == *self,
    {
        FinalizationCheckpoint {
            run_id: self.run_id.clone(),
            branch_name: self.branch_name.clone(),
            result_path: self.result_path.clone(),
            stage: self.stage,
            commit_oid: self.commit_oid.clone(),
            pr_number: self.pr_number,
            pr_url: self.pr_url.clone(),
        }
    }
}

/// All state of one `owner/repo#number`.
#[derive(Debug)]
pub struct QueueEntry {
    pub key: IssueKey,
    pub phase: Phase,
    pub ticket_type: TicketType,
    pub attempts: u32,
    pub last_error: Option<String>,
    pub last_run_id: Option<String>,
    pub next_attempt_at: Option<Timestamp>,
    pub finalization: Option<FinalizationCheckpoint>,
    pub queued_at: Timestamp,
    pub updated_at: Timestamp,
    pub generation: u32,
}

/// A [`QueueEntry`] with its texts as character sequences.
pub struct EntryView {
    pub key: IssueView,
    pub phase: Phase,
    pub ticket_type: TicketType,
    pub attempts: u32,
    pub last_error: Option<Seq<char>>,
    pub last_run_id: Option<Seq<char>>,
    pub next_attempt_at: Option<Timestamp>,
    pub finalization: Option<CheckpointView>,
    pub queued_at: Timestamp,
    pub updated_at: Timestamp,
    pub generation: u32,
}

/// An optional checkpoint by its view.
pub open spec fn checkpoint(c: Option<FinalizationCheckpoint>) -> Option<CheckpointView> {
    match c {
        Some(c) => Some(c@),
        None => None,
    }
}

impl View for QueueEntry {
    type V = EntryView;

    open spec fn view(&self) -> EntryView {
        EntryView {
            key: self.key@,
            phase: self.phase,
            ticket_type: self.ticket_type,
            attempts: self.attempts,
            last_error: text::opt(self.last_error),
            last_run_id: text::opt(self.last_run_id),
            next_attempt_at: self.next_attempt_at,
            finalization: checkpoint(self.finalization),
            queued_at: self.queued_at,
            updated_at: self.updated_at,
            generation: self.generation,
        }
    }
}

impl Clone for QueueEntry {
    fn clone(&self) -> (r: Self)
        ensures
            r == *self,
    {
        QueueEntry {
            key: self.key.clone(),
            phase: self.phase,
            ticket_type: self.ticket_type,
            attempts: self.attempts,
            last_error: self.last_error.clone(),
            last_run_id: self.last_run_id.clone(),
            next_attempt_at: self.next_attempt_at,
            finalization: self.finalization.clone(),
            queued_at: self.queued_at,
            updated_at: self.updated_at,
            generation: self.generation,
        }
    }
}

/// The queue, by canonical issue key.
pub type QueueMap = Map<Seq<char>, EntryView>;

/// The validated queue.
pub struct QueueState {
    pub version: u32,
    pub entries: StringMap<QueueEntry>,
}

impl View for QueueState {
    type V = QueueMap;

    open spec fn view(&self) -> QueueMap {
        self.entries@
    }
}

/// Every entry stands under the canonical key of its own valid issue.
pub open spec fn keys_match(m: QueueMap) -> bool {
    forall|k: Seq<char>| #[trigger]
        m.contains_key(k) ==> m[k].key.display_key() == k && m[k].key.valid()
}

impl QueueState {
    /// The version is the supported one and every entry stands under its own
    /// canonical key.
    pub open spec fn wf(&self) -> bool {
        &&& self.version == QUEUE_FILE_VERSION
        &&& self.entries.wf()
        &&& keys_match(self@)
    }

    /// A queue without entries.
    pub fn empty() -> (r: QueueState)
        ensures
            r.wf(),
            r@ == QueueMap::empty(),
            r.entries.keys.len() == 0,
    {
        QueueState { version: QUEUE_FILE_VERSION, entries: StringMap::new() }
    }

    /// The entry of `key`, when the key is valid and queued.
    pub fn entry(&self, key: &IssueKey) -> (r: Option<&QueueEntry>)
        requires
            self.entries.wf(),
        ensures
            match r {
                Some(e) => key@.valid() && self@.contains_key(key@.display_key()) && e@
                    == self@[key@.display_key()],
                None => !(key@.valid() && self@.contains_key(key@.display_key())),
            },
    {
        if key.validate().is_err() {
            return None;
        }
        self.entries.get(key.display_key().as_str())
    }

    /// Mutable analogue of [`QueueState::entry`].
    pub fn entry_mut(&mut self, key: &IssueKey) -> (r: Option<&mut QueueEntry>)
        requires
            old(self).entries.wf(),
        ensures
            match r {
                Some(e) => {
                    &&& key@.valid() && old(self)@.contains_key(key@.display_key())
                    &&& e@ == old(self)@[key@.display_key()]
                    &&& final(self).version == old(self).version
                    &&& final(self).entries.keys == old(self).entries.keys
                    &&& exists|i: int|
                        {
                            &&& #[trigger] old(self).entries.at(i, key@.display_key())
                            &&& final(self).entries.values@ == old(self).entries.values@.update(
                                i,
                                *final(e),
                            )
                        }
                },
                None => *final(self) == *old(self) && !(key@.valid() && old(self)@.contains_key(
                    key@.display_key(),
                )),
            },
    {
        if key.validate().is_err() {
            return None;
        }
        match self.entries.position(key.display_key().as_str()) {
            Some(i) => Some(&mut self.entries.values[i]),
            None => None,
        }
    }
}

// ---------------------------------------------------------------------------
// The queue file
// ---------------------------------------------------------------------------

/// A queue file as it was read: the envelope version and the entries in key
/// order, nothing validated.
pub struct QueueFile {
    pub version: u32,
    pub entries: Vec<(String, QueueEntry)>,
}

/// Where parse errors say they come from.
pub open spec fn queue_scope() -> Seq<char> {
    "<queue-state>"@
}

/// The rule that an entry under `key` breaks, if any.
pub open spec fn entry_fault(key: Seq<char>, e: EntryView) -> Option<Fault> {
    if key != e.key.display_key() {
        Some(
            Fault::StateCorrupt {
                path: queue_scope(),
                message: "queue map key "@ + text::quote(key) + " does not match entry "@
                    + e.key.display_key(),
            },
        )
    } else if !e.key.valid() {
        Some(
            Fault::StateCorrupt {
                path: queue_scope(),
                message: "queue entry key invalid: "@ + e.key.plain(),
            },
        )
    } else {
        None
    }
}

/// The first broken rule among `entries` from position `i` on.
pub open spec fn first_fault(entries: Seq<(String, QueueEntry)>, i: int) -> Option<Fault>
    decreases entries.len() - i,
{
    if i < 0 || i >= entries.len() {
        None
    } else if entry_fault(entries[i].0@, entries[i].1@) is Some {
        entry_fault(entries[i].0@, entries[i].1@)
    } else {
        first_fault(entries, i + 1)
    }
}

/// The entries as a map; of entries under one key the last counts.
pub open spec fn entry_map(entries: Seq<(String, QueueEntry)>) -> QueueMap
    decreases entries.len(),
{
    if entries.len() == 0 {
        Map::empty()
    } else {
        entry_map(entries.drop_last()).insert(entries.last().0@, entries.last().1@)
    }
}

/// What a queue file holds, or why it is refused.
pub open spec fn queue_of(file: QueueFile) -> Result<QueueMap, Fault> {
    if file.version != QUEUE_FILE_VERSION {
        Err(
            Fault::StateCorrupt {
                path: queue_scope(),
                message: "unsupported queue state version: got "@ + text::dec(file.version as nat)
                    + ", expected "@ + text::dec(QUEUE_FILE_VERSION as nat),
            },
        )
    } else {
        match first_fault(file.entries@, 0) {
            Some(f) => Err(f),
            None => Ok(entry_map(file.entries@)),
        }
    }
}

/// Validate a queue file. `read` is an error, with the decoder's message, when
/// the text is no queue file at all.
pub fn parse_queue_state(read: Result<QueueFile, String>) -> (r: Result<QueueState, CaduceusError>)
    ensures
        crate::error::seen(r) == (match read {
            Ok(f) => queue_of(f),
            Err(e) => Err(
                Fault::StateCorrupt {
                    path: queue_scope(),
                    message: "queue state JSON parse: "@ + e@,
                },
            ),
        }),
        r matches Ok(s) ==> s.wf(),
{
    let file = match read {
        Ok(f) => f,
        Err(e) => {
            return Err(
                crate::error::corrupt(
                    "<queue-state>",
                    text::cat("queue state JSON parse: ", e.as_str()),
                ),
            );
        },
    };
    if file.version != QUEUE_FILE_VERSION {
        let mut m = text::cat(
            "unsupported queue state version: got ",
            text::decimal(file.version as u64).as_str(),
        );
        m.append(", expected ");
        m.append(text::decimal(QUEUE_FILE_VERSION as u64).as_str());
        return Err(crate::error::corrupt("<queue-state>", m));
    }
    let mut entries: StringMap<QueueEntry> = StringMap::new();
    let mut i: usize = 0;
    while i < file.entries.len()
        invariant
            read matches Ok(f) && f == file,
            file.version == QUEUE_FILE_VERSION,
            i <= file.entries.len(),
            entries.wf(),
            entries.keys.len() <= i,
            entries@ == entry_map(file.entries@.take(i as int)),
            keys_match(entries@),
            first_fault(file.entries@, 0) == first_fault(file.entries@, i as int),
        decreases file.entries.len() - i,
    {
        let pair = &file.entries[i];
        let expected = pair.1.key.display_key();
        if !text::same(pair.0.as_str(), expected.as_str()) {
            let mut m = text::cat("queue map key ", text::quoted(pair.0.as_str()).as_str());
            m.append(" does not match entry ");
            m.append(expected.as_str());
            return Err(crate::error::corrupt("<queue-state>", m));
        }
        if pair.1.key.validate().is_err() {
            return Err(
                crate::error::corrupt(
                    "<queue-state>",
                    text::cat("queue entry key invalid: ", pair.1.key.plain().as_str()),
                ),
            );
        }
        entries.insert(pair.0.clone(), pair.1.clone());
        proof {
            let taken = file.entries@.take(i + 1);
            assert(taken.drop_last() =~= file.entries@.take(i as int));
            assert(taken.last() == file.entries@[i as int]);
        }
        i += 1;
    }
    proof {
        assert(file.entries@.take(i as int) =~= file.entries@);
    }
    Ok(QueueState { version: QUEUE_FILE_VERSION, entries })
}

// ---------------------------------------------------------------------------
// Outcomes and tokens
// ---------------------------------------------------------------------------

/// What [`StateStore::enqueue`](store::StateStore::enqueue) did.
#[derive(Clone, Copy, Debug, PartialEq, Eq, Structural)]
pub enum EnqueueOutcome {
    Inserted,
    AlreadyPresent,
    Promoted,
}

/// What a reset did: whether it was asked to clear the finalization, and the
/// checkpoint that it dropped.
#[derive(Debug)]
pub struct ResetOutcome {
    pub cleared_finalization: bool,
    pub dropped_checkpoint: Option<FinalizationCheckpoint>,
}

/// Proof of a claim: the digest that names the claim file, and the run that
/// holds it.
#[derive(Debug)]
pub struct ClaimToken {
    pub(crate) claims_dir: String,
    pub(crate) digest: String,
    pub(crate) run_id: String,
}

/// A [`ClaimToken`] with its texts as character sequences.
pub struct TokenView {
    pub claims_dir: Seq<char>,
    pub digest: Seq<char>,
    pub run_id: Seq<char>,
}

impl View for ClaimToken {
    type V = TokenView;

    closed spec fn view(&self) -> TokenView {
        TokenView {
            claims_dir: self.claims_dir@,
            digest: self.digest@,
            run_id: self.run_id@,
        }
    }
}

impl ClaimToken {
    /// Hexadecimal SHA-256 of the canonical issue key, the stem of the claim
    /// file's name.
    pub fn digest(&self) -> (r: &str)
        ensures
            r@ == self@.digest,
    {
        self.digest.as_str()
    }

    /// The run that holds the claim.
    pub fn run_id(&self) -> (r: &str)
        ensures
            r@ == self@.run_id,
    {
        self.run_id.as_str()
    }

    /// A token that no claim stands behind.
    pub fn for_test(claims_dir: String, digest: &str, run_id: &str) -> (r: ClaimToken)
        ensures
            r@ == (TokenView { claims_dir: claims_dir@, digest: digest@, run_id: run_id@ }),
    {
        ClaimToken { claims_dir, digest: digest.to_owned(), run_id: run_id.to_owned() }
    }

    /// Path of the claim file.
    pub fn claim_path(&self) -> (r: String)
        ensures
            r@ == path::joined(self@.claims_dir, self@.digest + ".claim"@),
    {
        path::join(self.claims_dir.as_str(), text::cat(self.digest.as_str(), ".claim").as_str())
    }
}

/// A claimed entry and the token that later transitions present.
#[derive(Debug)]
pub struct ClaimedEntry {
    pub entry: QueueEntry,
    pub claim: ClaimToken,
}

/// Body of a claim file.
#[derive(Debug)]
pub struct ClaimFileBody {
    pub version: u32,
    pub key: IssueKey,
    pub run_id: String,
    pub pid: u32,
    pub process_start_identity: String,
    pub started_at: Timestamp,
    pub worktree_path: Option<String>,
}

} // verus!
