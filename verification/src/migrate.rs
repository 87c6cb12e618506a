//! Import of queue files: of the current form, and of the form before it,
//! whose entries are a list; and recovery from a corrupt queue file.

use vstd::prelude::*;

use crate::error::{CaduceusError, Fault};
use crate::issue;
use crate::issue::{IssueKey, IssueView};
use crate::ordered::StringMap;
use crate::path;
use crate::state::queue;
use crate::state::queue::{
    EntryView, FinalizationCheckpoint, Phase, QueueEntry, QueueFile, QueueMap, QueueState, TicketType,
};
use crate::text;
use crate::time;
use crate::time::Timestamp;

verus! {

/// What an import did.
#[derive(Clone, Copy, Debug, PartialEq, Eq, Structural)]
pub enum MigrationOutcome {
    /// Entries were imported and the queue file was installed.
    Imported { migrated: u64, skipped: u64 },
    /// Nothing was installed.
    DryRun { would_migrate: u64, would_skip: u64 },
    /// The queue holds all of it already.
    AlreadyCurrent,
}

/// Result of an import.
#[derive(Clone, Copy, Debug, PartialEq, Eq, Structural)]
pub struct MigrationReport {
    pub entries_migrated: u64,
    pub entries_skipped: u64,
    pub outcome: MigrationOutcome,
}

// ---------------------------------------------------------------------------
// Which form?
// ---------------------------------------------------------------------------

/// The form of a queue file.
#[derive(Clone, Copy, Debug, PartialEq, Eq, Structural)]
pub enum QueueForm {
    /// Entries are a list.
    Listed,
    /// Entries are a map.
    Keyed,
}

/// A file to import as it was read: not there, an error with its text, or its
/// bytes.
pub enum ImportFile {
    Missing,
    Unreadable(String),
    Bytes(Vec<u8>),
}

/// White space as ASCII has it.
pub open spec fn is_space(b: u8) -> bool {
    b == 32 || b == 9 || b == 10 || b == 12 || b == 13
}

/// The first byte at or after `i` that is no white space.
pub open spec fn first_solid(bytes: Seq<u8>, i: int) -> Option<u8>
    decreases bytes.len() - i,
{
    if i < 0 || i >= bytes.len() {
        None
    } else if is_space(bytes[i]) {
        first_solid(bytes, i + 1)
    } else {
        Some(bytes[i])
    }
}

/// `"entries"` in quotes.
pub open spec fn entries_name() -> Seq<u8> {
    seq![34u8, 101, 110, 116, 114, 105, 101, 115, 34]
}

/// The quoted name stands at position `i`.
pub open spec fn name_at(bytes: Seq<u8>, i: int) -> bool {
    i + 9 <= bytes.len() && bytes.subrange(i, i + 9) == entries_name()
}

/// Position of the first quoted name at or after `i`.
pub open spec fn name_from(bytes: Seq<u8>, i: int) -> Option<int>
    decreases bytes.len() - i,
{
    if i < 0 || i + 9 > bytes.len() {
        None
    } else if name_at(bytes, i) {
        Some(i)
    } else {
        name_from(bytes, i + 1)
    }
}

/// The first byte at or after `i` that stands neither for a colon nor for
/// space between them opens a list.
pub open spec fn list_follows(bytes: Seq<u8>, i: int) -> bool
    decreases bytes.len() - i,
{
    if i < 0 || i >= bytes.len() {
        false
    } else if bytes[i] == 58 || bytes[i] == 32 || bytes[i] == 9 || bytes[i] == 10 || bytes[i] == 13 {
        list_follows(bytes, i + 1)
    } else {
        bytes[i] == 91
    }
}

/// The entries of the file are a list.
pub open spec fn listed(bytes: Seq<u8>) -> bool {
    match name_from(bytes, 0) {
        Some(i) => list_follows(bytes, i + 9),
        None => false,
    }
}

/// The form of a file, or why it cannot be imported.
pub open spec fn form_of(file: ImportFile, from: Seq<char>) -> Result<QueueForm, Fault> {
    match file {
        ImportFile::Missing => Err(Fault::Io("--from "@ + from + " does not exist"@)),
        ImportFile::Unreadable(e) => Err(
            Fault::StateCorrupt { path: from, message: "read legacy state: "@ + e@ },
        ),
        ImportFile::Bytes(b) => if b@.len() == 0 {
            Err(Fault::StateCorrupt { path: from, message: "legacy state file is empty"@ })
        } else if first_solid(b@, 0) != Some(123u8) && first_solid(b@, 0) != Some(91u8) {
            Err(
                Fault::StateCorrupt {
                    path: from,
                    message: "legacy state is not a JSON object/array"@,
                },
            )
        } else if listed(b@) {
            Ok(QueueForm::Listed)
        } else {
            Ok(QueueForm::Keyed)
        },
    }
}

fn solid_byte(bytes: &Vec<u8>) -> (r: Option<u8>)
    ensures
        r == first_solid(bytes@, 0),
{
    let mut i: usize = 0;
    while i < bytes.len()
        invariant
            i <= bytes.len(),
            first_solid(bytes@, 0) == first_solid(bytes@, i as int),
        decreases bytes.len() - i,
    {
        let b: u8 = bytes[i];
        if !(b == 32 || b == 9 || b == 10 || b == 12 || b == 13) {
            return Some(b);
        }
        i += 1;
    }
    None
}

/// Are the entries of the file a list? The byte after the name `entries`, and
/// after a colon and space, tells.
pub fn looks_like_v0(bytes: &Vec<u8>) -> (r: bool)
    ensures
        r == listed(bytes@),
{
    let name: [u8; 9] = [34, 101, 110, 116, 114, 105, 101, 115, 34];
    proof {
        assert(name@ =~= entries_name());
    }
    let n = bytes.len();
    let mut i: usize = 0;
    while i < n && n - i >= 9
        invariant
            n == bytes.len(),
            i <= n,
            name@ == entries_name(),
            name_from(bytes@, 0) == name_from(bytes@, i as int),
        decreases n - i,
    {
        let mut k: usize = 0;
        while k < 9 && bytes[i + k] == name[k as usize]
            invariant
                n == bytes.len(),
                n - i >= 9,
                i < n,
                k <= 9,
                name@ == entries_name(),
                forall|j: int| 0 <= j < k ==> bytes@[i + j] == #[trigger] name@[j],
            decreases 9 - k,
        {
            k += 1;
        }
        if k == 9 {
            proof {
                assert(bytes@.subrange(i as int, i + 9) =~= entries_name());
            }
            let mut at: usize = i + 9;
            while at < n
                invariant
                    n == bytes.len(),
                    at <= n,
                    list_follows(bytes@, i + 9) == list_follows(bytes@, at as int),
                    name_from(bytes@, 0) == Some(i as int),
                decreases n - at,
            {
                let b: u8 = bytes[at];
                if !(b == 58 || b == 32 || b == 9 || b == 10 || b == 13) {
                    return b == 91;
                }
                at += 1;
            }
            return false;
        }
        proof {
            assert(bytes@.subrange(i as int, i + 9)[k as int] != entries_name()[k as int]);
        }
        i += 1;
    }
    false
}

/// The form of a file to import.
pub fn sniff(file: &ImportFile, from: &str) -> (r: Result<QueueForm, CaduceusError>)
    ensures
        match r {
            Ok(f) => form_of(*file, from@) == Ok::<QueueForm, Fault>(f),
            Err(e) => form_of(*file, from@) == Err::<QueueForm, Fault>(e@),
        },
{
    let bytes = match file {
        ImportFile::Missing => {
            let mut m = text::cat("--from ", from);
            m.append(" does not exist");
            return Err(CaduceusError::Io(m));
        },
        ImportFile::Unreadable(e) => {
            return Err(
                crate::error::corrupt(from, text::cat("read legacy state: ", e.as_str())),
            );
        },
        ImportFile::Bytes(b) => b,
    };
    if bytes.len() == 0 {
        return Err(crate::error::corrupt(from, "legacy state file is empty".to_owned()));
    }
    let object = match solid_byte(bytes) {
        Some(b) => b == 123 || b == 91,
        None => false,
    };
    if !object {
        return Err(
            crate::error::corrupt(from, "legacy state is not a JSON object/array".to_owned()),
        );
    }
    if looks_like_v0(bytes) {
        Ok(QueueForm::Listed)
    } else {
        Ok(QueueForm::Keyed)
    }
}

// ---------------------------------------------------------------------------
// The two sources
// ---------------------------------------------------------------------------

/// An entry of the listed form.
#[derive(Debug)]
pub struct LegacyEntryV0 {
    pub repo: String,
    pub number: u64,
    pub status: String,
    pub last_error: Option<String>,
    pub attempts: u32,
    pub updated_at: Option<String>,
}

/// A [`LegacyEntryV0`] with its texts as character sequences.
pub struct LegacyView {
    pub repo: Seq<char>,
    pub number: u64,
    pub status: Seq<char>,
    pub last_error: Option<Seq<char>>,
    pub attempts: u32,
    pub updated_at: Option<Seq<char>>,
}

impl View for LegacyEntryV0 {
    type V = LegacyView;

    open spec fn view(&self) -> LegacyView {
        LegacyView {
            repo: self.repo@,
            number: self.number,
            status: self.status@,
            last_error: text::opt(self.last_error),
            attempts: self.attempts,
            updated_at: text::opt(self.updated_at),
        }
    }
}

/// A queue file of the keyed form as it was decoded: not Unicode, with the
/// error's text, or what the decoder made of it.
pub enum KeyedText {
    NotUtf8(String),
    Decoded(Result<QueueFile, String>),
}

/// The queue in a file of the keyed form, or why it is refused.
pub open spec fn keyed_queue(t: KeyedText) -> Result<QueueMap, Fault> {
    match t {
        KeyedText::NotUtf8(e) => Err(
            Fault::StateCorrupt {
                path: "<queue-state>"@,
                message: "state file is not UTF-8: "@ + e@,
            },
        ),
        KeyedText::Decoded(Err(e)) => Err(
            Fault::StateCorrupt {
                path: queue::queue_scope(),
                message: "queue state JSON parse: "@ + e@,
            },
        ),
        KeyedText::Decoded(Ok(f)) => queue::queue_of(f),
    }
}

/// The queue in a file of the keyed form.
pub fn parse_v1(t: KeyedText) -> (r: Result<QueueState, CaduceusError>)
    ensures
        crate::error::seen(r) == keyed_queue(t),
        r matches Ok(s) ==> s.wf(),
{
    match t {
        KeyedText::NotUtf8(e) => Err(
            crate::error::corrupt(
                "<queue-state>",
                text::cat("state file is not UTF-8: ", e.as_str()),
            ),
        ),
        KeyedText::Decoded(read) => queue::parse_queue_state(read),
    }
}

/// The entries of a file of the listed form. `read` is an error, with the
/// decoder's message, when the bytes are no such file.
pub fn parse_v0(read: Result<Vec<LegacyEntryV0>, String>) -> (r: Result<
    Vec<LegacyEntryV0>,
    CaduceusError,
>)
    ensures
        match read {
            Ok(v) => r == Ok::<Vec<LegacyEntryV0>, CaduceusError>(v),
            Err(m) => r matches Err(e) && e@ == (Fault::StateCorrupt {
                path: "<legacy-state>"@,
                message: "legacy state JSON parse: "@ + m@,
            }),
        },
{
    match read {
        Ok(v) => Ok(v),
        Err(m) => Err(
            crate::error::corrupt(
                "<legacy-state>",
                text::cat("legacy state JSON parse: ", m.as_str()),
            ),
        ),
    }
}

/// The phase that a status of the listed form names; an unknown one is queued.
pub open spec fn legacy_phase(status: Seq<char>) -> Phase {
    if status == "queued"@ {
        Phase::Queued
    } else if status == "in_progress"@ {
        Phase::InProgress
    } else if status == "previewed"@ {
        Phase::Previewed
    } else if status == "done"@ {
        Phase::Done
    } else if status == "failed"@ {
        Phase::Failed
    } else if status == "skipped"@ {
        Phase::Skipped
    } else {
        Phase::Queued
    }
}

fn phase_of(status: &str) -> (r: Phase)
    ensures
        r == legacy_phase(status@),
{
    if text::same(status, "queued") {
        Phase::Queued
    } else if text::same(status, "in_progress") {
        Phase::InProgress
    } else if text::same(status, "previewed") {
        Phase::Previewed
    } else if text::same(status, "done") {
        Phase::Done
    } else if text::same(status, "failed") {
        Phase::Failed
    } else if text::same(status, "skipped") {
        Phase::Skipped
    } else {
        Phase::Queued
    }
}

/// The instant that a text states; `fallback` where it states none.
pub open spec fn legacy_time(value: Option<Seq<char>>, fallback: Timestamp) -> Timestamp {
    match value {
        Some(s) => match time::rfc3339(s) {
            Ok(t) => t,
            Err(_) => fallback,
        },
        None => fallback,
    }
}

/// The instant that a text states; `fallback` where it states none.
pub fn parse_legacy_timestamp(value: &Option<String>, fallback: Timestamp) -> (r: Timestamp)
    ensures
        r == legacy_time(text::opt(*value), fallback),
{
    match value {
        Some(s) => match time::parse_rfc3339(s.as_str()) {
            Ok(t) => t,
            Err(_) => fallback,
        },
        None => fallback,
    }
}

/// How an entry of the listed form refers to its issue.
pub open spec fn legacy_reference(l: LegacyView) -> Seq<char> {
    l.repo + "#"@ + text::dec(l.number as nat)
}

/// The queue entry that an entry of the listed form becomes. Issues with an
/// even number are investigations.
pub open spec fn legacy_entry(l: LegacyView, key: IssueView, now: Timestamp) -> EntryView {
    let at = legacy_time(l.updated_at, now);
    EntryView {
        key,
        phase: legacy_phase(l.status),
        ticket_type: if key.number % 2 == 0 {
            TicketType::Investigation
        } else {
            TicketType::Code
        },
        attempts: l.attempts,
        last_error: l.last_error,
        last_run_id: None,
        next_attempt_at: None,
        finalization: None,
        queued_at: at,
        updated_at: at,
        generation: 1,
    }
}

// ---------------------------------------------------------------------------
// The import
// ---------------------------------------------------------------------------

/// What an import adds to the queue, and how many entries it adds and skips.
pub struct ImportView {
    pub added: QueueMap,
    pub migrated: nat,
    pub skipped: nat,
}

/// What is imported of the first `n` entries of the listed form. An entry is
/// skipped where it refers to no issue, or to one that was imported before it
/// or is in the queue.
pub open spec fn listed_import(
    entries: Seq<LegacyEntryV0>,
    n: int,
    live: QueueMap,
    now: Timestamp,
) -> ImportView
    decreases n,
{
    if n <= 0 {
        ImportView { added: Map::empty(), migrated: 0, skipped: 0 }
    } else {
        let before = listed_import(entries, n - 1, live, now);
        let l = entries[n - 1]@;
        match issue::spelled(legacy_reference(l)) {
            None => ImportView { skipped: before.skipped + 1, ..before },
            Some(key) => {
                let k = key.display_key();
                if before.added.contains_key(k) || live.contains_key(k) {
                    ImportView { skipped: before.skipped + 1, ..before }
                } else {
                    ImportView {
                        added: before.added.insert(k, legacy_entry(l, key, now)),
                        migrated: before.migrated + 1,
                        ..before
                    }
                }
            },
        }
    }
}

/// The entries of a queue that are not in the live one.
pub open spec fn missing_from(input: QueueMap, live: QueueMap) -> QueueMap {
    Map::new(
        |k: Seq<char>| input.contains_key(k) && !live.contains_key(k),
        |k: Seq<char>| input[k],
    )
}

/// The keys under which the two queues differ.
pub open spec fn conflicts(input: QueueMap, live: QueueMap) -> Set<Seq<char>> {
    Set::new(
        |k: Seq<char>| input.contains_key(k) && live.contains_key(k) && live[k] != input[k],
    )
}

/// What an import adds, as it is computed.
pub struct Import {
    pub added: StringMap<QueueEntry>,
    pub migrated: u64,
    pub skipped: u64,
}

/// Import entries of the listed form.
pub fn import_listed(entries: &Vec<LegacyEntryV0>, live: &QueueState, now: Timestamp) -> (r: Import)
    requires
        live.wf(),
    ensures
        r.added.wf(),
        queue::keys_match(r.added@),
        r.added.keys.len() <= entries.len(),
        ({
            let i = listed_import(entries@, entries.len() as int, live@, now);
            &&& r.added@ == i.added
            &&& r.migrated == i.migrated
            &&& r.skipped == i.skipped
        }),
{
    let mut added: StringMap<QueueEntry> = StringMap::new();
    let mut migrated: u64 = 0;
    let mut skipped: u64 = 0;
    let mut i: usize = 0;
    while i < entries.len()
        invariant
            live.wf(),
            i <= entries.len(),
            added.wf(),
            queue::keys_match(added@),
            added.keys.len() <= i,
            migrated + skipped == i,
            added@ == listed_import(entries@, i as int, live@, now).added,
            migrated == listed_import(entries@, i as int, live@, now).migrated,
            skipped == listed_import(entries@, i as int, live@, now).skipped,
        decreases entries.len() - i,
    {
        let l = &entries[i];
        let mut reference = text::cat(l.repo.as_str(), "#");
        reference.append(text::decimal(l.number).as_str());
        match IssueKey::parse(reference.as_str()) {
            None => {
                skipped += 1;
            },
            Some(key) => {
                proof {
                    let c = choose|c: IssueView| c.valid() && issue::reads(reference@, c);
                    issue::law_a_text_spells_one_issue(reference@, key@, c);
                }
                let k = key.display_key();
                if added.position(k.as_str()).is_some() || live.entries.position(
                    k.as_str(),
                ).is_some() {
                    skipped += 1;
                } else {
                    let at = parse_legacy_timestamp(&l.updated_at, now);
                    let ticket_type = if key.number % 2 == 0 {
                        TicketType::Investigation
                    } else {
                        TicketType::Code
                    };
                    let entry = QueueEntry {
                        key,
                        phase: phase_of(l.status.as_str()),
                        ticket_type,
                        attempts: l.attempts,
                        last_error: l.last_error.clone(),
                        last_run_id: None,
                        next_attempt_at: None,
                        finalization: None,
                        queued_at: at,
                        updated_at: at,
                        generation: 1,
                    };
                    added.insert(k, entry);
                    migrated += 1;
                }
            },
        }
        i += 1;
    }
    Import { added, migrated, skipped }
}

fn same_checkpoint(a: &Option<FinalizationCheckpoint>, b: &Option<FinalizationCheckpoint>) -> (r:
    bool)
    ensures
        r == (queue::checkpoint(*a) == queue::checkpoint(*b)),
{
    match (a, b) {
        (None, None) => true,
        (Some(x), Some(y)) => text::same(x.run_id.as_str(), y.run_id.as_str()) && text::same(
            x.branch_name.as_str(),
            y.branch_name.as_str(),
        ) && text::same(x.result_path.as_str(), y.result_path.as_str()) && x.stage == y.stage
            && text::same_opt(&x.commit_oid, &y.commit_oid) && x.pr_number == y.pr_number
            && text::same_opt(&x.pr_url, &y.pr_url),
        _ => false,
    }
}

fn same_entry(a: &QueueEntry, b: &QueueEntry) -> (r: bool)
    ensures
        r == (a@ == b@),
{
    issue::same_issue(&a.key, &b.key) && a.phase == b.phase && a.ticket_type == b.ticket_type
        && a.attempts == b.attempts && text::same_opt(&a.last_error, &b.last_error)
        && text::same_opt(&a.last_run_id, &b.last_run_id) && a.next_attempt_at
        == b.next_attempt_at && same_checkpoint(&a.finalization, &b.finalization) && a.queued_at
        == b.queued_at && a.updated_at == b.updated_at && a.generation == b.generation
}

/// Import a queue of the keyed form. What the live queue holds already stays
/// as it is there: the same entry is passed over, and another one under the
/// same key is skipped.
pub fn import_keyed(input: &QueueState, live: &QueueState) -> (r: Import)
    requires
        input.wf(),
        live.wf(),
    ensures
        r.added.wf(),
        queue::keys_match(r.added@),
        r.added.keys.len() <= input.entries.keys.len(),
        r.added@ == missing_from(input@, live@),
        missing_from(input@, live@).dom().finite(),
        r.migrated == missing_from(input@, live@).dom().len(),
        conflicts(input@, live@).finite(),
        r.skipped == conflicts(input@, live@).len(),
        r.migrated + r.skipped <= input.entries.keys.len(),
{
    let mut added: StringMap<QueueEntry> = StringMap::new();
    let mut migrated: u64 = 0;
    let mut skipped: u64 = 0;
    let ghost mut fresh: Set<Seq<char>> = Set::empty();
    let ghost mut clash: Set<Seq<char>> = Set::empty();
    let ghost keys = input.entries.keys@;
    let mut i: usize = 0;
    while i < input.entries.len()
        invariant
            input.wf(),
            live.wf(),
            keys == input.entries.keys@,
            i <= input.entries.keys.len(),
            added.wf(),
            added.keys.len() <= i,
            migrated + skipped <= i,
            fresh.finite(),
            clash.finite(),
            migrated == fresh.len(),
            skipped == clash.len(),
            forall|k: Seq<char>| #[trigger]
                fresh.contains(k) <==> added@.contains_key(k),
            forall|k: Seq<char>| #[trigger]
                added@.contains_key(k) ==> input@.contains_key(k) && !live@.contains_key(k)
                    && added@[k] == input@[k] && text::among_first(keys, k, i as int),
            forall|j: int|
                0 <= j < i && !live@.contains_key(#[trigger] keys[j]@) ==> added@.contains_key(
                    keys[j]@,
                ),
            forall|k: Seq<char>| #[trigger]
                clash.contains(k) ==> conflicts(input@, live@).contains(k) && text::among_first(
                    keys,
                    k,
                    i as int,
                ),
            forall|j: int|
                0 <= j < i && conflicts(input@, live@).contains(#[trigger] keys[j]@)
                    ==> clash.contains(keys[j]@),
        decreases input.entries.keys.len() - i,
    {
        let key = &input.entries.keys[i];
        let entry = &input.entries.values[i];
        let ghost k = key@;
        proof {
            input.entries.lemma_at(i as int);
            if text::among_first(keys, k, i as int) {
                let j = choose|j: int| 0 <= j < i && keys[j]@ == k;
                text::lemma_str_lt_total(keys[j]@, keys[i as int]@);
            }
        }
        match live.entries.get(key.as_str()) {
            Some(existing) => {
                if !same_entry(existing, entry) {
                    proof {
                        assert(!clash.contains(k));
                        clash = clash.insert(k);
                        assert(keys[i as int]@ == k);
                    }
                    skipped += 1;
                }
            },
            None => {
                proof {
                    assert(!fresh.contains(k));
                    fresh = fresh.insert(k);
                    assert(keys[i as int]@ == k);
                }
                added.insert(key.clone(), entry.clone());
                migrated += 1;
            },
        }
        proof {
            assert forall|x: Seq<char>| text::among_first(keys, x, i as int) implies #[trigger] text::among_first(
                keys,
                x,
                i + 1,
            ) by {
                let j = choose|j: int| 0 <= j < i && keys[j]@ == x;
                assert(0 <= j < i + 1 && keys[j]@ == x);
            }
            assert(text::among_first(keys, k, i + 1)) by {
                assert(0 <= i < i + 1 && keys[i as int]@ == k);
            }
        }
        i += 1;
    }
    proof {
        assert forall|k: Seq<char>| input@.contains_key(k) implies exists|j: int|
            0 <= j < keys.len() && #[trigger] keys[j]@ == k by {
            let c = input.entries.lemma_position(k);
            assert(keys[c]@ == k);
        }
        assert(added@ =~= missing_from(input@, live@));
        assert(missing_from(input@, live@).dom() =~= fresh);
        assert(conflicts(input@, live@) =~= clash);
        assert(queue::keys_match(added@));
    }
    Import { added, migrated, skipped }
}

/// The queue once an import is installed: what it held stays, and what is new
/// is added.
pub open spec fn merged(live: QueueMap, added: QueueMap) -> QueueMap {
    live.union_prefer_right(added)
}

/// What an import does: the report, and the queue to install if there is one.
pub struct MigrationPlan {
    pub report: MigrationReport,
    pub install: Option<QueueState>,
}

/// The report of an import, and whether the queue is installed.
pub open spec fn reported(migrated: u64, skipped: u64, dry_run: bool, exists_already: bool) -> (
    MigrationReport,
    bool,
) {
    if dry_run {
        (
            MigrationReport {
                entries_migrated: (migrated + skipped) as u64,
                entries_skipped: 0,
                outcome: MigrationOutcome::DryRun {
                    would_migrate: migrated,
                    would_skip: skipped,
                },
            },
            false,
        )
    } else if migrated == 0 && skipped == 0 && exists_already {
        (
            MigrationReport {
                entries_migrated: 0,
                entries_skipped: 0,
                outcome: MigrationOutcome::AlreadyCurrent,
            },
            false,
        )
    } else {
        (
            MigrationReport {
                entries_migrated: migrated,
                entries_skipped: skipped,
                outcome: MigrationOutcome::Imported { migrated, skipped },
            },
            true,
        )
    }
}

fn merge(live: &QueueState, added: &StringMap<QueueEntry>) -> (r: QueueState)
    requires
        live.wf(),
        added.wf(),
        queue::keys_match(added@),
        live.entries.keys.len() + added.keys.len() < usize::MAX,
    ensures
        r.wf(),
        r@ == merged(live@, added@),
{
    let mut out: StringMap<QueueEntry> = StringMap::new();
    let mut i: usize = 0;
    while i < live.entries.len()
        invariant
            live.wf(),
            live.entries.keys.len() + added.keys.len() < usize::MAX,
            i <= live.entries.keys.len(),
            out.wf(),
            out.keys.len() <= i,
            forall|k: Seq<char>| #[trigger]
                out@.contains_key(k) ==> live@.contains_key(k) && out@[k] == live@[k],
            forall|j: int| 0 <= j < i ==> out@.contains_key(#[trigger] live.entries.keys@[j]@),
        decreases live.entries.keys.len() - i,
    {
        proof {
            live.entries.lemma_at(i as int);
        }
        out.insert(live.entries.keys[i].clone(), live.entries.values[i].clone());
        i += 1;
    }
    proof {
        assert forall|k: Seq<char>| live@.contains_key(k) implies out@.contains_key(k) by {
            let c = live.entries.lemma_position(k);
            assert(live.entries.keys@[c]@ == k);
        }
        assert(out@ =~= live@);
    }
    let mut j: usize = 0;
    while j < added.len()
        invariant
            added.wf(),
            live.entries.keys.len() + added.keys.len() < usize::MAX,
            j <= added.keys.len(),
            out.wf(),
            out.keys.len() <= live.entries.keys.len() + j,
            forall|k: Seq<char>| #[trigger]
                out@.contains_key(k) ==> merged(live@, added@).contains_key(k) && (
                added@.contains_key(k) && out@[k] == added@[k] || live@.contains_key(k) && out@[k]
                    == live@[k]),
            forall|k: Seq<char>| #[trigger] live@.contains_key(k) ==> out@.contains_key(k),
            forall|c: int|
                0 <= c < j ==> out@.contains_key(#[trigger] added.keys@[c]@) && out@[added.keys@[c]@]
                    == added@[added.keys@[c]@],
        decreases added.keys.len() - j,
    {
        proof {
            added.lemma_at(j as int);
        }
        out.insert(added.keys[j].clone(), added.values[j].clone());
        j += 1;
    }
    proof {
        assert forall|k: Seq<char>| added@.contains_key(k) implies out@.contains_key(k) && out@[k]
            == added@[k] by {
            let c = added.lemma_position(k);
            assert(added.keys@[c]@ == k);
        }
        assert(out@ =~= merged(live@, added@));
    }
    QueueState { version: queue::QUEUE_FILE_VERSION, entries: out }
}

/// What is done with an import: a dry run installs nothing, nor does one that
/// brings nothing new to a queue file that is there; any other installs the
/// live queue with the new entries.
pub fn conclude(import: Import, live: &QueueState, dry_run: bool, state_exists: bool) -> (r:
    MigrationPlan)
    requires
        live.wf(),
        import.added.wf(),
        queue::keys_match(import.added@),
        live.entries.keys.len() + import.added.keys.len() < usize::MAX,
        import.migrated + import.skipped <= u64::MAX,
    ensures
        r.report == reported(import.migrated, import.skipped, dry_run, state_exists).0,
        match r.install {
            Some(q) => reported(import.migrated, import.skipped, dry_run, state_exists).1 && q.wf()
                && q@ == merged(live@, import.added@),
            None => !reported(import.migrated, import.skipped, dry_run, state_exists).1,
        },
{
    let migrated = import.migrated;
    let skipped = import.skipped;
    if dry_run {
        return MigrationPlan {
            report: MigrationReport {
                entries_migrated: migrated + skipped,
                entries_skipped: 0,
                outcome: MigrationOutcome::DryRun {
                    would_migrate: migrated,
                    would_skip: skipped,
                },
            },
            install: None,
        };
    }
    if migrated == 0 && skipped == 0 && state_exists {
        return MigrationPlan {
            report: MigrationReport {
                entries_migrated: 0,
                entries_skipped: 0,
                outcome: MigrationOutcome::AlreadyCurrent,
            },
            install: None,
        };
    }
    MigrationPlan {
        report: MigrationReport {
            entries_migrated: migrated,
            entries_skipped: skipped,
            outcome: MigrationOutcome::Imported { migrated, skipped },
        },
        install: Some(merge(live, &import.added)),
    }
}

/// What is imported from.
pub enum ImportSource {
    Listed(Vec<LegacyEntryV0>),
    Keyed(QueueState),
}

/// What an import from a source adds, and how many entries it adds and skips.
pub open spec fn imported(source: ImportSource, live: QueueMap, now: Timestamp) -> ImportView {
    match source {
        ImportSource::Listed(v) => listed_import(v@, v@.len() as int, live, now),
        ImportSource::Keyed(q) => ImportView {
            added: missing_from(q@, live),
            migrated: missing_from(q@, live).dom().len(),
            skipped: conflicts(q@, live).len(),
        },
    }
}

/// Number of entries in a source.
pub open spec fn source_len(source: ImportSource) -> nat {
    match source {
        ImportSource::Listed(v) => v@.len(),
        ImportSource::Keyed(q) => q.entries.keys@.len(),
    }
}

/// Import a queue into the live one; a dry run only counts. `state_exists` says
/// whether there is a queue file yet.
pub fn run(
    source: &ImportSource,
    live: &QueueState,
    state_exists: bool,
    dry_run: bool,
    now: Timestamp,
) -> (r: MigrationPlan)
    requires
        live.wf(),
        *source matches ImportSource::Keyed(q) ==> q.wf(),
        live.entries.keys.len() + source_len(*source) < usize::MAX,
    ensures
        ({
            let i = imported(*source, live@, now);
            let (report, install) = reported(
                i.migrated as u64,
                i.skipped as u64,
                dry_run,
                state_exists,
            );
            &&& r.report == report
            &&& install ==> (r.install matches Some(q) && q.wf() && q@ == merged(live@, i.added))
            &&& !install ==> r.install is None
        }),
{
    let import = match source {
        ImportSource::Listed(v) => import_listed(v, live, now),
        ImportSource::Keyed(q) => import_keyed(q, live),
    };
    proof {
        lemma_import_counts(*source, live@, now);
    }
    conclude(import, live, dry_run, state_exists)
}

proof fn lemma_import_counts(source: ImportSource, live: QueueMap, now: Timestamp)
    ensures
        source matches ImportSource::Listed(v) ==> imported(source, live, now).migrated + imported(
            source,
            live,
            now,
        ).skipped <= v@.len(),
{
    match source {
        ImportSource::Listed(v) => {
            lemma_listed_counts(v@, v@.len() as int, live, now);
        },
        _ => {},
    }
}

proof fn lemma_listed_counts(entries: Seq<LegacyEntryV0>, n: int, live: QueueMap, now: Timestamp)
    requires
        0 <= n,
    ensures
        listed_import(entries, n, live, now).migrated + listed_import(
            entries,
            n,
            live,
            now,
        ).skipped == n,
    decreases n,
{
    if n > 0 {
        lemma_listed_counts(entries, n - 1, live, now);
    }
}

// ---------------------------------------------------------------------------
// Recovery
// ---------------------------------------------------------------------------

/// Result of a recovery.
#[derive(Debug)]
pub struct RecoveryReport {
    /// Where the corrupt file went, if there was one.
    pub archived_corrupt: Option<String>,
    pub installed_from: String,
    pub cleared_marker: bool,
}

/// The next thing that a recovery does.
pub enum RecoveryStep {
    /// Move the queue file to the archive.
    Archive { to: String },
    /// Install the repaired queue.
    Install { archived: Option<String> },
    /// Move the archived file back; the recovery has failed.
    Restore { from: String },
    /// Remove the corruption marker.
    ClearMarker { archived: Option<String> },
    Finished(RecoveryReport),
    Failed,
}

/// How a step went. For an installation `marker` says whether there is a
/// corruption marker.
pub enum RecoveryEvent {
    Done { marker: bool },
    Failed,
}

/// The name under which a corrupt queue file is kept.
pub open spec fn archive_path(state_dir: Seq<char>, stamp: u64) -> Seq<char> {
    path::joined(state_dir, "state.json.corrupt-"@ + text::dec(stamp as nat))
}

/// The name under which the queue file is backed up before an installation.
pub fn backup_path(state_dir: &str, stamp: u64) -> (r: String)
    ensures
        r@ == path::joined(state_dir@, "state.json.bak-"@ + text::dec(stamp as nat)),
{
    path::join(
        state_dir,
        text::cat("state.json.bak-", text::decimal(stamp).as_str()).as_str(),
    )
}

/// A step by its view.
pub enum StepView {
    Archive { to: Seq<char> },
    Install { archived: Option<Seq<char>> },
    Restore { from: Seq<char> },
    ClearMarker { archived: Option<Seq<char>> },
    Finished { archived: Option<Seq<char>>, installed_from: Seq<char>, cleared: bool },
    Failed,
}

impl View for RecoveryStep {
    type V = StepView;

    open spec fn view(&self) -> StepView {
        match *self {
            RecoveryStep::Archive { to } => StepView::Archive { to: to@ },
            RecoveryStep::Install { archived } => StepView::Install {
                archived: text::opt(archived),
            },
            RecoveryStep::Restore { from } => StepView::Restore { from: from@ },
            RecoveryStep::ClearMarker { archived } => StepView::ClearMarker {
                archived: text::opt(archived),
            },
            RecoveryStep::Finished(r) => StepView::Finished {
                archived: text::opt(r.archived_corrupt),
                installed_from: r.installed_from@,
                cleared: r.cleared_marker,
            },
            RecoveryStep::Failed => StepView::Failed,
        }
    }
}

/// The first thing that a recovery does, once the repaired queue is valid: a
/// queue file that is there is archived before anything replaces it.
pub fn begin_recovery(state_dir: &str, active_exists: bool, stamp: u64) -> (r: RecoveryStep)
    ensures
        r@ == (if active_exists {
            StepView::Archive { to: archive_path(state_dir@, stamp) }
        } else {
            StepView::Install { archived: None }
        }),
{
    if active_exists {
        RecoveryStep::Archive {
            to: path::join(
                state_dir,
                text::cat("state.json.corrupt-", text::decimal(stamp).as_str()).as_str(),
            ),
        }
    } else {
        RecoveryStep::Install { archived: None }
    }
}

/// What follows a step.
pub open spec fn recovery_after(
    step: StepView,
    event: RecoveryEvent,
    clear_marker: bool,
    repaired: Seq<char>,
) -> StepView {
    match (step, event) {
        (StepView::Archive { to }, RecoveryEvent::Done { .. }) => StepView::Install {
            archived: Some(to),
        },
        (StepView::Install { archived }, RecoveryEvent::Done { marker }) => if clear_marker
            && marker {
            StepView::ClearMarker { archived }
        } else {
            StepView::Finished { archived, installed_from: repaired, cleared: false }
        },
        (StepView::Install { archived: Some(a) }, RecoveryEvent::Failed) => StepView::Restore {
            from: a,
        },
        (StepView::ClearMarker { archived }, RecoveryEvent::Done { .. }) => StepView::Finished {
            archived,
            installed_from: repaired,
            cleared: true,
        },
        (
            StepView::Finished { archived, installed_from, cleared },
            _,
        ) => StepView::Finished { archived, installed_from, cleared },
        _ => StepView::Failed,
    }
}

/// The next thing that a recovery does.
pub fn next_recovery(
    step: RecoveryStep,
    event: RecoveryEvent,
    clear_marker: bool,
    repaired: &str,
) -> (r: RecoveryStep)
    ensures
        r@ == recovery_after(step@, event, clear_marker, repaired@),
{
    match (step, event) {
        (RecoveryStep::Archive { to }, RecoveryEvent::Done { .. }) => RecoveryStep::Install {
            archived: Some(to),
        },
        (RecoveryStep::Install { archived }, RecoveryEvent::Done { marker }) => {
            if clear_marker && marker {
                RecoveryStep::ClearMarker { archived }
            } else {
                RecoveryStep::Finished(
                    RecoveryReport {
                        archived_corrupt: archived,
                        installed_from: repaired.to_owned(),
                        cleared_marker: false,
                    },
                )
            }
        },
        (RecoveryStep::Install { archived: Some(a) }, RecoveryEvent::Failed) => {
            RecoveryStep::Restore { from: a }
        },
        (RecoveryStep::ClearMarker { archived }, RecoveryEvent::Done { .. }) => {
            RecoveryStep::Finished(
                RecoveryReport {
                    archived_corrupt: archived,
                    installed_from: repaired.to_owned(),
                    cleared_marker: true,
                },
            )
        },
        (RecoveryStep::Finished(r), _) => RecoveryStep::Finished(r),
        _ => RecoveryStep::Failed,
    }
}

// ---------------------------------------------------------------------------
// Laws
// ---------------------------------------------------------------------------

/// The live queue is authoritative: an import changes none of its entries and
/// drops none.
pub proof fn law_the_live_queue_is_left_alone(
    source: ImportSource,
    live: QueueMap,
    now: Timestamp,
    k: Seq<char>,
)
    requires
        live.contains_key(k),
    ensures
        merged(live, imported(source, live, now).added).contains_key(k),
        merged(live, imported(source, live, now).added)[k] == live[k],
{
    match source {
        ImportSource::Listed(v) => {
            lemma_listed_is_new(v@, v@.len() as int, live, now, k);
        },
        _ => {},
    }
}

proof fn lemma_listed_is_new(
    entries: Seq<LegacyEntryV0>,
    n: int,
    live: QueueMap,
    now: Timestamp,
    k: Seq<char>,
)
    requires
        live.contains_key(k),
    ensures
        !listed_import(entries, n, live, now).added.contains_key(k),
    decreases n,
{
    if n > 0 {
        lemma_listed_is_new(entries, n - 1, live, now, k);
    }
}

/// Importing a keyed queue twice brings nothing the second time.
pub proof fn law_an_import_is_idempotent(input: QueueMap, live: QueueMap)
    ensures
        ({
            let after = merged(live, missing_from(input, live));
            missing_from(input, after) =~= QueueMap::empty()
        }),
{
}

/// Every entry of the listed form is either imported or skipped.
pub proof fn law_every_entry_is_counted(
    entries: Seq<LegacyEntryV0>,
    live: QueueMap,
    now: Timestamp,
)
    ensures
        ({
            let i = listed_import(entries, entries.len() as int, live, now);
            i.migrated + i.skipped == entries.len()
        }),
{
    lemma_listed_counts(entries, entries.len() as int, live, now);
}

/// A dry run installs nothing, and tells what the real run does: the entries
/// that it migrates and the entries that it skips.
pub proof fn law_a_dry_run_foretells_the_import(migrated: u64, skipped: u64, state_exists: bool)
    ensures
        !reported(migrated, skipped, true, state_exists).1,
        reported(migrated, skipped, true, state_exists).0.outcome == (MigrationOutcome::DryRun {
            would_migrate: migrated,
            would_skip: skipped,
        }),
        reported(migrated, skipped, false, state_exists).0.entries_migrated == migrated,
        reported(migrated, skipped, false, state_exists).0.entries_skipped == skipped,
{
}

/// A failed installation puts the archived file back, and the marker is
/// cleared only after an installation that succeeded.
pub proof fn law_a_recovery_never_loses_the_original(
    archived: Seq<char>,
    step: StepView,
    event: RecoveryEvent,
    clear_marker: bool,
    repaired: Seq<char>,
)
    ensures
        recovery_after(
            StepView::Install { archived: Some(archived) },
            RecoveryEvent::Failed,
            clear_marker,
            repaired,
        ) == (StepView::Restore { from: archived }),
        recovery_after(step, event, clear_marker, repaired) is ClearMarker ==> step is Install
            && event is Done && clear_marker,
        recovery_after(step, event, clear_marker, repaired) is Install ==> step is Archive && event
            is Done,
{
}

proof fn lemma_first_solid(bytes: Seq<u8>, i: int)
    requires
        0 <= i,
    ensures
        first_solid(bytes, i) matches Some(b) ==> exists|k: int|
            i <= k < bytes.len() && #[trigger] bytes[k] == b && !is_space(b) && forall|j: int|
                i <= j < k ==> is_space(#[trigger] bytes[j]),
        first_solid(bytes, i) is None ==> forall|j: int|
            i <= j < bytes.len() ==> is_space(#[trigger] bytes[j]),
    decreases bytes.len() - i,
{
    if i < bytes.len() && is_space(bytes[i]) {
        lemma_first_solid(bytes, i + 1);
        if first_solid(bytes, i) is Some {
            let b = first_solid(bytes, i)->0;
            let k = choose|k: int|
                i + 1 <= k < bytes.len() && #[trigger] bytes[k] == b && !is_space(b)
                    && forall|j: int| i + 1 <= j < k ==> is_space(#[trigger] bytes[j]);
            assert(bytes[k] == b);
        }
    } else if i < bytes.len() {
        assert(bytes[i] == bytes[i]);
    }
}

/// A file is taken when its first byte that is no white space opens an object or a
/// list; it is in the form of a list exactly where its entries are one.
pub proof fn law_a_document_is_recognised(file: ImportFile, from: Seq<char>)
    ensures
        form_of(file, from) is Ok <==> (file matches ImportFile::Bytes(b) && b@.len() > 0 && (
        first_solid(b@, 0) == Some(123u8) || first_solid(b@, 0) == Some(91u8))),
        form_of(file, from) is Ok ==> (form_of(file, from)->Ok_0 == QueueForm::Listed <==> listed(
            file->Bytes_0@,
        )),
        file is Missing ==> form_of(file, from) == Err::<QueueForm, Fault>(
            Fault::Io("--from "@ + from + " does not exist"@),
        ),
        file matches ImportFile::Unreadable(e) ==> form_of(file, from) == Err::<QueueForm, Fault>(
            Fault::StateCorrupt { path: from, message: "read legacy state: "@ + e@ },
        ),
        file matches ImportFile::Bytes(b) ==> (b@.len() == 0 ==> form_of(file, from) == Err::<
            QueueForm,
            Fault,
        >(Fault::StateCorrupt { path: from, message: "legacy state file is empty"@ })),
{
}

proof fn lemma_name_from(bytes: Seq<u8>, i: int)
    requires
        0 <= i,
    ensures
        match name_from(bytes, i) {
            Some(k) => i <= k && name_at(bytes, k) && forall|j: int|
                i <= j < k ==> !#[trigger] name_at(bytes, j),
            None => forall|j: int| i <= j ==> !#[trigger] name_at(bytes, j),
        },
    decreases bytes.len() - i,
{
    if i + 9 <= bytes.len() && !name_at(bytes, i) {
        lemma_name_from(bytes, i + 1);
    }
}

/// The entries are a list exactly when, behind the first field of that name, an
/// opening bracket follows after nothing but colons and blanks.
pub proof fn law_a_list_stands_behind_its_name(bytes: Seq<u8>, at: int, open: int)
    requires
        0 <= at,
        name_at(bytes, at),
        forall|j: int| 0 <= j < at ==> !#[trigger] name_at(bytes, j),
        at + 9 <= open < bytes.len(),
        forall|j: int|
            at + 9 <= j < open ==> seq![58u8, 32, 9, 10, 13].contains(#[trigger] bytes[j]),
        !seq![58u8, 32, 9, 10, 13].contains(bytes[open]),
    ensures
        listed(bytes) <==> bytes[open] == 91,
{
    lemma_name_from(bytes, 0);
    match name_from(bytes, 0) {
        Some(k) => {
            if k < at {
                assert(!name_at(bytes, k));
            }
            if at < k {
                assert(!name_at(bytes, at));
            }
        },
        None => {},
    }
    lemma_list_follows(bytes, at + 9, open);
}

proof fn lemma_list_follows(bytes: Seq<u8>, i: int, open: int)
    requires
        0 <= i <= open < bytes.len(),
        forall|j: int| i <= j < open ==> seq![58u8, 32, 9, 10, 13].contains(#[trigger] bytes[j]),
        !seq![58u8, 32, 9, 10, 13].contains(bytes[open]),
    ensures
        list_follows(bytes, i) <==> bytes[open] == 91,
    decreases open - i,
{
    let blanks = seq![58u8, 32, 9, 10, 13];
    assert(blanks[0] == 58 && blanks[1] == 32 && blanks[2] == 9 && blanks[3] == 10 && blanks[4]
        == 13);
    if i < open {
        assert(blanks.contains(bytes[i]));
        lemma_list_follows(bytes, i + 1, open);
    }
}

/// The words of an old status, each with its phase; any other word is a queued
/// entry.
pub proof fn law_old_words_have_their_phases(status: Seq<char>)
    ensures
        legacy_phase("queued"@) == Phase::Queued,
        legacy_phase("in_progress"@) == Phase::InProgress,
        legacy_phase("previewed"@) == Phase::Previewed,
        legacy_phase("done"@) == Phase::Done,
        legacy_phase("failed"@) == Phase::Failed,
        legacy_phase("skipped"@) == Phase::Skipped,
        status != "in_progress"@ && status != "previewed"@ && status != "done"@ && status
            != "failed"@ && status != "skipped"@ ==> legacy_phase(status) == Phase::Queued,
{
    reveal_strlit("queued");
    reveal_strlit("in_progress");
    reveal_strlit("previewed");
    reveal_strlit("done");
    reveal_strlit("failed");
    reveal_strlit("skipped");
    assert("queued"@[0] == 'q');
    assert("in_progress"@[0] == 'i');
    assert("previewed"@[0] == 'p');
    assert("done"@[0] == 'd');
    assert("failed"@[0] == 'f');
    assert("skipped"@[0] == 's');
}

/// An old entry keeps its status, attempts and error. Its time is the one that it
/// gives, where that can be read, and now otherwise.
pub proof fn law_an_old_entry_keeps_what_it_says(l: LegacyView, key: IssueView, now: Timestamp)
    ensures
        ({
            let e = legacy_entry(l, key, now);
            let known = l.updated_at is Some && time::rfc3339(l.updated_at->0) is Ok;
            &&& e.key == key
            &&& e.phase == legacy_phase(l.status)
            &&& e.attempts == l.attempts
            &&& e.last_error == l.last_error
            &&& e.last_run_id is None
            &&& e.next_attempt_at is None
            &&& e.finalization is None
            &&& e.generation == 1
            &&& known ==> e.queued_at == time::rfc3339(l.updated_at->0)->Ok_0
            &&& !known ==> e.queued_at == now
            &&& e.updated_at == e.queued_at
            &&& key.number % 2 == 0 ==> e.ticket_type == TicketType::Investigation
            &&& key.number % 2 == 1 ==> e.ticket_type == TicketType::Code
        }),
{
}

/// An old entry is imported exactly when its reference reads as an issue that
/// neither the queue nor the import before it holds; otherwise it is skipped.
pub proof fn law_an_old_entry_is_imported_once(
    entries: Seq<LegacyEntryV0>,
    n: int,
    live: QueueMap,
    now: Timestamp,
)
    requires
        0 < n <= entries.len(),
    ensures
        ({
            let before = listed_import(entries, n - 1, live, now);
            let after = listed_import(entries, n, live, now);
            let l = entries[n - 1]@;
            let key = issue::spelled(l.repo + "#"@ + text::dec(l.number as nat));
            let fresh = key is Some && !live.contains_key(key->0.display_key())
                && !before.added.contains_key(key->0.display_key());
            &&& fresh ==> after.migrated == before.migrated + 1 && after.skipped == before.skipped
            &&& fresh ==> after.added == before.added.insert(
                key->0.display_key(),
                legacy_entry(l, key->0, now),
            )
            &&& !fresh ==> after.added == before.added && after.migrated == before.migrated
                && after.skipped == before.skipped + 1
        }),
        listed_import(entries, 0, live, now).migrated == 0,
        listed_import(entries, 0, live, now).skipped == 0,
        listed_import(entries, 0, live, now).added == QueueMap::empty(),
{
}

/// Of a queue, what the live one lacks is imported as it is; a conflict is an entry
/// that both hold and that differs.
pub proof fn law_a_queue_is_imported_where_it_is_new(
    input: QueueMap,
    live: QueueMap,
    k: Seq<char>,
)
    ensures
        missing_from(input, live).contains_key(k) <==> input.contains_key(k) && !live.contains_key(
            k,
        ),
        missing_from(input, live).contains_key(k) ==> missing_from(input, live)[k] == input[k],
        conflicts(input, live).contains(k) <==> input.contains_key(k) && live.contains_key(k)
            && live[k] != input[k],
        merged(live, missing_from(input, live)).contains_key(k) <==> input.contains_key(k)
            || live.contains_key(k),
        input.contains_key(k) && !live.contains_key(k) ==> merged(live, missing_from(input, live))[k]
            == input[k],
{
}

/// The queue file is installed exactly in a real run that has something to import,
/// or finds no queue yet.
pub proof fn law_an_import_is_installed_once(
    migrated: u64,
    skipped: u64,
    dry_run: bool,
    exists_already: bool,
)
    ensures
        reported(migrated, skipped, dry_run, exists_already).1 <==> !dry_run && (migrated > 0
            || skipped > 0 || !exists_already),
        !dry_run && migrated == 0 && skipped == 0 && exists_already ==> reported(
            migrated,
            skipped,
            dry_run,
            exists_already,
        ).0.outcome == MigrationOutcome::AlreadyCurrent,
        reported(migrated, skipped, dry_run, exists_already).1 ==> reported(
            migrated,
            skipped,
            dry_run,
            exists_already,
        ).0 == (MigrationReport {
            entries_migrated: migrated,
            entries_skipped: skipped,
            outcome: MigrationOutcome::Imported { migrated, skipped },
        }),
{
}

/// A recovery goes on step by step: archive, install, clear the marker where that
/// is asked for and there is one, and end with what was done.
pub proof fn law_a_recovery_goes_step_by_step(
    to: Seq<char>,
    archived: Option<Seq<char>>,
    clear: bool,
    marker: bool,
    repaired: Seq<char>,
)
    ensures
        recovery_after(
            StepView::Archive { to },
            RecoveryEvent::Done { marker },
            clear,
            repaired,
        ) == (StepView::Install { archived: Some(to) }),
        clear && marker ==> recovery_after(
            StepView::Install { archived },
            RecoveryEvent::Done { marker },
            clear,
            repaired,
        ) == (StepView::ClearMarker { archived }),
        !(clear && marker) ==> recovery_after(
            StepView::Install { archived },
            RecoveryEvent::Done { marker },
            clear,
            repaired,
        ) == (StepView::Finished { archived, installed_from: repaired, cleared: false }),
        recovery_after(
            StepView::ClearMarker { archived },
            RecoveryEvent::Done { marker },
            clear,
            repaired,
        ) == (StepView::Finished { archived, installed_from: repaired, cleared: true }),
        recovery_after(StepView::Archive { to }, RecoveryEvent::Failed, clear, repaired)
            == StepView::Failed,
        recovery_after(
            StepView::ClearMarker { archived },
            RecoveryEvent::Failed,
            clear,
            repaired,
        ) == StepView::Failed,
        recovery_after(
            StepView::Install { archived: None },
            RecoveryEvent::Failed,
            clear,
            repaired,
        ) == StepView::Failed,
{
}

/// The archive is in the state directory, under a name of its own.
pub proof fn law_the_archive_is_beside_the_queue(state_dir: Seq<char>, stamp: u64)
    ensures
        archive_path(state_dir, stamp) == path::joined(
            state_dir,
            "state.json.corrupt-"@ + text::dec(stamp as nat),
        ),
{
}

/// A queue in text is read as the queue file that it is; otherwise the error says
/// where it stopped.
pub proof fn law_a_queue_in_text_is_a_queue_file(t: KeyedText)
    ensures
        t matches KeyedText::Decoded(Ok(f)) ==> keyed_queue(t) == queue::queue_of(f),
        t matches KeyedText::Decoded(Err(e)) ==> keyed_queue(t) is Err && keyed_queue(t)->Err_0
            is StateCorrupt && crate::error::message(keyed_queue(t)->Err_0)
            == "queue state JSON parse: "@ + e@,
        t matches KeyedText::NotUtf8(e) ==> keyed_queue(t) == Err::<QueueMap, Fault>(
            Fault::StateCorrupt {
                path: "<queue-state>"@,
                message: "state file is not UTF-8: "@ + e@,
            },
        ),
{
}

/// A file that is no document is refused in these words.
pub proof fn law_no_document_is_refused(b: Vec<u8>, from: Seq<char>)
    requires
        b@.len() > 0,
        first_solid(b@, 0) != Some(123u8),
        first_solid(b@, 0) != Some(91u8),
    ensures
        form_of(ImportFile::Bytes(b), from) == Err::<QueueForm, Fault>(
            Fault::StateCorrupt {
                path: from,
                message: "legacy state is not a JSON object/array"@,
            },
        ),
{
}

/// The field of the entries is found by its quoted name.
pub proof fn law_the_entries_are_found_by_name(bytes: Seq<u8>, i: int)
    requires
        0 <= i,
    ensures
        entries_name() == "\"entries\""@.map_values(|c: char| c as u8),
        name_at(bytes, i) <==> i + 9 <= bytes.len() && bytes.subrange(i, i + 9)
            == "\"entries\""@.map_values(|c: char| c as u8),
{
    reveal_strlit("\"entries\"");
    assert(entries_name() =~= "\"entries\""@.map_values(|c: char| c as u8));
}

} // verus!
