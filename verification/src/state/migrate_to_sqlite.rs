//! Import of the JSON state into the database.

use vstd::prelude::*;

use crate::error::{CaduceusError, Fault};
use crate::json;
use crate::json::{FieldView, Json, JsonField, JsonView};
use crate::text;
use crate::time;
use crate::time::Timestamp;
use crate::yaml;

verus! {

/// Is the daemon's lock taken?
#[derive(Clone, Copy, Debug, PartialEq, Eq, Structural)]
pub enum LockPolicy {
    Acquire,
    /// The caller holds it.
    Skip,
}

/// What the import did.
#[derive(Clone, Copy, Debug, PartialEq, Eq, Structural)]
pub enum SqliteMigrationOutcome {
    Migrated { entries: u64 },
    /// Nothing was changed.
    DryRun { would_migrate: u64 },
    /// There is nothing to import.
    AlreadyCurrent,
}

/// Result of the import.
#[derive(Clone, Copy, Debug, PartialEq, Eq, Structural)]
pub struct SqliteMigrationReport {
    pub outcome: SqliteMigrationOutcome,
}

/// Must the import hold the daemon's lock?
pub fn needs_daemon_lock(lock_policy: LockPolicy, dry_run: bool) -> (r: bool)
    ensures
        r == (lock_policy == LockPolicy::Acquire && !dry_run),
{
    lock_policy == LockPolicy::Acquire && !dry_run
}

/// The error for a lock that another tick holds.
pub fn lock_contended() -> (r: CaduceusError)
    ensures
        r@ == (Fault::Queue {
            context: "migrate-to-sqlite"@,
            stderr: "another tick holds daemon.lock; refusing to migrate"@,
        }),
{
    CaduceusError::Queue {
        context: "migrate-to-sqlite",
        stderr: "another tick holds daemon.lock; refusing to migrate".to_owned(),
    }
}

/// A row of the queue table that the import writes.
#[derive(Debug)]
pub struct QueueRow {
    pub issue_key: String,
    pub phase: String,
    pub ticket_type: String,
    pub attempts: i64,
    pub last_error: Option<String>,
    pub last_run_id: Option<String>,
    pub next_attempt_at: Option<String>,
    pub finalization: Option<String>,
    pub queued_at: String,
    pub updated_at: String,
    pub generation: i64,
}

/// A [`QueueRow`] with its texts as character sequences.
pub struct QueueRowView {
    pub issue_key: Seq<char>,
    pub phase: Seq<char>,
    pub ticket_type: Seq<char>,
    pub attempts: i64,
    pub last_error: Option<Seq<char>>,
    pub last_run_id: Option<Seq<char>>,
    pub next_attempt_at: Option<Seq<char>>,
    pub finalization: Option<Seq<char>>,
    pub queued_at: Seq<char>,
    pub updated_at: Seq<char>,
    pub generation: i64,
}

impl View for QueueRow {
    type V = QueueRowView;

    open spec fn view(&self) -> QueueRowView {
        QueueRowView {
            issue_key: self.issue_key@,
            phase: self.phase@,
            ticket_type: self.ticket_type@,
            attempts: self.attempts,
            last_error: text::opt(self.last_error),
            last_run_id: text::opt(self.last_run_id),
            next_attempt_at: text::opt(self.next_attempt_at),
            finalization: text::opt(self.finalization),
            queued_at: self.queued_at@,
            updated_at: self.updated_at@,
            generation: self.generation,
        }
    }
}

/// A row of the metadata table: a key, and its value as JSON.
#[derive(Debug)]
pub struct MetaRow {
    pub key: String,
    pub value: String,
}

/// A [`MetaRow`] with its texts as character sequences.
pub struct MetaRowView {
    pub key: Seq<char>,
    pub value: Seq<char>,
}

impl View for MetaRow {
    type V = MetaRowView;

    open spec fn view(&self) -> MetaRowView {
        MetaRowView { key: self.key@, value: self.value@ }
    }
}

/// A text, or another where there is none.
pub open spec fn or_text(s: Option<Seq<char>>, other: Seq<char>) -> Seq<char> {
    match s {
        Some(s) => s,
        None => other,
    }
}

/// The row that a queue entry becomes. What the entry does not say is filled
/// in: queued, code, no attempts, and the time of the import.
pub open spec fn queue_row(entry: FieldView, now: Seq<char>) -> QueueRowView {
    let v = entry.value;
    QueueRowView {
        issue_key: entry.name,
        phase: or_text(v.field_text("phase"@), "queued"@),
        ticket_type: or_text(v.field_text("ticket_type"@), "code"@),
        attempts: match v.field("attempts"@) {
            Some(f) => match f.value.as_signed() {
                Some(n) => n,
                None => 0,
            },
            None => 0,
        },
        last_error: v.field_text("last_error"@),
        last_run_id: v.field_text("last_run_id"@),
        next_attempt_at: v.field_text("next_attempt_at"@),
        finalization: match v.field("finalization"@) {
            Some(f) => Some(f.text),
            None => None,
        },
        queued_at: or_text(v.field_text("queued_at"@), now),
        updated_at: or_text(v.field_text("updated_at"@), now),
        generation: 1,
    }
}

/// The rows that the queue's entries become.
pub open spec fn queue_rows(entries: Seq<FieldView>, now: Seq<char>) -> Seq<QueueRowView> {
    entries.map_values(|e: FieldView| queue_row(e, now))
}

/// The rows that the metadata's members become.
pub open spec fn meta_rows(fields: Seq<FieldView>) -> Seq<MetaRowView> {
    fields.map_values(|f: FieldView| MetaRowView { key: f.name, value: f.text })
}

/// A file of the JSON state as it was read: not there, an error with its text,
/// or its bytes.
pub enum StateFile {
    Missing,
    Unreadable(String),
    Bytes(Vec<u8>),
}

/// The document in a state file; none where the file is missing.
pub open spec fn file_document(file: StateFile, path: Seq<char>, what: Seq<char>) -> Result<
    Option<JsonView>,
    Fault,
> {
    match file {
        StateFile::Missing => Ok(None),
        StateFile::Unreadable(e) => Err(
            Fault::StateCorrupt { path, message: "cannot read "@ + what + ": "@ + e@ },
        ),
        StateFile::Bytes(b) => match json::document_in(b@) {
            Ok(j) => Ok(Some(j)),
            Err(e) => Err(
                Fault::StateCorrupt {
                    path,
                    message: "cannot parse "@ + what + " JSON: "@ + e,
                },
            ),
        },
    }
}

/// The entries in a queue document.
pub open spec fn entries_of(doc: Option<JsonView>) -> Seq<FieldView> {
    match doc {
        Some(j) => match j.field("entries"@) {
            Some(f) => json::members(f.value),
            None => Seq::empty(),
        },
        None => Seq::empty(),
    }
}

/// The members of a metadata document.
pub open spec fn metadata_of(doc: Option<JsonView>) -> Seq<FieldView> {
    match doc {
        Some(j) => json::members(j),
        None => Seq::empty(),
    }
}

/// What an import does: the report, and the rows to write.
pub struct ImportPlan {
    pub report: SqliteMigrationReport,
    pub queue: Vec<QueueRow>,
    pub meta: Vec<MetaRow>,
}

/// An [`ImportPlan`] by its views.
pub struct ImportView {
    pub outcome: SqliteMigrationOutcome,
    pub queue: Seq<QueueRowView>,
    pub meta: Seq<MetaRowView>,
}

impl View for ImportPlan {
    type V = ImportView;

    open spec fn view(&self) -> ImportView {
        ImportView {
            outcome: self.report.outcome,
            queue: self.queue@.map_values(|r: QueueRow| r@),
            meta: self.meta@.map_values(|r: MetaRow| r@),
        }
    }
}

/// What an import of the two documents does.
pub open spec fn import_of(
    queue: Option<JsonView>,
    meta: Option<JsonView>,
    dry_run: bool,
    now: Seq<char>,
) -> ImportView {
    let entries = entries_of(queue);
    let fields = metadata_of(meta);
    if entries.len() == 0 && fields.len() == 0 {
        ImportView {
            outcome: SqliteMigrationOutcome::AlreadyCurrent,
            queue: Seq::empty(),
            meta: Seq::empty(),
        }
    } else if dry_run {
        ImportView {
            outcome: SqliteMigrationOutcome::DryRun { would_migrate: entries.len() as u64 },
            queue: Seq::empty(),
            meta: Seq::empty(),
        }
    } else {
        ImportView {
            outcome: SqliteMigrationOutcome::Migrated { entries: entries.len() as u64 },
            queue: queue_rows(entries, now),
            meta: meta_rows(fields),
        }
    }
}

fn field_or(v: &Json, name: &str, other: &str) -> (r: String)
    ensures
        r@ == or_text(v@.field_text(name@), other@),
{
    match v.get_text(name) {
        Some(s) => s,
        None => other.to_owned(),
    }
}

fn import_entry(entry: &JsonField, now: &str) -> (r: QueueRow)
    ensures
        r@ == queue_row(entry@, now@),
{
    let v = &entry.value;
    let attempts: i64 = match v.get("attempts") {
        Some(f) => match f.value.as_i64() {
            Some(n) => n,
            None => 0,
        },
        None => 0,
    };
    QueueRow {
        issue_key: entry.name.clone(),
        phase: field_or(v, "phase", "queued"),
        ticket_type: field_or(v, "ticket_type", "code"),
        attempts,
        last_error: v.get_text("last_error"),
        last_run_id: v.get_text("last_run_id"),
        next_attempt_at: v.get_text("next_attempt_at"),
        finalization: match v.get("finalization") {
            Some(f) => Some(f.text.clone()),
            None => None,
        },
        queued_at: field_or(v, "queued_at", now),
        updated_at: field_or(v, "updated_at", now),
        generation: 1,
    }
}

fn read_file(file: &StateFile, path: &str, what: &str) -> (r: Result<Option<Json>, CaduceusError>)
    ensures
        match r {
            Ok(None) => file_document(*file, path@, what@) == Ok::<Option<JsonView>, Fault>(None),
            Ok(Some(j)) => file_document(*file, path@, what@) == Ok::<Option<JsonView>, Fault>(
                Some(j@),
            ),
            Err(e) => file_document(*file, path@, what@) == Err::<Option<JsonView>, Fault>(e@),
        },
{
    match file {
        StateFile::Missing => Ok(None),
        StateFile::Unreadable(e) => {
            let mut m = text::cat("cannot read ", what);
            m.append(": ");
            m.append(e.as_str());
            Err(crate::error::corrupt(path, m))
        },
        StateFile::Bytes(b) => match json::parse_json_bytes(b) {
            Ok(j) => Ok(Some(j)),
            Err(e) => {
                let mut m = text::cat("cannot parse ", what);
                m.append(" JSON: ");
                m.append(e.as_str());
                Err(crate::error::corrupt(path, m))
            },
        },
    }
}

/// A document by its view.
pub open spec fn seen(doc: Option<Json>) -> Option<JsonView> {
    match doc {
        Some(j) => Some(j@),
        None => None,
    }
}

/// What an import of two parsed documents does.
pub fn plan_import(queue: &Option<Json>, meta: &Option<Json>, dry_run: bool, now: &str) -> (r:
    ImportPlan)
    ensures
        r@ == import_of(seen(*queue), seen(*meta), dry_run, now@),
{
    let ghost qdoc = seen(*queue);
    let ghost mdoc = seen(*meta);
    let none: Vec<JsonField> = Vec::new();
    let entries: &Vec<JsonField> = match queue {
        Some(j) => match j.get("entries") {
            Some(f) => match f.value.fields() {
                Some(v) => v,
                None => &none,
            },
            None => &none,
        },
        None => &none,
    };
    let fields: &Vec<JsonField> = match meta {
        Some(j) => match j.fields() {
            Some(v) => v,
            None => &none,
        },
        None => &none,
    };
    proof {
        assert(json::field_views(none@) =~= Seq::<FieldView>::empty());
        assert(json::field_views(entries@) == entries_of(qdoc));
        assert(json::field_views(fields@) == metadata_of(mdoc));
        assert(json::field_views(entries@).len() == entries.len());
        assert(json::field_views(fields@).len() == fields.len());
    }
    let mut rows: Vec<QueueRow> = Vec::new();
    let mut pairs: Vec<MetaRow> = Vec::new();
    proof {
        assert(rows@.map_values(|r: QueueRow| r@) =~= Seq::<QueueRowView>::empty());
        assert(pairs@.map_values(|r: MetaRow| r@) =~= Seq::<MetaRowView>::empty());
    }
    if entries.len() == 0 && fields.len() == 0 {
        return ImportPlan {
            report: SqliteMigrationReport { outcome: SqliteMigrationOutcome::AlreadyCurrent },
            queue: rows,
            meta: pairs,
        };
    }
    let count: u64 = entries.len() as u64;
    if dry_run {
        return ImportPlan {
            report: SqliteMigrationReport {
                outcome: SqliteMigrationOutcome::DryRun { would_migrate: count },
            },
            queue: rows,
            meta: pairs,
        };
    }
    let mut i: usize = 0;
    while i < entries.len()
        invariant
            i <= entries.len(),
            rows.len() == i,
            forall|j: int|
                0 <= j < i ==> (#[trigger] rows@[j])@ == queue_row(
                    json::field_views(entries@)[j],
                    now@,
                ),
        decreases entries.len() - i,
    {
        proof {
            assert(json::field_views(entries@)[i as int] == entries@[i as int]@);
        }
        rows.push(import_entry(&entries[i], now));
        i += 1;
    }
    let mut k: usize = 0;
    while k < fields.len()
        invariant
            k <= fields.len(),
            pairs.len() == k,
            forall|j: int|
                0 <= j < k ==> (#[trigger] pairs@[j])@ == (MetaRowView {
                    key: json::field_views(fields@)[j].name,
                    value: json::field_views(fields@)[j].text,
                }),
        decreases fields.len() - k,
    {
        proof {
            assert(json::field_views(fields@)[k as int] == fields@[k as int]@);
        }
        pairs.push(MetaRow { key: fields[k].name.clone(), value: fields[k].text.clone() });
        k += 1;
    }
    proof {
        assert(rows@.map_values(|r: QueueRow| r@) =~= queue_rows(entries_of(qdoc), now@));
        assert(pairs@.map_values(|r: MetaRow| r@) =~= meta_rows(metadata_of(mdoc)));
    }
    ImportPlan {
        report: SqliteMigrationReport {
            outcome: SqliteMigrationOutcome::Migrated { entries: count },
        },
        queue: rows,
        meta: pairs,
    }
}

/// What an import of the JSON state does, or why it cannot be done. The files
/// themselves stay as they are.
pub fn migrate_to_sqlite(
    state_path: &str,
    state: &StateFile,
    meta_path: &str,
    meta: &StateFile,
    dry_run: bool,
    now: Timestamp,
) -> (r: Result<ImportPlan, CaduceusError>)
    requires
        now.valid(),
    ensures
        match (
            file_document(*state, state_path@, "queue state"@),
            file_document(*meta, meta_path@, "state metadata"@),
        ) {
            (Err(f), _) => r matches Err(e) && e@ == f,
            (Ok(_), Err(f)) => r matches Err(e) && e@ == f,
            (Ok(q), Ok(m)) => r matches Ok(plan) && plan@ == import_of(
                q,
                m,
                dry_run,
                time::rfc3339_text(now),
            ),
        },
{
    let queue_doc = match read_file(state, state_path, "queue state") {
        Ok(d) => d,
        Err(e) => return Err(e),
    };
    let meta_doc = match read_file(meta, meta_path, "state metadata") {
        Ok(d) => d,
        Err(e) => return Err(e),
    };
    let at = time::format_rfc3339(now);
    Ok(plan_import(&queue_doc, &meta_doc, dry_run, at.as_str()))
}

/// Every entry of the queue becomes one row, under its own key and in its
/// order, and a dry run writes nothing.
pub proof fn law_the_import_is_complete(
    queue: Option<JsonView>,
    meta: Option<JsonView>,
    now: Seq<char>,
    i: int,
)
    requires
        0 <= i < entries_of(queue).len(),
    ensures
        import_of(queue, meta, false, now).queue.len() == entries_of(queue).len(),
        import_of(queue, meta, false, now).queue[i].issue_key == entries_of(queue)[i].name,
        import_of(queue, meta, true, now).queue.len() == 0,
        import_of(queue, meta, true, now).meta.len() == 0,
{
}

// ---------------------------------------------------------------------------
// The operator's configuration
// ---------------------------------------------------------------------------

/// Name of the section that a shared configuration file keeps for the daemon.
pub const CONFIG_SECTION: &'static str = "caduceus";

/// Name of the setting.
pub const BACKEND_SETTING: &'static str = "state_backend";

/// Where the backend is set in a configuration file.
#[derive(Clone, Copy, Debug, PartialEq, Eq, Structural)]
pub enum BackendPlace {
    /// At the top of the document.
    Top,
    /// In the daemon's section.
    Section,
    /// Nowhere: what the daemon's section holds is no mapping.
    Nowhere,
}

/// The place of the backend, for a document that is a mapping with or without
/// the daemon's section, which is a mapping or is not.
pub open spec fn place_in(
    shape: Result<Option<bool>, Seq<char>>,
    section: Result<bool, Seq<char>>,
    path: Seq<char>,
) -> Result<BackendPlace, Fault> {
    match (shape, section) {
        (Err(e), _) => Err(Fault::Config("failed to parse config "@ + path + (": "@ + e))),
        (Ok(None), _) => Err(Fault::Config("config "@ + path + " is not a YAML mapping"@)),
        (Ok(Some(false)), _) => Ok(BackendPlace::Top),
        (Ok(Some(true)), Err(e)) => Err(
            Fault::Config("failed to parse config "@ + path + (": "@ + e)),
        ),
        (Ok(Some(true)), Ok(true)) => Ok(BackendPlace::Section),
        (Ok(Some(true)), Ok(false)) => Ok(BackendPlace::Nowhere),
    }
}

/// The configuration with the backend set, or why it cannot be. A file with a
/// section for the daemon has the setting there, any other at its top; a section
/// that is no mapping stays as it is.
pub open spec fn configured(document: Seq<char>, path: Seq<char>, backend: Seq<char>) -> Result<
    Seq<char>,
    Fault,
> {
    match place_in(
        yaml::has_key(document, CONFIG_SECTION@),
        yaml::has_section(document, CONFIG_SECTION@),
        path,
    ) {
        Err(f) => Err(f),
        Ok(place) => {
            let edited = match place {
                BackendPlace::Top => yaml::with_key(document, BACKEND_SETTING@, backend),
                BackendPlace::Section => yaml::with_section_key(
                    document,
                    CONFIG_SECTION@,
                    BACKEND_SETTING@,
                    backend,
                ),
                BackendPlace::Nowhere => yaml::written(document),
            };
            match edited {
                Ok(s) => Ok(s),
                Err(e) => Err(Fault::Config("failed to serialize config "@ + path + (": "@ + e))),
            }
        },
    }
}

fn config_error(before: &str, path: &str, after: &str) -> (r: CaduceusError)
    ensures
        r@ == Fault::Config(before@ + path@ + after@),
{
    let mut m = text::cat(before, path);
    m.append(after);
    CaduceusError::Config(m)
}

/// Where the backend is set in a document with the given shape, whose section
/// for the daemon is or is not a mapping.
pub fn backend_place(
    shape: &Result<Option<bool>, String>,
    section: &Result<bool, String>,
    path: &str,
) -> (r: Result<BackendPlace, CaduceusError>)
    ensures
        match r {
            Ok(p) => place_in(yaml::probed(*shape), yaml::found(*section), path@) == Ok::<
                BackendPlace,
                Fault,
            >(p),
            Err(f) => place_in(yaml::probed(*shape), yaml::found(*section), path@) == Err::<
                BackendPlace,
                Fault,
            >(f@),
        },
{
    let shared = match shape {
        Err(e) => {
            return Err(
                config_error("failed to parse config ", path, text::cat(": ", e.as_str()).as_str()),
            );
        },
        Ok(None) => {
            return Err(config_error("config ", path, " is not a YAML mapping"));
        },
        Ok(Some(b)) => *b,
    };
    if !shared {
        return Ok(BackendPlace::Top);
    }
    match section {
        Err(e) => Err(
            config_error("failed to parse config ", path, text::cat(": ", e.as_str()).as_str()),
        ),
        Ok(mapping) => {
            if *mapping {
                Ok(BackendPlace::Section)
            } else {
                Ok(BackendPlace::Nowhere)
            }
        },
    }
}

/// The operator's configuration with the backend set. `document` is an error,
/// with its text, when the file cannot be read.
pub fn write_state_backend_config(document: &Result<String, String>, path: &str, backend: &str) -> (r:
    Result<String, CaduceusError>)
    ensures
        match *document {
            Err(e) => r matches Err(f) && f@ == Fault::Config(
                "failed to read config "@ + path@ + (": "@ + e@),
            ),
            Ok(d) => match r {
                Ok(s) => configured(d@, path@, backend@) == Ok::<Seq<char>, Fault>(s@),
                Err(f) => configured(d@, path@, backend@) == Err::<Seq<char>, Fault>(f@),
            },
        },
{
    let body = match document {
        Err(e) => {
            return Err(
                config_error(
                    "failed to read config ",
                    path,
                    text::cat(": ", e.as_str()).as_str(),
                ),
            );
        },
        Ok(d) => d,
    };
    let shape = yaml::probe_key(body.as_str(), CONFIG_SECTION);
    let section = yaml::probe_section(body.as_str(), CONFIG_SECTION);
    let edited = match backend_place(&shape, &section, path) {
        Err(e) => {
            return Err(e);
        },
        Ok(BackendPlace::Top) => yaml::set_key(body.as_str(), BACKEND_SETTING, backend),
        Ok(BackendPlace::Section) => {
            yaml::set_section_key(body.as_str(), CONFIG_SECTION, BACKEND_SETTING, backend)
        },
        Ok(BackendPlace::Nowhere) => yaml::rewrite(body.as_str()),
    };
    match edited {
        Ok(s) => Ok(s),
        Err(e) => Err(
            config_error("failed to serialize config ", path, text::cat(": ", e.as_str()).as_str()),
        ),
    }
}

/// A row takes each of its columns from the field of the same name. What is missing
/// is queued, for code, unattempted and as of now.
pub proof fn law_a_row_is_made_of_its_fields(entry: FieldView, now: Seq<char>)
    ensures
        ({
            let r = queue_row(entry, now);
            let v = entry.value;
            &&& r.issue_key == entry.name
            &&& v.field_text("phase"@) matches Some(s) ==> r.phase == s
            &&& v.field_text("phase"@) is None ==> r.phase == "queued"@
            &&& v.field_text("ticket_type"@) matches Some(s) ==> r.ticket_type == s
            &&& v.field_text("ticket_type"@) is None ==> r.ticket_type == "code"@
            &&& v.field("attempts"@) is None ==> r.attempts == 0
            &&& v.field("attempts"@) matches Some(f) ==> (f.value.as_signed() matches Some(n)
                ==> r.attempts == n) && (f.value.as_signed() is None ==> r.attempts == 0)
            &&& r.last_error == v.field_text("last_error"@)
            &&& r.last_run_id == v.field_text("last_run_id"@)
            &&& r.next_attempt_at == v.field_text("next_attempt_at"@)
            &&& v.field("finalization"@) matches Some(f) ==> r.finalization == Some(f.text)
            &&& v.field("finalization"@) is None ==> r.finalization is None
            &&& v.field_text("queued_at"@) matches Some(s) ==> r.queued_at == s
            &&& v.field_text("queued_at"@) is None ==> r.queued_at == now
            &&& v.field_text("updated_at"@) matches Some(s) ==> r.updated_at == s
            &&& v.field_text("updated_at"@) is None ==> r.updated_at == now
            &&& r.generation == 1
        }),
{
}

/// An import takes every entry and every field of the metadata, unless it is a dry
/// run; with neither there is nothing to do.
pub proof fn law_an_import_takes_everything(
    queue: Option<JsonView>,
    meta: Option<JsonView>,
    dry_run: bool,
    now: Seq<char>,
    i: int,
)
    ensures
        ({
            let r = import_of(queue, meta, dry_run, now);
            let entries = entries_of(queue);
            let fields = metadata_of(meta);
            let empty = entries.len() == 0 && fields.len() == 0;
            &&& empty ==> r.outcome == SqliteMigrationOutcome::AlreadyCurrent
            &&& !empty && dry_run ==> r.outcome == (SqliteMigrationOutcome::DryRun {
                would_migrate: entries.len() as u64,
            })
            &&& !empty && !dry_run ==> r.outcome == (SqliteMigrationOutcome::Migrated {
                entries: entries.len() as u64,
            })
            &&& empty || dry_run ==> r.queue.len() == 0 && r.meta.len() == 0
            &&& !empty && !dry_run ==> r.queue.len() == entries.len() && r.meta.len()
                == fields.len()
            &&& !empty && !dry_run && 0 <= i < entries.len() ==> r.queue[i] == queue_row(
                entries[i],
                now,
            )
            &&& !empty && !dry_run && 0 <= i < fields.len() ==> r.meta[i].key == fields[i].name
                && r.meta[i].value == fields[i].text
        }),
{
}

/// The entries are the members of the document's field of that name; the metadata
/// is the members of its document.
pub proof fn law_entries_are_under_their_name(j: JsonView)
    ensures
        j.field("entries"@) matches Some(f) ==> entries_of(Some(j)) == json::members(f.value),
        j.field("entries"@) is None ==> entries_of(Some(j)).len() == 0,
        entries_of(None).len() == 0,
        metadata_of(Some(j)) == json::members(j),
        metadata_of(None).len() == 0,
{
}

/// A missing file is no document; a file that is there has to parse.
pub proof fn law_a_state_file_has_to_parse(file: StateFile, path: Seq<char>, what: Seq<char>)
    ensures
        file is Missing ==> file_document(file, path, what) == Ok::<Option<JsonView>, Fault>(None),
        file is Unreadable ==> file_document(file, path, what) is Err,
        file matches StateFile::Bytes(b) ==> (file_document(file, path, what) is Ok
            <==> json::document_in(b@) is Ok),
        file matches StateFile::Bytes(b) ==> (json::document_in(b@) matches Ok(j)
            ==> file_document(file, path, what) == Ok::<Option<JsonView>, Fault>(Some(j))),
{
}

/// The backend is set in the daemon's section where there is one, and at the top of
/// the document otherwise.
pub proof fn law_the_backend_is_set_where_it_is_read(
    document: Seq<char>,
    path: Seq<char>,
    backend: Seq<char>,
)
    ensures
        yaml::has_key(document, "caduceus"@) == Ok::<Option<bool>, Seq<char>>(Some(false)) ==> (
        yaml::with_key(document, "state_backend"@, backend) matches Ok(s) ==> configured(
            document,
            path,
            backend,
        ) == Ok::<Seq<char>, Fault>(s)),
        yaml::has_key(document, "caduceus"@) == Ok::<Option<bool>, Seq<char>>(Some(true))
            && yaml::has_section(document, "caduceus"@) == Ok::<bool, Seq<char>>(true) ==> (
        yaml::with_section_key(document, "caduceus"@, "state_backend"@, backend) matches Ok(s)
            ==> configured(document, path, backend) == Ok::<Seq<char>, Fault>(s)),
        yaml::has_key(document, "caduceus"@) == Ok::<Option<bool>, Seq<char>>(None) ==> configured(
            document,
            path,
            backend,
        ) == Err::<Seq<char>, Fault>(
            Fault::Config("config "@ + path + " is not a YAML mapping"@),
        ),
        yaml::has_key(document, "caduceus"@) is Err ==> configured(document, path, backend) is Err,
{
}

/// What is said of a file or a configuration that is refused.
pub proof fn law_a_refused_file_is_named(
    file: StateFile,
    path: Seq<char>,
    what: Seq<char>,
    document: Seq<char>,
    backend: Seq<char>,
)
    ensures
        file matches StateFile::Unreadable(e) ==> file_document(file, path, what) == Err::<
            Option<JsonView>,
            Fault,
        >(Fault::StateCorrupt { path, message: "cannot read "@ + what + ": "@ + e@ }),
        file matches StateFile::Bytes(b) ==> (json::document_in(b@) matches Err(e)
            ==> file_document(file, path, what) == Err::<Option<JsonView>, Fault>(
            Fault::StateCorrupt { path, message: "cannot parse "@ + what + " JSON: "@ + e },
        )),
        yaml::has_key(document, "caduceus"@) matches Err(e) ==> configured(document, path, backend)
            == Err::<Seq<char>, Fault>(
            Fault::Config("failed to parse config "@ + path + (": "@ + e)),
        ),
        yaml::has_key(document, "caduceus"@) == Ok::<Option<bool>, Seq<char>>(Some(false)) ==> (
        yaml::with_key(document, "state_backend"@, backend) matches Err(e) ==> configured(
            document,
            path,
            backend,
        ) == Err::<Seq<char>, Fault>(
            Fault::Config("failed to serialize config "@ + path + (": "@ + e)),
        )),
{
}

} // verus!
