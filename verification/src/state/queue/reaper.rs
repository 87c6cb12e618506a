//! The reaper: stale claims go back to the queue, and claim files that are
//! malformed or stamped in the future are set aside.

use vstd::prelude::*;

use super::store::StateStore;
use super::{ClaimFileBody, EntryView, Phase, QueueMap, CLAIM_FILE_VERSION};
use crate::issue::IssueView;
use crate::path;
use crate::state::columns;
use crate::text;
use crate::time;
use crate::time::Timestamp;

verus! {

/// Directory under the claims directory for claim files that were set aside.
pub const CLAIMS_CORRUPT_DIRNAME: &'static str = "corrupt";

/// A claim stamped further ahead than this many seconds is corrupt.
pub const FUTURE_TIMESTAMP_TOLERANCE_SECS: i64 = 300;

/// What reading a claim file gave.
pub enum ClaimRead {
    Unreadable(String),
    Malformed(String),
    Body(ClaimFileBody),
}

/// What was seen of one entry of the claims directory.
pub enum ClaimObservation {
    /// The directory entry itself could not be read.
    DirEntryError(String),
    MetadataError { path: String, error: String },
    Symlink { path: String },
    /// The name is not text.
    Unnamed,
    /// A file or directory. `pid_alive` and `identity` say what is known now of
    /// the process that the claim records.
    File { path: String, name: String, read: ClaimRead, pid_alive: bool, identity: String },
}

/// What to do about one entry of the claims directory.
pub enum ReapAction {
    Leave,
    /// Move the file to the directory for corrupt claims.
    Quarantine { reason: String },
    /// The claim is stale: remove it.
    Reap,
}

/// A [`ReapAction`] with its text as a character sequence.
pub enum ActionView {
    Leave,
    Quarantine(Seq<char>),
    Reap,
}

impl View for ReapAction {
    type V = ActionView;

    open spec fn view(&self) -> ActionView {
        match *self {
            ReapAction::Leave => ActionView::Leave,
            ReapAction::Quarantine { reason } => ActionView::Quarantine(reason@),
            ReapAction::Reap => ActionView::Reap,
        }
    }
}

/// What the reaper did.
#[derive(Debug)]
pub struct ReapReport {
    /// Claim files acted on.
    pub count: u32,
    /// One message for each entry that could not be acted on or was set aside.
    pub errors: Vec<String>,
    /// Stale claims reaped.
    pub stale_reaped: u32,
    /// Claim files set aside.
    pub quarantined: u32,
}

/// A [`ReapReport`] with unbounded counts and its texts as character sequences.
pub struct ReportView {
    pub count: nat,
    pub errors: Seq<Seq<char>>,
    pub stale_reaped: nat,
    pub quarantined: nat,
}

impl View for ReapReport {
    type V = ReportView;

    open spec fn view(&self) -> ReportView {
        ReportView {
            count: self.count as nat,
            errors: text::texts(self.errors@),
            stale_reaped: self.stale_reaped as nat,
            quarantined: self.quarantined as nat,
        }
    }
}

impl ReportView {
    pub open spec fn empty() -> ReportView {
        ReportView { count: 0, errors: Seq::empty(), stale_reaped: 0, quarantined: 0 }
    }

    pub open spec fn with_error(self, message: Seq<char>) -> ReportView {
        ReportView { errors: self.errors.push(message), ..self }
    }

    pub open spec fn with_quarantine(self, message: Seq<char>) -> ReportView {
        ReportView {
            count: self.count + 1,
            quarantined: self.quarantined + 1,
            errors: self.errors.push(message),
            ..self
        }
    }

    pub open spec fn with_reap(self) -> ReportView {
        ReportView { count: self.count + 1, stale_reaped: self.stale_reaped + 1, ..self }
    }

    /// The reap of the claim file at `path` failed: it counts no longer, and the
    /// failure is on record.
    pub open spec fn with_failed_reap(self, path: Seq<char>, error: Seq<char>) -> ReportView {
        ReportView {
            count: (self.count - 1) as nat,
            stale_reaped: (self.stale_reaped - 1) as nat,
            errors: self.errors.push("stale reap failed for "@ + path + ": "@ + error),
            ..self
        }
    }
}

/// A claim whose process is gone, or is another process by now.
pub open spec fn abandoned(body: ClaimFileBody, pid_alive: bool, identity: Seq<char>) -> bool {
    !(pid_alive && identity == body.process_start_identity@)
}

/// The age in seconds from which a claim is stale. The product saturates, and is
/// then taken as a signed number.
pub open spec fn stale_age(hours: u64) -> int {
    columns::signed(
        if hours * 3600 > u64::MAX {
            u64::MAX
        } else {
            (hours * 3600) as u64
        },
    ) as int
}

fn stale_seconds(hours: u64) -> (r: i64)
    ensures
        r == stale_age(hours),
{
    let seconds: u128 = hours as u128 * 3600;
    columns::to_signed(
        if seconds > u64::MAX as u128 {
            u64::MAX
        } else {
            seconds as u64
        },
    )
}

/// The limits of a pass are dates.
pub open spec fn within_calendar(now: Timestamp, hours: u64) -> bool {
    now.reaches(FUTURE_TIMESTAMP_TOLERANCE_SECS as int) && now.reaches(-stale_age(hours))
}

/// The verdict on a claim file body: the action, and the message if any.
pub open spec fn body_verdict(
    path: Seq<char>,
    body: ClaimFileBody,
    pid_alive: bool,
    identity: Seq<char>,
    now: Timestamp,
    stale_run_hours: u64,
) -> (ActionView, Option<Seq<char>>) {
    if body.version != CLAIM_FILE_VERSION {
        (
            ActionView::Quarantine(
                "unsupported claim version "@ + text::dec(body.version as nat),
            ),
            Some(
                "version mismatch in "@ + path + ": got "@ + text::dec(body.version as nat)
                    + ", expected "@ + text::dec(CLAIM_FILE_VERSION as nat),
            ),
        )
    } else if now.plus(FUTURE_TIMESTAMP_TOLERANCE_SECS as int).lt(body.started_at) {
        (
            ActionView::Quarantine(
                "started_at "@ + time::display_text(body.started_at) + " is more than "@
                    + text::dec(FUTURE_TIMESTAMP_TOLERANCE_SECS as nat) + "s in the future"@,
            ),
            Some(
                "future started_at in "@ + path + ": "@ + time::display_text(body.started_at),
            ),
        )
    } else if now.plus(-stale_age(stale_run_hours)).lt(body.started_at) {
        (ActionView::Leave, None)
    } else if !abandoned(body, pid_alive, identity) {
        (ActionView::Leave, None)
    } else {
        (ActionView::Reap, None)
    }
}

/// The verdict on one entry of the claims directory.
pub open spec fn verdict_on(o: ClaimObservation, now: Timestamp, stale_run_hours: u64) -> (
    ActionView,
    Option<Seq<char>>,
) {
    match o {
        ClaimObservation::DirEntryError(e) => (ActionView::Leave, Some("read_dir: "@ + e@)),
        ClaimObservation::MetadataError { path, error } => (
            ActionView::Leave,
            Some("symlink_metadata "@ + path@ + ": "@ + error@),
        ),
        ClaimObservation::Symlink { path } => (
            ActionView::Leave,
            Some("refusing to act on symlink: "@ + path@),
        ),
        ClaimObservation::Unnamed => (ActionView::Leave, None),
        ClaimObservation::File { path, name, read, pid_alive, identity } => if name@
            == CLAIMS_CORRUPT_DIRNAME@ {
            (ActionView::Leave, None)
        } else if !".claim"@.is_suffix_of(name@) {
            (ActionView::Leave, Some("unknown file in claims dir: "@ + path@))
        } else {
            match read {
                ClaimRead::Unreadable(e) => (
                    ActionView::Leave,
                    Some("read "@ + path@ + ": "@ + e@),
                ),
                ClaimRead::Malformed(e) => (
                    ActionView::Quarantine("malformed JSON: "@ + e@),
                    Some("malformed "@ + path@ + " → quarantined: "@ + e@),
                ),
                ClaimRead::Body(b) => body_verdict(
                    path@,
                    b,
                    pid_alive,
                    identity@,
                    now,
                    stale_run_hours,
                ),
            }
        },
    }
}

/// The report once the verdict is recorded.
pub open spec fn recorded(r: ReportView, v: (ActionView, Option<Seq<char>>)) -> ReportView {
    match v {
        (ActionView::Quarantine(_), Some(m)) => r.with_quarantine(m),
        (ActionView::Reap, _) => r.with_reap(),
        (_, Some(m)) => r.with_error(m),
        (_, None) => r,
    }
}

impl EntryView {
    /// Back in the queue because its claim was stale; no attempt is counted.
    pub open spec fn reaped(self, run_id: Seq<char>, now: Timestamp) -> EntryView {
        EntryView {
            phase: Phase::Queued,
            last_run_id: None,
            last_error: Some("reaper: stale claim for run "@ + run_id),
            next_attempt_at: Some(now),
            updated_at: now,
            ..self
        }
    }
}

/// The queue once the claim of `run_id` on `key` is reaped: an entry in
/// progress goes back to the queue, any other is left alone.
pub open spec fn reap_queue(m: QueueMap, key: IssueView, run_id: Seq<char>, now: Timestamp) -> QueueMap {
    let k = key.display_key();
    if m.contains_key(k) && m[k].phase == Phase::InProgress {
        m.insert(k, m[k].reaped(run_id, now))
    } else {
        m
    }
}

/// What reaping one claim found in the queue.
#[derive(Clone, Copy, Debug, PartialEq, Eq, Structural)]
pub enum ReapEffect {
    /// No entry for the claim.
    Orphaned,
    /// The entry went back to the queue.
    Requeued,
    /// The entry is in another phase; the claim was residue.
    Residue,
}

impl StateStore {
    /// Take a stale claim out of the queue.
    pub fn reap_one_stale_claim(&mut self, body: &ClaimFileBody, now: Timestamp) -> (r: ReapEffect)
        requires
            old(self).wf(),
        ensures
            final(self).wf(),
            final(self)@ == old(self)@.with(
                reap_queue(old(self)@.queue, body.key@, body.run_id@, now),
            ),
            r == (if !old(self)@.queue.contains_key(body.key@.display_key()) {
                ReapEffect::Orphaned
            } else if old(self)@.queue[body.key@.display_key()].phase == Phase::InProgress {
                ReapEffect::Requeued
            } else {
                ReapEffect::Residue
            }),
    {
        let k = body.key.display_key();
        match self.queue.entries.position(k.as_str()) {
            None => ReapEffect::Orphaned,
            Some(i) => {
                let mut e = self.copy_of(i);
                if e.phase != Phase::InProgress {
                    return ReapEffect::Residue;
                }
                e.phase = Phase::Queued;
                e.last_run_id = None;
                e.last_error = Some(text::cat("reaper: stale claim for run ", body.run_id.as_str()));
                e.next_attempt_at = Some(now);
                e.updated_at = now;
                self.replace(i, e);
                ReapEffect::Requeued
            },
        }
    }
}

impl ReapReport {
    /// Counts are within bounds, and every file acted on was reaped or set
    /// aside.
    pub open spec fn wf(&self) -> bool {
        self.count == self.stale_reaped + self.quarantined
    }

    /// Nothing done yet.
    pub fn empty() -> (r: ReapReport)
        ensures
            r.wf(),
            r@ == ReportView::empty(),
    {
        let r = ReapReport { count: 0, errors: Vec::new(), stale_reaped: 0, quarantined: 0 };
        proof {
            assert(r@.errors =~= Seq::<Seq<char>>::empty());
        }
        r
    }

    fn push_error(&mut self, message: String)
        requires
            old(self).wf(),
        ensures
            final(self).wf(),
            final(self)@ == old(self)@.with_error(message@),
            final(self).count == old(self).count,
    {
        let ghost before = self.errors@;
        self.errors.push(message);
        proof {
            assert(text::texts(self.errors@) =~= text::texts(before).push(message@));
        }
    }

    fn push_quarantine(&mut self, message: String)
        requires
            old(self).wf(),
            old(self).count < u32::MAX,
        ensures
            final(self).wf(),
            final(self)@ == old(self)@.with_quarantine(message@),
            final(self).count == old(self).count + 1,
    {
        self.push_error(message);
        self.quarantined = self.quarantined + 1;
        self.count = self.count + 1;
    }

    /// Judge one entry of the claims directory and record what comes of it.
    /// A stale claim is counted as reaped; where its reap fails, `reap_failed`
    /// takes that back.
    pub fn visit(&mut self, o: &ClaimObservation, now: Timestamp, stale_run_hours: u64) -> (r:
        ReapAction)
        requires
            old(self).wf(),
            old(self).count < u32::MAX,
            within_calendar(now, stale_run_hours),
            observed(*o),
        ensures
            final(self).wf(),
            r@ == verdict_on(*o, now, stale_run_hours).0,
            final(self)@ == recorded(old(self)@, verdict_on(*o, now, stale_run_hours)),
            final(self).count <= old(self).count + 1,
    {
        match o {
            ClaimObservation::DirEntryError(e) => {
                self.push_error(text::cat("read_dir: ", e.as_str()));
                ReapAction::Leave
            },
            ClaimObservation::MetadataError { path, error } => {
                let mut m = text::cat("symlink_metadata ", path.as_str());
                m.append(": ");
                m.append(error.as_str());
                self.push_error(m);
                ReapAction::Leave
            },
            ClaimObservation::Symlink { path } => {
                self.push_error(text::cat("refusing to act on symlink: ", path.as_str()));
                ReapAction::Leave
            },
            ClaimObservation::Unnamed => ReapAction::Leave,
            ClaimObservation::File { path, name, read, pid_alive, identity } => {
                if text::same(name.as_str(), CLAIMS_CORRUPT_DIRNAME) {
                    return ReapAction::Leave;
                }
                if !text::ends(name.as_str(), ".claim") {
                    self.push_error(text::cat("unknown file in claims dir: ", path.as_str()));
                    return ReapAction::Leave;
                }
                match read {
                    ClaimRead::Unreadable(e) => {
                        let mut m = text::cat("read ", path.as_str());
                        m.append(": ");
                        m.append(e.as_str());
                        self.push_error(m);
                        ReapAction::Leave
                    },
                    ClaimRead::Malformed(e) => {
                        let mut m = text::cat("malformed ", path.as_str());
                        m.append(" → quarantined: ");
                        m.append(e.as_str());
                        self.push_quarantine(m);
                        ReapAction::Quarantine { reason: text::cat("malformed JSON: ", e.as_str()) }
                    },
                    ClaimRead::Body(b) => self.visit_body(
                        path.as_str(),
                        b,
                        *pid_alive,
                        identity.as_str(),
                        now,
                        stale_run_hours,
                    ),
                }
            },
        }
    }

    /// The reap of the claim file at `path`, which was just counted, failed.
    pub fn reap_failed(&mut self, path: &str, error: &str)
        requires
            old(self).wf(),
            old(self).stale_reaped > 0,
        ensures
            final(self).wf(),
            final(self)@ == old(self)@.with_failed_reap(path@, error@),
    {
        let mut m = text::cat("stale reap failed for ", path);
        m.append(": ");
        m.append(error);
        self.stale_reaped = self.stale_reaped - 1;
        self.count = self.count - 1;
        self.push_error(m);
    }

    fn visit_body(
        &mut self,
        path: &str,
        body: &ClaimFileBody,
        pid_alive: bool,
        identity: &str,
        now: Timestamp,
        stale_run_hours: u64,
    ) -> (r: ReapAction)
        requires
            old(self).wf(),
            old(self).count < u32::MAX,
            within_calendar(now, stale_run_hours),
            body.started_at.valid(),
        ensures
            final(self).wf(),
            ({
                let v = body_verdict(path@, *body, pid_alive, identity@, now, stale_run_hours);
                r@ == v.0 && final(self)@ == recorded(old(self)@, v)
            }),
            final(self).count <= old(self).count + 1,
    {
        if body.version != CLAIM_FILE_VERSION {
            let v = text::decimal(body.version as u64);
            let mut m = text::cat("version mismatch in ", path);
            m.append(": got ");
            m.append(v.as_str());
            m.append(", expected ");
            m.append(text::decimal(CLAIM_FILE_VERSION as u64).as_str());
            self.push_quarantine(m);
            return ReapAction::Quarantine {
                reason: text::cat("unsupported claim version ", v.as_str()),
            };
        }
        let future_cutoff = now.plus_seconds(FUTURE_TIMESTAMP_TOLERANCE_SECS);
        if future_cutoff.is_before(&body.started_at) {
            let at = time::format_display(body.started_at);
            let mut m = text::cat("future started_at in ", path);
            m.append(": ");
            m.append(at.as_str());
            self.push_quarantine(m);
            let mut reason = text::cat("started_at ", at.as_str());
            reason.append(" is more than ");
            reason.append(text::decimal(FUTURE_TIMESTAMP_TOLERANCE_SECS as u64).as_str());
            reason.append("s in the future");
            return ReapAction::Quarantine { reason };
        }
        let age_cutoff = now.plus_seconds(-stale_seconds(stale_run_hours));
        if age_cutoff.is_before(&body.started_at) {
            return ReapAction::Leave;
        }
        if pid_alive && text::same(identity, body.process_start_identity.as_str()) {
            return ReapAction::Leave;
        }
        self.stale_reaped = self.stale_reaped + 1;
        self.count = self.count + 1;
        ReapAction::Reap
    }
}

/// The times in an observation are dates.
pub open spec fn observed(o: ClaimObservation) -> bool {
    o matches ClaimObservation::File { read: ClaimRead::Body(b), .. } ==> b.started_at.valid()
}

/// What a pass over the claims directory leaves: the queue, the report, and
/// the action for each entry.
pub struct PassView {
    pub queue: QueueMap,
    pub report: ReportView,
    pub actions: Seq<ActionView>,
}

/// A pass over `files`, in order. `failures` holds, for each, why its reap
/// fails, where it does: that claim then stays, and the pass goes on.
pub open spec fn pass(
    m: QueueMap,
    files: Seq<ClaimObservation>,
    failures: Seq<Option<Seq<char>>>,
    now: Timestamp,
    stale_run_hours: u64,
) -> PassView
    decreases files.len(),
{
    if files.len() == 0 {
        PassView { queue: m, report: ReportView::empty(), actions: Seq::empty() }
    } else {
        let before = pass(m, files.drop_last(), failures, now, stale_run_hours);
        let o = files.last();
        let v = verdict_on(o, now, stale_run_hours);
        let report = recorded(before.report, v);
        match (v.0, o, failures[files.len() - 1]) {
            (ActionView::Reap, ClaimObservation::File { path, .. }, Some(e)) => PassView {
                queue: before.queue,
                report: report.with_failed_reap(path@, e),
                actions: before.actions.push(ActionView::Leave),
            },
            (
                ActionView::Reap,
                ClaimObservation::File { read: ClaimRead::Body(b), .. },
                None,
            ) => PassView {
                queue: reap_queue(before.queue, b.key@, b.run_id@, now),
                report,
                actions: before.actions.push(v.0),
            },
            _ => PassView { queue: before.queue, report, actions: before.actions.push(v.0) },
        }
    }
}

/// Failures by their views.
pub open spec fn failure_views(v: Seq<Option<String>>) -> Seq<Option<Seq<char>>> {
    v.map_values(|f: Option<String>| text::opt(f))
}

/// Judge every entry of the claims directory, and put the entries of stale
/// claims back in the queue, but for those whose reap fails (`failures`). The
/// actions say what to do with each file.
pub fn reap_stale_claims(
    store: &mut StateStore,
    files: &Vec<ClaimObservation>,
    failures: &Vec<Option<String>>,
    now: Timestamp,
    stale_run_hours: u64,
) -> (r: (ReapReport, Vec<ReapAction>))
    requires
        old(store).wf(),
        files.len() < u32::MAX,
        failures.len() == files.len(),
        within_calendar(now, stale_run_hours),
        forall|i: int| 0 <= i < files.len() ==> observed(#[trigger] files@[i]),
    ensures
        final(store).wf(),
        r.0.wf(),
        ({
            let p = pass(
                old(store)@.queue,
                files@,
                failure_views(failures@),
                now,
                stale_run_hours,
            );
            &&& final(store)@ == old(store)@.with(p.queue)
            &&& r.0@ == p.report
            &&& r.1@.map_values(|a: ReapAction| a@) == p.actions
        }),
{
    let ghost start = store@;
    let mut report = ReapReport::empty();
    let mut actions: Vec<ReapAction> = Vec::new();
    let mut i: usize = 0;
    proof {
        assert(files@.take(0) =~= Seq::<ClaimObservation>::empty());
        assert(actions@.map_values(|a: ReapAction| a@) =~= Seq::<ActionView>::empty());
    }
    while i < files.len()
        invariant
            i <= files.len(),
            files.len() < u32::MAX,
            failures.len() == files.len(),
            within_calendar(now, stale_run_hours),
            forall|j: int| 0 <= j < files.len() ==> observed(#[trigger] files@[j]),
            store.wf(),
            report.wf(),
            report.count <= i,
            ({
                let p = pass(
                    start.queue,
                    files@.take(i as int),
                    failure_views(failures@),
                    now,
                    stale_run_hours,
                );
                &&& store@ == start.with(p.queue)
                &&& report@ == p.report
                &&& actions@.map_values(|a: ReapAction| a@) == p.actions
            }),
        decreases files.len() - i,
    {
        let ghost before = actions@;
        proof {
            assert(files@.take(i + 1).drop_last() =~= files@.take(i as int));
            assert(files@.take(i + 1).last() == files@[i as int]);
            assert(failure_views(failures@)[i as int] == text::opt(failures@[i as int]));
        }
        let mut action = report.visit(&files[i], now, stale_run_hours);
        match (&action, &files[i], &failures[i]) {
            (ReapAction::Reap, ClaimObservation::File { path, .. }, Some(e)) => {
                report.reap_failed(path.as_str(), e.as_str());
                action = ReapAction::Leave;
            },
            (ReapAction::Reap, ClaimObservation::File { read: ClaimRead::Body(b), .. }, None) => {
                store.reap_one_stale_claim(b, now);
            },
            _ => {},
        }
        actions.push(action);
        proof {
            assert(actions@.map_values(|a: ReapAction| a@) =~= before.map_values(
                |a: ReapAction| a@,
            ).push(action@));
        }
        i += 1;
    }
    proof {
        assert(files@.take(files@.len() as int) =~= files@);
    }
    (report, actions)
}

// ---------------------------------------------------------------------------
// Setting a claim file aside
// ---------------------------------------------------------------------------

/// The note that stands before the bytes of a claim file that was set aside.
pub open spec fn note(reason: Seq<char>, at: Timestamp, source: Seq<char>) -> Seq<char> {
    "<!-- caduceus-reaper\n     reason: "@ + reason + "\n     at: "@ + time::rfc3339_text(at)
        + "\n     source: "@ + source + "\n-->\n"@
}

/// The file that takes the place of a corrupt claim file: its path under
/// `claims_dir`, and its contents, which end in the original bytes.
pub fn quarantine_claim(
    claims_dir: &str,
    basename: &str,
    source: &str,
    bytes: &Vec<u8>,
    reason: &str,
    now: Timestamp,
) -> (r: (String, Vec<u8>))
    requires
        now.valid(),
    ensures
        r.0@ == path::joined(
            path::joined(claims_dir@, CLAIMS_CORRUPT_DIRNAME@),
            basename@ + "."@ + time::stamp_text(now) + ".corrupt"@,
        ),
        r.1@ == vstd::utf8::encode_utf8(note(reason@, now, source@)) + bytes@,
{
    let mut name = text::cat(basename, ".");
    name.append(time::format_stamp(now).as_str());
    name.append(".corrupt");
    let target = path::join(path::join(claims_dir, CLAIMS_CORRUPT_DIRNAME).as_str(), name.as_str());
    let mut head = text::cat("<!-- caduceus-reaper\n     reason: ", reason);
    head.append("\n     at: ");
    head.append(time::format_rfc3339(now).as_str());
    head.append("\n     source: ");
    head.append(source);
    head.append("\n-->\n");
    let mut payload = text::bytes_of(head.as_str());
    let ghost prefix = payload@;
    let mut i: usize = 0;
    while i < bytes.len()
        invariant
            i <= bytes.len(),
            payload@ == prefix + bytes@.take(i as int),
        decreases bytes.len() - i,
    {
        payload.push(bytes[i]);
        i += 1;
        proof {
            assert(bytes@.take(i as int) =~= bytes@.take(i as int - 1).push(bytes@[i as int - 1]));
        }
    }
    proof {
        assert(bytes@.take(i as int) =~= bytes@);
    }
    (target, payload)
}

// ---------------------------------------------------------------------------
// Laws
// ---------------------------------------------------------------------------

/// A live worker keeps its claim, however long it runs.
pub proof fn law_a_live_claim_is_never_reaped(
    path: Seq<char>,
    body: ClaimFileBody,
    now: Timestamp,
    stale_run_hours: u64,
)
    ensures
        body_verdict(path, body, true, body.process_start_identity@, now, stale_run_hours).0
            != ActionView::Reap,
{
}

/// A claim younger than the threshold is never reaped.
pub proof fn law_a_recent_claim_is_never_reaped(
    path: Seq<char>,
    body: ClaimFileBody,
    pid_alive: bool,
    identity: Seq<char>,
    now: Timestamp,
    stale_run_hours: u64,
)
    requires
        now.plus(-stale_age(stale_run_hours)).lt(body.started_at),
    ensures
        body_verdict(path, body, pid_alive, identity, now, stale_run_hours).0 != ActionView::Reap,
{
}

/// Reaping costs the entry no attempt and leaves it ready to be claimed.
pub proof fn law_reaping_costs_no_attempt(e: EntryView, run_id: Seq<char>, now: Timestamp)
    ensures
        e.reaped(run_id, now).attempts == e.attempts,
        super::store::eligible(e.reaped(run_id, now), now),
{
}

/// Reaping the same claim again changes nothing more.
pub proof fn law_reaping_is_idempotent(
    m: QueueMap,
    key: IssueView,
    run_id: Seq<char>,
    now: Timestamp,
)
    ensures
        reap_queue(reap_queue(m, key, run_id, now), key, run_id, now) == reap_queue(
            m,
            key,
            run_id,
            now,
        ),
{
}

/// Every file that a pass acts on is reaped or set aside, and each entry of the
/// directory gets one action.
pub proof fn law_a_pass_accounts_for_every_file(
    m: QueueMap,
    files: Seq<ClaimObservation>,
    failures: Seq<Option<Seq<char>>>,
    now: Timestamp,
    stale_run_hours: u64,
)
    ensures
        ({
            let p = pass(m, files, failures, now, stale_run_hours);
            &&& p.report.count == p.report.stale_reaped + p.report.quarantined
            &&& p.actions.len() == files.len()
            &&& p.report.count <= files.len()
        }),
    decreases files.len(),
{
    if files.len() > 0 {
        law_a_pass_accounts_for_every_file(m, files.drop_last(), failures, now, stale_run_hours);
    }
}

/// A reap that fails leaves the queue and the counts as they were, adds one line
/// to the report, and does not keep the pass from what comes after it.
pub proof fn law_a_failed_reap_does_not_lose_the_pass(
    m: QueueMap,
    files: Seq<ClaimObservation>,
    failures: Seq<Option<Seq<char>>>,
    now: Timestamp,
    stale_run_hours: u64,
    path: Seq<char>,
    error: Seq<char>,
)
    requires
        files.len() > 0,
        files.last() matches ClaimObservation::File { path: p, .. } && p@ == path,
        verdict_on(files.last(), now, stale_run_hours).0 == ActionView::Reap,
        failures[files.len() - 1] == Some(error),
    ensures
        ({
            let before = pass(m, files.drop_last(), failures, now, stale_run_hours);
            let after = pass(m, files, failures, now, stale_run_hours);
            &&& after.queue == before.queue
            &&& after.report == before.report.with_error(
                "stale reap failed for "@ + path + ": "@ + error,
            )
            &&& after.actions == before.actions.push(ActionView::Leave)
        }),
{
}

/// A claim of the first version is reaped exactly when its start is at least the
/// stale age ago and its process is gone or another one; until then it is left
/// alone, without a word.
pub proof fn law_a_stale_claim_of_a_dead_process_is_reaped(
    path: Seq<char>,
    body: ClaimFileBody,
    pid_alive: bool,
    identity: Seq<char>,
    now: Timestamp,
    hours: u64,
)
    requires
        body.version == 1,
        now.nanos < 1000000000,
        -9000000000000 <= now.secs <= 9000000000000,
        hours <= 1000000000,
    ensures
        ({
            let v = body_verdict(path, body, pid_alive, identity, now, hours);
            let start = body.started_at;
            let future = start.secs > now.secs + 300 || (start.secs == now.secs + 300 && start.nanos
                > now.nanos);
            let young = start.secs > now.secs - hours * 3600 || (start.secs == now.secs - hours
                * 3600 && start.nanos > now.nanos);
            let dead = !pid_alive || identity != body.process_start_identity@;
            &&& future ==> v.0 is Quarantine && v.1 is Some
            &&& !future && young ==> v == (ActionView::Leave, None::<Seq<char>>)
            &&& !future && !young && !dead ==> v == (ActionView::Leave, None::<Seq<char>>)
            &&& !future && !young && dead ==> v == (ActionView::Reap, None::<Seq<char>>)
        }),
{
    assert(stale_age(hours) == hours * 3600);
}

/// A claim of another version is set aside, and both texts name the version.
pub proof fn law_a_claim_of_another_version_is_set_aside(
    path: Seq<char>,
    body: ClaimFileBody,
    pid_alive: bool,
    identity: Seq<char>,
    now: Timestamp,
    hours: u64,
)
    requires
        body.version != 1,
    ensures
        body_verdict(path, body, pid_alive, identity, now, hours) == (
            ActionView::Quarantine("unsupported claim version "@ + text::dec(body.version as nat)),
            Some(
                "version mismatch in "@ + path + ": got "@ + text::dec(body.version as nat)
                    + ", expected "@ + text::dec(1),
            ),
        ),
{
}

/// Only a file with the ending of claims, outside the directory for corrupt ones,
/// is ever reaped or set aside; a symbolic link never is.
pub proof fn law_only_claim_files_are_acted_on(o: ClaimObservation, now: Timestamp, hours: u64)
    ensures
        !(verdict_on(o, now, hours).0 is Leave) ==> (o matches ClaimObservation::File {
            name,
            read,
            ..
        } && name@ != "corrupt"@ && ".claim"@.is_suffix_of(name@) && !(read is Unreadable)),
        o is Symlink ==> verdict_on(o, now, hours).0 is Leave && verdict_on(o, now, hours).1
            is Some,
        o is Unnamed ==> verdict_on(o, now, hours) == (ActionView::Leave, None::<Seq<char>>),
        o is DirEntryError || o is MetadataError ==> verdict_on(o, now, hours).0 is Leave
            && verdict_on(o, now, hours).1 is Some,
{
}

/// A readable claim file gets the verdict on its body; one that does not parse is
/// set aside, and one that cannot be read is left with a message.
pub proof fn law_a_claim_file_is_judged_by_its_body(
    o: ClaimObservation,
    now: Timestamp,
    hours: u64,
)
    requires
        o matches ClaimObservation::File { name, .. } && name@ != "corrupt"@
            && ".claim"@.is_suffix_of(name@),
    ensures
        o matches ClaimObservation::File {
            path,
            name,
            read: ClaimRead::Body(b),
            pid_alive,
            identity,
        } ==> verdict_on(o, now, hours) == body_verdict(
            path@,
            b,
            pid_alive,
            identity@,
            now,
            hours,
        ),
        o matches ClaimObservation::File { path, read: ClaimRead::Malformed(e), .. } ==> verdict_on(
            o,
            now,
            hours,
        ).0 == ActionView::Quarantine("malformed JSON: "@ + e@),
        o matches ClaimObservation::File { path, read: ClaimRead::Unreadable(e), .. }
            ==> verdict_on(o, now, hours) == (
            ActionView::Leave,
            Some("read "@ + path@ + ": "@ + e@),
        ),
{
}

/// The report counts each file once: one set aside with its message, one reaped
/// without, and one left alone only by its message if there is one.
pub proof fn law_the_report_counts_each_file_once(
    r: ReportView,
    reason: Seq<char>,
    message: Seq<char>,
)
    ensures
        recorded(r, (ActionView::Quarantine(reason), Some(message))) == (ReportView {
            count: r.count + 1,
            errors: r.errors.push(message),
            stale_reaped: r.stale_reaped,
            quarantined: r.quarantined + 1,
        }),
        recorded(r, (ActionView::Reap, None)) == (ReportView {
            count: r.count + 1,
            errors: r.errors,
            stale_reaped: r.stale_reaped + 1,
            quarantined: r.quarantined,
        }),
        recorded(r, (ActionView::Leave, Some(message))) == (ReportView {
            errors: r.errors.push(message),
            ..r
        }),
        recorded(r, (ActionView::Leave, None)) == r,
        ReportView::empty().count == 0,
        ReportView::empty().errors.len() == 0,
        ReportView::empty().stale_reaped == 0,
        ReportView::empty().quarantined == 0,
{
}

/// The entry of a reaped claim that was in progress is queued again, due at once,
/// with the reason on record; one in any other phase stays as it is.
pub proof fn law_a_reaped_entry_is_queued_again(
    m: QueueMap,
    key: IssueView,
    run_id: Seq<char>,
    now: Timestamp,
)
    ensures
        ({
            let k = key.display_key();
            let after = reap_queue(m, key, run_id, now);
            &&& m.contains_key(k) && m[k].phase == Phase::InProgress ==> {
                &&& after.contains_key(k)
                &&& after[k].phase == Phase::Queued
                &&& after[k].last_run_id is None
                &&& after[k].last_error == Some("reaper: stale claim for run "@ + run_id)
                &&& after[k].next_attempt_at == Some(now)
                &&& after[k].updated_at == now
                &&& after[k].attempts == m[k].attempts
                &&& after[k].key == m[k].key
                &&& forall|j: Seq<char>|
                    j != k ==> (after.contains_key(j) <==> m.contains_key(j)) && (
                    #[trigger] after[j]) == m[j]
            }
            &&& !(m.contains_key(k) && m[k].phase == Phase::InProgress) ==> after == m
        }),
{
}

/// The note beside a file that was set aside.
pub proof fn law_a_note_gives_reason_time_and_source(
    reason: Seq<char>,
    at: Timestamp,
    source: Seq<char>,
)
    ensures
        note(reason, at, source) == "<!-- caduceus-reaper\n     reason: "@ + reason
            + "\n     at: "@ + time::rfc3339_text(at) + "\n     source: "@ + source + "\n-->\n"@,
{
}

/// What is said of a file that is left alone or set aside.
pub proof fn law_odd_files_are_named(
    o: ClaimObservation,
    path: Seq<char>,
    body: ClaimFileBody,
    now: Timestamp,
    hours: u64,
)
    ensures
        o matches ClaimObservation::DirEntryError(e) ==> verdict_on(o, now, hours).1 == Some(
            "read_dir: "@ + e@,
        ),
        o matches ClaimObservation::MetadataError { path, error } ==> verdict_on(o, now, hours).1
            == Some("symlink_metadata "@ + path@ + ": "@ + error@),
        o matches ClaimObservation::Symlink { path } ==> verdict_on(o, now, hours).1 == Some(
            "refusing to act on symlink: "@ + path@,
        ),
        o matches ClaimObservation::File { path, name, .. } ==> (name@ != "corrupt"@
            && !".claim"@.is_suffix_of(name@) ==> verdict_on(o, now, hours) == (
            ActionView::Leave,
            Some("unknown file in claims dir: "@ + path@),
        )),
        o matches ClaimObservation::File { path, name, read: ClaimRead::Malformed(e), .. } ==> (
        name@ != "corrupt"@ && ".claim"@.is_suffix_of(name@) ==> verdict_on(o, now, hours).1
            == Some("malformed "@ + path@ + " → quarantined: "@ + e@)),
        body.version == 1 && now.plus(300).lt(body.started_at) ==> body_verdict(
            path,
            body,
            true,
            path,
            now,
            hours,
        ) == (
            ActionView::Quarantine(
                "started_at "@ + time::display_text(body.started_at) + " is more than "@
                    + text::dec(300) + "s in the future"@,
            ),
            Some("future started_at in "@ + path + ": "@ + time::display_text(body.started_at)),
        ),
{
}

} // verus!
