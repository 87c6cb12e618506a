//! Metadata of the daemon: the last tick, the rate limit, and recent
//! diagnostics; and the cadence that decides whether a tick may poll.

use vstd::prelude::*;

use crate::error::{CaduceusError, Fault};
use crate::issue;
use crate::issue::{IssueKey, IssueView};
use crate::ordered::StringMap;
use crate::path;
use crate::state::columns;
use crate::text;
use crate::time::Timestamp;

verus! {

/// Version of the metadata envelope.
pub const META_VERSION: u32 = 1;

/// Number of diagnostics that are kept.
pub const MAX_DIAGNOSTICS: usize = 20;

/// Seconds within which a diagnostic that comes again counts as the same.
pub const DIAGNOSTIC_COALESCE_WINDOW: i64 = 3600;

/// Bytes of a diagnostic message that are kept.
pub const MAX_DIAGNOSTIC_BYTES: usize = 256;

/// Name of the metadata file.
pub const META_FILENAME: &'static str = "state_meta.json";

/// Name of the marker that is written when the metadata is corrupt.
pub const CORRUPT_MARKER_FILENAME: &'static str = "state_meta.corrupt";

/// How a tick ended.
#[derive(Clone, Copy, Debug, PartialEq, Eq, Structural)]
pub enum TickOutcome {
    /// A worker run completed.
    Processed,
    /// Every poll was answered from the cache.
    Idle304,
    /// A poll was answered afresh, with nothing to do.
    IdleEmpty,
    /// Another process holds the daemon's lock.
    SkippedConcurrent,
    /// The poll interval is not over.
    SkippedCadence,
    /// The rate limit is not reset.
    RateLimited,
    Cancelled,
    Failed,
}

/// The rate limit as a response reported it.
#[derive(Clone, Copy, Debug, PartialEq, Eq, Structural)]
pub struct RateLimitInfo {
    pub limit: Option<u32>,
    pub remaining: u32,
    pub reset_at: Timestamp,
    pub observed_at: Timestamp,
}

/// The rate limit as it is kept.
#[derive(Clone, Copy, Debug, PartialEq, Eq, Structural)]
pub struct RateLimitObservation {
    pub limit: Option<u32>,
    pub remaining: u32,
    pub reset_at: Timestamp,
    pub observed_at: Timestamp,
}

impl RateLimitObservation {
    /// Its reset is strictly later than that of `other`.
    pub open spec fn newer(self, other: RateLimitObservation) -> bool {
        other.reset_at.lt(self.reset_at)
    }

    /// Is its reset strictly later than that of `other`?
    pub fn is_newer_than(&self, other: &RateLimitObservation) -> (r: bool)
        ensures
            r == self.newer(*other),
    {
        other.reset_at.is_before(&self.reset_at)
    }
}

/// The observation in a response.
pub open spec fn observation(info: RateLimitInfo) -> RateLimitObservation {
    RateLimitObservation {
        limit: info.limit,
        remaining: info.remaining,
        reset_at: info.reset_at,
        observed_at: info.observed_at,
    }
}

/// One diagnostic.
#[derive(Debug)]
pub struct DaemonDiagnostic {
    pub timestamp: Timestamp,
    pub code: String,
    pub issue_key: Option<IssueKey>,
    pub message: String,
}

/// A [`DaemonDiagnostic`] with its texts as character sequences.
pub struct DiagnosticView {
    pub timestamp: Timestamp,
    pub code: Seq<char>,
    pub issue_key: Option<IssueView>,
    pub message: Seq<char>,
}

/// An optional key by its view.
pub open spec fn opt_key(k: Option<IssueKey>) -> Option<IssueView> {
    match k {
        Some(k) => Some(k@),
        None => None,
    }
}

impl View for DaemonDiagnostic {
    type V = DiagnosticView;

    open spec fn view(&self) -> DiagnosticView {
        DiagnosticView {
            timestamp: self.timestamp,
            code: self.code@,
            issue_key: opt_key(self.issue_key),
            message: self.message@,
        }
    }
}

/// The metadata.
#[derive(Debug)]
pub struct StateMeta {
    pub version: u32,
    pub last_tick_started: Option<Timestamp>,
    pub last_tick_finished: Option<Timestamp>,
    pub last_outcome: Option<TickOutcome>,
    pub last_http_status: Option<u16>,
    pub next_allowed_poll_at: Option<Timestamp>,
    pub last_reap_at: Option<Timestamp>,
    pub last_reaped_count: u32,
    pub rate_limit: Option<RateLimitObservation>,
    pub last_error: Option<String>,
    pub recent_diagnostics: Vec<DaemonDiagnostic>,
}

/// A [`StateMeta`] with its texts as character sequences.
pub struct MetaView {
    pub version: u32,
    pub last_tick_started: Option<Timestamp>,
    pub last_tick_finished: Option<Timestamp>,
    pub last_outcome: Option<TickOutcome>,
    pub last_http_status: Option<u16>,
    pub next_allowed_poll_at: Option<Timestamp>,
    pub last_reap_at: Option<Timestamp>,
    pub last_reaped_count: u32,
    pub rate_limit: Option<RateLimitObservation>,
    pub last_error: Option<Seq<char>>,
    pub recent_diagnostics: Seq<DiagnosticView>,
}

/// Diagnostics by their views.
pub open spec fn diagnostic_views(v: Seq<DaemonDiagnostic>) -> Seq<DiagnosticView> {
    v.map_values(|d: DaemonDiagnostic| d@)
}

impl View for StateMeta {
    type V = MetaView;

    open spec fn view(&self) -> MetaView {
        MetaView {
            version: self.version,
            last_tick_started: self.last_tick_started,
            last_tick_finished: self.last_tick_finished,
            last_outcome: self.last_outcome,
            last_http_status: self.last_http_status,
            next_allowed_poll_at: self.next_allowed_poll_at,
            last_reap_at: self.last_reap_at,
            last_reaped_count: self.last_reaped_count,
            rate_limit: self.rate_limit,
            last_error: text::opt(self.last_error),
            recent_diagnostics: diagnostic_views(self.recent_diagnostics@),
        }
    }
}

impl MetaView {
    /// Metadata that says nothing yet.
    pub open spec fn blank() -> MetaView {
        MetaView {
            version: META_VERSION,
            last_tick_started: None,
            last_tick_finished: None,
            last_outcome: None,
            last_http_status: None,
            next_allowed_poll_at: None,
            last_reap_at: None,
            last_reaped_count: 0,
            rate_limit: None,
            last_error: None,
            recent_diagnostics: Seq::empty(),
        }
    }

    /// With an observation of the rate limit, unless the one that is kept is
    /// as new.
    pub open spec fn observed(self, obs: RateLimitObservation) -> MetaView {
        if self.rate_limit matches Some(kept) && !obs.newer(kept) {
            self
        } else {
            MetaView { rate_limit: Some(obs), ..self }
        }
    }

    /// With an observation from a response, if there is one.
    pub open spec fn informed(self, info: Option<RateLimitInfo>) -> MetaView {
        match info {
            Some(i) => self.observed(observation(i)),
            None => self,
        }
    }

    /// When the next poll is allowed after a tick: at the reset that a response
    /// gave, else after the interval.
    pub open spec fn next_poll(
        now: Timestamp,
        interval: u64,
        info: Option<RateLimitInfo>,
    ) -> Timestamp {
        match info {
            Some(i) => i.reset_at,
            None => now.plus(columns::signed(interval) as int),
        }
    }

    /// With the end of a tick.
    pub open spec fn finished(
        self,
        now: Timestamp,
        outcome: TickOutcome,
        http_status: Option<u16>,
        interval: u64,
        info: Option<RateLimitInfo>,
        error: Option<Seq<char>>,
    ) -> MetaView {
        let m = self.informed(info);
        MetaView {
            last_tick_finished: Some(now),
            last_outcome: Some(outcome),
            last_http_status: http_status,
            next_allowed_poll_at: Some(MetaView::next_poll(now, interval, info)),
            last_error: match error {
                Some(e) => Some(e),
                None => m.last_error,
            },
            ..m
        }
    }

    /// Whole seconds until the next poll is allowed; none when it is.
    pub open spec fn wait_seconds(self, now: Timestamp) -> int {
        match self.next_allowed_poll_at {
            Some(t) => if t.since(now) < 0 {
                0
            } else {
                t.since(now) / 1000000000
            },
            None => 0,
        }
    }

    /// The longer of the wait that is left and of so many seconds, these taken
    /// as a signed number.
    pub open spec fn longer_wait(self, now: Timestamp, seconds: u64) -> int {
        if self.wait_seconds(now) > seconds {
            self.wait_seconds(now)
        } else {
            columns::signed(seconds) as int
        }
    }

    /// With the poll interval that the server suggests.
    pub open spec fn suggested(self, now: Timestamp, seconds: u64) -> MetaView {
        MetaView {
            next_allowed_poll_at: Some(now.plus(self.longer_wait(now, seconds))),
            ..self
        }
    }
}

impl StateMeta {
    /// Metadata that says nothing yet.
    pub fn empty() -> (r: StateMeta)
        ensures
            r@ == MetaView::blank(),
    {
        let r = StateMeta {
            version: META_VERSION,
            last_tick_started: None,
            last_tick_finished: None,
            last_outcome: None,
            last_http_status: None,
            next_allowed_poll_at: None,
            last_reap_at: None,
            last_reaped_count: 0,
            rate_limit: None,
            last_error: None,
            recent_diagnostics: Vec::new(),
        };
        proof {
            assert(diagnostic_views(r.recent_diagnostics@) =~= Seq::<DiagnosticView>::empty());
        }
        r
    }
}

// ---------------------------------------------------------------------------
// Reading
// ---------------------------------------------------------------------------

/// The metadata file as it was read: not there, an error with its text, or
/// what the decoder made of it.
pub enum MetaFile {
    Missing,
    Unreadable(String),
    Decoded(Result<StateMeta, String>),
}

/// A metadata file that cannot be used: the error, and why it is set aside.
pub struct CorruptMeta {
    pub error: CaduceusError,
    pub reason: String,
}

/// The complaint about another version.
pub open spec fn version_complaint(found: u32) -> Seq<char> {
    "unsupported metadata version: got "@ + text::dec(found as nat) + ", expected "@ + text::dec(
        META_VERSION as nat,
    )
}

/// The metadata in a file; or the message of the error and why the file is set
/// aside.
pub open spec fn read(file: MetaFile) -> Result<MetaView, (Seq<char>, Seq<char>)> {
    match file {
        MetaFile::Missing => Ok(MetaView::blank()),
        MetaFile::Unreadable(e) => Err(("read state_meta: "@ + e@, e@)),
        MetaFile::Decoded(Err(e)) => Err(("parse state_meta: "@ + e@, e@)),
        MetaFile::Decoded(Ok(m)) => if m.version != META_VERSION {
            Err((version_complaint(m.version), version_complaint(m.version)))
        } else {
            Ok(m@)
        },
    }
}

/// The metadata in a file. One that cannot be used is to be set aside, with a
/// marker, before the error is reported.
pub fn load(meta_path: &str, file: MetaFile) -> (r: Result<StateMeta, CorruptMeta>)
    ensures
        match r {
            Ok(m) => read(file) == Ok::<MetaView, (Seq<char>, Seq<char>)>(m@),
            Err(c) => read(file) matches Err((message, reason)) && c.error@
                == (Fault::StateCorrupt { path: meta_path@, message }) && c.reason@ == reason,
        },
{
    match file {
        MetaFile::Missing => Ok(StateMeta::empty()),
        MetaFile::Unreadable(e) => Err(
            CorruptMeta {
                error: crate::error::corrupt(
                    meta_path,
                    text::cat("read state_meta: ", e.as_str()),
                ),
                reason: e,
            },
        ),
        MetaFile::Decoded(Err(e)) => Err(
            CorruptMeta {
                error: crate::error::corrupt(
                    meta_path,
                    text::cat("parse state_meta: ", e.as_str()),
                ),
                reason: e,
            },
        ),
        MetaFile::Decoded(Ok(m)) => {
            if m.version != META_VERSION {
                let mut c = text::cat(
                    "unsupported metadata version: got ",
                    text::decimal(m.version as u64).as_str(),
                );
                c.append(", expected ");
                c.append(text::decimal(META_VERSION as u64).as_str());
                Err(CorruptMeta { error: crate::error::corrupt(meta_path, c.clone()), reason: c })
            } else {
                Ok(m)
            }
        },
    }
}

/// The name under which a corrupt metadata file is kept.
pub fn quarantine_name(unix_seconds: u64) -> (r: String)
    ensures
        r@ == META_FILENAME@ + ".corrupt-"@ + text::dec(unix_seconds as nat),
{
    let mut s = text::cat(META_FILENAME, ".corrupt-");
    s.append(text::decimal(unix_seconds).as_str());
    s
}

/// What the marker of a corrupt metadata file says.
pub fn quarantine_note(unix_seconds: u64, reason: &str, backup: &str) -> (r: String)
    ensures
        r@ == "state_meta quarantine at "@ + text::dec(unix_seconds as nat) + "\nreason: "@
            + reason@ + "\nbackup: "@ + backup@ + "\n"@,
{
    let mut s = text::cat("state_meta quarantine at ", text::decimal(unix_seconds).as_str());
    s.append("\nreason: ");
    s.append(reason);
    s.append("\nbackup: ");
    s.append(backup);
    s.append("\n");
    s
}

// ---------------------------------------------------------------------------
// The store
// ---------------------------------------------------------------------------

/// The metadata and where it lives. The caller persists it after a change.
#[derive(Debug)]
pub struct MetaStore {
    pub state_dir: String,
    pub meta_path: String,
    pub corrupt_marker: String,
    pub meta: StateMeta,
}

impl MetaStore {
    /// Both files are in the state directory.
    pub open spec fn wf(&self) -> bool {
        &&& self.meta_path@ == path::joined(self.state_dir@, META_FILENAME@)
        &&& self.corrupt_marker@ == path::joined(self.state_dir@, CORRUPT_MARKER_FILENAME@)
    }

    /// The store over the metadata file of a state directory.
    pub fn open(state_dir: &str, file: MetaFile) -> (r: Result<MetaStore, CorruptMeta>)
        ensures
            match r {
                Ok(s) => s.wf() && s.state_dir@ == state_dir@ && read(file) == Ok::<
                    MetaView,
                    (Seq<char>, Seq<char>),
                >(s.meta@),
                Err(c) => read(file) matches Err((message, reason)) && c.error@
                    == (Fault::StateCorrupt {
                    path: path::joined(state_dir@, META_FILENAME@),
                    message,
                }) && c.reason@ == reason,
            },
    {
        let meta_path = path::join(state_dir, META_FILENAME);
        let meta = match load(meta_path.as_str(), file) {
            Ok(m) => m,
            Err(c) => {
                return Err(c);
            },
        };
        Ok(
            MetaStore {
                state_dir: state_dir.to_owned(),
                meta_path,
                corrupt_marker: path::join(state_dir, CORRUPT_MARKER_FILENAME),
                meta,
            },
        )
    }

    /// Replace the metadata.
    pub fn update(&mut self, meta: StateMeta)
        requires
            old(self).wf(),
        ensures
            final(self).wf(),
            final(self).meta == meta,
            final(self).state_dir == old(self).state_dir,
    {
        self.meta = meta;
    }

    /// The metadata as it stands.
    pub fn snapshot(&self) -> (r: &StateMeta)
        ensures
            *r == self.meta,
    {
        &self.meta
    }

    /// Path of the marker.
    pub fn corrupt_marker_path(&self) -> (r: &str)
        ensures
            r@ == self.corrupt_marker@,
    {
        self.corrupt_marker.as_str()
    }

    /// Path of the metadata file.
    pub fn meta_path(&self) -> (r: &str)
        ensures
            r@ == self.meta_path@,
    {
        self.meta_path.as_str()
    }

    /// The state directory.
    pub fn state_dir(&self) -> (r: &str)
        ensures
            r@ == self.state_dir@,
    {
        self.state_dir.as_str()
    }
}

/// Merges observations of the rate limit into the metadata of a store.
#[derive(Debug)]
pub struct RateLimitObserver {
    pub store: MetaStore,
}

impl RateLimitObserver {
    /// The observer over a store.
    pub fn new(store: MetaStore) -> (r: RateLimitObserver)
        ensures
            r.store == store,
    {
        RateLimitObserver { store }
    }

    /// Merge an observation of the rate limit. One that is not newer than what
    /// is kept changes nothing.
    pub fn observe(&mut self, obs: RateLimitObservation)
        requires
            old(self).store.wf(),
        ensures
            final(self).store.wf(),
            final(self).store.state_dir == old(self).store.state_dir,
            final(self).store.meta@ == old(self).store.meta@.observed(obs),
    {
        merge_observation(&mut self.store.meta, obs);
    }
}

fn merge_observation(meta: &mut StateMeta, obs: RateLimitObservation)
    ensures
        final(meta)@ == old(meta)@.observed(obs),
{
    let dominated = match &meta.rate_limit {
        Some(kept) => !obs.is_newer_than(kept),
        None => false,
    };
    if !dominated {
        meta.rate_limit = Some(obs);
    }
}

// ---------------------------------------------------------------------------
// Cadence
// ---------------------------------------------------------------------------

/// May a tick poll?
#[derive(Clone, Copy, Debug, PartialEq, Eq, Structural)]
pub enum CadenceDecision {
    Proceed,
    /// The poll interval is not over.
    Cadence { next_allowed_at: Timestamp },
    /// The rate limit is not reset.
    RateLimited { next_allowed_at: Timestamp },
}

impl CadenceDecision {
    /// May the tick poll?
    pub fn is_proceed(&self) -> (r: bool)
        ensures
            r == (*self == CadenceDecision::Proceed),
    {
        match self {
            CadenceDecision::Proceed => true,
            _ => false,
        }
    }

    /// The outcome of a tick that may not poll.
    pub open spec fn outcome(self) -> Option<TickOutcome> {
        match self {
            CadenceDecision::Proceed => None,
            CadenceDecision::Cadence { .. } => Some(TickOutcome::SkippedCadence),
            CadenceDecision::RateLimited { .. } => Some(TickOutcome::RateLimited),
        }
    }

    /// The outcome of a tick that may not poll.
    pub fn tick_outcome(&self) -> (r: Option<TickOutcome>)
        ensures
            r == self.outcome(),
    {
        match self {
            CadenceDecision::Proceed => None,
            CadenceDecision::Cadence { .. } => Some(TickOutcome::SkippedCadence),
            CadenceDecision::RateLimited { .. } => Some(TickOutcome::RateLimited),
        }
    }
}

/// Whether a tick may poll: not while the rate limit is exhausted and not
/// reset, and not before the interval since the last tick is over.
pub open spec fn decision(m: MetaView, now: Timestamp, interval: u64) -> CadenceDecision {
    if m.rate_limit matches Some(rate) && rate.remaining == 0 && now.lt(rate.reset_at) {
        CadenceDecision::RateLimited { next_allowed_at: m.rate_limit->0.reset_at }
    } else if m.last_tick_finished matches Some(last) && now.lt(
        last.plus(columns::signed(interval) as int),
    ) {
        CadenceDecision::Cadence {
            next_allowed_at: m.last_tick_finished->0.plus(columns::signed(interval) as int),
        }
    } else {
        CadenceDecision::Proceed
    }
}

/// Whether a tick may poll, by the metadata store.
#[derive(Debug)]
pub struct CadenceGate {
    pub store: MetaStore,
}

impl CadenceGate {
    /// Open the metadata of a state directory.
    pub fn open(state_dir: &str, file: MetaFile) -> (r: Result<CadenceGate, CorruptMeta>)
        ensures
            match r {
                Ok(g) => g.store.wf() && g.store.state_dir@ == state_dir@ && read(file) == Ok::<
                    MetaView,
                    (Seq<char>, Seq<char>),
                >(g.store.meta@),
                Err(c) => read(file) matches Err((message, reason)) && c.error@
                    == (Fault::StateCorrupt {
                    path: path::joined(state_dir@, META_FILENAME@),
                    message,
                }) && c.reason@ == reason,
            },
    {
        match MetaStore::open(state_dir, file) {
            Ok(store) => Ok(CadenceGate { store }),
            Err(c) => Err(c),
        }
    }

    /// The metadata store.
    pub fn store(&self) -> (r: &MetaStore)
        ensures
            *r == self.store,
    {
        &self.store
    }

    /// May a tick poll now?
    pub fn precheck(&self, now: Timestamp, poll_interval_seconds: u64) -> (r: CadenceDecision)
        requires
            self.store.meta@.last_tick_finished matches Some(last) ==> last.reaches(
                columns::signed(poll_interval_seconds) as int,
            ),
        ensures
            r == decision(self.store.meta@, now, poll_interval_seconds),
    {
        let meta = &self.store.meta;
        match &meta.rate_limit {
            Some(rate) => {
                if rate.remaining == 0 && now.is_before(&rate.reset_at) {
                    return CadenceDecision::RateLimited { next_allowed_at: rate.reset_at };
                }
            },
            None => {},
        }
        match &meta.last_tick_finished {
            Some(last) => {
                let next = last.plus_seconds(columns::to_signed(poll_interval_seconds));
                if now.is_before(&next) {
                    return CadenceDecision::Cadence { next_allowed_at: next };
                }
            },
            None => {},
        }
        CadenceDecision::Proceed
    }

    /// Record the start of a tick.
    pub fn record_tick_started(&mut self, now: Timestamp)
        requires
            old(self).store.wf(),
        ensures
            final(self).store.wf(),
            final(self).store.state_dir == old(self).store.state_dir,
            final(self).store.meta@ == (MetaView {
                last_tick_started: Some(now),
                ..old(self).store.meta@
            }),
    {
        self.store.meta.last_tick_started = Some(now);
    }

    /// Record the end of a tick: its outcome, what it learned of the rate
    /// limit, and when the next poll is allowed.
    pub fn record_tick_finished(
        &mut self,
        now: Timestamp,
        outcome: TickOutcome,
        http_status: Option<u16>,
        poll_interval_seconds: u64,
        rate_limit: Option<RateLimitInfo>,
        last_error: Option<String>,
    )
        requires
            old(self).store.wf(),
            rate_limit is None ==> now.reaches(columns::signed(poll_interval_seconds) as int),
        ensures
            final(self).store.wf(),
            final(self).store.state_dir == old(self).store.state_dir,
            final(self).store.meta@ == old(self).store.meta@.finished(
                now,
                outcome,
                http_status,
                poll_interval_seconds,
                rate_limit,
                text::opt(last_error),
            ),
    {
        let next_allowed: Timestamp = match rate_limit {
            Some(info) => self.record_rate_limit(info).reset_at,
            None => now.plus_seconds(columns::to_signed(poll_interval_seconds)),
        };
        self.store.meta.last_tick_finished = Some(now);
        self.store.meta.last_outcome = Some(outcome);
        self.store.meta.last_http_status = http_status;
        self.store.meta.next_allowed_poll_at = Some(next_allowed);
        match last_error {
            Some(e) => {
                self.store.meta.last_error = Some(e);
            },
            None => {},
        }
    }

    /// Record what a response said of the rate limit. An older observation does
    /// not replace a newer one.
    pub fn record_rate_limit(&mut self, info: RateLimitInfo) -> (r: RateLimitObservation)
        requires
            old(self).store.wf(),
        ensures
            final(self).store.wf(),
            final(self).store.state_dir == old(self).store.state_dir,
            r == observation(info),
            final(self).store.meta@ == old(self).store.meta@.observed(observation(info)),
    {
        let obs = RateLimitObservation {
            limit: info.limit,
            remaining: info.remaining,
            reset_at: info.reset_at,
            observed_at: info.observed_at,
        };
        merge_observation(&mut self.store.meta, obs);
        obs
    }

    /// Record the poll interval that the server suggests.
    pub fn record_poll_interval(&mut self, now: Timestamp, server_suggested_seconds: u64)
        requires
            old(self).store.wf(),
            now.reaches(old(self).store.meta@.longer_wait(now, server_suggested_seconds)),
            old(self).store.meta@.next_allowed_poll_at matches Some(t) ==> t.valid(),
        ensures
            final(self).store.wf(),
            final(self).store.state_dir == old(self).store.state_dir,
            final(self).store.meta@ == old(self).store.meta@.suggested(
                now,
                server_suggested_seconds,
            ),
    {
        let wait: i64 = match &self.store.meta.next_allowed_poll_at {
            Some(t) => {
                let n = t.nanos_since(&now);
                if n < 0 {
                    0
                } else {
                    (n / 1000000000) as i64
                }
            },
            None => 0,
        };
        let effective: i64 = if wait as u64 > server_suggested_seconds {
            wait
        } else {
            columns::to_signed(server_suggested_seconds)
        };
        self.store.meta.next_allowed_poll_at = Some(now.plus_seconds(effective));
    }
}

// ---------------------------------------------------------------------------
// Diagnostics
// ---------------------------------------------------------------------------

/// The diagnostic is about the same thing, and recent.
pub open spec fn recurs(
    d: DiagnosticView,
    code: Seq<char>,
    key: Option<IssueView>,
    now: Timestamp,
) -> bool {
    &&& d.code == code
    &&& d.issue_key == key
    &&& now.since(d.timestamp) < DIAGNOSTIC_COALESCE_WINDOW * 1000000000
}

/// Position of the first recent diagnostic about the same thing, at or after
/// `i`.
pub open spec fn recent(
    v: Seq<DiagnosticView>,
    code: Seq<char>,
    key: Option<IssueView>,
    now: Timestamp,
    i: int,
) -> Option<int>
    decreases v.len() - i,
{
    if i < 0 || i >= v.len() {
        None
    } else if recurs(v[i], code, key, now) {
        Some(i)
    } else {
        recent(v, code, key, now, i + 1)
    }
}

/// The newest diagnostics, as many as are kept.
pub open spec fn newest(v: Seq<DiagnosticView>) -> Seq<DiagnosticView> {
    if v.len() > MAX_DIAGNOSTICS {
        v.skip(v.len() - MAX_DIAGNOSTICS)
    } else {
        v
    }
}

/// The diagnostics with one more. One that recurs is refreshed; otherwise it
/// is added, and the oldest make room.
pub open spec fn diagnosed(
    v: Seq<DiagnosticView>,
    code: Seq<char>,
    key: Option<IssueView>,
    message: Seq<char>,
    now: Timestamp,
) -> Seq<DiagnosticView> {
    let d = DiagnosticView {
        timestamp: now,
        code,
        issue_key: key,
        message: text::clip(message, MAX_DIAGNOSTIC_BYTES as nat),
    };
    match recent(v, code, key, now, 0) {
        Some(i) => v.update(i, d),
        None => newest(v.push(d)),
    }
}

fn same_key(a: &Option<IssueKey>, b: &Option<IssueKey>) -> (r: bool)
    ensures
        r == (opt_key(*a) == opt_key(*b)),
{
    match (a, b) {
        (None, None) => true,
        (Some(x), Some(y)) => issue::same_issue(x, y),
        _ => false,
    }
}

/// Add a diagnostic to the metadata.
pub fn append_diagnostic(
    meta: &mut StateMeta,
    code: &str,
    issue_key: Option<IssueKey>,
    message: &str,
    now: Timestamp,
)
    ensures
        final(meta)@ == (MetaView {
            recent_diagnostics: diagnosed(
                old(meta)@.recent_diagnostics,
                code@,
                opt_key(issue_key),
                message@,
                now,
            ),
            ..old(meta)@
        }),
{
    let ghost before = meta@.recent_diagnostics;
    let d = DaemonDiagnostic {
        timestamp: now,
        code: code.to_owned(),
        issue_key,
        message: text::clipped(message, MAX_DIAGNOSTIC_BYTES),
    };
    let mut i: usize = 0;
    while i < meta.recent_diagnostics.len()
        invariant
            *meta == *old(meta),
            before == meta@.recent_diagnostics,
            d.code@ == code@,
            d.timestamp == now,
            opt_key(d.issue_key) == opt_key(issue_key),
            d.message@ == text::clip(message@, MAX_DIAGNOSTIC_BYTES as nat),
            i <= meta.recent_diagnostics.len(),
            recent(before, code@, opt_key(issue_key), now, 0) == recent(
                before,
                code@,
                opt_key(issue_key),
                now,
                i as int,
            ),
        decreases meta.recent_diagnostics.len() - i,
    {
        let e = &meta.recent_diagnostics[i];
        proof {
            assert(before[i as int] == e@);
        }
        if text::same(e.code.as_str(), code) && same_key(&e.issue_key, &d.issue_key)
            && now.nanos_since(&e.timestamp) < DIAGNOSTIC_COALESCE_WINDOW as i128 * 1000000000 {
            meta.recent_diagnostics.set(i, d);
            proof {
                assert(meta@.recent_diagnostics =~= before.update(i as int, d@));
            }
            return;
        }
        i += 1;
    }
    meta.recent_diagnostics.push(d);
    proof {
        assert(meta@.recent_diagnostics =~= before.push(d@));
    }
    if meta.recent_diagnostics.len() > MAX_DIAGNOSTICS {
        let ghost all = meta@.recent_diagnostics;
        let extra: usize = meta.recent_diagnostics.len() - MAX_DIAGNOSTICS;
        let kept = meta.recent_diagnostics.split_off(extra);
        meta.recent_diagnostics = kept;
        proof {
            assert(meta@.recent_diagnostics =~= all.skip(extra as int));
        }
    }
}

/// An index of rate-limit observations, with nothing in it.
pub fn rate_limit_index() -> (r: StringMap<RateLimitObservation>)
    ensures
        r.wf(),
        r.keys.len() == 0,
{
    StringMap::new()
}

impl View for RateLimitObservation {
    type V = RateLimitObservation;

    open spec fn view(&self) -> RateLimitObservation {
        *self
    }
}

// ---------------------------------------------------------------------------
// Laws
// ---------------------------------------------------------------------------

/// Observations only move forward: whatever comes, the reset that is kept is
/// never earlier than before, and never earlier than the one that came.
pub proof fn law_observations_never_regress(m: MetaView, obs: RateLimitObservation)
    ensures
        m.observed(obs).rate_limit is Some,
        !m.observed(obs).rate_limit->0.reset_at.lt(obs.reset_at),
        m.rate_limit matches Some(kept) ==> !m.observed(obs).rate_limit->0.reset_at.lt(
            kept.reset_at,
        ),
{
}

/// Two observations leave the same reset in whichever order they come.
pub proof fn law_the_order_of_observations_does_not_matter(
    m: MetaView,
    a: RateLimitObservation,
    b: RateLimitObservation,
)
    ensures
        m.observed(a).observed(b).rate_limit->0.reset_at == m.observed(b).observed(
            a,
        ).rate_limit->0.reset_at,
{
}

/// After a tick ended, no tick polls before the interval is over; once it is,
/// one may, as far as the rate limit allows it.
pub proof fn law_ticks_keep_the_interval(
    m: MetaView,
    now: Timestamp,
    outcome: TickOutcome,
    status: Option<u16>,
    interval: u64,
    error: Option<Seq<char>>,
    later: Timestamp,
)
    requires
        interval <= i64::MAX,
    ensures
        ({
            let after = m.finished(now, outcome, status, interval, None, error);
            &&& later.lt(now.plus(interval as int)) ==> decision(after, later, interval)
                != CadenceDecision::Proceed
            &&& !later.lt(now.plus(interval as int)) && m.rate_limit is None ==> decision(
                after,
                later,
                interval,
            ) == CadenceDecision::Proceed
        }),
{
}

/// An exhausted rate limit blocks every tick until its reset, whatever the
/// interval.
pub proof fn law_an_exhausted_rate_limit_blocks(
    m: MetaView,
    obs: RateLimitObservation,
    now: Timestamp,
    interval: u64,
)
    requires
        obs.remaining == 0,
        now.lt(obs.reset_at),
        m.rate_limit matches Some(kept) ==> obs.newer(kept),
    ensures
        decision(m.observed(obs), now, interval) == (CadenceDecision::RateLimited {
            next_allowed_at: obs.reset_at,
        }),
{
}

/// A suggestion of the server never makes the daemon poll sooner than it
/// suggests.
pub proof fn law_suggestions_only_slow_down(m: MetaView, now: Timestamp, seconds: u64)
    requires
        now.nanos < 1000000000,
        seconds <= i64::MAX,
        now.secs + seconds <= i64::MAX,
        now.secs + m.wait_seconds(now) <= i64::MAX,
    ensures
        m.suggested(now, seconds).next_allowed_poll_at matches Some(t) && now.plus(
            seconds as int,
        ).le(t) && now.plus(m.wait_seconds(now)).le(t),
{
}

/// At most as many diagnostics are kept as there is room for, and one that
/// recurs within the hour adds none.
pub proof fn law_diagnostics_are_bounded(
    v: Seq<DiagnosticView>,
    code: Seq<char>,
    key: Option<IssueView>,
    message: Seq<char>,
    again: Seq<char>,
    now: Timestamp,
)
    requires
        v.len() <= MAX_DIAGNOSTICS,
    ensures
        diagnosed(v, code, key, message, now).len() <= MAX_DIAGNOSTICS,
        diagnosed(diagnosed(v, code, key, message, now), code, key, again, now).len() == diagnosed(
            v,
            code,
            key,
            message,
            now,
        ).len(),
{
    let once = diagnosed(v, code, key, message, now);
    lemma_recent(v, code, key, now, 0);
    let at: int = match recent(v, code, key, now, 0) {
        Some(i) => i,
        None => once.len() - 1,
    };
    assert(recurs(once[at], code, key, now));
    lemma_recent(once, code, key, now, 0);
}

proof fn lemma_recent(
    v: Seq<DiagnosticView>,
    code: Seq<char>,
    key: Option<IssueView>,
    now: Timestamp,
    i: int,
)
    requires
        0 <= i <= v.len(),
    ensures
        match recent(v, code, key, now, i) {
            Some(p) => i <= p < v.len() && recurs(v[p], code, key, now),
            None => forall|j: int| i <= j < v.len() ==> !recurs(#[trigger] v[j], code, key, now),
        },
    decreases v.len() - i,
{
    if i < v.len() && !recurs(v[i], code, key, now) {
        lemma_recent(v, code, key, now, i + 1);
    }
}

// ---------------------------------------------------------------------------
// What is on record after a tick
// ---------------------------------------------------------------------------

/// A finished tick is on record with its time, outcome and status. The next poll
/// is at the reset of a rate limit that was reported, and otherwise one interval
/// later. An error is kept until another takes its place, and what the tick did
/// not touch stays.
pub proof fn law_a_tick_is_on_record(
    m: MetaView,
    now: Timestamp,
    outcome: TickOutcome,
    status: Option<u16>,
    interval: u64,
    info: Option<RateLimitInfo>,
    error: Option<Seq<char>>,
)
    requires
        interval <= i64::MAX,
    ensures
        ({
            let a = m.finished(now, outcome, status, interval, info, error);
            &&& a.last_tick_finished == Some(now)
            &&& a.last_outcome == Some(outcome)
            &&& a.last_http_status == status
            &&& info is None ==> a.next_allowed_poll_at == Some(now.plus(interval as int))
                && a.rate_limit == m.rate_limit
            &&& info matches Some(i) ==> a.next_allowed_poll_at == Some(i.reset_at)
            &&& error is Some ==> a.last_error == error
            &&& error is None ==> a.last_error == m.last_error
            &&& a.last_tick_started == m.last_tick_started
            &&& a.last_reap_at == m.last_reap_at
            &&& a.last_reaped_count == m.last_reaped_count
            &&& a.recent_diagnostics == m.recent_diagnostics
            &&& a.version == m.version
        }),
{
}

/// A reported rate limit is kept when it is the first one, or resets later than
/// the one that is kept; then it is kept whole.
pub proof fn law_the_latest_rate_limit_is_kept(m: MetaView, info: RateLimitInfo)
    ensures
        ({
            let a = m.informed(Some(info));
            let kept = a.rate_limit->0;
            let replaces = m.rate_limit is None || m.rate_limit->0.reset_at.secs
                < info.reset_at.secs || (m.rate_limit->0.reset_at.secs == info.reset_at.secs
                && m.rate_limit->0.reset_at.nanos < info.reset_at.nanos);
            &&& a.rate_limit is Some
            &&& replaces ==> kept.limit == info.limit && kept.remaining == info.remaining
                && kept.reset_at == info.reset_at && kept.observed_at == info.observed_at
            &&& !replaces ==> a == m
            &&& a == (MetaView { rate_limit: a.rate_limit, ..m })
        }),
{
}

/// A tick may run unless the rate limit is used up and not reset yet, or the last
/// tick finished less than an interval ago. The rate limit comes first, and each
/// says when the next tick may run.
pub proof fn law_a_tick_waits_for_limit_and_interval(m: MetaView, now: Timestamp, interval: u64)
    requires
        interval <= i64::MAX,
    ensures
        ({
            let limited = m.rate_limit is Some && m.rate_limit->0.remaining == 0 && (now.secs
                < m.rate_limit->0.reset_at.secs || (now.secs == m.rate_limit->0.reset_at.secs
                && now.nanos < m.rate_limit->0.reset_at.nanos));
            let early = m.last_tick_finished is Some && now.lt(
                m.last_tick_finished->0.plus(interval as int),
            );
            &&& limited ==> decision(m, now, interval) == (CadenceDecision::RateLimited {
                next_allowed_at: m.rate_limit->0.reset_at,
            })
            &&& !limited && early ==> decision(m, now, interval) == (CadenceDecision::Cadence {
                next_allowed_at: m.last_tick_finished->0.plus(interval as int),
            })
            &&& !limited && !early ==> decision(m, now, interval) == CadenceDecision::Proceed
        }),
{
}

/// A tick that may not run is skipped as what held it back.
pub proof fn law_a_skipped_tick_has_its_outcome(at: Timestamp)
    ensures
        CadenceDecision::Proceed.outcome() is None,
        (CadenceDecision::Cadence { next_allowed_at: at }).outcome() == Some(
            TickOutcome::SkippedCadence,
        ),
        (CadenceDecision::RateLimited { next_allowed_at: at }).outcome() == Some(
            TickOutcome::RateLimited,
        ),
{
}

/// A diagnostic that was given within the last hour with the same code, for the
/// same issue, is replaced in its place by the new one; any other is added at the
/// end. At most twenty are kept, the newest, and of a message at most 256 bytes.
pub proof fn law_diagnostics_are_coalesced(
    v: Seq<DiagnosticView>,
    code: Seq<char>,
    key: Option<IssueView>,
    message: Seq<char>,
    now: Timestamp,
)
    requires
        v.len() <= 20,
    ensures
        ({
            let a = diagnosed(v, code, key, message, now);
            let known = |i: int|
                0 <= i < v.len() && v[i].code == code && v[i].issue_key == key && now.since(
                    v[i].timestamp,
                ) < 3600 * 1000000000;
            let is_new = |d: DiagnosticView|
                d.timestamp == now && d.code == code && d.issue_key == key
                    && d.message.is_prefix_of(message) && text::utf8_len(d.message) <= 256 && (
                text::utf8_len(message) <= 256 ==> d.message == message);
            &&& (exists|i: int| #[trigger] known(i)) ==> a.len() == v.len() && exists|i: int|
                #[trigger] known(i) && is_new(a[i]) && forall|j: int|
                    0 <= j < v.len() && j != i ==> a[j] == v[j]
            &&& !(exists|i: int| #[trigger] known(i)) ==> is_new(a.last()) && a.len() == (if v.len()
                < 20 {
                v.len() + 1
            } else {
                20
            }) && a.drop_last() == (if v.len() < 20 {
                v
            } else {
                v.skip(1)
            })
        }),
{
    let a = diagnosed(v, code, key, message, now);
    let known = |i: int|
        0 <= i < v.len() && v[i].code == code && v[i].issue_key == key && now.since(v[i].timestamp)
            < 3600 * 1000000000;
    text::lemma_clip_fits(message, 256);
    lemma_clip_prefix(message, 256);
    lemma_recent(v, code, key, now, 0);
    match recent(v, code, key, now, 0) {
        Some(i) => {
            assert(known(i));
            assert forall|j: int| 0 <= j < v.len() && j != i implies a[j] == v[j] by {}
        },
        None => {
            assert forall|i: int| !#[trigger] known(i) by {
                if known(i) {
                    assert(recurs(v[i], code, key, now));
                }
            }
            if v.len() < 20 {
                assert(a.drop_last() =~= v);
            } else {
                assert(a.drop_last() =~= v.skip(1));
            }
        },
    }
}

proof fn lemma_clip_prefix(s: Seq<char>, max: nat)
    ensures
        text::clip(s, max).is_prefix_of(s),
    decreases s.len(),
{
    if s.len() == 0 || text::utf8_len(s) <= max {
        assert(s =~= s.subrange(0, s.len() as int));
    } else {
        lemma_clip_prefix(s.drop_last(), max);
        let c = text::clip(s.drop_last(), max);
        assert(c =~= s.subrange(0, c.len() as int));
    }
}

/// A missing file is a blank record; a file is read when it is of version one, and
/// refused otherwise.
pub proof fn law_a_sound_record_is_read(file: MetaFile)
    ensures
        file is Missing ==> read(file) is Ok && read(file)->Ok_0 == MetaView::blank(),
        file is Unreadable ==> read(file) is Err,
        file matches MetaFile::Decoded(Ok(m)) ==> (read(file) is Ok <==> m.version == 1) && (
        read(file) is Ok ==> read(file)->Ok_0 == m@),
        file matches MetaFile::Decoded(Err(e)) ==> read(file) is Err,
        MetaView::blank().rate_limit is None,
        MetaView::blank().last_tick_finished is None,
        MetaView::blank().recent_diagnostics.len() == 0,
        MetaView::blank().version == 1,
{
}

/// A record that is refused is refused in these words: for the log with what was
/// done, and for the user with the error alone.
pub proof fn law_a_refused_record_says_why(file: MetaFile)
    ensures
        file matches MetaFile::Unreadable(e) ==> read(file) == Err::<MetaView, (Seq<char>, Seq<char>)>(
            ("read state_meta: "@ + e@, e@),
        ),
        file matches MetaFile::Decoded(Err(e)) ==> read(file) == Err::<
            MetaView,
            (Seq<char>, Seq<char>),
        >(("parse state_meta: "@ + e@, e@)),
        file matches MetaFile::Decoded(Ok(m)) ==> (m.version != 1 ==> read(file)->Err_0.0
            == "unsupported metadata version: got "@ + text::dec(m.version as nat) + ", expected "@
            + text::dec(1) && read(file)->Err_0.1 == read(file)->Err_0.0),
{
}

/// The start of a tick is on record, and nothing else changes.
pub proof fn law_a_started_tick_is_on_record(g: &mut CadenceGate, now: Timestamp, r: ())
    requires
        call_ensures(CadenceGate::record_tick_started, (g, now), r),
    ensures
        final(g).store.meta@.last_tick_started == Some(now),
        final(g).store.meta@.last_tick_finished == old(g).store.meta@.last_tick_finished,
        final(g).store.meta@.last_outcome == old(g).store.meta@.last_outcome,
        final(g).store.meta@.rate_limit == old(g).store.meta@.rate_limit,
        final(g).store.meta@.next_allowed_poll_at == old(g).store.meta@.next_allowed_poll_at,
{
}

/// The metadata is in the state directory, and a copy that is set aside carries its
/// time.
pub proof fn law_the_metadata_has_its_file(s: MetaStore, unix_seconds: u64, name: String)
    requires
        s.wf(),
        call_ensures(quarantine_name, (unix_seconds,), name),
    ensures
        s.meta_path@ == path::joined(s.state_dir@, "state_meta.json"@),
        s.corrupt_marker@ == path::joined(s.state_dir@, "state_meta.corrupt"@),
        name@ == "state_meta.json"@ + ".corrupt-"@ + text::dec(unix_seconds as nat),
{
}

} // verus!
