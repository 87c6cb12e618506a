//! Circuit breakers that gate the dispatch of work, per provider and per
//! repository.
//!
//! A closed circuit counts failures and opens at the threshold. An open circuit
//! rejects admissions until the open interval is over and then lets a single
//! probe through. A half-open circuit permits exactly one probe: when it
//! succeeds the circuit closes, when it fails the circuit opens again.

use vstd::prelude::*;

use crate::config::Config;
use crate::error::{CaduceusError, Fault};
use crate::state::columns;
use crate::text;

verus! {

/// Seconds after which to ask again while a probe is in flight.
pub const PROBE_RETRY_SECONDS: i64 = 5;

/// The state of one circuit.
#[derive(Clone, Copy, Debug, PartialEq, Eq, Structural)]
pub enum CircuitState {
    Closed,
    Open,
    HalfOpen,
}

impl CircuitState {
    /// The label under which the store keeps the state.
    pub open spec fn label(self) -> Seq<char> {
        match self {
            CircuitState::Closed => "closed"@,
            CircuitState::Open => "open"@,
            CircuitState::HalfOpen => "half_open"@,
        }
    }

    /// The state with the label.
    pub open spec fn labelled(label: Seq<char>) -> Option<CircuitState> {
        if label == "closed"@ {
            Some(CircuitState::Closed)
        } else if label == "open"@ {
            Some(CircuitState::Open)
        } else if label == "half_open"@ {
            Some(CircuitState::HalfOpen)
        } else {
            None
        }
    }

    /// The label under which the store keeps the state.
    pub fn as_str(&self) -> (r: &'static str)
        ensures
            r@ == self.label(),
    {
        match self {
            CircuitState::Closed => "closed",
            CircuitState::Open => "open",
            CircuitState::HalfOpen => "half_open",
        }
    }

    /// The state with the label, or the error text.
    pub fn from_label(s: &str) -> (r: Result<CircuitState, String>)
        ensures
            match r {
                Ok(c) => Self::labelled(s@) == Some(c),
                Err(e) => Self::labelled(s@) is None && e@ == "unknown circuit state: "@ + s@,
            },
    {
        if text::same(s, "closed") {
            Ok(CircuitState::Closed)
        } else if text::same(s, "open") {
            Ok(CircuitState::Open)
        } else if text::same(s, "half_open") {
            Ok(CircuitState::HalfOpen)
        } else {
            Err(text::cat("unknown circuit state: ", s))
        }
    }
}

impl std::str::FromStr for CircuitState {
    type Err = String;

    fn from_str(s: &str) -> (r: Result<CircuitState, String>)
        ensures
            match r {
                Ok(c) => CircuitState::labelled(s@) == Some(c),
                Err(e) => CircuitState::labelled(s@) is None && e@ == "unknown circuit state: "@ + s@,
            },
    {
        CircuitState::from_label(s)
    }
}

/// What a circuit guards.
#[derive(Clone, Copy, Debug, PartialEq, Eq, Structural)]
pub enum CircuitScope {
    Provider,
    Repository,
}

impl CircuitScope {
    /// The label under which the store keeps the scope.
    pub open spec fn label(self) -> Seq<char> {
        match self {
            CircuitScope::Provider => "provider"@,
            CircuitScope::Repository => "repository"@,
        }
    }

    /// The scope with the label.
    pub open spec fn labelled(label: Seq<char>) -> Option<CircuitScope> {
        if label == "provider"@ {
            Some(CircuitScope::Provider)
        } else if label == "repository"@ {
            Some(CircuitScope::Repository)
        } else {
            None
        }
    }

    /// The label under which the store keeps the scope.
    pub fn as_str(&self) -> (r: &'static str)
        ensures
            r@ == self.label(),
    {
        match self {
            CircuitScope::Provider => "provider",
            CircuitScope::Repository => "repository",
        }
    }

    /// The scope with the label, or the error text.
    pub fn from_label(s: &str) -> (r: Result<CircuitScope, String>)
        ensures
            match r {
                Ok(c) => Self::labelled(s@) == Some(c),
                Err(e) => Self::labelled(s@) is None && e@ == "unknown circuit scope: "@ + s@,
            },
    {
        if text::same(s, "provider") {
            Ok(CircuitScope::Provider)
        } else if text::same(s, "repository") {
            Ok(CircuitScope::Repository)
        } else {
            Err(text::cat("unknown circuit scope: ", s))
        }
    }
}

impl std::str::FromStr for CircuitScope {
    type Err = String;

    fn from_str(s: &str) -> (r: Result<CircuitScope, String>)
        ensures
            match r {
                Ok(c) => CircuitScope::labelled(s@) == Some(c),
                Err(e) => CircuitScope::labelled(s@) is None && e@ == "unknown circuit scope: "@ + s@,
            },
    {
        CircuitScope::from_label(s)
    }
}

/// Reading the label of a state, or of a scope, gives it back.
pub proof fn law_labels_read_back(state: CircuitState, scope: CircuitScope)
    ensures
        CircuitState::labelled(state.label()) == Some(state),
        CircuitScope::labelled(scope.label()) == Some(scope),
{
    reveal_strlit("closed");
    reveal_strlit("open");
    reveal_strlit("half_open");
    reveal_strlit("provider");
    reveal_strlit("repository");
    assert("closed"@.len() == 6);
    assert("open"@.len() == 4);
    assert("half_open"@.len() == 9);
    assert("provider"@.len() == 8);
    assert("repository"@.len() == 10);
}

// ---------------------------------------------------------------------------
// Configuration
// ---------------------------------------------------------------------------

/// Configuration of the circuits.
#[derive(Debug)]
pub struct CircuitConfig {
    /// Failures in a row after which a circuit opens.
    pub failure_threshold: u32,
    /// Delays of the backoff, in seconds.
    pub backoff_seconds: Vec<u64>,
    /// Seconds after which an open circuit lets a probe through.
    pub open_interval_seconds: u64,
    /// Seconds after which work behind an open circuit needs attention.
    pub max_degraded_seconds: u64,
}

/// The delay after `failures` failures in a row: the schedule starts at the
/// threshold and its last delay repeats. There is none below the threshold, or
/// without a schedule.
pub open spec fn scheduled_delay(schedule: Seq<u64>, threshold: u32, failures: u32) -> Option<u64> {
    if schedule.len() == 0 || failures < threshold {
        None
    } else if failures - threshold < schedule.len() {
        Some(schedule[failures - threshold])
    } else {
        Some(schedule.last())
    }
}

impl CircuitConfig {
    /// The circuit settings of the daemon.
    pub fn from_config(cfg: &Config) -> (r: CircuitConfig)
        ensures
            r.failure_threshold == cfg.circuit_failure_threshold,
            r.backoff_seconds@ == cfg.circuit_backoff_seconds@,
            r.open_interval_seconds == cfg.circuit_open_interval_seconds,
            r.max_degraded_seconds == cfg.circuit_max_degraded_seconds,
    {
        CircuitConfig {
            failure_threshold: cfg.circuit_failure_threshold,
            backoff_seconds: cfg.circuit_backoff_seconds.clone(),
            open_interval_seconds: cfg.circuit_open_interval_seconds,
            max_degraded_seconds: cfg.circuit_max_degraded_seconds,
        }
    }

    /// Three failures, half an hour to the first probe, one day at most.
    pub fn test_defaults() -> (r: CircuitConfig)
        ensures
            r.failure_threshold == 3,
            r.backoff_seconds@ == seq![30u64, 120u64, 600u64],
            r.open_interval_seconds == 1800,
            r.max_degraded_seconds == 86400,
    {
        CircuitConfig {
            failure_threshold: 3,
            backoff_seconds: vec![30, 120, 600],
            open_interval_seconds: 1800,
            max_degraded_seconds: 86400,
        }
    }

    /// The delay after `failures` failures in a row.
    pub fn backoff_delay(&self, failures: u32) -> (r: Option<u64>)
        ensures
            r == scheduled_delay(self.backoff_seconds@, self.failure_threshold, failures),
    {
        let n = self.backoff_seconds.len();
        if n == 0 || failures < self.failure_threshold {
            return None;
        }
        let over: u64 = (failures - self.failure_threshold) as u64;
        if over < n as u64 {
            Some(self.backoff_seconds[over as usize])
        } else {
            Some(self.backoff_seconds[n - 1])
        }
    }
}

// ---------------------------------------------------------------------------
// Records
// ---------------------------------------------------------------------------

/// A row of the circuit table, as it is stored.
#[derive(Debug)]
pub struct CircuitRow {
    pub scope: String,
    pub scope_id: String,
    pub state: String,
    pub consecutive_failures: i64,
    pub last_failure_at: Option<i64>,
    pub opened_at: Option<i64>,
    pub last_probe_at: Option<i64>,
}

/// A [`CircuitRow`] with its texts as character sequences.
pub struct RowView {
    pub scope: Seq<char>,
    pub scope_id: Seq<char>,
    pub state: Seq<char>,
    pub consecutive_failures: i64,
    pub last_failure_at: Option<i64>,
    pub opened_at: Option<i64>,
    pub last_probe_at: Option<i64>,
}

impl View for CircuitRow {
    type V = RowView;

    open spec fn view(&self) -> RowView {
        RowView {
            scope: self.scope@,
            scope_id: self.scope_id@,
            state: self.state@,
            consecutive_failures: self.consecutive_failures,
            last_failure_at: self.last_failure_at,
            opened_at: self.opened_at,
            last_probe_at: self.last_probe_at,
        }
    }
}

impl Clone for CircuitRow {
    fn clone(&self) -> (r: Self)
        ensures
            r == *self,
    {
        CircuitRow {
            scope: self.scope.clone(),
            scope_id: self.scope_id.clone(),
            state: self.state.clone(),
            consecutive_failures: self.consecutive_failures,
            last_failure_at: self.last_failure_at,
            opened_at: self.opened_at,
            last_probe_at: self.last_probe_at,
        }
    }
}

/// One circuit.
#[derive(Debug)]
pub struct CircuitRecord {
    pub scope: String,
    pub scope_id: String,
    pub state: CircuitState,
    pub consecutive_failures: u32,
    pub last_failure_at: Option<i64>,
    pub opened_at: Option<i64>,
    pub last_probe_at: Option<i64>,
}

/// A [`CircuitRecord`] with its texts as character sequences.
pub struct RecordView {
    pub scope: Seq<char>,
    pub scope_id: Seq<char>,
    pub state: CircuitState,
    pub consecutive_failures: u32,
    pub last_failure_at: Option<i64>,
    pub opened_at: Option<i64>,
    pub last_probe_at: Option<i64>,
}

impl View for CircuitRecord {
    type V = RecordView;

    open spec fn view(&self) -> RecordView {
        RecordView {
            scope: self.scope@,
            scope_id: self.scope_id@,
            state: self.state,
            consecutive_failures: self.consecutive_failures,
            last_failure_at: self.last_failure_at,
            opened_at: self.opened_at,
            last_probe_at: self.last_probe_at,
        }
    }
}

/// May work start behind a circuit?
#[derive(Clone, Copy, Debug, PartialEq, Eq, Structural)]
pub enum AdmissionResult {
    /// Yes: the circuit is closed, or this is the probe.
    Admitted,
    /// Not before `retry_after` seconds; with a probe in flight or without.
    CircuitOpen { retry_after: i64, probe_in_flight: bool },
    /// The circuit has been open for too long: the work needs attention.
    MaxDegradedAgeExceeded,
    /// There is no such circuit yet.
    NoCircuit,
}

/// A circuit that has been open for too long.
#[derive(Debug)]
pub struct ExhaustedEntry {
    pub scope: String,
    pub scope_id: String,
    pub consecutive_failures: u32,
    pub last_failure_at: Option<i64>,
    pub opened_at: Option<i64>,
}

/// An [`ExhaustedEntry`] with its texts as character sequences.
pub struct ExhaustedView {
    pub scope: Seq<char>,
    pub scope_id: Seq<char>,
    pub consecutive_failures: u32,
    pub last_failure_at: Option<i64>,
    pub opened_at: Option<i64>,
}

impl View for ExhaustedEntry {
    type V = ExhaustedView;

    open spec fn view(&self) -> ExhaustedView {
        ExhaustedView {
            scope: self.scope@,
            scope_id: self.scope_id@,
            consecutive_failures: self.consecutive_failures,
            last_failure_at: self.last_failure_at,
            opened_at: self.opened_at,
        }
    }
}

// ---------------------------------------------------------------------------
// Transitions of one row
// ---------------------------------------------------------------------------

/// The stored count is a counter of 32 bits.
pub open spec fn countable(n: i64) -> bool {
    0 <= n <= u32::MAX
}

/// The error for a stored count that is out of range.
pub open spec fn range_text(n: i64, column: Seq<char>) -> Seq<char> {
    "Integer "@ + text::dec_int(n as int) + " out of range at index "@ + column
}

impl RowView {
    /// The record that the row holds, or why it cannot be read.
    pub open spec fn record(self) -> Result<RecordView, Fault> {
        match CircuitState::labelled(self.state) {
            None => Err(
                Fault::Other(
                    "circuit read record: "@ + ("unknown circuit state: "@ + self.state),
                ),
            ),
            Some(state) => if !countable(self.consecutive_failures) {
                Err(
                    Fault::Other(
                        "circuit read record: "@ + range_text(self.consecutive_failures, "3"@),
                    ),
                )
            } else {
                Ok(
                    RecordView {
                        scope: self.scope,
                        scope_id: self.scope_id,
                        state,
                        consecutive_failures: self.consecutive_failures as u32,
                        last_failure_at: self.last_failure_at,
                        opened_at: self.opened_at,
                        last_probe_at: self.last_probe_at,
                    },
                )
            },
        }
    }

    /// The first failure of a circuit.
    pub open spec fn first_failure(scope: Seq<char>, scope_id: Seq<char>, now: i64) -> RowView {
        RowView {
            scope,
            scope_id,
            state: CircuitState::Closed.label(),
            consecutive_failures: 1,
            last_failure_at: Some(now),
            opened_at: None,
            last_probe_at: None,
        }
    }

    /// One more failure is counted.
    pub open spec fn counted(self, now: i64) -> RowView {
        RowView {
            consecutive_failures: (self.consecutive_failures + 1) as i64,
            last_failure_at: Some(now),
            ..self
        }
    }

    /// The circuit opens.
    pub open spec fn opened(self, now: i64) -> RowView {
        RowView { state: CircuitState::Open.label(), opened_at: Some(now), ..self }
    }

    /// A closed circuit at the threshold opens.
    pub open spec fn opened_at_threshold(self, threshold: u32, now: i64) -> RowView {
        if self.state == CircuitState::Closed.label() && self.consecutive_failures >= threshold {
            self.opened(now)
        } else {
            self
        }
    }

    /// A probe starts.
    pub open spec fn probing(self, now: i64) -> RowView {
        RowView { state: CircuitState::HalfOpen.label(), last_probe_at: Some(now), ..self }
    }

    /// A probe succeeded.
    pub open spec fn reset(self) -> RowView {
        RowView {
            state: CircuitState::Closed.label(),
            consecutive_failures: 0,
            opened_at: None,
            last_probe_at: None,
            last_failure_at: None,
            ..self
        }
    }

    /// When an open circuit opened; now, where it is not on record.
    pub open spec fn since(self, now: i64) -> i64 {
        match self.opened_at {
            Some(t) => t,
            None => now,
        }
    }

    /// A probe is in flight: it started, and its result is not recorded yet.
    pub open spec fn probe_in_flight(self) -> bool {
        self.state == CircuitState::HalfOpen.label() && self.last_probe_at is Some
    }

    /// When to ask again while a probe is in flight: once the probe is as old as
    /// the retry interval, and then after another interval.
    pub open spec fn probe_wait(self, now: i64) -> i64 {
        if now - self.last_probe_at->0 < PROBE_RETRY_SECONDS {
            (PROBE_RETRY_SECONDS - (now - self.last_probe_at->0)) as i64
        } else {
            PROBE_RETRY_SECONDS
        }
    }

    /// Whether work may start, for the two intervals.
    pub open spec fn admission(self, open_interval: i64, max_degraded: i64, now: i64) -> AdmissionResult {
        match self.record() {
            Err(_) => AdmissionResult::NoCircuit,
            Ok(r) => match r.state {
                CircuitState::Closed => AdmissionResult::Admitted,
                CircuitState::Open => if now >= self.since(now) + max_degraded {
                    AdmissionResult::MaxDegradedAgeExceeded
                } else if now >= self.since(now) + open_interval {
                    AdmissionResult::Admitted
                } else {
                    AdmissionResult::CircuitOpen {
                        retry_after: (self.since(now) + open_interval - now) as i64,
                        probe_in_flight: false,
                    }
                },
                CircuitState::HalfOpen => if self.probe_in_flight() {
                    AdmissionResult::CircuitOpen {
                        retry_after: self.probe_wait(now),
                        probe_in_flight: true,
                    }
                } else {
                    AdmissionResult::Admitted
                },
            },
        }
    }

    /// The row after the request: an admission behind a circuit that is not
    /// closed starts a probe.
    pub open spec fn after_request(self, open_interval: i64, max_degraded: i64, now: i64) -> RowView {
        if self.admission(open_interval, max_degraded, now) == AdmissionResult::Admitted
            && self.state != CircuitState::Closed.label() {
            self.probing(now)
        } else {
            self
        }
    }

    /// The times of the request fit the machine's integers.
    pub open spec fn in_range(self, open_interval: i64, max_degraded: i64, now: i64) -> bool {
        &&& i64::MIN <= self.since(now) + max_degraded <= i64::MAX
        &&& i64::MIN <= self.since(now) + open_interval <= i64::MAX
        &&& self.since(now) + open_interval - now <= i64::MAX
        &&& self.last_probe_at matches Some(t) ==> i64::MIN <= now - t <= i64::MAX
            && PROBE_RETRY_SECONDS - (now - t) <= i64::MAX
    }

    /// The circuit has been open for too long.
    pub open spec fn exhausted(self, max_degraded: i64, now: i64) -> bool {
        self.opened_at matches Some(t) && t + max_degraded <= now
    }
}

fn read_row(row: &CircuitRow) -> (r: Result<CircuitRecord, CaduceusError>)
    ensures
        crate::error::seen(r) == row@.record(),
{
    let state = match CircuitState::from_label(row.state.as_str()) {
        Ok(s) => s,
        Err(e) => {
            return Err(CaduceusError::Other(text::cat("circuit read record: ", e.as_str())));
        },
    };
    if row.consecutive_failures < 0 || row.consecutive_failures > 0xffff_ffff {
        let mut m = text::cat("circuit read record: ", "Integer ");
        m.append(text::decimal_signed(row.consecutive_failures).as_str());
        m.append(" out of range at index ");
        m.append("3");
        proof {
            assert(m@ =~= "circuit read record: "@ + range_text(row.consecutive_failures, "3"@));
        }
        return Err(CaduceusError::Other(m));
    }
    Ok(
        CircuitRecord {
            scope: row.scope.clone(),
            scope_id: row.scope_id.clone(),
            state,
            consecutive_failures: row.consecutive_failures as u32,
            last_failure_at: row.last_failure_at,
            opened_at: row.opened_at,
            last_probe_at: row.last_probe_at,
        },
    )
}

// ---------------------------------------------------------------------------
// The table
// ---------------------------------------------------------------------------

/// The rows by their views.
pub open spec fn row_views(rows: Seq<CircuitRow>) -> Seq<RowView> {
    rows.map_values(|r: CircuitRow| r@)
}

/// The row is that of the circuit.
pub open spec fn is_of(row: RowView, scope: Seq<char>, scope_id: Seq<char>) -> bool {
    row.scope == scope && row.scope_id == scope_id
}

/// Position of the row of a circuit, at or after `i`.
pub open spec fn position_from(
    rows: Seq<RowView>,
    scope: Seq<char>,
    scope_id: Seq<char>,
    i: int,
) -> Option<int>
    decreases rows.len() - i,
{
    if i < 0 || i >= rows.len() {
        None
    } else if is_of(rows[i], scope, scope_id) {
        Some(i)
    } else {
        position_from(rows, scope, scope_id, i + 1)
    }
}

/// Position of the row of a circuit.
pub open spec fn position(rows: Seq<RowView>, scope: Seq<char>, scope_id: Seq<char>) -> Option<int> {
    position_from(rows, scope, scope_id, 0)
}

/// The record of a circuit, or why it cannot be read.
pub open spec fn lookup(rows: Seq<RowView>, scope: Seq<char>, scope_id: Seq<char>) -> Result<
    RecordView,
    Fault,
> {
    match position(rows, scope, scope_id) {
        Some(i) => rows[i].record(),
        None => Err(Fault::Other("circuit read record: Query returned no rows"@)),
    }
}

/// No circuit has two rows.
pub open spec fn unique(rows: Seq<RowView>) -> bool {
    forall|i: int, j: int|
        0 <= i < j < rows.len() ==> !is_of(
            #[trigger] rows[j],
            (#[trigger] rows[i]).scope,
            rows[i].scope_id,
        )
}

pub proof fn lemma_position(rows: Seq<RowView>, scope: Seq<char>, scope_id: Seq<char>, i: int)
    requires
        0 <= i <= rows.len(),
    ensures
        match position_from(rows, scope, scope_id, i) {
            Some(p) => i <= p < rows.len() && is_of(rows[p], scope, scope_id),
            None => forall|j: int|
                i <= j < rows.len() ==> !is_of(#[trigger] rows[j], scope, scope_id),
        },
    decreases rows.len() - i,
{
    if i < rows.len() && !is_of(rows[i], scope, scope_id) {
        lemma_position(rows, scope, scope_id, i + 1);
    }
}

/// The rows once a failure is counted.
pub open spec fn counted(rows: Seq<RowView>, scope: Seq<char>, scope_id: Seq<char>, now: i64) -> Seq<
    RowView,
> {
    match position(rows, scope, scope_id) {
        Some(i) => rows.update(i, rows[i].counted(now)),
        None => rows.push(RowView::first_failure(scope, scope_id, now)),
    }
}

/// Where a counted failure stands.
pub open spec fn counted_at(rows: Seq<RowView>, scope: Seq<char>, scope_id: Seq<char>) -> int {
    match position(rows, scope, scope_id) {
        Some(i) => i,
        None => rows.len() as int,
    }
}

/// The rows and the record after a failure, or why the circuit cannot be read.
pub open spec fn failed(
    rows: Seq<RowView>,
    threshold: u32,
    scope: Seq<char>,
    scope_id: Seq<char>,
    now: i64,
) -> Result<(Seq<RowView>, RecordView), Fault> {
    let after = counted(rows, scope, scope_id, now);
    let i = counted_at(rows, scope, scope_id);
    match after[i].record() {
        Err(f) => Err(f),
        Ok(_) => {
            let row = after[i].opened_at_threshold(threshold, now);
            match row.record() {
                Err(f) => Err(f),
                Ok(record) => Ok((after.update(i, row), record)),
            }
        },
    }
}

/// The rows after the result of a probe.
pub open spec fn probed(
    rows: Seq<RowView>,
    scope: Seq<char>,
    scope_id: Seq<char>,
    success: bool,
    now: i64,
) -> Seq<RowView> {
    match position(rows, scope, scope_id) {
        None => rows,
        Some(i) => if success {
            rows.update(i, rows[i].reset())
        } else {
            rows.update(i, rows[i].counted(now).opened(now))
        },
    }
}

/// The circuits among the first `n` that have been open for too long, or why
/// one of them cannot be read.
pub open spec fn exhausted_among(rows: Seq<RowView>, max_degraded: i64, now: i64, n: int) -> Result<
    Seq<ExhaustedView>,
    Fault,
>
    decreases n,
{
    if n <= 0 {
        Ok(Seq::empty())
    } else {
        match exhausted_among(rows, max_degraded, now, n - 1) {
            Err(f) => Err(f),
            Ok(s) => {
                let row = rows[n - 1];
                if !row.exhausted(max_degraded, now) {
                    Ok(s)
                } else if !countable(row.consecutive_failures) {
                    Err(
                        Fault::Other(
                            "circuit exhausted row: "@ + range_text(
                                row.consecutive_failures,
                                "2"@,
                            ),
                        ),
                    )
                } else {
                    Ok(
                        s.push(
                            ExhaustedView {
                                scope: row.scope,
                                scope_id: row.scope_id,
                                consecutive_failures: row.consecutive_failures as u32,
                                last_failure_at: row.last_failure_at,
                                opened_at: row.opened_at,
                            },
                        ),
                    )
                }
            },
        }
    }
}

proof fn lemma_exhausted_fault_stays(
    rows: Seq<RowView>,
    max_degraded: i64,
    now: i64,
    n: int,
    m: int,
)
    requires
        n <= m,
        exhausted_among(rows, max_degraded, now, n) is Err,
    ensures
        exhausted_among(rows, max_degraded, now, m) == exhausted_among(
            rows,
            max_degraded,
            now,
            n,
        ),
    decreases m - n,
{
    if n < m {
        lemma_exhausted_fault_stays(rows, max_degraded, now, n, m - 1);
    }
}

/// The exhausted entries by their views.
pub open spec fn exhausted_views(v: Seq<ExhaustedEntry>) -> Seq<ExhaustedView> {
    v.map_values(|e: ExhaustedEntry| e@)
}

/// The circuits, and their configuration.
#[derive(Debug)]
pub struct CircuitStore {
    pub rows: Vec<CircuitRow>,
    pub config: CircuitConfig,
}

impl View for CircuitStore {
    type V = Seq<RowView>;

    open spec fn view(&self) -> Seq<RowView> {
        row_views(self.rows@)
    }
}

impl CircuitStore {
    /// No circuit has two rows.
    pub open spec fn wf(&self) -> bool {
        unique(self@)
    }

    /// A store over the rows of the table, one per circuit.
    pub fn new(rows: Vec<CircuitRow>, config: CircuitConfig) -> (r: CircuitStore)
        ensures
            r.rows == rows,
            r.config == config,
    {
        CircuitStore { rows, config }
    }

    fn find(&self, scope: &str, scope_id: &str) -> (r: Option<usize>)
        ensures
            match r {
                Some(i) => i < self.rows.len() && position(self@, scope@, scope_id@) == Some(
                    i as int,
                ) && is_of(self@[i as int], scope@, scope_id@),
                None => position(self@, scope@, scope_id@) is None,
            },
    {
        let mut i: usize = 0;
        while i < self.rows.len()
            invariant
                i <= self.rows.len(),
                position(self@, scope@, scope_id@) == position_from(
                    self@,
                    scope@,
                    scope_id@,
                    i as int,
                ),
            decreases self.rows.len() - i,
        {
            proof {
                assert(self@[i as int] == self.rows@[i as int]@);
            }
            if text::same(self.rows[i].scope.as_str(), scope) && text::same(
                self.rows[i].scope_id.as_str(),
                scope_id,
            ) {
                return Some(i);
            }
            i += 1;
        }
        None
    }

    fn put(&mut self, i: usize, row: CircuitRow)
        requires
            old(self).wf(),
            i < old(self).rows.len(),
            is_of(row@, old(self)@[i as int].scope, old(self)@[i as int].scope_id),
        ensures
            final(self).wf(),
            final(self)@ == old(self)@.update(i as int, row@),
            final(self).config == old(self).config,
    {
        let ghost before = self@;
        self.rows.set(i, row);
        proof {
            assert(self@ =~= before.update(i as int, row@));
            assert forall|a: int, b: int| 0 <= a < b < self@.len() implies !is_of(
                #[trigger] self@[b],
                (#[trigger] self@[a]).scope,
                self@[a].scope_id,
            ) by {
                assert(!is_of(before[b], before[a].scope, before[a].scope_id));
            }
        }
    }

    /// Count a failure of a circuit, which opens at the threshold.
    pub fn record_failure(&mut self, scope: &str, scope_id: &str, now: i64) -> (r: Result<
        CircuitRecord,
        CaduceusError,
    >)
        requires
            old(self).wf(),
            position(old(self)@, scope@, scope_id@) matches Some(i) ==> old(
                self,
            )@[i].consecutive_failures < i64::MAX,
        ensures
            final(self).wf(),
            final(self).config == old(self).config,
            match failed(
                old(self)@,
                old(self).config.failure_threshold,
                scope@,
                scope_id@,
                now,
            ) {
                Ok((rows, record)) => (r matches Ok(c) && c@ == record) && final(self)@ == rows,
                Err(f) => (r matches Err(e) && e@ == f) && final(self)@ == old(self)@,
            },
    {
        let ghost before = self@;
        let (at, row): (usize, CircuitRow) = match self.find(scope, scope_id) {
            Some(i) => {
                let mut row = self.rows[i].clone();
                row.consecutive_failures = row.consecutive_failures + 1;
                row.last_failure_at = Some(now);
                (i, row)
            },
            None => (
                self.rows.len(),
                CircuitRow {
                    scope: scope.to_owned(),
                    scope_id: scope_id.to_owned(),
                    state: "closed".to_owned(),
                    consecutive_failures: 1,
                    last_failure_at: Some(now),
                    opened_at: None,
                    last_probe_at: None,
                },
            ),
        };
        proof {
            lemma_position(before, scope@, scope_id@, 0);
            assert(counted(before, scope@, scope_id@, now)[at as int] == row@);
        }
        let record = match read_row(&row) {
            Ok(r) => r,
            Err(e) => return Err(e),
        };
        let mut row = row;
        if record.state == CircuitState::Closed && row.consecutive_failures
            >= self.config.failure_threshold as i64 {
            row.state = "open".to_owned();
            row.opened_at = Some(now);
        }
        let record = match read_row(&row) {
            Ok(r) => r,
            Err(e) => return Err(e),
        };
        if at < self.rows.len() {
            self.put(at, row);
            proof {
                assert(self@ =~= counted(before, scope@, scope_id@, now).update(at as int, row@));
            }
        } else {
            self.rows.push(row);
            proof {
                assert(self@ =~= counted(before, scope@, scope_id@, now).update(at as int, row@));
                assert forall|a: int, b: int| 0 <= a < b < self@.len() implies !is_of(
                    #[trigger] self@[b],
                    (#[trigger] self@[a]).scope,
                    self@[a].scope_id,
                ) by {
                    if b < before.len() {
                        assert(!is_of(before[b], before[a].scope, before[a].scope_id));
                    } else {
                        assert(!is_of(before[a], scope@, scope_id@));
                    }
                }
            }
        }
        Ok(record)
    }

    /// May work start behind a circuit? An admission behind a circuit that is
    /// not closed is a probe, and is recorded as one.
    pub fn try_admit(&mut self, scope: &str, scope_id: &str, now: i64) -> (r: AdmissionResult)
        requires
            old(self).wf(),
            position(old(self)@, scope@, scope_id@) matches Some(i) ==> old(self)@[i].in_range(
                columns::signed(old(self).config.open_interval_seconds),
                columns::signed(old(self).config.max_degraded_seconds),
                now,
            ),
        ensures
            final(self).wf(),
            final(self).config == old(self).config,
            match position(old(self)@, scope@, scope_id@) {
                None => r == AdmissionResult::NoCircuit && final(self)@ == old(self)@,
                Some(i) => {
                    let open_interval = columns::signed(old(self).config.open_interval_seconds);
                    let max_degraded = columns::signed(old(self).config.max_degraded_seconds);
                    &&& r == old(self)@[i].admission(open_interval, max_degraded, now)
                    &&& final(self)@ == old(self)@.update(
                        i,
                        old(self)@[i].after_request(open_interval, max_degraded, now),
                    )
                },
            },
    {
        let ghost before = self@;
        let i = match self.find(scope, scope_id) {
            Some(i) => i,
            None => {
                return AdmissionResult::NoCircuit;
            },
        };
        proof {
            law_labels_read_back(CircuitState::Closed, CircuitScope::Provider);
            assert(before.update(i as int, before[i as int]) =~= before);
        }
        let record = match read_row(&self.rows[i]) {
            Ok(r) => r,
            Err(_) => {
                return AdmissionResult::NoCircuit;
            },
        };
        match record.state {
            CircuitState::Closed => AdmissionResult::Admitted,
            CircuitState::Open => {
                let opened_at: i64 = match record.opened_at {
                    Some(t) => t,
                    None => now,
                };
                let open_interval: i64 = columns::to_signed(self.config.open_interval_seconds);
                let max_degraded: i64 = columns::to_signed(self.config.max_degraded_seconds);
                if now >= opened_at + max_degraded {
                    return AdmissionResult::MaxDegradedAgeExceeded;
                }
                if now >= opened_at + open_interval {
                    self.start_probe(i, now);
                    AdmissionResult::Admitted
                } else {
                    AdmissionResult::CircuitOpen {
                        retry_after: opened_at + open_interval - now,
                        probe_in_flight: false,
                    }
                }
            },
            CircuitState::HalfOpen => {
                match record.last_probe_at {
                    Some(last_probe) => {
                        let retry_after: i64 = if now - last_probe < PROBE_RETRY_SECONDS {
                            PROBE_RETRY_SECONDS - (now - last_probe)
                        } else {
                            PROBE_RETRY_SECONDS
                        };
                        AdmissionResult::CircuitOpen { retry_after, probe_in_flight: true }
                    },
                    None => {
                        self.start_probe(i, now);
                        AdmissionResult::Admitted
                    },
                }
            },
        }
    }

    fn start_probe(&mut self, i: usize, now: i64)
        requires
            old(self).wf(),
            i < old(self).rows.len(),
        ensures
            final(self).wf(),
            final(self).config == old(self).config,
            final(self)@ == old(self)@.update(i as int, old(self)@[i as int].probing(now)),
    {
        let mut row = self.rows[i].clone();
        row.state = "half_open".to_owned();
        row.last_probe_at = Some(now);
        self.put(i, row);
    }

    /// Record how a probe went: a success closes the circuit, a failure opens
    /// it again. Nothing happens where there is no such circuit.
    pub fn record_probe_result(&mut self, scope: &str, scope_id: &str, success: bool, now: i64)
        requires
            old(self).wf(),
            position(old(self)@, scope@, scope_id@) matches Some(i) ==> old(
                self,
            )@[i].consecutive_failures < i64::MAX,
        ensures
            final(self).wf(),
            final(self).config == old(self).config,
            final(self)@ == probed(old(self)@, scope@, scope_id@, success, now),
    {
        match self.find(scope, scope_id) {
            None => {},
            Some(i) => {
                let mut row = self.rows[i].clone();
                if success {
                    row.state = "closed".to_owned();
                    row.consecutive_failures = 0;
                    row.opened_at = None;
                    row.last_probe_at = None;
                    row.last_failure_at = None;
                } else {
                    row.state = "open".to_owned();
                    row.opened_at = Some(now);
                    row.consecutive_failures = row.consecutive_failures + 1;
                    row.last_failure_at = Some(now);
                }
                self.put(i, row);
            },
        }
    }

    /// The circuits that have been open for too long.
    pub fn exhausted_to_needs_attention(&self, now: i64) -> (r: Result<
        Vec<ExhaustedEntry>,
        CaduceusError,
    >)
        ensures
            ({
                let found = exhausted_among(
                    self@,
                    columns::signed(self.config.max_degraded_seconds),
                    now,
                    self@.len() as int,
                );
                match r {
                    Ok(v) => found == Ok::<Seq<ExhaustedView>, Fault>(exhausted_views(v@)),
                    Err(e) => found == Err::<Seq<ExhaustedView>, Fault>(e@),
                }
            }),
    {
        let max_age: i64 = columns::to_signed(self.config.max_degraded_seconds);
        let mut out: Vec<ExhaustedEntry> = Vec::new();
        let mut i: usize = 0;
        proof {
            assert(exhausted_views(out@) =~= Seq::<ExhaustedView>::empty());
        }
        while i < self.rows.len()
            invariant
                i <= self.rows.len(),
                max_age == columns::signed(self.config.max_degraded_seconds),
                exhausted_among(self@, max_age, now, i as int) == Ok::<Seq<ExhaustedView>, Fault>(
                    exhausted_views(out@),
                ),
            decreases self.rows.len() - i,
        {
            let row = &self.rows[i];
            proof {
                assert(self@[i as int] == row@);
            }
            let old_enough = match row.opened_at {
                Some(t) => t as i128 + max_age as i128 <= now as i128,
                None => false,
            };
            if old_enough {
                if row.consecutive_failures < 0 || row.consecutive_failures > 0xffff_ffff {
                    let mut m = text::cat("circuit exhausted row: ", "Integer ");
                    m.append(text::decimal_signed(row.consecutive_failures).as_str());
                    m.append(" out of range at index ");
                    m.append("2");
                    proof {
                        assert(m@ =~= "circuit exhausted row: "@ + range_text(
                            row.consecutive_failures,
                            "2"@,
                        ));
                        lemma_exhausted_fault_stays(
                            self@,
                            max_age,
                            now,
                            i + 1,
                            self@.len() as int,
                        );
                    }
                    return Err(CaduceusError::Other(m));
                }
                let ghost before = out@;
                out.push(
                    ExhaustedEntry {
                        scope: row.scope.clone(),
                        scope_id: row.scope_id.clone(),
                        consecutive_failures: row.consecutive_failures as u32,
                        last_failure_at: row.last_failure_at,
                        opened_at: row.opened_at,
                    },
                );
                proof {
                    assert(exhausted_views(out@) =~= exhausted_views(before).push(out@.last()@));
                }
            }
            i += 1;
        }
        Ok(out)
    }

    /// The record of a circuit; none where there is no row, or one that cannot
    /// be read.
    pub fn get_record(&self, scope: &str, scope_id: &str) -> (r: Option<CircuitRecord>)
        ensures
            match r {
                Some(c) => lookup(self@, scope@, scope_id@) == Ok::<RecordView, Fault>(c@),
                None => lookup(self@, scope@, scope_id@) is Err,
            },
    {
        match self.find(scope, scope_id) {
            None => None,
            Some(i) => match read_row(&self.rows[i]) {
                Ok(r) => Some(r),
                Err(_) => None,
            },
        }
    }
}

// ---------------------------------------------------------------------------
// Laws
// ---------------------------------------------------------------------------

/// What is counted of `n` failures in a row of a circuit that starts closed at
/// zero.
pub open spec fn after_failures(row: RowView, threshold: u32, n: nat, now: i64) -> RowView
    decreases n,
{
    if n == 0 {
        row
    } else {
        after_failures(row, threshold, (n - 1) as nat, now).counted(now).opened_at_threshold(
            threshold,
            now,
        )
    }
}

/// A circuit opens at the failure that reaches the threshold, and not before.
pub proof fn law_the_threshold_opens_a_circuit(row: RowView, threshold: u32, n: nat, now: i64)
    requires
        row.state == CircuitState::Closed.label(),
        row.consecutive_failures == 0,
        threshold > 0,
        n <= threshold,
    ensures
        ({
            let after = after_failures(row, threshold, n, now);
            &&& after.consecutive_failures == n
            &&& n < threshold ==> after.state == CircuitState::Closed.label()
            &&& n == threshold ==> after.state == CircuitState::Open.label() && after.opened_at
                == Some(now)
        }),
    decreases n,
{
    law_labels_read_back(CircuitState::Closed, CircuitScope::Provider);
    law_labels_read_back(CircuitState::Open, CircuitScope::Provider);
    if n > 0 {
        law_the_threshold_opens_a_circuit(row, threshold, (n - 1) as nat, now);
    }
}

/// An open circuit rejects until the open interval is over, lets a probe
/// through from then on, and from the maximal age on asks for attention.
pub proof fn law_an_open_circuit_waits(
    row: RowView,
    opened: i64,
    open_interval: i64,
    max_degraded: i64,
    now: i64,
)
    requires
        row.state == CircuitState::Open.label(),
        row.opened_at == Some(opened),
        countable(row.consecutive_failures),
        opened <= now,
        0 < open_interval < max_degraded,
    ensures
        ({
            let r = row.admission(open_interval, max_degraded, now);
            &&& now - opened < open_interval ==> r == (AdmissionResult::CircuitOpen {
                retry_after: (open_interval - (now - opened)) as i64,
                probe_in_flight: false,
            })
            &&& open_interval <= now - opened < max_degraded ==> r == AdmissionResult::Admitted
                && row.after_request(open_interval, max_degraded, now).state
                == CircuitState::HalfOpen.label()
            &&& max_degraded <= now - opened ==> r == AdmissionResult::MaxDegradedAgeExceeded
                && row.exhausted(max_degraded, now)
        }),
{
    law_labels_read_back(CircuitState::Open, CircuitScope::Provider);
    law_labels_read_back(CircuitState::Closed, CircuitScope::Provider);
}

/// A circuit that was asked and let a probe through lets no other through, at
/// any time, and stays as it is until the probe's result is recorded.
pub proof fn law_one_probe_at_a_time(
    row: RowView,
    open_interval: i64,
    max_degraded: i64,
    now: i64,
    later: i64,
)
    requires
        countable(row.consecutive_failures),
        row.state != CircuitState::Closed.label(),
        row.admission(open_interval, max_degraded, now) == AdmissionResult::Admitted,
    ensures
        ({
            let probed = row.after_request(open_interval, max_degraded, now);
            &&& probed == row.probing(now)
            &&& probed.admission(open_interval, max_degraded, later) == (
            AdmissionResult::CircuitOpen {
                retry_after: probed.probe_wait(later),
                probe_in_flight: true,
            })
            &&& probed.after_request(open_interval, max_degraded, later) == probed
        }),
{
    law_labels_read_back(CircuitState::HalfOpen, CircuitScope::Provider);
}

/// A successful probe closes the circuit, and a closed circuit admits; a
/// failed probe opens it, from that moment on.
pub proof fn law_a_probe_decides(
    row: RowView,
    open_interval: i64,
    max_degraded: i64,
    now: i64,
    later: i64,
)
    requires
        0 <= row.consecutive_failures < u32::MAX,
        now <= later,
        later - now < open_interval < max_degraded,
    ensures
        row.reset().admission(open_interval, max_degraded, later) == AdmissionResult::Admitted,
        row.reset().consecutive_failures == 0,
        row.counted(now).opened(now).admission(open_interval, max_degraded, later) is CircuitOpen,
        row.counted(now).opened(now).consecutive_failures == row.consecutive_failures + 1,
{
    law_labels_read_back(CircuitState::Closed, CircuitScope::Provider);
    law_labels_read_back(CircuitState::Open, CircuitScope::Provider);
}

/// A failure of one circuit leaves every other as it was.
pub proof fn law_circuits_are_independent(
    rows: Seq<RowView>,
    threshold: u32,
    scope: Seq<char>,
    scope_id: Seq<char>,
    now: i64,
    i: int,
)
    requires
        0 <= i < rows.len(),
        !is_of(rows[i], scope, scope_id),
        failed(rows, threshold, scope, scope_id, now) is Ok,
    ensures
        failed(rows, threshold, scope, scope_id, now)->Ok_0.0[i] == rows[i],
{
    lemma_position(rows, scope, scope_id, 0);
}

// ---------------------------------------------------------------------------
// What each operation does to a circuit, in its fields
// ---------------------------------------------------------------------------

/// A failure counts: the first one makes a closed circuit with one failure, and
/// every other adds one and its time. It opens a closed circuit exactly when the
/// count reaches the threshold, and leaves an open or half-open one in its state.
pub proof fn law_a_failure_counts(
    rows: Seq<RowView>,
    threshold: u32,
    scope: Seq<char>,
    scope_id: Seq<char>,
    now: i64,
)
    requires
        failed(rows, threshold, scope, scope_id, now) is Ok,
        position(rows, scope, scope_id) matches Some(i) ==> rows[i].consecutive_failures < i64::MAX,
    ensures
        ({
            let after = failed(rows, threshold, scope, scope_id, now)->Ok_0.0;
            let record = failed(rows, threshold, scope, scope_id, now)->Ok_0.1;
            let known = position(rows, scope, scope_id);
            let i = match known {
                Some(i) => i,
                None => rows.len() as int,
            };
            let n: int = match known {
                Some(j) => rows[j].consecutive_failures + 1,
                None => 1,
            };
            let was = match known {
                Some(j) => rows[j].state,
                None => "closed"@,
            };
            let opens = was == "closed"@ && n >= threshold;
            &&& known is Some ==> after.len() == rows.len()
            &&& known is None ==> after.len() == rows.len() + 1
            &&& record.consecutive_failures == n
            &&& record.last_failure_at == Some(now)
            &&& record.scope == after[i].scope && record.scope_id == after[i].scope_id
            &&& known is None ==> after[i].scope == scope && after[i].scope_id == scope_id
            &&& after[i].consecutive_failures == n
            &&& after[i].last_failure_at == Some(now)
            &&& opens ==> after[i].state == "open"@ && after[i].opened_at == Some(now)
                && record.state == CircuitState::Open && record.opened_at == Some(now)
            &&& !opens ==> after[i].state == was
            &&& !opens && known is Some ==> after[i].opened_at == rows[i].opened_at
            &&& known is Some ==> after[i].last_probe_at == rows[i].last_probe_at
        }),
{
    lemma_position(rows, scope, scope_id, 0);
    law_labels_read_back(CircuitState::Closed, CircuitScope::Provider);
    law_labels_read_back(CircuitState::Open, CircuitScope::Provider);
}

/// Who is admitted, by the state of the circuit: everybody behind a closed one,
/// nobody behind an open one before its interval is over, and behind a half-open
/// one only where no probe has started. From the maximal age on, an open circuit
/// asks for attention.
pub proof fn law_admission_follows_the_state(
    row: RowView,
    open_interval: i64,
    max_degraded: i64,
    now: i64,
)
    requires
        0 <= row.consecutive_failures <= u32::MAX,
    ensures
        ({
            let r = row.admission(open_interval, max_degraded, now);
            let after = row.after_request(open_interval, max_degraded, now);
            &&& row.state == "closed"@ ==> r == AdmissionResult::Admitted && after == row
            &&& row.state == "open"@ && row.opened_at is Some ==> {
                let t = row.opened_at->0;
                &&& now >= t + max_degraded ==> r == AdmissionResult::MaxDegradedAgeExceeded
                    && after == row
                &&& now < t + max_degraded && now >= t + open_interval ==> r
                    == AdmissionResult::Admitted && after == (RowView {
                    state: "half_open"@,
                    last_probe_at: Some(now),
                    ..row
                })
                &&& now < t + max_degraded && now < t + open_interval ==> r is CircuitOpen
                    && !r->probe_in_flight && r->retry_after == (t + open_interval - now) as i64
                    && after == row
            }
            &&& row.state == "half_open"@ && row.last_probe_at is Some ==> r is CircuitOpen
                && r->probe_in_flight && after == row
            &&& row.state == "half_open"@ && row.last_probe_at is None ==> r
                == AdmissionResult::Admitted && after == (RowView {
                last_probe_at: Some(now),
                ..row
            })
            &&& row.state != "closed"@ && row.state != "open"@ && row.state != "half_open"@ ==> r
                == AdmissionResult::NoCircuit && after == row
        }),
{
    law_labels_read_back(CircuitState::Closed, CircuitScope::Provider);
    law_labels_read_back(CircuitState::Open, CircuitScope::Provider);
    law_labels_read_back(CircuitState::HalfOpen, CircuitScope::Provider);
}

/// The wait that is asked of a caller while a probe runs ends when the probe is
/// five seconds old, and is five seconds from then on.
pub proof fn law_a_probe_is_waited_for_in_fives(row: RowView, started: i64, now: i64)
    requires
        row.last_probe_at == Some(started),
        started <= now,
    ensures
        now - started < 5 ==> row.probe_wait(now) == 5 - (now - started),
        now - started >= 5 ==> row.probe_wait(now) == 5,
{
}

/// A probe that succeeds closes its circuit with a clean record; one that fails
/// opens it again from now on, and counts. No other circuit changes.
pub proof fn law_a_probe_result_is_on_record(
    rows: Seq<RowView>,
    scope: Seq<char>,
    scope_id: Seq<char>,
    success: bool,
    now: i64,
    i: int,
)
    requires
        0 <= i < rows.len(),
    ensures
        ({
            let after = probed(rows, scope, scope_id, success, now);
            let mine = position(rows, scope, scope_id) == Some(i);
            &&& after.len() == rows.len()
            &&& !mine ==> after[i] == rows[i]
            &&& mine && success ==> after[i] == (RowView {
                state: "closed"@,
                consecutive_failures: 0,
                last_failure_at: None,
                opened_at: None,
                last_probe_at: None,
                ..rows[i]
            })
            &&& mine && !success && rows[i].consecutive_failures < i64::MAX ==> after[i] == (
            RowView {
                state: "open"@,
                consecutive_failures: (rows[i].consecutive_failures + 1) as i64,
                last_failure_at: Some(now),
                opened_at: Some(now),
                ..rows[i]
            })
        }),
{
    lemma_position(rows, scope, scope_id, 0);
}

/// A circuit is found by both its scope and its name, and by nothing less.
pub proof fn law_a_circuit_is_found_by_scope_and_name(
    rows: Seq<RowView>,
    scope: Seq<char>,
    scope_id: Seq<char>,
)
    ensures
        match position(rows, scope, scope_id) {
            Some(i) => 0 <= i < rows.len() && rows[i].scope == scope && rows[i].scope_id == scope_id,
            None => forall|j: int|
                0 <= j < rows.len() ==> !((#[trigger] rows[j]).scope == scope && rows[j].scope_id
                    == scope_id),
        },
{
    lemma_position(rows, scope, scope_id, 0);
    if position(rows, scope, scope_id) is None {
        assert forall|j: int| 0 <= j < rows.len() implies !((#[trigger] rows[j]).scope == scope
            && rows[j].scope_id == scope_id) by {
            assert(!is_of(rows[j], scope, scope_id));
        }
    }
}

/// A circuit asks for attention exactly when it was opened at least the maximal
/// age ago.
pub proof fn law_old_circuits_ask_for_attention(row: RowView, max_degraded: i64, now: i64)
    ensures
        row.opened_at is None ==> !row.exhausted(max_degraded, now),
        row.opened_at matches Some(t) ==> (row.exhausted(max_degraded, now) <==> now - t
            >= max_degraded),
{
}

/// Every circuit that asks for attention is listed with its own figures.
pub proof fn law_every_old_circuit_is_listed(
    rows: Seq<RowView>,
    max_degraded: i64,
    now: i64,
    n: int,
    i: int,
)
    requires
        0 <= i < n <= rows.len(),
        exhausted_among(rows, max_degraded, now, n) is Ok,
        rows[i].opened_at is Some,
        now - rows[i].opened_at->0 >= max_degraded,
    ensures
        exhausted_among(rows, max_degraded, now, n)->Ok_0.contains(figures(rows[i])),
    decreases n,
{
    let before = exhausted_among(rows, max_degraded, now, n - 1)->Ok_0;
    let list = exhausted_among(rows, max_degraded, now, n)->Ok_0;
    if i < n - 1 {
        law_every_old_circuit_is_listed(rows, max_degraded, now, n - 1, i);
        let j = choose|j: int| 0 <= j < before.len() && before[j] == figures(rows[i]);
        assert(list[j] == figures(rows[i]));
    } else {
        assert(list[before.len() as int] == figures(rows[i]));
    }
}

/// What is listed is the figures of a circuit that asks for attention.
pub proof fn law_only_old_circuits_are_listed(
    rows: Seq<RowView>,
    max_degraded: i64,
    now: i64,
    n: int,
    j: int,
)
    requires
        0 <= n <= rows.len(),
        exhausted_among(rows, max_degraded, now, n) is Ok,
        0 <= j < exhausted_among(rows, max_degraded, now, n)->Ok_0.len(),
    ensures
        exists|i: int|
            0 <= i < n && (#[trigger] rows[i]).opened_at is Some && now - rows[i].opened_at->0
                >= max_degraded && exhausted_among(rows, max_degraded, now, n)->Ok_0[j] == figures(
                rows[i],
            ),
    decreases n,
{
    if n > 0 {
        let before = exhausted_among(rows, max_degraded, now, n - 1)->Ok_0;
        let list = exhausted_among(rows, max_degraded, now, n)->Ok_0;
        if j < before.len() {
            law_only_old_circuits_are_listed(rows, max_degraded, now, n - 1, j);
            assert(list[j] == before[j]);
        } else {
            assert(list[j] == figures(rows[n - 1]));
        }
    }
}

/// What is listed of a circuit.
pub open spec fn figures(row: RowView) -> ExhaustedView {
    ExhaustedView {
        scope: row.scope,
        scope_id: row.scope_id,
        consecutive_failures: row.consecutive_failures as u32,
        last_failure_at: row.last_failure_at,
        opened_at: row.opened_at,
    }
}

/// The delays are taken from the schedule in order, starting with the failure
/// that reaches the threshold; the last one repeats.
pub proof fn law_delays_follow_the_schedule(schedule: Seq<u64>, threshold: u32, failures: u32)
    requires
        schedule.len() > 0,
    ensures
        failures < threshold ==> scheduled_delay(schedule, threshold, failures) is None,
        failures >= threshold ==> scheduled_delay(schedule, threshold, failures) == Some(
            schedule[
                if failures - threshold <= schedule.len() - 1 {
                    failures - threshold
                } else {
                    schedule.len() - 1
                }
            ],
        ),
{
}

/// States and scopes have these labels.
pub proof fn law_circuits_have_their_words()
    ensures
        CircuitState::Closed.label() == "closed"@,
        CircuitState::Open.label() == "open"@,
        CircuitState::HalfOpen.label() == "half_open"@,
        CircuitScope::Provider.label() == "provider"@,
        CircuitScope::Repository.label() == "repository"@,
{
}

/// A circuit is looked up by scope and name; one that is not there is an error, and
/// one that is there is read as it is.
pub proof fn law_a_circuit_is_looked_up(
    rows: Seq<RowView>,
    scope: Seq<char>,
    scope_id: Seq<char>,
    i: int,
)
    ensures
        position(rows, scope, scope_id) is None ==> lookup(rows, scope, scope_id) == Err::<
            RecordView,
            Fault,
        >(Fault::Other("circuit read record: Query returned no rows"@)),
        position(rows, scope, scope_id) == Some(i) ==> (lookup(rows, scope, scope_id) is Ok <==> (
        rows[i].state == "closed"@ || rows[i].state == "open"@ || rows[i].state == "half_open"@)
            && 0 <= rows[i].consecutive_failures <= u32::MAX),
        position(rows, scope, scope_id) == Some(i) ==> (lookup(rows, scope, scope_id) matches Ok(r)
            ==> r.scope == rows[i].scope && r.scope_id == rows[i].scope_id && r.state.label()
            == rows[i].state && r.consecutive_failures == rows[i].consecutive_failures
            && r.last_failure_at == rows[i].last_failure_at && r.opened_at == rows[i].opened_at
            && r.last_probe_at == rows[i].last_probe_at),
{
}

/// What is said of a circuit that cannot be read.
pub proof fn law_an_unreadable_circuit_says_why(row: RowView, max_degraded: i64, now: i64)
    ensures
        row.state != "closed"@ && row.state != "open"@ && row.state != "half_open"@ ==> row.record()
            == Err::<RecordView, Fault>(
            Fault::Other("circuit read record: "@ + ("unknown circuit state: "@ + row.state)),
        ),
        row.state == "open"@ && !(0 <= row.consecutive_failures <= u32::MAX) ==> row.record()
            == Err::<RecordView, Fault>(
            Fault::Other(
                "circuit read record: "@ + ("Integer "@ + text::dec_int(
                    row.consecutive_failures as int,
                ) + " out of range at index "@ + "3"@),
            ),
        ),
        row.opened_at is Some && now - row.opened_at->0 >= max_degraded && !(0
            <= row.consecutive_failures <= u32::MAX) ==> exhausted_among(
            seq![row],
            max_degraded,
            now,
            1,
        ) == Err::<Seq<ExhaustedView>, Fault>(
            Fault::Other(
                "circuit exhausted row: "@ + ("Integer "@ + text::dec_int(
                    row.consecutive_failures as int,
                ) + " out of range at index "@ + "2"@),
            ),
        ),
{
    law_labels_read_back(CircuitState::Open, CircuitScope::Provider);
    assert(exhausted_among(seq![row], max_degraded, now, 0) is Ok);
}

/// A failure is on record for its circuit and for no other.
pub proof fn law_a_failure_is_of_its_circuit_alone(
    s: &mut CircuitStore,
    scope: &str,
    scope_id: &str,
    now: i64,
    r: Result<CircuitRecord, CaduceusError>,
    j: int,
)
    requires
        call_ensures(CircuitStore::record_failure, (s, scope, scope_id, now), r),
        0 <= j < old(s)@.len(),
        position(old(s)@, scope@, scope_id@) != Some(j),
    ensures
        final(s)@[j] == old(s)@[j],
        r is Ok ==> r->Ok_0@.last_failure_at == Some(now),
        r is Err ==> final(s)@ == old(s)@,
        final(s).config == old(s).config,
{
    lemma_position(old(s)@, scope@, scope_id@, 0);
}

/// Behind an open circuit nobody is admitted before its interval is over, and a
/// circuit that is not there admits without a word.
pub proof fn law_an_open_circuit_keeps_out(
    s: &mut CircuitStore,
    scope: &str,
    scope_id: &str,
    now: i64,
    r: AdmissionResult,
    i: int,
)
    requires
        call_ensures(CircuitStore::try_admit, (s, scope, scope_id, now), r),
        old(s).config.open_interval_seconds <= i64::MAX,
        old(s).config.max_degraded_seconds <= i64::MAX,
    ensures
        position(old(s)@, scope@, scope_id@) is None ==> r == AdmissionResult::NoCircuit && final(
            s)@ == old(s)@,
        position(old(s)@, scope@, scope_id@) == Some(i) && old(s)@[i].state == "closed"@ && 0
            <= old(s)@[i].consecutive_failures <= u32::MAX ==> r == AdmissionResult::Admitted,
        position(old(s)@, scope@, scope_id@) == Some(i) && old(s)@[i].state == "open"@ && 0
            <= old(s)@[i].consecutive_failures <= u32::MAX && old(s)@[i].opened_at is Some && now
            < old(s)@[i].opened_at->0 + old(s).config.open_interval_seconds ==> r
            != AdmissionResult::Admitted,
{
    if position(old(s)@, scope@, scope_id@) == Some(i) && 0 <= old(s)@[i].consecutive_failures
        <= u32::MAX {
        law_admission_follows_the_state(
            old(s)@[i],
            old(s).config.open_interval_seconds as i64,
            old(s).config.max_degraded_seconds as i64,
            now,
        );
    }
}

/// The configuration is taken over as it is.
pub proof fn law_circuits_are_configured(cfg: &Config, r: CircuitConfig)
    requires
        call_ensures(CircuitConfig::from_config, (cfg,), r),
    ensures
        r.failure_threshold == cfg.circuit_failure_threshold,
        r.backoff_seconds@ == cfg.circuit_backoff_seconds@,
        r.open_interval_seconds == cfg.circuit_open_interval_seconds,
        r.max_degraded_seconds == cfg.circuit_max_degraded_seconds,
{
}

} // verus!
