//! Container runs: one row per run, kept across a crash between the creation
//! of a container and its removal.

use vstd::prelude::*;

use crate::error::{CaduceusError, Fault};
use crate::text;
use crate::time;
use crate::time::Timestamp;

verus! {

/// How far the life of a container has come.
#[derive(Clone, Copy, Debug, PartialEq, Eq, Structural)]
pub enum OciLifecycleState {
    Created,
    Running,
    /// Ended with an exit code.
    Exited(i32),
    Stopped,
    Killed,
    Removed,
    /// The engine was not available; what became of the container is open.
    PendingReconciliation,
}

/// The exit code that a label of an ended container holds.
pub open spec fn exit_code(s: Seq<char>) -> Option<i32> {
    if "Exited("@.is_prefix_of(s) && s.len() > 7 && s.last() == ')' {
        match text::signed_number(s.subrange(7, s.len() - 1)) {
            Some(n) if i32::MIN <= n <= i32::MAX => Some(n as i32),
            _ => None,
        }
    } else {
        None
    }
}

impl OciLifecycleState {
    /// The label under which the store keeps the state.
    pub open spec fn label(self) -> Seq<char> {
        match self {
            OciLifecycleState::Created => "Created"@,
            OciLifecycleState::Running => "Running"@,
            OciLifecycleState::Exited(code) => "Exited("@ + text::dec_int(code as int) + ")"@,
            OciLifecycleState::Stopped => "Stopped"@,
            OciLifecycleState::Killed => "Killed"@,
            OciLifecycleState::Removed => "Removed"@,
            OciLifecycleState::PendingReconciliation => "PendingReconciliation"@,
        }
    }

    /// The state with the label.
    pub open spec fn labelled(s: Seq<char>) -> Option<OciLifecycleState> {
        if s == "Created"@ {
            Some(OciLifecycleState::Created)
        } else if s == "Running"@ {
            Some(OciLifecycleState::Running)
        } else if s == "Stopped"@ {
            Some(OciLifecycleState::Stopped)
        } else if s == "Killed"@ {
            Some(OciLifecycleState::Killed)
        } else if s == "Removed"@ {
            Some(OciLifecycleState::Removed)
        } else if s == "PendingReconciliation"@ {
            Some(OciLifecycleState::PendingReconciliation)
        } else {
            match exit_code(s) {
                Some(code) => Some(OciLifecycleState::Exited(code)),
                None => None,
            }
        }
    }

    /// Nothing is left to be done for the container. A container whose fate is
    /// open is not there yet.
    pub open spec fn terminal(self) -> bool {
        match self {
            OciLifecycleState::Exited(_) => true,
            OciLifecycleState::Stopped => true,
            OciLifecycleState::Killed => true,
            OciLifecycleState::Removed => true,
            _ => false,
        }
    }

    /// Is nothing left to be done for the container?
    pub fn is_terminal(&self) -> (r: bool)
        ensures
            r == self.terminal(),
    {
        match self {
            OciLifecycleState::Exited(_) => true,
            OciLifecycleState::Stopped => true,
            OciLifecycleState::Killed => true,
            OciLifecycleState::Removed => true,
            _ => false,
        }
    }

    /// The label under which the store keeps the state.
    pub fn to_label(&self) -> (r: String)
        ensures
            r@ == self.label(),
    {
        match self {
            OciLifecycleState::Created => "Created".to_owned(),
            OciLifecycleState::Running => "Running".to_owned(),
            OciLifecycleState::Exited(code) => {
                let mut s = text::cat("Exited(", text::decimal_signed(*code as i64).as_str());
                s.append(")");
                s
            },
            OciLifecycleState::Stopped => "Stopped".to_owned(),
            OciLifecycleState::Killed => "Killed".to_owned(),
            OciLifecycleState::Removed => "Removed".to_owned(),
            OciLifecycleState::PendingReconciliation => "PendingReconciliation".to_owned(),
        }
    }

    /// The state with the label.
    pub fn from_label(s: &str) -> (r: Result<OciLifecycleState, CaduceusError>)
        ensures
            match r {
                Ok(state) => Self::labelled(s@) == Some(state),
                Err(e) => Self::labelled(s@) is None && e@ == Fault::Other(
                    "invalid OciLifecycleState: "@ + text::quote(s@),
                ),
            },
    {
        if text::same(s, "Created") {
            return Ok(OciLifecycleState::Created);
        }
        if text::same(s, "Running") {
            return Ok(OciLifecycleState::Running);
        }
        if text::same(s, "Stopped") {
            return Ok(OciLifecycleState::Stopped);
        }
        if text::same(s, "Killed") {
            return Ok(OciLifecycleState::Killed);
        }
        if text::same(s, "Removed") {
            return Ok(OciLifecycleState::Removed);
        }
        if text::same(s, "PendingReconciliation") {
            return Ok(OciLifecycleState::PendingReconciliation);
        }
        proof {
            reveal_strlit("Exited(");
            assert("Exited("@.len() == 7);
        }
        if text::begins(s, "Exited(") {
            let chars = text::chars_of(s);
            let n = chars.len();
            if n > 7 && chars[n - 1] == ')' {
                let code = text::text_of(&chars, 7, n - 1);
                match text::parse_i32(code.as_str()) {
                    Some(c) => {
                        return Ok(OciLifecycleState::Exited(c));
                    },
                    None => {},
                }
            }
        }
        Err(
            CaduceusError::Other(
                text::cat("invalid OciLifecycleState: ", text::quoted(s).as_str()),
            ),
        )
    }
}

/// Reading the label of a state gives the state back.
pub proof fn law_lifecycle_labels_read_back(state: OciLifecycleState)
    ensures
        OciLifecycleState::labelled(state.label()) == Some(state),
{
    reveal_strlit("Created");
    reveal_strlit("Running");
    reveal_strlit("Stopped");
    reveal_strlit("Killed");
    reveal_strlit("Removed");
    reveal_strlit("PendingReconciliation");
    reveal_strlit("Exited(");
    reveal_strlit(")");
    assert("Created"@.len() == 7 && "Created"@[0] == 'C');
    assert("Running"@.len() == 7 && "Running"@[0] == 'R' && "Running"@[1] == 'u');
    assert("Stopped"@.len() == 7 && "Stopped"@[0] == 'S');
    assert("Killed"@.len() == 6 && "Killed"@[0] == 'K');
    assert("Removed"@.len() == 7 && "Removed"@[0] == 'R' && "Removed"@[1] == 'e');
    assert("PendingReconciliation"@.len() == 21 && "PendingReconciliation"@[0] == 'P');
    assert("Exited("@.len() == 7 && "Exited("@[0] == 'E');
    match state {
        OciLifecycleState::Exited(code) => {
            let d = text::dec_int(code as int);
            let l = state.label();
            assert(l[0] == "Exited("@[0]);
            assert("Exited("@ =~= l.subrange(0, 7));
            assert(l.subrange(7, l.len() - 1) =~= d);
            assert(l.last() == ')');
            text::lemma_signed_number_of_dec(code as int);
        },
        _ => {},
    }
}

// ---------------------------------------------------------------------------
// Rows
// ---------------------------------------------------------------------------

/// One container run.
#[derive(Debug)]
pub struct ContainerRunRow {
    pub run_id: String,
    pub container_id: Option<String>,
    pub state: OciLifecycleState,
    pub engine: String,
    pub created_at: String,
    pub updated_at: String,
    pub daemon_id: String,
    pub issue_id: String,
    pub worker_command_sha256: String,
}

/// A [`ContainerRunRow`] with its texts as character sequences.
pub struct RunView {
    pub run_id: Seq<char>,
    pub container_id: Option<Seq<char>>,
    pub state: OciLifecycleState,
    pub engine: Seq<char>,
    pub created_at: Seq<char>,
    pub updated_at: Seq<char>,
    pub daemon_id: Seq<char>,
    pub issue_id: Seq<char>,
    pub worker_command_sha256: Seq<char>,
}

impl View for ContainerRunRow {
    type V = RunView;

    open spec fn view(&self) -> RunView {
        RunView {
            run_id: self.run_id@,
            container_id: text::opt(self.container_id),
            state: self.state,
            engine: self.engine@,
            created_at: self.created_at@,
            updated_at: self.updated_at@,
            daemon_id: self.daemon_id@,
            issue_id: self.issue_id@,
            worker_command_sha256: self.worker_command_sha256@,
        }
    }
}

/// A row of the table, as it is stored: the state is a label.
#[derive(Debug)]
pub struct StoredRun {
    pub run_id: String,
    pub container_id: Option<String>,
    pub state: String,
    pub engine: String,
    pub created_at: String,
    pub updated_at: String,
    pub daemon_id: String,
    pub issue_id: String,
    pub worker_command_sha256: String,
}

/// A [`StoredRun`] with its texts as character sequences.
pub struct StoredView {
    pub run_id: Seq<char>,
    pub container_id: Option<Seq<char>>,
    pub state: Seq<char>,
    pub engine: Seq<char>,
    pub created_at: Seq<char>,
    pub updated_at: Seq<char>,
    pub daemon_id: Seq<char>,
    pub issue_id: Seq<char>,
    pub worker_command_sha256: Seq<char>,
}

impl View for StoredRun {
    type V = StoredView;

    open spec fn view(&self) -> StoredView {
        StoredView {
            run_id: self.run_id@,
            container_id: text::opt(self.container_id),
            state: self.state@,
            engine: self.engine@,
            created_at: self.created_at@,
            updated_at: self.updated_at@,
            daemon_id: self.daemon_id@,
            issue_id: self.issue_id@,
            worker_command_sha256: self.worker_command_sha256@,
        }
    }
}

impl Clone for StoredRun {
    fn clone(&self) -> (r: Self)
        ensures
            r == *self,
    {
        StoredRun {
            run_id: self.run_id.clone(),
            container_id: self.container_id.clone(),
            state: self.state.clone(),
            engine: self.engine.clone(),
            created_at: self.created_at.clone(),
            updated_at: self.updated_at.clone(),
            daemon_id: self.daemon_id.clone(),
            issue_id: self.issue_id.clone(),
            worker_command_sha256: self.worker_command_sha256.clone(),
        }
    }
}

impl StoredView {
    /// The run with its state.
    pub open spec fn typed(self, state: OciLifecycleState) -> RunView {
        RunView {
            run_id: self.run_id,
            container_id: self.container_id,
            state,
            engine: self.engine,
            created_at: self.created_at,
            updated_at: self.updated_at,
            daemon_id: self.daemon_id,
            issue_id: self.issue_id,
            worker_command_sha256: self.worker_command_sha256,
        }
    }

    /// The run; one with an unknown state counts as removed.
    pub open spec fn lenient(self) -> RunView {
        match OciLifecycleState::labelled(self.state) {
            Some(s) => self.typed(s),
            None => self.typed(OciLifecycleState::Removed),
        }
    }

    /// The run, or the error of an operation that does not take an unknown
    /// state.
    pub open spec fn strict(self, context: Seq<char>) -> Result<RunView, Fault> {
        match OciLifecycleState::labelled(self.state) {
            Some(s) => Ok(self.typed(s)),
            None => Err(
                Fault::StateCorrupt {
                    path: ":memory:"@,
                    message: context + " row: Query is not read-only"@,
                },
            ),
        }
    }
}

impl RunView {
    /// The row that stores the run.
    pub open spec fn stored(self) -> StoredView {
        StoredView {
            run_id: self.run_id,
            container_id: self.container_id,
            state: self.state.label(),
            engine: self.engine,
            created_at: self.created_at,
            updated_at: self.updated_at,
            daemon_id: self.daemon_id,
            issue_id: self.issue_id,
            worker_command_sha256: self.worker_command_sha256,
        }
    }
}

fn typed_run(row: &StoredRun, state: OciLifecycleState) -> (r: ContainerRunRow)
    ensures
        r@ == row@.typed(state),
{
    ContainerRunRow {
        run_id: row.run_id.clone(),
        container_id: row.container_id.clone(),
        state,
        engine: row.engine.clone(),
        created_at: row.created_at.clone(),
        updated_at: row.updated_at.clone(),
        daemon_id: row.daemon_id.clone(),
        issue_id: row.issue_id.clone(),
        worker_command_sha256: row.worker_command_sha256.clone(),
    }
}

fn lenient_run(row: &StoredRun) -> (r: ContainerRunRow)
    ensures
        r@ == row@.lenient(),
{
    match OciLifecycleState::from_label(row.state.as_str()) {
        Ok(s) => typed_run(row, s),
        Err(_) => typed_run(row, OciLifecycleState::Removed),
    }
}

fn strict_run(row: &StoredRun, context: &str) -> (r: Result<ContainerRunRow, CaduceusError>)
    ensures
        crate::error::seen(r) == row@.strict(context@),
{
    match OciLifecycleState::from_label(row.state.as_str()) {
        Ok(s) => Ok(typed_run(row, s)),
        Err(_) => Err(
            crate::error::corrupt(":memory:", text::cat(context, " row: Query is not read-only")),
        ),
    }
}

// ---------------------------------------------------------------------------
// The table
// ---------------------------------------------------------------------------

/// The rows by their views.
pub open spec fn stored_views(rows: Seq<StoredRun>) -> Seq<StoredView> {
    rows.map_values(|r: StoredRun| r@)
}

/// The runs by their views.
pub open spec fn run_views(rows: Seq<ContainerRunRow>) -> Seq<RunView> {
    rows.map_values(|r: ContainerRunRow| r@)
}

/// Position of the row of a run, at or after `i`.
pub open spec fn position_from(rows: Seq<StoredView>, run_id: Seq<char>, i: int) -> Option<int>
    decreases rows.len() - i,
{
    if i < 0 || i >= rows.len() {
        None
    } else if rows[i].run_id == run_id {
        Some(i)
    } else {
        position_from(rows, run_id, i + 1)
    }
}

/// Position of the row of a run.
pub open spec fn position(rows: Seq<StoredView>, run_id: Seq<char>) -> Option<int> {
    position_from(rows, run_id, 0)
}

proof fn lemma_position(rows: Seq<StoredView>, run_id: Seq<char>, i: int)
    requires
        0 <= i <= rows.len(),
    ensures
        match position_from(rows, run_id, i) {
            Some(p) => i <= p < rows.len() && rows[p].run_id == run_id,
            None => forall|j: int| i <= j < rows.len() ==> (#[trigger] rows[j]).run_id != run_id,
        },
    decreases rows.len() - i,
{
    if i < rows.len() && rows[i].run_id != run_id {
        lemma_position(rows, run_id, i + 1);
    }
}

/// No run has two rows.
pub open spec fn unique(rows: Seq<StoredView>) -> bool {
    forall|i: int, j: int|
        0 <= i < j < rows.len() ==> (#[trigger] rows[i]).run_id != (#[trigger] rows[j]).run_id
}

/// The rows once a run is inserted, or why it is refused.
pub open spec fn inserted(rows: Seq<StoredView>, run: RunView) -> Result<Seq<StoredView>, Fault> {
    if position(rows, run.run_id) is Some {
        Err(
            Fault::StateCorrupt {
                path: ":memory:"@,
                message: "oci_run insert: UNIQUE constraint failed: oci_runs.run_id"@,
            },
        )
    } else {
        Ok(rows.push(run.stored()))
    }
}

/// The rows once the state of a run is updated. A run that is not there is not
/// made.
pub open spec fn state_updated(
    rows: Seq<StoredView>,
    run_id: Seq<char>,
    state: OciLifecycleState,
    now: Timestamp,
) -> Seq<StoredView> {
    match position(rows, run_id) {
        Some(i) => rows.update(
            i,
            StoredView {
                state: state.label(),
                updated_at: time::rfc3339_text(now),
                ..rows[i]
            },
        ),
        None => rows,
    }
}

/// The rows once a run has its container.
pub open spec fn container_updated(
    rows: Seq<StoredView>,
    run_id: Seq<char>,
    container_id: Seq<char>,
    now: Timestamp,
) -> Seq<StoredView> {
    match position(rows, run_id) {
        Some(i) => rows.update(
            i,
            StoredView {
                container_id: Some(container_id),
                updated_at: time::rfc3339_text(now),
                ..rows[i]
            },
        ),
        None => rows,
    }
}

/// The first run with the container at or after `i`, if it can be read.
pub open spec fn by_container(rows: Seq<StoredView>, container_id: Seq<char>, i: int) -> Result<
    Option<RunView>,
    Fault,
>
    decreases rows.len() - i,
{
    if i < 0 || i >= rows.len() {
        Ok(None)
    } else if rows[i].container_id == Some(container_id) {
        match rows[i].strict("oci_run get_by_container_id"@) {
            Ok(r) => Ok(Some(r)),
            Err(f) => Err(f),
        }
    } else {
        by_container(rows, container_id, i + 1)
    }
}

/// The runs of an installation among the first `n`, if all can be read.
pub open spec fn by_daemon(rows: Seq<StoredView>, daemon_id: Seq<char>, n: int) -> Result<
    Seq<RunView>,
    Fault,
>
    decreases n,
{
    if n <= 0 {
        Ok(Seq::empty())
    } else {
        match by_daemon(rows, daemon_id, n - 1) {
            Err(f) => Err(f),
            Ok(s) => if rows[n - 1].daemon_id != daemon_id {
                Ok(s)
            } else {
                match rows[n - 1].strict("oci_run list_by_daemon_id"@) {
                    Ok(r) => Ok(s.push(r)),
                    Err(f) => Err(f),
                }
            },
        }
    }
}

proof fn lemma_by_daemon_fault_stays(rows: Seq<StoredView>, daemon_id: Seq<char>, n: int, m: int)
    requires
        n <= m,
        by_daemon(rows, daemon_id, n) is Err,
    ensures
        by_daemon(rows, daemon_id, m) == by_daemon(rows, daemon_id, n),
    decreases m - n,
{
    if n < m {
        lemma_by_daemon_fault_stays(rows, daemon_id, n, m - 1);
    }
}

/// The runs among the first `n` whose fate is open.
pub open spec fn pending(rows: Seq<StoredView>, n: int) -> Seq<RunView>
    decreases n,
{
    if n <= 0 {
        Seq::empty()
    } else if rows[n - 1].state == OciLifecycleState::PendingReconciliation.label() {
        pending(rows, n - 1).push(rows[n - 1].lenient())
    } else {
        pending(rows, n - 1)
    }
}

/// The rows without a run.
pub open spec fn deleted(rows: Seq<StoredView>, run_id: Seq<char>) -> Seq<StoredView> {
    match position(rows, run_id) {
        Some(i) => rows.remove(i),
        None => rows,
    }
}

/// What the lifecycle of containers needs of its table.
pub trait OciRunState {
    /// The rows of the table.
    spec fn runs(&self) -> Seq<StoredView>;

    /// No run has two rows.
    spec fn sound(&self) -> bool;

    /// Insert a run.
    fn insert(&mut self, row: &ContainerRunRow) -> (r: Result<(), CaduceusError>)
        requires
            old(self).sound(),
        ensures
            final(self).sound(),
            match inserted(old(self).runs(), row@) {
                Ok(rows) => r is Ok && final(self).runs() == rows,
                Err(f) => (r matches Err(e) && e@ == f) && final(self).runs() == old(self).runs(),
            },
    ;

    /// Update the state of a run.
    fn update_state(&mut self, run_id: &str, state: &OciLifecycleState, now: Timestamp)
        requires
            old(self).sound(),
            now.valid(),
        ensures
            final(self).sound(),
            final(self).runs() == state_updated(old(self).runs(), run_id@, *state, now),
    ;

    /// Attach the container to a run, before it starts. A table that keeps no
    /// containers leaves its rows alone.
    fn update_container_id(&mut self, run_id: &str, container_id: &str, now: Timestamp)
        requires
            old(self).sound(),
            now.valid(),
        ensures
            final(self).sound(),
        default_ensures
            final(self).runs() == old(self).runs(),
    {
    }

    /// The run of a container; a table that keeps no containers knows none.
    fn get_by_container_id(&self, container_id: &str) -> (r: Result<
        Option<ContainerRunRow>,
        CaduceusError,
    >)
        default_ensures
            r == Ok::<Option<ContainerRunRow>, CaduceusError>(None),
    {
        Ok(None)
    }

    /// The runs of an installation; a table that keeps no installations knows
    /// none.
    fn list_by_daemon_id(&self, daemon_id: &str) -> (r: Result<Vec<ContainerRunRow>, CaduceusError>)
        default_ensures
            r matches Ok(v) && v@.len() == 0,
    {
        Ok(Vec::new())
    }

    /// The runs whose fate is open.
    fn list_pending_reconciliation(&self) -> (r: Vec<ContainerRunRow>)
        ensures
            run_views(r@) == pending(self.runs(), self.runs().len() as int),
    ;

    /// A run.
    fn get(&self, run_id: &str) -> (r: Option<ContainerRunRow>)
        ensures
            match r {
                Some(row) => position(self.runs(), run_id@) matches Some(i) && row@
                    == self.runs()[i].lenient(),
                None => position(self.runs(), run_id@) is None,
            },
    ;

    /// Remove a run.
    fn delete(&mut self, run_id: &str)
        requires
            old(self).sound(),
        ensures
            final(self).sound(),
            final(self).runs() == deleted(old(self).runs(), run_id@),
    ;
}

/// The table of container runs.
#[derive(Debug)]
pub struct OciRunDao {
    pub rows: Vec<StoredRun>,
}

impl OciRunDao {
    /// The table over its rows.
    pub fn new(rows: Vec<StoredRun>) -> (r: OciRunDao)
        ensures
            r.rows == rows,
    {
        OciRunDao { rows }
    }

    fn find(&self, run_id: &str) -> (r: Option<usize>)
        ensures
            match r {
                Some(i) => i < self.rows.len() && position(stored_views(self.rows@), run_id@)
                    == Some(i as int),
                None => position(stored_views(self.rows@), run_id@) is None,
            },
    {
        let ghost rows = stored_views(self.rows@);
        let mut i: usize = 0;
        while i < self.rows.len()
            invariant
                rows == stored_views(self.rows@),
                i <= self.rows.len(),
                position(rows, run_id@) == position_from(rows, run_id@, i as int),
            decreases self.rows.len() - i,
        {
            proof {
                assert(rows[i as int] == self.rows@[i as int]@);
            }
            if text::same(self.rows[i].run_id.as_str(), run_id) {
                return Some(i);
            }
            i += 1;
        }
        None
    }
}

impl OciRunState for OciRunDao {
    open spec fn runs(&self) -> Seq<StoredView> {
        stored_views(self.rows@)
    }

    open spec fn sound(&self) -> bool {
        unique(stored_views(self.rows@))
    }

    fn insert(&mut self, row: &ContainerRunRow) -> (r: Result<(), CaduceusError>) {
        let ghost before = self.runs();
        match self.find(row.run_id.as_str()) {
            Some(_) => Err(
                crate::error::corrupt(
                    ":memory:",
                    "oci_run insert: UNIQUE constraint failed: oci_runs.run_id".to_owned(),
                ),
            ),
            None => {
                let stored = StoredRun {
                    run_id: row.run_id.clone(),
                    container_id: row.container_id.clone(),
                    state: row.state.to_label(),
                    engine: row.engine.clone(),
                    created_at: row.created_at.clone(),
                    updated_at: row.updated_at.clone(),
                    daemon_id: row.daemon_id.clone(),
                    issue_id: row.issue_id.clone(),
                    worker_command_sha256: row.worker_command_sha256.clone(),
                };
                self.rows.push(stored);
                proof {
                    lemma_position(before, row@.run_id, 0);
                    assert(self.runs() =~= before.push(row@.stored()));
                }
                Ok(())
            },
        }
    }

    fn update_state(&mut self, run_id: &str, state: &OciLifecycleState, now: Timestamp) {
        let ghost before = self.runs();
        let at = time::format_rfc3339(now);
        match self.find(run_id) {
            Some(i) => {
                let mut row = self.rows[i].clone();
                row.state = state.to_label();
                row.updated_at = at;
                self.rows.set(i, row);
                proof {
                    lemma_position(before, run_id@, 0);
                    assert(self.runs() =~= before.update(i as int, row@));
                }
            },
            None => {},
        }
    }

    fn update_container_id(&mut self, run_id: &str, container_id: &str, now: Timestamp)
        ensures
            final(self).runs() == container_updated(
                old(self).runs(),
                run_id@,
                container_id@,
                now,
            ),
    {
        let ghost before = self.runs();
        let at = time::format_rfc3339(now);
        match self.find(run_id) {
            Some(i) => {
                let mut row = self.rows[i].clone();
                row.container_id = Some(container_id.to_owned());
                row.updated_at = at;
                self.rows.set(i, row);
                proof {
                    lemma_position(before, run_id@, 0);
                    assert(self.runs() =~= before.update(i as int, row@));
                }
            },
            None => {},
        }
    }

    fn get_by_container_id(&self, container_id: &str) -> (r: Result<
        Option<ContainerRunRow>,
        CaduceusError,
    >)
        ensures
            match r {
                Ok(Some(row)) => by_container(self.runs(), container_id@, 0) == Ok::<
                    Option<RunView>,
                    Fault,
                >(Some(row@)),
                Ok(None) => by_container(self.runs(), container_id@, 0) == Ok::<
                    Option<RunView>,
                    Fault,
                >(None),
                Err(e) => by_container(self.runs(), container_id@, 0) == Err::<
                    Option<RunView>,
                    Fault,
                >(e@),
            },
    {
        let mut i: usize = 0;
        while i < self.rows.len()
            invariant
                i <= self.rows.len(),
                by_container(self.runs(), container_id@, 0) == by_container(
                    self.runs(),
                    container_id@,
                    i as int,
                ),
            decreases self.rows.len() - i,
        {
            proof {
                assert(self.runs()[i as int] == self.rows@[i as int]@);
            }
            if text::opt_is(&self.rows[i].container_id, container_id) {
                return match strict_run(&self.rows[i], "oci_run get_by_container_id") {
                    Ok(row) => Ok(Some(row)),
                    Err(e) => Err(e),
                };
            }
            i += 1;
        }
        Ok(None)
    }

    fn list_by_daemon_id(&self, daemon_id: &str) -> (r: Result<Vec<ContainerRunRow>, CaduceusError>)
        ensures
            match r {
                Ok(v) => by_daemon(self.runs(), daemon_id@, self.runs().len() as int) == Ok::<
                    Seq<RunView>,
                    Fault,
                >(run_views(v@)),
                Err(e) => by_daemon(self.runs(), daemon_id@, self.runs().len() as int) == Err::<
                    Seq<RunView>,
                    Fault,
                >(e@),
            },
    {
        let mut out: Vec<ContainerRunRow> = Vec::new();
        let mut i: usize = 0;
        proof {
            assert(run_views(out@) =~= Seq::<RunView>::empty());
        }
        while i < self.rows.len()
            invariant
                i <= self.rows.len(),
                by_daemon(self.runs(), daemon_id@, i as int) == Ok::<Seq<RunView>, Fault>(
                    run_views(out@),
                ),
            decreases self.rows.len() - i,
        {
            proof {
                assert(self.runs()[i as int] == self.rows@[i as int]@);
            }
            if text::same(self.rows[i].daemon_id.as_str(), daemon_id) {
                match strict_run(&self.rows[i], "oci_run list_by_daemon_id") {
                    Ok(row) => {
                        let ghost before = out@;
                        out.push(row);
                        proof {
                            assert(run_views(out@) =~= run_views(before).push(row@));
                        }
                    },
                    Err(e) => {
                        proof {
                            lemma_by_daemon_fault_stays(
                                self.runs(),
                                daemon_id@,
                                i + 1,
                                self.runs().len() as int,
                            );
                        }
                        return Err(e);
                    },
                }
            }
            i += 1;
        }
        Ok(out)
    }

    fn list_pending_reconciliation(&self) -> (r: Vec<ContainerRunRow>) {
        let mut out: Vec<ContainerRunRow> = Vec::new();
        let mut i: usize = 0;
        proof {
            assert(run_views(out@) =~= Seq::<RunView>::empty());
        }
        while i < self.rows.len()
            invariant
                i <= self.rows.len(),
                run_views(out@) == pending(self.runs(), i as int),
            decreases self.rows.len() - i,
        {
            proof {
                assert(self.runs()[i as int] == self.rows@[i as int]@);
            }
            if text::same(self.rows[i].state.as_str(), "PendingReconciliation") {
                let ghost before = out@;
                let row = lenient_run(&self.rows[i]);
                out.push(row);
                proof {
                    assert(run_views(out@) =~= run_views(before).push(row@));
                }
            }
            i += 1;
        }
        out
    }

    fn get(&self, run_id: &str) -> (r: Option<ContainerRunRow>) {
        match self.find(run_id) {
            Some(i) => Some(lenient_run(&self.rows[i])),
            None => None,
        }
    }

    fn delete(&mut self, run_id: &str) {
        let ghost before = self.runs();
        match self.find(run_id) {
            Some(i) => {
                let _ = self.rows.remove(i);
                proof {
                    assert(self.runs() =~= before.remove(i as int));
                }
            },
            None => {},
        }
    }
}

/// A run that was inserted is found, as it was inserted.
pub proof fn law_an_inserted_run_is_found(rows: Seq<StoredView>, run: RunView)
    requires
        inserted(rows, run) is Ok,
    ensures
        ({
            let after = inserted(rows, run)->Ok_0;
            position(after, run.run_id) matches Some(i) && after[i].lenient() == run
        }),
{
    let after = inserted(rows, run)->Ok_0;
    lemma_position(rows, run.run_id, 0);
    lemma_position(after, run.run_id, 0);
    law_lifecycle_labels_read_back(run.state);
    if position(after, run.run_id) is None {
        assert(after[rows.len() as int].run_id == run.run_id);
    } else {
        let i = position(after, run.run_id)->0;
        if i < rows.len() {
            assert(after[i] == rows[i]);
        }
    }
}

/// A run whose fate is left open is on the list to be reconciled, and no
/// terminal run is.
pub proof fn law_open_fates_are_listed(rows: Seq<StoredView>, n: int, run: RunView)
    requires
        0 <= n <= rows.len(),
    ensures
        pending(rows, n).contains(run) ==> run.state == OciLifecycleState::PendingReconciliation,
        forall|i: int|
            0 <= i < n && (#[trigger] rows[i]).state
                == OciLifecycleState::PendingReconciliation.label() ==> pending(rows, n).contains(
                rows[i].lenient(),
            ),
    decreases n,
{
    if n > 0 {
        law_open_fates_are_listed(rows, n - 1, run);
        law_lifecycle_labels_read_back(OciLifecycleState::PendingReconciliation);
        let rest = pending(rows, n - 1);
        let all = pending(rows, n);
        assert forall|x: RunView| rest.contains(x) implies all.contains(x) by {
            let c = choose|c: int| 0 <= c < rest.len() && rest[c] == x;
            assert(all[c] == x);
        }
        if rows[n - 1].state == OciLifecycleState::PendingReconciliation.label() {
            assert(all[rest.len() as int] == rows[n - 1].lenient());
            if all.contains(run) && !rest.contains(run) {
                let c = choose|c: int| 0 <= c < all.len() && all[c] == run;
                assert(c == rest.len() as int) by {
                    if c < rest.len() {
                        assert(rest[c] == run);
                    }
                }
            }
        }
    }
}

/// The states of a container by their words; an exit carries its code.
pub proof fn law_lifecycle_states_have_their_words(code: i32)
    ensures
        OciLifecycleState::Created.label() == "Created"@,
        OciLifecycleState::Running.label() == "Running"@,
        OciLifecycleState::Exited(code).label() == "Exited("@ + text::dec_int(code as int) + ")"@,
        OciLifecycleState::Stopped.label() == "Stopped"@,
        OciLifecycleState::Killed.label() == "Killed"@,
        OciLifecycleState::Removed.label() == "Removed"@,
        OciLifecycleState::PendingReconciliation.label() == "PendingReconciliation"@,
{
}

/// A container has ended when it exited, was stopped, killed or removed.
pub proof fn law_these_states_are_final(s: OciLifecycleState)
    ensures
        s.terminal() <==> s is Exited || s is Stopped || s is Killed || s is Removed,
{
}

/// A row keeps the run as it is, column by column.
pub proof fn law_a_run_is_stored_as_it_is(run: RunView, context: Seq<char>)
    ensures
        ({
            let s = run.stored();
            &&& s.run_id == run.run_id
            &&& s.container_id == run.container_id
            &&& s.state == run.state.label()
            &&& s.engine == run.engine
            &&& s.created_at == run.created_at
            &&& s.updated_at == run.updated_at
            &&& s.daemon_id == run.daemon_id
            &&& s.issue_id == run.issue_id
            &&& s.worker_command_sha256 == run.worker_command_sha256
            &&& s.lenient() == run
            &&& s.strict(context) == Ok::<RunView, Fault>(run)
        }),
{
    law_lifecycle_labels_read_back(run.state);
}

/// A row with an unknown state is a removed run where reading is lenient, and an
/// error where it is strict.
pub proof fn law_an_unknown_state_is_no_run(s: StoredView, context: Seq<char>)
    requires
        OciLifecycleState::labelled(s.state) is None,
    ensures
        s.lenient().state == OciLifecycleState::Removed,
        s.lenient().run_id == s.run_id,
        s.strict(context) is Err,
        s.strict(context)->Err_0 is StateCorrupt,
{
}

proof fn lemma_run_position(rows: Seq<StoredView>, run_id: Seq<char>, i: int)
    requires
        0 <= i,
    ensures
        match position_from(rows, run_id, i) {
            Some(p) => i <= p < rows.len() && rows[p].run_id == run_id && forall|j: int|
                i <= j < p ==> (#[trigger] rows[j]).run_id != run_id,
            None => forall|j: int| i <= j < rows.len() ==> (#[trigger] rows[j]).run_id != run_id,
        },
    decreases rows.len() - i,
{
    if i < rows.len() && rows[i].run_id != run_id {
        lemma_run_position(rows, run_id, i + 1);
    }
}

/// A run is found by its name. It is inserted exactly when no run has its name, at
/// the end, and the others stay.
pub proof fn law_a_run_is_inserted_once(rows: Seq<StoredView>, run: RunView)
    ensures
        inserted(rows, run) is Ok <==> forall|i: int|
            0 <= i < rows.len() ==> (#[trigger] rows[i]).run_id != run.run_id,
        inserted(rows, run) matches Ok(after) ==> after == rows.push(run.stored()),
{
    lemma_run_position(rows, run.run_id, 0);
}

/// An update changes the row of its run alone: the state or the container, and the
/// time.
pub proof fn law_an_update_is_of_its_run_alone(
    rows: Seq<StoredView>,
    run_id: Seq<char>,
    state: OciLifecycleState,
    container_id: Seq<char>,
    now: Timestamp,
    i: int,
)
    requires
        unique(rows),
        0 <= i < rows.len(),
    ensures
        ({
            let s = state_updated(rows, run_id, state, now);
            let c = container_updated(rows, run_id, container_id, now);
            &&& s.len() == rows.len() && c.len() == rows.len()
            &&& rows[i].run_id != run_id ==> s[i] == rows[i] && c[i] == rows[i]
            &&& rows[i].run_id == run_id ==> s[i] == (StoredView {
                state: state.label(),
                updated_at: time::rfc3339_text(now),
                ..rows[i]
            })
            &&& rows[i].run_id == run_id ==> c[i] == (StoredView {
                container_id: Some(container_id),
                updated_at: time::rfc3339_text(now),
                ..rows[i]
            })
        }),
{
    lemma_run_position(rows, run_id, 0);
    match position(rows, run_id) {
        Some(p) => {
            if p != i && rows[i].run_id == run_id {
                assert(p < i);
                assert(rows[p].run_id != rows[i].run_id);
            }
        },
        None => {},
    }
}

/// A deletion takes the row of its run, and no other.
pub proof fn law_a_deletion_is_of_its_run_alone(rows: Seq<StoredView>, run_id: Seq<char>)
    requires
        unique(rows),
    ensures
        forall|i: int|
            0 <= i < deleted(rows, run_id).len() ==> (#[trigger] deleted(rows, run_id)[i]).run_id
                != run_id,
        forall|i: int|
            0 <= i < rows.len() && (#[trigger] rows[i]).run_id != run_id ==> deleted(
                rows,
                run_id,
            ).contains(rows[i]),
{
    lemma_run_position(rows, run_id, 0);
    let after = deleted(rows, run_id);
    match position(rows, run_id) {
        Some(p) => {
            assert forall|i: int| 0 <= i < after.len() implies (#[trigger] after[i]).run_id
                != run_id by {
                if i < p {
                    assert(after[i] == rows[i]);
                } else {
                    assert(after[i] == rows[i + 1]);
                    assert(rows[p].run_id != rows[i + 1].run_id);
                }
            }
            assert forall|i: int|
                0 <= i < rows.len() && (#[trigger] rows[i]).run_id != run_id implies after.contains(
                rows[i],
            ) by {
                if i < p {
                    assert(after[i] == rows[i]);
                } else {
                    assert(after[i - 1] == rows[i]);
                }
            }
        },
        None => {},
    }
}

/// The run of a container is the first whose row has it; without one there is none.
pub proof fn law_a_run_is_found_by_its_container(
    rows: Seq<StoredView>,
    container_id: Seq<char>,
    i: int,
)
    requires
        0 <= i,
    ensures
        match by_container(rows, container_id, i) {
            Ok(Some(r)) => exists|p: int|
                i <= p < rows.len() && (#[trigger] rows[p]).container_id == Some(container_id)
                    && OciLifecycleState::labelled(rows[p].state) == Some(r.state) && r
                    == rows[p].typed(r.state),
            Ok(None) => forall|p: int|
                i <= p < rows.len() ==> (#[trigger] rows[p]).container_id != Some(container_id),
            Err(f) => f is StateCorrupt,
        },
    decreases rows.len() - i,
{
    if i < rows.len() {
        if rows[i].container_id == Some(container_id) {
            assert(rows[i].container_id == Some(container_id));
        } else {
            law_a_run_is_found_by_its_container(rows, container_id, i + 1);
        }
    }
}

/// The runs of an installation are all of its rows, in order, and no other's.
pub proof fn law_an_installation_lists_its_runs(
    rows: Seq<StoredView>,
    daemon_id: Seq<char>,
    n: int,
)
    requires
        0 < n <= rows.len(),
        by_daemon(rows, daemon_id, n) is Ok,
    ensures
        by_daemon(rows, daemon_id, n - 1) is Ok,
        rows[n - 1].daemon_id != daemon_id ==> by_daemon(rows, daemon_id, n)->Ok_0 == by_daemon(
            rows,
            daemon_id,
            n - 1,
        )->Ok_0,
        rows[n - 1].daemon_id == daemon_id ==> {
            let last = by_daemon(rows, daemon_id, n)->Ok_0.last();
            &&& by_daemon(rows, daemon_id, n)->Ok_0.drop_last() == by_daemon(
                rows,
                daemon_id,
                n - 1,
            )->Ok_0
            &&& last.run_id == rows[n - 1].run_id
            &&& last.daemon_id == daemon_id
            &&& OciLifecycleState::labelled(rows[n - 1].state) == Some(last.state)
        },
        by_daemon(rows, daemon_id, 0)->Ok_0.len() == 0,
{
    if rows[n - 1].daemon_id == daemon_id {
        let all = by_daemon(rows, daemon_id, n)->Ok_0;
        assert(all.drop_last() =~= by_daemon(rows, daemon_id, n - 1)->Ok_0);
    }
}

/// What is said of a run that is refused.
pub proof fn law_a_refused_run_says_why(rows: Seq<StoredView>, run: RunView, s: StoredView, context: Seq<char>)
    ensures
        inserted(rows, run) is Err ==> inserted(rows, run) == Err::<Seq<StoredView>, Fault>(
            Fault::StateCorrupt {
                path: ":memory:"@,
                message: "oci_run insert: UNIQUE constraint failed: oci_runs.run_id"@,
            },
        ),
        OciLifecycleState::labelled(s.state) is None ==> s.strict(context) == Err::<RunView, Fault>(
            Fault::StateCorrupt {
                path: ":memory:"@,
                message: context + " row: Query is not read-only"@,
            },
        ),
{
}

} // verus!
