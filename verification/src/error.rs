//! The error type of the library.

use vstd::prelude::*;

use crate::text;

verus! {

/// A readiness check that failed.
#[derive(Debug)]
pub struct ReadinessFailure {
    pub check: String,
    pub detail: String,
    pub remediation: String,
}

/// A [`ReadinessFailure`] with its texts as character sequences.
pub struct FailureView {
    pub check: Seq<char>,
    pub detail: Seq<char>,
    pub remediation: Seq<char>,
}

impl View for ReadinessFailure {
    type V = FailureView;

    open spec fn view(&self) -> FailureView {
        FailureView {
            check: self.check@,
            detail: self.detail@,
            remediation: self.remediation@,
        }
    }
}

/// Everything that can go wrong. Paths are text; I/O failures carry the text
/// the operating system gave.
#[allow(inconsistent_fields)]
#[derive(Debug)]
pub enum CaduceusError {
    Cancelled,
    Config(String),
    DrainTimeout { timed_out_run_ids: Vec<String> },
    FencingTokenRegression { issue_key: String, stale_token: u64, current_token: u64 },
    Git { operation: &'static str, stderr: String },
    GitHubApi { status: u16, message: String },
    HeadShaUnavailable { sha: String },
    Io(String),
    LeadershipContended { context: &'static str, stderr: String },
    LeaseStale { context: &'static str, stderr: String },
    ModeNotPreserved { path: String, expected: u32, observed: u32 },
    OciReadinessUnavailable { failed_checks: Vec<ReadinessFailure> },
    Other(String),
    PoolSaturated { current_depth: u32, max_depth: u32 },
    Queue { context: &'static str, stderr: String },
    RateLimited { reset_at: u64, remaining: u32, limit: Option<u32> },
    ReviewSchemaVersion { found: u32, supported: u32 },
    ReviewSourceMutation { worktree_path: String, detail: String },
    StateCorrupt { path: String, message: String },
    StoreVersionUnsupported {
        backend: &'static str,
        path: String,
        found: i64,
        supported: i64,
        guidance: &'static str,
    },
    SymlinkedStorageRoot { path: String },
    Worker { context: &'static str, stderr: String },
    Worktree { context: &'static str, stderr: String },
    WorktreeReuseAfterFailure { run_id: String, worktree_path: String, last_state: String },
}

/// A [`CaduceusError`] with its texts as character sequences.
#[allow(inconsistent_fields)]
pub enum Fault {
    Cancelled,
    Config(Seq<char>),
    DrainTimeout(Seq<Seq<char>>),
    FencingTokenRegression { issue_key: Seq<char>, stale_token: u64, current_token: u64 },
    Git { operation: Seq<char>, stderr: Seq<char> },
    GitHubApi { status: u16, message: Seq<char> },
    HeadShaUnavailable(Seq<char>),
    Io(Seq<char>),
    LeadershipContended { context: Seq<char>, stderr: Seq<char> },
    LeaseStale { context: Seq<char>, stderr: Seq<char> },
    ModeNotPreserved { path: Seq<char>, expected: u32, observed: u32 },
    OciReadinessUnavailable(Seq<FailureView>),
    Other(Seq<char>),
    PoolSaturated { current_depth: u32, max_depth: u32 },
    Queue { context: Seq<char>, stderr: Seq<char> },
    RateLimited { reset_at: u64, remaining: u32, limit: Option<u32> },
    ReviewSchemaVersion { found: u32, supported: u32 },
    ReviewSourceMutation { worktree_path: Seq<char>, detail: Seq<char> },
    StateCorrupt { path: Seq<char>, message: Seq<char> },
    StoreVersionUnsupported {
        backend: Seq<char>,
        path: Seq<char>,
        found: i64,
        supported: i64,
        guidance: Seq<char>,
    },
    SymlinkedStorageRoot(Seq<char>),
    Worker { context: Seq<char>, stderr: Seq<char> },
    Worktree { context: Seq<char>, stderr: Seq<char> },
    WorktreeReuseAfterFailure {
        run_id: Seq<char>,
        worktree_path: Seq<char>,
        last_state: Seq<char>,
    },
}

impl View for CaduceusError {
    type V = Fault;

    open spec fn view(&self) -> Fault {
        match *self {
            CaduceusError::Cancelled => Fault::Cancelled,
            CaduceusError::Config(m) => Fault::Config(m@),
            CaduceusError::DrainTimeout { timed_out_run_ids } => Fault::DrainTimeout(
                timed_out_run_ids@.map_values(|s: String| s@),
            ),
            CaduceusError::FencingTokenRegression { issue_key, stale_token, current_token } =>
                Fault::FencingTokenRegression {
                issue_key: issue_key@,
                stale_token,
                current_token,
            },
            CaduceusError::Git { operation, stderr } => Fault::Git {
                operation: operation@,
                stderr: stderr@,
            },
            CaduceusError::GitHubApi { status, message } => Fault::GitHubApi {
                status,
                message: message@,
            },
            CaduceusError::HeadShaUnavailable { sha } => Fault::HeadShaUnavailable(sha@),
            CaduceusError::Io(m) => Fault::Io(m@),
            CaduceusError::LeadershipContended { context, stderr } => Fault::LeadershipContended {
                context: context@,
                stderr: stderr@,
            },
            CaduceusError::LeaseStale { context, stderr } => Fault::LeaseStale {
                context: context@,
                stderr: stderr@,
            },
            CaduceusError::ModeNotPreserved { path, expected, observed } =>
                Fault::ModeNotPreserved { path: path@, expected, observed },
            CaduceusError::OciReadinessUnavailable { failed_checks } =>
                Fault::OciReadinessUnavailable(failed_checks@.map_values(|f: ReadinessFailure| f@)),
            CaduceusError::Other(m) => Fault::Other(m@),
            CaduceusError::PoolSaturated { current_depth, max_depth } => Fault::PoolSaturated {
                current_depth,
                max_depth,
            },
            CaduceusError::Queue { context, stderr } => Fault::Queue {
                context: context@,
                stderr: stderr@,
            },
            CaduceusError::RateLimited { reset_at, remaining, limit } => Fault::RateLimited {
                reset_at,
                remaining,
                limit,
            },
            CaduceusError::ReviewSchemaVersion { found, supported } =>
                Fault::ReviewSchemaVersion { found, supported },
            CaduceusError::ReviewSourceMutation { worktree_path, detail } =>
                Fault::ReviewSourceMutation { worktree_path: worktree_path@, detail: detail@ },
            CaduceusError::StateCorrupt { path, message } => Fault::StateCorrupt {
                path: path@,
                message: message@,
            },
            CaduceusError::StoreVersionUnsupported { backend, path, found, supported, guidance } =>
                Fault::StoreVersionUnsupported {
                backend: backend@,
                path: path@,
                found,
                supported,
                guidance: guidance@,
            },
            CaduceusError::SymlinkedStorageRoot { path } => Fault::SymlinkedStorageRoot(path@),
            CaduceusError::Worker { context, stderr } => Fault::Worker {
                context: context@,
                stderr: stderr@,
            },
            CaduceusError::Worktree { context, stderr } => Fault::Worktree {
                context: context@,
                stderr: stderr@,
            },
            CaduceusError::WorktreeReuseAfterFailure { run_id, worktree_path, last_state } =>
                Fault::WorktreeReuseAfterFailure {
                run_id: run_id@,
                worktree_path: worktree_path@,
                last_state: last_state@,
            },
        }
    }
}

/// Result of a library operation.
pub type CaduceusResult<T> = Result<T, CaduceusError>;

/// What a result without a value says: success, or the fault.
pub open spec fn verdict(r: Result<(), CaduceusError>) -> Result<(), Fault> {
    match r {
        Ok(_) => Ok(()),
        Err(e) => Err(e@),
    }
}

/// A result with its value and its error taken by their views.
pub open spec fn seen<T: View>(r: Result<T, CaduceusError>) -> Result<T::V, Fault> {
    match r {
        Ok(v) => Ok(v@),
        Err(e) => Err(e@),
    }
}

/// What the operator should do about a store whose version is not supported.
pub open spec fn guidance(newer: bool) -> Seq<char> {
    if newer {
        "the store was written by a newer daemon: upgrade the daemon, or reinitialise the store"@
    } else {
        "the store predates the supported versions: reinitialise it with fresh state"@
    }
}

/// What the operator should do about a store whose version is not supported;
/// `newer` when the store is newer than the daemon.
pub fn store_version_guidance(newer: bool) -> (r: &'static str)
    ensures
        r@ == guidance(newer),
{
    if newer {
        "the store was written by a newer daemon: upgrade the daemon, or reinitialise the store"
    } else {
        "the store predates the supported versions: reinitialise it with fresh state"
    }
}

/// What an error says.
pub open spec fn message(f: Fault) -> Seq<char> {
    match f {
        Fault::Cancelled => "cancelled"@,
        Fault::Config(m) => m,
        Fault::DrainTimeout(_) => "drain timed out"@,
        Fault::FencingTokenRegression { issue_key, stale_token, current_token } =>
            "fencing token regression for "@ + issue_key,
        Fault::Git { operation, stderr } => stderr,
        Fault::GitHubApi { status, message } => message,
        Fault::HeadShaUnavailable(sha) => "head commit is unavailable: "@ + sha,
        Fault::Io(m) => m,
        Fault::LeadershipContended { context, stderr } => stderr,
        Fault::LeaseStale { context, stderr } => stderr,
        Fault::ModeNotPreserved { path, expected, observed } => "mode was not kept: "@ + path,
        Fault::OciReadinessUnavailable(_) => "host is not ready for container workers"@,
        Fault::Other(m) => m,
        Fault::PoolSaturated { current_depth, max_depth } => "worker pool is saturated"@,
        Fault::Queue { context, stderr } => stderr,
        Fault::RateLimited { reset_at, remaining, limit } => "rate limited"@,
        Fault::ReviewSchemaVersion { found, supported } => "unsupported review schema version "@
            + text::dec(found as nat),
        Fault::ReviewSourceMutation { worktree_path, detail } => detail,
        Fault::StateCorrupt { path, message } => message,
        Fault::StoreVersionUnsupported { backend, path, found, supported, guidance } => guidance,
        Fault::SymlinkedStorageRoot(path) => "storage root is a symbolic link: "@ + path,
        Fault::Worker { context, stderr } => stderr,
        Fault::Worktree { context, stderr } => stderr,
        Fault::WorktreeReuseAfterFailure { run_id, worktree_path, last_state } =>
            "worktree is there already: "@ + worktree_path,
    }
}

impl CaduceusError {
    /// What the error says.
    pub fn message_text(&self) -> (r: String)
        ensures
            r@ == message(self@),
    {
        match self {
            CaduceusError::Cancelled => "cancelled".to_owned(),
            CaduceusError::Config(m) => m.clone(),
            CaduceusError::DrainTimeout { timed_out_run_ids: _ } => "drain timed out".to_owned(),
            CaduceusError::FencingTokenRegression { issue_key, stale_token: _, current_token: _ } => {
                text::cat("fencing token regression for ", issue_key.as_str())
            },
            CaduceusError::Git { operation: _, stderr } => stderr.clone(),
            CaduceusError::GitHubApi { status: _, message } => message.clone(),
            CaduceusError::HeadShaUnavailable { sha } => {
                text::cat("head commit is unavailable: ", sha.as_str())
            },
            CaduceusError::Io(m) => m.clone(),
            CaduceusError::LeadershipContended { context: _, stderr } => stderr.clone(),
            CaduceusError::LeaseStale { context: _, stderr } => stderr.clone(),
            CaduceusError::ModeNotPreserved { path, expected: _, observed: _ } => {
                text::cat("mode was not kept: ", path.as_str())
            },
            CaduceusError::OciReadinessUnavailable { failed_checks: _ } => {
                "host is not ready for container workers".to_owned()
            },
            CaduceusError::Other(m) => m.clone(),
            CaduceusError::PoolSaturated { current_depth: _, max_depth: _ } => {
                "worker pool is saturated".to_owned()
            },
            CaduceusError::Queue { context: _, stderr } => stderr.clone(),
            CaduceusError::RateLimited { reset_at: _, remaining: _, limit: _ } => {
                "rate limited".to_owned()
            },
            CaduceusError::ReviewSchemaVersion { found, supported: _ } => {
                text::cat(
                    "unsupported review schema version ",
                    text::decimal(*found as u64).as_str(),
                )
            },
            CaduceusError::ReviewSourceMutation { worktree_path: _, detail } => detail.clone(),
            CaduceusError::StateCorrupt { path: _, message } => message.clone(),
            CaduceusError::StoreVersionUnsupported {
                backend: _,
                path: _,
                found: _,
                supported: _,
                guidance,
            } => (*guidance).to_owned(),
            CaduceusError::SymlinkedStorageRoot { path } => {
                text::cat("storage root is a symbolic link: ", path.as_str())
            },
            CaduceusError::Worker { context: _, stderr } => stderr.clone(),
            CaduceusError::Worktree { context: _, stderr } => stderr.clone(),
            CaduceusError::WorktreeReuseAfterFailure { run_id: _, worktree_path, last_state: _ } => {
                text::cat("worktree is there already: ", worktree_path.as_str())
            },
        }
    }
}

/// A state file or table whose contents break the rules.
pub fn corrupt(path: &str, message: String) -> (r: CaduceusError)
    ensures
        r@ == (Fault::StateCorrupt { path: path@, message: message@ }),
{
    CaduceusError::StateCorrupt { path: path.to_owned(), message }
}

/// What to do about a store of another version.
pub proof fn law_guidance_fits_the_version()
    ensures
        guidance(true)
            == "the store was written by a newer daemon: upgrade the daemon, or reinitialise the store"@,
        guidance(false)
            == "the store predates the supported versions: reinitialise it with fresh state"@,
{
}

/// An error that carries a text says it unchanged.
pub proof fn law_a_text_is_its_own_message(m: Seq<char>, other: Seq<char>)
    ensures
        message(Fault::Config(m)) == m,
        message(Fault::Io(m)) == m,
        message(Fault::Other(m)) == m,
        message(Fault::Queue { context: other, stderr: m }) == m,
        message(Fault::Worker { context: other, stderr: m }) == m,
        message(Fault::Worktree { context: other, stderr: m }) == m,
        message(Fault::Git { operation: other, stderr: m }) == m,
        message(Fault::StateCorrupt { path: other, message: m }) == m,
        message(Fault::LeaseStale { context: other, stderr: m }) == m,
        message(Fault::LeadershipContended { context: other, stderr: m }) == m,
        message(Fault::ReviewSourceMutation { worktree_path: other, detail: m }) == m,
{
}

/// What the errors without a text of their own say.
pub proof fn law_the_other_errors_have_their_words(s: Seq<char>, a: u64, b: u64, n: u32, m: u32)
    ensures
        message(Fault::Cancelled) == "cancelled"@,
        message(Fault::DrainTimeout(Seq::empty())) == "drain timed out"@,
        message(
            Fault::FencingTokenRegression { issue_key: s, stale_token: a, current_token: b },
        ) == "fencing token regression for "@ + s,
        message(Fault::HeadShaUnavailable(s)) == "head commit is unavailable: "@ + s,
        message(Fault::ModeNotPreserved { path: s, expected: n, observed: m })
            == "mode was not kept: "@ + s,
        message(Fault::OciReadinessUnavailable(Seq::empty()))
            == "host is not ready for container workers"@,
        message(Fault::PoolSaturated { current_depth: n, max_depth: m })
            == "worker pool is saturated"@,
        message(Fault::RateLimited { reset_at: a, remaining: n, limit: None }) == "rate limited"@,
        message(Fault::ReviewSchemaVersion { found: n, supported: m })
            == "unsupported review schema version "@ + text::dec(n as nat),
        message(Fault::SymlinkedStorageRoot(s)) == "storage root is a symbolic link: "@ + s,
        message(
            Fault::WorktreeReuseAfterFailure { run_id: s, worktree_path: s, last_state: s },
        ) == "worktree is there already: "@ + s,
{
}

} // verus!
