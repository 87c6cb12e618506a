//! Quarantine clones for pull requests from forks.
//!
//! A fork's head is fetched into a bare clone of its own,
//! `<state_dir>/fork-quarantine/<owner>/<repo>/<pr>@<head_sha>`, never into the
//! mirror of the base repository. The directory names the queue entry, so
//! whoever looks for the clone finds it without other state.

use vstd::prelude::*;

use crate::error::{CaduceusError, Fault};
use crate::path;
use crate::repo;
use crate::repo::mirror::BareMirror;
use crate::repo::GitOutput;
use crate::review;
use crate::review::ReviewTarget;
use crate::text;
use crate::time::Timestamp;

verus! {

/// Name of the quarantine root in the state directory.
pub const FORK_QUARANTINE_DIRNAME: &'static str = "fork-quarantine";

/// Name of the file that says where a clone comes from.
pub const QUARANTINE_MARKER_FILENAME: &'static str = "QUARANTINE_MARKER";

/// Name of the directory of removal markers in the quarantine root.
pub const REMOVED_DIRNAME: &'static str = ".removed";

/// Schema version of the marker.
pub const QUARANTINE_MARKER_SCHEMA_VERSION: u32 = 1;

/// The quarantine root of a state directory.
pub fn fork_quarantine_root(state_dir: &str) -> (r: String)
    ensures
        r@ == path::joined(state_dir@, FORK_QUARANTINE_DIRNAME@),
{
    path::join(state_dir, FORK_QUARANTINE_DIRNAME)
}

/// The directory of a clone: `<pr>@<head_sha>`.
pub open spec fn leaf_text(pull_request: u64, head_sha: Seq<char>) -> Seq<char> {
    text::dec(pull_request as nat) + "@"@ + head_sha
}

/// The directory of a clone: `<pr>@<head_sha>`.
pub fn quarantine_leaf(pull_request: u64, head_sha: &str) -> (r: String)
    ensures
        r@ == leaf_text(pull_request, head_sha@),
{
    let mut s = text::cat(text::decimal(pull_request).as_str(), "@");
    s.append(head_sha);
    s
}

/// The queue key of a clone: owner and repository in small letters.
pub open spec fn queue_key(owner: Seq<char>, repo: Seq<char>, leaf: Seq<char>) -> Seq<char> {
    text::lowercase(owner) + "/"@ + text::lowercase(repo) + "#"@ + leaf
}

/// The queue key of a clone.
pub fn quarantine_queue_key(owner: &str, repo: &str, leaf: &str) -> (r: String)
    ensures
        r@ == queue_key(owner@, repo@, leaf@),
{
    let mut s = text::cat(text::lowered(owner).as_str(), "/");
    s.append(text::lowered(repo).as_str());
    s.append("#");
    s.append(leaf);
    s
}

/// Where a clone comes from.
#[derive(Debug)]
pub struct QuarantineMarker {
    pub schema_version: u32,
    pub owner: String,
    pub repo: String,
    pub pull_request: u64,
    pub head_sha: String,
    pub base_sha: String,
    /// The fork's own name; nothing is decided by it.
    pub head_repo: String,
    pub created_at: Timestamp,
}

/// A [`QuarantineMarker`] with its texts as character sequences.
pub struct MarkerView {
    pub schema_version: u32,
    pub owner: Seq<char>,
    pub repo: Seq<char>,
    pub pull_request: u64,
    pub head_sha: Seq<char>,
    pub base_sha: Seq<char>,
    pub head_repo: Seq<char>,
    pub created_at: Timestamp,
}

impl View for QuarantineMarker {
    type V = MarkerView;

    open spec fn view(&self) -> MarkerView {
        MarkerView {
            schema_version: self.schema_version,
            owner: self.owner@,
            repo: self.repo@,
            pull_request: self.pull_request,
            head_sha: self.head_sha@,
            base_sha: self.base_sha@,
            head_repo: self.head_repo@,
            created_at: self.created_at,
        }
    }
}

impl QuarantineMarker {
    /// The marker of a clone that is made now.
    pub fn new(
        owner: &str,
        repo: &str,
        pull_request: u64,
        head_sha: &str,
        base_sha: &str,
        head_repo: &str,
        now: Timestamp,
    ) -> (r: QuarantineMarker)
        ensures
            r@ == (MarkerView {
                schema_version: QUARANTINE_MARKER_SCHEMA_VERSION,
                owner: owner@,
                repo: repo@,
                pull_request,
                head_sha: head_sha@,
                base_sha: base_sha@,
                head_repo: head_repo@,
                created_at: now,
            }),
    {
        QuarantineMarker {
            schema_version: QUARANTINE_MARKER_SCHEMA_VERSION,
            owner: owner.to_owned(),
            repo: repo.to_owned(),
            pull_request,
            head_sha: head_sha.to_owned(),
            base_sha: base_sha.to_owned(),
            head_repo: head_repo.to_owned(),
            created_at: now,
        }
    }
}

/// A marker as it was read: the system's message, the decoder's message, or
/// the marker.
pub enum MarkerRead {
    Unreadable(String),
    Malformed(String),
    Decoded(QuarantineMarker),
}

/// The marker of the clone at `dir`, or why there is none.
pub open spec fn marker_of(dir: Seq<char>, read: MarkerRead) -> Result<MarkerView, Fault> {
    match read {
        MarkerRead::Unreadable(e) => Err(
            Fault::Other(
                "read quarantine marker "@ + path::joined(dir, QUARANTINE_MARKER_FILENAME@)
                    + " failed: "@ + e@,
            ),
        ),
        MarkerRead::Malformed(e) => Err(Fault::Other("parse quarantine marker: "@ + e@)),
        MarkerRead::Decoded(m) => if m.schema_version == QUARANTINE_MARKER_SCHEMA_VERSION {
            Ok(m@)
        } else {
            Err(
                Fault::Other(
                    "quarantine marker schema_version "@ + text::dec(m.schema_version as nat)
                        + " is not supported (this daemon accepts "@ + text::dec(
                        QUARANTINE_MARKER_SCHEMA_VERSION as nat,
                    ) + ")"@,
                ),
            )
        },
    }
}

/// The marker of the clone at `dir`.
pub fn load_marker(dir: &str, read: MarkerRead) -> (r: Result<QuarantineMarker, CaduceusError>)
    ensures
        crate::error::seen(r) == marker_of(dir@, read),
{
    match read {
        MarkerRead::Unreadable(e) => {
            let file = path::join(dir, QUARANTINE_MARKER_FILENAME);
            let mut m = text::cat("read quarantine marker ", file.as_str());
            m.append(" failed: ");
            m.append(e.as_str());
            Err(CaduceusError::Other(m))
        },
        MarkerRead::Malformed(e) => Err(
            CaduceusError::Other(text::cat("parse quarantine marker: ", e.as_str())),
        ),
        MarkerRead::Decoded(marker) => {
            if marker.schema_version == QUARANTINE_MARKER_SCHEMA_VERSION {
                return Ok(marker);
            }
            let mut m = text::cat(
                "quarantine marker schema_version ",
                text::decimal(marker.schema_version as u64).as_str(),
            );
            m.append(" is not supported (this daemon accepts ");
            m.append(text::decimal(QUARANTINE_MARKER_SCHEMA_VERSION as u64).as_str());
            m.append(")");
            Err(CaduceusError::Other(m))
        },
    }
}

/// A quarantine clone.
#[derive(Debug)]
pub struct ForkQuarantine {
    pub path: String,
    pub quarantine_root: String,
    /// Where it comes from, as far as that could be read.
    pub marker: Option<QuarantineMarker>,
}

/// A [`ForkQuarantine`] with its texts as character sequences.
pub struct QuarantineView {
    pub path: Seq<char>,
    pub quarantine_root: Seq<char>,
    pub marker: Option<MarkerView>,
}

impl View for ForkQuarantine {
    type V = QuarantineView;

    open spec fn view(&self) -> QuarantineView {
        QuarantineView {
            path: self.path@,
            quarantine_root: self.quarantine_root@,
            marker: match self.marker {
                Some(m) => Some(m@),
                None => None,
            },
        }
    }
}

/// Where the clone of a pull request is.
pub open spec fn clone_place(
    state_dir: Seq<char>,
    owner: Seq<char>,
    repo: Seq<char>,
    leaf: Seq<char>,
) -> Seq<char> {
    path::joined(
        path::joined(
            path::joined(path::joined(state_dir, FORK_QUARANTINE_DIRNAME@), owner),
            repo,
        ),
        leaf,
    )
}

fn clone_path(state_dir: &str, owner: &str, repo: &str, leaf: &str) -> (r: String)
    ensures
        r@ == clone_place(state_dir@, owner@, repo@, leaf@),
{
    let root = fork_quarantine_root(state_dir);
    let dir = path::join(path::join(root.as_str(), owner).as_str(), repo);
    path::join(dir.as_str(), leaf)
}

/// The place of a clone that is to be made: a head that would lead out of its
/// directory is refused.
pub open spec fn place(
    state_dir: Seq<char>,
    owner: Seq<char>,
    repo: Seq<char>,
    pull_request: u64,
    head_sha: Seq<char>,
) -> Result<Seq<char>, Fault> {
    let leaf = leaf_text(pull_request, head_sha);
    if text::has(leaf, "/"@) {
        Err(
            Fault::Config(
                "fork quarantine leaf "@ + text::quote(leaf) + " is not path-safe"@,
            ),
        )
    } else {
        Ok(clone_place(state_dir, owner, repo, leaf))
    }
}

/// What is next for a fork's head after its fetch.
#[derive(Clone, Copy, Debug, PartialEq, Eq, Structural)]
pub enum FetchStep {
    /// It is there.
    Fetched,
    /// The fetch broke; the head may be there from an earlier one.
    LookLocally,
}

impl ForkQuarantine {
    /// The place of a clone that is to be made.
    pub fn place(
        state_dir: &str,
        owner: &str,
        repo: &str,
        pull_request: u64,
        head_sha: &str,
    ) -> (r: Result<String, CaduceusError>)
        ensures
            crate::error::seen(r) == place(state_dir@, owner@, repo@, pull_request, head_sha@),
    {
        let leaf = quarantine_leaf(pull_request, head_sha);
        if text::contains_text(leaf.as_str(), "/") {
            let mut m = text::cat("fork quarantine leaf ", text::quoted(leaf.as_str()).as_str());
            m.append(" is not path-safe");
            return Err(CaduceusError::Config(m));
        }
        Ok(clone_path(state_dir, owner, repo, leaf.as_str()))
    }

    /// The command that makes the clone, from the trusted base repository.
    pub fn clone_command(base_url: &str, path: &str) -> (r: Vec<String>)
        ensures
            text::texts(r@) == seq!["clone"@, "--bare"@, "--no-tags"@, base_url@, path@],
    {
        let parts: Vec<&str> = vec!["clone", "--bare", "--no-tags", base_url, path];
        proof {
            assert(repo::str_views(parts@) =~= seq![
                "clone"@,
                "--bare"@,
                "--no-tags"@,
                base_url@,
                path@,
            ]);
        }
        repo::arguments(&parts)
    }

    /// The command that keeps hooks from running in the clone.
    pub fn hooks_command(path: &str) -> (r: Vec<String>)
        ensures
            text::texts(r@) == seq!["-C"@, path@, "config"@, "core.hooksPath"@, "/dev/null"@],
    {
        let parts: Vec<&str> = vec!["-C", path, "config", "core.hooksPath", "/dev/null"];
        proof {
            assert(repo::str_views(parts@) =~= seq![
                "-C"@,
                path@,
                "config"@,
                "core.hooksPath"@,
                "/dev/null"@,
            ]);
        }
        repo::arguments(&parts)
    }

    /// The clone of a pull request, from what came of making it; nothing was
    /// made where it was there already.
    pub fn create(
        state_dir: &str,
        owner: &str,
        repo: &str,
        pull_request: u64,
        head_sha: &str,
        base_sha: &str,
        head_repo: &str,
        cloned: &Option<GitOutput>,
        now: Timestamp,
    ) -> (r: Result<ForkQuarantine, CaduceusError>)
        ensures
            crate::error::seen(r) == match place(
                state_dir@,
                owner@,
                repo@,
                pull_request,
                head_sha@,
            ) {
                Err(f) => Err::<QuarantineView, Fault>(f),
                Ok(p) => match clone_fault(*cloned) {
                    Some(f) => Err::<QuarantineView, Fault>(f),
                    None => Ok::<QuarantineView, Fault>(
                        QuarantineView {
                            path: p,
                            quarantine_root: path::joined(state_dir@, FORK_QUARANTINE_DIRNAME@),
                            marker: Some(
                                MarkerView {
                                    schema_version: QUARANTINE_MARKER_SCHEMA_VERSION,
                                    owner: owner@,
                                    repo: repo@,
                                    pull_request,
                                    head_sha: head_sha@,
                                    base_sha: base_sha@,
                                    head_repo: head_repo@,
                                    created_at: now,
                                },
                            ),
                        },
                    ),
                },
            },
    {
        let path = match ForkQuarantine::place(state_dir, owner, repo, pull_request, head_sha) {
            Err(e) => {
                return Err(e);
            },
            Ok(p) => p,
        };
        match cloned {
            Some(out) => match repo::check_run("fork-quarantine-clone", out) {
                Err(e) => {
                    return Err(e);
                },
                Ok(_) => {},
            },
            None => {},
        }
        let marker = QuarantineMarker::new(
            owner,
            repo,
            pull_request,
            head_sha,
            base_sha,
            head_repo,
            now,
        );
        Ok(
            ForkQuarantine {
                path,
                quarantine_root: fork_quarantine_root(state_dir),
                marker: Some(marker),
            },
        )
    }

    /// The command that fetches the fork's head: the commit alone, and no ref.
    pub fn fetch_command(&self, fork_url: &str, head_sha: &str) -> (r: Vec<String>)
        ensures
            text::texts(r@) == seq!["-C"@, self.path@, "fetch"@, fork_url@, head_sha@],
    {
        let parts: Vec<&str> = vec!["-C", self.path.as_str(), "fetch", fork_url, head_sha];
        proof {
            assert(repo::str_views(parts@) =~= seq![
                "-C"@,
                self.path@,
                "fetch"@,
                fork_url@,
                head_sha@,
            ]);
        }
        repo::arguments(&parts)
    }

    /// After the fetch of a fork's head.
    pub fn fetch_fork_sha(out: &GitOutput) -> (r: Result<FetchStep, CaduceusError>)
        ensures
            match r {
                Ok(step) => !out.cancelled && (step == FetchStep::LookLocally <==> repo::broke(
                    *out,
                )),
                Err(e) => out.cancelled && e@ == Fault::Cancelled,
            },
    {
        if out.cancelled {
            return Err(CaduceusError::Cancelled);
        }
        if repo::has_broken(out) {
            Ok(FetchStep::LookLocally)
        } else {
            Ok(FetchStep::Fetched)
        }
    }

    /// The command that looks for a commit in the clone.
    pub fn look_command(&self, sha: &str) -> (r: Vec<String>)
        ensures
            text::texts(r@) == seq!["-C"@, self.path@, "cat-file"@, "-e"@, sha@ + "^{commit}"@],
    {
        let name = text::cat(sha, "^{commit}");
        let parts: Vec<&str> = vec!["-C", self.path.as_str(), "cat-file", "-e", name.as_str()];
        proof {
            assert(repo::str_views(parts@) =~= seq![
                "-C"@,
                self.path@,
                "cat-file"@,
                "-e"@,
                sha@ + "^{commit}"@,
            ]);
        }
        repo::arguments(&parts)
    }

    /// After a look for a head whose fetch broke: it is there from an earlier
    /// fetch, or it is not to be had.
    pub fn looked_locally(head_sha: &str, out: &GitOutput) -> (r: Result<(), CaduceusError>)
        ensures
            crate::error::verdict(r) == review::unless(
                if out.status == Some(0i32) {
                    None
                } else {
                    Some(Fault::HeadShaUnavailable(head_sha@))
                },
            ),
    {
        if repo::exited_zero(out) {
            Ok(())
        } else {
            Err(CaduceusError::HeadShaUnavailable { sha: head_sha.to_owned() })
        }
    }

    /// The command that finds the merge base in the clone.
    pub fn merge_base_command(&self, base_sha: &str, head_sha: &str) -> (r: Vec<String>)
        ensures
            text::texts(r@) == seq!["-C"@, self.path@, "merge-base"@, base_sha@, head_sha@],
    {
        let parts: Vec<&str> = vec!["-C", self.path.as_str(), "merge-base", base_sha, head_sha];
        proof {
            assert(repo::str_views(parts@) =~= seq![
                "-C"@,
                self.path@,
                "merge-base"@,
                base_sha@,
                head_sha@,
            ]);
        }
        repo::arguments(&parts)
    }

    /// The merge base; histories that have none are an error.
    pub fn merge_base(out: &GitOutput) -> (r: Result<String, CaduceusError>)
        ensures
            crate::error::seen(r) == match repo::run_fault("fork-quarantine-merge-base"@, *out) {
                Some(f) => Err::<Seq<char>, Fault>(f),
                None => Ok::<Seq<char>, Fault>(text::trim(out.stdout@)),
            },
    {
        match repo::check_run("fork-quarantine-merge-base", out) {
            Ok(_) => Ok(text::trimmed(out.stdout.as_str())),
            Err(e) => Err(e),
        }
    }

    /// The clone as a mirror, with no remote, for worktrees to be made from it.
    pub fn as_bare_mirror(&self) -> (r: BareMirror)
        ensures
            r.path@ == self.path@,
            r.remote_url@.len() == 0,
    {
        BareMirror { path: self.path.clone(), remote_url: String::new() }
    }

    /// Where the clone is.
    pub fn path(&self) -> (r: &str)
        ensures
            r@ == self.path@,
    {
        self.path.as_str()
    }

    /// Where the clone of a review target would be.
    pub fn target_path(state_dir: &str, target: &ReviewTarget) -> (r: String)
        ensures
            r@ == clone_place(
                state_dir@,
                target@.repository.owner,
                target@.repository.repo,
                leaf_text(target@.pull_request, target@.head_sha),
            ),
    {
        let leaf = quarantine_leaf(target.pull_request, target.head_sha.as_str());
        clone_path(
            state_dir,
            target.repository.owner.as_str(),
            target.repository.repo.as_str(),
            leaf.as_str(),
        )
    }

    /// The clone of a review target, if it is there. Its directory says so; the
    /// marker only says where it comes from.
    pub fn find_for_target(
        state_dir: &str,
        target: &ReviewTarget,
        head_exists: bool,
        read: MarkerRead,
    ) -> (r: Option<ForkQuarantine>)
        ensures
            match r {
                None => !head_exists,
                Some(q) => head_exists && q@ == found(state_dir@, target@, read),
            },
    {
        if !head_exists {
            return None;
        }
        let path = ForkQuarantine::target_path(state_dir, target);
        let marker = match load_marker(path.as_str(), read) {
            Ok(m) => Some(m),
            Err(_) => None,
        };
        Some(ForkQuarantine { path, quarantine_root: fork_quarantine_root(state_dir), marker })
    }

    /// The worktrees that git lists for the clone, but for itself.
    pub fn list_worktrees(&self, stdout: &str) -> (r: Vec<String>)
        ensures
            text::texts(r@) == listed(
                self.path@,
                text::lines(stdout@),
                text::lines(stdout@).len() as int,
            ),
    {
        let found = text::lines_of(stdout);
        let ghost all = text::lines(stdout@);
        let mut out: Vec<String> = Vec::new();
        let mut i: usize = 0;
        proof {
            assert(text::texts(out@) =~= listed(self.path@, all, 0));
            assert(all.len() == found.len());
        }
        while i < found.len()
            invariant
                all == text::texts(found@),
                i <= found.len(),
                text::texts(out@) == listed(self.path@, all, i as int),
            decreases found.len() - i,
        {
            proof {
                assert(all[i as int] == found@[i as int]@);
            }
            match text::after_prefix(found[i].as_str(), "worktree ") {
                Some(rest) => {
                    let p = text::trimmed(rest.as_str());
                    if !path::same_path(p.as_str(), self.path.as_str()) {
                        let ghost before = out@;
                        let ghost added = p@;
                        out.push(p);
                        proof {
                            assert(text::texts(out@) =~= text::texts(before).push(added));
                        }
                    }
                },
                None => {},
            }
            i += 1;
        }
        out
    }

    /// The record of the clone's removal.
    pub fn removal_record(&self, unix: i64) -> (r: RemovalRecord)
        ensures
            r.removed_at_unix == unix,
            r.leaf@ == removed_leaf(self.path@),
            r.path@ == path::joined(
                path::joined(self.quarantine_root@, REMOVED_DIRNAME@),
                text::dec_int(unix as int) + "-"@ + removed_leaf(self.path@) + ".removed"@,
            ),
            r.note@ == if self.marker is None {
                "marker unreadable; provenance from directory path only"@
            } else {
                Seq::<char>::empty()
            },
    {
        let leaf = match path::file_name_of(self.path.as_str()) {
            Some(n) => n,
            None => "unknown".to_owned(),
        };
        let mut name = text::cat(text::decimal_signed(unix).as_str(), "-");
        name.append(leaf.as_str());
        name.append(".removed");
        let dir = path::join(self.quarantine_root.as_str(), REMOVED_DIRNAME);
        let note = match &self.marker {
            None => "marker unreadable; provenance from directory path only".to_owned(),
            Some(_) => String::new(),
        };
        RemovalRecord {
            removed_at_unix: unix,
            leaf,
            path: path::join(dir.as_str(), name.as_str()),
            note,
        }
    }
}

/// Why a clone was not made.
pub open spec fn clone_fault(cloned: Option<GitOutput>) -> Option<Fault> {
    match cloned {
        Some(out) => repo::run_fault("fork-quarantine-clone"@, out),
        None => None,
    }
}

/// The clone of a review target that is there.
pub open spec fn found(
    state_dir: Seq<char>,
    target: review::TargetView,
    read: MarkerRead,
) -> QuarantineView {
    let p = clone_place(
        state_dir,
        target.repository.owner,
        target.repository.repo,
        leaf_text(target.pull_request, target.head_sha),
    );
    QuarantineView {
        path: p,
        quarantine_root: path::joined(state_dir, FORK_QUARANTINE_DIRNAME@),
        marker: match marker_of(p, read) {
            Ok(m) => Some(m),
            Err(_) => None,
        },
    }
}

/// The worktrees in the first `n` lines, but for the clone itself.
pub open spec fn listed(clone: Seq<char>, found: Seq<Seq<char>>, n: int) -> Seq<Seq<char>>
    decreases n,
{
    if n <= 0 {
        Seq::empty()
    } else {
        let before = listed(clone, found, n - 1);
        match text::following(found[n - 1], "worktree "@) {
            Some(rest) => if path::parts(text::trim(rest)) == path::parts(clone) {
                before
            } else {
                before.push(text::trim(rest))
            },
            None => before,
        }
    }
}

/// The last component of a clone's path.
pub open spec fn removed_leaf(p: Seq<char>) -> Seq<char> {
    match path::file_name(p) {
        Some(n) => n,
        None => "unknown"@,
    }
}

/// The record of a removal: where it goes, and what it says beside the marker.
#[derive(Debug)]
pub struct RemovalRecord {
    pub removed_at_unix: i64,
    pub leaf: String,
    pub path: String,
    pub note: String,
}

/// A directory in the quarantine, three levels down.
#[derive(Debug)]
pub struct CloneDir {
    pub owner: String,
    pub repo: String,
    pub leaf: String,
}

/// The directory is a clone that no queue entry needs.
pub open spec fn is_orphan(d: CloneDir, active: Seq<Seq<char>>) -> bool {
    d.owner@ != REMOVED_DIRNAME@ && !active.contains(queue_key(d.owner@, d.repo@, d.leaf@))
}

/// Where the orphans among the first `n` directories are, in order.
pub open spec fn orphans(
    root: Seq<char>,
    dirs: Seq<CloneDir>,
    active: Seq<Seq<char>>,
    n: int,
) -> Seq<Seq<char>>
    decreases n,
{
    if n <= 0 {
        Seq::empty()
    } else {
        let before = orphans(root, dirs, active, n - 1);
        let d = dirs[n - 1];
        if is_orphan(d, active) {
            before.push(
                path::joined(path::joined(path::joined(root, d.owner@), d.repo@), d.leaf@),
            )
        } else {
            before
        }
    }
}

/// The clones to sweep: those that no queued or running review needs.
pub fn sweep(state_dir: &str, dirs: &Vec<CloneDir>, active_keys: &Vec<String>) -> (r: Vec<String>)
    ensures
        text::texts(r@) == orphans(
            path::joined(state_dir@, FORK_QUARANTINE_DIRNAME@),
            dirs@,
            text::texts(active_keys@),
            dirs.len() as int,
        ),
{
    let root = fork_quarantine_root(state_dir);
    let ghost active = text::texts(active_keys@);
    let mut out: Vec<String> = Vec::new();
    let mut i: usize = 0;
    proof {
        assert(text::texts(out@) =~= orphans(root@, dirs@, active, 0));
    }
    while i < dirs.len()
        invariant
            active == text::texts(active_keys@),
            i <= dirs.len(),
            text::texts(out@) == orphans(root@, dirs@, active, i as int),
        decreases dirs.len() - i,
    {
        let d = &dirs[i];
        let key = quarantine_queue_key(d.owner.as_str(), d.repo.as_str(), d.leaf.as_str());
        if !text::same(d.owner.as_str(), REMOVED_DIRNAME) && !text::member(
            active_keys,
            key.as_str(),
        ) {
            let dir = path::join(
                path::join(root.as_str(), d.owner.as_str()).as_str(),
                d.repo.as_str(),
            );
            let p = path::join(dir.as_str(), d.leaf.as_str());
            let ghost before = out@;
            let ghost added = p@;
            out.push(p);
            proof {
                assert(text::texts(out@) =~= text::texts(before).push(added));
            }
        }
        i += 1;
    }
    out
}

/// A clone whose review is queued or running is not swept.
pub proof fn law_active_clones_are_kept(d: CloneDir, active: Seq<Seq<char>>)
    requires
        active.contains(queue_key(d.owner@, d.repo@, d.leaf@)),
    ensures
        !is_orphan(d, active),
{
}

/// A clone is where the sweep looks for it: its directory, its owner and its
/// repository give the queue key that is asked for.
pub proof fn law_a_clone_is_where_the_sweep_looks(
    state_dir: Seq<char>,
    owner: Seq<char>,
    repo: Seq<char>,
    pull_request: u64,
    head_sha: Seq<char>,
    d: CloneDir,
)
    requires
        d.owner@ == owner,
        d.repo@ == repo,
        d.leaf@ == leaf_text(pull_request, head_sha),
        place(state_dir, owner, repo, pull_request, head_sha) is Ok,
    ensures
        place(state_dir, owner, repo, pull_request, head_sha)->Ok_0 == path::joined(
            path::joined(
                path::joined(path::joined(state_dir, FORK_QUARANTINE_DIRNAME@), d.owner@),
                d.repo@,
            ),
            d.leaf@,
        ),
        queue_key(d.owner@, d.repo@, d.leaf@) == text::lowercase(owner) + "/"@ + text::lowercase(
            repo,
        ) + "#"@ + leaf_text(pull_request, head_sha),
{
}

/// A clone is named by its pull request and its head, and stands under the
/// quarantine by owner and repository; a head with a slash has no place.
pub proof fn law_a_clone_has_its_place(
    state_dir: Seq<char>,
    owner: Seq<char>,
    repo: Seq<char>,
    pull_request: u64,
    head_sha: Seq<char>,
)
    ensures
        leaf_text(pull_request, head_sha) == text::dec(pull_request as nat) + "@"@ + head_sha,
        place(state_dir, owner, repo, pull_request, head_sha) is Ok <==> !text::has(
            leaf_text(pull_request, head_sha),
            "/"@,
        ),
        place(state_dir, owner, repo, pull_request, head_sha) matches Ok(p) ==> p == path::joined(
            path::joined(
                path::joined(path::joined(state_dir, "fork-quarantine"@), owner),
                repo,
            ),
            leaf_text(pull_request, head_sha),
        ),
        queue_key(owner, repo, leaf_text(pull_request, head_sha)) == text::lowercase(owner) + "/"@
            + text::lowercase(repo) + "#"@ + leaf_text(pull_request, head_sha),
{
}

/// A marker is read exactly when it parses and is of the first version; then it is
/// read as it is.
pub proof fn law_a_sound_marker_is_read(dir: Seq<char>, read: MarkerRead)
    ensures
        marker_of(dir, read) is Ok <==> (read matches MarkerRead::Decoded(m) && m.schema_version
            == 1),
        marker_of(dir, read) is Ok ==> marker_of(dir, read)->Ok_0 == read->Decoded_0@,
        marker_of(dir, read) is Err ==> marker_of(dir, read)->Err_0 is Other,
{
}

/// What is found of a clone: its place, the quarantine that it is in, and its marker
/// as far as that can be read.
pub proof fn law_a_clone_is_found_at_its_place(
    state_dir: Seq<char>,
    target: review::TargetView,
    read: MarkerRead,
)
    ensures
        ({
            let q = found(state_dir, target, read);
            let p = path::joined(
                path::joined(
                    path::joined(
                        path::joined(state_dir, "fork-quarantine"@),
                        target.repository.owner,
                    ),
                    target.repository.repo,
                ),
                text::dec(target.pull_request as nat) + "@"@ + target.head_sha,
            );
            &&& q.path == p
            &&& q.quarantine_root == path::joined(state_dir, "fork-quarantine"@)
            &&& q.marker is Some <==> marker_of(p, read) is Ok
            &&& q.marker is Some ==> q.marker->0 == marker_of(p, read)->Ok_0
        }),
{
}

/// A clone that did not have to be made has not failed; one that was made has
/// failed where the command did.
pub proof fn law_a_clone_fails_with_its_command(cloned: Option<GitOutput>)
    ensures
        cloned is None ==> clone_fault(cloned) is None,
        cloned matches Some(out) ==> (clone_fault(cloned) is None <==> !out.cancelled
            && !out.timed_out && out.status == Some(0i32)),
{
}

/// An orphan is a clone outside the directory of removed ones that no active
/// review has a key for. Every orphan is swept, and nothing else.
pub proof fn law_every_orphan_is_swept(
    root: Seq<char>,
    dirs: Seq<CloneDir>,
    active: Seq<Seq<char>>,
    n: int,
    i: int,
)
    requires
        0 <= i < n <= dirs.len(),
    ensures
        is_orphan(dirs[i], active) <==> dirs[i].owner@ != ".removed"@ && !active.contains(
            text::lowercase(dirs[i].owner@) + "/"@ + text::lowercase(dirs[i].repo@) + "#"@
                + dirs[i].leaf@,
        ),
        is_orphan(dirs[i], active) ==> orphans(root, dirs, active, n).contains(
            path::joined(
                path::joined(path::joined(root, dirs[i].owner@), dirs[i].repo@),
                dirs[i].leaf@,
            ),
        ),
    decreases n,
{
    let place = path::joined(
        path::joined(path::joined(root, dirs[i].owner@), dirs[i].repo@),
        dirs[i].leaf@,
    );
    let before = orphans(root, dirs, active, n - 1);
    let all = orphans(root, dirs, active, n);
    if is_orphan(dirs[i], active) {
        if i < n - 1 {
            law_every_orphan_is_swept(root, dirs, active, n - 1, i);
            let k = choose|k: int| 0 <= k < before.len() && before[k] == place;
            assert(all[k] == place);
        } else {
            assert(all[before.len() as int] == place);
        }
    }
}

/// What is swept is the place of an orphan.
pub proof fn law_only_orphans_are_swept(
    root: Seq<char>,
    dirs: Seq<CloneDir>,
    active: Seq<Seq<char>>,
    n: int,
    k: int,
)
    requires
        0 <= n <= dirs.len(),
        0 <= k < orphans(root, dirs, active, n).len(),
    ensures
        exists|i: int|
            0 <= i < n && is_orphan(#[trigger] dirs[i], active) && orphans(
                root,
                dirs,
                active,
                n,
            )[k] == path::joined(
                path::joined(path::joined(root, dirs[i].owner@), dirs[i].repo@),
                dirs[i].leaf@,
            ),
    decreases n,
{
    if n > 0 {
        let before = orphans(root, dirs, active, n - 1);
        if k < before.len() {
            law_only_orphans_are_swept(root, dirs, active, n - 1, k);
            assert(orphans(root, dirs, active, n)[k] == before[k]);
        } else {
            assert(is_orphan(dirs[n - 1], active));
        }
    }
}

/// The worktrees of a clone are the lines that name one, but for the clone itself.
pub proof fn law_the_worktrees_of_a_clone_are_listed(
    clone: Seq<char>,
    found: Seq<Seq<char>>,
    n: int,
    rest: Seq<char>,
)
    requires
        0 < n <= found.len(),
    ensures
        found[n - 1] == "worktree "@ + rest && path::parts(text::trim(rest)) != path::parts(clone)
            ==> listed(clone, found, n) == listed(clone, found, n - 1).push(text::trim(rest)),
        found[n - 1] == "worktree "@ + rest && path::parts(text::trim(rest)) == path::parts(clone)
            ==> listed(clone, found, n) == listed(clone, found, n - 1),
        !"worktree "@.is_prefix_of(found[n - 1]) ==> listed(clone, found, n) == listed(
            clone,
            found,
            n - 1,
        ),
        listed(clone, found, 0).len() == 0,
{
    text::law_what_follows_a_prefix(rest, "worktree "@);
}

/// A removed clone is on record under its last name.
pub proof fn law_a_removed_clone_keeps_its_name(p: Seq<char>)
    ensures
        path::file_name(p) matches Some(n) ==> removed_leaf(p) == n,
        path::file_name(p) is None ==> removed_leaf(p) == "unknown"@,
{
}

/// What is said of a marker that cannot be read, and of a clone without a place.
pub proof fn law_a_refused_clone_says_why(
    dir: Seq<char>,
    read: MarkerRead,
    state_dir: Seq<char>,
    owner: Seq<char>,
    repo: Seq<char>,
    pull_request: u64,
    head_sha: Seq<char>,
    out: GitOutput,
)
    ensures
        read matches MarkerRead::Unreadable(e) ==> marker_of(dir, read) == Err::<MarkerView, Fault>(
            Fault::Other(
                "read quarantine marker "@ + path::joined(dir, "QUARANTINE_MARKER"@)
                    + " failed: "@ + e@,
            ),
        ),
        read matches MarkerRead::Malformed(e) ==> marker_of(dir, read) == Err::<MarkerView, Fault>(
            Fault::Other("parse quarantine marker: "@ + e@),
        ),
        read matches MarkerRead::Decoded(m) ==> (m.schema_version != 1 ==> marker_of(dir, read)
            == Err::<MarkerView, Fault>(
            Fault::Other(
                "quarantine marker schema_version "@ + text::dec(m.schema_version as nat)
                    + " is not supported (this daemon accepts "@ + text::dec(1) + ")"@,
            ),
        )),
        text::has(leaf_text(pull_request, head_sha), "/"@) ==> place(
            state_dir,
            owner,
            repo,
            pull_request,
            head_sha,
        ) == Err::<Seq<char>, Fault>(
            Fault::Config(
                "fork quarantine leaf "@ + text::quote(leaf_text(pull_request, head_sha))
                    + " is not path-safe"@,
            ),
        ),
        !out.cancelled && repo::broke(out) ==> clone_fault(Some(out)) == Some(
            Fault::Git { operation: "fork-quarantine-clone"@, stderr: out.stderr@ },
        ),
{
}

/// The commands of a clone: it is bare and without tags, runs no hooks, and fetches
/// one commit.
pub proof fn law_a_clone_is_handled_with_care(
    base_url: &str,
    place: &str,
    q: &ForkQuarantine,
    fork_url: &str,
    head: &str,
    base: &str,
    cloned: Vec<String>,
    hooks: Vec<String>,
    fetch: Vec<String>,
    look: Vec<String>,
    merge: Vec<String>,
)
    requires
        call_ensures(ForkQuarantine::clone_command, (base_url, place), cloned),
        call_ensures(ForkQuarantine::hooks_command, (place,), hooks),
        call_ensures(ForkQuarantine::fetch_command, (q, fork_url, head), fetch),
        call_ensures(ForkQuarantine::look_command, (q, head), look),
        call_ensures(ForkQuarantine::merge_base_command, (q, base, head), merge),
    ensures
        text::texts(cloned@) == seq!["clone"@, "--bare"@, "--no-tags"@, base_url@, place@],
        text::texts(hooks@) == seq!["-C"@, place@, "config"@, "core.hooksPath"@, "/dev/null"@],
        text::texts(fetch@) == seq!["-C"@, q.path@, "fetch"@, fork_url@, head@],
        text::texts(look@) == seq!["-C"@, q.path@, "cat-file"@, "-e"@, head@ + "^{commit}"@],
        text::texts(merge@) == seq!["-C"@, q.path@, "merge-base"@, base@, head@],
{
}

/// A fetch that broke is looked up locally; a head that is not there either is told
/// as unavailable. A cancelled fetch is cancelled.
pub proof fn law_a_head_is_fetched_or_looked_up(
    head: &str,
    out: &GitOutput,
    step: Result<FetchStep, CaduceusError>,
    looked: Result<(), CaduceusError>,
)
    requires
        call_ensures(ForkQuarantine::fetch_fork_sha, (out,), step),
        call_ensures(ForkQuarantine::looked_locally, (head, out), looked),
    ensures
        out.cancelled ==> (step matches Err(e) && e@ == Fault::Cancelled),
        !out.cancelled && !out.timed_out && out.status == Some(0i32) ==> step == Ok::<
            FetchStep,
            CaduceusError,
        >(FetchStep::Fetched),
        !out.cancelled && (out.timed_out || out.status != Some(0i32)) ==> step == Ok::<
            FetchStep,
            CaduceusError,
        >(FetchStep::LookLocally),
        looked is Ok <==> out.status == Some(0i32),
        looked matches Err(e) ==> e@ == Fault::HeadShaUnavailable(head@),
{
}

/// The sweep hands over exactly the clones of which no active review has the key.
pub proof fn law_the_sweep_takes_what_no_review_needs(
    state_dir: &str,
    dirs: &Vec<CloneDir>,
    active: &Vec<String>,
    r: Vec<String>,
    i: int,
)
    requires
        call_ensures(sweep, (state_dir, dirs, active), r),
        0 <= i < dirs@.len(),
        dirs@[i].owner@ != ".removed"@,
        !text::texts(active@).contains(
            text::lowercase(dirs@[i].owner@) + "/"@ + text::lowercase(dirs@[i].repo@) + "#"@
                + dirs@[i].leaf@,
        ),
    ensures
        text::texts(r@).contains(
            path::joined(
                path::joined(
                    path::joined(
                        path::joined(state_dir@, "fork-quarantine"@),
                        dirs@[i].owner@,
                    ),
                    dirs@[i].repo@,
                ),
                dirs@[i].leaf@,
            ),
        ),
{
    law_every_orphan_is_swept(
        path::joined(state_dir@, "fork-quarantine"@),
        dirs@,
        text::texts(active@),
        dirs@.len() as int,
        i,
    );
}

/// A removal is on record under its time and name, and says so where the marker
/// could not be read.
pub proof fn law_a_removal_is_recorded(q: &ForkQuarantine, unix: i64, r: RemovalRecord)
    requires
        call_ensures(ForkQuarantine::removal_record, (q, unix), r),
    ensures
        r.removed_at_unix == unix,
        r.leaf@ == removed_leaf(q.path@),
        r.path@ == path::joined(
            path::joined(q.quarantine_root@, ".removed"@),
            text::dec_int(unix as int) + "-"@ + removed_leaf(q.path@) + ".removed"@,
        ),
        q.marker is Some ==> r.note@.len() == 0,
        q.marker is None ==> r.note@ == "marker unreadable; provenance from directory path only"@,
{
}

} // verus!
