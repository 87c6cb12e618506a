//! Worktrees for reviews, detached at the head of a pull request:
//! `<storage>/worktrees/review/<owner>/<repo>/<run_id>`.
//!
//! A review worktree has no branch, so nothing can be pushed from it. A file
//! beside it keeps the frozen context of the review.

use vstd::prelude::*;

use crate::config::Config;
use crate::error::{CaduceusError, Fault};
use crate::path;
use crate::repo;
use crate::repo::mirror;
use crate::repo::mirror::BareMirror;
use crate::repo::worktree;
use crate::repo::GitOutput;
use crate::review;
use crate::review::{
    RepositoryId, RepositoryView, ReviewTarget, TargetView, MAX_REF_BYTES,
    MAX_REPO_COMPONENT_BYTES, MAX_RUN_ID_BYTES, MAX_SHA_BYTES,
};
use crate::state::columns;
use crate::text;
use crate::time::Timestamp;

verus! {

/// Schema version of the metadata.
pub const REVIEW_WORKTREE_SCHEMA_VERSION: u32 = 1;

/// Name of the file in a review worktree that says what it is for.
pub const REVIEW_WORKTREE_METADATA_FILENAME: &'static str = "review-worktree.json";

/// Seconds for which a heartbeat protects a worktree.
pub const HEARTBEAT_FRESH_SECONDS: u64 = 3600;

/// A review worktree.
#[derive(Debug)]
pub struct ReviewWorktree {
    pub mirror: BareMirror,
    pub run_id: String,
    pub path: String,
    /// The commit that is checked out.
    pub head_sha: String,
    pub metadata_path: String,
    pub created_at: Timestamp,
}

/// A [`ReviewWorktree`] with its texts as character sequences.
pub struct WorktreeView {
    pub mirror: BareMirror,
    pub run_id: Seq<char>,
    pub path: Seq<char>,
    pub head_sha: Seq<char>,
    pub metadata_path: Seq<char>,
    pub created_at: Timestamp,
}

impl View for ReviewWorktree {
    type V = WorktreeView;

    open spec fn view(&self) -> WorktreeView {
        WorktreeView {
            mirror: self.mirror,
            run_id: self.run_id@,
            path: self.path@,
            head_sha: self.head_sha@,
            metadata_path: self.metadata_path@,
            created_at: self.created_at,
        }
    }
}

/// What a review worktree is for: the context of the review, frozen when the
/// worktree was made.
#[derive(Debug)]
pub struct ReviewWorktreeMetadata {
    pub schema_version: u32,
    pub run_id: String,
    pub repository: RepositoryId,
    pub pull_request: u64,
    pub head_sha: String,
    pub base_sha: String,
    pub base_ref: String,
    /// Where the diff of the review begins.
    pub merge_base: String,
    pub created_at: Timestamp,
}

/// A [`ReviewWorktreeMetadata`] with its texts as character sequences.
pub struct MetadataView {
    pub schema_version: u32,
    pub run_id: Seq<char>,
    pub repository: RepositoryView,
    pub pull_request: u64,
    pub head_sha: Seq<char>,
    pub base_sha: Seq<char>,
    pub base_ref: Seq<char>,
    pub merge_base: Seq<char>,
    pub created_at: Timestamp,
}

impl View for ReviewWorktreeMetadata {
    type V = MetadataView;

    open spec fn view(&self) -> MetadataView {
        MetadataView {
            schema_version: self.schema_version,
            run_id: self.run_id@,
            repository: self.repository@,
            pull_request: self.pull_request,
            head_sha: self.head_sha@,
            base_sha: self.base_sha@,
            base_ref: self.base_ref@,
            merge_base: self.merge_base@,
            created_at: self.created_at,
        }
    }
}

// ---------------------------------------------------------------------------
// Making a review worktree
// ---------------------------------------------------------------------------

/// The directory of a repository's review worktrees.
pub open spec fn review_dir(root: Seq<char>, owner: Seq<char>, repo: Seq<char>) -> Seq<char> {
    path::joined(
        path::joined(path::joined(path::joined(root, "worktrees"@), "review"@), owner),
        repo,
    )
}

/// The directory of a repository's review worktrees.
pub fn review_repo_dir(root: &str, owner: &str, repo: &str) -> (r: String)
    ensures
        r@ == review_dir(root@, owner@, repo@),
{
    let base = path::join(path::join(root, "worktrees").as_str(), "review");
    path::join(path::join(base.as_str(), owner).as_str(), repo)
}

/// The directory two levels up from a mirror.
pub open spec fn mirrors_of(mirror: Seq<char>) -> Seq<char> {
    match path::parent(mirror) {
        Some(owner) => match path::parent(owner) {
            Some(dir) => dir,
            None => Seq::empty(),
        },
        None => Seq::empty(),
    }
}

/// Where a review worktree goes: its directory and itself. A mirror that is
/// not under a directory `mirrors` is refused.
pub open spec fn review_place(
    mirror: Seq<char>,
    owner: Seq<char>,
    repo: Seq<char>,
    run_id: Seq<char>,
) -> Result<(Seq<char>, Seq<char>), Fault> {
    match worktree::storage_root(mirror) {
        None => Err(Fault::Config("cannot resolve storage root from mirror path"@)),
        Some(root) => if path::file_name(mirrors_of(mirror)) != Some("mirrors"@) {
            Err(
                Fault::Config(
                    "mirror path "@ + mirror + " does not live under "@ + path::joined(
                        root,
                        "mirrors"@,
                    ),
                ),
            )
        } else {
            let dir = review_dir(root, owner, repo);
            Ok((dir, path::joined(dir, run_id)))
        },
    }
}

/// Where a review worktree goes.
pub fn review_worktree_path(mirror: &BareMirror, owner: &str, repo: &str, run_id: &str) -> (r:
    Result<worktree::WorktreePlace, CaduceusError>)
    ensures
        worktree::place_seen(r) == review_place(mirror.path@, owner@, repo@, run_id@),
{
    let root = match worktree::storage_root_of(mirror.path.as_str()) {
        None => {
            return Err(
                CaduceusError::Config("cannot resolve storage root from mirror path".to_owned()),
            );
        },
        Some(r) => r,
    };
    let under = match path::parent_of(mirror.path.as_str()) {
        Some(p) => match path::parent_of(p.as_str()) {
            Some(dir) => path::file_name_of(dir.as_str()),
            None => None,
        },
        None => None,
    };
    if !text::opt_is(&under, "mirrors") {
        let mut m = text::cat("mirror path ", mirror.path.as_str());
        m.append(" does not live under ");
        m.append(path::join(root.as_str(), "mirrors").as_str());
        return Err(CaduceusError::Config(m));
    }
    let dir = review_repo_dir(root.as_str(), owner, repo);
    let path = path::join(dir.as_str(), run_id);
    Ok(worktree::WorktreePlace { dir, path })
}

/// What is wrong with a request for a review worktree, before anything is
/// done.
pub open spec fn request_fault(run_id: Seq<char>, target: TargetView) -> Option<Fault> {
    review::or_fault(worktree::run_id_fault(run_id), review::target_fault(target))
}

/// What stops a review worktree before its place is known: a bad request, or a
/// head that could not be fetched.
pub open spec fn before_path(
    run_id: Seq<char>,
    target: TargetView,
    fetched: Result<(), CaduceusError>,
) -> Option<Fault> {
    review::or_fault(
        request_fault(run_id, target),
        match fetched {
            Err(e) => Some(e@),
            Ok(_) => None,
        },
    )
}

/// The metadata of a review worktree that is made now.
pub open spec fn metadata_of(run_id: Seq<char>, target: TargetView, now: Timestamp) -> MetadataView {
    MetadataView {
        schema_version: REVIEW_WORKTREE_SCHEMA_VERSION,
        run_id,
        repository: target.repository,
        pull_request: target.pull_request,
        head_sha: target.head_sha,
        base_sha: target.base_sha,
        base_ref: target.base_ref,
        merge_base: target.merge_base,
        created_at: now,
    }
}

/// The handle of a review worktree that is made now.
pub open spec fn handle_of(
    mirror: BareMirror,
    run_id: Seq<char>,
    target: TargetView,
    path: Seq<char>,
    now: Timestamp,
) -> WorktreeView {
    WorktreeView {
        mirror,
        run_id,
        path,
        head_sha: target.head_sha,
        metadata_path: path::joined(path, REVIEW_WORKTREE_METADATA_FILENAME@),
        created_at: now,
    }
}

/// What came of making a directory and adding a worktree.
pub open spec fn added(
    mirror: BareMirror,
    run_id: Seq<char>,
    target: TargetView,
    exists: bool,
    dir_made: Result<(), String>,
    out: GitOutput,
) -> Result<Seq<char>, Fault> {
    match review_place(mirror.path@, target.repository.owner, target.repository.repo, run_id) {
        Err(f) => Err(f),
        Ok(p) => if exists {
            Err(worktree::taken(run_id, p.1))
        } else {
            match dir_made {
                Err(e) => Err(
                    worktree::io_fault("review-create"@, "create review dir "@, p.0, e@),
                ),
                Ok(_) => match worktree::add_fault(
                    "review-create"@,
                    p.1,
                    target.head_sha,
                    out,
                ) {
                    Some(f) => Err(f),
                    None => Ok(p.1),
                },
            }
        },
    }
}

/// What is next for a review worktree that has been added.
pub enum CreateStep {
    /// It is what was asked for so far.
    Proceed,
    /// It is torn down, and the error returned.
    TearDown(CaduceusError),
}

/// Why a review worktree that has been added is torn down, if it is.
pub open spec fn step_fault(s: CreateStep) -> Option<Fault> {
    match s {
        CreateStep::Proceed => None,
        CreateStep::TearDown(e) => Some(e@),
    }
}

/// Why the checked-out commit is not the one that was asked for.
pub open spec fn head_fault(
    head_sha: Seq<char>,
    run: Result<GitOutput, CaduceusError>,
) -> Option<Fault> {
    match run {
        Err(e) => Some(e@),
        Ok(out) => if out.cancelled {
            Some(Fault::Cancelled)
        } else if repo::broke(out) {
            Some(
                Fault::Worktree {
                    context: "review-create"@,
                    stderr: "verify review HEAD failed: "@ + out.stderr@,
                },
            )
        } else if text::trim(out.stdout@) != head_sha {
            Some(
                Fault::Worktree {
                    context: "review-create"@,
                    stderr: "review worktree HEAD "@ + text::trim(out.stdout@)
                        + " != requested head_sha "@ + head_sha,
                },
            )
        } else {
            None
        },
    }
}

impl ReviewWorktree {
    /// Check a request for a review worktree, before the head is fetched.
    pub fn check_request(run_id: &str, target: &ReviewTarget) -> (r: Result<(), CaduceusError>)
        ensures
            crate::error::verdict(r) == review::unless(request_fault(run_id@, target@)),
    {
        match worktree::validate_run_id(run_id) {
            Err(e) => {
                return Err(e);
            },
            Ok(_) => {},
        }
        review::validate_review_target(target)
    }

    /// The handle and the metadata of a review worktree, from what was seen on
    /// the way: what came of fetching the head, whether its place was taken, and
    /// what came of making its directory and of adding it.
    pub fn create_review(
        mirror: &BareMirror,
        run_id: &str,
        target: &ReviewTarget,
        fetched: Result<(), CaduceusError>,
        exists: bool,
        dir_made: &Result<(), String>,
        out: &GitOutput,
        now: Timestamp,
    ) -> (r: Result<(ReviewWorktree, ReviewWorktreeMetadata), CaduceusError>)
        ensures
            match r {
                Ok(made) => before_path(run_id@, target@, fetched) is None && (added(
                    *mirror,
                    run_id@,
                    target@,
                    exists,
                    *dir_made,
                    *out,
                ) matches Ok(p) && made.0@ == handle_of(*mirror, run_id@, target@, p, now))
                    && made.1@ == metadata_of(run_id@, target@, now),
                Err(e) => match before_path(run_id@, target@, fetched) {
                    Some(f) => e@ == f,
                    None => added(*mirror, run_id@, target@, exists, *dir_made, *out) == Err::<
                        Seq<char>,
                        Fault,
                    >(e@),
                },
            },
    {
        match ReviewWorktree::check_request(run_id, target) {
            Err(e) => {
                return Err(e);
            },
            Ok(_) => {},
        }
        match fetched {
            Err(e) => {
                return Err(e);
            },
            Ok(_) => {},
        }
        let place = match review_worktree_path(
            mirror,
            target.repository.owner.as_str(),
            target.repository.repo.as_str(),
            run_id,
        ) {
            Err(e) => {
                return Err(e);
            },
            Ok(p) => p,
        };
        match worktree::Worktree::refuse_reuse(run_id, place.path.as_str(), exists) {
            Err(e) => {
                return Err(e);
            },
            Ok(_) => {},
        }
        match dir_made {
            Err(e) => {
                return Err(
                    worktree::io_error(
                        "review-create",
                        "create review dir ",
                        place.dir.as_str(),
                        e.as_str(),
                    ),
                );
            },
            Ok(_) => {},
        }
        match worktree::check_added(
            "review-create",
            place.path.as_str(),
            target.head_sha.as_str(),
            out,
        ) {
            Err(e) => {
                return Err(e);
            },
            Ok(_) => {},
        }
        let metadata = ReviewWorktreeMetadata {
            schema_version: REVIEW_WORKTREE_SCHEMA_VERSION,
            run_id: run_id.to_owned(),
            repository: target.repository.clone(),
            pull_request: target.pull_request,
            head_sha: target.head_sha.clone(),
            base_sha: target.base_sha.clone(),
            base_ref: target.base_ref.clone(),
            merge_base: target.merge_base.clone(),
            created_at: now,
        };
        let metadata_path = path::join(place.path.as_str(), REVIEW_WORKTREE_METADATA_FILENAME);
        let handle = ReviewWorktree {
            mirror: mirror.clone(),
            run_id: run_id.to_owned(),
            path: place.path,
            head_sha: target.head_sha.clone(),
            metadata_path,
            created_at: now,
        };
        Ok((handle, metadata))
    }

    /// After the metadata was written.
    pub fn metadata_written(&self, written: &Result<(), String>) -> (r: CreateStep)
        ensures
            step_fault(r) == match *written {
                Ok(_) => None,
                Err(e) => Some(
                    worktree::io_fault(
                        "review-create"@,
                        "write review metadata "@,
                        self.metadata_path@,
                        e@,
                    ),
                ),
            },
    {
        match written {
            Ok(_) => CreateStep::Proceed,
            Err(e) => CreateStep::TearDown(
                worktree::io_error(
                    "review-create",
                    "write review metadata ",
                    self.metadata_path.as_str(),
                    e.as_str(),
                ),
            ),
        }
    }

    /// The command that asks for the checked-out commit.
    pub fn head_command(&self) -> (r: Vec<String>)
        ensures
            text::texts(r@) == seq!["-C"@, self.path@, "rev-parse"@, "HEAD"@],
    {
        let parts: Vec<&str> = vec!["-C", self.path.as_str(), "rev-parse", "HEAD"];
        proof {
            assert(repo::str_views(parts@) =~= seq!["-C"@, self.path@, "rev-parse"@, "HEAD"@]);
        }
        repo::arguments(&parts)
    }

    /// After the checked-out commit was asked for: the worktree is kept only
    /// where it is the commit of the request.
    pub fn head_verified(&self, run: Result<GitOutput, CaduceusError>) -> (r: CreateStep)
        ensures
            step_fault(r) == head_fault(self.head_sha@, run),
    {
        let out = match run {
            Err(e) => {
                return CreateStep::TearDown(e);
            },
            Ok(o) => o,
        };
        if out.cancelled {
            return CreateStep::TearDown(CaduceusError::Cancelled);
        }
        if repo::has_broken(&out) {
            return CreateStep::TearDown(
                CaduceusError::Worktree {
                    context: "review-create",
                    stderr: text::cat("verify review HEAD failed: ", out.stderr.as_str()),
                },
            );
        }
        let head = text::trimmed(out.stdout.as_str());
        if !text::same(head.as_str(), self.head_sha.as_str()) {
            let mut m = text::cat("review worktree HEAD ", head.as_str());
            m.append(" != requested head_sha ");
            m.append(self.head_sha.as_str());
            return CreateStep::TearDown(
                CaduceusError::Worktree { context: "review-create", stderr: m },
            );
        }
        CreateStep::Proceed
    }

    /// The metadata of the worktree, from what was read.
    pub fn load_metadata(&self, read: MetadataRead) -> (r: Result<
        ReviewWorktreeMetadata,
        CaduceusError,
    >)
        ensures
            crate::error::seen(r) == loaded(self.metadata_path@, read),
    {
        match read {
            MetadataRead::Unreadable(e) => Err(
                worktree::io_error(
                    "review-load",
                    "read review metadata ",
                    self.metadata_path.as_str(),
                    e.as_str(),
                ),
            ),
            MetadataRead::Malformed(e) => Err(
                worktree::io_error(
                    "review-load",
                    "parse review metadata ",
                    self.metadata_path.as_str(),
                    e.as_str(),
                ),
            ),
            MetadataRead::Decoded(m) => match validate_review_worktree_metadata(&m) {
                Ok(_) => Ok(m),
                Err(e) => Err(e),
            },
        }
    }

    /// What came of removing the worktree.
    pub fn remove(&self, out: &GitOutput, swept: &Option<Result<(), String>>) -> (r: Result<
        (),
        CaduceusError,
    >)
        ensures
            crate::error::verdict(r) == review::unless(
                worktree::removal_fault("review-remove"@, self.path@, *out, *swept),
            ),
    {
        worktree::check_removed("review-remove", self.path.as_str(), out, swept)
    }

    /// The command that forgets worktrees that are gone.
    pub fn prune_command(&self) -> (r: Vec<String>)
        ensures
            text::texts(r@) == seq!["-C"@, self.mirror.path@, "worktree"@, "prune"@],
    {
        let parts: Vec<&str> = vec!["-C", self.mirror.path.as_str(), "worktree", "prune"];
        proof {
            assert(repo::str_views(parts@) =~= seq![
                "-C"@,
                self.mirror.path@,
                "worktree"@,
                "prune"@,
            ]);
        }
        repo::arguments(&parts)
    }
}

/// Metadata as it was read: the system's message, the decoder's message, or the
/// metadata.
pub enum MetadataRead {
    Unreadable(String),
    Malformed(String),
    Decoded(ReviewWorktreeMetadata),
}

/// What is wrong with metadata.
pub open spec fn metadata_fault(m: MetadataView) -> Option<Fault> {
    let scope = "review worktree metadata"@;
    if m.schema_version != REVIEW_WORKTREE_SCHEMA_VERSION {
        Some(
            Fault::Config(
                "review worktree metadata: schema_version "@ + text::dec(m.schema_version as nat)
                    + " is not supported (this daemon accepts "@ + text::dec(
                    REVIEW_WORKTREE_SCHEMA_VERSION as nat,
                ) + ")"@,
            ),
        )
    } else {
        review::or_fault(
            review::string_fault(scope, "run_id"@, m.run_id, MAX_RUN_ID_BYTES),
            review::or_fault(
                review::string_fault(
                    scope,
                    "repository.owner"@,
                    m.repository.owner,
                    MAX_REPO_COMPONENT_BYTES,
                ),
                review::or_fault(
                    review::string_fault(
                        scope,
                        "repository.repo"@,
                        m.repository.repo,
                        MAX_REPO_COMPONENT_BYTES,
                    ),
                    review::or_fault(
                        review::string_fault(scope, "head_sha"@, m.head_sha, MAX_SHA_BYTES),
                        review::or_fault(
                            review::string_fault(scope, "base_sha"@, m.base_sha, MAX_SHA_BYTES),
                            review::or_fault(
                                review::string_fault(
                                    scope,
                                    "base_ref"@,
                                    m.base_ref,
                                    MAX_REF_BYTES,
                                ),
                                review::string_fault(
                                    scope,
                                    "merge_base"@,
                                    m.merge_base,
                                    MAX_SHA_BYTES,
                                ),
                            ),
                        ),
                    ),
                ),
            ),
        )
    }
}

/// The metadata in a file, or why there is none.
pub open spec fn loaded(file: Seq<char>, read: MetadataRead) -> Result<MetadataView, Fault> {
    match read {
        MetadataRead::Unreadable(e) => Err(
            worktree::io_fault("review-load"@, "read review metadata "@, file, e@),
        ),
        MetadataRead::Malformed(e) => Err(
            worktree::io_fault("review-load"@, "parse review metadata "@, file, e@),
        ),
        MetadataRead::Decoded(m) => match metadata_fault(m@) {
            Some(f) => Err(f),
            None => Ok(m@),
        },
    }
}

/// Check metadata.
pub fn validate_review_worktree_metadata(m: &ReviewWorktreeMetadata) -> (r: Result<
    (),
    CaduceusError,
>)
    ensures
        crate::error::verdict(r) == review::unless(metadata_fault(m@)),
{
    let scope = "review worktree metadata";
    if m.schema_version != REVIEW_WORKTREE_SCHEMA_VERSION {
        let mut s = text::cat(
            "review worktree metadata: schema_version ",
            text::decimal(m.schema_version as u64).as_str(),
        );
        s.append(" is not supported (this daemon accepts ");
        s.append(text::decimal(REVIEW_WORKTREE_SCHEMA_VERSION as u64).as_str());
        s.append(")");
        return Err(CaduceusError::Config(s));
    }
    match review::required_string(scope, "run_id", m.run_id.as_str(), MAX_RUN_ID_BYTES) {
        Err(e) => {
            return Err(e);
        },
        Ok(_) => {},
    }
    match review::required_string(
        scope,
        "repository.owner",
        m.repository.owner.as_str(),
        MAX_REPO_COMPONENT_BYTES,
    ) {
        Err(e) => {
            return Err(e);
        },
        Ok(_) => {},
    }
    match review::required_string(
        scope,
        "repository.repo",
        m.repository.repo.as_str(),
        MAX_REPO_COMPONENT_BYTES,
    ) {
        Err(e) => {
            return Err(e);
        },
        Ok(_) => {},
    }
    match review::required_string(scope, "head_sha", m.head_sha.as_str(), MAX_SHA_BYTES) {
        Err(e) => {
            return Err(e);
        },
        Ok(_) => {},
    }
    match review::required_string(scope, "base_sha", m.base_sha.as_str(), MAX_SHA_BYTES) {
        Err(e) => {
            return Err(e);
        },
        Ok(_) => {},
    }
    match review::required_string(scope, "base_ref", m.base_ref.as_str(), MAX_REF_BYTES) {
        Err(e) => {
            return Err(e);
        },
        Ok(_) => {},
    }
    review::required_string(scope, "merge_base", m.merge_base.as_str(), MAX_SHA_BYTES)
}

// ---------------------------------------------------------------------------
// The list of worktrees
// ---------------------------------------------------------------------------

/// A worktree that git lists.
#[derive(Debug)]
pub struct ReviewPorcelainEntry {
    pub path: String,
    pub head: String,
    pub detached: bool,
}

/// A [`ReviewPorcelainEntry`] with its texts as character sequences.
pub struct EntryView {
    pub path: Seq<char>,
    pub head: Seq<char>,
    pub detached: bool,
}

impl View for ReviewPorcelainEntry {
    type V = EntryView;

    open spec fn view(&self) -> EntryView {
        EntryView { path: self.path@, head: self.head@, detached: self.detached }
    }
}

/// What has been read of a list: the entries that are done, and the one that is
/// not.
pub struct Listing {
    pub done: Seq<EntryView>,
    pub current: Option<EntryView>,
}

/// The entries of a listing, the current one last.
pub open spec fn flushed(l: Listing) -> Seq<EntryView> {
    match l.current {
        Some(e) => l.done.push(e),
        None => l.done,
    }
}

/// The listing after one more line: an empty line ends an entry, `worktree`
/// begins one, and `HEAD` and `detached` say more of it.
pub open spec fn after_line(l: Listing, line: Seq<char>) -> Listing {
    if line.len() == 0 {
        Listing { done: flushed(l), current: None }
    } else {
        match text::following(line, "worktree "@) {
            Some(rest) => Listing {
                done: flushed(l),
                current: Some(
                    EntryView { path: text::trim(rest), head: Seq::empty(), detached: false },
                ),
            },
            None => match l.current {
                None => l,
                Some(e) => match text::following(line, "HEAD "@) {
                    Some(rest) => Listing {
                        done: l.done,
                        current: Some(EntryView { head: text::trim(rest), ..e }),
                    },
                    None => if "detached"@.is_prefix_of(line) {
                        Listing {
                            done: l.done,
                            current: Some(EntryView { detached: true, ..e }),
                        }
                    } else {
                        l
                    },
                },
            },
        }
    }
}

/// The listing of the first `n` lines.
pub open spec fn listing(found: Seq<Seq<char>>, n: int) -> Listing
    decreases n,
{
    if n <= 0 {
        Listing { done: Seq::empty(), current: None }
    } else {
        after_line(listing(found, n - 1), found[n - 1])
    }
}

/// The worktrees in the output of `git worktree list --porcelain`.
pub open spec fn worktrees_in(stdout: Seq<char>) -> Seq<EntryView> {
    let found = text::lines(stdout);
    flushed(listing(found, found.len() as int))
}

/// Entries by their views.
pub open spec fn entry_views(v: Seq<ReviewPorcelainEntry>) -> Seq<EntryView> {
    v.map_values(|e: ReviewPorcelainEntry| e@)
}

/// An entry that is being read, by its view.
pub open spec fn current_seen(e: Option<ReviewPorcelainEntry>) -> Option<EntryView> {
    match e {
        Some(e) => Some(e@),
        None => None,
    }
}

fn flush(entries: &mut Vec<ReviewPorcelainEntry>, current: Option<ReviewPorcelainEntry>)
    ensures
        entry_views(final(entries)@) == flushed(
            Listing { done: entry_views(old(entries)@), current: current_seen(current) },
        ),
{
    match current {
        Some(e) => {
            let ghost before = entries@;
            let ghost added = e@;
            entries.push(e);
            proof {
                assert(entry_views(entries@) =~= entry_views(before).push(added));
            }
        },
        None => {},
    }
}

/// The worktrees in the output of `git worktree list --porcelain`.
pub fn parse_review_porcelain(stdout: &str) -> (r: Vec<ReviewPorcelainEntry>)
    ensures
        entry_views(r@) == worktrees_in(stdout@),
{
    let found = text::lines_of(stdout);
    let ghost all = text::lines(stdout@);
    let mut entries: Vec<ReviewPorcelainEntry> = Vec::new();
    let mut current: Option<ReviewPorcelainEntry> = None;
    let mut i: usize = 0;
    proof {
        assert(all.len() == found.len());
        assert(entry_views(entries@) =~= listing(all, 0).done);
    }
    while i < found.len()
        invariant
            all == text::texts(found@),
            i <= found.len(),
            entry_views(entries@) == listing(all, i as int).done,
            current_seen(current) == listing(all, i as int).current,
        decreases found.len() - i,
    {
        let line = found[i].as_str();
        proof {
            assert(all[i as int] == line@);
            assert(listing(all, i + 1) == after_line(listing(all, i as int), line@));
        }
        if line.is_empty() {
            flush(&mut entries, current);
            current = None;
        } else {
            match text::after_prefix(line, "worktree ") {
                Some(rest) => {
                    flush(&mut entries, current);
                    current = Some(
                        ReviewPorcelainEntry {
                            path: text::trimmed(rest.as_str()),
                            head: String::new(),
                            detached: false,
                        },
                    );
                    proof {
                        assert(current_seen(current)->0.head =~= Seq::<char>::empty());
                    }
                },
                None => {
                    current = match current {
                        None => None,
                        Some(e) => Some(
                            match text::after_prefix(line, "HEAD ") {
                                Some(rest) => ReviewPorcelainEntry {
                                    path: e.path,
                                    head: text::trimmed(rest.as_str()),
                                    detached: e.detached,
                                },
                                None => if text::begins(line, "detached") {
                                    ReviewPorcelainEntry {
                                        path: e.path,
                                        head: e.head,
                                        detached: true,
                                    }
                                } else {
                                    e
                                },
                            },
                        ),
                    };
                },
            }
        }
        i += 1;
    }
    flush(&mut entries, current);
    entries
}

/// The worktrees of a mirror, or why they could not be listed.
pub open spec fn list_of(out: GitOutput) -> Result<Seq<EntryView>, Fault> {
    if out.cancelled {
        Err(Fault::Cancelled)
    } else if repo::broke(out) {
        Err(
            Fault::Worktree {
                context: "review-gc"@,
                stderr: "git worktree list --porcelain failed: "@ + out.stderr@,
            },
        )
    } else {
        Ok(worktrees_in(out.stdout@))
    }
}

/// The worktrees of a mirror, from what git said.
pub fn list_review_worktrees_porcelain(out: &GitOutput) -> (r: Result<
    Vec<ReviewPorcelainEntry>,
    CaduceusError,
>)
    ensures
        match r {
            Ok(v) => list_of(*out) == Ok::<Seq<EntryView>, Fault>(entry_views(v@)),
            Err(e) => list_of(*out) == Err::<Seq<EntryView>, Fault>(e@),
        },
{
    if out.cancelled {
        return Err(CaduceusError::Cancelled);
    }
    if repo::has_broken(out) {
        return Err(
            CaduceusError::Worktree {
                context: "review-gc",
                stderr: text::cat("git worktree list --porcelain failed: ", out.stderr.as_str()),
            },
        );
    }
    Ok(parse_review_porcelain(out.stdout.as_str()))
}

// ---------------------------------------------------------------------------
// Garbage collection
// ---------------------------------------------------------------------------

/// Owner and repository of a watched repository.
pub open spec fn watched(s: Seq<char>) -> Option<(Seq<char>, Seq<char>)> {
    let k = text::next_char(s, '/', 0);
    if 0 < k && k + 1 < s.len() {
        Some((s.take(k), s.skip(k + 1)))
    } else {
        None
    }
}

/// Owner and repository of a watched repository.
pub fn parse_watched_repo(s: &str) -> (r: Option<RepositoryId>)
    ensures
        match r {
            Some(id) => watched(s@) == Some((id@.owner, id@.repo)),
            None => watched(s@) is None,
        },
{
    let chars = text::chars_of(s);
    let mut k: usize = 0;
    while k < chars.len() && chars[k] != '/'
        invariant
            chars@ == s@,
            k <= chars.len(),
            text::next_char(s@, '/', 0) == text::next_char(s@, '/', k as int),
        decreases chars.len() - k,
    {
        k += 1;
    }
    if k == 0 || k >= chars.len() || k + 1 >= chars.len() {
        return None;
    }
    let owner = text::text_of(&chars, 0, k);
    let repo = text::text_of(&chars, k + 1, chars.len());
    proof {
        assert(owner@ =~= s@.take(k as int));
        assert(repo@ =~= s@.skip(k + 1));
    }
    Some(RepositoryId { owner, repo })
}

/// A repository whose review worktrees are swept.
#[derive(Debug)]
pub struct GcTarget {
    pub repository: RepositoryId,
    /// The directory of its review worktrees.
    pub review_dir: String,
    pub mirror: BareMirror,
}

/// A [`GcTarget`] with its texts as character sequences.
pub struct GcTargetView {
    pub owner: Seq<char>,
    pub repo: Seq<char>,
    pub review_dir: Seq<char>,
    pub mirror_path: Seq<char>,
    pub mirror_remote: Seq<char>,
}

impl View for GcTarget {
    type V = GcTargetView;

    open spec fn view(&self) -> GcTargetView {
        GcTargetView {
            owner: self.repository@.owner,
            repo: self.repository@.repo,
            review_dir: self.review_dir@,
            mirror_path: self.mirror.path@,
            mirror_remote: self.mirror.remote_url@,
        }
    }
}

/// Targets by their views.
pub open spec fn target_views(v: Seq<GcTarget>) -> Seq<GcTargetView> {
    v.map_values(|t: GcTarget| t@)
}

/// The targets among the first `n` watched repositories; entries that name none
/// are skipped. A sweep needs no remote.
pub open spec fn targets(root: Seq<char>, repos: Seq<Seq<char>>, n: int) -> Seq<GcTargetView>
    decreases n,
{
    if n <= 0 {
        Seq::empty()
    } else {
        let before = targets(root, repos, n - 1);
        match watched(repos[n - 1]) {
            None => before,
            Some(id) => before.push(
                GcTargetView {
                    owner: id.0,
                    repo: id.1,
                    review_dir: review_dir(root, id.0, id.1),
                    mirror_path: mirror::mirror_place(root, id.0, id.1),
                    mirror_remote: Seq::empty(),
                },
            ),
        }
    }
}

/// The repositories whose review worktrees are swept. A storage of which a part
/// is a symbolic link is refused.
pub fn gc_targets(cfg: &Config, links: repo::storage::StorageLinks) -> (r: Result<
    Vec<GcTarget>,
    CaduceusError,
>)
    ensures
        ({
            let root = cfg.repo_storage_root@;
            match r {
                Ok(v) => !(links.root || links.mirrors || links.worktrees) && target_views(v@)
                    == targets(root, text::texts(cfg.watched_repos@), cfg.watched_repos.len() as int),
                Err(e) => if links.root {
                    e@ == Fault::SymlinkedStorageRoot(root)
                } else if links.mirrors {
                    e@ == Fault::SymlinkedStorageRoot(path::joined(root, "mirrors"@))
                } else {
                    links.worktrees && e@ == Fault::SymlinkedStorageRoot(
                        path::joined(root, "worktrees"@),
                    )
                },
            }
        }),
{
    let storage = repo::storage::Storage::new(cfg.repo_storage_root.clone());
    match storage.validate_root(links) {
        Err(e) => {
            return Err(e);
        },
        Ok(_) => {},
    }
    let root = cfg.repo_storage_root.as_str();
    let ghost repos = text::texts(cfg.watched_repos@);
    let mut out: Vec<GcTarget> = Vec::new();
    let mut i: usize = 0;
    proof {
        assert(target_views(out@) =~= targets(root@, repos, 0));
    }
    while i < cfg.watched_repos.len()
        invariant
            repos == text::texts(cfg.watched_repos@),
            root@ == cfg.repo_storage_root@,
            i <= cfg.watched_repos.len(),
            target_views(out@) == targets(root@, repos, i as int),
        decreases cfg.watched_repos.len() - i,
    {
        proof {
            assert(repos[i as int] == cfg.watched_repos@[i as int]@);
        }
        match parse_watched_repo(cfg.watched_repos[i].as_str()) {
            Some(id) => {
                let target = GcTarget {
                    review_dir: review_repo_dir(root, id.owner.as_str(), id.repo.as_str()),
                    mirror: BareMirror::of(root, id.owner.as_str(), id.repo.as_str(), ""),
                    repository: id,
                };
                let ghost before = out@;
                let ghost added = target@;
                out.push(target);
                proof {
                    reveal_strlit("");
                    assert(added.mirror_remote =~= Seq::<char>::empty());
                    assert(target_views(out@) =~= target_views(before).push(added));
                }
            },
            None => {},
        }
        i += 1;
    }
    Ok(out)
}

/// A file in the directory of claims, and the worktree that it names, as its
/// canonical path.
#[derive(Debug)]
pub struct ClaimObservation {
    pub file_name: String,
    pub worktree: Option<String>,
}

/// A file in the directory of runs, when it was last touched, and the canonical
/// path of the worktree of its run, where that is a directory.
#[derive(Debug)]
pub struct HeartbeatObservation {
    pub file_name: String,
    pub mtime: Option<Timestamp>,
    pub worktree: Option<String>,
}

/// The worktrees that the first `n` claims name.
pub open spec fn claimed(claims: Seq<ClaimObservation>, n: int) -> Seq<Seq<char>>
    decreases n,
{
    if n <= 0 {
        Seq::empty()
    } else {
        let before = claimed(claims, n - 1);
        let c = claims[n - 1];
        match c.worktree {
            Some(w) => if ".claim"@.is_suffix_of(c.file_name@) {
                before.push(w@)
            } else {
                before
            },
            None => before,
        }
    }
}

/// The heartbeat is one, and no older than the cutoff.
pub open spec fn is_fresh(h: HeartbeatObservation, cutoff: Timestamp) -> bool {
    ".heartbeat"@.is_suffix_of(h.file_name@) && (h.mtime matches Some(t) && !t.lt(cutoff))
}

/// The worktrees that the fresh ones among the first `n` heartbeats protect.
pub open spec fn beating(
    beats: Seq<HeartbeatObservation>,
    cutoff: Timestamp,
    n: int,
) -> Seq<Seq<char>>
    decreases n,
{
    if n <= 0 {
        Seq::empty()
    } else {
        let before = beating(beats, cutoff, n - 1);
        let h = beats[n - 1];
        match h.worktree {
            Some(w) => if is_fresh(h, cutoff) {
                before.push(w@)
            } else {
                before
            },
            None => before,
        }
    }
}

/// The worktree of the run that a heartbeat stands for.
pub fn heartbeat_worktree(root: &str, owner: &str, repo: &str, file_name: &str) -> (r: String)
    ensures
        r@ == path::joined(
            review_dir(root@, owner@, repo@),
            text::without_suffixes(file_name@, ".heartbeat"@),
        ),
{
    let run_id = text::strip_suffixes(file_name, ".heartbeat");
    path::join(review_repo_dir(root, owner, repo).as_str(), run_id.as_str())
}

/// A directory that could not be read.
pub open spec fn unread(dir: Seq<char>, e: Seq<char>) -> Fault {
    Fault::Worktree { context: "review-gc"@, stderr: "read_dir "@ + dir + ": "@ + e }
}

fn unread_error(dir: &str, e: &str) -> (r: CaduceusError)
    ensures
        r@ == unread(dir@, e@),
{
    let mut m = text::cat("read_dir ", dir);
    m.append(": ");
    m.append(e);
    CaduceusError::Worktree { context: "review-gc", stderr: m }
}

/// The worktrees that are in use, or why that cannot be told.
pub open spec fn in_use(
    state_dir: Seq<char>,
    claims: Result<Vec<ClaimObservation>, String>,
    beats: Result<Vec<HeartbeatObservation>, String>,
    now: Timestamp,
) -> Result<Seq<Seq<char>>, Fault> {
    match claims {
        Err(e) => Err(unread(path::joined(state_dir, "claims"@), e@)),
        Ok(c) => match beats {
            Err(e) => Err(unread(path::joined(state_dir, "runs"@), e@)),
            Ok(b) => Ok(
                claimed(c@, c@.len() as int) + beating(
                    b@,
                    now.plus(-(HEARTBEAT_FRESH_SECONDS as int)),
                    b@.len() as int,
                ),
            ),
        },
    }
}

/// The worktrees that are in use: those that a claim names, and those whose run
/// has a fresh heartbeat. A directory that is not there holds nothing.
pub fn collect_review_in_use_paths(
    cfg: &Config,
    claims: &Result<Vec<ClaimObservation>, String>,
    beats: &Result<Vec<HeartbeatObservation>, String>,
    now: Timestamp,
) -> (r: Result<Vec<String>, CaduceusError>)
    requires
        now.reaches(-(HEARTBEAT_FRESH_SECONDS as int)),
    ensures
        match r {
            Ok(v) => in_use(cfg.state_dir@, *claims, *beats, now) == Ok::<Seq<Seq<char>>, Fault>(
                text::texts(v@),
            ),
            Err(e) => in_use(cfg.state_dir@, *claims, *beats, now) == Err::<
                Seq<Seq<char>>,
                Fault,
            >(e@),
        },
{
    let state_dir = cfg.state_dir.as_str();
    let claims = match claims {
        Err(e) => {
            return Err(unread_error(path::join(state_dir, "claims").as_str(), e.as_str()));
        },
        Ok(c) => c,
    };
    let beats = match beats {
        Err(e) => {
            return Err(unread_error(path::join(state_dir, "runs").as_str(), e.as_str()));
        },
        Ok(b) => b,
    };
    let cutoff = now.plus_seconds(-(HEARTBEAT_FRESH_SECONDS as i64));
    let mut out: Vec<String> = Vec::new();
    let mut i: usize = 0;
    proof {
        assert(text::texts(out@) =~= claimed(claims@, 0));
    }
    while i < claims.len()
        invariant
            i <= claims.len(),
            text::texts(out@) == claimed(claims@, i as int),
        decreases claims.len() - i,
    {
        match &claims[i].worktree {
            Some(w) => {
                if text::ends(claims[i].file_name.as_str(), ".claim") {
                    let ghost before = out@;
                    out.push(w.clone());
                    proof {
                        assert(text::texts(out@) =~= text::texts(before).push(w@));
                    }
                }
            },
            None => {},
        }
        i += 1;
    }
    let ghost first = text::texts(out@);
    let mut k: usize = 0;
    proof {
        assert(first + beating(beats@, cutoff, 0) =~= first);
    }
    while k < beats.len()
        invariant
            k <= beats.len(),
            text::texts(out@) == first + beating(beats@, cutoff, k as int),
        decreases beats.len() - k,
    {
        let h = &beats[k];
        let fresh = match &h.mtime {
            Some(t) => text::ends(h.file_name.as_str(), ".heartbeat") && !t.is_before(&cutoff),
            None => false,
        };
        proof {
            assert(fresh == is_fresh(*h, cutoff));
        }
        match &h.worktree {
            Some(w) => {
                if fresh {
                    let ghost before = out@;
                    out.push(w.clone());
                    proof {
                        assert(text::texts(out@) =~= text::texts(before).push(w@));
                        assert(text::texts(out@) =~= first + beating(beats@, cutoff, k + 1));
                    }
                }
            },
            None => {},
        }
        k += 1;
    }
    Ok(out)
}

/// A worktree that git lists, its canonical path, and when it was last touched.
#[derive(Debug)]
pub struct ListedWorktree {
    pub entry: ReviewPorcelainEntry,
    pub canonical: String,
    pub mtime: Option<Timestamp>,
}

/// The time is known, and not after the cutoff.
pub open spec fn old_enough(mtime: Option<Timestamp>, cutoff: Timestamp) -> bool {
    mtime matches Some(t) && !cutoff.lt(t)
}

fn is_old_enough(mtime: &Option<Timestamp>, cutoff: &Timestamp) -> (r: bool)
    ensures
        r == old_enough(*mtime, *cutoff),
{
    match mtime {
        Some(t) => !cutoff.is_before(t),
        None => false,
    }
}

/// The worktree is swept: it is detached, not in use, and old.
pub open spec fn is_stale(w: ListedWorktree, used: Seq<Seq<char>>, cutoff: Timestamp) -> bool {
    w.entry.detached && !path::among(used, w.canonical@) && old_enough(w.mtime, cutoff)
}

/// The handle by which a listed worktree is removed.
pub open spec fn gc_handle(mirror: BareMirror, w: ListedWorktree) -> WorktreeView {
    WorktreeView {
        mirror,
        run_id: match path::file_name(w.entry.path@) {
            Some(n) => n,
            None => Seq::empty(),
        },
        path: w.entry.path@,
        head_sha: w.entry.head@,
        metadata_path: path::joined(w.entry.path@, REVIEW_WORKTREE_METADATA_FILENAME@),
        created_at: w.mtime->0,
    }
}

/// The stale ones among the first `n` listed worktrees, in order.
pub open spec fn stale(
    mirror: BareMirror,
    listed: Seq<ListedWorktree>,
    used: Seq<Seq<char>>,
    cutoff: Timestamp,
    n: int,
) -> Seq<WorktreeView>
    decreases n,
{
    if n <= 0 {
        Seq::empty()
    } else {
        let before = stale(mirror, listed, used, cutoff, n - 1);
        if is_stale(listed[n - 1], used, cutoff) {
            before.push(gc_handle(mirror, listed[n - 1]))
        } else {
            before
        }
    }
}

/// An entry of the directory of a repository's review worktrees, its canonical
/// path, and when it was last touched.
#[derive(Debug)]
pub struct DirObservation {
    pub path: String,
    pub file_name: String,
    pub is_symlink: bool,
    pub is_dir: bool,
    pub canonical: String,
    pub mtime: Option<Timestamp>,
}

/// The entry is swept: it is a directory and no link, not hidden, not
/// registered, not in use, and old.
pub open spec fn is_orphan(
    d: DirObservation,
    registered: Seq<Seq<char>>,
    used: Seq<Seq<char>>,
    cutoff: Timestamp,
) -> bool {
    !d.is_symlink && d.is_dir && !"."@.is_prefix_of(d.file_name@) && !path::among(
        registered,
        d.canonical@,
    ) && !path::among(used, d.canonical@) && old_enough(d.mtime, cutoff)
}

/// The orphans among the first `n` entries, in order.
pub open spec fn orphans(
    dirs: Seq<DirObservation>,
    registered: Seq<Seq<char>>,
    used: Seq<Seq<char>>,
    cutoff: Timestamp,
    n: int,
) -> Seq<Seq<char>>
    decreases n,
{
    if n <= 0 {
        Seq::empty()
    } else {
        let before = orphans(dirs, registered, used, cutoff, n - 1);
        if is_orphan(dirs[n - 1], registered, used, cutoff) {
            before.push(dirs[n - 1].path@)
        } else {
            before
        }
    }
}

/// The directories that git does not know and that may be removed.
pub fn collect_review_orphans(
    dirs: &Vec<DirObservation>,
    registered_paths: &Vec<String>,
    in_use: &Vec<String>,
    age_cutoff: Timestamp,
) -> (r: Vec<String>)
    ensures
        text::texts(r@) == orphans(
            dirs@,
            text::texts(registered_paths@),
            text::texts(in_use@),
            age_cutoff,
            dirs.len() as int,
        ),
{
    let ghost registered = text::texts(registered_paths@);
    let ghost used = text::texts(in_use@);
    let mut out: Vec<String> = Vec::new();
    let mut i: usize = 0;
    proof {
        assert(text::texts(out@) =~= orphans(dirs@, registered, used, age_cutoff, 0));
    }
    while i < dirs.len()
        invariant
            registered == text::texts(registered_paths@),
            used == text::texts(in_use@),
            i <= dirs.len(),
            text::texts(out@) == orphans(dirs@, registered, used, age_cutoff, i as int),
        decreases dirs.len() - i,
    {
        let d = &dirs[i];
        if !d.is_symlink && d.is_dir && !text::begins(d.file_name.as_str(), ".")
            && !path::is_among(registered_paths, d.canonical.as_str()) && !path::is_among(
            in_use,
            d.canonical.as_str(),
        ) && is_old_enough(&d.mtime, &age_cutoff) {
            let ghost before = out@;
            out.push(d.path.clone());
            proof {
                assert(text::texts(out@) =~= text::texts(before).push(d.path@));
            }
        }
        i += 1;
    }
    out
}

/// What a sweep of one repository removes: worktrees through git, and
/// directories that git does not know.
pub struct GcPlan {
    pub worktrees: Vec<ReviewWorktree>,
    pub orphans: Vec<String>,
}

/// So many days in seconds, the days taken as a signed number.
pub open spec fn day_span(days: u64) -> int {
    columns::signed(days) * 86400
}

/// The time before which a worktree is old.
pub open spec fn age_cutoff(now: Timestamp, older_than_days: u64) -> Timestamp {
    now.plus(-day_span(older_than_days))
}

/// The canonical paths of listed worktrees.
pub open spec fn canonical_paths(listed: Seq<ListedWorktree>) -> Seq<Seq<char>> {
    listed.map_values(|w: ListedWorktree| w.canonical@)
}

/// Handles by their views.
pub open spec fn handle_views(v: Seq<ReviewWorktree>) -> Seq<WorktreeView> {
    v.map_values(|w: ReviewWorktree| w@)
}

/// What a sweep of one repository removes: the detached worktrees and the
/// directories that git does not know, where they are not in use and were last
/// touched at least so many days ago.
pub fn gc_review_worktrees(
    mirror: &BareMirror,
    listed: &Vec<ListedWorktree>,
    dirs: &Vec<DirObservation>,
    in_use: &Vec<String>,
    older_than_days: u64,
    now: Timestamp,
) -> (r: GcPlan)
    requires
        now.reaches(-day_span(older_than_days)),
    ensures
        handle_views(r.worktrees@) == stale(
            *mirror,
            listed@,
            text::texts(in_use@),
            age_cutoff(now, older_than_days),
            listed.len() as int,
        ),
        text::texts(r.orphans@) == orphans(
            dirs@,
            canonical_paths(listed@),
            text::texts(in_use@),
            age_cutoff(now, older_than_days),
            dirs.len() as int,
        ),
{
    let days: i64 = columns::to_signed(older_than_days);
    let cutoff = now.plus_seconds(-(days * 86400));
    let ghost used = text::texts(in_use@);
    let mut registered: Vec<String> = Vec::new();
    let mut worktrees: Vec<ReviewWorktree> = Vec::new();
    let mut i: usize = 0;
    proof {
        assert(handle_views(worktrees@) =~= stale(*mirror, listed@, used, cutoff, 0));
    }
    while i < listed.len()
        invariant
            used == text::texts(in_use@),
            i <= listed.len(),
            registered.len() == i,
            forall|j: int| 0 <= j < i ==> (#[trigger] registered@[j])@ == listed@[j].canonical@,
            handle_views(worktrees@) == stale(*mirror, listed@, used, cutoff, i as int),
        decreases listed.len() - i,
    {
        let w = &listed[i];
        registered.push(w.canonical.clone());
        if w.entry.detached && !path::is_among(in_use, w.canonical.as_str()) && is_old_enough(
            &w.mtime,
            &cutoff,
        ) {
            match &w.mtime {
                Some(t) => {
                    let run_id = match path::file_name_of(w.entry.path.as_str()) {
                        Some(n) => n,
                        None => String::new(),
                    };
                    let handle = ReviewWorktree {
                        mirror: mirror.clone(),
                        run_id,
                        path: w.entry.path.clone(),
                        head_sha: w.entry.head.clone(),
                        metadata_path: path::join(
                            w.entry.path.as_str(),
                            REVIEW_WORKTREE_METADATA_FILENAME,
                        ),
                        created_at: *t,
                    };
                    let ghost before = worktrees@;
                    let ghost added = handle@;
                    worktrees.push(handle);
                    proof {
                        assert(added.run_id =~= gc_handle(*mirror, *w).run_id);
                        assert(handle_views(worktrees@) =~= handle_views(before).push(added));
                    }
                },
                None => {},
            }
        }
        i += 1;
    }
    proof {
        assert(text::texts(registered@) =~= canonical_paths(listed@));
    }
    let orphans = collect_review_orphans(dirs, &registered, in_use, cutoff);
    GcPlan { worktrees, orphans }
}

// ---------------------------------------------------------------------------
// Laws
// ---------------------------------------------------------------------------

/// A review worktree that is kept has the requested commit checked out.
pub proof fn law_a_kept_worktree_is_at_the_requested_head(
    head_sha: Seq<char>,
    run: Result<GitOutput, CaduceusError>,
)
    requires
        head_fault(head_sha, run) is None,
    ensures
        run matches Ok(out) && text::trim(out.stdout@) == head_sha,
{
}

/// What a sweep removes through git is detached, not in use, and old.
pub proof fn law_a_sweep_spares_worktrees_in_use(
    mirror: BareMirror,
    listed: Seq<ListedWorktree>,
    used: Seq<Seq<char>>,
    cutoff: Timestamp,
    n: int,
    i: int,
)
    requires
        n <= listed.len(),
        0 <= i < stale(mirror, listed, used, cutoff, n).len(),
    ensures
        exists|k: int|
            0 <= k < n && is_stale(#[trigger] listed[k], used, cutoff) && stale(
                mirror,
                listed,
                used,
                cutoff,
                n,
            )[i] == gc_handle(mirror, listed[k]),
    decreases n,
{
    if n > 0 {
        let before = stale(mirror, listed, used, cutoff, n - 1);
        if i < before.len() {
            law_a_sweep_spares_worktrees_in_use(mirror, listed, used, cutoff, n - 1, i);
        } else {
            assert(is_stale(listed[n - 1], used, cutoff));
        }
    }
}

/// What a sweep removes by itself is a directory that git does not know, no
/// link, not in use, and old.
pub proof fn law_a_sweep_spares_what_is_not_an_orphan(
    dirs: Seq<DirObservation>,
    registered: Seq<Seq<char>>,
    used: Seq<Seq<char>>,
    cutoff: Timestamp,
    n: int,
    i: int,
)
    requires
        n <= dirs.len(),
        0 <= i < orphans(dirs, registered, used, cutoff, n).len(),
    ensures
        exists|k: int|
            0 <= k < n && is_orphan(#[trigger] dirs[k], registered, used, cutoff) && orphans(
                dirs,
                registered,
                used,
                cutoff,
                n,
            )[i] == dirs[k].path@,
    decreases n,
{
    if n > 0 {
        let before = orphans(dirs, registered, used, cutoff, n - 1);
        if i < before.len() {
            law_a_sweep_spares_what_is_not_an_orphan(dirs, registered, used, cutoff, n - 1, i);
        } else {
            assert(is_orphan(dirs[n - 1], registered, used, cutoff));
        }
    }
}

/// The metadata of a review worktree that was made is accepted when it is read
/// back.
pub proof fn law_metadata_reads_back(
    run_id: Seq<char>,
    target: TargetView,
    now: Timestamp,
    file: Seq<char>,
    m: ReviewWorktreeMetadata,
)
    requires
        request_fault(run_id, target) is None,
        m@ == metadata_of(run_id, target, now),
    ensures
        loaded(file, MetadataRead::Decoded(m)) == Ok::<MetadataView, Fault>(m@),
{
}

/// A review worktree of a mirror that is where mirrors go is under the same
/// storage, in the directory of its repository.
pub proof fn law_a_review_worktree_is_under_the_storage(
    root: Seq<char>,
    owner: Seq<char>,
    name: Seq<char>,
    run_id: Seq<char>,
)
    requires
        root.len() > 0,
        path::is_name(owner),
        !name.contains('/'),
    ensures
        review_place(mirror::mirror_place(root, owner, name), owner, name, run_id) == Ok::<
            (Seq<char>, Seq<char>),
            Fault,
        >(
            (
                review_dir(path::tidy(root), owner, name),
                path::joined(review_dir(path::tidy(root), owner, name), run_id),
            ),
        ),
{
    worktree::law_a_mirror_knows_its_storage(root, owner, name);
}

/// The review worktrees of a repository stand in a directory of their own.
pub proof fn law_review_worktrees_have_their_place(
    root: Seq<char>,
    owner: Seq<char>,
    repo: Seq<char>,
)
    ensures
        review_dir(root, owner, repo) == path::joined(
            path::joined(path::joined(path::joined(root, "worktrees"@), "review"@), owner),
            repo,
        ),
{
}

/// The metadata of a review is what the target says, and the worktree is at the
/// target's head with its metadata inside.
pub proof fn law_a_review_worktree_is_of_its_target(
    mirror: BareMirror,
    run_id: Seq<char>,
    target: TargetView,
    path: Seq<char>,
    now: Timestamp,
)
    ensures
        ({
            let m = metadata_of(run_id, target, now);
            let w = handle_of(mirror, run_id, target, path, now);
            &&& m.schema_version == 1
            &&& m.run_id == run_id
            &&& m.repository == target.repository
            &&& m.pull_request == target.pull_request
            &&& m.head_sha == target.head_sha
            &&& m.base_sha == target.base_sha
            &&& m.base_ref == target.base_ref
            &&& m.merge_base == target.merge_base
            &&& m.created_at == now
            &&& w.mirror == mirror
            &&& w.run_id == run_id
            &&& w.path == path
            &&& w.head_sha == target.head_sha
            &&& w.metadata_path == path::joined(path, "review-worktree.json"@)
            &&& w.created_at == now
        }),
{
}

/// A review worktree is added exactly when it has a place that is free, its
/// directory was made and the command succeeded.
pub proof fn law_a_review_worktree_is_added_when_all_goes_well(
    mirror: BareMirror,
    run_id: Seq<char>,
    target: TargetView,
    exists: bool,
    dir_made: Result<(), String>,
    out: GitOutput,
)
    ensures
        ({
            let p = review_place(
                mirror.path@,
                target.repository.owner,
                target.repository.repo,
                run_id,
            );
            let r = added(mirror, run_id, target, exists, dir_made, out);
            &&& r is Ok <==> p is Ok && !exists && dir_made is Ok && !out.cancelled
                && !out.timed_out && out.status == Some(0i32)
            &&& r is Ok ==> r->Ok_0 == p->Ok_0.1
            &&& p is Ok && exists ==> r == Err::<Seq<char>, Fault>(
                Fault::WorktreeReuseAfterFailure {
                    run_id,
                    worktree_path: p->Ok_0.1,
                    last_state: "exists"@,
                },
            )
        }),
{
}

/// A worktree is kept exactly when the check ran and printed the requested head.
pub proof fn law_a_worktree_at_its_head_is_kept(
    head_sha: Seq<char>,
    run: Result<GitOutput, CaduceusError>,
)
    ensures
        head_fault(head_sha, run) is None <==> (run matches Ok(out) && !out.cancelled
            && !out.timed_out && out.status == Some(0i32) && text::trim(out.stdout@) == head_sha),
        run matches Ok(out) ==> (!out.cancelled && !out.timed_out && out.status == Some(0i32)
            && text::trim(out.stdout@) != head_sha ==> head_fault(head_sha, run) == Some(
            Fault::Worktree {
                context: "review-create"@,
                stderr: "review worktree HEAD "@ + text::trim(out.stdout@)
                    + " != requested head_sha "@ + head_sha,
            },
        )),
{
}

/// Nothing is done for a request with a bad run name or target, or whose head could
/// not be fetched.
pub proof fn law_a_bad_request_is_refused(
    run_id: Seq<char>,
    target: TargetView,
    fetched: Result<(), CaduceusError>,
)
    ensures
        before_path(run_id, target, fetched) is None <==> worktree::run_id_fault(run_id) is None
            && review::target_fault(target) is None && fetched is Ok,
        worktree::run_id_fault(run_id) matches Some(f) ==> before_path(run_id, target, fetched)
            == Some(f),
        worktree::run_id_fault(run_id) is None ==> (review::target_fault(target) matches Some(f)
            ==> before_path(run_id, target, fetched) == Some(f)),
{
}

/// Metadata is read exactly when it parses, is of the first version and its texts
/// are within their caps; then it is read as it is.
pub proof fn law_sound_metadata_is_read(file: Seq<char>, read: MetadataRead)
    ensures
        loaded(file, read) is Ok <==> (read matches MetadataRead::Decoded(m) && m.schema_version
            == 1 && metadata_fault(m@) is None),
        loaded(file, read) is Ok ==> loaded(file, read)->Ok_0 == read->Decoded_0@,
        read matches MetadataRead::Unreadable(e) ==> loaded(file, read) == Err::<
            MetadataView,
            Fault,
        >(
            Fault::Worktree {
                context: "review-load"@,
                stderr: "read review metadata "@ + file + " failed: "@ + e@,
            },
        ),
        read matches MetadataRead::Malformed(e) ==> loaded(file, read) == Err::<
            MetadataView,
            Fault,
        >(
            Fault::Worktree {
                context: "review-load"@,
                stderr: "parse review metadata "@ + file + " failed: "@ + e@,
            },
        ),
{
}

/// A line that names a worktree begins an entry, and an empty line ends one. The
/// lines between give the entry its head and say that it is detached.
pub proof fn law_a_listing_is_read_line_by_line(l: Listing, e: EntryView, rest: Seq<char>)
    ensures
        after_line(l, Seq::empty()).current is None,
        after_line(l, Seq::empty()).done == flushed(l),
        after_line(l, "worktree "@ + rest).done == flushed(l),
        after_line(l, "worktree "@ + rest).current == Some(
            EntryView { path: text::trim(rest), head: Seq::empty(), detached: false },
        ),
        l.current == Some(e) ==> after_line(l, "HEAD "@ + rest) == (Listing {
            done: l.done,
            current: Some(EntryView { path: e.path, head: text::trim(rest), detached: e.detached }),
        }),
        l.current == Some(e) ==> after_line(l, "detached"@) == (Listing {
            done: l.done,
            current: Some(EntryView { path: e.path, head: e.head, detached: true }),
        }),
        l.current == Some(e) ==> flushed(l) == l.done.push(e),
        l.current is None ==> flushed(l) == l.done,
{
    reveal_strlit("worktree ");
    reveal_strlit("HEAD ");
    reveal_strlit("detached");
    text::law_what_follows_a_prefix(rest, "worktree "@);
    text::law_what_follows_a_prefix(rest, "HEAD "@);
    let w = "worktree "@ + rest;
    let h = "HEAD "@ + rest;
    let d = "detached"@;
    assert(w.len() > 0 && h.len() > 0 && d.len() > 0);
    assert(h[0] == 'H' && d[0] == 'd' && "worktree "@[0] == 'w' && "HEAD "@[0] == 'H');
    assert(!"worktree "@.is_prefix_of(h)) by {
        if "worktree "@.is_prefix_of(h) {
            assert(h.subrange(0, "worktree "@.len() as int)[0] == h[0]);
        }
    }
    assert(!"worktree "@.is_prefix_of(d)) by {
        if "worktree "@.is_prefix_of(d) {
            assert(d.subrange(0, "worktree "@.len() as int)[0] == d[0]);
        }
    }
    assert(!"HEAD "@.is_prefix_of(d)) by {
        if "HEAD "@.is_prefix_of(d) {
            assert(d.subrange(0, "HEAD "@.len() as int)[0] == d[0]);
        }
    }
    assert("detached"@.is_prefix_of(d)) by {
        assert(d =~= d.subrange(0, d.len() as int));
    }
}

/// A watched repository is an owner and a name around the first slash, neither of
/// them empty.
pub proof fn law_a_watched_repository_has_owner_and_name(owner: Seq<char>, repo: Seq<char>)
    requires
        !owner.contains('/'),
    ensures
        owner.len() > 0 && repo.len() > 0 ==> watched(owner + seq!['/'] + repo) == Some(
            (owner, repo),
        ),
        watched(owner) is None,
        watched(seq!['/'] + repo) is None,
        watched(owner + seq!['/']) is None,
{
    lemma_first_slash(owner, repo);
    lemma_first_slash(owner, Seq::empty());
    lemma_first_slash(Seq::empty(), repo);
    let s = owner + seq!['/'] + repo;
    assert(s.take(owner.len() as int) =~= owner);
    assert(s.skip(owner.len() as int + 1) =~= repo);
    assert(owner + seq!['/'] + Seq::<char>::empty() =~= owner + seq!['/']);
    assert(Seq::<char>::empty() + seq!['/'] + repo =~= seq!['/'] + repo);
    lemma_no_slash(owner, 0);
}

proof fn lemma_no_slash(s: Seq<char>, i: int)
    requires
        0 <= i <= s.len(),
        !s.contains('/'),
    ensures
        text::next_char(s, '/', i) == s.len(),
    decreases s.len() - i,
{
    if i < s.len() {
        assert(s.contains(s[i]));
        lemma_no_slash(s, i + 1);
    }
}

proof fn lemma_slash_at(s: Seq<char>, at: int, i: int)
    requires
        0 <= i <= at < s.len(),
        s[at] == '/',
        forall|j: int| 0 <= j < at ==> #[trigger] s[j] != '/',
    ensures
        text::next_char(s, '/', i) == at,
    decreases at - i,
{
    if i < at {
        lemma_slash_at(s, at, i + 1);
    }
}

proof fn lemma_first_slash(owner: Seq<char>, repo: Seq<char>)
    requires
        !owner.contains('/'),
    ensures
        text::next_char(owner + seq!['/'] + repo, '/', 0) == owner.len(),
{
    let s = owner + seq!['/'] + repo;
    assert forall|j: int| 0 <= j < owner.len() implies #[trigger] s[j] != '/' by {
        assert(owner.contains(owner[j]));
    }
    lemma_slash_at(s, owner.len() as int, 0);
}

/// The sweep goes to every watched repository that reads as one, in order, each
/// with its own directories.
pub proof fn law_the_sweep_goes_to_watched_repositories(
    root: Seq<char>,
    repos: Seq<Seq<char>>,
    n: int,
)
    requires
        0 < n <= repos.len(),
    ensures
        watched(repos[n - 1]) is None ==> targets(root, repos, n) == targets(root, repos, n - 1),
        watched(repos[n - 1]) matches Some(id) ==> targets(root, repos, n) == targets(
            root,
            repos,
            n - 1,
        ).push(
            GcTargetView {
                owner: id.0,
                repo: id.1,
                review_dir: path::joined(
                    path::joined(
                        path::joined(path::joined(root, "worktrees"@), "review"@),
                        id.0,
                    ),
                    id.1,
                ),
                mirror_path: path::joined(
                    path::joined(path::joined(root, "mirrors"@), id.0),
                    id.1 + ".git"@,
                ),
                mirror_remote: Seq::empty(),
            },
        ),
        targets(root, repos, 0).len() == 0,
{
}

/// A worktree that a claim names is in use, and one whose heartbeat is at most an
/// hour old.
pub proof fn law_claims_and_heartbeats_keep_worktrees(
    state_dir: Seq<char>,
    claims: Vec<ClaimObservation>,
    beats: Vec<HeartbeatObservation>,
    now: Timestamp,
    i: int,
)
    requires
        now.nanos < 1000000000,
        -9000000000000 <= now.secs <= 9000000000000,
    ensures
        in_use(state_dir, Ok(claims), Ok(beats), now) is Ok,
        0 <= i < claims@.len() && claims@[i].worktree is Some && ".claim"@.is_suffix_of(
            claims@[i].file_name@,
        ) ==> in_use(state_dir, Ok(claims), Ok(beats), now)->Ok_0.contains(
            claims@[i].worktree->0@,
        ),
        0 <= i < beats@.len() && beats@[i].worktree is Some && ".heartbeat"@.is_suffix_of(
            beats@[i].file_name@,
        ) && beats@[i].mtime is Some && (beats@[i].mtime->0.secs > now.secs - 3600 || (
        beats@[i].mtime->0.secs == now.secs - 3600 && beats@[i].mtime->0.nanos >= now.nanos))
            ==> in_use(state_dir, Ok(claims), Ok(beats), now)->Ok_0.contains(beats@[i].worktree->0@),
{
    let a = claimed(claims@, claims@.len() as int);
    let cutoff = now.plus(-3600);
    let b = beating(beats@, cutoff, beats@.len() as int);
    let all = in_use(state_dir, Ok(claims), Ok(beats), now)->Ok_0;
    assert(all == a + b);
    if 0 <= i < claims@.len() && claims@[i].worktree is Some && ".claim"@.is_suffix_of(
        claims@[i].file_name@,
    ) {
        lemma_claimed(claims@, claims@.len() as int, i);
        let k = choose|k: int| 0 <= k < a.len() && a[k] == claims@[i].worktree->0@;
        assert(all[k] == a[k]);
    }
    if 0 <= i < beats@.len() && beats@[i].worktree is Some && is_fresh(beats@[i], cutoff) {
        lemma_beating(beats@, cutoff, beats@.len() as int, i);
        let k = choose|k: int| 0 <= k < b.len() && b[k] == beats@[i].worktree->0@;
        assert(all[a.len() + k] == b[k]);
    }
}

proof fn lemma_claimed(claims: Seq<ClaimObservation>, n: int, i: int)
    requires
        0 <= i < n <= claims.len(),
        claims[i].worktree is Some,
        ".claim"@.is_suffix_of(claims[i].file_name@),
    ensures
        claimed(claims, n).contains(claims[i].worktree->0@),
    decreases n,
{
    let before = claimed(claims, n - 1);
    let all = claimed(claims, n);
    if i < n - 1 {
        lemma_claimed(claims, n - 1, i);
        let k = choose|k: int| 0 <= k < before.len() && before[k] == claims[i].worktree->0@;
        assert(all[k] == before[k]);
    } else {
        assert(all[before.len() as int] == claims[i].worktree->0@);
    }
}

proof fn lemma_beating(beats: Seq<HeartbeatObservation>, cutoff: Timestamp, n: int, i: int)
    requires
        0 <= i < n <= beats.len(),
        beats[i].worktree is Some,
        is_fresh(beats[i], cutoff),
    ensures
        beating(beats, cutoff, n).contains(beats[i].worktree->0@),
    decreases n,
{
    let before = beating(beats, cutoff, n - 1);
    let all = beating(beats, cutoff, n);
    if i < n - 1 {
        lemma_beating(beats, cutoff, n - 1, i);
        let k = choose|k: int| 0 <= k < before.len() && before[k] == beats[i].worktree->0@;
        assert(all[k] == before[k]);
    } else {
        assert(all[before.len() as int] == beats[i].worktree->0@);
    }
}

/// Where the claims or the heartbeats could not be read, nothing is swept.
pub proof fn law_an_unread_directory_stops_the_sweep(
    state_dir: Seq<char>,
    claims: Result<Vec<ClaimObservation>, String>,
    beats: Result<Vec<HeartbeatObservation>, String>,
    now: Timestamp,
)
    ensures
        in_use(state_dir, claims, beats, now) is Ok <==> claims is Ok && beats is Ok,
        claims matches Err(e) ==> in_use(state_dir, claims, beats, now) == Err::<
            Seq<Seq<char>>,
            Fault,
        >(
            Fault::Worktree {
                context: "review-gc"@,
                stderr: "read_dir "@ + path::joined(state_dir, "claims"@) + ": "@ + e@,
            },
        ),
{
}

/// A listed worktree is swept exactly when it is detached, not in use, and was last
/// changed before the cutoff or at it. Every such one is handed over.
pub proof fn law_every_stale_worktree_is_swept(
    mirror: BareMirror,
    listed: Seq<ListedWorktree>,
    used: Seq<Seq<char>>,
    cutoff: Timestamp,
    n: int,
    i: int,
)
    requires
        0 <= i < n <= listed.len(),
    ensures
        is_stale(listed[i], used, cutoff) <==> {
            &&& listed[i].entry.detached
            &&& !path::among(used, listed[i].canonical@)
            &&& listed[i].mtime is Some
            &&& listed[i].mtime->0.secs < cutoff.secs || (listed[i].mtime->0.secs == cutoff.secs
                && listed[i].mtime->0.nanos <= cutoff.nanos)
        },
        is_stale(listed[i], used, cutoff) ==> stale(mirror, listed, used, cutoff, n).contains(
            gc_handle(mirror, listed[i]),
        ),
        gc_handle(mirror, listed[i]).path == listed[i].entry.path@,
        gc_handle(mirror, listed[i]).head_sha == listed[i].entry.head@,
        gc_handle(mirror, listed[i]).mirror == mirror,
    decreases n,
{
    let before = stale(mirror, listed, used, cutoff, n - 1);
    let all = stale(mirror, listed, used, cutoff, n);
    let h = gc_handle(mirror, listed[i]);
    if is_stale(listed[i], used, cutoff) {
        if i < n - 1 {
            law_every_stale_worktree_is_swept(mirror, listed, used, cutoff, n - 1, i);
            let k = choose|k: int| 0 <= k < before.len() && before[k] == h;
            assert(all[k] == h);
        } else {
            assert(all[before.len() as int] == h);
        }
    }
}

/// A directory is an orphan exactly when it is a real directory that is not hidden,
/// neither listed nor in use, and was last changed before the cutoff or at it.
/// Every orphan is swept.
pub proof fn law_every_orphaned_directory_is_swept(
    dirs: Seq<DirObservation>,
    registered: Seq<Seq<char>>,
    used: Seq<Seq<char>>,
    cutoff: Timestamp,
    n: int,
    i: int,
)
    requires
        0 <= i < n <= dirs.len(),
    ensures
        is_orphan(dirs[i], registered, used, cutoff) <==> {
            &&& dirs[i].is_dir
            &&& !dirs[i].is_symlink
            &&& !"."@.is_prefix_of(dirs[i].file_name@)
            &&& !path::among(registered, dirs[i].canonical@)
            &&& !path::among(used, dirs[i].canonical@)
            &&& dirs[i].mtime is Some
            &&& dirs[i].mtime->0.secs < cutoff.secs || (dirs[i].mtime->0.secs == cutoff.secs
                && dirs[i].mtime->0.nanos <= cutoff.nanos)
        },
        is_orphan(dirs[i], registered, used, cutoff) ==> orphans(
            dirs,
            registered,
            used,
            cutoff,
            n,
        ).contains(dirs[i].path@),
    decreases n,
{
    let before = orphans(dirs, registered, used, cutoff, n - 1);
    let all = orphans(dirs, registered, used, cutoff, n);
    if is_orphan(dirs[i], registered, used, cutoff) {
        if i < n - 1 {
            law_every_orphaned_directory_is_swept(dirs, registered, used, cutoff, n - 1, i);
            let k = choose|k: int| 0 <= k < before.len() && before[k] == dirs[i].path@;
            assert(all[k] == before[k]);
        } else {
            assert(all[before.len() as int] == dirs[i].path@);
        }
    }
}

/// The cutoff is so many days before now.
pub proof fn law_the_age_is_counted_in_days(now: Timestamp, days: u64)
    requires
        now.nanos < 1000000000,
        -9000000000000 <= now.secs <= 9000000000000,
        days <= 100000000,
    ensures
        age_cutoff(now, days).secs == now.secs - days * 86400,
        age_cutoff(now, days).nanos == now.nanos,
{
}

/// The worktrees are listed exactly when the command succeeded.
pub proof fn law_worktrees_are_listed_when_git_succeeds(out: GitOutput)
    ensures
        list_of(out) is Ok <==> !out.cancelled && !out.timed_out && out.status == Some(0i32),
        list_of(out) is Ok ==> list_of(out)->Ok_0 == worktrees_in(out.stdout@),
        out.cancelled ==> list_of(out) == Err::<Seq<EntryView>, Fault>(Fault::Cancelled),
{
}

/// What is said of a review worktree that is refused.
pub proof fn law_a_refused_review_worktree_says_why(
    mirror: BareMirror,
    run_id: Seq<char>,
    target: TargetView,
    error: String,
    out: GitOutput,
)
    ensures
        ({
            let p = review_place(
                mirror.path@,
                target.repository.owner,
                target.repository.repo,
                run_id,
            );
            &&& worktree::storage_root(mirror.path@) is None ==> p == Err::<
                (Seq<char>, Seq<char>),
                Fault,
            >(Fault::Config("cannot resolve storage root from mirror path"@))
            &&& worktree::storage_root(mirror.path@) matches Some(root) ==> (path::file_name(
                mirrors_of(mirror.path@),
            ) != Some("mirrors"@) ==> p == Err::<(Seq<char>, Seq<char>), Fault>(
                Fault::Config(
                    "mirror path "@ + mirror.path@ + " does not live under "@ + path::joined(
                        root,
                        "mirrors"@,
                    ),
                ),
            ))
            &&& p is Ok ==> added(mirror, run_id, target, false, Err(error), out) == Err::<
                Seq<char>,
                Fault,
            >(
                Fault::Worktree {
                    context: "review-create"@,
                    stderr: "create review dir "@ + p->Ok_0.0 + " failed: "@ + error@,
                },
            )
            &&& p is Ok && !out.cancelled && repo::broke(out) ==> added(
                mirror,
                run_id,
                target,
                false,
                Ok(()),
                out,
            ) == Err::<Seq<char>, Fault>(
                Fault::Worktree {
                    context: "review-create"@,
                    stderr: "git worktree add --detach "@ + p->Ok_0.1 + " "@ + target.head_sha
                        + " failed: "@ + out.stderr@,
                },
            )
            &&& !out.cancelled && repo::broke(out) ==> head_fault(target.head_sha, Ok(out)) == Some(
                Fault::Worktree {
                    context: "review-create"@,
                    stderr: "verify review HEAD failed: "@ + out.stderr@,
                },
            )
            &&& !out.cancelled && repo::broke(out) ==> list_of(out) == Err::<
                Seq<EntryView>,
                Fault,
            >(
                Fault::Worktree {
                    context: "review-gc"@,
                    stderr: "git worktree list --porcelain failed: "@ + out.stderr@,
                },
            )
        }),
{
}

/// Metadata is sound exactly when it is of the first version and none of its texts
/// is empty or too long.
pub proof fn law_metadata_keeps_its_caps(m: MetadataView)
    ensures
        metadata_fault(m) is None <==> {
            &&& m.schema_version == 1
            &&& 0 < m.run_id.len() && text::utf8_len(m.run_id) <= 64
            &&& 0 < m.repository.owner.len() && text::utf8_len(m.repository.owner) <= 256
            &&& 0 < m.repository.repo.len() && text::utf8_len(m.repository.repo) <= 256
            &&& 0 < m.head_sha.len() && text::utf8_len(m.head_sha) <= 64
            &&& 0 < m.base_sha.len() && text::utf8_len(m.base_sha) <= 64
            &&& 0 < m.base_ref.len() && text::utf8_len(m.base_ref) <= 1024
            &&& 0 < m.merge_base.len() && text::utf8_len(m.merge_base) <= 64
        },
        m.schema_version != 1 ==> metadata_fault(m) == Some(
            Fault::Config(
                "review worktree metadata: schema_version "@ + text::dec(m.schema_version as nat)
                    + " is not supported (this daemon accepts "@ + text::dec(1) + ")"@,
            ),
        ),
        m.schema_version == 1 && m.run_id.len() == 0 ==> metadata_fault(m) == Some(
            Fault::Config(
                "review worktree metadata"@ + ": "@ + "run_id"@ + " must not be empty"@,
            ),
        ),
{
}

} // verus!
