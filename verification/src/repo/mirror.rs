//! Bare mirrors, one for each repository:
//! `<storage>/mirrors/<owner>/<repo>.git`.

use vstd::prelude::*;

use crate::error::{CaduceusError, Fault};
use crate::path;
use crate::repo;
use crate::repo::storage::Storage;
use crate::repo::GitOutput;
use crate::review;
use crate::text;

verus! {

/// A bare mirror.
#[derive(Debug)]
pub struct BareMirror {
    pub path: String,
    pub remote_url: String,
}

impl Clone for BareMirror {
    fn clone(&self) -> (r: Self)
        ensures
            r == *self,
    {
        BareMirror { path: self.path.clone(), remote_url: self.remote_url.clone() }
    }
}

/// Where the mirror of a repository is.
pub open spec fn mirror_place(root: Seq<char>, owner: Seq<char>, repo: Seq<char>) -> Seq<char> {
    path::joined(path::joined(path::joined(root, "mirrors"@), owner), repo + ".git"@)
}

/// Where the mirror of a repository is.
pub fn mirror_path(root: &str, owner: &str, repo: &str) -> (r: String)
    ensures
        r@ == mirror_place(root@, owner@, repo@),
{
    let dir = path::join(path::join(root, "mirrors").as_str(), owner);
    path::join(dir.as_str(), text::cat(repo, ".git").as_str())
}

/// Which of the directories on the way to a mirror are symbolic links.
#[derive(Clone, Copy, Debug)]
pub struct MirrorLinks {
    /// The root of the storage.
    pub root: bool,
    /// The directory of the mirrors.
    pub mirrors: bool,
    /// The directory of the owner's mirrors.
    pub owner: bool,
}

/// What is wrong with the way to a mirror: a part of it is a symbolic link.
pub open spec fn way_fault(storage: Storage, owner: Seq<char>, links: MirrorLinks) -> Option<Fault> {
    if links.root {
        Some(Fault::SymlinkedStorageRoot(storage.repo_storage_root@))
    } else if links.mirrors {
        Some(Fault::SymlinkedStorageRoot(storage.mirrors_dir@))
    } else if links.owner {
        Some(Fault::SymlinkedStorageRoot(path::joined(storage.mirrors_dir@, owner)))
    } else {
        None
    }
}

/// What is next for a mirror that is being ensured.
#[derive(Clone, Copy, Debug, PartialEq, Eq, Structural)]
pub enum EnsureStep {
    /// Make an empty bare repository.
    Init,
    /// Set the modes and the remote; what comes of that does not matter.
    Configure,
    /// Fetch the base branch.
    Fetch,
    /// The mirror is there.
    Ready,
}

/// A step, or why there is none, by its view.
pub open spec fn step_seen(r: Result<EnsureStep, CaduceusError>) -> Result<EnsureStep, Fault> {
    match r {
        Ok(s) => Ok(s),
        Err(e) => Err(e@),
    }
}

/// `step` unless there is a fault.
pub open spec fn step_unless(fault: Option<Fault>, step: EnsureStep) -> Result<EnsureStep, Fault> {
    match fault {
        Some(f) => Err(f),
        None => Ok(step),
    }
}

impl BareMirror {
    /// The mirror of a repository, whether or not it is there.
    pub fn of(root: &str, owner: &str, repo: &str, remote_url: &str) -> (r: BareMirror)
        ensures
            r.path@ == mirror_place(root@, owner@, repo@),
            r.remote_url@ == remote_url@,
    {
        BareMirror { path: mirror_path(root, owner, repo), remote_url: remote_url.to_owned() }
    }

    /// The directory of an owner's mirrors.
    pub fn owner_dir(storage: &Storage, owner: &str) -> (r: String)
        ensures
            r@ == path::joined(storage.mirrors_dir@, owner@),
    {
        path::join(storage.mirrors_dir.as_str(), owner)
    }

    /// Begin to ensure a mirror of an owner whose directory is there: a way to
    /// the mirror of which a part is a symbolic link is refused, and a mirror
    /// that is there already is not made again.
    pub fn ensure(storage: &Storage, owner: &str, links: MirrorLinks, head_exists: bool) -> (r:
        Result<EnsureStep, CaduceusError>)
        ensures
            step_seen(r) == step_unless(
                way_fault(*storage, owner@, links),
                if head_exists {
                    EnsureStep::Configure
                } else {
                    EnsureStep::Init
                },
            ),
    {
        if links.root {
            return Err(
                CaduceusError::SymlinkedStorageRoot { path: storage.repo_storage_root.clone() },
            );
        }
        if links.mirrors {
            return Err(CaduceusError::SymlinkedStorageRoot { path: storage.mirrors_dir.clone() });
        }
        if links.owner {
            return Err(
                CaduceusError::SymlinkedStorageRoot { path: Self::owner_dir(storage, owner) },
            );
        }
        if head_exists {
            Ok(EnsureStep::Configure)
        } else {
            Ok(EnsureStep::Init)
        }
    }

    /// After the repository was made.
    pub fn initialised(out: &GitOutput) -> (r: Result<EnsureStep, CaduceusError>)
        ensures
            step_seen(r) == step_unless(
                repo::status_fault("init-bare"@, *out),
                EnsureStep::Configure,
            ),
    {
        match repo::check_status("init-bare", out) {
            Ok(_) => Ok(EnsureStep::Configure),
            Err(e) => Err(e),
        }
    }

    /// After modes and remote were set: without a base branch there is nothing
    /// to fetch.
    pub fn configured(base_branch: &str) -> (r: EnsureStep)
        ensures
            r == if base_branch@.len() == 0 {
                EnsureStep::Ready
            } else {
                EnsureStep::Fetch
            },
    {
        if base_branch.is_empty() {
            EnsureStep::Ready
        } else {
            EnsureStep::Fetch
        }
    }

    /// After the base branch was fetched.
    pub fn fetched(out: &GitOutput) -> (r: Result<EnsureStep, CaduceusError>)
        ensures
            step_seen(r) == step_unless(
                repo::status_fault("mirror-fetch"@, *out),
                EnsureStep::Ready,
            ),
    {
        match repo::check_status("mirror-fetch", out) {
            Ok(_) => Ok(EnsureStep::Ready),
            Err(e) => Err(e),
        }
    }

    /// The command that makes the repository.
    pub fn init_command(&self) -> (r: Vec<String>)
        ensures
            text::texts(r@) == seq!["init"@, "--bare"@, self.path@],
    {
        let parts: Vec<&str> = vec!["init", "--bare", self.path.as_str()];
        proof {
            assert(repo::str_views(parts@) =~= seq!["init"@, "--bare"@, self.path@]);
        }
        repo::arguments(&parts)
    }

    /// The command that sets the remote: `verb` is `add` or `set-url`.
    pub fn remote_command(&self, verb: &str) -> (r: Vec<String>)
        ensures
            text::texts(r@) == seq![
                "-C"@,
                self.path@,
                "remote"@,
                verb@,
                "origin"@,
                self.remote_url@,
            ],
    {
        let parts: Vec<&str> = vec![
            "-C",
            self.path.as_str(),
            "remote",
            verb,
            "origin",
            self.remote_url.as_str(),
        ];
        proof {
            assert(repo::str_views(parts@) =~= seq![
                "-C"@,
                self.path@,
                "remote"@,
                verb@,
                "origin"@,
                self.remote_url@,
            ]);
        }
        repo::arguments(&parts)
    }

    /// The command that fetches the base branch.
    pub fn fetch_command(&self, base_branch: &str) -> (r: Vec<String>)
        ensures
            text::texts(r@) == seq![
                "-C"@,
                self.path@,
                "fetch"@,
                "--prune"@,
                "origin"@,
                base_branch@,
            ],
    {
        let parts: Vec<&str> = vec![
            "-C",
            self.path.as_str(),
            "fetch",
            "--prune",
            "origin",
            base_branch,
        ];
        proof {
            assert(repo::str_views(parts@) =~= seq![
                "-C"@,
                self.path@,
                "fetch"@,
                "--prune"@,
                "origin"@,
                base_branch@,
            ]);
        }
        repo::arguments(&parts)
    }

    /// What came of fetching.
    pub fn fetch(out: &GitOutput) -> (r: Result<(), CaduceusError>)
        ensures
            crate::error::verdict(r) == review::unless(repo::status_fault("mirror-fetch"@, *out)),
    {
        repo::check_status("mirror-fetch", out)
    }

    /// The command that resolves a name to an object id.
    pub fn rev_parse_command(&self, ref_name: &str) -> (r: Vec<String>)
        ensures
            text::texts(r@) == seq!["-C"@, self.path@, "rev-parse"@, ref_name@],
    {
        let parts: Vec<&str> = vec!["-C", self.path.as_str(), "rev-parse", ref_name];
        proof {
            assert(repo::str_views(parts@) =~= seq!["-C"@, self.path@, "rev-parse"@, ref_name@]);
        }
        repo::arguments(&parts)
    }

    /// The object id that a name resolves to.
    pub fn rev_parse(out: &GitOutput) -> (r: Result<String, CaduceusError>)
        ensures
            crate::error::seen(r) == match repo::status_fault("mirror-rev-parse"@, *out) {
                Some(f) => Err::<Seq<char>, Fault>(f),
                None => Ok::<Seq<char>, Fault>(text::trim(out.stdout@)),
            },
    {
        match repo::check_status("mirror-rev-parse", out) {
            Ok(_) => Ok(text::trimmed(out.stdout.as_str())),
            Err(e) => Err(e),
        }
    }

    /// Where the mirror is.
    pub fn path(&self) -> (r: &str)
        ensures
            r@ == self.path@,
    {
        self.path.as_str()
    }
}

/// A mirror stands under the storage, by owner and repository.
pub proof fn law_a_mirror_has_its_place(root: Seq<char>, owner: Seq<char>, repo: Seq<char>)
    ensures
        mirror_place(root, owner, repo) == path::joined(
            path::joined(path::joined(root, "mirrors"@), owner),
            repo + ".git"@,
        ),
{
}

/// No mirror is made on a way that has a symbolic link on it; the first link is
/// named.
pub proof fn law_a_linked_way_is_refused(
    storage: Storage,
    owner: Seq<char>,
    links: MirrorLinks,
    step: EnsureStep,
)
    ensures
        way_fault(storage, owner, links) is None <==> !links.root && !links.mirrors && !links.owner,
        links.root ==> way_fault(storage, owner, links) == Some(
            Fault::SymlinkedStorageRoot(storage.repo_storage_root@),
        ),
        !links.root && links.mirrors ==> way_fault(storage, owner, links) == Some(
            Fault::SymlinkedStorageRoot(storage.mirrors_dir@),
        ),
        !links.root && !links.mirrors && links.owner ==> way_fault(storage, owner, links) == Some(
            Fault::SymlinkedStorageRoot(path::joined(storage.mirrors_dir@, owner)),
        ),
        links.root || links.mirrors || links.owner ==> step_unless(
            way_fault(storage, owner, links),
            step,
        ) is Err,
        step_unless(None, step) == Ok::<EnsureStep, Fault>(step),
{
}

/// A mirror that is there is only configured; one that is not there is made first.
/// The base branch is fetched where there is one.
pub proof fn law_a_mirror_is_made_once(
    storage: &Storage,
    owner: &str,
    links: MirrorLinks,
    head_exists: bool,
    base_branch: &str,
    begun: Result<EnsureStep, CaduceusError>,
    next: EnsureStep,
)
    requires
        call_ensures(BareMirror::ensure, (storage, owner, links, head_exists), begun),
        call_ensures(BareMirror::configured, (base_branch,), next),
    ensures
        begun is Ok <==> !links.root && !links.mirrors && !links.owner,
        begun is Ok && head_exists ==> begun->Ok_0 == EnsureStep::Configure,
        begun is Ok && !head_exists ==> begun->Ok_0 == EnsureStep::Init,
        base_branch@.len() == 0 ==> next == EnsureStep::Ready,
        base_branch@.len() > 0 ==> next == EnsureStep::Fetch,
{
}

/// Each command of a mirror goes on only when it succeeded; a name resolves to what
/// the command printed, trimmed.
pub proof fn law_a_mirror_goes_on_with_success(
    out: &GitOutput,
    made: Result<EnsureStep, CaduceusError>,
    fetched: Result<EnsureStep, CaduceusError>,
    id: Result<String, CaduceusError>,
)
    requires
        call_ensures(BareMirror::initialised, (out,), made),
        call_ensures(BareMirror::fetched, (out,), fetched),
        call_ensures(BareMirror::rev_parse, (out,), id),
    ensures
        made is Ok <==> out.status == Some(0i32),
        made is Ok ==> made->Ok_0 == EnsureStep::Configure,
        fetched is Ok <==> out.status == Some(0i32),
        fetched is Ok ==> fetched->Ok_0 == EnsureStep::Ready,
        id is Ok <==> out.status == Some(0i32),
        id is Ok ==> id->Ok_0@ == text::trim(out.stdout@),
{
}

} // verus!
