//! The root under which the daemon keeps its repositories.

use vstd::prelude::*;

use crate::error::{CaduceusError, Fault};
use crate::path;
use crate::review;
use crate::text;

verus! {

/// The root of the storage and the two directories under it.
#[derive(Debug)]
pub struct Storage {
    pub repo_storage_root: String,
    pub mirrors_dir: String,
    pub worktrees_dir: String,
}

/// Which of the three are symbolic links.
#[derive(Clone, Copy, Debug)]
pub struct StorageLinks {
    pub root: bool,
    pub mirrors: bool,
    pub worktrees: bool,
}

/// The mode of the storage directories.
pub const STORAGE_MODE: u32 = 0o700;

impl Storage {
    /// The storage under a root.
    pub fn new(root: String) -> (r: Storage)
        ensures
            r.repo_storage_root@ == root@,
            r.mirrors_dir@ == path::joined(root@, "mirrors"@),
            r.worktrees_dir@ == path::joined(root@, "worktrees"@),
    {
        let mirrors_dir = path::join(root.as_str(), "mirrors");
        let worktrees_dir = path::join(root.as_str(), "worktrees");
        Storage { repo_storage_root: root, mirrors_dir, worktrees_dir }
    }

    /// What is wrong with the storage: a part of it is a symbolic link.
    pub open spec fn link_fault(self, links: StorageLinks) -> Option<Fault> {
        if links.root {
            Some(Fault::SymlinkedStorageRoot(self.repo_storage_root@))
        } else if links.mirrors {
            Some(Fault::SymlinkedStorageRoot(self.mirrors_dir@))
        } else if links.worktrees {
            Some(Fault::SymlinkedStorageRoot(self.worktrees_dir@))
        } else {
            None
        }
    }

    /// Refuse a storage of which a part has been replaced with a symbolic link.
    pub fn validate_root(&self, links: StorageLinks) -> (r: Result<(), CaduceusError>)
        ensures
            crate::error::verdict(r) == review::unless(self.link_fault(links)),
    {
        if links.root {
            return Err(
                CaduceusError::SymlinkedStorageRoot { path: self.repo_storage_root.clone() },
            );
        }
        if links.mirrors {
            return Err(CaduceusError::SymlinkedStorageRoot { path: self.mirrors_dir.clone() });
        }
        if links.worktrees {
            return Err(CaduceusError::SymlinkedStorageRoot { path: self.worktrees_dir.clone() });
        }
        Ok(())
    }

    /// The directories that are made, with mode 700, in order.
    pub fn ensure_dirs(&self, links: StorageLinks) -> (r: Result<Vec<String>, CaduceusError>)
        ensures
            match r {
                Ok(v) => self.link_fault(links) is None && text::texts(v@)
                    == seq![self.repo_storage_root@, self.mirrors_dir@, self.worktrees_dir@],
                Err(e) => self.link_fault(links) == Some(e@),
            },
    {
        match self.validate_root(links) {
            Err(e) => {
                return Err(e);
            },
            Ok(_) => {},
        }
        let mut v: Vec<String> = Vec::new();
        v.push(self.repo_storage_root.clone());
        v.push(self.mirrors_dir.clone());
        v.push(self.worktrees_dir.clone());
        proof {
            assert(text::texts(v@) =~= seq![
                self.repo_storage_root@,
                self.mirrors_dir@,
                self.worktrees_dir@,
            ]);
        }
        Ok(v)
    }
}

/// What is wrong with a directory whose mode was set: the file system kept
/// another.
pub open spec fn mode_fault(path: Seq<char>, mode: u32) -> Option<Fault> {
    if mode & 0o777 == STORAGE_MODE {
        None
    } else {
        Some(
            Fault::ModeNotPreserved { path, expected: STORAGE_MODE, observed: mode & 0o777 },
        )
    }
}

/// Check the mode that a directory has after it was set.
pub fn check_mode(path: &str, mode: u32) -> (r: Result<(), CaduceusError>)
    ensures
        crate::error::verdict(r) == review::unless(mode_fault(path@, mode)),
{
    let observed: u32 = mode & 0o777;
    if observed != STORAGE_MODE {
        return Err(
            CaduceusError::ModeNotPreserved {
                path: path.to_owned(),
                expected: STORAGE_MODE,
                observed,
            },
        );
    }
    Ok(())
}

/// The storage is used only when none of its directories is a symbolic link; the
/// first that is one is named.
pub proof fn law_linked_storage_is_refused(s: Storage, links: StorageLinks)
    ensures
        s.link_fault(links) is None <==> !links.root && !links.mirrors && !links.worktrees,
        links.root ==> s.link_fault(links) == Some(
            Fault::SymlinkedStorageRoot(s.repo_storage_root@),
        ),
        !links.root && links.mirrors ==> s.link_fault(links) == Some(
            Fault::SymlinkedStorageRoot(s.mirrors_dir@),
        ),
        !links.root && !links.mirrors && links.worktrees ==> s.link_fault(links) == Some(
            Fault::SymlinkedStorageRoot(s.worktrees_dir@),
        ),
{
}

/// A directory of the storage has to keep exactly the owner's rights.
pub proof fn law_storage_is_for_its_owner_alone(path: Seq<char>, mode: u32)
    ensures
        mode_fault(path, mode) is None <==> mode & 0o777 == 0o700,
        mode_fault(path, mode) matches Some(f) ==> f == (Fault::ModeNotPreserved {
            path,
            expected: 0o700,
            observed: mode & 0o777,
        }),
{
}

/// The storage has two directories under its root; they are made, root first, only
/// when nothing of it is a symbolic link.
pub proof fn law_storage_is_laid_out(
    root: String,
    s: Storage,
    links: StorageLinks,
    r: Result<Vec<String>, CaduceusError>,
)
    requires
        call_ensures(Storage::new, (root,), s),
        call_ensures(Storage::ensure_dirs, (&s, links), r),
    ensures
        s.repo_storage_root@ == root@,
        s.mirrors_dir@ == path::joined(root@, "mirrors"@),
        s.worktrees_dir@ == path::joined(root@, "worktrees"@),
        r is Ok <==> !links.root && !links.mirrors && !links.worktrees,
        r is Ok ==> text::texts(r->Ok_0@) == seq![
            root@,
            path::joined(root@, "mirrors"@),
            path::joined(root@, "worktrees"@),
        ],
{
}

} // verus!
