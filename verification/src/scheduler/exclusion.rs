//! Exclusion per repository: every admission of one repository takes the same
//! lock.

use vstd::prelude::*;

use crate::ordered::StringMap;

verus! {

/// Which lock each repository takes, by number. The locks are numbered in the
/// order in which their repositories first came.
#[derive(Debug)]
pub struct RepoExclusionMap {
    pub slots: StringMap<usize>,
}

/// Locks are numbered from zero, and no two repositories share one.
pub open spec fn distinct(m: Map<Seq<char>, usize>, n: nat) -> bool {
    &&& forall|k: Seq<char>| #[trigger] m.contains_key(k) ==> m[k] < n
    &&& forall|j: Seq<char>, k: Seq<char>|
        #[trigger] m.contains_key(j) && #[trigger] m.contains_key(k) && m[j] == m[k] ==> j == k
}

impl View for RepoExclusionMap {
    type V = Map<Seq<char>, usize>;

    open spec fn view(&self) -> Map<Seq<char>, usize> {
        self.slots@
    }
}

impl RepoExclusionMap {
    pub open spec fn wf(&self) -> bool {
        self.slots.wf() && distinct(self@, self.slots.keys.len() as nat)
    }

    /// No repository has come yet.
    pub fn new() -> (r: RepoExclusionMap)
        ensures
            r.wf(),
            r@ == Map::<Seq<char>, usize>::empty(),
    {
        RepoExclusionMap { slots: StringMap::new() }
    }

    /// Number of repositories that have come.
    pub fn len(&self) -> (n: usize)
        ensures
            n == self.slots.keys.len(),
    {
        self.slots.len()
    }

    /// The lock of a repository. A repository that comes for the first time
    /// gets the next number; its lock is the same from then on.
    pub fn get_or_init(&mut self, repo_key: &str) -> (r: usize)
        requires
            old(self).wf(),
            old(self).slots.keys.len() < usize::MAX,
        ensures
            final(self).wf(),
            if old(self)@.contains_key(repo_key@) {
                r == old(self)@[repo_key@] && final(self)@ == old(self)@
            } else {
                r == old(self).slots.keys.len() && final(self)@ == old(self)@.insert(repo_key@, r)
            },
            final(self)@.contains_key(repo_key@) && final(self)@[repo_key@] == r,
    {
        match self.slots.get(repo_key) {
            Some(slot) => {
                return *slot;
            },
            None => {},
        }
        let slot: usize = self.slots.len();
        self.slots.insert(repo_key.to_owned(), slot);
        slot
    }
}

impl Default for RepoExclusionMap {
    fn default() -> (r: RepoExclusionMap)
        ensures
            r.wf(),
            r@ == Map::<Seq<char>, usize>::empty(),
    {
        RepoExclusionMap::new()
    }
}

/// Two repositories never share a lock, and one repository never has two.
pub proof fn law_one_lock_per_repository(m: RepoExclusionMap, j: Seq<char>, k: Seq<char>)
    requires
        m.wf(),
        m@.contains_key(j),
        m@.contains_key(k),
    ensures
        m@[j] == m@[k] <==> j == k,
{
}

} // verus!
