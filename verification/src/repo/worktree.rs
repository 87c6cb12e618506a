//! Worktrees for one attempt of a run: `<storage>/worktrees/<run_id>`.

use vstd::prelude::*;

use crate::error::{CaduceusError, Fault};
use crate::path;
use crate::repo;
use crate::repo::mirror::BareMirror;
use crate::repo::GitOutput;
use crate::review;
use crate::text;
use crate::time::Timestamp;

verus! {

/// A worktree that was made from a mirror.
#[derive(Debug)]
pub struct Worktree {
    pub mirror: BareMirror,
    pub run_id: String,
    pub path: String,
    /// The commit it was made from.
    pub base_oid: String,
    pub created_at: Timestamp,
}

/// A character of a run id.
pub open spec fn is_run_id_char(c: char) -> bool {
    text::is_ascii_alnum(c) || c == '_' || c == '-'
}

/// What is wrong with a run id: it is empty, longer than 64 bytes, or holds
/// anything but ASCII letters, digits, `_` and `-`.
pub open spec fn run_id_fault(run_id: Seq<char>) -> Option<Fault> {
    if run_id.len() == 0 {
        Some(Fault::Worktree { context: "repo-create"@, stderr: "run_id must not be empty"@ })
    } else if text::utf8_len(run_id) > 64 {
        Some(
            Fault::Worktree {
                context: "repo-create"@,
                stderr: "run_id length "@ + text::dec(text::utf8_len(run_id))
                    + " exceeds 64-char limit"@,
            },
        )
    } else if exists|i: int| 0 <= i < run_id.len() && !is_run_id_char(#[trigger] run_id[i]) {
        Some(
            Fault::Worktree {
                context: "repo-create"@,
                stderr: "run_id "@ + text::quote(run_id) + " contains invalid characters"@,
            },
        )
    } else {
        None
    }
}

/// Check a run id.
pub fn validate_run_id(run_id: &str) -> (r: Result<(), CaduceusError>)
    ensures
        crate::error::verdict(r) == review::unless(run_id_fault(run_id@)),
{
    if run_id.is_empty() {
        return Err(
            CaduceusError::Worktree {
                context: "repo-create",
                stderr: "run_id must not be empty".to_owned(),
            },
        );
    }
    let n: usize = text::byte_len(run_id);
    if n > 64 {
        let mut m = text::cat("run_id length ", text::decimal(n as u64).as_str());
        m.append(" exceeds 64-char limit");
        return Err(CaduceusError::Worktree { context: "repo-create", stderr: m });
    }
    let chars = text::chars_of(run_id);
    let mut i: usize = 0;
    while i < chars.len()
        invariant
            chars@ == run_id@,
            i <= chars.len(),
            run_id@.len() > 0,
            text::utf8_len(run_id@) <= 64,
            forall|j: int| 0 <= j < i ==> is_run_id_char(#[trigger] run_id@[j]),
        decreases chars.len() - i,
    {
        let c = chars[i];
        if !(text::ascii_alnum(c) || c == '_' || c == '-') {
            proof {
                assert(!is_run_id_char(run_id@[i as int]));
            }
            let mut m = text::cat("run_id ", text::quoted(run_id).as_str());
            m.append(" contains invalid characters");
            return Err(CaduceusError::Worktree { context: "repo-create", stderr: m });
        }
        i += 1;
    }
    Ok(())
}

/// The storage root of a mirror: three levels up from it.
pub open spec fn storage_root(mirror: Seq<char>) -> Option<Seq<char>> {
    match path::parent(mirror) {
        None => None,
        Some(owner) => match path::parent(owner) {
            None => None,
            Some(mirrors) => path::parent(mirrors),
        },
    }
}

/// The storage root of a mirror: three levels up from it.
pub fn storage_root_of(mirror: &str) -> (r: Option<String>)
    ensures
        text::opt(r) == storage_root(mirror@),
{
    match path::parent_of(mirror) {
        None => None,
        Some(owner) => match path::parent_of(owner.as_str()) {
            None => None,
            Some(mirrors) => path::parent_of(mirrors.as_str()),
        },
    }
}

/// Where the worktree of a run goes: its directory and itself.
pub open spec fn place(mirror: Seq<char>, run_id: Seq<char>) -> Result<(Seq<char>, Seq<char>), Fault> {
    match run_id_fault(run_id) {
        Some(f) => Err(f),
        None => match storage_root(mirror) {
            None => Err(Fault::Config("cannot resolve storage root from mirror path"@)),
            Some(root) => {
                let dir = path::joined(root, "worktrees"@);
                Ok((dir, path::joined(dir, run_id)))
            },
        },
    }
}

/// Where a worktree goes.
#[derive(Debug)]
pub struct WorktreePlace {
    pub dir: String,
    pub path: String,
}

/// A place by its view.
pub open spec fn place_seen(r: Result<WorktreePlace, CaduceusError>) -> Result<
    (Seq<char>, Seq<char>),
    Fault,
> {
    match r {
        Ok(p) => Ok((p.dir@, p.path@)),
        Err(e) => Err(e@),
    }
}

/// The command that adds a detached worktree to a mirror.
pub open spec fn add_words(mirror: Seq<char>, path: Seq<char>, commit: Seq<char>) -> Seq<Seq<char>> {
    seq!["-C"@, mirror, "worktree"@, "add"@, "--detach"@, path, commit]
}

/// The command that adds a detached worktree to a mirror.
pub fn add_command(mirror: &str, path: &str, commit: &str) -> (r: Vec<String>)
    ensures
        text::texts(r@) == add_words(mirror@, path@, commit@),
{
    let parts: Vec<&str> = vec!["-C", mirror, "worktree", "add", "--detach", path, commit];
    proof {
        assert(repo::str_views(parts@) =~= add_words(mirror@, path@, commit@));
    }
    repo::arguments(&parts)
}

/// The command that removes a worktree from a mirror.
pub open spec fn remove_words(mirror: Seq<char>, path: Seq<char>) -> Seq<Seq<char>> {
    seq!["-C"@, mirror, "worktree"@, "remove"@, "--force"@, path]
}

/// The command that removes a worktree from a mirror.
pub fn remove_command(mirror: &str, path: &str) -> (r: Vec<String>)
    ensures
        text::texts(r@) == remove_words(mirror@, path@),
{
    let parts: Vec<&str> = vec!["-C", mirror, "worktree", "remove", "--force", path];
    proof {
        assert(repo::str_views(parts@) =~= remove_words(mirror@, path@));
    }
    repo::arguments(&parts)
}

/// Why a worktree was not added.
pub open spec fn add_fault(
    context: Seq<char>,
    path: Seq<char>,
    commit: Seq<char>,
    out: GitOutput,
) -> Option<Fault> {
    if out.cancelled {
        Some(Fault::Cancelled)
    } else if repo::broke(out) {
        Some(
            Fault::Worktree {
                context,
                stderr: "git worktree add --detach "@ + path + " "@ + commit + " failed: "@
                    + out.stderr@,
            },
        )
    } else {
        None
    }
}

/// Check that a worktree was added.
pub fn check_added(context: &'static str, path: &str, commit: &str, out: &GitOutput) -> (r: Result<
    (),
    CaduceusError,
>)
    ensures
        crate::error::verdict(r) == review::unless(add_fault(context@, path@, commit@, *out)),
{
    if out.cancelled {
        return Err(CaduceusError::Cancelled);
    }
    if repo::has_broken(out) {
        let mut m = text::cat("git worktree add --detach ", path);
        m.append(" ");
        m.append(commit);
        m.append(" failed: ");
        m.append(out.stderr.as_str());
        return Err(CaduceusError::Worktree { context, stderr: m });
    }
    Ok(())
}

/// An error of the file system at a path.
pub open spec fn io_fault(
    context: Seq<char>,
    what: Seq<char>,
    path: Seq<char>,
    message: Seq<char>,
) -> Fault {
    Fault::Worktree { context, stderr: what + path + " failed: "@ + message }
}

/// An error of the file system at a path.
pub fn io_error(context: &'static str, what: &str, path: &str, message: &str) -> (r: CaduceusError)
    ensures
        r@ == io_fault(context@, what@, path@, message@),
{
    let mut m = text::cat(what, path);
    m.append(" failed: ");
    m.append(message);
    CaduceusError::Worktree { context, stderr: m }
}

/// Why a removal did not finish: the command was cancelled, or what was left
/// could not be removed.
pub open spec fn removal_fault(
    context: Seq<char>,
    path: Seq<char>,
    out: GitOutput,
    swept: Option<Result<(), String>>,
) -> Option<Fault> {
    if out.cancelled {
        Some(Fault::Cancelled)
    } else {
        match swept {
            Some(Err(e)) => Some(io_fault(context, "fs remove_dir_all "@, path, e@)),
            _ => None,
        }
    }
}

/// Check a removal: `swept` is what came of removing the directory, where the
/// command had left it.
pub fn check_removed(
    context: &'static str,
    path: &str,
    out: &GitOutput,
    swept: &Option<Result<(), String>>,
) -> (r: Result<(), CaduceusError>)
    ensures
        crate::error::verdict(r) == review::unless(removal_fault(context@, path@, *out, *swept)),
{
    if out.cancelled {
        return Err(CaduceusError::Cancelled);
    }
    match swept {
        Some(Err(e)) => Err(io_error(context, "fs remove_dir_all ", path, e.as_str())),
        _ => Ok(()),
    }
}

/// A place that is taken.
pub open spec fn taken(run_id: Seq<char>, path: Seq<char>) -> Fault {
    Fault::WorktreeReuseAfterFailure { run_id, worktree_path: path, last_state: "exists"@ }
}

/// What came of making a worktree.
pub open spec fn created(
    mirror: BareMirror,
    run_id: Seq<char>,
    base_oid: Seq<char>,
    exists: bool,
    dir_made: Result<(), String>,
    out: GitOutput,
) -> Result<Seq<char>, Fault> {
    match place(mirror.path@, run_id) {
        Err(f) => Err(f),
        Ok(p) => if exists {
            Err(taken(run_id, p.1))
        } else {
            match dir_made {
                Err(e) => Err(
                    io_fault("repo-create"@, "create worktree parent "@, p.0, e@),
                ),
                Ok(_) => match add_fault("repo-create"@, p.1, base_oid, out) {
                    Some(f) => Err(f),
                    None => Ok(p.1),
                },
            }
        },
    }
}

impl Worktree {
    /// Where the worktree of a run goes.
    pub fn place(mirror: &BareMirror, run_id: &str) -> (r: Result<WorktreePlace, CaduceusError>)
        ensures
            place_seen(r) == place(mirror.path@, run_id@),
    {
        match validate_run_id(run_id) {
            Err(e) => {
                return Err(e);
            },
            Ok(_) => {},
        }
        match storage_root_of(mirror.path.as_str()) {
            None => Err(
                CaduceusError::Config("cannot resolve storage root from mirror path".to_owned()),
            ),
            Some(root) => {
                let dir = path::join(root.as_str(), "worktrees");
                let path = path::join(dir.as_str(), run_id);
                Ok(WorktreePlace { dir, path })
            },
        }
    }

    /// Refuse to make a worktree where one is: a path that an earlier attempt
    /// left is not used again.
    pub fn refuse_reuse(run_id: &str, path: &str, exists: bool) -> (r: Result<(), CaduceusError>)
        ensures
            crate::error::verdict(r) == review::unless(
                if exists {
                    Some(taken(run_id@, path@))
                } else {
                    None
                },
            ),
    {
        if exists {
            return Err(
                CaduceusError::WorktreeReuseAfterFailure {
                    run_id: run_id.to_owned(),
                    worktree_path: path.to_owned(),
                    last_state: "exists".to_owned(),
                },
            );
        }
        Ok(())
    }

    /// The worktree of a run, from what was seen on the way: whether its place
    /// was taken, what came of making its directory, and of adding it.
    pub fn create(
        mirror: &BareMirror,
        run_id: &str,
        base_oid: &str,
        exists: bool,
        dir_made: &Result<(), String>,
        out: &GitOutput,
        now: Timestamp,
    ) -> (r: Result<Worktree, CaduceusError>)
        ensures
            match r {
                Ok(w) => created(*mirror, run_id@, base_oid@, exists, *dir_made, *out) == Ok::<
                    Seq<char>,
                    Fault,
                >(w.path@) && w.mirror == *mirror && w.run_id@ == run_id@ && w.base_oid@
                    == base_oid@ && w.created_at == now,
                Err(e) => created(*mirror, run_id@, base_oid@, exists, *dir_made, *out) == Err::<
                    Seq<char>,
                    Fault,
                >(e@),
            },
    {
        let place = match Worktree::place(mirror, run_id) {
            Err(e) => {
                return Err(e);
            },
            Ok(p) => p,
        };
        match Worktree::refuse_reuse(run_id, place.path.as_str(), exists) {
            Err(e) => {
                return Err(e);
            },
            Ok(_) => {},
        }
        match dir_made {
            Err(e) => {
                return Err(
                    io_error(
                        "repo-create",
                        "create worktree parent ",
                        place.dir.as_str(),
                        e.as_str(),
                    ),
                );
            },
            Ok(_) => {},
        }
        match check_added("repo-create", place.path.as_str(), base_oid, out) {
            Err(e) => {
                return Err(e);
            },
            Ok(_) => {},
        }
        Ok(
            Worktree {
                mirror: mirror.clone(),
                run_id: run_id.to_owned(),
                path: place.path,
                base_oid: base_oid.to_owned(),
                created_at: now,
            },
        )
    }

    /// What came of removing the worktree.
    pub fn remove(&self, out: &GitOutput, swept: &Option<Result<(), String>>) -> (r: Result<
        (),
        CaduceusError,
    >)
        ensures
            crate::error::verdict(r) == review::unless(
                removal_fault("repo-remove"@, self.path@, *out, *swept),
            ),
    {
        check_removed("repo-remove", self.path.as_str(), out, swept)
    }
}

/// No worktree is made in a place that is taken, whatever else was seen.
pub proof fn law_a_taken_place_is_refused(
    mirror: BareMirror,
    run_id: Seq<char>,
    base_oid: Seq<char>,
    dir_made: Result<(), String>,
    out: GitOutput,
)
    ensures
        created(mirror, run_id, base_oid, true, dir_made, out) is Err,
{
}

/// The storage root of a mirror that is where mirrors go is the root of that
/// storage.
pub proof fn law_a_mirror_knows_its_storage(root: Seq<char>, owner: Seq<char>, name: Seq<char>)
    requires
        root.len() > 0,
        path::is_name(owner),
        !name.contains('/'),
    ensures
        storage_root(repo::mirror::mirror_place(root, owner, name)) == Some(path::tidy(root)),
        path::parent(repo::mirror::mirror_place(root, owner, name)) == Some(
            path::joined(path::joined(root, "mirrors"@), owner),
        ),
        path::parent(path::joined(path::joined(root, "mirrors"@), owner)) == Some(
            path::joined(root, "mirrors"@),
        ),
        path::file_name(path::joined(root, "mirrors"@)) == Some("mirrors"@),
{
    reveal_strlit("mirrors");
    reveal_strlit(".git");
    reveal_strlit("/");
    reveal_strlit(".");
    reveal_strlit("..");
    let mirrors = path::joined(root, "mirrors"@);
    let dir = path::joined(mirrors, owner);
    let leaf = name + ".git"@;
    assert(!"mirrors"@.contains('/'));
    assert forall|i: int| 0 <= i < leaf.len() implies leaf[i] != '/' by {
        if i < name.len() {
            assert(name.contains(name[i]));
        } else {
            assert(leaf[i] == ".git"@[i - name.len()]);
        }
    }
    assert(!leaf.contains('/'));
    assert(path::is_name("mirrors"@)) by {
        assert("mirrors"@.len() == 7);
        assert("."@.len() == 1);
        assert(".."@.len() == 2);
    }
    assert(leaf.len() >= 4);
    path::law_a_name_is_in_its_directory(root, "mirrors"@);
    path::law_a_name_is_in_its_directory(mirrors, owner);
    path::law_a_name_is_in_its_directory(dir, leaf);
}

/// The name of a run is at most 64 bytes of letters and digits of ASCII, underscores
/// and hyphens, and not empty.
pub proof fn law_run_names_are_plain(run_id: Seq<char>)
    ensures
        run_id_fault(run_id) is None <==> run_id.len() > 0 && text::utf8_len(run_id) <= 64
            && forall|i: int|
            0 <= i < run_id.len() ==> {
                let c = #[trigger] run_id[i];
                ('a' <= c && c <= 'z') || ('A' <= c && c <= 'Z') || ('0' <= c && c <= '9') || c
                    == '_' || c == '-'
            },
        run_id.len() == 0 ==> run_id_fault(run_id) == Some(
            Fault::Worktree { context: "repo-create"@, stderr: "run_id must not be empty"@ },
        ),
        run_id_fault(run_id) matches Some(f) ==> f is Worktree,
{
    if run_id_fault(run_id) is None {
        assert forall|i: int| 0 <= i < run_id.len() implies is_run_id_char(
            #[trigger] run_id[i],
        ) by {}
    }
}

/// A worktree of a run stands beside the mirrors, under the name of its run.
pub proof fn law_a_worktree_has_its_place(mirror: Seq<char>, run_id: Seq<char>)
    ensures
        place(mirror, run_id) is Ok <==> run_id_fault(run_id) is None && storage_root(mirror)
            is Some,
        place(mirror, run_id) matches Ok(p) ==> p.0 == path::joined(
            storage_root(mirror)->0,
            "worktrees"@,
        ) && p.1 == path::joined(path::joined(storage_root(mirror)->0, "worktrees"@), run_id),
        run_id_fault(run_id) matches Some(f) ==> place(mirror, run_id) == Err::<
            (Seq<char>, Seq<char>),
            Fault,
        >(f),
{
}

/// A worktree is added with a detached head at the commit, and removed by force.
pub proof fn law_worktrees_are_detached(mirror: Seq<char>, path: Seq<char>, commit: Seq<char>)
    ensures
        add_words(mirror, path, commit) == seq![
            "-C"@,
            mirror,
            "worktree"@,
            "add"@,
            "--detach"@,
            path,
            commit,
        ],
        remove_words(mirror, path) == seq!["-C"@, mirror, "worktree"@, "remove"@, "--force"@, path],
{
}

/// A worktree is there exactly when its place was free, its directory was made and
/// the command succeeded; then it is at its place.
pub proof fn law_a_worktree_is_created_when_all_goes_well(
    mirror: BareMirror,
    run_id: Seq<char>,
    base_oid: Seq<char>,
    exists: bool,
    dir_made: Result<(), String>,
    out: GitOutput,
)
    ensures
        ({
            let r = created(mirror, run_id, base_oid, exists, dir_made, out);
            let p = place(mirror.path@, run_id);
            &&& r is Ok <==> p is Ok && !exists && dir_made is Ok && !out.cancelled
                && !out.timed_out && out.status == Some(0i32)
            &&& r is Ok ==> r->Ok_0 == p->Ok_0.1
            &&& p is Ok && exists ==> r == Err::<Seq<char>, Fault>(
                Fault::WorktreeReuseAfterFailure {
                    run_id,
                    worktree_path: p->Ok_0.1,
                    last_state: "exists"@,
                },
            )
            &&& p is Ok && !exists && dir_made is Ok && out.cancelled ==> r == Err::<
                Seq<char>,
                Fault,
            >(Fault::Cancelled)
        }),
{
}

/// A removal fails only when it was cancelled, or when the directory had to be
/// swept and could not be.
pub proof fn law_a_removal_fails_when_the_sweep_does(
    context: Seq<char>,
    path: Seq<char>,
    out: GitOutput,
    swept: Option<Result<(), String>>,
)
    ensures
        removal_fault(context, path, out, swept) is None <==> !out.cancelled && (swept is None
            || swept->0 is Ok),
        out.cancelled ==> removal_fault(context, path, out, swept) == Some(Fault::Cancelled),
        !out.cancelled ==> (swept matches Some(Err(e)) ==> removal_fault(context, path, out, swept)
            == Some(
            Fault::Worktree {
                context,
                stderr: "fs remove_dir_all "@ + path + " failed: "@ + e@,
            },
        )),
{
}

/// What is said of a run name, a place and a command that are refused.
pub proof fn law_a_refused_worktree_says_why(
    mirror: BareMirror,
    run_id: Seq<char>,
    base_oid: Seq<char>,
    error: String,
    out: GitOutput,
)
    ensures
        run_id.len() > 0 && text::utf8_len(run_id) > 64 ==> run_id_fault(run_id) == Some(
            Fault::Worktree {
                context: "repo-create"@,
                stderr: "run_id length "@ + text::dec(text::utf8_len(run_id))
                    + " exceeds 64-char limit"@,
            },
        ),
        run_id.len() > 0 && text::utf8_len(run_id) <= 64 && run_id_fault(run_id) is Some
            ==> run_id_fault(run_id) == Some(
            Fault::Worktree {
                context: "repo-create"@,
                stderr: "run_id "@ + text::quote(run_id) + " contains invalid characters"@,
            },
        ),
        run_id_fault(run_id) is None && storage_root(mirror.path@) is None ==> place(
            mirror.path@,
            run_id,
        ) == Err::<(Seq<char>, Seq<char>), Fault>(
            Fault::Config("cannot resolve storage root from mirror path"@),
        ),
        place(mirror.path@, run_id) matches Ok(p) ==> created(
            mirror,
            run_id,
            base_oid,
            false,
            Err(error),
            out,
        ) == Err::<Seq<char>, Fault>(
            Fault::Worktree {
                context: "repo-create"@,
                stderr: "create worktree parent "@ + p.0 + " failed: "@ + error@,
            },
        ),
        !out.cancelled && repo::broke(out) ==> (place(mirror.path@, run_id) matches Ok(p)
            ==> created(mirror, run_id, base_oid, false, Ok(()), out) == Err::<Seq<char>, Fault>(
            Fault::Worktree {
                context: "repo-create"@,
                stderr: "git worktree add --detach "@ + p.1 + " "@ + base_oid + " failed: "@
                    + out.stderr@,
            },
        )),
{
}

} // verus!
