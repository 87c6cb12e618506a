//! Paths as text.

use vstd::prelude::*;

use crate::text;

verus! {

/// `name` inside the directory `dir`; an absolute `name` stands for itself.
pub open spec fn joined(dir: Seq<char>, name: Seq<char>) -> Seq<char> {
    if name.len() > 0 && name[0] == '/' {
        name
    } else if dir.len() == 0 || dir.last() == '/' {
        dir + name
    } else {
        dir + "/"@ + name
    }
}

/// `name` inside the directory `dir`; an absolute `name` stands for itself.
pub fn join(dir: &str, name: &str) -> (r: String)
    ensures
        r@ == joined(dir@, name@),
{
    proof {
        reveal_strlit("/");
        assert("/"@ =~= seq!['/']);
        if name@.len() > 0 && name@[0] == '/' {
            assert(name@.subrange(0, 1) =~= "/"@);
        }
        if "/"@.is_prefix_of(name@) {
            assert("/"@[0] == name@.subrange(0, 1)[0]);
        }
        if dir@.len() > 0 && "/"@.is_suffix_of(dir@) {
            assert("/"@[0] == dir@.subrange(dir@.len() - 1, dir@.len() as int)[0]);
        }
        if dir@.len() > 0 && dir@.last() == '/' {
            assert(dir@.subrange(dir@.len() - 1, dir@.len() as int) =~= "/"@);
        }
    }
    if text::begins(name, "/") {
        name.to_owned()
    } else if dir.is_empty() || text::ends(dir, "/") {
        text::cat(dir, name)
    } else {
        let mut out = text::cat(dir, "/");
        out.append(name);
        out
    }
}

/// The path without separators at its end, and without `.` as a last component
/// after another.
pub open spec fn tidy(s: Seq<char>) -> Seq<char>
    decreases s.len(),
{
    if s.len() > 1 && (s.last() == '/' || (s.last() == '.' && s[s.len() - 2] == '/')) {
        tidy(s.drop_last())
    } else {
        s
    }
}

/// Where the last component begins.
pub open spec fn leaf_start(s: Seq<char>) -> int
    decreases s.len(),
{
    if s.len() == 0 {
        0
    } else if s.last() == '/' {
        s.len() as int
    } else {
        leaf_start(s.drop_last())
    }
}

/// The path without its last component; none of a root or an empty path.
pub open spec fn parent(s: Seq<char>) -> Option<Seq<char>> {
    let t = tidy(s);
    if t.len() == 0 || t == seq!['/'] {
        None
    } else {
        Some(tidy(t.take(leaf_start(t))))
    }
}

/// The last component, if it is a name.
pub open spec fn file_name(s: Seq<char>) -> Option<Seq<char>> {
    let t = tidy(s);
    let leaf = t.skip(leaf_start(t));
    if leaf.len() == 0 || leaf == "."@ || leaf == ".."@ {
        None
    } else {
        Some(leaf)
    }
}

fn tidy_len(chars: &Vec<char>, n: usize) -> (r: usize)
    requires
        n <= chars.len(),
    ensures
        r <= n,
        chars@.take(r as int) == tidy(chars@.take(n as int)),
{
    let mut k: usize = n;
    while k > 1 && (chars[k - 1] == '/' || (chars[k - 1] == '.' && chars[k - 2] == '/'))
        invariant
            k <= n <= chars.len(),
            tidy(chars@.take(k as int)) == tidy(chars@.take(n as int)),
        decreases k,
    {
        proof {
            assert(chars@.take(k as int).drop_last() =~= chars@.take(k - 1));
        }
        k -= 1;
    }
    k
}

fn leaf_at(chars: &Vec<char>, n: usize) -> (r: usize)
    requires
        n <= chars.len(),
    ensures
        r <= n,
        r == leaf_start(chars@.take(n as int)),
{
    let mut k: usize = n;
    while k > 0 && chars[k - 1] != '/'
        invariant
            k <= n <= chars.len(),
            leaf_start(chars@.take(k as int)) == leaf_start(chars@.take(n as int)),
        decreases k,
    {
        proof {
            assert(chars@.take(k as int).drop_last() =~= chars@.take(k - 1));
        }
        k -= 1;
    }
    k
}

/// The path without its last component; none of a root or an empty path.
pub fn parent_of(path: &str) -> (r: Option<String>)
    ensures
        text::opt(r) == parent(path@),
{
    let chars = text::chars_of(path);
    let n: usize = tidy_len(&chars, chars.len());
    let ghost t = tidy(path@);
    proof {
        assert(chars@.take(chars.len() as int) =~= path@);
        assert(t == chars@.take(n as int));
    }
    if n == 0 || (n == 1 && chars[0] == '/') {
        proof {
            if n == 1 {
                assert(t =~= seq!['/']);
            }
        }
        return None;
    }
    let k: usize = leaf_at(&chars, n);
    let m: usize = tidy_len(&chars, k);
    let out = text::text_of(&chars, 0, m);
    proof {
        assert(t.take(k as int) =~= chars@.take(k as int));
        assert(out@ =~= chars@.take(m as int));
        if t == seq!['/'] {
            assert(t[0] == '/');
        }
    }
    Some(out)
}

/// The last component, if it is a name.
pub fn file_name_of(path: &str) -> (r: Option<String>)
    ensures
        text::opt(r) == file_name(path@),
{
    let chars = text::chars_of(path);
    let n: usize = tidy_len(&chars, chars.len());
    let k: usize = leaf_at(&chars, n);
    let leaf = text::text_of(&chars, k, n);
    proof {
        assert(chars@.take(chars.len() as int) =~= path@);
        assert(leaf@ =~= tidy(path@).skip(k as int));
    }
    if leaf.as_str().is_empty() || text::same(leaf.as_str(), ".") || text::same(
        leaf.as_str(),
        "..",
    ) {
        None
    } else {
        Some(leaf)
    }
}

/// The components among the first `n` pieces between separators: `.` is one
/// only at the start.
pub open spec fn components(pieces: Seq<Seq<char>>, n: int) -> Seq<Seq<char>>
    decreases n,
{
    if n <= 0 {
        Seq::empty()
    } else {
        let before = components(pieces, n - 1);
        let piece = pieces[n - 1];
        if piece.len() == 0 || (n > 1 && piece == "."@) {
            before
        } else {
            before.push(piece)
        }
    }
}

/// Whether the path is absolute, and its components.
pub open spec fn parts(s: Seq<char>) -> (bool, Seq<Seq<char>>) {
    let pieces = text::split(s, '/');
    (s.len() > 0 && s[0] == '/', components(pieces, pieces.len() as int))
}

fn components_of(path: &str) -> (r: Vec<String>)
    ensures
        text::texts(r@) == parts(path@).1,
{
    let pieces = text::split_on(path, '/');
    let ghost all = text::split(path@, '/');
    let mut out: Vec<String> = Vec::new();
    let mut i: usize = 0;
    proof {
        assert(text::texts(out@) =~= components(all, 0));
    }
    while i < pieces.len()
        invariant
            all == text::texts(pieces@),
            i <= pieces.len(),
            text::texts(out@) == components(all, i as int),
        decreases pieces.len() - i,
    {
        let piece = pieces[i].as_str();
        proof {
            assert(all[i as int] == piece@);
        }
        if !piece.is_empty() && !(i > 0 && text::same(piece, ".")) {
            let ghost before = out@;
            out.push(piece.to_owned());
            proof {
                assert(text::texts(out@) =~= text::texts(before).push(piece@));
            }
        }
        i += 1;
    }
    out
}

/// Do the two texts name the same path?
pub fn same_path(a: &str, b: &str) -> (r: bool)
    ensures
        r == (parts(a@) == parts(b@)),
{
    let x = components_of(a);
    let y = components_of(b);
    let ghost xs = text::texts(x@);
    let ghost ys = text::texts(y@);
    let p = text::chars_of(a);
    let q = text::chars_of(b);
    let absolute = p.len() > 0 && p[0] == '/';
    if absolute != (q.len() > 0 && q[0] == '/') {
        return false;
    }
    if x.len() != y.len() {
        proof {
            assert(xs.len() != ys.len());
        }
        return false;
    }
    let mut i: usize = 0;
    while i < x.len()
        invariant
            xs == text::texts(x@),
            ys == text::texts(y@),
            x.len() == y.len(),
            i <= x.len(),
            forall|j: int| 0 <= j < i ==> #[trigger] xs[j] == ys[j],
            xs == parts(a@).1,
            ys == parts(b@).1,
        decreases x.len() - i,
    {
        proof {
            assert(xs[i as int] == x@[i as int]@);
            assert(ys[i as int] == y@[i as int]@);
        }
        if !text::same(x[i].as_str(), y[i].as_str()) {
            return false;
        }
        i += 1;
    }
    proof {
        assert(xs =~= ys);
    }
    true
}

/// One of the paths is the path `p`.
pub open spec fn among(paths: Seq<Seq<char>>, p: Seq<char>) -> bool {
    exists|i: int| 0 <= i < paths.len() && parts(#[trigger] paths[i]) == parts(p)
}

/// Is one of the paths the path `p`?
pub fn is_among(paths: &Vec<String>, p: &str) -> (r: bool)
    ensures
        r == among(text::texts(paths@), p@),
{
    let mut i: usize = 0;
    while i < paths.len()
        invariant
            i <= paths.len(),
            forall|j: int|
                0 <= j < i ==> parts(#[trigger] text::texts(paths@)[j]) != parts(p@),
        decreases paths.len() - i,
    {
        proof {
            assert(text::texts(paths@)[i as int] == paths@[i as int]@);
        }
        if same_path(paths[i].as_str(), p) {
            return true;
        }
        i += 1;
    }
    false
}

/// A name that is one component: not empty, without a separator, and neither
/// `.` nor `..`.
pub open spec fn is_name(s: Seq<char>) -> bool {
    s.len() > 0 && !s.contains('/') && s != "."@ && s != ".."@
}

proof fn lemma_leaf_start(dir: Seq<char>, name: Seq<char>)
    requires
        dir.len() == 0 || dir.last() == '/',
        !name.contains('/'),
    ensures
        leaf_start(dir + name) == dir.len(),
    decreases name.len(),
{
    if name.len() == 0 {
        assert(dir + name =~= dir);
    } else {
        let whole = dir + name;
        assert(whole.last() == name.last());
        assert(name.contains(name.last()));
        assert(whole.drop_last() =~= dir + name.drop_last());
        assert forall|c: char| name.drop_last().contains(c) implies name.contains(c) by {
            let k = choose|k: int| 0 <= k < name.drop_last().len() && name.drop_last()[k] == c;
            assert(name[k] == c);
        }
        lemma_leaf_start(dir, name.drop_last());
    }
}

/// A name in a directory has the directory as its parent, and itself as its
/// last component.
pub proof fn law_a_name_is_in_its_directory(dir: Seq<char>, name: Seq<char>)
    requires
        dir.len() > 0,
        is_name(name),
    ensures
        parent(joined(dir, name)) == Some(tidy(dir)),
        file_name(joined(dir, name)) == Some(name),
        tidy(joined(dir, name)) == joined(dir, name),
{
    reveal_strlit("/");
    reveal_strlit(".");
    reveal_strlit("..");
    assert(name.contains(name[0]));
    assert(name.contains(name.last()));
    let front = if dir.last() == '/' {
        dir
    } else {
        dir + "/"@
    };
    let whole = joined(dir, name);
    assert(whole =~= front + name);
    assert(whole.last() == name.last());
    if name.len() > 1 {
        assert(whole[whole.len() - 2] == name[name.len() - 2]);
        assert(name.contains(name[name.len() - 2]));
    } else if name.last() == '.' {
        assert(name =~= "."@);
    }
    assert(tidy(whole) == whole);
    lemma_leaf_start(front, name);
    assert(whole.take(front.len() as int) =~= front);
    assert(whole.skip(front.len() as int) =~= name);
    if dir.last() != '/' {
        assert(front.drop_last() =~= dir);
        assert(front.last() == '/');
    }
    if whole == seq!['/'] {
        assert(whole[0] == '/');
    }
}

proof fn lemma_components(pieces: Seq<Seq<char>>, n: int, k: int)
    requires
        0 <= n <= pieces.len(),
        0 <= k < components(pieces, n).len(),
    ensures
        exists|i: int|
            0 <= i < n && (#[trigger] pieces[i]) == components(pieces, n)[k] && pieces[i].len() > 0
                && (i > 0 ==> pieces[i] != "."@),
    decreases n,
{
    if n > 0 {
        let before = components(pieces, n - 1);
        if k < before.len() {
            lemma_components(pieces, n - 1, k);
            assert(components(pieces, n)[k] == before[k]);
        } else {
            assert(pieces[n - 1] == components(pieces, n)[k]);
        }
    }
}

/// The parts of a path are the pieces between its slashes, without the empty ones
/// and without dots behind the first; and whether it starts at the root.
pub proof fn law_a_path_is_its_parts(s: Seq<char>, k: int, n: int)
    ensures
        parts(s).0 <==> s.len() > 0 && s[0] == '/',
        0 <= k < parts(s).1.len() ==> exists|i: int|
            0 <= i < text::split(s, '/').len() && (#[trigger] text::split(s, '/')[i])
                == parts(s).1[k] && text::split(s, '/')[i].len() > 0 && (i > 0 ==> text::split(
                s,
                '/',
            )[i] != "."@),
        0 < n <= text::split(s, '/').len() && text::split(s, '/')[n - 1].len() > 0 && (n == 1
            || text::split(s, '/')[n - 1] != "."@) ==> components(text::split(s, '/'), n)
            == components(text::split(s, '/'), n - 1).push(text::split(s, '/')[n - 1]),
{
    let pieces = text::split(s, '/');
    if 0 <= k < parts(s).1.len() {
        lemma_components(pieces, pieces.len() as int, k);
        let i = choose|i: int|
            0 <= i < pieces.len() && (#[trigger] pieces[i]) == components(
                pieces,
                pieces.len() as int,
            )[k] && pieces[i].len() > 0 && (i > 0 ==> pieces[i] != "."@);
        assert(text::split(s, '/')[i] == parts(s).1[k]);
    }
}

/// A name is joined to its directory by one slash; a name from the root stands
/// alone.
pub proof fn law_names_are_joined_by_a_slash(dir: Seq<char>, name: Seq<char>)
    requires
        dir.len() > 0,
        name.len() > 0,
    ensures
        name[0] == '/' ==> joined(dir, name) == name,
        name[0] != '/' && dir.last() == '/' ==> joined(dir, name) == dir + name,
        name[0] != '/' && dir.last() != '/' ==> joined(dir, name) == dir + "/"@ + name,
        name[0] != '/' ==> joined(Seq::empty(), name) == name,
{
    assert(Seq::<char>::empty() + name =~= name);
}

/// A path is among others when one of them has the same parts.
pub proof fn law_paths_are_told_by_their_parts(
    paths: Seq<Seq<char>>,
    p: Seq<char>,
    i: int,
)
    ensures
        0 <= i < paths.len() && parts(paths[i]) == parts(p) ==> among(paths, p),
        among(paths, p) ==> exists|j: int|
            0 <= j < paths.len() && parts(#[trigger] paths[j]) == parts(p),
        !among(Seq::empty(), p),
{
}

/// A file's name is no dot and no slash; the root has neither name nor parent.
pub proof fn law_the_root_has_no_name(s: Seq<char>)
    ensures
        file_name(s) matches Some(n) ==> n.len() > 0 && n != "."@ && n != ".."@,
        parent(seq!['/']) is None,
        parent(Seq::empty()) is None,
        file_name(Seq::empty()) is None,
{
    assert(tidy(seq!['/']) =~= seq!['/']);
    assert(tidy(Seq::<char>::empty()) =~= Seq::<char>::empty());
    assert(Seq::<char>::empty().skip(leaf_start(Seq::empty())) =~= Seq::<char>::empty());
}

} // verus!
