//! Issue identity: `owner/repo#number`.

use vstd::prelude::*;

use crate::error::{CaduceusError, Fault};
use crate::text;

verus! {

/// One GitHub issue.
#[derive(Debug)]
pub struct IssueKey {
    pub owner: String,
    pub repo: String,
    pub number: u64,
}

/// An [`IssueKey`] with its texts as character sequences.
pub struct IssueView {
    pub owner: Seq<char>,
    pub repo: Seq<char>,
    pub number: u64,
}

impl View for IssueKey {
    type V = IssueView;

    open spec fn view(&self) -> IssueView {
        IssueView { owner: self.owner@, repo: self.repo@, number: self.number }
    }
}

impl Clone for IssueKey {
    fn clone(&self) -> (r: Self)
        ensures
            r == *self,
    {
        IssueKey { owner: self.owner.clone(), repo: self.repo.clone(), number: self.number }
    }
}

/// A character that GitHub allows in an owner or repository name.
pub open spec fn is_slug_char(c: char) -> bool {
    text::is_ascii_alnum(c) || c == '-' || c == '_' || c == '.'
}

/// An owner or repository name.
pub open spec fn is_slug_part(s: Seq<char>) -> bool {
    s.len() > 0 && forall|i: int| 0 <= i < s.len() ==> is_slug_char(#[trigger] s[i])
}

/// An `owner/repo` slug: two names around one `/`.
pub open spec fn is_slug(s: Seq<char>) -> bool {
    exists|i: int|
        0 <= i < s.len() && #[trigger] s[i] == '/' && is_slug_part(s.take(i)) && is_slug_part(
            s.skip(i + 1),
        )
}

fn slug_part(chars: &Vec<char>, from: usize, to: usize) -> (r: bool)
    requires
        from <= to <= chars.len(),
    ensures
        r == is_slug_part(chars@.subrange(from as int, to as int)),
{
    if from == to {
        return false;
    }
    let ghost part = chars@.subrange(from as int, to as int);
    let mut i: usize = from;
    while i < to
        invariant
            from <= i <= to <= chars.len(),
            part == chars@.subrange(from as int, to as int),
            forall|j: int| 0 <= j < i - from ==> is_slug_char(#[trigger] part[j]),
        decreases to - i,
    {
        let c = chars[i];
        if !(text::ascii_alnum(c) || c == '-' || c == '_' || c == '.') {
            proof {
                assert(!is_slug_char(part[i - from]));
            }
            return false;
        }
        i += 1;
    }
    true
}

/// Is `s` an `owner/repo` slug?
pub fn is_valid_repo_slug(s: &str) -> (r: bool)
    ensures
        r == is_slug(s@),
{
    let chars = text::chars_of(s);
    let mut i: usize = 0;
    while i < chars.len()
        invariant
            chars@ == s@,
            i <= chars.len(),
            forall|j: int| 0 <= j < i ==> chars@[j] != '/',
        decreases chars.len() - i,
    {
        if chars[i] == '/' {
            let ok = slug_part(&chars, 0, i) && slug_part(&chars, i + 1, chars.len());
            proof {
                assert(s@.take(i as int) =~= s@.subrange(0, i as int));
                assert(s@.skip(i + 1) =~= s@.subrange(i + 1, s@.len() as int));
                assert forall|k: int|
                    0 <= k < s@.len() && #[trigger] s@[k] == '/' && is_slug_part(s@.take(k))
                        && is_slug_part(s@.skip(k + 1)) implies k == i by {
                    if k > i {
                        assert(s@.take(k)[i as int] == '/');
                    }
                }
            }
            return ok;
        }
        i += 1;
    }
    false
}

impl IssueView {
    /// `owner/repo#number`.
    pub open spec fn plain(self) -> Seq<char> {
        self.owner + "/"@ + self.repo + "#"@ + text::dec(self.number as nat)
    }

    /// The lowercase display form, the canonical key of the issue.
    pub open spec fn display_key(self) -> Seq<char> {
        text::lowercase(self.plain())
    }

    /// Owner and repository are GitHub names and the number is positive.
    pub open spec fn valid(self) -> bool {
        is_slug_part(self.owner) && is_slug_part(self.repo) && self.number > 0
    }

    /// Why the key is not valid.
    pub open spec fn complaint(self) -> Fault {
        Fault::Other("invalid issue key "@ + self.plain())
    }
}

/// Are the two keys the same?
pub fn same_issue(a: &IssueKey, b: &IssueKey) -> (r: bool)
    ensures
        r == (a@ == b@),
{
    a.number == b.number && text::same(a.owner.as_str(), b.owner.as_str()) && text::same(
        a.repo.as_str(),
        b.repo.as_str(),
    )
}

impl IssueKey {
    /// `owner/repo#number`.
    pub fn plain(&self) -> (r: String)
        ensures
            r@ == self@.plain(),
    {
        let mut out = text::cat(self.owner.as_str(), "/");
        out.append(self.repo.as_str());
        out.append("#");
        out.append(text::decimal(self.number).as_str());
        out
    }

    /// The lowercase display form, the canonical key of the issue.
    pub fn display_key(&self) -> (r: String)
        ensures
            r@ == self@.display_key(),
    {
        text::lowered(self.plain().as_str())
    }

    /// Check owner, repository and number.
    pub fn validate(&self) -> (r: Result<(), CaduceusError>)
        ensures
            crate::error::verdict(r) == (if self@.valid() {
                Ok(())
            } else {
                Err(self@.complaint())
            }),
    {
        let owner = text::chars_of(self.owner.as_str());
        let repo = text::chars_of(self.repo.as_str());
        proof {
            assert(owner@.subrange(0, owner@.len() as int) =~= owner@);
            assert(repo@.subrange(0, repo@.len() as int) =~= repo@);
        }
        if slug_part(&owner, 0, owner.len()) && slug_part(&repo, 0, repo.len()) && self.number > 0 {
            Ok(())
        } else {
            Err(CaduceusError::Other(text::cat("invalid issue key ", self.plain().as_str())))
        }
    }

    /// Read `owner/repo#number`.
    pub fn parse(s: &str) -> (r: Option<IssueKey>)
        ensures
            match r {
                Some(k) => k@.valid() && reads(s@, k@),
                None => forall|k: IssueView| k.valid() ==> !reads(s@, k),
            },
    {
        let chars = text::chars_of(s);
        let mut slash: usize = 0;
        while slash < chars.len() && chars[slash] != '/'
            invariant
                chars@ == s@,
                slash <= chars.len(),
                forall|j: int| 0 <= j < slash ==> chars@[j] != '/',
            decreases chars.len() - slash,
        {
            slash += 1;
        }
        let mut hash: usize = 0;
        while hash < chars.len() && chars[hash] != '#'
            invariant
                chars@ == s@,
                hash <= chars.len(),
                forall|j: int| 0 <= j < hash ==> chars@[j] != '#',
            decreases chars.len() - hash,
        {
            hash += 1;
        }
        proof {
            assert forall|k: IssueView| k.valid() && reads(s@, k) implies slash < hash < s@.len()
                && k.owner == s@.take(slash as int) && k.repo == s@.subrange(
                slash + 1,
                hash as int,
            ) && text::number(s@.skip(hash + 1)) == Some(k.number as nat) by {
                let tail = s@.skip((k.owner.len() + k.repo.len() + 2) as int);
                let head = k.owner + "/"@ + k.repo + "#"@;
                reveal_strlit("/");
                reveal_strlit("#");
                let a = k.owner.len() as int;
                let b = a + 1 + k.repo.len();
                assert(head =~= s@.take(b + 1));
                assert(s@.take(b + 1)[a] == '/');
                assert(s@.take(b + 1)[b] == '#');
                assert forall|j: int| 0 <= j < a implies s@[j] != '/' && s@[j] != '#' by {
                    assert(s@.take(b + 1)[j] == k.owner[j]);
                    assert(is_slug_char(k.owner[j]));
                }
                assert forall|j: int| a < j < b implies s@[j] != '#' by {
                    assert(s@.take(b + 1)[j] == k.repo[j - a - 1]);
                    assert(is_slug_char(k.repo[j - a - 1]));
                }
                assert(slash == a);
                assert(hash == b);
                assert(k.owner =~= s@.take(a));
                assert forall|j: int| 0 <= j < k.repo.len() implies k.repo[j] == s@[a + 1 + j] by {
                    assert(s@.take(b + 1)[a + 1 + j] == k.repo[j]);
                }
                assert(k.repo =~= s@.subrange(a + 1, b));
            }
        }
        if slash >= hash || hash >= chars.len() {
            return None;
        }
        let digits = text::text_of(&chars, hash + 1, chars.len());
        proof {
            assert(digits@ =~= s@.skip(hash + 1));
        }
        let number = match text::parse_number(digits.as_str(), u64::MAX) {
            Some(n) => n,
            None => {
                return None;
            },
        };
        let key = IssueKey {
            owner: text::text_of(&chars, 0, slash),
            repo: text::text_of(&chars, slash + 1, hash),
            number,
        };
        proof {
            assert(key@.owner =~= s@.take(slash as int));
            reveal_strlit("/");
            reveal_strlit("#");
            assert(s@.take(hash + 1) =~= key@.owner + "/"@ + key@.repo + "#"@);
            assert(s@.skip((key@.owner.len() + key@.repo.len() + 2) as int) =~= s@.skip(hash + 1));
        }
        if key.validate().is_ok() {
            Some(key)
        } else {
            proof {
                assert forall|k: IssueView| k.valid() implies !reads(s@, k) by {
                    if reads(s@, k) {
                        assert(k.owner =~= key@.owner);
                        assert(k.repo =~= key@.repo);
                        assert(k == key@);
                    }
                }
            }
            None
        }
    }
}

/// `s` spells the issue `k`: its owner, `/`, its repository, `#` and its number.
pub open spec fn reads(s: Seq<char>, k: IssueView) -> bool {
    let head = k.owner + "/"@ + k.repo + "#"@;
    &&& head.is_prefix_of(s)
    &&& text::number(s.skip((k.owner.len() + k.repo.len() + 2) as int)) == Some(k.number as nat)
}

/// The issue that `s` spells, if it spells one.
pub open spec fn spelled(s: Seq<char>) -> Option<IssueView> {
    if exists|k: IssueView| k.valid() && reads(s, k) {
        Some(choose|k: IssueView| k.valid() && reads(s, k))
    } else {
        None
    }
}

/// A text spells at most one issue.
pub proof fn law_a_text_spells_one_issue(s: Seq<char>, a: IssueView, b: IssueView)
    requires
        a.valid(),
        b.valid(),
        reads(s, a),
        reads(s, b),
    ensures
        a == b,
{
    reveal_strlit("/");
    reveal_strlit("#");
    let ha = a.owner + "/"@ + a.repo + "#"@;
    let hb = b.owner + "/"@ + b.repo + "#"@;
    assert(ha =~= s.subrange(0, ha.len() as int));
    assert(hb =~= s.subrange(0, hb.len() as int));
    let p = a.owner.len() as int;
    let q = b.owner.len() as int;
    assert(ha[p] == '/' && hb[q] == '/');
    assert forall|i: int| 0 <= i < p implies s[i] == a.owner[i] by {
        assert(ha[i] == a.owner[i]);
    }
    assert forall|i: int| 0 <= i < q implies s[i] == b.owner[i] by {
        assert(hb[i] == b.owner[i]);
    }
    assert(s[p] == '/' && s[q] == '/');
    if p < q {
        assert(s[p] == b.owner[p]);
        assert(is_slug_char(b.owner[p]));
    }
    if q < p {
        assert(s[q] == a.owner[q]);
        assert(is_slug_char(a.owner[q]));
    }
    assert forall|i: int| 0 <= i < p implies a.owner[i] == b.owner[i] by {
        assert(s[i] == a.owner[i]);
        assert(s[i] == b.owner[i]);
    }
    assert(a.owner =~= b.owner);
    let x = a.repo.len() as int;
    let y = b.repo.len() as int;
    assert forall|i: int| 0 <= i < x implies s[p + 1 + i] == a.repo[i] by {
        assert(ha[p + 1 + i] == a.repo[i]);
    }
    assert forall|i: int| 0 <= i < y implies s[p + 1 + i] == b.repo[i] by {
        assert(hb[p + 1 + i] == b.repo[i]);
    }
    assert(ha[p + 1 + x] == '#' && hb[p + 1 + y] == '#');
    assert(s[p + 1 + x] == '#' && s[p + 1 + y] == '#');
    if x < y {
        assert(s[p + 1 + x] == b.repo[x]);
        assert(is_slug_char(b.repo[x]));
    }
    if y < x {
        assert(s[p + 1 + y] == a.repo[y]);
        assert(is_slug_char(a.repo[y]));
    }
    assert forall|i: int| 0 <= i < x implies a.repo[i] == b.repo[i] by {
        assert(s[p + 1 + i] == a.repo[i]);
        assert(s[p + 1 + i] == b.repo[i]);
    }
    assert(a.repo =~= b.repo);
}

/// The plain form of an issue reads as that issue.
pub proof fn law_plain_form_reads_back(k: IssueView)
    ensures
        reads(k.plain(), k),
{
    reveal_strlit("/");
    reveal_strlit("#");
    let head = k.owner + "/"@ + k.repo + "#"@;
    let tail = text::dec(k.number as nat);
    assert(k.plain() =~= head + tail);
    assert(k.plain().subrange(0, head.len() as int) =~= head);
    assert(k.plain().skip((k.owner.len() + k.repo.len() + 2) as int) =~= tail);
    text::lemma_number_of_dec(k.number as nat);
}

/// The letters of a name are the letters and digits of ASCII, the hyphen, the
/// underscore and the dot.
pub proof fn law_names_have_these_letters(c: char)
    ensures
        is_slug_char(c) <==> ('a' <= c && c <= 'z') || ('A' <= c && c <= 'Z') || ('0' <= c && c
            <= '9') || c == '-' || c == '_' || c == '.',
{
}

/// Two names joined by a slash are a repository's name, and nothing else is.
pub proof fn law_a_repository_is_two_names(s: Seq<char>, owner: Seq<char>, repo: Seq<char>)
    ensures
        is_slug_part(owner) && is_slug_part(repo) ==> is_slug(owner + seq!['/'] + repo),
        is_slug(s) ==> exists|a: Seq<char>, b: Seq<char>|
            is_slug_part(a) && is_slug_part(b) && s == #[trigger] (a + seq!['/'] + b),
        is_slug_part(owner) <==> owner.len() > 0 && forall|i: int|
            0 <= i < owner.len() ==> is_slug_char(#[trigger] owner[i]),
{
    if is_slug_part(owner) && is_slug_part(repo) {
        let t = owner + seq!['/'] + repo;
        assert(t[owner.len() as int] == '/');
        assert(t.take(owner.len() as int) =~= owner);
        assert(t.skip(owner.len() as int + 1) =~= repo);
    }
    if is_slug(s) {
        let i = choose|i: int|
            0 <= i < s.len() && #[trigger] s[i] == '/' && is_slug_part(s.take(i)) && is_slug_part(
                s.skip(i + 1),
            );
        assert(s =~= s.take(i) + seq!['/'] + s.skip(i + 1));
    }
}

/// An issue reads back from owner, slash, repository, hash and number, if it has a
/// number and both names are names; and a text that reads as an issue has this
/// form.
pub proof fn law_an_issue_is_spelled_in_full(k: IssueView, s: Seq<char>)
    ensures
        is_slug_part(k.owner) && is_slug_part(k.repo) && k.number > 0 ==> spelled(
            k.owner + "/"@ + k.repo + "#"@ + text::dec(k.number as nat),
        ) == Some(k),
        spelled(s) matches Some(f) ==> is_slug_part(f.owner) && is_slug_part(f.repo) && f.number > 0
            && (f.owner + "/"@ + f.repo + "#"@).is_prefix_of(s) && text::number(
            s.skip((f.owner.len() + f.repo.len() + 2) as int),
        ) == Some(f.number as nat),
{
    if k.valid() {
        law_plain_form_reads_back(k);
        let t = k.plain();
        let f = choose|f: IssueView| f.valid() && reads(t, f);
        law_a_text_spells_one_issue(t, k, f);
    }
}

/// The key of an issue is the same however its names are written, and holds owner,
/// repository and number.
pub proof fn law_a_key_ignores_case(k: IssueView)
    ensures
        k.display_key() == text::lowercase(
            k.owner + "/"@ + k.repo + "#"@ + text::dec(k.number as nat),
        ),
        k.complaint() == Fault::Other(
            "invalid issue key "@ + (k.owner + "/"@ + k.repo + "#"@ + text::dec(k.number as nat)),
        ),
{
}

} // verus!
