//! URLs and the `Link` header of paginated responses.

use vstd::prelude::*;

use crate::text;

verus! {

/// The serialization of the URL that a text denotes, as `Url::parse` reads it.
pub uninterp spec fn url_of(input: Seq<char>) -> Option<Seq<char>>;

/// `url::Url::parse`: the serialization of the URL, or nothing when the text is
/// no absolute URL. It is a function of the text alone.
#[verifier::external_body]
pub(crate) fn parse_url(input: &str) -> (r: Option<String>)
    ensures
        text::opt(r) == url_of(input@),
{
    match url::Url::parse(input) {
        Ok(u) => Some(u.as_str().to_string()),
        Err(_) => None,
    }
}

/// The serialization of the URL that a reference denotes against a base URL, as
/// `Url::join` resolves it, or the text of the error.
pub uninterp spec fn url_join(base: Seq<char>, reference: Seq<char>) -> Result<Seq<char>, Seq<char>>;

/// A resolved URL with its texts as character sequences.
pub open spec fn resolved(r: Result<String, String>) -> Result<Seq<char>, Seq<char>> {
    match r {
        Ok(s) => Ok(s@),
        Err(e) => Err(e@),
    }
}

/// `url::Url::join` on the URL that `base` denotes; the error of `Url::parse`
/// where it denotes none. It is a function of the two texts alone.
#[verifier::external_body]
pub(crate) fn join_url(base: &str, reference: &str) -> (r: Result<String, String>)
    ensures
        resolved(r) == url_join(base@, reference@),
{
    match url::Url::parse(base).and_then(|u| u.join(reference)) {
        Ok(u) => Ok(u.as_str().to_string()),
        Err(e) => Err(e.to_string()),
    }
}

/// The serialization of a URL with its path replaced, as `Url::set_path` does.
pub uninterp spec fn url_with_path(url: Seq<char>, path: Seq<char>) -> Option<Seq<char>>;

/// `url::Url::set_path` on the URL that `url` denotes; nothing when it denotes
/// none. The texts are short enough for the crate's 32-bit offsets.
#[verifier::external_body]
pub(crate) fn set_path(url: &str, path: &str) -> (r: Option<String>)
    requires
        text::utf8_len(url@) < 0x1000_0000,
        text::utf8_len(path@) < 0x1000_0000,
    ensures
        text::opt(r) == url_with_path(url@, path@),
{
    let mut u = url::Url::parse(url).ok()?;
    u.set_path(path);
    Some(u.as_str().to_string())
}

/// The serialization of a URL with its path and then its query replaced, as
/// `Url::set_path` and `Url::set_query` do.
pub uninterp spec fn url_with_query(url: Seq<char>, path: Seq<char>, query: Seq<char>) -> Option<
    Seq<char>,
>;

/// `url::Url::set_query` after `url::Url::set_path` on the URL that `url`
/// denotes; nothing when it denotes none. The texts are short enough for the
/// crate's 32-bit offsets.
#[verifier::external_body]
pub(crate) fn set_path_and_query(url: &str, path: &str, query: &str) -> (r: Option<String>)
    requires
        text::utf8_len(url@) < 0x1000_0000,
        text::utf8_len(path@) < 0x1000_0000,
        text::utf8_len(query@) < 0x1000_0000,
    ensures
        text::opt(r) == url_with_query(url@, path@, query@),
{
    let mut u = url::Url::parse(url).ok()?;
    u.set_path(path);
    u.set_query(Some(query));
    Some(u.as_str().to_string())
}

/// The URL of an API path, with its query if it has one, under a base URL.
pub open spec fn api_path(base: Seq<char>, path: Seq<char>) -> Option<Seq<char>> {
    let (p, q) = query_split(path);
    if q.len() == 0 {
        url_with_path(base, p)
    } else {
        url_with_query(base, p, q)
    }
}

/// The URL of an API path, with its query if it has one, under a base URL.
pub fn join_api_path(base: &str, path: &str) -> (r: Option<String>)
    requires
        text::utf8_len(base@) < 0x1000_0000,
        text::utf8_len(path@) < 0x1000_0000,
    ensures
        text::opt(r) == api_path(base@, path@),
{
    let (p, q) = split_query(path);
    proof {
        let i = text::next_char(path@, '?', 0);
        if i < path@.len() {
            lemma_next_char_bounds(path@, '?', 0);
            text::lemma_utf8_len_prefix(path@, i);
            assert(path@ =~= path@.take(i + 1) + path@.skip(i + 1));
            text::lemma_utf8_len_add(path@.take(i + 1), path@.skip(i + 1));
        }
        assert(text::utf8_len(Seq::<char>::empty()) == 0);
    }
    if q.as_str().is_empty() {
        set_path(base, p.as_str())
    } else {
        set_path_and_query(base, p.as_str(), q.as_str())
    }
}

proof fn lemma_next_char_bounds(s: Seq<char>, c: char, i: int)
    requires
        0 <= i <= s.len(),
    ensures
        i <= text::next_char(s, c, i) <= s.len(),
    decreases s.len() - i,
{
    if i < s.len() && s[i] != c {
        lemma_next_char_bounds(s, c, i + 1);
    }
}

/// What follows the first `?`, and what precedes it.
pub open spec fn query_split(path: Seq<char>) -> (Seq<char>, Seq<char>) {
    let i = text::next_char(path, '?', 0);
    if i < path.len() {
        (path.take(i), path.skip(i + 1))
    } else {
        (path, Seq::empty())
    }
}

/// Split `path` at its first `?`; without one the second part is empty.
pub fn split_query(path: &str) -> (r: (String, String))
    ensures
        (r.0@, r.1@) == query_split(path@),
{
    let chars = text::chars_of(path);
    let mut i: usize = 0;
    while i < chars.len() && chars[i] != '?'
        invariant
            chars@ == path@,
            i <= chars.len(),
            text::next_char(path@, '?', 0) == text::next_char(path@, '?', i as int),
        decreases chars.len() - i,
    {
        i += 1;
    }
    if i == chars.len() {
        return (path.to_owned(), String::new());
    }
    proof {
        assert(path@.take(i as int) =~= path@.subrange(0, i as int));
        assert(path@.skip(i + 1) =~= path@.subrange(i + 1, path@.len() as int));
    }
    (text::text_of(&chars, 0, i), text::text_of(&chars, i + 1, chars.len()))
}

// ---------------------------------------------------------------------------
// The Link header
// ---------------------------------------------------------------------------

/// The text between `<` and `>`.
pub open spec fn bracketed(s: Seq<char>) -> Option<Seq<char>> {
    if s.len() >= 2 && s[0] == '<' && s.last() == '>' {
        Some(s.subrange(1, s.len() - 1))
    } else {
        None
    }
}

/// One of the parameters, from position `i` on, is `rel="next"`.
pub open spec fn marks_next(parts: Seq<Seq<char>>, i: int) -> bool
    decreases parts.len() - i,
{
    if i < 0 || i >= parts.len() {
        false
    } else {
        text::trim(parts[i]) == "rel=\"next\""@ || marks_next(parts, i + 1)
    }
}

/// The next-page URL among the segments from position `i` on. A segment whose
/// URL is not in angle brackets ends the search.
pub open spec fn next_among(segments: Seq<Seq<char>>, i: int) -> Option<Seq<char>>
    decreases segments.len() - i,
{
    if i < 0 || i >= segments.len() {
        None
    } else {
        let parts = text::split(text::trim(segments[i]), ';');
        match bracketed(text::trim(parts[0])) {
            None => None,
            Some(url) => if marks_next(parts, 1) {
                Some(url)
            } else {
                next_among(segments, i + 1)
            },
        }
    }
}

/// The URL that a `Link` header marks `rel="next"`.
pub open spec fn next_url(header: Seq<char>) -> Option<Seq<char>> {
    next_among(text::split(header, ','), 0)
}

fn strip_brackets(s: &str) -> (r: Option<String>)
    ensures
        text::opt(r) == bracketed(s@),
{
    let chars = text::chars_of(s);
    let n = chars.len();
    if n >= 2 && chars[0] == '<' && chars[n - 1] == '>' {
        Some(text::text_of(&chars, 1, n - 1))
    } else {
        None
    }
}

/// The URL that a `Link` header marks `rel="next"`; `None` on the last page,
/// and when the header is malformed before such a mark.
pub fn next_url_from_link_header(header: &str) -> (r: Option<String>)
    ensures
        text::opt(r) == next_url(header@),
{
    let segments = text::split_on(header, ',');
    let mut i: usize = 0;
    while i < segments.len()
        invariant
            i <= segments.len(),
            text::texts(segments@) == text::split(header@, ','),
            next_url(header@) == next_among(text::split(header@, ','), i as int),
        decreases segments.len() - i,
    {
        proof {
            assert(text::split(header@, ',')[i as int] == segments@[i as int]@);
        }
        let segment = text::trimmed(segments[i].as_str());
        let parts = text::split_on(segment.as_str(), ';');
        proof {
            assert(text::split(segment@, ';')[0] == parts@[0]@);
        }
        let url = match strip_brackets(text::trimmed(parts[0].as_str()).as_str()) {
            Some(u) => u,
            None => {
                return None;
            },
        };
        let mut next = false;
        let mut j: usize = 1;
        while j < parts.len() && !next
            invariant
                1 <= j <= parts.len(),
                text::texts(parts@) == text::split(segment@, ';'),
                marks_next(text::split(segment@, ';'), 1) == (next || marks_next(
                    text::split(segment@, ';'),
                    j as int,
                )),
            decreases parts.len() - j,
        {
            proof {
                assert(text::split(segment@, ';')[j as int] == parts@[j as int]@);
            }
            next = text::same(text::trimmed(parts[j].as_str()).as_str(), "rel=\"next\"");
            j += 1;
        }
        if next {
            return Some(url);
        }
        i += 1;
    }
    None
}

// ---------------------------------------------------------------------------
// Laws
// ---------------------------------------------------------------------------

proof fn lemma_next_char(s: Seq<char>, c: char, i: int)
    requires
        0 <= i <= s.len(),
    ensures
        i <= text::next_char(s, c, i) <= s.len(),
        text::next_char(s, c, i) < s.len() ==> s[text::next_char(s, c, i)] == c,
        forall|j: int| i <= j < text::next_char(s, c, i) ==> #[trigger] s[j] != c,
    decreases s.len() - i,
{
    if i < s.len() && s[i] != c {
        lemma_next_char(s, c, i + 1);
    }
}

/// A path is split at its first question mark; without one there is no query.
pub proof fn law_a_path_is_split_at_the_question_mark(path: Seq<char>, query: Seq<char>)
    requires
        !path.contains('?'),
    ensures
        query_split(path + seq!['?'] + query) == (path, query),
        query_split(path) == (path, Seq::<char>::empty()),
{
    let s = path + seq!['?'] + query;
    lemma_next_char(s, '?', 0);
    lemma_next_char(path, '?', 0);
    let i = text::next_char(s, '?', 0);
    assert(s[path.len() as int] == '?');
    if i < path.len() {
        assert(path[i] == '?');
    }
    assert(i == path.len());
    assert(s.take(i) =~= path);
    assert(s.skip(i + 1) =~= query);
    let k = text::next_char(path, '?', 0);
    if k < path.len() {
        assert(path[k] == '?');
    }
}

/// Only a text between angle brackets is a target, and the target is what stands
/// between them.
pub proof fn law_a_target_stands_in_brackets(s: Seq<char>, url: Seq<char>)
    ensures
        bracketed(seq!['<'] + url + seq!['>']) == Some(url),
        bracketed(s) matches Some(u) ==> s == seq!['<'] + u + seq!['>'],
{
    let t = seq!['<'] + url + seq!['>'];
    assert(t.subrange(1, t.len() - 1) =~= url);
    if bracketed(s) is Some {
        assert(s =~= seq!['<'] + s.subrange(1, s.len() - 1) + seq!['>']);
    }
}

proof fn lemma_marks_next(parts: Seq<Seq<char>>, i: int)
    requires
        0 <= i,
    ensures
        marks_next(parts, i) <==> exists|j: int|
            i <= j < parts.len() && text::trim(#[trigger] parts[j]) == "rel=\"next\""@,
    decreases parts.len() - i,
{
    if i < parts.len() {
        lemma_marks_next(parts, i + 1);
        if text::trim(parts[i]) == "rel=\"next\""@ {
        } else if marks_next(parts, i + 1) {
            let j = choose|j: int|
                i + 1 <= j < parts.len() && text::trim(#[trigger] parts[j]) == "rel=\"next\""@;
            assert(text::trim(parts[j]) == "rel=\"next\""@);
        }
    }
}

/// The pieces of one link of the header.
pub open spec fn link_parts(header: Seq<char>, k: int) -> Seq<Seq<char>> {
    text::split(text::trim(text::split(header, ',')[k]), ';')
}

/// The link has `url` as its target.
pub open spec fn targets(header: Seq<char>, k: int, url: Seq<char>) -> bool {
    text::trim(link_parts(header, k)[0]) == seq!['<'] + url + seq!['>']
}

/// The link has no target.
pub open spec fn no_target(header: Seq<char>, k: int) -> bool {
    forall|url: Seq<char>| !#[trigger] targets(header, k, url)
}

/// A parameter of the link says that it leads to the next page.
pub open spec fn leads_on(header: Seq<char>, k: int) -> bool {
    exists|j: int|
        1 <= j < link_parts(header, k).len() && text::trim(#[trigger] link_parts(header, k)[j])
            == "rel=\"next\""@
}

proof fn lemma_next_among(header: Seq<char>, i: int)
    requires
        0 <= i,
    ensures
        match next_among(text::split(header, ','), i) {
            Some(u) => exists|k: int|
                i <= k < text::split(header, ',').len() && #[trigger] targets(header, k, u)
                    && leads_on(header, k),
            None => forall|k: int, url: Seq<char>|
                i <= k < text::split(header, ',').len() && #[trigger] targets(header, k, url)
                    && leads_on(header, k) ==> exists|j: int|
                    i <= j < k && #[trigger] no_target(header, j),
        },
    decreases text::split(header, ',').len() - i,
{
    let segments = text::split(header, ',');
    if i < segments.len() {
        let parts = link_parts(header, i);
        lemma_marks_next(parts, 1);
        law_a_target_stands_in_brackets(text::trim(parts[0]), Seq::empty());
        lemma_next_among(header, i + 1);
        match bracketed(text::trim(parts[0])) {
            None => {
                assert forall|v: Seq<char>| !#[trigger] targets(header, i, v) by {
                    law_a_target_stands_in_brackets(text::trim(parts[0]), v);
                }
                assert(no_target(header, i));
            },
            Some(url) => {
                assert(targets(header, i, url));
                if marks_next(parts, 1) {
                    assert(leads_on(header, i));
                } else {
                    assert(!leads_on(header, i));
                    match next_among(segments, i + 1) {
                        Some(u) => {
                            let k = choose|k: int|
                                i + 1 <= k < segments.len() && #[trigger] targets(header, k, u)
                                    && leads_on(header, k);
                            assert(targets(header, k, u));
                        },
                        None => {
                            assert forall|k: int, w: Seq<char>|
                                i <= k < segments.len() && #[trigger] targets(header, k, w)
                                    && leads_on(header, k) implies exists|j: int|
                                i <= j < k && #[trigger] no_target(header, j) by {
                                assert(k >= i + 1);
                                let j = choose|j: int|
                                    i + 1 <= j < k && #[trigger] no_target(header, j);
                                assert(no_target(header, j));
                            }
                        },
                    }
                }
            },
        }
    }
}

/// The next page of a header is the target of a link that says so. Where there is
/// such a link and no next page is found, a link before it has no target.
pub proof fn law_the_next_page_is_a_link_that_says_so(header: Seq<char>)
    ensures
        match next_url(header) {
            Some(u) => exists|k: int|
                0 <= k < text::split(header, ',').len() && #[trigger] targets(header, k, u)
                    && leads_on(header, k),
            None => forall|k: int, url: Seq<char>|
                0 <= k < text::split(header, ',').len() && #[trigger] targets(header, k, url)
                    && leads_on(header, k) ==> exists|j: int|
                    0 <= j < k && #[trigger] no_target(header, j),
        },
{
    lemma_next_among(header, 0);
}

/// A path of the API goes to the base with its query, if it has one.
pub proof fn law_an_api_path_keeps_its_query(base: Seq<char>, path: Seq<char>, query: Seq<char>)
    requires
        !path.contains('?'),
    ensures
        query.len() > 0 ==> api_path(base, path + seq!['?'] + query) == url_with_query(
            base,
            path,
            query,
        ),
        api_path(base, path) == url_with_path(base, path),
{
    law_a_path_is_split_at_the_question_mark(path, query);
}

} // verus!
