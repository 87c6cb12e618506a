//! Polling: which repositories are watched.

use vstd::prelude::*;

use crate::config::Config;
use crate::error::{CaduceusError, Fault};
use crate::issue;
use crate::issue::IssueKey;
use crate::link;
use crate::text;
use crate::time::Timestamp;

verus! {

/// Most pages that are followed on one endpoint.
pub const MAX_PAGES_PER_ENDPOINT: usize = 20;

/// Repositories on a page.
pub const REPOS_PER_PAGE: u32 = 100;

/// An open issue that polling found.
#[derive(Debug)]
pub struct PollHit {
    pub key: IssueKey,
    pub updated_at: Timestamp,
    pub title: String,
    pub labels: Vec<String>,
    pub ambiguous: bool,
}

// ---------------------------------------------------------------------------
// Sorting
// ---------------------------------------------------------------------------

/// By what a text is sorted.
pub open spec fn sort_key(s: Seq<char>, fold_case: bool) -> Seq<char> {
    if fold_case {
        text::ascii_lower(s)
    } else {
        s
    }
}

/// The texts are in order.
pub open spec fn in_order(v: Seq<Seq<char>>, fold_case: bool) -> bool {
    forall|i: int, j: int|
        0 <= i < j < v.len() ==> !text::str_lt(
            sort_key(#[trigger] v[j], fold_case),
            sort_key(#[trigger] v[i], fold_case),
        )
}

/// `r` holds the texts of `v` in order.
pub open spec fn is_sorted(r: Seq<Seq<char>>, v: Seq<Seq<char>>, fold_case: bool) -> bool {
    in_order(r, fold_case) && r.to_multiset() == v.to_multiset()
}

fn key_of(s: &str, fold_case: bool) -> (r: String)
    ensures
        r@ == sort_key(s@, fold_case),
{
    if fold_case {
        text::ascii_lowered(s)
    } else {
        s.to_owned()
    }
}

proof fn lemma_insert_in_order(v: Seq<Seq<char>>, fold_case: bool, at: int, s: Seq<char>)
    requires
        in_order(v, fold_case),
        0 <= at <= v.len(),
        at > 0 ==> !text::str_lt(sort_key(s, fold_case), sort_key(v[at - 1], fold_case)),
        forall|i: int|
            at <= i < v.len() ==> text::str_lt(
                sort_key(s, fold_case),
                sort_key(#[trigger] v[i], fold_case),
            ),
    ensures
        in_order(v.insert(at, s), fold_case),
{
    let all = v.insert(at, s);
    let k = sort_key(s, fold_case);
    assert forall|i: int, j: int| 0 <= i < j < all.len() implies !text::str_lt(
        sort_key(#[trigger] all[j], fold_case),
        sort_key(#[trigger] all[i], fold_case),
    ) by {
        let i0 = if i < at {
            i
        } else {
            i - 1
        };
        let j0 = if j < at {
            j
        } else {
            j - 1
        };
        if i == at {
            assert(all[j] == v[j0]);
            text::lemma_str_lt_total(k, sort_key(v[j0], fold_case));
        } else if j == at {
            assert(all[i] == v[i]);
            let last = sort_key(v[at - 1], fold_case);
            let mine = sort_key(v[i], fold_case);
            if i < at - 1 {
                assert(!text::str_lt(last, mine));
                if text::str_lt(k, mine) {
                    text::lemma_str_lt_total(mine, last);
                    if text::str_lt(mine, last) {
                        text::lemma_str_lt_transitive(k, mine, last);
                    }
                }
            }
        } else {
            assert(all[i] == v[i0]);
            assert(all[j] == v[j0]);
        }
    }
}

/// The texts in order; with `fold_case`, in that of their small letters.
pub fn sort_texts(v: &Vec<String>, fold_case: bool) -> (r: Vec<String>)
    ensures
        is_sorted(text::texts(r@), text::texts(v@), fold_case),
{
    let ghost all = text::texts(v@);
    let mut out: Vec<String> = Vec::new();
    let mut i: usize = 0;
    proof {
        assert(text::texts(out@) =~= all.take(0));
        assert(all.take(0).to_multiset() == text::texts(out@).to_multiset());
    }
    while i < v.len()
        invariant
            all == text::texts(v@),
            i <= v.len(),
            in_order(text::texts(out@), fold_case),
            text::texts(out@).to_multiset() == all.take(i as int).to_multiset(),
        decreases v.len() - i,
    {
        let key = key_of(v[i].as_str(), fold_case);
        let ghost s = v@[i as int]@;
        let mut at: usize = out.len();
        let mut placed = false;
        while at > 0 && !placed
            invariant
                at <= out.len(),
                key@ == sort_key(s, fold_case),
                forall|j: int|
                    at <= j < out.len() ==> text::str_lt(
                        key@,
                        sort_key(#[trigger] text::texts(out@)[j], fold_case),
                    ),
                placed ==> at > 0 && !text::str_lt(
                    key@,
                    sort_key(text::texts(out@)[at - 1], fold_case),
                ),
            decreases at + (if placed { 0int } else { 1int }),
        {
            let other = key_of(out[at - 1].as_str(), fold_case);
            proof {
                assert(text::texts(out@)[at - 1] == out@[at - 1]@);
            }
            if text::sorts_before(key.as_str(), other.as_str()) {
                at -= 1;
            } else {
                placed = true;
            }
        }
        let ghost before = text::texts(out@);
        proof {
            lemma_insert_in_order(before, fold_case, at as int, s);
            vstd::seq_lib::to_multiset_insert(before, at as int, s);
            vstd::seq_lib::to_multiset_build(all.take(i as int), s);
            assert(all.take(i + 1) =~= all.take(i as int).push(s));
        }
        out.insert(at, v[i].clone());
        proof {
            assert(text::texts(out@) =~= before.insert(at as int, s));
        }
        i += 1;
    }
    proof {
        assert(all.take(i as int) =~= all);
    }
    out
}

// ---------------------------------------------------------------------------
// Configured repositories
// ---------------------------------------------------------------------------

/// One of the names is `s`, but for the case of its letters.
pub open spec fn known(names: Seq<Seq<char>>, s: Seq<char>) -> bool {
    exists|i: int|
        0 <= i < names.len() && text::ascii_lower(#[trigger] names[i]) == text::ascii_lower(s)
}

/// The valid names among the first `n`, each once whatever the case of its
/// letters, as it came first.
pub open spec fn distinct(names: Seq<Seq<char>>, n: int) -> Seq<Seq<char>>
    decreases n,
{
    if n <= 0 {
        Seq::empty()
    } else {
        let before = distinct(names, n - 1);
        let s = names[n - 1];
        if issue::is_slug(s) && !known(before, s) {
            before.push(s)
        } else {
            before
        }
    }
}

fn is_known(names: &Vec<String>, s: &str) -> (r: bool)
    ensures
        r == known(text::texts(names@), s@),
{
    let mut i: usize = 0;
    while i < names.len()
        invariant
            i <= names.len(),
            forall|j: int|
                0 <= j < i ==> text::ascii_lower(#[trigger] text::texts(names@)[j])
                    != text::ascii_lower(s@),
        decreases names.len() - i,
    {
        proof {
            assert(text::texts(names@)[i as int] == names@[i as int]@);
        }
        if text::same_ignoring_case(names[i].as_str(), s) {
            return true;
        }
        i += 1;
    }
    false
}

/// The configured repositories: the valid ones, each once whatever the case of
/// its letters, in order.
pub fn validated_configured_repos(configured: &Vec<String>) -> (r: Vec<String>)
    ensures
        is_sorted(
            text::texts(r@),
            distinct(text::texts(configured@), configured.len() as int),
            true,
        ),
{
    let ghost all = text::texts(configured@);
    let mut out: Vec<String> = Vec::new();
    let mut i: usize = 0;
    proof {
        assert(text::texts(out@) =~= Seq::<Seq<char>>::empty());
    }
    while i < configured.len()
        invariant
            all == text::texts(configured@),
            i <= configured.len(),
            text::texts(out@) == distinct(all, i as int),
        decreases configured.len() - i,
    {
        let raw = configured[i].as_str();
        proof {
            assert(all[i as int] == raw@);
        }
        if issue::is_valid_repo_slug(raw) && !is_known(&out, raw) {
            let ghost before = out@;
            out.push(raw.to_owned());
            proof {
                assert(text::texts(out@) =~= text::texts(before).push(raw@));
            }
        }
        i += 1;
    }
    sort_texts(&out, true)
}

/// The watched repositories where the configuration names them; none where
/// they are to be discovered.
pub fn configured_repos(cfg: &Config) -> (r: Option<Vec<String>>)
    ensures
        match r {
            None => cfg.watched_repos.len() == 0,
            Some(v) => cfg.watched_repos.len() > 0 && is_sorted(
                text::texts(v@),
                distinct(text::texts(cfg.watched_repos@), cfg.watched_repos.len() as int),
                true,
            ),
        },
{
    if cfg.watched_repos.len() > 0 {
        Some(validated_configured_repos(&cfg.watched_repos))
    } else {
        None
    }
}

// ---------------------------------------------------------------------------
// Rate limit
// ---------------------------------------------------------------------------

/// The unsigned number in a header, if it has one of 32 bits.
pub open spec fn header_u32(h: Option<Seq<char>>) -> Option<u32> {
    match h {
        Some(s) => match text::number(s) {
            Some(n) if n <= u32::MAX => Some(n as u32),
            _ => None,
        },
        None => None,
    }
}

/// The signed number in a header, if it has one of 64 bits.
pub open spec fn header_i64(h: Option<Seq<char>>) -> Option<i64> {
    match h {
        Some(s) => match text::signed_number(s) {
            Some(n) if i64::MIN <= n <= i64::MAX => Some(n as i64),
            _ => None,
        },
        None => None,
    }
}

/// Seconds from `now` to the reset, and none where it has passed.
pub open spec fn seconds_left(reset: i64, now: i64) -> u64 {
    if reset - now < 0 {
        0
    } else if reset - now > i64::MAX {
        i64::MAX as u64
    } else {
        (reset - now) as u64
    }
}

/// The error that the headers of a response stand for: a rate limit of which
/// nothing remains, with a reset.
pub open spec fn rate_limit(
    remaining: Option<Seq<char>>,
    limit: Option<Seq<char>>,
    reset: Option<Seq<char>>,
    now: i64,
) -> Option<Fault> {
    match (header_u32(remaining), header_i64(reset)) {
        (Some(r), Some(t)) => if r == 0 {
            Some(
                Fault::RateLimited {
                    reset_at: seconds_left(t, now),
                    remaining: 0,
                    limit: header_u32(limit),
                },
            )
        } else {
            None
        },
        _ => None,
    }
}

fn read_u32(h: Option<&str>) -> (r: Option<u32>)
    ensures
        r == header_u32(text::opt_str(h)),
{
    match h {
        Some(s) => match text::parse_number(s, 0xffff_ffff) {
            Some(n) => Some(n as u32),
            None => None,
        },
        None => None,
    }
}

/// The error that the rate-limit headers of a response stand for.
pub fn rate_limit_from_headers(
    remaining: Option<&str>,
    limit: Option<&str>,
    reset: Option<&str>,
    now: i64,
) -> (r: Option<CaduceusError>)
    ensures
        match r {
            Some(e) => rate_limit(
                text::opt_str(remaining),
                text::opt_str(limit),
                text::opt_str(reset),
                now,
            ) == Some(e@),
            None => rate_limit(
                text::opt_str(remaining),
                text::opt_str(limit),
                text::opt_str(reset),
                now,
            ) is None,
        },
{
    let left: u32 = match read_u32(remaining) {
        Some(n) => n,
        None => {
            return None;
        },
    };
    let limit = read_u32(limit);
    let reset_unix: i64 = match reset {
        Some(s) => match text::parse_i64(s) {
            Some(n) => n,
            None => {
                return None;
            },
        },
        None => {
            return None;
        },
    };
    if left != 0 {
        return None;
    }
    let wait: i128 = reset_unix as i128 - now as i128;
    let reset_at: u64 = if wait < 0 {
        0
    } else if wait > 0x7fff_ffff_ffff_ffff {
        0x7fff_ffff_ffff_ffff
    } else {
        wait as u64
    };
    Some(CaduceusError::RateLimited { reset_at, remaining: left, limit })
}

// ---------------------------------------------------------------------------
// Discovery
// ---------------------------------------------------------------------------

/// A repository on a page.
#[derive(Debug)]
pub struct RepoObject {
    pub full_name: Option<String>,
    pub archived: bool,
    pub disabled: bool,
}

/// How an error names a page.
pub open spec fn on_page(page: usize, what: Seq<char>) -> Fault {
    Fault::Other("repository discovery page "@ + text::dec(page as nat) + ": "@ + what)
}

/// The names known after the first `n` repositories of a page, or why the page
/// is refused. Archived and disabled repositories are left out.
pub open spec fn collected(
    names: Seq<Seq<char>>,
    repos: Seq<RepoObject>,
    page: usize,
    n: int,
) -> Result<Seq<Seq<char>>, Fault>
    decreases n,
{
    if n <= 0 {
        Ok(names)
    } else {
        match collected(names, repos, page, n - 1) {
            Err(f) => Err(f),
            Ok(before) => {
                let repo = repos[n - 1];
                if repo.archived || repo.disabled {
                    Ok(before)
                } else {
                    match repo.full_name {
                        None => Err(on_page(page, "missing full_name"@)),
                        Some(name) => if !issue::is_slug(name@) {
                            Err(on_page(page, "invalid slug "@ + name@))
                        } else if known(before, name@) {
                            Ok(before)
                        } else {
                            Ok(before.push(name@))
                        },
                    }
                }
            },
        }
    }
}

proof fn lemma_collected_fault_stays(
    names: Seq<Seq<char>>,
    repos: Seq<RepoObject>,
    page: usize,
    n: int,
    m: int,
)
    requires
        n <= m,
        collected(names, repos, page, n) is Err,
    ensures
        collected(names, repos, page, m) == collected(names, repos, page, n),
    decreases m - n,
{
    if n < m {
        lemma_collected_fault_stays(names, repos, page, n, m - 1);
    }
}

fn page_error(page: usize, what: &str) -> (r: CaduceusError)
    ensures
        r@ == on_page(page, what@),
{
    let mut m = text::cat("repository discovery page ", text::decimal(page as u64).as_str());
    m.append(": ");
    m.append(what);
    CaduceusError::Other(m)
}

fn collect_page(names: &Vec<String>, repos: &Vec<RepoObject>, page: usize) -> (r: Result<
    Vec<String>,
    CaduceusError,
>)
    ensures
        match r {
            Ok(v) => collected(text::texts(names@), repos@, page, repos.len() as int) == Ok::<
                Seq<Seq<char>>,
                Fault,
            >(text::texts(v@)),
            Err(e) => collected(text::texts(names@), repos@, page, repos.len() as int) == Err::<
                Seq<Seq<char>>,
                Fault,
            >(e@),
        },
{
    let ghost all = text::texts(names@);
    let mut out: Vec<String> = copy_texts(names);
    let mut i: usize = 0;
    while i < repos.len()
        invariant
            all == text::texts(names@),
            i <= repos.len(),
            collected(all, repos@, page, i as int) == Ok::<Seq<Seq<char>>, Fault>(
                text::texts(out@),
            ),
        decreases repos.len() - i,
    {
        let repo = &repos[i];
        if !(repo.archived || repo.disabled) {
            match &repo.full_name {
                None => {
                    proof {
                        lemma_collected_fault_stays(all, repos@, page, i + 1, repos.len() as int);
                    }
                    return Err(page_error(page, "missing full_name"));
                },
                Some(name) => {
                    if !issue::is_valid_repo_slug(name.as_str()) {
                        proof {
                            lemma_collected_fault_stays(
                                all,
                                repos@,
                                page,
                                i + 1,
                                repos.len() as int,
                            );
                        }
                        return Err(
                            page_error(page, text::cat("invalid slug ", name.as_str()).as_str()),
                        );
                    }
                    if !is_known(&out, name.as_str()) {
                        let ghost before = out@;
                        out.push(name.clone());
                        proof {
                            assert(text::texts(out@) =~= text::texts(before).push(name@));
                        }
                    }
                },
            }
        }
        i += 1;
    }
    Ok(out)
}

fn copy_texts(v: &Vec<String>) -> (r: Vec<String>)
    ensures
        text::texts(r@) == text::texts(v@),
{
    let mut out: Vec<String> = Vec::new();
    let mut i: usize = 0;
    while i < v.len()
        invariant
            i <= v.len(),
            out.len() == i,
            forall|j: int| 0 <= j < i ==> (#[trigger] out@[j])@ == v@[j]@,
        decreases v.len() - i,
    {
        out.push(v[i].clone());
        i += 1;
    }
    proof {
        assert(text::texts(out@) =~= text::texts(v@));
    }
    out
}

/// A response of the repository list as far as discovery reads it: its
/// headers, and its body as repositories or the decoder's message.
pub struct RepoPage {
    pub ratelimit_remaining: Option<String>,
    pub ratelimit_limit: Option<String>,
    pub ratelimit_reset: Option<String>,
    pub repos: Result<Vec<RepoObject>, String>,
    pub link: Option<String>,
}

/// The discovery of repositories, page by page.
#[derive(Debug)]
pub struct RepoDiscovery {
    pub collected: Vec<String>,
    /// Number of requests made.
    pub pages: usize,
    /// The next page, if there is one.
    pub next: Option<String>,
}

/// The first page of the repository list.
pub open spec fn first_page() -> Seq<char> {
    "/user/repos?per_page="@ + text::dec(REPOS_PER_PAGE as nat) + "&sort=full_name"@
}

/// The next page that a `Link` header names.
pub open spec fn next_link(header: Option<Seq<char>>) -> Option<Seq<char>> {
    match header {
        Some(h) => match link::next_url(h) {
            Some(u) => link::url_of(u),
            None => None,
        },
        None => None,
    }
}

/// The next page that a `Link` header names.
pub fn parse_next_link(header: &Option<String>) -> (r: Option<String>)
    ensures
        text::opt(r) == next_link(text::opt(*header)),
{
    match header {
        Some(h) => match link::next_url_from_link_header(h.as_str()) {
            Some(u) => link::parse_url(u.as_str()),
            None => None,
        },
        None => None,
    }
}

impl RepoDiscovery {
    pub open spec fn wf(&self) -> bool {
        self.pages <= MAX_PAGES_PER_ENDPOINT
    }

    /// Begin at the first page under the base URL.
    pub fn start(base_url: &str) -> (r: Result<RepoDiscovery, CaduceusError>)
        ensures
            match (r, link::url_join(base_url@, first_page())) {
                (Ok(d), Ok(u)) => d.wf() && d.pages == 0 && d.collected.len() == 0 && text::opt(
                    d.next,
                ) == Some(u),
                (Err(e), Err(m)) => e@ == Fault::Config(
                    "cannot join /user/repos onto api_base "@ + base_url@ + ": "@ + m,
                ),
                _ => false,
            },
    {
        let mut path = text::cat(
            "/user/repos?per_page=",
            text::decimal(REPOS_PER_PAGE as u64).as_str(),
        );
        path.append("&sort=full_name");
        match link::join_url(base_url, path.as_str()) {
            Ok(u) => Ok(RepoDiscovery { collected: Vec::new(), pages: 0, next: Some(u) }),
            Err(e) => {
                let mut m = text::cat("cannot join /user/repos onto api_base ", base_url);
                m.append(": ");
                m.append(e.as_str());
                Err(CaduceusError::Config(m))
            },
        }
    }

    /// The next page to request; none when there is no other, and an error
    /// rather than a cut list when there are too many.
    pub fn next_request(&mut self) -> (r: Result<Option<String>, CaduceusError>)
        requires
            old(self).wf(),
        ensures
            final(self).wf(),
            final(self).collected == old(self).collected,
            match old(self).next {
                None => r == Ok::<Option<String>, CaduceusError>(None) && *final(self) == *old(
                    self,
                ),
                Some(u) => if old(self).pages >= MAX_PAGES_PER_ENDPOINT {
                    (r matches Err(e) && e@ == Fault::Other(
                        "repository discovery exceeded "@ + text::dec(
                            MAX_PAGES_PER_ENDPOINT as nat,
                        ) + " pages"@,
                    )) && *final(self) == *old(self)
                } else {
                    r == Ok::<Option<String>, CaduceusError>(Some(u)) && final(self).pages == old(
                        self,
                    ).pages + 1 && final(self).next is None
                },
            },
    {
        if self.next.is_none() {
            return Ok(None);
        }
        if self.pages >= MAX_PAGES_PER_ENDPOINT {
            let mut m = text::cat(
                "repository discovery exceeded ",
                text::decimal(MAX_PAGES_PER_ENDPOINT as u64).as_str(),
            );
            m.append(" pages");
            return Err(CaduceusError::Other(m));
        }
        self.pages = self.pages + 1;
        let mut url: Option<String> = None;
        std::mem::swap(&mut url, &mut self.next);
        Ok(url)
    }

    /// Take in a page that was requested.
    pub fn page_received(&mut self, page: &RepoPage, now: i64) -> (r: Result<(), CaduceusError>)
        requires
            old(self).wf(),
        ensures
            final(self).wf(),
            final(self).pages == old(self).pages,
            ({
                let after = page_taken(
                    text::texts(old(self).collected@),
                    old(self).pages,
                    *page,
                    now,
                );
                match r {
                    Ok(_) => after == Ok::<Seq<Seq<char>>, Fault>(
                        text::texts(final(self).collected@),
                    ) && text::opt(final(self).next) == next_link(text::opt(page.link)),
                    Err(e) => after == Err::<Seq<Seq<char>>, Fault>(e@) && *final(self) == *old(
                        self,
                    ),
                }
            }),
    {
        match rate_limit_from_headers(
            borrowed(&page.ratelimit_remaining),
            borrowed(&page.ratelimit_limit),
            borrowed(&page.ratelimit_reset),
            now,
        ) {
            Some(e) => {
                return Err(e);
            },
            None => {},
        }
        let repos = match &page.repos {
            Err(e) => {
                return Err(
                    page_error(self.pages, text::cat("JSON parse: ", e.as_str()).as_str()),
                );
            },
            Ok(v) => v,
        };
        match collect_page(&self.collected, repos, self.pages) {
            Ok(v) => {
                self.collected = v;
                self.next = parse_next_link(&page.link);
                Ok(())
            },
            Err(e) => Err(e),
        }
    }

    /// The repositories that were found, in order.
    pub fn finish(&self) -> (r: Vec<String>)
        ensures
            is_sorted(text::texts(r@), text::texts(self.collected@), false),
    {
        sort_texts(&self.collected, false)
    }
}

fn borrowed(s: &Option<String>) -> (r: Option<&str>)
    ensures
        text::opt_str(r) == text::opt(*s),
{
    match s {
        Some(s) => Some(s.as_str()),
        None => None,
    }
}

/// The names known after a page, or why the page is refused.
pub open spec fn page_taken(names: Seq<Seq<char>>, pages: usize, page: RepoPage, now: i64) -> Result<
    Seq<Seq<char>>,
    Fault,
> {
    match rate_limit(
        text::opt(page.ratelimit_remaining),
        text::opt(page.ratelimit_limit),
        text::opt(page.ratelimit_reset),
        now,
    ) {
        Some(f) => Err(f),
        None => match page.repos {
            Err(e) => Err(on_page(pages, "JSON parse: "@ + e@)),
            Ok(v) => collected(names, v@, pages, v@.len() as int),
        },
    }
}

/// Polling for tickets that ask for code finds nothing.
pub fn poll_code(_now: Timestamp) -> (r: Vec<PollHit>)
    ensures
        r.len() == 0,
{
    Vec::new()
}

/// Polling for tickets that ask for an investigation finds nothing.
pub fn poll_investigation(_now: Timestamp) -> (r: Vec<PollHit>)
    ensures
        r.len() == 0,
{
    Vec::new()
}

// ---------------------------------------------------------------------------
// Laws
// ---------------------------------------------------------------------------

/// No two names are the same but for the case of their letters.
pub open spec fn all_distinct(names: Seq<Seq<char>>) -> bool {
    forall|i: int, j: int|
        0 <= i < j < names.len() ==> text::ascii_lower(#[trigger] names[i]) != text::ascii_lower(
            #[trigger] names[j],
        )
}

/// Configured repositories come once each, whatever the case of their letters,
/// and every one of them is a valid name.
pub proof fn law_configured_repositories_are_distinct(names: Seq<Seq<char>>, n: int)
    requires
        n <= names.len(),
    ensures
        all_distinct(distinct(names, n)),
        forall|i: int|
            0 <= i < distinct(names, n).len() ==> issue::is_slug(#[trigger] distinct(names, n)[i]),
        forall|i: int|
            0 <= i < n && issue::is_slug(#[trigger] names[i]) ==> known(
                distinct(names, n),
                names[i],
            ),
    decreases n,
{
    if n > 0 {
        law_configured_repositories_are_distinct(names, n - 1);
        let before = distinct(names, n - 1);
        let after = distinct(names, n);
        let s = names[n - 1];
        assert forall|x: Seq<char>| known(before, x) implies known(after, x) by {
            let c = choose|c: int|
                0 <= c < before.len() && text::ascii_lower(#[trigger] before[c])
                    == text::ascii_lower(x);
            assert(after[c] == before[c]);
        }
        if issue::is_slug(s) && !known(before, s) {
            assert(after[before.len() as int] == s);
            assert(known(after, s));
            assert forall|i: int, j: int| 0 <= i < j < after.len() implies text::ascii_lower(
                #[trigger] after[i],
            ) != text::ascii_lower(#[trigger] after[j]) by {
                assert(after[i] == before[i]);
                if j < before.len() {
                    assert(after[j] == before[j]);
                }
            }
        }
    }
}

/// Discovery keeps every name once, whatever the case of its letters, over all
/// pages, and forgets none.
pub proof fn law_discovered_repositories_are_distinct(
    names: Seq<Seq<char>>,
    repos: Seq<RepoObject>,
    page: usize,
    n: int,
)
    requires
        all_distinct(names),
        n <= repos.len(),
        collected(names, repos, page, n) is Ok,
    ensures
        all_distinct(collected(names, repos, page, n)->Ok_0),
        names.is_prefix_of(collected(names, repos, page, n)->Ok_0),
    decreases n,
{
    if n > 0 {
        law_discovered_repositories_are_distinct(names, repos, page, n - 1);
        let before = collected(names, repos, page, n - 1)->Ok_0;
        let after = collected(names, repos, page, n)->Ok_0;
        if after != before {
            let s = repos[n - 1].full_name->0@;
            assert(after == before.push(s));
            assert forall|i: int, j: int| 0 <= i < j < after.len() implies text::ascii_lower(
                #[trigger] after[i],
            ) != text::ascii_lower(#[trigger] after[j]) by {
                assert(after[i] == before[i]);
                if j < before.len() {
                    assert(after[j] == before[j]);
                }
            }
            assert(names =~= after.subrange(0, names.len() as int));
        }
    } else {
        assert(names =~= names.subrange(0, names.len() as int));
    }
}

proof fn lemma_distinct_are_given(names: Seq<Seq<char>>, n: int)
    requires
        0 <= n <= names.len(),
    ensures
        forall|i: int|
            0 <= i < distinct(names, n).len() ==> exists|j: int|
                0 <= j < n && #[trigger] names[j] == #[trigger] distinct(names, n)[i],
    decreases n,
{
    if n > 0 {
        lemma_distinct_are_given(names, n - 1);
        let before = distinct(names, n - 1);
        let all = distinct(names, n);
        assert forall|i: int| 0 <= i < all.len() implies exists|j: int|
            0 <= j < n && #[trigger] names[j] == #[trigger] all[i] by {
            if i < before.len() {
                assert(all[i] == before[i]);
                let j = choose|j: int| 0 <= j < n - 1 && #[trigger] names[j] == before[i];
                assert(names[j] == all[i]);
            } else {
                assert(names[n - 1] == all[i]);
            }
        }
    }
}

/// Of the spellings of one repository, which differ in case alone, the first is
/// kept. What is no name of a repository is dropped.
pub proof fn law_the_first_spelling_is_kept(names: Seq<Seq<char>>, n: int, i: int)
    requires
        0 <= i < n <= names.len(),
        issue::is_slug(names[i]),
        forall|j: int|
            0 <= j < i ==> text::ascii_lower(#[trigger] names[j]) != text::ascii_lower(names[i]),
    ensures
        distinct(names, n).contains(names[i]),
    decreases n,
{
    let before = distinct(names, n - 1);
    if i == n - 1 {
        lemma_distinct_are_given(names, n - 1);
        assert(!known(before, names[i])) by {
            if known(before, names[i]) {
                let k = choose|k: int|
                    0 <= k < before.len() && text::ascii_lower(#[trigger] before[k])
                        == text::ascii_lower(names[i]);
                let j = choose|j: int| 0 <= j < n - 1 && #[trigger] names[j] == before[k];
                assert(text::ascii_lower(names[j]) != text::ascii_lower(names[i]));
            }
        }
        assert(distinct(names, n)[before.len() as int] == names[i]);
    } else {
        law_the_first_spelling_is_kept(names, n - 1, i);
        let k = choose|k: int| 0 <= k < before.len() && before[k] == names[i];
        assert(distinct(names, n)[k] == names[i]);
    }
}

/// The list of repositories holds nothing that was not given.
pub proof fn law_no_repository_is_made_up(names: Seq<Seq<char>>, n: int, i: int)
    requires
        0 <= n <= names.len(),
        0 <= i < distinct(names, n).len(),
    ensures
        exists|j: int| 0 <= j < n && #[trigger] names[j] == distinct(names, n)[i],
{
    lemma_distinct_are_given(names, n);
    let d = distinct(names, n)[i];
    let j = choose|j: int| 0 <= j < n && #[trigger] names[j] == d;
    assert(names[j] == distinct(names, n)[i]);
}

/// A list is sorted when each key is at most the next ones; folding the case, keys
/// are in small letters.
pub proof fn law_keys_are_folded_on_demand(s: Seq<char>)
    ensures
        sort_key(s, true) == text::ascii_lower(s),
        sort_key(s, false) == s,
{
}

/// A response says that the rate limit is used up exactly when no request remains
/// and the reset is told; the wait lasts until the reset, and is not negative.
pub proof fn law_a_used_up_limit_is_told(
    remaining: Option<Seq<char>>,
    limit: Option<Seq<char>>,
    reset: Option<Seq<char>>,
    now: i64,
)
    ensures
        ({
            let left = if remaining is Some {
                text::number(remaining->0)
            } else {
                None
            };
            let at = if reset is Some {
                text::signed_number(reset->0)
            } else {
                None
            };
            let told = left == Some(0nat) && at is Some && i64::MIN <= at->0 <= i64::MAX;
            &&& rate_limit(remaining, limit, reset, now) is Some <==> told
            &&& told ==> rate_limit(remaining, limit, reset, now)->0 is RateLimited
            &&& told ==> rate_limit(remaining, limit, reset, now)->0->remaining == 0
            &&& told && at->0 <= now ==> rate_limit(remaining, limit, reset, now)->0->reset_at == 0
            &&& told && at->0 > now && at->0 - now <= i64::MAX ==> rate_limit(
                remaining,
                limit,
                reset,
                now,
            )->0->reset_at == at->0 - now
            &&& told && limit is None ==> rate_limit(remaining, limit, reset, now)->0->limit is None
            &&& told && limit is Some && text::number(limit->0) is Some && text::number(limit->0)->0
                <= u32::MAX ==> rate_limit(remaining, limit, reset, now)->0->limit == Some(
                text::number(limit->0)->0 as u32,
            )
        }),
{
}

/// Every repository of a page that is neither archived nor disabled is collected,
/// unless its name, but for case, is there already.
pub proof fn law_an_active_repository_is_collected(
    names: Seq<Seq<char>>,
    repos: Seq<RepoObject>,
    page: usize,
    n: int,
    i: int,
)
    requires
        0 <= i < n <= repos.len(),
        collected(names, repos, page, n) is Ok,
        !repos[i].archived,
        !repos[i].disabled,
    ensures
        repos[i].full_name is Some,
        issue::is_slug(repos[i].full_name->0@),
        known(collected(names, repos, page, n)->Ok_0, repos[i].full_name->0@),
    decreases n,
{
    let before = collected(names, repos, page, n - 1)->Ok_0;
    let after = collected(names, repos, page, n)->Ok_0;
    let name = repos[i].full_name->0@;
    if i < n - 1 {
        law_an_active_repository_is_collected(names, repos, page, n - 1, i);
        let k = choose|k: int|
            0 <= k < before.len() && text::ascii_lower(#[trigger] before[k]) == text::ascii_lower(
                name,
            );
        assert(after[k] == before[k]);
    } else if !known(before, name) {
        assert(after[before.len() as int] == name);
    }
}

/// What is collected was there before, or is the name of a repository that is
/// neither archived nor disabled.
pub proof fn law_only_active_repositories_are_collected(
    names: Seq<Seq<char>>,
    repos: Seq<RepoObject>,
    page: usize,
    n: int,
    k: int,
)
    requires
        0 <= n <= repos.len(),
        collected(names, repos, page, n) is Ok,
        0 <= k < collected(names, repos, page, n)->Ok_0.len(),
    ensures
        k < names.len() && collected(names, repos, page, n)->Ok_0[k] == names[k] || exists|i: int|
            0 <= i < n && !(#[trigger] repos[i]).archived && !repos[i].disabled
                && repos[i].full_name is Some && repos[i].full_name->0@ == collected(
                names,
                repos,
                page,
                n,
            )->Ok_0[k],
    decreases n,
{
    if n > 0 {
        let before = collected(names, repos, page, n - 1)->Ok_0;
        let after = collected(names, repos, page, n)->Ok_0;
        if k < before.len() {
            law_only_active_repositories_are_collected(names, repos, page, n - 1, k);
            assert(after[k] == before[k]);
            if !(k < names.len() && before[k] == names[k]) {
                let i = choose|i: int|
                    0 <= i < n - 1 && !(#[trigger] repos[i]).archived && !repos[i].disabled
                        && repos[i].full_name is Some && repos[i].full_name->0@ == before[k];
                assert(!repos[i].archived);
            }
        } else {
            assert(!repos[n - 1].archived);
        }
    }
}

/// A page fails exactly when a repository that counts has no name or none of the
/// right form.
pub proof fn law_a_nameless_repository_stops_the_page(
    names: Seq<Seq<char>>,
    repos: Seq<RepoObject>,
    page: usize,
    n: int,
)
    requires
        0 <= n <= repos.len(),
    ensures
        collected(names, repos, page, n) is Err <==> exists|i: int|
            0 <= i < n && !(#[trigger] repos[i]).archived && !repos[i].disabled && (
            repos[i].full_name is None || !issue::is_slug(repos[i].full_name->0@)),
    decreases n,
{
    if n > 0 {
        law_a_nameless_repository_stops_the_page(names, repos, page, n - 1);
        if collected(names, repos, page, n) is Err && collected(names, repos, page, n - 1) is Ok {
            assert(!repos[n - 1].archived);
        }
    }
}

/// Discovery asks for a hundred repositories a page, sorted by name, and for at
/// most twenty pages.
pub proof fn law_discovery_starts_here(d: RepoDiscovery)
    ensures
        first_page() == "/user/repos?per_page="@ + text::dec(100) + "&sort=full_name"@,
        d.wf() <==> d.pages <= 20,
{
}

/// A page is refused first for a used-up rate limit, and then where it does not
/// parse; otherwise its repositories are collected.
pub proof fn law_a_page_is_taken_unless_limited(
    names: Seq<Seq<char>>,
    pages: usize,
    page: RepoPage,
    now: i64,
)
    ensures
        ({
            let limited = rate_limit(
                text::opt(page.ratelimit_remaining),
                text::opt(page.ratelimit_limit),
                text::opt(page.ratelimit_reset),
                now,
            );
            &&& limited is Some ==> page_taken(names, pages, page, now) == Err::<
                Seq<Seq<char>>,
                Fault,
            >(limited->0)
            &&& limited is None && page.repos is Err ==> page_taken(names, pages, page, now)
                == Err::<Seq<Seq<char>>, Fault>(
                Fault::Other(
                    "repository discovery page "@ + text::dec(pages as nat) + ": "@ + (
                    "JSON parse: "@ + page.repos->Err_0@),
                ),
            )
            &&& limited is None && page.repos is Ok ==> page_taken(names, pages, page, now)
                == collected(names, page.repos->Ok_0@, pages, page.repos->Ok_0@.len() as int)
        }),
{
}

/// The next page is the one that the header names, as a URL; without a header or a
/// next link there is none.
pub proof fn law_the_next_page_is_named_by_the_header(header: Seq<char>)
    ensures
        next_link(None) is None,
        link::next_url(header) is None ==> next_link(Some(header)) is None,
        link::next_url(header) matches Some(u) ==> next_link(Some(header)) == link::url_of(u),
{
}

/// A sorted list has the same texts as before, and none before a smaller one.
pub proof fn law_sorting_keeps_the_texts(
    r: Seq<Seq<char>>,
    v: Seq<Seq<char>>,
    fold_case: bool,
    i: int,
    j: int,
)
    requires
        is_sorted(r, v, fold_case),
        0 <= i < j < r.len(),
    ensures
        r.to_multiset() == v.to_multiset(),
        fold_case ==> !text::str_lt(text::ascii_lower(r[j]), text::ascii_lower(r[i])),
        !fold_case ==> !text::str_lt(r[j], r[i]),
{
}

/// A page that fails says which page it was, and why.
pub proof fn law_a_failed_page_says_why(
    names: Seq<Seq<char>>,
    repos: Seq<RepoObject>,
    page: usize,
    n: int,
)
    requires
        0 < n <= repos.len(),
        collected(names, repos, page, n - 1) is Ok,
        !repos[n - 1].archived,
        !repos[n - 1].disabled,
    ensures
        repos[n - 1].full_name is None ==> collected(names, repos, page, n) == Err::<
            Seq<Seq<char>>,
            Fault,
        >(
            Fault::Other(
                "repository discovery page "@ + text::dec(page as nat) + ": "@
                    + "missing full_name"@,
            ),
        ),
        repos[n - 1].full_name matches Some(s) ==> (!issue::is_slug(s@) ==> collected(
            names,
            repos,
            page,
            n,
        ) == Err::<Seq<Seq<char>>, Fault>(
            Fault::Other(
                "repository discovery page "@ + text::dec(page as nat) + ": "@ + (
                "invalid slug "@ + s@),
            ),
        )),
{
}

} // verus!
