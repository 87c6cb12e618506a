//! The sticky pull-request comment: rendering it within a byte budget, finding
//! it by its marker, and deciding how to publish it.
//!
//! There is one comment per pull request. The renderer reserves the header and
//! drops only findings from the tail, or the tail of an overlong summary.

use vstd::prelude::*;

use super::{Finding, FindingView, Review, ReviewView, Severity, Verdict};
use crate::error::{CaduceusError, Fault};
use crate::link;
use crate::text;

verus! {

/// The hidden marker that every sticky comment carries at its head and tail.
pub const REVIEW_MARKER: &'static str = "<!-- caduceus-auto-review -->";

/// Hard cap on the rendered comment.
pub const STICKY_COMMENT_MAX_BYTES: usize = 65_536;

/// Cap on the pages of a marker search.
pub const STICKY_MARKER_SEARCH_MAX_PAGES: usize = 20;

/// Comments asked for per page.
pub const COMMENTS_PER_PAGE: u32 = 100;

/// Appended when something was dropped.
pub const TRUNCATION_NOTICE: &'static str =
    "_Additional findings truncated to fit the comment size limit._\n";

/// What the renderer needs to know.
pub struct RenderInput<'a> {
    pub review: &'a Review,
    /// The commit that was reviewed.
    pub reviewed_head_sha: &'a str,
    /// The head of the pull request now; a notice is rendered when it differs.
    pub current_head_sha: Option<&'a str>,
    /// Above one, an update banner is rendered.
    pub review_generation: u64,
}

/// A [`RenderInput`] with its texts as character sequences.
pub struct InputView {
    pub review: ReviewView,
    pub reviewed_head_sha: Seq<char>,
    pub current_head_sha: Option<Seq<char>>,
    pub review_generation: u64,
}

impl<'a> View for RenderInput<'a> {
    type V = InputView;

    open spec fn view(&self) -> InputView {
        InputView {
            review: self.review@,
            reviewed_head_sha: self.reviewed_head_sha@,
            current_head_sha: text::opt_str(self.current_head_sha),
            review_generation: self.review_generation,
        }
    }
}

// ---------------------------------------------------------------------------
// What is rendered
// ---------------------------------------------------------------------------

/// The first twelve bytes, when they end at a character of a longer text; the
/// whole text otherwise.
pub open spec fn short(sha: Seq<char>) -> Seq<char> {
    if text::utf8_len(sha) > 12 && text::utf8_len(text::clip(sha, 12)) == 12 {
        text::clip(sha, 12)
    } else {
        sha
    }
}

/// The verdict line.
pub open spec fn heading(v: Verdict) -> Seq<char> {
    match v {
        Verdict::Pass => "## Auto review: PASS"@,
        Verdict::Fail => "## Auto review: FAIL"@,
    }
}

/// The banner of a review that was run again.
pub open spec fn banner(i: InputView) -> Seq<char> {
    if i.review_generation > 1 {
        "> [!IMPORTANT] Updated for commit `"@ + short(i.reviewed_head_sha)
            + "` (review generation "@ + text::dec(i.review_generation as nat) + ")\n\n"@
    } else {
        Seq::empty()
    }
}

/// The notice that the pull request has moved on.
pub open spec fn stale_notice(i: InputView) -> Seq<char> {
    match i.current_head_sha {
        Some(current) => if current != i.reviewed_head_sha {
            "> Stale revision: this review covers "@ + i.reviewed_head_sha
                + " but the pull request head is now "@ + current + ".\n"@
        } else {
            Seq::empty()
        },
        None => Seq::empty(),
    }
}

/// Everything before the summary.
pub open spec fn header(i: InputView) -> Seq<char> {
    REVIEW_MARKER@ + "\n\n"@ + banner(i) + heading(i.review.verdict) + "\n"@ + "Reviewed SHA: "@
        + i.reviewed_head_sha + "\n"@ + stale_notice(i)
}

/// Everything after the findings and the notice.
pub open spec fn footer() -> Seq<char> {
    "\n"@ + REVIEW_MARKER@ + "\n"@
}

/// Bytes left for summary and findings once header, notice and footer are
/// reserved.
pub open spec fn budget(i: InputView) -> nat {
    let reserved = text::utf8_len(header(i)) + text::utf8_len(TRUNCATION_NOTICE@) + text::utf8_len(
        REVIEW_MARKER@,
    ) + 2;
    if reserved <= STICKY_COMMENT_MAX_BYTES {
        (STICKY_COMMENT_MAX_BYTES - reserved) as nat
    } else {
        0
    }
}

/// The summary does not fit whole.
pub open spec fn summary_clipped(i: InputView) -> bool {
    text::utf8_len(i.review.summary) + 2 > budget(i)
}

/// Up to two line ends.
pub open spec fn separator(n: nat) -> Seq<char> {
    if n >= 2 {
        "\n\n"@
    } else if n == 1 {
        "\n"@
    } else {
        Seq::empty()
    }
}

/// The summary and the blank line after it, clipped when they do not fit.
pub open spec fn summary_part(i: InputView) -> Seq<char> {
    if summary_clipped(i) {
        let sep: nat = if budget(i) >= 2 {
            2
        } else {
            budget(i)
        };
        text::clip(i.review.summary, (budget(i) - sep) as nat) + separator(sep)
    } else {
        i.review.summary + "\n\n"@
    }
}

/// Bytes left for the findings.
pub open spec fn findings_budget(i: InputView) -> nat {
    if summary_clipped(i) {
        0
    } else {
        (budget(i) - text::utf8_len(i.review.summary) - 2) as nat
    }
}

/// Where a finding is.
pub open spec fn location(f: FindingView) -> Seq<char> {
    match f.path {
        Some(path) => match f.line {
            Some(line) => "`"@ + path + ":"@ + text::dec(line as nat) + "`\n\n"@,
            None => "`"@ + path + "`\n\n"@,
        },
        None => Seq::empty(),
    }
}

/// What to do about a finding.
pub open spec fn remedy(f: FindingView) -> Seq<char> {
    match f.remediation {
        Some(r) => "**Remediation:** "@ + r + "\n\n"@,
        None => Seq::empty(),
    }
}

/// One finding as a block.
pub open spec fn block(f: FindingView) -> Seq<char> {
    "### "@ + f.title + "\n\n"@ + f.body + "\n\n"@ + location(f) + remedy(f)
}

/// The findings of one severity, in recorded order.
pub open spec fn of_severity(findings: Seq<FindingView>, s: Severity) -> Seq<FindingView> {
    findings.filter(|f: FindingView| f.severity == s)
}

/// Blocking findings, then warnings, then suggestions; in recorded order
/// within each.
pub open spec fn in_severity_order(findings: Seq<FindingView>) -> Seq<FindingView> {
    of_severity(findings, Severity::Blocking) + of_severity(findings, Severity::Warning)
        + of_severity(findings, Severity::Suggestion)
}

/// The blocks of the findings from position `i` on that fit in `room` bytes;
/// the first that does not fit ends the list.
pub open spec fn fitting(findings: Seq<FindingView>, i: int, room: nat) -> Seq<char>
    decreases findings.len() - i,
{
    if i < 0 || i >= findings.len() || text::utf8_len(block(findings[i])) > room {
        Seq::empty()
    } else {
        block(findings[i]) + fitting(
            findings,
            i + 1,
            (room - text::utf8_len(block(findings[i]))) as nat,
        )
    }
}

/// Some finding from position `i` on does not fit.
pub open spec fn overflows(findings: Seq<FindingView>, i: int, room: nat) -> bool
    decreases findings.len() - i,
{
    if i < 0 || i >= findings.len() {
        false
    } else if text::utf8_len(block(findings[i])) > room {
        true
    } else {
        overflows(findings, i + 1, (room - text::utf8_len(block(findings[i]))) as nat)
    }
}

/// The notice, when anything was dropped.
pub open spec fn notice(i: InputView) -> Seq<char> {
    if overflows(in_severity_order(i.review.findings), 0, findings_budget(i)) || summary_clipped(
        i,
    ) {
        TRUNCATION_NOTICE@
    } else {
        Seq::empty()
    }
}

/// The comment.
pub open spec fn rendered(i: InputView) -> Seq<char> {
    header(i) + summary_part(i) + fitting(
        in_severity_order(i.review.findings),
        0,
        findings_budget(i),
    ) + notice(i) + footer()
}

// ---------------------------------------------------------------------------
// Rendering
// ---------------------------------------------------------------------------

fn short_sha(sha: &str) -> (r: String)
    ensures
        r@ == short(sha@),
{
    let head = text::clipped(sha, 12);
    if text::byte_len(sha) > 12 && text::byte_len(head.as_str()) == 12 {
        head
    } else {
        sha.to_owned()
    }
}

/// Append at most `max_bytes` of `text`, cut at a character.
pub fn push_char_bounded(out: &mut String, text: &str, max_bytes: usize)
    ensures
        final(out)@ == old(out)@ + text::clip(text@, max_bytes as nat),
{
    let kept = text::clipped(text, max_bytes);
    out.append(kept.as_str());
}

/// One finding as a block.
pub fn render_finding(finding: &Finding) -> (r: String)
    ensures
        r@ == block(finding@),
{
    let mut out = text::cat("### ", finding.title.as_str());
    out.append("\n\n");
    out.append(finding.body.as_str());
    out.append("\n\n");
    match &finding.path {
        Some(path) => {
            let mut at = text::cat("`", path.as_str());
            match finding.line {
                Some(line) => {
                    at.append(":");
                    at.append(text::decimal(line as u64).as_str());
                },
                None => {},
            }
            at.append("`\n\n");
            out.append(at.as_str());
        },
        None => {
            proof {
                assert(out@ + location(finding@) =~= out@);
            }
        },
    }
    match &finding.remediation {
        Some(r) => {
            let mut fix = text::cat("**Remediation:** ", r.as_str());
            fix.append("\n\n");
            out.append(fix.as_str());
        },
        None => {
            proof {
                assert(out@ + remedy(finding@) =~= out@);
            }
        },
    }
    out
}

/// References to findings, by the views of what they refer to.
pub open spec fn referred(v: Seq<&Finding>) -> Seq<FindingView> {
    v.map_values(|f: &Finding| f@)
}

fn push_of_severity<'a>(out: &mut Vec<&'a Finding>, findings: &'a Vec<Finding>, s: Severity)
    ensures
        referred(final(out)@) == referred(old(out)@) + of_severity(
            super::finding_views(findings@),
            s,
        ),
{
    let ghost all = super::finding_views(findings@);
    let ghost p = |f: FindingView| f.severity == s;
    let ghost before = referred(out@);
    let mut i: usize = 0;
    proof {
        assert(all.take(0) =~= Seq::<FindingView>::empty());
        reveal(Seq::filter);
        assert(all.take(0).filter(p) =~= Seq::<FindingView>::empty());
        assert(before + all.take(0).filter(p) =~= before);
    }
    while i < findings.len()
        invariant
            i <= findings.len(),
            all == super::finding_views(findings@),
            p == (|f: FindingView| f.severity == s),
            referred(out@) == before + all.take(i as int).filter(p),
        decreases findings.len() - i,
    {
        let ghost now = out@;
        proof {
            reveal(Seq::filter);
            assert(all.take(i + 1).drop_last() =~= all.take(i as int));
            assert(all.take(i + 1).last() == findings@[i as int]@);
        }
        if findings[i].severity == s {
            out.push(&findings[i]);
            proof {
                assert(referred(out@) =~= referred(now).push(findings@[i as int]@));
                assert(referred(out@) =~= before + all.take(i + 1).filter(p));
            }
        }
        i += 1;
    }
    proof {
        assert(all.take(all.len() as int) =~= all);
    }
}

/// The findings in rendering order.
pub fn findings_in_severity_order<'a>(review: &'a Review) -> (r: Vec<&'a Finding>)
    ensures
        referred(r@) == in_severity_order(review@.findings),
{
    let mut out: Vec<&'a Finding> = Vec::new();
    proof {
        assert(referred(out@) =~= Seq::<FindingView>::empty());
    }
    push_of_severity(&mut out, &review.findings, Severity::Blocking);
    push_of_severity(&mut out, &review.findings, Severity::Warning);
    push_of_severity(&mut out, &review.findings, Severity::Suggestion);
    proof {
        assert(referred(out@) =~= in_severity_order(review@.findings));
    }
    out
}

fn render_header(input: &RenderInput<'_>) -> (r: String)
    ensures
        r@ == header(input@),
{
    let mut head = text::cat(REVIEW_MARKER, "\n\n");
    if input.review_generation > 1 {
        let mut b = text::cat(
            "> [!IMPORTANT] Updated for commit `",
            short_sha(input.reviewed_head_sha).as_str(),
        );
        b.append("` (review generation ");
        b.append(text::decimal(input.review_generation).as_str());
        b.append(")\n\n");
        head.append(b.as_str());
    } else {
        proof {
            assert(head@ + banner(input@) =~= head@);
        }
    }
    match input.review.verdict {
        Verdict::Pass => head.append("## Auto review: PASS"),
        Verdict::Fail => head.append("## Auto review: FAIL"),
    }
    head.append("\n");
    head.append("Reviewed SHA: ");
    head.append(input.reviewed_head_sha);
    head.append("\n");
    let ghost so_far = head@;
    match input.current_head_sha {
        Some(current) => {
            if !text::same(current, input.reviewed_head_sha) {
                let mut s = text::cat(
                    "> Stale revision: this review covers ",
                    input.reviewed_head_sha,
                );
                s.append(" but the pull request head is now ");
                s.append(current);
                s.append(".\n");
                head.append(s.as_str());
            } else {
                proof {
                    assert(so_far + stale_notice(input@) =~= so_far);
                }
            }
        },
        None => {
            proof {
                assert(so_far + stale_notice(input@) =~= so_far);
            }
        },
    }
    head
}

/// Render the comment. The same input always gives the same text.
pub fn render_sticky_comment(input: &RenderInput<'_>) -> (r: String)
    ensures
        r@ == rendered(input@),
{
    let review = input.review;
    let head = render_header(input);
    let head_len = text::byte_len(head.as_str());
    proof {
        lemma_literal_lengths();
    }
    let fixed: usize = text::byte_len(TRUNCATION_NOTICE) + text::byte_len(REVIEW_MARKER) + 2;
    let room: usize = if head_len <= STICKY_COMMENT_MAX_BYTES - fixed {
        STICKY_COMMENT_MAX_BYTES - fixed - head_len
    } else {
        0
    };
    assert(room == budget(input@));
    let mut out = head;
    let summary_len = text::byte_len(review.summary.as_str());
    let clipped = room < 2 || summary_len > room - 2;
    let mut remaining: usize = 0;
    if clipped {
        let sep: usize = if room < 2 {
            room
        } else {
            2
        };
        push_char_bounded(&mut out, review.summary.as_str(), room - sep);
        let ghost cut = out@;
        if sep == 2 {
            out.append("\n\n");
        } else if sep == 1 {
            out.append("\n");
        }
        proof {
            assert(cut + separator(sep as nat) =~= out@);
            assert(out@ =~= header(input@) + summary_part(input@));
        }
    } else {
        out.append(review.summary.as_str());
        out.append("\n\n");
        remaining = room - summary_len - 2;
        proof {
            assert(out@ =~= header(input@) + summary_part(input@));
        }
    }
    let ordered = findings_in_severity_order(review);
    let ghost order = in_severity_order(review@.findings);
    let ghost start = out@;
    let ghost all = fitting(order, 0, findings_budget(input@));
    let mut dropped = false;
    let mut i: usize = 0;
    proof {
        assert(start + all =~= out@ + fitting(order, 0, remaining as nat));
    }
    while i < ordered.len()
        invariant_except_break
            i <= ordered.len(),
            order == referred(ordered@),
            !dropped,
            start + all == out@ + fitting(order, i as int, remaining as nat),
            overflows(order, 0, findings_budget(input@)) == overflows(
                order,
                i as int,
                remaining as nat,
            ),
        ensures
            out@ == start + all,
            dropped == overflows(order, 0, findings_budget(input@)),
        decreases ordered.len() - i,
    {
        proof {
            assert(order[i as int] == ordered@[i as int]@);
        }
        let b = render_finding(ordered[i]);
        let n = text::byte_len(b.as_str());
        if n > remaining {
            dropped = true;
            proof {
                assert(out@ + fitting(order, i as int, remaining as nat) =~= out@);
            }
            break;
        }
        proof {
            let rest = fitting(order, i + 1, (remaining - n) as nat);
            assert(out@ + (b@ + rest) =~= (out@ + b@) + rest);
        }
        out.append(b.as_str());
        remaining = remaining - n;
        i += 1;
        proof {
            if i == ordered.len() {
                assert(out@ + fitting(order, i as int, remaining as nat) =~= out@);
            }
        }
    }
    let ghost body = out@;
    if dropped || clipped {
        out.append(TRUNCATION_NOTICE);
    }
    proof {
        assert(out@ =~= body + notice(input@));
    }
    let ghost before_footer = out@;
    out.append("\n");
    out.append(REVIEW_MARKER);
    out.append("\n");
    proof {
        assert(out@ =~= before_footer + footer());
    }
    out
}

proof fn lemma_literal_lengths()
    ensures
        text::utf8_len(TRUNCATION_NOTICE@) == 63,
        text::utf8_len(REVIEW_MARKER@) == 29,
        text::utf8_len("\n"@) == 1,
        text::utf8_len("\n\n"@) == 2,
{
    reveal_strlit("_Additional findings truncated to fit the comment size limit._\n");
    reveal_strlit("<!-- caduceus-auto-review -->");
    reveal_strlit("\n");
    reveal_strlit("\n\n");
    vstd::utf8::is_ascii_chars_encode_utf8(TRUNCATION_NOTICE@);
    vstd::utf8::is_ascii_chars_encode_utf8(REVIEW_MARKER@);
    vstd::utf8::is_ascii_chars_encode_utf8("\n"@);
    vstd::utf8::is_ascii_chars_encode_utf8("\n\n"@);
}

// ---------------------------------------------------------------------------
// Finding the comment by its marker
// ---------------------------------------------------------------------------

/// One comment of a page: its id and its body, when it has one.
pub struct MarkerComment {
    pub id: u64,
    pub body: Option<String>,
}

/// The comment carries the marker.
pub open spec fn marked(c: MarkerComment) -> bool {
    c.body matches Some(b) && text::has(b@, REVIEW_MARKER@)
}

/// The first marked comment from position `i` on.
pub open spec fn first_marked(comments: Seq<MarkerComment>, i: int) -> Option<u64>
    decreases comments.len() - i,
{
    if i < 0 || i >= comments.len() {
        None
    } else if marked(comments[i]) {
        Some(comments[i].id)
    } else {
        first_marked(comments, i + 1)
    }
}

/// The id of the first comment that carries the marker.
pub fn find_marked(comments: &Vec<MarkerComment>) -> (r: Option<u64>)
    ensures
        r == first_marked(comments@, 0),
{
    let mut i: usize = 0;
    while i < comments.len()
        invariant
            i <= comments.len(),
            first_marked(comments@, 0) == first_marked(comments@, i as int),
        decreases comments.len() - i,
    {
        let hit = match &comments[i].body {
            Some(b) => text::contains_text(b.as_str(), REVIEW_MARKER),
            None => false,
        };
        if hit {
            return Some(comments[i].id);
        }
        i += 1;
    }
    None
}

/// The URL of the page that a `Link` header announces. A URL without a page
/// number gets the given one.
pub open spec fn next_page(header: Option<Seq<char>>, next_page_number: u32) -> Option<Seq<char>> {
    match header {
        None => None,
        Some(h) => match link::next_url(h) {
            None => None,
            Some(url) => if text::has(url, "page="@) {
                link::url_of(url)
            } else {
                let (path, query) = link::query_split(url);
                let extra = "page="@ + text::dec(next_page_number as nat) + "&per_page="@
                    + text::dec(COMMENTS_PER_PAGE as nat);
                link::url_of(
                    if query.len() == 0 {
                        path + "?"@ + extra
                    } else {
                        path + "?"@ + query + "&"@ + extra
                    },
                )
            },
        },
    }
}

/// The URL of the page that a `Link` header announces.
pub fn next_page_url(header: Option<&str>, next_page_number: u32) -> (r: Option<String>)
    ensures
        text::opt(r) == next_page(text::opt_str(header), next_page_number),
{
    let url = match header {
        None => {
            return None;
        },
        Some(h) => match link::next_url_from_link_header(h) {
            None => {
                return None;
            },
            Some(url) => url,
        },
    };
    if text::contains_text(url.as_str(), "page=") {
        return link::parse_url(url.as_str());
    }
    let (path, query) = link::split_query(url.as_str());
    let mut extra = text::cat("page=", text::decimal(next_page_number as u64).as_str());
    extra.append("&per_page=");
    extra.append(text::decimal(COMMENTS_PER_PAGE as u64).as_str());
    let mut combined = text::cat(path.as_str(), "?");
    if !query.as_str().is_empty() {
        combined.append(query.as_str());
        combined.append("&");
    }
    combined.append(extra.as_str());
    proof {
        assert(combined@ =~= (if query@.len() == 0 {
            path@ + "?"@ + extra@
        } else {
            path@ + "?"@ + query@ + "&"@ + extra@
        }));
    }
    link::parse_url(combined.as_str())
}

/// The path of the first page of a pull request's comments.
pub open spec fn comments_path(owner: Seq<char>, repo: Seq<char>, pr: u64) -> Seq<char> {
    "/repos/"@ + owner + "/"@ + repo + "/issues/"@ + text::dec(pr as nat) + "/comments?per_page="@
        + text::dec(COMMENTS_PER_PAGE as nat)
}

/// The URL of the first page of a pull request's comments, under the API base
/// URL.
pub fn first_page_url(base_url: &str, owner: &str, repo: &str, pr_number: u64) -> (r: Option<String>)
    requires
        text::utf8_len(base_url@) < 0x1000_0000,
        text::utf8_len(comments_path(owner@, repo@, pr_number)) < 0x1000_0000,
    ensures
        text::opt(r) == link::api_path(base_url@, comments_path(owner@, repo@, pr_number)),
{
    let mut path = text::cat("/repos/", owner);
    path.append("/");
    path.append(repo);
    path.append("/issues/");
    path.append(text::decimal(pr_number).as_str());
    path.append("/comments?per_page=");
    path.append(text::decimal(COMMENTS_PER_PAGE as u64).as_str());
    link::join_api_path(base_url, path.as_str())
}

/// A search through the comment pages of a pull request: the request to make
/// next, and how many were made.
pub struct MarkerSearch {
    pub subject: String,
    pub page: usize,
    pub url: Option<String>,
}

impl MarkerSearch {
    /// The number of requests made is within the cap.
    pub open spec fn wf(&self) -> bool {
        self.page <= STICKY_MARKER_SEARCH_MAX_PAGES
    }

    /// A search that begins at `url`, for `owner/repo#pr`.
    pub fn start(owner: &str, repo: &str, pr_number: u64, url: Option<String>) -> (r: MarkerSearch)
        ensures
            r.wf(),
            r.page == 0,
            r.url == url,
            r.subject@ == owner@ + "/"@ + repo@ + "#"@ + text::dec(pr_number as nat),
    {
        let mut subject = text::cat(owner, "/");
        subject.append(repo);
        subject.append("#");
        subject.append(text::decimal(pr_number).as_str());
        MarkerSearch { subject, page: 0, url }
    }

    /// The URL to request now; `None` when there is no further page. Past the
    /// cap the search fails.
    pub fn next_request(&mut self) -> (r: Result<Option<String>, CaduceusError>)
        requires
            old(self).wf(),
        ensures
            final(self).wf(),
            final(self).subject == old(self).subject,
            match old(self).url {
                None => r == Ok::<Option<String>, CaduceusError>(None) && *final(self) == *old(self),
                Some(url) => if old(self).page >= STICKY_MARKER_SEARCH_MAX_PAGES {
                    &&& r matches Err(e) && e@ == Fault::Other(
                        "sticky marker search exceeded "@ + text::dec(
                            STICKY_MARKER_SEARCH_MAX_PAGES as nat,
                        ) + " pages for "@ + old(self).subject@,
                    )
                    &&& *final(self) == *old(self)
                } else {
                    &&& r == Ok::<Option<String>, CaduceusError>(Some(url))
                    &&& final(self).page == old(self).page + 1
                    &&& final(self).url is None
                },
            },
    {
        if self.url.is_none() {
            return Ok(None);
        }
        if self.page >= STICKY_MARKER_SEARCH_MAX_PAGES {
            let mut m = text::cat(
                "sticky marker search exceeded ",
                text::decimal(STICKY_MARKER_SEARCH_MAX_PAGES as u64).as_str(),
            );
            m.append(" pages for ");
            m.append(self.subject.as_str());
            return Err(CaduceusError::Other(m));
        }
        self.page = self.page + 1;
        Ok(self.url.take())
    }

    /// Take in a page: the marked comment on it, or else the way to the next
    /// page that its `Link` header announces.
    pub fn page_received(&mut self, comments: &Vec<MarkerComment>, link_header: Option<&str>) -> (r:
        Option<u64>)
        requires
            old(self).wf(),
        ensures
            final(self).wf(),
            final(self).page == old(self).page,
            final(self).subject == old(self).subject,
            r == first_marked(comments@, 0),
            r is None ==> text::opt(final(self).url) == next_page(
                text::opt_str(link_header),
                (old(self).page + 1) as u32,
            ),
    {
        match find_marked(comments) {
            Some(id) => Some(id),
            None => {
                self.url = next_page_url(link_header, self.page as u32 + 1);
                None
            },
        }
    }
}

// ---------------------------------------------------------------------------
// Publishing
// ---------------------------------------------------------------------------

/// Where a pull request stands.
#[derive(Clone, Copy, Debug, PartialEq, Eq, Structural)]
pub enum MergeStatus {
    NotFound,
    ClosedWithoutMerge,
    Merged,
    StillOpen,
}

/// What publishing did.
#[derive(Clone, Copy, Debug, PartialEq, Eq, Structural)]
pub enum StickyOutcome {
    /// Created, or updated by id.
    Published { comment_id: u64 },
    /// The comment held exactly this text already.
    Unchanged { comment_id: u64 },
    /// The known comment was gone: another was adopted or created.
    CommentGoneRecreated { new_comment_id: u64 },
    /// The pull request is gone.
    PrNotFound,
    /// The pull request was closed without a merge.
    PrClosedUnmerged,
    /// The merge was detected after the publication had been suppressed.
    PrMergedSuppressed,
    /// The run is of an older generation.
    SuppressedStaleGeneration,
}

/// The request that publishing makes next, or its end.
#[derive(Clone, Copy, Debug, PartialEq, Eq, Structural)]
pub enum PublishStep {
    /// Search the marker: no comment id is known.
    SearchMarker,
    /// Fetch the body of a comment.
    FetchBody { id: u64 },
    /// Update a comment.
    Update { id: u64 },
    /// Search the marker again: the comment `failed` is gone.
    SearchAgain { failed: u64 },
    /// Update a comment found in place of the one that is gone.
    Adopt { id: u64 },
    /// Create the first comment.
    Create,
    /// Create a comment in place of the one that is gone.
    Recreate,
    Finished(StickyOutcome),
    /// The check of the voice refused the text, or a request failed; that error
    /// is the outcome.
    Failed,
}

/// What a request came back with.
pub enum PublishEvent {
    Body(String),
    Marker(Option<u64>),
    Updated,
    Created(u64),
    /// Not found.
    Gone,
    Failed,
}

/// The first request: none at all for a pull request that is gone or closed
/// without a merge, nor for a text that the check of the voice refuses.
pub open spec fn first_step(
    pr_state: MergeStatus,
    voice_accepts: bool,
    sticky_comment_id: Option<u64>,
) -> PublishStep {
    match pr_state {
        MergeStatus::NotFound => PublishStep::Finished(StickyOutcome::PrNotFound),
        MergeStatus::ClosedWithoutMerge => PublishStep::Finished(StickyOutcome::PrClosedUnmerged),
        _ => if !voice_accepts {
            PublishStep::Failed
        } else {
            match sticky_comment_id {
                Some(id) => PublishStep::FetchBody { id },
                None => PublishStep::SearchMarker,
            }
        },
    }
}

/// The first request of publishing; `voice_accepts` is what the check of the
/// public voice says of the rendered comment.
pub fn begin_publish(
    pr_state: MergeStatus,
    voice_accepts: bool,
    sticky_comment_id: Option<u64>,
) -> (r: PublishStep)
    ensures
        r == first_step(pr_state, voice_accepts, sticky_comment_id),
{
    match pr_state {
        MergeStatus::NotFound => PublishStep::Finished(StickyOutcome::PrNotFound),
        MergeStatus::ClosedWithoutMerge => PublishStep::Finished(StickyOutcome::PrClosedUnmerged),
        _ => {
            if !voice_accepts {
                return PublishStep::Failed;
            }
            match sticky_comment_id {
                Some(id) => PublishStep::FetchBody { id },
                None => PublishStep::SearchMarker,
            }
        },
    }
}

/// The step after `step` when its request came back with `event`; `body` is
/// the rendered comment.
pub open spec fn step_after(step: PublishStep, event: PublishEvent, body: Seq<char>) -> PublishStep {
    match (step, event) {
        (PublishStep::Finished(o), _) => PublishStep::Finished(o),
        (PublishStep::SearchMarker, PublishEvent::Marker(Some(id))) => PublishStep::FetchBody { id },
        (PublishStep::SearchMarker, PublishEvent::Marker(None)) => PublishStep::Create,
        (PublishStep::FetchBody { id }, PublishEvent::Body(existing)) => if existing@ == body {
            PublishStep::Finished(StickyOutcome::Unchanged { comment_id: id })
        } else {
            PublishStep::Update { id }
        },
        (PublishStep::FetchBody { id }, PublishEvent::Gone) => PublishStep::SearchAgain {
            failed: id,
        },
        (PublishStep::Update { id }, PublishEvent::Updated) => PublishStep::Finished(
            StickyOutcome::Published { comment_id: id },
        ),
        (PublishStep::Update { id }, PublishEvent::Gone) => PublishStep::SearchAgain { failed: id },
        (PublishStep::SearchAgain { failed }, PublishEvent::Marker(Some(id))) => if id != failed {
            PublishStep::Adopt { id }
        } else {
            PublishStep::Recreate
        },
        (PublishStep::SearchAgain { failed }, PublishEvent::Marker(None)) => PublishStep::Recreate,
        (PublishStep::Adopt { id }, PublishEvent::Updated) => PublishStep::Finished(
            StickyOutcome::CommentGoneRecreated { new_comment_id: id },
        ),
        (PublishStep::Adopt { id }, PublishEvent::Gone) => PublishStep::Recreate,
        (PublishStep::Create, PublishEvent::Created(id)) => PublishStep::Finished(
            StickyOutcome::Published { comment_id: id },
        ),
        (PublishStep::Recreate, PublishEvent::Created(id)) => PublishStep::Finished(
            StickyOutcome::CommentGoneRecreated { new_comment_id: id },
        ),
        _ => PublishStep::Failed,
    }
}

/// The step after `step` when its request came back with `event`.
pub fn next_step(step: PublishStep, event: &PublishEvent, body: &str) -> (r: PublishStep)
    ensures
        r == step_after(step, *event, body@),
{
    match (step, event) {
        (PublishStep::Finished(o), _) => PublishStep::Finished(o),
        (PublishStep::SearchMarker, PublishEvent::Marker(Some(id))) => PublishStep::FetchBody {
            id: *id,
        },
        (PublishStep::SearchMarker, PublishEvent::Marker(None)) => PublishStep::Create,
        (PublishStep::FetchBody { id }, PublishEvent::Body(existing)) => {
            if text::same(existing.as_str(), body) {
                PublishStep::Finished(StickyOutcome::Unchanged { comment_id: id })
            } else {
                PublishStep::Update { id }
            }
        },
        (PublishStep::FetchBody { id }, PublishEvent::Gone) => PublishStep::SearchAgain {
            failed: id,
        },
        (PublishStep::Update { id }, PublishEvent::Updated) => PublishStep::Finished(
            StickyOutcome::Published { comment_id: id },
        ),
        (PublishStep::Update { id }, PublishEvent::Gone) => PublishStep::SearchAgain { failed: id },
        (PublishStep::SearchAgain { failed }, PublishEvent::Marker(Some(id))) => {
            if *id != failed {
                PublishStep::Adopt { id: *id }
            } else {
                PublishStep::Recreate
            }
        },
        (PublishStep::SearchAgain { failed: _ }, PublishEvent::Marker(None)) => {
            PublishStep::Recreate
        },
        (PublishStep::Adopt { id }, PublishEvent::Updated) => PublishStep::Finished(
            StickyOutcome::CommentGoneRecreated { new_comment_id: id },
        ),
        (PublishStep::Adopt { id: _ }, PublishEvent::Gone) => PublishStep::Recreate,
        (PublishStep::Create, PublishEvent::Created(id)) => PublishStep::Finished(
            StickyOutcome::Published { comment_id: *id },
        ),
        (PublishStep::Recreate, PublishEvent::Created(id)) => PublishStep::Finished(
            StickyOutcome::CommentGoneRecreated { new_comment_id: *id },
        ),
        _ => PublishStep::Failed,
    }
}

// ---------------------------------------------------------------------------
// Laws of rendering
// ---------------------------------------------------------------------------

/// A prefix stays one when more is appended.
proof fn lemma_prefix_add(p: Seq<char>, a: Seq<char>, b: Seq<char>)
    requires
        p.is_prefix_of(a),
    ensures
        p.is_prefix_of(a + b),
{
    assert(p =~= a.subrange(0, p.len() as int));
    assert(p =~= (a + b).subrange(0, p.len() as int));
}

proof fn lemma_header_begins_with_marker(i: InputView)
    ensures
        REVIEW_MARKER@.is_prefix_of(header(i)),
{
    let m = REVIEW_MARKER@;
    let p1 = m + "\n\n"@;
    let p2 = p1 + banner(i);
    let p3 = p2 + heading(i.review.verdict);
    let p4 = p3 + "\n"@;
    let p5 = p4 + "Reviewed SHA: "@;
    let p6 = p5 + i.reviewed_head_sha;
    let p7 = p6 + "\n"@;
    assert(m =~= m.subrange(0, m.len() as int));
    lemma_prefix_add(m, m, "\n\n"@);
    lemma_prefix_add(m, p1, banner(i));
    lemma_prefix_add(m, p2, heading(i.review.verdict));
    lemma_prefix_add(m, p3, "\n"@);
    lemma_prefix_add(m, p4, "Reviewed SHA: "@);
    lemma_prefix_add(m, p5, i.reviewed_head_sha);
    lemma_prefix_add(m, p6, "\n"@);
    lemma_prefix_add(m, p7, stale_notice(i));
}

/// The header is never cut, and the marker stands at the head and at the tail.
pub proof fn law_the_header_is_never_cut(i: InputView)
    ensures
        header(i).is_prefix_of(rendered(i)),
        footer().is_suffix_of(rendered(i)),
        REVIEW_MARKER@.is_prefix_of(rendered(i)),
        text::has(rendered(i), REVIEW_MARKER@),
{
    let h = header(i);
    let f = footer();
    let all = rendered(i);
    let a = summary_part(i);
    let b = fitting(in_severity_order(i.review.findings), 0, findings_budget(i));
    let body = h + a + b + notice(i);
    assert(all == body + f);
    assert(h =~= h.subrange(0, h.len() as int));
    lemma_prefix_add(h, h, a);
    lemma_prefix_add(h, h + a, b);
    lemma_prefix_add(h, h + a + b, notice(i));
    lemma_prefix_add(h, body, f);
    lemma_header_begins_with_marker(i);
    let m = REVIEW_MARKER@;
    assert(m =~= all.subrange(0, m.len() as int)) by {
        assert(h =~= all.subrange(0, h.len() as int));
        assert(m =~= h.subrange(0, m.len() as int));
    }
    assert(text::occurs_at(all, m, 0));
    assert((body + f).subrange(body.len() as int, (body + f).len() as int) =~= f);
}

proof fn lemma_fitting_fits(findings: Seq<FindingView>, i: int, room: nat)
    ensures
        text::utf8_len(fitting(findings, i, room)) <= room,
    decreases findings.len() - i,
{
    if i < 0 || i >= findings.len() || text::utf8_len(block(findings[i])) > room {
        assert(text::utf8_len(Seq::<char>::empty()) == 0);
    } else {
        let rest = (room - text::utf8_len(block(findings[i]))) as nat;
        lemma_fitting_fits(findings, i + 1, rest);
        text::lemma_utf8_len_add(block(findings[i]), fitting(findings, i + 1, rest));
    }
}

/// The comment is within the cap whenever its header, notice and footer are.
pub proof fn law_the_comment_is_within_the_cap(i: InputView)
    requires
        text::utf8_len(header(i)) + text::utf8_len(TRUNCATION_NOTICE@) + text::utf8_len(
            REVIEW_MARKER@,
        ) + 2 <= STICKY_COMMENT_MAX_BYTES,
    ensures
        text::utf8_len(rendered(i)) <= STICKY_COMMENT_MAX_BYTES,
{
    lemma_literal_lengths();
    let h = header(i);
    let s = summary_part(i);
    let order = in_severity_order(i.review.findings);
    let f = fitting(order, 0, findings_budget(i));
    let n = notice(i);
    lemma_fitting_fits(order, 0, findings_budget(i));
    text::lemma_utf8_len_add(h, s);
    text::lemma_utf8_len_add(h + s, f);
    text::lemma_utf8_len_add(h + s + f, n);
    text::lemma_utf8_len_add(h + s + f + n, footer());
    text::lemma_utf8_len_add("\n"@, REVIEW_MARKER@);
    text::lemma_utf8_len_add("\n"@ + REVIEW_MARKER@, "\n"@);
    assert(text::utf8_len(Seq::<char>::empty()) == 0);
    if summary_clipped(i) {
        let sep: nat = if budget(i) >= 2 {
            2
        } else {
            budget(i)
        };
        let cut = text::clip(i.review.summary, (budget(i) - sep) as nat);
        text::lemma_clip_fits(i.review.summary, (budget(i) - sep) as nat);
        text::lemma_utf8_len_add(cut, separator(sep));
    } else {
        text::lemma_utf8_len_add(i.review.summary, "\n\n"@);
    }
}

/// With commit ids within their cap, every comment is within the cap.
pub proof fn law_bounded_commit_ids_give_a_bounded_comment(i: InputView)
    requires
        text::utf8_len(i.reviewed_head_sha) <= super::MAX_SHA_BYTES,
        i.current_head_sha matches Some(c) ==> text::utf8_len(c) <= super::MAX_SHA_BYTES,
    ensures
        text::utf8_len(rendered(i)) <= STICKY_COMMENT_MAX_BYTES,
{
    lemma_literal_lengths();
    lemma_header_literal_lengths();
    assert(text::utf8_len(Seq::<char>::empty()) == 0);
    let sha = i.reviewed_head_sha;
    text::lemma_clip_fits(sha, 12);
    text::lemma_dec_len(i.review_generation);
    let gen = text::dec(i.review_generation as nat);
    if i.review_generation > 1 {
        let a = "> [!IMPORTANT] Updated for commit `"@;
        let b = "` (review generation "@;
        let c = ")\n\n"@;
        text::lemma_utf8_len_add(a, short(sha));
        text::lemma_utf8_len_add(a + short(sha), b);
        text::lemma_utf8_len_add(a + short(sha) + b, gen);
        text::lemma_utf8_len_add(a + short(sha) + b + gen, c);
    }
    match i.current_head_sha {
        Some(current) => {
            let a = "> Stale revision: this review covers "@;
            let b = " but the pull request head is now "@;
            text::lemma_utf8_len_add(a, sha);
            text::lemma_utf8_len_add(a + sha, b);
            text::lemma_utf8_len_add(a + sha + b, current);
            text::lemma_utf8_len_add(a + sha + b + current, ".\n"@);
        },
        None => {},
    }
    let p1 = REVIEW_MARKER@ + "\n\n"@;
    let p2 = p1 + banner(i);
    let p3 = p2 + heading(i.review.verdict);
    let p4 = p3 + "\n"@;
    let p5 = p4 + "Reviewed SHA: "@;
    let p6 = p5 + sha;
    let p7 = p6 + "\n"@;
    text::lemma_utf8_len_add(REVIEW_MARKER@, "\n\n"@);
    text::lemma_utf8_len_add(p1, banner(i));
    text::lemma_utf8_len_add(p2, heading(i.review.verdict));
    text::lemma_utf8_len_add(p3, "\n"@);
    text::lemma_utf8_len_add(p4, "Reviewed SHA: "@);
    text::lemma_utf8_len_add(p5, sha);
    text::lemma_utf8_len_add(p6, "\n"@);
    text::lemma_utf8_len_add(p7, stale_notice(i));
    law_the_comment_is_within_the_cap(i);
}

proof fn lemma_header_literal_lengths()
    ensures
        text::utf8_len("> [!IMPORTANT] Updated for commit `"@) == 35,
        text::utf8_len("` (review generation "@) == 21,
        text::utf8_len(")\n\n"@) == 3,
        text::utf8_len("> Stale revision: this review covers "@) == 37,
        text::utf8_len(" but the pull request head is now "@) == 34,
        text::utf8_len(".\n"@) == 2,
        text::utf8_len("Reviewed SHA: "@) == 14,
        text::utf8_len("## Auto review: PASS"@) == 20,
        text::utf8_len("## Auto review: FAIL"@) == 20,
{
    reveal_strlit("> [!IMPORTANT] Updated for commit `");
    reveal_strlit("` (review generation ");
    reveal_strlit(")\n\n");
    reveal_strlit("> Stale revision: this review covers ");
    reveal_strlit(" but the pull request head is now ");
    reveal_strlit(".\n");
    reveal_strlit("Reviewed SHA: ");
    reveal_strlit("## Auto review: PASS");
    reveal_strlit("## Auto review: FAIL");
    vstd::utf8::is_ascii_chars_encode_utf8("> [!IMPORTANT] Updated for commit `"@);
    vstd::utf8::is_ascii_chars_encode_utf8("` (review generation "@);
    vstd::utf8::is_ascii_chars_encode_utf8(")\n\n"@);
    vstd::utf8::is_ascii_chars_encode_utf8("> Stale revision: this review covers "@);
    vstd::utf8::is_ascii_chars_encode_utf8(" but the pull request head is now "@);
    vstd::utf8::is_ascii_chars_encode_utf8(".\n"@);
    vstd::utf8::is_ascii_chars_encode_utf8("Reviewed SHA: "@);
    vstd::utf8::is_ascii_chars_encode_utf8("## Auto review: PASS"@);
    vstd::utf8::is_ascii_chars_encode_utf8("## Auto review: FAIL"@);
}

/// The blocks of all findings from position `i` on.
pub open spec fn all_blocks(findings: Seq<FindingView>, i: int) -> Seq<char>
    decreases findings.len() - i,
{
    if i < 0 || i >= findings.len() {
        Seq::empty()
    } else {
        block(findings[i]) + all_blocks(findings, i + 1)
    }
}

proof fn lemma_no_overflow_keeps_all(findings: Seq<FindingView>, i: int, room: nat)
    requires
        !overflows(findings, i, room),
    ensures
        fitting(findings, i, room) == all_blocks(findings, i),
    decreases findings.len() - i,
{
    if 0 <= i < findings.len() {
        lemma_no_overflow_keeps_all(
            findings,
            i + 1,
            (room - text::utf8_len(block(findings[i]))) as nat,
        );
    }
}

/// A comment without the truncation notice holds the whole summary and every
/// finding; with it, something was dropped.
pub proof fn law_nothing_is_dropped_without_notice(i: InputView)
    requires
        notice(i).len() == 0,
    ensures
        rendered(i) == header(i) + (i.review.summary + "\n\n"@) + all_blocks(
            in_severity_order(i.review.findings),
            0,
        ) + footer(),
{
    reveal_strlit("_Additional findings truncated to fit the comment size limit._\n");
    lemma_no_overflow_keeps_all(in_severity_order(i.review.findings), 0, findings_budget(i));
    assert(notice(i) =~= Seq::<char>::empty());
    let before = header(i) + summary_part(i) + fitting(
        in_severity_order(i.review.findings),
        0,
        findings_budget(i),
    );
    assert(before + notice(i) =~= before);
}

/// A comment that another run of the same input renders finds nothing to
/// change.
pub proof fn law_republication_is_unchanged(i: InputView, id: u64, existing: String)
    requires
        existing@ == rendered(i),
    ensures
        step_after(PublishStep::FetchBody { id }, PublishEvent::Body(existing), rendered(i))
            == PublishStep::Finished(StickyOutcome::Unchanged { comment_id: id }),
{
}

/// The rank of a severity in the rendering order.
pub open spec fn rank(s: Severity) -> int {
    match s {
        Severity::Blocking => 0,
        Severity::Warning => 1,
        Severity::Suggestion => 2,
    }
}

/// Findings are rendered blocking first, then warnings, then suggestions.
pub proof fn law_findings_are_rendered_by_severity(findings: Seq<FindingView>, a: int, b: int)
    requires
        0 <= a < b < in_severity_order(findings).len(),
    ensures
        rank(in_severity_order(findings)[a].severity) <= rank(
            in_severity_order(findings)[b].severity,
        ),
{
    broadcast use vstd::seq_lib::group_filter_ensures;

    let x = of_severity(findings, Severity::Blocking);
    let y = of_severity(findings, Severity::Warning);
    let z = of_severity(findings, Severity::Suggestion);
    let order = in_severity_order(findings);
    if a < x.len() {
        assert(order[a] == x[a]);
    } else if a < x.len() + y.len() {
        assert(order[a] == y[a - x.len()]);
    } else {
        assert(order[a] == z[a - x.len() - y.len()]);
    }
    if b < x.len() {
        assert(order[b] == x[b]);
    } else if b < x.len() + y.len() {
        assert(order[b] == y[b - x.len()]);
    } else {
        assert(order[b] == z[b - x.len() - y.len()]);
    }
}

/// Ordering loses no finding and invents none.
pub proof fn law_ordering_keeps_every_finding(findings: Seq<FindingView>)
    ensures
        in_severity_order(findings).to_multiset() == findings.to_multiset(),
    decreases findings.len(),
{
    broadcast use vstd::seq_lib::group_to_multiset_ensures;

    reveal(Seq::filter);
    if findings.len() == 0 {
        assert(in_severity_order(findings) =~= findings);
    } else {
        let rest = findings.drop_last();
        let f = findings.last();
        law_ordering_keeps_every_finding(rest);
        assert(findings =~= rest.push(f));
        let x = of_severity(rest, Severity::Blocking);
        let y = of_severity(rest, Severity::Warning);
        let z = of_severity(rest, Severity::Suggestion);
        let x1 = of_severity(findings, Severity::Blocking);
        let y1 = of_severity(findings, Severity::Warning);
        let z1 = of_severity(findings, Severity::Suggestion);
        vstd::seq_lib::lemma_multiset_commutative(x + y, z);
        vstd::seq_lib::lemma_multiset_commutative(x, y);
        vstd::seq_lib::lemma_multiset_commutative(x1 + y1, z1);
        vstd::seq_lib::lemma_multiset_commutative(x1, y1);
        assert(in_severity_order(findings).to_multiset() =~= findings.to_multiset());
    }
}

// ---------------------------------------------------------------------------
// Laws of publishing
// ---------------------------------------------------------------------------

/// How many requests a step can still lead to.
pub open spec fn requests_left(s: PublishStep) -> nat {
    match s {
        PublishStep::SearchMarker => 6,
        PublishStep::FetchBody { .. } => 5,
        PublishStep::Update { .. } => 4,
        PublishStep::SearchAgain { .. } => 3,
        PublishStep::Adopt { .. } => 2,
        PublishStep::Recreate => 1,
        PublishStep::Create => 1,
        PublishStep::Finished(_) => 0,
        PublishStep::Failed => 0,
    }
}

/// Every request brings publishing nearer to its end: it makes at most six.
pub proof fn law_publishing_ends(step: PublishStep, event: PublishEvent, body: Seq<char>)
    ensures
        requests_left(step) > 0 ==> requests_left(step_after(step, event, body)) < requests_left(
            step,
        ),
        requests_left(step) <= 6,
{
}

/// A comment is created only when no comment is known and none is marked, or
/// when the known one is gone and no other can be adopted.
pub proof fn law_no_duplicate_comment(step: PublishStep, event: PublishEvent, body: Seq<char>)
    ensures
        step_after(step, event, body) == PublishStep::Create ==> step == PublishStep::SearchMarker
            && event == PublishEvent::Marker(None),
        step_after(step, event, body) == PublishStep::Recreate ==> {
            ||| step matches PublishStep::SearchAgain { failed } && (event == PublishEvent::Marker(
                None,
            ) || event == PublishEvent::Marker(Some(failed)))
            ||| step is Adopt && event == PublishEvent::Gone
        },
{
}

/// Nothing is sent for a pull request that is gone or closed without a merge.
pub proof fn law_a_dead_pull_request_gets_no_comment(voice_accepts: bool, id: Option<u64>)
    ensures
        requests_left(first_step(MergeStatus::NotFound, voice_accepts, id)) == 0,
        requests_left(first_step(MergeStatus::ClosedWithoutMerge, voice_accepts, id)) == 0,
        requests_left(first_step(MergeStatus::Merged, true, id)) > 0,
        requests_left(first_step(MergeStatus::StillOpen, true, id)) > 0,
{
}

/// Nothing is sent for a text that the check of the voice refuses.
pub proof fn law_a_refused_text_makes_no_request(
    pr_state: MergeStatus,
    id: Option<u64>,
    event: PublishEvent,
    body: Seq<char>,
)
    ensures
        requests_left(first_step(pr_state, false, id)) == 0,
        requests_left(step_after(first_step(pr_state, false, id), event, body)) == 0,
{
}

} // verus!
