//! What a published review shows and what its publication leaves on record, in
//! the words and fields that a reader sees.

use vstd::prelude::*;

use super::finalize;
use super::finalize::{ClaimView, DueView, FinalizeOutcome, StartView};
use super::sticky_comment;
use super::sticky_comment::{
    InputView, MarkerComment, MergeStatus, PublishEvent, PublishStep, RenderInput, StickyOutcome,
};
use super::{
    FindingView, PublicationState, RepositoryView, ResultView, ReviewState, ReviewView, Severity,
    StateView, TargetView, Verdict,
};
use crate::error::Fault;
use crate::link;
use crate::state::review::history::{ReviewHistoryRow, RowView};
use crate::state::review::state;
use crate::state::review::state::{ReviewStates, ReviewStore, ReviewStoreView};
use crate::state::review::state_key;
use crate::text;
use crate::time::Timestamp;

verus! {

// ---------------------------------------------------------------------------
// The comment
// ---------------------------------------------------------------------------

proof fn lemma_prefix_of_sum(a: Seq<char>, b: Seq<char>)
    ensures
        a.is_prefix_of(a + b),
{
    assert(a =~= (a + b).subrange(0, a.len() as int));
}

/// The text begins with the marker, the banner, the heading, and the line that
/// names the commit.
pub open spec fn opens_with(
    all: Seq<char>,
    banner: Seq<char>,
    heading: Seq<char>,
    sha: Seq<char>,
) -> bool {
    ("<!-- caduceus-auto-review -->"@ + "\n\n"@ + banner + heading + "\n"@ + "Reviewed SHA: "@ + sha
        + "\n"@).is_prefix_of(all)
}

/// The banner is absent in the first generation, and from the second on it names
/// the generation and the commit, of which it may show no more than the beginning.
pub open spec fn announces(i: InputView, banner: Seq<char>) -> bool {
    &&& i.review_generation <= 1 ==> banner.len() == 0
    &&& i.review_generation > 1 ==> exists|commit: Seq<char>|
        {
            &&& banner == #[trigger] ("> [!IMPORTANT] Updated for commit `"@ + commit
                + "` (review generation "@ + text::dec(i.review_generation as nat) + ")\n\n"@)
            &&& commit.is_prefix_of(i.reviewed_head_sha)
            &&& text::utf8_len(i.reviewed_head_sha) <= 12 ==> commit == i.reviewed_head_sha
        }
}

/// The comment begins with the marker, an update banner from the second
/// generation on, the line that states the verdict, and the line that names the
/// commit, directly one after the other.
pub proof fn law_the_heading_states_the_verdict(i: InputView)
    ensures
        i.review.verdict == Verdict::Pass ==> exists|banner: Seq<char>|
            announces(i, banner) && #[trigger] opens_with(
                sticky_comment::rendered(i),
                banner,
                "## Auto review: PASS"@,
                i.reviewed_head_sha,
            ),
        i.review.verdict == Verdict::Fail ==> exists|banner: Seq<char>|
            announces(i, banner) && #[trigger] opens_with(
                sticky_comment::rendered(i),
                banner,
                "## Auto review: FAIL"@,
                i.reviewed_head_sha,
            ),
        "## Auto review: PASS"@ != "## Auto review: FAIL"@,
{
    reveal_strlit("## Auto review: PASS");
    reveal_strlit("## Auto review: FAIL");
    assert("## Auto review: PASS"@[16] == 'P' && "## Auto review: FAIL"@[16] == 'F');
    let banner = sticky_comment::banner(i);
    let word = if i.review.verdict == Verdict::Pass {
        "## Auto review: PASS"@
    } else {
        "## Auto review: FAIL"@
    };
    let lead = "<!-- caduceus-auto-review -->"@ + "\n\n"@ + banner + word + "\n"@
        + "Reviewed SHA: "@ + i.reviewed_head_sha + "\n"@;
    let rest = sticky_comment::stale_notice(i) + sticky_comment::summary_part(i)
        + sticky_comment::fitting(
        sticky_comment::in_severity_order(i.review.findings),
        0,
        sticky_comment::findings_budget(i),
    ) + sticky_comment::notice(i) + sticky_comment::footer();
    lemma_prefix_of_sum(lead, rest);
    assert(lead + rest =~= sticky_comment::rendered(i));
    assert(opens_with(sticky_comment::rendered(i), banner, word, i.reviewed_head_sha));
    if i.review_generation > 1 {
        let commit = sticky_comment::short(i.reviewed_head_sha);
        text::lemma_clip_fits(i.reviewed_head_sha, 12);
        assert(commit.is_prefix_of(i.reviewed_head_sha)) by {
            assert(i.reviewed_head_sha =~= i.reviewed_head_sha.subrange(
                0,
                i.reviewed_head_sha.len() as int,
            ));
            lemma_clip_prefix(i.reviewed_head_sha, 12);
        }
        assert(banner == "> [!IMPORTANT] Updated for commit `"@ + commit
            + "` (review generation "@ + text::dec(i.review_generation as nat) + ")\n\n"@);
    }
    assert(announces(i, banner));
}

proof fn lemma_clip_prefix(s: Seq<char>, max: nat)
    ensures
        text::clip(s, max).is_prefix_of(s),
    decreases s.len(),
{
    if s.len() == 0 || text::utf8_len(s) <= max {
        assert(s =~= s.subrange(0, s.len() as int));
    } else {
        lemma_clip_prefix(s.drop_last(), max);
        let c = text::clip(s.drop_last(), max);
        assert(c =~= s.subrange(0, c.len() as int));
    }
}

proof fn lemma_middle_occurs(all: Seq<char>, a: Seq<char>, b: Seq<char>, c: Seq<char>)
    requires
        all =~= a + b + c,
    ensures
        text::has(all, b),
{
    assert(all.subrange(a.len() as int, a.len() as int + b.len()) =~= b);
    assert(text::occurs_at(all, b, a.len() as int));
}

/// A review of a commit that is no longer the head says so, naming both; a
/// review of the head, or of an unknown head, does not.
#[verifier::rlimit(60)]
pub proof fn law_a_stale_review_says_so(i: InputView, head: Seq<char>)
    ensures
        ({
            let told = InputView { current_head_sha: Some(head), ..i };
            let untold = InputView { current_head_sha: None, ..i };
            &&& head == i.reviewed_head_sha ==> sticky_comment::rendered(told)
                == sticky_comment::rendered(untold)
            &&& head != i.reviewed_head_sha ==> text::has(
                sticky_comment::rendered(told),
                "Reviewed SHA: "@ + i.reviewed_head_sha + "\n"@
                    + "> Stale revision: this review covers "@ + i.reviewed_head_sha
                    + " but the pull request head is now "@ + head + ".\n"@,
            )
        }),
{
    let told = InputView { current_head_sha: Some(head), ..i };
    let untold = InputView { current_head_sha: None, ..i };
    if head == i.reviewed_head_sha {
        assert(sticky_comment::header(told) =~= sticky_comment::header(untold));
    } else {
        let a = "<!-- caduceus-auto-review -->"@ + "\n\n"@ + sticky_comment::banner(told)
            + sticky_comment::heading(told.review.verdict) + "\n"@;
        let b = "Reviewed SHA: "@ + i.reviewed_head_sha + "\n"@
            + "> Stale revision: this review covers "@ + i.reviewed_head_sha
            + " but the pull request head is now "@ + head + ".\n"@;
        let c = sticky_comment::summary_part(told) + sticky_comment::fitting(
            sticky_comment::in_severity_order(told.review.findings),
            0,
            sticky_comment::findings_budget(told),
        ) + sticky_comment::notice(told) + sticky_comment::footer();
        let all = sticky_comment::rendered(told);
        assert(sticky_comment::header(told) =~= a + b);
        lemma_middle_occurs(all, a, b, c);
    }
}

/// A finding is shown with its title and body, the place where it has one, with
/// the line where it has one, and the remedy where it has one.
pub proof fn law_a_finding_is_shown_whole(f: FindingView)
    ensures
        f.path is None && f.remediation is None ==> sticky_comment::block(f) == "### "@ + f.title
            + "\n\n"@ + f.body + "\n\n"@,
        f.path is Some && f.line is None && f.remediation is None ==> sticky_comment::block(f)
            == "### "@ + f.title + "\n\n"@ + f.body + "\n\n"@ + ("`"@ + f.path->0 + "`\n\n"@),
        f.path is Some && f.line is Some && f.remediation is None ==> sticky_comment::block(f)
            == "### "@ + f.title + "\n\n"@ + f.body + "\n\n"@ + ("`"@ + f.path->0 + ":"@ + text::dec(
            f.line->0 as nat,
        ) + "`\n\n"@),
        f.remediation is Some ==> ("**Remediation:** "@ + f.remediation->0
            + "\n\n"@).is_suffix_of(sticky_comment::block(f)),
        f.remediation is Some ==> sticky_comment::block(f) == sticky_comment::block(
            FindingView { remediation: None, ..f },
        ) + ("**Remediation:** "@ + f.remediation->0 + "\n\n"@),
{
    let bare = FindingView { remediation: None, ..f };
    let e = Seq::<char>::empty();
    assert(sticky_comment::block(bare) =~= "### "@ + f.title + "\n\n"@ + f.body + "\n\n"@
        + sticky_comment::location(f));
    if f.remediation is None {
        assert(sticky_comment::block(f) =~= sticky_comment::block(bare));
        if f.path is None {
            assert(sticky_comment::block(f) =~= "### "@ + f.title + "\n\n"@ + f.body + "\n\n"@);
        }
    } else {
        let r = "**Remediation:** "@ + f.remediation->0 + "\n\n"@;
        let b = sticky_comment::block(bare);
        assert(sticky_comment::block(f) =~= b + r);
        assert(r =~= (b + r).subrange(b.len() as int, (b + r).len() as int));
    }
}

/// Blocking findings come before warnings, and warnings before suggestions.
pub proof fn law_severe_findings_come_first(findings: Seq<FindingView>, a: int, b: int)
    requires
        0 <= a < b < sticky_comment::in_severity_order(findings).len(),
    ensures
        ({
            let o = sticky_comment::in_severity_order(findings);
            &&& o[b].severity == Severity::Blocking ==> o[a].severity == Severity::Blocking
            &&& o[b].severity == Severity::Warning ==> o[a].severity == Severity::Blocking
                || o[a].severity == Severity::Warning
        }),
{
    sticky_comment::law_findings_are_rendered_by_severity(findings, a, b);
}

/// The comment ends with the notice where something was left out, and then what
/// was left out would not have fit into 65536 bytes; otherwise it holds the
/// summary and every finding. Either way it ends with the marker.
pub proof fn law_only_what_does_not_fit_is_left_out(i: InputView)
    ensures
        ({
            let whole = sticky_comment::header(i) + i.review.summary + "\n\n"@
                + sticky_comment::all_blocks(
                sticky_comment::in_severity_order(i.review.findings),
                0,
            );
            let end = "\n"@ + "<!-- caduceus-auto-review -->"@ + "\n"@;
            let sorry = "_Additional findings truncated to fit the comment size limit._\n"@;
            ||| sticky_comment::rendered(i) == whole + end
            ||| {
                &&& (sorry + end).is_suffix_of(sticky_comment::rendered(i))
                &&& text::utf8_len(whole) + text::utf8_len(sorry) + text::utf8_len(
                    "<!-- caduceus-auto-review -->"@,
                ) + 2 > 65536
            }
        }),
{
    let findings = sticky_comment::in_severity_order(i.review.findings);
    let room = sticky_comment::findings_budget(i);
    let blocks = sticky_comment::all_blocks(findings, 0);
    let h = sticky_comment::header(i);
    let end = "\n"@ + "<!-- caduceus-auto-review -->"@ + "\n"@;
    let sorry = "_Additional findings truncated to fit the comment size limit._\n"@;
    let whole = h + i.review.summary + "\n\n"@ + blocks;
    let all = sticky_comment::rendered(i);
    reveal_strlit("_Additional findings truncated to fit the comment size limit._\n");
    reveal_strlit("\n\n");
    vstd::utf8::is_ascii_chars_encode_utf8("\n\n"@);
    if sticky_comment::notice(i).len() == 0 {
        sticky_comment::law_nothing_is_dropped_without_notice(i);
        assert(all =~= whole + end);
    } else {
        let before = h + sticky_comment::summary_part(i) + sticky_comment::fitting(
            findings,
            0,
            room,
        );
        assert(all =~= before + (sorry + end));
        assert(sorry + end =~= all.subrange(before.len() as int, all.len() as int));
        text::lemma_utf8_len_add(h, i.review.summary);
        text::lemma_utf8_len_add(h + i.review.summary, "\n\n"@);
        text::lemma_utf8_len_add(h + i.review.summary + "\n\n"@, blocks);
        if !sticky_comment::summary_clipped(i) {
            lemma_overflow_is_real(findings, 0, room);
        }
    }
}

proof fn lemma_overflow_is_real(findings: Seq<FindingView>, i: int, room: nat)
    requires
        sticky_comment::overflows(findings, i, room),
    ensures
        text::utf8_len(sticky_comment::all_blocks(findings, i)) > room,
    decreases findings.len() - i,
{
    let b = sticky_comment::block(findings[i]);
    text::lemma_utf8_len_add(b, sticky_comment::all_blocks(findings, i + 1));
    if text::utf8_len(b) <= room {
        lemma_overflow_is_real(findings, i + 1, (room - text::utf8_len(b)) as nat);
    }
}

/// Findings are shown whole or not at all, from the first on.
pub proof fn law_findings_are_cut_at_the_end(findings: Seq<FindingView>, i: int, room: nat)
    requires
        0 <= i <= findings.len(),
    ensures
        text::utf8_len(sticky_comment::fitting(findings, i, room)) <= room,
        sticky_comment::fitting(findings, i, room).is_prefix_of(
            sticky_comment::all_blocks(findings, i),
        ),
    decreases findings.len() - i,
{
    assert(text::utf8_len(Seq::<char>::empty()) == 0);
    let all = sticky_comment::all_blocks(findings, i);
    if i < findings.len() && text::utf8_len(sticky_comment::block(findings[i])) <= room {
        let b = sticky_comment::block(findings[i]);
        let left = (room - text::utf8_len(b)) as nat;
        law_findings_are_cut_at_the_end(findings, i + 1, left);
        let f = sticky_comment::fitting(findings, i + 1, left);
        let rest = sticky_comment::all_blocks(findings, i + 1);
        text::lemma_utf8_len_add(b, f);
        assert(f =~= rest.subrange(0, f.len() as int));
        assert(b + f =~= (b + rest).subrange(0, (b + f).len() as int));
    } else {
        assert(Seq::<char>::empty() =~= all.subrange(0, 0));
    }
}

/// The comment that is adopted is the first one whose body holds the marker.
pub proof fn law_the_first_marked_comment_is_adopted(comments: Seq<MarkerComment>, i: int)
    requires
        0 <= i <= comments.len(),
    ensures
        match sticky_comment::first_marked(comments, i) {
            Some(id) => exists|j: int|
                i <= j < comments.len() && (#[trigger] comments[j]).id == id && (
                comments[j].body matches Some(b) && text::has(
                    b@,
                    "<!-- caduceus-auto-review -->"@,
                )) && forall|n: int|
                    i <= n < j ==> !((#[trigger] comments[n]).body matches Some(b) && text::has(
                        b@,
                        "<!-- caduceus-auto-review -->"@,
                    )),
            None => forall|n: int|
                i <= n < comments.len() ==> !((#[trigger] comments[n]).body matches Some(b)
                    && text::has(b@, "<!-- caduceus-auto-review -->"@)),
        },
    decreases comments.len() - i,
{
    if i < comments.len() {
        if sticky_comment::marked(comments[i]) {
            assert(comments[i].id == sticky_comment::first_marked(comments, i)->0);
        } else {
            law_the_first_marked_comment_is_adopted(comments, i + 1);
        }
    }
}

/// The comments of a pull request are asked for a hundred at a time, and the
/// search gives up after twenty pages.
pub proof fn law_comments_are_asked_for_by_the_hundred(owner: Seq<char>, repo: Seq<char>, pr: u64)
    ensures
        sticky_comment::comments_path(owner, repo, pr) == "/repos/"@ + owner + "/"@ + repo
            + "/issues/"@ + text::dec(pr as nat) + "/comments?per_page="@ + text::dec(100),
        sticky_comment::STICKY_MARKER_SEARCH_MAX_PAGES == 20,
        sticky_comment::STICKY_COMMENT_MAX_BYTES == 65536,
{
}

// ---------------------------------------------------------------------------
// The requests
// ---------------------------------------------------------------------------

/// A live pull request whose comment is known begins with a look at that
/// comment, and otherwise with a search.
pub proof fn law_publishing_begins_with_what_is_known(merged: bool, id: u64)
    ensures
        ({
            let alive = if merged {
                MergeStatus::Merged
            } else {
                MergeStatus::StillOpen
            };
            &&& sticky_comment::first_step(alive, true, Some(id)) == (PublishStep::FetchBody { id })
            &&& sticky_comment::first_step(alive, true, None) == PublishStep::SearchMarker
        }),
        sticky_comment::first_step(MergeStatus::NotFound, true, Some(id)) == PublishStep::Finished(
            StickyOutcome::PrNotFound,
        ),
        sticky_comment::first_step(MergeStatus::ClosedWithoutMerge, true, Some(id))
            == PublishStep::Finished(StickyOutcome::PrClosedUnmerged),
{
}

/// What the answer to each request leads to: an equal comment is left, another
/// is updated, a missing one is searched for once, and what is found in its
/// place is updated under its own id.
pub proof fn law_publishing_follows_the_answers(
    id: u64,
    other: u64,
    existing: String,
    body: Seq<char>,
)
    ensures
        sticky_comment::step_after(
            PublishStep::SearchMarker,
            PublishEvent::Marker(Some(id)),
            body,
        ) == (PublishStep::FetchBody { id }),
        sticky_comment::step_after(PublishStep::SearchMarker, PublishEvent::Marker(None), body)
            == PublishStep::Create,
        existing@ == body ==> sticky_comment::step_after(
            PublishStep::FetchBody { id },
            PublishEvent::Body(existing),
            body,
        ) == PublishStep::Finished(StickyOutcome::Unchanged { comment_id: id }),
        existing@ != body ==> sticky_comment::step_after(
            PublishStep::FetchBody { id },
            PublishEvent::Body(existing),
            body,
        ) == (PublishStep::Update { id }),
        sticky_comment::step_after(PublishStep::FetchBody { id }, PublishEvent::Gone, body) == (
        PublishStep::SearchAgain { failed: id }),
        sticky_comment::step_after(PublishStep::Update { id }, PublishEvent::Gone, body) == (
        PublishStep::SearchAgain { failed: id }),
        sticky_comment::step_after(PublishStep::Update { id }, PublishEvent::Updated, body)
            == PublishStep::Finished(StickyOutcome::Published { comment_id: id }),
        id != other ==> sticky_comment::step_after(
            PublishStep::SearchAgain { failed: id },
            PublishEvent::Marker(Some(other)),
            body,
        ) == (PublishStep::Adopt { id: other }),
        sticky_comment::step_after(
            PublishStep::SearchAgain { failed: id },
            PublishEvent::Marker(Some(id)),
            body,
        ) == PublishStep::Recreate,
        sticky_comment::step_after(
            PublishStep::SearchAgain { failed: id },
            PublishEvent::Marker(None),
            body,
        ) == PublishStep::Recreate,
        sticky_comment::step_after(PublishStep::Adopt { id }, PublishEvent::Updated, body)
            == PublishStep::Finished(StickyOutcome::CommentGoneRecreated { new_comment_id: id }),
        sticky_comment::step_after(PublishStep::Adopt { id }, PublishEvent::Gone, body)
            == PublishStep::Recreate,
        sticky_comment::step_after(PublishStep::Create, PublishEvent::Created(id), body)
            == PublishStep::Finished(StickyOutcome::Published { comment_id: id }),
        sticky_comment::step_after(PublishStep::Recreate, PublishEvent::Created(id), body)
            == PublishStep::Finished(StickyOutcome::CommentGoneRecreated { new_comment_id: id }),
        sticky_comment::step_after(PublishStep::SearchMarker, PublishEvent::Failed, body)
            == PublishStep::Failed,
        sticky_comment::step_after(PublishStep::Update { id }, PublishEvent::Failed, body)
            == PublishStep::Failed,
        sticky_comment::step_after(PublishStep::Create, PublishEvent::Failed, body)
            == PublishStep::Failed,
{
}

// ---------------------------------------------------------------------------
// The record of a publication
// ---------------------------------------------------------------------------

/// A publication that is reported as done is on record with exactly the verdict
/// that was given, the commit, run and comment, and with nothing left to retry;
/// the rest of the state is what was claimed.
pub proof fn law_a_publication_is_on_record(
    m: ReviewStates,
    claimed: StateView,
    verdict: Verdict,
    row: RowView,
    id: u64,
    how: StickyOutcome,
    now: Timestamp,
)
    requires
        how == (StickyOutcome::Published { comment_id: id }) || how == (StickyOutcome::Unchanged {
            comment_id: id,
        }) || how == (StickyOutcome::CommentGoneRecreated { new_comment_id: id }),
        finalize::finished(m, claimed, verdict, row, Ok(how), now).0
            != FinalizeOutcome::SuppressedStaleGeneration,
    ensures
        ({
            let after = finalize::finished(m, claimed, verdict, row, Ok(how), now);
            let k = state_key(claimed.repository, claimed.pull_request);
            &&& after.0 == match how {
                StickyOutcome::Published { .. } => FinalizeOutcome::Published,
                StickyOutcome::Unchanged { .. } => FinalizeOutcome::PublishedUnchanged,
                _ => FinalizeOutcome::PublishedRecreated,
            }
            &&& after.1.contains_key(k)
            &&& after.1[k].last_verdict == Some(verdict)
            &&& after.1[k].last_reviewed_head_sha == Some(row.head_sha)
            &&& after.1[k].last_run_id == Some(row.review_run_id)
            &&& after.1[k].last_reviewed_at == Some(now)
            &&& after.1[k].sticky_comment_id == Some(id)
            &&& after.1[k].publication_state == PublicationState::Published
            &&& after.1[k].next_publish_at is None
            &&& after.1[k].last_publish_error is None
            &&& after.1[k].review_generation == claimed.review_generation
            &&& after.1[k].publication_attempt_count == claimed.publication_attempt_count
            &&& after.1[k].repository == claimed.repository
            &&& after.1[k].pull_request == claimed.pull_request
        }),
{
}

/// The record of a state that is within its caps is refused only where the store
/// holds a newer generation.
pub proof fn law_a_current_record_is_kept(m: ReviewStates, s: StateView)
    requires
        super::state_fault(s) is None,
    ensures
        ({
            let k = state_key(s.repository, s.pull_request);
            let newer = m.contains_key(k) && m[k].review_generation > s.review_generation;
            &&& state::saved(m, s) is Err <==> newer
            &&& !newer ==> state::saved(m, s)->Ok_0 == m.insert(k, s)
        }),
{
}

/// A pull request that is gone, or closed without a merge, ends its publication:
/// the reason is on record, and neither verdict nor comment changes.
pub proof fn law_an_ended_pull_request_is_on_record(
    m: ReviewStates,
    claimed: StateView,
    verdict: Verdict,
    row: RowView,
    gone: bool,
    now: Timestamp,
)
    requires
        ({
            let k = state_key(claimed.repository, claimed.pull_request);
            m.contains_key(k) ==> m[k].review_generation <= claimed.review_generation
        }),
        super::state_fault(claimed) is None,
        0 < row.head_sha.len() && text::utf8_len(row.head_sha) <= 64,
        0 < row.review_run_id.len() && text::utf8_len(row.review_run_id) <= 64,
    ensures
        ({
            let how = if gone {
                StickyOutcome::PrNotFound
            } else {
                StickyOutcome::PrClosedUnmerged
            };
            let after = finalize::finished(m, claimed, verdict, row, Ok(how), now);
            let k = state_key(claimed.repository, claimed.pull_request);
            &&& gone ==> after.0 == FinalizeOutcome::PrGone
            &&& !gone ==> after.0 == FinalizeOutcome::SkippedClosedUnmerged
            &&& after.1.contains_key(k)
            &&& gone ==> after.1[k].last_publish_error == Some("pr_not_found"@)
            &&& !gone ==> after.1[k].last_publish_error == Some("closed_unmerged"@)
            &&& after.1[k].publication_state == PublicationState::Published
            &&& after.1[k].next_publish_at is None
            &&& after.1[k].last_reviewed_head_sha == Some(row.head_sha)
            &&& after.1[k].last_run_id == Some(row.review_run_id)
            &&& after.1[k].last_reviewed_at == Some(now)
            &&& after.1[k].last_verdict == claimed.last_verdict
            &&& after.1[k].sticky_comment_id == claimed.sticky_comment_id
            &&& after.1[k].review_generation == claimed.review_generation
        }),
{
    reveal_strlit("pr_not_found");
    reveal_strlit("closed_unmerged");
    vstd::utf8::is_ascii_chars_encode_utf8("pr_not_found"@);
    vstd::utf8::is_ascii_chars_encode_utf8("closed_unmerged"@);
}

/// A publication that fails is tried again after a delay: the outcome and the
/// record give the same time, the error is on record from its beginning, and what
/// was reviewed before stays on record.
pub proof fn law_a_failed_publication_is_on_record(
    m: ReviewStates,
    claimed: StateView,
    verdict: Verdict,
    row: RowView,
    error: Seq<char>,
    now: Timestamp,
)
    requires
        finalize::finished(m, claimed, verdict, row, Err(error), now).0
            != FinalizeOutcome::SkipConcurrent,
    ensures
        ({
            let after = finalize::finished(m, claimed, verdict, row, Err(error), now);
            let k = state_key(claimed.repository, claimed.pull_request);
            let at = now.plus(finalize::backoff(claimed.publication_attempt_count as nat));
            &&& after.0 == (FinalizeOutcome::FailedRetryable { next_attempt_at: at })
            &&& after.1.contains_key(k)
            &&& after.1[k].publication_state == PublicationState::FailedRetryable
            &&& after.1[k].next_publish_at == Some(at)
            &&& after.1[k].last_publish_error is Some
            &&& after.1[k].last_publish_error->0.is_prefix_of(error)
            &&& text::utf8_len(after.1[k].last_publish_error->0) <= 4096
            &&& text::utf8_len(error) <= 4096 ==> after.1[k].last_publish_error == Some(error)
            &&& after.1[k].last_verdict == claimed.last_verdict
            &&& after.1[k].last_reviewed_head_sha == claimed.last_reviewed_head_sha
            &&& after.1[k].last_run_id == claimed.last_run_id
            &&& after.1[k].sticky_comment_id == claimed.sticky_comment_id
            &&& after.1[k].review_generation == claimed.review_generation
            &&& after.1[k].publication_attempt_count == claimed.publication_attempt_count
        }),
{
    lemma_clip_prefix(error, 4096);
    text::lemma_clip_fits(error, 4096);
}

/// The delay starts at thirty seconds and doubles with every attempt, up to an
/// hour.
pub proof fn law_the_backoff_doubles(n: nat)
    ensures
        finalize::backoff(0) == 30,
        finalize::backoff(n + 1) == if 2 * finalize::backoff(n) <= 3600 {
            2 * finalize::backoff(n)
        } else {
            3600
        },
{
    vstd::arithmetic::power2::lemma2_to64();
    if n <= 12 {
        if n == 0 {
            assert(finalize::backoff(1) == 60);
        } else if n == 1 {
            assert(finalize::backoff(2) == 120);
        } else if n == 2 {
            assert(finalize::backoff(3) == 240);
        } else if n == 3 {
            assert(finalize::backoff(4) == 480);
        } else if n == 4 {
            assert(finalize::backoff(5) == 960);
        } else if n == 5 {
            assert(finalize::backoff(6) == 1920);
        } else {
            finalize::law_backoff_grows_to_an_hour(n + 1, n + 1);
            finalize::law_backoff_grows_to_an_hour(6, n);
        }
    } else {
        finalize::law_backoff_grows_to_an_hour(n, n + 1);
        finalize::law_backoff_grows_to_an_hour(n + 1, n + 1);
    }
}

/// To claim a publication is to count an attempt and to mark the state as
/// publishing, with nothing else changed; a result without a review ends at once
/// with its reason on record.
pub proof fn law_a_claim_counts_an_attempt(
    m: ReviewStates,
    s: StateView,
    row: RowView,
    result: ResultView,
    now: Timestamp,
)
    ensures
        ({
            let after = finalize::claimed(m, s, row, result, now);
            let k = state_key(s.repository, s.pull_request);
            match after.0 {
                ClaimView::Publish { state, review } => {
                    &&& result.review == Some(review)
                    &&& after.1.contains_key(k) && after.1[k] == state
                    &&& state.publication_state == PublicationState::Publishing
                    &&& s.publication_attempt_count < u32::MAX ==> state.publication_attempt_count
                        == s.publication_attempt_count + 1
                    &&& state.next_publish_at is None
                    &&& state.repository == s.repository
                    &&& state.pull_request == s.pull_request
                    &&& state.review_generation == s.review_generation
                    &&& state.last_verdict == s.last_verdict
                    &&& state.last_reviewed_head_sha == s.last_reviewed_head_sha
                    &&& state.last_run_id == s.last_run_id
                    &&& state.sticky_comment_id == s.sticky_comment_id
                    &&& state.last_publish_error == s.last_publish_error
                },
                ClaimView::Finished(o) => {
                    &&& result.review is None ==> o == FinalizeOutcome::NoState
                    &&& result.review is Some ==> o == FinalizeOutcome::SkipConcurrent && after.1
                        == m
                    &&& result.review is None && after.1 != m ==> after.1.contains_key(k)
                        && after.1[k].last_publish_error == Some("no_publishable_result"@)
                        && after.1[k].publication_state == PublicationState::Published
                        && after.1[k].last_reviewed_head_sha == Some(row.head_sha)
                        && after.1[k].last_verdict == s.last_verdict
                },
            }
        }),
        result.review is Some && super::state_fault(s) is None && ({
            let k = state_key(s.repository, s.pull_request);
            m.contains_key(k) ==> m[k].review_generation <= s.review_generation
        }) ==> finalize::claimed(m, s, row, result, now).0 is Publish,
{
}

/// Which finalization goes on to publish: one of the current generation, not
/// final yet, whose retry is due, and whose result is in the history. Each of the
/// others ends as what it is.
pub proof fn law_a_finalization_begins_when_due(s: ReviewStoreView, due: DueView, now: Timestamp)
    ensures
        ({
            let k = state_key(due.repository, due.pull_request);
            let r = finalize::started(s, due, now);
            let known = s.states.contains_key(k);
            let st = s.states[k];
            &&& !known ==> r == StartView::Finished(FinalizeOutcome::NoState)
            &&& known && due.run_generation > st.review_generation ==> r == StartView::Finished(
                FinalizeOutcome::NoState,
            )
            &&& known && due.run_generation < st.review_generation ==> r == StartView::Finished(
                FinalizeOutcome::SuppressedStaleGeneration,
            )
            &&& known && due.run_generation == st.review_generation && st.publication_state
                == PublicationState::Published ==> r == StartView::Finished(
                FinalizeOutcome::AlreadyFinal,
            )
            &&& known && due.run_generation == st.review_generation && st.publication_state
                == PublicationState::FailedRetryable && st.next_publish_at is Some && (now.secs
                < st.next_publish_at->0.secs || (now.secs == st.next_publish_at->0.secs && now.nanos
                < st.next_publish_at->0.nanos)) ==> r == StartView::Finished(
                FinalizeOutcome::SkipRetryNotDue,
            )
            &&& r matches StartView::Decode { state, row } ==> state == st && known
            &&& known && due.run_generation == st.review_generation && (st.publication_state
                == PublicationState::Pending || st.publication_state == PublicationState::Publishing
                || (st.publication_state == PublicationState::FailedRetryable && (
            st.next_publish_at is None || now.secs > st.next_publish_at->0.secs)))
                && finalize::rows_for(s, due).len() > 0 ==> r is Decode
        }),
{
}

proof fn lemma_filter_last(s: Seq<RowView>, p: spec_fn(RowView) -> bool)
    ensures
        s.filter(p).len() == 0 ==> forall|j: int| 0 <= j < s.len() ==> !p(#[trigger] s[j]),
        s.filter(p).len() > 0 ==> exists|i: int|
            0 <= i < s.len() && #[trigger] s[i] == s.filter(p).last() && p(s[i]) && forall|j: int|
                i < j < s.len() ==> !p(#[trigger] s[j]),
    decreases s.len(),
{
    reveal(Seq::filter);
    if s.len() > 0 {
        let rest = s.drop_last();
        lemma_filter_last(rest, p);
        if p(s.last()) {
            let i = s.len() - 1;
            assert(s[i] == s.filter(p).last());
        } else {
            assert forall|j: int| 0 <= j < rest.len() implies rest[j] == s[j] by {}
            if s.filter(p).len() > 0 {
                let i = choose|i: int|
                    0 <= i < rest.len() && #[trigger] rest[i] == rest.filter(p).last() && p(rest[i])
                        && forall|j: int| i < j < rest.len() ==> !p(#[trigger] rest[j]);
                assert(s[i] == s.filter(p).last());
                assert forall|j: int| i < j < s.len() implies !p(#[trigger] s[j]) by {
                    if j < rest.len() {
                        assert(rest[j] == s[j]);
                    }
                }
            } else {
                assert forall|j: int| 0 <= j < s.len() implies !p(#[trigger] s[j]) by {
                    if j < rest.len() {
                        assert(rest[j] == s[j]);
                    }
                }
            }
        }
    }
}

/// The result that is published is the latest in the history for that pull
/// request and commit, the names of the repository taken up to case.
pub proof fn law_the_latest_result_is_published(s: ReviewStoreView, due: DueView, now: Timestamp)
    ensures
        finalize::started(s, due, now) matches StartView::Decode { state, row } ==> exists|i: int|
            {
                &&& 0 <= i < s.history.len()
                &&& #[trigger] s.history[i] == row
                &&& is_result_of(row, due)
                &&& forall|j: int| i < j < s.history.len() ==> !is_result_of(s.history[j], due)
            },
        (forall|j: int| 0 <= j < s.history.len() ==> !is_result_of(s.history[j], due))
            ==> finalize::started(s, due, now) is Finished,
{
    let p = |x: RowView| state::of_pull_request(x, due.repository, due.pull_request);
    let q = |x: RowView| x.head_sha == due.head_sha;
    let both = |x: RowView| p(x) && q(x);
    lemma_filters_join(s.history, p, q, both);
    lemma_filter_last(s.history, both);
    assert(finalize::rows_for(s, due) == s.history.filter(both));
    assert forall|j: int| 0 <= j < s.history.len() implies is_result_of(s.history[j], due) == both(
        #[trigger] s.history[j],
    ) by {}
    if s.history.filter(both).len() > 0 && (forall|j: int|
        0 <= j < s.history.len() ==> !is_result_of(s.history[j], due)) {
        let i = choose|i: int| 0 <= i < s.history.len() && both(#[trigger] s.history[i]);
        assert(is_result_of(s.history[i], due));
    }
}

/// The row holds a result for the pull request and commit that are due.
pub open spec fn is_result_of(row: RowView, due: DueView) -> bool {
    &&& text::lowercase(row.repository.owner) == text::lowercase(due.repository.owner)
    &&& text::lowercase(row.repository.repo) == text::lowercase(due.repository.repo)
    &&& row.pull_request == due.pull_request
    &&& row.head_sha == due.head_sha
}

proof fn lemma_filters_join(
    s: Seq<RowView>,
    p: spec_fn(RowView) -> bool,
    q: spec_fn(RowView) -> bool,
    both: spec_fn(RowView) -> bool,
)
    requires
        forall|x: RowView| #[trigger] both(x) == (p(x) && q(x)),
    ensures
        s.filter(p).filter(q) == s.filter(both),
    decreases s.len(),
{
    reveal(Seq::filter);
    if s.len() > 0 {
        lemma_filters_join(s.drop_last(), p, q, both);
        let f = s.drop_last().filter(p);
        if p(s.last()) {
            assert(f.push(s.last()).drop_last() =~= f);
        }
    }
}

/// The event that each outcome is announced with.
pub proof fn law_outcomes_are_announced(at: Timestamp)
    ensures
        FinalizeOutcome::Published.event() == Some("review_published"@),
        FinalizeOutcome::PublishedUnchanged.event() == Some("review_published"@),
        FinalizeOutcome::PublishedRecreated.event() == Some("review_published"@),
        (FinalizeOutcome::FailedRetryable { next_attempt_at: at }).event() == Some(
            "review_publish_failed_retryable"@,
        ),
        FinalizeOutcome::SuppressedStaleGeneration.event() == Some(
            "review_publication_suppressed_stale_generation"@,
        ),
        FinalizeOutcome::SkippedClosedUnmerged.event() == Some(
            "review_skipped_pr_closed_unmerged"@,
        ),
        FinalizeOutcome::NoState.event() is None,
        FinalizeOutcome::AlreadyFinal.event() is None,
        FinalizeOutcome::SkipRetryNotDue.event() is None,
        FinalizeOutcome::SkipConcurrent.event() is None,
        FinalizeOutcome::PrGone.event() is None,
{
}

/// A commit counts as reviewed from the moment its publication, or the end of its
/// pull request, is on record, whatever the queue holds.
pub proof fn law_a_published_commit_counts_as_seen(
    s: ReviewStoreView,
    claimed: StateView,
    verdict: Verdict,
    row: RowView,
    id: u64,
    now: Timestamp,
    t: TargetView,
)
    requires
        finalize::finished(
            s.states,
            claimed,
            verdict,
            row,
            Ok(StickyOutcome::Published { comment_id: id }),
            now,
        ).0 == FinalizeOutcome::Published,
        t.repository == claimed.repository,
        t.pull_request == claimed.pull_request,
        t.head_sha == row.head_sha,
    ensures
        state::already_seen(
            ReviewStoreView {
                states: finalize::finished(
                    s.states,
                    claimed,
                    verdict,
                    row,
                    Ok(StickyOutcome::Published { comment_id: id }),
                    now,
                ).1,
                ..s
            },
            t,
        ),
{
}

// ---------------------------------------------------------------------------
// The caps
// ---------------------------------------------------------------------------

/// A finding within the caps.
pub open spec fn finding_fits(f: FindingView) -> bool {
    &&& 0 < f.title.len() && text::utf8_len(f.title) <= 256
    &&& 0 < f.body.len() && text::utf8_len(f.body) <= 16384
    &&& f.path matches Some(p) ==> 0 < p.len() && text::utf8_len(p) <= 4096
    &&& f.remediation matches Some(r) ==> 0 < r.len() && text::utf8_len(r) <= 8192
}

proof fn lemma_findings_fit(findings: Seq<FindingView>, i: int)
    requires
        0 <= i <= findings.len(),
    ensures
        super::findings_fault(findings, i) is None <==> forall|j: int|
            i <= j < findings.len() ==> finding_fits(#[trigger] findings[j]),
    decreases findings.len() - i,
{
    if i < findings.len() {
        lemma_findings_fit(findings, i + 1);
        assert(super::finding_fault(findings[i], i) is None <==> finding_fits(findings[i]));
    }
}

/// A result is accepted exactly when it has no review, or one whose summary has
/// something in it and at most 65536 bytes, with at most a hundred findings, each
/// with a title of at most 256 bytes, a body of at most 16384, and, where it has
/// them, a path of at most 4096 and a remedy of at most 8192, none of them empty.
pub proof fn law_a_result_keeps_its_caps(r: ResultView)
    ensures
        super::result_fault(r) is None <==> (r.review matches Some(v) ==> {
            &&& 0 < v.summary.len() && text::utf8_len(v.summary) <= 65536
            &&& v.findings.len() <= 100
            &&& forall|j: int| 0 <= j < v.findings.len() ==> finding_fits(#[trigger] v.findings[j])
        }),
{
    match r.review {
        Some(v) => {
            lemma_findings_fit(v.findings, 0);
        },
        None => {},
    }
}

/// A text that is there, with at most so many bytes.
pub open spec fn within(s: Seq<char>, max: nat) -> bool {
    0 < s.len() && text::utf8_len(s) <= max
}

/// A target is accepted exactly when its names have at most 256 bytes, its
/// commits at most 64 and its branch at most 1024, none of them empty.
pub proof fn law_a_target_keeps_its_caps(t: TargetView)
    ensures
        super::target_fault(t) is None <==> {
            &&& within(t.repository.owner, 256)
            &&& within(t.repository.repo, 256)
            &&& within(t.head_sha, 64)
            &&& within(t.base_sha, 64)
            &&& within(t.base_ref, 1024)
            &&& within(t.merge_base, 64)
        },
{
}

/// A state is accepted exactly when its names have at most 256 bytes, and the
/// commit, the run and the error, where they are there, at most 64, 64 and 4096,
/// none of them empty.
pub proof fn law_a_state_keeps_its_caps(s: StateView)
    ensures
        super::state_fault(s) is None <==> {
            &&& within(s.repository.owner, 256)
            &&& within(s.repository.repo, 256)
            &&& s.last_reviewed_head_sha matches Some(h) ==> within(h, 64)
            &&& s.last_run_id matches Some(r) ==> within(r, 64)
            &&& s.last_publish_error matches Some(e) ==> within(e, 4096)
        },
{
}

/// A state that was never reviewed.
pub proof fn law_a_fresh_state_is_blank(repository: RepositoryView, pr: u64, generation: u64)
    ensures
        ({
            let s = StateView::fresh(repository, pr, generation);
            &&& s.repository == repository
            &&& s.pull_request == pr
            &&& s.review_generation == generation
            &&& s.publication_state == PublicationState::Pending
            &&& s.publication_attempt_count == 0
            &&& s.last_verdict is None
            &&& s.last_reviewed_head_sha is None
            &&& s.sticky_comment_id is None
            &&& s.next_publish_at is None
            &&& s.last_publish_error is None
        }),
{
}

/// A result document is accepted exactly when it decodes, is of the first version
/// and keeps its caps; then it is taken as it is.
pub proof fn law_a_sound_result_is_accepted(decoded: Result<super::ReviewResult, String>)
    ensures
        super::accepted(decoded) is Ok <==> (decoded matches Ok(r) && r.schema_version == 1
            && super::result_fault(r@) is None),
        super::accepted(decoded) is Ok ==> super::accepted(decoded)->Ok_0 == decoded->Ok_0@,
        decoded matches Err(e) ==> super::accepted(decoded) == Err::<super::ResultView, Fault>(
            Fault::Config("review result: malformed document: "@ + e@),
        ),
        decoded matches Ok(r) ==> (r.schema_version != 1 ==> super::accepted(decoded) == Err::<
            super::ResultView,
            Fault,
        >(Fault::ReviewSchemaVersion { found: r.schema_version, supported: 1 })),
{
}

/// A text is refused when it is empty or longer than its cap, in these words; the
/// first of two complaints is told.
pub proof fn law_texts_are_neither_empty_nor_too_long(
    scope: Seq<char>,
    field: Seq<char>,
    value: Seq<char>,
    max: usize,
    a: Option<Fault>,
    b: Option<Fault>,
)
    ensures
        super::string_fault(scope, field, value, max) is None <==> 0 < value.len()
            && text::utf8_len(value) <= max,
        value.len() == 0 ==> super::string_fault(scope, field, value, max) == Some(
            Fault::Config(scope + ": "@ + field + " must not be empty"@),
        ),
        value.len() > 0 && text::utf8_len(value) > max ==> super::string_fault(
            scope,
            field,
            value,
            max,
        ) == Some(
            Fault::Config(
                scope + ": "@ + field + " exceeds limit of "@ + text::dec(max as nat)
                    + " bytes (got "@ + text::dec(text::utf8_len(value)) + ")"@,
            ),
        ),
        super::opt_fault(scope, field, None, max) is None,
        super::opt_fault(scope, field, Some(value), max) == super::string_fault(
            scope,
            field,
            value,
            max,
        ),
        a is Some ==> super::or_fault(a, b) == a,
        a is None ==> super::or_fault(a, b) == b,
        a is None ==> super::unless(a) is Ok,
        a matches Some(f) ==> super::unless(a) == Err::<(), Fault>(f),
{
}

/// The next page of comments is the one that the header names. Where it has no page
/// number, the number and the size of a page are added to its query.
pub proof fn law_the_next_page_has_a_number(header: Seq<char>, url: Seq<char>, number: u32)
    ensures
        sticky_comment::next_page(None, number) is None,
        link::next_url(header) is None ==> sticky_comment::next_page(Some(header), number) is None,
        link::next_url(header) == Some(url) && text::has(url, "page="@)
            ==> sticky_comment::next_page(Some(header), number) == link::url_of(url),
        link::next_url(header) == Some(url) && !text::has(url, "page="@) && link::query_split(
            url,
        ).1.len() == 0 ==> sticky_comment::next_page(Some(header), number) == link::url_of(
            link::query_split(url).0 + "?"@ + ("page="@ + text::dec(number as nat) + "&per_page="@
                + text::dec(100)),
        ),
        link::next_url(header) == Some(url) && !text::has(url, "page="@) && link::query_split(
            url,
        ).1.len() > 0 ==> sticky_comment::next_page(Some(header), number) == link::url_of(
            link::query_split(url).0 + "?"@ + link::query_split(url).1 + "&"@ + ("page="@
                + text::dec(number as nat) + "&per_page="@ + text::dec(100)),
        ),
{
}

/// The comment that is rendered opens with the verdict of its review, and a review
/// of a commit that is no longer the head is not passed off as one of the head.
pub proof fn law_a_rendered_comment_opens_with_its_verdict(
    input: &RenderInput<'_>,
    r: String,
)
    requires
        call_ensures(sticky_comment::render_sticky_comment, (input,), r),
    ensures
        input.review.verdict == Verdict::Pass ==> exists|banner: Seq<char>|
            announces(input@, banner) && #[trigger] opens_with(
                r@,
                banner,
                "## Auto review: PASS"@,
                input.reviewed_head_sha@,
            ),
        input.review.verdict == Verdict::Fail ==> exists|banner: Seq<char>|
            announces(input@, banner) && #[trigger] opens_with(
                r@,
                banner,
                "## Auto review: FAIL"@,
                input.reviewed_head_sha@,
            ),
{
    law_the_heading_states_the_verdict(input@);
}

/// A publication that ended well leaves the verdict, the commit, the run, the time
/// and the comment on record, and touches neither queue nor history.
pub proof fn law_a_finished_publication_is_on_record(
    store: &mut ReviewStore,
    claimed: ReviewState,
    verdict: Verdict,
    row: &ReviewHistoryRow,
    id: u64,
    sticky: Result<StickyOutcome, String>,
    now: Timestamp,
    r: FinalizeOutcome,
)
    requires
        call_ensures(
            finalize::finish_publication,
            (store, claimed, verdict, row, sticky, now),
            r,
        ),
        sticky == Ok::<StickyOutcome, String>(StickyOutcome::Published { comment_id: id })
            || sticky == Ok::<StickyOutcome, String>(StickyOutcome::Unchanged { comment_id: id })
            || sticky == Ok::<StickyOutcome, String>(
            StickyOutcome::CommentGoneRecreated { new_comment_id: id },
        ),
        r != FinalizeOutcome::SuppressedStaleGeneration,
    ensures
        ({
            let k = state_key(claimed@.repository, claimed@.pull_request);
            let s = final(store)@.states[k];
            &&& final(store)@.states.contains_key(k)
            &&& s.last_verdict == Some(verdict)
            &&& s.last_reviewed_head_sha == Some(row@.head_sha)
            &&& s.last_run_id == Some(row@.review_run_id)
            &&& s.last_reviewed_at == Some(now)
            &&& s.sticky_comment_id == Some(id)
            &&& s.publication_state == PublicationState::Published
            &&& s.last_publish_error is None
            &&& final(store)@.queue == old(store)@.queue
            &&& final(store)@.history == old(store)@.history
        }),
        sticky->Ok_0 is Published ==> r == FinalizeOutcome::Published,
        sticky->Ok_0 is Unchanged ==> r == FinalizeOutcome::PublishedUnchanged,
        sticky->Ok_0 is CommentGoneRecreated ==> r == FinalizeOutcome::PublishedRecreated,
{
    law_a_publication_is_on_record(
        old(store)@.states,
        claimed@,
        verdict,
        row@,
        id,
        sticky->Ok_0,
        now,
    );
}

/// What is decided to be published is what was decoded, and the claim is on record.
pub proof fn law_a_claimed_publication_is_of_its_result(
    store: &mut ReviewStore,
    before: ReviewState,
    row: &ReviewHistoryRow,
    decoded: Result<super::ReviewResult, String>,
    now: Timestamp,
    r: Result<finalize::ClaimStep, crate::error::CaduceusError>,
)
    requires
        call_ensures(finalize::claim_decoded, (store, before, row, decoded, now), r),
    ensures
        decoded is Err ==> r is Err && final(store)@ == old(store)@,
        r matches Ok(step) ==> (step@ matches ClaimView::Publish { state, review }
            ==> decoded->Ok_0@.review == Some(review) && state.publication_state
            == PublicationState::Publishing && state.repository == before@.repository
            && state.pull_request == before@.pull_request && final(store)@.states[state_key(
            state.repository,
            state.pull_request,
        )] == state),
        decoded matches Ok(d) ==> (r is Ok && d@.review is None ==> r->Ok_0@
            == ClaimView::Finished(FinalizeOutcome::NoState)),
{
}

/// A summary that fits is shown whole with a blank line behind it; of one that does
/// not fit, the beginning is shown.
pub proof fn law_a_summary_is_shown_as_far_as_it_fits(i: InputView)
    ensures
        ({
            let room = 65536 - (text::utf8_len(sticky_comment::header(i)) + text::utf8_len(
                "_Additional findings truncated to fit the comment size limit._\n"@,
            ) + text::utf8_len("<!-- caduceus-auto-review -->"@) + 2);
            let part = sticky_comment::summary_part(i);
            &&& text::utf8_len(i.review.summary) + 2 <= room ==> part == i.review.summary
                + "\n\n"@
            &&& text::utf8_len(i.review.summary) + 2 > room && room >= 2 ==> part == text::clip(
                i.review.summary,
                (room - 2) as nat,
            ) + "\n\n"@
            &&& room < 0 ==> text::utf8_len(part) == 0
        }),
{
    let s = i.review.summary;
    if sticky_comment::budget(i) == 0 {
        text::lemma_clip_fits(s, 0);
        assert(sticky_comment::separator(0) =~= Seq::<char>::empty());
        if sticky_comment::summary_clipped(i) {
            assert(sticky_comment::summary_part(i) =~= text::clip(s, 0));
        }
    }
}

/// The search for the marked comment asks for each page once, and fails only at the
/// limit of pages.
pub proof fn law_a_page_is_asked_for_once(
    m: &mut sticky_comment::MarkerSearch,
    r: Result<Option<String>, crate::error::CaduceusError>,
)
    requires
        call_ensures(sticky_comment::MarkerSearch::next_request, (m,), r),
    ensures
        old(m).url is None ==> r == Ok::<Option<String>, crate::error::CaduceusError>(None),
        r matches Ok(Some(u)) ==> old(m).url == Some(u) && final(m).url is None && final(m).page
            == old(m).page + 1,
        r is Err ==> old(m).url is Some && old(m).page
            >= 20,
{
}

} // verus!
