//! The second look at an issue, just before work on it starts.

use vstd::prelude::*;

use crate::config::Config;
use crate::error::{CaduceusError, Fault};
use crate::issue::{IssueKey, IssueView};
use crate::state::queue::TicketType;
use crate::text;

verus! {

/// May the work start?
#[derive(Clone, Copy, Debug, PartialEq, Eq, Structural)]
pub enum VerifyOutcome {
    Proceed,
    Skip { reason: SkipReason },
}

/// Why it may not.
#[derive(Clone, Copy, Debug, PartialEq, Eq, Structural)]
pub enum SkipReason {
    Closed,
    PullRequest,
    /// The trigger label is gone, or no longer tells one kind from the other.
    LabelRemoved,
    /// The issue has moved to another repository.
    Transferred,
    NotFound,
    Malformed,
}

impl SkipReason {
    /// The reason in a word.
    pub open spec fn label(self) -> Seq<char> {
        match self {
            SkipReason::Closed => "closed"@,
            SkipReason::PullRequest => "pull_request"@,
            SkipReason::LabelRemoved => "label_removed"@,
            SkipReason::Transferred => "transferred"@,
            SkipReason::NotFound => "not_found"@,
            SkipReason::Malformed => "malformed"@,
        }
    }

    /// The reason in a word.
    pub fn as_str(&self) -> (r: &'static str)
        ensures
            r@ == self.label(),
    {
        match self {
            SkipReason::Closed => "closed",
            SkipReason::PullRequest => "pull_request",
            SkipReason::LabelRemoved => "label_removed",
            SkipReason::Transferred => "transferred",
            SkipReason::NotFound => "not_found",
            SkipReason::Malformed => "malformed",
        }
    }
}

/// An issue as far as the second look reads it.
#[derive(Debug)]
pub struct IssueObject {
    pub state: Option<String>,
    /// The names of its labels; a label may have none.
    pub labels: Option<Vec<Option<String>>>,
    pub is_pull_request: bool,
}

/// A response: its status, the URL it came from in the end, its body as text,
/// and as an issue or the decoder's message.
pub struct IssueResponse {
    pub status: u16,
    pub final_url: String,
    pub body: String,
    pub issue: Result<IssueObject, String>,
}

/// The path of an issue.
pub fn issue_path(key: &IssueKey) -> (r: String)
    ensures
        r@ == "/repos/"@ + key@.owner + "/"@ + key@.repo + "/issues/"@ + text::dec(
            key@.number as nat,
        ),
{
    let mut s = text::cat("/repos/", key.owner.as_str());
    s.append("/");
    s.append(key.repo.as_str());
    s.append("/issues/");
    s.append(text::decimal(key.number).as_str());
    s
}

/// The name of a label; empty where it has none.
pub open spec fn label_name(l: Option<String>) -> Seq<char> {
    match l {
        Some(s) => s@,
        None => Seq::empty(),
    }
}

/// One of the labels is `name`, but for the case of its letters.
pub open spec fn labelled(issue: IssueObject, name: Seq<char>) -> bool {
    issue.labels matches Some(v) && exists|i: int|
        0 <= i < v@.len() && text::ascii_lower(label_name(#[trigger] v@[i])) == text::ascii_lower(
            name,
        )
}

/// The state of the issue; open where it says none.
pub open spec fn state_of(issue: IssueObject) -> Seq<char> {
    match issue.state {
        Some(s) => s@,
        None => "open"@,
    }
}

/// What an issue, of a response from the right place, means for the work.
pub open spec fn issue_outcome(
    issue: IssueObject,
    expected: Seq<char>,
    code: Seq<char>,
    investigation: Seq<char>,
) -> VerifyOutcome {
    if issue.is_pull_request {
        VerifyOutcome::Skip { reason: SkipReason::PullRequest }
    } else if text::ascii_lower(state_of(issue)) == text::ascii_lower("closed"@) {
        VerifyOutcome::Skip { reason: SkipReason::Closed }
    } else if labelled(issue, code) && labelled(issue, investigation) {
        VerifyOutcome::Skip { reason: SkipReason::LabelRemoved }
    } else if !labelled(issue, expected) {
        VerifyOutcome::Skip { reason: SkipReason::LabelRemoved }
    } else {
        VerifyOutcome::Proceed
    }
}

/// The URL still names the repository of the issue.
pub open spec fn in_place(url: Seq<char>, key: IssueView) -> bool {
    text::has(url, "/"@ + key.owner + "/"@ + key.repo + "/"@)
}

/// What a response means for the work, or the error that it is.
pub open spec fn response_outcome(
    response: IssueResponse,
    key: IssueView,
    expected: Seq<char>,
    code: Seq<char>,
    investigation: Seq<char>,
) -> Result<VerifyOutcome, Fault> {
    if response.status == 404 {
        Ok(VerifyOutcome::Skip { reason: SkipReason::NotFound })
    } else if response.status != 200 && response.status != 201 {
        Err(Fault::GitHubApi { status: response.status, message: response.body@ })
    } else if !in_place(response.final_url@, key) {
        Ok(VerifyOutcome::Skip { reason: SkipReason::Transferred })
    } else {
        match response.issue {
            Err(e) => Err(
                Fault::Other(
                    "verify_trigger: JSON parse for "@ + key.owner + "/"@ + key.repo + "#"@
                        + text::dec(key.number as nat) + ": "@ + e@,
                ),
            ),
            Ok(issue) => Ok(issue_outcome(issue, expected, code, investigation)),
        }
    }
}

fn label_text(l: &Option<String>) -> (r: &str)
    ensures
        r@ == label_name(*l),
{
    match l {
        Some(s) => s.as_str(),
        None => {
            proof {
                reveal_strlit("");
                assert(""@ =~= Seq::<char>::empty());
            }
            ""
        },
    }
}

fn has_label(issue: &IssueObject, name: &str) -> (r: bool)
    ensures
        r == labelled(*issue, name@),
{
    match &issue.labels {
        None => false,
        Some(v) => {
            let mut i: usize = 0;
            while i < v.len()
                invariant
                    issue.labels == Some(*v),
                    i <= v.len(),
                    forall|j: int|
                        0 <= j < i ==> text::ascii_lower(label_name(#[trigger] v@[j]))
                            != text::ascii_lower(name@),
                decreases v.len() - i,
            {
                let hit = text::same_ignoring_case(label_text(&v[i]), name);
                proof {
                    assert(hit == (text::ascii_lower(label_name(v@[i as int]))
                        == text::ascii_lower(name@)));
                }
                if hit {
                    proof {
                        assert(issue.labels->0@[i as int] == v@[i as int]);
                    }
                    return true;
                }
                i += 1;
            }
            false
        },
    }
}

/// What a response means for the work: it proceeds where the issue is open, in
/// its place, and carries the expected label and not both of them.
pub fn verify_response(
    response: &IssueResponse,
    key: &IssueKey,
    expected_label: &str,
    code_label: &str,
    investigation_label: &str,
) -> (r: Result<VerifyOutcome, CaduceusError>)
    ensures
        match r {
            Ok(o) => response_outcome(
                *response,
                key@,
                expected_label@,
                code_label@,
                investigation_label@,
            ) == Ok::<VerifyOutcome, Fault>(o),
            Err(e) => response_outcome(
                *response,
                key@,
                expected_label@,
                code_label@,
                investigation_label@,
            ) == Err::<VerifyOutcome, Fault>(e@),
        },
{
    if response.status == 404 {
        return Ok(VerifyOutcome::Skip { reason: SkipReason::NotFound });
    }
    if response.status != 200 && response.status != 201 {
        return Err(
            CaduceusError::GitHubApi { status: response.status, message: response.body.clone() },
        );
    }
    let mut place = text::cat("/", key.owner.as_str());
    place.append("/");
    place.append(key.repo.as_str());
    place.append("/");
    if !text::contains_text(response.final_url.as_str(), place.as_str()) {
        return Ok(VerifyOutcome::Skip { reason: SkipReason::Transferred });
    }
    let issue = match &response.issue {
        Err(e) => {
            let mut m = text::cat("verify_trigger: JSON parse for ", key.owner.as_str());
            m.append("/");
            m.append(key.repo.as_str());
            m.append("#");
            m.append(text::decimal(key.number).as_str());
            m.append(": ");
            m.append(e.as_str());
            return Err(CaduceusError::Other(m));
        },
        Ok(i) => i,
    };
    if issue.is_pull_request {
        return Ok(VerifyOutcome::Skip { reason: SkipReason::PullRequest });
    }
    let closed = match &issue.state {
        Some(s) => text::same_ignoring_case(s.as_str(), "closed"),
        None => text::same_ignoring_case("open", "closed"),
    };
    if closed {
        return Ok(VerifyOutcome::Skip { reason: SkipReason::Closed });
    }
    if has_label(issue, code_label) && has_label(issue, investigation_label) {
        return Ok(VerifyOutcome::Skip { reason: SkipReason::LabelRemoved });
    }
    if !has_label(issue, expected_label) {
        return Ok(VerifyOutcome::Skip { reason: SkipReason::LabelRemoved });
    }
    Ok(VerifyOutcome::Proceed)
}

/// The label that tickets of the kind carry.
pub open spec fn expected_label(cfg: Config, ticket_type: TicketType) -> Seq<char> {
    match ticket_type {
        TicketType::Code => cfg.ticket_label_code@,
        TicketType::Investigation => cfg.ticket_label_investigation@,
    }
}

/// The answer to a request: a response, or the error of the request.
pub enum IssueAnswer {
    Response(IssueResponse),
    Failed(CaduceusError),
}

/// What the answer to a request for the issue means for the work. An issue
/// that is not found is skipped; any other failure is passed on.
pub fn verify_trigger(answer: IssueAnswer, key: &IssueKey, ticket_type: TicketType, config: &Config) -> (r:
    Result<VerifyOutcome, CaduceusError>)
    ensures
        match answer {
            IssueAnswer::Failed(e) => if e@ matches Fault::GitHubApi { status, message } && status
                == 404 {
                r == Ok::<VerifyOutcome, CaduceusError>(
                    VerifyOutcome::Skip { reason: SkipReason::NotFound },
                )
            } else {
                r matches Err(f) && f@ == e@
            },
            IssueAnswer::Response(response) => match r {
                Ok(o) => response_outcome(
                    response,
                    key@,
                    expected_label(*config, ticket_type),
                    config.ticket_label_code@,
                    config.ticket_label_investigation@,
                ) == Ok::<VerifyOutcome, Fault>(o),
                Err(e) => response_outcome(
                    response,
                    key@,
                    expected_label(*config, ticket_type),
                    config.ticket_label_code@,
                    config.ticket_label_investigation@,
                ) == Err::<VerifyOutcome, Fault>(e@),
            },
        },
{
    let label = match ticket_type {
        TicketType::Code => config.ticket_label_code.as_str(),
        TicketType::Investigation => config.ticket_label_investigation.as_str(),
    };
    match answer {
        IssueAnswer::Response(response) => verify_response(
            &response,
            key,
            label,
            config.ticket_label_code.as_str(),
            config.ticket_label_investigation.as_str(),
        ),
        IssueAnswer::Failed(e) => match e {
            CaduceusError::GitHubApi { status, message } => {
                if status == 404 {
                    Ok(VerifyOutcome::Skip { reason: SkipReason::NotFound })
                } else {
                    Err(CaduceusError::GitHubApi { status, message })
                }
            },
            other => Err(other),
        },
    }
}

/// Work proceeds only on an issue in its repository, whose state is not closed
/// in any spelling of its case, that carries the expected label and not both
/// labels.
pub proof fn law_only_a_fitting_issue_proceeds(
    response: IssueResponse,
    key: IssueView,
    expected: Seq<char>,
    code: Seq<char>,
    investigation: Seq<char>,
)
    requires
        response_outcome(response, key, expected, code, investigation) == Ok::<
            VerifyOutcome,
            Fault,
        >(VerifyOutcome::Proceed),
    ensures
        in_place(response.final_url@, key),
        response.issue matches Ok(issue) && !issue.is_pull_request && labelled(issue, expected)
            && !(labelled(issue, code) && labelled(issue, investigation)) && text::ascii_lower(
            state_of(issue),
        ) != text::ascii_lower("closed"@),
{
}

/// One of the labels of the issue has the name, but for the case of ASCII
/// letters.
pub open spec fn carries(issue: IssueObject, name: Seq<char>) -> bool {
    issue.labels is Some && exists|i: int, s: String|
        0 <= i < issue.labels->0@.len() && #[trigger] issue.labels->0@[i] == Some(s)
            && text::ascii_lower(#[trigger] s@) == text::ascii_lower(name)
}

proof fn lemma_carries(issue: IssueObject, name: Seq<char>)
    requires
        name.len() > 0,
    ensures
        carries(issue, name) == labelled(issue, name),
{
    if labelled(issue, name) {
        let v = issue.labels->0;
        let i = choose|i: int|
            0 <= i < v@.len() && text::ascii_lower(label_name(#[trigger] v@[i]))
                == text::ascii_lower(name);
        assert(text::ascii_lower(name).len() == name.len());
        match v@[i] {
            Some(s) => {
                assert(v@[i] == Some(s) && text::ascii_lower(s@) == text::ascii_lower(name));
            },
            None => {
                assert(text::ascii_lower(Seq::<char>::empty()).len() == 0);
            },
        }
    }
    if carries(issue, name) {
        let (i, s) = choose|i: int, s: String|
            0 <= i < issue.labels->0@.len() && #[trigger] issue.labels->0@[i] == Some(s)
                && text::ascii_lower(#[trigger] s@) == text::ascii_lower(name);
        assert(label_name(issue.labels->0@[i]) == s@);
    }
}

/// The state of the issue is on record, and is closed but for the case of its
/// letters.
pub open spec fn says_closed(issue: IssueObject) -> bool {
    issue.state matches Some(s) && text::ascii_lower(s@) == "closed"@
}

proof fn lemma_says_closed(issue: IssueObject)
    ensures
        says_closed(issue) == (text::ascii_lower(state_of(issue)) == text::ascii_lower("closed"@)),
{
    reveal_strlit("closed");
    reveal_strlit("open");
    assert(text::ascii_lower("closed"@) =~= "closed"@);
    assert(text::ascii_lower("open"@).len() == 4);
}

/// Work proceeds on every answer of the right place with an issue that is no pull
/// request, is not closed, and carries the expected label and not both kinds of
/// label; and on no other. The state of an issue may be absent, or anything but
/// closed.
pub proof fn law_every_fitting_issue_proceeds(
    response: IssueResponse,
    key: IssueView,
    expected: Seq<char>,
    code: Seq<char>,
    investigation: Seq<char>,
)
    requires
        expected.len() > 0,
        code.len() > 0,
        investigation.len() > 0,
    ensures
        response_outcome(response, key, expected, code, investigation) == Ok::<
            VerifyOutcome,
            Fault,
        >(VerifyOutcome::Proceed) <==> {
            &&& response.status == 200 || response.status == 201
            &&& text::has(response.final_url@, "/"@ + key.owner + "/"@ + key.repo + "/"@)
            &&& response.issue is Ok
            &&& !response.issue->Ok_0.is_pull_request
            &&& !says_closed(response.issue->Ok_0)
            &&& carries(response.issue->Ok_0, expected)
            &&& !(carries(response.issue->Ok_0, code) && carries(
                response.issue->Ok_0,
                investigation,
            ))
        },
{
    if response.issue is Ok {
        let issue = response.issue->Ok_0;
        lemma_says_closed(issue);
        lemma_carries(issue, expected);
        lemma_carries(issue, code);
        lemma_carries(issue, investigation);
    }
}

/// Why work is skipped: the first of these that holds. The issue is missing, has
/// moved, is a pull request, is closed, or its labels do not call for the work.
pub proof fn law_a_skip_gives_its_reason(
    response: IssueResponse,
    key: IssueView,
    expected: Seq<char>,
    code: Seq<char>,
    investigation: Seq<char>,
    reason: SkipReason,
)
    requires
        expected.len() > 0,
        code.len() > 0,
        investigation.len() > 0,
    ensures
        ({
            let found = response.status == 200 || response.status == 201;
            let here = text::has(
                response.final_url@,
                "/"@ + key.owner + "/"@ + key.repo + "/"@,
            );
            let issue = response.issue->Ok_0;
            let read = found && here && response.issue is Ok;
            response_outcome(response, key, expected, code, investigation) == Ok::<
                VerifyOutcome,
                Fault,
            >(VerifyOutcome::Skip { reason }) <==> match reason {
                SkipReason::NotFound => response.status == 404,
                SkipReason::Transferred => found && !here,
                SkipReason::PullRequest => read && issue.is_pull_request,
                SkipReason::Closed => read && !issue.is_pull_request && says_closed(issue),
                SkipReason::LabelRemoved => read && !issue.is_pull_request && !says_closed(issue)
                    && (!carries(issue, expected) || (carries(issue, code) && carries(
                    issue,
                    investigation,
                ))),
                SkipReason::Malformed => false,
            }
        }),
{
    if response.issue is Ok {
        let issue = response.issue->Ok_0;
        lemma_says_closed(issue);
        lemma_carries(issue, expected);
        lemma_carries(issue, code);
        lemma_carries(issue, investigation);
    }
}

/// Any other status than found and not found is an error with the status and the
/// body of the answer.
pub proof fn law_an_odd_status_is_an_error(
    response: IssueResponse,
    key: IssueView,
    expected: Seq<char>,
    code: Seq<char>,
    investigation: Seq<char>,
)
    requires
        response.status != 200 && response.status != 201 && response.status != 404,
    ensures
        response_outcome(response, key, expected, code, investigation) == Err::<
            VerifyOutcome,
            Fault,
        >(Fault::GitHubApi { status: response.status, message: response.body@ }),
{
}

/// Code tickets are told by the code label, and investigations by theirs.
pub proof fn law_each_kind_has_its_label(cfg: Config)
    ensures
        expected_label(cfg, TicketType::Code) == cfg.ticket_label_code@,
        expected_label(cfg, TicketType::Investigation) == cfg.ticket_label_investigation@,
{
}

/// The reasons by their words.
pub proof fn law_reasons_have_their_words()
    ensures
        SkipReason::Closed.label() == "closed"@,
        SkipReason::PullRequest.label() == "pull_request"@,
        SkipReason::LabelRemoved.label() == "label_removed"@,
        SkipReason::Transferred.label() == "transferred"@,
        SkipReason::NotFound.label() == "not_found"@,
        SkipReason::Malformed.label() == "malformed"@,
{
}

/// A response that does not parse is an error that names the issue.
pub proof fn law_a_response_that_does_not_parse_is_an_error(
    response: IssueResponse,
    key: IssueView,
    expected: Seq<char>,
    code: Seq<char>,
    investigation: Seq<char>,
)
    requires
        response.status == 200 || response.status == 201,
        in_place(response.final_url@, key),
        response.issue is Err,
    ensures
        response_outcome(response, key, expected, code, investigation) == Err::<
            VerifyOutcome,
            Fault,
        >(
            Fault::Other(
                "verify_trigger: JSON parse for "@ + key.owner + "/"@ + key.repo + "#"@ + text::dec(
                    key.number as nat,
                ) + ": "@ + response.issue->Err_0@,
            ),
        ),
{
}

/// A response lets the work proceed exactly when the issue is there, where it was,
/// is an open issue and carries the label that is asked for, and not the labels of
/// both kinds.
pub proof fn law_a_response_is_verified(
    response: &IssueResponse,
    key: &IssueKey,
    expected: &str,
    code: &str,
    investigation: &str,
    r: Result<VerifyOutcome, CaduceusError>,
)
    requires
        call_ensures(verify_response, (response, key, expected, code, investigation), r),
        expected@.len() > 0,
        code@.len() > 0,
        investigation@.len() > 0,
    ensures
        r is Ok && r->Ok_0 == VerifyOutcome::Proceed <==> {
            &&& response.status == 200 || response.status == 201
            &&& text::has(response.final_url@, "/"@ + key@.owner + "/"@ + key@.repo + "/"@)
            &&& response.issue is Ok
            &&& !response.issue->Ok_0.is_pull_request
            &&& !says_closed(response.issue->Ok_0)
            &&& carries(response.issue->Ok_0, expected@)
            &&& !(carries(response.issue->Ok_0, code@) && carries(
                response.issue->Ok_0,
                investigation@,
            ))
        },
        response.status == 404 ==> r is Ok && r->Ok_0 == (VerifyOutcome::Skip {
            reason: SkipReason::NotFound,
        }),
{
    law_every_fitting_issue_proceeds(*response, key@, expected@, code@, investigation@);
}

/// A ticket is verified against the label of its own kind; an issue that the request
/// did not find is skipped.
pub proof fn law_a_ticket_is_verified_by_its_own_label(
    answer: IssueAnswer,
    key: &IssueKey,
    ticket_type: TicketType,
    config: &Config,
    r: Result<VerifyOutcome, CaduceusError>,
)
    requires
        call_ensures(verify_trigger, (answer, key, ticket_type, config), r),
        config.ticket_label_code@.len() > 0,
        config.ticket_label_investigation@.len() > 0,
    ensures
        answer matches IssueAnswer::Response(response) ==> (r is Ok && r->Ok_0
            == VerifyOutcome::Proceed ==> response.issue is Ok && (ticket_type == TicketType::Code
            ==> carries(response.issue->Ok_0, config.ticket_label_code@)) && (ticket_type
            == TicketType::Investigation ==> carries(
            response.issue->Ok_0,
            config.ticket_label_investigation@,
        ))),
        answer matches IssueAnswer::Failed(e) ==> (e@ matches Fault::GitHubApi { status, message }
            ==> (status == 404 ==> r == Ok::<VerifyOutcome, CaduceusError>(
            VerifyOutcome::Skip { reason: SkipReason::NotFound },
        ))),
        answer matches IssueAnswer::Failed(e) ==> (r matches Err(f) ==> f@ == e@),
        expected_label(*config, TicketType::Code) == config.ticket_label_code@,
        expected_label(*config, TicketType::Investigation) == config.ticket_label_investigation@,
{
    if let IssueAnswer::Response(response) = answer {
        law_every_fitting_issue_proceeds(
            response,
            key@,
            expected_label(*config, ticket_type),
            config.ticket_label_code@,
            config.ticket_label_investigation@,
        );
    }
}

} // verus!
