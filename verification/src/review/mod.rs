//! The review domain: what is reviewed, what a review says, and how far its
//! publication has come.

use vstd::prelude::*;

use crate::error::{CaduceusError, Fault};
use crate::text;
use crate::time::Timestamp;

pub mod finalize;
pub mod laws;
pub mod sticky_comment;

verus! {

/// Schema version of a review result document.
pub const REVIEW_SCHEMA_VERSION: u32 = 1;

/// Byte cap of a review's summary.
pub const MAX_REVIEW_SUMMARY_BYTES: usize = 64 * 1024;

/// Cap on the number of findings of a review.
pub const MAX_FINDINGS: usize = 100;

/// Byte cap of a finding's title.
pub const MAX_FINDING_TITLE_BYTES: usize = 256;

/// Byte cap of a finding's body.
pub const MAX_FINDING_BODY_BYTES: usize = 16 * 1024;

/// Byte cap of a finding's remediation.
pub const MAX_FINDING_REMEDIATION_BYTES: usize = 8 * 1024;

/// Byte cap of a finding's path.
pub const MAX_FINDING_PATH_BYTES: usize = 4096;

/// Byte cap of a commit id.
pub const MAX_SHA_BYTES: usize = 64;

/// Byte cap of a ref name.
pub const MAX_REF_BYTES: usize = 1024;

/// Byte cap of an owner or repository name.
pub const MAX_REPO_COMPONENT_BYTES: usize = 256;

/// Byte cap of a run id.
pub const MAX_RUN_ID_BYTES: usize = 64;

/// Byte cap of a recorded publication error.
pub const MAX_PUBLISH_ERROR_BYTES: usize = 4096;

// ---------------------------------------------------------------------------
// Identity
// ---------------------------------------------------------------------------

/// A GitHub repository. Case is kept as given.
#[derive(Debug)]
pub struct RepositoryId {
    pub owner: String,
    pub repo: String,
}

/// A [`RepositoryId`] with its texts as character sequences.
pub struct RepositoryView {
    pub owner: Seq<char>,
    pub repo: Seq<char>,
}

impl View for RepositoryId {
    type V = RepositoryView;

    open spec fn view(&self) -> RepositoryView {
        RepositoryView { owner: self.owner@, repo: self.repo@ }
    }
}

impl Clone for RepositoryId {
    fn clone(&self) -> (r: Self)
        ensures
            r == *self,
    {
        RepositoryId { owner: self.owner.clone(), repo: self.repo.clone() }
    }
}

impl RepositoryId {
    /// `owner/repo`.
    pub fn full_name(&self) -> (r: String)
        ensures
            r@ == self@.owner + "/"@ + self@.repo,
    {
        let mut out = text::cat(self.owner.as_str(), "/");
        out.append(self.repo.as_str());
        out
    }
}

/// One revision of a pull request, frozen when it was discovered. The
/// repository, the number and the head commit identify it; the rest is
/// context.
#[derive(Debug)]
pub struct ReviewTarget {
    pub repository: RepositoryId,
    pub pull_request: u64,
    pub head_sha: String,
    pub base_sha: String,
    pub base_ref: String,
    pub merge_base: String,
}

/// A [`ReviewTarget`] with its texts as character sequences.
pub struct TargetView {
    pub repository: RepositoryView,
    pub pull_request: u64,
    pub head_sha: Seq<char>,
    pub base_sha: Seq<char>,
    pub base_ref: Seq<char>,
    pub merge_base: Seq<char>,
}

impl View for ReviewTarget {
    type V = TargetView;

    open spec fn view(&self) -> TargetView {
        TargetView {
            repository: self.repository@,
            pull_request: self.pull_request,
            head_sha: self.head_sha@,
            base_sha: self.base_sha@,
            base_ref: self.base_ref@,
            merge_base: self.merge_base@,
        }
    }
}

impl Clone for ReviewTarget {
    fn clone(&self) -> (r: Self)
        ensures
            r == *self,
    {
        ReviewTarget {
            repository: self.repository.clone(),
            pull_request: self.pull_request,
            head_sha: self.head_sha.clone(),
            base_sha: self.base_sha.clone(),
            base_ref: self.base_ref.clone(),
            merge_base: self.merge_base.clone(),
        }
    }
}

// ---------------------------------------------------------------------------
// State of one pull request
// ---------------------------------------------------------------------------

/// How far the publication of a review has come.
#[derive(Clone, Copy, Debug, PartialEq, Eq, Structural)]
pub enum PublicationState {
    Pending,
    Publishing,
    Published,
    FailedRetryable,
}

impl PublicationState {
    /// The label under which the store keeps the publication state.
    pub open spec fn label(self) -> Seq<char> {
        match self {
            PublicationState::Pending => "pending"@,
            PublicationState::Publishing => "publishing"@,
            PublicationState::Published => "published"@,
            PublicationState::FailedRetryable => "failed_retryable"@,
        }
    }

    /// The label under which the store keeps the publication state.
    pub fn as_str(&self) -> (r: &'static str)
        ensures
            r@ == self.label(),
    {
        match self {
            PublicationState::Pending => "pending",
            PublicationState::Publishing => "publishing",
            PublicationState::Published => "published",
            PublicationState::FailedRetryable => "failed_retryable",
        }
    }

    /// The value with the label.
    pub fn from_label(label: &str) -> (r: Option<PublicationState>)
        ensures
            match r {
                Some(v) => v.label() == label@,
                None => forall|v: PublicationState| v.label() != label@,
            },
    {
        if text::same(label, "pending") {
            Some(PublicationState::Pending)
        } else if text::same(label, "publishing") {
            Some(PublicationState::Publishing)
        } else if text::same(label, "published") {
            Some(PublicationState::Published)
        } else if text::same(label, "failed_retryable") {
            Some(PublicationState::FailedRetryable)
        } else {
            None
        }
    }
}

/// Different publication states have different labels.
pub proof fn law_publication_labels_differ(a: PublicationState, b: PublicationState)
    ensures
        a.label() == b.label() ==> a == b,
{
    reveal_strlit("pending");
    reveal_strlit("publishing");
    reveal_strlit("published");
    reveal_strlit("failed_retryable");
    assert("pending"@.len() == 7);
    assert("publishing"@.len() == 10);
    assert("published"@.len() == 9);
    assert("failed_retryable"@.len() == 16);
}

/// What is known of one pull request: the current pointer, not the history.
#[derive(Debug)]
pub struct ReviewState {
    pub repository: RepositoryId,
    pub pull_request: u64,
    pub last_reviewed_head_sha: Option<String>,
    pub last_verdict: Option<Verdict>,
    pub last_reviewed_at: Option<Timestamp>,
    pub sticky_comment_id: Option<u64>,
    pub last_run_id: Option<String>,
    /// Grows with every admission; a run of an older generation may not touch
    /// the presentation.
    pub review_generation: u64,
    pub publication_state: PublicationState,
    pub publication_attempt_count: u32,
    pub next_publish_at: Option<Timestamp>,
    pub last_publish_error: Option<String>,
}

/// A [`ReviewState`] with its texts as character sequences.
pub struct StateView {
    pub repository: RepositoryView,
    pub pull_request: u64,
    pub last_reviewed_head_sha: Option<Seq<char>>,
    pub last_verdict: Option<Verdict>,
    pub last_reviewed_at: Option<Timestamp>,
    pub sticky_comment_id: Option<u64>,
    pub last_run_id: Option<Seq<char>>,
    pub review_generation: u64,
    pub publication_state: PublicationState,
    pub publication_attempt_count: u32,
    pub next_publish_at: Option<Timestamp>,
    pub last_publish_error: Option<Seq<char>>,
}

impl View for ReviewState {
    type V = StateView;

    open spec fn view(&self) -> StateView {
        StateView {
            repository: self.repository@,
            pull_request: self.pull_request,
            last_reviewed_head_sha: text::opt(self.last_reviewed_head_sha),
            last_verdict: self.last_verdict,
            last_reviewed_at: self.last_reviewed_at,
            sticky_comment_id: self.sticky_comment_id,
            last_run_id: text::opt(self.last_run_id),
            review_generation: self.review_generation,
            publication_state: self.publication_state,
            publication_attempt_count: self.publication_attempt_count,
            next_publish_at: self.next_publish_at,
            last_publish_error: text::opt(self.last_publish_error),
        }
    }
}

impl Clone for ReviewState {
    fn clone(&self) -> (r: Self)
        ensures
            r == *self,
    {
        ReviewState {
            repository: self.repository.clone(),
            pull_request: self.pull_request,
            last_reviewed_head_sha: self.last_reviewed_head_sha.clone(),
            last_verdict: self.last_verdict,
            last_reviewed_at: self.last_reviewed_at,
            sticky_comment_id: self.sticky_comment_id,
            last_run_id: self.last_run_id.clone(),
            review_generation: self.review_generation,
            publication_state: self.publication_state,
            publication_attempt_count: self.publication_attempt_count,
            next_publish_at: self.next_publish_at,
            last_publish_error: self.last_publish_error.clone(),
        }
    }
}

impl StateView {
    /// A pull request that enters the pipeline.
    pub open spec fn fresh(
        repository: RepositoryView,
        pull_request: u64,
        review_generation: u64,
    ) -> StateView {
        StateView {
            repository,
            pull_request,
            last_reviewed_head_sha: None,
            last_verdict: None,
            last_reviewed_at: None,
            sticky_comment_id: None,
            last_run_id: None,
            review_generation,
            publication_state: PublicationState::Pending,
            publication_attempt_count: 0,
            next_publish_at: None,
            last_publish_error: None,
        }
    }
}

impl ReviewState {
    /// A pull request that enters the pipeline: nothing observed, publication
    /// pending.
    pub fn new(repository: RepositoryId, pull_request: u64, review_generation: u64) -> (r: ReviewState)
        ensures
            r@ == StateView::fresh(repository@, pull_request, review_generation),
    {
        ReviewState {
            repository,
            pull_request,
            last_reviewed_head_sha: None,
            last_verdict: None,
            last_reviewed_at: None,
            sticky_comment_id: None,
            last_run_id: None,
            review_generation,
            publication_state: PublicationState::Pending,
            publication_attempt_count: 0,
            next_publish_at: None,
            last_publish_error: None,
        }
    }
}

// ---------------------------------------------------------------------------
// The result of one run
// ---------------------------------------------------------------------------

/// How much a finding weighs.
#[derive(Clone, Copy, Debug, PartialEq, Eq, Structural)]
pub enum Severity {
    Blocking,
    Warning,
    Suggestion,
}

/// Did the code pass? Drives publication, never retry.
#[derive(Clone, Copy, Debug, PartialEq, Eq, Structural)]
pub enum Verdict {
    Pass,
    Fail,
}

impl Verdict {
    /// The label under which the store keeps the verdict.
    pub open spec fn label(self) -> Seq<char> {
        match self {
            Verdict::Pass => "pass"@,
            Verdict::Fail => "fail"@,
        }
    }

    /// The label under which the store keeps the verdict.
    pub fn as_str(&self) -> (r: &'static str)
        ensures
            r@ == self.label(),
    {
        match self {
            Verdict::Pass => "pass",
            Verdict::Fail => "fail",
        }
    }

    /// The value with the label.
    pub fn from_label(label: &str) -> (r: Option<Verdict>)
        ensures
            match r {
                Some(v) => v.label() == label@,
                None => forall|v: Verdict| v.label() != label@,
            },
    {
        if text::same(label, "pass") {
            Some(Verdict::Pass)
        } else if text::same(label, "fail") {
            Some(Verdict::Fail)
        } else {
            None
        }
    }
}

/// Different verdicts have different labels.
pub proof fn law_verdict_labels_differ(a: Verdict, b: Verdict)
    ensures
        a.label() == b.label() ==> a == b,
{
    reveal_strlit("pass");
    reveal_strlit("fail");
    assert("pass"@[0] == 'p');
    assert("fail"@[0] == 'f');
}

/// Did the review run? Drives retry, never publication.
#[derive(Clone, Copy, Debug, PartialEq, Eq, Structural)]
pub enum ExecutionStatus {
    Success,
    Failure,
}

/// One finding.
#[derive(Debug)]
pub struct Finding {
    pub severity: Severity,
    pub title: String,
    pub body: String,
    pub path: Option<String>,
    pub line: Option<u32>,
    pub remediation: Option<String>,
}

/// A [`Finding`] with its texts as character sequences.
pub struct FindingView {
    pub severity: Severity,
    pub title: Seq<char>,
    pub body: Seq<char>,
    pub path: Option<Seq<char>>,
    pub line: Option<u32>,
    pub remediation: Option<Seq<char>>,
}

impl View for Finding {
    type V = FindingView;

    open spec fn view(&self) -> FindingView {
        FindingView {
            severity: self.severity,
            title: self.title@,
            body: self.body@,
            path: text::opt(self.path),
            line: self.line,
            remediation: text::opt(self.remediation),
        }
    }
}

/// What a successful run found, in the order it was recorded.
#[derive(Debug)]
pub struct Review {
    pub verdict: Verdict,
    pub summary: String,
    pub findings: Vec<Finding>,
}

/// A [`Review`] with its texts as character sequences.
pub struct ReviewView {
    pub verdict: Verdict,
    pub summary: Seq<char>,
    pub findings: Seq<FindingView>,
}

/// Findings by their views.
pub open spec fn finding_views(v: Seq<Finding>) -> Seq<FindingView> {
    v.map_values(|f: Finding| f@)
}

impl View for Review {
    type V = ReviewView;

    open spec fn view(&self) -> ReviewView {
        ReviewView {
            verdict: self.verdict,
            summary: self.summary@,
            findings: finding_views(self.findings@),
        }
    }
}

/// The document that a run leaves.
#[derive(Debug)]
pub struct ReviewResult {
    pub schema_version: u32,
    pub status: ExecutionStatus,
    pub review: Option<Review>,
}

/// A [`ReviewResult`] with its texts as character sequences.
pub struct ResultView {
    pub schema_version: u32,
    pub status: ExecutionStatus,
    pub review: Option<ReviewView>,
}

impl View for ReviewResult {
    type V = ResultView;

    open spec fn view(&self) -> ResultView {
        ResultView {
            schema_version: self.schema_version,
            status: self.status,
            review: match self.review {
                Some(r) => Some(r@),
                None => None,
            },
        }
    }
}

// ---------------------------------------------------------------------------
// Caps
// ---------------------------------------------------------------------------

/// The rule that a required text breaks: it is empty, or longer than `max`
/// bytes.
pub open spec fn string_fault(scope: Seq<char>, field: Seq<char>, value: Seq<char>, max: usize) -> Option<
    Fault,
> {
    if value.len() == 0 {
        Some(Fault::Config(scope + ": "@ + field + " must not be empty"@))
    } else if text::utf8_len(value) > max {
        Some(
            Fault::Config(
                scope + ": "@ + field + " exceeds limit of "@ + text::dec(max as nat)
                    + " bytes (got "@ + text::dec(text::utf8_len(value)) + ")"@,
            ),
        )
    } else {
        None
    }
}

/// The rule that an optional text breaks; absence is fine.
pub open spec fn opt_fault(
    scope: Seq<char>,
    field: Seq<char>,
    value: Option<Seq<char>>,
    max: usize,
) -> Option<Fault> {
    match value {
        Some(v) => string_fault(scope, field, v, max),
        None => None,
    }
}

/// The first of two faults.
pub open spec fn or_fault(a: Option<Fault>, b: Option<Fault>) -> Option<Fault> {
    if a is Some {
        a
    } else {
        b
    }
}

/// No fault is success.
pub open spec fn unless(f: Option<Fault>) -> Result<(), Fault> {
    match f {
        Some(f) => Err(f),
        None => Ok(()),
    }
}

/// Check a required text.
pub fn required_string(scope: &str, field: &str, value: &str, max: usize) -> (r: Result<
    (),
    CaduceusError,
>)
    ensures
        crate::error::verdict(r) == unless(string_fault(scope@, field@, value@, max)),
{
    if value.is_empty() {
        let mut m = text::cat(scope, ": ");
        m.append(field);
        m.append(" must not be empty");
        return Err(CaduceusError::Config(m));
    }
    let n = text::byte_len(value);
    if n > max {
        let mut m = text::cat(scope, ": ");
        m.append(field);
        m.append(" exceeds limit of ");
        m.append(text::decimal(max as u64).as_str());
        m.append(" bytes (got ");
        m.append(text::decimal(n as u64).as_str());
        m.append(")");
        return Err(CaduceusError::Config(m));
    }
    Ok(())
}

/// Check an optional text.
pub fn optional_string(scope: &str, field: &str, value: &Option<String>, max: usize) -> (r: Result<
    (),
    CaduceusError,
>)
    ensures
        crate::error::verdict(r) == unless(opt_fault(scope@, field@, text::opt(*value), max)),
{
    match value {
        Some(v) => required_string(scope, field, v.as_str(), max),
        None => Ok(()),
    }
}

/// The rule that one finding breaks, as the first of its fields to break one.
pub open spec fn finding_fault(f: FindingView, index: int) -> Option<Fault> {
    let scope = "review result: finding["@ + text::dec(index as nat) + "]"@;
    or_fault(
        string_fault(scope, "title"@, f.title, MAX_FINDING_TITLE_BYTES),
        or_fault(
            string_fault(scope, "body"@, f.body, MAX_FINDING_BODY_BYTES),
            or_fault(
                opt_fault(scope, "path"@, f.path, MAX_FINDING_PATH_BYTES),
                opt_fault(scope, "remediation"@, f.remediation, MAX_FINDING_REMEDIATION_BYTES),
            ),
        ),
    )
}

/// The first fault among the findings from position `i` on.
pub open spec fn findings_fault(findings: Seq<FindingView>, i: int) -> Option<Fault>
    decreases findings.len() - i,
{
    if i < 0 || i >= findings.len() {
        None
    } else {
        or_fault(finding_fault(findings[i], i), findings_fault(findings, i + 1))
    }
}

/// The rule that a review result breaks.
pub open spec fn result_fault(r: ResultView) -> Option<Fault> {
    match r.review {
        None => None,
        Some(review) => or_fault(
            string_fault(
                "review result"@,
                "summary"@,
                review.summary,
                MAX_REVIEW_SUMMARY_BYTES,
            ),
            if review.findings.len() > MAX_FINDINGS {
                Some(
                    Fault::Config(
                        "review result: findings exceed limit of "@ + text::dec(
                            MAX_FINDINGS as nat,
                        ) + " entries (got "@ + text::dec(review.findings.len()) + ")"@,
                    ),
                )
            } else {
                findings_fault(review.findings, 0)
            },
        ),
    }
}

fn validate_finding(f: &Finding, index: usize) -> (r: Result<(), CaduceusError>)
    ensures
        crate::error::verdict(r) == unless(finding_fault(f@, index as int)),
{
    let mut scope = text::cat("review result: finding[", text::decimal(index as u64).as_str());
    scope.append("]");
    match required_string(scope.as_str(), "title", f.title.as_str(), MAX_FINDING_TITLE_BYTES) {
        Err(e) => return Err(e),
        Ok(()) => {},
    }
    match required_string(scope.as_str(), "body", f.body.as_str(), MAX_FINDING_BODY_BYTES) {
        Err(e) => return Err(e),
        Ok(()) => {},
    }
    match optional_string(scope.as_str(), "path", &f.path, MAX_FINDING_PATH_BYTES) {
        Err(e) => return Err(e),
        Ok(()) => {},
    }
    optional_string(scope.as_str(), "remediation", &f.remediation, MAX_FINDING_REMEDIATION_BYTES)
}

/// Check the caps of a review result.
pub fn validate_review_result(result: &ReviewResult) -> (r: Result<(), CaduceusError>)
    ensures
        crate::error::verdict(r) == unless(result_fault(result@)),
{
    let review = match &result.review {
        None => return Ok(()),
        Some(review) => review,
    };
    match required_string(
        "review result",
        "summary",
        review.summary.as_str(),
        MAX_REVIEW_SUMMARY_BYTES,
    ) {
        Err(e) => return Err(e),
        Ok(()) => {},
    }
    if review.findings.len() > MAX_FINDINGS {
        let mut m = text::cat(
            "review result: findings exceed limit of ",
            text::decimal(MAX_FINDINGS as u64).as_str(),
        );
        m.append(" entries (got ");
        m.append(text::decimal(review.findings.len() as u64).as_str());
        m.append(")");
        return Err(CaduceusError::Config(m));
    }
    let mut i: usize = 0;
    while i < review.findings.len()
        invariant
            i <= review.findings.len(),
            findings_fault(review@.findings, 0) == findings_fault(review@.findings, i as int),
            result_fault(result@) == findings_fault(review@.findings, 0),
        decreases review.findings.len() - i,
    {
        proof {
            assert(review@.findings[i as int] == review.findings@[i as int]@);
        }
        match validate_finding(&review.findings[i], i) {
            Err(e) => return Err(e),
            Ok(()) => {},
        }
        i += 1;
    }
    Ok(())
}

/// Does this daemon accept documents of schema version `v`?
pub fn review_schema_version_supported(v: u32) -> (r: bool)
    ensures
        r == (v == REVIEW_SCHEMA_VERSION),
{
    v == REVIEW_SCHEMA_VERSION
}

/// What a review result document is worth: the result, or why it is refused.
/// `decoded` is an error, with the decoder's message, when the text is no such
/// document.
pub open spec fn accepted(decoded: Result<ReviewResult, String>) -> Result<ResultView, Fault> {
    match decoded {
        Err(e) => Err(Fault::Config("review result: malformed document: "@ + e@)),
        Ok(r) => if r.schema_version != REVIEW_SCHEMA_VERSION {
            Err(
                Fault::ReviewSchemaVersion {
                    found: r.schema_version,
                    supported: REVIEW_SCHEMA_VERSION,
                },
            )
        } else {
            match result_fault(r@) {
                Some(f) => Err(f),
                None => Ok(r@),
            }
        },
    }
}

/// Accept a review result document: the schema version must be the supported
/// one and every cap must hold.
pub fn parse_review_result(decoded: Result<ReviewResult, String>) -> (r: Result<
    ReviewResult,
    CaduceusError,
>)
    ensures
        crate::error::seen(r) == accepted(decoded),
{
    match decoded {
        Err(e) => Err(
            CaduceusError::Config(
                text::cat("review result: malformed document: ", e.as_str()),
            ),
        ),
        Ok(result) => {
            if !review_schema_version_supported(result.schema_version) {
                return Err(
                    CaduceusError::ReviewSchemaVersion {
                        found: result.schema_version,
                        supported: REVIEW_SCHEMA_VERSION,
                    },
                );
            }
            match validate_review_result(&result) {
                Err(e) => Err(e),
                Ok(()) => Ok(result),
            }
        },
    }
}

/// The rule that a review target breaks.
pub open spec fn target_fault(t: TargetView) -> Option<Fault> {
    let scope = "review target"@;
    or_fault(
        string_fault(scope, "repository.owner"@, t.repository.owner, MAX_REPO_COMPONENT_BYTES),
        or_fault(
            string_fault(scope, "repository.repo"@, t.repository.repo, MAX_REPO_COMPONENT_BYTES),
            or_fault(
                string_fault(scope, "head_sha"@, t.head_sha, MAX_SHA_BYTES),
                or_fault(
                    string_fault(scope, "base_sha"@, t.base_sha, MAX_SHA_BYTES),
                    or_fault(
                        string_fault(scope, "base_ref"@, t.base_ref, MAX_REF_BYTES),
                        string_fault(scope, "merge_base"@, t.merge_base, MAX_SHA_BYTES),
                    ),
                ),
            ),
        ),
    )
}

/// Check the caps of a review target.
pub fn validate_review_target(target: &ReviewTarget) -> (r: Result<(), CaduceusError>)
    ensures
        crate::error::verdict(r) == unless(target_fault(target@)),
{
    let scope = "review target";
    match required_string(
        scope,
        "repository.owner",
        target.repository.owner.as_str(),
        MAX_REPO_COMPONENT_BYTES,
    ) {
        Err(e) => return Err(e),
        Ok(()) => {},
    }
    match required_string(
        scope,
        "repository.repo",
        target.repository.repo.as_str(),
        MAX_REPO_COMPONENT_BYTES,
    ) {
        Err(e) => return Err(e),
        Ok(()) => {},
    }
    match required_string(scope, "head_sha", target.head_sha.as_str(), MAX_SHA_BYTES) {
        Err(e) => return Err(e),
        Ok(()) => {},
    }
    match required_string(scope, "base_sha", target.base_sha.as_str(), MAX_SHA_BYTES) {
        Err(e) => return Err(e),
        Ok(()) => {},
    }
    match required_string(scope, "base_ref", target.base_ref.as_str(), MAX_REF_BYTES) {
        Err(e) => return Err(e),
        Ok(()) => {},
    }
    required_string(scope, "merge_base", target.merge_base.as_str(), MAX_SHA_BYTES)
}

/// The rule that a review state breaks.
pub open spec fn state_fault(s: StateView) -> Option<Fault> {
    let scope = "review state"@;
    or_fault(
        string_fault(scope, "repository.owner"@, s.repository.owner, MAX_REPO_COMPONENT_BYTES),
        or_fault(
            string_fault(scope, "repository.repo"@, s.repository.repo, MAX_REPO_COMPONENT_BYTES),
            or_fault(
                opt_fault(
                    scope,
                    "last_reviewed_head_sha"@,
                    s.last_reviewed_head_sha,
                    MAX_SHA_BYTES,
                ),
                or_fault(
                    opt_fault(scope, "last_run_id"@, s.last_run_id, MAX_RUN_ID_BYTES),
                    opt_fault(
                        scope,
                        "last_publish_error"@,
                        s.last_publish_error,
                        MAX_PUBLISH_ERROR_BYTES,
                    ),
                ),
            ),
        ),
    )
}

/// Check the caps of a review state.
pub fn validate_review_state(state: &ReviewState) -> (r: Result<(), CaduceusError>)
    ensures
        crate::error::verdict(r) == unless(state_fault(state@)),
{
    let scope = "review state";
    match required_string(
        scope,
        "repository.owner",
        state.repository.owner.as_str(),
        MAX_REPO_COMPONENT_BYTES,
    ) {
        Err(e) => return Err(e),
        Ok(()) => {},
    }
    match required_string(
        scope,
        "repository.repo",
        state.repository.repo.as_str(),
        MAX_REPO_COMPONENT_BYTES,
    ) {
        Err(e) => return Err(e),
        Ok(()) => {},
    }
    match optional_string(
        scope,
        "last_reviewed_head_sha",
        &state.last_reviewed_head_sha,
        MAX_SHA_BYTES,
    ) {
        Err(e) => return Err(e),
        Ok(()) => {},
    }
    match optional_string(scope, "last_run_id", &state.last_run_id, MAX_RUN_ID_BYTES) {
        Err(e) => return Err(e),
        Ok(()) => {},
    }
    optional_string(
        scope,
        "last_publish_error",
        &state.last_publish_error,
        MAX_PUBLISH_ERROR_BYTES,
    )
}

/// A fresh state of a repository whose names are within their caps is valid.
pub proof fn law_a_fresh_state_is_valid(repository: RepositoryView, pr: u64, generation: u64)
    requires
        0 < repository.owner.len() && text::utf8_len(repository.owner) <= MAX_REPO_COMPONENT_BYTES,
        0 < repository.repo.len() && text::utf8_len(repository.repo) <= MAX_REPO_COMPONENT_BYTES,
    ensures
        state_fault(StateView::fresh(repository, pr, generation)) is None,
{
}

} // verus!
