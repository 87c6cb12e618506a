//! The read-only contract of a review worker, enforced after it has run.
//!
//! Tracked files are checked with git. The daemon's control files are not
//! tracked, so their digests from before and after the run are compared.

use vstd::prelude::*;

use crate::digest;
use crate::error::{CaduceusError, Fault};
use crate::repo;
use crate::repo::review_worktree::REVIEW_WORKTREE_METADATA_FILENAME;
use crate::repo::GitOutput;
use crate::review;
use crate::review::ReviewTarget;
use crate::state::queue::claim;
use crate::text;
use crate::worker::PROMPT_FILENAME;

verus! {

/// Event of a violation.
pub const MUTATION_VIOLATION_EVENT: &'static str = "review_mutation_violation";

/// Where a violation says that it comes from.
pub const MUTATION_VIOLATION_SOURCE: &'static str = "review/mutation_violation";

/// Most lines of evidence in an error.
pub const MAX_MUTATION_DETAIL_LINES: usize = 20;

/// The digests of the daemon's control files.
#[derive(Debug)]
pub struct ReviewControlFileDigests {
    pub prompt_sha256: String,
    pub worktree_metadata_sha256: String,
}

/// Digests with their texts as character sequences.
pub struct DigestsView {
    pub prompt_sha256: Seq<char>,
    pub worktree_metadata_sha256: Seq<char>,
}

impl View for ReviewControlFileDigests {
    type V = DigestsView;

    open spec fn view(&self) -> DigestsView {
        DigestsView {
            prompt_sha256: self.prompt_sha256@,
            worktree_metadata_sha256: self.worktree_metadata_sha256@,
        }
    }
}

/// The control files as they were read, or the system's messages.
pub struct ControlFiles {
    pub prompt: Result<Vec<u8>, String>,
    pub worktree_metadata: Result<Vec<u8>, String>,
}

/// The evidence of a violation: its first lines, and how many more there are.
pub open spec fn evidence(found: Seq<Seq<char>>) -> Seq<char> {
    if found.len() > MAX_MUTATION_DETAIL_LINES {
        "tracked files modified: "@ + text::joined(
            found.take(MAX_MUTATION_DETAIL_LINES as int),
            "; "@,
        ) + " (and "@ + text::dec((found.len() - MAX_MUTATION_DETAIL_LINES) as nat)
            + " more entries)"@
    } else {
        "tracked files modified: "@ + text::joined(found, "; "@)
    }
}

/// What the check of the tracked files finds: a check that could not run finds
/// no violation, and any line of its output is one.
pub open spec fn dirty_fault(worktree: Seq<char>, out: GitOutput) -> Option<Fault> {
    match repo::run_fault("review-dirty-check"@, out) {
        Some(f) => Some(f),
        None => {
            let body = text::trim(out.stdout@);
            if body.len() == 0 {
                None
            } else {
                Some(
                    Fault::ReviewSourceMutation {
                        worktree_path: worktree,
                        detail: evidence(text::lines(body)),
                    },
                )
            }
        },
    }
}

/// The command that checks the tracked files.
pub fn dirty_check_command(worktree: &str) -> (r: Vec<String>)
    ensures
        text::texts(r@) == seq![
            "-C"@,
            worktree@,
            "status"@,
            "--porcelain"@,
            "--untracked-files=no"@,
        ],
{
    let parts: Vec<&str> = vec![
        "-C",
        worktree,
        "status",
        "--porcelain",
        "--untracked-files=no",
    ];
    proof {
        assert(repo::str_views(parts@) =~= seq![
            "-C"@,
            worktree@,
            "status"@,
            "--porcelain"@,
            "--untracked-files=no"@,
        ]);
    }
    repo::arguments(&parts)
}

fn first_lines(found: &Vec<String>, n: usize) -> (r: Vec<String>)
    requires
        n <= found.len(),
    ensures
        text::texts(r@) == text::texts(found@).take(n as int),
{
    let mut out: Vec<String> = Vec::new();
    let mut i: usize = 0;
    while i < n
        invariant
            i <= n <= found.len(),
            out.len() == i,
            forall|j: int| 0 <= j < i ==> (#[trigger] out@[j])@ == found@[j]@,
        decreases n - i,
    {
        out.push(found[i].clone());
        i += 1;
    }
    proof {
        assert(text::texts(out@) =~= text::texts(found@).take(n as int));
    }
    out
}

/// Check that the run left the tracked files as they were.
pub fn check_tracked_files_clean(worktree: &str, out: &GitOutput) -> (r: Result<(), CaduceusError>)
    ensures
        crate::error::verdict(r) == review::unless(dirty_fault(worktree@, *out)),
{
    match repo::check_run("review-dirty-check", out) {
        Err(e) => {
            return Err(e);
        },
        Ok(_) => {},
    }
    let body = text::trimmed(out.stdout.as_str());
    if body.as_str().is_empty() {
        return Ok(());
    }
    let found = text::lines_of(body.as_str());
    proof {
        assert(text::texts(found@).len() == found.len());
    }
    let detail = if found.len() > MAX_MUTATION_DETAIL_LINES {
        let first = first_lines(&found, MAX_MUTATION_DETAIL_LINES);
        let more: usize = found.len() - MAX_MUTATION_DETAIL_LINES;
        let mut m = text::cat(
            "tracked files modified: ",
            text::join_texts(&first, "; ").as_str(),
        );
        m.append(" (and ");
        m.append(text::decimal(more as u64).as_str());
        m.append(" more entries)");
        m
    } else {
        text::cat("tracked files modified: ", text::join_texts(&found, "; ").as_str())
    };
    Err(CaduceusError::ReviewSourceMutation { worktree_path: worktree.to_owned(), detail })
}

/// The digest of bytes.
pub open spec fn digest_of(bytes: Seq<u8>) -> Seq<char> {
    digest::hex_text(digest::sha256(bytes))
}

/// The digests of the control files, or the error of the first that could not
/// be read.
pub open spec fn captured(files: ControlFiles) -> Result<DigestsView, Fault> {
    match (files.prompt, files.worktree_metadata) {
        (Err(e), _) => Err(Fault::Io(e@)),
        (Ok(_), Err(e)) => Err(Fault::Io(e@)),
        (Ok(p), Ok(m)) => Ok(
            DigestsView {
                prompt_sha256: digest_of(p@),
                worktree_metadata_sha256: digest_of(m@),
            },
        ),
    }
}

/// The digests of the control files before the run. A file that cannot be read
/// then is no violation: the worker has not run.
pub fn capture_control_file_digests(files: &ControlFiles) -> (r: Result<
    ReviewControlFileDigests,
    CaduceusError,
>)
    ensures
        crate::error::seen(r) == captured(*files),
{
    let prompt = match &files.prompt {
        Err(e) => {
            return Err(CaduceusError::Io(e.clone()));
        },
        Ok(p) => p,
    };
    let metadata = match &files.worktree_metadata {
        Err(e) => {
            return Err(CaduceusError::Io(e.clone()));
        },
        Ok(m) => m,
    };
    Ok(
        ReviewControlFileDigests {
            prompt_sha256: digest::digest_bytes(prompt.as_slice()),
            worktree_metadata_sha256: digest::digest_bytes(metadata.as_slice()),
        },
    )
}

/// What a control file shows after the run: to be gone is to be changed.
pub open spec fn file_fault(
    worktree: Seq<char>,
    name: Seq<char>,
    pre: Seq<char>,
    read: Result<Vec<u8>, String>,
) -> Option<Fault> {
    match read {
        Err(e) => Some(
            Fault::ReviewSourceMutation {
                worktree_path: worktree,
                detail: "daemon control file missing: "@ + name + " ("@ + e@ + ")"@,
            },
        ),
        Ok(bytes) => if digest_of(bytes@) == pre {
            None
        } else {
            Some(
                Fault::ReviewSourceMutation {
                    worktree_path: worktree,
                    detail: "daemon control file modified: "@ + name + " (sha256 pre "@ + pre
                        + ", post "@ + digest_of(bytes@) + ")"@,
                },
            )
        },
    }
}

fn check_file(worktree: &str, name: &str, pre: &str, read: &Result<Vec<u8>, String>) -> (r: Result<
    (),
    CaduceusError,
>)
    ensures
        crate::error::verdict(r) == review::unless(file_fault(worktree@, name@, pre@, *read)),
{
    match read {
        Err(e) => {
            let mut m = text::cat("daemon control file missing: ", name);
            m.append(" (");
            m.append(e.as_str());
            m.append(")");
            Err(
                CaduceusError::ReviewSourceMutation {
                    worktree_path: worktree.to_owned(),
                    detail: m,
                },
            )
        },
        Ok(bytes) => {
            let post = digest::digest_bytes(bytes.as_slice());
            if text::same(post.as_str(), pre) {
                return Ok(());
            }
            let mut m = text::cat("daemon control file modified: ", name);
            m.append(" (sha256 pre ");
            m.append(pre);
            m.append(", post ");
            m.append(post.as_str());
            m.append(")");
            Err(
                CaduceusError::ReviewSourceMutation {
                    worktree_path: worktree.to_owned(),
                    detail: m,
                },
            )
        },
    }
}

/// What the control files show after the run.
pub open spec fn control_fault(
    worktree: Seq<char>,
    pre: DigestsView,
    files: ControlFiles,
) -> Option<Fault> {
    review::or_fault(
        file_fault(worktree, PROMPT_FILENAME@, pre.prompt_sha256, files.prompt),
        file_fault(
            worktree,
            REVIEW_WORKTREE_METADATA_FILENAME@,
            pre.worktree_metadata_sha256,
            files.worktree_metadata,
        ),
    )
}

/// Check that the run left the control files as they were.
pub fn verify_control_file_digests(
    worktree: &str,
    pre: &ReviewControlFileDigests,
    files: &ControlFiles,
) -> (r: Result<(), CaduceusError>)
    ensures
        crate::error::verdict(r) == review::unless(control_fault(worktree@, pre@, *files)),
{
    match check_file(worktree, PROMPT_FILENAME, pre.prompt_sha256.as_str(), &files.prompt) {
        Err(e) => {
            return Err(e);
        },
        Ok(_) => {},
    }
    check_file(
        worktree,
        REVIEW_WORKTREE_METADATA_FILENAME,
        pre.worktree_metadata_sha256.as_str(),
        &files.worktree_metadata,
    )
}

/// Check that the run kept to the contract: the tracked files first, then the
/// control files.
pub fn enforce_review_read_only(
    worktree: &str,
    pre: &ReviewControlFileDigests,
    out: &GitOutput,
    files: &ControlFiles,
) -> (r: Result<(), CaduceusError>)
    ensures
        crate::error::verdict(r) == review::unless(
            review::or_fault(
                dirty_fault(worktree@, *out),
                control_fault(worktree@, pre@, *files),
            ),
        ),
{
    match check_tracked_files_clean(worktree, out) {
        Err(e) => {
            return Err(e);
        },
        Ok(_) => {},
    }
    verify_control_file_digests(worktree, pre, files)
}

/// The event of a violation.
#[derive(Debug)]
pub struct MutationViolation {
    pub repo: String,
    pub pr: u64,
    pub head_sha: String,
    pub worktree: String,
    pub detail: String,
}

/// The event of a violation, its detail redacted.
pub fn emit_review_mutation_violation(target: &ReviewTarget, worktree: &str, detail: &str) -> (r:
    MutationViolation)
    ensures
        r.repo@ == target@.repository.owner + "/"@ + target@.repository.repo,
        r.pr == target@.pull_request,
        r.head_sha@ == target@.head_sha,
        r.worktree@ == worktree@,
        r.detail@ == claim::scrubbed(detail@),
{
    MutationViolation {
        repo: target.repository.full_name(),
        pr: target.pull_request,
        head_sha: target.head_sha.clone(),
        worktree: worktree.to_owned(),
        detail: claim::scrub(detail),
    }
}

/// The way of a review entry to an operator: the error, where it comes from,
/// and what to look at.
#[derive(Debug)]
pub struct AttentionRoute {
    pub error: String,
    pub source: &'static str,
    pub hint: String,
}

/// What to look at after a violation: the worktree is kept.
pub open spec fn violation_hint(worktree: Seq<char>) -> Seq<char> {
    "review worker violated the read-only contract; the archived review worktree is preserved for inspection at "@
        + worktree + " (see `git -C "@ + worktree + " status` and `git -C "@ + worktree
        + " diff`); it is reclaimed by the review worktree GC"@
}

/// What ends a run that broke the contract: the event goes out first, and then
/// the entry goes its way. The worktree is kept.
#[derive(Debug)]
pub struct ViolationEnd {
    pub event: MutationViolation,
    pub route: AttentionRoute,
}

/// The end of a run that broke the contract. Any other error is refused, with
/// no event: it goes the ordinary way.
pub fn finish_mutation_violation(target: &ReviewTarget, err: &CaduceusError) -> (r: Result<
    ViolationEnd,
    CaduceusError,
>)
    ensures
        match (err@, r) {
            (Fault::ReviewSourceMutation { worktree_path, detail }, Ok(end)) => {
                &&& end.event.repo@ == target@.repository.owner + "/"@ + target@.repository.repo
                &&& end.event.pr == target@.pull_request
                &&& end.event.head_sha@ == target@.head_sha
                &&& end.event.worktree@ == worktree_path
                &&& end.event.detail@ == claim::scrubbed(detail)
                &&& end.route.error@ == detail
                &&& end.route.source@ == MUTATION_VIOLATION_SOURCE@
                &&& end.route.hint@ == violation_hint(worktree_path)
            },
            (Fault::ReviewSourceMutation { .. }, Err(_)) => false,
            (_, Ok(_)) => false,
            (_, Err(e)) => e@ == Fault::Config(
                "finish_mutation_violation requires a ReviewSourceMutation error"@,
            ),
        },
{
    match err {
        CaduceusError::ReviewSourceMutation { worktree_path, detail } => {
            let path = worktree_path.as_str();
            let mut hint = text::cat(
                "review worker violated the read-only contract; the archived review worktree is preserved for inspection at ",
                path,
            );
            hint.append(" (see `git -C ");
            hint.append(path);
            hint.append(" status` and `git -C ");
            hint.append(path);
            hint.append(" diff`); it is reclaimed by the review worktree GC");
            let event = emit_review_mutation_violation(target, path, detail.as_str());
            let route = AttentionRoute {
                error: detail.clone(),
                source: MUTATION_VIOLATION_SOURCE,
                hint,
            };
            Ok(ViolationEnd { event, route })
        },
        _ => Err(
            CaduceusError::Config(
                "finish_mutation_violation requires a ReviewSourceMutation error".to_owned(),
            ),
        ),
    }
}

/// A run that leaves the control files as they were captured, and no line of
/// dirt, keeps the contract.
pub proof fn law_an_untouched_worktree_passes(
    worktree: Seq<char>,
    files: ControlFiles,
    out: GitOutput,
)
    requires
        captured(files) is Ok,
        !out.cancelled,
        !repo::broke(out),
        text::trim(out.stdout@).len() == 0,
    ensures
        review::or_fault(
            dirty_fault(worktree, out),
            control_fault(worktree, captured(files)->Ok_0, files),
        ) is None,
{
}

/// A control file whose digest is another, or that is gone, is a violation.
pub proof fn law_a_changed_control_file_is_a_violation(
    worktree: Seq<char>,
    pre: DigestsView,
    files: ControlFiles,
)
    requires
        match files.prompt {
            Err(_) => true,
            Ok(b) => digest_of(b@) != pre.prompt_sha256,
        } || match files.worktree_metadata {
            Err(_) => true,
            Ok(b) => digest_of(b@) != pre.worktree_metadata_sha256,
        },
    ensures
        control_fault(worktree, pre, files) matches Some(f) && f is ReviewSourceMutation,
{
}

/// A worktree is dirty exactly when the check ran and printed more than blanks;
/// then the evidence is what it printed.
pub proof fn law_a_dirty_worktree_is_a_violation(worktree: Seq<char>, out: GitOutput)
    ensures
        ({
            let ran = !out.cancelled && !out.timed_out && out.status == Some(0i32);
            let body = text::trim(out.stdout@);
            &&& dirty_fault(worktree, out) is None <==> ran && body.len() == 0
            &&& out.cancelled ==> dirty_fault(worktree, out) == Some(Fault::Cancelled)
            &&& ran && body.len() > 0 ==> dirty_fault(worktree, out) == Some(
                Fault::ReviewSourceMutation {
                    worktree_path: worktree,
                    detail: evidence(text::lines(body)),
                },
            )
            &&& !ran && !out.cancelled ==> dirty_fault(worktree, out) == Some(
                Fault::Git { operation: "review-dirty-check"@, stderr: out.stderr@ },
            )
        }),
{
}

/// The evidence is the lines, of which at most twenty are told; the others are
/// counted.
pub proof fn law_the_evidence_is_the_first_lines(found: Seq<Seq<char>>)
    ensures
        found.len() <= 20 ==> evidence(found) == "tracked files modified: "@ + text::joined(
            found,
            "; "@,
        ),
        found.len() > 20 ==> evidence(found) == "tracked files modified: "@ + text::joined(
            found.take(20),
            "; "@,
        ) + " (and "@ + text::dec((found.len() - 20) as nat) + " more entries)"@,
{
}

/// The control files are captured exactly when both could be read, each by the
/// digest of its own bytes.
pub proof fn law_control_files_are_captured_by_digest(files: ControlFiles)
    ensures
        captured(files) is Ok <==> files.prompt is Ok && files.worktree_metadata is Ok,
        captured(files) matches Ok(d) ==> d.prompt_sha256 == digest::hex_text(
            digest::sha256(files.prompt->Ok_0@),
        ) && d.worktree_metadata_sha256 == digest::hex_text(
            digest::sha256(files.worktree_metadata->Ok_0@),
        ),
{
}

/// The control files pass exactly when both are there and have the digests that
/// were captured; the prompt is judged first.
pub proof fn law_control_files_keep_their_digests(
    worktree: Seq<char>,
    pre: DigestsView,
    files: ControlFiles,
)
    ensures
        control_fault(worktree, pre, files) is None <==> (files.prompt matches Ok(p)
            && digest::hex_text(digest::sha256(p@)) == pre.prompt_sha256) && (
        files.worktree_metadata matches Ok(m) && digest::hex_text(digest::sha256(m@))
            == pre.worktree_metadata_sha256),
        files.prompt matches Err(e) ==> control_fault(worktree, pre, files) == Some(
            Fault::ReviewSourceMutation {
                worktree_path: worktree,
                detail: "daemon control file missing: "@ + "worker-prompt.md"@ + " ("@ + e@ + ")"@,
            },
        ),
        files.prompt matches Ok(p) ==> (digest_of(p@) != pre.prompt_sha256 ==> control_fault(
            worktree,
            pre,
            files,
        ) == Some(
            Fault::ReviewSourceMutation {
                worktree_path: worktree,
                detail: "daemon control file modified: "@ + "worker-prompt.md"@ + " (sha256 pre "@
                    + pre.prompt_sha256 + ", post "@ + digest_of(p@) + ")"@,
            },
        )),
{
}

/// The hint names the worktree, and how to look into it.
pub proof fn law_the_hint_names_the_worktree(worktree: Seq<char>)
    ensures
        violation_hint(worktree)
            == "review worker violated the read-only contract; the archived review worktree is preserved for inspection at "@
            + worktree + " (see `git -C "@ + worktree + " status` and `git -C "@ + worktree
            + " diff`); it is reclaimed by the review worktree GC"@,
{
}

/// A review was read-only exactly when the worktree is clean and both control files
/// have the digests that were captured.
pub proof fn law_a_read_only_review_passes(
    worktree: &str,
    pre: &ReviewControlFileDigests,
    out: &GitOutput,
    files: &ControlFiles,
    r: Result<(), CaduceusError>,
)
    requires
        call_ensures(enforce_review_read_only, (worktree, pre, out, files), r),
    ensures
        r is Ok <==> {
            &&& !out.cancelled && !out.timed_out && out.status == Some(0i32)
            &&& text::trim(out.stdout@).len() == 0
            &&& files.prompt is Ok && digest::hex_text(digest::sha256(files.prompt->Ok_0@))
                == pre@.prompt_sha256
            &&& files.worktree_metadata is Ok && digest::hex_text(
                digest::sha256(files.worktree_metadata->Ok_0@),
            ) == pre@.worktree_metadata_sha256
        },
{
}

/// The check for changes looks at tracked files alone.
pub proof fn law_the_check_is_for_tracked_files(worktree: &str, r: Vec<String>)
    requires
        call_ensures(dirty_check_command, (worktree,), r),
    ensures
        text::texts(r@) == seq![
            "-C"@,
            worktree@,
            "status"@,
            "--porcelain"@,
            "--untracked-files=no"@,
        ],
{
}

/// The event of a violation names the review, and keeps no secret in its detail.
pub proof fn law_a_violation_names_its_review(
    target: &ReviewTarget,
    worktree: &str,
    detail: &str,
    r: MutationViolation,
)
    requires
        call_ensures(emit_review_mutation_violation, (target, worktree, detail), r),
    ensures
        r.repo@ == target@.repository.owner + "/"@ + target@.repository.repo,
        r.pr == target@.pull_request,
        r.head_sha@ == target@.head_sha,
        r.worktree@ == worktree@,
        r.detail@ == claim::scrubbed(detail@),
{
}

} // verus!
