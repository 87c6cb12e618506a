//! The review stores: the review queue, the state of each pull request, and
//! the append-only history.

use vstd::prelude::*;

use crate::digest;
use crate::error::{CaduceusError, Fault};
use crate::json;
use crate::json::{Json, JsonView};
use crate::review;
use crate::review::{
    RepositoryId, RepositoryView, ReviewResult, ReviewState, ReviewTarget, StateView, TargetView,
    MAX_REPO_COMPONENT_BYTES, MAX_RUN_ID_BYTES, MAX_SHA_BYTES, REVIEW_SCHEMA_VERSION,
};
use crate::state::review::history::{ReviewHistoryRow, RowView};
use crate::text;

pub mod claim;
pub mod history;
pub mod laws;
pub mod queue;
pub mod rows;
pub mod state;

verus! {

/// Envelope version of the review queue file.
pub const REVIEW_QUEUE_FILE_VERSION: u32 = 1;

/// Envelope version of the review state file.
pub const REVIEW_STATE_FILE_VERSION: u32 = 1;

/// Envelope version of the review history file.
pub const REVIEW_HISTORY_FILE_VERSION: u32 = 1;

/// Format version of a review claim file.
pub const REVIEW_CLAIM_FILE_VERSION: u32 = 1;

pub const REVIEW_QUEUE_FILENAME: &'static str = "review_queue.json";

pub const REVIEW_STATE_FILENAME: &'static str = "review_state.json";

pub const REVIEW_HISTORY_FILENAME: &'static str = "review_history.json";

/// Name of the directory that holds the review claim files; apart from the
/// issue claims, which the reaper reads as issue claims.
pub const REVIEW_CLAIMS_DIRNAME: &'static str = "review-claims";

/// Name of the lock file that serialises review store mutations.
pub const REVIEW_LOCK_FILENAME: &'static str = "review.lock";

// ---------------------------------------------------------------------------
// Keys
// ---------------------------------------------------------------------------

/// The canonical key of a pull request.
pub open spec fn state_key(repository: RepositoryView, pull_request: u64) -> Seq<char> {
    text::lowercase(repository.owner) + "/"@ + text::lowercase(repository.repo) + "#"@ + text::dec(
        pull_request as nat,
    )
}

/// The canonical key of a review target.
pub open spec fn queue_key(t: TargetView) -> Seq<char> {
    state_key(t.repository, t.pull_request) + "@"@ + t.head_sha
}

/// The canonical key of a pull request: names in lowercase.
pub fn review_state_key(repository: &RepositoryId, pull_request: u64) -> (r: String)
    ensures
        r@ == state_key(repository@, pull_request),
{
    let mut out = text::lowered(repository.owner.as_str());
    out.append("/");
    out.append(text::lowered(repository.repo.as_str()).as_str());
    out.append("#");
    out.append(text::decimal(pull_request).as_str());
    out
}

/// The owner holds no slash, and where it is not all ASCII neither does its
/// lowercase.
pub open spec fn slash_free(owner: Seq<char>) -> bool {
    !owner.contains('/') && (text::is_ascii(owner) || !text::lowercase(owner).contains('/'))
}

/// Two pull requests share a key only where they have the same number and their
/// repositories the same names, up to case: an owner holds no slash.
pub proof fn law_a_state_key_names_one_pull_request(
    a: RepositoryView,
    p: u64,
    b: RepositoryView,
    q: u64,
)
    requires
        slash_free(a.owner),
        slash_free(b.owner),
    ensures
        state_key(a, p) == state_key(b, q) <==> {
            &&& p == q
            &&& text::lowercase(a.owner) == text::lowercase(b.owner)
            &&& text::lowercase(a.repo) == text::lowercase(b.repo)
        },
{
    if state_key(a, p) == state_key(b, q) {
        reveal_strlit("/");
        reveal_strlit("#");
        assert("/"@ =~= seq!['/']);
        assert("#"@ =~= seq!['#']);
        let (x, y) = (text::lowercase(a.owner), text::lowercase(b.owner));
        let (u, v) = (text::lowercase(a.repo), text::lowercase(b.repo));
        let (d, e) = (text::dec(p as nat), text::dec(q as nat));
        text::lemma_dec_has_no(p as nat, '#');
        text::lemma_dec_has_no(q as nat, '#');
        if text::is_ascii(a.owner) {
            text::lemma_lowercase_has_no(a.owner, '/');
        }
        if text::is_ascii(b.owner) {
            text::lemma_lowercase_has_no(b.owner, '/');
        }
        lemma_same_tail(x + "/"@ + u, d, y + "/"@ + v, e, '#');
        lemma_same_head(x, u, y, v, '/');
        text::lemma_number_of_dec(p as nat);
        text::lemma_number_of_dec(q as nat);
    }
}

/// A text splits in one way at the last `c`.
proof fn lemma_same_tail(a: Seq<char>, d: Seq<char>, b: Seq<char>, e: Seq<char>, c: char)
    requires
        a + seq![c] + d == b + seq![c] + e,
        !d.contains(c),
        !e.contains(c),
    ensures
        a == b,
        d == e,
{
    let s = a + seq![c] + d;
    let t = b + seq![c] + e;
    assert(s.len() == t.len());
    if a.len() < b.len() {
        let i = b.len() - a.len() - 1;
        assert(t[b.len() as int] == c);
        assert(s[b.len() as int] == d[i]);
        assert(d.contains(d[i]));
    }
    if b.len() < a.len() {
        let i = a.len() - b.len() - 1;
        assert(s[a.len() as int] == c);
        assert(t[a.len() as int] == e[i]);
        assert(e.contains(e[i]));
    }
    assert(a =~= s.subrange(0, a.len() as int));
    assert(b =~= t.subrange(0, a.len() as int));
    assert(d =~= s.subrange(a.len() as int + 1, s.len() as int));
    assert(e =~= t.subrange(a.len() as int + 1, s.len() as int));
}

/// A text splits in one way at the first `c`.
proof fn lemma_same_head(a: Seq<char>, d: Seq<char>, b: Seq<char>, e: Seq<char>, c: char)
    requires
        a + seq![c] + d == b + seq![c] + e,
        !a.contains(c),
        !b.contains(c),
    ensures
        a == b,
        d == e,
{
    let s = a + seq![c] + d;
    let t = b + seq![c] + e;
    if a.len() < b.len() {
        assert(s[a.len() as int] == c);
        assert(t[a.len() as int] == b[a.len() as int]);
        assert(b.contains(b[a.len() as int]));
    }
    if b.len() < a.len() {
        assert(t[b.len() as int] == c);
        assert(s[b.len() as int] == a[b.len() as int]);
        assert(a.contains(a[b.len() as int]));
    }
    assert(a =~= s.subrange(0, a.len() as int));
    assert(b =~= t.subrange(0, a.len() as int));
    assert(d =~= s.subrange(a.len() as int + 1, s.len() as int));
    assert(e =~= t.subrange(a.len() as int + 1, s.len() as int));
}

/// The canonical key of a review target: that of its pull request, and the
/// head commit.
pub fn review_queue_key(target: &ReviewTarget) -> (r: String)
    ensures
        r@ == queue_key(target@),
{
    let mut out = review_state_key(&target.repository, target.pull_request);
    out.append("@");
    out.append(target.head_sha.as_str());
    out
}

/// The hexadecimal SHA-256 digest of a canonical review key.
pub fn review_claim_digest(key: &str) -> (r: String)
    ensures
        r@ == digest::text_digest(key@),
{
    digest::digest_text(key)
}

// ---------------------------------------------------------------------------
// Validation
// ---------------------------------------------------------------------------

/// The rule that an envelope version breaks: it must be the supported one.
pub open spec fn version_fault(file: Seq<char>, found: u32, supported: u32) -> Option<Fault> {
    if found != supported {
        Some(
            Fault::StoreVersionUnsupported {
                backend: "json"@,
                path: file,
                found: found as i64,
                supported: supported as i64,
                guidance: crate::error::guidance(found > supported),
            },
        )
    } else {
        None
    }
}

/// Check an envelope version: any other than the supported one, older or
/// newer, is refused.
pub fn require_review_file_version(file: &str, found: u32, supported: u32) -> (r: Result<
    (),
    CaduceusError,
>)
    ensures
        crate::error::verdict(r) == review::unless(version_fault(file@, found, supported)),
{
    if found != supported {
        return Err(
            CaduceusError::StoreVersionUnsupported {
                backend: "json",
                path: file.to_owned(),
                found: found as i64,
                supported: supported as i64,
                guidance: crate::error::store_version_guidance(found > supported),
            },
        );
    }
    Ok(())
}

/// The rule that a bounded text breaks.
pub open spec fn bound_fault(scope: Seq<char>, field: Seq<char>, value: Seq<char>, max: usize) -> Option<
    Fault,
> {
    if value.len() == 0 {
        Some(Fault::StateCorrupt { path: scope, message: field + " must not be empty"@ })
    } else if text::utf8_len(value) > max {
        Some(
            Fault::StateCorrupt {
                path: scope,
                message: field + " exceeds limit of "@ + text::dec(max as nat) + " bytes (got "@
                    + text::dec(text::utf8_len(value)) + ")"@,
            },
        )
    } else {
        None
    }
}

/// Check that a text is not empty and at most `max` bytes long.
pub fn bounded_string(scope: &str, field: &str, value: &str, max: usize) -> (r: Result<
    (),
    CaduceusError,
>)
    ensures
        crate::error::verdict(r) == review::unless(bound_fault(scope@, field@, value@, max)),
{
    if value.is_empty() {
        return Err(crate::error::corrupt(scope, text::cat(field, " must not be empty")));
    }
    let n = text::byte_len(value);
    if n > max {
        let mut m = text::cat(field, " exceeds limit of ");
        m.append(text::decimal(max as u64).as_str());
        m.append(" bytes (got ");
        m.append(text::decimal(n as u64).as_str());
        m.append(")");
        return Err(crate::error::corrupt(scope, m));
    }
    Ok(())
}

/// Where history errors say they come from.
pub open spec fn history_scope() -> Seq<char> {
    "<review-history>"@
}

/// The rule that the identity of a history row breaks.
pub open spec fn identity_fault(r: RowView) -> Option<Fault> {
    review::or_fault(
        bound_fault(
            history_scope(),
            "repository.owner"@,
            r.repository.owner,
            MAX_REPO_COMPONENT_BYTES,
        ),
        review::or_fault(
            bound_fault(
                history_scope(),
                "repository.repo"@,
                r.repository.repo,
                MAX_REPO_COMPONENT_BYTES,
            ),
            review::or_fault(
                bound_fault(history_scope(), "head_sha"@, r.head_sha, MAX_SHA_BYTES),
                bound_fault(history_scope(), "review_run_id"@, r.review_run_id, MAX_RUN_ID_BYTES),
            ),
        ),
    )
}

/// The rule that a result document breaks. It must be an object with an
/// unsigned `schema_version`; of the current version it must also be a review
/// result within its caps, while other versions are kept as they are.
/// `decoded` is the document as a review result, or the decoder's message.
pub open spec fn blob_fault(
    doc: Result<JsonView, Seq<char>>,
    decoded: Result<ReviewResult, String>,
) -> Option<Fault> {
    match doc {
        Err(e) => Some(
            Fault::StateCorrupt {
                path: history_scope(),
                message: "result_json is not valid JSON: "@ + e,
            },
        ),
        Ok(j) => match schema_version(j) {
            None => Some(
                Fault::StateCorrupt {
                    path: history_scope(),
                    message: "result_json must be an object with an integer schema_version"@,
                },
            ),
            Some(v) => if v != REVIEW_SCHEMA_VERSION {
                None
            } else {
                match decoded {
                    Err(e) => Some(
                        Fault::StateCorrupt {
                            path: history_scope(),
                            message:
                                "current-version result_json is not a valid ReviewResult: "@ + e@,
                        },
                    ),
                    Ok(r) => review::result_fault(r@),
                }
            },
        },
    }
}

/// The schema version that a document states.
pub open spec fn schema_version(j: JsonView) -> Option<u64> {
    match j.field("schema_version"@) {
        Some(f) => f.value.as_unsigned(),
        None => None,
    }
}

/// The rule that a history row breaks.
pub open spec fn row_fault(r: RowView, decoded: Result<ReviewResult, String>) -> Option<Fault> {
    review::or_fault(identity_fault(r), blob_fault(json::document(r.result_json), decoded))
}

/// Check a result document that was read as JSON.
pub fn check_result_document(
    doc: &Result<Json, String>,
    decoded: &Result<ReviewResult, String>,
) -> (r: Result<(), CaduceusError>)
    ensures
        crate::error::verdict(r) == review::unless(blob_fault(json::parsed(*doc), *decoded)),
{
    let tree = match doc {
        Err(e) => {
            return Err(
                crate::error::corrupt(
                    "<review-history>",
                    text::cat("result_json is not valid JSON: ", e.as_str()),
                ),
            );
        },
        Ok(tree) => tree,
    };
    let version = match tree.get("schema_version") {
        Some(f) => f.value.as_u64(),
        None => None,
    };
    match version {
        None => Err(
            crate::error::corrupt(
                "<review-history>",
                "result_json must be an object with an integer schema_version".to_owned(),
            ),
        ),
        Some(v) => {
            if v != REVIEW_SCHEMA_VERSION as u64 {
                return Ok(());
            }
            match decoded {
                Err(e) => Err(
                    crate::error::corrupt(
                        "<review-history>",
                        text::cat(
                            "current-version result_json is not a valid ReviewResult: ",
                            e.as_str(),
                        ),
                    ),
                ),
                Ok(result) => review::validate_review_result(result),
            }
        },
    }
}

/// Check one history row: its identity, and its result document.
pub fn validate_history_row(row: &ReviewHistoryRow, decoded: &Result<ReviewResult, String>) -> (r:
    Result<(), CaduceusError>)
    ensures
        crate::error::verdict(r) == review::unless(row_fault(row@, *decoded)),
{
    let scope = "<review-history>";
    match bounded_string(
        scope,
        "repository.owner",
        row.repository.owner.as_str(),
        MAX_REPO_COMPONENT_BYTES,
    ) {
        Err(e) => return Err(e),
        Ok(()) => {},
    }
    match bounded_string(
        scope,
        "repository.repo",
        row.repository.repo.as_str(),
        MAX_REPO_COMPONENT_BYTES,
    ) {
        Err(e) => return Err(e),
        Ok(()) => {},
    }
    match bounded_string(scope, "head_sha", row.head_sha.as_str(), MAX_SHA_BYTES) {
        Err(e) => return Err(e),
        Ok(()) => {},
    }
    match bounded_string(scope, "review_run_id", row.review_run_id.as_str(), MAX_RUN_ID_BYTES) {
        Err(e) => return Err(e),
        Ok(()) => {},
    }
    let doc = json::parse_json(row.result_json.as_str());
    check_result_document(&doc, decoded)
}

/// A fault of the domain as a fault of the store.
pub open spec fn stored_fault(path: Seq<char>, prefix: Seq<char>, f: Option<Fault>) -> Option<Fault> {
    match f {
        Some(f) => Some(
            Fault::StateCorrupt { path, message: prefix + crate::error::message(f) },
        ),
        None => None,
    }
}

/// The rule that a review state breaks, as the store reports it.
pub open spec fn stored_state_fault(s: StateView) -> Option<Fault> {
    stored_fault("<review-store>"@, "review state invalid: "@, review::state_fault(s))
}

/// Check the caps of a review state, as the store reports them.
pub fn validated_review_state(state: &ReviewState) -> (r: Result<(), CaduceusError>)
    ensures
        crate::error::verdict(r) == review::unless(stored_state_fault(state@)),
{
    match review::validate_review_state(state) {
        Ok(()) => Ok(()),
        Err(e) => Err(
            crate::error::corrupt(
                "<review-store>",
                text::cat("review state invalid: ", e.message_text().as_str()),
            ),
        ),
    }
}

} // verus!
