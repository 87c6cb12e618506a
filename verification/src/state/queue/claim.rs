//! Claim tokens: matching them against the queue, the digest that names a
//! claim file, the identity of the claiming process, and redaction.

use vstd::prelude::*;

use super::{ClaimFileBody, ClaimToken, EntryView, Phase, QueueEntry, TokenView};
use crate::digest;
use crate::error::{CaduceusError, Fault};
use crate::text;

verus! {

/// The token is the one under which `e` was claimed: the entry is in
/// progress, for the token's run, and the token names the entry's own digest.
pub open spec fn matches(e: EntryView, t: TokenView) -> bool {
    &&& e.phase == Phase::InProgress
    &&& e.last_run_id == Some(t.run_id)
    &&& digest::text_digest(e.key.display_key()) == t.digest
}

/// Is the token the one under which `entry` was claimed?
pub fn matches_token(entry: &QueueEntry, claim: &ClaimToken) -> (r: bool)
    ensures
        r == matches(entry@, claim@),
{
    if entry.phase != Phase::InProgress {
        return false;
    }
    if !text::opt_is(&entry.last_run_id, claim.run_id()) {
        return false;
    }
    let d = display_digest(entry.key.display_key().as_str());
    text::same(d.as_str(), claim.digest())
}

/// The error for a token that matches no entry in progress.
pub open spec fn mismatch(t: TokenView) -> Fault {
    Fault::Queue {
        context: "claim"@,
        stderr: "claim token run_id "@ + text::quote(t.run_id) + " digest "@ + t.digest
            + " does not match any in-progress entry"@,
    }
}

/// The error for a token that matches no entry in progress.
pub fn claim_mismatch(claim: &ClaimToken) -> (r: CaduceusError)
    ensures
        r@ == mismatch(claim@),
{
    let mut m = text::cat("claim token run_id ", text::quoted(claim.run_id()).as_str());
    m.append(" digest ");
    m.append(claim.digest());
    m.append(" does not match any in-progress entry");
    CaduceusError::Queue { context: "claim", stderr: m }
}

/// The hexadecimal SHA-256 digest of a canonical issue key.
pub fn display_digest(display_key: &str) -> (r: String)
    ensures
        r@ == digest::text_digest(display_key@),
{
    digest::digest_text(display_key)
}

/// The claim body with another worktree path.
pub fn update_claim_worktree(body: ClaimFileBody, worktree: Option<String>) -> (r: ClaimFileBody)
    ensures
        r == (ClaimFileBody { worktree_path: worktree, ..body }),
{
    let mut out = body;
    out.worktree_path = worktree;
    out
}

// ---------------------------------------------------------------------------
// Process identity
// ---------------------------------------------------------------------------

/// `boot:start`, with fallbacks for what could not be observed.
pub open spec fn identity(boot: Option<Seq<char>>, start: Option<u64>) -> Seq<char> {
    (match boot {
        Some(b) => text::trim(b),
        None => "<unknown-boot>"@,
    }) + ":"@ + text::dec(
        match start {
            Some(s) => s as nat,
            None => 0,
        },
    )
}

/// Identity of a process: the boot id file's text and the start time in clock
/// ticks, as far as they could be observed.
pub fn process_start_identity(boot_id: Option<&str>, start_ticks: Option<u64>) -> (r: String)
    ensures
        r@ == identity(text::opt_str(boot_id), start_ticks),
{
    let boot = match boot_id {
        Some(b) => text::trimmed(b),
        None => "<unknown-boot>".to_owned(),
    };
    let start: u64 = match start_ticks {
        Some(s) => s,
        None => 0,
    };
    let mut out = text::cat(boot.as_str(), ":");
    out.append(text::decimal(start).as_str());
    out
}

/// Position just after the last `)` at or before `n`.
pub open spec fn after_paren(s: Seq<char>, n: int) -> Option<int>
    decreases n,
{
    if n <= 0 || n > s.len() {
        None
    } else if s[n - 1] == ')' {
        Some(n)
    } else {
        after_paren(s, n - 1)
    }
}

/// What is taken as the start time in a `/proc/<pid>/stat` line: the
/// twenty-first word after the last `)`.
pub open spec fn start_ticks(stat: Seq<char>) -> Option<nat> {
    match after_paren(stat, stat.len() as int) {
        None => None,
        Some(p) => {
            let fields = text::words(stat.skip(p));
            if fields.len() <= 20 {
                None
            } else {
                text::number(fields[20])
            }
        },
    }
}

/// The start time, in clock ticks, that a `/proc/<pid>/stat` line reports.
pub fn read_proc_start_ticks(stat: &str) -> (r: Option<u64>)
    ensures
        match start_ticks(stat@) {
            Some(n) if n <= u64::MAX => r == Some(n as u64),
            _ => r is None,
        },
{
    let chars = text::chars_of(stat);
    let mut n: usize = chars.len();
    while n > 0 && chars[n - 1] != ')'
        invariant
            chars@ == stat@,
            n <= chars.len(),
            after_paren(stat@, stat@.len() as int) == after_paren(stat@, n as int),
        decreases n,
    {
        n -= 1;
    }
    if n == 0 {
        return None;
    }
    let rest = text::text_of(&chars, n, chars.len());
    proof {
        assert(rest@ =~= stat@.skip(n as int));
    }
    let fields = text::words_of(rest.as_str());
    if fields.len() <= 20 {
        return None;
    }
    proof {
        assert(text::texts(fields@)[20] == fields@[20]@);
    }
    text::parse_number(fields[20].as_str(), u64::MAX)
}

// ---------------------------------------------------------------------------
// Redaction
// ---------------------------------------------------------------------------

/// A character that ends the value of a setting.
pub open spec fn ends_value(c: char) -> bool {
    c == ' ' || c == '\t' || c == '\n' || c == '\r' || c == ',' || c == ';' || c == '}' || c == ']'
}

/// The end of the value that begins at `i`.
pub open spec fn value_end(s: Seq<char>, i: int) -> int
    decreases s.len() - i,
{
    if 0 <= i < s.len() && !ends_value(s[i]) {
        value_end(s, i + 1)
    } else {
        i
    }
}

/// `s` with what follows the first occurrence of `name`, up to the end of the
/// value, redacted.
pub open spec fn redact(s: Seq<char>, name: Seq<char>) -> Seq<char> {
    match text::find_from(s, name, 0) {
        None => s,
        Some(p) => {
            let a = p + name.len();
            s.take(a) + "<redacted>"@ + s.skip(value_end(s, a))
        },
    }
}

/// `s` with the values of the token settings redacted.
pub open spec fn scrubbed(s: Seq<char>) -> Seq<char> {
    redact(redact(redact(s, "GITHUB_TOKEN"@), "CADUCEUS_GITHUB_TOKEN"@), "GH_TOKEN"@)
}

/// The end of the value that begins at `start`.
pub fn advance_to_end_of_value(s: &Vec<char>, start: usize) -> (r: usize)
    ensures
        r == value_end(s@, start as int),
        start <= r,
        start <= s.len() ==> r <= s.len(),
{
    let mut i: usize = start;
    while i < s.len()
        invariant_except_break
            value_end(s@, start as int) == value_end(s@, i as int),
            start <= i,
            start <= s.len() ==> i <= s.len(),
        ensures
            i == value_end(s@, start as int),
            start <= i,
            start <= s.len() ==> i <= s.len(),
        decreases s.len() - i,
    {
        let c = s[i];
        if c == ' ' || c == '\t' || c == '\n' || c == '\r' || c == ',' || c == ';' || c == '}' || c
            == ']' {
            break;
        }
        i += 1;
    }
    i
}

fn redact_one(s: &str, name: &str) -> (r: String)
    ensures
        r@ == redact(s@, name@),
{
    let chars = text::chars_of(s);
    let needle = text::chars_of(name);
    match text::find_in(&chars, &needle, 0) {
        None => s.to_owned(),
        Some(p) => {
            proof {
                text::lemma_find(s@, name@);
            }
            let a: usize = p + needle.len();
            let b = advance_to_end_of_value(&chars, a);
            let mut out = text::text_of(&chars, 0, a);
            out.append("<redacted>");
            out.append(text::text_of(&chars, b, chars.len()).as_str());
            proof {
                assert(chars@.subrange(0, a as int) =~= s@.take(a as int));
                assert(chars@.subrange(b as int, chars@.len() as int) =~= s@.skip(b as int));
            }
            out
        },
    }
}

/// `value` with the values of the token settings redacted.
pub fn scrub(value: &str) -> (r: String)
    ensures
        r@ == scrubbed(value@),
{
    let one = redact_one(value, "GITHUB_TOKEN");
    let two = redact_one(one.as_str(), "CADUCEUS_GITHUB_TOKEN");
    redact_one(two.as_str(), "GH_TOKEN")
}

/// A token opens exactly the entry that is in progress in the token's run and has
/// the token's issue.
pub proof fn law_a_token_opens_its_entry_alone(e: EntryView, t: TokenView)
    ensures
        matches(e, t) <==> e.phase == Phase::InProgress && e.last_run_id == Some(t.run_id)
            && t.digest == digest::text_digest(e.key.display_key()),
{
}

/// A process is known by its boot and its start: an unknown boot has a name of its
/// own, and an unknown start is zero.
pub proof fn law_a_process_is_known_by_boot_and_start(boot: Seq<char>, start: u64)
    ensures
        identity(Some(boot), Some(start)) == text::trim(boot) + ":"@ + text::dec(start as nat),
        identity(None, Some(start)) == "<unknown-boot>"@ + ":"@ + text::dec(start as nat),
        identity(Some(boot), None) == text::trim(boot) + ":"@ + text::dec(0),
{
}

proof fn lemma_after_paren(s: Seq<char>, n: int)
    requires
        0 <= n <= s.len(),
    ensures
        match after_paren(s, n) {
            Some(p) => 0 < p <= n && s[p - 1] == ')' && forall|j: int|
                p <= j < n ==> #[trigger] s[j] != ')',
            None => forall|j: int| 0 <= j < n ==> #[trigger] s[j] != ')',
        },
    decreases n,
{
    if n > 0 && s[n - 1] != ')' {
        lemma_after_paren(s, n - 1);
    }
}

/// The start of a process is the field at index twenty behind the last closing
/// parenthesis.
pub proof fn law_the_start_is_behind_the_last_parenthesis(head: Seq<char>, tail: Seq<char>)
    requires
        !tail.contains(')'),
    ensures
        ({
            let fields = text::words(tail);
            &&& fields.len() > 20 ==> start_ticks(head + seq![')'] + tail) == text::number(
                fields[20],
            )
            &&& fields.len() <= 20 ==> start_ticks(head + seq![')'] + tail) is None
            &&& start_ticks(tail) is None
        }),
{
    let s = head + seq![')'] + tail;
    lemma_after_paren(s, s.len() as int);
    lemma_after_paren(tail, tail.len() as int);
    let p = head.len() as int + 1;
    assert(s[p - 1] == ')');
    match after_paren(s, s.len() as int) {
        Some(q) => {
            if q > p {
                assert(tail[q - 1 - p] == ')');
            }
            assert(q == p);
        },
        None => {},
    }
    assert(s.skip(p) =~= tail);
    match after_paren(tail, tail.len() as int) {
        Some(q) => {
            assert(tail[q - 1] == ')');
        },
        None => {},
    }
}

proof fn lemma_value_end(s: Seq<char>, i: int)
    requires
        0 <= i <= s.len(),
    ensures
        i <= value_end(s, i) <= s.len(),
        value_end(s, i) < s.len() ==> ends_value(s[value_end(s, i)]),
        forall|j: int| i <= j < value_end(s, i) ==> !ends_value(#[trigger] s[j]),
    decreases s.len() - i,
{
    if i < s.len() && !ends_value(s[i]) {
        lemma_value_end(s, i + 1);
    }
}

/// What follows a secret's name, up to the next blank or closing sign, is replaced;
/// a text without the name stays as it is.
pub proof fn law_a_named_value_is_redacted(s: Seq<char>, name: Seq<char>)
    ensures
        !text::has(s, name) ==> redact(s, name) == s,
        text::has(s, name) ==> exists|p: int, e: int|
            {
                &&& #[trigger] text::occurs_at(s, name, p)
                &&& p + name.len() <= e <= s.len()
                &&& forall|j: int|
                    p + name.len() <= j < e ==> !ends_value(#[trigger] s[j])
                &&& e < s.len() ==> ends_value(s[e])
                &&& redact(s, name) == s.take((p + name.len()) as int) + "<redacted>"@
                    + #[trigger] s.skip(e)
            },
{
    text::lemma_find(s, name);
    match text::find_from(s, name, 0) {
        Some(p) => {
            let a = p + name.len();
            lemma_value_end(s, a as int);
            assert(text::occurs_at(s, name, p));
            let e = value_end(s, a as int);
            assert(redact(s, name) == s.take(a as int) + "<redacted>"@ + s.skip(e));
        },
        None => {},
    }
}

/// The names of the secrets.
pub proof fn law_these_names_are_secrets(s: Seq<char>)
    ensures
        scrubbed(s) == redact(
            redact(redact(s, "GITHUB_TOKEN"@), "CADUCEUS_GITHUB_TOKEN"@),
            "GH_TOKEN"@,
        ),
        forall|c: char| ends_value(c) <==> seq![' ', '\t', '\n', '\r', ',', ';', '}', ']'].contains(c),
{
    let blanks = seq![' ', '\t', '\n', '\r', ',', ';', '}', ']'];
    assert forall|c: char| ends_value(c) <==> blanks.contains(c) by {
        if ends_value(c) {
            assert(blanks[0] == c || blanks[1] == c || blanks[2] == c || blanks[3] == c || blanks[4]
                == c || blanks[5] == c || blanks[6] == c || blanks[7] == c);
        }
    }
}

} // verus!
