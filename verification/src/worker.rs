//! The result that a worker leaves behind, and its rules.

use vstd::prelude::*;

use crate::error::{CaduceusError, Fault};
use crate::issue::IssueKey;
use crate::review;
use crate::text;

verus! {

/// Name of the prompt in a worktree.
pub const PROMPT_FILENAME: &'static str = "worker-prompt.md";

/// Largest result file that is read.
pub const MAX_RESULT_FILE_BYTES: u64 = 1048576;

/// Largest summary, in bytes.
pub const MAX_SUMMARY_BYTES: usize = 65536;

/// Longest commit message and pull request title, in characters.
pub const MAX_TITLE_BYTES: usize = 256;

/// Longest artifact key, in characters.
pub const MAX_ARTIFACT_KEY_LEN: usize = 128;

/// Largest number of artifacts.
pub const MAX_ARTIFACTS: usize = 100;

/// Did the worker succeed?
#[derive(Clone, Copy, Debug, PartialEq, Eq, Structural)]
pub enum WorkerStatus {
    Success,
    Failure,
}

/// An artifact: its key, and its value as JSON.
#[derive(Debug)]
pub struct Artifact {
    pub key: String,
    pub value: String,
}

/// What a worker leaves behind. Artifacts are in the order of their keys.
#[derive(Debug)]
pub struct WorkerResult {
    pub status: WorkerStatus,
    pub summary: String,
    pub commit_message: String,
    pub pull_request_title: String,
    pub artifacts: Vec<Artifact>,
    pub investigation: bool,
}

/// A [`WorkerResult`] as far as its rules read it.
pub struct ResultView {
    pub summary: Seq<char>,
    pub commit_message: Seq<char>,
    pub pull_request_title: Seq<char>,
    pub artifact_keys: Seq<Seq<char>>,
}

impl View for WorkerResult {
    type V = ResultView;

    open spec fn view(&self) -> ResultView {
        ResultView {
            summary: self.summary@,
            commit_message: self.commit_message@,
            pull_request_title: self.pull_request_title@,
            artifact_keys: self.artifacts@.map_values(|a: Artifact| a.key@),
        }
    }
}

/// The command that runs a worker: none is set.
pub fn resolve_command(_cwd: &str) -> (r: Result<Vec<String>, CaduceusError>)
    ensures
        r matches Ok(v) && v.len() == 0,
{
    Ok(Vec::new())
}

// ---------------------------------------------------------------------------
// Rules
// ---------------------------------------------------------------------------

/// The text holds the character.
pub open spec fn holds(s: Seq<char>, c: char) -> bool {
    exists|i: int| 0 <= i < s.len() && #[trigger] s[i] == c
}

/// The text holds a control character.
pub open spec fn has_control(s: Seq<char>) -> bool {
    exists|i: int| 0 <= i < s.len() && text::is_control(#[trigger] s[i])
}

/// The text holds a control character other than a newline.
pub open spec fn has_control_in_line(s: Seq<char>) -> bool {
    exists|i: int| 0 <= i < s.len() && text::is_control(#[trigger] s[i]) && s[i] != '\n'
}

/// The rule that a required text of so many units breaks.
pub open spec fn size_fault(
    field: Seq<char>,
    value: Seq<char>,
    size: nat,
    max: usize,
    unit: Seq<char>,
) -> Option<Fault> {
    if holds(value, '\0') {
        Some(Fault::Config(field + " contains NUL"@))
    } else if text::trim(value).len() == 0 {
        Some(Fault::Config(field + " is empty"@))
    } else if size > max {
        Some(
            Fault::Config(
                field + " exceeds limit of "@ + text::dec(max as nat) + " "@ + unit + " (got "@
                    + text::dec(size) + ")"@,
            ),
        )
    } else {
        None
    }
}

/// The rule that a required text of at most `max` bytes breaks.
pub open spec fn text_fault(field: Seq<char>, value: Seq<char>, max: usize) -> Option<Fault> {
    size_fault(field, value, text::utf8_len(value), max, "bytes"@)
}

/// The rule that a required text of at most `max` characters breaks.
pub open spec fn title_fault(field: Seq<char>, value: Seq<char>, max: usize) -> Option<Fault> {
    size_fault(field, value, value.len(), max, "characters"@)
}

/// The rule that an artifact key breaks.
pub open spec fn key_fault(key: Seq<char>) -> Option<Fault> {
    if key.len() == 0 {
        Some(Fault::Config("artifact key is empty"@))
    } else if key.len() > MAX_ARTIFACT_KEY_LEN {
        Some(
            Fault::Config(
                "artifact key exceeds limit of "@ + text::dec(MAX_ARTIFACT_KEY_LEN as nat)
                    + " chars (got "@ + text::dec(key.len()) + ")"@,
            ),
        )
    } else if has_control(key) {
        Some(Fault::Config("artifact key contains control characters"@))
    } else {
        None
    }
}

/// The first broken rule among the keys from position `i` on.
pub open spec fn keys_fault(keys: Seq<Seq<char>>, i: int) -> Option<Fault>
    decreases keys.len() - i,
{
    if i < 0 || i >= keys.len() {
        None
    } else {
        review::or_fault(key_fault(keys[i]), keys_fault(keys, i + 1))
    }
}

/// The rule that the artifacts break.
pub open spec fn artifacts_fault(keys: Seq<Seq<char>>) -> Option<Fault> {
    if keys.len() > MAX_ARTIFACTS {
        Some(
            Fault::Config(
                "artifacts exceeds limit of "@ + text::dec(MAX_ARTIFACTS as nat)
                    + " entries (got "@ + text::dec(keys.len()) + ")"@,
            ),
        )
    } else {
        keys_fault(keys, 0)
    }
}

/// The rule that the line structure of the title and the message breaks.
pub open spec fn lines_fault(r: ResultView) -> Option<Fault> {
    if has_control_in_line(r.commit_message) {
        Some(Fault::Config("commit_message contains control characters"@))
    } else if has_control(r.pull_request_title) {
        Some(Fault::Config("pull_request_title contains control characters"@))
    } else {
        None
    }
}

/// The rule that a result breaks.
pub open spec fn result_fault(r: ResultView) -> Option<Fault> {
    review::or_fault(
        text_fault("summary"@, r.summary, MAX_SUMMARY_BYTES),
        review::or_fault(
            title_fault("commit_message"@, r.commit_message, MAX_TITLE_BYTES),
            review::or_fault(
                title_fault("pull_request_title"@, r.pull_request_title, MAX_TITLE_BYTES),
                review::or_fault(lines_fault(r), artifacts_fault(r.artifact_keys)),
            ),
        ),
    )
}

fn contains_nul(value: &str) -> (r: bool)
    ensures
        r == holds(value@, '\0'),
{
    let chars = text::chars_of(value);
    let mut i: usize = 0;
    while i < chars.len()
        invariant
            chars@ == value@,
            i <= chars.len(),
            forall|j: int| 0 <= j < i ==> chars@[j] != '\0',
        decreases chars.len() - i,
    {
        if chars[i] == '\0' {
            return true;
        }
        i += 1;
    }
    false
}

/// Does the text hold a control character?
pub fn contains_control(value: &str) -> (r: bool)
    ensures
        r == has_control(value@),
{
    let chars = text::chars_of(value);
    let mut i: usize = 0;
    while i < chars.len()
        invariant
            chars@ == value@,
            i <= chars.len(),
            forall|j: int| 0 <= j < i ==> !text::is_control(#[trigger] chars@[j]),
        decreases chars.len() - i,
    {
        if text::control(chars[i]) {
            return true;
        }
        i += 1;
    }
    false
}

/// Does the text hold a control character other than a newline?
pub fn contains_control_other_than_newline(value: &str) -> (r: bool)
    ensures
        r == has_control_in_line(value@),
{
    let chars = text::chars_of(value);
    let mut i: usize = 0;
    while i < chars.len()
        invariant
            chars@ == value@,
            i <= chars.len(),
            forall|j: int|
                0 <= j < i ==> !(text::is_control(#[trigger] chars@[j]) && chars@[j] != '\n'),
        decreases chars.len() - i,
    {
        let c = chars[i];
        if text::control(c) && c != '\n' {
            return true;
        }
        i += 1;
    }
    false
}

fn validate_size(field: &str, value: &str, size: usize, max: usize, unit: &str) -> (r: Result<
    (),
    CaduceusError,
>)
    ensures
        crate::error::verdict(r) == review::unless(
            size_fault(field@, value@, size as nat, max, unit@),
        ),
{
    if contains_nul(value) {
        return Err(CaduceusError::Config(text::cat(field, " contains NUL")));
    }
    if text::trimmed(value).as_str().is_empty() {
        return Err(CaduceusError::Config(text::cat(field, " is empty")));
    }
    if size > max {
        let mut m = text::cat(field, " exceeds limit of ");
        m.append(text::decimal(max as u64).as_str());
        m.append(" ");
        m.append(unit);
        m.append(" (got ");
        m.append(text::decimal(size as u64).as_str());
        m.append(")");
        return Err(CaduceusError::Config(m));
    }
    Ok(())
}

/// Check a required text of at most `max` bytes.
pub fn validate_required_string(field: &str, value: &str, max: usize) -> (r: Result<
    (),
    CaduceusError,
>)
    ensures
        crate::error::verdict(r) == review::unless(text_fault(field@, value@, max)),
{
    validate_size(field, value, text::byte_len(value), max, "bytes")
}

/// Check a required text of at most `max` characters.
pub fn validate_required_title(field: &str, value: &str, max: usize) -> (r: Result<
    (),
    CaduceusError,
>)
    ensures
        crate::error::verdict(r) == review::unless(title_fault(field@, value@, max)),
{
    validate_size(field, value, text::chars_of(value).len(), max, "characters")
}

/// Check the keys of the artifacts.
pub fn validate_artifacts(artifacts: &Vec<Artifact>) -> (r: Result<(), CaduceusError>)
    ensures
        crate::error::verdict(r) == review::unless(
            artifacts_fault(artifacts@.map_values(|a: Artifact| a.key@)),
        ),
{
    let ghost keys = artifacts@.map_values(|a: Artifact| a.key@);
    if artifacts.len() > MAX_ARTIFACTS {
        let mut m = text::cat(
            "artifacts exceeds limit of ",
            text::decimal(MAX_ARTIFACTS as u64).as_str(),
        );
        m.append(" entries (got ");
        m.append(text::decimal(artifacts.len() as u64).as_str());
        m.append(")");
        return Err(CaduceusError::Config(m));
    }
    let mut i: usize = 0;
    while i < artifacts.len()
        invariant
            keys == artifacts@.map_values(|a: Artifact| a.key@),
            artifacts.len() <= MAX_ARTIFACTS,
            i <= artifacts.len(),
            keys_fault(keys, 0) == keys_fault(keys, i as int),
        decreases artifacts.len() - i,
    {
        let key = artifacts[i].key.as_str();
        proof {
            assert(keys[i as int] == key@);
        }
        let n = text::chars_of(key).len();
        if n == 0 {
            return Err(CaduceusError::Config("artifact key is empty".to_owned()));
        }
        if n > MAX_ARTIFACT_KEY_LEN {
            let mut m = text::cat(
                "artifact key exceeds limit of ",
                text::decimal(MAX_ARTIFACT_KEY_LEN as u64).as_str(),
            );
            m.append(" chars (got ");
            m.append(text::decimal(n as u64).as_str());
            m.append(")");
            return Err(CaduceusError::Config(m));
        }
        if contains_control(key) {
            return Err(
                CaduceusError::Config("artifact key contains control characters".to_owned()),
            );
        }
        i += 1;
    }
    Ok(())
}

/// Check a result. The rules are the same for every issue.
pub fn validate_worker_result(result: &WorkerResult, _issue: &IssueKey) -> (r: Result<
    (),
    CaduceusError,
>)
    ensures
        crate::error::verdict(r) == review::unless(result_fault(result@)),
{
    match validate_required_string("summary", result.summary.as_str(), MAX_SUMMARY_BYTES) {
        Err(e) => return Err(e),
        Ok(()) => {},
    }
    match validate_required_title(
        "commit_message",
        result.commit_message.as_str(),
        MAX_TITLE_BYTES,
    ) {
        Err(e) => return Err(e),
        Ok(()) => {},
    }
    match validate_required_title(
        "pull_request_title",
        result.pull_request_title.as_str(),
        MAX_TITLE_BYTES,
    ) {
        Err(e) => return Err(e),
        Ok(()) => {},
    }
    if contains_control_other_than_newline(result.commit_message.as_str()) {
        return Err(
            CaduceusError::Config("commit_message contains control characters".to_owned()),
        );
    }
    if contains_control(result.pull_request_title.as_str()) {
        return Err(
            CaduceusError::Config("pull_request_title contains control characters".to_owned()),
        );
    }
    validate_artifacts(&result.artifacts)
}

// ---------------------------------------------------------------------------
// The file
// ---------------------------------------------------------------------------

/// A result file as it was opened; errors carry their texts. Links are not
/// followed.
pub enum ResultFile {
    OpenFailed(String),
    StatFailed(String),
    /// What the open file is, its size, and what was read of it.
    Opened { is_file: bool, size: u64, body: Result<Vec<u8>, String> },
}

/// What is read of a file within the cap, or why it is not.
pub open spec fn capped(file: ResultFile, path: Seq<char>, cap: u64) -> Result<Seq<u8>, Fault> {
    match file {
        ResultFile::OpenFailed(e) => Err(Fault::Config("open "@ + path + ": "@ + e@)),
        ResultFile::StatFailed(e) => Err(Fault::Config("stat "@ + path + ": "@ + e@)),
        ResultFile::Opened { is_file, size, body } => if !is_file {
            Err(Fault::Config(path + " is not a regular file"@))
        } else if size > cap {
            Err(
                Fault::Config(
                    path + " exceeds cap of "@ + text::dec(cap as nat) + " bytes (got "@
                        + text::dec(size as nat) + ")"@,
                ),
            )
        } else {
            match body {
                Ok(b) => Ok(b@),
                Err(e) => Err(Fault::Config("read "@ + path + ": "@ + e@)),
            }
        },
    }
}

fn path_error(verb: &str, path: &str, e: &str) -> (r: CaduceusError)
    ensures
        r@ == Fault::Config(verb@ + path@ + ": "@ + e@),
{
    let mut m = text::cat(verb, path);
    m.append(": ");
    m.append(e);
    CaduceusError::Config(m)
}

/// What is read of a file within the cap.
pub fn read_capped_file(file: ResultFile, path: &str, cap: u64) -> (r: Result<
    Vec<u8>,
    CaduceusError,
>)
    ensures
        match r {
            Ok(b) => capped(file, path@, cap) == Ok::<Seq<u8>, Fault>(b@),
            Err(e) => capped(file, path@, cap) == Err::<Seq<u8>, Fault>(e@),
        },
{
    match file {
        ResultFile::OpenFailed(e) => Err(path_error("open ", path, e.as_str())),
        ResultFile::StatFailed(e) => Err(path_error("stat ", path, e.as_str())),
        ResultFile::Opened { is_file, size, body } => {
            if !is_file {
                return Err(CaduceusError::Config(text::cat(path, " is not a regular file")));
            }
            if size > cap {
                let mut m = text::cat(path, " exceeds cap of ");
                m.append(text::decimal(cap).as_str());
                m.append(" bytes (got ");
                m.append(text::decimal(size).as_str());
                m.append(")");
                return Err(CaduceusError::Config(m));
            }
            match body {
                Ok(b) => Ok(b),
                Err(e) => Err(path_error("read ", path, e.as_str())),
            }
        },
    }
}

/// A worker error about a file.
pub open spec fn worker_fault(context: Seq<char>, path: Seq<char>, message: Seq<char>) -> Fault {
    Fault::Worker { context, stderr: path + ": "@ + message }
}

fn worker_error(context: &'static str, path: &str, message: &str) -> (r: CaduceusError)
    ensures
        r@ == worker_fault(context@, path@, message@),
{
    let mut m = text::cat(path, ": ");
    m.append(message);
    CaduceusError::Worker { context, stderr: m }
}

/// The bytes of a result file, as far as it may be read.
pub fn read_result_file(path: &str, file: ResultFile) -> (r: Result<Vec<u8>, CaduceusError>)
    ensures
        match r {
            Ok(b) => capped(file, path@, MAX_RESULT_FILE_BYTES) == Ok::<Seq<u8>, Fault>(b@),
            Err(e) => capped(file, path@, MAX_RESULT_FILE_BYTES) matches Err(f) && e@
                == worker_fault("read"@, path@, crate::error::message(f)),
        },
{
    match read_capped_file(file, path, MAX_RESULT_FILE_BYTES) {
        Ok(b) => Ok(b),
        Err(e) => Err(worker_error("read", path, e.message_text().as_str())),
    }
}

/// The result in the bytes of a result file. `decoded` is an error, with the
/// decoder's message, when the bytes are no result.
pub fn parse_result_file(path: &str, decoded: Result<WorkerResult, String>, issue: &IssueKey) -> (r:
    Result<WorkerResult, CaduceusError>)
    ensures
        match decoded {
            Err(m) => r matches Err(e) && e@ == worker_fault("parse"@, path@, m@),
            Ok(result) => match result_fault(result@) {
                Some(f) => r matches Err(e) && e@ == worker_fault(
                    "validate"@,
                    path@,
                    crate::error::message(f),
                ),
                None => r == Ok::<WorkerResult, CaduceusError>(result),
            },
        },
{
    match decoded {
        Err(m) => Err(worker_error("parse", path, m.as_str())),
        Ok(result) => match validate_worker_result(&result, issue) {
            Err(e) => Err(worker_error("validate", path, e.message_text().as_str())),
            Ok(()) => Ok(result),
        },
    }
}

/// A valid result has a title of one line, within its size and with something
/// to read.
pub proof fn law_a_valid_title_is_one_line(r: ResultView)
    requires
        result_fault(r) is None,
    ensures
        !holds(r.pull_request_title, '\n'),
        r.pull_request_title.len() <= MAX_TITLE_BYTES,
        text::trim(r.pull_request_title).len() > 0,
{
    if holds(r.pull_request_title, '\n') {
        let t = r.pull_request_title;
        let i = choose|i: int| 0 <= i < t.len() && t[i] == '\n';
        assert(text::is_control(t[i]));
    }
}

/// A result is valid exactly when its texts are there, hold no NUL and no control
/// character where none may be, and keep their limits.
pub proof fn law_a_valid_result_keeps_its_limits(r: ResultView)
    ensures
        result_fault(r) is None <==> {
            &&& text::trim(r.summary).len() > 0
            &&& !holds(r.summary, '\0')
            &&& text::utf8_len(r.summary) <= 65536
            &&& text::trim(r.commit_message).len() > 0
            &&& !holds(r.commit_message, '\0')
            &&& r.commit_message.len() <= 256
            &&& !has_control_in_line(r.commit_message)
            &&& text::trim(r.pull_request_title).len() > 0
            &&& !holds(r.pull_request_title, '\0')
            &&& r.pull_request_title.len() <= 256
            &&& !has_control(r.pull_request_title)
            &&& r.artifact_keys.len() <= 100
            &&& forall|i: int|
                0 <= i < r.artifact_keys.len() ==> 0 < (#[trigger] r.artifact_keys[i]).len() <= 128
                    && !has_control(r.artifact_keys[i])
        },
{
    lemma_keys_fault(r.artifact_keys, 0);
}

proof fn lemma_keys_fault(keys: Seq<Seq<char>>, i: int)
    requires
        0 <= i <= keys.len(),
    ensures
        keys_fault(keys, i) is None <==> forall|j: int|
            i <= j < keys.len() ==> 0 < (#[trigger] keys[j]).len() <= 128 && !has_control(keys[j]),
    decreases keys.len() - i,
{
    if i < keys.len() {
        lemma_keys_fault(keys, i + 1);
        assert(key_fault(keys[i]) is None <==> 0 < keys[i].len() <= 128 && !has_control(keys[i]));
    }
}

/// What is wrong with the summary is told first, and in these words.
pub proof fn law_a_bad_summary_is_told_first(r: ResultView)
    ensures
        holds(r.summary, '\0') ==> result_fault(r) == Some(
            Fault::Config("summary"@ + " contains NUL"@),
        ),
        !holds(r.summary, '\0') && text::trim(r.summary).len() == 0 ==> result_fault(r) == Some(
            Fault::Config("summary"@ + " is empty"@),
        ),
        !holds(r.summary, '\0') && text::trim(r.summary).len() > 0 && text::utf8_len(r.summary)
            > 65536 ==> result_fault(r) == Some(
            Fault::Config(
                "summary"@ + " exceeds limit of "@ + text::dec(65536) + " "@ + "bytes"@ + " (got "@
                    + text::dec(text::utf8_len(r.summary)) + ")"@,
            ),
        ),
{
}

/// A result file is read exactly when it is a regular file within the cap and
/// could be read; then it is read whole.
pub proof fn law_a_small_regular_file_is_read(file: ResultFile, path: Seq<char>, cap: u64)
    ensures
        capped(file, path, cap) is Ok <==> (file matches ResultFile::Opened { is_file, size, body }
            && is_file && size <= cap && body is Ok),
        file matches ResultFile::Opened { is_file, size, body: Ok(b) } ==> (is_file && size <= cap
            ==> capped(file, path, cap) == Ok::<Seq<u8>, Fault>(b@)),
        capped(file, path, cap) is Err ==> capped(file, path, cap)->Err_0 is Config,
{
}

/// What is said of a result whose other texts are refused.
pub proof fn law_a_refused_result_says_why(r: ResultView, key: Seq<char>)
    ensures
        r.commit_message.len() > 256 && !holds(r.commit_message, '\0') && text::trim(
            r.commit_message,
        ).len() > 0 ==> title_fault("commit_message"@, r.commit_message, 256) == Some(
            Fault::Config(
                "commit_message"@ + " exceeds limit of "@ + text::dec(256) + " "@ + "characters"@
                    + " (got "@ + text::dec(r.commit_message.len()) + ")"@,
            ),
        ),
        has_control_in_line(r.commit_message) ==> lines_fault(r) == Some(
            Fault::Config("commit_message contains control characters"@),
        ),
        !has_control_in_line(r.commit_message) && has_control(r.pull_request_title) ==> lines_fault(
            r,
        ) == Some(Fault::Config("pull_request_title contains control characters"@)),
        key.len() == 0 ==> key_fault(key) == Some(Fault::Config("artifact key is empty"@)),
        key.len() > 128 ==> key_fault(key) == Some(
            Fault::Config(
                "artifact key exceeds limit of "@ + text::dec(128) + " chars (got "@ + text::dec(
                    key.len(),
                ) + ")"@,
            ),
        ),
        0 < key.len() <= 128 && has_control(key) ==> key_fault(key) == Some(
            Fault::Config("artifact key contains control characters"@),
        ),
        r.artifact_keys.len() > 100 ==> artifacts_fault(r.artifact_keys) == Some(
            Fault::Config(
                "artifacts exceeds limit of "@ + text::dec(100) + " entries (got "@ + text::dec(
                    r.artifact_keys.len(),
                ) + ")"@,
            ),
        ),
{
}

/// What is said of a file that is not read, and of a worker that failed.
pub proof fn law_a_file_that_is_not_read_is_named(
    file: ResultFile,
    path: Seq<char>,
    cap: u64,
    context: Seq<char>,
    message: Seq<char>,
)
    ensures
        file matches ResultFile::OpenFailed(e) ==> capped(file, path, cap) == Err::<Seq<u8>, Fault>(
            Fault::Config("open "@ + path + ": "@ + e@),
        ),
        file matches ResultFile::StatFailed(e) ==> capped(file, path, cap) == Err::<Seq<u8>, Fault>(
            Fault::Config("stat "@ + path + ": "@ + e@),
        ),
        file matches ResultFile::Opened { is_file, size, body } ==> (!is_file ==> capped(
            file,
            path,
            cap,
        ) == Err::<Seq<u8>, Fault>(Fault::Config(path + " is not a regular file"@))) && (is_file
            && size > cap ==> capped(file, path, cap) == Err::<Seq<u8>, Fault>(
            Fault::Config(
                path + " exceeds cap of "@ + text::dec(cap as nat) + " bytes (got "@ + text::dec(
                    size as nat,
                ) + ")"@,
            ),
        )),
        worker_fault(context, path, message) == (Fault::Worker {
            context,
            stderr: path + ": "@ + message,
        }),
{
}

/// A result file is read up to a mebibyte, and taken exactly when it decodes and is
/// valid; then it is taken as it is.
pub proof fn law_a_result_is_taken_as_it_is(
    path: &str,
    file: ResultFile,
    bytes: Result<Vec<u8>, CaduceusError>,
    decoded: Result<WorkerResult, String>,
    issue: &IssueKey,
    r: Result<WorkerResult, CaduceusError>,
)
    requires
        call_ensures(read_result_file, (path, file), bytes),
        call_ensures(parse_result_file, (path, decoded, issue), r),
    ensures
        bytes is Ok <==> (file matches ResultFile::Opened { is_file, size, body } && is_file
            && size <= 1048576 && body is Ok),
        bytes matches Err(e) ==> e@ is Worker,
        r is Ok <==> decoded is Ok && result_fault(decoded->Ok_0@) is None,
        r is Ok ==> r->Ok_0 == decoded->Ok_0,
        decoded matches Err(m) ==> (r matches Err(e) && e@ == Fault::Worker {
            context: "parse"@,
            stderr: path@ + ": "@ + m@,
        }),
{
}

} // verus!
