//! Is the host ready to run workers in a sandbox?
//!
//! Readiness is what a host shows at the moment it is asked: observations go
//! in, one finding for each mandatory check comes out, and the verdict follows
//! from the findings alone.

use vstd::prelude::*;

use crate::config::{Config, SandboxEngine, SandboxNetwork};
use crate::error::{CaduceusError, FailureView, Fault, ReadinessFailure};
use crate::json;
use crate::json::{FieldView, Json, JsonView};
use crate::path;
use crate::text;
use crate::time::Timestamp;

verus! {

/// Version of the report's form.
pub const REPORT_SCHEMA_VERSION: &'static str = "1.0.0";

/// Seconds after which a probe of the engine is given up.
pub const CHECK_TIMEOUT_SECONDS: u64 = 15;

// ---------------------------------------------------------------------------
// Findings
// ---------------------------------------------------------------------------

/// The mandatory checks, in the order of a report.
#[derive(Clone, Copy, Debug, PartialEq, Eq, PartialOrd, Ord, Structural)]
pub enum CheckId {
    Platform,
    Engine,
    Mode,
    Namespace,
    Resources,
    Filesystem,
    Image,
    Network,
    Primitives,
}

impl CheckId {
    /// The checks in order.
    pub open spec fn in_order() -> Seq<CheckId> {
        seq![
            CheckId::Platform,
            CheckId::Engine,
            CheckId::Mode,
            CheckId::Namespace,
            CheckId::Resources,
            CheckId::Filesystem,
            CheckId::Image,
            CheckId::Network,
            CheckId::Primitives,
        ]
    }

    /// The checks in order.
    pub fn all() -> (r: Vec<CheckId>)
        ensures
            r@ == CheckId::in_order(),
    {
        vec![
            CheckId::Platform,
            CheckId::Engine,
            CheckId::Mode,
            CheckId::Namespace,
            CheckId::Resources,
            CheckId::Filesystem,
            CheckId::Image,
            CheckId::Network,
            CheckId::Primitives,
        ]
    }

    /// The name of the check.
    pub open spec fn label(self) -> Seq<char> {
        match self {
            CheckId::Platform => "platform"@,
            CheckId::Engine => "engine"@,
            CheckId::Mode => "mode"@,
            CheckId::Namespace => "namespace"@,
            CheckId::Resources => "resources"@,
            CheckId::Filesystem => "filesystem"@,
            CheckId::Image => "image"@,
            CheckId::Network => "network"@,
            CheckId::Primitives => "primitives"@,
        }
    }

    /// The name of the check.
    pub fn as_str(self) -> (r: &'static str)
        ensures
            r@ == self.label(),
    {
        match self {
            CheckId::Platform => "platform",
            CheckId::Engine => "engine",
            CheckId::Mode => "mode",
            CheckId::Namespace => "namespace",
            CheckId::Resources => "resources",
            CheckId::Filesystem => "filesystem",
            CheckId::Image => "image",
            CheckId::Network => "network",
            CheckId::Primitives => "primitives",
        }
    }
}

/// How a check came out.
#[derive(Clone, Copy, Debug, PartialEq, Eq, Structural)]
pub enum CheckStatus {
    Pass,
    Fail,
}

/// The finding of a check.
#[derive(Debug)]
pub struct CheckResult {
    pub id: CheckId,
    pub status: CheckStatus,
    pub detail: String,
    pub remediation: Option<String>,
}

/// A [`CheckResult`] with its texts as character sequences.
pub struct CheckView {
    pub id: CheckId,
    pub status: CheckStatus,
    pub detail: Seq<char>,
    pub remediation: Option<Seq<char>>,
}

impl View for CheckResult {
    type V = CheckView;

    open spec fn view(&self) -> CheckView {
        CheckView {
            id: self.id,
            status: self.status,
            detail: self.detail@,
            remediation: text::opt(self.remediation),
        }
    }
}

impl Clone for CheckResult {
    fn clone(&self) -> (r: Self)
        ensures
            r == *self,
    {
        CheckResult {
            id: self.id,
            status: self.status,
            detail: self.detail.clone(),
            remediation: self.remediation.clone(),
        }
    }
}

/// A check that passed.
pub open spec fn passed(id: CheckId, detail: Seq<char>) -> CheckView {
    CheckView { id, status: CheckStatus::Pass, detail, remediation: None }
}

/// A check that failed, and what to do about it.
pub open spec fn failed(id: CheckId, detail: Seq<char>, remediation: Seq<char>) -> CheckView {
    CheckView { id, status: CheckStatus::Fail, detail, remediation: Some(remediation) }
}

impl CheckResult {
    fn pass(id: CheckId, detail: String) -> (r: CheckResult)
        ensures
            r@ == passed(id, detail@),
    {
        CheckResult { id, status: CheckStatus::Pass, detail, remediation: None }
    }

    fn fail(id: CheckId, detail: String, remediation: String) -> (r: CheckResult)
        ensures
            r@ == failed(id, detail@, remediation@),
    {
        CheckResult { id, status: CheckStatus::Fail, detail, remediation: Some(remediation) }
    }
}

/// Findings by their views.
pub open spec fn check_views(v: Seq<CheckResult>) -> Seq<CheckView> {
    v.map_values(|c: CheckResult| c@)
}

/// The findings among the first `n` that failed, in order.
pub open spec fn failing(checks: Seq<CheckView>, n: int) -> Seq<CheckView>
    decreases n,
{
    if n <= 0 {
        Seq::empty()
    } else if checks[n - 1].status == CheckStatus::Fail {
        failing(checks, n - 1).push(checks[n - 1])
    } else {
        failing(checks, n - 1)
    }
}

/// Does every check pass?
pub open spec fn all_pass(checks: Seq<CheckView>) -> bool {
    forall|i: int| 0 <= i < checks.len() ==> (#[trigger] checks[i]).status == CheckStatus::Pass
}

// ---------------------------------------------------------------------------
// Report
// ---------------------------------------------------------------------------

/// The verdict of the mandatory checks.
#[derive(Clone, Copy, Debug, PartialEq, Eq, Structural)]
pub enum ReadinessVerdict {
    Ready,
    Unavailable,
}

/// How a diagnostic run came out. It takes no part in the verdict.
#[derive(Clone, Copy, Debug, PartialEq, Eq, Structural)]
pub enum DiagnosticStatus {
    Pass,
    Skip,
    Failure,
}

/// A diagnostic run beside the mandatory checks.
#[derive(Debug)]
pub struct DiagnosticCanary {
    pub status: DiagnosticStatus,
    pub detail: String,
}

/// The facts of an image that is present and verified, as its adapter wrote
/// them.
#[derive(Debug)]
pub struct ImageAcquisition {
    pub facts: String,
}

/// The report on a host.
#[derive(Debug)]
pub struct ReadinessReport {
    pub schema_version: String,
    pub generated_at: Timestamp,
    pub verdict: ReadinessVerdict,
    pub checks: Vec<CheckResult>,
    pub diagnostic_canary: Option<DiagnosticCanary>,
    pub verified_image: Option<ImageAcquisition>,
}

/// A [`DiagnosticCanary`] with its text as a character sequence.
pub struct CanaryView {
    pub status: DiagnosticStatus,
    pub detail: Seq<char>,
}

/// A [`ReadinessReport`] with its texts as character sequences.
pub struct ReportView {
    pub schema_version: Seq<char>,
    pub generated_at: Timestamp,
    pub verdict: ReadinessVerdict,
    pub checks: Seq<CheckView>,
    pub diagnostic_canary: Option<CanaryView>,
    pub verified_image: Option<Seq<char>>,
}

/// An optional image by its facts.
pub open spec fn image_facts(image: Option<ImageAcquisition>) -> Option<Seq<char>> {
    match image {
        Some(i) => Some(i.facts@),
        None => None,
    }
}

impl View for ReadinessReport {
    type V = ReportView;

    open spec fn view(&self) -> ReportView {
        ReportView {
            schema_version: self.schema_version@,
            generated_at: self.generated_at,
            verdict: self.verdict,
            checks: check_views(self.checks@),
            diagnostic_canary: match self.diagnostic_canary {
                Some(c) => Some(CanaryView { status: c.status, detail: c.detail@ }),
                None => None,
            },
            verified_image: image_facts(self.verified_image),
        }
    }
}

/// The verdict on findings: ready where all of them pass.
pub open spec fn verdict_of(checks: Seq<CheckView>) -> ReadinessVerdict {
    if all_pass(checks) {
        ReadinessVerdict::Ready
    } else {
        ReadinessVerdict::Unavailable
    }
}

/// The report on findings.
pub open spec fn report_of(
    checks: Seq<CheckView>,
    now: Timestamp,
    image: Option<Seq<char>>,
) -> ReportView {
    ReportView {
        schema_version: REPORT_SCHEMA_VERSION@,
        generated_at: now,
        verdict: verdict_of(checks),
        checks,
        diagnostic_canary: None,
        verified_image: image,
    }
}

/// The report on findings. The verdict follows from them alone.
pub fn assemble_report(checks: Vec<CheckResult>, now: Timestamp) -> (r: ReadinessReport)
    ensures
        r@ == report_of(check_views(checks@), now, None),
{
    let mut ready = true;
    let mut i: usize = 0;
    while i < checks.len()
        invariant
            i <= checks.len(),
            ready == (forall|j: int|
                0 <= j < i ==> (#[trigger] check_views(checks@)[j]).status == CheckStatus::Pass),
        decreases checks.len() - i,
    {
        proof {
            assert(check_views(checks@)[i as int] == checks@[i as int]@);
        }
        if !matches!(checks[i].status, CheckStatus::Pass) {
            ready = false;
        }
        i += 1;
    }
    let verdict = if ready {
        ReadinessVerdict::Ready
    } else {
        ReadinessVerdict::Unavailable
    };
    ReadinessReport {
        schema_version: REPORT_SCHEMA_VERSION.to_owned(),
        generated_at: now,
        verdict,
        checks,
        diagnostic_canary: None,
        verified_image: None,
    }
}

impl ReadinessReport {
    /// The findings that failed, in order.
    pub fn mandatory_failures(&self) -> (r: Vec<CheckResult>)
        ensures
            check_views(r@) == failing(self@.checks, self@.checks.len() as int),
    {
        let mut out: Vec<CheckResult> = Vec::new();
        let mut i: usize = 0;
        proof {
            assert(check_views(out@) =~= failing(self@.checks, 0));
        }
        while i < self.checks.len()
            invariant
                i <= self.checks.len(),
                check_views(out@) == failing(self@.checks, i as int),
            decreases self.checks.len() - i,
        {
            proof {
                assert(self@.checks[i as int] == self.checks@[i as int]@);
            }
            if matches!(self.checks[i].status, CheckStatus::Fail) {
                let ghost before = out@;
                out.push(self.checks[i].clone());
                proof {
                    assert(check_views(out@) =~= check_views(before).push(
                        self.checks@[i as int]@,
                    ));
                }
            }
            i += 1;
        }
        out
    }
}

/// The line of a finding, and the line of its remediation.
pub open spec fn check_lines(c: CheckView) -> Seq<char> {
    let label = match c.status {
        CheckStatus::Pass => "PASS"@,
        CheckStatus::Fail => "FAIL"@,
    };
    let line = "  ["@ + label + "] "@ + c.id.label() + ": "@ + c.detail + "\n"@;
    match c.remediation {
        Some(r) => line + ("         remediation: "@ + r + "\n"@),
        None => line,
    }
}

/// The lines of the first `n` findings, under the heading.
pub open spec fn lines_of(checks: Seq<CheckView>, n: int) -> Seq<char>
    decreases n,
{
    if n <= 0 {
        "caduceus doctor\n"@
    } else {
        lines_of(checks, n - 1) + check_lines(checks[n - 1])
    }
}

/// The report as a person reads it.
pub open spec fn rendered(report: ReportView) -> Seq<char> {
    let verdict = match report.verdict {
        ReadinessVerdict::Ready => "READY"@,
        ReadinessVerdict::Unavailable => "UNAVAILABLE"@,
    };
    let body = lines_of(report.checks, report.checks.len() as int) + ("  readiness: "@ + verdict
        + "\n"@);
    match report.diagnostic_canary {
        Some(c) => {
            let label = match c.status {
                DiagnosticStatus::Pass => "PASS"@,
                DiagnosticStatus::Skip => "SKIP"@,
                DiagnosticStatus::Failure => "FAILURE"@,
            };
            body + ("  diagnostic canary: "@ + label + ": "@ + c.detail + "\n"@)
        },
        None => body,
    }
}

fn lines_for(c: &CheckResult) -> (r: String)
    ensures
        r@ == check_lines(c@),
{
    let label = match c.status {
        CheckStatus::Pass => "PASS",
        CheckStatus::Fail => "FAIL",
    };
    let mut line = text::cat("  [", label);
    line.append("] ");
    line.append(c.id.as_str());
    line.append(": ");
    line.append(c.detail.as_str());
    line.append("\n");
    match &c.remediation {
        Some(r) => {
            let mut more = text::cat("         remediation: ", r.as_str());
            more.append("\n");
            line.append(more.as_str());
        },
        None => {},
    }
    line
}

/// The report as a person reads it: a line for each finding, the verdict, and
/// the diagnostic run apart from both.
pub fn render_human(report: &ReadinessReport) -> (r: String)
    ensures
        r@ == rendered(report@),
{
    let mut output = "caduceus doctor\n".to_owned();
    let mut i: usize = 0;
    while i < report.checks.len()
        invariant
            i <= report.checks.len(),
            output@ == lines_of(report@.checks, i as int),
        decreases report.checks.len() - i,
    {
        proof {
            assert(report@.checks[i as int] == report.checks@[i as int]@);
        }
        output.append(lines_for(&report.checks[i]).as_str());
        i += 1;
    }
    let mut verdict = text::cat(
        "  readiness: ",
        match report.verdict {
            ReadinessVerdict::Ready => "READY",
            ReadinessVerdict::Unavailable => "UNAVAILABLE",
        },
    );
    verdict.append("\n");
    output.append(verdict.as_str());
    match &report.diagnostic_canary {
        Some(c) => {
            let mut line = text::cat(
                "  diagnostic canary: ",
                match c.status {
                    DiagnosticStatus::Pass => "PASS",
                    DiagnosticStatus::Skip => "SKIP",
                    DiagnosticStatus::Failure => "FAILURE",
                },
            );
            line.append(": ");
            line.append(c.detail.as_str());
            line.append("\n");
            output.append(line.as_str());
        },
        None => {},
    }
    output
}

// ---------------------------------------------------------------------------
// Engine
// ---------------------------------------------------------------------------

/// How a command of the engine ended.
pub enum CommandOutcome {
    TimedOut,
    /// It did not start, with the system's message.
    NotStarted(String),
    /// It ended; `status` is how the system words its status.
    Exited { success: bool, status: String, stdout: String, stderr: String },
}

/// What a command of the engine answers, or why it does not.
pub open spec fn answer_of(o: CommandOutcome) -> Result<Seq<char>, Seq<char>> {
    match o {
        CommandOutcome::TimedOut => Err("engine command timed out"@),
        CommandOutcome::NotStarted(m) => Err("engine command could not start: "@ + m@),
        CommandOutcome::Exited { success, status, stdout, stderr } => if success {
            Ok(text::trim(stdout@))
        } else if text::trim(stderr@).len() == 0 {
            Err("engine command exited with "@ + status@)
        } else {
            Err(text::trim(stderr@))
        },
    }
}

/// A result of texts by its views.
pub open spec fn texts_of(r: Result<String, String>) -> Result<Seq<char>, Seq<char>> {
    match r {
        Ok(s) => Ok(s@),
        Err(s) => Err(s@),
    }
}

/// What a command of the engine answers, or why it does not.
pub fn engine_answer(o: &CommandOutcome) -> (r: Result<String, String>)
    ensures
        texts_of(r) == answer_of(*o),
{
    match o {
        CommandOutcome::TimedOut => Err("engine command timed out".to_owned()),
        CommandOutcome::NotStarted(m) => Err(
            text::cat("engine command could not start: ", m.as_str()),
        ),
        CommandOutcome::Exited { success, status, stdout, stderr } => {
            if *success {
                return Ok(text::trimmed(stdout.as_str()));
            }
            let message = text::trimmed(stderr.as_str());
            if message.as_str().is_empty() {
                Err(text::cat("engine command exited with ", status.as_str()))
            } else {
                Err(message)
            }
        },
    }
}

/// How the engine is asked for its mode.
pub fn mode_format(engine: SandboxEngine) -> (r: &'static str)
    ensures
        match engine {
            SandboxEngine::Docker => r@ == "{{.SecurityOptions}}"@,
            SandboxEngine::Podman => r@ == "{{.Host.Security.Rootless}}"@,
        },
{
    match engine {
        SandboxEngine::Docker => "{{.SecurityOptions}}",
        SandboxEngine::Podman => "{{.Host.Security.Rootless}}",
    }
}

/// How the engine is asked for all that it knows of itself.
pub fn json_format(engine: SandboxEngine) -> (r: &'static str)
    ensures
        match engine {
            SandboxEngine::Docker => r@ == "{{json .}}"@,
            SandboxEngine::Podman => r@ == "json"@,
        },
{
    match engine {
        SandboxEngine::Docker => "{{json .}}",
        SandboxEngine::Podman => "json",
    }
}

/// Under whose rights an engine runs.
#[derive(Clone, Copy, Debug, PartialEq, Eq, Structural)]
pub enum EngineMode {
    Rootful,
    Rootless,
}

/// The name of a mode.
pub open spec fn mode_label(mode: EngineMode) -> Seq<char> {
    match mode {
        EngineMode::Rootful => "rootful"@,
        EngineMode::Rootless => "rootless"@,
    }
}

/// The name of a mode.
pub fn mode_name(mode: EngineMode) -> (r: &'static str)
    ensures
        r@ == mode_label(mode),
{
    match mode {
        EngineMode::Rootful => "rootful",
        EngineMode::Rootless => "rootless",
    }
}

/// The mode of an engine and whether it remaps user namespaces, or why that
/// could not be read.
pub struct ModeReading {
    pub reading: Result<(EngineMode, bool), String>,
}

/// What an engine says of itself.
pub struct EngineInfo {
    pub mode: ModeReading,
    pub json: Json,
}

/// An [`EngineInfo`] with its texts as character sequences.
pub struct EngineInfoView {
    pub mode: Result<(EngineMode, bool), Seq<char>>,
    pub json: JsonView,
}

/// A reading by its view.
pub open spec fn reading_of(m: ModeReading) -> Result<(EngineMode, bool), Seq<char>> {
    match m.reading {
        Ok(p) => Ok(p),
        Err(e) => Err(e@),
    }
}

impl View for EngineInfo {
    type V = EngineInfoView;

    open spec fn view(&self) -> EngineInfoView {
        EngineInfoView { mode: reading_of(self.mode), json: self.json@ }
    }
}

/// What the two answers of an engine say of it, or why they say nothing.
pub open spec fn info_of(
    mode_answer: Result<Seq<char>, Seq<char>>,
    mode: Result<(EngineMode, bool), Seq<char>>,
    json_answer: Result<Seq<char>, Seq<char>>,
) -> Result<EngineInfoView, Seq<char>> {
    match (mode_answer, json_answer) {
        (Err(e), _) => Err(e),
        (Ok(_), Err(e)) => Err(e),
        (Ok(_), Ok(body)) => match json::document(body) {
            Err(e) => Err("engine info JSON is invalid: "@ + e),
            Ok(j) => Ok(EngineInfoView { mode, json: j }),
        },
    }
}

/// Information on an engine by its view.
pub open spec fn info_seen(r: Result<EngineInfo, String>) -> Result<EngineInfoView, Seq<char>> {
    match r {
        Ok(i) => Ok(i@),
        Err(e) => Err(e@),
    }
}

/// What the two answers of an engine say of it: `mode` is what was read from
/// the first answer.
pub fn engine_info(
    mode_answer: Result<String, String>,
    mode: ModeReading,
    json_answer: Result<String, String>,
) -> (r: Result<EngineInfo, String>)
    ensures
        info_seen(r) == info_of(texts_of(mode_answer), reading_of(mode), texts_of(json_answer)),
{
    match mode_answer {
        Err(e) => {
            return Err(e);
        },
        Ok(_) => {},
    }
    match json_answer {
        Err(e) => Err(e),
        Ok(body) => match json::parse_json(body.as_str()) {
            Err(e) => Err(text::cat("engine info JSON is invalid: ", e.as_str())),
            Ok(json) => Ok(EngineInfo { mode, json }),
        },
    }
}

/// The text of the first of the keys from `k` on under which the value has one.
pub open spec fn keyed(j: JsonView, keys: Seq<Seq<char>>, k: int) -> Option<Seq<char>>
    decreases keys.len() - k,
{
    if k < 0 || k >= keys.len() {
        None
    } else {
        match j.field_text(keys[k]) {
            Some(s) => Some(s),
            None => keyed(j, keys, k + 1),
        }
    }
}

/// The first text under one of the keys, the value itself before what is in it.
pub open spec fn found(j: JsonView, keys: Seq<Seq<char>>) -> Option<Seq<char>>
    decreases j, 0int,
{
    match j {
        JsonView::Object(fields) => match keyed(j, keys, 0) {
            Some(s) => Some(s),
            None => found_in_fields(fields, keys, 0),
        },
        JsonView::Array(items) => found_in_items(items, keys, 0),
        _ => None,
    }
}

/// The first text under one of the keys in the members from `i` on.
pub open spec fn found_in_fields(fields: Seq<FieldView>, keys: Seq<Seq<char>>, i: int) -> Option<
    Seq<char>,
>
    decreases fields, fields.len() - i,
{
    if i < 0 || i >= fields.len() {
        None
    } else {
        match found(fields[i].value, keys) {
            Some(s) => Some(s),
            None => found_in_fields(fields, keys, i + 1),
        }
    }
}

/// The first text under one of the keys in the items from `i` on.
pub open spec fn found_in_items(items: Seq<JsonView>, keys: Seq<Seq<char>>, i: int) -> Option<
    Seq<char>,
>
    decreases items, items.len() - i,
{
    if i < 0 || i >= items.len() {
        None
    } else {
        match found(items[i], keys) {
            Some(s) => Some(s),
            None => found_in_items(items, keys, i + 1),
        }
    }
}

/// The first text under one of the keys, the value itself before what is in it.
pub fn find_string(value: &Json, keys: &Vec<String>) -> (r: Option<String>)
    ensures
        text::opt(r) == found(value@, text::texts(keys@)),
    decreases value,
{
    let ghost names = text::texts(keys@);
    match value {
        Json::Object(fields) => {
            let mut k: usize = 0;
            while k < keys.len()
                invariant
                    names == text::texts(keys@),
                    k <= keys.len(),
                    keyed(value@, names, 0) == keyed(value@, names, k as int),
                decreases keys.len() - k,
            {
                proof {
                    assert(names[k as int] == keys@[k as int]@);
                }
                match value.get_text(keys[k].as_str()) {
                    Some(s) => {
                        return Some(s);
                    },
                    None => {},
                }
                k += 1;
            }
            let ghost all = json::members(value@);
            let mut i: usize = 0;
            while i < fields.len()
                invariant
                    names == text::texts(keys@),
                    *value == Json::Object(*fields),
                    value@ == JsonView::Object(all),
                    all.len() == fields.len(),
                    forall|j: int|
                        0 <= j < fields.len() ==> (#[trigger] all[j]).value == fields@[j].value@,
                    i <= fields.len(),
                    found(value@, names) == found_in_fields(all, names, i as int),
                decreases fields.len() - i,
            {
                proof {
                    assert(all[i as int].value == fields@[i as int].value@);
                }
                match find_string(&fields[i].value, keys) {
                    Some(s) => {
                        return Some(s);
                    },
                    None => {},
                }
                i += 1;
            }
            None
        },
        Json::Array(items) => {
            let ghost all = value@->Array_0;
            let mut i: usize = 0;
            while i < items.len()
                invariant
                    names == text::texts(keys@),
                    *value == Json::Array(*items),
                    value@ == JsonView::Array(all),
                    all.len() == items.len(),
                    forall|j: int| 0 <= j < items.len() ==> #[trigger] all[j] == items@[j]@,
                    i <= items.len(),
                    found(value@, names) == found_in_items(all, names, i as int),
                decreases items.len() - i,
            {
                proof {
                    assert(all[i as int] == items@[i as int]@);
                }
                match find_string(&items[i], keys) {
                    Some(s) => {
                        return Some(s);
                    },
                    None => {},
                }
                i += 1;
            }
            None
        },
        _ => None,
    }
}

// ---------------------------------------------------------------------------
// Host
// ---------------------------------------------------------------------------

/// Where the probes look; the engine's executable may be given.
#[derive(Debug)]
pub struct ProbeOptions {
    pub cgroup_root: String,
    pub engine_binary: Option<String>,
}

impl Default for ProbeOptions {
    fn default() -> (r: Self)
        ensures
            r.cgroup_root@ == "/sys/fs/cgroup"@,
            r.engine_binary is None,
    {
        ProbeOptions { cgroup_root: "/sys/fs/cgroup".to_owned(), engine_binary: None }
    }
}

/// What a path on the host is.
#[derive(Clone, Copy, Debug)]
pub struct PathFacts {
    pub is_symlink: bool,
    pub is_dir: bool,
    /// Its mode, with the type bits.
    pub mode: u32,
    /// Its owner.
    pub uid: u32,
}

/// What a path on the host is, or the system's message.
#[derive(Debug)]
pub struct PathObservation {
    pub facts: Result<PathFacts, String>,
}

/// The free space of a file system, and a path on it.
#[derive(Debug)]
pub struct DiskSample {
    pub representative_path: String,
    pub free_bytes: u64,
}

/// The storage of a host.
pub struct StorageObservation {
    /// The state directory.
    pub state: PathObservation,
    /// The repository storage.
    pub repository_storage: PathObservation,
    /// The directory of worktrees.
    pub worktree: PathObservation,
    /// The user that the daemon runs as.
    pub daemon_uid: u32,
    /// The free space of the file systems of the three, or the probe's message.
    pub samples: Result<Vec<DiskSample>, String>,
}

/// The resource controllers of a host.
pub struct CgroupObservation {
    /// The controllers that `cgroup.controllers` lists, or the system's
    /// message.
    pub controllers: Result<String, String>,
    /// Whether there is a directory for each of the three.
    pub has_cpu: bool,
    pub has_memory: bool,
    pub has_pids: bool,
}

/// The platform of a host.
#[derive(Debug)]
pub struct HostPlatform {
    pub architecture: String,
    pub variant: Option<String>,
}

/// An image, or why it could not be acquired.
pub struct ImageObservation {
    pub acquisition: Result<ImageAcquisition, String>,
}

/// What a host shows.
pub struct LiveObservations {
    /// The name of its operating system.
    pub host_os: String,
    /// Where the engine's executable is.
    pub engine_path: Option<String>,
    /// What the engine says of itself, or why it says nothing.
    pub engine: Result<EngineInfo, String>,
    pub cgroup: CgroupObservation,
    pub storage: StorageObservation,
    /// The answer on the default network.
    pub network: Result<String, String>,
    pub image: ImageObservation,
    pub platform: HostPlatform,
}

/// The check of the platform.
pub open spec fn platform_check(
    engine: SandboxEngine,
    os: Seq<char>,
    engine_path: Option<Seq<char>>,
) -> CheckView {
    if os != "linux"@ {
        failed(
            CheckId::Platform,
            "unsupported host platform "@ + os,
            "run OCI workers on a supported Linux host"@,
        )
    } else {
        match engine_path {
            Some(p) => passed(
                CheckId::Platform,
                "Linux host; "@ + engine.binary() + " resolves to "@ + p,
            ),
            None => failed(
                CheckId::Platform,
                engine.binary() + " is not executable on PATH"@,
                "install "@ + engine.binary() + " and make it available on PATH"@,
            ),
        }
    }
}

/// Is the host of the right kind, with the engine on it?
pub fn check_platform(engine: SandboxEngine, os: &str, engine_path: &Option<String>) -> (r:
    CheckResult)
    ensures
        r@ == platform_check(engine, os@, text::opt(*engine_path)),
{
    if !text::same(os, "linux") {
        return CheckResult::fail(
            CheckId::Platform,
            text::cat("unsupported host platform ", os),
            "run OCI workers on a supported Linux host".to_owned(),
        );
    }
    match engine_path {
        Some(p) => {
            let mut m = text::cat("Linux host; ", engine.binary_name());
            m.append(" resolves to ");
            m.append(p.as_str());
            CheckResult::pass(CheckId::Platform, m)
        },
        None => {
            let mut fix = text::cat("install ", engine.binary_name());
            fix.append(" and make it available on PATH");
            CheckResult::fail(
                CheckId::Platform,
                text::cat(engine.binary_name(), " is not executable on PATH"),
                fix,
            )
        },
    }
}

/// The version of the engine, as the detail of a finding.
pub open spec fn version_of(j: JsonView) -> Seq<char> {
    match found(j, seq!["ServerVersion"@, "Version"@]) {
        Some(v) => " (server "@ + v + ")"@,
        None => Seq::empty(),
    }
}

/// The check of the engine.
pub open spec fn engine_check(
    engine: SandboxEngine,
    info: Result<EngineInfoView, Seq<char>>,
) -> CheckView {
    match info {
        Ok(i) => passed(
            CheckId::Engine,
            engine.binary() + " daemon is reachable"@ + version_of(i.json),
        ),
        Err(e) => failed(
            CheckId::Engine,
            e,
            "start the "@ + engine.binary() + " daemon and confirm `"@ + engine.binary()
                + "` succeeds"@,
        ),
    }
}

/// A check that the engine's silence leaves open.
pub open spec fn not_run(id: CheckId) -> CheckView {
    failed(
        id,
        "engine-dependent check could not run"@,
        "repair engine reachability and rerun `caduceus doctor`"@,
    )
}

/// The check of the engine's mode.
pub open spec fn mode_check(info: Result<EngineInfoView, Seq<char>>) -> CheckView {
    match info {
        Err(_) => not_run(CheckId::Mode),
        Ok(i) => match i.mode {
            Ok(p) => passed(CheckId::Mode, mode_label(p.0) + " mode detected"@),
            Err(e) => failed(
                CheckId::Mode,
                e,
                "run the configured engine's info command and repair the daemon configuration"@,
            ),
        },
    }
}

/// The check of the engine's namespaces.
pub open spec fn namespace_check(info: Result<EngineInfoView, Seq<char>>) -> CheckView {
    match info {
        Err(_) => not_run(CheckId::Namespace),
        Ok(i) => match i.mode {
            Ok(p) => if p.1 {
                failed(
                    CheckId::Namespace,
                    "rootful engine reports userns-remap"@,
                    "disable userns-remap or switch the engine to a supported rootless configuration"@,
                )
            } else {
                passed(CheckId::Namespace, "engine namespace mapping is supported"@)
            },
            Err(_) => failed(
                CheckId::Namespace,
                "namespace safety could not be evaluated"@,
                "make the engine info probe succeed before dispatching OCI workers"@,
            ),
        },
    }
}

fn two(a: &str, b: &str) -> (r: Vec<String>)
    ensures
        text::texts(r@) == seq![a@, b@],
{
    let mut v: Vec<String> = Vec::new();
    v.push(a.to_owned());
    v.push(b.to_owned());
    proof {
        assert(text::texts(v@) =~= seq![a@, b@]);
    }
    v
}

/// Does the engine answer?
pub fn check_engine(engine: SandboxEngine, info: &Result<EngineInfo, String>) -> (r: CheckResult)
    ensures
        r@ == engine_check(engine, info_seen(*info)),
{
    match info {
        Ok(i) => {
            let mut m = text::cat(engine.binary_name(), " daemon is reachable");
            match find_string(&i.json, &two("ServerVersion", "Version")) {
                Some(v) => {
                    let mut more = text::cat(" (server ", v.as_str());
                    more.append(")");
                    m.append(more.as_str());
                },
                None => {
                    proof {
                        assert(m@ + Seq::<char>::empty() =~= m@);
                    }
                },
            }
            CheckResult::pass(CheckId::Engine, m)
        },
        Err(e) => {
            let mut fix = text::cat("start the ", engine.binary_name());
            fix.append(" daemon and confirm `");
            fix.append(engine.binary_name());
            fix.append("` succeeds");
            CheckResult::fail(CheckId::Engine, e.clone(), fix)
        },
    }
}

fn check_not_run(id: CheckId) -> (r: CheckResult)
    ensures
        r@ == not_run(id),
{
    CheckResult::fail(
        id,
        "engine-dependent check could not run".to_owned(),
        "repair engine reachability and rerun `caduceus doctor`".to_owned(),
    )
}

/// Can the engine's mode be told?
pub fn check_mode(info: &Result<EngineInfo, String>) -> (r: CheckResult)
    ensures
        r@ == mode_check(info_seen(*info)),
{
    match info {
        Err(_) => check_not_run(CheckId::Mode),
        Ok(i) => match &i.mode.reading {
            Ok(p) => CheckResult::pass(
                CheckId::Mode,
                text::cat(mode_name(p.0), " mode detected"),
            ),
            Err(e) => CheckResult::fail(
                CheckId::Mode,
                e.clone(),
                "run the configured engine's info command and repair the daemon configuration".to_owned(),
            ),
        },
    }
}

/// Does the engine keep to namespaces that are supported?
pub fn check_namespace(info: &Result<EngineInfo, String>) -> (r: CheckResult)
    ensures
        r@ == namespace_check(info_seen(*info)),
{
    match info {
        Err(_) => check_not_run(CheckId::Namespace),
        Ok(i) => match &i.mode.reading {
            Ok(p) => if p.1 {
                CheckResult::fail(
                    CheckId::Namespace,
                    "rootful engine reports userns-remap".to_owned(),
                    "disable userns-remap or switch the engine to a supported rootless configuration".to_owned(),
                )
            } else {
                CheckResult::pass(
                    CheckId::Namespace,
                    "engine namespace mapping is supported".to_owned(),
                )
            },
            Err(_) => CheckResult::fail(
                CheckId::Namespace,
                "namespace safety could not be evaluated".to_owned(),
                "make the engine info probe succeed before dispatching OCI workers".to_owned(),
            ),
        },
    }
}

/// The names of the controllers that are missing, in order.
pub open spec fn missing(cpu: bool, memory: bool, pids: bool) -> Seq<Seq<char>> {
    (if cpu {
        Seq::<Seq<char>>::empty()
    } else {
        seq!["cpu"@]
    }) + (if memory {
        Seq::<Seq<char>>::empty()
    } else {
        seq!["memory"@]
    }) + (if pids {
        Seq::<Seq<char>>::empty()
    } else {
        seq!["pids"@]
    })
}

fn missing_names(cpu: bool, memory: bool, pids: bool) -> (r: Vec<String>)
    ensures
        text::texts(r@) == missing(cpu, memory, pids),
{
    let mut v: Vec<String> = Vec::new();
    if !cpu {
        v.push("cpu".to_owned());
    }
    if !memory {
        v.push("memory".to_owned());
    }
    if !pids {
        v.push("pids".to_owned());
    }
    proof {
        assert(text::texts(v@) =~= missing(cpu, memory, pids));
    }
    v
}

/// The check of the resource controllers: with version 2 of cgroups, those that
/// the scope lists; else, the directories of the three.
pub open spec fn resources_check(
    cgroup_root: Seq<char>,
    info: Result<EngineInfoView, Seq<char>>,
    seen: CgroupObservation,
) -> CheckView {
    match info {
        Err(_) => not_run(CheckId::Resources),
        Ok(i) => if found(i.json, seq!["CgroupVersion"@, "CgroupVersion"@]) == Some("2"@) {
            match seen.controllers {
                Ok(contents) => {
                    let names = text::words(contents@);
                    let gone = missing(
                        names.contains("cpu"@),
                        names.contains("memory"@),
                        names.contains("pids"@),
                    );
                    if gone.len() == 0 {
                        passed(CheckId::Resources, "cgroup v2 exposes cpu, memory, and pids"@)
                    } else {
                        failed(
                            CheckId::Resources,
                            "cgroup v2 is missing controller(s): "@ + text::joined(gone, ", "@),
                            "delegate cpu, memory, and pids controllers to the engine's cgroup scope"@,
                        )
                    }
                },
                Err(e) => failed(
                    CheckId::Resources,
                    "cannot read "@ + path::joined(cgroup_root, "cgroup.controllers"@) + ": "@
                        + e@,
                    "make the engine cgroup scope readable and delegate cpu, memory, and pids"@,
                ),
            }
        } else {
            let gone = missing(seen.has_cpu, seen.has_memory, seen.has_pids);
            if gone.len() == 0 {
                passed(CheckId::Resources, "cgroup controller paths are available"@)
            } else {
                failed(
                    CheckId::Resources,
                    "required cgroup controller(s) are unavailable: "@ + text::joined(
                        gone,
                        ", "@,
                    ),
                    "mount and delegate cpu, memory, and pids cgroup controllers to the engine"@,
                )
            }
        },
    }
}

/// Are the resource controllers there?
pub fn check_resources(
    options: &ProbeOptions,
    info: &Result<EngineInfo, String>,
    seen: &CgroupObservation,
) -> (r: CheckResult)
    ensures
        r@ == resources_check(options.cgroup_root@, info_seen(*info), *seen),
{
    let i = match info {
        Err(_) => {
            return check_not_run(CheckId::Resources);
        },
        Ok(i) => i,
    };
    let version = find_string(&i.json, &two("CgroupVersion", "CgroupVersion"));
    if text::opt_is(&version, "2") {
        match &seen.controllers {
            Ok(contents) => {
                let names = text::words_of(contents.as_str());
                let gone = missing_names(
                    text::member(&names, "cpu"),
                    text::member(&names, "memory"),
                    text::member(&names, "pids"),
                );
                if gone.len() == 0 {
                    CheckResult::pass(
                        CheckId::Resources,
                        "cgroup v2 exposes cpu, memory, and pids".to_owned(),
                    )
                } else {
                    CheckResult::fail(
                        CheckId::Resources,
                        text::cat(
                            "cgroup v2 is missing controller(s): ",
                            text::join_texts(&gone, ", ").as_str(),
                        ),
                        "delegate cpu, memory, and pids controllers to the engine's cgroup scope".to_owned(),
                    )
                }
            },
            Err(e) => {
                let file = path::join(options.cgroup_root.as_str(), "cgroup.controllers");
                let mut m = text::cat("cannot read ", file.as_str());
                m.append(": ");
                m.append(e.as_str());
                CheckResult::fail(
                    CheckId::Resources,
                    m,
                    "make the engine cgroup scope readable and delegate cpu, memory, and pids".to_owned(),
                )
            },
        }
    } else {
        let gone = missing_names(seen.has_cpu, seen.has_memory, seen.has_pids);
        if gone.len() == 0 {
            CheckResult::pass(
                CheckId::Resources,
                "cgroup controller paths are available".to_owned(),
            )
        } else {
            CheckResult::fail(
                CheckId::Resources,
                text::cat(
                    "required cgroup controller(s) are unavailable: ",
                    text::join_texts(&gone, ", ").as_str(),
                ),
                "mount and delegate cpu, memory, and pids cgroup controllers to the engine".to_owned(),
            )
        }
    }
}

/// The check of the engine's resource driver.
pub open spec fn primitives_check(info: Result<EngineInfoView, Seq<char>>) -> CheckView {
    match info {
        Err(_) => not_run(CheckId::Primitives),
        Ok(i) => match found(i.json, seq!["CgroupDriver"@, "CgroupManager"@, "Driver"@]) {
            Some(d) => if text::ascii_lower(d) != text::ascii_lower("none"@) {
                passed(CheckId::Primitives, "engine reports cgroup driver "@ + d)
            } else {
                failed(
                    CheckId::Primitives,
                    "engine reports no usable cgroup driver"@,
                    "configure the engine with cgroup resource-control support"@,
                )
            },
            None => failed(
                CheckId::Primitives,
                "engine did not report a cgroup driver"@,
                "upgrade or configure the engine so its resource driver is exposed"@,
            ),
        },
    }
}

/// Has the engine a resource driver?
pub fn check_primitives(info: &Result<EngineInfo, String>) -> (r: CheckResult)
    ensures
        r@ == primitives_check(info_seen(*info)),
{
    let i = match info {
        Err(_) => {
            return check_not_run(CheckId::Primitives);
        },
        Ok(i) => i,
    };
    let mut keys = two("CgroupDriver", "CgroupManager");
    let ghost before = text::texts(keys@);
    keys.push("Driver".to_owned());
    proof {
        assert(text::texts(keys@) =~= before.push("Driver"@));
        assert(text::texts(keys@) =~= seq!["CgroupDriver"@, "CgroupManager"@, "Driver"@]);
    }
    match find_string(&i.json, &keys) {
        Some(d) => if !text::same_ignoring_case(d.as_str(), "none") {
            CheckResult::pass(
                CheckId::Primitives,
                text::cat("engine reports cgroup driver ", d.as_str()),
            )
        } else {
            CheckResult::fail(
                CheckId::Primitives,
                "engine reports no usable cgroup driver".to_owned(),
                "configure the engine with cgroup resource-control support".to_owned(),
            )
        },
        None => CheckResult::fail(
            CheckId::Primitives,
            "engine did not report a cgroup driver".to_owned(),
            "upgrade or configure the engine so its resource driver is exposed".to_owned(),
        ),
    }
}

/// Three octal digits.
pub open spec fn octal(mode: u32) -> Seq<char> {
    seq![
        text::digit((mode / 64) as nat),
        text::digit((mode / 8 % 8) as nat),
        text::digit((mode % 8) as nat),
    ]
}

fn octal_text(mode: u32) -> (r: String)
    requires
        mode < 512,
    ensures
        r@ == octal(mode),
{
    let a: char = (48u8 + (mode / 64) as u8) as char;
    let b: char = (48u8 + (mode / 8 % 8) as u8) as char;
    let c: char = (48u8 + (mode % 8) as u8) as char;
    let mut s = String::new();
    s.push(a);
    s.push(b);
    s.push(c);
    proof {
        assert(s@ =~= octal(mode));
    }
    s
}

/// What is wrong with a required directory; `strict` asks for a mode of 700,
/// else neither group nor others may write. Nothing is wrong with a directory,
/// not a link to one, of that mode, that the daemon owns.
pub open spec fn path_complaint(
    role: Seq<char>,
    dir: Seq<char>,
    strict: bool,
    seen: PathObservation,
    daemon_uid: u32,
) -> Option<CheckView> {
    match seen.facts {
        Err(e) => Some(
            failed(
                CheckId::Filesystem,
                "required "@ + role + " directory is missing: "@ + dir + " ("@ + e@ + ")"@,
                "create the state, repository-storage, and worktree directories with daemon ownership"@,
            ),
        ),
        Ok(f) => if f.is_symlink {
            Some(
                failed(
                    CheckId::Filesystem,
                    "required directory is a symlink: "@ + dir,
                    "replace the symlink with a daemon-owned directory"@,
                ),
            )
        } else if !f.is_dir {
            Some(
                failed(
                    CheckId::Filesystem,
                    "required path is not a directory: "@ + dir,
                    "replace the configured path with a daemon-owned directory"@,
                ),
            )
        } else if strict && f.mode & 0o777 != 0o700 {
            Some(
                failed(
                    CheckId::Filesystem,
                    dir + " has mode "@ + octal(f.mode & 0o777) + "; expected 700"@,
                    "chmod 700 "@ + dir,
                ),
            )
        } else if !strict && f.mode & 0o022 != 0 {
            Some(
                failed(
                    CheckId::Filesystem,
                    dir + " has mode "@ + octal(f.mode & 0o777)
                        + "; group/other write access is not allowed"@,
                    "chmod u+rwX,go-w "@ + dir,
                ),
            )
        } else if f.uid != daemon_uid {
            Some(
                failed(
                    CheckId::Filesystem,
                    dir + " is owned by uid "@ + text::dec(f.uid as nat)
                        + ", expected daemon uid "@ + text::dec(daemon_uid as nat),
                    "chown "@ + text::dec(daemon_uid as nat) + " "@ + dir,
                ),
            )
        } else {
            None
        },
    }
}

/// A complaint by its view.
pub open spec fn complaint_seen(c: Option<CheckResult>) -> Option<CheckView> {
    match c {
        Some(c) => Some(c@),
        None => None,
    }
}

fn check_path(role: &str, dir: &str, strict: bool, seen: &PathObservation, daemon_uid: u32) -> (r:
    Option<CheckResult>)
    ensures
        complaint_seen(r) == path_complaint(role@, dir@, strict, *seen, daemon_uid),
{
    let f = match &seen.facts {
        Err(e) => {
            let mut m = text::cat("required ", role);
            m.append(" directory is missing: ");
            m.append(dir);
            m.append(" (");
            m.append(e.as_str());
            m.append(")");
            return Some(
                CheckResult::fail(
                    CheckId::Filesystem,
                    m,
                    "create the state, repository-storage, and worktree directories with daemon ownership".to_owned(),
                ),
            );
        },
        Ok(f) => f,
    };
    if f.is_symlink {
        return Some(
            CheckResult::fail(
                CheckId::Filesystem,
                text::cat("required directory is a symlink: ", dir),
                "replace the symlink with a daemon-owned directory".to_owned(),
            ),
        );
    }
    if !f.is_dir {
        return Some(
            CheckResult::fail(
                CheckId::Filesystem,
                text::cat("required path is not a directory: ", dir),
                "replace the configured path with a daemon-owned directory".to_owned(),
            ),
        );
    }
    let raw: u32 = f.mode;
    let mode: u32 = raw & 0o777;
    proof {
        assert(raw & 0o777 < 512) by (bit_vector);
        assert((raw & 0o777) & 0o022 == raw & 0o022) by (bit_vector);
    }
    if strict {
        if mode != 0o700 {
            let mut m = text::cat(dir, " has mode ");
            m.append(octal_text(mode).as_str());
            m.append("; expected 700");
            return Some(CheckResult::fail(CheckId::Filesystem, m, text::cat("chmod 700 ", dir)));
        }
    } else {
        if mode & 0o022 != 0 {
            let mut m = text::cat(dir, " has mode ");
            m.append(octal_text(mode).as_str());
            m.append("; group/other write access is not allowed");
            return Some(
                CheckResult::fail(CheckId::Filesystem, m, text::cat("chmod u+rwX,go-w ", dir)),
            );
        }
    }
    if f.uid != daemon_uid {
        let mut m = text::cat(dir, " is owned by uid ");
        m.append(text::decimal(f.uid as u64).as_str());
        m.append(", expected daemon uid ");
        m.append(text::decimal(daemon_uid as u64).as_str());
        let mut fix = text::cat("chown ", text::decimal(daemon_uid as u64).as_str());
        fix.append(" ");
        fix.append(dir);
        return Some(CheckResult::fail(CheckId::Filesystem, m, fix));
    }
    None
}

/// The first complaint.
pub open spec fn first_of(a: Option<CheckView>, b: Option<CheckView>) -> Option<CheckView> {
    match a {
        Some(c) => Some(c),
        None => b,
    }
}

/// The bytes that stay free on every file system.
pub open spec fn reserve_of(mb: u64) -> u64 {
    if mb * 1048576 > u64::MAX {
        u64::MAX
    } else {
        (mb * 1048576) as u64
    }
}

/// The first sample from `i` on with less than the reserve.
pub open spec fn short_sample(samples: Seq<DiskSample>, reserve: u64, i: int) -> Option<int>
    decreases samples.len() - i,
{
    if i < 0 || i >= samples.len() {
        None
    } else if samples[i].free_bytes < reserve {
        Some(i)
    } else {
        short_sample(samples, reserve, i + 1)
    }
}

/// The check of the storage.
pub open spec fn filesystem_check(
    state_dir: Seq<char>,
    storage_root: Seq<char>,
    workdir: Seq<char>,
    reserved_mb: u64,
    seen: StorageObservation,
) -> CheckView {
    let uid = seen.daemon_uid;
    let complaint = first_of(
        path_complaint("state"@, state_dir, false, seen.state, uid),
        first_of(
            path_complaint(
                "repository-storage"@,
                storage_root,
                true,
                seen.repository_storage,
                uid,
            ),
            path_complaint("worktree"@, workdir, false, seen.worktree, uid),
        ),
    );
    match complaint {
        Some(c) => c,
        None => match seen.samples {
            Err(e) => failed(
                CheckId::Filesystem,
                "filesystem probe failed: "@ + e@,
                "make all configured storage paths readable and writable, then rerun doctor"@,
            ),
            Ok(samples) => match short_sample(samples@, reserve_of(reserved_mb), 0) {
                Some(i) => failed(
                    CheckId::Filesystem,
                    samples@[i].representative_path@ + " has "@ + text::dec(
                        samples@[i].free_bytes as nat,
                    ) + " bytes free below the "@ + text::dec(reserve_of(reserved_mb) as nat)
                        + " byte reserve"@,
                    "free space on every filesystem hosting Caduceus state and worktrees"@,
                ),
                None => passed(
                    CheckId::Filesystem,
                    "configured storage paths and disk reserve are healthy"@,
                ),
            },
        },
    }
}

/// Is the storage of the daemon in order, with space on it?
pub fn check_filesystem(cfg: &Config, reserved_mb: u64, seen: &StorageObservation) -> (r:
    CheckResult)
    ensures
        r@ == filesystem_check(
            cfg.state_dir@,
            cfg.repo_storage_root@,
            cfg.workdir_base@,
            reserved_mb,
            *seen,
        ),
{
    let uid: u32 = seen.daemon_uid;
    match check_path("state", cfg.state_dir.as_str(), false, &seen.state, uid) {
        Some(c) => {
            return c;
        },
        None => {},
    }
    match check_path(
        "repository-storage",
        cfg.repo_storage_root.as_str(),
        true,
        &seen.repository_storage,
        uid,
    ) {
        Some(c) => {
            return c;
        },
        None => {},
    }
    match check_path("worktree", cfg.workdir_base.as_str(), false, &seen.worktree, uid) {
        Some(c) => {
            return c;
        },
        None => {},
    }
    let samples = match &seen.samples {
        Err(e) => {
            return CheckResult::fail(
                CheckId::Filesystem,
                text::cat("filesystem probe failed: ", e.as_str()),
                "make all configured storage paths readable and writable, then rerun doctor".to_owned(),
            );
        },
        Ok(v) => v,
    };
    let reserve: u64 = if reserved_mb > 0xffff_ffff_ffff_ffff / 1048576 {
        0xffff_ffff_ffff_ffff
    } else {
        reserved_mb * 1048576
    };
    let mut i: usize = 0;
    while i < samples.len()
        invariant
            i <= samples.len(),
            short_sample(samples@, reserve, 0) == short_sample(samples@, reserve, i as int),
            reserve == reserve_of(reserved_mb),
            seen.samples == Ok::<Vec<DiskSample>, String>(*samples),
            path_complaint("state"@, cfg.state_dir@, false, seen.state, seen.daemon_uid) is None,
            path_complaint(
                "repository-storage"@,
                cfg.repo_storage_root@,
                true,
                seen.repository_storage,
                seen.daemon_uid,
            ) is None,
            path_complaint(
                "worktree"@,
                cfg.workdir_base@,
                false,
                seen.worktree,
                seen.daemon_uid,
            ) is None,
        decreases samples.len() - i,
    {
        let sample = &samples[i];
        if sample.free_bytes < reserve {
            let mut m = text::cat(sample.representative_path.as_str(), " has ");
            m.append(text::decimal(sample.free_bytes).as_str());
            m.append(" bytes free below the ");
            m.append(text::decimal(reserve).as_str());
            m.append(" byte reserve");
            return CheckResult::fail(
                CheckId::Filesystem,
                m,
                "free space on every filesystem hosting Caduceus state and worktrees".to_owned(),
            );
        }
        i += 1;
    }
    CheckResult::pass(
        CheckId::Filesystem,
        "configured storage paths and disk reserve are healthy".to_owned(),
    )
}

/// The check of the network.
pub open spec fn network_check(
    network: SandboxNetwork,
    answer: Result<Seq<char>, Seq<char>>,
) -> CheckView {
    match network {
        SandboxNetwork::Off => passed(
            CheckId::Network,
            "network none is representable by the configured engine"@,
        ),
        SandboxNetwork::Bridge => match answer {
            Ok(_) => passed(CheckId::Network, "the default bridge network is available"@),
            Err(e) => failed(
                CheckId::Network,
                "default bridge network is unavailable: "@ + e,
                "create or repair the engine's default bridge network, or select network: none"@,
            ),
        },
    }
}

/// Is the network of the sandbox there?
pub fn check_network(network: SandboxNetwork, answer: &Result<String, String>) -> (r: CheckResult)
    ensures
        r@ == network_check(network, texts_of(*answer)),
{
    match network {
        SandboxNetwork::Off => CheckResult::pass(
            CheckId::Network,
            "network none is representable by the configured engine".to_owned(),
        ),
        SandboxNetwork::Bridge => match answer {
            Ok(_) => CheckResult::pass(
                CheckId::Network,
                "the default bridge network is available".to_owned(),
            ),
            Err(e) => CheckResult::fail(
                CheckId::Network,
                text::cat("default bridge network is unavailable: ", e.as_str()),
                "create or repair the engine's default bridge network, or select network: none".to_owned(),
            ),
        },
    }
}

/// A hexadecimal digit, small or capital.
pub open spec fn is_hex(c: char) -> bool {
    ('0' <= c && c <= '9') || ('a' <= c && c <= 'f') || ('A' <= c && c <= 'F')
}

/// A name, `@sha256:` and 64 hexadecimal digits.
pub open spec fn digest_pinned(s: Seq<char>) -> bool {
    &&& s.len() > 72
    &&& text::occurs_at(s, "@sha256:"@, s.len() - 72)
    &&& forall|i: int| s.len() - 64 <= i < s.len() ==> is_hex(#[trigger] s[i])
}

/// Is the image named by its digest?
pub fn is_digest_pinned(reference: &str) -> (r: bool)
    ensures
        r == digest_pinned(reference@),
{
    let chars = text::chars_of(reference);
    let mark = text::chars_of("@sha256:");
    if chars.len() <= 72 {
        return false;
    }
    let start: usize = chars.len() - 72;
    if !text::is_at(&chars, &mark, start) {
        return false;
    }
    let mut i: usize = chars.len() - 64;
    while i < chars.len()
        invariant
            chars@ == reference@,
            chars.len() - 64 <= i <= chars.len(),
            forall|j: int| chars.len() - 64 <= j < i ==> is_hex(#[trigger] reference@[j]),
        decreases chars.len() - i,
    {
        let c = chars[i];
        if !(('0' <= c && c <= '9') || ('a' <= c && c <= 'f') || ('A' <= c && c <= 'F')) {
            proof {
                assert(!is_hex(reference@[i as int]));
            }
            return false;
        }
        i += 1;
    }
    true
}

/// The name of a platform.
pub open spec fn platform_label(p: HostPlatform) -> Seq<char> {
    match p.variant {
        Some(v) => p.architecture@ + "/"@ + v@,
        None => p.architecture@,
    }
}

/// The name of a platform.
pub fn platform_name(p: &HostPlatform) -> (r: String)
    ensures
        r@ == platform_label(*p),
{
    match &p.variant {
        Some(v) => {
            let mut s = text::cat(p.architecture.as_str(), "/");
            s.append(v.as_str());
            s
        },
        None => p.architecture.clone(),
    }
}

/// The check of the image.
pub open spec fn image_check(
    image: Seq<char>,
    seen: ImageObservation,
    platform: HostPlatform,
) -> CheckView {
    if !digest_pinned(image) {
        failed(
            CheckId::Image,
            "configured image is not digest-pinned"@,
            "set sandbox.image to name@sha256:<64 hex characters>"@,
        )
    } else {
        match seen.acquisition {
            Ok(_) => passed(
                CheckId::Image,
                image + " is present, digest-verified, and matches "@ + platform_label(platform),
            ),
            Err(e) => failed(
                CheckId::Image,
                e@,
                "make the configured immutable image present or pullable for this host architecture"@,
            ),
        }
    }
}

/// The image that the check verified.
pub open spec fn image_verified(image: Seq<char>, seen: ImageObservation) -> Option<Seq<char>> {
    if !digest_pinned(image) {
        None
    } else {
        match seen.acquisition {
            Ok(a) => Some(a.facts@),
            Err(_) => None,
        }
    }
}

/// Is the image there, by its digest and for this host?
pub fn check_image(image: &str, seen: ImageObservation, platform: &HostPlatform) -> (r: (
    CheckResult,
    Option<ImageAcquisition>,
))
    ensures
        r.0@ == image_check(image@, seen, *platform),
        image_facts(r.1) == image_verified(image@, seen),
{
    if !is_digest_pinned(image) {
        return (
            CheckResult::fail(
                CheckId::Image,
                "configured image is not digest-pinned".to_owned(),
                "set sandbox.image to name@sha256:<64 hex characters>".to_owned(),
            ),
            None,
        );
    }
    match seen.acquisition {
        Ok(a) => {
            let mut m = text::cat(image, " is present, digest-verified, and matches ");
            m.append(platform_name(platform).as_str());
            (CheckResult::pass(CheckId::Image, m), Some(a))
        },
        Err(e) => (
            CheckResult::fail(
                CheckId::Image,
                e,
                "make the configured immutable image present or pullable for this host architecture".to_owned(),
            ),
            None,
        ),
    }
}

// ---------------------------------------------------------------------------
// Live report
// ---------------------------------------------------------------------------

/// The findings on a host, one for each check, in order. Without a sandbox
/// there is one finding, and it says so.
pub open spec fn live_checks(
    cfg: Config,
    options: ProbeOptions,
    seen: LiveObservations,
) -> Seq<CheckView> {
    match cfg.sandbox {
        None => seq![
            failed(
                CheckId::Engine,
                "no sandbox configuration is present"@,
                "configure executor_mode: oci and a complete sandbox section, or keep trusted_host mode"@,
            ),
        ],
        Some(s) => {
            let info = info_seen(seen.engine);
            seq![
                platform_check(s.engine, seen.host_os@, text::opt(seen.engine_path)),
                engine_check(s.engine, info),
                mode_check(info),
                namespace_check(info),
                resources_check(options.cgroup_root@, info, seen.cgroup),
                filesystem_check(
                    cfg.state_dir@,
                    cfg.repo_storage_root@,
                    cfg.workdir_base@,
                    s.reserved_host_disk_mb,
                    seen.storage,
                ),
                image_check(s.image@, seen.image, seen.platform),
                network_check(s.network, texts_of(seen.network)),
                primitives_check(info),
            ]
        },
    }
}

/// The image that was verified on a host.
pub open spec fn live_image(cfg: Config, seen: LiveObservations) -> Option<Seq<char>> {
    match cfg.sandbox {
        None => None,
        Some(s) => image_verified(s.image@, seen.image),
    }
}

/// The report on what a host shows.
pub fn run_live_with_options(
    cfg: &Config,
    options: &ProbeOptions,
    seen: LiveObservations,
    now: Timestamp,
) -> (r: ReadinessReport)
    ensures
        r@ == report_of(live_checks(*cfg, *options, seen), now, live_image(*cfg, seen)),
{
    let ghost expected = live_checks(*cfg, *options, seen);
    let sandbox = match &cfg.sandbox {
        None => {
            let mut checks: Vec<CheckResult> = Vec::new();
            checks.push(
                CheckResult::fail(
                    CheckId::Engine,
                    "no sandbox configuration is present".to_owned(),
                    "configure executor_mode: oci and a complete sandbox section, or keep trusted_host mode".to_owned(),
                ),
            );
            proof {
                assert(check_views(checks@) =~= expected);
            }
            return assemble_report(checks, now);
        },
        Some(s) => s,
    };
    let mut checks: Vec<CheckResult> = Vec::new();
    checks.push(check_platform(sandbox.engine, seen.host_os.as_str(), &seen.engine_path));
    checks.push(check_engine(sandbox.engine, &seen.engine));
    checks.push(check_mode(&seen.engine));
    checks.push(check_namespace(&seen.engine));
    checks.push(check_resources(options, &seen.engine, &seen.cgroup));
    checks.push(check_filesystem(cfg, sandbox.reserved_host_disk_mb, &seen.storage));
    let network = check_network(sandbox.network, &seen.network);
    let (image, verified) = check_image(sandbox.image.as_str(), seen.image, &seen.platform);
    checks.push(image);
    checks.push(network);
    checks.push(check_primitives(&seen.engine));
    proof {
        assert(check_views(checks@) =~= expected);
    }
    let mut report = assemble_report(checks, now);
    report.verified_image = verified;
    report
}

/// The report on what a host shows, with the probes where they mostly are.
pub fn run_live(cfg: &Config, seen: LiveObservations, now: Timestamp) -> (r: ReadinessReport)
    ensures
        exists|o: ProbeOptions| #[trigger]
            default_options(o) && r@ == report_of(
                live_checks(*cfg, o, seen),
                now,
                live_image(*cfg, seen),
            ),
{
    let options = ProbeOptions::default();
    proof {
        assert(default_options(options));
    }
    run_live_with_options(cfg, &options, seen, now)
}

/// The probes where they mostly are.
pub open spec fn default_options(o: ProbeOptions) -> bool {
    o.cgroup_root@ == "/sys/fs/cgroup"@ && o.engine_binary is None
}

/// What a refusal says of a finding.
pub open spec fn failure_of(c: CheckView) -> FailureView {
    FailureView {
        check: c.id.label(),
        detail: c.detail,
        remediation: match c.remediation {
            Some(r) => r,
            None => "repair the failing host or configuration check"@,
        },
    }
}

/// The image to dispatch with, or why nothing is dispatched.
pub open spec fn dispatch_of(report: ReportView) -> Result<Seq<char>, Fault> {
    if report.verdict == ReadinessVerdict::Ready {
        match report.verified_image {
            Some(i) => Ok(i),
            None => Err(Fault::Other("readiness passed without verified image facts"@)),
        }
    } else {
        Err(
            Fault::OciReadinessUnavailable(
                failing(report.checks, report.checks.len() as int).map_values(
                    |c: CheckView| failure_of(c),
                ),
            ),
        )
    }
}

/// An image or an error by its view.
pub open spec fn dispatch_seen(r: Result<ImageAcquisition, CaduceusError>) -> Result<
    Seq<char>,
    Fault,
> {
    match r {
        Ok(i) => Ok(i.facts@),
        Err(e) => Err(e@),
    }
}

/// The image to dispatch with, or why nothing is dispatched: a report that is
/// not ready refuses with each finding that failed.
pub fn assert_ready(report: ReadinessReport) -> (r: Result<ImageAcquisition, CaduceusError>)
    ensures
        dispatch_seen(r) == dispatch_of(report@),
{
    if matches!(report.verdict, ReadinessVerdict::Ready) {
        return match report.verified_image {
            Some(i) => Ok(i),
            None => Err(
                CaduceusError::Other("readiness passed without verified image facts".to_owned()),
            ),
        };
    }
    let failures = report.mandatory_failures();
    let ghost views = check_views(failures@);
    let mut out: Vec<ReadinessFailure> = Vec::new();
    let mut i: usize = 0;
    while i < failures.len()
        invariant
            views == check_views(failures@),
            i <= failures.len(),
            out.len() == i,
            forall|j: int| 0 <= j < i ==> (#[trigger] out@[j])@ == failure_of(views[j]),
        decreases failures.len() - i,
    {
        let c = &failures[i];
        proof {
            assert(views[i as int] == c@);
        }
        let remediation = match &c.remediation {
            Some(r) => r.clone(),
            None => "repair the failing host or configuration check".to_owned(),
        };
        out.push(
            ReadinessFailure { check: c.id.as_str().to_owned(), detail: c.detail.clone(), remediation },
        );
        i += 1;
    }
    proof {
        assert(out@.map_values(|f: ReadinessFailure| f@) =~= views.map_values(
            |c: CheckView| failure_of(c),
        ));
    }
    Err(CaduceusError::OciReadinessUnavailable { failed_checks: out })
}

/// The image to dispatch with on what a host shows, or why nothing is
/// dispatched.
pub fn assert_live_with_options(
    cfg: &Config,
    options: &ProbeOptions,
    seen: LiveObservations,
    now: Timestamp,
) -> (r: Result<ImageAcquisition, CaduceusError>)
    ensures
        dispatch_seen(r) == dispatch_of(
            report_of(live_checks(*cfg, *options, seen), now, live_image(*cfg, seen)),
        ),
{
    assert_ready(run_live_with_options(cfg, options, seen, now))
}

/// The image to dispatch with on what a host shows, with the probes where they
/// mostly are, or why nothing is dispatched.
pub fn assert_live(cfg: &Config, seen: LiveObservations, now: Timestamp) -> (r: Result<
    ImageAcquisition,
    CaduceusError,
>)
    ensures
        exists|o: ProbeOptions| #[trigger]
            default_options(o) && dispatch_seen(r) == dispatch_of(
                report_of(live_checks(*cfg, o, seen), now, live_image(*cfg, seen)),
            ),
{
    let options = ProbeOptions::default();
    proof {
        assert(default_options(options));
    }
    assert_live_with_options(cfg, &options, seen, now)
}

// ---------------------------------------------------------------------------
// Laws
// ---------------------------------------------------------------------------

proof fn lemma_failing(checks: Seq<CheckView>, n: int)
    requires
        0 <= n <= checks.len(),
    ensures
        failing(checks, n).len() == 0 <==> all_pass(checks.take(n)),
    decreases n,
{
    if n > 0 {
        lemma_failing(checks, n - 1);
        let before = checks.take(n - 1);
        let all = checks.take(n);
        if all_pass(all) {
            assert forall|i: int| 0 <= i < before.len() implies (#[trigger] before[i]).status
                == CheckStatus::Pass by {
                assert(before[i] == all[i]);
            }
            assert(all[n - 1] == checks[n - 1]);
        }
        if failing(checks, n).len() == 0 {
            assert forall|i: int| 0 <= i < all.len() implies (#[trigger] all[i]).status
                == CheckStatus::Pass by {
                if i < n - 1 {
                    assert(all[i] == before[i]);
                }
            }
        }
    }
}

/// The verdict is ready exactly when no finding failed.
pub proof fn law_ready_means_no_failures(checks: Seq<CheckView>)
    ensures
        verdict_of(checks) == ReadinessVerdict::Ready <==> failing(
            checks,
            checks.len() as int,
        ).len() == 0,
{
    lemma_failing(checks, checks.len() as int);
    assert(checks.take(checks.len() as int) =~= checks);
}

/// Every finding that failed says what to do about it, and a host with a
/// sandbox has a finding for each check, in order.
pub proof fn law_findings_are_complete(cfg: Config, options: ProbeOptions, seen: LiveObservations)
    ensures
        forall|i: int|
            0 <= i < live_checks(cfg, options, seen).len() && (#[trigger] live_checks(
                cfg,
                options,
                seen,
            )[i]).status == CheckStatus::Fail ==> live_checks(cfg, options, seen)[i].remediation
                is Some,
        cfg.sandbox is Some ==> live_checks(cfg, options, seen).map_values(|c: CheckView| c.id)
            == CheckId::in_order(),
{
    if cfg.sandbox is Some {
        assert(live_checks(cfg, options, seen).map_values(|c: CheckView| c.id)
            =~= CheckId::in_order());
    }
}

/// Nothing is dispatched unless every check of the host passes, and what is
/// dispatched is the image that the check verified.
pub proof fn law_dispatch_needs_every_check(
    cfg: Config,
    options: ProbeOptions,
    seen: LiveObservations,
    now: Timestamp,
)
    ensures
        ({
            let checks = live_checks(cfg, options, seen);
            let answer = dispatch_of(report_of(checks, now, live_image(cfg, seen)));
            &&& all_pass(checks) ==> answer is Ok
            &&& answer matches Ok(image) ==> all_pass(checks) && live_image(cfg, seen) == Some(
                image,
            )
        }),
{
    let checks = live_checks(cfg, options, seen);
    if all_pass(checks) {
        if cfg.sandbox is None {
            assert(checks[0].status == CheckStatus::Fail);
        } else {
            assert(checks[6].status == CheckStatus::Pass);
        }
    }
}

/// Whatever a diagnostic run shows, neither the verdict nor the dispatch
/// changes.
pub proof fn law_the_canary_decides_nothing(a: ReportView, b: ReportView)
    requires
        b == (ReportView { diagnostic_canary: b.diagnostic_canary, ..a }),
    ensures
        a.verdict == b.verdict,
        dispatch_of(a) == dispatch_of(b),
{
}

// ---------------------------------------------------------------------------
// When each check passes, and what it says
// ---------------------------------------------------------------------------

/// The host passes on Linux with the engine on the path, and says where it is.
pub proof fn law_the_platform_needs_linux_and_the_engine(
    engine: SandboxEngine,
    os: Seq<char>,
    engine_path: Option<Seq<char>>,
)
    ensures
        ({
            let c = platform_check(engine, os, engine_path);
            &&& c.status == CheckStatus::Pass <==> os == "linux"@ && engine_path is Some
            &&& c.id == CheckId::Platform
            &&& c.status == CheckStatus::Pass ==> c.remediation is None && c.detail
                == "Linux host; "@ + engine.binary() + " resolves to "@ + engine_path->0
            &&& os != "linux"@ ==> c.detail == "unsupported host platform "@ + os
            &&& os == "linux"@ && engine_path is None ==> c.detail == engine.binary()
                + " is not executable on PATH"@ && c.remediation == Some(
                "install "@ + engine.binary() + " and make it available on PATH"@,
            )
        }),
        SandboxEngine::Docker.binary() == "docker"@,
        SandboxEngine::Podman.binary() == "podman"@,
{
}

/// The engine passes exactly when it answers; the version is told where it is
/// known.
pub proof fn law_the_engine_has_to_answer(
    engine: SandboxEngine,
    info: Result<EngineInfoView, Seq<char>>,
)
    ensures
        ({
            let c = engine_check(engine, info);
            &&& c.status == CheckStatus::Pass <==> info is Ok
            &&& c.id == CheckId::Engine
            &&& info matches Ok(i) ==> c.detail == engine.binary() + " daemon is reachable"@
                + version_of(i.json) && c.remediation is None
            &&& info matches Err(e) ==> c.detail == e && c.remediation is Some
        }),
        info matches Ok(i) ==> (found(i.json, seq!["ServerVersion"@, "Version"@]) matches Some(v)
            ==> version_of(i.json) == " (server "@ + v + ")"@),
        info matches Ok(i) ==> (found(i.json, seq!["ServerVersion"@, "Version"@]) is None
            ==> version_of(i.json).len() == 0),
{
}

/// Checks that depend on the engine fail without it, in the same words.
pub proof fn law_nothing_passes_without_the_engine(
    error: Seq<char>,
    cgroup_root: Seq<char>,
    seen: CgroupObservation,
)
    ensures
        ({
            let none = Err::<EngineInfoView, Seq<char>>(error);
            let mute = |c: CheckView, id: CheckId|
                c == (CheckView {
                    id,
                    status: CheckStatus::Fail,
                    detail: "engine-dependent check could not run"@,
                    remediation: Some("repair engine reachability and rerun `caduceus doctor`"@),
                });
            &&& mute(mode_check(none), CheckId::Mode)
            &&& mute(namespace_check(none), CheckId::Namespace)
            &&& mute(resources_check(cgroup_root, none, seen), CheckId::Resources)
            &&& mute(primitives_check(none), CheckId::Primitives)
        }),
{
}

/// The mode passes when it could be read; the namespace mapping passes when, beyond
/// that, no user remapping is reported.
pub proof fn law_mode_and_namespace_are_read_from_the_engine(i: EngineInfoView)
    ensures
        ({
            let info = Ok::<EngineInfoView, Seq<char>>(i);
            let m = mode_check(info);
            let n = namespace_check(info);
            &&& m.id == CheckId::Mode && n.id == CheckId::Namespace
            &&& m.status == CheckStatus::Pass <==> i.mode is Ok
            &&& n.status == CheckStatus::Pass <==> i.mode is Ok && !i.mode->Ok_0.1
            &&& i.mode matches Err(e) ==> m.detail == e
            &&& i.mode is Ok && i.mode->Ok_0.0 == EngineMode::Rootful ==> m.detail == "rootful"@
                + " mode detected"@
            &&& i.mode is Ok && i.mode->Ok_0.0 == EngineMode::Rootless ==> m.detail == "rootless"@
                + " mode detected"@
            &&& i.mode is Ok && i.mode->Ok_0.1 ==> n.detail
                == "rootful engine reports userns-remap"@
            &&& i.mode is Ok && !i.mode->Ok_0.1 ==> n.detail
                == "engine namespace mapping is supported"@
        }),
{
}

/// The resources pass when the three controllers are there: by the list of the
/// second version of cgroups, by their directories otherwise.
pub proof fn law_three_controllers_are_needed(
    cgroup_root: Seq<char>,
    i: EngineInfoView,
    seen: CgroupObservation,
)
    ensures
        ({
            let c = resources_check(cgroup_root, Ok(i), seen);
            let second = found(i.json, seq!["CgroupVersion"@, "CgroupVersion"@]) == Some("2"@);
            &&& c.id == CheckId::Resources
            &&& second && seen.controllers is Ok ==> (c.status == CheckStatus::Pass <==> ({
                let names = text::words(seen.controllers->Ok_0@);
                names.contains("cpu"@) && names.contains("memory"@) && names.contains("pids"@)
            }))
            &&& second && seen.controllers is Err ==> c.status == CheckStatus::Fail
            &&& !second ==> (c.status == CheckStatus::Pass <==> seen.has_cpu && seen.has_memory
                && seen.has_pids)
        }),
{
}

/// What is missing is told by name, in this order.
pub proof fn law_missing_controllers_are_named(cpu: bool, memory: bool, pids: bool)
    ensures
        missing(cpu, memory, pids).contains("cpu"@) <==> !cpu,
        missing(cpu, memory, pids).contains("memory"@) <==> !memory,
        missing(cpu, memory, pids).contains("pids"@) <==> !pids,
        missing(false, false, false) == seq!["cpu"@, "memory"@, "pids"@],
        missing(true, true, true).len() == 0,
{
    reveal_strlit("cpu");
    reveal_strlit("memory");
    reveal_strlit("pids");
    assert("cpu"@.len() == 3 && "memory"@.len() == 6 && "pids"@.len() == 4);
    let m = missing(cpu, memory, pids);
    let a: int = if cpu {
        0
    } else {
        1
    };
    let b: int = if memory {
        a
    } else {
        a + 1
    };
    if !cpu {
        assert(m[0] == "cpu"@);
    }
    if !memory {
        assert(m[a] == "memory"@);
    }
    if !pids {
        assert(m[b] == "pids"@);
    }
    assert(missing(false, false, false) =~= seq!["cpu"@, "memory"@, "pids"@]);
}

/// The resource primitives pass when a driver is told that is not none, in any
/// case.
pub proof fn law_a_driver_is_needed(i: EngineInfoView)
    ensures
        ({
            let c = primitives_check(Ok(i));
            let driver = found(i.json, seq!["CgroupDriver"@, "CgroupManager"@, "Driver"@]);
            &&& c.id == CheckId::Primitives
            &&& c.status == CheckStatus::Pass <==> driver is Some && text::ascii_lower(driver->0)
                != text::ascii_lower("none"@)
            &&& c.status == CheckStatus::Pass ==> c.detail == "engine reports cgroup driver "@
                + driver->0
            &&& driver is None ==> c.detail == "engine did not report a cgroup driver"@
        }),
{
}

/// A directory is healthy when it is a real directory of the daemon's own, with
/// exactly the owner's rights where that is asked for and otherwise without write
/// access for others.
pub proof fn law_a_healthy_directory_is_the_daemons_own(
    role: Seq<char>,
    dir: Seq<char>,
    strict: bool,
    seen: PathObservation,
    uid: u32,
)
    ensures
        path_complaint(role, dir, strict, seen, uid) is None <==> (seen.facts matches Ok(f)
            && !f.is_symlink && f.is_dir && f.uid == uid && (strict ==> f.mode & 0o777 == 0o700)
            && (!strict ==> f.mode & 0o022 == 0)),
        path_complaint(role, dir, strict, seen, uid) matches Some(c) ==> c.id == CheckId::Filesystem
            && c.status == CheckStatus::Fail && c.remediation is Some,
        seen.facts matches Err(e) ==> path_complaint(role, dir, strict, seen, uid)->0.detail
            == "required "@ + role + " directory is missing: "@ + dir + " ("@ + e@ + ")"@,
{
}

proof fn lemma_short_sample(samples: Seq<DiskSample>, reserve: u64, i: int)
    requires
        0 <= i,
    ensures
        match short_sample(samples, reserve, i) {
            Some(k) => i <= k < samples.len() && samples[k].free_bytes < reserve && forall|j: int|
                i <= j < k ==> (#[trigger] samples[j]).free_bytes >= reserve,
            None => forall|j: int|
                i <= j < samples.len() ==> (#[trigger] samples[j]).free_bytes >= reserve,
        },
    decreases samples.len() - i,
{
    if i < samples.len() && samples[i].free_bytes >= reserve {
        lemma_short_sample(samples, reserve, i + 1);
    }
}

/// The file system passes when the three directories are healthy and no file system
/// has less free than the reserve, which is told in units of 2^20 bytes.
pub proof fn law_storage_needs_room(
    state_dir: Seq<char>,
    storage_root: Seq<char>,
    workdir: Seq<char>,
    reserved_mb: u64,
    seen: StorageObservation,
)
    requires
        reserved_mb <= 1000000000,
    ensures
        ({
            let c = filesystem_check(state_dir, storage_root, workdir, reserved_mb, seen);
            let uid = seen.daemon_uid;
            &&& c.id == CheckId::Filesystem
            &&& c.status == CheckStatus::Pass <==> {
                &&& path_complaint("state"@, state_dir, false, seen.state, uid) is None
                &&& path_complaint(
                    "repository-storage"@,
                    storage_root,
                    true,
                    seen.repository_storage,
                    uid,
                ) is None
                &&& path_complaint("worktree"@, workdir, false, seen.worktree, uid) is None
                &&& seen.samples is Ok
                &&& forall|i: int|
                    0 <= i < seen.samples->Ok_0@.len() ==> (#[trigger] seen.samples->Ok_0@[i]).free_bytes
                        >= reserved_mb * 1048576
            }
        }),
{
    if seen.samples is Ok {
        lemma_short_sample(seen.samples->Ok_0@, reserve_of(reserved_mb), 0);
    }
    law_a_healthy_directory_is_the_daemons_own(
        "state"@,
        state_dir,
        false,
        seen.state,
        seen.daemon_uid,
    );
    law_a_healthy_directory_is_the_daemons_own(
        "repository-storage"@,
        storage_root,
        true,
        seen.repository_storage,
        seen.daemon_uid,
    );
    law_a_healthy_directory_is_the_daemons_own(
        "worktree"@,
        workdir,
        false,
        seen.worktree,
        seen.daemon_uid,
    );
}

/// The network passes when none is used, or the bridge answers.
pub proof fn law_the_bridge_has_to_be_there(
    network: SandboxNetwork,
    answer: Result<Seq<char>, Seq<char>>,
)
    ensures
        network_check(network, answer).id == CheckId::Network,
        network_check(network, answer).status == CheckStatus::Pass <==> network
            == SandboxNetwork::Off || answer is Ok,
        network == SandboxNetwork::Bridge ==> (answer matches Err(e) ==> network_check(
            network,
            answer,
        ).detail == "default bridge network is unavailable: "@ + e),
{
}

/// The image passes when it is named by its digest and was acquired; its facts are
/// handed on exactly then.
pub proof fn law_the_image_is_pinned_and_there(
    image: Seq<char>,
    seen: ImageObservation,
    platform: HostPlatform,
)
    ensures
        image_check(image, seen, platform).id == CheckId::Image,
        image_check(image, seen, platform).status == CheckStatus::Pass <==> digest_pinned(image)
            && seen.acquisition is Ok,
        image_verified(image, seen) is Some <==> digest_pinned(image) && seen.acquisition is Ok,
        image_verified(image, seen) is Some ==> image_verified(image, seen)->0
            == seen.acquisition->Ok_0.facts@,
        !digest_pinned(image) ==> image_check(image, seen, platform).detail
            == "configured image is not digest-pinned"@,
{
}

/// A name is pinned when behind it stand the algorithm and 64 hexadecimal digits.
pub proof fn law_a_pinned_name_ends_with_its_digest(
    name: Seq<char>,
    digest: Seq<char>,
    c: char,
)
    requires
        name.len() > 0,
        digest.len() == 64,
    ensures
        digest_pinned(name + "@sha256:"@ + digest) <==> forall|i: int|
            0 <= i < 64 ==> is_hex(#[trigger] digest[i]),
        !digest_pinned("@sha256:"@ + digest),
        is_hex(c) <==> ('0' <= c && c <= '9') || ('a' <= c && c <= 'f') || ('A' <= c && c <= 'F'),
{
    reveal_strlit("@sha256:");
    let s = name + "@sha256:"@ + digest;
    assert(s.len() == name.len() + 72);
    assert(s.subrange(s.len() - 72, s.len() - 64) =~= "@sha256:"@);
    assert(text::occurs_at(s, "@sha256:"@, s.len() - 72));
    if digest_pinned(s) {
        assert forall|i: int| 0 <= i < 64 implies is_hex(#[trigger] digest[i]) by {
            assert(s[s.len() - 64 + i] == digest[i]);
        }
    }
    if forall|i: int| 0 <= i < 64 ==> is_hex(#[trigger] digest[i]) {
        assert forall|i: int| s.len() - 64 <= i < s.len() implies is_hex(#[trigger] s[i]) by {
            assert(digest[i - (s.len() - 64)] == s[i]);
        }
    }
}

/// A host without a sandbox fails at the engine; one with a sandbox goes through
/// the nine checks, each on what was seen for it.
pub proof fn law_each_check_gets_its_observation(
    cfg: Config,
    options: ProbeOptions,
    seen: LiveObservations,
)
    ensures
        ({
            let checks = live_checks(cfg, options, seen);
            &&& cfg.sandbox is None ==> checks.len() == 1 && checks[0].status == CheckStatus::Fail
                && checks[0].id == CheckId::Engine
            &&& cfg.sandbox matches Some(s) ==> {
                let info = info_seen(seen.engine);
                &&& checks.len() == 9
                &&& checks[0] == platform_check(s.engine, seen.host_os@, text::opt(seen.engine_path))
                &&& checks[1] == engine_check(s.engine, info)
                &&& checks[2] == mode_check(info)
                &&& checks[3] == namespace_check(info)
                &&& checks[4] == resources_check(options.cgroup_root@, info, seen.cgroup)
                &&& checks[5] == filesystem_check(
                    cfg.state_dir@,
                    cfg.repo_storage_root@,
                    cfg.workdir_base@,
                    s.reserved_host_disk_mb,
                    seen.storage,
                )
                &&& checks[6] == image_check(s.image@, seen.image, seen.platform)
                &&& checks[7] == network_check(s.network, texts_of(seen.network))
                &&& checks[8] == primitives_check(info)
            }
        }),
{
}

/// An engine's command answers with what it printed, trimmed, exactly when it
/// succeeded; otherwise the error is its own, or what became of it.
pub proof fn law_a_command_answers_when_it_succeeds(o: CommandOutcome)
    ensures
        answer_of(o) is Ok <==> (o matches CommandOutcome::Exited { success, .. } && success),
        o is TimedOut ==> answer_of(o)->Err_0 == "engine command timed out"@,
        o matches CommandOutcome::NotStarted(m) ==> answer_of(o)->Err_0
            == "engine command could not start: "@ + m@,
        o matches CommandOutcome::Exited { success, status, stdout, stderr } ==> (success
            ==> answer_of(o)->Ok_0 == text::trim(stdout@)) && (!success && text::trim(stderr@).len()
            > 0 ==> answer_of(o)->Err_0 == text::trim(stderr@)) && (!success && text::trim(
            stderr@,
        ).len() == 0 ==> answer_of(o)->Err_0 == "engine command exited with "@ + status@),
{
}

/// Where the engine's answers are both there, what it says of itself is the mode
/// that was read and the document that it printed.
pub proof fn law_the_engine_is_known_by_two_answers(
    mode_answer: Result<Seq<char>, Seq<char>>,
    mode: Result<(EngineMode, bool), Seq<char>>,
    json_answer: Result<Seq<char>, Seq<char>>,
)
    ensures
        ({
            let info = info_of(mode_answer, mode, json_answer);
            &&& info is Ok <==> mode_answer is Ok && json_answer is Ok && json::document(
                json_answer->Ok_0,
            ) is Ok
            &&& info matches Ok(i) ==> i.mode == mode && Ok::<JsonView, Seq<char>>(i.json)
                == json::document(json_answer->Ok_0)
            &&& mode_answer matches Err(e) ==> info == Err::<EngineInfoView, Seq<char>>(e)
        }),
{
}

/// A key is found where a text stands under it, in the order of the keys, first in
/// the object itself.
pub proof fn law_the_nearest_key_is_found(
    fields: Seq<FieldView>,
    keys: Seq<Seq<char>>,
    value: Seq<char>,
)
    requires
        keys.len() > 0,
        JsonView::Object(fields).field_text(keys[0]) == Some(value),
    ensures
        found(JsonView::Object(fields), keys) == Some(value),
{
}

/// The report passes on the checks, the time and the image, and is ready exactly
/// when every check passed.
pub proof fn law_the_report_is_of_its_checks(
    checks: Seq<CheckView>,
    now: Timestamp,
    image: Option<Seq<char>>,
)
    ensures
        ({
            let r = report_of(checks, now, image);
            &&& r.schema_version == "1.0.0"@
            &&& r.generated_at == now
            &&& r.checks == checks
            &&& r.verified_image == image
            &&& r.diagnostic_canary is None
            &&& r.verdict == ReadinessVerdict::Ready <==> forall|i: int|
                0 <= i < checks.len() ==> (#[trigger] checks[i]).status == CheckStatus::Pass
        }),
{
}

proof fn lemma_failed_are_listed(checks: Seq<CheckView>, n: int, c: CheckView)
    requires
        0 <= n <= checks.len(),
    ensures
        failing(checks, n).contains(c) <==> c.status == CheckStatus::Fail && exists|i: int|
            0 <= i < n && #[trigger] checks[i] == c,
    decreases n,
{
    if n > 0 {
        lemma_failed_are_listed(checks, n - 1, c);
        let before = failing(checks, n - 1);
        let all = failing(checks, n);
        if before.contains(c) {
            let i = choose|i: int| 0 <= i < before.len() && before[i] == c;
            assert(all[i] == c);
        }
        if checks[n - 1].status == CheckStatus::Fail {
            assert(all[before.len() as int] == checks[n - 1]);
        }
        if all.contains(c) && !before.contains(c) {
            let i = choose|i: int| 0 <= i < all.len() && all[i] == c;
            if i < before.len() {
                assert(before[i] == c);
            }
        }
    }
}

/// The failing checks are the checks that failed, and no others.
pub proof fn law_every_failed_check_is_reported(checks: Seq<CheckView>, c: CheckView)
    ensures
        failing(checks, checks.len() as int).contains(c) <==> c.status == CheckStatus::Fail
            && checks.contains(c),
{
    lemma_failed_are_listed(checks, checks.len() as int, c);
}

/// A host that is not ready is refused with its failed checks; one that is ready
/// hands on its image.
pub proof fn law_a_host_is_used_when_ready(report: ReportView)
    ensures
        report.verdict == ReadinessVerdict::Ready ==> (report.verified_image matches Some(i)
            ==> dispatch_of(report) == Ok::<Seq<char>, Fault>(i)),
        report.verdict == ReadinessVerdict::Ready && report.verified_image is None ==> dispatch_of(
            report,
        ) is Err,
        report.verdict == ReadinessVerdict::Unavailable ==> dispatch_of(report) is Err
            && dispatch_of(report)->Err_0 is OciReadinessUnavailable,
        report.verdict == ReadinessVerdict::Unavailable ==> dispatch_of(
            report,
        )->Err_0->OciReadinessUnavailable_0.len() == failing(
            report.checks,
            report.checks.len() as int,
        ).len(),
{
}

/// What a refusal says of a failed check.
pub proof fn law_a_refusal_names_check_and_remedy(c: CheckView)
    ensures
        failure_of(c).check == c.id.label(),
        failure_of(c).detail == c.detail,
        c.remediation matches Some(r) ==> failure_of(c).remediation == r,
        c.remediation is None ==> failure_of(c).remediation
            == "repair the failing host or configuration check"@,
{
}

/// The printed report: one line for each check with its status, then the verdict.
pub proof fn law_the_printed_report_says_it_all(report: ReportView, c: CheckView)
    ensures
        c.status == CheckStatus::Pass && c.remediation is None ==> check_lines(c) == "  ["@
            + "PASS"@ + "] "@ + c.id.label() + ": "@ + c.detail + "\n"@,
        c.status == CheckStatus::Fail ==> (c.remediation matches Some(r) ==> check_lines(c)
            == "  ["@ + "FAIL"@ + "] "@ + c.id.label() + ": "@ + c.detail + "\n"@ + (
        "         remediation: "@ + r + "\n"@)),
        report.diagnostic_canary is None && report.verdict == ReadinessVerdict::Ready ==> rendered(
            report,
        ) == lines_of(report.checks, report.checks.len() as int) + ("  readiness: "@ + "READY"@
            + "\n"@),
        report.diagnostic_canary is None && report.verdict == ReadinessVerdict::Unavailable
            ==> rendered(report) == lines_of(report.checks, report.checks.len() as int) + (
        "  readiness: "@ + "UNAVAILABLE"@ + "\n"@),
        report.checks.len() > 0 ==> lines_of(report.checks, report.checks.len() as int) == lines_of(
            report.checks,
            report.checks.len() - 1,
        ) + check_lines(report.checks.last()),
        lines_of(report.checks, 0) == "caduceus doctor\n"@,
{
}

/// The checks by their names.
pub proof fn law_checks_have_their_names()
    ensures
        CheckId::Platform.label() == "platform"@,
        CheckId::Engine.label() == "engine"@,
        CheckId::Mode.label() == "mode"@,
        CheckId::Namespace.label() == "namespace"@,
        CheckId::Resources.label() == "resources"@,
        CheckId::Filesystem.label() == "filesystem"@,
        CheckId::Image.label() == "image"@,
        CheckId::Network.label() == "network"@,
        CheckId::Primitives.label() == "primitives"@,
{
}

/// What a failed check says, and what it advises.
pub proof fn law_failed_checks_advise(
    engine: SandboxEngine,
    os: Seq<char>,
    error: Seq<char>,
    json: JsonView,
    mode: (EngineMode, bool),
)
    requires
        os != "linux"@,
    ensures
        platform_check(engine, os, None) == (CheckView {
            id: CheckId::Platform,
            status: CheckStatus::Fail,
            detail: "unsupported host platform "@ + os,
            remediation: Some("run OCI workers on a supported Linux host"@),
        }),
        engine_check(engine, Err(error)) == (CheckView {
            id: CheckId::Engine,
            status: CheckStatus::Fail,
            detail: error,
            remediation: Some(
                "start the "@ + engine.binary() + " daemon and confirm `"@ + engine.binary()
                    + "` succeeds"@,
            ),
        }),
        mode_check(Ok(EngineInfoView { mode: Err(error), json })) == (CheckView {
            id: CheckId::Mode,
            status: CheckStatus::Fail,
            detail: error,
            remediation: Some(
                "run the configured engine's info command and repair the daemon configuration"@,
            ),
        }),
        namespace_check(Ok(EngineInfoView { mode: Err(error), json })) == (CheckView {
            id: CheckId::Namespace,
            status: CheckStatus::Fail,
            detail: "namespace safety could not be evaluated"@,
            remediation: Some(
                "make the engine info probe succeed before dispatching OCI workers"@,
            ),
        }),
        mode.1 ==> namespace_check(Ok(EngineInfoView { mode: Ok(mode), json })).remediation == Some(
            "disable userns-remap or switch the engine to a supported rootless configuration"@,
        ),
        network_check(SandboxNetwork::Bridge, Err(error)).remediation == Some(
            "create or repair the engine's default bridge network, or select network: none"@,
        ),
        network_check(SandboxNetwork::Bridge, Ok(error)).detail
            == "the default bridge network is available"@,
        network_check(SandboxNetwork::Off, Err(error)).detail
            == "network none is representable by the configured engine"@,
{
}

/// What the check of the resources says.
pub proof fn law_the_resources_say_what_is_missing(
    cgroup_root: Seq<char>,
    i: EngineInfoView,
    seen: CgroupObservation,
)
    ensures
        ({
            let c = resources_check(cgroup_root, Ok(i), seen);
            let second = found(i.json, seq!["CgroupVersion"@, "CgroupVersion"@]) == Some("2"@);
            let ok = c.status == CheckStatus::Pass;
            &&& second && ok ==> c.detail == "cgroup v2 exposes cpu, memory, and pids"@
            &&& !second && ok ==> c.detail == "cgroup controller paths are available"@
            &&& second && seen.controllers is Ok && !ok ==> ({
                let names = text::words(seen.controllers->Ok_0@);
                c.detail == "cgroup v2 is missing controller(s): "@ + text::joined(
                    missing(
                        names.contains("cpu"@),
                        names.contains("memory"@),
                        names.contains("pids"@),
                    ),
                    ", "@,
                ) && c.remediation == Some(
                    "delegate cpu, memory, and pids controllers to the engine's cgroup scope"@,
                )
            })
            &&& second && seen.controllers is Err ==> c.detail == "cannot read "@ + path::joined(
                cgroup_root,
                "cgroup.controllers"@,
            ) + ": "@ + seen.controllers->Err_0@ && c.remediation == Some(
                "make the engine cgroup scope readable and delegate cpu, memory, and pids"@,
            )
            &&& !second && !ok ==> c.detail == "required cgroup controller(s) are unavailable: "@
                + text::joined(missing(seen.has_cpu, seen.has_memory, seen.has_pids), ", "@)
                && c.remediation == Some(
                "mount and delegate cpu, memory, and pids cgroup controllers to the engine"@,
            )
        }),
{
}

/// What the check of the resource primitives says.
pub proof fn law_the_primitives_say_what_is_missing(i: EngineInfoView)
    ensures
        ({
            let c = primitives_check(Ok(i));
            let driver = found(i.json, seq!["CgroupDriver"@, "CgroupManager"@, "Driver"@]);
            &&& driver is None ==> c.remediation == Some(
                "upgrade or configure the engine so its resource driver is exposed"@,
            )
            &&& driver is Some && c.status == CheckStatus::Fail ==> c.detail
                == "engine reports no usable cgroup driver"@ && c.remediation == Some(
                "configure the engine with cgroup resource-control support"@,
            )
        }),
{
}

/// What is said of a directory that is not healthy.
pub proof fn law_an_unhealthy_directory_is_named(
    role: Seq<char>,
    dir: Seq<char>,
    strict: bool,
    f: PathFacts,
    uid: u32,
)
    ensures
        ({
            let c = path_complaint(role, dir, strict, PathObservation { facts: Ok(f) }, uid);
            let plain = !f.is_symlink && f.is_dir;
            let open = strict && f.mode & 0o777 != 0o700 || !strict && f.mode & 0o022 != 0;
            &&& f.is_symlink ==> c == Some(
                CheckView {
                    id: CheckId::Filesystem,
                    status: CheckStatus::Fail,
                    detail: "required directory is a symlink: "@ + dir,
                    remediation: Some("replace the symlink with a daemon-owned directory"@),
                },
            )
            &&& !f.is_symlink && !f.is_dir ==> c == Some(
                CheckView {
                    id: CheckId::Filesystem,
                    status: CheckStatus::Fail,
                    detail: "required path is not a directory: "@ + dir,
                    remediation: Some("replace the configured path with a daemon-owned directory"@),
                },
            )
            &&& plain && strict && open ==> c == Some(
                CheckView {
                    id: CheckId::Filesystem,
                    status: CheckStatus::Fail,
                    detail: dir + " has mode "@ + octal(f.mode & 0o777) + "; expected 700"@,
                    remediation: Some("chmod 700 "@ + dir),
                },
            )
            &&& plain && !strict && open ==> c == Some(
                CheckView {
                    id: CheckId::Filesystem,
                    status: CheckStatus::Fail,
                    detail: dir + " has mode "@ + octal(f.mode & 0o777)
                        + "; group/other write access is not allowed"@,
                    remediation: Some("chmod u+rwX,go-w "@ + dir),
                },
            )
            &&& plain && !open && f.uid != uid ==> c == Some(
                CheckView {
                    id: CheckId::Filesystem,
                    status: CheckStatus::Fail,
                    detail: dir + " is owned by uid "@ + text::dec(f.uid as nat)
                        + ", expected daemon uid "@ + text::dec(uid as nat),
                    remediation: Some("chown "@ + text::dec(uid as nat) + " "@ + dir),
                },
            )
        }),
{
}

/// A mode is written with three octal digits.
pub proof fn law_modes_are_written_in_octal(a: u32, b: u32, c: u32)
    requires
        a < 8,
        b < 8,
        c < 8,
    ensures
        octal((64 * a + 8 * b + c) as u32) == seq![
            text::digit(a as nat),
            text::digit(b as nat),
            text::digit(c as nat),
        ],
{
    let m = (64 * a + 8 * b + c) as u32;
    assert(m / 64 == a);
    assert(m / 8 == 8 * a + b);
    assert(m / 8 % 8 == b);
    assert(m % 8 == c);
}

/// What the check of the file systems says where the directories are healthy.
pub proof fn law_the_storage_says_what_is_short(
    state_dir: Seq<char>,
    storage_root: Seq<char>,
    workdir: Seq<char>,
    reserved_mb: u64,
    seen: StorageObservation,
    i: int,
)
    requires
        reserved_mb <= 1000000000,
        path_complaint("state"@, state_dir, false, seen.state, seen.daemon_uid) is None,
        path_complaint(
            "repository-storage"@,
            storage_root,
            true,
            seen.repository_storage,
            seen.daemon_uid,
        ) is None,
        path_complaint("worktree"@, workdir, false, seen.worktree, seen.daemon_uid) is None,
    ensures
        ({
            let c = filesystem_check(state_dir, storage_root, workdir, reserved_mb, seen);
            &&& seen.samples matches Err(e) ==> c.detail == "filesystem probe failed: "@ + e@
                && c.remediation == Some(
                "make all configured storage paths readable and writable, then rerun doctor"@,
            )
            &&& c.status == CheckStatus::Pass ==> c.detail
                == "configured storage paths and disk reserve are healthy"@
            &&& seen.samples matches Ok(v) ==> (0 <= i < v@.len() && v@[i].free_bytes < reserved_mb
                * 1048576 && (forall|j: int|
                0 <= j < i ==> (#[trigger] v@[j]).free_bytes >= reserved_mb * 1048576) ==> c.detail
                == v@[i].representative_path@ + " has "@ + text::dec(v@[i].free_bytes as nat)
                + " bytes free below the "@ + text::dec((reserved_mb * 1048576) as nat)
                + " byte reserve"@ && c.remediation == Some(
                "free space on every filesystem hosting Caduceus state and worktrees"@,
            ))
        }),
{
    if seen.samples is Ok {
        let v = seen.samples->Ok_0@;
        lemma_short_sample(v, reserve_of(reserved_mb), 0);
        match short_sample(v, reserve_of(reserved_mb), 0) {
            Some(k) => {
                if 0 <= i < v.len() && i < k {
                    assert(v[i].free_bytes >= reserve_of(reserved_mb));
                }
                if k < i {
                    assert(v[k].free_bytes < reserve_of(reserved_mb));
                }
            },
            None => {},
        }
    }
}

/// What the check of the image says.
pub proof fn law_the_image_says_what_it_is(
    image: Seq<char>,
    seen: ImageObservation,
    platform: HostPlatform,
)
    ensures
        ({
            let c = image_check(image, seen, platform);
            &&& !digest_pinned(image) ==> c.remediation == Some(
                "set sandbox.image to name@sha256:<64 hex characters>"@,
            )
            &&& digest_pinned(image) && seen.acquisition is Ok && platform.variant is None
                ==> c.detail == image + " is present, digest-verified, and matches "@
                + platform.architecture@
            &&& digest_pinned(image) && seen.acquisition is Ok ==> (platform.variant matches Some(v)
                ==> c.detail == image + " is present, digest-verified, and matches "@ + (
            platform.architecture@ + "/"@ + v@))
            &&& digest_pinned(image) ==> (seen.acquisition matches Err(e) ==> c.detail == e@
                && c.remediation == Some(
                "make the configured immutable image present or pullable for this host architecture"@,
            ))
        }),
{
}

/// What is said of a host without a sandbox, of a document that does not parse, and
/// of a ready host without an image; and the canary at the end of the report.
pub proof fn law_odd_hosts_are_told(
    cfg: Config,
    options: ProbeOptions,
    seen: LiveObservations,
    report: ReportView,
    c: CanaryView,
    body: Seq<char>,
    mode: Result<(EngineMode, bool), Seq<char>>,
)
    ensures
        cfg.sandbox is None ==> live_checks(cfg, options, seen)[0].detail
            == "no sandbox configuration is present"@ && live_checks(
            cfg,
            options,
            seen,
        )[0].remediation == Some(
            "configure executor_mode: oci and a complete sandbox section, or keep trusted_host mode"@,
        ),
        default_options(options) <==> options.cgroup_root@ == "/sys/fs/cgroup"@
            && options.engine_binary is None,
        report.verdict == ReadinessVerdict::Ready && report.verified_image is None ==> dispatch_of(
            report,
        ) == Err::<Seq<char>, Fault>(
            Fault::Other("readiness passed without verified image facts"@),
        ),
        json::document(body) matches Err(e) ==> info_of(Ok(body), mode, Ok(body)) == Err::<
            EngineInfoView,
            Seq<char>,
        >("engine info JSON is invalid: "@ + e),
        report.diagnostic_canary == Some(c) ==> {
            let bare = rendered(ReportView { diagnostic_canary: None, ..report });
            &&& c.status == DiagnosticStatus::Pass ==> rendered(report) == bare + (
            "  diagnostic canary: "@ + "PASS"@ + ": "@ + c.detail + "\n"@)
            &&& c.status == DiagnosticStatus::Skip ==> rendered(report) == bare + (
            "  diagnostic canary: "@ + "SKIP"@ + ": "@ + c.detail + "\n"@)
            &&& c.status == DiagnosticStatus::Failure ==> rendered(report) == bare + (
            "  diagnostic canary: "@ + "FAILURE"@ + ": "@ + c.detail + "\n"@)
        },
{
}

} // verus!
