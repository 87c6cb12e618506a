use caduceus::config::Config;
use caduceus::error::CaduceusError;
use caduceus::issue::IssueKey;
use caduceus::json::{parse_json, parse_json_bytes};
use caduceus::link::{join_api_path, next_url_from_link_header};
use caduceus::poll::{
    configured_repos, parse_next_link, poll_code, poll_investigation, rate_limit_from_headers,
    validated_configured_repos, RepoDiscovery, RepoObject, RepoPage,
};
use caduceus::runtime::audit::refuse_auto_merge;
use caduceus::state::queue::TicketType;
use caduceus::text::{is_white_space, trimmed};
use caduceus::time::Timestamp;
use caduceus::verify::{
    issue_path, verify_trigger, IssueAnswer, IssueObject, IssueResponse, SkipReason, VerifyOutcome,
};
use caduceus::worker::{
    parse_result_file, read_capped_file, validate_worker_result, Artifact, ResultFile,
    WorkerResult, WorkerStatus,
};

const NOW: i64 = 1_700_000_000;

fn config(repos: &[&str]) -> Config {
    Config {
        circuit_failure_threshold: 3,
        circuit_backoff_seconds: vec![1],
        circuit_open_interval_seconds: 1,
        circuit_max_degraded_seconds: 1,
        repo_storage_root: "/store".to_string(),
        sandbox: None,
        state_dir: "/state".to_string(),
        ticket_label_code: "agent".to_string(),
        ticket_label_investigation: "look".to_string(),
        watched_repos: repos.iter().map(|r| r.to_string()).collect(),
        workdir_base: "/work".to_string(),
    }
}

#[test]
fn configured_repositories_are_distinct_and_sorted() {
    let names: Vec<String> =
        ["b/B", "A/a", "B/b", "not a slug", "c/c"].iter().map(|s| s.to_string()).collect();
    assert_eq!(validated_configured_repos(&names), vec!["A/a", "b/B", "c/c"]);
    assert_eq!(configured_repos(&config(&["o/r"])), Some(vec!["o/r".to_string()]));
    assert_eq!(configured_repos(&config(&[])), None);
}

fn repo(name: Option<&str>, archived: bool) -> RepoObject {
    RepoObject { full_name: name.map(|n| n.to_string()), archived, disabled: false }
}

fn page(repos: Result<Vec<RepoObject>, String>, link: Option<&str>) -> RepoPage {
    RepoPage {
        ratelimit_remaining: Some("7".to_string()),
        ratelimit_limit: None,
        ratelimit_reset: None,
        repos,
        link: link.map(|l| l.to_string()),
    }
}

#[test]
fn repositories_are_discovered_page_by_page() {
    let mut d = RepoDiscovery::start("https://api.github.com").unwrap();
    assert_eq!(
        d.next_request().unwrap().as_deref(),
        Some("https://api.github.com/user/repos?per_page=100&sort=full_name")
    );
    let next = "<https://api.github.com/user/repos?page=2>; rel=\"next\"";
    let first = vec![repo(Some("b/b"), false), repo(Some("x/x"), true), repo(Some("B/B"), false)];
    d.page_received(&page(Ok(first), Some(next)), NOW).unwrap();
    assert_eq!(
        d.next_request().unwrap().as_deref(),
        Some("https://api.github.com/user/repos?page=2")
    );
    d.page_received(&page(Ok(vec![repo(Some("a/a"), false)]), None), NOW).unwrap();
    assert_eq!(d.next_request().unwrap(), None);
    assert_eq!(d.finish(), vec!["a/a", "b/b"]);
}

#[test]
fn discovery_refuses_what_it_cannot_read() {
    let mut d = RepoDiscovery::start("https://api.github.com").unwrap();
    d.next_request().unwrap();
    let message = |r: Result<(), CaduceusError>| match r.err().unwrap() {
        CaduceusError::Other(m) => m,
        _ => panic!(),
    };
    assert_eq!(
        message(d.page_received(&page(Err("eof".to_string()), None), NOW)),
        "repository discovery page 1: JSON parse: eof"
    );
    assert_eq!(
        message(d.page_received(&page(Ok(vec![repo(None, false)]), None), NOW)),
        "repository discovery page 1: missing full_name"
    );
    assert_eq!(
        message(d.page_received(&page(Ok(vec![repo(Some("bad"), false)]), None), NOW)),
        "repository discovery page 1: invalid slug bad"
    );
    assert!(RepoDiscovery::start("not a url").is_err());
}

#[test]
fn discovery_ends_after_twenty_pages() {
    let mut d = RepoDiscovery::start("https://api.github.com").unwrap();
    let next = "<https://api.github.com/user/repos?page=2>; rel=\"next\"";
    for _ in 0..20 {
        assert!(d.next_request().unwrap().is_some());
        d.page_received(&page(Ok(Vec::new()), Some(next)), NOW).unwrap();
    }
    match d.next_request().err().unwrap() {
        CaduceusError::Other(m) => assert_eq!(m, "repository discovery exceeded 20 pages"),
        _ => panic!(),
    }
}

#[test]
fn an_exhausted_rate_limit_is_an_error() {
    let reset = format!("{}", NOW + 30);
    match rate_limit_from_headers(Some("0"), Some("5000"), Some(&reset), NOW).unwrap() {
        CaduceusError::RateLimited { reset_at, remaining, limit } => {
            assert_eq!(reset_at, 30);
            assert_eq!(remaining, 0);
            assert_eq!(limit, Some(5000));
        }
        _ => panic!(),
    }
    assert!(matches!(
        rate_limit_from_headers(Some("0"), None, Some("-5"), NOW).unwrap(),
        CaduceusError::RateLimited { reset_at: 0, limit: None, .. }
    ));
    assert!(rate_limit_from_headers(Some("1"), None, Some(&reset), NOW).is_none());
    assert!(rate_limit_from_headers(Some("x"), None, Some(&reset), NOW).is_none());
    assert!(rate_limit_from_headers(Some("0"), None, None, NOW).is_none());
    assert!(rate_limit_from_headers(None, None, Some(&reset), NOW).is_none());
}

#[test]
fn links_are_followed() {
    let h = "<https://x/a?page=1>; rel=\"prev\", <https://x/a?page=3>; rel=\"next\"";
    assert_eq!(next_url_from_link_header(h).as_deref(), Some("https://x/a?page=3"));
    assert_eq!(next_url_from_link_header("<https://x>; rel=\"last\""), None);
    assert_eq!(parse_next_link(&Some(h.to_string())).as_deref(), Some("https://x/a?page=3"));
    assert_eq!(parse_next_link(&Some("<nonsense>; rel=\"next\"".to_string())), None);
    assert_eq!(parse_next_link(&None), None);
    assert_eq!(
        join_api_path("https://api.github.com", "/repos/o/r?x=1").as_deref(),
        Some("https://api.github.com/repos/o/r?x=1")
    );
    assert_eq!(
        join_api_path("https://api.github.com/v3?y=2", "/repos/o/r").as_deref(),
        Some("https://api.github.com/repos/o/r?y=2")
    );
    assert_eq!(join_api_path("no url", "/repos/o/r"), None);
}

#[test]
fn polling_finds_nothing() {
    let now = Timestamp { secs: NOW, nanos: 0 };
    assert!(poll_code(now).is_empty());
    assert!(poll_investigation(now).is_empty());
}

fn issue(state: Option<&str>, labels: &[&str], pr: bool) -> IssueObject {
    IssueObject {
        state: state.map(|s| s.to_string()),
        labels: Some(labels.iter().map(|l| Some(l.to_string())).collect()),
        is_pull_request: pr,
    }
}

fn answer(status: u16, url: &str, issue: Result<IssueObject, String>) -> IssueAnswer {
    IssueAnswer::Response(IssueResponse {
        status,
        final_url: url.to_string(),
        body: "boom".to_string(),
        issue,
    })
}

fn look(a: IssueAnswer) -> Result<VerifyOutcome, CaduceusError> {
    let key = IssueKey { owner: "o".to_string(), repo: "r".to_string(), number: 4 };
    verify_trigger(a, &key, TicketType::Code, &config(&[]))
}

const URL: &str = "https://api.github.com/repos/o/r/issues/4";

fn skipped(a: IssueAnswer) -> SkipReason {
    match look(a).unwrap() {
        VerifyOutcome::Skip { reason } => reason,
        VerifyOutcome::Proceed => panic!(),
    }
}

#[test]
fn a_fitting_issue_proceeds() {
    let key = IssueKey { owner: "o".to_string(), repo: "r".to_string(), number: 4 };
    assert_eq!(issue_path(&key), "/repos/o/r/issues/4");
    let good = answer(200, URL, Ok(issue(None, &["AGENT"], false)));
    assert_eq!(look(good).unwrap(), VerifyOutcome::Proceed);
}

#[test]
fn an_unfit_issue_is_skipped() {
    let i = |state: Option<&str>, labels: &[&str], pr: bool| {
        answer(200, URL, Ok(issue(state, labels, pr)))
    };
    assert_eq!(skipped(i(Some("Closed"), &["agent"], false)), SkipReason::Closed);
    assert_eq!(skipped(i(None, &["agent"], true)), SkipReason::PullRequest);
    assert_eq!(skipped(i(None, &["agent", "look"], false)), SkipReason::LabelRemoved);
    assert_eq!(skipped(i(None, &["other"], false)), SkipReason::LabelRemoved);
    let moved = answer(200, "https://api.github.com/repos/x/y/issues/4", Err(String::new()));
    assert_eq!(skipped(moved), SkipReason::Transferred);
    assert_eq!(skipped(answer(404, URL, Err(String::new()))), SkipReason::NotFound);
    let gone = CaduceusError::GitHubApi { status: 404, message: String::new() };
    assert_eq!(skipped(IssueAnswer::Failed(gone)), SkipReason::NotFound);
    assert_eq!(SkipReason::LabelRemoved.as_str(), "label_removed");
}

#[test]
fn other_failures_are_passed_on() {
    match look(answer(500, URL, Err(String::new()))).err().unwrap() {
        CaduceusError::GitHubApi { status, message } => {
            assert_eq!(status, 500);
            assert_eq!(message, "boom");
        }
        _ => panic!(),
    }
    match look(answer(200, URL, Err("eof".to_string()))).err().unwrap() {
        CaduceusError::Other(m) => assert_eq!(m, "verify_trigger: JSON parse for o/r#4: eof"),
        _ => panic!(),
    }
    assert!(matches!(
        look(IssueAnswer::Failed(CaduceusError::Cancelled)).err().unwrap(),
        CaduceusError::Cancelled
    ));
}

#[test]
fn documents_are_trees() {
    let j = parse_json(r#"{"a":{"b":[-1,2.5,"x"]},"n":18446744073709551615}"#);
    let j = j.unwrap_or_else(|_| panic!());
    assert_eq!(j.get("n").unwrap().value.as_u64(), Some(u64::MAX));
    assert_eq!(j.get("n").unwrap().value.as_i64(), None);
    assert_eq!(j.get("a").unwrap().text, r#"{"b":[-1,2.5,"x"]}"#);
    assert_eq!(j.get_text("a"), None);
    assert!(parse_json("nul").is_err());
    let b = parse_json_bytes(&br#"{"a":"x"}"#.to_vec()).unwrap_or_else(|_| panic!());
    assert_eq!(b.get_text("a"), Some("x".to_string()));
    assert!(parse_json_bytes(&vec![0xff]).is_err());
}

fn result() -> WorkerResult {
    WorkerResult {
        status: WorkerStatus::Success,
        summary: "did it".to_string(),
        commit_message: "do it".to_string(),
        pull_request_title: "Do it".to_string(),
        artifacts: vec![Artifact { key: "k".to_string(), value: "v".to_string() }],
        investigation: false,
    }
}

fn key() -> IssueKey {
    IssueKey { owner: "o".to_string(), repo: "r".to_string(), number: 4 }
}

#[test]
fn worker_results_are_checked() {
    assert!(validate_worker_result(&result(), &key()).is_ok());
    let mut r = result();
    r.pull_request_title = "two\nlines".to_string();
    assert!(validate_worker_result(&r, &key()).is_err());
    for bad in ["a\rb", "a\r\nb", "a\tb", "a\u{7f}b"] {
        let mut r = result();
        r.commit_message = bad.to_string();
        match validate_worker_result(&r, &key()) {
            Err(CaduceusError::Config(m)) => {
                assert_eq!(m, "commit_message contains control characters")
            }
            _ => panic!(),
        }
    }
    let mut r = result();
    r.commit_message = "a\nb".to_string();
    assert!(validate_worker_result(&r, &key()).is_ok());
    let mut r = result();
    r.summary = String::new();
    assert!(validate_worker_result(&r, &key()).is_err());
    let mut r = result();
    r.pull_request_title = "é".repeat(256);
    assert!(validate_worker_result(&r, &key()).is_ok());
    r.pull_request_title = "é".repeat(257);
    match validate_worker_result(&r, &key()) {
        Err(CaduceusError::Config(m)) => {
            assert_eq!(m, "pull_request_title exceeds limit of 256 characters (got 257)")
        }
        _ => panic!(),
    }
    let mut r = result();
    r.summary = "é".repeat(32769);
    match validate_worker_result(&r, &key()) {
        Err(CaduceusError::Config(m)) => {
            assert_eq!(m, "summary exceeds limit of 65536 bytes (got 65538)")
        }
        _ => panic!(),
    }
    assert!(parse_result_file("/p", Err("eof".to_string()), &key()).is_err());
    assert!(parse_result_file("/p", Ok(result()), &key()).is_ok());
}

#[test]
fn result_files_are_capped() {
    let opened = |size: u64| ResultFile::Opened { is_file: true, size, body: Ok(vec![1]) };
    assert_eq!(read_capped_file(opened(1), "/p", 4).unwrap(), vec![1]);
    assert!(read_capped_file(opened(5), "/p", 4).is_err());
    assert!(read_capped_file(ResultFile::OpenFailed("x".to_string()), "/p", 4).is_err());
    assert!(read_capped_file(ResultFile::StatFailed("x".to_string()), "/p", 4).is_err());
    let dir = ResultFile::Opened { is_file: false, size: 1, body: Ok(Vec::new()) };
    assert!(read_capped_file(dir, "/p", 4).is_err());
}

#[test]
fn nothing_is_merged_automatically() {
    match refuse_auto_merge() {
        Err(CaduceusError::Other(m)) => assert_eq!(
            m,
            "auto-merge is refused: human review is required for all PR merges (FINAL-001 AC-04; see src/state/checkpoints.rs)"
        ),
        _ => panic!(),
    }
}

#[test]
fn white_space_is_that_of_unicode() {
    for n in 0..=0x10ffff_u32 {
        if let Some(c) = char::from_u32(n) {
            assert_eq!(is_white_space(c), c.is_whitespace());
        }
    }
    assert_eq!(trimmed("\u{3000} a b\t\u{a0}"), "a b");
}
