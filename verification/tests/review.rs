use caduceus::error::CaduceusError;
use caduceus::review::finalize::{
    backoff_delay, begin_finalize, claim_decoded, claim_for_publication, finish_publication,
    truncate_error, ClaimStep, DueFinalization, FinalizeOutcome, FinalizeStart,
};
use caduceus::review::sticky_comment::{
    begin_publish, find_marked, findings_in_severity_order, first_page_url, next_page_url,
    next_step, push_char_bounded, render_sticky_comment, MarkerComment, MarkerSearch, MergeStatus,
    PublishEvent, PublishStep, RenderInput, StickyOutcome, REVIEW_MARKER,
    STICKY_COMMENT_MAX_BYTES, TRUNCATION_NOTICE,
};
use caduceus::review::{
    parse_review_result, validate_review_result, validate_review_state, validate_review_target,
    ExecutionStatus, Finding, PublicationState, RepositoryId, Review, ReviewResult, ReviewState,
    ReviewTarget, Severity, Verdict,
};
use caduceus::state::review::history::ReviewHistoryRow;
use caduceus::state::review::queue::{ReviewEnqueueOutcome, ReviewPhase};
use caduceus::state::review::rows::{
    load_history_sqlite, load_queue_sqlite, load_state_map_sqlite, review_history_row,
    review_queue_row, review_state_row, StoredRow,
};
use caduceus::state::review::state::ReviewStore;
use caduceus::state::review::{review_claim_digest, review_queue_key, review_state_key};
use caduceus::time::Timestamp;

fn at(secs: i64) -> Timestamp {
    Timestamp { secs: 1_700_000_000 + secs, nanos: 0 }
}

fn repository() -> RepositoryId {
    RepositoryId { owner: "Owner".to_string(), repo: "Repo".to_string() }
}

fn target(pr: u64, head: &str) -> ReviewTarget {
    ReviewTarget {
        repository: repository(),
        pull_request: pr,
        head_sha: head.to_string(),
        base_sha: "b".repeat(40),
        base_ref: "main".to_string(),
        merge_base: "c".repeat(40),
    }
}

fn store() -> ReviewStore {
    ReviewStore::open("/state", None, None, None).unwrap()
}

fn none() -> Vec<String> {
    Vec::new()
}

fn review(verdict: Verdict) -> Review {
    Review { verdict, summary: "Looks fine.".to_string(), findings: Vec::new() }
}

fn result() -> ReviewResult {
    ReviewResult {
        schema_version: 1,
        status: ExecutionStatus::Success,
        review: Some(review(Verdict::Pass)),
    }
}

const RESULT_JSON: &str =
    r#"{"schema_version":1,"status":"success","review":{"verdict":"pass","summary":"Looks fine.","findings":[]}}"#;

fn row(run: &str, generation: u64) -> ReviewHistoryRow {
    ReviewHistoryRow {
        review_run_id: run.to_string(),
        repository: repository(),
        pull_request: 5,
        head_sha: "a".repeat(40),
        review_generation: generation,
        completed_at: at(10),
        result_json: RESULT_JSON.to_string(),
    }
}

fn finding(severity: Severity, title: &str) -> Finding {
    Finding {
        severity,
        title: title.to_string(),
        body: "body".to_string(),
        path: Some("src/a.rs".to_string()),
        line: Some(3),
        remediation: None,
    }
}

#[test]
fn keys_are_lowercase() {
    assert_eq!(review_state_key(&repository(), 5), "owner/repo#5");
    let mixed = RepositoryId { owner: "OctoCat".to_string(), repo: "Hello".to_string() };
    assert_eq!(review_state_key(&mixed, 7), "octocat/hello#7");
    let wide = RepositoryId { owner: "ÄB".to_string(), repo: "ΟΔΟΣ".to_string() };
    assert_eq!(review_state_key(&wide, 7), "äb/οδος#7");
    assert_ne!(review_state_key(&mixed, 7), review_state_key(&mixed, 77));
    assert_ne!(review_state_key(&mixed, 7), review_state_key(&repository(), 7));
    assert_eq!(review_queue_key(&target(5, "AB")), "owner/repo#5@AB");
    assert_eq!(review_claim_digest("x").len(), 64);
}

#[test]
fn an_admitted_target_is_in_flight() {
    let mut s = store();
    let t = target(5, "aa");
    assert!(!s.is_active_or_reviewed(&t).unwrap());
    let first = s.enqueue_review(&t, at(0)).unwrap();
    assert!(matches!(first, ReviewEnqueueOutcome::Inserted));
    assert!(s.is_active_or_reviewed(&t).unwrap());
    let again = s.enqueue_review(&t, at(1)).unwrap();
    assert!(matches!(again, ReviewEnqueueOutcome::AlreadyPresent));
    let state = s.review_state(&repository(), 5).unwrap();
    assert_eq!(state.review_generation, 1);
    s.enqueue_review(&target(5, "bb"), at(2)).unwrap();
    assert_eq!(s.review_state(&repository(), 5).unwrap().review_generation, 2);
    assert!(s.review_state(&repository(), 6).is_none());
}

#[test]
fn a_review_claim_is_exclusive() {
    let mut s = store();
    s.enqueue_review(&target(5, "aa"), at(0)).unwrap();
    let c = s.acquire_next_review("run-1", at(1), &none()).unwrap().unwrap();
    assert_eq!(c.entry.phase, ReviewPhase::InProgress);
    assert!(s.acquire_next_review("run-2", at(1), &none()).unwrap().is_none());
    s.complete_review(c.claim, at(2)).unwrap();
    assert!(s.acquire_next_review("", at(3), &none()).is_err());
}

#[test]
fn the_budget_bounds_the_review_attempts() {
    let mut s = store();
    s.enqueue_review(&target(5, "aa"), at(0)).unwrap();
    let c = s.acquire_next_review("run-1", at(1), &none()).unwrap().unwrap();
    let p = s.retry_or_fail_review(c.claim, "boom", 2, at(2)).unwrap();
    assert_eq!(p, ReviewPhase::Queued);
    assert!(s.acquire_next_review("run-2", at(301), &none()).unwrap().is_none());
    let c = s.acquire_next_review("run-2", at(302), &none()).unwrap().unwrap();
    let p = s.retry_or_fail_review(c.claim, "boom", 2, at(303)).unwrap();
    assert_eq!(p, ReviewPhase::Failed);
    assert!(!s.is_active_or_reviewed(&target(5, "aa")).unwrap());
}

#[test]
fn a_save_never_regresses() {
    let mut s = store();
    let mut state = ReviewState::new(repository(), 5, 2);
    s.save_review_state(&state).unwrap();
    state.review_generation = 1;
    assert!(s.save_review_state(&state).is_err());
    assert_eq!(s.review_state(&repository(), 5).unwrap().review_generation, 2);
}

#[test]
fn the_history_is_append_only() {
    let mut s = store();
    s.append_history(row("run-1", 1), &Ok(result())).unwrap();
    assert!(s.append_history(row("run-1", 1), &Ok(result())).is_err());
    s.append_history(row("run-2", 2), &Ok(result())).unwrap();
    assert_eq!(s.history_for_pull_request(&repository(), 5).len(), 2);
    assert_eq!(s.history_for_head_sha(&repository(), 5, &"a".repeat(40)).len(), 2);
    assert_eq!(s.history_for_repository(&repository()).len(), 2);
    assert_eq!(s.history_for_pull_request(&repository(), 6).len(), 0);
}

#[test]
fn a_result_that_is_no_json_is_refused() {
    let mut s = store();
    let mut r = row("run-1", 1);
    r.result_json = "{".to_string();
    assert!(s.append_history(r, &Err("eof".to_string())).is_err());
}

#[test]
fn rows_read_back() {
    let mut s = store();
    s.enqueue_review(&target(5, "aa"), at(0)).unwrap();
    let q = s.review_queue_snapshot();
    let stored = review_queue_row("owner/repo#5@aa", &q.entries.values[0]);
    assert_eq!(stored.phase, "queued");
    assert_eq!(stored.queued_at, "2023-11-14T22:13:20+00:00");
    let back = load_queue_sqlite("/db", &vec![Ok(stored)]).unwrap();
    assert_eq!(back.entries.len(), 1);
    assert_eq!(back.entries.values[0].queued_at, at(0));

    let state = s.review_state(&repository(), 5).unwrap();
    let stored = review_state_row(&state);
    assert_eq!(stored.publication_state, "pending");
    let back = load_state_map_sqlite("/db", &vec![Ok(stored)]).unwrap();
    assert_eq!(back.states.values[0].review_generation, 1);

    let stored = review_history_row(&row("run-1", 1));
    let rows = vec![Ok(StoredRow { row: stored, decoded: Ok(result()) })];
    let back = load_history_sqlite("/db", &rows).unwrap();
    assert_eq!(back.rows.len(), 1);
    assert_eq!(back.rows[0].completed_at, at(10));
}

#[test]
fn rows_that_break_the_rules_are_corrupt() {
    let mut s = store();
    s.enqueue_review(&target(5, "aa"), at(0)).unwrap();
    let q = s.review_queue_snapshot();
    let mut stored = review_queue_row("owner/repo#5@aa", &q.entries.values[0]);
    stored.queued_at = "yesterday".to_string();
    assert!(matches!(
        load_queue_sqlite("/db", &vec![Ok(stored)]).err().unwrap(),
        CaduceusError::StateCorrupt { .. }
    ));
    let mut stored = review_queue_row("owner/repo#5@aa", &q.entries.values[0]);
    stored.phase = "lost".to_string();
    assert!(load_queue_sqlite("/db", &vec![Ok(stored)]).is_err());
    assert!(load_queue_sqlite("/db", &vec![Err("locked".to_string())]).is_err());
}

#[test]
fn results_are_validated() {
    assert!(validate_review_result(&result()).is_ok());
    let mut r = result();
    r.review = None;
    assert!(validate_review_result(&r).is_ok());
    let mut r = result();
    r.review = Some(Review { summary: String::new(), ..review(Verdict::Pass) });
    match validate_review_result(&r).err().unwrap() {
        CaduceusError::Config(m) => assert_eq!(m, "review result: summary must not be empty"),
        _ => panic!(),
    }
    let mut r = result();
    let mut many = review(Verdict::Fail);
    for _ in 0..101 {
        many.findings.push(finding(Severity::Warning, "t"));
    }
    r.review = Some(many);
    match validate_review_result(&r).err().unwrap() {
        CaduceusError::Config(m) => {
            assert_eq!(m, "review result: findings exceed limit of 100 entries (got 101)")
        }
        _ => panic!(),
    }
    let mut r = result();
    r.schema_version = 9;
    assert!(matches!(
        parse_review_result(Ok(r)).err().unwrap(),
        CaduceusError::ReviewSchemaVersion { found: 9, supported: 1 }
    ));
    assert!(parse_review_result(Err("eof".to_string())).is_err());
    assert!(validate_review_target(&target(5, "aa")).is_ok());
    assert!(validate_review_target(&target(5, "")).is_err());
    assert!(validate_review_state(&ReviewState::new(repository(), 5, 1)).is_ok());
}

#[test]
fn labels_read_back() {
    for v in [Verdict::Pass, Verdict::Fail] {
        assert_eq!(Verdict::from_label(v.as_str()), Some(v));
    }
    for p in [
        PublicationState::Pending,
        PublicationState::Publishing,
        PublicationState::Published,
        PublicationState::FailedRetryable,
    ] {
        assert_eq!(PublicationState::from_label(p.as_str()), Some(p));
    }
    assert_eq!(Verdict::from_label("maybe"), None);
}

fn input(r: &Review) -> RenderInput<'_> {
    RenderInput {
        review: r,
        reviewed_head_sha: "abcdef1234567890",
        current_head_sha: Some("abcdef1234567890"),
        review_generation: 3,
    }
}

#[test]
fn a_comment_begins_with_its_marker() {
    let r = review(Verdict::Pass);
    let c = render_sticky_comment(&input(&r));
    assert!(c.contains(REVIEW_MARKER));
    assert!(c.contains("Looks fine."));
    assert!(!c.contains(TRUNCATION_NOTICE));
    assert_eq!(c, render_sticky_comment(&input(&r)));
}

#[test]
fn a_long_comment_is_cut_with_notice() {
    let mut r = review(Verdict::Fail);
    for i in 0..100 {
        let mut f = finding(Severity::Warning, &format!("finding {i}"));
        f.body = "é".repeat(4000);
        r.findings.push(f);
    }
    let c = render_sticky_comment(&input(&r));
    assert!(c.len() <= STICKY_COMMENT_MAX_BYTES);
    assert!(c.contains(TRUNCATION_NOTICE));
    assert!(c.contains(REVIEW_MARKER));
}

#[test]
fn findings_come_by_severity() {
    let mut r = review(Verdict::Fail);
    r.findings.push(finding(Severity::Suggestion, "s"));
    r.findings.push(finding(Severity::Blocking, "b1"));
    r.findings.push(finding(Severity::Warning, "w"));
    r.findings.push(finding(Severity::Blocking, "b2"));
    let order: Vec<&str> =
        findings_in_severity_order(&r).iter().map(|f| f.title.as_str()).collect();
    assert_eq!(order, vec!["b1", "b2", "w", "s"]);
}

#[test]
fn bounded_pushes_keep_characters_whole() {
    let mut s = "ab".to_string();
    push_char_bounded(&mut s, "éé", 3);
    assert_eq!(s, "abé");
}

#[test]
fn the_first_marked_comment_is_found() {
    let c = |id: u64, body: Option<String>| MarkerComment { id, body };
    let page = vec![
        c(1, None),
        c(2, Some("hello".to_string())),
        c(3, Some(format!("{REVIEW_MARKER}\nx"))),
        c(4, Some(REVIEW_MARKER.to_string())),
    ];
    assert_eq!(find_marked(&page), Some(3));
    assert_eq!(find_marked(&Vec::new()), None);
}

#[test]
fn marker_search_follows_pages() {
    let first = first_page_url("https://api.github.com", "o", "r", 5).unwrap();
    assert_eq!(
        first,
        "https://api.github.com/repos/o/r/issues/5/comments?per_page=100"
    );
    let mut search = MarkerSearch::start("o", "r", 5, Some(first.clone()));
    assert_eq!(search.next_request().unwrap(), Some(first));
    let link = "<https://api.github.com/repos/o/r/issues/5/comments?per_page=100&page=2>; rel=\"next\"";
    assert_eq!(search.page_received(&Vec::new(), Some(link)), None);
    let second = search.next_request().unwrap().unwrap();
    assert!(second.contains("page=2"));
    assert_eq!(search.page_received(&Vec::new(), None), None);
    assert_eq!(search.next_request().unwrap(), None);
    assert_eq!(next_page_url(None, 2), None);
}

#[test]
fn publishing_updates_or_creates_one_comment() {
    let body = "text";
    let step = begin_publish(MergeStatus::StillOpen, true, Some(7));
    assert!(matches!(step, PublishStep::FetchBody { id: 7 }));
    let same = next_step(step, &PublishEvent::Body("text".to_string()), body);
    assert!(matches!(
        same,
        PublishStep::Finished(StickyOutcome::Unchanged { comment_id: 7 })
    ));
    let step = next_step(
        PublishStep::FetchBody { id: 7 },
        &PublishEvent::Body("old".to_string()),
        body,
    );
    assert!(matches!(step, PublishStep::Update { id: 7 }));
    let done = next_step(step, &PublishEvent::Updated, body);
    assert!(matches!(
        done,
        PublishStep::Finished(StickyOutcome::Published { comment_id: 7 })
    ));
    let search = begin_publish(MergeStatus::StillOpen, true, None);
    assert!(matches!(search, PublishStep::SearchMarker));
    let create = next_step(search, &PublishEvent::Marker(None), body);
    assert!(matches!(create, PublishStep::Create));
    let done = next_step(create, &PublishEvent::Created(9), body);
    assert!(matches!(
        done,
        PublishStep::Finished(StickyOutcome::Published { comment_id: 9 })
    ));
    assert!(matches!(
        begin_publish(MergeStatus::NotFound, false, Some(7)),
        PublishStep::Finished(StickyOutcome::PrNotFound)
    ));
    assert!(matches!(
        begin_publish(MergeStatus::ClosedWithoutMerge, true, Some(7)),
        PublishStep::Finished(StickyOutcome::PrClosedUnmerged)
    ));
}

#[test]
fn a_refused_text_is_not_sent() {
    for status in [MergeStatus::StillOpen, MergeStatus::Merged] {
        let step = begin_publish(status, false, Some(7));
        assert!(matches!(step, PublishStep::Failed));
        let step = next_step(step, &PublishEvent::Marker(None), "text");
        assert!(matches!(step, PublishStep::Failed));
    }
}

fn due(generation: u64) -> DueFinalization {
    DueFinalization {
        repository: repository(),
        pull_request: 5,
        run_generation: generation,
        head_sha: "a".repeat(40),
    }
}

fn reviewed() -> ReviewStore {
    let mut s = store();
    let mut t = target(5, "x");
    t.head_sha = "a".repeat(40);
    s.enqueue_review(&t, at(0)).unwrap();
    let c = s.acquire_next_review("run-1", at(1), &none()).unwrap().unwrap();
    s.complete_review(c.claim, at(2)).unwrap();
    s.append_history(row("run-1", 1), &Ok(result())).unwrap();
    s
}

fn decoded_step(s: &mut ReviewStore, now: Timestamp) -> ClaimStep {
    match begin_finalize(s, &due(1), now) {
        FinalizeStart::Decode { state, row } => {
            claim_decoded(s, state, &row, Ok(result()), now).unwrap()
        }
        FinalizeStart::Finished(_) => panic!("nothing to decode"),
    }
}

#[test]
fn a_review_is_published() {
    let mut s = reviewed();
    let (state, rev) = match decoded_step(&mut s, at(20)) {
        ClaimStep::Publish { state, review } => (state, review),
        ClaimStep::Finished(_) => panic!("not claimed"),
    };
    assert_eq!(
        s.review_state(&repository(), 5).unwrap().publication_state,
        PublicationState::Publishing
    );
    let out = finish_publication(
        &mut s,
        state,
        rev.verdict,
        &row("run-1", 1),
        Ok(StickyOutcome::Published { comment_id: 11 }),
        at(21),
    );
    assert!(matches!(out, FinalizeOutcome::Published));
    assert_eq!(out.event_name(), Some("review_published"));
    let state = s.review_state(&repository(), 5).unwrap();
    assert_eq!(state.publication_state, PublicationState::Published);
    assert_eq!(state.sticky_comment_id, Some(11));
    assert_eq!(state.last_verdict, Some(Verdict::Pass));
    assert!(matches!(
        begin_finalize(&s, &due(1), at(30)),
        FinalizeStart::Finished(FinalizeOutcome::AlreadyFinal)
    ));
}

#[test]
fn a_failed_publication_is_retried_when_due() {
    let mut s = reviewed();
    let state = match decoded_step(&mut s, at(20)) {
        ClaimStep::Publish { state, .. } => state,
        ClaimStep::Finished(_) => panic!("not claimed"),
    };
    let out = finish_publication(
        &mut s,
        state,
        Verdict::Pass,
        &row("run-1", 1),
        Err("503".to_string()),
        at(21),
    );
    let next = match out {
        FinalizeOutcome::FailedRetryable { next_attempt_at } => next_attempt_at,
        _ => panic!("not retried"),
    };
    assert!(at(21).is_before(&next));
    let state = s.review_state(&repository(), 5).unwrap();
    assert_eq!(state.publication_state, PublicationState::FailedRetryable);
    assert_eq!(state.last_publish_error.as_deref(), Some("503"));
    assert_eq!(state.publication_attempt_count, 1);
    assert!(matches!(
        begin_finalize(&s, &due(1), at(22)),
        FinalizeStart::Finished(FinalizeOutcome::SkipRetryNotDue)
    ));
    assert!(matches!(begin_finalize(&s, &due(1), next), FinalizeStart::Decode { .. }));
}

#[test]
fn only_the_current_generation_publishes() {
    let mut s = reviewed();
    s.enqueue_review(&target(5, "new"), at(15)).unwrap();
    assert!(matches!(
        begin_finalize(&s, &due(1), at(20)),
        FinalizeStart::Finished(FinalizeOutcome::SuppressedStaleGeneration)
    ));
    let unknown = DueFinalization { pull_request: 99, ..due(1) };
    assert!(matches!(
        begin_finalize(&s, &unknown, at(20)),
        FinalizeStart::Finished(FinalizeOutcome::NoState)
    ));
}

#[test]
fn a_publication_is_claimed_once() {
    let mut s = reviewed();
    let state = s.review_state(&repository(), 5).unwrap();
    assert!(claim_for_publication(&mut s, &state));
}

#[test]
fn backoff_grows_to_an_hour() {
    let mut last = 0;
    for n in 0..40 {
        let d = backoff_delay(n);
        assert!(d >= last && d <= 3600);
        last = d;
    }
    assert_eq!(last, 3600);
}

#[test]
fn recorded_errors_are_bounded() {
    assert_eq!(truncate_error("short"), "short");
    assert!(truncate_error(&"é".repeat(5000)).len() <= 4096);
}
