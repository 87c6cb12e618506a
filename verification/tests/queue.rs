use caduceus::digest::digest_text;
use caduceus::error::CaduceusError;
use caduceus::issue::{is_valid_repo_slug, IssueKey};
use caduceus::state::queue::claim::{
    display_digest, process_start_identity, read_proc_start_ticks, scrub,
};
use caduceus::state::queue::daemon_lock::{daemon_lock_path, try_acquire, LockRefusal};
use caduceus::state::queue::identity;
use caduceus::state::queue::identity::UuidFile;
use caduceus::state::queue::reaper::{
    quarantine_claim, reap_stale_claims, ClaimObservation, ClaimRead, ReapAction,
};
use caduceus::state::queue::store::{new_claim_body, StateStore};
use caduceus::state::queue::{
    parse_queue_state, ClaimFileBody, ClaimToken, EnqueueOutcome, FinalizationCheckpoint,
    FinalizationStage, Phase, QueueEntry, QueueFile, TicketType,
};
use caduceus::time::Timestamp;

fn at(secs: i64) -> Timestamp {
    Timestamp { secs: 1_700_000_000 + secs, nanos: 0 }
}

fn key(n: u64) -> IssueKey {
    IssueKey { owner: "Owner".to_string(), repo: "Repo".to_string(), number: n }
}

fn store() -> StateStore {
    StateStore::open("/state", None).unwrap()
}

fn queued(n: u64) -> StateStore {
    let mut s = store();
    s.enqueue(&key(n), TicketType::Code, false, at(0)).unwrap();
    s
}

fn phase(s: &StateStore, n: u64) -> Phase {
    s.snapshot().entry(&key(n)).unwrap().phase
}

fn checkpoint() -> FinalizationCheckpoint {
    FinalizationCheckpoint {
        run_id: "run-1".to_string(),
        branch_name: "b".to_string(),
        result_path: "/r".to_string(),
        stage: FinalizationStage::Pushed,
        commit_oid: None,
        pr_number: Some(3),
        pr_url: None,
    }
}

fn none() -> Vec<String> {
    Vec::new()
}

#[test]
fn digests_are_hexadecimal_sha256() {
    assert_eq!(
        digest_text("abc"),
        "ba7816bf8f01cfea414140de5dae2223b00361a396177a9cb410ff61f20015ad"
    );
    assert_eq!(display_digest("owner/repo#1"), digest_text("owner/repo#1"));
}

#[test]
fn issue_keys_read_back() {
    let k = key(7);
    assert_eq!(k.plain(), "Owner/Repo#7");
    assert_eq!(k.display_key(), "owner/repo#7");
    let back = IssueKey::parse("Owner/Repo#7").unwrap();
    assert_eq!(back.plain(), "Owner/Repo#7");
    assert!(IssueKey::parse("Owner/Repo").is_none());
    assert!(IssueKey::parse("Owner/Repo#x").is_none());
    assert!(key(0).validate().is_err());
    assert!(is_valid_repo_slug("a-b/c.d_e"));
    assert!(!is_valid_repo_slug("a/b/c"));
    assert!(!is_valid_repo_slug("/b"));
}

#[test]
fn paths_of_a_store() {
    let s = store();
    assert_eq!(s.state_path(), "/state/state.json");
    assert_eq!(s.claims_dir(), "/state/claims");
    assert_eq!(s.state_dir(), "/state");
}

#[test]
fn enqueue_is_idempotent() {
    let mut s = queued(1);
    assert_eq!(s.snapshot().entries.len(), 1);
    let again = s.enqueue(&key(1), TicketType::Code, false, at(5)).unwrap();
    assert!(matches!(again, EnqueueOutcome::AlreadyPresent));
    assert_eq!(s.snapshot().entry(&key(1)).unwrap().queued_at, at(0));
    assert_eq!(s.snapshot().entries.len(), 1);
}

#[test]
fn an_invalid_key_is_not_queued() {
    let mut s = store();
    let bad = IssueKey { owner: "a b".to_string(), repo: "c".to_string(), number: 1 };
    assert!(s.enqueue(&bad, TicketType::Code, false, at(0)).is_err());
    assert_eq!(s.snapshot().entries.len(), 0);
}

#[test]
fn a_claim_is_exclusive() {
    let mut s = queued(1);
    let c = s.acquire_next("run-1", at(1), &none()).unwrap();
    assert_eq!(c.entry.phase, Phase::InProgress);
    assert_eq!(c.claim.run_id(), "run-1");
    assert_eq!(c.claim.digest(), display_digest("owner/repo#1"));
    assert_eq!(
        c.claim.claim_path(),
        format!("/state/claims/{}.claim", display_digest("owner/repo#1"))
    );
    assert!(s.acquire_next("run-2", at(1), &none()).is_none());
    assert!(s.verify_claim_run_id(&c.claim).is_ok());
}

#[test]
fn the_oldest_entry_is_claimed_first() {
    let mut s = store();
    s.enqueue(&key(2), TicketType::Code, false, at(5)).unwrap();
    s.enqueue(&key(9), TicketType::Code, false, at(1)).unwrap();
    let c = s.acquire_next("run-1", at(6), &none()).unwrap();
    assert_eq!(c.entry.key.number, 9);
}

#[test]
fn a_taken_claim_file_is_passed_over() {
    let mut s = queued(1);
    let taken = vec![display_digest("owner/repo#1")];
    assert!(s.acquire_next("run-1", at(1), &taken).is_none());
    assert_eq!(phase(&s, 1), Phase::Queued);
}

#[test]
fn a_forged_token_is_refused() {
    let mut s = queued(1);
    let c = s.acquire_next("run-1", at(1), &none()).unwrap();
    let forged = ClaimToken::for_test("/state/claims".to_string(), c.claim.digest(), "run-2");
    assert!(matches!(
        s.complete(forged, at(2)).err().unwrap(),
        CaduceusError::Queue { .. }
    ));
    assert_eq!(phase(&s, 1), Phase::InProgress);
}

#[test]
fn an_ended_claim_matches_no_token() {
    let mut s = queued(1);
    let c = s.acquire_next("run-1", at(1), &none()).unwrap();
    let again = ClaimToken::for_test("/state/claims".to_string(), c.claim.digest(), "run-1");
    s.complete(c.claim, at(2)).unwrap();
    assert_eq!(phase(&s, 1), Phase::Done);
    assert!(s.complete(again, at(3)).is_err());
}

#[test]
fn the_budget_bounds_the_attempts() {
    let mut s = queued(1);
    let c = s.acquire_next("run-1", at(1), &none()).unwrap();
    assert_eq!(s.retry_or_fail(c.claim, "first", 2, at(2)).unwrap(), Phase::Queued);
    let e = s.snapshot().entry(&key(1)).unwrap();
    assert_eq!(e.attempts, 1);
    assert_eq!(e.next_attempt_at, Some(at(302)));
    assert!(s.acquire_next("run-2", at(301), &none()).is_none());
    let c = s.acquire_next("run-2", at(302), &none()).unwrap();
    assert_eq!(s.retry_or_fail(c.claim, "second", 2, at(303)).unwrap(), Phase::Failed);
    let e = s.snapshot().entry(&key(1)).unwrap();
    assert_eq!(e.attempts, 2);
    assert_eq!(e.last_error.as_deref(), Some("second"));
    assert_eq!(e.next_attempt_at, None);
}

#[test]
fn infrastructure_failures_cost_no_attempt() {
    let mut s = queued(1);
    let c = s.acquire_next("run-1", at(1), &none()).unwrap();
    s.requeue_infrastructure(c.claim, "down", at(60), at(2)).unwrap();
    let e = s.snapshot().entry(&key(1)).unwrap();
    assert_eq!(e.attempts, 0);
    assert_eq!(e.phase, Phase::Queued);
    assert_eq!(e.next_attempt_at, Some(at(60)));
}

#[test]
fn a_preview_is_promoted_once() {
    let mut s = queued(1);
    let c = s.acquire_next("run-1", at(1), &none()).unwrap();
    s.complete_preview(c.claim, at(2)).unwrap();
    assert_eq!(phase(&s, 1), Phase::Previewed);
    let dry = s.enqueue(&key(1), TicketType::Code, true, at(3)).unwrap();
    assert!(matches!(dry, EnqueueOutcome::AlreadyPresent));
    let real = s.enqueue(&key(1), TicketType::Code, false, at(4)).unwrap();
    assert!(matches!(real, EnqueueOutcome::Promoted));
    let again = s.enqueue(&key(1), TicketType::Code, false, at(5)).unwrap();
    assert!(matches!(again, EnqueueOutcome::AlreadyPresent));
}

#[test]
fn a_skipped_entry_is_reset() {
    let mut s = queued(1);
    let c = s.acquire_next("run-1", at(1), &none()).unwrap();
    s.save_finalization(&c.claim, checkpoint(), at(2)).unwrap();
    s.skip(c.claim, "not now", at(3)).unwrap();
    assert_eq!(phase(&s, 1), Phase::Skipped);
    assert!(s.reset_entry(&key(1), false, true, at(4)).is_err());
    let kept = s.reset_entry(&key(1), false, false, at(4)).unwrap();
    assert!(!kept.cleared_finalization);
    assert!(s.finalization_for(&key(1)).is_some());
    assert_eq!(phase(&s, 1), Phase::Queued);
    match s.reset_entry(&key(1), false, false, at(5)).err().unwrap() {
        CaduceusError::Queue { context, stderr } => {
            assert_eq!(context, "reset");
            assert_eq!(
                stderr,
                "refusing to reset entry owner/repo#1: phase is Queued, must be Failed or Skipped"
            );
        }
        _ => panic!(),
    }
    match s.reset_entry(&key(2), false, false, at(5)).err().unwrap() {
        CaduceusError::Queue { stderr, .. } => assert_eq!(stderr, "no entry for owner/repo#2"),
        _ => panic!(),
    }
}

#[test]
fn clearing_drops_the_checkpoint() {
    let mut s = queued(1);
    let c = s.acquire_next("run-1", at(1), &none()).unwrap();
    s.save_finalization(&c.claim, checkpoint(), at(2)).unwrap();
    s.skip(c.claim, "not now", at(3)).unwrap();
    let cleared = s.reset_entry(&key(1), true, false, at(4)).unwrap();
    assert!(cleared.cleared_finalization);
    assert_eq!(cleared.dropped_checkpoint.unwrap().run_id, "run-1");
    assert!(s.finalization_for(&key(1)).is_none());
}

#[test]
fn a_review_is_resolved_once() {
    let mut s = queued(1);
    assert!(s.resolve_awaiting_review_as_done(&key(1), at(1)).is_err());
    s.complete_awaiting_review(&key(1), at(1)).unwrap();
    assert_eq!(phase(&s, 1), Phase::AwaitingReview);
    assert!(s.reprocess_entry(&key(1), at(2)).is_err());
    s.resolve_awaiting_review_as_done(&key(1), at(2)).unwrap();
    assert_eq!(phase(&s, 1), Phase::Done);
    assert!(s.resolve_awaiting_review_as_done(&key(1), at(3)).is_err());
    assert!(s.route_to_needs_attention(&key(1), "why", at(3)).is_err());
}

#[test]
fn an_entry_that_needs_attention_is_not_reset() {
    let mut s = queued(1);
    s.complete_awaiting_review(&key(1), at(1)).unwrap();
    s.route_to_needs_attention(&key(1), "why", at(2)).unwrap();
    assert_eq!(phase(&s, 1), Phase::NeedsAttention);
    match s.reset_entry(&key(1), false, false, at(3)).err().unwrap() {
        CaduceusError::Queue { context, stderr } => {
            assert_eq!(context, "reset");
            assert_eq!(
                stderr,
                "refusing to reset entry owner/repo#1: phase is NeedsAttention, must be Failed or Skipped"
            );
        }
        _ => panic!(),
    }
    assert_eq!(phase(&s, 1), Phase::NeedsAttention);
}

#[test]
fn reprocessing_advances_the_generation() {
    let mut s = queued(1);
    s.reprocess_entry(&key(1), at(2)).unwrap();
    assert_eq!(s.snapshot().entry(&key(1)).unwrap().generation, 2);
    assert!(s.reprocess_entry(&key(2), at(2)).is_err());
}

#[test]
fn a_transition_touches_one_entry() {
    let mut s = queued(1);
    s.enqueue(&key(2), TicketType::Code, false, at(1)).unwrap();
    let c = s.acquire_next("run-1", at(2), &none()).unwrap();
    s.complete(c.claim, at(3)).unwrap();
    assert_eq!(phase(&s, 1), Phase::Done);
    assert_eq!(phase(&s, 2), Phase::Queued);
}

fn entry(n: u64) -> QueueEntry {
    let s = queued(n);
    s.snapshot().entry(&key(n)).unwrap().clone()
}

#[test]
fn a_queue_file_is_validated() {
    let good = QueueFile { version: 1, entries: vec![("owner/repo#1".to_string(), entry(1))] };
    assert_eq!(parse_queue_state(Ok(good)).unwrap().entries.len(), 1);
    let version = QueueFile { version: 2, entries: Vec::new() };
    assert!(parse_queue_state(Ok(version)).is_err());
    let misfiled = QueueFile { version: 1, entries: vec![("owner/repo#2".to_string(), entry(1))] };
    assert!(parse_queue_state(Ok(misfiled)).is_err());
    assert!(parse_queue_state(Err("eof".to_string())).is_err());
}

#[test]
fn stage_labels_read_back() {
    for s in [
        FinalizationStage::ResultValidated,
        FinalizationStage::Committed,
        FinalizationStage::Pushed,
        FinalizationStage::PrCreated,
        FinalizationStage::Commented,
        FinalizationStage::AwaitingReview,
        FinalizationStage::Done,
        FinalizationStage::InvestigationReady,
        FinalizationStage::InvestigationCommented,
    ] {
        assert_eq!(FinalizationStage::from_str(s.as_str()), Some(s));
    }
    assert_eq!(FinalizationStage::InvestigationReady.as_str(), "investigation_ready");
    assert_eq!(FinalizationStage::from_str("nowhere"), None);
}

#[test]
fn tokens_are_scrubbed() {
    assert_eq!(
        scrub("GITHUB_TOKEN=abc, rest"),
        "GITHUB_TOKEN<redacted>, rest"
    );
    assert_eq!(scrub("nothing here"), "nothing here");
}

#[test]
fn start_ticks_come_from_the_stat_line() {
    let mut line = "42 (a b) c) S".to_string();
    for i in 4..30 {
        line.push_str(&format!(" {i}"));
    }
    assert_eq!(read_proc_start_ticks(&line), Some(23));
    assert_eq!(read_proc_start_ticks("42 (x) S 1"), None);
    assert_eq!(read_proc_start_ticks("no parenthesis"), None);
}

#[test]
fn identities() {
    assert_eq!(process_start_identity(Some(" boot \n"), Some(9)), "boot:9");
    assert_eq!(process_start_identity(None, None), "<unknown-boot>:0");
    assert_eq!(identity::process_start_identity("u", 5, 7), "u:5:7");
    assert_ne!(
        identity::process_start_identity("u", 5, 7),
        identity::process_start_identity("u", 6, 7)
    );
    assert_eq!(identity::boot_epoch(Some(-1)), 0);
    assert_eq!(identity::boot_epoch(Some(12)), 12);
    assert_eq!(identity::boot_epoch(None), 0);
    assert_eq!(identity::identity_start_ticks(1, Some(3)), 3);
    assert_eq!(identity::identity_start_ticks(u32::MAX, Some(3)), 0);
    assert_eq!(identity::daemon_identity_path("/s"), "/s/daemon-identity");
}

#[test]
fn the_uuid_of_the_file_wins() {
    let g = || "new".to_string();
    let kept = UuidFile::Contents("old".to_string());
    assert_eq!(identity::load_or_create_daemon_uuid(kept, g(), false, None), "old");
    assert_eq!(
        identity::load_or_create_daemon_uuid(UuidFile::Failed, g(), true, Some("x".to_string())),
        "new"
    );
    assert_eq!(
        identity::load_or_create_daemon_uuid(
            UuidFile::NotFound,
            g(),
            true,
            Some("other".to_string())
        ),
        "other"
    );
    assert_eq!(
        identity::load_or_create_daemon_uuid(UuidFile::NotFound, g(), false, None),
        "new"
    );
}

#[test]
fn a_concurrent_tick_is_no_error() {
    assert_eq!(daemon_lock_path("/s"), "/s/daemon.lock");
    assert_eq!(try_acquire(Ok(())).unwrap(), true);
    assert_eq!(try_acquire(Err((LockRefusal::WouldBlock, String::new()))).unwrap(), false);
    assert_eq!(try_acquire(Err((LockRefusal::AlreadyExists, String::new()))).unwrap(), false);
    assert!(try_acquire(Err((LockRefusal::Other, "io".to_string()))).is_err());
}

fn body(s: &StateStore, run_id: &str, started: Timestamp) -> ClaimFileBody {
    new_claim_body(s.snapshot().entry(&key(1)).unwrap(), run_id, 77, "id".to_string(), started)
}

fn claim_file(b: ClaimFileBody, alive: bool, identity: &str) -> ClaimObservation {
    ClaimObservation::File {
        path: "/state/claims/x.claim".to_string(),
        name: "x.claim".to_string(),
        read: ClaimRead::Body(b),
        pid_alive: alive,
        identity: identity.to_string(),
    }
}

fn well(files: &[ClaimObservation]) -> Vec<Option<String>> {
    files.iter().map(|_| None).collect()
}

#[test]
fn a_failed_reap_does_not_lose_the_pass() {
    let mut s = queued(1);
    s.enqueue(&key(2), TicketType::Code, false, at(0)).unwrap();
    let first = s.acquire_next("run-1", at(0), &none()).unwrap();
    let second = s.acquire_next("run-2", at(0), &none()).unwrap();
    let mut a = body(&s, first.claim.run_id(), at(0));
    a.key = key(1);
    let mut b = body(&s, second.claim.run_id(), at(0));
    b.key = key(2);
    let files = vec![claim_file(a, false, "id"), claim_file(b, false, "id")];
    let failures = vec![Some("disk full".to_string()), None];
    let (report, actions) = reap_stale_claims(&mut s, &files, &failures, at(7200), 1);
    assert_eq!(report.count, 1);
    assert_eq!(report.stale_reaped, 1);
    assert_eq!(
        report.errors,
        vec!["stale reap failed for /state/claims/x.claim: disk full".to_string()]
    );
    assert!(matches!(actions[0], ReapAction::Leave));
    assert!(matches!(actions[1], ReapAction::Reap));
    assert_eq!(phase(&s, 1), Phase::InProgress);
    assert_eq!(phase(&s, 2), Phase::Queued);
}

#[test]
fn a_stale_claim_is_reaped() {
    let mut s = queued(1);
    let c = s.acquire_next("run-1", at(0), &none()).unwrap();
    let b = body(&s, c.claim.run_id(), at(0));
    let files = vec![claim_file(b, false, "id")];
    let (report, actions) = reap_stale_claims(&mut s, &files, &well(&files), at(7200), 1);
    assert_eq!(report.count, 1);
    assert_eq!(report.stale_reaped, 1);
    assert!(report.errors.is_empty());
    assert!(matches!(actions[0], ReapAction::Reap));
    let e = s.snapshot().entry(&key(1)).unwrap();
    assert_eq!(e.phase, Phase::Queued);
    assert_eq!(e.attempts, 0);
}

#[test]
fn a_live_or_recent_claim_is_left() {
    let mut s = queued(1);
    let c = s.acquire_next("run-1", at(0), &none()).unwrap();
    let live = body(&s, c.claim.run_id(), at(0));
    let recent = body(&s, c.claim.run_id(), at(7000));
    let files = vec![claim_file(live, true, "id"), claim_file(recent, false, "id")];
    let (report, actions) = reap_stale_claims(&mut s, &files, &well(&files), at(7200), 1);
    assert_eq!(report.count, 0);
    assert!(matches!(actions[0], ReapAction::Leave));
    assert!(matches!(actions[1], ReapAction::Leave));
    assert_eq!(phase(&s, 1), Phase::InProgress);
}

#[test]
fn a_reused_process_id_does_not_protect_a_claim() {
    let mut s = queued(1);
    let c = s.acquire_next("run-1", at(0), &none()).unwrap();
    let b = body(&s, c.claim.run_id(), at(0));
    let files = vec![claim_file(b, true, "another")];
    let (report, _) = reap_stale_claims(&mut s, &files, &well(&files), at(7200), 1);
    assert_eq!(report.stale_reaped, 1);
}

#[test]
fn an_endless_threshold_wraps_to_one_second_ahead() {
    let mut s = queued(1);
    let c = s.acquire_next("run-1", at(0), &none()).unwrap();
    let b = body(&s, c.claim.run_id(), at(1));
    let files = vec![claim_file(b, false, "id")];
    let (report, _) = reap_stale_claims(&mut s, &files, &well(&files), at(0), u64::MAX);
    assert_eq!(report.stale_reaped, 1);
    let b = body(&s, c.claim.run_id(), at(2));
    let files = vec![claim_file(b, false, "id")];
    let (report, _) = reap_stale_claims(&mut s, &files, &well(&files), at(0), u64::MAX);
    assert_eq!(report.count, 0);
}

#[test]
fn what_cannot_be_read_is_accounted_for() {
    let mut s = queued(1);
    let mut future = body(&s, "run-1", at(9000));
    let mut version = body(&s, "run-1", at(0));
    version.version = 9;
    future.version = 1;
    let file = |name: &str, read: ClaimRead| ClaimObservation::File {
        path: format!("/c/{name}"),
        name: name.to_string(),
        read,
        pid_alive: false,
        identity: String::new(),
    };
    let files = vec![
        ClaimObservation::DirEntryError("io".to_string()),
        ClaimObservation::MetadataError { path: "/c/p".to_string(), error: "gone".to_string() },
        ClaimObservation::Symlink { path: "/c/l".to_string() },
        ClaimObservation::Unnamed,
        file("corrupt", ClaimRead::Unreadable("dir".to_string())),
        file("notes.txt", ClaimRead::Unreadable("x".to_string())),
        file("a.claim", ClaimRead::Unreadable("perm".to_string())),
        file("b.claim", ClaimRead::Malformed("eof".to_string())),
        file("c.claim", ClaimRead::Body(version)),
        file("d.claim", ClaimRead::Body(future)),
    ];
    let (report, actions) = reap_stale_claims(&mut s, &files, &well(&files), at(7200), 1);
    assert_eq!(actions.len(), 10);
    assert_eq!(report.quarantined, 3);
    assert_eq!(report.count, 3);
    assert_eq!(
        report.errors,
        vec![
            "read_dir: io".to_string(),
            "symlink_metadata /c/p: gone".to_string(),
            "refusing to act on symlink: /c/l".to_string(),
            "unknown file in claims dir: /c/notes.txt".to_string(),
            "read /c/a.claim: perm".to_string(),
            "malformed /c/b.claim → quarantined: eof".to_string(),
            "version mismatch in /c/c.claim: got 9, expected 1".to_string(),
            "future started_at in /c/d.claim: 2023-11-15 00:43:20 UTC".to_string(),
        ]
    );
}

#[test]
fn a_claim_that_is_set_aside_keeps_its_bytes() {
    let (path, bytes) = quarantine_claim(
        "/state/claims",
        "x.claim",
        "/state/claims/x.claim",
        &vec![1, 2, 3],
        "malformed",
        at(0),
    );
    assert_eq!(path, "/state/claims/corrupt/x.claim.20231114T221320000Z.corrupt");
    let note = "<!-- caduceus-reaper\n     reason: malformed\n     at: 2023-11-14T22:13:20+00:00\n     source: /state/claims/x.claim\n-->\n";
    let mut expected = note.as_bytes().to_vec();
    expected.extend([1, 2, 3]);
    assert_eq!(bytes, expected);
}
