use caduceus::config::Config;
use caduceus::error::CaduceusError;
use caduceus::path;
use caduceus::repo::fork_quarantine::{
    load_marker, quarantine_leaf, quarantine_queue_key, sweep, CloneDir, FetchStep,
    ForkQuarantine, MarkerRead, QuarantineMarker,
};
use caduceus::repo::mirror::{BareMirror, EnsureStep, MirrorLinks};
use caduceus::repo::review_integrity::{
    capture_control_file_digests, check_tracked_files_clean, emit_review_mutation_violation,
    enforce_review_read_only, finish_mutation_violation, verify_control_file_digests, ControlFiles,
};
use caduceus::repo::review_worktree::{
    collect_review_in_use_paths, gc_review_worktrees, gc_targets, heartbeat_worktree,
    parse_review_porcelain, parse_watched_repo, ClaimObservation, CreateStep, DirObservation,
    HeartbeatObservation, ListedWorktree, MetadataRead, ReviewPorcelainEntry, ReviewWorktree,
};
use caduceus::repo::storage::{check_mode, Storage, StorageLinks};
use caduceus::repo::worktree::{validate_run_id, Worktree};
use caduceus::repo::GitOutput;
use caduceus::review::{RepositoryId, ReviewTarget};
use caduceus::time::Timestamp;

fn at(secs: i64) -> Timestamp {
    Timestamp { secs: 1_700_000_000 + secs, nanos: 0 }
}

fn ok(stdout: &str) -> GitOutput {
    GitOutput {
        status: Some(0),
        stdout: stdout.to_string(),
        stderr: String::new(),
        cancelled: false,
        timed_out: false,
    }
}

fn broken(stderr: &str) -> GitOutput {
    GitOutput {
        status: Some(128),
        stdout: String::new(),
        stderr: stderr.to_string(),
        cancelled: false,
        timed_out: false,
    }
}

fn cancelled() -> GitOutput {
    GitOutput { cancelled: true, ..ok("") }
}

fn links(root: bool, mirrors: bool, worktrees: bool) -> StorageLinks {
    StorageLinks { root, mirrors, worktrees }
}

fn target() -> ReviewTarget {
    ReviewTarget {
        repository: RepositoryId { owner: "o".to_string(), repo: "r".to_string() },
        pull_request: 5,
        head_sha: "abc".to_string(),
        base_sha: "def".to_string(),
        base_ref: "main".to_string(),
        merge_base: "123".to_string(),
    }
}

fn config() -> Config {
    Config {
        circuit_failure_threshold: 3,
        circuit_backoff_seconds: vec![1],
        circuit_open_interval_seconds: 1,
        circuit_max_degraded_seconds: 1,
        repo_storage_root: "/store".to_string(),
        sandbox: None,
        state_dir: "/state".to_string(),
        ticket_label_code: "code".to_string(),
        ticket_label_investigation: "look".to_string(),
        watched_repos: vec!["o/r".to_string(), "bad".to_string(), "p/q".to_string()],
        workdir_base: "/work".to_string(),
    }
}

#[test]
fn paths_are_taken_apart() {
    assert_eq!(path::join("/a", "b"), "/a/b");
    assert_eq!(path::join("/a/", "b"), "/a/b");
    assert_eq!(path::join("", "b"), "b");
    assert_eq!(path::join("/a", "/b"), "/b");
    let parent = |p: &str| path::parent_of(p);
    assert_eq!(parent("/a/b").as_deref(), Some("/a"));
    assert_eq!(parent("/a/b/").as_deref(), Some("/a"));
    assert_eq!(parent("/a").as_deref(), Some("/"));
    assert_eq!(parent("a").as_deref(), Some(""));
    assert_eq!(parent("a/./b").as_deref(), Some("a"));
    assert_eq!(parent("/"), None);
    assert_eq!(parent(""), None);
    assert_eq!(path::file_name_of("/a/b/").as_deref(), Some("b"));
    assert_eq!(path::file_name_of("/a/.."), None);
    assert_eq!(path::file_name_of("/"), None);
    assert!(path::same_path("/a//b/.", "/a/b"));
    assert!(!path::same_path("a/b", "/a/b"));
    for p in ["/a/b", "/a/b/", "a", "/", "", "a//b", "./a", "a/.", "/.", "x/./y/"] {
        let std = std::path::Path::new(p);
        assert_eq!(parent(p).as_deref(), std.parent().and_then(|q| q.to_str()), "{p}");
        assert_eq!(
            path::file_name_of(p).as_deref(),
            std.file_name().and_then(|q| q.to_str()),
            "{p}"
        );
    }
}

#[test]
fn a_linked_storage_is_refused() {
    let s = Storage::new("/store".to_string());
    assert_eq!(s.mirrors_dir, "/store/mirrors");
    assert!(s.validate_root(links(false, false, false)).is_ok());
    match s.validate_root(links(true, true, true)).err().unwrap() {
        CaduceusError::SymlinkedStorageRoot { path } => assert_eq!(path, "/store"),
        _ => panic!(),
    }
    match s.validate_root(links(false, false, true)).err().unwrap() {
        CaduceusError::SymlinkedStorageRoot { path } => assert_eq!(path, "/store/worktrees"),
        _ => panic!(),
    }
    assert_eq!(
        s.ensure_dirs(links(false, false, false)).unwrap(),
        vec!["/store", "/store/mirrors", "/store/worktrees"]
    );
    assert!(check_mode("/store", 0o40700).is_ok());
    assert!(matches!(
        check_mode("/store", 0o40755).err().unwrap(),
        CaduceusError::ModeNotPreserved { expected: 0o700, observed: 0o755, .. }
    ));
}

#[test]
fn a_mirror_is_ensured_in_steps() {
    let m = BareMirror::of("/store", "o", "r", "https://x/o/r.git");
    assert_eq!(m.path(), "/store/mirrors/o/r.git");
    let s = Storage::new("/store".to_string());
    let way = |root, mirrors, owner| MirrorLinks { root, mirrors, owner };
    for (found, place) in [
        (way(true, true, false), "/store"),
        (way(false, true, true), "/store/mirrors"),
        (way(false, false, true), "/store/mirrors/o"),
    ] {
        match BareMirror::ensure(&s, "o", found, true).err().unwrap() {
            CaduceusError::SymlinkedStorageRoot { path } => assert_eq!(path, place),
            _ => panic!(),
        }
    }
    let none = way(false, false, false);
    assert_eq!(BareMirror::ensure(&s, "o", none, false).unwrap(), EnsureStep::Init);
    assert_eq!(BareMirror::ensure(&s, "o", none, true).unwrap(), EnsureStep::Configure);
    assert_eq!(m.init_command(), vec!["init", "--bare", "/store/mirrors/o/r.git"]);
    assert_eq!(BareMirror::initialised(&ok("")).unwrap(), EnsureStep::Configure);
    assert_eq!(BareMirror::configured("main"), EnsureStep::Fetch);
    assert_eq!(BareMirror::configured(""), EnsureStep::Ready);
    match BareMirror::fetched(&broken("no route")).err().unwrap() {
        CaduceusError::Git { operation, stderr } => {
            assert_eq!(operation, "mirror-fetch");
            assert_eq!(stderr, "no route");
        }
        _ => panic!(),
    }
    assert_eq!(
        m.fetch_command("main"),
        vec!["-C", "/store/mirrors/o/r.git", "fetch", "--prune", "origin", "main"]
    );
    assert_eq!(
        m.remote_command("add"),
        vec!["-C", "/store/mirrors/o/r.git", "remote", "add", "origin", "https://x/o/r.git"]
    );
    assert_eq!(BareMirror::rev_parse(&ok(" abc\n")).unwrap(), "abc");
    assert!(BareMirror::rev_parse(&broken("x")).is_err());
}

#[test]
fn run_ids_are_checked() {
    assert!(validate_run_id("run_1-A").is_ok());
    assert!(validate_run_id(&"a".repeat(64)).is_ok());
    let message = |id: &str| match validate_run_id(id).err().unwrap() {
        CaduceusError::Worktree { stderr, .. } => stderr,
        _ => panic!(),
    };
    assert_eq!(message(""), "run_id must not be empty");
    assert_eq!(message(&"a".repeat(65)), "run_id length 65 exceeds 64-char limit");
    assert_eq!(message("a/b"), "run_id \"a/b\" contains invalid characters");
}

#[test]
fn a_worktree_is_made_in_a_free_place() {
    let m = BareMirror::of("/store", "o", "r", "");
    let place = Worktree::place(&m, "run-1").unwrap();
    assert_eq!(place.path, "/store/worktrees/run-1");
    let w = Worktree::create(&m, "run-1", "base", false, &Ok(()), &ok(""), at(0)).unwrap();
    assert_eq!(w.path, "/store/worktrees/run-1");
    assert!(matches!(
        Worktree::create(&m, "run-1", "base", true, &Ok(()), &ok(""), at(0)).err().unwrap(),
        CaduceusError::WorktreeReuseAfterFailure { .. }
    ));
    let no_dir = Err("full".to_string());
    match Worktree::create(&m, "run-1", "base", false, &no_dir, &ok(""), at(0)).err().unwrap() {
        CaduceusError::Worktree { stderr, .. } => {
            assert_eq!(stderr, "create worktree parent /store/worktrees failed: full")
        }
        _ => panic!(),
    }
    match Worktree::create(&m, "run-1", "base", false, &Ok(()), &broken("bad"), at(0)) {
        Err(CaduceusError::Worktree { stderr, .. }) => assert_eq!(
            stderr,
            "git worktree add --detach /store/worktrees/run-1 base failed: bad"
        ),
        _ => panic!(),
    }
    assert!(matches!(
        Worktree::create(&m, "run-1", "base", false, &Ok(()), &cancelled(), at(0)).err().unwrap(),
        CaduceusError::Cancelled
    ));
    let shallow = BareMirror { path: "/x".to_string(), remote_url: String::new() };
    assert!(matches!(
        Worktree::place(&shallow, "run-1").err().unwrap(),
        CaduceusError::Config(_)
    ));
    assert!(w.remove(&broken("x"), &Some(Ok(()))).is_ok());
    assert!(w.remove(&ok(""), &Some(Err("busy".to_string()))).is_err());
}

fn review_worktree() -> ReviewWorktree {
    let m = BareMirror::of("/store", "o", "r", "");
    let made = ReviewWorktree::create_review(
        &m,
        "run-1",
        &target(),
        Ok(()),
        false,
        &Ok(()),
        &ok(""),
        at(0),
    );
    made.unwrap().0
}

#[test]
fn a_review_worktree_is_under_the_storage() {
    let w = review_worktree();
    assert_eq!(w.path, "/store/worktrees/review/o/r/run-1");
    assert_eq!(w.metadata_path, "/store/worktrees/review/o/r/run-1/review-worktree.json");
    let stray = BareMirror { path: "/a/b/c/d".to_string(), remote_url: String::new() };
    let refused = ReviewWorktree::create_review(
        &stray,
        "run-1",
        &target(),
        Ok(()),
        false,
        &Ok(()),
        &ok(""),
        at(0),
    );
    match refused.err().unwrap() {
        CaduceusError::Config(m) => {
            assert_eq!(m, "mirror path /a/b/c/d does not live under /a/mirrors")
        }
        _ => panic!(),
    }
}

#[test]
fn a_head_that_is_not_to_be_had_stops_the_review() {
    let m = BareMirror::of("/store", "o", "r", "");
    let gone = Err(CaduceusError::HeadShaUnavailable { sha: "abc".to_string() });
    let r = ReviewWorktree::create_review(
        &m,
        "run-1",
        &target(),
        gone,
        false,
        &Ok(()),
        &ok(""),
        at(0),
    );
    assert!(matches!(r.err().unwrap(), CaduceusError::HeadShaUnavailable { .. }));
}

#[test]
fn a_kept_worktree_is_at_the_requested_head() {
    let w = review_worktree();
    assert!(matches!(w.metadata_written(&Ok(())), CreateStep::Proceed));
    assert!(matches!(w.metadata_written(&Err("full".to_string())), CreateStep::TearDown(_)));
    assert!(matches!(w.head_verified(Ok(ok("abc\n"))), CreateStep::Proceed));
    match w.head_verified(Ok(ok("other\n"))) {
        CreateStep::TearDown(CaduceusError::Worktree { stderr, .. }) => {
            assert_eq!(stderr, "review worktree HEAD other != requested head_sha abc")
        }
        _ => panic!(),
    }
    assert!(matches!(
        w.head_verified(Err(CaduceusError::Other("spawn".to_string()))),
        CreateStep::TearDown(CaduceusError::Other(_))
    ));
}

#[test]
fn metadata_reads_back() {
    let m = BareMirror::of("/store", "o", "r", "");
    let (w, meta) = ReviewWorktree::create_review(
        &m,
        "run-1",
        &target(),
        Ok(()),
        false,
        &Ok(()),
        &ok(""),
        at(0),
    )
    .unwrap();
    let mut bad = ReviewWorktree::create_review(
        &m,
        "run-1",
        &target(),
        Ok(()),
        false,
        &Ok(()),
        &ok(""),
        at(0),
    )
    .unwrap()
    .1;
    assert_eq!(w.load_metadata(MetadataRead::Decoded(meta)).unwrap().merge_base, "123");
    bad.schema_version = 2;
    match w.load_metadata(MetadataRead::Decoded(bad)).err().unwrap() {
        CaduceusError::Config(m) => assert_eq!(
            m,
            "review worktree metadata: schema_version 2 is not supported (this daemon accepts 1)"
        ),
        _ => panic!(),
    }
    assert!(w.load_metadata(MetadataRead::Unreadable("perm".to_string())).is_err());
    assert!(w.load_metadata(MetadataRead::Malformed("eof".to_string())).is_err());
}

#[test]
fn the_list_of_worktrees_is_read() {
    let out = "worktree /m\nbare\n\nworktree /w/a \nHEAD abc\ndetached\n\nworktree /w/b\r\nHEAD def\nbranch refs/heads/x";
    let entries = parse_review_porcelain(out);
    assert_eq!(entries.len(), 3);
    assert_eq!(entries[1].path, "/w/a");
    assert_eq!(entries[1].head, "abc");
    assert!(entries[1].detached);
    assert_eq!(entries[2].path, "/w/b");
    assert!(!entries[2].detached);
    assert!(parse_review_porcelain("").is_empty());
    assert!(parse_review_porcelain("HEAD abc\n").is_empty());
}

fn listed(path: &str, detached: bool, mtime: Option<Timestamp>) -> ListedWorktree {
    ListedWorktree {
        entry: ReviewPorcelainEntry {
            path: path.to_string(),
            head: "abc".to_string(),
            detached,
        },
        canonical: path.to_string(),
        mtime,
    }
}

fn dir(name: &str, is_symlink: bool, mtime: i64) -> DirObservation {
    DirObservation {
        path: format!("/r/{name}"),
        file_name: name.to_string(),
        is_symlink,
        is_dir: !is_symlink,
        canonical: format!("/r/{name}"),
        mtime: Some(at(mtime)),
    }
}

#[test]
fn a_sweep_takes_what_is_old_and_unused() {
    let m = BareMirror::of("/store", "o", "r", "");
    let old = -8 * 86400;
    let worktrees = vec![
        listed("/r/run-1", true, Some(at(old))),
        listed("/r/run-2", true, Some(at(old))),
        listed("/r/run-3", false, Some(at(old))),
        listed("/r/run-4", true, Some(at(-60))),
        listed("/r/run-5", true, None),
    ];
    let dirs = vec![
        dir("run-1", false, old),
        dir("stray", false, old),
        dir("linked", true, old),
        dir(".hidden", false, old),
        dir("used", false, old),
        dir("young", false, -60),
    ];
    let used = vec!["/r//run-2".to_string(), "/r/used".to_string()];
    let plan = gc_review_worktrees(&m, &worktrees, &dirs, &used, 7, at(0));
    assert_eq!(plan.worktrees.len(), 1);
    assert_eq!(plan.worktrees[0].path, "/r/run-1");
    assert_eq!(plan.worktrees[0].run_id, "run-1");
    assert_eq!(plan.orphans, vec!["/r/stray"]);
}

#[test]
fn worktrees_in_use_are_named() {
    let claims = vec![
        ClaimObservation { file_name: "a.claim".to_string(), worktree: Some("/w/a".to_string()) },
        ClaimObservation { file_name: "b.tmp".to_string(), worktree: Some("/w/b".to_string()) },
        ClaimObservation { file_name: "c.claim".to_string(), worktree: None },
    ];
    let beat = |name: &str, mtime: i64| HeartbeatObservation {
        file_name: name.to_string(),
        mtime: Some(at(mtime)),
        worktree: Some(format!("/w/{name}")),
    };
    let beats = vec![beat("x.heartbeat", -3600), beat("y.heartbeat", -3601), beat("z.log", 0)];
    let used = collect_review_in_use_paths(&config(), &Ok(claims), &Ok(beats), at(0)).unwrap();
    assert_eq!(used, vec!["/w/a", "/w/x.heartbeat"]);
    match collect_review_in_use_paths(&config(), &Err("perm".to_string()), &Ok(Vec::new()), at(0)) {
        Err(CaduceusError::Worktree { context, stderr }) => {
            assert_eq!(context, "review-gc");
            assert_eq!(stderr, "read_dir /state/claims: perm");
        }
        _ => panic!(),
    }
    assert_eq!(
        heartbeat_worktree("/store", "o", "r", "run-1.heartbeat.heartbeat"),
        "/store/worktrees/review/o/r/run-1"
    );
}

#[test]
fn watched_repositories_are_swept() {
    let targets = gc_targets(&config(), links(false, false, false)).unwrap();
    assert_eq!(targets.len(), 2);
    assert_eq!(targets[0].review_dir, "/store/worktrees/review/o/r");
    assert_eq!(targets[1].mirror.path, "/store/mirrors/p/q.git");
    assert_eq!(targets[1].mirror.remote_url, "");
    assert!(gc_targets(&config(), links(false, true, false)).is_err());
    let id = parse_watched_repo("a/b/c").unwrap();
    assert_eq!(id.owner, "a");
    assert_eq!(id.repo, "b/c");
    assert!(parse_watched_repo("/b").is_none());
    assert!(parse_watched_repo("a/").is_none());
}

#[test]
fn tracked_changes_are_a_violation() {
    assert!(check_tracked_files_clean("/w", &ok("\n")).is_ok());
    match check_tracked_files_clean("/w", &ok(" M a\n D b\n")).err().unwrap() {
        CaduceusError::ReviewSourceMutation { worktree_path, detail } => {
            assert_eq!(worktree_path, "/w");
            assert_eq!(detail, "tracked files modified: M a;  D b");
        }
        _ => panic!(),
    }
    let many: Vec<String> = (0..25).map(|i| format!("M f{i}")).collect();
    match check_tracked_files_clean("/w", &ok(&many.join("\n"))).err().unwrap() {
        CaduceusError::ReviewSourceMutation { detail, .. } => {
            assert!(detail.ends_with("M f19 (and 5 more entries)"))
        }
        _ => panic!(),
    }
    assert!(matches!(
        check_tracked_files_clean("/w", &broken("no repo")).err().unwrap(),
        CaduceusError::Git { operation: "review-dirty-check", .. }
    ));
    assert!(matches!(
        check_tracked_files_clean("/w", &cancelled()).err().unwrap(),
        CaduceusError::Cancelled
    ));
}

fn files(prompt: &[u8], metadata: &[u8]) -> ControlFiles {
    ControlFiles { prompt: Ok(prompt.to_vec()), worktree_metadata: Ok(metadata.to_vec()) }
}

#[test]
fn changed_control_files_are_a_violation() {
    let pre = capture_control_file_digests(&files(b"abc", b"")).unwrap();
    assert_eq!(
        pre.prompt_sha256,
        "ba7816bf8f01cfea414140de5dae2223b00361a396177a9cb410ff61f20015ad"
    );
    assert!(verify_control_file_digests("/w", &pre, &files(b"abc", b"")).is_ok());
    assert!(enforce_review_read_only("/w", &pre, &ok(""), &files(b"abc", b"")).is_ok());
    assert!(verify_control_file_digests("/w", &pre, &files(b"abd", b"")).is_err());
    assert!(verify_control_file_digests("/w", &pre, &files(b"abc", b"x")).is_err());
    let gone = ControlFiles {
        prompt: Err("not found".to_string()),
        worktree_metadata: Ok(Vec::new()),
    };
    let err = verify_control_file_digests("/w", &pre, &gone).err().unwrap();
    match &err {
        CaduceusError::ReviewSourceMutation { detail, .. } => assert_eq!(
            detail,
            "daemon control file missing: worker-prompt.md (not found)"
        ),
        _ => panic!(),
    }
    let end = finish_mutation_violation(&target(), &err).unwrap();
    assert_eq!(end.route.source, "review/mutation_violation");
    assert!(end.route.hint.contains("git -C /w status"));
    assert_eq!(end.event.worktree, "/w");
    assert_eq!(end.event.detail, "daemon control file missing: worker-prompt.md (not found)");
    match finish_mutation_violation(&target(), &CaduceusError::Cancelled) {
        Err(CaduceusError::Config(m)) => assert_eq!(
            m,
            "finish_mutation_violation requires a ReviewSourceMutation error"
        ),
        _ => panic!(),
    }
    assert!(matches!(
        capture_control_file_digests(&gone).err().unwrap(),
        CaduceusError::Io(_)
    ));
    let event = emit_review_mutation_violation(&target(), "/w", "GH_TOKEN=abc rest");
    assert_eq!(event.detail, "GH_TOKEN<redacted> rest");
    assert_eq!(event.repo, "o/r");
}

#[test]
fn quarantine_clones_are_named_by_their_review() {
    assert_eq!(quarantine_leaf(5, "abc"), "5@abc");
    assert_eq!(quarantine_queue_key("Own", "Rep", "5@abc"), "own/rep#5@abc");
    let q = ForkQuarantine::create("/s", "o", "r", 5, "abc", "def", "f/r", &Some(ok("")), at(0))
        .unwrap();
    assert_eq!(q.path(), "/s/fork-quarantine/o/r/5@abc");
    assert_eq!(q.as_bare_mirror().remote_url, "");
    assert_eq!(ForkQuarantine::target_path("/s", &target()), q.path);
    assert!(matches!(
        ForkQuarantine::create("/s", "o", "r", 5, "../x", "def", "f/r", &None, at(0))
            .err()
            .unwrap(),
        CaduceusError::Config(_)
    ));
    assert!(
        ForkQuarantine::create("/s", "o", "r", 5, "abc", "def", "f/r", &Some(broken("x")), at(0))
            .is_err()
    );
    let record = q.removal_record(77);
    assert_eq!(record.path, "/s/fork-quarantine/.removed/77-5@abc.removed");
    assert_eq!(record.note, "");
}

#[test]
fn a_broken_fetch_may_find_the_head_locally() {
    assert_eq!(ForkQuarantine::fetch_fork_sha(&ok("")).unwrap(), FetchStep::Fetched);
    assert_eq!(ForkQuarantine::fetch_fork_sha(&broken("x")).unwrap(), FetchStep::LookLocally);
    assert!(ForkQuarantine::fetch_fork_sha(&cancelled()).is_err());
    assert!(ForkQuarantine::looked_locally("abc", &ok("")).is_ok());
    assert!(matches!(
        ForkQuarantine::looked_locally("abc", &broken("x")).err().unwrap(),
        CaduceusError::HeadShaUnavailable { .. }
    ));
    assert_eq!(ForkQuarantine::merge_base(&ok("123\n")).unwrap(), "123");
}

#[test]
fn markers_are_checked() {
    let m = QuarantineMarker::new("o", "r", 5, "abc", "def", "f/r", at(0));
    let found = ForkQuarantine::find_for_target("/s", &target(), true, MarkerRead::Decoded(m));
    assert_eq!(found.unwrap().marker.unwrap().head_repo, "f/r");
    let unread = MarkerRead::Unreadable("perm".to_string());
    let found = ForkQuarantine::find_for_target("/s", &target(), true, unread).unwrap();
    assert!(found.marker.is_none());
    assert_eq!(
        found.removal_record(1).note,
        "marker unreadable; provenance from directory path only"
    );
    let bad = MarkerRead::Malformed("eof".to_string());
    assert!(ForkQuarantine::find_for_target("/s", &target(), false, bad).is_none());
    let mut future = QuarantineMarker::new("o", "r", 5, "abc", "def", "f/r", at(0));
    future.schema_version = 2;
    match load_marker("/q", MarkerRead::Decoded(future)).err().unwrap() {
        CaduceusError::Other(m) => assert_eq!(
            m,
            "quarantine marker schema_version 2 is not supported (this daemon accepts 1)"
        ),
        _ => panic!(),
    }
}

#[test]
fn active_clones_are_kept() {
    let d = |owner: &str, leaf: &str| CloneDir {
        owner: owner.to_string(),
        repo: "R".to_string(),
        leaf: leaf.to_string(),
    };
    let dirs = vec![d("O", "1@a"), d("O", "2@b"), d(".removed", "3@c")];
    let active = vec!["o/r#1@a".to_string()];
    assert_eq!(sweep("/s", &dirs, &active), vec!["/s/fork-quarantine/O/R/2@b"]);
    let q = ForkQuarantine::create("/s", "o", "r", 5, "abc", "def", "f", &None, at(0)).unwrap();
    let list = "worktree /s/fork-quarantine/o/r//5@abc\nbare\n\nworktree /w/x\nHEAD a\n";
    assert_eq!(q.list_worktrees(list), vec!["/w/x"]);
}
