use caduceus::error::CaduceusError;
use caduceus::issue::IssueKey;
use caduceus::migrate::{
    begin_recovery, looks_like_v0, next_recovery, parse_legacy_timestamp, parse_v0, run, sniff,
    ImportFile, ImportSource, LegacyEntryV0, MigrationOutcome, QueueForm, RecoveryEvent,
    RecoveryStep,
};
use caduceus::state::migrate_to_sqlite::{
    backend_place, lock_contended, migrate_to_sqlite, needs_daemon_lock, write_state_backend_config,
    BackendPlace, LockPolicy,
    SqliteMigrationOutcome, StateFile,
};
use caduceus::state::oci_run::{ContainerRunRow, OciLifecycleState, OciRunDao, OciRunState};
use caduceus::state::queue::store::StateStore;
use caduceus::state::queue::{QueueState, TicketType};
use caduceus::state::retention::{prune_run_artifacts, DirEntry};
use caduceus::state::store::{
    assert_registry_wellformed, check_registry, database_path, migrations, plan_open,
    sqlite_migration_chain, Migration, OpenPlan, StoredVersion, SCHEMA_VERSION,
    STALE_SCHEMA_VERSION,
};
use caduceus::time::Timestamp;

fn at(secs: i64) -> Timestamp {
    Timestamp { secs: 1_700_000_000 + secs, nanos: 0 }
}

fn bytes(s: &str) -> StateFile {
    StateFile::Bytes(s.as_bytes().to_vec())
}

const QUEUE: &str = r#"{"version":1,"entries":{"o/r#1":{"phase":"queued","ticket_type":"code","attempts":2,"queued_at":"2024-01-02T03:04:05Z","generation":3}}}"#;

#[test]
fn the_json_state_is_imported() {
    let plan = migrate_to_sqlite(
        "/s/state.json",
        &bytes(QUEUE),
        "/s/state_meta.json",
        &bytes(r#"{"version":1,"last_error":"x"}"#),
        false,
        at(0),
    )
    .unwrap();
    assert!(matches!(plan.report.outcome, SqliteMigrationOutcome::Migrated { entries: 1 }));
    assert_eq!(plan.queue.len(), 1);
    assert_eq!(plan.queue[0].issue_key, "o/r#1");
    assert_eq!(plan.queue[0].phase, "queued");
    assert_eq!(plan.queue[0].attempts, 2);
    assert_eq!(plan.queue[0].queued_at, "2024-01-02T03:04:05Z");
    assert_eq!(plan.queue[0].updated_at, "2023-11-14T22:13:20+00:00");
    assert_eq!(plan.queue[0].generation, 1);
    assert_eq!(plan.meta.len(), 2);
    let error = plan.meta.iter().find(|m| m.key == "last_error").unwrap();
    assert_eq!(error.value, "\"x\"");
}

#[test]
fn a_dry_run_writes_nothing() {
    let plan = migrate_to_sqlite("/s", &bytes(QUEUE), "/m", &StateFile::Missing, true, at(0));
    let plan = plan.unwrap();
    assert!(matches!(
        plan.report.outcome,
        SqliteMigrationOutcome::DryRun { would_migrate: 1 }
    ));
    assert!(plan.queue.is_empty());
}

#[test]
fn nothing_to_import_is_current() {
    let plan =
        migrate_to_sqlite("/s", &StateFile::Missing, "/m", &StateFile::Missing, false, at(0));
    assert!(matches!(
        plan.unwrap().report.outcome,
        SqliteMigrationOutcome::AlreadyCurrent
    ));
}

#[test]
fn an_import_names_the_broken_file() {
    match migrate_to_sqlite("/s", &bytes("{"), "/m", &StateFile::Missing, false, at(0)) {
        Err(CaduceusError::StateCorrupt { path, message }) => {
            assert_eq!(path, "/s");
            assert!(message.contains("JSON"));
        }
        _ => panic!(),
    }
    let unreadable = StateFile::Unreadable("perm".to_string());
    assert!(migrate_to_sqlite("/s", &unreadable, "/m", &StateFile::Missing, false, at(0)).is_err());
    assert!(needs_daemon_lock(LockPolicy::Acquire, false));
    assert!(!needs_daemon_lock(LockPolicy::Skip, false));
    let _ = lock_contended();
}

#[test]
fn the_backend_is_set_in_its_section() {
    let plain = write_state_backend_config(&Ok("a: 1\n".to_string()), "/c", "sqlite").unwrap();
    assert_eq!(plain, "a: 1\nstate_backend: sqlite\n");
    let shared = "caduceus:\n  a: 1\nother: 2\n".to_string();
    let shared = write_state_backend_config(&Ok(shared), "/c", "sqlite").unwrap();
    assert_eq!(shared, "caduceus:\n  a: 1\n  state_backend: sqlite\nother: 2\n");
    match write_state_backend_config(&Ok("- 1\n".to_string()), "/c", "sqlite") {
        Err(CaduceusError::Config(m)) => assert_eq!(m, "config /c is not a YAML mapping"),
        _ => panic!(),
    }
    match write_state_backend_config(&Err("gone".to_string()), "/c", "sqlite") {
        Err(CaduceusError::Config(m)) => assert_eq!(m, "failed to read config /c: gone"),
        _ => panic!(),
    }
    assert!(write_state_backend_config(&Ok("a: [".to_string()), "/c", "sqlite").is_err());
    let odd = write_state_backend_config(&Ok("caduceus:   3\n".to_string()), "/c", "sqlite").unwrap();
    assert_eq!(odd, "caduceus: 3\n");
}

#[test]
fn the_place_of_the_backend_follows_the_shape() {
    let mapping = Ok(true);
    let other = Ok(false);
    assert!(matches!(backend_place(&Ok(Some(false)), &other, "/c"), Ok(BackendPlace::Top)));
    assert!(matches!(backend_place(&Ok(Some(true)), &mapping, "/c"), Ok(BackendPlace::Section)));
    assert!(matches!(backend_place(&Ok(Some(true)), &other, "/c"), Ok(BackendPlace::Nowhere)));
    match backend_place(&Ok(None), &other, "/c") {
        Err(CaduceusError::Config(m)) => assert_eq!(m, "config /c is not a YAML mapping"),
        _ => panic!(),
    }
    match backend_place(&Err("bad".to_string()), &other, "/c") {
        Err(CaduceusError::Config(m)) => assert_eq!(m, "failed to parse config /c: bad"),
        _ => panic!(),
    }
}

#[test]
fn the_registry_is_well_formed() {
    assert!(assert_registry_wellformed().is_ok());
    let chain = sqlite_migration_chain();
    assert_eq!(chain.len(), migrations().len());
    assert_eq!(chain[chain.len() - 1].1, STALE_SCHEMA_VERSION);
    for i in 1..chain.len() {
        assert_eq!(chain[i - 1].1, chain[i].0);
    }
    let steps = migrations();
    assert!(steps[0].statements.contains("ALTER TABLE checkpoints ADD COLUMN operation_id TEXT;"));
    assert_eq!(steps[1].statements, "");
    assert_eq!(steps[2].statements, "DROP TABLE IF EXISTS circuit_breakers;");
    assert_eq!(steps[2].failure, "v3→v4 DROP circuit_breakers");
    assert!(steps[4].statements.contains("ALTER TABLE queue_entries ADD COLUMN blocked_source TEXT;"));
    let gap = vec![
        Migration { from: 1, to: 2, label: "a", statements: "", failure: "" },
        Migration { from: 3, to: 4, label: "b", statements: "", failure: "" },
    ];
    assert!(check_registry(&gap).is_err());
    assert_eq!(database_path("/s"), "/s/state.db");
}

#[test]
fn versions_are_guarded() {
    assert!(matches!(plan_open("/db", StoredVersion::Fresh).unwrap(), OpenPlan::Initialise));
    match plan_open("/db", StoredVersion::At(1)).unwrap() {
        OpenPlan::Migrate { steps, .. } => assert_eq!(steps.len(), migrations().len()),
        OpenPlan::Initialise => panic!(),
    }
    assert!(matches!(
        plan_open("/db", StoredVersion::At(SCHEMA_VERSION + 1)).err().unwrap(),
        CaduceusError::StoreVersionUnsupported { .. }
    ));
    assert!(matches!(
        plan_open("/db", StoredVersion::At(STALE_SCHEMA_VERSION)).err().unwrap(),
        CaduceusError::StateCorrupt { .. }
    ));
    match plan_open("/db", StoredVersion::At(3)).unwrap() {
        OpenPlan::Migrate { steps, record_version } => {
            assert_eq!(steps, vec![2, 3, 4]);
            assert!(record_version);
        }
        OpenPlan::Initialise => panic!(),
    }
    match plan_open("/db", StoredVersion::At(SCHEMA_VERSION)).unwrap() {
        OpenPlan::Migrate { steps, record_version } => {
            assert!(steps.is_empty());
            assert!(!record_version);
        }
        OpenPlan::Initialise => panic!(),
    }
}

fn run_row(id: &str, state: OciLifecycleState) -> ContainerRunRow {
    ContainerRunRow {
        run_id: id.to_string(),
        container_id: None,
        state,
        engine: "docker".to_string(),
        created_at: "2024-01-01T00:00:00Z".to_string(),
        updated_at: "2024-01-01T00:00:00Z".to_string(),
        daemon_id: "d".to_string(),
        issue_id: "o/r#1".to_string(),
        worker_command_sha256: "x".to_string(),
    }
}

#[test]
fn lifecycle_labels_read_back() {
    for s in [
        OciLifecycleState::Created,
        OciLifecycleState::Running,
        OciLifecycleState::Exited(-9),
        OciLifecycleState::Stopped,
        OciLifecycleState::Killed,
        OciLifecycleState::Removed,
        OciLifecycleState::PendingReconciliation,
    ] {
        let label = s.to_label();
        let back = OciLifecycleState::from_label(&label).unwrap();
        assert_eq!(back.to_label(), label);
    }
    assert!(OciLifecycleState::from_label("lost").is_err());
}

#[test]
fn container_runs_are_found() {
    let mut dao = OciRunDao::new(Vec::new());
    assert!(dao.insert(&run_row("r1", OciLifecycleState::Created)).is_ok());
    assert!(dao.insert(&run_row("r1", OciLifecycleState::Created)).is_err());
    assert!(dao.get("r1").is_some());
    assert!(dao.get("r2").is_none());
    dao.update_container_id("r1", "c-9", at(1));
    assert_eq!(dao.get_by_container_id("c-9").unwrap().unwrap().run_id, "r1");
    assert!(dao.get_by_container_id("c-8").unwrap().is_none());
}

#[test]
fn live_runs_are_kept() {
    let file = |name: &str, age: i64| DirEntry {
        name: Some(name.to_string()),
        is_file: true,
        modified: Some(at(-age)),
    };
    let old = 40 * 86400;
    let entries = vec![file("run-1.log", old), file("run-2.log", 60)];
    let pruned = prune_run_artifacts(&entries, 7, at(0));
    assert!(!pruned.contains(&"run-2.log".to_string()));
}

fn legacy(repo: &str, n: u64, status: &str) -> LegacyEntryV0 {
    LegacyEntryV0 {
        repo: repo.to_string(),
        number: n,
        status: status.to_string(),
        last_error: None,
        attempts: 0,
        updated_at: Some("2024-01-02T03:04:05Z".to_string()),
    }
}

fn live() -> QueueState {
    let mut s = StateStore::open("/s", None).unwrap();
    let key = IssueKey { owner: "o".to_string(), repo: "r".to_string(), number: 1 };
    s.enqueue(&key, TicketType::Code, false, at(0)).unwrap();
    s.queue
}

#[test]
fn the_live_queue_is_left_alone() {
    let queue = live();
    let source = ImportSource::Listed(vec![
        legacy("o/r", 1, "failed"),
        legacy("o/r", 2, "queued"),
        legacy("not a slug", 3, "queued"),
    ]);
    let plan = run(&source, &queue, true, false, at(5));
    assert!(matches!(
        plan.report.outcome,
        MigrationOutcome::Imported { migrated: 1, skipped: 2 }
    ));
    let installed = plan.install.unwrap();
    assert_eq!(installed.entries.len(), 2);
    let key = IssueKey { owner: "o".to_string(), repo: "r".to_string(), number: 1 };
    assert_eq!(installed.entry(&key).unwrap().queued_at, at(0));
    let again = run(&source, &installed, true, false, at(6));
    assert_eq!(again.report.entries_migrated, 0);
}

#[test]
fn a_dry_import_installs_nothing() {
    let source = ImportSource::Listed(vec![legacy("o/r", 2, "queued")]);
    let plan = run(&source, &live(), true, true, at(5));
    assert!(matches!(
        plan.report.outcome,
        MigrationOutcome::DryRun { would_migrate: 1, would_skip: 0 }
    ));
    assert!(plan.install.is_none());
    let source = ImportSource::Listed(vec![legacy("o/r", 1, "done"), legacy("o/r", 3, "queued")]);
    let plan = run(&source, &live(), true, true, at(5));
    assert!(matches!(
        plan.report.outcome,
        MigrationOutcome::DryRun { would_migrate: 1, would_skip: 1 }
    ));
    let real = run(&source, &live(), true, false, at(5));
    assert!(matches!(real.report.outcome, MigrationOutcome::Imported { migrated: 1, skipped: 1 }));
}

#[test]
fn files_are_told_apart() {
    let file = |s: &str| ImportFile::Bytes(s.as_bytes().to_vec());
    assert!(matches!(
        sniff(&file(r#"{"entries" : [ ]}"#), "/f").unwrap(),
        QueueForm::Listed
    ));
    assert!(matches!(
        sniff(&file(r#"{"version":1,"entries":{}}"#), "/f").unwrap(),
        QueueForm::Keyed
    ));
    assert!(sniff(&ImportFile::Missing, "/f").is_err());
    assert!(sniff(&ImportFile::Unreadable("perm".to_string()), "/f").is_err());
    assert!(looks_like_v0(&br#"{"entries":[]}"#.to_vec()));
    assert!(!looks_like_v0(&br#"{"entries":{}}"#.to_vec()));
    assert!(!looks_like_v0(&b"[]".to_vec()));
    assert!(parse_v0(Err("eof".to_string())).is_err());
}

#[test]
fn legacy_times_fall_back() {
    let read = parse_legacy_timestamp(&Some("2023-11-14T22:13:20Z".to_string()), at(9));
    assert_eq!(read, at(0));
    assert_eq!(parse_legacy_timestamp(&Some("soon".to_string()), at(9)), at(9));
    assert_eq!(parse_legacy_timestamp(&None, at(9)), at(9));
}

#[test]
fn a_recovery_keeps_the_original() {
    let step = begin_recovery("/s", true, 42);
    let archived = match &step {
        RecoveryStep::Archive { to } => to.clone(),
        _ => panic!(),
    };
    assert!(archived.contains("42"));
    let step = next_recovery(step, RecoveryEvent::Done { marker: false }, true, "/fix");
    assert!(matches!(step, RecoveryStep::Install { archived: Some(_) }));
    let step = next_recovery(step, RecoveryEvent::Failed, true, "/fix");
    match step {
        RecoveryStep::Restore { from } => assert_eq!(from, archived),
        _ => panic!(),
    }
}
