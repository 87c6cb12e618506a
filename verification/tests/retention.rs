use caduceus::retention::prune_backups;
use caduceus::state::retention;
use caduceus::state::retention::DirEntry;
use caduceus::time::Timestamp;

const NOW: Timestamp = Timestamp { secs: 1_700_000_000, nanos: 0 };

fn file(name: &str, days_old: i64) -> DirEntry {
    DirEntry {
        name: Some(name.to_string()),
        is_file: true,
        modified: Some(Timestamp { secs: NOW.secs - days_old * 86400, nanos: 0 }),
    }
}

#[test]
fn prune_removes_old_backups() {
    let entries = vec![file("state.json.bak-1000000", 30), file("state.json.bak-9999999999", 0)];
    let pruned = prune_backups(&entries, 7, NOW);
    assert_eq!(pruned.len(), 1, "only old backup should be pruned");
    assert!(pruned.contains(&"state.json.bak-1000000".to_string()), "old backup must be removed");
    assert!(
        !pruned.contains(&"state.json.bak-9999999999".to_string()),
        "recent backup must be kept"
    );
}

#[test]
fn prune_preserves_active_state() {
    let entries = vec![file("state.json", 30), file("state.db", 30), file("state_meta.json", 30)];
    let pruned = prune_backups(&entries, 7, NOW);
    assert_eq!(pruned.len(), 0, "no backup files to prune");
}

#[test]
fn prune_preserves_untimed_corrupt_marker() {
    let entries = vec![file("state.json.corrupt", 0), file("state.db.corrupt-1000000", 30)];
    let pruned = prune_backups(&entries, 7, NOW);
    assert_eq!(pruned.len(), 1, "only timed corrupt archive should be pruned");
    assert!(!pruned.contains(&"state.json.corrupt".to_string()), "untimed marker must be kept");
}

#[test]
fn prune_empty_dir_returns_zero() {
    assert_eq!(prune_backups(&Vec::new(), 7, NOW).len(), 0);
}

#[test]
fn a_window_before_the_epoch_prunes_nothing() {
    let entries = vec![file("state.json.bak-1000000", 30)];
    assert_eq!(retention::prune_backups(&entries, u64::MAX, NOW).len(), 0);
}
