use caduceus::state::checkpoints::{
    checkpoint_for_run, delete_checkpoint, delete_checkpoints_for_run, last_checkpoint_for_run,
    persist_checkpoint, Checkpoints,
};
use caduceus::state::queue::FinalizationStage;
use caduceus::time::Timestamp;

fn table() -> Checkpoints {
    Checkpoints { rows: Vec::new() }
}

fn at(secs: i64) -> Timestamp {
    Timestamp { secs: 1_700_000_000 + secs, nanos: 0 }
}

#[test]
fn persist_and_read_back() {
    let mut t = table();
    let run_id = "unit-run-1";
    persist_checkpoint(&mut t, run_id, FinalizationStage::Committed, None, at(0));
    persist_checkpoint(&mut t, run_id, FinalizationStage::Pushed, None, at(1));

    let rows = checkpoint_for_run(&t, run_id);
    assert_eq!(rows.len(), 2);
    assert_eq!(rows[0].stage, "committed");
    assert_eq!(rows[1].stage, "pushed");
    assert_eq!(rows[1].created_at, "2023-11-14T22:13:21+00:00");

    let last = last_checkpoint_for_run(&t, run_id).unwrap();
    assert_eq!(last.stage, "pushed");
}

#[test]
fn last_checkpoint_is_none_for_empty_run() {
    let result = last_checkpoint_for_run(&table(), "no-such-run");
    assert!(result.is_none(), "must be None for unknown run");
}

#[test]
fn overwrite_same_stage() {
    let mut t = table();
    let run_id = "unit-run-overwrite";
    persist_checkpoint(&mut t, run_id, FinalizationStage::Pushed, Some(r#"{"v":1}"#), at(0));
    persist_checkpoint(&mut t, run_id, FinalizationStage::Pushed, Some(r#"{"v":2}"#), at(1));

    let rows = checkpoint_for_run(&t, run_id);
    assert_eq!(rows.len(), 1);
    assert_eq!(rows[0].checkpoint_data.as_deref(), Some(r#"{"v":2}"#));
}

#[test]
fn delete_checkpoints_for_run_test() {
    let mut t = table();
    let run_id = "unit-run-del";
    persist_checkpoint(&mut t, run_id, FinalizationStage::Committed, None, at(0));
    persist_checkpoint(&mut t, run_id, FinalizationStage::Pushed, None, at(1));

    delete_checkpoints_for_run(&mut t, run_id);

    let rows = checkpoint_for_run(&t, run_id);
    assert!(rows.is_empty(), "all checkpoints deleted");
}

#[test]
fn deleting_a_stage_keeps_the_others() {
    let mut t = table();
    persist_checkpoint(&mut t, "a", FinalizationStage::Committed, None, at(0));
    persist_checkpoint(&mut t, "a", FinalizationStage::Pushed, None, at(1));
    persist_checkpoint(&mut t, "b", FinalizationStage::Pushed, None, at(2));
    delete_checkpoint(&mut t, "a", FinalizationStage::Pushed);
    assert_eq!(checkpoint_for_run(&t, "a").len(), 1);
    assert_eq!(checkpoint_for_run(&t, "b").len(), 1);
    let last = last_checkpoint_for_run(&t, "a").unwrap();
    assert_eq!(last.stage_enum(), Some(FinalizationStage::Committed));
}
