//! Checkpoints: each stage of a finalization is on record before its effect,
//! and recovery resumes from the last one.

use vstd::prelude::*;

use crate::state::queue::FinalizationStage;
use crate::text;
use crate::time;
use crate::time::Timestamp;

verus! {

/// A row of the checkpoint table.
#[derive(Debug)]
pub struct CheckpointRow {
    pub run_id: String,
    /// The label of the stage.
    pub stage: String,
    /// What the stage needs to be resumed, as JSON.
    pub checkpoint_data: Option<String>,
    /// When the checkpoint was written, in RFC 3339.
    pub created_at: String,
}

/// A [`CheckpointRow`] with its texts as character sequences.
pub struct CheckpointView {
    pub run_id: Seq<char>,
    pub stage: Seq<char>,
    pub checkpoint_data: Option<Seq<char>>,
    pub created_at: Seq<char>,
}

impl View for CheckpointRow {
    type V = CheckpointView;

    open spec fn view(&self) -> CheckpointView {
        CheckpointView {
            run_id: self.run_id@,
            stage: self.stage@,
            checkpoint_data: text::opt(self.checkpoint_data),
            created_at: self.created_at@,
        }
    }
}

impl Clone for CheckpointRow {
    fn clone(&self) -> (r: Self)
        ensures
            r == *self,
    {
        CheckpointRow {
            run_id: self.run_id.clone(),
            stage: self.stage.clone(),
            checkpoint_data: self.checkpoint_data.clone(),
            created_at: self.created_at.clone(),
        }
    }
}

impl CheckpointRow {
    /// The stage that the label names.
    pub fn stage_enum(&self) -> (r: Option<FinalizationStage>)
        ensures
            match r {
                Some(s) => s.label() == self@.stage,
                None => forall|s: FinalizationStage| s.label() != self@.stage,
            },
    {
        FinalizationStage::from_str(self.stage.as_str())
    }
}

/// The rows by their views.
pub open spec fn row_views(rows: Seq<CheckpointRow>) -> Seq<CheckpointView> {
    rows.map_values(|r: CheckpointRow| r@)
}

/// The row is that of the run and the stage.
pub open spec fn is_of(r: CheckpointView, run_id: Seq<char>, stage: Seq<char>) -> bool {
    r.run_id == run_id && r.stage == stage
}

/// The rows without the checkpoint of a run and a stage.
pub open spec fn without(rows: Seq<CheckpointView>, run_id: Seq<char>, stage: Seq<char>) -> Seq<
    CheckpointView,
> {
    rows.filter(|r: CheckpointView| !is_of(r, run_id, stage))
}

/// The rows once a checkpoint is written: it replaces the one of the same run
/// and stage.
pub open spec fn persisted(rows: Seq<CheckpointView>, row: CheckpointView) -> Seq<CheckpointView> {
    without(rows, row.run_id, row.stage).push(row)
}

/// Where a row created at `created_at` goes among the first `n` of sorted
/// rows: behind all that are not later.
pub open spec fn slot(sorted: Seq<CheckpointView>, created_at: Seq<char>, n: int) -> int
    decreases n,
{
    if 0 < n && text::str_lt(created_at, sorted[n - 1].created_at) {
        slot(sorted, created_at, n - 1)
    } else {
        n
    }
}

/// The rows in the order of their creation; rows of one time keep their order.
pub open spec fn by_creation(rows: Seq<CheckpointView>) -> Seq<CheckpointView>
    decreases rows.len(),
{
    if rows.len() == 0 {
        Seq::empty()
    } else {
        let rest = by_creation(rows.drop_last());
        rest.insert(slot(rest, rows.last().created_at, rest.len() as int), rows.last())
    }
}

/// The rows of a run.
pub open spec fn of_run(rows: Seq<CheckpointView>, run_id: Seq<char>) -> Seq<CheckpointView> {
    rows.filter(|r: CheckpointView| r.run_id == run_id)
}

proof fn lemma_slot(sorted: Seq<CheckpointView>, c: Seq<char>, n: int)
    requires
        0 <= n <= sorted.len(),
    ensures
        0 <= slot(sorted, c, n) <= n,
        forall|i: int|
            slot(sorted, c, n) <= i < n ==> text::str_lt(c, (#[trigger] sorted[i]).created_at),
        0 < slot(sorted, c, n) ==> !text::str_lt(c, sorted[slot(sorted, c, n) - 1].created_at),
    decreases n,
{
    if 0 < n && text::str_lt(c, sorted[n - 1].created_at) {
        lemma_slot(sorted, c, n - 1);
    }
}

/// The rows stand in the order of their creation.
pub open spec fn in_order(rows: Seq<CheckpointView>) -> bool {
    forall|i: int, j: int|
        0 <= i < j < rows.len() ==> !text::str_lt(
            (#[trigger] rows[j]).created_at,
            (#[trigger] rows[i]).created_at,
        )
}

/// Ordering by creation orders, and neither loses a row nor invents one.
pub proof fn law_checkpoints_come_in_order(rows: Seq<CheckpointView>)
    ensures
        in_order(by_creation(rows)),
        by_creation(rows).len() == rows.len(),
        by_creation(rows).to_multiset() == rows.to_multiset(),
    decreases rows.len(),
{
    broadcast use vstd::seq_lib::group_to_multiset_ensures;

    if rows.len() > 0 {
        let rest = by_creation(rows.drop_last());
        let row = rows.last();
        let p = slot(rest, row.created_at, rest.len() as int);
        law_checkpoints_come_in_order(rows.drop_last());
        lemma_slot(rest, row.created_at, rest.len() as int);
        let all = rest.insert(p, row);
        assert forall|i: int, j: int| 0 <= i < j < all.len() implies !text::str_lt(
            (#[trigger] all[j]).created_at,
            (#[trigger] all[i]).created_at,
        ) by {
            let i0 = if i < p {
                i
            } else {
                i - 1
            };
            let j0 = if j < p {
                j
            } else {
                j - 1
            };
            if i == p {
                text::lemma_str_lt_total(row.created_at, rest[j0].created_at);
            } else if j == p {
                if i < p - 1 {
                    assert(!text::str_lt(rest[p - 1].created_at, rest[i].created_at));
                    if text::str_lt(row.created_at, rest[i].created_at) {
                        text::lemma_str_lt_total(rest[i].created_at, rest[p - 1].created_at);
                        if text::str_lt(rest[i].created_at, rest[p - 1].created_at) {
                            text::lemma_str_lt_transitive(
                                row.created_at,
                                rest[i].created_at,
                                rest[p - 1].created_at,
                            );
                        }
                    }
                }
            } else {
                assert(all[i] == rest[i0]);
                assert(all[j] == rest[j0]);
            }
        }
        assert(rows =~= rows.drop_last().push(row));
        vstd::seq_lib::to_multiset_insert(rest, p, row);
    }
}

/// The latest row: of rows of one time, the last.
pub open spec fn latest(rows: Seq<CheckpointView>) -> Option<CheckpointView>
    decreases rows.len(),
{
    if rows.len() == 0 {
        None
    } else {
        match latest(rows.drop_last()) {
            None => Some(rows.last()),
            Some(best) => if text::str_lt(rows.last().created_at, best.created_at) {
                Some(best)
            } else {
                Some(rows.last())
            },
        }
    }
}

/// The latest checkpoint is the last in the order of creation.
pub proof fn law_the_latest_checkpoint_is_the_last(rows: Seq<CheckpointView>)
    ensures
        rows.len() == 0 ==> latest(rows) is None,
        rows.len() > 0 ==> latest(rows) == Some(by_creation(rows).last()),
    decreases rows.len(),
{
    law_checkpoints_come_in_order(rows);
    if rows.len() > 0 {
        let rest = by_creation(rows.drop_last());
        law_the_latest_checkpoint_is_the_last(rows.drop_last());
        law_checkpoints_come_in_order(rows.drop_last());
        lemma_slot(rest, rows.last().created_at, rest.len() as int);
    }
}

/// Writing a checkpoint again keeps one row for its stage, with the new
/// contents.
pub proof fn law_a_checkpoint_is_written_once(
    rows: Seq<CheckpointView>,
    row: CheckpointView,
    again: CheckpointView,
)
    requires
        again.run_id == row.run_id,
        again.stage == row.stage,
    ensures
        persisted(persisted(rows, row), again) == persisted(rows, again),
{
    let p = |r: CheckpointView| !is_of(r, row.run_id, row.stage);
    let once = rows.filter(p);
    lemma_filter_twice(rows, p);
    reveal(Seq::filter);
    assert(once.push(row).drop_last() =~= once);
    assert(once.push(row).filter(p) == once.filter(p));
}

proof fn lemma_filter_twice(rows: Seq<CheckpointView>, p: spec_fn(CheckpointView) -> bool)
    ensures
        rows.filter(p).filter(p) == rows.filter(p),
    decreases rows.len(),
{
    reveal(Seq::filter);
    if rows.len() > 0 {
        let rest = rows.drop_last();
        lemma_filter_twice(rest, p);
        if p(rows.last()) {
            assert(rest.filter(p).push(rows.last()).drop_last() =~= rest.filter(p));
        }
    }
}

/// The checkpoint table.
#[derive(Debug)]
pub struct Checkpoints {
    pub rows: Vec<CheckpointRow>,
}

impl View for Checkpoints {
    type V = Seq<CheckpointView>;

    open spec fn view(&self) -> Seq<CheckpointView> {
        row_views(self.rows@)
    }
}

/// Write the checkpoint of a run and a stage, before the effect that it is
/// about. Writing it again refreshes it.
pub fn persist_checkpoint(
    table: &mut Checkpoints,
    run_id: &str,
    stage: FinalizationStage,
    checkpoint_data: Option<&str>,
    now: Timestamp,
)
    requires
        now.valid(),
    ensures
        final(table)@ == persisted(
            old(table)@,
            (CheckpointView {
                run_id: run_id@,
                stage: stage.label(),
                checkpoint_data: text::opt_str(checkpoint_data),
                created_at: time::rfc3339_text(now),
            }),
        ),
{
    delete_checkpoint(table, run_id, stage);
    let ghost before = table@;
    table.rows.push(
        CheckpointRow {
            run_id: run_id.to_owned(),
            stage: stage.as_str().to_owned(),
            checkpoint_data: match checkpoint_data {
                Some(d) => Some(d.to_owned()),
                None => None,
            },
            created_at: time::format_rfc3339(now),
        },
    );
    proof {
        assert(table@ =~= before.push(table.rows@.last()@));
    }
}

/// The checkpoints of a run, oldest first.
pub fn checkpoint_for_run(table: &Checkpoints, run_id: &str) -> (r: Vec<CheckpointRow>)
    ensures
        row_views(r@) == by_creation(of_run(table@, run_id@)),
{
    let ghost p = |r: CheckpointView| r.run_id == run_id@;
    let mut out: Vec<CheckpointRow> = Vec::new();
    let mut i: usize = 0;
    proof {
        reveal(Seq::filter);
        assert(row_views(out@) =~= by_creation(table@.take(0).filter(p)));
    }
    while i < table.rows.len()
        invariant
            i <= table.rows.len(),
            p == (|r: CheckpointView| r.run_id == run_id@),
            row_views(out@) == by_creation(table@.take(i as int).filter(p)),
        decreases table.rows.len() - i,
    {
        let row = &table.rows[i];
        let ghost taken = table@.take(i as int).filter(p);
        proof {
            reveal(Seq::filter);
            assert(table@.take(i + 1).drop_last() =~= table@.take(i as int));
            assert(table@.take(i + 1).last() == row@);
        }
        if text::same(row.run_id.as_str(), run_id) {
            let ghost sorted = row_views(out@);
            let mut at: usize = out.len();
            while at > 0 && text::sorts_before(
                row.created_at.as_str(),
                out[at - 1].created_at.as_str(),
            )
                invariant
                    at <= out.len(),
                    sorted == row_views(out@),
                    slot(sorted, row@.created_at, sorted.len() as int) == slot(
                        sorted,
                        row@.created_at,
                        at as int,
                    ),
                decreases at,
            {
                at -= 1;
            }
            proof {
                assert(at > 0 ==> sorted[at - 1] == out@[at - 1]@);
                assert(slot(sorted, row@.created_at, at as int) == at);
                assert(taken.push(row@).drop_last() =~= taken);
                assert(by_creation(taken.push(row@)) == sorted.insert(at as int, row@));
            }
            let ghost before = out@;
            out.insert(at, row.clone());
            proof {
                assert(row_views(out@) =~= sorted.insert(at as int, row@));
            }
        }
        i += 1;
    }
    proof {
        assert(table@.take(i as int) =~= table@);
    }
    out
}

/// The last checkpoint of a run.
pub fn last_checkpoint_for_run(table: &Checkpoints, run_id: &str) -> (r: Option<CheckpointRow>)
    ensures
        match r {
            Some(row) => latest(of_run(table@, run_id@)) == Some(row@),
            None => latest(of_run(table@, run_id@)) is None,
        },
{
    let mut rows = checkpoint_for_run(table, run_id);
    proof {
        law_the_latest_checkpoint_is_the_last(of_run(table@, run_id@));
        law_checkpoints_come_in_order(of_run(table@, run_id@));
        assert(rows.len() == row_views(rows@).len());
        assert(rows.len() > 0 ==> row_views(rows@).last() == rows@.last()@);
    }
    rows.pop()
}

/// Remove every checkpoint of a run.
pub fn delete_checkpoints_for_run(table: &mut Checkpoints, run_id: &str)
    ensures
        final(table)@ == old(table)@.filter(|r: CheckpointView| r.run_id != run_id@),
{
    let ghost p = |r: CheckpointView| r.run_id != run_id@;
    let ghost all = table@;
    let mut kept: Vec<CheckpointRow> = Vec::new();
    let mut i: usize = 0;
    proof {
        reveal(Seq::filter);
        assert(row_views(kept@) =~= all.take(0).filter(p));
    }
    while i < table.rows.len()
        invariant
            *table == *old(table),
            all == table@,
            i <= table.rows.len(),
            p == (|r: CheckpointView| r.run_id != run_id@),
            row_views(kept@) == all.take(i as int).filter(p),
        decreases table.rows.len() - i,
    {
        let row = &table.rows[i];
        let ghost before = kept@;
        proof {
            reveal(Seq::filter);
            assert(all.take(i + 1).drop_last() =~= all.take(i as int));
            assert(all.take(i + 1).last() == row@);
        }
        if !text::same(row.run_id.as_str(), run_id) {
            kept.push(row.clone());
            proof {
                assert(row_views(kept@) =~= row_views(before).push(row@));
            }
        }
        i += 1;
    }
    proof {
        assert(all.take(i as int) =~= all);
    }
    table.rows = kept;
}

/// Remove the checkpoint of a run and a stage.
pub fn delete_checkpoint(table: &mut Checkpoints, run_id: &str, stage: FinalizationStage)
    ensures
        final(table)@ == without(old(table)@, run_id@, stage.label()),
{
    let label = stage.as_str();
    let ghost p = |r: CheckpointView| !is_of(r, run_id@, label@);
    let ghost all = table@;
    let mut kept: Vec<CheckpointRow> = Vec::new();
    let mut i: usize = 0;
    proof {
        reveal(Seq::filter);
        assert(row_views(kept@) =~= all.take(0).filter(p));
    }
    while i < table.rows.len()
        invariant
            *table == *old(table),
            all == table@,
            i <= table.rows.len(),
            p == (|r: CheckpointView| !is_of(r, run_id@, label@)),
            row_views(kept@) == all.take(i as int).filter(p),
        decreases table.rows.len() - i,
    {
        let row = &table.rows[i];
        let ghost before = kept@;
        proof {
            reveal(Seq::filter);
            assert(all.take(i + 1).drop_last() =~= all.take(i as int));
            assert(all.take(i + 1).last() == row@);
        }
        if !(text::same(row.run_id.as_str(), run_id) && text::same(row.stage.as_str(), label)) {
            kept.push(row.clone());
            proof {
                assert(row_views(kept@) =~= row_views(before).push(row@));
            }
        }
        i += 1;
    }
    proof {
        assert(all.take(i as int) =~= all);
    }
    table.rows = kept;
}

/// Saving a checkpoint replaces the one of its run and stage, and keeps every
/// other.
pub proof fn law_a_checkpoint_replaces_its_own(
    rows: Seq<CheckpointView>,
    row: CheckpointView,
    other: CheckpointView,
)
    ensures
        persisted(rows, row).last() == row,
        rows.contains(other) && !(other.run_id == row.run_id && other.stage == row.stage)
            ==> persisted(rows, row).contains(other),
        forall|i: int|
            0 <= i < persisted(rows, row).len() - 1 ==> !((#[trigger] persisted(rows, row)[i]).run_id
                == row.run_id && persisted(rows, row)[i].stage == row.stage),
{
    broadcast use vstd::seq_lib::group_filter_ensures;

    let p = |r: CheckpointView| !is_of(r, row.run_id, row.stage);
    let kept = rows.filter(p);
    assert(persisted(rows, row) == kept.push(row));
    if rows.contains(other) && p(other) {
        let i = choose|i: int| 0 <= i < rows.len() && rows[i] == other;
        assert(kept.contains(other));
        let j = choose|j: int| 0 <= j < kept.len() && kept[j] == other;
        assert(persisted(rows, row)[j] == other);
    }
    assert forall|i: int| 0 <= i < persisted(rows, row).len() - 1 implies !((
    #[trigger] persisted(rows, row)[i]).run_id == row.run_id && persisted(rows, row)[i].stage
        == row.stage) by {
        assert(persisted(rows, row)[i] == kept[i]);
        assert(p(kept[i]));
    }
}

/// Removing a checkpoint removes it and nothing else; the checkpoints of a run are
/// exactly those with its name.
pub proof fn law_checkpoints_are_told_by_run_and_stage(
    rows: Seq<CheckpointView>,
    run_id: Seq<char>,
    stage: Seq<char>,
    r: CheckpointView,
)
    ensures
        without(rows, run_id, stage).contains(r) <==> rows.contains(r) && !(r.run_id == run_id
            && r.stage == stage),
        of_run(rows, run_id).contains(r) <==> rows.contains(r) && r.run_id == run_id,
{
    broadcast use vstd::seq_lib::group_filter_ensures;

    let p = |x: CheckpointView| !is_of(x, run_id, stage);
    let q = |x: CheckpointView| x.run_id == run_id;
    if rows.filter(p).contains(r) {
        rows.lemma_filter_contains_rev(p, r);
        let f = rows.filter(p);
        let i = choose|i: int| 0 <= i < f.len() && f[i] == r;
        assert(p(f[i]));
    }
    if rows.filter(q).contains(r) {
        rows.lemma_filter_contains_rev(q, r);
        let f = rows.filter(q);
        let i = choose|i: int| 0 <= i < f.len() && f[i] == r;
        assert(q(f[i]));
    }
    if rows.contains(r) {
        let i = choose|i: int| 0 <= i < rows.len() && rows[i] == r;
        assert(p(rows[i]) ==> rows.filter(p).contains(rows[i]));
        assert(q(rows[i]) ==> rows.filter(q).contains(rows[i]));
    }
}

} // verus!
