//! Retention of backups in a state directory that still keeps database
//! backups of its own.

use vstd::prelude::*;

use crate::state::retention as rules;
use crate::state::retention::{DirEntry, DAY_SECONDS};
use crate::text;
use crate::time::Timestamp;

verus! {

/// A timestamped backup or archive of a corrupt file.
pub open spec fn is_backup(name: Seq<char>) -> bool {
    ||| rules::begins(name, "state.json.bak-"@)
    ||| rules::begins(name, "state.db.bak-"@)
    ||| rules::begins(name, "state.json.corrupt-"@)
    ||| rules::begins(name, "state.db.corrupt-"@)
}

/// An old backup.
pub open spec fn old_backup(cutoff: Timestamp) -> spec_fn(DirEntry) -> bool {
    |e: DirEntry| rules::older(e, cutoff) && is_backup(e.name->0@)
}

/// The backups in a state directory that are older than the retention window.
pub fn prune_backups(entries: &Vec<DirEntry>, retention_days: u64, now: Timestamp) -> (r: Vec<
    String,
>)
    requires
        retention_days * DAY_SECONDS <= i64::MAX,
        now.secs - retention_days * DAY_SECONDS >= i64::MIN,
    ensures
        text::texts(r@) == rules::chosen(
            entries@,
            old_backup(now.minus(retention_days * DAY_SECONDS)),
            entries.len() as int,
        ),
{
    let start = Timestamp {
        secs: now.secs - (retention_days * DAY_SECONDS) as i64,
        nanos: now.nanos,
    };
    let mut out: Vec<String> = Vec::new();
    let mut i: usize = 0;
    proof {
        assert(text::texts(out@) =~= Seq::<Seq<char>>::empty());
    }
    while i < entries.len()
        invariant
            i <= entries.len(),
            text::texts(out@) == rules::chosen(entries@, old_backup(start), i as int),
        decreases entries.len() - i,
    {
        match rules::older_name(&entries[i], &start) {
            Some(name) => {
                if text::begins(name, "state.json.bak-") || text::begins(name, "state.db.bak-")
                    || text::begins(name, "state.json.corrupt-") || text::begins(
                    name,
                    "state.db.corrupt-",
                ) {
                    let ghost before = out@;
                    out.push(name.to_owned());
                    proof {
                        assert(text::texts(out@) =~= text::texts(before).push(name@));
                    }
                }
            },
            None => {},
        }
        i += 1;
    }
    out
}

/// The names of the files that may be pruned.
pub proof fn law_only_copies_are_pruned(name: Seq<char>)
    ensures
        is_backup(name) <==> "state.json.bak-"@.is_prefix_of(name)
            || "state.db.bak-"@.is_prefix_of(name) || "state.json.corrupt-"@.is_prefix_of(name)
            || "state.db.corrupt-"@.is_prefix_of(name),
{
}

} // verus!
