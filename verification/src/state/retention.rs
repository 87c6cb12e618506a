//! Retention: which backups and run artifacts are old enough to go.
//!
//! The caller lists a directory and removes what is named here.

use vstd::prelude::*;

use crate::text;
use crate::time::Timestamp;

verus! {

/// Seconds in a day.
pub const DAY_SECONDS: u64 = 86400;

/// Seconds for which a run artifact is never touched.
pub const FRESH_SECONDS: i64 = 3600;

/// Something in a directory. It has no name where the name is not Unicode, and
/// no time where none can be read.
#[derive(Debug)]
pub struct DirEntry {
    pub name: Option<String>,
    /// A regular file.
    pub is_file: bool,
    pub modified: Option<Timestamp>,
}

/// The entry is a file with a name and a time before `cutoff`.
pub open spec fn older(e: DirEntry, cutoff: Timestamp) -> bool {
    &&& e.is_file
    &&& e.name is Some
    &&& e.modified matches Some(t) && t.lt(cutoff)
}

/// The names of the chosen among the first `n` entries, in order.
pub open spec fn chosen(entries: Seq<DirEntry>, p: spec_fn(DirEntry) -> bool, n: int) -> Seq<Seq<char>>
    decreases n,
{
    if n <= 0 {
        Seq::empty()
    } else if p(entries[n - 1]) {
        chosen(entries, p, n - 1).push(entries[n - 1].name->0@)
    } else {
        chosen(entries, p, n - 1)
    }
}

/// The retention window in seconds; one that is too long for the machine is as
/// long as it can be.
pub open spec fn window(retention_days: u64) -> u64 {
    if retention_days * DAY_SECONDS <= u64::MAX {
        (retention_days * DAY_SECONDS) as u64
    } else {
        u64::MAX
    }
}

/// The start of the retention window; none where it lies before the epoch.
pub open spec fn cutoff(retention_days: u64, now: Timestamp) -> Option<Timestamp> {
    if now.secs - window(retention_days) < 0 {
        None
    } else {
        Some(now.minus(window(retention_days) as int))
    }
}

fn window_start(retention_days: u64, now: Timestamp) -> (r: Option<Timestamp>)
    ensures
        r == cutoff(retention_days, now),
{
    let seconds: u64 = if retention_days > u64::MAX / DAY_SECONDS {
        u64::MAX
    } else {
        retention_days * DAY_SECONDS
    };
    if now.secs < 0 || (now.secs as u64) < seconds {
        None
    } else {
        Some(Timestamp { secs: now.secs - seconds as i64, nanos: now.nanos })
    }
}

// ---------------------------------------------------------------------------
// Backups
// ---------------------------------------------------------------------------

/// The text begins with the prefix.
pub open spec fn begins(s: Seq<char>, prefix: Seq<char>) -> bool {
    prefix.is_prefix_of(s)
}

/// A timestamped backup or archive of a corrupt file, as the daemon writes
/// them.
pub open spec fn is_backup(name: Seq<char>) -> bool {
    ||| begins(name, "state.json.bak-"@)
    ||| begins(name, "state.json.corrupt-"@)
    ||| begins(name, "state.db.corrupt-"@)
    ||| begins(name, "state_meta.json.corrupt-"@)
}

/// An old backup.
pub open spec fn old_backup(cutoff: Timestamp) -> spec_fn(DirEntry) -> bool {
    |e: DirEntry| older(e, cutoff) && is_backup(e.name->0@)
}

/// The backups in a state directory that are older than the retention window.
pub fn prune_backups(entries: &Vec<DirEntry>, retention_days: u64, now: Timestamp) -> (r: Vec<
    String,
>)
    ensures
        text::texts(r@) == (match cutoff(retention_days, now) {
            None => Seq::empty(),
            Some(c) => chosen(entries@, old_backup(c), entries.len() as int),
        }),
{
    let mut out: Vec<String> = Vec::new();
    proof {
        assert(text::texts(out@) =~= Seq::<Seq<char>>::empty());
    }
    let start = match window_start(retention_days, now) {
        None => {
            return out;
        },
        Some(c) => c,
    };
    let mut i: usize = 0;
    while i < entries.len()
        invariant
            i <= entries.len(),
            cutoff(retention_days, now) == Some(start),
            text::texts(out@) == chosen(entries@, old_backup(start), i as int),
        decreases entries.len() - i,
    {
        match older_name(&entries[i], &start) {
            Some(name) => {
                if text::begins(name, "state.json.bak-") || text::begins(
                    name,
                    "state.json.corrupt-",
                ) || text::begins(name, "state.db.corrupt-") || text::begins(
                    name,
                    "state_meta.json.corrupt-",
                ) {
                    let ghost before = out@;
                    out.push(name.to_owned());
                    proof {
                        assert(text::texts(out@) =~= text::texts(before).push(name@));
                    }
                }
            },
            None => {},
        }
        i += 1;
    }
    out
}

/// The name of a file that is older than `cutoff`.
pub(crate) fn older_name<'a>(entry: &'a DirEntry, cutoff: &Timestamp) -> (r: Option<&'a str>)
    ensures
        match r {
            Some(name) => older(*entry, *cutoff) && name@ == entry.name->0@,
            None => !older(*entry, *cutoff),
        },
{
    if !entry.is_file {
        return None;
    }
    match (&entry.name, entry.modified) {
        (Some(name), Some(t)) => {
            if t.is_before(cutoff) {
                Some(name.as_str())
            } else {
                None
            }
        },
        _ => None,
    }
}

// ---------------------------------------------------------------------------
// Run artifacts
// ---------------------------------------------------------------------------

/// The text ends with the suffix.
pub open spec fn ends(s: Seq<char>, suffix: Seq<char>) -> bool {
    suffix.is_suffix_of(s)
}

/// A transcript, a result, a heartbeat or a preview of a run.
pub open spec fn is_run_artifact(name: Seq<char>) -> bool {
    ||| ends(name, ".log"@)
    ||| ends(name, ".result.json"@)
    ||| ends(name, ".heartbeat"@)
    ||| ends(name, ".preview.json"@)
    ||| ends(name, ".dry-run.md"@)
}

/// The time from which on a run artifact is never touched; none where it lies
/// before the epoch.
pub open spec fn fresh_floor(now: Timestamp) -> Option<Timestamp> {
    if now.secs - FRESH_SECONDS < 0 {
        None
    } else {
        Some(now.minus(FRESH_SECONDS as int))
    }
}

/// An old artifact that no run can still be writing.
pub open spec fn old_artifact(cutoff: Timestamp, floor: Timestamp) -> spec_fn(DirEntry) -> bool {
    |e: DirEntry| older(e, cutoff) && older(e, floor) && is_run_artifact(e.name->0@)
}

/// The artifacts of finished runs that are older than the retention window.
/// What changed within the last hour stays, whatever the window: a run may
/// still be writing it.
pub fn prune_run_artifacts(entries: &Vec<DirEntry>, retention_days: u64, now: Timestamp) -> (r: Vec<
    String,
>)
    ensures
        text::texts(r@) == (match (cutoff(retention_days, now), fresh_floor(now)) {
            (Some(c), Some(f)) => chosen(entries@, old_artifact(c, f), entries.len() as int),
            _ => Seq::empty(),
        }),
{
    let mut out: Vec<String> = Vec::new();
    proof {
        assert(text::texts(out@) =~= Seq::<Seq<char>>::empty());
    }
    let start = match window_start(retention_days, now) {
        None => {
            return out;
        },
        Some(c) => c,
    };
    if now.secs < FRESH_SECONDS {
        return out;
    }
    let floor = Timestamp { secs: now.secs - FRESH_SECONDS, nanos: now.nanos };
    let mut i: usize = 0;
    while i < entries.len()
        invariant
            i <= entries.len(),
            cutoff(retention_days, now) == Some(start),
            fresh_floor(now) == Some(floor),
            text::texts(out@) == chosen(entries@, old_artifact(start, floor), i as int),
        decreases entries.len() - i,
    {
        match older_name(&entries[i], &floor) {
            Some(name) => {
                let artifact = text::ends(name, ".log") || text::ends(name, ".result.json")
                    || text::ends(name, ".heartbeat") || text::ends(name, ".preview.json")
                    || text::ends(name, ".dry-run.md");
                let stale = match older_name(&entries[i], &start) {
                    Some(_) => true,
                    None => false,
                };
                if artifact && stale {
                    let ghost before = out@;
                    out.push(name.to_owned());
                    proof {
                        assert(text::texts(out@) =~= text::texts(before).push(name@));
                    }
                }
            },
            None => {},
        }
        i += 1;
    }
    out
}

// ---------------------------------------------------------------------------
// Laws
// ---------------------------------------------------------------------------

/// What is chosen is the name of an entry that the rule chose.
pub proof fn lemma_chosen(
    entries: Seq<DirEntry>,
    p: spec_fn(DirEntry) -> bool,
    n: int,
    name: Seq<char>,
)
    requires
        n <= entries.len(),
        chosen(entries, p, n).contains(name),
    ensures
        exists|i: int| 0 <= i < n && p(#[trigger] entries[i]) && entries[i].name->0@ == name,
    decreases n,
{
    if n > 0 {
        let rest = chosen(entries, p, n - 1);
        if p(entries[n - 1]) && name == entries[n - 1].name->0@ {
        } else {
            let all = chosen(entries, p, n);
            let c = choose|c: int| 0 <= c < all.len() && all[c] == name;
            assert(rest[c] == name);
            lemma_chosen(entries, p, n - 1, name);
        }
    }
}

/// Active files are never pruned, however old: neither the state and the
/// metadata nor a corruption marker without a timestamp, nor an operator's
/// own backup.
pub proof fn law_active_files_are_kept(entries: Seq<DirEntry>, cutoff: Timestamp, name: Seq<char>)
    requires
        name == "state.json"@ || name == "state.db"@ || name == "state_meta.json"@ || name
            == "state.json.corrupt"@ || begins(name, "state.db.backup-"@),
    ensures
        !chosen(entries, old_backup(cutoff), entries.len() as int).contains(name),
{
    reveal_strlit("state.json");
    reveal_strlit("state.db");
    reveal_strlit("state_meta.json");
    reveal_strlit("state.json.corrupt");
    reveal_strlit("state.db.backup-");
    reveal_strlit("state.json.bak-");
    reveal_strlit("state.json.corrupt-");
    reveal_strlit("state.db.corrupt-");
    reveal_strlit("state_meta.json.corrupt-");
    assert("state.json"@.len() == 10);
    assert("state.db"@.len() == 8);
    assert("state_meta.json"@.len() == 15);
    assert("state.json.corrupt"@.len() == 18);
    assert("state.json.bak-"@.len() == 15);
    assert("state.json.corrupt-"@.len() == 19);
    assert("state.db.corrupt-"@.len() == 17);
    assert("state_meta.json.corrupt-"@.len() == 24);
    assert("state.db.backup-"@.len() == 16);
    if begins(name, "state.db.backup-"@) {
        assert(name[6] == "state.db.backup-"@[6]);
        assert(name[9] == "state.db.backup-"@[9]);
    }
    if is_backup(name) {
        if begins(name, "state.json.bak-"@) {
            assert(name[6] == "state.json.bak-"@[6]);
            assert(name[11] == "state.json.bak-"@[11]);
            assert(name.len() >= 15);
            assert(name[5] == "state.json.bak-"@[5]);
        } else if begins(name, "state.json.corrupt-"@) {
            assert(name[6] == "state.json.corrupt-"@[6]);
        } else if begins(name, "state.db.corrupt-"@) {
            assert(name[9] == "state.db.corrupt-"@[9]);
            assert(name[6] == "state.db.corrupt-"@[6]);
        } else {
            assert(name[5] == "state_meta.json.corrupt-"@[5]);
            assert(name[6] == "state_meta.json.corrupt-"@[6]);
        }
    }
    assert(!is_backup(name));
    if chosen(entries, old_backup(cutoff), entries.len() as int).contains(name) {
        lemma_chosen(entries, old_backup(cutoff), entries.len() as int, name);
    }
}

/// What a live run writes is never pruned: a pruned artifact has not changed
/// for an hour, whatever the window.
pub proof fn law_live_runs_are_kept(
    entries: Seq<DirEntry>,
    cutoff: Timestamp,
    floor: Timestamp,
    name: Seq<char>,
)
    requires
        chosen(entries, old_artifact(cutoff, floor), entries.len() as int).contains(name),
    ensures
        exists|i: int|
            0 <= i < entries.len() && (#[trigger] entries[i]).name->0@ == name && older(
                entries[i],
                floor,
            ),
{
    lemma_chosen(entries, old_artifact(cutoff, floor), entries.len() as int, name);
    let i = choose|i: int|
        0 <= i < entries.len() && old_artifact(cutoff, floor)(#[trigger] entries[i])
            && entries[i].name->0@ == name;
    assert(older(entries[i], floor));
}

/// The names of the files that may be pruned: copies of the state, and files that
/// were set aside; and the files that a run leaves, by their endings.
pub proof fn law_only_these_names_are_pruned(name: Seq<char>)
    ensures
        is_backup(name) <==> "state.json.bak-"@.is_prefix_of(name)
            || "state.json.corrupt-"@.is_prefix_of(name) || "state.db.corrupt-"@.is_prefix_of(name)
            || "state_meta.json.corrupt-"@.is_prefix_of(name),
        is_run_artifact(name) <==> ".log"@.is_suffix_of(name) || ".result.json"@.is_suffix_of(name)
            || ".heartbeat"@.is_suffix_of(name) || ".preview.json"@.is_suffix_of(name)
            || ".dry-run.md"@.is_suffix_of(name),
{
}

/// The window is so many days of seconds, and reaches back from now; one that
/// reaches before the epoch prunes nothing.
pub proof fn law_the_window_is_counted_in_days(retention_days: u64, now: Timestamp)
    requires
        retention_days <= 1000000,
        now.nanos < 1000000000,
    ensures
        cutoff(retention_days, now) is None <==> now.secs < retention_days * 86400,
        cutoff(retention_days, now) matches Some(t) ==> t.secs == now.secs - retention_days * 86400
            && t.nanos == now.nanos,
        fresh_floor(now) is None <==> now.secs < 3600,
        fresh_floor(now) matches Some(t) ==> t.secs == now.secs - 3600 && t.nanos == now.nanos,
{
}

/// What is pruned is exactly the files of the right name that were last changed
/// before the window, by name and in the order of the directory.
pub proof fn law_old_backups_are_pruned(entries: Seq<DirEntry>, cutoff: Timestamp, i: int)
    requires
        0 <= i < entries.len(),
    ensures
        old_backup(cutoff)(entries[i]) <==> {
            &&& entries[i].is_file
            &&& entries[i].name is Some
            &&& entries[i].modified is Some
            &&& entries[i].modified->0.secs < cutoff.secs || (entries[i].modified->0.secs
                == cutoff.secs && entries[i].modified->0.nanos < cutoff.nanos)
            &&& is_backup(entries[i].name->0@)
        },
        old_backup(cutoff)(entries[i]) ==> chosen(
            entries,
            old_backup(cutoff),
            entries.len() as int,
        ).contains(entries[i].name->0@),
{
    if old_backup(cutoff)(entries[i]) {
        lemma_all_chosen(entries, old_backup(cutoff), entries.len() as int, i);
    }
}

/// An artifact of a run is pruned when it is older than the window and than an
/// hour.
pub proof fn law_old_artifacts_are_pruned(
    entries: Seq<DirEntry>,
    cutoff: Timestamp,
    floor: Timestamp,
    i: int,
)
    requires
        0 <= i < entries.len(),
    ensures
        old_artifact(cutoff, floor)(entries[i]) <==> {
            &&& entries[i].is_file
            &&& entries[i].name is Some
            &&& entries[i].modified is Some
            &&& entries[i].modified->0.lt(cutoff)
            &&& entries[i].modified->0.lt(floor)
            &&& is_run_artifact(entries[i].name->0@)
        },
        old_artifact(cutoff, floor)(entries[i]) ==> chosen(
            entries,
            old_artifact(cutoff, floor),
            entries.len() as int,
        ).contains(entries[i].name->0@),
{
    if old_artifact(cutoff, floor)(entries[i]) {
        lemma_all_chosen(entries, old_artifact(cutoff, floor), entries.len() as int, i);
    }
}

proof fn lemma_all_chosen(entries: Seq<DirEntry>, p: spec_fn(DirEntry) -> bool, n: int, i: int)
    requires
        0 <= i < n <= entries.len(),
        p(entries[i]),
    ensures
        chosen(entries, p, n).contains(entries[i].name->0@),
    decreases n,
{
    let before = chosen(entries, p, n - 1);
    if i == n - 1 {
        assert(chosen(entries, p, n)[before.len() as int] == entries[i].name->0@);
    } else {
        lemma_all_chosen(entries, p, n - 1, i);
        let j = choose|j: int| 0 <= j < before.len() && before[j] == entries[i].name->0@;
        assert(chosen(entries, p, n)[j] == entries[i].name->0@);
    }
}

} // verus!
