//! The identity of the process that holds a claim: `<uuid>:<epoch>:<ticks>`.
//!
//! The UUID is that of the daemon's installation, the epoch that of the boot,
//! and the ticks are when the process started. After a reboot the epoch tells
//! old claims from new ones.

use vstd::prelude::*;

use crate::path;
use crate::text;

verus! {

/// Name of the file that keeps the UUID.
pub const DAEMON_IDENTITY_FILENAME: &'static str = "daemon-identity";

/// The file that keeps the UUID.
pub fn daemon_identity_path(state_dir: &str) -> (r: String)
    ensures
        r@ == path::joined(state_dir@, DAEMON_IDENTITY_FILENAME@),
{
    path::join(state_dir, DAEMON_IDENTITY_FILENAME)
}

/// What reading the UUID file gave.
pub enum UuidFile {
    Contents(String),
    /// There is no such file.
    NotFound,
    /// It could not be read.
    Failed,
}

/// The UUID to use: the one that the file keeps, and a new one where there is
/// none or it cannot be read. A new one that was installed gives way to what the
/// file then holds, which may be another daemon's.
pub open spec fn uuid_of(
    file: UuidFile,
    generated: Seq<char>,
    installed: bool,
    reread: Option<Seq<char>>,
) -> Seq<char> {
    match file {
        UuidFile::Contents(s) => s@,
        UuidFile::Failed => generated,
        UuidFile::NotFound => match reread {
            Some(s) => if installed {
                s
            } else {
                generated
            },
            None => generated,
        },
    }
}

/// The UUID to use: `installed` says whether the new one was put in place, and
/// `reread` is what the file held after that.
pub fn load_or_create_daemon_uuid(
    file: UuidFile,
    generated: String,
    installed: bool,
    reread: Option<String>,
) -> (r: String)
    ensures
        r@ == uuid_of(file, generated@, installed, text::opt(reread)),
{
    match file {
        UuidFile::Contents(s) => s,
        UuidFile::Failed => generated,
        UuidFile::NotFound => match reread {
            Some(s) => if installed {
                s
            } else {
                generated
            },
            None => generated,
        },
    }
}

/// The boot epoch: zero where the clock gives none.
pub open spec fn epoch_of(clock: Option<i64>) -> u64 {
    match clock {
        Some(s) => if s < 0 {
            0
        } else {
            s as u64
        },
        None => 0,
    }
}

/// The boot epoch, from the seconds of the boot clock.
pub fn boot_epoch(clock: Option<i64>) -> (r: u64)
    ensures
        r == epoch_of(clock),
{
    match clock {
        Some(s) => if s < 0 {
            0
        } else {
            s as u64
        },
        None => 0,
    }
}

/// The start ticks of a process: zero where its id is out of range or nothing
/// could be observed.
pub open spec fn ticks_of(pid: u32, observed: Option<u64>) -> u64 {
    match observed {
        Some(t) => if pid <= i32::MAX {
            t
        } else {
            0
        },
        None => 0,
    }
}

/// The start ticks of a process.
pub fn identity_start_ticks(pid: u32, observed: Option<u64>) -> (r: u64)
    ensures
        r == ticks_of(pid, observed),
{
    match observed {
        Some(t) => if pid <= 0x7fff_ffff {
            t
        } else {
            0
        },
        None => 0,
    }
}

/// `<uuid>:<epoch>:<ticks>`.
pub open spec fn identity(uuid: Seq<char>, epoch: u64, ticks: u64) -> Seq<char> {
    uuid + ":"@ + text::dec(epoch as nat) + ":"@ + text::dec(ticks as nat)
}

/// The identity of a process.
pub fn process_start_identity(uuid: &str, epoch: u64, ticks: u64) -> (r: String)
    ensures
        r@ == identity(uuid@, epoch, ticks),
{
    let mut s = text::cat(uuid, ":");
    s.append(text::decimal(epoch).as_str());
    s.append(":");
    s.append(text::decimal(ticks).as_str());
    s
}

proof fn lemma_first_colon(a: Seq<char>, x: Seq<char>, b: Seq<char>, y: Seq<char>)
    requires
        !a.contains(':'),
        !b.contains(':'),
        a + seq![':'] + x == b + seq![':'] + y,
    ensures
        a == b,
        x == y,
{
    let s = a + seq![':'] + x;
    let t = b + seq![':'] + y;
    assert(s[a.len() as int] == ':');
    assert(t[b.len() as int] == ':');
    if a.len() < b.len() {
        assert(t[a.len() as int] == b[a.len() as int]);
        assert(b.contains(b[a.len() as int]));
    } else if b.len() < a.len() {
        assert(s[b.len() as int] == a[b.len() as int]);
        assert(a.contains(a[b.len() as int]));
    }
    assert(s.take(a.len() as int) =~= a);
    assert(t.take(b.len() as int) =~= b);
    assert(s.skip(a.len() as int + 1) =~= x);
    assert(t.skip(b.len() as int + 1) =~= y);
}

/// Two identities are the same only where UUID, epoch and ticks are: a claim
/// from before a reboot is told from one after it.
pub proof fn law_identities_tell_boots_apart(
    uuid: Seq<char>,
    epoch: u64,
    ticks: u64,
    other: Seq<char>,
    other_epoch: u64,
    other_ticks: u64,
)
    requires
        !uuid.contains(':'),
        !other.contains(':'),
        identity(uuid, epoch, ticks) == identity(other, other_epoch, other_ticks),
    ensures
        uuid == other,
        epoch == other_epoch,
        ticks == other_ticks,
{
    reveal_strlit(":");
    assert(":"@ =~= seq![':']);
    let e = text::dec(epoch as nat);
    let f = text::dec(other_epoch as nat);
    let x = e + seq![':'] + text::dec(ticks as nat);
    let y = f + seq![':'] + text::dec(other_ticks as nat);
    assert(identity(uuid, epoch, ticks) =~= uuid + seq![':'] + x);
    assert(identity(other, other_epoch, other_ticks) =~= other + seq![':'] + y);
    lemma_first_colon(uuid, x, other, y);
    text::lemma_dec_has_no(epoch as nat, ':');
    text::lemma_dec_has_no(other_epoch as nat, ':');
    lemma_first_colon(e, text::dec(ticks as nat), f, text::dec(other_ticks as nat));
    text::lemma_number_of_dec(epoch as nat);
    text::lemma_number_of_dec(other_epoch as nat);
    text::lemma_number_of_dec(ticks as nat);
    text::lemma_number_of_dec(other_ticks as nat);
}

/// The identifier is what the file holds. Without a file it is the new one that
/// was installed, as it reads back; where anything failed it is the generated one.
pub proof fn law_the_installed_identifier_is_kept(
    file: UuidFile,
    generated: Seq<char>,
    installed: bool,
    reread: Option<Seq<char>>,
)
    ensures
        file matches UuidFile::Contents(s) ==> uuid_of(file, generated, installed, reread) == s@,
        file is Failed ==> uuid_of(file, generated, installed, reread) == generated,
        file is NotFound && installed && reread is Some ==> uuid_of(
            file,
            generated,
            installed,
            reread,
        ) == reread->0,
        file is NotFound && !(installed && reread is Some) ==> uuid_of(
            file,
            generated,
            installed,
            reread,
        ) == generated,
{
}

/// A clock that cannot be read, or is before the epoch, counts as zero; so do the
/// ticks of a process that is unknown.
pub proof fn law_unknown_times_are_zero(clock: i64, pid: u32, ticks: u64)
    ensures
        epoch_of(None) == 0,
        clock < 0 ==> epoch_of(Some(clock)) == 0,
        clock >= 0 ==> epoch_of(Some(clock)) == clock,
        ticks_of(pid, None) == 0,
        pid <= 2147483647 ==> ticks_of(pid, Some(ticks)) == ticks,
        pid > 2147483647 ==> ticks_of(pid, Some(ticks)) == 0,
{
}

/// The parts of an identity are joined by colons, in this order.
pub proof fn law_an_identity_has_three_parts(uuid: Seq<char>, epoch: u64, ticks: u64)
    ensures
        identity(uuid, epoch, ticks) == uuid + ":"@ + text::dec(epoch as nat) + ":"@ + text::dec(
            ticks as nat,
        ),
{
}

/// The identity of a daemon is in its state directory.
pub proof fn law_the_identity_has_its_place(state_dir: &str, place: String)
    requires
        call_ensures(daemon_identity_path, (state_dir,), place),
    ensures
        place@ == path::joined(state_dir@, "daemon-identity"@),
{
}

} // verus!
