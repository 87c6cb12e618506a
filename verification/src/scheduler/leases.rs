//! Leases per issue, with fencing tokens that only grow.

use vstd::prelude::*;

use crate::error::{CaduceusError, Fault};
use crate::ordered::StringMap;
use crate::state::columns;
use crate::text;

verus! {

/// A lease that was acquired.
#[derive(Clone, Debug)]
pub struct Lease {
    pub issue_key: String,
    pub owner_id: String,
    pub fencing_token: u64,
    /// When it expires, in seconds since the Unix epoch.
    pub expires_at: i64,
    pub state: LeaseState,
}

/// A [`Lease`] with its texts as character sequences.
pub struct LeaseView {
    pub issue_key: Seq<char>,
    pub owner_id: Seq<char>,
    pub fencing_token: u64,
    pub expires_at: i64,
    pub state: LeaseState,
}

impl View for Lease {
    type V = LeaseView;

    open spec fn view(&self) -> LeaseView {
        LeaseView {
            issue_key: self.issue_key@,
            owner_id: self.owner_id@,
            fencing_token: self.fencing_token,
            expires_at: self.expires_at,
            state: self.state,
        }
    }
}

/// State of a lease.
#[derive(Clone, Copy, Debug, PartialEq, Eq, Structural)]
pub enum LeaseState {
    Held,
    Released,
    Expired,
}

impl LeaseState {
    /// The state that a label stands for; an unknown label stands for an
    /// expired lease.
    pub open spec fn labelled(s: Seq<char>) -> LeaseState {
        if s == "held"@ {
            LeaseState::Held
        } else if s == "released"@ {
            LeaseState::Released
        } else {
            LeaseState::Expired
        }
    }

    /// The state with the label.
    pub fn from_str(s: &str) -> (r: Option<LeaseState>)
        ensures
            r == if s@ == "held"@ {
                Some(LeaseState::Held)
            } else if s@ == "released"@ {
                Some(LeaseState::Released)
            } else if s@ == "expired"@ {
                Some(LeaseState::Expired)
            } else {
                None
            },
    {
        if text::same(s, "held") {
            Some(LeaseState::Held)
        } else if text::same(s, "released") {
            Some(LeaseState::Released)
        } else if text::same(s, "expired") {
            Some(LeaseState::Expired)
        } else {
            None
        }
    }
}

/// A row of the lease table; the issue key is its primary key.
#[derive(Debug)]
pub struct LeaseRow {
    pub owner_id: String,
    pub fencing_token: i64,
    pub expires_at: i64,
    pub state: String,
}

/// A [`LeaseRow`] with its texts as character sequences.
pub struct LeaseRowView {
    pub owner_id: Seq<char>,
    pub fencing_token: i64,
    pub expires_at: i64,
    pub state: Seq<char>,
}

impl View for LeaseRow {
    type V = LeaseRowView;

    open spec fn view(&self) -> LeaseRowView {
        LeaseRowView {
            owner_id: self.owner_id@,
            fencing_token: self.fencing_token,
            expires_at: self.expires_at,
            state: self.state@,
        }
    }
}

impl LeaseRowView {
    /// Somebody holds the lease, and it has not expired.
    pub open spec fn is_held(self, now: i64) -> bool {
        LeaseState::labelled(self.state) == LeaseState::Held && self.expires_at > now
    }

    /// The lease with its release on record.
    pub open spec fn released(self) -> LeaseRowView {
        LeaseRowView { state: "released"@, ..self }
    }
}

/// The leases by issue key.
pub type Leases = Map<Seq<char>, LeaseRowView>;

/// The time at which a lease taken `now` expires.
pub open spec fn expiry(now: i64, ttl_seconds: u64) -> int {
    now + columns::signed(ttl_seconds)
}

/// The row that an acquisition leaves.
pub open spec fn acquired_row(m: Leases, key: Seq<char>, owner: Seq<char>, expires: i64) -> LeaseRowView {
    LeaseRowView {
        owner_id: owner,
        fencing_token: if m.contains_key(key) {
            (m[key].fencing_token + 1) as i64
        } else {
            1
        },
        expires_at: expires,
        state: "held"@,
    }
}

/// The leases and the lease after an acquisition, or why it is refused.
pub open spec fn acquired(m: Leases, key: Seq<char>, owner: Seq<char>, expires: i64, now: i64) -> Result<
    (Leases, LeaseView),
    Fault,
> {
    if m.contains_key(key) && m[key].is_held(now) {
        Err(
            Fault::LeadershipContended {
                context: "acquire"@,
                stderr: "lease for "@ + key + " held by "@ + m[key].owner_id + " until "@
                    + text::dec_int(m[key].expires_at as int),
            },
        )
    } else {
        let row = acquired_row(m, key, owner, expires);
        Ok(
            (
                m.insert(key, row),
                LeaseView {
                    issue_key: key,
                    owner_id: owner,
                    fencing_token: columns::bits(row.fencing_token),
                    expires_at: expires,
                    state: LeaseState::Held,
                },
            ),
        )
    }
}

/// Why a token does not carry the lease; none where it does.
pub open spec fn token_fault(m: Leases, key: Seq<char>, owner: Seq<char>, token: u64) -> Option<Fault> {
    let context = "verify_fencing_token"@;
    if !m.contains_key(key) {
        Some(Fault::LeaseStale { context, stderr: "no lease found for "@ + key })
    } else if m[key].owner_id != owner {
        Some(
            Fault::LeaseStale {
                context,
                stderr: "caller "@ + owner + " does not match lease owner "@ + m[key].owner_id,
            },
        )
    } else if LeaseState::labelled(m[key].state) != LeaseState::Held {
        Some(Fault::LeaseStale { context, stderr: "lease is in state "@ + m[key].state })
    } else if token < columns::bits(m[key].fencing_token) {
        Some(
            Fault::FencingTokenRegression {
                issue_key: key,
                stale_token: token,
                current_token: columns::bits(m[key].fencing_token),
            },
        )
    } else {
        None
    }
}

/// The leases after a renewal, or why it is refused.
pub open spec fn renewed(m: Leases, key: Seq<char>, owner: Seq<char>, expires: i64) -> Result<
    Leases,
    Fault,
> {
    if m.contains_key(key) && m[key].owner_id == owner && m[key].state == "held"@ {
        Ok(m.insert(key, LeaseRowView { expires_at: expires, ..m[key] }))
    } else {
        Err(
            Fault::LeaseStale {
                context: "renew"@,
                stderr: "no held lease for "@ + key + " with owner "@ + owner,
            },
        )
    }
}

/// The leases after a release, or why it is refused: the owner and the token
/// must be those of the lease, and it must not be released already.
pub open spec fn released(m: Leases, key: Seq<char>, owner: Seq<char>, token: u64) -> Result<
    Leases,
    Fault,
> {
    if m.contains_key(key) && m[key].owner_id == owner && m[key].fencing_token == columns::signed(
        token,
    ) && m[key].state != "released"@ {
        Ok(m.insert(key, m[key].released()))
    } else {
        Err(
            Fault::LeaseStale {
                context: "release"@,
                stderr: "CAS failed for "@ + key + " at token "@ + text::dec(token as nat),
            },
        )
    }
}

/// The leases.
#[derive(Debug)]
pub struct LeaseStore {
    pub rows: StringMap<LeaseRow>,
}

impl View for LeaseStore {
    type V = Leases;

    open spec fn view(&self) -> Leases {
        self.rows@
    }
}

impl LeaseStore {
    pub open spec fn wf(&self) -> bool {
        self.rows.wf()
    }

    /// A store over the rows of the table.
    pub fn new(rows: StringMap<LeaseRow>) -> (r: LeaseStore)
        ensures
            r.rows == rows,
    {
        LeaseStore { rows }
    }

    /// Take the lease of an issue for `ttl_seconds`. A lease that is held and
    /// has not expired is not given away. The fencing token grows by one with
    /// each acquisition.
    pub fn acquire(&mut self, issue_key: &str, owner_id: &str, ttl_seconds: u64, now: i64) -> (r:
        Result<Lease, CaduceusError>)
        requires
            old(self).wf(),
            old(self).rows.keys.len() < usize::MAX,
            i64::MIN <= expiry(now, ttl_seconds) <= i64::MAX,
            old(self)@.contains_key(issue_key@) ==> old(self)@[issue_key@].fencing_token < i64::MAX,
        ensures
            final(self).wf(),
            match acquired(
                old(self)@,
                issue_key@,
                owner_id@,
                expiry(now, ttl_seconds) as i64,
                now,
            ) {
                Ok((leases, lease)) => (r matches Ok(l) && l@ == lease) && final(self)@ == leases,
                Err(f) => (r matches Err(e) && e@ == f) && final(self)@ == old(self)@,
            },
    {
        let expires_at: i64 = now + columns::to_signed(ttl_seconds);
        let token: i64 = match self.rows.get(issue_key) {
            Some(row) => {
                let state = match LeaseState::from_str(row.state.as_str()) {
                    Some(s) => s,
                    None => LeaseState::Expired,
                };
                if state == LeaseState::Held && row.expires_at > now {
                    let mut m = text::cat("lease for ", issue_key);
                    m.append(" held by ");
                    m.append(row.owner_id.as_str());
                    m.append(" until ");
                    m.append(text::decimal_signed(row.expires_at).as_str());
                    return Err(
                        CaduceusError::LeadershipContended { context: "acquire", stderr: m },
                    );
                }
                row.fencing_token + 1
            },
            None => 1,
        };
        self.rows.insert(
            issue_key.to_owned(),
            LeaseRow {
                owner_id: owner_id.to_owned(),
                fencing_token: token,
                expires_at,
                state: "held".to_owned(),
            },
        );
        Ok(
            Lease {
                issue_key: issue_key.to_owned(),
                owner_id: owner_id.to_owned(),
                fencing_token: columns::from_signed(token),
                expires_at,
                state: LeaseState::Held,
            },
        )
    }

    /// Does the owner still hold the lease, with a token that is not stale?
    pub fn verify_fencing_token(&self, issue_key: &str, owner_id: &str, token: u64) -> (r: Result<
        (),
        CaduceusError,
    >)
        requires
            self.wf(),
        ensures
            crate::error::verdict(r) == crate::review::unless(
                token_fault(self@, issue_key@, owner_id@, token),
            ),
    {
        let row = match self.rows.get(issue_key) {
            None => {
                return Err(
                    CaduceusError::LeaseStale {
                        context: "verify_fencing_token",
                        stderr: text::cat("no lease found for ", issue_key),
                    },
                );
            },
            Some(row) => row,
        };
        if !text::same(row.owner_id.as_str(), owner_id) {
            let mut m = text::cat("caller ", owner_id);
            m.append(" does not match lease owner ");
            m.append(row.owner_id.as_str());
            return Err(
                CaduceusError::LeaseStale { context: "verify_fencing_token", stderr: m },
            );
        }
        let state = match LeaseState::from_str(row.state.as_str()) {
            Some(s) => s,
            None => LeaseState::Expired,
        };
        if state != LeaseState::Held {
            return Err(
                CaduceusError::LeaseStale {
                    context: "verify_fencing_token",
                    stderr: text::cat("lease is in state ", row.state.as_str()),
                },
            );
        }
        let stored: u64 = columns::from_signed(row.fencing_token);
        if token < stored {
            return Err(
                CaduceusError::FencingTokenRegression {
                    issue_key: issue_key.to_owned(),
                    stale_token: token,
                    current_token: stored,
                },
            );
        }
        Ok(())
    }

    /// Renew a lease. Only its holder can.
    pub fn renew(&mut self, issue_key: &str, owner_id: &str, ttl_seconds: u64, now: i64) -> (r: Result<
        (),
        CaduceusError,
    >)
        requires
            old(self).wf(),
            i64::MIN <= expiry(now, ttl_seconds) <= i64::MAX,
        ensures
            final(self).wf(),
            match renewed(old(self)@, issue_key@, owner_id@, expiry(now, ttl_seconds) as i64) {
                Ok(leases) => r is Ok && final(self)@ == leases,
                Err(f) => (r matches Err(e) && e@ == f) && final(self)@ == old(self)@,
            },
    {
        let expires_at: i64 = now + columns::to_signed(ttl_seconds);
        match self.rows.position(issue_key) {
            Some(i) => {
                let row = &self.rows.values[i];
                if text::same(row.owner_id.as_str(), owner_id) && text::same(
                    row.state.as_str(),
                    "held",
                ) {
                    let next = LeaseRow {
                        owner_id: row.owner_id.clone(),
                        fencing_token: row.fencing_token,
                        expires_at,
                        state: row.state.clone(),
                    };
                    self.rows.set_value(i, next);
                    return Ok(());
                }
            },
            None => {},
        }
        let mut m = text::cat("no held lease for ", issue_key);
        m.append(" with owner ");
        m.append(owner_id);
        Err(CaduceusError::LeaseStale { context: "renew", stderr: m })
    }

    /// Release a lease whose worker is dead, once: the token must be the
    /// current one, and a released lease is not released again.
    pub fn release_definitively_dead(
        &mut self,
        issue_key: &str,
        owner_id: &str,
        current_fencing_token: u64,
    ) -> (r: Result<(), CaduceusError>)
        requires
            old(self).wf(),
        ensures
            final(self).wf(),
            match released(old(self)@, issue_key@, owner_id@, current_fencing_token) {
                Ok(leases) => r is Ok && final(self)@ == leases,
                Err(f) => (r matches Err(e) && e@ == f) && final(self)@ == old(self)@,
            },
    {
        match self.rows.position(issue_key) {
            Some(i) => {
                let row = &self.rows.values[i];
                if text::same(row.owner_id.as_str(), owner_id) && row.fencing_token
                    == columns::to_signed(current_fencing_token) && !text::same(
                    row.state.as_str(),
                    "released",
                ) {
                    let next = LeaseRow {
                        owner_id: row.owner_id.clone(),
                        fencing_token: row.fencing_token,
                        expires_at: row.expires_at,
                        state: "released".to_owned(),
                    };
                    self.rows.set_value(i, next);
                    return Ok(());
                }
            },
            None => {},
        }
        let mut m = text::cat("CAS failed for ", issue_key);
        m.append(" at token ");
        m.append(text::decimal(current_fencing_token).as_str());
        Err(CaduceusError::LeaseStale { context: "release", stderr: m })
    }
}

// ---------------------------------------------------------------------------
// Laws
// ---------------------------------------------------------------------------

proof fn lemma_labels()
    ensures
        "held"@ != "released"@,
        LeaseState::labelled("held"@) == LeaseState::Held,
        LeaseState::labelled("released"@) == LeaseState::Released,
{
    reveal_strlit("held");
    reveal_strlit("released");
    assert("held"@.len() == 4);
    assert("released"@.len() == 8);
}

/// Fencing tokens only grow: each acquisition of an issue has a greater token
/// than the one before it.
pub proof fn law_fencing_tokens_grow(
    m: Leases,
    key: Seq<char>,
    owner: Seq<char>,
    expires: i64,
    now: i64,
)
    requires
        m.contains_key(key),
        m[key].fencing_token < i64::MAX,
        acquired(m, key, owner, expires, now) is Ok,
    ensures
        acquired(m, key, owner, expires, now)->Ok_0.0[key].fencing_token == m[key].fencing_token
            + 1,
        m[key].fencing_token >= 0 ==> acquired(m, key, owner, expires, now)->Ok_0.1.fencing_token
            == m[key].fencing_token + 1,
{
}

/// An operation on the leases.
pub enum LeaseOp {
    Acquire { key: Seq<char>, owner: Seq<char>, expires: i64, now: i64 },
    Renew { key: Seq<char>, owner: Seq<char>, expires: i64 },
    Release { key: Seq<char>, owner: Seq<char>, token: u64 },
}

/// The leases after an operation; a refused one changes nothing.
pub open spec fn applied(m: Leases, op: LeaseOp) -> Leases {
    match op {
        LeaseOp::Acquire { key, owner, expires, now } => match acquired(m, key, owner, expires, now) {
            Ok((after, _)) => after,
            Err(_) => m,
        },
        LeaseOp::Renew { key, owner, expires } => match renewed(m, key, owner, expires) {
            Ok(after) => after,
            Err(_) => m,
        },
        LeaseOp::Release { key, owner, token } => match released(m, key, owner, token) {
            Ok(after) => after,
            Err(_) => m,
        },
    }
}

/// The leases after operations, in their order.
pub open spec fn after_all(m: Leases, ops: Seq<LeaseOp>) -> Leases
    decreases ops.len(),
{
    if ops.len() == 0 {
        m
    } else {
        applied(after_all(m, ops.drop_last()), ops.last())
    }
}

/// Tokens count from one, and by one for each operation at most.
proof fn lemma_tokens_count(ops: Seq<LeaseOp>, key: Seq<char>)
    requires
        ops.len() <= i64::MAX,
    ensures
        after_all(Map::empty(), ops).contains_key(key) ==> 1 <= after_all(
            Map::empty(),
            ops,
        )[key].fencing_token <= ops.len(),
    decreases ops.len(),
{
    if ops.len() > 0 {
        lemma_tokens_count(ops.drop_last(), key);
    }
}

proof fn lemma_tokens_never_fall(m: Leases, ops: Seq<LeaseOp>, key: Seq<char>)
    requires
        m.contains_key(key),
        m[key].fencing_token + ops.len() <= i64::MAX,
    ensures
        after_all(m, ops).contains_key(key),
        m[key].fencing_token <= after_all(m, ops)[key].fencing_token,
        after_all(m, ops)[key].fencing_token <= m[key].fencing_token + ops.len(),
    decreases ops.len(),
{
    if ops.len() > 0 {
        lemma_tokens_never_fall(m, ops.drop_last(), key);
    }
}

/// Whatever happened to the leases before, and whatever happens between two
/// acquisitions of an issue, the later has the greater token, and is its
/// owner's. The first token of an issue is one.
pub proof fn law_a_later_lease_has_a_greater_token(
    past: Seq<LeaseOp>,
    key: Seq<char>,
    owner: Seq<char>,
    expires: i64,
    now: i64,
    ops: Seq<LeaseOp>,
    other: Seq<char>,
    other_expires: i64,
    later: i64,
)
    requires
        past.len() + ops.len() + 2 <= i64::MAX,
        ({
            let m = after_all(Map::empty(), past);
            &&& acquired(m, key, owner, expires, now) is Ok
            &&& acquired(
                after_all(acquired(m, key, owner, expires, now)->Ok_0.0, ops),
                key,
                other,
                other_expires,
                later,
            ) is Ok
        }),
    ensures
        ({
            let m = after_all(Map::empty(), past);
            let first = acquired(m, key, owner, expires, now)->Ok_0;
            let second = acquired(after_all(first.0, ops), key, other, other_expires, later)->Ok_0;
            &&& first.1.fencing_token < second.1.fencing_token
            &&& second.1.owner_id == other
            &&& second.1.state == LeaseState::Held
            &&& !m.contains_key(key) ==> first.1.fencing_token == 1
        }),
{
    let first = acquired(after_all(Map::empty(), past), key, owner, expires, now)->Ok_0;
    lemma_tokens_count(past, key);
    lemma_tokens_never_fall(first.0, ops, key);
}

/// A lease is exclusive: until it expires or is released nobody else gets it,
/// whoever asks.
pub proof fn law_a_lease_is_exclusive(
    m: Leases,
    key: Seq<char>,
    owner: Seq<char>,
    expires: i64,
    now: i64,
    other: Seq<char>,
    other_expires: i64,
    later: i64,
)
    requires
        acquired(m, key, owner, expires, now) is Ok,
        later < expires,
    ensures
        acquired(acquired(m, key, owner, expires, now)->Ok_0.0, key, other, other_expires, later)
            is Err,
{
    lemma_labels();
}

/// An expired or released lease can be taken by anyone.
pub proof fn law_a_free_lease_can_be_taken(
    m: Leases,
    key: Seq<char>,
    owner: Seq<char>,
    expires: i64,
    now: i64,
)
    requires
        m.contains_key(key) ==> m[key].expires_at <= now || m[key].state == "released"@,
    ensures
        acquired(m, key, owner, expires, now) is Ok,
{
    lemma_labels();
}

/// The token that an acquisition hands out is accepted from its owner, and
/// once someone else has the lease it is refused.
pub proof fn law_a_stale_holder_is_fenced_off(
    m: Leases,
    key: Seq<char>,
    owner: Seq<char>,
    expires: i64,
    now: i64,
    other: Seq<char>,
    other_expires: i64,
    later: i64,
)
    requires
        acquired(m, key, owner, expires, now) is Ok,
        m.contains_key(key) ==> 0 <= m[key].fencing_token < i64::MAX - 1,
        ({
            let once = acquired(m, key, owner, expires, now)->Ok_0;
            acquired(once.0, key, other, other_expires, later) is Ok
        }),
    ensures
        ({
            let once = acquired(m, key, owner, expires, now)->Ok_0;
            let twice = acquired(once.0, key, other, other_expires, later)->Ok_0;
            &&& token_fault(once.0, key, owner, once.1.fencing_token) is None
            &&& token_fault(twice.0, key, owner, once.1.fencing_token) is Some
            &&& token_fault(twice.0, key, other, twice.1.fencing_token) is None
        }),
{
    lemma_labels();
}

/// A lease is released once: a second release with the same token fails, and
/// so does a renewal after it.
pub proof fn law_a_lease_is_released_once(
    m: Leases,
    key: Seq<char>,
    owner: Seq<char>,
    token: u64,
    expires: i64,
)
    requires
        released(m, key, owner, token) is Ok,
    ensures
        released(released(m, key, owner, token)->Ok_0, key, owner, token) is Err,
        renewed(released(m, key, owner, token)->Ok_0, key, owner, expires) is Err,
{
    lemma_labels();
}

/// Operations on one issue leave the leases of every other alone.
pub proof fn law_leases_are_independent(
    m: Leases,
    key: Seq<char>,
    owner: Seq<char>,
    token: u64,
    expires: i64,
    now: i64,
    j: Seq<char>,
)
    requires
        m.contains_key(j),
        j != key,
    ensures
        acquired(m, key, owner, expires, now) matches Ok((after, _)) ==> after[j] == m[j],
        renewed(m, key, owner, expires) matches Ok(after) ==> after[j] == m[j],
        released(m, key, owner, token) matches Ok(after) ==> after[j] == m[j],
{
}

/// An acquisition leaves a lease that is held by its owner until its expiry, and
/// hands the same out; what was there before counts only for the token.
pub proof fn law_an_acquisition_is_on_record(
    m: Leases,
    key: Seq<char>,
    owner: Seq<char>,
    expires: i64,
    now: i64,
)
    ensures
        ({
            let r = acquired(m, key, owner, expires, now);
            let held = m.contains_key(key) && m[key].state == "held"@ && m[key].expires_at > now;
            &&& held ==> r is Err
            &&& held ==> (r->Err_0 matches Fault::LeadershipContended { .. })
            &&& !held ==> r is Ok
            &&& r matches Ok((after, lease)) ==> {
                &&& after.contains_key(key)
                &&& after[key].owner_id == owner
                &&& after[key].expires_at == expires
                &&& after[key].state == "held"@
                &&& !m.contains_key(key) ==> after[key].fencing_token == 1
                &&& m.contains_key(key) && m[key].fencing_token < i64::MAX
                    ==> after[key].fencing_token == m[key].fencing_token + 1
                &&& lease.issue_key == key
                &&& lease.owner_id == owner
                &&& lease.expires_at == expires
                &&& lease.state == LeaseState::Held
                &&& after[key].fencing_token >= 0 ==> lease.fencing_token
                    == after[key].fencing_token
            }
        }),
{
    lemma_labels();
}

/// A token carries the lease exactly when the lease is there, is held by the
/// caller, and no later acquisition has given out a greater one.
pub proof fn law_a_token_carries_its_lease(
    m: Leases,
    key: Seq<char>,
    owner: Seq<char>,
    token: u64,
)
    requires
        m.contains_key(key) ==> m[key].fencing_token >= 0,
    ensures
        token_fault(m, key, owner, token) is None <==> m.contains_key(key) && m[key].owner_id
            == owner && m[key].state == "held"@ && token >= m[key].fencing_token,
        m.contains_key(key) && m[key].owner_id == owner && m[key].state == "held"@ && token
            < m[key].fencing_token ==> token_fault(m, key, owner, token) == Some(
            Fault::FencingTokenRegression {
                issue_key: key,
                stale_token: token,
                current_token: m[key].fencing_token as u64,
            },
        ),
{
    lemma_labels();
}

/// The owner of a held lease renews it, to the new expiry and with the same
/// token; nobody else does.
pub proof fn law_the_owner_renews(m: Leases, key: Seq<char>, owner: Seq<char>, expires: i64)
    ensures
        renewed(m, key, owner, expires) is Ok <==> m.contains_key(key) && m[key].owner_id == owner
            && m[key].state == "held"@,
        renewed(m, key, owner, expires) matches Ok(after) ==> after == m.insert(
            key,
            LeaseRowView { expires_at: expires, ..m[key] },
        ),
{
}

/// A lease is released by its owner with its token, unless it is released
/// already; of it only the state changes.
pub proof fn law_a_release_is_on_record(m: Leases, key: Seq<char>, owner: Seq<char>, token: u64)
    requires
        token <= i64::MAX,
    ensures
        released(m, key, owner, token) is Ok <==> m.contains_key(key) && m[key].owner_id == owner
            && m[key].fencing_token == token && m[key].state != "released"@,
        released(m, key, owner, token) matches Ok(after) ==> after == m.insert(
            key,
            LeaseRowView { state: "released"@, ..m[key] },
        ),
{
}

/// A lease expires as many seconds after it is taken as was asked for.
pub proof fn law_a_lease_lasts_its_time(now: i64, ttl_seconds: u64)
    requires
        ttl_seconds <= i64::MAX,
    ensures
        expiry(now, ttl_seconds) == now + ttl_seconds,
{
}

/// What is said of a lease that is refused.
pub proof fn law_a_refused_lease_says_why(
    m: Leases,
    key: Seq<char>,
    owner: Seq<char>,
    expires: i64,
    now: i64,
    token: u64,
)
    ensures
        m.contains_key(key) && m[key].state == "held"@ && m[key].expires_at > now ==> acquired(
            m,
            key,
            owner,
            expires,
            now,
        ) == Err::<(Leases, LeaseView), Fault>(
            Fault::LeadershipContended {
                context: "acquire"@,
                stderr: "lease for "@ + key + " held by "@ + m[key].owner_id + " until "@
                    + text::dec_int(m[key].expires_at as int),
            },
        ),
        !m.contains_key(key) ==> token_fault(m, key, owner, token) == Some(
            Fault::LeaseStale {
                context: "verify_fencing_token"@,
                stderr: "no lease found for "@ + key,
            },
        ),
        m.contains_key(key) && m[key].owner_id != owner ==> token_fault(m, key, owner, token)
            == Some(
            Fault::LeaseStale {
                context: "verify_fencing_token"@,
                stderr: "caller "@ + owner + " does not match lease owner "@ + m[key].owner_id,
            },
        ),
        m.contains_key(key) && m[key].owner_id == owner && m[key].state != "held"@ ==> token_fault(
            m,
            key,
            owner,
            token,
        ) == Some(
            Fault::LeaseStale {
                context: "verify_fencing_token"@,
                stderr: "lease is in state "@ + m[key].state,
            },
        ),
        renewed(m, key, owner, expires) is Err ==> renewed(m, key, owner, expires) == Err::<
            Leases,
            Fault,
        >(
            Fault::LeaseStale {
                context: "renew"@,
                stderr: "no held lease for "@ + key + " with owner "@ + owner,
            },
        ),
        released(m, key, owner, token) is Err ==> released(m, key, owner, token) == Err::<
            Leases,
            Fault,
        >(
            Fault::LeaseStale {
                context: "release"@,
                stderr: "CAS failed for "@ + key + " at token "@ + text::dec(token as nat),
            },
        ),
{
    lemma_labels();
}

/// A lease that was acquired is held by its owner for the time that was asked for,
/// and its token is good.
pub proof fn law_an_acquired_lease_is_held(
    s: &mut LeaseStore,
    key: &str,
    owner: &str,
    ttl_seconds: u64,
    now: i64,
    r: Result<Lease, CaduceusError>,
)
    requires
        call_ensures(LeaseStore::acquire, (s, key, owner, ttl_seconds, now), r),
        ttl_seconds <= 1000000000,
        0 <= now <= 1000000000000,
        old(s)@.contains_key(key@) ==> 0 <= old(s)@[key@].fencing_token < i64::MAX,
    ensures
        r is Ok ==> final(s)@.contains_key(key@) && final(s)@[key@].owner_id == owner@ && final(
            s)@[key@].state == "held"@ && final(s)@[key@].expires_at == now + ttl_seconds,
        r is Ok ==> token_fault(final(s)@, key@, owner@, r->Ok_0@.fencing_token) is None,
        r is Err ==> final(s)@ == old(s)@,
        r is Err <==> old(s)@.contains_key(key@) && old(s)@[key@].state == "held"@ && old(
            s)@[key@].expires_at > now,
{
    law_an_acquisition_is_on_record(
        old(s)@,
        key@,
        owner@,
        expiry(now, ttl_seconds) as i64,
        now,
    );
    lemma_labels();
}

} // verus!
