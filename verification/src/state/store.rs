//! The versioned database: which version opens, which is migrated, and which
//! is refused.

use vstd::prelude::*;

use crate::error::{CaduceusError, Fault};
use crate::path;
use crate::text;

verus! {

/// The schema version that the daemon writes. A database of a higher version
/// is refused.
pub const SCHEMA_VERSION: i64 = 7;

/// The version that is refused rather than migrated: its container runs mean
/// something else.
pub const STALE_SCHEMA_VERSION: i64 = 6;

/// Name of the database in the state directory.
pub const DB_FILENAME: &'static str = "state.db";

/// The database in a state directory.
pub fn database_path(state_dir: &str) -> (r: String)
    ensures
        r@ == path::joined(state_dir@, DB_FILENAME@),
{
    path::join(state_dir, DB_FILENAME)
}

/// One step of the migration chain. It applies to a database of the version
/// `from`, and leaves one of the version `to`, in one transaction.
#[derive(Clone, Copy, Debug)]
pub struct Migration {
    pub from: i64,
    pub to: i64,
    pub label: &'static str,
    /// The statements of the step; none where the schema itself does it.
    pub statements: &'static str,
    /// What to say where the statements fail.
    pub failure: &'static str,
}

/// The steps of the chain, oldest first.
pub fn migrations() -> (r: Vec<Migration>)
    ensures
        chain(r@) == registry(),
{
    let mut steps: Vec<Migration> = Vec::new();
    steps.push(
        Migration {
            from: 1,
            to: 2,
            label: "checkpoints operation columns",
            statements:
                "ALTER TABLE checkpoints ADD COLUMN operation_id TEXT; ALTER TABLE checkpoints ADD COLUMN remote_marker TEXT;",
            failure: "v1→v2 ALTER checkpoints",
        },
    );
    steps.push(
        Migration {
            from: 2,
            to: 3,
            label: "leases table (apply_schema)",
            statements: "",
            failure: "",
        },
    );
    steps.push(
        Migration {
            from: 3,
            to: 4,
            label: "circuit_state replaces circuit_breakers",
            statements: "DROP TABLE IF EXISTS circuit_breakers;",
            failure: "v3→v4 DROP circuit_breakers",
        },
    );
    steps.push(
        Migration {
            from: 4,
            to: 5,
            label: "oci_runs table (apply_schema)",
            statements: "",
            failure: "",
        },
    );
    steps.push(
        Migration {
            from: 5,
            to: 6,
            label: "queue_entries blocked columns",
            statements:
                "ALTER TABLE queue_entries ADD COLUMN blocked_source TEXT; ALTER TABLE queue_entries ADD COLUMN blocked_recovery_hint TEXT;",
            failure: "v5→v6 ALTER queue_entries",
        },
    );
    proof {
        assert(chain(steps@) =~= registry());
    }
    steps
}

/// A [`Migration`] by its views.
pub struct StepView {
    pub from: i64,
    pub to: i64,
    pub label: Seq<char>,
    pub statements: Seq<char>,
    pub failure: Seq<char>,
}

impl View for Migration {
    type V = StepView;

    open spec fn view(&self) -> StepView {
        StepView {
            from: self.from,
            to: self.to,
            label: self.label@,
            statements: self.statements@,
            failure: self.failure@,
        }
    }
}

/// The steps by their views.
pub open spec fn chain(steps: Seq<Migration>) -> Seq<StepView> {
    steps.map_values(|m: Migration| m@)
}

/// The chain of the daemon.
pub open spec fn registry() -> Seq<StepView> {
    seq![
        StepView {
            from: 1,
            to: 2,
            label: "checkpoints operation columns"@,
            statements:
                "ALTER TABLE checkpoints ADD COLUMN operation_id TEXT; ALTER TABLE checkpoints ADD COLUMN remote_marker TEXT;"@,
            failure: "v1→v2 ALTER checkpoints"@,
        },
        StepView {
            from: 2,
            to: 3,
            label: "leases table (apply_schema)"@,
            statements: ""@,
            failure: ""@,
        },
        StepView {
            from: 3,
            to: 4,
            label: "circuit_state replaces circuit_breakers"@,
            statements: "DROP TABLE IF EXISTS circuit_breakers;"@,
            failure: "v3→v4 DROP circuit_breakers"@,
        },
        StepView {
            from: 4,
            to: 5,
            label: "oci_runs table (apply_schema)"@,
            statements: ""@,
            failure: ""@,
        },
        StepView {
            from: 5,
            to: 6,
            label: "queue_entries blocked columns"@,
            statements:
                "ALTER TABLE queue_entries ADD COLUMN blocked_source TEXT; ALTER TABLE queue_entries ADD COLUMN blocked_recovery_hint TEXT;"@,
            failure: "v5→v6 ALTER queue_entries"@,
        },
    ]
}

/// The chain as triples of versions and label.
pub fn sqlite_migration_chain() -> (r: Vec<(i64, i64, &'static str)>)
    ensures
        r.len() == registry().len(),
        forall|i: int|
            0 <= i < r.len() ==> (#[trigger] r@[i]).0 == registry()[i].from && r@[i].1
                == registry()[i].to && r@[i].2@ == registry()[i].label,
{
    let steps = migrations();
    let mut out: Vec<(i64, i64, &'static str)> = Vec::new();
    let mut i: usize = 0;
    while i < steps.len()
        invariant
            chain(steps@) == registry(),
            i <= steps.len(),
            out.len() == i,
            forall|j: int|
                0 <= j < i ==> (#[trigger] out@[j]).0 == registry()[j].from && out@[j].1
                    == registry()[j].to && out@[j].2@ == registry()[j].label,
        decreases steps.len() - i,
    {
        proof {
            assert(chain(steps@)[i as int] == steps@[i as int]@);
        }
        out.push((steps[i].from, steps[i].to, steps[i].label));
        i += 1;
    }
    proof {
        assert(chain(steps@).len() == steps@.len());
    }
    out
}

// ---------------------------------------------------------------------------
// The registry's own rules
// ---------------------------------------------------------------------------

/// A version as it is written.
pub open spec fn version(n: i64) -> Seq<char> {
    "v"@ + text::dec_int(n as int)
}

/// How an error names a step.
pub open spec fn step_name(i: int, label: Seq<char>) -> Seq<char> {
    text::dec(i as nat) + " ("@ + label + ")"@
}

/// The rule that a step breaks: steps go up, never from the stale version,
/// never beyond the schema version, and each starts where the last ended.
pub open spec fn step_fault(steps: Seq<StepView>, i: int) -> Option<Seq<char>> {
    let s = steps[i];
    if s.from >= s.to {
        Some(
            "migration registry step "@ + step_name(i, s.label) + " is not upward: "@ + version(
                s.from,
            ) + " → "@ + version(s.to),
        )
    } else if s.from == STALE_SCHEMA_VERSION {
        Some(
            "migration registry step "@ + step_name(i, s.label) + " would migrate the stale "@
                + version(STALE_SCHEMA_VERSION)
                + " boundary, which is reinitialise-only by policy"@,
        )
    } else if s.to > SCHEMA_VERSION {
        Some(
            "migration registry step "@ + step_name(i, s.label) + " targets "@ + version(s.to)
                + " above SCHEMA_VERSION "@ + version(SCHEMA_VERSION)
                + "; bump SCHEMA_VERSION in the same change"@,
        )
    } else if i > 0 && s.from != steps[i - 1].to {
        Some(
            "migration registry gap at step "@ + step_name(i, s.label) + ": starts at "@ + version(
                s.from,
            ) + " but previous step ends at "@ + version(steps[i - 1].to),
        )
    } else {
        None
    }
}

/// The first broken rule at or after step `i`.
pub open spec fn steps_fault(steps: Seq<StepView>, i: int) -> Option<Seq<char>>
    decreases steps.len() - i,
{
    if i < 0 || i >= steps.len() {
        None
    } else {
        match step_fault(steps, i) {
            Some(m) => Some(m),
            None => steps_fault(steps, i + 1),
        }
    }
}

/// The rule that a registry breaks.
pub open spec fn registry_fault(steps: Seq<StepView>) -> Option<Seq<char>> {
    if steps.len() == 0 {
        Some("migration registry must not be empty"@)
    } else if steps[0].from != 1 {
        Some("migration registry must start at v1, found "@ + version(steps[0].from))
    } else {
        steps_fault(steps, 0)
    }
}

fn version_text(n: i64) -> (r: String)
    ensures
        r@ == version(n),
{
    text::cat("v", text::decimal_signed(n).as_str())
}

fn step_text(prefix: &str, i: usize, label: &str) -> (r: String)
    ensures
        r@ == prefix@ + step_name(i as int, label@),
{
    let mut s = text::decimal(i as u64);
    s.append(" (");
    s.append(label);
    s.append(")");
    text::cat(prefix, s.as_str())
}

fn check_step(steps: &Vec<Migration>, i: usize) -> (r: Option<String>)
    requires
        i < steps.len(),
    ensures
        text::opt(r) == step_fault(chain(steps@), i as int),
{
    let s = &steps[i];
    proof {
        assert(chain(steps@)[i as int] == s@);
    }
    if s.from >= s.to {
        let mut m = step_text("migration registry step ", i, s.label);
        m.append(" is not upward: ");
        m.append(version_text(s.from).as_str());
        m.append(" → ");
        m.append(version_text(s.to).as_str());
        return Some(m);
    }
    if s.from == STALE_SCHEMA_VERSION {
        let mut m = step_text("migration registry step ", i, s.label);
        m.append(" would migrate the stale ");
        m.append(version_text(STALE_SCHEMA_VERSION).as_str());
        m.append(" boundary, which is reinitialise-only by policy");
        return Some(m);
    }
    if s.to > SCHEMA_VERSION {
        let mut m = step_text("migration registry step ", i, s.label);
        m.append(" targets ");
        m.append(version_text(s.to).as_str());
        m.append(" above SCHEMA_VERSION ");
        m.append(version_text(SCHEMA_VERSION).as_str());
        m.append("; bump SCHEMA_VERSION in the same change");
        return Some(m);
    }
    if i > 0 && s.from != steps[i - 1].to {
        proof {
            assert(chain(steps@)[i - 1] == steps@[i - 1]@);
        }
        let mut m = step_text("migration registry gap at step ", i, s.label);
        m.append(": starts at ");
        m.append(version_text(s.from).as_str());
        m.append(" but previous step ends at ");
        m.append(version_text(steps[i - 1].to).as_str());
        return Some(m);
    }
    proof {
        if i > 0 {
            assert(chain(steps@)[i - 1] == steps@[i - 1]@);
        }
    }
    None
}

/// Check the rules of a registry.
pub fn check_registry(steps: &Vec<Migration>) -> (r: Result<(), CaduceusError>)
    ensures
        match r {
            Ok(_) => registry_fault(chain(steps@)) is None,
            Err(e) => registry_fault(chain(steps@)) matches Some(m) && e@ == Fault::Other(m),
        },
{
    proof {
        assert(chain(steps@).len() == steps@.len());
    }
    if steps.len() == 0 {
        return Err(CaduceusError::Other("migration registry must not be empty".to_owned()));
    }
    proof {
        assert(chain(steps@)[0] == steps@[0]@);
    }
    if steps[0].from != 1 {
        return Err(
            CaduceusError::Other(
                text::cat(
                    "migration registry must start at v1, found ",
                    version_text(steps[0].from).as_str(),
                ),
            ),
        );
    }
    let mut i: usize = 0;
    while i < steps.len()
        invariant
            chain(steps@).len() == steps@.len(),
            steps.len() > 0,
            chain(steps@)[0].from == 1,
            i <= steps.len(),
            steps_fault(chain(steps@), 0) == steps_fault(chain(steps@), i as int),
        decreases steps.len() - i,
    {
        match check_step(steps, i) {
            Some(m) => {
                return Err(CaduceusError::Other(m));
            },
            None => {},
        }
        i += 1;
    }
    Ok(())
}

/// The registry of the daemon keeps its rules.
pub proof fn law_the_registry_is_well_formed()
    ensures
        registry_fault(registry()) is None,
{
    reveal_with_fuel(steps_fault, 6);
}

/// Check the rules of the daemon's registry, which it keeps.
pub fn assert_registry_wellformed() -> (r: Result<(), CaduceusError>)
    ensures
        r is Ok,
{
    let steps = migrations();
    proof {
        law_the_registry_is_well_formed();
    }
    check_registry(&steps)
}

// ---------------------------------------------------------------------------
// Opening
// ---------------------------------------------------------------------------

/// What a database holds: no version table yet, or the highest version in it.
#[derive(Clone, Copy, Debug, PartialEq, Eq, Structural)]
pub enum StoredVersion {
    Fresh,
    At(i64),
}

/// What is to be done to open a database.
pub enum OpenPlan {
    /// Make the schema and record the version.
    Initialise,
    /// Run the steps at these positions of the chain, each in a transaction
    /// that records its version; then, where the chain ends below the schema
    /// version, record that; last, add tables that are missing.
    Migrate { steps: Vec<usize>, record_version: bool },
}

/// The positions of the steps that run on a database of the version `current`,
/// from position `i` on.
pub open spec fn fired(steps: Seq<StepView>, current: i64, i: int) -> Seq<usize>
    decreases steps.len() - i,
{
    if i < 0 || i >= steps.len() {
        Seq::empty()
    } else if steps[i].from == current {
        seq![i as usize] + fired(steps, steps[i].to, i + 1)
    } else {
        fired(steps, current, i + 1)
    }
}

/// The version that the chain reaches from `current`, from position `i` on.
pub open spec fn reached(steps: Seq<StepView>, current: i64, i: int) -> i64
    decreases steps.len() - i,
{
    if i < 0 || i >= steps.len() {
        current
    } else if steps[i].from == current {
        reached(steps, steps[i].to, i + 1)
    } else {
        reached(steps, current, i + 1)
    }
}

/// Why a version is refused.
pub open spec fn refusal(path: Seq<char>, v: i64) -> Option<Fault> {
    if v > SCHEMA_VERSION {
        Some(
            Fault::StoreVersionUnsupported {
                backend: "sqlite"@,
                path,
                found: v,
                supported: SCHEMA_VERSION,
                guidance: crate::error::guidance(true),
            },
        )
    } else if v == STALE_SCHEMA_VERSION {
        Some(
            Fault::StateCorrupt {
                path,
                message:
                    "SQLite store has stale schema v6; v6 state is not migrated and must be reinitialized with fresh state. "@
                    + crate::error::guidance(false),
            },
        )
    } else {
        None
    }
}

/// The steps that run on a database of the version `v`.
pub open spec fn steps_for(v: i64) -> Seq<usize> {
    if v < SCHEMA_VERSION {
        fired(registry(), v, 0)
    } else {
        Seq::empty()
    }
}

/// What is to be done to open a database, or why it is refused.
pub fn plan_open(path: &str, stored: StoredVersion) -> (r: Result<OpenPlan, CaduceusError>)
    ensures
        match stored {
            StoredVersion::Fresh => r matches Ok(OpenPlan::Initialise),
            StoredVersion::At(v) => match refusal(path@, v) {
                Some(f) => r matches Err(e) && e@ == f,
                None => r matches Ok(OpenPlan::Migrate { steps, record_version }) && steps@
                    == steps_for(v) && record_version == (v < SCHEMA_VERSION && reached(
                    registry(),
                    v,
                    0,
                ) < SCHEMA_VERSION),
            },
        },
{
    let v: i64 = match stored {
        StoredVersion::Fresh => {
            return Ok(OpenPlan::Initialise);
        },
        StoredVersion::At(v) => v,
    };
    if v > SCHEMA_VERSION {
        return Err(
            CaduceusError::StoreVersionUnsupported {
                backend: "sqlite",
                path: path.to_owned(),
                found: v,
                supported: SCHEMA_VERSION,
                guidance: crate::error::store_version_guidance(true),
            },
        );
    }
    if v == STALE_SCHEMA_VERSION {
        return Err(
            crate::error::corrupt(
                path,
                text::cat(
                    "SQLite store has stale schema v6; v6 state is not migrated and must be reinitialized with fresh state. ",
                    crate::error::store_version_guidance(false),
                ),
            ),
        );
    }
    let mut run: Vec<usize> = Vec::new();
    if v >= SCHEMA_VERSION {
        proof {
            assert(run@ =~= Seq::<usize>::empty());
        }
        return Ok(OpenPlan::Migrate { steps: run, record_version: false });
    }
    let steps = migrations();
    let mut current: i64 = v;
    let mut i: usize = 0;
    proof {
        assert(chain(steps@).len() == steps@.len());
        assert(run@ + fired(registry(), v, 0) =~= fired(registry(), v, 0));
    }
    while i < steps.len()
        invariant
            chain(steps@) == registry(),
            chain(steps@).len() == steps@.len(),
            i <= steps.len(),
            run@ + fired(registry(), current, i as int) == fired(registry(), v, 0),
            reached(registry(), current, i as int) == reached(registry(), v, 0),
        decreases steps.len() - i,
    {
        proof {
            assert(chain(steps@)[i as int] == steps@[i as int]@);
        }
        if current == steps[i].from {
            let ghost before = run@;
            let next: i64 = steps[i].to;
            proof {
                let rest = fired(registry(), next, i + 1);
                assert(fired(registry(), current, i as int) == seq![i] + rest);
                assert(before + (seq![i] + rest) =~= before.push(i) + rest);
            }
            run.push(i);
            current = next;
        }
        i += 1;
    }
    proof {
        assert(run@ + fired(registry(), current, i as int) =~= run@);
    }
    Ok(OpenPlan::Migrate { steps: run, record_version: current < SCHEMA_VERSION })
}

/// A chain that was interrupted resumes: from the version that a step left,
/// the steps that run are those that would have followed it.
pub proof fn law_an_interrupted_chain_resumes(v: i64)
    requires
        1 <= v < STALE_SCHEMA_VERSION,
    ensures
        steps_for(v) == Seq::new((STALE_SCHEMA_VERSION - v) as nat, |i: int| (v - 1 + i) as usize),
        v + 1 < STALE_SCHEMA_VERSION ==> steps_for((v + 1) as i64) == steps_for(v).skip(1),
        reached(registry(), v, 0) == STALE_SCHEMA_VERSION,
{
    reveal_with_fuel(fired, 7);
    reveal_with_fuel(reached, 7);
    assert(steps_for(v) =~= Seq::new(
        (STALE_SCHEMA_VERSION - v) as nat,
        |i: int| (v - 1 + i) as usize,
    ));
    if v + 1 < STALE_SCHEMA_VERSION {
        assert(steps_for((v + 1) as i64) =~= steps_for(v).skip(1));
    }
}

/// A database of the current version opens as it is, one of a newer version
/// and one of the stale version are refused.
pub proof fn law_versions_are_guarded(path: Seq<char>, v: i64)
    ensures
        v == SCHEMA_VERSION ==> refusal(path, v) is None && steps_for(v).len() == 0,
        v > SCHEMA_VERSION ==> refusal(path, v) is Some,
        v == STALE_SCHEMA_VERSION ==> refusal(path, v) is Some,
{
}

proof fn lemma_steps_fault(steps: Seq<StepView>, i: int)
    requires
        0 <= i,
    ensures
        steps_fault(steps, i) is None <==> forall|j: int|
            i <= j < steps.len() ==> step_fault(steps, j) is None,
    decreases steps.len() - i,
{
    if i < steps.len() {
        lemma_steps_fault(steps, i + 1);
    }
}

/// A chain is sound exactly when it starts at version one and each step goes up,
/// begins where the one before ended, never at the sixth version, and ends at the
/// seventh at most.
pub proof fn law_a_sound_chain_has_no_gap(steps: Seq<StepView>)
    ensures
        registry_fault(steps) is None <==> {
            &&& steps.len() > 0
            &&& steps[0].from == 1
            &&& forall|i: int|
                0 <= i < steps.len() ==> (#[trigger] steps[i]).from < steps[i].to && steps[i].from
                    != 6 && steps[i].to <= 7
            &&& forall|i: int, j: int|
                0 <= i < steps.len() && j == i + 1 && j < steps.len() ==> (#[trigger] steps[j]).from
                    == (#[trigger] steps[i]).to
        },
{
    lemma_steps_fault(steps, 0);
    if registry_fault(steps) is None {
        assert forall|i: int| 0 <= i < steps.len() implies (#[trigger] steps[i]).from < steps[i].to
            && steps[i].from != 6 && steps[i].to <= 7 by {
            assert(step_fault(steps, i) is None);
        }
        assert forall|i: int, j: int|
            0 <= i < steps.len() && j == i + 1 && j < steps.len() implies (
        #[trigger] steps[j]).from == (#[trigger] steps[i]).to by {
            assert(step_fault(steps, j) is None);
        }
    }
    if steps.len() > 0 && steps[0].from == 1 && (forall|i: int|
        0 <= i < steps.len() ==> (#[trigger] steps[i]).from < steps[i].to && steps[i].from != 6
            && steps[i].to <= 7) && (forall|i: int, j: int|
        0 <= i < steps.len() && j == i + 1 && j < steps.len() ==> (#[trigger] steps[j]).from == (
        #[trigger] steps[i]).to) {
        assert forall|j: int| 0 <= j < steps.len() implies step_fault(steps, j) is None by {
            assert(steps[j].from < steps[j].to);
            if j > 0 {
                assert(steps[j].from == steps[j - 1].to);
            }
        }
    }
}

/// A database is refused exactly when it is newer than the seventh version or of
/// the sixth.
pub proof fn law_these_versions_are_refused(path: Seq<char>, v: i64)
    ensures
        refusal(path, v) is Some <==> v > 7 || v == 6,
        v > 7 ==> refusal(path, v)->0 is StoreVersionUnsupported && refusal(path, v)->0->StoreVersionUnsupported_found == v
            && refusal(path, v)->0->StoreVersionUnsupported_supported == 7,
        v == 6 ==> refusal(path, v)->0 is StateCorrupt,
{
}

/// The steps of the chain, by the versions that they lead between and what they
/// do.
pub proof fn law_the_chain_leads_from_one_to_six()
    ensures
        registry().len() == 5,
        forall|i: int|
            0 <= i < 5 ==> (#[trigger] registry()[i]).from == i + 1 && registry()[i].to == i + 2,
        registry()[0].statements
            == "ALTER TABLE checkpoints ADD COLUMN operation_id TEXT; ALTER TABLE checkpoints ADD COLUMN remote_marker TEXT;"@,
        registry()[1].statements == ""@,
        registry()[2].statements == "DROP TABLE IF EXISTS circuit_breakers;"@,
        registry()[3].statements == ""@,
        registry()[4].statements
            == "ALTER TABLE queue_entries ADD COLUMN blocked_source TEXT; ALTER TABLE queue_entries ADD COLUMN blocked_recovery_hint TEXT;"@,
{
}

/// What is said of a database that is refused.
pub proof fn law_a_refused_database_says_why(path: Seq<char>, v: i64)
    ensures
        v > 7 ==> refusal(path, v) == Some(
            Fault::StoreVersionUnsupported {
                backend: "sqlite"@,
                path,
                found: v,
                supported: 7,
                guidance: crate::error::guidance(true),
            },
        ),
        v == 6 ==> refusal(path, v) == Some(
            Fault::StateCorrupt {
                path,
                message:
                    "SQLite store has stale schema v6; v6 state is not migrated and must be reinitialized with fresh state. "@
                    + crate::error::guidance(false),
            },
        ),
{
}

/// What is said of a chain that is not sound.
pub proof fn law_an_unsound_chain_says_why(steps: Seq<StepView>, i: int)
    requires
        0 <= i < steps.len(),
    ensures
        ({
            let s = steps[i];
            let name = text::dec(i as nat) + " ("@ + s.label + ")"@;
            let up = s.from < s.to;
            &&& !up ==> step_fault(steps, i) == Some(
                "migration registry step "@ + name + " is not upward: "@ + ("v"@ + text::dec_int(
                    s.from as int,
                )) + " → "@ + ("v"@ + text::dec_int(s.to as int)),
            )
            &&& up && s.from == 6 ==> step_fault(steps, i) == Some(
                "migration registry step "@ + name + " would migrate the stale "@ + ("v"@
                    + text::dec_int(6)) + " boundary, which is reinitialise-only by policy"@,
            )
            &&& up && s.from != 6 && s.to > 7 ==> step_fault(steps, i) == Some(
                "migration registry step "@ + name + " targets "@ + ("v"@ + text::dec_int(
                    s.to as int,
                )) + " above SCHEMA_VERSION "@ + ("v"@ + text::dec_int(7))
                    + "; bump SCHEMA_VERSION in the same change"@,
            )
            &&& up && s.from != 6 && s.to <= 7 && i > 0 && s.from != steps[i - 1].to ==> step_fault(
                steps,
                i,
            ) == Some(
                "migration registry gap at step "@ + name + ": starts at "@ + ("v"@ + text::dec_int(
                    s.from as int,
                )) + " but previous step ends at "@ + ("v"@ + text::dec_int(
                    steps[i - 1].to as int,
                )),
            )
        }),
        registry_fault(Seq::empty()) == Some("migration registry must not be empty"@),
        steps[0].from != 1 ==> registry_fault(steps) == Some(
            "migration registry must start at v1, found "@ + ("v"@ + text::dec_int(
                steps[0].from as int,
            )),
        ),
{
}

} // verus!
