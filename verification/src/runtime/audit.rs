//! The audit trail: what is refused, and what is put on record.

use vstd::prelude::*;

use crate::error::{CaduceusError, Fault};
use crate::scheduler::circuit::{CircuitState, ExhaustedEntry};
use crate::text;

verus! {

/// Event: an investigation reached its end and was archived.
pub const INVESTIGATION_ARCHIVED_EVENT: &'static str = "investigation_archived";

/// Event: the reconciliation at startup ended an investigation.
pub const REVIEW_MIGRATION_TERMINATED_INVESTIGATION_EVENT: &'static str =
    "review_migration_terminated_investigation";

/// Event: an investigation was not admitted to the queue.
pub const INVESTIGATION_ADMISSION_REJECTED_EVENT: &'static str = "investigation_admission_rejected";

/// Refuse to merge a pull request: that takes a human.
pub fn refuse_auto_merge() -> (r: Result<(), CaduceusError>)
    ensures
        r matches Err(e) && e@ == Fault::Other(
            "auto-merge is refused: human review is required for all PR merges (FINAL-001 AC-04; see src/state/checkpoints.rs)"@,
        ),
{
    Err(
        CaduceusError::Other(
            "auto-merge is refused: human review is required for all PR merges (FINAL-001 AC-04; see src/state/checkpoints.rs)".to_owned(),
        ),
    )
}

/// One field of a record.
#[derive(Debug)]
pub struct RecordField {
    pub name: &'static str,
    pub value: String,
}

/// Something to put on record.
#[derive(Debug)]
pub struct AuditRecord {
    /// An operator should look.
    pub warning: bool,
    pub message: &'static str,
    pub fields: Vec<RecordField>,
}

/// A field by its view.
pub struct FieldView {
    pub name: Seq<char>,
    pub value: Seq<char>,
}

/// An [`AuditRecord`] by its views.
pub struct RecordView {
    pub warning: bool,
    pub message: Seq<char>,
    pub fields: Seq<FieldView>,
}

/// Fields by their views.
pub open spec fn field_views(v: Seq<RecordField>) -> Seq<FieldView> {
    v.map_values(|f: RecordField| FieldView { name: f.name@, value: f.value@ })
}

impl View for AuditRecord {
    type V = RecordView;

    open spec fn view(&self) -> RecordView {
        RecordView {
            warning: self.warning,
            message: self.message@,
            fields: field_views(self.fields@),
        }
    }
}

/// A field.
pub open spec fn field(name: Seq<char>, value: Seq<char>) -> FieldView {
    FieldView { name, value }
}

/// The record with one more field.
fn put(fields: &mut Vec<RecordField>, name: &'static str, value: String)
    ensures
        field_views(final(fields)@) == field_views(old(fields)@).push(field(name@, value@)),
{
    let ghost before = fields@;
    fields.push(RecordField { name, value });
    proof {
        assert(field_views(fields@) =~= field_views(before).push(field(name@, value@)));
    }
}

/// No fields yet.
fn no_fields() -> (r: Vec<RecordField>)
    ensures
        field_views(r@) == Seq::<FieldView>::empty(),
{
    let v: Vec<RecordField> = Vec::new();
    proof {
        assert(field_views(v@) =~= Seq::<FieldView>::empty());
    }
    v
}

/// The record of a transition of a circuit.
pub fn record_circuit_transition(
    scope: &str,
    scope_id: &str,
    from: &CircuitState,
    to: &CircuitState,
    now: i64,
) -> (r: AuditRecord)
    ensures
        r@ == (RecordView {
            warning: false,
            message: "circuit state transition"@,
            fields: seq![
                field("circuit.scope"@, scope@),
                field("circuit.scope_id"@, scope_id@),
                field("circuit.from"@, from.label()),
                field("circuit.to"@, to.label()),
                field("circuit.timestamp"@, text::dec_int(now as int)),
            ],
        }),
{
    let mut f = no_fields();
    put(&mut f, "circuit.scope", scope.to_owned());
    put(&mut f, "circuit.scope_id", scope_id.to_owned());
    put(&mut f, "circuit.from", from.as_str().to_owned());
    put(&mut f, "circuit.to", to.as_str().to_owned());
    put(&mut f, "circuit.timestamp", text::decimal_signed(now));
    let r = AuditRecord { warning: false, message: "circuit state transition", fields: f };
    proof {
        assert(r@.fields =~= seq![
            field("circuit.scope"@, scope@),
            field("circuit.scope_id"@, scope_id@),
            field("circuit.from"@, from.label()),
            field("circuit.to"@, to.label()),
            field("circuit.timestamp"@, text::dec_int(now as int)),
        ]);
    }
    r
}

/// A time field, where there is a time.
pub open spec fn time_fields(name: Seq<char>, t: Option<i64>) -> Seq<FieldView> {
    match t {
        Some(t) => seq![field(name, text::dec_int(t as int))],
        None => Seq::empty(),
    }
}

fn put_time(fields: &mut Vec<RecordField>, name: &'static str, t: Option<i64>)
    ensures
        field_views(final(fields)@) == field_views(old(fields)@) + time_fields(name@, t),
{
    let ghost before = field_views(fields@);
    match t {
        Some(t) => {
            put(fields, name, text::decimal_signed(t));
            proof {
                assert(field_views(fields@) =~= before + time_fields(name@, Some(t)));
            }
        },
        None => {
            proof {
                assert(before =~= before + time_fields(name@, None));
            }
        },
    }
}

/// The record of a circuit that needs attention.
pub fn emit_needs_attention(scope: &str, scope_id: &str, reason: &str, entry: &ExhaustedEntry) -> (r:
    AuditRecord)
    ensures
        r@ == (RecordView {
            warning: true,
            message: "circuit needs attention: circuit has been open beyond max degraded age"@,
            fields: seq![
                field("circuit.scope"@, scope@),
                field("circuit.scope_id"@, scope_id@),
                field("circuit.reason"@, reason@),
                field(
                    "circuit.consecutive_failures"@,
                    text::dec(entry@.consecutive_failures as nat),
                ),
            ] + time_fields("circuit.last_failure_at"@, entry@.last_failure_at) + time_fields(
                "circuit.opened_at"@,
                entry@.opened_at,
            ),
        }),
{
    let mut f = no_fields();
    put(&mut f, "circuit.scope", scope.to_owned());
    put(&mut f, "circuit.scope_id", scope_id.to_owned());
    put(&mut f, "circuit.reason", reason.to_owned());
    put(
        &mut f,
        "circuit.consecutive_failures",
        text::decimal(entry.consecutive_failures as u64),
    );
    proof {
        assert(field_views(f@) =~= seq![
            field("circuit.scope"@, scope@),
            field("circuit.scope_id"@, scope_id@),
            field("circuit.reason"@, reason@),
            field("circuit.consecutive_failures"@, text::dec(entry@.consecutive_failures as nat)),
        ]);
    }
    put_time(&mut f, "circuit.last_failure_at", entry.last_failure_at);
    put_time(&mut f, "circuit.opened_at", entry.opened_at);
    AuditRecord {
        warning: true,
        message: "circuit needs attention: circuit has been open beyond max degraded age",
        fields: f,
    }
}

/// The record of an archived investigation.
pub fn emit_investigation_archived(repo: &str, issue: u64, source: &str, outcome: &str) -> (r:
    AuditRecord)
    ensures
        r@ == (RecordView {
            warning: false,
            message: "investigation entry archived under deprecation (DAR §12)"@,
            fields: seq![
                field("event"@, INVESTIGATION_ARCHIVED_EVENT@),
                field("repo"@, repo@),
                field("issue"@, text::dec(issue as nat)),
                field("source"@, source@),
                field("outcome"@, outcome@),
            ],
        }),
{
    let mut f = no_fields();
    put(&mut f, "event", INVESTIGATION_ARCHIVED_EVENT.to_owned());
    put(&mut f, "repo", repo.to_owned());
    put(&mut f, "issue", text::decimal(issue));
    put(&mut f, "source", source.to_owned());
    put(&mut f, "outcome", outcome.to_owned());
    let r = AuditRecord {
        warning: false,
        message: "investigation entry archived under deprecation (DAR §12)",
        fields: f,
    };
    proof {
        assert(r@.fields =~= seq![
            field("event"@, INVESTIGATION_ARCHIVED_EVENT@),
            field("repo"@, repo@),
            field("issue"@, text::dec(issue as nat)),
            field("source"@, source@),
            field("outcome"@, outcome@),
        ]);
    }
    r
}

/// The record of an investigation that the reconciliation at startup ended.
pub fn emit_review_migration_terminated_investigation(
    repo: &str,
    issue: u64,
    phase_before: &str,
) -> (r: AuditRecord)
    ensures
        r@ == (RecordView {
            warning: true,
            message:
                "investigation entry terminated by the startup reconcile pass (DAR §4.4); the work never executed — re-file as an auto_review or code ticket if still needed"@,
            fields: seq![
                field("event"@, REVIEW_MIGRATION_TERMINATED_INVESTIGATION_EVENT@),
                field("repo"@, repo@),
                field("issue"@, text::dec(issue as nat)),
                field("phase_before"@, phase_before@),
            ],
        }),
{
    let mut f = no_fields();
    put(&mut f, "event", REVIEW_MIGRATION_TERMINATED_INVESTIGATION_EVENT.to_owned());
    put(&mut f, "repo", repo.to_owned());
    put(&mut f, "issue", text::decimal(issue));
    put(&mut f, "phase_before", phase_before.to_owned());
    let r = AuditRecord {
        warning: true,
        message:
            "investigation entry terminated by the startup reconcile pass (DAR §4.4); the work never executed — re-file as an auto_review or code ticket if still needed",
        fields: f,
    };
    proof {
        assert(r@.fields =~= seq![
            field("event"@, REVIEW_MIGRATION_TERMINATED_INVESTIGATION_EVENT@),
            field("repo"@, repo@),
            field("issue"@, text::dec(issue as nat)),
            field("phase_before"@, phase_before@),
        ]);
    }
    r
}

/// A field has its name and value; a time that is not known has no field.
pub proof fn law_unknown_times_have_no_field(name: Seq<char>, value: Seq<char>, t: i64)
    ensures
        field(name, value).name == name,
        field(name, value).value == value,
        time_fields(name, None).len() == 0,
        time_fields(name, Some(t)).len() == 1,
        time_fields(name, Some(t))[0].name == name,
        time_fields(name, Some(t))[0].value == text::dec_int(t as int),
{
}

/// A merge is never made without a person.
pub proof fn law_no_merge_without_a_person(r: Result<(), CaduceusError>)
    requires
        call_ensures(refuse_auto_merge, (), r),
    ensures
        r is Err,
{
}

/// The record of a transition says between which states, and is no warning; the one
/// of a circuit that needs attention is a warning.
pub proof fn law_circuit_records_say_what_happened(
    scope: &str,
    scope_id: &str,
    from: &CircuitState,
    to: &CircuitState,
    now: i64,
    reason: &str,
    entry: &ExhaustedEntry,
    moved: AuditRecord,
    asks: AuditRecord,
)
    requires
        call_ensures(record_circuit_transition, (scope, scope_id, from, to, now), moved),
        call_ensures(emit_needs_attention, (scope, scope_id, reason, entry), asks),
    ensures
        !moved@.warning,
        asks@.warning,
        moved@.fields.len() == 5,
        moved@.fields[0].value == scope@ && asks@.fields[0].value == scope@,
        moved@.fields[1].value == scope_id@ && asks@.fields[1].value == scope_id@,
        moved@.fields[2] == field("circuit.from"@, from.label()),
        moved@.fields[3] == field("circuit.to"@, to.label()),
        moved@.fields[4] == field("circuit.timestamp"@, text::dec_int(now as int)),
        asks@.fields[2] == field("circuit.reason"@, reason@),
        asks@.fields[3] == field(
            "circuit.consecutive_failures"@,
            text::dec(entry@.consecutive_failures as nat),
        ),
        asks@.message == "circuit needs attention: circuit has been open beyond max degraded age"@,
        moved@.message == "circuit state transition"@,
{
}

/// The records of investigations name their event, the repository and the issue.
pub proof fn law_investigation_records_name_their_event(
    repo: &str,
    issue: u64,
    source: &str,
    outcome: &str,
    phase: &str,
    archived: AuditRecord,
    ended: AuditRecord,
)
    requires
        call_ensures(emit_investigation_archived, (repo, issue, source, outcome), archived),
        call_ensures(
            emit_review_migration_terminated_investigation,
            (repo, issue, phase),
            ended,
        ),
    ensures
        !archived@.warning && ended@.warning,
        archived@.fields[0] == field("event"@, "investigation_archived"@),
        ended@.fields[0] == field("event"@, "review_migration_terminated_investigation"@),
        archived@.fields[1] == field("repo"@, repo@) && ended@.fields[1] == field("repo"@, repo@),
        archived@.fields[2] == field("issue"@, text::dec(issue as nat)),
        ended@.fields[2] == field("issue"@, text::dec(issue as nat)),
        archived@.fields[3] == field("source"@, source@),
        archived@.fields[4] == field("outcome"@, outcome@),
        ended@.fields[3] == field("phase_before"@, phase@),
{
}

} // verus!
