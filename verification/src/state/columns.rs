//! Database columns as the values of the stores: integers, labels and
//! timestamps.

use vstd::prelude::*;

use crate::error::{CaduceusError, Fault};
use crate::json;
use crate::text;
use crate::time;
use crate::time::Timestamp;

verus! {

/// The signed column that stores an unsigned number: the same 64 bits.
pub open spec fn signed(n: u64) -> i64 {
    if n <= i64::MAX {
        n as i64
    } else {
        (n - 0x1_0000_0000_0000_0000) as i64
    }
}

/// The signed column that stores an unsigned number.
pub fn to_signed(n: u64) -> (r: i64)
    ensures
        r == signed(n),
{
    if n <= 0x7fff_ffff_ffff_ffff {
        n as i64
    } else {
        -((0xffff_ffff_ffff_ffff - n) as i64) - 1
    }
}

/// A signed column read as an unsigned number: the same 64 bits.
pub open spec fn bits(v: i64) -> u64 {
    if v >= 0 {
        v as u64
    } else {
        (v + 0x1_0000_0000_0000_0000) as u64
    }
}

/// A signed column read as an unsigned number: the same 64 bits.
pub fn from_signed(v: i64) -> (r: u64)
    ensures
        r == bits(v),
{
    if v >= 0 {
        v as u64
    } else {
        0xffff_ffff_ffff_ffff - ((-(v + 1)) as u64)
    }
}

/// A signed column read as an unsigned number, if it is not negative.
pub open spec fn unsigned(v: i64) -> Option<u64> {
    if v < 0 {
        None
    } else {
        Some(v as u64)
    }
}

/// A signed column read as an unsigned number; a negative one counts as zero.
pub open spec fn floored(v: i64) -> u64 {
    if v < 0 {
        0
    } else {
        v as u64
    }
}

/// A signed column read as a generation: a negative one counts as zero.
pub fn parse_generation(v: i64) -> (r: u64)
    ensures
        r == floored(v),
{
    if v < 0 {
        0
    } else {
        v as u64
    }
}

/// A signed column read as a counter: a negative one counts as zero, and of a
/// large one the low 32 bits stay.
pub open spec fn counter(v: i64) -> u32 {
    (floored(v) % 0x1_0000_0000) as u32
}

/// A signed column read as a counter.
pub fn parse_counter(v: i64) -> (r: u32)
    ensures
        r == counter(v),
{
    (parse_generation(v) % 0x1_0000_0000) as u32
}

/// The error for a negative pull request number.
pub open spec fn negative_pr(v: i64) -> Fault {
    Fault::StateCorrupt {
        path: "<review-store>"@,
        message: "negative pull_request value "@ + text::dec_int(v as int),
    }
}

/// A signed column read as a pull request number.
pub fn parse_pr_u64(v: i64) -> (r: Result<u64, CaduceusError>)
    ensures
        match r {
            Ok(n) => unsigned(v) == Some(n),
            Err(e) => unsigned(v) is None && e@ == negative_pr(v),
        },
{
    if v < 0 {
        Err(
            crate::error::corrupt(
                "<review-store>",
                text::cat(
                    "negative pull_request value ",
                    text::decimal_signed(v).as_str(),
                ),
            ),
        )
    } else {
        Ok(v as u64)
    }
}

// ---------------------------------------------------------------------------
// Timestamps
// ---------------------------------------------------------------------------

/// What a timestamp column holds, or why it is refused.
pub open spec fn instant(value: Seq<char>, field: Seq<char>, path: Seq<char>) -> Result<
    Timestamp,
    Fault,
> {
    match time::rfc3339(value) {
        Ok(t) => Ok(t),
        Err(e) => Err(
            Fault::StateCorrupt {
                path,
                message: "invalid "@ + field + " timestamp "@ + text::quote(value) + ": "@ + e,
            },
        ),
    }
}

/// What an optional timestamp column holds, or why it is refused.
pub open spec fn opt_instant(value: Option<Seq<char>>, field: Seq<char>, path: Seq<char>) -> Result<
    Option<Timestamp>,
    Fault,
> {
    match value {
        None => Ok(None),
        Some(v) => match instant(v, field, path) {
            Ok(t) => Ok(Some(t)),
            Err(f) => Err(f),
        },
    }
}

/// Read a timestamp column.
pub fn parse_timestamp(value: &str, field: &str, path: &str) -> (r: Result<
    Timestamp,
    CaduceusError,
>)
    ensures
        match r {
            Ok(t) => instant(value@, field@, path@) == Ok::<Timestamp, Fault>(t) && t.valid(),
            Err(e) => instant(value@, field@, path@) == Err::<Timestamp, Fault>(e@),
        },
{
    match time::parse_rfc3339(value) {
        Ok(t) => Ok(t),
        Err(e) => {
            let mut m = text::cat("invalid ", field);
            m.append(" timestamp ");
            m.append(text::quoted(value).as_str());
            m.append(": ");
            m.append(e.as_str());
            Err(crate::error::corrupt(path, m))
        },
    }
}

/// Read an optional timestamp column.
pub fn parse_optional_timestamp(value: &Option<String>, field: &str, path: &str) -> (r: Result<
    Option<Timestamp>,
    CaduceusError,
>)
    ensures
        match r {
            Ok(t) => opt_instant(text::opt(*value), field@, path@) == Ok::<Option<Timestamp>, Fault>(t),
            Err(e) => opt_instant(text::opt(*value), field@, path@) == Err::<
                Option<Timestamp>,
                Fault,
            >(e@),
        },
{
    match value {
        None => Ok(None),
        Some(v) => match parse_timestamp(v.as_str(), field, path) {
            Ok(t) => Ok(Some(t)),
            Err(e) => Err(e),
        },
    }
}

/// The column that stores an optional instant.
pub open spec fn opt_text(t: Option<Timestamp>) -> Option<Seq<char>> {
    match t {
        Some(t) => Some(time::rfc3339_text(t)),
        None => None,
    }
}

/// An optional instant that chrono can hold.
pub open spec fn opt_valid(t: Option<Timestamp>) -> bool {
    match t {
        Some(t) => t.valid(),
        None => true,
    }
}

/// An optional instant whose year has four digits.
pub open spec fn opt_four_digit(t: Option<Timestamp>) -> bool {
    match t {
        Some(t) => t.four_digit_year(),
        None => true,
    }
}

/// The column that stores an optional instant; reading it gives the instant
/// back when the year has four digits.
pub fn optional_timestamp_text(t: Option<Timestamp>) -> (r: Option<String>)
    requires
        opt_valid(t),
    ensures
        text::opt(r) == opt_text(t),
        opt_four_digit(t) ==> forall|field: Seq<char>, path: Seq<char>| #[trigger]
            opt_instant(text::opt(r), field, path) == Ok::<Option<Timestamp>, Fault>(t),
{
    match t {
        Some(t) => Some(time::format_rfc3339(t)),
        None => None,
    }
}

// ---------------------------------------------------------------------------
// Labels
// ---------------------------------------------------------------------------

/// A character that stands for itself inside a JSON string.
pub open spec fn plain_char(c: char) -> bool {
    c != '"' && c != '\\' && c >= ' '
}

/// Every character stands for itself inside a JSON string.
pub open spec fn plain(s: Seq<char>) -> bool {
    forall|i: int| 0 <= i < s.len() ==> plain_char(#[trigger] s[i])
}

/// The text that a label stands for: what a JSON string with that content
/// holds.
pub open spec fn label_text(label: Seq<char>) -> Option<Seq<char>> {
    if plain(label) {
        Some(label)
    } else {
        match json::document("\""@ + label + "\""@) {
            Ok(j) => j.as_text(),
            Err(_) => None,
        }
    }
}

/// The text that a label stands for.
pub fn read_label(label: &str) -> (r: Option<String>)
    ensures
        text::opt(r) == label_text(label@),
{
    let chars = text::chars_of(label);
    let mut i: usize = 0;
    while i < chars.len()
        invariant
            chars@ == label@,
            i <= chars.len(),
            forall|j: int| 0 <= j < i ==> plain_char(#[trigger] chars@[j]),
        decreases chars.len() - i,
    {
        let c = chars[i];
        if c == '"' || c == '\\' || ' ' > c {
            proof {
                assert(!plain_char(label@[i as int]));
            }
            let mut quoted = text::cat("\"", label);
            quoted.append("\"");
            return match json::parse_json(quoted.as_str()) {
                Ok(j) => match j.as_str() {
                    Some(s) => Some(s.to_owned()),
                    None => None,
                },
                Err(_) => None,
            };
        }
        i += 1;
    }
    Some(label.to_owned())
}

/// The error for a label that names no variant.
pub open spec fn bad_label(label: Seq<char>, field: Seq<char>, path: Seq<char>) -> Fault {
    Fault::StateCorrupt {
        path,
        message: "invalid "@ + field + " label "@ + text::quote(label),
    }
}

/// The error for a label that names no variant.
pub fn label_error(label: &str, field: &str, path: &str) -> (r: CaduceusError)
    ensures
        r@ == bad_label(label@, field@, path@),
{
    let mut m = text::cat("invalid ", field);
    m.append(" label ");
    m.append(text::quoted(label).as_str());
    crate::error::corrupt(path, m)
}

// ---------------------------------------------------------------------------
// Laws
// ---------------------------------------------------------------------------

/// Numbers that fit are kept in their column and read back; the others wrap around,
/// and still read back by their bits.
pub proof fn law_numbers_keep_their_bits(n: u64, v: i64)
    ensures
        n <= i64::MAX ==> signed(n) == n,
        n > i64::MAX ==> signed(n) == n - 0x1_0000_0000_0000_0000,
        bits(signed(n)) == n,
        v >= 0 ==> bits(v) == v,
        v >= 0 ==> unsigned(v) == Some(v as u64),
        v < 0 ==> unsigned(v) is None,
        v >= 0 ==> floored(v) == v,
        v < 0 ==> floored(v) == 0,
        0 <= v <= u32::MAX ==> counter(v) == v,
        v < 0 ==> counter(v) == 0,
{
}

/// A column with a time is read exactly when its text reads as one; an empty column
/// is no time. The error names the field.
pub proof fn law_times_are_read_from_their_texts(
    value: Seq<char>,
    field: Seq<char>,
    path: Seq<char>,
)
    ensures
        instant(value, field, path) is Ok <==> time::rfc3339(value) is Ok,
        time::rfc3339(value) matches Ok(t) ==> instant(value, field, path) == Ok::<
            Timestamp,
            Fault,
        >(t),
        time::rfc3339(value) matches Err(e) ==> instant(value, field, path) == Err::<
            Timestamp,
            Fault,
        >(
            Fault::StateCorrupt {
                path,
                message: "invalid "@ + field + " timestamp "@ + text::quote(value) + ": "@ + e,
            },
        ),
        opt_instant(None, field, path) == Ok::<Option<Timestamp>, Fault>(None),
        time::rfc3339(value) matches Ok(t) ==> opt_instant(Some(value), field, path) == Ok::<
            Option<Timestamp>,
            Fault,
        >(Some(t)),
        opt_instant(Some(value), field, path) is Err <==> instant(value, field, path) is Err,
{
}

/// A label without quotes, backslashes and control characters stands for itself.
pub proof fn law_plain_labels_stand_for_themselves(label: Seq<char>, c: char)
    ensures
        plain(label) ==> label_text(label) == Some(label),
        plain_char(c) <==> c != '"' && c != '\\' && c >= ' ',
{
}

/// What is said of a number or a label that cannot be read.
pub proof fn law_a_bad_column_is_named(
    v: i64,
    label: Seq<char>,
    field: Seq<char>,
    path: Seq<char>,
)
    ensures
        negative_pr(v) == (Fault::StateCorrupt {
            path: "<review-store>"@,
            message: "negative pull_request value "@ + text::dec_int(v as int),
        }),
        bad_label(label, field, path) == (Fault::StateCorrupt {
            path,
            message: "invalid "@ + field + " label "@ + text::quote(label),
        }),
{
}

} // verus!
