//! Points in time, as whole seconds and nanoseconds since the Unix epoch.

use vstd::prelude::*;

verus! {

/// A UTC instant: `secs` whole seconds since the Unix epoch and `nanos`
/// nanoseconds past that second.
#[derive(Clone, Copy, Debug, PartialEq, Eq, Structural)]
pub struct Timestamp {
    pub secs: i64,
    pub nanos: u32,
}

impl Timestamp {
    /// `self` is strictly earlier than `other`.
    pub open spec fn lt(self, other: Timestamp) -> bool {
        self.secs < other.secs || (self.secs == other.secs && self.nanos < other.nanos)
    }

    /// `self` is not later than `other`.
    pub open spec fn le(self, other: Timestamp) -> bool {
        !other.lt(self)
    }

    /// The instant `seconds` after `self`. An instant in a leap second leaves
    /// it, to the second after it on the way forward and on the way back.
    pub open spec fn plus(self, seconds: int) -> Timestamp {
        if self.nanos < 1000000000 || seconds == 0 {
            Timestamp { secs: (self.secs + seconds) as i64, nanos: self.nanos }
        } else if seconds > 0 {
            Timestamp {
                secs: (self.secs + seconds) as i64,
                nanos: (self.nanos - 1000000000) as u32,
            }
        } else {
            Timestamp {
                secs: (self.secs + 1 + seconds) as i64,
                nanos: (self.nanos - 1000000000) as u32,
            }
        }
    }

    /// The instant `seconds` before `self` on a clock without leap seconds.
    pub open spec fn minus(self, seconds: int) -> Timestamp {
        Timestamp { secs: (self.secs - seconds) as i64, nanos: self.nanos }
    }

    /// Time of the day, in seconds.
    pub open spec fn time_of_day(self) -> int {
        self.secs as int % 86400
    }

    /// Nanoseconds from `other` to `self`. A leap second between them counts
    /// where it belongs to the one that is earlier in its day.
    pub open spec fn since(self, other: Timestamp) -> int {
        let leap: int = if self.time_of_day() > other.time_of_day() && other.nanos >= 1000000000 {
            1
        } else if self.time_of_day() < other.time_of_day() && self.nanos >= 1000000000 {
            -1
        } else {
            0
        };
        (self.secs - other.secs + leap) * 1000000000 + (self.nanos - other.nanos)
    }

    /// Nanoseconds from `other` to `self`, as the difference of two
    /// `chrono::DateTime` has it.
    pub fn nanos_since(&self, other: &Timestamp) -> (r: i128)
        ensures
            r == self.since(*other),
    {
        let a: i64 = time_of_day(self.secs);
        let b: i64 = time_of_day(other.secs);
        let leap: i128 = if a > b && other.nanos >= 1000000000 {
            1
        } else if a < b && self.nanos >= 1000000000 {
            -1
        } else {
            0
        };
        (self.secs as i128 - other.secs as i128 + leap) * 1000000000 + (self.nanos as i128
            - other.nanos as i128)
    }

    /// Is `self` strictly earlier than `other`?
    pub fn is_before(&self, other: &Timestamp) -> (r: bool)
        ensures
            r == self.lt(*other),
    {
        self.secs < other.secs || (self.secs == other.secs && self.nanos < other.nanos)
    }

    /// The instant `seconds` after `self`.
    pub fn plus_seconds(&self, seconds: i64) -> (r: Timestamp)
        requires
            i64::MIN <= self.secs + seconds <= i64::MAX,
        ensures
            r == self.plus(seconds as int),
    {
        if self.nanos < 1000000000 || seconds == 0 {
            Timestamp { secs: self.secs + seconds, nanos: self.nanos }
        } else if seconds > 0 {
            Timestamp { secs: self.secs + seconds, nanos: self.nanos - 1000000000 }
        } else {
            Timestamp { secs: self.secs + (1 + seconds), nanos: self.nanos - 1000000000 }
        }
    }
}

fn time_of_day(secs: i64) -> (r: i64)
    ensures
        r == secs as int % 86400,
{
    if secs >= 0 {
        secs % 86400
    } else {
        let back: i64 = (-(secs + 1)) % 86400;
        proof {
            let n = -(secs + 1);
            assert(n == 86400 * (n / 86400) + n % 86400);
            assert(secs == 86400 * (-(n / 86400) - 1) + (86399 - n % 86400));
            vstd::arithmetic::div_mod::lemma_fundamental_div_mod_converse(
                secs as int,
                86400,
                -(n / 86400) - 1,
                86399 - n % 86400,
            );
        }
        86399 - back
    }
}

// ---------------------------------------------------------------------------
// RFC 3339
// ---------------------------------------------------------------------------

impl Timestamp {
    /// A date and time that chrono can hold: years -262143 to 262142, with a
    /// leap second only at the end of a minute.
    pub open spec fn valid(self) -> bool {
        &&& -8334601228800 <= self.secs <= 8210266876799
        &&& self.nanos < 2000000000
        &&& self.nanos >= 1000000000 ==> self.secs % 60 == 59
    }

    /// The instant `seconds` away is one that chrono can hold too.
    pub open spec fn reaches(self, seconds: int) -> bool {
        self.valid() && -8334601228800 <= self.secs + seconds <= 8210266876799
    }

    /// An instant whose year has four digits, outside a leap second.
    pub open spec fn four_digit_year(self) -> bool {
        -62167219200 <= self.secs <= 253402300799 && self.nanos < 1000000000
    }
}

/// The human form of an instant in UTC, as `DateTime`'s `Display` writes it.
pub uninterp spec fn display_text(t: Timestamp) -> Seq<char>;

/// `chrono::DateTime::to_string` on the UTC date and time of `t`: its result is
/// a function of the instant alone.
#[verifier::external_body]
pub(crate) fn format_display(t: Timestamp) -> (r: String)
    requires
        t.valid(),
    ensures
        r@ == display_text(t),
{
    match chrono::DateTime::from_timestamp(t.secs, t.nanos) {
        Some(d) => d.to_string(),
        None => String::new(),
    }
}

/// The form `%Y%m%dT%H%M%S%3fZ` of an instant in UTC, as `DateTime::format`
/// writes it.
pub uninterp spec fn stamp_text(t: Timestamp) -> Seq<char>;

/// `chrono::DateTime::format` with `%Y%m%dT%H%M%S%3fZ` on the UTC date and time
/// of `t`: its result is a function of the instant alone.
#[verifier::external_body]
pub(crate) fn format_stamp(t: Timestamp) -> (r: String)
    requires
        t.valid(),
    ensures
        r@ == stamp_text(t),
{
    match chrono::DateTime::from_timestamp(t.secs, t.nanos) {
        Some(d) => d.format("%Y%m%dT%H%M%S%3fZ").to_string(),
        None => String::new(),
    }
}

/// What `DateTime::parse_from_rfc3339` makes of a text: the instant, or the
/// text of its error.
pub uninterp spec fn rfc3339(text: Seq<char>) -> Result<Timestamp, Seq<char>>;

/// A parse result with its error taken by its view.
pub open spec fn parsed(r: Result<Timestamp, String>) -> Result<Timestamp, Seq<char>> {
    match r {
        Ok(t) => Ok(t),
        Err(e) => Err(e@),
    }
}

/// `chrono::DateTime::parse_from_rfc3339`: its result, as seconds and
/// nanoseconds since the epoch, is a function of the text alone, and what it
/// accepts is a date that chrono can hold.
#[verifier::external_body]
pub(crate) fn parse_rfc3339(text: &str) -> (r: Result<Timestamp, String>)
    ensures
        parsed(r) == rfc3339(text@),
        r matches Ok(t) ==> t.valid(),
{
    match chrono::DateTime::parse_from_rfc3339(text) {
        Ok(t) => Ok(Timestamp { secs: t.timestamp(), nanos: t.timestamp_subsec_nanos() }),
        Err(e) => Err(e.to_string()),
    }
}

/// Parsing `text` gives `t`.
pub open spec fn reads_as(text: Seq<char>, t: Timestamp) -> bool {
    rfc3339(text) matches Ok(back) && back == t
}

/// The RFC 3339 form of an instant in UTC, as `DateTime::to_rfc3339` writes it.
pub uninterp spec fn rfc3339_text(t: Timestamp) -> Seq<char>;

/// `chrono::DateTime::to_rfc3339` on the UTC date and time of `t`: its result
/// is a function of the instant alone, and parsing it gives the instant back
/// when the year has four digits.
#[verifier::external_body]
pub(crate) fn format_rfc3339(t: Timestamp) -> (r: String)
    requires
        t.valid(),
    ensures
        r@ == rfc3339_text(t),
        t.four_digit_year() ==> reads_as(r@, t),
{
    match chrono::DateTime::from_timestamp(t.secs, t.nanos) {
        Some(d) => d.to_rfc3339(),
        None => String::new(),
    }
}

// ---------------------------------------------------------------------------
// Laws
// ---------------------------------------------------------------------------

/// Times are in order by seconds, and then by nanoseconds.
pub proof fn law_times_are_in_order(a: Timestamp, b: Timestamp, c: Timestamp)
    ensures
        a.secs < b.secs ==> a.lt(b),
        a.secs == b.secs ==> (a.lt(b) <==> a.nanos < b.nanos),
        !a.lt(a),
        a.lt(b) && b.lt(c) ==> a.lt(c),
        a == b || a.lt(b) || b.lt(a),
        a.le(b) <==> a == b || a.lt(b),
{
}

/// A span is counted in whole seconds, keeps the fraction, and is what lies between
/// the two times.
pub proof fn law_spans_are_counted_in_seconds(t: Timestamp, seconds: int)
    requires
        t.nanos < 1000000000,
        i64::MIN <= t.secs + seconds <= i64::MAX,
    ensures
        t.plus(seconds).secs == t.secs + seconds,
        t.plus(seconds).nanos == t.nanos,
        t.plus(seconds).since(t) == seconds * 1000000000,
        seconds > 0 ==> t.lt(t.plus(seconds)),
        seconds < 0 ==> t.plus(seconds).lt(t),
{
}

/// The time between two instants is counted in nanoseconds; a leap second between
/// them, which is the fraction beyond a whole second, counts as a second of its own.
pub proof fn law_leap_seconds_count(a: Timestamp, b: Timestamp)
    ensures
        a.nanos < 1000000000 && b.nanos < 1000000000 ==> a.since(b) == (a.secs - b.secs)
            * 1000000000 + (a.nanos - b.nanos),
        b.nanos >= 1000000000 && a.secs as int % 86400 > b.secs as int % 86400 ==> a.since(b) == (
        a.secs - b.secs + 1) * 1000000000 + (a.nanos - b.nanos),
        a.since(b) == -(b.since(a)),
        a.since(a) == 0,
{
}

/// A span from within a leap second leaves it: forward it counts from the second
/// itself, and backward from the next.
pub proof fn law_a_span_leaves_a_leap_second(t: Timestamp, seconds: int)
    requires
        1000000000 <= t.nanos < 2000000000,
        i64::MIN <= t.secs + seconds,
        t.secs + 1 + seconds <= i64::MAX,
    ensures
        seconds == 0 ==> t.plus(seconds) == t,
        seconds > 0 ==> t.plus(seconds).secs == t.secs + seconds,
        seconds < 0 ==> t.plus(seconds).secs == t.secs + 1 + seconds,
        seconds != 0 ==> t.plus(seconds).nanos == t.nanos - 1000000000,
{
}

/// The instants of the calendar, and those that four digits of a year can write.
pub proof fn law_the_calendar_has_its_ends(t: Timestamp, seconds: int)
    ensures
        t.valid() <==> -8334601228800 <= t.secs <= 8210266876799 && t.nanos < 2000000000 && (t.nanos
            >= 1000000000 ==> t.secs % 60 == 59),
        t.reaches(seconds) <==> t.valid() && -8334601228800 <= t.secs + seconds <= 8210266876799,
        t.four_digit_year() <==> -62167219200 <= t.secs <= 253402300799 && t.nanos < 1000000000,
{
}

} // verus!
