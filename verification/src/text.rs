//! Text building blocks: comparison, ordering, decimal rendering, byte
//! lengths and clipping, and the Unicode tables that std provides.
//!
//! Contracts speak of a string as its sequence of characters.

use vstd::prelude::*;

verus! {

// ---------------------------------------------------------------------------
// Byte lengths
// ---------------------------------------------------------------------------

/// Length of `s` in UTF-8 bytes.
pub open spec fn utf8_len(s: Seq<char>) -> nat {
    vstd::utf8::encode_utf8(s).len()
}

/// Number of UTF-8 bytes of one character.
pub open spec fn char_width(c: char) -> nat {
    vstd::utf8::encode_scalar(c as u32).len()
}

pub proof fn lemma_encode_add(a: Seq<char>, b: Seq<char>)
    ensures
        vstd::utf8::encode_utf8(a + b) =~= vstd::utf8::encode_utf8(a) + vstd::utf8::encode_utf8(b),
    decreases a.len(),
{
    if a.len() == 0 {
        assert(a + b =~= b);
    } else {
        assert((a + b).drop_first() =~= a.drop_first() + b);
        lemma_encode_add(a.drop_first(), b);
    }
}

/// Byte lengths add up over concatenation.
pub proof fn lemma_utf8_len_add(a: Seq<char>, b: Seq<char>)
    ensures
        utf8_len(a + b) == utf8_len(a) + utf8_len(b),
{
    lemma_encode_add(a, b);
}

pub proof fn lemma_utf8_len_push(s: Seq<char>, c: char)
    ensures
        utf8_len(s.push(c)) == utf8_len(s) + char_width(c),
        1 <= char_width(c) <= 4,
{
    assert(s.push(c) =~= s + seq![c]);
    lemma_utf8_len_add(s, seq![c]);
    assert(seq![c].drop_first() =~= Seq::<char>::empty());
    reveal_with_fuel(vstd::utf8::encode_utf8, 2);
}

/// A prefix is never longer in bytes than the whole.
pub proof fn lemma_utf8_len_prefix(s: Seq<char>, n: int)
    requires
        0 <= n <= s.len(),
    ensures
        utf8_len(s.take(n)) <= utf8_len(s),
{
    assert(s =~= s.take(n) + s.skip(n));
    lemma_utf8_len_add(s.take(n), s.skip(n));
}

/// Two strings with the same bytes are the same string.
pub proof fn lemma_encode_injective(a: Seq<char>, b: Seq<char>)
    requires
        vstd::utf8::encode_utf8(a) == vstd::utf8::encode_utf8(b),
    ensures
        a == b,
{
    vstd::utf8::encode_utf8_decode_utf8(a);
    vstd::utf8::encode_utf8_decode_utf8(b);
}

/// Length of `s` in UTF-8 bytes.
pub fn byte_len(s: &str) -> (n: usize)
    ensures
        n == utf8_len(s@),
{
    s.as_bytes().len()
}

// ---------------------------------------------------------------------------
// Equality and order
// ---------------------------------------------------------------------------

/// Do `a` and `b` hold the same characters?
pub fn same(a: &str, b: &str) -> (r: bool)
    ensures
        r == (a@ == b@),
{
    let x = a.as_bytes();
    let y = b.as_bytes();
    if x.len() != y.len() {
        return false;
    }
    let mut i: usize = 0;
    while i < x.len()
        invariant
            i <= x.len(),
            x.len() == y.len(),
            x@ == vstd::utf8::encode_utf8(a@),
            y@ == vstd::utf8::encode_utf8(b@),
            forall|j: int| 0 <= j < i ==> x@[j] == y@[j],
        decreases x.len() - i,
    {
        if x[i] != y[i] {
            return false;
        }
        i += 1;
    }
    proof {
        assert(x@ =~= y@);
        lemma_encode_injective(a@, b@);
    }
    true
}

/// An optional text by its view.
pub open spec fn opt(s: Option<String>) -> Option<Seq<char>> {
    match s {
        Some(s) => Some(s@),
        None => None,
    }
}

/// An optional borrowed text by its view.
pub open spec fn opt_str(s: Option<&str>) -> Option<Seq<char>> {
    match s {
        Some(s) => Some(s@),
        None => None,
    }
}

/// Are the two optional texts the same?
pub fn same_opt(a: &Option<String>, b: &Option<String>) -> (r: bool)
    ensures
        r == (opt(*a) == opt(*b)),
{
    match (a, b) {
        (None, None) => true,
        (Some(x), Some(y)) => same(x.as_str(), y.as_str()),
        _ => false,
    }
}

/// Does the optional text `a` hold exactly the text `b`?
pub fn opt_is(a: &Option<String>, b: &str) -> (r: bool)
    ensures
        r == (a is Some && a->0@ == b@),
{
    match a {
        Some(x) => same(x.as_str(), b),
        None => false,
    }
}

/// Byte-wise lexicographic order, the order of `str`.
pub open spec fn bytes_lt(a: Seq<u8>, b: Seq<u8>) -> bool
    decreases a.len(),
{
    if b.len() == 0 {
        false
    } else if a.len() == 0 {
        true
    } else if a[0] != b[0] {
        a[0] < b[0]
    } else {
        bytes_lt(a.drop_first(), b.drop_first())
    }
}

/// `a` sorts strictly before `b`.
pub open spec fn str_lt(a: Seq<char>, b: Seq<char>) -> bool {
    bytes_lt(vstd::utf8::encode_utf8(a), vstd::utf8::encode_utf8(b))
}

proof fn lemma_bytes_lt_total(a: Seq<u8>, b: Seq<u8>)
    ensures
        bytes_lt(a, b) ==> !bytes_lt(b, a) && a != b,
        !bytes_lt(a, b) && !bytes_lt(b, a) ==> a == b,
    decreases a.len(),
{
    if a.len() > 0 && b.len() > 0 && a[0] == b[0] {
        lemma_bytes_lt_total(a.drop_first(), b.drop_first());
        assert(a =~= seq![a[0]] + a.drop_first());
        assert(b =~= seq![b[0]] + b.drop_first());
    } else if a.len() == 0 && b.len() == 0 {
        assert(a =~= b);
    }
}

proof fn lemma_bytes_lt_transitive(a: Seq<u8>, b: Seq<u8>, c: Seq<u8>)
    requires
        bytes_lt(a, b),
        bytes_lt(b, c),
    ensures
        bytes_lt(a, c),
    decreases a.len(),
{
    if a.len() > 0 && a[0] == b[0] && b[0] == c[0] {
        lemma_bytes_lt_transitive(a.drop_first(), b.drop_first(), c.drop_first());
    }
}

/// `k` is one of the first `n` texts.
pub open spec fn among_first(texts: Seq<String>, k: Seq<char>, n: int) -> bool {
    exists|j: int| 0 <= j < n && (#[trigger] texts[j])@ == k
}

/// The order on strings is a strict total order.
pub proof fn lemma_str_lt_total(a: Seq<char>, b: Seq<char>)
    ensures
        str_lt(a, b) ==> !str_lt(b, a) && a != b,
        !str_lt(a, b) && !str_lt(b, a) ==> a == b,
        a == b ==> !str_lt(a, b),
{
    lemma_bytes_lt_total(vstd::utf8::encode_utf8(a), vstd::utf8::encode_utf8(b));
    if !str_lt(a, b) && !str_lt(b, a) {
        lemma_encode_injective(a, b);
    }
}

pub proof fn lemma_str_lt_transitive(a: Seq<char>, b: Seq<char>, c: Seq<char>)
    requires
        str_lt(a, b),
        str_lt(b, c),
    ensures
        str_lt(a, c),
{
    lemma_bytes_lt_transitive(
        vstd::utf8::encode_utf8(a),
        vstd::utf8::encode_utf8(b),
        vstd::utf8::encode_utf8(c),
    );
}

/// Does `a` sort strictly before `b`?
pub fn sorts_before(a: &str, b: &str) -> (r: bool)
    ensures
        r == str_lt(a@, b@),
{
    let x = a.as_bytes();
    let y = b.as_bytes();
    let mut i: usize = 0;
    proof {
        assert(x@.skip(0) =~= x@);
        assert(y@.skip(0) =~= y@);
    }
    while i < x.len() && i < y.len()
        invariant
            i <= x.len(),
            i <= y.len(),
            x@ == vstd::utf8::encode_utf8(a@),
            y@ == vstd::utf8::encode_utf8(b@),
            bytes_lt(x@, y@) == bytes_lt(x@.skip(i as int), y@.skip(i as int)),
        decreases x.len() - i,
    {
        proof {
            assert(x@.skip(i as int)[0] == x@[i as int]);
            assert(y@.skip(i as int)[0] == y@[i as int]);
            assert(x@.skip(i as int).drop_first() =~= x@.skip(i + 1));
            assert(y@.skip(i as int).drop_first() =~= y@.skip(i + 1));
        }
        if x[i] != y[i] {
            return x[i] < y[i];
        }
        i += 1;
    }
    i < y.len()
}

// ---------------------------------------------------------------------------
// Characters in and out
// ---------------------------------------------------------------------------

/// `String::push` appends the character at the end.
pub assume_specification[ String::push ](s: &mut String, c: char)
    ensures
        final(s)@ == old(s)@.push(c),
;

/// The characters of `s`, in order.
pub fn chars_of(s: &str) -> (r: Vec<char>)
    ensures
        r@ == s@,
{
    let mut out: Vec<char> = Vec::new();
    for c in it: s.chars()
        invariant
            out@ == it.seq().take(it.index() as int),
            it.seq() == s@,
    {
        out.push(c);
        proof {
            assert(it.seq().take(it.index() as int + 1) =~= it.seq().take(it.index() as int).push(c));
        }
    }
    proof {
        assert(s@.take(s@.len() as int) =~= s@);
    }
    out
}

/// The text made of `chars[from..to]`.
pub fn text_of(chars: &Vec<char>, from: usize, to: usize) -> (r: String)
    requires
        from <= to <= chars.len(),
    ensures
        r@ == chars@.subrange(from as int, to as int),
{
    let mut out = String::new();
    let mut i: usize = from;
    while i < to
        invariant
            from <= i <= to <= chars.len(),
            out@ == chars@.subrange(from as int, i as int),
        decreases to - i,
    {
        out.push(chars[i]);
        i += 1;
        proof {
            assert(chars@.subrange(from as int, i as int) =~= chars@.subrange(
                from as int,
                i as int - 1,
            ).push(chars@[i as int - 1]));
        }
    }
    out
}

/// The UTF-8 bytes of `s`.
pub fn bytes_of(s: &str) -> (r: Vec<u8>)
    ensures
        r@ == vstd::utf8::encode_utf8(s@),
{
    s.as_bytes_vec()
}

/// `a` followed by `b`.
pub fn cat(a: &str, b: &str) -> (r: String)
    ensures
        r@ == a@ + b@,
{
    let mut out = a.to_owned();
    out.append(b);
    out
}

// ---------------------------------------------------------------------------
// Decimal rendering
// ---------------------------------------------------------------------------

/// The character of a decimal digit.
pub open spec fn digit(d: nat) -> char {
    (48 + d) as char
}

/// Decimal digits of `n`, without leading zeros.
pub open spec fn dec(n: nat) -> Seq<char>
    decreases n,
{
    if n < 10 {
        seq![digit(n)]
    } else {
        dec(n / 10).push(digit(n % 10))
    }
}

/// Decimal rendering of a signed number.
pub open spec fn dec_int(n: int) -> Seq<char> {
    if n < 0 {
        seq!['-'] + dec((-n) as nat)
    } else {
        dec(n as nat)
    }
}

/// `n` in decimal.
pub fn decimal(n: u64) -> (r: String)
    ensures
        r@ == dec(n as nat),
    decreases n,
{
    let c: char = (48u8 + (n % 10) as u8) as char;
    let mut out = if n < 10 {
        String::new()
    } else {
        decimal(n / 10)
    };
    out.push(c);
    out
}

/// `n` in decimal, with a leading `-` when negative.
pub fn decimal_signed(n: i64) -> (r: String)
    ensures
        r@ == dec_int(n as int),
{
    if n < 0 {
        let magnitude: u64 = (-(n + 1)) as u64 + 1;
        let digits = decimal(magnitude);
        proof {
            reveal_strlit("-");
            assert("-"@ =~= seq!['-']);
        }
        cat("-", digits.as_str())
    } else {
        decimal(n as u64)
    }
}

/// `c` is a decimal digit.
pub open spec fn is_digit(c: char) -> bool {
    '0' <= c && c <= '9'
}

pub open spec fn all_digits(s: Seq<char>) -> bool {
    forall|i: int| 0 <= i < s.len() ==> is_digit(#[trigger] s[i])
}

/// The number that a string of decimal digits denotes.
pub open spec fn digits_value(s: Seq<char>) -> nat
    decreases s.len(),
{
    if s.len() == 0 {
        0
    } else {
        10 * digits_value(s.drop_last()) + (s.last() as nat - 48) as nat
    }
}

/// The unsigned number that `s` denotes: decimal digits, after an optional `+`.
pub open spec fn number(s: Seq<char>) -> Option<nat> {
    let digits = if s.len() > 0 && s[0] == '+' {
        s.skip(1)
    } else {
        s
    };
    if digits.len() > 0 && all_digits(digits) {
        Some(digits_value(digits))
    } else {
        None
    }
}

proof fn lemma_dec_digits(n: nat)
    ensures
        all_digits(dec(n)),
        dec(n).len() > 0,
        digits_value(dec(n)) == n,
    decreases n,
{
    if n < 10 {
        assert(dec(n).drop_last() =~= Seq::<char>::empty());
        reveal_with_fuel(digits_value, 2);
    } else {
        lemma_dec_digits(n / 10);
        assert(dec(n).drop_last() =~= dec(n / 10));
    }
}

/// A decimal rendering holds digits only.
pub proof fn lemma_dec_has_no(n: nat, c: char)
    requires
        !is_digit(c),
    ensures
        !dec(n).contains(c),
{
    lemma_dec_digits(n);
    if dec(n).contains(c) {
        let i = choose|i: int| 0 <= i < dec(n).len() && dec(n)[i] == c;
        assert(is_digit(dec(n)[i]));
    }
}

/// Ten to the power `k`.
pub open spec fn pow10(k: nat) -> nat
    decreases k,
{
    if k == 0 {
        1
    } else {
        10 * pow10((k - 1) as nat)
    }
}

proof fn lemma_dec_len_below(n: nat, k: nat)
    requires
        k > 0,
        n < pow10(k),
    ensures
        utf8_len(dec(n)) <= k,
    decreases n,
{
    if n < 10 {
        assert(dec(n) =~= Seq::<char>::empty().push(digit(n)));
        lemma_utf8_len_push(Seq::empty(), digit(n));
        assert(utf8_len(Seq::<char>::empty()) == 0);
        assert(char_width(digit(n)) == 1);
    } else {
        assert(pow10(k) == 10 * pow10((k - 1) as nat));
        if k == 1 {
            assert(pow10(0) == 1);
        }
        lemma_dec_len_below(n / 10, (k - 1) as nat);
        lemma_utf8_len_push(dec(n / 10), digit(n % 10));
        assert(char_width(digit(n % 10)) == 1);
    }
}

/// A 64-bit number renders in at most twenty bytes.
pub proof fn lemma_dec_len(n: u64)
    ensures
        utf8_len(dec(n as nat)) <= 20,
{
    reveal_with_fuel(pow10, 21);
    assert(pow10(20) == 100000000000000000000);
    lemma_dec_len_below(n as nat, 20);
}

/// Reading a decimal rendering gives the number back.
pub proof fn lemma_number_of_dec(n: nat)
    ensures
        number(dec(n)) == Some(n),
{
    lemma_dec_digits(n);
    assert(is_digit(dec(n)[0]));
}

proof fn lemma_digits_value_prefix(s: Seq<char>, i: int)
    requires
        all_digits(s),
        0 <= i <= s.len(),
    ensures
        digits_value(s.take(i)) <= digits_value(s),
    decreases s.len(),
{
    if i == s.len() {
        assert(s.take(i) =~= s);
    } else {
        assert(s.drop_last().take(i) =~= s.take(i));
        assert(is_digit(s[s.len() - 1]));
        assert(all_digits(s.drop_last())) by {
            assert forall|j: int| 0 <= j < s.drop_last().len() implies is_digit(
                #[trigger] s.drop_last()[j],
            ) by {
                assert(is_digit(s[j]));
            }
        }
        lemma_digits_value_prefix(s.drop_last(), i);
    }
}

/// The unsigned number that `s` denotes, when it is at most `max`.
pub fn parse_number(s: &str, max: u64) -> (r: Option<u64>)
    ensures
        match number(s@) {
            Some(n) if n <= max => r == Some(n as u64),
            _ => r is None,
        },
{
    let chars = chars_of(s);
    let start: usize = if chars.len() > 0 && chars[0] == '+' {
        1
    } else {
        0
    };
    let ghost digits = if s@.len() > 0 && s@[0] == '+' {
        s@.skip(1)
    } else {
        s@
    };
    if start == chars.len() {
        return None;
    }
    let mut value: u64 = 0;
    let mut i: usize = start;
    proof {
        assert(digits.take(0) =~= Seq::<char>::empty());
    }
    while i < chars.len()
        invariant
            chars@ == s@,
            start <= i <= chars.len(),
            start < chars.len(),
            digits == chars@.skip(start as int),
            number(s@) == (if digits.len() > 0 && all_digits(digits) {
                Some(digits_value(digits))
            } else {
                None
            }),
            forall|j: int| 0 <= j < i - start ==> is_digit(#[trigger] digits[j]),
            value == digits_value(digits.take(i - start)),
            value <= max,
        decreases chars.len() - i,
    {
        let c = chars[i];
        proof {
            assert(digits[i - start] == c);
            assert(digits.take(i - start + 1).drop_last() =~= digits.take(i - start));
        }
        if c < '0' || c > '9' {
            proof {
                assert(!is_digit(digits[i - start]));
            }
            return None;
        }
        let d: u64 = c as u64 - 48;
        if value > (u64::MAX - d) / 10 || value * 10 + d > max {
            proof {
                if all_digits(digits) {
                    lemma_digits_value_prefix(digits, i - start + 1);
                }
            }
            return None;
        }
        value = value * 10 + d;
        i += 1;
    }
    proof {
        assert(digits.take(digits.len() as int) =~= digits);
    }
    Some(value)
}

/// The number that `s` denotes: decimal digits, after an optional sign.
pub open spec fn signed_number(s: Seq<char>) -> Option<int> {
    if s.len() > 0 && s[0] == '-' {
        let digits = s.skip(1);
        if digits.len() > 0 && all_digits(digits) {
            Some(-(digits_value(digits) as int))
        } else {
            None
        }
    } else {
        match number(s) {
            Some(n) => Some(n as int),
            None => None,
        }
    }
}

/// The 32-bit number that `s` denotes.
pub fn parse_i32(s: &str) -> (r: Option<i32>)
    ensures
        match signed_number(s@) {
            Some(n) if i32::MIN <= n <= i32::MAX => r == Some(n as i32),
            _ => r is None,
        },
{
    let chars = chars_of(s);
    if chars.len() > 0 && chars[0] == '-' {
        let tail = text_of(&chars, 1, chars.len());
        proof {
            assert(tail@ =~= s@.skip(1));
        }
        if chars.len() > 1 && chars[1] == '+' {
            proof {
                assert(!is_digit(tail@[0]));
            }
            return None;
        }
        match parse_number(tail.as_str(), 0x8000_0000) {
            Some(n) => Some((-(n as i64)) as i32),
            None => None,
        }
    } else {
        match parse_number(s, 0x7fff_ffff) {
            Some(n) => Some(n as i32),
            None => None,
        }
    }
}

/// The 64-bit number that `s` denotes.
pub fn parse_i64(s: &str) -> (r: Option<i64>)
    ensures
        match signed_number(s@) {
            Some(n) if i64::MIN <= n <= i64::MAX => r == Some(n as i64),
            _ => r is None,
        },
{
    let chars = chars_of(s);
    if chars.len() > 0 && chars[0] == '-' {
        let tail = text_of(&chars, 1, chars.len());
        proof {
            assert(tail@ =~= s@.skip(1));
        }
        if chars.len() > 1 && chars[1] == '+' {
            proof {
                assert(!is_digit(tail@[0]));
            }
            return None;
        }
        match parse_number(tail.as_str(), 0x8000_0000_0000_0000) {
            Some(n) => Some((-(n as i128)) as i64),
            None => None,
        }
    } else {
        match parse_number(s, 0x7fff_ffff_ffff_ffff) {
            Some(n) => Some(n as i64),
            None => None,
        }
    }
}

/// A number's decimal form denotes the number.
pub proof fn lemma_signed_number_of_dec(n: int)
    ensures
        signed_number(dec_int(n)) == Some(n),
{
    if n < 0 {
        lemma_dec_digits((-n) as nat);
        assert(dec_int(n).skip(1) =~= dec((-n) as nat));
    } else {
        lemma_number_of_dec(n as nat);
        lemma_dec_digits(n as nat);
        assert(is_digit(dec(n as nat)[0]));
    }
}

// ---------------------------------------------------------------------------
// Clipping to a byte budget
// ---------------------------------------------------------------------------

/// The longest prefix of `s` that fits in `max` bytes.
pub open spec fn clip(s: Seq<char>, max: nat) -> Seq<char>
    decreases s.len(),
{
    if s.len() == 0 || utf8_len(s) <= max {
        s
    } else {
        clip(s.drop_last(), max)
    }
}

/// A prefix that fits, and that the next character would overflow, is the clip.
proof fn lemma_clip_is_prefix(s: Seq<char>, n: int, max: nat)
    requires
        0 <= n <= s.len(),
        utf8_len(s.take(n)) <= max,
        n < s.len() ==> utf8_len(s.take(n + 1)) > max,
    ensures
        clip(s, max) == s.take(n),
    decreases s.len(),
{
    if n == s.len() {
        assert(s.take(n) =~= s);
    } else {
        lemma_utf8_len_prefix(s, n + 1);
        let t = s.drop_last();
        assert(t.take(n) =~= s.take(n));
        if n < t.len() {
            assert(t.take(n + 1) =~= s.take(n + 1));
        }
        lemma_clip_is_prefix(t, n, max);
    }
}

/// A clip fits its budget, is a prefix, and leaves a text that fits alone.
pub proof fn lemma_clip_fits(s: Seq<char>, max: nat)
    ensures
        utf8_len(clip(s, max)) <= max,
        clip(s, max).is_prefix_of(s),
        utf8_len(s) <= max ==> clip(s, max) == s,
    decreases s.len(),
{
    if s.len() == 0 || utf8_len(s) <= max {
    } else {
        lemma_clip_fits(s.drop_last(), max);
        let r = clip(s, max);
        assert(r =~= s.drop_last().subrange(0, r.len() as int));
        assert(r =~= s.subrange(0, r.len() as int));
    }
}

/// Number of UTF-8 bytes of one character.
pub fn width_of(c: char) -> (n: usize)
    ensures
        n == char_width(c),
{
    let v: u32 = c as u32;
    if v <= 0x7f {
        1
    } else if v <= 0x7ff {
        2
    } else if v <= 0xffff {
        3
    } else {
        4
    }
}

/// The longest prefix of `s` that fits in `max` bytes.
pub fn clipped(s: &str, max: usize) -> (r: String)
    ensures
        r@ == clip(s@, max as nat),
{
    let chars = chars_of(s);
    let mut used: usize = 0;
    let mut n: usize = 0;
    proof {
        assert(chars@.take(0) =~= Seq::<char>::empty());
    }
    while n < chars.len()
        invariant_except_break
            n <= chars.len(),
            chars@ == s@,
            used <= max,
            used == utf8_len(chars@.take(n as int)),
        ensures
            n <= chars.len(),
            utf8_len(s@.take(n as int)) <= max,
            n < chars.len() ==> utf8_len(s@.take(n + 1)) > max,
        decreases chars.len() - n,
    {
        let w = width_of(chars[n]);
        proof {
            lemma_utf8_len_push(chars@.take(n as int), chars@[n as int]);
            assert(chars@.take(n as int).push(chars@[n as int]) =~= chars@.take(n + 1));
        }
        if w > max - used {
            break;
        }
        used += w;
        n += 1;
    }
    proof {
        lemma_clip_is_prefix(s@, n as int, max as nat);
        assert(chars@.subrange(0, n as int) =~= s@.take(n as int));
    }
    text_of(&chars, 0, n)
}

// ---------------------------------------------------------------------------
// Searching
// ---------------------------------------------------------------------------

/// `needle` stands in `s` at position `i`.
pub open spec fn occurs_at(s: Seq<char>, needle: Seq<char>, i: int) -> bool {
    0 <= i && i + needle.len() <= s.len() && s.subrange(i, i + needle.len()) == needle
}

/// `needle` stands somewhere in `s`.
pub open spec fn has(s: Seq<char>, needle: Seq<char>) -> bool {
    exists|i: int| occurs_at(s, needle, i)
}

/// Position of the first occurrence of `needle` at or after `from`.
pub open spec fn find_from(s: Seq<char>, needle: Seq<char>, from: int) -> Option<int>
    decreases s.len() - from + 1,
{
    if from < 0 || from > s.len() {
        None
    } else if occurs_at(s, needle, from) {
        Some(from)
    } else {
        find_from(s, needle, from + 1)
    }
}

proof fn lemma_find_none(s: Seq<char>, needle: Seq<char>, from: int)
    requires
        0 <= from,
        find_from(s, needle, from) is None,
    ensures
        forall|i: int| from <= i ==> !occurs_at(s, needle, i),
    decreases s.len() - from + 1,
{
    if from <= s.len() {
        lemma_find_none(s, needle, from + 1);
    }
}

proof fn lemma_find_some(s: Seq<char>, needle: Seq<char>, from: int)
    requires
        0 <= from,
        find_from(s, needle, from) is Some,
    ensures
        occurs_at(s, needle, find_from(s, needle, from)->0),
    decreases s.len() - from + 1,
{
    if !occurs_at(s, needle, from) {
        lemma_find_some(s, needle, from + 1);
    }
}

/// `find_from` finds something exactly when the needle occurs.
pub proof fn lemma_find(s: Seq<char>, needle: Seq<char>)
    ensures
        find_from(s, needle, 0) is Some <==> has(s, needle),
        find_from(s, needle, 0) is Some ==> occurs_at(s, needle, find_from(s, needle, 0)->0),
{
    if find_from(s, needle, 0) is None {
        lemma_find_none(s, needle, 0);
    } else {
        lemma_find_some(s, needle, 0);
    }
}

/// Does `needle` stand in `s` at position `i`?
pub fn is_at(s: &Vec<char>, needle: &Vec<char>, i: usize) -> (r: bool)
    ensures
        r == occurs_at(s@, needle@, i as int),
{
    if i > s.len() || needle.len() > s.len() - i {
        return false;
    }
    let mut j: usize = 0;
    while j < needle.len()
        invariant
            j <= needle.len(),
            i + needle.len() <= s.len(),
            forall|k: int| 0 <= k < j ==> s@[i + k] == needle@[k],
        decreases needle.len() - j,
    {
        if s[i + j] != needle[j] {
            proof {
                assert(s@.subrange(i as int, i + needle@.len())[j as int] == s@[i + j]);
            }
            return false;
        }
        j += 1;
    }
    proof {
        assert(s@.subrange(i as int, i + needle@.len()) =~= needle@);
    }
    true
}

/// Position of the first occurrence of `needle` in `s` at or after `from`.
pub fn find_in(s: &Vec<char>, needle: &Vec<char>, from: usize) -> (r: Option<usize>)
    requires
        from <= s.len(),
    ensures
        match r {
            Some(i) => find_from(s@, needle@, from as int) == Some(i as int) && i <= s.len(),
            None => find_from(s@, needle@, from as int) is None,
        },
{
    let mut i: usize = from;
    loop
        invariant
            from <= i <= s.len(),
            find_from(s@, needle@, from as int) == find_from(s@, needle@, i as int),
        decreases s.len() - i,
    {
        if is_at(s, needle, i) {
            return Some(i);
        }
        if i == s.len() {
            proof {
                assert(find_from(s@, needle@, i + 1) is None);
            }
            return None;
        }
        i += 1;
    }
}

/// Does `needle` stand somewhere in `s`?
pub fn contains_text(s: &str, needle: &str) -> (r: bool)
    ensures
        r == has(s@, needle@),
{
    let a = chars_of(s);
    let b = chars_of(needle);
    proof {
        lemma_find(s@, needle@);
    }
    find_in(&a, &b, 0).is_some()
}

/// Does `s` begin with `prefix`?
pub fn begins(s: &str, prefix: &str) -> (r: bool)
    ensures
        r == prefix@.is_prefix_of(s@),
{
    let a = chars_of(s);
    let b = chars_of(prefix);
    is_at(&a, &b, 0)
}

/// Does `s` end with `suffix`?
pub fn ends(s: &str, suffix: &str) -> (r: bool)
    ensures
        r == suffix@.is_suffix_of(s@),
{
    let a = chars_of(s);
    let b = chars_of(suffix);
    if b.len() > a.len() {
        return false;
    }
    is_at(&a, &b, a.len() - b.len())
}

// ---------------------------------------------------------------------------
// Character classes
// ---------------------------------------------------------------------------

/// A Unicode control character (general category Cc).
pub open spec fn is_control(c: char) -> bool {
    c as u32 <= 0x1f || 0x7f <= c as u32 <= 0x9f
}

pub fn control(c: char) -> (r: bool)
    ensures
        r == is_control(c),
{
    let v: u32 = c as u32;
    v <= 0x1f || (0x7f <= v && v <= 0x9f)
}

/// An ASCII letter or digit.
pub open spec fn is_ascii_alnum(c: char) -> bool {
    ('0' <= c && c <= '9') || ('a' <= c && c <= 'z') || ('A' <= c && c <= 'Z')
}

pub fn ascii_alnum(c: char) -> (r: bool)
    ensures
        r == is_ascii_alnum(c),
{
    (c >= '0' && c <= '9') || (c >= 'a' && c <= 'z') || (c >= 'A' && c <= 'Z')
}

/// The Unicode property `White_Space`.
pub open spec fn white_space(c: char) -> bool {
    let n = c as u32;
    ||| 0x9 <= n <= 0xd
    ||| n == 0x20
    ||| n == 0x85
    ||| n == 0xa0
    ||| n == 0x1680
    ||| 0x2000 <= n <= 0x200a
    ||| n == 0x2028
    ||| n == 0x2029
    ||| n == 0x202f
    ||| n == 0x205f
    ||| n == 0x3000
}

/// Is the character white space?
pub fn is_white_space(c: char) -> (r: bool)
    ensures
        r == white_space(c),
{
    let n: u32 = c as u32;
    (n >= 0x9 && n <= 0xd) || n == 0x20 || n == 0x85 || n == 0xa0 || n == 0x1680 || (n >= 0x2000
        && n <= 0x200a) || n == 0x2028 || n == 0x2029 || n == 0x202f || n == 0x205f || n == 0x3000
}

/// Position of the first character of `s` at or after `i` that is not white space.
pub open spec fn skip_white(s: Seq<char>, i: int) -> int
    decreases s.len() - i,
{
    if 0 <= i < s.len() && white_space(s[i]) {
        skip_white(s, i + 1)
    } else {
        i
    }
}

/// The end of `s[..n]` once trailing white space is dropped.
pub open spec fn drop_white(s: Seq<char>, n: int) -> int
    decreases n,
{
    if 0 < n <= s.len() && white_space(s[n - 1]) {
        drop_white(s, n - 1)
    } else {
        n
    }
}

/// `s` without leading and trailing white space.
pub open spec fn trim(s: Seq<char>) -> Seq<char> {
    let end = drop_white(s, s.len() as int);
    let start = skip_white(s.take(end), 0);
    s.subrange(start, end)
}

proof fn lemma_drop_white_bounds(s: Seq<char>, n: int)
    requires
        0 <= n <= s.len(),
    ensures
        0 <= drop_white(s, n) <= n,
    decreases n,
{
    if 0 < n && white_space(s[n - 1]) {
        lemma_drop_white_bounds(s, n - 1);
    }
}

/// `s` without leading and trailing white space.
pub fn trimmed(s: &str) -> (r: String)
    ensures
        r@ == trim(s@),
{
    let chars = chars_of(s);
    let mut end: usize = chars.len();
    while end > 0 && is_white_space(chars[end - 1])
        invariant
            end <= chars.len(),
            chars@ == s@,
            drop_white(s@, s@.len() as int) == drop_white(s@, end as int),
        decreases end,
    {
        end -= 1;
    }
    let mut start: usize = 0;
    let ghost kept = s@.take(end as int);
    while start < end && is_white_space(chars[start])
        invariant
            start <= end <= chars.len(),
            chars@ == s@,
            kept == s@.take(end as int),
            skip_white(kept, 0) == skip_white(kept, start as int),
        decreases end - start,
    {
        start += 1;
    }
    text_of(&chars, start, end)
}

/// The end of the word that begins at `i`: the next white space, or the end.
pub open spec fn word_end(s: Seq<char>, i: int) -> int
    decreases s.len() - i,
{
    if 0 <= i < s.len() && !white_space(s[i]) {
        word_end(s, i + 1)
    } else {
        i
    }
}

/// The white-space separated words of `s` from position `i` on.
pub open spec fn words_from(s: Seq<char>, i: int) -> Seq<Seq<char>>
    decreases s.len() - i,
{
    let a = skip_white(s, i);
    let b = word_end(s, a);
    if 0 <= i <= a < b <= s.len() {
        seq![s.subrange(a, b)] + words_from(s, b)
    } else {
        Seq::empty()
    }
}

/// The white-space separated words of `s`.
pub open spec fn words(s: Seq<char>) -> Seq<Seq<char>> {
    words_from(s, 0)
}

/// The texts of `v` by their views.
pub open spec fn texts(v: Seq<String>) -> Seq<Seq<char>> {
    v.map_values(|s: String| s@)
}

/// Is `s` among the texts of `v`?
pub fn member(v: &Vec<String>, s: &str) -> (r: bool)
    ensures
        r == texts(v@).contains(s@),
{
    let mut i: usize = 0;
    while i < v.len()
        invariant
            i <= v.len(),
            forall|j: int| 0 <= j < i ==> texts(v@)[j] != s@,
        decreases v.len() - i,
    {
        if same(v[i].as_str(), s) {
            proof {
                assert(texts(v@)[i as int] == s@);
            }
            return true;
        }
        i += 1;
    }
    false
}

/// The white-space separated words of `s`.
pub fn words_of(s: &str) -> (r: Vec<String>)
    ensures
        texts(r@) == words(s@),
{
    let chars = chars_of(s);
    let mut out: Vec<String> = Vec::new();
    let mut i: usize = 0;
    proof {
        assert(texts(out@) =~= Seq::<Seq<char>>::empty());
        assert(texts(out@) + words_from(s@, 0) =~= words(s@));
    }
    loop
        invariant
            chars@ == s@,
            i <= chars.len(),
            texts(out@) + words_from(s@, i as int) == words(s@),
        decreases chars.len() - i,
    {
        let ghost from = i as int;
        let mut a: usize = i;
        while a < chars.len() && is_white_space(chars[a])
            invariant
                chars@ == s@,
                from <= a <= chars.len(),
                skip_white(s@, from) == skip_white(s@, a as int),
            decreases chars.len() - a,
        {
            a += 1;
        }
        if a == chars.len() {
            proof {
                assert(words_from(s@, from) =~= Seq::<Seq<char>>::empty());
                assert(texts(out@) + words_from(s@, from) =~= texts(out@));
            }
            return out;
        }
        let ghost begin = a as int;
        let mut b: usize = a;
        while b < chars.len() && !is_white_space(chars[b])
            invariant
                chars@ == s@,
                begin <= b <= chars.len(),
                word_end(s@, begin) == word_end(s@, b as int),
            decreases chars.len() - b,
        {
            b += 1;
        }
        let ghost before = out@;
        out.push(text_of(&chars, a, b));
        proof {
            assert(b > begin);
            assert(words_from(s@, from) =~= seq![s@.subrange(begin, b as int)] + words_from(
                s@,
                b as int,
            ));
            assert(texts(out@) =~= texts(before).push(s@.subrange(begin, b as int)));
            assert(texts(out@) + words_from(s@, b as int) =~= texts(before) + words_from(s@, from));
        }
        i = b;
    }
}

// ---------------------------------------------------------------------------
// Splitting
// ---------------------------------------------------------------------------

/// Position of the first `c` at or after `i`, or the end.
pub open spec fn next_char(s: Seq<char>, c: char, i: int) -> int
    decreases s.len() - i,
{
    if 0 <= i < s.len() && s[i] != c {
        next_char(s, c, i + 1)
    } else {
        i
    }
}

/// The pieces of `s` from position `i` on, separated by `c`.
pub open spec fn split_from(s: Seq<char>, c: char, i: int) -> Seq<Seq<char>>
    decreases s.len() - i,
{
    let j = next_char(s, c, i);
    if 0 <= i <= j < s.len() {
        seq![s.subrange(i, j)] + split_from(s, c, j + 1)
    } else {
        seq![s.subrange(i, s.len() as int)]
    }
}

/// The pieces of `s` separated by `c`; one more piece than there are
/// separators.
pub open spec fn split(s: Seq<char>, c: char) -> Seq<Seq<char>> {
    split_from(s, c, 0)
}

/// The pieces of `s` separated by `c`.
pub fn split_on(s: &str, c: char) -> (r: Vec<String>)
    ensures
        texts(r@) == split(s@, c),
        r.len() >= 1,
{
    let chars = chars_of(s);
    let mut out: Vec<String> = Vec::new();
    let mut i: usize = 0;
    proof {
        assert(texts(out@) =~= Seq::<Seq<char>>::empty());
        assert(texts(out@) + split_from(s@, c, 0) =~= split(s@, c));
    }
    loop
        invariant
            chars@ == s@,
            i <= chars.len(),
            texts(out@) + split_from(s@, c, i as int) == split(s@, c),
        decreases chars.len() - i,
    {
        let ghost from = i as int;
        let mut j: usize = i;
        while j < chars.len() && chars[j] != c
            invariant
                chars@ == s@,
                from <= j <= chars.len(),
                next_char(s@, c, from) == next_char(s@, c, j as int),
            decreases chars.len() - j,
        {
            j += 1;
        }
        let ghost before = out@;
        out.push(text_of(&chars, i, j));
        proof {
            assert(texts(out@) =~= texts(before).push(s@.subrange(from, j as int)));
        }
        if j == chars.len() {
            proof {
                assert(split_from(s@, c, from) =~= seq![s@.subrange(from, j as int)]);
                assert(texts(out@) =~= texts(before) + split_from(s@, c, from));
            }
            return out;
        }
        proof {
            assert(texts(out@) + split_from(s@, c, j + 1) =~= texts(before) + split_from(
                s@,
                c,
                from,
            ));
        }
        i = j + 1;
    }
}

// ---------------------------------------------------------------------------
// Text that std renders
// ---------------------------------------------------------------------------

/// `s` without a carriage return at its end.
pub open spec fn without_return(s: Seq<char>) -> Seq<char> {
    if s.len() > 0 && s.last() == '\r' {
        s.drop_last()
    } else {
        s
    }
}

/// The lines of `s`: each ends with a line feed, or a carriage return and a
/// line feed, and the last may go without.
pub open spec fn lines(s: Seq<char>) -> Seq<Seq<char>> {
    let pieces = split(s, '\n');
    let whole = pieces.drop_last().map_values(|l: Seq<char>| without_return(l));
    if pieces.last().len() == 0 {
        whole
    } else {
        whole.push(pieces.last())
    }
}

/// The lines of `s`.
pub fn lines_of(s: &str) -> (r: Vec<String>)
    ensures
        texts(r@) == lines(s@),
{
    let pieces = split_on(s, '\n');
    let ghost all = split(s@, '\n');
    let ghost whole = all.drop_last().map_values(|l: Seq<char>| without_return(l));
    let mut out: Vec<String> = Vec::new();
    let last: usize = pieces.len() - 1;
    let mut i: usize = 0;
    proof {
        assert(texts(out@) =~= whole.take(0));
    }
    while i < last
        invariant
            all == texts(pieces@),
            whole == all.drop_last().map_values(|l: Seq<char>| without_return(l)),
            last == pieces.len() - 1,
            i <= last,
            texts(out@) == whole.take(i as int),
        decreases last - i,
    {
        let chars = chars_of(pieces[i].as_str());
        let n: usize = chars.len();
        let end: usize = if n > 0 && chars[n - 1] == '\r' {
            n - 1
        } else {
            n
        };
        let ghost before = out@;
        let line = text_of(&chars, 0, end);
        proof {
            assert(all[i as int] == pieces@[i as int]@);
            assert(line@ =~= without_return(all[i as int]));
            assert(whole.take(i + 1) =~= whole.take(i as int).push(line@));
        }
        out.push(line);
        proof {
            assert(texts(out@) =~= texts(before).push(line@));
        }
        i += 1;
    }
    proof {
        assert(whole.take(last as int) =~= whole);
        assert(all.last() == pieces@[last as int]@);
    }
    if !pieces[last].as_str().is_empty() {
        let ghost before = out@;
        out.push(pieces[last].clone());
        proof {
            assert(texts(out@) =~= texts(before).push(all.last()));
        }
    }
    out
}

/// What follows `prefix` in `s`, if `s` begins with it.
pub open spec fn following(s: Seq<char>, prefix: Seq<char>) -> Option<Seq<char>> {
    if prefix.is_prefix_of(s) {
        Some(s.skip(prefix.len() as int))
    } else {
        None
    }
}

/// What follows `prefix` in `s`, if `s` begins with it.
pub fn after_prefix(s: &str, prefix: &str) -> (r: Option<String>)
    ensures
        opt(r) == following(s@, prefix@),
{
    if !begins(s, prefix) {
        return None;
    }
    let chars = chars_of(s);
    let skipped = chars_of(prefix);
    let rest = text_of(&chars, skipped.len(), chars.len());
    proof {
        assert(rest@ =~= s@.skip(prefix@.len() as int));
    }
    Some(rest)
}

/// `s` with every `suffix` taken off its end.
pub open spec fn without_suffixes(s: Seq<char>, suffix: Seq<char>) -> Seq<char>
    decreases s.len(),
{
    if suffix.len() > 0 && suffix.is_suffix_of(s) {
        without_suffixes(s.take(s.len() - suffix.len()), suffix)
    } else {
        s
    }
}

/// `s` with every `suffix` taken off its end.
pub fn strip_suffixes(s: &str, suffix: &str) -> (r: String)
    ensures
        r@ == without_suffixes(s@, suffix@),
{
    let n: usize = chars_of(suffix).len();
    let mut out = s.to_owned();
    if n == 0 {
        return out;
    }
    while ends(out.as_str(), suffix)
        invariant
            n == suffix@.len(),
            n > 0,
            without_suffixes(out@, suffix@) == without_suffixes(s@, suffix@),
        decreases out@.len(),
    {
        let chars = chars_of(out.as_str());
        let ghost before = out@;
        out = text_of(&chars, 0, chars.len() - n);
        proof {
            assert(out@ =~= before.take(before.len() - n));
        }
    }
    out
}

/// The parts with `sep` between each two.
pub open spec fn joined(parts: Seq<Seq<char>>, sep: Seq<char>) -> Seq<char>
    decreases parts.len(),
{
    if parts.len() == 0 {
        Seq::empty()
    } else if parts.len() == 1 {
        parts[0]
    } else {
        joined(parts.drop_last(), sep) + sep + parts.last()
    }
}

/// The parts with `sep` between each two.
pub fn join_texts(parts: &Vec<String>, sep: &str) -> (r: String)
    ensures
        r@ == joined(texts(parts@), sep@),
{
    let ghost all = texts(parts@);
    let mut out = String::new();
    let mut i: usize = 0;
    while i < parts.len()
        invariant
            all == texts(parts@),
            i <= parts.len(),
            out@ == joined(all.take(i as int), sep@),
        decreases parts.len() - i,
    {
        if i > 0 {
            out.append(sep);
        }
        out.append(parts[i].as_str());
        proof {
            let now = all.take(i + 1);
            assert(now.drop_last() =~= all.take(i as int));
            assert(now.last() == parts@[i as int]@);
            if i == 0 {
                assert(out@ =~= now[0]);
            }
        }
        i += 1;
    }
    proof {
        assert(all.take(i as int) =~= all);
    }
    out
}

/// `c` with an ASCII capital made small.
pub open spec fn ascii_small(c: char) -> char {
    if 'A' <= c && c <= 'Z' {
        (c as u8 + 32) as char
    } else {
        c
    }
}

/// `s` with its ASCII capitals made small.
pub open spec fn ascii_lower(s: Seq<char>) -> Seq<char> {
    s.map_values(|c: char| ascii_small(c))
}

/// `s` with its ASCII capitals made small.
pub fn ascii_lowered(s: &str) -> (r: String)
    ensures
        r@ == ascii_lower(s@),
{
    let chars = chars_of(s);
    let mut out = String::new();
    let mut i: usize = 0;
    while i < chars.len()
        invariant
            chars@ == s@,
            i <= chars.len(),
            out@ == ascii_lower(s@.take(i as int)),
        decreases chars.len() - i,
    {
        let c = chars[i];
        let small: char = if 'A' <= c && c <= 'Z' {
            (c as u8 + 32) as char
        } else {
            c
        };
        out.push(small);
        proof {
            assert(ascii_lower(s@.take(i + 1)) =~= ascii_lower(s@.take(i as int)).push(small));
        }
        i += 1;
    }
    proof {
        assert(s@.take(i as int) =~= s@);
    }
    out
}

/// Are the two texts the same but for the case of ASCII letters?
pub fn same_ignoring_case(a: &str, b: &str) -> (r: bool)
    ensures
        r == (ascii_lower(a@) == ascii_lower(b@)),
{
    same(ascii_lowered(a).as_str(), ascii_lowered(b).as_str())
}

/// Every character is an ASCII character.
pub open spec fn is_ascii(s: Seq<char>) -> bool {
    forall|i: int| 0 <= i < s.len() ==> (#[trigger] s[i]) as u32 <= 0x7f
}

/// The lowercase of a text that is not all ASCII, as `str::to_lowercase` maps it.
pub uninterp spec fn unicode_lowercase(s: Seq<char>) -> Seq<char>;

/// The lowercase of a text. ASCII text is mapped letter by letter.
pub open spec fn lowercase(s: Seq<char>) -> Seq<char> {
    if is_ascii(s) {
        ascii_lower(s)
    } else {
        unicode_lowercase(s)
    }
}

/// Lowercasing ASCII text brings in no character but small letters.
pub proof fn lemma_lowercase_has_no(s: Seq<char>, c: char)
    requires
        is_ascii(s),
        !s.contains(c),
        !('a' <= c && c <= 'z'),
    ensures
        !lowercase(s).contains(c),
{
    if lowercase(s).contains(c) {
        let i = choose|i: int| 0 <= i < lowercase(s).len() && lowercase(s)[i] == c;
        assert(lowercase(s)[i] == ascii_small(s[i]));
        assert(s.contains(s[i]));
    }
}

/// `str::to_lowercase` applies the locale-independent Unicode mapping, which on
/// ASCII text is that of `str::to_ascii_lowercase`; on any other its result is a
/// function of the text alone.
#[verifier::external_body]
pub(crate) fn lowered(s: &str) -> (r: String)
    ensures
        r@ == (if is_ascii(s@) {
            ascii_lower(s@)
        } else {
            unicode_lowercase(s@)
        }),
{
    s.to_lowercase()
}

/// A text in double quotes with its special characters escaped, as the `Debug`
/// form of `str` renders it.
pub uninterp spec fn quote(s: Seq<char>) -> Seq<char>;

/// The `Debug` form of `str`: its result is a function of the text alone.
#[verifier::external_body]
pub(crate) fn quoted(s: &str) -> (r: String)
    ensures
        r@ == quote(s@),
{
    format!("{s:?}")
}

// ---------------------------------------------------------------------------
// Laws
// ---------------------------------------------------------------------------

/// Every character is white space.
pub open spec fn all_white(s: Seq<char>) -> bool {
    forall|i: int| 0 <= i < s.len() ==> white_space(#[trigger] s[i])
}

proof fn lemma_skip_white(s: Seq<char>, i: int)
    requires
        0 <= i <= s.len(),
    ensures
        i <= skip_white(s, i) <= s.len(),
        skip_white(s, i) < s.len() ==> !white_space(s[skip_white(s, i)]),
        forall|j: int| i <= j < skip_white(s, i) ==> white_space(#[trigger] s[j]),
    decreases s.len() - i,
{
    if i < s.len() && white_space(s[i]) {
        lemma_skip_white(s, i + 1);
    }
}

proof fn lemma_drop_white(s: Seq<char>, n: int)
    requires
        0 <= n <= s.len(),
    ensures
        0 <= drop_white(s, n) <= n,
        drop_white(s, n) > 0 ==> !white_space(s[drop_white(s, n) - 1]),
        forall|j: int| drop_white(s, n) <= j < n ==> white_space(#[trigger] s[j]),
    decreases n,
{
    if 0 < n && white_space(s[n - 1]) {
        lemma_drop_white(s, n - 1);
    }
}

/// Trimming takes white space from both ends and nothing else: what is left neither
/// begins nor ends with any, and what is taken is nothing but white space.
pub proof fn law_trimming_takes_white_space_from_the_ends(s: Seq<char>)
    ensures
        trim(s).len() > 0 ==> !white_space(trim(s)[0]) && !white_space(trim(s).last()),
        exists|a: Seq<char>, b: Seq<char>|
            all_white(a) && all_white(b) && s == #[trigger] (a + trim(s) + b),
{
    let end = drop_white(s, s.len() as int);
    lemma_drop_white(s, s.len() as int);
    let head = s.take(end);
    lemma_skip_white(head, 0);
    let start = skip_white(head, 0);
    let a = s.take(start);
    let b = s.skip(end);
    assert forall|i: int| 0 <= i < a.len() implies white_space(#[trigger] a[i]) by {
        assert(head[i] == a[i]);
    }
    assert forall|i: int| 0 <= i < b.len() implies white_space(#[trigger] b[i]) by {
        assert(s[end + i] == b[i]);
    }
    assert(s =~= a + trim(s) + b);
    if trim(s).len() > 0 {
        assert(trim(s)[0] == head[start]);
        assert(trim(s).last() == s[end - 1]);
    }
}

proof fn lemma_next_char(s: Seq<char>, c: char, i: int)
    requires
        0 <= i <= s.len(),
    ensures
        i <= next_char(s, c, i) <= s.len(),
        next_char(s, c, i) < s.len() ==> s[next_char(s, c, i)] == c,
        forall|j: int| i <= j < next_char(s, c, i) ==> #[trigger] s[j] != c,
    decreases s.len() - i,
{
    if i < s.len() && s[i] != c {
        lemma_next_char(s, c, i + 1);
    }
}

/// Joined from the front: the first text, then each further one behind `sep`.
pub open spec fn joined_front(parts: Seq<Seq<char>>, sep: Seq<char>) -> Seq<char>
    decreases parts.len(),
{
    if parts.len() == 0 {
        Seq::empty()
    } else if parts.len() == 1 {
        parts[0]
    } else {
        parts[0] + sep + joined_front(parts.drop_first(), sep)
    }
}

proof fn lemma_joined_front(parts: Seq<Seq<char>>, sep: Seq<char>)
    ensures
        joined_front(parts, sep) == joined(parts, sep),
    decreases parts.len(),
{
    if parts.len() == 2 {
        assert(joined_front(parts.drop_first(), sep) == parts[1]);
        assert(joined(parts.drop_last(), sep) == parts[0]);
    } else if parts.len() > 2 {
        let tail = parts.drop_first();
        let init = parts.drop_last();
        lemma_joined_front(tail, sep);
        lemma_joined_front(init, sep);
        lemma_joined_front(init.drop_first(), sep);
        assert(tail.drop_last() =~= init.drop_first());
        assert(joined(tail, sep) == joined(tail.drop_last(), sep) + sep + parts.last());
        assert(joined(init, sep) == parts[0] + sep + joined_front(init.drop_first(), sep));
        assert(joined_front(parts, sep) =~= joined(parts, sep));
    }
}

proof fn lemma_split_from(s: Seq<char>, c: char, i: int)
    requires
        0 <= i <= s.len(),
    ensures
        split_from(s, c, i).len() > 0,
        forall|k: int|
            0 <= k < split_from(s, c, i).len() ==> !(#[trigger] split_from(s, c, i)[k]).contains(c),
        joined_front(split_from(s, c, i), seq![c]) == s.skip(i),
    decreases s.len() - i,
{
    lemma_next_char(s, c, i);
    let j = next_char(s, c, i);
    let all = split_from(s, c, i);
    assert(!s.subrange(i, j).contains(c)) by {
        if s.subrange(i, j).contains(c) {
            let k = choose|k: int| 0 <= k < j - i && s.subrange(i, j)[k] == c;
            assert(s[i + k] == c);
        }
    }
    if j < s.len() {
        lemma_split_from(s, c, j + 1);
        let rest = split_from(s, c, j + 1);
        assert(all.drop_first() =~= rest);
        assert(s.skip(i) =~= s.subrange(i, j) + seq![c] + s.skip(j + 1));
        assert forall|k: int| 0 <= k < all.len() implies !(#[trigger] all[k]).contains(c) by {
            if k > 0 {
                assert(all[k] == rest[k - 1]);
            }
        }
    } else {
        assert(s.subrange(i, s.len() as int) =~= s.skip(i));
    }
}

/// Splitting at a character loses nothing: no piece holds it, and the pieces joined
/// by it are the text again.
pub proof fn law_split_pieces_join_to_the_text(s: Seq<char>, c: char)
    ensures
        split(s, c).len() > 0,
        forall|k: int| 0 <= k < split(s, c).len() ==> !(#[trigger] split(s, c)[k]).contains(c),
        joined(split(s, c), seq![c]) == s,
{
    lemma_split_from(s, c, 0);
    lemma_joined_front(split(s, c), seq![c]);
    assert(s.skip(0) =~= s);
}

proof fn lemma_word_end(s: Seq<char>, i: int)
    requires
        0 <= i <= s.len(),
    ensures
        i <= word_end(s, i) <= s.len(),
        word_end(s, i) < s.len() ==> white_space(s[word_end(s, i)]),
        forall|j: int| i <= j < word_end(s, i) ==> !white_space(#[trigger] s[j]),
    decreases s.len() - i,
{
    if i < s.len() && !white_space(s[i]) {
        lemma_word_end(s, i + 1);
    }
}

/// A text without white space.
pub open spec fn is_word(s: Seq<char>) -> bool {
    s.len() > 0 && forall|i: int| 0 <= i < s.len() ==> !white_space(#[trigger] s[i])
}

proof fn lemma_words_from(s: Seq<char>, i: int, k: int)
    requires
        0 <= i <= s.len(),
        0 <= k < words_from(s, i).len(),
    ensures
        is_word(words_from(s, i)[k]),
    decreases s.len() - i,
{
    lemma_skip_white(s, i);
    let a = skip_white(s, i);
    lemma_word_end(s, a);
    let b = word_end(s, a);
    if a < b {
        if k > 0 {
            lemma_words_from(s, b, k - 1);
            assert(words_from(s, i)[k] == words_from(s, b)[k - 1]);
        } else {
            assert forall|j: int| 0 <= j < b - a implies !white_space(
                #[trigger] s.subrange(a, b)[j],
            ) by {
                assert(s[a + j] == s.subrange(a, b)[j]);
            }
        }
    }
}

proof fn lemma_words_behind_white(s: Seq<char>, i: int)
    requires
        0 <= i < s.len(),
        white_space(s[i]),
    ensures
        words_from(s, i) == words_from(s, i + 1),
{
    lemma_skip_white(s, i + 1);
}

/// Words hold no white space; white space before a word is skipped, and the word
/// ends where white space begins.
pub proof fn law_words_are_what_stands_between_blanks(s: Seq<char>, i: int, b: int)
    requires
        0 <= i <= s.len(),
    ensures
        forall|k: int| 0 <= k < words(s).len() ==> is_word(#[trigger] words(s)[k]),
        i < s.len() && white_space(s[i]) ==> words_from(s, i) == words_from(s, i + 1),
        i == s.len() ==> words_from(s, i).len() == 0,
        i < b <= s.len() && is_word(s.subrange(i, b)) && (b == s.len() || white_space(s[b]))
            ==> words_from(s, i) == seq![s.subrange(i, b)] + words_from(s, b),
        words(s) == words_from(s, 0),
{
    assert forall|k: int| 0 <= k < words(s).len() implies is_word(#[trigger] words(s)[k]) by {
        lemma_words_from(s, 0, k);
    }
    if i < s.len() && white_space(s[i]) {
        lemma_words_behind_white(s, i);
    }
    lemma_skip_white(s, i);
    if i < b <= s.len() && is_word(s.subrange(i, b)) && (b == s.len() || white_space(s[b])) {
        assert(s.subrange(i, b)[0] == s[i]);
        assert(skip_white(s, i) == i);
        lemma_word_end(s, i);
        let e = word_end(s, i);
        if e < b {
            assert(s.subrange(i, b)[e - i] == s[e]);
        }
        assert(e == b);
    }
}

/// A clipped text is a beginning of the text that fits, and the longest one.
pub proof fn law_a_clipped_text_is_the_longest_that_fits(s: Seq<char>, max: nat, n: int)
    requires
        0 <= n <= s.len(),
        utf8_len(s.take(n)) <= max,
    ensures
        clip(s, max).is_prefix_of(s),
        utf8_len(clip(s, max)) <= max,
        n <= clip(s, max).len(),
    decreases s.len(),
{
    lemma_clip_fits(s, max);
    if s.len() == 0 || utf8_len(s) <= max {
        assert(s =~= s.subrange(0, s.len() as int));
    } else {
        if n == s.len() {
            assert(s.take(n) =~= s);
        }
        let t = s.drop_last();
        assert(t.take(n) =~= s.take(n));
        law_a_clipped_text_is_the_longest_that_fits(t, max, n);
        let c = clip(t, max);
        assert(c =~= s.subrange(0, c.len() as int));
    }
}

/// A number is written in decimal, digit by digit, and reads back.
pub proof fn law_numbers_read_back(n: nat, d: nat, m: int)
    requires
        d < 10,
    ensures
        number(dec(n)) == Some(n),
        signed_number(dec_int(m)) == Some(m),
        dec(d) == seq![(48 + d) as char],
        n > 0 ==> dec(10 * n + d) == dec(n).push((48 + d) as char),
        number(Seq::empty()) is None,
{
    lemma_number_of_dec(n);
    lemma_signed_number_of_dec(m);
    assert((10 * n + d) / 10 == n && (10 * n + d) % 10 == d) by (nonlinear_arith)
        requires
            d < 10,
    ;
}

/// The remainder behind a prefix is there exactly when the text begins with it.
pub proof fn law_what_follows_a_prefix(s: Seq<char>, prefix: Seq<char>)
    ensures
        following(prefix + s, prefix) == Some(s),
        following(s, prefix) matches Some(r) ==> s == prefix + r,
{
    assert((prefix + s).skip(prefix.len() as int) =~= s);
    assert(prefix.is_prefix_of(prefix + s)) by {
        assert((prefix + s).subrange(0, prefix.len() as int) =~= prefix);
    }
    if prefix.is_prefix_of(s) {
        assert(s =~= prefix + s.skip(prefix.len() as int));
    }
}

/// Without its suffixes a text no longer ends with one, and the suffixes in front
/// of it give the text again.
pub proof fn law_suffixes_are_taken_off(s: Seq<char>, suffix: Seq<char>)
    requires
        suffix.len() > 0,
    ensures
        !suffix.is_suffix_of(without_suffixes(s, suffix)),
        without_suffixes(s + suffix, suffix) == without_suffixes(s, suffix),
        without_suffixes(s, suffix).is_prefix_of(s),
    decreases s.len(),
{
    let t = s + suffix;
    assert(suffix.is_suffix_of(t)) by {
        assert(t.subrange((t.len() - suffix.len()) as int, t.len() as int) =~= suffix);
    }
    assert(t.take(t.len() - suffix.len()) =~= s);
    if suffix.is_suffix_of(s) {
        let u = s.take(s.len() - suffix.len());
        law_suffixes_are_taken_off(u, suffix);
        let r = without_suffixes(s, suffix);
        assert(r =~= s.subrange(0, r.len() as int));
    } else {
        assert(s =~= s.subrange(0, s.len() as int));
    }
}

/// A line ends with its line feed, or with a carriage return before it; a text that
/// ends with a line feed has no line behind it.
pub proof fn law_a_line_ends_with_a_line_feed(s: Seq<char>)
    ensures
        without_return(s + seq!['\r']) == s,
        s.len() == 0 || s.last() != '\r' ==> without_return(s) == s,
        lines(Seq::empty()).len() == 0,
        !s.contains('\n') && s.len() > 0 ==> lines(s) == seq![s],
{
    assert((s + seq!['\r']).drop_last() =~= s);
    lemma_split_from(s, '\n', 0);
    lemma_next_char(s, '\n', 0);
    let e = Seq::<char>::empty();
    assert(split(e, '\n') =~= seq![e.subrange(0, 0)]);
    assert(lines(e) =~= Seq::empty());
    if !s.contains('\n') && s.len() > 0 {
        let j = next_char(s, '\n', 0);
        if j < s.len() {
            assert(s[j] == '\n');
        }
        assert(s.subrange(0, s.len() as int) =~= s);
        assert(split(s, '\n') =~= seq![s]);
        assert(lines(s) =~= seq![s]);
    }
}

/// Small letters: the capitals of ASCII become small, and every other character
/// stays.
pub proof fn law_small_letters(c: char, s: Seq<char>, i: int)
    requires
        0 <= i < s.len(),
    ensures
        'A' <= c && c <= 'Z' ==> ascii_small(c) as int == c as int + 32,
        !('A' <= c && c <= 'Z') ==> ascii_small(c) == c,
        ascii_lower(s).len() == s.len(),
        ascii_lower(s)[i] == ascii_small(s[i]),
        ascii_lower(ascii_lower(s)) == ascii_lower(s),
        is_ascii(s) ==> lowercase(s) == ascii_lower(s),
{
    assert(ascii_lower(ascii_lower(s)) =~= ascii_lower(s));
}

/// The kinds of characters: digits and letters of ASCII, control characters, and
/// white space.
pub proof fn law_characters_have_their_kinds(c: char)
    ensures
        is_digit(c) <==> '0' <= c && c <= '9',
        is_ascii_alnum(c) <==> is_digit(c) || ('a' <= c && c <= 'z') || ('A' <= c && c <= 'Z'),
        is_control(c) <==> c as u32 <= 31 || 127 <= c as u32 <= 159,
        c == ' ' || c == '\t' || c == '\n' || c == '\r' ==> white_space(c),
        is_ascii_alnum(c) ==> !white_space(c) && !is_control(c),
{
}

/// A text is found at its first occurrence, or nowhere.
pub proof fn law_the_first_occurrence_is_found(s: Seq<char>, needle: Seq<char>, i: int)
    ensures
        find_from(s, needle, 0) matches Some(p) ==> occurs_at(s, needle, p) && (0 <= i < p
            ==> !occurs_at(s, needle, i)),
        find_from(s, needle, 0) is None ==> !occurs_at(s, needle, i),
        has(s, needle) <==> find_from(s, needle, 0) is Some,
{
    lemma_find(s, needle);
    if find_from(s, needle, 0) is None {
        lemma_find_none(s, needle, 0);
    } else {
        lemma_none_before(s, needle, 0);
    }
}

proof fn lemma_none_before(s: Seq<char>, needle: Seq<char>, from: int)
    requires
        0 <= from,
        find_from(s, needle, from) is Some,
    ensures
        from <= find_from(s, needle, from)->0,
        forall|i: int|
            from <= i < find_from(s, needle, from)->0 ==> !#[trigger] occurs_at(s, needle, i),
    decreases s.len() - from + 1,
{
    if !occurs_at(s, needle, from) {
        lemma_none_before(s, needle, from + 1);
    }
}

} // verus!
