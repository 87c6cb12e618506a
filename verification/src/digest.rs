//! SHA-256 digests in hexadecimal.

use sha2::Digest;
use vstd::prelude::*;

verus! {

/// The SHA-256 digest of a byte string.
pub uninterp spec fn sha256(data: Seq<u8>) -> Seq<u8>;

/// `sha2::Sha256::digest`: the digest is 32 bytes and a function of the data
/// alone.
#[verifier::external_body]
pub(crate) fn sha256_of(data: &[u8]) -> (r: Vec<u8>)
    ensures
        r@ == sha256(data@),
        r.len() == 32,
{
    sha2::Sha256::digest(data).to_vec()
}

/// The lowercase hexadecimal digit of a value below sixteen.
pub open spec fn hex_digit(v: int) -> char {
    if v < 10 {
        (48 + v) as char
    } else {
        (87 + v) as char
    }
}

/// Two lowercase hexadecimal digits for each byte, high half first.
pub open spec fn hex_text(data: Seq<u8>) -> Seq<char> {
    Seq::new(
        2 * data.len(),
        |i: int| if i % 2 == 0 { hex_digit(data[i / 2] as int / 16) } else { hex_digit(data[i / 2] as int % 16) },
    )
}

/// `hex::encode`: two lowercase digits for each byte, high half first.
#[verifier::external_body]
pub(crate) fn hex_of(data: &[u8]) -> (r: String)
    ensures
        r@ == hex_text(data@),
{
    hex::encode(data)
}

/// The hexadecimal SHA-256 digest of a text.
pub open spec fn text_digest(text: Seq<char>) -> Seq<char> {
    hex_text(sha256(vstd::utf8::encode_utf8(text)))
}

/// The hexadecimal SHA-256 digest of a text.
pub fn digest_text(text: &str) -> (r: String)
    ensures
        r@ == text_digest(text@),
{
    let d = sha256_of(text.as_bytes());
    hex_of(d.as_slice())
}

/// The hexadecimal SHA-256 digest of a byte string.
pub fn digest_bytes(data: &[u8]) -> (r: String)
    ensures
        r@ == hex_text(sha256(data@)),
{
    let d = sha256_of(data);
    hex_of(d.as_slice())
}

/// Two small hexadecimal digits for each byte, the higher half first; the digest of
/// a text is that of its bytes.
pub proof fn law_digests_are_written_in_hexadecimal(data: Seq<u8>, i: int, text: Seq<char>)
    requires
        0 <= i < data.len(),
    ensures
        hex_text(data).len() == 2 * data.len(),
        hex_text(data)[2 * i] == hex_digit(data[i] as int / 16),
        hex_text(data)[2 * i + 1] == hex_digit(data[i] as int % 16),
        hex_digit(9) == '9',
        hex_digit(10) == 'a',
        hex_digit(15) == 'f',
        text_digest(text) == hex_text(sha256(vstd::utf8::encode_utf8(text))),
{
}

} // verus!
