//! Hexadecimal decoding of submitted challenges and uppercase encoding of
//! generated responses, through the hex crate.
use vstd::prelude::*;

verus! {

/// True for the digits the challenge field accepts: `0-9`, `a-f`, `A-F`.
pub open spec fn is_hex_digit(c: char) -> bool {
    ('0' <= c && c <= '9') || ('a' <= c && c <= 'f') || ('A' <= c && c <= 'F')
}

/// The value of one hex digit.
pub open spec fn hex_digit_val(c: char) -> u8
    recommends
        is_hex_digit(c),
{
    if '0' <= c && c <= '9' {
        (c as u32 - '0' as u32) as u8
    } else if 'a' <= c && c <= 'f' {
        (c as u32 - 'a' as u32 + 10) as u8
    } else {
        (c as u32 - 'A' as u32 + 10) as u8
    }
}

/// True when the whole string is decodable hex: even length, digits only.
pub open spec fn hex_chars_ok(s: Seq<char>) -> bool {
    s.len() % 2 == 0 && (forall|i: int| 0 <= i < s.len() ==> is_hex_digit(#[trigger] s[i]))
}

/// The bytes a hex string decodes to, high nibble first.
pub open spec fn hex_bytes_of(s: Seq<char>) -> Seq<u8>
    recommends
        hex_chars_ok(s),
{
    Seq::new(s.len() / 2, |i: int| (hex_digit_val(s[2 * i]) * 16 + hex_digit_val(s[2 * i + 1])) as u8)
}

/// The uppercase hex digit for a value below 16.
pub open spec fn upper_hex_digit(v: u8) -> char
    recommends
        v < 16,
{
    if v < 10 {
        ('0' as u32 + v as u32) as char
    } else {
        ('A' as u32 + v as u32 - 10) as char
    }
}

/// The uppercase hex spelling of a byte sequence, two digits per byte,
/// high nibble first.
pub open spec fn upper_hex_chars(b: Seq<u8>) -> Seq<char> {
    Seq::new(
        2 * b.len(),
        |i: int|
            if i % 2 == 0 {
                upper_hex_digit(b[i / 2] / 16)
            } else {
                upper_hex_digit(b[i / 2] % 16)
            },
    )
}

/// Relies on `hex::decode`: it succeeds exactly on even-length strings of
/// hex digits (either case), pairing the digits into bytes high nibble
/// first; any other input is an error.
#[verifier::external_body]
pub(crate) fn hex_decode(s: &str) -> (r: Option<Vec<u8>>)
    ensures
        r is Some <==> hex_chars_ok(s@),
        r matches Some(v) ==> v@ == hex_bytes_of(s@),
{
    hex::decode(s).ok()
}

/// Relies on `hex::encode_upper`: two uppercase hex digits per input byte,
/// high nibble first.
#[verifier::external_body]
pub(crate) fn hex_encode_upper(b: &Vec<u8>) -> (r: String)
    ensures
        r@ == upper_hex_chars(b@),
{
    hex::encode_upper(b.as_slice())
}

} // verus!
