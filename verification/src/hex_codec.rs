//! Hex encoding and decoding of byte strings, as the intake pipeline uses them for
//! artifact digests, registered public keys and detached signatures.
//!
//! The executable conversions are done by the `hex` crate; the spec
//! functions here say exactly what those conversions return.

use vstd::prelude::*;

verus! {

/// Value of one hex digit, or -1 for any character that is not an ASCII
/// hex digit. Both cases are accepted, as the decoder accepts both.
pub open spec fn hex_digit_value(c: char) -> int {
    if '0' <= c && c <= '9' {
        c as int - '0' as int
    } else if 'a' <= c && c <= 'f' {
        10 + c as int - 'a' as int
    } else if 'A' <= c && c <= 'F' {
        10 + c as int - 'A' as int
    } else {
        -1
    }
}

pub open spec fn is_hex_digit(c: char) -> bool {
    hex_digit_value(c) >= 0
}

/// A character string decodes as hex iff every character is an ASCII hex
/// digit and the length is even.
pub open spec fn is_hex_seq(s: Seq<char>) -> bool {
    s.len() % 2 == 0 && forall|i: int| 0 <= i < s.len() ==> is_hex_digit(#[trigger] s[i])
}

/// The bytes denoted by a hex character string, two digits per byte, the
/// first digit high. Meaningful only where `is_hex_seq` holds.
pub open spec fn bytes_of_hex(s: Seq<char>) -> Seq<u8>
    decreases s.len(),
{
    if s.len() < 2 {
        seq![]
    } else {
        seq![(hex_digit_value(s[0]) * 16 + hex_digit_value(s[1])) as u8] + bytes_of_hex(
            s.skip(2),
        )
    }
}

/// The lowercase hex digit for a value below 16.
pub open spec fn hex_char_lower(v: int) -> char {
    if v == 0 {
        '0'
    } else if v == 1 {
        '1'
    } else if v == 2 {
        '2'
    } else if v == 3 {
        '3'
    } else if v == 4 {
        '4'
    } else if v == 5 {
        '5'
    } else if v == 6 {
        '6'
    } else if v == 7 {
        '7'
    } else if v == 8 {
        '8'
    } else if v == 9 {
        '9'
    } else if v == 10 {
        'a'
    } else if v == 11 {
        'b'
    } else if v == 12 {
        'c'
    } else if v == 13 {
        'd'
    } else if v == 14 {
        'e'
    } else {
        'f'
    }
}

/// The lowercase hex encoding of a byte string, two digits per byte, the
/// high digit first.
pub open spec fn hex_of(bs: Seq<u8>) -> Seq<char>
    decreases bs.len(),
{
    if bs.len() == 0 {
        seq![]
    } else {
        seq![hex_char_lower(bs[0] as int / 16), hex_char_lower(bs[0] as int % 16)] + hex_of(
            bs.drop_first(),
        )
    }
}

/// Relies on `hex::encode`: each input byte becomes two lowercase hex
/// digits, high digit first, in input order.
#[verifier::external_body]
pub fn hex_encode(b: &Vec<u8>) -> (r: String)
    ensures
        r@ == hex_of(b@),
{
    hex::encode(b)
}

/// Relies on `hex::decode`: it succeeds exactly on strings of ASCII hex
/// digits (either case) of even length, and then returns the denoted
/// bytes; an odd length or any other character is an error.
#[verifier::external_body]
pub fn hex_decode(s: &str) -> (r: Option<Vec<u8>>)
    ensures
        r is Some <==> is_hex_seq(s@),
        r matches Some(b) ==> b@ == bytes_of_hex(s@),
{
    match hex::decode(s) {
        Ok(b) => Some(b),
        Err(_) => None,
    }
}

} // verus!
