//! Hexadecimal encoding and decoding, and the hex seed parser.
//!
//! Encoding and decoding call the `hex` crate through trusted wrappers whose
//! contracts state the exact byte-to-digit correspondence that the crate's
//! documentation promises: lowercase pairs on encode; decode succeeds exactly
//! on even-length all-hex-digit input.

use vstd::prelude::*;

verus! {

/// Is `b` the byte of an ASCII hexadecimal digit?
pub open spec fn is_hex_digit_byte(b: u8) -> bool {
    (48 <= b <= 57) || (97 <= b <= 102) || (65 <= b <= 70)
}

/// The numeric value of an ASCII hexadecimal digit byte.
pub open spec fn hex_digit_val(b: u8) -> int
    recommends
        is_hex_digit_byte(b),
{
    if 48 <= b <= 57 {
        b - 48
    } else if 97 <= b <= 102 {
        b - 97 + 10
    } else {
        b - 65 + 10
    }
}

/// The lowercase hexadecimal character for a nibble value.
pub open spec fn hex_char_of(v: int) -> char
    recommends
        0 <= v < 16,
{
    if v == 0 {
        '0'
    } else if v == 1 {
        '1'
    } else if v == 2 {
        '2'
    } else if v == 3 {
        '3'
    } else if v == 4 {
        '4'
    } else if v == 5 {
        '5'
    } else if v == 6 {
        '6'
    } else if v == 7 {
        '7'
    } else if v == 8 {
        '8'
    } else if v == 9 {
        '9'
    } else if v == 10 {
        'a'
    } else if v == 11 {
        'b'
    } else if v == 12 {
        'c'
    } else if v == 13 {
        'd'
    } else if v == 14 {
        'e'
    } else {
        'f'
    }
}

/// The lowercase hexadecimal rendering of a byte sequence: two digits per
/// byte, high nibble first.
pub open spec fn hex_of(b: Seq<u8>) -> Seq<char> {
    Seq::new(b.len() * 2, |i: int| hex_char_of(
        if i % 2 == 0 {
            b[i / 2] / 16
        } else {
            b[i / 2] % 16
        } as int,
    ))
}

/// Every byte of `h` is an ASCII hexadecimal digit and their count is even.
pub open spec fn is_valid_hex(h: Seq<u8>) -> bool {
    &&& h.len() % 2 == 0
    &&& forall|i: int| 0 <= i < h.len() ==> is_hex_digit_byte(#[trigger] h[i])
}

/// The bytes denoted by a valid hexadecimal digit sequence.
pub open spec fn hex_decoded(h: Seq<u8>) -> Seq<u8>
    recommends
        is_valid_hex(h),
{
    Seq::new(h.len() / 2, |i: int| (hex_digit_val(h[2 * i]) * 16 + hex_digit_val(
        h[2 * i + 1],
    )) as u8)
}

/// Relies on `hex::encode`: each input byte becomes two lowercase
/// hexadecimal digits, high nibble first.
#[verifier::external_body]
pub fn hex_encode(b: &[u8]) -> (r: String)
    ensures
        r@ == hex_of(b@),
{
    hex::encode(b)
}

/// Relies on `hex::decode`: decoding succeeds exactly when the input holds
/// an even count of ASCII hexadecimal digit bytes, and then yields one byte
/// per digit pair.
#[verifier::external_body]
pub fn hex_decode(h: &[u8]) -> (r: Option<Vec<u8>>)
    ensures
        r is Some <==> is_valid_hex(h@),
        r is Some ==> r->Some_0@ == hex_decoded(h@),
{
    match hex::decode(h) {
        Ok(v) => Some(v),
        Err(_) => None,
    }
}

} // verus!
