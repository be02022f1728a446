//! Hexadecimal digits, and the hex decoder of the `hex` crate.
use vstd::prelude::*;

verus! {

/// Whether a byte is an ASCII hex digit, either case.
pub open spec fn is_hex_byte(c: u8) -> bool {
    (48 <= c && c <= 57) || (97 <= c && c <= 102) || (65 <= c && c <= 70)
}

/// The value of an ASCII hex digit.
pub open spec fn hex_byte_value(c: u8) -> u8 {
    if 48 <= c && c <= 57 {
        (c - 48) as u8
    } else if 97 <= c && c <= 102 {
        (c - 87) as u8
    } else {
        (c - 55) as u8
    }
}

/// Pairs of hex digits read as bytes, the first digit of each pair the high one.
pub open spec fn hex_pairs(s: Seq<u8>) -> Seq<u8> {
    Seq::new(
        s.len() / 2,
        |k: int| (hex_byte_value(s[2 * k]) * 16 + hex_byte_value(s[2 * k + 1])) as u8,
    )
}

/// The lower-case hex digit of a value below 16.
pub open spec fn lower_hex_digit(v: u8) -> u8 {
    if v < 10 {
        (v + 48) as u8
    } else {
        (v + 87) as u8
    }
}

/// Two lower-case hex digits per byte, the high nibble first.
pub open spec fn lower_hex(b: Seq<u8>) -> Seq<u8> {
    Seq::new(
        2 * b.len(),
        |i: int|
            if i % 2 == 0 {
                lower_hex_digit(b[i / 2] / 16)
            } else {
                lower_hex_digit(b[i / 2] % 16)
            },
    )
}

#[verifier::external_type_specification]
#[verifier::external_body]
pub struct ExFromHexError(hex::FromHexError);

/// Relies on `hex::decode`: it succeeds exactly on an even number of hex
/// digits of either case, and then reads each pair as one byte.
#[verifier::external_body]
pub fn hex_decode(s: &[u8]) -> (r: Result<Vec<u8>, hex::FromHexError>)
    ensures
        r is Ok <==> (s@.len() % 2 == 0 && forall|i: int|
            0 <= i < s@.len() ==> is_hex_byte(#[trigger] s@[i])),
        r matches Ok(v) ==> v@ == hex_pairs(s@),
{
    hex::decode(s)
}

/// Relies on `hex::encode`: two lower-case hex digits for each byte.
#[verifier::external_body]
pub fn hex_encode(b: &[u8]) -> (r: Vec<u8>)
    ensures
        r@ == lower_hex(b@),
{
    hex::encode(b).into_bytes()
}

} // verus!
