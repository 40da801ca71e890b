//! Hex rendering and parsing of byte strings, and the spec-level meaning of
//! both directions.

use vstd::prelude::*;

verus! {

/// A hex digit in either case.
pub open spec fn is_hex_char(c: char) -> bool {
    (('0' as u32) <= (c as u32) && (c as u32) <= ('9' as u32)) || (('a' as u32) <= (c as u32) && (c
        as u32) <= ('f' as u32)) || (('A' as u32) <= (c as u32) && (c as u32) <= ('F' as u32))
}

/// A lowercase hex digit, as the canonical address rendering uses.
pub open spec fn is_lower_hex_char(c: char) -> bool {
    (('0' as u32) <= (c as u32) && (c as u32) <= ('9' as u32)) || (('a' as u32) <= (c as u32) && (c
        as u32) <= ('f' as u32))
}

/// Numeric value of a hex digit of either case.
pub open spec fn hex_val(c: char) -> int
    recommends
        is_hex_char(c),
{
    if ('0' as u32) <= (c as u32) && (c as u32) <= ('9' as u32) {
        (c as u32) - ('0' as u32)
    } else if ('a' as u32) <= (c as u32) && (c as u32) <= ('f' as u32) {
        (c as u32) - ('a' as u32) + 10
    } else {
        (c as u32) - ('A' as u32) + 10
    }
}

/// The lowercase digit for a value below sixteen.
pub open spec fn hex_char_of(v: int) -> char
    recommends
        0 <= v < 16,
{
    if v == 0 {
        '0'
    } else if v == 1 {
        '1'
    } else if v == 2 {
        '2'
    } else if v == 3 {
        '3'
    } else if v == 4 {
        '4'
    } else if v == 5 {
        '5'
    } else if v == 6 {
        '6'
    } else if v == 7 {
        '7'
    } else if v == 8 {
        '8'
    } else if v == 9 {
        '9'
    } else if v == 10 {
        'a'
    } else if v == 11 {
        'b'
    } else if v == 12 {
        'c'
    } else if v == 13 {
        'd'
    } else if v == 14 {
        'e'
    } else {
        'f'
    }
}

/// Lowercase hex rendering of a byte string: two digits per byte, high
/// nibble first.
pub open spec fn hex_of(bytes: Seq<u8>) -> Seq<char> {
    Seq::new(
        bytes.len() * 2,
        |i: int|
            if i % 2 == 0 {
                hex_char_of(bytes[i / 2] as int / 16)
            } else {
                hex_char_of(bytes[i / 2] as int % 16)
            },
    )
}

/// Bytes read from an even-length string of hex digits, pairwise, high
/// nibble first.
pub open spec fn hex_decode_chars(s: Seq<char>) -> Seq<u8>
    recommends
        s.len() % 2 == 0,
{
    Seq::new(s.len() / 2, |i: int| (hex_val(s[2 * i]) * 16 + hex_val(s[2 * i + 1])) as u8)
}

/// The canonical rendering is all lowercase hex digits.
pub proof fn lemma_hex_of_lowercase(bytes: Seq<u8>)
    ensures
        forall|i: int| 0 <= i < hex_of(bytes).len() ==> is_lower_hex_char(#[trigger] hex_of(
            bytes,
        )[i]),
{
    assert forall|i: int| 0 <= i < hex_of(bytes).len() implies is_lower_hex_char(
        #[trigger] hex_of(bytes)[i],
    ) by {
        let b = bytes[i / 2];
        assert(0 <= b / 16 < 16);
        assert(0 <= b % 16 < 16);
    }
}

/// Relies on hex::encode: renders each byte as two lowercase hex digits, in
/// order.
#[verifier::external_body]
pub(crate) fn hex_encode_lower(data: &[u8]) -> (r: String)
    ensures
        r@ == hex_of(data@),
{
    hex::encode(data)
}

/// Relies on hex::decode: succeeds exactly on even-length strings made of hex
/// digits of either case, and pairs the digits into bytes, high nibble first.
#[verifier::external_body]
pub(crate) fn hex_decode(s: &str) -> (r: Option<Vec<u8>>)
    ensures
        r is Some <==> (s@.len() % 2 == 0 && forall|i: int|
            0 <= i < s@.len() ==> is_hex_char(#[trigger] s@[i])),
        r matches Some(v) ==> v@ == hex_decode_chars(s@),
{
    match hex::decode(s) {
        Ok(v) => Some(v),
        Err(_) => None,
    }
}

} // verus!
