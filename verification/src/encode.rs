//! Textual encodings of byte buffers: lowercase hex and standard base64.
//!
//! Every field a payload or response exposes goes through one of these two
//! encoders; the hex decoder serves the request paths that accept hex input.

use base64::Engine;
use vstd::prelude::*;

verus! {

/// The sixteen lowercase hex digits, in value order.
pub open spec fn hex_digits() -> Seq<char> {
    seq!['0', '1', '2', '3', '4', '5', '6', '7', '8', '9', 'a', 'b', 'c', 'd', 'e', 'f']
}

/// The lowercase hex encoding of a byte sequence: each byte becomes two
/// digits, high nibble first.
pub open spec fn hex_of(bytes: Seq<u8>) -> Seq<char>
    decreases bytes.len(),
{
    if bytes.len() == 0 {
        seq![]
    } else {
        seq![
            hex_digits()[(bytes[0] as int) / 16],
            hex_digits()[(bytes[0] as int) % 16],
        ] + hex_of(bytes.skip(1))
    }
}

/// The value of a hex digit in either case, or -1 for any other character.
pub open spec fn hex_digit_val(c: char) -> int {
    if c == '0' {
        0
    } else if c == '1' {
        1
    } else if c == '2' {
        2
    } else if c == '3' {
        3
    } else if c == '4' {
        4
    } else if c == '5' {
        5
    } else if c == '6' {
        6
    } else if c == '7' {
        7
    } else if c == '8' {
        8
    } else if c == '9' {
        9
    } else if c == 'a' || c == 'A' {
        10
    } else if c == 'b' || c == 'B' {
        11
    } else if c == 'c' || c == 'C' {
        12
    } else if c == 'd' || c == 'D' {
        13
    } else if c == 'e' || c == 'E' {
        14
    } else if c == 'f' || c == 'F' {
        15
    } else {
        -1
    }
}

/// Whether a string is a well-formed hex encoding: even length, hex digits
/// throughout (either case).
pub open spec fn hex_decodable(s: Seq<char>) -> bool {
    &&& s.len() % 2 == 0
    &&& forall|i: int| 0 <= i < s.len() ==> hex_digit_val(s[i]) >= 0
}

/// The bytes a well-formed hex string decodes to: one byte per digit pair.
pub open spec fn hex_decoded(s: Seq<char>) -> Seq<u8>
    decreases s.len(),
{
    if s.len() < 2 {
        seq![]
    } else {
        seq![(hex_digit_val(s[0]) * 16 + hex_digit_val(s[1])) as u8] + hex_decoded(s.skip(2))
    }
}

/// The 64 characters of the standard base64 alphabet, in value order.
pub open spec fn base64_alphabet() -> Seq<char> {
    seq![
        'A', 'B', 'C', 'D', 'E', 'F', 'G', 'H', 'I', 'J', 'K', 'L', 'M',
        'N', 'O', 'P', 'Q', 'R', 'S', 'T', 'U', 'V', 'W', 'X', 'Y', 'Z',
        'a', 'b', 'c', 'd', 'e', 'f', 'g', 'h', 'i', 'j', 'k', 'l', 'm',
        'n', 'o', 'p', 'q', 'r', 's', 't', 'u', 'v', 'w', 'x', 'y', 'z',
        '0', '1', '2', '3', '4', '5', '6', '7', '8', '9', '+', '/',
    ]
}

/// The standard padded base64 encoding of a byte sequence: each 3-byte group
/// becomes four alphabet characters; a 1- or 2-byte tail is padded with '='.
pub open spec fn base64_of(bytes: Seq<u8>) -> Seq<char>
    decreases bytes.len(),
{
    if bytes.len() == 0 {
        seq![]
    } else if bytes.len() == 1 {
        let b0 = bytes[0] as int;
        seq![base64_alphabet()[b0 / 4], base64_alphabet()[(b0 % 4) * 16], '=', '=']
    } else if bytes.len() == 2 {
        let b0 = bytes[0] as int;
        let b1 = bytes[1] as int;
        seq![
            base64_alphabet()[b0 / 4],
            base64_alphabet()[(b0 % 4) * 16 + b1 / 16],
            base64_alphabet()[(b1 % 16) * 4],
            '=',
        ]
    } else {
        let b0 = bytes[0] as int;
        let b1 = bytes[1] as int;
        let b2 = bytes[2] as int;
        seq![
            base64_alphabet()[b0 / 4],
            base64_alphabet()[(b0 % 4) * 16 + b1 / 16],
            base64_alphabet()[(b1 % 16) * 4 + b2 / 64],
            base64_alphabet()[b2 % 64],
        ] + base64_of(bytes.skip(3))
    }
}

/// Encodes bytes as lowercase hex.
///
/// Relies on hex::encode: each byte becomes two lowercase hex digits, high
/// nibble first, in input order.
#[verifier::external_body]
pub fn encode_hex(bytes: &[u8]) -> (r: String)
    ensures
        r@ == hex_of(bytes@),
{
    hex::encode(bytes)
}

/// Decodes a hex string to bytes.
///
/// Relies on hex::decode: it succeeds exactly on even-length strings of hex
/// digits in either case, mapping each digit pair to one byte.
#[verifier::external_body]
pub fn decode_hex(s: &str) -> (r: Result<Vec<u8>, ()>)
    ensures
        r is Ok <==> hex_decodable(s@),
        r is Ok ==> r->Ok_0@ == hex_decoded(s@),
{
    match hex::decode(s) {
        Ok(v) => Ok(v),
        Err(_) => Err(()),
    }
}

/// Encodes bytes as standard padded base64.
///
/// Relies on base64's `STANDARD` engine: the standard alphabet with '='
/// padding, three input bytes to four output characters.
#[verifier::external_body]
pub fn encode_base64(bytes: &[u8]) -> (r: String)
    ensures
        r@ == base64_of(bytes@),
{
    base64::engine::general_purpose::STANDARD.encode(bytes)
}

} // verus!
