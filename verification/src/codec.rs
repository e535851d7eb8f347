//! Byte-level codecs: hexadecimal decoding (through the `hex` crate) and
//! `application/x-www-form-urlencoded` byte serialization (through the
//! `url` crate).

use vstd::prelude::*;

verus! {

// ---------------------------------------------------------------------------
// Hexadecimal
// ---------------------------------------------------------------------------

/// Why a hexadecimal string could not be decoded.
#[derive(Clone, Copy, Debug, PartialEq, Eq, Structural)]
pub enum HexError {
    /// The byte at `index` (shown as the character `c`) is not one of
    /// `0-9`, `a-f`, `A-F`.
    InvalidHexCharacter { c: char, index: usize },
    /// The input has an odd number of bytes.
    OddLength,
    /// The decoded length does not fit the destination.
    InvalidStringLength,
}

/// `b` is one of `0-9`, `a-f`, `A-F`.
pub open spec fn is_hex_digit(b: u8) -> bool {
    (48 <= b <= 57) || (97 <= b <= 102) || (65 <= b <= 70)
}

/// The value of a hexadecimal digit.
pub open spec fn hex_value(b: u8) -> int {
    if 48 <= b <= 57 {
        b - 48
    } else if 97 <= b <= 102 {
        b - 97 + 10
    } else {
        b - 65 + 10
    }
}

/// The first position at or after `i` that holds no hexadecimal digit.
pub open spec fn first_non_hex_from(s: Seq<u8>, i: int) -> Option<int>
    decreases s.len() - i,
{
    if i < 0 || i >= s.len() {
        None
    } else if !is_hex_digit(s[i]) {
        Some(i)
    } else {
        first_non_hex_from(s, i + 1)
    }
}

/// The bytes that pairs of hexadecimal digits stand for.
pub open spec fn hex_pairs(s: Seq<u8>) -> Seq<u8> {
    Seq::new(s.len() / 2, |i: int| (hex_value(s[2 * i]) * 16 + hex_value(s[2 * i + 1])) as u8)
}

/// What `hex::decode` gives for `s`: an error for an odd length, else an
/// error at the first byte that is no hexadecimal digit, else the bytes.
pub open spec fn hex_decode(s: Seq<u8>) -> Result<Seq<u8>, HexError> {
    if s.len() % 2 != 0 {
        Err(HexError::OddLength)
    } else {
        match first_non_hex_from(s, 0) {
            Some(j) => Err(HexError::InvalidHexCharacter { c: (s[j] as char), index: j as usize }),
            None => Ok(hex_pairs(s)),
        }
    }
}

/// Decodes a hexadecimal string (`hex::decode`).
///
/// Trusted: the contract says that the call gives exactly `hex_decode`: an
/// odd length is refused first, then the first non-digit byte is reported
/// with its position, and otherwise each pair of digits (either case)
/// becomes one byte, high digit first.
#[verifier::external_body]
pub fn decode_hex(data: &[u8]) -> (r: Result<Vec<u8>, HexError>)
    ensures
        match r {
            Ok(v) => hex_decode(data@) == Ok::<Seq<u8>, HexError>(v@),
            Err(e) => hex_decode(data@) == Err::<Seq<u8>, HexError>(e),
        },
{
    match hex::decode(data) {
        Ok(v) => Ok(v),
        Err(hex::FromHexError::InvalidHexCharacter { c, index }) => Err(
            HexError::InvalidHexCharacter { c, index },
        ),
        Err(hex::FromHexError::OddLength) => Err(HexError::OddLength),
        Err(hex::FromHexError::InvalidStringLength) => Err(HexError::InvalidStringLength),
    }
}

// ---------------------------------------------------------------------------
// Form URL encoding
// ---------------------------------------------------------------------------

/// Bytes that the form serializer leaves as they are.
pub open spec fn form_unchanged(b: u8) -> bool {
    b == 42 || b == 45 || b == 46 || (48 <= b <= 57) || (65 <= b <= 90) || b == 95 || (97 <= b
        <= 122)
}

/// The upper-case hexadecimal digit for a value below sixteen.
pub open spec fn hex_upper(d: int) -> char {
    if d < 10 {
        (48 + d) as char
    } else {
        (55 + d) as char
    }
}

/// How the form serializer writes one byte.
pub open spec fn form_byte(b: u8) -> Seq<char> {
    if form_unchanged(b) {
        seq![b as char]
    } else if b == 32 {
        seq!['+']
    } else {
        seq!['%', hex_upper(b as int / 16), hex_upper(b as int % 16)]
    }
}

/// The `application/x-www-form-urlencoded` byte serialization of `bytes`.
pub open spec fn form_urlencoded(bytes: Seq<u8>) -> Seq<char>
    decreases bytes.len(),
{
    if bytes.len() == 0 {
        Seq::empty()
    } else {
        form_urlencoded(bytes.drop_last()) + form_byte(bytes.last())
    }
}

/// Serializes bytes for a query string
/// (`url::form_urlencoded::byte_serialize`, pieces joined).
///
/// Trusted: the contract says that each byte among `*-._`, ASCII digits
/// and letters is kept, a space becomes `+`, and any other byte becomes
/// `%` and two upper-case hexadecimal digits, in input order.
#[verifier::external_body]
pub fn form_urlencode(input: &[u8]) -> (r: String)
    ensures
        r@ == form_urlencoded(input@),
{
    url::form_urlencoded::byte_serialize(input).collect()
}

} // verus!
