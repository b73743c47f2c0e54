//! Reading and writing `#RRGGBB` colour codes.
//!
//! A code is read byte by byte: every leading `#` is dropped, exactly six bytes
//! must remain, and each pair of bytes is one channel, written as two hex digits.
use vstd::prelude::*;
use crate::text::{push_char, push_hex_byte, hex_byte, string_with_capacity};
use vstd::utf8::{encode_utf8, is_ascii_chars, is_ascii_chars_encode_utf8};

verus! {

/// `bytes` with every leading `#` removed.
pub open spec fn strip_hashes(bytes: Seq<u8>) -> Seq<u8>
    decreases bytes.len(),
{
    if bytes.len() > 0 && bytes[0] == 0x23 {
        strip_hashes(bytes.drop_first())
    } else {
        bytes
    }
}

/// The value of an ASCII hex digit, either case.
pub open spec fn hex_digit_value(c: u8) -> Option<u8> {
    if 0x30 <= c <= 0x39 {
        Some((c - 0x30) as u8)
    } else if 0x41 <= c <= 0x46 {
        Some((c - 0x41 + 10) as u8)
    } else if 0x61 <= c <= 0x66 {
        Some((c - 0x61 + 10) as u8)
    } else {
        None
    }
}

/// The value of two hex digits, the first the higher.
pub open spec fn hex_pair_value(a: u8, b: u8) -> Option<u8> {
    match (hex_digit_value(a), hex_digit_value(b)) {
        (Some(x), Some(y)) => Some((16 * x + y) as u8),
        _ => None,
    }
}

/// Why a colour code was refused.
#[derive(Clone, Copy, Debug, PartialEq, Eq)]
pub enum ColorError {
    /// Not exactly six bytes after the leading `#`s.
    InvalidLength,
    /// A pair of bytes is not two hex digits.
    ParseInt,
}

/// The channels that a code (its leading `#`s already dropped) stands for.
pub open spec fn spec_parse_channels(code: Seq<u8>) -> Result<(u8, u8, u8), ColorError> {
    if code.len() != 6 {
        Err(ColorError::InvalidLength)
    } else {
        match (
            hex_pair_value(code[0], code[1]),
            hex_pair_value(code[2], code[3]),
            hex_pair_value(code[4], code[5]),
        ) {
            (Some(r), Some(g), Some(b)) => Ok((r, g, b)),
            _ => Err(ColorError::ParseInt),
        }
    }
}

/// What reading the colour code `hex` gives.
pub open spec fn spec_parse_hex(hex: Seq<u8>) -> Result<(u8, u8, u8), ColorError> {
    spec_parse_channels(strip_hashes(hex))
}

fn digit_value(c: u8) -> (r: Option<u8>)
    ensures
        r == hex_digit_value(c),
{
    if 0x30 <= c && c <= 0x39 {
        Some(c - 0x30)
    } else if 0x41 <= c && c <= 0x46 {
        Some(c - 0x41 + 10)
    } else if 0x61 <= c && c <= 0x66 {
        Some(c - 0x61 + 10)
    } else {
        None
    }
}

fn pair_value(a: u8, b: u8) -> (r: Option<u8>)
    ensures
        r == hex_pair_value(a, b),
{
    match (digit_value(a), digit_value(b)) {
        (Some(x), Some(y)) => Some(16 * x + y),
        _ => None,
    }
}

proof fn lemma_strip_hashes_skip(bytes: Seq<u8>, start: int)
    requires
        0 <= start < bytes.len(),
        bytes[start] == 0x23,
    ensures
        strip_hashes(bytes.subrange(start, bytes.len() as int)) == strip_hashes(
            bytes.subrange(start + 1, bytes.len() as int),
        ),
{
    assert(bytes.subrange(start, bytes.len() as int).drop_first() == bytes.subrange(
        start + 1,
        bytes.len() as int,
    ));
}

/// Reads the colour code `bytes`: the red, green and blue channels, or why not.
pub fn parse_hex_bytes(bytes: &[u8]) -> (r: Result<(u8, u8, u8), ColorError>)
    ensures
        r == spec_parse_hex(bytes@),
{
    let n = bytes.len();
    let mut start: usize = 0;
    assert(bytes@.subrange(0, n as int) == bytes@);
    while start < n && bytes[start] == 0x23
        invariant
            n == bytes@.len(),
            start <= n,
            strip_hashes(bytes@) == strip_hashes(bytes@.subrange(start as int, n as int)),
        decreases n - start,
    {
        proof {
            lemma_strip_hashes_skip(bytes@, start as int);
        }
        start = start + 1;
    }
    let ghost code = bytes@.subrange(start as int, n as int);
    assert(strip_hashes(code) == code);
    if n - start != 6 {
        return Err(ColorError::InvalidLength);
    }
    assert(code[0] == bytes@[start as int]);
    let red = match pair_value(bytes[start], bytes[start + 1]) {
        Some(v) => v,
        None => {
            return Err(ColorError::ParseInt);
        },
    };
    let green = match pair_value(bytes[start + 2], bytes[start + 3]) {
        Some(v) => v,
        None => {
            return Err(ColorError::ParseInt);
        },
    };
    let blue = match pair_value(bytes[start + 4], bytes[start + 5]) {
        Some(v) => v,
        None => {
            return Err(ColorError::ParseInt);
        },
    };
    Ok((red, green, blue))
}

/// Reads the colour code `hex`: the red, green and blue channels, or why not.
pub fn parse_hex(hex: &str) -> (r: Result<(u8, u8, u8), ColorError>)
    ensures
        r == spec_parse_hex(encode_utf8(hex@)),
{
    parse_hex_bytes(hex.as_bytes())
}

/// `#RRGGBB`, with upper-case hex digits.
pub open spec fn spec_hex_code(red: u8, green: u8, blue: u8) -> Seq<char> {
    seq!['#'] + hex_byte(red) + hex_byte(green) + hex_byte(blue)
}

/// Writes `#RRGGBB`, with upper-case hex digits.
pub fn hex_code(red: u8, green: u8, blue: u8) -> (s: String)
    ensures
        s@ == spec_hex_code(red, green, blue),
{
    let mut s = string_with_capacity(7);
    push_char(&mut s, '#');
    push_hex_byte(&mut s, red);
    push_hex_byte(&mut s, green);
    push_hex_byte(&mut s, blue);
    assert(s@ == spec_hex_code(red, green, blue));
    s
}

impl ColorError {
    /// The message for this error.
    pub open spec fn spec_message(&self) -> Seq<char> {
        match self {
            ColorError::InvalidLength =>
                "Invalid length! Hex data length must be exactly 6 characters!"@,
            ColorError::ParseInt => "Integer parsing error: invalid digit found in string!"@,
        }
    }

    /// The message for this error.
    pub fn to_string(&self) -> (s: String)
        ensures
            s@ == self.spec_message(),
    {
        match self {
            ColorError::InvalidLength => {
                "Invalid length! Hex data length must be exactly 6 characters!".to_string()
            },
            ColorError::ParseInt => {
                "Integer parsing error: invalid digit found in string!".to_string()
            },
        }
    }
}

/// The bytes of a code written by [`hex_code`].
pub open spec fn hex_code_bytes(red: u8, green: u8, blue: u8) -> Seq<u8> {
    seq![0x23u8] + hex_byte_ascii(red) + hex_byte_ascii(green) + hex_byte_ascii(blue)
}

/// The ASCII bytes of an upper-case hex digit.
pub open spec fn hex_digit_byte(d: nat) -> u8 {
    if d < 10 {
        (0x30 + d) as u8
    } else {
        (0x41 + d - 10) as u8
    }
}

/// The two ASCII bytes of a byte in upper-case hex.
pub open spec fn hex_byte_ascii(b: u8) -> Seq<u8> {
    seq![hex_digit_byte(b as nat / 16), hex_digit_byte(b as nat % 16)]
}

proof fn lemma_hex_byte_roundtrip(b: u8)
    ensures
        hex_pair_value(hex_digit_byte(b as nat / 16), hex_digit_byte(b as nat % 16)) == Some(b),
{
}

/// Reading back the code written for three channels gives the same channels.
pub proof fn law_hex_code_roundtrip(red: u8, green: u8, blue: u8)
    ensures
        spec_parse_hex(encode_utf8(spec_hex_code(red, green, blue))) == Ok::<
            (u8, u8, u8),
            ColorError,
        >((red, green, blue)),
{
    lemma_hex_code_bytes(red, green, blue);
    let code = hex_code_bytes(red, green, blue);
    let rest = hex_byte_ascii(red) + hex_byte_ascii(green) + hex_byte_ascii(blue);
    assert(code.drop_first() == rest);
    assert(rest.len() == 6);
    assert(rest[0] != 0x23u8);
    assert(strip_hashes(rest) == rest);
    assert(strip_hashes(code) == rest);
    lemma_hex_byte_roundtrip(red);
    lemma_hex_byte_roundtrip(green);
    lemma_hex_byte_roundtrip(blue);
}

/// The code written for a colour is ASCII, so its bytes are its characters.
proof fn lemma_hex_code_bytes(red: u8, green: u8, blue: u8)
    ensures
        encode_utf8(spec_hex_code(red, green, blue)) == hex_code_bytes(red, green, blue),
{
    let chars = spec_hex_code(red, green, blue);
    let bytes = hex_code_bytes(red, green, blue);
    assert(is_ascii_chars(chars));
    is_ascii_chars_encode_utf8(chars);
    assert forall|i: int| 0 <= i < 7 implies encode_utf8(chars)[i] == bytes[i] by {
        assert(chars[i] as u8 == encode_utf8(chars)[i]);
    }
    assert(encode_utf8(chars) =~= bytes);
}

} // verus!
