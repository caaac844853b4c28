//! Parsing of a 16-byte key from its hexadecimal text form: 32 hex digits,
//! upper or lower case, with an optional `0x`/`0X` prefix. The accepted and
//! rejected inputs, and the order the checks run in, follow the usual
//! fixed-size hex decoding convention: an odd number of bytes is rejected
//! first, then the prefix is stripped, then the remaining length must be
//! exactly 32, and only then are the digits themselves examined.

use vstd::prelude::*;

use vstd::string::StringSliceAdditionalSpecFns;

verus! {

/// Why a key string could not be parsed.
#[derive(Clone, Copy, Debug, PartialEq, Eq, Structural)]
pub enum KeyParseError {
    /// The input's byte length is odd; hex digits come in pairs.
    OddLength,
    /// After stripping an optional `0x` prefix, the input does not hold
    /// exactly 32 digits.
    InvalidStringLength,
    /// The byte at `index` (counted after the stripped prefix) is not a hex
    /// digit.
    InvalidHexCharacter { index: usize },
}

/// Whether a byte is an ASCII hex digit, either case.
pub open spec fn is_hex_digit(b: u8) -> bool {
    (0x30 <= b && b <= 0x39) || (0x41 <= b && b <= 0x46) || (0x61 <= b && b <= 0x66)
}

/// The value of an ASCII hex digit.
pub open spec fn hex_digit_value(b: u8) -> u8 {
    if 0x30 <= b && b <= 0x39 {
        (b - 0x30) as u8
    } else if 0x41 <= b && b <= 0x46 {
        (b - 0x41 + 10) as u8
    } else {
        (b - 0x61 + 10) as u8
    }
}

/// Whether the input starts with `0x` or `0X`.
pub open spec fn has_hex_prefix(s: Seq<u8>) -> bool {
    s.len() >= 2 && s[0] == 0x30 && (s[1] == 0x78 || s[1] == 0x58)
}

/// The input with its `0x`/`0X` prefix removed, if it carries one.
pub open spec fn strip_hex_prefix(s: Seq<u8>) -> Seq<u8> {
    if has_hex_prefix(s) {
        s.skip(2)
    } else {
        s
    }
}

/// The 16 bytes spelled by 32 hex digits, two digits to a byte, high digit
/// first.
pub open spec fn hex_decode_16(d: Seq<u8>) -> Seq<u8> {
    Seq::new(16, |i: int| (hex_digit_value(d[2 * i]) * 16 + hex_digit_value(d[2 * i + 1])) as u8)
}

/// Reads one ASCII hex digit, or reports that the byte is none.
fn hex_digit(b: u8) -> (r: Option<u8>)
    ensures
        r matches Some(v) ==> is_hex_digit(b) && v == hex_digit_value(b) && v < 16,
        r is None ==> !is_hex_digit(b),
{
    if 0x30 <= b && b <= 0x39 {
        Some(b - 0x30)
    } else if 0x41 <= b && b <= 0x46 {
        Some(b - 0x41 + 10)
    } else if 0x61 <= b && b <= 0x66 {
        Some(b - 0x61 + 10)
    } else {
        None
    }
}

/// Parses a 16-byte key from hexadecimal text: 32 hex digits after an
/// optional `0x`/`0X` prefix. Succeeds on exactly those inputs; the error
/// says which check failed, and for a bad digit, the first offending
/// position.
pub fn key_parser(s: &str) -> (r: Result<[u8; 16], KeyParseError>)
    ensures
        s.spec_bytes().len() % 2 != 0 ==> (r matches Err(e) && e == KeyParseError::OddLength),
        s.spec_bytes().len() % 2 == 0 && strip_hex_prefix(s.spec_bytes()).len() != 32 ==> (
        r matches Err(e) && e == KeyParseError::InvalidStringLength),
        ({
            let d = strip_hex_prefix(s.spec_bytes());
            s.spec_bytes().len() % 2 == 0 && d.len() == 32 ==> match r {
                Ok(k) => (forall|i: int| 0 <= i < 32 ==> is_hex_digit(d[i])) && k@ == hex_decode_16(
                    d,
                ),
                Err(e) => (e matches KeyParseError::InvalidHexCharacter { index } && index < 32
                    && !is_hex_digit(d[index as int]) && (forall|i: int|
                    0 <= i < index ==> is_hex_digit(d[i]))),
            }
        }),
{
    let bytes: &[u8] = s.as_bytes();
    let n = bytes.len();
    if n % 2 != 0 {
        return Err(KeyParseError::OddLength);
    }
    let start: usize = if n >= 2 && bytes[0] == 0x30 && (bytes[1] == 0x78 || bytes[1] == 0x58) {
        2
    } else {
        0
    };
    let ghost d = strip_hex_prefix(s.spec_bytes());
    assert(d =~= bytes@.skip(start as int));
    if n - start != 32 {
        return Err(KeyParseError::InvalidStringLength);
    }
    let mut key = [0u8; 16];
    let mut j: usize = 0;
    while j < 16
        invariant
            j <= 16,
            bytes@ == s.spec_bytes(),
            s.spec_bytes().len() % 2 == 0,
            bytes@.len() == start + 32,
            start == 0 || start == 2,
            d == strip_hex_prefix(s.spec_bytes()),
            d == bytes@.skip(start as int),
            d.len() == 32,
            key@.len() == 16,
            forall|i: int| 0 <= i < 2 * j ==> is_hex_digit(d[i]),
            forall|i: int| 0 <= i < j ==> key@[i] == hex_decode_16(d)[i],
        decreases 16 - j,
    {
        let hi = match hex_digit(bytes[start + 2 * j]) {
            Some(v) => v,
            None => {
                return Err(KeyParseError::InvalidHexCharacter { index: 2 * j });
            },
        };
        let lo = match hex_digit(bytes[start + 2 * j + 1]) {
            Some(v) => v,
            None => {
                return Err(KeyParseError::InvalidHexCharacter { index: 2 * j + 1 });
            },
        };
        key[j] = hi * 16 + lo;
        j = j + 1;
    }
    assert(key@ =~= hex_decode_16(d));
    Ok(key)
}

} // verus!
