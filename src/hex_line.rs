//! One received line of text as hexadecimal: two digits per byte, either
//! case, no separators and no prefix.

use vstd::prelude::*;
use vstd::string::StringSliceAdditionalSpecFns;

verus! {

/// Why a text is not hexadecimal; the variants follow the `hex` crate's.
#[derive(Clone, Debug, PartialEq, Eq)]
pub enum HexError {
    /// The byte at `index` of the text is no hex digit; `c` is that byte.
    InvalidHexCharacter { c: char, index: usize },
    /// The text has an odd number of bytes.
    OddLength,
    /// The text does not fit a container of fixed size.
    InvalidStringLength,
}

/// `b` is the ASCII code of `0`-`9`, `a`-`f` or `A`-`F`.
pub open spec fn is_hex_digit(b: u8) -> bool {
    (0x30 <= b <= 0x39) || (0x41 <= b <= 0x46) || (0x61 <= b <= 0x66)
}

/// The value of the hex digit `b`.
pub open spec fn hex_digit_value(b: u8) -> int {
    if b <= 0x39 {
        b - 0x30
    } else if b <= 0x46 {
        b - 0x41 + 10
    } else {
        b - 0x61 + 10
    }
}

/// `t` is an even number of hex digits.
pub open spec fn is_hex_text(t: Seq<u8>) -> bool {
    &&& t.len() % 2 == 0
    &&& forall|i: int| 0 <= i < t.len() ==> is_hex_digit(#[trigger] t[i])
}

/// The bytes that the hex text `t` spells, the first digit of each pair as the
/// high half.
pub open spec fn hex_bytes(t: Seq<u8>) -> Seq<u8> {
    Seq::new(
        t.len() / 2,
        |i: int| (hex_digit_value(t[2 * i]) * 16 + hex_digit_value(t[2 * i + 1])) as u8,
    )
}

/// `index` is the first position of `t` that holds no hex digit.
pub open spec fn is_first_non_hex(t: Seq<u8>, index: int) -> bool {
    &&& 0 <= index < t.len()
    &&& !is_hex_digit(t[index])
    &&& forall|j: int| 0 <= j < index ==> is_hex_digit(#[trigger] t[j])
}

/// What decoding the hex text `t` gives: the bytes it spells, or the first
/// fault found, an odd length before any digit.
pub open spec fn hex_decode_result(t: Seq<u8>, r: Result<Vec<u8>, HexError>) -> bool {
    match r {
        Ok(v) => is_hex_text(t) && v@ == hex_bytes(t),
        Err(HexError::OddLength) => t.len() % 2 == 1,
        Err(HexError::InvalidHexCharacter { c, index }) => {
            &&& t.len() % 2 == 0
            &&& is_first_non_hex(t, index as int)
            &&& c as u32 == t[index as int] as u32
        },
        Err(HexError::InvalidStringLength) => false,
    }
}

/// Decodes one already trimmed line of hex text into the bytes it spells.
///
/// The empty line is valid and gives no bytes.
pub fn decode_hex(input: &str) -> (r: Result<Vec<u8>, HexError>)
    ensures
        hex_decode_result(input.spec_bytes(), r),
        r is Ok <==> is_hex_text(input.spec_bytes()),
        r is Ok ==> r->Ok_0@.len() * 2 == input.spec_bytes().len(),
{
    let r = hex_decode(input.as_bytes());
    proof {
        lemma_hex_decode_ok_iff(input.spec_bytes(), r);
    }
    r
}

/// The outcome that `hex_decode_result` allows succeeds exactly on hex text,
/// with half as many bytes as the text has digits.
pub proof fn lemma_hex_decode_ok_iff(t: Seq<u8>, r: Result<Vec<u8>, HexError>)
    requires
        hex_decode_result(t, r),
    ensures
        r is Ok <==> is_hex_text(t),
        r is Ok ==> r->Ok_0@.len() * 2 == t.len(),
{
    match r {
        Ok(v) => {},
        Err(HexError::OddLength) => {},
        Err(HexError::InvalidHexCharacter { c, index }) => {
            assert(!is_hex_digit(t[index as int]));
        },
        Err(HexError::InvalidStringLength) => {},
    }
}

/// A text that is no hex text has one fault only.
pub proof fn lemma_hex_error_unique(t: Seq<u8>, e1: HexError, e2: HexError)
    requires
        hex_decode_result(t, Err(e1)),
        hex_decode_result(t, Err(e2)),
    ensures
        e1 == e2,
{
    if let (
        HexError::InvalidHexCharacter { c: c1, index: i1 },
        HexError::InvalidHexCharacter { c: c2, index: i2 },
    ) = (e1, e2) {
        if i1 < i2 {
            assert(is_hex_digit(t[i1 as int]));
        } else if i2 < i1 {
            assert(is_hex_digit(t[i2 as int]));
        }
        assert(c1 as u32 == c2 as u32);
    }
}

/// Relies on `hex::decode` (0.4): an odd length is refused before any digit
/// is read; otherwise pairs of hex digits of either case become bytes, high
/// half first, and the first byte that is no hex digit is reported with its
/// index and as a `char`. Each error variant is carried over as it is.
#[verifier::external_body]
fn hex_decode(text: &[u8]) -> (r: Result<Vec<u8>, HexError>)
    ensures
        hex_decode_result(text@, r),
{
    match hex::decode(text) {
        Ok(bytes) => Ok(bytes),
        Err(hex::FromHexError::InvalidHexCharacter { c, index }) => Err(
            HexError::InvalidHexCharacter { c, index },
        ),
        Err(hex::FromHexError::OddLength) => Err(HexError::OddLength),
        Err(hex::FromHexError::InvalidStringLength) => Err(HexError::InvalidStringLength),
    }
}

} // verus!
