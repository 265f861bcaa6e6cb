//! Text that crosses the C ABI: NUL-terminated strings going down, byte
//! buffers coming back, and decimal numbers in messages.

use vstd::prelude::*;
use vstd::string::StringSliceAdditionalSpecFns;
use vstd::utf8::{decode_utf8, valid_utf8};

verus! {

/// What `String::from_utf8_lossy` makes of `bytes`: the characters they
/// encode, with each invalid sequence replaced by U+FFFD.
pub uninterp spec fn utf8_lossy(bytes: Seq<u8>) -> Seq<char>;

/// Decodes `bytes` as UTF-8, replacing invalid sequences, by
/// `String::from_utf8_lossy`. Its documentation promises that valid UTF-8
/// comes back unchanged; what an invalid sequence becomes is left to the name
/// `utf8_lossy`.
#[verifier::external_body]
pub(crate) fn decode_lossy(bytes: &[u8]) -> (s: String)
    ensures
        s@ == utf8_lossy(bytes@),
        valid_utf8(bytes@) ==> s@ == decode_utf8(bytes@),
{
    String::from_utf8_lossy(bytes).into_owned()
}

/// The character of decimal digit `d`.
pub open spec fn digit_char(d: nat) -> char {
    (('0' as u32) + d) as char
}

/// The decimal digits of `n`, most significant first, with no leading zero.
pub open spec fn decimal_digits(n: nat) -> Seq<char>
    decreases n,
{
    if n < 10 {
        seq![digit_char(n)]
    } else {
        decimal_digits(n / 10).push(digit_char(n % 10))
    }
}

/// How `Display` writes the integer `v`: a minus sign for a negative value,
/// then its decimal digits.
pub open spec fn decimal(v: int) -> Seq<char> {
    if v < 0 {
        seq!['-'] + decimal_digits((-v) as nat)
    } else {
        decimal_digits(v as nat)
    }
}

/// Writes `v` in decimal by its `Display` impl (`i32::to_string`), which std
/// documents as the plain decimal form with a leading `-` for negatives.
#[verifier::external_body]
pub(crate) fn i32_decimal(v: i32) -> (s: String)
    ensures
        s@ == decimal(v as int),
{
    v.to_string()
}

/// Whether `bytes` hold a NUL byte, which no C string can carry inside it.
pub open spec fn has_nul(bytes: Seq<u8>) -> bool {
    bytes.contains(0u8)
}

/// Whether the UTF-8 encoding of `s` holds a NUL byte.
pub fn contains_nul(s: &str) -> (found: bool)
    ensures
        found == has_nul(s.spec_bytes()),
{
    let bytes = s.as_bytes();
    let mut i: usize = 0;
    while i < bytes.len()
        invariant
            i <= bytes@.len(),
            bytes@ == s.spec_bytes(),
            forall|j: int| 0 <= j < i ==> bytes@[j] != 0u8,
        decreases bytes@.len() - i,
    {
        if bytes[i] == 0 {
            return true;
        }
        i = i + 1;
    }
    assert(!bytes@.contains(0u8));
    false
}

/// Finds the first NUL byte of `bytes`.
pub fn position_of_nul(bytes: &[u8]) -> (pos: Option<usize>)
    ensures
        match pos {
            Some(p) => p < bytes@.len() && bytes@[p as int] == 0u8 && forall|j: int| 0 <= j < p ==> bytes@[j] != 0u8,
            None => !has_nul(bytes@),
        },
{
    let mut i: usize = 0;
    while i < bytes.len()
        invariant
            i <= bytes@.len(),
            forall|j: int| 0 <= j < i ==> bytes@[j] != 0u8,
        decreases bytes@.len() - i,
    {
        if bytes[i] == 0 {
            return Some(i);
        }
        i = i + 1;
    }
    None
}

} // verus!
