//! "Platform dependent character" detection: CP932 vendor extensions.
//!
//! A character is platform dependent when its Shift_JIS encoding lands in one of the
//! Windows-31J extension areas: NEC row 13 (0x8740–0x879E), NEC-selected IBM extensions
//! (0xED40–0xEEFC) or IBM extensions (0xFA40–0xFC4B). Characters that Shift_JIS cannot
//! encode at all (é, emoji) are deliberately not flagged: they are not "vendor dependent",
//! and flagging them would drown Latin text in false positives.
use vstd::prelude::*;

use encoding_rs::SHIFT_JIS;

use crate::text::to_chars;

verus! {

/// What `encoding_rs::SHIFT_JIS.encode` gives for the one-character string `c`: the bytes, and
/// whether the character was unmappable (then the bytes hold a numeric character reference).
pub uninterp spec fn shift_jis_encoding(c: char) -> (Seq<u8>, bool);

/// `encoding_rs::Encoding::encode` with `SHIFT_JIS` on the one-character string `c`: the encoded
/// bytes and the `had_errors` flag. The contract only names the result; it depends on `c` alone.
#[verifier::external_body]
fn encode_shift_jis(c: char) -> (res: (Vec<u8>, bool))
    ensures
        (res.0@, res.1) == shift_jis_encoding(c),
{
    let mut buf = [0u8; 4];
    let (bytes, _, had_errors) = SHIFT_JIS.encode(c.encode_utf8(&mut buf));
    (bytes.into_owned(), had_errors)
}

/// The two-byte code `lead * 256 + trail` lies in a CP932 vendor-extension area.
pub open spec fn is_extension_code(code: int) -> bool {
    ||| (0x8740 <= code && code <= 0x879e)
    ||| (0xed40 <= code && code <= 0xeefc)
    ||| (0xfa40 <= code && code <= 0xfc4b)
}

/// `bytes` is a two-byte Shift_JIS code in a CP932 vendor-extension area.
pub open spec fn spec_in_extension_area(bytes: Seq<u8>) -> bool {
    bytes.len() == 2 && is_extension_code(bytes[0] * 256 + bytes[1])
}

/// `bytes` is a two-byte Shift_JIS code in a CP932 vendor-extension area.
pub fn in_extension_area(bytes: &[u8]) -> (res: bool)
    ensures
        res == spec_in_extension_area(bytes@),
{
    if bytes.len() != 2 {
        return false;
    }
    let code: u32 = (bytes[0] as u32) * 256 + (bytes[1] as u32);
    (0x8740 <= code && code <= 0x879e) || (0xed40 <= code && code <= 0xeefc) || (0xfa40 <= code
        && code <= 0xfc4b)
}

/// Given a character's Shift_JIS encoding and its error flag: it was encoded without error
/// into a vendor-extension code.
pub fn encoded_in_extension_area(bytes: &[u8], had_errors: bool) -> (res: bool)
    ensures
        res == (!had_errors && spec_in_extension_area(bytes@)),
{
    !had_errors && in_extension_area(bytes)
}

/// A non-ASCII character that Shift_JIS encodes without error into a vendor-extension code.
pub open spec fn is_platform_dependent_char(c: char) -> bool {
    (c as u32) >= 0x80 && !shift_jis_encoding(c).1 && spec_in_extension_area(
        shift_jis_encoding(c).0,
    )
}

/// Some character of `s` is platform dependent.
pub open spec fn spec_has_platform_dependent(s: Seq<char>) -> bool {
    exists|i: int| 0 <= i < s.len() && is_platform_dependent_char(#[trigger] s[i])
}

/// Contains at least one CP932 vendor-extension character.
pub fn has_platform_dependent(text: &str) -> (res: bool)
    ensures
        res == spec_has_platform_dependent(text@),
{
    let chars = to_chars(text);
    let mut i: usize = 0;
    while i < chars.len()
        invariant
            chars@ == text@,
            i <= chars@.len(),
            forall|j: int| 0 <= j < i ==> !is_platform_dependent_char(#[trigger] chars@[j]),
        decreases chars@.len() - i,
    {
        let c = chars[i];
        if (c as u32) >= 0x80 {
            let (bytes, had_errors) = encode_shift_jis(c);
            if encoded_in_extension_area(bytes.as_slice(), had_errors) {
                return true;
            }
        }
        i = i + 1;
    }
    false
}

} // verus!
