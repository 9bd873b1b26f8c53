use vstd::prelude::*;

use unicode_normalization::UnicodeNormalization;

use super::charset::{is_bidi_control, spec_is_bidi_control};
use crate::text::{chars_eq, to_chars};
use vstd::utf8::is_ascii_chars;

verus! {

/// The Unicode Normalization Form C of a text, as `unicode-normalization` computes it.
pub uninterp spec fn nfc_form(text: Seq<char>) -> Seq<char>;

/// The Unicode Normalization Form D of a text, as `unicode-normalization` computes it.
pub uninterp spec fn nfd_form(text: Seq<char>) -> Seq<char>;

/// `UnicodeNormalization::nfc` on a `&str`, collected: the text in Normalization Form C.
/// The contract only names the result; it depends on the text alone.
#[verifier::external_body]
fn nfc_chars(text: &str) -> (res: Vec<char>)
    ensures
        res@ == nfc_form(text@),
{
    text.nfc().collect()
}

/// `UnicodeNormalization::nfd` on a `&str`, collected: the text in Normalization Form D.
/// The contract only names the result; it depends on the text alone.
#[verifier::external_body]
fn nfd_chars(text: &str) -> (res: Vec<char>)
    ensures
        res@ == nfd_form(text@),
{
    text.nfd().collect()
}

/// Text that is neither fully composed nor fully decomposed: both normalizations change it.
pub open spec fn is_mixed_normalization(s: Seq<char>) -> bool {
    nfc_form(s) != s && nfd_form(s) != s
}

/// Given the characters of a text and its two normalizations: the text is mixed when both
/// normalizations change it.
pub fn is_mixed_given(text: &[char], nfc: &[char], nfd: &[char]) -> (res: bool)
    ensures
        res == (nfc@ != text@ && nfd@ != text@),
{
    !chars_eq(nfc, text) && !chars_eq(nfd, text)
}

/// Leading BOM, a bidirectional control character, or (for non-ASCII text) mixed NFC/NFD.
pub open spec fn spec_has_encoding_notice(s: Seq<char>) -> bool {
    ||| (s.len() > 0 && s[0] == '\u{feff}')
    ||| (exists|i: int| 0 <= i < s.len() && spec_is_bidi_control(#[trigger] s[i]))
    ||| (!is_ascii_chars(s) && is_mixed_normalization(s))
}

/// Leading BOM, bidirectional control characters, or mixed NFC/NFD.
///
/// "Mixed" means the text is neither fully composed nor fully decomposed: both
/// normalizations change it. ASCII text is never mixed and is not normalized.
pub fn has_encoding_notice(text: &str) -> (res: bool)
    ensures
        res == spec_has_encoding_notice(text@),
{
    let chars = to_chars(text);
    if chars.len() > 0 && chars[0] == '\u{feff}' {
        return true;
    }
    let mut i: usize = 0;
    while i < chars.len()
        invariant
            chars@ == text@,
            i <= chars@.len(),
            forall|j: int| 0 <= j < i ==> !spec_is_bidi_control(#[trigger] chars@[j]),
        decreases chars@.len() - i,
    {
        if is_bidi_control(chars[i]) {
            return true;
        }
        i = i + 1;
    }
    if text.is_ascii() {
        return false;
    }
    let nfc = nfc_chars(text);
    let nfd = nfd_chars(text);
    is_mixed_given(chars.as_slice(), nfc.as_slice(), nfd.as_slice())
}

} // verus!
