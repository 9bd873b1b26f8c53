use vstd::prelude::*;

use super::charset::{is_control_or_binary, spec_is_control_or_binary};
use crate::text::to_chars;

verus! {

/// Some character of `s` is a control character other than tab / LF / CR, DEL, a C1
/// control, or U+FFFD.
pub open spec fn spec_has_control_or_binary(s: Seq<char>) -> bool {
    exists|i: int| 0 <= i < s.len() && spec_is_control_or_binary(#[trigger] s[i])
}

/// Contains control characters other than tab / LF / CR, DEL, C1 controls, or U+FFFD.
///
/// Invalid UTF-8 cannot reach a `&str`, so U+FFFD is the trace of decoding failures upstream.
pub fn has_control_or_binary(text: &str) -> (res: bool)
    ensures
        res == spec_has_control_or_binary(text@),
{
    let chars = to_chars(text);
    let mut i: usize = 0;
    while i < chars.len()
        invariant
            chars@ == text@,
            i <= chars@.len(),
            forall|j: int| 0 <= j < i ==> !spec_is_control_or_binary(#[trigger] chars@[j]),
        decreases chars@.len() - i,
    {
        if is_control_or_binary(chars[i]) {
            return true;
        }
        i = i + 1;
    }
    false
}

} // verus!
