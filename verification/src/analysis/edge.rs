use vstd::prelude::*;

use crate::text::{is_whitespace, spec_is_whitespace, to_chars};

verus! {

/// The first or the last character of `s` is whitespace.
pub open spec fn spec_has_edge_whitespace(s: Seq<char>) -> bool {
    s.len() > 0 && (spec_is_whitespace(s[0]) || spec_is_whitespace(s[s.len() - 1]))
}

/// Leading or trailing whitespace or newline.
///
/// Whitespace is the Unicode `White_Space` property, which covers U+0020, U+3000, NBSP, tab, LF
/// and CR.
pub fn has_edge_whitespace(text: &str) -> (res: bool)
    ensures
        res == spec_has_edge_whitespace(text@),
{
    let chars = to_chars(text);
    let n = chars.len();
    if n == 0 {
        return false;
    }
    is_whitespace(chars[0]) || is_whitespace(chars[n - 1])
}

} // verus!
