use vstd::prelude::*;

use crate::text::to_chars;

verus! {

/// A CR at `j` directly followed by an LF.
pub open spec fn crlf_at(s: Seq<char>, j: int) -> bool {
    0 <= j && j + 1 < s.len() && s[j] == '\r' && s[j + 1] == '\n'
}

/// A CR at `j` that is not followed by an LF.
pub open spec fn lone_cr_at(s: Seq<char>, j: int) -> bool {
    0 <= j < s.len() && s[j] == '\r' && !(j + 1 < s.len() && s[j + 1] == '\n')
}

/// An LF at `j` that does not follow a CR.
pub open spec fn lone_lf_at(s: Seq<char>, j: int) -> bool {
    0 <= j < s.len() && s[j] == '\n' && !(j > 0 && s[j - 1] == '\r')
}

/// `s` contains a CRLF.
pub open spec fn has_crlf(s: Seq<char>) -> bool {
    exists|j: int| #[trigger] crlf_at(s, j)
}

/// `s` contains a CR that is not part of a CRLF.
pub open spec fn has_lone_cr(s: Seq<char>) -> bool {
    exists|j: int| #[trigger] lone_cr_at(s, j)
}

/// `s` contains an LF that is not part of a CRLF.
pub open spec fn has_lone_lf(s: Seq<char>) -> bool {
    exists|j: int| #[trigger] lone_lf_at(s, j)
}

/// Number of true values among three.
pub open spec fn count_true(a: bool, b: bool, c: bool) -> int {
    (if a { 1int } else { 0int }) + (if b { 1int } else { 0int }) + (if c { 1int } else { 0int })
}

/// Two or more of CRLF, lone LF and lone CR occur in `s`.
pub open spec fn spec_has_mixed_newlines(s: Seq<char>) -> bool {
    count_true(has_crlf(s), has_lone_lf(s), has_lone_cr(s)) >= 2
}

/// Which newline conventions occur in `text`: (CRLF, lone LF, lone CR).
fn newline_kinds(text: &str) -> (res: (bool, bool, bool))
    ensures
        res.0 == has_crlf(text@),
        res.1 == has_lone_lf(text@),
        res.2 == has_lone_cr(text@),
{
    let s = to_chars(text);
    let ghost g = s@;
    let n = s.len();
    let mut crlf = false;
    let mut lf = false;
    let mut cr = false;
    let mut i: usize = 0;
    while i < n
        invariant
            g == s@,
            g == text@,
            n == g.len(),
            i <= n,
            i > 0 && g[i - 1] == '\r' ==> !(i < n && g[i as int] == '\n'),
            crlf == (exists|j: int| j + 1 < i && #[trigger] crlf_at(g, j)),
            cr == (exists|j: int| j < i && #[trigger] lone_cr_at(g, j)),
            lf == (exists|j: int| j < i && #[trigger] lone_lf_at(g, j)),
        decreases n - i,
    {
        let c = s[i];
        if c == '\r' && i + 1 < n && s[i + 1] == '\n' {
            assert(crlf_at(g, i as int));
            assert(!lone_cr_at(g, i as int));
            assert(!lone_lf_at(g, i + 1));
            assert(!crlf_at(g, i + 1));
            crlf = true;
            i = i + 2;
        } else {
            if c == '\r' {
                assert(lone_cr_at(g, i as int));
                cr = true;
            } else if c == '\n' {
                assert(lone_lf_at(g, i as int));
                lf = true;
            }
            assert(!crlf_at(g, i as int));
            i = i + 1;
        }
    }
    assert(crlf == has_crlf(g));
    assert(cr == has_lone_cr(g));
    assert(lf == has_lone_lf(g));
    (crlf, lf, cr)
}

/// Two or more of CRLF, lone LF and lone CR are present.
pub fn has_mixed_newlines(text: &str) -> (res: bool)
    ensures
        res == spec_has_mixed_newlines(text@),
{
    let (crlf, lf, cr) = newline_kinds(text);
    let mut count: u8 = 0;
    if crlf {
        count = count + 1;
    }
    if lf {
        count = count + 1;
    }
    if cr {
        count = count + 1;
    }
    count >= 2
}

} // verus!
