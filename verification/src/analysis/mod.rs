//! Warning analysis over captured text. One warning, one function; `analyze` combines them in
//! `Warning` declaration order.
use vstd::prelude::*;

pub mod charset;
pub mod control;
pub mod edge;
pub mod encoding_notice;
pub mod newline;
pub mod platform_dependent;

pub use charset::{CharClass, classify, is_bidi_control, is_control_or_binary};
pub use control::has_control_or_binary;
pub use edge::has_edge_whitespace;
pub use encoding_notice::has_encoding_notice;
pub use newline::has_mixed_newlines;
pub use platform_dependent::has_platform_dependent;

use control::spec_has_control_or_binary;
use edge::spec_has_edge_whitespace;
use encoding_notice::spec_has_encoding_notice;
use newline::spec_has_mixed_newlines;
use platform_dependent::spec_has_platform_dependent;

use crate::model::warning::{Warning, warning_rank};
use crate::text::to_chars;

verus! {

/// `s` contains a tab character.
pub open spec fn spec_has_tab(s: Seq<char>) -> bool {
    exists|i: int| 0 <= i < s.len() && s[i] == '\t'
}

/// Contains a tab character.
pub fn has_tab(text: &str) -> (res: bool)
    ensures
        res == spec_has_tab(text@),
{
    let chars = to_chars(text);
    let mut i: usize = 0;
    while i < chars.len()
        invariant
            chars@ == text@,
            i <= chars@.len(),
            forall|j: int| 0 <= j < i ==> chars@[j] != '\t',
        decreases chars@.len() - i,
    {
        if chars[i] == '\t' {
            return true;
        }
        i = i + 1;
    }
    false
}

/// Whether warning `w` applies to text `s` (with style data present or not).
pub open spec fn warning_applies(w: Warning, s: Seq<char>, has_style: bool) -> bool {
    match w {
        Warning::HasStyle => has_style,
        Warning::EdgeWhitespace => spec_has_edge_whitespace(s),
        Warning::HasTab => spec_has_tab(s),
        Warning::PlatformDependent => spec_has_platform_dependent(s),
        Warning::ControlOrBinary => spec_has_control_or_binary(s),
        Warning::MixedNewlines => spec_has_mixed_newlines(s),
        Warning::EncodingNotice => spec_has_encoding_notice(s),
    }
}

/// `[w]` when `hit`, else nothing.
pub open spec fn if_hit(w: Warning, hit: bool) -> Seq<Warning> {
    if hit {
        seq![w]
    } else {
        Seq::empty()
    }
}

/// All warnings that apply to `s`, in declaration order.
pub open spec fn spec_analyze(s: Seq<char>, has_style: bool) -> Seq<Warning> {
    if_hit(Warning::HasStyle, warning_applies(Warning::HasStyle, s, has_style))
        + if_hit(Warning::EdgeWhitespace, warning_applies(Warning::EdgeWhitespace, s, has_style))
        + if_hit(Warning::HasTab, warning_applies(Warning::HasTab, s, has_style))
        + if_hit(
        Warning::PlatformDependent,
        warning_applies(Warning::PlatformDependent, s, has_style),
    ) + if_hit(Warning::ControlOrBinary, warning_applies(Warning::ControlOrBinary, s, has_style))
        + if_hit(Warning::MixedNewlines, warning_applies(Warning::MixedNewlines, s, has_style))
        + if_hit(Warning::EncodingNotice, warning_applies(Warning::EncodingNotice, s, has_style))
}

fn push_if(v: &mut Vec<Warning>, w: Warning, hit: bool)
    ensures
        final(v)@ == old(v)@ + if_hit(w, hit),
{
    if hit {
        v.push(w);
    }
    assert(final(v)@ =~= old(v)@ + if_hit(w, hit));
}

/// All warnings that apply to `text`, in `Warning` declaration order, without duplicates.
pub fn analyze(text: &str, has_style: bool) -> (res: Vec<Warning>)
    ensures
        res@ == spec_analyze(text@, has_style),
{
    let mut v: Vec<Warning> = Vec::new();
    push_if(&mut v, Warning::HasStyle, has_style);
    push_if(&mut v, Warning::EdgeWhitespace, has_edge_whitespace(text));
    push_if(&mut v, Warning::HasTab, has_tab(text));
    push_if(&mut v, Warning::PlatformDependent, has_platform_dependent(text));
    push_if(&mut v, Warning::ControlOrBinary, has_control_or_binary(text));
    push_if(&mut v, Warning::MixedNewlines, has_mixed_newlines(text));
    push_if(&mut v, Warning::EncodingNotice, has_encoding_notice(text));
    assert(v@ =~= spec_analyze(text@, has_style));
    v
}

/// Ranks strictly increase along `p`.
pub open spec fn strictly_ranked(p: Seq<Warning>) -> bool {
    forall|i: int, j: int|
        0 <= i < j < p.len() ==> warning_rank(#[trigger] p[i]) < warning_rank(#[trigger] p[j])
}

proof fn lemma_append_piece(p: Seq<Warning>, w: Warning, hit: bool)
    requires
        strictly_ranked(p),
        forall|k: int| 0 <= k < p.len() ==> warning_rank(#[trigger] p[k]) < warning_rank(w),
    ensures
        strictly_ranked(p + if_hit(w, hit)),
        forall|k: int|
            0 <= k < (p + if_hit(w, hit)).len() ==> warning_rank(#[trigger] (p + if_hit(w, hit))[k])
                <= warning_rank(w),
        forall|v: Warning| (p + if_hit(w, hit)).contains(v) <==> (p.contains(v) || (hit && v == w)),
{
    let q = p + if_hit(w, hit);
    assert forall|v: Warning| q.contains(v) <==> (p.contains(v) || (hit && v == w)) by {
        if q.contains(v) {
            let k = choose|k: int| 0 <= k < q.len() && q[k] == v;
            if k >= p.len() {
                assert(hit && v == w);
            } else {
                assert(p[k] == v);
            }
        }
        if p.contains(v) {
            let k = choose|k: int| 0 <= k < p.len() && p[k] == v;
            assert(q[k] == v);
        }
        if hit && v == w {
            assert(q[p.len() as int] == v);
        }
    }
}

/// The warnings of a text come in strictly increasing declaration order (so without
/// duplicates), and a warning is among them exactly when its check holds.
pub proof fn lemma_analyze_ordered_and_complete(s: Seq<char>, has_style: bool)
    ensures
        strictly_ranked(spec_analyze(s, has_style)),
        forall|w: Warning|
            spec_analyze(s, has_style).contains(w) <==> warning_applies(w, s, has_style),
{
    let h0 = warning_applies(Warning::HasStyle, s, has_style);
    let h1 = warning_applies(Warning::EdgeWhitespace, s, has_style);
    let h2 = warning_applies(Warning::HasTab, s, has_style);
    let h3 = warning_applies(Warning::PlatformDependent, s, has_style);
    let h4 = warning_applies(Warning::ControlOrBinary, s, has_style);
    let h5 = warning_applies(Warning::MixedNewlines, s, has_style);
    let h6 = warning_applies(Warning::EncodingNotice, s, has_style);
    let p0 = Seq::<Warning>::empty();
    lemma_append_piece(p0, Warning::HasStyle, h0);
    let p1 = p0 + if_hit(Warning::HasStyle, h0);
    lemma_append_piece(p1, Warning::EdgeWhitespace, h1);
    let p2 = p1 + if_hit(Warning::EdgeWhitespace, h1);
    lemma_append_piece(p2, Warning::HasTab, h2);
    let p3 = p2 + if_hit(Warning::HasTab, h2);
    lemma_append_piece(p3, Warning::PlatformDependent, h3);
    let p4 = p3 + if_hit(Warning::PlatformDependent, h3);
    lemma_append_piece(p4, Warning::ControlOrBinary, h4);
    let p5 = p4 + if_hit(Warning::ControlOrBinary, h4);
    lemma_append_piece(p5, Warning::MixedNewlines, h5);
    let p6 = p5 + if_hit(Warning::MixedNewlines, h5);
    lemma_append_piece(p6, Warning::EncodingNotice, h6);
    let p7 = p6 + if_hit(Warning::EncodingNotice, h6);
    assert(p1 =~= if_hit(Warning::HasStyle, h0));
    assert(p7 =~= spec_analyze(s, has_style));
    assert forall|w: Warning| p7.contains(w) <==> warning_applies(w, s, has_style) by {
        assert(!p0.contains(w));
    }
}

/// `PlatformDependent` is reported exactly when some non-ASCII character of the text (any code
/// point from U+0080 up) has an error-free Shift_JIS encoding of two bytes whose code lies in a
/// CP932 vendor-extension area: NEC row 13 (0x8740–0x879E), NEC-selected IBM extensions
/// (0xED40–0xEEFC) or IBM extensions (0xFA40–0xFC4B).
pub proof fn lemma_platform_dependent_warning(s: Seq<char>, has_style: bool)
    ensures
        spec_analyze(s, has_style).contains(Warning::PlatformDependent) <==> exists|i: int|
            {
                &&& 0 <= i < s.len()
                &&& (#[trigger] s[i]) as u32 >= 0x80
                &&& !platform_dependent::shift_jis_encoding(s[i]).1
                &&& platform_dependent::shift_jis_encoding(s[i]).0.len() == 2
                &&& {
                    let b = platform_dependent::shift_jis_encoding(s[i]).0;
                    let code = b[0] * 256 + b[1];
                    ||| (0x8740 <= code && code <= 0x879e)
                    ||| (0xed40 <= code && code <= 0xeefc)
                    ||| (0xfa40 <= code && code <= 0xfc4b)
                }
            },
{
    lemma_analyze_ordered_and_complete(s, has_style);
}

} // verus!
