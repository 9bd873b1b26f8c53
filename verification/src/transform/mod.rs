//! Text transformations applied at transfer time.
//!
//! `apply` applies the enabled transformations in the fixed order: newline handling → tabs to
//! spaces → fullwidth space to space → trim. `keep_style` is not a text transform and is handled
//! by the transfer command, not here.
use vstd::prelude::*;

use crate::model::options::{NewlineMode, TransferOptions};
use crate::text::{from_chars, is_whitespace, spec_is_whitespace, to_chars};

verus! {

/// Every newline of `s` (a CRLF counted once, then a lone LF, then a lone CR) replaced by `with`.
pub open spec fn spec_replace_newlines(s: Seq<char>, with: Seq<char>) -> Seq<char>
    decreases s.len(),
{
    if s.len() == 0 {
        Seq::empty()
    } else if s[0] == '\r' && s.len() > 1 && s[1] == '\n' {
        with + spec_replace_newlines(s.skip(2), with)
    } else if s[0] == '\r' || s[0] == '\n' {
        with + spec_replace_newlines(s.skip(1), with)
    } else {
        seq![s[0]] + spec_replace_newlines(s.skip(1), with)
    }
}

/// Every occurrence of `from` in `s` replaced by `to`.
pub open spec fn spec_replace_char(s: Seq<char>, from: char, to: Seq<char>) -> Seq<char>
    decreases s.len(),
{
    if s.len() == 0 {
        Seq::empty()
    } else {
        (if s[0] == from {
            to
        } else {
            seq![s[0]]
        }) + spec_replace_char(s.skip(1), from, to)
    }
}

/// `n` spaces.
pub open spec fn spaces(n: nat) -> Seq<char> {
    Seq::new(n, |i: int| ' ')
}

/// `s` without its leading whitespace.
pub open spec fn spec_trim_start(s: Seq<char>) -> Seq<char>
    decreases s.len(),
{
    if s.len() > 0 && spec_is_whitespace(s[0]) {
        spec_trim_start(s.skip(1))
    } else {
        s
    }
}

/// `s` without its trailing whitespace.
pub open spec fn spec_trim_end(s: Seq<char>) -> Seq<char>
    decreases s.len(),
{
    if s.len() > 0 && spec_is_whitespace(s[s.len() - 1]) {
        spec_trim_end(s.drop_last())
    } else {
        s
    }
}

/// `s` without leading and trailing whitespace.
pub open spec fn spec_trim(s: Seq<char>) -> Seq<char> {
    spec_trim_end(spec_trim_start(s))
}

/// The newline step of a transfer.
pub open spec fn newline_step(s: Seq<char>, mode: NewlineMode) -> Seq<char> {
    match mode {
        NewlineMode::Keep => s,
        NewlineMode::Remove => spec_replace_newlines(s, Seq::empty()),
        NewlineMode::Space => spec_replace_newlines(s, seq![' ']),
    }
}

/// The text a transfer with `options` produces from `s`.
pub open spec fn spec_apply(s: Seq<char>, options: TransferOptions, tab_width: u8) -> Seq<char> {
    if !options.spec_has_text_transform() {
        s
    } else {
        let a = newline_step(s, options.newline);
        let b = if options.tabs_to_spaces {
            spec_replace_char(a, '\t', spaces(tab_width as nat))
        } else {
            a
        };
        let c = if options.fullwidth_to_space {
            spec_replace_char(b, '\u{3000}', seq![' '])
        } else {
            b
        };
        if options.trim {
            spec_trim(c)
        } else {
            c
        }
    }
}

/// Replace every newline (CRLF counted once, then lone LF, then lone CR) with `with`.
fn replace_newlines(s: &Vec<char>, with: &Vec<char>) -> (out: Vec<char>)
    ensures
        out@ == spec_replace_newlines(s@, with@),
{
    let n = s.len();
    let mut out: Vec<char> = Vec::new();
    let mut i: usize = 0;
    assert(s@.skip(0) =~= s@);
    assert(out@ + s@ =~= s@);
    assert(out@ + spec_replace_newlines(s@, with@) =~= spec_replace_newlines(s@, with@));
    while i < n
        invariant
            n == s@.len(),
            i <= n,
            out@ + spec_replace_newlines(s@.skip(i as int), with@) == spec_replace_newlines(
                s@,
                with@,
            ),
        decreases n - i,
    {
        let ghost rest = s@.skip(i as int);
        let c = s[i];
        if c == '\r' && i + 1 < n && s[i + 1] == '\n' {
            assert(rest.skip(2) =~= s@.skip(i + 2));
            append(&mut out, with);
            assert(out@ + spec_replace_newlines(s@.skip(i + 2), with@) =~= spec_replace_newlines(
                s@,
                with@,
            ));
            i = i + 2;
        } else {
            assert(rest.skip(1) =~= s@.skip(i + 1));
            if c == '\r' || c == '\n' {
                append(&mut out, with);
            } else {
                out.push(c);
            }
            assert(out@ + spec_replace_newlines(s@.skip(i + 1), with@) =~= spec_replace_newlines(
                s@,
                with@,
            ));
            i = i + 1;
        }
    }
    assert(s@.skip(n as int) =~= Seq::<char>::empty());
    assert(out@ + Seq::<char>::empty() =~= out@);
    out
}

fn append(out: &mut Vec<char>, more: &Vec<char>)
    ensures
        final(out)@ == old(out)@ + more@,
{
    let mut k: usize = 0;
    while k < more.len()
        invariant
            k <= more@.len(),
            out@ == old(out)@ + more@.take(k as int),
        decreases more@.len() - k,
    {
        out.push(more[k]);
        assert(more@.take(k as int).push(more@[k as int]) =~= more@.take(k + 1));
        k = k + 1;
    }
    assert(more@.take(more@.len() as int) =~= more@);
}

/// Replace every `from` in `s` with `to`.
fn replace_char(s: &Vec<char>, from: char, to: &Vec<char>) -> (out: Vec<char>)
    ensures
        out@ == spec_replace_char(s@, from, to@),
{
    let n = s.len();
    let mut out: Vec<char> = Vec::new();
    let mut i: usize = 0;
    assert(s@.skip(0) =~= s@);
    assert(out@ + s@ =~= s@);
    assert(out@ + spec_replace_char(s@, from, to@) =~= spec_replace_char(s@, from, to@));
    while i < n
        invariant
            n == s@.len(),
            i <= n,
            out@ + spec_replace_char(s@.skip(i as int), from, to@) == spec_replace_char(
                s@,
                from,
                to@,
            ),
        decreases n - i,
    {
        let ghost rest = s@.skip(i as int);
        assert(rest.skip(1) =~= s@.skip(i + 1));
        if s[i] == from {
            append(&mut out, to);
        } else {
            out.push(s[i]);
        }
        assert(out@ + spec_replace_char(s@.skip(i + 1), from, to@) =~= spec_replace_char(
            s@,
            from,
            to@,
        ));
        i = i + 1;
    }
    assert(s@.skip(n as int) =~= Seq::<char>::empty());
    assert(out@ + Seq::<char>::empty() =~= out@);
    out
}

fn make_spaces(n: u8) -> (out: Vec<char>)
    ensures
        out@ == spaces(n as nat),
{
    let mut out: Vec<char> = Vec::new();
    let mut k: u8 = 0;
    while k < n
        invariant
            k <= n,
            out@ == spaces(k as nat),
        decreases n - k,
    {
        out.push(' ');
        assert(spaces(k as nat).push(' ') =~= spaces((k + 1) as nat));
        k = k + 1;
    }
    out
}

/// `s` without leading and trailing whitespace.
fn trim(s: &Vec<char>) -> (out: Vec<char>)
    ensures
        out@ == spec_trim(s@),
{
    let n = s.len();
    let mut a: usize = 0;
    assert(s@.skip(0) =~= s@);
    while a < n && is_whitespace(s[a])
        invariant
            n == s@.len(),
            a <= n,
            spec_trim_start(s@.skip(a as int)) == spec_trim_start(s@),
        decreases n - a,
    {
        assert(s@.skip(a as int).skip(1) =~= s@.skip(a + 1));
        a = a + 1;
    }
    let ghost start = s@.skip(a as int);
    assert(spec_trim_start(start) == start);
    let mut b: usize = n;
    while b > a && is_whitespace(s[b - 1])
        invariant
            n == s@.len(),
            a <= b <= n,
            start == s@.skip(a as int),
            spec_trim_end(s@.subrange(a as int, b as int)) == spec_trim_end(start),
        decreases b - a,
    {
        assert(s@.subrange(a as int, b as int).drop_last() =~= s@.subrange(a as int, b - 1));
        b = b - 1;
    }
    let ghost mid = s@.subrange(a as int, b as int);
    assert(spec_trim_end(mid) == mid);
    assert(start =~= s@.subrange(a as int, n as int));
    let mut out: Vec<char> = Vec::new();
    let mut k: usize = a;
    while k < b
        invariant
            n == s@.len(),
            a <= k <= b <= n,
            out@ == s@.subrange(a as int, k as int),
        decreases b - k,
    {
        out.push(s[k]);
        assert(s@.subrange(a as int, k as int).push(s@[k as int]) =~= s@.subrange(
            a as int,
            k + 1,
        ));
        k = k + 1;
    }
    out
}

/// Apply the enabled text transformations to `text` and return the new string.
///
/// Order: newline handling → tabs to spaces → fullwidth space to space → trim.
/// The input is never modified; when no text transform is enabled the result equals the input.
pub fn apply(text: &str, options: &TransferOptions, tab_width: u8) -> (res: String)
    ensures
        res@ == spec_apply(text@, *options, tab_width),
        !options.spec_has_text_transform() ==> res@ == text@,
{
    if !options.has_text_transform() {
        return String::from_str(text);
    }
    let chars = to_chars(text);
    let mut out = match options.newline {
        NewlineMode::Keep => chars,
        NewlineMode::Remove => replace_newlines(&chars, &Vec::new()),
        NewlineMode::Space => {
            let mut one: Vec<char> = Vec::new();
            one.push(' ');
            assert(one@ =~= seq![' ']);
            replace_newlines(&chars, &one)
        },
    };
    assert(out@ == newline_step(text@, options.newline));
    if options.tabs_to_spaces {
        out = replace_char(&out, '\t', &make_spaces(tab_width));
    }
    if options.fullwidth_to_space {
        let mut one: Vec<char> = Vec::new();
        one.push(' ');
        assert(one@ =~= seq![' ']);
        out = replace_char(&out, '\u{3000}', &one);
    }
    if options.trim {
        out = trim(&out);
    }
    from_chars(out.as_slice())
}

/// `c` does not occur in `s`.
pub open spec fn no_char(s: Seq<char>, c: char) -> bool {
    forall|i: int| 0 <= i < s.len() ==> s[i] != c
}

/// `s` is empty or neither starts nor ends with whitespace.
pub open spec fn no_edge_whitespace(s: Seq<char>) -> bool {
    s.len() == 0 || (!spec_is_whitespace(s[0]) && !spec_is_whitespace(s[s.len() - 1]))
}

proof fn lemma_no_char_concat(a: Seq<char>, b: Seq<char>, c: char)
    ensures
        no_char(a + b, c) == (no_char(a, c) && no_char(b, c)),
{
    if no_char(a, c) && no_char(b, c) {
        assert forall|i: int| 0 <= i < (a + b).len() implies (a + b)[i] != c by {
            if i >= a.len() {
                assert((a + b)[i] == b[i - a.len()]);
            }
        }
    }
    if no_char(a + b, c) {
        assert forall|i: int| 0 <= i < b.len() implies b[i] != c by {
            assert((a + b)[i + a.len()] == b[i]);
        }
        assert forall|i: int| 0 <= i < a.len() implies a[i] != c by {
            assert((a + b)[i] == a[i]);
        }
    }
}

proof fn lemma_no_char_skip(s: Seq<char>, n: int, c: char)
    requires
        0 <= n <= s.len(),
        no_char(s, c),
    ensures
        no_char(s.skip(n), c),
{
    assert forall|i: int| 0 <= i < s.skip(n).len() implies s.skip(n)[i] != c by {
        assert(s.skip(n)[i] == s[i + n]);
    }
}

/// Replacing newlines by a text without `c` leaves no `c` behind when there was none, and
/// leaves no newline at all when the replacement holds none.
proof fn lemma_replace_newlines_absent(s: Seq<char>, with: Seq<char>, c: char)
    requires
        no_char(with, c),
        (c != '\r' && c != '\n') ==> no_char(s, c),
    ensures
        no_char(spec_replace_newlines(s, with), c),
    decreases s.len(),
{
    if s.len() > 0 {
        if s[0] == '\r' && s.len() > 1 && s[1] == '\n' {
            if c != '\r' && c != '\n' {
                lemma_no_char_skip(s, 2, c);
            }
            lemma_replace_newlines_absent(s.skip(2), with, c);
            lemma_no_char_concat(with, spec_replace_newlines(s.skip(2), with), c);
        } else {
            if c != '\r' && c != '\n' {
                lemma_no_char_skip(s, 1, c);
            }
            lemma_replace_newlines_absent(s.skip(1), with, c);
            if s[0] == '\r' || s[0] == '\n' {
                lemma_no_char_concat(with, spec_replace_newlines(s.skip(1), with), c);
            } else {
                lemma_no_char_concat(seq![s[0]], spec_replace_newlines(s.skip(1), with), c);
            }
        }
    }
}

/// Text without newlines is left as it is by newline replacement.
proof fn lemma_replace_newlines_identity(s: Seq<char>, with: Seq<char>)
    requires
        no_char(s, '\r'),
        no_char(s, '\n'),
    ensures
        spec_replace_newlines(s, with) == s,
    decreases s.len(),
{
    if s.len() > 0 {
        lemma_no_char_skip(s, 1, '\r');
        lemma_no_char_skip(s, 1, '\n');
        lemma_replace_newlines_identity(s.skip(1), with);
        assert(seq![s[0]] + s.skip(1) =~= s);
    }
}

/// Replacing `from` by a text without `c` leaves no `c` behind when there was none, and no
/// `from` at all when the replacement holds none.
proof fn lemma_replace_char_absent(s: Seq<char>, from: char, to: Seq<char>, c: char)
    requires
        no_char(to, c),
        c != from ==> no_char(s, c),
    ensures
        no_char(spec_replace_char(s, from, to), c),
    decreases s.len(),
{
    if s.len() > 0 {
        if c != from {
            lemma_no_char_skip(s, 1, c);
        }
        lemma_replace_char_absent(s.skip(1), from, to, c);
        let head = if s[0] == from {
            to
        } else {
            seq![s[0]]
        };
        lemma_no_char_concat(head, spec_replace_char(s.skip(1), from, to), c);
    }
}

/// Text without `from` is left as it is.
proof fn lemma_replace_char_identity(s: Seq<char>, from: char, to: Seq<char>)
    requires
        no_char(s, from),
    ensures
        spec_replace_char(s, from, to) == s,
    decreases s.len(),
{
    if s.len() > 0 {
        lemma_no_char_skip(s, 1, from);
        lemma_replace_char_identity(s.skip(1), from, to);
        assert(seq![s[0]] + s.skip(1) =~= s);
    }
}

proof fn lemma_trim_start_suffix(s: Seq<char>)
    ensures
        exists|k: int| 0 <= k <= s.len() && spec_trim_start(s) == s.skip(k),
        spec_trim_start(s).len() == 0 || !spec_is_whitespace(spec_trim_start(s)[0]),
    decreases s.len(),
{
    if s.len() > 0 && spec_is_whitespace(s[0]) {
        lemma_trim_start_suffix(s.skip(1));
        let k = choose|k: int|
            0 <= k <= s.skip(1).len() && spec_trim_start(s.skip(1)) == s.skip(1).skip(k);
        assert(s.skip(1).skip(k) =~= s.skip(k + 1));
    } else {
        assert(s.skip(0) =~= s);
    }
}

proof fn lemma_trim_end_prefix(s: Seq<char>)
    ensures
        exists|k: int| 0 <= k <= s.len() && spec_trim_end(s) == s.take(k),
        spec_trim_end(s).len() == 0 || !spec_is_whitespace(
            spec_trim_end(s)[spec_trim_end(s).len() - 1],
        ),
    decreases s.len(),
{
    if s.len() > 0 && spec_is_whitespace(s[s.len() - 1]) {
        lemma_trim_end_prefix(s.drop_last());
        let k = choose|k: int|
            0 <= k <= s.drop_last().len() && spec_trim_end(s.drop_last()) == s.drop_last().take(k);
        assert(s.drop_last().take(k) =~= s.take(k));
    } else {
        assert(s.take(s.len() as int) =~= s);
    }
}

/// Trimmed text is a piece of the original without edge whitespace.
proof fn lemma_trim_shape(s: Seq<char>)
    ensures
        no_edge_whitespace(spec_trim(s)),
        exists|a: int, b: int| 0 <= a <= b <= s.len() && spec_trim(s) == s.subrange(a, b),
{
    lemma_trim_start_suffix(s);
    let t = spec_trim_start(s);
    let a = choose|k: int| 0 <= k <= s.len() && t == s.skip(k);
    lemma_trim_end_prefix(t);
    let k = choose|k: int| 0 <= k <= t.len() && spec_trim_end(t) == t.take(k);
    let r = spec_trim(s);
    assert(r == t.take(k));
    assert(t.take(k) =~= s.subrange(a, a + k));
    if r.len() > 0 {
        assert(r[0] == t[0]);
    }
}

proof fn lemma_no_char_subrange(s: Seq<char>, a: int, b: int, c: char)
    requires
        0 <= a <= b <= s.len(),
        no_char(s, c),
    ensures
        no_char(s.subrange(a, b), c),
{
    assert forall|i: int| 0 <= i < s.subrange(a, b).len() implies s.subrange(a, b)[i] != c by {
        assert(s.subrange(a, b)[i] == s[a + i]);
    }
}

/// Trimming keeps absent characters absent.
proof fn lemma_trim_absent(s: Seq<char>, c: char)
    requires
        no_char(s, c),
    ensures
        no_char(spec_trim(s), c),
{
    lemma_trim_shape(s);
    let (a, b) = choose|a: int, b: int| 0 <= a <= b <= s.len() && spec_trim(s) == s.subrange(a, b);
    lemma_no_char_subrange(s, a, b, c);
}

/// Text without edge whitespace is left as it is by trimming.
proof fn lemma_trim_identity(s: Seq<char>)
    requires
        no_edge_whitespace(s),
    ensures
        spec_trim(s) == s,
{
    assert(spec_trim_start(s) == s);
    assert(spec_trim_end(s) == s);
}

/// What a transfer's text transformations leave behind: no newline once newlines are handled,
/// no tab once tabs become spaces, no ideographic space once those become spaces, and no
/// leading or trailing whitespace once trimmed.
pub proof fn lemma_apply_clears_its_targets(s: Seq<char>, options: TransferOptions, tab_width: u8)
    ensures
        ({
            let r = spec_apply(s, options, tab_width);
            &&& options.newline != NewlineMode::Keep ==> no_char(r, '\r') && no_char(r, '\n')
            &&& options.tabs_to_spaces ==> no_char(r, '\t')
            &&& options.fullwidth_to_space ==> no_char(r, '\u{3000}')
            &&& options.trim ==> no_edge_whitespace(r)
        }),
{
    if options.spec_has_text_transform() {
        lemma_apply_absent(s, options, tab_width, '\r');
        lemma_apply_absent(s, options, tab_width, '\n');
        lemma_apply_absent(s, options, tab_width, '\t');
        lemma_apply_absent(s, options, tab_width, '\u{3000}');
        let a = newline_step(s, options.newline);
        let b = if options.tabs_to_spaces {
            spec_replace_char(a, '\t', spaces(tab_width as nat))
        } else {
            a
        };
        let c = if options.fullwidth_to_space {
            spec_replace_char(b, '\u{3000}', seq![' '])
        } else {
            b
        };
        if options.trim {
            lemma_trim_shape(c);
        }
    }
}

/// One character `c` is absent from the result when one of the enabled steps removes it.
proof fn lemma_apply_absent(s: Seq<char>, options: TransferOptions, tab_width: u8, c: char)
    requires
        options.spec_has_text_transform(),
        c == '\r' || c == '\n' || c == '\t' || c == '\u{3000}',
    ensures
        ({
            let r = spec_apply(s, options, tab_width);
            &&& ((c == '\r' || c == '\n') && options.newline != NewlineMode::Keep) ==> no_char(r, c)
            &&& (c == '\t' && options.tabs_to_spaces) ==> no_char(r, c)
            &&& (c == '\u{3000}' && options.fullwidth_to_space) ==> no_char(r, c)
        }),
{
    let sp = spaces(tab_width as nat);
    let one = seq![' '];
    assert(no_char(sp, c));
    assert(no_char(one, c));
    assert(no_char(Seq::<char>::empty(), c));
    let a = newline_step(s, options.newline);
    let nl = (c == '\r' || c == '\n') && options.newline != NewlineMode::Keep;
    if nl {
        match options.newline {
            NewlineMode::Remove => lemma_replace_newlines_absent(s, Seq::empty(), c),
            NewlineMode::Space => lemma_replace_newlines_absent(s, one, c),
            NewlineMode::Keep => {},
        }
    }
    let b = if options.tabs_to_spaces {
        spec_replace_char(a, '\t', sp)
    } else {
        a
    };
    let tb = c == '\t' && options.tabs_to_spaces;
    if options.tabs_to_spaces && (nl || tb) {
        lemma_replace_char_absent(a, '\t', sp, c);
    }
    let d = if options.fullwidth_to_space {
        spec_replace_char(b, '\u{3000}', one)
    } else {
        b
    };
    let fw = c == '\u{3000}' && options.fullwidth_to_space;
    if options.fullwidth_to_space && (nl || tb || fw) {
        lemma_replace_char_absent(b, '\u{3000}', one, c);
    }
    if options.trim && (nl || tb || fw) {
        lemma_trim_absent(d, c);
    }
}

/// Transferring twice gives the same text as transferring once.
pub proof fn lemma_apply_idempotent(s: Seq<char>, options: TransferOptions, tab_width: u8)
    ensures
        spec_apply(spec_apply(s, options, tab_width), options, tab_width) == spec_apply(
            s,
            options,
            tab_width,
        ),
{
    if options.spec_has_text_transform() {
        let r = spec_apply(s, options, tab_width);
        lemma_apply_clears_its_targets(s, options, tab_width);
        let a = newline_step(r, options.newline);
        match options.newline {
            NewlineMode::Keep => {},
            NewlineMode::Remove => lemma_replace_newlines_identity(r, Seq::empty()),
            NewlineMode::Space => lemma_replace_newlines_identity(r, seq![' ']),
        }
        assert(a == r);
        if options.tabs_to_spaces {
            lemma_replace_char_identity(r, '\t', spaces(tab_width as nat));
        }
        if options.fullwidth_to_space {
            lemma_replace_char_identity(r, '\u{3000}', seq![' ']);
        }
        if options.trim {
            lemma_trim_identity(r);
        }
    }
}

/// How many times `c` occurs in `s`.
pub open spec fn count_of(s: Seq<char>, c: char) -> nat
    decreases s.len(),
{
    if s.len() == 0 {
        0
    } else {
        (if s[0] == c {
            1nat
        } else {
            0nat
        }) + count_of(s.skip(1), c)
    }
}

proof fn lemma_count_concat(a: Seq<char>, b: Seq<char>, c: char)
    ensures
        count_of(a + b, c) == count_of(a, c) + count_of(b, c),
    decreases a.len(),
{
    if a.len() == 0 {
        assert(a + b =~= b);
    } else {
        assert((a + b).skip(1) =~= a.skip(1) + b);
        lemma_count_concat(a.skip(1), b, c);
    }
}

proof fn lemma_count_spaces(n: nat)
    ensures
        count_of(spaces(n), ' ') == n,
        spaces(n).len() == n,
    decreases n,
{
    if n > 0 {
        assert(spaces(n).skip(1) =~= spaces((n - 1) as nat));
        lemma_count_spaces((n - 1) as nat);
    }
}

proof fn lemma_count_single(x: char, c: char)
    ensures
        count_of(seq![x], c) == (if x == c {
            1nat
        } else {
            0nat
        }),
{
    assert(seq![x].skip(1) =~= Seq::<char>::empty());
    assert(count_of(Seq::<char>::empty(), c) == 0);
}

proof fn lemma_replace_char_counts(s: Seq<char>, from: char, to: Seq<char>, c: char)
    requires
        c != from,
    ensures
        spec_replace_char(s, from, to).len() == s.len() + count_of(s, from) * (to.len() - 1),
        count_of(spec_replace_char(s, from, to), c) == count_of(s, c) + count_of(s, from)
            * count_of(to, c),
    decreases s.len(),
{
    if s.len() > 0 {
        let rest = spec_replace_char(s.skip(1), from, to);
        lemma_replace_char_counts(s.skip(1), from, to, c);
        let k = count_of(s.skip(1), from);
        let l = to.len() - 1;
        let t = count_of(to, c);
        if s[0] == from {
            assert(spec_replace_char(s, from, to) == to + rest);
            lemma_count_concat(to, rest, c);
            assert(count_of(s, from) == 1 + k);
            assert(count_of(s, c) == count_of(s.skip(1), c));
            assert((k + 1) * l == k * l + l) by (nonlinear_arith);
            assert((k + 1) * t == k * t + t) by (nonlinear_arith);
            assert(spec_replace_char(s, from, to).len() == s.len() + count_of(s, from) * l);
            assert(count_of(spec_replace_char(s, from, to), c) == count_of(s, c) + count_of(s, from) * t);
        } else {
            assert(spec_replace_char(s, from, to) == seq![s[0]] + rest);
            lemma_count_concat(seq![s[0]], rest, c);
            lemma_count_single(s[0], c);
            assert(count_of(s, from) == k);
            assert(spec_replace_char(s, from, to).len() == s.len() + count_of(s, from) * l);
            assert(count_of(spec_replace_char(s, from, to), c) == count_of(s, c) + count_of(s, from) * t);
        }
    } else {
        assert(count_of(s, from) == 0);
        assert(spec_replace_char(s, from, to) == Seq::<char>::empty());
        assert(count_of(Seq::<char>::empty(), c) == 0);
        assert(count_of(s, from) * (to.len() - 1) == 0);
    }
}

/// With only tabs-to-spaces enabled, each tab becomes exactly `tab_width` spaces: the text grows
/// by `tab_width - 1` characters per tab, and holds `tab_width` more spaces per tab than before.
pub proof fn lemma_tabs_become_tab_width_spaces(
    s: Seq<char>,
    options: TransferOptions,
    tab_width: u8,
)
    requires
        options.tabs_to_spaces,
        options.newline == NewlineMode::Keep,
        !options.trim,
        !options.fullwidth_to_space,
    ensures
        spec_apply(s, options, tab_width).len() == s.len() + count_of(s, '\t') * (tab_width - 1),
        count_of(spec_apply(s, options, tab_width), ' ') == count_of(s, ' ') + count_of(s, '\t')
            * tab_width,
{
    lemma_count_spaces(tab_width as nat);
    lemma_replace_char_counts(s, '\t', spaces(tab_width as nat), ' ');
}

} // verus!
