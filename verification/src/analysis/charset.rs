//! Classification of whitespace and invisible characters.
use vstd::prelude::*;

use crate::text::str_eq;

verus! {

/// Display class of a non-printing character. Plain text characters have no class.
#[derive(Debug, Clone, Copy, PartialEq, Eq, Structural)]
pub enum CharClass {
    Space,
    FullwidthSpace,
    Tab,
    Newline,
    Nbsp,
    ZeroWidth,
    Bidi,
    Control,
}

/// Name of a class in the shared fixture and in the frontend.
pub open spec fn spec_fixture_name(c: CharClass) -> Seq<char> {
    match c {
        CharClass::Space => "space"@,
        CharClass::FullwidthSpace => "fullwidthSpace"@,
        CharClass::Tab => "tab"@,
        CharClass::Newline => "newline"@,
        CharClass::Nbsp => "nbsp"@,
        CharClass::ZeroWidth => "zeroWidth"@,
        CharClass::Bidi => "bidi"@,
        CharClass::Control => "control"@,
    }
}

/// The class whose fixture name is `name`, if any.
pub open spec fn spec_from_fixture_name(name: Seq<char>) -> Option<CharClass> {
    if exists|c: CharClass| spec_fixture_name(c) == name {
        Some(choose|c: CharClass| spec_fixture_name(c) == name)
    } else {
        None
    }
}

impl CharClass {
    /// Name used in the shared fixture and by the frontend.
    pub fn fixture_name(self) -> (res: &'static str)
        ensures
            res@ == spec_fixture_name(self),
    {
        match self {
            CharClass::Space => "space",
            CharClass::FullwidthSpace => "fullwidthSpace",
            CharClass::Tab => "tab",
            CharClass::Newline => "newline",
            CharClass::Nbsp => "nbsp",
            CharClass::ZeroWidth => "zeroWidth",
            CharClass::Bidi => "bidi",
            CharClass::Control => "control",
        }
    }

    /// The class whose fixture name is `name`, if any.
    pub fn from_fixture_name(name: &str) -> (res: Option<CharClass>)
        ensures
            res == spec_from_fixture_name(name@),
    {
        proof {
            lemma_fixture_names_distinct();
        }
        let all: [CharClass; 8] = [
            CharClass::Space,
            CharClass::FullwidthSpace,
            CharClass::Tab,
            CharClass::Newline,
            CharClass::Nbsp,
            CharClass::ZeroWidth,
            CharClass::Bidi,
            CharClass::Control,
        ];
        let mut i: usize = 0;
        while i < 8
            invariant
                i <= 8,
                all@ == seq![
                    CharClass::Space,
                    CharClass::FullwidthSpace,
                    CharClass::Tab,
                    CharClass::Newline,
                    CharClass::Nbsp,
                    CharClass::ZeroWidth,
                    CharClass::Bidi,
                    CharClass::Control,
                ],
                forall|j: int| 0 <= j < i ==> spec_fixture_name(#[trigger] all@[j]) != name@,
            decreases 8 - i,
        {
            let c = all[i];
            if str_eq(c.fixture_name(), name) {
                proof {
                    lemma_fixture_names_distinct();
                    assert(spec_fixture_name(c) == name@);
                    assert(exists|x: CharClass| spec_fixture_name(x) == name@);
                    let d = choose|d: CharClass| spec_fixture_name(d) == name@;
                    assert(spec_fixture_name(d) == spec_fixture_name(c));
                    assert(d == c);
                }
                return Some(c);
            }
            i = i + 1;
        }
        proof {
            assert forall|c: CharClass| spec_fixture_name(c) != name@ by {
                match c {
                    CharClass::Space => assert(all@[0] == c),
                    CharClass::FullwidthSpace => assert(all@[1] == c),
                    CharClass::Tab => assert(all@[2] == c),
                    CharClass::Newline => assert(all@[3] == c),
                    CharClass::Nbsp => assert(all@[4] == c),
                    CharClass::ZeroWidth => assert(all@[5] == c),
                    CharClass::Bidi => assert(all@[6] == c),
                    CharClass::Control => assert(all@[7] == c),
                }
            }
        }
        None
    }
}

/// Different classes have different fixture names.
pub proof fn lemma_fixture_names_distinct()
    ensures
        forall|a: CharClass, b: CharClass|
            spec_fixture_name(a) == spec_fixture_name(b) ==> a == b,
{
    reveal_strlit("space");
    reveal_strlit("fullwidthSpace");
    reveal_strlit("tab");
    reveal_strlit("newline");
    reveal_strlit("nbsp");
    reveal_strlit("zeroWidth");
    reveal_strlit("bidi");
    reveal_strlit("control");
    assert forall|a: CharClass, b: CharClass|
        spec_fixture_name(a) == spec_fixture_name(b) implies a == b by {
        if a != b {
            let x = spec_fixture_name(a);
            let y = spec_fixture_name(b);
            assert(x.len() != y.len() || x[0] != y[0] || x[1] != y[1] || x[2] != y[2]);
        }
    }
}

/// Looking a class up by its own fixture name gives the class back.
pub proof fn lemma_fixture_name_round_trip(c: CharClass)
    ensures
        spec_from_fixture_name(spec_fixture_name(c)) == Some(c),
{
    lemma_fixture_names_distinct();
    let d = choose|d: CharClass| spec_fixture_name(d) == spec_fixture_name(c);
    assert(spec_fixture_name(d) == spec_fixture_name(c));
}

/// The bidirectional embedding / override / isolate controls U+202A–U+202E, U+2066–U+2069.
pub open spec fn spec_is_bidi_control(c: char) -> bool {
    (0x202a <= c as u32 && c as u32 <= 0x202e) || (0x2066 <= c as u32 && c as u32 <= 0x2069)
}

/// C0 controls except tab / LF / CR, DEL, C1 controls, or U+FFFD.
pub open spec fn spec_is_control_or_binary(c: char) -> bool {
    let u = c as u32;
    ||| u <= 0x08
    ||| u == 0x0b
    ||| u == 0x0c
    ||| (0x0e <= u && u <= 0x1f)
    ||| (0x7f <= u && u <= 0x9f)
    ||| u == 0xfffd
}

/// Bidirectional control characters that the `EncodingNotice` warning reacts to.
/// This is a subset of `CharClass::Bidi`: the marks U+200E/U+200F are displayed but not warned.
pub fn is_bidi_control(c: char) -> (res: bool)
    ensures
        res == spec_is_bidi_control(c),
{
    let u = c as u32;
    (0x202a <= u && u <= 0x202e) || (0x2066 <= u && u <= 0x2069)
}

/// C0 (except tab / LF / CR), DEL, C1, or the replacement character.
pub fn is_control_or_binary(c: char) -> (res: bool)
    ensures
        res == spec_is_control_or_binary(c),
{
    let u = c as u32;
    u <= 0x08 || u == 0x0b || u == 0x0c || (0x0e <= u && u <= 0x1f) || (0x7f <= u && u <= 0x9f)
        || u == 0xfffd
}

/// The display class of one character; `None` is ordinary visible text.
pub open spec fn spec_classify(c: char) -> Option<CharClass> {
    let u = c as u32;
    if u == 0x20 {
        Some(CharClass::Space)
    } else if u == 0x3000 {
        Some(CharClass::FullwidthSpace)
    } else if u == 0x09 {
        Some(CharClass::Tab)
    } else if u == 0x0a || u == 0x0d {
        Some(CharClass::Newline)
    } else if u == 0xa0 || u == 0x202f {
        Some(CharClass::Nbsp)
    } else if u == 0x200b || u == 0x200c || u == 0x200d || u == 0x2060 || u == 0xfeff {
        Some(CharClass::ZeroWidth)
    } else if u == 0x200e || u == 0x200f || spec_is_bidi_control(c) {
        Some(CharClass::Bidi)
    } else if spec_is_control_or_binary(c) {
        Some(CharClass::Control)
    } else {
        None
    }
}

/// Classify one character. `None` means ordinary visible text.
pub fn classify(c: char) -> (res: Option<CharClass>)
    ensures
        res == spec_classify(c),
{
    let u = c as u32;
    if u == 0x20 {
        Some(CharClass::Space)
    } else if u == 0x3000 {
        Some(CharClass::FullwidthSpace)
    } else if u == 0x09 {
        Some(CharClass::Tab)
    } else if u == 0x0a || u == 0x0d {
        Some(CharClass::Newline)
    } else if u == 0xa0 || u == 0x202f {
        Some(CharClass::Nbsp)
    } else if u == 0x200b || u == 0x200c || u == 0x200d || u == 0x2060 || u == 0xfeff {
        Some(CharClass::ZeroWidth)
    } else if u == 0x200e || u == 0x200f || is_bidi_control(c) {
        Some(CharClass::Bidi)
    } else if is_control_or_binary(c) {
        Some(CharClass::Control)
    } else {
        None
    }
}

/// Every character that the `ControlOrBinary` warning reacts to is displayed as a control,
/// and every one that the `EncodingNotice` warning reacts to as a bidi character.
pub proof fn lemma_warned_characters_are_classified(c: char)
    ensures
        spec_is_control_or_binary(c) ==> spec_classify(c) == Some(CharClass::Control),
        spec_is_bidi_control(c) ==> spec_classify(c) == Some(CharClass::Bidi),
{
}

} // verus!
