//! "Do not record this" markers set by password managers and similar apps.
//!
//! Each is an extra clipboard format whose presence, not content, carries the meaning.
//! clipbuf only detects them; it never sets them.
use vstd::prelude::*;

use crate::text::str_eq;

verus! {

/// Known conceal markers: macOS (nspasteboard.org convention), Windows (registered format
/// honoured by Cloud Clipboard / history), KDE (Klipper hint).
pub const CONCEALED_FORMATS: [&'static str; 3] = [
    "org.nspasteboard.ConcealedType",
    "ExcludeClipboardContentFromMonitorProcessing",
    "x-kde-passwordManagerHint",
];

/// `f` is one of the conceal marker format names.
pub open spec fn is_concealed_format(f: Seq<char>) -> bool {
    ||| f == "org.nspasteboard.ConcealedType"@
    ||| f == "ExcludeClipboardContentFromMonitorProcessing"@
    ||| f == "x-kde-passwordManagerHint"@
}

/// Some format name in `formats` is a conceal marker.
pub open spec fn spec_has_concealed_format(formats: Seq<Seq<char>>) -> bool {
    exists|i: int| 0 <= i < formats.len() && is_concealed_format(#[trigger] formats[i])
}

/// The names of a list of formats.
pub open spec fn names_of(formats: Seq<&str>) -> Seq<Seq<char>> {
    formats.map_values(|f: &str| f@)
}

/// Whether one format name is a conceal marker.
pub fn is_concealed(f: &str) -> (res: bool)
    ensures
        res == is_concealed_format(f@),
{
    str_eq(f, "org.nspasteboard.ConcealedType") || str_eq(
        f,
        "ExcludeClipboardContentFromMonitorProcessing",
    ) || str_eq(f, "x-kde-passwordManagerHint")
}

/// True when any conceal marker is among `formats`.
pub fn has_concealed_format(formats: &[&str]) -> (res: bool)
    ensures
        res == spec_has_concealed_format(names_of(formats@)),
{
    let mut i: usize = 0;
    while i < formats.len()
        invariant
            i <= formats@.len(),
            forall|j: int| 0 <= j < i ==> !is_concealed_format(#[trigger] formats@[j]@),
        decreases formats@.len() - i,
    {
        if is_concealed(formats[i]) {
            assert(names_of(formats@)[i as int] == formats@[i as int]@);
            return true;
        }
        i = i + 1;
    }
    assert forall|j: int| 0 <= j < names_of(formats@).len() implies !is_concealed_format(
        #[trigger] names_of(formats@)[j],
    ) by {
        assert(names_of(formats@)[j] == formats@[j]@);
    }
    false
}

} // verus!
