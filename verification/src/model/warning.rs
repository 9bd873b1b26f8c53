use vstd::prelude::*;

verus! {

/// Paste-hazard warnings attached to a captured item.
///
/// Declaration order is the display order; `analysis::analyze` returns them in this order.
#[derive(Debug, Clone, Copy, PartialEq, Eq, Hash, Structural)]
pub enum Warning {
    /// HTML / RTF data accompanies the text.
    HasStyle,
    /// Leading or trailing whitespace or newline.
    EdgeWhitespace,
    /// Contains a tab character.
    HasTab,
    /// Contains CP932 vendor-extension characters.
    PlatformDependent,
    /// Contains control characters or replacement characters.
    ControlOrBinary,
    /// Mixes CRLF / LF / CR.
    MixedNewlines,
    /// BOM, bidi controls, or mixed NFC/NFD.
    EncodingNotice,
}

/// Position of a warning in declaration (display) order.
pub open spec fn warning_rank(w: Warning) -> int {
    match w {
        Warning::HasStyle => 0,
        Warning::EdgeWhitespace => 1,
        Warning::HasTab => 2,
        Warning::PlatformDependent => 3,
        Warning::ControlOrBinary => 4,
        Warning::MixedNewlines => 5,
        Warning::EncodingNotice => 6,
    }
}

} // verus!
