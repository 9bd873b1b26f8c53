//! Rules of the OS clipboard adapter: what it can observe on each backend, and how a snapshot
//! is assembled from the list of available formats.
use vstd::prelude::*;

use super::conceal::{has_concealed_format, names_of, spec_has_concealed_format};
use super::marker::{has_marker_format, spec_has_marker_format};
use crate::model::item::ClipboardSnapshot;
use crate::model::platform::CaptureCapability;

verus! {

/// Which clipboard backend the OS adapter selected.
#[derive(Debug, Clone, Copy, PartialEq, Eq, Structural)]
pub enum Backend {
    /// Windows or macOS: the platform's single native clipboard.
    Native,
    X11,
    Wayland,
}

/// What the adapter can observe. The X11 backend inside a Wayland session only sees what the
/// compositor mirrors into XWayland.
pub open spec fn spec_capability_for(backend: Backend, wayland_session: bool) -> CaptureCapability {
    if backend == Backend::X11 && wayland_session {
        CaptureCapability::LimitedXWayland
    } else {
        CaptureCapability::Full
    }
}

/// What the adapter can observe.
pub fn capability_for(backend: Backend, wayland_session: bool) -> (res: CaptureCapability)
    ensures
        res == spec_capability_for(backend, wayland_session),
{
    match backend {
        Backend::X11 => if wayland_session {
            CaptureCapability::LimitedXWayland
        } else {
            CaptureCapability::Full
        },
        Backend::Wayland | Backend::Native => CaptureCapability::Full,
    }
}

/// The names of a list of owned format names.
pub open spec fn string_names(formats: Seq<String>) -> Seq<Seq<char>> {
    formats.map_values(|f: String| f@)
}

/// The format names as string slices.
fn as_strs(formats: &[String]) -> (res: Vec<&str>)
    ensures
        names_of(res@) == string_names(formats@),
{
    let mut res: Vec<&str> = Vec::new();
    let mut i: usize = 0;
    while i < formats.len()
        invariant
            i <= formats@.len(),
            res@.len() == i,
            forall|j: int| 0 <= j < i ==> (#[trigger] res@[j])@ == formats@[j]@,
        decreases formats@.len() - i,
    {
        res.push(formats[i].as_str());
        i = i + 1;
    }
    assert(names_of(res@) =~= string_names(formats@));
    res
}

/// Assemble a snapshot from the format list, reading content lazily and only when it is
/// neither concealed nor our own write. Style data is read only when text exists.
pub fn build_snapshot<T, H, R>(formats: &[String], read_text: T, read_html: H, read_rtf: R) -> (res:
    ClipboardSnapshot) where
    T: FnOnce() -> Option<String>,
    H: FnOnce() -> Option<String>,
    R: FnOnce() -> Option<String>,

    requires
        call_requires(read_text, ()),
        call_requires(read_html, ()),
        call_requires(read_rtf, ()),
    ensures
        res.concealed == spec_has_concealed_format(string_names(formats@)),
        res.own_marker == spec_has_marker_format(string_names(formats@)),
        (res.concealed || res.own_marker) ==> res.text is None && res.html is None
            && res.rtf is None,
        !(res.concealed || res.own_marker) ==> {
            &&& call_ensures(read_text, (), res.text)
            &&& res.text is None ==> res.html is None && res.rtf is None
            &&& res.text is Some ==> call_ensures(read_html, (), res.html) && call_ensures(
                read_rtf,
                (),
                res.rtf,
            )
        },
{
    let names = as_strs(formats);
    let concealed = has_concealed_format(names.as_slice());
    let own_marker = has_marker_format(names.as_slice());
    if concealed || own_marker {
        return ClipboardSnapshot { text: None, html: None, rtf: None, concealed, own_marker };
    }
    let text = read_text();
    match text {
        None => ClipboardSnapshot {
            text: None,
            html: None,
            rtf: None,
            concealed: false,
            own_marker: false,
        },
        Some(t) => {
            let html = read_html();
            let rtf = read_rtf();
            ClipboardSnapshot { text: Some(t), html, rtf, concealed: false, own_marker: false }
        },
    }
}

} // verus!
