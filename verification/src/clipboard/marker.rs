//! Self-write detection.
//!
//! Two independent signals are combined by the capture service:
//! 1. A private clipboard format written alongside every transfer. Its name differs per
//!    platform convention (UTI on macOS, registered format on Windows, MIME elsewhere).
//! 2. A hash of the last text we wrote, for environments where the private format is dropped.
use vstd::prelude::*;

use std::hash::{DefaultHasher, Hash, Hasher};

use super::conceal::names_of;
use crate::text::str_eq;

verus! {

/// Uniform Type Identifier style name used with NSPasteboard.
pub const MARKER_FORMAT_MACOS: &'static str = "org.clipbuf.marker";
/// Registered clipboard format name on Windows (`RegisterClipboardFormat`).
pub const MARKER_FORMAT_WINDOWS: &'static str = "clipbuf-marker";
/// MIME type / X11 target used on X11 and Wayland.
pub const MARKER_FORMAT_MIME: &'static str = "application/x-clipbuf-marker";

/// The marker format name used on the platform named `os` (`std::env::consts::OS` spelling).
pub open spec fn spec_marker_format(os: Seq<char>) -> Seq<char> {
    if os == "macos"@ {
        "org.clipbuf.marker"@
    } else if os == "windows"@ {
        "clipbuf-marker"@
    } else {
        "application/x-clipbuf-marker"@
    }
}

/// `f` is a platform spelling of the marker format.
pub open spec fn is_marker_format(f: Seq<char>) -> bool {
    ||| f == "org.clipbuf.marker"@
    ||| f == "clipbuf-marker"@
    ||| f == "application/x-clipbuf-marker"@
}

/// Some format name in `formats` is a spelling of the marker format.
pub open spec fn spec_has_marker_format(formats: Seq<Seq<char>>) -> bool {
    exists|i: int| 0 <= i < formats.len() && is_marker_format(#[trigger] formats[i])
}

/// The marker format name for the platform named `os` (as `std::env::consts::OS` spells it).
pub fn marker_format_for(os: &str) -> (res: &'static str)
    ensures
        res@ == spec_marker_format(os@),
{
    if str_eq(os, "macos") {
        MARKER_FORMAT_MACOS
    } else if str_eq(os, "windows") {
        MARKER_FORMAT_WINDOWS
    } else {
        MARKER_FORMAT_MIME
    }
}

/// Whether one format name is a spelling of the marker format.
pub fn is_marker(f: &str) -> (res: bool)
    ensures
        res == is_marker_format(f@),
{
    str_eq(f, MARKER_FORMAT_MACOS) || str_eq(f, MARKER_FORMAT_WINDOWS) || str_eq(
        f,
        MARKER_FORMAT_MIME,
    )
}

/// True when any platform spelling of the marker format is among `formats`.
pub fn has_marker_format(formats: &[&str]) -> (res: bool)
    ensures
        res == spec_has_marker_format(names_of(formats@)),
{
    let mut i: usize = 0;
    while i < formats.len()
        invariant
            i <= formats@.len(),
            forall|j: int| 0 <= j < i ==> !is_marker_format(#[trigger] formats@[j]@),
        decreases formats@.len() - i,
    {
        if is_marker(formats[i]) {
            assert(names_of(formats@)[i as int] == formats@[i as int]@);
            return true;
        }
        i = i + 1;
    }
    assert forall|j: int| 0 <= j < names_of(formats@).len() implies !is_marker_format(
        #[trigger] names_of(formats@)[j],
    ) by {
        assert(names_of(formats@)[j] == formats@[j]@);
    }
    false
}

/// Whatever the platform, the marker format written is recognised as the marker.
pub proof fn lemma_written_marker_is_recognised(os: Seq<char>)
    ensures
        is_marker_format(spec_marker_format(os)),
{
}

/// The hash `DefaultHasher::new()` computes for a text hashed with `str::hash`.
pub uninterp spec fn default_hash(text: Seq<char>) -> u64;

/// `str::hash` into a fresh `DefaultHasher::new()`, then `finish`. Every hasher made by
/// `DefaultHasher::new` starts from the same state, so the hash depends on the text alone;
/// the contract only names it.
#[verifier::external_body]
fn hash_text(text: &str) -> (res: u64)
    ensures
        res == default_hash(text@),
{
    let mut hasher = DefaultHasher::new();
    text.hash(&mut hasher);
    hasher.finish()
}

/// Hash of the text most recently written by clipbuf. Shared between the transfer command
/// (which records) and the capture service (which compares).
#[derive(Debug)]
pub struct LastWrite {
    hash: Option<u64>,
}

impl Default for LastWrite {
    fn default() -> (res: Self)
        ensures
            res.recorded() is None,
    {
        LastWrite { hash: None }
    }
}

impl LastWrite {
    /// The hash of the last recorded text, if any.
    pub closed spec fn recorded(&self) -> Option<u64> {
        self.hash
    }

    /// `text` counts as our own last write.
    pub open spec fn spec_matches(&self, text: Seq<char>) -> bool {
        self.recorded() == Some(default_hash(text))
    }

    pub fn record(&mut self, text: &str)
        ensures
            final(self).recorded() == Some(default_hash(text@)),
    {
        self.hash = Some(hash_text(text));
    }

    pub fn matches(&self, text: &str) -> (res: bool)
        ensures
            res == self.spec_matches(text@),
    {
        match self.hash {
            Some(h) => h == hash_text(text),
            None => false,
        }
    }

    pub fn clear(&mut self)
        ensures
            final(self).recorded() is None,
    {
        self.hash = None;
    }
}

/// A recorded text matches afterwards; after `clear`, nothing matches.
pub proof fn lemma_recorded_text_matches(w: LastWrite, text: Seq<char>, other: Seq<char>)
    ensures
        w.recorded() == Some(default_hash(text)) ==> w.spec_matches(text),
        w.recorded() is None ==> !w.spec_matches(other),
{
}

} // verus!
