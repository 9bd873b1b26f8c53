use vstd::prelude::*;

use super::warning::Warning;

verus! {

/// Monotonic item identifier, never reused within a process.
pub type ItemId = u64;

#[verifier::external_type_specification]
#[verifier::external_body]
pub struct ExSystemTime(std::time::SystemTime);

/// `SystemTime::now`: the current wall-clock time. Nothing is claimed of the value.
#[verifier::external_body]
pub fn now() -> (t: std::time::SystemTime) {
    std::time::SystemTime::now()
}

/// `SystemTime::duration_since(UNIX_EPOCH)`: the time elapsed since the Unix epoch, or `None`
/// for a time before it. Nothing is claimed of the value: a `SystemTime` is opaque here, so
/// there is no plain value to state it over.
#[verifier::external_body]
fn since_epoch(t: &std::time::SystemTime) -> (d: Option<std::time::Duration>) {
    t.duration_since(std::time::UNIX_EPOCH).ok()
}

/// `Duration::as_millis`: the whole milliseconds of a duration. Nothing is claimed of the
/// value: a `Duration` is opaque here, so there is no plain value to state it over.
#[verifier::external_body]
fn whole_millis(d: &std::time::Duration) -> (ms: u128) {
    d.as_millis()
}

/// A capture time in milliseconds since the Unix epoch, from the elapsed milliseconds (`None`
/// for a time before the epoch): 0 before the epoch, otherwise the count cut to 64 bits.
pub open spec fn spec_epoch_millis(since: Option<u128>) -> u64 {
    match since {
        Some(ms) => ms as u64,
        None => 0,
    }
}

/// A capture time in milliseconds since the Unix epoch, from the elapsed milliseconds (`None`
/// for a time before the epoch): 0 before the epoch, otherwise the count cut to 64 bits.
pub fn epoch_millis(since: Option<u128>) -> (res: u64)
    ensures
        res == spec_epoch_millis(since),
{
    match since {
        Some(ms) => ms as u64,
        None => 0,
    }
}

/// The current wall-clock time in milliseconds since the Unix epoch (0 if the clock is before
/// it). The value comes from the clock; nothing is claimed of it.
pub fn now_millis() -> u64 {
    let since = match since_epoch(&now()) {
        Some(d) => Some(whole_millis(&d)),
        None => None,
    };
    epoch_millis(since)
}

/// What an adapter read from the OS clipboard, before any filtering.
#[derive(Debug, Clone, PartialEq, Eq)]
pub struct ClipboardSnapshot {
    pub text: Option<String>,
    pub html: Option<String>,
    pub rtf: Option<String>,
    /// A password-manager "do not record" marker format is present.
    pub concealed: bool,
    /// clipbuf's own marker format is present, i.e. we wrote this ourselves.
    pub own_marker: bool,
}

impl Default for ClipboardSnapshot {
    fn default() -> (res: Self)
        ensures
            res.text is None,
            res.html is None,
            res.rtf is None,
            !res.concealed,
            !res.own_marker,
    {
        ClipboardSnapshot { text: None, html: None, rtf: None, concealed: false, own_marker: false }
    }
}

/// The view of an optional string.
pub open spec fn opt_view(o: Option<String>) -> Option<Seq<char>> {
    match o {
        Some(s) => Some(s@),
        None => None,
    }
}

/// A copy of an optional string.
pub fn copy_opt(o: &Option<String>) -> (res: Option<String>)
    ensures
        opt_view(res) == opt_view(*o),
{
    match o {
        Some(s) => Some(s.clone()),
        None => None,
    }
}

/// A copy of a list of warnings.
pub fn copy_warnings(v: &Vec<Warning>) -> (res: Vec<Warning>)
    ensures
        res@ == v@,
{
    let mut res: Vec<Warning> = Vec::new();
    let mut i: usize = 0;
    while i < v.len()
        invariant
            i <= v@.len(),
            res@ == v@.take(i as int),
        decreases v@.len() - i,
    {
        res.push(v[i]);
        assert(v@.take(i as int).push(v@[i as int]) =~= v@.take(i + 1));
        i = i + 1;
    }
    assert(v@.take(v@.len() as int) =~= v@);
    res
}

/// A captured item held in the in-memory buffer. Immutable after capture.
#[derive(Debug, Clone, PartialEq, Eq)]
pub struct ClipItem {
    pub id: ItemId,
    /// When the item was captured, in milliseconds since the Unix epoch.
    pub captured_at_ms: u64,
    pub text: String,
    pub html: Option<String>,
    pub rtf: Option<String>,
    pub warnings: Vec<Warning>,
}

/// The data of an item, without its capture time.
pub struct ItemView {
    pub id: ItemId,
    pub text: Seq<char>,
    pub html: Option<Seq<char>>,
    pub rtf: Option<Seq<char>>,
    pub warnings: Seq<Warning>,
}

impl ClipItem {
    /// The item's data, without its capture time.
    pub open spec fn view_data(self) -> ItemView {
        ItemView {
            id: self.id,
            text: self.text@,
            html: opt_view(self.html),
            rtf: opt_view(self.rtf),
            warnings: self.warnings@,
        }
    }

    /// HTML or RTF data was captured alongside the text.
    pub open spec fn spec_has_style(self) -> bool {
        self.html is Some || self.rtf is Some
    }

    /// True when HTML or RTF data was captured alongside the text.
    pub fn has_style(&self) -> (res: bool)
        ensures
            res == self.spec_has_style(),
    {
        self.html.is_some() || self.rtf.is_some()
    }

    /// Frontend representation. Style data itself is never sent; only its presence.
    pub fn to_dto(&self) -> (dto: ItemDto)
        ensures
            dto_matches(dto, *self),
    {
        ItemDto {
            id: self.id,
            captured_at_ms: self.captured_at_ms,
            text: self.text.clone(),
            has_style: self.has_style(),
            warnings: copy_warnings(&self.warnings),
        }
    }
}

/// Item as sent to the frontend. `text` is the full text.
#[derive(Debug, Clone, PartialEq, Eq)]
pub struct ItemDto {
    pub id: ItemId,
    pub captured_at_ms: u64,
    pub text: String,
    pub has_style: bool,
    pub warnings: Vec<Warning>,
}

/// `dto` is the frontend form of `item`: same id, capture time, text and warnings, and whether
/// style data exists (the style data itself is not carried).
pub open spec fn dto_matches(dto: ItemDto, item: ClipItem) -> bool {
    &&& dto.id == item.id
    &&& dto.captured_at_ms == item.captured_at_ms
    &&& dto.text@ == item.text@
    &&& dto.has_style == item.spec_has_style()
    &&& dto.warnings@ == item.warnings@
}

/// Result of a transfer.
#[derive(Debug, Clone, Copy, PartialEq, Eq, Structural)]
pub struct TransferOutcome {
    /// Style was kept, so the enabled text transformations were not applied.
    pub skipped_transforms: bool,
}

/// What an `Options` transfer of an item would write, shown before transferring.
#[derive(Debug, Clone, PartialEq, Eq)]
pub struct TransferPreview {
    pub text: String,
    pub skipped_transforms: bool,
}

} // verus!
