//! Capture step: the only path from a clipboard change to a buffered item.
//!
//! The runtime waits for `ClipboardEvent::Changed`, coalesces bursts, then calls
//! `process_once`, which reads the clipboard once, applies the exclusion chain, analyzes the
//! text and pushes it into the buffer. Nothing here knows about windows and nothing logs item
//! content.
use vstd::prelude::*;

use super::events::EventSink;
use super::state::AppState;
use crate::analysis::{analyze, spec_analyze};
use crate::buffer::{Buffer, PushResult, newest_text_is, push_effect, push_result};
use crate::clipboard::{ClipError, ClipboardPort};
use crate::clipboard::marker::LastWrite;
use crate::model::item::{ClipboardSnapshot, ItemDto, dto_matches, now_millis, opt_view};
use crate::model::platform::CaptureStatus;

verus! {

/// Where captured items and status changes go.
pub trait CaptureSink {
    fn item_added(&self, item: ItemDto);

    fn capture_status(&self, status: CaptureStatus);
}

/// Every event sink takes capture events.
impl<T: EventSink> CaptureSink for T {
    fn item_added(&self, item: ItemDto) {
        EventSink::item_added(self, item)
    }

    fn capture_status(&self, status: CaptureStatus) {
        EventSink::capture_status(self, status)
    }
}

/// Consecutive read failures after which `CaptureStatus::ReadFailed` is reported once.
pub const READ_FAILURE_THRESHOLD: u32 = 5;

/// Upper bound, in milliseconds, on how long a burst of changes may postpone a read.
pub const MAX_COALESCE_MS: u64 = 500;

/// What one wait for the next clipboard change saw.
#[derive(Debug, Clone, Copy, PartialEq, Eq, Structural)]
pub enum Wait {
    /// Another change arrived within the debounce interval.
    Changed,
    /// The clipboard stayed quiet for the debounce interval.
    Quiet,
    /// The watcher is gone.
    Closed,
}

/// While a burst of changes is being coalesced into one read: keep waiting when another change
/// arrived and the burst has lasted less than `MAX_COALESCE_MS`; read now otherwise.
pub fn keep_coalescing(seen: Wait, elapsed_ms: u64) -> (res: bool)
    ensures
        res == (seen == Wait::Changed && elapsed_ms < MAX_COALESCE_MS),
{
    match seen {
        Wait::Changed => elapsed_ms < MAX_COALESCE_MS,
        Wait::Quiet | Wait::Closed => false,
    }
}

/// Result of the exclusion chain for one snapshot.
#[derive(Debug, PartialEq, Eq)]
pub enum Decision {
    Capture { text: String, html: Option<String>, rtf: Option<String> },
    NoText,
    Concealed,
    OwnMarker,
    OwnHash,
}

/// The exclusion chain, in order: no text → concealed → own marker → hash of our last write.
pub open spec fn spec_decide(snapshot: ClipboardSnapshot, last_write: LastWrite) -> Decision {
    match snapshot.text {
        None => Decision::NoText,
        Some(text) => if snapshot.concealed {
            Decision::Concealed
        } else if snapshot.own_marker {
            Decision::OwnMarker
        } else if last_write.spec_matches(text@) {
            Decision::OwnHash
        } else {
            Decision::Capture { text, html: snapshot.html, rtf: snapshot.rtf }
        },
    }
}

/// The content-free label of a decision.
pub open spec fn spec_reason(d: Decision) -> Seq<char> {
    match d {
        Decision::Capture { .. } => "capture"@,
        Decision::NoText => "no text"@,
        Decision::Concealed => "concealed"@,
        Decision::OwnMarker => "own marker"@,
        Decision::OwnHash => "own hash"@,
    }
}

impl Decision {
    /// Content-free label for logs.
    pub fn reason(&self) -> (res: &'static str)
        ensures
            res@ == spec_reason(*self),
    {
        match self {
            Decision::Capture { .. } => "capture",
            Decision::NoText => "no text",
            Decision::Concealed => "concealed",
            Decision::OwnMarker => "own marker",
            Decision::OwnHash => "own hash",
        }
    }
}

/// Exclusion chain in the order required by the design: no text → concealed → own marker →
/// hash of our last write.
pub fn decide<P: ClipboardPort>(snapshot: ClipboardSnapshot, state: &AppState<P>) -> (res: Decision)
    ensures
        res == spec_decide(snapshot, state.last_write),
{
    let text = match snapshot.text {
        None => {
            return Decision::NoText;
        },
        Some(t) => t,
    };
    if snapshot.concealed {
        return Decision::Concealed;
    }
    if snapshot.own_marker {
        return Decision::OwnMarker;
    }
    if state.last_write.matches(text.as_str()) {
        return Decision::OwnHash;
    }
    Decision::Capture { text, html: snapshot.html, rtf: snapshot.rtf }
}

/// What the capture step asks the runtime to announce.
#[derive(Debug, PartialEq, Eq)]
pub enum CaptureNotice {
    /// A new item was stored.
    ItemAdded(ItemDto),
    /// The read-failure threshold was just reached.
    ReadFailed,
    /// Nothing to announce.
    Nothing,
}

/// The failure count after one more failure, wrapping at `u32::MAX`.
pub open spec fn next_failures(n: u32) -> u32 {
    if n == u32::MAX {
        0
    } else {
        (n + 1) as u32
    }
}

/// `new` is `old` after the capture step handled `read` at the time `now_ms` (milliseconds since
/// the Unix epoch), and `notice` is what it announces:
///
/// - a failed read counts one more consecutive failure and is reported exactly when the count
///   reaches the threshold; nothing else changes;
/// - a successful read ends the failure streak; a snapshot that passes the exclusion chain is
///   analyzed and pushed with the capture time `now_ms`, and announced unless it duplicates the
///   newest item; any other
///   snapshot leaves the buffer alone.
pub open spec fn capture_effect<P: ClipboardPort>(
    old: AppState<P>,
    new: AppState<P>,
    read: Result<ClipboardSnapshot, ClipError>,
    now_ms: u64,
    notice: CaptureNotice,
) -> bool {
    &&& new.settings == old.settings
    &&& new.last_write == old.last_write
    &&& match read {
        Err(_) => {
            &&& new.failures() == next_failures(old.failures())
            &&& new.buffer == old.buffer
            &&& notice == if new.failures() == READ_FAILURE_THRESHOLD {
                CaptureNotice::ReadFailed
            } else {
                CaptureNotice::Nothing
            }
        },
        Ok(snapshot) => {
            &&& new.failures() == 0
            &&& match spec_decide(snapshot, old.last_write) {
                Decision::Capture { text, html, rtf } => {
                    let warnings = spec_analyze(text@, html is Some || rtf is Some);
                    &&& push_effect(
                        old.buffer,
                        new.buffer,
                        text@,
                        opt_view(html),
                        opt_view(rtf),
                        warnings,
                        now_ms,
                        push_result(old.buffer, text@),
                    )
                    &&& if newest_text_is(old.buffer@, text@) {
                        notice == CaptureNotice::Nothing
                    } else {
                        &&& notice matches CaptureNotice::ItemAdded(dto)
                        &&& dto_matches(dto, new.buffer@[0])
                    }
                },
                _ => {
                    &&& new.buffer == old.buffer
                    &&& notice == CaptureNotice::Nothing
                },
            }
        },
    }
}

/// Handle one clipboard read result, made at the time `now_ms` (milliseconds since the Unix
/// epoch): count failures, apply the exclusion chain, analyze and store the text, and say what to
/// announce.
pub fn process_read<P: ClipboardPort>(
    state: &mut AppState<P>,
    read: Result<ClipboardSnapshot, ClipError>,
    now_ms: u64,
) -> (notice: CaptureNotice)
    requires
        old(state).buffer.next_id() < u64::MAX,
    ensures
        capture_effect(*old(state), *final(state), read, now_ms, notice),
{
    let snapshot = match read {
        Ok(s) => s,
        Err(_) => {
            let count = state.note_read_failure();
            if count == READ_FAILURE_THRESHOLD {
                return CaptureNotice::ReadFailed;
            }
            return CaptureNotice::Nothing;
        },
    };
    state.note_read_success();
    let ghost decided = spec_decide(snapshot, state.last_write);
    let (text, html, rtf) = match decide(snapshot, state) {
        Decision::Capture { text, html, rtf } => (text, html, rtf),
        _ => {
            return CaptureNotice::Nothing;
        },
    };
    let has_style = html.is_some() || rtf.is_some();
    let warnings = analyze(text.as_str(), has_style);
    match state.buffer.push(text, html, rtf, warnings, now_ms) {
        PushResult::Pushed(id) => {
            match state.buffer.get(id) {
                Some(item) => {
                    proof {
                        state.buffer.inv();
                        assert(state.buffer@[0].id == id);
                        let k = choose|k: int|
                            0 <= k < state.buffer@.len() && #[trigger] state.buffer@[k].id == id;
                        if k != 0 {
                            assert(state.buffer@[k].id < state.buffer@[0].id);
                        }
                    }
                    CaptureNotice::ItemAdded(item.to_dto())
                },
                None => {
                    assert(state.buffer@[0].id == id);
                    CaptureNotice::Nothing
                },
            }
        },
        PushResult::Duplicate => CaptureNotice::Nothing,
    }
}

/// `notice` was handed to `sink`: an added item's DTO to `item_added`, a reached read-failure
/// threshold to `capture_status` as `ReadFailed`; nothing is handed on for `Nothing`.
pub open spec fn announced<S: CaptureSink>(sink: &S, notice: CaptureNotice) -> bool {
    match notice {
        CaptureNotice::ItemAdded(dto) => call_ensures(S::item_added, (sink, dto), ()),
        CaptureNotice::ReadFailed => call_ensures(
            S::capture_status,
            (sink, CaptureStatus::ReadFailed),
            (),
        ),
        CaptureNotice::Nothing => true,
    }
}

/// Read the clipboard once and, if it passes the exclusion chain, add it to the buffer and
/// announce it. Read failures are counted; the threshold triggers a single status report.
///
/// Whatever the port's read returned, and whatever the clock said, the state changes as
/// `capture_effect` says for that result and time, and what it asks to announce is handed to the
/// sink.
pub fn process_once<P: ClipboardPort, S: CaptureSink>(state: &mut AppState<P>, sink: &S)
    requires
        old(state).buffer.next_id() < u64::MAX,
    ensures
        exists|read: Result<ClipboardSnapshot, ClipError>, now_ms: u64, notice: CaptureNotice|
            #![trigger call_ensures(P::read, (&old(state).clipboard,), read), capture_effect(*old(state), *final(state), read, now_ms, notice), announced(sink, notice)]
            call_ensures(P::read, (&old(state).clipboard,), read) && capture_effect(
                *old(state),
                *final(state),
                read,
                now_ms,
                notice,
            ) && announced(sink, notice),
{
    let read = state.clipboard.read();
    let ghost r = read;
    assert(call_ensures(P::read, (&old(state).clipboard,), r));
    let now_ms = now_millis();
    let notice = process_read(state, read, now_ms);
    let ghost n = notice;
    match notice {
        CaptureNotice::ItemAdded(dto) => sink.item_added(dto),
        CaptureNotice::ReadFailed => sink.capture_status(CaptureStatus::ReadFailed),
        CaptureNotice::Nothing => {},
    }
    assert(capture_effect(*old(state), *final(state), r, now_ms, n));
    assert(announced(sink, n));
}

/// Text that clipbuf itself wrote (its hash recorded after a successful transfer) is not
/// captured again, even when the marker format was lost on the way.
pub proof fn lemma_own_write_is_not_recaptured(
    snapshot: ClipboardSnapshot,
    last_write: LastWrite,
    written: Seq<char>,
)
    requires
        last_write.recorded() == Some(crate::clipboard::marker::default_hash(written)),
        snapshot.text matches Some(t) && t@ == written,
    ensures
        !(spec_decide(snapshot, last_write) is Capture),
{
}

/// Concealed content, and content carrying our own marker, is never captured; only
/// text is.
pub proof fn lemma_only_plain_foreign_text_is_captured(snapshot: ClipboardSnapshot, last_write: LastWrite)
    ensures
        spec_decide(snapshot, last_write) is Capture ==> {
            &&& snapshot.text is Some
            &&& !snapshot.concealed
            &&& !snapshot.own_marker
        },
{
}

/// A successful read whose text is neither concealed, nor marked or recorded as our own write,
/// nor the newest item's text is stored as a new newest item carrying the snapshot's text, html
/// and rtf unchanged and the capture time, is flagged `HasStyle` exactly when it has html or rtf,
/// and is announced with a DTO that says whether it has style data.
pub proof fn lemma_capture_keeps_the_snapshot<P: ClipboardPort>(
    old: AppState<P>,
    new: AppState<P>,
    snapshot: ClipboardSnapshot,
    now_ms: u64,
    notice: CaptureNotice,
)
    requires
        old.buffer.inv(),
        capture_effect(old, new, Ok(snapshot), now_ms, notice),
        snapshot.text is Some,
        !snapshot.concealed,
        !snapshot.own_marker,
        old.last_write.recorded() != Some(
            crate::clipboard::marker::default_hash(snapshot.text->0@),
        ),
        !(old.buffer@.len() > 0 && old.buffer@[0].text@ == snapshot.text->0@),
    ensures
        new.buffer@.len() > 0,
        new.buffer@[0].text@ == snapshot.text->0@,
        opt_view(new.buffer@[0].html) == opt_view(snapshot.html),
        opt_view(new.buffer@[0].rtf) == opt_view(snapshot.rtf),
        new.buffer@[0].captured_at_ms == now_ms,
        new.buffer@[0].warnings@.contains(crate::model::warning::Warning::HasStyle) <==> (
        snapshot.html is Some || snapshot.rtf is Some),
        notice matches CaptureNotice::ItemAdded(dto) && dto.has_style == (snapshot.html is Some
            || snapshot.rtf is Some) && dto.text@ == snapshot.text->0@,
{
    let text = snapshot.text->0;
    let has_style = snapshot.html is Some || snapshot.rtf is Some;
    crate::analysis::lemma_analyze_ordered_and_complete(text@, has_style);
    assert(new.buffer@[0].view_data().warnings == new.buffer@[0].warnings@);
}

} // verus!
