use std::sync::mpsc::{self, Receiver, Sender};
use std::sync::{Arc, Mutex};
use std::time::Duration;

use clipbuf::analysis::analyze;
use clipbuf::app::capture::{Decision, READ_FAILURE_THRESHOLD, decide, process_once};
use clipbuf::app::autostart::{AutostartControl, AutostartError};
use clipbuf::app::events::EventSink;
use clipbuf::app::hotkey::{HotkeyState, Registrar, RegistrarError};
use clipbuf::app::ops::{
    SettingsWriter, apply_settings, clear_items, get_settings, list_items, preview_transfer,
    remove_item, transfer_item, update_settings,
};
use clipbuf::app::platform::display_server_name;
use clipbuf::app::state::AppState;
use clipbuf::app::{RuntimeOpts, parse_runtime_opts};
use clipbuf::buffer::PushResult;
use clipbuf::clipboard::{ClipError, ClipboardEvent, ClipboardPort, WritePayload};
use clipbuf::model::{
    AppError, CaptureCapability, CaptureStatus, ClipboardSnapshot, ErrorKind, ItemDto,
    NewlineMode, Settings, TransferMode, TransferOptions, Warning,
};
use clipbuf::model::item::now_millis;
use clipbuf::settings::SettingsStore;

/// An owned copy of a `WritePayload`, recorded by `FakeClipboard::write`.
#[derive(Debug, Clone, PartialEq, Eq)]
struct WrittenPayload {
    text: String,
    html: Option<String>,
    rtf: Option<String>,
}

/// Test double for `ClipboardPort`: inject clipboard changes and inspect writes.
struct FakeClipboard {
    capability: CaptureCapability,
    current: Mutex<ClipboardSnapshot>,
    sender: Mutex<Option<Sender<ClipboardEvent>>>,
    written: Mutex<Vec<WrittenPayload>>,
    fail_reads: Mutex<bool>,
    fail_writes: Mutex<bool>,
}

impl FakeClipboard {
    fn new(capability: CaptureCapability) -> Self {
        Self {
            capability,
            current: Mutex::new(ClipboardSnapshot::default()),
            sender: Mutex::new(None),
            written: Mutex::new(Vec::new()),
            fail_reads: Mutex::new(false),
            fail_writes: Mutex::new(false),
        }
    }

    fn push_change(&self, snapshot: ClipboardSnapshot) {
        *self.current.lock().unwrap() = snapshot;
        self.notify();
    }

    fn written(&self) -> Vec<WrittenPayload> {
        self.written.lock().unwrap().clone()
    }

    fn fail_reads(&self, fail: bool) {
        *self.fail_reads.lock().unwrap() = fail;
    }

    fn fail_writes(&self, fail: bool) {
        *self.fail_writes.lock().unwrap() = fail;
    }

    fn notify(&self) {
        if let Some(sender) = self.sender.lock().unwrap().as_ref() {
            let _ = sender.send(ClipboardEvent::Changed);
        }
    }
}

impl ClipboardPort for FakeClipboard {
    fn start_watch(&self, sender: Sender<ClipboardEvent>) -> Result<(), ClipError> {
        let mut slot = self.sender.lock().unwrap();
        if slot.is_some() {
            return Err(ClipError::WatchAlreadyStarted);
        }
        *slot = Some(sender);
        Ok(())
    }

    fn read(&self) -> Result<ClipboardSnapshot, ClipError> {
        if *self.fail_reads.lock().unwrap() {
            return Err(ClipError::Read);
        }
        Ok(self.current.lock().unwrap().clone())
    }

    fn write(&self, payload: WritePayload<'_>) -> Result<(), ClipError> {
        if *self.fail_writes.lock().unwrap() {
            return Err(ClipError::Write);
        }
        let written = WrittenPayload {
            text: payload.text.to_string(),
            html: payload.html.map(str::to_string),
            rtf: payload.rtf.map(str::to_string),
        };
        *self.current.lock().unwrap() = ClipboardSnapshot {
            text: Some(written.text.clone()),
            html: written.html.clone(),
            rtf: written.rtf.clone(),
            concealed: false,
            own_marker: true,
        };
        self.written.lock().unwrap().push(written);
        self.notify();
        Ok(())
    }

    fn capability(&self) -> CaptureCapability {
        self.capability
    }
}


type State = AppState<Arc<FakeClipboard>>;

#[derive(Debug, PartialEq, Eq)]
enum Sunk {
    Item(ItemDto),
    Status(CaptureStatus),
}

struct ChannelSink(Mutex<Sender<Sunk>>);

impl EventSink for ChannelSink {
    fn item_added(&self, item: ItemDto) {
        let _ = self.0.lock().unwrap().send(Sunk::Item(item));
    }
    fn items_changed(&self, _items: Vec<ItemDto>) {}
    fn settings_changed(&self, _settings: Settings) {}
    fn window_shown(&self) {}
    fn capture_status(&self, status: CaptureStatus) {
        let _ = self.0.lock().unwrap().send(Sunk::Status(status));
    }
}

fn sink() -> (Arc<ChannelSink>, Receiver<Sunk>) {
    let (tx, rx) = mpsc::channel();
    (Arc::new(ChannelSink(Mutex::new(tx))), rx)
}

fn state_with(fake: Arc<FakeClipboard>) -> State {
    let settings = SettingsStore::new(Settings::default());
    AppState::new(settings, fake)
}

fn text(t: &str) -> ClipboardSnapshot {
    ClipboardSnapshot {
        text: Some(t.to_string()),
        ..ClipboardSnapshot::default()
    }
}

fn no_events(rx: &Receiver<Sunk>) {
    assert!(
        rx.recv_timeout(Duration::from_millis(50)).is_err(),
        "unexpected sink event"
    );
}

// ---- process_once ----------------------------------------------------------------------------

#[test]
fn plain_text_is_captured_analyzed_and_announced_once() {
    let fake = Arc::new(FakeClipboard::new(CaptureCapability::Full));
    let mut state = state_with(fake.clone());
    let (sink, rx) = sink();

    fake.push_change(ClipboardSnapshot {
        html: Some("<b>x</b>".into()),
        ..text("hello\tworld ")
    });
    process_once(&mut state, sink.as_ref());

    let Sunk::Item(item) = rx.recv_timeout(Duration::from_millis(200)).unwrap() else {
        panic!("expected an item")
    };
    assert_eq!(item.text, "hello\tworld ");
    assert!(item.has_style);
    assert_eq!(
        item.warnings,
        vec![Warning::HasStyle, Warning::EdgeWhitespace, Warning::HasTab]
    );
    no_events(&rx);
    assert_eq!(state.buffer.len(), 1);
}

#[test]
fn snapshot_without_text_is_dropped() {
    let fake = Arc::new(FakeClipboard::new(CaptureCapability::Full));
    let mut state = state_with(fake.clone());
    let (sink, rx) = sink();
    fake.push_change(ClipboardSnapshot {
        html: Some("<img>".into()),
        ..ClipboardSnapshot::default()
    });
    process_once(&mut state, sink.as_ref());
    no_events(&rx);
    assert!(state.buffer.is_empty());
}

#[test]
fn concealed_snapshot_is_dropped() {
    let fake = Arc::new(FakeClipboard::new(CaptureCapability::Full));
    let mut state = state_with(fake.clone());
    let (sink, rx) = sink();
    fake.push_change(ClipboardSnapshot {
        concealed: true,
        ..text("hunter2")
    });
    process_once(&mut state, sink.as_ref());
    no_events(&rx);
    assert!(state.buffer.is_empty());
}

#[test]
fn own_marker_snapshot_is_dropped() {
    let fake = Arc::new(FakeClipboard::new(CaptureCapability::Full));
    let mut state = state_with(fake.clone());
    let (sink, rx) = sink();
    fake.push_change(ClipboardSnapshot {
        own_marker: true,
        ..text("ours")
    });
    process_once(&mut state, sink.as_ref());
    no_events(&rx);
    assert!(state.buffer.is_empty());
}

#[test]
fn text_matching_the_last_write_hash_is_dropped() {
    let fake = Arc::new(FakeClipboard::new(CaptureCapability::Full));
    let mut state = state_with(fake.clone());
    let (sink, rx) = sink();
    state.last_write.record("we wrote this");
    // Marker got lost on the way (some environments drop private formats) but the hash matches.
    fake.push_change(text("we wrote this"));
    process_once(&mut state, sink.as_ref());
    no_events(&rx);
    assert!(state.buffer.is_empty());

    // Different text is still captured.
    fake.push_change(text("someone else"));
    process_once(&mut state, sink.as_ref());
    assert!(matches!(
        rx.recv_timeout(Duration::from_millis(200)),
        Ok(Sunk::Item(_))
    ));
}

#[test]
fn duplicate_of_newest_item_is_not_announced_again() {
    let fake = Arc::new(FakeClipboard::new(CaptureCapability::Full));
    let mut state = state_with(fake.clone());
    let (sink, rx) = sink();
    fake.push_change(text("same"));
    process_once(&mut state, sink.as_ref());
    assert!(matches!(
        rx.recv_timeout(Duration::from_millis(200)),
        Ok(Sunk::Item(_))
    ));
    process_once(&mut state, sink.as_ref());
    no_events(&rx);
    assert_eq!(state.buffer.len(), 1);
}

#[test]
fn read_failures_are_ignored_until_the_threshold_then_reported_once() {
    let fake = Arc::new(FakeClipboard::new(CaptureCapability::Full));
    let mut state = state_with(fake.clone());
    let (sink, rx) = sink();
    fake.fail_reads(true);
    for _ in 0..READ_FAILURE_THRESHOLD - 1 {
        process_once(&mut state, sink.as_ref());
        no_events(&rx);
    }
    process_once(&mut state, sink.as_ref());
    assert_eq!(
        rx.recv_timeout(Duration::from_millis(200)).unwrap(),
        Sunk::Status(CaptureStatus::ReadFailed)
    );
    // Further failures do not repeat the notice; a success resets the counter.
    process_once(&mut state, sink.as_ref());
    no_events(&rx);
    fake.fail_reads(false);
    fake.push_change(text("back"));
    process_once(&mut state, sink.as_ref());
    assert!(matches!(
        rx.recv_timeout(Duration::from_millis(200)),
        Ok(Sunk::Item(_))
    ));
    assert_eq!(state.consecutive_read_failures(), 0);
}

#[test]
fn decisions_follow_the_exclusion_chain_and_have_content_free_reasons() {
    let fake = Arc::new(FakeClipboard::new(CaptureCapability::Full));
    let mut state = state_with(fake);
    assert_eq!(decide(ClipboardSnapshot::default(), &state), Decision::NoText);
    // Concealed wins over the marker.
    let both = ClipboardSnapshot {
        concealed: true,
        own_marker: true,
        ..text("x")
    };
    assert_eq!(decide(both, &state), Decision::Concealed);
    state.last_write.record("x");
    assert_eq!(decide(text("x"), &state), Decision::OwnHash);
    let d = decide(text("y"), &state);
    assert_eq!(d.reason(), "capture");
    assert_eq!(Decision::OwnMarker.reason(), "own marker");
    assert_eq!(Decision::NoText.reason(), "no text");
}

// ---- commands ----------------------------------------------------------------------------

#[derive(Default)]
struct Recorded {
    items_changed: Vec<Vec<ItemDto>>,
    settings_changed: Vec<Settings>,
}

#[derive(Default)]
struct RecordingSink(Mutex<Recorded>);

impl EventSink for RecordingSink {
    fn item_added(&self, _item: ItemDto) {}
    fn items_changed(&self, items: Vec<ItemDto>) {
        self.0.lock().unwrap().items_changed.push(items);
    }
    fn settings_changed(&self, settings: Settings) {
        self.0.lock().unwrap().settings_changed.push(settings);
    }
    fn window_shown(&self) {}
    fn capture_status(&self, _status: CaptureStatus) {}
}

struct Fixture {
    fake: Arc<FakeClipboard>,
    state: State,
}

fn fixture() -> Fixture {
    let fake = Arc::new(FakeClipboard::new(CaptureCapability::Full));
    let state = state_with(fake.clone());
    Fixture { fake, state }
}

fn push(state: &mut State, text: &str, html: Option<&str>) -> u64 {
    let warnings = analyze(text, html.is_some());
    match state
        .buffer
        .push(text.into(), html.map(str::to_string), None, warnings, now_millis())
    {
        PushResult::Pushed(id) => id,
        PushResult::Duplicate => panic!("duplicate"),
    }
}

fn set_transfer(state: &mut State, transfer: TransferOptions) {
    let next = Settings {
        transfer,
        ..state.settings.get()
    };
    state.settings.update(next).unwrap();
}

const STYLED: &str = "\tstyled\r\n";
const HTML: &str = "<b>styled</b>";

#[test]
fn options_with_keep_style_on_styled_item_writes_raw_and_reports_skipped_transforms() {
    let mut f = fixture();
    let id = push(&mut f.state, STYLED, Some(HTML));
    set_transfer(
        &mut f.state,
        TransferOptions {
            keep_style: true,
            newline: NewlineMode::Remove,
            trim: true,
            ..TransferOptions::default()
        },
    );
    let outcome = transfer_item(&mut f.state, id, TransferMode::Options).unwrap();
    assert!(outcome.skipped_transforms);
    let w = f.fake.written();
    assert_eq!(w.len(), 1);
    assert_eq!(w[0].text, STYLED);
    assert_eq!(w[0].html.as_deref(), Some(HTML));
    assert!(f.state.last_write.matches(STYLED));
}

#[test]
fn options_with_keep_style_on_plain_item_applies_transforms() {
    let mut f = fixture();
    let id = push(&mut f.state, STYLED, None); // no style data despite the tab/newline
    set_transfer(
        &mut f.state,
        TransferOptions {
            keep_style: true,
            newline: NewlineMode::Remove,
            trim: true,
            ..TransferOptions::default()
        },
    );
    let outcome = transfer_item(&mut f.state, id, TransferMode::Options).unwrap();
    assert!(!outcome.skipped_transforms);
    let w = f.fake.written();
    assert_eq!(w[0].text, "styled");
    assert_eq!(w[0].html, None);
    assert!(f.state.last_write.matches("styled"));
}

#[test]
fn options_without_keep_style_drops_style_and_applies_transforms() {
    let mut f = fixture();
    let id = push(&mut f.state, STYLED, Some(HTML));
    set_transfer(
        &mut f.state,
        TransferOptions {
            keep_style: false,
            newline: NewlineMode::Space,
            tabs_to_spaces: true,
            ..TransferOptions::default()
        },
    );
    let outcome = transfer_item(&mut f.state, id, TransferMode::Options).unwrap();
    assert!(!outcome.skipped_transforms);
    let w = f.fake.written();
    assert_eq!(w[0].text, "    styled "); // tab → 4 spaces (default width), CRLF → 1 space
    assert_eq!(w[0].html, None);
}

#[test]
fn options_uses_the_configured_tab_width() {
    let mut f = fixture();
    let id = push(&mut f.state, "a\tb", None);
    let next = Settings {
        tab_width: 2,
        transfer: TransferOptions {
            tabs_to_spaces: true,
            ..TransferOptions::default()
        },
        ..f.state.settings.get()
    };
    f.state.settings.update(next).unwrap();
    transfer_item(&mut f.state, id, TransferMode::Options).unwrap();
    assert_eq!(f.fake.written()[0].text, "a  b");
}

#[test]
fn plain_mode_writes_text_only_regardless_of_options() {
    let mut f = fixture();
    let id = push(&mut f.state, STYLED, Some(HTML));
    set_transfer(
        &mut f.state,
        TransferOptions {
            keep_style: true,
            newline: NewlineMode::Remove,
            ..TransferOptions::default()
        },
    );
    let outcome = transfer_item(&mut f.state, id, TransferMode::Plain).unwrap();
    assert!(!outcome.skipped_transforms);
    let w = f.fake.written();
    assert_eq!(w[0].text, STYLED);
    assert_eq!(w[0].html, None);
    assert_eq!(w[0].rtf, None);
}

#[test]
fn raw_mode_writes_text_and_style_regardless_of_options() {
    let mut f = fixture();
    let id = push(&mut f.state, STYLED, Some(HTML));
    set_transfer(
        &mut f.state,
        TransferOptions {
            keep_style: false,
            newline: NewlineMode::Remove,
            trim: true,
            ..TransferOptions::default()
        },
    );
    let outcome = transfer_item(&mut f.state, id, TransferMode::Raw).unwrap();
    assert!(!outcome.skipped_transforms);
    let w = f.fake.written();
    assert_eq!(w[0].text, STYLED);
    assert_eq!(w[0].html.as_deref(), Some(HTML));
}

#[test]
fn transfer_never_mutates_the_buffered_item() {
    let mut f = fixture();
    let id = push(&mut f.state, STYLED, Some(HTML));
    set_transfer(
        &mut f.state,
        TransferOptions {
            newline: NewlineMode::Remove,
            trim: true,
            tabs_to_spaces: true,
            ..TransferOptions::default()
        },
    );
    let before = list_items(&f.state);
    for mode in [
        TransferMode::Options,
        TransferMode::Plain,
        TransferMode::Raw,
    ] {
        transfer_item(&mut f.state, id, mode).unwrap();
    }
    assert_eq!(list_items(&f.state), before);
    let item = f.state.buffer.get(id).unwrap();
    assert_eq!(item.text, STYLED);
    assert_eq!(item.html.as_deref(), Some(HTML));
    assert_eq!(
        item.warnings,
        vec![Warning::HasStyle, Warning::EdgeWhitespace, Warning::HasTab]
    );
}

#[test]
fn transfer_errors_carry_only_a_kind() {
    let mut f = fixture();
    assert_eq!(
        transfer_item(&mut f.state, 42, TransferMode::Plain)
            .unwrap_err()
            .kind,
        ErrorKind::ItemNotFound
    );
    let id = push(&mut f.state, "x", None);
    f.fake.fail_writes(true);
    let err = transfer_item(&mut f.state, id, TransferMode::Plain).unwrap_err();
    assert_eq!(err.kind, ErrorKind::WriteFailed);
    assert_eq!(err, AppError::from(ErrorKind::WriteFailed));
    assert_eq!(err.describe(), "WriteFailed");
    // A failed write must not poison self-write exclusion.
    assert!(!f.state.last_write.matches("x"));
}

#[test]
fn list_items_is_newest_first_as_dtos() {
    let mut f = fixture();
    push(&mut f.state, "one", None);
    push(&mut f.state, "two", Some("<i>two</i>"));
    let items = list_items(&f.state);
    assert_eq!(items.len(), 2);
    assert_eq!(items[0].text, "two");
    assert!(items[0].has_style);
    assert_eq!(items[1].text, "one");
    assert!(!items[1].has_style);
}

#[test]
fn remove_item_deletes_one_and_announces_the_new_list() {
    let mut f = fixture();
    let sink = RecordingSink::default();
    let a = push(&mut f.state, "a", None);
    let b = push(&mut f.state, "b", None);
    remove_item(&mut f.state, &sink, a).unwrap();
    let rec = sink.0.lock().unwrap();
    assert_eq!(rec.items_changed.len(), 1);
    assert_eq!(
        rec.items_changed[0]
            .iter()
            .map(|i| i.id)
            .collect::<Vec<_>>(),
        vec![b]
    );
    drop(rec);
    assert_eq!(
        remove_item(&mut f.state, &sink, a).unwrap_err().kind,
        ErrorKind::ItemNotFound
    );
    assert_eq!(
        sink.0.lock().unwrap().items_changed.len(),
        1,
        "no event on failure"
    );
}

#[test]
fn clear_items_empties_the_buffer_and_announces() {
    let mut f = fixture();
    let sink = RecordingSink::default();
    push(&mut f.state, "a", None);
    push(&mut f.state, "b", None);
    clear_items(&mut f.state, &sink);
    assert!(list_items(&f.state).is_empty());
    let rec = sink.0.lock().unwrap();
    assert_eq!(rec.items_changed, vec![Vec::<ItemDto>::new()]);
}

#[test]
fn get_settings_reflects_the_store() {
    let mut f = fixture();
    assert_eq!(get_settings(&f.state), Settings::default());
    let next = Settings {
        capacity: 3,
        ..Settings::default()
    };
    f.state.settings.update(next.clone()).unwrap();
    assert_eq!(get_settings(&f.state), next);
}

#[test]
fn preview_shows_what_an_options_transfer_writes() {
    let mut f = fixture();
    let id = push(&mut f.state, "a\r\nb", None);
    set_transfer(
        &mut f.state,
        TransferOptions {
            newline: NewlineMode::Space,
            ..TransferOptions::default()
        },
    );
    let preview = preview_transfer(&f.state, id).unwrap();
    assert_eq!(preview.text, "a b");
    assert!(!preview.skipped_transforms);
    assert!(f.fake.written().is_empty(), "a preview writes nothing");
    assert_eq!(
        preview_transfer(&f.state, id + 1).unwrap_err().kind,
        ErrorKind::ItemNotFound
    );
}

// ---- platform, runtime options, model ---------------------------------------------------------

#[test]
fn display_server_name_is_derived_from_os_and_session_variables() {
    assert_eq!(display_server_name("macos", false, false), "quartz");
    assert_eq!(display_server_name("windows", false, false), "win32");
    assert_eq!(display_server_name("linux", true, true), "wayland");
    assert_eq!(display_server_name("linux", true, false), "wayland");
    assert_eq!(display_server_name("linux", false, true), "x11");
    assert_eq!(display_server_name("linux", false, false), "none");
}

#[test]
fn runtime_opts_detect_the_hidden_flag() {
    let none: [String; 0] = [];
    assert_eq!(
        parse_runtime_opts(&none),
        RuntimeOpts {
            start_hidden: false
        }
    );
    let args = ["/path/clipbuf".to_string()];
    assert_eq!(
        parse_runtime_opts(&args),
        RuntimeOpts {
            start_hidden: false
        }
    );
    let args = ["/path/clipbuf".to_string(), "--hidden".to_string()];
    assert_eq!(
        parse_runtime_opts(&args),
        RuntimeOpts { start_hidden: true }
    );
}

#[test]
fn capture_status_converts_from_capability() {
    assert_eq!(
        CaptureStatus::from(CaptureCapability::Denied),
        CaptureStatus::Denied
    );
    assert_eq!(
        CaptureStatus::from(CaptureCapability::LimitedXWayland),
        CaptureStatus::LimitedXWayland
    );
}

// ---- hotkey ------------------------------------------------------------------------------

/// A parsed shortcut in these tests: accelerator text is matched case-insensitively against a
/// few known spellings, as the platform parser does.
type Shortcut = u32;

fn parse(s: &str) -> Option<Shortcut> {
    match s.to_ascii_lowercase().as_str() {
        "alt+shift+v" | "alt+shift+keyv" => Some(1),
        "cmdorctrl+shift+c" => Some(2),
        "ctrl+shift+c" => Some(3),
        _ => None,
    }
}

fn sc(s: &str) -> Shortcut {
    parse(s).unwrap()
}

/// Fake registrar that refuses the shortcuts in `reject` and records every call.
struct FakeRegistrar {
    reject: Vec<Shortcut>,
    calls: Mutex<Vec<(&'static str, Shortcut)>>,
    registered: Mutex<Vec<Shortcut>>,
}

impl FakeRegistrar {
    fn new(reject: &[&str]) -> Self {
        Self {
            reject: reject.iter().map(|s| sc(s)).collect(),
            calls: Mutex::new(Vec::new()),
            registered: Mutex::new(Vec::new()),
        }
    }
    fn calls(&self) -> Vec<(&'static str, Shortcut)> {
        self.calls.lock().unwrap().clone()
    }
    fn registered(&self) -> Vec<Shortcut> {
        self.registered.lock().unwrap().clone()
    }
}

impl Registrar<Shortcut> for FakeRegistrar {
    fn register(&self, shortcut: &Shortcut) -> Result<(), RegistrarError> {
        self.calls.lock().unwrap().push(("register", *shortcut));
        if self.reject.contains(shortcut) {
            return Err(RegistrarError);
        }
        self.registered.lock().unwrap().push(*shortcut);
        Ok(())
    }
    fn unregister(&self, shortcut: &Shortcut) -> Result<(), RegistrarError> {
        self.calls.lock().unwrap().push(("unregister", *shortcut));
        self.registered.lock().unwrap().retain(|r| r != shortcut);
        Ok(())
    }
}

#[test]
fn first_registration_sets_the_current_shortcut() {
    let reg = FakeRegistrar::new(&[]);
    let mut state = HotkeyState::default();
    state.apply(&reg, parse("Alt+Shift+V")).expect("registers");
    assert_eq!(state.current(), Some(sc("Alt+Shift+V")));
    assert_eq!(reg.registered(), vec![sc("Alt+Shift+V")]);
}

#[test]
fn changing_the_shortcut_unregisters_the_old_one_first() {
    let reg = FakeRegistrar::new(&[]);
    let mut state = HotkeyState::default();
    state.apply(&reg, parse("Alt+Shift+V")).unwrap();
    state.apply(&reg, parse("CmdOrCtrl+Shift+C")).unwrap();
    assert_eq!(reg.registered(), vec![sc("CmdOrCtrl+Shift+C")]);
    assert_eq!(
        reg.calls(),
        vec![
            ("register", sc("Alt+Shift+V")),
            ("unregister", sc("Alt+Shift+V")),
            ("register", sc("CmdOrCtrl+Shift+C")),
        ]
    );
}

#[test]
fn unparseable_shortcut_is_rejected_and_the_current_one_stays_registered() {
    let reg = FakeRegistrar::new(&[]);
    let mut state = HotkeyState::default();
    state.apply(&reg, parse("Alt+Shift+V")).unwrap();
    let err = state.apply(&reg, parse("not a shortcut")).unwrap_err();
    assert_eq!(err.kind, ErrorKind::HotkeyUnavailable);
    assert_eq!(reg.registered(), vec![sc("Alt+Shift+V")]);
    assert_eq!(
        reg.calls().len(),
        1,
        "nothing was touched for an unparseable string"
    );
}

#[test]
fn registration_failure_restores_the_previous_shortcut() {
    let reg = FakeRegistrar::new(&["Ctrl+Shift+C"]);
    let mut state = HotkeyState::default();
    state.apply(&reg, parse("Alt+Shift+V")).unwrap();
    let err = state.apply(&reg, parse("Ctrl+Shift+C")).unwrap_err();
    assert_eq!(err.kind, ErrorKind::HotkeyUnavailable);
    assert_eq!(state.current(), Some(sc("Alt+Shift+V")));
    assert_eq!(
        reg.registered(),
        vec![sc("Alt+Shift+V")],
        "previous shortcut re-registered"
    );
}

#[test]
fn registration_failure_with_no_previous_shortcut_leaves_nothing_registered() {
    let reg = FakeRegistrar::new(&["Alt+Shift+V"]);
    let mut state = HotkeyState::<Shortcut>::default();
    let err = state.apply(&reg, parse("Alt+Shift+V")).unwrap_err();
    assert_eq!(err.kind, ErrorKind::HotkeyUnavailable);
    assert!(state.current().is_none());
    assert!(reg.registered().is_empty());
}

#[test]
fn applying_the_same_shortcut_again_is_a_no_op() {
    let reg = FakeRegistrar::new(&[]);
    let mut state = HotkeyState::default();
    state.apply(&reg, parse("Alt+Shift+V")).unwrap();
    state.apply(&reg, parse("alt+shift+v")).unwrap();
    assert_eq!(reg.calls().len(), 1);
}

// ---- settings application ----------------------------------------------------------------

#[derive(Default)]
struct FakeAutostart {
    enabled: Mutex<bool>,
    fail: bool,
}

impl AutostartControl for FakeAutostart {
    fn set_enabled(&self, enabled: bool) -> Result<(), AutostartError> {
        if self.fail {
            return Err(AutostartError);
        }
        *self.enabled.lock().unwrap() = enabled;
        Ok(())
    }
}

/// Keeps the last persisted settings in memory.
#[derive(Default)]
struct MemoryWriter(Mutex<Option<Settings>>);

impl SettingsWriter for MemoryWriter {
    fn write(&self, settings: &Settings) -> Result<(), AppError> {
        *self.0.lock().unwrap() = Some(settings.clone());
        Ok(())
    }
}

struct ApplyFixture {
    state: State,
    hotkeys: HotkeyState<Shortcut>,
    registrar: FakeRegistrar,
    autostart: FakeAutostart,
    writer: MemoryWriter,
    sink: RecordingSink,
}

fn apply_fixture(reject: &[&str]) -> ApplyFixture {
    let state = state_with(Arc::new(FakeClipboard::new(CaptureCapability::Full)));
    let mut hotkeys = HotkeyState::default();
    let registrar = FakeRegistrar::new(reject);
    hotkeys
        .apply(&registrar, parse(&state.settings.get().hotkey))
        .unwrap();
    ApplyFixture {
        state,
        hotkeys,
        registrar,
        autostart: FakeAutostart::default(),
        writer: MemoryWriter::default(),
        sink: RecordingSink::default(),
    }
}

impl ApplyFixture {
    fn apply(&mut self, next: Settings) -> Result<Settings, AppError> {
        let parsed = parse(&next.hotkey);
        apply_settings(
            &mut self.state,
            &mut self.hotkeys,
            &self.registrar,
            parsed,
            &self.autostart,
            &self.writer,
            &self.sink,
            next,
        )
    }
}

fn fill(state: &mut State, n: usize) {
    for i in 0..n {
        assert!(matches!(
            state.buffer.push(format!("item {i}"), None, None, vec![], now_millis()),
            PushResult::Pushed(_)
        ));
    }
}

#[test]
fn hotkey_failure_saves_nothing_and_keeps_the_previous_shortcut() {
    let mut f = apply_fixture(&["Ctrl+Shift+C"]);
    let next = Settings {
        hotkey: "Ctrl+Shift+C".into(),
        capacity: 5,
        ..Settings::default()
    };
    let err = f.apply(next).unwrap_err();
    assert_eq!(err.kind, ErrorKind::HotkeyUnavailable);
    assert_eq!(
        f.state.settings.get(),
        Settings::default(),
        "nothing persisted"
    );
    assert!(f.writer.0.lock().unwrap().is_none());
    assert_eq!(f.hotkeys.current(), Some(sc("Alt+Shift+V")));
    assert_eq!(f.state.buffer.capacity(), 20, "capacity not applied");
    let rec = f.sink.0.lock().unwrap();
    assert!(rec.settings_changed.is_empty() && rec.items_changed.is_empty());
}

#[test]
fn invalid_settings_are_rejected_before_touching_the_hotkey() {
    let mut f = apply_fixture(&[]);
    let next = Settings {
        hotkey: "Ctrl+Shift+C".into(),
        capacity: 0,
        ..Settings::default()
    };
    assert_eq!(f.apply(next).unwrap_err().kind, ErrorKind::InvalidSettings);
    assert_eq!(f.hotkeys.current(), Some(sc("Alt+Shift+V")));
}

#[test]
fn successful_update_applies_every_diff_and_announces() {
    let mut f = apply_fixture(&[]);
    fill(&mut f.state, 10);
    let next = Settings {
        hotkey: "Ctrl+Shift+C".into(),
        capacity: 3,
        autostart: true,
        transfer: TransferOptions {
            trim: true,
            ..TransferOptions::default()
        },
        ..Settings::default()
    };
    let applied = f.apply(next.clone()).unwrap();
    assert_eq!(applied, next);
    assert_eq!(f.state.settings.get(), next, "persisted");
    assert_eq!(f.writer.0.lock().unwrap().clone(), Some(next.clone()));
    assert_eq!(f.hotkeys.current(), Some(sc("Ctrl+Shift+C")));
    assert_eq!(f.state.buffer.len(), 3, "buffer truncated");
    assert!(*f.autostart.enabled.lock().unwrap());
    let rec = f.sink.0.lock().unwrap();
    assert_eq!(rec.items_changed.len(), 1);
    assert_eq!(rec.items_changed[0].len(), 3);
    assert_eq!(rec.settings_changed, vec![next]);
}

#[test]
fn unchanged_settings_produce_no_events_and_no_side_effects() {
    let mut f = apply_fixture(&[]);
    fill(&mut f.state, 5);
    let applied = f.apply(Settings::default()).unwrap();
    assert_eq!(applied, Settings::default());
    let rec = f.sink.0.lock().unwrap();
    assert!(rec.items_changed.is_empty());
    assert!(rec.settings_changed.is_empty());
    assert_eq!(f.state.buffer.len(), 5);
}

#[test]
fn growing_capacity_does_not_announce_the_list() {
    let mut f = apply_fixture(&[]);
    fill(&mut f.state, 2);
    let next = Settings {
        capacity: 50,
        ..Settings::default()
    };
    f.apply(next).unwrap();
    let rec = f.sink.0.lock().unwrap();
    assert!(rec.items_changed.is_empty(), "no items were dropped");
    assert_eq!(rec.settings_changed.len(), 1);
}

#[test]
fn autostart_failure_is_logged_but_does_not_fail_the_update() {
    let mut f = apply_fixture(&[]);
    f.autostart.fail = true;
    let next = Settings {
        autostart: true,
        ..Settings::default()
    };
    let applied = f.apply(next.clone()).unwrap();
    assert_eq!(applied, next);
    assert_eq!(f.state.settings.get(), next);
}

struct FailingWriter;

impl SettingsWriter for FailingWriter {
    fn write(&self, _settings: &Settings) -> Result<(), AppError> {
        Err(AppError::from(ErrorKind::SettingsIo))
    }
}

#[test]
fn update_settings_persists_before_storing() {
    let mut state = state_with(Arc::new(FakeClipboard::new(CaptureCapability::Full)));
    let writer = MemoryWriter::default();
    let next = Settings {
        capacity: 7,
        ..Settings::default()
    };
    let (stored, diff) = update_settings(&mut state, &writer, next.clone()).unwrap();
    assert_eq!(stored, next);
    assert!(diff.capacity && !diff.hotkey);
    assert_eq!(writer.0.lock().unwrap().clone(), Some(next.clone()));
    assert_eq!(state.settings.get(), next);
}

#[test]
fn update_settings_stores_nothing_when_the_write_fails() {
    let mut state = state_with(Arc::new(FakeClipboard::new(CaptureCapability::Full)));
    let next = Settings {
        capacity: 7,
        ..Settings::default()
    };
    assert_eq!(
        update_settings(&mut state, &FailingWriter, next),
        Err(AppError::from(ErrorKind::SettingsIo))
    );
    assert_eq!(state.settings.get(), Settings::default());
}

#[test]
fn update_settings_rejects_invalid_settings_without_writing() {
    let mut state = state_with(Arc::new(FakeClipboard::new(CaptureCapability::Full)));
    let writer = MemoryWriter::default();
    let next = Settings {
        capacity: 0,
        ..Settings::default()
    };
    assert_eq!(
        update_settings(&mut state, &writer, next),
        Err(AppError::from(ErrorKind::InvalidSettings))
    );
    assert_eq!(writer.0.lock().unwrap().clone(), None);
}
