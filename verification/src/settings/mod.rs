//! Settings rules: range validation, rebuilding settings from loosely typed stored values, the
//! change set of an update, and the in-memory store that applies updates.
//!
//! The stored file holds one `Settings` object with a schema version. Reading and writing the
//! file, and parsing its JSON into a `SettingsInput`, is done by the runtime around this module.
use vstd::prelude::*;

use crate::model::error::{AppError, ErrorKind};
use crate::model::options::{NewlineMode, TransferOptions, default_transfer_options};
use crate::model::settings::{
    CAPACITY_MAX, CAPACITY_MIN, Language, POLL_INTERVAL_MS_MAX, POLL_INTERVAL_MS_MIN,
    SETTINGS_VERSION, Settings, TAB_WIDTH_MAX, TAB_WIDTH_MIN, default_hotkey,
    is_default_settings, same_settings,
};
use crate::text::{is_whitespace, spec_is_whitespace, str_eq, to_chars};

verus! {

/// Which settings changed in an `update`, so the runtime can apply only what is needed.
#[derive(Debug, Clone, Copy, PartialEq, Eq, Structural)]
pub struct SettingsDiff {
    pub capacity: bool,
    pub hotkey: bool,
    pub tab_width: bool,
    pub poll_interval: bool,
    pub autostart: bool,
    pub language: bool,
    pub transfer: bool,
}

impl Default for SettingsDiff {
    fn default() -> (res: Self)
        ensures
            !res.spec_any(),
    {
        SettingsDiff {
            capacity: false,
            hotkey: false,
            tab_width: false,
            poll_interval: false,
            autostart: false,
            language: false,
            transfer: false,
        }
    }
}

impl SettingsDiff {
    /// Some setting changed.
    pub open spec fn spec_any(&self) -> bool {
        self.capacity || self.hotkey || self.tab_width || self.poll_interval || self.autostart
            || self.language || self.transfer
    }

    pub fn any(&self) -> (res: bool)
        ensures
            res == self.spec_any(),
    {
        self.capacity || self.hotkey || self.tab_width || self.poll_interval || self.autostart
            || self.language || self.transfer
    }
}

/// The hotkey text is empty or whitespace only.
pub open spec fn is_blank(s: Seq<char>) -> bool {
    forall|i: int| 0 <= i < s.len() ==> spec_is_whitespace(#[trigger] s[i])
}

pub open spec fn capacity_ok(v: usize) -> bool {
    CAPACITY_MIN <= v && v <= CAPACITY_MAX
}

pub open spec fn tab_width_ok(v: u8) -> bool {
    TAB_WIDTH_MIN <= v && v <= TAB_WIDTH_MAX
}

pub open spec fn poll_interval_ok(v: u32) -> bool {
    POLL_INTERVAL_MS_MIN <= v && v <= POLL_INTERVAL_MS_MAX
}

/// Every ranged setting is in range and the hotkey is not blank.
pub open spec fn valid_settings(s: Settings) -> bool {
    &&& capacity_ok(s.capacity)
    &&& tab_width_ok(s.tab_width)
    &&& poll_interval_ok(s.poll_interval_ms)
    &&& !is_blank(s.hotkey@)
}

fn hotkey_is_blank(hotkey: &String) -> (res: bool)
    ensures
        res == is_blank(hotkey@),
{
    let chars = to_chars(hotkey.as_str());
    let mut i: usize = 0;
    while i < chars.len()
        invariant
            chars@ == hotkey@,
            i <= chars@.len(),
            forall|j: int| 0 <= j < i ==> spec_is_whitespace(#[trigger] chars@[j]),
        decreases chars@.len() - i,
    {
        if !is_whitespace(chars[i]) {
            return false;
        }
        i = i + 1;
    }
    true
}

/// Range checks for user-supplied settings. Hotkey *syntax* is validated on registration.
pub fn validate(settings: &Settings) -> (res: Result<(), ErrorKind>)
    ensures
        res == if valid_settings(*settings) {
            Ok::<(), ErrorKind>(())
        } else {
            Err::<(), ErrorKind>(ErrorKind::InvalidSettings)
        },
{
    let ok = CAPACITY_MIN <= settings.capacity && settings.capacity <= CAPACITY_MAX
        && TAB_WIDTH_MIN <= settings.tab_width && settings.tab_width <= TAB_WIDTH_MAX
        && POLL_INTERVAL_MS_MIN <= settings.poll_interval_ms && settings.poll_interval_ms
        <= POLL_INTERVAL_MS_MAX && !hotkey_is_blank(&settings.hotkey);
    if ok {
        Ok(())
    } else {
        Err(ErrorKind::InvalidSettings)
    }
}

/// The transfer toggles as read from storage: each is `None` when it was missing or did not
/// have the expected type.
#[derive(Debug, Clone, Copy, PartialEq, Eq, Structural)]
pub struct TransferInput {
    pub keep_style: Option<bool>,
    pub newline: Option<NewlineMode>,
    pub trim: Option<bool>,
    pub tabs_to_spaces: Option<bool>,
    pub fullwidth_to_space: Option<bool>,
}

/// Stored settings, loosely typed: every field is `None` when it was missing or did not have
/// the expected type, so one bad value does not discard the rest.
#[derive(Debug, Clone, PartialEq, Eq)]
pub struct SettingsInput {
    pub capacity: Option<usize>,
    pub hotkey: Option<String>,
    pub tab_width: Option<u8>,
    pub poll_interval_ms: Option<u32>,
    pub autostart: Option<bool>,
    /// `Some(None)` is a stored "follow the OS"; `None` is missing or not a language.
    pub language: Option<Option<Language>>,
    pub preview_wrap: Option<bool>,
    pub transfer: TransferInput,
}

/// A stored value when present and acceptable, else the default.
pub open spec fn pick<T>(v: Option<T>, ok: spec_fn(T) -> bool, default: T) -> T {
    match v {
        Some(x) => if ok(x) { x } else { default },
        None => default,
    }
}

/// `res` is what `sanitize` builds from `input`: every field taken from the input when present
/// and valid, else the default; the schema version is the current one.
pub open spec fn sanitized(res: Settings, input: SettingsInput) -> bool {
    let dt = default_transfer_options();
    &&& res.version == SETTINGS_VERSION
    &&& res.capacity == pick(input.capacity, |v: usize| capacity_ok(v), 20)
    &&& res.hotkey@ == match input.hotkey {
        Some(h) => if !is_blank(h@) { h@ } else { default_hotkey() },
        None => default_hotkey(),
    }
    &&& res.tab_width == pick(input.tab_width, |v: u8| tab_width_ok(v), 4)
    &&& res.poll_interval_ms == pick(input.poll_interval_ms, |v: u32| poll_interval_ok(v), 200)
    &&& res.autostart == pick(input.autostart, |v: bool| true, false)
    &&& res.language == pick(input.language, |v: Option<Language>| true, None)
    &&& res.preview_wrap == pick(input.preview_wrap, |v: bool| true, true)
    &&& res.transfer == TransferOptions {
        keep_style: pick(input.transfer.keep_style, |v: bool| true, dt.keep_style),
        newline: pick(input.transfer.newline, |v: NewlineMode| true, dt.newline),
        trim: pick(input.transfer.trim, |v: bool| true, dt.trim),
        tabs_to_spaces: pick(input.transfer.tabs_to_spaces, |v: bool| true, dt.tabs_to_spaces),
        fullwidth_to_space: pick(
            input.transfer.fullwidth_to_space,
            |v: bool| true,
            dt.fullwidth_to_space,
        ),
    }
}

fn pick_bool(v: Option<bool>, default: bool) -> (res: bool)
    ensures
        res == pick(v, |x: bool| true, default),
{
    match v {
        Some(x) => x,
        None => default,
    }
}

/// Build `Settings` from stored values: missing or invalid fields fall back to defaults, and
/// the schema version is always the current one.
pub fn sanitize(input: SettingsInput) -> (res: Settings)
    ensures
        sanitized(res, input),
        valid_settings(res),
{
    let d = Settings::default();
    proof {
        lemma_default_settings_valid(d);
    }
    let dt = d.transfer;
    let capacity = match input.capacity {
        Some(v) if CAPACITY_MIN <= v && v <= CAPACITY_MAX => v,
        _ => d.capacity,
    };
    let hotkey = match input.hotkey {
        Some(h) => if !hotkey_is_blank(&h) {
            h
        } else {
            d.hotkey
        },
        None => d.hotkey,
    };
    let tab_width = match input.tab_width {
        Some(v) if TAB_WIDTH_MIN <= v && v <= TAB_WIDTH_MAX => v,
        _ => d.tab_width,
    };
    let poll_interval_ms = match input.poll_interval_ms {
        Some(v) if POLL_INTERVAL_MS_MIN <= v && v <= POLL_INTERVAL_MS_MAX => v,
        _ => d.poll_interval_ms,
    };
    let language = match input.language {
        Some(l) => l,
        None => d.language,
    };
    let newline = match input.transfer.newline {
        Some(n) => n,
        None => dt.newline,
    };
    proof {
        reveal_strlit("Alt+Shift+KeyV");
    }
    Settings {
        version: SETTINGS_VERSION,
        capacity,
        hotkey,
        tab_width,
        poll_interval_ms,
        autostart: pick_bool(input.autostart, d.autostart),
        language,
        preview_wrap: pick_bool(input.preview_wrap, d.preview_wrap),
        transfer: TransferOptions {
            keep_style: pick_bool(input.transfer.keep_style, dt.keep_style),
            newline,
            trim: pick_bool(input.transfer.trim, dt.trim),
            tabs_to_spaces: pick_bool(input.transfer.tabs_to_spaces, dt.tabs_to_spaces),
            fullwidth_to_space: pick_bool(input.transfer.fullwidth_to_space, dt.fullwidth_to_space),
        },
    }
}

/// The change set between two settings values.
pub open spec fn spec_diff(old: Settings, new: Settings) -> SettingsDiff {
    SettingsDiff {
        capacity: old.capacity != new.capacity,
        hotkey: old.hotkey@ != new.hotkey@,
        tab_width: old.tab_width != new.tab_width,
        poll_interval: old.poll_interval_ms != new.poll_interval_ms,
        autostart: old.autostart != new.autostart,
        language: old.language != new.language,
        transfer: old.transfer != new.transfer,
    }
}

fn language_eq(a: Option<Language>, b: Option<Language>) -> (res: bool)
    ensures
        res == (a == b),
{
    match (a, b) {
        (None, None) => true,
        (Some(x), Some(y)) => x == y,
        _ => false,
    }
}

/// Which settings differ between `old` and `new`.
pub fn diff(old: &Settings, new: &Settings) -> (res: SettingsDiff)
    ensures
        res == spec_diff(*old, *new),
{
    SettingsDiff {
        capacity: old.capacity != new.capacity,
        hotkey: !str_eq(old.hotkey.as_str(), new.hotkey.as_str()),
        tab_width: old.tab_width != new.tab_width,
        poll_interval: old.poll_interval_ms != new.poll_interval_ms,
        autostart: old.autostart != new.autostart,
        language: !language_eq(old.language, new.language),
        transfer: old.transfer != new.transfer,
    }
}

/// The current settings of the process. Updates are validated before they are taken.
#[derive(Debug)]
pub struct SettingsStore {
    current: Settings,
}

impl View for SettingsStore {
    type V = Settings;

    closed spec fn view(&self) -> Settings {
        self.current
    }
}

impl SettingsStore {
    /// A store holding `settings`.
    pub fn new(settings: Settings) -> (res: Self)
        ensures
            res@ == settings,
    {
        SettingsStore { current: settings }
    }

    /// A copy of the current settings.
    pub fn get(&self) -> (res: Settings)
        ensures
            same_settings(res, self@),
    {
        self.current.clone()
    }

    /// Validate, then swap in `next` with the current schema version. On validation failure
    /// nothing changes.
    pub fn update(&mut self, next: Settings) -> (res: Result<SettingsDiff, AppError>)
        ensures
            valid_settings(next) ==> {
                &&& res == Ok::<SettingsDiff, AppError>(spec_diff(old(self)@, next))
                &&& final(self)@ == Settings { version: SETTINGS_VERSION, ..next }
            },
            !valid_settings(next) ==> {
                &&& res == Err::<SettingsDiff, AppError>(AppError { kind: ErrorKind::InvalidSettings })
                &&& final(self)@ == old(self)@
            },
    {
        match validate(&next) {
            Ok(()) => {},
            Err(kind) => {
                return Err(AppError { kind });
            },
        }
        let next = Settings { version: SETTINGS_VERSION, ..next };
        let changed = diff(&self.current, &next);
        self.current = next;
        Ok(changed)
    }
}

/// The default settings pass validation.
pub proof fn lemma_default_settings_valid(s: Settings)
    requires
        is_default_settings(s),
    ensures
        valid_settings(s),
{
    reveal_strlit("Alt+Shift+KeyV");
    assert(!spec_is_whitespace(s.hotkey@[0]));
}

/// Comparing settings with themselves reports no change, and a change is reported exactly
/// when one of the compared settings differs.
pub proof fn lemma_diff_reports_exactly_the_changes(a: Settings, b: Settings)
    ensures
        !spec_diff(a, a).spec_any(),
        spec_diff(a, b).spec_any() <==> (a.capacity != b.capacity || a.hotkey@ != b.hotkey@
            || a.tab_width != b.tab_width || a.poll_interval_ms != b.poll_interval_ms
            || a.autostart != b.autostart || a.language != b.language || a.transfer
            != b.transfer),
{
}

/// Each flag of the change set reports a change of its own setting and of no other: the
/// capacity flag is set exactly when the capacities differ, the hotkey flag exactly when the
/// hotkey texts differ, and so on for every field.
pub proof fn lemma_diff_flags_each_field(a: Settings, b: Settings)
    ensures
        spec_diff(a, b).capacity <==> a.capacity != b.capacity,
        spec_diff(a, b).hotkey <==> a.hotkey@ != b.hotkey@,
        spec_diff(a, b).tab_width <==> a.tab_width != b.tab_width,
        spec_diff(a, b).poll_interval <==> a.poll_interval_ms != b.poll_interval_ms,
        spec_diff(a, b).autostart <==> a.autostart != b.autostart,
        spec_diff(a, b).language <==> a.language != b.language,
        spec_diff(a, b).transfer <==> a.transfer != b.transfer,
{
}

/// The stored form of settings, every field present with its own value.
pub open spec fn input_of(s: Settings) -> SettingsInput {
    SettingsInput {
        capacity: Some(s.capacity),
        hotkey: Some(s.hotkey),
        tab_width: Some(s.tab_width),
        poll_interval_ms: Some(s.poll_interval_ms),
        autostart: Some(s.autostart),
        language: Some(s.language),
        preview_wrap: Some(s.preview_wrap),
        transfer: TransferInput {
            keep_style: Some(s.transfer.keep_style),
            newline: Some(s.transfer.newline),
            trim: Some(s.transfer.trim),
            tabs_to_spaces: Some(s.transfer.tabs_to_spaces),
            fullwidth_to_space: Some(s.transfer.fullwidth_to_space),
        },
    }
}

/// Settings read back from storage are the settings that were stored, for every valid value
/// of the current schema.
pub proof fn lemma_stored_settings_read_back(s: Settings, res: Settings)
    requires
        valid_settings(s),
        s.version == SETTINGS_VERSION,
        sanitized(res, input_of(s)),
    ensures
        same_settings(res, s),
{
}

} // verus!
