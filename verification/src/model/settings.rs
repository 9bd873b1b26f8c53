use vstd::prelude::*;

use super::options::{NewlineMode, TransferOptions, default_transfer_options};

verus! {

/// Schema version written to `settings.json` for future migrations.
pub const SETTINGS_VERSION: u32 = 1;

/// Smallest and largest number of items kept.
pub const CAPACITY_MIN: usize = 1;
pub const CAPACITY_MAX: usize = 200;

/// Smallest and largest number of spaces per tab.
pub const TAB_WIDTH_MIN: u8 = 1;
pub const TAB_WIDTH_MAX: u8 = 16;

/// Smallest and largest clipboard poll interval, in milliseconds.
pub const POLL_INTERVAL_MS_MIN: u32 = 50;
pub const POLL_INTERVAL_MS_MAX: u32 = 2000;

/// UI language. `None` in `Settings::language` means "follow the OS".
#[derive(Debug, Clone, Copy, PartialEq, Eq, Structural)]
pub enum Language {
    Ja,
    En,
}

/// Persisted user settings. Never contains captured item content.
#[derive(Debug, PartialEq, Eq)]
pub struct Settings {
    pub version: u32,
    /// Number of items kept. Range: `CAPACITY_MIN..=CAPACITY_MAX`.
    pub capacity: usize,
    /// Global shortcut in accelerator syntax.
    pub hotkey: String,
    /// Spaces per tab for `tabs_to_spaces`. Range: `TAB_WIDTH_MIN..=TAB_WIDTH_MAX`.
    pub tab_width: u8,
    /// Clipboard poll interval where polling is used.
    /// Range: `POLL_INTERVAL_MS_MIN..=POLL_INTERVAL_MS_MAX`.
    pub poll_interval_ms: u32,
    /// Launch at OS login.
    pub autostart: bool,
    /// UI language override; `None` follows the OS.
    pub language: Option<Language>,
    /// Wrap long lines in the full-text preview instead of scrolling sideways.
    pub preview_wrap: bool,
    /// Transfer toggles, app-wide.
    pub transfer: TransferOptions,
}

/// The hotkey of the default settings, in physical-key spelling.
pub open spec fn default_hotkey() -> Seq<char> {
    "Alt+Shift+KeyV"@
}

/// `s` holds the default value of every setting.
pub open spec fn is_default_settings(s: Settings) -> bool {
    &&& s.version == SETTINGS_VERSION
    &&& s.capacity == 20
    &&& s.hotkey@ == default_hotkey()
    &&& s.tab_width == 4
    &&& s.poll_interval_ms == 200
    &&& !s.autostart
    &&& s.language is None
    &&& s.preview_wrap
    &&& s.transfer == default_transfer_options()
}

/// Two settings values hold the same data.
pub open spec fn same_settings(a: Settings, b: Settings) -> bool {
    &&& a.version == b.version
    &&& a.capacity == b.capacity
    &&& a.hotkey@ == b.hotkey@
    &&& a.tab_width == b.tab_width
    &&& a.poll_interval_ms == b.poll_interval_ms
    &&& a.autostart == b.autostart
    &&& a.language == b.language
    &&& a.preview_wrap == b.preview_wrap
    &&& a.transfer == b.transfer
}

impl Default for Settings {
    fn default() -> (res: Self)
        ensures
            is_default_settings(res),
    {
        Settings {
            version: SETTINGS_VERSION,
            capacity: 20,
            hotkey: String::from_str("Alt+Shift+KeyV"),
            tab_width: 4,
            poll_interval_ms: 200,
            autostart: false,
            language: None,
            preview_wrap: true,
            transfer: TransferOptions::default(),
        }
    }
}

impl Clone for Settings {
    fn clone(&self) -> (res: Self)
        ensures
            same_settings(res, *self),
    {
        Settings {
            version: self.version,
            capacity: self.capacity,
            hotkey: self.hotkey.clone(),
            tab_width: self.tab_width,
            poll_interval_ms: self.poll_interval_ms,
            autostart: self.autostart,
            language: self.language,
            preview_wrap: self.preview_wrap,
            transfer: self.transfer,
        }
    }
}

} // verus!
