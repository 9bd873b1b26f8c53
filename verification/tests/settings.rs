use clipbuf::model::{ErrorKind, Language, NewlineMode, SETTINGS_VERSION, Settings, TransferOptions};
use clipbuf::settings::{
    SettingsDiff, SettingsInput, SettingsStore, TransferInput, diff, sanitize, validate,
};

fn empty_input() -> SettingsInput {
    SettingsInput {
        capacity: None,
        hotkey: None,
        tab_width: None,
        poll_interval_ms: None,
        autostart: None,
        language: None,
        preview_wrap: None,
        transfer: TransferInput {
            keep_style: None,
            newline: None,
            trim: None,
            tabs_to_spaces: None,
            fullwidth_to_space: None,
        },
    }
}

// ---- validate ----------------------------------------------------------------------------

#[test]
fn default_settings_are_valid() {
    assert_eq!(validate(&Settings::default()), Ok(()));
}

#[test]
fn validate_rejects_values_outside_their_ranges() {
    let base = Settings::default();
    let cases = [
        Settings {
            capacity: 0,
            ..base.clone()
        },
        Settings {
            capacity: 201,
            ..base.clone()
        },
        Settings {
            tab_width: 0,
            ..base.clone()
        },
        Settings {
            tab_width: 17,
            ..base.clone()
        },
        Settings {
            poll_interval_ms: 49,
            ..base.clone()
        },
        Settings {
            poll_interval_ms: 2001,
            ..base.clone()
        },
        Settings {
            hotkey: String::new(),
            ..base.clone()
        },
        Settings {
            hotkey: "   ".into(),
            ..base.clone()
        },
    ];
    for s in cases {
        assert_eq!(validate(&s), Err(ErrorKind::InvalidSettings), "{s:?}");
    }
    let edges = Settings {
        capacity: 200,
        tab_width: 16,
        poll_interval_ms: 2000,
        ..base
    };
    assert_eq!(validate(&edges), Ok(()));
}

// ---- sanitize ----------------------------------------------------------------------------

#[test]
fn sanitize_fills_missing_keys_with_defaults() {
    let s = sanitize(SettingsInput {
        capacity: Some(50),
        ..empty_input()
    });
    assert_eq!(
        s,
        Settings {
            capacity: 50,
            ..Settings::default()
        }
    );
}

#[test]
fn sanitize_replaces_out_of_range_or_wrong_type_values_with_defaults() {
    // "capacity": 9999, "hotkey": "", "tabWidth": "four", "pollIntervalMs": 10,
    // "autostart": "yes", "language": "klingon",
    // "transfer": { "keepStyle": true, "newline": "bogus" }
    let s = sanitize(SettingsInput {
        capacity: Some(9999),
        hotkey: Some(String::new()),
        tab_width: None,
        poll_interval_ms: Some(10),
        autostart: None,
        language: None,
        preview_wrap: None,
        transfer: TransferInput {
            keep_style: Some(true),
            newline: None,
            ..empty_input().transfer
        },
    });
    let d = Settings::default();
    assert_eq!(s.capacity, d.capacity);
    assert_eq!(s.hotkey, d.hotkey);
    assert_eq!(s.tab_width, d.tab_width);
    assert_eq!(s.poll_interval_ms, d.poll_interval_ms);
    assert_eq!(s.autostart, d.autostart);
    assert_eq!(s.language, None);
    // A partially valid nested object keeps its valid fields.
    assert!(s.transfer.keep_style);
    assert_eq!(s.transfer.newline, NewlineMode::Keep);
}

#[test]
fn sanitize_ignores_unknown_keys_and_non_objects() {
    let s = sanitize(SettingsInput {
        capacity: Some(7),
        ..empty_input()
    });
    assert_eq!(s.capacity, 7);
    assert_eq!(sanitize(empty_input()), Settings::default());
}

#[test]
fn sanitize_always_yields_the_current_schema_version() {
    assert_eq!(sanitize(empty_input()).version, SETTINGS_VERSION);
}

#[test]
fn stored_settings_are_read_back_unchanged() {
    let s = Settings {
        capacity: 3,
        hotkey: "Alt+V".into(),
        tab_width: 2,
        poll_interval_ms: 300,
        autostart: true,
        language: Some(Language::Ja),
        preview_wrap: false,
        transfer: TransferOptions {
            keep_style: true,
            newline: NewlineMode::Space,
            trim: true,
            tabs_to_spaces: false,
            fullwidth_to_space: true,
        },
        ..Settings::default()
    };
    let input = SettingsInput {
        capacity: Some(s.capacity),
        hotkey: Some(s.hotkey.clone()),
        tab_width: Some(s.tab_width),
        poll_interval_ms: Some(s.poll_interval_ms),
        autostart: Some(s.autostart),
        language: Some(s.language),
        preview_wrap: Some(s.preview_wrap),
        transfer: TransferInput {
            keep_style: Some(s.transfer.keep_style),
            newline: Some(s.transfer.newline),
            trim: Some(s.transfer.trim),
            tabs_to_spaces: Some(s.transfer.tabs_to_spaces),
            fullwidth_to_space: Some(s.transfer.fullwidth_to_space),
        },
    };
    assert_eq!(sanitize(input), s);
}

// ---- diff --------------------------------------------------------------------------------

#[test]
fn diff_flags_only_the_fields_that_changed() {
    let a = Settings::default();
    assert_eq!(diff(&a, &a), SettingsDiff::default());

    let b = Settings {
        capacity: 5,
        hotkey: "Ctrl+Shift+V".into(),
        ..a.clone()
    };
    let d = diff(&a, &b);
    assert!(d.capacity && d.hotkey);
    assert!(!(d.autostart || d.language || d.transfer || d.poll_interval || d.tab_width));
    assert!(d.any());

    let c = Settings {
        autostart: true,
        language: Some(Language::Ja),
        poll_interval_ms: 300,
        tab_width: 2,
        transfer: TransferOptions {
            trim: true,
            ..a.transfer
        },
        ..a.clone()
    };
    let d = diff(&a, &c);
    assert!(d.autostart && d.language && d.poll_interval && d.tab_width && d.transfer);
    assert!(!(d.capacity || d.hotkey));
}

// ---- store -------------------------------------------------------------------------------

#[test]
fn update_validates_persists_and_returns_the_diff() {
    let mut store = SettingsStore::new(Settings::default());

    let next = Settings {
        capacity: 30,
        transfer: TransferOptions {
            keep_style: true,
            newline: NewlineMode::Space,
            trim: true,
            tabs_to_spaces: false,
            fullwidth_to_space: true,
        },
        ..Settings::default()
    };
    let d = store.update(next.clone()).expect("update");
    assert!(d.capacity && d.transfer);
    assert!(!d.hotkey);
    assert_eq!(store.get(), next);
}

#[test]
fn invalid_update_is_rejected_and_nothing_is_written() {
    let mut store = SettingsStore::new(Settings::default());
    let bad = Settings {
        capacity: 0,
        ..Settings::default()
    };
    assert_eq!(
        store.update(bad).unwrap_err().kind,
        ErrorKind::InvalidSettings
    );
    assert_eq!(store.get(), Settings::default());
}

#[test]
fn update_stamps_the_current_schema_version() {
    let mut store = SettingsStore::new(Settings::default());
    let old_schema = Settings {
        version: 0,
        ..Settings::default()
    };
    let d = store.update(old_schema).expect("update");
    assert!(!d.any());
    assert_eq!(store.get().version, SETTINGS_VERSION);
}
