use clipbuf::analysis::{
    CharClass, analyze, classify, has_control_or_binary, has_edge_whitespace, has_encoding_notice,
    has_mixed_newlines, has_platform_dependent, has_tab,
};
use clipbuf::analysis::encoding_notice::is_mixed_given;
use clipbuf::analysis::platform_dependent::encoded_in_extension_area;
use clipbuf::model::Warning;

#[test]
fn edge_whitespace() {
    for (text, expected) in [
        ("abc", false),
        (" abc", true),
        ("abc ", true),
        ("abc\n", true),
        ("\u{3000}abc", true),
        ("abc\u{a0}", true),
        ("\tabc", true),
        ("a b", false),
        ("", false),
    ] {
        assert_eq!(has_edge_whitespace(text), expected, "{text:?}");
    }
}

#[test]
fn tab() {
    assert!(has_tab("a\tb"));
    assert!(!has_tab("a b"));
    assert!(!has_tab(""));
}

#[test]
fn platform_dependent() {
    for (text, expected) in [
        ("\u{2460}", true),   // ① NEC row 13
        ("\u{3231}", true),   // ㈱ NEC row 13
        ("\u{9ad9}", true),   // 髙 IBM extension
        ("\u{fa11}", true),   // 﨑 IBM extension
        ("\u{2252}", false),  // ≒ exists in JIS X 0208 row 2 (also NEC row 13) → standard wins
        ("\u{00e9}", false),  // é not encodable in Shift_JIS
        ("\u{1f600}", false), // 😀 not encodable
        ("\u{6f22}", false),  // 漢 JIS X 0208
        ("abc", false),
        ("", false),
    ] {
        assert_eq!(has_platform_dependent(text), expected, "{text:?}");
    }
}

#[test]
fn control_or_binary() {
    for (text, expected) in [
        ("a\tb\nc\r\n", false),
        ("a\u{0}b", true),
        ("a\u{1b}[0m", true),
        ("a\u{7f}", true),
        ("a\u{85}b", true),
        ("a\u{fffd}b", true),
        ("plain", false),
    ] {
        assert_eq!(has_control_or_binary(text), expected, "{text:?}");
    }
}

#[test]
fn mixed_newlines() {
    for (text, expected) in [
        ("a\r\nb\r\n", false),
        ("a\nb\n", false),
        ("a\rb\r", false),
        ("a\r\nb\n", true),
        ("a\nb\r", true),
        ("a\r\nb\rc", true),
        ("no newline", false),
        ("", false),
    ] {
        assert_eq!(has_mixed_newlines(text), expected, "{text:?}");
    }
}

#[test]
fn encoding_notice() {
    for (text, expected) in [
        ("\u{feff}abc", true),       // BOM
        ("abc\u{feff}", false),      // ZWNBSP not at start is not a BOM
        ("a\u{202e}b", true),        // RLO
        ("a\u{2066}b", true),        // LRI
        ("\u{e9}", false),           // pure NFC
        ("e\u{301}", false),         // pure NFD
        ("\u{e9} e\u{301}", true),   // NFC + NFD mixed
        ("\u{30ac}", false),         // ガ NFC
        ("\u{30ab}\u{3099}", false), // カ + combining dakuten: pure NFD
        ("\u{30ac}\u{30ab}\u{3099}", true),
        ("plain ascii", false),
        ("", false),
    ] {
        assert_eq!(has_encoding_notice(text), expected, "{text:?}");
    }
}

#[test]
fn analyze_returns_declaration_order_without_duplicates() {
    let text = "\u{feff}x\t\u{2460}\u{0}\r\ny\n "; // BOM, tab, platform, control, mixed newlines, trailing space
    let warnings = analyze(text, true);
    assert_eq!(
        warnings,
        vec![
            Warning::HasStyle,
            Warning::EdgeWhitespace,
            Warning::HasTab,
            Warning::PlatformDependent,
            Warning::ControlOrBinary,
            Warning::MixedNewlines,
            Warning::EncodingNotice,
        ]
    );
    assert!(analyze("clean", false).is_empty());
    assert_eq!(analyze("clean", true), vec![Warning::HasStyle]);
}

#[test]
fn classify_covers_every_class_and_plain_text() {
    let cases = [
        ('\u{20}', Some(CharClass::Space)),
        ('\u{3000}', Some(CharClass::FullwidthSpace)),
        ('\t', Some(CharClass::Tab)),
        ('\n', Some(CharClass::Newline)),
        ('\r', Some(CharClass::Newline)),
        ('\u{a0}', Some(CharClass::Nbsp)),
        ('\u{202f}', Some(CharClass::Nbsp)),
        ('\u{200b}', Some(CharClass::ZeroWidth)),
        ('\u{feff}', Some(CharClass::ZeroWidth)),
        ('\u{200e}', Some(CharClass::Bidi)),
        ('\u{202e}', Some(CharClass::Bidi)),
        ('\u{2069}', Some(CharClass::Bidi)),
        ('\u{0}', Some(CharClass::Control)),
        ('\u{7f}', Some(CharClass::Control)),
        ('\u{9f}', Some(CharClass::Control)),
        ('\u{fffd}', Some(CharClass::Control)),
        ('a', None),
        ('\u{3042}', None),
        ('\u{2060}', Some(CharClass::ZeroWidth)),
        ('\u{2070}', None),
    ];
    for (c, expected) in cases {
        assert_eq!(classify(c), expected, "{c:?}");
    }
}

#[test]
fn fixture_names_round_trip() {
    let all = [
        CharClass::Space,
        CharClass::FullwidthSpace,
        CharClass::Tab,
        CharClass::Newline,
        CharClass::Nbsp,
        CharClass::ZeroWidth,
        CharClass::Bidi,
        CharClass::Control,
    ];
    for c in all {
        assert_eq!(CharClass::from_fixture_name(c.fixture_name()), Some(c));
    }
    assert_eq!(CharClass::Space.fixture_name(), "space");
    assert_eq!(CharClass::FullwidthSpace.fixture_name(), "fullwidthSpace");
    assert_eq!(CharClass::ZeroWidth.fixture_name(), "zeroWidth");
    assert_eq!(CharClass::from_fixture_name("Space"), None);
    assert_eq!(CharClass::from_fixture_name(""), None);
}

#[test]
fn encoding_notice_reacts_to_normalization_of_non_ascii_only() {
    // U+212B ANGSTROM SIGN changes under both NFC (→ U+00C5) and NFD (→ A + U+030A).
    assert!(has_encoding_notice("\u{212b}"));
    assert!(!has_encoding_notice("abc\u{200f}"));
}

#[test]
fn mixed_means_both_normalizations_change_the_text() {
    let text = ['a', 'b'];
    assert!(is_mixed_given(&text, &['x'], &['y']));
    assert!(!is_mixed_given(&text, &text, &['y']));
    assert!(!is_mixed_given(&text, &['x'], &text));
}

#[test]
fn vendor_extension_needs_an_error_free_encoding_in_the_area() {
    assert!(encoded_in_extension_area(&[0x87, 0x40], false));
    assert!(!encoded_in_extension_area(&[0x87, 0x40], true));
    assert!(!encoded_in_extension_area(&[0x88, 0x9f], false));
    assert!(!encoded_in_extension_area(&[0x26, 0x23], false));
}
