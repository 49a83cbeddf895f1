use lib_ime::layout::custom::{build_layout, CustomLayoutFile, CustomLayoutMeta, CustomLayoutOptions, LoadError, RawBinding};
use lib_ime::layout::key::code_name;
use lib_ime::{parse_keycode, JamoInput, KeyCode, KeyEvent, Layout, LayoutKind, LayoutOutput, Modifiers};

fn file(id: &str, name: &str, kind: &str, moachigi: bool, keys: Vec<(&str, RawBinding)>) -> CustomLayoutFile {
    CustomLayoutFile {
        meta: CustomLayoutMeta { id: id.to_string(), name: name.to_string(), kind: kind.to_string() },
        options: CustomLayoutOptions { moachigi },
        keys: keys.into_iter().map(|(k, b)| (k.to_string(), b)).collect(),
    }
}

fn short(s: &str) -> RawBinding {
    RawBinding::Short(s.to_string())
}

/// id = "mini-dubeolsik", name = "Mini Dubeolsik", kind = "dubeolsik",
/// moachigi = false, KeyR = { base = "U+1100", shift = "U+1101" },
/// KeyK = "U+1161".
fn sample() -> CustomLayoutFile {
    file(
        "mini-dubeolsik",
        "Mini Dubeolsik",
        "dubeolsik",
        false,
        vec![
            ("KeyR", RawBinding::Full { base: "U+1100".to_string(), shift: Some("U+1101".to_string()) }),
            ("KeyK", short("U+1161")),
        ],
    )
}

#[test]
fn parses_minimal_dubeolsik_layout() {
    let layout = build_layout(sample()).expect("parse ok");
    assert_eq!(layout.id_str(), "mini-dubeolsik");
    assert_eq!(layout.name_str(), "Mini Dubeolsik");
    assert_eq!(layout.kind(), LayoutKind::Dubeolsik);
    assert!(!layout.supports_moachigi());

    let r = layout.map(&KeyEvent::plain(KeyCode::KeyR));
    assert_eq!(r, LayoutOutput::Jamo(JamoInput::cho_dual(0x1100, 0x11A8)));

    let shift_r = layout.map(&KeyEvent::shift(KeyCode::KeyR));
    assert_eq!(shift_r, LayoutOutput::Jamo(JamoInput::cho_dual(0x1101, 0x11A9)));

    let k = layout.map(&KeyEvent::plain(KeyCode::KeyK));
    assert_eq!(k, LayoutOutput::Jamo(JamoInput::vowel(0x1161)));

    let z = layout.map(&KeyEvent::plain(KeyCode::KeyZ));
    assert_eq!(z, LayoutOutput::Passthrough);
}

#[test]
fn shift_falls_back_to_base_when_unset() {
    let layout = build_layout(sample()).expect("parse ok");
    let shift_k = layout.map(&KeyEvent::shift(KeyCode::KeyK));
    assert_eq!(shift_k, LayoutOutput::Jamo(JamoInput::vowel(0x1161)));
}

#[test]
fn sebeolsik_cho_stays_cho_only() {
    let layout = build_layout(file("x", "x", "sebeolsik", false, vec![("KeyB", short("U+1100"))])).unwrap();
    let out = layout.map(&KeyEvent::plain(KeyCode::KeyB));
    assert_eq!(out, LayoutOutput::Jamo(JamoInput::cho_only(0x1100)));
}

#[test]
fn direct_character_shorthand() {
    let layout = build_layout(file("x", "x", "dubeolsik", false, vec![("KeyR", short("\u{1100}"))])).unwrap();
    let out = layout.map(&KeyEvent::plain(KeyCode::KeyR));
    assert_eq!(out, LayoutOutput::Jamo(JamoInput::cho_dual(0x1100, 0x11A8)));
}

#[test]
fn custom_rejects_unknown_kind() {
    let err = build_layout(file("x", "x", "blargh", false, vec![])).unwrap_err();
    assert!(matches!(err, LoadError::Validation(_)));
}

#[test]
fn rejects_unknown_keycode() {
    let err = build_layout(file("x", "x", "dubeolsik", false, vec![("NotARealKey", short("U+1100"))])).unwrap_err();
    match err {
        LoadError::Validation(m) => assert!(m.contains("NotARealKey")),
        other => panic!("expected validation error, got {other:?}"),
    }
}

#[test]
fn rejects_out_of_range_codepoint() {
    let err = build_layout(file("x", "x", "dubeolsik", false, vec![("KeyA", short("U+0041"))])).unwrap_err();
    match err {
        LoadError::Validation(m) => assert!(m.contains("U+0041")),
        other => panic!("expected validation error, got {other:?}"),
    }
}

#[test]
fn ime_eligibility_is_respected() {
    let layout = build_layout(sample()).unwrap();
    let ev = KeyEvent { code: KeyCode::KeyR, mods: Modifiers { ctrl: true, ..Modifiers::none() }, repeat: false };
    assert_eq!(layout.map(&ev), LayoutOutput::Passthrough);
}

#[test]
fn jong_and_lowercase_prefix_are_accepted() {
    let layout = build_layout(file("x", "x", "sebeolsik", true, vec![("KeyS", short("u+11ab")), ("KeyK", short("+1161"))]));
    // "+1161" is one character too many for the shorthand and has no U+ prefix.
    assert!(layout.is_err());
    let layout = build_layout(file("x", "x", "sebeolsik", true, vec![("KeyS", short("u+11ab"))])).unwrap();
    assert!(layout.supports_moachigi());
    assert_eq!(layout.map(&KeyEvent::plain(KeyCode::KeyS)), LayoutOutput::Jamo(JamoInput::jong_only(0x11AB)));
}

#[test]
fn malformed_values_report_their_problem() {
    let msg = |v: &str| match build_layout(file("x", "x", "dubeolsik", false, vec![("KeyA", short(v))])).unwrap_err() {
        LoadError::Validation(m) => m,
        other => panic!("unexpected {other:?}"),
    };
    assert_eq!(msg("U+ZZ"), "invalid code point: U+ZZ");
    assert_eq!(msg("U+"), "invalid code point: U+");
    assert_eq!(msg("U+100000000"), "invalid code point: U+100000000");
    assert_eq!(msg(""), "empty code point");
    assert_eq!(msg("ab"), "expected single character or \"U+XXXX\", got \"ab\"");
    assert_eq!(msg("a\"b"), "expected single character or \"U+XXXX\", got \"a\\\"b\"");
    assert_eq!(msg("U+41"), "code point U+0041 is not a conjoining Hangul Jamo");
}

#[test]
fn every_key_is_parsed_from_its_name() {
    assert_eq!(parse_keycode("CapsLock"), Some(KeyCode::CapsLock));
    assert_eq!(parse_keycode("KeyQ"), Some(KeyCode::KeyQ));
    assert_eq!(parse_keycode("Backquote"), Some(KeyCode::Backquote));
    let all = [KeyCode::KeyA, KeyCode::KeyB, KeyCode::KeyC, KeyCode::KeyD, KeyCode::KeyE, KeyCode::KeyF, KeyCode::KeyG, KeyCode::KeyH, KeyCode::KeyI, KeyCode::KeyJ, KeyCode::KeyK, KeyCode::KeyL, KeyCode::KeyM, KeyCode::KeyN, KeyCode::KeyO, KeyCode::KeyP, KeyCode::KeyQ, KeyCode::KeyR, KeyCode::KeyS, KeyCode::KeyT, KeyCode::KeyU, KeyCode::KeyV, KeyCode::KeyW, KeyCode::KeyX, KeyCode::KeyY, KeyCode::KeyZ, KeyCode::Digit0, KeyCode::Digit1, KeyCode::Digit2, KeyCode::Digit3, KeyCode::Digit4, KeyCode::Digit5, KeyCode::Digit6, KeyCode::Digit7, KeyCode::Digit8, KeyCode::Digit9, KeyCode::Space, KeyCode::Enter, KeyCode::Tab, KeyCode::Backspace, KeyCode::Escape, KeyCode::Minus, KeyCode::Equal, KeyCode::BracketLeft, KeyCode::BracketRight, KeyCode::Backslash, KeyCode::Semicolon, KeyCode::Quote, KeyCode::Comma, KeyCode::Period, KeyCode::Slash, KeyCode::Backquote, KeyCode::CapsLock];
    for k in all {
        assert_eq!(parse_keycode(code_name(k)), Some(k));
    }
    assert_eq!(parse_keycode("NotARealKey"), None);
    assert_eq!(parse_keycode("ShiftLeft"), None);
    assert_eq!(parse_keycode("capslock"), None);
}

#[test]
fn later_binding_of_a_key_wins() {
    let layout = build_layout(file("x", "x", "sebeolsik", false, vec![("KeyA", short("U+1100")), ("KeyA", short("U+1161"))])).unwrap();
    assert_eq!(layout.map(&KeyEvent::plain(KeyCode::KeyA)), LayoutOutput::Jamo(JamoInput::vowel(0x1161)));
}

#[test]
fn layout_error_messages() {
    assert_eq!(LoadError::Validation("v".into()).message(), "validation error: v");
    assert_eq!(LoadError::Toml("t".into()).message(), "toml error: t");
    assert_eq!(LoadError::Io("i".into()).message(), "io error: i");
}
