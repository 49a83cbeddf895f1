#![allow(unused_imports)]
use lib_ime::{Dubeolsik, JamoInput, KeyCode, KeyEvent, Layout, LayoutKind, LayoutOutput, Modifiers};

fn plain(code: KeyCode) -> KeyEvent {
    KeyEvent::plain(code)
}
fn shifted(code: KeyCode) -> KeyEvent {
    KeyEvent::shift(code)
}

#[test]
fn r_maps_to_giyeok() {
    let out = Dubeolsik.map(&plain(KeyCode::KeyR));
    assert_eq!(out, LayoutOutput::Jamo(JamoInput::cho_dual(0x1100, 0x11A8)));
}

#[test]
fn shift_r_maps_to_ssangkiyeok() {
    let out = Dubeolsik.map(&shifted(KeyCode::KeyR));
    assert_eq!(out, LayoutOutput::Jamo(JamoInput::cho_dual(0x1101, 0x11A9)));
}

#[test]
fn shift_q_is_cho_only() {
    // ㅃ has no Jong form.
    let out = Dubeolsik.map(&shifted(KeyCode::KeyQ));
    assert_eq!(out, LayoutOutput::Jamo(JamoInput::cho_only(0x1108)));
}

#[test]
fn ctrl_key_is_passthrough() {
    let ev = KeyEvent {
        code: KeyCode::KeyA,
        mods: crate::Modifiers {
            ctrl: true,
            ..crate::Modifiers::none()
        },
        repeat: false,
    };
    assert_eq!(Dubeolsik.map(&ev), LayoutOutput::Passthrough);
}

#[test]
fn space_is_passthrough() {
    assert_eq!(Dubeolsik.map(&plain(KeyCode::Space)), LayoutOutput::Passthrough);
}
