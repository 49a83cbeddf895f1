#![allow(unused_imports)]
use lib_ime::{to_nfc_syllable, HangulFsm, JamoInput, KeyCode, KeyEvent, Layout, LayoutKind, LayoutOutput, Modifiers, OutputForm, Sebeolsik390, ComposeMode};

use lib_ime::LayoutOutput as LO;

fn typeout(keys: &[(KeyCode, bool)]) -> String {
    let layout = Sebeolsik390;
    let mut fsm = HangulFsm::new();
    let mut out = String::new();
    for &(code, shift) in keys {
        let ev = if shift { KeyEvent::shift(code) } else { KeyEvent::plain(code) };
        if let LO::Jamo(j) = layout.map(&ev) {
            let fe = fsm.feed(j);
            if let Some(s) = fe.commit_str() {
                out.push_str(s);
            }
        }
    }
    out.push_str(&fsm.preedit_string());
    to_nfc_syllable(&out)
}

#[test]
fn sebeolsik_annyeong_haseyo() {
    // 안 = j(ᄋ) f(ᅡ) s(ᆫ)
    // 녕 = h(ᄂ) e(ᅧ) a(ᆼ)
    // 하 = m(ᄒ) f(ᅡ)
    // 세 = n(ᄉ) c(ᅦ)
    // 요 = j(ᄋ) 4(ᅭ)
    assert_eq!(
        typeout(&[
            (KeyCode::KeyJ, false), (KeyCode::KeyF, false), (KeyCode::KeyS, false),
            (KeyCode::KeyH, false), (KeyCode::KeyE, false), (KeyCode::KeyA, false),
            (KeyCode::KeyM, false), (KeyCode::KeyF, false),
            (KeyCode::KeyN, false), (KeyCode::KeyC, false),
            (KeyCode::KeyJ, false), (KeyCode::Digit4, false),
        ]),
        "안녕하세요"
    );
}

#[test]
fn hakgyo_via_390() {
    // 학 = m(ᄒ) f(ᅡ) x(ᆨ)
    // 교 = k(ᄀ) 4(ᅭ)
    assert_eq!(
        typeout(&[
            (KeyCode::KeyM, false), (KeyCode::KeyF, false), (KeyCode::KeyX, false),
            (KeyCode::KeyK, false), (KeyCode::Digit4, false),
        ]),
        "학교"
    );
}

#[test]
fn zones_match_libhangul() {
    assert_eq!(
        Sebeolsik390.map(&KeyEvent::plain(KeyCode::KeyK)),
        LayoutOutput::Jamo(JamoInput::cho_only(0x1100))
    );
    assert_eq!(
        Sebeolsik390.map(&KeyEvent::plain(KeyCode::KeyS)),
        LayoutOutput::Jamo(JamoInput::jong_only(0x11AB))
    );
    assert_eq!(
        Sebeolsik390.map(&KeyEvent::plain(KeyCode::KeyF)),
        LayoutOutput::Jamo(JamoInput::vowel(0x1161))
    );
    assert_eq!(
        Sebeolsik390.map(&KeyEvent::plain(KeyCode::Digit4)),
        LayoutOutput::Jamo(JamoInput::vowel(0x116D))
    );
}
