#![allow(unused_imports)]
use lib_ime::{to_nfc_syllable, HangulFsm, JamoInput, KeyCode, KeyEvent, Layout, LayoutKind, LayoutOutput, Modifiers, OutputForm, SebeolsikFinal, ComposeMode, FsmEvent};

use lib_ime::LayoutOutput as LO;

fn typeout_with(mode: ComposeMode, events: &[(KeyCode, bool)]) -> String {
    let layout = SebeolsikFinal;
    let mut fsm = HangulFsm::with_mode(mode);
    let mut out = String::new();
    for &(code, shift) in events {
        let ev = if shift { KeyEvent::shift(code) } else { KeyEvent::plain(code) };
        if let LO::Jamo(j) = layout.map(&ev) {
            let fe = fsm.feed(j);
            if let Some(s) = fe.commit_str() {
                out.push_str(s);
            }
        }
    }
    out.push_str(&fsm.preedit_string());
    to_nfc_syllable(&out)
}

fn typeout(events: &[(KeyCode, bool)]) -> String {
    typeout_with(ComposeMode::Sequential, events)
}

#[test]
fn sebeolsik_final_annyeong_haseyo() {
    // 안 = j(ᄋ) f(ᅡ) s(ᆫ)
    // 녕 = h(ᄂ) e(ᅧ) a(ᆼ)
    // 하 = m(ᄒ) f(ᅡ)
    // 세 = n(ᄉ) c(ᅦ)
    // 요 = j(ᄋ) 4(ᅭ)
    assert_eq!(
        typeout(&[
            (KeyCode::KeyJ, false), (KeyCode::KeyF, false), (KeyCode::KeyS, false),
            (KeyCode::KeyH, false), (KeyCode::KeyE, false), (KeyCode::KeyA, false),
            (KeyCode::KeyM, false), (KeyCode::KeyF, false),
            (KeyCode::KeyN, false), (KeyCode::KeyC, false),
            (KeyCode::KeyJ, false), (KeyCode::Digit4, false),
        ]),
        "안녕하세요"
    );
}

#[test]
fn hakgyo() {
    assert_eq!(
        typeout(&[
            (KeyCode::KeyM, false), (KeyCode::KeyF, false), (KeyCode::KeyX, false),
            (KeyCode::KeyK, false), (KeyCode::Digit4, false),
        ]),
        "학교"
    );
}

#[test]
fn meokda() {
    // 먹 = i(ᄆ) t(ᅥ) x(ᆨ)
    // 다 = u(ᄃ) f(ᅡ)
    assert_eq!(
        typeout(&[
            (KeyCode::KeyI, false), (KeyCode::KeyT, false), (KeyCode::KeyX, false),
            (KeyCode::KeyU, false), (KeyCode::KeyF, false),
        ]),
        "먹다"
    );
}

#[test]
fn compound_jong_via_base_and_shift() {
    // 밝 base-layer: ; f w x (ᄇ ᅡ ᆯ ᆨ  →  ㅂ+ㅏ+ㄺ)
    assert_eq!(
        typeout(&[
            (KeyCode::Semicolon, false), (KeyCode::KeyF, false),
            (KeyCode::KeyW, false), (KeyCode::KeyX, false),
        ]),
        "밝"
    );
    // 밝 shift shortcut: ; f Shift+2 (ᆰ)
    assert_eq!(
        typeout(&[
            (KeyCode::Semicolon, false), (KeyCode::KeyF, false),
            (KeyCode::Digit2, true),
        ]),
        "밝"
    );
}

/// User presses a simple Jong (ᆯ via `KeyW`) then a direct-compound
/// Shift key (ᆲ via `Shift+D`, ᆰ via `Shift+2`, etc.) that starts
/// with that simple. The compound must absorb the existing Jong
/// rather than starting a new syllable.
#[test]
fn simple_then_direct_compound_absorbs() {
    // 갋 = k(ᄀ) f(ᅡ) w(ᆯ) Shift+D(ᆲ)
    assert_eq!(
        typeout(&[
            (KeyCode::KeyK, false), (KeyCode::KeyF, false),
            (KeyCode::KeyW, false), (KeyCode::KeyD, true),
        ]),
        "갋"
    );
    // 갉 = k(ᄀ) f(ᅡ) w(ᆯ) Shift+2(ᆰ)
    assert_eq!(
        typeout(&[
            (KeyCode::KeyK, false), (KeyCode::KeyF, false),
            (KeyCode::KeyW, false), (KeyCode::Digit2, true),
        ]),
        "갉"
    );
    // 값 = k(ᄀ) f(ᅡ) 3(ᆸ) Shift+X(ᆹ)
    assert_eq!(
        typeout(&[
            (KeyCode::KeyK, false), (KeyCode::KeyF, false),
            (KeyCode::Digit3, false), (KeyCode::KeyX, true),
        ]),
        "값"
    );
    // Same cases in Moachigi mode.
    assert_eq!(
        typeout_with(ComposeMode::Moachigi, &[
            (KeyCode::KeyK, false), (KeyCode::KeyF, false),
            (KeyCode::KeyW, false), (KeyCode::KeyD, true),
        ]),
        "갋"
    );
}

#[test]
fn reverse_order_works_in_moachigi() {
    // 안 typed in reverse: s(ᆫ) → f(ᅡ) → j(ᄋ)
    assert_eq!(
        typeout_with(ComposeMode::Moachigi, &[
            (KeyCode::KeyS, false),
            (KeyCode::KeyF, false),
            (KeyCode::KeyJ, false),
        ]),
        "안"
    );
}

#[test]
fn reverse_whole_annyeonghaseyo_in_moachigi() {
    // Each syllable typed Jong → Jung → Cho.
    // 안 = s f j, 녕 = a e h, 하 = f m, 세 = c n, 요 = 4 j
    assert_eq!(
        typeout_with(ComposeMode::Moachigi, &[
            (KeyCode::KeyS, false), (KeyCode::KeyF, false), (KeyCode::KeyJ, false),
            (KeyCode::KeyA, false), (KeyCode::KeyE, false), (KeyCode::KeyH, false),
            (KeyCode::KeyF, false), (KeyCode::KeyM, false),
            (KeyCode::KeyC, false), (KeyCode::KeyN, false),
            (KeyCode::Digit4, false), (KeyCode::KeyJ, false),
        ]),
        "안녕하세요"
    );
}

/// End-to-end sweep: every compound-Jong syllable reachable via
/// Sebeolsik Final keystrokes, through three paths (direct Shift
/// key, component compose, simple-absorbed-by-compound), in both
/// Moachigi and Sequential modes. Regression for
/// "종성 결합이 잘 안되는 문제".
#[test]
#[allow(clippy::type_complexity)]
fn all_compound_jongs_via_sebeolsik_final_keystrokes() {
    // (label, direct, compose, absorb, expected)
    // `direct` = the Shift key that emits the compound Jong directly.
    // `compose` = two Jong keys whose codepoints feed compose_jong.
    // `absorb` = simple component first, then direct compound key.
    // Prefix `k f` (ᄀ+ᅡ) is prepended to every case.
    let cases: &[(
        &str,
        &[(KeyCode, bool)],
        &[(KeyCode, bool)],
        &[(KeyCode, bool)],
        &str,
    )] = &[
        ("ᆩ", &[(KeyCode::Digit1, true)],
         &[(KeyCode::KeyX, false), (KeyCode::KeyX, false)],
         &[(KeyCode::KeyX, false), (KeyCode::Digit1, true)], "갂"),
        ("ᆪ", &[(KeyCode::KeyV, true)],
         &[(KeyCode::KeyX, false), (KeyCode::KeyQ, false)],
         &[(KeyCode::KeyX, false), (KeyCode::KeyV, true)], "갃"),
        ("ᆬ", &[(KeyCode::KeyE, true)],
         &[(KeyCode::KeyS, false), (KeyCode::Digit3, true)],
         &[(KeyCode::KeyS, false), (KeyCode::KeyE, true)], "갅"),
        ("ᆭ", &[(KeyCode::KeyS, true)],
         &[(KeyCode::KeyS, false), (KeyCode::Digit1, false)],
         &[(KeyCode::KeyS, false), (KeyCode::KeyS, true)], "갆"),
        ("ᆰ", &[(KeyCode::Digit2, true)],
         &[(KeyCode::KeyW, false), (KeyCode::KeyX, false)],
         &[(KeyCode::KeyW, false), (KeyCode::Digit2, true)], "갉"),
        ("ᆱ", &[(KeyCode::KeyF, true)],
         &[(KeyCode::KeyW, false), (KeyCode::KeyZ, false)],
         &[(KeyCode::KeyW, false), (KeyCode::KeyF, true)], "갊"),
        ("ᆲ", &[(KeyCode::KeyD, true)],
         &[(KeyCode::KeyW, false), (KeyCode::Digit3, false)],
         &[(KeyCode::KeyW, false), (KeyCode::KeyD, true)], "갋"),
        ("ᆳ", &[(KeyCode::KeyT, true)],
         &[(KeyCode::KeyW, false), (KeyCode::KeyQ, false)],
         &[(KeyCode::KeyW, false), (KeyCode::KeyT, true)], "갌"),
        ("ᆴ", &[(KeyCode::Digit5, true)],
         &[(KeyCode::KeyW, false), (KeyCode::KeyW, true)],
         &[(KeyCode::KeyW, false), (KeyCode::Digit5, true)], "갍"),
        ("ᆵ", &[(KeyCode::Digit4, true)],
         &[(KeyCode::KeyW, false), (KeyCode::KeyQ, true)],
         &[(KeyCode::KeyW, false), (KeyCode::Digit4, true)], "갎"),
        ("ᆶ", &[(KeyCode::KeyR, true)],
         &[(KeyCode::KeyW, false), (KeyCode::Digit1, false)],
         &[(KeyCode::KeyW, false), (KeyCode::KeyR, true)], "갏"),
        ("ᆹ", &[(KeyCode::KeyX, true)],
         &[(KeyCode::Digit3, false), (KeyCode::KeyQ, false)],
         &[(KeyCode::Digit3, false), (KeyCode::KeyX, true)], "값"),
        ("ᆻ", &[(KeyCode::Digit2, false)],
         &[(KeyCode::KeyQ, false), (KeyCode::KeyQ, false)],
         &[(KeyCode::KeyQ, false), (KeyCode::Digit2, false)], "갔"),
    ];
    let prefix = [(KeyCode::KeyK, false), (KeyCode::KeyF, false)];
    let join = |tail: &[(KeyCode, bool)]| -> Vec<(KeyCode, bool)> {
        let mut v = prefix.to_vec();
        v.extend_from_slice(tail);
        v
    };
    for &(label, direct, compose, absorb, expected) in cases {
        for (mode, mode_name) in [
            (ComposeMode::Moachigi, "moachigi"),
            (ComposeMode::Sequential, "sequential"),
        ] {
            assert_eq!(
                typeout_with(mode, &join(direct)), expected,
                "{label} direct ({mode_name})",
            );
            assert_eq!(
                typeout_with(mode, &join(compose)), expected,
                "{label} compose ({mode_name})",
            );
            assert_eq!(
                typeout_with(mode, &join(absorb)), expected,
                "{label} absorb ({mode_name})",
            );
        }
    }
}

#[test]
fn moachigi_accepts_sequential_input_too() {
    // Moachigi is a superset: normal order still works.
    assert_eq!(
        typeout_with(ComposeMode::Moachigi, &[
            (KeyCode::KeyJ, false), (KeyCode::KeyF, false), (KeyCode::KeyS, false),
        ]),
        "안"
    );
}
