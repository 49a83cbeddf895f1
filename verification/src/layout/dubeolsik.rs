//! Two-set standard layout (KS X 5002).
//!
//! Every consonant key carries both a Cho and a Jong conjoining code
//! point; the Hangul FSM picks the role by context. Shift-modified keys
//! map to doubled consonants where they exist.
use vstd::prelude::*;
use super::key::{KeyCode, KeyEvent};
use super::{key_cho_only, key_dual, key_vowel, Layout, LayoutKind, LayoutOutput};
use crate::hangul::jamo::JamoInput;

verus! {

/// Two-set standard layout (KS X 5002).
#[derive(Copy, Clone, Debug, Default)]
pub struct Dubeolsik;

/// The two-set table: the output of each physical key, unshifted or shifted.
pub open spec fn dubeolsik_table(code: KeyCode, shift: bool) -> LayoutOutput {
    match (code, shift) {
        // ─── Top row: consonants ─────────────────────────────────────
        (KeyCode::KeyQ, false) => LayoutOutput::Jamo(key_dual(0x1107, 0x11B8)), // ㅂ
        (KeyCode::KeyQ, true)  => LayoutOutput::Jamo(key_cho_only(0x1108)),         // ㅃ (no Jong form)
        (KeyCode::KeyW, false) => LayoutOutput::Jamo(key_dual(0x110C, 0x11BD)), // ㅈ
        (KeyCode::KeyW, true)  => LayoutOutput::Jamo(key_cho_only(0x110D)),         // ㅉ
        (KeyCode::KeyE, false) => LayoutOutput::Jamo(key_dual(0x1103, 0x11AE)), // ㄷ
        (KeyCode::KeyE, true)  => LayoutOutput::Jamo(key_cho_only(0x1104)),         // ㄸ
        (KeyCode::KeyR, false) => LayoutOutput::Jamo(key_dual(0x1100, 0x11A8)), // ㄱ
        (KeyCode::KeyR, true)  => LayoutOutput::Jamo(key_dual(0x1101, 0x11A9)), // ㄲ
        (KeyCode::KeyT, false) => LayoutOutput::Jamo(key_dual(0x1109, 0x11BA)), // ㅅ
        (KeyCode::KeyT, true)  => LayoutOutput::Jamo(key_dual(0x110A, 0x11BB)), // ㅆ
        // ─── Top row: vowels ─────────────────────────────────────────
        (KeyCode::KeyY, _)     => LayoutOutput::Jamo(key_vowel(0x116D)),            // ㅛ
        (KeyCode::KeyU, _)     => LayoutOutput::Jamo(key_vowel(0x1167)),            // ㅕ
        (KeyCode::KeyI, _)     => LayoutOutput::Jamo(key_vowel(0x1163)),            // ㅑ
        (KeyCode::KeyO, false) => LayoutOutput::Jamo(key_vowel(0x1162)),            // ㅐ
        (KeyCode::KeyO, true)  => LayoutOutput::Jamo(key_vowel(0x1164)),            // ㅒ
        (KeyCode::KeyP, false) => LayoutOutput::Jamo(key_vowel(0x1166)),            // ㅔ
        (KeyCode::KeyP, true)  => LayoutOutput::Jamo(key_vowel(0x1168)),            // ㅖ
        // ─── Home row ────────────────────────────────────────────────
        (KeyCode::KeyA, _)     => LayoutOutput::Jamo(key_dual(0x1106, 0x11B7)), // ㅁ
        (KeyCode::KeyS, _)     => LayoutOutput::Jamo(key_dual(0x1102, 0x11AB)), // ㄴ
        (KeyCode::KeyD, _)     => LayoutOutput::Jamo(key_dual(0x110B, 0x11BC)), // ㅇ
        (KeyCode::KeyF, _)     => LayoutOutput::Jamo(key_dual(0x1105, 0x11AF)), // ㄹ
        (KeyCode::KeyG, _)     => LayoutOutput::Jamo(key_dual(0x1112, 0x11C2)), // ㅎ
        (KeyCode::KeyH, _)     => LayoutOutput::Jamo(key_vowel(0x1169)),            // ㅗ
        (KeyCode::KeyJ, _)     => LayoutOutput::Jamo(key_vowel(0x1165)),            // ㅓ
        (KeyCode::KeyK, _)     => LayoutOutput::Jamo(key_vowel(0x1161)),            // ㅏ
        (KeyCode::KeyL, _)     => LayoutOutput::Jamo(key_vowel(0x1175)),            // ㅣ
        // ─── Bottom row ──────────────────────────────────────────────
        (KeyCode::KeyZ, _)     => LayoutOutput::Jamo(key_dual(0x110F, 0x11BF)), // ㅋ
        (KeyCode::KeyX, _)     => LayoutOutput::Jamo(key_dual(0x1110, 0x11C0)), // ㅌ
        (KeyCode::KeyC, _)     => LayoutOutput::Jamo(key_dual(0x110E, 0x11BE)), // ㅊ
        (KeyCode::KeyV, _)     => LayoutOutput::Jamo(key_dual(0x1111, 0x11C1)), // ㅍ
        (KeyCode::KeyB, _)     => LayoutOutput::Jamo(key_vowel(0x1172)),            // ㅠ
        (KeyCode::KeyN, _)     => LayoutOutput::Jamo(key_vowel(0x116E)),            // ㅜ
        (KeyCode::KeyM, _)     => LayoutOutput::Jamo(key_vowel(0x1173)),            // ㅡ
        _ => LayoutOutput::Passthrough,
    }
}

/// What the layout does with a key event.
pub open spec fn dubeolsik_output(ev: KeyEvent) -> LayoutOutput {
    if !ev.mods.ime_eligible() {
        LayoutOutput::Passthrough
    } else {
        dubeolsik_table(ev.code, ev.mods.shift)
    }
}

impl Layout for Dubeolsik {
    fn id(&self) -> (r: &'static str)
        ensures
            r@ == "dubeolsik-std"@,
    {
        "dubeolsik-std"
    }

    fn name(&self) -> (r: &'static str)
        ensures
            r@ == "두벌식 표준 (KS X 5002)"@,
    {
        "두벌식 표준 (KS X 5002)"
    }

    fn kind(&self) -> (r: LayoutKind)
        ensures
            r == LayoutKind::Dubeolsik,
    {
        LayoutKind::Dubeolsik
    }

    fn map(&self, ev: &KeyEvent) -> (out: LayoutOutput)
        ensures
            out == dubeolsik_output(*ev),
    {
        if !ev.mods.is_ime_eligible() {
            return LayoutOutput::Passthrough;
        }
        map_key(ev.code, ev.mods.shift)
    }
}

fn map_key(code: KeyCode, shift: bool) -> (r: LayoutOutput)
    ensures
        r == dubeolsik_table(code, shift),
{

    match (code, shift) {
        // ─── Top row: consonants ─────────────────────────────────────
        (KeyCode::KeyQ, false) => LayoutOutput::Jamo(JamoInput::cho_dual(0x1107, 0x11B8)), // ㅂ
        (KeyCode::KeyQ, true)  => LayoutOutput::Jamo(JamoInput::cho_only(0x1108)),         // ㅃ (no Jong form)
        (KeyCode::KeyW, false) => LayoutOutput::Jamo(JamoInput::cho_dual(0x110C, 0x11BD)), // ㅈ
        (KeyCode::KeyW, true)  => LayoutOutput::Jamo(JamoInput::cho_only(0x110D)),         // ㅉ
        (KeyCode::KeyE, false) => LayoutOutput::Jamo(JamoInput::cho_dual(0x1103, 0x11AE)), // ㄷ
        (KeyCode::KeyE, true)  => LayoutOutput::Jamo(JamoInput::cho_only(0x1104)),         // ㄸ
        (KeyCode::KeyR, false) => LayoutOutput::Jamo(JamoInput::cho_dual(0x1100, 0x11A8)), // ㄱ
        (KeyCode::KeyR, true)  => LayoutOutput::Jamo(JamoInput::cho_dual(0x1101, 0x11A9)), // ㄲ
        (KeyCode::KeyT, false) => LayoutOutput::Jamo(JamoInput::cho_dual(0x1109, 0x11BA)), // ㅅ
        (KeyCode::KeyT, true)  => LayoutOutput::Jamo(JamoInput::cho_dual(0x110A, 0x11BB)), // ㅆ
        // ─── Top row: vowels ─────────────────────────────────────────
        (KeyCode::KeyY, _)     => LayoutOutput::Jamo(JamoInput::vowel(0x116D)),            // ㅛ
        (KeyCode::KeyU, _)     => LayoutOutput::Jamo(JamoInput::vowel(0x1167)),            // ㅕ
        (KeyCode::KeyI, _)     => LayoutOutput::Jamo(JamoInput::vowel(0x1163)),            // ㅑ
        (KeyCode::KeyO, false) => LayoutOutput::Jamo(JamoInput::vowel(0x1162)),            // ㅐ
        (KeyCode::KeyO, true)  => LayoutOutput::Jamo(JamoInput::vowel(0x1164)),            // ㅒ
        (KeyCode::KeyP, false) => LayoutOutput::Jamo(JamoInput::vowel(0x1166)),            // ㅔ
        (KeyCode::KeyP, true)  => LayoutOutput::Jamo(JamoInput::vowel(0x1168)),            // ㅖ
        // ─── Home row ────────────────────────────────────────────────
        (KeyCode::KeyA, _)     => LayoutOutput::Jamo(JamoInput::cho_dual(0x1106, 0x11B7)), // ㅁ
        (KeyCode::KeyS, _)     => LayoutOutput::Jamo(JamoInput::cho_dual(0x1102, 0x11AB)), // ㄴ
        (KeyCode::KeyD, _)     => LayoutOutput::Jamo(JamoInput::cho_dual(0x110B, 0x11BC)), // ㅇ
        (KeyCode::KeyF, _)     => LayoutOutput::Jamo(JamoInput::cho_dual(0x1105, 0x11AF)), // ㄹ
        (KeyCode::KeyG, _)     => LayoutOutput::Jamo(JamoInput::cho_dual(0x1112, 0x11C2)), // ㅎ
        (KeyCode::KeyH, _)     => LayoutOutput::Jamo(JamoInput::vowel(0x1169)),            // ㅗ
        (KeyCode::KeyJ, _)     => LayoutOutput::Jamo(JamoInput::vowel(0x1165)),            // ㅓ
        (KeyCode::KeyK, _)     => LayoutOutput::Jamo(JamoInput::vowel(0x1161)),            // ㅏ
        (KeyCode::KeyL, _)     => LayoutOutput::Jamo(JamoInput::vowel(0x1175)),            // ㅣ
        // ─── Bottom row ──────────────────────────────────────────────
        (KeyCode::KeyZ, _)     => LayoutOutput::Jamo(JamoInput::cho_dual(0x110F, 0x11BF)), // ㅋ
        (KeyCode::KeyX, _)     => LayoutOutput::Jamo(JamoInput::cho_dual(0x1110, 0x11C0)), // ㅌ
        (KeyCode::KeyC, _)     => LayoutOutput::Jamo(JamoInput::cho_dual(0x110E, 0x11BE)), // ㅊ
        (KeyCode::KeyV, _)     => LayoutOutput::Jamo(JamoInput::cho_dual(0x1111, 0x11C1)), // ㅍ
        (KeyCode::KeyB, _)     => LayoutOutput::Jamo(JamoInput::vowel(0x1172)),            // ㅠ
        (KeyCode::KeyN, _)     => LayoutOutput::Jamo(JamoInput::vowel(0x116E)),            // ㅜ
        (KeyCode::KeyM, _)     => LayoutOutput::Jamo(JamoInput::vowel(0x1173)),            // ㅡ
        _ => LayoutOutput::Passthrough,
    }
}

} // verus!
