//! Three-set layout 3-90.
//!
//! Unshifted keys give base-layer Hangul (Cho / Jung / Jong
//! assignments); Shift + letter gives additional finals, including
//! compound finals. Positions without a Hangul mapping pass through.
use vstd::prelude::*;
use super::key::{KeyCode, KeyEvent};
use super::{key_cho, key_jong, key_jung, Layout, LayoutKind, LayoutOutput};
use crate::hangul::jamo::JamoInput;

verus! {

/// 세벌식 390.
#[derive(Copy, Clone, Debug, Default)]
pub struct Sebeolsik390;

/// The 세벌식 390 table: the output of each physical key, unshifted or
/// shifted.
pub open spec fn sebeolsik_table(code: KeyCode, shift: bool) -> LayoutOutput {
    match (code, shift) {
        // ────────── Base layer (unshifted) ──────────
        // Digit row
        (KeyCode::Digit1, false) => key_jong(0x11C2), // ᇂ ㅎ
        (KeyCode::Digit2, false) => key_jong(0x11BB), // ᆻ ㅆ
        (KeyCode::Digit3, false) => key_jong(0x11B8), // ᆸ ㅂ
        (KeyCode::Digit4, false) => key_jung(0x116D), // ᅭ ㅛ
        (KeyCode::Digit5, false) => key_jung(0x1172), // ᅲ ㅠ
        (KeyCode::Digit6, false) => key_jung(0x1163), // ᅣ ㅑ
        (KeyCode::Digit7, false) => key_jung(0x1168), // ᅨ ㅖ
        (KeyCode::Digit8, false) => key_jung(0x1174), // ᅴ ㅢ
        (KeyCode::Digit9, false) => key_jung(0x116E), // ᅮ ㅜ
        (KeyCode::Digit0, false) => key_cho(0x110F),  // ᄏ ㅋ
        // Top row (Jong on the left, Jung in the middle, Cho on the right)
        (KeyCode::KeyQ, false) => key_jong(0x11BA), // ᆺ ㅅ
        (KeyCode::KeyW, false) => key_jong(0x11AF), // ᆯ ㄹ
        (KeyCode::KeyE, false) => key_jung(0x1167), // ᅧ ㅕ
        (KeyCode::KeyR, false) => key_jung(0x1162), // ᅢ ㅐ
        (KeyCode::KeyT, false) => key_jung(0x1165), // ᅥ ㅓ
        (KeyCode::KeyY, false) => key_cho(0x1105),  // ᄅ ㄹ
        (KeyCode::KeyU, false) => key_cho(0x1103),  // ᄃ ㄷ
        (KeyCode::KeyI, false) => key_cho(0x1106),  // ᄆ ㅁ
        (KeyCode::KeyO, false) => key_cho(0x110E),  // ᄎ ㅊ
        (KeyCode::KeyP, false) => key_cho(0x1111),  // ᄑ ㅍ
        // Home row
        (KeyCode::KeyA, false) => key_jong(0x11BC), // ᆼ ㅇ
        (KeyCode::KeyS, false) => key_jong(0x11AB), // ᆫ ㄴ
        (KeyCode::KeyD, false) => key_jung(0x1175), // ᅵ ㅣ
        (KeyCode::KeyF, false) => key_jung(0x1161), // ᅡ ㅏ
        (KeyCode::KeyG, false) => key_jung(0x1173), // ᅳ ㅡ
        (KeyCode::KeyH, false) => key_cho(0x1102),  // ᄂ ㄴ
        (KeyCode::KeyJ, false) => key_cho(0x110B),  // ᄋ ㅇ
        (KeyCode::KeyK, false) => key_cho(0x1100),  // ᄀ ㄱ
        (KeyCode::KeyL, false) => key_cho(0x110C),  // ᄌ ㅈ
        (KeyCode::Semicolon, false) => key_cho(0x1107), // ᄇ ㅂ
        (KeyCode::Quote, false) => key_cho(0x1110),     // ᄐ ㅌ
        // Bottom row
        (KeyCode::KeyZ, false) => key_jong(0x11B7), // ᆷ ㅁ
        (KeyCode::KeyX, false) => key_jong(0x11A8), // ᆨ ㄱ
        (KeyCode::KeyC, false) => key_jung(0x1166), // ᅦ ㅔ
        (KeyCode::KeyV, false) => key_jung(0x1169), // ᅩ ㅗ
        (KeyCode::KeyB, false) => key_jung(0x116E), // ᅮ ㅜ (alt)
        (KeyCode::KeyN, false) => key_cho(0x1109),  // ᄉ ㅅ
        (KeyCode::KeyM, false) => key_cho(0x1112),  // ᄒ ㅎ
        (KeyCode::Slash, false) => key_jung(0x1169), // ᅩ ㅗ (alt)
        // ────────── Shift layer ──────────
        // Digit row: Shift+digit adds a Jong shortcut where libhangul defines it.
        (KeyCode::Digit1, true) => key_jong(0x11BD), // Shift+1 → ᆽ ㅈ
        // Letters: Shift+letter exposes additional Jong
        (KeyCode::KeyA, true) => key_jong(0x11AE), // ᆮ ㄷ
        (KeyCode::KeyC, true) => key_jong(0x11B1), // ᆱ ㄻ
        (KeyCode::KeyD, true) => key_jong(0x11B0), // ᆰ ㄺ
        (KeyCode::KeyE, true) => key_jong(0x11BF), // ᆿ ㅋ
        (KeyCode::KeyF, true) => key_jong(0x11A9), // ᆩ ㄲ
        (KeyCode::KeyQ, true) => key_jong(0x11C1), // ᇁ ㅍ
        (KeyCode::KeyR, true) => key_jung(0x1164), // ᅤ ㅒ
        (KeyCode::KeyS, true) => key_jong(0x11AD), // ᆭ ㄶ
        (KeyCode::KeyV, true) => key_jong(0x11B6), // ᆶ ㅀ
        (KeyCode::KeyW, true) => key_jong(0x11C0), // ᇀ ㅌ
        (KeyCode::KeyX, true) => key_jong(0x11B9), // ᆹ ㅄ
        (KeyCode::KeyZ, true) => key_jong(0x11BE), // ᆾ ㅊ
        _ => LayoutOutput::Passthrough,
    }
}

/// What the layout does with a key event.
pub open spec fn sebeolsik_output(ev: KeyEvent) -> LayoutOutput {
    if !ev.mods.ime_eligible() {
        LayoutOutput::Passthrough
    } else {
        sebeolsik_table(ev.code, ev.mods.shift)
    }
}

impl Layout for Sebeolsik390 {
    fn id(&self) -> (r: &'static str)
        ensures
            r@ == "sebeolsik-390"@,
    {
        "sebeolsik-390"
    }

    fn name(&self) -> (r: &'static str)
        ensures
            r@ == "세벌식 390"@,
    {
        "세벌식 390"
    }

    fn kind(&self) -> (r: LayoutKind)
        ensures
            r == LayoutKind::Sebeolsik,
    {
        LayoutKind::Sebeolsik
    }

    fn map(&self, ev: &KeyEvent) -> (out: LayoutOutput)
        ensures
            out == sebeolsik_output(*ev),
    {
        if !ev.mods.is_ime_eligible() {
            return LayoutOutput::Passthrough;
        }
        match (ev.code, ev.mods.shift) {
        // ────────── Base layer (unshifted) ──────────
        // Digit row
        (KeyCode::Digit1, false) => jong(0x11C2), // ᇂ ㅎ
        (KeyCode::Digit2, false) => jong(0x11BB), // ᆻ ㅆ
        (KeyCode::Digit3, false) => jong(0x11B8), // ᆸ ㅂ
        (KeyCode::Digit4, false) => jung(0x116D), // ᅭ ㅛ
        (KeyCode::Digit5, false) => jung(0x1172), // ᅲ ㅠ
        (KeyCode::Digit6, false) => jung(0x1163), // ᅣ ㅑ
        (KeyCode::Digit7, false) => jung(0x1168), // ᅨ ㅖ
        (KeyCode::Digit8, false) => jung(0x1174), // ᅴ ㅢ
        (KeyCode::Digit9, false) => jung(0x116E), // ᅮ ㅜ
        (KeyCode::Digit0, false) => cho(0x110F),  // ᄏ ㅋ
        // Top row (Jong on the left, Jung in the middle, Cho on the right)
        (KeyCode::KeyQ, false) => jong(0x11BA), // ᆺ ㅅ
        (KeyCode::KeyW, false) => jong(0x11AF), // ᆯ ㄹ
        (KeyCode::KeyE, false) => jung(0x1167), // ᅧ ㅕ
        (KeyCode::KeyR, false) => jung(0x1162), // ᅢ ㅐ
        (KeyCode::KeyT, false) => jung(0x1165), // ᅥ ㅓ
        (KeyCode::KeyY, false) => cho(0x1105),  // ᄅ ㄹ
        (KeyCode::KeyU, false) => cho(0x1103),  // ᄃ ㄷ
        (KeyCode::KeyI, false) => cho(0x1106),  // ᄆ ㅁ
        (KeyCode::KeyO, false) => cho(0x110E),  // ᄎ ㅊ
        (KeyCode::KeyP, false) => cho(0x1111),  // ᄑ ㅍ
        // Home row
        (KeyCode::KeyA, false) => jong(0x11BC), // ᆼ ㅇ
        (KeyCode::KeyS, false) => jong(0x11AB), // ᆫ ㄴ
        (KeyCode::KeyD, false) => jung(0x1175), // ᅵ ㅣ
        (KeyCode::KeyF, false) => jung(0x1161), // ᅡ ㅏ
        (KeyCode::KeyG, false) => jung(0x1173), // ᅳ ㅡ
        (KeyCode::KeyH, false) => cho(0x1102),  // ᄂ ㄴ
        (KeyCode::KeyJ, false) => cho(0x110B),  // ᄋ ㅇ
        (KeyCode::KeyK, false) => cho(0x1100),  // ᄀ ㄱ
        (KeyCode::KeyL, false) => cho(0x110C),  // ᄌ ㅈ
        (KeyCode::Semicolon, false) => cho(0x1107), // ᄇ ㅂ
        (KeyCode::Quote, false) => cho(0x1110),     // ᄐ ㅌ
        // Bottom row
        (KeyCode::KeyZ, false) => jong(0x11B7), // ᆷ ㅁ
        (KeyCode::KeyX, false) => jong(0x11A8), // ᆨ ㄱ
        (KeyCode::KeyC, false) => jung(0x1166), // ᅦ ㅔ
        (KeyCode::KeyV, false) => jung(0x1169), // ᅩ ㅗ
        (KeyCode::KeyB, false) => jung(0x116E), // ᅮ ㅜ (alt)
        (KeyCode::KeyN, false) => cho(0x1109),  // ᄉ ㅅ
        (KeyCode::KeyM, false) => cho(0x1112),  // ᄒ ㅎ
        (KeyCode::Slash, false) => jung(0x1169), // ᅩ ㅗ (alt)
        // ────────── Shift layer ──────────
        // Digit row: Shift+digit adds a Jong shortcut where libhangul defines it.
        (KeyCode::Digit1, true) => jong(0x11BD), // Shift+1 → ᆽ ㅈ
        // Letters: Shift+letter exposes additional Jong
        (KeyCode::KeyA, true) => jong(0x11AE), // ᆮ ㄷ
        (KeyCode::KeyC, true) => jong(0x11B1), // ᆱ ㄻ
        (KeyCode::KeyD, true) => jong(0x11B0), // ᆰ ㄺ
        (KeyCode::KeyE, true) => jong(0x11BF), // ᆿ ㅋ
        (KeyCode::KeyF, true) => jong(0x11A9), // ᆩ ㄲ
        (KeyCode::KeyQ, true) => jong(0x11C1), // ᇁ ㅍ
        (KeyCode::KeyR, true) => jung(0x1164), // ᅤ ㅒ
        (KeyCode::KeyS, true) => jong(0x11AD), // ᆭ ㄶ
        (KeyCode::KeyV, true) => jong(0x11B6), // ᆶ ㅀ
        (KeyCode::KeyW, true) => jong(0x11C0), // ᇀ ㅌ
        (KeyCode::KeyX, true) => jong(0x11B9), // ᆹ ㅄ
        (KeyCode::KeyZ, true) => jong(0x11BE), // ᆾ ㅊ
            _ => LayoutOutput::Passthrough,
        }
    }

    fn supports_moachigi(&self) -> (r: bool)
        ensures
            r,
    {
        true
    }
}

fn cho(cp: u32) -> (r: LayoutOutput)
    ensures
        r == key_cho(cp),
{
    LayoutOutput::Jamo(JamoInput::cho_only(cp))
}

fn jung(cp: u32) -> (r: LayoutOutput)
    ensures
        r == key_jung(cp),
{
    LayoutOutput::Jamo(JamoInput::vowel(cp))
}

fn jong(cp: u32) -> (r: LayoutOutput)
    ensures
        r == key_jong(cp),
{
    LayoutOutput::Jamo(JamoInput::jong_only(cp))
}

} // verus!
