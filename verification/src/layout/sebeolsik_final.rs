//! Three-set layout 3-91 (final).
//!
//! The base layer equals 3-90; the Shift layer puts commonly needed
//! compound finals on Shift + letter and the digits on Shift + the
//! right-hand letters.
use vstd::prelude::*;
use super::key::{KeyCode, KeyEvent};
use super::{key_cho, key_jong, key_jung, Layout, LayoutKind, LayoutOutput};
use crate::hangul::jamo::JamoInput;

verus! {

/// 세벌식 최종.
#[derive(Copy, Clone, Debug, Default)]
pub struct SebeolsikFinal;

/// The 세벌식 최종 table: the output of each physical key, unshifted or
/// shifted.
pub open spec fn sebeolsik_final_table(code: KeyCode, shift: bool) -> LayoutOutput {
    match (code, shift) {
        // ────────── Base layer (unshifted) — same as 3-90 ──────────
        (KeyCode::Digit1, false) => key_jong(0x11C2), // ᇂ ㅎ
        (KeyCode::Digit2, false) => key_jong(0x11BB), // ᆻ ㅆ
        (KeyCode::Digit3, false) => key_jong(0x11B8), // ᆸ ㅂ
        (KeyCode::Digit4, false) => key_jung(0x116D), // ᅭ ㅛ
        (KeyCode::Digit5, false) => key_jung(0x1172), // ᅲ ㅠ
        (KeyCode::Digit6, false) => key_jung(0x1163), // ᅣ ㅑ
        (KeyCode::Digit7, false) => key_jung(0x1168), // ᅨ ㅖ
        (KeyCode::Digit8, false) => key_jung(0x1174), // ᅴ ㅢ
        (KeyCode::Digit9, false) => key_jung(0x116E), // ᅮ ㅜ
        (KeyCode::Digit0, false) => key_cho(0x110F),  // ᄏ ㅋ
        (KeyCode::KeyQ, false) => key_jong(0x11BA), // ᆺ ㅅ
        (KeyCode::KeyW, false) => key_jong(0x11AF), // ᆯ ㄹ
        (KeyCode::KeyE, false) => key_jung(0x1167), // ᅧ ㅕ
        (KeyCode::KeyR, false) => key_jung(0x1162), // ᅢ ㅐ
        (KeyCode::KeyT, false) => key_jung(0x1165), // ᅥ ㅓ
        (KeyCode::KeyY, false) => key_cho(0x1105),  // ᄅ ㄹ
        (KeyCode::KeyU, false) => key_cho(0x1103),  // ᄃ ㄷ
        (KeyCode::KeyI, false) => key_cho(0x1106),  // ᄆ ㅁ
        (KeyCode::KeyO, false) => key_cho(0x110E),  // ᄎ ㅊ
        (KeyCode::KeyP, false) => key_cho(0x1111),  // ᄑ ㅍ
        (KeyCode::KeyA, false) => key_jong(0x11BC), // ᆼ ㅇ
        (KeyCode::KeyS, false) => key_jong(0x11AB), // ᆫ ㄴ
        (KeyCode::KeyD, false) => key_jung(0x1175), // ᅵ ㅣ
        (KeyCode::KeyF, false) => key_jung(0x1161), // ᅡ ㅏ
        (KeyCode::KeyG, false) => key_jung(0x1173), // ᅳ ㅡ
        (KeyCode::KeyH, false) => key_cho(0x1102),  // ᄂ ㄴ
        (KeyCode::KeyJ, false) => key_cho(0x110B),  // ᄋ ㅇ
        (KeyCode::KeyK, false) => key_cho(0x1100),  // ᄀ ㄱ
        (KeyCode::KeyL, false) => key_cho(0x110C),  // ᄌ ㅈ
        (KeyCode::Semicolon, false) => key_cho(0x1107), // ᄇ ㅂ
        (KeyCode::Quote, false) => key_cho(0x1110),     // ᄐ ㅌ
        (KeyCode::KeyZ, false) => key_jong(0x11B7), // ᆷ ㅁ
        (KeyCode::KeyX, false) => key_jong(0x11A8), // ᆨ ㄱ
        (KeyCode::KeyC, false) => key_jung(0x1166), // ᅦ ㅔ
        (KeyCode::KeyV, false) => key_jung(0x1169), // ᅩ ㅗ
        (KeyCode::KeyB, false) => key_jung(0x116E), // ᅮ ㅜ (alt)
        (KeyCode::KeyN, false) => key_cho(0x1109),  // ᄉ ㅅ
        (KeyCode::KeyM, false) => key_cho(0x1112),  // ᄒ ㅎ
        (KeyCode::Slash, false) => key_jung(0x1169), // ᅩ ㅗ (alt)
        // ────────── Shift layer — 3-91 specific ──────────
        // Digit row Shift → compound / simple Jongs.
        (KeyCode::Digit1, true) => key_jong(0x11A9), // Shift+1 → ᆩ ㄲ
        (KeyCode::Digit2, true) => key_jong(0x11B0), // Shift+2 → ᆰ ㄺ
        (KeyCode::Digit3, true) => key_jong(0x11BD), // Shift+3 → ᆽ ㅈ
        (KeyCode::Digit4, true) => key_jong(0x11B5), // Shift+4 → ᆵ ㄿ
        (KeyCode::Digit5, true) => key_jong(0x11B4), // Shift+5 → ᆴ ㄾ
        // Letter Shift layer.
        (KeyCode::KeyA, true) => key_jong(0x11AE), // ᆮ ㄷ
        (KeyCode::KeyC, true) => key_jong(0x11BF), // ᆿ ㅋ
        (KeyCode::KeyD, true) => key_jong(0x11B2), // ᆲ ㄼ
        (KeyCode::KeyE, true) => key_jong(0x11AC), // ᆬ ㄵ
        (KeyCode::KeyF, true) => key_jong(0x11B1), // ᆱ ㄻ
        (KeyCode::KeyG, true) => key_jung(0x1164), // ᅤ ㅒ
        (KeyCode::KeyQ, true) => key_jong(0x11C1), // ᇁ ㅍ
        (KeyCode::KeyR, true) => key_jong(0x11B6), // ᆶ ㅀ
        (KeyCode::KeyS, true) => key_jong(0x11AD), // ᆭ ㄶ
        (KeyCode::KeyT, true) => key_jong(0x11B3), // ᆳ ㄽ
        (KeyCode::KeyV, true) => key_jong(0x11AA), // ᆪ ㄳ
        (KeyCode::KeyW, true) => key_jong(0x11C0), // ᇀ ㅌ
        (KeyCode::KeyX, true) => key_jong(0x11B9), // ᆹ ㅄ
        (KeyCode::KeyZ, true) => key_jong(0x11BE), // ᆾ ㅊ
        // Digit aliases — the base digit row is Hangul, so 3-91
        // exposes the digits on Shift + the right-hand letters.
        (KeyCode::KeyY, true) => LayoutOutput::Char('5'),
        (KeyCode::KeyU, true) => LayoutOutput::Char('6'),
        (KeyCode::KeyI, true) => LayoutOutput::Char('7'),
        (KeyCode::KeyO, true) => LayoutOutput::Char('8'),
        (KeyCode::KeyP, true) => LayoutOutput::Char('9'),
        (KeyCode::KeyH, true) => LayoutOutput::Char('0'),
        (KeyCode::KeyJ, true) => LayoutOutput::Char('1'),
        (KeyCode::KeyK, true) => LayoutOutput::Char('2'),
        (KeyCode::KeyL, true) => LayoutOutput::Char('3'),
        _ => LayoutOutput::Passthrough,
    }
}

/// What the layout does with a key event.
pub open spec fn sebeolsik_final_output(ev: KeyEvent) -> LayoutOutput {
    if !ev.mods.ime_eligible() {
        LayoutOutput::Passthrough
    } else {
        sebeolsik_final_table(ev.code, ev.mods.shift)
    }
}

impl Layout for SebeolsikFinal {
    fn id(&self) -> (r: &'static str)
        ensures
            r@ == "sebeolsik-final"@,
    {
        "sebeolsik-final"
    }

    fn name(&self) -> (r: &'static str)
        ensures
            r@ == "세벌식 최종"@,
    {
        "세벌식 최종"
    }

    fn kind(&self) -> (r: LayoutKind)
        ensures
            r == LayoutKind::Sebeolsik,
    {
        LayoutKind::Sebeolsik
    }

    fn map(&self, ev: &KeyEvent) -> (out: LayoutOutput)
        ensures
            out == sebeolsik_final_output(*ev),
    {
        if !ev.mods.is_ime_eligible() {
            return LayoutOutput::Passthrough;
        }
        match (ev.code, ev.mods.shift) {
        // ────────── Base layer (unshifted) — same as 3-90 ──────────
        (KeyCode::Digit1, false) => jong(0x11C2), // ᇂ ㅎ
        (KeyCode::Digit2, false) => jong(0x11BB), // ᆻ ㅆ
        (KeyCode::Digit3, false) => jong(0x11B8), // ᆸ ㅂ
        (KeyCode::Digit4, false) => jung(0x116D), // ᅭ ㅛ
        (KeyCode::Digit5, false) => jung(0x1172), // ᅲ ㅠ
        (KeyCode::Digit6, false) => jung(0x1163), // ᅣ ㅑ
        (KeyCode::Digit7, false) => jung(0x1168), // ᅨ ㅖ
        (KeyCode::Digit8, false) => jung(0x1174), // ᅴ ㅢ
        (KeyCode::Digit9, false) => jung(0x116E), // ᅮ ㅜ
        (KeyCode::Digit0, false) => cho(0x110F),  // ᄏ ㅋ
        (KeyCode::KeyQ, false) => jong(0x11BA), // ᆺ ㅅ
        (KeyCode::KeyW, false) => jong(0x11AF), // ᆯ ㄹ
        (KeyCode::KeyE, false) => jung(0x1167), // ᅧ ㅕ
        (KeyCode::KeyR, false) => jung(0x1162), // ᅢ ㅐ
        (KeyCode::KeyT, false) => jung(0x1165), // ᅥ ㅓ
        (KeyCode::KeyY, false) => cho(0x1105),  // ᄅ ㄹ
        (KeyCode::KeyU, false) => cho(0x1103),  // ᄃ ㄷ
        (KeyCode::KeyI, false) => cho(0x1106),  // ᄆ ㅁ
        (KeyCode::KeyO, false) => cho(0x110E),  // ᄎ ㅊ
        (KeyCode::KeyP, false) => cho(0x1111),  // ᄑ ㅍ
        (KeyCode::KeyA, false) => jong(0x11BC), // ᆼ ㅇ
        (KeyCode::KeyS, false) => jong(0x11AB), // ᆫ ㄴ
        (KeyCode::KeyD, false) => jung(0x1175), // ᅵ ㅣ
        (KeyCode::KeyF, false) => jung(0x1161), // ᅡ ㅏ
        (KeyCode::KeyG, false) => jung(0x1173), // ᅳ ㅡ
        (KeyCode::KeyH, false) => cho(0x1102),  // ᄂ ㄴ
        (KeyCode::KeyJ, false) => cho(0x110B),  // ᄋ ㅇ
        (KeyCode::KeyK, false) => cho(0x1100),  // ᄀ ㄱ
        (KeyCode::KeyL, false) => cho(0x110C),  // ᄌ ㅈ
        (KeyCode::Semicolon, false) => cho(0x1107), // ᄇ ㅂ
        (KeyCode::Quote, false) => cho(0x1110),     // ᄐ ㅌ
        (KeyCode::KeyZ, false) => jong(0x11B7), // ᆷ ㅁ
        (KeyCode::KeyX, false) => jong(0x11A8), // ᆨ ㄱ
        (KeyCode::KeyC, false) => jung(0x1166), // ᅦ ㅔ
        (KeyCode::KeyV, false) => jung(0x1169), // ᅩ ㅗ
        (KeyCode::KeyB, false) => jung(0x116E), // ᅮ ㅜ (alt)
        (KeyCode::KeyN, false) => cho(0x1109),  // ᄉ ㅅ
        (KeyCode::KeyM, false) => cho(0x1112),  // ᄒ ㅎ
        (KeyCode::Slash, false) => jung(0x1169), // ᅩ ㅗ (alt)
        // ────────── Shift layer — 3-91 specific ──────────
        // Digit row Shift → compound / simple Jongs.
        (KeyCode::Digit1, true) => jong(0x11A9), // Shift+1 → ᆩ ㄲ
        (KeyCode::Digit2, true) => jong(0x11B0), // Shift+2 → ᆰ ㄺ
        (KeyCode::Digit3, true) => jong(0x11BD), // Shift+3 → ᆽ ㅈ
        (KeyCode::Digit4, true) => jong(0x11B5), // Shift+4 → ᆵ ㄿ
        (KeyCode::Digit5, true) => jong(0x11B4), // Shift+5 → ᆴ ㄾ
        // Letter Shift layer.
        (KeyCode::KeyA, true) => jong(0x11AE), // ᆮ ㄷ
        (KeyCode::KeyC, true) => jong(0x11BF), // ᆿ ㅋ
        (KeyCode::KeyD, true) => jong(0x11B2), // ᆲ ㄼ
        (KeyCode::KeyE, true) => jong(0x11AC), // ᆬ ㄵ
        (KeyCode::KeyF, true) => jong(0x11B1), // ᆱ ㄻ
        (KeyCode::KeyG, true) => jung(0x1164), // ᅤ ㅒ
        (KeyCode::KeyQ, true) => jong(0x11C1), // ᇁ ㅍ
        (KeyCode::KeyR, true) => jong(0x11B6), // ᆶ ㅀ
        (KeyCode::KeyS, true) => jong(0x11AD), // ᆭ ㄶ
        (KeyCode::KeyT, true) => jong(0x11B3), // ᆳ ㄽ
        (KeyCode::KeyV, true) => jong(0x11AA), // ᆪ ㄳ
        (KeyCode::KeyW, true) => jong(0x11C0), // ᇀ ㅌ
        (KeyCode::KeyX, true) => jong(0x11B9), // ᆹ ㅄ
        (KeyCode::KeyZ, true) => jong(0x11BE), // ᆾ ㅊ
        // Digit aliases — the base digit row is Hangul, so 3-91
        // exposes the digits on Shift + the right-hand letters.
        (KeyCode::KeyY, true) => LayoutOutput::Char('5'),
        (KeyCode::KeyU, true) => LayoutOutput::Char('6'),
        (KeyCode::KeyI, true) => LayoutOutput::Char('7'),
        (KeyCode::KeyO, true) => LayoutOutput::Char('8'),
        (KeyCode::KeyP, true) => LayoutOutput::Char('9'),
        (KeyCode::KeyH, true) => LayoutOutput::Char('0'),
        (KeyCode::KeyJ, true) => LayoutOutput::Char('1'),
        (KeyCode::KeyK, true) => LayoutOutput::Char('2'),
        (KeyCode::KeyL, true) => LayoutOutput::Char('3'),
            _ => LayoutOutput::Passthrough,
        }
    }

    fn supports_moachigi(&self) -> (r: bool)
        ensures
            r,
    {
        true
    }
}

fn cho(cp: u32) -> (r: LayoutOutput)
    ensures
        r == key_cho(cp),
{
    LayoutOutput::Jamo(JamoInput::cho_only(cp))
}

fn jung(cp: u32) -> (r: LayoutOutput)
    ensures
        r == key_jung(cp),
{
    LayoutOutput::Jamo(JamoInput::vowel(cp))
}

fn jong(cp: u32) -> (r: LayoutOutput)
    ensures
        r == key_jong(cp),
{
    LayoutOutput::Jamo(JamoInput::jong_only(cp))
}

} // verus!
