#![allow(unused_imports)]
use lib_ime::{to_compat_jamo, to_display_text, to_nfc_syllable, FsmEvent, OutputForm};

#[test]
fn nfc_composes_simple_syllable() {
    // ㄱ + ㅏ + ㄴ → 간
    let s = "\u{1100}\u{1161}\u{11AB}";
    assert_eq!(to_nfc_syllable(s), "간");
}

#[test]
fn nfc_composes_without_jong() {
    // ㄱ + ㅏ → 가
    assert_eq!(to_nfc_syllable("\u{1100}\u{1161}"), "가");
}

#[test]
fn nfc_passes_unpaired_jamo_through() {
    // Lone Cho (no following Jung) stays as conjoining.
    assert_eq!(to_nfc_syllable("\u{1100}"), "\u{1100}");
}

#[test]
fn nfc_handles_nonhangul_verbatim() {
    assert_eq!(to_nfc_syllable("\u{1100}\u{1161}!"), "가!");
}

#[test]
fn nfc_composes_multi_syllable() {
    // 한글 = ㅎㅏㄴ + ㄱㅡㄹ
    let s = "\u{1112}\u{1161}\u{11AB}\u{1100}\u{1173}\u{11AF}";
    assert_eq!(to_nfc_syllable(s), "한글");
}

#[test]
fn compat_maps_cho_and_jong_to_same_letter() {
    let cho = to_compat_jamo("\u{1100}"); // Cho ㄱ
    let jong = to_compat_jamo("\u{11A8}"); // Jong ㄱ
    assert_eq!(cho, jong);
    assert_eq!(cho, "\u{3131}");
}

#[test]
fn render_event_returns_empty_for_preedit_only() {
    let ev = FsmEvent::Preedit("\u{1100}".into());
    assert_eq!(OutputForm::NfcSyllable.render_event(&ev), "");
}

#[test]
fn render_event_converts_commit() {
    let ev = FsmEvent::Commit("\u{1100}\u{1161}".into());
    assert_eq!(OutputForm::NfcSyllable.render_event(&ev), "가");
}

#[test]
fn display_text_uses_nfc_then_compat_fallback() {
    // Lone Cho U+1100 (conjoining) → compat ㄱ U+3131.
    assert_eq!(to_display_text("\u{1100}"), "\u{3131}");
    // ㄱ + ㅏ → NFC 가 (passes through compat layer unchanged).
    assert_eq!(to_display_text("\u{1100}\u{1161}"), "가");
    // Full syllable followed by lone Cho: syllable stays NFC, Cho → compat.
    assert_eq!(to_display_text("\u{1100}\u{1161}\u{1100}"), "가\u{3131}");
}
