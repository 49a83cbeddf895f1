#![allow(unused_imports)]
use lib_ime::compose::{compose_cho_double, compose_jong, compose_jung, cho_to_jong, decompose_jong, decompose_jung, split_jong};

#[test]
fn compound_vowel_roundtrip() {
    assert_eq!(compose_jung(0x1169, 0x1161), Some(0x116A)); // ㅗㅏ→ㅘ
    assert_eq!(decompose_jung(0x116A), Some(0x1169)); // ㅘ→ㅗ
}

#[test]
fn compound_final_roundtrip() {
    assert_eq!(compose_jong(0x11AF, 0x11A8), Some(0x11B0)); // ㄹㄱ→ㄺ
    assert_eq!(decompose_jong(0x11B0), Some(0x11AF));
}

#[test]
fn split_compound_jong_keeps_first_moves_second() {
    // ㄳ (0x11AA): ㄱ stays, ㅅ moves → Cho ㅅ (0x1109)
    assert_eq!(split_jong(0x11AA), (Some(0x11A8), 0x1109));
}

#[test]
fn split_simple_jong_moves_whole_consonant() {
    // ㄱ (0x11A8): nothing stays, ㄱ moves → Cho ㄱ (0x1100)
    assert_eq!(split_jong(0x11A8), (None, 0x1100));
}

#[test]
fn cho_double_covers_five_standard_pairs() {
    assert_eq!(compose_cho_double(0x1100, 0x1100), Some(0x1101)); // ㄱㄱ → ㄲ
    assert_eq!(compose_cho_double(0x1103, 0x1103), Some(0x1104)); // ㄷㄷ → ㄸ
    assert_eq!(compose_cho_double(0x1107, 0x1107), Some(0x1108)); // ㅂㅂ → ㅃ
    assert_eq!(compose_cho_double(0x1109, 0x1109), Some(0x110A)); // ㅅㅅ → ㅆ
    assert_eq!(compose_cho_double(0x110C, 0x110C), Some(0x110D)); // ㅈㅈ → ㅉ
}

#[test]
fn cho_double_rejects_non_pairs() {
    // ㄴㄴ not a double form.
    assert!(compose_cho_double(0x1102, 0x1102).is_none());
    // Different consonants never double.
    assert!(compose_cho_double(0x1100, 0x1103).is_none());
}

#[test]
fn jong_double_extends_compose_jong() {
    assert_eq!(compose_jong(0x11A8, 0x11A8), Some(0x11A9)); // ᆨᆨ → ᆩ
    assert_eq!(compose_jong(0x11BA, 0x11BA), Some(0x11BB)); // ᆺᆺ → ᆻ
}

#[test]
fn decompose_handles_doubled_jongs() {
    assert_eq!(decompose_jong(0x11A9), Some(0x11A8)); // ᆩ → ᆨ
    assert_eq!(decompose_jong(0x11BB), Some(0x11BA)); // ᆻ → ᆺ
}

#[test]
fn cho_only_consonants_have_no_jong() {
    assert!(cho_to_jong(0x1104).is_none()); // ㄸ
    assert!(cho_to_jong(0x1108).is_none()); // ㅃ
    assert!(cho_to_jong(0x110D).is_none()); // ㅉ
}
