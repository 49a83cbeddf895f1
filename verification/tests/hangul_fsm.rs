#![allow(unused_imports)]
use lib_ime::{to_display_text, to_nfc_syllable, ComposeMode, CompositionState, FeedOptions, FsmEvent, HangulFsm, JamoInput, Layout, LayoutOutput, Cho, Jung, Jong};
use lib_ime::layout::key::{KeyCode, KeyEvent, Modifiers};
use lib_ime::layout::dubeolsik::Dubeolsik;
use lib_ime::layout::sebeolsik_final::SebeolsikFinal;
use lib_ime::layout::sebeolsik::Sebeolsik390;

fn jung(cp: u32) -> JamoInput {
    JamoInput::Jung(cp)
}

fn dual(cho: u32, jong: u32) -> JamoInput {
    JamoInput::cho_dual(cho, jong)
}

#[test]
fn empty_vowel_commits_standalone_in_sequential() {
    let mut f = HangulFsm::new();
    assert!(matches!(f.feed(jung(0x1161)), FsmEvent::Commit(ref s) if s == "\u{1161}"));
    assert!(!f.is_composing());
}

#[test]
fn empty_cho_enters_preedit() {
    let mut f = HangulFsm::new();
    let ev = f.feed(dual(0x1100, 0x11A8));
    assert_eq!(ev.preedit_str(), Some("\u{1100}"));
}

#[test]
fn sequential_cho_jung_preedit() {
    let mut f = HangulFsm::new();
    let _ = f.feed(dual(0x1100, 0x11A8));
    let ev = f.feed(jung(0x1161));
    assert_eq!(ev.preedit_str(), Some("\u{1100}\u{1161}"));
}

/// ime_key_input 이 매 키 뒤에 프론트엔드로 보내는 preedit 문자열과
/// 완전히 동일한 값을 재현한다. 프론트엔드는 이 문자열을 그대로
/// preedit span 에 박아 넣으므로, 여기서 기대 값이 나오면 "렌더 경로"
/// 까지는 정상이고 UI 문제로 범위가 좁혀진다.
/// 모아치기 '입' 합성 — 모든 하ㄴ글 레이아웃 + 모든 키 순서에서 '입'
/// 한 음절이 정상 합성되어야 한다. JamoInput 수준에서 6가지 순서(3!)
/// 를 모두 확인하고, 끝에 공백을 먹여 commit 이 실제로 일어나는지도
/// 점검한다.
#[test]
fn moachigi_ip_all_orders() {
    const CHO_O: u32 = 0x110B;   // ᄋ
    const JUNG_I: u32 = 0x1175;  // ᅵ
    const JONG_B: u32 = 0x11B8;  // ᆸ
    let permutations: [[JamoInput; 3]; 6] = [
        [JamoInput::cho_only(CHO_O), jung(JUNG_I), JamoInput::jong_only(JONG_B)],
        [JamoInput::cho_only(CHO_O), JamoInput::jong_only(JONG_B), jung(JUNG_I)],
        [jung(JUNG_I), JamoInput::cho_only(CHO_O), JamoInput::jong_only(JONG_B)],
        [jung(JUNG_I), JamoInput::jong_only(JONG_B), JamoInput::cho_only(CHO_O)],
        [JamoInput::jong_only(JONG_B), JamoInput::cho_only(CHO_O), jung(JUNG_I)],
        [JamoInput::jong_only(JONG_B), jung(JUNG_I), JamoInput::cho_only(CHO_O)],
    ];
    for (idx, perm) in permutations.iter().enumerate() {
        // 1) chord 힌트 없이
        let mut f = HangulFsm::with_mode(ComposeMode::Moachigi);
        for input in perm.iter() {
            let _ = f.feed(*input);
        }
        assert_eq!(
            to_nfc_syllable(&f.preedit_string()),
            "입",
            "no-chord order #{idx} ({:?}) 의 preedit 이 '입' 이 아님",
            perm,
        );
        // 2) chord 힌트 ON (초/중/종이 거의 동시 입력되는 순간)
        let mut g = HangulFsm::with_mode(ComposeMode::Moachigi);
        let chord = FeedOptions { within_chord: true };
        for input in perm.iter() {
            let _ = g.feed_with(*input, chord);
        }
        assert_eq!(
            to_nfc_syllable(&g.preedit_string()),
            "입",
            "chord order #{idx} ({:?}) 의 preedit 이 '입' 이 아님",
            perm,
        );
    }
}

/// Dual-role('ㅂ' 이 cho+jong 둘 다 가능) 키도 포함한 두벌식-스타일
/// 입력으로 '입' 이 제대로 합성되는지. 두벌식은 모든 자음이 dual 이라
/// cho vs jong 선택 로직이 관여한다. 첫 키는 항상 cho 로 해석되는
/// 게 자연스러운 타자 흐름이므로, 여기서는 **정상 순서** (ㅇ → ㅣ
/// → ㅂ) 와 chord 힌트 유무 두 경우만 확인한다.
#[test]
fn moachigi_ip_dubeolsik_dual_role() {
    let seq: [JamoInput; 3] = [
        JamoInput::cho_dual(0x110B, 0x11BC),
        jung(0x1175),
        JamoInput::cho_dual(0x1107, 0x11B8),
    ];
    // 1) chord 힌트 없이
    let mut f = HangulFsm::with_mode(ComposeMode::Moachigi);
    for input in seq {
        let _ = f.feed(input);
    }
    assert_eq!(to_nfc_syllable(&f.preedit_string()), "입");
    // 2) chord 힌트 ON
    let chord = FeedOptions { within_chord: true };
    let mut g = HangulFsm::with_mode(ComposeMode::Moachigi);
    for input in seq {
        let _ = g.feed_with(input, chord);
    }
    assert_eq!(to_nfc_syllable(&g.preedit_string()), "입");
}

/// End-to-end '입' — 실제 키 이벤트(세벌식 최종 · 두벌식) 를 레이아웃
/// 맵핑까지 태워서 합성한다. JamoInput 직접 주입 테스트가 못 잡는
/// 레이아웃 버그(코드포인트 오매핑 등) 를 잡는다.
#[test]
fn moachigi_ip_end_to_end() {

    // (이름, 레이아웃 map 에서 ᄋ → ᅵ → ᆸ 로 이어지는 키 시퀀스)
    let cases: [(&str, Vec<KeyCode>); 2] = [
        ("세벌식 최종 (J D 3)",
         vec![KeyCode::KeyJ, KeyCode::KeyD, KeyCode::Digit3]),
        ("두벌식 (D L Q)",
         vec![KeyCode::KeyD, KeyCode::KeyL, KeyCode::KeyQ]),
    ];
    for (label, keys) in cases {
        // 각 케이스를 sebeolsik_final 이면 SebeolsikFinal 로, 두벌식
        // 이면 Dubeolsik 로 매핑해 feed 한다.
        let sebeol_final = SebeolsikFinal;
        let dubeol = Dubeolsik;
        let layout: &dyn Layout = if label.starts_with("세벌식") {
            &sebeol_final
        } else {
            &dubeol
        };
        let mut f = HangulFsm::with_mode(ComposeMode::Moachigi);
        for code in keys {
            match layout.map(&KeyEvent::plain(code)) {
                LayoutOutput::Jamo(input) => { let _ = f.feed(input); }
                other => panic!("{label}: unexpected layout output {other:?}"),
            }
        }
        assert_eq!(
            to_nfc_syllable(&f.preedit_string()),
            "입",
            "{label}: 모아치기 '입' 실패",
        );
    }
}

// Bug reproduction: "입수니" 를 두벌식 + Moachigi 로 입력하면 실제
// 사용자가 보는 결과는 "입쉬ㄴ" 이라고 한다. 이 테스트가 실패하는
// 시점에서 어떤 시퀀스/플래그 조합이 원인인지 범위가 좁혀진다.
#[test]
fn moachigi_ipsuni_dubeolsik() {
    // 두벌식 키 입력을 JamoInput 레벨에서 재현:
    //   D L Q T N S L
    //   = ㅇ_dual ㅣ ㅂ_dual ㅅ_dual ㅜ ㄴ_dual ㅣ
    let inputs = [
        JamoInput::cho_dual(0x110B, 0x11BC), // ㅇ
        jung(0x1175),                          // ㅣ
        JamoInput::cho_dual(0x1107, 0x11B8), // ㅂ
        JamoInput::cho_dual(0x1109, 0x11BA), // ㅅ
        jung(0x116E),                          // ㅜ
        JamoInput::cho_dual(0x1102, 0x11AB), // ㄴ
        jung(0x1175),                          // ㅣ
    ];
    let mut f = HangulFsm::with_mode(ComposeMode::Moachigi);
    let mut committed = String::new();
    for (i, input) in inputs.into_iter().enumerate() {
        let ev = f.feed(input);
        match ev {
            FsmEvent::Commit(s) | FsmEvent::CommitThenPreedit { commit: s, .. } => {
                committed.push_str(&s);
            }
            _ => {}
        }
        println!(
            "step {}: committed={:?} preedit={:?}",
            i,
            to_nfc_syllable(&committed),
            to_nfc_syllable(&f.preedit_string()),
        );
    }
    let total = format!("{}{}", committed, f.preedit_string());
    assert_eq!(
        to_nfc_syllable(&total),
        "입수니",
        "expected 입수니, got {:?}",
        to_nfc_syllable(&total),
    );
}

#[test]
fn moachigi_weon_preedit_display_after_each_key() {
    let layout = SebeolsikFinal;
    let mut f = HangulFsm::with_mode(ComposeMode::Moachigi);
    let steps = [
        (KeyCode::KeyJ, "ㅇ"),  // ᄋ 만 → compat "ㅇ"
        (KeyCode::Digit9, "우"), // ᄋ + ᅮ → NFC "우"
        (KeyCode::KeyT, "워"),   // ᄋ + ᅯ(=ᅮ+ᅥ) → "워"
        (KeyCode::KeyS, "원"),   // + ᆫ → "원"
    ];
    for (code, expected) in steps {
        if let LayoutOutput::Jamo(input) = layout.map(&KeyEvent::plain(code)) {
            let _ = f.feed(input);
        }
        let display = to_display_text(&f.preedit_string());
        assert_eq!(
            display, expected,
            "preedit after {:?} expected {:?}, got {:?}", code, expected, display
        );
    }
}

#[test]
fn sequential_four_jamo_weon_dubeolsik_end_to_end() {
    // Dubeolsik (기본 Sequential) 로 D(ᄋ) N(ᅮ) J(ᅥ) S(ᆫ) 연타 → '원'.
    let layout = Dubeolsik;
    let mut f = HangulFsm::new(); // default Sequential
    for code in [KeyCode::KeyD, KeyCode::KeyN, KeyCode::KeyJ, KeyCode::KeyS] {
        if let LayoutOutput::Jamo(input) = layout.map(&KeyEvent::plain(code)) {
            let _ = f.feed(input);
        }
    }
    assert_eq!(to_nfc_syllable(&f.preedit_string()), "원");
}

#[test]
fn moachigi_four_jamo_variety() {
    // 복모음 + 받침 조합 4-자모 음절을 한 번에 확인. 각 케이스는
    // (cho_cp, jung_a, jung_b, jong_cp, expected).
    let cases = [
        // 원 = ᄋ + ᅮ + ᅥ(→ᅯ) + ᆫ
        (0x110Bu32, 0x116Eu32, 0x1165u32, 0x11ABu32, "원"),
        // 왔 = ᄋ + ᅩ + ᅡ(→ᅪ) + ᆻ
        (0x110B,    0x1169,    0x1161,    0x11BB,    "왔"),
        // 쉽 = ᄉ + ᅮ + ᅵ(→ᅱ) + ᆸ
        (0x1109,    0x116E,    0x1175,    0x11B8,    "쉽"),
        // 괜 = ᄀ + ᅩ + ᅢ(→ᅫ) + ᆫ
        (0x1100,    0x1169,    0x1162,    0x11AB,    "괜"),
        // 웬 = ᄋ + ᅮ + ᅦ(→ᅰ) + ᆫ
        (0x110B,    0x116E,    0x1166,    0x11AB,    "웬"),
        // 흰 = ᄒ + ᅳ + ᅵ(→ᅴ) + ᆫ
        (0x1112,    0x1173,    0x1175,    0x11AB,    "흰"),
    ];
    for (cho_cp, a, b, jong, want) in cases {
        let mut f = HangulFsm::with_mode(ComposeMode::Moachigi);
        let _ = f.feed(JamoInput::cho_only(cho_cp));
        let _ = f.feed(jung(a));
        let _ = f.feed(jung(b));
        let _ = f.feed(JamoInput::jong_only(jong));
        assert_eq!(
            to_nfc_syllable(&f.preedit_string()),
            want,
            "moachigi 4-jamo failed: cho=U+{:04X} jung={:04X}+{:04X} jong=U+{:04X}",
            cho_cp, a, b, jong
        );
    }
}

#[test]
fn moachigi_four_jamo_sebeolsik_end_to_end() {
    // Sebeolsik Final 레이아웃을 통해 실제 키 이벤트 4개 (J 9 T S) 가
    // '원' 하나로 모아지는지 확인한다. FSM 단독 테스트는 통과해도
    // 레이아웃이 jamo 를 다르게 뽑으면 깨질 수 있으니 end-to-end 로.
    let layout = SebeolsikFinal;
    let mut f = HangulFsm::with_mode(ComposeMode::Moachigi);
    for code in [KeyCode::KeyJ, KeyCode::Digit9, KeyCode::KeyT, KeyCode::KeyS] {
        let ev = KeyEvent::plain(code);
        match layout.map(&ev) {
            LayoutOutput::Jamo(input) => { let _ = f.feed(input); }
            other => panic!("unexpected layout output for {:?}: {:?}", code, other),
        }
    }
    assert_eq!(to_nfc_syllable(&f.preedit_string()), "원");
}

#[test]
fn moachigi_four_jamo_weon_cho_jung_jung_jong() {
    // '원' = ᄋ + ᅮ + ᅥ (→ compound ᅯ) + ᆫ — 4 개의 자모를 순서대로
    // 때려서 하나의 모아쓴 글자가 되어야 한다. Sebeolsik Final 에서
    // J(ᄋ) 9(ᅮ) T(ᅥ) S(ᆫ).
    let mut f = HangulFsm::with_mode(ComposeMode::Moachigi);
    let _ = f.feed(JamoInput::cho_only(0x110B)); // ᄋ
    let _ = f.feed(jung(0x116E));                // ᅮ
    let ev = f.feed(jung(0x1165));               // ᅥ → compose ᅯ
    assert!(
        matches!(&ev, FsmEvent::Preedit(s) if s == "\u{110B}\u{116F}"),
        "after ᅥ expected preedit 워, got {:?}", ev
    );
    let ev = f.feed(JamoInput::jong_only(0x11AB)); // ᆫ
    assert!(
        matches!(&ev, FsmEvent::Preedit(s) if s == "\u{110B}\u{116F}\u{11AB}"),
        "after ᆫ expected preedit 원, got {:?}", ev
    );
    assert_eq!(to_nfc_syllable(&f.preedit_string()), "원");
}

#[test]
fn moachigi_chord_hint_allows_late_compound_vowel() {
    // 물리 동시 누름에서 OS가 S(받침)를 복모음 2번째 자모 T(ᅥ) 보다
    // 먼저 전달했을 때, 타이밍 힌트(within_chord=true) 가 있으면
    // 전체가 '원' 한 음절로 모여야 한다. 힌트 없이는 "운" + "어" 로
    // 쪼개져서 실패하므로, 힌트 on/off 양쪽을 대조한다.
    //
    // 시퀀스: ᄋ + ᅮ + ᆫ + ᅥ (jong이 2번째 jung보다 먼저).
    let chord = FeedOptions { within_chord: true };

    let mut f = HangulFsm::with_mode(ComposeMode::Moachigi);
    let _ = f.feed_with(JamoInput::cho_only(0x110B), chord);  // ᄋ
    let _ = f.feed_with(jung(0x116E), chord);                  // ᅮ
    let _ = f.feed_with(JamoInput::jong_only(0x11AB), chord);  // ᆫ → "운"
    let _ = f.feed_with(jung(0x1165), chord);                  // ᅥ → "원"
    assert_eq!(
        to_nfc_syllable(&f.preedit_string()),
        "원",
        "with chord hint, late ᅥ must fold into 원; got preedit {:?}",
        f.preedit_string()
    );

    // Baseline: without the hint, the syllable-complete gate commits
    // "운" and starts a fresh "어" — by design.
    let mut g = HangulFsm::with_mode(ComposeMode::Moachigi);
    let _ = g.feed(JamoInput::cho_only(0x110B));
    let _ = g.feed(jung(0x116E));
    let _ = g.feed(JamoInput::jong_only(0x11AB));
    let ev = g.feed(jung(0x1165));
    assert!(
        matches!(&ev, FsmEvent::CommitThenPreedit { commit, .. } if commit == "\u{110B}\u{116E}\u{11AB}"),
        "without chord hint expected CommitThenPreedit('운', ...), got {ev:?}"
    );
}

#[test]
fn moachigi_four_jamo_compound_vowel_reverse_order() {
    // Moachigi 의 핵심: 4-자모 음절을 "동시에" 누른다는 개념이므로
    // 복모음 구성 자모의 입력 순서가 뒤집혀도 동일 음절이 나와야 한다.
    // 원 = ᄋ + ᅮ + ᅥ + ᆫ — canonical 과 reverse 모두 '원' 이어야 함.
    let cases: [(u32, u32, u32, u32, &str); 3] = [
        // (cho, jung_first_pressed, jung_second_pressed, jong, expected)
        (0x110B, 0x1165, 0x116E, 0x11AB, "원"), // ᄋ + ᅥ + ᅮ + ᆫ
        (0x110B, 0x1165, 0x116E, 0x11AF, "월"), // ᄋ + ᅥ + ᅮ + ᆯ
        (0x1100, 0x1161, 0x1169, 0x11AB, "관"), // ᄀ + ᅡ + ᅩ + ᆫ
    ];
    for (cho_cp, a, b, jong_cp, want) in cases {
        let mut f = HangulFsm::with_mode(ComposeMode::Moachigi);
        let _ = f.feed(JamoInput::cho_only(cho_cp));
        let _ = f.feed(jung(a));
        let _ = f.feed(jung(b));
        let _ = f.feed(JamoInput::jong_only(jong_cp));
        assert_eq!(
            to_nfc_syllable(&f.preedit_string()),
            want,
            "moachigi reverse-order 4-jamo failed: cho=U+{cho_cp:04X} jung={a:04X}→{b:04X} jong=U+{jong_cp:04X}"
        );
    }
}

#[test]
fn moachigi_four_jamo_compound_jong_reverse_order() {
    // 겹받침 구성 자모가 역순으로 들어와도 동일 음절이 되어야 한다.
    // 넋 = ᄂ + ᅥ + ᆨ + ᆺ — 모아치기에서는 ᆺ + ᆨ 순서여도 ᆪ 로 조합.
    let cases: [(u32, u32, u32, u32, &str); 2] = [
        // (cho, jung, jong_first_pressed, jong_second_pressed, expected)
        (0x1102, 0x1165, 0x11BA, 0x11A8, "넋"), // ᄂ + ᅥ + ᆺ + ᆨ
        (0x110B, 0x1165, 0x11BA, 0x11B8, "없"), // ᄋ + ᅥ + ᆺ + ᆸ
    ];
    for (cho_cp, jung_cp, a, b, want) in cases {
        let mut f = HangulFsm::with_mode(ComposeMode::Moachigi);
        let _ = f.feed(JamoInput::cho_only(cho_cp));
        let _ = f.feed(jung(jung_cp));
        let _ = f.feed(JamoInput::jong_only(a));
        let _ = f.feed(JamoInput::jong_only(b));
        assert_eq!(
            to_nfc_syllable(&f.preedit_string()),
            want,
            "moachigi reverse-order compound jong failed: cho=U+{cho_cp:04X} jung=U+{jung_cp:04X} jong={a:04X}→{b:04X}"
        );
    }
}

#[test]
fn moachigi_reverse_order_composes() {
    // Jong → Jung → Cho should still form "안".
    let mut f = HangulFsm::with_mode(ComposeMode::Moachigi);
    let _ = f.feed(JamoInput::jong_only(0x11AB)); // ᆫ
    let _ = f.feed(jung(0x1161));                 // ᅡ
    let _ = f.feed(JamoInput::cho_only(0x110B));  // ᄋ
    let got = f.preedit_string();
    assert_eq!(to_nfc_syllable(&got), "안");
}

#[test]
fn moachigi_jung_then_cho_composes() {
    let mut f = HangulFsm::with_mode(ComposeMode::Moachigi);
    let _ = f.feed(jung(0x1161));                 // ᅡ
    let _ = f.feed(JamoInput::cho_only(0x110B));  // ᄋ
    let got = f.preedit_string();
    assert_eq!(to_nfc_syllable(&got), "아");
}

#[test]
fn moachigi_starts_new_on_slot_collision() {
    // Cho + Cho → commit first Cho, start new syllable.
    let mut f = HangulFsm::with_mode(ComposeMode::Moachigi);
    let _ = f.feed(JamoInput::cho_only(0x110B)); // ᄋ
    let ev = f.feed(JamoInput::cho_only(0x1100)); // ᄀ
    let commit = ev.commit_str().unwrap_or("");
    assert_eq!(commit, "\u{110B}");
}

#[test]
fn flush_commits_in_progress() {
    let mut f = HangulFsm::new();
    let _ = f.feed(dual(0x1100, 0x11A8));
    let _ = f.feed(jung(0x1161));
    let out = f.flush_string();
    assert_eq!(out, "\u{1100}\u{1161}");
    assert!(!f.is_composing());
}

#[test]
fn backspace_strips_jong_then_jung_then_cho() {
    let mut f = HangulFsm::new();
    let _ = f.feed(dual(0x1100, 0x11A8));
    let _ = f.feed(jung(0x1161));
    let _ = f.feed(JamoInput::jong_only(0x11AB));
    assert!(f.state().jong.is_some());

    let _ = f.backspace();
    assert_eq!(f.state().jong, None);
    assert!(f.state().jung.is_some());

    let _ = f.backspace();
    assert_eq!(f.state().jung, None);

    let _ = f.backspace();
    assert!(!f.is_composing());
}

#[test]
fn double_cho_merges_on_repeat_sequential() {
    // ㄱ + ㄱ (Sebeolsik-style cho-only inputs) with no intervening
    // vowel should collapse to ㄲ and stay as a single preedit.
    let mut f = HangulFsm::new();
    let _ = f.feed(JamoInput::cho_only(0x1100)); // ㄱ
    let ev = f.feed(JamoInput::cho_only(0x1100)); // ㄱ again → ㄲ
    assert!(matches!(ev, FsmEvent::Preedit(_)));
    assert_eq!(f.preedit_string(), "\u{1101}"); // ᄁ
}

#[test]
fn moachigi_toil_sebeolsik_final() {
    // "토일" — 토(ᄐ+ᅩ) + 일(ᄋ+ᅵ+ᆯ). Sebeolsik Final 기준 실키 시퀀스
    // Quote(ᄐ) V(ᅩ) J(ᄋ) D(ᅵ) W(ᆯ). 세벌식이라 dual-role 없음.
    let layout = SebeolsikFinal;
    let mut f = HangulFsm::with_mode(ComposeMode::Moachigi);
    let mut commit = String::new();
    for code in [
        KeyCode::Quote,
        KeyCode::KeyV,
        KeyCode::KeyJ,
        KeyCode::KeyD,
        KeyCode::KeyW,
    ] {
        if let LayoutOutput::Jamo(input) = layout.map(&KeyEvent::plain(code)) {
            let ev = f.feed(input);
            if let Some(c) = ev.commit_str() {
                commit.push_str(c);
            }
        }
    }
    commit.push_str(&f.flush_string());
    assert_eq!(to_nfc_syllable(&commit), "토일", "sebeolsik-final 토일: got {:?}", commit);
}

#[test]
fn moachigi_sebeolsik_final_jong_only_does_not_chain_jongs_into_next_syllable() {
    // Sebeolsik final jong-only 키로 만든 곡(ᄀ+ᅩ+ᆨ via K V X) +
    // ᅡ(F) 는 받침 이동이 일어나면 안 된다 (사용자가 명시적으로 jong
    // 키를 눌렀으므로). 결과는 commit "곡" + preedit "ㅏ".
    let layout = SebeolsikFinal;
    let mut f = HangulFsm::with_mode(ComposeMode::Moachigi);
    let mut commit = String::new();
    for code in [KeyCode::KeyK, KeyCode::KeyV, KeyCode::KeyX, KeyCode::KeyF] {
        if let LayoutOutput::Jamo(input) = layout.map(&KeyEvent::plain(code)) {
            let ev = f.feed(input);
            if let Some(c) = ev.commit_str() {
                commit.push_str(c);
            }
        }
    }
    assert_eq!(to_nfc_syllable(&commit), "곡", "곡 이 commit 되어야 함");
    // 잔여 preedit 는 모음 ᅡ 단독.
    assert_eq!(f.preedit_string(), "\u{1161}");
}

#[test]
fn moachigi_sebeolsik_final_hasineun() {
    // 세벌식 final + Moachigi 로 "하시는" (M F N D H G S).
    let layout = SebeolsikFinal;
    let mut f = HangulFsm::with_mode(ComposeMode::Moachigi);
    let mut commit = String::new();
    let keys = [
        KeyCode::KeyM, KeyCode::KeyF,               // 하 = ᄒ + ᅡ
        KeyCode::KeyN, KeyCode::KeyD,               // 시 = ᄉ + ᅵ
        KeyCode::KeyH, KeyCode::KeyG, KeyCode::KeyS, // 는 = ᄂ + ᅳ + ᆫ
    ];
    for code in keys {
        if let LayoutOutput::Jamo(input) = layout.map(&KeyEvent::plain(code)) {
            let ev = f.feed(input);
            if let Some(c) = ev.commit_str() {
                commit.push_str(c);
            }
        }
    }
    commit.push_str(&f.flush_string());
    assert_eq!(to_nfc_syllable(&commit), "하시는", "got {:?}", commit);
}

#[test]
fn moachigi_dubeolsik_chord_forms_compound_jong_dak() {
    // 두벌식 Moachigi + chord hint 로 "닭" (ᄃ+ᅡ+ᆯ+ᆨ, keys E K F R).
    // chord 있으면 겹받침(ᆰ)을 모아치기로 합성해야 한다.
    let layout = Dubeolsik;
    let chord = FeedOptions { within_chord: true };
    let mut f = HangulFsm::with_mode(ComposeMode::Moachigi);
    for (idx, code) in [KeyCode::KeyE, KeyCode::KeyK, KeyCode::KeyF, KeyCode::KeyR]
        .iter()
        .enumerate()
    {
        if let LayoutOutput::Jamo(input) = layout.map(&KeyEvent::plain(*code)) {
            let opts = if idx == 0 { FeedOptions::default() } else { chord };
            let _ = f.feed_with(input, opts);
        }
    }
    assert_eq!(
        to_nfc_syllable(&f.preedit_string()),
        "닭",
        "got preedit {:?}",
        f.preedit_string()
    );
}

#[test]
fn moachigi_dubeolsik_no_chord_does_not_form_anj() {
    // chord hint 없이 "안" 뒤에 dual(ᄌ,ᆽ) 가 오면 앉 이 되지 않고
    // 안 을 커밋하고 새 음절을 ᄌ 로 시작해야 한다 (이전 회귀 방지).
    let layout = Dubeolsik;
    let mut f = HangulFsm::with_mode(ComposeMode::Moachigi);
    for code in [KeyCode::KeyD, KeyCode::KeyK, KeyCode::KeyS, KeyCode::KeyW] {
        if let LayoutOutput::Jamo(input) = layout.map(&KeyEvent::plain(code)) {
            let _ = f.feed(input); // plain feed: within_chord=false
        }
    }
    // 마지막 키 후: 안 커밋됐고 state = (ᄌ, N, N).
    assert_eq!(f.state().cho.map(Cho::codepoint), Some(0x110C));
    assert_eq!(f.state().jong, None);
}

#[test]
fn moachigi_dubeolsik_hasineun_with_chord_hint() {
    // 빠른 타이핑 → 모든 키가 chord window 안에 들어와도 "하시는" 이
    // 나와야 한다. 두벌식 자음은 dual-role 이므로 복모음 합성이 받침
    // 이동보다 우선돼선 안 된다 (기존엔 "햇는" 으로 나왔음).
    let layout = Dubeolsik;
    let mut f = HangulFsm::with_mode(ComposeMode::Moachigi);
    let chord = FeedOptions { within_chord: true };
    let mut commit = String::new();
    let keys = [
        KeyCode::KeyG, KeyCode::KeyK,
        KeyCode::KeyT, KeyCode::KeyL,
        KeyCode::KeyS, KeyCode::KeyM, KeyCode::KeyS,
    ];
    for (idx, code) in keys.iter().enumerate() {
        if let LayoutOutput::Jamo(input) = layout.map(&KeyEvent::plain(*code)) {
            // 첫 키는 직전 이벤트가 없으니 plain feed, 이후는 chord on.
            let opts = if idx == 0 { FeedOptions::default() } else { chord };
            let ev = f.feed_with(input, opts);
            if let Some(c) = ev.commit_str() {
                commit.push_str(c);
            }
        }
    }
    commit.push_str(&f.flush_string());
    assert_eq!(
        to_nfc_syllable(&commit),
        "하시는",
        "chord hint on 상태에서 got {:?}",
        commit
    );
}

#[test]
fn moachigi_dubeolsik_hasineun() {
    // 두벌식 + Moachigi 로 "하시는" (G K T L S M S).
    let layout = Dubeolsik;
    let mut f = HangulFsm::with_mode(ComposeMode::Moachigi);
    let mut commit = String::new();
    let keys = [
        KeyCode::KeyG, KeyCode::KeyK,               // 하
        KeyCode::KeyT, KeyCode::KeyL,               // 시
        KeyCode::KeyS, KeyCode::KeyM, KeyCode::KeyS, // 는
    ];
    for code in keys {
        if let LayoutOutput::Jamo(input) = layout.map(&KeyEvent::plain(code)) {
            let ev = f.feed(input);
            if let Some(c) = ev.commit_str() {
                commit.push_str(c);
            }
        }
    }
    commit.push_str(&f.flush_string());
    assert_eq!(to_nfc_syllable(&commit), "하시는", "got {:?}", commit);
}

#[test]
fn moachigi_dubeolsik_annyeonghaseyo() {
    // 두벌식 + Moachigi 로 안녕하세요 (D F S H I J D K T P D R) 입력.
    let layout = Dubeolsik;
    let mut f = HangulFsm::with_mode(ComposeMode::Moachigi);
    let mut commit = String::new();
    let keys = [
        KeyCode::KeyD, KeyCode::KeyK, KeyCode::KeyS,  // 안
        KeyCode::KeyS, KeyCode::KeyU, KeyCode::KeyD,  // 녕
        KeyCode::KeyG, KeyCode::KeyK,                  // 하
        KeyCode::KeyT, KeyCode::KeyP,                  // 세
        KeyCode::KeyD, KeyCode::KeyY,                  // 요 (D=ㅇ, Y=ㅛ)
    ];
    for code in keys {
        if let LayoutOutput::Jamo(input) = layout.map(&KeyEvent::plain(code)) {
            let ev = f.feed(input);
            if let Some(c) = ev.commit_str() {
                commit.push_str(c);
            }
        }
    }
    commit.push_str(&f.flush_string());
    // 마지막 키 매핑 차이로 깨질 수 있으니 자모 서브셋만 확인하지 말고
    // 정확히 맞춰본다 — 실패 시 메시지로 디버깅.
    assert_eq!(
        to_nfc_syllable(&commit),
        "안녕하세요",
        "dubeolsik moachigi 안녕하세요: got {:?}",
        commit
    );
}

#[test]
fn moachigi_toil_dubeolsik() {
    // 두벌식 + Moachigi 에서도 토일 이 나와야 한다 (현재 버그 재현).
    // 키: X(ㅌ) H(ㅗ) D(ㅇ) L(ㅣ) F(ㄹ). 모두 dual-role.
    let layout = Dubeolsik;
    let mut f = HangulFsm::with_mode(ComposeMode::Moachigi);
    let mut commit = String::new();
    for code in [
        KeyCode::KeyX,
        KeyCode::KeyH,
        KeyCode::KeyD,
        KeyCode::KeyL,
        KeyCode::KeyF,
    ] {
        if let LayoutOutput::Jamo(input) = layout.map(&KeyEvent::plain(code)) {
            let ev = f.feed(input);
            if let Some(c) = ev.commit_str() {
                commit.push_str(c);
            }
        }
    }
    commit.push_str(&f.flush_string());
    assert_eq!(to_nfc_syllable(&commit), "토일", "dubeolsik 토일: got {:?}", commit);
}

#[test]
fn double_cho_merges_on_repeat_moachigi() {
    let mut f = HangulFsm::with_mode(ComposeMode::Moachigi);
    let _ = f.feed(JamoInput::cho_only(0x1109)); // ㅅ
    let ev = f.feed(JamoInput::cho_only(0x1109)); // ㅅ again → ㅆ
    assert!(matches!(ev, FsmEvent::Preedit(_)));
    assert_eq!(f.preedit_string(), "\u{110A}"); // ᄊ
}

#[test]
fn non_doubleable_repeat_still_commits_new_cho() {
    // ㄴㄴ is not a doubled form — first ㄴ commits, new ㄴ starts.
    let mut f = HangulFsm::new();
    let _ = f.feed(JamoInput::cho_only(0x1102));
    let ev = f.feed(JamoInput::cho_only(0x1102));
    match ev {
        FsmEvent::CommitThenPreedit { commit, preedit } => {
            assert_eq!(commit, "\u{1102}");
            assert_eq!(preedit, "\u{1102}");
        }
        other => panic!("expected CommitThenPreedit, got {other:?}"),
    }
}

#[test]
fn double_cho_then_vowel_forms_ssa_syllable() {
    // ㅅ + ㅅ + ㅏ → 싸
    let mut f = HangulFsm::new();
    let _ = f.feed(JamoInput::cho_only(0x1109));
    let _ = f.feed(JamoInput::cho_only(0x1109)); // → ᄊ
    let _ = f.feed(JamoInput::Jung(0x1161));     // + ᅡ
    let out = to_nfc_syllable(&f.preedit_string());
    assert_eq!(out, "싸");
}

/// Covers every compound-Jong pair registered in `compose_jong`,
/// verifying that two consecutive Jong inputs in **Moachigi** mode
/// fold into the expected composite on a `ChoJungJong` syllable.
#[test]
fn all_compound_jongs_compose_in_moachigi() {
    let cases: &[(u32, u32, u32, &str)] = &[
        (0x11A8, 0x11A8, 0x11A9, "ᆨ+ᆨ=ᆩ (doubled)"),
        (0x11A8, 0x11BA, 0x11AA, "ᆨ+ᆺ=ᆪ"),
        (0x11AB, 0x11BD, 0x11AC, "ᆫ+ᆽ=ᆬ"),
        (0x11AB, 0x11C2, 0x11AD, "ᆫ+ᇂ=ᆭ"),
        (0x11AF, 0x11A8, 0x11B0, "ᆯ+ᆨ=ᆰ"),
        (0x11AF, 0x11B7, 0x11B1, "ᆯ+ᆷ=ᆱ"),
        (0x11AF, 0x11B8, 0x11B2, "ᆯ+ᆸ=ᆲ"),
        (0x11AF, 0x11BA, 0x11B3, "ᆯ+ᆺ=ᆳ"),
        (0x11AF, 0x11C0, 0x11B4, "ᆯ+ᇀ=ᆴ"),
        (0x11AF, 0x11C1, 0x11B5, "ᆯ+ᇁ=ᆵ"),
        (0x11AF, 0x11C2, 0x11B6, "ᆯ+ᇂ=ᆶ"),
        (0x11B8, 0x11BA, 0x11B9, "ᆸ+ᆺ=ᆹ"),
        (0x11BA, 0x11BA, 0x11BB, "ᆺ+ᆺ=ᆻ (doubled)"),
    ];
    for &(a, b, expected, label) in cases {
        let mut f = HangulFsm::with_mode(ComposeMode::Moachigi);
        let _ = f.feed(JamoInput::cho_only(0x1100)); // ᄀ
        let _ = f.feed(JamoInput::Jung(0x1161));     // ᅡ
        let _ = f.feed(JamoInput::jong_only(a));
        let _ = f.feed(JamoInput::jong_only(b));
        assert_eq!(
            f.state().jong.map(Jong::codepoint),
            Some(expected),
            "{label} — final state mismatch",
        );
        assert_eq!(f.state().cho.map(Cho::codepoint), Some(0x1100));
        assert_eq!(f.state().jung.map(Jung::codepoint), Some(0x1161));
    }
}

/// Same matrix in **Sequential** mode; inputs go through the
/// `ChoJungJong` branch of `feed_sequential`.
#[test]
fn all_compound_jongs_compose_in_sequential() {
    let cases: &[(u32, u32, u32, &str)] = &[
        (0x11A8, 0x11BA, 0x11AA, "ᆨ+ᆺ=ᆪ"),
        (0x11AB, 0x11BD, 0x11AC, "ᆫ+ᆽ=ᆬ"),
        (0x11AB, 0x11C2, 0x11AD, "ᆫ+ᇂ=ᆭ"),
        (0x11AF, 0x11A8, 0x11B0, "ᆯ+ᆨ=ᆰ"),
        (0x11AF, 0x11B7, 0x11B1, "ᆯ+ᆷ=ᆱ"),
        (0x11AF, 0x11B8, 0x11B2, "ᆯ+ᆸ=ᆲ"),
        (0x11AF, 0x11BA, 0x11B3, "ᆯ+ᆺ=ᆳ"),
        (0x11AF, 0x11C0, 0x11B4, "ᆯ+ᇀ=ᆴ"),
        (0x11AF, 0x11C1, 0x11B5, "ᆯ+ᇁ=ᆵ"),
        (0x11AF, 0x11C2, 0x11B6, "ᆯ+ᇂ=ᆶ"),
        (0x11B8, 0x11BA, 0x11B9, "ᆸ+ᆺ=ᆹ"),
    ];
    for &(a, b, expected, label) in cases {
        let mut f = HangulFsm::new();
        let _ = f.feed(JamoInput::cho_only(0x1100));
        let _ = f.feed(JamoInput::Jung(0x1161));
        let _ = f.feed(JamoInput::jong_only(a));
        let _ = f.feed(JamoInput::jong_only(b));
        assert_eq!(
            f.state().jong.map(Jong::codepoint),
            Some(expected),
            "{label} (sequential) — final state mismatch",
        );
    }
}

/// Regression: in Sequential mode, typing `ChoJungJong` and then a
/// Jong-only key that doesn't compose with the existing Jong must
/// commit the current syllable AND seed the new state with the
/// orphan Jong — not drop it silently.
#[test]
fn sequential_chojungjong_plus_noncompose_jong_keeps_input() {
    let mut f = HangulFsm::new();
    let _ = f.feed(JamoInput::cho_only(0x1100));   // ᄀ
    let _ = f.feed(JamoInput::Jung(0x1161));       // ᅡ
    let _ = f.feed(JamoInput::jong_only(0x11A8));  // ᆨ (→ 각)
    // ᆨ + ᆯ has no triple-jong composition.
    let ev = f.feed(JamoInput::jong_only(0x11AF)); // ᆯ
    match ev {
        FsmEvent::CommitThenPreedit { commit, .. } => {
            // Old syllable "각" committed (as conjoining jamo).
            assert_eq!(commit, "\u{1100}\u{1161}\u{11A8}");
        }
        other => panic!("expected CommitThenPreedit, got {other:?}"),
    }
    // The orphan Jong ᆯ lives on in the new state.
    assert_eq!(f.state().jong.map(Jong::codepoint), Some(0x11AF));
    assert!(f.state().cho.is_none());
    assert!(f.state().jung.is_none());
}

/// End-to-end: common compound-jong syllables from a Sebeolsik
/// Final-style Moachigi run should collapse into the expected
/// NFC text.
#[test]
fn sebeolsik_compound_jong_end_to_end_moachigi() {
    struct Case<'a> {
        label: &'a str,
        cho: u32, jung: u32, jong_a: u32, jong_b: u32,
        expected: &'a str,
    }
    let cases = [
        Case { label: "몫", cho: 0x1106, jung: 0x1169, jong_a: 0x11A8, jong_b: 0x11BA, expected: "몫" },
        Case { label: "앉", cho: 0x110B, jung: 0x1161, jong_a: 0x11AB, jong_b: 0x11BD, expected: "앉" },
        Case { label: "않", cho: 0x110B, jung: 0x1161, jong_a: 0x11AB, jong_b: 0x11C2, expected: "않" },
        Case { label: "닭", cho: 0x1103, jung: 0x1161, jong_a: 0x11AF, jong_b: 0x11A8, expected: "닭" },
        Case { label: "삶", cho: 0x1109, jung: 0x1161, jong_a: 0x11AF, jong_b: 0x11B7, expected: "삶" },
        Case { label: "밟", cho: 0x1107, jung: 0x1161, jong_a: 0x11AF, jong_b: 0x11B8, expected: "밟" },
        Case { label: "곬", cho: 0x1100, jung: 0x1169, jong_a: 0x11AF, jong_b: 0x11BA, expected: "곬" },
        Case { label: "핥", cho: 0x1112, jung: 0x1161, jong_a: 0x11AF, jong_b: 0x11C0, expected: "핥" },
        Case { label: "읊", cho: 0x110B, jung: 0x1173, jong_a: 0x11AF, jong_b: 0x11C1, expected: "읊" },
        Case { label: "뚫", cho: 0x1104, jung: 0x116E, jong_a: 0x11AF, jong_b: 0x11C2, expected: "뚫" },
        Case { label: "값", cho: 0x1100, jung: 0x1161, jong_a: 0x11B8, jong_b: 0x11BA, expected: "값" },
        Case { label: "밖", cho: 0x1107, jung: 0x1161, jong_a: 0x11A8, jong_b: 0x11A8, expected: "밖" },
        Case { label: "갔", cho: 0x1100, jung: 0x1161, jong_a: 0x11BA, jong_b: 0x11BA, expected: "갔" },
    ];
    for c in &cases {
        let mut f = HangulFsm::with_mode(ComposeMode::Moachigi);
        let _ = f.feed(JamoInput::cho_only(c.cho));
        let _ = f.feed(JamoInput::Jung(c.jung));
        let _ = f.feed(JamoInput::jong_only(c.jong_a));
        let _ = f.feed(JamoInput::jong_only(c.jong_b));
        let out = to_nfc_syllable(&f.preedit_string());
        assert_eq!(out, c.expected, "{}", c.label);
    }
}

/// Regression: state already holds a simple Jong, and the user presses
/// a direct-compound-Jong key (as on Sebeolsik Final) whose first
/// component matches. The compound must **absorb** the simple instead
/// of committing the syllable and orphaning the new key.
#[test]
fn simple_jong_absorbed_by_matching_compound_moachigi() {
    // (simple_jong, compound_jong, label)
    let cases: &[(u32, u32, &str)] = &[
        (0x11A8, 0x11A9, "ᆨ absorbed by ᆩ"),
        (0x11A8, 0x11AA, "ᆨ absorbed by ᆪ"),
        (0x11AB, 0x11AC, "ᆫ absorbed by ᆬ"),
        (0x11AB, 0x11AD, "ᆫ absorbed by ᆭ"),
        (0x11AF, 0x11B0, "ᆯ absorbed by ᆰ"),
        (0x11AF, 0x11B1, "ᆯ absorbed by ᆱ"),
        (0x11AF, 0x11B2, "ᆯ absorbed by ᆲ"),
        (0x11AF, 0x11B3, "ᆯ absorbed by ᆳ"),
        (0x11AF, 0x11B4, "ᆯ absorbed by ᆴ"),
        (0x11AF, 0x11B5, "ᆯ absorbed by ᆵ"),
        (0x11AF, 0x11B6, "ᆯ absorbed by ᆶ"),
        (0x11B8, 0x11B9, "ᆸ absorbed by ᆹ"),
        (0x11BA, 0x11BB, "ᆺ absorbed by ᆻ"),
    ];
    for &(simple, compound, label) in cases {
        let mut f = HangulFsm::with_mode(ComposeMode::Moachigi);
        let _ = f.feed(JamoInput::cho_only(0x1100)); // ᄀ
        let _ = f.feed(JamoInput::Jung(0x1161));     // ᅡ
        let _ = f.feed(JamoInput::jong_only(simple));
        let ev = f.feed(JamoInput::jong_only(compound));
        assert!(
            matches!(ev, FsmEvent::Preedit(_)),
            "{label} — expected Preedit, got {ev:?}",
        );
        assert_eq!(
            f.state().jong.map(Jong::codepoint),
            Some(compound),
            "{label} — final Jong mismatch",
        );
        assert_eq!(f.state().cho.map(Cho::codepoint), Some(0x1100));
        assert_eq!(f.state().jung.map(Jung::codepoint), Some(0x1161));
    }
}

/// Same absorb rule in Sequential mode (the `ChoJungJong` branch).
#[test]
fn simple_jong_absorbed_by_matching_compound_sequential() {
    let cases: &[(u32, u32, &str)] = &[
        (0x11A8, 0x11AA, "ᆨ absorbed by ᆪ"),
        (0x11AB, 0x11AC, "ᆫ absorbed by ᆬ"),
        (0x11AF, 0x11B0, "ᆯ absorbed by ᆰ"),
        (0x11AF, 0x11B2, "ᆯ absorbed by ᆲ"),
        (0x11AF, 0x11B6, "ᆯ absorbed by ᆶ"),
        (0x11B8, 0x11B9, "ᆸ absorbed by ᆹ"),
    ];
    for &(simple, compound, label) in cases {
        let mut f = HangulFsm::new();
        let _ = f.feed(JamoInput::cho_only(0x1100));
        let _ = f.feed(JamoInput::Jung(0x1161));
        let _ = f.feed(JamoInput::jong_only(simple));
        let ev = f.feed(JamoInput::jong_only(compound));
        assert!(
            matches!(ev, FsmEvent::Preedit(_)),
            "{label} (sequential) — expected Preedit, got {ev:?}",
        );
        assert_eq!(
            f.state().jong.map(Jong::codepoint),
            Some(compound),
            "{label} (sequential) — final Jong mismatch",
        );
    }
}

/// Moachigi + dual-role consonant after a complete syllable:
/// the syllable is "done" from the user's POV, so the next key —
/// even a dual-role one whose Jong part would compose — must
/// commit and start a new syllable with the Cho role. Users
/// repeatedly bumped into 안 silently turning into 앉 when they
/// had already moved on to the next word.
#[test]
fn moachigi_dual_role_after_full_syllable_starts_new() {
    let mut f = HangulFsm::with_mode(ComposeMode::Moachigi);
    let _ = f.feed(JamoInput::cho_only(0x110B));           // ᄋ
    let _ = f.feed(JamoInput::Jung(0x1161));               // ᅡ
    let _ = f.feed(JamoInput::jong_only(0x11AB));          // ᆫ → 안 (complete)
    let ev = f.feed(JamoInput::cho_dual(0x110C, 0x11BD));  // dual (ᄌ, ᆽ)
    match ev {
        FsmEvent::CommitThenPreedit { commit, preedit } => {
            // Commit 안 unchanged; new syllable starts with cho ᄌ.
            assert_eq!(commit, "\u{110B}\u{1161}\u{11AB}");
            assert_eq!(preedit, "\u{110C}");
        }
        other => panic!("expected CommitThenPreedit, got {other:?}"),
    }
    assert_eq!(f.state().cho.map(Cho::codepoint), Some(0x110C));
    assert_eq!(f.state().jong, None);
    // Absorb-style case also commits + starts fresh.
    let mut f = HangulFsm::with_mode(ComposeMode::Moachigi);
    let _ = f.feed(JamoInput::cho_only(0x110B));
    let _ = f.feed(JamoInput::Jung(0x1161));
    let _ = f.feed(JamoInput::jong_only(0x11AF));          // 알 (complete)
    let ev = f.feed(JamoInput::cho_dual(0x1105, 0x11AF));  // dual ㄹ
    match ev {
        FsmEvent::CommitThenPreedit { commit, .. } => {
            assert_eq!(commit, "\u{110B}\u{1161}\u{11AF}");
        }
        other => panic!("expected CommitThenPreedit, got {other:?}"),
    }
}

/// Within a still-incomplete syllable a dual-role key should
/// still prefer the Jong role when that would compose — this
/// is what enables reverse-order moachigi (jong-first) to compound.
#[test]
fn moachigi_dual_role_prefers_jong_while_incomplete() {
    // state = ᄋ + ᆫ (no jung yet), incoming = dual(ᄌ, ᆽ) → compose ᆫ+ᆽ = ᆬ
    let mut f = HangulFsm::with_mode(ComposeMode::Moachigi);
    let _ = f.feed(JamoInput::cho_only(0x110B));
    let _ = f.feed(JamoInput::jong_only(0x11AB));
    let ev = f.feed(JamoInput::cho_dual(0x110C, 0x11BD));
    assert!(matches!(ev, FsmEvent::Preedit(_)), "got {ev:?}");
    assert_eq!(f.state().jong.map(Jong::codepoint), Some(0x11AC));
}

/// Non-matching simple + compound must still commit: the existing Jong
/// isn't a prefix of the incoming compound (e.g. ᆨ then ᆲ).
#[test]
fn non_matching_compound_still_commits() {
    let mut f = HangulFsm::with_mode(ComposeMode::Moachigi);
    let _ = f.feed(JamoInput::cho_only(0x1100));  // ᄀ
    let _ = f.feed(JamoInput::Jung(0x1161));      // ᅡ
    let _ = f.feed(JamoInput::jong_only(0x11A8)); // ᆨ → 각
    let ev = f.feed(JamoInput::jong_only(0x11B2)); // ᆲ (starts with ᆯ, not ᆨ)
    match ev {
        FsmEvent::CommitThenPreedit { commit, .. } => {
            assert_eq!(commit, "\u{1100}\u{1161}\u{11A8}");
        }
        other => panic!("expected CommitThenPreedit, got {other:?}"),
    }
    assert_eq!(f.state().jong.map(Jong::codepoint), Some(0x11B2));
}

#[test]
fn double_jong_merges_via_compose_jong() {
    // "각" + ㄱ → "갂" (doubled ㄲ in jong position).
    let mut f = HangulFsm::new();
    let _ = f.feed(JamoInput::cho_dual(0x1100, 0x11A8)); // ㄱ
    let _ = f.feed(JamoInput::Jung(0x1161));             // ㅏ
    let _ = f.feed(JamoInput::cho_dual(0x1100, 0x11A8)); // ᆨ → attach
    let _ = f.feed(JamoInput::cho_dual(0x1100, 0x11A8)); // ᆨ again → ᆩ
    let out = to_nfc_syllable(&f.preedit_string());
    assert_eq!(out, "갂");
}

#[test]
fn mode_switchable_at_runtime() {
    let mut f = HangulFsm::new();
    assert_eq!(f.mode(), ComposeMode::Sequential);
    f.set_mode(ComposeMode::Moachigi);
    assert_eq!(f.mode(), ComposeMode::Moachigi);
}

#[test]
fn lone_final_and_vowel_commit_together_leaving_no_preedit() {
    let mut f = HangulFsm::new();
    f.feed(JamoInput::cho_only(0x1100));
    f.feed(jung(0x1161));
    f.feed(JamoInput::jong_only(0x11A8));
    // A final that cannot join ᆨ starts a lone final after committing 각.
    let ev = f.feed(JamoInput::jong_only(0x11AF));
    assert_eq!(
        ev,
        FsmEvent::CommitThenPreedit { commit: "\u{1100}\u{1161}\u{11A8}".into(), preedit: "\u{11AF}".into() }
    );
    // A vowel with no initial commits the lone final and itself.
    let ev = f.feed(jung(0x1161));
    assert_eq!(ev, FsmEvent::Commit("\u{11AF}\u{1161}".into()));
    assert!(!f.is_composing());
    assert_eq!(f.preedit_string(), "");
}

#[test]
fn lone_vowel_from_empty_commits_alone() {
    let mut f = HangulFsm::new();
    assert_eq!(f.feed(jung(0x1161)), FsmEvent::Commit("\u{1161}".into()));
    assert!(!f.is_composing());
}
