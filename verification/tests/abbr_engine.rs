#![allow(unused_imports)]
use lib_ime::{AbbrEvent, Abbreviation, AbbreviationEngine, Trigger, TriggerEvent};

fn cho_seq(cs: &[u32]) -> Trigger {
    Trigger::ChoSeq(cs.to_vec())
}

fn abbr_cho(id: &str, chos: &[u32], body: &str, ev: TriggerEvent) -> Abbreviation {
    Abbreviation {
        id: id.into(),
        trigger: cho_seq(chos),
        body: body.into(),
        trigger_on: ev,
        priority: 100,
    }
}

#[test]
fn cho_seq_fires_on_space() {
    // ㄱㅅ → "감사합니다"
    let mut e = AbbreviationEngine::new(vec![abbr_cho(
        "gs",
        &[0x1100, 0x1109],
        "감사합니다",
        TriggerEvent::Space,
    )]);
    // Commits from FSM: first Cho then next Cho (each lone).
    assert_eq!(e.on_commit("\u{1100}"), AbbrEvent::Nothing);
    let after_second = e.on_commit("\u{1109}");
    assert!(matches!(after_second, AbbrEvent::Pending { .. }));
    let fired = e.on_trigger(TriggerEvent::Space);
    match fired {
        AbbrEvent::Expand { rollback_chars, insert, .. } => {
            assert_eq!(rollback_chars, 2);
            assert_eq!(insert, "감사합니다");
        }
        other => panic!("expected Expand, got {other:?}"),
    }
}

#[test]
fn immediate_fires_without_trigger_key() {
    let mut e = AbbreviationEngine::new(vec![abbr_cho(
        "ok",
        &[0x110B, 0x110F],
        "알겠습니다",
        TriggerEvent::Immediate,
    )]);
    let _ = e.on_commit("\u{110B}");
    let ev = e.on_commit("\u{110F}");
    match ev {
        AbbrEvent::Expand { rollback_chars, insert, .. } => {
            assert_eq!(rollback_chars, 2);
            assert_eq!(insert, "알겠습니다");
        }
        other => panic!("expected Expand, got {other:?}"),
    }
}

#[test]
fn no_match_when_jung_interrupts() {
    let mut e = AbbreviationEngine::new(vec![abbr_cho(
        "gs",
        &[0x1100, 0x1109],
        "감사합니다",
        TriggerEvent::Space,
    )]);
    let _ = e.on_commit("\u{1100}");
    // 가 (NFC syllable) doesn't look like a Cho codepoint → tail break.
    let _ = e.on_commit("가");
    let _ = e.on_commit("\u{1109}");
    // Only one Cho at the tail → no match.
    assert_eq!(e.on_trigger(TriggerEvent::Space), AbbrEvent::Nothing);
}

#[test]
fn longer_match_wins() {
    let mut e = AbbreviationEngine::new(vec![
        abbr_cho("gs", &[0x1100, 0x1109], "감사합니다", TriggerEvent::Space),
        abbr_cho(
            "gsjn",
            &[0x1100, 0x1109, 0x110C, 0x1102],
            "감사합니다, 잘 부탁드려요",
            TriggerEvent::Space,
        ),
    ]);
    let _ = e.on_commit("\u{1100}\u{1109}\u{110C}\u{1102}");
    let fired = e.on_trigger(TriggerEvent::Space);
    match fired {
        AbbrEvent::Expand { abbr_id, .. } => assert_eq!(abbr_id, "gsjn"),
        other => panic!("expected long match, got {other:?}"),
    }
}

#[test]
fn literal_trigger_matches_nfc_tail() {
    let mut e = AbbreviationEngine::new(vec![Abbreviation {
        id: "mail-end".into(),
        trigger: Trigger::Literal("메일끝".into()),
        body: "감사합니다.\n홍길동 드림".into(),
        trigger_on: TriggerEvent::Space,
        priority: 100,
    }]);
    let _ = e.on_commit("메일끝");
    let fired = e.on_trigger(TriggerEvent::Space);
    match fired {
        AbbrEvent::Expand { rollback_chars, insert, .. } => {
            assert_eq!(rollback_chars, 3);
            assert_eq!(insert, "감사합니다.\n홍길동 드림");
        }
        other => panic!("expected Expand, got {other:?}"),
    }
}

#[test]
fn disabled_engine_never_fires() {
    let mut e = AbbreviationEngine::new(vec![abbr_cho(
        "gs",
        &[0x1100, 0x1109],
        "감사합니다",
        TriggerEvent::Immediate,
    )]);
    e.set_enabled(false);
    assert_eq!(e.on_commit("\u{1100}\u{1109}"), AbbrEvent::Nothing);
}

#[test]
fn candidates_prefix_match_on_cho() {
    let e = AbbreviationEngine::new(vec![
        abbr_cho("gs", &[0x1100, 0x1109], "감사합니다", TriggerEvent::Space),
        abbr_cho("gd", &[0x1100, 0x1103], "고생하셨습니다", TriggerEvent::Space),
        abbr_cho("ok", &[0x110B, 0x110F], "알겠습니다", TriggerEvent::Space),
    ]);
    let mut e2 = e.clone();
    let _ = e2.on_commit("\u{1100}");
    let cands = e2.candidates();
    let ids: Vec<_> = cands.iter().map(|s| s.abbr_id.as_str()).collect();
    assert!(ids.contains(&"gs"));
    assert!(ids.contains(&"gd"));
    assert!(!ids.contains(&"ok"));
    // All these are inexact (only 1 char of 2 matched)
    assert!(cands.iter().all(|s| !s.is_exact));
    assert!(cands.iter().all(|s| s.rollback_chars == 1));
}

#[test]
fn candidates_rank_exact_first() {
    let e = AbbreviationEngine::new(vec![
        abbr_cho("gs", &[0x1100, 0x1109], "감사합니다", TriggerEvent::Space),
        abbr_cho("gsj", &[0x1100, 0x1109, 0x110C], "감사합니다 잘", TriggerEvent::Space),
    ]);
    let mut e2 = e.clone();
    let _ = e2.on_commit("\u{1100}\u{1109}");
    let cands = e2.candidates();
    // gs is exact, should come first.
    assert_eq!(cands.first().unwrap().abbr_id, "gs");
    assert!(cands.first().unwrap().is_exact);
}

#[test]
fn preedit_participates_in_candidates() {
    let mut e = AbbreviationEngine::new(vec![Abbreviation {
        id: "end:습니다".into(),
        trigger: Trigger::Ending("습니다".into()),
        body: "습니다".into(),
        trigger_on: TriggerEvent::Explicit,
        priority: 100,
    }]);
    // Nothing committed yet; preedit is the partial Hangul syllable
    // "습" still held by the FSM.
    e.set_preedit("습");
    let cands = e.candidates();
    assert_eq!(cands.len(), 1);
    assert_eq!(cands[0].abbr_id, "end:습니다");
    assert!(cands[0].is_prefix);
    assert_eq!(cands[0].rollback_chars, 1);
}

#[test]
fn fire_by_id_with_preedit_only_no_commit_rollback() {
    // When the entire match lives in the preedit (nothing committed),
    // the host-visible rollback is zero — the engine internally
    // cancels the preedit, leaving the committed buffer untouched.
    let mut e = AbbreviationEngine::new(vec![Abbreviation {
        id: "end:습니다".into(),
        trigger: Trigger::Ending("습니다".into()),
        body: "습니다".into(),
        trigger_on: TriggerEvent::Explicit,
        priority: 100,
    }]);
    e.set_preedit("습");
    let ev = e.fire_by_id("end:습니다");
    match ev {
        AbbrEvent::Expand { rollback_chars, insert, .. } => {
            assert_eq!(rollback_chars, 0);
            assert_eq!(insert, "습니다");
        }
        other => panic!("expected Expand, got {other:?}"),
    }
}

#[test]
fn fire_by_id_splits_commit_and_preedit_rollback() {
    // Commit "학" and preedit "습" → effective tail "학습".
    // Accepting "습니다" should rollback 0 committed chars
    // (preedit consumes all of the match).
    let mut e = AbbreviationEngine::new(vec![Abbreviation {
        id: "end:습니다".into(),
        trigger: Trigger::Ending("습니다".into()),
        body: "습니다".into(),
        trigger_on: TriggerEvent::Explicit,
        priority: 100,
    }]);
    let _ = e.on_commit("학");
    e.set_preedit("습");
    let ev = e.fire_by_id("end:습니다");
    match ev {
        AbbrEvent::Expand { rollback_chars, insert, .. } => {
            // The match is "습" (1 char). All of it lives in preedit.
            assert_eq!(rollback_chars, 0);
            assert_eq!(insert, "습니다");
        }
        other => panic!("expected Expand, got {other:?}"),
    }
}

#[test]
fn fire_by_id_applies_even_with_partial_tail() {
    let mut e = AbbreviationEngine::new(vec![
        abbr_cho("gs", &[0x1100, 0x1109], "감사합니다", TriggerEvent::Space),
    ]);
    // User only typed one Cho.
    let _ = e.on_commit("\u{1100}");
    let ev = e.fire_by_id("gs");
    match ev {
        AbbrEvent::Expand { rollback_chars, insert, .. } => {
            assert_eq!(rollback_chars, 1);
            assert_eq!(insert, "감사합니다");
        }
        other => panic!("expected Expand, got {other:?}"),
    }
}

#[test]
fn ending_matches_without_word_boundary() {
    // "습" after "먹었" (no preceding space) should suggest "습니다".
    let mut e = AbbreviationEngine::new(vec![Abbreviation {
        id: "end:습니다".into(),
        trigger: Trigger::Ending("습니다".into()),
        body: "습니다".into(),
        trigger_on: TriggerEvent::Explicit,
        priority: 100,
    }]);
    let _ = e.on_commit("먹었습");
    let cands = e.candidates();
    assert_eq!(cands.len(), 1);
    assert_eq!(cands[0].abbr_id, "end:습니다");
    assert_eq!(cands[0].rollback_chars, 1);
    assert!(!cands[0].is_exact);
}

#[test]
fn ending_fires_by_id_with_partial_tail() {
    let mut e = AbbreviationEngine::new(vec![Abbreviation {
        id: "end:습니다".into(),
        trigger: Trigger::Ending("습니다".into()),
        body: "습니다".into(),
        trigger_on: TriggerEvent::Explicit,
        priority: 100,
    }]);
    let _ = e.on_commit("가습");
    let ev = e.fire_by_id("end:습니다");
    match ev {
        AbbrEvent::Expand { rollback_chars, insert, .. } => {
            // Only "습" (1 char) at the tail matched the trigger prefix.
            assert_eq!(rollback_chars, 1);
            assert_eq!(insert, "습니다");
        }
        other => panic!("expected Expand, got {other:?}"),
    }
}

#[test]
fn candidates_literal_require_word_boundary() {
    let mut e = AbbreviationEngine::new(vec![Abbreviation {
        id: "mail".into(),
        trigger: Trigger::Literal("메일".into()),
        body: "감사합니다".into(),
        trigger_on: TriggerEvent::Space,
        priority: 100,
    }]);
    // Tail: "하메" (no boundary before 메) → no candidate.
    let _ = e.on_commit("하메");
    assert!(e.candidates().is_empty());
    // Tail with a space: " 메" → candidate.
    e.reset();
    let _ = e.on_commit(" 메");
    assert!(!e.candidates().is_empty());
}

#[test]
fn candidates_surface_substring_match_for_endings() {
    // Typing "니다" should suggest any ending that *contains* "니다".
    let mut e = AbbreviationEngine::new(vec![
        Abbreviation {
            id: "end:습니다".into(),
            trigger: Trigger::Ending("습니다".into()),
            body: "습니다".into(),
            trigger_on: TriggerEvent::Explicit,
            priority: 100,
        },
        Abbreviation {
            id: "end:합니다".into(),
            trigger: Trigger::Ending("합니다".into()),
            body: "합니다".into(),
            trigger_on: TriggerEvent::Explicit,
            priority: 100,
        },
    ]);
    let _ = e.on_commit("니다");
    let cands = e.candidates();
    let ids: Vec<_> = cands.iter().map(|s| s.abbr_id.as_str()).collect();
    assert!(ids.contains(&"end:습니다"));
    assert!(ids.contains(&"end:합니다"));
    // None are prefix since 니다 starts at position 1 in both.
    assert!(cands.iter().all(|s| !s.is_prefix));
    assert!(cands.iter().all(|s| s.match_start > 0));
}

#[test]
fn candidates_rank_prefix_above_substring() {
    let mut e = AbbreviationEngine::new(vec![
        Abbreviation {
            id: "end:니다만".into(),
            trigger: Trigger::Ending("니다만".into()),
            body: "니다만".into(),
            trigger_on: TriggerEvent::Explicit,
            priority: 100,
        },
        Abbreviation {
            id: "end:습니다".into(),
            trigger: Trigger::Ending("습니다".into()),
            body: "습니다".into(),
            trigger_on: TriggerEvent::Explicit,
            priority: 100,
        },
    ]);
    let _ = e.on_commit("니다");
    let cands = e.candidates();
    // The prefix match ("니다" is prefix of "니다만") ranks first.
    assert_eq!(cands.first().unwrap().abbr_id, "end:니다만");
    assert!(cands.first().unwrap().is_prefix);
}

#[test]
fn declaratives_rank_above_interrogatives_on_tie() {
    // Both "습니다" and "습니까" prefix-match "습". The declarative
    // (priority 100) should outrank the interrogative (priority 50).
    let mut e = AbbreviationEngine::new(vec![
        Abbreviation {
            id: "end:습니다".into(),
            trigger: Trigger::Ending("습니다".into()),
            body: "습니다.".into(),
            trigger_on: TriggerEvent::Explicit,
            priority: 100,
        },
        Abbreviation {
            id: "end:습니까".into(),
            trigger: Trigger::Ending("습니까".into()),
            body: "습니까?".into(),
            trigger_on: TriggerEvent::Explicit,
            priority: 50,
        },
    ]);
    e.set_preedit("습");
    let cands = e.candidates();
    assert!(cands.len() >= 2);
    assert_eq!(cands[0].abbr_id, "end:습니다");
    assert_eq!(cands[1].abbr_id, "end:습니까");
}

#[test]
fn single_char_substring_is_not_a_candidate() {
    // A lone syllable like "니" would substring-match many endings.
    // Require k >= 2 for non-prefix matches to cut the noise.
    let mut e = AbbreviationEngine::new(vec![Abbreviation {
        id: "end:입니다".into(),
        trigger: Trigger::Ending("입니다".into()),
        body: "입니다".into(),
        trigger_on: TriggerEvent::Explicit,
        priority: 100,
    }]);
    let _ = e.on_commit("단");
    // "단" only appears in 입니다 as substring of length 0 (not really).
    // Check with real partial: "니" — single-char substring, should be
    // excluded.
    e.reset();
    let _ = e.on_commit("니");
    assert!(e.candidates().is_empty());
}

#[test]
fn backspace_invalidates_pending_match() {
    let mut e = AbbreviationEngine::new(vec![abbr_cho(
        "gs",
        &[0x1100, 0x1109],
        "감사합니다",
        TriggerEvent::Space,
    )]);
    let _ = e.on_commit("\u{1100}\u{1109}");
    e.on_backspace();
    assert_eq!(e.on_trigger(TriggerEvent::Space), AbbrEvent::Nothing);
}
