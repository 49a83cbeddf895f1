use lib_ime::session::{
    cho_only, is_modifier_code, keyboard_keys, make_hangul_layout, parse_compose_mode, parse_output_form,
    HangulLayoutId, ImeSession, InputMode, LatinLayoutId,
};
use lib_ime::session::within_chord;
use lib_ime::settings::Settings;
use lib_ime::{
    starter_dict, to_display_text, to_nfc_syllable, ComposeMode, KeyCode, KeyEvent, LayoutOutput, Modifiers,
    OutputForm, Trigger,
};

/// The Jamo path of a key: map it through the active layout, feed the
/// state machine with the chord hint, mirror the preedit into the engine.
fn feed_key(sess: &mut ImeSession, code: KeyCode, shift: bool, within_chord: bool) -> (String, String) {
    let kev = KeyEvent {
        code,
        mods: if shift { Modifiers::shift_only() } else { Modifiers::none() },
        repeat: false,
    };
    match sess.map_key(&kev) {
        LayoutOutput::Jamo(input) => {
            let (raw_commit, _) = sess.feed_jamo(input, within_chord);
            let preedit = to_display_text(&sess.preedit_string());
            (raw_commit, preedit)
        }
        other => panic!("unexpected layout output: {:?}", other),
    }
}

fn final_session() -> ImeSession {
    let mut sess = ImeSession::new(HangulLayoutId::SebeolsikFinal, LatinLayoutId::Qwerty);
    sess.set_compose_mode("moachigi").unwrap();
    sess
}

#[test]
fn sebeolsik_final_moachigi_weon_simultaneous_j_9_s_t() {
    let mut sess = final_session();
    let _ = feed_key(&mut sess, KeyCode::KeyJ, false, false);
    let _ = feed_key(&mut sess, KeyCode::Digit9, false, true);
    let _ = feed_key(&mut sess, KeyCode::KeyS, false, true);
    let _ = feed_key(&mut sess, KeyCode::KeyT, false, true);
    let nfc = to_nfc_syllable(&sess.preedit_string());
    assert_eq!(nfc, "원", "got {nfc}, preedit={:?}", sess.preedit_string());
}

#[test]
fn sebeolsik_final_moachigi_weon_j_9_t_s() {
    let mut sess = final_session();
    let (c1, p1) = feed_key(&mut sess, KeyCode::KeyJ, false, false);
    assert_eq!(c1, "", "J should not commit");
    assert_eq!(p1, "ㅇ", "after J preedit should be ㅇ (compat), got {p1}");
    let (c2, p2) = feed_key(&mut sess, KeyCode::Digit9, false, true);
    assert_eq!(c2, "", "9 should not commit");
    assert_eq!(p2, "우", "after 9 preedit should be 우, got {p2}");
    let (c3, p3) = feed_key(&mut sess, KeyCode::KeyT, false, true);
    assert_eq!(c3, "", "T should not commit");
    assert_eq!(p3, "워", "after T preedit should be 워, got {p3}");
    let (c4, p4) = feed_key(&mut sess, KeyCode::KeyS, false, true);
    assert_eq!(c4, "", "S should not commit (still composing 원)");
    assert_eq!(p4, "원", "after S preedit should be 원, got {p4}");
    assert_eq!(to_nfc_syllable(&sess.preedit_string()), "원");
}

#[test]
fn moachigi_without_chord_keeps_syllable_boundary() {
    let mut sess = final_session();
    let _ = feed_key(&mut sess, KeyCode::KeyK, false, false);
    let _ = feed_key(&mut sess, KeyCode::KeyV, false, false);
    let _ = feed_key(&mut sess, KeyCode::KeyX, false, false);
    let (commit, _) = feed_key(&mut sess, KeyCode::KeyF, false, false);
    assert_eq!(to_nfc_syllable(&commit), "곡");
    assert_eq!(sess.preedit_string(), "\u{1161}");
}

#[test]
fn key_input_composes_and_commits_on_space() {
    let mut sess = ImeSession::new(HangulLayoutId::Dubeolsik, LatinLayoutId::Qwerty);
    let (r, fx) = sess.key_input("KeyR", false, false, false, false, false);
    assert!(fx.fed_jamo && !fx.persist);
    assert_eq!(r.preedit, "ㄱ");
    assert_eq!(r.commit, "");
    let (r, _) = sess.key_input("KeyK", false, false, false, false, false);
    assert_eq!(r.preedit, "가");
    let (r, fx) = sess.key_input("Space", false, false, false, false, false);
    assert!(!fx.fed_jamo);
    assert_eq!(r.commit, "가");
    assert!(r.passthrough);
    assert_eq!(r.emitted_char.as_deref(), Some(" "));
    assert_eq!(r.preedit, "");
    assert_eq!(r.input_mode, "hangul");
}

#[test]
fn modifier_alone_keeps_preedit() {
    let mut sess = ImeSession::new(HangulLayoutId::Dubeolsik, LatinLayoutId::Qwerty);
    let _ = sess.key_input("KeyR", false, false, false, false, false);
    let (r, _) = sess.key_input("ShiftLeft", true, false, false, false, false);
    assert_eq!(r.preedit, "ㄱ");
    assert_eq!(r.commit, "");
    assert!(!r.passthrough);
    assert_eq!(sess.preedit_string(), "\u{1100}");
    assert!(is_modifier_code("ContextMenu"));
    assert!(!is_modifier_code("KeyA"));
}

#[test]
fn unknown_key_flushes_and_passes_through() {
    let mut sess = ImeSession::new(HangulLayoutId::Dubeolsik, LatinLayoutId::Qwerty);
    let _ = sess.key_input("KeyR", false, false, false, false, false);
    let (r, _) = sess.key_input("ArrowLeft", false, false, false, false, false);
    assert_eq!(r.commit, "\u{1100}");
    assert!(r.passthrough);
    assert_eq!(sess.preedit_string(), "");
}

#[test]
fn caps_lock_toggles_mode_and_asks_to_save() {
    let mut sess = ImeSession::new(HangulLayoutId::Dubeolsik, LatinLayoutId::Qwerty);
    let _ = sess.key_input("KeyR", false, false, false, false, false);
    let (r, fx) = sess.key_input("CapsLock", false, false, false, false, false);
    assert!(fx.persist);
    assert_eq!(r.commit, "\u{1100}");
    assert_eq!(r.input_mode, "english");
    assert_eq!(sess.input_mode(), InputMode::English);
    let (r, _) = sess.key_input("KeyR", false, false, false, false, false);
    assert_eq!(r.emitted_char.as_deref(), Some("r"));
    let (r, fx) = sess.key_input("Space", true, false, false, false, false);
    assert!(fx.persist);
    assert_eq!(r.input_mode, "hangul");
}

#[test]
fn escape_and_backspace() {
    let mut sess = ImeSession::new(HangulLayoutId::Dubeolsik, LatinLayoutId::Qwerty);
    let _ = sess.key_input("KeyR", false, false, false, false, false);
    let _ = sess.key_input("KeyK", false, false, false, false, false);
    let (r, _) = sess.key_input("Backspace", false, false, false, false, false);
    assert_eq!(r.preedit, "ㄱ");
    assert!(!r.passthrough);
    let (r, _) = sess.key_input("Escape", false, false, false, false, false);
    assert_eq!(r.preedit, "");
    assert_eq!(r.commit, "");
    let (r, _) = sess.key_input("Backspace", false, false, false, false, false);
    assert!(r.passthrough);
}

#[test]
fn ctrl_key_flushes_and_passes_through() {
    let mut sess = ImeSession::new(HangulLayoutId::Dubeolsik, LatinLayoutId::Qwerty);
    let _ = sess.key_input("KeyR", false, false, false, false, false);
    let (r, _) = sess.key_input("KeyC", false, true, false, false, false);
    assert_eq!(r.commit, "\u{1100}");
    assert!(r.passthrough);
}

#[test]
fn greeting_expands_on_space() {
    // ㄱㅅ then Space expands to 감사합니다. (two lone initials, 세벌식 최종)
    let mut sess = final_session();
    // K = ᄀ on 세벌식 최종, N = ᄉ
    let _ = sess.key_input("KeyK", false, false, false, false, false);
    let _ = sess.key_input("KeyN", false, false, false, false, false);
    let (r, _) = sess.key_input("Space", false, false, false, false, false);
    assert_eq!(r.abbr_fired.as_deref(), Some("gs"));
    assert_eq!(r.commit, "감사합니다.");
    assert_eq!(r.emitted_char.as_deref(), Some(" "));
}

#[test]
fn apply_abbreviation_adds_space_after_sentence() {
    let mut sess = final_session();
    let _ = sess.key_input("KeyK", false, false, false, false, false);
    let r = sess.apply_abbreviation("gs");
    assert_eq!(r.abbr_fired.as_deref(), Some("gs"));
    assert_eq!(r.commit, "감사합니다. ");
    assert_eq!(r.rollback_chars, 0);
    let r = sess.apply_abbreviation("no-such-id");
    assert_eq!(r.abbr_fired, None);
    assert_eq!(r.commit, "");
}

#[test]
fn suggestions_follow_the_picker_switch() {
    let mut sess = final_session();
    let (r, _) = sess.key_input("KeyK", false, false, false, false, false);
    assert!(!r.suggestions.is_empty());
    assert!(r.suggestions.len() <= 8);
    sess.set_suggestions_enabled(false);
    let (r, _) = sess.key_input("KeyN", false, false, false, false, false);
    assert!(r.suggestions.is_empty());
}

#[test]
fn cancel_abbr_match_rolls_back() {
    let mut sess = final_session();
    let _ = sess.key_input("KeyK", false, false, false, false, false);
    let _ = sess.key_input("KeyN", false, false, false, false, false);
    let r = sess.cancel_abbr_match(1);
    assert_eq!(r.rollback_chars, 1);
    assert_eq!(r.preedit, "");
    assert_eq!(sess.preedit_string(), "");
}

#[test]
fn layout_commands_validate_names() {
    let mut sess = ImeSession::new(HangulLayoutId::Dubeolsik, LatinLayoutId::Qwerty);
    let info = sess.set_layout("sebeolsik-390").unwrap();
    assert_eq!(info.id, "sebeolsik-390");
    assert_eq!(info.compose_mode, "moachigi");
    assert!(info.supports_moachigi);
    assert_eq!(sess.set_layout("qwerty").unwrap_err(), "unknown hangul layout: qwerty");
    let info = sess.set_layout("dubeolsik-std").unwrap();
    assert_eq!(info.compose_mode, "sequential");
    assert_eq!(sess.set_latin_layout("colemak").unwrap_err(), "unknown latin layout: colemak");
    let info = sess.set_input_mode("english").unwrap();
    assert_eq!(info.id, "qwerty-us");
    assert_eq!(info.name, "QWERTY (US)");
    assert_eq!(sess.set_input_mode("klingon").unwrap_err(), "unknown input mode: klingon");
    assert_eq!(sess.set_output_form("utf16").unwrap_err(), "unknown output form: utf16");
    assert_eq!(sess.set_output_form("compat").unwrap().output_form, "compat");
    assert_eq!(sess.set_backspace_mode("word").unwrap_err(), "unknown backspace mode: word");
    assert_eq!(sess.set_backspace_mode("jamo").unwrap().backspace_mode, "jamo");
    assert_eq!(sess.set_compose_mode("chord").unwrap_err(), "unknown compose mode: chord");
}

#[test]
fn reset_restores_defaults() {
    let mut sess = ImeSession::new(HangulLayoutId::Dubeolsik, LatinLayoutId::Dvorak);
    sess.set_input_mode("english").unwrap();
    let info = sess.reset_to_defaults();
    assert_eq!(info.hangul_layout_id, "sebeolsik-final");
    assert_eq!(info.latin_layout_id, "qwerty-us");
    assert_eq!(info.input_mode, "hangul");
    assert_eq!(info.output_form, "nfc");
    assert_eq!(info.compose_mode, "moachigi");
    let snap = sess.settings_snapshot();
    let mut defaults = Settings::default();
    defaults.layout_id = None;
    assert_eq!(snap, defaults);
}

#[test]
fn layout_map_describes_keys() {
    let sess = ImeSession::new(HangulLayoutId::Dubeolsik, LatinLayoutId::Qwerty);
    let hints = sess.layout_map();
    assert_eq!(hints.len(), keyboard_keys().len());
    let r = hints.iter().find(|h| h.code == "KeyR").unwrap();
    assert_eq!(r.label, "R");
    assert_eq!(r.base, "ㄱ");
    assert_eq!(r.shift, "ㄲ");
    assert_eq!(r.role, "cho");
    let k = hints.iter().find(|h| h.code == "KeyK").unwrap();
    assert_eq!(k.base, "ㅏ");
    assert_eq!(k.role, "jung");
}

#[test]
fn session_dictionary_is_cho_only() {
    let sess = ImeSession::new(HangulLayoutId::SebeolsikFinal, LatinLayoutId::Qwerty);
    let list = sess.list_abbreviations();
    assert!(!list.is_empty());
    assert!(list.iter().all(|a| a.kind == "cho_seq"));
    let filtered = cho_only(starter_dict());
    assert!(filtered.iter().all(|a| matches!(a.trigger, Trigger::ChoSeq(_))));
    assert_eq!(filtered.len(), list.len());
}

#[test]
fn names_parse() {
    assert_eq!(make_hangul_layout("os-ime"), Some(HangulLayoutId::OsIme));
    assert_eq!(parse_output_form("conjoining"), Some(OutputForm::JamoConjoining));
    assert_eq!(parse_compose_mode("sequential"), Some(ComposeMode::Sequential));
    assert_eq!(InputMode::parse("hangul"), Some(InputMode::Hangul));
    assert_eq!(InputMode::Hangul.toggled(), InputMode::English);
    assert_eq!(InputMode::English.as_str(), "english");
}

#[test]
fn session_restores_from_saved_settings() {
    let mut saved = Settings::default();
    saved.hangul_layout_id = "dubeolsik-std".to_string();
    saved.latin_layout_id = "dvorak".to_string();
    saved.input_mode = "english".to_string();
    saved.output_form = "compat".to_string();
    saved.compose_mode = "sequential".to_string();
    saved.suggestions_enabled = false;
    saved.backspace_mode = "jamo".to_string();
    saved.use_user_abbrs = false;
    let sess = ImeSession::from_settings(&saved);
    assert_eq!(sess.hangul_layout(), HangulLayoutId::Dubeolsik);
    assert_eq!(sess.latin_layout(), LatinLayoutId::Dvorak);
    assert_eq!(sess.input_mode(), InputMode::English);
    assert_eq!(sess.output_form(), OutputForm::JamoCompat);
    assert_eq!(sess.fsm().mode(), ComposeMode::Sequential);
    assert!(!sess.use_user_abbrs());
    let back = sess.settings_snapshot();
    assert_eq!(back.hangul_layout_id, "dubeolsik-std");
    assert_eq!(back.backspace_mode, "jamo");
    assert!(!back.suggestions_enabled);
    assert_eq!(back, Settings { layout_id: None, ..saved });
}

#[test]
fn unknown_saved_names_fall_back_to_defaults() {
    let mut saved = Settings::default();
    saved.hangul_layout_id = "colemak".to_string();
    saved.latin_layout_id = "azerty".to_string();
    saved.input_mode = "klingon".to_string();
    saved.output_form = "utf7".to_string();
    saved.compose_mode = "".to_string();
    saved.backspace_mode = "word".to_string();
    let sess = ImeSession::from_settings(&saved);
    assert_eq!(sess.hangul_layout(), HangulLayoutId::SebeolsikFinal);
    assert_eq!(sess.latin_layout(), LatinLayoutId::Qwerty);
    assert_eq!(sess.input_mode(), InputMode::Hangul);
    assert_eq!(sess.output_form(), OutputForm::NfcSyllable);
    // 세벌식 최종 supports order-independent input.
    assert_eq!(sess.fsm().mode(), ComposeMode::Moachigi);
    assert_eq!(sess.settings_snapshot().backspace_mode, "syllable");

    saved.hangul_layout_id = "dubeolsik-std".to_string();
    let sess = ImeSession::from_settings(&saved);
    assert_eq!(sess.fsm().mode(), ComposeMode::Sequential);
}

#[test]
fn chord_window_is_fifty_milliseconds() {
    assert!(!within_chord(None));
    assert!(within_chord(Some(0)));
    assert!(within_chord(Some(50_000_000)));
    assert!(!within_chord(Some(50_000_001)));
}
