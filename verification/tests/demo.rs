use lib_ime::demo::{
    default_layouts, exits, form_label, layout_from_arg, map_char_to_keycode, next_form, run_script, DemoKey,
    DemoState,
};
use lib_ime::session::HangulLayoutId;
use lib_ime::{KeyCode, OutputForm};

#[test]
fn script_composes_annyeonghaseyo() {
    assert_eq!(run_script(HangulLayoutId::Dubeolsik, "dkssudgktpdy"), "안녕하세요");
    assert_eq!(run_script(HangulLayoutId::Dubeolsik, "dkssud gktpdy"), "안녕 하세요");
}

#[test]
fn script_keeps_unmapped_characters() {
    assert_eq!(run_script(HangulLayoutId::Dubeolsik, "rk!"), "가!");
}

#[test]
fn chars_map_to_keys() {
    assert_eq!(map_char_to_keycode('R'), Some((KeyCode::KeyR, true)));
    assert_eq!(map_char_to_keycode('r'), Some((KeyCode::KeyR, false)));
    assert_eq!(map_char_to_keycode('`'), Some((KeyCode::Backquote, false)));
    assert_eq!(map_char_to_keycode('!'), None);
}

#[test]
fn forms_cycle() {
    let f = OutputForm::NfcSyllable;
    assert_eq!(next_form(next_form(next_form(f))), f);
    assert_eq!(form_label(next_form(f)), "Conjoining");
    assert_eq!(default_layouts()[2].label, "세벌식 최종");
}

#[test]
fn interactive_typing() {
    let mut st = DemoState::new();
    for ch in "rk".chars() {
        st.handle(DemoKey::Char { ch, shift: false, ctrl: false, alt: false, meta: false, repeat: false });
    }
    assert_eq!(st.preedit_display(), "가");
    st.handle(DemoKey::Enter);
    assert_eq!(st.committed(), "가\n");
    st.handle(DemoKey::Backspace);
    assert_eq!(st.committed(), "가");
    st.handle(DemoKey::Tab);
    assert_eq!(st.layout_idx(), 1);
    assert!(exits(DemoKey::Char { ch: 'c', shift: false, ctrl: true, alt: false, meta: false, repeat: false }));
}

#[test]
fn layout_arguments_pick_a_demo_layout() {
    assert_eq!(layout_from_arg("dubeolsik"), Some(0));
    assert_eq!(layout_from_arg("두벌식"), Some(0));
    assert_eq!(layout_from_arg("sebeolsik"), Some(1));
    assert_eq!(layout_from_arg("sebeolsik-390"), Some(1));
    assert_eq!(layout_from_arg("세벌식"), Some(1));
    assert_eq!(layout_from_arg("sebeolsik-final"), Some(2));
    assert_eq!(layout_from_arg("최종"), Some(2));
    assert_eq!(layout_from_arg("qwerty"), None);
}
