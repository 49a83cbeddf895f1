use lib_ime::settings::Settings;

#[test]
fn default_settings_point_to_sebeolsik_final() {
    let s = Settings::default();
    assert_eq!(s.hangul_layout_id, "sebeolsik-final");
    assert_eq!(s.latin_layout_id, "qwerty-us");
    assert_eq!(s.input_mode, "hangul");
    assert_eq!(s.output_form, "nfc");
    assert_eq!(s.compose_mode, "moachigi");
}

#[test]
fn legacy_layout_id_migrates_when_default() {
    let mut s = Settings::default();
    s.layout_id = Some("sebeolsik-390".to_string());
    let m = s.migrate_legacy_layout();
    assert_eq!(m.hangul_layout_id, "sebeolsik-390");
    assert_eq!(m.layout_id, None);
}

#[test]
fn legacy_layout_id_does_not_override_a_choice() {
    let mut s = Settings::default();
    s.hangul_layout_id = "dubeolsik-std".to_string();
    s.layout_id = Some("sebeolsik-390".to_string());
    let m = s.migrate_legacy_layout();
    assert_eq!(m.hangul_layout_id, "dubeolsik-std");
    assert_eq!(m.layout_id, None);
}
