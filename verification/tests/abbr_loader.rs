use lib_ime::abbr::loader::{build_abbrs, AbbrEntry, LoadError};
use lib_ime::{Trigger, TriggerEvent};

fn entry(trigger: &str, kind: &str, body: &str) -> AbbrEntry {
    AbbrEntry {
        trigger: trigger.to_string(),
        kind: kind.to_string(),
        body: body.to_string(),
        id: None,
        priority: None,
        trigger_on: None,
    }
}

#[test]
fn parses_cho_seq_from_compat() {
    // [[abbr]] trigger = "ㄱㅅ", kind = "cho_seq", body = "감사합니다.",
    // trigger_on = "space", priority = 90
    let mut e = entry("ㄱㅅ", "cho_seq", "감사합니다.");
    e.trigger_on = Some("space".to_string());
    e.priority = Some(90);
    let items = build_abbrs(vec![e]).expect("parse ok");
    assert_eq!(items.len(), 1);
    match &items[0].trigger {
        Trigger::ChoSeq(cs) => {
            assert_eq!(cs, &vec![0x1100, 0x1109]);
        }
        t => panic!("expected ChoSeq, got {t:?}"),
    }
    assert_eq!(items[0].body, "감사합니다.");
    assert_eq!(items[0].trigger_on, TriggerEvent::Space);
    assert_eq!(items[0].priority, 90);
}

#[test]
fn parses_literal_and_ending() {
    let items = build_abbrs(vec![
        entry("메일끝", "literal", "감사합니다.\n홍길동 드림."),
        entry("습니다", "ending", "습니다."),
    ])
    .unwrap();
    assert!(matches!(items[0].trigger, Trigger::Literal(ref s) if s == "메일끝"));
    assert!(matches!(items[1].trigger, Trigger::Ending(ref s) if s == "습니다"));
    assert_eq!(items[1].trigger_on, TriggerEvent::Explicit);
}

#[test]
fn loader_rejects_unknown_kind() {
    let err = build_abbrs(vec![entry("x", "weird", "y")]).unwrap_err();
    match err {
        LoadError::Validation(m) => assert!(m.contains("weird")),
        other => panic!("expected validation error, got {other:?}"),
    }
}

#[test]
fn rejects_bad_cho_codepoint() {
    let err = build_abbrs(vec![entry("abc", "cho_seq", "nope")]).unwrap_err();
    assert!(matches!(err, LoadError::Validation(_)));
}

#[test]
fn default_id_numbers_entries() {
    let items = build_abbrs(vec![entry("btw", "literal", "그런데"), entry("imo", "literal", "제 생각에는")]).unwrap();
    assert_eq!(items[0].id, "user:0:btw");
    assert_eq!(items[1].id, "user:1:imo");
    assert_eq!(items[0].priority, 100);
}

#[test]
fn explicit_id_is_kept() {
    let mut e = entry("ᄀᄉ", "cho_seq", "감사합니다.");
    e.id = Some("my-greet".to_string());
    let items = build_abbrs(vec![e]).unwrap();
    assert_eq!(items[0].id, "my-greet");
    assert!(matches!(&items[0].trigger, Trigger::ChoSeq(cs) if cs == &vec![0x1100, 0x1109]));
}

#[test]
fn bad_cho_message_names_code_point() {
    let err = build_abbrs(vec![entry("ㄱa", "cho_seq", "x")]).unwrap_err();
    match err {
        LoadError::Validation(m) => assert_eq!(m, "'a' (U+0061) is not an initial consonant"),
        other => panic!("unexpected {other:?}"),
    }
}

#[test]
fn empty_triggers_are_rejected() {
    for (kind, msg) in [
        ("cho_seq", "cho_seq trigger empty"),
        ("literal", "literal trigger empty"),
        ("ending", "ending trigger empty"),
    ] {
        match build_abbrs(vec![entry("", kind, "x")]).unwrap_err() {
            LoadError::Validation(m) => assert_eq!(m, msg),
            other => panic!("unexpected {other:?}"),
        }
    }
}

#[test]
fn unknown_trigger_event_is_rejected() {
    let mut e = entry("btw", "literal", "그런데");
    e.trigger_on = Some("sometimes".to_string());
    match build_abbrs(vec![e]).unwrap_err() {
        LoadError::Validation(m) => assert_eq!(m, "unknown trigger_on: sometimes"),
        other => panic!("unexpected {other:?}"),
    }
}

#[test]
fn first_invalid_entry_is_reported() {
    let err = build_abbrs(vec![entry("ok", "literal", "x"), entry("a", "bad1", "y"), entry("b", "bad2", "z")])
        .unwrap_err();
    assert_eq!(err, LoadError::Validation("unknown kind: bad1".to_string()));
}

#[test]
fn load_error_messages() {
    assert_eq!(LoadError::Io("gone".into()).message(), "io error: gone");
    assert_eq!(LoadError::Parse("bad".into()).message(), "toml error: bad");
    assert_eq!(LoadError::Validation("v".into()).message(), "validation: v");
}
