#![allow(unused_imports)]
use lib_ime::{starter_dict, Trigger, TriggerEvent};
use lib_ime::abbr::dict::chos_of;

#[test]
fn starter_dict_has_sections() {
    let d = starter_dict();
    assert!(d.iter().any(|a| a.id == "gs"));
    assert!(d.iter().any(|a| a.id == "end:습니다"));
    assert!(d.iter().any(|a| a.id == "conj-lit:그러나"));
    assert!(d.iter().any(|a| a.id == "conj-cho:그러나"));
    assert!(d.iter().any(|a| a.id == "mail-end"));
}

#[test]
fn declarative_endings_end_with_period() {
    let d = starter_dict();
    for a in &d {
        if let Trigger::Ending(text) = &a.trigger {
            if text.ends_with("습니다")
                || text.ends_with("입니다")
                || text == "합니다"
                || text == "됩니다"
                || text == "있습니다"
                || text == "없습니다"
                || text == "드립니다"
                || text == "겠습니다"
                || text == "드려요"
                || text == "주세요"
                || text == "세요"
                || text == "해요"
                || text == "네요"
                || text == "군요"
            {
                assert!(
                    a.body.ends_with('.'),
                    "declarative ending '{text}' body '{}' lacks a period",
                    a.body
                );
            }
        }
    }
}

#[test]
fn greetings_end_with_period() {
    let d = starter_dict();
    for id in ["gs", "onhsy", "sg", "jshnd", "chk", "ok", "gd", "hy", "jh", "gt"] {
        let a = d.iter().find(|a| a.id == id).unwrap();
        assert!(a.body.ends_with('.'), "greeting {id} body '{}' lacks a period", a.body);
    }
}

#[test]
fn conjunctions_have_both_triggers() {
    let d = starter_dict();
    for word in ["그러나", "그리고", "하지만", "따라서", "또한", "혹은"] {
        let lit_id = format!("conj-lit:{word}");
        let cho_id = format!("conj-cho:{word}");
        assert!(d.iter().any(|a| a.id == lit_id), "missing {lit_id}");
        assert!(d.iter().any(|a| a.id == cho_id), "missing {cho_id}");
    }
}

#[test]
fn chos_of_extracts_choseong() {
    // 사람 → ㅅ(0x1109) ㄹ(0x1105)
    assert_eq!(chos_of("사람"), vec![0x1109, 0x1105]);
    // 마지막 → ㅁ(0x1106) ㅈ(0x110C) ㅁ(0x1106)
    assert_eq!(chos_of("마지막"), vec![0x1106, 0x110C, 0x1106]);
    // 비한글 스킵
    assert_eq!(chos_of("abc"), Vec::<u32>::new());
    assert_eq!(chos_of("가 나"), vec![0x1100, 0x1102]);
}

#[test]
fn common_words_registered_both_ways() {
    let d = starter_dict();
    for w in ["사람", "시간", "학교", "문제", "희망"] {
        let lit_id = format!("word-lit:{w}");
        let cho_id = format!("word-cho:{w}");
        assert!(d.iter().any(|a| a.id == lit_id), "missing {lit_id}");
        assert!(d.iter().any(|a| a.id == cho_id), "missing {cho_id}");
    }
}

#[test]
fn cho_endings_registered() {
    let d = starter_dict();
    // 핵심 어미들이 cho_seq alias 로 등록되어 있어야 한다.
    for suffix in ["snd", "ond", "hnd", "dnd", "drnd", "gsnd",
                   "isnd", "ogsnd", "sng", "ong", "hng",
                   "jsyo", "hjsyo", "sso"] {
        let id = format!("end-cho-{suffix}");
        let abbr = d.iter().find(|a| a.id == id);
        assert!(abbr.is_some(), "missing cho-ending {id}");
        let a = abbr.unwrap();
        assert!(matches!(a.trigger, Trigger::ChoSeq(_)),
                "{id} must be cho_seq");
        assert_eq!(a.trigger_on, TriggerEvent::Explicit,
                   "{id} must fire on Tab");
        assert!(a.body.ends_with('.') || a.body.ends_with('?'),
                "{id} body '{}' must end with terminator", a.body);
    }
}

#[test]
fn cho_endings_question_priority_below_declarative() {
    let d = starter_dict();
    let snd = d.iter().find(|a| a.id == "end-cho-snd").unwrap();
    let sng = d.iter().find(|a| a.id == "end-cho-sng").unwrap();
    assert!(sng.priority < snd.priority,
            "interrogative ㅅㄴㄲ must rank below declarative ㅅㄴㄷ");
}

#[test]
fn common_words_priority_below_greetings() {
    let d = starter_dict();
    let gs = d.iter().find(|a| a.id == "gs").unwrap();
    let saram = d.iter().find(|a| a.id == "word-cho:사람").unwrap();
    assert!(saram.priority < gs.priority,
            "common words must rank below greetings");
}

#[test]
fn all_cho_triggers_use_valid_codepoints() {
    let d = starter_dict();
    for a in &d {
        if let Trigger::ChoSeq(cs) = &a.trigger {
            for &cp in cs {
                assert!(
                    (0x1100..=0x1112).contains(&cp),
                    "abbr '{}' has out-of-range Cho U+{:04X}",
                    a.id,
                    cp
                );
            }
        }
    }
}

#[test]
fn endings_do_not_auto_fire_on_space() {
    let d = starter_dict();
    for a in &d {
        if matches!(a.trigger, Trigger::Ending(_)) {
            assert_eq!(a.trigger_on, TriggerEvent::Explicit, "{} auto-fires", a.id);
        }
    }
}
