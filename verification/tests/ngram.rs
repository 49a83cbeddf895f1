use lib_ime::abbr::{build_abbrs, AbbrEntry};
use lib_ime::ngram::{clean_token, is_useful, to_toml, toml_string, tokenize, NgramCounter};
use lib_ime::{Abbreviation, Trigger, TriggerEvent};

fn learn(text: &str) -> Vec<Abbreviation> {
    let mut c = NgramCounter::new();
    c.add_text(text);
    c.finish().abbrs
}

#[test]
fn builds_2_and_3_grams_above_min_freq() {
    let text = "안녕 하세요 반갑 습니다\n안녕 하세요 반갑 습니다\n안녕 하세요 반갑 습니다\n";
    let abbrs = learn(text);
    let has = |trigger: &str, body: &str| {
        abbrs.iter().any(|a| match &a.trigger {
            Trigger::Literal(t) => t == trigger && a.body == body,
            _ => false,
        })
    };
    assert!(has("안녕", "안녕 하세요"));
    assert!(has("하세요", "하세요 반갑"));
    assert!(has("안녕 하세요", "안녕 하세요 반갑"));
    assert!(has("하세요 반갑", "하세요 반갑 습니다"));
    let a = abbrs.iter().find(|a| a.body == "안녕 하세요").unwrap();
    assert_eq!(a.priority, 3);
    assert_eq!(a.id, "learned:안녕::안녕 하세요");
    assert_eq!(a.trigger_on, TriggerEvent::Explicit);
}

#[test]
fn strips_trailing_punctuation() {
    let text = "안녕하세요. 안녕하세요. 반가워요!\n안녕하세요. 안녕하세요. 반가워요!";
    let abbrs = learn(text);
    let found = abbrs.iter().any(|a| match &a.trigger {
        Trigger::Literal(t) => t == "안녕하세요",
        _ => false,
    });
    assert!(found, "trailing period not stripped");
}

#[test]
fn singletons_are_dropped_and_counts_rank() {
    let mut c = NgramCounter::new();
    c.add_text("alpha beta");
    c.add_text("alpha beta gamma alpha");
    let r = c.finish();
    assert_eq!(r.files_scanned, 2);
    assert_eq!(r.tokens_read, 6);
    assert_eq!(r.abbrs[0].body, "alpha");
    assert_eq!(r.abbrs[0].priority, 3);
    assert!(r.abbrs.iter().all(|a| a.priority >= 2));
    assert!(!r.abbrs.iter().any(|a| a.body == "gamma"));
}

#[test]
fn tokens_are_cleaned() {
    assert_eq!(clean_token("「안녕하세요.」"), "안녕하세요");
    assert_eq!(clean_token("...!"), "");
    assert!(!is_useful("123"));
    assert!(is_useful("a1"));
    assert!(!is_useful(""));
    assert_eq!(tokenize("  hi,\u{3000}there 42 "), vec!["hi".to_string(), "there".to_string()]);
}

#[test]
fn toml_strings_are_escaped() {
    assert_eq!(toml_string("he said \"hi\\there\"\n"), "\"he said \\\"hi\\\\there\\\"\\n\"");
    assert_eq!(toml_string("a\u{1}b"), "\"a\\u0001b\"");
}

#[test]
fn toml_entries_are_written() {
    let abbrs = vec![Abbreviation {
        id: "t-1".into(),
        trigger: Trigger::Literal("he said".into()),
        body: "he said \"hi\\there\"".into(),
        trigger_on: TriggerEvent::Explicit,
        priority: 5,
    }];
    let text = to_toml(&abbrs);
    assert!(text.contains("[[abbr]]\nid         = \"t-1\"\ntrigger    = \"he said\"\nkind       = \"literal\"\n"));
    assert!(text.contains("body       = \"he said \\\"hi\\\\there\\\"\"\ntrigger_on = \"explicit\"\npriority   = 5\n\n"));
}

#[test]
fn dict_lives_in_the_config_dir() {
    let p = lib_ime::ngram::dict_path("/cfg");
    assert_eq!(p, "/cfg/learned_ngrams.toml");
    assert_eq!(lib_ime::ngram::dict_path("/cfg/"), "/cfg/learned_ngrams.toml");
    assert_eq!(lib_ime::ngram::dict_path(""), "learned_ngrams.toml");
}

/// Read an `[[abbr]]` file the way the host's loader does: each table's
/// fields become an entry, and the library builds the abbreviations.
fn parse_abbr_toml(text: &str) -> Result<Vec<Abbreviation>, String> {
    let table: toml::Table = text.parse().map_err(|e: toml::de::Error| e.to_string())?;
    let mut entries = Vec::new();
    if let Some(arr) = table.get("abbr").and_then(|v| v.as_array()) {
        for item in arr {
            let t = item.as_table().ok_or("entry is not a table")?;
            let text_of = |k: &str| t.get(k).and_then(|v| v.as_str()).map(str::to_string);
            entries.push(AbbrEntry {
                trigger: text_of("trigger").ok_or("missing trigger")?,
                kind: text_of("kind").ok_or("missing kind")?,
                body: text_of("body").ok_or("missing body")?,
                id: text_of("id"),
                priority: t.get("priority").and_then(|v| v.as_integer()).map(|p| p as u32),
                trigger_on: text_of("trigger_on"),
            });
        }
    }
    build_abbrs(entries).map_err(|e| e.message())
}

#[test]
fn serialized_toml_roundtrips() {
    let text = "알파 베타 감마\n알파 베타 감마\n";
    let abbrs = learn(text);
    assert!(!abbrs.is_empty());
    let toml = to_toml(&abbrs);
    let parsed = parse_abbr_toml(&toml).expect("round-trip parses");
    assert_eq!(parsed.len(), abbrs.len());
    for (p, a) in parsed.iter().zip(abbrs.iter()) {
        assert_eq!(p, a);
    }
}

#[test]
fn tokens_with_quotes_and_backslashes_roundtrip() {
    let abbrs = vec![Abbreviation {
        id: "t-1".into(),
        trigger: Trigger::Literal("he said".into()),
        body: r#"he said "hi\there""#.into(),
        trigger_on: TriggerEvent::Explicit,
        priority: 5,
    }];
    let toml = to_toml(&abbrs);
    let parsed = parse_abbr_toml(&toml).expect("escaping round-trips");
    assert_eq!(parsed.len(), 1);
    assert_eq!(parsed[0].body, r#"he said "hi\there""#);
}
