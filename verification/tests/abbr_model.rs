#![allow(unused_imports)]
use lib_ime::{Trigger};

#[test]
fn cho_seq_display_converts_to_compat() {
    let t = Trigger::ChoSeq(vec![0x1100, 0x1109]); // ᄀ ᄉ
    assert_eq!(t.display(), "ㄱㅅ");
}

#[test]
fn literal_display_is_identity() {
    let t = Trigger::Literal("메일끝".into());
    assert_eq!(t.display(), "메일끝");
}

#[test]
fn match_len_counts_chars_not_bytes() {
    let t = Trigger::Literal("메일끝".into());
    assert_eq!(t.match_len(), 3);
}
