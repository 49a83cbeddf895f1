#![allow(unused_imports)]
use lib_ime::layout::latin::{dvorak_char, qwerty_char};
use lib_ime::{Dvorak, KeyCode, KeyEvent, Layout, LayoutKind, LayoutOutput, Modifiers, Qwerty};

fn k(code: KeyCode, shift: bool) -> KeyEvent {
    if shift {
        KeyEvent::shift(code)
    } else {
        KeyEvent::plain(code)
    }
}

#[test]
fn qwerty_letters() {
    assert_eq!(Qwerty.map(&k(KeyCode::KeyA, false)), LayoutOutput::Char('a'));
    assert_eq!(Qwerty.map(&k(KeyCode::KeyA, true)), LayoutOutput::Char('A'));
}

#[test]
fn qwerty_digits_and_shifts() {
    assert_eq!(Qwerty.map(&k(KeyCode::Digit1, false)), LayoutOutput::Char('1'));
    assert_eq!(Qwerty.map(&k(KeyCode::Digit1, true)), LayoutOutput::Char('!'));
    assert_eq!(Qwerty.map(&k(KeyCode::Digit2, true)), LayoutOutput::Char('@'));
}

#[test]
fn dvorak_letters_differ_from_qwerty() {
    // Physical "S" in Dvorak → 'o'
    assert_eq!(Dvorak.map(&k(KeyCode::KeyS, false)), LayoutOutput::Char('o'));
    assert_eq!(Dvorak.map(&k(KeyCode::KeyS, true)), LayoutOutput::Char('O'));
    // Physical "Q" in Dvorak → '''
    assert_eq!(Dvorak.map(&k(KeyCode::KeyQ, false)), LayoutOutput::Char('\''));
}

#[test]
fn dvorak_number_row_matches_qwerty() {
    assert_eq!(Dvorak.map(&k(KeyCode::Digit1, false)), LayoutOutput::Char('1'));
    assert_eq!(Dvorak.map(&k(KeyCode::Digit1, true)), LayoutOutput::Char('!'));
}

#[test]
fn dvorak_right_of_p_is_slash() {
    // Physical "[" in Dvorak is '/'
    assert_eq!(Dvorak.map(&k(KeyCode::BracketLeft, false)), LayoutOutput::Char('/'));
}

#[test]
fn dvorak_and_qwerty_chars_agree_on_the_number_row() {
    let row = [
        KeyCode::Backquote, KeyCode::Digit0, KeyCode::Digit1, KeyCode::Digit2, KeyCode::Digit3,
        KeyCode::Digit4, KeyCode::Digit5, KeyCode::Digit6, KeyCode::Digit7, KeyCode::Digit8,
        KeyCode::Digit9,
    ];
    for code in row {
        for shift in [false, true] {
            assert_eq!(dvorak_char(code, shift), qwerty_char(code, shift));
            assert!(qwerty_char(code, shift).is_some());
        }
    }
    assert_eq!(dvorak_char(KeyCode::KeyS, false), Some('o'));
    assert_eq!(qwerty_char(KeyCode::KeyS, false), Some('s'));
}
