//! Physical-key abstraction.
//!
//! [`KeyCode`] is the physical position on the keyboard, independent of
//! the installed OS layout. This matches `KeyboardEvent.code` in the
//! browser, so the same layout works regardless of the host keyboard.
use vstd::prelude::*;
use crate::text::str_eq;

verus! {

/// Physical key position, layout-independent.
///
/// Codes follow the UI Events `KeyboardEvent.code` naming for ASCII
/// letters, digits and common punctuation.
#[allow(missing_docs)]
#[derive(Copy, Clone, Debug, PartialEq, Eq, Hash, PartialOrd, Ord, Structural)]
pub enum KeyCode {
    KeyA, KeyB, KeyC, KeyD, KeyE, KeyF, KeyG, KeyH, KeyI, KeyJ,
    KeyK, KeyL, KeyM, KeyN, KeyO, KeyP, KeyQ, KeyR, KeyS, KeyT,
    KeyU, KeyV, KeyW, KeyX, KeyY, KeyZ,
    Digit0, Digit1, Digit2, Digit3, Digit4,
    Digit5, Digit6, Digit7, Digit8, Digit9,
    Space, Enter, Tab, Backspace, Escape,
    Minus, Equal, BracketLeft, BracketRight, Backslash,
    Semicolon, Quote, Comma, Period, Slash, Backquote,
    /// Caps Lock — used by the app as a Hangul/English toggle.
    CapsLock,
}

/// Modifier keys held during a key press.
///
/// For IME purposes only `shift` is consulted by most layouts; the other
/// modifiers make layouts pass the key through to the shortcut system.
#[derive(Copy, Clone, Debug, Default, PartialEq, Eq, Hash, Structural)]
pub struct Modifiers {
    /// Shift is down.
    pub shift: bool,
    /// Control (or Command on macOS) is down.
    pub ctrl: bool,
    /// Alt (or Option on macOS) is down.
    pub alt: bool,
    /// `AltGr` is down (European layouts).
    pub altgr: bool,
    /// OS key (Windows/Command/Super) is down.
    pub meta: bool,
}

impl Modifiers {
    /// No modifiers held.
    pub fn none() -> (r: Modifiers)
        ensures
            r == (Modifiers { shift: false, ctrl: false, alt: false, altgr: false, meta: false }),
    {
        Modifiers { shift: false, ctrl: false, alt: false, altgr: false, meta: false }
    }

    /// Shift only.
    pub fn shift_only() -> (r: Modifiers)
        ensures
            r == (Modifiers { shift: true, ctrl: false, alt: false, altgr: false, meta: false }),
    {
        Modifiers { shift: true, ctrl: false, alt: false, altgr: false, meta: false }
    }

    /// The state with no modifier held.
    pub open spec fn spec_none() -> Modifiers {
        Modifiers { shift: false, ctrl: false, alt: false, altgr: false, meta: false }
    }

    /// The state with only Shift held.
    pub open spec fn spec_shift_only() -> Modifiers {
        Modifiers { shift: true, ctrl: false, alt: false, altgr: false, meta: false }
    }

    /// Whether the combination goes through the IME layout: any of
    /// Ctrl / Alt / Meta disables IME translation.
    pub open spec fn ime_eligible(self) -> bool {
        !self.ctrl && !self.alt && !self.meta
    }

    /// Whether this combination should go through the IME layout (rather
    /// than being passed straight to the shortcut system).
    #[verifier::when_used_as_spec(ime_eligible)]
    pub fn is_ime_eligible(self) -> (r: bool)
        ensures
            r == self.ime_eligible(),
    {
        !self.ctrl && !self.alt && !self.meta
    }
}

/// A single key event delivered to a layout.
#[derive(Copy, Clone, Debug, PartialEq, Eq, Hash, Structural)]
pub struct KeyEvent {
    /// Physical key.
    pub code: KeyCode,
    /// Modifier state.
    pub mods: Modifiers,
    /// Whether this is an auto-repeat event (held key).
    pub repeat: bool,
}

impl KeyEvent {
    /// A plain (no-modifier, non-repeat) event.
    pub fn plain(code: KeyCode) -> (r: Self)
        ensures
            r == (KeyEvent { code, mods: Modifiers::spec_none(), repeat: false }),
    {
        Self { code, mods: Modifiers::none(), repeat: false }
    }

    /// A Shift-only event.
    pub fn shift(code: KeyCode) -> (r: Self)
        ensures
            r == (KeyEvent { code, mods: Modifiers::spec_shift_only(), repeat: false }),
    {
        Self { code, mods: Modifiers::shift_only(), repeat: false }
    }
}

/// The canonical name of a key (the `KeyboardEvent.code` name).
pub open spec fn key_name(k: KeyCode) -> Seq<char> {
    match k {
        KeyCode::KeyA => "KeyA"@,
        KeyCode::KeyB => "KeyB"@,
        KeyCode::KeyC => "KeyC"@,
        KeyCode::KeyD => "KeyD"@,
        KeyCode::KeyE => "KeyE"@,
        KeyCode::KeyF => "KeyF"@,
        KeyCode::KeyG => "KeyG"@,
        KeyCode::KeyH => "KeyH"@,
        KeyCode::KeyI => "KeyI"@,
        KeyCode::KeyJ => "KeyJ"@,
        KeyCode::KeyK => "KeyK"@,
        KeyCode::KeyL => "KeyL"@,
        KeyCode::KeyM => "KeyM"@,
        KeyCode::KeyN => "KeyN"@,
        KeyCode::KeyO => "KeyO"@,
        KeyCode::KeyP => "KeyP"@,
        KeyCode::KeyQ => "KeyQ"@,
        KeyCode::KeyR => "KeyR"@,
        KeyCode::KeyS => "KeyS"@,
        KeyCode::KeyT => "KeyT"@,
        KeyCode::KeyU => "KeyU"@,
        KeyCode::KeyV => "KeyV"@,
        KeyCode::KeyW => "KeyW"@,
        KeyCode::KeyX => "KeyX"@,
        KeyCode::KeyY => "KeyY"@,
        KeyCode::KeyZ => "KeyZ"@,
        KeyCode::Digit0 => "Digit0"@,
        KeyCode::Digit1 => "Digit1"@,
        KeyCode::Digit2 => "Digit2"@,
        KeyCode::Digit3 => "Digit3"@,
        KeyCode::Digit4 => "Digit4"@,
        KeyCode::Digit5 => "Digit5"@,
        KeyCode::Digit6 => "Digit6"@,
        KeyCode::Digit7 => "Digit7"@,
        KeyCode::Digit8 => "Digit8"@,
        KeyCode::Digit9 => "Digit9"@,
        KeyCode::Space => "Space"@,
        KeyCode::Enter => "Enter"@,
        KeyCode::Tab => "Tab"@,
        KeyCode::Backspace => "Backspace"@,
        KeyCode::Escape => "Escape"@,
        KeyCode::Minus => "Minus"@,
        KeyCode::Equal => "Equal"@,
        KeyCode::BracketLeft => "BracketLeft"@,
        KeyCode::BracketRight => "BracketRight"@,
        KeyCode::Backslash => "Backslash"@,
        KeyCode::Semicolon => "Semicolon"@,
        KeyCode::Quote => "Quote"@,
        KeyCode::Comma => "Comma"@,
        KeyCode::Period => "Period"@,
        KeyCode::Slash => "Slash"@,
        KeyCode::Backquote => "Backquote"@,
        KeyCode::CapsLock => "CapsLock"@,
    }
}

/// The canonical name of a key (the `KeyboardEvent.code` name).
pub fn code_name(c: KeyCode) -> (r: &'static str)
    ensures
        r@ == key_name(c),
{
    match c {
        KeyCode::KeyA => "KeyA",
        KeyCode::KeyB => "KeyB",
        KeyCode::KeyC => "KeyC",
        KeyCode::KeyD => "KeyD",
        KeyCode::KeyE => "KeyE",
        KeyCode::KeyF => "KeyF",
        KeyCode::KeyG => "KeyG",
        KeyCode::KeyH => "KeyH",
        KeyCode::KeyI => "KeyI",
        KeyCode::KeyJ => "KeyJ",
        KeyCode::KeyK => "KeyK",
        KeyCode::KeyL => "KeyL",
        KeyCode::KeyM => "KeyM",
        KeyCode::KeyN => "KeyN",
        KeyCode::KeyO => "KeyO",
        KeyCode::KeyP => "KeyP",
        KeyCode::KeyQ => "KeyQ",
        KeyCode::KeyR => "KeyR",
        KeyCode::KeyS => "KeyS",
        KeyCode::KeyT => "KeyT",
        KeyCode::KeyU => "KeyU",
        KeyCode::KeyV => "KeyV",
        KeyCode::KeyW => "KeyW",
        KeyCode::KeyX => "KeyX",
        KeyCode::KeyY => "KeyY",
        KeyCode::KeyZ => "KeyZ",
        KeyCode::Digit0 => "Digit0",
        KeyCode::Digit1 => "Digit1",
        KeyCode::Digit2 => "Digit2",
        KeyCode::Digit3 => "Digit3",
        KeyCode::Digit4 => "Digit4",
        KeyCode::Digit5 => "Digit5",
        KeyCode::Digit6 => "Digit6",
        KeyCode::Digit7 => "Digit7",
        KeyCode::Digit8 => "Digit8",
        KeyCode::Digit9 => "Digit9",
        KeyCode::Space => "Space",
        KeyCode::Enter => "Enter",
        KeyCode::Tab => "Tab",
        KeyCode::Backspace => "Backspace",
        KeyCode::Escape => "Escape",
        KeyCode::Minus => "Minus",
        KeyCode::Equal => "Equal",
        KeyCode::BracketLeft => "BracketLeft",
        KeyCode::BracketRight => "BracketRight",
        KeyCode::Backslash => "Backslash",
        KeyCode::Semicolon => "Semicolon",
        KeyCode::Quote => "Quote",
        KeyCode::Comma => "Comma",
        KeyCode::Period => "Period",
        KeyCode::Slash => "Slash",
        KeyCode::Backquote => "Backquote",
        KeyCode::CapsLock => "CapsLock",
    }
}

/// The key whose canonical name is `name`, if any.
pub open spec fn key_named(name: Seq<char>) -> Option<KeyCode> {
    if name == "KeyA"@ {
        Some(KeyCode::KeyA)
    } else if name == "KeyB"@ {
        Some(KeyCode::KeyB)
    } else if name == "KeyC"@ {
        Some(KeyCode::KeyC)
    } else if name == "KeyD"@ {
        Some(KeyCode::KeyD)
    } else if name == "KeyE"@ {
        Some(KeyCode::KeyE)
    } else if name == "KeyF"@ {
        Some(KeyCode::KeyF)
    } else if name == "KeyG"@ {
        Some(KeyCode::KeyG)
    } else if name == "KeyH"@ {
        Some(KeyCode::KeyH)
    } else if name == "KeyI"@ {
        Some(KeyCode::KeyI)
    } else if name == "KeyJ"@ {
        Some(KeyCode::KeyJ)
    } else if name == "KeyK"@ {
        Some(KeyCode::KeyK)
    } else if name == "KeyL"@ {
        Some(KeyCode::KeyL)
    } else if name == "KeyM"@ {
        Some(KeyCode::KeyM)
    } else if name == "KeyN"@ {
        Some(KeyCode::KeyN)
    } else if name == "KeyO"@ {
        Some(KeyCode::KeyO)
    } else if name == "KeyP"@ {
        Some(KeyCode::KeyP)
    } else if name == "KeyQ"@ {
        Some(KeyCode::KeyQ)
    } else if name == "KeyR"@ {
        Some(KeyCode::KeyR)
    } else if name == "KeyS"@ {
        Some(KeyCode::KeyS)
    } else if name == "KeyT"@ {
        Some(KeyCode::KeyT)
    } else if name == "KeyU"@ {
        Some(KeyCode::KeyU)
    } else if name == "KeyV"@ {
        Some(KeyCode::KeyV)
    } else if name == "KeyW"@ {
        Some(KeyCode::KeyW)
    } else if name == "KeyX"@ {
        Some(KeyCode::KeyX)
    } else if name == "KeyY"@ {
        Some(KeyCode::KeyY)
    } else if name == "KeyZ"@ {
        Some(KeyCode::KeyZ)
    } else if name == "Digit0"@ {
        Some(KeyCode::Digit0)
    } else if name == "Digit1"@ {
        Some(KeyCode::Digit1)
    } else if name == "Digit2"@ {
        Some(KeyCode::Digit2)
    } else if name == "Digit3"@ {
        Some(KeyCode::Digit3)
    } else if name == "Digit4"@ {
        Some(KeyCode::Digit4)
    } else if name == "Digit5"@ {
        Some(KeyCode::Digit5)
    } else if name == "Digit6"@ {
        Some(KeyCode::Digit6)
    } else if name == "Digit7"@ {
        Some(KeyCode::Digit7)
    } else if name == "Digit8"@ {
        Some(KeyCode::Digit8)
    } else if name == "Digit9"@ {
        Some(KeyCode::Digit9)
    } else if name == "Space"@ {
        Some(KeyCode::Space)
    } else if name == "Enter"@ {
        Some(KeyCode::Enter)
    } else if name == "Tab"@ {
        Some(KeyCode::Tab)
    } else if name == "Backspace"@ {
        Some(KeyCode::Backspace)
    } else if name == "Escape"@ {
        Some(KeyCode::Escape)
    } else if name == "Minus"@ {
        Some(KeyCode::Minus)
    } else if name == "Equal"@ {
        Some(KeyCode::Equal)
    } else if name == "BracketLeft"@ {
        Some(KeyCode::BracketLeft)
    } else if name == "BracketRight"@ {
        Some(KeyCode::BracketRight)
    } else if name == "Backslash"@ {
        Some(KeyCode::Backslash)
    } else if name == "Semicolon"@ {
        Some(KeyCode::Semicolon)
    } else if name == "Quote"@ {
        Some(KeyCode::Quote)
    } else if name == "Comma"@ {
        Some(KeyCode::Comma)
    } else if name == "Period"@ {
        Some(KeyCode::Period)
    } else if name == "Slash"@ {
        Some(KeyCode::Slash)
    } else if name == "Backquote"@ {
        Some(KeyCode::Backquote)
    } else if name == "CapsLock"@ {
        Some(KeyCode::CapsLock)
    } else {
        None
    }
}

/// The key whose canonical name is `name`, if any.
pub fn keycode_from_name(name: &str) -> (r: Option<KeyCode>)
    ensures
        r == key_named(name@),
{
    if str_eq(name, "KeyA") {
        return Some(KeyCode::KeyA);
    }
    if str_eq(name, "KeyB") {
        return Some(KeyCode::KeyB);
    }
    if str_eq(name, "KeyC") {
        return Some(KeyCode::KeyC);
    }
    if str_eq(name, "KeyD") {
        return Some(KeyCode::KeyD);
    }
    if str_eq(name, "KeyE") {
        return Some(KeyCode::KeyE);
    }
    if str_eq(name, "KeyF") {
        return Some(KeyCode::KeyF);
    }
    if str_eq(name, "KeyG") {
        return Some(KeyCode::KeyG);
    }
    if str_eq(name, "KeyH") {
        return Some(KeyCode::KeyH);
    }
    if str_eq(name, "KeyI") {
        return Some(KeyCode::KeyI);
    }
    if str_eq(name, "KeyJ") {
        return Some(KeyCode::KeyJ);
    }
    if str_eq(name, "KeyK") {
        return Some(KeyCode::KeyK);
    }
    if str_eq(name, "KeyL") {
        return Some(KeyCode::KeyL);
    }
    if str_eq(name, "KeyM") {
        return Some(KeyCode::KeyM);
    }
    if str_eq(name, "KeyN") {
        return Some(KeyCode::KeyN);
    }
    if str_eq(name, "KeyO") {
        return Some(KeyCode::KeyO);
    }
    if str_eq(name, "KeyP") {
        return Some(KeyCode::KeyP);
    }
    if str_eq(name, "KeyQ") {
        return Some(KeyCode::KeyQ);
    }
    if str_eq(name, "KeyR") {
        return Some(KeyCode::KeyR);
    }
    if str_eq(name, "KeyS") {
        return Some(KeyCode::KeyS);
    }
    if str_eq(name, "KeyT") {
        return Some(KeyCode::KeyT);
    }
    if str_eq(name, "KeyU") {
        return Some(KeyCode::KeyU);
    }
    if str_eq(name, "KeyV") {
        return Some(KeyCode::KeyV);
    }
    if str_eq(name, "KeyW") {
        return Some(KeyCode::KeyW);
    }
    if str_eq(name, "KeyX") {
        return Some(KeyCode::KeyX);
    }
    if str_eq(name, "KeyY") {
        return Some(KeyCode::KeyY);
    }
    if str_eq(name, "KeyZ") {
        return Some(KeyCode::KeyZ);
    }
    if str_eq(name, "Digit0") {
        return Some(KeyCode::Digit0);
    }
    if str_eq(name, "Digit1") {
        return Some(KeyCode::Digit1);
    }
    if str_eq(name, "Digit2") {
        return Some(KeyCode::Digit2);
    }
    if str_eq(name, "Digit3") {
        return Some(KeyCode::Digit3);
    }
    if str_eq(name, "Digit4") {
        return Some(KeyCode::Digit4);
    }
    if str_eq(name, "Digit5") {
        return Some(KeyCode::Digit5);
    }
    if str_eq(name, "Digit6") {
        return Some(KeyCode::Digit6);
    }
    if str_eq(name, "Digit7") {
        return Some(KeyCode::Digit7);
    }
    if str_eq(name, "Digit8") {
        return Some(KeyCode::Digit8);
    }
    if str_eq(name, "Digit9") {
        return Some(KeyCode::Digit9);
    }
    if str_eq(name, "Space") {
        return Some(KeyCode::Space);
    }
    if str_eq(name, "Enter") {
        return Some(KeyCode::Enter);
    }
    if str_eq(name, "Tab") {
        return Some(KeyCode::Tab);
    }
    if str_eq(name, "Backspace") {
        return Some(KeyCode::Backspace);
    }
    if str_eq(name, "Escape") {
        return Some(KeyCode::Escape);
    }
    if str_eq(name, "Minus") {
        return Some(KeyCode::Minus);
    }
    if str_eq(name, "Equal") {
        return Some(KeyCode::Equal);
    }
    if str_eq(name, "BracketLeft") {
        return Some(KeyCode::BracketLeft);
    }
    if str_eq(name, "BracketRight") {
        return Some(KeyCode::BracketRight);
    }
    if str_eq(name, "Backslash") {
        return Some(KeyCode::Backslash);
    }
    if str_eq(name, "Semicolon") {
        return Some(KeyCode::Semicolon);
    }
    if str_eq(name, "Quote") {
        return Some(KeyCode::Quote);
    }
    if str_eq(name, "Comma") {
        return Some(KeyCode::Comma);
    }
    if str_eq(name, "Period") {
        return Some(KeyCode::Period);
    }
    if str_eq(name, "Slash") {
        return Some(KeyCode::Slash);
    }
    if str_eq(name, "Backquote") {
        return Some(KeyCode::Backquote);
    }
    if str_eq(name, "CapsLock") {
        return Some(KeyCode::CapsLock);
    }
    None
}

/// Only canonical names are parsed: a name that yields a key is that
/// key's name, so any other text (a modifier name, a misspelling) yields
/// none.
pub proof fn lemma_only_key_names_parse(name: Seq<char>)
    ensures
        key_named(name) matches Some(k) ==> key_name(k) == name,
{
}

/// Every key is found again by its canonical name.
#[verifier::rlimit(50)]
pub proof fn lemma_key_name_round_trip(k: KeyCode)
    ensures
        key_named(key_name(k)) == Some(k),
{
    reveal_strlit("KeyA");
    reveal_strlit("KeyB");
    reveal_strlit("KeyC");
    reveal_strlit("KeyD");
    reveal_strlit("KeyE");
    reveal_strlit("KeyF");
    reveal_strlit("KeyG");
    reveal_strlit("KeyH");
    reveal_strlit("KeyI");
    reveal_strlit("KeyJ");
    reveal_strlit("KeyK");
    reveal_strlit("KeyL");
    reveal_strlit("KeyM");
    reveal_strlit("KeyN");
    reveal_strlit("KeyO");
    reveal_strlit("KeyP");
    reveal_strlit("KeyQ");
    reveal_strlit("KeyR");
    reveal_strlit("KeyS");
    reveal_strlit("KeyT");
    reveal_strlit("KeyU");
    reveal_strlit("KeyV");
    reveal_strlit("KeyW");
    reveal_strlit("KeyX");
    reveal_strlit("KeyY");
    reveal_strlit("KeyZ");
    reveal_strlit("Digit0");
    reveal_strlit("Digit1");
    reveal_strlit("Digit2");
    reveal_strlit("Digit3");
    reveal_strlit("Digit4");
    reveal_strlit("Digit5");
    reveal_strlit("Digit6");
    reveal_strlit("Digit7");
    reveal_strlit("Digit8");
    reveal_strlit("Digit9");
    reveal_strlit("Space");
    reveal_strlit("Enter");
    reveal_strlit("Tab");
    reveal_strlit("Backspace");
    reveal_strlit("Escape");
    reveal_strlit("Minus");
    reveal_strlit("Equal");
    reveal_strlit("BracketLeft");
    reveal_strlit("BracketRight");
    reveal_strlit("Backslash");
    reveal_strlit("Semicolon");
    reveal_strlit("Quote");
    reveal_strlit("Comma");
    reveal_strlit("Period");
    reveal_strlit("Slash");
    reveal_strlit("Backquote");
    reveal_strlit("CapsLock");
    assert("KeyA"@[0] == 'K' && "KeyA"@[1] == 'e' && "KeyA"@[2] == 'y' && "KeyA"@[3] == 'A');
    assert("KeyB"@[0] == 'K' && "KeyB"@[1] == 'e' && "KeyB"@[2] == 'y' && "KeyB"@[3] == 'B');
    assert("KeyC"@[0] == 'K' && "KeyC"@[1] == 'e' && "KeyC"@[2] == 'y' && "KeyC"@[3] == 'C');
    assert("KeyD"@[0] == 'K' && "KeyD"@[1] == 'e' && "KeyD"@[2] == 'y' && "KeyD"@[3] == 'D');
    assert("KeyE"@[0] == 'K' && "KeyE"@[1] == 'e' && "KeyE"@[2] == 'y' && "KeyE"@[3] == 'E');
    assert("KeyF"@[0] == 'K' && "KeyF"@[1] == 'e' && "KeyF"@[2] == 'y' && "KeyF"@[3] == 'F');
    assert("KeyG"@[0] == 'K' && "KeyG"@[1] == 'e' && "KeyG"@[2] == 'y' && "KeyG"@[3] == 'G');
    assert("KeyH"@[0] == 'K' && "KeyH"@[1] == 'e' && "KeyH"@[2] == 'y' && "KeyH"@[3] == 'H');
    assert("KeyI"@[0] == 'K' && "KeyI"@[1] == 'e' && "KeyI"@[2] == 'y' && "KeyI"@[3] == 'I');
    assert("KeyJ"@[0] == 'K' && "KeyJ"@[1] == 'e' && "KeyJ"@[2] == 'y' && "KeyJ"@[3] == 'J');
    assert("KeyK"@[0] == 'K' && "KeyK"@[1] == 'e' && "KeyK"@[2] == 'y' && "KeyK"@[3] == 'K');
    assert("KeyL"@[0] == 'K' && "KeyL"@[1] == 'e' && "KeyL"@[2] == 'y' && "KeyL"@[3] == 'L');
    assert("KeyM"@[0] == 'K' && "KeyM"@[1] == 'e' && "KeyM"@[2] == 'y' && "KeyM"@[3] == 'M');
    assert("KeyN"@[0] == 'K' && "KeyN"@[1] == 'e' && "KeyN"@[2] == 'y' && "KeyN"@[3] == 'N');
    assert("KeyO"@[0] == 'K' && "KeyO"@[1] == 'e' && "KeyO"@[2] == 'y' && "KeyO"@[3] == 'O');
    assert("KeyP"@[0] == 'K' && "KeyP"@[1] == 'e' && "KeyP"@[2] == 'y' && "KeyP"@[3] == 'P');
    assert("KeyQ"@[0] == 'K' && "KeyQ"@[1] == 'e' && "KeyQ"@[2] == 'y' && "KeyQ"@[3] == 'Q');
    assert("KeyR"@[0] == 'K' && "KeyR"@[1] == 'e' && "KeyR"@[2] == 'y' && "KeyR"@[3] == 'R');
    assert("KeyS"@[0] == 'K' && "KeyS"@[1] == 'e' && "KeyS"@[2] == 'y' && "KeyS"@[3] == 'S');
    assert("KeyT"@[0] == 'K' && "KeyT"@[1] == 'e' && "KeyT"@[2] == 'y' && "KeyT"@[3] == 'T');
    assert("KeyU"@[0] == 'K' && "KeyU"@[1] == 'e' && "KeyU"@[2] == 'y' && "KeyU"@[3] == 'U');
    assert("KeyV"@[0] == 'K' && "KeyV"@[1] == 'e' && "KeyV"@[2] == 'y' && "KeyV"@[3] == 'V');
    assert("KeyW"@[0] == 'K' && "KeyW"@[1] == 'e' && "KeyW"@[2] == 'y' && "KeyW"@[3] == 'W');
    assert("KeyX"@[0] == 'K' && "KeyX"@[1] == 'e' && "KeyX"@[2] == 'y' && "KeyX"@[3] == 'X');
    assert("KeyY"@[0] == 'K' && "KeyY"@[1] == 'e' && "KeyY"@[2] == 'y' && "KeyY"@[3] == 'Y');
    assert("KeyZ"@[0] == 'K' && "KeyZ"@[1] == 'e' && "KeyZ"@[2] == 'y' && "KeyZ"@[3] == 'Z');
    assert("Digit0"@[0] == 'D' && "Digit0"@[1] == 'i' && "Digit0"@[2] == 'g' && "Digit0"@[3] == 'i' && "Digit0"@[4] == 't' && "Digit0"@[5] == '0');
    assert("Digit1"@[0] == 'D' && "Digit1"@[1] == 'i' && "Digit1"@[2] == 'g' && "Digit1"@[3] == 'i' && "Digit1"@[4] == 't' && "Digit1"@[5] == '1');
    assert("Digit2"@[0] == 'D' && "Digit2"@[1] == 'i' && "Digit2"@[2] == 'g' && "Digit2"@[3] == 'i' && "Digit2"@[4] == 't' && "Digit2"@[5] == '2');
    assert("Digit3"@[0] == 'D' && "Digit3"@[1] == 'i' && "Digit3"@[2] == 'g' && "Digit3"@[3] == 'i' && "Digit3"@[4] == 't' && "Digit3"@[5] == '3');
    assert("Digit4"@[0] == 'D' && "Digit4"@[1] == 'i' && "Digit4"@[2] == 'g' && "Digit4"@[3] == 'i' && "Digit4"@[4] == 't' && "Digit4"@[5] == '4');
    assert("Digit5"@[0] == 'D' && "Digit5"@[1] == 'i' && "Digit5"@[2] == 'g' && "Digit5"@[3] == 'i' && "Digit5"@[4] == 't' && "Digit5"@[5] == '5');
    assert("Digit6"@[0] == 'D' && "Digit6"@[1] == 'i' && "Digit6"@[2] == 'g' && "Digit6"@[3] == 'i' && "Digit6"@[4] == 't' && "Digit6"@[5] == '6');
    assert("Digit7"@[0] == 'D' && "Digit7"@[1] == 'i' && "Digit7"@[2] == 'g' && "Digit7"@[3] == 'i' && "Digit7"@[4] == 't' && "Digit7"@[5] == '7');
    assert("Digit8"@[0] == 'D' && "Digit8"@[1] == 'i' && "Digit8"@[2] == 'g' && "Digit8"@[3] == 'i' && "Digit8"@[4] == 't' && "Digit8"@[5] == '8');
    assert("Digit9"@[0] == 'D' && "Digit9"@[1] == 'i' && "Digit9"@[2] == 'g' && "Digit9"@[3] == 'i' && "Digit9"@[4] == 't' && "Digit9"@[5] == '9');
    assert("Space"@[0] == 'S' && "Space"@[1] == 'p' && "Space"@[2] == 'a' && "Space"@[3] == 'c' && "Space"@[4] == 'e');
    assert("Enter"@[0] == 'E' && "Enter"@[1] == 'n' && "Enter"@[2] == 't' && "Enter"@[3] == 'e' && "Enter"@[4] == 'r');
    assert("Tab"@[0] == 'T' && "Tab"@[1] == 'a' && "Tab"@[2] == 'b');
    assert("Backspace"@[0] == 'B' && "Backspace"@[1] == 'a' && "Backspace"@[2] == 'c' && "Backspace"@[3] == 'k' && "Backspace"@[4] == 's' && "Backspace"@[5] == 'p' && "Backspace"@[6] == 'a' && "Backspace"@[7] == 'c' && "Backspace"@[8] == 'e');
    assert("Escape"@[0] == 'E' && "Escape"@[1] == 's' && "Escape"@[2] == 'c' && "Escape"@[3] == 'a' && "Escape"@[4] == 'p' && "Escape"@[5] == 'e');
    assert("Minus"@[0] == 'M' && "Minus"@[1] == 'i' && "Minus"@[2] == 'n' && "Minus"@[3] == 'u' && "Minus"@[4] == 's');
    assert("Equal"@[0] == 'E' && "Equal"@[1] == 'q' && "Equal"@[2] == 'u' && "Equal"@[3] == 'a' && "Equal"@[4] == 'l');
    assert("BracketLeft"@[0] == 'B' && "BracketLeft"@[1] == 'r' && "BracketLeft"@[2] == 'a' && "BracketLeft"@[3] == 'c' && "BracketLeft"@[4] == 'k' && "BracketLeft"@[5] == 'e' && "BracketLeft"@[6] == 't' && "BracketLeft"@[7] == 'L' && "BracketLeft"@[8] == 'e' && "BracketLeft"@[9] == 'f' && "BracketLeft"@[10] == 't');
    assert("BracketRight"@[0] == 'B' && "BracketRight"@[1] == 'r' && "BracketRight"@[2] == 'a' && "BracketRight"@[3] == 'c' && "BracketRight"@[4] == 'k' && "BracketRight"@[5] == 'e' && "BracketRight"@[6] == 't' && "BracketRight"@[7] == 'R' && "BracketRight"@[8] == 'i' && "BracketRight"@[9] == 'g' && "BracketRight"@[10] == 'h' && "BracketRight"@[11] == 't');
    assert("Backslash"@[0] == 'B' && "Backslash"@[1] == 'a' && "Backslash"@[2] == 'c' && "Backslash"@[3] == 'k' && "Backslash"@[4] == 's' && "Backslash"@[5] == 'l' && "Backslash"@[6] == 'a' && "Backslash"@[7] == 's' && "Backslash"@[8] == 'h');
    assert("Semicolon"@[0] == 'S' && "Semicolon"@[1] == 'e' && "Semicolon"@[2] == 'm' && "Semicolon"@[3] == 'i' && "Semicolon"@[4] == 'c' && "Semicolon"@[5] == 'o' && "Semicolon"@[6] == 'l' && "Semicolon"@[7] == 'o' && "Semicolon"@[8] == 'n');
    assert("Quote"@[0] == 'Q' && "Quote"@[1] == 'u' && "Quote"@[2] == 'o' && "Quote"@[3] == 't' && "Quote"@[4] == 'e');
    assert("Comma"@[0] == 'C' && "Comma"@[1] == 'o' && "Comma"@[2] == 'm' && "Comma"@[3] == 'm' && "Comma"@[4] == 'a');
    assert("Period"@[0] == 'P' && "Period"@[1] == 'e' && "Period"@[2] == 'r' && "Period"@[3] == 'i' && "Period"@[4] == 'o' && "Period"@[5] == 'd');
    assert("Slash"@[0] == 'S' && "Slash"@[1] == 'l' && "Slash"@[2] == 'a' && "Slash"@[3] == 's' && "Slash"@[4] == 'h');
    assert("Backquote"@[0] == 'B' && "Backquote"@[1] == 'a' && "Backquote"@[2] == 'c' && "Backquote"@[3] == 'k' && "Backquote"@[4] == 'q' && "Backquote"@[5] == 'u' && "Backquote"@[6] == 'o' && "Backquote"@[7] == 't' && "Backquote"@[8] == 'e');
    assert("CapsLock"@[0] == 'C' && "CapsLock"@[1] == 'a' && "CapsLock"@[2] == 'p' && "CapsLock"@[3] == 's' && "CapsLock"@[4] == 'L' && "CapsLock"@[5] == 'o' && "CapsLock"@[6] == 'c' && "CapsLock"@[7] == 'k');
    match k {
        KeyCode::KeyA => assert(key_named(key_name(KeyCode::KeyA)) == Some(KeyCode::KeyA)),
        KeyCode::KeyB => assert(key_named(key_name(KeyCode::KeyB)) == Some(KeyCode::KeyB)),
        KeyCode::KeyC => assert(key_named(key_name(KeyCode::KeyC)) == Some(KeyCode::KeyC)),
        KeyCode::KeyD => assert(key_named(key_name(KeyCode::KeyD)) == Some(KeyCode::KeyD)),
        KeyCode::KeyE => assert(key_named(key_name(KeyCode::KeyE)) == Some(KeyCode::KeyE)),
        KeyCode::KeyF => assert(key_named(key_name(KeyCode::KeyF)) == Some(KeyCode::KeyF)),
        KeyCode::KeyG => assert(key_named(key_name(KeyCode::KeyG)) == Some(KeyCode::KeyG)),
        KeyCode::KeyH => assert(key_named(key_name(KeyCode::KeyH)) == Some(KeyCode::KeyH)),
        KeyCode::KeyI => assert(key_named(key_name(KeyCode::KeyI)) == Some(KeyCode::KeyI)),
        KeyCode::KeyJ => assert(key_named(key_name(KeyCode::KeyJ)) == Some(KeyCode::KeyJ)),
        KeyCode::KeyK => assert(key_named(key_name(KeyCode::KeyK)) == Some(KeyCode::KeyK)),
        KeyCode::KeyL => assert(key_named(key_name(KeyCode::KeyL)) == Some(KeyCode::KeyL)),
        KeyCode::KeyM => assert(key_named(key_name(KeyCode::KeyM)) == Some(KeyCode::KeyM)),
        KeyCode::KeyN => assert(key_named(key_name(KeyCode::KeyN)) == Some(KeyCode::KeyN)),
        KeyCode::KeyO => assert(key_named(key_name(KeyCode::KeyO)) == Some(KeyCode::KeyO)),
        KeyCode::KeyP => assert(key_named(key_name(KeyCode::KeyP)) == Some(KeyCode::KeyP)),
        KeyCode::KeyQ => assert(key_named(key_name(KeyCode::KeyQ)) == Some(KeyCode::KeyQ)),
        KeyCode::KeyR => assert(key_named(key_name(KeyCode::KeyR)) == Some(KeyCode::KeyR)),
        KeyCode::KeyS => assert(key_named(key_name(KeyCode::KeyS)) == Some(KeyCode::KeyS)),
        KeyCode::KeyT => assert(key_named(key_name(KeyCode::KeyT)) == Some(KeyCode::KeyT)),
        KeyCode::KeyU => assert(key_named(key_name(KeyCode::KeyU)) == Some(KeyCode::KeyU)),
        KeyCode::KeyV => assert(key_named(key_name(KeyCode::KeyV)) == Some(KeyCode::KeyV)),
        KeyCode::KeyW => assert(key_named(key_name(KeyCode::KeyW)) == Some(KeyCode::KeyW)),
        KeyCode::KeyX => assert(key_named(key_name(KeyCode::KeyX)) == Some(KeyCode::KeyX)),
        KeyCode::KeyY => assert(key_named(key_name(KeyCode::KeyY)) == Some(KeyCode::KeyY)),
        KeyCode::KeyZ => assert(key_named(key_name(KeyCode::KeyZ)) == Some(KeyCode::KeyZ)),
        KeyCode::Digit0 => assert(key_named(key_name(KeyCode::Digit0)) == Some(KeyCode::Digit0)),
        KeyCode::Digit1 => assert(key_named(key_name(KeyCode::Digit1)) == Some(KeyCode::Digit1)),
        KeyCode::Digit2 => assert(key_named(key_name(KeyCode::Digit2)) == Some(KeyCode::Digit2)),
        KeyCode::Digit3 => assert(key_named(key_name(KeyCode::Digit3)) == Some(KeyCode::Digit3)),
        KeyCode::Digit4 => assert(key_named(key_name(KeyCode::Digit4)) == Some(KeyCode::Digit4)),
        KeyCode::Digit5 => assert(key_named(key_name(KeyCode::Digit5)) == Some(KeyCode::Digit5)),
        KeyCode::Digit6 => assert(key_named(key_name(KeyCode::Digit6)) == Some(KeyCode::Digit6)),
        KeyCode::Digit7 => assert(key_named(key_name(KeyCode::Digit7)) == Some(KeyCode::Digit7)),
        KeyCode::Digit8 => assert(key_named(key_name(KeyCode::Digit8)) == Some(KeyCode::Digit8)),
        KeyCode::Digit9 => assert(key_named(key_name(KeyCode::Digit9)) == Some(KeyCode::Digit9)),
        KeyCode::Space => assert(key_named(key_name(KeyCode::Space)) == Some(KeyCode::Space)),
        KeyCode::Enter => assert(key_named(key_name(KeyCode::Enter)) == Some(KeyCode::Enter)),
        KeyCode::Tab => assert(key_named(key_name(KeyCode::Tab)) == Some(KeyCode::Tab)),
        KeyCode::Backspace => assert(key_named(key_name(KeyCode::Backspace)) == Some(KeyCode::Backspace)),
        KeyCode::Escape => assert(key_named(key_name(KeyCode::Escape)) == Some(KeyCode::Escape)),
        KeyCode::Minus => assert(key_named(key_name(KeyCode::Minus)) == Some(KeyCode::Minus)),
        KeyCode::Equal => assert(key_named(key_name(KeyCode::Equal)) == Some(KeyCode::Equal)),
        KeyCode::BracketLeft => assert(key_named(key_name(KeyCode::BracketLeft)) == Some(KeyCode::BracketLeft)),
        KeyCode::BracketRight => assert(key_named(key_name(KeyCode::BracketRight)) == Some(KeyCode::BracketRight)),
        KeyCode::Backslash => assert(key_named(key_name(KeyCode::Backslash)) == Some(KeyCode::Backslash)),
        KeyCode::Semicolon => assert(key_named(key_name(KeyCode::Semicolon)) == Some(KeyCode::Semicolon)),
        KeyCode::Quote => assert(key_named(key_name(KeyCode::Quote)) == Some(KeyCode::Quote)),
        KeyCode::Comma => assert(key_named(key_name(KeyCode::Comma)) == Some(KeyCode::Comma)),
        KeyCode::Period => assert(key_named(key_name(KeyCode::Period)) == Some(KeyCode::Period)),
        KeyCode::Slash => assert(key_named(key_name(KeyCode::Slash)) == Some(KeyCode::Slash)),
        KeyCode::Backquote => assert(key_named(key_name(KeyCode::Backquote)) == Some(KeyCode::Backquote)),
        KeyCode::CapsLock => assert(key_named(key_name(KeyCode::CapsLock)) == Some(KeyCode::CapsLock)),
    }
}

/// No key is named like a modifier key: the modifier names
/// (`ShiftLeft`, `ControlRight`, …) are not key names.
#[verifier::rlimit(80)]
pub proof fn lemma_no_key_named_like_modifier(name: Seq<char>)
    requires
        name == "ShiftLeft"@
            || name == "ShiftRight"@
            || name == "ControlLeft"@
            || name == "ControlRight"@
            || name == "AltLeft"@
            || name == "AltRight"@
            || name == "MetaLeft"@
            || name == "MetaRight"@
            || name == "OSLeft"@
            || name == "OSRight"@
            || name == "ContextMenu"@,
    ensures
        key_named(name) is None,
{
    reveal_strlit("KeyA");
    reveal_strlit("KeyB");
    reveal_strlit("KeyC");
    reveal_strlit("KeyD");
    reveal_strlit("KeyE");
    reveal_strlit("KeyF");
    reveal_strlit("KeyG");
    reveal_strlit("KeyH");
    reveal_strlit("KeyI");
    reveal_strlit("KeyJ");
    reveal_strlit("KeyK");
    reveal_strlit("KeyL");
    reveal_strlit("KeyM");
    reveal_strlit("KeyN");
    reveal_strlit("KeyO");
    reveal_strlit("KeyP");
    reveal_strlit("KeyQ");
    reveal_strlit("KeyR");
    reveal_strlit("KeyS");
    reveal_strlit("KeyT");
    reveal_strlit("KeyU");
    reveal_strlit("KeyV");
    reveal_strlit("KeyW");
    reveal_strlit("KeyX");
    reveal_strlit("KeyY");
    reveal_strlit("KeyZ");
    reveal_strlit("Digit0");
    reveal_strlit("Digit1");
    reveal_strlit("Digit2");
    reveal_strlit("Digit3");
    reveal_strlit("Digit4");
    reveal_strlit("Digit5");
    reveal_strlit("Digit6");
    reveal_strlit("Digit7");
    reveal_strlit("Digit8");
    reveal_strlit("Digit9");
    reveal_strlit("Space");
    reveal_strlit("Enter");
    reveal_strlit("Tab");
    reveal_strlit("Backspace");
    reveal_strlit("Escape");
    reveal_strlit("Minus");
    reveal_strlit("Equal");
    reveal_strlit("BracketLeft");
    reveal_strlit("BracketRight");
    reveal_strlit("Backslash");
    reveal_strlit("Semicolon");
    reveal_strlit("Quote");
    reveal_strlit("Comma");
    reveal_strlit("Period");
    reveal_strlit("Slash");
    reveal_strlit("Backquote");
    reveal_strlit("CapsLock");
    assert("KeyA"@[0] == 'K' && "KeyA"@[1] == 'e' && "KeyA"@[2] == 'y' && "KeyA"@[3] == 'A');
    assert("KeyB"@[0] == 'K' && "KeyB"@[1] == 'e' && "KeyB"@[2] == 'y' && "KeyB"@[3] == 'B');
    assert("KeyC"@[0] == 'K' && "KeyC"@[1] == 'e' && "KeyC"@[2] == 'y' && "KeyC"@[3] == 'C');
    assert("KeyD"@[0] == 'K' && "KeyD"@[1] == 'e' && "KeyD"@[2] == 'y' && "KeyD"@[3] == 'D');
    assert("KeyE"@[0] == 'K' && "KeyE"@[1] == 'e' && "KeyE"@[2] == 'y' && "KeyE"@[3] == 'E');
    assert("KeyF"@[0] == 'K' && "KeyF"@[1] == 'e' && "KeyF"@[2] == 'y' && "KeyF"@[3] == 'F');
    assert("KeyG"@[0] == 'K' && "KeyG"@[1] == 'e' && "KeyG"@[2] == 'y' && "KeyG"@[3] == 'G');
    assert("KeyH"@[0] == 'K' && "KeyH"@[1] == 'e' && "KeyH"@[2] == 'y' && "KeyH"@[3] == 'H');
    assert("KeyI"@[0] == 'K' && "KeyI"@[1] == 'e' && "KeyI"@[2] == 'y' && "KeyI"@[3] == 'I');
    assert("KeyJ"@[0] == 'K' && "KeyJ"@[1] == 'e' && "KeyJ"@[2] == 'y' && "KeyJ"@[3] == 'J');
    assert("KeyK"@[0] == 'K' && "KeyK"@[1] == 'e' && "KeyK"@[2] == 'y' && "KeyK"@[3] == 'K');
    assert("KeyL"@[0] == 'K' && "KeyL"@[1] == 'e' && "KeyL"@[2] == 'y' && "KeyL"@[3] == 'L');
    assert("KeyM"@[0] == 'K' && "KeyM"@[1] == 'e' && "KeyM"@[2] == 'y' && "KeyM"@[3] == 'M');
    assert("KeyN"@[0] == 'K' && "KeyN"@[1] == 'e' && "KeyN"@[2] == 'y' && "KeyN"@[3] == 'N');
    assert("KeyO"@[0] == 'K' && "KeyO"@[1] == 'e' && "KeyO"@[2] == 'y' && "KeyO"@[3] == 'O');
    assert("KeyP"@[0] == 'K' && "KeyP"@[1] == 'e' && "KeyP"@[2] == 'y' && "KeyP"@[3] == 'P');
    assert("KeyQ"@[0] == 'K' && "KeyQ"@[1] == 'e' && "KeyQ"@[2] == 'y' && "KeyQ"@[3] == 'Q');
    assert("KeyR"@[0] == 'K' && "KeyR"@[1] == 'e' && "KeyR"@[2] == 'y' && "KeyR"@[3] == 'R');
    assert("KeyS"@[0] == 'K' && "KeyS"@[1] == 'e' && "KeyS"@[2] == 'y' && "KeyS"@[3] == 'S');
    assert("KeyT"@[0] == 'K' && "KeyT"@[1] == 'e' && "KeyT"@[2] == 'y' && "KeyT"@[3] == 'T');
    assert("KeyU"@[0] == 'K' && "KeyU"@[1] == 'e' && "KeyU"@[2] == 'y' && "KeyU"@[3] == 'U');
    assert("KeyV"@[0] == 'K' && "KeyV"@[1] == 'e' && "KeyV"@[2] == 'y' && "KeyV"@[3] == 'V');
    assert("KeyW"@[0] == 'K' && "KeyW"@[1] == 'e' && "KeyW"@[2] == 'y' && "KeyW"@[3] == 'W');
    assert("KeyX"@[0] == 'K' && "KeyX"@[1] == 'e' && "KeyX"@[2] == 'y' && "KeyX"@[3] == 'X');
    assert("KeyY"@[0] == 'K' && "KeyY"@[1] == 'e' && "KeyY"@[2] == 'y' && "KeyY"@[3] == 'Y');
    assert("KeyZ"@[0] == 'K' && "KeyZ"@[1] == 'e' && "KeyZ"@[2] == 'y' && "KeyZ"@[3] == 'Z');
    assert("Digit0"@[0] == 'D' && "Digit0"@[1] == 'i' && "Digit0"@[2] == 'g' && "Digit0"@[3] == 'i' && "Digit0"@[4] == 't' && "Digit0"@[5] == '0');
    assert("Digit1"@[0] == 'D' && "Digit1"@[1] == 'i' && "Digit1"@[2] == 'g' && "Digit1"@[3] == 'i' && "Digit1"@[4] == 't' && "Digit1"@[5] == '1');
    assert("Digit2"@[0] == 'D' && "Digit2"@[1] == 'i' && "Digit2"@[2] == 'g' && "Digit2"@[3] == 'i' && "Digit2"@[4] == 't' && "Digit2"@[5] == '2');
    assert("Digit3"@[0] == 'D' && "Digit3"@[1] == 'i' && "Digit3"@[2] == 'g' && "Digit3"@[3] == 'i' && "Digit3"@[4] == 't' && "Digit3"@[5] == '3');
    assert("Digit4"@[0] == 'D' && "Digit4"@[1] == 'i' && "Digit4"@[2] == 'g' && "Digit4"@[3] == 'i' && "Digit4"@[4] == 't' && "Digit4"@[5] == '4');
    assert("Digit5"@[0] == 'D' && "Digit5"@[1] == 'i' && "Digit5"@[2] == 'g' && "Digit5"@[3] == 'i' && "Digit5"@[4] == 't' && "Digit5"@[5] == '5');
    assert("Digit6"@[0] == 'D' && "Digit6"@[1] == 'i' && "Digit6"@[2] == 'g' && "Digit6"@[3] == 'i' && "Digit6"@[4] == 't' && "Digit6"@[5] == '6');
    assert("Digit7"@[0] == 'D' && "Digit7"@[1] == 'i' && "Digit7"@[2] == 'g' && "Digit7"@[3] == 'i' && "Digit7"@[4] == 't' && "Digit7"@[5] == '7');
    assert("Digit8"@[0] == 'D' && "Digit8"@[1] == 'i' && "Digit8"@[2] == 'g' && "Digit8"@[3] == 'i' && "Digit8"@[4] == 't' && "Digit8"@[5] == '8');
    assert("Digit9"@[0] == 'D' && "Digit9"@[1] == 'i' && "Digit9"@[2] == 'g' && "Digit9"@[3] == 'i' && "Digit9"@[4] == 't' && "Digit9"@[5] == '9');
    assert("Space"@[0] == 'S' && "Space"@[1] == 'p' && "Space"@[2] == 'a' && "Space"@[3] == 'c' && "Space"@[4] == 'e');
    assert("Enter"@[0] == 'E' && "Enter"@[1] == 'n' && "Enter"@[2] == 't' && "Enter"@[3] == 'e' && "Enter"@[4] == 'r');
    assert("Tab"@[0] == 'T' && "Tab"@[1] == 'a' && "Tab"@[2] == 'b');
    assert("Backspace"@[0] == 'B' && "Backspace"@[1] == 'a' && "Backspace"@[2] == 'c' && "Backspace"@[3] == 'k' && "Backspace"@[4] == 's' && "Backspace"@[5] == 'p' && "Backspace"@[6] == 'a' && "Backspace"@[7] == 'c' && "Backspace"@[8] == 'e');
    assert("Escape"@[0] == 'E' && "Escape"@[1] == 's' && "Escape"@[2] == 'c' && "Escape"@[3] == 'a' && "Escape"@[4] == 'p' && "Escape"@[5] == 'e');
    assert("Minus"@[0] == 'M' && "Minus"@[1] == 'i' && "Minus"@[2] == 'n' && "Minus"@[3] == 'u' && "Minus"@[4] == 's');
    assert("Equal"@[0] == 'E' && "Equal"@[1] == 'q' && "Equal"@[2] == 'u' && "Equal"@[3] == 'a' && "Equal"@[4] == 'l');
    assert("BracketLeft"@[0] == 'B' && "BracketLeft"@[1] == 'r' && "BracketLeft"@[2] == 'a' && "BracketLeft"@[3] == 'c' && "BracketLeft"@[4] == 'k' && "BracketLeft"@[5] == 'e' && "BracketLeft"@[6] == 't' && "BracketLeft"@[7] == 'L' && "BracketLeft"@[8] == 'e' && "BracketLeft"@[9] == 'f' && "BracketLeft"@[10] == 't');
    assert("BracketRight"@[0] == 'B' && "BracketRight"@[1] == 'r' && "BracketRight"@[2] == 'a' && "BracketRight"@[3] == 'c' && "BracketRight"@[4] == 'k' && "BracketRight"@[5] == 'e' && "BracketRight"@[6] == 't' && "BracketRight"@[7] == 'R' && "BracketRight"@[8] == 'i' && "BracketRight"@[9] == 'g' && "BracketRight"@[10] == 'h' && "BracketRight"@[11] == 't');
    assert("Backslash"@[0] == 'B' && "Backslash"@[1] == 'a' && "Backslash"@[2] == 'c' && "Backslash"@[3] == 'k' && "Backslash"@[4] == 's' && "Backslash"@[5] == 'l' && "Backslash"@[6] == 'a' && "Backslash"@[7] == 's' && "Backslash"@[8] == 'h');
    assert("Semicolon"@[0] == 'S' && "Semicolon"@[1] == 'e' && "Semicolon"@[2] == 'm' && "Semicolon"@[3] == 'i' && "Semicolon"@[4] == 'c' && "Semicolon"@[5] == 'o' && "Semicolon"@[6] == 'l' && "Semicolon"@[7] == 'o' && "Semicolon"@[8] == 'n');
    assert("Quote"@[0] == 'Q' && "Quote"@[1] == 'u' && "Quote"@[2] == 'o' && "Quote"@[3] == 't' && "Quote"@[4] == 'e');
    assert("Comma"@[0] == 'C' && "Comma"@[1] == 'o' && "Comma"@[2] == 'm' && "Comma"@[3] == 'm' && "Comma"@[4] == 'a');
    assert("Period"@[0] == 'P' && "Period"@[1] == 'e' && "Period"@[2] == 'r' && "Period"@[3] == 'i' && "Period"@[4] == 'o' && "Period"@[5] == 'd');
    assert("Slash"@[0] == 'S' && "Slash"@[1] == 'l' && "Slash"@[2] == 'a' && "Slash"@[3] == 's' && "Slash"@[4] == 'h');
    assert("Backquote"@[0] == 'B' && "Backquote"@[1] == 'a' && "Backquote"@[2] == 'c' && "Backquote"@[3] == 'k' && "Backquote"@[4] == 'q' && "Backquote"@[5] == 'u' && "Backquote"@[6] == 'o' && "Backquote"@[7] == 't' && "Backquote"@[8] == 'e');
    assert("CapsLock"@[0] == 'C' && "CapsLock"@[1] == 'a' && "CapsLock"@[2] == 'p' && "CapsLock"@[3] == 's' && "CapsLock"@[4] == 'L' && "CapsLock"@[5] == 'o' && "CapsLock"@[6] == 'c' && "CapsLock"@[7] == 'k');
    reveal_strlit("ShiftLeft");
    reveal_strlit("ShiftRight");
    reveal_strlit("ControlLeft");
    reveal_strlit("ControlRight");
    reveal_strlit("AltLeft");
    reveal_strlit("AltRight");
    reveal_strlit("MetaLeft");
    reveal_strlit("MetaRight");
    reveal_strlit("OSLeft");
    reveal_strlit("OSRight");
    reveal_strlit("ContextMenu");
    assert("ShiftLeft"@[0] == 'S' && "ShiftLeft"@[1] == 'h' && "ShiftLeft"@[2] == 'i' && "ShiftLeft"@[3] == 'f' && "ShiftLeft"@[4] == 't' && "ShiftLeft"@[5] == 'L' && "ShiftLeft"@[6] == 'e' && "ShiftLeft"@[7] == 'f' && "ShiftLeft"@[8] == 't');
    assert("ShiftRight"@[0] == 'S' && "ShiftRight"@[1] == 'h' && "ShiftRight"@[2] == 'i' && "ShiftRight"@[3] == 'f' && "ShiftRight"@[4] == 't' && "ShiftRight"@[5] == 'R' && "ShiftRight"@[6] == 'i' && "ShiftRight"@[7] == 'g' && "ShiftRight"@[8] == 'h' && "ShiftRight"@[9] == 't');
    assert("ControlLeft"@[0] == 'C' && "ControlLeft"@[1] == 'o' && "ControlLeft"@[2] == 'n' && "ControlLeft"@[3] == 't' && "ControlLeft"@[4] == 'r' && "ControlLeft"@[5] == 'o' && "ControlLeft"@[6] == 'l' && "ControlLeft"@[7] == 'L' && "ControlLeft"@[8] == 'e' && "ControlLeft"@[9] == 'f' && "ControlLeft"@[10] == 't');
    assert("ControlRight"@[0] == 'C' && "ControlRight"@[1] == 'o' && "ControlRight"@[2] == 'n' && "ControlRight"@[3] == 't' && "ControlRight"@[4] == 'r' && "ControlRight"@[5] == 'o' && "ControlRight"@[6] == 'l' && "ControlRight"@[7] == 'R' && "ControlRight"@[8] == 'i' && "ControlRight"@[9] == 'g' && "ControlRight"@[10] == 'h' && "ControlRight"@[11] == 't');
    assert("AltLeft"@[0] == 'A' && "AltLeft"@[1] == 'l' && "AltLeft"@[2] == 't' && "AltLeft"@[3] == 'L' && "AltLeft"@[4] == 'e' && "AltLeft"@[5] == 'f' && "AltLeft"@[6] == 't');
    assert("AltRight"@[0] == 'A' && "AltRight"@[1] == 'l' && "AltRight"@[2] == 't' && "AltRight"@[3] == 'R' && "AltRight"@[4] == 'i' && "AltRight"@[5] == 'g' && "AltRight"@[6] == 'h' && "AltRight"@[7] == 't');
    assert("MetaLeft"@[0] == 'M' && "MetaLeft"@[1] == 'e' && "MetaLeft"@[2] == 't' && "MetaLeft"@[3] == 'a' && "MetaLeft"@[4] == 'L' && "MetaLeft"@[5] == 'e' && "MetaLeft"@[6] == 'f' && "MetaLeft"@[7] == 't');
    assert("MetaRight"@[0] == 'M' && "MetaRight"@[1] == 'e' && "MetaRight"@[2] == 't' && "MetaRight"@[3] == 'a' && "MetaRight"@[4] == 'R' && "MetaRight"@[5] == 'i' && "MetaRight"@[6] == 'g' && "MetaRight"@[7] == 'h' && "MetaRight"@[8] == 't');
    assert("OSLeft"@[0] == 'O' && "OSLeft"@[1] == 'S' && "OSLeft"@[2] == 'L' && "OSLeft"@[3] == 'e' && "OSLeft"@[4] == 'f' && "OSLeft"@[5] == 't');
    assert("OSRight"@[0] == 'O' && "OSRight"@[1] == 'S' && "OSRight"@[2] == 'R' && "OSRight"@[3] == 'i' && "OSRight"@[4] == 'g' && "OSRight"@[5] == 'h' && "OSRight"@[6] == 't');
    assert("ContextMenu"@[0] == 'C' && "ContextMenu"@[1] == 'o' && "ContextMenu"@[2] == 'n' && "ContextMenu"@[3] == 't' && "ContextMenu"@[4] == 'e' && "ContextMenu"@[5] == 'x' && "ContextMenu"@[6] == 't' && "ContextMenu"@[7] == 'M' && "ContextMenu"@[8] == 'e' && "ContextMenu"@[9] == 'n' && "ContextMenu"@[10] == 'u');
}

} // verus!
