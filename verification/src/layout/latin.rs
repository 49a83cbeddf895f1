//! Latin (English) keyboard layouts.
//!
//! These layouts translate a physical [`KeyCode`] to a single character
//! via [`LayoutOutput::Char`], bypassing the Hangul FSM. Both derive
//! their output from the physical key position, so they produce the same
//! result regardless of the host OS keyboard.
use vstd::prelude::*;
use super::key::{KeyCode, KeyEvent};
use super::{Layout, LayoutKind, LayoutOutput};

verus! {

/// US QWERTY.
#[derive(Copy, Clone, Debug, Default)]
pub struct Qwerty;

/// Classic Dvorak Simplified Keyboard.
#[derive(Copy, Clone, Debug, Default)]
pub struct Dvorak;

/// The (unshifted, shifted) characters of each QWERTY key.
pub open spec fn qwerty_pair(code: KeyCode) -> Option<(char, char)> {
    match code {
        // Number row
        KeyCode::Backquote => Some(('`', '~')),
        KeyCode::Digit1 => Some(('1', '!')),
        KeyCode::Digit2 => Some(('2', '@')),
        KeyCode::Digit3 => Some(('3', '#')),
        KeyCode::Digit4 => Some(('4', '$')),
        KeyCode::Digit5 => Some(('5', '%')),
        KeyCode::Digit6 => Some(('6', '^')),
        KeyCode::Digit7 => Some(('7', '&')),
        KeyCode::Digit8 => Some(('8', '*')),
        KeyCode::Digit9 => Some(('9', '(')),
        KeyCode::Digit0 => Some(('0', ')')),
        KeyCode::Minus => Some(('-', '_')),
        KeyCode::Equal => Some(('=', '+')),
        // Letters
        KeyCode::KeyA => Some(('a', 'A')),
        KeyCode::KeyB => Some(('b', 'B')),
        KeyCode::KeyC => Some(('c', 'C')),
        KeyCode::KeyD => Some(('d', 'D')),
        KeyCode::KeyE => Some(('e', 'E')),
        KeyCode::KeyF => Some(('f', 'F')),
        KeyCode::KeyG => Some(('g', 'G')),
        KeyCode::KeyH => Some(('h', 'H')),
        KeyCode::KeyI => Some(('i', 'I')),
        KeyCode::KeyJ => Some(('j', 'J')),
        KeyCode::KeyK => Some(('k', 'K')),
        KeyCode::KeyL => Some(('l', 'L')),
        KeyCode::KeyM => Some(('m', 'M')),
        KeyCode::KeyN => Some(('n', 'N')),
        KeyCode::KeyO => Some(('o', 'O')),
        KeyCode::KeyP => Some(('p', 'P')),
        KeyCode::KeyQ => Some(('q', 'Q')),
        KeyCode::KeyR => Some(('r', 'R')),
        KeyCode::KeyS => Some(('s', 'S')),
        KeyCode::KeyT => Some(('t', 'T')),
        KeyCode::KeyU => Some(('u', 'U')),
        KeyCode::KeyV => Some(('v', 'V')),
        KeyCode::KeyW => Some(('w', 'W')),
        KeyCode::KeyX => Some(('x', 'X')),
        KeyCode::KeyY => Some(('y', 'Y')),
        KeyCode::KeyZ => Some(('z', 'Z')),
        // Punctuation
        KeyCode::BracketLeft => Some(('[', '{')),
        KeyCode::BracketRight => Some((']', '}')),
        KeyCode::Backslash => Some(('\\', '|')),
        KeyCode::Semicolon => Some((';', ':')),
        KeyCode::Quote => Some(('\'', '"')),
        KeyCode::Comma => Some((',', '<')),
        KeyCode::Period => Some(('.', '>')),
        KeyCode::Slash => Some(('/', '?')),
        _ => None,
    }
}

/// The (unshifted, shifted) characters of each Dvorak key outside the
/// number row.
pub open spec fn dvorak_pair(code: KeyCode) -> Option<(char, char)> {
    match code {
        // `- [` and `= ]` (in Dvorak, brackets move from top-right to
        // right of P)
        KeyCode::Minus => Some(('[', '{')),
        KeyCode::Equal => Some((']', '}')),
        // Top row Q-P → ',.pyfgcrl/='   with ' and , in first two.
        KeyCode::KeyQ => Some(('\'', '"')),
        KeyCode::KeyW => Some((',', '<')),
        KeyCode::KeyE => Some(('.', '>')),
        KeyCode::KeyR => Some(('p', 'P')),
        KeyCode::KeyT => Some(('y', 'Y')),
        KeyCode::KeyY => Some(('f', 'F')),
        KeyCode::KeyU => Some(('g', 'G')),
        KeyCode::KeyI => Some(('c', 'C')),
        KeyCode::KeyO => Some(('r', 'R')),
        KeyCode::KeyP => Some(('l', 'L')),
        KeyCode::BracketLeft => Some(('/', '?')),
        KeyCode::BracketRight => Some(('=', '+')),
        // Home row A-' → 'aoeuidhtns-'
        KeyCode::KeyA => Some(('a', 'A')),
        KeyCode::KeyS => Some(('o', 'O')),
        KeyCode::KeyD => Some(('e', 'E')),
        KeyCode::KeyF => Some(('u', 'U')),
        KeyCode::KeyG => Some(('i', 'I')),
        KeyCode::KeyH => Some(('d', 'D')),
        KeyCode::KeyJ => Some(('h', 'H')),
        KeyCode::KeyK => Some(('t', 'T')),
        KeyCode::KeyL => Some(('n', 'N')),
        KeyCode::Semicolon => Some(('s', 'S')),
        KeyCode::Quote => Some(('-', '_')),
        // Bottom row Z-/ → ';qjkxbmwvz'
        KeyCode::KeyZ => Some((';', ':')),
        KeyCode::KeyX => Some(('q', 'Q')),
        KeyCode::KeyC => Some(('j', 'J')),
        KeyCode::KeyV => Some(('k', 'K')),
        KeyCode::KeyB => Some(('x', 'X')),
        KeyCode::KeyN => Some(('b', 'B')),
        KeyCode::KeyM => Some(('m', 'M')),
        KeyCode::Comma => Some(('w', 'W')),
        KeyCode::Period => Some(('v', 'V')),
        KeyCode::Slash => Some(('z', 'Z')),
        KeyCode::Backslash => Some(('\\', '|')),
        _ => None,
    }
}

/// Whether `code` is on the number row, which Dvorak shares with QWERTY.
pub open spec fn is_number_row(code: KeyCode) -> bool {
    match code {
        KeyCode::Backquote | KeyCode::Digit0 | KeyCode::Digit1 | KeyCode::Digit2
        | KeyCode::Digit3 | KeyCode::Digit4 | KeyCode::Digit5 | KeyCode::Digit6
        | KeyCode::Digit7 | KeyCode::Digit8 | KeyCode::Digit9 => true,
        _ => false,
    }
}

/// One side of a key pair.
pub open spec fn pick(pair: Option<(char, char)>, shift: bool) -> Option<char> {
    match pair {
        Some((lo, hi)) => Some(if shift { hi } else { lo }),
        None => None,
    }
}

/// The character a QWERTY key types.
pub open spec fn spec_qwerty_char(code: KeyCode, shift: bool) -> Option<char> {
    pick(qwerty_pair(code), shift)
}

/// The character a Dvorak key types.
pub open spec fn spec_dvorak_char(code: KeyCode, shift: bool) -> Option<char> {
    if is_number_row(code) {
        spec_qwerty_char(code, shift)
    } else {
        pick(dvorak_pair(code), shift)
    }
}

/// What a Latin layout does with a key event, given its character table.
pub open spec fn latin_output(ev: KeyEvent, c: Option<char>) -> LayoutOutput {
    if !ev.mods.ime_eligible() {
        LayoutOutput::Passthrough
    } else {
        match c {
            Some(ch) => LayoutOutput::Char(ch),
            None => LayoutOutput::Passthrough,
        }
    }
}

impl Layout for Qwerty {
    fn id(&self) -> (r: &'static str)
        ensures
            r@ == "qwerty-us"@,
    {
        "qwerty-us"
    }

    fn name(&self) -> (r: &'static str)
        ensures
            r@ == "QWERTY (US)"@,
    {
        "QWERTY (US)"
    }

    fn kind(&self) -> (r: LayoutKind)
        ensures
            r == LayoutKind::Latin,
    {
        LayoutKind::Latin
    }

    fn map(&self, ev: &KeyEvent) -> (out: LayoutOutput)
        ensures
            out == latin_output(*ev, spec_qwerty_char(ev.code, ev.mods.shift)),
    {
        if !ev.mods.is_ime_eligible() {
            return LayoutOutput::Passthrough;
        }
        match qwerty_char(ev.code, ev.mods.shift) {
            Some(ch) => LayoutOutput::Char(ch),
            None => LayoutOutput::Passthrough,
        }
    }
}

impl Layout for Dvorak {
    fn id(&self) -> (r: &'static str)
        ensures
            r@ == "dvorak"@,
    {
        "dvorak"
    }

    fn name(&self) -> (r: &'static str)
        ensures
            r@ == "Dvorak"@,
    {
        "Dvorak"
    }

    fn kind(&self) -> (r: LayoutKind)
        ensures
            r == LayoutKind::Latin,
    {
        LayoutKind::Latin
    }

    fn map(&self, ev: &KeyEvent) -> (out: LayoutOutput)
        ensures
            out == latin_output(*ev, spec_dvorak_char(ev.code, ev.mods.shift)),
    {
        if !ev.mods.is_ime_eligible() {
            return LayoutOutput::Passthrough;
        }
        match dvorak_char(ev.code, ev.mods.shift) {
            Some(ch) => LayoutOutput::Char(ch),
            None => LayoutOutput::Passthrough,
        }
    }
}

// ─────────────────────── Key → char tables ─────────────────────────

/// The character a QWERTY key types (see [`spec_qwerty_char`]).
pub fn qwerty_char(code: KeyCode, shift: bool) -> (r: Option<char>)
    ensures
        r == spec_qwerty_char(code, shift),
{
    let (lo, hi) = match code {
        // Number row
        KeyCode::Backquote => ('`', '~'),
        KeyCode::Digit1 => ('1', '!'),
        KeyCode::Digit2 => ('2', '@'),
        KeyCode::Digit3 => ('3', '#'),
        KeyCode::Digit4 => ('4', '$'),
        KeyCode::Digit5 => ('5', '%'),
        KeyCode::Digit6 => ('6', '^'),
        KeyCode::Digit7 => ('7', '&'),
        KeyCode::Digit8 => ('8', '*'),
        KeyCode::Digit9 => ('9', '('),
        KeyCode::Digit0 => ('0', ')'),
        KeyCode::Minus => ('-', '_'),
        KeyCode::Equal => ('=', '+'),
        // Letters
        KeyCode::KeyA => ('a', 'A'),
        KeyCode::KeyB => ('b', 'B'),
        KeyCode::KeyC => ('c', 'C'),
        KeyCode::KeyD => ('d', 'D'),
        KeyCode::KeyE => ('e', 'E'),
        KeyCode::KeyF => ('f', 'F'),
        KeyCode::KeyG => ('g', 'G'),
        KeyCode::KeyH => ('h', 'H'),
        KeyCode::KeyI => ('i', 'I'),
        KeyCode::KeyJ => ('j', 'J'),
        KeyCode::KeyK => ('k', 'K'),
        KeyCode::KeyL => ('l', 'L'),
        KeyCode::KeyM => ('m', 'M'),
        KeyCode::KeyN => ('n', 'N'),
        KeyCode::KeyO => ('o', 'O'),
        KeyCode::KeyP => ('p', 'P'),
        KeyCode::KeyQ => ('q', 'Q'),
        KeyCode::KeyR => ('r', 'R'),
        KeyCode::KeyS => ('s', 'S'),
        KeyCode::KeyT => ('t', 'T'),
        KeyCode::KeyU => ('u', 'U'),
        KeyCode::KeyV => ('v', 'V'),
        KeyCode::KeyW => ('w', 'W'),
        KeyCode::KeyX => ('x', 'X'),
        KeyCode::KeyY => ('y', 'Y'),
        KeyCode::KeyZ => ('z', 'Z'),
        // Punctuation
        KeyCode::BracketLeft => ('[', '{'),
        KeyCode::BracketRight => (']', '}'),
        KeyCode::Backslash => ('\\', '|'),
        KeyCode::Semicolon => (';', ':'),
        KeyCode::Quote => ('\'', '"'),
        KeyCode::Comma => (',', '<'),
        KeyCode::Period => ('.', '>'),
        KeyCode::Slash => ('/', '?'),
        _ => return None,
    };
    Some(if shift { hi } else { lo })
}

/// The character a Dvorak key types (see [`spec_dvorak_char`]).
pub fn dvorak_char(code: KeyCode, shift: bool) -> (r: Option<char>)
    ensures
        r == spec_dvorak_char(code, shift),
{
    // The number row stays identical to QWERTY.
    match code {
        KeyCode::Backquote | KeyCode::Digit0 | KeyCode::Digit1 | KeyCode::Digit2
        | KeyCode::Digit3 | KeyCode::Digit4 | KeyCode::Digit5 | KeyCode::Digit6
        | KeyCode::Digit7 | KeyCode::Digit8 | KeyCode::Digit9 => {
            return qwerty_char(code, shift);
        },
        _ => {},
    }
    let (lo, hi) = match code {
        // `- [` and `= ]` (in Dvorak, brackets move from top-right to
        // right of P)
        KeyCode::Minus => ('[', '{'),
        KeyCode::Equal => (']', '}'),
        // Top row Q-P → ',.pyfgcrl/='   with ' and , in first two.
        KeyCode::KeyQ => ('\'', '"'),
        KeyCode::KeyW => (',', '<'),
        KeyCode::KeyE => ('.', '>'),
        KeyCode::KeyR => ('p', 'P'),
        KeyCode::KeyT => ('y', 'Y'),
        KeyCode::KeyY => ('f', 'F'),
        KeyCode::KeyU => ('g', 'G'),
        KeyCode::KeyI => ('c', 'C'),
        KeyCode::KeyO => ('r', 'R'),
        KeyCode::KeyP => ('l', 'L'),
        KeyCode::BracketLeft => ('/', '?'),
        KeyCode::BracketRight => ('=', '+'),
        // Home row A-' → 'aoeuidhtns-'
        KeyCode::KeyA => ('a', 'A'),
        KeyCode::KeyS => ('o', 'O'),
        KeyCode::KeyD => ('e', 'E'),
        KeyCode::KeyF => ('u', 'U'),
        KeyCode::KeyG => ('i', 'I'),
        KeyCode::KeyH => ('d', 'D'),
        KeyCode::KeyJ => ('h', 'H'),
        KeyCode::KeyK => ('t', 'T'),
        KeyCode::KeyL => ('n', 'N'),
        KeyCode::Semicolon => ('s', 'S'),
        KeyCode::Quote => ('-', '_'),
        // Bottom row Z-/ → ';qjkxbmwvz'
        KeyCode::KeyZ => (';', ':'),
        KeyCode::KeyX => ('q', 'Q'),
        KeyCode::KeyC => ('j', 'J'),
        KeyCode::KeyV => ('k', 'K'),
        KeyCode::KeyB => ('x', 'X'),
        KeyCode::KeyN => ('b', 'B'),
        KeyCode::KeyM => ('m', 'M'),
        KeyCode::Comma => ('w', 'W'),
        KeyCode::Period => ('v', 'V'),
        KeyCode::Slash => ('z', 'Z'),
        KeyCode::Backslash => ('\\', '|'),
        _ => return None,
    };
    Some(if shift { hi } else { lo })
}

/// Dvorak keeps the QWERTY number row: on the backquote and digit keys,
/// with or without Shift, both layouts type the same character.
pub proof fn lemma_dvorak_number_row_matches_qwerty(code: KeyCode, shift: bool)
    requires
        is_number_row(code),
    ensures
        spec_dvorak_char(code, shift) == spec_qwerty_char(code, shift),
        spec_qwerty_char(code, shift) is Some,
{
}

} // verus!
