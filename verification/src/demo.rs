//! The logic of the terminal demo: script mode (a string of ASCII keys
//! typed through a layout) and the interactive editor's key handling. The
//! host reads keys and draws the screen.
use vstd::prelude::*;
use crate::hangul::fsm::{empty_state, ComposeMode, EventView, FeedOptions, FsmEvent, FsmModel, HangulFsm};
use crate::hangul::output::{nfc_chars, render_chars, to_nfc_syllable, OutputForm};
use crate::layout::key::{KeyCode, KeyEvent, Modifiers};
use crate::layout::LayoutOutput;
use crate::layout::latin::spec_qwerty_char;
use crate::layout::legend::qwerty_legend;
use crate::session::{hangul_map, HangulLayoutId};
use crate::text::{chars_of, push_str, str_eq, string_push};

verus! {

/// A layout offered by the demo, with its label.
#[derive(Debug, Clone, Copy)]
pub struct LayoutSlot {
    /// Label shown in the header.
    pub label: &'static str,
    /// The layout.
    pub layout: HangulLayoutId,
}

/// The demo's layouts, in cycling order.
pub open spec fn demo_layouts() -> Seq<HangulLayoutId> {
    seq![HangulLayoutId::Dubeolsik, HangulLayoutId::Sebeolsik390, HangulLayoutId::SebeolsikFinal]
}

/// The demo's layouts: 두벌식 표준, 세벌식 390, 세벌식 최종.
pub fn default_layouts() -> (r: Vec<LayoutSlot>)
    ensures
        r@.len() == 3,
        forall|i: int| 0 <= i < 3 ==> (#[trigger] r@[i]).layout == demo_layouts()[i],
        r@[0].label@ == "두벌식 표준"@,
        r@[1].label@ == "세벌식 390"@,
        r@[2].label@ == "세벌식 최종"@,
{
    vec![
        LayoutSlot { label: "두벌식 표준", layout: HangulLayoutId::Dubeolsik },
        LayoutSlot { label: "세벌식 390", layout: HangulLayoutId::Sebeolsik390 },
        LayoutSlot { label: "세벌식 최종", layout: HangulLayoutId::SebeolsikFinal },
    ]
}

/// The physical key a lower-case ASCII character sits on.
pub open spec fn ascii_key(ch: char) -> Option<KeyCode> {
    if ch == 'a' { Some(KeyCode::KeyA) }
    else if ch == 'b' { Some(KeyCode::KeyB) }
    else if ch == 'c' { Some(KeyCode::KeyC) }
    else if ch == 'd' { Some(KeyCode::KeyD) }
    else if ch == 'e' { Some(KeyCode::KeyE) }
    else if ch == 'f' { Some(KeyCode::KeyF) }
    else if ch == 'g' { Some(KeyCode::KeyG) }
    else if ch == 'h' { Some(KeyCode::KeyH) }
    else if ch == 'i' { Some(KeyCode::KeyI) }
    else if ch == 'j' { Some(KeyCode::KeyJ) }
    else if ch == 'k' { Some(KeyCode::KeyK) }
    else if ch == 'l' { Some(KeyCode::KeyL) }
    else if ch == 'm' { Some(KeyCode::KeyM) }
    else if ch == 'n' { Some(KeyCode::KeyN) }
    else if ch == 'o' { Some(KeyCode::KeyO) }
    else if ch == 'p' { Some(KeyCode::KeyP) }
    else if ch == 'q' { Some(KeyCode::KeyQ) }
    else if ch == 'r' { Some(KeyCode::KeyR) }
    else if ch == 's' { Some(KeyCode::KeyS) }
    else if ch == 't' { Some(KeyCode::KeyT) }
    else if ch == 'u' { Some(KeyCode::KeyU) }
    else if ch == 'v' { Some(KeyCode::KeyV) }
    else if ch == 'w' { Some(KeyCode::KeyW) }
    else if ch == 'x' { Some(KeyCode::KeyX) }
    else if ch == 'y' { Some(KeyCode::KeyY) }
    else if ch == 'z' { Some(KeyCode::KeyZ) }
    else if ch == '0' { Some(KeyCode::Digit0) }
    else if ch == '1' { Some(KeyCode::Digit1) }
    else if ch == '2' { Some(KeyCode::Digit2) }
    else if ch == '3' { Some(KeyCode::Digit3) }
    else if ch == '4' { Some(KeyCode::Digit4) }
    else if ch == '5' { Some(KeyCode::Digit5) }
    else if ch == '6' { Some(KeyCode::Digit6) }
    else if ch == '7' { Some(KeyCode::Digit7) }
    else if ch == '8' { Some(KeyCode::Digit8) }
    else if ch == '9' { Some(KeyCode::Digit9) }
    else if ch == '-' { Some(KeyCode::Minus) }
    else if ch == '=' { Some(KeyCode::Equal) }
    else if ch == '[' { Some(KeyCode::BracketLeft) }
    else if ch == ']' { Some(KeyCode::BracketRight) }
    else if ch == '\\' { Some(KeyCode::Backslash) }
    else if ch == ';' { Some(KeyCode::Semicolon) }
    else if ch == '\'' { Some(KeyCode::Quote) }
    else if ch == ',' { Some(KeyCode::Comma) }
    else if ch == '.' { Some(KeyCode::Period) }
    else if ch == '/' { Some(KeyCode::Slash) }
    else if ch == '`' { Some(KeyCode::Backquote) }
    else { None }
}

/// Whether `ch` is an ASCII upper-case letter.
pub open spec fn is_ascii_upper(ch: char) -> bool {
    'A' <= ch && ch <= 'Z'
}

/// The physical key and implicit Shift of a typed character: an
/// upper-case letter is its lower-case key with Shift.
pub open spec fn char_key(ch: char) -> Option<(KeyCode, bool)> {
    let (lower, shift) = if is_ascii_upper(ch) {
        (((ch as u32) + 32) as char, true)
    } else {
        (ch, false)
    };
    match ascii_key(lower) {
        Some(code) => Some((code, shift)),
        None => None,
    }
}

/// Typing a character into the demo presses the QWERTY key that types it:
/// whatever key and Shift [`char_key`] picks, QWERTY types `ch` back. Every
/// unshifted QWERTY character is found, on its own key without Shift.
pub proof fn lemma_char_key_inverts_qwerty(ch: char)
    ensures
        char_key(ch) matches Some((code, shift)) ==> spec_qwerty_char(code, shift) == Some(ch),
        forall|k: int| 0 <= k < qwerty_legend().len() ==> char_key((#[trigger] qwerty_legend()[k]).1) == Some((qwerty_legend()[k].0, false)),
{
    let t = qwerty_legend();
    assert forall|k: int| 0 <= k < t.len() implies char_key((#[trigger] t[k]).1) == Some((t[k].0, false)) by {
        if k == 0 {} else if k == 1 {} else if k == 2 {} else if k == 3 {} else if k == 4 {} else if k == 5 {} else if k == 6 {} else if k == 7 {} else if k == 8 {} else if k == 9 {} else if k == 10 {} else if k == 11 {} else if k == 12 {} else if k == 13 {} else if k == 14 {} else if k == 15 {} else if k == 16 {} else if k == 17 {} else if k == 18 {} else if k == 19 {} else if k == 20 {} else if k == 21 {} else if k == 22 {} else if k == 23 {} else if k == 24 {} else if k == 25 {} else if k == 26 {} else if k == 27 {} else if k == 28 {} else if k == 29 {} else if k == 30 {} else if k == 31 {} else if k == 32 {} else if k == 33 {} else if k == 34 {} else if k == 35 {} else if k == 36 {} else if k == 37 {} else if k == 38 {} else if k == 39 {} else if k == 40 {} else if k == 41 {} else if k == 42 {} else if k == 43 {} else if k == 44 {} else if k == 45 {} else if k == 46 {}
    }
    if is_ascii_upper(ch) {
        let lower = ((ch as u32) + 32) as char;
        if ascii_key(lower) is Some {
            assert('a' <= lower <= 'z');
        }
    }
}

/// Map a typed character to a physical key plus implicit Shift (the case
/// of a letter carries the Shift signal).
pub fn map_char_to_keycode(ch: char) -> (r: Option<(KeyCode, bool)>)
    ensures
        r == char_key(ch),
{
    let (lower, shift) = if 'A' <= ch && ch <= 'Z' {
        let l = ((ch as u32) + 32) as u8 as char;
        assert(l == (((ch as u32) + 32) as char)) by {
            assert((ch as u32) + 32 < 128);
        }
        (l, true)
    } else {
        (ch, false)
    };
    let code = match lower {
        'a' => KeyCode::KeyA, 'b' => KeyCode::KeyB, 'c' => KeyCode::KeyC,
        'd' => KeyCode::KeyD, 'e' => KeyCode::KeyE, 'f' => KeyCode::KeyF,
        'g' => KeyCode::KeyG, 'h' => KeyCode::KeyH, 'i' => KeyCode::KeyI,
        'j' => KeyCode::KeyJ, 'k' => KeyCode::KeyK, 'l' => KeyCode::KeyL,
        'm' => KeyCode::KeyM, 'n' => KeyCode::KeyN, 'o' => KeyCode::KeyO,
        'p' => KeyCode::KeyP, 'q' => KeyCode::KeyQ, 'r' => KeyCode::KeyR,
        's' => KeyCode::KeyS, 't' => KeyCode::KeyT, 'u' => KeyCode::KeyU,
        'v' => KeyCode::KeyV, 'w' => KeyCode::KeyW, 'x' => KeyCode::KeyX,
        'y' => KeyCode::KeyY, 'z' => KeyCode::KeyZ,
        '0' => KeyCode::Digit0, '1' => KeyCode::Digit1, '2' => KeyCode::Digit2,
        '3' => KeyCode::Digit3, '4' => KeyCode::Digit4, '5' => KeyCode::Digit5,
        '6' => KeyCode::Digit6, '7' => KeyCode::Digit7, '8' => KeyCode::Digit8,
        '9' => KeyCode::Digit9,
        '-' => KeyCode::Minus, '=' => KeyCode::Equal,
        '[' => KeyCode::BracketLeft, ']' => KeyCode::BracketRight,
        '\\' => KeyCode::Backslash,
        ';' => KeyCode::Semicolon, '\'' => KeyCode::Quote,
        ',' => KeyCode::Comma, '.' => KeyCode::Period, '/' => KeyCode::Slash,
        '`' => KeyCode::Backquote,
        _ => return None,
    };
    Some((code, shift))
}

/// The output form after `f` in the demo's F2 cycle.
pub open spec fn spec_next_form(f: OutputForm) -> OutputForm {
    match f {
        OutputForm::NfcSyllable => OutputForm::JamoConjoining,
        OutputForm::JamoConjoining => OutputForm::JamoCompat,
        OutputForm::JamoCompat => OutputForm::NfcSyllable,
    }
}

/// The output form after `f`: NFC → conjoining → compat → NFC.
pub fn next_form(f: OutputForm) -> (r: OutputForm)
    ensures
        r == spec_next_form(f),
{
    match f {
        OutputForm::NfcSyllable => OutputForm::JamoConjoining,
        OutputForm::JamoConjoining => OutputForm::JamoCompat,
        OutputForm::JamoCompat => OutputForm::NfcSyllable,
    }
}

/// The label of an output form.
pub open spec fn form_label_text(f: OutputForm) -> Seq<char> {
    match f {
        OutputForm::NfcSyllable => "NFC"@,
        OutputForm::JamoConjoining => "Conjoining"@,
        OutputForm::JamoCompat => "Compat"@,
    }
}

/// The label of an output form.
pub fn form_label(f: OutputForm) -> (r: &'static str)
    ensures
        r@ == form_label_text(f),
{
    match f {
        OutputForm::NfcSyllable => "NFC",
        OutputForm::JamoConjoining => "Conjoining",
        OutputForm::JamoCompat => "Compat",
    }
}

/// The demo layout a `--layout` argument names: its position in
/// [`default_layouts`].
pub open spec fn layout_arg_index(name: Seq<char>) -> Option<nat> {
    if name == "dubeolsik"@ || name == "두벌식"@ {
        Some(0)
    } else if name == "sebeolsik"@ || name == "sebeolsik-390"@ || name == "세벌식"@ {
        Some(1)
    } else if name == "sebeolsik-final"@ || name == "세벌식-최종"@ || name == "최종"@ {
        Some(2)
    } else {
        None
    }
}

/// Resolve a `--layout` argument (see [`layout_arg_index`]).
pub fn layout_from_arg(name: &str) -> (r: Option<usize>)
    ensures
        match r {
            Some(i) => layout_arg_index(name@) == Some(i as nat),
            None => layout_arg_index(name@) is None,
        },
{
    if str_eq(name, "dubeolsik") || str_eq(name, "두벌식") {
        Some(0)
    } else if str_eq(name, "sebeolsik") || str_eq(name, "sebeolsik-390") || str_eq(name, "세벌식") {
        Some(1)
    } else if str_eq(name, "sebeolsik-final") || str_eq(name, "세벌식-최종") || str_eq(name, "최종") {
        Some(2)
    } else {
        None
    }
}

// ───────────────────────────── Script mode ────────────────────────────

/// The text a state-machine event commits (nothing if it commits
/// nothing).
pub open spec fn committed_text(ev: EventView) -> Seq<char> {
    match ev.commit() {
        Some(c) => c,
        None => Seq::empty(),
    }
}

/// The text a flush commits.
pub open spec fn flush_text(ev: EventView) -> Seq<char> {
    match ev {
        EventView::Commit(s) => s,
        _ => Seq::empty(),
    }
}

/// One character of a script: a space flushes and is kept; a character on
/// a known key goes through the layout (a Jamo is composed, a character
/// flushes and is kept, anything else flushes and keeps the typed
/// character); any other character flushes and is kept.
pub open spec fn script_step(layout: HangulLayoutId, st: (FsmModel, Seq<char>), ch: char) -> (FsmModel, Seq<char>) {
    let (m, out) = st;
    let (mf, fev) = m.flush();
    if ch == ' ' {
        (mf, out + flush_text(fev) + seq![' '])
    } else {
        match char_key(ch) {
            None => (mf, out + flush_text(fev) + seq![ch]),
            Some((code, shift)) => {
                let mods = if shift {
                    Modifiers::spec_shift_only()
                } else {
                    Modifiers::spec_none()
                };
                match hangul_map(layout, KeyEvent { code, mods, repeat: false }) {
                    LayoutOutput::Jamo(input) => {
                        let (m2, ev) = m.feed(input, FeedOptions { within_chord: false });
                        (m2, out + committed_text(ev))
                    },
                    LayoutOutput::Char(c) => (mf, out + flush_text(fev) + seq![c]),
                    _ => (mf, out + flush_text(fev) + seq![ch]),
                }
            },
        }
    }
}

/// The state after typing every character of `s`.
pub open spec fn script_run(layout: HangulLayoutId, st: (FsmModel, Seq<char>), s: Seq<char>) -> (FsmModel, Seq<char>)
    decreases s.len(),
{
    if s.len() == 0 {
        st
    } else {
        script_step(layout, script_run(layout, st, s.drop_last()), s.last())
    }
}

/// A freshly created state machine: empty, sequential.
pub open spec fn fresh_fsm() -> FsmModel {
    FsmModel {
        state: empty_state(),
        mode: ComposeMode::Sequential,
        jong_from_dual: false,
        same_slot_overwrite: false,
        last_was_cho: false,
    }
}

/// What script mode prints for `input`: the characters typed through a
/// fresh sequential state machine, flushed at the end, in NFC.
pub open spec fn script_output(layout: HangulLayoutId, input: Seq<char>, start: FsmModel) -> Seq<char> {
    let (m, out) = script_run(layout, (start, Seq::empty()), input);
    nfc_chars(out + flush_text(m.flush().1))
}

fn flush_into(fsm: &mut HangulFsm, out: &mut String)
    requires
        old(fsm).wf(),
    ensures
        final(fsm).wf(),
        final(fsm)@ == old(fsm)@.flush().0,
        final(out)@ == old(out)@ + flush_text(old(fsm)@.flush().1),
{
    match fsm.flush() {
        FsmEvent::Commit(s) => push_str(out, s.as_str()),
        _ => {
            proof {
                assert(old(out)@ + Seq::<char>::empty() == old(out)@);
            }
        },
    }
}

/// Type `input` through `layout` and return the composed text in NFC
/// (see [`script_output`]).
pub fn run_script(layout: HangulLayoutId, input: &str) -> (r: String)
    ensures
        r@ == script_output(layout, input@, fresh_fsm()),
{
    let mut fsm = HangulFsm::new();
    let mut out = String::new();
    let chars = chars_of(input);
    let ghost start = fsm@;
    let mut i: usize = 0;
    while i < chars.len()
        invariant
            i <= chars@.len(),
            chars@ == input@,
            fsm.wf(),
            start == fresh_fsm(),
            (fsm@, out@) == script_run(layout, (start, Seq::empty()), chars@.take(i as int)),
        decreases chars@.len() - i,
    {
        let ch = chars[i];
        proof {
            let pre = chars@.take(i + 1);
            assert(pre.drop_last() == chars@.take(i as int));
            assert(pre.last() == ch);
        }
        if ch == ' ' {
            flush_into(&mut fsm, &mut out);
            string_push(&mut out, ' ');
        } else {
            match map_char_to_keycode(ch) {
                None => {
                    flush_into(&mut fsm, &mut out);
                    string_push(&mut out, ch);
                },
                Some((code, shift)) => {
                    let mods = if shift { Modifiers::shift_only() } else { Modifiers::none() };
                    let kev = KeyEvent { code, mods, repeat: false };
                    match layout.map(&kev) {
                        LayoutOutput::Jamo(jamo) => {
                            let ev = fsm.feed(jamo);
                            match ev.commit_str() {
                                Some(s) => push_str(&mut out, s),
                                None => {
                                    proof {
                                        assert(out@ + Seq::<char>::empty() == out@);
                                    }
                                },
                            }
                        },
                        LayoutOutput::Char(c) => {
                            flush_into(&mut fsm, &mut out);
                            string_push(&mut out, c);
                        },
                        _ => {
                            flush_into(&mut fsm, &mut out);
                            string_push(&mut out, ch);
                        },
                    }
                },
            }
        }
        i = i + 1;
    }
    proof {
        assert(chars@.take(chars@.len() as int) == chars@);
    }
    flush_into(&mut fsm, &mut out);
    to_nfc_syllable(out.as_str())
}

} // verus!

verus! {

// ─────────────────────────── Interactive mode ─────────────────────────

/// A key press as the interactive demo sees it.
#[derive(Debug, Clone, Copy, PartialEq, Eq, Structural)]
pub enum DemoKey {
    /// Cycle layouts.
    Tab,
    /// Cycle output forms.
    F2,
    /// Cancel the composition.
    Esc,
    /// Delete one jamo, or one committed character when idle.
    Backspace,
    /// Flush and start a new line.
    Enter,
    /// A character key with its modifiers.
    Char { ch: char, shift: bool, ctrl: bool, alt: bool, meta: bool, repeat: bool },
    /// Any other key (ignored).
    Other,
}

/// Whether a key ends the demo: Ctrl-C or Ctrl-Q.
pub open spec fn spec_exits(key: DemoKey) -> bool {
    key matches DemoKey::Char { ch, ctrl, .. } && ctrl && (ch == 'c' || ch == 'q')
}

/// Whether a key ends the demo: Ctrl-C or Ctrl-Q.
pub fn exits(key: DemoKey) -> (r: bool)
    ensures
        r == spec_exits(key),
{
    match key {
        DemoKey::Char { ch, ctrl, .. } => ctrl && (ch == 'c' || ch == 'q'),
        _ => false,
    }
}

/// The interactive demo's state.
pub struct DemoState {
    fsm: HangulFsm,
    committed: String,
    layout_idx: usize,
    form: OutputForm,
}

/// The mathematical content of a [`DemoState`].
pub struct DemoView {
    pub fsm: FsmModel,
    pub committed: Seq<char>,
    pub layout_idx: nat,
    pub form: OutputForm,
}

impl View for DemoState {
    type V = DemoView;

    closed spec fn view(&self) -> DemoView {
        DemoView {
            fsm: self.fsm@,
            committed: self.committed@,
            layout_idx: self.layout_idx as nat,
            form: self.form,
        }
    }
}

impl DemoView {
    /// The state machine's invariant holds and a demo layout is selected.
    pub open spec fn wf(self) -> bool {
        self.fsm.wf() && self.layout_idx < 3
    }

    /// Flush the composition into the committed text, rendered.
    pub open spec fn flush_collect(self) -> DemoView {
        let (m, ev) = self.fsm.flush();
        DemoView {
            fsm: m,
            committed: self.committed + render_chars(self.form, flush_text(ev)),
            ..self
        }
    }

    /// The state after one key (the exit keys are the host's).
    pub open spec fn step(self, key: DemoKey) -> DemoView {
        match key {
            DemoKey::Tab => DemoView {
                layout_idx: ((self.layout_idx + 1) % 3) as nat,
                ..self.flush_collect()
            },
            DemoKey::F2 => DemoView { form: spec_next_form(self.form), ..self },
            DemoKey::Esc => DemoView { fsm: self.fsm.cancel().0, ..self },
            DemoKey::Backspace => if self.fsm.composing() {
                DemoView { fsm: self.fsm.backspace().0, ..self }
            } else {
                DemoView {
                    committed: if self.committed.len() > 0 {
                        self.committed.drop_last()
                    } else {
                        self.committed
                    },
                    ..self
                }
            },
            DemoKey::Enter => {
                let f = self.flush_collect();
                DemoView { committed: f.committed.push('\n'), ..f }
            },
            DemoKey::Char { ch, shift, ctrl, alt, meta, repeat } => if ch == ' ' {
                let f = self.flush_collect();
                DemoView { committed: f.committed.push(' '), ..f }
            } else {
                match char_key(ch) {
                    None => self,
                    Some((code, s)) => {
                        let kev = KeyEvent {
                            code,
                            mods: Modifiers { shift: s || shift, ctrl, alt, altgr: false, meta },
                            repeat,
                        };
                        match hangul_map(demo_layouts()[self.layout_idx as int], kev) {
                            LayoutOutput::Jamo(input) => {
                                let (m, ev) = self.fsm.feed(input, FeedOptions { within_chord: false });
                                DemoView {
                                    fsm: m,
                                    committed: self.committed + match ev.commit() {
                                        Some(c) => render_chars(self.form, c),
                                        None => Seq::empty(),
                                    },
                                    ..self
                                }
                            },
                            LayoutOutput::Char(c) => {
                                let f = self.flush_collect();
                                DemoView { committed: f.committed.push(c), ..f }
                            },
                            LayoutOutput::Passthrough => {
                                let f = self.flush_collect();
                                DemoView { committed: f.committed.push(ch), ..f }
                            },
                            LayoutOutput::Absorbed => self,
                        }
                    },
                }
            },
            DemoKey::Other => self,
        }
    }
}

/// Append the rendered commit of an event, if it commits.
pub fn append_commit(buf: &mut String, ev: &FsmEvent, form: OutputForm)
    ensures
        final(buf)@ == old(buf)@ + match ev@.commit() {
            Some(c) => render_chars(form, c),
            None => Seq::empty(),
        },
{
    if let Some(s) = ev.commit_str() {
        let r = form.render(s);
        push_str(buf, r.as_str());
    } else {
        assert(old(buf)@ + Seq::<char>::empty() == old(buf)@);
    }
}

/// Remove the last character of `buf`, if any.
pub fn pop_last_grapheme(buf: &mut String)
    ensures
        final(buf)@ == if old(buf)@.len() > 0 { old(buf)@.drop_last() } else { old(buf)@ },
{
    let chars = chars_of(buf.as_str());
    if chars.len() > 0 {
        *buf = crate::text::string_from_chars(&chars.as_slice()[0..chars.len() - 1]);
    }
}

impl DemoState {
    /// The demo's invariant.
    pub open spec fn wf(&self) -> bool {
        self@.wf()
    }

    /// A fresh demo: empty text, the first layout, NFC output.
    pub fn new() -> (r: Self)
        ensures
            r.wf(),
            r@ == (DemoView { fsm: fresh_fsm(), committed: Seq::empty(), layout_idx: 0, form: OutputForm::NfcSyllable }),
    {
        DemoState { fsm: HangulFsm::new(), committed: String::new(), layout_idx: 0, form: OutputForm::NfcSyllable }
    }

    /// The committed text.
    pub fn committed(&self) -> (r: &str)
        ensures
            r@ == self@.committed,
    {
        self.committed.as_str()
    }

    /// The selected layout's position among [`default_layouts`].
    pub fn layout_idx(&self) -> (r: usize)
        ensures
            r == self@.layout_idx,
    {
        self.layout_idx
    }

    /// The output form.
    pub fn form(&self) -> (r: OutputForm)
        ensures
            r == self@.form,
    {
        self.form
    }

    /// The composition, rendered in NFC for display.
    pub fn preedit_display(&self) -> (r: String)
        requires
            self.wf(),
        ensures
            r@ == nfc_chars(self@.fsm.state.chars()),
    {
        to_nfc_syllable(self.fsm.preedit_string().as_str())
    }

    fn flush_collect(&mut self)
        requires
            old(self).wf(),
        ensures
            final(self).wf(),
            final(self)@ == old(self)@.flush_collect(),
    {
        match self.fsm.flush() {
            FsmEvent::Commit(s) => {
                let r = self.form.render(s.as_str());
                push_str(&mut self.committed, r.as_str());
            },
            _ => {
                proof {
                    assert(render_chars(self.form, Seq::<char>::empty()) =~= Seq::<char>::empty());
                    assert(old(self)@.committed + Seq::<char>::empty() == old(self)@.committed);
                }
            },
        }
    }

    /// Handle one key (see [`DemoView::step`]).
    pub fn handle(&mut self, key: DemoKey)
        requires
            old(self).wf(),
        ensures
            final(self).wf(),
            final(self)@ == old(self)@.step(key),
    {
        match key {
            DemoKey::Tab => {
                self.layout_idx = (self.layout_idx + 1) % 3;
                self.flush_collect();
            },
            DemoKey::F2 => {
                self.form = next_form(self.form);
            },
            DemoKey::Esc => {
                let _ = self.fsm.cancel();
            },
            DemoKey::Backspace => {
                if self.fsm.is_composing() {
                    let _ = self.fsm.backspace();
                } else {
                    pop_last_grapheme(&mut self.committed);
                }
            },
            DemoKey::Enter => {
                self.flush_collect();
                string_push(&mut self.committed, '\n');
            },
            DemoKey::Char { ch, shift, ctrl, alt, meta, repeat } => {
                if ch == ' ' {
                    self.flush_collect();
                    string_push(&mut self.committed, ' ');
                    return ;
                }
                if let Some((code, s)) = map_char_to_keycode(ch) {
                    let mods = Modifiers { shift: s || shift, ctrl, alt, altgr: false, meta };
                    let kev = KeyEvent { code, mods, repeat };
                    let layouts = default_layouts();
                    match layouts[self.layout_idx].layout.map(&kev) {
                        LayoutOutput::Jamo(input) => {
                            let ev = self.fsm.feed(input);
                            append_commit(&mut self.committed, &ev, self.form);
                        },
                        LayoutOutput::Char(c) => {
                            self.flush_collect();
                            string_push(&mut self.committed, c);
                        },
                        LayoutOutput::Passthrough => {
                            self.flush_collect();
                            string_push(&mut self.committed, ch);
                        },
                        LayoutOutput::Absorbed => {},
                    }
                }
            },
            DemoKey::Other => {},
        }
    }
}

} // verus!
