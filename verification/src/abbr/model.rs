//! Abbreviation data types.
use vstd::prelude::*;
use crate::text::{chars_of, cp_char, push_cp, string_of};

verus! {

/// A registered abbreviation: a short input pattern that expands to a
/// longer body.
#[derive(Clone, Debug, PartialEq, Eq)]
pub struct Abbreviation {
    /// Stable identifier (free-form; used for logging and UI references).
    pub id: String,
    /// How user input is matched.
    pub trigger: Trigger,
    /// What text to insert on expansion.
    pub body: String,
    /// Which event commits the expansion.
    pub trigger_on: TriggerEvent,
    /// Relevance score used to break ties in the picker; higher surfaces
    /// first when two candidates otherwise rank equally.
    pub priority: u32,
}

/// How an abbreviation is matched against the committed-text stream.
#[derive(Clone, Debug, PartialEq, Eq)]
pub enum Trigger {
    /// A sequence of conjoining initial-consonant code points
    /// (U+1100..=U+1112). Matches when the tail of the committed buffer
    /// is exactly this Cho run.
    ChoSeq(Vec<u32>),
    /// Literal word match — requires a word boundary (start of buffer or
    /// whitespace) before the match point.
    Literal(String),
    /// Suffix match — no word boundary required.
    Ending(String),
}

/// The mathematical content of a [`Trigger`].
pub enum TriggerView {
    ChoSeq(Seq<u32>),
    Literal(Seq<char>),
    Ending(Seq<char>),
}

/// The mathematical content of an [`Abbreviation`].
pub struct AbbrView {
    pub id: Seq<char>,
    pub trigger: TriggerView,
    pub body: Seq<char>,
    pub trigger_on: TriggerEvent,
    pub priority: u32,
}

impl View for Trigger {
    type V = TriggerView;

    open spec fn view(&self) -> TriggerView {
        match self {
            Trigger::ChoSeq(cs) => TriggerView::ChoSeq(cs@),
            Trigger::Literal(s) => TriggerView::Literal(s@),
            Trigger::Ending(s) => TriggerView::Ending(s@),
        }
    }
}

impl View for Abbreviation {
    type V = AbbrView;

    open spec fn view(&self) -> AbbrView {
        AbbrView {
            id: self.id@,
            trigger: self.trigger@,
            body: self.body@,
            trigger_on: self.trigger_on,
            priority: self.priority,
        }
    }
}

/// Event types that can cause a pending match to fire.
#[derive(Copy, Clone, Debug, PartialEq, Eq, Structural)]
pub enum TriggerEvent {
    /// Fire as soon as the trigger sequence is complete in the buffer.
    Immediate,
    /// Fire when the user presses Space.
    Space,
    /// Fire when the user presses Enter.
    Enter,
    /// Fire when a punctuation character is typed.
    Punctuation,
    /// Fire when the Hangul FSM completes a syllable (reserved).
    JongCompletion,
    /// Fire on an explicit user action (e.g. Tab).
    Explicit,
}

impl TriggerEvent {
    /// Whether a trigger configured for `want` fires on `got`: exactly
    /// when they are the same event.
    pub fn matches(want: TriggerEvent, got: TriggerEvent) -> (r: bool)
        ensures
            r == (want == got),
    {
        match want {
            TriggerEvent::Immediate => got == TriggerEvent::Immediate,
            TriggerEvent::Space => got == TriggerEvent::Space,
            TriggerEvent::Enter => got == TriggerEvent::Enter,
            TriggerEvent::Punctuation => got == TriggerEvent::Punctuation,
            TriggerEvent::JongCompletion => got == TriggerEvent::JongCompletion,
            TriggerEvent::Explicit => got == TriggerEvent::Explicit,
        }
    }
}

impl TriggerView {
    /// Length in characters that the match consumes when fired.
    pub open spec fn match_len(self) -> nat {
        match self {
            TriggerView::ChoSeq(cs) => cs.len(),
            TriggerView::Literal(s) => s.len(),
            TriggerView::Ending(s) => s.len(),
        }
    }

    /// Human-readable display: compatibility jamo for a Cho run, the text
    /// itself otherwise.
    pub open spec fn display(self) -> Seq<char> {
        match self {
            TriggerView::ChoSeq(cs) => display_cps(cs),
            TriggerView::Literal(s) => s,
            TriggerView::Ending(s) => s,
        }
    }
}

/// The compatibility code point shown for a conjoining initial; other
/// code points are shown as themselves.
pub open spec fn spec_cho_display_cp(cp: u32) -> u32 {
    if cp == 0x1100 { 0x3131 }
    else if cp == 0x1101 { 0x3132 }
    else if cp == 0x1102 { 0x3134 }
    else if cp == 0x1103 { 0x3137 }
    else if cp == 0x1104 { 0x3138 }
    else if cp == 0x1105 { 0x3139 }
    else if cp == 0x1106 { 0x3141 }
    else if cp == 0x1107 { 0x3142 }
    else if cp == 0x1108 { 0x3143 }
    else if cp == 0x1109 { 0x3145 }
    else if cp == 0x110A { 0x3146 }
    else if cp == 0x110B { 0x3147 }
    else if cp == 0x110C { 0x3148 }
    else if cp == 0x110D { 0x3149 }
    else if cp == 0x110E { 0x314A }
    else if cp == 0x110F { 0x314B }
    else if cp == 0x1110 { 0x314C }
    else if cp == 0x1111 { 0x314D }
    else if cp == 0x1112 { 0x314E }
    else { cp }
}

/// The display of a Cho run: each code point in compatibility form,
/// skipping values that are not characters.
pub open spec fn display_cps(cs: Seq<u32>) -> Seq<char>
    decreases cs.len(),
{
    if cs.len() == 0 {
        Seq::empty()
    } else {
        let prev = display_cps(cs.drop_last());
        let m = spec_cho_display_cp(cs.last());
        if crate::text::is_char_value(m) {
            prev.push(cp_char(m))
        } else {
            prev
        }
    }
}

fn cp_to_compat(cp: u32) -> (r: u32)
    ensures
        r == spec_cho_display_cp(cp),
{
    match cp {
        0x1100 => 0x3131,
        0x1101 => 0x3132,
        0x1102 => 0x3134,
        0x1103 => 0x3137,
        0x1104 => 0x3138,
        0x1105 => 0x3139,
        0x1106 => 0x3141,
        0x1107 => 0x3142,
        0x1108 => 0x3143,
        0x1109 => 0x3145,
        0x110A => 0x3146,
        0x110B => 0x3147,
        0x110C => 0x3148,
        0x110D => 0x3149,
        0x110E => 0x314A,
        0x110F => 0x314B,
        0x1110 => 0x314C,
        0x1111 => 0x314D,
        0x1112 => 0x314E,
        other => other,
    }
}

impl Trigger {
    /// Length in characters that the match consumes when fired.
    pub fn match_len(&self) -> (r: usize)
        ensures
            r == self@.match_len(),
    {
        match self {
            Self::ChoSeq(cs) => cs.len(),
            Self::Literal(s) | Self::Ending(s) => chars_of(s.as_str()).len(),
        }
    }

    /// Human-readable display of the trigger (for UI). A Cho run is shown
    /// in compatibility jamo; code points that are not characters are
    /// skipped.
    pub fn display(&self) -> (r: String)
        ensures
            r@ == self@.display(),
    {
        match self {
            Self::ChoSeq(cs) => {
                let mut out = String::new();
                let mut i: usize = 0;
                while i < cs.len()
                    invariant
                        i <= cs.len(),
                        out@ == display_cps(cs@.take(i as int)),
                    decreases cs.len() - i,
                {
                    let m = cp_to_compat(cs[i]);
                    proof {
                        assert(cs@.take(i + 1).drop_last() == cs@.take(i as int));
                    }
                    push_cp(&mut out, m);
                    i = i + 1;
                }
                proof {
                    assert(cs@.take(cs.len() as int) == cs@);
                }
                out
            },
            Self::Literal(s) | Self::Ending(s) => string_of(s.as_str()),
        }
    }

    /// Whether the trigger is the Ending (suffix) variant.
    pub fn is_ending(&self) -> (r: bool)
        ensures
            r == (self@ is Ending),
    {
        match self {
            Self::Ending(_) => true,
            _ => false,
        }
    }
}

} // verus!
