//! Output-form conversion.
//!
//! Internal state is always conjoining Jamo (U+1100..=U+11FF). Three
//! presentation forms are typical when text leaves the IME:
//!
//! * **Conjoining Jamo** — the internal form; no transformation.
//! * **NFC syllable** (U+AC00..=U+D7A3) — the canonical composed form.
//! * **Compatibility Jamo** (U+3130..=U+318F) — standalone jamo glyphs.
use vstd::prelude::*;
use crate::hangul::fsm::{CompositionState, FsmEvent};
use crate::hangul::jamo::{is_cho_cp, is_jong_cp, is_jung_cp};
use crate::text::{chars_of, cp_char, is_char_value, push_cp, string_push};

verus! {

broadcast use vstd::utf8::char_u32_cast;

/// First code point of the precomposed syllable block.
pub const SYLLABLE_BASE: u32 = 0xAC00;
/// Number of medial vowels.
pub const JUNG_COUNT: u32 = 21;
/// 27 finals plus "no final".
pub const JONG_SLOTS: u32 = 28;
/// Syllables per initial consonant (588).
pub const SYLLABLE_STRIDE: u32 = 588;

/// Selects how FSM event payloads are rendered to final text.
#[derive(Copy, Clone, Debug, Default, PartialEq, Eq, Structural)]
pub enum OutputForm {
    /// Raw conjoining Jamo. No transformation.
    JamoConjoining,
    /// NFC syllables where possible; unpaired jamo pass through.
    #[default]
    NfcSyllable,
    /// Hangul Compatibility Jamo (U+3130..=U+318F).
    JamoCompat,
}

/// The code point of the syllable made of initial `cho`, medial `jung`
/// and final composition index `jong_index` (0 = no final).
pub open spec fn syllable_cp(cho: u32, jung: u32, jong_index: u32) -> u32 {
    (0xAC00 + (cho - 0x1100) * 588 + (jung - 0x1161) * 28 + jong_index) as u32
}

pub open spec fn char_cp(c: char) -> u32 {
    c as u32
}

/// Greedy composition of `Cho Jung [Jong]` runs into precomposed
/// syllables; everything else passes through unchanged.
pub open spec fn nfc_chars(s: Seq<char>) -> Seq<char>
    decreases s.len(),
{
    if s.len() == 0 {
        Seq::empty()
    } else if s.len() >= 2 && is_cho_cp(char_cp(s[0])) && is_jung_cp(char_cp(s[1])) {
        if s.len() >= 3 && is_jong_cp(char_cp(s[2])) {
            seq![cp_char(syllable_cp(char_cp(s[0]), char_cp(s[1]), (char_cp(s[2]) - 0x11A8 + 1) as u32))]
                + nfc_chars(s.skip(3))
        } else {
            seq![cp_char(syllable_cp(char_cp(s[0]), char_cp(s[1]), 0))] + nfc_chars(s.skip(2))
        }
    } else {
        seq![s[0]] + nfc_chars(s.skip(1))
    }
}

/// The compatibility-jamo counterpart of a conjoining jamo; Cho and Jong
/// forms of the same letter share one compatibility code point.
pub open spec fn spec_conjoining_to_compat(cp: u32) -> Option<u32> {
    match cp {
        0x1100u32 => Some(0x3131u32),
        0x1101u32 => Some(0x3132u32),
        0x1102u32 => Some(0x3134u32),
        0x1103u32 => Some(0x3137u32),
        0x1104u32 => Some(0x3138u32),
        0x1105u32 => Some(0x3139u32),
        0x1106u32 => Some(0x3141u32),
        0x1107u32 => Some(0x3142u32),
        0x1108u32 => Some(0x3143u32),
        0x1109u32 => Some(0x3145u32),
        0x110Au32 => Some(0x3146u32),
        0x110Bu32 => Some(0x3147u32),
        0x110Cu32 => Some(0x3148u32),
        0x110Du32 => Some(0x3149u32),
        0x110Eu32 => Some(0x314Au32),
        0x110Fu32 => Some(0x314Bu32),
        0x1110u32 => Some(0x314Cu32),
        0x1111u32 => Some(0x314Du32),
        0x1112u32 => Some(0x314Eu32),
        0x1161u32 => Some(0x314Fu32),
        0x1162u32 => Some(0x3150u32),
        0x1163u32 => Some(0x3151u32),
        0x1164u32 => Some(0x3152u32),
        0x1165u32 => Some(0x3153u32),
        0x1166u32 => Some(0x3154u32),
        0x1167u32 => Some(0x3155u32),
        0x1168u32 => Some(0x3156u32),
        0x1169u32 => Some(0x3157u32),
        0x116Au32 => Some(0x3158u32),
        0x116Bu32 => Some(0x3159u32),
        0x116Cu32 => Some(0x315Au32),
        0x116Du32 => Some(0x315Bu32),
        0x116Eu32 => Some(0x315Cu32),
        0x116Fu32 => Some(0x315Du32),
        0x1170u32 => Some(0x315Eu32),
        0x1171u32 => Some(0x315Fu32),
        0x1172u32 => Some(0x3160u32),
        0x1173u32 => Some(0x3161u32),
        0x1174u32 => Some(0x3162u32),
        0x1175u32 => Some(0x3163u32),
        0x11A8u32 => Some(0x3131u32),
        0x11A9u32 => Some(0x3132u32),
        0x11AAu32 => Some(0x3133u32),
        0x11ABu32 => Some(0x3134u32),
        0x11ACu32 => Some(0x3135u32),
        0x11ADu32 => Some(0x3136u32),
        0x11AEu32 => Some(0x3137u32),
        0x11AFu32 => Some(0x3139u32),
        0x11B0u32 => Some(0x313Au32),
        0x11B1u32 => Some(0x313Bu32),
        0x11B2u32 => Some(0x313Cu32),
        0x11B3u32 => Some(0x313Du32),
        0x11B4u32 => Some(0x313Eu32),
        0x11B5u32 => Some(0x313Fu32),
        0x11B6u32 => Some(0x3140u32),
        0x11B7u32 => Some(0x3141u32),
        0x11B8u32 => Some(0x3142u32),
        0x11B9u32 => Some(0x3144u32),
        0x11BAu32 => Some(0x3145u32),
        0x11BBu32 => Some(0x3146u32),
        0x11BCu32 => Some(0x3147u32),
        0x11BDu32 => Some(0x3148u32),
        0x11BEu32 => Some(0x314Au32),
        0x11BFu32 => Some(0x314Bu32),
        0x11C0u32 => Some(0x314Cu32),
        0x11C1u32 => Some(0x314Du32),
        0x11C2u32 => Some(0x314Eu32),
        _ => None,
    }
}

/// One character in compatibility form.
pub open spec fn compat_char(c: char) -> char {
    match spec_conjoining_to_compat(char_cp(c)) {
        Some(m) => cp_char(m),
        None => c,
    }
}

/// A string in compatibility form.
pub open spec fn compat_chars(s: Seq<char>) -> Seq<char> {
    s.map_values(|c: char| compat_char(c))
}

/// A string rendered in output form `form`.
pub open spec fn render_chars(form: OutputForm, s: Seq<char>) -> Seq<char> {
    match form {
        OutputForm::JamoConjoining => s,
        OutputForm::NfcSyllable => nfc_chars(s),
        OutputForm::JamoCompat => compat_chars(s),
    }
}

impl OutputForm {
    /// Render a conjoining-Jamo string in this output form.
    pub fn render(self, s: &str) -> (r: String)
        ensures
            r@ == render_chars(self, s@),
    {
        match self {
            Self::JamoConjoining => crate::text::string_of(s),
            Self::NfcSyllable => to_nfc_syllable(s),
            Self::JamoCompat => to_compat_jamo(s),
        }
    }

    /// Render the committed portion of an FSM event in this output form;
    /// events without a commit render to the empty string.
    pub fn render_event(self, ev: &FsmEvent) -> (r: String)
        ensures
            r@ == match ev@.commit() {
                Some(c) => render_chars(self, c),
                None => Seq::empty(),
            },
    {
        match ev.commit_str() {
            Some(s) => self.render(s),
            None => String::new(),
        }
    }
}

/// Display-friendly rendering: NFC syllables where possible, otherwise
/// compatibility jamo for any unpaired conjoining jamo left over.
pub fn to_display_text(s: &str) -> (r: String)
    ensures
        r@ == compat_chars(nfc_chars(s@)),
{
    let nfc = to_nfc_syllable(s);
    to_compat_jamo(nfc.as_str())
}

fn cho_index(cp: u32) -> (r: Option<u32>)
    ensures
        r == (if is_cho_cp(cp) { Some((cp - 0x1100) as u32) } else { None::<u32> }),
{
    if 0x1100 <= cp && cp <= 0x1112 { Some(cp - 0x1100) } else { None }
}

fn jung_index(cp: u32) -> (r: Option<u32>)
    ensures
        r == (if is_jung_cp(cp) { Some((cp - 0x1161) as u32) } else { None::<u32> }),
{
    if 0x1161 <= cp && cp <= 0x1175 { Some(cp - 0x1161) } else { None }
}

/// NFC composition index for a Jong (1..=27).
fn jong_composition_index(cp: u32) -> (r: Option<u32>)
    ensures
        r == (if is_jong_cp(cp) { Some((cp - 0x11A8 + 1) as u32) } else { None::<u32> }),
{
    if 0x11A8 <= cp && cp <= 0x11C2 { Some(cp - 0x11A8 + 1) } else { None }
}

proof fn lemma_syllable_is_char(cho: u32, jung: u32, jong_index: u32)
    requires
        is_cho_cp(cho),
        is_jung_cp(jung),
        jong_index <= 27,
    ensures
        is_char_value(syllable_cp(cho, jung, jong_index)),
        0xAC00 <= syllable_cp(cho, jung, jong_index) <= 0xD7A3,
{
}

/// One step of the NFC scan at position `i`: the syllable code point and
/// the number of characters it consumes, or `None` when `chars[i]` does
/// not start a syllable.
fn nfc_step(chars: &Vec<char>, i: usize) -> (r: Option<(u32, usize)>)
    requires
        i < chars.len(),
    ensures
        ({
            let rest = chars@.skip(i as int);
            match r {
                Some((cp, n)) => {
                    &&& 2 <= n <= 3
                    &&& i + n <= chars.len()
                    &&& is_char_value(cp)
                    &&& nfc_chars(rest) == seq![cp_char(cp)] + nfc_chars(rest.skip(n as int))
                },
                None => nfc_chars(rest) == seq![rest[0]] + nfc_chars(rest.skip(1)),
            }
        }),
{
    let ghost rest = chars@.skip(i as int);
    let cp = chars[i] as u32;
    if let Some(cho_idx) = cho_index(cp) {
        if i + 1 < chars.len() {
            let next = chars[i + 1] as u32;
            if let Some(jung_idx) = jung_index(next) {
                let base = SYLLABLE_BASE + cho_idx * SYLLABLE_STRIDE + jung_idx * JONG_SLOTS;
                if i + 2 < chars.len() {
                    let third = chars[i + 2] as u32;
                    if let Some(jong_comp) = jong_composition_index(third) {
                        proof {
                            lemma_syllable_is_char(cp, next, jong_comp);
                            assert(rest[0] == chars@[i as int]);
                            assert(rest[1] == chars@[i + 1]);
                            assert(rest[2] == chars@[i + 2]);
                        }
                        return Some((base + jong_comp, 3));
                    }
                }
                proof {
                    lemma_syllable_is_char(cp, next, 0);
                    assert(rest[0] == chars@[i as int]);
                    assert(rest[1] == chars@[i + 1]);
                    if rest.len() >= 3 {
                        assert(rest[2] == chars@[i + 2]);
                    }
                }
                return Some((base, 2));
            }
        }
    }
    proof {
        assert(rest[0] == chars@[i as int]);
        if rest.len() >= 2 {
            assert(rest[1] == chars@[i + 1]);
        }
    }
    None
}

/// Convert a conjoining-Jamo string to NFC syllables.
///
/// Runs of `Cho Jung [Jong]` collapse greedily into U+AC00-range
/// syllables; any other character passes through unchanged.
pub fn to_nfc_syllable(s: &str) -> (r: String)
    ensures
        r@ == nfc_chars(s@),
{
    let chars = chars_of(s);
    let mut out = String::new();
    let mut i: usize = 0;
    assert(chars@.skip(0) == chars@);
    while i < chars.len()
        invariant
            i <= chars.len(),
            chars@ == s@,
            out@ + nfc_chars(chars@.skip(i as int)) == nfc_chars(s@),
        decreases chars.len() - i,
    {
        let ghost rest = chars@.skip(i as int);
        let ghost before = out@;
        match nfc_step(&chars, i) {
            Some((cp, n)) => {
                push_cp(&mut out, cp);
                proof {
                    assert(rest.skip(n as int) == chars@.skip(i + n));
                    assert(before.push(cp_char(cp)) + nfc_chars(rest.skip(n as int)) == before
                        + (seq![cp_char(cp)] + nfc_chars(rest.skip(n as int))));
                }
                i = i + n;
            },
            None => {
                string_push(&mut out, chars[i]);
                proof {
                    assert(rest.skip(1) == chars@.skip(i + 1));
                    assert(rest[0] == chars@[i as int]);
                    assert(before.push(rest[0]) + nfc_chars(rest.skip(1)) == before + (seq![rest[0]]
                        + nfc_chars(rest.skip(1))));
                }
                i = i + 1;
            },
        }
    }
    proof {
        assert(chars@.skip(i as int) == Seq::<char>::empty());
        assert(out@ + Seq::<char>::empty() == out@);
    }
    out
}

/// Convert a conjoining-Jamo string to Hangul Compatibility Jamo.
///
/// Conjoining initials and finals of the same letter map to the same
/// compatibility code point. Non-Hangul characters pass through.
pub fn to_compat_jamo(s: &str) -> (r: String)
    ensures
        r@ == compat_chars(s@),
{
    let mut out = String::new();
    for ch in it: s.chars()
        invariant
            out@ == compat_chars(it.seq().take(it.index() as int)),
    {
        let cp = ch as u32;
        let mapped = match conjoining_to_compat(cp) {
            Some(m) => m,
            None => cp,
        };
        proof {
            vstd::utf8::char_u32_cast(ch, cp);
            assert(compat_chars(it.seq().take(it.index() + 1)) =~= compat_chars(
                it.seq().take(it.index() as int),
            ).push(compat_char(ch)));
        }
        push_cp(&mut out, mapped);
    }
    out
}

/// Map a conjoining-Jamo code point to its compatibility counterpart.
fn conjoining_to_compat(cp: u32) -> (r: Option<u32>)
    ensures
        r == spec_conjoining_to_compat(cp),
{
    match cp {
        0x1100 => Some(0x3131),
        0x1101 => Some(0x3132),
        0x1102 => Some(0x3134),
        0x1103 => Some(0x3137),
        0x1104 => Some(0x3138),
        0x1105 => Some(0x3139),
        0x1106 => Some(0x3141),
        0x1107 => Some(0x3142),
        0x1108 => Some(0x3143),
        0x1109 => Some(0x3145),
        0x110A => Some(0x3146),
        0x110B => Some(0x3147),
        0x110C => Some(0x3148),
        0x110D => Some(0x3149),
        0x110E => Some(0x314A),
        0x110F => Some(0x314B),
        0x1110 => Some(0x314C),
        0x1111 => Some(0x314D),
        0x1112 => Some(0x314E),
        0x1161 => Some(0x314F),
        0x1162 => Some(0x3150),
        0x1163 => Some(0x3151),
        0x1164 => Some(0x3152),
        0x1165 => Some(0x3153),
        0x1166 => Some(0x3154),
        0x1167 => Some(0x3155),
        0x1168 => Some(0x3156),
        0x1169 => Some(0x3157),
        0x116A => Some(0x3158),
        0x116B => Some(0x3159),
        0x116C => Some(0x315A),
        0x116D => Some(0x315B),
        0x116E => Some(0x315C),
        0x116F => Some(0x315D),
        0x1170 => Some(0x315E),
        0x1171 => Some(0x315F),
        0x1172 => Some(0x3160),
        0x1173 => Some(0x3161),
        0x1174 => Some(0x3162),
        0x1175 => Some(0x3163),
        0x11A8 => Some(0x3131),
        0x11A9 => Some(0x3132),
        0x11AA => Some(0x3133),
        0x11AB => Some(0x3134),
        0x11AC => Some(0x3135),
        0x11AD => Some(0x3136),
        0x11AE => Some(0x3137),
        0x11AF => Some(0x3139),
        0x11B0 => Some(0x313A),
        0x11B1 => Some(0x313B),
        0x11B2 => Some(0x313C),
        0x11B3 => Some(0x313D),
        0x11B4 => Some(0x313E),
        0x11B5 => Some(0x313F),
        0x11B6 => Some(0x3140),
        0x11B7 => Some(0x3141),
        0x11B8 => Some(0x3142),
        0x11B9 => Some(0x3144),
        0x11BA => Some(0x3145),
        0x11BB => Some(0x3146),
        0x11BC => Some(0x3147),
        0x11BD => Some(0x3148),
        0x11BE => Some(0x314A),
        0x11BF => Some(0x314B),
        0x11C0 => Some(0x314C),
        0x11C1 => Some(0x314D),
        0x11C2 => Some(0x314E),
        _ => None,
    }
}

// ──────────────────────────────── Laws ─────────────────────────────────────

/// A composition holding an initial and a medial (and perhaps a final)
/// renders in NFC as exactly one precomposed syllable.
pub proof fn lemma_syllable_renders_as_one(s: CompositionState)
    requires
        s.wf(),
        s.cho is Some,
        s.jung is Some,
    ensures
        nfc_chars(s.chars()) == seq![
            cp_char(
                syllable_cp(
                    s.cho->0@,
                    s.jung->0@,
                    if s.jong is Some { (s.jong->0@ - 0x11A8 + 1) as u32 } else { 0 },
                ),
            ),
        ],
{
    broadcast use vstd::utf8::char_u32_cast;
    let cs = s.chars();
    let c = s.cho->0@;
    let v = s.jung->0@;
    assert(cp_char(c) as u32 == c) by {
        vstd::utf8::char_u32_cast(c as char, c);
    }
    assert(cp_char(v) as u32 == v) by {
        vstd::utf8::char_u32_cast(v as char, v);
    }
    if s.jong is Some {
        let t = s.jong->0@;
        assert(cp_char(t) as u32 == t) by {
            vstd::utf8::char_u32_cast(t as char, t);
        }
        assert(cs =~= seq![cp_char(c), cp_char(v), cp_char(t)]);
        assert(cs.skip(3) =~= Seq::<char>::empty());
    } else {
        assert(cs =~= seq![cp_char(c), cp_char(v)]);
        assert(cs.skip(2) =~= Seq::<char>::empty());
    }
    reveal_with_fuel(nfc_chars, 2);
}

/// An initial and a medial compose into the syllable
/// `U+AC00 + (c - U+1100) * 588 + (v - U+1161) * 28`, and with a final `t`
/// the syllable further offset by `t - U+11A7`.
pub proof fn lemma_nfc_of_jamo(c: u32, v: u32, t: u32)
    requires
        is_cho_cp(c),
        is_jung_cp(v),
        is_jong_cp(t),
    ensures
        nfc_chars(seq![cp_char(c), cp_char(v)]) == seq![cp_char(
            (0xAC00 + (c - 0x1100) * 588 + (v - 0x1161) * 28) as u32,
        )],
        nfc_chars(seq![cp_char(c), cp_char(v), cp_char(t)]) == seq![cp_char(
            (0xAC00 + (c - 0x1100) * 588 + (v - 0x1161) * 28 + (t - 0x11A7)) as u32,
        )],
{
    vstd::utf8::char_u32_cast(cp_char(c), c);
    vstd::utf8::char_u32_cast(cp_char(v), v);
    vstd::utf8::char_u32_cast(cp_char(t), t);
    assert(is_char_value(c) && is_char_value(v) && is_char_value(t));
    let two = seq![cp_char(c), cp_char(v)];
    let three = seq![cp_char(c), cp_char(v), cp_char(t)];
    assert(char_cp(two[0]) == c && char_cp(two[1]) == v);
    assert(char_cp(three[0]) == c && char_cp(three[1]) == v && char_cp(three[2]) == t);
    assert(two.skip(2) =~= Seq::<char>::empty());
    assert(three.skip(3) =~= Seq::<char>::empty());
    assert(nfc_chars(Seq::<char>::empty()) == Seq::<char>::empty());
    assert(seq![cp_char(syllable_cp(c, v, 0))] + Seq::<char>::empty() =~= seq![cp_char(syllable_cp(c, v, 0))]);
    assert(seq![cp_char(syllable_cp(c, v, (t - 0x11A8 + 1) as u32))] + Seq::<char>::empty()
        =~= seq![cp_char(syllable_cp(c, v, (t - 0x11A8 + 1) as u32))]);
}

/// No conjoining initial is directly followed by a conjoining medial.
pub open spec fn no_open_syllable(s: Seq<char>) -> bool {
    forall|i: int|
        0 <= i < s.len() - 1 ==> !(is_cho_cp(#[trigger] char_cp(s[i])) && is_jung_cp(char_cp(s[i + 1])))
}

/// Text in which no initial is followed by a medial passes through NFC
/// conversion unchanged.
proof fn lemma_nfc_keeps_closed_text(s: Seq<char>)
    requires
        no_open_syllable(s),
    ensures
        nfc_chars(s) == s,
    decreases s.len(),
{
    if s.len() > 0 {
        if s.len() >= 2 {
            assert(!(is_cho_cp(char_cp(s[0int])) && is_jung_cp(char_cp(s[0int + 1]))));
        }
        let r = s.skip(1);
        assert forall|i: int| 0 <= i < r.len() - 1 implies !(is_cho_cp(#[trigger] char_cp(r[i]))
            && is_jung_cp(char_cp(r[i + 1]))) by {
            assert(r[i] == s[i + 1] && r[i + 1] == s[i + 2]);
            assert(!(is_cho_cp(char_cp(s[i + 1])) && is_jung_cp(char_cp(s[(i + 1) + 1]))));
        }
        lemma_nfc_keeps_closed_text(r);
        assert(seq![s[0]] + r =~= s);
    }
}

/// A precomposed syllable is neither an initial nor a medial.
proof fn lemma_syllable_is_not_jamo(cho: u32, jung: u32, jong_index: u32)
    requires
        is_cho_cp(cho),
        is_jung_cp(jung),
        jong_index <= 27,
    ensures
        0xAC00 <= char_cp(cp_char(syllable_cp(cho, jung, jong_index))) <= 0xD7A3,
{
    let cp = syllable_cp(cho, jung, jong_index);
    assert(0xAC00 <= cp <= 0xD7A3) by (nonlinear_arith)
        requires
            cp == (0xAC00 + (cho - 0x1100) * 588 + (jung - 0x1161) * 28 + jong_index) as u32,
            0x1100 <= cho <= 0x1112,
            0x1161 <= jung <= 0x1175,
            jong_index <= 27,
    ;
    assert(is_char_value(cp));
    vstd::utf8::char_u32_cast(cp_char(cp), cp);
}

/// The first character of the NFC form is the first character of the
/// text or a precomposed syllable.
proof fn lemma_nfc_head(s: Seq<char>)
    requires
        s.len() > 0,
    ensures
        nfc_chars(s).len() > 0,
        nfc_chars(s)[0] == s[0] || 0xAC00 <= char_cp(nfc_chars(s)[0]) <= 0xD7A3,
{
    if s.len() >= 2 && is_cho_cp(char_cp(s[0])) && is_jung_cp(char_cp(s[1])) {
        if s.len() >= 3 && is_jong_cp(char_cp(s[2])) {
            lemma_syllable_is_not_jamo(char_cp(s[0]), char_cp(s[1]), (char_cp(s[2]) - 0x11A8 + 1) as u32);
        } else {
            lemma_syllable_is_not_jamo(char_cp(s[0]), char_cp(s[1]), 0);
        }
    }
}

/// NFC output never has an initial directly followed by a medial.
proof fn lemma_nfc_is_closed(s: Seq<char>)
    ensures
        no_open_syllable(nfc_chars(s)),
    decreases s.len(),
{
    if s.len() > 0 {
        let k: int = if s.len() >= 2 && is_cho_cp(char_cp(s[0])) && is_jung_cp(char_cp(s[1])) {
            if s.len() >= 3 && is_jong_cp(char_cp(s[2])) { 3 } else { 2 }
        } else {
            1
        };
        let rest = s.skip(k);
        lemma_nfc_is_closed(rest);
        lemma_nfc_head(s);
        let out = nfc_chars(s);
        let tail = nfc_chars(rest);
        assert(out == seq![out[0]] + tail);
        if tail.len() > 0 {
            lemma_nfc_head(rest);
        }
        assert forall|i: int| 0 <= i < out.len() - 1 implies !(is_cho_cp(#[trigger] char_cp(out[i]))
            && is_jung_cp(char_cp(out[i + 1]))) by {
            if i == 0 {
                assert(out[1] == tail[0]);
                if k == 1 && tail[0] == rest[0] {
                    assert(rest[0] == s[1]);
                }
            } else {
                assert(out[i] == tail[i - 1] && out[i + 1] == tail[(i - 1) + 1]);
            }
        }
    }
}

/// Composing twice is composing once: the NFC form of NFC text is the
/// same text.
pub proof fn lemma_nfc_idempotent(s: Seq<char>)
    ensures
        nfc_chars(nfc_chars(s)) == nfc_chars(s),
{
    lemma_nfc_is_closed(s);
    lemma_nfc_keeps_closed_text(nfc_chars(s));
}

/// Characters that are neither conjoining jamo (U+1100..=U+11FF) nor
/// precomposed syllables (U+AC00..=U+D7A3), in order.
pub open spec fn non_hangul(s: Seq<char>) -> Seq<char>
    decreases s.len(),
{
    if s.len() == 0 {
        Seq::empty()
    } else if (0x1100 <= char_cp(s[0]) <= 0x11FF) || (0xAC00 <= char_cp(s[0]) <= 0xD7A3) {
        non_hangul(s.skip(1))
    } else {
        seq![s[0]] + non_hangul(s.skip(1))
    }
}

/// NFC conversion keeps every other character, in order: only jamo are
/// turned into syllables.
pub proof fn lemma_nfc_keeps_other_text(s: Seq<char>)
    ensures
        non_hangul(nfc_chars(s)) == non_hangul(s),
    decreases s.len(),
{
    if s.len() > 0 {
        lemma_nfc_head(s);
        let out = nfc_chars(s);
        if s.len() >= 2 && is_cho_cp(char_cp(s[0])) && is_jung_cp(char_cp(s[1])) {
            let k: int = if s.len() >= 3 && is_jong_cp(char_cp(s[2])) { 3 } else { 2 };
            lemma_nfc_keeps_other_text(s.skip(k));
            assert(out.skip(1) =~= nfc_chars(s.skip(k)));
            assert(non_hangul(out) == non_hangul(out.skip(1)));
            let s1 = s.skip(1);
            let s2 = s.skip(2);
            assert(s1[0] == s[1]);
            assert(s1.skip(1) =~= s2);
            assert(non_hangul(s) == non_hangul(s1));
            assert(non_hangul(s1) == non_hangul(s2));
            if k == 3 {
                assert(s2[0] == s[2]);
                assert(s2.skip(1) =~= s.skip(3));
                assert(non_hangul(s2) == non_hangul(s.skip(3)));
            }
        } else {
            lemma_nfc_keeps_other_text(s.skip(1));
            assert(out[0] == s[0]);
            assert(out.skip(1) =~= nfc_chars(s.skip(1)));
        }
    }
}

/// Text with no conjoining initial consonant passes through NFC
/// conversion unchanged.
pub proof fn lemma_nfc_keeps_text_without_initials(s: Seq<char>)
    requires
        forall|i: int| 0 <= i < s.len() ==> !is_cho_cp(#[trigger] char_cp(s[i])),
    ensures
        nfc_chars(s) == s,
    decreases s.len(),
{
    if s.len() > 0 {
        assert(!is_cho_cp(char_cp(s[0])));
        let r = s.skip(1);
        assert forall|i: int| 0 <= i < r.len() implies !is_cho_cp(#[trigger] char_cp(r[i])) by {
            assert(r[i] == s[i + 1]);
        }
        lemma_nfc_keeps_text_without_initials(r);
        assert(seq![s[0]] + r =~= s);
    }
}

} // verus!
