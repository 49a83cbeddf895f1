//! One editor input session: a Hangul layout, a Latin layout, the Hangul
//! state machine and the abbreviation engine observing the commit stream.
//!
//! The host drives a session key by key. Each call decides what the
//! editor should do (text to commit, preedit to show, characters to roll
//! back, suggestions to display) and reports the side effects the host
//! performs itself: persisting settings, and remembering when the last
//! Jamo key arrived (two Jamo keys close together form a chord).
use vstd::prelude::*;
use crate::abbr::dict::starter_dict;
use crate::abbr::engine::{
    suggestion_views, AbbrEvent, AbbrEventView, AbbreviationEngine, EngineView, Suggestion,
    SuggestionView,
};
use crate::abbr::model::{AbbrView, Abbreviation, Trigger, TriggerEvent, TriggerView};
use crate::hangul::fsm::{empty_state, ComposeMode, EventView, FeedOptions, FsmEvent, FsmModel, HangulFsm};
use crate::hangul::output::{
    compat_chars, nfc_chars, render_chars, to_compat_jamo, to_display_text, to_nfc_syllable,
    OutputForm,
};
use crate::layout::dubeolsik::{dubeolsik_output, Dubeolsik};
use crate::layout::key::{code_name, key_name, key_named, keycode_from_name, KeyCode, KeyEvent, Modifiers};
use crate::layout::latin::{latin_output, spec_dvorak_char, spec_qwerty_char, Dvorak, Qwerty};
use crate::layout::sebeolsik::{sebeolsik_output, Sebeolsik390};
use crate::layout::sebeolsik_final::{sebeolsik_final_output, SebeolsikFinal};
use crate::layout::{Layout, LayoutKind, LayoutOutput};
use crate::hangul::jamo::JamoInput;
use crate::text::{chars_of, char_from_u32, push_str, str_eq, string_of, string_push};

verus! {

// ───────────────────────────── Input mode ─────────────────────────────

/// Whether the user is typing Hangul through the IME or English through
/// a plain Latin layout.
#[derive(Copy, Clone, Debug, PartialEq, Eq, Structural)]
pub enum InputMode {
    /// Hangul composition.
    Hangul,
    /// Latin passthrough.
    English,
}

/// The other input mode.
pub open spec fn spec_toggled(m: InputMode) -> InputMode {
    match m {
        InputMode::Hangul => InputMode::English,
        InputMode::English => InputMode::Hangul,
    }
}

/// The name of an input mode (`hangul` / `english`).
pub open spec fn mode_text(m: InputMode) -> Seq<char> {
    match m {
        InputMode::Hangul => "hangul"@,
        InputMode::English => "english"@,
    }
}

/// The input mode called `s`.
pub open spec fn input_mode_named(s: Seq<char>) -> Option<InputMode> {
    if s == "hangul"@ {
        Some(InputMode::Hangul)
    } else if s == "english"@ {
        Some(InputMode::English)
    } else {
        None
    }
}

impl InputMode {
    /// The other mode.
    pub fn toggled(self) -> (r: Self)
        ensures
            r == spec_toggled(self),
    {
        match self {
            Self::Hangul => Self::English,
            Self::English => Self::Hangul,
        }
    }

    /// The mode's name.
    pub fn as_str(self) -> (r: &'static str)
        ensures
            r@ == mode_text(self),
    {
        match self {
            Self::Hangul => "hangul",
            Self::English => "english",
        }
    }

    /// The mode called `s`, if any.
    pub fn parse(s: &str) -> (r: Option<Self>)
        ensures
            r == input_mode_named(s@),
    {
        if str_eq(s, "hangul") {
            Some(Self::Hangul)
        } else if str_eq(s, "english") {
            Some(Self::English)
        } else {
            None
        }
    }
}

// ───────────────────────────── Layouts ────────────────────────────────

/// A layout that hands every key to the operating system's own input
/// method: choosing it tells the host to stop intercepting keys.
#[derive(Copy, Clone, Debug, Default)]
pub struct OsImePassthrough;

impl Layout for OsImePassthrough {
    fn id(&self) -> (r: &'static str)
        ensures
            r@ == "os-ime"@,
    {
        "os-ime"
    }

    fn name(&self) -> (r: &'static str)
        ensures
            r@ == "OS IME (시스템)"@,
    {
        "OS IME (시스템)"
    }

    fn kind(&self) -> (r: LayoutKind)
        ensures
            r == LayoutKind::Custom,
    {
        LayoutKind::Custom
    }

    fn map(&self, ev: &KeyEvent) -> (out: LayoutOutput)
        ensures
            out == LayoutOutput::Passthrough,
    {
        LayoutOutput::Passthrough
    }

    fn supports_moachigi(&self) -> (r: bool)
        ensures
            !r,
    {
        false
    }
}

/// The Hangul layouts a session can use.
#[derive(Copy, Clone, Debug, PartialEq, Eq, Structural)]
pub enum HangulLayoutId {
    /// 두벌식 표준.
    Dubeolsik,
    /// 세벌식 390.
    Sebeolsik390,
    /// 세벌식 최종.
    SebeolsikFinal,
    /// The operating system's own IME.
    OsIme,
}

/// The Latin layouts a session can use.
#[derive(Copy, Clone, Debug, PartialEq, Eq, Structural)]
pub enum LatinLayoutId {
    /// US QWERTY.
    Qwerty,
    /// Dvorak.
    Dvorak,
}

/// The configuration name of a Hangul layout.
pub open spec fn hangul_id_text(id: HangulLayoutId) -> Seq<char> {
    match id {
        HangulLayoutId::Dubeolsik => "dubeolsik-std"@,
        HangulLayoutId::Sebeolsik390 => "sebeolsik-390"@,
        HangulLayoutId::SebeolsikFinal => "sebeolsik-final"@,
        HangulLayoutId::OsIme => "os-ime"@,
    }
}

/// The display name of a Hangul layout.
pub open spec fn hangul_name_text(id: HangulLayoutId) -> Seq<char> {
    match id {
        HangulLayoutId::Dubeolsik => "두벌식 표준 (KS X 5002)"@,
        HangulLayoutId::Sebeolsik390 => "세벌식 390"@,
        HangulLayoutId::SebeolsikFinal => "세벌식 최종"@,
        HangulLayoutId::OsIme => "OS IME (시스템)"@,
    }
}

/// Whether a Hangul layout supports order-independent input: the
/// three-set layouts do.
pub open spec fn hangul_moachigi(id: HangulLayoutId) -> bool {
    id == HangulLayoutId::Sebeolsik390 || id == HangulLayoutId::SebeolsikFinal
}

/// The configuration name of a Latin layout.
pub open spec fn latin_id_text(id: LatinLayoutId) -> Seq<char> {
    match id {
        LatinLayoutId::Qwerty => "qwerty-us"@,
        LatinLayoutId::Dvorak => "dvorak"@,
    }
}

/// The display name of a Latin layout.
pub open spec fn latin_name_text(id: LatinLayoutId) -> Seq<char> {
    match id {
        LatinLayoutId::Qwerty => "QWERTY (US)"@,
        LatinLayoutId::Dvorak => "Dvorak"@,
    }
}

/// The Hangul layout configured under `s`.
pub open spec fn hangul_layout_named(s: Seq<char>) -> Option<HangulLayoutId> {
    if s == "dubeolsik-std"@ {
        Some(HangulLayoutId::Dubeolsik)
    } else if s == "sebeolsik-390"@ {
        Some(HangulLayoutId::Sebeolsik390)
    } else if s == "sebeolsik-final"@ {
        Some(HangulLayoutId::SebeolsikFinal)
    } else if s == "os-ime"@ {
        Some(HangulLayoutId::OsIme)
    } else {
        None
    }
}

/// The Latin layout configured under `s`.
pub open spec fn latin_layout_named(s: Seq<char>) -> Option<LatinLayoutId> {
    if s == "qwerty-us"@ {
        Some(LatinLayoutId::Qwerty)
    } else if s == "dvorak"@ {
        Some(LatinLayoutId::Dvorak)
    } else {
        None
    }
}

/// What a Hangul layout produces for `ev`.
pub open spec fn hangul_map(id: HangulLayoutId, ev: KeyEvent) -> LayoutOutput {
    match id {
        HangulLayoutId::Dubeolsik => dubeolsik_output(ev),
        HangulLayoutId::Sebeolsik390 => sebeolsik_output(ev),
        HangulLayoutId::SebeolsikFinal => sebeolsik_final_output(ev),
        HangulLayoutId::OsIme => LayoutOutput::Passthrough,
    }
}

/// What a Latin layout produces for `ev`.
pub open spec fn latin_map(id: LatinLayoutId, ev: KeyEvent) -> LayoutOutput {
    match id {
        LatinLayoutId::Qwerty => latin_output(ev, spec_qwerty_char(ev.code, ev.mods.shift)),
        LatinLayoutId::Dvorak => latin_output(ev, spec_dvorak_char(ev.code, ev.mods.shift)),
    }
}

/// The Hangul layout configured under `id`, if any.
pub fn make_hangul_layout(id: &str) -> (r: Option<HangulLayoutId>)
    ensures
        r == hangul_layout_named(id@),
{
    if str_eq(id, "dubeolsik-std") {
        Some(HangulLayoutId::Dubeolsik)
    } else if str_eq(id, "sebeolsik-390") {
        Some(HangulLayoutId::Sebeolsik390)
    } else if str_eq(id, "sebeolsik-final") {
        Some(HangulLayoutId::SebeolsikFinal)
    } else if str_eq(id, "os-ime") {
        Some(HangulLayoutId::OsIme)
    } else {
        None
    }
}

/// The Latin layout configured under `id`, if any.
pub fn make_latin_layout(id: &str) -> (r: Option<LatinLayoutId>)
    ensures
        r == latin_layout_named(id@),
{
    if str_eq(id, "qwerty-us") {
        Some(LatinLayoutId::Qwerty)
    } else if str_eq(id, "dvorak") {
        Some(LatinLayoutId::Dvorak)
    } else {
        None
    }
}

impl HangulLayoutId {
    /// The layout's configuration name.
    pub fn id(self) -> (r: &'static str)
        ensures
            r@ == hangul_id_text(self),
    {
        match self {
            HangulLayoutId::Dubeolsik => Dubeolsik.id(),
            HangulLayoutId::Sebeolsik390 => Sebeolsik390.id(),
            HangulLayoutId::SebeolsikFinal => SebeolsikFinal.id(),
            HangulLayoutId::OsIme => OsImePassthrough.id(),
        }
    }

    /// The layout's display name.
    pub fn name(self) -> (r: &'static str)
        ensures
            r@ == hangul_name_text(self),
    {
        match self {
            HangulLayoutId::Dubeolsik => Dubeolsik.name(),
            HangulLayoutId::Sebeolsik390 => Sebeolsik390.name(),
            HangulLayoutId::SebeolsikFinal => SebeolsikFinal.name(),
            HangulLayoutId::OsIme => OsImePassthrough.name(),
        }
    }

    /// Whether the layout supports order-independent input.
    pub fn supports_moachigi(self) -> (r: bool)
        ensures
            r == hangul_moachigi(self),
    {
        match self {
            HangulLayoutId::Dubeolsik => Dubeolsik.supports_moachigi(),
            HangulLayoutId::Sebeolsik390 => Sebeolsik390.supports_moachigi(),
            HangulLayoutId::SebeolsikFinal => SebeolsikFinal.supports_moachigi(),
            HangulLayoutId::OsIme => OsImePassthrough.supports_moachigi(),
        }
    }

    /// What the layout produces for `ev`.
    pub fn map(self, ev: &KeyEvent) -> (out: LayoutOutput)
        ensures
            out == hangul_map(self, *ev),
            out.wf(),
    {
        match self {
            HangulLayoutId::Dubeolsik => Dubeolsik.map(ev),
            HangulLayoutId::Sebeolsik390 => Sebeolsik390.map(ev),
            HangulLayoutId::SebeolsikFinal => SebeolsikFinal.map(ev),
            HangulLayoutId::OsIme => OsImePassthrough.map(ev),
        }
    }
}

impl LatinLayoutId {
    /// The layout's configuration name.
    pub fn id(self) -> (r: &'static str)
        ensures
            r@ == latin_id_text(self),
    {
        match self {
            LatinLayoutId::Qwerty => Qwerty.id(),
            LatinLayoutId::Dvorak => Dvorak.id(),
        }
    }

    /// The layout's display name.
    pub fn name(self) -> (r: &'static str)
        ensures
            r@ == latin_name_text(self),
    {
        match self {
            LatinLayoutId::Qwerty => Qwerty.name(),
            LatinLayoutId::Dvorak => Dvorak.name(),
        }
    }

    /// What the layout produces for `ev`.
    pub fn map(self, ev: &KeyEvent) -> (out: LayoutOutput)
        ensures
            out == latin_map(self, *ev),
            out.wf(),
    {
        match self {
            LatinLayoutId::Qwerty => Qwerty.map(ev),
            LatinLayoutId::Dvorak => Dvorak.map(ev),
        }
    }
}

// ──────────────────────────── Names ───────────────────────────────────

/// The configuration name of an output form.
pub open spec fn form_text(f: OutputForm) -> Seq<char> {
    match f {
        OutputForm::NfcSyllable => "nfc"@,
        OutputForm::JamoConjoining => "conjoining"@,
        OutputForm::JamoCompat => "compat"@,
    }
}

/// The output form configured under `s`.
pub open spec fn output_form_named(s: Seq<char>) -> Option<OutputForm> {
    if s == "nfc"@ {
        Some(OutputForm::NfcSyllable)
    } else if s == "conjoining"@ {
        Some(OutputForm::JamoConjoining)
    } else if s == "compat"@ {
        Some(OutputForm::JamoCompat)
    } else {
        None
    }
}

/// The configuration name of a compose mode.
pub open spec fn compose_text(m: ComposeMode) -> Seq<char> {
    match m {
        ComposeMode::Sequential => "sequential"@,
        ComposeMode::Moachigi => "moachigi"@,
    }
}

/// The compose mode configured under `s`.
pub open spec fn compose_mode_named(s: Seq<char>) -> Option<ComposeMode> {
    if s == "sequential"@ {
        Some(ComposeMode::Sequential)
    } else if s == "moachigi"@ {
        Some(ComposeMode::Moachigi)
    } else {
        None
    }
}

/// The configuration name of a trigger event.
pub open spec fn event_text(ev: TriggerEvent) -> Seq<char> {
    match ev {
        TriggerEvent::Immediate => "immediate"@,
        TriggerEvent::Space => "space"@,
        TriggerEvent::Enter => "enter"@,
        TriggerEvent::Punctuation => "punctuation"@,
        TriggerEvent::JongCompletion => "jong_completion"@,
        TriggerEvent::Explicit => "explicit"@,
    }
}

/// The configuration name of a trigger's kind.
pub open spec fn kind_text(t: TriggerView) -> Seq<char> {
    match t {
        TriggerView::ChoSeq(_) => "cho_seq"@,
        TriggerView::Literal(_) => "literal"@,
        TriggerView::Ending(_) => "ending"@,
    }
}

/// The configuration name of an output form.
pub fn form_name(f: OutputForm) -> (r: &'static str)
    ensures
        r@ == form_text(f),
{
    match f {
        OutputForm::NfcSyllable => "nfc",
        OutputForm::JamoConjoining => "conjoining",
        OutputForm::JamoCompat => "compat",
    }
}

/// The output form configured under `name`, if any.
pub fn parse_output_form(name: &str) -> (r: Option<OutputForm>)
    ensures
        r == output_form_named(name@),
{
    if str_eq(name, "nfc") {
        Some(OutputForm::NfcSyllable)
    } else if str_eq(name, "conjoining") {
        Some(OutputForm::JamoConjoining)
    } else if str_eq(name, "compat") {
        Some(OutputForm::JamoCompat)
    } else {
        None
    }
}

/// The configuration name of a compose mode.
pub fn mode_name(m: ComposeMode) -> (r: &'static str)
    ensures
        r@ == compose_text(m),
{
    match m {
        ComposeMode::Sequential => "sequential",
        ComposeMode::Moachigi => "moachigi",
    }
}

/// The compose mode configured under `name`, if any.
pub fn parse_compose_mode(name: &str) -> (r: Option<ComposeMode>)
    ensures
        r == compose_mode_named(name@),
{
    if str_eq(name, "sequential") {
        Some(ComposeMode::Sequential)
    } else if str_eq(name, "moachigi") {
        Some(ComposeMode::Moachigi)
    } else {
        None
    }
}

/// The configuration name of a trigger event.
pub fn trigger_event_name(ev: TriggerEvent) -> (r: &'static str)
    ensures
        r@ == event_text(ev),
{
    match ev {
        TriggerEvent::Immediate => "immediate",
        TriggerEvent::Space => "space",
        TriggerEvent::Enter => "enter",
        TriggerEvent::Punctuation => "punctuation",
        TriggerEvent::JongCompletion => "jong_completion",
        TriggerEvent::Explicit => "explicit",
    }
}

/// The configuration name of a trigger's kind.
pub fn kind_label(t: &Trigger) -> (r: &'static str)
    ensures
        r@ == kind_text(t@),
{
    match t {
        Trigger::ChoSeq(_) => "cho_seq",
        Trigger::Literal(_) => "literal",
        Trigger::Ending(_) => "ending",
    }
}

/// Whether a `KeyboardEvent.code` names a modifier key pressed alone.
pub open spec fn is_modifier_name(code: Seq<char>) -> bool {
    ||| code == "ShiftLeft"@
    ||| code == "ShiftRight"@
    ||| code == "ControlLeft"@
    ||| code == "ControlRight"@
    ||| code == "AltLeft"@
    ||| code == "AltRight"@
    ||| code == "MetaLeft"@
    ||| code == "MetaRight"@
    ||| code == "OSLeft"@
    ||| code == "OSRight"@
    ||| code == "ContextMenu"@
}

/// Whether a `KeyboardEvent.code` names a modifier key pressed alone.
pub fn is_modifier_code(code: &str) -> (r: bool)
    ensures
        r == is_modifier_name(code@),
{
    str_eq(code, "ShiftLeft") || str_eq(code, "ShiftRight") || str_eq(code, "ControlLeft")
        || str_eq(code, "ControlRight") || str_eq(code, "AltLeft") || str_eq(code, "AltRight")
        || str_eq(code, "MetaLeft") || str_eq(code, "MetaRight") || str_eq(code, "OSLeft")
        || str_eq(code, "OSRight") || str_eq(code, "ContextMenu")
}

// ─────────────────────── Dictionary selection ─────────────────────────

/// The entries of `s` whose trigger is a Cho run.
pub open spec fn cho_entries(s: Seq<Abbreviation>) -> Seq<Abbreviation> {
    s.filter(|a: Abbreviation| a.trigger@ is ChoSeq)
}

/// Keep only the Cho-run abbreviations: syllable (literal) and ending
/// matches invite surprising expansions, so the session does not load
/// them even when a dictionary holds them.
pub fn cho_only(v: Vec<Abbreviation>) -> (r: Vec<Abbreviation>)
    ensures
        r@ == cho_entries(v@),
{
    let ghost vs = v@;
    let mut out: Vec<Abbreviation> = Vec::new();
    let mut rest = v;
    let mut taken: Vec<Abbreviation> = Vec::new();
    // Move the entries out back to front, then put them back in order.
    while rest.len() > 0
        invariant
            vs == rest@ + taken@.reverse(),
        decreases rest@.len(),
    {
        let a = rest.pop().unwrap();
        proof {
            assert(rest@.push(a) + taken@.reverse() =~= rest@ + taken@.push(a).reverse());
        }
        taken.push(a);
    }
    assert(vs =~= taken@.reverse());
    let ghost all = taken@;
    while taken.len() > 0
        invariant
            vs == all.reverse(),
            taken@.len() <= all.len(),
            taken@ == all.take(taken@.len() as int),
            out@ == cho_entries(all.skip(taken@.len() as int).reverse()),
        decreases taken@.len(),
    {
        let ghost n = taken@.len();
        let ghost before = taken@;
        let a = taken.pop().unwrap();
        proof {
            assert(a == before[n - 1]);
            assert(a == all[n - 1]);
            assert(taken@ =~= all.take(n - 1));
            assert(all.skip(n - 1).reverse() =~= all.skip(n as int).reverse().push(a));
            assert(all.skip(n - 1).reverse().drop_last() =~= all.skip(n as int).reverse());
            reveal(Seq::filter);
        }
        match &a.trigger {
            Trigger::ChoSeq(_) => {
                out.push(a);
            },
            _ => {},
        }
    }
    assert(all.skip(0) =~= all);
    out
}

/// Two Jamo keys at most this many nanoseconds apart count as one
/// order-independent chord (50 ms).
pub const MOACHIGI_CHORD_WINDOW_NANOS: u64 = 50_000_000;

/// Whether a Jamo key belongs to the same chord as the previous Jamo key,
/// given the time since that key (`None` when there was none): it does
/// when at most [`MOACHIGI_CHORD_WINDOW_NANOS`] have passed.
pub fn within_chord(since_last_jamo_nanos: Option<u64>) -> (r: bool)
    ensures
        r == (since_last_jamo_nanos matches Some(d) && d <= MOACHIGI_CHORD_WINDOW_NANOS),
{
    match since_last_jamo_nanos {
        Some(d) => d <= MOACHIGI_CHORD_WINDOW_NANOS,
        None => false,
    }
}

/// The session's dictionary: the Cho-run entries of the starter set.
/// User and learned dictionaries stay on disk and are not loaded.
pub open spec fn session_entries() -> Seq<AbbrView> {
    crate::abbr::dict::starter_entries().filter(|a: AbbrView| a.trigger is ChoSeq)
}

/// The session's dictionary (see [`session_entries`]).
pub fn build_merged_abbrs() -> (r: Vec<Abbreviation>)
    ensures
        crate::abbr::loader::abbr_views(r@) == session_entries(),
        forall|i: int| 0 <= i < r@.len() ==> (#[trigger] r@[i]).trigger@ is ChoSeq,
{
    let ghost all: Seq<Abbreviation>;
    let d = starter_dict();
    proof {
        all = d@;
    }
    let v = cho_only(d);
    proof {
        assert forall|i: int| 0 <= i < v@.len() implies (#[trigger] v@[i]).trigger@ is ChoSeq by {
            all.lemma_filter_pred(|a: Abbreviation| a.trigger@ is ChoSeq, i);
        }
        vstd::seq_lib::lemma_filter_view_commute(
            all,
            |a: Abbreviation| a.trigger@ is ChoSeq,
            |a: AbbrView| a.trigger is ChoSeq,
        );
    }
    v
}

} // verus!

verus! {

// ───────────────────────────── Responses ──────────────────────────────

/// Maximum number of suggestions handed to the host.
pub const MAX_SUGGESTIONS: usize = 8;

/// What the host should do after a session call.
#[derive(Debug)]
pub struct ImeResponse {
    /// Composing text, for display.
    pub preedit: String,
    /// Newly committed text (may be empty).
    pub commit: String,
    /// `true` if the key was not handled by the IME (the editor handles it).
    pub passthrough: bool,
    /// A literal character to follow the commit (for Space, Enter, Latin
    /// keys).
    pub emitted_char: Option<String>,
    /// Characters to remove from the end of the committed buffer before
    /// appending `commit` / `emitted_char` (an expansion replaces its
    /// typed trigger).
    pub rollback_chars: usize,
    /// Identifier of the abbreviation that just fired, if any.
    pub abbr_fired: Option<String>,
    /// Input mode after processing (`hangul` / `english`).
    pub input_mode: &'static str,
    /// Abbreviation candidates for the current tail, best first.
    pub suggestions: Vec<Suggestion>,
}

/// The mathematical content of an [`ImeResponse`].
pub struct ResponseView {
    pub preedit: Seq<char>,
    pub commit: Seq<char>,
    pub passthrough: bool,
    pub emitted_char: Option<Seq<char>>,
    pub rollback_chars: nat,
    pub abbr_fired: Option<Seq<char>>,
    pub input_mode: Seq<char>,
    pub suggestions: Seq<SuggestionView>,
}

/// The view of an optional string.
pub open spec fn opt_text(o: Option<String>) -> Option<Seq<char>> {
    match o {
        Some(s) => Some(s@),
        None => None,
    }
}

impl View for ImeResponse {
    type V = ResponseView;

    open spec fn view(&self) -> ResponseView {
        ResponseView {
            preedit: self.preedit@,
            commit: self.commit@,
            passthrough: self.passthrough,
            emitted_char: opt_text(self.emitted_char),
            rollback_chars: self.rollback_chars as nat,
            abbr_fired: opt_text(self.abbr_fired),
            input_mode: self.input_mode@,
            suggestions: suggestion_views(self.suggestions@),
        }
    }
}

/// Side effects the host performs after a key.
#[derive(Copy, Clone, Debug, PartialEq, Eq, Structural)]
pub struct KeyEffects {
    /// The settings changed and should be saved.
    pub persist: bool,
    /// A Jamo key was fed to the state machine: the host records the time
    /// to recognise the next key as part of the same chord.
    pub fed_jamo: bool,
}

/// `a - b`, or 0 when `b` exceeds `a`.
pub open spec fn sat_sub(a: nat, b: nat) -> nat {
    if a > b { (a - b) as nat } else { 0 }
}

// ───────────────────────────── Session model ──────────────────────────

/// The state of an [`ImeSession`].
pub struct SessionView {
    pub hangul: HangulLayoutId,
    pub latin: LatinLayoutId,
    pub mode: InputMode,
    pub fsm: FsmModel,
    pub form: OutputForm,
    pub abbr: EngineView,
    pub suggestions_enabled: bool,
    pub backspace_mode: Seq<char>,
    pub use_user_abbrs: bool,
}

impl SessionView {
    /// The state machine's and the engine's invariants hold, and
    /// Backspace is syllable-wise or jamo-wise.
    pub open spec fn wf(self) -> bool {
        &&& self.fsm.wf()
        &&& self.abbr.wf()
        &&& (self.backspace_mode == "syllable"@ || self.backspace_mode == "jamo"@)
    }

    /// What the active layout produces for `ev`.
    pub open spec fn active_map(self, ev: KeyEvent) -> LayoutOutput {
        match self.mode {
            InputMode::Hangul => hangul_map(self.hangul, ev),
            InputMode::English => latin_map(self.latin, ev),
        }
    }

    /// The preedit as displayed: NFC syllables, leftover jamo in
    /// compatibility form; nothing while not composing.
    pub open spec fn preedit_display(self) -> Seq<char> {
        let p = self.fsm.state.chars();
        if p.len() == 0 {
            Seq::empty()
        } else {
            compat_chars(nfc_chars(p))
        }
    }

    /// The suggestions handed to the host: none when the picker is off,
    /// else the first [`MAX_SUGGESTIONS`] candidates.
    pub open spec fn suggestions(self) -> Seq<SuggestionView> {
        if !self.suggestions_enabled {
            Seq::empty()
        } else {
            let c = self.abbr.candidates();
            if c.len() <= MAX_SUGGESTIONS {
                c
            } else {
                c.take(MAX_SUGGESTIONS as int)
            }
        }
    }

    /// A response committing `commit`, with the current preedit, mode and
    /// suggestions.
    pub open spec fn respond(self, commit: Seq<char>, passthrough: bool, emitted: Option<Seq<char>>) -> ResponseView {
        ResponseView {
            preedit: self.preedit_display(),
            commit,
            passthrough,
            emitted_char: emitted,
            rollback_chars: 0,
            abbr_fired: None,
            input_mode: mode_text(self.mode),
            suggestions: self.suggestions(),
        }
    }

    /// A response carrying only the mode and suggestions.
    pub open spec fn status(self, passthrough: bool) -> ResponseView {
        ResponseView {
            preedit: Seq::empty(),
            commit: Seq::empty(),
            passthrough,
            emitted_char: None,
            rollback_chars: 0,
            abbr_fired: None,
            input_mode: mode_text(self.mode),
            suggestions: self.suggestions(),
        }
    }

    /// The response for a step that committed `rendered` and produced the
    /// engine event `ev`: an expansion replaces the commit with its body,
    /// and the part of its rollback covered by this step's own commit is
    /// not asked of the host.
    pub open spec fn finalize(self, rendered: Seq<char>, passthrough: bool, emitted: Option<Seq<char>>, ev: AbbrEventView) -> ResponseView {
        match ev {
            AbbrEventView::Expand { abbr_id, rollback_chars, insert } => ResponseView {
                commit: insert,
                rollback_chars: sat_sub(rollback_chars, rendered.len()),
                abbr_fired: Some(abbr_id),
                ..self.respond(rendered, passthrough, emitted)
            },
            _ => self.respond(rendered, passthrough, emitted),
        }
    }

    /// The response for Space / Enter, whose key also emits a character:
    /// like [`SessionView::finalize`], always passing the key through.
    pub open spec fn settle(self, flushed: Seq<char>, default_emit: Seq<char>, ev: AbbrEventView, post_emit: Seq<char>) -> ResponseView {
        match ev {
            AbbrEventView::Expand { abbr_id, rollback_chars, insert } => ResponseView {
                commit: insert,
                emitted_char: Some(post_emit),
                rollback_chars: sat_sub(rollback_chars, flushed.len()),
                abbr_fired: Some(abbr_id),
                ..self.respond(flushed, true, Some(default_emit))
            },
            _ => self.respond(flushed, true, Some(default_emit)),
        }
    }

    /// Flush the composition: its text (in NFC) goes to the engine, the
    /// engine's preedit is cleared, and the text is returned rendered in
    /// the output form.
    pub open spec fn flush_feed(self) -> (SessionView, Seq<char>) {
        let (fsm, ev) = self.fsm.flush();
        let raw = match ev {
            EventView::Commit(s) => s,
            _ => Seq::empty(),
        };
        let abbr = if raw.len() > 0 {
            self.abbr.on_commit(nfc_chars(raw)).0
        } else {
            self.abbr
        };
        (
            SessionView { fsm, abbr: EngineView { preedit: Seq::empty(), ..abbr }, ..self },
            render_chars(self.form, raw),
        )
    }

    /// The engine's preedit follows the composition (in NFC).
    pub open spec fn sync_preedit(self) -> SessionView {
        SessionView {
            abbr: EngineView { preedit: nfc_chars(self.fsm.state.chars()), ..self.abbr },
            ..self
        }
    }

    /// Feed a Jamo to the state machine: its commit (raw) goes to the
    /// engine in NFC, then the engine's preedit follows the composition.
    pub open spec fn feed_jamo(self, input: JamoInput, within_chord: bool) -> (SessionView, Seq<char>, AbbrEventView) {
        let (fsm, fev) = self.fsm.feed(input, FeedOptions { within_chord });
        let raw = match fev.commit() {
            Some(c) => c,
            None => Seq::empty(),
        };
        let (abbr, aev) = if raw.len() == 0 {
            (self.abbr, AbbrEventView::Nothing)
        } else {
            self.abbr.on_commit(nfc_chars(raw))
        };
        (SessionView { fsm, abbr, ..self }.sync_preedit(), raw, aev)
    }

    /// One physical key, named by its `KeyboardEvent.code`:
    ///
    /// * an unknown name flushes the composition and passes the key on,
    ///   except a modifier pressed alone, which changes nothing;
    /// * Caps Lock and Shift+Space flush and toggle Hangul / English (the
    ///   settings are to be saved);
    /// * Escape discards the composition; Backspace removes one jamo of
    ///   it, or, with nothing composing, the engine's last character and
    ///   the key passes on;
    /// * Enter and Space flush, fire a match configured for them, and emit
    ///   their character;
    /// * a key with Ctrl / Alt / Meta flushes and passes on;
    /// * otherwise the active layout decides: a Jamo is fed to the state
    ///   machine, a character flushes and is emitted (and committed to the
    ///   engine), a passthrough key flushes and passes on.
    pub open spec fn key_input(self, name: Seq<char>, shift: bool, ctrl: bool, alt: bool, meta: bool, within_chord: bool) -> (SessionView, ResponseView, KeyEffects) {
        match key_named(name) {
            None => self.unknown_key(name),
            Some(code) => self.known_key(code, shift, ctrl, alt, meta, within_chord),
        }
    }

    /// A key the session has no name for.
    pub open spec fn unknown_key(self, name: Seq<char>) -> (SessionView, ResponseView, KeyEffects) {
        let quiet = KeyEffects { persist: false, fed_jamo: false };
        if is_modifier_name(name) {
            (self, ResponseView { preedit: self.preedit_display(), ..self.status(false) }, quiet)
        } else {
            let (s1, r) = self.flush_feed();
            (s1, s1.finalize(r, true, None, AbbrEventView::Nothing), quiet)
        }
    }

    /// A named key (see [`SessionView::key_input`]).
    pub open spec fn known_key(self, code: KeyCode, shift: bool, ctrl: bool, alt: bool, meta: bool, within_chord: bool) -> (SessionView, ResponseView, KeyEffects) {
        let quiet = KeyEffects { persist: false, fed_jamo: false };
        if code == KeyCode::CapsLock || (code == KeyCode::Space && shift) {
            let (s1, r) = self.flush_feed();
            let s2 = SessionView { mode: spec_toggled(s1.mode), ..s1 };
            (s2, ResponseView { commit: r, ..s2.status(false) }, KeyEffects { persist: true, fed_jamo: false })
        } else if code == KeyCode::Escape {
            let s1 = SessionView { fsm: self.fsm.cancel().0, ..self }.sync_preedit();
            (s1, s1.respond(Seq::empty(), false, None), quiet)
        } else if code == KeyCode::Backspace {
            self.backspace_key()
        } else if code == KeyCode::Enter {
            self.trigger_key(TriggerEvent::Enter, "\n"@)
        } else if code == KeyCode::Space {
            self.trigger_key(TriggerEvent::Space, " "@)
        } else {
            self.layout_key(KeyEvent { code, mods: Modifiers { shift, ctrl, alt, altgr: false, meta }, repeat: false }, within_chord)
        }
    }

    /// Backspace: one jamo of the composition, or, with nothing
    /// composing, the engine's last character (the key passes on).
    pub open spec fn backspace_key(self) -> (SessionView, ResponseView, KeyEffects) {
        let quiet = KeyEffects { persist: false, fed_jamo: false };
        if self.fsm.composing() {
            let s1 = SessionView { fsm: self.fsm.backspace().0, ..self }.sync_preedit();
            (s1, s1.respond(Seq::empty(), false, None), quiet)
        } else {
            let s1 = SessionView { abbr: self.abbr.on_backspace(), ..self }.sync_preedit();
            (s1, s1.status(true), quiet)
        }
    }

    /// Enter / Space: flush, fire a match configured for the key, emit
    /// the key's character.
    pub open spec fn trigger_key(self, ev: TriggerEvent, emit: Seq<char>) -> (SessionView, ResponseView, KeyEffects) {
        let (s1, r) = self.flush_feed();
        let (abbr, aev) = s1.abbr.on_trigger(ev);
        let s2 = SessionView { abbr, ..s1 };
        (s2, s2.settle(r, emit, aev, emit), KeyEffects { persist: false, fed_jamo: false })
    }

    /// Any other key: passed on (after a flush) when Ctrl / Alt / Meta is
    /// held, else handled by the active layout.
    pub open spec fn layout_key(self, kev: KeyEvent, within_chord: bool) -> (SessionView, ResponseView, KeyEffects) {
        let quiet = KeyEffects { persist: false, fed_jamo: false };
        if !kev.mods.ime_eligible() {
            let (s1, r) = self.flush_feed();
            (s1, s1.finalize(r, true, None, AbbrEventView::Nothing), quiet)
        } else {
            match self.active_map(kev) {
                LayoutOutput::Jamo(input) => {
                    let (s1, raw, aev) = self.feed_jamo(input, within_chord);
                    (
                        s1,
                        s1.finalize(render_chars(self.form, raw), false, None, aev),
                        KeyEffects { persist: false, fed_jamo: true },
                    )
                },
                LayoutOutput::Char(c) => {
                    let (s1, r) = self.flush_feed();
                    let (abbr, aev) = s1.abbr.on_commit(seq![c]);
                    let s2 = SessionView { abbr, ..s1 };
                    (s2, s2.finalize(r, false, Some(seq![c]), aev), quiet)
                },
                LayoutOutput::Passthrough => {
                    let (s1, r) = self.flush_feed();
                    (s1, s1.finalize(r, true, None, AbbrEventView::Nothing), quiet)
                },
                LayoutOutput::Absorbed => (self, self.status(false), quiet),
            }
        }
    }
}

// ───────────────────────────── Session ────────────────────────────────

/// One IME session: a Hangul layout, a Latin layout, the state machine
/// driving Hangul composition, and the abbreviation matcher observing the
/// commit stream.
pub struct ImeSession {
    hangul: HangulLayoutId,
    latin: LatinLayoutId,
    active_mode: InputMode,
    fsm: HangulFsm,
    output_form: OutputForm,
    abbr: AbbreviationEngine,
    suggestions_enabled: bool,
    backspace_mode: String,
    use_user_abbrs: bool,
}

impl View for ImeSession {
    type V = SessionView;

    closed spec fn view(&self) -> SessionView {
        SessionView {
            hangul: self.hangul,
            latin: self.latin,
            mode: self.active_mode,
            fsm: self.fsm@,
            form: self.output_form,
            abbr: self.abbr@,
            suggestions_enabled: self.suggestions_enabled,
            backspace_mode: self.backspace_mode@,
            use_user_abbrs: self.use_user_abbrs,
        }
    }
}

impl ImeSession {
    /// The session's invariant.
    pub open spec fn wf(&self) -> bool {
        self@.wf()
    }

    /// A session in Hangul mode with an empty composition, NFC output,
    /// the starter dictionary's Cho-run entries, suggestions on and
    /// syllable-wise Backspace.
    pub fn new(hangul: HangulLayoutId, latin: LatinLayoutId) -> (r: Self)
        ensures
            r.wf(),
            r@.hangul == hangul,
            r@.latin == latin,
            r@.mode == InputMode::Hangul,
            r@.fsm == (FsmModel {
                state: empty_state(),
                mode: ComposeMode::Sequential,
                jong_from_dual: false,
                same_slot_overwrite: false,
                last_was_cho: false,
            }),
            r@.form == OutputForm::NfcSyllable,
            r@.abbr.tail.len() == 0,
            r@.abbr.preedit.len() == 0,
            r@.abbr.active is None,
            r@.abbr.enabled,
            forall|i: int| 0 <= i < r@.abbr.abbrs.len() ==> (#[trigger] r@.abbr.abbrs[i]).trigger@ is ChoSeq,
            crate::abbr::loader::abbr_views(r@.abbr.abbrs) == session_entries(),
            r@.suggestions_enabled,
            r@.backspace_mode == "syllable"@,
            r@.use_user_abbrs,
    {
        ImeSession {
            hangul,
            latin,
            active_mode: InputMode::Hangul,
            fsm: HangulFsm::new(),
            output_form: OutputForm::NfcSyllable,
            abbr: AbbreviationEngine::new(build_merged_abbrs()),
            suggestions_enabled: true,
            backspace_mode: string_of("syllable"),
            use_user_abbrs: true,
        }
    }

    /// The state machine (read-only).
    pub fn fsm(&self) -> (r: &HangulFsm)
        ensures
            r@ == self@.fsm,
            self.wf() ==> r.wf(),
    {
        &self.fsm
    }

    /// The abbreviation engine (read-only).
    pub fn abbr(&self) -> (r: &AbbreviationEngine)
        ensures
            r@ == self@.abbr,
    {
        &self.abbr
    }

    /// The active input mode.
    pub fn input_mode(&self) -> (r: InputMode)
        ensures
            r == self@.mode,
    {
        self.active_mode
    }

    /// The active Hangul layout.
    pub fn hangul_layout(&self) -> (r: HangulLayoutId)
        ensures
            r == self@.hangul,
    {
        self.hangul
    }

    /// The active Latin layout.
    pub fn latin_layout(&self) -> (r: LatinLayoutId)
        ensures
            r == self@.latin,
    {
        self.latin
    }

    /// The output form.
    pub fn output_form(&self) -> (r: OutputForm)
        ensures
            r == self@.form,
    {
        self.output_form
    }

    /// Whether user dictionaries are meant to be merged.
    pub fn use_user_abbrs(&self) -> (r: bool)
        ensures
            r == self@.use_user_abbrs,
    {
        self.use_user_abbrs
    }

    /// What the active layout produces for `ev`.
    pub fn map_key(&self, ev: &KeyEvent) -> (out: LayoutOutput)
        ensures
            out == self@.active_map(*ev),
            out.wf(),
    {
        match self.active_mode {
            InputMode::Hangul => self.hangul.map(ev),
            InputMode::English => self.latin.map(ev),
        }
    }

    /// The preedit as displayed (see [`SessionView::preedit_display`]).
    pub fn preedit_display(&self) -> (r: String)
        requires
            self.wf(),
        ensures
            r@ == self@.preedit_display(),
    {
        let raw = self.fsm.preedit_string();
        if chars_of(raw.as_str()).len() == 0 {
            String::new()
        } else {
            to_display_text(raw.as_str())
        }
    }

    /// The raw (conjoining) preedit.
    pub fn preedit_string(&self) -> (r: String)
        requires
            self.wf(),
        ensures
            r@ == self@.fsm.state.chars(),
    {
        self.fsm.preedit_string()
    }

    /// The suggestions handed to the host (see [`SessionView::suggestions`]).
    pub fn collect_suggestions(&self) -> (r: Vec<Suggestion>)
        ensures
            suggestion_views(r@) == self@.suggestions(),
    {
        if !self.suggestions_enabled {
            proof {
                assert(suggestion_views(Seq::<Suggestion>::empty()) =~= Seq::<SuggestionView>::empty());
            }
            return Vec::new();
        }
        let mut c = self.abbr.candidates();
        let ghost all = c@;
        c.truncate(MAX_SUGGESTIONS);
        proof {
            if all.len() > MAX_SUGGESTIONS {
                assert(suggestion_views(c@) =~= suggestion_views(all).take(MAX_SUGGESTIONS as int));
            }
        }
        c
    }

    fn respond(&self, commit: String, passthrough: bool, emitted_char: Option<String>) -> (r: ImeResponse)
        requires
            self.wf(),
        ensures
            r@ == self@.respond(commit@, passthrough, opt_text(emitted_char)),
    {
        ImeResponse {
            preedit: self.preedit_display(),
            commit,
            passthrough,
            emitted_char,
            rollback_chars: 0,
            abbr_fired: None,
            input_mode: self.active_mode.as_str(),
            suggestions: self.collect_suggestions(),
        }
    }

    fn status(&self, passthrough: bool) -> (r: ImeResponse)
        ensures
            r@ == self@.status(passthrough),
    {
        ImeResponse {
            preedit: String::new(),
            commit: String::new(),
            passthrough,
            emitted_char: None,
            rollback_chars: 0,
            abbr_fired: None,
            input_mode: self.active_mode.as_str(),
            suggestions: self.collect_suggestions(),
        }
    }

    fn finalize(&self, rendered: String, passthrough: bool, emitted_char: Option<String>, ev: AbbrEvent) -> (r: ImeResponse)
        requires
            self.wf(),
        ensures
            r@ == self@.finalize(rendered@, passthrough, opt_text(emitted_char), ev@),
    {
        match ev {
            AbbrEvent::Expand { abbr_id, rollback_chars, insert } => {
                let this_step = chars_of(rendered.as_str()).len();
                ImeResponse {
                    preedit: self.preedit_display(),
                    commit: insert,
                    passthrough,
                    emitted_char,
                    rollback_chars: rollback_chars.saturating_sub(this_step),
                    abbr_fired: Some(abbr_id),
                    input_mode: self.active_mode.as_str(),
                    suggestions: self.collect_suggestions(),
                }
            },
            _ => self.respond(rendered, passthrough, emitted_char),
        }
    }

    fn settle(&self, flushed: String, default_emit: &str, ev: AbbrEvent, post_expand_emit: &str) -> (r: ImeResponse)
        requires
            self.wf(),
        ensures
            r@ == self@.settle(flushed@, default_emit@, ev@, post_expand_emit@),
    {
        match ev {
            AbbrEvent::Expand { abbr_id, rollback_chars, insert } => {
                let this_step = chars_of(flushed.as_str()).len();
                ImeResponse {
                    preedit: self.preedit_display(),
                    commit: insert,
                    passthrough: true,
                    emitted_char: Some(string_of(post_expand_emit)),
                    rollback_chars: rollback_chars.saturating_sub(this_step),
                    abbr_fired: Some(abbr_id),
                    input_mode: self.active_mode.as_str(),
                    suggestions: self.collect_suggestions(),
                }
            },
            _ => self.respond(flushed, true, Some(string_of(default_emit))),
        }
    }

    /// Flush the composition into the engine (see
    /// [`SessionView::flush_feed`]); returns the rendered commit.
    pub fn flush_and_feed_abbr(&mut self) -> (r: String)
        requires
            old(self).wf(),
        ensures
            final(self).wf(),
            (final(self)@, r@) == old(self)@.flush_feed(),
    {
        let raw = match self.fsm.flush() {
            FsmEvent::Commit(s) => s,
            _ => String::new(),
        };
        if chars_of(raw.as_str()).len() > 0 {
            let nfc = to_nfc_syllable(raw.as_str());
            let _ = self.abbr.on_commit(nfc.as_str());
        }
        self.abbr.set_preedit("");
        proof {
            reveal_strlit("");
            assert(""@ =~= Seq::<char>::empty());
        }
        self.output_form.render(raw.as_str())
    }

    /// Mirror the composition (in NFC) as the engine's preedit.
    pub fn sync_abbr_preedit(&mut self)
        requires
            old(self).wf(),
        ensures
            final(self).wf(),
            final(self)@ == old(self)@.sync_preedit(),
    {
        let preedit = to_nfc_syllable(self.fsm.preedit_string().as_str());
        self.abbr.set_preedit(preedit.as_str());
    }

    /// Feed a Jamo (see [`SessionView::feed_jamo`]); returns the raw
    /// commit and the engine's event.
    pub fn feed_jamo(&mut self, input: JamoInput, within_chord: bool) -> (r: (String, AbbrEvent))
        requires
            old(self).wf(),
            input.wf(),
        ensures
            final(self).wf(),
            (final(self)@, r.0@, r.1@) == old(self)@.feed_jamo(input, within_chord),
    {
        let fsm_ev = self.fsm.feed_with(input, FeedOptions { within_chord });
        let raw = match fsm_ev.commit_str() {
            Some(c) => string_of(c),
            None => String::new(),
        };
        let ev = if chars_of(raw.as_str()).len() == 0 {
            AbbrEvent::Nothing
        } else {
            self.abbr.on_commit(to_nfc_syllable(raw.as_str()).as_str())
        };
        self.sync_abbr_preedit();
        (raw, ev)
    }

    /// Handle one physical key (see [`SessionView::key_input`]). `code` is
    /// the `KeyboardEvent.code` name; `within_chord` says whether the key
    /// arrived within the chord window of the previous Jamo key.
    pub fn key_input(&mut self, code: &str, shift: bool, ctrl: bool, alt: bool, meta: bool, within_chord: bool) -> (r: (ImeResponse, KeyEffects))
        requires
            old(self).wf(),
        ensures
            final(self).wf(),
            (final(self)@, r.0@, r.1) == old(self)@.key_input(code@, shift, ctrl, alt, meta, within_chord),
    {
        match keycode_from_name(code) {
            Some(key) => self.known_key(key, shift, ctrl, alt, meta, within_chord),
            None => {
                let quiet = KeyEffects { persist: false, fed_jamo: false };
                if is_modifier_code(code) {
                    let base = self.status(false);
                    return (ImeResponse { preedit: self.preedit_display(), ..base }, quiet);
                }
                let rendered = self.flush_and_feed_abbr();
                (self.finalize(rendered, true, None, AbbrEvent::Nothing), quiet)
            },
        }
    }

    fn known_key(&mut self, key: KeyCode, shift: bool, ctrl: bool, alt: bool, meta: bool, within_chord: bool) -> (r: (ImeResponse, KeyEffects))
        requires
            old(self).wf(),
        ensures
            final(self).wf(),
            (final(self)@, r.0@, r.1) == old(self)@.known_key(key, shift, ctrl, alt, meta, within_chord),
    {
        let quiet = KeyEffects { persist: false, fed_jamo: false };
        if key == KeyCode::CapsLock || (key == KeyCode::Space && shift) {
            let rendered = self.flush_and_feed_abbr();
            self.active_mode = self.active_mode.toggled();
            let base = self.status(false);
            return (ImeResponse { commit: rendered, ..base }, KeyEffects { persist: true, fed_jamo: false });
        }
        if key == KeyCode::Escape {
            let _ = self.fsm.cancel();
            self.sync_abbr_preedit();
            return (self.respond(String::new(), false, None), quiet);
        }
        if key == KeyCode::Backspace {
            return self.backspace_key();
        }
        if key == KeyCode::Enter {
            proof {
                reveal_strlit("\n");
            }
            return self.trigger_key(TriggerEvent::Enter, "\n");
        }
        if key == KeyCode::Space {
            return self.trigger_key(TriggerEvent::Space, " ");
        }
        let mods = Modifiers { shift, ctrl, alt, altgr: false, meta };
        self.layout_key(KeyEvent { code: key, mods, repeat: false }, within_chord)
    }

    fn backspace_key(&mut self) -> (r: (ImeResponse, KeyEffects))
        requires
            old(self).wf(),
        ensures
            final(self).wf(),
            (final(self)@, r.0@, r.1) == old(self)@.backspace_key(),
    {
        let quiet = KeyEffects { persist: false, fed_jamo: false };
        if self.fsm.is_composing() {
            let _ = self.fsm.backspace();
            self.sync_abbr_preedit();
            return (self.respond(String::new(), false, None), quiet);
        }
        self.abbr.on_backspace();
        self.sync_abbr_preedit();
        (self.status(true), quiet)
    }

    fn trigger_key(&mut self, ev: TriggerEvent, emit: &str) -> (r: (ImeResponse, KeyEffects))
        requires
            old(self).wf(),
        ensures
            final(self).wf(),
            (final(self)@, r.0@, r.1) == old(self)@.trigger_key(ev, emit@),
    {
        let rendered = self.flush_and_feed_abbr();
        let aev = self.abbr.on_trigger(ev);
        (self.settle(rendered, emit, aev, emit), KeyEffects { persist: false, fed_jamo: false })
    }

    fn layout_key(&mut self, kev: KeyEvent, within_chord: bool) -> (r: (ImeResponse, KeyEffects))
        requires
            old(self).wf(),
        ensures
            final(self).wf(),
            (final(self)@, r.0@, r.1) == old(self)@.layout_key(kev, within_chord),
    {
        let quiet = KeyEffects { persist: false, fed_jamo: false };
        if !kev.mods.is_ime_eligible() {
            let rendered = self.flush_and_feed_abbr();
            return (self.finalize(rendered, true, None, AbbrEvent::Nothing), quiet);
        }
        let form = self.output_form;
        match self.map_key(&kev) {
            LayoutOutput::Jamo(input) => {
                let (raw, ev) = self.feed_jamo(input, within_chord);
                let rendered = form.render(raw.as_str());
                (self.finalize(rendered, false, None, ev), KeyEffects { persist: false, fed_jamo: true })
            },
            LayoutOutput::Char(c) => {
                let flushed = self.flush_and_feed_abbr();
                let mut text = String::new();
                string_push(&mut text, c);
                let ev = self.abbr.on_commit(text.as_str());
                let mut emitted = String::new();
                string_push(&mut emitted, c);
                (self.finalize(flushed, false, Some(emitted), ev), quiet)
            },
            LayoutOutput::Passthrough => {
                let flushed = self.flush_and_feed_abbr();
                (self.finalize(flushed, true, None, AbbrEvent::Nothing), quiet)
            },
            LayoutOutput::Absorbed => (self.status(false), quiet),
        }
    }
}

} // verus!

verus! {

// ──────────────────────────── Layout panel ────────────────────────────

/// The keys the layout panel shows, in keyboard order.
pub open spec fn keyboard_codes() -> Seq<KeyCode> {
    seq![
        KeyCode::Digit1,
        KeyCode::Digit2,
        KeyCode::Digit3,
        KeyCode::Digit4,
        KeyCode::Digit5,
        KeyCode::Digit6,
        KeyCode::Digit7,
        KeyCode::Digit8,
        KeyCode::Digit9,
        KeyCode::Digit0,
        KeyCode::Minus,
        KeyCode::Equal,
        KeyCode::KeyQ,
        KeyCode::KeyW,
        KeyCode::KeyE,
        KeyCode::KeyR,
        KeyCode::KeyT,
        KeyCode::KeyY,
        KeyCode::KeyU,
        KeyCode::KeyI,
        KeyCode::KeyO,
        KeyCode::KeyP,
        KeyCode::BracketLeft,
        KeyCode::BracketRight,
        KeyCode::KeyA,
        KeyCode::KeyS,
        KeyCode::KeyD,
        KeyCode::KeyF,
        KeyCode::KeyG,
        KeyCode::KeyH,
        KeyCode::KeyJ,
        KeyCode::KeyK,
        KeyCode::KeyL,
        KeyCode::Semicolon,
        KeyCode::Quote,
        KeyCode::KeyZ,
        KeyCode::KeyX,
        KeyCode::KeyC,
        KeyCode::KeyV,
        KeyCode::KeyB,
        KeyCode::KeyN,
        KeyCode::KeyM,
        KeyCode::Comma,
        KeyCode::Period,
        KeyCode::Slash,
    ]
}

/// The labels of the keys the layout panel shows, in keyboard order.
pub open spec fn keyboard_labels() -> Seq<Seq<char>> {
    seq![
        "1"@,
        "2"@,
        "3"@,
        "4"@,
        "5"@,
        "6"@,
        "7"@,
        "8"@,
        "9"@,
        "0"@,
        "-"@,
        "="@,
        "Q"@,
        "W"@,
        "E"@,
        "R"@,
        "T"@,
        "Y"@,
        "U"@,
        "I"@,
        "O"@,
        "P"@,
        "["@,
        "]"@,
        "A"@,
        "S"@,
        "D"@,
        "F"@,
        "G"@,
        "H"@,
        "J"@,
        "K"@,
        "L"@,
        ";"@,
        "'"@,
        "Z"@,
        "X"@,
        "C"@,
        "V"@,
        "B"@,
        "N"@,
        "M"@,
        ","@,
        "."@,
        "/"@,
    ]
}

/// Every physical key the layout panel displays, with its label, in
/// keyboard order.
pub fn keyboard_keys() -> (r: Vec<(&'static str, KeyCode)>)
    ensures
        r@.len() == keyboard_codes().len(),
        forall|i: int| 0 <= i < r@.len() ==> (#[trigger] r@[i]).1 == keyboard_codes()[i] && r@[i].0@
            == keyboard_labels()[i],
{
    vec![
        ("1", KeyCode::Digit1),
        ("2", KeyCode::Digit2),
        ("3", KeyCode::Digit3),
        ("4", KeyCode::Digit4),
        ("5", KeyCode::Digit5),
        ("6", KeyCode::Digit6),
        ("7", KeyCode::Digit7),
        ("8", KeyCode::Digit8),
        ("9", KeyCode::Digit9),
        ("0", KeyCode::Digit0),
        ("-", KeyCode::Minus),
        ("=", KeyCode::Equal),
        ("Q", KeyCode::KeyQ),
        ("W", KeyCode::KeyW),
        ("E", KeyCode::KeyE),
        ("R", KeyCode::KeyR),
        ("T", KeyCode::KeyT),
        ("Y", KeyCode::KeyY),
        ("U", KeyCode::KeyU),
        ("I", KeyCode::KeyI),
        ("O", KeyCode::KeyO),
        ("P", KeyCode::KeyP),
        ("[", KeyCode::BracketLeft),
        ("]", KeyCode::BracketRight),
        ("A", KeyCode::KeyA),
        ("S", KeyCode::KeyS),
        ("D", KeyCode::KeyD),
        ("F", KeyCode::KeyF),
        ("G", KeyCode::KeyG),
        ("H", KeyCode::KeyH),
        ("J", KeyCode::KeyJ),
        ("K", KeyCode::KeyK),
        ("L", KeyCode::KeyL),
        (";", KeyCode::Semicolon),
        ("'", KeyCode::Quote),
        ("Z", KeyCode::KeyZ),
        ("X", KeyCode::KeyX),
        ("C", KeyCode::KeyC),
        ("V", KeyCode::KeyV),
        ("B", KeyCode::KeyB),
        ("N", KeyCode::KeyN),
        ("M", KeyCode::KeyM),
        (",", KeyCode::Comma),
        (".", KeyCode::Period),
        ("/", KeyCode::Slash),
    ]
}

/// A code point shown in compatibility form (empty if it is not a
/// character).
pub open spec fn compat_text(cp: u32) -> Seq<char> {
    if crate::text::is_char_value(cp) {
        compat_chars(seq![crate::text::cp_char(cp)])
    } else {
        Seq::empty()
    }
}

/// How a layout output is shown on the panel, with its role tag: a
/// dual-role consonant shows its initial form.
pub open spec fn describe(out: LayoutOutput) -> (Seq<char>, Seq<char>) {
    match out {
        LayoutOutput::Jamo(JamoInput::Jung(v)) => (compat_text(v), "jung"@),
        LayoutOutput::Jamo(JamoInput::Cons { cho: Some(c), .. }) => (compat_text(c), "cho"@),
        LayoutOutput::Jamo(JamoInput::Cons { cho: None, jong: Some(j) }) => (compat_text(j), "jong"@),
        LayoutOutput::Char(c) => (seq![c], "char"@),
        _ => (Seq::empty(), Seq::empty()),
    }
}

/// A code point in compatibility form, as a string.
pub fn cp_to_compat(cp: u32) -> (r: String)
    ensures
        r@ == compat_text(cp),
{
    match char_from_u32(cp) {
        None => String::new(),
        Some(ch) => {
            let mut s = String::new();
            string_push(&mut s, ch);
            proof {
                vstd::utf8::char_u32_cast(ch, cp);
            }
            to_compat_jamo(s.as_str())
        },
    }
}

/// A Jamo as shown on the panel (see [`describe`]).
pub fn describe_jamo(input: JamoInput) -> (r: (String, &'static str))
    ensures
        (r.0@, r.1@) == describe(LayoutOutput::Jamo(input)),
{
    match input {
        JamoInput::Jung(v) => (cp_to_compat(v), "jung"),
        JamoInput::Cons { cho: Some(c), .. } => (cp_to_compat(c), "cho"),
        JamoInput::Cons { cho: None, jong: Some(j) } => (cp_to_compat(j), "jong"),
        JamoInput::Cons { cho: None, jong: None } => {
            proof {
                reveal_strlit("");
                assert(""@ =~= Seq::<char>::empty());
            }
            (String::new(), "")
        },
    }
}

/// A layout output as shown on the panel (see [`describe`]).
pub fn describe_output(out: &LayoutOutput) -> (r: (String, &'static str))
    ensures
        (r.0@, r.1@) == describe(*out),
{
    match out {
        LayoutOutput::Jamo(input) => describe_jamo(*input),
        LayoutOutput::Char(c) => {
            let mut s = String::new();
            string_push(&mut s, *c);
            (s, "char")
        },
        _ => {
            proof {
                reveal_strlit("");
                assert(""@ =~= Seq::<char>::empty());
            }
            (String::new(), "")
        },
    }
}

/// One key of the layout panel.
#[derive(Debug)]
pub struct KeyHint {
    /// Physical key label (e.g. "Q", "1").
    pub label: &'static str,
    /// `KeyboardEvent.code` of the key.
    pub code: &'static str,
    /// What the base layer shows (empty if unmapped).
    pub base: String,
    /// What the shift layer shows (empty if unmapped).
    pub shift: String,
    /// Role of the base output: `cho` / `jung` / `jong` / `char` / empty.
    pub role: &'static str,
}

/// The mathematical content of a [`KeyHint`].
pub struct KeyHintView {
    pub label: Seq<char>,
    pub code: Seq<char>,
    pub base: Seq<char>,
    pub shift: Seq<char>,
    pub role: Seq<char>,
}

impl View for KeyHint {
    type V = KeyHintView;

    open spec fn view(&self) -> KeyHintView {
        KeyHintView {
            label: self.label@,
            code: self.code@,
            base: self.base@,
            shift: self.shift@,
            role: self.role@,
        }
    }
}

/// The panel entry for key `code` labelled `label` under session `v`.
pub open spec fn key_hint(v: SessionView, label: Seq<char>, code: KeyCode) -> KeyHintView {
    let base = describe(v.active_map(KeyEvent { code, mods: Modifiers::spec_none(), repeat: false }));
    let shift = describe(v.active_map(KeyEvent { code, mods: Modifiers::spec_shift_only(), repeat: false }));
    KeyHintView { label, code: key_name(code), base: base.0, shift: shift.0, role: base.1 }
}

/// Summary of the session's layout configuration.
#[derive(Debug)]
pub struct LayoutInfo {
    /// Active layout id (Hangul or Latin depending on mode).
    pub id: String,
    /// Active layout name.
    pub name: String,
    /// Output form name.
    pub output_form: &'static str,
    /// Compose mode name.
    pub compose_mode: &'static str,
    /// Whether the Hangul layout supports order-independent input.
    pub supports_moachigi: bool,
    /// Input mode name.
    pub input_mode: &'static str,
    /// Hangul layout id.
    pub hangul_layout_id: String,
    /// Latin layout id.
    pub latin_layout_id: String,
    /// Whether the picker is on.
    pub suggestions_enabled: bool,
    /// `"syllable"` or `"jamo"`.
    pub backspace_mode: String,
}

/// The mathematical content of a [`LayoutInfo`].
pub struct LayoutInfoView {
    pub id: Seq<char>,
    pub name: Seq<char>,
    pub output_form: Seq<char>,
    pub compose_mode: Seq<char>,
    pub supports_moachigi: bool,
    pub input_mode: Seq<char>,
    pub hangul_layout_id: Seq<char>,
    pub latin_layout_id: Seq<char>,
    pub suggestions_enabled: bool,
    pub backspace_mode: Seq<char>,
}

impl View for LayoutInfo {
    type V = LayoutInfoView;

    open spec fn view(&self) -> LayoutInfoView {
        LayoutInfoView {
            id: self.id@,
            name: self.name@,
            output_form: self.output_form@,
            compose_mode: self.compose_mode@,
            supports_moachigi: self.supports_moachigi,
            input_mode: self.input_mode@,
            hangul_layout_id: self.hangul_layout_id@,
            latin_layout_id: self.latin_layout_id@,
            suggestions_enabled: self.suggestions_enabled,
            backspace_mode: self.backspace_mode@,
        }
    }
}

/// One registered abbreviation, as listed for the user.
#[derive(Debug)]
pub struct AbbrInfo {
    /// Identifier.
    pub id: String,
    /// Trigger display.
    pub trigger: String,
    /// Expansion body.
    pub body: String,
    /// Trigger event name.
    pub trigger_on: &'static str,
    /// Trigger kind name.
    pub kind: &'static str,
}

/// One built-in entry, for the dictionary manager.
#[derive(Debug)]
pub struct BuiltinEntry {
    /// Identifier.
    pub id: String,
    /// Trigger display.
    pub trigger: String,
    /// Trigger kind name.
    pub kind: &'static str,
    /// Expansion body.
    pub body: String,
    /// Priority.
    pub priority: u32,
    /// Trigger event name.
    pub trigger_on: &'static str,
}

/// An abbreviation as listed: id, trigger display, body, event and kind
/// names.
pub open spec fn listed(a: Abbreviation) -> (Seq<char>, Seq<char>, Seq<char>, Seq<char>, Seq<char>) {
    (a.id@, a.trigger@.display(), a.body@, event_text(a.trigger_on), kind_text(a.trigger@))
}

/// The listing of one abbreviation.
pub fn abbr_info(a: &Abbreviation) -> (r: AbbrInfo)
    ensures
        (r.id@, r.trigger@, r.body@, r.trigger_on@, r.kind@) == listed(*a),
{
    AbbrInfo {
        id: string_of(a.id.as_str()),
        trigger: a.trigger.display(),
        body: string_of(a.body.as_str()),
        trigger_on: trigger_event_name(a.trigger_on),
        kind: kind_label(&a.trigger),
    }
}

/// The manager's listing of built-in entries, in order.
pub fn builtin_entries(abbrs: &Vec<Abbreviation>) -> (r: Vec<BuiltinEntry>)
    ensures
        r@.len() == abbrs@.len(),
        forall|i: int| 0 <= i < r@.len() ==> {
            let e = #[trigger] r@[i];
            &&& listed(abbrs@[i]) == (e.id@, e.trigger@, e.body@, e.trigger_on@, e.kind@)
            &&& e.priority == abbrs@[i].priority
        },
{
    let mut out: Vec<BuiltinEntry> = Vec::new();
    let mut i: usize = 0;
    while i < abbrs.len()
        invariant
            i <= abbrs@.len(),
            out@.len() == i,
            forall|j: int| 0 <= j < i ==> {
                let e = #[trigger] out@[j];
                &&& listed(abbrs@[j]) == (e.id@, e.trigger@, e.body@, e.trigger_on@, e.kind@)
                &&& e.priority == abbrs@[j].priority
            },
        decreases abbrs@.len() - i,
    {
        let a = &abbrs[i];
        let info = abbr_info(a);
        out.push(
            BuiltinEntry {
                id: info.id,
                trigger: info.trigger,
                kind: info.kind,
                body: info.body,
                priority: a.priority,
                trigger_on: info.trigger_on,
            },
        );
        i = i + 1;
    }
    out
}

} // verus!

verus! {

/// `s` ends with one of the characters of `cs`.
pub open spec fn ends_with_any(s: Seq<char>, cs: Seq<char>) -> bool {
    s.len() > 0 && cs.contains(s.last())
}

/// An accepted expansion's text: a trailing space is added after a
/// conjunction (id starting with `conj-`) or a body ending a sentence
/// (`.`, `?`, `!`), unless the body already ends in whitespace.
pub open spec fn with_trailing_space(abbr_id: Seq<char>, insert: Seq<char>) -> Seq<char> {
    if ends_with_any(insert, seq![' ', '\n', '\t']) {
        insert
    } else if (abbr_id.len() >= 5 && abbr_id.take(5) == "conj-"@) || ends_with_any(
        insert,
        seq!['.', '?', '!'],
    ) {
        insert.push(' ')
    } else {
        insert
    }
}

/// The engine after `n` host backspaces.
pub open spec fn backspaces(e: EngineView, n: nat) -> EngineView
    decreases n,
{
    if n == 0 {
        e
    } else {
        backspaces(e, (n - 1) as nat).on_backspace()
    }
}

impl SessionView {
    /// The session's layout summary.
    pub open spec fn layout_info(self) -> LayoutInfoView {
        LayoutInfoView {
            id: match self.mode {
                InputMode::Hangul => hangul_id_text(self.hangul),
                InputMode::English => latin_id_text(self.latin),
            },
            name: match self.mode {
                InputMode::Hangul => hangul_name_text(self.hangul),
                InputMode::English => latin_name_text(self.latin),
            },
            output_form: form_text(self.form),
            compose_mode: compose_text(self.fsm.mode),
            supports_moachigi: hangul_moachigi(self.hangul),
            input_mode: mode_text(self.mode),
            hangul_layout_id: hangul_id_text(self.hangul),
            latin_layout_id: latin_id_text(self.latin),
            suggestions_enabled: self.suggestions_enabled,
            backspace_mode: self.backspace_mode,
        }
    }

    /// Accept the suggestion of abbreviation `id`: the composition is
    /// discarded, the engine fires it, and the expansion (with its
    /// trailing space, see [`with_trailing_space`]) is committed to the
    /// engine and handed to the host with the engine's rollback.
    pub open spec fn apply(self, id: Seq<char>) -> (SessionView, ResponseView) {
        let s1 = SessionView { fsm: self.fsm.cancel().0, ..self };
        let (a2, ev) = s1.abbr.fire_by_id(id);
        let a3 = EngineView { preedit: Seq::empty(), ..a2 };
        match ev {
            AbbrEventView::Expand { abbr_id, rollback_chars, insert } => {
                let ins = with_trailing_space(abbr_id, insert);
                let s4 = SessionView { abbr: a3.on_commit(ins).0, ..s1 };
                (
                    s4,
                    ResponseView {
                        commit: ins,
                        rollback_chars,
                        abbr_fired: Some(abbr_id),
                        ..s4.status(false)
                    },
                )
            },
            _ => {
                let s3 = SessionView { abbr: a3, ..s1 };
                (s3, s3.status(false))
            },
        }
    }

    /// Cancel a match from the picker: the composition and the engine's
    /// preedit are discarded and the engine forgets the last
    /// `rollback_chars` committed characters, which the host removes too.
    pub open spec fn cancel_match(self, rollback_chars: nat) -> (SessionView, ResponseView) {
        let s1 = SessionView {
            fsm: self.fsm.cancel().0,
            abbr: backspaces(EngineView { preedit: Seq::empty(), ..self.abbr }, rollback_chars),
            ..self
        };
        (s1, ResponseView { rollback_chars, ..s1.status(false) })
    }

    /// Commit whatever is composing, rendered in the output form (the
    /// engine is not told).
    pub open spec fn flush_now(self) -> (SessionView, ResponseView) {
        let (fsm, ev) = self.fsm.flush();
        let s1 = SessionView { fsm, ..self };
        let commit = match ev {
            EventView::Commit(c) => render_chars(self.form, c),
            _ => Seq::empty(),
        };
        (s1, s1.respond(commit, false, None))
    }

    /// Switch the Hangul layout to the one configured under `id`; the
    /// composition is discarded first, and the compose mode becomes
    /// order-independent exactly for layouts that support it.
    pub open spec fn select_hangul(self, id: Seq<char>) -> (SessionView, Result<LayoutInfoView, Seq<char>>) {
        let s1 = SessionView { fsm: self.fsm.cancel().0, ..self };
        match hangul_layout_named(id) {
            None => (s1, Err("unknown hangul layout: "@ + id)),
            Some(h) => {
                let mode = if hangul_moachigi(h) {
                    ComposeMode::Moachigi
                } else {
                    ComposeMode::Sequential
                };
                let s2 = SessionView {
                    hangul: h,
                    fsm: FsmModel { mode, last_was_cho: false, ..s1.fsm },
                    ..s1
                };
                (s2, Ok(s2.layout_info()))
            },
        }
    }
}

impl ImeSession {
    /// The session's layout summary.
    pub fn layout_info(&self) -> (r: LayoutInfo)
        ensures
            r@ == self@.layout_info(),
    {
        let (id, name) = match self.active_mode {
            InputMode::Hangul => (self.hangul.id(), self.hangul.name()),
            InputMode::English => (self.latin.id(), self.latin.name()),
        };
        LayoutInfo {
            id: string_of(id),
            name: string_of(name),
            output_form: form_name(self.output_form),
            compose_mode: mode_name(self.fsm.mode()),
            supports_moachigi: self.hangul.supports_moachigi(),
            input_mode: self.active_mode.as_str(),
            hangul_layout_id: string_of(self.hangul.id()),
            latin_layout_id: string_of(self.latin.id()),
            suggestions_enabled: self.suggestions_enabled,
            backspace_mode: string_of(self.backspace_mode.as_str()),
        }
    }

    /// The layout panel: every panel key with what its base and shift
    /// layers produce under the active layout.
    pub fn layout_map(&self) -> (r: Vec<KeyHint>)
        ensures
            r@.len() == keyboard_codes().len(),
            forall|i: int| 0 <= i < r@.len() ==> (#[trigger] r@[i])@ == key_hint(
                self@,
                keyboard_labels()[i],
                keyboard_codes()[i],
            ),
    {
        let keys = keyboard_keys();
        let mut out: Vec<KeyHint> = Vec::new();
        let mut i: usize = 0;
        while i < keys.len()
            invariant
                i <= keys@.len(),
                keys@.len() == keyboard_codes().len(),
                forall|j: int| 0 <= j < keys@.len() ==> (#[trigger] keys@[j]).1 == keyboard_codes()[j]
                    && keys@[j].0@ == keyboard_labels()[j],
                out@.len() == i,
                forall|j: int| 0 <= j < i ==> (#[trigger] out@[j])@ == key_hint(
                    self@,
                    keyboard_labels()[j],
                    keyboard_codes()[j],
                ),
            decreases keys@.len() - i,
        {
            let (label, code) = keys[i];
            let base_out = self.map_key(&KeyEvent { code, mods: Modifiers::none(), repeat: false });
            let shift_out = self.map_key(&KeyEvent { code, mods: Modifiers::shift_only(), repeat: false });
            let (base, role) = describe_output(&base_out);
            let (shift, _) = describe_output(&shift_out);
            out.push(KeyHint { label, code: code_name(code), base, shift, role });
            proof {
                assert(keys@[i as int].1 == keyboard_codes()[i as int]);
            }
            i = i + 1;
        }
        out
    }

    /// The registered abbreviations, as listed for the user.
    pub fn list_abbreviations(&self) -> (r: Vec<AbbrInfo>)
        ensures
            r@.len() == self@.abbr.abbrs.len(),
            forall|i: int| 0 <= i < r@.len() ==> {
                let e = #[trigger] r@[i];
                listed(self@.abbr.abbrs[i]) == (e.id@, e.trigger@, e.body@, e.trigger_on@, e.kind@)
            },
    {
        let abbrs = self.abbr.abbreviations();
        let mut out: Vec<AbbrInfo> = Vec::new();
        let mut i: usize = 0;
        while i < abbrs.len()
            invariant
                i <= abbrs@.len(),
                abbrs@ == self@.abbr.abbrs,
                out@.len() == i,
                forall|j: int| 0 <= j < i ==> {
                    let e = #[trigger] out@[j];
                    listed(abbrs@[j]) == (e.id@, e.trigger@, e.body@, e.trigger_on@, e.kind@)
                },
            decreases abbrs@.len() - i,
        {
            out.push(abbr_info(&abbrs[i]));
            i = i + 1;
        }
        out
    }

    /// Accept a picker suggestion (see [`SessionView::apply`]).
    pub fn apply_abbreviation(&mut self, id: &str) -> (r: ImeResponse)
        requires
            old(self).wf(),
        ensures
            final(self).wf(),
            (final(self)@, r@) == old(self)@.apply(id@),
    {
        let _ = self.fsm.cancel();
        let fired = self.abbr.fire_by_id(id);
        self.abbr.set_preedit("");
        proof {
            reveal_strlit("");
            assert(""@ =~= Seq::<char>::empty());
        }
        match fired {
            AbbrEvent::Expand { abbr_id, rollback_chars, insert } => {
                let text = trailing_space(abbr_id.as_str(), insert);
                let _ = self.abbr.on_commit(text.as_str());
                let base = self.status(false);
                ImeResponse { commit: text, rollback_chars, abbr_fired: Some(abbr_id), ..base }
            },
            _ => self.status(false),
        }
    }

    /// Discard the composition without committing it.
    pub fn cancel_composition(&mut self) -> (r: ImeResponse)
        requires
            old(self).wf(),
        ensures
            final(self).wf(),
            final(self)@ == (SessionView { fsm: old(self)@.fsm.cancel().0, ..old(self)@ }).sync_preedit(),
            r@ == final(self)@.respond(Seq::empty(), false, None),
    {
        let _ = self.fsm.cancel();
        self.sync_abbr_preedit();
        self.respond(String::new(), false, None)
    }

    /// Cancel a picker match (see [`SessionView::cancel_match`]).
    pub fn cancel_abbr_match(&mut self, rollback_chars: usize) -> (r: ImeResponse)
        requires
            old(self).wf(),
        ensures
            final(self).wf(),
            (final(self)@, r@) == old(self)@.cancel_match(rollback_chars as nat),
    {
        let _ = self.fsm.cancel();
        self.abbr.set_preedit("");
        proof {
            reveal_strlit("");
            assert(""@ =~= Seq::<char>::empty());
        }
        let ghost start = self.abbr@;
        let mut i: usize = 0;
        while i < rollback_chars
            invariant
                i <= rollback_chars,
                self.abbr.wf(),
                self.abbr@ == backspaces(start, i as nat),
                self.fsm@ == old(self)@.fsm.cancel().0,
                self.fsm.wf(),
                self.hangul == old(self).hangul,
                self.latin == old(self).latin,
                self.active_mode == old(self).active_mode,
                self.output_form == old(self).output_form,
                self.suggestions_enabled == old(self).suggestions_enabled,
                self.backspace_mode@ == old(self).backspace_mode@,
                self.use_user_abbrs == old(self).use_user_abbrs,
            decreases rollback_chars - i,
        {
            self.abbr.on_backspace();
            i = i + 1;
        }
        let base = self.status(false);
        ImeResponse { rollback_chars, ..base }
    }

    /// Commit whatever is composing (see [`SessionView::flush_now`]).
    pub fn flush(&mut self) -> (r: ImeResponse)
        requires
            old(self).wf(),
        ensures
            final(self).wf(),
            (final(self)@, r@) == old(self)@.flush_now(),
    {
        let form = self.output_form;
        let commit = match self.fsm.flush() {
            FsmEvent::Commit(s) => form.render(s.as_str()),
            _ => String::new(),
        };
        self.respond(commit, false, None)
    }

    /// Switch the Hangul layout (see [`SessionView::select_hangul`]).
    pub fn set_layout(&mut self, id: &str) -> (r: Result<LayoutInfo, String>)
        requires
            old(self).wf(),
        ensures
            final(self).wf(),
            final(self)@ == old(self)@.select_hangul(id@).0,
            match r {
                Ok(info) => old(self)@.select_hangul(id@).1 == Ok::<LayoutInfoView, Seq<char>>(info@),
                Err(m) => old(self)@.select_hangul(id@).1 == Err::<LayoutInfoView, Seq<char>>(m@),
            },
    {
        let _ = self.fsm.cancel();
        let layout = match make_hangul_layout(id) {
            Some(l) => l,
            None => return Err(message_with("unknown hangul layout: ", id)),
        };
        self.hangul = layout;
        let default_mode = if self.hangul.supports_moachigi() {
            ComposeMode::Moachigi
        } else {
            ComposeMode::Sequential
        };
        self.fsm.set_mode(default_mode);
        Ok(self.layout_info())
    }

    /// Switch the Latin layout to the one configured under `id`.
    pub fn set_latin_layout(&mut self, id: &str) -> (r: Result<LayoutInfo, String>)
        requires
            old(self).wf(),
        ensures
            final(self).wf(),
            match latin_layout_named(id@) {
                None => (final(self)@ == old(self)@) && (r matches Err(m) && m@ == "unknown latin layout: "@ + id@),
                Some(l) => (final(self)@ == (SessionView { latin: l, ..old(self)@ })) && (r matches Ok(info) && info@ == final(self)@.layout_info()),
            },
    {
        let layout = match make_latin_layout(id) {
            Some(l) => l,
            None => return Err(message_with("unknown latin layout: ", id)),
        };
        self.latin = layout;
        Ok(self.layout_info())
    }

    /// Switch the input mode to the one called `mode`; the composition is
    /// flushed first (without telling the engine).
    pub fn set_input_mode(&mut self, mode: &str) -> (r: Result<LayoutInfo, String>)
        requires
            old(self).wf(),
        ensures
            final(self).wf(),
            match input_mode_named(mode@) {
                None => (final(self)@ == old(self)@) && (r matches Err(m) && m@ == "unknown input mode: "@ + mode@),
                Some(m) => (final(self)@ == (SessionView { mode: m, fsm: old(self)@.fsm.flush().0, ..old(self)@ }))
                    && (r matches Ok(info) && info@ == final(self)@.layout_info()),
            },
    {
        let new_mode = match InputMode::parse(mode) {
            Some(m) => m,
            None => return Err(message_with("unknown input mode: ", mode)),
        };
        let _ = self.fsm.flush();
        self.active_mode = new_mode;
        Ok(self.layout_info())
    }

    /// Switch the output form to the one configured under `form`.
    pub fn set_output_form(&mut self, form: &str) -> (r: Result<LayoutInfo, String>)
        requires
            old(self).wf(),
        ensures
            final(self).wf(),
            match output_form_named(form@) {
                None => (final(self)@ == old(self)@) && (r matches Err(m) && m@ == "unknown output form: "@ + form@),
                Some(f) => (final(self)@ == (SessionView { form: f, ..old(self)@ })) && (r matches Ok(info) && info@ == final(self)@.layout_info()),
            },
    {
        let f = match parse_output_form(form) {
            Some(f) => f,
            None => return Err(message_with("unknown output form: ", form)),
        };
        self.output_form = f;
        Ok(self.layout_info())
    }

    /// Show or hide the picker.
    pub fn set_suggestions_enabled(&mut self, enabled: bool) -> (r: LayoutInfo)
        requires
            old(self).wf(),
        ensures
            final(self).wf(),
            final(self)@ == (SessionView { suggestions_enabled: enabled, ..old(self)@ }),
            r@ == final(self)@.layout_info(),
    {
        self.suggestions_enabled = enabled;
        self.layout_info()
    }

    /// Set Backspace granularity: `"syllable"` or `"jamo"`.
    pub fn set_backspace_mode(&mut self, mode: &str) -> (r: Result<LayoutInfo, String>)
        requires
            old(self).wf(),
        ensures
            final(self).wf(),
            (mode@ == "syllable"@ || mode@ == "jamo"@) ==> (final(self)@ == (SessionView {
                backspace_mode: mode@,
                ..old(self)@
            })) && (r matches Ok(info) && info@ == final(self)@.layout_info()),
            !(mode@ == "syllable"@ || mode@ == "jamo"@) ==> (final(self)@ == old(self)@) && (r matches Err(m) && m@ == "unknown backspace mode: "@ + mode@),
    {
        if str_eq(mode, "syllable") || str_eq(mode, "jamo") {
            self.backspace_mode = string_of(mode);
            Ok(self.layout_info())
        } else {
            Err(message_with("unknown backspace mode: ", mode))
        }
    }

    /// Switch the compose mode to the one configured under `mode`.
    pub fn set_compose_mode(&mut self, mode: &str) -> (r: Result<LayoutInfo, String>)
        requires
            old(self).wf(),
        ensures
            final(self).wf(),
            match compose_mode_named(mode@) {
                None => (final(self)@ == old(self)@) && (r matches Err(m) && m@ == "unknown compose mode: "@ + mode@),
                Some(c) => (final(self)@ == (SessionView {
                    fsm: FsmModel { mode: c, last_was_cho: false, ..old(self)@.fsm },
                    ..old(self)@
                })) && (r matches Ok(info) && info@ == final(self)@.layout_info()),
            },
    {
        let m = match parse_compose_mode(mode) {
            Some(m) => m,
            None => return Err(message_with("unknown compose mode: ", mode)),
        };
        self.fsm.set_mode(m);
        Ok(self.layout_info())
    }

    /// Record whether user dictionaries are merged, and reload the
    /// session's dictionary.
    pub fn set_use_user_abbrs(&mut self, enabled: bool)
        requires
            old(self).wf(),
        ensures
            final(self).wf(),
            final(self)@.use_user_abbrs == enabled,
            final(self)@.abbr.active is None,
            final(self)@.abbr.tail == old(self)@.abbr.tail,
            final(self)@.abbr.preedit == old(self)@.abbr.preedit,
            final(self)@.abbr.enabled == old(self)@.abbr.enabled,
            forall|i: int| 0 <= i < final(self)@.abbr.abbrs.len() ==> (#[trigger] final(self)@.abbr.abbrs[i]).trigger@ is ChoSeq,
            crate::abbr::loader::abbr_views(final(self)@.abbr.abbrs) == session_entries(),
            final(self)@.fsm == old(self)@.fsm,
            final(self)@.mode == old(self)@.mode,
    {
        let merged = build_merged_abbrs();
        self.use_user_abbrs = enabled;
        self.abbr.set_abbreviations(merged);
    }

    /// The settings describing this session, for saving.
    pub fn settings_snapshot(&self) -> (r: crate::settings::Settings)
        ensures
            r@ == snapshot_of(self@),
    {
        crate::settings::Settings {
            hangul_layout_id: string_of(self.hangul.id()),
            latin_layout_id: string_of(self.latin.id()),
            input_mode: string_of(self.active_mode.as_str()),
            output_form: string_of(form_name(self.output_form)),
            compose_mode: string_of(mode_name(self.fsm.mode())),
            suggestions_enabled: self.suggestions_enabled,
            backspace_mode: string_of(self.backspace_mode.as_str()),
            use_user_abbrs: self.use_user_abbrs,
            layout_id: None,
        }
    }
}

/// What the settings file records of a session.
pub struct SessionConfig {
    pub hangul: HangulLayoutId,
    pub latin: LatinLayoutId,
    pub mode: InputMode,
    pub form: OutputForm,
    pub compose: ComposeMode,
    pub suggestions_enabled: bool,
    pub backspace_mode: Seq<char>,
    pub use_user_abbrs: bool,
}

/// The configuration of session `v`.
pub open spec fn config_of(v: SessionView) -> SessionConfig {
    SessionConfig {
        hangul: v.hangul,
        latin: v.latin,
        mode: v.mode,
        form: v.form,
        compose: v.fsm.mode,
        suggestions_enabled: v.suggestions_enabled,
        backspace_mode: v.backspace_mode,
        use_user_abbrs: v.use_user_abbrs,
    }
}

/// The settings saved for session `v`.
pub open spec fn snapshot_of(v: SessionView) -> crate::settings::SettingsView {
    crate::settings::SettingsView {
        hangul_layout_id: hangul_id_text(v.hangul),
        latin_layout_id: latin_id_text(v.latin),
        input_mode: mode_text(v.mode),
        output_form: form_text(v.form),
        compose_mode: compose_text(v.fsm.mode),
        suggestions_enabled: v.suggestions_enabled,
        backspace_mode: v.backspace_mode,
        use_user_abbrs: v.use_user_abbrs,
        layout_id: None,
    }
}

/// The configuration restored from saved settings `s`: unknown names
/// fall back to 세벌식 최종, QWERTY, Hangul mode and NFC output; an
/// unknown compose mode to the layout's preferred one (order-independent
/// where the layout supports it); Backspace is jamo-wise only when saved
/// as `jamo`.
pub open spec fn restored_config(s: crate::settings::SettingsView) -> SessionConfig {
    let hangul = match hangul_layout_named(s.hangul_layout_id) {
        Some(h) => h,
        None => HangulLayoutId::SebeolsikFinal,
    };
    SessionConfig {
        hangul,
        latin: match latin_layout_named(s.latin_layout_id) {
            Some(l) => l,
            None => LatinLayoutId::Qwerty,
        },
        mode: match input_mode_named(s.input_mode) {
            Some(m) => m,
            None => InputMode::Hangul,
        },
        form: match output_form_named(s.output_form) {
            Some(f) => f,
            None => OutputForm::NfcSyllable,
        },
        compose: match compose_mode_named(s.compose_mode) {
            Some(c) => c,
            None => if hangul_moachigi(hangul) {
                ComposeMode::Moachigi
            } else {
                ComposeMode::Sequential
            },
        },
        suggestions_enabled: s.suggestions_enabled,
        backspace_mode: if s.backspace_mode == "jamo"@ {
            "jamo"@
        } else {
            "syllable"@
        },
        use_user_abbrs: s.use_user_abbrs,
    }
}

impl ImeSession {
    /// A session set up from saved settings (see [`restored_config`]),
    /// with an empty composition and a fresh dictionary.
    pub fn from_settings(saved: &crate::settings::Settings) -> (r: Self)
        ensures
            r.wf(),
            config_of(r@) == restored_config(saved@),
            r@.fsm.state == empty_state(),
            !r@.fsm.jong_from_dual,
            !r@.fsm.same_slot_overwrite,
            !r@.fsm.last_was_cho,
            r@.abbr.tail.len() == 0,
            r@.abbr.preedit.len() == 0,
            r@.abbr.active is None,
            r@.abbr.enabled,
            forall|i: int| 0 <= i < r@.abbr.abbrs.len() ==> (#[trigger] r@.abbr.abbrs[i]).trigger@ is ChoSeq,
            crate::abbr::loader::abbr_views(r@.abbr.abbrs) == session_entries(),
    {
        let hangul = match make_hangul_layout(saved.hangul_layout_id.as_str()) {
            Some(h) => h,
            None => HangulLayoutId::SebeolsikFinal,
        };
        let latin = match make_latin_layout(saved.latin_layout_id.as_str()) {
            Some(l) => l,
            None => LatinLayoutId::Qwerty,
        };
        let mut sess = ImeSession::new(hangul, latin);
        sess.use_user_abbrs = saved.use_user_abbrs;
        sess.active_mode = match InputMode::parse(saved.input_mode.as_str()) {
            Some(m) => m,
            None => InputMode::Hangul,
        };
        sess.output_form = match parse_output_form(saved.output_form.as_str()) {
            Some(f) => f,
            None => OutputForm::NfcSyllable,
        };
        let mode = match parse_compose_mode(saved.compose_mode.as_str()) {
            Some(c) => c,
            None => if hangul.supports_moachigi() {
                ComposeMode::Moachigi
            } else {
                ComposeMode::Sequential
            },
        };
        sess.fsm.set_mode(mode);
        sess.suggestions_enabled = saved.suggestions_enabled;
        sess.backspace_mode = if str_eq(saved.backspace_mode.as_str(), "jamo") {
            string_of("jamo")
        } else {
            string_of("syllable")
        };
        sess
    }
}

/// `prefix` followed by `rest`.
fn message_with(prefix: &str, rest: &str) -> (r: String)
    ensures
        r@ == prefix@ + rest@,
{
    let mut m = string_of(prefix);
    push_str(&mut m, rest);
    m
}

/// Whether `s` ends with one of `cs`.
fn ends_with_any_exec(s: &Vec<char>, cs: &Vec<char>) -> (r: bool)
    ensures
        r == ends_with_any(s@, cs@),
{
    if s.len() == 0 {
        return false;
    }
    let last = s[s.len() - 1];
    let mut i: usize = 0;
    while i < cs.len()
        invariant
            i <= cs@.len(),
            s@.len() > 0,
            last == s@.last(),
            forall|j: int| 0 <= j < i ==> cs@[j] != last,
        decreases cs@.len() - i,
    {
        if cs[i] == last {
            return true;
        }
        i = i + 1;
    }
    false
}

/// The expansion text with its trailing space (see
/// [`with_trailing_space`]).
fn trailing_space(abbr_id: &str, insert: String) -> (r: String)
    ensures
        r@ == with_trailing_space(abbr_id@, insert@),
{
    let chars = chars_of(insert.as_str());
    if ends_with_any_exec(&chars, &vec![' ', '\n', '\t']) {
        return insert;
    }
    let id = chars_of(abbr_id);
    let prefix = chars_of("conj-");
    proof {
        reveal_strlit("conj-");
    }
    let conj = id.len() >= 5 && crate::text::chars_eq(&id.as_slice()[0..5], prefix.as_slice());
    if conj || ends_with_any_exec(&chars, &vec!['.', '?', '!']) {
        let mut s = insert;
        string_push(&mut s, ' ');
        s
    } else {
        insert
    }
}

} // verus!

verus! {

impl ImeSession {
    /// Return the session to the default settings: 세벌식 최종 with
    /// order-independent composition, QWERTY, Hangul mode, NFC output,
    /// suggestions on, syllable-wise Backspace, user dictionaries merged;
    /// the composition is discarded and the dictionary reloaded.
    pub fn reset_to_defaults(&mut self) -> (r: LayoutInfo)
        requires
            old(self).wf(),
        ensures
            final(self).wf(),
            final(self)@.hangul == HangulLayoutId::SebeolsikFinal,
            final(self)@.latin == LatinLayoutId::Qwerty,
            final(self)@.mode == InputMode::Hangul,
            final(self)@.form == OutputForm::NfcSyllable,
            final(self)@.fsm == (FsmModel {
                mode: ComposeMode::Moachigi,
                last_was_cho: false,
                ..old(self)@.fsm.cancel().0
            }),
            final(self)@.suggestions_enabled,
            final(self)@.backspace_mode == "syllable"@,
            final(self)@.use_user_abbrs,
            final(self)@.abbr.active is None,
            final(self)@.abbr.tail == old(self)@.abbr.tail,
            final(self)@.abbr.preedit == old(self)@.abbr.preedit,
            final(self)@.abbr.enabled == old(self)@.abbr.enabled,
            forall|i: int| 0 <= i < final(self)@.abbr.abbrs.len() ==> (#[trigger] final(self)@.abbr.abbrs[i]).trigger@ is ChoSeq,
            crate::abbr::loader::abbr_views(final(self)@.abbr.abbrs) == session_entries(),
            r@ == final(self)@.layout_info(),
    {
        proof {
            reveal_strlit("sebeolsik-final");
            reveal_strlit("dubeolsik-std");
            reveal_strlit("sebeolsik-390");
            reveal_strlit("qwerty-us");
            reveal_strlit("nfc");
            reveal_strlit("moachigi");
            reveal_strlit("sequential");
            assert("sebeolsik-final"@.len() == 15);
            assert("dubeolsik-std"@.len() == 13);
            assert(hangul_layout_named("sebeolsik-final"@) == Some(HangulLayoutId::SebeolsikFinal));
            assert("moachigi"@.len() == 8);
            assert("sequential"@.len() == 10);
            assert(compose_mode_named("moachigi"@) == Some(ComposeMode::Moachigi));
        }
        let defaults = crate::settings::Settings::default();
        let _ = self.fsm.cancel();
        let hangul = match make_hangul_layout(defaults.hangul_layout_id.as_str()) {
            Some(h) => h,
            None => HangulLayoutId::SebeolsikFinal,
        };
        let latin = match make_latin_layout(defaults.latin_layout_id.as_str()) {
            Some(l) => l,
            None => LatinLayoutId::Qwerty,
        };
        self.hangul = hangul;
        self.latin = latin;
        self.active_mode = InputMode::Hangul;
        self.output_form = match parse_output_form(defaults.output_form.as_str()) {
            Some(f) => f,
            None => OutputForm::NfcSyllable,
        };
        let compose = match parse_compose_mode(defaults.compose_mode.as_str()) {
            Some(c) => c,
            None => ComposeMode::Moachigi,
        };
        self.fsm.set_mode(compose);
        self.suggestions_enabled = defaults.suggestions_enabled;
        self.backspace_mode = defaults.backspace_mode;
        self.use_user_abbrs = defaults.use_user_abbrs;
        let merged = build_merged_abbrs();
        self.abbr.set_abbreviations(merged);
        self.layout_info()
    }
}

} // verus!

verus! {

/// Every configuration name the session writes is read back as the same
/// value: input modes, Hangul and Latin layouts, output forms and compose
/// modes. Toggling the input mode twice restores it.
pub proof fn lemma_names_round_trip(m: InputMode, h: HangulLayoutId, l: LatinLayoutId, f: OutputForm, c: ComposeMode)
    ensures
        input_mode_named(mode_text(m)) == Some(m),
        spec_toggled(spec_toggled(m)) == m,
        hangul_layout_named(hangul_id_text(h)) == Some(h),
        latin_layout_named(latin_id_text(l)) == Some(l),
        output_form_named(form_text(f)) == Some(f),
        compose_mode_named(compose_text(c)) == Some(c),
{
    reveal_strlit("hangul");
    reveal_strlit("english");
    reveal_strlit("dubeolsik-std");
    reveal_strlit("sebeolsik-390");
    reveal_strlit("sebeolsik-final");
    reveal_strlit("os-ime");
    reveal_strlit("qwerty-us");
    reveal_strlit("dvorak");
    reveal_strlit("nfc");
    reveal_strlit("conjoining");
    reveal_strlit("compat");
    reveal_strlit("sequential");
    reveal_strlit("moachigi");
    assert("hangul"@.len() == 6 && "english"@.len() == 7);
    assert("dubeolsik-std"@.len() == 13 && "sebeolsik-390"@.len() == 13);
    assert("sebeolsik-final"@.len() == 15 && "os-ime"@.len() == 6);
    assert("dubeolsik-std"@[0] == 'd' && "sebeolsik-390"@[0] == 's');
    assert("qwerty-us"@.len() == 9 && "dvorak"@.len() == 6);
    assert("nfc"@.len() == 3 && "conjoining"@.len() == 10 && "compat"@.len() == 6);
    assert("sequential"@.len() == 10 && "moachigi"@.len() == 8);
}

/// Settings saved from a session restore its configuration: each saved
/// name is read back as the session's layout, mode, output form and
/// compose mode.
pub proof fn lemma_snapshot_restores_configuration(v: SessionView)
    ensures
        hangul_layout_named(hangul_id_text(v.hangul)) == Some(v.hangul),
        latin_layout_named(latin_id_text(v.latin)) == Some(v.latin),
        input_mode_named(mode_text(v.mode)) == Some(v.mode),
        output_form_named(form_text(v.form)) == Some(v.form),
        compose_mode_named(compose_text(v.fsm.mode)) == Some(v.fsm.mode),
{
    lemma_names_round_trip(v.mode, v.hangul, v.latin, v.form, v.fsm.mode);
}

/// Saving a session and setting a new one up from the saved settings
/// gives back the same configuration: layouts, input mode, output form,
/// compose mode, suggestions, Backspace mode and dictionary choice.
pub proof fn lemma_restore_snapshot(v: SessionView)
    requires
        v.wf(),
    ensures
        restored_config(snapshot_of(v)) == config_of(v),
{
    lemma_snapshot_restores_configuration(v);
    reveal_strlit("jamo");
    reveal_strlit("syllable");
}

/// A modifier key pressed alone changes nothing: the composition, the
/// engine and every setting stay as they are, and the current preedit is
/// reported back uncommitted.
pub proof fn lemma_modifier_alone_is_inert(v: SessionView, name: Seq<char>, shift: bool, ctrl: bool, alt: bool, meta: bool, within_chord: bool)
    requires
        is_modifier_name(name),
    ensures
        v.key_input(name, shift, ctrl, alt, meta, within_chord).0 == v,
        v.key_input(name, shift, ctrl, alt, meta, within_chord).1.commit.len() == 0,
        v.key_input(name, shift, ctrl, alt, meta, within_chord).1.preedit == v.preedit_display(),
{
    reveal_strlit("ShiftLeft");
    reveal_strlit("ShiftRight");
    reveal_strlit("ControlLeft");
    reveal_strlit("ControlRight");
    reveal_strlit("AltLeft");
    reveal_strlit("AltRight");
    reveal_strlit("MetaLeft");
    reveal_strlit("MetaRight");
    reveal_strlit("OSLeft");
    reveal_strlit("OSRight");
    reveal_strlit("ContextMenu");
    crate::layout::key::lemma_no_key_named_like_modifier(name);
}

/// Escape discards the composition without committing anything, and
/// toggling the input mode twice (with no composition in between) comes
/// back to the starting mode.
pub proof fn lemma_escape_and_toggle(v: SessionView, shift: bool, ctrl: bool, alt: bool, meta: bool, within_chord: bool)
    ensures
        ({
            let (w, r, _) = v.known_key(KeyCode::Escape, shift, ctrl, alt, meta, within_chord);
            &&& r.commit.len() == 0
            &&& !w.fsm.composing()
        }),
        ({
            let (w1, _, e1) = v.known_key(KeyCode::CapsLock, shift, ctrl, alt, meta, within_chord);
            let (w2, _, e2) = w1.known_key(KeyCode::CapsLock, shift, ctrl, alt, meta, within_chord);
            &&& w2.mode == v.mode
            &&& e1.persist && e2.persist
        }),
{
}

} // verus!
