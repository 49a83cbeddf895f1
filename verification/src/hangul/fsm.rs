//! Hangul composition finite-state machine.
//!
//! The FSM consumes [`JamoInput`] events (produced by a keyboard layout)
//! and emits [`FsmEvent`]s that describe how the in-progress composition
//! (*preedit*) and finalized text (*commit*) evolve.
//!
//! The state is three independently fillable slots — Cho, Jung, Jong — so
//! the same machine runs in two modes:
//!
//! * [`ComposeMode::Sequential`] — Cho first, then Jung, then Jong; any
//!   out-of-order input commits the current syllable early.
//! * [`ComposeMode::Moachigi`] — order-independent input: each jamo is
//!   packed into its slot, and a new syllable starts only when a slot
//!   would be overwritten.
//!
//! The transition rules are stated once, as spec functions on
//! [`FsmModel`]; every executable operation is proved to follow them.
use vstd::prelude::*;
use crate::hangul::compose::{
    compose_cho_double, compose_jong, compose_jung, decompose_jong, decompose_jung, split_jong,
    spec_compose_cho_double, spec_compose_jong, spec_compose_jung, spec_decompose_jong,
    spec_decompose_jung, spec_split_jong,
};
use crate::hangul::jamo::{group_jamo, is_cho_cp, is_jong_cp, is_jung_cp, Cho, JamoInput, Jong, Jung};
use crate::text::{cp_char, is_char_value, push_cp};

verus! {

broadcast use group_jamo;

/// Composition slots. Each can independently hold a value or be empty.
#[derive(Copy, Clone, Debug, Default, PartialEq, Eq, Structural)]
pub struct CompositionState {
    /// Initial consonant slot.
    pub cho: Option<Cho>,
    /// Medial vowel slot.
    pub jung: Option<Jung>,
    /// Final consonant slot.
    pub jong: Option<Jong>,
}

/// The state with every slot empty.
pub open spec fn empty_state() -> CompositionState {
    CompositionState { cho: None, jung: None, jong: None }
}

/// The characters of one optional slot holding code point `cp`.
pub open spec fn slot_chars(present: bool, cp: u32) -> Seq<char> {
    if present {
        seq![cp_char(cp)]
    } else {
        Seq::empty()
    }
}

impl CompositionState {
    /// Every filled slot holds a code point of its own role.
    pub open spec fn wf(self) -> bool {
        &&& (self.cho matches Some(c) ==> c.wf())
        &&& (self.jung matches Some(j) ==> j.wf())
        &&& (self.jong matches Some(t) ==> t.wf())
    }

    pub open spec fn spec_is_empty(self) -> bool {
        self.cho is None && self.jung is None && self.jong is None
    }

    /// The state rendered as conjoining jamo in Cho → Jung → Jong order.
    pub open spec fn chars(self) -> Seq<char> {
        slot_chars(self.cho is Some, self.cho->0@) + slot_chars(self.jung is Some, self.jung->0@)
            + slot_chars(self.jong is Some, self.jong->0@)
    }

    /// Whether no slot is filled.
    #[verifier::when_used_as_spec(spec_is_empty)]
    pub fn is_empty(self) -> (r: bool)
        ensures
            r == self.spec_is_empty(),
    {
        self.cho.is_none() && self.jung.is_none() && self.jong.is_none()
    }

    /// Render the state as a conjoining-Jamo string in canonical
    /// Cho → Jung → Jong order.
    fn render(self) -> (r: String)
        requires
            self.wf(),
        ensures
            r@ == self.chars(),
    {
        let mut s = String::new();
        if let Some(c) = self.cho {
            push_cp(&mut s, c.codepoint());
        }
        if let Some(j) = self.jung {
            push_cp(&mut s, j.codepoint());
        }
        if let Some(t) = self.jong {
            push_cp(&mut s, t.codepoint());
        }
        s
    }
}

/// Runtime hints for a single [`HangulFsm::feed_with`] call.
///
/// `within_chord` is `true` when this keystroke arrived within the host's
/// "chord window" of the previous keystroke. Only consulted in
/// [`ComposeMode::Moachigi`].
#[derive(Copy, Clone, Debug, Default, PartialEq, Eq, Structural)]
pub struct FeedOptions {
    /// The keystroke belongs to the same chord as the previous one.
    pub within_chord: bool,
}

/// Which composition ordering rules the FSM enforces.
#[derive(Copy, Clone, Debug, Default, PartialEq, Eq, Structural)]
pub enum ComposeMode {
    /// Strict Cho → Jung → Jong order.
    #[default]
    Sequential,
    /// Order-independent input; commits only when a slot would be
    /// overwritten.
    Moachigi,
}

/// Output produced by a single FSM operation.
#[derive(Clone, Debug, PartialEq, Eq)]
pub enum FsmEvent {
    /// Nothing changed.
    Nothing,
    /// Preedit updated; no commit.
    Preedit(String),
    /// A commit happened; no preedit remains.
    Commit(String),
    /// A commit happened *and* a fresh preedit is now in progress.
    CommitThenPreedit {
        /// Finalized text.
        commit: String,
        /// New in-progress composition.
        preedit: String,
    },
}

/// The mathematical content of an [`FsmEvent`].
pub enum EventView {
    Nothing,
    Preedit(Seq<char>),
    Commit(Seq<char>),
    CommitThenPreedit(Seq<char>, Seq<char>),
}

impl View for FsmEvent {
    type V = EventView;

    open spec fn view(&self) -> EventView {
        match self {
            FsmEvent::Nothing => EventView::Nothing,
            FsmEvent::Preedit(s) => EventView::Preedit(s@),
            FsmEvent::Commit(s) => EventView::Commit(s@),
            FsmEvent::CommitThenPreedit { commit, preedit } => EventView::CommitThenPreedit(
                commit@,
                preedit@,
            ),
        }
    }
}

impl EventView {
    /// The committed text, if the event commits.
    pub open spec fn commit(self) -> Option<Seq<char>> {
        match self {
            EventView::Commit(s) => Some(s),
            EventView::CommitThenPreedit(c, _) => Some(c),
            _ => None,
        }
    }

    /// The preedit text, if the event carries one.
    pub open spec fn preedit(self) -> Option<Seq<char>> {
        match self {
            EventView::Preedit(s) => Some(s),
            EventView::CommitThenPreedit(_, p) => Some(p),
            _ => None,
        }
    }
}

impl FsmEvent {
    /// Extract the commit payload, if any.
    pub fn commit_str(&self) -> (r: Option<&str>)
        ensures
            r is Some <==> self@.commit() is Some,
            r matches Some(s) ==> s@ == self@.commit()->0,
    {
        match self {
            FsmEvent::Commit(s) => Some(s.as_str()),
            FsmEvent::CommitThenPreedit { commit, .. } => Some(commit.as_str()),
            _ => None,
        }
    }

    /// Extract the preedit payload, if any.
    pub fn preedit_str(&self) -> (r: Option<&str>)
        ensures
            r is Some <==> self@.preedit() is Some,
            r matches Some(s) ==> s@ == self@.preedit()->0,
    {
        match self {
            FsmEvent::Preedit(s) => Some(s.as_str()),
            FsmEvent::CommitThenPreedit { preedit, .. } => Some(preedit.as_str()),
            _ => None,
        }
    }
}

/// The abstract state of a [`HangulFsm`].
#[derive(Copy, Clone, Debug, PartialEq, Eq, Structural)]
pub struct FsmModel {
    /// The three composition slots.
    pub state: CompositionState,
    /// Active compose mode.
    pub mode: ComposeMode,
    /// The Jong slot was filled by a dual-role (two-set) consonant key.
    pub jong_from_dual: bool,
    /// The optional same-slot overwrite rule is on.
    pub same_slot_overwrite: bool,
    /// The previous accepted input filled the Cho slot.
    pub last_was_cho: bool,
}

impl FsmModel {
    pub open spec fn wf(self) -> bool {
        self.state.wf()
    }

    pub open spec fn composing(self) -> bool {
        !self.state.spec_is_empty()
    }

    pub open spec fn with_state(self, s: CompositionState) -> FsmModel {
        FsmModel { state: s, ..self }
    }

    /// Commit the current syllable (if any) and continue with `ns`.
    pub open spec fn commit_with_new_state(self, ns: CompositionState) -> (FsmModel, EventView) {
        let m = FsmModel { state: ns, jong_from_dual: false, ..self };
        if self.state.spec_is_empty() {
            (m, EventView::Preedit(ns.chars()))
        } else {
            (m, EventView::CommitThenPreedit(self.state.chars(), ns.chars()))
        }
    }

    /// Commit the current syllable and start a new one holding initial `c`.
    pub open spec fn commit_and_start_cho(self, c: u32) -> (FsmModel, EventView) {
        self.commit_with_new_state(CompositionState { cho: Some(Cho::spec_new(c)), ..empty_state() })
    }

    /// Commit the composition followed by the character `cp`, leaving
    /// nothing composing.
    pub open spec fn commit_all_with(self, cp: u32) -> (FsmModel, EventView) {
        (self.with_state(empty_state()), EventView::Commit(self.state.chars().push(cp_char(cp))))
    }

    /// The model with slot state `s` and a preedit event showing it.
    pub open spec fn preedit_with(self, s: CompositionState) -> (FsmModel, EventView) {
        (self.with_state(s), EventView::Preedit(s.chars()))
    }

    /// One consonant key in sequential mode.
    pub open spec fn seq_cons(self, cho_in: Option<u32>, jong_in: Option<u32>) -> (
        FsmModel,
        EventView,
    ) {
        let st = self.state;
        if cho_in is None && jong_in is None {
            (self, EventView::Nothing)
        } else if st.cho is None {
            if cho_in is Some {
                self.preedit_with(CompositionState { cho: Some(Cho::spec_new(cho_in->0)), ..st })
            } else {
                self.commit_all_with(jong_in->0)
            }
        } else if st.jung is None && st.jong is None {
            if cho_in is Some {
                match spec_compose_cho_double(st.cho->0@, cho_in->0) {
                    Some(d) => self.preedit_with(
                        CompositionState { cho: Some(Cho::spec_new(d)), ..st },
                    ),
                    None => self.commit_and_start_cho(cho_in->0),
                }
            } else {
                (self, EventView::Nothing)
            }
        } else if st.jung is Some && st.jong is None {
            if jong_in is Some {
                self.preedit_with(CompositionState { jong: Some(Jong::spec_new(jong_in->0)), ..st })
            } else {
                self.commit_and_start_cho(cho_in->0)
            }
        } else if st.jung is Some && st.jong is Some {
            let t0 = st.jong->0@;
            if jong_in is Some && spec_compose_jong(t0, jong_in->0) is Some {
                self.preedit_with(
                    CompositionState {
                        jong: Some(Jong::spec_new(spec_compose_jong(t0, jong_in->0)->0)),
                        ..st
                    },
                )
            } else if jong_in is Some && spec_decompose_jong(jong_in->0) == Some(t0) {
                self.preedit_with(CompositionState { jong: Some(Jong::spec_new(jong_in->0)), ..st })
            } else if jong_in is Some && cho_in is None {
                let ns = CompositionState { jong: Some(Jong::spec_new(jong_in->0)), ..empty_state() };
                (self.with_state(ns), EventView::CommitThenPreedit(st.chars(), ns.chars()))
            } else if cho_in is Some {
                self.commit_and_start_cho(cho_in->0)
            } else {
                (self, EventView::Nothing)
            }
        } else {
            (self, EventView::Nothing)
        }
    }

    /// One vowel key in sequential mode.
    pub open spec fn seq_jung(self, v: u32) -> (FsmModel, EventView) {
        let st = self.state;
        if st.cho is None {
            self.commit_all_with(v)
        } else if st.jung is None && st.jong is None {
            self.preedit_with(CompositionState { jung: Some(Jung::spec_new(v)), ..st })
        } else if st.jung is Some && st.jong is None {
            match spec_compose_jung(st.jung->0@, v) {
                Some(x) => self.preedit_with(CompositionState { jung: Some(Jung::spec_new(x)), ..st }),
                None => self.commit_all_with(v),
            }
        } else if st.jung is Some && st.jong is Some {
            let (keep, moved) = spec_split_jong(st.jong->0@);
            let committed = CompositionState {
                jong: if keep is Some { Some(Jong::spec_new(keep->0)) } else { None },
                ..st
            };
            let ns = CompositionState {
                cho: Some(Cho::spec_new(moved)),
                jung: Some(Jung::spec_new(v)),
                jong: None,
            };
            (self.with_state(ns), EventView::CommitThenPreedit(committed.chars(), ns.chars()))
        } else {
            (self, EventView::Nothing)
        }
    }

    /// Sequential-mode transition.
    pub open spec fn feed_sequential(self, input: JamoInput) -> (FsmModel, EventView) {
        match input {
            JamoInput::Cons { cho, jong } => self.seq_cons(cho, jong),
            JamoInput::Jung(v) => self.seq_jung(v),
        }
    }

    /// Moachigi: place an initial consonant.
    pub open spec fn place_cho(self, c: u32) -> (FsmModel, EventView) {
        let st = self.state;
        if self.same_slot_overwrite && self.last_was_cho && st.cho is Some {
            let (m, ev) = self.preedit_with(CompositionState { cho: Some(Cho::spec_new(c)), ..st });
            (FsmModel { last_was_cho: true, ..m }, ev)
        } else {
            let (m, ev) = if st.cho is None {
                self.preedit_with(CompositionState { cho: Some(Cho::spec_new(c)), ..st })
            } else if st.jung is None && st.jong is None && spec_compose_cho_double(
                st.cho->0@,
                c,
            ) is Some {
                self.preedit_with(
                    CompositionState {
                        cho: Some(Cho::spec_new(spec_compose_cho_double(st.cho->0@, c)->0)),
                        ..st
                    },
                )
            } else {
                self.commit_with_new_state(
                    CompositionState { cho: Some(Cho::spec_new(c)), ..empty_state() },
                )
            };
            (FsmModel { last_was_cho: true, ..m }, ev)
        }
    }

    /// Moachigi: the compound of two finals in either order.
    pub open spec fn either_order_jong(a: u32, b: u32) -> Option<u32> {
        if spec_compose_jong(a, b) is Some {
            spec_compose_jong(a, b)
        } else {
            spec_compose_jong(b, a)
        }
    }

    /// Moachigi: the compound of two vowels in either order.
    pub open spec fn either_order_jung(a: u32, b: u32) -> Option<u32> {
        if spec_compose_jung(a, b) is Some {
            spec_compose_jung(a, b)
        } else {
            spec_compose_jung(b, a)
        }
    }

    /// Moachigi: place a final consonant.
    pub open spec fn place_jong(self, t: u32, from_dual: bool) -> (FsmModel, EventView) {
        let st = self.state;
        if st.jong is None {
            let (m, ev) = self.preedit_with(CompositionState { jong: Some(Jong::spec_new(t)), ..st });
            (FsmModel { jong_from_dual: from_dual, ..m }, ev)
        } else {
            let e = st.jong->0@;
            if FsmModel::either_order_jong(e, t) is Some {
                let (m, ev) = self.preedit_with(
                    CompositionState {
                        jong: Some(Jong::spec_new(FsmModel::either_order_jong(e, t)->0)),
                        ..st
                    },
                );
                (FsmModel { jong_from_dual: false, ..m }, ev)
            } else if spec_decompose_jong(t) == Some(e) {
                let (m, ev) = self.preedit_with(CompositionState { jong: Some(Jong::spec_new(t)), ..st });
                (FsmModel { jong_from_dual: false, ..m }, ev)
            } else {
                let (m, ev) = self.commit_with_new_state(
                    CompositionState { jong: Some(Jong::spec_new(t)), ..empty_state() },
                );
                (FsmModel { jong_from_dual: from_dual, ..m }, ev)
            }
        }
    }

    /// Moachigi: place a medial vowel.
    pub open spec fn place_jung(self, v: u32, within_chord: bool) -> (FsmModel, EventView) {
        let st = self.state;
        if st.jung is None {
            self.preedit_with(CompositionState { jung: Some(Jung::spec_new(v)), ..st })
        } else {
            let e = st.jung->0@;
            let complete = st.cho is Some && st.jong is Some;
            let try_compound = (!complete || within_chord) && !self.jong_from_dual;
            if try_compound && FsmModel::either_order_jung(e, v) is Some {
                self.preedit_with(
                    CompositionState {
                        jung: Some(Jung::spec_new(FsmModel::either_order_jung(e, v)->0)),
                        ..st
                    },
                )
            } else if complete && self.jong_from_dual {
                let (keep, moved) = spec_split_jong(st.jong->0@);
                let committed = CompositionState {
                    jong: if keep is Some { Some(Jong::spec_new(keep->0)) } else { None },
                    ..st
                };
                let ns = CompositionState {
                    cho: Some(Cho::spec_new(moved)),
                    jung: Some(Jung::spec_new(v)),
                    jong: None,
                };
                (
                    FsmModel { state: ns, jong_from_dual: false, last_was_cho: false, ..self },
                    EventView::CommitThenPreedit(committed.chars(), ns.chars()),
                )
            } else {
                self.commit_with_new_state(
                    CompositionState { jung: Some(Jung::spec_new(v)), ..empty_state() },
                )
            }
        }
    }

    /// Moachigi: whether a consonant key goes to the Jong slot first.
    pub open spec fn prefers_jong(
        self,
        cho_in: Option<u32>,
        jong_in: Option<u32>,
        within_chord: bool,
    ) -> bool {
        let st = self.state;
        let complete = st.cho is Some && st.jung is Some && st.jong is Some;
        &&& st.cho is Some
        &&& jong_in is Some
        &&& if st.jong is None {
            !complete
        } else {
            let e = st.jong->0@;
            let t = jong_in->0;
            (spec_compose_jong(e, t) is Some || spec_decompose_jong(t) == Some(e)) && (!complete
                || within_chord)
        }
    }

    /// Moachigi-mode transition.
    pub open spec fn feed_moachigi(self, input: JamoInput, within_chord: bool) -> (
        FsmModel,
        EventView,
    ) {
        match input {
            JamoInput::Cons { cho: cho_in, jong: jong_in } => {
                if cho_in is None && jong_in is None {
                    (self, EventView::Nothing)
                } else if self.prefers_jong(cho_in, jong_in, within_chord) {
                    self.place_jong(jong_in->0, cho_in is Some && jong_in is Some)
                } else if cho_in is Some {
                    self.place_cho(cho_in->0)
                } else {
                    self.place_jong(jong_in->0, false)
                }
            },
            JamoInput::Jung(v) => self.place_jung(v, within_chord),
        }
    }

    /// One input under the active mode.
    pub open spec fn feed(self, input: JamoInput, opts: FeedOptions) -> (FsmModel, EventView) {
        match self.mode {
            ComposeMode::Sequential => self.feed_sequential(input),
            ComposeMode::Moachigi => self.feed_moachigi(input, opts.within_chord),
        }
    }

    /// Commit whatever is composing.
    pub open spec fn flush(self) -> (FsmModel, EventView) {
        if self.composing() {
            (
                FsmModel {
                    state: empty_state(),
                    jong_from_dual: false,
                    last_was_cho: false,
                    ..self
                },
                EventView::Commit(self.state.chars()),
            )
        } else {
            (FsmModel { last_was_cho: false, ..self }, EventView::Nothing)
        }
    }

    /// Discard whatever is composing.
    pub open spec fn cancel(self) -> (FsmModel, EventView) {
        let m = FsmModel { jong_from_dual: false, last_was_cho: false, ..self };
        if self.composing() {
            (m.with_state(empty_state()), EventView::Preedit(Seq::empty()))
        } else {
            (m, EventView::Nothing)
        }
    }

    /// Remove one jamo piece: the last component of the Jong, else of the
    /// Jung, else the Cho.
    pub open spec fn backspace(self) -> (FsmModel, EventView) {
        let st = self.state;
        let m = FsmModel { last_was_cho: false, ..self };
        if st.jong is Some {
            let rest = spec_decompose_jong(st.jong->0@);
            let ns = CompositionState {
                jong: if rest is Some { Some(Jong::spec_new(rest->0)) } else { None },
                ..st
            };
            let m2 = FsmModel { state: ns, jong_from_dual: if rest is Some { m.jong_from_dual } else { false }, ..m };
            (m2, EventView::Preedit(ns.chars()))
        } else if st.jung is Some {
            let rest = spec_decompose_jung(st.jung->0@);
            let ns = CompositionState {
                jung: if rest is Some { Some(Jung::spec_new(rest->0)) } else { None },
                ..st
            };
            (m.with_state(ns), EventView::Preedit(ns.chars()))
        } else if st.cho is Some {
            let ns = CompositionState { cho: None, ..st };
            (m.with_state(ns), EventView::Preedit(ns.chars()))
        } else {
            (m, EventView::Nothing)
        }
    }
}

/// Which composition slot the previous input filled. Used by the optional
/// same-slot overwrite rule; only the Cho slot participates.
#[derive(Copy, Clone, Debug, PartialEq, Eq, Structural)]
enum SlotRole {
    Cho,
}

/// The Hangul composition FSM.
#[derive(Clone, Debug, Default)]
pub struct HangulFsm {
    state: CompositionState,
    mode: ComposeMode,
    /// Whether the current Jong slot was set by a dual-role key — a
    /// two-set consonant that could equally have started the next
    /// syllable. Gates moving the final to the next syllable in Moachigi
    /// mode.
    jong_from_dual: bool,
    /// When `true`, two consecutive inputs that would fill the Cho slot
    /// replace the old value instead of compounding or committing.
    same_slot_overwrite: bool,
    /// Which slot the previous accepted input filled.
    last_slot: Option<SlotRole>,
}

impl View for HangulFsm {
    type V = FsmModel;

    closed spec fn view(&self) -> FsmModel {
        FsmModel {
            state: self.state,
            mode: self.mode,
            jong_from_dual: self.jong_from_dual,
            same_slot_overwrite: self.same_slot_overwrite,
            last_was_cho: self.last_slot is Some,
        }
    }
}

fn mk_cho(cp: u32) -> (r: Cho)
    requires
        is_cho_cp(cp),
    ensures
        r == Cho::spec_new(cp),
{
    Cho::from_codepoint(cp).unwrap()
}

fn mk_jung(cp: u32) -> (r: Jung)
    requires
        is_jung_cp(cp),
    ensures
        r == Jung::spec_new(cp),
{
    Jung::from_codepoint(cp).unwrap()
}

fn mk_jong(cp: u32) -> (r: Jong)
    requires
        is_jong_cp(cp),
    ensures
        r == Jong::spec_new(cp),
{
    Jong::from_codepoint(cp).unwrap()
}

/// The state with every slot empty.
fn blank() -> (r: CompositionState)
    ensures
        r == empty_state(),
{
    CompositionState { cho: None, jung: None, jong: None }
}

proof fn lemma_jamo_are_chars(cp: u32)
    ensures
        is_cho_cp(cp) || is_jung_cp(cp) || is_jong_cp(cp) ==> is_char_value(cp),
{
}

impl HangulFsm {
    /// The FSM's slots always hold code points of their roles.
    pub open spec fn wf(&self) -> bool {
        self@.wf()
    }

    /// Construct an empty FSM in [`ComposeMode::Sequential`].
    pub fn new() -> (r: Self)
        ensures
            r.wf(),
            r@ == (FsmModel {
                state: empty_state(),
                mode: ComposeMode::Sequential,
                jong_from_dual: false,
                same_slot_overwrite: false,
                last_was_cho: false,
            }),
    {
        Self::with_mode(ComposeMode::Sequential)
    }

    /// Construct an empty FSM in the given mode.
    pub fn with_mode(mode: ComposeMode) -> (r: Self)
        ensures
            r.wf(),
            r@ == (FsmModel {
                state: empty_state(),
                mode,
                jong_from_dual: false,
                same_slot_overwrite: false,
                last_was_cho: false,
            }),
    {
        Self {
            state: blank(),
            mode,
            jong_from_dual: false,
            same_slot_overwrite: false,
            last_slot: None,
        }
    }

    /// Active compose mode.
    pub fn mode(&self) -> (r: ComposeMode)
        ensures
            r == self@.mode,
    {
        self.mode
    }

    /// Switch compose mode. Safe to call mid-composition; forgets which
    /// slot the previous input filled.
    pub fn set_mode(&mut self, mode: ComposeMode)
        ensures
            final(self)@ == (FsmModel { mode, last_was_cho: false, ..old(self)@ }),
    {
        self.mode = mode;
        self.last_slot = None;
    }

    /// Whether the optional same-slot overwrite rule is on.
    pub fn same_slot_overwrite(&self) -> (r: bool)
        ensures
            r == self@.same_slot_overwrite,
    {
        self.same_slot_overwrite
    }

    /// Enable or disable the same-slot overwrite rule. Safe to toggle
    /// mid-composition.
    pub fn set_same_slot_overwrite(&mut self, on: bool)
        ensures
            final(self)@ == (FsmModel { same_slot_overwrite: on, last_was_cho: false, ..old(self)@ }),
    {
        self.same_slot_overwrite = on;
        self.last_slot = None;
    }

    /// Current state.
    pub fn state(&self) -> (r: CompositionState)
        ensures
            r == self@.state,
    {
        self.state
    }

    /// Whether a syllable is currently in progress.
    pub fn is_composing(&self) -> (r: bool)
        ensures
            r == self@.composing(),
    {
        !self.state.is_empty()
    }

    /// Render the current preedit as conjoining Jamo.
    pub fn preedit_string(&self) -> (r: String)
        requires
            self.wf(),
        ensures
            r@ == self@.state.chars(),
    {
        self.state.render()
    }

    fn set_state_preedit(&mut self, s: CompositionState) -> (r: FsmEvent)
        requires
            s.wf(),
        ensures
            (final(self)@, r@) == old(self)@.preedit_with(s),
            final(self).wf(),
    {
        self.state = s;
        FsmEvent::Preedit(self.preedit_string())
    }

    fn commit_with_new_state(&mut self, new_state: CompositionState) -> (r: FsmEvent)
        requires
            old(self).wf(),
            new_state.wf(),
        ensures
            (final(self)@, r@) == old(self)@.commit_with_new_state(new_state),
            final(self).wf(),
    {
        self.jong_from_dual = false;
        if self.state.is_empty() {
            self.state = new_state;
            return FsmEvent::Preedit(self.preedit_string());
        }
        let commit = self.preedit_string();
        self.state = new_state;
        FsmEvent::CommitThenPreedit { commit, preedit: self.preedit_string() }
    }

    /// Commit the composition followed by `cp`, leaving nothing composing.
    fn commit_all_with(&mut self, cp: u32) -> (r: FsmEvent)
        requires
            old(self).wf(),
            is_char_value(cp),
        ensures
            (final(self)@, r@) == old(self)@.commit_all_with(cp),
            final(self).wf(),
    {
        let mut commit = self.preedit_string();
        self.state = blank();
        push_cp(&mut commit, cp);
        FsmEvent::Commit(commit)
    }

    fn commit_and_start_cho(&mut self, cho_cp: u32) -> (r: FsmEvent)
        requires
            old(self).wf(),
            is_cho_cp(cho_cp),
        ensures
            (final(self)@, r@) == old(self)@.commit_and_start_cho(cho_cp),
            final(self).wf(),
    {
        let new_cho = mk_cho(cho_cp);
        self.commit_with_new_state(CompositionState { cho: Some(new_cho), jung: None, jong: None })
    }

    /// Feed one [`JamoInput`] and advance the FSM according to the active
    /// [`ComposeMode`].
    pub fn feed(&mut self, input: JamoInput) -> (r: FsmEvent)
        requires
            old(self).wf(),
            input.wf(),
        ensures
            (final(self)@, r@) == old(self)@.feed(input, FeedOptions { within_chord: false }),
            final(self).wf(),
    {
        self.feed_with(input, FeedOptions { within_chord: false })
    }

    /// Like [`Self::feed`] but accepts runtime hints. Sequential mode
    /// ignores `opts`.
    pub fn feed_with(&mut self, input: JamoInput, opts: FeedOptions) -> (r: FsmEvent)
        requires
            old(self).wf(),
            input.wf(),
        ensures
            (final(self)@, r@) == old(self)@.feed(input, opts),
            final(self).wf(),
    {
        match self.mode {
            ComposeMode::Sequential => self.feed_sequential(input),
            ComposeMode::Moachigi => self.feed_moachigi(input, opts),
        }
    }

    fn feed_sequential(&mut self, input: JamoInput) -> (r: FsmEvent)
        requires
            old(self).wf(),
            input.wf(),
        ensures
            (final(self)@, r@) == old(self)@.feed_sequential(input),
            final(self).wf(),
    {
        let st = self.state;
        match input {
            JamoInput::Cons { cho: cho_in, jong: jong_in } => {
                if cho_in.is_none() && jong_in.is_none() {
                    return FsmEvent::Nothing;
                }
                match (st.cho, st.jung, st.jong) {
                    (None, _, _) => {
                        if let Some(c) = cho_in {
                            self.set_state_preedit(CompositionState { cho: Some(mk_cho(c)), ..st })
                        } else if let Some(t) = jong_in {
                            proof {
                                lemma_jamo_are_chars(t);
                            }
                            self.commit_all_with(t)
                        } else {
                            FsmEvent::Nothing
                        }
                    },
                    (Some(existing), None, None) => {
                        if let Some(c) = cho_in {
                            proof {
                                crate::hangul::compose::lemma_tables_stay_in_range(existing@, c);
                            }
                            if let Some(d) = compose_cho_double(existing.codepoint(), c) {
                                self.set_state_preedit(CompositionState { cho: Some(mk_cho(d)), ..st })
                            } else {
                                self.commit_and_start_cho(c)
                            }
                        } else {
                            FsmEvent::Nothing
                        }
                    },
                    (Some(_), Some(_), None) => {
                        if let Some(t) = jong_in {
                            self.set_state_preedit(CompositionState { jong: Some(mk_jong(t)), ..st })
                        } else if let Some(c) = cho_in {
                            self.commit_and_start_cho(c)
                        } else {
                            FsmEvent::Nothing
                        }
                    },
                    (Some(_), Some(_), Some(t0)) => {
                        if let Some(t) = jong_in {
                            proof {
                                crate::hangul::compose::lemma_tables_stay_in_range(t0@, t);
                            }
                            if let Some(combined) = compose_jong(t0.codepoint(), t) {
                                return self.set_state_preedit(
                                    CompositionState { jong: Some(mk_jong(combined)), ..st },
                                );
                            }
                            if decompose_jong(t) == Some(t0.codepoint()) {
                                return self.set_state_preedit(
                                    CompositionState { jong: Some(mk_jong(t)), ..st },
                                );
                            }
                            if cho_in.is_none() {
                                let prev = self.preedit_string();
                                self.state = CompositionState {
                                    cho: None,
                                    jung: None,
                                    jong: Some(mk_jong(t)),
                                };
                                return FsmEvent::CommitThenPreedit {
                                    commit: prev,
                                    preedit: self.preedit_string(),
                                };
                            }
                        }
                        if let Some(c) = cho_in {
                            self.commit_and_start_cho(c)
                        } else {
                            FsmEvent::Nothing
                        }
                    },
                    _ => FsmEvent::Nothing,
                }
            },
            JamoInput::Jung(v) => {
                match (st.cho, st.jung, st.jong) {
                    (None, _, _) => {
                        proof {
                            lemma_jamo_are_chars(v);
                        }
                        self.commit_all_with(v)
                    },
                    (Some(_), None, None) => {
                        self.set_state_preedit(CompositionState { jung: Some(mk_jung(v)), ..st })
                    },
                    (Some(_), Some(j0), None) => {
                        proof {
                            crate::hangul::compose::lemma_tables_stay_in_range(j0@, v);
                            lemma_jamo_are_chars(v);
                        }
                        if let Some(combined) = compose_jung(j0.codepoint(), v) {
                            self.set_state_preedit(
                                CompositionState { jung: Some(mk_jung(combined)), ..st },
                            )
                        } else {
                            self.commit_all_with(v)
                        }
                    },
                    (Some(c0), Some(j0), Some(t0)) => {
                        proof {
                            crate::hangul::compose::lemma_tables_stay_in_range(t0@, 0);
                        }
                        let (keep, move_cho) = split_jong(t0.codepoint());
                        let committed = CompositionState {
                            cho: Some(c0),
                            jung: Some(j0),
                            jong: match keep {
                                Some(cp) => Some(mk_jong(cp)),
                                None => None,
                            },
                        };
                        let commit = committed.render();
                        self.state = CompositionState {
                            cho: Some(mk_cho(move_cho)),
                            jung: Some(mk_jung(v)),
                            jong: None,
                        };
                        FsmEvent::CommitThenPreedit { commit, preedit: self.preedit_string() }
                    },
                    _ => FsmEvent::Nothing,
                }
            },
        }
    }

    fn feed_moachigi(&mut self, input: JamoInput, opts: FeedOptions) -> (r: FsmEvent)
        requires
            old(self).wf(),
            input.wf(),
        ensures
            (final(self)@, r@) == old(self)@.feed_moachigi(input, opts.within_chord),
            final(self).wf(),
    {
        match input {
            JamoInput::Cons { cho: cho_in, jong: jong_in } => {
                if cho_in.is_none() && jong_in.is_none() {
                    return FsmEvent::Nothing;
                }
                // Once cho + jung + jong are all filled the syllable is
                // done; the next key starts a new syllable rather than
                // bleeding into it (unless the chord hint says otherwise).
                let syllable_complete = self.state.cho.is_some() && self.state.jung.is_some()
                    && self.state.jong.is_some();
                let is_dual = cho_in.is_some() && jong_in.is_some();
                let prefer_jong = self.state.cho.is_some() && jong_in.is_some() && match (
                    self.state.jong,
                    jong_in,
                ) {
                    (None, Some(_)) => !syllable_complete,
                    (Some(existing), Some(t)) => {
                        let composes = compose_jong(existing.codepoint(), t).is_some()
                            || decompose_jong(t) == Some(existing.codepoint());
                        composes && (!syllable_complete || opts.within_chord)
                    },
                    _ => false,
                };
                if prefer_jong {
                    let t = jong_in.unwrap();
                    return self.place_jong(t, is_dual);
                }
                if let Some(c) = cho_in {
                    return self.place_cho(c);
                }
                if let Some(t) = jong_in {
                    return self.place_jong(t, false);
                }
                FsmEvent::Nothing
            },
            JamoInput::Jung(v) => self.place_jung(v, opts),
        }
    }

    fn place_cho(&mut self, cho_cp: u32) -> (r: FsmEvent)
        requires
            old(self).wf(),
            is_cho_cp(cho_cp),
        ensures
            (final(self)@, r@) == old(self)@.place_cho(cho_cp),
            final(self).wf(),
    {
        let new_cho = mk_cho(cho_cp);
        let st = self.state;
        if self.same_slot_overwrite && self.last_slot.is_some() && st.cho.is_some() {
            let ev = self.set_state_preedit(CompositionState { cho: Some(new_cho), ..st });
            self.last_slot = Some(SlotRole::Cho);
            return ev;
        }
        let ev = match st.cho {
            None => self.set_state_preedit(CompositionState { cho: Some(new_cho), ..st }),
            Some(existing) => {
                proof {
                    crate::hangul::compose::lemma_tables_stay_in_range(existing@, cho_cp);
                }
                let doubled = if st.jung.is_none() && st.jong.is_none() {
                    compose_cho_double(existing.codepoint(), cho_cp)
                } else {
                    None
                };
                if let Some(d) = doubled {
                    self.set_state_preedit(CompositionState { cho: Some(mk_cho(d)), ..st })
                } else {
                    self.commit_with_new_state(
                        CompositionState { cho: Some(new_cho), jung: None, jong: None },
                    )
                }
            },
        };
        self.last_slot = Some(SlotRole::Cho);
        ev
    }

    fn place_jong(&mut self, jong_cp: u32, from_dual: bool) -> (r: FsmEvent)
        requires
            old(self).wf(),
            is_jong_cp(jong_cp),
        ensures
            (final(self)@, r@) == old(self)@.place_jong(jong_cp, from_dual),
            final(self).wf(),
    {
        let new_jong = mk_jong(jong_cp);
        let st = self.state;
        match st.jong {
            None => {
                let ev = self.set_state_preedit(CompositionState { jong: Some(new_jong), ..st });
                self.jong_from_dual = from_dual;
                ev
            },
            Some(existing) => {
                proof {
                    crate::hangul::compose::lemma_tables_stay_in_range(existing@, jong_cp);
                    crate::hangul::compose::lemma_tables_stay_in_range(jong_cp, existing@);
                }
                // A compound final may arrive in either order in a chord.
                let combined = match compose_jong(existing.codepoint(), jong_cp) {
                    Some(x) => Some(x),
                    None => compose_jong(jong_cp, existing.codepoint()),
                };
                if let Some(combined) = combined {
                    let ev = self.set_state_preedit(
                        CompositionState { jong: Some(mk_jong(combined)), ..st },
                    );
                    self.jong_from_dual = false;
                    ev
                } else if decompose_jong(jong_cp) == Some(existing.codepoint()) {
                    let ev = self.set_state_preedit(CompositionState { jong: Some(new_jong), ..st });
                    self.jong_from_dual = false;
                    ev
                } else {
                    let ev = self.commit_with_new_state(
                        CompositionState { cho: None, jung: None, jong: Some(new_jong) },
                    );
                    self.jong_from_dual = from_dual;
                    ev
                }
            },
        }
    }

    fn place_jung(&mut self, jung_cp: u32, opts: FeedOptions) -> (r: FsmEvent)
        requires
            old(self).wf(),
            is_jung_cp(jung_cp),
        ensures
            (final(self)@, r@) == old(self)@.place_jung(jung_cp, opts.within_chord),
            final(self).wf(),
    {
        let new_jung = mk_jung(jung_cp);
        let st = self.state;
        match st.jung {
            None => self.set_state_preedit(CompositionState { jung: Some(new_jung), ..st }),
            Some(existing) => {
                proof {
                    crate::hangul::compose::lemma_tables_stay_in_range(existing@, jung_cp);
                    crate::hangul::compose::lemma_tables_stay_in_range(jung_cp, existing@);
                }
                let syllable_complete = st.cho.is_some() && st.jong.is_some();
                // A dual-role final followed by a vowel moves to the next
                // syllable, so compound-vowel formation is skipped then.
                let try_compound = (!syllable_complete || opts.within_chord)
                    && !self.jong_from_dual;
                if try_compound {
                    let combined = match compose_jung(existing.codepoint(), jung_cp) {
                        Some(x) => Some(x),
                        None => compose_jung(jung_cp, existing.codepoint()),
                    };
                    if let Some(combined) = combined {
                        return self.set_state_preedit(
                            CompositionState { jung: Some(mk_jung(combined)), ..st },
                        );
                    }
                }
                if syllable_complete && self.jong_from_dual {
                    if let (Some(existing_jong), Some(existing_cho)) = (st.jong, st.cho) {
                        proof {
                            crate::hangul::compose::lemma_tables_stay_in_range(existing_jong@, 0);
                        }
                        let (keep, move_cho) = split_jong(existing_jong.codepoint());
                        let committed = CompositionState {
                            cho: Some(existing_cho),
                            jung: Some(existing),
                            jong: match keep {
                                Some(cp) => Some(mk_jong(cp)),
                                None => None,
                            },
                        };
                        let commit = committed.render();
                        self.state = CompositionState {
                            cho: Some(mk_cho(move_cho)),
                            jung: Some(new_jung),
                            jong: None,
                        };
                        self.jong_from_dual = false;
                        self.last_slot = None;
                        return FsmEvent::CommitThenPreedit {
                            commit,
                            preedit: self.preedit_string(),
                        };
                    }
                }
                self.commit_with_new_state(
                    CompositionState { cho: None, jung: Some(new_jung), jong: None },
                )
            },
        }
    }

    /// Commit the current preedit (if any) and return an event describing it.
    pub fn flush(&mut self) -> (r: FsmEvent)
        requires
            old(self).wf(),
        ensures
            (final(self)@, r@) == old(self)@.flush(),
            final(self).wf(),
    {
        if self.is_composing() {
            let out = self.preedit_string();
            self.state = blank();
            self.jong_from_dual = false;
            self.last_slot = None;
            FsmEvent::Commit(out)
        } else {
            self.last_slot = None;
            FsmEvent::Nothing
        }
    }

    /// Like [`Self::flush`] but returns the committed string directly.
    pub fn flush_string(&mut self) -> (r: String)
        requires
            old(self).wf(),
        ensures
            final(self)@ == old(self)@.flush().0,
            r@ == old(self)@.state.chars(),
            final(self).wf(),
    {
        match self.flush() {
            FsmEvent::Commit(s) => s,
            _ => String::new(),
        }
    }

    /// Discard the current composition without committing.
    pub fn cancel(&mut self) -> (r: FsmEvent)
        requires
            old(self).wf(),
        ensures
            (final(self)@, r@) == old(self)@.cancel(),
            final(self).wf(),
    {
        self.jong_from_dual = false;
        self.last_slot = None;
        if self.is_composing() {
            self.state = blank();
            FsmEvent::Preedit(String::new())
        } else {
            FsmEvent::Nothing
        }
    }

    /// Remove one Jamo piece from the current composition. Compound vowels
    /// and compound finals lose their last component before the slot
    /// empties entirely.
    pub fn backspace(&mut self) -> (r: FsmEvent)
        requires
            old(self).wf(),
        ensures
            (final(self)@, r@) == old(self)@.backspace(),
            final(self).wf(),
    {
        proof {
            crate::hangul::compose::lemma_tables_stay_in_range(0, 0);
        }
        self.last_slot = None;
        if let Some(t) = self.state.jong {
            proof {
                crate::hangul::compose::lemma_tables_stay_in_range(t@, 0);
            }
            self.state.jong = match decompose_jong(t.codepoint()) {
                Some(cp) => Some(mk_jong(cp)),
                None => None,
            };
            if self.state.jong.is_none() {
                self.jong_from_dual = false;
            }
            return FsmEvent::Preedit(self.preedit_string());
        }
        if let Some(j) = self.state.jung {
            proof {
                crate::hangul::compose::lemma_tables_stay_in_range(j@, 0);
            }
            self.state.jung = match decompose_jung(j.codepoint()) {
                Some(cp) => Some(mk_jung(cp)),
                None => None,
            };
            return FsmEvent::Preedit(self.preedit_string());
        }
        if self.state.cho.is_some() {
            self.state.cho = None;
            return FsmEvent::Preedit(self.preedit_string());
        }
        FsmEvent::Nothing
    }
}

// ──────────────────────────────── Laws ─────────────────────────────────────

/// Feed `inputs` one after another, collecting every committed text.
pub open spec fn feed_all(m: FsmModel, inputs: Seq<JamoInput>, opts: FeedOptions) -> (
    FsmModel,
    Seq<char>,
)
    decreases inputs.len(),
{
    if inputs.len() == 0 {
        (m, Seq::empty())
    } else {
        let (m1, ev) = m.feed(inputs[0], opts);
        let (m2, rest) = feed_all(m1, inputs.skip(1), opts);
        let c = match ev.commit() {
            Some(c) => c,
            None => Seq::empty(),
        };
        (m2, c + rest)
    }
}

/// Every operation keeps each slot within the range of its role.
pub proof fn lemma_operations_keep_slots_valid(m: FsmModel, input: JamoInput, opts: FeedOptions)
    requires
        m.wf(),
        input.wf(),
    ensures
        m.feed(input, opts).0.wf(),
        m.flush().0.wf(),
        m.cancel().0.wf(),
        m.backspace().0.wf(),
{
    crate::hangul::compose::lemma_tables_stay_in_range(0, 0);
    if m.state.jong is Some {
        crate::hangul::compose::lemma_tables_stay_in_range(m.state.jong->0@, 0);
    }
    if m.state.jung is Some {
        crate::hangul::compose::lemma_tables_stay_in_range(m.state.jung->0@, 0);
    }
    match input {
        JamoInput::Cons { cho, jong } => {
            if cho is Some && m.state.cho is Some {
                crate::hangul::compose::lemma_tables_stay_in_range(m.state.cho->0@, cho->0);
            }
            if jong is Some && m.state.jong is Some {
                crate::hangul::compose::lemma_tables_stay_in_range(m.state.jong->0@, jong->0);
                crate::hangul::compose::lemma_tables_stay_in_range(jong->0, m.state.jong->0@);
            }
        },
        JamoInput::Jung(v) => {
            if m.state.jung is Some {
                crate::hangul::compose::lemma_tables_stay_in_range(m.state.jung->0@, v);
                crate::hangul::compose::lemma_tables_stay_in_range(v, m.state.jung->0@);
            }
        },
    }
}

/// Flushing commits exactly the preedit that was composing and leaves
/// nothing composing.
pub proof fn lemma_flush_commits_preedit(m: FsmModel)
    ensures
        !m.flush().0.composing(),
        m.composing() ==> m.flush().1 == EventView::Commit(m.state.chars()),
        !m.composing() ==> m.flush().1 == EventView::Nothing,
{
}

/// A well-formed composition holds conjoining jamo only: at most one
/// initial (U+1100..=U+1112), then at most one medial (U+1161..=U+1175),
/// then at most one final (U+11A8..=U+11C2).
pub proof fn lemma_state_is_conjoining_jamo(s: CompositionState)
    requires
        s.wf(),
    ensures
        s.chars().len() <= 3,
        forall|i: int|
            0 <= i < s.chars().len() ==> 0x1100 <= (#[trigger] s.chars()[i]) as u32 <= 0x11FF,
{
    let parts = seq![
        slot_chars(s.cho is Some, s.cho->0@),
        slot_chars(s.jung is Some, s.jung->0@),
        slot_chars(s.jong is Some, s.jong->0@),
    ];
    assert forall|k: int, i: int| 0 <= k < 3 && 0 <= i < parts[k].len() implies 0x1100 <= (
    #[trigger] parts[k][i]) as u32 <= 0x11FF by {
        if k == 0 {
            vstd::utf8::char_u32_cast(cp_char(s.cho->0@), s.cho->0@);
        }
    }
}

/// Whether event `ev` agrees with the state `n` it leaves: a plain commit
/// leaves nothing composing, and a reported preedit is exactly what is
/// composing.
pub open spec fn event_fits_state(ev: EventView, n: FsmModel) -> bool {
    &&& (ev is Commit ==> !n.composing())
    &&& (ev matches EventView::Preedit(p) ==> p == n.state.chars())
    &&& (ev matches EventView::CommitThenPreedit(_, p) ==> p == n.state.chars())
}

/// Every event tells the truth about the state it leaves: after a
/// `Commit` no preedit remains, and a `Preedit` or `CommitThenPreedit`
/// shows exactly the new composition. This holds for feeding any jamo in
/// either mode, and for flush, cancel and backspace.
pub proof fn lemma_events_fit_state(m: FsmModel, input: JamoInput, opts: FeedOptions)
    requires
        m.wf(),
        input.wf(),
    ensures
        event_fits_state(m.feed(input, opts).1, m.feed(input, opts).0),
        event_fits_state(m.flush().1, m.flush().0),
        event_fits_state(m.cancel().1, m.cancel().0),
        event_fits_state(m.backspace().1, m.backspace().0),
{
}

/// Cancelling never commits anything and leaves nothing composing.
pub proof fn lemma_cancel_never_commits(m: FsmModel)
    ensures
        !m.cancel().0.composing(),
        m.cancel().1.commit() is None,
{
}

/// The number of jamo pieces in a state: compound vowels and compound
/// finals count as two.
pub open spec fn pieces(s: CompositionState) -> int {
    (if s.cho is Some { 1int } else { 0 }) + (if s.jung is Some {
        if spec_decompose_jung(s.jung->0@) is Some { 2int } else { 1 }
    } else { 0 }) + (if s.jong is Some {
        if spec_decompose_jong(s.jong->0@) is Some { 2int } else { 1 }
    } else { 0 })
}

/// Backspace removes exactly one jamo piece while composing, and shows the
/// remaining composition as the preedit.
pub proof fn lemma_backspace_removes_one_piece(m: FsmModel)
    requires
        m.wf(),
        m.composing(),
    ensures
        pieces(m.backspace().0.state) == pieces(m.state) - 1,
        m.backspace().1 == EventView::Preedit(m.backspace().0.state.chars()),
{
}

/// In moachigi mode the three jamo of a syllable may arrive in any order:
/// from an empty state, all six orders build the same syllable and commit
/// nothing.
pub proof fn lemma_moachigi_order_independent(
    m: FsmModel,
    c: u32,
    v: u32,
    t: u32,
    opts: FeedOptions,
)
    requires
        m.mode == ComposeMode::Moachigi,
        m.state == empty_state(),
        is_cho_cp(c),
        is_jung_cp(v),
        is_jong_cp(t),
    ensures
        ({
            let a = JamoInput::Cons { cho: Some(c), jong: None };
            let b = JamoInput::Jung(v);
            let d = JamoInput::Cons { cho: None, jong: Some(t) };
            let full = CompositionState {
                cho: Some(Cho::spec_new(c)),
                jung: Some(Jung::spec_new(v)),
                jong: Some(Jong::spec_new(t)),
            };
            &&& feed_all(m, seq![a, b, d], opts).0.state == full
            &&& feed_all(m, seq![a, d, b], opts).0.state == full
            &&& feed_all(m, seq![b, a, d], opts).0.state == full
            &&& feed_all(m, seq![b, d, a], opts).0.state == full
            &&& feed_all(m, seq![d, a, b], opts).0.state == full
            &&& feed_all(m, seq![d, b, a], opts).0.state == full
            &&& feed_all(m, seq![a, b, d], opts).1 == Seq::<char>::empty()
            &&& feed_all(m, seq![a, d, b], opts).1 == Seq::<char>::empty()
            &&& feed_all(m, seq![b, a, d], opts).1 == Seq::<char>::empty()
            &&& feed_all(m, seq![b, d, a], opts).1 == Seq::<char>::empty()
            &&& feed_all(m, seq![d, a, b], opts).1 == Seq::<char>::empty()
            &&& feed_all(m, seq![d, b, a], opts).1 == Seq::<char>::empty()
        }),
{
    let a = JamoInput::Cons { cho: Some(c), jong: None };
    let b = JamoInput::Jung(v);
    let d = JamoInput::Cons { cho: None, jong: Some(t) };
    reveal_with_fuel(feed_all, 4);
    assert(seq![a, b, d].skip(1) =~= seq![b, d]);
    assert(seq![a, d, b].skip(1) =~= seq![d, b]);
    assert(seq![b, a, d].skip(1) =~= seq![a, d]);
    assert(seq![b, d, a].skip(1) =~= seq![d, a]);
    assert(seq![d, a, b].skip(1) =~= seq![a, b]);
    assert(seq![d, b, a].skip(1) =~= seq![b, a]);
    assert(seq![b, d].skip(1) =~= seq![d]);
    assert(seq![d, b].skip(1) =~= seq![b]);
    assert(seq![a, d].skip(1) =~= seq![d]);
    assert(seq![d, a].skip(1) =~= seq![a]);
    assert(seq![a, b].skip(1) =~= seq![b]);
    assert(seq![b, a].skip(1) =~= seq![a]);
    assert(seq![a].skip(1) =~= Seq::<JamoInput>::empty());
    assert(seq![b].skip(1) =~= Seq::<JamoInput>::empty());
    assert(seq![d].skip(1) =~= Seq::<JamoInput>::empty());
}

} // verus!
