//! Abbreviation matching engine.
//!
//! A tail-oriented matcher: it keeps a sliding window of recently
//! committed characters and, after each commit or trigger event, looks
//! for the longest registered trigger that matches the tail.
use std::collections::VecDeque;
use vstd::prelude::*;
use crate::hangul::jamo::{is_cho_cp, Cho};
use crate::text::{chars_of, string_of};
use super::model::{Abbreviation, Trigger, TriggerEvent, TriggerView};

verus! {

/// Maximum number of trailing characters the engine retains.
pub const MAX_TAIL: usize = 64;

/// Outcome of an engine call.
#[derive(Clone, Debug, PartialEq, Eq)]
pub enum AbbrEvent {
    /// No match; nothing to do.
    Nothing,
    /// A match is waiting for its configured trigger event. UIs can
    /// render a preview tooltip.
    Pending {
        /// The matching abbreviation's id.
        abbr_id: String,
        /// Text that would be inserted if the user fires the trigger.
        preview: String,
    },
    /// Expand immediately: roll back the last `rollback_chars` characters
    /// from the committed buffer, then insert `insert`.
    Expand {
        /// The matching abbreviation's id.
        abbr_id: String,
        /// Characters to remove from the commit stream.
        rollback_chars: usize,
        /// Replacement body.
        insert: String,
    },
}

/// The mathematical content of an [`AbbrEvent`].
pub enum AbbrEventView {
    Nothing,
    Pending { abbr_id: Seq<char>, preview: Seq<char> },
    Expand { abbr_id: Seq<char>, rollback_chars: nat, insert: Seq<char> },
}

impl View for AbbrEvent {
    type V = AbbrEventView;

    open spec fn view(&self) -> AbbrEventView {
        match self {
            AbbrEvent::Nothing => AbbrEventView::Nothing,
            AbbrEvent::Pending { abbr_id, preview } => AbbrEventView::Pending {
                abbr_id: abbr_id@,
                preview: preview@,
            },
            AbbrEvent::Expand { abbr_id, rollback_chars, insert } => AbbrEventView::Expand {
                abbr_id: abbr_id@,
                rollback_chars: *rollback_chars as nat,
                insert: insert@,
            },
        }
    }
}

#[derive(Clone, Copy, Debug)]
struct MatchState {
    abbr_idx: usize,
    rollback_chars: usize,
}

/// A match waiting for its trigger event: which abbreviation, and how
/// many tail characters it covers.
pub struct MatchView {
    pub abbr_idx: nat,
    pub rollback_chars: nat,
}

/// A candidate abbreviation surfaced by the picker.
///
/// The engine searches three ways, ranked highest to lowest:
///
/// 1. **Exact** — the entire trigger is present at the tail.
/// 2. **Prefix** — what the user has typed is the start of the trigger.
/// 3. **Substring** — what the user has typed appears later in the
///    trigger; requires at least two characters of overlap.
#[derive(Clone, Debug, PartialEq, Eq)]
pub struct Suggestion {
    /// The abbreviation's id.
    pub abbr_id: String,
    /// Human-readable trigger (e.g. `"ㄱㅅ"`).
    pub trigger_display: String,
    /// Expansion body.
    pub body: String,
    /// `true` when the entire trigger is present at the tail.
    pub is_exact: bool,
    /// `true` when the match begins at position 0 of the trigger.
    pub is_prefix: bool,
    /// Position in the trigger (in characters) where the match starts.
    pub match_start: usize,
    /// Characters of the tail that constitute the match.
    pub rollback_chars: usize,
    /// Relevance score inherited from the registered abbreviation.
    pub priority: u32,
}

/// The mathematical content of a [`Suggestion`].
pub struct SuggestionView {
    pub abbr_id: Seq<char>,
    pub trigger_display: Seq<char>,
    pub body: Seq<char>,
    pub is_exact: bool,
    pub is_prefix: bool,
    pub match_start: nat,
    pub rollback_chars: nat,
    pub priority: u32,
}

impl View for Suggestion {
    type V = SuggestionView;

    open spec fn view(&self) -> SuggestionView {
        SuggestionView {
            abbr_id: self.abbr_id@,
            trigger_display: self.trigger_display@,
            body: self.body@,
            is_exact: self.is_exact,
            is_prefix: self.is_prefix,
            match_start: self.match_start as nat,
            rollback_chars: self.rollback_chars as nat,
            priority: self.priority,
        }
    }
}

/// The views of a sequence of suggestions.
pub open spec fn suggestion_views(s: Seq<Suggestion>) -> Seq<SuggestionView> {
    s.map_values(|x: Suggestion| x@)
}

/// The state of an [`AbbreviationEngine`].
pub struct EngineView {
    /// Registered abbreviations, in order.
    pub abbrs: Seq<Abbreviation>,
    /// Committed characters retained (at most [`MAX_TAIL`]).
    pub tail: Seq<char>,
    /// The in-progress composition reported by the host.
    pub preedit: Seq<char>,
    /// The match waiting for its trigger event, if any.
    pub active: Option<MatchView>,
    /// Whether matching is enabled.
    pub enabled: bool,
}

/// The last `n` characters of `s` (all of `s` when it is shorter).
pub open spec fn keep_last(s: Seq<char>, n: nat) -> Seq<char> {
    if s.len() <= n {
        s
    } else {
        s.subrange(s.len() - n, s.len() as int)
    }
}

/// `s` with its last `n` characters removed (empty when `n` covers it).
pub open spec fn drop_tail(s: Seq<char>, n: nat) -> Seq<char> {
    if s.len() <= n {
        Seq::empty()
    } else {
        s.take(s.len() - n)
    }
}

/// The last `k` characters of `s`.
pub open spec fn suffix(s: Seq<char>, k: nat) -> Seq<char> {
    s.subrange(s.len() - k, s.len() as int)
}

/// Whether the trigger `t` matches the whole end of `tail`: a non-empty
/// trigger whose characters (for a Cho run, whose conjoining initials)
/// are exactly the last characters of the tail.
pub open spec fn trigger_hits(t: TriggerView, tail: Seq<char>) -> bool {
    let len = t.match_len();
    &&& len > 0
    &&& len <= tail.len()
    &&& match t {
        TriggerView::ChoSeq(chos) => forall|i: int|
            0 <= i < len ==> #[trigger] chos[i] == (tail[tail.len() - len + i] as u32)
                && is_cho_cp(chos[i]),
        TriggerView::Literal(s) => suffix(tail, len) == s,
        TriggerView::Ending(s) => suffix(tail, len) == s,
    }
}

/// The longest trigger among `abbrs` that matches the end of `tail`; of
/// equally long ones, the first registered.
pub open spec fn longest_match(abbrs: Seq<Abbreviation>, tail: Seq<char>) -> Option<MatchView>
    decreases abbrs.len(),
{
    if abbrs.len() == 0 {
        None
    } else {
        let prev = longest_match(abbrs.drop_last(), tail);
        let t = abbrs.last().trigger@;
        if trigger_hits(t, tail) {
            let cand = MatchView { abbr_idx: (abbrs.len() - 1) as nat, rollback_chars: t.match_len() };
            match prev {
                None => Some(cand),
                Some(p) => if cand.rollback_chars > p.rollback_chars {
                    Some(cand)
                } else {
                    prev
                },
            }
        } else {
            prev
        }
    }
}


/// Length of the run of conjoining initials at the end of `tail`.
pub open spec fn cho_run_len(tail: Seq<char>) -> nat
    decreases tail.len(),
{
    if tail.len() == 0 {
        0
    } else if is_cho_cp(tail.last() as u32) {
        cho_run_len(tail.drop_last()) + 1
    } else {
        0
    }
}

/// The run of conjoining initials at the end of `tail`, as code points.
pub open spec fn cho_run(tail: Seq<char>) -> Seq<u32> {
    suffix(tail, cho_run_len(tail)).map_values(|c: char| c as u32)
}

/// Whitespace that counts as a word boundary.
pub open spec fn is_blank(c: char) -> bool {
    c == ' ' || c == '\n' || c == '\t'
}

/// Whether a match starting at `start` in `tail` is allowed: always for
/// an ending, and for a literal only at the start of the tail or after
/// whitespace.
pub open spec fn boundary_ok(tail: Seq<char>, literal: bool, start: int) -> bool {
    !literal || start == 0 || is_blank(tail[start - 1])
}

/// The last `k` characters of `tail` are the first `k` of `lit`, at an
/// allowed boundary.
pub open spec fn prefix_match(tail: Seq<char>, lit: Seq<char>, literal: bool, k: nat) -> bool {
    &&& 1 <= k
    &&& k <= lit.len()
    &&& k <= tail.len()
    &&& suffix(tail, k) == lit.take(k as int)
    &&& boundary_ok(tail, literal, tail.len() - k)
}

/// The largest `k <= m` with [`prefix_match`], or 0.
pub open spec fn best_prefix(tail: Seq<char>, lit: Seq<char>, literal: bool, m: nat) -> nat
    decreases m,
{
    if m == 0 {
        0
    } else if prefix_match(tail, lit, literal, m) {
        m
    } else {
        best_prefix(tail, lit, literal, (m - 1) as nat)
    }
}

/// The last `k` characters of `tail` occur in `lit` at position
/// `start >= 1`, at an allowed boundary.
pub open spec fn sub_match(tail: Seq<char>, lit: Seq<char>, literal: bool, start: nat, k: nat) -> bool {
    &&& 1 <= start
    &&& start + k <= lit.len()
    &&& k <= tail.len()
    &&& lit.subrange(start as int, (start + k) as int) == suffix(tail, k)
    &&& boundary_ok(tail, literal, tail.len() - k)
}

/// The smallest position `>= start` with [`sub_match`] for length `k`.
pub open spec fn first_sub_from(tail: Seq<char>, lit: Seq<char>, literal: bool, k: nat, start: nat) -> Option<nat>
    decreases lit.len() - start,
{
    if start >= lit.len() || start + k > lit.len() {
        None
    } else if sub_match(tail, lit, literal, start, k) {
        Some(start)
    } else {
        first_sub_from(tail, lit, literal, k, start + 1)
    }
}

/// The substring match `(position, length)` of greatest length
/// `2 <= k <= m` shorter than `lit`, at its smallest position.
pub open spec fn best_sub(tail: Seq<char>, lit: Seq<char>, literal: bool, m: nat) -> Option<(nat, nat)>
    decreases m,
{
    if m < 2 {
        None
    } else if m < lit.len() {
        match first_sub_from(tail, lit, literal, m, 1) {
            Some(st) => Some((st, m)),
            None => best_sub(tail, lit, literal, (m - 1) as nat),
        }
    } else {
        best_sub(tail, lit, literal, (m - 1) as nat)
    }
}

/// The smaller of two naturals.
pub open spec fn min_nat(a: nat, b: nat) -> nat {
    if a <= b { a } else { b }
}

/// The suggestion for `a` matched at `match_start` over `k` characters,
/// where the trigger has `full` characters.
pub open spec fn make_suggestion(a: Abbreviation, match_start: nat, k: nat, full: nat) -> SuggestionView {
    SuggestionView {
        abbr_id: a.id@,
        trigger_display: a.trigger@.display(),
        body: a.body@,
        is_exact: match_start == 0 && k == full,
        is_prefix: match_start == 0,
        match_start,
        rollback_chars: k,
        priority: a.priority,
    }
}

/// The suggestion for a literal or ending trigger `text`: the longest
/// prefix match, else the best substring match.
pub open spec fn text_suggestion(a: Abbreviation, tail: Seq<char>, text: Seq<char>, literal: bool) -> Option<SuggestionView> {
    if text.len() == 0 {
        None
    } else {
        let max_k = min_nat(text.len(), tail.len());
        let bp = best_prefix(tail, text, literal, max_k);
        if bp > 0 {
            Some(make_suggestion(a, 0, bp, text.len()))
        } else {
            match best_sub(tail, text, literal, max_k) {
                Some((ms, k)) => Some(make_suggestion(a, ms, k, text.len())),
                None => None,
            }
        }
    }
}

/// The suggestion, if any, that abbreviation `a` gives for `tail`. A Cho
/// run matches when the run of initials at the end of the tail begins
/// the trigger.
pub open spec fn suggestion_for(a: Abbreviation, tail: Seq<char>) -> Option<SuggestionView> {
    match a.trigger@ {
        TriggerView::ChoSeq(chos) => {
            let run = cho_run(tail);
            if chos.len() == 0 || run.len() == 0 || run.len() > chos.len() || chos.take(
                run.len() as int,
            ) != run {
                None
            } else {
                Some(make_suggestion(a, 0, run.len(), chos.len()))
            }
        },
        TriggerView::Literal(text) => text_suggestion(a, tail, text, true),
        TriggerView::Ending(text) => text_suggestion(a, tail, text, false),
    }
}

/// The suggestions of `abbrs` for `tail`, in registration order.
pub open spec fn raw_candidates(abbrs: Seq<Abbreviation>, tail: Seq<char>) -> Seq<SuggestionView>
    decreases abbrs.len(),
{
    if abbrs.len() == 0 {
        Seq::empty()
    } else {
        let prev = raw_candidates(abbrs.drop_last(), tail);
        match suggestion_for(abbrs.last(), tail) {
            Some(s) => prev.push(s),
            None => prev,
        }
    }
}

/// Lexicographic order on character sequences, by code point.
pub open spec fn lex_lt(a: Seq<char>, b: Seq<char>) -> bool
    decreases a.len(),
{
    if a.len() == 0 {
        b.len() > 0
    } else if b.len() == 0 {
        false
    } else if a[0] != b[0] {
        (a[0] as u32) < (b[0] as u32)
    } else {
        lex_lt(a.drop_first(), b.drop_first())
    }
}

/// Whether suggestion `a` ranks strictly before `b`: exact before
/// inexact, prefix before substring, higher priority, longer rollback,
/// shorter trigger display, then the display in lexicographic order.
pub open spec fn rank_before(a: SuggestionView, b: SuggestionView) -> bool {
    if a.is_exact != b.is_exact {
        a.is_exact
    } else if a.is_prefix != b.is_prefix {
        a.is_prefix
    } else if a.priority != b.priority {
        a.priority > b.priority
    } else if a.rollback_chars != b.rollback_chars {
        a.rollback_chars > b.rollback_chars
    } else if a.trigger_display.len() != b.trigger_display.len() {
        a.trigger_display.len() < b.trigger_display.len()
    } else {
        lex_lt(a.trigger_display, b.trigger_display)
    }
}

/// Where `x` goes in the ranked list `s`: after every element it does
/// not rank strictly before.
pub open spec fn insert_pos(s: Seq<SuggestionView>, x: SuggestionView) -> nat
    decreases s.len(),
{
    if s.len() == 0 {
        0
    } else if rank_before(x, s.last()) {
        insert_pos(s.drop_last(), x)
    } else {
        s.len()
    }
}

/// `s` sorted by rank; equally ranked suggestions keep their order.
pub open spec fn sort_ranked(s: Seq<SuggestionView>) -> Seq<SuggestionView>
    decreases s.len(),
{
    if s.len() == 0 {
        s
    } else {
        let sorted = sort_ranked(s.drop_last());
        sorted.insert(insert_pos(sorted, s.last()) as int, s.last())
    }
}

/// The first registered abbreviation with identifier `id`.
pub open spec fn find_id(abbrs: Seq<Abbreviation>, id: Seq<char>) -> Option<nat>
    decreases abbrs.len(),
{
    if abbrs.len() == 0 {
        None
    } else {
        match find_id(abbrs.drop_last(), id) {
            Some(i) => Some(i),
            None => if abbrs.last().id@ == id {
                Some((abbrs.len() - 1) as nat)
            } else {
                None
            },
        }
    }
}

/// Whether `pat` occurs somewhere in `lit`.
pub open spec fn occurs_in(lit: Seq<char>, pat: Seq<char>) -> bool {
    exists|st: int|
        0 <= st && st + pat.len() <= lit.len() && #[trigger] lit.subrange(st, st + pat.len()) == pat
}

/// The largest `k <= m` whose last `k` tail characters occur in `lit`,
/// or 0.
pub open spec fn best_occurring(tail: Seq<char>, lit: Seq<char>, m: nat) -> nat
    decreases m,
{
    if m == 0 {
        0
    } else if occurs_in(lit, suffix(tail, m)) {
        m
    } else {
        best_occurring(tail, lit, (m - 1) as nat)
    }
}

/// How many characters of `tail` an accepted suggestion for trigger `t`
/// replaces: the Cho run when it begins the trigger, or the longest end
/// of the tail that occurs in a literal or ending.
pub open spec fn fire_rollback(t: TriggerView, tail: Seq<char>) -> nat {
    match t {
        TriggerView::ChoSeq(chos) => {
            let run = cho_run(tail);
            if run.len() > 0 && run.len() <= chos.len() && chos.take(run.len() as int) == run {
                run.len()
            } else {
                0
            }
        },
        TriggerView::Literal(s) => best_occurring(tail, s, min_nat(s.len(), tail.len())),
        TriggerView::Ending(s) => best_occurring(tail, s, min_nat(s.len(), tail.len())),
    }
}

impl EngineView {
    /// The engine's invariant: the tail holds at most [`MAX_TAIL`]
    /// characters and a waiting match names a registered abbreviation.
    pub open spec fn wf(self) -> bool {
        &&& self.tail.len() <= MAX_TAIL
        &&& (self.active matches Some(m) ==> m.abbr_idx < self.abbrs.len())
    }

    /// Committed tail followed by the preedit.
    pub open spec fn effective_tail(self) -> Seq<char> {
        self.tail + self.preedit
    }

    /// Fire the waiting match if its abbreviation is configured for `ev`:
    /// the matched characters leave the tail and the match is consumed.
    /// A match configured for another event is reported as pending.
    pub open spec fn fire_active(self, ev: TriggerEvent) -> (EngineView, AbbrEventView) {
        match self.active {
            None => (self, AbbrEventView::Nothing),
            Some(m) => {
                let a = self.abbrs[m.abbr_idx as int];
                if a.trigger_on != ev {
                    (self, AbbrEventView::Pending { abbr_id: a.id@, preview: a.body@ })
                } else {
                    (
                        EngineView {
                            tail: drop_tail(self.tail, m.rollback_chars),
                            active: None,
                            ..self
                        },
                        AbbrEventView::Expand {
                            abbr_id: a.id@,
                            rollback_chars: m.rollback_chars,
                            insert: a.body@,
                        },
                    )
                }
            },
        }
    }

    /// Commit `s`: append it to the tail (keeping the last
    /// [`MAX_TAIL`] characters), find the longest match, and fire it if it
    /// is configured to fire immediately. A disabled engine ignores it.
    pub open spec fn on_commit(self, s: Seq<char>) -> (EngineView, AbbrEventView) {
        if !self.enabled {
            (self, AbbrEventView::Nothing)
        } else {
            let tail = keep_last(self.tail + s, MAX_TAIL as nat);
            EngineView { tail, active: longest_match(self.abbrs, tail), ..self }.fire_active(
                TriggerEvent::Immediate,
            )
        }
    }

    /// A non-committing trigger event: find the longest match and fire it
    /// if it is configured for `ev`. A disabled engine ignores it.
    pub open spec fn on_trigger(self, ev: TriggerEvent) -> (EngineView, AbbrEventView) {
        if !self.enabled {
            (self, AbbrEventView::Nothing)
        } else {
            EngineView { active: longest_match(self.abbrs, self.tail), ..self }.fire_active(ev)
        }
    }

    /// The picker's suggestions for the effective tail, ranked; none
    /// when disabled or when the effective tail is empty.
    pub open spec fn candidates(self) -> Seq<SuggestionView> {
        if !self.enabled || self.effective_tail().len() == 0 {
            Seq::empty()
        } else {
            sort_ranked(raw_candidates(self.abbrs, self.effective_tail()))
        }
    }

    /// Accept the suggestion of the first abbreviation with identifier
    /// `id`: the preedit is discarded, the part of the match beyond the
    /// preedit leaves the committed tail, and the body is inserted.
    pub open spec fn fire_by_id(self, id: Seq<char>) -> (EngineView, AbbrEventView) {
        match find_id(self.abbrs, id) {
            None => (self, AbbrEventView::Nothing),
            Some(i) => {
                let a = self.abbrs[i as int];
                let total = fire_rollback(a.trigger@, self.effective_tail());
                let commit: nat = if total > self.preedit.len() {
                    (total - self.preedit.len()) as nat
                } else {
                    0
                };
                (
                    EngineView {
                        tail: drop_tail(self.tail, commit),
                        preedit: Seq::empty(),
                        active: None,
                        ..self
                    },
                    AbbrEventView::Expand { abbr_id: a.id@, rollback_chars: commit, insert: a.body@ },
                )
            },
        }
    }

    /// The host removed its last character: drop it from the tail and
    /// forget the waiting match.
    pub open spec fn on_backspace(self) -> EngineView {
        EngineView { tail: drop_tail(self.tail, 1), active: None, ..self }
    }
}

/// Tail-oriented abbreviation matcher.
///
/// Tracks two streams: `commit_tail`, the characters already finalized by
/// the host, and `preedit`, the in-progress composition held by the Hangul
/// state machine. [`AbbreviationEngine::candidates`] matches against the
/// effective tail (`commit_tail` followed by `preedit`).
#[derive(Clone, Debug)]
pub struct AbbreviationEngine {
    abbrs: Vec<Abbreviation>,
    commit_tail: VecDeque<char>,
    preedit: String,
    active_match: Option<MatchState>,
    enabled: bool,
}

impl View for AbbreviationEngine {
    type V = EngineView;

    closed spec fn view(&self) -> EngineView {
        EngineView {
            abbrs: self.abbrs@,
            tail: self.commit_tail@,
            preedit: self.preedit@,
            active: match self.active_match {
                Some(m) => Some(
                    MatchView { abbr_idx: m.abbr_idx as nat, rollback_chars: m.rollback_chars as nat },
                ),
                None => None,
            },
            enabled: self.enabled,
        }
    }
}

/// The characters held by a deque, in order.
fn deque_chars(d: &VecDeque<char>) -> (r: Vec<char>)
    ensures
        r@ == d@,
{
    let mut out: Vec<char> = Vec::new();
    let mut i: usize = 0;
    while i < d.len()
        invariant
            i <= d@.len(),
            out@ == d@.take(i as int),
        decreases d@.len() - i,
    {
        out.push(d[i]);
        assert(d@.take(i as int).push(d@[i as int]) == d@.take(i + 1));
        i = i + 1;
    }
    assert(d@.take(d@.len() as int) == d@);
    out
}

/// Whether `a[a_start..a_start + len]` equals `b[b_start..b_start + len]`.
fn segments_equal(a: &[char], a_start: usize, b: &[char], b_start: usize, len: usize) -> (r: bool)
    requires
        a_start + len <= a.len(),
        b_start + len <= b.len(),
    ensures
        r == (a@.subrange(a_start as int, a_start + len) == b@.subrange(
            b_start as int,
            b_start + len,
        )),
{
    let ghost sa = a@.subrange(a_start as int, a_start + len);
    let ghost sb = b@.subrange(b_start as int, b_start + len);
    let mut i: usize = 0;
    while i < len
        invariant
            i <= len,
            a_start + len <= a.len(),
            b_start + len <= b.len(),
            sa == a@.subrange(a_start as int, a_start + len),
            sb == b@.subrange(b_start as int, b_start + len),
            forall|j: int| 0 <= j < i ==> sa[j] == sb[j],
        decreases len - i,
    {
        if a[a_start + i] != b[b_start + i] {
            assert(sa[i as int] != sb[i as int]);
            return false;
        }
        i = i + 1;
    }
    assert(sa =~= sb);
    true
}


/// Where the run of conjoining initials at the end of `tail` begins.
fn cho_run_start(tail: &Vec<char>) -> (r: usize)
    ensures
        r <= tail@.len(),
        r == tail@.len() - cho_run_len(tail@),
{
    let mut i: usize = tail.len();
    proof {
        assert(tail@.take(i as int) == tail@);
    }
    while i > 0 && Cho::from_codepoint(tail[i - 1] as u32).is_some()
        invariant
            i <= tail@.len(),
            cho_run_len(tail@) == cho_run_len(tail@.take(i as int)) + (tail@.len() - i),
        decreases i,
    {
        proof {
            let pre = tail@.take(i as int);
            assert(pre.drop_last() == tail@.take(i - 1));
            assert(pre.last() == tail@[i - 1]);
        }
        i = i - 1;
    }
    proof {
        let pre = tail@.take(i as int);
        if i > 0 {
            assert(pre.last() == tail@[i - 1]);
        }
    }
    i
}

/// The run of conjoining initials at the end of `tail`, as code points.
fn cho_run_of(tail: &Vec<char>) -> (r: Vec<u32>)
    ensures
        r@ == cho_run(tail@),
{
    let start = cho_run_start(tail);
    let mut out: Vec<u32> = Vec::new();
    let mut j: usize = start;
    while j < tail.len()
        invariant
            start <= j <= tail@.len(),
            start == tail@.len() - cho_run_len(tail@),
            out@.len() == j - start,
            forall|k: int| 0 <= k < out@.len() ==> out@[k] == (tail@[start + k] as u32),
        decreases tail@.len() - j,
    {
        out.push(tail[j] as u32);
        j = j + 1;
    }
    assert(out@ =~= cho_run(tail@));
    out
}

/// Whether a match starting at `start` is allowed (see [`boundary_ok`]).
fn boundary_ok_exec(tail: &Vec<char>, literal: bool, start: usize) -> (r: bool)
    requires
        start <= tail@.len(),
    ensures
        r == boundary_ok(tail@, literal, start as int),
{
    if !literal || start == 0 {
        return true;
    }
    let c = tail[start - 1];
    c == ' ' || c == '\n' || c == '\t'
}

/// The smaller of two lengths.
fn min_usize(a: usize, b: usize) -> (r: usize)
    ensures
        r == min_nat(a as nat, b as nat),
{
    if a <= b { a } else { b }
}

/// The longest prefix match (see [`best_prefix`]).
fn best_prefix_exec(tail: &Vec<char>, lit: &Vec<char>, literal: bool) -> (r: usize)
    ensures
        r == best_prefix(tail@, lit@, literal, min_nat(lit@.len(), tail@.len())),
        r <= lit@.len(),
        r <= tail@.len(),
{
    let max_k = min_usize(lit.len(), tail.len());
    let mut best: usize = 0;
    let mut k: usize = 0;
    while k < max_k
        invariant
            k <= max_k,
            max_k as nat == min_nat(lit@.len(), tail@.len()),
            max_k <= lit@.len(),
            max_k <= tail@.len(),
            best == best_prefix(tail@, lit@, literal, k as nat),
            best <= k,
        decreases max_k - k,
    {
        k = k + 1;
        let start = tail.len() - k;
        let same = segments_equal(tail.as_slice(), start, lit.as_slice(), 0, k);
        let bok = boundary_ok_exec(tail, literal, start);
        if same && bok {
            best = k;
        }
    }
    best
}

/// The smallest substring position for length `k` (see
/// [`first_sub_from`]).
fn first_sub_exec(tail: &Vec<char>, lit: &Vec<char>, literal: bool, k: usize) -> (r: Option<usize>)
    requires
        2 <= k,
        k <= tail@.len(),
        k < lit@.len(),
    ensures
        match r {
            Some(st) => first_sub_from(tail@, lit@, literal, k as nat, 1) == Some(st as nat),
            None => first_sub_from(tail@, lit@, literal, k as nat, 1) is None,
        },
{
    let tstart = tail.len() - k;
    let bok = boundary_ok_exec(tail, literal, tstart);
    let lim = lit.len() - k;
    let mut st: usize = 1;
    while st <= lim
        invariant
            1 <= st,
            lim == lit.len() - k,
            2 <= k,
            k <= tail@.len(),
            tstart == tail@.len() - k,
            bok == boundary_ok(tail@, literal, tstart as int),
            first_sub_from(tail@, lit@, literal, k as nat, 1) == first_sub_from(
                tail@,
                lit@,
                literal,
                k as nat,
                st as nat,
            ),
        decreases lit@.len() - st,
    {
        if bok && segments_equal(lit.as_slice(), st, tail.as_slice(), tstart, k) {
            return Some(st);
        }
        st = st + 1;
    }
    None
}

/// The best substring match (see [`best_sub`]).
fn best_sub_exec(tail: &Vec<char>, lit: &Vec<char>, literal: bool) -> (r: Option<(usize, usize)>)
    ensures
        match r {
            Some((st, k)) => best_sub(tail@, lit@, literal, min_nat(lit@.len(), tail@.len()))
                == Some((st as nat, k as nat)),
            None => best_sub(tail@, lit@, literal, min_nat(lit@.len(), tail@.len())) is None,
        },
{
    let max_k = min_usize(lit.len(), tail.len());
    let mut k: usize = max_k;
    loop
        invariant
            k <= max_k,
            max_k as nat == min_nat(lit@.len(), tail@.len()),
            max_k <= lit@.len(),
            max_k <= tail@.len(),
            best_sub(tail@, lit@, literal, max_k as nat) == best_sub(tail@, lit@, literal, k as nat),
        decreases k,
    {
        if k < 2 {
            return None;
        }
        if k < lit.len() {
            match first_sub_exec(tail, lit, literal, k) {
                Some(st) => {
                    return Some((st, k));
                },
                None => {},
            }
        }
        k = k - 1;
    }
}

/// Whether `run` begins `chos`.
fn starts_with_run(chos: &Vec<u32>, run: &Vec<u32>) -> (r: bool)
    requires
        run@.len() <= chos@.len(),
    ensures
        r == (chos@.take(run@.len() as int) == run@),
{
    let mut i: usize = 0;
    while i < run.len()
        invariant
            i <= run@.len(),
            run@.len() <= chos@.len(),
            forall|j: int| 0 <= j < i ==> chos@[j] == run@[j],
        decreases run@.len() - i,
    {
        if chos[i] != run[i] {
            assert(chos@.take(run@.len() as int)[i as int] != run@[i as int]);
            return false;
        }
        i = i + 1;
    }
    assert(chos@.take(run@.len() as int) =~= run@);
    true
}

/// The view of an optional suggestion.
pub open spec fn opt_view(r: Option<Suggestion>) -> Option<SuggestionView> {
    match r {
        Some(s) => Some(s@),
        None => None,
    }
}

fn build_suggestion(abbr: &Abbreviation, match_start: usize, k: usize, full: usize) -> (r: Suggestion)
    ensures
        r@ == make_suggestion(*abbr, match_start as nat, k as nat, full as nat),
{
    Suggestion {
        abbr_id: abbr.id.clone(),
        trigger_display: abbr.trigger.display(),
        body: abbr.body.clone(),
        is_exact: match_start == 0 && k == full,
        is_prefix: match_start == 0,
        match_start,
        rollback_chars: k,
        priority: abbr.priority,
    }
}

/// The suggestion for a literal or ending trigger (see
/// [`text_suggestion`]).
fn text_suggest(abbr: &Abbreviation, tail: &Vec<char>, lit: &Vec<char>, literal: bool) -> (r: Option<Suggestion>)
    ensures
        opt_view(r) == text_suggestion(*abbr, tail@, lit@, literal),
{
    if lit.len() == 0 {
        return None;
    }
    let bp = best_prefix_exec(tail, lit, literal);
    if bp > 0 {
        return Some(build_suggestion(abbr, 0, bp, lit.len()));
    }
    match best_sub_exec(tail, lit, literal) {
        Some((ms, k)) => Some(build_suggestion(abbr, ms, k, lit.len())),
        None => None,
    }
}

/// The suggestion `abbr` gives for `tail` (see [`suggestion_for`]).
fn suggest(abbr: &Abbreviation, tail: &Vec<char>, run: &Vec<u32>) -> (r: Option<Suggestion>)
    requires
        run@ == cho_run(tail@),
    ensures
        opt_view(r) == suggestion_for(*abbr, tail@),
{
    match &abbr.trigger {
        Trigger::ChoSeq(chos) => {
            if chos.len() == 0 || run.len() == 0 || run.len() > chos.len() {
                return None;
            }
            if !starts_with_run(chos, run) {
                return None;
            }
            Some(build_suggestion(abbr, 0, run.len(), chos.len()))
        },
        Trigger::Literal(text) => {
            let lit = chars_of(text.as_str());
            text_suggest(abbr, tail, &lit, true)
        },
        Trigger::Ending(text) => {
            let lit = chars_of(text.as_str());
            text_suggest(abbr, tail, &lit, false)
        },
    }
}

/// Lexicographic comparison by code point (see [`lex_lt`]).
pub(crate) fn lex_lt_exec(a: &Vec<char>, b: &Vec<char>) -> (r: bool)
    ensures
        r == lex_lt(a@, b@),
{
    let mut i: usize = 0;
    proof {
        assert(a@.skip(0) == a@);
        assert(b@.skip(0) == b@);
    }
    while i < a.len() && i < b.len()
        invariant
            i <= a@.len(),
            i <= b@.len(),
            lex_lt(a@, b@) == lex_lt(a@.skip(i as int), b@.skip(i as int)),
        decreases a@.len() - i,
    {
        let x = a[i];
        let y = b[i];
        proof {
            assert(a@.skip(i as int)[0] == x);
            assert(b@.skip(i as int)[0] == y);
        }
        if x != y {
            return (x as u32) < (y as u32);
        }
        proof {
            assert(a@.skip(i as int).drop_first() == a@.skip(i + 1));
            assert(b@.skip(i as int).drop_first() == b@.skip(i + 1));
        }
        i = i + 1;
    }
    i < b.len() && i == a.len()
}

/// Whether suggestion `a` ranks strictly before `b` (see
/// [`rank_before`]).
fn rank_before_exec(a: &Suggestion, b: &Suggestion) -> (r: bool)
    ensures
        r == rank_before(a@, b@),
{
    if a.is_exact != b.is_exact {
        return a.is_exact;
    }
    if a.is_prefix != b.is_prefix {
        return a.is_prefix;
    }
    if a.priority != b.priority {
        return a.priority > b.priority;
    }
    if a.rollback_chars != b.rollback_chars {
        return a.rollback_chars > b.rollback_chars;
    }
    let da = chars_of(a.trigger_display.as_str());
    let db = chars_of(b.trigger_display.as_str());
    if da.len() != db.len() {
        return da.len() < db.len();
    }
    lex_lt_exec(&da, &db)
}

/// Insert `x` into the ranked list `out` after every suggestion it does
/// not rank strictly before.
fn insert_ranked(out: &mut Vec<Suggestion>, x: Suggestion)
    ensures
        suggestion_views(final(out)@) == suggestion_views(old(out)@).insert(
            insert_pos(suggestion_views(old(out)@), x@) as int,
            x@,
        ),
{
    let ghost s = suggestion_views(out@);
    let mut j: usize = out.len();
    proof {
        assert(s.take(j as int) == s);
    }
    while j > 0 && rank_before_exec(&x, &out[j - 1])
        invariant
            j <= out@.len(),
            out@ == old(out)@,
            s == suggestion_views(out@),
            insert_pos(s, x@) == insert_pos(s.take(j as int), x@),
        decreases j,
    {
        proof {
            let pre = s.take(j as int);
            assert(pre.drop_last() == s.take(j - 1));
            assert(pre.last() == out@[j - 1]@);
        }
        j = j - 1;
    }
    proof {
        if j > 0 {
            assert(s.take(j as int).last() == out@[j - 1]@);
        }
    }
    out.insert(j, x);
    assert(suggestion_views(out@) =~= s.insert(j as int, x@));
}

/// The first position of an abbreviation with identifier `id`.
fn find_position(abbrs: &Vec<Abbreviation>, id: &str) -> (r: Option<usize>)
    ensures
        match r {
            Some(p) => p < abbrs@.len() && find_id(abbrs@, id@) == Some(p as nat),
            None => find_id(abbrs@, id@) is None,
        },
{
    let mut i: usize = 0;
    while i < abbrs.len()
        invariant
            i <= abbrs@.len(),
            find_id(abbrs@.take(i as int), id@) is None,
        decreases abbrs@.len() - i,
    {
        proof {
            let pre = abbrs@.take(i + 1);
            assert(pre.drop_last() == abbrs@.take(i as int));
            assert(pre.last() == abbrs@[i as int]);
        }
        if crate::text::str_eq(abbrs[i].id.as_str(), id) {
            proof {
                lemma_find_id_prefix(abbrs@, id@, i + 1);
            }
            return Some(i);
        }
        i = i + 1;
    }
    proof {
        assert(abbrs@.take(abbrs@.len() as int) == abbrs@);
    }
    None
}

proof fn lemma_find_id_prefix(abbrs: Seq<Abbreviation>, id: Seq<char>, n: int)
    requires
        0 <= n <= abbrs.len(),
        find_id(abbrs.take(n), id) is Some,
    ensures
        find_id(abbrs, id) == find_id(abbrs.take(n), id),
    decreases abbrs.len(),
{
    if n == abbrs.len() {
        assert(abbrs.take(n) == abbrs);
    } else {
        assert(abbrs.drop_last().take(n) == abbrs.take(n));
        lemma_find_id_prefix(abbrs.drop_last(), id, n);
    }
}

/// Whether the last `k` characters of `tail` occur in `lit`.
fn occurs_exec(lit: &Vec<char>, tail: &Vec<char>, k: usize) -> (r: bool)
    requires
        1 <= k,
        k <= tail@.len(),
        k <= lit@.len(),
    ensures
        r == occurs_in(lit@, suffix(tail@, k as nat)),
{
    let ghost pat = suffix(tail@, k as nat);
    let tstart = tail.len() - k;
    let lim = lit.len() - k;
    let mut st: usize = 0;
    while st <= lim
        invariant
            lim == lit.len() - k,
            1 <= k,
            k <= tail@.len(),
            tstart == tail@.len() - k,
            pat == suffix(tail@, k as nat),
            pat.len() == k,
            forall|s: int| 0 <= s < st ==> #[trigger] lit@.subrange(s, s + pat.len()) != pat,
        decreases lim + 1 - st,
    {
        if segments_equal(lit.as_slice(), st, tail.as_slice(), tstart, k) {
            assert(lit@.subrange(st as int, st + pat.len()) == pat);
            return true;
        }
        st = st + 1;
    }
    false
}

/// The longest end of `tail` that occurs in `lit` (see
/// [`best_occurring`]).
fn best_occurring_exec(tail: &Vec<char>, lit: &Vec<char>) -> (r: usize)
    ensures
        r == best_occurring(tail@, lit@, min_nat(lit@.len(), tail@.len())),
{
    let max_k = min_usize(lit.len(), tail.len());
    let mut k: usize = max_k;
    while k > 0
        invariant
            k <= max_k,
            max_k as nat == min_nat(lit@.len(), tail@.len()),
            max_k <= lit@.len(),
            max_k <= tail@.len(),
            best_occurring(tail@, lit@, max_k as nat) == best_occurring(tail@, lit@, k as nat),
        decreases k,
    {
        if occurs_exec(lit, tail, k) {
            return k;
        }
        k = k - 1;
    }
    0
}

proof fn lemma_keep_last_push(a: Seq<char>, c: char, n: nat)
    requires
        n > 0,
    ensures
        keep_last(keep_last(a, n).push(c), n) == keep_last(a.push(c), n),
{
    assert(keep_last(keep_last(a, n).push(c), n) =~= keep_last(a.push(c), n));
}

impl AbbreviationEngine {
    /// The engine's invariant, over its view.
    pub open spec fn wf(&self) -> bool {
        self@.wf()
    }

    /// Create an engine with the given abbreviations: empty tail and
    /// preedit, no waiting match, enabled.
    pub fn new(abbrs: Vec<Abbreviation>) -> (r: Self)
        ensures
            r.wf(),
            r@ == (EngineView {
                abbrs: abbrs@,
                tail: Seq::empty(),
                preedit: Seq::empty(),
                active: None,
                enabled: true,
            }),
    {
        AbbreviationEngine {
            abbrs,
            commit_tail: VecDeque::with_capacity(MAX_TAIL + 8),
            preedit: String::new(),
            active_match: None,
            enabled: true,
        }
    }

    /// Create an engine with no abbreviations.
    pub fn empty() -> (r: Self)
        ensures
            r.wf(),
            r@ == (EngineView {
                abbrs: Seq::empty(),
                tail: Seq::empty(),
                preedit: Seq::empty(),
                active: None,
                enabled: true,
            }),
    {
        Self::new(Vec::new())
    }

    /// Registered abbreviations (read-only view).
    pub fn abbreviations(&self) -> (r: &[Abbreviation])
        ensures
            r@ == self@.abbrs,
    {
        self.abbrs.as_slice()
    }

    /// Whether matching is enabled.
    pub fn is_enabled(&self) -> (r: bool)
        ensures
            r == self@.enabled,
    {
        self.enabled
    }

    /// Enable or disable matching; disabling forgets the waiting match.
    pub fn set_enabled(&mut self, on: bool)
        requires
            old(self).wf(),
        ensures
            final(self).wf(),
            final(self)@ == (EngineView {
                enabled: on,
                active: if on { old(self)@.active } else { None },
                ..old(self)@
            }),
    {
        self.enabled = on;
        if !on {
            self.active_match = None;
        }
    }

    /// Replace the abbreviation list; the waiting match is forgotten.
    pub fn set_abbreviations(&mut self, abbrs: Vec<Abbreviation>)
        requires
            old(self).wf(),
        ensures
            final(self).wf(),
            final(self)@ == (EngineView { abbrs: abbrs@, active: None, ..old(self)@ }),
    {
        self.abbrs = abbrs;
        self.active_match = None;
    }

    /// Reset the tail buffer and preedit (e.g. on focus loss).
    pub fn reset(&mut self)
        requires
            old(self).wf(),
        ensures
            final(self).wf(),
            final(self)@ == (EngineView {
                tail: Seq::empty(),
                preedit: Seq::empty(),
                active: None,
                ..old(self)@
            }),
    {
        self.commit_tail.clear();
        self.preedit = String::new();
        self.active_match = None;
    }

    /// Update the tentative preedit string (the composition in progress).
    pub fn set_preedit(&mut self, preedit: &str)
        requires
            old(self).wf(),
        ensures
            final(self).wf(),
            final(self)@ == (EngineView { preedit: preedit@, ..old(self)@ }),
    {
        self.preedit = string_of(preedit);
    }

    /// Notify the engine that the host committed `s`. Runs match
    /// detection and fires a match configured for
    /// [`TriggerEvent::Immediate`].
    pub fn on_commit(&mut self, s: &str) -> (r: AbbrEvent)
        requires
            old(self).wf(),
        ensures
            final(self).wf(),
            (final(self)@, r@) == old(self)@.on_commit(s@),
    {
        if !self.enabled {
            return AbbrEvent::Nothing;
        }
        let ghost start = self.commit_tail@;
        for ch in it: s.chars()
            invariant
                self.abbrs@ == old(self).abbrs@,
                self.preedit@ == old(self).preedit@,
                self.enabled,
                self.active_match == old(self).active_match,
                self.commit_tail@ == keep_last(start + it.seq().take(it.index() as int), MAX_TAIL as nat),
                self.commit_tail@.len() <= MAX_TAIL,
        {
            proof {
                let pre = start + it.seq().take(it.index() as int);
                lemma_keep_last_push(pre, ch, MAX_TAIL as nat);
                assert(pre.push(ch) == start + it.seq().take(it.index() + 1));
            }
            self.commit_tail.push_back(ch);
            if self.commit_tail.len() > MAX_TAIL {
                self.commit_tail.pop_front();
            }
        }
        assert(self.commit_tail@ == keep_last(start + s@, MAX_TAIL as nat));
        self.update_match();
        self.maybe_fire(TriggerEvent::Immediate)
    }

    /// Notify the engine of a non-committing trigger event such as Space.
    pub fn on_trigger(&mut self, ev: TriggerEvent) -> (r: AbbrEvent)
        requires
            old(self).wf(),
        ensures
            final(self).wf(),
            (final(self)@, r@) == old(self)@.on_trigger(ev),
    {
        if !self.enabled {
            return AbbrEvent::Nothing;
        }
        self.update_match();
        self.maybe_fire(ev)
    }

    /// Notify the engine that the host removed its last character.
    pub fn on_backspace(&mut self)
        requires
            old(self).wf(),
        ensures
            final(self).wf(),
            final(self)@ == old(self)@.on_backspace(),
    {
        self.commit_tail.pop_back();
        proof {
            assert(self.commit_tail@ =~= drop_tail(old(self).commit_tail@, 1));
        }
        self.active_match = None;
    }

    /// Committed tail followed by the preedit, as characters.
    fn effective_tail(&self) -> (r: Vec<char>)
        ensures
            r@ == self@.effective_tail(),
    {
        let mut v = deque_chars(&self.commit_tail);
        let p = chars_of(self.preedit.as_str());
        let ghost base = v@;
        let mut i: usize = 0;
        while i < p.len()
            invariant
                i <= p@.len(),
                base == self@.tail,
                p@ == self@.preedit,
                v@ == base + p@.take(i as int),
            decreases p@.len() - i,
        {
            v.push(p[i]);
            assert(p@.take(i + 1) == p@.take(i as int).push(p@[i as int]));
            i = i + 1;
        }
        assert(p@.take(p@.len() as int) == p@);
        v
    }

    /// Abbreviation candidates for the current effective tail, ranked by
    /// relevance (see [`EngineView::candidates`]). `Literal` triggers need
    /// a word boundary at their match point; `Ending` and `ChoSeq` do not.
    pub fn candidates(&self) -> (r: Vec<Suggestion>)
        ensures
            suggestion_views(r@) == self@.candidates(),
    {
        if !self.enabled {
            proof {
                assert(suggestion_views(Seq::<Suggestion>::empty()) =~= Seq::<SuggestionView>::empty());
            }
            return Vec::new();
        }
        let tail = self.effective_tail();
        if tail.len() == 0 {
            proof {
                assert(suggestion_views(Seq::<Suggestion>::empty()) =~= Seq::<SuggestionView>::empty());
            }
            return Vec::new();
        }
        let run = cho_run_of(&tail);
        let mut out: Vec<Suggestion> = Vec::new();
        proof {
            assert(suggestion_views(out@) =~= Seq::<SuggestionView>::empty());
            assert(self@.abbrs.take(0) =~= Seq::<Abbreviation>::empty());
        }
        let mut i: usize = 0;
        while i < self.abbrs.len()
            invariant
                i <= self@.abbrs.len(),
                tail@ == self@.effective_tail(),
                run@ == cho_run(tail@),
                suggestion_views(out@) == sort_ranked(raw_candidates(self@.abbrs.take(i as int), tail@)),
            decreases self@.abbrs.len() - i,
        {
            let sug = suggest(&self.abbrs[i], &tail, &run);
            proof {
                let pre = self@.abbrs.take(i + 1);
                assert(pre.drop_last() == self@.abbrs.take(i as int));
                assert(pre.last() == self@.abbrs[i as int]);
            }
            match sug {
                Some(x) => {
                    proof {
                        let raw = raw_candidates(self@.abbrs.take(i as int), tail@);
                        assert(raw.push(x@).drop_last() == raw);
                    }
                    insert_ranked(&mut out, x);
                },
                None => {},
            }
            i = i + 1;
        }
        proof {
            assert(self@.abbrs.take(self@.abbrs.len() as int) == self@.abbrs);
        }
        out
    }

    /// Fire the abbreviation with identifier `id` against the effective
    /// tail (used when the user accepts a picker suggestion). The returned
    /// rollback counts committed characters only: the preedit part of the
    /// match is absorbed by clearing the engine's preedit.
    pub fn fire_by_id(&mut self, id: &str) -> (r: AbbrEvent)
        requires
            old(self).wf(),
        ensures
            final(self).wf(),
            (final(self)@, r@) == old(self)@.fire_by_id(id@),
    {
        let pos = match find_position(&self.abbrs, id) {
            Some(p) => p,
            None => return AbbrEvent::Nothing,
        };
        let tail = self.effective_tail();
        let abbr = &self.abbrs[pos];
        let rollback_total: usize = match &abbr.trigger {
            Trigger::ChoSeq(chos) => {
                let run = cho_run_of(&tail);
                if run.len() > 0 && run.len() <= chos.len() && starts_with_run(chos, &run) {
                    run.len()
                } else {
                    0
                }
            },
            Trigger::Literal(text) | Trigger::Ending(text) => {
                let lit = chars_of(text.as_str());
                best_occurring_exec(&tail, &lit)
            },
        };
        let insert = abbr.body.clone();
        let abbr_id = abbr.id.clone();
        let preedit_len = chars_of(self.preedit.as_str()).len();
        let commit_rollback = rollback_total.saturating_sub(preedit_len);
        let mut i: usize = 0;
        while i < commit_rollback
            invariant
                i <= commit_rollback,
                self.abbrs@ == old(self).abbrs@,
                self.preedit@ == old(self).preedit@,
                self.enabled == old(self).enabled,
                self.active_match == old(self).active_match,
                self.commit_tail@ == drop_tail(old(self).commit_tail@, i as nat),
            decreases commit_rollback - i,
        {
            self.commit_tail.pop_back();
            proof {
                let t = old(self).commit_tail@;
                assert(drop_tail(drop_tail(t, i as nat), 1) =~= drop_tail(t, (i + 1) as nat));
            }
            i = i + 1;
        }
        self.preedit = String::new();
        self.active_match = None;
        AbbrEvent::Expand { abbr_id, rollback_chars: commit_rollback, insert }
    }

    fn update_match(&mut self)
        requires
            old(self).wf(),
        ensures
            final(self).wf(),
            final(self)@ == (EngineView {
                active: longest_match(old(self)@.abbrs, old(self)@.tail),
                ..old(self)@
            }),
    {
        self.active_match = self.find_longest_match();
    }

    fn find_longest_match(&self) -> (r: Option<MatchState>)
        requires
            self.wf(),
        ensures
            (match r {
                Some(m) => Some(
                    MatchView { abbr_idx: m.abbr_idx as nat, rollback_chars: m.rollback_chars as nat },
                ),
                None => None,
            }) == longest_match(self@.abbrs, self@.tail),
            r matches Some(m) ==> m.abbr_idx < self@.abbrs.len(),
    {
        if self.commit_tail.len() == 0 {
            proof {
                lemma_longest_match_none_on_empty(self@.abbrs, self@.tail);
            }
            return None;
        }
        let tail = deque_chars(&self.commit_tail);
        let mut best: Option<MatchState> = None;
        let mut idx: usize = 0;
        while idx < self.abbrs.len()
            invariant
                idx <= self.abbrs@.len(),
                tail@ == self@.tail,
                (match best {
                    Some(m) => Some(
                        MatchView {
                            abbr_idx: m.abbr_idx as nat,
                            rollback_chars: m.rollback_chars as nat,
                        },
                    ),
                    None => None,
                }) == longest_match(self@.abbrs.take(idx as int), tail@),
                best matches Some(m) ==> m.abbr_idx < idx,
            decreases self.abbrs@.len() - idx,
        {
            let abbr = &self.abbrs[idx];
            let len = abbr.trigger.match_len();
            let hit = if len == 0 || tail.len() < len {
                false
            } else {
                trigger_hits_exec(&abbr.trigger, &tail, len)
            };
            proof {
                let pre = self@.abbrs.take(idx + 1);
                assert(pre.drop_last() == self@.abbrs.take(idx as int));
                assert(pre.last() == self@.abbrs[idx as int]);
            }
            if hit {
                let cand = MatchState { abbr_idx: idx, rollback_chars: len };
                best = match best {
                    None => Some(cand),
                    Some(prev) => {
                        if cand.rollback_chars > prev.rollback_chars {
                            Some(cand)
                        } else {
                            Some(prev)
                        }
                    },
                };
            }
            idx = idx + 1;
        }
        proof {
            assert(self@.abbrs.take(self@.abbrs.len() as int) == self@.abbrs);
        }
        best
    }

    fn maybe_fire(&mut self, ev: TriggerEvent) -> (r: AbbrEvent)
        requires
            old(self).wf(),
        ensures
            final(self).wf(),
            (final(self)@, r@) == old(self)@.fire_active(ev),
    {
        let m = match &self.active_match {
            Some(m) => *m,
            None => return AbbrEvent::Nothing,
        };
        let abbr = &self.abbrs[m.abbr_idx];
        if !TriggerEvent::matches(abbr.trigger_on, ev) {
            return AbbrEvent::Pending { abbr_id: abbr.id.clone(), preview: abbr.body.clone() };
        }
        let out = AbbrEvent::Expand {
            abbr_id: abbr.id.clone(),
            rollback_chars: m.rollback_chars,
            insert: abbr.body.clone(),
        };
        // Consume the matched tail so the same match cannot fire twice.
        let mut i: usize = 0;
        while i < m.rollback_chars
            invariant
                i <= m.rollback_chars,
                self.abbrs@ == old(self).abbrs@,
                self.preedit@ == old(self).preedit@,
                self.enabled == old(self).enabled,
                self.active_match == old(self).active_match,
                self.commit_tail@ == drop_tail(old(self).commit_tail@, i as nat),
            decreases m.rollback_chars - i,
        {
            self.commit_tail.pop_back();
            proof {
                let t = old(self).commit_tail@;
                assert(drop_tail(drop_tail(t, i as nat), 1) =~= drop_tail(t, (i + 1) as nat));
            }
            i = i + 1;
        }
        self.active_match = None;
        out
    }
}

proof fn lemma_longest_match_none_on_empty(abbrs: Seq<Abbreviation>, tail: Seq<char>)
    requires
        tail.len() == 0,
    ensures
        longest_match(abbrs, tail) is None,
    decreases abbrs.len(),
{
    if abbrs.len() > 0 {
        lemma_longest_match_none_on_empty(abbrs.drop_last(), tail);
    }
}

/// Whether `t`, of match length `len` (non-zero, at most the tail's
/// length), matches the end of `tail`.
fn trigger_hits_exec(t: &Trigger, tail: &Vec<char>, len: usize) -> (r: bool)
    requires
        len == t@.match_len(),
        0 < len <= tail@.len(),
    ensures
        r == trigger_hits(t@, tail@),
{
    let start = tail.len() - len;
    match t {
        Trigger::ChoSeq(chos) => {
            let mut i: usize = 0;
            while i < len
                invariant
                    i <= len,
                    len == chos@.len(),
                    t@ == TriggerView::ChoSeq(chos@),
                    start + len == tail.len(),
                    forall|j: int|
                        0 <= j < i ==> #[trigger] chos@[j] == (tail@[start + j] as u32)
                            && is_cho_cp(chos@[j]),
                decreases len - i,
            {
                let c = tail[start + i];
                let cp = chos[i];
                if !((c as u32) == cp && Cho::from_codepoint(cp).is_some()) {
                    assert(!(chos@[i as int] == (tail@[tail@.len() - len + i] as u32)
                        && is_cho_cp(chos@[i as int])));
                    return false;
                }
                i = i + 1;
            }
            true
        },
        Trigger::Literal(text) | Trigger::Ending(text) => {
            let lit = chars_of(text.as_str());
            let r = segments_equal(tail.as_slice(), start, lit.as_slice(), 0, len);
            proof {
                assert(lit@.subrange(0, len as int) == lit@);
            }
            r
        },
    }
}

} // verus!

verus! {

/// The longest match is a longest hit: when it exists it names a
/// registered trigger that matches the tail and no matching trigger is
/// longer; when it does not, no registered trigger matches.
pub proof fn lemma_longest_match_is_longest(abbrs: Seq<Abbreviation>, tail: Seq<char>)
    ensures
        longest_match(abbrs, tail) matches Some(m) ==> {
            &&& m.abbr_idx < abbrs.len()
            &&& trigger_hits(abbrs[m.abbr_idx as int].trigger@, tail)
            &&& m.rollback_chars == abbrs[m.abbr_idx as int].trigger@.match_len()
            &&& forall|j: int|
                0 <= j < abbrs.len() && trigger_hits(#[trigger] abbrs[j].trigger@, tail)
                    ==> abbrs[j].trigger@.match_len() <= m.rollback_chars
        },
        longest_match(abbrs, tail) is None ==> forall|j: int|
            0 <= j < abbrs.len() ==> !trigger_hits(#[trigger] abbrs[j].trigger@, tail),
    decreases abbrs.len(),
{
    if abbrs.len() > 0 {
        let prev = abbrs.drop_last();
        let n = abbrs.len() - 1;
        lemma_longest_match_is_longest(prev, tail);
        assert forall|j: int| 0 <= j < prev.len() implies #[trigger] prev[j] == abbrs[j] by {}
        match longest_match(abbrs, tail) {
            Some(m) => {
                assert forall|j: int|
                    0 <= j < abbrs.len() && trigger_hits(#[trigger] abbrs[j].trigger@, tail) implies
                    abbrs[j].trigger@.match_len() <= m.rollback_chars by {
                    if j < n {
                        assert(prev[j] == abbrs[j]);
                        assert(trigger_hits(prev[j].trigger@, tail));
                    }
                }
            },
            None => {
                assert forall|j: int| 0 <= j < abbrs.len() implies !trigger_hits(
                    #[trigger] abbrs[j].trigger@,
                    tail,
                ) by {
                    if j < n {
                        assert(prev[j] == abbrs[j]);
                        assert(!trigger_hits(prev[j].trigger@, tail));
                    } else {
                        assert(abbrs[j] == abbrs.last());
                    }
                }
            },
        }
    }
}

/// A disabled engine never fires and never suggests: commits and
/// trigger events leave it unchanged and report nothing.
pub proof fn lemma_disabled_engine_never_fires(v: EngineView, s: Seq<char>, ev: TriggerEvent)
    requires
        !v.enabled,
    ensures
        v.on_commit(s) == (v, AbbrEventView::Nothing),
        v.on_trigger(ev) == (v, AbbrEventView::Nothing),
        v.candidates() == Seq::<SuggestionView>::empty(),
{
}

/// An expansion never asks the host to roll back more characters than
/// the engine holds committed, and it consumes the match: the rolled-back
/// characters leave the tail and no match is left waiting.
pub proof fn lemma_expansion_consumes_match(v: EngineView, s: Seq<char>, ev: TriggerEvent, id: Seq<char>)
    requires
        v.wf(),
    ensures
        ({
            let (w, e) = v.on_commit(s);
            e matches AbbrEventView::Expand { rollback_chars, .. } ==> {
                let before = keep_last(v.tail + s, MAX_TAIL as nat);
                &&& rollback_chars <= before.len()
                &&& w.tail == before.take(before.len() - rollback_chars)
                &&& w.active is None
            }
        }),
        ({
            let (w, e) = v.on_trigger(ev);
            e matches AbbrEventView::Expand { rollback_chars, .. } ==> {
                &&& rollback_chars <= v.tail.len()
                &&& w.tail == v.tail.take(v.tail.len() - rollback_chars)
                &&& w.active is None
            }
        }),
        ({
            let (w, e) = v.fire_by_id(id);
            e matches AbbrEventView::Expand { rollback_chars, .. } ==> {
                &&& rollback_chars <= v.tail.len()
                &&& w.tail == v.tail.take(v.tail.len() - rollback_chars)
                &&& w.preedit.len() == 0
                &&& w.active is None
            }
        }),
{
    let before = keep_last(v.tail + s, MAX_TAIL as nat);
    lemma_longest_match_is_longest(v.abbrs, before);
    lemma_longest_match_is_longest(v.abbrs, v.tail);
    match find_id(v.abbrs, id) {
        Some(i) => {
            lemma_find_id_found(v.abbrs, id);
            lemma_fire_rollback_bounded(v.abbrs[i as int].trigger@, v.effective_tail());
        },
        None => {},
    }
}

proof fn lemma_find_id_found(abbrs: Seq<Abbreviation>, id: Seq<char>)
    ensures
        find_id(abbrs, id) matches Some(i) ==> i < abbrs.len() && abbrs[i as int].id@ == id,
    decreases abbrs.len(),
{
    if abbrs.len() > 0 {
        lemma_find_id_found(abbrs.drop_last(), id);
    }
}

proof fn lemma_cho_run_len_bounded(tail: Seq<char>)
    ensures
        cho_run_len(tail) <= tail.len(),
    decreases tail.len(),
{
    if tail.len() > 0 {
        lemma_cho_run_len_bounded(tail.drop_last());
    }
}

proof fn lemma_best_occurring_bounded(tail: Seq<char>, lit: Seq<char>, m: nat)
    ensures
        best_occurring(tail, lit, m) <= m,
    decreases m,
{
    if m > 0 {
        lemma_best_occurring_bounded(tail, lit, (m - 1) as nat);
    }
}

proof fn lemma_fire_rollback_bounded(t: TriggerView, tail: Seq<char>)
    ensures
        fire_rollback(t, tail) <= tail.len(),
{
    lemma_cho_run_len_bounded(tail);
    match t {
        TriggerView::ChoSeq(_) => {},
        TriggerView::Literal(s) => lemma_best_occurring_bounded(tail, s, min_nat(s.len(), tail.len())),
        TriggerView::Ending(s) => lemma_best_occurring_bounded(tail, s, min_nat(s.len(), tail.len())),
    }
}

} // verus!

verus! {

proof fn lemma_lex_lt_irreflexive(a: Seq<char>)
    ensures
        !lex_lt(a, a),
    decreases a.len(),
{
    if a.len() > 0 {
        lemma_lex_lt_irreflexive(a.drop_first());
    }
}

proof fn lemma_lex_lt_asymmetric(a: Seq<char>, b: Seq<char>)
    requires
        lex_lt(a, b),
    ensures
        !lex_lt(b, a),
    decreases a.len(),
{
    if a.len() > 0 && b.len() > 0 && a[0] == b[0] {
        lemma_lex_lt_asymmetric(a.drop_first(), b.drop_first());
    }
}

proof fn lemma_lex_lt_transitive(a: Seq<char>, b: Seq<char>, c: Seq<char>)
    requires
        lex_lt(a, b),
        lex_lt(b, c),
    ensures
        lex_lt(a, c),
    decreases a.len(),
{
    if a.len() > 0 && a[0] == b[0] && b[0] == c[0] {
        lemma_lex_lt_transitive(a.drop_first(), b.drop_first(), c.drop_first());
    }
}

proof fn lemma_lex_lt_total(a: Seq<char>, b: Seq<char>)
    ensures
        a == b || lex_lt(a, b) || lex_lt(b, a),
    decreases a.len(),
{
    if a.len() == 0 && b.len() == 0 {
        assert(a =~= b);
    } else if a.len() > 0 && b.len() > 0 && a[0] != b[0] {
        vstd::utf8::char_u32_cast(a[0], a[0] as u32);
        vstd::utf8::char_u32_cast(b[0], b[0] as u32);
    } else if a.len() > 0 && b.len() > 0 && a[0] == b[0] {
        lemma_lex_lt_total(a.drop_first(), b.drop_first());
        if a.drop_first() == b.drop_first() {
            assert(a.len() == a.drop_first().len() + 1);
            assert(b.len() == b.drop_first().len() + 1);
            assert(a =~= b) by {
                assert forall|i: int| 0 <= i < a.len() implies a[i] == b[i] by {
                    if i > 0 {
                        assert(a[i] == a.drop_first()[i - 1]);
                        assert(b[i] == b.drop_first()[i - 1]);
                    }
                }
            }
        }
    }
}

pub(crate) proof fn lemma_lex_facts(a: Seq<char>, b: Seq<char>, c: Seq<char>)
    ensures
        lex_lt(a, b) && lex_lt(b, c) ==> lex_lt(a, c),
        lex_lt(a, c) && lex_lt(c, b) ==> lex_lt(a, b),
        lex_lt(b, a) && lex_lt(a, c) ==> lex_lt(b, c),
        lex_lt(b, c) && lex_lt(c, a) ==> lex_lt(b, a),
        lex_lt(c, a) && lex_lt(a, b) ==> lex_lt(c, b),
        lex_lt(c, b) && lex_lt(b, a) ==> lex_lt(c, a),
        lex_lt(a, b) ==> !lex_lt(b, a),
        lex_lt(b, c) ==> !lex_lt(c, b),
        lex_lt(a, c) ==> !lex_lt(c, a),
        a == b || lex_lt(a, b) || lex_lt(b, a),
        b == c || lex_lt(b, c) || lex_lt(c, b),
        a == c || lex_lt(a, c) || lex_lt(c, a),
{
    if lex_lt(a, b) && lex_lt(b, c) { lemma_lex_lt_transitive(a, b, c); }
    if lex_lt(a, c) && lex_lt(c, b) { lemma_lex_lt_transitive(a, c, b); }
    if lex_lt(b, a) && lex_lt(a, c) { lemma_lex_lt_transitive(b, a, c); }
    if lex_lt(b, c) && lex_lt(c, a) { lemma_lex_lt_transitive(b, c, a); }
    if lex_lt(c, a) && lex_lt(a, b) { lemma_lex_lt_transitive(c, a, b); }
    if lex_lt(c, b) && lex_lt(b, a) { lemma_lex_lt_transitive(c, b, a); }
    if lex_lt(a, b) { lemma_lex_lt_asymmetric(a, b); }
    if lex_lt(b, c) { lemma_lex_lt_asymmetric(b, c); }
    if lex_lt(a, c) { lemma_lex_lt_asymmetric(a, c); }
    lemma_lex_lt_total(a, b);
    lemma_lex_lt_total(b, c);
    lemma_lex_lt_total(a, c);
}

proof fn lemma_best_prefix_matches(tail: Seq<char>, lit: Seq<char>, literal: bool, m: nat)
    ensures
        best_prefix(tail, lit, literal, m) > 0 ==> prefix_match(
            tail,
            lit,
            literal,
            best_prefix(tail, lit, literal, m),
        ),
    decreases m,
{
    if m > 0 && !prefix_match(tail, lit, literal, m) {
        lemma_best_prefix_matches(tail, lit, literal, (m - 1) as nat);
    }
}

proof fn lemma_first_sub_matches(tail: Seq<char>, lit: Seq<char>, literal: bool, k: nat, start: nat)
    ensures
        first_sub_from(tail, lit, literal, k, start) matches Some(st) ==> sub_match(
            tail,
            lit,
            literal,
            st,
            k,
        ),
    decreases lit.len() - start,
{
    if !(start >= lit.len() || start + k > lit.len()) && !sub_match(tail, lit, literal, start, k) {
        lemma_first_sub_matches(tail, lit, literal, k, start + 1);
    }
}

proof fn lemma_best_sub_matches(tail: Seq<char>, lit: Seq<char>, literal: bool, m: nat)
    ensures
        best_sub(tail, lit, literal, m) matches Some((st, k)) ==> 2 <= k && sub_match(
            tail,
            lit,
            literal,
            st,
            k,
        ),
    decreases m,
{
    if m >= 2 {
        if m < lit.len() {
            lemma_first_sub_matches(tail, lit, literal, m, 1);
            if first_sub_from(tail, lit, literal, m, 1) is None {
                lemma_best_sub_matches(tail, lit, literal, (m - 1) as nat);
            }
        } else {
            lemma_best_sub_matches(tail, lit, literal, (m - 1) as nat);
        }
    }
}

/// What holds of every suggestion for a tail of length `n`: an exact
/// match is a prefix match; a prefix match is one that starts at the
/// trigger's beginning; between 1 and `n` characters are rolled back; and
/// a match inside the trigger covers at least 2 characters.
pub open spec fn suggestion_facts(s: SuggestionView, n: nat) -> bool {
    &&& (s.is_exact ==> s.is_prefix)
    &&& s.is_prefix == (s.match_start == 0)
    &&& 1 <= s.rollback_chars <= n
    &&& (!s.is_prefix ==> s.rollback_chars >= 2)
}

/// The suggestion an abbreviation gives for a tail names that
/// abbreviation and satisfies [`suggestion_facts`]; a literal trigger's
/// match starts at the beginning of the tail or right after whitespace.
pub proof fn lemma_suggestion_facts(a: Abbreviation, tail: Seq<char>)
    ensures
        suggestion_for(a, tail) matches Some(s) ==> {
            &&& s.abbr_id == a.id@
            &&& suggestion_facts(s, tail.len())
            &&& (a.trigger@ is Literal ==> boundary_ok(tail, true, tail.len() - s.rollback_chars))
        },
{
    match a.trigger@ {
        TriggerView::ChoSeq(chos) => {
            lemma_cho_run_len_bounded(tail);
        },
        TriggerView::Literal(text) => {
            let max_k = min_nat(text.len(), tail.len());
            lemma_best_prefix_matches(tail, text, true, max_k);
            lemma_best_sub_matches(tail, text, true, max_k);
        },
        TriggerView::Ending(text) => {
            let max_k = min_nat(text.len(), tail.len());
            lemma_best_prefix_matches(tail, text, false, max_k);
            lemma_best_sub_matches(tail, text, false, max_k);
        },
    }
}

/// Where each raw candidate comes from: the positions, in order, of the
/// abbreviations that give a suggestion.
pub open spec fn candidate_sources(abbrs: Seq<Abbreviation>, tail: Seq<char>) -> Seq<int>
    decreases abbrs.len(),
{
    if abbrs.len() == 0 {
        Seq::empty()
    } else {
        let prev = candidate_sources(abbrs.drop_last(), tail);
        if suggestion_for(abbrs.last(), tail) is Some {
            prev.push(abbrs.len() - 1)
        } else {
            prev
        }
    }
}

/// Each raw candidate is the suggestion of a registered abbreviation, at
/// strictly increasing positions: no abbreviation gives two.
pub proof fn lemma_raw_candidate_sources(abbrs: Seq<Abbreviation>, tail: Seq<char>)
    ensures
        candidate_sources(abbrs, tail).len() == raw_candidates(abbrs, tail).len(),
        forall|j: int| 0 <= j < raw_candidates(abbrs, tail).len() ==> {
            let p = #[trigger] candidate_sources(abbrs, tail)[j];
            &&& 0 <= p < abbrs.len()
            &&& suggestion_for(abbrs[p], tail) == Some(raw_candidates(abbrs, tail)[j])
        },
        forall|i: int, j: int|
            0 <= i < j < candidate_sources(abbrs, tail).len() ==> candidate_sources(abbrs, tail)[i]
                < candidate_sources(abbrs, tail)[j],
    decreases abbrs.len(),
{
    if abbrs.len() > 0 {
        let t = abbrs.drop_last();
        lemma_raw_candidate_sources(t, tail);
        let src = candidate_sources(abbrs, tail);
        let raw = raw_candidates(abbrs, tail);
        assert forall|j: int| 0 <= j < raw.len() implies {
            let p = #[trigger] src[j];
            &&& 0 <= p < abbrs.len()
            &&& suggestion_for(abbrs[p], tail) == Some(raw[j])
        } by {
            if j < raw_candidates(t, tail).len() {
                assert(src[j] == candidate_sources(t, tail)[j]);
                assert(raw[j] == raw_candidates(t, tail)[j]);
                assert(abbrs[src[j]] == t[src[j]]);
            }
        }
    }
}

/// Each abbreviation gives at most one suggestion: the picker's
/// candidates are, up to order, the suggestions of the registered
/// abbreviations that match, one for each, taken at strictly increasing
/// registration positions.
pub proof fn lemma_one_suggestion_per_abbreviation(v: EngineView)
    ensures
        v.enabled && v.effective_tail().len() > 0 ==> v.candidates().to_multiset()
            == candidate_sources(v.abbrs, v.effective_tail()).map_values(
            |p: int| suggestion_for(v.abbrs[p], v.effective_tail())->0,
        ).to_multiset(),
        forall|i: int, j: int|
            0 <= i < j < candidate_sources(v.abbrs, v.effective_tail()).len() ==> candidate_sources(
                v.abbrs,
                v.effective_tail(),
            )[i] < candidate_sources(v.abbrs, v.effective_tail())[j],
        forall|j: int|
            0 <= j < candidate_sources(v.abbrs, v.effective_tail()).len() ==> 0 <= #[trigger] candidate_sources(
                v.abbrs,
                v.effective_tail(),
            )[j] < v.abbrs.len(),
{
    let tail = v.effective_tail();
    let raw = raw_candidates(v.abbrs, tail);
    let src = candidate_sources(v.abbrs, tail);
    lemma_raw_candidate_sources(v.abbrs, tail);
    lemma_candidates_ranked(v);
    let from_src = src.map_values(|p: int| suggestion_for(v.abbrs[p], tail)->0);
    assert forall|j: int| 0 <= j < raw.len() implies from_src[j] == raw[j] by {
        let p = src[j];
        assert(suggestion_for(v.abbrs[p], tail) == Some(raw[j]));
    }
    assert(from_src =~= raw);
}

/// Every suggestion the picker shows satisfies [`suggestion_facts`] for
/// the effective tail, comes from a registered abbreviation, and a
/// literal trigger's match starts at the beginning of the tail or after
/// whitespace.
pub proof fn lemma_candidate_facts(v: EngineView)
    ensures
        forall|s: SuggestionView| #[trigger] v.candidates().contains(s) ==> {
            &&& suggestion_facts(s, v.effective_tail().len())
            &&& exists|p: int|
                0 <= p < v.abbrs.len() && suggestion_for(v.abbrs[p], v.effective_tail()) == Some(s)
                    && (v.abbrs[p].trigger@ is Literal ==> boundary_ok(
                    v.effective_tail(),
                    true,
                    v.effective_tail().len() - s.rollback_chars,
                ))
        },
{
    let tail = v.effective_tail();
    let raw = raw_candidates(v.abbrs, tail);
    lemma_raw_candidate_sources(v.abbrs, tail);
    lemma_candidates_ranked(v);
    assert forall|s: SuggestionView| #[trigger] v.candidates().contains(s) implies {
        &&& suggestion_facts(s, tail.len())
        &&& exists|p: int|
            0 <= p < v.abbrs.len() && suggestion_for(v.abbrs[p], tail) == Some(s) && (
            v.abbrs[p].trigger@ is Literal ==> boundary_ok(tail, true, tail.len() - s.rollback_chars))
    } by {
        let c = v.candidates();
        assert(c.to_multiset().count(s) > 0) by {
            c.to_multiset_ensures();
        }
        raw.to_multiset_ensures();
        assert(raw.contains(s));
        let j = choose|j: int| 0 <= j < raw.len() && raw[j] == s;
        let p = candidate_sources(v.abbrs, tail)[j];
        lemma_suggestion_facts(v.abbrs[p], tail);
    }
}

/// Ranking is a strict weak order: it is asymmetric, and "not ranked
/// before" is transitive.
pub proof fn lemma_rank_before_is_weak_order(x: SuggestionView, y: SuggestionView, z: SuggestionView)
    ensures
        rank_before(x, y) ==> !rank_before(y, x),
        !rank_before(x, y) && !rank_before(y, z) ==> !rank_before(x, z),
{
    lemma_lex_facts(x.trigger_display, y.trigger_display, z.trigger_display);
}

/// A list in rank order: no suggestion ranks strictly before one that
/// precedes it.
pub open spec fn ranked(s: Seq<SuggestionView>) -> bool {
    forall|i: int, j: int| 0 <= i < j < s.len() ==> !rank_before(#[trigger] s[j], #[trigger] s[i])
}

proof fn lemma_insert_pos(s: Seq<SuggestionView>, x: SuggestionView)
    ensures
        insert_pos(s, x) <= s.len(),
        forall|i: int| insert_pos(s, x) <= i < s.len() ==> rank_before(x, #[trigger] s[i]),
        insert_pos(s, x) > 0 ==> !rank_before(x, s[insert_pos(s, x) - 1]),
    decreases s.len(),
{
    if s.len() > 0 && rank_before(x, s.last()) {
        let t = s.drop_last();
        lemma_insert_pos(t, x);
        assert forall|i: int| insert_pos(s, x) <= i < s.len() implies rank_before(x, #[trigger] s[i]) by {
            if i < t.len() {
                assert(s[i] == t[i]);
            }
        }
    }
}

proof fn lemma_insert_ranked(s: Seq<SuggestionView>, x: SuggestionView)
    requires
        ranked(s),
    ensures
        ranked(s.insert(insert_pos(s, x) as int, x)),
{
    let p = insert_pos(s, x) as int;
    lemma_insert_pos(s, x);
    let r = s.insert(p, x);
    assert forall|i: int, j: int| 0 <= i < j < r.len() implies !rank_before(#[trigger] r[j], #[trigger] r[i]) by {
        if i < p && j < p {
            assert(r[i] == s[i] && r[j] == s[j]);
        } else if i < p && j == p {
            assert(r[i] == s[i] && r[j] == x);
            if i < p - 1 {
                assert(!rank_before(s[p - 1], s[i]));
                lemma_rank_before_is_weak_order(x, s[p - 1], s[i]);
            }
        } else if i < p {
            assert(r[i] == s[i] && r[j] == s[j - 1]);
        } else if i == p {
            assert(r[i] == x && r[j] == s[j - 1]);
            assert(rank_before(x, s[j - 1]));
            lemma_rank_before_is_weak_order(x, s[j - 1], x);
        } else {
            assert(r[i] == s[i - 1] && r[j] == s[j - 1]);
        }
    }
}

/// Sorting by rank yields a list in rank order holding exactly the same
/// suggestions.
pub proof fn lemma_sort_ranked_sorts(s: Seq<SuggestionView>)
    ensures
        ranked(sort_ranked(s)),
        sort_ranked(s).to_multiset() == s.to_multiset(),
    decreases s.len(),
{
    broadcast use vstd::seq_lib::to_multiset_insert, vstd::seq_lib::to_multiset_build;

    if s.len() > 0 {
        let t = s.drop_last();
        lemma_sort_ranked_sorts(t);
        let sorted = sort_ranked(t);
        lemma_insert_pos(sorted, s.last());
        lemma_insert_ranked(sorted, s.last());
        assert(t.push(s.last()) == s);
    }
}

/// The picker's candidates come in rank order (exact before prefix
/// before substring, then by priority, rollback, display length and
/// display), and are exactly the suggestions of the registered
/// abbreviations for the effective tail.
pub proof fn lemma_candidates_ranked(v: EngineView)
    ensures
        ranked(v.candidates()),
        v.enabled && v.effective_tail().len() > 0 ==> v.candidates().to_multiset()
            == raw_candidates(v.abbrs, v.effective_tail()).to_multiset(),
{
    lemma_sort_ranked_sorts(raw_candidates(v.abbrs, v.effective_tail()));
}

} // verus!
