//! User abbreviation entries and their validation.
//!
//! Users describe extra abbreviations as entries of the shape
//!
//! ```toml
//! [[abbr]]
//! trigger = "ㄱㅅ"           # compat jamo ok; converted to conjoining
//! kind    = "cho_seq"        # "cho_seq" | "literal" | "ending"
//! body    = "감사합니다."
//! priority   = 100           # optional, default 100
//! trigger_on = "space"       # optional, default "explicit"
//! id      = "my-greet"       # optional, generated when omitted
//! ```
//!
//! The host reads the file and hands the entries over as [`AbbrEntry`]
//! values; this module turns them into [`Abbreviation`]s or reports the
//! first invalid entry.
use vstd::prelude::*;
use crate::hangul::jamo::is_cho_cp;
use crate::text::{
    chars_of, hex_padded, push_decimal, push_hex_padded, push_str, str_eq,
    string_of, string_push, decimal,
};
use super::model::{AbbrView, Abbreviation, Trigger, TriggerEvent, TriggerView};

verus! {

/// Error returned while loading user abbreviations.
#[derive(Debug, Clone, PartialEq, Eq)]
pub enum LoadError {
    /// I/O failure reading the file (the host's message).
    Io(String),
    /// TOML parse error (the parser's message).
    Parse(String),
    /// Semantic validation error — unknown kind, bad code point, etc.
    Validation(String),
}

/// The mathematical content of a [`LoadError`].
pub enum LoadErrorView {
    Io(Seq<char>),
    Parse(Seq<char>),
    Validation(Seq<char>),
}

impl View for LoadError {
    type V = LoadErrorView;

    open spec fn view(&self) -> LoadErrorView {
        match self {
            LoadError::Io(m) => LoadErrorView::Io(m@),
            LoadError::Parse(m) => LoadErrorView::Parse(m@),
            LoadError::Validation(m) => LoadErrorView::Validation(m@),
        }
    }
}

impl LoadError {
    /// Human-readable message: `io error: …`, `toml error: …` or
    /// `validation: …`.
    pub fn message(&self) -> (r: String)
        ensures
            r@ == (match self@ {
                LoadErrorView::Io(m) => "io error: "@ + m,
                LoadErrorView::Parse(m) => "toml error: "@ + m,
                LoadErrorView::Validation(m) => "validation: "@ + m,
            }),
    {
        match self {
            LoadError::Io(m) => {
                let mut s = string_of("io error: ");
                push_str(&mut s, m.as_str());
                s
            },
            LoadError::Parse(m) => {
                let mut s = string_of("toml error: ");
                push_str(&mut s, m.as_str());
                s
            },
            LoadError::Validation(m) => {
                let mut s = string_of("validation: ");
                push_str(&mut s, m.as_str());
                s
            },
        }
    }
}

/// One user abbreviation as written in the file.
#[derive(Debug, Clone)]
pub struct AbbrEntry {
    /// The trigger text (compat or conjoining jamo for `cho_seq`).
    pub trigger: String,
    /// `"cho_seq"`, `"literal"` or `"ending"`.
    pub kind: String,
    /// Expansion body.
    pub body: String,
    /// Explicit identifier, if any.
    pub id: Option<String>,
    /// Priority, if any (default 100).
    pub priority: Option<u32>,
    /// Trigger event name, if any (default `"explicit"`).
    pub trigger_on: Option<String>,
}

/// The mathematical content of an [`AbbrEntry`].
pub struct EntryView {
    pub trigger: Seq<char>,
    pub kind: Seq<char>,
    pub body: Seq<char>,
    pub id: Option<Seq<char>>,
    pub priority: Option<u32>,
    pub trigger_on: Option<Seq<char>>,
}

/// The view of an optional string.
pub open spec fn opt_str(o: Option<String>) -> Option<Seq<char>> {
    match o {
        Some(s) => Some(s@),
        None => None,
    }
}

impl View for AbbrEntry {
    type V = EntryView;

    open spec fn view(&self) -> EntryView {
        EntryView {
            trigger: self.trigger@,
            kind: self.kind@,
            body: self.body@,
            id: opt_str(self.id),
            priority: self.priority,
            trigger_on: opt_str(self.trigger_on),
        }
    }
}

/// Hangul compatibility jamo (U+3131 range) to conjoining initial
/// consonant (U+1100 range).
pub open spec fn spec_compat_cho_to_conjoining(cp: u32) -> Option<u32> {
    if cp == 0x3131 { Some(0x1100u32) }
    else if cp == 0x3132 { Some(0x1101u32) }
    else if cp == 0x3134 { Some(0x1102u32) }
    else if cp == 0x3137 { Some(0x1103u32) }
    else if cp == 0x3138 { Some(0x1104u32) }
    else if cp == 0x3139 { Some(0x1105u32) }
    else if cp == 0x3141 { Some(0x1106u32) }
    else if cp == 0x3142 { Some(0x1107u32) }
    else if cp == 0x3143 { Some(0x1108u32) }
    else if cp == 0x3145 { Some(0x1109u32) }
    else if cp == 0x3146 { Some(0x110Au32) }
    else if cp == 0x3147 { Some(0x110Bu32) }
    else if cp == 0x3148 { Some(0x110Cu32) }
    else if cp == 0x3149 { Some(0x110Du32) }
    else if cp == 0x314A { Some(0x110Eu32) }
    else if cp == 0x314B { Some(0x110Fu32) }
    else if cp == 0x314C { Some(0x1110u32) }
    else if cp == 0x314D { Some(0x1111u32) }
    else if cp == 0x314E { Some(0x1112u32) }
    else { None }
}

/// Hangul compatibility jamo (U+3131 range) to conjoining initial
/// consonant (U+1100 range); `None` for anything else.
pub fn compat_cho_to_conjoining(cp: u32) -> (r: Option<u32>)
    ensures
        r == spec_compat_cho_to_conjoining(cp),
{
    match cp {
        0x3131 => Some(0x1100),
        0x3132 => Some(0x1101),
        0x3134 => Some(0x1102),
        0x3137 => Some(0x1103),
        0x3138 => Some(0x1104),
        0x3139 => Some(0x1105),
        0x3141 => Some(0x1106),
        0x3142 => Some(0x1107),
        0x3143 => Some(0x1108),
        0x3145 => Some(0x1109),
        0x3146 => Some(0x110A),
        0x3147 => Some(0x110B),
        0x3148 => Some(0x110C),
        0x3149 => Some(0x110D),
        0x314A => Some(0x110E),
        0x314B => Some(0x110F),
        0x314C => Some(0x1110),
        0x314D => Some(0x1111),
        0x314E => Some(0x1112),
        _ => None,
    }
}

/// The conjoining initial consonant a trigger character stands for: a
/// conjoining initial itself, or its compatibility form.
pub open spec fn initial_for_char(c: char) -> Option<u32> {
    if is_cho_cp(c as u32) {
        Some(c as u32)
    } else {
        spec_compat_cho_to_conjoining(c as u32)
    }
}

/// The initials of `s`, or the first character that is not one.
pub open spec fn scan_initials(s: Seq<char>) -> Result<Seq<u32>, char>
    decreases s.len(),
{
    if s.len() == 0 {
        Ok(Seq::empty())
    } else {
        match scan_initials(s.drop_last()) {
            Err(c) => Err(c),
            Ok(v) => match initial_for_char(s.last()) {
                Some(cp) => Ok(v.push(cp)),
                None => Err(s.last()),
            },
        }
    }
}

/// The message for a trigger character that is not an initial consonant:
/// `'c' (U+XXXX) is not an initial consonant`.
pub open spec fn not_initial_message(c: char) -> Seq<char> {
    "'"@.push(c) + "' (U+"@ + hex_padded(c as u32 as nat, 4) + ") is not an initial consonant"@
}

/// A `cho_seq` trigger as initial consonants: empty triggers and
/// characters that are not initial consonants are rejected.
pub open spec fn parse_cho_seq_spec(s: Seq<char>) -> Result<Seq<u32>, Seq<char>> {
    if s.len() == 0 {
        Err("cho_seq trigger empty"@)
    } else {
        match scan_initials(s) {
            Ok(v) => Ok(v),
            Err(c) => Err(not_initial_message(c)),
        }
    }
}

/// The trigger event a `trigger_on` name denotes.
pub open spec fn trigger_event_named(name: Seq<char>) -> Option<TriggerEvent> {
    if name == "immediate"@ {
        Some(TriggerEvent::Immediate)
    } else if name == "space"@ {
        Some(TriggerEvent::Space)
    } else if name == "enter"@ {
        Some(TriggerEvent::Enter)
    } else if name == "punctuation"@ {
        Some(TriggerEvent::Punctuation)
    } else if name == "jong_completion"@ {
        Some(TriggerEvent::JongCompletion)
    } else if name == "explicit"@ {
        Some(TriggerEvent::Explicit)
    } else {
        None
    }
}

/// The trigger an entry describes, or the validation message.
pub open spec fn entry_trigger(e: EntryView) -> Result<TriggerView, Seq<char>> {
    if e.kind == "cho_seq"@ {
        match parse_cho_seq_spec(e.trigger) {
            Ok(v) => Ok(TriggerView::ChoSeq(v)),
            Err(m) => Err(m),
        }
    } else if e.kind == "literal"@ {
        if e.trigger.len() == 0 {
            Err("literal trigger empty"@)
        } else {
            Ok(TriggerView::Literal(e.trigger))
        }
    } else if e.kind == "ending"@ {
        if e.trigger.len() == 0 {
            Err("ending trigger empty"@)
        } else {
            Ok(TriggerView::Ending(e.trigger))
        }
    } else {
        Err("unknown kind: "@ + e.kind)
    }
}

/// The trigger event an entry names (default: explicit), or the
/// validation message.
pub open spec fn entry_event(e: EntryView) -> Result<TriggerEvent, Seq<char>> {
    match e.trigger_on {
        None => Ok(TriggerEvent::Explicit),
        Some(name) => match trigger_event_named(name) {
            Some(ev) => Ok(ev),
            None => Err("unknown trigger_on: "@ + name),
        },
    }
}

/// The abbreviation that entry number `idx` describes, or the validation
/// message of its first problem (the kind and trigger are checked before
/// the trigger event). Without an explicit id the id is
/// `user:{idx}:{trigger}`; without a priority it is 100.
pub open spec fn build_abbr_spec(e: EntryView, idx: nat) -> Result<AbbrView, Seq<char>> {
    match entry_trigger(e) {
        Err(m) => Err(m),
        Ok(t) => match entry_event(e) {
            Err(m) => Err(m),
            Ok(ev) => Ok(
                AbbrView {
                    id: match e.id {
                        Some(id) => id,
                        None => "user:"@ + decimal(idx) + ":"@ + e.trigger,
                    },
                    trigger: t,
                    body: e.body,
                    trigger_on: ev,
                    priority: match e.priority {
                        Some(p) => p,
                        None => 100u32,
                    },
                },
            ),
        },
    }
}

/// All entries built in order, or the message of the first invalid one.
pub open spec fn build_all_spec(es: Seq<EntryView>) -> Result<Seq<AbbrView>, Seq<char>>
    decreases es.len(),
{
    if es.len() == 0 {
        Ok(Seq::empty())
    } else {
        match build_all_spec(es.drop_last()) {
            Err(m) => Err(m),
            Ok(v) => match build_abbr_spec(es.last(), (es.len() - 1) as nat) {
                Ok(a) => Ok(v.push(a)),
                Err(m) => Err(m),
            },
        }
    }
}

/// The views of a sequence of abbreviations.
pub open spec fn abbr_views(s: Seq<Abbreviation>) -> Seq<AbbrView> {
    s.map_values(|a: Abbreviation| a@)
}

/// The views of a sequence of entries.
pub open spec fn entry_views(s: Seq<AbbrEntry>) -> Seq<EntryView> {
    s.map_values(|e: AbbrEntry| e@)
}

/// Convert a user-facing trigger (compat jamo like `ㄱㅅ` or conjoining
/// `ᄀᄉ`) into conjoining initial-consonant code points.
pub fn parse_cho_seq(s: &str) -> (r: Result<Vec<u32>, LoadError>)
    ensures
        match r {
            Ok(v) => parse_cho_seq_spec(s@) == Ok::<Seq<u32>, Seq<char>>(v@),
            Err(e) => exists|m: Seq<char>|
                e@ == LoadErrorView::Validation(m) && parse_cho_seq_spec(s@) == Err::<
                    Seq<u32>,
                    Seq<char>,
                >(m),
        },
{
    let chars = chars_of(s);
    if chars.len() == 0 {
        return Err(LoadError::Validation(string_of("cho_seq trigger empty")));
    }
    let mut out: Vec<u32> = Vec::new();
    let mut k: usize = 0;
    while k < chars.len()
        invariant
            k <= chars@.len(),
            chars@ == s@,
            scan_initials(chars@.take(k as int)) == Ok::<Seq<u32>, char>(out@),
        decreases chars@.len() - k,
    {
        let ch = chars[k];
        let cp = ch as u32;
        proof {
            let pre = chars@.take(k + 1);
            assert(pre.drop_last() == chars@.take(k as int));
            assert(pre.last() == ch);
        }
        let conjoining = if 0x1100 <= cp && cp <= 0x1112 {
            cp
        } else {
            match compat_cho_to_conjoining(cp) {
                Some(c) => c,
                None => {
                    proof {
                        lemma_scan_initials_prefix_err(chars@, k + 1);
                    }
                    let mut m = string_of("'");
                    string_push(&mut m, ch);
                    push_str(&mut m, "' (U+");
                    push_hex_padded(&mut m, cp, 4);
                    push_str(&mut m, ") is not an initial consonant");
                    assert(m@ == not_initial_message(ch));
                    return Err(LoadError::Validation(m));
                },
            }
        };
        out.push(conjoining);
        k = k + 1;
    }
    proof {
        assert(chars@.take(chars@.len() as int) == chars@);
    }
    Ok(out)
}

proof fn lemma_scan_initials_prefix_err(s: Seq<char>, n: int)
    requires
        0 <= n <= s.len(),
        scan_initials(s.take(n)) is Err,
    ensures
        scan_initials(s) == scan_initials(s.take(n)),
    decreases s.len(),
{
    if n == s.len() {
        assert(s.take(n) == s);
    } else {
        assert(s.drop_last().take(n) == s.take(n));
        lemma_scan_initials_prefix_err(s.drop_last(), n);
    }
}

fn validation_with(prefix: &str, rest: &str) -> (r: LoadError)
    ensures
        r@ == LoadErrorView::Validation(prefix@ + rest@),
{
    let mut m = string_of(prefix);
    push_str(&mut m, rest);
    LoadError::Validation(m)
}

fn event_named(name: &str) -> (r: Option<TriggerEvent>)
    ensures
        r == trigger_event_named(name@),
{
    if str_eq(name, "immediate") {
        Some(TriggerEvent::Immediate)
    } else if str_eq(name, "space") {
        Some(TriggerEvent::Space)
    } else if str_eq(name, "enter") {
        Some(TriggerEvent::Enter)
    } else if str_eq(name, "punctuation") {
        Some(TriggerEvent::Punctuation)
    } else if str_eq(name, "jong_completion") {
        Some(TriggerEvent::JongCompletion)
    } else if str_eq(name, "explicit") {
        Some(TriggerEvent::Explicit)
    } else {
        None
    }
}

/// Build entry number `idx` (see [`build_abbr_spec`]).
pub fn build_abbr(e: &AbbrEntry, idx: usize) -> (r: Result<Abbreviation, LoadError>)
    ensures
        match r {
            Ok(a) => build_abbr_spec(e@, idx as nat) == Ok::<AbbrView, Seq<char>>(a@),
            Err(err) => exists|m: Seq<char>|
                err@ == LoadErrorView::Validation(m) && build_abbr_spec(e@, idx as nat) == Err::<
                    AbbrView,
                    Seq<char>,
                >(m),
        },
{
    let trigger = if str_eq(e.kind.as_str(), "cho_seq") {
        match parse_cho_seq(e.trigger.as_str()) {
            Ok(v) => Trigger::ChoSeq(v),
            Err(err) => return Err(err),
        }
    } else if str_eq(e.kind.as_str(), "literal") {
        if chars_of(e.trigger.as_str()).len() == 0 {
            return Err(LoadError::Validation(string_of("literal trigger empty")));
        }
        Trigger::Literal(string_of(e.trigger.as_str()))
    } else if str_eq(e.kind.as_str(), "ending") {
        if chars_of(e.trigger.as_str()).len() == 0 {
            return Err(LoadError::Validation(string_of("ending trigger empty")));
        }
        Trigger::Ending(string_of(e.trigger.as_str()))
    } else {
        return Err(validation_with("unknown kind: ", e.kind.as_str()));
    };
    let trigger_on = match &e.trigger_on {
        None => TriggerEvent::Explicit,
        Some(name) => match event_named(name.as_str()) {
            Some(ev) => ev,
            None => return Err(validation_with("unknown trigger_on: ", name.as_str())),
        },
    };
    let id = match &e.id {
        Some(id) => string_of(id.as_str()),
        None => {
            let mut s = string_of("user:");
            push_decimal(&mut s, idx as u64);
            push_str(&mut s, ":");
            push_str(&mut s, e.trigger.as_str());
            s
        },
    };
    let priority = match e.priority {
        Some(p) => p,
        None => 100,
    };
    Ok(Abbreviation { id, trigger, body: string_of(e.body.as_str()), trigger_on, priority })
}

/// Build every entry in order (entry `i` gets index `i`), or report the
/// first invalid one.
pub fn build_abbrs(entries: Vec<AbbrEntry>) -> (r: Result<Vec<Abbreviation>, LoadError>)
    ensures
        match r {
            Ok(v) => build_all_spec(entry_views(entries@)) == Ok::<Seq<AbbrView>, Seq<char>>(
                abbr_views(v@),
            ),
            Err(err) => exists|m: Seq<char>|
                err@ == LoadErrorView::Validation(m) && build_all_spec(entry_views(entries@))
                    == Err::<Seq<AbbrView>, Seq<char>>(m),
        },
{
    let mut out: Vec<Abbreviation> = Vec::new();
    let ghost es = entry_views(entries@);
    let mut i: usize = 0;
    proof {
        assert(es.take(0) =~= Seq::<EntryView>::empty());
        assert(abbr_views(out@) =~= Seq::<AbbrView>::empty());
    }
    while i < entries.len()
        invariant
            i <= entries@.len(),
            es == entry_views(entries@),
            build_all_spec(es.take(i as int)) == Ok::<Seq<AbbrView>, Seq<char>>(abbr_views(out@)),
        decreases entries@.len() - i,
    {
        proof {
            let pre = es.take(i + 1);
            assert(pre.drop_last() == es.take(i as int));
            assert(pre.last() == entries@[i as int]@);
        }
        match build_abbr(&entries[i], i) {
            Ok(a) => {
                let ghost before = out@;
                out.push(a);
                assert(abbr_views(out@) =~= abbr_views(before).push(a@));
            },
            Err(err) => {
                proof {
                    lemma_build_all_prefix_err(es, i + 1);
                }
                return Err(err);
            },
        }
        i = i + 1;
    }
    proof {
        assert(es.take(es.len() as int) == es);
    }
    Ok(out)
}

proof fn lemma_build_all_prefix_err(es: Seq<EntryView>, n: int)
    requires
        0 <= n <= es.len(),
        build_all_spec(es.take(n)) is Err,
    ensures
        build_all_spec(es) == build_all_spec(es.take(n)),
    decreases es.len(),
{
    if n == es.len() {
        assert(es.take(n) == es);
    } else {
        assert(es.drop_last().take(n) == es.take(n));
        lemma_build_all_prefix_err(es.drop_last(), n);
    }
}

} // verus!
