//! Bundled starter abbreviation dictionary.
use vstd::prelude::*;
use crate::hangul::jamo::is_cho_cp;
use crate::text::{chars_of, push_str, string_of};
use super::loader::abbr_views;
use super::model::{AbbrView, Abbreviation, Trigger, TriggerEvent, TriggerView};
use super::model::TriggerEvent::Space;

verus! {

const G: u32 = 0x1100;
const GG: u32 = 0x1101;
const N: u32 = 0x1102;
const D: u32 = 0x1103;
const DD: u32 = 0x1104;
const R: u32 = 0x1105;
const M: u32 = 0x1106;
const B: u32 = 0x1107;
const S: u32 = 0x1109;
const O: u32 = 0x110B;
const J: u32 = 0x110C;
const C: u32 = 0x110E;
const K: u32 = 0x110F;
const T: u32 = 0x1110;
const H: u32 = 0x1112;

/// Priority for common forms (declaratives, most greetings).
pub const PRI_COMMON: u32 = 100;
/// Priority for polite informal forms.
pub const PRI_POLITE: u32 = 80;
/// Priority for frequent words.
pub const PRI_WORD: u32 = 70;
/// Priority for rarer forms.
pub const PRI_RARE: u32 = 60;
/// Priority for interrogatives.
pub const PRI_QUESTION: u32 = 50;

/// What every bundled entry satisfies: a Cho-run trigger uses conjoining
/// initial consonants only, and an ending fires only on an explicit user
/// action, never on Space.
pub open spec fn dict_entry_ok(a: Abbreviation) -> bool {
    &&& (a.trigger@ matches TriggerView::ChoSeq(cs) ==> forall|i: int|
        0 <= i < cs.len() ==> is_cho_cp(#[trigger] cs[i]))
    &&& (a.trigger@ is Ending ==> a.trigger_on == TriggerEvent::Explicit)
}

/// Every entry of `s` satisfies [`dict_entry_ok`].
pub open spec fn all_ok(s: Seq<Abbreviation>) -> bool {
    forall|i: int| 0 <= i < s.len() ==> dict_entry_ok(#[trigger] s[i])
}

fn push_ok(v: &mut Vec<Abbreviation>, a: Abbreviation)
    requires
        all_ok(old(v)@),
        dict_entry_ok(a),
    ensures
        final(v)@ == old(v)@.push(a),
        all_ok(final(v)@),
{
    v.push(a);
    assert forall|i: int| 0 <= i < v@.len() implies dict_entry_ok(#[trigger] v@[i]) by {
        if i < old(v)@.len() {
            assert(v@[i] == old(v)@[i]);
        }
    }
}

/// `prefix` followed by `rest`.
fn joined(prefix: &str, rest: &str) -> (r: String)
    ensures
        r@ == prefix@ + rest@,
{
    let mut s = string_of(prefix);
    push_str(&mut s, rest);
    s
}

fn cho_abbr(id: &str, chos: Vec<u32>, body: &str, ev: TriggerEvent) -> (r: Abbreviation)
    requires
        forall|i: int| 0 <= i < chos@.len() ==> is_cho_cp(#[trigger] chos@[i]),
    ensures
        dict_entry_ok(r),
        r@.id == id@,
        r@.trigger == TriggerView::ChoSeq(chos@),
        r@.body == body@,
        r.trigger_on == ev,
        r.priority == PRI_COMMON,
{
    Abbreviation {
        id: string_of(id),
        trigger: Trigger::ChoSeq(chos),
        body: string_of(body),
        trigger_on: ev,
        priority: PRI_COMMON,
    }
}

/// An ending's initial-consonant alias, fired explicitly (Tab); its id is
/// `end-cho-` followed by `suffix`.
fn cho_end(suffix: &str, chos: Vec<u32>, body: &str, priority: u32) -> (r: Abbreviation)
    requires
        forall|i: int| 0 <= i < chos@.len() ==> is_cho_cp(#[trigger] chos@[i]),
    ensures
        dict_entry_ok(r),
        r@.id == "end-cho-"@ + suffix@,
        r@.trigger == TriggerView::ChoSeq(chos@),
        r@.body == body@,
        r.trigger_on == TriggerEvent::Explicit,
        r.priority == priority,
{
    Abbreviation {
        id: joined("end-cho-", suffix),
        trigger: Trigger::ChoSeq(chos),
        body: string_of(body),
        trigger_on: TriggerEvent::Explicit,
        priority,
    }
}

fn lit(id: &str, text: &str, body: &str, ev: TriggerEvent) -> (r: Abbreviation)
    ensures
        dict_entry_ok(r),
        r@.id == id@,
        r@.trigger == TriggerView::Literal(text@),
        r@.body == body@,
        r.trigger_on == ev,
        r.priority == PRI_COMMON,
{
    Abbreviation {
        id: string_of(id),
        trigger: Trigger::Literal(string_of(text)),
        body: string_of(body),
        trigger_on: ev,
        priority: PRI_COMMON,
    }
}

/// An ending (suffix) entry fired explicitly; its id is `end:` followed
/// by the ending.
fn ending_p(text: &str, body: &str, priority: u32) -> (r: Abbreviation)
    ensures
        dict_entry_ok(r),
        r@.id == "end:"@ + text@,
        r@.trigger == TriggerView::Ending(text@),
        r@.body == body@,
        r.trigger_on == TriggerEvent::Explicit,
        r.priority == priority,
{
    Abbreviation {
        id: joined("end:", text),
        trigger: Trigger::Ending(string_of(text)),
        body: string_of(body),
        trigger_on: TriggerEvent::Explicit,
        priority,
    }
}

/// A conjunction registered twice: as a literal word (`conj-lit:`) and by
/// its initial consonants (`conj-cho:`), both fired explicitly.
fn conj(v: &mut Vec<Abbreviation>, word: &str, chos: Vec<u32>)
    requires
        all_ok(old(v)@),
        forall|i: int| 0 <= i < chos@.len() ==> is_cho_cp(#[trigger] chos@[i]),
    ensures
        all_ok(final(v)@),
        abbr_views(final(v)@) == abbr_views(old(v)@) + conjunction(word@, chos@),
{
    let ghost start = abbr_views(v@);
    let ghost cs = chos@;
    push_ok(
        v,
        Abbreviation {
            id: joined("conj-lit:", word),
            trigger: Trigger::Literal(string_of(word)),
            body: string_of(word),
            trigger_on: TriggerEvent::Explicit,
            priority: PRI_COMMON,
        },
    );
    push_ok(
        v,
        Abbreviation {
            id: joined("conj-cho:", word),
            trigger: Trigger::ChoSeq(chos),
            body: string_of(word),
            trigger_on: TriggerEvent::Explicit,
            priority: PRI_COMMON,
        },
    );
    assert(abbr_views(v@) =~= start + conjunction(word@, cs));
}

/// The conjoining initial consonant of a precomposed syllable, or `None`
/// for any other character.
pub open spec fn syllable_initial(c: char) -> Option<u32> {
    let cp = c as u32;
    if 0xAC00 <= cp && cp <= 0xD7A3 {
        Some((0x1100 + (cp - 0xAC00) / 588) as u32)
    } else {
        None
    }
}

/// The initial consonants of the precomposed syllables of `s`, in order;
/// other characters are skipped.
pub open spec fn initials_of(s: Seq<char>) -> Seq<u32>
    decreases s.len(),
{
    if s.len() == 0 {
        Seq::empty()
    } else {
        let prev = initials_of(s.drop_last());
        match syllable_initial(s.last()) {
            Some(cp) => prev.push(cp),
            None => prev,
        }
    }
}

/// The initial-consonant code points (U+1100..=U+1112) of the Hangul
/// syllables of `word`; other characters are skipped.
pub fn chos_of(word: &str) -> (r: Vec<u32>)
    ensures
        r@ == initials_of(word@),
        forall|i: int| 0 <= i < r@.len() ==> is_cho_cp(#[trigger] r@[i]),
{
    let chars = chars_of(word);
    let mut out: Vec<u32> = Vec::new();
    let mut k: usize = 0;
    while k < chars.len()
        invariant
            k <= chars@.len(),
            chars@ == word@,
            out@ == initials_of(chars@.take(k as int)),
            forall|i: int| 0 <= i < out@.len() ==> is_cho_cp(#[trigger] out@[i]),
        decreases chars@.len() - k,
    {
        let c = chars[k];
        proof {
            let pre = chars@.take(k + 1);
            assert(pre.drop_last() == chars@.take(k as int));
            assert(pre.last() == c);
        }
        let cp = c as u32;
        if 0xAC00 <= cp && cp <= 0xD7A3 {
            out.push(0x1100 + (cp - 0xAC00) / (21 * 28));
        }
        k = k + 1;
    }
    proof {
        assert(chars@.take(chars@.len() as int) == chars@);
    }
    out
}

/// A frequent word registered twice: as a literal word (`word-lit:`) and
/// by its initial consonants (`word-cho:`), both fired explicitly.
fn word_entry(v: &mut Vec<Abbreviation>, word: &str)
    requires
        all_ok(old(v)@),
    ensures
        all_ok(final(v)@),
        abbr_views(final(v)@) == abbr_views(old(v)@) + frequent_word(word@),
{
    let ghost start = abbr_views(v@);
    push_ok(
        v,
        Abbreviation {
            id: joined("word-lit:", word),
            trigger: Trigger::Literal(string_of(word)),
            body: string_of(word),
            trigger_on: TriggerEvent::Explicit,
            priority: PRI_WORD,
        },
    );
    push_ok(
        v,
        Abbreviation {
            id: joined("word-cho:", word),
            trigger: Trigger::ChoSeq(chos_of(word)),
            body: string_of(word),
            trigger_on: TriggerEvent::Explicit,
            priority: PRI_WORD,
        },
    );
    assert(abbr_views(v@) =~= start + frequent_word(word@));
}

// ─────────────────────────── The entries ────────────────────────────

/// A greeting: a Cho run expanded on Space, common priority.
pub open spec fn greeting(id: Seq<char>, chos: Seq<u32>, body: Seq<char>) -> AbbrView {
    AbbrView {
        id,
        trigger: TriggerView::ChoSeq(chos),
        body,
        trigger_on: TriggerEvent::Space,
        priority: PRI_COMMON,
    }
}

/// A sentence ending offered explicitly; its id is `end:` and the
/// ending.
pub open spec fn ending(text: Seq<char>, body: Seq<char>, priority: u32) -> AbbrView {
    AbbrView {
        id: "end:"@ + text,
        trigger: TriggerView::Ending(text),
        body,
        trigger_on: TriggerEvent::Explicit,
        priority,
    }
}

/// An ending's initial-consonant alias offered explicitly; its id is
/// `end-cho-` and `suffix`.
pub open spec fn ending_alias(suffix: Seq<char>, chos: Seq<u32>, body: Seq<char>, priority: u32) -> AbbrView {
    AbbrView {
        id: "end-cho-"@ + suffix,
        trigger: TriggerView::ChoSeq(chos),
        body,
        trigger_on: TriggerEvent::Explicit,
        priority,
    }
}

/// A conjunction as a literal word (`conj-lit:`) and by its initial
/// consonants (`conj-cho:`), both offered explicitly.
pub open spec fn conjunction(word: Seq<char>, chos: Seq<u32>) -> Seq<AbbrView> {
    seq![
        AbbrView {
            id: "conj-lit:"@ + word,
            trigger: TriggerView::Literal(word),
            body: word,
            trigger_on: TriggerEvent::Explicit,
            priority: PRI_COMMON,
        },
        AbbrView {
            id: "conj-cho:"@ + word,
            trigger: TriggerView::ChoSeq(chos),
            body: word,
            trigger_on: TriggerEvent::Explicit,
            priority: PRI_COMMON,
        },
    ]
}

/// A text template: a literal trigger expanded on Space.
pub open spec fn template(id: Seq<char>, text: Seq<char>, body: Seq<char>) -> AbbrView {
    AbbrView {
        id,
        trigger: TriggerView::Literal(text),
        body,
        trigger_on: TriggerEvent::Space,
        priority: PRI_COMMON,
    }
}

/// A frequent word as a literal (`word-lit:`) and by the initial
/// consonants of its syllables (`word-cho:`), both offered explicitly.
pub open spec fn frequent_word(word: Seq<char>) -> Seq<AbbrView> {
    seq![
        AbbrView {
            id: "word-lit:"@ + word,
            trigger: TriggerView::Literal(word),
            body: word,
            trigger_on: TriggerEvent::Explicit,
            priority: PRI_WORD,
        },
        AbbrView {
            id: "word-cho:"@ + word,
            trigger: TriggerView::ChoSeq(initials_of(word)),
            body: word,
            trigger_on: TriggerEvent::Explicit,
            priority: PRI_WORD,
        },
    ]
}

/// The entries of the frequent words `ws`, in order.
pub open spec fn word_entries(ws: Seq<Seq<char>>) -> Seq<AbbrView>
    decreases ws.len(),
{
    if ws.len() == 0 {
        Seq::empty()
    } else {
        word_entries(ws.drop_last()) + frequent_word(ws.last())
    }
}

/// Greetings, expanded on Space.
pub open spec fn greeting_entries() -> Seq<AbbrView> {
    seq![
        greeting("gs"@, seq![0x1100u32, 0x1109u32], "감사합니다."@),
        greeting("onhsy"@, seq![0x110Bu32, 0x1102u32, 0x1112u32, 0x1109u32, 0x110Bu32], "안녕하세요."@),
        greeting("sg"@, seq![0x1109u32, 0x1100u32], "수고하셨습니다."@),
        greeting("jshnd"@, seq![0x110Cu32, 0x1109u32, 0x1112u32, 0x1102u32, 0x1103u32], "죄송합니다."@),
        greeting("chk"@, seq![0x110Eu32, 0x110Fu32], "축하합니다."@),
        greeting("ok"@, seq![0x110Bu32, 0x110Fu32], "알겠습니다."@),
        greeting("gd"@, seq![0x1100u32, 0x1103u32], "고생하셨습니다."@),
        greeting("hy"@, seq![0x1112u32, 0x110Bu32], "환영합니다."@),
        greeting("jh"@, seq![0x110Cu32, 0x1112u32], "잘 부탁드립니다."@),
        greeting("oo"@, seq![0x110Bu32, 0x110Bu32], "네, 확인했습니다."@),
        greeting("gt"@, seq![0x1100u32, 0x1110u32], "검토 부탁드립니다."@),
        greeting("jhs"@, seq![0x110Cu32, 0x1112u32, 0x1109u32], "좋은 하루 되세요."@),
    ]
}

fn push_greeting(v: &mut Vec<Abbreviation>)
    requires
        all_ok(old(v)@),
    ensures
        all_ok(final(v)@),
        abbr_views(final(v)@) == abbr_views(old(v)@) + greeting_entries(),
{
    let ghost start = abbr_views(v@);
    push_ok(v, cho_abbr("gs", vec![G, S], "감사합니다.", Space));
    push_ok(v, cho_abbr("onhsy", vec![O, N, H, S, O], "안녕하세요.", Space));
    push_ok(v, cho_abbr("sg", vec![S, G], "수고하셨습니다.", Space));
    push_ok(v, cho_abbr("jshnd", vec![J, S, H, N, D], "죄송합니다.", Space));
    push_ok(v, cho_abbr("chk", vec![C, K], "축하합니다.", Space));
    push_ok(v, cho_abbr("ok", vec![O, K], "알겠습니다.", Space));
    push_ok(v, cho_abbr("gd", vec![G, D], "고생하셨습니다.", Space));
    push_ok(v, cho_abbr("hy", vec![H, O], "환영합니다.", Space));
    push_ok(v, cho_abbr("jh", vec![J, H], "잘 부탁드립니다.", Space));
    push_ok(v, cho_abbr("oo", vec![O, O], "네, 확인했습니다.", Space));
    push_ok(v, cho_abbr("gt", vec![G, T], "검토 부탁드립니다.", Space));
    push_ok(v, cho_abbr("jhs", vec![J, H, S], "좋은 하루 되세요.", Space));
    assert(abbr_views(v@) =~= start + greeting_entries());
}

/// Sentence endings, offered on Tab. (part 1 of 3)
pub open spec fn ending_entries_1() -> Seq<AbbrView> {
    seq![
        ending("습니다"@, "습니다."@, PRI_COMMON),
        ending("입니다"@, "입니다."@, PRI_COMMON),
        ending("합니다"@, "합니다."@, PRI_COMMON),
        ending("됩니다"@, "됩니다."@, PRI_COMMON),
        ending("있습니다"@, "있습니다."@, PRI_COMMON),
        ending("없습니다"@, "없습니다."@, PRI_COMMON),
        ending("드립니다"@, "드립니다."@, PRI_COMMON),
        ending("겠습니다"@, "겠습니다."@, PRI_COMMON),
        ending("였습니다"@, "였습니다."@, PRI_COMMON),
        ending("었습니다"@, "었습니다."@, PRI_COMMON),
        ending("습니까"@, "습니까?"@, PRI_QUESTION),
        ending("입니까"@, "입니까?"@, PRI_QUESTION),
        ending("합니까"@, "합니까?"@, PRI_QUESTION),
        ending("됩니까"@, "됩니까?"@, PRI_QUESTION),
        ending("있습니까"@, "있습니까?"@, PRI_QUESTION),
        ending("없습니까"@, "없습니까?"@, PRI_QUESTION),
    ]
}

fn push_ending_1(v: &mut Vec<Abbreviation>)
    requires
        all_ok(old(v)@),
    ensures
        all_ok(final(v)@),
        abbr_views(final(v)@) == abbr_views(old(v)@) + ending_entries_1(),
{
    let ghost start = abbr_views(v@);
    push_ok(v, ending_p("습니다", "습니다.", PRI_COMMON));
    push_ok(v, ending_p("입니다", "입니다.", PRI_COMMON));
    push_ok(v, ending_p("합니다", "합니다.", PRI_COMMON));
    push_ok(v, ending_p("됩니다", "됩니다.", PRI_COMMON));
    push_ok(v, ending_p("있습니다", "있습니다.", PRI_COMMON));
    push_ok(v, ending_p("없습니다", "없습니다.", PRI_COMMON));
    push_ok(v, ending_p("드립니다", "드립니다.", PRI_COMMON));
    push_ok(v, ending_p("겠습니다", "겠습니다.", PRI_COMMON));
    push_ok(v, ending_p("였습니다", "였습니다.", PRI_COMMON));
    push_ok(v, ending_p("었습니다", "었습니다.", PRI_COMMON));
    push_ok(v, ending_p("습니까", "습니까?", PRI_QUESTION));
    push_ok(v, ending_p("입니까", "입니까?", PRI_QUESTION));
    push_ok(v, ending_p("합니까", "합니까?", PRI_QUESTION));
    push_ok(v, ending_p("됩니까", "됩니까?", PRI_QUESTION));
    push_ok(v, ending_p("있습니까", "있습니까?", PRI_QUESTION));
    push_ok(v, ending_p("없습니까", "없습니까?", PRI_QUESTION));
    assert(abbr_views(v@) =~= start + ending_entries_1());
}

/// Sentence endings, offered on Tab. (part 2 of 3)
pub open spec fn ending_entries_2() -> Seq<AbbrView> {
    seq![
        ending("드립니까"@, "드립니까?"@, PRI_QUESTION),
        ending("겠습니까"@, "겠습니까?"@, PRI_QUESTION),
        ending("였습니까"@, "였습니까?"@, PRI_QUESTION),
        ending("었습니까"@, "었습니까?"@, PRI_QUESTION),
        ending("주세요"@, "주세요."@, PRI_COMMON),
        ending("세요"@, "세요."@, PRI_COMMON),
        ending("해요"@, "해요."@, PRI_COMMON),
        ending("해주세요"@, "해주세요."@, PRI_COMMON),
        ending("어요"@, "어요."@, PRI_POLITE),
        ending("아요"@, "아요."@, PRI_POLITE),
        ending("네요"@, "네요."@, PRI_POLITE),
        ending("군요"@, "군요."@, PRI_POLITE),
        ending("죠"@, "죠."@, PRI_POLITE),
        ending("드려요"@, "드려요."@, PRI_POLITE),
        ending("드릴게요"@, "드릴게요."@, PRI_RARE),
        ending("되나요"@, "되나요?"@, PRI_QUESTION),
    ]
}

fn push_ending_2(v: &mut Vec<Abbreviation>)
    requires
        all_ok(old(v)@),
    ensures
        all_ok(final(v)@),
        abbr_views(final(v)@) == abbr_views(old(v)@) + ending_entries_2(),
{
    let ghost start = abbr_views(v@);
    push_ok(v, ending_p("드립니까", "드립니까?", PRI_QUESTION));
    push_ok(v, ending_p("겠습니까", "겠습니까?", PRI_QUESTION));
    push_ok(v, ending_p("였습니까", "였습니까?", PRI_QUESTION));
    push_ok(v, ending_p("었습니까", "었습니까?", PRI_QUESTION));
    push_ok(v, ending_p("주세요", "주세요.", PRI_COMMON));
    push_ok(v, ending_p("세요", "세요.", PRI_COMMON));
    push_ok(v, ending_p("해요", "해요.", PRI_COMMON));
    push_ok(v, ending_p("해주세요", "해주세요.", PRI_COMMON));
    push_ok(v, ending_p("어요", "어요.", PRI_POLITE));
    push_ok(v, ending_p("아요", "아요.", PRI_POLITE));
    push_ok(v, ending_p("네요", "네요.", PRI_POLITE));
    push_ok(v, ending_p("군요", "군요.", PRI_POLITE));
    push_ok(v, ending_p("죠", "죠.", PRI_POLITE));
    push_ok(v, ending_p("드려요", "드려요.", PRI_POLITE));
    push_ok(v, ending_p("드릴게요", "드릴게요.", PRI_RARE));
    push_ok(v, ending_p("되나요", "되나요?", PRI_QUESTION));
    assert(abbr_views(v@) =~= start + ending_entries_2());
}

/// Sentence endings, offered on Tab. (part 3 of 3)
pub open spec fn ending_entries_3() -> Seq<AbbrView> {
    seq![
        ending("될까요"@, "될까요?"@, PRI_QUESTION),
        ending("일까요"@, "일까요?"@, PRI_QUESTION),
        ending("십시오"@, "십시오."@, PRI_POLITE),
        ending("십시다"@, "십시다."@, PRI_RARE),
    ]
}

fn push_ending_3(v: &mut Vec<Abbreviation>)
    requires
        all_ok(old(v)@),
    ensures
        all_ok(final(v)@),
        abbr_views(final(v)@) == abbr_views(old(v)@) + ending_entries_3(),
{
    let ghost start = abbr_views(v@);
    push_ok(v, ending_p("될까요", "될까요?", PRI_QUESTION));
    push_ok(v, ending_p("일까요", "일까요?", PRI_QUESTION));
    push_ok(v, ending_p("십시오", "십시오.", PRI_POLITE));
    push_ok(v, ending_p("십시다", "십시다.", PRI_RARE));
    assert(abbr_views(v@) =~= start + ending_entries_3());
}

/// Initial-consonant aliases of endings, offered on Tab. (part 1 of 4)
pub open spec fn alias_entries_1() -> Seq<AbbrView> {
    seq![
        ending_alias("snd"@, seq![0x1109u32, 0x1102u32, 0x1103u32], "습니다."@, PRI_COMMON),
        ending_alias("ond"@, seq![0x110Bu32, 0x1102u32, 0x1103u32], "입니다."@, PRI_COMMON),
        ending_alias("hnd"@, seq![0x1112u32, 0x1102u32, 0x1103u32], "합니다."@, PRI_COMMON),
        ending_alias("dnd"@, seq![0x1103u32, 0x1102u32, 0x1103u32], "됩니다."@, PRI_COMMON),
        ending_alias("isnd"@, seq![0x110Bu32, 0x1109u32, 0x1102u32, 0x1103u32], "있습니다."@, PRI_COMMON),
        ending_alias("eosnd"@, seq![0x110Bu32, 0x1109u32, 0x1102u32, 0x1103u32], "없습니다."@, PRI_COMMON),
        ending_alias("yeosnd"@, seq![0x110Bu32, 0x1109u32, 0x1102u32, 0x1103u32], "였습니다."@, PRI_RARE),
        ending_alias("eonsnd"@, seq![0x110Bu32, 0x1109u32, 0x1102u32, 0x1103u32], "었습니다."@, PRI_RARE),
        ending_alias("drnd"@, seq![0x1103u32, 0x1105u32, 0x1102u32, 0x1103u32], "드립니다."@, PRI_COMMON),
        ending_alias("gsnd"@, seq![0x1100u32, 0x1109u32, 0x1102u32, 0x1103u32], "겠습니다."@, PRI_COMMON),
        ending_alias("hsnd"@, seq![0x1112u32, 0x1109u32, 0x1102u32, 0x1103u32], "했습니다."@, PRI_COMMON),
        ending_alias("jsnd"@, seq![0x110Cu32, 0x1109u32, 0x1102u32, 0x1103u32], "좋습니다."@, PRI_COMMON),
        ending_alias("gtsnd"@, seq![0x1100u32, 0x1109u32, 0x1102u32, 0x1103u32], "같습니다."@, PRI_RARE),
        ending_alias("grsnd"@, seq![0x1100u32, 0x1105u32, 0x1109u32, 0x1102u32, 0x1103u32], "그렇습니다."@, PRI_COMMON),
        ending_alias("ogsnd"@, seq![0x110Bu32, 0x1100u32, 0x1109u32, 0x1102u32, 0x1103u32], "알겠습니다."@, PRI_COMMON),
        ending_alias("mrgsnd"@, seq![0x1106u32, 0x1105u32, 0x1100u32, 0x1109u32, 0x1102u32, 0x1103u32], "모르겠습니다."@, PRI_COMMON),
    ]
}

fn push_alias_1(v: &mut Vec<Abbreviation>)
    requires
        all_ok(old(v)@),
    ensures
        all_ok(final(v)@),
        abbr_views(final(v)@) == abbr_views(old(v)@) + alias_entries_1(),
{
    let ghost start = abbr_views(v@);
    push_ok(v, cho_end("snd", vec![S, N, D], "습니다.", PRI_COMMON));
    push_ok(v, cho_end("ond", vec![O, N, D], "입니다.", PRI_COMMON));
    push_ok(v, cho_end("hnd", vec![H, N, D], "합니다.", PRI_COMMON));
    push_ok(v, cho_end("dnd", vec![D, N, D], "됩니다.", PRI_COMMON));
    push_ok(v, cho_end("isnd", vec![O, S, N, D], "있습니다.", PRI_COMMON));
    push_ok(v, cho_end("eosnd", vec![O, S, N, D], "없습니다.", PRI_COMMON));
    push_ok(v, cho_end("yeosnd", vec![O, S, N, D], "였습니다.", PRI_RARE));
    push_ok(v, cho_end("eonsnd", vec![O, S, N, D], "었습니다.", PRI_RARE));
    push_ok(v, cho_end("drnd", vec![D, R, N, D], "드립니다.", PRI_COMMON));
    push_ok(v, cho_end("gsnd", vec![G, S, N, D], "겠습니다.", PRI_COMMON));
    push_ok(v, cho_end("hsnd", vec![H, S, N, D], "했습니다.", PRI_COMMON));
    push_ok(v, cho_end("jsnd", vec![J, S, N, D], "좋습니다.", PRI_COMMON));
    push_ok(v, cho_end("gtsnd", vec![G, S, N, D], "같습니다.", PRI_RARE));
    push_ok(v, cho_end("grsnd", vec![G, R, S, N, D], "그렇습니다.", PRI_COMMON));
    push_ok(v, cho_end("ogsnd", vec![O, G, S, N, D], "알겠습니다.", PRI_COMMON));
    push_ok(v, cho_end("mrgsnd", vec![M, R, G, S, N, D], "모르겠습니다.", PRI_COMMON));
    assert(abbr_views(v@) =~= start + alias_entries_1());
}

/// Initial-consonant aliases of endings, offered on Tab. (part 2 of 4)
pub open spec fn alias_entries_2() -> Seq<AbbrView> {
    seq![
        ending_alias("bnd"@, seq![0x1107u32, 0x1102u32, 0x1103u32], "봅니다."@, PRI_POLITE),
        ending_alias("gnd"@, seq![0x1100u32, 0x1102u32, 0x1103u32], "갑니다."@, PRI_POLITE),
        ending_alias("jund"@, seq![0x110Cu32, 0x1102u32, 0x1103u32], "줍니다."@, PRI_POLITE),
        ending_alias("bsnd"@, seq![0x1107u32, 0x1109u32, 0x1102u32, 0x1103u32], "받습니다."@, PRI_POLITE),
        ending_alias("bond"@, seq![0x1107u32, 0x110Bu32, 0x1102u32, 0x1103u32], "보입니다."@, PRI_POLITE),
        ending_alias("bjnd"@, seq![0x1107u32, 0x110Cu32, 0x1102u32, 0x1103u32], "바랍니다."@, PRI_COMMON),
        ending_alias("hgsnd"@, seq![0x1112u32, 0x1100u32, 0x1109u32, 0x1102u32, 0x1103u32], "하겠습니다."@, PRI_POLITE),
        ending_alias("bthnd"@, seq![0x1107u32, 0x1110u32, 0x1112u32, 0x1102u32, 0x1103u32], "부탁합니다."@, PRI_COMMON),
        ending_alias("btdrnd"@, seq![0x1107u32, 0x1110u32, 0x1103u32, 0x1105u32, 0x1102u32, 0x1103u32], "부탁드립니다."@, PRI_COMMON),
        ending_alias("sng"@, seq![0x1109u32, 0x1102u32, 0x1101u32], "습니까?"@, PRI_QUESTION),
        ending_alias("ong"@, seq![0x110Bu32, 0x1102u32, 0x1101u32], "입니까?"@, PRI_QUESTION),
        ending_alias("hng"@, seq![0x1112u32, 0x1102u32, 0x1101u32], "합니까?"@, PRI_QUESTION),
        ending_alias("dng"@, seq![0x1103u32, 0x1102u32, 0x1101u32], "됩니까?"@, PRI_QUESTION),
        ending_alias("isng"@, seq![0x110Bu32, 0x1109u32, 0x1102u32, 0x1101u32], "있습니까?"@, PRI_QUESTION),
        ending_alias("eosng"@, seq![0x110Bu32, 0x1109u32, 0x1102u32, 0x1101u32], "없습니까?"@, PRI_QUESTION),
        ending_alias("drng"@, seq![0x1103u32, 0x1105u32, 0x1102u32, 0x1101u32], "드립니까?"@, PRI_QUESTION),
    ]
}

fn push_alias_2(v: &mut Vec<Abbreviation>)
    requires
        all_ok(old(v)@),
    ensures
        all_ok(final(v)@),
        abbr_views(final(v)@) == abbr_views(old(v)@) + alias_entries_2(),
{
    let ghost start = abbr_views(v@);
    push_ok(v, cho_end("bnd", vec![B, N, D], "봅니다.", PRI_POLITE));
    push_ok(v, cho_end("gnd", vec![G, N, D], "갑니다.", PRI_POLITE));
    push_ok(v, cho_end("jund", vec![J, N, D], "줍니다.", PRI_POLITE));
    push_ok(v, cho_end("bsnd", vec![B, S, N, D], "받습니다.", PRI_POLITE));
    push_ok(v, cho_end("bond", vec![B, O, N, D], "보입니다.", PRI_POLITE));
    push_ok(v, cho_end("bjnd", vec![B, J, N, D], "바랍니다.", PRI_COMMON));
    push_ok(v, cho_end("hgsnd", vec![H, G, S, N, D], "하겠습니다.", PRI_POLITE));
    push_ok(v, cho_end("bthnd", vec![B, T, H, N, D], "부탁합니다.", PRI_COMMON));
    push_ok(v, cho_end("btdrnd", vec![B, T, D, R, N, D], "부탁드립니다.", PRI_COMMON));
    push_ok(v, cho_end("sng", vec![S, N, GG], "습니까?", PRI_QUESTION));
    push_ok(v, cho_end("ong", vec![O, N, GG], "입니까?", PRI_QUESTION));
    push_ok(v, cho_end("hng", vec![H, N, GG], "합니까?", PRI_QUESTION));
    push_ok(v, cho_end("dng", vec![D, N, GG], "됩니까?", PRI_QUESTION));
    push_ok(v, cho_end("isng", vec![O, S, N, GG], "있습니까?", PRI_QUESTION));
    push_ok(v, cho_end("eosng", vec![O, S, N, GG], "없습니까?", PRI_QUESTION));
    push_ok(v, cho_end("drng", vec![D, R, N, GG], "드립니까?", PRI_QUESTION));
    assert(abbr_views(v@) =~= start + alias_entries_2());
}

/// Initial-consonant aliases of endings, offered on Tab. (part 3 of 4)
pub open spec fn alias_entries_3() -> Seq<AbbrView> {
    seq![
        ending_alias("gsng"@, seq![0x1100u32, 0x1109u32, 0x1102u32, 0x1101u32], "겠습니까?"@, PRI_QUESTION),
        ending_alias("hsng"@, seq![0x1112u32, 0x1109u32, 0x1102u32, 0x1101u32], "했습니까?"@, PRI_QUESTION),
        ending_alias("dnyo"@, seq![0x1103u32, 0x1102u32, 0x110Bu32], "되나요?"@, PRI_QUESTION),
        ending_alias("dggyo"@, seq![0x1103u32, 0x1101u32, 0x110Bu32], "될까요?"@, PRI_QUESTION),
        ending_alias("oggyo"@, seq![0x110Bu32, 0x1101u32, 0x110Bu32], "일까요?"@, PRI_QUESTION),
        ending_alias("grggyo"@, seq![0x1100u32, 0x1105u32, 0x1101u32, 0x110Bu32], "그럴까요?"@, PRI_QUESTION),
        ending_alias("hyo"@, seq![0x1112u32, 0x110Bu32], "해요."@, PRI_POLITE),
        ending_alias("syo"@, seq![0x1109u32, 0x110Bu32], "세요."@, PRI_POLITE),
        ending_alias("nyo"@, seq![0x1102u32, 0x110Bu32], "네요."@, PRI_POLITE),
        ending_alias("gyo"@, seq![0x1100u32, 0x110Bu32], "군요."@, PRI_POLITE),
        ending_alias("dryo"@, seq![0x1103u32, 0x1105u32, 0x110Bu32], "드려요."@, PRI_POLITE),
        ending_alias("drgyo"@, seq![0x1103u32, 0x1105u32, 0x1100u32, 0x110Bu32], "드릴게요."@, PRI_RARE),
        ending_alias("hoyo"@, seq![0x1112u32, 0x110Bu32, 0x110Bu32], "했어요."@, PRI_POLITE),
        ending_alias("doyo"@, seq![0x1103u32, 0x110Bu32, 0x110Bu32], "됐어요."@, PRI_POLITE),
        ending_alias("goyo"@, seq![0x1100u32, 0x110Bu32, 0x110Bu32], "갔어요."@, PRI_POLITE),
        ending_alias("boyo"@, seq![0x1107u32, 0x110Bu32, 0x110Bu32], "봤어요."@, PRI_POLITE),
    ]
}

fn push_alias_3(v: &mut Vec<Abbreviation>)
    requires
        all_ok(old(v)@),
    ensures
        all_ok(final(v)@),
        abbr_views(final(v)@) == abbr_views(old(v)@) + alias_entries_3(),
{
    let ghost start = abbr_views(v@);
    push_ok(v, cho_end("gsng", vec![G, S, N, GG], "겠습니까?", PRI_QUESTION));
    push_ok(v, cho_end("hsng", vec![H, S, N, GG], "했습니까?", PRI_QUESTION));
    push_ok(v, cho_end("dnyo", vec![D, N, O], "되나요?", PRI_QUESTION));
    push_ok(v, cho_end("dggyo", vec![D, GG, O], "될까요?", PRI_QUESTION));
    push_ok(v, cho_end("oggyo", vec![O, GG, O], "일까요?", PRI_QUESTION));
    push_ok(v, cho_end("grggyo", vec![G, R, GG, O], "그럴까요?", PRI_QUESTION));
    push_ok(v, cho_end("hyo", vec![H, O], "해요.", PRI_POLITE));
    push_ok(v, cho_end("syo", vec![S, O], "세요.", PRI_POLITE));
    push_ok(v, cho_end("nyo", vec![N, O], "네요.", PRI_POLITE));
    push_ok(v, cho_end("gyo", vec![G, O], "군요.", PRI_POLITE));
    push_ok(v, cho_end("dryo", vec![D, R, O], "드려요.", PRI_POLITE));
    push_ok(v, cho_end("drgyo", vec![D, R, G, O], "드릴게요.", PRI_RARE));
    push_ok(v, cho_end("hoyo", vec![H, O, O], "했어요.", PRI_POLITE));
    push_ok(v, cho_end("doyo", vec![D, O, O], "됐어요.", PRI_POLITE));
    push_ok(v, cho_end("goyo", vec![G, O, O], "갔어요.", PRI_POLITE));
    push_ok(v, cho_end("boyo", vec![B, O, O], "봤어요.", PRI_POLITE));
    assert(abbr_views(v@) =~= start + alias_entries_3());
}

/// Initial-consonant aliases of endings, offered on Tab. (part 4 of 4)
pub open spec fn alias_entries_4() -> Seq<AbbrView> {
    seq![
        ending_alias("moyo"@, seq![0x1106u32, 0x110Bu32, 0x110Bu32], "맞아요."@, PRI_POLITE),
        ending_alias("joyo"@, seq![0x110Cu32, 0x110Bu32, 0x110Bu32], "좋아요."@, PRI_POLITE),
        ending_alias("soyo"@, seq![0x1109u32, 0x110Bu32, 0x110Bu32], "싫어요."@, PRI_POLITE),
        ending_alias("ayo"@, seq![0x110Bu32, 0x110Bu32, 0x110Bu32], "알아요."@, PRI_RARE),
        ending_alias("gryo"@, seq![0x1100u32, 0x1105u32, 0x110Bu32], "그래요."@, PRI_POLITE),
        ending_alias("mryo"@, seq![0x1106u32, 0x1105u32, 0x110Bu32], "몰라요."@, PRI_POLITE),
        ending_alias("jsyo"@, seq![0x110Cu32, 0x1109u32, 0x110Bu32], "주세요."@, PRI_COMMON),
        ending_alias("hjsyo"@, seq![0x1112u32, 0x110Cu32, 0x1109u32, 0x110Bu32], "해주세요."@, PRI_COMMON),
        ending_alias("dojsyo"@, seq![0x1103u32, 0x110Bu32, 0x110Cu32, 0x1109u32, 0x110Bu32], "도와주세요."@, PRI_COMMON),
        ending_alias("orjsyo"@, seq![0x110Bu32, 0x1105u32, 0x110Cu32, 0x1109u32, 0x110Bu32], "알려주세요."@, PRI_COMMON),
        ending_alias("bnjsyo"@, seq![0x1107u32, 0x1102u32, 0x110Cu32, 0x1109u32, 0x110Bu32], "보내주세요."@, PRI_COMMON),
        ending_alias("sso"@, seq![0x1109u32, 0x1109u32, 0x110Bu32], "십시오."@, PRI_POLITE),
        ending_alias("hsso"@, seq![0x1112u32, 0x1109u32, 0x1109u32, 0x110Bu32], "하십시오."@, PRI_POLITE),
    ]
}

fn push_alias_4(v: &mut Vec<Abbreviation>)
    requires
        all_ok(old(v)@),
    ensures
        all_ok(final(v)@),
        abbr_views(final(v)@) == abbr_views(old(v)@) + alias_entries_4(),
{
    let ghost start = abbr_views(v@);
    push_ok(v, cho_end("moyo", vec![M, O, O], "맞아요.", PRI_POLITE));
    push_ok(v, cho_end("joyo", vec![J, O, O], "좋아요.", PRI_POLITE));
    push_ok(v, cho_end("soyo", vec![S, O, O], "싫어요.", PRI_POLITE));
    push_ok(v, cho_end("ayo", vec![O, O, O], "알아요.", PRI_RARE));
    push_ok(v, cho_end("gryo", vec![G, R, O], "그래요.", PRI_POLITE));
    push_ok(v, cho_end("mryo", vec![M, R, O], "몰라요.", PRI_POLITE));
    push_ok(v, cho_end("jsyo", vec![J, S, O], "주세요.", PRI_COMMON));
    push_ok(v, cho_end("hjsyo", vec![H, J, S, O], "해주세요.", PRI_COMMON));
    push_ok(v, cho_end("dojsyo", vec![D, O, J, S, O], "도와주세요.", PRI_COMMON));
    push_ok(v, cho_end("orjsyo", vec![O, R, J, S, O], "알려주세요.", PRI_COMMON));
    push_ok(v, cho_end("bnjsyo", vec![B, N, J, S, O], "보내주세요.", PRI_COMMON));
    push_ok(v, cho_end("sso", vec![S, S, O], "십시오.", PRI_POLITE));
    push_ok(v, cho_end("hsso", vec![H, S, S, O], "하십시오.", PRI_POLITE));
    assert(abbr_views(v@) =~= start + alias_entries_4());
}

/// Conjunctions, each as a word and by its initial consonants (part 1 of 2).
pub open spec fn conjunction_entries_1() -> Seq<AbbrView> {
    conjunction("그러나"@, seq![0x1100u32, 0x1105u32, 0x1102u32])
        + conjunction("그러면"@, seq![0x1100u32, 0x1105u32, 0x1106u32])
        + conjunction("그러므로"@, seq![0x1100u32, 0x1105u32, 0x1106u32, 0x1105u32])
        + conjunction("그런데"@, seq![0x1100u32, 0x1105u32, 0x1103u32])
        + conjunction("그리고"@, seq![0x1100u32, 0x1105u32, 0x1100u32])
        + conjunction("그리하여"@, seq![0x1100u32, 0x1105u32, 0x1112u32, 0x110Bu32])
        + conjunction("그래서"@, seq![0x1100u32, 0x1105u32, 0x1109u32])
        + conjunction("그래도"@, seq![0x1100u32, 0x1105u32, 0x1103u32])
        + conjunction("그렇지만"@, seq![0x1100u32, 0x1105u32, 0x110Cu32, 0x1106u32])
        + conjunction("하지만"@, seq![0x1112u32, 0x110Cu32, 0x1106u32])
}

fn push_conjunction_1(v: &mut Vec<Abbreviation>)
    requires
        all_ok(old(v)@),
    ensures
        all_ok(final(v)@),
        abbr_views(final(v)@) == abbr_views(old(v)@) + conjunction_entries_1(),
{
    let ghost start = abbr_views(v@);
    conj(v, "그러나", vec![G, R, N]);
    conj(v, "그러면", vec![G, R, M]);
    conj(v, "그러므로", vec![G, R, M, R]);
    conj(v, "그런데", vec![G, R, D]);
    conj(v, "그리고", vec![G, R, G]);
    conj(v, "그리하여", vec![G, R, H, O]);
    conj(v, "그래서", vec![G, R, S]);
    conj(v, "그래도", vec![G, R, D]);
    conj(v, "그렇지만", vec![G, R, J, M]);
    conj(v, "하지만", vec![H, J, M]);
    assert(abbr_views(v@) =~= start + conjunction_entries_1());
}

/// Conjunctions, each as a word and by its initial consonants (part 2 of 2).
pub open spec fn conjunction_entries_2() -> Seq<AbbrView> {
    conjunction("따라서"@, seq![0x1104u32, 0x1105u32, 0x1109u32])
        + conjunction("또한"@, seq![0x1104u32, 0x1112u32])
        + conjunction("또는"@, seq![0x1104u32, 0x1102u32])
        + conjunction("혹은"@, seq![0x1112u32, 0x110Bu32])
        + conjunction("아니면"@, seq![0x110Bu32, 0x1102u32, 0x1106u32])
        + conjunction("더욱이"@, seq![0x1103u32, 0x110Bu32, 0x110Bu32])
        + conjunction("반면에"@, seq![0x1107u32, 0x1106u32, 0x110Bu32])
        + conjunction("예컨대"@, seq![0x110Bu32, 0x110Fu32, 0x1103u32])
        + conjunction("예를 들어"@, seq![0x110Bu32, 0x1105u32, 0x1103u32, 0x110Bu32])
}

fn push_conjunction_2(v: &mut Vec<Abbreviation>)
    requires
        all_ok(old(v)@),
    ensures
        all_ok(final(v)@),
        abbr_views(final(v)@) == abbr_views(old(v)@) + conjunction_entries_2(),
{
    let ghost start = abbr_views(v@);
    conj(v, "따라서", vec![DD, R, S]);
    conj(v, "또한", vec![DD, H]);
    conj(v, "또는", vec![DD, N]);
    conj(v, "혹은", vec![H, O]);
    conj(v, "아니면", vec![O, N, M]);
    conj(v, "더욱이", vec![D, O, O]);
    conj(v, "반면에", vec![B, M, O]);
    conj(v, "예컨대", vec![O, K, D]);
    conj(v, "예를 들어", vec![O, R, D, O]);
    assert(abbr_views(v@) =~= start + conjunction_entries_2());
}

/// Text templates, expanded on Space.
pub open spec fn template_entries() -> Seq<AbbrView> {
    seq![
        template("mail-end"@, "메일끝"@, "감사합니다.\n\n$USERNAME 드림."@),
        template("btw"@, "btw"@, "그런데"@),
        template("imo"@, "imo"@, "제 생각에는"@),
        template("todo"@, "tddo"@, "// TODO: "@),
    ]
}

fn push_template(v: &mut Vec<Abbreviation>)
    requires
        all_ok(old(v)@),
    ensures
        all_ok(final(v)@),
        abbr_views(final(v)@) == abbr_views(old(v)@) + template_entries(),
{
    let ghost start = abbr_views(v@);
    push_ok(v, lit("mail-end", "메일끝", "감사합니다.\n\n$USERNAME 드림.", Space));
    push_ok(v, lit("btw", "btw", "그런데", Space));
    push_ok(v, lit("imo", "imo", "제 생각에는", Space));
    push_ok(v, lit("todo", "tddo", "// TODO: ", Space));
    assert(abbr_views(v@) =~= start + template_entries());
}

/// Frequent words, each offered as a word and by its initial consonants.
pub open spec fn common_word_list() -> Seq<Seq<char>> {
    seq![
        "사람"@,
        "친구"@,
        "가족"@,
        "부모"@,
        "자녀"@,
        "형제"@,
        "자매"@,
        "어른"@,
        "아이"@,
        "학생"@,
        "선생"@,
        "선생님"@,
        "의사"@,
        "기자"@,
        "시간"@,
        "오늘"@,
        "어제"@,
        "내일"@,
        "지금"@,
        "아침"@,
        "점심"@,
        "저녁"@,
        "주말"@,
        "평일"@,
        "시작"@,
        "마지막"@,
        "처음"@,
        "나중"@,
        "요즘"@,
        "최근"@,
        "올해"@,
        "내년"@,
        "작년"@,
        "학교"@,
        "회사"@,
        "국가"@,
        "정부"@,
        "사무실"@,
        "공원"@,
        "도서관"@,
        "병원"@,
        "은행"@,
        "식당"@,
        "시장"@,
        "가게"@,
        "카페"@,
        "호텔"@,
        "수업"@,
        "공부"@,
        "시험"@,
        "숙제"@,
        "대학"@,
        "전공"@,
        "연구"@,
        "조사"@,
        "분석"@,
        "업무"@,
        "회의"@,
        "보고"@,
        "계획"@,
        "결정"@,
        "결과"@,
        "과정"@,
        "자료"@,
        "정보"@,
        "내용"@,
        "의미"@,
        "생활"@,
        "여행"@,
        "운동"@,
        "영화"@,
        "음악"@,
        "음식"@,
        "식사"@,
        "쇼핑"@,
        "취미"@,
        "독서"@,
        "문제"@,
        "방법"@,
        "방식"@,
        "상황"@,
        "경우"@,
        "부분"@,
        "전체"@,
        "관계"@,
        "이유"@,
        "원인"@,
        "차이"@,
        "변화"@,
        "발전"@,
        "성장"@,
        "성공"@,
        "실패"@,
        "노력"@,
        "기회"@,
        "해결"@,
        "질문"@,
        "대답"@,
        "가치"@,
        "목적"@,
        "필요"@,
        "중요"@,
        "자연"@,
        "환경"@,
        "날씨"@,
        "여름"@,
        "가을"@,
        "겨울"@,
        "계절"@,
        "하늘"@,
        "바다"@,
        "사랑"@,
        "행복"@,
        "희망"@,
        "목표"@,
        "미래"@,
        "과거"@,
        "현재"@,
        "사회"@,
        "세계"@,
        "나라"@,
        "지역"@,
        "문화"@,
        "역사"@,
        "정치"@,
        "경제"@,
        "과학"@,
        "기술"@,
        "예술"@,
        "교육"@,
        "철학"@,
    ]
}

/// The bundled starter set, in order.
pub open spec fn starter_entries() -> Seq<AbbrView> {
    greeting_entries()
        + ending_entries_1()
        + ending_entries_2()
        + ending_entries_3()
        + alias_entries_1()
        + alias_entries_2()
        + alias_entries_3()
        + alias_entries_4()
        + conjunction_entries_1()
        + conjunction_entries_2()
        + template_entries()
        + word_entries(common_word_list())
}

/// Exec order of the groups.
fn push_all_groups(v: &mut Vec<Abbreviation>)
    requires
        all_ok(old(v)@),
    ensures
        all_ok(final(v)@),
        abbr_views(final(v)@) == abbr_views(old(v)@) + greeting_entries() + ending_entries_1() + ending_entries_2() + ending_entries_3() + alias_entries_1() + alias_entries_2() + alias_entries_3() + alias_entries_4() + conjunction_entries_1() + conjunction_entries_2() + template_entries(),
{
    let ghost start = abbr_views(v@);
    push_greeting(v);
    push_ending_1(v);
    push_ending_2(v);
    push_ending_3(v);
    push_alias_1(v);
    push_alias_2(v);
    push_alias_3(v);
    push_alias_4(v);
    push_conjunction_1(v);
    push_conjunction_2(v);
    push_template(v);
    assert(abbr_views(v@) =~= start + greeting_entries() + ending_entries_1() + ending_entries_2() + ending_entries_3() + alias_entries_1() + alias_entries_2() + alias_entries_3() + alias_entries_4() + conjunction_entries_1() + conjunction_entries_2() + template_entries());
}

fn push_words(v: &mut Vec<Abbreviation>)
    requires
        all_ok(old(v)@),
    ensures
        all_ok(final(v)@),
        abbr_views(final(v)@) == abbr_views(old(v)@) + word_entries(common_word_list()),
{
    let words: Vec<&str> = vec![
        "사람",
        "친구",
        "가족",
        "부모",
        "자녀",
        "형제",
        "자매",
        "어른",
        "아이",
        "학생",
        "선생",
        "선생님",
        "의사",
        "기자",
        "시간",
        "오늘",
        "어제",
        "내일",
        "지금",
        "아침",
        "점심",
        "저녁",
        "주말",
        "평일",
        "시작",
        "마지막",
        "처음",
        "나중",
        "요즘",
        "최근",
        "올해",
        "내년",
        "작년",
        "학교",
        "회사",
        "국가",
        "정부",
        "사무실",
        "공원",
        "도서관",
        "병원",
        "은행",
        "식당",
        "시장",
        "가게",
        "카페",
        "호텔",
        "수업",
        "공부",
        "시험",
        "숙제",
        "대학",
        "전공",
        "연구",
        "조사",
        "분석",
        "업무",
        "회의",
        "보고",
        "계획",
        "결정",
        "결과",
        "과정",
        "자료",
        "정보",
        "내용",
        "의미",
        "생활",
        "여행",
        "운동",
        "영화",
        "음악",
        "음식",
        "식사",
        "쇼핑",
        "취미",
        "독서",
        "문제",
        "방법",
        "방식",
        "상황",
        "경우",
        "부분",
        "전체",
        "관계",
        "이유",
        "원인",
        "차이",
        "변화",
        "발전",
        "성장",
        "성공",
        "실패",
        "노력",
        "기회",
        "해결",
        "질문",
        "대답",
        "가치",
        "목적",
        "필요",
        "중요",
        "자연",
        "환경",
        "날씨",
        "여름",
        "가을",
        "겨울",
        "계절",
        "하늘",
        "바다",
        "사랑",
        "행복",
        "희망",
        "목표",
        "미래",
        "과거",
        "현재",
        "사회",
        "세계",
        "나라",
        "지역",
        "문화",
        "역사",
        "정치",
        "경제",
        "과학",
        "기술",
        "예술",
        "교육",
        "철학",
    ];
    let ghost ws = words@.map_values(|w: &str| w@);
    assert(ws =~= common_word_list());
    let ghost start = abbr_views(v@);
    let mut i: usize = 0;
    assert(ws.take(0) =~= Seq::<Seq<char>>::empty());
    assert(start + Seq::<AbbrView>::empty() =~= start);
    while i < words.len()
        invariant
            i <= words@.len(),
            ws == words@.map_values(|w: &str| w@),
            all_ok(v@),
            abbr_views(v@) == start + word_entries(ws.take(i as int)),
        decreases words@.len() - i,
    {
        word_entry(v, words[i]);
        proof {
            assert(ws.take(i + 1).drop_last() =~= ws.take(i as int));
            assert(ws.take(i + 1).last() == words@[i as int]@);
            assert(start + word_entries(ws.take(i + 1)) =~= start + word_entries(ws.take(i as int))
                + frequent_word(words@[i as int]@));
        }
        i = i + 1;
    }
    assert(ws.take(words@.len() as int) =~= ws);
}

/// The bundled starter set: greetings, endings and their initial-consonant
/// aliases, conjunctions, templates and frequent words (see
/// [`starter_entries`]). Every Cho-run trigger in it uses conjoining
/// initial consonants only, and no ending in it fires on Space.
pub fn starter_dict() -> (r: Vec<Abbreviation>)
    ensures
        all_ok(r@),
        abbr_views(r@) == starter_entries(),
{
    let mut v: Vec<Abbreviation> = Vec::new();
    assert(abbr_views(v@) =~= Seq::<AbbrView>::empty());
    push_all_groups(&mut v);
    push_words(&mut v);
    v
}

} // verus!
