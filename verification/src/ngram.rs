//! Learn-from-documents autocomplete: tokenize text into 어절s
//! (whitespace-separated tokens), count 1-, 2- and 3-gram phrases, and
//! turn the frequent ones into abbreviations, serialized as a TOML
//! dictionary the loader re-reads.
//!
//! Registration scheme:
//!   - 1-gram `W`          → trigger `W`,       body `W`
//!   - 2-gram `A B`        → trigger `A`,       body `A B`
//!   - 3-gram `A B C`      → trigger `A B`,     body `A B C`
//!
//! The trigger event is always explicit (Tab) to prevent false-positive
//! expansions; the priority is the observed frequency clamped to
//! `[1, 200]`.
use vstd::prelude::*;
use crate::abbr::model::{AbbrView, Abbreviation, Trigger, TriggerEvent, TriggerView};
use crate::text::{
    chars_of, cp_char, decimal, hex_padded, is_char_value, push_cp, push_decimal,
    push_hex_padded, push_str, string_from_chars, string_of, string_push,
};

verus! {

/// Minimum occurrences for an n-gram to be kept.
pub const MIN_FREQ: u32 = 2;
/// Cap on the number of learned entries (the most frequent are kept).
pub const MAX_ENTRIES: usize = 5000;
/// Priority cap, so learned entries do not outrank curated ones.
pub const MAX_PRIORITY: u32 = 200;

/// File name of the learned dictionary inside the app config dir.
pub const DICT_FILE_NAME: &'static str = "learned_ngrams.toml";

/// Path of the generated dict inside the app config dir: `config_dir`
/// joined with [`DICT_FILE_NAME`] by the platform's path rules.
pub fn dict_path(config_dir: &str) -> (r: String)
    ensures
        exists|sep: char| r@ == crate::settings::joined_path(sep, config_dir@, DICT_FILE_NAME@),
{
    let (path, _sep) = crate::settings::join_file_name(config_dir, DICT_FILE_NAME);
    path
}

// ───────────────────────────── Tokens ─────────────────────────────────

/// ASCII punctuation: `!`..`/`, `:`..`@`, `[`..`` ` ``, `{`..`~`.
pub open spec fn is_ascii_punct(c: char) -> bool {
    let u = c as u32;
    (33 <= u && u <= 47) || (58 <= u && u <= 64) || (91 <= u && u <= 96) || (123 <= u && u <= 126)
}

/// Characters stripped from both ends of a token: ASCII punctuation and
/// CJK punctuation and quotes.
pub open spec fn is_junk(c: char) -> bool {
    ||| is_ascii_punct(c)
    ||| c == '。' || c == '、' || c == '，' || c == '．' || c == '！' || c == '？'
    ||| c == '：' || c == '；' || c == '·' || c == '…' || c == '‥'
    ||| c == '\u{201C}' || c == '\u{201D}' || c == '\u{2018}' || c == '\u{2019}'
    ||| c == '「' || c == '」' || c == '『' || c == '』'
    ||| c == '（' || c == '）' || c == '〔' || c == '〕' || c == '［' || c == '］'
    ||| c == '｛' || c == '｝'
}

/// `s` without its leading junk characters.
pub open spec fn strip_front(s: Seq<char>) -> Seq<char>
    decreases s.len(),
{
    if s.len() > 0 && is_junk(s[0]) {
        strip_front(s.drop_first())
    } else {
        s
    }
}

/// `s` without its trailing junk characters.
pub open spec fn strip_back(s: Seq<char>) -> Seq<char>
    decreases s.len(),
{
    if s.len() > 0 && is_junk(s.last()) {
        strip_back(s.drop_last())
    } else {
        s
    }
}

/// A token with junk stripped from both ends.
pub open spec fn clean(s: Seq<char>) -> Seq<char> {
    strip_back(strip_front(s))
}

fn is_junk_exec(c: char) -> (r: bool)
    ensures
        r == is_junk(c),
{
    let u = c as u32;
    (33 <= u && u <= 47) || (58 <= u && u <= 64) || (91 <= u && u <= 96) || (123 <= u && u <= 126)
        || c == '。' || c == '、' || c == '，' || c == '．' || c == '！' || c == '？' || c == '：'
        || c == '；' || c == '·' || c == '…' || c == '‥' || c == '\u{201C}' || c == '\u{201D}'
        || c == '\u{2018}' || c == '\u{2019}' || c == '「' || c == '」' || c == '『' || c == '』'
        || c == '（' || c == '）' || c == '〔' || c == '〕' || c == '［' || c == '］' || c == '｛'
        || c == '｝'
}

/// The ASCII punctuation characters, one by one, as `char::is_ascii_punctuation`
/// documents them.
pub open spec fn ascii_punctuation() -> Seq<char> {
    seq!['!', '"', '#', '$', '%', '&', '\'', '(', ')', '*', '+', ',', '-', '.', '/', ':', ';', '<', '=', '>', '?', '@', '[', '\\', ']', '^', '_', '`', '{', '|', '}', '~']
}

proof fn lemma_strip_front_push(s: Seq<char>, c: char)
    ensures
        strip_front(s.push(c)) == (if strip_front(s).len() == 0 {
            strip_front(seq![c])
        } else {
            strip_front(s).push(c)
        }),
    decreases s.len(),
{
    if s.len() == 0 {
        assert(s.push(c) == seq![c]);
    } else {
        assert(s.push(c)[0] == s[0]);
        if is_junk(s[0]) {
            assert(s.push(c).drop_first() == s.drop_first().push(c));
            lemma_strip_front_push(s.drop_first(), c);
        }
    }
}

/// The CJK punctuation and quote marks that are stripped from tokens.
pub open spec fn cjk_punctuation() -> Seq<char> {
    seq!['。', '、', '，', '．', '！', '？', '：', '；', '·', '…', '‥', '\u{201C}', '\u{201D}', '\u{2018}', '\u{2019}', '「', '」', '『', '』', '（', '）', '〔', '〕', '［', '］', '｛', '｝']
}

/// A junk character before or after a token never changes what the token
/// cleans to.
pub proof fn lemma_junk_at_ends_is_stripped(s: Seq<char>, p: char)
    requires
        is_junk(p),
    ensures
        clean(s.push(p)) == clean(s),
        clean(seq![p] + s) == clean(s),
{
    lemma_strip_front_push(s, p);
    if strip_front(s).len() == 0 {
        assert(seq![p].drop_first() == Seq::<char>::empty());
        assert(strip_front(Seq::<char>::empty()) == Seq::<char>::empty());
    } else {
        assert(strip_front(s).push(p).drop_last() == strip_front(s));
    }
    assert((seq![p] + s)[0] == p);
    assert((seq![p] + s).drop_first() == s);
}

/// Every ASCII punctuation character is junk, and a token cleans the same
/// with one more of them before or after it: "뭐해?" is learned as "뭐해".
/// ASCII letters and digits are never junk.
pub proof fn lemma_ascii_punctuation_is_stripped(s: Seq<char>, k: int)
    requires
        0 <= k < ascii_punctuation().len(),
    ensures
        is_junk(ascii_punctuation()[k]),
        clean(s.push(ascii_punctuation()[k])) == clean(s),
        clean(seq![ascii_punctuation()[k]] + s) == clean(s),
        forall|c: char| ('a' <= c <= 'z' || 'A' <= c <= 'Z' || '0' <= c <= '9') ==> !is_junk(c),
{
    if k == 0 {} else if k == 1 {} else if k == 2 {} else if k == 3 {} else if k == 4 {} else if k == 5 {} else if k == 6 {} else if k == 7 {} else if k == 8 {} else if k == 9 {} else if k == 10 {} else if k == 11 {} else if k == 12 {} else if k == 13 {} else if k == 14 {} else if k == 15 {} else if k == 16 {} else if k == 17 {} else if k == 18 {} else if k == 19 {} else if k == 20 {} else if k == 21 {} else if k == 22 {} else if k == 23 {} else if k == 24 {} else if k == 25 {} else if k == 26 {} else if k == 27 {} else if k == 28 {} else if k == 29 {} else if k == 30 {} else if k == 31 {}
    lemma_junk_at_ends_is_stripped(s, ascii_punctuation()[k]);
}

/// Every listed CJK punctuation or quote mark is junk, and a token cleans
/// the same with one more of them before or after it: "안녕하세요。" is
/// learned as "안녕하세요". Hangul syllables are never junk.
pub proof fn lemma_cjk_punctuation_is_stripped(s: Seq<char>, k: int)
    requires
        0 <= k < cjk_punctuation().len(),
    ensures
        is_junk(cjk_punctuation()[k]),
        clean(s.push(cjk_punctuation()[k])) == clean(s),
        clean(seq![cjk_punctuation()[k]] + s) == clean(s),
        forall|c: char| ('\u{AC00}' <= c <= '\u{D7A3}') ==> !is_junk(c),
{
    if k == 0 {} else if k == 1 {} else if k == 2 {} else if k == 3 {} else if k == 4 {} else if k == 5 {} else if k == 6 {} else if k == 7 {} else if k == 8 {} else if k == 9 {} else if k == 10 {} else if k == 11 {} else if k == 12 {} else if k == 13 {} else if k == 14 {} else if k == 15 {} else if k == 16 {} else if k == 17 {} else if k == 18 {} else if k == 19 {} else if k == 20 {} else if k == 21 {} else if k == 22 {} else if k == 23 {} else if k == 24 {} else if k == 25 {} else if k == 26 {}
    lemma_junk_at_ends_is_stripped(s, cjk_punctuation()[k]);
}

proof fn lemma_strip_front_skip(s: Seq<char>, i: int)
    requires
        0 <= i <= s.len(),
        forall|j: int| 0 <= j < i ==> is_junk(#[trigger] s[j]),
    ensures
        strip_front(s) == strip_front(s.skip(i)),
    decreases i,
{
    if i > 0 {
        assert(s.drop_first().skip(i - 1) == s.skip(i));
        assert forall|j: int| 0 <= j < i - 1 implies is_junk(#[trigger] s.drop_first()[j]) by {
            assert(s.drop_first()[j] == s[j + 1]);
        }
        lemma_strip_front_skip(s.drop_first(), i - 1);
    } else {
        assert(s.skip(0) == s);
    }
}

proof fn lemma_strip_back_take(s: Seq<char>, i: int)
    requires
        0 <= i <= s.len(),
        forall|j: int| i <= j < s.len() ==> is_junk(#[trigger] s[j]),
    ensures
        strip_back(s) == strip_back(s.take(i)),
    decreases s.len() - i,
{
    if i < s.len() {
        assert(s.drop_last().take(i) == s.take(i));
        assert forall|j: int| i <= j < s.len() - 1 implies is_junk(#[trigger] s.drop_last()[j]) by {
            assert(s.drop_last()[j] == s[j]);
        }
        lemma_strip_back_take(s.drop_last(), i);
    } else {
        assert(s.take(i) == s);
    }
}

/// Strip leading and trailing punctuation and quote-like characters, so
/// "안녕하세요." is indexed as "안녕하세요".
pub fn clean_token(tok: &str) -> (r: String)
    ensures
        r@ == clean(tok@),
{
    let chars = chars_of(tok);
    let mut start: usize = 0;
    while start < chars.len() && is_junk_exec(chars[start])
        invariant
            start <= chars@.len(),
            forall|j: int| 0 <= j < start ==> is_junk(#[trigger] chars@[j]),
        decreases chars@.len() - start,
    {
        start = start + 1;
    }
    proof {
        lemma_strip_front_skip(chars@, start as int);
    }
    let ghost front = chars@.skip(start as int);
    assert(strip_front(front) == front) by {
        if front.len() > 0 {
            assert(front[0] == chars@[start as int]);
        }
    }
    let mut end: usize = chars.len();
    while end > start && is_junk_exec(chars[end - 1])
        invariant
            start <= end <= chars@.len(),
            forall|j: int| end <= j < chars@.len() ==> is_junk(#[trigger] chars@[j]),
        decreases end - start,
    {
        end = end - 1;
    }
    let ghost kept = chars@.subrange(start as int, end as int);
    proof {
        assert forall|j: int| (end - start) <= j < front.len() implies is_junk(#[trigger] front[j]) by {
            assert(front[j] == chars@[start + j]);
        }
        lemma_strip_back_take(front, end - start);
        assert(front.take(end - start) == kept);
        if kept.len() > 0 {
            assert(kept.last() == chars@[end - 1]);
        }
    }
    string_from_chars(&chars.as_slice()[start..end])
}

/// Whether a character has Unicode's Alphabetic property.
pub uninterp spec fn alphabetic(c: char) -> bool;

/// `char::is_alphabetic` from the standard library: whether `c` has the
/// Unicode Alphabetic property; its result is named [`alphabetic`].
#[verifier::external_body]
fn char_is_alphabetic(c: char) -> (r: bool)
    ensures
        r == alphabetic(c),
{
    c.is_alphabetic()
}

/// A token worth indexing: non-empty, with at least one alphabetic
/// character (letters, Hangul, CJK).
pub open spec fn useful(s: Seq<char>) -> bool {
    s.len() > 0 && exists|i: int| 0 <= i < s.len() && #[trigger] alphabetic(s[i])
}

/// Whether a cleaned token is worth indexing: non-empty with at least
/// one alphabetic character.
pub fn is_useful(tok: &str) -> (r: bool)
    ensures
        r == useful(tok@),
{
    let chars = chars_of(tok);
    if chars.len() == 0 {
        return false;
    }
    let mut i: usize = 0;
    while i < chars.len()
        invariant
            i <= chars@.len(),
            chars@ == tok@,
            forall|j: int| 0 <= j < i ==> !alphabetic(#[trigger] chars@[j]),
        decreases chars@.len() - i,
    {
        if char_is_alphabetic(chars[i]) {
            return true;
        }
        i = i + 1;
    }
    false
}

/// Unicode's White_Space characters: U+0009..U+000D, space, U+0085,
/// U+00A0, U+1680, U+2000..U+200A, U+2028, U+2029, U+202F, U+205F and
/// U+3000 (what `split_whitespace` splits on).
pub open spec fn is_white_space(c: char) -> bool {
    let u = c as u32;
    ||| (9 <= u && u <= 13)
    ||| u == 32 || u == 0x85 || u == 0xA0 || u == 0x1680
    ||| (0x2000 <= u && u <= 0x200A)
    ||| u == 0x2028 || u == 0x2029 || u == 0x202F || u == 0x205F || u == 0x3000
}

fn is_white_space_exec(c: char) -> (r: bool)
    ensures
        r == is_white_space(c),
{
    let u = c as u32;
    (9 <= u && u <= 13) || u == 32 || u == 0x85 || u == 0xA0 || u == 0x1680 || (0x2000 <= u && u
        <= 0x200A) || u == 0x2028 || u == 0x2029 || u == 0x202F || u == 0x205F || u == 0x3000
}

/// Splitting state after reading `s`: the finished words and the word
/// being read.
pub open spec fn split_state(s: Seq<char>) -> (Seq<Seq<char>>, Seq<char>)
    decreases s.len(),
{
    if s.len() == 0 {
        (Seq::empty(), Seq::empty())
    } else {
        let (done, cur) = split_state(s.drop_last());
        let c = s.last();
        if is_white_space(c) {
            if cur.len() > 0 {
                (done.push(cur), Seq::empty())
            } else {
                (done, Seq::empty())
            }
        } else {
            (done, cur.push(c))
        }
    }
}

/// The maximal runs of non-whitespace characters of `s`, in order.
pub open spec fn words(s: Seq<char>) -> Seq<Seq<char>> {
    let (done, cur) = split_state(s);
    if cur.len() > 0 {
        done.push(cur)
    } else {
        done
    }
}

/// The indexed tokens of a list of words: cleaned, keeping the useful
/// ones.
pub open spec fn useful_tokens(ws: Seq<Seq<char>>) -> Seq<Seq<char>>
    decreases ws.len(),
{
    if ws.len() == 0 {
        Seq::empty()
    } else {
        let prev = useful_tokens(ws.drop_last());
        let t = clean(ws.last());
        if useful(t) {
            prev.push(t)
        } else {
            prev
        }
    }
}

/// The tokens of a text: its words, cleaned, keeping the useful ones.
pub open spec fn tokens(text: Seq<char>) -> Seq<Seq<char>> {
    useful_tokens(words(text))
}

/// Split `text` into words (see [`words`]).
fn split_words(text: &str) -> (r: Vec<String>)
    ensures
        r@.map_values(|w: String| w@) == words(text@),
{
    let chars = chars_of(text);
    let mut out: Vec<String> = Vec::new();
    let mut cur: Vec<char> = Vec::new();
    let mut i: usize = 0;
    while i < chars.len()
        invariant
            i <= chars@.len(),
            chars@ == text@,
            split_state(chars@.take(i as int)) == (out@.map_values(|w: String| w@), cur@),
        decreases chars@.len() - i,
    {
        let c = chars[i];
        proof {
            let pre = chars@.take(i + 1);
            assert(pre.drop_last() == chars@.take(i as int));
            assert(pre.last() == c);
        }
        if is_white_space_exec(c) {
            if cur.len() > 0 {
                let w = string_from_chars(cur.as_slice());
                let ghost before = out@;
                out.push(w);
                assert(out@.map_values(|w: String| w@) =~= before.map_values(|w: String| w@).push(cur@));
                cur = Vec::new();
            } else {
                cur = Vec::new();
            }
        } else {
            cur.push(c);
        }
        i = i + 1;
    }
    proof {
        assert(chars@.take(chars@.len() as int) == chars@);
    }
    if cur.len() > 0 {
        let w = string_from_chars(cur.as_slice());
        let ghost before = out@;
        out.push(w);
        assert(out@.map_values(|w: String| w@) =~= before.map_values(|w: String| w@).push(cur@));
    }
    out
}

/// The indexed tokens of `text` (see [`tokens`]).
pub fn tokenize(text: &str) -> (r: Vec<String>)
    ensures
        r@.map_values(|t: String| t@) == tokens(text@),
{
    let ws = split_words(text);
    let ghost wv = ws@.map_values(|w: String| w@);
    let mut out: Vec<String> = Vec::new();
    let mut i: usize = 0;
    while i < ws.len()
        invariant
            i <= ws@.len(),
            wv == ws@.map_values(|w: String| w@),
            out@.map_values(|t: String| t@) == useful_tokens(wv.take(i as int)),
        decreases ws@.len() - i,
    {
        proof {
            let pre = wv.take(i + 1);
            assert(pre.drop_last() == wv.take(i as int));
            assert(pre.last() == ws@[i as int]@);
        }
        let t = clean_token(ws[i].as_str());
        if is_useful(t.as_str()) {
            let ghost before = out@;
            out.push(t);
            assert(out@.map_values(|t: String| t@) =~= before.map_values(|t: String| t@).push(clean(ws@[i as int]@)));
        }
        i = i + 1;
    }
    proof {
        assert(wv.take(wv.len() as int) == wv);
    }
    out
}

} // verus!

verus! {

// ───────────────────────────── Counting ───────────────────────────────

/// A learned phrase: trigger and body.
pub type Gram = (Seq<char>, Seq<char>);

/// `a`, a space, then `b`.
pub open spec fn spaced(a: Seq<char>, b: Seq<char>) -> Seq<char> {
    a + seq![' '] + b
}

/// The 1-grams of a token list: each token of at least two characters,
/// as its own trigger and body.
pub open spec fn one_grams(toks: Seq<Seq<char>>) -> Seq<Gram>
    decreases toks.len(),
{
    if toks.len() == 0 {
        Seq::empty()
    } else {
        let prev = one_grams(toks.drop_last());
        if toks.last().len() >= 2 {
            prev.push((toks.last(), toks.last()))
        } else {
            prev
        }
    }
}

/// The 2-grams: each adjacent pair `A B`, with trigger `A`.
pub open spec fn two_grams(toks: Seq<Seq<char>>) -> Seq<Gram> {
    if toks.len() < 2 {
        Seq::empty()
    } else {
        Seq::new((toks.len() - 1) as nat, |i: int| (toks[i], spaced(toks[i], toks[i + 1])))
    }
}

/// The 3-grams: each adjacent triple `A B C`, with trigger `A B`.
pub open spec fn three_grams(toks: Seq<Seq<char>>) -> Seq<Gram> {
    if toks.len() < 3 {
        Seq::empty()
    } else {
        Seq::new(
            (toks.len() - 2) as nat,
            |i: int| (spaced(toks[i], toks[i + 1]), spaced(spaced(toks[i], toks[i + 1]), toks[i + 2])),
        )
    }
}

/// All grams of a token list, 1-grams first, then 2-grams, then 3-grams.
pub open spec fn grams_of(toks: Seq<Seq<char>>) -> Seq<Gram> {
    one_grams(toks) + two_grams(toks) + three_grams(toks)
}

/// The first position of gram `g` in a frequency table.
pub open spec fn find_gram(t: Seq<(Gram, u32)>, g: Gram) -> Option<nat>
    decreases t.len(),
{
    if t.len() == 0 {
        None
    } else {
        match find_gram(t.drop_last(), g) {
            Some(i) => Some(i),
            None => if t.last().0 == g {
                Some((t.len() - 1) as nat)
            } else {
                None
            },
        }
    }
}

/// One more occurrence of `n` (saturating).
pub open spec fn inc(n: u32) -> u32 {
    if n < u32::MAX { (n + 1) as u32 } else { n }
}

/// A table after one more occurrence of `g`: its count goes up, or it is
/// appended with count 1.
pub open spec fn bump(t: Seq<(Gram, u32)>, g: Gram) -> Seq<(Gram, u32)> {
    match find_gram(t, g) {
        Some(i) => t.update(i as int, (g, inc(t[i as int].1))),
        None => t.push((g, 1u32)),
    }
}

/// A table after counting every gram of `gs`, in order.
pub open spec fn tally_into(t: Seq<(Gram, u32)>, gs: Seq<Gram>) -> Seq<(Gram, u32)>
    decreases gs.len(),
{
    if gs.len() == 0 {
        t
    } else {
        bump(tally_into(t, gs.drop_last()), gs.last())
    }
}

proof fn lemma_tally_push(t: Seq<(Gram, u32)>, gs: Seq<Gram>, g: Gram)
    ensures
        tally_into(t, gs.push(g)) == bump(tally_into(t, gs), g),
{
    assert(gs.push(g).drop_last() == gs);
}

/// One counted phrase.
#[derive(Debug)]
pub struct GramCount {
    /// The phrase's trigger.
    pub trigger: String,
    /// The phrase's body.
    pub body: String,
    /// Occurrences seen.
    pub count: u32,
}

/// The view of a list of counted phrases.
pub open spec fn table_view(t: Seq<GramCount>) -> Seq<(Gram, u32)> {
    t.map_values(|e: GramCount| ((e.trigger@, e.body@), e.count))
}

/// The phrase counts gathered from a set of documents.
pub struct NgramCounter {
    table: Vec<GramCount>,
    files: usize,
    tokens: usize,
}

/// The state of an [`NgramCounter`].
pub struct CounterView {
    /// Phrase counts, in order of first occurrence.
    pub table: Seq<(Gram, u32)>,
    /// Documents read.
    pub files: usize,
    /// Tokens read.
    pub tokens: usize,
}

impl View for NgramCounter {
    type V = CounterView;

    closed spec fn view(&self) -> CounterView {
        CounterView { table: table_view(self.table@), files: self.files, tokens: self.tokens }
    }
}

/// `a + b`, saturating.
pub open spec fn sat_add(a: usize, b: usize) -> usize {
    if a + b <= usize::MAX { (a + b) as usize } else { usize::MAX }
}

fn bump_exec(table: &mut Vec<GramCount>, trigger: String, body: String)
    ensures
        table_view(final(table)@) == bump(table_view(old(table)@), (trigger@, body@)),
{
    let ghost t = table_view(table@);
    let ghost g = (trigger@, body@);
    let mut i: usize = 0;
    while i < table.len()
        invariant
            i <= table@.len(),
            t == table_view(table@),
            g == (trigger@, body@),
            table@ == old(table)@,
            find_gram(t.take(i as int), g) is None,
        decreases table@.len() - i,
    {
        proof {
            let pre = t.take(i + 1);
            assert(pre.drop_last() == t.take(i as int));
            assert(pre.last() == t[i as int]);
        }
        let same_trigger = crate::text::str_eq(table[i].trigger.as_str(), trigger.as_str());
        let same_body = crate::text::str_eq(table[i].body.as_str(), body.as_str());
        proof {
            assert(t[i as int] == ((table@[i as int].trigger@, table@[i as int].body@), table@[i as int].count));
            assert(same_trigger == (table@[i as int].trigger@ == trigger@));
            assert(same_body == (table@[i as int].body@ == body@));
        }
        if same_trigger && same_body {
            proof {
                assert(t[i as int] == ((table@[i as int].trigger@, table@[i as int].body@), table@[i as int].count));
                assert(t[i as int].0 == g);
                lemma_find_gram_prefix(t, g, i + 1);
            }
            let c = table[i].count;
            let n = if c < u32::MAX { c + 1 } else { c };
            table.set(i, GramCount { trigger, body, count: n });
            assert(table_view(table@) =~= t.update(i as int, (g, inc(t[i as int].1))));
            return ;
        }
        i = i + 1;
    }
    proof {
        assert(t.take(t.len() as int) == t);
    }
    table.push(GramCount { trigger, body, count: 1 });
    assert(table_view(table@) =~= t.push((g, 1u32)));
}

proof fn lemma_find_gram_prefix(t: Seq<(Gram, u32)>, g: Gram, n: int)
    requires
        0 <= n <= t.len(),
        find_gram(t.take(n), g) is Some,
    ensures
        find_gram(t, g) == find_gram(t.take(n), g),
    decreases t.len(),
{
    if n == t.len() {
        assert(t.take(n) == t);
    } else {
        assert(t.drop_last().take(n) == t.take(n));
        lemma_find_gram_prefix(t.drop_last(), g, n);
    }
}

/// `a`, a space, then `b`, as a string.
fn spaced_exec(a: &str, b: &str) -> (r: String)
    ensures
        r@ == spaced(a@, b@),
{
    let mut s = string_of(a);
    string_push(&mut s, ' ');
    push_str(&mut s, b);
    s
}

impl NgramCounter {
    /// A counter that has seen nothing.
    pub fn new() -> (r: Self)
        ensures
            r@ == (CounterView { table: Seq::empty(), files: 0, tokens: 0 }),
    {
        let r = NgramCounter { table: Vec::new(), files: 0, tokens: 0 };
        assert(table_view(r.table@) =~= Seq::<(Gram, u32)>::empty());
        r
    }

    /// Count the phrases of one document: its tokens' 1-, 2- and 3-grams
    /// are tallied, and the document and its tokens are counted.
    pub fn add_text(&mut self, text: &str)
        ensures
            final(self)@ == (CounterView {
                table: tally_into(old(self)@.table, grams_of(tokens(text@))),
                files: sat_add(old(self)@.files, 1),
                tokens: sat_add(old(self)@.tokens, tokens(text@).len() as usize),
            }),
    {
        let toks = tokenize(text);
        let ghost tv = toks@.map_values(|t: String| t@);
        let ghost t0 = table_view(self.table@);
        self.files = self.files.saturating_add(1);
        self.tokens = self.tokens.saturating_add(toks.len());
        let mut i: usize = 0;
        proof {
            assert(tv.take(0) =~= Seq::<Seq<char>>::empty());
        }
        while i < toks.len()
            invariant
                i <= toks@.len(),
                tv == toks@.map_values(|t: String| t@),
                table_view(self.table@) == tally_into(t0, one_grams(tv.take(i as int))),
                self.files == sat_add(old(self)@.files, 1),
                self.tokens == sat_add(old(self)@.tokens, tv.len() as usize),
            decreases toks@.len() - i,
        {
            proof {
                let pre = tv.take(i + 1);
                assert(pre.drop_last() == tv.take(i as int));
                assert(pre.last() == toks@[i as int]@);
            }
            let t = &toks[i];
            if chars_of(t.as_str()).len() >= 2 {
                proof {
                    lemma_tally_push(t0, one_grams(tv.take(i as int)), (t@, t@));
                }
                bump_exec(&mut self.table, string_of(t.as_str()), string_of(t.as_str()));
            }
            i = i + 1;
        }
        proof {
            assert(tv.take(tv.len() as int) == tv);
        }
        let ghost ones = one_grams(tv);
        let mut k: usize = 0;
        proof {
            assert(ones + two_grams(tv).take(0) == ones);
        }
        while toks.len() > 0 && k < toks.len() - 1
            invariant
                tv == toks@.map_values(|t: String| t@),
                toks@.len() >= 1 ==> k + 1 <= toks@.len(),
                toks@.len() == 0 ==> k == 0,
                ones == one_grams(tv),
                table_view(self.table@) == tally_into(t0, ones + two_grams(tv).take(k as int)),
                self.files == sat_add(old(self)@.files, 1),
                self.tokens == sat_add(old(self)@.tokens, tv.len() as usize),
            decreases toks@.len() - k,
        {
            let body = spaced_exec(toks[k].as_str(), toks[k + 1].as_str());
            proof {
                let g = two_grams(tv)[k as int];
                assert(g == (toks@[k as int]@, body@));
                assert((ones + two_grams(tv).take(k as int)).push(g) == ones + two_grams(tv).take(k + 1));
                lemma_tally_push(t0, ones + two_grams(tv).take(k as int), g);
            }
            bump_exec(&mut self.table, string_of(toks[k].as_str()), body);
            k = k + 1;
        }
        proof {
            assert(two_grams(tv).take(two_grams(tv).len() as int) == two_grams(tv));
        }
        let ghost onetwo = ones + two_grams(tv);
        let mut m: usize = 0;
        proof {
            assert(onetwo + three_grams(tv).take(0) == onetwo);
        }
        while toks.len() > 1 && m < toks.len() - 2
            invariant
                tv == toks@.map_values(|t: String| t@),
                toks@.len() >= 2 ==> m + 2 <= toks@.len(),
                toks@.len() < 2 ==> m == 0,
                onetwo == one_grams(tv) + two_grams(tv),
                table_view(self.table@) == tally_into(t0, onetwo + three_grams(tv).take(m as int)),
                self.files == sat_add(old(self)@.files, 1),
                self.tokens == sat_add(old(self)@.tokens, tv.len() as usize),
            decreases toks@.len() - m,
        {
            let trigger = spaced_exec(toks[m].as_str(), toks[m + 1].as_str());
            let body = spaced_exec(trigger.as_str(), toks[m + 2].as_str());
            proof {
                let g = three_grams(tv)[m as int];
                assert(g == (trigger@, body@));
                assert((onetwo + three_grams(tv).take(m as int)).push(g) == onetwo + three_grams(tv).take(m + 1));
                lemma_tally_push(t0, onetwo + three_grams(tv).take(m as int), g);
            }
            bump_exec(&mut self.table, trigger, body);
            m = m + 1;
        }
        proof {
            assert(three_grams(tv).take(three_grams(tv).len() as int) == three_grams(tv));
        }
    }
}

} // verus!

verus! {

// ───────────────────────────── Learning ───────────────────────────────

/// The entries seen at least [`MIN_FREQ`] times, in table order.
pub open spec fn keep_frequent(t: Seq<(Gram, u32)>) -> Seq<(Gram, u32)>
    decreases t.len(),
{
    if t.len() == 0 {
        t
    } else {
        let prev = keep_frequent(t.drop_last());
        if t.last().1 >= MIN_FREQ {
            prev.push(t.last())
        } else {
            prev
        }
    }
}

/// Where `x` goes in a list ranked by count: after every entry seen at
/// least as often.
pub open spec fn count_insert_pos(s: Seq<(Gram, u32)>, x: (Gram, u32)) -> nat
    decreases s.len(),
{
    if s.len() == 0 {
        0
    } else if x.1 > s.last().1 {
        count_insert_pos(s.drop_last(), x)
    } else {
        s.len()
    }
}

/// `s` ranked by count, most frequent first; equal counts keep their
/// order.
pub open spec fn sort_by_count(s: Seq<(Gram, u32)>) -> Seq<(Gram, u32)>
    decreases s.len(),
{
    if s.len() == 0 {
        s
    } else {
        let r = sort_by_count(s.drop_last());
        r.insert(count_insert_pos(r, s.last()) as int, s.last())
    }
}

/// A count as a priority: clamped to `[1, MAX_PRIORITY]`.
pub open spec fn clamp_priority(n: u32) -> u32 {
    if n < 1 {
        1
    } else if n > MAX_PRIORITY {
        MAX_PRIORITY
    } else {
        n
    }
}

/// The abbreviation learned from a counted phrase: id
/// `learned:{trigger}::{body}`, a literal trigger, fired explicitly.
pub open spec fn learned_view(e: (Gram, u32)) -> AbbrView {
    AbbrView {
        id: "learned:"@ + e.0.0 + "::"@ + e.0.1,
        trigger: TriggerView::Literal(e.0.0),
        body: e.0.1,
        trigger_on: TriggerEvent::Explicit,
        priority: clamp_priority(e.1),
    }
}

/// The frequent phrases, most frequent first, at most [`MAX_ENTRIES`].
pub open spec fn top_entries(t: Seq<(Gram, u32)>) -> Seq<(Gram, u32)> {
    let r = sort_by_count(keep_frequent(t));
    if r.len() > MAX_ENTRIES {
        r.take(MAX_ENTRIES as int)
    } else {
        r
    }
}

/// The abbreviations learned from a phrase table.
pub open spec fn learned(t: Seq<(Gram, u32)>) -> Seq<AbbrView> {
    top_entries(t).map_values(|e: (Gram, u32)| learned_view(e))
}

/// Result of a scan: the learned abbreviations plus a few statistics.
#[derive(Debug)]
pub struct ScanResult {
    /// Learned abbreviations, most frequent first.
    pub abbrs: Vec<Abbreviation>,
    /// Documents read.
    pub files_scanned: usize,
    /// Tokens read.
    pub tokens_read: usize,
}

/// The entries of `t` at the positions `idx`.
pub open spec fn at_positions(t: Seq<(Gram, u32)>, idx: Seq<usize>) -> Seq<(Gram, u32)> {
    idx.map_values(|k: usize| t[k as int])
}

fn learned_abbr(e: &GramCount) -> (r: Abbreviation)
    ensures
        r@ == learned_view(((e.trigger@, e.body@), e.count)),
{
    let mut id = string_of("learned:");
    push_str(&mut id, e.trigger.as_str());
    push_str(&mut id, "::");
    push_str(&mut id, e.body.as_str());
    let priority = if e.count < 1 {
        1
    } else if e.count > MAX_PRIORITY {
        MAX_PRIORITY
    } else {
        e.count
    };
    Abbreviation {
        id,
        trigger: Trigger::Literal(string_of(e.trigger.as_str())),
        body: string_of(e.body.as_str()),
        trigger_on: TriggerEvent::Explicit,
        priority,
    }
}

impl NgramCounter {
    /// The learned abbreviations (see [`learned`]) with the statistics.
    pub fn finish(&self) -> (r: ScanResult)
        ensures
            crate::abbr::loader::abbr_views(r.abbrs@) == learned(self@.table),
            r.files_scanned == self@.files,
            r.tokens_read == self@.tokens,
    {
        let ghost t = table_view(self.table@);
        let mut idx: Vec<usize> = Vec::new();
        let mut i: usize = 0;
        proof {
            assert(at_positions(t, idx@) =~= Seq::<(Gram, u32)>::empty());
            assert(t.take(0) =~= Seq::<(Gram, u32)>::empty());
        }
        while i < self.table.len()
            invariant
                i <= self.table@.len(),
                t == table_view(self.table@),
                forall|j: int| 0 <= j < idx@.len() ==> #[trigger] idx@[j] < i,
                at_positions(t, idx@) == sort_by_count(keep_frequent(t.take(i as int))),
            decreases self.table@.len() - i,
        {
            proof {
                let pre = t.take(i + 1);
                assert(pre.drop_last() == t.take(i as int));
                assert(pre.last() == t[i as int]);
            }
            if self.table[i].count >= MIN_FREQ {
                let ghost s = at_positions(t, idx@);
                let x_count = self.table[i].count;
                let mut j: usize = idx.len();
                proof {
                    assert(s.take(j as int) == s);
                }
                while j > 0 && x_count > self.table[idx[j - 1]].count
                    invariant
                        j <= idx@.len(),
                        t == table_view(self.table@),
                        i < self.table@.len(),
                        x_count == t[i as int].1,
                        forall|q: int| 0 <= q < idx@.len() ==> #[trigger] idx@[q] < i,
                        s == at_positions(t, idx@),
                        count_insert_pos(s, t[i as int]) == count_insert_pos(s.take(j as int), t[i as int]),
                    decreases j,
                {
                    proof {
                        let pre = s.take(j as int);
                        assert(pre.drop_last() == s.take(j - 1));
                        assert(pre.last() == t[idx@[j - 1] as int]);
                    }
                    j = j - 1;
                }
                proof {
                    if j > 0 {
                        assert(s.take(j as int).last() == t[idx@[j - 1] as int]);
                    }
                }
                idx.insert(j, i);
                proof {
                    assert(at_positions(t, idx@) =~= s.insert(j as int, t[i as int]));
                    let f = keep_frequent(t.take(i as int));
                    assert(f.push(t[i as int]).drop_last() == f);
                }
            }
            i = i + 1;
        }
        proof {
            assert(t.take(t.len() as int) == t);
        }
        if idx.len() > MAX_ENTRIES {
            idx.truncate(MAX_ENTRIES);
        }
        let ghost top = at_positions(t, idx@);
        assert(top == top_entries(t));
        let mut abbrs: Vec<Abbreviation> = Vec::new();
        let mut k: usize = 0;
        while k < idx.len()
            invariant
                k <= idx@.len(),
                t == table_view(self.table@),
                top == at_positions(t, idx@),
                forall|j: int| 0 <= j < idx@.len() ==> #[trigger] idx@[j] < self.table@.len(),
                abbrs@.len() == k,
                forall|j: int| 0 <= j < k ==> (#[trigger] abbrs@[j])@ == learned_view(top[j]),
            decreases idx@.len() - k,
        {
            let a = learned_abbr(&self.table[idx[k]]);
            abbrs.push(a);
            k = k + 1;
        }
        assert(crate::abbr::loader::abbr_views(abbrs@) =~= learned(t));
        ScanResult { abbrs, files_scanned: self.files, tokens_read: self.tokens }
    }
}

} // verus!

verus! {

// ───────────────────────────── TOML ───────────────────────────────────

/// The comment heading a generated dictionary.
pub const TOML_HEADER: &'static str = "# 자동-생성된 학습 n-gram 사전 — 손으로 고치지 마세요.\n# 파일 메뉴 → 자동완성 학습 폴더 선택… 을 다시 실행하면\n# 새 내용으로 덮어 씌워집니다.\n\n";

/// How one character is written inside a TOML basic string: `\`, `"`
/// and the control characters are escaped.
pub open spec fn toml_escape_char(c: char) -> Seq<char> {
    if c == '\\' {
        seq!['\\', '\\']
    } else if c == '"' {
        seq!['\\', '"']
    } else if c == '\n' {
        seq!['\\', 'n']
    } else if c == '\r' {
        seq!['\\', 'r']
    } else if c == '\t' {
        seq!['\\', 't']
    } else if (c as u32) < 0x20 {
        seq!['\\', 'u'] + hex_padded(c as u32 as nat, 4)
    } else {
        seq![c]
    }
}

/// The escaped characters of `s`.
pub open spec fn toml_escaped(s: Seq<char>) -> Seq<char>
    decreases s.len(),
{
    if s.len() == 0 {
        Seq::empty()
    } else {
        toml_escaped(s.drop_last()) + toml_escape_char(s.last())
    }
}

/// `s` as a TOML basic string: quoted, with escapes.
pub open spec fn toml_quoted(s: Seq<char>) -> Seq<char> {
    seq!['"'] + toml_escaped(s) + seq!['"']
}

/// TOML basic-string encoding: wrap in quotes, escape `\`, `"` and
/// control characters.
pub fn toml_string(s: &str) -> (r: String)
    ensures
        r@ == toml_quoted(s@),
{
    let chars = chars_of(s);
    let mut out = String::new();
    string_push(&mut out, '"');
    let mut i: usize = 0;
    while i < chars.len()
        invariant
            i <= chars@.len(),
            chars@ == s@,
            out@ == seq!['"'] + toml_escaped(chars@.take(i as int)),
        decreases chars@.len() - i,
    {
        let c = chars[i];
        proof {
            let pre = chars@.take(i + 1);
            assert(pre.drop_last() == chars@.take(i as int));
            assert(pre.last() == c);
        }
        let ghost before = out@;
        if c == '\\' {
            string_push(&mut out, '\\');
            string_push(&mut out, '\\');
        } else if c == '"' {
            string_push(&mut out, '\\');
            string_push(&mut out, '"');
        } else if c == '\n' {
            string_push(&mut out, '\\');
            string_push(&mut out, 'n');
        } else if c == '\r' {
            string_push(&mut out, '\\');
            string_push(&mut out, 'r');
        } else if c == '\t' {
            string_push(&mut out, '\\');
            string_push(&mut out, 't');
        } else if (c as u32) < 0x20 {
            string_push(&mut out, '\\');
            string_push(&mut out, 'u');
            push_hex_padded(&mut out, c as u32, 4);
        } else {
            string_push(&mut out, c);
        }
        assert(out@ =~= before + toml_escape_char(c));
        i = i + 1;
    }
    proof {
        assert(chars@.take(chars@.len() as int) == chars@);
    }
    string_push(&mut out, '"');
    out
}

/// The characters of a Cho run's code points (values that are not
/// characters are skipped).
pub open spec fn cps_text(cs: Seq<u32>) -> Seq<char>
    decreases cs.len(),
{
    if cs.len() == 0 {
        Seq::empty()
    } else if is_char_value(cs.last()) {
        cps_text(cs.drop_last()).push(cp_char(cs.last()))
    } else {
        cps_text(cs.drop_last())
    }
}

/// The text a trigger is written as.
pub open spec fn trigger_text(t: TriggerView) -> Seq<char> {
    match t {
        TriggerView::Literal(s) => s,
        TriggerView::Ending(s) => s,
        TriggerView::ChoSeq(cs) => cps_text(cs),
    }
}

/// One `[[abbr]]` entry.
pub open spec fn entry_text(a: AbbrView) -> Seq<char> {
    "[[abbr]]\n"@ + "id         = "@ + toml_quoted(a.id) + "\n"@ + "trigger    = "@ + toml_quoted(
        trigger_text(a.trigger),
    ) + "\n"@ + "kind       = \""@ + crate::session::kind_text(a.trigger) + "\"\n"@
        + "body       = "@ + toml_quoted(a.body) + "\n"@ + "trigger_on = \""@
        + crate::session::event_text(a.trigger_on) + "\"\n"@ + "priority   = "@ + decimal(
        a.priority as nat,
    ) + "\n\n"@
}

/// The entries of `abbrs`, one after the other.
pub open spec fn entries_text(abbrs: Seq<AbbrView>) -> Seq<char>
    decreases abbrs.len(),
{
    if abbrs.len() == 0 {
        Seq::empty()
    } else {
        entries_text(abbrs.drop_last()) + entry_text(abbrs.last())
    }
}

fn trigger_string(t: &Trigger) -> (r: String)
    ensures
        r@ == trigger_text(t@),
{
    match t {
        Trigger::Literal(s) | Trigger::Ending(s) => string_of(s.as_str()),
        Trigger::ChoSeq(cs) => {
            let mut out = String::new();
            let mut i: usize = 0;
            while i < cs.len()
                invariant
                    i <= cs@.len(),
                    out@ == cps_text(cs@.take(i as int)),
                decreases cs@.len() - i,
            {
                proof {
                    let pre = cs@.take(i + 1);
                    assert(pre.drop_last() == cs@.take(i as int));
                    assert(pre.last() == cs@[i as int]);
                }
                push_cp(&mut out, cs[i]);
                i = i + 1;
            }
            proof {
                assert(cs@.take(cs@.len() as int) == cs@);
            }
            out
        },
    }
}

fn entry_string(a: &Abbreviation) -> (r: String)
    ensures
        r@ == entry_text(a@),
{
    let mut out = string_of("[[abbr]]\n");
    push_str(&mut out, "id         = ");
    push_str(&mut out, toml_string(a.id.as_str()).as_str());
    push_str(&mut out, "\n");
    push_str(&mut out, "trigger    = ");
    push_str(&mut out, toml_string(trigger_string(&a.trigger).as_str()).as_str());
    push_str(&mut out, "\n");
    push_str(&mut out, "kind       = \"");
    push_str(&mut out, crate::session::kind_label(&a.trigger));
    push_str(&mut out, "\"\n");
    push_str(&mut out, "body       = ");
    push_str(&mut out, toml_string(a.body.as_str()).as_str());
    push_str(&mut out, "\n");
    push_str(&mut out, "trigger_on = \"");
    push_str(&mut out, crate::session::trigger_event_name(a.trigger_on));
    push_str(&mut out, "\"\n");
    push_str(&mut out, "priority   = ");
    push_decimal(&mut out, a.priority as u64);
    push_str(&mut out, "\n\n");
    out
}

/// Serialize `abbrs` as an abbreviation dictionary (`[[abbr]]` entries)
/// that the loader reads back.
pub fn to_toml(abbrs: &[Abbreviation]) -> (r: String)
    ensures
        r@ == TOML_HEADER@ + entries_text(crate::abbr::loader::abbr_views(abbrs@)),
{
    let ghost views = crate::abbr::loader::abbr_views(abbrs@);
    let mut out = string_of(TOML_HEADER);
    let mut i: usize = 0;
    while i < abbrs.len()
        invariant
            i <= abbrs@.len(),
            views == crate::abbr::loader::abbr_views(abbrs@),
            out@ == TOML_HEADER@ + entries_text(views.take(i as int)),
        decreases abbrs@.len() - i,
    {
        let a = &abbrs[i];
        proof {
            let pre = views.take(i + 1);
            assert(pre.drop_last() == views.take(i as int));
            assert(pre.last() == a@);
        }
        let e = entry_string(a);
        push_str(&mut out, e.as_str());
        i = i + 1;
    }
    proof {
        assert(views.take(views.len() as int) == views);
    }
    out
}

} // verus!

verus! {

/// Every phrase in table `t` has a non-empty trigger.
pub open spec fn triggers_nonempty(t: Seq<(Gram, u32)>) -> bool {
    forall|i: int| 0 <= i < t.len() ==> (#[trigger] t[i]).0.0.len() > 0
}

proof fn lemma_find_gram_found(t: Seq<(Gram, u32)>, g: Gram)
    ensures
        find_gram(t, g) matches Some(i) ==> i < t.len() && t[i as int].0 == g,
    decreases t.len(),
{
    if t.len() > 0 {
        lemma_find_gram_found(t.drop_last(), g);
    }
}

proof fn lemma_tally_keeps_triggers(t: Seq<(Gram, u32)>, gs: Seq<Gram>)
    requires
        triggers_nonempty(t),
        forall|i: int| 0 <= i < gs.len() ==> (#[trigger] gs[i]).0.len() > 0,
    ensures
        triggers_nonempty(tally_into(t, gs)),
    decreases gs.len(),
{
    if gs.len() > 0 {
        let pre = gs.drop_last();
        assert forall|i: int| 0 <= i < pre.len() implies (#[trigger] pre[i]).0.len() > 0 by {
            assert(pre[i] == gs[i]);
        }
        lemma_tally_keeps_triggers(t, pre);
        let u = tally_into(t, pre);
        let g = gs.last();
        lemma_find_gram_found(u, g);
        let b = bump(u, g);
        assert forall|i: int| 0 <= i < b.len() implies (#[trigger] b[i]).0.0.len() > 0 by {
            if i < u.len() && find_gram(u, g) != Some(i as nat) {
                assert(b[i] == u[i]);
            }
        }
    }
}

proof fn lemma_tokens_nonempty(ws: Seq<Seq<char>>)
    ensures
        forall|i: int| 0 <= i < useful_tokens(ws).len() ==> (#[trigger] useful_tokens(ws)[i]).len() > 0,
    decreases ws.len(),
{
    if ws.len() > 0 {
        let prev = useful_tokens(ws.drop_last());
        lemma_tokens_nonempty(ws.drop_last());
        assert forall|i: int| 0 <= i < useful_tokens(ws).len() implies (#[trigger] useful_tokens(
            ws,
        )[i]).len() > 0 by {
            if i < prev.len() {
                assert(useful_tokens(ws)[i] == prev[i]);
            }
        }
    }
}

proof fn lemma_one_grams_nonempty(toks: Seq<Seq<char>>)
    ensures
        forall|i: int| 0 <= i < one_grams(toks).len() ==> (#[trigger] one_grams(toks)[i]).0.len() >= 2,
    decreases toks.len(),
{
    if toks.len() > 0 {
        let prev = one_grams(toks.drop_last());
        lemma_one_grams_nonempty(toks.drop_last());
        assert forall|i: int| 0 <= i < one_grams(toks).len() implies (#[trigger] one_grams(
            toks,
        )[i]).0.len() >= 2 by {
            if i < prev.len() {
                assert(one_grams(toks)[i] == prev[i]);
            }
        }
    }
}

proof fn lemma_grams_nonempty(toks: Seq<Seq<char>>)
    requires
        forall|i: int| 0 <= i < toks.len() ==> (#[trigger] toks[i]).len() > 0,
    ensures
        forall|i: int| 0 <= i < grams_of(toks).len() ==> (#[trigger] grams_of(toks)[i]).0.len() > 0,
{
    lemma_one_grams_nonempty(toks);
    let a = one_grams(toks);
    let b = two_grams(toks);
    let c = three_grams(toks);
    assert forall|i: int| 0 <= i < grams_of(toks).len() implies (#[trigger] grams_of(toks)[i]).0.len()
        > 0 by {
        if i < a.len() {
            assert(grams_of(toks)[i] == a[i]);
        } else if i < a.len() + b.len() {
            assert(grams_of(toks)[i] == b[i - a.len()]);
            assert(toks[i - a.len()].len() > 0);
        } else {
            assert(grams_of(toks)[i] == c[i - a.len() - b.len()]);
        }
    }
}

/// No learned abbreviation has an empty trigger. Counting a document
/// keeps every phrase's trigger non-empty (every token is non-empty), so
/// from an empty table on every table the counter holds has non-empty
/// triggers, and so has every abbreviation learned from it.
pub proof fn lemma_learned_triggers_nonempty(t: Seq<(Gram, u32)>, text: Seq<char>)
    requires
        triggers_nonempty(t),
    ensures
        triggers_nonempty(tally_into(t, grams_of(tokens(text)))),
        forall|i: int|
            0 <= i < learned(t).len() ==> ((#[trigger] learned(t)[i]).trigger matches TriggerView::Literal(
                x,
            ) && x.len() > 0),
{
    lemma_tokens_nonempty(words(text));
    lemma_grams_nonempty(tokens(text));
    lemma_tally_keeps_triggers(t, grams_of(tokens(text)));
    let f = keep_frequent(t);
    lemma_keep_frequent_members(t);
    lemma_sort_by_count(f);
    let r = sort_by_count(f);
    assert forall|i: int| 0 <= i < r.len() implies (#[trigger] r[i]).0.0.len() > 0 by {
        vstd::seq_lib::to_multiset_contains(r, r[i]);
        vstd::seq_lib::to_multiset_contains(f, r[i]);
        assert(r.contains(r[i]));
        assert(f.contains(r[i]));
        let k = choose|k: int| 0 <= k < f.len() && f[k] == r[i];
        assert(t.contains(f[k]));
    }
    assert forall|i: int| 0 <= i < learned(t).len() implies ((#[trigger] learned(t)[i]).trigger
        matches TriggerView::Literal(x) && x.len() > 0) by {
        assert(top_entries(t)[i] == r[i]);
    }
}

proof fn lemma_keep_frequent_members(t: Seq<(Gram, u32)>)
    ensures
        forall|i: int| 0 <= i < keep_frequent(t).len() ==> t.contains(#[trigger] keep_frequent(t)[i]),
    decreases t.len(),
{
    if t.len() > 0 {
        let prev = keep_frequent(t.drop_last());
        lemma_keep_frequent_members(t.drop_last());
        assert forall|i: int| 0 <= i < keep_frequent(t).len() implies t.contains(
            #[trigger] keep_frequent(t)[i],
        ) by {
            if i < prev.len() {
                assert(keep_frequent(t)[i] == prev[i]);
                let k = choose|k: int| 0 <= k < t.drop_last().len() && t.drop_last()[k] == prev[i];
                assert(t[k] == prev[i]);
            } else {
                assert(t[t.len() - 1] == t.last());
            }
        }
    }
}

proof fn lemma_keep_frequent(t: Seq<(Gram, u32)>)
    ensures
        forall|i: int| 0 <= i < keep_frequent(t).len() ==> (#[trigger] keep_frequent(t)[i]).1 >= MIN_FREQ,
    decreases t.len(),
{
    if t.len() > 0 {
        let prev = keep_frequent(t.drop_last());
        lemma_keep_frequent(t.drop_last());
        assert forall|i: int| 0 <= i < keep_frequent(t).len() implies (#[trigger] keep_frequent(t)[i]).1 >= MIN_FREQ by {
            if i < prev.len() {
                assert(keep_frequent(t)[i] == prev[i]);
            }
        }
    }
}

proof fn lemma_count_insert_pos(s: Seq<(Gram, u32)>, x: (Gram, u32))
    ensures
        count_insert_pos(s, x) <= s.len(),
        forall|i: int| count_insert_pos(s, x) <= i < s.len() ==> x.1 > (#[trigger] s[i]).1,
        count_insert_pos(s, x) > 0 ==> x.1 <= s[count_insert_pos(s, x) - 1].1,
    decreases s.len(),
{
    if s.len() > 0 && x.1 > s.last().1 {
        lemma_count_insert_pos(s.drop_last(), x);
        assert forall|i: int| count_insert_pos(s, x) <= i < s.len() implies x.1 > (#[trigger] s[i]).1 by {
            if i < s.len() - 1 {
                assert(s[i] == s.drop_last()[i]);
            }
        }
    }
}

/// Ranking by count yields the same entries, most frequent first.
pub proof fn lemma_sort_by_count(s: Seq<(Gram, u32)>)
    ensures
        sort_by_count(s).to_multiset() == s.to_multiset(),
        forall|i: int, j: int| 0 <= i < j < sort_by_count(s).len() ==> (#[trigger] sort_by_count(s)[i]).1
            >= (#[trigger] sort_by_count(s)[j]).1,
    decreases s.len(),
{
    broadcast use vstd::seq_lib::to_multiset_insert, vstd::seq_lib::to_multiset_build;

    if s.len() > 0 {
        let r = sort_by_count(s.drop_last());
        lemma_sort_by_count(s.drop_last());
        lemma_count_insert_pos(r, s.last());
        let p = count_insert_pos(r, s.last()) as int;
        let out = r.insert(p, s.last());
        assert(s.drop_last().push(s.last()) == s);
        assert forall|i: int, j: int| 0 <= i < j < out.len() implies (#[trigger] out[i]).1 >= (#[trigger] out[j]).1 by {
            if j < p {
                assert(out[i] == r[i] && out[j] == r[j]);
            } else if j == p {
                assert(out[i] == r[i]);
                if i < p - 1 {
                    assert(r[i].1 >= r[p - 1].1);
                }
            } else if i < p {
                assert(out[i] == r[i] && out[j] == r[j - 1]);
                if i < p - 1 {
                    assert(r[i].1 >= r[p - 1].1);
                }
                assert(s.last().1 > r[j - 1].1);
            } else if i == p {
                assert(out[j] == r[j - 1]);
            } else {
                assert(out[i] == r[i - 1] && out[j] == r[j - 1]);
            }
        }
    }
}

/// The learned entries are the frequent phrases, most frequent first, at
/// most [`MAX_ENTRIES`] of them, each seen at least [`MIN_FREQ`] times;
/// every learned abbreviation is a literal trigger fired explicitly, with
/// a priority in `[1, MAX_PRIORITY]`.
pub proof fn lemma_learned_ranked(t: Seq<(Gram, u32)>)
    ensures
        top_entries(t).len() <= MAX_ENTRIES,
        forall|i: int, j: int| 0 <= i < j < top_entries(t).len() ==> (#[trigger] top_entries(t)[i]).1
            >= (#[trigger] top_entries(t)[j]).1,
        forall|i: int| 0 <= i < top_entries(t).len() ==> (#[trigger] top_entries(t)[i]).1 >= MIN_FREQ,
        forall|i: int| 0 <= i < learned(t).len() ==> {
            let a = #[trigger] learned(t)[i];
            &&& a.trigger is Literal
            &&& a.trigger_on == TriggerEvent::Explicit
            &&& 1 <= a.priority <= MAX_PRIORITY
        },
{
    let f = keep_frequent(t);
    lemma_keep_frequent(t);
    lemma_sort_by_count(f);
    let r = sort_by_count(f);
    assert forall|i: int| 0 <= i < r.len() implies (#[trigger] r[i]).1 >= MIN_FREQ by {
        vstd::seq_lib::to_multiset_contains(r, r[i]);
        vstd::seq_lib::to_multiset_contains(f, r[i]);
        assert(r.contains(r[i]));
        assert(f.contains(r[i]));
        let k = choose|k: int| 0 <= k < f.len() && f[k] == r[i];
        assert(f[k].1 >= MIN_FREQ);
    }
}

} // verus!
