//! The Hangul letters, written down once as data: which conjoining code
//! points spell each letter, which compatibility jamo shows it, and what
//! each compound vowel and final is built from. The composition tables,
//! the output conversion and the keyboard layouts are held to this data
//! by the laws below.
use vstd::prelude::*;
use crate::hangul::compose::{spec_cho_to_jong, spec_compose_jong, spec_compose_jung, spec_decompose_jong, spec_decompose_jung, spec_split_jong};
use crate::hangul::output::spec_conjoining_to_compat;

verus! {

/// The consonant letters: (initial code point, final code point or 0
/// when the letter has no final form, compatibility jamo).
pub open spec fn consonant_letters() -> Seq<(u32, u32, char)> {
    seq![
        (0x1100u32, 0x11A8u32, 'ㄱ'),
        (0x1101u32, 0x11A9u32, 'ㄲ'),
        (0x1102u32, 0x11ABu32, 'ㄴ'),
        (0x1103u32, 0x11AEu32, 'ㄷ'),
        (0x1104u32, 0x0u32, 'ㄸ'),
        (0x1105u32, 0x11AFu32, 'ㄹ'),
        (0x1106u32, 0x11B7u32, 'ㅁ'),
        (0x1107u32, 0x11B8u32, 'ㅂ'),
        (0x1108u32, 0x0u32, 'ㅃ'),
        (0x1109u32, 0x11BAu32, 'ㅅ'),
        (0x110Au32, 0x11BBu32, 'ㅆ'),
        (0x110Bu32, 0x11BCu32, 'ㅇ'),
        (0x110Cu32, 0x11BDu32, 'ㅈ'),
        (0x110Du32, 0x0u32, 'ㅉ'),
        (0x110Eu32, 0x11BEu32, 'ㅊ'),
        (0x110Fu32, 0x11BFu32, 'ㅋ'),
        (0x1110u32, 0x11C0u32, 'ㅌ'),
        (0x1111u32, 0x11C1u32, 'ㅍ'),
        (0x1112u32, 0x11C2u32, 'ㅎ'),
    ]
}

/// The vowel letters ㅏ..ㅣ in the order of both the conjoining medials
/// (U+1161..) and the compatibility jamo.
pub open spec fn vowel_letters() -> Seq<char> {
    seq!['ㅏ', 'ㅐ', 'ㅑ', 'ㅒ', 'ㅓ', 'ㅔ', 'ㅕ', 'ㅖ', 'ㅗ', 'ㅘ', 'ㅙ', 'ㅚ', 'ㅛ', 'ㅜ', 'ㅝ', 'ㅞ', 'ㅟ', 'ㅠ', 'ㅡ', 'ㅢ', 'ㅣ']
}

/// The compound vowels: (compound, first vowel, second vowel).
pub open spec fn compound_vowels() -> Seq<(u32, u32, u32)> {
    seq![
        (0x116Au32, 0x1169u32, 0x1161u32),
        (0x116Bu32, 0x1169u32, 0x1162u32),
        (0x116Cu32, 0x1169u32, 0x1175u32),
        (0x116Fu32, 0x116Eu32, 0x1165u32),
        (0x1170u32, 0x116Eu32, 0x1166u32),
        (0x1171u32, 0x116Eu32, 0x1175u32),
        (0x1174u32, 0x1173u32, 0x1175u32),
    ]
}

/// The compound finals: (compound, first final, second final,
/// compatibility jamo).
pub open spec fn compound_finals() -> Seq<(u32, u32, u32, char)> {
    seq![
        (0x11A9u32, 0x11A8u32, 0x11A8u32, 'ㄲ'),
        (0x11AAu32, 0x11A8u32, 0x11BAu32, 'ㄳ'),
        (0x11ACu32, 0x11ABu32, 0x11BDu32, 'ㄵ'),
        (0x11ADu32, 0x11ABu32, 0x11C2u32, 'ㄶ'),
        (0x11B0u32, 0x11AFu32, 0x11A8u32, 'ㄺ'),
        (0x11B1u32, 0x11AFu32, 0x11B7u32, 'ㄻ'),
        (0x11B2u32, 0x11AFu32, 0x11B8u32, 'ㄼ'),
        (0x11B3u32, 0x11AFu32, 0x11BAu32, 'ㄽ'),
        (0x11B4u32, 0x11AFu32, 0x11C0u32, 'ㄾ'),
        (0x11B5u32, 0x11AFu32, 0x11C1u32, 'ㄿ'),
        (0x11B6u32, 0x11AFu32, 0x11C2u32, 'ㅀ'),
        (0x11B9u32, 0x11B8u32, 0x11BAu32, 'ㅄ'),
        (0x11BBu32, 0x11BAu32, 0x11BAu32, 'ㅆ'),
    ]
}

/// Composing two vowels gives exactly the compound vowel built from
/// them: `compose_jung(a, b) == Some(v)` holds when and only when `v`
/// is listed in [`compound_vowels`] as `a` followed by `b`.
pub proof fn lemma_compose_jung_by_components(a: u32, b: u32, v: u32)
    ensures
        spec_compose_jung(a, b) == Some(v) <==> compound_vowels().contains((v, a, b)),
{
    let t = compound_vowels();
    assert(t[0] == (0x116Au32, 0x1169u32, 0x1161u32));
    assert(t[1] == (0x116Bu32, 0x1169u32, 0x1162u32));
    assert(t[2] == (0x116Cu32, 0x1169u32, 0x1175u32));
    assert(t[3] == (0x116Fu32, 0x116Eu32, 0x1165u32));
    assert(t[4] == (0x1170u32, 0x116Eu32, 0x1166u32));
    assert(t[5] == (0x1171u32, 0x116Eu32, 0x1175u32));
    assert(t[6] == (0x1174u32, 0x1173u32, 0x1175u32));
    if t.contains((v, a, b)) {
        let k = choose|k: int| 0 <= k < t.len() && t[k] == (v, a, b);
        assert(k == 0 || k == 1 || k == 2 || k == 3 || k == 4 || k == 5 || k == 6);
    }
    if spec_compose_jung(a, b) == Some(v) {
        if a == 0x1169 && b == 0x1161 {
            assert(t[0] == (v, a, b));
        } else if a == 0x1169 && b == 0x1162 {
            assert(t[1] == (v, a, b));
        } else if a == 0x1169 && b == 0x1175 {
            assert(t[2] == (v, a, b));
        } else if a == 0x116E && b == 0x1165 {
            assert(t[3] == (v, a, b));
        } else if a == 0x116E && b == 0x1166 {
            assert(t[4] == (v, a, b));
        } else if a == 0x116E && b == 0x1175 {
            assert(t[5] == (v, a, b));
        } else if a == 0x1173 && b == 0x1175 {
            assert(t[6] == (v, a, b));
        }
    }
}

/// Removing the last component of a compound vowel gives its first
/// component: `decompose_jung(v) == Some(a)` holds when and only when
/// [`compound_vowels`] lists `v` as built from `a` and some second vowel.
pub proof fn lemma_decompose_jung_by_components(v: u32, a: u32)
    ensures
        spec_decompose_jung(v) == Some(a) <==> exists|k: int|
            0 <= k < compound_vowels().len() && (#[trigger] compound_vowels()[k]).0 == v
                && compound_vowels()[k].1 == a,
{
    let t = compound_vowels();
    assert(t[0] == (0x116Au32, 0x1169u32, 0x1161u32));
    assert(t[1] == (0x116Bu32, 0x1169u32, 0x1162u32));
    assert(t[2] == (0x116Cu32, 0x1169u32, 0x1175u32));
    assert(t[3] == (0x116Fu32, 0x116Eu32, 0x1165u32));
    assert(t[4] == (0x1170u32, 0x116Eu32, 0x1166u32));
    assert(t[5] == (0x1171u32, 0x116Eu32, 0x1175u32));
    assert(t[6] == (0x1174u32, 0x1173u32, 0x1175u32));
    if exists|k: int| 0 <= k < t.len() && (#[trigger] t[k]).0 == v && t[k].1 == a {
        let k = choose|k: int| 0 <= k < t.len() && (#[trigger] t[k]).0 == v && t[k].1 == a;
        assert(k == 0 || k == 1 || k == 2 || k == 3 || k == 4 || k == 5 || k == 6);
    }
    if spec_decompose_jung(v) == Some(a) {
        if v == 0x116A {
            assert(t[0].0 == v && t[0].1 == a);
        } else if v == 0x116B {
            assert(t[1].0 == v && t[1].1 == a);
        } else if v == 0x116C {
            assert(t[2].0 == v && t[2].1 == a);
        } else if v == 0x116F {
            assert(t[3].0 == v && t[3].1 == a);
        } else if v == 0x1170 {
            assert(t[4].0 == v && t[4].1 == a);
        } else if v == 0x1171 {
            assert(t[5].0 == v && t[5].1 == a);
        } else if v == 0x1174 {
            assert(t[6].0 == v && t[6].1 == a);
        }
    }
}

/// Composing two finals gives exactly the compound final built from
/// them: `compose_jong(a, b) == Some(f)` holds when and only when
/// [`compound_finals`] lists `f` as `a` followed by `b`.
pub proof fn lemma_compose_jong_by_components(a: u32, b: u32, f: u32)
    ensures
        spec_compose_jong(a, b) == Some(f) <==> exists|k: int|
            0 <= k < compound_finals().len() && (#[trigger] compound_finals()[k]).0 == f
                && compound_finals()[k].1 == a && compound_finals()[k].2 == b,
{
    let t = compound_finals();
    assert(t[0] == (0x11A9u32, 0x11A8u32, 0x11A8u32, 'ㄲ'));
    assert(t[1] == (0x11AAu32, 0x11A8u32, 0x11BAu32, 'ㄳ'));
    assert(t[2] == (0x11ACu32, 0x11ABu32, 0x11BDu32, 'ㄵ'));
    assert(t[3] == (0x11ADu32, 0x11ABu32, 0x11C2u32, 'ㄶ'));
    assert(t[4] == (0x11B0u32, 0x11AFu32, 0x11A8u32, 'ㄺ'));
    assert(t[5] == (0x11B1u32, 0x11AFu32, 0x11B7u32, 'ㄻ'));
    assert(t[6] == (0x11B2u32, 0x11AFu32, 0x11B8u32, 'ㄼ'));
    assert(t[7] == (0x11B3u32, 0x11AFu32, 0x11BAu32, 'ㄽ'));
    assert(t[8] == (0x11B4u32, 0x11AFu32, 0x11C0u32, 'ㄾ'));
    assert(t[9] == (0x11B5u32, 0x11AFu32, 0x11C1u32, 'ㄿ'));
    assert(t[10] == (0x11B6u32, 0x11AFu32, 0x11C2u32, 'ㅀ'));
    assert(t[11] == (0x11B9u32, 0x11B8u32, 0x11BAu32, 'ㅄ'));
    assert(t[12] == (0x11BBu32, 0x11BAu32, 0x11BAu32, 'ㅆ'));
    if exists|k: int| 0 <= k < t.len() && (#[trigger] t[k]).0 == f && t[k].1 == a && t[k].2 == b {
        let k = choose|k: int| 0 <= k < t.len() && (#[trigger] t[k]).0 == f && t[k].1 == a && t[k].2 == b;
        assert(k == 0 || k == 1 || k == 2 || k == 3 || k == 4 || k == 5 || k == 6 || k == 7 || k == 8 || k == 9 || k == 10 || k == 11 || k == 12);
    }
    if spec_compose_jong(a, b) == Some(f) {
        if a == 0x11A8 && b == 0x11A8 {
            assert(t[0].0 == f && t[0].1 == a && t[0].2 == b);
        } else if a == 0x11A8 && b == 0x11BA {
            assert(t[1].0 == f && t[1].1 == a && t[1].2 == b);
        } else if a == 0x11AB && b == 0x11BD {
            assert(t[2].0 == f && t[2].1 == a && t[2].2 == b);
        } else if a == 0x11AB && b == 0x11C2 {
            assert(t[3].0 == f && t[3].1 == a && t[3].2 == b);
        } else if a == 0x11AF && b == 0x11A8 {
            assert(t[4].0 == f && t[4].1 == a && t[4].2 == b);
        } else if a == 0x11AF && b == 0x11B7 {
            assert(t[5].0 == f && t[5].1 == a && t[5].2 == b);
        } else if a == 0x11AF && b == 0x11B8 {
            assert(t[6].0 == f && t[6].1 == a && t[6].2 == b);
        } else if a == 0x11AF && b == 0x11BA {
            assert(t[7].0 == f && t[7].1 == a && t[7].2 == b);
        } else if a == 0x11AF && b == 0x11C0 {
            assert(t[8].0 == f && t[8].1 == a && t[8].2 == b);
        } else if a == 0x11AF && b == 0x11C1 {
            assert(t[9].0 == f && t[9].1 == a && t[9].2 == b);
        } else if a == 0x11AF && b == 0x11C2 {
            assert(t[10].0 == f && t[10].1 == a && t[10].2 == b);
        } else if a == 0x11B8 && b == 0x11BA {
            assert(t[11].0 == f && t[11].1 == a && t[11].2 == b);
        } else if a == 0x11BA && b == 0x11BA {
            assert(t[12].0 == f && t[12].1 == a && t[12].2 == b);
        }
    }
}

/// Removing the last component of a compound final gives its first
/// component: `decompose_jong(f) == Some(a)` holds when and only when
/// [`compound_finals`] lists `f` as built from `a` and some second final.
pub proof fn lemma_decompose_jong_by_components(f: u32, a: u32)
    ensures
        spec_decompose_jong(f) == Some(a) <==> exists|k: int|
            0 <= k < compound_finals().len() && (#[trigger] compound_finals()[k]).0 == f
                && compound_finals()[k].1 == a,
{
    let t = compound_finals();
    assert(t[0] == (0x11A9u32, 0x11A8u32, 0x11A8u32, 'ㄲ'));
    assert(t[1] == (0x11AAu32, 0x11A8u32, 0x11BAu32, 'ㄳ'));
    assert(t[2] == (0x11ACu32, 0x11ABu32, 0x11BDu32, 'ㄵ'));
    assert(t[3] == (0x11ADu32, 0x11ABu32, 0x11C2u32, 'ㄶ'));
    assert(t[4] == (0x11B0u32, 0x11AFu32, 0x11A8u32, 'ㄺ'));
    assert(t[5] == (0x11B1u32, 0x11AFu32, 0x11B7u32, 'ㄻ'));
    assert(t[6] == (0x11B2u32, 0x11AFu32, 0x11B8u32, 'ㄼ'));
    assert(t[7] == (0x11B3u32, 0x11AFu32, 0x11BAu32, 'ㄽ'));
    assert(t[8] == (0x11B4u32, 0x11AFu32, 0x11C0u32, 'ㄾ'));
    assert(t[9] == (0x11B5u32, 0x11AFu32, 0x11C1u32, 'ㄿ'));
    assert(t[10] == (0x11B6u32, 0x11AFu32, 0x11C2u32, 'ㅀ'));
    assert(t[11] == (0x11B9u32, 0x11B8u32, 0x11BAu32, 'ㅄ'));
    assert(t[12] == (0x11BBu32, 0x11BAu32, 0x11BAu32, 'ㅆ'));
    if exists|k: int| 0 <= k < t.len() && (#[trigger] t[k]).0 == f && t[k].1 == a {
        let k = choose|k: int| 0 <= k < t.len() && (#[trigger] t[k]).0 == f && t[k].1 == a;
        assert(k == 0 || k == 1 || k == 2 || k == 3 || k == 4 || k == 5 || k == 6 || k == 7 || k == 8 || k == 9 || k == 10 || k == 11 || k == 12);
    }
    if spec_decompose_jong(f) == Some(a) {
        if f == 0x11A9 {
            assert(t[0].0 == f && t[0].1 == a);
        } else if f == 0x11AA {
            assert(t[1].0 == f && t[1].1 == a);
        } else if f == 0x11AC {
            assert(t[2].0 == f && t[2].1 == a);
        } else if f == 0x11AD {
            assert(t[3].0 == f && t[3].1 == a);
        } else if f == 0x11B0 {
            assert(t[4].0 == f && t[4].1 == a);
        } else if f == 0x11B1 {
            assert(t[5].0 == f && t[5].1 == a);
        } else if f == 0x11B2 {
            assert(t[6].0 == f && t[6].1 == a);
        } else if f == 0x11B3 {
            assert(t[7].0 == f && t[7].1 == a);
        } else if f == 0x11B4 {
            assert(t[8].0 == f && t[8].1 == a);
        } else if f == 0x11B5 {
            assert(t[9].0 == f && t[9].1 == a);
        } else if f == 0x11B6 {
            assert(t[10].0 == f && t[10].1 == a);
        } else if f == 0x11B9 {
            assert(t[11].0 == f && t[11].1 == a);
        } else if f == 0x11BB {
            assert(t[12].0 == f && t[12].1 == a);
        }
    }
}

/// Every conjoining jamo is shown as the compatibility jamo of its
/// letter: an initial and the final of the same consonant letter both
/// show that letter, the medial U+1161 + i shows the i-th vowel letter,
/// and a compound final shows its compound letter. Nothing else has a
/// compatibility form.
pub proof fn lemma_compat_shows_the_letter(cp: u32)
    ensures
        forall|k: int| 0 <= k < consonant_letters().len() ==> spec_conjoining_to_compat(
            (#[trigger] consonant_letters()[k]).0,
        ) == Some(consonant_letters()[k].2 as u32),
        forall|k: int|
            0 <= k < consonant_letters().len() && (#[trigger] consonant_letters()[k]).1 != 0
                ==> spec_conjoining_to_compat(consonant_letters()[k].1) == Some(
                consonant_letters()[k].2 as u32,
            ),
        forall|k: int| 0 <= k < vowel_letters().len() ==> spec_conjoining_to_compat(
            (0x1161 + k) as u32,
        ) == Some((#[trigger] vowel_letters()[k]) as u32),
        forall|k: int| 0 <= k < compound_finals().len() ==> spec_conjoining_to_compat(
            (#[trigger] compound_finals()[k]).0,
        ) == Some(compound_finals()[k].3 as u32),
        spec_conjoining_to_compat(cp) is Some <==> (0x1100 <= cp <= 0x1112 || 0x1161 <= cp <= 0x1175
            || 0x11A8 <= cp <= 0x11C2),
{
    let c = consonant_letters();
    let v = vowel_letters();
    let f = compound_finals();
    assert forall|k: int| 0 <= k < c.len() implies spec_conjoining_to_compat(
        (#[trigger] c[k]).0,
    ) == Some(c[k].2 as u32) by {
        if k == 0 {} else if k == 1 {} else if k == 2 {} else if k == 3 {} else if k == 4 {} else if k == 5 {} else if k == 6 {} else if k == 7 {} else if k == 8 {} else if k == 9 {} else if k == 10 {} else if k == 11 {} else if k == 12 {} else if k == 13 {} else if k == 14 {} else if k == 15 {} else if k == 16 {} else if k == 17 {} else if k == 18 {}
    }
    assert forall|k: int| 0 <= k < c.len() && (#[trigger] c[k]).1 != 0 implies spec_conjoining_to_compat(
        c[k].1,
    ) == Some(c[k].2 as u32) by {
        if k == 0 {} else if k == 1 {} else if k == 2 {} else if k == 3 {} else if k == 4 {} else if k == 5 {} else if k == 6 {} else if k == 7 {} else if k == 8 {} else if k == 9 {} else if k == 10 {} else if k == 11 {} else if k == 12 {} else if k == 13 {} else if k == 14 {} else if k == 15 {} else if k == 16 {} else if k == 17 {} else if k == 18 {}
    }
    assert forall|k: int| 0 <= k < v.len() implies spec_conjoining_to_compat((0x1161 + k) as u32)
        == Some((#[trigger] v[k]) as u32) by {
        if k == 0 {} else if k == 1 {} else if k == 2 {} else if k == 3 {} else if k == 4 {} else if k == 5 {} else if k == 6 {} else if k == 7 {} else if k == 8 {} else if k == 9 {} else if k == 10 {} else if k == 11 {} else if k == 12 {} else if k == 13 {} else if k == 14 {} else if k == 15 {} else if k == 16 {} else if k == 17 {} else if k == 18 {} else if k == 19 {} else if k == 20 {}
    }
    assert forall|k: int| 0 <= k < f.len() implies spec_conjoining_to_compat(
        (#[trigger] f[k]).0,
    ) == Some(f[k].3 as u32) by {
        if k == 0 {} else if k == 1 {} else if k == 2 {} else if k == 3 {} else if k == 4 {} else if k == 5 {} else if k == 6 {} else if k == 7 {} else if k == 8 {} else if k == 9 {} else if k == 10 {} else if k == 11 {} else if k == 12 {}
    }
}

/// A consonant that ends a syllable is spelt with its letter's final:
/// `cho_to_jong` maps each initial to the final of the same letter, and
/// has nothing for a letter without a final form.
pub proof fn lemma_cho_to_jong_same_letter()
    ensures
        forall|k: int| 0 <= k < consonant_letters().len() ==> spec_cho_to_jong(
            (#[trigger] consonant_letters()[k]).0,
        ) == if consonant_letters()[k].1 == 0 {
            None
        } else {
            Some(consonant_letters()[k].1)
        },
{
    let c = consonant_letters();
    assert forall|k: int| 0 <= k < c.len() implies spec_cho_to_jong((#[trigger] c[k]).0) == if c[k].1
        == 0 {
        None
    } else {
        Some(c[k].1)
    } by {
        if k == 0 {} else if k == 1 {} else if k == 2 {} else if k == 3 {} else if k == 4 {} else if k == 5 {} else if k == 6 {} else if k == 7 {} else if k == 8 {} else if k == 9 {} else if k == 10 {} else if k == 11 {} else if k == 12 {} else if k == 13 {} else if k == 14 {} else if k == 15 {} else if k == 16 {} else if k == 17 {} else if k == 18 {}
    }
}

/// When a syllable's final moves on to start the next syllable, a simple
/// final moves whole as the initial of its letter, and a compound final
/// of two different letters keeps its first part and moves the initial of
/// its second part's letter.
pub proof fn lemma_split_jong_by_letters()
    ensures
        forall|k: int|
            0 <= k < consonant_letters().len() && (#[trigger] consonant_letters()[k]).1 != 0
                ==> spec_split_jong(consonant_letters()[k].1) == (None::<u32>, consonant_letters()[k].0),
        forall|k: int, m: int|
            0 <= k < compound_finals().len() && 0 <= m < consonant_letters().len() && (#[trigger] compound_finals()[k]).1
                != compound_finals()[k].2 && (#[trigger] consonant_letters()[m]).1 == compound_finals()[k].2
                ==> spec_split_jong(compound_finals()[k].0) == (Some(compound_finals()[k].1), consonant_letters()[m].0),
{
    let c = consonant_letters();
    let f = compound_finals();
    assert forall|k: int| 0 <= k < c.len() && (#[trigger] c[k]).1 != 0 implies spec_split_jong(c[k].1)
        == (None::<u32>, c[k].0) by {
        if k == 0 {} else if k == 1 {} else if k == 2 {} else if k == 3 {} else if k == 4 {} else if k == 5 {} else if k == 6 {} else if k == 7 {} else if k == 8 {} else if k == 9 {} else if k == 10 {} else if k == 11 {} else if k == 12 {} else if k == 13 {} else if k == 14 {} else if k == 15 {} else if k == 16 {} else if k == 17 {} else if k == 18 {}
    }
    assert forall|k: int, m: int|
        0 <= k < f.len() && 0 <= m < c.len() && (#[trigger] f[k]).1 != f[k].2 && (#[trigger] c[m]).1 == f[k].2
        implies spec_split_jong(f[k].0) == (Some(f[k].1), c[m].0) by {
        if k == 0 { assert(f[k].1 != f[k].2); } else if k == 1 { assert(f[k].1 != f[k].2); } else if k == 2 { assert(f[k].1 != f[k].2); } else if k == 3 { assert(f[k].1 != f[k].2); } else if k == 4 { assert(f[k].1 != f[k].2); } else if k == 5 { assert(f[k].1 != f[k].2); } else if k == 6 { assert(f[k].1 != f[k].2); } else if k == 7 { assert(f[k].1 != f[k].2); } else if k == 8 { assert(f[k].1 != f[k].2); } else if k == 9 { assert(f[k].1 != f[k].2); } else if k == 10 { assert(f[k].1 != f[k].2); } else if k == 11 { assert(f[k].1 != f[k].2); } else if k == 12 { assert(f[k].1 != f[k].2); }
    }
}

} // verus!
