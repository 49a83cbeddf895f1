//! Compound-jamo composition, decomposition, and role-transfer tables.
//!
//! These tables encode the rules an IME needs when two input jamo collide
//! in the same slot of a syllable (compound vowel such as ㅗ+ㅏ=ㅘ,
//! compound final such as ㄹ+ㄱ=ㄺ) and when a final must be pulled off
//! the previous syllable to seed a new one (e.g. 갃 + ㅏ → 각 + 사).
//!
//! All code points here are conjoining Jamo (U+1100..=U+11FF).
use vstd::prelude::*;
use crate::hangul::jamo::{is_cho_cp, is_jong_cp, is_jung_cp};

verus! {

// ───────────────────────── Compound medial vowels ─────────────────────────

/// The compound vowel formed by `first` followed by `second`, if any:
/// ㅘ, ㅙ, ㅚ, ㅝ, ㅞ, ㅟ, ㅢ.
pub open spec fn spec_compose_jung(first: u32, second: u32) -> Option<u32> {
    if first == 0x1169 && second == 0x1161 { Some(0x116Au32) }       // ㅗ + ㅏ = ㅘ
    else if first == 0x1169 && second == 0x1162 { Some(0x116Bu32) }  // ㅗ + ㅐ = ㅙ
    else if first == 0x1169 && second == 0x1175 { Some(0x116Cu32) }  // ㅗ + ㅣ = ㅚ
    else if first == 0x116E && second == 0x1165 { Some(0x116Fu32) }  // ㅜ + ㅓ = ㅝ
    else if first == 0x116E && second == 0x1166 { Some(0x1170u32) }  // ㅜ + ㅔ = ㅞ
    else if first == 0x116E && second == 0x1175 { Some(0x1171u32) }  // ㅜ + ㅣ = ㅟ
    else if first == 0x1173 && second == 0x1175 { Some(0x1174u32) }  // ㅡ + ㅣ = ㅢ
    else { None }
}

/// Try to compose two medial vowels into a compound vowel.
pub fn compose_jung(first: u32, second: u32) -> (r: Option<u32>)
    ensures
        r == spec_compose_jung(first, second),
{
    match (first, second) {
        (0x1169, 0x1161) => Some(0x116A),
        (0x1169, 0x1162) => Some(0x116B),
        (0x1169, 0x1175) => Some(0x116C),
        (0x116E, 0x1165) => Some(0x116F),
        (0x116E, 0x1166) => Some(0x1170),
        (0x116E, 0x1175) => Some(0x1171),
        (0x1173, 0x1175) => Some(0x1174),
        _ => None,
    }
}

/// The first component of a compound vowel; `None` for simple vowels.
pub open spec fn spec_decompose_jung(jung: u32) -> Option<u32> {
    if 0x116A <= jung && jung <= 0x116C { Some(0x1169u32) }       // ㅘ/ㅙ/ㅚ → ㅗ
    else if 0x116F <= jung && jung <= 0x1171 { Some(0x116Eu32) }  // ㅝ/ㅞ/ㅟ → ㅜ
    else if jung == 0x1174 { Some(0x1173u32) }                    // ㅢ → ㅡ
    else { None }
}

/// Decompose a compound vowel by removing its last component, returning
/// the surviving first component. Used by backspace.
pub fn decompose_jung(jung: u32) -> (r: Option<u32>)
    ensures
        r == spec_decompose_jung(jung),
{
    match jung {
        0x116A..=0x116C => Some(0x1169),
        0x116F..=0x1171 => Some(0x116E),
        0x1174 => Some(0x1173),
        _ => None,
    }
}

// ───────────────────────── Compound final consonants ─────────────────────

/// The compound (or doubled) final formed by `first` then `second`.
pub open spec fn spec_compose_jong(first: u32, second: u32) -> Option<u32> {
    if first == 0x11A8 && second == 0x11A8 { Some(0x11A9u32) }       // ㄱ + ㄱ = ㄲ
    else if first == 0x11BA && second == 0x11BA { Some(0x11BBu32) }  // ㅅ + ㅅ = ㅆ
    else if first == 0x11A8 && second == 0x11BA { Some(0x11AAu32) }  // ㄱ + ㅅ = ㄳ
    else if first == 0x11AB && second == 0x11BD { Some(0x11ACu32) }  // ㄴ + ㅈ = ㄵ
    else if first == 0x11AB && second == 0x11C2 { Some(0x11ADu32) }  // ㄴ + ㅎ = ㄶ
    else if first == 0x11AF && second == 0x11A8 { Some(0x11B0u32) }  // ㄹ + ㄱ = ㄺ
    else if first == 0x11AF && second == 0x11B7 { Some(0x11B1u32) }  // ㄹ + ㅁ = ㄻ
    else if first == 0x11AF && second == 0x11B8 { Some(0x11B2u32) }  // ㄹ + ㅂ = ㄼ
    else if first == 0x11AF && second == 0x11BA { Some(0x11B3u32) }  // ㄹ + ㅅ = ㄽ
    else if first == 0x11AF && second == 0x11C0 { Some(0x11B4u32) }  // ㄹ + ㅌ = ㄾ
    else if first == 0x11AF && second == 0x11C1 { Some(0x11B5u32) }  // ㄹ + ㅍ = ㄿ
    else if first == 0x11AF && second == 0x11C2 { Some(0x11B6u32) }  // ㄹ + ㅎ = ㅀ
    else if first == 0x11B8 && second == 0x11BA { Some(0x11B9u32) }  // ㅂ + ㅅ = ㅄ
    else { None }
}

/// Try to compose two final consonants into a compound final or into a
/// doubled final (ᆨᆨ→ᆩ, ᆺᆺ→ᆻ).
pub fn compose_jong(first: u32, second: u32) -> (r: Option<u32>)
    ensures
        r == spec_compose_jong(first, second),
{
    match (first, second) {
        (0x11A8, 0x11A8) => Some(0x11A9),
        (0x11BA, 0x11BA) => Some(0x11BB),
        (0x11A8, 0x11BA) => Some(0x11AA),
        (0x11AB, 0x11BD) => Some(0x11AC),
        (0x11AB, 0x11C2) => Some(0x11AD),
        (0x11AF, 0x11A8) => Some(0x11B0),
        (0x11AF, 0x11B7) => Some(0x11B1),
        (0x11AF, 0x11B8) => Some(0x11B2),
        (0x11AF, 0x11BA) => Some(0x11B3),
        (0x11AF, 0x11C0) => Some(0x11B4),
        (0x11AF, 0x11C1) => Some(0x11B5),
        (0x11AF, 0x11C2) => Some(0x11B6),
        (0x11B8, 0x11BA) => Some(0x11B9),
        _ => None,
    }
}

/// The doubled initial formed by pressing the same initial twice.
pub open spec fn spec_compose_cho_double(first: u32, second: u32) -> Option<u32> {
    if first != second { None }
    else if first == 0x1100 { Some(0x1101u32) }  // ㄱ + ㄱ = ㄲ
    else if first == 0x1103 { Some(0x1104u32) }  // ㄷ + ㄷ = ㄸ
    else if first == 0x1107 { Some(0x1108u32) }  // ㅂ + ㅂ = ㅃ
    else if first == 0x1109 { Some(0x110Au32) }  // ㅅ + ㅅ = ㅆ
    else if first == 0x110C { Some(0x110Du32) }  // ㅈ + ㅈ = ㅉ
    else { None }
}

/// Try to compose two initial consonants pressed consecutively into a
/// doubled initial (ㄱㄱ→ㄲ / ㄷㄷ→ㄸ / ㅂㅂ→ㅃ / ㅅㅅ→ㅆ / ㅈㅈ→ㅉ).
pub fn compose_cho_double(first: u32, second: u32) -> (r: Option<u32>)
    ensures
        r == spec_compose_cho_double(first, second),
{
    if first != second {
        return None;
    }
    match first {
        0x1100 => Some(0x1101),
        0x1103 => Some(0x1104),
        0x1107 => Some(0x1108),
        0x1109 => Some(0x110A),
        0x110C => Some(0x110D),
        _ => None,
    }
}

/// The first component of a compound or doubled final.
pub open spec fn spec_decompose_jong(jong: u32) -> Option<u32> {
    if jong == 0x11A9 || jong == 0x11AA { Some(0x11A8u32) }           // ㄲ/ㄳ → ㄱ
    else if 0x11AC <= jong && jong <= 0x11AD { Some(0x11ABu32) }      // ㄵ/ㄶ → ㄴ
    else if 0x11B0 <= jong && jong <= 0x11B6 { Some(0x11AFu32) }      // ㄺ..ㅀ → ㄹ
    else if jong == 0x11B9 { Some(0x11B8u32) }                        // ㅄ → ㅂ
    else if jong == 0x11BB { Some(0x11BAu32) }                        // ㅆ → ㅅ
    else { None }
}

/// Decompose a compound final into its first component, if compound.
pub fn decompose_jong(jong: u32) -> (r: Option<u32>)
    ensures
        r == spec_decompose_jong(jong),
{
    match jong {
        0x11A9 | 0x11AA => Some(0x11A8),
        0x11AC..=0x11AD => Some(0x11AB),
        0x11B0..=0x11B6 => Some(0x11AF),
        0x11B9 => Some(0x11B8),
        0x11BB => Some(0x11BA),
        _ => None,
    }
}

// ───────────────────── Moving a final to the next syllable ──────────────────

/// The initial consonant that a simple final becomes when it moves to the
/// next syllable; other values map to themselves.
pub open spec fn spec_jong_to_cho(jong: u32) -> u32 {
    if jong == 0x11A8 { 0x1100 }        // ㄱ
    else if jong == 0x11A9 { 0x1101 }   // ㄲ
    else if jong == 0x11AB { 0x1102 }   // ㄴ
    else if jong == 0x11AE { 0x1103 }   // ㄷ
    else if jong == 0x11AF { 0x1105 }   // ㄹ
    else if jong == 0x11B7 { 0x1106 }   // ㅁ
    else if jong == 0x11B8 { 0x1107 }   // ㅂ
    else if jong == 0x11BA { 0x1109 }   // ㅅ
    else if jong == 0x11BB { 0x110A }   // ㅆ
    else if jong == 0x11BC { 0x110B }   // ㅇ
    else if jong == 0x11BD { 0x110C }   // ㅈ
    else if jong == 0x11BE { 0x110E }   // ㅊ
    else if jong == 0x11BF { 0x110F }   // ㅋ
    else if jong == 0x11C0 { 0x1110 }   // ㅌ
    else if jong == 0x11C1 { 0x1111 }   // ㅍ
    else if jong == 0x11C2 { 0x1112 }   // ㅎ
    else { jong }
}

/// How a final splits when a vowel arrives after it: for a compound final
/// the first component stays and the second becomes the next initial; a
/// simple final moves whole.
pub open spec fn spec_split_jong(jong: u32) -> (Option<u32>, u32) {
    if jong == 0x11AA { (Some(0x11A8u32), 0x1109u32) }        // ㄳ → ㄱ + ㅅ
    else if jong == 0x11AC { (Some(0x11ABu32), 0x110Cu32) }   // ㄵ → ㄴ + ㅈ
    else if jong == 0x11AD { (Some(0x11ABu32), 0x1112u32) }   // ㄶ → ㄴ + ㅎ
    else if jong == 0x11B0 { (Some(0x11AFu32), 0x1100u32) }   // ㄺ → ㄹ + ㄱ
    else if jong == 0x11B1 { (Some(0x11AFu32), 0x1106u32) }   // ㄻ → ㄹ + ㅁ
    else if jong == 0x11B2 { (Some(0x11AFu32), 0x1107u32) }   // ㄼ → ㄹ + ㅂ
    else if jong == 0x11B3 { (Some(0x11AFu32), 0x1109u32) }   // ㄽ → ㄹ + ㅅ
    else if jong == 0x11B4 { (Some(0x11AFu32), 0x1110u32) }   // ㄾ → ㄹ + ㅌ
    else if jong == 0x11B5 { (Some(0x11AFu32), 0x1111u32) }   // ㄿ → ㄹ + ㅍ
    else if jong == 0x11B6 { (Some(0x11AFu32), 0x1112u32) }   // ㅀ → ㄹ + ㅎ
    else if jong == 0x11B9 { (Some(0x11B8u32), 0x1109u32) }   // ㅄ → ㅂ + ㅅ
    else { (None, spec_jong_to_cho(jong)) }
}

/// Split a final when a vowel arrives after it.
///
/// Returns `(remaining_jong, moved_cho)`.
pub fn split_jong(jong: u32) -> (r: (Option<u32>, u32))
    ensures
        r == spec_split_jong(jong),
{
    match jong {
        0x11AA => (Some(0x11A8), 0x1109),
        0x11AC => (Some(0x11AB), 0x110C),
        0x11AD => (Some(0x11AB), 0x1112),
        0x11B0 => (Some(0x11AF), 0x1100),
        0x11B1 => (Some(0x11AF), 0x1106),
        0x11B2 => (Some(0x11AF), 0x1107),
        0x11B3 => (Some(0x11AF), 0x1109),
        0x11B4 => (Some(0x11AF), 0x1110),
        0x11B5 => (Some(0x11AF), 0x1111),
        0x11B6 => (Some(0x11AF), 0x1112),
        0x11B9 => (Some(0x11B8), 0x1109),
        simple => (None, jong_to_cho(simple)),
    }
}

/// Map a simple Jong code point to its Cho counterpart.
fn jong_to_cho(jong: u32) -> (r: u32)
    ensures
        r == spec_jong_to_cho(jong),
{
    match jong {
        0x11A8 => 0x1100,
        0x11A9 => 0x1101,
        0x11AB => 0x1102,
        0x11AE => 0x1103,
        0x11AF => 0x1105,
        0x11B7 => 0x1106,
        0x11B8 => 0x1107,
        0x11BA => 0x1109,
        0x11BB => 0x110A,
        0x11BC => 0x110B,
        0x11BD => 0x110C,
        0x11BE => 0x110E,
        0x11BF => 0x110F,
        0x11C0 => 0x1110,
        0x11C1 => 0x1111,
        0x11C2 => 0x1112,
        other => other,
    }
}

/// The final form of an initial consonant; ㄸ, ㅃ, ㅉ have none.
pub open spec fn spec_cho_to_jong(cho: u32) -> Option<u32> {
    if cho == 0x1100 { Some(0x11A8u32) }
    else if cho == 0x1101 { Some(0x11A9u32) }
    else if cho == 0x1102 { Some(0x11ABu32) }
    else if cho == 0x1103 { Some(0x11AEu32) }
    else if cho == 0x1105 { Some(0x11AFu32) }
    else if cho == 0x1106 { Some(0x11B7u32) }
    else if cho == 0x1107 { Some(0x11B8u32) }
    else if cho == 0x1109 { Some(0x11BAu32) }
    else if cho == 0x110A { Some(0x11BBu32) }
    else if cho == 0x110B { Some(0x11BCu32) }
    else if cho == 0x110C { Some(0x11BDu32) }
    else if cho == 0x110E { Some(0x11BEu32) }
    else if cho == 0x110F { Some(0x11BFu32) }
    else if cho == 0x1110 { Some(0x11C0u32) }
    else if cho == 0x1111 { Some(0x11C1u32) }
    else if cho == 0x1112 { Some(0x11C2u32) }
    else { None }
}

/// Map a simple Cho to its Jong counterpart, if any.
pub fn cho_to_jong(cho: u32) -> (r: Option<u32>)
    ensures
        r == spec_cho_to_jong(cho),
{
    match cho {
        0x1100 => Some(0x11A8),
        0x1101 => Some(0x11A9),
        0x1102 => Some(0x11AB),
        0x1103 => Some(0x11AE),
        0x1105 => Some(0x11AF),
        0x1106 => Some(0x11B7),
        0x1107 => Some(0x11B8),
        0x1109 => Some(0x11BA),
        0x110A => Some(0x11BB),
        0x110B => Some(0x11BC),
        0x110C => Some(0x11BD),
        0x110E => Some(0x11BE),
        0x110F => Some(0x11BF),
        0x1110 => Some(0x11C0),
        0x1111 => Some(0x11C1),
        0x1112 => Some(0x11C2),
        _ => None,
    }
}

// ──────────────────────────────── Laws ─────────────────────────────────────

/// Every table produces code points of the role it is about.
pub proof fn lemma_tables_stay_in_range(a: u32, b: u32)
    ensures
        spec_compose_jung(a, b) matches Some(v) ==> is_jung_cp(v),
        spec_decompose_jung(a) matches Some(v) ==> is_jung_cp(v),
        spec_compose_jong(a, b) matches Some(t) ==> is_jong_cp(t),
        spec_decompose_jong(a) matches Some(t) ==> is_jong_cp(t),
        spec_compose_cho_double(a, b) matches Some(c) ==> is_cho_cp(c),
        spec_cho_to_jong(a) matches Some(t) ==> is_jong_cp(t),
        is_jong_cp(a) ==> is_cho_cp(spec_split_jong(a).1),
        is_jong_cp(a) ==> (spec_split_jong(a).0 matches Some(t) ==> is_jong_cp(t)),
{
}

/// Removing the last component of a compound undoes composing it:
/// decompose(compose(a, b)) == a, for vowels and for finals.
pub proof fn lemma_decompose_undoes_compose(a: u32, b: u32)
    ensures
        spec_compose_jung(a, b) matches Some(v) ==> spec_decompose_jung(v) == Some(a),
        spec_compose_jong(a, b) matches Some(t) ==> spec_decompose_jong(t) == Some(a),
{
}

/// Splitting a final and putting the moved consonant back as a final
/// gives the same final back: a compound final recomposes from its
/// kept part and the moved part, and a simple final is the final form of
/// the initial it moves to.
pub proof fn lemma_split_jong_recombines(jong: u32)
    requires
        is_jong_cp(jong),
    ensures
        spec_split_jong(jong).0 matches Some(keep) ==> spec_cho_to_jong(spec_split_jong(jong).1)
            matches Some(moved) && spec_compose_jong(keep, moved) == Some(jong),
        spec_split_jong(jong).0 is None ==> spec_cho_to_jong(spec_split_jong(jong).1) == Some(
            jong,
        ),
{
}

/// Every initial with a final form maps back to itself when that final
/// moves to the next syllable.
pub proof fn lemma_cho_to_jong_round_trip(cho: u32)
    ensures
        spec_cho_to_jong(cho) matches Some(t) ==> spec_split_jong(t) == (None::<u32>, cho),
{
}

} // verus!
