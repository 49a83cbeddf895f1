//! The legends printed on the keys of each Hangul layout, written down
//! as data, and the laws holding each layout's key table to its legend.
use vstd::prelude::*;
use super::key::KeyCode;
use super::LayoutOutput;
use super::dubeolsik::dubeolsik_table;
use super::sebeolsik::sebeolsik_table;
use super::sebeolsik_final::sebeolsik_final_table;
use super::latin::{spec_dvorak_char, spec_qwerty_char};
use crate::hangul::jamo::{is_cho_cp, is_jong_cp, is_jung_cp, JamoInput};
use crate::hangul::output::spec_conjoining_to_compat;

verus! {

/// What a key output is, as it would be printed on the key: its role
/// (see [`two_set_legend`]) and the compatibility jamo of its letter (or
/// the character typed). `None` for a key the layout does not handle.
pub open spec fn key_class(out: LayoutOutput) -> Option<(char, u32)> {
    match out {
        LayoutOutput::Jamo(JamoInput::Jung(v)) => if is_jung_cp(v) {
            Some(('v', spec_conjoining_to_compat(v)->0))
        } else {
            None
        },
        LayoutOutput::Jamo(JamoInput::Cons { cho: Some(c), jong: None }) => if is_cho_cp(c) {
            Some(('c', spec_conjoining_to_compat(c)->0))
        } else {
            None
        },
        LayoutOutput::Jamo(JamoInput::Cons { cho: None, jong: Some(t) }) => if is_jong_cp(t) {
            Some(('f', spec_conjoining_to_compat(t)->0))
        } else {
            None
        },
        LayoutOutput::Jamo(JamoInput::Cons { cho: Some(c), jong: Some(t) }) => if is_cho_cp(c) && is_jong_cp(t)
            && spec_conjoining_to_compat(c) == spec_conjoining_to_compat(t) {
            Some(('d', spec_conjoining_to_compat(c)->0))
        } else {
            None
        },
        LayoutOutput::Char(ch) => Some(('x', ch as u32)),
        _ => None,
    }
}

/// The 두벌식 (KS X 5002) legend: (key, Shift held, role, letter). The role is `c` for an
/// initial, `f` for a final, `v` for a vowel, `d` for a two-set consonant
/// (its initial and final, of the same letter) and `x` for a character
/// typed as is; the letter is the compatibility jamo printed on the key,
/// or the character.
pub open spec fn two_set_legend() -> Seq<(KeyCode, bool, char, char)> {
    seq![
        (KeyCode::KeyQ, false, 'd', 'ㅂ'),
        (KeyCode::KeyW, false, 'd', 'ㅈ'),
        (KeyCode::KeyE, false, 'd', 'ㄷ'),
        (KeyCode::KeyR, false, 'd', 'ㄱ'),
        (KeyCode::KeyT, false, 'd', 'ㅅ'),
        (KeyCode::KeyY, false, 'v', 'ㅛ'),
        (KeyCode::KeyU, false, 'v', 'ㅕ'),
        (KeyCode::KeyI, false, 'v', 'ㅑ'),
        (KeyCode::KeyO, false, 'v', 'ㅐ'),
        (KeyCode::KeyP, false, 'v', 'ㅔ'),
        (KeyCode::KeyA, false, 'd', 'ㅁ'),
        (KeyCode::KeyS, false, 'd', 'ㄴ'),
        (KeyCode::KeyD, false, 'd', 'ㅇ'),
        (KeyCode::KeyF, false, 'd', 'ㄹ'),
        (KeyCode::KeyG, false, 'd', 'ㅎ'),
        (KeyCode::KeyH, false, 'v', 'ㅗ'),
        (KeyCode::KeyJ, false, 'v', 'ㅓ'),
        (KeyCode::KeyK, false, 'v', 'ㅏ'),
        (KeyCode::KeyL, false, 'v', 'ㅣ'),
        (KeyCode::KeyZ, false, 'd', 'ㅋ'),
        (KeyCode::KeyX, false, 'd', 'ㅌ'),
        (KeyCode::KeyC, false, 'd', 'ㅊ'),
        (KeyCode::KeyV, false, 'd', 'ㅍ'),
        (KeyCode::KeyB, false, 'v', 'ㅠ'),
        (KeyCode::KeyN, false, 'v', 'ㅜ'),
        (KeyCode::KeyM, false, 'v', 'ㅡ'),
        (KeyCode::KeyQ, true, 'c', 'ㅃ'),
        (KeyCode::KeyW, true, 'c', 'ㅉ'),
        (KeyCode::KeyE, true, 'c', 'ㄸ'),
        (KeyCode::KeyR, true, 'd', 'ㄲ'),
        (KeyCode::KeyT, true, 'd', 'ㅆ'),
        (KeyCode::KeyY, true, 'v', 'ㅛ'),
        (KeyCode::KeyU, true, 'v', 'ㅕ'),
        (KeyCode::KeyI, true, 'v', 'ㅑ'),
        (KeyCode::KeyO, true, 'v', 'ㅒ'),
        (KeyCode::KeyP, true, 'v', 'ㅖ'),
        (KeyCode::KeyA, true, 'd', 'ㅁ'),
        (KeyCode::KeyS, true, 'd', 'ㄴ'),
        (KeyCode::KeyD, true, 'd', 'ㅇ'),
        (KeyCode::KeyF, true, 'd', 'ㄹ'),
        (KeyCode::KeyG, true, 'd', 'ㅎ'),
        (KeyCode::KeyH, true, 'v', 'ㅗ'),
        (KeyCode::KeyJ, true, 'v', 'ㅓ'),
        (KeyCode::KeyK, true, 'v', 'ㅏ'),
        (KeyCode::KeyL, true, 'v', 'ㅣ'),
        (KeyCode::KeyZ, true, 'd', 'ㅋ'),
        (KeyCode::KeyX, true, 'd', 'ㅌ'),
        (KeyCode::KeyC, true, 'd', 'ㅊ'),
        (KeyCode::KeyV, true, 'd', 'ㅍ'),
        (KeyCode::KeyB, true, 'v', 'ㅠ'),
        (KeyCode::KeyN, true, 'v', 'ㅜ'),
        (KeyCode::KeyM, true, 'v', 'ㅡ'),
    ]
}

/// The 두벌식 layout follows its legend: every key in [`two_set_legend`] produces the jamo of the
/// printed letter in the printed role (or the printed character).
#[verifier::rlimit(100)]
pub proof fn lemma_two_set_legend_matches()
    ensures
        forall|k: int| 0 <= k < two_set_legend().len() ==> key_class(dubeolsik_table((#[trigger] two_set_legend()[k]).0, two_set_legend()[k].1)) == Some((two_set_legend()[k].2, two_set_legend()[k].3 as u32)),
{
    let t = two_set_legend();
    assert(key_class(dubeolsik_table(t[0].0, t[0].1)) == Some((t[0].2, t[0].3 as u32)));
    assert(key_class(dubeolsik_table(t[1].0, t[1].1)) == Some((t[1].2, t[1].3 as u32)));
    assert(key_class(dubeolsik_table(t[2].0, t[2].1)) == Some((t[2].2, t[2].3 as u32)));
    assert(key_class(dubeolsik_table(t[3].0, t[3].1)) == Some((t[3].2, t[3].3 as u32)));
    assert(key_class(dubeolsik_table(t[4].0, t[4].1)) == Some((t[4].2, t[4].3 as u32)));
    assert(key_class(dubeolsik_table(t[5].0, t[5].1)) == Some((t[5].2, t[5].3 as u32)));
    assert(key_class(dubeolsik_table(t[6].0, t[6].1)) == Some((t[6].2, t[6].3 as u32)));
    assert(key_class(dubeolsik_table(t[7].0, t[7].1)) == Some((t[7].2, t[7].3 as u32)));
    assert(key_class(dubeolsik_table(t[8].0, t[8].1)) == Some((t[8].2, t[8].3 as u32)));
    assert(key_class(dubeolsik_table(t[9].0, t[9].1)) == Some((t[9].2, t[9].3 as u32)));
    assert(key_class(dubeolsik_table(t[10].0, t[10].1)) == Some((t[10].2, t[10].3 as u32)));
    assert(key_class(dubeolsik_table(t[11].0, t[11].1)) == Some((t[11].2, t[11].3 as u32)));
    assert(key_class(dubeolsik_table(t[12].0, t[12].1)) == Some((t[12].2, t[12].3 as u32)));
    assert(key_class(dubeolsik_table(t[13].0, t[13].1)) == Some((t[13].2, t[13].3 as u32)));
    assert(key_class(dubeolsik_table(t[14].0, t[14].1)) == Some((t[14].2, t[14].3 as u32)));
    assert(key_class(dubeolsik_table(t[15].0, t[15].1)) == Some((t[15].2, t[15].3 as u32)));
    assert(key_class(dubeolsik_table(t[16].0, t[16].1)) == Some((t[16].2, t[16].3 as u32)));
    assert(key_class(dubeolsik_table(t[17].0, t[17].1)) == Some((t[17].2, t[17].3 as u32)));
    assert(key_class(dubeolsik_table(t[18].0, t[18].1)) == Some((t[18].2, t[18].3 as u32)));
    assert(key_class(dubeolsik_table(t[19].0, t[19].1)) == Some((t[19].2, t[19].3 as u32)));
    assert(key_class(dubeolsik_table(t[20].0, t[20].1)) == Some((t[20].2, t[20].3 as u32)));
    assert(key_class(dubeolsik_table(t[21].0, t[21].1)) == Some((t[21].2, t[21].3 as u32)));
    assert(key_class(dubeolsik_table(t[22].0, t[22].1)) == Some((t[22].2, t[22].3 as u32)));
    assert(key_class(dubeolsik_table(t[23].0, t[23].1)) == Some((t[23].2, t[23].3 as u32)));
    assert(key_class(dubeolsik_table(t[24].0, t[24].1)) == Some((t[24].2, t[24].3 as u32)));
    assert(key_class(dubeolsik_table(t[25].0, t[25].1)) == Some((t[25].2, t[25].3 as u32)));
    assert(key_class(dubeolsik_table(t[26].0, t[26].1)) == Some((t[26].2, t[26].3 as u32)));
    assert(key_class(dubeolsik_table(t[27].0, t[27].1)) == Some((t[27].2, t[27].3 as u32)));
    assert(key_class(dubeolsik_table(t[28].0, t[28].1)) == Some((t[28].2, t[28].3 as u32)));
    assert(key_class(dubeolsik_table(t[29].0, t[29].1)) == Some((t[29].2, t[29].3 as u32)));
    assert(key_class(dubeolsik_table(t[30].0, t[30].1)) == Some((t[30].2, t[30].3 as u32)));
    assert(key_class(dubeolsik_table(t[31].0, t[31].1)) == Some((t[31].2, t[31].3 as u32)));
    assert(key_class(dubeolsik_table(t[32].0, t[32].1)) == Some((t[32].2, t[32].3 as u32)));
    assert(key_class(dubeolsik_table(t[33].0, t[33].1)) == Some((t[33].2, t[33].3 as u32)));
    assert(key_class(dubeolsik_table(t[34].0, t[34].1)) == Some((t[34].2, t[34].3 as u32)));
    assert(key_class(dubeolsik_table(t[35].0, t[35].1)) == Some((t[35].2, t[35].3 as u32)));
    assert(key_class(dubeolsik_table(t[36].0, t[36].1)) == Some((t[36].2, t[36].3 as u32)));
    assert(key_class(dubeolsik_table(t[37].0, t[37].1)) == Some((t[37].2, t[37].3 as u32)));
    assert(key_class(dubeolsik_table(t[38].0, t[38].1)) == Some((t[38].2, t[38].3 as u32)));
    assert(key_class(dubeolsik_table(t[39].0, t[39].1)) == Some((t[39].2, t[39].3 as u32)));
    assert(key_class(dubeolsik_table(t[40].0, t[40].1)) == Some((t[40].2, t[40].3 as u32)));
    assert(key_class(dubeolsik_table(t[41].0, t[41].1)) == Some((t[41].2, t[41].3 as u32)));
    assert(key_class(dubeolsik_table(t[42].0, t[42].1)) == Some((t[42].2, t[42].3 as u32)));
    assert(key_class(dubeolsik_table(t[43].0, t[43].1)) == Some((t[43].2, t[43].3 as u32)));
    assert(key_class(dubeolsik_table(t[44].0, t[44].1)) == Some((t[44].2, t[44].3 as u32)));
    assert(key_class(dubeolsik_table(t[45].0, t[45].1)) == Some((t[45].2, t[45].3 as u32)));
    assert(key_class(dubeolsik_table(t[46].0, t[46].1)) == Some((t[46].2, t[46].3 as u32)));
    assert(key_class(dubeolsik_table(t[47].0, t[47].1)) == Some((t[47].2, t[47].3 as u32)));
    assert(key_class(dubeolsik_table(t[48].0, t[48].1)) == Some((t[48].2, t[48].3 as u32)));
    assert(key_class(dubeolsik_table(t[49].0, t[49].1)) == Some((t[49].2, t[49].3 as u32)));
    assert(key_class(dubeolsik_table(t[50].0, t[50].1)) == Some((t[50].2, t[50].3 as u32)));
    assert(key_class(dubeolsik_table(t[51].0, t[51].1)) == Some((t[51].2, t[51].3 as u32)));
    assert forall|k: int| 0 <= k < 52 implies key_class(dubeolsik_table((#[trigger] t[k]).0, t[k].1)) == Some((t[k].2, t[k].3 as u32)) by {
        if k == 0 {} else if k == 1 {} else if k == 2 {} else if k == 3 {} else if k == 4 {} else if k == 5 {} else if k == 6 {} else if k == 7 {} else if k == 8 {} else if k == 9 {} else if k == 10 {} else if k == 11 {} else if k == 12 {} else if k == 13 {} else if k == 14 {} else if k == 15 {} else if k == 16 {} else if k == 17 {} else if k == 18 {} else if k == 19 {} else if k == 20 {} else if k == 21 {} else if k == 22 {} else if k == 23 {} else if k == 24 {} else if k == 25 {} else if k == 26 {} else if k == 27 {} else if k == 28 {} else if k == 29 {} else if k == 30 {} else if k == 31 {} else if k == 32 {} else if k == 33 {} else if k == 34 {} else if k == 35 {} else if k == 36 {} else if k == 37 {} else if k == 38 {} else if k == 39 {} else if k == 40 {} else if k == 41 {} else if k == 42 {} else if k == 43 {} else if k == 44 {} else if k == 45 {} else if k == 46 {} else if k == 47 {} else if k == 48 {} else if k == 49 {} else if k == 50 {} else if k == 51 {}
    }
}

/// The 두벌식 layout follows its legend, off its legend: a key and Shift state that [`two_set_legend`]
/// does not list is passed through.
#[verifier::rlimit(100)]
pub proof fn lemma_two_set_legend_unlisted(code: KeyCode, shift: bool)
    ensures
        !(exists|k: int| 0 <= k < two_set_legend().len() && (#[trigger] two_set_legend()[k]).0 == code && two_set_legend()[k].1 == shift) ==> dubeolsik_table(code, shift) == LayoutOutput::Passthrough,
{
    let t = two_set_legend();
    if code == KeyCode::KeyQ && shift == false {
        assert(t[0].0 == code && t[0].1 == shift);
    } else if code == KeyCode::KeyW && shift == false {
        assert(t[1].0 == code && t[1].1 == shift);
    } else if code == KeyCode::KeyE && shift == false {
        assert(t[2].0 == code && t[2].1 == shift);
    } else if code == KeyCode::KeyR && shift == false {
        assert(t[3].0 == code && t[3].1 == shift);
    } else if code == KeyCode::KeyT && shift == false {
        assert(t[4].0 == code && t[4].1 == shift);
    } else if code == KeyCode::KeyY && shift == false {
        assert(t[5].0 == code && t[5].1 == shift);
    } else if code == KeyCode::KeyU && shift == false {
        assert(t[6].0 == code && t[6].1 == shift);
    } else if code == KeyCode::KeyI && shift == false {
        assert(t[7].0 == code && t[7].1 == shift);
    } else if code == KeyCode::KeyO && shift == false {
        assert(t[8].0 == code && t[8].1 == shift);
    } else if code == KeyCode::KeyP && shift == false {
        assert(t[9].0 == code && t[9].1 == shift);
    } else if code == KeyCode::KeyA && shift == false {
        assert(t[10].0 == code && t[10].1 == shift);
    } else if code == KeyCode::KeyS && shift == false {
        assert(t[11].0 == code && t[11].1 == shift);
    } else if code == KeyCode::KeyD && shift == false {
        assert(t[12].0 == code && t[12].1 == shift);
    } else if code == KeyCode::KeyF && shift == false {
        assert(t[13].0 == code && t[13].1 == shift);
    } else if code == KeyCode::KeyG && shift == false {
        assert(t[14].0 == code && t[14].1 == shift);
    } else if code == KeyCode::KeyH && shift == false {
        assert(t[15].0 == code && t[15].1 == shift);
    } else if code == KeyCode::KeyJ && shift == false {
        assert(t[16].0 == code && t[16].1 == shift);
    } else if code == KeyCode::KeyK && shift == false {
        assert(t[17].0 == code && t[17].1 == shift);
    } else if code == KeyCode::KeyL && shift == false {
        assert(t[18].0 == code && t[18].1 == shift);
    } else if code == KeyCode::KeyZ && shift == false {
        assert(t[19].0 == code && t[19].1 == shift);
    } else if code == KeyCode::KeyX && shift == false {
        assert(t[20].0 == code && t[20].1 == shift);
    } else if code == KeyCode::KeyC && shift == false {
        assert(t[21].0 == code && t[21].1 == shift);
    } else if code == KeyCode::KeyV && shift == false {
        assert(t[22].0 == code && t[22].1 == shift);
    } else if code == KeyCode::KeyB && shift == false {
        assert(t[23].0 == code && t[23].1 == shift);
    } else if code == KeyCode::KeyN && shift == false {
        assert(t[24].0 == code && t[24].1 == shift);
    } else if code == KeyCode::KeyM && shift == false {
        assert(t[25].0 == code && t[25].1 == shift);
    } else if code == KeyCode::KeyQ && shift == true {
        assert(t[26].0 == code && t[26].1 == shift);
    } else if code == KeyCode::KeyW && shift == true {
        assert(t[27].0 == code && t[27].1 == shift);
    } else if code == KeyCode::KeyE && shift == true {
        assert(t[28].0 == code && t[28].1 == shift);
    } else if code == KeyCode::KeyR && shift == true {
        assert(t[29].0 == code && t[29].1 == shift);
    } else if code == KeyCode::KeyT && shift == true {
        assert(t[30].0 == code && t[30].1 == shift);
    } else if code == KeyCode::KeyY && shift == true {
        assert(t[31].0 == code && t[31].1 == shift);
    } else if code == KeyCode::KeyU && shift == true {
        assert(t[32].0 == code && t[32].1 == shift);
    } else if code == KeyCode::KeyI && shift == true {
        assert(t[33].0 == code && t[33].1 == shift);
    } else if code == KeyCode::KeyO && shift == true {
        assert(t[34].0 == code && t[34].1 == shift);
    } else if code == KeyCode::KeyP && shift == true {
        assert(t[35].0 == code && t[35].1 == shift);
    } else if code == KeyCode::KeyA && shift == true {
        assert(t[36].0 == code && t[36].1 == shift);
    } else if code == KeyCode::KeyS && shift == true {
        assert(t[37].0 == code && t[37].1 == shift);
    } else if code == KeyCode::KeyD && shift == true {
        assert(t[38].0 == code && t[38].1 == shift);
    } else if code == KeyCode::KeyF && shift == true {
        assert(t[39].0 == code && t[39].1 == shift);
    } else if code == KeyCode::KeyG && shift == true {
        assert(t[40].0 == code && t[40].1 == shift);
    } else if code == KeyCode::KeyH && shift == true {
        assert(t[41].0 == code && t[41].1 == shift);
    } else if code == KeyCode::KeyJ && shift == true {
        assert(t[42].0 == code && t[42].1 == shift);
    } else if code == KeyCode::KeyK && shift == true {
        assert(t[43].0 == code && t[43].1 == shift);
    } else if code == KeyCode::KeyL && shift == true {
        assert(t[44].0 == code && t[44].1 == shift);
    } else if code == KeyCode::KeyZ && shift == true {
        assert(t[45].0 == code && t[45].1 == shift);
    } else if code == KeyCode::KeyX && shift == true {
        assert(t[46].0 == code && t[46].1 == shift);
    } else if code == KeyCode::KeyC && shift == true {
        assert(t[47].0 == code && t[47].1 == shift);
    } else if code == KeyCode::KeyV && shift == true {
        assert(t[48].0 == code && t[48].1 == shift);
    } else if code == KeyCode::KeyB && shift == true {
        assert(t[49].0 == code && t[49].1 == shift);
    } else if code == KeyCode::KeyN && shift == true {
        assert(t[50].0 == code && t[50].1 == shift);
    } else if code == KeyCode::KeyM && shift == true {
        assert(t[51].0 == code && t[51].1 == shift);
    }
}

/// The 세벌식 390 legend: (key, Shift held, role, letter). The role is `c` for an
/// initial, `f` for a final, `v` for a vowel, `d` for a two-set consonant
/// (its initial and final, of the same letter) and `x` for a character
/// typed as is; the letter is the compatibility jamo printed on the key,
/// or the character.
pub open spec fn sebeolsik_390_legend() -> Seq<(KeyCode, bool, char, char)> {
    seq![
        (KeyCode::Digit1, false, 'f', 'ㅎ'),
        (KeyCode::Digit2, false, 'f', 'ㅆ'),
        (KeyCode::Digit3, false, 'f', 'ㅂ'),
        (KeyCode::Digit4, false, 'v', 'ㅛ'),
        (KeyCode::Digit5, false, 'v', 'ㅠ'),
        (KeyCode::Digit6, false, 'v', 'ㅑ'),
        (KeyCode::Digit7, false, 'v', 'ㅖ'),
        (KeyCode::Digit8, false, 'v', 'ㅢ'),
        (KeyCode::Digit9, false, 'v', 'ㅜ'),
        (KeyCode::Digit0, false, 'c', 'ㅋ'),
        (KeyCode::KeyQ, false, 'f', 'ㅅ'),
        (KeyCode::KeyW, false, 'f', 'ㄹ'),
        (KeyCode::KeyE, false, 'v', 'ㅕ'),
        (KeyCode::KeyR, false, 'v', 'ㅐ'),
        (KeyCode::KeyT, false, 'v', 'ㅓ'),
        (KeyCode::KeyY, false, 'c', 'ㄹ'),
        (KeyCode::KeyU, false, 'c', 'ㄷ'),
        (KeyCode::KeyI, false, 'c', 'ㅁ'),
        (KeyCode::KeyO, false, 'c', 'ㅊ'),
        (KeyCode::KeyP, false, 'c', 'ㅍ'),
        (KeyCode::KeyA, false, 'f', 'ㅇ'),
        (KeyCode::KeyS, false, 'f', 'ㄴ'),
        (KeyCode::KeyD, false, 'v', 'ㅣ'),
        (KeyCode::KeyF, false, 'v', 'ㅏ'),
        (KeyCode::KeyG, false, 'v', 'ㅡ'),
        (KeyCode::KeyH, false, 'c', 'ㄴ'),
        (KeyCode::KeyJ, false, 'c', 'ㅇ'),
        (KeyCode::KeyK, false, 'c', 'ㄱ'),
        (KeyCode::KeyL, false, 'c', 'ㅈ'),
        (KeyCode::Semicolon, false, 'c', 'ㅂ'),
        (KeyCode::Quote, false, 'c', 'ㅌ'),
        (KeyCode::KeyZ, false, 'f', 'ㅁ'),
        (KeyCode::KeyX, false, 'f', 'ㄱ'),
        (KeyCode::KeyC, false, 'v', 'ㅔ'),
        (KeyCode::KeyV, false, 'v', 'ㅗ'),
        (KeyCode::KeyB, false, 'v', 'ㅜ'),
        (KeyCode::KeyN, false, 'c', 'ㅅ'),
        (KeyCode::KeyM, false, 'c', 'ㅎ'),
        (KeyCode::Slash, false, 'v', 'ㅗ'),
        (KeyCode::Digit1, true, 'f', 'ㅈ'),
        (KeyCode::KeyA, true, 'f', 'ㄷ'),
        (KeyCode::KeyC, true, 'f', 'ㄻ'),
        (KeyCode::KeyD, true, 'f', 'ㄺ'),
        (KeyCode::KeyE, true, 'f', 'ㅋ'),
        (KeyCode::KeyF, true, 'f', 'ㄲ'),
        (KeyCode::KeyQ, true, 'f', 'ㅍ'),
        (KeyCode::KeyR, true, 'v', 'ㅒ'),
        (KeyCode::KeyS, true, 'f', 'ㄶ'),
        (KeyCode::KeyV, true, 'f', 'ㅀ'),
        (KeyCode::KeyW, true, 'f', 'ㅌ'),
        (KeyCode::KeyX, true, 'f', 'ㅄ'),
        (KeyCode::KeyZ, true, 'f', 'ㅊ'),
    ]
}

/// The 세벌식 390 layout follows its legend: every key in [`sebeolsik_390_legend`] produces the jamo of the
/// printed letter in the printed role (or the printed character).
#[verifier::rlimit(100)]
pub proof fn lemma_sebeolsik_390_legend_matches()
    ensures
        forall|k: int| 0 <= k < sebeolsik_390_legend().len() ==> key_class(sebeolsik_table((#[trigger] sebeolsik_390_legend()[k]).0, sebeolsik_390_legend()[k].1)) == Some((sebeolsik_390_legend()[k].2, sebeolsik_390_legend()[k].3 as u32)),
{
    let t = sebeolsik_390_legend();
    assert(key_class(sebeolsik_table(t[0].0, t[0].1)) == Some((t[0].2, t[0].3 as u32)));
    assert(key_class(sebeolsik_table(t[1].0, t[1].1)) == Some((t[1].2, t[1].3 as u32)));
    assert(key_class(sebeolsik_table(t[2].0, t[2].1)) == Some((t[2].2, t[2].3 as u32)));
    assert(key_class(sebeolsik_table(t[3].0, t[3].1)) == Some((t[3].2, t[3].3 as u32)));
    assert(key_class(sebeolsik_table(t[4].0, t[4].1)) == Some((t[4].2, t[4].3 as u32)));
    assert(key_class(sebeolsik_table(t[5].0, t[5].1)) == Some((t[5].2, t[5].3 as u32)));
    assert(key_class(sebeolsik_table(t[6].0, t[6].1)) == Some((t[6].2, t[6].3 as u32)));
    assert(key_class(sebeolsik_table(t[7].0, t[7].1)) == Some((t[7].2, t[7].3 as u32)));
    assert(key_class(sebeolsik_table(t[8].0, t[8].1)) == Some((t[8].2, t[8].3 as u32)));
    assert(key_class(sebeolsik_table(t[9].0, t[9].1)) == Some((t[9].2, t[9].3 as u32)));
    assert(key_class(sebeolsik_table(t[10].0, t[10].1)) == Some((t[10].2, t[10].3 as u32)));
    assert(key_class(sebeolsik_table(t[11].0, t[11].1)) == Some((t[11].2, t[11].3 as u32)));
    assert(key_class(sebeolsik_table(t[12].0, t[12].1)) == Some((t[12].2, t[12].3 as u32)));
    assert(key_class(sebeolsik_table(t[13].0, t[13].1)) == Some((t[13].2, t[13].3 as u32)));
    assert(key_class(sebeolsik_table(t[14].0, t[14].1)) == Some((t[14].2, t[14].3 as u32)));
    assert(key_class(sebeolsik_table(t[15].0, t[15].1)) == Some((t[15].2, t[15].3 as u32)));
    assert(key_class(sebeolsik_table(t[16].0, t[16].1)) == Some((t[16].2, t[16].3 as u32)));
    assert(key_class(sebeolsik_table(t[17].0, t[17].1)) == Some((t[17].2, t[17].3 as u32)));
    assert(key_class(sebeolsik_table(t[18].0, t[18].1)) == Some((t[18].2, t[18].3 as u32)));
    assert(key_class(sebeolsik_table(t[19].0, t[19].1)) == Some((t[19].2, t[19].3 as u32)));
    assert(key_class(sebeolsik_table(t[20].0, t[20].1)) == Some((t[20].2, t[20].3 as u32)));
    assert(key_class(sebeolsik_table(t[21].0, t[21].1)) == Some((t[21].2, t[21].3 as u32)));
    assert(key_class(sebeolsik_table(t[22].0, t[22].1)) == Some((t[22].2, t[22].3 as u32)));
    assert(key_class(sebeolsik_table(t[23].0, t[23].1)) == Some((t[23].2, t[23].3 as u32)));
    assert(key_class(sebeolsik_table(t[24].0, t[24].1)) == Some((t[24].2, t[24].3 as u32)));
    assert(key_class(sebeolsik_table(t[25].0, t[25].1)) == Some((t[25].2, t[25].3 as u32)));
    assert(key_class(sebeolsik_table(t[26].0, t[26].1)) == Some((t[26].2, t[26].3 as u32)));
    assert(key_class(sebeolsik_table(t[27].0, t[27].1)) == Some((t[27].2, t[27].3 as u32)));
    assert(key_class(sebeolsik_table(t[28].0, t[28].1)) == Some((t[28].2, t[28].3 as u32)));
    assert(key_class(sebeolsik_table(t[29].0, t[29].1)) == Some((t[29].2, t[29].3 as u32)));
    assert(key_class(sebeolsik_table(t[30].0, t[30].1)) == Some((t[30].2, t[30].3 as u32)));
    assert(key_class(sebeolsik_table(t[31].0, t[31].1)) == Some((t[31].2, t[31].3 as u32)));
    assert(key_class(sebeolsik_table(t[32].0, t[32].1)) == Some((t[32].2, t[32].3 as u32)));
    assert(key_class(sebeolsik_table(t[33].0, t[33].1)) == Some((t[33].2, t[33].3 as u32)));
    assert(key_class(sebeolsik_table(t[34].0, t[34].1)) == Some((t[34].2, t[34].3 as u32)));
    assert(key_class(sebeolsik_table(t[35].0, t[35].1)) == Some((t[35].2, t[35].3 as u32)));
    assert(key_class(sebeolsik_table(t[36].0, t[36].1)) == Some((t[36].2, t[36].3 as u32)));
    assert(key_class(sebeolsik_table(t[37].0, t[37].1)) == Some((t[37].2, t[37].3 as u32)));
    assert(key_class(sebeolsik_table(t[38].0, t[38].1)) == Some((t[38].2, t[38].3 as u32)));
    assert(key_class(sebeolsik_table(t[39].0, t[39].1)) == Some((t[39].2, t[39].3 as u32)));
    assert(key_class(sebeolsik_table(t[40].0, t[40].1)) == Some((t[40].2, t[40].3 as u32)));
    assert(key_class(sebeolsik_table(t[41].0, t[41].1)) == Some((t[41].2, t[41].3 as u32)));
    assert(key_class(sebeolsik_table(t[42].0, t[42].1)) == Some((t[42].2, t[42].3 as u32)));
    assert(key_class(sebeolsik_table(t[43].0, t[43].1)) == Some((t[43].2, t[43].3 as u32)));
    assert(key_class(sebeolsik_table(t[44].0, t[44].1)) == Some((t[44].2, t[44].3 as u32)));
    assert(key_class(sebeolsik_table(t[45].0, t[45].1)) == Some((t[45].2, t[45].3 as u32)));
    assert(key_class(sebeolsik_table(t[46].0, t[46].1)) == Some((t[46].2, t[46].3 as u32)));
    assert(key_class(sebeolsik_table(t[47].0, t[47].1)) == Some((t[47].2, t[47].3 as u32)));
    assert(key_class(sebeolsik_table(t[48].0, t[48].1)) == Some((t[48].2, t[48].3 as u32)));
    assert(key_class(sebeolsik_table(t[49].0, t[49].1)) == Some((t[49].2, t[49].3 as u32)));
    assert(key_class(sebeolsik_table(t[50].0, t[50].1)) == Some((t[50].2, t[50].3 as u32)));
    assert(key_class(sebeolsik_table(t[51].0, t[51].1)) == Some((t[51].2, t[51].3 as u32)));
    assert forall|k: int| 0 <= k < 52 implies key_class(sebeolsik_table((#[trigger] t[k]).0, t[k].1)) == Some((t[k].2, t[k].3 as u32)) by {
        if k == 0 {} else if k == 1 {} else if k == 2 {} else if k == 3 {} else if k == 4 {} else if k == 5 {} else if k == 6 {} else if k == 7 {} else if k == 8 {} else if k == 9 {} else if k == 10 {} else if k == 11 {} else if k == 12 {} else if k == 13 {} else if k == 14 {} else if k == 15 {} else if k == 16 {} else if k == 17 {} else if k == 18 {} else if k == 19 {} else if k == 20 {} else if k == 21 {} else if k == 22 {} else if k == 23 {} else if k == 24 {} else if k == 25 {} else if k == 26 {} else if k == 27 {} else if k == 28 {} else if k == 29 {} else if k == 30 {} else if k == 31 {} else if k == 32 {} else if k == 33 {} else if k == 34 {} else if k == 35 {} else if k == 36 {} else if k == 37 {} else if k == 38 {} else if k == 39 {} else if k == 40 {} else if k == 41 {} else if k == 42 {} else if k == 43 {} else if k == 44 {} else if k == 45 {} else if k == 46 {} else if k == 47 {} else if k == 48 {} else if k == 49 {} else if k == 50 {} else if k == 51 {}
    }
}

/// The 세벌식 390 layout follows its legend, off its legend: a key and Shift state that [`sebeolsik_390_legend`]
/// does not list is passed through.
#[verifier::rlimit(100)]
pub proof fn lemma_sebeolsik_390_legend_unlisted(code: KeyCode, shift: bool)
    ensures
        !(exists|k: int| 0 <= k < sebeolsik_390_legend().len() && (#[trigger] sebeolsik_390_legend()[k]).0 == code && sebeolsik_390_legend()[k].1 == shift) ==> sebeolsik_table(code, shift) == LayoutOutput::Passthrough,
{
    let t = sebeolsik_390_legend();
    if code == KeyCode::Digit1 && shift == false {
        assert(t[0].0 == code && t[0].1 == shift);
    } else if code == KeyCode::Digit2 && shift == false {
        assert(t[1].0 == code && t[1].1 == shift);
    } else if code == KeyCode::Digit3 && shift == false {
        assert(t[2].0 == code && t[2].1 == shift);
    } else if code == KeyCode::Digit4 && shift == false {
        assert(t[3].0 == code && t[3].1 == shift);
    } else if code == KeyCode::Digit5 && shift == false {
        assert(t[4].0 == code && t[4].1 == shift);
    } else if code == KeyCode::Digit6 && shift == false {
        assert(t[5].0 == code && t[5].1 == shift);
    } else if code == KeyCode::Digit7 && shift == false {
        assert(t[6].0 == code && t[6].1 == shift);
    } else if code == KeyCode::Digit8 && shift == false {
        assert(t[7].0 == code && t[7].1 == shift);
    } else if code == KeyCode::Digit9 && shift == false {
        assert(t[8].0 == code && t[8].1 == shift);
    } else if code == KeyCode::Digit0 && shift == false {
        assert(t[9].0 == code && t[9].1 == shift);
    } else if code == KeyCode::KeyQ && shift == false {
        assert(t[10].0 == code && t[10].1 == shift);
    } else if code == KeyCode::KeyW && shift == false {
        assert(t[11].0 == code && t[11].1 == shift);
    } else if code == KeyCode::KeyE && shift == false {
        assert(t[12].0 == code && t[12].1 == shift);
    } else if code == KeyCode::KeyR && shift == false {
        assert(t[13].0 == code && t[13].1 == shift);
    } else if code == KeyCode::KeyT && shift == false {
        assert(t[14].0 == code && t[14].1 == shift);
    } else if code == KeyCode::KeyY && shift == false {
        assert(t[15].0 == code && t[15].1 == shift);
    } else if code == KeyCode::KeyU && shift == false {
        assert(t[16].0 == code && t[16].1 == shift);
    } else if code == KeyCode::KeyI && shift == false {
        assert(t[17].0 == code && t[17].1 == shift);
    } else if code == KeyCode::KeyO && shift == false {
        assert(t[18].0 == code && t[18].1 == shift);
    } else if code == KeyCode::KeyP && shift == false {
        assert(t[19].0 == code && t[19].1 == shift);
    } else if code == KeyCode::KeyA && shift == false {
        assert(t[20].0 == code && t[20].1 == shift);
    } else if code == KeyCode::KeyS && shift == false {
        assert(t[21].0 == code && t[21].1 == shift);
    } else if code == KeyCode::KeyD && shift == false {
        assert(t[22].0 == code && t[22].1 == shift);
    } else if code == KeyCode::KeyF && shift == false {
        assert(t[23].0 == code && t[23].1 == shift);
    } else if code == KeyCode::KeyG && shift == false {
        assert(t[24].0 == code && t[24].1 == shift);
    } else if code == KeyCode::KeyH && shift == false {
        assert(t[25].0 == code && t[25].1 == shift);
    } else if code == KeyCode::KeyJ && shift == false {
        assert(t[26].0 == code && t[26].1 == shift);
    } else if code == KeyCode::KeyK && shift == false {
        assert(t[27].0 == code && t[27].1 == shift);
    } else if code == KeyCode::KeyL && shift == false {
        assert(t[28].0 == code && t[28].1 == shift);
    } else if code == KeyCode::Semicolon && shift == false {
        assert(t[29].0 == code && t[29].1 == shift);
    } else if code == KeyCode::Quote && shift == false {
        assert(t[30].0 == code && t[30].1 == shift);
    } else if code == KeyCode::KeyZ && shift == false {
        assert(t[31].0 == code && t[31].1 == shift);
    } else if code == KeyCode::KeyX && shift == false {
        assert(t[32].0 == code && t[32].1 == shift);
    } else if code == KeyCode::KeyC && shift == false {
        assert(t[33].0 == code && t[33].1 == shift);
    } else if code == KeyCode::KeyV && shift == false {
        assert(t[34].0 == code && t[34].1 == shift);
    } else if code == KeyCode::KeyB && shift == false {
        assert(t[35].0 == code && t[35].1 == shift);
    } else if code == KeyCode::KeyN && shift == false {
        assert(t[36].0 == code && t[36].1 == shift);
    } else if code == KeyCode::KeyM && shift == false {
        assert(t[37].0 == code && t[37].1 == shift);
    } else if code == KeyCode::Slash && shift == false {
        assert(t[38].0 == code && t[38].1 == shift);
    } else if code == KeyCode::Digit1 && shift == true {
        assert(t[39].0 == code && t[39].1 == shift);
    } else if code == KeyCode::KeyA && shift == true {
        assert(t[40].0 == code && t[40].1 == shift);
    } else if code == KeyCode::KeyC && shift == true {
        assert(t[41].0 == code && t[41].1 == shift);
    } else if code == KeyCode::KeyD && shift == true {
        assert(t[42].0 == code && t[42].1 == shift);
    } else if code == KeyCode::KeyE && shift == true {
        assert(t[43].0 == code && t[43].1 == shift);
    } else if code == KeyCode::KeyF && shift == true {
        assert(t[44].0 == code && t[44].1 == shift);
    } else if code == KeyCode::KeyQ && shift == true {
        assert(t[45].0 == code && t[45].1 == shift);
    } else if code == KeyCode::KeyR && shift == true {
        assert(t[46].0 == code && t[46].1 == shift);
    } else if code == KeyCode::KeyS && shift == true {
        assert(t[47].0 == code && t[47].1 == shift);
    } else if code == KeyCode::KeyV && shift == true {
        assert(t[48].0 == code && t[48].1 == shift);
    } else if code == KeyCode::KeyW && shift == true {
        assert(t[49].0 == code && t[49].1 == shift);
    } else if code == KeyCode::KeyX && shift == true {
        assert(t[50].0 == code && t[50].1 == shift);
    } else if code == KeyCode::KeyZ && shift == true {
        assert(t[51].0 == code && t[51].1 == shift);
    }
}

/// The 세벌식 최종 legend: (key, Shift held, role, letter). The role is `c` for an
/// initial, `f` for a final, `v` for a vowel, `d` for a two-set consonant
/// (its initial and final, of the same letter) and `x` for a character
/// typed as is; the letter is the compatibility jamo printed on the key,
/// or the character.
pub open spec fn sebeolsik_final_legend() -> Seq<(KeyCode, bool, char, char)> {
    seq![
        (KeyCode::Digit1, false, 'f', 'ㅎ'),
        (KeyCode::Digit2, false, 'f', 'ㅆ'),
        (KeyCode::Digit3, false, 'f', 'ㅂ'),
        (KeyCode::Digit4, false, 'v', 'ㅛ'),
        (KeyCode::Digit5, false, 'v', 'ㅠ'),
        (KeyCode::Digit6, false, 'v', 'ㅑ'),
        (KeyCode::Digit7, false, 'v', 'ㅖ'),
        (KeyCode::Digit8, false, 'v', 'ㅢ'),
        (KeyCode::Digit9, false, 'v', 'ㅜ'),
        (KeyCode::Digit0, false, 'c', 'ㅋ'),
        (KeyCode::KeyQ, false, 'f', 'ㅅ'),
        (KeyCode::KeyW, false, 'f', 'ㄹ'),
        (KeyCode::KeyE, false, 'v', 'ㅕ'),
        (KeyCode::KeyR, false, 'v', 'ㅐ'),
        (KeyCode::KeyT, false, 'v', 'ㅓ'),
        (KeyCode::KeyY, false, 'c', 'ㄹ'),
        (KeyCode::KeyU, false, 'c', 'ㄷ'),
        (KeyCode::KeyI, false, 'c', 'ㅁ'),
        (KeyCode::KeyO, false, 'c', 'ㅊ'),
        (KeyCode::KeyP, false, 'c', 'ㅍ'),
        (KeyCode::KeyA, false, 'f', 'ㅇ'),
        (KeyCode::KeyS, false, 'f', 'ㄴ'),
        (KeyCode::KeyD, false, 'v', 'ㅣ'),
        (KeyCode::KeyF, false, 'v', 'ㅏ'),
        (KeyCode::KeyG, false, 'v', 'ㅡ'),
        (KeyCode::KeyH, false, 'c', 'ㄴ'),
        (KeyCode::KeyJ, false, 'c', 'ㅇ'),
        (KeyCode::KeyK, false, 'c', 'ㄱ'),
        (KeyCode::KeyL, false, 'c', 'ㅈ'),
        (KeyCode::Semicolon, false, 'c', 'ㅂ'),
        (KeyCode::Quote, false, 'c', 'ㅌ'),
        (KeyCode::KeyZ, false, 'f', 'ㅁ'),
        (KeyCode::KeyX, false, 'f', 'ㄱ'),
        (KeyCode::KeyC, false, 'v', 'ㅔ'),
        (KeyCode::KeyV, false, 'v', 'ㅗ'),
        (KeyCode::KeyB, false, 'v', 'ㅜ'),
        (KeyCode::KeyN, false, 'c', 'ㅅ'),
        (KeyCode::KeyM, false, 'c', 'ㅎ'),
        (KeyCode::Slash, false, 'v', 'ㅗ'),
        (KeyCode::Digit1, true, 'f', 'ㄲ'),
        (KeyCode::Digit2, true, 'f', 'ㄺ'),
        (KeyCode::Digit3, true, 'f', 'ㅈ'),
        (KeyCode::Digit4, true, 'f', 'ㄿ'),
        (KeyCode::Digit5, true, 'f', 'ㄾ'),
        (KeyCode::KeyA, true, 'f', 'ㄷ'),
        (KeyCode::KeyC, true, 'f', 'ㅋ'),
        (KeyCode::KeyD, true, 'f', 'ㄼ'),
        (KeyCode::KeyE, true, 'f', 'ㄵ'),
        (KeyCode::KeyF, true, 'f', 'ㄻ'),
        (KeyCode::KeyG, true, 'v', 'ㅒ'),
        (KeyCode::KeyQ, true, 'f', 'ㅍ'),
        (KeyCode::KeyR, true, 'f', 'ㅀ'),
        (KeyCode::KeyS, true, 'f', 'ㄶ'),
        (KeyCode::KeyT, true, 'f', 'ㄽ'),
        (KeyCode::KeyV, true, 'f', 'ㄳ'),
        (KeyCode::KeyW, true, 'f', 'ㅌ'),
        (KeyCode::KeyX, true, 'f', 'ㅄ'),
        (KeyCode::KeyZ, true, 'f', 'ㅊ'),
        (KeyCode::KeyY, true, 'x', '5'),
        (KeyCode::KeyU, true, 'x', '6'),
        (KeyCode::KeyI, true, 'x', '7'),
        (KeyCode::KeyO, true, 'x', '8'),
        (KeyCode::KeyP, true, 'x', '9'),
        (KeyCode::KeyH, true, 'x', '0'),
        (KeyCode::KeyJ, true, 'x', '1'),
        (KeyCode::KeyK, true, 'x', '2'),
        (KeyCode::KeyL, true, 'x', '3'),
    ]
}

#[verifier::rlimit(100)]
proof fn lemma_sebeolsik_final_legend_matches_head()
    ensures
        forall|k: int| 0 <= k < 33 ==> key_class(sebeolsik_final_table((#[trigger] sebeolsik_final_legend()[k]).0, sebeolsik_final_legend()[k].1)) == Some((sebeolsik_final_legend()[k].2, sebeolsik_final_legend()[k].3 as u32)),
{
    let t = sebeolsik_final_legend();
    assert(key_class(sebeolsik_final_table(t[0].0, t[0].1)) == Some((t[0].2, t[0].3 as u32)));
    assert(key_class(sebeolsik_final_table(t[1].0, t[1].1)) == Some((t[1].2, t[1].3 as u32)));
    assert(key_class(sebeolsik_final_table(t[2].0, t[2].1)) == Some((t[2].2, t[2].3 as u32)));
    assert(key_class(sebeolsik_final_table(t[3].0, t[3].1)) == Some((t[3].2, t[3].3 as u32)));
    assert(key_class(sebeolsik_final_table(t[4].0, t[4].1)) == Some((t[4].2, t[4].3 as u32)));
    assert(key_class(sebeolsik_final_table(t[5].0, t[5].1)) == Some((t[5].2, t[5].3 as u32)));
    assert(key_class(sebeolsik_final_table(t[6].0, t[6].1)) == Some((t[6].2, t[6].3 as u32)));
    assert(key_class(sebeolsik_final_table(t[7].0, t[7].1)) == Some((t[7].2, t[7].3 as u32)));
    assert(key_class(sebeolsik_final_table(t[8].0, t[8].1)) == Some((t[8].2, t[8].3 as u32)));
    assert(key_class(sebeolsik_final_table(t[9].0, t[9].1)) == Some((t[9].2, t[9].3 as u32)));
    assert(key_class(sebeolsik_final_table(t[10].0, t[10].1)) == Some((t[10].2, t[10].3 as u32)));
    assert(key_class(sebeolsik_final_table(t[11].0, t[11].1)) == Some((t[11].2, t[11].3 as u32)));
    assert(key_class(sebeolsik_final_table(t[12].0, t[12].1)) == Some((t[12].2, t[12].3 as u32)));
    assert(key_class(sebeolsik_final_table(t[13].0, t[13].1)) == Some((t[13].2, t[13].3 as u32)));
    assert(key_class(sebeolsik_final_table(t[14].0, t[14].1)) == Some((t[14].2, t[14].3 as u32)));
    assert(key_class(sebeolsik_final_table(t[15].0, t[15].1)) == Some((t[15].2, t[15].3 as u32)));
    assert(key_class(sebeolsik_final_table(t[16].0, t[16].1)) == Some((t[16].2, t[16].3 as u32)));
    assert(key_class(sebeolsik_final_table(t[17].0, t[17].1)) == Some((t[17].2, t[17].3 as u32)));
    assert(key_class(sebeolsik_final_table(t[18].0, t[18].1)) == Some((t[18].2, t[18].3 as u32)));
    assert(key_class(sebeolsik_final_table(t[19].0, t[19].1)) == Some((t[19].2, t[19].3 as u32)));
    assert(key_class(sebeolsik_final_table(t[20].0, t[20].1)) == Some((t[20].2, t[20].3 as u32)));
    assert(key_class(sebeolsik_final_table(t[21].0, t[21].1)) == Some((t[21].2, t[21].3 as u32)));
    assert(key_class(sebeolsik_final_table(t[22].0, t[22].1)) == Some((t[22].2, t[22].3 as u32)));
    assert(key_class(sebeolsik_final_table(t[23].0, t[23].1)) == Some((t[23].2, t[23].3 as u32)));
    assert(key_class(sebeolsik_final_table(t[24].0, t[24].1)) == Some((t[24].2, t[24].3 as u32)));
    assert(key_class(sebeolsik_final_table(t[25].0, t[25].1)) == Some((t[25].2, t[25].3 as u32)));
    assert(key_class(sebeolsik_final_table(t[26].0, t[26].1)) == Some((t[26].2, t[26].3 as u32)));
    assert(key_class(sebeolsik_final_table(t[27].0, t[27].1)) == Some((t[27].2, t[27].3 as u32)));
    assert(key_class(sebeolsik_final_table(t[28].0, t[28].1)) == Some((t[28].2, t[28].3 as u32)));
    assert(key_class(sebeolsik_final_table(t[29].0, t[29].1)) == Some((t[29].2, t[29].3 as u32)));
    assert(key_class(sebeolsik_final_table(t[30].0, t[30].1)) == Some((t[30].2, t[30].3 as u32)));
    assert(key_class(sebeolsik_final_table(t[31].0, t[31].1)) == Some((t[31].2, t[31].3 as u32)));
    assert(key_class(sebeolsik_final_table(t[32].0, t[32].1)) == Some((t[32].2, t[32].3 as u32)));
    assert forall|k: int| 0 <= k < 33 implies key_class(sebeolsik_final_table((#[trigger] t[k]).0, t[k].1)) == Some((t[k].2, t[k].3 as u32)) by {
        if k == 0 {} else if k == 1 {} else if k == 2 {} else if k == 3 {} else if k == 4 {} else if k == 5 {} else if k == 6 {} else if k == 7 {} else if k == 8 {} else if k == 9 {} else if k == 10 {} else if k == 11 {} else if k == 12 {} else if k == 13 {} else if k == 14 {} else if k == 15 {} else if k == 16 {} else if k == 17 {} else if k == 18 {} else if k == 19 {} else if k == 20 {} else if k == 21 {} else if k == 22 {} else if k == 23 {} else if k == 24 {} else if k == 25 {} else if k == 26 {} else if k == 27 {} else if k == 28 {} else if k == 29 {} else if k == 30 {} else if k == 31 {} else if k == 32 {}
    }
}

#[verifier::rlimit(100)]
proof fn lemma_sebeolsik_final_legend_matches_tail()
    ensures
        forall|k: int| 33 <= k < 67 ==> key_class(sebeolsik_final_table((#[trigger] sebeolsik_final_legend()[k]).0, sebeolsik_final_legend()[k].1)) == Some((sebeolsik_final_legend()[k].2, sebeolsik_final_legend()[k].3 as u32)),
{
    let t = sebeolsik_final_legend();
    assert(key_class(sebeolsik_final_table(t[33].0, t[33].1)) == Some((t[33].2, t[33].3 as u32)));
    assert(key_class(sebeolsik_final_table(t[34].0, t[34].1)) == Some((t[34].2, t[34].3 as u32)));
    assert(key_class(sebeolsik_final_table(t[35].0, t[35].1)) == Some((t[35].2, t[35].3 as u32)));
    assert(key_class(sebeolsik_final_table(t[36].0, t[36].1)) == Some((t[36].2, t[36].3 as u32)));
    assert(key_class(sebeolsik_final_table(t[37].0, t[37].1)) == Some((t[37].2, t[37].3 as u32)));
    assert(key_class(sebeolsik_final_table(t[38].0, t[38].1)) == Some((t[38].2, t[38].3 as u32)));
    assert(key_class(sebeolsik_final_table(t[39].0, t[39].1)) == Some((t[39].2, t[39].3 as u32)));
    assert(key_class(sebeolsik_final_table(t[40].0, t[40].1)) == Some((t[40].2, t[40].3 as u32)));
    assert(key_class(sebeolsik_final_table(t[41].0, t[41].1)) == Some((t[41].2, t[41].3 as u32)));
    assert(key_class(sebeolsik_final_table(t[42].0, t[42].1)) == Some((t[42].2, t[42].3 as u32)));
    assert(key_class(sebeolsik_final_table(t[43].0, t[43].1)) == Some((t[43].2, t[43].3 as u32)));
    assert(key_class(sebeolsik_final_table(t[44].0, t[44].1)) == Some((t[44].2, t[44].3 as u32)));
    assert(key_class(sebeolsik_final_table(t[45].0, t[45].1)) == Some((t[45].2, t[45].3 as u32)));
    assert(key_class(sebeolsik_final_table(t[46].0, t[46].1)) == Some((t[46].2, t[46].3 as u32)));
    assert(key_class(sebeolsik_final_table(t[47].0, t[47].1)) == Some((t[47].2, t[47].3 as u32)));
    assert(key_class(sebeolsik_final_table(t[48].0, t[48].1)) == Some((t[48].2, t[48].3 as u32)));
    assert(key_class(sebeolsik_final_table(t[49].0, t[49].1)) == Some((t[49].2, t[49].3 as u32)));
    assert(key_class(sebeolsik_final_table(t[50].0, t[50].1)) == Some((t[50].2, t[50].3 as u32)));
    assert(key_class(sebeolsik_final_table(t[51].0, t[51].1)) == Some((t[51].2, t[51].3 as u32)));
    assert(key_class(sebeolsik_final_table(t[52].0, t[52].1)) == Some((t[52].2, t[52].3 as u32)));
    assert(key_class(sebeolsik_final_table(t[53].0, t[53].1)) == Some((t[53].2, t[53].3 as u32)));
    assert(key_class(sebeolsik_final_table(t[54].0, t[54].1)) == Some((t[54].2, t[54].3 as u32)));
    assert(key_class(sebeolsik_final_table(t[55].0, t[55].1)) == Some((t[55].2, t[55].3 as u32)));
    assert(key_class(sebeolsik_final_table(t[56].0, t[56].1)) == Some((t[56].2, t[56].3 as u32)));
    assert(key_class(sebeolsik_final_table(t[57].0, t[57].1)) == Some((t[57].2, t[57].3 as u32)));
    assert(key_class(sebeolsik_final_table(t[58].0, t[58].1)) == Some((t[58].2, t[58].3 as u32)));
    assert(key_class(sebeolsik_final_table(t[59].0, t[59].1)) == Some((t[59].2, t[59].3 as u32)));
    assert(key_class(sebeolsik_final_table(t[60].0, t[60].1)) == Some((t[60].2, t[60].3 as u32)));
    assert(key_class(sebeolsik_final_table(t[61].0, t[61].1)) == Some((t[61].2, t[61].3 as u32)));
    assert(key_class(sebeolsik_final_table(t[62].0, t[62].1)) == Some((t[62].2, t[62].3 as u32)));
    assert(key_class(sebeolsik_final_table(t[63].0, t[63].1)) == Some((t[63].2, t[63].3 as u32)));
    assert(key_class(sebeolsik_final_table(t[64].0, t[64].1)) == Some((t[64].2, t[64].3 as u32)));
    assert(key_class(sebeolsik_final_table(t[65].0, t[65].1)) == Some((t[65].2, t[65].3 as u32)));
    assert(key_class(sebeolsik_final_table(t[66].0, t[66].1)) == Some((t[66].2, t[66].3 as u32)));
    assert forall|k: int| 33 <= k < 67 implies key_class(sebeolsik_final_table((#[trigger] t[k]).0, t[k].1)) == Some((t[k].2, t[k].3 as u32)) by {
        if k == 33 {} else if k == 34 {} else if k == 35 {} else if k == 36 {} else if k == 37 {} else if k == 38 {} else if k == 39 {} else if k == 40 {} else if k == 41 {} else if k == 42 {} else if k == 43 {} else if k == 44 {} else if k == 45 {} else if k == 46 {} else if k == 47 {} else if k == 48 {} else if k == 49 {} else if k == 50 {} else if k == 51 {} else if k == 52 {} else if k == 53 {} else if k == 54 {} else if k == 55 {} else if k == 56 {} else if k == 57 {} else if k == 58 {} else if k == 59 {} else if k == 60 {} else if k == 61 {} else if k == 62 {} else if k == 63 {} else if k == 64 {} else if k == 65 {} else if k == 66 {}
    }
}

/// The 세벌식 최종 layout follows its legend: every key in [`sebeolsik_final_legend`] produces the jamo of the
/// printed letter in the printed role (or the printed character).
pub proof fn lemma_sebeolsik_final_legend_matches()
    ensures
        forall|k: int| 0 <= k < sebeolsik_final_legend().len() ==> key_class(sebeolsik_final_table((#[trigger] sebeolsik_final_legend()[k]).0, sebeolsik_final_legend()[k].1)) == Some((sebeolsik_final_legend()[k].2, sebeolsik_final_legend()[k].3 as u32)),
{
    lemma_sebeolsik_final_legend_matches_head();
    lemma_sebeolsik_final_legend_matches_tail();
    assert(sebeolsik_final_legend().len() == 67);
}

/// The 세벌식 최종 layout follows its legend, off its legend: a key and Shift state that [`sebeolsik_final_legend`]
/// does not list is passed through.
#[verifier::rlimit(100)]
pub proof fn lemma_sebeolsik_final_legend_unlisted(code: KeyCode, shift: bool)
    ensures
        !(exists|k: int| 0 <= k < sebeolsik_final_legend().len() && (#[trigger] sebeolsik_final_legend()[k]).0 == code && sebeolsik_final_legend()[k].1 == shift) ==> sebeolsik_final_table(code, shift) == LayoutOutput::Passthrough,
{
    let t = sebeolsik_final_legend();
    if code == KeyCode::Digit1 && shift == false {
        assert(t[0].0 == code && t[0].1 == shift);
    } else if code == KeyCode::Digit2 && shift == false {
        assert(t[1].0 == code && t[1].1 == shift);
    } else if code == KeyCode::Digit3 && shift == false {
        assert(t[2].0 == code && t[2].1 == shift);
    } else if code == KeyCode::Digit4 && shift == false {
        assert(t[3].0 == code && t[3].1 == shift);
    } else if code == KeyCode::Digit5 && shift == false {
        assert(t[4].0 == code && t[4].1 == shift);
    } else if code == KeyCode::Digit6 && shift == false {
        assert(t[5].0 == code && t[5].1 == shift);
    } else if code == KeyCode::Digit7 && shift == false {
        assert(t[6].0 == code && t[6].1 == shift);
    } else if code == KeyCode::Digit8 && shift == false {
        assert(t[7].0 == code && t[7].1 == shift);
    } else if code == KeyCode::Digit9 && shift == false {
        assert(t[8].0 == code && t[8].1 == shift);
    } else if code == KeyCode::Digit0 && shift == false {
        assert(t[9].0 == code && t[9].1 == shift);
    } else if code == KeyCode::KeyQ && shift == false {
        assert(t[10].0 == code && t[10].1 == shift);
    } else if code == KeyCode::KeyW && shift == false {
        assert(t[11].0 == code && t[11].1 == shift);
    } else if code == KeyCode::KeyE && shift == false {
        assert(t[12].0 == code && t[12].1 == shift);
    } else if code == KeyCode::KeyR && shift == false {
        assert(t[13].0 == code && t[13].1 == shift);
    } else if code == KeyCode::KeyT && shift == false {
        assert(t[14].0 == code && t[14].1 == shift);
    } else if code == KeyCode::KeyY && shift == false {
        assert(t[15].0 == code && t[15].1 == shift);
    } else if code == KeyCode::KeyU && shift == false {
        assert(t[16].0 == code && t[16].1 == shift);
    } else if code == KeyCode::KeyI && shift == false {
        assert(t[17].0 == code && t[17].1 == shift);
    } else if code == KeyCode::KeyO && shift == false {
        assert(t[18].0 == code && t[18].1 == shift);
    } else if code == KeyCode::KeyP && shift == false {
        assert(t[19].0 == code && t[19].1 == shift);
    } else if code == KeyCode::KeyA && shift == false {
        assert(t[20].0 == code && t[20].1 == shift);
    } else if code == KeyCode::KeyS && shift == false {
        assert(t[21].0 == code && t[21].1 == shift);
    } else if code == KeyCode::KeyD && shift == false {
        assert(t[22].0 == code && t[22].1 == shift);
    } else if code == KeyCode::KeyF && shift == false {
        assert(t[23].0 == code && t[23].1 == shift);
    } else if code == KeyCode::KeyG && shift == false {
        assert(t[24].0 == code && t[24].1 == shift);
    } else if code == KeyCode::KeyH && shift == false {
        assert(t[25].0 == code && t[25].1 == shift);
    } else if code == KeyCode::KeyJ && shift == false {
        assert(t[26].0 == code && t[26].1 == shift);
    } else if code == KeyCode::KeyK && shift == false {
        assert(t[27].0 == code && t[27].1 == shift);
    } else if code == KeyCode::KeyL && shift == false {
        assert(t[28].0 == code && t[28].1 == shift);
    } else if code == KeyCode::Semicolon && shift == false {
        assert(t[29].0 == code && t[29].1 == shift);
    } else if code == KeyCode::Quote && shift == false {
        assert(t[30].0 == code && t[30].1 == shift);
    } else if code == KeyCode::KeyZ && shift == false {
        assert(t[31].0 == code && t[31].1 == shift);
    } else if code == KeyCode::KeyX && shift == false {
        assert(t[32].0 == code && t[32].1 == shift);
    } else if code == KeyCode::KeyC && shift == false {
        assert(t[33].0 == code && t[33].1 == shift);
    } else if code == KeyCode::KeyV && shift == false {
        assert(t[34].0 == code && t[34].1 == shift);
    } else if code == KeyCode::KeyB && shift == false {
        assert(t[35].0 == code && t[35].1 == shift);
    } else if code == KeyCode::KeyN && shift == false {
        assert(t[36].0 == code && t[36].1 == shift);
    } else if code == KeyCode::KeyM && shift == false {
        assert(t[37].0 == code && t[37].1 == shift);
    } else if code == KeyCode::Slash && shift == false {
        assert(t[38].0 == code && t[38].1 == shift);
    } else if code == KeyCode::Digit1 && shift == true {
        assert(t[39].0 == code && t[39].1 == shift);
    } else if code == KeyCode::Digit2 && shift == true {
        assert(t[40].0 == code && t[40].1 == shift);
    } else if code == KeyCode::Digit3 && shift == true {
        assert(t[41].0 == code && t[41].1 == shift);
    } else if code == KeyCode::Digit4 && shift == true {
        assert(t[42].0 == code && t[42].1 == shift);
    } else if code == KeyCode::Digit5 && shift == true {
        assert(t[43].0 == code && t[43].1 == shift);
    } else if code == KeyCode::KeyA && shift == true {
        assert(t[44].0 == code && t[44].1 == shift);
    } else if code == KeyCode::KeyC && shift == true {
        assert(t[45].0 == code && t[45].1 == shift);
    } else if code == KeyCode::KeyD && shift == true {
        assert(t[46].0 == code && t[46].1 == shift);
    } else if code == KeyCode::KeyE && shift == true {
        assert(t[47].0 == code && t[47].1 == shift);
    } else if code == KeyCode::KeyF && shift == true {
        assert(t[48].0 == code && t[48].1 == shift);
    } else if code == KeyCode::KeyG && shift == true {
        assert(t[49].0 == code && t[49].1 == shift);
    } else if code == KeyCode::KeyQ && shift == true {
        assert(t[50].0 == code && t[50].1 == shift);
    } else if code == KeyCode::KeyR && shift == true {
        assert(t[51].0 == code && t[51].1 == shift);
    } else if code == KeyCode::KeyS && shift == true {
        assert(t[52].0 == code && t[52].1 == shift);
    } else if code == KeyCode::KeyT && shift == true {
        assert(t[53].0 == code && t[53].1 == shift);
    } else if code == KeyCode::KeyV && shift == true {
        assert(t[54].0 == code && t[54].1 == shift);
    } else if code == KeyCode::KeyW && shift == true {
        assert(t[55].0 == code && t[55].1 == shift);
    } else if code == KeyCode::KeyX && shift == true {
        assert(t[56].0 == code && t[56].1 == shift);
    } else if code == KeyCode::KeyZ && shift == true {
        assert(t[57].0 == code && t[57].1 == shift);
    } else if code == KeyCode::KeyY && shift == true {
        assert(t[58].0 == code && t[58].1 == shift);
    } else if code == KeyCode::KeyU && shift == true {
        assert(t[59].0 == code && t[59].1 == shift);
    } else if code == KeyCode::KeyI && shift == true {
        assert(t[60].0 == code && t[60].1 == shift);
    } else if code == KeyCode::KeyO && shift == true {
        assert(t[61].0 == code && t[61].1 == shift);
    } else if code == KeyCode::KeyP && shift == true {
        assert(t[62].0 == code && t[62].1 == shift);
    } else if code == KeyCode::KeyH && shift == true {
        assert(t[63].0 == code && t[63].1 == shift);
    } else if code == KeyCode::KeyJ && shift == true {
        assert(t[64].0 == code && t[64].1 == shift);
    } else if code == KeyCode::KeyK && shift == true {
        assert(t[65].0 == code && t[65].1 == shift);
    } else if code == KeyCode::KeyL && shift == true {
        assert(t[66].0 == code && t[66].1 == shift);
    }
}

/// The US QWERTY legend: (key, character, character with Shift), row by row from
/// the number row down.
pub open spec fn qwerty_legend() -> Seq<(KeyCode, char, char)> {
    seq![
        (KeyCode::Backquote, '`', '~'),
        (KeyCode::Digit1, '1', '!'),
        (KeyCode::Digit2, '2', '@'),
        (KeyCode::Digit3, '3', '#'),
        (KeyCode::Digit4, '4', '$'),
        (KeyCode::Digit5, '5', '%'),
        (KeyCode::Digit6, '6', '^'),
        (KeyCode::Digit7, '7', '&'),
        (KeyCode::Digit8, '8', '*'),
        (KeyCode::Digit9, '9', '('),
        (KeyCode::Digit0, '0', ')'),
        (KeyCode::Minus, '-', '_'),
        (KeyCode::Equal, '=', '+'),
        (KeyCode::KeyQ, 'q', 'Q'),
        (KeyCode::KeyW, 'w', 'W'),
        (KeyCode::KeyE, 'e', 'E'),
        (KeyCode::KeyR, 'r', 'R'),
        (KeyCode::KeyT, 't', 'T'),
        (KeyCode::KeyY, 'y', 'Y'),
        (KeyCode::KeyU, 'u', 'U'),
        (KeyCode::KeyI, 'i', 'I'),
        (KeyCode::KeyO, 'o', 'O'),
        (KeyCode::KeyP, 'p', 'P'),
        (KeyCode::BracketLeft, '[', '{'),
        (KeyCode::BracketRight, ']', '}'),
        (KeyCode::Backslash, '\\', '|'),
        (KeyCode::KeyA, 'a', 'A'),
        (KeyCode::KeyS, 's', 'S'),
        (KeyCode::KeyD, 'd', 'D'),
        (KeyCode::KeyF, 'f', 'F'),
        (KeyCode::KeyG, 'g', 'G'),
        (KeyCode::KeyH, 'h', 'H'),
        (KeyCode::KeyJ, 'j', 'J'),
        (KeyCode::KeyK, 'k', 'K'),
        (KeyCode::KeyL, 'l', 'L'),
        (KeyCode::Semicolon, ';', ':'),
        (KeyCode::Quote, '\'', '"'),
        (KeyCode::KeyZ, 'z', 'Z'),
        (KeyCode::KeyX, 'x', 'X'),
        (KeyCode::KeyC, 'c', 'C'),
        (KeyCode::KeyV, 'v', 'V'),
        (KeyCode::KeyB, 'b', 'B'),
        (KeyCode::KeyN, 'n', 'N'),
        (KeyCode::KeyM, 'm', 'M'),
        (KeyCode::Comma, ',', '<'),
        (KeyCode::Period, '.', '>'),
        (KeyCode::Slash, '/', '?'),
    ]
}

/// The QWERTY layout follows its legend: every key in [`qwerty_legend`] types its printed character, and its
/// shifted character with Shift; every other key types nothing.
#[verifier::rlimit(100)]
pub proof fn lemma_qwerty_legend_matches(code: KeyCode, shift: bool)
    ensures
        forall|k: int| 0 <= k < qwerty_legend().len() ==> spec_qwerty_char((#[trigger] qwerty_legend()[k]).0, false) == Some(qwerty_legend()[k].1) && spec_qwerty_char(qwerty_legend()[k].0, true) == Some(qwerty_legend()[k].2),
        !(exists|k: int| 0 <= k < qwerty_legend().len() && (#[trigger] qwerty_legend()[k]).0 == code) ==> spec_qwerty_char(code, shift) is None,
{
    let t = qwerty_legend();
    assert forall|k: int| 0 <= k < t.len() implies spec_qwerty_char((#[trigger] t[k]).0, false) == Some(t[k].1) && spec_qwerty_char(t[k].0, true) == Some(t[k].2) by {
        if k == 0 {} else if k == 1 {} else if k == 2 {} else if k == 3 {} else if k == 4 {} else if k == 5 {} else if k == 6 {} else if k == 7 {} else if k == 8 {} else if k == 9 {} else if k == 10 {} else if k == 11 {} else if k == 12 {} else if k == 13 {} else if k == 14 {} else if k == 15 {} else if k == 16 {} else if k == 17 {} else if k == 18 {} else if k == 19 {} else if k == 20 {} else if k == 21 {} else if k == 22 {} else if k == 23 {} else if k == 24 {} else if k == 25 {} else if k == 26 {} else if k == 27 {} else if k == 28 {} else if k == 29 {} else if k == 30 {} else if k == 31 {} else if k == 32 {} else if k == 33 {} else if k == 34 {} else if k == 35 {} else if k == 36 {} else if k == 37 {} else if k == 38 {} else if k == 39 {} else if k == 40 {} else if k == 41 {} else if k == 42 {} else if k == 43 {} else if k == 44 {} else if k == 45 {} else if k == 46 {}
    }
    if code == KeyCode::Backquote {
        assert(t[0].0 == code);
    } else if code == KeyCode::Digit1 {
        assert(t[1].0 == code);
    } else if code == KeyCode::Digit2 {
        assert(t[2].0 == code);
    } else if code == KeyCode::Digit3 {
        assert(t[3].0 == code);
    } else if code == KeyCode::Digit4 {
        assert(t[4].0 == code);
    } else if code == KeyCode::Digit5 {
        assert(t[5].0 == code);
    } else if code == KeyCode::Digit6 {
        assert(t[6].0 == code);
    } else if code == KeyCode::Digit7 {
        assert(t[7].0 == code);
    } else if code == KeyCode::Digit8 {
        assert(t[8].0 == code);
    } else if code == KeyCode::Digit9 {
        assert(t[9].0 == code);
    } else if code == KeyCode::Digit0 {
        assert(t[10].0 == code);
    } else if code == KeyCode::Minus {
        assert(t[11].0 == code);
    } else if code == KeyCode::Equal {
        assert(t[12].0 == code);
    } else if code == KeyCode::KeyQ {
        assert(t[13].0 == code);
    } else if code == KeyCode::KeyW {
        assert(t[14].0 == code);
    } else if code == KeyCode::KeyE {
        assert(t[15].0 == code);
    } else if code == KeyCode::KeyR {
        assert(t[16].0 == code);
    } else if code == KeyCode::KeyT {
        assert(t[17].0 == code);
    } else if code == KeyCode::KeyY {
        assert(t[18].0 == code);
    } else if code == KeyCode::KeyU {
        assert(t[19].0 == code);
    } else if code == KeyCode::KeyI {
        assert(t[20].0 == code);
    } else if code == KeyCode::KeyO {
        assert(t[21].0 == code);
    } else if code == KeyCode::KeyP {
        assert(t[22].0 == code);
    } else if code == KeyCode::BracketLeft {
        assert(t[23].0 == code);
    } else if code == KeyCode::BracketRight {
        assert(t[24].0 == code);
    } else if code == KeyCode::Backslash {
        assert(t[25].0 == code);
    } else if code == KeyCode::KeyA {
        assert(t[26].0 == code);
    } else if code == KeyCode::KeyS {
        assert(t[27].0 == code);
    } else if code == KeyCode::KeyD {
        assert(t[28].0 == code);
    } else if code == KeyCode::KeyF {
        assert(t[29].0 == code);
    } else if code == KeyCode::KeyG {
        assert(t[30].0 == code);
    } else if code == KeyCode::KeyH {
        assert(t[31].0 == code);
    } else if code == KeyCode::KeyJ {
        assert(t[32].0 == code);
    } else if code == KeyCode::KeyK {
        assert(t[33].0 == code);
    } else if code == KeyCode::KeyL {
        assert(t[34].0 == code);
    } else if code == KeyCode::Semicolon {
        assert(t[35].0 == code);
    } else if code == KeyCode::Quote {
        assert(t[36].0 == code);
    } else if code == KeyCode::KeyZ {
        assert(t[37].0 == code);
    } else if code == KeyCode::KeyX {
        assert(t[38].0 == code);
    } else if code == KeyCode::KeyC {
        assert(t[39].0 == code);
    } else if code == KeyCode::KeyV {
        assert(t[40].0 == code);
    } else if code == KeyCode::KeyB {
        assert(t[41].0 == code);
    } else if code == KeyCode::KeyN {
        assert(t[42].0 == code);
    } else if code == KeyCode::KeyM {
        assert(t[43].0 == code);
    } else if code == KeyCode::Comma {
        assert(t[44].0 == code);
    } else if code == KeyCode::Period {
        assert(t[45].0 == code);
    } else if code == KeyCode::Slash {
        assert(t[46].0 == code);
    }
}

/// The Dvorak legend: (key, character, character with Shift), row by row from
/// the number row down.
pub open spec fn dvorak_legend() -> Seq<(KeyCode, char, char)> {
    seq![
        (KeyCode::Backquote, '`', '~'),
        (KeyCode::Digit1, '1', '!'),
        (KeyCode::Digit2, '2', '@'),
        (KeyCode::Digit3, '3', '#'),
        (KeyCode::Digit4, '4', '$'),
        (KeyCode::Digit5, '5', '%'),
        (KeyCode::Digit6, '6', '^'),
        (KeyCode::Digit7, '7', '&'),
        (KeyCode::Digit8, '8', '*'),
        (KeyCode::Digit9, '9', '('),
        (KeyCode::Digit0, '0', ')'),
        (KeyCode::Minus, '[', '{'),
        (KeyCode::Equal, ']', '}'),
        (KeyCode::KeyQ, '\'', '"'),
        (KeyCode::KeyW, ',', '<'),
        (KeyCode::KeyE, '.', '>'),
        (KeyCode::KeyR, 'p', 'P'),
        (KeyCode::KeyT, 'y', 'Y'),
        (KeyCode::KeyY, 'f', 'F'),
        (KeyCode::KeyU, 'g', 'G'),
        (KeyCode::KeyI, 'c', 'C'),
        (KeyCode::KeyO, 'r', 'R'),
        (KeyCode::KeyP, 'l', 'L'),
        (KeyCode::BracketLeft, '/', '?'),
        (KeyCode::BracketRight, '=', '+'),
        (KeyCode::Backslash, '\\', '|'),
        (KeyCode::KeyA, 'a', 'A'),
        (KeyCode::KeyS, 'o', 'O'),
        (KeyCode::KeyD, 'e', 'E'),
        (KeyCode::KeyF, 'u', 'U'),
        (KeyCode::KeyG, 'i', 'I'),
        (KeyCode::KeyH, 'd', 'D'),
        (KeyCode::KeyJ, 'h', 'H'),
        (KeyCode::KeyK, 't', 'T'),
        (KeyCode::KeyL, 'n', 'N'),
        (KeyCode::Semicolon, 's', 'S'),
        (KeyCode::Quote, '-', '_'),
        (KeyCode::KeyZ, ';', ':'),
        (KeyCode::KeyX, 'q', 'Q'),
        (KeyCode::KeyC, 'j', 'J'),
        (KeyCode::KeyV, 'k', 'K'),
        (KeyCode::KeyB, 'x', 'X'),
        (KeyCode::KeyN, 'b', 'B'),
        (KeyCode::KeyM, 'm', 'M'),
        (KeyCode::Comma, 'w', 'W'),
        (KeyCode::Period, 'v', 'V'),
        (KeyCode::Slash, 'z', 'Z'),
    ]
}

/// The Dvorak layout follows its legend: every key in [`dvorak_legend`] types its printed character, and its
/// shifted character with Shift; every other key types nothing.
#[verifier::rlimit(100)]
pub proof fn lemma_dvorak_legend_matches(code: KeyCode, shift: bool)
    ensures
        forall|k: int| 0 <= k < dvorak_legend().len() ==> spec_dvorak_char((#[trigger] dvorak_legend()[k]).0, false) == Some(dvorak_legend()[k].1) && spec_dvorak_char(dvorak_legend()[k].0, true) == Some(dvorak_legend()[k].2),
        !(exists|k: int| 0 <= k < dvorak_legend().len() && (#[trigger] dvorak_legend()[k]).0 == code) ==> spec_dvorak_char(code, shift) is None,
{
    let t = dvorak_legend();
    assert forall|k: int| 0 <= k < t.len() implies spec_dvorak_char((#[trigger] t[k]).0, false) == Some(t[k].1) && spec_dvorak_char(t[k].0, true) == Some(t[k].2) by {
        if k == 0 {} else if k == 1 {} else if k == 2 {} else if k == 3 {} else if k == 4 {} else if k == 5 {} else if k == 6 {} else if k == 7 {} else if k == 8 {} else if k == 9 {} else if k == 10 {} else if k == 11 {} else if k == 12 {} else if k == 13 {} else if k == 14 {} else if k == 15 {} else if k == 16 {} else if k == 17 {} else if k == 18 {} else if k == 19 {} else if k == 20 {} else if k == 21 {} else if k == 22 {} else if k == 23 {} else if k == 24 {} else if k == 25 {} else if k == 26 {} else if k == 27 {} else if k == 28 {} else if k == 29 {} else if k == 30 {} else if k == 31 {} else if k == 32 {} else if k == 33 {} else if k == 34 {} else if k == 35 {} else if k == 36 {} else if k == 37 {} else if k == 38 {} else if k == 39 {} else if k == 40 {} else if k == 41 {} else if k == 42 {} else if k == 43 {} else if k == 44 {} else if k == 45 {} else if k == 46 {}
    }
    if code == KeyCode::Backquote {
        assert(t[0].0 == code);
    } else if code == KeyCode::Digit1 {
        assert(t[1].0 == code);
    } else if code == KeyCode::Digit2 {
        assert(t[2].0 == code);
    } else if code == KeyCode::Digit3 {
        assert(t[3].0 == code);
    } else if code == KeyCode::Digit4 {
        assert(t[4].0 == code);
    } else if code == KeyCode::Digit5 {
        assert(t[5].0 == code);
    } else if code == KeyCode::Digit6 {
        assert(t[6].0 == code);
    } else if code == KeyCode::Digit7 {
        assert(t[7].0 == code);
    } else if code == KeyCode::Digit8 {
        assert(t[8].0 == code);
    } else if code == KeyCode::Digit9 {
        assert(t[9].0 == code);
    } else if code == KeyCode::Digit0 {
        assert(t[10].0 == code);
    } else if code == KeyCode::Minus {
        assert(t[11].0 == code);
    } else if code == KeyCode::Equal {
        assert(t[12].0 == code);
    } else if code == KeyCode::KeyQ {
        assert(t[13].0 == code);
    } else if code == KeyCode::KeyW {
        assert(t[14].0 == code);
    } else if code == KeyCode::KeyE {
        assert(t[15].0 == code);
    } else if code == KeyCode::KeyR {
        assert(t[16].0 == code);
    } else if code == KeyCode::KeyT {
        assert(t[17].0 == code);
    } else if code == KeyCode::KeyY {
        assert(t[18].0 == code);
    } else if code == KeyCode::KeyU {
        assert(t[19].0 == code);
    } else if code == KeyCode::KeyI {
        assert(t[20].0 == code);
    } else if code == KeyCode::KeyO {
        assert(t[21].0 == code);
    } else if code == KeyCode::KeyP {
        assert(t[22].0 == code);
    } else if code == KeyCode::BracketLeft {
        assert(t[23].0 == code);
    } else if code == KeyCode::BracketRight {
        assert(t[24].0 == code);
    } else if code == KeyCode::Backslash {
        assert(t[25].0 == code);
    } else if code == KeyCode::KeyA {
        assert(t[26].0 == code);
    } else if code == KeyCode::KeyS {
        assert(t[27].0 == code);
    } else if code == KeyCode::KeyD {
        assert(t[28].0 == code);
    } else if code == KeyCode::KeyF {
        assert(t[29].0 == code);
    } else if code == KeyCode::KeyG {
        assert(t[30].0 == code);
    } else if code == KeyCode::KeyH {
        assert(t[31].0 == code);
    } else if code == KeyCode::KeyJ {
        assert(t[32].0 == code);
    } else if code == KeyCode::KeyK {
        assert(t[33].0 == code);
    } else if code == KeyCode::KeyL {
        assert(t[34].0 == code);
    } else if code == KeyCode::Semicolon {
        assert(t[35].0 == code);
    } else if code == KeyCode::Quote {
        assert(t[36].0 == code);
    } else if code == KeyCode::KeyZ {
        assert(t[37].0 == code);
    } else if code == KeyCode::KeyX {
        assert(t[38].0 == code);
    } else if code == KeyCode::KeyC {
        assert(t[39].0 == code);
    } else if code == KeyCode::KeyV {
        assert(t[40].0 == code);
    } else if code == KeyCode::KeyB {
        assert(t[41].0 == code);
    } else if code == KeyCode::KeyN {
        assert(t[42].0 == code);
    } else if code == KeyCode::KeyM {
        assert(t[43].0 == code);
    } else if code == KeyCode::Comma {
        assert(t[44].0 == code);
    } else if code == KeyCode::Period {
        assert(t[45].0 == code);
    } else if code == KeyCode::Slash {
        assert(t[46].0 == code);
    }
}

} // verus!
