#![allow(unused_imports)]
use lib_ime::{Cho, JamoInput, Jong, Jung};

#[test]
fn range_bounds_match_spec() {
    assert_eq!(Cho::COUNT, 19);
    assert_eq!(Jung::COUNT, 21);
    assert_eq!(Jong::COUNT, 27);
}

#[test]
fn from_codepoint_rejects_out_of_range() {
    assert!(Cho::from_codepoint(0x10FF).is_none());
    assert!(Cho::from_codepoint(0x1113).is_none());
    assert!(Jung::from_codepoint(0x1160).is_none());
    assert!(Jong::from_codepoint(0x11A7).is_none());
}

#[test]
fn round_trip_codepoints() {
    let c = Cho::from_codepoint(0x1100).unwrap();
    assert_eq!(c.codepoint(), 0x1100);
    assert_eq!(c.index(), 0);
    let j = Jong::from_codepoint(0x11C2).unwrap();
    assert_eq!(j.composition_index(), 27);
}
