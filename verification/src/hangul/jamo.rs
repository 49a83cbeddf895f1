//! Hangul Jamo newtypes.
//!
//! Internal state is always represented as Unicode *Hangul Jamo*
//! conjoining forms (U+1100..=U+11FF). The three roles — initial (Cho),
//! medial (Jung) and final (Jong) — each have a disjoint conjoining code
//! range, so a newtype per role keeps the roles apart.
use vstd::prelude::*;

verus! {

/// Whether `cp` is a conjoining initial consonant (U+1100..=U+1112).
pub open spec fn is_cho_cp(cp: u32) -> bool {
    0x1100 <= cp && cp <= 0x1112
}

/// Whether `cp` is a conjoining medial vowel (U+1161..=U+1175).
pub open spec fn is_jung_cp(cp: u32) -> bool {
    0x1161 <= cp && cp <= 0x1175
}

/// Whether `cp` is a conjoining final consonant (U+11A8..=U+11C2).
pub open spec fn is_jong_cp(cp: u32) -> bool {
    0x11A8 <= cp && cp <= 0x11C2
}

/// Initial consonant. Conjoining range: `U+1100..=U+1112` (19 values).
#[derive(Copy, Clone, Debug, PartialEq, Eq, Hash, Structural)]
pub struct Cho(u32);

impl View for Cho {
    type V = u32;

    closed spec fn view(&self) -> u32 {
        self.0
    }
}

impl Cho {
    /// First conjoining code point in the Cho range.
    pub const FIRST: u32 = 0x1100;
    /// Last conjoining code point in the Cho range.
    pub const LAST: u32 = 0x1112;
    /// Number of initial consonants (19).
    pub const COUNT: u32 = 19;

    /// Whether the value lies in the Cho range.
    pub open spec fn wf(self) -> bool {
        is_cho_cp(self@)
    }

    /// The Cho whose code point is `cp` (a spec-level constructor).
    pub closed spec fn spec_new(cp: u32) -> Cho {
        Cho(cp)
    }

    pub broadcast proof fn lemma_spec_new(cp: u32)
        ensures
            (#[trigger] Cho::spec_new(cp))@ == cp,
    {
    }

    pub broadcast proof fn lemma_view_injective(a: Cho, b: Cho)
        ensures
            (#[trigger] a@ == #[trigger] b@) ==> a == b,
    {
    }

    /// Construct from a raw code point if it lies in the Cho range.
    pub fn from_codepoint(cp: u32) -> (r: Option<Self>)
        ensures
            r is Some <==> is_cho_cp(cp),
            r matches Some(c) ==> c@ == cp && c == Cho::spec_new(cp),
    {
        if Self::FIRST <= cp && cp <= Self::LAST {
            Some(Cho(cp))
        } else {
            None
        }
    }

    /// Zero-based index into the 19-element Cho table.
    pub fn index(self) -> (r: u32)
        requires
            self.wf(),
        ensures
            r == self@ - 0x1100,
    {
        self.0 - Self::FIRST
    }

    /// Conjoining code point.
    pub fn codepoint(self) -> (r: u32)
        ensures
            r == self@,
    {
        self.0
    }
}

/// Medial vowel. Conjoining range: `U+1161..=U+1175` (21 values).
#[derive(Copy, Clone, Debug, PartialEq, Eq, Hash, Structural)]
pub struct Jung(u32);

impl View for Jung {
    type V = u32;

    closed spec fn view(&self) -> u32 {
        self.0
    }
}

impl Jung {
    /// First conjoining code point in the Jung range.
    pub const FIRST: u32 = 0x1161;
    /// Last conjoining code point in the Jung range.
    pub const LAST: u32 = 0x1175;
    /// Number of medial vowels (21).
    pub const COUNT: u32 = 21;

    /// Whether the value lies in the Jung range.
    pub open spec fn wf(self) -> bool {
        is_jung_cp(self@)
    }

    /// The Jung whose code point is `cp` (a spec-level constructor).
    pub closed spec fn spec_new(cp: u32) -> Jung {
        Jung(cp)
    }

    pub broadcast proof fn lemma_spec_new(cp: u32)
        ensures
            (#[trigger] Jung::spec_new(cp))@ == cp,
    {
    }

    pub broadcast proof fn lemma_view_injective(a: Jung, b: Jung)
        ensures
            (#[trigger] a@ == #[trigger] b@) ==> a == b,
    {
    }

    /// Construct from a raw code point if it lies in the Jung range.
    pub fn from_codepoint(cp: u32) -> (r: Option<Self>)
        ensures
            r is Some <==> is_jung_cp(cp),
            r matches Some(c) ==> c@ == cp && c == Jung::spec_new(cp),
    {
        if Self::FIRST <= cp && cp <= Self::LAST {
            Some(Jung(cp))
        } else {
            None
        }
    }

    /// Zero-based index into the 21-element Jung table.
    pub fn index(self) -> (r: u32)
        requires
            self.wf(),
        ensures
            r == self@ - 0x1161,
    {
        self.0 - Self::FIRST
    }

    /// Conjoining code point.
    pub fn codepoint(self) -> (r: u32)
        ensures
            r == self@,
    {
        self.0
    }
}

/// Final consonant. Conjoining range: `U+11A8..=U+11C2` (27 values).
///
/// For NFC syllable composition the "no final" slot has index 0, so a
/// present `Jong` always has composition index `1..=27`.
#[derive(Copy, Clone, Debug, PartialEq, Eq, Hash, Structural)]
pub struct Jong(u32);

impl View for Jong {
    type V = u32;

    closed spec fn view(&self) -> u32 {
        self.0
    }
}

impl Jong {
    /// First conjoining code point in the Jong range.
    pub const FIRST: u32 = 0x11A8;
    /// Last conjoining code point in the Jong range.
    pub const LAST: u32 = 0x11C2;
    /// Number of final consonants excluding the empty slot (27).
    pub const COUNT: u32 = 27;

    /// Whether the value lies in the Jong range.
    pub open spec fn wf(self) -> bool {
        is_jong_cp(self@)
    }

    /// The Jong whose code point is `cp` (a spec-level constructor).
    pub closed spec fn spec_new(cp: u32) -> Jong {
        Jong(cp)
    }

    pub broadcast proof fn lemma_spec_new(cp: u32)
        ensures
            (#[trigger] Jong::spec_new(cp))@ == cp,
    {
    }

    pub broadcast proof fn lemma_view_injective(a: Jong, b: Jong)
        ensures
            (#[trigger] a@ == #[trigger] b@) ==> a == b,
    {
    }

    /// Construct from a raw code point if it lies in the Jong range.
    pub fn from_codepoint(cp: u32) -> (r: Option<Self>)
        ensures
            r is Some <==> is_jong_cp(cp),
            r matches Some(c) ==> c@ == cp && c == Jong::spec_new(cp),
    {
        if Self::FIRST <= cp && cp <= Self::LAST {
            Some(Jong(cp))
        } else {
            None
        }
    }

    /// NFC composition index in `1..=27`. (Index `0` means "no final" and
    /// is not representable by this type.)
    pub fn composition_index(self) -> (r: u32)
        requires
            self.wf(),
        ensures
            r == self@ - 0x11A8 + 1,
    {
        self.0 - Self::FIRST + 1
    }

    /// Conjoining code point.
    pub fn codepoint(self) -> (r: u32)
        ensures
            r == self@,
    {
        self.0
    }
}

pub broadcast group group_jamo {
    Cho::lemma_spec_new,
    Cho::lemma_view_injective,
    Jung::lemma_spec_new,
    Jung::lemma_view_injective,
    Jong::lemma_spec_new,
    Jong::lemma_view_injective,
}

/// A Jamo-level input emitted by a keyboard layout when a physical key is
/// mapped.
///
/// Consonant keys are role-polymorphic: in a two-set layout the same
/// physical key produces a Cho form at syllable start and a Jong form
/// after a medial, so both conjoining code points are carried. Three-set
/// keys are single-role and leave the unused side as `None`.
#[derive(Copy, Clone, Debug, PartialEq, Eq, Structural)]
pub enum JamoInput {
    /// Consonant. At least one of `cho` / `jong` is set for a valid key.
    Cons {
        /// Conjoining Cho code point, if the key has an initial form.
        cho: Option<u32>,
        /// Conjoining Jong code point, if the key has a final form.
        jong: Option<u32>,
    },
    /// Medial vowel (conjoining Jung code point).
    Jung(u32),
}

impl JamoInput {
    /// Every code point the input carries lies in the range of its role.
    pub open spec fn wf(self) -> bool {
        match self {
            JamoInput::Cons { cho, jong } => {
                &&& (cho matches Some(c) ==> is_cho_cp(c))
                &&& (jong matches Some(t) ==> is_jong_cp(t))
            },
            JamoInput::Jung(v) => is_jung_cp(v),
        }
    }

    /// Shorthand for a two-set consonant that can act as both Cho and Jong.
    pub fn cho_dual(cho: u32, jong: u32) -> (r: Self)
        ensures
            r == (JamoInput::Cons { cho: Some(cho), jong: Some(jong) }),
    {
        Self::Cons { cho: Some(cho), jong: Some(jong) }
    }

    /// Shorthand for a Cho-only consonant.
    pub fn cho_only(cho: u32) -> (r: Self)
        ensures
            r == (JamoInput::Cons { cho: Some(cho), jong: None }),
    {
        Self::Cons { cho: Some(cho), jong: None }
    }

    /// Shorthand for a Jong-only consonant (three-set final key).
    pub fn jong_only(jong: u32) -> (r: Self)
        ensures
            r == (JamoInput::Cons { cho: None, jong: Some(jong) }),
    {
        Self::Cons { cho: None, jong: Some(jong) }
    }

    /// Shorthand for a medial vowel.
    pub fn vowel(jung: u32) -> (r: Self)
        ensures
            r == JamoInput::Jung(jung),
    {
        Self::Jung(jung)
    }
}

} // verus!
