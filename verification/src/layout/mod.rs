//! Keyboard layout abstraction.
//!
//! A [`Layout`] translates a physical [`KeyEvent`] into a
//! [`LayoutOutput`]: a Jamo input for the Hangul FSM, a raw character for
//! Latin layouts, or a passthrough signal when the key should be handled
//! by the shortcut system or the underlying editor.
pub mod custom;
pub mod dubeolsik;
pub mod key;
pub mod legend;
pub mod latin;
pub mod sebeolsik;
pub mod sebeolsik_final;

use vstd::prelude::*;
use crate::hangul::jamo::JamoInput;
use key::KeyEvent;

verus! {

/// High-level layout family. Informational; the engine dispatches on the
/// output of [`Layout::map`], not on the kind.
#[derive(Copy, Clone, Debug, PartialEq, Eq, Structural)]
pub enum LayoutKind {
    /// Two-set Hangul layout: consonant keys carry both Cho and Jong roles.
    Dubeolsik,
    /// Three-set Hangul layout: keys are single-role.
    Sebeolsik,
    /// A Latin layout (QWERTY, Dvorak).
    Latin,
    /// A stenography (chord-based) layout.
    Steno,
    /// A user-defined layout.
    Custom,
}

/// Result of mapping one [`KeyEvent`] through a [`Layout`].
#[derive(Copy, Clone, Debug, PartialEq, Eq, Structural)]
pub enum LayoutOutput {
    /// Feed this Jamo input into the Hangul FSM.
    Jamo(JamoInput),
    /// Emit this character directly (Latin input, punctuation, etc.).
    Char(char),
    /// The layout doesn't handle this key; the caller processes it normally.
    Passthrough,
    /// The layout silently absorbed the key.
    Absorbed,
}

impl LayoutOutput {
    /// A Jamo output carries code points of the right roles.
    pub open spec fn wf(self) -> bool {
        match self {
            LayoutOutput::Jamo(j) => j.wf(),
            _ => true,
        }
    }
}

/// A keyboard layout.
///
/// Implementations are stateless; all composition state lives in the
/// Hangul FSM. Every Jamo a layout emits lies in the range of its role,
/// so it can be fed to the FSM directly.
pub trait Layout {
    /// Stable identifier used in configuration files.
    fn id(&self) -> &'static str;

    /// Human-readable name for UI display.
    fn name(&self) -> &'static str;

    /// Layout family for grouping in the UI.
    fn kind(&self) -> LayoutKind;

    /// Map one physical key event to its output.
    fn map(&self, ev: &KeyEvent) -> (out: LayoutOutput)
        ensures
            out.wf(),
    ;

    /// Whether this layout supports order-independent ("모아치기") input.
    fn supports_moachigi(&self) -> (r: bool)
        default_ensures
            !r,
    {
        false
    }
}

/// A two-set consonant key: both an initial and a final form.
pub open spec fn key_dual(cho: u32, jong: u32) -> JamoInput {
    JamoInput::Cons { cho: Some(cho), jong: Some(jong) }
}

/// An initial-only consonant key.
pub open spec fn key_cho_only(cho: u32) -> JamoInput {
    JamoInput::Cons { cho: Some(cho), jong: None }
}

/// A vowel key.
pub open spec fn key_vowel(jung: u32) -> JamoInput {
    JamoInput::Jung(jung)
}

/// A three-set initial key, as a layout output.
pub open spec fn key_cho(cp: u32) -> LayoutOutput {
    LayoutOutput::Jamo(JamoInput::Cons { cho: Some(cp), jong: None })
}

/// A three-set vowel key, as a layout output.
pub open spec fn key_jung(cp: u32) -> LayoutOutput {
    LayoutOutput::Jamo(JamoInput::Jung(cp))
}

/// A three-set final key, as a layout output.
pub open spec fn key_jong(cp: u32) -> LayoutOutput {
    LayoutOutput::Jamo(JamoInput::Cons { cho: None, jong: Some(cp) })
}

} // verus!
