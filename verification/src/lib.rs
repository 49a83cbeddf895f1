//! Core input engine for a Hangul-aware markdown editor.
//!
//! Provides the Hangul composition state machine, conjoining-Jamo types,
//! output-form conversion, keyboard layouts, the abbreviation
//! (autocomplete) engine, and the per-window input session that ties them
//! together.
//!
//! Composition state is always held in Unicode *Hangul Jamo* conjoining
//! forms (U+1100..=U+11FF); the output form (conjoining, NFC syllables or
//! compatibility Jamo) is chosen at commit time via [`OutputForm`].
pub mod text;
pub mod hangul;
pub mod layout;
pub mod abbr;
pub mod session;
pub mod settings;
pub mod ngram;
pub mod demo;
pub mod timestamp;
pub mod files;
pub mod menu;

pub use abbr::{
    starter_dict, AbbrEvent, Abbreviation, AbbreviationEngine, Suggestion, Trigger, TriggerEvent,
};
pub use hangul::compose;
pub use hangul::fsm::{ComposeMode, CompositionState, FeedOptions, FsmEvent, HangulFsm};
pub use hangul::jamo::{Cho, JamoInput, Jong, Jung};
pub use hangul::output::{to_compat_jamo, to_display_text, to_nfc_syllable, OutputForm};
pub use layout::custom::{build_layout, parse_keycode, CustomLayout, CustomLayoutFile, LoadError};
pub use layout::dubeolsik::Dubeolsik;
pub use layout::key::{KeyCode, KeyEvent, Modifiers};
pub use layout::latin::{Dvorak, Qwerty};
pub use layout::sebeolsik::Sebeolsik390;
pub use layout::sebeolsik_final::SebeolsikFinal;
pub use layout::{Layout, LayoutKind, LayoutOutput};
