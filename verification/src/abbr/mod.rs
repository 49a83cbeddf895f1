//! Abbreviation (autocomplete) expansion engine.
//!
//! The engine observes the stream of committed text and, when a
//! registered [`Trigger`] matches the tail of that stream, tells the host
//! to roll back the matched characters and insert the replacement body.
//!
//! * [`Trigger::ChoSeq`] — a run of conjoining initial-consonant code
//!   points (U+1100..=U+1112).
//! * [`Trigger::Literal`] — a literal word, matched at a word boundary.
//! * [`Trigger::Ending`] — a suffix (verb ending), matched anywhere.
pub mod dict;
pub mod engine;
pub mod loader;
pub mod model;

pub use dict::starter_dict;
pub use engine::{AbbrEvent, AbbreviationEngine, Suggestion};
pub use loader::{build_abbrs, AbbrEntry, LoadError};
pub use model::{Abbreviation, Trigger, TriggerEvent};
