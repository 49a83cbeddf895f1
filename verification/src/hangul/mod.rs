//! Hangul jamo types, composition tables, the composition state machine
//! and output-form conversion.
pub mod compose;
pub mod fsm;
pub mod jamo;
pub mod letters;
pub mod output;
