//! A verified controller for a push-to-talk dictation utility.
//!
//! The library owns the session state machine that sequences recording,
//! transcription, refinement and clipboard hand-off. Every decision the
//! controller makes is a verified function from the current session state
//! (and the outcome of an outside call, passed in as a plain value) to the
//! next state and the action the caller must perform. The process, network
//! and clipboard work itself is performed by the surrounding application.

pub mod laws;
pub mod session;
