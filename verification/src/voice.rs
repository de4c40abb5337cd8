//! Voice input: transcript deltas, the scripted backend, voice-activity
//! gating and the session that turns utterances into predication tokens.

pub mod error;
pub mod backend;
pub mod config;
pub mod token;
pub mod vad;
pub mod session;
pub mod audio;
