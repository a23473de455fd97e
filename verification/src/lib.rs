//! Core of a text-to-speech utility: speaking-rate validation, voice
//! resolution, the playback-session lifecycle with global cancellation,
//! and the export pipeline that turns a synthesized stream into a file.
//!
//! The Windows UI, the speech engine, the media player and the file system
//! are collaborators that live outside this crate; they hand the library
//! plain values and take plain values back.

pub mod errors;
pub mod export;
pub mod rate;
pub mod request;
pub mod session;
pub mod voice;
pub mod winmsg;
