//! Fallback speech-to-text runner.
//!
//! Given raw audio bytes and a language hint, the library plans a run over an
//! ordered list of external transcription tools: stage the audio in a uniquely
//! named temporary file, try each tool in priority order, return the first
//! usable tool output trimmed — a success is never an empty transcript —
//! and instruct the caller to remove every temporary artifact on every exit
//! path.  The planning and bookkeeping are verified;
//! the process and file system work is left to the embedding application.

pub mod audio;
pub mod errors;
pub mod mic_mode;
pub mod model;
pub mod naming;
pub mod numerals;
pub mod probe;
pub mod runner;
pub mod text;
