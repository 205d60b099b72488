//! The decision-making core of a small voice assistant.
//!
//! The assistant listens to a speech recogniser's transcript stream, waits for
//! a wake phrase, records an utterance, sends it through a remote pipeline
//! (transcription, dialogue, speech synthesis) and plays the answer. All of
//! the waiting is done by the caller; this crate decides what happens next.

pub mod akane;
pub mod config;
pub mod document;
pub mod kotonoha_client;
pub mod text;
pub mod transcript;
