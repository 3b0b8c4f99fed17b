//! Transcription submission pipeline and recording-persistence manager.
//!
//! The library covers: deterministic conversion of quantized audio samples
//! into a lossless PCM container, a hot-swappable request configuration,
//! the request/response protocol with a remote transcription provider,
//! and the save-mode-driven decision logic that determines which artifacts
//! survive a completed recording under a retention policy.

pub mod client;
pub mod config;
pub mod encoder;
pub mod errors;
pub mod persistence;
