//! A speech server's logic: configuration, transcription and synthesis.
pub mod config;
pub mod health;
pub mod server;
pub mod stt;
pub mod text;
pub mod tts;
