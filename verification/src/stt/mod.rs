//! Speech to text.
pub mod routes;
pub mod whisper;
