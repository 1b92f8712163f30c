//! Voice-to-text capture pipeline: the decision logic of capture, transcription
//! and delivery, stated and proved over plain values.

pub mod api;
pub mod audio;
pub mod clipboard;
pub mod config;
pub mod normalizer;
pub mod pipeline;
pub mod probe;
pub mod text;
pub mod text_injection;
pub mod transcription;
pub mod ui;
pub mod whisper;
