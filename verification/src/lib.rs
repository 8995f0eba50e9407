//! Errors, projections and provider-call decisions of an LLM gateway core.

pub mod audio_transcription;
pub mod auth;
pub mod config;
pub mod error;
pub mod gateway;
pub mod http_utils;
pub mod messages;
pub mod ocr;
pub mod outside;
pub mod python_bridge;
pub mod text;
