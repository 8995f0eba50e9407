//! Optical character recognition through provider APIs.

pub mod types;
pub mod transformation;
pub mod auth;
pub mod handler;
