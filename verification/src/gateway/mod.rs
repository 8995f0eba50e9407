//! The HTTP and websocket gateway: how failures are answered and how OCR
//! calls are carried out.

pub mod error;
pub mod ocr;

pub use error::{Error, Projection};
