//! Retry policy for a model sampling client: error classification, backoff,
//! error descriptions, and the configuration that drives them.
//!
//! Everything here is pure: no I/O, no sleeping, no logging. The caller performs
//! the waits, the image strips and the client rebuilds that a decision asks for.

pub mod config;
pub mod error;
pub mod format;
pub mod json;
pub mod laws;
pub mod outside;
pub mod retry;
pub mod serde_helpers;
pub mod text;
