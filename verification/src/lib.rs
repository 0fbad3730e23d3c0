//! A uniform JSON response envelope for web request handlers.
//!
//! Two builders wrap a payload or an error message into the one envelope
//! shape every handler answers with, paired with a transport status code.
//! The envelope's wire format is pinned down character by character, and an
//! absent member is omitted from the text rather than written as `null`.

pub mod envelope;
pub mod json;

pub use envelope::error;
pub use envelope::success;
