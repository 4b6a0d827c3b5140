//! Species description service: fetch a species record from an upstream
//! API, pick its English description, optionally rewrite the text through a
//! transformation API, and fall back to the untranslated text when the
//! rewrite fails. This crate holds the verified decision logic of that
//! pipeline; the HTTP plumbing around it lives outside.

pub mod client_error;
pub mod config;
pub mod pipeline;
pub mod pokemon;
pub mod shakespeare;
pub mod translation;
pub mod upstream;
