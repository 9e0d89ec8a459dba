//! A minimal note-keeping service core: configuration defaults, the pure
//! request-handling logic of its three routes, and the JSON bodies it answers
//! with. The surrounding process (HTTP listener, database driver) lives
//! outside this crate and hands the handlers plain values.

pub mod config;
pub mod handlers;
pub mod json;
pub mod laws;
pub mod notes;
mod strutil;
