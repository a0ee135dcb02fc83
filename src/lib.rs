//! Per-service network address configuration, loaded from a shared JSON
//! document with built-in defaults for anything absent or malformed.
pub mod json;
pub mod address;
pub mod config;
pub mod args;
