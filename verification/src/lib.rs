//! Typed catalog definitions shared across a family of command-line tools:
//! exit codes with per-variant metadata, closed string-tagged enumerations
//! for encoding, hashing and archiving, and the structured payloads those
//! tools exchange as JSON.

pub mod codec;
pub mod exit_codes;
pub mod fulencode;
pub mod fulhash;
pub mod fulpack;
pub mod json;

