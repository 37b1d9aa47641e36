//! Decoding of untyped on-chain instruction calls into typed, validated
//! representations: hash-derived method selectors, positional account binding
//! with an in-band sentinel for optional slots, and strict fail-fast
//! validation of the raw call before the payload codec runs.

pub mod account;
pub mod bind;
pub mod decode;
pub mod schema;
pub mod selector;
