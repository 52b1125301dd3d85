//! Environment-driven configuration for backend connection pools.
//!
//! The crate resolves pool sizes and connection URLs from raw
//! environment values (with documented defaults), validates the
//! resulting configuration, and pairs each backend's URL with a
//! pool handle built by the backing pooling library.

pub mod config;
pub mod parse;
pub mod source;
