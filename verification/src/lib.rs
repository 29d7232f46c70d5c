//! A minimal content-addressable paste store.
//!
//! Content values are mapped to short deterministic keys by the content
//! addressor ([`address`]), and key/value pairs are held by a keyed store
//! ([`cache`]) that a verified reader-writer lock makes safe to share
//! between concurrent request handlers ([`shared`]).

pub mod address;
pub mod cache;
pub mod content;
pub mod laws;
pub mod shared;
