//! Validation core of an account registry: witness decoding into a cache of
//! entities, type-id resolution, unique-cell location, and dispatch to
//! integrity-pinned signature modules.
pub mod cache;
pub mod digest;
pub mod dispatch;
pub mod error;
pub mod locator;
pub mod tx_parser;
pub mod witness;
