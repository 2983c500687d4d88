//! Typed data models and codecs for the Liquidity Network hub APIs.
//!
//! The crate gives client code a strongly typed view of every payload the hub
//! emits or accepts, together with the few domain invariants the hub enforces,
//! so that a malformed request is refused before it is sent.

/// The addresses of the public hubs.
pub mod constants;

/// Readers and writers of the plain values of a record.
pub mod codec;

/// The error type shared by every fallible operation.
pub mod error;

/// JSON values and their text form.
pub mod json;

/// The data models of the hub APIs.
pub mod model;

/// Constants of the request side of the hub APIs.
pub mod request;

/// Other names of the scalar types.
pub mod utils;
