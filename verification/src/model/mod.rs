//! The data models of the hub APIs.

/// Models shared by several APIs.
pub mod common;

/// Arbitrary-precision integer amounts.
pub mod decimal;

/// The models of the HTTP API.
pub mod http;

/// Identifiers, URIs and timestamps.
pub mod scalar;

/// The traits of the types that are written as JSON and read from it.
pub mod traits;

/// The models of the WebSocket API.
pub mod ws;
