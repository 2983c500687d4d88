//! The HTTP request API of the hub.

/// The error codes of the admission API.
pub mod admission;

/// The shape of the errors that the HTTP API reports.
pub mod error;

/// The error codes of the swap API.
pub mod swap;

/// The error codes of the transfer API.
pub mod transfer;

/// The error codes of every endpoint, by endpoint.
pub mod codes;
