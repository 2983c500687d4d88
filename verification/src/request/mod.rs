//! Constants of the request side of the hub APIs.

/// The hosts of the public hubs.
pub mod constants;

/// The HTTP request API.
pub mod http;
