//! The models of the hub's HTTP API.

/// The models of the admission API.
pub mod admission;

/// The models of the analytics API.
pub mod analytics;

/// The models of the audit API.
pub mod audit;

/// The models of the service level agreement API.
pub mod sla;

/// The models of the swap API.
pub mod swap;

/// The models of the transfer API.
pub mod transfer;
