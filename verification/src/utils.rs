//! Other names of the scalar types.

pub use crate::model::scalar::DateTime;
use crate::model::scalar::{Uri, Uuid};
use vstd::prelude::*;

verus! {

/// A UUID of any version.
pub type UUID = Uuid;

/// An RFC 3986 URI.
pub type URI = Uri;

} // verus!
