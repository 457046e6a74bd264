//! The closed union of error kinds threaded through the layers.
//!
//! A store raises the most specific kind it can determine
//! ([`DbError::NotFound`] against an opaque [`DbError::Storage`]); the
//! service adds only [`ApiError::ValidationError`] and otherwise
//! carries the store's kind unmodified; the handler is the only layer
//! that translates a kind into a transport status, exactly once, by
//! inspecting the kind and never the text.

use vstd::prelude::*;
use crate::validation::Violation;

verus! {

/// Error kinds a store raises.
#[derive(Debug)]
pub enum DbError {
    /// The addressed record does not exist.
    NotFound,
    /// Opaque failure of the storage engine, never classified further,
    /// carrying the engine's own description.
    Storage(String),
}

/// Every failure a request can surface, as one closed union.
#[derive(Debug)]
pub enum ApiError {
    /// One or more field rules were violated before persistence.
    ValidationError(Vec<Violation>),
    /// A store raised an error, carried unmodified.
    DbError(DbError),
}

/// The one, total mapping from error kind to transport status family:
/// a validation failure is the caller's to correct, a missing record is
/// addressable, everything else is internal.
pub open spec fn spec_status_code(e: ApiError) -> u16 {
    match e {
        ApiError::ValidationError(_) => 400,
        ApiError::DbError(DbError::NotFound) => 404,
        ApiError::DbError(DbError::Storage(_)) => 500,
    }
}

impl ApiError {
    /// Transport status for this error, decided by its kind alone.
    pub fn status_code(&self) -> (code: u16)
        ensures
            code == spec_status_code(*self),
    {
        match self {
            ApiError::ValidationError(_) => 400,
            ApiError::DbError(DbError::NotFound) => 404,
            ApiError::DbError(DbError::Storage(_)) => 500,
        }
    }
}

} // verus!
