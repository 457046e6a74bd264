//! Transport-level responses, and the one place where an error kind
//! becomes one.
//!
//! An [`ApiResponse`] is the transport-agnostic shape of a reply: a
//! status code and one of the five body forms.  The serialisation into
//! a concrete wire format is outside the verified library; every field
//! that a reply carries is pinned down here.

use vstd::prelude::*;
use vstd::string::StringExecFns;
use crate::domain::Student;
use crate::error::ApiError;
use crate::error::DbError;
use crate::validation::violations_message;
use crate::validation::violations_text;

verus! {

/// Status of a successful read or write.
pub const STATUS_OK: u16 = 200;

/// Status of a successful deletion: no body.
pub const STATUS_NO_CONTENT: u16 = 204;

/// Status of a request rejected by validation.
pub const STATUS_BAD_REQUEST: u16 = 400;

/// Status when the addressed record, or the route itself, does not
/// exist.
pub const STATUS_NOT_FOUND: u16 = 404;

/// Status of an opaque internal failure.
pub const STATUS_INTERNAL_SERVER_ERROR: u16 = 500;

/// The body of a reply: one of the five shapes the surface produces.
#[derive(Debug)]
pub enum ResponseBody {
    /// Every record, for a listing.
    StudentList(Vec<Student>),
    /// One record, for a creation or an update.
    SingleStudent(Student),
    /// A failure with a detail text: validation or internal errors.
    Error { message: String, error: String },
    /// A failure with a message alone: not-found and generic failures.
    Message { message: String },
    /// No body at all, for a deletion.
    Empty,
}

/// A transport-agnostic reply.
#[derive(Debug)]
pub struct ApiResponse {
    pub status: u16,
    pub body: ResponseBody,
}

impl ApiError {
    /// Encode this error as a reply: the one, total translation of
    /// error kinds into transport responses.
    pub fn error_response(self) -> (r: ApiResponse)
        ensures
            r.status == crate::error::spec_status_code(self),
            self matches ApiError::ValidationError(v) ==> (r.body matches ResponseBody::Error {
                message,
                error,
            } && message@ == "Validation failed"@ && error@ == violations_text(v@)),
            self matches ApiError::DbError(DbError::NotFound) ==> (r.body
                matches ResponseBody::Message { message } && message@ == "Not Found"@),
            self matches ApiError::DbError(DbError::Storage(d)) ==> (r.body
                matches ResponseBody::Error { message, error } && message@
                == "Internal server error"@ && error@ == d@),
    {
        match self {
            ApiError::ValidationError(v) => ApiResponse {
                status: STATUS_BAD_REQUEST,
                body: ResponseBody::Error {
                    message: String::from_str("Validation failed"),
                    error: violations_message(&v),
                },
            },
            ApiError::DbError(DbError::NotFound) => ApiResponse {
                status: STATUS_NOT_FOUND,
                body: ResponseBody::Message { message: String::from_str("Not Found") },
            },
            ApiError::DbError(DbError::Storage(detail)) => ApiResponse {
                status: STATUS_INTERNAL_SERVER_ERROR,
                body: ResponseBody::Error {
                    message: String::from_str("Internal server error"),
                    error: detail,
                },
            },
        }
    }
}

} // verus!
