//! The backend's error taxonomy and its mapping to HTTP statuses and bodies.
//!
//! Storage failures and server failures answer with a generic message and
//! status 500; a missing row answers with its own message and status 404; a
//! body that failed to parse answers with its own message and status 400.

use vstd::prelude::*;
use vstd::string::StringExecFns;

verus! {

/// The backend's error kinds. The payload of `DbError` and `ActixError` is
/// the underlying error rendered as text; it is logged, never sent to the
/// client. The payload of `NotFound` and `InvalidInput` is echoed to the
/// client.
#[derive(Debug)]
pub enum EzyTutorError {
    DbError(String),
    ActixError(String),
    NotFound(String),
    InvalidInput(String),
}

/// The HTTP status that each error kind maps to.
pub open spec fn spec_status_code(e: &EzyTutorError) -> u16 {
    match e {
        EzyTutorError::DbError(_) => 500,
        EzyTutorError::ActixError(_) => 500,
        EzyTutorError::NotFound(_) => 404,
        EzyTutorError::InvalidInput(_) => 400,
    }
}

/// The `error_message` string that the uniform JSON error body carries.
pub open spec fn spec_error_message(e: &EzyTutorError) -> Seq<char> {
    match e {
        EzyTutorError::DbError(_) => "Database error"@,
        EzyTutorError::ActixError(_) => "Internal server error"@,
        EzyTutorError::NotFound(m) => m@,
        EzyTutorError::InvalidInput(m) => m@,
    }
}

impl EzyTutorError {
    pub fn status_code(&self) -> (r: u16)
        ensures
            r == spec_status_code(self),
    {
        match self {
            EzyTutorError::DbError(_) => 500,
            EzyTutorError::ActixError(_) => 500,
            EzyTutorError::NotFound(_) => 404,
            EzyTutorError::InvalidInput(_) => 400,
        }
    }

    /// The message placed in the error response body: generic for storage and
    /// server failures, the carried message for the rest.
    pub fn error_response(&self) -> (r: String)
        ensures
            r@ == spec_error_message(self),
    {
        match self {
            EzyTutorError::DbError(_) => String::from_str("Database error"),
            EzyTutorError::ActixError(_) => String::from_str("Internal server error"),
            EzyTutorError::NotFound(m) => m.clone(),
            EzyTutorError::InvalidInput(m) => m.clone(),
        }
    }
}

/// A missing row always answers 404, whatever message it carries.
pub proof fn lemma_not_found_maps_to_404(e: &EzyTutorError)
    requires
        e is NotFound,
    ensures
        spec_status_code(e) == 404,
{
}

} // verus!
