//! The front end's error taxonomy and its mapping to HTTP statuses and
//! bodies. It mirrors the backend's, with a template-rendering failure in
//! place of a bad-input kind.

use vstd::prelude::*;
use vstd::string::StringExecFns;

verus! {

/// The front end's error kinds. The payload of `DbError`, `ActixError` and
/// `TeraError` is the underlying error rendered as text; it is logged, never
/// sent to the client. The payload of `NotFound` is echoed to the client.
#[derive(Debug)]
pub enum EzyTutorError {
    DbError(String),
    ActixError(String),
    NotFound(String),
    TeraError(String),
}

/// The HTTP status that each error kind maps to.
pub open spec fn spec_status_code(e: &EzyTutorError) -> u16 {
    match e {
        EzyTutorError::DbError(_) => 500,
        EzyTutorError::ActixError(_) => 500,
        EzyTutorError::NotFound(_) => 404,
        EzyTutorError::TeraError(_) => 500,
    }
}

/// The `error_message` string that the uniform JSON error body carries.
pub open spec fn spec_error_message(e: &EzyTutorError) -> Seq<char> {
    match e {
        EzyTutorError::DbError(_) => "Database error"@,
        EzyTutorError::ActixError(_) => "Internal server error"@,
        EzyTutorError::NotFound(m) => m@,
        EzyTutorError::TeraError(_) => "Template render error"@,
    }
}

impl EzyTutorError {
    pub fn status_code(&self) -> (r: u16)
        ensures
            r == spec_status_code(self),
    {
        match self {
            EzyTutorError::DbError(_) => 500,
            EzyTutorError::ActixError(_) => 500,
            EzyTutorError::NotFound(_) => 404,
            EzyTutorError::TeraError(_) => 500,
        }
    }

    /// The message placed in the error response body: generic for storage,
    /// server and template failures, the carried message for a missing row.
    pub fn error_response(&self) -> (r: String)
        ensures
            r@ == spec_error_message(self),
    {
        match self {
            EzyTutorError::DbError(_) => String::from_str("Database error"),
            EzyTutorError::ActixError(_) => String::from_str("Internal server error"),
            EzyTutorError::NotFound(m) => m.clone(),
            EzyTutorError::TeraError(_) => String::from_str("Template render error"),
        }
    }
}

} // verus!
