//! The error taxonomy: every failure a request can hit is classified into
//! exactly one of four kinds before it crosses the handler boundary, and
//! each kind determines the wire status and body.
//!
//! Store and server failures are surfaced only as a generic message; the
//! not-found and invalid-input messages describe caller-correctable
//! conditions and are passed through verbatim.

use vstd::prelude::*;

verus! {

/// The four failure kinds, each carrying a human-readable message.
#[derive(Debug)]
pub enum MyError {
    /// The underlying store call failed.
    DBError(String),
    /// The HTTP layer itself failed to materialize a response.
    ActixError(String),
    /// The requested entity or identity does not exist.
    NotFound(String),
    /// The request body did not parse into the expected DTO shape.
    InvalidInput(String),
}

/// The body shape of every error reply.
#[derive(Debug)]
pub struct MyErrorResponse {
    pub error_message: String,
}

/// The HTTP status each kind maps to.
pub open spec fn spec_status_code(e: MyError) -> u16 {
    match e {
        MyError::DBError(_) => 500,
        MyError::ActixError(_) => 500,
        MyError::NotFound(_) => 404,
        MyError::InvalidInput(_) => 400,
    }
}

/// The message each kind exposes to the caller: generic for store and
/// server failures, the carried message otherwise.
pub open spec fn spec_error_message(e: MyError) -> Seq<char> {
    match e {
        MyError::DBError(_) => "Database error"@,
        MyError::ActixError(_) => "Internal Server error"@,
        MyError::NotFound(m) => m@,
        MyError::InvalidInput(m) => m@,
    }
}

impl MyError {
    /// Status of the wire reply: 500 for store and server failures,
    /// 404 for a missing entity, 400 for a malformed body.
    pub fn status_code(&self) -> (r: u16)
        ensures
            r == spec_status_code(*self),
    {
        match self {
            MyError::DBError(_) => 500,
            MyError::ActixError(_) => 500,
            MyError::NotFound(_) => 404,
            MyError::InvalidInput(_) => 400,
        }
    }

    /// The message placed in the reply body. Internal detail of store and
    /// server failures is not exposed.
    pub fn error_response(&self) -> (r: String)
        ensures
            r@ == spec_error_message(*self),
    {
        match self {
            MyError::DBError(_) => "Database error".to_owned(),
            MyError::ActixError(_) => "Internal Server error".to_owned(),
            MyError::NotFound(m) => m.clone(),
            MyError::InvalidInput(m) => m.clone(),
        }
    }

    /// The full reply body for this failure, built at the single
    /// response-construction site.
    pub fn error_body(&self) -> (r: MyErrorResponse)
        ensures
            r.error_message@ == spec_error_message(*self),
    {
        MyErrorResponse { error_message: self.error_response() }
    }
}

impl Clone for MyError {
    fn clone(&self) -> (r: Self)
        ensures
            r == *self,
    {
        match self {
            MyError::DBError(m) => MyError::DBError(m.clone()),
            MyError::ActixError(m) => MyError::ActixError(m.clone()),
            MyError::NotFound(m) => MyError::NotFound(m.clone()),
            MyError::InvalidInput(m) => MyError::InvalidInput(m.clone()),
        }
    }
}

} // verus!
