//! The error taxonomy of the service and its mapping to HTTP status codes:
//! client input faults map to 400, a missing row to 404, and storage,
//! database and multipart-protocol failures to 500.

use vstd::prelude::*;

verus! {

/// What can go wrong while serving a request.
#[derive(Clone, Copy, PartialEq, Eq, Structural, Debug)]
pub enum ServiceError {
    /// Missing filename, wrong extension, malformed multipart.
    ClientInput,
    /// No row for the requested id.
    NotFound,
    /// Directory create, file create, write, sync or read failure.
    Storage,
    /// Pool acquisition or statement failure.
    Database,
    /// Multipart stream read failure mid-body.
    Protocol,
}

/// The status code each error kind maps to.
pub open spec fn spec_status_of(e: ServiceError) -> int {
    match e {
        ServiceError::ClientInput => 400,
        ServiceError::NotFound => 404,
        ServiceError::Storage => 500,
        ServiceError::Database => 500,
        ServiceError::Protocol => 500,
    }
}

impl ServiceError {
    /// The HTTP status code this error surfaces as.
    pub fn status(&self) -> (r: u16)
        ensures
            r as int == spec_status_of(*self),
    {
        match self {
            ServiceError::ClientInput => 400,
            ServiceError::NotFound => 404,
            ServiceError::Storage => 500,
            ServiceError::Database => 500,
            ServiceError::Protocol => 500,
        }
    }
}

} // verus!
