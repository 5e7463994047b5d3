//! The failures of the store and the HTTP status each one maps to.

use vstd::prelude::*;

verus! {

/// Why an operation was refused or failed.
#[derive(Clone, Copy, Debug, PartialEq, Eq, Structural)]
pub enum StoreError {
    /// The bearer token is absent or wrong.
    Unauthorized,
    /// The directory is malformed or the body names no file.
    BadRequest,
    /// Safe mode was asked for and the target already exists.
    Conflict,
    /// The body grew beyond the configured cap.
    PayloadTooLarge,
    /// No object is stored at the path.
    NotFound,
    /// Any other failure of the underlying storage.
    InternalError,
}

/// The HTTP status code of an error.
pub open spec fn status_of(e: StoreError) -> u16 {
    match e {
        StoreError::Unauthorized => 401,
        StoreError::BadRequest => 400,
        StoreError::Conflict => 409,
        StoreError::PayloadTooLarge => 413,
        StoreError::NotFound => 404,
        StoreError::InternalError => 500,
    }
}

impl StoreError {
    /// The HTTP status code that reports this error.
    pub fn status(&self) -> (code: u16)
        ensures
            code == status_of(*self),
    {
        match self {
            StoreError::Unauthorized => 401,
            StoreError::BadRequest => 400,
            StoreError::Conflict => 409,
            StoreError::PayloadTooLarge => 413,
            StoreError::NotFound => 404,
            StoreError::InternalError => 500,
        }
    }

    /// A short message for the response body; it never names a path.
    pub fn message(&self) -> (text: String)
        ensures
            text@ == message_of(*self),
    {
        match self {
            StoreError::Unauthorized => String::from_str("Unauthorized"),
            StoreError::BadRequest => String::from_str("Bad request"),
            StoreError::Conflict => String::from_str("File already exists"),
            StoreError::PayloadTooLarge => String::from_str("Payload too large"),
            StoreError::NotFound => String::from_str("Not found"),
            StoreError::InternalError => String::from_str("Internal error"),
        }
    }
}

/// The text of [`StoreError::message`].
pub open spec fn message_of(e: StoreError) -> Seq<char> {
    match e {
        StoreError::Unauthorized => "Unauthorized"@,
        StoreError::BadRequest => "Bad request"@,
        StoreError::Conflict => "File already exists"@,
        StoreError::PayloadTooLarge => "Payload too large"@,
        StoreError::NotFound => "Not found"@,
        StoreError::InternalError => "Internal error"@,
    }
}

} // verus!
