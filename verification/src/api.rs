//! The shape of a failed API call: an HTTP status and an error body.

use vstd::prelude::*;
use crate::error::ApiError;

verus! {

pub const STATUS_OK: u16 = 200;

pub const STATUS_CREATED: u16 = 201;

pub const STATUS_NO_CONTENT: u16 = 204;

pub const STATUS_BAD_REQUEST: u16 = 400;

pub const STATUS_UNAUTHORIZED: u16 = 401;

pub const STATUS_NOT_FOUND: u16 = 404;

pub const STATUS_CONFLICT: u16 = 409;

pub const STATUS_INTERNAL_SERVER_ERROR: u16 = 500;

pub const STATUS_BAD_GATEWAY: u16 = 502;

/// The greatest size of an uploaded archive: 2 GiB.
pub const MAX_ARCHIVE_BYTES: u64 = 2 * 1024 * 1024 * 1024;

/// The greatest size of the body of any other request: 64 KiB.
pub const MAX_JSON_BYTES: u64 = 64 * 1024;

/// A failed API call.
#[derive(Debug)]
pub struct ApiFailure {
    /// The HTTP status of the response.
    pub status: u16,
    /// The body of the response.
    pub error: ApiError,
}

/// The mathematical value of an [`ApiFailure`].
pub ghost struct ApiFailureView {
    pub status: u16,
    pub error: Seq<char>,
    pub code: Seq<char>,
}

impl View for ApiFailure {
    type V = ApiFailureView;

    open spec fn view(&self) -> ApiFailureView {
        ApiFailureView { status: self.status, error: self.error.error@, code: self.error.code@ }
    }
}

/// The failure with the given status, message and code.
pub open spec fn failure(status: u16, error: Seq<char>, code: Seq<char>) -> ApiFailureView {
    ApiFailureView { status, error, code }
}

impl ApiFailure {
    /// A failure with the given status, message and code.
    pub fn new(status: u16, error: &str, code: &str) -> (f: ApiFailure)
        ensures
            f@ == failure(status, error@, code@),
    {
        ApiFailure { status, error: ApiError::new(error, code) }
    }
}

} // verus!
