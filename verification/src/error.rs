//! Errors of the service and the form in which the API reports them.

use vstd::prelude::*;
use crate::ids::{format_id, id_text};
use crate::text::join2;

verus! {

/// Application-level errors.
#[derive(Debug)]
pub enum AppError {
    JobNotFound(u128),
    WorkerNotFound(u128),
    NoWorkersAvailable,
    AuthenticationFailed(String),
    InvalidRequest(String),
    Database(String),
    VmError(String),
    Internal(String),
}

impl AppError {
    /// The machine-readable code of the error.
    pub open spec fn spec_code(&self) -> Seq<char> {
        match self {
            AppError::JobNotFound(_) => "job_not_found"@,
            AppError::WorkerNotFound(_) => "worker_not_found"@,
            AppError::NoWorkersAvailable => "no_workers"@,
            AppError::AuthenticationFailed(_) => "auth_failed"@,
            AppError::InvalidRequest(_) => "invalid_request"@,
            AppError::Database(_) => "database_error"@,
            AppError::VmError(_) => "vm_error"@,
            AppError::Internal(_) => "internal_error"@,
        }
    }

    /// The machine-readable code of the error.
    pub fn code(&self) -> (code: &'static str)
        ensures
            code@ == self.spec_code(),
    {
        match self {
            AppError::JobNotFound(_) => "job_not_found",
            AppError::WorkerNotFound(_) => "worker_not_found",
            AppError::NoWorkersAvailable => "no_workers",
            AppError::AuthenticationFailed(_) => "auth_failed",
            AppError::InvalidRequest(_) => "invalid_request",
            AppError::Database(_) => "database_error",
            AppError::VmError(_) => "vm_error",
            AppError::Internal(_) => "internal_error",
        }
    }

    /// The human-readable message of the error.
    pub open spec fn spec_message(&self) -> Seq<char> {
        match self {
            AppError::JobNotFound(id) => "Job not found: "@ + id_text(*id),
            AppError::WorkerNotFound(id) => "Worker not found: "@ + id_text(*id),
            AppError::NoWorkersAvailable => "No workers available"@,
            AppError::AuthenticationFailed(m) => "Authentication failed: "@ + m@,
            AppError::InvalidRequest(m) => "Invalid request: "@ + m@,
            AppError::Database(m) => "Database error: "@ + m@,
            AppError::VmError(m) => "VM error: "@ + m@,
            AppError::Internal(m) => "Internal error: "@ + m@,
        }
    }

    /// The human-readable message of the error.
    pub fn message(&self) -> (text: String)
        ensures
            text@ == self.spec_message(),
    {
        match self {
            AppError::JobNotFound(id) => join2("Job not found: ", format_id(*id).as_str()),
            AppError::WorkerNotFound(id) => join2("Worker not found: ", format_id(*id).as_str()),
            AppError::NoWorkersAvailable => String::from_str("No workers available"),
            AppError::AuthenticationFailed(m) => join2("Authentication failed: ", m.as_str()),
            AppError::InvalidRequest(m) => join2("Invalid request: ", m.as_str()),
            AppError::Database(m) => join2("Database error: ", m.as_str()),
            AppError::VmError(m) => join2("VM error: ", m.as_str()),
            AppError::Internal(m) => join2("Internal error: ", m.as_str()),
        }
    }
}

/// The error body of an API response.
#[derive(Debug)]
pub struct ApiError {
    pub error: String,
    pub code: String,
}

/// The mathematical value of an [`ApiError`].
pub ghost struct ApiErrorView {
    pub error: Seq<char>,
    pub code: Seq<char>,
}

impl View for ApiError {
    type V = ApiErrorView;

    open spec fn view(&self) -> ApiErrorView {
        ApiErrorView { error: self.error@, code: self.code@ }
    }
}

impl Clone for ApiError {
    fn clone(&self) -> (r: ApiError)
        ensures
            r@ == self@,
    {
        ApiError { error: self.error.clone(), code: self.code.clone() }
    }
}

impl ApiError {
    /// An error body with the given message and code.
    pub fn new(error: &str, code: &str) -> (e: ApiError)
        ensures
            e@ == (ApiErrorView { error: error@, code: code@ }),
    {
        ApiError { error: String::from_str(error), code: String::from_str(code) }
    }
}

impl From<AppError> for ApiError {
    /// The API form of an application error: its message and its code.
    fn from(err: AppError) -> (e: ApiError)
        ensures
            e@ == (ApiErrorView { error: err.spec_message(), code: err.spec_code() }),
    {
        let code = err.code();
        let message = err.message();
        ApiError { error: message, code: String::from_str(code) }
    }
}

impl vstd::std_specs::convert::FromSpecImpl<AppError> for ApiError {
    /// The conversion is stated over views, in the contract of `from`; no
    /// equation between the values themselves is claimed.
    open spec fn obeys_from_spec() -> bool {
        false
    }

    open spec fn from_spec(err: AppError) -> ApiError {
        arbitrary()
    }
}

} // verus!
