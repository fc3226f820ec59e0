//! The handlers of the HTTP API, as functions on the orchestrator's state.
//!
//! Each handler takes the state, the plain values of the request, and the
//! identifiers and the time that the request needs; it returns the body of
//! the response or the failure to report.

pub mod jobs;
pub mod workers;
pub mod logs;
