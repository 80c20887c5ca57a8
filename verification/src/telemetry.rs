//! What the stages report of a request.
//!
//! A stage does not write to a log or a metrics backend. It hands what it has
//! to report to its caller, who passes it on to whatever collects it.

use crate::message::{is_client_error, is_server_error, Response};
use std::time::Duration;
use vstd::prelude::*;

verus! {

/// The name under which the stages report.
pub const SERVICE_NAME: &'static str = "hyper-tower-service";

/// The counter of requests, by method.
pub const REQUEST_COUNTER: &'static str = "http_requests_total";

pub const REQUEST_COUNTER_DESCRIPTION: &'static str = "Total number of HTTP requests";

/// The histogram of the time that requests took, by method.
pub const REQUEST_DURATION: &'static str = "http_request_duration_seconds";

pub const REQUEST_DURATION_DESCRIPTION: &'static str = "HTTP request duration in seconds";

/// What is reported of one request: by how much the counter of its method goes
/// up, and how long the request took.
#[derive(Debug)]
pub struct Measurement {
    pub method: String,
    pub increment: u64,
    pub elapsed: Duration,
}

/// The count of one request under its method.
#[derive(Debug)]
pub struct RequestCount {
    pub method: String,
    pub increment: u64,
}

/// The time that one request took, under its method.
#[derive(Debug)]
pub struct RequestDuration {
    pub method: String,
    pub elapsed: Duration,
}

/// How the trace of a request ended.
#[derive(Clone, Copy, Debug, PartialEq, Eq, Structural)]
pub enum SpanStatus {
    Succeeded,
    Failed,
}

/// How the trace of a request ends with a given outcome: as failed on an
/// error and on a response with a status from 400 to 599, as succeeded on any
/// other response.
pub open spec fn span_status_of<B, E>(outcome: Result<Response<B>, E>) -> SpanStatus {
    match outcome {
        Err(_) => SpanStatus::Failed,
        Ok(response) => if is_client_error(response.status) || is_server_error(response.status) {
            SpanStatus::Failed
        } else {
            SpanStatus::Succeeded
        },
    }
}

/// How the trace of a request ends with the outcome `outcome`.
pub fn span_status<B, E>(outcome: &Result<Response<B>, E>) -> (status: SpanStatus)
    ensures
        status == span_status_of(*outcome),
{
    match outcome {
        Err(_) => SpanStatus::Failed,
        Ok(response) => {
            if response.is_client_error() || response.is_server_error() {
                SpanStatus::Failed
            } else {
                SpanStatus::Succeeded
            }
        },
    }
}

} // verus!
