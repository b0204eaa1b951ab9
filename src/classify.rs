//! Default classification and retry predicates for transport failures and
//! completed responses.
use crate::reason::{ReasonView, RetryReason};
use vstd::prelude::*;

verus! {

/// HTTP 429 Too Many Requests.
pub const TOO_MANY_REQUESTS: u16 = 429;

/// What the retry logic reads from a failed transport call.
#[derive(Clone, Copy, Debug, PartialEq, Eq, Structural)]
pub struct TransportFailure {
    /// The call timed out.
    pub is_timeout: bool,
    /// The connection could not be established.
    pub is_connect: bool,
    /// The request could not be built or sent.
    pub is_request: bool,
    /// The HTTP status the failure carries, if any.
    pub status: Option<u16>,
}

pub open spec fn is_server_error(status: u16) -> bool {
    500 <= status < 600
}

pub open spec fn is_client_error(status: u16) -> bool {
    400 <= status < 500
}

/// Whether a status is a server error (5xx).
pub fn status_is_server_error(status: u16) -> (r: bool)
    ensures
        r == is_server_error(status),
{
    500 <= status && status < 600
}

/// Whether a status is a client error (4xx).
pub fn status_is_client_error(status: u16) -> (r: bool)
    ensures
        r == is_client_error(status),
{
    400 <= status && status < 500
}

pub open spec fn failure_is_retryable(f: TransportFailure) -> bool {
    f.is_timeout || f.is_connect || f.is_request || (f.status matches Some(s) && is_server_error(s))
}

pub open spec fn response_is_retryable(status: u16) -> bool {
    is_server_error(status) || status == TOO_MANY_REQUESTS
}

pub open spec fn failure_reason(f: TransportFailure) -> ReasonView {
    if f.is_timeout || f.is_connect {
        ReasonView::NetworkError
    } else if f.status matches Some(s) && is_server_error(s) {
        ReasonView::ServerError
    } else {
        ReasonView::RequestError
    }
}

pub open spec fn response_reason(status: u16) -> ReasonView {
    if is_server_error(status) {
        ReasonView::ServerError
    } else if status == TOO_MANY_REQUESTS {
        ReasonView::RateLimit
    } else {
        ReasonView::RequestError
    }
}

/// Retries timeouts, connection errors, request errors and failures that carry
/// a server-error status.
pub fn default_should_retry_error(failure: &TransportFailure) -> (r: bool)
    ensures
        r == failure_is_retryable(*failure),
{
    failure.is_timeout || failure.is_connect || failure.is_request || match failure.status {
        Some(s) => status_is_server_error(s),
        None => false,
    }
}

/// Retries responses with a server-error status or 429.
pub fn default_should_retry_response(status: u16) -> (r: bool)
    ensures
        r == response_is_retryable(status),
{
    status_is_server_error(status) || status == TOO_MANY_REQUESTS
}

/// Timeouts and connection errors are network errors; a failure that carries a
/// server-error status is a server error; anything else is a request error.
pub fn default_error_classifier(failure: &TransportFailure) -> (r: RetryReason)
    ensures
        r@ == failure_reason(*failure),
{
    if failure.is_timeout || failure.is_connect {
        RetryReason::NetworkError
    } else {
        match failure.status {
            Some(s) => if status_is_server_error(s) {
                RetryReason::ServerError
            } else {
                RetryReason::RequestError
            },
            None => RetryReason::RequestError,
        }
    }
}

/// 5xx is a server error, 429 a rate limit, any other status a request error.
pub fn default_response_classifier(status: u16) -> (r: RetryReason)
    ensures
        r@ == response_reason(status),
{
    if status_is_server_error(status) {
        RetryReason::ServerError
    } else if status == TOO_MANY_REQUESTS {
        RetryReason::RateLimit
    } else {
        RetryReason::RequestError
    }
}

} // verus!
