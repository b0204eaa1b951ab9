//! Alternative retry predicates a policy can be configured with.
use crate::classify::{
    is_client_error, is_server_error, status_is_client_error, status_is_server_error,
    TransportFailure, TOO_MANY_REQUESTS,
};
use vstd::prelude::*;

verus! {

/// Retries timeouts and connection errors only.
pub fn network_errors_only(failure: &TransportFailure) -> (r: bool)
    ensures
        r == (failure.is_timeout || failure.is_connect),
{
    failure.is_timeout || failure.is_connect
}

/// Retries every failure except one that carries a client-error status.
pub fn except_client_errors(failure: &TransportFailure) -> (r: bool)
    ensures
        r == match failure.status {
            Some(s) => !is_client_error(s),
            None => true,
        },
{
    match failure.status {
        Some(s) => !status_is_client_error(s),
        None => true,
    }
}

/// Retries a response whose status is one of `codes`.
pub fn retry_on_status(codes: &[u16], status: u16) -> (r: bool)
    ensures
        r == codes@.contains(status),
{
    let mut i: usize = 0;
    while i < codes.len()
        invariant
            i <= codes@.len(),
            forall|k: int| 0 <= k < i ==> codes@[k] != status,
        decreases codes@.len() - i,
    {
        if codes[i] == status {
            return true;
        }
        i = i + 1;
    }
    false
}

/// Retries server errors and rate limiting.
pub fn server_errors_and_rate_limit(status: u16) -> (r: bool)
    ensures
        r == (is_server_error(status) || status == TOO_MANY_REQUESTS),
{
    status_is_server_error(status) || status == TOO_MANY_REQUESTS
}

} // verus!
