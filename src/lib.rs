//! Retry orchestration for outbound requests: backoff algorithms, failure
//! classification, per-reason policy resolution and the retry state machine.
pub mod backoff;
pub mod classify;
pub mod config;
pub mod predicates;
pub mod reason;
pub mod retry_future;
pub mod wide;

pub use backoff::{default_backoff, Backoff, MULTIPLIER_SCALE};
pub use classify::{
    default_error_classifier, default_response_classifier, default_should_retry_error,
    default_should_retry_response, TransportFailure,
};
pub use config::{EffectiveStrategy, ErrorStrategy, RetryConfig};
pub use reason::RetryReason;
pub use retry_future::{ErrorStep, ResponseStep, RetryAttempt, RetryError, RetryFuture, RetryState};
