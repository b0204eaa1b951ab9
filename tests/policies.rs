use reqwest_retry::backoff::{
    default_backoff, exponential_jitter, exponential_with_jitter, fibonacci, fixed,
    jitter_for_attempt, linear, Backoff,
};
use reqwest_retry::classify::{status_is_client_error, status_is_server_error};
use reqwest_retry::predicates::{
    except_client_errors, network_errors_only, retry_on_status, server_errors_and_rate_limit,
};
use reqwest_retry::{
    default_error_classifier, default_response_classifier, default_should_retry_error,
    default_should_retry_response, ErrorStrategy, RetryConfig, RetryReason, TransportFailure,
};

fn failure(timeout: bool, connect: bool, request: bool, status: Option<u16>) -> TransportFailure {
    TransportFailure { is_timeout: timeout, is_connect: connect, is_request: request, status }
}

#[test]
fn every_backoff_stays_within_max() {
    let kinds = [
        Backoff::Exponential,
        Backoff::ExponentialJitter,
        Backoff::Linear,
        Backoff::Fixed,
        Backoff::Fibonacci,
        Backoff::Custom,
    ];
    for kind in kinds {
        for attempt in 0..200usize {
            let d = kind.delay(attempt, 100, 2000, 5000, 9000);
            assert!(d <= 5000, "{:?} at {} gave {}", kind, attempt, d);
        }
    }
}

#[test]
fn linear_exact_values() {
    assert_eq!(linear(0, 100, 0, 1000), 0);
    assert_eq!(linear(7, 100, 0, 1000), 700);
    assert_eq!(linear(11, 100, 0, 1000), 1000);
    assert_eq!(linear(usize::MAX, u64::MAX, 0, 5), 5);
}

#[test]
fn fixed_exact_values() {
    assert_eq!(fixed(0, 250, 0, 10), 0);
    assert_eq!(fixed(1, 250, 0, 10), 250);
    assert_eq!(fixed(usize::MAX, 250, 0, 10), 250);
}

#[test]
fn fibonacci_exact_values() {
    assert_eq!(fibonacci(0, 100, 0, 10_000), 100);
    assert_eq!(fibonacci(4, 100, 0, 10_000), 500);
    assert_eq!(fibonacci(9, 100, 0, 10_000), 5500);
    assert_eq!(fibonacci(10, 100, 0, 10_000), 8900);
    assert_eq!(fibonacci(11, 100, 0, 10_000), 10_000);
    assert_eq!(fibonacci(usize::MAX, 100, 0, 10_000), 10_000);
    assert_eq!(fibonacci(usize::MAX, 0, 0, 10_000), 0);
    assert_eq!(fibonacci(100, 1, 0, u64::MAX), u64::MAX);
}

#[test]
fn exponential_exact_values() {
    assert_eq!(default_backoff(3, 100, 1500, 100_000), 337);
    assert_eq!(default_backoff(1_000_000, 1, 2000, 30_000), 30_000);
    assert_eq!(default_backoff(usize::MAX, 100, 1000, 5000), 100);
    assert_eq!(default_backoff(usize::MAX, 0, 3000, 5000), 0);
    assert_eq!(default_backoff(64, u64::MAX, u64::MAX, u64::MAX), u64::MAX);
    assert_eq!(default_backoff(2, 1, 1500, 1000), 2);
    assert_eq!(default_backoff(10, 10, 1050, 1_000_000), 16);
    assert_eq!(default_backoff(40, 1, 1500, u64::MAX), 11_057_332);
    assert_eq!(default_backoff(100_000, 1000, 1001, 60_000), 60_000);
}

#[test]
fn jitter_scales_between_half_and_whole() {
    assert_eq!(exponential_with_jitter(2, 100, 2000, 10_000, 0), 200);
    assert_eq!(exponential_with_jitter(2, 100, 2000, 10_000, 999), 399);
    assert_eq!(exponential_with_jitter(2, 100, 2000, 10_000, 500), 300);
    assert_eq!(exponential_with_jitter(20, 100, 2000, 10_000, 0), 10_000);
    assert_eq!(exponential_with_jitter(1, u64::MAX, 2000, u64::MAX, 0), u64::MAX);
    assert_eq!(exponential_with_jitter(2, 1, 1500, 1000, 0), 1);
    assert_eq!(exponential_with_jitter(2, 1, 1500, 1000, 999), 2);
    assert_eq!(exponential_with_jitter(2, 1, 1500, 1, 0), 1);
    assert_eq!(exponential_with_jitter(1, 100, 2000, 10_000, 1), 100);
    assert_eq!(exponential_with_jitter(1, 1000, 2000, 10_000, 1), 1001);
}

#[test]
fn jitter_band_of_exponential_jitter() {
    for attempt in 0..40usize {
        let capped = default_backoff(attempt, 100, 2000, 60_000);
        let d = exponential_jitter(attempt, 100, 2000, 60_000);
        assert!(d >= capped / 2 && d <= capped, "attempt {}: {} vs {}", attempt, d, capped);
        let slow = default_backoff(attempt, 1, 1500, 60_000);
        let dj = exponential_jitter(attempt, 1, 1500, 60_000);
        assert!(dj >= slow / 2 && dj <= slow, "attempt {}: {} vs {}", attempt, dj, slow);
        assert_eq!(d, exponential_jitter(attempt, 100, 2000, 60_000));
    }
}

#[test]
fn jitter_for_attempt_is_stable() {
    for attempt in 0..100usize {
        let j = jitter_for_attempt(attempt);
        assert!(j < 1000);
        assert_eq!(j, jitter_for_attempt(attempt));
    }
}

#[test]
fn status_ranges() {
    assert!(status_is_server_error(500));
    assert!(status_is_server_error(599));
    assert!(!status_is_server_error(600));
    assert!(!status_is_server_error(499));
    assert!(status_is_client_error(400));
    assert!(!status_is_client_error(500));
}

#[test]
fn default_response_predicate_and_classifier() {
    assert!(default_should_retry_response(503));
    assert!(default_should_retry_response(429));
    assert!(!default_should_retry_response(404));
    assert!(!default_should_retry_response(200));
    assert_eq!(default_response_classifier(502), RetryReason::ServerError);
    assert_eq!(default_response_classifier(429), RetryReason::RateLimit);
    assert_eq!(default_response_classifier(400), RetryReason::RequestError);
    assert_eq!(default_response_classifier(200), RetryReason::RequestError);
}

#[test]
fn default_failure_predicate_and_classifier() {
    let timeout = failure(true, false, false, None);
    let connect = failure(false, true, false, None);
    let request = failure(false, false, true, None);
    let server = failure(false, false, false, Some(503));
    let client = failure(false, false, false, Some(404));
    let other = failure(false, false, false, None);

    assert!(default_should_retry_error(&timeout));
    assert!(default_should_retry_error(&connect));
    assert!(default_should_retry_error(&request));
    assert!(default_should_retry_error(&server));
    assert!(!default_should_retry_error(&client));
    assert!(!default_should_retry_error(&other));

    assert_eq!(default_error_classifier(&timeout), RetryReason::NetworkError);
    assert_eq!(default_error_classifier(&connect), RetryReason::NetworkError);
    assert_eq!(default_error_classifier(&request), RetryReason::RequestError);
    assert_eq!(default_error_classifier(&server), RetryReason::ServerError);
    assert_eq!(default_error_classifier(&client), RetryReason::RequestError);
    assert_eq!(default_error_classifier(&failure(false, false, false, Some(429))), RetryReason::RequestError);
}

#[test]
fn alternative_predicates() {
    assert!(network_errors_only(&failure(true, false, false, None)));
    assert!(network_errors_only(&failure(false, true, false, Some(500))));
    assert!(!network_errors_only(&failure(false, false, true, Some(500))));

    assert!(except_client_errors(&failure(false, false, false, None)));
    assert!(except_client_errors(&failure(false, false, false, Some(500))));
    assert!(!except_client_errors(&failure(false, false, false, Some(409))));

    let codes = [408u16, 503];
    assert!(retry_on_status(&codes, 503));
    assert!(!retry_on_status(&codes, 500));
    assert!(!retry_on_status(&[], 503));

    assert!(server_errors_and_rate_limit(500));
    assert!(server_errors_and_rate_limit(429));
    assert!(!server_errors_and_rate_limit(428));
}

#[test]
fn later_override_replaces_earlier() {
    let config = RetryConfig::new()
        .error_strategy(RetryReason::RateLimit, ErrorStrategy::new().max_retries(10))
        .error_strategy(RetryReason::Custom("A".to_string()), ErrorStrategy::new().max_delay(7))
        .error_strategy(RetryReason::RateLimit, ErrorStrategy::new().backoff_multiplier(3000));
    let s = config.get_effective_strategy(&RetryReason::RateLimit);
    assert_eq!(s.max_retries, 3);
    assert_eq!(s.backoff_multiplier, 3000);
    let c = config.get_effective_strategy(&RetryReason::Custom("A".to_string()));
    assert_eq!(c.max_delay, 7);
    assert_eq!(c.base_delay, 100);
    let b = config.get_effective_strategy(&RetryReason::Custom("B".to_string()));
    assert_eq!(b, config.base_strategy());
}

#[test]
fn default_policy_values() {
    let c = RetryConfig::new();
    assert_eq!(c.max_retries, 3);
    assert_eq!(c.base_delay, 100);
    assert_eq!(c.max_delay, 30_000);
    assert_eq!(c.backoff_multiplier, 2000);
    assert_eq!(c.backoff_fn, Backoff::Exponential);
    assert!(c.find_override(&RetryReason::RateLimit).is_none());
    let d = RetryConfig::default();
    assert_eq!(d.max_retries, 3);
    assert_eq!(d.max_delay, 30_000);
    assert!(d.error_strategies.is_empty());
}

#[test]
fn reason_equality_by_value() {
    let a = RetryReason::Custom("X".to_string());
    assert_eq!(a, RetryReason::Custom("X".to_string()));
    assert_ne!(a, RetryReason::Custom("Y".to_string()));
    assert!(a.same_as(&a.duplicate()));
    assert_ne!(RetryReason::ServerError, RetryReason::RequestError);
}
