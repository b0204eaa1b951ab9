use reqwest_retry::{
    default_error_classifier, default_response_classifier, default_should_retry_error,
    default_should_retry_response, Backoff, ErrorStep, ErrorStrategy, ResponseStep, RetryAttempt,
    RetryConfig, RetryError, RetryFuture, RetryReason, RetryState, TransportFailure,
};

#[derive(Clone, Copy, Debug)]
enum Outcome {
    Response(u16),
    Failure(TransportFailure),
}

#[derive(Debug)]
enum Ending {
    Delivered(u16),
    Failed(RetryError<TransportFailure>),
}

struct Run {
    ending: Ending,
    attempts: usize,
    sleeps: Vec<u64>,
    retries: Vec<RetryAttempt>,
    failures: Vec<RetryAttempt>,
}

fn failure_with_status(status: u16) -> TransportFailure {
    TransportFailure { is_timeout: false, is_connect: false, is_request: false, status: Some(status) }
}

fn connect_failure() -> TransportFailure {
    TransportFailure { is_timeout: false, is_connect: true, is_request: true, status: None }
}

/// Drives a sequence with the default classifiers and predicates; the transport
/// answers with `outcomes` in turn, repeating the last one.
fn run(config: RetryConfig, outcomes: &[Outcome]) -> Run {
    let mut fut = RetryFuture::new(config);
    let mut attempts = 0usize;
    let mut sleeps = Vec::new();
    let mut retries = Vec::new();
    let mut failures = Vec::new();
    loop {
        if let Err(e) = fut.start_attempt(true) {
            return Run { ending: Ending::Failed(e), attempts, sleeps, retries, failures };
        }
        let outcome = outcomes[attempts.min(outcomes.len() - 1)];
        attempts += 1;
        match outcome {
            Outcome::Response(status) => {
                let reason = default_response_classifier(status);
                let retry = default_should_retry_response(status);
                match fut.on_response(status, reason, retry, 0) {
                    ResponseStep::Deliver => {
                        return Run { ending: Ending::Delivered(status), attempts, sleeps, retries, failures };
                    }
                    ResponseStep::Retry(a) => retries.push(a),
                }
            }
            Outcome::Failure(f) => {
                let reason = default_error_classifier(&f);
                let retry = default_should_retry_error(&f);
                match fut.on_error(f, format!("{:?}", f), reason, retry, 0) {
                    ErrorStep::Retry(a) => retries.push(a),
                    ErrorStep::Fail(e, telemetry) => {
                        if let Some(a) = telemetry {
                            failures.push(a);
                        }
                        return Run { ending: Ending::Failed(e), attempts, sleeps, retries, failures };
                    }
                }
            }
        }
        match fut.state {
            RetryState::Sleeping { delay } => sleeps.push(delay),
            other => panic!("expected a wait, found {:?}", other),
        }
        fut.on_timer();
    }
}

#[test]
fn rate_limited_twice_then_success() {
    let config = RetryConfig::new().error_strategy(
        RetryReason::RateLimit,
        ErrorStrategy::new().max_retries(3),
    );
    let r = run(config, &[Outcome::Response(429), Outcome::Response(429), Outcome::Response(200)]);
    assert!(matches!(r.ending, Ending::Delivered(200)));
    assert_eq!(r.attempts, 3);
    assert_eq!(r.sleeps, vec![200, 400]);
    assert_eq!(r.retries.len(), 2);
    for (i, a) in r.retries.iter().enumerate() {
        assert_eq!(a.error_type, RetryReason::RateLimit);
        assert_eq!(a.attempt, i + 1);
        assert_eq!(a.max_attempts, 4);
        assert_eq!(a.response_status, Some(429));
        assert_eq!(a.error, None);
    }
    assert!(r.failures.is_empty());
}

#[test]
fn server_error_failures_exhaust_budget() {
    let r = run(RetryConfig::new(), &[Outcome::Failure(failure_with_status(500))]);
    assert_eq!(r.attempts, 4);
    assert!(matches!(r.ending, Ending::Failed(RetryError::RequestError(f)) if f.status == Some(500)));
    assert_eq!(r.sleeps, vec![200, 400, 800]);
    assert_eq!(r.retries.len(), 3);
    assert_eq!(r.failures.len(), 1);
    let last = &r.failures[0];
    assert_eq!(last.attempt, 3);
    assert_eq!(last.max_attempts, 4);
    assert_eq!(last.delay, 0);
    assert_eq!(last.error_type, RetryReason::ServerError);
    assert!(last.error.is_some());
}

#[test]
fn server_error_responses_delivered_when_budget_ends() {
    let r = run(RetryConfig::new(), &[Outcome::Response(500)]);
    assert_eq!(r.attempts, 4);
    assert!(matches!(r.ending, Ending::Delivered(500)));
    assert_eq!(r.retries.len(), 3);
    assert!(r.failures.is_empty());
}

#[test]
fn client_error_response_delivered_at_once() {
    let r = run(RetryConfig::new(), &[Outcome::Response(400)]);
    assert!(matches!(r.ending, Ending::Delivered(400)));
    assert_eq!(r.attempts, 1);
    assert!(r.sleeps.is_empty());
    assert!(r.retries.is_empty());
}

#[test]
fn zero_budget_single_attempt() {
    let r = run(RetryConfig::new().max_retries(0), &[Outcome::Failure(connect_failure())]);
    assert_eq!(r.attempts, 1);
    assert!(r.sleeps.is_empty());
    assert!(matches!(r.ending, Ending::Failed(RetryError::RequestError(_))));
    assert_eq!(r.failures.len(), 1);
    assert_eq!(r.failures[0].max_attempts, 1);

    let r = run(RetryConfig::new().max_retries(0), &[Outcome::Failure(failure_with_status(404))]);
    assert_eq!(r.attempts, 1);
    assert!(r.sleeps.is_empty());
    assert!(matches!(r.ending, Ending::Failed(RetryError::NonRetryableError(_))));
    assert!(r.failures.is_empty());

    let r = run(RetryConfig::new().max_retries(0), &[Outcome::Response(503)]);
    assert_eq!(r.attempts, 1);
    assert!(matches!(r.ending, Ending::Delivered(503)));
}

#[test]
fn override_selects_backoff_and_budget() {
    let config = RetryConfig::new().max_retries(1).error_strategy(
        RetryReason::NetworkError,
        ErrorStrategy::new().max_retries(2).base_delay(50).backoff_fn(Backoff::Linear),
    );
    let r = run(config, &[Outcome::Failure(connect_failure())]);
    assert_eq!(r.attempts, 3);
    assert_eq!(r.sleeps, vec![50, 100]);
    assert_eq!(r.retries[0].max_attempts, 3);
    assert_eq!(r.retries[0].error_type, RetryReason::NetworkError);
    assert!(matches!(r.ending, Ending::Failed(RetryError::RequestError(_))));
}

#[test]
fn request_not_duplicable_fails_immediately() {
    let mut fut = RetryFuture::new(RetryConfig::new());
    let r: Result<(), RetryError<String>> = fut.start_attempt(false);
    assert!(matches!(r, Err(RetryError::RequestBuilderCloneError)));
    assert_eq!(fut.state, RetryState::Done);
}

#[test]
fn budget_guard_when_ready_past_budget() {
    let mut fut = RetryFuture::new(RetryConfig::new());
    fut.attempts = 4;
    let r: Result<(), RetryError<String>> = fut.start_attempt(true);
    assert!(matches!(r, Err(RetryError::MaxRetriesExceeded)));
    assert_eq!(fut.state, RetryState::Done);
}

#[test]
fn first_attempt_issued() {
    let mut fut = RetryFuture::new(RetryConfig::new().max_retries(0));
    let r: Result<(), RetryError<String>> = fut.start_attempt(true);
    assert!(r.is_ok());
    assert_eq!(fut.state, RetryState::Requesting);
    assert_eq!(fut.attempts, 0);
}

#[test]
fn timer_returns_to_ready_without_telemetry() {
    let mut fut = RetryFuture::new(RetryConfig::new());
    let _: Result<(), RetryError<String>> = fut.start_attempt(true);
    let step = fut.on_response(503, RetryReason::ServerError, true, 0);
    assert!(matches!(step, ResponseStep::Retry(ref a) if a.delay == 200 && a.attempt == 1));
    assert_eq!(fut.state, RetryState::Sleeping { delay: 200 });
    fut.on_timer();
    assert_eq!(fut.state, RetryState::Ready);
    assert_eq!(fut.attempts, 1);
    assert_eq!(fut.current_error_type, Some(RetryReason::ServerError));
}

#[test]
fn calculate_delay_follows_current_reason() {
    let config = RetryConfig::new().error_strategy(
        RetryReason::Custom("Maintenance".to_string()),
        ErrorStrategy::new().base_delay(30_000).backoff_fn(Backoff::Fixed),
    );
    let mut fut = RetryFuture::new(config);
    assert_eq!(fut.calculate_delay(0), 100);
    fut.attempts = 2;
    fut.current_error_type = Some(RetryReason::Custom("Maintenance".to_string()));
    assert_eq!(fut.calculate_delay(0), 30_000);
    fut.current_error_type = Some(RetryReason::ServerError);
    assert_eq!(fut.calculate_delay(0), 400);
}

#[test]
fn custom_backoff_uses_handed_in_delay() {
    let config = RetryConfig::new().max_delay(1_000).error_strategy(
        RetryReason::RateLimit,
        ErrorStrategy::new().backoff_fn(Backoff::Custom),
    );
    let mut fut = RetryFuture::new(config);
    let _: Result<(), RetryError<String>> = fut.start_attempt(true);
    let step = fut.on_response(429, RetryReason::RateLimit, true, 750);
    assert!(matches!(step, ResponseStep::Retry(ref a) if a.delay == 750));
    fut.on_timer();
    let _: Result<(), RetryError<String>> = fut.start_attempt(true);
    let step = fut.on_error(
        "boom".to_string(),
        "boom".to_string(),
        RetryReason::RateLimit,
        true,
        5_000,
    );
    assert!(matches!(step, ErrorStep::Retry(ref a) if a.delay == 1_000 && a.attempt == 2));
    assert_eq!(fut.calculate_delay(90), 90);
    fut.on_timer();
    let _: Result<(), RetryError<String>> = fut.start_attempt(true);
    let step = fut.on_response(503, RetryReason::ServerError, true, 123);
    assert!(matches!(step, ResponseStep::Retry(ref a) if a.delay == 800));
}

#[test]
fn calculate_delay_exact_fractional_multiplier() {
    let mut fut = RetryFuture::new(RetryConfig::new().base_delay(1).backoff_multiplier(1500));
    fut.attempts = 2;
    assert_eq!(fut.calculate_delay(0), 2);
    let mut fut = RetryFuture::new(RetryConfig::new().base_delay(10).backoff_multiplier(1050));
    fut.attempts = 10;
    assert_eq!(fut.calculate_delay(0), 16);
}
