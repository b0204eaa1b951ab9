//! The retry state machine: one value per retry sequence, driven by the caller
//! that performs the transport calls and the waits it asks for.
//!
//! A sequence starts `Ready`. [`RetryFuture::start_attempt`] issues an attempt
//! (`Requesting`) or ends it; the outcome goes to [`RetryFuture::on_response`]
//! or [`RetryFuture::on_error`], which end the sequence or ask for a wait
//! (`Sleeping`); [`RetryFuture::on_timer`] returns to `Ready` once the wait has
//! elapsed. A sequence that has ended (`Done`) accepts no further event.
use crate::backoff::{backoff_value, lemma_backoff_within_max, Backoff, MULTIPLIER_SCALE};
use crate::config::{EffectiveStrategy, RetryConfig};
use crate::reason::{ReasonView, RetryReason};
use vstd::prelude::*;

verus! {

/// How a retry sequence ends without a usable outcome. `E` is the transport's
/// failure type.
#[derive(Debug)]
pub enum RetryError<E> {
    /// The attempts that the effective policy allows were used up.
    MaxRetriesExceeded,
    /// The retry predicate declined to retry this transport failure.
    NonRetryableError(E),
    /// The last transport failure, once the retry budget was used up.
    RequestError(E),
    /// The request could not be duplicated for an attempt.
    RequestBuilderCloneError,
}

/// Telemetry for one attempt, handed to the `on_retry` and `on_failure` observers.
#[derive(Clone, Debug)]
pub struct RetryAttempt {
    /// The number of retries used, counting this one where a retry follows.
    pub attempt: usize,
    /// The effective `max_retries + 1`.
    pub max_attempts: usize,
    /// The wait before the next attempt, in milliseconds.
    pub delay: u64,
    /// A description of the transport failure, if there was one.
    pub error: Option<String>,
    /// The status of the response, if there was one.
    pub response_status: Option<u16>,
    /// The reason the outcome was classified as.
    pub error_type: RetryReason,
}

/// The phase of a retry sequence.
#[derive(Clone, Copy, Debug, PartialEq, Eq, Structural)]
pub enum RetryState {
    /// About to issue an attempt.
    Ready,
    /// A transport call is outstanding.
    Requesting,
    /// Waiting `delay` milliseconds before the next attempt.
    Sleeping { delay: u64 },
    /// The sequence has produced its result.
    Done,
}

/// What follows a completed response.
#[derive(Debug)]
pub enum ResponseStep {
    /// Hand the response to the caller; the sequence is over.
    Deliver,
    /// Wait, then try again; the telemetry is for `on_retry`.
    Retry(RetryAttempt),
}

/// What follows a transport failure.
#[derive(Debug)]
pub enum ErrorStep<E> {
    /// Wait, then try again; the telemetry is for `on_retry`.
    Retry(RetryAttempt),
    /// The sequence ends with this error; the telemetry, where there is
    /// some, is for `on_failure`.
    Fail(RetryError<E>, Option<RetryAttempt>),
}

/// `max_retries + 1`, saturating at `usize::MAX`.
pub open spec fn max_attempts_for(max_retries: usize) -> usize {
    if max_retries < usize::MAX {
        (max_retries + 1) as usize
    } else {
        usize::MAX
    }
}

/// The state of one retry sequence.
pub struct RetryFuture {
    pub config: RetryConfig,
    /// Retries used so far.
    pub attempts: usize,
    /// The reason of the last outcome that led to a retry; none before the first.
    pub current_error_type: Option<RetryReason>,
    pub state: RetryState,
}

impl RetryFuture {
    /// The strategy in force: the base policy before any retry, else the one
    /// resolved for the last reason.
    pub open spec fn current_spec(&self) -> EffectiveStrategy {
        match self.current_error_type {
            None => self.config.base_spec(),
            Some(r) => self.config.effective(r@),
        }
    }

    /// The retries used do not exceed what the strategy in force allows.
    pub open spec fn within_budget(&self) -> bool {
        self.attempts <= self.current_spec().max_retries
    }

    /// Whether an outcome of `reason` that the predicate wants retried may be.
    pub open spec fn retry_allowed(&self, reason: ReasonView) -> bool {
        self.attempts < self.config.effective(reason).max_retries
    }

    /// The wait before attempt `attempts` under the strategy `s`, where a
    /// custom backoff gave `custom`.
    pub open spec fn delay_spec(s: EffectiveStrategy, attempts: nat, custom: int) -> int {
        backoff_value(
            s.backoff_fn,
            attempts,
            s.base_delay as int,
            s.backoff_multiplier as int,
            s.max_delay as int,
            custom,
        )
    }

    /// The wait before the retry that an outcome of `reason` leads to.
    pub open spec fn retry_delay(&self, reason: ReasonView, custom: int) -> int {
        Self::delay_spec(self.config.effective(reason), (self.attempts + 1) as nat, custom)
    }

    /// Telemetry of a retry decided for an outcome of `reason`.
    pub open spec fn is_retry_telemetry(
        &self,
        a: RetryAttempt,
        reason: ReasonView,
        error: Option<String>,
        status: Option<u16>,
        custom: int,
    ) -> bool {
        &&& a.attempt == self.attempts + 1
        &&& a.max_attempts == max_attempts_for(self.config.effective(reason).max_retries)
        &&& a.delay == self.retry_delay(reason, custom)
        &&& a.error == error
        &&& a.response_status == status
        &&& a.error_type@ == reason
    }

    /// The state after a retry decided for an outcome of `reason`.
    pub open spec fn is_retry_successor(
        &self,
        next: &RetryFuture,
        reason: ReasonView,
        custom: int,
    ) -> bool {
        &&& next.config == self.config
        &&& next.attempts == self.attempts + 1
        &&& next.current_error_type matches Some(r) && r@ == reason
        &&& next.state == (RetryState::Sleeping { delay: self.retry_delay(reason, custom) as u64 })
    }

    /// The same sequence, ended.
    pub open spec fn is_ended(&self, next: &RetryFuture) -> bool {
        &&& next.config == self.config
        &&& next.attempts == self.attempts
        &&& next.current_error_type == self.current_error_type
        &&& next.state == RetryState::Done
    }

    /// A fresh sequence under `config`.
    pub fn new(config: RetryConfig) -> (r: RetryFuture)
        ensures
            r.config == config,
            r.attempts == 0,
            r.current_error_type is None,
            r.state == RetryState::Ready,
            r.within_budget(),
    {
        RetryFuture { config, attempts: 0, current_error_type: None, state: RetryState::Ready }
    }

    /// The strategy in force.
    pub fn current_strategy(&self) -> (r: EffectiveStrategy)
        ensures
            r == self.current_spec(),
            self.config.wf() ==> r.backoff_multiplier >= MULTIPLIER_SCALE,
    {
        match &self.current_error_type {
            None => self.config.base_strategy(),
            Some(reason) => self.config.get_effective_strategy(reason),
        }
    }

    /// The wait before the attempt numbered by the retries used so far, under
    /// the strategy in force; `custom` is what the caller's own backoff
    /// function gave, used where that strategy selects `Backoff::Custom`.
    pub fn calculate_delay(&self, custom: u64) -> (r: u64)
        requires
            self.config.wf(),
        ensures
            r == Self::delay_spec(self.current_spec(), self.attempts as nat, custom as int),
            self.current_spec().backoff_fn != Backoff::Fixed || self.current_spec().base_delay
                <= self.current_spec().max_delay ==> r <= self.current_spec().max_delay,
    {
        let s = self.current_strategy();
        proof {
            if s.backoff_fn != Backoff::Fixed || s.base_delay <= s.max_delay {
                lemma_backoff_within_max(
                    s.backoff_fn,
                    self.attempts as nat,
                    s.base_delay as int,
                    s.backoff_multiplier as int,
                    s.max_delay as int,
                    custom as int,
                );
            }
        }
        s.backoff_fn.delay(self.attempts, s.base_delay, s.backoff_multiplier, s.max_delay, custom)
    }

    /// Leaves `Ready`: ends the sequence when the retries used exceed what the
    /// strategy in force allows, or when the request could not be duplicated
    /// (`request_cloned` is false); else the attempt is issued.
    pub fn start_attempt<E>(&mut self, request_cloned: bool) -> (r: Result<(), RetryError<E>>)
        requires
            old(self).state == RetryState::Ready,
        ensures
            final(self).config == old(self).config,
            final(self).attempts == old(self).attempts,
            final(self).current_error_type == old(self).current_error_type,
            if old(self).attempts > old(self).current_spec().max_retries {
                r == Err::<(), RetryError<E>>(RetryError::MaxRetriesExceeded)
                    && final(self).state == RetryState::Done
            } else if !request_cloned {
                r == Err::<(), RetryError<E>>(RetryError::RequestBuilderCloneError)
                    && final(self).state == RetryState::Done
            } else {
                r == Ok::<(), RetryError<E>>(()) && final(self).state == RetryState::Requesting
            },
    {
        let strategy = self.current_strategy();
        if self.attempts > strategy.max_retries {
            self.state = RetryState::Done;
            return Err(RetryError::MaxRetriesExceeded);
        }
        if !request_cloned {
            self.state = RetryState::Done;
            return Err(RetryError::RequestBuilderCloneError);
        }
        self.state = RetryState::Requesting;
        Ok(())
    }

    /// Records a retry for an outcome of `reason` and moves to `Sleeping`.
    fn begin_retry(
        &mut self,
        strategy: &EffectiveStrategy,
        reason: RetryReason,
        error: Option<String>,
        status: Option<u16>,
        custom: u64,
    ) -> (r: RetryAttempt)
        requires
            old(self).config.wf(),
            *strategy == old(self).config.effective(reason@),
            old(self).attempts < strategy.max_retries,
        ensures
            old(self).is_retry_successor(&*final(self), reason@, custom as int),
            old(self).is_retry_telemetry(r, reason@, error, status, custom as int),
            final(self).within_budget(),
    {
        self.attempts = self.attempts + 1;
        self.current_error_type = Some(reason.duplicate());
        let delay = self.calculate_delay(custom);
        self.state = RetryState::Sleeping { delay };
        RetryAttempt {
            attempt: self.attempts,
            max_attempts: strategy.max_retries.saturating_add(1),
            delay,
            error,
            response_status: status,
            error_type: reason,
        }
    }

    /// Handles a completed response with `status`, classified as `reason`;
    /// `retry` is the response predicate's verdict. It is retried where the
    /// predicate asks for it and the strategy for `reason` has retries left;
    /// otherwise it is delivered and the sequence ends. `custom_delay` is what
    /// the caller's own backoff function gives for the next attempt, read only
    /// where the strategy for `reason` selects `Backoff::Custom`.
    pub fn on_response(
        &mut self,
        status: u16,
        reason: RetryReason,
        retry: bool,
        custom_delay: u64,
    ) -> (r: ResponseStep)
        requires
            old(self).state == RetryState::Requesting,
            old(self).config.wf(),
        ensures
            if retry && old(self).retry_allowed(reason@) {
                &&& old(self).is_retry_successor(&*final(self), reason@, custom_delay as int)
                &&& final(self).within_budget()
                &&& match r {
                    ResponseStep::Retry(a) => old(self).is_retry_telemetry(
                        a,
                        reason@,
                        None,
                        Some(status),
                        custom_delay as int,
                    ),
                    ResponseStep::Deliver => false,
                }
            } else {
                &&& old(self).is_ended(&*final(self))
                &&& r is Deliver
            },
    {
        let strategy = self.config.get_effective_strategy(&reason);
        if retry && self.attempts < strategy.max_retries {
            let a = self.begin_retry(&strategy, reason, None, Some(status), custom_delay);
            ResponseStep::Retry(a)
        } else {
            self.state = RetryState::Done;
            ResponseStep::Deliver
        }
    }

    /// Handles a transport failure, classified as `reason` and described by
    /// `description`; `retry` is the failure predicate's verdict. Without it
    /// the sequence ends with `NonRetryableError`; with no retries left for
    /// `reason` it ends with `RequestError` and telemetry for `on_failure`;
    /// otherwise a retry follows. `custom_delay` is read as in `on_response`.
    pub fn on_error<E>(
        &mut self,
        error: E,
        description: String,
        reason: RetryReason,
        retry: bool,
        custom_delay: u64,
    ) -> (r: ErrorStep<E>)
        requires
            old(self).state == RetryState::Requesting,
            old(self).config.wf(),
        ensures
            !retry ==> {
                &&& old(self).is_ended(&*final(self))
                &&& r == ErrorStep::Fail(RetryError::NonRetryableError(error), None)
            },
            retry && !old(self).retry_allowed(reason@) ==> {
                &&& old(self).is_ended(&*final(self))
                &&& match r {
                    ErrorStep::Fail(RetryError::RequestError(e), Some(a)) => {
                        &&& e == error
                        &&& a.attempt == old(self).attempts
                        &&& a.max_attempts == max_attempts_for(
                            old(self).config.effective(reason@).max_retries,
                        )
                        &&& a.delay == 0
                        &&& a.error == Some(description)
                        &&& a.response_status is None
                        &&& a.error_type == reason
                    },
                    _ => false,
                }
            },
            retry && old(self).retry_allowed(reason@) ==> {
                &&& old(self).is_retry_successor(&*final(self), reason@, custom_delay as int)
                &&& final(self).within_budget()
                &&& match r {
                    ErrorStep::Retry(a) => old(self).is_retry_telemetry(
                        a,
                        reason@,
                        Some(description),
                        None,
                        custom_delay as int,
                    ),
                    _ => false,
                }
            },
    {
        if !retry {
            self.state = RetryState::Done;
            return ErrorStep::Fail(RetryError::NonRetryableError(error), None);
        }
        let strategy = self.config.get_effective_strategy(&reason);
        if self.attempts >= strategy.max_retries {
            self.state = RetryState::Done;
            let telemetry = RetryAttempt {
                attempt: self.attempts,
                max_attempts: strategy.max_retries.saturating_add(1),
                delay: 0,
                error: Some(description),
                response_status: None,
                error_type: reason,
            };
            ErrorStep::Fail(RetryError::RequestError(error), Some(telemetry))
        } else {
            let a = self.begin_retry(&strategy, reason, Some(description), None, custom_delay);
            ErrorStep::Retry(a)
        }
    }

    /// The wait has elapsed: back to `Ready`.
    pub fn on_timer(&mut self)
        requires
            old(self).state is Sleeping,
        ensures
            final(self).config == old(self).config,
            final(self).attempts == old(self).attempts,
            final(self).current_error_type == old(self).current_error_type,
            final(self).state == RetryState::Ready,
            old(self).within_budget() ==> final(self).within_budget(),
    {
        self.state = RetryState::Ready;
    }
}

/// A sequence kept within its budget never meets the budget guard of
/// `start_attempt`: leaving `Ready` either issues the attempt or fails because
/// the request could not be duplicated.
pub proof fn lemma_budget_guard_unreached(fut: &RetryFuture)
    requires
        fut.within_budget(),
    ensures
        !(fut.attempts > fut.current_spec().max_retries),
{
}

/// With a budget of zero retries, for the base policy and in every override,
/// the first attempt's outcome is never retried: a response is delivered and a
/// transport failure ends the sequence, with no wait in between.
pub proof fn lemma_zero_budget_never_retries(fut: &RetryFuture, reason: ReasonView)
    requires
        fut.attempts == 0,
        fut.config.max_retries == 0,
        forall|x: ReasonView|
            #[trigger] fut.config.override_for(x) matches Some(s) ==> s.max_retries is None
                || s.max_retries == Some(0usize),
    ensures
        !fut.retry_allowed(reason),
{
    assert(fut.config.override_for(reason) matches Some(s) ==> s.max_retries is None
        || s.max_retries == Some(0usize));
}

} // verus!
