//! Failure reasons: the categories that select a per-reason policy.
use vstd::prelude::*;

verus! {

/// The category of a failed or unfavourable attempt.
#[derive(Clone, Debug, Eq, Hash)]
pub enum RetryReason {
    /// The connection could not be made or timed out.
    NetworkError,
    /// The server answered with a 5xx status.
    ServerError,
    /// The server answered 429 Too Many Requests.
    RateLimit,
    /// The request itself was at fault.
    RequestError,
    /// A category named by the caller; equal names are the same reason.
    Custom(String),
}

/// The value of a [`RetryReason`], with a custom name as its characters.
pub enum ReasonView {
    NetworkError,
    ServerError,
    RateLimit,
    RequestError,
    Custom(Seq<char>),
}

impl View for RetryReason {
    type V = ReasonView;

    open spec fn view(&self) -> ReasonView {
        match self {
            RetryReason::NetworkError => ReasonView::NetworkError,
            RetryReason::ServerError => ReasonView::ServerError,
            RetryReason::RateLimit => ReasonView::RateLimit,
            RetryReason::RequestError => ReasonView::RequestError,
            RetryReason::Custom(name) => ReasonView::Custom(name@),
        }
    }
}

impl RetryReason {
    /// A copy of this reason.
    pub fn duplicate(&self) -> (r: RetryReason)
        ensures
            r@ == self@,
    {
        match self {
            RetryReason::NetworkError => RetryReason::NetworkError,
            RetryReason::ServerError => RetryReason::ServerError,
            RetryReason::RateLimit => RetryReason::RateLimit,
            RetryReason::RequestError => RetryReason::RequestError,
            RetryReason::Custom(name) => RetryReason::Custom(name.clone()),
        }
    }

    /// Whether two reasons are the same category.
    pub fn same_as(&self, other: &RetryReason) -> (r: bool)
        ensures
            r == (self@ == other@),
    {
        match self {
            RetryReason::NetworkError => matches!(other, RetryReason::NetworkError),
            RetryReason::ServerError => matches!(other, RetryReason::ServerError),
            RetryReason::RateLimit => matches!(other, RetryReason::RateLimit),
            RetryReason::RequestError => matches!(other, RetryReason::RequestError),
            RetryReason::Custom(a) => match other {
                RetryReason::Custom(b) => a.eq(b),
                _ => false,
            },
        }
    }
}

impl PartialEq for RetryReason {
    fn eq(&self, other: &RetryReason) -> (r: bool) {
        self.same_as(other)
    }
}

impl vstd::std_specs::cmp::PartialEqSpecImpl for RetryReason {
    open spec fn obeys_eq_spec() -> bool {
        true
    }

    open spec fn eq_spec(&self, other: &RetryReason) -> bool {
        self@ == other@
    }
}

} // verus!
