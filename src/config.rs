//! Retry policies: the base policy, per-reason overrides, and their resolution
//! into one effective strategy.
use crate::backoff::{Backoff, MULTIPLIER_SCALE};
use crate::reason::{ReasonView, RetryReason};
use vstd::prelude::*;

verus! {

/// `o`'s value if it is set, else `d`.
pub open spec fn or_else<T>(o: Option<T>, d: T) -> T {
    match o {
        Some(v) => v,
        None => d,
    }
}

/// A partial policy for one failure reason; each field that is unset falls
/// back to the base policy's value.
#[derive(Clone, Copy, Debug, PartialEq, Eq, Structural)]
pub struct ErrorStrategy {
    pub max_retries: Option<usize>,
    /// In milliseconds.
    pub base_delay: Option<u64>,
    /// In milliseconds.
    pub max_delay: Option<u64>,
    /// In thousandths.
    pub backoff_multiplier: Option<u64>,
    pub backoff_fn: Option<Backoff>,
}

impl ErrorStrategy {
    /// A multiplier, where one is set, is at least 1.
    pub open spec fn wf(&self) -> bool {
        self.backoff_multiplier matches Some(m) ==> m >= MULTIPLIER_SCALE
    }

    /// An override that sets nothing.
    pub fn new() -> (r: ErrorStrategy)
        ensures
            r.max_retries is None,
            r.base_delay is None,
            r.max_delay is None,
            r.backoff_multiplier is None,
            r.backoff_fn is None,
    {
        ErrorStrategy {
            max_retries: None,
            base_delay: None,
            max_delay: None,
            backoff_multiplier: None,
            backoff_fn: None,
        }
    }

    pub fn max_retries(self, max_retries: usize) -> (r: ErrorStrategy)
        ensures
            r == (ErrorStrategy { max_retries: Some(max_retries), ..self }),
    {
        ErrorStrategy { max_retries: Some(max_retries), ..self }
    }

    /// Sets the base delay, in milliseconds.
    pub fn base_delay(self, delay: u64) -> (r: ErrorStrategy)
        ensures
            r == (ErrorStrategy { base_delay: Some(delay), ..self }),
    {
        ErrorStrategy { base_delay: Some(delay), ..self }
    }

    /// Sets the largest delay, in milliseconds.
    pub fn max_delay(self, delay: u64) -> (r: ErrorStrategy)
        ensures
            r == (ErrorStrategy { max_delay: Some(delay), ..self }),
    {
        ErrorStrategy { max_delay: Some(delay), ..self }
    }

    /// Sets the multiplier, in thousandths; it is at least 1.
    pub fn backoff_multiplier(self, multiplier: u64) -> (r: ErrorStrategy)
        requires
            multiplier >= MULTIPLIER_SCALE,
        ensures
            r == (ErrorStrategy { backoff_multiplier: Some(multiplier), ..self }),
    {
        ErrorStrategy { backoff_multiplier: Some(multiplier), ..self }
    }

    pub fn backoff_fn(self, backoff_fn: Backoff) -> (r: ErrorStrategy)
        ensures
            r == (ErrorStrategy { backoff_fn: Some(backoff_fn), ..self }),
    {
        ErrorStrategy { backoff_fn: Some(backoff_fn), ..self }
    }
}

/// A fully resolved policy for one failure reason.
#[derive(Clone, Copy, Debug, PartialEq, Eq, Structural)]
pub struct EffectiveStrategy {
    pub max_retries: usize,
    /// In milliseconds.
    pub base_delay: u64,
    /// In milliseconds.
    pub max_delay: u64,
    /// In thousandths.
    pub backoff_multiplier: u64,
    pub backoff_fn: Backoff,
}

/// The override that `entries` holds for `reason`: the last one added for it.
pub open spec fn override_in(entries: Seq<(RetryReason, ErrorStrategy)>, reason: ReasonView) -> Option<
    ErrorStrategy,
>
    decreases entries.len(),
{
    if entries.len() == 0 {
        None
    } else if entries.last().0@ == reason {
        Some(entries.last().1)
    } else {
        override_in(entries.drop_last(), reason)
    }
}

/// The policy of one retry sequence.
pub struct RetryConfig {
    /// Retries allowed after the first attempt.
    pub max_retries: usize,
    /// In milliseconds.
    pub base_delay: u64,
    /// In milliseconds.
    pub max_delay: u64,
    /// In thousandths, at least [`MULTIPLIER_SCALE`].
    pub backoff_multiplier: u64,
    pub backoff_fn: Backoff,
    /// Overrides by reason, in the order they were added.
    pub error_strategies: Vec<(RetryReason, ErrorStrategy)>,
}

impl RetryConfig {
    /// Every multiplier, of the base policy and of each override, is at least 1.
    pub open spec fn wf(&self) -> bool {
        &&& self.backoff_multiplier >= MULTIPLIER_SCALE
        &&& forall|i: int|
            0 <= i < self.error_strategies@.len() ==> (#[trigger] self.error_strategies@[i]).1.wf()
    }

    pub open spec fn override_for(&self, reason: ReasonView) -> Option<ErrorStrategy> {
        override_in(self.error_strategies@, reason)
    }

    /// The base policy's own fields.
    pub open spec fn base_spec(&self) -> EffectiveStrategy {
        EffectiveStrategy {
            max_retries: self.max_retries,
            base_delay: self.base_delay,
            max_delay: self.max_delay,
            backoff_multiplier: self.backoff_multiplier,
            backoff_fn: self.backoff_fn,
        }
    }

    /// Each field from the override for `reason` where it sets one, else from
    /// the base policy.
    pub open spec fn effective(&self, reason: ReasonView) -> EffectiveStrategy {
        match self.override_for(reason) {
            None => self.base_spec(),
            Some(s) => EffectiveStrategy {
                max_retries: or_else(s.max_retries, self.max_retries),
                base_delay: or_else(s.base_delay, self.base_delay),
                max_delay: or_else(s.max_delay, self.max_delay),
                backoff_multiplier: or_else(s.backoff_multiplier, self.backoff_multiplier),
                backoff_fn: or_else(s.backoff_fn, self.backoff_fn),
            },
        }
    }

    /// The default policy: 3 retries, exponential backoff from 100 ms doubling
    /// up to 30 s, and no overrides.
    pub fn new() -> (r: RetryConfig)
        ensures
            r.max_retries == 3,
            r.base_delay == 100,
            r.max_delay == 30_000,
            r.backoff_multiplier == 2 * MULTIPLIER_SCALE,
            r.backoff_fn == Backoff::Exponential,
            r.error_strategies@.len() == 0,
            r.wf(),
    {
        RetryConfig {
            max_retries: 3,
            base_delay: 100,
            max_delay: 30_000,
            backoff_multiplier: 2 * MULTIPLIER_SCALE,
            backoff_fn: Backoff::Exponential,
            error_strategies: Vec::new(),
        }
    }

    pub fn max_retries(self, max_retries: usize) -> (r: RetryConfig)
        ensures
            r.max_retries == max_retries,
            r.base_delay == self.base_delay,
            r.max_delay == self.max_delay,
            r.backoff_multiplier == self.backoff_multiplier,
            r.backoff_fn == self.backoff_fn,
            r.error_strategies@ == self.error_strategies@,
    {
        RetryConfig { max_retries, ..self }
    }

    /// Sets the base delay, in milliseconds.
    pub fn base_delay(self, delay: u64) -> (r: RetryConfig)
        ensures
            r.max_retries == self.max_retries,
            r.base_delay == delay,
            r.max_delay == self.max_delay,
            r.backoff_multiplier == self.backoff_multiplier,
            r.backoff_fn == self.backoff_fn,
            r.error_strategies@ == self.error_strategies@,
    {
        RetryConfig { base_delay: delay, ..self }
    }

    /// Sets the largest delay, in milliseconds.
    pub fn max_delay(self, delay: u64) -> (r: RetryConfig)
        ensures
            r.max_retries == self.max_retries,
            r.base_delay == self.base_delay,
            r.max_delay == delay,
            r.backoff_multiplier == self.backoff_multiplier,
            r.backoff_fn == self.backoff_fn,
            r.error_strategies@ == self.error_strategies@,
    {
        RetryConfig { max_delay: delay, ..self }
    }

    /// Sets the multiplier, in thousandths; it is at least 1.
    pub fn backoff_multiplier(self, multiplier: u64) -> (r: RetryConfig)
        requires
            multiplier >= MULTIPLIER_SCALE,
        ensures
            r.max_retries == self.max_retries,
            r.base_delay == self.base_delay,
            r.max_delay == self.max_delay,
            r.backoff_multiplier == multiplier,
            r.backoff_fn == self.backoff_fn,
            r.error_strategies@ == self.error_strategies@,
    {
        RetryConfig { backoff_multiplier: multiplier, ..self }
    }

    pub fn backoff_fn(self, backoff_fn: Backoff) -> (r: RetryConfig)
        ensures
            r.max_retries == self.max_retries,
            r.base_delay == self.base_delay,
            r.max_delay == self.max_delay,
            r.backoff_multiplier == self.backoff_multiplier,
            r.backoff_fn == backoff_fn,
            r.error_strategies@ == self.error_strategies@,
    {
        RetryConfig { backoff_fn, ..self }
    }

    /// Sets the override for `error_type`, replacing any earlier one for it.
    pub fn error_strategy(self, error_type: RetryReason, strategy: ErrorStrategy) -> (r: RetryConfig)
        requires
            strategy.wf(),
        ensures
            r.max_retries == self.max_retries,
            r.base_delay == self.base_delay,
            r.max_delay == self.max_delay,
            r.backoff_multiplier == self.backoff_multiplier,
            r.backoff_fn == self.backoff_fn,
            forall|x: ReasonView|
                #[trigger] r.override_for(x) == if x == error_type@ {
                    Some(strategy)
                } else {
                    self.override_for(x)
                },
            self.wf() ==> r.wf(),
    {
        let ghost old_entries = self.error_strategies@;
        let mut entries = self.error_strategies;
        entries.push((error_type, strategy));
        proof {
            assert(entries@.drop_last() =~= old_entries);
        }
        RetryConfig { error_strategies: entries, ..self }
    }

    /// The base policy's fields, as used before any failure has been seen.
    pub fn base_strategy(&self) -> (r: EffectiveStrategy)
        ensures
            r == self.base_spec(),
    {
        EffectiveStrategy {
            max_retries: self.max_retries,
            base_delay: self.base_delay,
            max_delay: self.max_delay,
            backoff_multiplier: self.backoff_multiplier,
            backoff_fn: self.backoff_fn,
        }
    }

    /// The override for `error_type`, if the policy holds one.
    pub fn find_override(&self, error_type: &RetryReason) -> (r: Option<ErrorStrategy>)
        ensures
            r == self.override_for(error_type@),
    {
        let mut i: usize = self.error_strategies.len();
        assert(self.error_strategies@.subrange(0, i as int) =~= self.error_strategies@);
        while i > 0
            invariant
                i <= self.error_strategies@.len(),
                override_in(self.error_strategies@.subrange(0, i as int), error_type@)
                    == self.override_for(error_type@),
            decreases i,
        {
            let ghost prefix = self.error_strategies@.subrange(0, i as int);
            proof {
                assert(prefix.drop_last() =~= self.error_strategies@.subrange(0, i - 1));
            }
            if self.error_strategies[i - 1].0.same_as(error_type) {
                return Some(self.error_strategies[i - 1].1);
            }
            i = i - 1;
        }
        None
    }

    /// Resolves the policy for `error_type`: each field from its override where
    /// that sets one, else from the base policy.
    pub fn get_effective_strategy(&self, error_type: &RetryReason) -> (r: EffectiveStrategy)
        ensures
            r == self.effective(error_type@),
            self.wf() ==> r.backoff_multiplier >= MULTIPLIER_SCALE,
    {
        proof {
            self.lemma_override_wf(error_type@);
        }
        match self.find_override(error_type) {
            None => self.base_strategy(),
            Some(s) => EffectiveStrategy {
                max_retries: match s.max_retries {
                    Some(v) => v,
                    None => self.max_retries,
                },
                base_delay: match s.base_delay {
                    Some(v) => v,
                    None => self.base_delay,
                },
                max_delay: match s.max_delay {
                    Some(v) => v,
                    None => self.max_delay,
                },
                backoff_multiplier: match s.backoff_multiplier {
                    Some(v) => v,
                    None => self.backoff_multiplier,
                },
                backoff_fn: match s.backoff_fn {
                    Some(v) => v,
                    None => self.backoff_fn,
                },
            },
        }
    }

    proof fn lemma_override_wf(&self, reason: ReasonView)
        ensures
            self.wf() ==> (self.override_for(reason) matches Some(s) ==> s.wf()),
            self.wf() ==> self.effective(reason).backoff_multiplier >= MULTIPLIER_SCALE,
    {
        if self.wf() {
            lemma_override_in_member(self.error_strategies@, reason);
        }
    }
}

impl Default for RetryConfig {
    fn default() -> (r: RetryConfig)
        ensures
            r.max_retries == 3,
            r.base_delay == 100,
            r.max_delay == 30_000,
            r.backoff_multiplier == 2 * MULTIPLIER_SCALE,
            r.backoff_fn == Backoff::Exponential,
            r.error_strategies@.len() == 0,
            r.wf(),
    {
        RetryConfig::new()
    }
}

proof fn lemma_override_in_member(entries: Seq<(RetryReason, ErrorStrategy)>, reason: ReasonView)
    ensures
        override_in(entries, reason) matches Some(s) ==> exists|i: int|
            0 <= i < entries.len() && #[trigger] entries[i].1 == s,
    decreases entries.len(),
{
    if entries.len() > 0 && entries.last().0@ != reason {
        lemma_override_in_member(entries.drop_last(), reason);
        match override_in(entries, reason) {
            Some(s) => {
                let i = choose|i: int|
                    0 <= i < entries.drop_last().len() && #[trigger] entries.drop_last()[i].1 == s;
                assert(entries[i].1 == s);
            },
            None => {},
        }
    } else if entries.len() > 0 {
        assert(entries[entries.len() - 1].1 == entries.last().1);
    }
}

/// Where the policy holds no override for a reason, resolving it gives the
/// base policy's fields unchanged.
pub proof fn lemma_no_override_is_base(config: &RetryConfig, reason: ReasonView)
    requires
        config.override_for(reason) is None,
    ensures
        config.effective(reason) == config.base_spec(),
{
}

} // verus!
