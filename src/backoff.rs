//! Backoff algorithms.
//!
//! Every delay is a whole number of milliseconds. A multiplier is given in
//! thousandths (`1500` stands for a factor of 1.5), see [`MULTIPLIER_SCALE`].
use std::collections::hash_map::DefaultHasher;
use std::hash::Hasher;
use vstd::bytes::{spec_u64_to_le_bytes, u64_to_le_bytes};
use crate::wide::{from_u64, le, mul_small, value};
use vstd::arithmetic::div_mod::{
    lemma_div_denominator, lemma_div_is_ordered, lemma_fundamental_div_mod,
    lemma_fundamental_div_mod_converse,
};
use vstd::arithmetic::power::{lemma_pow_positive, pow};
use vstd::prelude::*;
use vstd::std_specs::hash::DefaultHasherAdditionalSpecFns;

verus! {

/// A multiplier of `MULTIPLIER_SCALE` stands for a factor of exactly 1.
pub const MULTIPLIER_SCALE: u64 = 1000;

pub open spec fn min_int(a: int, b: int) -> int {
    if a <= b {
        a
    } else {
        b
    }
}

pub open spec fn max_int(a: int, b: int) -> int {
    if a >= b {
        a
    } else {
        b
    }
}

/// The Fibonacci numbers: `fib(0) == 0`, `fib(1) == 1`.
pub open spec fn fib(n: nat) -> nat
    decreases n,
{
    if n == 0 {
        0
    } else if n == 1 {
        1
    } else {
        fib((n - 1) as nat) + fib((n - 2) as nat)
    }
}

pub open spec fn linear_spec(attempt: int, base: int, max: int) -> int {
    min_int(base * attempt, max)
}

pub open spec fn fixed_spec(attempt: int, base: int) -> int {
    if attempt == 0 {
        0
    } else {
        base
    }
}

pub open spec fn fibonacci_spec(attempt: nat, base: int, max: int) -> int {
    min_int(base * max_int(fib(attempt + 1) as int, 1), max)
}

/// `min(base * (m / 1000)^attempt * (num / den), cap)` in exact arithmetic,
/// rounded down once to a whole millisecond.
pub open spec fn scaled_spec(attempt: nat, base: int, m: int, num: int, den: int, cap: int) -> int {
    min_int(base * pow(m, attempt) * num / (pow(1000, attempt) * den), cap)
}

/// `min(base * (m / 1000)^attempt, max)`, rounded down once.
pub open spec fn exponential_spec(attempt: nat, base: int, m: int, max: int) -> int {
    min_int(base * pow(m, attempt) / pow(1000, attempt), max)
}

/// The exponential delay scaled by `(1000 + jitter) / 2000`, a factor in
/// `[0.5, 1.0)` for a jitter in `[0, 1000)`, capped at `max`, rounded down once.
pub open spec fn jittered_spec(attempt: nat, base: int, m: int, max: int, jitter: int) -> int {
    scaled_spec(attempt, base, m, 1000 + jitter, 2000, max)
}

/// The jitter, in thousandths, drawn for an attempt: the `DefaultHasher` digest
/// of the attempt number's eight little-endian bytes, modulo 1000.
pub open spec fn attempt_jitter(attempt: u64) -> int {
    (DefaultHasher::spec_finish(seq![spec_u64_to_le_bytes(attempt)]) % 1000) as int
}

/// `(x * p) / (y * p) == x / y`.
proof fn lemma_cancel(x: int, y: int, p: int)
    requires
        x >= 0,
        y > 0,
        p > 0,
    ensures
        (x * p) / (y * p) == x / y,
{
    let q = x / y;
    let r = x % y;
    lemma_fundamental_div_mod(x, y);
    assert(x * p == q * (y * p) + r * p && 0 <= r * p < y * p) by (nonlinear_arith)
        requires
            x == y * q + r,
            0 <= r < y,
            p > 0,
    ;
    lemma_fundamental_div_mod_converse(x * p, y * p, q, r * p);
}

/// Once `cd * 1000^k <= bn * m^k`, this stays so for every later exponent.
proof fn lemma_saturation_persists(bn: int, cd: int, m: int, k: nat, a: nat)
    requires
        bn >= 0,
        cd >= 0,
        m >= 1000,
        k <= a,
        cd * pow(1000, k) <= bn * pow(m, k),
    ensures
        cd * pow(1000, a) <= bn * pow(m, a),
    decreases a - k,
{
    if k < a {
        lemma_saturation_persists(bn, cd, m, k, (a - 1) as nat);
        let j = (a - 1) as nat;
        lemma_pow_positive(m, j);
        let pm = pow(m, j);
        let pt = pow(1000, j);
        reveal(pow);
        assert(pow(m, a) == m * pm);
        assert(pow(1000, a) == 1000 * pt);
        assert(cd * (1000 * pt) <= bn * (m * pm)) by (nonlinear_arith)
            requires
                cd * pt <= bn * pm,
                bn >= 0,
                pm > 0,
                m >= 1000,
        ;
    }
}

/// `min(n / d, cap)`.
fn ratio_floor(n: &Vec<u64>, d: &Vec<u64>, cap: u64) -> (r: u64)
    requires
        value(d@) > 0,
        value(n@) >= 0,
    ensures
        r == min_int(value(n@) / value(d@), cap as int),
{
    let ghost nv = value(n@);
    let ghost dv = value(d@);
    if le(&mul_small(d, cap), n) {
        proof {
            lemma_div_is_ordered(dv * cap, nv, dv);
            lemma_fundamental_div_mod_converse(dv * cap, dv, cap as int, 0);
        }
        return cap;
    }
    let mut lo: u64 = 0;
    let mut hi: u64 = cap;
    while hi - lo > 1
        invariant
            lo < hi <= cap,
            dv == value(d@),
            nv == value(n@),
            dv * lo <= nv < dv * hi,
        decreases hi - lo,
    {
        let mid: u64 = lo + (hi - lo) / 2;
        if le(&mul_small(d, mid), n) {
            lo = mid;
        } else {
            hi = mid;
        }
    }
    proof {
        assert(hi == lo + 1);
        assert(nv == lo * dv + (nv - lo * dv) && 0 <= nv - lo * dv < dv) by (nonlinear_arith)
            requires
                dv * lo <= nv < dv * hi,
                hi == lo + 1,
        ;
        lemma_fundamental_div_mod_converse(nv, dv, lo as int, nv - lo * dv);
    }
    lo
}

/// `min(base * m^attempt * num / (1000^attempt * den), cap)`, evaluated exactly.
fn scaled_exponential(attempt: usize, base: u64, m: u64, num: u64, den: u64, cap: u64) -> (r: u64)
    requires
        m >= MULTIPLIER_SCALE,
        den >= 1,
    ensures
        r == scaled_spec(attempt as nat, base as int, m as int, num as int, den as int, cap as int),
{
    if base == 0 || num == 0 {
        proof {
            let x = base * pow(m as int, attempt as nat) * num;
            assert(x == 0) by (nonlinear_arith)
                requires
                    base == 0 || num == 0,
                    x == base * pow(m as int, attempt as nat) * num,
            ;
            lemma_pow_positive(1000, attempt as nat);
            assert(pow(1000, attempt as nat) * den > 0) by (nonlinear_arith)
                requires
                    pow(1000, attempt as nat) > 0,
                    den >= 1,
            ;
        }
        return 0;
    }
    let ghost bn = base * num;
    let mut n = mul_small(&from_u64(base), num);
    let mut d = from_u64(den);
    let mut k: usize = 0;
    proof {
        reveal(pow);
        assert(pow(m as int, 0) == 1);
        assert(pow(1000, 0) == 1);
    }
    while k < attempt
        invariant
            k <= attempt,
            m >= MULTIPLIER_SCALE,
            den >= 1,
            bn == base * num,
            value(n@) == bn * pow(m as int, k as nat),
            value(d@) == den * pow(1000, k as nat),
        decreases attempt - k,
    {
        proof {
            lemma_pow_positive(m as int, k as nat);
            lemma_pow_positive(1000, k as nat);
            lemma_pow_positive(m as int, attempt as nat);
            lemma_pow_positive(1000, attempt as nat);
            assert(bn * pow(m as int, k as nat) >= 0) by (nonlinear_arith)
                requires
                    bn >= 0,
                    pow(m as int, k as nat) > 0,
            ;
            assert(den * pow(1000, k as nat) > 0) by (nonlinear_arith)
                requires
                    den >= 1,
                    pow(1000, k as nat) > 0,
            ;
        }
        if le(&mul_small(&d, cap), &n) {
            proof {
                let pa = pow(m as int, attempt as nat);
                let ta = pow(1000, attempt as nat);
                assert(value(d@) * cap == (cap * den) * pow(1000, k as nat)) by (nonlinear_arith)
                    requires
                        value(d@) == den * pow(1000, k as nat),
                ;
                lemma_saturation_persists(bn, cap * den, m as int, k as nat, attempt as nat);
                assert(bn * pa == base * pa * num) by (nonlinear_arith)
                    requires
                        bn == base * num,
                ;
                assert(ta * den * cap <= base * pa * num) by (nonlinear_arith)
                    requires
                        (cap * den) * ta <= bn * pa,
                        bn * pa == base * pa * num,
                ;
                assert(ta * den > 0) by (nonlinear_arith)
                    requires
                        ta > 0,
                        den >= 1,
                ;
                lemma_div_is_ordered(ta * den * cap, base * pa * num, ta * den);
                lemma_fundamental_div_mod_converse(ta * den * cap, ta * den, cap as int, 0);
            }
            return cap;
        }
        if m == MULTIPLIER_SCALE {
            proof {
                let tk = pow(1000, k as nat);
                let ta = pow(1000, attempt as nat);
                lemma_cancel(bn, den as int, tk);
                lemma_cancel(bn, den as int, ta);
                assert(value(d@) == den * tk);
                assert(bn * tk == value(n@));
                assert(base * ta * num == bn * ta) by (nonlinear_arith)
                    requires
                        bn == base * num,
                ;
                assert(ta * den == den * ta);
            }
            return ratio_floor(&n, &d, cap);
        }
        proof {
            reveal(pow);
            assert(pow(m as int, (k + 1) as nat) == m * pow(m as int, k as nat));
            assert(pow(1000, (k + 1) as nat) == 1000 * pow(1000, k as nat));
            assert(bn * pow(m as int, k as nat) * m == bn * (m * pow(m as int, k as nat)))
                by (nonlinear_arith);
            assert(den * pow(1000, k as nat) * 1000 == den * (1000 * pow(1000, k as nat)))
                by (nonlinear_arith);
        }
        n = mul_small(&n, m);
        d = mul_small(&d, 1000);
        k = k + 1;
    }
    proof {
        let pa = pow(m as int, attempt as nat);
        let ta = pow(1000, attempt as nat);
        lemma_pow_positive(m as int, attempt as nat);
        lemma_pow_positive(1000, attempt as nat);
        assert(value(n@) == base * pa * num && value(d@) == ta * den && value(n@) >= 0
            && value(d@) > 0) by (nonlinear_arith)
            requires
                value(n@) == bn * pa,
                value(d@) == den * ta,
                bn == base * num,
                base >= 0,
                num >= 0,
                pa > 0,
                ta > 0,
                den >= 1,
        ;
    }
    ratio_floor(&n, &d, cap)
}

/// Linear backoff: `min(base_delay * attempt, max_delay)`.
pub fn linear(attempt: usize, base_delay: u64, _multiplier: u64, max_delay: u64) -> (r: u64)
    ensures
        r == linear_spec(attempt as int, base_delay as int, max_delay as int),
        r <= max_delay,
{
    assert((base_delay as int) * (attempt as int) <= (u64::MAX as int) * (u64::MAX as int))
        by (nonlinear_arith)
        requires
            base_delay <= u64::MAX,
            attempt <= u64::MAX,
    ;
    let product: u128 = (base_delay as u128) * (attempt as u128);
    if product < max_delay as u128 {
        product as u64
    } else {
        max_delay
    }
}

/// Fixed backoff: no wait before the first attempt, `base_delay` before every later one.
pub fn fixed(attempt: usize, base_delay: u64, _multiplier: u64, _max_delay: u64) -> (r: u64)
    ensures
        r == fixed_spec(attempt as int, base_delay as int),
{
    if attempt == 0 {
        0
    } else {
        base_delay
    }
}

proof fn lemma_fib_step(n: nat)
    ensures
        fib(n) <= fib(n + 1),
{
    if n >= 1 {
        assert(fib(n + 1) == fib(n) + fib((n - 1) as nat));
    }
}

proof fn lemma_fib_monotone(i: nat, j: nat)
    requires
        i <= j,
    ensures
        fib(i) <= fib(j),
    decreases j - i,
{
    if i < j {
        lemma_fib_monotone(i, (j - 1) as nat);
        lemma_fib_step((j - 1) as nat);
    }
}

proof fn lemma_fib_positive(n: nat)
    requires
        n >= 1,
    ensures
        fib(n) >= 1,
{
    lemma_fib_monotone(1, n);
}

/// Fibonacci backoff: `min(base_delay * max(fib(attempt + 1), 1), max_delay)`.
pub fn fibonacci(attempt: usize, base_delay: u64, _multiplier: u64, max_delay: u64) -> (r: u64)
    ensures
        r == fibonacci_spec(attempt as nat, base_delay as int, max_delay as int),
        r <= max_delay,
{
    proof {
        lemma_fib_positive(attempt as nat + 1);
    }
    if base_delay == 0 {
        return 0;
    }
    // prev == fib(k), cur == fib(k + 1)
    let mut prev: u128 = 0;
    let mut cur: u128 = 1;
    let mut k: usize = 0;
    while k < attempt
        invariant
            k <= attempt,
            base_delay >= 1,
            prev == fib(k as nat),
            cur == fib(k as nat + 1),
            prev <= cur,
            cur * base_delay <= 2 * (u64::MAX as int),
            fib(attempt as nat + 1) >= 1,
        decreases attempt - k,
    {
        if cur * (base_delay as u128) >= max_delay as u128 {
            proof {
                lemma_fib_monotone(k as nat + 1, attempt as nat + 1);
                assert(base_delay * fib(k as nat + 1) <= base_delay * fib(attempt as nat + 1))
                    by (nonlinear_arith)
                    requires
                        fib(k as nat + 1) <= fib(attempt as nat + 1),
                        base_delay >= 1,
                ;
                assert(max_int(fib(attempt as nat + 1) as int, 1) == fib(attempt as nat + 1));
                assert(base_delay * fib(attempt as nat + 1) >= max_delay);
            }
            return max_delay;
        }
        proof {
            assert(fib(k as nat + 2) == fib(k as nat + 1) + fib(k as nat));
            assert(cur < max_delay) by (nonlinear_arith)
                requires
                    cur * base_delay < max_delay,
                    base_delay >= 1,
            ;
            assert((prev + cur) * base_delay <= 2 * (u64::MAX as int)) by (nonlinear_arith)
                requires
                    cur * base_delay < max_delay,
                    prev <= cur,
                    base_delay >= 1,
                    max_delay <= u64::MAX,
            ;
        }
        let next: u128 = prev + cur;
        prev = cur;
        cur = next;
        k = k + 1;
    }
    let product: u128 = cur * (base_delay as u128);
    assert(k == attempt);
    assert(max_int(fib(attempt as nat + 1) as int, 1) == cur);
    assert(product == cur * base_delay);
    assert(product == base_delay * max_int(fib(attempt as nat + 1) as int, 1)) by (nonlinear_arith)
        requires
            product == cur * base_delay,
            max_int(fib(attempt as nat + 1) as int, 1) == cur,
    ;
    if product < max_delay as u128 {
        product as u64
    } else {
        max_delay
    }
}

/// Exponential backoff without jitter: `min(base_delay * m^attempt, max_delay)`,
/// with the multiplier `m` in thousandths, rounded down once.
pub fn default_backoff(attempt: usize, base_delay: u64, multiplier: u64, max_delay: u64) -> (r: u64)
    requires
        multiplier >= MULTIPLIER_SCALE,
    ensures
        r == exponential_spec(attempt as nat, base_delay as int, multiplier as int, max_delay as int),
        r <= max_delay,
{
    let r = scaled_exponential(attempt, base_delay, multiplier, 1, 1, max_delay);
    proof {
        let x = base_delay * pow(multiplier as int, attempt as nat);
        let t = pow(1000, attempt as nat);
        assert(x * 1 == x && t * 1 == t);
    }
    r
}

/// Exponential backoff scaled by a given jitter, in thousandths below 1000:
/// the delay is `min(exp * (1000 + jitter) / 2000, max_delay)`, rounded down once.
pub fn exponential_with_jitter(
    attempt: usize,
    base_delay: u64,
    multiplier: u64,
    max_delay: u64,
    jitter: u64,
) -> (r: u64)
    requires
        multiplier >= MULTIPLIER_SCALE,
        jitter < 1000,
    ensures
        r == jittered_spec(
            attempt as nat,
            base_delay as int,
            multiplier as int,
            max_delay as int,
            jitter as int,
        ),
        r <= max_delay,
{
    scaled_exponential(attempt, base_delay, multiplier, 1000 + jitter, 2000, max_delay)
}

/// The jitter drawn for an attempt: a stable hash of the attempt number,
/// reduced to thousandths below 1000.
pub fn jitter_for_attempt(attempt: usize) -> (r: u64)
    ensures
        r == attempt_jitter(attempt as u64),
        r < 1000,
{
    let bytes = u64_to_le_bytes(attempt as u64);
    let mut hasher = DefaultHasher::new();
    hasher.write(bytes.as_slice());
    let digest = hasher.finish();
    proof {
        assert(hasher@ == seq![spec_u64_to_le_bytes(attempt as u64)]);
    }
    digest % 1000
}

/// Exponential backoff with jitter: the exponential delay scaled by a factor in
/// `[0.5, 1.0)` that depends on the attempt number alone, capped at `max_delay`.
pub fn exponential_jitter(attempt: usize, base_delay: u64, multiplier: u64, max_delay: u64) -> (r: u64)
    requires
        multiplier >= MULTIPLIER_SCALE,
    ensures
        r == jittered_spec(
            attempt as nat,
            base_delay as int,
            multiplier as int,
            max_delay as int,
            attempt_jitter(attempt as u64),
        ),
        r <= max_delay,
{
    let jitter = jitter_for_attempt(attempt);
    exponential_with_jitter(attempt, base_delay, multiplier, max_delay, jitter)
}

/// The backoff algorithms a policy can select.
#[derive(Clone, Copy, Debug, PartialEq, Eq, Structural)]
pub enum Backoff {
    /// [`default_backoff`]
    Exponential,
    /// [`exponential_jitter`]
    ExponentialJitter,
    /// [`linear`]
    Linear,
    /// [`fixed`]
    Fixed,
    /// [`fibonacci`]
    Fibonacci,
    /// A function of the caller's own, whose result for the attempt at hand
    /// is handed in; it is capped at the largest delay.
    Custom,
}

/// The delay that `kind` gives before attempt `attempt`; `custom` is what the
/// caller's own function gave, which only `Backoff::Custom` reads.
pub open spec fn backoff_value(
    kind: Backoff,
    attempt: nat,
    base: int,
    m: int,
    max: int,
    custom: int,
) -> int {
    match kind {
        Backoff::Exponential => exponential_spec(attempt, base, m, max),
        Backoff::ExponentialJitter => jittered_spec(
            attempt,
            base,
            m,
            max,
            attempt_jitter(attempt as u64),
        ),
        Backoff::Linear => linear_spec(attempt as int, base, max),
        Backoff::Fixed => fixed_spec(attempt as int, base),
        Backoff::Fibonacci => fibonacci_spec(attempt, base, max),
        Backoff::Custom => min_int(custom, max),
    }
}

impl Backoff {
    /// Runs the selected algorithm; `custom` is the result of the caller's own
    /// function, which only `Backoff::Custom` uses.
    pub fn delay(
        &self,
        attempt: usize,
        base_delay: u64,
        multiplier: u64,
        max_delay: u64,
        custom: u64,
    ) -> (r: u64)
        requires
            multiplier >= MULTIPLIER_SCALE,
        ensures
            r == backoff_value(
                *self,
                attempt as nat,
                base_delay as int,
                multiplier as int,
                max_delay as int,
                custom as int,
            ),
    {
        match self {
            Backoff::Exponential => default_backoff(attempt, base_delay, multiplier, max_delay),
            Backoff::ExponentialJitter => exponential_jitter(
                attempt,
                base_delay,
                multiplier,
                max_delay,
            ),
            Backoff::Linear => linear(attempt, base_delay, multiplier, max_delay),
            Backoff::Fixed => fixed(attempt, base_delay, multiplier, max_delay),
            Backoff::Fibonacci => fibonacci(attempt, base_delay, multiplier, max_delay),
            Backoff::Custom => if custom < max_delay {
                custom
            } else {
                max_delay
            },
        }
    }
}

/// The exact exponential term and its scaled form are never negative.
proof fn lemma_scaled_nonneg(attempt: nat, base: int, m: int, num: int, den: int)
    requires
        base >= 0,
        m >= MULTIPLIER_SCALE,
        num >= 0,
        den >= 1,
    ensures
        base * pow(m, attempt) * num / (pow(1000, attempt) * den) >= 0,
        base * pow(m, attempt) / pow(1000, attempt) >= 0,
{
    lemma_pow_positive(m, attempt);
    lemma_pow_positive(1000, attempt);
    let x = base * pow(m, attempt);
    let t = pow(1000, attempt);
    assert(x >= 0 && x * num >= 0 && t * den > 0) by (nonlinear_arith)
        requires
            base >= 0,
            pow(m, attempt) > 0,
            num >= 0,
            t > 0,
            den >= 1,
            x == base * pow(m, attempt),
    ;
    lemma_div_is_ordered(0, x * num, t * den);
    lemma_div_is_ordered(0, x, t);
}

/// Every backoff algorithm waits between zero and `max` milliseconds. The fixed
/// algorithm returns `base` itself, so for it this holds where `base <= max`.
pub proof fn lemma_backoff_within_max(
    kind: Backoff,
    attempt: nat,
    base: int,
    m: int,
    max: int,
    custom: int,
)
    requires
        base >= 0,
        max >= 0,
        custom >= 0,
        m >= MULTIPLIER_SCALE,
        kind == Backoff::Fixed ==> base <= max,
    ensures
        0 <= backoff_value(kind, attempt, base, m, max, custom) <= max,
{
    match kind {
        Backoff::Exponential => {
            lemma_scaled_nonneg(attempt, base, m, 1, 1);
        },
        Backoff::ExponentialJitter => {
            lemma_scaled_nonneg(attempt, base, m, 1000 + attempt_jitter(attempt as u64), 2000);
        },
        Backoff::Linear => {
            assert(base * attempt >= 0) by (nonlinear_arith)
                requires
                    base >= 0,
                    attempt >= 0,
            ;
        },
        Backoff::Fibonacci => {
            let f = max_int(fib(attempt + 1) as int, 1);
            assert(base * f >= 0) by (nonlinear_arith)
                requires
                    base >= 0,
                    f >= 1,
            ;
        },
        _ => {},
    }
}

/// Jitter keeps the delay within half of, and at most, the capped exponential
/// delay `min(base * m^attempt, max)`, so never above `max`.
pub proof fn lemma_jitter_band(attempt: nat, base: int, m: int, max: int, jitter: int)
    requires
        base >= 0,
        max >= 0,
        m >= MULTIPLIER_SCALE,
        0 <= jitter < 1000,
    ensures
        exponential_spec(attempt, base, m, max) / 2 <= jittered_spec(attempt, base, m, max, jitter),
        jittered_spec(attempt, base, m, max, jitter) <= exponential_spec(attempt, base, m, max),
        jittered_spec(attempt, base, m, max, jitter) <= max,
{
    lemma_pow_positive(m, attempt);
    lemma_pow_positive(1000, attempt);
    let x = base * pow(m, attempt);
    let d = pow(1000, attempt);
    assert(x >= 0) by (nonlinear_arith)
        requires
            base >= 0,
            pow(m, attempt) > 0,
            x == base * pow(m, attempt),
    ;
    let f = 1000 + jitter;
    let e = x / d;
    let t = x * f / (d * 2000);
    // upper: x * f <= x * 2000, and (x * 2000) / (d * 2000) == x / d
    assert(x * f <= x * 2000 && x * 1000 <= x * f && d * 2000 > 0 && d * 2 > 0) by (nonlinear_arith)
        requires
            x >= 0,
            1000 <= f < 2000,
            d > 0,
    ;
    lemma_div_is_ordered(x * f, x * 2000, d * 2000);
    lemma_cancel(x, d, 2000);
    // lower: (x * 1000) / (d * 2000) == x / (d * 2) == (x / d) / 2
    lemma_div_is_ordered(x * 1000, x * f, d * 2000);
    lemma_cancel(x, d * 2, 1000);
    assert(d * 2 * 1000 == d * 2000);
    lemma_div_denominator(x, d, 2);
    assert(e / 2 <= t <= e);
    lemma_div_is_ordered(0, x, d);
    if e > max {
        lemma_div_is_ordered(max, e, 2);
    }
}

} // verus!
