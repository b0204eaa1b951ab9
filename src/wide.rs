//! Unbounded natural numbers as little-endian `u64` limbs: just enough
//! arithmetic to evaluate a backoff formula exactly before rounding it.
use vstd::prelude::*;

verus! {

pub open spec fn limb_base() -> int {
    0x1_0000_0000_0000_0000
}

/// The weight of limb `i`: `2^(64 i)`.
pub open spec fn place(i: nat) -> int
    decreases i,
{
    if i == 0 {
        1
    } else {
        place((i - 1) as nat) * limb_base()
    }
}

pub open spec fn limb_at(s: Seq<u64>, i: int) -> int {
    if 0 <= i < s.len() {
        s[i] as int
    } else {
        0
    }
}

/// The value of the lowest `n` limbs.
pub open spec fn value_upto(s: Seq<u64>, n: nat) -> int
    decreases n,
{
    if n == 0 {
        0
    } else {
        value_upto(s, (n - 1) as nat) + limb_at(s, n - 1) * place((n - 1) as nat)
    }
}

/// The number that the limbs stand for.
pub open spec fn value(s: Seq<u64>) -> int {
    value_upto(s, s.len())
}

proof fn lemma_place_positive(i: nat)
    ensures
        place(i) >= 1,
    decreases i,
{
    if i > 0 {
        lemma_place_positive((i - 1) as nat);
        let p = place((i - 1) as nat);
        assert(p * limb_base() >= 1) by (nonlinear_arith)
            requires
                p >= 1,
        ;
    }
}

proof fn lemma_upto_bound(s: Seq<u64>, n: nat)
    ensures
        0 <= value_upto(s, n) < place(n),
    decreases n,
{
    if n > 0 {
        lemma_upto_bound(s, (n - 1) as nat);
        lemma_place_positive((n - 1) as nat);
        let v = value_upto(s, (n - 1) as nat);
        let l = limb_at(s, n - 1);
        let p = place((n - 1) as nat);
        assert(0 <= v + l * p < p * limb_base()) by (nonlinear_arith)
            requires
                0 <= v < p,
                0 <= l < limb_base(),
                p >= 1,
        ;
    }
}

proof fn lemma_upto_beyond(s: Seq<u64>, n: nat)
    requires
        n >= s.len(),
    ensures
        value_upto(s, n) == value(s),
    decreases n,
{
    if n > s.len() {
        lemma_upto_beyond(s, (n - 1) as nat);
    }
}

proof fn lemma_upto_push(s: Seq<u64>, x: u64, n: nat)
    requires
        n <= s.len(),
    ensures
        value_upto(s.push(x), n) == value_upto(s, n),
    decreases n,
{
    if n > 0 {
        lemma_upto_push(s, x, (n - 1) as nat);
        assert(limb_at(s.push(x), n - 1) == limb_at(s, n - 1));
    }
}

/// The single limb `x`.
pub fn from_u64(x: u64) -> (r: Vec<u64>)
    ensures
        value(r@) == x,
{
    let r = vec![x];
    proof {
        assert(value_upto(r@, 0) == 0);
        assert(limb_at(r@, 0) == x);
        assert(place(0) == 1);
    }
    r
}

/// `x * k`.
pub fn mul_small(x: &Vec<u64>, k: u64) -> (r: Vec<u64>)
    ensures
        value(r@) == value(x@) * k,
{
    let mut r: Vec<u64> = Vec::new();
    let mut carry: u64 = 0;
    let mut i: usize = 0;
    while i < x.len()
        invariant
            i <= x@.len(),
            r@.len() == i,
            value(r@) + carry * place(i as nat) == value_upto(x@, i as nat) * k,
        decreases x@.len() - i,
    {
        let xi = x[i];
        assert(xi * k + carry <= (u64::MAX as int) * (u64::MAX as int) + u64::MAX) by (nonlinear_arith)
            requires
                xi <= u64::MAX,
                k <= u64::MAX,
                carry <= u64::MAX,
        ;
        let t: u128 = (xi as u128) * (k as u128) + (carry as u128);
        let lo: u64 = (t % 0x1_0000_0000_0000_0000u128) as u64;
        let hi: u64 = (t / 0x1_0000_0000_0000_0000u128) as u64;
        proof {
            let p = place(i as nat);
            lemma_upto_push(r@, lo, i as nat);
            assert(limb_at(r@.push(lo), i as int) == lo);
            assert(value(r@.push(lo)) == value(r@) + lo * p);
            assert(limb_at(x@, i as int) == xi);
            assert(value_upto(x@, (i + 1) as nat) == value_upto(x@, i as nat) + xi * p);
            assert(place((i + 1) as nat) == p * limb_base());
            assert(t == lo + hi * limb_base());
            assert(value(r@) + lo * p + hi * (p * limb_base()) == (value_upto(x@, i as nat) + xi * p)
                * k) by (nonlinear_arith)
                requires
                    value(r@) + carry * p == value_upto(x@, i as nat) * k,
                    t == lo + hi * limb_base(),
                    t == xi * k + carry,
            ;
        }
        r.push(lo);
        carry = hi;
        i = i + 1;
    }
    proof {
        lemma_upto_push(r@, carry, i as nat);
        assert(limb_at(r@.push(carry), i as int) == carry);
    }
    r.push(carry);
    r
}

/// Whether `x <= y`.
pub fn le(x: &Vec<u64>, y: &Vec<u64>) -> (r: bool)
    ensures
        r == (value(x@) <= value(y@)),
{
    let n: usize = if x.len() >= y.len() {
        x.len()
    } else {
        y.len()
    };
    proof {
        lemma_upto_beyond(x@, n as nat);
        lemma_upto_beyond(y@, n as nat);
    }
    let mut i: usize = n;
    while i > 0
        invariant
            i <= n,
            value(x@) - value_upto(x@, i as nat) == value(y@) - value_upto(y@, i as nat),
        decreases i,
    {
        let a: u64 = if i - 1 < x.len() {
            x[i - 1]
        } else {
            0
        };
        let b: u64 = if i - 1 < y.len() {
            y[i - 1]
        } else {
            0
        };
        proof {
            assert(limb_at(x@, i - 1) == a);
            assert(limb_at(y@, i - 1) == b);
        }
        if a != b {
            proof {
                let p = place((i - 1) as nat);
                lemma_upto_bound(x@, (i - 1) as nat);
                lemma_upto_bound(y@, (i - 1) as nat);
                let vx = value_upto(x@, (i - 1) as nat);
                let vy = value_upto(y@, (i - 1) as nat);
                assert(value_upto(x@, i as nat) == vx + a * p);
                assert(value_upto(y@, i as nat) == vy + b * p);
                if a < b {
                    assert(vx + a * p < vy + b * p) by (nonlinear_arith)
                        requires
                            0 <= vx < p,
                            0 <= vy,
                            a < b,
                    ;
                } else {
                    assert(vy + b * p < vx + a * p) by (nonlinear_arith)
                        requires
                            0 <= vy < p,
                            0 <= vx,
                            b < a,
                    ;
                }
            }
            return a < b;
        }
        i = i - 1;
    }
    true
}

} // verus!
