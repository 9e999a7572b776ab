//! An exponential backoff: each delay multiplies the previous one by a fixed
//! integer base, optionally capped at a maximum delay.

use vstd::prelude::*;

use vstd::arithmetic::power::pow;
use vstd::arithmetic::power::lemma_pow_positive;
use vstd::arithmetic::power::lemma0_pow;
use vstd::arithmetic::power::lemma_pow0;
use vstd::arithmetic::power::lemma_pow1;
use vstd::arithmetic::power::lemma_pow_adds;

use crate::dur::Dur;
use crate::strategy::BackoffStrategy;

verus! {

/// `a * b`, saturated to the largest nanosecond count a [`Dur`] can hold.
pub open spec fn sat_mul(a: int, b: int) -> int {
    if a * b > u128::MAX {
        u128::MAX as int
    } else {
        a * b
    }
}

/// The internal position of an exponential strategy after `steps` draws:
/// `start` multiplied by `base` once per draw, each multiplication saturating
/// at the largest representable count.
pub open spec fn growth(start: int, base: int, steps: nat) -> int
    decreases steps,
{
    if steps == 0 {
        start
    } else {
        sat_mul(growth(start, base, (steps - 1) as nat), base)
    }
}

/// A strategy whose delays grow geometrically.
///
/// Each draw multiplies the internal position by `base` (saturating at the
/// largest representable delay) and yields it, except that once a configured
/// `max` is reached or passed, `max` itself is yielded. The configured
/// starting delay is never yielded as-is: the first draw already yields
/// `current * base`.
#[derive(Debug, Copy, Clone)]
pub struct ExponentialBackoff {
    /// The internal position: the last value computed, or at first the
    /// configured starting delay.
    pub current: Dur,
    /// The multiplier applied on every draw.
    pub base: u32,
    /// The delay at which the sequence is capped, if any.
    pub max: Option<Dur>,
}

impl ExponentialBackoff {
    /// An exponential strategy starting from `first`, with base 2 and no cap.
    pub fn new(first: Dur) -> (r: Self)
        ensures
            r.current == first,
            r.base == 2,
            r.max is None,
    {
        ExponentialBackoff { current: first, base: 2, max: None }
    }

    /// The same strategy with the multiplier set to `base`.
    pub fn base(self, base: u32) -> (r: Self)
        ensures
            r.current == self.current,
            r.base == base,
            r.max == self.max,
    {
        ExponentialBackoff { current: self.current, base, max: self.max }
    }

    /// The same strategy capped at `max`.
    pub fn max(self, max: Dur) -> (r: Self)
        ensures
            r.current == self.current,
            r.base == self.base,
            r.max == Some(max),
    {
        ExponentialBackoff { current: self.current, base: self.base, max: Some(max) }
    }

    /// An exponential strategy starting from `millis` milliseconds.
    pub fn from_millis(millis: u64) -> (r: Self)
        ensures
            r.current@ == millis * 1_000_000,
            r.base == 2,
            r.max is None,
    {
        Self::new(Dur::from_millis(millis))
    }

    /// An exponential strategy starting from `secs` seconds.
    pub fn from_secs(secs: u64) -> (r: Self)
        ensures
            r.current@ == secs * 1_000_000_000,
            r.base == 2,
            r.max is None,
    {
        Self::new(Dur::from_secs(secs))
    }

    /// An exponential strategy starting from `micros` microseconds.
    pub fn from_micros(micros: u64) -> (r: Self)
        ensures
            r.current@ == micros * 1_000,
            r.base == 2,
            r.max is None,
    {
        Self::new(Dur::from_micros(micros))
    }

    /// An exponential strategy starting from `nanos` nanoseconds.
    pub fn from_nanos(nanos: u64) -> (r: Self)
        ensures
            r.current@ == nanos,
            r.base == 2,
            r.max is None,
    {
        Self::new(Dur::from_nanos(nanos))
    }
}

impl BackoffStrategy for ExponentialBackoff {
    open spec fn delay_at(&self, j: nat) -> Option<int> {
        let grown = growth(self.current@, self.base as int, j + 1);
        match self.max {
            Some(m) => if m@ <= grown {
                Some(m@)
            } else {
                Some(grown)
            },
            None => Some(grown),
        }
    }

    fn next(&mut self) -> (r: Option<Dur>) {
        let next = match self.current.checked_mul(self.base) {
            Some(d) => d,
            None => Dur::max_value(),
        };
        self.current = next;
        proof {
            assert(next@ == sat_mul(old(self).current@, old(self).base as int));
            lemma_growth_shift(old(self).current@, old(self).base as int, 0);
            assert(growth(old(self).current@, old(self).base as int, 1) == next@);
            assert forall|j: nat| #[trigger] self.delay_at(j) == old(self).delay_at(j + 1) by {
                lemma_growth_shift(old(self).current@, old(self).base as int, j + 1);
            }
        }
        match self.max {
            Some(m) => if m.as_nanos() <= next.as_nanos() {
                Some(m)
            } else {
                Some(next)
            },
            None => Some(next),
        }
    }
}

/// Multiplying once more extends the growth chain by one step.
proof fn lemma_growth_shift(start: int, base: int, steps: nat)
    ensures
        growth(sat_mul(start, base), base, steps) == growth(start, base, steps + 1),
    decreases steps,
{
    reveal_with_fuel(growth, 2);
    if steps > 0 {
        lemma_growth_shift(start, base, (steps - 1) as nat);
    }
}

/// The growth chain stays within the representable nanosecond counts.
proof fn lemma_growth_in_range(start: int, base: int, steps: nat)
    requires
        0 <= start <= u128::MAX,
        0 <= base,
    ensures
        0 <= growth(start, base, steps) <= u128::MAX,
    decreases steps,
{
    if steps > 0 {
        lemma_growth_in_range(start, base, (steps - 1) as nat);
        let g = growth(start, base, (steps - 1) as nat);
        if g * base <= u128::MAX {
            assert(0 <= g * base) by (nonlinear_arith)
                requires
                    0 <= g,
                    0 <= base,
            ;
        }
    }
}

/// With a base of at least one, one more step never shrinks the chain.
proof fn lemma_growth_step(start: int, base: int, steps: nat)
    requires
        0 <= start <= u128::MAX,
        1 <= base,
    ensures
        growth(start, base, steps) <= growth(start, base, steps + 1),
{
    lemma_growth_in_range(start, base, steps);
    let g = growth(start, base, steps);
    if g * base <= u128::MAX {
        assert(g <= g * base) by (nonlinear_arith)
            requires
                0 <= g,
                1 <= base,
        ;
    }
}

/// With a base of at least one, the growth chain never decreases.
proof fn lemma_growth_monotone(start: int, base: int, s1: nat, s2: nat)
    requires
        0 <= start <= u128::MAX,
        1 <= base,
        s1 <= s2,
    ensures
        growth(start, base, s1) <= growth(start, base, s2),
    decreases s2 - s1,
{
    if s1 < s2 {
        lemma_growth_monotone(start, base, s1, (s2 - 1) as nat);
        lemma_growth_step(start, base, (s2 - 1) as nat);
    }
}

/// While no multiplication saturates, the growth chain is exactly the
/// mathematical power.
proof fn lemma_growth_no_sat(start: int, base: int, steps: nat)
    requires
        0 <= start <= u128::MAX,
        0 <= base,
        start * pow(base, steps) <= u128::MAX,
    ensures
        growth(start, base, steps) == start * pow(base, steps),
    decreases steps,
{
    lemma_pow0(base);
    if steps > 0 {
        let p1 = pow(base, (steps - 1) as nat);
        lemma_pow1(base);
        lemma_pow_adds(base, 1, (steps - 1) as nat);
        assert(pow(base, steps) == base * p1);
        if base == 0 {
            if steps > 1 {
                lemma0_pow((steps - 1) as nat);
            }
            assert(start * p1 <= u128::MAX) by (nonlinear_arith)
                requires
                    0 <= start <= u128::MAX,
                    p1 == 1 || p1 == 0,
            ;
        } else {
            lemma_pow_positive(base, (steps - 1) as nat);
            assert(start * p1 <= start * (base * p1)) by (nonlinear_arith)
                requires
                    0 <= start,
                    1 <= base,
                    0 < p1,
            ;
        }
        lemma_growth_no_sat(start, base, (steps - 1) as nat);
        assert((start * p1) * base == start * (base * p1)) by (nonlinear_arith);
        assert(growth(start, base, steps) == sat_mul(start * p1, base));
    }
}

/// Without a cap, the `j`-th draw after construction (counting draws from
/// one) yields `initial * base^j` nanoseconds, whenever that product is
/// representable.
pub proof fn lemma_exponential_uncapped(s: ExponentialBackoff, j: nat)
    requires
        s.max is None,
        1 <= j,
        s.current@ * pow(s.base as int, j) <= u128::MAX,
    ensures
        s.delay_at((j - 1) as nat) == Some(s.current@ * pow(s.base as int, j)),
{
    lemma_growth_no_sat(s.current@, s.base as int, j);
}

/// With a cap `m` and a base of at least one: no draw exceeds `m`, the draws
/// never decrease, and once a draw yields exactly `m`, every later draw
/// yields `m` as well.
pub proof fn lemma_exponential_capped(s: ExponentialBackoff, m: Dur, j: nat, k: nat)
    requires
        s.max == Some(m),
        1 <= s.base,
        j <= k,
    ensures
        (s.delay_at(j) matches Some(vj) && vj <= m@),
        (s.delay_at(j) matches Some(vj) && s.delay_at(k) matches Some(vk) && vj <= vk),
        s.delay_at(j) == Some(m@) ==> s.delay_at(k) == Some(m@),
{
    lemma_growth_monotone(s.current@, s.base as int, j + 1, k + 1);
}

} // verus!
