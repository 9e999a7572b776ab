//! A constant backoff: the same fixed delay between all retries.

use vstd::prelude::*;

use crate::dur::Dur;
use crate::strategy::BackoffStrategy;

verus! {

/// A strategy that yields one fixed delay, forever.
#[derive(Debug, Copy, Clone, PartialEq, Eq, Structural)]
pub struct ConstantBackoff {
    /// The delay yielded on every draw.
    pub duration: Dur,
}

impl From<Dur> for ConstantBackoff {
    fn from(duration: Dur) -> (r: Self) {
        ConstantBackoff { duration }
    }
}

impl vstd::std_specs::convert::FromSpecImpl<Dur> for ConstantBackoff {
    open spec fn obeys_from_spec() -> bool {
        true
    }

    open spec fn from_spec(duration: Dur) -> Self {
        ConstantBackoff { duration }
    }
}

impl ConstantBackoff {
    /// A constant strategy yielding `duration` on every draw.
    pub fn new(duration: Dur) -> (r: Self)
        ensures
            r.duration == duration,
    {
        ConstantBackoff { duration }
    }

    /// A constant strategy of `millis` milliseconds.
    pub fn from_millis(millis: u64) -> (r: Self)
        ensures
            r.duration@ == millis * 1_000_000,
    {
        Self::new(Dur::from_millis(millis))
    }

    /// A constant strategy of `secs` seconds.
    pub fn from_secs(secs: u64) -> (r: Self)
        ensures
            r.duration@ == secs * 1_000_000_000,
    {
        Self::new(Dur::from_secs(secs))
    }

    /// A constant strategy of `micros` microseconds.
    pub fn from_micros(micros: u64) -> (r: Self)
        ensures
            r.duration@ == micros * 1_000,
    {
        Self::new(Dur::from_micros(micros))
    }

    /// A constant strategy of `nanos` nanoseconds.
    pub fn from_nanos(nanos: u64) -> (r: Self)
        ensures
            r.duration@ == nanos,
    {
        Self::new(Dur::from_nanos(nanos))
    }
}

impl BackoffStrategy for ConstantBackoff {
    open spec fn delay_at(&self, j: nat) -> Option<int> {
        Some(self.duration@)
    }

    fn next(&mut self) -> (r: Option<Dur>) {
        Some(self.duration)
    }
}

/// Every draw of a constant strategy yields the configured delay: the
/// sequence is uniform at every position, however many draws are made.
pub proof fn lemma_constant_uniform(s: ConstantBackoff, j: nat)
    ensures
        s.delay_at(j) == Some(s.duration@),
{
}

} // verus!
