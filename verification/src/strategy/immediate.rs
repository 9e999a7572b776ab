//! An immediate backoff: retry right away, with a zero-length delay.

use vstd::prelude::*;

use crate::dur::Dur;
use crate::strategy::BackoffStrategy;

verus! {

/// A strategy that yields a zero-length delay, forever.
#[derive(Debug, Default, Copy, Clone)]
pub struct Immediate;

impl Immediate {
    /// A fresh immediate strategy. The type holds no data, so this only
    /// spells out the value.
    pub fn new() -> (r: Self)
        ensures
            r == Immediate,
    {
        Immediate
    }
}

impl BackoffStrategy for Immediate {
    open spec fn delay_at(&self, j: nat) -> Option<int> {
        Some(0)
    }

    fn next(&mut self) -> (r: Option<Dur>) {
        Some(Dur::from_millis(0))
    }
}

/// Every draw of the immediate strategy is a zero-length delay, however many
/// draws are made.
pub proof fn lemma_immediate_zero(s: Immediate, j: nat)
    ensures
        s.delay_at(j) == Some(0int),
{
}

} // verus!
