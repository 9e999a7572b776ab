//! A finite backoff: an externally supplied sequence of delays, yielded in
//! order and then exhausted.

use vstd::prelude::*;

use crate::dur::Dur;
use crate::strategy::BackoffStrategy;

verus! {

/// A strategy that yields a caller-supplied list of delays front to back and
/// then signals exhaustion. This is the one kind of strategy that ends on its
/// own, which makes the retry loop stop even against an operation that never
/// stops asking to retry.
#[derive(Debug, Clone)]
pub struct FiniteBackoff {
    /// The delays, yielded in order of increasing index.
    pub delays: Vec<Dur>,
    /// How many delays have been yielded already.
    pub pos: usize,
}

impl FiniteBackoff {
    /// A strategy yielding exactly the delays of `delays`, in order.
    pub fn new(delays: Vec<Dur>) -> (r: Self)
        ensures
            r.delays == delays,
            r.pos == 0,
    {
        FiniteBackoff { delays, pos: 0 }
    }
}

impl BackoffStrategy for FiniteBackoff {
    open spec fn delay_at(&self, j: nat) -> Option<int> {
        if self.pos + j < self.delays@.len() {
            Some(self.delays@[self.pos + j]@)
        } else {
            None
        }
    }

    fn next(&mut self) -> (r: Option<Dur>) {
        if self.pos < self.delays.len() {
            let d = self.delays[self.pos];
            self.pos = self.pos + 1;
            Some(d)
        } else {
            None
        }
    }
}

} // verus!
