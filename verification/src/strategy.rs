//! Backoff strategies: each one yields a sequence of delays, one per retry.

use vstd::prelude::*;

use crate::dur::Dur;

mod constant;
mod exponential;
mod finite;
mod immediate;

pub use constant::ConstantBackoff;
pub use exponential::ExponentialBackoff;
pub use exponential::growth;
pub use exponential::sat_mul;
pub use exponential::lemma_exponential_uncapped;
pub use exponential::lemma_exponential_capped;
pub use finite::FiniteBackoff;
pub use immediate::Immediate;
pub use immediate::lemma_immediate_zero;
pub use constant::lemma_constant_uniform;

verus! {

/// A source of retry delays.
///
/// A strategy yields one delay per draw and advances an internal position.
/// The whole upcoming sequence is described by `delay_at`: the delay, in
/// nanoseconds, that the draw `j` steps ahead would yield, or `None` where the
/// sequence is exhausted at that point.
pub trait BackoffStrategy: Sized {
    /// The delay that the draw `j` steps ahead yields, in nanoseconds, or
    /// `None` when the sequence has no element there.
    spec fn delay_at(&self, j: nat) -> Option<int>;

    /// Draw the next delay and advance past it; `None` means the sequence is
    /// exhausted.
    fn next(&mut self) -> (r: Option<Dur>)
        ensures
            (match old(self).delay_at(0) {
                Option::None => r is None,
                Option::Some(n) => r matches Some(d) && d@ == n,
            }),
            forall|j: nat| final(self).delay_at(j) == old(self).delay_at(j + 1),
    ;
}

} // verus!
