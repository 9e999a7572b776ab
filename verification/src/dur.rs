use vstd::prelude::*;

verus! {

/// A span of time, counted in whole nanoseconds.
///
/// Backoff arithmetic in this crate is specified over the nanosecond count,
/// so the count is kept as a single plain integer field. The view of a `Dur`
/// is that count as a mathematical integer.
#[derive(Debug, Copy, Clone, PartialEq, Eq, Structural)]
pub struct Dur {
    /// Length of the span in nanoseconds.
    pub nanos: u128,
}

impl View for Dur {
    type V = int;

    open spec fn view(&self) -> int {
        self.nanos as int
    }
}

impl Dur {
    /// A span of `nanos` nanoseconds.
    pub fn from_nanos(nanos: u64) -> (r: Dur)
        ensures
            r@ == nanos,
    {
        Dur { nanos: nanos as u128 }
    }

    /// A span of `micros` microseconds.
    pub fn from_micros(micros: u64) -> (r: Dur)
        ensures
            r@ == micros * 1_000,
    {
        Dur { nanos: micros as u128 * 1_000 }
    }

    /// A span of `millis` milliseconds.
    pub fn from_millis(millis: u64) -> (r: Dur)
        ensures
            r@ == millis * 1_000_000,
    {
        Dur { nanos: millis as u128 * 1_000_000 }
    }

    /// A span of `secs` seconds.
    pub fn from_secs(secs: u64) -> (r: Dur)
        ensures
            r@ == secs * 1_000_000_000,
    {
        Dur { nanos: secs as u128 * 1_000_000_000 }
    }

    /// The longest representable span.
    pub fn max_value() -> (r: Dur)
        ensures
            r@ == u128::MAX,
    {
        Dur { nanos: u128::MAX }
    }

    /// The length of the span in nanoseconds.
    pub fn as_nanos(&self) -> (r: u128)
        ensures
            r == self.nanos,
    {
        self.nanos
    }

    /// The span scaled by `rhs`, or `None` when the product does not fit.
    pub fn checked_mul(&self, rhs: u32) -> (r: Option<Dur>)
        ensures
            self@ * rhs <= u128::MAX ==> r == Some(Dur { nanos: (self@ * rhs) as u128 }),
            self@ * rhs > u128::MAX ==> r is None,
    {
        match self.nanos.checked_mul(rhs as u128) {
            Some(n) => Some(Dur { nanos: n }),
            None => None,
        }
    }
}

} // verus!
