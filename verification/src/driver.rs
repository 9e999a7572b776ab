//! The retry loop's state machine: attempt accounting and the decision taken
//! on each outcome.
//!
//! The machine owns no clock and no scheduler. A caller draws a delay from a
//! strategy, invokes the operation with [`RetryState::context`], and hands
//! delay and outcome to [`RetryState::settle`]; the step returned says
//! whether to sleep and go on or to stop with a result. When the delay source
//! is exhausted instead, [`RetryState::exhausted`] is the final report. This
//! keeps every decision and every number in the loop verified, while the
//! sleeping itself — a blocking sleep, or an awaited timer — stays with the
//! caller.

use vstd::prelude::*;

use crate::Dur;
use crate::RetryErr;
use crate::RetryOp;
use crate::RetryResult;

verus! {

/// What the retry loop does next, decided by [`RetryState::settle`].
pub enum Step<T, E> {
    /// Sleep for this delay, then start the next attempt.
    Sleep(Dur),
    /// Stop, with the retry loop's result.
    Done(Result<T, RetryErr<E>>),
}

/// The retry loop's running state: how many retries were made and how much
/// delay was slept.
#[derive(Debug, Copy, Clone, PartialEq, Eq, Structural)]
pub struct RetryState {
    /// Attempts so far whose outcome asked to try again.
    pub retries: usize,
    /// The delays slept so far, added up.
    pub total_delay: Dur,
}

impl RetryState {
    /// The state before the first attempt: nothing retried, nothing slept.
    pub fn new() -> (r: RetryState)
        ensures
            r.retries == 0,
            r.total_delay@ == 0,
    {
        RetryState { retries: 0, total_delay: Dur { nanos: 0 } }
    }

    /// The context to hand to the operation for the coming attempt.
    pub fn context(&self) -> (r: RetryOp)
        ensures
            r == (RetryOp { retries: self.retries, total_delay: self.total_delay }),
    {
        RetryOp { retries: self.retries, total_delay: self.total_delay }
    }

    /// The final report when the strategy yields no further delay: the
    /// sequence ended while the operation kept asking to retry.
    pub fn exhausted<E>(&self) -> (r: RetryErr<E>)
        ensures
            r == (RetryErr::<E>::IteratorEnded {
                tries: self.retries,
                total_delay: self.total_delay,
            }),
    {
        RetryErr::IteratorEnded { tries: self.retries, total_delay: self.total_delay }
    }

    /// Settle one attempt: `delay` is what the strategy yielded for it, and
    /// `outcome` is what the operation returned.
    ///
    /// On `Retry()` the delay is added to the accounting and the caller is
    /// told to sleep it. On `Fail` or `Success` the loop stops at once and
    /// the state is left untouched, so the delay of the stopping attempt is
    /// never counted as slept.
    pub fn settle<T, E>(&mut self, delay: Dur, outcome: RetryResult<T, E>) -> (r: Step<T, E>)
        requires
            outcome is Retry ==> old(self).retries < usize::MAX && old(self).total_delay@ + delay@
                <= u128::MAX,
        ensures
            match outcome {
                RetryResult::Retry() => {
                    &&& final(self).retries == old(self).retries + 1
                    &&& final(self).total_delay@ == old(self).total_delay@ + delay@
                    &&& r == Step::<T, E>::Sleep(delay)
                },
                RetryResult::Fail(err) => {
                    &&& *final(self) == *old(self)
                    &&& r == Step::<T, E>::Done(Result::Err(RetryErr::FailedAttempt {
                        tries: old(self).retries,
                        total_delay: old(self).total_delay,
                        err,
                    }))
                },
                RetryResult::Success(v) => {
                    &&& *final(self) == *old(self)
                    &&& r == Step::<T, E>::Done(Result::Ok(v))
                },
            },
    {
        match outcome {
            RetryResult::Retry() => {
                self.total_delay = Dur { nanos: self.total_delay.nanos + delay.nanos };
                self.retries = self.retries + 1;
                Step::Sleep(delay)
            },
            RetryResult::Fail(err) => Step::Done(
                Result::Err(
                    RetryErr::FailedAttempt {
                        tries: self.retries,
                        total_delay: self.total_delay,
                        err,
                    },
                ),
            ),
            RetryResult::Success(v) => Step::Done(Result::Ok(v)),
        }
    }
}

/// A way to wait out a delay between attempts.
///
/// The retry loop asks for one sleep per retry and assumes nothing about what
/// sleeping does; a blocking sleep, an awaited timer and a no-op are all fair
/// implementations.
pub trait Sleeper {
    /// Wait out `delay`.
    fn sleep(&mut self, delay: Dur);
}

/// A sleeper that does not wait at all.
///
/// This is the right sleeper for zero-length delays, and for tests that only
/// care about the loop's decisions.
pub struct NoSleep;

impl Sleeper for NoSleep {
    fn sleep(&mut self, delay: Dur) {
    }
}

} // verus!
