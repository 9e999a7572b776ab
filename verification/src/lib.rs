//! Retry a fallible operation, sleeping between attempts according to a
//! pluggable backoff strategy.
//!
//! The strategies in [`strategy`] yield one delay per attempt; the retry loop
//! draws a delay, invokes the operation, and either stops with the operation's
//! terminal outcome, or sleeps and tries again. When the strategy runs out of
//! delays while the operation keeps asking to retry, the loop reports that the
//! delay sequence ended.

use vstd::prelude::*;

pub mod driver;
pub mod dur;
pub mod laws;
pub mod model;
pub mod op;
pub mod strategy;

pub use driver::NoSleep;
pub use driver::RetryState;
pub use driver::Sleeper;
pub use driver::Step;
pub use dur::Dur;
pub use model::delay_stream;
pub use model::delay_sum;
pub use model::loop_ctx;
pub use model::run_final_op;
pub use model::run_last_ctx;
pub use model::run_ok;
pub use model::run_result;
pub use model::shifted;
pub use op::RetryableOp;
pub use op::ScriptedOp;

use model::lemma_run_fuel_irrelevant;
use strategy::BackoffStrategy;
use strategy::Immediate;

verus! {

/// What the retry loop tells the operation about the attempts so far.
///
/// A fresh value is handed to the operation on every attempt.
#[derive(Debug, Copy, Clone, PartialEq, Eq, Structural)]
pub struct RetryOp {
    /// How many retries were made before this attempt: attempts whose outcome
    /// asked to try again.
    pub retries: usize,
    /// The delays slept so far, added up.
    pub total_delay: Dur,
}

/// The outcome of one attempt, chosen by the operation.
///
/// `Retry()` asks the loop to sleep the current delay and try again; `Fail`
/// and `Success` stop the loop at once, with failure or success.
#[derive(Debug, Copy, Clone)]
pub enum RetryResult<T, E> {
    /// Try again after the current delay.
    Retry(),
    /// Stop: the operation failed for good, with this error.
    Fail(E),
    /// Stop: the operation succeeded, with this value.
    Success(T),
}

/// The retry loop's report when it stops without success.
#[derive(Debug, Clone)]
pub enum RetryErr<E> {
    /// The operation itself reported a terminal failure.
    FailedAttempt {
        /// How many retries were made before the failing attempt.
        tries: usize,
        /// The delays slept, added up. The delay drawn for the failing
        /// attempt itself was never slept and is not included.
        total_delay: Dur,
        /// The operation's own error value, unchanged.
        err: E,
    },
    /// The strategy ran out of delays while the operation kept asking to
    /// retry. There is no operation error to report.
    IteratorEnded {
        /// How many retries were made: one per delay the strategy yielded.
        tries: usize,
        /// The delays slept, added up.
        total_delay: Dur,
    },
}

/// Retry `op` until it stops retrying, drawing one delay per attempt from
/// `strategy` and letting `sleeper` wait it out after each retry outcome.
///
/// Per attempt the loop draws a delay; if the strategy is exhausted it stops
/// with `IteratorEnded` and the accounting so far. Otherwise it invokes the
/// operation once. A `Retry()` outcome sleeps the drawn delay, counts it,
/// and goes on; `Fail` stops with `FailedAttempt`, leaving that attempt's
/// drawn delay unslept and uncounted; `Success` stops with the value. The
/// result is exactly [`run_result`] of the strategy's delay stream and the
/// operation's behaviour.
///
/// The run must stop within some number of retries without overflowing the
/// attempt counter or the delay sum ([`run_ok`]): a loop that retried
/// forever could not return at all. The operation is left in the state the
/// run's attempts stepped it to ([`run_final_op`]).
#[verifier::loop_isolation(false)]
pub fn retry<S: BackoffStrategy, O: RetryableOp<T, E>, Z: Sleeper, T, E>(
    strategy: S,
    op: &mut O,
    sleeper: &mut Z,
) -> (r: Result<T, RetryErr<E>>)
    requires
        exists|n: nat| run_ok(delay_stream(strategy), *old(op), 0, 0, n),
    ensures
        forall|n: nat|
            run_ok(delay_stream(strategy), *old(op), 0, 0, n) ==> r == run_result(
                delay_stream(strategy),
                *old(op),
                0,
                0,
                n,
            ),
        forall|n: nat|
            run_ok(delay_stream(strategy), *old(op), 0, 0, n) ==> *final(op) == run_final_op(
                delay_stream(strategy),
                *old(op),
                0,
                0,
                n,
            ),
{
    let mut strat = strategy;
    let mut st = RetryState::new();
    let ghost init_delays = delay_stream(strategy);
    let ghost op0 = *op;
    let ghost mut fuel: nat = choose|n: nat| run_ok(init_delays, op0, 0, 0, n);
    proof {
        assert forall|n: nat| run_ok(init_delays, op0, 0, 0, n) implies (run_result(
            init_delays,
            op0,
            0,
            0,
            n,
        ) == run_result(init_delays, op0, 0, 0, fuel) && run_final_op(init_delays, op0, 0, 0, n)
            == run_final_op(init_delays, op0, 0, 0, fuel)) by {
            lemma_run_fuel_irrelevant(init_delays, op0, 0, 0, n, fuel);
        }
    }
    loop
        invariant
            run_ok(delay_stream(strat), *op, st.retries as int, st.total_delay@, fuel),
            forall|n: nat|
                run_ok(init_delays, op0, 0, 0, n) ==> run_result(init_delays, op0, 0, 0, n)
                    == run_result(
                    delay_stream(strat),
                    *op,
                    st.retries as int,
                    st.total_delay@,
                    fuel,
                ),
            forall|n: nat|
                run_ok(init_delays, op0, 0, 0, n) ==> run_final_op(init_delays, op0, 0, 0, n)
                    == run_final_op(
                    delay_stream(strat),
                    *op,
                    st.retries as int,
                    st.total_delay@,
                    fuel,
                ),
        decreases fuel,
    {
        let ghost pre = delay_stream(strat);
        let ghost pre_op = *op;
        let ghost pre_tries = st.retries as int;
        let ghost pre_total = st.total_delay@;
        match strat.next() {
            None => {
                proof {
                    assert(pre(0) is None);
                    assert(run_final_op(pre, pre_op, pre_tries, pre_total, fuel) == pre_op);
                    assert(run_result(pre, pre_op, pre_tries, pre_total, fuel)
                        == Result::<T, RetryErr<E>>::Err(RetryErr::IteratorEnded {
                        tries: st.retries,
                        total_delay: st.total_delay,
                    }));
                }
                return Err(st.exhausted());
            },
            Some(d) => {
                let ctx = st.context();
                let outcome = op.attempt(ctx);
                proof {
                    assert(pre(0) == Some(d@));
                    assert(ctx == loop_ctx(pre_tries, pre_total));
                    assert(delay_stream(strat) =~= shifted(pre));
                }
                match st.settle(d, outcome) {
                    Step::Sleep(dd) => {
                        proof {
                            fuel = (fuel - 1) as nat;
                        }
                        sleeper.sleep(dd);
                    },
                    Step::Done(res) => {
                        proof {
                            assert(res == run_result(pre, pre_op, pre_tries, pre_total, fuel));
                            assert(*op == run_final_op(pre, pre_op, pre_tries, pre_total, fuel));
                        }
                        return res;
                    },
                }
            },
        }
    }
}

/// Retry `op` with the [`Immediate`] strategy: no wait between attempts.
///
/// Equivalent to [`retry`] over a stream of zero-length delays; the result
/// is exactly [`run_result`] of that stream and the operation's behaviour.
pub fn retry_immediate<O: RetryableOp<T, E>, T, E>(op: &mut O) -> (r: Result<T, RetryErr<E>>)
    requires
        exists|n: nat| run_ok(delay_stream(Immediate), *old(op), 0, 0, n),
    ensures
        forall|n: nat|
            run_ok(delay_stream(Immediate), *old(op), 0, 0, n) ==> r == run_result(
                delay_stream(Immediate),
                *old(op),
                0,
                0,
                n,
            ),
        forall|n: nat|
            run_ok(delay_stream(Immediate), *old(op), 0, 0, n) ==> *final(op) == run_final_op(
                delay_stream(Immediate),
                *old(op),
                0,
                0,
                n,
            ),
{
    let mut sleeper = NoSleep;
    retry(Immediate::new(), op, &mut sleeper)
}

} // verus!
