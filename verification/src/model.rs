//! The specification-level model of one retry run.
//!
//! A run is described by the strategy's delay stream and the operation's
//! spec-level behaviour: per attempt the loop looks at the head of the
//! stream, stops with the sequence's end if there is none, and otherwise asks
//! the operation for its outcome. [`run_result`] is the result such a run
//! produces, [`run_ok`] says that the run stops within a given number of
//! retries without overflowing the attempt counter or the delay sum, and
//! [`run_last_ctx`] is the accounting at the moment the run stops.

use vstd::prelude::*;

use vstd::pervasive::arbitrary;

use crate::Dur;
use crate::RetryErr;
use crate::RetryOp;
use crate::RetryResult;
use crate::op::RetryableOp;
use crate::strategy::BackoffStrategy;

verus! {

/// The delay stream of a strategy: position `j` holds the delay that the
/// draw `j` steps ahead would yield.
pub open spec fn delay_stream<S: BackoffStrategy>(s: S) -> spec_fn(nat) -> Option<int> {
    |j: nat| s.delay_at(j)
}

/// The stream with its first element dropped.
pub open spec fn shifted(delays: spec_fn(nat) -> Option<int>) -> spec_fn(nat) -> Option<int> {
    |j: nat| delays(j + 1)
}

/// The context the loop hands to the operation after `tries` retries and
/// `total` nanoseconds of sleep.
pub open spec fn loop_ctx(tries: int, total: int) -> RetryOp {
    RetryOp { retries: tries as usize, total_delay: Dur { nanos: total as u128 } }
}

/// The first `n` delays of the stream, added up; positions past the
/// stream's end count as zero.
pub open spec fn delay_sum(delays: spec_fn(nat) -> Option<int>, n: nat) -> int
    decreases n,
{
    if n == 0 {
        0
    } else {
        (match delays(0) {
            Option::Some(d) => d,
            Option::None => 0,
        }) + delay_sum(shifted(delays), (n - 1) as nat)
    }
}

/// Whether the run from this state stays within machine bounds and stops
/// within `fuel` retries: on every retry the attempt counter and the delay
/// sum still fit their machine words, and a terminal outcome or the stream's
/// end comes before the fuel runs out.
pub open spec fn run_ok<O: RetryableOp<T, E>, T, E>(
    delays: spec_fn(nat) -> Option<int>,
    o: O,
    tries: int,
    total: int,
    fuel: nat,
) -> bool
    decreases fuel,
{
    match delays(0) {
        Option::None => true,
        Option::Some(d) => match o.spec_outcome(loop_ctx(tries, total)) {
            RetryResult::Retry() => {
                &&& fuel > 0
                &&& tries + 1 <= usize::MAX
                &&& total + d <= u128::MAX
                &&& run_ok(
                    shifted(delays),
                    o.spec_step(loop_ctx(tries, total)),
                    tries + 1,
                    total + d,
                    (fuel - 1) as nat,
                )
            },
            RetryResult::Fail(_) => true,
            RetryResult::Success(_) => true,
        },
    }
}

/// The result the run from this state produces: the operation's terminal
/// outcome, or the report that the stream ended first. Meaningful wherever
/// [`run_ok`] holds of the same arguments.
pub open spec fn run_result<O: RetryableOp<T, E>, T, E>(
    delays: spec_fn(nat) -> Option<int>,
    o: O,
    tries: int,
    total: int,
    fuel: nat,
) -> Result<T, RetryErr<E>>
    decreases fuel,
{
    match delays(0) {
        Option::None => Result::Err(
            RetryErr::IteratorEnded {
                tries: tries as usize,
                total_delay: Dur { nanos: total as u128 },
            },
        ),
        Option::Some(d) => match o.spec_outcome(loop_ctx(tries, total)) {
            RetryResult::Retry() => if fuel == 0 {
                arbitrary()
            } else {
                run_result(
                    shifted(delays),
                    o.spec_step(loop_ctx(tries, total)),
                    tries + 1,
                    total + d,
                    (fuel - 1) as nat,
                )
            },
            RetryResult::Fail(e) => Result::Err(
                RetryErr::FailedAttempt {
                    tries: tries as usize,
                    total_delay: Dur { nanos: total as u128 },
                    err: e,
                },
            ),
            RetryResult::Success(v) => Result::Ok(v),
        },
    }
}

/// The accounting at the moment the run stops: the context handed to the
/// operation on its final attempt, or, when the stream ends first, the
/// counts the loop reports. Meaningful wherever [`run_ok`] holds of the same
/// arguments.
pub open spec fn run_last_ctx<O: RetryableOp<T, E>, T, E>(
    delays: spec_fn(nat) -> Option<int>,
    o: O,
    tries: int,
    total: int,
    fuel: nat,
) -> RetryOp
    decreases fuel,
{
    match delays(0) {
        Option::None => loop_ctx(tries, total),
        Option::Some(d) => match o.spec_outcome(loop_ctx(tries, total)) {
            RetryResult::Retry() => if fuel == 0 {
                arbitrary()
            } else {
                run_last_ctx(
                    shifted(delays),
                    o.spec_step(loop_ctx(tries, total)),
                    tries + 1,
                    total + d,
                    (fuel - 1) as nat,
                )
            },
            RetryResult::Fail(_) => loop_ctx(tries, total),
            RetryResult::Success(_) => loop_ctx(tries, total),
        },
    }
}

/// The operation state the run leaves behind: every attempt made steps the
/// operation once, and an attempt is made on every element the stream
/// yields, the terminal one included. Meaningful wherever [`run_ok`] holds
/// of the same arguments.
pub open spec fn run_final_op<O: RetryableOp<T, E>, T, E>(
    delays: spec_fn(nat) -> Option<int>,
    o: O,
    tries: int,
    total: int,
    fuel: nat,
) -> O
    decreases fuel,
{
    match delays(0) {
        Option::None => o,
        Option::Some(d) => match o.spec_outcome(loop_ctx(tries, total)) {
            RetryResult::Retry() => if fuel == 0 {
                arbitrary()
            } else {
                run_final_op(
                    shifted(delays),
                    o.spec_step(loop_ctx(tries, total)),
                    tries + 1,
                    total + d,
                    (fuel - 1) as nat,
                )
            },
            RetryResult::Fail(_) => o.spec_step(loop_ctx(tries, total)),
            RetryResult::Success(_) => o.spec_step(loop_ctx(tries, total)),
        },
    }
}

/// Any two fuel amounts that both bound the run give the same result and the
/// same final accounting.
pub proof fn lemma_run_fuel_irrelevant<O: RetryableOp<T, E>, T, E>(
    delays: spec_fn(nat) -> Option<int>,
    o: O,
    tries: int,
    total: int,
    n1: nat,
    n2: nat,
)
    requires
        run_ok(delays, o, tries, total, n1),
        run_ok(delays, o, tries, total, n2),
    ensures
        run_result(delays, o, tries, total, n1) == run_result(delays, o, tries, total, n2),
        run_last_ctx(delays, o, tries, total, n1) == run_last_ctx(delays, o, tries, total, n2),
        run_final_op(delays, o, tries, total, n1) == run_final_op(delays, o, tries, total, n2),
    decreases n1,
{
    match delays(0) {
        Option::None => {},
        Option::Some(d) => {
            let ctx = loop_ctx(tries, total);
            match o.spec_outcome(ctx) {
                RetryResult::Retry() => {
                    lemma_run_fuel_irrelevant(
                        shifted(delays),
                        o.spec_step(ctx),
                        tries + 1,
                        total + d,
                        (n1 - 1) as nat,
                        (n2 - 1) as nat,
                    );
                },
                RetryResult::Fail(_) => {},
                RetryResult::Success(_) => {},
            }
        },
    }
}

} // verus!
