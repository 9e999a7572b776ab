//! Laws of the retry run: how the loop's result follows from the strategy's
//! delays and the operation's outcomes.

use vstd::prelude::*;

use vstd::pervasive::arbitrary;

use crate::Dur;
use crate::RetryErr;
use crate::RetryOp;
use crate::RetryResult;
use crate::model::delay_sum;
use crate::model::loop_ctx;
use crate::model::run_final_op;
use crate::model::run_last_ctx;
use crate::model::run_ok;
use crate::model::run_result;
use crate::model::shifted;
use crate::op::RetryableOp;
use crate::op::ScriptedOp;

verus! {

/// A sum of delays none of which is negative is itself not negative.
proof fn lemma_delay_sum_nonneg(delays: spec_fn(nat) -> Option<int>, n: nat)
    requires
        forall|j: nat| j < n ==> (#[trigger] delays(j) matches Some(d) ==> 0 <= d),
    ensures
        0 <= delay_sum(delays, n),
    decreases n,
{
    if n > 0 {
        lemma_delay_sum_nonneg(shifted(delays), (n - 1) as nat);
    }
}

/// Whether an operation asks to retry on every attempt, as long as its state
/// satisfies `inv`: in every such state any attempt's outcome is `Retry()`
/// and the state left behind satisfies `inv` again.
pub open spec fn always_retries<O: RetryableOp<T, E>, T, E>(inv: spec_fn(O) -> bool) -> bool {
    forall|p: O, ctx: RetryOp|
        inv(p) ==> ((#[trigger] p.spec_outcome(ctx)) is Retry && inv(#[trigger] p.spec_step(ctx)))
}

/// The run from any starting accounting, against an operation that asks to
/// retry on every attempt, walks the whole remaining stream and stops with
/// its end, counting one retry and one delay per stream element. The states
/// in which the operation always retries are described by `inv`, which every
/// attempt must preserve.
proof fn lemma_all_retry_run<O: RetryableOp<T, E>, T, E>(
    delays: spec_fn(nat) -> Option<int>,
    o: O,
    inv: spec_fn(O) -> bool,
    tries: int,
    total: int,
    rem: nat,
)
    requires
        inv(o),
        always_retries::<O, T, E>(inv),
        forall|j: nat| j < rem ==> (#[trigger] delays(j) matches Some(d) && 0 <= d),
        delays(rem) is None,
        0 <= tries,
        tries + rem <= usize::MAX,
        0 <= total,
        total + delay_sum(delays, rem) <= u128::MAX,
    ensures
        run_ok(delays, o, tries, total, rem),
        run_result(delays, o, tries, total, rem) == Result::<T, RetryErr<E>>::Err(
            RetryErr::IteratorEnded {
                tries: (tries + rem) as usize,
                total_delay: Dur { nanos: (total + delay_sum(delays, rem)) as u128 },
            },
        ),
        inv(run_final_op(delays, o, tries, total, rem)),
    decreases rem,
{
    if rem > 0 {
        match delays(0) {
            Option::Some(d0) => {
                let ctx = loop_ctx(tries, total);
                lemma_delay_sum_nonneg(shifted(delays), (rem - 1) as nat);
                lemma_all_retry_run(
                    shifted(delays),
                    o.spec_step(ctx),
                    inv,
                    tries + 1,
                    total + d0,
                    (rem - 1) as nat,
                );
            },
            Option::None => {},
        }
    }
}

/// A strategy that yields exactly `len` delays, against an operation that
/// asks to retry on every attempt, ends the run with the sequence's end:
/// `len` retries were made and every yielded delay was slept.
///
/// `inv` describes the operation states in which every attempt retries; it
/// must hold of `o` and be preserved by every attempt. For an operation that
/// retries in every state whatsoever, `inv` can hold of every state.
pub proof fn lemma_retry_exhausts_strategy<O: RetryableOp<T, E>, T, E>(
    delays: spec_fn(nat) -> Option<int>,
    o: O,
    inv: spec_fn(O) -> bool,
    len: nat,
)
    requires
        inv(o),
        always_retries::<O, T, E>(inv),
        forall|j: nat| j < len ==> (#[trigger] delays(j) matches Some(d) && 0 <= d),
        delays(len) is None,
        len <= usize::MAX,
        delay_sum(delays, len) <= u128::MAX,
    ensures
        run_ok(delays, o, 0, 0, len),
        run_result(delays, o, 0, 0, len) == Result::<T, RetryErr<E>>::Err(
            RetryErr::IteratorEnded {
                tries: len as usize,
                total_delay: Dur { nanos: delay_sum(delays, len) as u128 },
            },
        ),
        inv(run_final_op(delays, o, 0, 0, len)),
{
    lemma_all_retry_run(delays, o, inv, 0, 0, len);
}

/// The run of a scripted operation whose next `k` outcomes ask to retry and
/// whose outcome after them is terminal: the run makes exactly `k` retries,
/// sleeps exactly the first `k` delays, and stops with the terminal outcome.
proof fn lemma_scripted_run<T: Copy, E: Copy>(
    delays: spec_fn(nat) -> Option<int>,
    o: ScriptedOp<T, E>,
    k: nat,
    tries: int,
    total: int,
)
    requires
        o.pos + k < o.script@.len(),
        forall|i: int| o.pos <= i < o.pos + k ==> o.script@[i] is Retry,
        !(o.script@[o.pos + k] is Retry),
        forall|j: nat| j <= k ==> (#[trigger] delays(j) matches Some(d) && 0 <= d),
        0 <= tries,
        tries + k <= usize::MAX,
        0 <= total,
        total + delay_sum(delays, k) <= u128::MAX,
    ensures
        run_ok(delays, o, tries, total, k),
        run_last_ctx(delays, o, tries, total, k) == loop_ctx(
            tries + k,
            total + delay_sum(delays, k),
        ),
        run_result(delays, o, tries, total, k) == (match o.script@[o.pos + k] {
            RetryResult::Success(v) => Result::<T, RetryErr<E>>::Ok(v),
            RetryResult::Fail(e) => Result::<T, RetryErr<E>>::Err(
                RetryErr::FailedAttempt {
                    tries: (tries + k) as usize,
                    total_delay: Dur { nanos: (total + delay_sum(delays, k)) as u128 },
                    err: e,
                },
            ),
            RetryResult::Retry() => arbitrary(),
        }),
        run_final_op(delays, o, tries, total, k) == (ScriptedOp {
            script: o.script,
            pos: (o.pos + k + 1) as usize,
        }),
    decreases k,
{
    vstd::std_specs::vec::axiom_spec_len(&o.script);
    if k > 0 {
        match delays(0) {
            Option::Some(d0) => {
                let ctx = loop_ctx(tries, total);
                assert(o.spec_outcome(ctx) == o.script@[o.pos as int]);
                assert(o.spec_step(ctx) == (ScriptedOp {
                    script: o.script,
                    pos: (o.pos + 1) as usize,
                }));
                lemma_delay_sum_nonneg(shifted(delays), (k - 1) as nat);
                lemma_scripted_run(
                    shifted(delays),
                    o.spec_step(ctx),
                    (k - 1) as nat,
                    tries + 1,
                    total + d0,
                );
            },
            Option::None => {},
        }
    }
}

/// If the operation asks to retry exactly `k` times and then succeeds with
/// `v`, the run returns the success value; the context handed to the
/// succeeding attempt reports `k` retries and the sum of the first `k`
/// delays as slept.
pub proof fn lemma_retry_then_success<T: Copy, E: Copy>(
    delays: spec_fn(nat) -> Option<int>,
    o: ScriptedOp<T, E>,
    k: nat,
    v: T,
)
    requires
        o.pos == 0,
        o.script@.len() == k + 1,
        forall|i: int| 0 <= i < k ==> o.script@[i] is Retry,
        o.script@[k as int] == RetryResult::<T, E>::Success(v),
        forall|j: nat| j <= k ==> (#[trigger] delays(j) matches Some(d) && 0 <= d),
        k <= usize::MAX,
        delay_sum(delays, k) <= u128::MAX,
    ensures
        run_ok(delays, o, 0, 0, k),
        run_result(delays, o, 0, 0, k) == Result::<T, RetryErr<E>>::Ok(v),
        run_last_ctx(delays, o, 0, 0, k) == (RetryOp {
            retries: k as usize,
            total_delay: Dur { nanos: delay_sum(delays, k) as u128 },
        }),
        run_final_op(delays, o, 0, 0, k) == (ScriptedOp {
            script: o.script,
            pos: (k + 1) as usize,
        }),
{
    lemma_scripted_run(delays, o, k, 0, 0);
}

/// If the operation asks to retry exactly `k` times and then fails with `e`,
/// the run reports the failed attempt: `k` retries made, the first `k`
/// delays slept, and the delay drawn for the failing attempt never slept.
pub proof fn lemma_retry_then_fail<T: Copy, E: Copy>(
    delays: spec_fn(nat) -> Option<int>,
    o: ScriptedOp<T, E>,
    k: nat,
    e: E,
)
    requires
        o.pos == 0,
        o.script@.len() == k + 1,
        forall|i: int| 0 <= i < k ==> o.script@[i] is Retry,
        o.script@[k as int] == RetryResult::<T, E>::Fail(e),
        forall|j: nat| j <= k ==> (#[trigger] delays(j) matches Some(d) && 0 <= d),
        k <= usize::MAX,
        delay_sum(delays, k) <= u128::MAX,
    ensures
        run_ok(delays, o, 0, 0, k),
        run_result(delays, o, 0, 0, k) == Result::<T, RetryErr<E>>::Err(
            RetryErr::FailedAttempt {
                tries: k as usize,
                total_delay: Dur { nanos: delay_sum(delays, k) as u128 },
                err: e,
            },
        ),
        run_last_ctx(delays, o, 0, 0, k) == (RetryOp {
            retries: k as usize,
            total_delay: Dur { nanos: delay_sum(delays, k) as u128 },
        }),
        run_final_op(delays, o, 0, 0, k) == (ScriptedOp {
            script: o.script,
            pos: (k + 1) as usize,
        }),
{
    lemma_scripted_run(delays, o, k, 0, 0);
}

} // verus!
