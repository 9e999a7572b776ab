//! Operations the verified retry loop can drive.

use vstd::prelude::*;

use crate::RetryOp;
use crate::RetryResult;

verus! {

/// A repeatable operation whose behaviour is pinned down at the
/// specification level.
///
/// The two spec functions say, for any state and attempt context, which
/// outcome the next attempt produces and which state it leaves behind;
/// `attempt` must follow them. An operation may keep whatever state it
/// likes — a counter, a budget, a script — and may consult the context it is
/// handed.
pub trait RetryableOp<T, E>: Sized {
    /// The outcome one attempt produces in this state, given this context.
    spec fn spec_outcome(&self, ctx: RetryOp) -> RetryResult<T, E>;

    /// The state one attempt leaves behind, given this context.
    spec fn spec_step(&self, ctx: RetryOp) -> Self;

    /// Make one attempt.
    fn attempt(&mut self, ctx: RetryOp) -> (r: RetryResult<T, E>)
        ensures
            r == old(self).spec_outcome(ctx),
            *final(self) == old(self).spec_step(ctx),
    ;
}

/// An operation that replays a fixed list of outcomes, front to back.
///
/// Once the script is used up, every further attempt asks to retry; a script
/// that should stop the loop therefore ends in a terminal outcome.
#[derive(Debug, Clone)]
pub struct ScriptedOp<T, E> {
    /// The outcomes to produce, in order of increasing index.
    pub script: Vec<RetryResult<T, E>>,
    /// How many attempts were made already.
    pub pos: usize,
}

impl<T, E> ScriptedOp<T, E> {
    /// An operation that replays `script` from its start.
    pub fn new(script: Vec<RetryResult<T, E>>) -> (r: Self)
        ensures
            r.script == script,
            r.pos == 0,
    {
        ScriptedOp { script, pos: 0 }
    }

    /// How many attempts were made so far.
    pub fn position(&self) -> (r: usize)
        ensures
            r == self.pos,
    {
        self.pos
    }
}

impl<T: Copy, E: Copy> RetryableOp<T, E> for ScriptedOp<T, E> {
    open spec fn spec_outcome(&self, ctx: RetryOp) -> RetryResult<T, E> {
        if self.pos < self.script@.len() {
            self.script@[self.pos as int]
        } else {
            RetryResult::Retry()
        }
    }

    open spec fn spec_step(&self, ctx: RetryOp) -> Self {
        if self.pos < self.script@.len() {
            ScriptedOp { script: self.script, pos: (self.pos + 1) as usize }
        } else {
            *self
        }
    }

    fn attempt(&mut self, ctx: RetryOp) -> (r: RetryResult<T, E>) {
        if self.pos < self.script.len() {
            let r = self.script[self.pos];
            self.pos = self.pos + 1;
            r
        } else {
            RetryResult::Retry()
        }
    }
}

} // verus!
