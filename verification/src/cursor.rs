//! The per-call cursor: every operation emits its whole batch on the first
//! invocation of a call and nothing afterwards.

use vstd::prelude::*;

verus! {

/// One-shot iteration state of a single call.
pub struct PerCallCursor {
    done: bool,
}

impl PerCallCursor {
    /// Whether the batch of this call has already been emitted.
    pub closed spec fn exhausted(&self) -> bool {
        self.done
    }

    /// A cursor that has emitted nothing yet.
    pub fn new() -> (c: PerCallCursor)
        ensures
            !c.exhausted(),
    {
        PerCallCursor { done: false }
    }

    /// Marks the batch as emitted. Returns `true` exactly on the first
    /// invocation, which is the one that has to produce the rows.
    pub fn advance(&mut self) -> (first: bool)
        ensures
            first == !old(self).exhausted(),
            final(self).exhausted(),
    {
        let first = !self.done;
        self.done = true;
        first
    }
}

} // verus!
