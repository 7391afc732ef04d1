//! The per-tick write buffer that collapses concurrent pours into one
//! pending value.

use vstd::prelude::*;

verus! {

/// Per-tick write buffer for one action kind.
///
/// The drain holds at most one pending value. A pour unconditionally
/// replaces whatever was pending before, so when several producers pour
/// within one tick, only the last value poured survives. The resolver
/// empties the drain exactly once per tick.
pub struct InputActionDrain<A> {
    pending: Option<A>,
}

impl<A> InputActionDrain<A> {
    /// The value poured since the drain was last emptied, if any.
    pub closed spec fn pending(&self) -> Option<A> {
        self.pending
    }

    /// Creates an empty drain.
    pub fn new() -> (r: Self)
        ensures
            r.pending() is None,
    {
        InputActionDrain { pending: None }
    }

    /// Pours a value into the drain, replacing any pending value.
    ///
    /// Pouring always succeeds and has no effect beyond the overwrite.
    pub fn pour(&mut self, state: A)
        ensures
            final(self).pending() == Some(state),
            poured(*old(self), *final(self), state),
    {
        self.pending = Some(state);
    }

    /// Returns the pending value and leaves the drain empty.
    ///
    /// Intended to be called exactly once per tick, by the resolver.
    pub fn take(&mut self) -> (r: Option<A>)
        ensures
            r == old(self).pending(),
            final(self).pending() is None,
    {
        self.pending.take()
    }
}

impl<A> Default for InputActionDrain<A> {
    /// An empty drain.
    fn default() -> (r: Self)
        ensures
            r.pending() is None,
    {
        InputActionDrain { pending: None }
    }
}

/// Holds when a single pour of `value` turned the drain `pre` into `post`:
/// whatever `pre` held, afterwards exactly `value` is pending.
pub open spec fn poured<A>(pre: InputActionDrain<A>, post: InputActionDrain<A>, value: A) -> bool {
    post.pending() == Some(value)
}

} // verus!
