//! The durable per-tick state of an action and its resolver.

use vstd::prelude::*;

use crate::action::InputAction;
use crate::drain::InputActionDrain;

verus! {

/// Durable state of one action kind, as seen by consumers between
/// resolutions.
///
/// The state is `Active(value)` when a value was poured in the tick that was
/// last resolved, and `Idle` otherwise. It is rewritten exactly once per
/// tick, by [`update_input_action_state`].
pub enum InputActionState<A> {
    /// The action is currently active with the given value.
    Active(A),
    /// The action is not active.
    Idle,
}

impl<A> InputActionState<A> {
    /// The state as an optional value: `Active(v)` is `Some(v)`, `Idle` is
    /// `None`.
    pub open spec fn as_option(self) -> Option<A> {
        match self {
            InputActionState::Active(v) => Some(v),
            InputActionState::Idle => None,
        }
    }

    /// Returns whether the action is currently active.
    pub fn is_active(&self) -> (r: bool)
        ensures
            r == (self.as_option() is Some),
    {
        match self {
            InputActionState::Active(_) => true,
            InputActionState::Idle => false,
        }
    }
}

impl<A: InputAction> InputActionState<A> {
    /// Returns a duplicate of the current value, or `None` when idle.
    pub fn state(&self) -> (r: Option<A>)
        ensures
            r == self.as_option(),
    {
        match self {
            InputActionState::Active(v) => Some(v.dup()),
            InputActionState::Idle => None,
        }
    }
}

impl<A> Default for InputActionState<A> {
    /// The idle state.
    fn default() -> (r: Self)
        ensures
            r.as_option() is None,
    {
        InputActionState::Idle
    }
}

/// Holds when resolving the drain `drain_before` produced the state
/// `state_after`: the state carries exactly the drain's pending value.
pub open spec fn resolved<A>(
    drain_before: InputActionDrain<A>,
    state_after: InputActionState<A>,
) -> bool {
    state_after.as_option() == drain_before.pending()
}

/// Resolves the drain into the durable state, once per tick.
///
/// The state becomes `Active(v)` when `v` was pending in the drain and
/// `Idle` when nothing was, and the drain is left empty. Total and
/// deterministic; must run before [`crate::events::write_input_action_events`]
/// within the same tick.
pub fn update_input_action_state<A>(
    drain: &mut InputActionDrain<A>,
    state: &mut InputActionState<A>,
)
    ensures
        final(state).as_option() == old(drain).pending(),
        resolved(*old(drain), *final(state)),
        final(drain).pending() is None,
{
    *state = match drain.take() {
        Some(v) => InputActionState::Active(v),
        None => InputActionState::Idle,
    };
}

} // verus!
