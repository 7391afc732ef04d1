//! The per-kind pipeline owning drain, state, previous value and event
//! queue together.

use vstd::prelude::*;

use crate::action::InputAction;
use crate::drain::InputActionDrain;
use crate::events::{
    tracker_step, write_input_action_events, InputActionEvents, InputActionUpdated,
};
use crate::state::{update_input_action_state, InputActionState};

verus! {

/// Label for the phase in which a pipeline's per-tick work runs.
///
/// Producers that pour into the drain belong before this phase; consumers
/// that read the resolved state or the transition events belong after it.
#[derive(Debug, Clone, Copy, PartialEq, Eq, Hash)]
pub struct InputActionSystem;

/// The whole pipeline for one action kind: the drain, the durable state,
/// the previous tick's resolved value and the event queue, owned together.
///
/// Each action kind owns one independent instance; kinds never interact.
/// The host drives it once per tick, in this order:
/// [`InputActionPlugin::update_events`], then any number of
/// [`InputActionPlugin::pour`] calls by producers, then
/// [`InputActionPlugin::resolve`], then [`InputActionPlugin::track`], then
/// any reads.
pub struct InputActionPlugin<A> {
    drain: InputActionDrain<A>,
    state: InputActionState<A>,
    previous: Option<A>,
    events: InputActionEvents<A>,
}

/// Holds when one resolution turned the pipeline `pre` into `post`: the
/// pending value became the current one, the drain was emptied, and the
/// retained previous value and the queue are untouched.
pub open spec fn resolve_step<A>(pre: InputActionPlugin<A>, post: InputActionPlugin<A>) -> bool {
    &&& post.current() == pre.pending()
    &&& post.pending() is None
    &&& post.previous() == pre.previous()
    &&& post.queue() == pre.queue()
}

/// Holds when one tracking turned the pipeline `pre` into `post`: the queue
/// took exactly the transition event from the previous to the current
/// resolved value, the previous value became the current one, and the
/// current value and the drain are untouched.
pub open spec fn track_step<A>(pre: InputActionPlugin<A>, post: InputActionPlugin<A>) -> bool {
    &&& tracker_step(pre.queue(), post.queue(), pre.previous(), pre.current())
    &&& post.previous() == pre.current()
    &&& post.current() == pre.current()
    &&& post.pending() == pre.pending()
}

impl<A> InputActionPlugin<A> {
    /// The value pending in the drain, if any.
    pub closed spec fn pending(&self) -> Option<A> {
        self.drain.pending()
    }

    /// The current resolved value: `Some` when active, `None` when idle.
    pub closed spec fn current(&self) -> Option<A> {
        self.state.as_option()
    }

    /// The previous tick's resolved value, retained for comparison.
    pub closed spec fn previous(&self) -> Option<A> {
        self.previous
    }

    /// The pipeline's event queue.
    pub closed spec fn queue(&self) -> InputActionEvents<A> {
        self.events
    }

    /// Well-formedness of the pipeline: its event queue is well-formed.
    pub open spec fn wf(&self) -> bool {
        self.queue().wf()
    }

    /// Creates the pipeline for one action kind: idle, with an empty drain
    /// and an empty event queue.
    pub fn new() -> (r: Self)
        ensures
            r.wf(),
            r.pending() is None,
            r.current() is None,
            r.previous() is None,
            r.queue().first() == 0,
            r.queue().current_start() == 0,
            r.queue().retained() == Seq::<InputActionUpdated<A>>::empty(),
    {
        InputActionPlugin {
            drain: InputActionDrain::new(),
            state: InputActionState::Idle,
            previous: None,
            events: InputActionEvents::new(),
        }
    }

    /// Pours a value for this action, replacing any pending value.
    pub fn pour(&mut self, state: A)
        ensures
            final(self).pending() == Some(state),
            final(self).current() == old(self).current(),
            final(self).previous() == old(self).previous(),
            final(self).queue() == old(self).queue(),
    {
        self.drain.pour(state);
    }

    /// Resolves the drain into the durable state and clears the drain.
    ///
    /// Runs once per tick, after the tick's pours and before
    /// [`InputActionPlugin::track`].
    pub fn resolve(&mut self)
        ensures
            final(self).current() == old(self).pending(),
            final(self).pending() is None,
            final(self).previous() == old(self).previous(),
            final(self).queue() == old(self).queue(),
            resolve_step(*old(self), *final(self)),
    {
        update_input_action_state(&mut self.drain, &mut self.state);
    }

    /// Per-tick queue maintenance: reclaims the previous tick's events.
    ///
    /// Runs once per tick, before the tick's pours, so that every event
    /// stays visible for the tick in which it was emitted and for the
    /// following one.
    pub fn update_events(&mut self)
        requires
            old(self).wf(),
        ensures
            final(self).wf(),
            final(self).queue().first() == old(self).queue().current_start(),
            final(self).queue().retained() == old(self).queue().retained().skip(
                (old(self).queue().current_start() - old(self).queue().first()) as int,
            ),
            final(self).queue().next() == old(self).queue().next(),
            final(self).queue().current_start() == final(self).queue().next(),
            final(self).pending() == old(self).pending(),
            final(self).current() == old(self).current(),
            final(self).previous() == old(self).previous(),
    {
        self.events.update();
    }

    /// Returns whether the action is currently active.
    pub fn is_active(&self) -> (r: bool)
        ensures
            r == (self.current() is Some),
    {
        self.state.is_active()
    }

    /// Borrows the pipeline's event queue, for readers.
    pub fn events(&self) -> (r: &InputActionEvents<A>)
        ensures
            *r == self.queue(),
    {
        &self.events
    }

    /// Borrows the durable state.
    pub fn current_state(&self) -> (r: &InputActionState<A>)
        ensures
            r.as_option() == self.current(),
    {
        &self.state
    }
}

impl<A: InputAction> InputActionPlugin<A> {
    /// Compares the current resolved value with the previous tick's and
    /// appends the resulting transition event, if any, to the queue; the
    /// retained previous value becomes the current one.
    ///
    /// Runs once per tick, strictly after [`InputActionPlugin::resolve`].
    pub fn track(&mut self)
        requires
            old(self).wf(),
            old(self).queue().next() < u64::MAX,
        ensures
            final(self).wf(),
            tracker_step(
                old(self).queue(),
                final(self).queue(),
                old(self).previous(),
                old(self).current(),
            ),
            final(self).previous() == old(self).current(),
            final(self).current() == old(self).current(),
            final(self).pending() == old(self).pending(),
            track_step(*old(self), *final(self)),
    {
        write_input_action_events(&mut self.previous, &mut self.events, &self.state);
    }

    /// Returns a duplicate of the current resolved value, or `None` when
    /// idle.
    pub fn state(&self) -> (r: Option<A>)
        ensures
            r == self.current(),
    {
        self.state.state()
    }
}

impl<A> Default for InputActionPlugin<A> {
    /// A freshly created pipeline, as from [`InputActionPlugin::new`].
    fn default() -> (r: Self)
        ensures
            r.wf(),
            r.pending() is None,
            r.current() is None,
            r.previous() is None,
            r.queue().first() == 0,
            r.queue().current_start() == 0,
            r.queue().retained() == Seq::<InputActionUpdated<A>>::empty(),
    {
        InputActionPlugin::new()
    }
}

} // verus!
