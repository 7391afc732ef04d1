//! Transition events, the bounded multi-reader event queue, its cursors,
//! and the tracker that diffs consecutive ticks.

use vstd::prelude::*;

use crate::action::InputAction;
use crate::state::InputActionState;

verus! {

/// Transition event for one action kind, as stored in the event queue.
///
/// At most one such event is created per action kind per tick, by
/// [`write_input_action_events`].
#[derive(Debug, Clone, PartialEq, Eq)]
pub enum InputActionUpdated<A> {
    /// The action transitioned from idle to active with this value.
    Started(A),
    /// The action stayed active but its value changed to this one.
    Updated(A),
    /// The action transitioned from active to idle.
    Stopped,
}

/// Transition status of an action, as delivered to a reader.
#[derive(Debug, Clone, PartialEq, Eq)]
pub enum InputActionStatus<A> {
    /// The action has started with this value.
    Started(A),
    /// The action had been active, but changed its value to this one.
    Updated(A),
    /// The action has stopped.
    Stopped,
}

impl<A> InputActionUpdated<A> {
    /// The status a reader observes for this stored event.
    pub open spec fn as_status(self) -> InputActionStatus<A> {
        match self {
            InputActionUpdated::Started(v) => InputActionStatus::Started(v),
            InputActionUpdated::Updated(v) => InputActionStatus::Updated(v),
            InputActionUpdated::Stopped => InputActionStatus::Stopped,
        }
    }
}

impl<A: InputAction> InputActionUpdated<A> {
    /// Duplicates this stored event into the status delivered to a reader.
    pub fn to_status(&self) -> (r: InputActionStatus<A>)
        ensures
            r == self.as_status(),
    {
        match self {
            InputActionUpdated::Started(v) => InputActionStatus::Started(v.dup()),
            InputActionUpdated::Updated(v) => InputActionStatus::Updated(v.dup()),
            InputActionUpdated::Stopped => InputActionStatus::Stopped,
        }
    }
}

/// Append-only, per-tick event store for one action kind, readable by many
/// independent cursors.
///
/// Every event ever appended gets a generation id from a monotonically
/// increasing counter. The queue retains only the events of the current and
/// of the previous tick, mirroring a double-buffered event bus: an event is
/// visible at least for the tick in which it was emitted and for the
/// following tick, after which [`InputActionEvents::update`] reclaims it
/// whether or not every reader has consumed it.
pub struct InputActionEvents<A> {
    /// Retained events, oldest first; the event at index `i` has generation
    /// id `first_id + i`.
    buffer: Vec<InputActionUpdated<A>>,
    /// Index in `buffer` where the current tick's events begin; everything
    /// before it was emitted in the previous tick.
    split: usize,
    /// Generation id of `buffer[0]`; equivalently, how many events have been
    /// reclaimed so far.
    first_id: u64,
}

impl<A> InputActionEvents<A> {
    /// The retained events, oldest first.
    pub closed spec fn retained(&self) -> Seq<InputActionUpdated<A>> {
        self.buffer@
    }

    /// The generation id of the oldest retained event; ids below it belong
    /// to reclaimed events.
    pub closed spec fn first(&self) -> nat {
        self.first_id as nat
    }

    /// The generation id at which the current tick's events begin; events
    /// with smaller ids were emitted in the previous tick and are reclaimed
    /// by the next [`InputActionEvents::update`].
    pub closed spec fn current_start(&self) -> nat {
        (self.first_id + self.split) as nat
    }

    /// The queue's write head: the id the next appended event will get.
    pub open spec fn next(&self) -> nat {
        (self.first() + self.retained().len()) as nat
    }

    /// Well-formedness: the tick boundary lies within the retained events
    /// and the generation counter has room to grow.
    pub open spec fn wf(&self) -> bool {
        self.first() <= self.current_start() <= self.next() <= u64::MAX
    }

    /// The id of the first event a cursor at `cursor` still gets delivered:
    /// the cursor itself, unless events at and above it were already
    /// reclaimed.
    pub open spec fn start_of(&self, cursor: nat) -> nat {
        if cursor <= self.first() {
            self.first()
        } else {
            cursor
        }
    }

    /// The events a cursor at `cursor` has not yet seen, oldest first.
    pub open spec fn unseen_from(&self, cursor: nat) -> Seq<InputActionUpdated<A>> {
        if self.start_of(cursor) <= self.next() {
            self.retained().skip((self.start_of(cursor) - self.first()) as int)
        } else {
            Seq::empty()
        }
    }

    /// The statuses a cursor at `cursor` gets delivered, oldest first.
    pub open spec fn statuses_from(&self, cursor: nat) -> Seq<InputActionStatus<A>> {
        self.unseen_from(cursor).map_values(|e: InputActionUpdated<A>| e.as_status())
    }

    /// Creates an empty queue whose generation counter starts at zero.
    pub fn new() -> (r: Self)
        ensures
            r.wf(),
            r.first() == 0,
            r.current_start() == 0,
            r.retained() == Seq::<InputActionUpdated<A>>::empty(),
    {
        InputActionEvents { buffer: Vec::new(), split: 0, first_id: 0 }
    }

    /// Appends an event at the write head, in emission order.
    pub fn append(&mut self, event: InputActionUpdated<A>)
        requires
            old(self).wf(),
            old(self).next() < u64::MAX,
        ensures
            final(self).wf(),
            final(self).retained() == old(self).retained().push(event),
            final(self).first() == old(self).first(),
            final(self).current_start() == old(self).current_start(),
    {
        self.buffer.push(event);
    }

    /// Advances the tick boundary, reclaiming the previous tick's events.
    ///
    /// To be called exactly once per tick by the host, before the tick's
    /// pours are resolved. Events appended since the previous call survive
    /// into the new tick; older ones are dropped, whether read or not.
    pub fn update(&mut self)
        requires
            old(self).wf(),
        ensures
            final(self).wf(),
            final(self).first() == old(self).current_start(),
            final(self).retained() == old(self).retained().skip(
                (old(self).current_start() - old(self).first()) as int,
            ),
            final(self).next() == old(self).next(),
            final(self).current_start() == final(self).next(),
            maintenance_step(*old(self), *final(self)),
    {
        let tail = self.buffer.split_off(self.split);
        self.buffer = tail;
        self.first_id = self.first_id + self.split as u64;
        self.split = self.buffer.len();
    }

    /// Returns the queue's write head as a generation id.
    pub fn next_id(&self) -> (r: u64)
        requires
            self.wf(),
        ensures
            r == self.next(),
    {
        self.first_id + self.buffer.len() as u64
    }
}

/// Holds when one per-tick maintenance step turned the queue `pre` into
/// `post`: the reclaim boundary advanced exactly to the start of the
/// current tick, whose events all survived and now form the previous tick.
pub open spec fn maintenance_step<A>(
    pre: InputActionEvents<A>,
    post: InputActionEvents<A>,
) -> bool {
    &&& post.first() == pre.current_start()
    &&& post.retained() == pre.retained().skip((pre.current_start() - pre.first()) as int)
    &&& post.current_start() == post.next()
    &&& post.next() == pre.next()
}

/// Cursor of one independent consumer over an [`InputActionEvents`] queue.
///
/// A reader owns nothing but its own position: the generation id of the
/// first event it has not yet observed. Readers impose nothing on one
/// another or on the writer side; reading or clearing one reader never
/// consumes or hides events from another.
#[derive(Debug, Clone, PartialEq, Eq)]
pub struct InputActionReader {
    last_seen: u64,
}

/// Holds when one read against the queue `events` moved the reader from
/// `pre` to `post` and delivered `delivered`: everything unseen was handed
/// out in emission order and the cursor advanced to the write head.
pub open spec fn read_step<A>(
    pre: InputActionReader,
    post: InputActionReader,
    events: InputActionEvents<A>,
    delivered: Seq<InputActionStatus<A>>,
) -> bool {
    &&& delivered == events.statuses_from(pre.last_seen())
    &&& post.last_seen() == events.next()
}

/// Holds when clearing against the queue `events` moved the reader from
/// `pre` to `post`: the cursor advanced to the write head and nothing was
/// delivered. The queue itself, and with it every other reader's pending
/// events, is untouched.
pub open spec fn clear_step<A>(
    pre: InputActionReader,
    post: InputActionReader,
    events: InputActionEvents<A>,
) -> bool {
    post.last_seen() == events.next()
}

impl InputActionReader {
    /// The generation id of the first event this reader has not observed.
    pub closed spec fn last_seen(&self) -> nat {
        self.last_seen as nat
    }

    /// Creates a reader that has seen nothing: its first read delivers
    /// every event still retained by the queue.
    pub fn new() -> (r: Self)
        ensures
            r.last_seen() == 0,
    {
        InputActionReader { last_seen: 0 }
    }

    /// Delivers all events appended since this reader's position, in
    /// emission order, and advances the position past them.
    ///
    /// Degrades to an empty sequence when nothing is unseen; never fails.
    pub fn read<A: InputAction>(&mut self, events: &InputActionEvents<A>) -> (r: Vec<
        InputActionStatus<A>,
    >)
        requires
            events.wf(),
        ensures
            r@ == events.statuses_from(old(self).last_seen()),
            final(self).last_seen() == events.next(),
            read_step(*old(self), *final(self), *events, r@),
    {
        let next: u64 = events.next_id();
        let start: u64 = if self.last_seen < events.first_id {
            events.first_id
        } else {
            self.last_seen
        };
        let base: usize = if start < next {
            (start - events.first_id) as usize
        } else {
            events.buffer.len()
        };
        let mut out: Vec<InputActionStatus<A>> = Vec::new();
        let mut i: usize = base;
        while i < events.buffer.len()
            invariant
                events.wf(),
                base <= i <= events.buffer@.len(),
                out@.len() == i - base,
                forall|k: int|
                    0 <= k < out@.len() ==> out@[k] == events.buffer@[base + k].as_status(),
            decreases events.buffer@.len() - i,
        {
            out.push(events.buffer[i].to_status());
            i = i + 1;
        }
        proof {
            let cursor: nat = self.last_seen as nat;
            let unseen = events.unseen_from(cursor);
            assert(base as int == events.retained().len() - unseen.len());
            assert(out@ =~= events.statuses_from(cursor));
        }
        self.last_seen = next;
        out
    }

    /// Returns whether no unseen event exists for this reader.
    pub fn is_empty<A>(&self, events: &InputActionEvents<A>) -> (r: bool)
        requires
            events.wf(),
        ensures
            r == (events.unseen_from(self.last_seen()).len() == 0),
    {
        let next: u64 = events.next_id();
        let start: u64 = if self.last_seen < events.first_id {
            events.first_id
        } else {
            self.last_seen
        };
        start >= next
    }

    /// Advances this reader's position to the write head, discarding its
    /// own unseen events. Other readers' pending events are unaffected.
    pub fn clear<A>(&mut self, events: &InputActionEvents<A>)
        requires
            events.wf(),
        ensures
            final(self).last_seen() == events.next(),
            clear_step(*old(self), *final(self), *events),
    {
        self.last_seen = events.next_id();
    }
}

/// The transition event emitted when an action's previous resolved value
/// `previous` is followed by the resolved value `current` one tick later:
/// `Started` on idle-to-active, `Stopped` on active-to-idle, `Updated` on an
/// active value that changed, and no event otherwise.
pub open spec fn transition_event<A>(previous: Option<A>, current: Option<A>) -> Option<
    InputActionUpdated<A>,
> {
    match (previous, current) {
        (None, None) => None,
        (None, Some(v)) => Some(InputActionUpdated::Started(v)),
        (Some(_), None) => Some(InputActionUpdated::Stopped),
        (Some(p), Some(c)) => if p == c {
            None
        } else {
            Some(InputActionUpdated::Updated(c))
        },
    }
}

/// Holds when one tracking step against previous value `previous` and
/// current value `current` turned the queue `pre` into `post`: exactly the
/// transition event, if there is one, was appended, and nothing else about
/// the queue changed.
pub open spec fn tracker_step<A>(
    pre: InputActionEvents<A>,
    post: InputActionEvents<A>,
    previous: Option<A>,
    current: Option<A>,
) -> bool {
    &&& match transition_event(previous, current) {
        Some(e) => post.retained() == pre.retained().push(e),
        None => post.retained() == pre.retained(),
    }
    &&& post.first() == pre.first()
    &&& post.current_start() == pre.current_start()
}

/// Compares the previous tick's resolved value with the current state and
/// appends the resulting transition event, if any, to the queue.
///
/// `local` retains the previous tick's resolved value; after the comparison
/// it is unconditionally set to the current one, whether or not an event
/// fired. To be called exactly once per tick, strictly after
/// [`crate::state::update_input_action_state`].
pub fn write_input_action_events<A: InputAction>(
    local: &mut Option<A>,
    events: &mut InputActionEvents<A>,
    state: &InputActionState<A>,
)
    requires
        old(events).wf(),
        old(events).next() < u64::MAX,
    ensures
        final(events).wf(),
        tracker_step(*old(events), *final(events), *old(local), state.as_option()),
        *final(local) == state.as_option(),
{
    match state {
        InputActionState::Active(next) => {
            match local.as_ref() {
                Some(previous) => {
                    if !previous.action_eq(next) {
                        events.append(InputActionUpdated::Updated(next.dup()));
                    }
                },
                None => {
                    events.append(InputActionUpdated::Started(next.dup()));
                },
            }
            *local = Some(next.dup());
        },
        InputActionState::Idle => {
            if local.is_some() {
                events.append(InputActionUpdated::Stopped);
            }
            *local = None;
        },
    }
}

} // verus!
