//! The guarantees the pipeline gives across its components, stated and
//! proved as lemmas over the components' public specifications.

use vstd::prelude::*;

use crate::drain::{poured, InputActionDrain};
use crate::events::{
    clear_step, maintenance_step, read_step, tracker_step, transition_event, InputActionEvents,
    InputActionReader, InputActionStatus, InputActionUpdated,
};
use crate::pipeline::{resolve_step, track_step, InputActionPlugin};
use crate::state::{resolved, InputActionState};

verus! {

/// For any sequence of pours within one tick, only the last pour's value is
/// observed by that tick's resolution: given the chain of drain states
/// `drains` produced by pouring `values` one after another, resolving the
/// final drain state observes the last value alone.
pub proof fn lemma_last_pour_wins<A>(
    drains: Seq<InputActionDrain<A>>,
    values: Seq<A>,
    s: InputActionState<A>,
)
    requires
        drains.len() == values.len() + 1,
        values.len() > 0,
        forall|i: int| 0 <= i < values.len() ==> poured(drains[i], drains[i + 1], values[i]),
        resolved(drains.last(), s),
    ensures
        s.as_option() == Some(values.last()),
{
    let n: int = values.len() as int;
    assert(poured(drains[n - 1], drains[n], values[n - 1]));
}

/// An action idle on consecutive ticks emits no event: a tracking step from
/// no previous value to no current value leaves the queue unchanged.
pub proof fn lemma_idle_stays_silent<A>(pre: InputActionEvents<A>, post: InputActionEvents<A>)
    requires
        tracker_step(pre, post, None::<A>, None::<A>),
    ensures
        post.retained() == pre.retained(),
{
}

/// An action going from idle to active with value `v` emits exactly
/// `Started(v)`.
pub proof fn lemma_start_emits_started<A>(
    pre: InputActionEvents<A>,
    post: InputActionEvents<A>,
    v: A,
)
    requires
        tracker_step(pre, post, None::<A>, Some(v)),
    ensures
        post.retained() == pre.retained().push(InputActionUpdated::Started(v)),
{
}

/// An action active on consecutive ticks emits no event when the value is
/// unchanged, and exactly `Updated(c)` when the value changed to `c`.
pub proof fn lemma_active_change_emits_updated<A>(
    pre: InputActionEvents<A>,
    post: InputActionEvents<A>,
    p: A,
    c: A,
)
    requires
        tracker_step(pre, post, Some(p), Some(c)),
    ensures
        p == c ==> post.retained() == pre.retained(),
        p != c ==> post.retained() == pre.retained().push(InputActionUpdated::Updated(c)),
{
}

/// An action going from active to idle emits exactly `Stopped`.
pub proof fn lemma_stop_emits_stopped<A>(
    pre: InputActionEvents<A>,
    post: InputActionEvents<A>,
    p: A,
)
    requires
        tracker_step(pre, post, Some(p), None::<A>),
    ensures
        post.retained() == pre.retained().push(InputActionUpdated::Stopped),
{
}

/// One tick's effect on the queue: resolving and then tracking appends
/// exactly the transition event, if there is one, from the previous tick's
/// resolved value to the value that was pending at resolution time, and the
/// retained previous value becomes that pending value.
pub proof fn lemma_tick_emits_transition<A>(
    p0: InputActionPlugin<A>,
    p1: InputActionPlugin<A>,
    p2: InputActionPlugin<A>,
)
    requires
        resolve_step(p0, p1),
        track_step(p1, p2),
    ensures
        match transition_event(p0.previous(), p0.pending()) {
            Some(e) => p2.queue().retained() == p0.queue().retained().push(e),
            None => p2.queue().retained() == p0.queue().retained(),
        },
        p2.previous() == p0.pending(),
{
}

/// Every event stays visible at least for the tick in which it was emitted
/// and for the following tick: one maintenance step advances the reclaim
/// boundary only to the start of the tick in which the event was emitted,
/// so the event is still retained, under the same generation id, and any
/// cursor at or below that id is still delivered it.
pub proof fn lemma_event_visible_through_next_tick<A>(
    q0: InputActionEvents<A>,
    q1: InputActionEvents<A>,
    n: nat,
)
    requires
        q0.wf(),
        q0.current_start() <= n < q0.next(),
        maintenance_step(q0, q1),
    ensures
        q1.first() <= n < q1.next(),
        q1.retained()[(n - q1.first()) as int] == q0.retained()[(n - q0.first()) as int],
{
}

/// A retained event with generation id `n` is delivered to a cursor at or
/// below `n` exactly once: the read hands it out, at the position of `n`
/// within the delivered sequence, and because the read leaves the cursor at
/// the write head, a later read starts beyond `n` and delivers nothing.
pub proof fn lemma_read_delivers_each_event_once<A>(
    q: InputActionEvents<A>,
    cursor: nat,
    n: nat,
)
    requires
        q.wf(),
        q.first() <= n < q.next(),
        cursor <= n,
    ensures
        q.start_of(cursor) <= n,
        q.unseen_from(cursor).len() == q.next() - q.start_of(cursor),
        q.unseen_from(cursor)[(n - q.start_of(cursor)) as int] == q.retained()[(n
            - q.first()) as int],
        q.unseen_from(q.next()).len() == 0,
{
}

/// Two independent readers attached at the same position observe the same
/// statuses, regardless of the order of their reads: a read borrows the
/// queue immutably and moves only its own cursor, so neither read changes
/// what the other is delivered.
pub proof fn lemma_independent_readers_agree<A>(
    q: InputActionEvents<A>,
    x0: InputActionReader,
    x1: InputActionReader,
    y0: InputActionReader,
    y1: InputActionReader,
    rx: Seq<InputActionStatus<A>>,
    ry: Seq<InputActionStatus<A>>,
)
    requires
        x0.last_seen() == y0.last_seen(),
        read_step(x0, x1, q, rx),
        read_step(y0, y1, q, ry),
    ensures
        rx == ry,
{
}

/// A reader observes an event at most once: after a read, the cursor sits
/// at the write head, so reading again against the same queue delivers
/// nothing.
pub proof fn lemma_second_read_is_empty<A>(
    q: InputActionEvents<A>,
    x0: InputActionReader,
    x1: InputActionReader,
    x2: InputActionReader,
    r1: Seq<InputActionStatus<A>>,
    r2: Seq<InputActionStatus<A>>,
)
    requires
        q.wf(),
        read_step(x0, x1, q, r1),
        read_step(x1, x2, q, r2),
    ensures
        r2.len() == 0,
{
}

/// Clearing a reader moves only that reader's own cursor to the write head,
/// after which it has nothing pending. The queue is borrowed immutably by
/// the clear, so what any other reader has pending — a function of the
/// queue and of that reader's own cursor alone — is exactly as before.
pub proof fn lemma_clear_is_reader_local<A>(
    q: InputActionEvents<A>,
    x0: InputActionReader,
    x1: InputActionReader,
)
    requires
        q.wf(),
        clear_step(x0, x1, q),
    ensures
        q.unseen_from(x1.last_seen()).len() == 0,
{
}

} // verus!
