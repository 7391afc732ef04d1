//! Condition helpers for checking an action's state and fresh transitions.

use vstd::prelude::*;

use crate::action::InputAction;
use crate::events::{InputActionEvents, InputActionReader, InputActionStatus};
use crate::state::InputActionState;

verus! {

/// Returns whether the action is active.
pub fn input_action_active<A>(action: &InputActionState<A>) -> (r: bool)
    ensures
        r == (action.as_option() is Some),
{
    action.is_active()
}

/// Returns whether the action has just started: whether the reader's unseen
/// events hold a `Started` one. Consumes the reader's unseen events.
pub fn input_action_started<A: InputAction>(
    action: &mut InputActionReader,
    events: &InputActionEvents<A>,
) -> (r: bool)
    requires
        events.wf(),
    ensures
        r == (exists|k: int|
            0 <= k < events.unseen_from(old(action).last_seen()).len()
                && events.unseen_from(old(action).last_seen())[k] is Started),
        final(action).last_seen() == events.next(),
{
    let statuses = action.read(events);
    let mut found = false;
    let mut i: usize = 0;
    while i < statuses.len()
        invariant
            i <= statuses@.len(),
            found == (exists|k: int| 0 <= k < i && statuses@[k] is Started),
        decreases statuses@.len() - i,
    {
        if let InputActionStatus::Started(_) = &statuses[i] {
            found = true;
        }
        i = i + 1;
    }
    action.clear(events);
    proof {
        lemma_status_variants(events.unseen_from(old(action).last_seen()), statuses@);
    }
    found
}

/// Returns whether the action has just updated its value while staying
/// active: whether the reader's unseen events hold an `Updated` one.
/// Consumes the reader's unseen events.
pub fn input_action_updated<A: InputAction>(
    action: &mut InputActionReader,
    events: &InputActionEvents<A>,
) -> (r: bool)
    requires
        events.wf(),
    ensures
        r == (exists|k: int|
            0 <= k < events.unseen_from(old(action).last_seen()).len()
                && events.unseen_from(old(action).last_seen())[k] is Updated),
        final(action).last_seen() == events.next(),
{
    let statuses = action.read(events);
    let mut found = false;
    let mut i: usize = 0;
    while i < statuses.len()
        invariant
            i <= statuses@.len(),
            found == (exists|k: int| 0 <= k < i && statuses@[k] is Updated),
        decreases statuses@.len() - i,
    {
        if let InputActionStatus::Updated(_) = &statuses[i] {
            found = true;
        }
        i = i + 1;
    }
    action.clear(events);
    proof {
        lemma_status_variants(events.unseen_from(old(action).last_seen()), statuses@);
    }
    found
}

/// Returns whether the action has just stopped: whether the reader's unseen
/// events hold a `Stopped` one. Consumes the reader's unseen events.
pub fn input_action_stopped<A: InputAction>(
    action: &mut InputActionReader,
    events: &InputActionEvents<A>,
) -> (r: bool)
    requires
        events.wf(),
    ensures
        r == (exists|k: int|
            0 <= k < events.unseen_from(old(action).last_seen()).len()
                && events.unseen_from(old(action).last_seen())[k] is Stopped),
        final(action).last_seen() == events.next(),
{
    let statuses = action.read(events);
    let mut found = false;
    let mut i: usize = 0;
    while i < statuses.len()
        invariant
            i <= statuses@.len(),
            found == (exists|k: int| 0 <= k < i && statuses@[k] is Stopped),
        decreases statuses@.len() - i,
    {
        if let InputActionStatus::Stopped = &statuses[i] {
            found = true;
        }
        i = i + 1;
    }
    action.clear(events);
    proof {
        lemma_status_variants(events.unseen_from(old(action).last_seen()), statuses@);
    }
    found
}

/// A delivered status carries the same variant as the stored event it came
/// from, position by position.
proof fn lemma_status_variants<A>(
    unseen: Seq<crate::events::InputActionUpdated<A>>,
    statuses: Seq<InputActionStatus<A>>,
)
    requires
        statuses == unseen.map_values(|e: crate::events::InputActionUpdated<A>| e.as_status()),
    ensures
        statuses.len() == unseen.len(),
        forall|k: int|
            0 <= k < unseen.len() ==> ((statuses[k] is Started <==> unseen[k] is Started) && (
            statuses[k] is Updated <==> unseen[k] is Updated) && (statuses[k] is Stopped
                <==> unseen[k] is Stopped)),
{
}

} // verus!
