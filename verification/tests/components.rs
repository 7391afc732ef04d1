use actify::{
    update_input_action_state, write_input_action_events, InputActionDrain, InputActionEvents,
    InputActionReader, InputActionState, InputActionStatus, InputActionUpdated,
};

#[test]
fn drain_keeps_only_the_last_pour() {
    let mut drain: InputActionDrain<u64> = InputActionDrain::new();
    drain.pour(1);
    drain.pour(2);
    drain.pour(3);
    assert_eq!(drain.take(), Some(3));
    assert_eq!(drain.take(), None);
}

#[test]
fn resolve_empties_the_drain() {
    let mut drain: InputActionDrain<u64> = InputActionDrain::new();
    let mut state: InputActionState<u64> = InputActionState::Idle;
    drain.pour(5);
    update_input_action_state(&mut drain, &mut state);
    assert_eq!(state.state(), Some(5));
    assert_eq!(drain.take(), None);
}

#[test]
fn resolve_of_an_empty_drain_yields_idle() {
    let mut drain: InputActionDrain<u64> = InputActionDrain::new();
    let mut state = InputActionState::Active(5u64);
    update_input_action_state(&mut drain, &mut state);
    assert!(!state.is_active());
    assert_eq!(state.state(), None);
}

#[test]
fn state_reports_active_value() {
    let active = InputActionState::Active(9u64);
    assert!(active.is_active());
    assert_eq!(active.state(), Some(9));
    let idle: InputActionState<u64> = InputActionState::Idle;
    assert!(!idle.is_active());
    assert_eq!(idle.state(), None);
}

#[test]
fn defaults_are_empty_and_idle() {
    let mut drain: InputActionDrain<u64> = Default::default();
    assert_eq!(drain.take(), None);
    let state: InputActionState<u64> = Default::default();
    assert!(!state.is_active());
}

#[test]
fn tracker_follows_the_transition_table() {
    let mut events: InputActionEvents<u64> = InputActionEvents::new();
    let mut previous: Option<u64> = None;
    let mut reader = InputActionReader::new();

    // idle to idle: nothing
    write_input_action_events(&mut previous, &mut events, &InputActionState::Idle);
    assert_eq!(previous, None);
    assert_eq!(reader.read(&events), vec![]);

    // idle to active: Started
    write_input_action_events(&mut previous, &mut events, &InputActionState::Active(5));
    assert_eq!(previous, Some(5));
    assert_eq!(reader.read(&events), vec![InputActionStatus::Started(5)]);

    // active to active, equal values: nothing
    write_input_action_events(&mut previous, &mut events, &InputActionState::Active(5));
    assert_eq!(previous, Some(5));
    assert_eq!(reader.read(&events), vec![]);

    // active to active, changed value: Updated
    write_input_action_events(&mut previous, &mut events, &InputActionState::Active(7));
    assert_eq!(previous, Some(7));
    assert_eq!(reader.read(&events), vec![InputActionStatus::Updated(7)]);

    // active to idle: Stopped
    write_input_action_events(&mut previous, &mut events, &InputActionState::Idle);
    assert_eq!(previous, None);
    assert_eq!(reader.read(&events), vec![InputActionStatus::Stopped]);
}

#[test]
fn stored_events_map_to_matching_statuses() {
    assert_eq!(
        InputActionUpdated::Started(4u64).to_status(),
        InputActionStatus::Started(4)
    );
    assert_eq!(
        InputActionUpdated::Updated(4u64).to_status(),
        InputActionStatus::Updated(4)
    );
    assert_eq!(
        InputActionUpdated::<u64>::Stopped.to_status(),
        InputActionStatus::Stopped
    );
}
