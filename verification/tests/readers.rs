use actify::{InputActionPlugin, InputActionReader, InputActionStatus};

#[test]
fn two_readers_each_observe_an_event_exactly_once() {
    let mut p: InputActionPlugin<u64> = InputActionPlugin::new();
    let mut reader_a = InputActionReader::new();
    let mut reader_b = InputActionReader::new();
    p.update_events();
    p.pour(5);
    p.resolve();
    p.track();
    // both observe the event, in either order
    assert_eq!(reader_a.read(p.events()), vec![InputActionStatus::Started(5)]);
    assert_eq!(reader_b.read(p.events()), vec![InputActionStatus::Started(5)]);
    // and neither observes it twice
    assert_eq!(reader_a.read(p.events()), vec![]);
    assert_eq!(reader_b.read(p.events()), vec![]);
}

#[test]
fn clear_on_one_reader_leaves_the_other_untouched() {
    let mut p: InputActionPlugin<u64> = InputActionPlugin::new();
    let mut reader_a = InputActionReader::new();
    let mut reader_b = InputActionReader::new();
    p.update_events();
    p.pour(5);
    p.resolve();
    p.track();
    reader_a.clear(p.events());
    assert!(reader_a.is_empty(p.events()));
    assert!(!reader_b.is_empty(p.events()));
    assert_eq!(reader_b.read(p.events()), vec![InputActionStatus::Started(5)]);
}

#[test]
fn is_empty_reflects_unseen_events() {
    let mut p: InputActionPlugin<u64> = InputActionPlugin::new();
    let mut r = InputActionReader::new();
    assert!(r.is_empty(p.events()));
    p.update_events();
    p.pour(5);
    p.resolve();
    p.track();
    assert!(!r.is_empty(p.events()));
    r.read(p.events());
    assert!(r.is_empty(p.events()));
}

#[test]
fn events_survive_the_following_tick_and_are_then_reclaimed() {
    let mut p: InputActionPlugin<u64> = InputActionPlugin::new();
    // tick 1 emits Started(5)
    p.update_events();
    p.pour(5);
    p.resolve();
    p.track();
    // tick 2: the event is still visible to a late reader
    p.update_events();
    let mut late = InputActionReader::new();
    assert_eq!(late.read(p.events()), vec![InputActionStatus::Started(5)]);
    p.pour(5);
    p.resolve();
    p.track();
    // tick 3: the tick-1 event has been reclaimed, read or not
    p.update_events();
    let mut very_late = InputActionReader::new();
    assert_eq!(very_late.read(p.events()), vec![]);
}

#[test]
fn reader_skips_reclaimed_events_and_delivers_the_rest() {
    let mut p: InputActionPlugin<u64> = InputActionPlugin::new();
    let mut r = InputActionReader::new();
    // tick 1 emits Started(5); the reader does not read it in time
    p.update_events();
    p.pour(5);
    p.resolve();
    p.track();
    // tick 2 emits Updated(7)
    p.update_events();
    p.pour(7);
    p.resolve();
    p.track();
    // tick 3 emits Updated(9); tick 1's event is reclaimed by now
    p.update_events();
    p.pour(9);
    p.resolve();
    p.track();
    assert_eq!(
        r.read(p.events()),
        vec![InputActionStatus::Updated(7), InputActionStatus::Updated(9)]
    );
}

#[test]
fn distinct_action_kinds_are_isolated() {
    let mut held: InputActionPlugin<bool> = InputActionPlugin::new();
    let mut axis: InputActionPlugin<u64> = InputActionPlugin::new();
    let mut held_reader = InputActionReader::new();
    let mut axis_reader = InputActionReader::new();
    held.update_events();
    axis.update_events();
    held.pour(true);
    held.resolve();
    held.track();
    axis.resolve();
    axis.track();
    assert_eq!(
        held_reader.read(held.events()),
        vec![InputActionStatus::Started(true)]
    );
    assert_eq!(axis_reader.read(axis.events()), vec![]);
    assert!(!axis.is_active());
    assert!(held.is_active());
}
