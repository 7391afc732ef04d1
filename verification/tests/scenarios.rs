use actify::{InputActionPlugin, InputActionReader, InputActionStatus};

#[test]
fn tick_with_pour_resolves_active_and_starts() {
    let mut p: InputActionPlugin<u64> = InputActionPlugin::new();
    p.update_events();
    p.pour(5);
    p.resolve();
    assert!(p.is_active());
    assert_eq!(p.state(), Some(5));
    p.track();
    let mut r = InputActionReader::new();
    assert_eq!(r.read(p.events()), vec![InputActionStatus::Started(5)]);
}

#[test]
fn tick_without_pour_resolves_idle_and_stops() {
    let mut p: InputActionPlugin<u64> = InputActionPlugin::new();
    p.update_events();
    p.pour(5);
    p.resolve();
    p.track();
    // next tick: no pour
    p.update_events();
    p.resolve();
    assert!(!p.is_active());
    assert_eq!(p.state(), None);
    p.track();
    let mut r = InputActionReader::new();
    assert_eq!(
        r.read(p.events()),
        vec![InputActionStatus::Started(5), InputActionStatus::Stopped]
    );
}

#[test]
fn equal_value_on_consecutive_ticks_emits_nothing() {
    let mut p: InputActionPlugin<u64> = InputActionPlugin::new();
    p.update_events();
    p.pour(5);
    p.resolve();
    p.track();
    let mut r = InputActionReader::new();
    r.clear(p.events());
    // next tick: same value poured again
    p.update_events();
    p.pour(5);
    p.resolve();
    assert_eq!(p.state(), Some(5));
    p.track();
    assert!(r.is_empty(p.events()));
    assert_eq!(r.read(p.events()), vec![]);
}

#[test]
fn changed_value_on_consecutive_ticks_emits_updated() {
    let mut p: InputActionPlugin<u64> = InputActionPlugin::new();
    p.update_events();
    p.pour(5);
    p.resolve();
    p.track();
    let mut r = InputActionReader::new();
    r.clear(p.events());
    // next tick: a different value
    p.update_events();
    p.pour(7);
    p.resolve();
    p.track();
    assert_eq!(r.read(p.events()), vec![InputActionStatus::Updated(7)]);
}

#[test]
fn last_write_wins_across_producers() {
    let mut p: InputActionPlugin<u64> = InputActionPlugin::new();
    p.update_events();
    // producer A pours first, producer B pours after it
    p.pour(1);
    p.pour(2);
    p.resolve();
    assert_eq!(p.state(), Some(2));
    p.track();
    let mut r = InputActionReader::new();
    assert_eq!(r.read(p.events()), vec![InputActionStatus::Started(2)]);
}

#[test]
fn readers_catch_up_over_two_ticks() {
    let mut p: InputActionPlugin<u64> = InputActionPlugin::new();
    let mut reader_x = InputActionReader::new();
    // tick 1
    p.update_events();
    p.pour(5);
    p.resolve();
    p.track();
    // reader Y attached only before tick 2, never read before
    let mut reader_y = InputActionReader::new();
    // tick 2
    p.update_events();
    p.pour(7);
    p.resolve();
    p.track();
    let expected = vec![InputActionStatus::Started(5), InputActionStatus::Updated(7)];
    assert_eq!(reader_x.read(p.events()), expected);
    assert_eq!(reader_y.read(p.events()), expected);
}
