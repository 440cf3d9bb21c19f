use flexion::volatile_value::{Age, Observation, VolatileValue, VolatileValueObserver};

#[test]
fn value_expires_after_max_age() {
    let mut v = VolatileValue::<u32, 1, 100>::with_tick_rate(1000);
    assert_eq!(v.get_at(0), None);
    v.update_at(1000, 7);
    assert_eq!(v.get_at(1000), Some(7));
    assert_eq!(v.get_at(1099), Some(7));
    assert_eq!(v.get_at(1100), None);
}

#[test]
fn deadline_saturates() {
    let mut v = VolatileValue::<u32, 1, 100>::with_tick_rate(1000);
    v.update_at(u64::MAX - 10, 3);
    assert_eq!(v.get_at(u64::MAX - 1), Some(3));
    assert_eq!(v.get_at(u64::MAX), None);
}

#[test]
fn age_tells_how_long_is_left() {
    let mut v = VolatileValue::<u32, 1, 100>::with_tick_rate(1000);
    assert!(matches!(v.age_at(5), Age::Empty));
    v.update_at(1000, 9);
    assert!(matches!(v.age_at(1040), Age::ExpiresIn(60, 9)));
    assert!(matches!(v.age_at(1130), Age::ExpiredAgo(30, 9)));
}

#[test]
fn observer_hands_out_each_value_once() {
    let mut o = VolatileValueObserver::<u32>::new();
    assert!(matches!(o.observe_at((1100, 7), 1000), Observation::Fresh(7)));
    assert!(matches!(o.observe_at((1100, 7), 1050), Observation::SeenUntil(1100)));
    assert!(matches!(o.observe_at((1100, 7), 1200), Observation::SeenExpired));
    assert!(matches!(o.observe_at((1300, 8), 1250), Observation::Fresh(8)));
}

#[test]
fn observer_skips_expired_values() {
    let mut o = VolatileValueObserver::<u32>::new();
    assert!(matches!(o.observe_at((1100, 7), 1200), Observation::Stale));
    assert!(matches!(o.observe_at((1100, 7), 1200), Observation::SeenExpired));
    assert_eq!(o.get_at(Some((1100, 7)), 1000), Some(7));
    assert_eq!(o.get_at(Some((1100, 7)), 1100), None);
    assert_eq!(o.get_at(None, 0), None);
}

#[test]
fn default_value_is_empty() {
    let v = VolatileValue::<u32, 1, 100>::default();
    assert_eq!(v.get_at(0), None);
    assert_eq!(v.stamped(), None);
}

#[test]
fn at_most_n_observers() {
    let mut v = VolatileValue::<u32, 2, 100>::new();
    let a = v.observer();
    let b = v.observer();
    assert!(a.is_some() && b.is_some());
    assert!(v.observer().is_none());
    v.release_observer(a.unwrap());
    let mut c = v.observer().unwrap();
    v.update_at(0, 5);
    assert!(matches!(c.observe_at(v.stamped().unwrap(), 10), Observation::Fresh(5)));
}

#[test]
fn max_age_follows_the_tick_rate() {
    // a microsecond clock: 100 ms are 100 000 ticks
    let mut v = VolatileValue::<u32, 1, 100>::with_tick_rate(1_000_000);
    v.update_at(5, 1);
    assert_eq!(v.get_at(100_004), Some(1));
    assert_eq!(v.get_at(100_005), None);
    // a clock of 3 ticks per second rounds 100 ms up to one tick
    let mut v = VolatileValue::<u32, 1, 100>::with_tick_rate(3);
    v.update_at(5, 1);
    assert_eq!(v.get_at(5), Some(1));
    assert_eq!(v.get_at(6), None);
    // two writes within the same millisecond are told apart
    let mut v = VolatileValue::<u32, 1, 100>::with_tick_rate(1_000_000);
    let mut o = v.observer().unwrap();
    v.update_at(1_000, 1);
    assert!(matches!(o.observe_at(v.stamped().unwrap(), 1_000), Observation::Fresh(1)));
    v.update_at(1_001, 2);
    assert!(matches!(o.observe_at(v.stamped().unwrap(), 1_001), Observation::Fresh(2)));
}
