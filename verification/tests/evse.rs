use flexion::evse::{
    mains_limit, max_current_for_duty, pwm_sample, Evse, EvseAction, EvseEvent, EvsePhase, PwmSampler,
};
use flexion::physical_values::{Current, Frequency, Ratio};

#[test]
fn duty_cycle_sets_the_offered_current() {
    let cases = [
        (7, 0),
        (8, 6000),
        (9, 6000),
        (10, 6000),
        (25, 15000),
        (84, 50400),
        (85, 52500),
        (95, 77500),
        (96, 80000),
        (97, 0),
        (100, 0),
    ];
    for (percent, millis) in cases {
        assert_eq!(
            max_current_for_duty(Ratio::from_percent(percent)),
            Current::from_millis(millis),
            "at {percent}%"
        );
    }
}

#[test]
fn ready_only_when_current_is_offered() {
    let (i, rdy) = mains_limit(Some(Ratio::from_percent(25)), Current::from_val(13));
    assert_eq!(i, Current::from_val(15));
    assert!(rdy);
    let (i, rdy) = mains_limit(Some(Ratio::from_percent(5)), Current::from_val(13));
    assert_eq!(i, Current::from_val(0));
    assert!(!rdy);
    let (i, rdy) = mains_limit(None, Current::from_val(13));
    assert_eq!(i, Current::from_val(13));
    assert!(!rdy);
}

#[test]
fn samples_off_frequency_are_dropped() {
    let mut sampler = PwmSampler::new();
    assert_eq!(sampler.average(), None);
    sampler.add(Some((Frequency::from_val(1000), Ratio::from_percent(20))));
    sampler.add(Some((Frequency::from_val(1009), Ratio::from_percent(30))));
    sampler.add(Some((Frequency::from_val(1010), Ratio::from_percent(90))));
    sampler.add(Some((Frequency::from_val(989), Ratio::from_percent(90))));
    sampler.add(None);
    assert_eq!(sampler.average(), Some(Ratio::from_percent(25)));
}

#[test]
fn at_most_32_samples_are_kept() {
    let mut sampler = PwmSampler::new();
    for _ in 0..32 {
        sampler.add(Some((Frequency::from_val(1000), Ratio::from_percent(10))));
    }
    sampler.add(Some((Frequency::from_val(1000), Ratio::from_percent(100))));
    assert_eq!(sampler.average(), Some(Ratio::from_percent(10)));
}

#[test]
fn pwm_timer_ticks_to_frequency_and_duty() {
    // 1 MHz timer, 1000 ticks period, the line is high for 750 ticks
    let (f, d) = pwm_sample(1_000_000, 1000, 750).unwrap();
    assert_eq!(f, Frequency::from_val(1000));
    assert_eq!(d, Ratio::from_permill(250));
    assert!(pwm_sample(1_000_000, 0, 0).is_none());
    assert!(pwm_sample(1_000_000, 100, 101).is_none());
}

#[test]
fn follower_offers_then_releases_until_unplugged() {
    let mut evse = Evse::new(Current::from_val(13));
    assert_eq!(evse.phase(), EvsePhase::Following);

    let a = evse.step(EvseEvent::Reading(Some(Ratio::from_percent(25))));
    assert!(matches!(a, EvseAction::Offer { limit, ready: true } if limit == Current::from_val(15)));
    let a = evse.step(EvseEvent::Reading(None));
    assert!(matches!(a, EvseAction::Offer { limit, ready: false } if limit == Current::from_val(13)));

    assert!(matches!(evse.step(EvseEvent::DisconnectRequest), EvseAction::Release));
    assert_eq!(evse.phase(), EvsePhase::Releasing);
    let a = evse.step(EvseEvent::Reading(Some(Ratio::from_percent(25))));
    assert!(matches!(a, EvseAction::KeepWaiting));
    assert!(matches!(evse.step(EvseEvent::Reading(None)), EvseAction::Rest { secs: 30 }));
    assert_eq!(evse.phase(), EvsePhase::Following);
}

#[test]
fn pwm_frequency_is_taken_as_i32() {
    // u32::MAX Hz is -1 as an i32
    let (f, _) = pwm_sample(u32::MAX, 1, 0).unwrap();
    assert_eq!(f, Frequency::from_val(-1));
}
