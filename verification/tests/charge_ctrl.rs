use flexion::charge_ctrl::{
    charge_current, user_limits, ChargeAction, ChargeCtrl, ChargeEvent, ChargeLimits, ChargePhase,
};
use flexion::physical_values::{Current, Power, Ratio, Voltage};
use flexion::zero::Mode;

fn no_limits() -> ChargeLimits {
    ChargeLimits { soc_limit: None, power_limit: None }
}

fn is_stop(a: ChargeAction, secs: u64) -> bool {
    matches!(a, ChargeAction::Stop { rest_secs } if rest_secs == secs)
}

fn charging(user: ChargeLimits) -> ChargeCtrl {
    let mut ctrl = ChargeCtrl::new();
    assert!(matches!(ctrl.step(ChargeEvent::ChargerCount(1), user), ChargeAction::Attach));
    assert_eq!(ctrl.phase(), ChargePhase::WaitEnable);
    assert!(matches!(ctrl.step(ChargeEvent::EnableLevel(true), user), ChargeAction::Nothing));
    assert_eq!(ctrl.phase(), ChargePhase::Charging);
    ctrl
}

#[test]
fn user_limits_follow_the_bike_mode() {
    let sport = user_limits(Some(Mode::Sport));
    assert_eq!(sport.soc_limit, None);
    assert_eq!(sport.power_limit, None);
    let custom = user_limits(Some(Mode::Custom));
    assert_eq!(custom.soc_limit, None);
    assert_eq!(custom.power_limit, Some(Power::from_val(2200)));
    let eco = user_limits(Some(Mode::Eco));
    assert_eq!(eco.soc_limit, Some(Ratio::from_percent(60)));
    assert_eq!(eco.power_limit, Some(Power::from_val(800)));
    let sleeping = user_limits(None);
    assert_eq!(sleeping.soc_limit, Some(Ratio::from_percent(70)));
    assert_eq!(sleeping.power_limit, Some(Power::from_val(800)));
}

#[test]
fn waits_for_chargers_before_attaching() {
    let mut ctrl = ChargeCtrl::new();
    assert_eq!(ctrl.phase(), ChargePhase::WaitChargers);
    assert!(matches!(ctrl.step(ChargeEvent::ChargerCount(0), no_limits()), ChargeAction::Nothing));
    assert!(matches!(ctrl.step(ChargeEvent::EnableLevel(true), no_limits()), ChargeAction::Nothing));
    assert_eq!(ctrl.phase(), ChargePhase::WaitChargers);
    assert!(matches!(ctrl.step(ChargeEvent::ChargerCount(2), no_limits()), ChargeAction::Attach));
    assert_eq!(ctrl.phase(), ChargePhase::WaitEnable);
}

#[test]
fn pack_limits_pass_through_without_power_limit() {
    let mut ctrl = charging(no_limits());
    let a = ctrl.step(
        ChargeEvent::PackLimits(Some((Voltage::from_val(116), Current::from_val(30)))),
        no_limits(),
    );
    assert!(matches!(a, ChargeAction::SetLimits(u, i)
        if u == Voltage::from_val(116) && i == Current::from_val(30)));
    assert_eq!(ctrl.phase(), ChargePhase::Charging);
}

#[test]
fn power_limit_caps_the_current() {
    // 800 W at 100 V: 8 A instead of the pack's 30 A
    let mut ctrl = charging(user_limits(None));
    let a = ctrl.step(
        ChargeEvent::PackLimits(Some((Voltage::from_val(100), Current::from_val(30)))),
        no_limits(),
    );
    assert!(matches!(a, ChargeAction::SetLimits(u, i)
        if u == Voltage::from_val(100) && i == Current::from_val(8)));
    // below the power limit the pack's current stands
    assert_eq!(
        charge_current(Some(Power::from_val(800)), Voltage::from_val(100), Current::from_val(5)),
        Current::from_val(5)
    );
}

#[test]
fn stops_when_the_pack_goes_quiet() {
    let mut ctrl = charging(no_limits());
    assert!(is_stop(ctrl.step(ChargeEvent::PackLimits(None), no_limits()), 300));
    assert_eq!(ctrl.phase(), ChargePhase::Resting);
}

#[test]
fn stops_at_the_soc_limit() {
    let mut ctrl = charging(user_limits(None));
    let below = ctrl.step(ChargeEvent::PackSoc(Some(Ratio::from_percent(69))), no_limits());
    assert!(matches!(below, ChargeAction::Nothing));
    assert!(matches!(ctrl.step(ChargeEvent::PackSoc(None), no_limits()), ChargeAction::Nothing));
    let reached = ctrl.step(ChargeEvent::PackSoc(Some(Ratio::from_percent(70))), no_limits());
    assert!(is_stop(reached, 7 * 24 * 60 * 60));
}

#[test]
fn no_soc_limit_charges_to_full() {
    let mut ctrl = charging(no_limits());
    let full = ctrl.step(ChargeEvent::PackSoc(Some(Ratio::from_percent(100))), no_limits());
    assert!(matches!(full, ChargeAction::Nothing));
    assert_eq!(ctrl.phase(), ChargePhase::Charging);
}

#[test]
fn stops_when_the_bike_withdraws_enable() {
    let mut ctrl = charging(no_limits());
    assert!(is_stop(ctrl.step(ChargeEvent::EnableLevel(false), no_limits()), 604800));
}

#[test]
fn stops_briefly_when_chargers_go_offline() {
    let mut ctrl = charging(no_limits());
    assert!(matches!(ctrl.step(ChargeEvent::ChargerCount(1), no_limits()), ChargeAction::Nothing));
    assert!(is_stop(ctrl.step(ChargeEvent::ChargerCount(0), no_limits()), 10));
}

#[test]
fn rests_then_starts_over() {
    let mut ctrl = charging(no_limits());
    ctrl.step(ChargeEvent::ChargerCount(0), no_limits());
    assert!(matches!(ctrl.step(ChargeEvent::ChargerCount(3), no_limits()), ChargeAction::Nothing));
    assert_eq!(ctrl.phase(), ChargePhase::Resting);
    assert!(matches!(ctrl.step(ChargeEvent::RestOver, no_limits()), ChargeAction::Nothing));
    assert_eq!(ctrl.phase(), ChargePhase::WaitChargers);
}

#[test]
fn power_capped_current_stays_within_limits_for_large_packs() {
    let p = Power::from_val(800);
    for (u, i) in [
        (Voltage::from_millis(1001), Current::from_millis(i32::MAX)),
        (Voltage::from_val(116), Current::from_millis(i32::MAX)),
        (Voltage::from_millis(i32::MAX), Current::from_millis(i32::MAX)),
        (Voltage::from_val(100), Current::from_val(30)),
    ] {
        let r = charge_current(Some(p), u, i);
        assert!(r.as_millis() <= i.as_millis());
        assert!((u * r).as_millis() <= p.as_millis());
    }
}

#[test]
fn the_rider_limits_are_taken_once_per_charge() {
    let mut ctrl = ChargeCtrl::new();
    ctrl.step(ChargeEvent::ChargerCount(1), user_limits(None));
    // later settings do not change the charge under way
    ctrl.step(ChargeEvent::EnableLevel(true), user_limits(Some(Mode::Sport)));
    assert_eq!(ctrl.limits().soc_limit, Some(Ratio::from_percent(70)));
    assert_eq!(ctrl.limits().power_limit, Some(Power::from_val(800)));
}
