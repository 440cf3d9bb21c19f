use flexion::physical_values::{Current, Power, Ratio, Voltage};
use flexion::tc_charger::can::{RxMsg, RxPayload, TxMsg, TxPayload};
use flexion::tc_charger::charger::{apply_online_change, OnlineChange, TcCharger};
use flexion::tc_charger::pack::TcChargerPack;

fn payload(u: Voltage, i: Current) -> RxPayload {
    RxPayload {
        deci_volts: u.as_decimal(1) as u16,
        deci_amps: i.as_decimal(1) as u16,
        _status: 0,
        _temp: 0,
        _reserved: [0u8; 2],
    }
}


/// The setpoint a charger should receive for `u` and `i`: both in tenths, and
/// the stop flag unless the power asked for is positive.
fn expected_payload(u: Voltage, i: Current) -> TxPayload {
    TxPayload {
        deci_volts: u.as_decimal(1) as u16,
        deci_amps: i.as_decimal(1) as u16,
        control: if (u * i).as_millis() > Power::zero().as_millis() { 0 } else { 1 },
        _reserved: [0u8; 3],
    }
}

/// The bytes of that setpoint on the bus: big-endian tenths, control, reserved.
fn expected_bytes(u: Voltage, i: Current) -> [u8; 8] {
    let v = (u.as_decimal(1) as u16).to_be_bytes();
    let a = (i.as_decimal(1) as u16).to_be_bytes();
    let control = if (u * i).as_millis() > 0 { 0 } else { 1 };
    [v[0], v[1], a[0], a[1], control, 0, 0, 0]
}

fn report(charger: &mut TcCharger, id: u32, now: u64, u: Voltage, i: Current) {
    let p = payload(u, i);
    assert!(charger.handle_can_msg_at(now, RxMsg { id, payload: &p }).is_break());
}

fn report_pack(pack: &mut TcChargerPack<3>, id: u32, now: u64, u: Voltage, i: Current) {
    let p = payload(u, i);
    pack.handle_can_msg_at(now, RxMsg { id, payload: &p });
}

#[test]
fn limit_in_current() {
    let mut charger = TcCharger::with_tick_rate("foo", 0x1, 0x2, 1000);
    let now = 10_000;

    let in_current = Current::from_val(1);
    let in_voltage = Voltage::from_val(230) * Ratio::from_percent(95);
    let out_voltage = Voltage::from_val(100);
    let out_power = in_current * in_voltage * Ratio::from_percent(95);
    let out_current = out_power / out_voltage;
    let out_setpoint = Voltage::from_val(116);

    charger.update_limits_in_at(now, in_current);
    charger.update_limits_out_at(now, (out_setpoint, Current::from_val(32)));
    report(&mut charger, 0x1, now, out_voltage, Current::from_val(0));
    let actual = charger.get_actual_out_at(now);
    let msg = charger.ctrl_step_at(now, actual);
    assert_eq!(msg, TxMsg { id: 0x2, payload: expected_payload(out_setpoint, out_current) });
    assert_eq!(msg.payload.to_bytes(), expected_bytes(out_setpoint, out_current));
    assert_eq!(msg.payload.control, 0);
}

#[test]
fn no_setpoint_without_battery_or_limits() {
    let mut charger = TcCharger::with_tick_rate("foo", 0x1, 0x2, 1000);
    let now = 10_000;
    let zero = expected_payload(Voltage::from_val(0), Current::from_val(0));
    assert_eq!(zero.control, 1);
    // no report at all
    assert_eq!(charger.ctrl_step_at(now, None).payload, zero);
    // a report without limits
    report(&mut charger, 0x1, now, Voltage::from_val(100), Current::from_val(0));
    let actual = charger.get_actual_out_at(now);
    assert_eq!(charger.ctrl_step_at(now, actual).payload, zero);
    // limits, but the battery voltage is below 80 V
    charger.update_limits_in_at(now, Current::from_val(16));
    charger.update_limits_out_at(now, (Voltage::from_val(116), Current::from_val(5)));
    report(&mut charger, 0x1, now, Voltage::from_val(79), Current::from_val(0));
    let actual = charger.get_actual_out_at(now);
    assert_eq!(charger.ctrl_step_at(now, actual).payload, zero);
}

#[test]
fn update_online_cnt() {
    let mut charger = TcCharger::with_tick_rate("foo", 0x1, 0x2, 1000);
    let mut is_online = false;
    let mut cnt = None;

    // Wait for online
    report(&mut charger, 0x1, 1000, Voltage::from_val(0), Current::from_val(0));
    let change = TcCharger::online_tracking_step(&mut is_online, charger.get_actual_out_at(1000));
    assert_eq!(change, OnlineChange::CameOnline);
    cnt = apply_online_change(cnt, change);
    assert_eq!(cnt, Some(1));

    // ... and offline again, two seconds later
    assert!(charger.is_online_at(2999));
    let change = TcCharger::online_tracking_step(&mut is_online, charger.get_actual_out_at(3000));
    assert_eq!(change, OnlineChange::WentOffline);
    cnt = apply_online_change(cnt, change);
    assert_eq!(cnt, Some(0));
    assert_eq!(apply_online_change(cnt, OnlineChange::WentOffline), Some(0));
}

#[test]
fn settle_charger() {
    let mut charger = TcCharger::with_tick_rate("foo", 0x1, 0x2, 1000);
    let now = 10_000;

    let current = Current::from_val(5);
    charger.update_limits_in_at(now, Current::from_val(16));

    // Increase and decrease limits to mark the charger not settled
    charger.update_limits_out_at(now, (Voltage::from_val(100), current + Current::from_val(1)));
    charger.update_limits_out_at(now, (Voltage::from_val(100), current));
    assert!(!charger.out_current_settled());

    let mut step = |i: Current| {
        report(&mut charger, 0x1, now, Voltage::from_val(99), i);
        let actual = charger.get_actual_out_at(now);
        charger.ctrl_step_at(now, actual);
        charger.out_current_settled()
    };
    assert_eq!(step(current - Current::from_val(2)), false);
    assert_eq!(step(current - Current::from_val(1)), true);
    assert_eq!(step(current), true);
}

#[test]
fn split_out_current() {
    let mut pack = TcChargerPack::new([
        TcCharger::with_tick_rate("a", 0x00, 0x01, 1000),
        TcCharger::with_tick_rate("b", 0x10, 0x11, 1000),
        TcCharger::with_tick_rate("c", 0x20, 0x21, 1000),
    ]);
    let now = 10_000;
    let set_u = Voltage::from_val(116);
    let set_i = Current::from_val(9);
    let limits = |pack: &TcChargerPack<3>, k: usize| pack.chargers()[k].get_limits_out_at(now);

    pack.update_mains_limits_per_charger_at(now, Current::from_val(16));

    // Two chargers come online
    for id in [0x00, 0x10] {
        report_pack(&mut pack, id, now, Voltage::from_val(100), Current::from_val(0));
        pack.note_online_change(OnlineChange::CameOnline);
    }
    pack.update_out_limits_at(now, set_u, set_i);
    assert_eq!(limits(&pack, 0), Some((set_u, set_i / 2)));
    assert_eq!(limits(&pack, 1), Some((set_u, set_i / 2)));
    assert_eq!(limits(&pack, 2), Some((Voltage::from_val(0), Current::from_val(0))));

    // The third one comes online: the first two are lowered at once, the third one waits
    report_pack(&mut pack, 0x20, now, Voltage::from_val(100), Current::from_val(0));
    pack.note_online_change(OnlineChange::CameOnline);
    pack.update_out_limits_at(now, set_u, set_i);
    assert_eq!(limits(&pack, 0), Some((set_u, set_i / 3)));
    assert_eq!(limits(&pack, 1), Some((set_u, set_i / 3)));
    assert_eq!(limits(&pack, 2), Some((Voltage::from_val(0), Current::from_val(0))));

    // ... until the first two settled to their new current
    for (k, id) in [(0, 0x00), (1, 0x10)] {
        report_pack(&mut pack, id, now, Voltage::from_val(100), set_i / 3);
        let actual = pack.chargers()[k].get_actual_out_at(now);
        let msg = pack.ctrl_step_at(k, now, actual);
        assert_eq!(msg.payload, expected_payload(set_u, set_i / 3));
        assert_eq!(msg.payload.to_bytes(), expected_bytes(set_u, set_i / 3));
    }
    pack.update_out_limits_at(now, set_u, set_i);
    assert_eq!(limits(&pack, 2), Some((set_u, set_i / 3)));
}

#[test]
fn payload_bytes() {
    let p = TxPayload::new((Voltage::from_val(116), Current::from_millis(4500)));
    assert_eq!(p.to_bytes(), [0x04, 0x88, 0x00, 0x2d, 0x00, 0, 0, 0]);
    assert_eq!(p, expected_payload(Voltage::from_val(116), Current::from_millis(4500)));
    let rx = RxPayload::from_bytes(&[0x03, 0xe8, 0x00, 0x1e, 1, 2, 3, 4]).unwrap();
    assert_eq!(rx.decode(), (Voltage::from_val(100), Current::from_val(3)));
    assert!(RxPayload::from_bytes(&[0x03, 0xe8]).is_none());
}

#[test]
fn stop_flag_unless_power_is_positive() {
    let stop = |u: Voltage, i: Current| TxPayload::new((u, i)).control;
    assert_eq!(stop(Voltage::from_val(100), Current::from_val(5)), 0);
    assert_eq!(stop(Voltage::from_val(100), Current::from_val(0)), 1);
    assert_eq!(stop(Voltage::from_val(0), Current::from_val(5)), 1);
    assert_eq!(stop(Voltage::from_val(100), Current::from_val(-1)), 1);
    assert_eq!(stop(Voltage::from_val(-100), Current::from_val(1)), 1);
    assert_eq!(
        TxPayload::new((Voltage::from_val(100), Current::from_val(-1))).to_bytes()[4],
        1
    );
}

#[test]
fn two_observers_per_charger_reading() {
    let mut pack = TcChargerPack::default_pack();
    let a = pack.actual_observer(0);
    let b = pack.actual_observer(0);
    assert!(a.is_some() && b.is_some());
    assert!(pack.actual_observer(0).is_none());
    assert!(pack.actual_observer(1).is_some());
    pack.release_actual_observer(0, a.unwrap());
    assert!(pack.actual_observer(0).is_some());
}
