use flexion::physical_values::{Capacity, Current, Ratio, Temperature, Voltage};
use flexion::zero::{Mode, TemperatureRange, ZeroState};

#[test]
fn pack_config() {
    let mut state = ZeroState::new();
    state.handle_can_msg(0x288, &[0x31, 0x00, 0xE7, 0x00, 0x32, 0x39, 0x00, 0x13]);
    assert_eq!(
        state.pack_charge_temp_limits.get(),
        Some(TemperatureRange {
            low: Temperature::from_val(0),
            high: Temperature::from_val(50)
        })
    );
    assert_eq!(state.pack_capacity.get(), Some(Capacity::from_val(57)));
}

#[test]
fn max_charge_voltage_current() {
    let mut state = ZeroState::new();
    state.handle_can_msg(0x306, &[0x13, 0xB0, 0xC6, 0x01, 0x00, 0x80, 0xBB, 0x00]);
    assert_eq!(
        state.pack_charge_limits.get(),
        Some((Voltage::from_millis(116400), Current::from_val(48)))
    );
}

#[test]
fn max_charge_current_calculated() {
    let mut state = ZeroState::new();
    state.handle_can_msg(0x288, &[0x03, 0xFD, 0xE2, 0x00, 0x32, 0x68, 0x00, 0x10]); // Capacity: 104Ah
    state.handle_can_msg(0x408, &[0x00, 0x1A, 0x19, 0xEE, 0xFF, 0x38, 0x00, 0xCA]); // Max Current: 78.215%
    state.handle_can_msg(0x306, &[0x13, 0xB0, 0xC6, 0x01, 0x00, 0xFF, 0xFF, 0x00]); // Current: 65.353A
    assert_eq!(
        state.pack_charge_limits.get(),
        Some((Voltage::from_millis(116400), Current::from_millis(82368)))
    );
}

#[test]
fn max_charge_current_derating() {
    let mut state = ZeroState::new();
    state.handle_can_msg(0x240, &[0x85, 0x0F, 0x00, 0x00, 0x00, 0x00, 0x00]); // SoC: 0%
    state.handle_can_msg(0x306, &[0x13, 0xB0, 0xC6, 0x01, 0x00, 0x80, 0xBB, 0x00]); // Current: 48A
    assert_eq!(
        state.pack_charge_limits.get().unwrap().1,
        Current::from_millis(4800)
    );

    state.handle_can_msg(0x240, &[0x85, 0x0F, 0x00, 0x00, 0x00, 0x00, 0x0a]); // SoC: 10%
    state.handle_can_msg(0x306, &[0x13, 0xB0, 0xC6, 0x01, 0x00, 0x80, 0xBB, 0x00]); // Current: 48A
    assert_eq!(
        state.pack_charge_limits.get().unwrap().1,
        Current::from_millis(48000)
    );

    state.handle_can_msg(0x240, &[0x85, 0x0F, 0x00, 0x00, 0x00, 0x00, 0x5C]); // SoC: 92%
    state.handle_can_msg(0x306, &[0x13, 0xB0, 0xC6, 0x01, 0x00, 0x80, 0xBB, 0x00]); // Current: 48A
    assert_eq!(
        state.pack_charge_limits.get().unwrap().1,
        Current::from_millis(43200)
    );

    state.handle_can_msg(0x240, &[0x85, 0x0F, 0x00, 0x00, 0x00, 0x00, 0x60]); // SoC: 96%
    state.handle_can_msg(0x306, &[0x13, 0xB0, 0xC6, 0x01, 0x00, 0x80, 0xBB, 0x00]); // Current: 48A
    assert_eq!(
        state.pack_charge_limits.get().unwrap().1,
        Current::from_millis(24000)
    );

    state.handle_can_msg(0x240, &[0x85, 0x0F, 0x00, 0x00, 0x00, 0x00, 0x64]); // SoC: 100%
    state.handle_can_msg(0x306, &[0x13, 0xB0, 0xC6, 0x01, 0x00, 0x80, 0xBB, 0x00]); // Current: 48A
    assert_eq!(
        state.pack_charge_limits.get().unwrap().1,
        Current::from_millis(4800)
    );
}

#[test]
fn pack_active_data() {
    let mut state = ZeroState::new();
    state.handle_can_msg(0x408, &[0x00, 0x0F, 0x0F, 0xFB, 0xFF, 0x0F, 0x00, 0xDF]);
    assert_eq!(
        state.pack_temp.get(),
        Some(TemperatureRange {
            low: Temperature::from_val(15),
            high: Temperature::from_val(15)
        })
    );
    assert_eq!(
        state.pack_discharge_current.get(),
        Some(Current::from_val(-5))
    );
    assert_eq!(
        state.pack_remaining_capacity.get(),
        Some(Capacity::from_val(15))
    );
}

#[test]
fn motor_controller() {
    let mut state = ZeroState::new();
    state.handle_can_msg(0x381, &[0x70, 0x06, 0x14, 0x00, 0x00, 0x7F, 0x06, 0x00]);
    assert_eq!(state.controller_temp.get(), Some(Temperature::from_val(20)));
}

#[test]
fn dash() {
    let mut state = ZeroState::new();
    state.handle_can_msg(0x240, &[0x85, 0x0F, 0x00, 0x00, 0x00, 0x00, 0x31]);
    assert_eq!(state.bike_mode.get(), Some(Mode::Sport));
    assert_eq!(state.pack_soc.get(), Some(Ratio::from_percent(49)));
}
