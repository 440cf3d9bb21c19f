//! The battery's CAN messages: their byte layout and what each does to the state.
use vstd::prelude::*;
use crate::arith::{div_trunc, sat_i32};
use crate::clock::now_ticks;
use crate::buffer_tool::{
    le16, le32, read_i16, read_i8, read_u16, read_u32, signed16, signed8, snip_ref, Snip,
};
use crate::physical_values::physical::{frac_millis, group_physical};
use crate::physical_values::ratio::{group_ratio, percent_steps, permill_steps, RATIO_MAX};
use crate::physical_values::{Capacity, Current, Ratio, Temperature, Time, Voltage};
use crate::volatile_value::{expiry, fresh_value};
use super::state::{cells_max, cells_min, mode_of, same_ages, Mode, TemperatureRange, ZeroState, CELLS};
use super::types::{
    clamp_millivolts, per255_permill, AmpereHourU16, AmpereI16, DegCelsiusI8, MilliAmpereU16,
    MilliVoltU16, MilliVoltU32, Per255U8, PercentU8,
};

verus! {

broadcast use group_physical, group_ratio;

/// A message of the battery that updates the state.
pub trait Msg: Snip {
    /// Whether `new` is `old` after handling `self` at `now`.
    spec fn spec_handled(self, old: ZeroState, new: ZeroState, now: u64) -> bool;

    fn handle(&self, state: &mut ZeroState, now: u64)
        ensures
            self.spec_handled(*old(state), *final(state), now),
            same_ages(*old(state), *final(state)),
    ;
}

/// The state after the payload `bytes` of a message of kind `M` was handled at `now`:
/// a payload shorter than the message leaves the state as it was.
pub open spec fn msg_handled<M: Msg>(old: ZeroState, new: ZeroState, now: u64, bytes: Seq<u8>) -> bool {
    if bytes.len() < M::spec_len() {
        new == old
    } else {
        M::spec_decode(bytes.subrange(0, M::spec_len() as int)).spec_handled(old, new, now)
    }
}

/// Decodes a message of kind `M` from the front of `msg` and handles it.
pub fn handle_msg<M: Msg>(msg: &[u8], state: &mut ZeroState, now: u64)
    ensures
        msg_handled::<M>(*old(state), *final(state), now, msg@),
        same_ages(*old(state), *final(state)),
{
    match snip_ref::<M>(msg) {
        Some((m, _)) => m.handle(state, now),
        None => {},
    }
}

/// The voltage of one cell, and of the whole pack.
#[derive(Debug, Clone, Copy)]
pub struct CellVoltage {
    pub cell_idx: u8,
    pub cell_voltage: MilliVoltU16,
    pub pack_voltage: MilliVoltU32,
    pub _reserved: u8,
}

impl Snip for CellVoltage {
    open spec fn spec_len() -> nat {
        8
    }

    open spec fn spec_decode(b: Seq<u8>) -> Self {
        CellVoltage {
            cell_idx: b[0],
            cell_voltage: MilliVoltU16(le16(b[1], b[2]) as u16),
            pack_voltage: MilliVoltU32(le32(b[3], b[4], b[5], b[6]) as u32),
            _reserved: b[7],
        }
    }

    fn byte_len() -> (r: usize) {
        8
    }

    fn decode(b: &[u8]) -> (r: Self) {
        CellVoltage {
            cell_idx: b[0],
            cell_voltage: MilliVoltU16(read_u16(b, 1)),
            pack_voltage: MilliVoltU32(read_u32(b, 3)),
            _reserved: b[7],
        }
    }
}

impl Msg for CellVoltage {
    /// The cell voltage goes into the round of cell voltages; recording cell 0 publishes
    /// the round and its stats once no cell reads 0 V. The pack voltage is published.
    open spec fn spec_handled(self, old: ZeroState, new: ZeroState, now: u64) -> bool {
        let idx = self.cell_idx as int;
        let u = Voltage::spec_from_millis(self.cell_voltage.0 as int);
        let cells = if idx < CELLS {
            old.pack_cells_acc.cells@.update(idx, u)
        } else {
            old.pack_cells_acc.cells@
        };
        &&& new == ZeroState {
            pack_cells_acc: new.pack_cells_acc,
            pack_cell_voltages: new.pack_cell_voltages,
            pack_cell_stats: new.pack_cell_stats,
            pack_voltage: new.pack_voltage,
            ..old
        }
        &&& new.pack_cells_acc.cells@ == cells
        &&& if idx == 0 && cells_min(cells) != 0 {
            &&& new.pack_cell_voltages@ == Some((expiry(now, old.pack_cell_voltages.max_age()), new.pack_cells_acc))
            &&& new.pack_cell_stats@ matches Some((d, st)) && d == expiry(now, old.pack_cell_stats.max_age()) && st.min@
                == cells_min(cells) && st.max@ == cells_max(cells)
        } else {
            &&& new.pack_cell_voltages == old.pack_cell_voltages
            &&& new.pack_cell_stats == old.pack_cell_stats
        }
        &&& new.pack_voltage@ matches Some((d, v)) && d == expiry(now, old.pack_voltage.max_age()) && v@
            == clamp_millivolts(self.pack_voltage.0)
    }

    fn handle(&self, state: &mut ZeroState, now: u64) {
        let u = self.cell_voltage.voltage();
        let stats = state.pack_cells_acc.update(self.cell_idx as usize, u);
        match stats {
            Some(stats) => {
                let voltages = state.pack_cells_acc;
                state.pack_cell_voltages.update_at(now, voltages);
                state.pack_cell_stats.update_at(now, stats);
            },
            None => {},
        }
        state.pack_voltage.update_at(now, self.pack_voltage.voltage());
    }
}

/// Temperatures, current and charge of the pack in operation.
#[derive(Debug, Clone, Copy)]
pub struct PackActiveData {
    pub _reserved: u8,
    pub temp_high: DegCelsiusI8,
    pub temp_low: DegCelsiusI8,
    pub discharge_current: AmpereI16,
    pub remaining_capacity: AmpereHourU16,
    pub allowed_current: Per255U8,
}

impl Snip for PackActiveData {
    open spec fn spec_len() -> nat {
        8
    }

    open spec fn spec_decode(b: Seq<u8>) -> Self {
        PackActiveData {
            _reserved: b[0],
            temp_high: DegCelsiusI8(signed8(b[1] as int) as i8),
            temp_low: DegCelsiusI8(signed8(b[2] as int) as i8),
            discharge_current: AmpereI16(signed16(le16(b[3], b[4])) as i16),
            remaining_capacity: AmpereHourU16(le16(b[5], b[6]) as u16),
            allowed_current: Per255U8(b[7]),
        }
    }

    fn byte_len() -> (r: usize) {
        8
    }

    fn decode(b: &[u8]) -> (r: Self) {
        PackActiveData {
            _reserved: b[0],
            temp_high: DegCelsiusI8(read_i8(b, 1)),
            temp_low: DegCelsiusI8(read_i8(b, 2)),
            discharge_current: AmpereI16(read_i16(b, 3)),
            remaining_capacity: AmpereHourU16(read_u16(b, 5)),
            allowed_current: Per255U8(b[7]),
        }
    }
}

impl Msg for PackActiveData {
    /// Publishes the pack temperatures, the discharge current, the remaining capacity
    /// and the allowed current.
    open spec fn spec_handled(self, old: ZeroState, new: ZeroState, now: u64) -> bool {
        &&& new == ZeroState {
            pack_temp: new.pack_temp,
            pack_discharge_current: new.pack_discharge_current,
            pack_remaining_capacity: new.pack_remaining_capacity,
            pack_allowed_current: new.pack_allowed_current,
            ..old
        }
        &&& new.pack_temp@ matches Some((d, t)) && d == expiry(now, old.pack_temp.max_age()) && t.low@
            == self.temp_low.0 * 1000 && t.high@ == self.temp_high.0 * 1000
        &&& new.pack_discharge_current@ matches Some((d, i)) && d == expiry(now, old.pack_discharge_current.max_age()) && i@
            == self.discharge_current.0 * 1000
        &&& new.pack_remaining_capacity@ matches Some((d, c)) && d == expiry(now, old.pack_remaining_capacity.max_age()) && c@
            == self.remaining_capacity.0 * 1000
        &&& new.pack_allowed_current@ matches Some((d, r)) && d == expiry(now, old.pack_allowed_current.max_age()) && r@
            == permill_steps(per255_permill(self.allowed_current.0))
    }

    fn handle(&self, state: &mut ZeroState, now: u64) {
        state.pack_temp.update_at(
            now,
            TemperatureRange {
                low: self.temp_low.temperature(),
                high: self.temp_high.temperature(),
            },
        );
        state.pack_discharge_current.update_at(now, self.discharge_current.current());
        state.pack_remaining_capacity.update_at(now, self.remaining_capacity.capacity());
        state.pack_allowed_current.update_at(now, self.allowed_current.ratio());
    }
}

/// The charge voltage and current the pack accepts.
#[derive(Debug, Clone, Copy)]
pub struct MaxChargeVoltageCurrent {
    pub _node_id: u8,
    pub max_charge_voltage: MilliVoltU32,
    pub max_charge_current: MilliAmpereU16,
    pub _reserved: u8,
}

/// The charge current (mA) the pack allows: a reported `raw_ma` at the largest
/// representable value stands for "more", and is replaced by the capacity per hour
/// times the allowed ratio, when both are known.
pub open spec fn allowed_charge_millis(
    raw_ma: int,
    capacity: Option<Capacity>,
    allowed: Option<Ratio>,
) -> int {
    if raw_ma == u16::MAX && capacity is Some && allowed is Some {
        frac_millis(
            sat_i32(div_trunc(capacity->0@, 1000) * 1000) as int,
            allowed->0@,
            RATIO_MAX as int,
        )
    } else {
        raw_ma
    }
}

/// The charge current `i` (mA) slowed down by the state of charge: above 91% it drops by
/// 10 percentage points per percent above 91, below 10% it is 10% per whole percent plus one.
pub open spec fn soc_derated_millis(i: int, soc: Option<Ratio>) -> int {
    match soc {
        Some(s) => if s@ > 9100 {
            frac_millis(i, percent_steps(100 - (s@ / 100 - 91) * 10), RATIO_MAX as int)
        } else if s@ < 1000 {
            frac_millis(i, percent_steps((s@ / 100 + 1) * 10), RATIO_MAX as int)
        } else {
            i
        },
        None => i,
    }
}

impl Snip for MaxChargeVoltageCurrent {
    open spec fn spec_len() -> nat {
        8
    }

    open spec fn spec_decode(b: Seq<u8>) -> Self {
        MaxChargeVoltageCurrent {
            _node_id: b[0],
            max_charge_voltage: MilliVoltU32(le32(b[1], b[2], b[3], b[4]) as u32),
            max_charge_current: MilliAmpereU16(le16(b[5], b[6]) as u16),
            _reserved: b[7],
        }
    }

    fn byte_len() -> (r: usize) {
        8
    }

    fn decode(b: &[u8]) -> (r: Self) {
        MaxChargeVoltageCurrent {
            _node_id: b[0],
            max_charge_voltage: MilliVoltU32(read_u32(b, 1)),
            max_charge_current: MilliAmpereU16(read_u16(b, 5)),
            _reserved: b[7],
        }
    }
}

impl Msg for MaxChargeVoltageCurrent {
    /// Publishes the charge limits: the reported voltage and the allowed current,
    /// derated by the state of charge, all as read at `now`.
    open spec fn spec_handled(self, old: ZeroState, new: ZeroState, now: u64) -> bool {
        let i = soc_derated_millis(
            allowed_charge_millis(
                self.max_charge_current.0 as int,
                fresh_value(old.pack_capacity@, now),
                fresh_value(old.pack_allowed_current@, now),
            ),
            fresh_value(old.pack_soc@, now),
        );
        &&& new == ZeroState { pack_charge_limits: new.pack_charge_limits, ..old }
        &&& new.pack_charge_limits@ matches Some((d, (u, c))) && d == expiry(now, old.pack_charge_limits.max_age()) && u@
            == clamp_millivolts(self.max_charge_voltage.0) && c@ == i
    }

    fn handle(&self, state: &mut ZeroState, now: u64) {
        let max_charge_voltage = self.max_charge_voltage.voltage();
        let mut max_charge_current = self.max_charge_current.current();

        // The largest representable current stands for "more": derive it from the capacity
        if max_charge_current == Current::from_millis(65535) {
            match (state.pack_capacity.get_at(now), state.pack_allowed_current.get_at(now)) {
                (Some(pack_capacity), Some(allowed_current)) => {
                    let hour = Time::from_val(60 * 60);
                    assert(div_trunc(3600000, 3600) == 1000) by {
                        assert(3600000int / 3600int == 1000) by (nonlinear_arith);
                    }
                    let per_hour: Current = pack_capacity.per_time(hour);
                    max_charge_current = per_hour * allowed_current;
                },
                _ => {},
            }
        }

        // Consider the state of charge
        match state.pack_soc.get_at(now) {
            Some(cur_soc) => {
                if cur_soc.as_steps() > Ratio::from_percent(91).as_steps() {
                    // Slow down charging at high SoC
                    let derate: u8 = (cur_soc.as_percent() - 91) * 10;
                    let ratio = Ratio::from_percent(100 - derate);
                    max_charge_current = max_charge_current * ratio;
                } else if cur_soc.as_steps() < Ratio::from_percent(10).as_steps() {
                    // Slow down charging at low SoC
                    let ratio = Ratio::from_percent((cur_soc.as_percent() + 1) * 10);
                    max_charge_current = max_charge_current * ratio;
                }
            },
            None => {},
        }

        state.pack_charge_limits.update_at(now, (max_charge_voltage, max_charge_current));
    }
}

/// The charge current the pack publishes follows its state of charge: below 10%
/// it is the reported current times (whole percent + 1) * 10 %; from 10% up to
/// 91% it is the reported current; above 91% it drops by 10% of the current per
/// whole percent above 91. Stated for a reported current below the largest
/// representable one (which stands for "more"), and for a ratio of at most 100%.
pub proof fn lemma_charge_current_follows_soc(
    m: MaxChargeVoltageCurrent,
    old: ZeroState,
    new: ZeroState,
    now: u64,
)
    requires
        m.spec_handled(old, new, now),
        m.max_charge_current.0 < u16::MAX,
    ensures
        new.pack_charge_limits@ matches Some((_, (_, c))) && {
            let raw = m.max_charge_current.0 as int;
            match fresh_value(old.pack_soc@, now) {
                Some(s) => {
                    let p = s@ / 100;
                    if s@ < 1000 {
                        c@ == raw * ((p + 1) * 10) / 100
                    } else if s@ <= 9100 {
                        c@ == raw
                    } else {
                        s@ <= 10000 ==> c@ == raw * (100 - (p - 91) * 10) / 100
                    }
                },
                None => c@ == raw,
            }
        },
{
    broadcast use crate::physical_values::ratio::group_ratio;
    let raw = m.max_charge_current.0 as int;
    assert(allowed_charge_millis(
        raw,
        fresh_value(old.pack_capacity@, now),
        fresh_value(old.pack_allowed_current@, now),
    ) == raw);
    match fresh_value(old.pack_soc@, now) {
        Some(s) => {
            crate::physical_values::ratio::lemma_ratio_view(s);
            let p = s@ / 100;
            if s@ < 1000 {
                let k = (p + 1) * 10;
                assert(0 <= p <= 9);
                assert(percent_steps(k) == k * 100);
                assert(0 <= raw * (k * 100) <= 65535 * 10000) by (nonlinear_arith)
                    requires
                        0 <= raw <= 65535,
                        0 <= k <= 100,
                ;
                assert((raw * (k * 100)) / 10000 == raw * k / 100) by (nonlinear_arith)
                    requires
                        0 <= raw,
                        0 <= k,
                ;
                assert(div_trunc(raw * (k * 100), 10000) == (raw * (k * 100)) / 10000);
            } else if s@ > 9100 && s@ <= 10000 {
                let k = 100 - (p - 91) * 10;
                assert(91 <= p <= 100);
                assert(percent_steps(k) == k * 100);
                assert(0 <= raw * (k * 100) <= 65535 * 10000) by (nonlinear_arith)
                    requires
                        0 <= raw <= 65535,
                        0 <= k <= 100,
                ;
                assert((raw * (k * 100)) / 10000 == raw * k / 100) by (nonlinear_arith)
                    requires
                        0 <= raw,
                        0 <= k,
                ;
                assert(div_trunc(raw * (k * 100), 10000) == (raw * (k * 100)) / 10000);
            }
        },
        None => {},
    }
}

/// The configuration of the pack.
#[derive(Debug, Clone, Copy)]
pub struct PackConfig {
    pub _sag_adjustment: u16,
    pub _min_discharge_temp: DegCelsiusI8,
    pub min_charge_temp: DegCelsiusI8,
    pub max_charge_temp: DegCelsiusI8,
    pub pack_capacity: AmpereHourU16,
    pub _model_year: u8,
}

impl Snip for PackConfig {
    open spec fn spec_len() -> nat {
        8
    }

    open spec fn spec_decode(b: Seq<u8>) -> Self {
        PackConfig {
            _sag_adjustment: le16(b[0], b[1]) as u16,
            _min_discharge_temp: DegCelsiusI8(signed8(b[2] as int) as i8),
            min_charge_temp: DegCelsiusI8(signed8(b[3] as int) as i8),
            max_charge_temp: DegCelsiusI8(signed8(b[4] as int) as i8),
            pack_capacity: AmpereHourU16(le16(b[5], b[6]) as u16),
            _model_year: b[7],
        }
    }

    fn byte_len() -> (r: usize) {
        8
    }

    fn decode(b: &[u8]) -> (r: Self) {
        PackConfig {
            _sag_adjustment: read_u16(b, 0),
            _min_discharge_temp: DegCelsiusI8(read_i8(b, 2)),
            min_charge_temp: DegCelsiusI8(read_i8(b, 3)),
            max_charge_temp: DegCelsiusI8(read_i8(b, 4)),
            pack_capacity: AmpereHourU16(read_u16(b, 5)),
            _model_year: b[7],
        }
    }
}

impl Msg for PackConfig {
    /// Publishes the charge temperature range and the capacity.
    open spec fn spec_handled(self, old: ZeroState, new: ZeroState, now: u64) -> bool {
        &&& new == ZeroState {
            pack_charge_temp_limits: new.pack_charge_temp_limits,
            pack_capacity: new.pack_capacity,
            ..old
        }
        &&& new.pack_charge_temp_limits@ matches Some((d, t)) && d == expiry(now, old.pack_charge_temp_limits.max_age()) && t.low@
            == self.min_charge_temp.0 * 1000 && t.high@ == self.max_charge_temp.0 * 1000
        &&& new.pack_capacity@ matches Some((d, c)) && d == expiry(now, old.pack_capacity.max_age()) && c@
            == self.pack_capacity.0 * 1000
    }

    fn handle(&self, state: &mut ZeroState, now: u64) {
        state.pack_charge_temp_limits.update_at(
            now,
            TemperatureRange {
                low: self.min_charge_temp.temperature(),
                high: self.max_charge_temp.temperature(),
            },
        );
        state.pack_capacity.update_at(now, self.pack_capacity.capacity());
    }
}

/// Readings of the motor controller.
#[derive(Debug, Clone, Copy)]
pub struct MotorController {
    pub _bat_voltage: u16,
    pub heatsink_temp: DegCelsiusI8,
    pub _bat_current: i16,
    pub _cap_voltage: u16,
    pub _di: u8,
}

impl Snip for MotorController {
    open spec fn spec_len() -> nat {
        8
    }

    open spec fn spec_decode(b: Seq<u8>) -> Self {
        MotorController {
            _bat_voltage: le16(b[0], b[1]) as u16,
            heatsink_temp: DegCelsiusI8(signed8(b[2] as int) as i8),
            _bat_current: signed16(le16(b[3], b[4])) as i16,
            _cap_voltage: le16(b[5], b[6]) as u16,
            _di: b[7],
        }
    }

    fn byte_len() -> (r: usize) {
        8
    }

    fn decode(b: &[u8]) -> (r: Self) {
        MotorController {
            _bat_voltage: read_u16(b, 0),
            heatsink_temp: DegCelsiusI8(read_i8(b, 2)),
            _bat_current: read_i16(b, 3),
            _cap_voltage: read_u16(b, 5),
            _di: b[7],
        }
    }
}

impl Msg for MotorController {
    /// Publishes the heatsink temperature of the controller.
    open spec fn spec_handled(self, old: ZeroState, new: ZeroState, now: u64) -> bool {
        &&& new == ZeroState { controller_temp: new.controller_temp, ..old }
        &&& new.controller_temp@ matches Some((d, t)) && d == expiry(now, old.controller_temp.max_age()) && t@
            == self.heatsink_temp.0 * 1000
    }

    fn handle(&self, state: &mut ZeroState, now: u64) {
        state.controller_temp.update_at(now, self.heatsink_temp.temperature());
    }
}

/// What the dashboard shows.
#[derive(Debug, Clone, Copy)]
pub struct Dash {
    pub mode: u8,
    pub _unknown: u8,
    pub _speed: u16,
    pub _power: u8,
    pub _torque: u8,
    pub soc: PercentU8,
}

impl Snip for Dash {
    open spec fn spec_len() -> nat {
        7
    }

    open spec fn spec_decode(b: Seq<u8>) -> Self {
        Dash {
            mode: b[0],
            _unknown: b[1],
            _speed: le16(b[2], b[3]) as u16,
            _power: b[4],
            _torque: b[5],
            soc: PercentU8(b[6]),
        }
    }

    fn byte_len() -> (r: usize) {
        7
    }

    fn decode(b: &[u8]) -> (r: Self) {
        Dash {
            mode: b[0],
            _unknown: b[1],
            _speed: read_u16(b, 2),
            _power: b[4],
            _torque: b[5],
            soc: PercentU8(b[6]),
        }
    }
}

impl Msg for Dash {
    /// Publishes the drive mode, when the mode bits name one, and the state of charge.
    open spec fn spec_handled(self, old: ZeroState, new: ZeroState, now: u64) -> bool {
        &&& new == ZeroState { bike_mode: new.bike_mode, pack_soc: new.pack_soc, ..old }
        &&& match mode_of(self.mode) {
            Some(m) => new.bike_mode@ == Some((expiry(now, old.bike_mode.max_age()), m)),
            None => new.bike_mode == old.bike_mode,
        }
        &&& new.pack_soc@ matches Some((d, r)) && d == expiry(now, old.pack_soc.max_age()) && r@ == percent_steps(
            self.soc.0 as int,
        )
    }

    fn handle(&self, state: &mut ZeroState, now: u64) {
        match Mode::from_bits(self.mode) {
            Some(mode) => state.bike_mode.update_at(now, mode),
            None => {},
        }
        state.pack_soc.update_at(now, self.soc.ratio());
    }
}

/// The CAN id of the dash message.
pub const ID_DASH: u32 = 0x240;

/// The CAN id of the pack configuration message.
pub const ID_PACK_CONFIG: u32 = 0x288;

/// The CAN id of the charge limits message.
pub const ID_MAX_CHARGE: u32 = 0x306;

/// The CAN id of the motor controller message.
pub const ID_MOTOR_CONTROLLER: u32 = 0x381;

/// The CAN id of the cell voltage message.
pub const ID_CELL_VOLTAGE: u32 = 0x388;

/// The CAN id of the pack active data message.
pub const ID_PACK_ACTIVE_DATA: u32 = 0x408;

/// The state after handling a message with `id` and `bytes` at `now`: messages with an
/// unknown id, or too short for their kind, leave it as it was.
pub open spec fn zero_handled(
    old: ZeroState,
    new: ZeroState,
    now: u64,
    id: u32,
    bytes: Seq<u8>,
) -> bool {
    if id == ID_DASH {
        msg_handled::<Dash>(old, new, now, bytes)
    } else if id == ID_PACK_CONFIG {
        msg_handled::<PackConfig>(old, new, now, bytes)
    } else if id == ID_MAX_CHARGE {
        msg_handled::<MaxChargeVoltageCurrent>(old, new, now, bytes)
    } else if id == ID_MOTOR_CONTROLLER {
        msg_handled::<MotorController>(old, new, now, bytes)
    } else if id == ID_CELL_VOLTAGE {
        msg_handled::<CellVoltage>(old, new, now, bytes)
    } else if id == ID_PACK_ACTIVE_DATA {
        msg_handled::<PackActiveData>(old, new, now, bytes)
    } else {
        new == old
    }
}

impl ZeroState {
    /// Handles the CAN message `msg` with standard id `id`, received at the clock tick
    /// `now`.
    pub fn handle_can_msg_at(&mut self, now: u64, id: u32, msg: &[u8])
        ensures
            zero_handled(*old(self), *final(self), now, id, msg@),
            same_ages(*old(self), *final(self)),
    {
        if id == ID_DASH {
            handle_msg::<Dash>(msg, self, now);
        } else if id == ID_PACK_CONFIG {
            handle_msg::<PackConfig>(msg, self, now);
        } else if id == ID_MAX_CHARGE {
            handle_msg::<MaxChargeVoltageCurrent>(msg, self, now);
        } else if id == ID_MOTOR_CONTROLLER {
            handle_msg::<MotorController>(msg, self, now);
        } else if id == ID_CELL_VOLTAGE {
            handle_msg::<CellVoltage>(msg, self, now);
        } else if id == ID_PACK_ACTIVE_DATA {
            handle_msg::<PackActiveData>(msg, self, now);
        }
    }

    /// Handles the CAN message `msg` with standard id `id`, received now.
    pub fn handle_can_msg(&mut self, id: u32, msg: &[u8])
        ensures
            exists|t: u64| #[trigger] zero_handled(*old(self), *final(self), t, id, msg@),
            same_ages(*old(self), *final(self)),
    {
        let now = now_ticks();
        self.handle_can_msg_at(now, id, msg);
    }
}


} // verus!
