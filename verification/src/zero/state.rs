use vstd::prelude::*;
use vstd::std_specs::convert::TryFromSpecImpl;
use crate::physical_values::{physical::group_physical, Capacity, Current, Ratio, Temperature, Voltage};
use crate::volatile_value::{max_age_ticks, VolatileValue};
use crate::clock::tick_hz;

verus! {

broadcast use group_physical;

/// The number of cells of the battery pack.
pub const CELLS: usize = 28;

/// The drive mode selected on the motorcycle.
#[derive(Debug, Clone, Copy, PartialEq, Eq, Structural)]
pub enum Mode {
    Sport,
    Eco,
    Custom,
}

/// The mode that the mode bits (mask `0b0001_1100`) of `value` select, if any.
pub open spec fn mode_of(value: u8) -> Option<Mode> {
    let bits = value & 0b0001_1100u8;
    if bits == 0b0000_0100u8 {
        Some(Mode::Sport)
    } else if bits == 0b0000_1000u8 {
        Some(Mode::Eco)
    } else if bits == 0b0001_0000u8 {
        Some(Mode::Custom)
    } else {
        None
    }
}

/// The dash reports the drive mode by one bit each: bit 2 for sport, bit 3 for eco,
/// bit 4 for custom, the other bits of the byte aside; any other pattern of these
/// three bits names no mode.
pub proof fn lemma_mode_bits(value: u8)
    ensures
        (mode_of(value) == Some(Mode::Sport)) <==> (value & 0x1cu8) == 0x04u8,
        (mode_of(value) == Some(Mode::Eco)) <==> (value & 0x1cu8) == 0x08u8,
        (mode_of(value) == Some(Mode::Custom)) <==> (value & 0x1cu8) == 0x10u8,
        (mode_of(value) is None) <==> ((value & 0x1cu8) != 0x04u8 && (value & 0x1cu8) != 0x08u8
            && (value & 0x1cu8) != 0x10u8),
        mode_of(value) == mode_of(value & 0x1cu8),
{
    assert((value & 0x1cu8) & 0x1cu8 == value & 0x1cu8) by (bit_vector);
}

impl TryFrom<u8> for Mode {
    type Error = ();

    fn try_from(value: u8) -> (r: Result<Self, Self::Error>) {
        match Mode::from_bits(value) {
            Some(m) => Ok(m),
            None => Err(()),
        }
    }
}

impl TryFromSpecImpl<u8> for Mode {
    open spec fn obeys_try_from_spec() -> bool {
        true
    }

    open spec fn try_from_spec(v: u8) -> Result<Self, ()> {
        match mode_of(v) {
            Some(m) => Ok(m),
            None => Err(()),
        }
    }
}

impl Mode {
    /// The mode that the mode bits of `value` select, if any.
    pub fn from_bits(value: u8) -> (r: Option<Mode>)
        ensures
            r == mode_of(value),
    {
        let bits = value & 0b0001_1100u8;
        if bits == 0b0000_0100u8 {
            Some(Mode::Sport)
        } else if bits == 0b0000_1000u8 {
            Some(Mode::Eco)
        } else if bits == 0b0001_0000u8 {
            Some(Mode::Custom)
        } else {
            None
        }
    }
}

/// A range of temperatures.
#[derive(Debug, Clone, Copy, PartialEq, Eq)]
pub struct TemperatureRange {
    pub low: Temperature,
    pub high: Temperature,
}

/// The lowest and highest cell voltage.
#[derive(Debug, Clone, Copy, PartialEq, Eq)]
pub struct CellStats {
    pub min: Voltage,
    pub max: Voltage,
}

/// The smaller of two integers.
pub open spec fn min_int(a: int, b: int) -> int {
    if b < a {
        b
    } else {
        a
    }
}

/// The larger of two integers.
pub open spec fn max_int(a: int, b: int) -> int {
    if b > a {
        b
    } else {
        a
    }
}

/// The lowest voltage (in millivolts) of `cells`, or 5 V if that is lower.
pub open spec fn cells_min(cells: Seq<Voltage>) -> int
    decreases cells.len(),
{
    if cells.len() == 0 {
        5000
    } else {
        min_int(cells_min(cells.drop_last()), cells.last()@)
    }
}

/// The highest voltage (in millivolts) of `cells`, or 0 V if that is higher.
pub open spec fn cells_max(cells: Seq<Voltage>) -> int
    decreases cells.len(),
{
    if cells.len() == 0 {
        0
    } else {
        max_int(cells_max(cells.drop_last()), cells.last()@)
    }
}

impl CellStats {
    /// The stats before any cell was seen: 5 V as minimum, 0 V as maximum.
    pub(crate) fn new() -> (r: Self)
        ensures
            r.min@ == 5000,
            r.max@ == 0,
    {
        Self { min: Voltage::from_val(5), max: Voltage::zero() }
    }

    /// The stats with one more cell voltage `u` taken into account.
    pub(crate) fn update(self, u: Voltage) -> (r: Self)
        ensures
            r.min@ == min_int(self.min@, u@),
            r.max@ == max_int(self.max@, u@),
    {
        let mut s = self;
        if u.as_millis() < s.min.as_millis() {
            s.min = u;
        }
        if u.as_millis() > s.max.as_millis() {
            s.max = u;
        }
        s
    }
}

/// The voltage of each cell of the pack.
#[derive(Debug, Clone, Copy, PartialEq, Eq)]
pub struct CellVoltages {
    pub cells: [Voltage; CELLS],
}

impl CellVoltages {
    /// All cells at 0 V.
    pub(crate) fn new() -> (r: Self)
        ensures
            forall|i: int| 0 <= i < CELLS ==> (#[trigger] r.cells@[i])@ == 0,
    {
        let z = Voltage::zero();
        Self { cells: [z; CELLS] }
    }

    /// Records the voltage `u` of cell `idx`. Recording cell 0 completes a round:
    /// then the stats of all cells are returned, unless some cell still reads 0 V.
    /// An index beyond the cells changes nothing.
    pub(crate) fn update(&mut self, idx: usize, u: Voltage) -> (r: Option<CellStats>)
        ensures
            idx >= CELLS ==> r is None && *final(self) == *old(self),
            idx < CELLS ==> final(self).cells@ == old(self).cells@.update(idx as int, u),
            r is Some <==> idx == 0 && cells_min(final(self).cells@) != 0,
            r matches Some(stats) ==> stats.min@ == cells_min(final(self).cells@) && stats.max@
                == cells_max(final(self).cells@),
    {
        if idx >= CELLS {
            return None;
        }
        self.cells[idx] = u;
        if idx == 0 {
            let mut stats = CellStats::new();
            let mut i: usize = 0;
            while i < CELLS
                invariant
                    i <= CELLS,
                    stats.min@ == cells_min(self.cells@.take(i as int)),
                    stats.max@ == cells_max(self.cells@.take(i as int)),
                decreases CELLS - i,
            {
                assert(self.cells@.take(i + 1).drop_last() == self.cells@.take(i as int));
                stats = stats.update(self.cells[i]);
                i += 1;
            }
            assert(self.cells@.take(CELLS as int) == self.cells@);
            if stats.min == Voltage::zero() {
                None
            } else {
                Some(stats)
            }
        } else {
            None
        }
    }
}

/// What the battery and the motor controller last reported.
#[derive(Debug)]
pub struct ZeroState {
    /// Internal battery pack temperature
    pub pack_temp: VolatileValue<TemperatureRange, 2, 1000>,
    /// Discharge current
    pub pack_discharge_current: VolatileValue<Current, 2, 1000>,
    /// Remaining pack capacity
    pub pack_remaining_capacity: VolatileValue<Capacity, 2, 1000>,
    /// The pack's capacity
    pub pack_capacity: VolatileValue<Capacity, 2, 1000>,
    /// The pack's max current is this ratio of [Self::pack_capacity] per hour
    pub pack_allowed_current: VolatileValue<Ratio, 2, 1000>,
    /// Maximum voltage and current for charging
    pub pack_charge_limits: VolatileValue<(Voltage, Current), 2, 1000>,
    /// Temperature range for charging the pack
    pub pack_charge_temp_limits: VolatileValue<TemperatureRange, 2, 1000>,
    /// Cell voltages
    pub pack_cell_voltages: VolatileValue<CellVoltages, 2, 10000>,
    /// Cell balance stats
    pub pack_cell_stats: VolatileValue<CellStats, 2, 10000>,
    /// Pack voltage
    pub pack_voltage: VolatileValue<Voltage, 2, 1000>,
    /// State of charge
    pub pack_soc: VolatileValue<Ratio, 2, 1000>,
    /// Temperature of the motor controller
    pub controller_temp: VolatileValue<Temperature, 2, 1000>,
    /// Current drive mode
    pub bike_mode: VolatileValue<Mode, 2, 1000>,
    /// Accumulator for the cell voltages of the current round
    pub pack_cells_acc: CellVoltages,
}

/// `a` and `b` keep their values for the same number of clock ticks.
pub open spec fn same_ages(a: ZeroState, b: ZeroState) -> bool {
    &&& a.pack_temp.max_age() == b.pack_temp.max_age()
    &&& a.pack_discharge_current.max_age() == b.pack_discharge_current.max_age()
    &&& a.pack_remaining_capacity.max_age() == b.pack_remaining_capacity.max_age()
    &&& a.pack_capacity.max_age() == b.pack_capacity.max_age()
    &&& a.pack_allowed_current.max_age() == b.pack_allowed_current.max_age()
    &&& a.pack_charge_limits.max_age() == b.pack_charge_limits.max_age()
    &&& a.pack_charge_temp_limits.max_age() == b.pack_charge_temp_limits.max_age()
    &&& a.pack_cell_voltages.max_age() == b.pack_cell_voltages.max_age()
    &&& a.pack_cell_stats.max_age() == b.pack_cell_stats.max_age()
    &&& a.pack_voltage.max_age() == b.pack_voltage.max_age()
    &&& a.pack_soc.max_age() == b.pack_soc.max_age()
    &&& a.controller_temp.max_age() == b.controller_temp.max_age()
    &&& a.bike_mode.max_age() == b.bike_mode.max_age()
}

/// The values of `z` last one second on a clock of `hz` ticks per second; the cell
/// voltages and their statistics last ten seconds.
pub open spec fn ages_for(z: ZeroState, hz: u64) -> bool {
    &&& z.pack_temp.max_age() == max_age_ticks(1000, hz as int)
    &&& z.pack_discharge_current.max_age() == max_age_ticks(1000, hz as int)
    &&& z.pack_remaining_capacity.max_age() == max_age_ticks(1000, hz as int)
    &&& z.pack_capacity.max_age() == max_age_ticks(1000, hz as int)
    &&& z.pack_allowed_current.max_age() == max_age_ticks(1000, hz as int)
    &&& z.pack_charge_limits.max_age() == max_age_ticks(1000, hz as int)
    &&& z.pack_charge_temp_limits.max_age() == max_age_ticks(1000, hz as int)
    &&& z.pack_cell_voltages.max_age() == max_age_ticks(10000, hz as int)
    &&& z.pack_cell_stats.max_age() == max_age_ticks(10000, hz as int)
    &&& z.pack_voltage.max_age() == max_age_ticks(1000, hz as int)
    &&& z.pack_soc.max_age() == max_age_ticks(1000, hz as int)
    &&& z.controller_temp.max_age() == max_age_ticks(1000, hz as int)
    &&& z.bike_mode.max_age() == max_age_ticks(1000, hz as int)
}

impl ZeroState {
    /// Nothing reported yet, on a clock of `hz` ticks per second.
    pub fn with_tick_rate(hz: u64) -> (r: Self)
        ensures
            r.pack_temp@ is None,
            r.pack_discharge_current@ is None,
            r.pack_remaining_capacity@ is None,
            r.pack_capacity@ is None,
            r.pack_allowed_current@ is None,
            r.pack_charge_limits@ is None,
            r.pack_charge_temp_limits@ is None,
            r.pack_cell_voltages@ is None,
            r.pack_cell_stats@ is None,
            r.pack_voltage@ is None,
            r.pack_soc@ is None,
            r.controller_temp@ is None,
            r.bike_mode@ is None,
            forall|i: int| 0 <= i < CELLS ==> (#[trigger] r.pack_cells_acc.cells@[i])@ == 0,
            ages_for(r, hz),
    {
        Self {
            pack_temp: VolatileValue::with_tick_rate(hz),
            pack_discharge_current: VolatileValue::with_tick_rate(hz),
            pack_remaining_capacity: VolatileValue::with_tick_rate(hz),
            pack_capacity: VolatileValue::with_tick_rate(hz),
            pack_allowed_current: VolatileValue::with_tick_rate(hz),
            pack_charge_limits: VolatileValue::with_tick_rate(hz),
            pack_charge_temp_limits: VolatileValue::with_tick_rate(hz),
            pack_cell_voltages: VolatileValue::with_tick_rate(hz),
            pack_cell_stats: VolatileValue::with_tick_rate(hz),
            pack_voltage: VolatileValue::with_tick_rate(hz),
            pack_soc: VolatileValue::with_tick_rate(hz),
            controller_temp: VolatileValue::with_tick_rate(hz),
            bike_mode: VolatileValue::with_tick_rate(hz),
            pack_cells_acc: CellVoltages::new(),
        }
    }

    /// Nothing reported yet.
    pub fn new() -> (r: Self)
        ensures
            r.pack_temp@ is None,
            r.pack_discharge_current@ is None,
            r.pack_remaining_capacity@ is None,
            r.pack_capacity@ is None,
            r.pack_allowed_current@ is None,
            r.pack_charge_limits@ is None,
            r.pack_charge_temp_limits@ is None,
            r.pack_cell_voltages@ is None,
            r.pack_cell_stats@ is None,
            r.pack_voltage@ is None,
            r.pack_soc@ is None,
            r.controller_temp@ is None,
            r.bike_mode@ is None,
            forall|i: int| 0 <= i < CELLS ==> (#[trigger] r.pack_cells_acc.cells@[i])@ == 0,
            exists|hz: u64| hz > 0 && #[trigger] ages_for(r, hz),
    {
        Self::with_tick_rate(tick_hz())
    }
}

} // verus!
