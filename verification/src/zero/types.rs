//! The value types carried in the battery's CAN messages.
use vstd::prelude::*;
use vstd::std_specs::convert::FromSpecImpl;
use crate::physical_values::{physical::group_physical, Capacity, Current, Ratio, Temperature, Voltage};
use crate::physical_values::ratio::{group_ratio, percent_steps, permill_steps};

verus! {

broadcast use group_physical, group_ratio;

/// A current in whole amperes.
#[derive(Copy, Clone, Debug)]
pub struct AmpereI16(pub i16);

/// A current in milliamperes.
#[derive(Copy, Clone, Debug)]
pub struct MilliAmpereU16(pub u16);

/// A capacity in whole ampere-hours.
#[derive(Copy, Clone, Debug)]
pub struct AmpereHourU16(pub u16);

/// A voltage in millivolts.
#[derive(Copy, Clone, Debug)]
pub struct MilliVoltU16(pub u16);

/// A voltage in millivolts.
#[derive(Copy, Clone, Debug)]
pub struct MilliVoltU32(pub u32);

/// A temperature in whole degrees Celsius.
#[derive(Copy, Clone, Debug)]
pub struct DegCelsiusI8(pub i8);

/// A ratio in whole percent.
#[derive(Copy, Clone, Debug)]
pub struct PercentU8(pub u8);

/// A ratio in 255ths.
#[derive(Copy, Clone, Debug)]
pub struct Per255U8(pub u8);

/// Millivolts of a 32-bit reading, clamped to the largest representable voltage.
pub open spec fn clamp_millivolts(mv: u32) -> int {
    if mv > i32::MAX {
        i32::MAX as int
    } else {
        mv as int
    }
}

/// Per mill of `x` 255ths, approximated as `x * 3922 / 1000`.
pub open spec fn per255_permill(x: u8) -> int {
    (x * 3922) / 1000
}

impl AmpereI16 {
    /// The reading as a current.
    pub fn current(self) -> (r: Current)
        ensures
            r@ == self.0 * 1000,
    {
        Current::from_val(self.0 as i32)
    }
}

impl From<AmpereI16> for Current {
    fn from(value: AmpereI16) -> (r: Self) {
        value.current()
    }
}

impl FromSpecImpl<AmpereI16> for Current {
    open spec fn obeys_from_spec() -> bool {
        true
    }

    open spec fn from_spec(v: AmpereI16) -> Self {
        Current::spec_from_millis(v.0 * 1000)
    }
}

impl MilliAmpereU16 {
    /// The reading as a current.
    pub fn current(self) -> (r: Current)
        ensures
            r@ == self.0,
    {
        Current::from_millis(self.0 as i32)
    }
}

impl From<MilliAmpereU16> for Current {
    fn from(value: MilliAmpereU16) -> (r: Self) {
        value.current()
    }
}

impl FromSpecImpl<MilliAmpereU16> for Current {
    open spec fn obeys_from_spec() -> bool {
        true
    }

    open spec fn from_spec(v: MilliAmpereU16) -> Self {
        Current::spec_from_millis(v.0 as int)
    }
}

impl AmpereHourU16 {
    /// The reading as a capacity.
    pub fn capacity(self) -> (r: Capacity)
        ensures
            r@ == self.0 * 1000,
    {
        Capacity::from_val(self.0 as i32)
    }
}

impl From<AmpereHourU16> for Capacity {
    fn from(value: AmpereHourU16) -> (r: Self) {
        value.capacity()
    }
}

impl FromSpecImpl<AmpereHourU16> for Capacity {
    open spec fn obeys_from_spec() -> bool {
        true
    }

    open spec fn from_spec(v: AmpereHourU16) -> Self {
        Capacity::spec_from_millis(v.0 * 1000)
    }
}

impl MilliVoltU16 {
    /// The reading as a voltage.
    pub fn voltage(self) -> (r: Voltage)
        ensures
            r@ == self.0,
    {
        Voltage::from_millis(self.0 as i32)
    }
}

impl From<MilliVoltU16> for Voltage {
    fn from(value: MilliVoltU16) -> (r: Self) {
        value.voltage()
    }
}

impl FromSpecImpl<MilliVoltU16> for Voltage {
    open spec fn obeys_from_spec() -> bool {
        true
    }

    open spec fn from_spec(v: MilliVoltU16) -> Self {
        Voltage::spec_from_millis(v.0 as int)
    }
}

impl MilliVoltU32 {
    /// The reading as a voltage.
    pub fn voltage(self) -> (r: Voltage)
        ensures
            r@ == clamp_millivolts(self.0),
    {
        let u = self.0;
        let u: i32 = if u > i32::MAX as u32 {
            i32::MAX
        } else {
            u as i32
        };
        Voltage::from_millis(u)
    }
}

impl From<MilliVoltU32> for Voltage {
    fn from(value: MilliVoltU32) -> (r: Self) {
        value.voltage()
    }
}

impl FromSpecImpl<MilliVoltU32> for Voltage {
    open spec fn obeys_from_spec() -> bool {
        true
    }

    open spec fn from_spec(v: MilliVoltU32) -> Self {
        Voltage::spec_from_millis(clamp_millivolts(v.0))
    }
}

impl DegCelsiusI8 {
    /// The reading as a temperature.
    pub fn temperature(self) -> (r: Temperature)
        ensures
            r@ == self.0 * 1000,
    {
        Temperature::from_val(self.0 as i32)
    }
}

impl From<DegCelsiusI8> for Temperature {
    fn from(value: DegCelsiusI8) -> (r: Self) {
        value.temperature()
    }
}

impl FromSpecImpl<DegCelsiusI8> for Temperature {
    open spec fn obeys_from_spec() -> bool {
        true
    }

    open spec fn from_spec(v: DegCelsiusI8) -> Self {
        Temperature::spec_from_millis(v.0 * 1000)
    }
}

impl PercentU8 {
    /// The reading as a ratio.
    pub fn ratio(self) -> (r: Ratio)
        ensures
            r@ == percent_steps(self.0 as int),
    {
        Ratio::from_percent(self.0)
    }
}

impl From<PercentU8> for Ratio {
    fn from(value: PercentU8) -> (r: Self) {
        value.ratio()
    }
}

impl FromSpecImpl<PercentU8> for Ratio {
    open spec fn obeys_from_spec() -> bool {
        true
    }

    open spec fn from_spec(v: PercentU8) -> Self {
        Ratio::spec_from_steps(percent_steps(v.0 as int))
    }
}

impl Per255U8 {
    /// The reading as a ratio.
    pub fn ratio(self) -> (r: Ratio)
        ensures
            r@ == permill_steps(per255_permill(self.0)),
    {
        let ppm: u32 = self.0 as u32 * 3922;
        let permil: u32 = ppm / 1000;
        Ratio::from_permill(permil as u16)
    }
}

impl From<Per255U8> for Ratio {
    fn from(value: Per255U8) -> (r: Self) {
        value.ratio()
    }
}

impl FromSpecImpl<Per255U8> for Ratio {
    open spec fn obeys_from_spec() -> bool {
        true
    }

    open spec fn from_spec(v: Per255U8) -> Self {
        Ratio::spec_from_steps(permill_steps(per255_permill(v.0)))
    }
}

} // verus!
