//! Physical values in fixed-point thousandths, ratios, and the products and
//! quotients between the quantities of electric charging.
pub mod physical;
pub mod ratio;
pub mod units;
pub mod text;

use vstd::prelude::*;
use vstd::std_specs::ops::{DivSpecImpl, MulSpecImpl};
use crate::arith::{div_i32, div_i64, div_trunc, sat_i32, sat_mul_i32};
pub use physical::Physical;
pub use ratio::Ratio;
use units::{Ampere, AmpereHour, DegCelsius, Hz, Second, Volt, Watt};

verus! {

broadcast use physical::group_physical;

pub type Time = Physical<Second>;

pub type Frequency = Physical<Hz>;

pub type Voltage = Physical<Volt>;

pub type Current = Physical<Ampere>;

pub type Power = Physical<Watt>;

pub type Capacity = Physical<AmpereHour>;

pub type Temperature = Physical<DegCelsius>;

/// Power in thousandths of a watt of `i` thousandths of an ampere at `u` thousandths
/// of a volt: the product divided by 1000 (rounding towards zero), cut to the low 32 bits.
pub open spec fn power_millis(i: int, u: int) -> int {
    div_trunc(i * u, 1000) as i32 as int
}

/// Quotient in thousandths of `p` thousandths by `d` thousandths (rounding towards zero),
/// cut to the low 32 bits.
pub open spec fn quotient_millis(p: int, d: int) -> int {
    div_trunc(p * 1000, d) as i32 as int
}

/// Divisor in thousandths of hours of a time of `t` thousandths of a second.
pub open spec fn milli_hours(t: int) -> int {
    div_trunc(t, 3600)
}

/// Multiplies two `i32` thousandths into thousandths of the product unit.
fn mul_millis(a: i32, b: i32) -> (r: i32)
    ensures
        r == power_millis(a as int, b as int),
{
    assert(i64::MIN < a * b <= i64::MAX) by (nonlinear_arith)
        requires
            i32::MIN <= a <= i32::MAX,
            i32::MIN <= b <= i32::MAX,
    ;
    let micros: i64 = (a as i64) * (b as i64);
    div_i64(micros, 1000) as i32
}

/// Divides `i32` thousandths by `i32` thousandths into thousandths of the quotient unit.
fn div_millis(p: i32, d: i32) -> (r: i32)
    requires
        d != 0,
    ensures
        r == quotient_millis(p as int, d as int),
{
    let micros: i64 = (p as i64) * 1000;
    div_i64(micros, d as i64) as i32
}

impl core::ops::Mul<Voltage> for Current {
    type Output = Power;

    fn mul(self, rhs: Voltage) -> (r: Power) {
        Power::from_millis(mul_millis(self.as_millis(), rhs.as_millis()))
    }
}

impl MulSpecImpl<Voltage> for Current {
    open spec fn obeys_mul_spec() -> bool {
        true
    }

    open spec fn mul_req(self, rhs: Voltage) -> bool {
        true
    }

    open spec fn mul_spec(self, rhs: Voltage) -> Power {
        Power::spec_from_millis(power_millis(self@, rhs@))
    }
}

impl core::ops::Mul<Current> for Voltage {
    type Output = Power;

    fn mul(self, rhs: Current) -> (r: Power) {
        assert(self@ * rhs@ == rhs@ * self@) by (nonlinear_arith);
        rhs * self
    }
}

impl MulSpecImpl<Current> for Voltage {
    open spec fn obeys_mul_spec() -> bool {
        true
    }

    open spec fn mul_req(self, rhs: Current) -> bool {
        true
    }

    open spec fn mul_spec(self, rhs: Current) -> Power {
        Power::spec_from_millis(power_millis(self@, rhs@))
    }
}

impl core::ops::Div<Voltage> for Power {
    type Output = Current;

    fn div(self, rhs: Voltage) -> (r: Current) {
        Current::from_millis(div_millis(self.as_millis(), rhs.as_millis()))
    }
}

impl DivSpecImpl<Voltage> for Power {
    open spec fn obeys_div_spec() -> bool {
        true
    }

    open spec fn div_req(self, rhs: Voltage) -> bool {
        rhs@ != 0
    }

    open spec fn div_spec(self, rhs: Voltage) -> Current {
        Current::spec_from_millis(quotient_millis(self@, rhs@))
    }
}

impl core::ops::Div<Current> for Power {
    type Output = Voltage;

    fn div(self, rhs: Current) -> (r: Voltage) {
        Voltage::from_millis(div_millis(self.as_millis(), rhs.as_millis()))
    }
}

impl DivSpecImpl<Current> for Power {
    open spec fn obeys_div_spec() -> bool {
        true
    }

    open spec fn div_req(self, rhs: Current) -> bool {
        rhs@ != 0
    }

    open spec fn div_spec(self, rhs: Current) -> Voltage {
        Voltage::spec_from_millis(quotient_millis(self@, rhs@))
    }
}

impl Capacity {
    /// The current that drains this capacity in the time `rhs`: the capacity divided
    /// by the time in whole thousandths of hours (rounding towards zero), in whole amperes.
    pub fn per_time(self, rhs: Time) -> (r: Current)
        requires
            milli_hours(rhs@) != 0,
            !(self@ == i32::MIN && milli_hours(rhs@) == -1),
        ensures
            r@ == sat_i32(div_trunc(self@, milli_hours(rhs@)) * 1000),
    {
        let mh: i32 = div_i32(rhs.as_millis(), 3600);
        Current::from_val(div_i32(self.as_millis(), mh))
    }
}

impl core::ops::Div<Time> for Capacity {
    type Output = Current;

    fn div(self, rhs: Time) -> (r: Current) {
        self.per_time(rhs)
    }
}

impl DivSpecImpl<Time> for Capacity {
    open spec fn obeys_div_spec() -> bool {
        true
    }

    open spec fn div_req(self, rhs: Time) -> bool {
        milli_hours(rhs@) != 0 && !(self@ == i32::MIN && milli_hours(rhs@) == -1)
    }

    open spec fn div_spec(self, rhs: Time) -> Current {
        Current::spec_from_millis(sat_i32(div_trunc(self@, milli_hours(rhs@)) * 1000) as int)
    }
}

} // verus!
