//! The coolant temperature and the fan that keeps it at its setpoint.
pub mod ntc;
pub mod pid;

use vstd::prelude::*;
use crate::arith::shift_decimal;
use crate::clock::{now_ticks, tick_hz};
use crate::physical_values::physical::group_physical;
use crate::physical_values::ratio::{group_ratio, permill_steps};
use crate::physical_values::{Ratio, Temperature};
pub use ntc::adc_to_temp;
pub use pid::Pid;
use pid::{pid_next, pid_step_ok, pid_u, PidView};

verus! {

broadcast use group_physical, group_ratio;

/// Keeps the coolant at a temperature by the speed of the fan.
pub struct CoolingController {
    setpoint: Temperature,
    pid: Pid,
}

/// The output of the controller as a fan speed: a step output `u` in per mill.
pub open spec fn clamp_permill(p: PidView, u: int) -> int {
    if u <= p.start {
        p.start as int
    } else if u >= p.end {
        p.end as int
    } else {
        u
    }
}

impl CoolingController {
    #[verifier::type_invariant]
    spec fn output_in_per_mill(self) -> bool {
        self.pid@.start == 0 && self.pid@.end == 1000
    }

    /// The temperature the controller keeps.
    pub closed spec fn target(&self) -> Temperature {
        self.setpoint
    }

    /// The temperature the controller keeps.
    pub fn setpoint(&self) -> (r: Temperature)
        ensures
            r == self.target(),
    {
        self.setpoint
    }

    /// The controller's PI state.
    pub closed spec fn pid_view(&self) -> PidView {
        self.pid@
    }

    /// A controller for `setpoint`: gain -200 (tenths of per mill per tenth of a degree)
    /// and -10 for the integral, output 0 to 1000 per mill.
    pub fn new(setpoint: Temperature) -> (r: Self)
        ensures
            r.target() == setpoint,
            r.pid_view() == (PidView {
                last_val: None,
                setpoint: shift_decimal(setpoint@, 3, 1) as i32,
                err_acc: 0,
                k_p: -200i32,
                k_i: -10i32,
                start: 0,
                end: 1000,
            }),
    {
        let pid = Pid::new().with_k_p(-200).with_k_i(-10).with_range(
            core::ops::Range { start: 0, end: 1000 },
        ).with_setpoint(setpoint.as_decimal(1));
        Self { setpoint, pid }
    }

    /// The fan speed for the ADC reading `adc` at the tick `now` of a clock of `hz` ticks
    /// per second: the controller's output for the
    /// temperature in tenths of a degree, or 50% when the reading is out of the table.
    pub fn fan_speed_at(&mut self, now: u64, hz: u64, adc: u16) -> (r: Ratio)
        requires
            hz > 0,
            adc_to_temp_spec_ok(old(self).pid_view(), now, hz, adc),
        ensures
            final(self).target() == old(self).target(),
            match ntc_temp_deci(adc) {
                Some(t) => r@ == permill_steps(
                    clamp_permill(old(self).pid_view(), pid_u(old(self).pid_view(), now, hz, t)),
                ) && final(self).pid_view() == pid_next(old(self).pid_view(), now, hz, t),
                None => r@ == 5000 && final(self).pid_view() == old(self).pid_view(),
            },
    {
        proof {
            use_type_invariant(&*self);
        }
        match adc_to_temp(adc) {
            Some(cur_temp) => {
                let mut pid = Pid::new().with_range(core::ops::Range { start: 0, end: 1000 });
                core::mem::swap(&mut pid, &mut self.pid);
                let pwm = pid.step_at(now, hz, cur_temp.as_decimal(1));
                self.pid = pid;
                Ratio::from_permill(pwm as u16)
            },
            None => Ratio::from_percent(50),
        }
    }

    /// The fan speed for the ADC reading `adc` now; `None`, with the controller unchanged,
    /// where the controller's step is not defined at the time read.
    pub fn fan_speed(&mut self, adc: u16) -> (r: Option<Ratio>)
        ensures
            r is None ==> *final(self) == *old(self),
            final(self).target() == old(self).target(),
            exists|t: u64, hz: u64|
                hz > 0 && #[trigger] fan_speed_outcome(old(self).pid_view(), t, hz, adc, r, final(self).pid_view()),
    {
        let ghost before = self.pid_view();
        let now = now_ticks();
        let hz = tick_hz();
        match adc_to_temp(adc) {
            Some(cur_temp) => {
                if !self.pid.step_defined(now, hz, cur_temp.as_decimal(1)) {
                    assert(fan_speed_outcome(before, now, hz, adc, None, self.pid_view()));
                    return None;
                }
            },
            None => {},
        }
        let speed = self.fan_speed_at(now, hz, adc);
        assert(fan_speed_outcome(before, now, hz, adc, Some(speed), self.pid_view()));
        Some(speed)
    }
}

/// What a reading `adc` at `now` gives, and the controller state it leaves: where
/// the step is defined, the fan speed (the controller's output for a reading in the
/// table, 50% otherwise) and the next state; else nothing and the state as it was.
pub open spec fn fan_speed_outcome(p: PidView, now: u64, hz: u64, adc: u16, r: Option<Ratio>, next: PidView) -> bool {
    if adc_to_temp_spec_ok(p, now, hz, adc) {
        r matches Some(speed) && match ntc_temp_deci(adc) {
            Some(d) => speed@ == permill_steps(clamp_permill(p, pid_u(p, now, hz, d))) && next == pid_next(
                p,
                now,
                hz,
                d,
            ),
            None => speed@ == 5000 && next == p,
        }
    } else {
        r is None && next == p
    }
}

/// The temperature in tenths of a degree that the reading `adc` stands for, if any.
pub open spec fn ntc_temp_deci(adc: u16) -> Option<i32> {
    let i = ntc::first_above_from(adc, 0);
    if 1 <= i < ntc::LUT_LEN {
        Some(shift_decimal(shift_decimal(ntc::segment_centi(adc, i), 2, 3), 3, 1) as i32)
    } else {
        None
    }
}

/// A step of the controller for the reading `adc` at the tick `now`, of a clock of
/// `hz` ticks per second, is defined.
pub open spec fn adc_to_temp_spec_ok(p: PidView, now: u64, hz: u64, adc: u16) -> bool {
    ntc_temp_deci(adc) matches Some(t) ==> pid_step_ok(p, now, hz, t)
}

} // verus!
