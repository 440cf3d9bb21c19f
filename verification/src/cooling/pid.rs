//! A proportional-integral controller with anti-windup.
use core::ops::Range;
use vstd::prelude::*;
use crate::arith::{sat_add_i32, sat_i32, sat_mul_i32, sat_sub_i32};
use crate::clock::{now_ticks, tick_hz};

verus! {

/// A PI controller: output `k_p * e + k_i * (sum of e * dt)`, clamped to a range.
pub struct Pid {
    last_val: Option<u64>,
    setpoint: i32,
    err_acc: i32,
    k_p: i32,
    k_i: i32,
    u_range: Range<i32>,
}

/// The state of a controller.
pub struct PidView {
    /// The clock tick of the last step, if one ran.
    pub last_val: Option<u64>,
    pub setpoint: i32,
    /// The integrated error.
    pub err_acc: i32,
    pub k_p: i32,
    pub k_i: i32,
    /// The lower end of the output range.
    pub start: i32,
    /// The upper end of the output range.
    pub end: i32,
}

impl View for Pid {
    type V = PidView;

    closed spec fn view(&self) -> PidView {
        PidView {
            last_val: self.last_val,
            setpoint: self.setpoint,
            err_acc: self.err_acc,
            k_p: self.k_p,
            k_i: self.k_i,
            start: self.u_range.start,
            end: self.u_range.end,
        }
    }
}

/// The proportional error for the measurement `val`, saturating.
pub open spec fn pid_err_p(p: PidView, val: i32) -> i32 {
    sat_i32(p.setpoint - val)
}

/// The whole seconds since the last step, of a clock that runs `hz` ticks per
/// second, or 0 for the first step.
pub open spec fn pid_dt(p: PidView, now: u64, hz: u64) -> i32 {
    match p.last_val {
        Some(l) => ((now - l) / (hz as int)) as i32,
        None => 0,
    }
}

/// The integrated error after a step at `now`, saturating.
pub open spec fn pid_err_i(p: PidView, now: u64, hz: u64, val: i32) -> i32 {
    sat_i32(p.err_acc + sat_i32(pid_err_p(p, val) * pid_dt(p, now, hz)))
}

/// The unclamped output of a step: the proportional plus the integral part,
/// each saturating.
pub open spec fn pid_u(p: PidView, now: u64, hz: u64, val: i32) -> int {
    sat_i32(pid_err_p(p, val) * p.k_p) + sat_i32(pid_err_i(p, now, hz, val) * p.k_i)
}

/// The output of a step at `now` for `val`: the unclamped output, clamped to
/// the output range.
pub open spec fn pid_out(p: PidView, now: u64, hz: u64, val: i32) -> int {
    let u = pid_u(p, now, hz, val);
    if u <= p.start {
        p.start as int
    } else if u >= p.end {
        p.end as int
    } else {
        u
    }
}

/// The state after a step at `now` for `val`: the step's time is kept, and the
/// integrated error only while the output stays inside its range (anti-windup).
pub open spec fn pid_next(p: PidView, now: u64, hz: u64, val: i32) -> PidView {
    let u = pid_u(p, now, hz, val);
    PidView {
        last_val: Some(now),
        err_acc: if p.start < u < p.end {
            pid_err_i(p, now, hz, val)
        } else {
            p.err_acc
        },
        ..p
    }
}

/// What a step at `now` for `val` gives, and the state it leaves: the output and
/// the next state where the step is defined, else nothing and the state as it was.
pub open spec fn pid_step_outcome(p: PidView, now: u64, hz: u64, val: i32, r: Option<i32>, next: PidView) -> bool {
    if pid_step_ok(p, now, hz, val) {
        r matches Some(u) && u == pid_out(p, now, hz, val) && next == pid_next(p, now, hz, val)
    } else {
        r is None && next == p
    }
}

/// Anti-windup: a step whose unclamped output reaches or passes either end of the
/// output range keeps the integrated error it had, and outputs that end; only a step
/// strictly inside the range takes up the new integrated error, and outputs its
/// unclamped value. Every step records its time and keeps the setpoint, the gains and
/// the range; with an ordered range the output lies within it.
pub proof fn lemma_anti_windup(p: PidView, now: u64, hz: u64, val: i32)
    ensures
        ({
            let u = pid_u(p, now, hz, val);
            let n = pid_next(p, now, hz, val);
            let out = pid_out(p, now, hz, val);
            &&& u <= p.start ==> n.err_acc == p.err_acc && out == p.start
            &&& u >= p.end ==> n.err_acc == p.err_acc && (u > p.start ==> out == p.end)
            &&& p.start < u < p.end ==> n.err_acc == pid_err_i(p, now, hz, val) && out == u
            &&& n.last_val == Some(now)
            &&& n.setpoint == p.setpoint && n.k_p == p.k_p && n.k_i == p.k_i
            &&& n.start == p.start && n.end == p.end
            &&& p.start <= p.end ==> p.start <= out <= p.end
        }),
{
}

/// A step at `now` is defined: time does not run backwards and the two parts add
/// up without overflow.
pub open spec fn pid_step_ok(p: PidView, now: u64, hz: u64, val: i32) -> bool {
    &&& (p.last_val matches Some(l) ==> l <= now)
    &&& i32::MIN <= pid_u(p, now, hz, val) <= i32::MAX
}

impl Pid {
    /// A controller with zero gains, setpoint 0 and the whole `i32` range.
    pub fn new() -> (r: Self)
        ensures
            r@ == (PidView {
                last_val: None,
                setpoint: 0,
                err_acc: 0,
                k_p: 0,
                k_i: 0,
                start: i32::MIN,
                end: i32::MAX,
            }),
    {
        Self {
            last_val: None,
            setpoint: 0,
            err_acc: 0,
            k_p: 0,
            k_i: 0,
            u_range: Range { start: i32::MIN, end: i32::MAX },
        }
    }

    /// The controller with proportional gain `k_p`.
    pub fn with_k_p(self, k_p: i32) -> (r: Self)
        ensures
            r@ == (PidView { k_p, ..self@ }),
    {
        let mut s = self;
        s.k_p = k_p;
        s
    }

    /// The controller with integral gain `k_i`.
    pub fn with_k_i(self, k_i: i32) -> (r: Self)
        ensures
            r@ == (PidView { k_i, ..self@ }),
    {
        let mut s = self;
        s.k_i = k_i;
        s
    }

    /// The controller with output range `u_range`.
    pub fn with_range(self, u_range: Range<i32>) -> (r: Self)
        ensures
            r@ == (PidView { start: u_range.start, end: u_range.end, ..self@ }),
    {
        let mut s = self;
        s.u_range = u_range;
        s
    }

    /// The controller with setpoint `setpoint`.
    pub fn with_setpoint(self, setpoint: i32) -> (r: Self)
        ensures
            r@ == (PidView { setpoint, ..self@ }),
    {
        let mut s = self;
        s.setpoint = setpoint;
        s
    }

    /// One step at the tick `now`, of a clock of `hz` ticks per second, for the
    /// measurement `val`: the output, clamped to the range. The integrated error is
    /// kept only while the output lies inside the range.
    pub fn step_at(&mut self, now: u64, hz: u64, val: i32) -> (r: i32)
        requires
            hz > 0,
            pid_step_ok(old(self)@, now, hz, val),
        ensures
            r == pid_out(old(self)@, now, hz, val),
            final(self)@ == pid_next(old(self)@, now, hz, val),
            ({
                let u = pid_u(old(self)@, now, hz, val);
                (u <= old(self)@.start || u >= old(self)@.end) ==> final(self)@.err_acc == old(
                    self,
                )@.err_acc
            }),
    {
        // P
        let err_p = sat_sub_i32(self.setpoint, val);
        let u_p = sat_mul_i32(err_p, self.k_p);

        // dt
        let dt: i32 = match self.last_val {
            Some(last_val) => ((now - last_val) / hz) as i32,
            None => 0,
        };
        self.last_val = Some(now);

        // I
        let err_i = sat_add_i32(self.err_acc, sat_mul_i32(err_p, dt));
        let u_i = sat_mul_i32(err_i, self.k_i);

        // u
        let u = u_p + u_i;
        if u <= self.u_range.start {
            self.u_range.start
        } else if u >= self.u_range.end {
            self.u_range.end
        } else {
            // Only store the integrated error if u hasn't reached its bounds
            self.err_acc = err_i;
            u
        }
    }

    /// One step now for the measurement `val`; `None`, with the controller unchanged,
    /// where the step is not defined at the time read.
    pub fn step(&mut self, val: i32) -> (r: Option<i32>)
        ensures
            r is None ==> *final(self) == *old(self),
            exists|t: u64, hz: u64|
                hz > 0 && #[trigger] pid_step_outcome(old(self)@, t, hz, val, r, final(self)@),
    {
        let ghost before = self@;
        let now = now_ticks();
        let hz = tick_hz();
        if self.step_defined(now, hz, val) {
            let u = self.step_at(now, hz, val);
            assert(pid_step_outcome(before, now, hz, val, Some(u), self@));
            Some(u)
        } else {
            assert(pid_step_outcome(before, now, hz, val, None, self@));
            None
        }
    }

    /// Whether a step at the tick `now`, of a clock of `hz` ticks per second, for
    /// `val` is defined.
    pub fn step_defined(&self, now: u64, hz: u64, val: i32) -> (r: bool)
        requires
            hz > 0,
        ensures
            r == pid_step_ok(self@, now, hz, val),
    {
        match self.last_val {
            Some(l) => if l > now {
                return false;
            },
            None => {},
        }
        let err_p = sat_sub_i32(self.setpoint, val);
        let u_p = sat_mul_i32(err_p, self.k_p);
        let dt: i32 = match self.last_val {
            Some(last_val) => ((now - last_val) / hz) as i32,
            None => 0,
        };
        let err_i = sat_add_i32(self.err_acc, sat_mul_i32(err_p, dt));
        let u_i = sat_mul_i32(err_i, self.k_i);
        (u_p as i64 + u_i as i64) >= i32::MIN as i64 && (u_p as i64 + u_i as i64) <= i32::MAX as i64
    }
}

} // verus!
