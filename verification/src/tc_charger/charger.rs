//! One charger: what it reports, the limits it is given, and the setpoint it is sent.
use core::ops::ControlFlow;
use vstd::prelude::*;
use crate::clock::{now_ticks, tick_hz};
use crate::physical_values::physical::{frac_millis, group_physical};
use crate::physical_values::ratio::{group_ratio, RATIO_MAX};
use crate::physical_values::{power_millis, quotient_millis, Current, Power, Ratio, Voltage};
use crate::volatile_value::{expiry, fresh_value, max_age_ticks, VolatileValue, VolatileValueObserver};
use super::can::{deci_u16, RxMsg, TxMsg, TxPayload, VoltageCurrent};

verus! {

broadcast use group_physical, group_ratio;

/// A charger on the CAN bus.
pub struct TcCharger {
    pub name: &'static str,
    pub can_id_rx: u32,
    pub can_id_tx: u32,
    current_settled: bool,
    out_actual: VolatileValue<VoltageCurrent, 2, 2000>,
    out_limits: VolatileValue<VoltageCurrent, 0, 5000>,
    in_limits: VolatileValue<Current, 0, 5000>,
}

/// How a charger's presence on the bus changed.
#[derive(Debug, Clone, Copy, PartialEq, Eq, Structural)]
pub enum OnlineChange {
    CameOnline,
    WentOffline,
    Unchanged,
}

/// The nominal mains voltage, in millivolts.
pub open spec fn mains_nominal_millis() -> int {
    230000
}

/// The least battery voltage (mV) at which a charger is taken to be connected.
pub open spec fn min_bat_millis() -> int {
    80000
}

/// The power (mW) a charger may deliver when it may draw `in_i` mA from the mains:
/// 95% of the nominal mains voltage times the current, times the efficiency of 95%.
pub open spec fn max_out_power_millis(in_i: int) -> int {
    frac_millis(
        power_millis(frac_millis(mains_nominal_millis(), 9500, RATIO_MAX as int), in_i),
        9500,
        RATIO_MAX as int,
    )
}

/// The current (mA) to set: what the power limit allows at the battery voltage `act_u`,
/// at most the output limit `max_i`.
pub open spec fn out_current_millis(in_i: int, act_u: int, max_i: int) -> int {
    let q = quotient_millis(max_out_power_millis(in_i), act_u);
    if max_i < q {
        max_i
    } else {
        q
    }
}

/// The bytes of a setpoint for `u` and `i` (in thousandths).
pub open spec fn setpoint_payload(p: TxPayload, u: int, i: int) -> bool {
    &&& p.deci_volts == deci_u16(u)
    &&& p.deci_amps == deci_u16(i)
    &&& p.control == if power_millis(u, i) > 0 {
        0u8
    } else {
        1u8
    }
    &&& p._reserved@ == seq![0u8, 0u8, 0u8]
}

impl TcCharger {
    /// The name of the charger.
    pub closed spec fn spec_name(&self) -> &'static str {
        self.name
    }

    /// The CAN id the charger reports with.
    pub closed spec fn rx_id(&self) -> u32 {
        self.can_id_rx
    }

    /// The CAN id the charger takes setpoints at.
    pub closed spec fn tx_id(&self) -> u32 {
        self.can_id_tx
    }

    /// Whether the current has settled since its limit was last lowered.
    pub closed spec fn settled(&self) -> bool {
        self.current_settled
    }

    /// The output last reported, with its deadline.
    pub closed spec fn actual(&self) -> Option<(u64, VoltageCurrent)> {
        self.out_actual@
    }

    /// The output limits last given, with their deadline.
    pub closed spec fn limits(&self) -> Option<(u64, VoltageCurrent)> {
        self.out_limits@
    }

    /// The mains current limit last given, with its deadline.
    pub closed spec fn in_limit(&self) -> Option<(u64, Current)> {
        self.in_limits@
    }

    /// How many observers of the reading, the output limits and the mains limit
    /// are handed out.
    pub closed spec fn observer_counts(&self) -> (int, int, int) {
        (
            self.out_actual.observers_taken(),
            self.out_limits.observers_taken(),
            self.in_limits.observers_taken(),
        )
    }

    /// How many clock ticks the reading, the output limits and the mains limit last.
    pub closed spec fn max_ages(&self) -> (u64, u64, u64) {
        (self.out_actual.max_age(), self.out_limits.max_age(), self.in_limits.max_age())
    }

    /// The ticks the reading (2 s), the output limits (5 s) and the mains limit
    /// (5 s) last on a clock of `hz` ticks per second.
    pub open spec fn ages_for(hz: u64) -> (u64, u64, u64) {
        (max_age_ticks(2000, hz as int), max_age_ticks(5000, hz as int), max_age_ticks(5000, hz as int))
    }

    /// `b` has the name, the CAN ids, the observers and the maximum ages of `a`.
    pub open spec fn same_charger(a: TcCharger, b: TcCharger) -> bool {
        &&& a.spec_name() == b.spec_name()
        &&& a.rx_id() == b.rx_id()
        &&& a.tx_id() == b.tx_id()
        &&& a.observer_counts() == b.observer_counts()
        &&& a.max_ages() == b.max_ages()
    }

    /// A charger is fixed by its name, ids, observers, settled flag, reading and limits.
    pub proof fn lemma_charger_ext(a: TcCharger, b: TcCharger)
        requires
            Self::same_charger(a, b),
            a.settled() == b.settled(),
            a.actual() == b.actual(),
            a.limits() == b.limits(),
            a.in_limit() == b.in_limit(),
        ensures
            a == b,
    {
        crate::volatile_value::lemma_volatile_ext(a.out_actual, b.out_actual);
        crate::volatile_value::lemma_volatile_ext(a.out_limits, b.out_limits);
        crate::volatile_value::lemma_volatile_ext(a.in_limits, b.in_limits);
    }

    /// `new` is `old` with the output limits set to `(u, i)` at `now`: lowering a fresh
    /// current limit marks the current as not settled.
    pub open spec fn limits_updated(
        old: TcCharger,
        new: TcCharger,
        now: u64,
        u: Voltage,
        i: Current,
    ) -> bool {
        &&& Self::same_charger(old, new)
        &&& new.actual() == old.actual()
        &&& new.in_limit() == old.in_limit()
        &&& new.limits() == Some((expiry(now, old.max_ages().1), (u, i)))
        &&& new.settled() == (old.settled() && !(fresh_value(old.limits(), now) matches Some(
            (_, oi),
        ) && oi@ > i@))
    }

    /// The setpoint for the reported output `out_actual` at `now`, with whether the
    /// current has reached it: when the battery is connected and fresh limits are known,
    /// the output limit voltage and the current the limits allow, else nothing.
    pub open spec fn ctrl_target(self, now: u64, out_actual: Option<VoltageCurrent>) -> Option<
        (Voltage, int, bool),
    > {
        match (out_actual, fresh_value(self.limits(), now), fresh_value(self.in_limit(), now)) {
            (Some((act_u, act_i)), Some((max_u, max_i)), Some(max_in_i)) => if act_u@
                >= min_bat_millis() {
                let i = out_current_millis(max_in_i@, act_u@, max_i@);
                Some((max_u, i, -1000 <= i - act_i@ <= 1000))
            } else {
                None
            },
            _ => None,
        }
    }

    /// The setpoint is for a charger that reported its output; its current counts as
    /// settled exactly when the reported current lies within 1 A of the setpoint
    /// current, above or below. A control step therefore leaves an unsettled charger
    /// unsettled while it delivers more than 1 A above, or below, its setpoint.
    pub proof fn lemma_settled_within_one_amp(self, now: u64, out_actual: Option<VoltageCurrent>)
        ensures
            self.ctrl_target(now, out_actual) matches Some((_, i, settled)) ==> (out_actual matches Some(
                (_, a),
            ) && (settled <==> (i - a@ <= 1000 && a@ - i <= 1000))),
    {
    }

    /// The setpoint can be computed without overflow.
    pub open spec fn ctrl_fits(self, now: u64, out_actual: Option<VoltageCurrent>) -> bool {
        match (out_actual, fresh_value(self.limits(), now), fresh_value(self.in_limit(), now)) {
            (Some((act_u, act_i)), Some((max_u, max_i)), Some(max_in_i)) => act_u@
                >= min_bat_millis() ==> i32::MIN <= out_current_millis(max_in_i@, act_u@, max_i@)
                - act_i@ <= i32::MAX,
            _ => true,
        }
    }

    /// A charger that has not been heard of yet, on a clock of `hz` ticks per second.
    pub fn with_tick_rate(name: &'static str, can_id_rx: u32, can_id_tx: u32, hz: u64) -> (r: Self)
        ensures
            r.spec_name() == name,
            r.rx_id() == can_id_rx,
            r.tx_id() == can_id_tx,
            r.settled(),
            r.actual() is None,
            r.limits() is None,
            r.in_limit() is None,
            r.observer_counts() == (0int, 0int, 0int),
            r.max_ages() == Self::ages_for(hz),
    {
        Self {
            name,
            can_id_rx,
            can_id_tx,
            current_settled: true,
            out_actual: VolatileValue::with_tick_rate(hz),
            out_limits: VolatileValue::with_tick_rate(hz),
            in_limits: VolatileValue::with_tick_rate(hz),
        }
    }

    /// A charger that has not been heard of yet, on the executor's clock.
    pub fn new(name: &'static str, can_id_rx: u32, can_id_tx: u32) -> (r: Self)
        ensures
            r.spec_name() == name,
            r.rx_id() == can_id_rx,
            r.tx_id() == can_id_tx,
            r.settled(),
            r.actual() is None,
            r.limits() is None,
            r.in_limit() is None,
            r.observer_counts() == (0int, 0int, 0int),
            exists|hz: u64| hz > 0 && r.max_ages() == #[trigger] Self::ages_for(hz),
    {
        Self::with_tick_rate(name, can_id_rx, can_id_tx, tick_hz())
    }

    /// Takes the status `msg` received at `now` if it is addressed from this charger.
    pub fn handle_can_msg_at(&mut self, now: u64, msg: RxMsg) -> (r: ControlFlow<()>)
        ensures
            Self::same_charger(*old(self), *final(self)),
            final(self).settled() == old(self).settled(),
            final(self).limits() == old(self).limits(),
            final(self).in_limit() == old(self).in_limit(),
            msg.id == old(self).rx_id() ==> r is Break && (final(self).actual() matches Some(
                (d, (u, i)),
            ) && d == expiry(now, old(self).max_ages().0) && u@ == msg.payload.deci_volts * 100 && i@
                == msg.payload.deci_amps * 100),
            msg.id != old(self).rx_id() ==> r is Continue && *final(self) == *old(self),
    {
        if msg.id == self.can_id_rx {
            let actual = msg.payload.decode();
            self.out_actual.update_at(now, actual);
            ControlFlow::Break(())
        } else {
            ControlFlow::Continue(())
        }
    }

    /// Takes the status `msg` if it is addressed from this charger.
    pub fn handle_can_msg(&mut self, msg: RxMsg) -> (r: ControlFlow<()>)
        ensures
            Self::same_charger(*old(self), *final(self)),
            final(self).settled() == old(self).settled(),
            final(self).limits() == old(self).limits(),
            final(self).in_limit() == old(self).in_limit(),
            msg.id == old(self).rx_id() ==> r is Break && (final(self).actual() matches Some(
                (_, (u, i)),
            ) && u@ == msg.payload.deci_volts * 100 && i@ == msg.payload.deci_amps * 100),
            msg.id != old(self).rx_id() ==> r is Continue && final(self).actual() == old(
                self,
            ).actual(),
    {
        let now = now_ticks();
        self.handle_can_msg_at(now, msg)
    }

    /// Whether the charger reported within the last two seconds before `now`.
    pub fn is_online_at(&self, now: u64) -> (r: bool)
        ensures
            r == fresh_value(self.actual(), now) is Some,
    {
        self.out_actual.get_at(now).is_some()
    }

    /// Whether the charger reported within the last two seconds.
    pub fn is_online(&self) -> (r: bool)
        ensures
            exists|t: u64| r == (#[trigger] fresh_value(self.actual(), t)) is Some,
    {
        self.out_actual.get().is_some()
    }

    /// Whether the output current has settled since its limit was last lowered.
    pub fn out_current_settled(&self) -> (r: bool)
        ensures
            r == self.settled(),
    {
        self.current_settled
    }

    /// The output the charger reported, while fresh at `now`.
    pub fn get_actual_out_at(&self, now: u64) -> (r: Option<VoltageCurrent>)
        ensures
            r == fresh_value(self.actual(), now),
    {
        self.out_actual.get_at(now)
    }

    /// The output the charger reported, while fresh.
    pub fn get_actual_out(&self) -> (r: Option<VoltageCurrent>)
        ensures
            exists|t: u64| r == #[trigger] fresh_value(self.actual(), t),
    {
        self.out_actual.get()
    }

    /// The output limits, while fresh at `now`.
    pub fn get_limits_out_at(&self, now: u64) -> (r: Option<VoltageCurrent>)
        ensures
            r == fresh_value(self.limits(), now),
    {
        self.out_limits.get_at(now)
    }

    /// The output limits, while fresh.
    pub fn get_limits_out(&self) -> (r: Option<VoltageCurrent>)
        ensures
            exists|t: u64| r == #[trigger] fresh_value(self.limits(), t),
    {
        self.out_limits.get()
    }

    /// Sets the output limits to `(u, i)` at `now`.
    pub fn update_limits_out_at(&mut self, now: u64, limits: VoltageCurrent)
        ensures
            Self::limits_updated(*old(self), *final(self), now, limits.0, limits.1),
    {
        let (u, i) = limits;
        match self.out_limits.get_at(now) {
            Some((_, old_i)) => {
                if old_i.as_millis() > i.as_millis() {
                    // If current limit has lowered mark the charger as not settled
                    self.current_settled = false;
                }
            },
            None => {},
        }
        self.out_limits.update_at(now, (u, i));
    }

    /// Sets the output limits to `(u, i)`.
    pub fn update_limits_out(&mut self, limits: VoltageCurrent)
        ensures
            exists|t: u64| #[trigger] Self::limits_updated(*old(self), *final(self), t, limits.0, limits.1),
    {
        let now = now_ticks();
        self.update_limits_out_at(now, limits);
    }

    /// Sets the mains current limit to `i` at `now`.
    pub fn update_limits_in_at(&mut self, now: u64, i: Current)
        ensures
            Self::same_charger(*old(self), *final(self)),
            final(self).settled() == old(self).settled(),
            final(self).actual() == old(self).actual(),
            final(self).limits() == old(self).limits(),
            final(self).in_limit() == Some((expiry(now, old(self).max_ages().2), i)),
    {
        self.in_limits.update_at(now, i);
    }

    /// Sets the mains current limit to `i`.
    pub fn update_limits_in(&mut self, i: Current)
        ensures
            Self::same_charger(*old(self), *final(self)),
            final(self).settled() == old(self).settled(),
            final(self).actual() == old(self).actual(),
            final(self).limits() == old(self).limits(),
            exists|t: u64| final(self).in_limit() == Some((#[trigger] expiry(t, old(self).max_ages().2), i)),
    {
        let now = now_ticks();
        self.update_limits_in_at(now, i);
    }

    /// The setpoint message for the output `out_actual` reported at `now`. Reaching the
    /// setpoint current within 1 A marks the current as settled again.
    pub fn ctrl_step_at(&mut self, now: u64, out_actual: Option<VoltageCurrent>) -> (r: TxMsg)
        requires
            old(self).ctrl_fits(now, out_actual),
        ensures
            Self::same_charger(*old(self), *final(self)),
            final(self).actual() == old(self).actual(),
            final(self).limits() == old(self).limits(),
            final(self).in_limit() == old(self).in_limit(),
            r.id == old(self).tx_id(),
            match old(self).ctrl_target(now, out_actual) {
                Some((u, i, settled)) => setpoint_payload(r.payload, u@, i) && final(self).settled()
                    == (old(self).settled() || settled),
                None => setpoint_payload(r.payload, 0, 0) && final(self).settled() == old(
                    self,
                ).settled(),
            },
            match (old(self).ctrl_target(now, out_actual), out_actual) {
                (Some((_, i, _)), Some((_, a))) => final(self).settled() <==> (old(self).settled()
                    || (i - a@ <= 1000 && a@ - i <= 1000)),
                _ => true,
            },
    {
        let mut target: Option<(Voltage, Current, bool)> = None;
        match out_actual {
            Some((act_out_u, act_out_i)) => {
                if act_out_u.as_millis() >= 80000 {
                    match (self.out_limits.get_at(now), self.in_limits.get_at(now)) {
                        (Some((max_out_u, max_out_i)), Some(max_in_i)) => {
                            // Take max current from input side into account
                            let mains = Voltage::from_val(230) * Ratio::from_percent(95);
                            let max_in_p: Power = mains * max_in_i;
                            let max_out_p = max_in_p * Ratio::from_percent(95);
                            let allowed = max_out_p / act_out_u;
                            let max_out_i = if max_out_i.as_millis() < allowed.as_millis() {
                                max_out_i
                            } else {
                                allowed
                            };
                            // Check if the charger already settled to that value
                            let diff = max_out_i - act_out_i;
                            let settled = -1000 <= diff.as_millis() && diff.as_millis() <= 1000;
                            target = Some((max_out_u, max_out_i, settled));
                        },
                        _ => {},
                    }
                }
            },
            None => {},
        }
        let (set_u, set_i) = match target {
            Some((u, i, settled)) => {
                if settled {
                    // Mark the charger settled again
                    self.current_settled = true;
                }
                (u, i)
            },
            // Charger is not ready to charge
            None => (Voltage::zero(), Current::zero()),
        };
        TxMsg { id: self.can_id_tx, payload: TxPayload::new((set_u, set_i)) }
    }

    /// Whether the setpoint for the output `out_actual` at `now` can be computed
    /// without overflow.
    pub fn ctrl_step_fits(&self, now: u64, out_actual: Option<VoltageCurrent>) -> (r: bool)
        ensures
            r == self.ctrl_fits(now, out_actual),
    {
        match out_actual {
            Some((act_out_u, act_out_i)) => {
                if act_out_u.as_millis() < 80000 {
                    return true;
                }
                match (self.out_limits.get_at(now), self.in_limits.get_at(now)) {
                    (Some((_, max_out_i)), Some(max_in_i)) => {
                        let mains = Voltage::from_val(230) * Ratio::from_percent(95);
                        let max_in_p: Power = mains * max_in_i;
                        let max_out_p = max_in_p * Ratio::from_percent(95);
                        let allowed = max_out_p / act_out_u;
                        let i = if max_out_i.as_millis() < allowed.as_millis() {
                            max_out_i
                        } else {
                            allowed
                        };
                        let diff = i.as_millis() as i64 - act_out_i.as_millis() as i64;
                        i32::MIN as i64 <= diff && diff <= i32::MAX as i64
                    },
                    _ => true,
                }
            },
            None => true,
        }
    }

    /// The name of the charger.
    pub fn name(&self) -> (r: &'static str)
        ensures
            r == self.spec_name(),
    {
        self.name
    }

    /// Hands out an observer of the charger's reading, unless two are out already.
    pub fn actual_observer(&mut self) -> (o: Option<VolatileValueObserver<VoltageCurrent>>)
        ensures
            o is Some <==> old(self).observer_counts().0 < 2,
            o matches Some(ob) ==> ob.last_seen() == 0,
            final(self).observer_counts() == if o is Some {
                (old(self).observer_counts().0 + 1, old(self).observer_counts().1, old(
                    self,
                ).observer_counts().2)
            } else {
                old(self).observer_counts()
            },
            final(self).spec_name() == old(self).spec_name() && final(self).rx_id() == old(
                self,
            ).rx_id() && final(self).tx_id() == old(self).tx_id(),
            final(self).settled() == old(self).settled(),
            final(self).actual() == old(self).actual(),
            final(self).limits() == old(self).limits(),
            final(self).in_limit() == old(self).in_limit(),
    {
        self.out_actual.observer()
    }

    /// Takes an observer of the charger's reading back.
    pub fn release_actual_observer(&mut self, observer: VolatileValueObserver<VoltageCurrent>)
        ensures
            final(self).observer_counts() == (
                if old(self).observer_counts().0 > 0 {
                    old(self).observer_counts().0 - 1
                } else {
                    0
                },
                old(self).observer_counts().1,
                old(self).observer_counts().2,
            ),
            final(self).spec_name() == old(self).spec_name() && final(self).rx_id() == old(
                self,
            ).rx_id() && final(self).tx_id() == old(self).tx_id(),
            final(self).settled() == old(self).settled(),
            final(self).actual() == old(self).actual(),
            final(self).limits() == old(self).limits(),
            final(self).in_limit() == old(self).in_limit(),
    {
        self.out_actual.release_observer(observer)
    }

    /// The output last reported together with the instant it expires, if any.
    pub fn actual_out_stamped(&self) -> (r: Option<(u64, VoltageCurrent)>)
        ensures
            r == self.actual(),
    {
        self.out_actual.stamped()
    }

    /// Follows whether the charger is online from the latest change of its reading:
    /// it comes online with a reading and goes offline when the reading expires.
    pub fn online_tracking_step(is_online: &mut bool, out_actual: Option<VoltageCurrent>) -> (r:
        OnlineChange)
        ensures
            *final(is_online) == out_actual is Some,
            r == if !*old(is_online) && out_actual is Some {
                OnlineChange::CameOnline
            } else if *old(is_online) && out_actual is None {
                OnlineChange::WentOffline
            } else {
                OnlineChange::Unchanged
            },
    {
        if !*is_online && out_actual.is_some() {
            *is_online = true;
            OnlineChange::CameOnline
        } else if *is_online && out_actual.is_none() {
            *is_online = false;
            OnlineChange::WentOffline
        } else {
            OnlineChange::Unchanged
        }
    }
}

/// The count of online chargers after `change`: one more when a charger comes online,
/// one fewer (not below zero) when one goes offline. A count never set counts as zero.
pub fn apply_online_change(cnt: Option<usize>, change: OnlineChange) -> (r: Option<usize>)
    requires
        change == OnlineChange::CameOnline ==> cnt.unwrap_or(0) < usize::MAX,
    ensures
        r == match change {
            OnlineChange::CameOnline => Some((cnt.unwrap_or(0) + 1) as usize),
            OnlineChange::WentOffline => Some(
                if cnt.unwrap_or(0) == 0 {
                    0usize
                } else {
                    (cnt.unwrap_or(0) - 1) as usize
                },
            ),
            OnlineChange::Unchanged => cnt,
        },
{
    match change {
        OnlineChange::CameOnline => Some(cnt.unwrap_or(0) + 1),
        OnlineChange::WentOffline => Some(cnt.unwrap_or(0).saturating_sub(1)),
        OnlineChange::Unchanged => cnt,
    }
}

} // verus!
