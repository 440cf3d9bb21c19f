//! The charge control: when to attach the chargers, which limits to hand
//! them, and when to stop and rest.
//!
//! The control is a state machine. Its owner waits for the events that the
//! current phase listens to, hands each one to [`ChargeCtrl::step`], and
//! carries out the action it returns.
use vstd::prelude::*;
use crate::arith::div_trunc;
use crate::physical_values::physical::group_physical;
use crate::physical_values::ratio::{group_ratio, percent_steps};
use crate::physical_values::{power_millis, quotient_millis, Current, Power, Ratio, Voltage};
use crate::zero::state::Mode;

verus! {

broadcast use group_physical, group_ratio;

/// The limits that the rider's settings put on a charge.
#[derive(Clone, Copy, Debug)]
pub struct ChargeLimits {
    /// Stop once the state of charge reaches this.
    pub soc_limit: Option<Ratio>,
    /// Never draw more power than this.
    pub power_limit: Option<Power>,
}

/// A ratio by its steps.
pub open spec fn ratio_steps(r: Option<Ratio>) -> Option<int> {
    match r {
        Some(x) => Some(x@),
        None => None,
    }
}

/// A power by its thousandths of a watt.
pub open spec fn power_value(p: Option<Power>) -> Option<int> {
    match p {
        Some(x) => Some(x@),
        None => None,
    }
}

/// The state-of-charge limit (in steps of 0.01%) for the bike's mode:
/// none when it rides (sport or custom), 60% in eco mode for a long break,
/// and 70% while it sleeps, for the daily commute.
pub open spec fn mode_soc_limit(mode: Option<Mode>) -> Option<int> {
    match mode {
        Some(Mode::Sport) => None,
        Some(Mode::Custom) => None,
        Some(Mode::Eco) => Some(percent_steps(60)),
        None => Some(percent_steps(70)),
    }
}

/// The power limit (in thousandths of a watt) for the bike's mode: none in
/// sport mode, 2200 W in custom mode, and 800 W otherwise.
pub open spec fn mode_power_limit(mode: Option<Mode>) -> Option<int> {
    match mode {
        Some(Mode::Sport) => None,
        Some(Mode::Custom) => Some(2200000),
        Some(Mode::Eco) => Some(800000),
        None => Some(800000),
    }
}

/// The limits that the bike's mode asks for; `None` while the bike sleeps.
pub fn user_limits(mode: Option<Mode>) -> (l: ChargeLimits)
    ensures
        ratio_steps(l.soc_limit) == mode_soc_limit(mode),
        power_value(l.power_limit) == mode_power_limit(mode),
{
    match mode {
        Some(Mode::Sport) => ChargeLimits { soc_limit: None, power_limit: None },
        Some(Mode::Custom) => ChargeLimits {
            soc_limit: None,
            power_limit: Some(Power::from_val(2200)),
        },
        Some(Mode::Eco) => ChargeLimits {
            soc_limit: Some(Ratio::from_percent(60)),
            power_limit: Some(Power::from_val(800)),
        },
        None => ChargeLimits {
            soc_limit: Some(Ratio::from_percent(70)),
            power_limit: Some(Power::from_val(800)),
        },
    }
}

/// Where the charge control stands.
#[derive(Clone, Copy, Debug, PartialEq, Eq, Structural)]
pub enum ChargePhase {
    /// Waiting for a charger to come online.
    WaitChargers,
    /// Chargers are attached; waiting for the bike to enable charging.
    WaitEnable,
    /// Charging: following the pack's limits.
    Charging,
    /// Charging stopped; resting before starting over.
    Resting,
}

/// What the control's owner observed.
#[derive(Clone, Copy, Debug)]
pub enum ChargeEvent {
    /// The number of online chargers changed to this.
    ChargerCount(usize),
    /// The bike's enable line reached this level (`true`: enabled).
    EnableLevel(bool),
    /// The pack reported its charge limits, or stopped reporting them.
    PackLimits(Option<(Voltage, Current)>),
    /// The pack reported its state of charge, or stopped reporting it.
    PackSoc(Option<Ratio>),
    /// The rest after a stop is over.
    RestOver,
}

/// What the control's owner has to do.
#[derive(Clone, Copy, Debug)]
pub enum ChargeAction {
    /// Nothing.
    Nothing,
    /// Assert the charger attach signal.
    Attach,
    /// Hand these output limits to the chargers.
    SetLimits(Voltage, Current),
    /// Set the chargers' limits to zero, release the attach signal and rest
    /// this many seconds.
    Stop { rest_secs: u64 },
}

/// The rest after the pack stopped reporting its limits: 5 minutes.
pub const REST_NO_LIMITS_SECS: u64 = 300;

/// The rest after reaching the state-of-charge limit or losing the enable
/// signal: 7 days.
pub const REST_DONE_SECS: u64 = 604800;

/// The rest after all chargers went offline: 10 seconds.
pub const REST_OFFLINE_SECS: u64 = 10;

/// The charge current (in thousandths of an ampere) for the pack's limits of
/// `u` and `i` thousandths: the pack's current, or with a power limit `p`,
/// the smaller of `p` and the power `u * i`, divided by `u`.
pub open spec fn limited_current(p: Option<int>, u: int, i: int) -> int {
    match p {
        None => i,
        Some(p) => {
            let pack = power_millis(u, i);
            quotient_millis(if p <= pack { p } else { pack }, u)
        },
    }
}

/// The charge current for the pack's limits `(u, i)` under `power_limit`.
pub fn charge_current(power_limit: Option<Power>, u: Voltage, i: Current) -> (r: Current)
    requires
        power_limit is Some ==> u@ != 0,
    ensures
        r@ == limited_current(power_value(power_limit), u@, i@),
{
    match power_limit {
        None => i,
        Some(p) => {
            let pack: Power = u * i;
            let cap = if p.as_millis() <= pack.as_millis() {
                p
            } else {
                pack
            };
            cap / u
        },
    }
}

/// With a power limit, the charge current asks for no more current than the
/// pack allows and for no more power than the limit, for every non-negative
/// power limit, positive pack voltage and non-negative pack current.
pub proof fn lemma_charge_current_within_limits(p: int, u: int, i: int)
    requires
        0 <= p <= i32::MAX,
        0 < u <= i32::MAX,
        0 <= i <= i32::MAX,
    ensures
        limited_current(Some(p), u, i) <= i,
        power_millis(limited_current(Some(p), u, i), u) <= p,
{
    let max = i32::MAX as int;
    let prod = u * i;
    assert(0 <= prod) by (nonlinear_arith)
        requires
            0 < u,
            0 <= i,
            prod == u * i,
    ;
    let pack = power_millis(u, i);
    assert(div_trunc(prod, 1000) == prod / 1000);
    assert(i32::MIN <= pack <= i32::MAX);
    let wraps = prod > 1000 * max;
    if !wraps {
        assert(prod / 1000 <= max);
        assert(pack == prod / 1000);
    } else {
        assert(u > 1000) by (nonlinear_arith)
            requires
                u * i > 1000 * max,
                0 <= i <= max,
                0 < u,
        ;
    }
    let cap = if p <= pack {
        p
    } else {
        pack
    };
    assert(cap <= p);
    assert(i32::MIN <= cap <= i32::MAX);
    if cap >= 0 {
        let q = (cap * 1000) / u;
        assert(div_trunc(cap * 1000, u) == q);
        assert(0 <= q && q * u <= cap * 1000) by (nonlinear_arith)
            requires
                0 < u,
                0 <= cap,
                q == (cap * 1000) / u,
        ;
        if !wraps {
            assert(cap <= prod / 1000);
            assert((prod / 1000) * 1000 <= prod) by (nonlinear_arith)
                requires
                    0 <= prod,
            ;
            assert(q <= i) by (nonlinear_arith)
                requires
                    0 < u,
                    q * u <= cap * 1000,
                    cap * 1000 <= prod,
                    prod == u * i,
            ;
        } else {
            assert(q <= i) by (nonlinear_arith)
                requires
                    0 < u,
                    q * u <= cap * 1000,
                    cap <= max,
                    u * i > 1000 * max,
            ;
        }
        assert(q <= max);
        assert(limited_current(Some(p), u, i) == q);
        assert(0 <= q * u) by (nonlinear_arith)
            requires
                0 < u,
                0 <= q,
        ;
        assert(u * q == q * u) by (nonlinear_arith);
        assert(div_trunc(u * q, 1000) == (q * u) / 1000);
        assert((q * u) / 1000 <= cap) by (nonlinear_arith)
            requires
                0 <= q * u <= cap * 1000,
        ;
        assert(power_millis(u, q) == (q * u) / 1000);
        assert(power_millis(q, u) == power_millis(u, q)) by {
            assert(q * u == u * q) by (nonlinear_arith);
        }
    } else {
        // Only a wrapped pack power is negative, and then the voltage exceeds 1 V.
        assert(wraps);
        let m = ((-cap) * 1000) / u;
        assert(div_trunc(cap * 1000, u) == -m);
        assert(0 <= m && m * u <= (-cap) * 1000) by (nonlinear_arith)
            requires
                0 < u,
                0 < -cap,
                m == ((-cap) * 1000) / u,
        ;
        assert(m <= -cap) by (nonlinear_arith)
            requires
                u > 1000,
                0 <= m,
                m * u <= (-cap) * 1000,
        ;
        let q = -m;
        assert(limited_current(Some(p), u, i) == q);
        assert(q * u == -(m * u)) by (nonlinear_arith)
            requires
                q == -m,
        ;
        assert(q * u == u * q) by (nonlinear_arith);
        assert(0 <= m * u) by (nonlinear_arith)
            requires
                0 < u,
                0 <= m,
        ;
        let n = (m * u) / 1000;
        assert(0 <= n <= -cap) by (nonlinear_arith)
            requires
                0 <= m * u <= (-cap) * 1000,
                n == (m * u) / 1000,
        ;
        assert(div_trunc(q * u, 1000) == -n);
        assert(power_millis(q, u) == -n);
    }
}

/// A transition: the next phase, the limits kept, and the action.
pub struct Transition {
    pub phase: ChargePhase,
    pub soc_limit: Option<int>,
    pub power_limit: Option<int>,
    pub action: ChargeAction,
}

/// Whether `a` is the action `SetLimits(u, i)` with those thousandths.
pub open spec fn sets_limits(a: ChargeAction, u: int, i: int) -> bool {
    a matches ChargeAction::SetLimits(au, ai) && au@ == u && ai@ == i
}

/// Whether `a` is a stop with a rest of `secs` seconds.
pub open spec fn stops_for(a: ChargeAction, secs: u64) -> bool {
    a matches ChargeAction::Stop { rest_secs } && rest_secs == secs
}

/// The transition of the control in `phase`, with the limits `soc` and
/// `power` of the charge under way, on `event`; `user_soc` and `user_power`
/// are the limits the rider's settings ask for when chargers come online.
pub open spec fn transition_ok(
    phase: ChargePhase,
    soc: Option<int>,
    power: Option<int>,
    event: ChargeEvent,
    user_soc: Option<int>,
    user_power: Option<int>,
    t: Transition,
) -> bool {
    let unchanged = t.phase == phase && t.soc_limit == soc && t.power_limit == power;
    let rest = |secs: u64|
        t.phase == ChargePhase::Resting && t.soc_limit == soc && t.power_limit == power
            && stops_for(t.action, secs);
    match phase {
        ChargePhase::WaitChargers => match event {
            ChargeEvent::ChargerCount(n) if n > 0 => t.phase == ChargePhase::WaitEnable
                && t.soc_limit == user_soc && t.power_limit == user_power && t.action
                is Attach,
            _ => unchanged && t.action is Nothing,
        },
        ChargePhase::WaitEnable => match event {
            ChargeEvent::EnableLevel(true) => t.phase == ChargePhase::Charging && t.soc_limit
                == soc && t.power_limit == power && t.action is Nothing,
            _ => unchanged && t.action is Nothing,
        },
        ChargePhase::Charging => match event {
            ChargeEvent::PackLimits(Some((u, i))) => unchanged && sets_limits(
                t.action,
                u@,
                limited_current(power, u@, i@),
            ),
            ChargeEvent::PackLimits(None) => rest(REST_NO_LIMITS_SECS),
            ChargeEvent::PackSoc(Some(s)) => match soc {
                Some(l) if s@ >= l => rest(REST_DONE_SECS),
                _ => unchanged && t.action is Nothing,
            },
            ChargeEvent::EnableLevel(false) => rest(REST_DONE_SECS),
            ChargeEvent::ChargerCount(0) => rest(REST_OFFLINE_SECS),
            _ => unchanged && t.action is Nothing,
        },
        ChargePhase::Resting => match event {
            ChargeEvent::RestOver => t.phase == ChargePhase::WaitChargers && t.soc_limit == soc
                && t.power_limit == power && t.action is Nothing,
            _ => unchanged && t.action is Nothing,
        },
    }
}

/// The rest after the event that ends a charge, if `event` ends one when the
/// charge has the state-of-charge limit `soc`: 5 minutes when the pack stops
/// reporting its limits, 7 days at the limit or when the bike withdraws enable,
/// 10 seconds when no charger is online any more.
pub open spec fn session_end(soc: Option<int>, event: ChargeEvent) -> Option<u64> {
    match event {
        ChargeEvent::PackLimits(None) => Some(REST_NO_LIMITS_SECS),
        ChargeEvent::PackSoc(Some(s)) => match soc {
            Some(l) if s@ >= l => Some(REST_DONE_SECS),
            _ => None,
        },
        ChargeEvent::EnableLevel(false) => Some(REST_DONE_SECS),
        ChargeEvent::ChargerCount(0) => Some(REST_OFFLINE_SECS),
        _ => None,
    }
}

/// A charge ends exactly on the events of [`session_end`], with a stop that rests
/// as long as it says; on every other event it goes on and nothing stops.
pub proof fn lemma_charge_ends_exactly(
    soc: Option<int>,
    power: Option<int>,
    event: ChargeEvent,
    user_soc: Option<int>,
    user_power: Option<int>,
    t: Transition,
)
    requires
        transition_ok(ChargePhase::Charging, soc, power, event, user_soc, user_power, t),
    ensures
        match session_end(soc, event) {
            Some(secs) => t.phase == ChargePhase::Resting && stops_for(t.action, secs),
            None => t.phase == ChargePhase::Charging && !(t.action is Stop),
        },
{
}

/// The order of a charge: the chargers are attached only when one comes online
/// while none was; limits are handed out only while charging; charging begins
/// only when the bike enables it after the attach; the rider's limits are
/// taken over only on the attach, once per charge.
pub proof fn lemma_charge_order(
    phase: ChargePhase,
    soc: Option<int>,
    power: Option<int>,
    event: ChargeEvent,
    user_soc: Option<int>,
    user_power: Option<int>,
    t: Transition,
)
    requires
        transition_ok(phase, soc, power, event, user_soc, user_power, t),
    ensures
        t.action is Attach ==> phase == ChargePhase::WaitChargers && (event matches ChargeEvent::ChargerCount(
            n,
        ) && n > 0) && t.phase == ChargePhase::WaitEnable,
        t.action is SetLimits ==> phase == ChargePhase::Charging && t.phase == ChargePhase::Charging,
        !(t.action is Attach) ==> t.soc_limit == soc && t.power_limit == power,
        t.phase == ChargePhase::Charging && phase != ChargePhase::Charging ==> phase
            == ChargePhase::WaitEnable && (event matches ChargeEvent::EnableLevel(true)),
        t.phase == ChargePhase::WaitChargers ==> phase == ChargePhase::WaitChargers || phase
            == ChargePhase::Resting,
{
}

/// The charge control.
pub struct ChargeCtrl {
    phase: ChargePhase,
    limits: ChargeLimits,
}

impl ChargeCtrl {
    /// The phase the control is in.
    pub closed spec fn spec_phase(&self) -> ChargePhase {
        self.phase
    }

    /// The state-of-charge limit of the charge under way, in steps.
    pub closed spec fn soc_limit(&self) -> Option<int> {
        ratio_steps(self.limits.soc_limit)
    }

    /// The power limit of the charge under way, in thousandths of a watt.
    pub closed spec fn power_limit(&self) -> Option<int> {
        power_value(self.limits.power_limit)
    }

    /// Waiting for chargers, with no limits yet.
    pub fn new() -> (c: Self)
        ensures
            c.spec_phase() == ChargePhase::WaitChargers,
            c.soc_limit() is None,
            c.power_limit() is None,
    {
        ChargeCtrl {
            phase: ChargePhase::WaitChargers,
            limits: ChargeLimits { soc_limit: None, power_limit: None },
        }
    }

    /// The phase the control is in; it tells which events to wait for.
    pub fn phase(&self) -> (p: ChargePhase)
        ensures
            p == self.spec_phase(),
    {
        self.phase
    }

    /// The limits of the charge under way.
    pub fn limits(&self) -> (l: ChargeLimits)
        ensures
            ratio_steps(l.soc_limit) == self.soc_limit(),
            power_value(l.power_limit) == self.power_limit(),
    {
        self.limits
    }

    /// Takes one event and returns what to do. `user` is what the rider's
    /// settings ask for now; it is taken over when chargers come online.
    pub fn step(&mut self, event: ChargeEvent, user: ChargeLimits) -> (action: ChargeAction)
        requires
            old(self).spec_phase() == ChargePhase::Charging && old(self).power_limit() is Some
                ==> !(event matches ChargeEvent::PackLimits(Some((u, _))) && u@ == 0),
        ensures
            transition_ok(
                old(self).spec_phase(),
                old(self).soc_limit(),
                old(self).power_limit(),
                event,
                ratio_steps(user.soc_limit),
                power_value(user.power_limit),
                Transition {
                    phase: final(self).spec_phase(),
                    soc_limit: final(self).soc_limit(),
                    power_limit: final(self).power_limit(),
                    action,
                },
            ),
    {
        match self.phase {
            ChargePhase::WaitChargers => match event {
                ChargeEvent::ChargerCount(n) => {
                    if n > 0 {
                        self.phase = ChargePhase::WaitEnable;
                        self.limits = user;
                        ChargeAction::Attach
                    } else {
                        ChargeAction::Nothing
                    }
                },
                _ => ChargeAction::Nothing,
            },
            ChargePhase::WaitEnable => match event {
                ChargeEvent::EnableLevel(true) => {
                    self.phase = ChargePhase::Charging;
                    ChargeAction::Nothing
                },
                _ => ChargeAction::Nothing,
            },
            ChargePhase::Charging => match event {
                ChargeEvent::PackLimits(Some((u, i))) => {
                    ChargeAction::SetLimits(u, charge_current(self.limits.power_limit, u, i))
                },
                ChargeEvent::PackLimits(None) => self.stop(REST_NO_LIMITS_SECS),
                ChargeEvent::PackSoc(Some(soc)) => match self.limits.soc_limit {
                    Some(limit) => {
                        if soc.as_steps() >= limit.as_steps() {
                            self.stop(REST_DONE_SECS)
                        } else {
                            ChargeAction::Nothing
                        }
                    },
                    None => ChargeAction::Nothing,
                },
                ChargeEvent::EnableLevel(false) => self.stop(REST_DONE_SECS),
                ChargeEvent::ChargerCount(n) => {
                    if n == 0 {
                        self.stop(REST_OFFLINE_SECS)
                    } else {
                        ChargeAction::Nothing
                    }
                },
                _ => ChargeAction::Nothing,
            },
            ChargePhase::Resting => match event {
                ChargeEvent::RestOver => {
                    self.phase = ChargePhase::WaitChargers;
                    ChargeAction::Nothing
                },
                _ => ChargeAction::Nothing,
            },
        }
    }

    /// Stops the charge and rests `secs` seconds.
    fn stop(&mut self, secs: u64) -> (action: ChargeAction)
        ensures
            final(self).spec_phase() == ChargePhase::Resting,
            final(self).limits == old(self).limits,
            stops_for(action, secs),
    {
        self.phase = ChargePhase::Resting;
        ChargeAction::Stop { rest_secs: secs }
    }
}

} // verus!
