//! A pack of chargers that share the output current between them.
use core::ops::ControlFlow;
use vstd::prelude::*;
use crate::arith::div_trunc;
use crate::clock::now_ticks;
use crate::physical_values::physical::{fits_i32, group_physical};
use crate::physical_values::{Current, Voltage};
use crate::volatile_value::{expiry, fresh_value, VolatileValueObserver};
use super::can::{RxMsg, TxMsg, VoltageCurrent};
use super::charger::{apply_online_change, setpoint_payload, OnlineChange, TcCharger};

verus! {

broadcast use group_physical;

/// A pack of `N` chargers.
pub struct TcChargerPack<const N: usize> {
    chargers: [TcCharger; N],
    online_cnt: Option<usize>,
}

/// Whether charger `c` reported recently enough to count as online at `now`.
pub open spec fn online_at(c: TcCharger, now: u64) -> bool {
    fresh_value(c.actual(), now) is Some
}

/// The output limits of `c` that are fresh at `now`.
pub open spec fn cur_limit(c: TcCharger, now: u64) -> Option<VoltageCurrent> {
    fresh_value(c.limits(), now)
}

/// An online charger below its share `per` (mA), or without limits: it has to wait
/// for the others to settle before its current goes up.
pub open spec fn wants_increase(c: TcCharger, now: u64, per: int) -> bool {
    online_at(c, now) && match cur_limit(c, now) {
        Some(l) => l.1@ < per,
        None => true,
    }
}

/// An online charger that is above its share `per` (mA), or has not settled yet.
pub open spec fn blocks_increase(c: TcCharger, now: u64, per: int) -> bool {
    online_at(c, now) && match cur_limit(c, now) {
        Some(l) => l.1@ > per || !c.settled(),
        None => false,
    }
}

/// No charger of `cs` keeps the others from raising their current.
pub open spec fn all_settled(cs: Seq<TcCharger>, now: u64, per: int) -> bool {
    forall|j: int| 0 <= j < cs.len() ==> !blocks_increase(#[trigger] cs[j], now, per)
}

/// The share (mA) of `amps` for each of `online` chargers, rounding towards zero;
/// the count is taken as an `i32`.
pub open spec fn amps_per_charger(amps: int, online: int) -> int {
    if online > 0 {
        div_trunc(amps, (online as i32) as int)
    } else {
        0
    }
}

/// Sharing `amps` among `online` chargers needs no division by zero and gives a
/// share in the range of `i32` thousandths.
pub open spec fn share_defined(amps: int, online: int) -> bool {
    online > 0 ==> (online as i32) != 0 && fits_i32(div_trunc(amps, (online as i32) as int))
}

/// How one charger's limits change when the pack is given `volts` and a share of `per`
/// mA at `now`: an offline charger is set to zero, so that it does not start with old
/// limits; a charger that wants more current gets its share only when `settled`;
/// every other online charger gets its share (a decrease, or a refresh of the voltage).
pub open spec fn out_limits_split(
    old: TcCharger,
    new: TcCharger,
    now: u64,
    volts: Voltage,
    per: int,
    settled: bool,
) -> bool {
    if !online_at(old, now) {
        TcCharger::limits_updated(
            old,
            new,
            now,
            Voltage::spec_from_millis(0),
            Current::spec_from_millis(0),
        )
    } else if wants_increase(old, now, per) && !settled {
        new == old
    } else {
        TcCharger::limits_updated(old, new, now, volts, Current::spec_from_millis(per))
    }
}

/// Every charger of `cs` has the mains current limit `i`, set at the tick `now`.
pub open spec fn all_in_limits(cs: Seq<TcCharger>, i: Current, now: u64) -> bool {
    forall|j: int|
        0 <= j < cs.len() ==> (#[trigger] cs[j]).in_limit() == Some((expiry(now, cs[j].max_ages().2), i))
}

/// `new` is `old` after sharing `amps` at `volts` among `online` chargers at `now`.
pub open spec fn limits_shared(
    old: Seq<TcCharger>,
    new: Seq<TcCharger>,
    now: u64,
    volts: Voltage,
    amps: Current,
    online: Option<usize>,
) -> bool {
    let per = amps_per_charger(amps@, online.unwrap_or(0) as int);
    &&& new.len() == old.len()
    &&& forall|j: int|
        0 <= j < old.len() ==> out_limits_split(
            old[j],
            #[trigger] new[j],
            now,
            volts,
            per,
            all_settled(old, now, per),
        )
}

/// The shares of a non-negative total current for `online` chargers add up to at
/// most the total.
pub proof fn lemma_shares_within_total(amps: int, online: int)
    requires
        amps >= 0,
        1 <= online <= i32::MAX,
    ensures
        online * amps_per_charger(amps, online) <= amps,
{
    assert(online * (amps / online) <= amps) by (nonlinear_arith)
        requires
            amps >= 0,
            online >= 1,
    ;
}

/// While some online charger is above its share or has not settled, sharing never
/// raises the current limit of an online charger: it keeps its limits, or gets a share
/// no larger than its fresh limit.
pub proof fn lemma_no_raise_while_unsettled(
    old: Seq<TcCharger>,
    new: Seq<TcCharger>,
    now: u64,
    volts: Voltage,
    amps: Current,
    online: Option<usize>,
)
    requires
        share_defined(amps@, online.unwrap_or(0) as int),
        limits_shared(old, new, now, volts, amps, online),
        !all_settled(old, now, amps_per_charger(amps@, online.unwrap_or(0) as int)),
    ensures
        forall|j: int|
            0 <= j < old.len() && online_at(old[j], now) ==> #[trigger] new[j] == old[j] || (
            cur_limit(old[j], now) matches Some(l) && new[j].limits() matches Some((_, (_, i)))
                && i@ <= l.1@),
{
    let per = amps_per_charger(amps@, online.unwrap_or(0) as int);
    crate::physical_values::physical::lemma_physical_view(amps);
    assert forall|j: int|
        0 <= j < old.len() && online_at(old[j], now) implies #[trigger] new[j] == old[j] || (
        cur_limit(old[j], now) matches Some(l) && new[j].limits() matches Some((_, (_, i)))
            && i@ <= l.1@) by {
        assert(out_limits_split(old[j], new[j], now, volts, per, false));
        if !wants_increase(old[j], now, per) {
            crate::physical_values::physical::lemma_spec_from_millis::<crate::physical_values::units::Ampere>(per);
        }
    }
}

/// The index of the first charger of `cs` that reports with `id`, or the length of `cs`.
pub open spec fn first_with_rx(cs: Seq<TcCharger>, id: u32) -> int
    decreases cs.len(),
{
    if cs.len() == 0 {
        0
    } else if cs[0].rx_id() == id {
        0
    } else {
        1 + first_with_rx(cs.drop_first(), id)
    }
}

proof fn lemma_first_with_rx(cs: Seq<TcCharger>, id: u32)
    ensures
        0 <= first_with_rx(cs, id) <= cs.len(),
        first_with_rx(cs, id) < cs.len() ==> cs[first_with_rx(cs, id)].rx_id() == id,
        forall|j: int| 0 <= j < first_with_rx(cs, id) ==> (#[trigger] cs[j]).rx_id() != id,
    decreases cs.len(),
{
    if cs.len() > 0 && cs[0].rx_id() != id {
        lemma_first_with_rx(cs.drop_first(), id);
        assert forall|j: int| 0 <= j < first_with_rx(cs, id) implies (#[trigger] cs[j]).rx_id()
            != id by {
            if j > 0 {
                assert(cs[j] == cs.drop_first()[j - 1]);
            }
        }
    }
}

impl TcChargerPack<3> {
    /// The three chargers of the bike.
    pub fn default_pack() -> (r: Self)
        ensures
            r.online_count() is None,
            forall|j: int| 0 <= j < 3 ==> #[trigger] r.chargers_view()[j].actual() is None,
            r.chargers_view()[0].rx_id() == 0x18FF50E8 && r.chargers_view()[0].tx_id()
                == 0x1806E8F4,
            r.chargers_view()[1].rx_id() == 0x18FF50E7 && r.chargers_view()[1].tx_id()
                == 0x1806E7F4,
            r.chargers_view()[2].rx_id() == 0x18FF50E5 && r.chargers_view()[2].tx_id()
                == 0x1806E5F4,
    {
        Self::new(
            [
                TcCharger::new("CAN997", 0x18FF50E8, 0x1806E8F4),
                TcCharger::new("CAN998", 0x18FF50E7, 0x1806E7F4),
                TcCharger::new("CAN1430", 0x18FF50E5, 0x1806E5F4),
            ],
        )
    }
}

/// `new` is the chargers `old` after the status `msg` arrived at `now`: the first
/// charger that reports with the message's id, if any, takes the reading, which
/// lasts 2 s; every other charger stays as it was.
pub open spec fn status_taken(old: Seq<TcCharger>, new: Seq<TcCharger>, now: u64, msg: RxMsg) -> bool {
    let k = first_with_rx(old, msg.id);
    &&& new.len() == old.len()
    &&& forall|j: int| 0 <= j < old.len() && j != k ==> #[trigger] new[j] == old[j]
    &&& k < old.len() ==> {
        let (o, n) = (old[k], new[k]);
        &&& n.rx_id() == o.rx_id() && n.tx_id() == o.tx_id() && n.spec_name() == o.spec_name()
        &&& n.settled() == o.settled() && n.limits() == o.limits() && n.in_limit() == o.in_limit()
        &&& n.actual() matches Some((d, (u, i))) && d == expiry(now, o.max_ages().0) && u@
            == msg.payload.deci_volts * 100 && i@ == msg.payload.deci_amps * 100
    }
}

impl<const N: usize> TcChargerPack<N> {
    /// The chargers of the pack.
    pub closed spec fn chargers_view(&self) -> Seq<TcCharger> {
        self.chargers@
    }

    /// How many chargers are online, as last counted.
    pub closed spec fn online_count(&self) -> Option<usize> {
        self.online_cnt
    }

    /// A pack of `chargers`, none counted online yet.
    pub fn new(chargers: [TcCharger; N]) -> (r: Self)
        ensures
            r.chargers_view() == chargers@,
            r.online_count() is None,
    {
        Self { chargers, online_cnt: None }
    }

    /// The chargers of the pack.
    pub fn chargers(&self) -> (r: &[TcCharger; N])
        ensures
            r@ == self.chargers_view(),
    {
        &self.chargers
    }

    /// How many chargers are online, as last counted.
    pub fn online_cnt(&self) -> (r: Option<usize>)
        ensures
            r == self.online_count(),
    {
        self.online_cnt
    }

    /// Counts a charger coming online or going offline.
    pub fn note_online_change(&mut self, change: OnlineChange)
        requires
            change == OnlineChange::CameOnline ==> old(self).online_count().unwrap_or(0)
                < usize::MAX,
        ensures
            final(self).chargers_view() == old(self).chargers_view(),
            final(self).online_count() == match change {
                OnlineChange::CameOnline => Some((old(self).online_count().unwrap_or(0) + 1) as usize),
                OnlineChange::WentOffline => Some(
                    if old(self).online_count().unwrap_or(0) == 0 {
                        0usize
                    } else {
                        (old(self).online_count().unwrap_or(0) - 1) as usize
                    },
                ),
                OnlineChange::Unchanged => old(self).online_count(),
            },
    {
        self.online_cnt = apply_online_change(self.online_cnt, change);
    }

    /// The setpoint message of charger `idx` for the output `out_actual` it reported,
    /// at `now`; see [`TcCharger::ctrl_step_at`]. The other chargers stay as they are.
    pub fn ctrl_step_at(&mut self, idx: usize, now: u64, out_actual: Option<VoltageCurrent>) -> (r:
        TxMsg)
        requires
            idx < N,
            old(self).chargers_view()[idx as int].ctrl_fits(now, out_actual),
        ensures
            final(self).online_count() == old(self).online_count(),
            final(self).chargers_view().len() == N,
            forall|j: int|
                0 <= j < N && j != idx ==> #[trigger] final(self).chargers_view()[j] == old(
                    self,
                ).chargers_view()[j],
            ({
                let (o, n) = (old(self).chargers_view()[idx as int], final(self).chargers_view()[idx as int]);
                &&& TcCharger::same_charger(o, n)
                &&& n.actual() == o.actual()
                &&& n.limits() == o.limits()
                &&& n.in_limit() == o.in_limit()
                &&& r.id == o.tx_id()
                &&& match o.ctrl_target(now, out_actual) {
                    Some((u, i, settled)) => setpoint_payload(r.payload, u@, i) && n.settled() == (
                    o.settled() || settled),
                    None => setpoint_payload(r.payload, 0, 0) && n.settled() == o.settled(),
                }
            }),
    {
        self.chargers[idx].ctrl_step_at(now, out_actual)
    }

    /// Hands out an observer of charger `idx`'s reading, unless two are out already;
    /// see [`TcCharger::actual_observer`]. The other chargers stay as they are.
    pub fn actual_observer(&mut self, idx: usize) -> (o: Option<VolatileValueObserver<VoltageCurrent>>)
        requires
            idx < N,
        ensures
            final(self).online_count() == old(self).online_count(),
            final(self).chargers_view().len() == N,
            forall|j: int|
                0 <= j < N && j != idx ==> #[trigger] final(self).chargers_view()[j] == old(
                    self,
                ).chargers_view()[j],
            ({
                let (c, n) = (old(self).chargers_view()[idx as int], final(self).chargers_view()[idx as int]);
                &&& o is Some <==> c.observer_counts().0 < 2
                &&& o matches Some(ob) ==> ob.last_seen() == 0
                &&& n.observer_counts() == if o is Some {
                    (c.observer_counts().0 + 1, c.observer_counts().1, c.observer_counts().2)
                } else {
                    c.observer_counts()
                }
                &&& n.spec_name() == c.spec_name() && n.rx_id() == c.rx_id() && n.tx_id() == c.tx_id()
                &&& n.settled() == c.settled() && n.actual() == c.actual() && n.limits() == c.limits()
                &&& n.in_limit() == c.in_limit()
            }),
    {
        self.chargers[idx].actual_observer()
    }

    /// Takes an observer of charger `idx`'s reading back. The other chargers stay as
    /// they are.
    pub fn release_actual_observer(&mut self, idx: usize, observer: VolatileValueObserver<VoltageCurrent>)
        requires
            idx < N,
        ensures
            final(self).online_count() == old(self).online_count(),
            final(self).chargers_view().len() == N,
            forall|j: int|
                0 <= j < N && j != idx ==> #[trigger] final(self).chargers_view()[j] == old(
                    self,
                ).chargers_view()[j],
            ({
                let (c, n) = (old(self).chargers_view()[idx as int], final(self).chargers_view()[idx as int]);
                &&& n.observer_counts() == (
                    if c.observer_counts().0 > 0 {
                        c.observer_counts().0 - 1
                    } else {
                        0
                    },
                    c.observer_counts().1,
                    c.observer_counts().2,
                )
                &&& n.spec_name() == c.spec_name() && n.rx_id() == c.rx_id() && n.tx_id() == c.tx_id()
                &&& n.settled() == c.settled() && n.actual() == c.actual() && n.limits() == c.limits()
                &&& n.in_limit() == c.in_limit()
            }),
    {
        self.chargers[idx].release_actual_observer(observer)
    }

    /// Hands the status `msg` received at `now` to the first charger that reports with its id.
    pub fn handle_can_msg_at(&mut self, now: u64, msg: RxMsg)
        ensures
            final(self).online_count() == old(self).online_count(),
            final(self).chargers_view().len() == N,
            status_taken(old(self).chargers_view(), final(self).chargers_view(), now, msg),
            ({
                let k = first_with_rx(old(self).chargers_view(), msg.id);
                &&& forall|j: int|
                    0 <= j < N && j != k ==> #[trigger] final(self).chargers_view()[j] == old(
                        self,
                    ).chargers_view()[j]
                &&& k < N ==> {
                    let (o, n) = (old(self).chargers_view()[k], final(self).chargers_view()[k]);
                    &&& n.rx_id() == o.rx_id() && n.tx_id() == o.tx_id() && n.spec_name()
                        == o.spec_name()
                    &&& n.settled() == o.settled() && n.limits() == o.limits() && n.in_limit()
                        == o.in_limit()
                    &&& n.actual() matches Some((d, (u, i))) && d == expiry(now, o.max_ages().0) && u@
                        == msg.payload.deci_volts * 100 && i@ == msg.payload.deci_amps * 100
                }
            }),
    {
        proof {
            lemma_first_with_rx(self.chargers@, msg.id);
        }
        let ghost k = first_with_rx(self.chargers@, msg.id);
        let mut i: usize = 0;
        while i < N
            invariant
                i <= N,
                i <= k,
                k == first_with_rx(old(self).chargers@, msg.id),
                0 <= k <= N,
                self.online_cnt == old(self).online_cnt,
                self.chargers@ == old(self).chargers@,
                forall|j: int| 0 <= j < k ==> (#[trigger] old(self).chargers@[j]).rx_id() != msg.id,
                k < N ==> old(self).chargers@[k].rx_id() == msg.id,
            decreases N - i,
        {
            let ghost before = self.chargers@[i as int];
            let r = self.chargers[i].handle_can_msg_at(now, msg);
            match r {
                ControlFlow::Break(()) => {
                    assert(i == k);
                    return;
                },
                ControlFlow::Continue(()) => {},
            }
            assert(self.chargers@[i as int] == before);
            i += 1;
        }
    }

    /// Hands the status `msg` to the first charger that reports with its id.
    pub fn handle_can_msg(&mut self, msg: RxMsg)
        ensures
            final(self).online_count() == old(self).online_count(),
            exists|t: u64|
                #[trigger] status_taken(old(self).chargers_view(), final(self).chargers_view(), t, msg),
    {
        let now = now_ticks();
        self.handle_can_msg_at(now, msg);
    }

    /// Limits the mains current of each charger to `amps` at `now`.
    /// The limit has to be renewed within the 5 s it lasts.
    pub fn update_mains_limits_per_charger_at(&mut self, now: u64, amps: Current)
        ensures
            final(self).online_count() == old(self).online_count(),
            final(self).chargers_view().len() == N,
            forall|j: int|
                #![trigger final(self).chargers_view()[j]]
                0 <= j < N ==> {
                    let o = old(self).chargers_view()[j];
                    let n = final(self).chargers_view()[j];
                    &&& n.rx_id() == o.rx_id() && n.tx_id() == o.tx_id() && n.spec_name()
                        == o.spec_name()
                    &&& n.settled() == o.settled() && n.actual() == o.actual() && n.limits()
                        == o.limits()
                    &&& n.in_limit() == Some((expiry(now, o.max_ages().2), amps)) && n.max_ages() == o.max_ages()
                },
    {
        let mut i: usize = 0;
        while i < N
            invariant
                i <= N,
                self.online_cnt == old(self).online_cnt,
                self.chargers@.len() == N,
                forall|j: int|
                    #![trigger self.chargers@[j]]
                    0 <= j < i ==> {
                        let o = old(self).chargers@[j];
                        let n = self.chargers@[j];
                        &&& n.rx_id() == o.rx_id() && n.tx_id() == o.tx_id() && n.spec_name()
                            == o.spec_name()
                        &&& n.settled() == o.settled() && n.actual() == o.actual() && n.limits()
                            == o.limits()
                        &&& n.in_limit() == Some((expiry(now, o.max_ages().2), amps)) && n.max_ages() == o.max_ages()
                    },
                forall|j: int| i <= j < N ==> #[trigger] self.chargers@[j] == old(self).chargers@[j],
            decreases N - i,
        {
            self.chargers[i].update_limits_in_at(now, amps);
            i += 1;
        }
    }

    /// Limits the mains current of each charger to `amps`.
    pub fn update_mains_limits_per_charger(&mut self, amps: Current)
        ensures
            final(self).online_count() == old(self).online_count(),
            final(self).chargers_view().len() == N,
            forall|j: int|
                #![trigger final(self).chargers_view()[j]]
                0 <= j < N ==> {
                    let o = old(self).chargers_view()[j];
                    let n = final(self).chargers_view()[j];
                    &&& n.rx_id() == o.rx_id() && n.tx_id() == o.tx_id() && n.spec_name()
                        == o.spec_name()
                    &&& n.settled() == o.settled() && n.actual() == o.actual() && n.limits()
                        == o.limits()
                },
            exists|t: u64| #[trigger] all_in_limits(final(self).chargers_view(), amps, t),
    {
        let now = now_ticks();
        self.update_mains_limits_per_charger_at(now, amps);
        assert(all_in_limits(self.chargers_view(), amps, now));
    }

    /// Shares the output current `amps` at `volts` among the online chargers at `now`.
    /// Each online charger's share is `amps` divided by the count of online chargers.
    /// Offline chargers are set to zero. Chargers above their share are lowered at once;
    /// chargers below it, or without limits, get their share only when every online
    /// charger has settled: so the sum of the currents never exceeds `amps` while
    /// chargers are still lowering theirs. The limits have to be renewed within 5 s.
    pub fn update_out_limits_at(&mut self, now: u64, volts: Voltage, amps: Current)
        requires
            share_defined(amps@, old(self).online_count().unwrap_or(0) as int),
        ensures
            final(self).online_count() == old(self).online_count(),
            final(self).chargers_view().len() == N,
            ({
                let per = amps_per_charger(amps@, old(self).online_count().unwrap_or(0) as int);
                let settled = all_settled(old(self).chargers_view(), now, per);
                forall|j: int|
                    0 <= j < N ==> out_limits_split(
                        old(self).chargers_view()[j],
                        #[trigger] final(self).chargers_view()[j],
                        now,
                        volts,
                        per,
                        settled,
                    )
            }),
    {
        // Count how many chargers are active
        let online_chargers: usize = match self.online_cnt {
            Some(c) => c,
            None => 0,
        };
        let ghost per = amps_per_charger(amps@, online_chargers as int);
        let ghost old_cs = self.chargers@;

        // Calc setpoint current
        let amps_per_charger = if online_chargers > 0 {
            assert(online_chargers as int == old(self).online_count().unwrap_or(0));
            proof {
                crate::physical_values::physical::lemma_physical_view(amps);
            }
            let r = amps.div_by(online_chargers);
            assert(r@ == div_trunc(amps@, (online_chargers as i32) as int));
            r
        } else {
            Current::zero()
        };
        assert(amps_per_charger@ == per);
        let per_charger: VoltageCurrent = (volts, amps_per_charger);
        let zero: VoltageCurrent = (Voltage::zero(), Current::zero());
        proof {
            crate::physical_values::physical::lemma_physical_ext(
                amps_per_charger,
                Current::spec_from_millis(per),
            );
            crate::physical_values::physical::lemma_physical_ext(
                zero.0,
                Voltage::spec_from_millis(0),
            );
            crate::physical_values::physical::lemma_physical_ext(
                zero.1,
                Current::spec_from_millis(0),
            );
        }

        let mut chargers_settled = true;
        let mut increase: Vec<usize> = Vec::new();
        let mut i: usize = 0;
        while i < N
            invariant
                i <= N,
                self.online_cnt == old(self).online_cnt,
                old_cs == old(self).chargers@,
                self.chargers@.len() == N,
                per_charger == (volts, Current::spec_from_millis(per)),
                zero == (Voltage::spec_from_millis(0), Current::spec_from_millis(0)),
                amps_per_charger@ == per,
                forall|j: int|
                    0 <= j < i ==> out_limits_split(
                        old_cs[j],
                        #[trigger] self.chargers@[j],
                        now,
                        volts,
                        per,
                        false,
                    ),
                forall|j: int| i <= j < N ==> #[trigger] self.chargers@[j] == old_cs[j],
                chargers_settled == forall|j: int|
                    0 <= j < i ==> !blocks_increase(#[trigger] old_cs[j], now, per),
                forall|k: int|
                    0 <= k < increase@.len() ==> #[trigger] increase@[k] < i && wants_increase(
                        old_cs[increase@[k] as int],
                        now,
                        per,
                    ),
                forall|j: int| 0 <= j < i && wants_increase(#[trigger] old_cs[j], now, per) ==> increase@.contains(j as usize),
                forall|a: int, b: int|
                    0 <= a < b < increase@.len() ==> #[trigger] increase@[a] < #[trigger] increase@[b],
            decreases N - i,
        {
            let ghost before = increase@;
            if !self.chargers[i].is_online_at(now) {
                // If the charger isn't active make sure it won't start
                // charging when it comes back.
                self.chargers[i].update_limits_out_at(now, zero);
            } else {
                match self.chargers[i].get_limits_out_at(now) {
                    Some((_, cur_max_amps)) => {
                        if cur_max_amps.as_millis() > amps_per_charger.as_millis() {
                            // The charger is asked to reduce output current
                            self.chargers[i].update_limits_out_at(now, per_charger);
                        } else if cur_max_amps.as_millis() < amps_per_charger.as_millis() {
                            // Defer increasing currents until all chargers settled
                            increase.push(i);
                        } else {
                            // Make sure the voltage is up-to-date!
                            self.chargers[i].update_limits_out_at(now, per_charger);
                        }
                        // Look if the charger settled to its setpoint
                        chargers_settled = chargers_settled && self.chargers[i].out_current_settled();
                    },
                    None => {
                        // The charger doesn't have a setpoint yet
                        increase.push(i);
                    },
                }
            }
            proof {
                assert forall|j: int| 0 <= j < i + 1 && wants_increase(#[trigger] old_cs[j], now, per) implies increase@.contains(j as usize) by {
                    if j < i {
                        assert(before.contains(j as usize));
                        let w = choose|w: int| 0 <= w < before.len() && before[w] == j as usize;
                        assert(increase@[w] == j as usize);
                    } else {
                        assert(increase@[increase@.len() - 1] == i);
                    }
                }
            }
            i += 1;
        }

        // Only increase currents if all other chargers settled to their setpoint.
        if chargers_settled {
            let ghost mid = self.chargers@;
            let mut k: usize = 0;
            while k < increase.len()
                invariant
                    k <= increase@.len(),
                    self.online_cnt == old(self).online_cnt,
                    self.chargers@.len() == N,
                    per_charger == (volts, Current::spec_from_millis(per)),
                    forall|q: int| 0 <= q < increase@.len() ==> #[trigger] increase@[q] < N && wants_increase(
                        old_cs[increase@[q] as int],
                        now,
                        per,
                    ),
                    forall|a: int, b: int|
                        0 <= a < b < increase@.len() ==> #[trigger] increase@[a] < #[trigger] increase@[b],
                    forall|j: int|
                        0 <= j < N ==> mid[j] == old_cs[j] || !wants_increase(old_cs[j], now, per) || !online_at(old_cs[j], now),
                    forall|j: int|
                        0 <= j < N ==> {
                            if exists|q: int| 0 <= q < k && increase@[q] == j {
                                TcCharger::limits_updated(
                                    old_cs[j],
                                    #[trigger] self.chargers@[j],
                                    now,
                                    volts,
                                    Current::spec_from_millis(per),
                                )
                            } else {
                                self.chargers@[j] == mid[j]
                            }
                        },
                decreases increase@.len() - k,
            {
                let idx = increase[k];
                self.chargers[idx].update_limits_out_at(now, per_charger);
                k += 1;
            }
        }
    }

    /// Shares the output current `amps` at `volts` among the online chargers now.
    pub fn update_out_limits(&mut self, volts: Voltage, amps: Current)
        requires
            share_defined(amps@, old(self).online_count().unwrap_or(0) as int),
        ensures
            final(self).online_count() == old(self).online_count(),
            exists|t: u64| #[trigger] limits_shared(old(self).chargers_view(), final(self).chargers_view(), t, volts, amps, old(self).online_count()),
    {
        let now = now_ticks();
        self.update_out_limits_at(now, volts, amps);
        assert(limits_shared(old(self).chargers_view(), self.chargers_view(), now, volts, amps, old(self).online_count()));
    }
}

} // verus!
