//! The charging station (EVSE): the current it offers, read from its PWM signal.
use vstd::prelude::*;
use crate::arith::sat_i32;
use crate::physical_values::physical::{frac_millis, group_physical};
use crate::physical_values::ratio::{group_ratio, permill_steps, RATIO_MAX};
use crate::physical_values::{Current, Frequency, Ratio};

verus! {

broadcast use group_physical, group_ratio;

/// The number of duty cycle samples kept per reading.
pub const SAMPLES: usize = 32;

/// Duty cycle samples in per mill, kept in a `heapless::Vec` of capacity 32.
#[verifier::external_body]
pub struct DutySamples {
    samples: heapless::Vec<u16, 32>,
}

/// The samples held, oldest first.
pub uninterp spec fn duty_samples(s: DutySamples) -> Seq<u16>;

/// `heapless::Vec::new()`: an empty vector.
#[verifier::external_body]
fn samples_new() -> (r: DutySamples)
    ensures
        duty_samples(r) == Seq::<u16>::empty(),
{
    DutySamples { samples: heapless::Vec::new() }
}

/// `heapless::Vec::push(item)`: appends `item` while fewer than the capacity (32) are
/// held, and returns it back (here: `false`) when the vector is full.
#[verifier::external_body]
fn samples_push(s: &mut DutySamples, item: u16) -> (r: bool)
    ensures
        duty_samples(*old(s)).len() < SAMPLES ==> r && duty_samples(*final(s)) == duty_samples(
            *old(s),
        ).push(item),
        duty_samples(*old(s)).len() >= SAMPLES ==> !r && duty_samples(*final(s)) == duty_samples(
            *old(s),
        ),
{
    s.samples.push(item).is_ok()
}

/// `heapless::Vec::len()`: the number of samples held, at most the capacity.
#[verifier::external_body]
fn samples_len(s: &DutySamples) -> (r: usize)
    ensures
        r == duty_samples(*s).len(),
        r <= SAMPLES,
{
    s.samples.len()
}

/// Indexing a `heapless::Vec` (through its slice): the sample at `i`.
#[verifier::external_body]
fn samples_get(s: &DutySamples, i: usize) -> (r: u16)
    requires
        i < duty_samples(*s).len(),
    ensures
        r == duty_samples(*s)[i as int],
{
    s.samples[i]
}

/// The sum of `s`.
pub open spec fn seq_sum(s: Seq<u16>) -> int
    decreases s.len(),
{
    if s.len() == 0 {
        0
    } else {
        seq_sum(s.drop_last()) + s.last()
    }
}

proof fn lemma_seq_sum_bound(s: Seq<u16>, bound: int)
    requires
        forall|i: int| 0 <= i < s.len() ==> s[i] <= bound,
        bound >= 0,
    ensures
        0 <= seq_sum(s) <= s.len() * bound,
    decreases s.len(),
{
    if s.len() > 0 {
        lemma_seq_sum_bound(s.drop_last(), bound);
        assert(s.drop_last().len() * bound + bound == s.len() * bound) by (nonlinear_arith)
            requires
                s.drop_last().len() + 1 == s.len(),
        ;
    }
}

/// The PWM frequency of the station, 1 kHz, in thousandths of a hertz.
pub open spec fn evse_freq_millis() -> int {
    1000000
}

/// Whether a frequency (in thousandths of a hertz) lies within 1% of 1 kHz:
/// from 990 Hz up to, not including, 1010 Hz.
pub open spec fn freq_expected(f: int) -> bool {
    let diff = frac_millis(evse_freq_millis(), 100, RATIO_MAX as int);
    evse_freq_millis() - diff <= f < evse_freq_millis() + diff
}

/// The duty cycle samples of one reading of the station's signal.
pub struct PwmSampler {
    samples: DutySamples,
}

impl PwmSampler {
    /// The samples kept, in per mill, oldest first.
    pub closed spec fn kept(&self) -> Seq<u16> {
        duty_samples(self.samples)
    }

    /// No samples yet.
    pub fn new() -> (r: Self)
        ensures
            r.kept() == Seq::<u16>::empty(),
    {
        Self { samples: samples_new() }
    }

    /// Takes a measurement: its duty cycle is kept when the frequency is within 1% of
    /// 1 kHz and fewer than 32 samples are kept.
    pub fn add(&mut self, sample: Option<(Frequency, Ratio)>)
        requires
            forall|i: int| 0 <= i < old(self).kept().len() ==> old(self).kept()[i] <= 1000,
        ensures
            forall|i: int| 0 <= i < final(self).kept().len() ==> final(self).kept()[i] <= 1000,
            match sample {
                Some((freq, duty)) => if freq_expected(freq@) && old(self).kept().len() < SAMPLES {
                    final(self).kept() == old(self).kept().push((duty@ / 10) as u16)
                } else {
                    final(self).kept() == old(self).kept()
                },
                None => final(self).kept() == old(self).kept(),
            },
    {
        match sample {
            Some((freq, duty)) => {
                let expected_freq = Frequency::from_val(1000).as_range(Ratio::from_percent(1));
                if expected_freq.start.as_millis() <= freq.as_millis() && freq.as_millis()
                    < expected_freq.end.as_millis() {
                    let permill = duty.as_permill();
                    let ghost before = self.kept();
                    let _ = samples_push(&mut self.samples, permill);
                    assert forall|i: int| 0 <= i < self.kept().len() implies self.kept()[i] <= 1000 by {
                        if i < before.len() {
                            assert(self.kept()[i] == before[i]);
                        }
                    }
                }
            },
            None => {},
        }
    }

    /// The mean of the kept duty cycles (rounded down), or `None` without samples.
    pub fn average(&self) -> (r: Option<Ratio>)
        requires
            forall|i: int| 0 <= i < self.kept().len() ==> self.kept()[i] <= 1000,
        ensures
            self.kept().len() == 0 <==> r is None,
            r matches Some(d) ==> d@ == permill_steps(seq_sum(self.kept()) / self.kept().len() as int),
    {
        let len = samples_len(&self.samples);
        if len == 0 {
            return None;
        }
        let mut acc: u32 = 0;
        let mut i: usize = 0;
        while i < len
            invariant
                i <= len,
                len == self.kept().len(),
                len <= SAMPLES,
                forall|k: int| 0 <= k < self.kept().len() ==> self.kept()[k] <= 1000,
                acc == seq_sum(self.kept().take(i as int)),
                acc <= i * 1000,
            decreases len - i,
        {
            assert(self.kept().take(i + 1).drop_last() == self.kept().take(i as int));
            acc = acc + samples_get(&self.samples, i) as u32;
            i += 1;
        }
        assert(self.kept().take(len as int) == self.kept());
        let mean: u32 = acc / len as u32;
        assert(mean <= 1000) by (nonlinear_arith)
            requires
                mean == acc as int / len as int,
                acc <= len * 1000,
                len >= 1,
        ;
        Some(Ratio::from_permill(mean as u16))
    }
}

/// The current (mA) the station offers at a duty cycle of `percent` percent
/// (IEC 61851): 6 A from 8%, 0.6 A per percent from 10%, 2.5 A per percent above 64%
/// from 85%, 80 A at 96%, and nothing otherwise.
pub open spec fn duty_current_millis(percent: int) -> int {
    if 8 <= percent < 10 {
        6000
    } else if 10 <= percent < 85 {
        percent * 600
    } else if 85 <= percent < 96 {
        (percent - 64) * 2500
    } else if 96 <= percent < 97 {
        80000
    } else {
        0
    }
}

/// The current the station offers at the duty cycle `duty`.
pub fn max_current_for_duty(duty: Ratio) -> (r: Current)
    ensures
        r@ == duty_current_millis(duty@ / 100),
{
    let percent = duty.as_percent();
    if 8 <= percent && percent < 10 {
        Current::from_val(6)
    } else if 10 <= percent && percent < 85 {
        Current::from_millis(percent as i32 * 600)
    } else if 85 <= percent && percent < 96 {
        Current::from_millis((percent - 64) as i32 * 2500)
    } else if 96 <= percent && percent < 97 {
        Current::from_val(80)
    } else {
        Current::from_val(0)
    }
}

/// The mains current limit and the ready signal for a reading of the station: the
/// offered current, ready when it is more than nothing; without a reading the
/// `default` current, not ready.
pub fn mains_limit(duty: Option<Ratio>, default: Current) -> (r: (Current, bool))
    ensures
        match duty {
            Some(d) => r.0@ == duty_current_millis(d@ / 100) && r.1 == (r.0@ > 0),
            None => r.0 == default && !r.1,
        },
{
    match duty {
        Some(duty) => {
            let max_current = max_current_for_duty(duty);
            (max_current, max_current.as_millis() > 0)
        },
        None => (default, false),
    }
}

/// The frequency and duty cycle of a PWM period of `period` timer ticks, high for
/// `width` ticks, with a timer running at `timer_hz`: the duty cycle counts the low
/// part, the frequency is in whole hertz taken as an `i32`. `None` for an empty period
/// or a width beyond it.
pub fn pwm_sample(timer_hz: u32, period: u32, width: u32) -> (r: Option<(Frequency, Ratio)>)
    requires
        period > 0 && width <= period ==> (period - width) * 1000 <= u32::MAX,
    ensures
        period == 0 || width > period <==> r is None,
        r matches Some((f, d)) ==> f@ == sat_i32(((timer_hz / period) as i32) * 1000) && d@ == permill_steps(
            (period - width) * 1000 / period as int,
        ),
{
    if period == 0 || width > period {
        return None;
    }
    let freq: u32 = timer_hz / period;
    let freq = Frequency::from_val(freq as i32);
    let duty: u32 = (period - width) * 1000 / period;
    assert(duty <= 1000) by (nonlinear_arith)
        requires
            duty == (period - width) * 1000 / period as int,
            width <= period,
            period > 0,
    ;
    let duty = Ratio::from_permill(duty as u16);
    Some((freq, duty))
}

/// Where the station follower stands.
#[derive(Clone, Copy, Debug, PartialEq, Eq, Structural)]
pub enum EvsePhase {
    /// Offering the chargers what the station offers, reading it every 3 s.
    Following,
    /// A disconnect was requested: waiting for the cable to be unplugged.
    Releasing,
}

/// What the follower's owner observed.
#[derive(Clone, Copy, Debug)]
pub enum EvseEvent {
    /// A reading of the station's duty cycle; `None` without a signal.
    Reading(Option<Ratio>),
    /// The rider asked to disconnect from the station.
    DisconnectRequest,
}

/// What the follower's owner has to do.
#[derive(Clone, Copy, Debug)]
pub enum EvseAction {
    /// Set the chargers' mains current limit and the ready signal, then take
    /// the next reading after 3 s, or on a disconnect request.
    Offer { limit: Current, ready: bool },
    /// Set the mains current limit to zero, drop the ready signal, and take a
    /// reading every second until the signal is gone.
    Release,
    /// The signal is still there: take the next reading after a second.
    KeepWaiting,
    /// The cable is unplugged: wait this many seconds, then read again.
    Rest { secs: u64 },
}

/// Waiting after an unplugged cable before it can be plugged in again: 30 s.
pub const REST_UNPLUGGED_SECS: u64 = 30;

/// The transition of the follower in `phase`, with the default current of
/// `default` mA, on `event`, to `next` with `action`.
pub open spec fn evse_transition(
    phase: EvsePhase,
    default: Current,
    event: EvseEvent,
    next: EvsePhase,
    action: EvseAction,
) -> bool {
    match (phase, event) {
        (EvsePhase::Following, EvseEvent::Reading(duty)) => next == EvsePhase::Following && (
        action matches EvseAction::Offer { limit, ready } && match duty {
            Some(d) => limit@ == duty_current_millis(d@ / 100) && ready == (limit@ > 0),
            None => limit == default && !ready,
        }),
        (EvsePhase::Following, EvseEvent::DisconnectRequest) => next == EvsePhase::Releasing
            && action is Release,
        (EvsePhase::Releasing, EvseEvent::Reading(Some(_))) => next == EvsePhase::Releasing
            && action is KeepWaiting,
        (EvsePhase::Releasing, EvseEvent::Reading(None)) => next == EvsePhase::Following && (
        action matches EvseAction::Rest { secs } && secs == REST_UNPLUGGED_SECS),
        (EvsePhase::Releasing, EvseEvent::DisconnectRequest) => next == EvsePhase::Releasing
            && action is KeepWaiting,
    }
}

/// Follows the charging station: offers the chargers the current the station
/// allows, and lets go of the station when the rider asks to disconnect.
pub struct Evse {
    phase: EvsePhase,
    default_current: Current,
}

impl Evse {
    /// The phase the follower is in.
    pub closed spec fn spec_phase(&self) -> EvsePhase {
        self.phase
    }

    /// The current offered without a station signal.
    pub closed spec fn default_current(&self) -> Current {
        self.default_current
    }

    /// A follower that offers `default_current` without a station signal.
    pub fn new(default_current: Current) -> (e: Self)
        ensures
            e.spec_phase() == EvsePhase::Following,
            e.default_current() == default_current,
    {
        Evse { phase: EvsePhase::Following, default_current }
    }

    /// The phase the follower is in.
    pub fn phase(&self) -> (p: EvsePhase)
        ensures
            p == self.spec_phase(),
    {
        self.phase
    }

    /// Takes one event and returns what to do.
    pub fn step(&mut self, event: EvseEvent) -> (action: EvseAction)
        ensures
            final(self).default_current() == old(self).default_current(),
            evse_transition(
                old(self).spec_phase(),
                old(self).default_current(),
                event,
                final(self).spec_phase(),
                action,
            ),
    {
        match (self.phase, event) {
            (EvsePhase::Following, EvseEvent::Reading(duty)) => {
                let (limit, ready) = mains_limit(duty, self.default_current);
                EvseAction::Offer { limit, ready }
            },
            (EvsePhase::Following, EvseEvent::DisconnectRequest) => {
                self.phase = EvsePhase::Releasing;
                EvseAction::Release
            },
            (EvsePhase::Releasing, EvseEvent::Reading(Some(_))) => EvseAction::KeepWaiting,
            (EvsePhase::Releasing, EvseEvent::Reading(None)) => {
                self.phase = EvsePhase::Following;
                EvseAction::Rest { secs: REST_UNPLUGGED_SECS }
            },
            (EvsePhase::Releasing, EvseEvent::DisconnectRequest) => EvseAction::KeepWaiting,
        }
    }
}

} // verus!
