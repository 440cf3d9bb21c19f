//! A value that is valid only for a while after its last update.
use vstd::prelude::*;
use crate::clock::{now_ticks, tick_hz};

verus! {

/// The clock tick at which a value written at the tick `now` expires, `max_age`
/// ticks later, saturating at the end of time.
pub open spec fn expiry(now: u64, max_age: u64) -> u64 {
    if now + max_age > u64::MAX {
        u64::MAX
    } else {
        (now + max_age) as u64
    }
}

/// What a stamped entry reads as at `now`: the value while its deadline lies ahead.
pub open spec fn fresh_value<T>(entry: Option<(u64, T)>, now: u64) -> Option<T> {
    match entry {
        Some((deadline, val)) => if deadline > now {
            Some(val)
        } else {
            None
        },
        None => None,
    }
}

/// The ticks that `ms` milliseconds last on a clock of `hz` ticks per second,
/// rounded up as `embassy_time::Duration::from_millis` rounds, saturating at the
/// range of `u64`.
pub open spec fn max_age_ticks(ms: int, hz: int) -> u64 {
    let t = (ms * hz + 999) / 1000;
    if t > u64::MAX {
        u64::MAX
    } else {
        t as u64
    }
}

/// A value that expires `MAX_AGE_MS` milliseconds after it was written.
/// `N` is the number of observers that may watch it.
#[derive(Debug)]
pub struct VolatileValue<T, const N: usize, const MAX_AGE_MS: u64> {
    entry: Option<(u64, T)>,
    observers: usize,
    max_age: u64,
}

impl<T, const N: usize, const MAX_AGE_MS: u64> View for VolatileValue<T, N, MAX_AGE_MS> {
    type V = Option<(u64, T)>;

    /// The last value written together with its deadline, if any was written.
    closed spec fn view(&self) -> Option<(u64, T)> {
        self.entry
    }
}

impl<T, const N: usize, const MAX_AGE_MS: u64> VolatileValue<T, N, MAX_AGE_MS> {
    /// How many observers are handed out and not given back.
    pub closed spec fn observers_taken(&self) -> int {
        self.observers as int
    }

    /// How many clock ticks a value lasts.
    pub closed spec fn max_age(&self) -> u64 {
        self.max_age
    }
}

/// A volatile value is fixed by its last write, its count of observers and its
/// maximum age.
pub proof fn lemma_volatile_ext<T, const N: usize, const MAX_AGE_MS: u64>(
    a: VolatileValue<T, N, MAX_AGE_MS>,
    b: VolatileValue<T, N, MAX_AGE_MS>,
)
    requires
        a@ == b@,
        a.observers_taken() == b.observers_taken(),
        a.max_age() == b.max_age(),
    ensures
        a == b,
{
}

/// Keeps `val` if `deadline` lies after `now`.
fn check_deadline<T>(entry: (u64, T), now: u64) -> (r: Option<T>)
    ensures
        r == fresh_value(Some(entry), now),
{
    let (deadline, val) = entry;
    if deadline > now {
        Some(val)
    } else {
        None
    }
}

impl<T: Copy, const N: usize, const MAX_AGE_MS: u64> VolatileValue<T, N, MAX_AGE_MS> {
    /// A value that was never written, for a clock of `hz` ticks per second.
    pub fn with_tick_rate(hz: u64) -> (r: Self)
        ensures
            r@ == None::<(u64, T)>,
            r.observers_taken() == 0,
            r.max_age() == max_age_ticks(MAX_AGE_MS as int, hz as int),
    {
        let m: u128 = MAX_AGE_MS as u128;
        let h: u128 = hz as u128;
        assert(m * h <= (u64::MAX as int) * (u64::MAX as int)) by (nonlinear_arith)
            requires
                m <= u64::MAX,
                h <= u64::MAX,
        ;
        let t: u128 = (m * h + 999) / 1000;
        let max_age: u64 = if t > u64::MAX as u128 {
            u64::MAX
        } else {
            t as u64
        };
        Self { entry: None, observers: 0, max_age }
    }

    /// A value that was never written, for the executor's clock.
    pub fn new() -> (r: Self)
        ensures
            r@ == None::<(u64, T)>,
            r.observers_taken() == 0,
            exists|hz: u64| hz > 0 && r.max_age() == #[trigger] max_age_ticks(MAX_AGE_MS as int, hz as int),
    {
        Self::with_tick_rate(tick_hz())
    }

    /// Hands out an observer, unless `N` are out already.
    pub fn observer(&mut self) -> (o: Option<VolatileValueObserver<T>>)
        ensures
            final(self)@ == old(self)@,
            o is Some <==> old(self).observers_taken() < N,
            o matches Some(ob) ==> ob.last_seen() == 0 && final(self).observers_taken()
                == old(self).observers_taken() + 1,
            o is None ==> final(self).observers_taken() == old(self).observers_taken(),
            final(self).max_age() == old(self).max_age(),
    {
        if self.observers < N {
            self.observers = self.observers + 1;
            Some(VolatileValueObserver::new())
        } else {
            None
        }
    }

    /// Takes an observer back, so that another one can be handed out.
    pub fn release_observer(&mut self, observer: VolatileValueObserver<T>)
        ensures
            final(self)@ == old(self)@,
            final(self).observers_taken() == if old(self).observers_taken() > 0 {
                old(self).observers_taken() - 1
            } else {
                0
            },
            final(self).max_age() == old(self).max_age(),
    {
        let VolatileValueObserver { last_deadline: _, _value: _ } = observer;
        if self.observers > 0 {
            self.observers = self.observers - 1;
        }
    }

    /// Writes `val` at the clock tick `now`; it lasts the maximum age.
    pub fn update_at(&mut self, now: u64, val: T)
        ensures
            final(self)@ == Some((expiry(now, old(self).max_age()), val)),
            final(self).observers_taken() == old(self).observers_taken(),
            final(self).max_age() == old(self).max_age(),
    {
        self.entry = Some((now.saturating_add(self.max_age), val));
    }

    /// Writes `val` now.
    pub fn update(&mut self, val: T)
        ensures
            exists|t: u64| final(self)@ == Some((#[trigger] expiry(t, old(self).max_age()), val)),
            final(self).observers_taken() == old(self).observers_taken(),
            final(self).max_age() == old(self).max_age(),
    {
        let now = now_ticks();
        self.update_at(now, val);
    }

    /// The last value written together with its deadline, if any was written.
    pub fn stamped(&self) -> (r: Option<(u64, T)>)
        ensures
            r == self@,
    {
        self.entry
    }

    /// The value as read at the clock tick `now`: present while it has not expired.
    pub fn get_at(&self, now: u64) -> (r: Option<T>)
        ensures
            r == fresh_value(self@, now),
    {
        match self.entry {
            Some(entry) => check_deadline(entry, now),
            None => None,
        }
    }

    /// The value as read now.
    pub fn get(&self) -> (r: Option<T>)
        ensures
            exists|t: u64| r == #[trigger] fresh_value(self@, t),
    {
        let now = now_ticks();
        self.get_at(now)
    }
}

impl<T: Copy, const N: usize, const MAX_AGE_MS: u64> Default for VolatileValue<T, N, MAX_AGE_MS> {
    /// A value that was never written.
    fn default() -> (r: Self)
        ensures
            r@ == None::<(u64, T)>,
            r.observers_taken() == 0,
            exists|hz: u64| hz > 0 && r.max_age() == #[trigger] max_age_ticks(MAX_AGE_MS as int, hz as int),
    {
        Self::new()
    }
}

/// How a volatile value stands at some instant, for display.
#[derive(Debug)]
pub enum Age<T> {
    /// Never written.
    Empty,
    /// Fresh; it expires after this many clock ticks.
    ExpiresIn(u64, T),
    /// Expired this many clock ticks ago.
    ExpiredAgo(u64, T),
}

/// How the stamped value `entry` stands at `now`.
pub open spec fn age<T>(entry: Option<(u64, T)>, now: u64) -> Age<T> {
    match entry {
        None => Age::Empty,
        Some((deadline, val)) => if deadline > now {
            Age::ExpiresIn((deadline - now) as u64, val)
        } else {
            Age::ExpiredAgo((now - deadline) as u64, val)
        },
    }
}

impl<T: Copy, const N: usize, const MAX_AGE_MS: u64> VolatileValue<T, N, MAX_AGE_MS> {
    /// How the value stands at the instant `now`.
    pub fn age_at(&self, now: u64) -> (r: Age<T>)
        ensures
            r == age(self@, now),
    {
        match self.entry {
            None => Age::Empty,
            Some((deadline, val)) => if deadline > now {
                Age::ExpiresIn(deadline - now, val)
            } else {
                Age::ExpiredAgo(now - deadline, val)
            },
        }
    }
}

/// What an observer makes of the value it finds.
#[derive(Debug)]
pub enum Observation<T> {
    /// A value it had not seen, still fresh: hand it out.
    Fresh(T),
    /// A value it had not seen, already expired: look again.
    Stale,
    /// The value it handed out last, fresh until the given instant: wait for
    /// a change, and report the value gone when the instant comes first.
    SeenUntil(u64),
    /// The value it handed out last, expired: wait for a change.
    SeenExpired,
}

/// The observation of the stamped value `entry` at `now` by an observer that
/// last saw the deadline `last`. Values are told apart by their deadlines.
pub open spec fn observation<T>(last: u64, entry: (u64, T), now: u64) -> Observation<T> {
    let (deadline, val) = entry;
    if last == deadline {
        if deadline > now {
            Observation::SeenUntil(deadline)
        } else {
            Observation::SeenExpired
        }
    } else if deadline > now {
        Observation::Fresh(val)
    } else {
        Observation::Stale
    }
}

/// Watches a volatile value for fresh values it has not handed out yet.
#[derive(Debug)]
pub struct VolatileValueObserver<T> {
    last_deadline: u64,
    _value: core::marker::PhantomData<T>,
}

impl<T: Copy> VolatileValueObserver<T> {
    /// The deadline of the value seen last; zero before the first.
    pub closed spec fn last_seen(&self) -> u64 {
        self.last_deadline
    }

    /// An observer that has seen nothing yet.
    pub fn new() -> (o: Self)
        ensures
            o.last_seen() == 0,
    {
        VolatileValueObserver { last_deadline: 0, _value: core::marker::PhantomData }
    }

    /// Looks at the stamped value `entry` at the instant `now`, and marks it
    /// seen.
    pub fn observe_at(&mut self, entry: (u64, T), now: u64) -> (r: Observation<T>)
        ensures
            r == observation(old(self).last_seen(), entry, now),
            final(self).last_seen() == entry.0,
    {
        let (deadline, val) = entry;
        if self.last_deadline == deadline {
            if deadline > now {
                Observation::SeenUntil(deadline)
            } else {
                Observation::SeenExpired
            }
        } else {
            self.last_deadline = deadline;
            if deadline > now {
                Observation::Fresh(val)
            } else {
                Observation::Stale
            }
        }
    }

    /// The value in `entry` as read at the instant `now`.
    pub fn get_at(&self, entry: Option<(u64, T)>, now: u64) -> (r: Option<T>)
        ensures
            r == fresh_value(entry, now),
    {
        match entry {
            Some(e) => check_deadline(e, now),
            None => None,
        }
    }
}

/// An observer hands out a value once: looking at the same stamped value
/// again, at any instant, finds it seen.
pub proof fn lemma_fresh_once<T>(last: u64, entry: (u64, T), now: u64, later: u64)
    requires
        observation(last, entry, now) is Fresh,
    ensures
        !(observation(entry.0, entry, later) is Fresh),
        !(observation(entry.0, entry, later) is Stale),
{
}

/// A read gives back the value last written until its maximum age has passed,
/// and nothing from then on (deadlines saturate at the end of time).
pub proof fn lemma_read_after_write<T>(now: u64, max_age: u64, val: T, t: u64)
    requires
        now <= t,
    ensures
        t < now + max_age && t < u64::MAX ==> fresh_value(Some((expiry(now, max_age), val)), t)
            == Some(val),
        t >= now + max_age ==> fresh_value(Some((expiry(now, max_age), val)), t) == None::<T>,
{
}

} // verus!
