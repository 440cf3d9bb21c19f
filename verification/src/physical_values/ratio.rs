use vstd::prelude::*;

verus! {

/// A ratio between 0% and 100% in steps of 0.01%.
#[derive(Clone, Copy, Debug, PartialEq, Eq, PartialOrd, Ord, Structural)]
pub struct Ratio(pub(crate) u16);

/// The number of steps that make up 100%.
pub const RATIO_MAX: u16 = 100 * 100;

/// Steps of 0.01% of `percent` percent, clamped to 100%.
pub open spec fn percent_steps(percent: int) -> int {
    if percent > 100 {
        10000
    } else {
        percent * 100
    }
}

/// Steps of 0.01% of `permill` per mill, clamped to 100%.
pub open spec fn permill_steps(permill: int) -> int {
    if permill > 1000 {
        10000
    } else {
        permill * 10
    }
}

impl View for Ratio {
    type V = int;

    /// The ratio in steps of 0.01%.
    closed spec fn view(&self) -> int {
        self.0 as int
    }
}

impl Ratio {
    /// The ratio of `steps` steps of 0.01%.
    pub closed spec fn spec_from_steps(steps: int) -> Ratio {
        Ratio(steps as u16)
    }
}

/// A ratio is fixed by its steps.
pub broadcast proof fn lemma_ratio_view(r: Ratio)
    ensures
        #[trigger] Ratio::spec_from_steps(r@) == r,
        0 <= r@ <= u16::MAX,
{
}

/// Building a ratio from steps that fit keeps them.
pub broadcast proof fn lemma_spec_from_steps(steps: int)
    requires
        0 <= steps <= u16::MAX,
    ensures
        (#[trigger] Ratio::spec_from_steps(steps))@ == steps,
{
}

pub broadcast group group_ratio {
    lemma_ratio_view,
    lemma_spec_from_steps,
}

/// Two ratios with the same steps are the same ratio.
pub proof fn lemma_ratio_ext(a: Ratio, b: Ratio)
    requires
        a@ == b@,
    ensures
        a == b,
{
}

impl Ratio {
    #[verifier::type_invariant]
    spec fn at_most_full(self) -> bool {
        self.0 <= RATIO_MAX
    }

    pub(crate) const MAX: u16 = RATIO_MAX;

    /// The ratio 0%.
    pub fn zero() -> (r: Self)
        ensures
            r@ == 0,
    {
        Ratio(0)
    }

    /// Clamps `val` (in steps of 0.01%) to 100%.
    fn new(val: u16) -> (r: Self)
        ensures
            r@ == if val > RATIO_MAX { RATIO_MAX as int } else { val as int },
    {
        let mut val = val;
        if val > Self::MAX {
            val = Self::MAX;
        }
        Ratio(val)
    }

    /// `percent` percent, clamped to 100%.
    pub fn from_percent(percent: u8) -> (r: Self)
        ensures
            r@ == percent_steps(percent as int),
    {
        Self::new(percent as u16 * 100)
    }

    /// `permill` per mill, clamped to 100%.
    pub fn from_permill(permill: u16) -> (r: Self)
        requires
            permill * 10 <= u16::MAX,
        ensures
            r@ == permill_steps(permill as int),
    {
        Self::new(permill * 10)
    }

    /// The ratio in whole percent, rounded down.
    pub fn as_percent(&self) -> (r: u8)
        ensures
            r == self@ / 100,
            0 <= self@ <= 10000,
    {
        proof {
            use_type_invariant(self);
        }
        (self.0 / 100) as u8
    }

    /// The ratio in whole per mill, rounded down.
    pub fn as_permill(&self) -> (r: u16)
        ensures
            r == self@ / 10,
            0 <= self@ <= 10000,
    {
        proof {
            use_type_invariant(self);
        }
        self.0 / 10
    }

    /// The ratio in steps of 0.01%.
    pub fn as_steps(&self) -> (r: u16)
        ensures
            r == self@,
            r <= RATIO_MAX,
    {
        proof {
            use_type_invariant(self);
        }
        self.0
    }
}

/// A whole percentage up to 100% reads back as the same percentage, and a
/// per mill up to 1000 as the same per mill.
pub proof fn lemma_percent_roundtrip(percent: int, permill: int)
    requires
        0 <= percent <= 100,
        0 <= permill <= 1000,
    ensures
        percent_steps(percent) / 100 == percent,
        permill_steps(permill) / 10 == permill,
{
}

} // verus!
