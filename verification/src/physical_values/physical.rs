use core::marker::PhantomData;
use core::ops::Range;
use vstd::prelude::*;
use vstd::std_specs::cmp::PartialEqSpecImpl;
use vstd::std_specs::ops::{AddSpecImpl, DivSpecImpl, MulSpecImpl, NegSpecImpl, SubSpecImpl};
use crate::arith::{div_i32, div_i64, div_trunc, lemma_div_step_down, lemma_div_trunc_one, lemma_sat_step_up, pow10, sat_i32, sat_mul_i32, shift_decimal};
use super::ratio::{Ratio, RATIO_MAX};
use super::units::Unit;

verus! {

/// A physical value of unit `U`, stored in thousandths of the unit.
#[derive(Debug, PartialOrd, Ord)]
pub struct Physical<U: Unit> {
    pub(crate) millis: i32,
    _unit: PhantomData<U>,
}

impl<U: Unit> View for Physical<U> {
    type V = int;

    /// The value in thousandths of the unit.
    closed spec fn view(&self) -> int {
        self.millis as int
    }
}

impl<U: Unit> Physical<U> {
    /// The value of `millis` thousandths of the unit.
    pub closed spec fn spec_from_millis(millis: int) -> Self {
        Physical { millis: millis as i32, _unit: PhantomData }
    }
}

/// A value is fixed by its thousandths.
pub broadcast proof fn lemma_physical_view<U: Unit>(p: Physical<U>)
    ensures
        #[trigger] Physical::<U>::spec_from_millis(p@) == p,
        i32::MIN <= p@ <= i32::MAX,
{
}

/// Building a value from thousandths in the range of `i32` keeps them.
pub broadcast proof fn lemma_spec_from_millis<U: Unit>(m: int)
    requires
        i32::MIN <= m <= i32::MAX,
    ensures
        (#[trigger] Physical::<U>::spec_from_millis(m))@ == m,
{
}

pub broadcast group group_physical {
    lemma_physical_view,
    lemma_spec_from_millis,
}

/// Two values with the same thousandths are the same value.
pub proof fn lemma_physical_ext<U: Unit>(a: Physical<U>, b: Physical<U>)
    requires
        a@ == b@,
    ensures
        a == b,
{
}

impl<U: Unit> PartialEq for Physical<U> {
    fn eq(&self, other: &Self) -> (r: bool) {
        self.millis == other.millis
    }
}

impl<U: Unit> PartialEqSpecImpl for Physical<U> {
    open spec fn obeys_eq_spec() -> bool {
        true
    }

    open spec fn eq_spec(&self, other: &Self) -> bool {
        self@ == other@
    }
}

impl<U: Unit> Eq for Physical<U> {

}

impl<U: Unit> Clone for Physical<U> {
    fn clone(&self) -> (r: Self)
        ensures
            r == *self,
    {
        Self { millis: self.millis, _unit: PhantomData }
    }
}

impl<U: Unit> Copy for Physical<U> {

}

impl<U: Unit> Physical<U> {
    /// The value zero.
    pub fn zero() -> (r: Self)
        ensures
            r@ == 0,
    {
        Self::from_millis(0)
    }

    /// The value of `millis` thousandths of the unit.
    pub fn from_millis(millis: i32) -> (r: Self)
        ensures
            r@ == millis,
    {
        Self { millis, _unit: PhantomData }
    }

    /// The value of `val` whole units, saturating at the range of `i32` thousandths.
    pub fn from_val(val: i32) -> (r: Self)
        ensures
            r@ == sat_i32(val * 1000),
    {
        Self::from_millis(sat_mul_i32(val, 1000))
    }

    /// The value `val / 10^dec_places` in units: more than three decimal places
    /// are cut off (rounding towards zero), fewer saturate at the range of `i32` thousandths.
    pub fn from_decimal(val: i32, dec_places: usize) -> (r: Self)
        ensures
            r@ == shift_decimal(val as int, dec_places as int, 3),
    {
        let ghost target = shift_decimal(val as int, dec_places as int, 3);
        let mut val = val;
        let mut dec_places = dec_places;
        while dec_places < 3
            invariant
                shift_decimal(val as int, dec_places as int, 3) == target,
            decreases 3 - dec_places,
        {
            proof {
                lemma_sat_step_up(val as int, (3 - dec_places) as nat);
            }
            val = sat_mul_i32(val, 10);
            dec_places += 1;
        }
        while dec_places > 3
            invariant
                dec_places >= 3,
                shift_decimal(val as int, dec_places as int, 3) == target,
            decreases dec_places,
        {
            proof {
                lemma_div_step_down(val as int, (dec_places - 3) as nat);
            }
            val = div_i32(val, 10);
            dec_places -= 1;
        }
        assert(dec_places == 3);
        assert(pow10(0) == 1);
        assert(shift_decimal(val as int, 3, 3) == val);
        Self::from_millis(val)
    }

    /// The value in thousandths of the unit.
    pub fn as_millis(&self) -> (r: i32)
        ensures
            r == self@,
    {
        self.millis
    }

    /// The value in whole units, rounded towards zero.
    pub fn as_val(&self) -> (r: i32)
        ensures
            r == div_trunc(self@, 1000),
    {
        div_i32(self.millis, 1000)
    }

    /// The value in units of `10^-dec_places`: fewer than three decimal places
    /// cut digits off (rounding towards zero), more saturate at the range of `i32`.
    pub fn as_decimal(&self, dec_places: usize) -> (r: i32)
        ensures
            r == shift_decimal(self@, 3, dec_places as int),
    {
        let ghost target = shift_decimal(self@, 3, dec_places as int);
        let mut cur_dec_places: usize = 3;
        let mut val = self.millis;
        while cur_dec_places > dec_places
            invariant
                shift_decimal(val as int, cur_dec_places as int, dec_places as int) == target,
            decreases cur_dec_places,
        {
            let ghost k = (cur_dec_places - dec_places) as nat;
            let ghost v = val as int;
            proof {
                lemma_div_step_down(v, k);
            }
            val = div_i32(val, 10);
            cur_dec_places -= 1;
            proof {
                assert(div_trunc(val as int, pow10((k - 1) as nat)) == target);
                if k == 1 {
                    lemma_div_trunc_one(val as int);
                    assert(pow10(0) == 1);
                    assert(val * pow10(0) == val);
                } else {
                    assert((k - 1) as nat == (cur_dec_places - dec_places) as nat);
                }
            }
        }
        while cur_dec_places < dec_places
            invariant
                cur_dec_places <= dec_places,
                shift_decimal(val as int, cur_dec_places as int, dec_places as int) == target,
            decreases dec_places - cur_dec_places,
        {
            proof {
                lemma_sat_step_up(val as int, (dec_places - cur_dec_places) as nat);
            }
            val = sat_mul_i32(val, 10);
            cur_dec_places += 1;
        }
        assert(pow10(0) == 1);
        assert(shift_decimal(val as int, dec_places as int, dec_places as int) == val);
        val
    }

    /// The value scaled by `p / q`: the thousandths are multiplied by `p`, divided by `q`
    /// (rounding towards zero) and cut to the low 32 bits.
    pub fn frac(&self, p: i32, q: u32) -> (r: Self)
        requires
            q != 0,
        ensures
            r@ == frac_millis(self@, p as int, q as int),
    {
        let val: i64 = self.millis as i64;
        assert(i64::MIN < val * p <= i64::MAX) by (nonlinear_arith)
            requires
                i32::MIN <= val <= i32::MAX,
                i32::MIN <= p <= i32::MAX,
        ;
        let val: i64 = val * (p as i64);
        let val: i64 = div_i64(val, q as i64);
        Self::from_millis(val as i32)
    }

    /// The range of values that differ from this one by at most `tolerance` of it.
    pub fn as_range(&self, tolerance: Ratio) -> (r: Range<Self>)
        requires
            i32::MIN <= self@ + frac_millis(self@, tolerance@, RATIO_MAX as int) <= i32::MAX,
        ensures
            r.start@ == self@ - frac_millis(self@, tolerance@, RATIO_MAX as int),
            r.end@ == self@ + frac_millis(self@, tolerance@, RATIO_MAX as int),
    {
        let steps = tolerance.as_steps();
        proof {
            lemma_frac_within(self@, tolerance@);
        }
        let diff = self.frac(steps as i32, RATIO_MAX as u32);
        Range { start: self.sub_millis(diff), end: self.add_millis(diff) }
    }

    /// The value divided by `rhs` (taken as `i32`), rounding towards zero.
    pub fn div_by(self, rhs: usize) -> (r: Self)
        requires
            (rhs as i32) != 0,
            fits_i32(div_trunc(self@, (rhs as i32) as int)),
        ensures
            r@ == div_trunc(self@, (rhs as i32) as int),
    {
        Self::from_millis(div_i32(self.millis, rhs as i32))
    }

    /// The value multiplied by `rhs` (taken as `i32`).
    pub fn mul_by(self, rhs: usize) -> (r: Self)
        requires
            fits_i32(self@ * (rhs as i32)),
        ensures
            r@ == self@ * (rhs as i32),
    {
        Self::from_millis(self.millis * (rhs as i32))
    }

    fn add_millis(&self, rhs: Self) -> (r: Self)
        requires
            i32::MIN <= self@ + rhs@ <= i32::MAX,
        ensures
            r@ == self@ + rhs@,
    {
        Self::from_millis(self.millis + rhs.millis)
    }

    fn sub_millis(&self, rhs: Self) -> (r: Self)
        requires
            i32::MIN <= self@ - rhs@ <= i32::MAX,
        ensures
            r@ == self@ - rhs@,
    {
        Self::from_millis(self.millis - rhs.millis)
    }
}

/// Thousandths `m` scaled by `p / q`, rounded towards zero and cut to the low 32 bits.
pub open spec fn frac_millis(m: int, p: int, q: int) -> int {
    div_trunc(m * p, q) as i32 as int
}

/// Sum of two values, defined where it fits.
pub open spec fn fits_i32(x: int) -> bool {
    i32::MIN <= x <= i32::MAX
}

impl<U: Unit> core::ops::Add for Physical<U> {
    type Output = Self;

    fn add(self, rhs: Self) -> (r: Self) {
        self.add_millis(rhs)
    }
}

impl<U: Unit> AddSpecImpl for Physical<U> {
    open spec fn obeys_add_spec() -> bool {
        true
    }

    open spec fn add_req(self, rhs: Self) -> bool {
        fits_i32(self@ + rhs@)
    }

    open spec fn add_spec(self, rhs: Self) -> Self {
        Self::spec_from_millis(self@ + rhs@)
    }
}

impl<U: Unit> core::ops::Sub for Physical<U> {
    type Output = Self;

    fn sub(self, rhs: Self) -> (r: Self) {
        self.sub_millis(rhs)
    }
}

impl<U: Unit> SubSpecImpl for Physical<U> {
    open spec fn obeys_sub_spec() -> bool {
        true
    }

    open spec fn sub_req(self, rhs: Self) -> bool {
        fits_i32(self@ - rhs@)
    }

    open spec fn sub_spec(self, rhs: Self) -> Self {
        Self::spec_from_millis(self@ - rhs@)
    }
}

impl<U: Unit> core::ops::Neg for Physical<U> {
    type Output = Self;

    fn neg(self) -> (r: Self) {
        Self::from_millis(-self.as_millis())
    }
}

impl<U: Unit> NegSpecImpl for Physical<U> {
    open spec fn obeys_neg_spec() -> bool {
        true
    }

    open spec fn neg_req(self) -> bool {
        fits_i32(-self@)
    }

    open spec fn neg_spec(self) -> Self {
        Self::spec_from_millis(-self@)
    }
}

impl<U: Unit> core::ops::Mul<usize> for Physical<U> {
    type Output = Self;

    fn mul(self, rhs: usize) -> (r: Self) {
        self.mul_by(rhs)
    }
}

impl<U: Unit> MulSpecImpl<usize> for Physical<U> {
    open spec fn obeys_mul_spec() -> bool {
        true
    }

    open spec fn mul_req(self, rhs: usize) -> bool {
        fits_i32(self@ * (rhs as i32))
    }

    open spec fn mul_spec(self, rhs: usize) -> Self {
        Self::spec_from_millis(self@ * (rhs as i32))
    }
}

impl<U: Unit> core::ops::Div<usize> for Physical<U> {
    type Output = Self;

    fn div(self, rhs: usize) -> (r: Self) {
        self.div_by(rhs)
    }
}

impl<U: Unit> DivSpecImpl<usize> for Physical<U> {
    open spec fn obeys_div_spec() -> bool {
        true
    }

    open spec fn div_req(self, rhs: usize) -> bool {
        (rhs as i32) != 0 && fits_i32(div_trunc(self@, (rhs as i32) as int))
    }

    open spec fn div_spec(self, rhs: usize) -> Self {
        Self::spec_from_millis(div_trunc(self@, (rhs as i32) as int))
    }
}

impl<U: Unit> core::ops::Mul<Ratio> for Physical<U> {
    type Output = Self;

    fn mul(self, rhs: Ratio) -> (r: Self) {
        self.frac(rhs.as_steps() as i32, Ratio::MAX as u32)
    }
}

impl<U: Unit> MulSpecImpl<Ratio> for Physical<U> {
    open spec fn obeys_mul_spec() -> bool {
        true
    }

    open spec fn mul_req(self, rhs: Ratio) -> bool {
        true
    }

    open spec fn mul_spec(self, rhs: Ratio) -> Self {
        Self::spec_from_millis(frac_millis(self@, rhs@, RATIO_MAX as int))
    }
}

impl<U: Unit> core::ops::Div<Ratio> for Physical<U> {
    type Output = Self;

    fn div(self, rhs: Ratio) -> (r: Self) {
        self.frac(Ratio::MAX as i32, rhs.as_steps() as u32)
    }
}

impl<U: Unit> DivSpecImpl<Ratio> for Physical<U> {
    open spec fn obeys_div_spec() -> bool {
        true
    }

    open spec fn div_req(self, rhs: Ratio) -> bool {
        rhs@ != 0
    }

    open spec fn div_spec(self, rhs: Ratio) -> Self {
        Self::spec_from_millis(frac_millis(self@, RATIO_MAX as int, rhs@))
    }
}

impl<U: Unit> core::ops::AddAssign for Physical<U> {
    fn add_assign(&mut self, rhs: Self)
        requires
            fits_i32(old(self)@ + rhs@),
        ensures
            final(self)@ == old(self)@ + rhs@,
    {
        *self = self.add_millis(rhs);
    }
}

impl<U: Unit> core::ops::SubAssign for Physical<U> {
    fn sub_assign(&mut self, rhs: Self)
        requires
            fits_i32(old(self)@ - rhs@),
        ensures
            final(self)@ == old(self)@ - rhs@,
    {
        *self = self.sub_millis(rhs);
    }
}

impl<U: Unit> core::ops::MulAssign<usize> for Physical<U> {
    fn mul_assign(&mut self, rhs: usize)
        requires
            fits_i32(old(self)@ * (rhs as i32)),
        ensures
            final(self)@ == old(self)@ * (rhs as i32),
    {
        *self = self.mul_by(rhs);
    }
}

impl<U: Unit> core::ops::DivAssign<usize> for Physical<U> {
    fn div_assign(&mut self, rhs: usize)
        requires
            (rhs as i32) != 0,
            fits_i32(div_trunc(old(self)@, (rhs as i32) as int)),
        ensures
            final(self)@ == div_trunc(old(self)@, (rhs as i32) as int),
    {
        *self = self.div_by(rhs);
    }
}

impl<U: Unit> core::ops::MulAssign<Ratio> for Physical<U> {
    fn mul_assign(&mut self, rhs: Ratio)
        ensures
            final(self)@ == frac_millis(old(self)@, rhs@, RATIO_MAX as int),
    {
        *self = self.frac(rhs.as_steps() as i32, Ratio::MAX as u32);
    }
}

impl<U: Unit> core::ops::DivAssign<Ratio> for Physical<U> {
    fn div_assign(&mut self, rhs: Ratio)
        requires
            rhs@ != 0,
        ensures
            final(self)@ == frac_millis(old(self)@, RATIO_MAX as int, rhs@),
    {
        *self = self.frac(Ratio::MAX as i32, rhs.as_steps() as u32);
    }
}

/// Adding a value and subtracting it again gives back where one started, as
/// long as the sum stays in the range of `i32` thousandths.
pub proof fn lemma_add_sub_roundtrip<U: Unit>(a: Physical<U>, b: Physical<U>)
    requires
        fits_i32(a@ + b@),
    ensures
        ({
            let sum = Physical::<U>::spec_from_millis(a@ + b@);
            &&& fits_i32(sum@ - b@)
            &&& Physical::<U>::spec_from_millis(sum@ - b@) == a
        }),
{
    broadcast use group_physical;

}

/// A value built from decimals reads back as the same decimals, for at most
/// three decimal places and values whose thousandths fit `i32`.
pub proof fn lemma_decimal_roundtrip(val: int, dec_places: nat)
    requires
        dec_places <= 3,
        fits_i32(val * pow10((3 - dec_places) as nat)),
    ensures
        shift_decimal(shift_decimal(val, dec_places as int, 3), 3, dec_places as int) == val,
{
    let p = pow10((3 - dec_places) as nat);
    crate::arith::lemma_pow10_pos((3 - dec_places) as nat);
    assert(shift_decimal(val, dec_places as int, 3) == val * p);
    crate::arith::lemma_div_trunc_of_multiple(val, p);
}

/// A part of at most the whole of a value lies between zero and the value.
proof fn lemma_frac_within(m: int, t: int)
    requires
        i32::MIN <= m <= i32::MAX,
        0 <= t <= RATIO_MAX,
    ensures
        m >= 0 ==> 0 <= frac_millis(m, t, RATIO_MAX as int) <= m,
        m < 0 ==> m <= frac_millis(m, t, RATIO_MAX as int) <= 0,
{
    let q = RATIO_MAX as int;
    if m >= 0 {
        assert(0 <= m * t && (m * t) / q <= m) by (nonlinear_arith)
            requires
                m >= 0,
                0 <= t <= q,
                q == 10000,
        ;
        assert(div_trunc(m * t, q) == (m * t) / q);
    } else {
        assert(0 <= (-m) * t && ((-m) * t) / q <= -m && m * t == -((-m) * t)) by (nonlinear_arith)
            requires
                m < 0,
                0 <= t <= q,
                q == 10000,
        ;
        if t == 0 {
            assert(m * t == 0) by (nonlinear_arith)
                requires
                    t == 0,
            ;
        }
        assert(div_trunc(m * t, q) == -(((-m) * t) / q));
    }
}

} // verus!
