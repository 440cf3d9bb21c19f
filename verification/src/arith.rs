//! Integer helpers with the rounding and saturation rules of Rust's
//! primitive operations, stated over mathematical integers.
use vstd::prelude::*;
use vstd::arithmetic::div_mod::lemma_div_denominator;

verus! {

/// Clamps `x` into the range of `i32`.
pub open spec fn sat_i32(x: int) -> i32 {
    if x > i32::MAX {
        i32::MAX
    } else if x < i32::MIN {
        i32::MIN
    } else {
        x as i32
    }
}

/// Magnitude of an integer.
pub open spec fn abs(x: int) -> int {
    if x < 0 {
        -x
    } else {
        x
    }
}

/// Division rounding towards zero, as Rust's `/` on signed integers does.
pub open spec fn div_trunc(a: int, b: int) -> int {
    let q = abs(a) / abs(b);
    if (a < 0) != (b < 0) {
        -q
    } else {
        q
    }
}

/// Ten to the power of `n`.
pub open spec fn pow10(n: nat) -> int
    decreases n,
{
    if n == 0 {
        1
    } else {
        10 * pow10((n - 1) as nat)
    }
}

/// Moves the decimal point of `val` from `from` places to `to` places:
/// more places multiply (saturating), fewer places divide (rounding towards zero).
pub open spec fn shift_decimal(val: int, from: int, to: int) -> int {
    if to >= from {
        sat_i32(val * pow10((to - from) as nat)) as int
    } else {
        div_trunc(val, pow10((from - to) as nat))
    }
}

/// Dividing a multiple of a positive number by it gives back the factor.
pub proof fn lemma_div_trunc_of_multiple(v: int, p: int)
    requires
        p >= 1,
    ensures
        div_trunc(v * p, p) == v,
{
    if v >= 0 {
        assert(v * p >= 0 && (v * p) / p == v) by (nonlinear_arith)
            requires
                p >= 1,
                v >= 0,
        ;
    } else {
        assert(v * p < 0 && -(v * p) == (-v) * p && ((-v) * p) / p == -v) by (nonlinear_arith)
            requires
                p >= 1,
                v < 0,
        ;
    }
}

/// Dividing by one keeps the value.
pub proof fn lemma_div_trunc_one(x: int)
    ensures
        div_trunc(x, 1) == x,
{
    assert(abs(1) == 1);
    assert(abs(x) / 1 == abs(x)) by (nonlinear_arith);
}
/// Powers of ten are positive.
pub proof fn lemma_pow10_pos(n: nat)
    ensures
        pow10(n) >= 1,
    decreases n,
{
    if n > 0 {
        lemma_pow10_pos((n - 1) as nat);
    }
}

/// `i64` division rounding towards zero, as Rust's `/` does.
pub fn div_i64(a: i64, b: i64) -> (r: i64)
    requires
        b != 0,
        a != i64::MIN,
        b != i64::MIN,
    ensures
        r == div_trunc(a as int, b as int),
{
    let ua: i64 = if a < 0 { -a } else { a };
    let ub: i64 = if b < 0 { -b } else { b };
    let q: i64 = ua / ub;
    if (a < 0) != (b < 0) {
        -q
    } else {
        q
    }
}

/// `i32` division rounding towards zero, as Rust's `/` does.
pub fn div_i32(a: i32, b: i32) -> (r: i32)
    requires
        b != 0,
        !(a == i32::MIN && b == -1),
    ensures
        r == div_trunc(a as int, b as int),
{
    let q: i64 = div_i64(a as i64, b as i64);
    assert(abs(a as int) / abs(b as int) <= abs(a as int)) by (nonlinear_arith)
        requires
            abs(b as int) >= 1,
            abs(a as int) >= 0,
    ;
    proof {
        if abs(a as int) / abs(b as int) == 2147483648 {
            assert(abs(a as int) == 2147483648);
            assert(abs(b as int) == 1) by (nonlinear_arith)
                requires
                    abs(a as int) == 2147483648,
                    abs(b as int) >= 1,
                    abs(a as int) / abs(b as int) == 2147483648,
            ;
        }
    }
    q as i32
}

/// `i32` multiplication that saturates instead of overflowing.
pub fn sat_mul_i32(a: i32, b: i32) -> (r: i32)
    ensures
        r == sat_i32(a * b),
{
    match a.checked_mul(b) {
        Some(x) => x,
        None => {
            if (a < 0) == (b < 0) {
                assert(a * b > 0) by (nonlinear_arith)
                    requires
                        (a < 0) == (b < 0),
                        a * b > i32::MAX || a * b < i32::MIN,
                ;
                i32::MAX
            } else {
                assert(a * b < 0) by (nonlinear_arith)
                    requires
                        (a < 0) != (b < 0),
                        a * b > i32::MAX || a * b < i32::MIN,
                ;
                i32::MIN
            }
        },
    }
}

/// `i32` addition that saturates instead of overflowing.
pub fn sat_add_i32(a: i32, b: i32) -> (r: i32)
    ensures
        r == sat_i32(a + b),
{
    match a.checked_add(b) {
        Some(x) => x,
        None => if b > 0 {
            i32::MAX
        } else {
            i32::MIN
        },
    }
}

/// `i32` subtraction that saturates instead of overflowing.
pub fn sat_sub_i32(a: i32, b: i32) -> (r: i32)
    ensures
        r == sat_i32(a - b),
{
    match a.checked_sub(b) {
        Some(x) => x,
        None => if b < 0 {
            i32::MAX
        } else {
            i32::MIN
        },
    }
}

/// Multiplying by ten one step at a time, saturating each time,
/// saturates the whole product.
pub proof fn lemma_sat_step_up(v: int, k: nat)
    requires
        k >= 1,
    ensures
        sat_i32(sat_i32(v * 10) * pow10((k - 1) as nat)) == sat_i32(v * pow10(k)),
{
    let p = pow10((k - 1) as nat);
    lemma_pow10_pos((k - 1) as nat);
    assert(pow10(k) == 10 * p);
    assert(v * pow10(k) == (v * 10) * p) by (nonlinear_arith)
        requires
            pow10(k) == 10 * p,
    ;
    if v * 10 > i32::MAX {
        assert((v * 10) * p >= v * 10) by (nonlinear_arith)
            requires
                v * 10 > 0,
                p >= 1,
        ;
        assert(i32::MAX * p >= i32::MAX) by (nonlinear_arith)
            requires
                p >= 1,
        ;
    } else if v * 10 < i32::MIN {
        assert((v * 10) * p <= v * 10) by (nonlinear_arith)
            requires
                v * 10 < 0,
                p >= 1,
        ;
        assert(i32::MIN * p <= i32::MIN) by (nonlinear_arith)
            requires
                p >= 1,
        ;
    }
}

/// Dividing by ten one step at a time (rounding towards zero) equals one
/// division by the whole power of ten.
pub proof fn lemma_div_step_down(v: int, k: nat)
    requires
        k >= 1,
    ensures
        div_trunc(div_trunc(v, 10), pow10((k - 1) as nat)) == div_trunc(v, pow10(k)),
{
    let p = pow10((k - 1) as nat);
    lemma_pow10_pos((k - 1) as nat);
    assert(pow10(k) == 10 * p);
    let a = abs(v);
    lemma_div_denominator(a, 10, p);
    assert(a / 10 >= 0);
    if v < 0 {
        assert(abs(div_trunc(v, 10)) == a / 10);
        if a / 10 == 0 {
            assert(div_trunc(v, 10) == 0);
        }
    }
}

} // verus!
