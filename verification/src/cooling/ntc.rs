//! The temperature of the coolant from the reading of an NTC thermistor.
use vstd::prelude::*;
use crate::arith::shift_decimal;
use crate::physical_values::physical::group_physical;
use crate::physical_values::Temperature;

verus! {

broadcast use group_physical;

/// The number of entries of the thermistor table.
pub const LUT_LEN: usize = 21;

/// The thermistor table: the 16-bit ADC reading of the voltage divider (10 kOhm fixed,
/// 10 kOhm at 25 degrees, beta 3435) and the temperature in degrees, every 5 degrees
/// from 0 to 100.
pub open spec fn ntc_lut() -> Seq<(u16, i16)> {
    seq![
        (16932u16, 0i16),
        (19921u16, 5i16),
        (23067u16, 10i16),
        (26303u16, 15i16),
        (29558u16, 20i16),
        (32767u16, 25i16),
        (35871u16, 30i16),
        (38823u16, 35i16),
        (41586u16, 40i16),
        (44141u16, 45i16),
        (46475u16, 50i16),
        (48588u16, 55i16),
        (50486u16, 60i16),
        (52180u16, 65i16),
        (53685u16, 70i16),
        (55017u16, 75i16),
        (56193u16, 80i16),
        (57229u16, 85i16),
        (58141u16, 90i16),
        (58942u16, 95i16),
        (59648u16, 100i16),
    ]
}

/// The thermistor table.
fn ntc_lut_table() -> (r: [(u16, i16); LUT_LEN])
    ensures
        r@ == ntc_lut(),
{
    let r: [(u16, i16); LUT_LEN] = [
        (16932, 0),
        (19921, 5),
        (23067, 10),
        (26303, 15),
        (29558, 20),
        (32767, 25),
        (35871, 30),
        (38823, 35),
        (41586, 40),
        (44141, 45),
        (46475, 50),
        (48588, 55),
        (50486, 60),
        (52180, 65),
        (53685, 70),
        (55017, 75),
        (56193, 80),
        (57229, 85),
        (58141, 90),
        (58942, 95),
        (59648, 100),
    ];
    assert(r@ =~= ntc_lut());
    r
}

/// The index of the first entry at or after `i` whose reading exceeds `adc`, or the
/// length of the table.
pub open spec fn first_above_from(adc: u16, i: int) -> int
    decreases LUT_LEN - i,
{
    if i >= LUT_LEN || i < 0 {
        LUT_LEN as int
    } else if ntc_lut()[i].0 > adc {
        i
    } else {
        first_above_from(adc, i + 1)
    }
}

/// The temperature in hundredths of a degree for the reading `adc` between the
/// entries `i - 1` and `i`: the reading's distance from entry `i - 1` divided by the
/// integer slope (readings per hundredth of a degree) of the segment.
pub open spec fn segment_centi(adc: u16, i: int) -> int {
    let (a1, t1) = ntc_lut()[i];
    let (a0, t0) = ntc_lut()[i - 1];
    let slope = (a1 - a0) / ((t1 - t0) * 100);
    (adc - a0) / slope + t0 * 100
}

/// Neighbouring entries are 5 degrees and between 500 and 3300 readings apart.
proof fn lemma_lut_segment(i: int)
    requires
        1 <= i < LUT_LEN,
    ensures
        500 <= ntc_lut()[i].0 - ntc_lut()[i - 1].0 <= 3300,
        ntc_lut()[i].1 - ntc_lut()[i - 1].1 == 5,
        0 <= ntc_lut()[i - 1].1 <= 95,
        ({
            let d = ntc_lut()[i].0 - ntc_lut()[i - 1].0;
            d - (d / 500) * 500 <= 412 * (d / 500)
        }),
{
    let l = ntc_lut();
    if i == 1 {
        assert(l[1] == (19921u16, 5i16) && l[0] == (16932u16, 0i16));
    } else if i == 2 {
        assert(l[2] == (23067u16, 10i16) && l[1] == (19921u16, 5i16));
    } else if i == 3 {
        assert(l[3] == (26303u16, 15i16) && l[2] == (23067u16, 10i16));
    } else if i == 4 {
        assert(l[4] == (29558u16, 20i16) && l[3] == (26303u16, 15i16));
    } else if i == 5 {
        assert(l[5] == (32767u16, 25i16) && l[4] == (29558u16, 20i16));
    } else if i == 6 {
        assert(l[6] == (35871u16, 30i16) && l[5] == (32767u16, 25i16));
    } else if i == 7 {
        assert(l[7] == (38823u16, 35i16) && l[6] == (35871u16, 30i16));
    } else if i == 8 {
        assert(l[8] == (41586u16, 40i16) && l[7] == (38823u16, 35i16));
    } else if i == 9 {
        assert(l[9] == (44141u16, 45i16) && l[8] == (41586u16, 40i16));
    } else if i == 10 {
        assert(l[10] == (46475u16, 50i16) && l[9] == (44141u16, 45i16));
    } else if i == 11 {
        assert(l[11] == (48588u16, 55i16) && l[10] == (46475u16, 50i16));
    } else if i == 12 {
        assert(l[12] == (50486u16, 60i16) && l[11] == (48588u16, 55i16));
    } else if i == 13 {
        assert(l[13] == (52180u16, 65i16) && l[12] == (50486u16, 60i16));
    } else if i == 14 {
        assert(l[14] == (53685u16, 70i16) && l[13] == (52180u16, 65i16));
    } else if i == 15 {
        assert(l[15] == (55017u16, 75i16) && l[14] == (53685u16, 70i16));
    } else if i == 16 {
        assert(l[16] == (56193u16, 80i16) && l[15] == (55017u16, 75i16));
    } else if i == 17 {
        assert(l[17] == (57229u16, 85i16) && l[16] == (56193u16, 80i16));
    } else if i == 18 {
        assert(l[18] == (58141u16, 90i16) && l[17] == (57229u16, 85i16));
    } else if i == 19 {
        assert(l[19] == (58942u16, 95i16) && l[18] == (58141u16, 90i16));
    } else if i == 20 {
        assert(l[20] == (59648u16, 100i16) && l[19] == (58942u16, 95i16));
    }
}

/// The temperature the reading `adc` stands for: interpolated in the table between the
/// last entry at or below the reading and the first above it. `None` when the reading
/// lies below the first entry or at or above the last one.
pub fn adc_to_temp(adc: u16) -> (r: Option<Temperature>)
    ensures
        ({
            let i = first_above_from(adc, 0);
            &&& r is Some <==> 1 <= i < LUT_LEN
            &&& r matches Some(t) ==> t@ == shift_decimal(segment_centi(adc, i), 2, 3)
        }),
{
    let lut = ntc_lut_table();
    let mut idx: usize = 0;
    while idx < LUT_LEN && lut[idx].0 <= adc
        invariant
            idx <= LUT_LEN,
            lut@ == ntc_lut(),
            first_above_from(adc, 0) == first_above_from(adc, idx as int),
            idx > 0 ==> lut@[idx - 1].0 <= adc,
        decreases LUT_LEN - idx,
    {
        idx += 1;
    }
    if idx == 0 || idx >= LUT_LEN {
        return None;
    }
    proof {
        lemma_lut_segment(idx as int);
    }
    let (adc1, temp1) = lut[idx];
    let (adc0, temp0) = lut[idx - 1];
    let temp_diff: i16 = (temp1 - temp0) * 100;
    let adc_diff: i16 = (adc1 - adc0) as i16;
    let slope: i16 = adc_diff / temp_diff;
    assert(slope >= 1) by (nonlinear_arith)
        requires
            slope == adc_diff / temp_diff,
            temp_diff == 500,
            adc_diff >= 500,
    ;
    assert(adc0 <= adc < adc1);
    assert((adc - adc0) / (slope as int) <= adc - adc0) by (nonlinear_arith)
        requires
            slope >= 1,
            adc - adc0 >= 0,
    ;
    let temp: i16 = (adc - adc0) as i16 / slope + temp0 * 100;
    Some(Temperature::from_decimal(temp as i32, 2))
}

/// Where the search for the first entry above `adc` stops: every entry it passes
/// reads at most `adc`, and the entry it stops at reads more.
proof fn lemma_first_above(adc: u16, j: int)
    requires
        0 <= j <= LUT_LEN,
    ensures
        j <= first_above_from(adc, j) <= LUT_LEN,
        forall|m: int| j <= m < first_above_from(adc, j) ==> ntc_lut()[m].0 <= adc,
        first_above_from(adc, j) < LUT_LEN ==> ntc_lut()[first_above_from(adc, j)].0 > adc,
    decreases LUT_LEN - j,
{
    if j < LUT_LEN && ntc_lut()[j].0 <= adc {
        lemma_first_above(adc, j + 1);
    }
}

/// Integer interpolation with the slope `s = d / e` rounded down stays within one
/// step below the straight line, and above it by no more than the slope's rounding.
proof fn lemma_rounded_slope(x: int, d: int, e: int, s: int)
    requires
        e == 500,
        d >= 500,
        s == d / e,
        0 <= x < d,
        d - s * e <= 412 * s,
    ensures
        (x / s) * d >= x * e - d,
        (x / s) * d <= x * e + 412 * d,
{
    assert(s >= 1 && s * e <= d) by (nonlinear_arith)
        requires
            e == 500,
            d >= 500,
            s == d / e,
    ;
    let q = x / s;
    assert(q >= 0 && q * s <= x && x < (q + 1) * s) by (nonlinear_arith)
        requires
            s >= 1,
            x >= 0,
            q == x / s,
    ;
    assert(q * d >= x * e - d) by (nonlinear_arith)
        requires
            q >= 0,
            x < (q + 1) * s,
            s * e <= d,
            e > 0,
    ;
    assert(q * d <= x * e + 412 * d) by (nonlinear_arith)
        requires
            q >= 0,
            q * s <= x,
            x < d,
            d - s * e <= 412 * s,
            e > 0,
            s >= 1,
    ;
}

/// The temperature read between two entries of the table follows the straight line
/// between them: with `x` the reading's distance from the lower entry, `d` the
/// readings and `e` the hundredths of a degree between the entries, the result in
/// hundredths is at most one hundredth below `t0 + x * e / d`, and at most 4.12
/// degrees above it (the rounding of the integer slope, largest at 85 to 90 degrees).
/// The reading lies at or above the lower entry and below the upper one.
pub proof fn lemma_ntc_interpolation(adc: u16)
    requires
        1 <= first_above_from(adc, 0) < LUT_LEN,
    ensures
        ({
            let i = first_above_from(adc, 0);
            let (a0, t0) = ntc_lut()[i - 1];
            let (a1, t1) = ntc_lut()[i];
            let c = segment_centi(adc, i);
            let x = adc - a0;
            let d = a1 - a0;
            let e = (t1 - t0) * 100;
            &&& a0 <= adc < a1
            &&& c * d >= t0 * 100 * d + x * e - d
            &&& c * d <= t0 * 100 * d + x * e + 412 * d
        }),
{
    let i = first_above_from(adc, 0);
    lemma_first_above(adc, 0);
    lemma_lut_segment(i);
    let (a0, t0) = ntc_lut()[i - 1];
    let (a1, t1) = ntc_lut()[i];
    let x = adc - a0;
    let d = a1 - a0;
    let e = (t1 - t0) * 100;
    let s = d / e;
    assert(e == 500);
    lemma_rounded_slope(x, d, e, s);
    let c = segment_centi(adc, i);
    assert(c == x / s + t0 * 100);
    assert(c * d == (x / s) * d + t0 * 100 * d) by (nonlinear_arith)
        requires
            c == x / s + t0 * 100,
    ;
}

} // verus!
