//! Values as text: a sign, whole units, a decimal fraction and the unit.
use vstd::prelude::*;
use crate::arith::abs;
use super::physical::Physical;
use super::ratio::Ratio;
use super::units::Unit;

verus! {

/// The character of the decimal digit `d`.
pub open spec fn digit_char(d: nat) -> char {
    (48 + d) as char
}

/// `n` in decimal, most significant digit first, without leading zeros.
pub open spec fn decimal(n: nat) -> Seq<char>
    decreases n,
{
    if n < 10 {
        seq![digit_char(n)]
    } else {
        decimal(n / 10).push(digit_char(n % 10))
    }
}

/// `n` in decimal, padded with zeros on the left to at least `width` digits.
pub open spec fn zero_padded(n: nat, width: nat) -> Seq<char> {
    let d = decimal(n);
    if d.len() >= width {
        d
    } else {
        Seq::new((width - d.len()) as nat, |_i: int| '0') + d
    }
}

/// `prefix`, `whole` in decimal, a point, `frac` in decimal padded with zeros
/// to `width` digits, and `suffix`.
pub open spec fn fixed_point_text(
    prefix: Seq<char>,
    whole: nat,
    frac: nat,
    width: nat,
    suffix: Seq<char>,
) -> Seq<char> {
    prefix + decimal(whole) + seq!['.'] + zero_padded(frac, width) + suffix
}

/// `format!("{}{}.{:0w$}{}", prefix, whole, frac, suffix, w = width)`: integers
/// are written in decimal without leading zeros, and the `0w$` form pads the
/// fraction with zeros on the left to `width` digits.
#[verifier::external_body]
fn format_fixed_point(prefix: &str, whole: u32, frac: u32, width: usize, suffix: &str) -> (r:
    String)
    ensures
        r@ == fixed_point_text(prefix@, whole as nat, frac as nat, width as nat, suffix@),
{
    format!("{}{}.{:0w$}{}", prefix, whole, frac, suffix, w = width)
}

/// The text of a value of `millis` thousandths of a unit named `name`: its
/// sign, the whole units and three decimals of the magnitude, and the name.
pub open spec fn physical_text(millis: int, name: Seq<char>) -> Seq<char> {
    let sign = if millis < 0 {
        seq!['-']
    } else {
        seq!['+']
    };
    fixed_point_text(sign, (abs(millis) / 1000) as nat, (abs(millis) % 1000) as nat, 3, name)
}

/// The text of a ratio of `steps` steps of 0.01%: whole percent, two
/// decimals and a percent sign.
pub open spec fn ratio_text(steps: int) -> Seq<char> {
    fixed_point_text(Seq::empty(), (steps / 100) as nat, (steps % 100) as nat, 2, seq!['%'])
}

impl<U: Unit> Physical<U> {
    /// The value as text, such as `+1.500V` or `-0.250A`.
    pub fn to_string(&self) -> (s: String)
        ensures
            s@ == physical_text(self@, U::NAME@),
    {
        let m: i64 = self.as_millis() as i64;
        let magnitude: i64 = if m < 0 {
            -m
        } else {
            m
        };
        let whole: u32 = (magnitude / 1000) as u32;
        let frac: u32 = (magnitude % 1000) as u32;
        let sign = if m < 0 {
            "-"
        } else {
            "+"
        };
        proof {
            reveal_strlit("-");
            reveal_strlit("+");
        }
        format_fixed_point(sign, whole, frac, 3, U::NAME)
    }
}

impl Ratio {
    /// The ratio as text, such as `42.05%`.
    pub fn to_string(&self) -> (s: String)
        ensures
            s@ == ratio_text(self@),
    {
        let steps: u32 = self.as_steps() as u32;
        proof {
            reveal_strlit("");
            reveal_strlit("%");
        }
        format_fixed_point("", steps / 100, steps % 100, 2, "%")
    }
}

} // verus!
