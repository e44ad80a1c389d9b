//! Fixed-point trigonometry for the turtle's heading vector.
//!
//! Angles are milli-degrees (`1000` fixed-point steps per degree, see
//! [`crate::value::MILLI`]); the sine and cosine are returned in milli-units,
//! so a result of `1000` stands for one. The sine uses Bhaskara's rational
//! approximation, which is exact at every multiple of ninety degrees, so
//! moves along the four cardinal headings land exactly where the geometry
//! says.

use vstd::prelude::*;

verus! {

/// Milli-degrees in a full turn.
pub const DEG_FULL: i64 = 360000;

/// Milli-degrees in a half turn.
pub const DEG_HALF: i64 = 180000;

/// Milli-degrees in a quarter turn.
pub const DEG_QUARTER: i64 = 90000;

/// Truncating division as the machine performs it on signed integers: the
/// quotient is rounded toward zero.
pub open spec fn tdiv(a: int, b: int) -> int {
    if a >= 0 {
        a / b
    } else {
        -((-a) / b)
    }
}

/// Truncating remainder as the machine performs it on signed integers: the
/// result keeps the sign of the dividend.
pub open spec fn trem(a: int, b: int) -> int {
    if a >= 0 {
        a % b
    } else {
        -((-a) % b)
    }
}

/// An angle reduced into `[0, 360000)`, milli-degrees.
pub open spec fn norm_angle(x: int) -> int {
    x % (DEG_FULL as int)
}

/// Bhaskara's sine over the first half turn, milli-units: for `x` in
/// `[0, 180000]` milli-degrees,
/// `sin(x) ~ 4000 * x * (180000 - x) / (40500000000 - x * (180000 - x))`.
/// Exact at `0`, `30000`, `90000`, `150000` and `180000` milli-degrees.
pub open spec fn sine_half(x: int) -> int {
    (4000 * x * (180000 - x)) / (40500000000 - x * (180000 - x))
}

/// The sine of any angle in milli-degrees, milli-units: the angle is reduced
/// into one turn, and the second half turn is the negated first one.
pub open spec fn spec_sine(x: int) -> int {
    if norm_angle(x) < DEG_HALF as int {
        sine_half(norm_angle(x))
    } else {
        -sine_half(norm_angle(x) - DEG_HALF as int)
    }
}

/// The cosine, as the sine a quarter turn ahead.
pub open spec fn spec_cosine(x: int) -> int {
    spec_sine(x + DEG_QUARTER as int)
}

/// The product of the first-half sine's numerator pieces stays within the
/// bounds that make the quotient a milli-unit in `[0, 1000]`.
proof fn lemma_sine_half_bounds(x: int)
    requires
        0 <= x <= 180000,
    ensures
        0 <= sine_half(x) <= 1000,
{
    assert(0 <= x * (180000 - x) <= 8100000000) by (nonlinear_arith)
        requires
            0 <= x <= 180000,
    ;
    assert(4000 * x * (180000 - x) == 4000 * (x * (180000 - x))) by (nonlinear_arith);
    let p = x * (180000 - x);
    let num = 4000 * p;
    let den = 40500000000 - p;
    assert(num <= 1000 * den);
    vstd::arithmetic::div_mod::lemma_div_pos_is_pos(num, den);
    vstd::arithmetic::div_mod::lemma_div_is_ordered(num, 1000 * den, den);
    vstd::arithmetic::div_mod::lemma_div_by_multiple(1000, den);
    assert(num / den <= 1000);
}

/// The sine of any angle is a milli-unit in `[-1000, 1000]`.
pub proof fn lemma_sine_bounds(x: int)
    ensures
        -1000 <= spec_sine(x) <= 1000,
{
    let n = norm_angle(x);
    assert(0 <= n < 360000);
    if n < 180000 {
        lemma_sine_half_bounds(n);
    } else {
        lemma_sine_half_bounds(n - 180000);
    }
}

/// Bhaskara's sine over the first half turn, computed exactly as
/// [`sine_half`] states it.
fn sine_half_exec(x: i64) -> (r: i64)
    requires
        0 <= x <= 180000,
    ensures
        r == sine_half(x as int),
        0 <= r <= 1000,
{
    proof {
        assert(0 <= x * (180000 - x) <= 8100000000) by (nonlinear_arith)
            requires
                0 <= x <= 180000,
        ;
        assert(4000 * x * (180000 - x) == 4000 * (x * (180000 - x))) by (nonlinear_arith);
        lemma_sine_half_bounds(x as int);
    }
    let p: i64 = x * (180000 - x);
    let num: i64 = 4000 * p;
    let den: i64 = 40500000000 - p;
    num / den
}

/// The sine of any angle between minus two and plus two turns, milli-units.
pub fn sine(x: i64) -> (r: i64)
    requires
        -720000 <= x <= 720000,
    ensures
        r == spec_sine(x as int),
        -1000 <= r <= 1000,
{
    let shifted: i64 = x + 720000;
    let n: i64 = shifted % 360000;
    proof {
        vstd::arithmetic::div_mod::lemma_mod_multiples_vanish(2, x as int, 360000);
        assert(shifted as int == 360000 * 2 + x as int);
        assert(n == norm_angle(x as int));
    }
    if n < 180000 {
        sine_half_exec(n)
    } else {
        let r = sine_half_exec(n - 180000);
        -r
    }
}

/// The cosine of any angle between minus two turns and a little under two,
/// milli-units.
pub fn cosine(x: i64) -> (r: i64)
    requires
        -720000 <= x <= 630000,
    ensures
        r == spec_cosine(x as int),
        -1000 <= r <= 1000,
{
    sine(x + 90000)
}

} // verus!
