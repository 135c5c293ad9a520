//! Small integer helpers shared by the drivers: clamping, truncating
//! division, and linear range remapping in fixed-point arithmetic.

use vstd::prelude::*;

verus! {

/// `v` forced into the closed interval `[lo, hi]` (meaningful when
/// `lo <= hi`; with a reversed interval `lo` wins below, `hi` above).
pub open spec fn clamp_spec(v: int, lo: int, hi: int) -> int {
    if v < lo {
        lo
    } else if v > hi {
        hi
    } else {
        v
    }
}

/// Division rounding toward zero, as the machine division does.
pub open spec fn div_trunc(a: int, b: int) -> int {
    if a >= 0 && b > 0 {
        a / b
    } else if a < 0 && b > 0 {
        -((-a) / b)
    } else if a >= 0 && b < 0 {
        -(a / (-b))
    } else {
        (-a) / (-b)
    }
}

/// Clamp `value` into the closed interval `[min, max]`.
pub fn clamp_i64(value: i64, min: i64, max: i64) -> (r: i64)
    ensures
        r == clamp_spec(value as int, min as int, max as int),
{
    if value < min {
        min
    } else if value > max {
        max
    } else {
        value
    }
}

/// Divide rounding toward zero.
pub fn div_trunc_i64(a: i64, b: i64) -> (r: i64)
    requires
        b != 0,
        !(a == i64::MIN && b == -1),
    ensures
        r == div_trunc(a as int, b as int),
{
    proof {
        lemma_div_trunc_in_i64_range(a as int, b as int);
    }
    match a.checked_div(b) {
        Some(v) => v,
        None => {
            proof {
                assert(false);
            }
            0
        },
    }
}

/// A truncating division by a positive divisor stays inside any interval
/// around zero whose scaled bounds enclose the dividend.
pub proof fn lemma_div_trunc_range(a: int, b: int, lo: int, hi: int)
    requires
        b > 0,
        lo <= 0 <= hi,
        b * lo <= a <= b * hi,
    ensures
        lo <= div_trunc(a, b) <= hi,
{
    if a >= 0 {
        vstd::arithmetic::div_mod::lemma_div_pos_is_pos(a, b);
        vstd::arithmetic::div_mod::lemma_div_is_ordered(a, b * hi, b);
        vstd::arithmetic::div_mod::lemma_div_multiples_vanish(hi, b);
    } else {
        assert(b * (-lo) == -(b * lo)) by (nonlinear_arith);
        vstd::arithmetic::div_mod::lemma_div_pos_is_pos(-a, b);
        vstd::arithmetic::div_mod::lemma_div_is_ordered(-a, b * (-lo), b);
        vstd::arithmetic::div_mod::lemma_div_multiples_vanish(-lo, b);
    }
}

/// `value`, seen as a position inside `[from_min, from_max]`, mapped
/// linearly onto `[to_min, to_max]`, rounding toward zero before the
/// target offset is added.
pub open spec fn remap_spec(
    value: int,
    from_min: int,
    from_max: int,
    to_min: int,
    to_max: int,
) -> int {
    div_trunc((value - from_min) * (to_max - to_min), from_max - from_min) + to_min
}

/// Linear range remapping in fixed point. The bounds keep every
/// intermediate product well inside the machine range.
pub fn remap_i64(value: i64, from_min: i64, from_max: i64, to_min: i64, to_max: i64) -> (r: i64)
    requires
        0 < from_max - from_min <= 0x100_0000_0000,
        -0x100_0000_0000 <= value - from_min <= 0x100_0000_0000,
        -0x10_0000 <= to_max - to_min <= 0x10_0000,
        -0x10_0000 <= to_min <= 0x10_0000,
    ensures
        r == remap_spec(value as int, from_min as int, from_max as int, to_min as int, to_max as int),
        -0x1000_0000_0010_0000 <= r <= 0x1000_0000_0010_0000,
{
    let d1: i64 = value - from_min;
    let d2: i64 = to_max - to_min;
    proof {
        assert(d1 * d2 <= 0x100_0000_0000 * 0x10_0000 && d1 * d2 >= -(0x100_0000_0000
            * 0x10_0000)) by (nonlinear_arith)
            requires
                -0x100_0000_0000 <= d1 <= 0x100_0000_0000,
                -0x10_0000 <= d2 <= 0x10_0000,
        ;
    }
    let num: i64 = d1 * d2;
    let den: i64 = from_max - from_min;
    proof {
        assert(den * (-0x1000_0000_0000_0000) <= num && num <= den * 0x1000_0000_0000_0000)
            by (nonlinear_arith)
            requires
                den >= 1,
                -0x1000_0000_0000_0000 <= num <= 0x1000_0000_0000_0000,
        ;
        lemma_div_trunc_range(
            num as int,
            den as int,
            -0x1000_0000_0000_0000,
            0x1000_0000_0000_0000,
        );
    }
    div_trunc_i64(num, den) + to_min
}

/// Truncating division never grows the magnitude, so it never leaves the
/// machine range — except for `i64::MIN / -1`, which is excluded.
pub proof fn lemma_div_trunc_in_i64_range(a: int, b: int)
    requires
        i64::MIN <= a <= i64::MAX,
        i64::MIN <= b <= i64::MAX,
        b != 0,
        !(a == i64::MIN && b == -1),
    ensures
        i64::MIN <= div_trunc(a, b) <= i64::MAX,
{
    let ma = if a >= 0 { a } else { -a };
    let mb = if b > 0 { b } else { -b };
    vstd::arithmetic::div_mod::lemma_div_pos_is_pos(ma, mb);
    vstd::arithmetic::div_mod::lemma_div_nonincreasing(ma, mb);
    if (a >= 0) == (b > 0) {
        if ma > i64::MAX {
            // only a == i64::MIN reaches here, and then b <= -2
            assert(mb >= 2);
            vstd::arithmetic::div_mod::lemma_div_is_ordered_by_denominator(ma, 2, mb);
            assert(ma / 2 <= i64::MAX);
        }
    }
}

} // verus!
