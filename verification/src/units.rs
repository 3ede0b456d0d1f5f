//! Fixed-point lengths and the arithmetic of one frame's travel.

use vstd::prelude::*;

verus! {

/// Micro-units in one world unit.
pub const UNIT: i64 = 1_000_000;

/// The value of `v` brought into the range of a coordinate.
pub open spec fn saturate(v: int) -> int {
    if v < i64::MIN as int {
        i64::MIN as int
    } else if v > i64::MAX as int {
        i64::MAX as int
    } else {
        v
    }
}

/// `v` held between `lo` and `hi`; the upper bound is applied first.
pub open spec fn clamp(v: int, lo: int, hi: int) -> int {
    let capped = if v > hi { hi } else { v };
    if capped < lo { lo } else { capped }
}

/// The distance in micro-units covered in `dt` microseconds at `speed` units
/// per second, capped at the largest coordinate.
pub open spec fn travel(speed: int, dt: int) -> int {
    if speed * dt > i64::MAX as int {
        i64::MAX as int
    } else {
        speed * dt
    }
}

/// Whether `c` is the share that each axis gets of a diagonal move of length
/// `d`: the largest whole number with `c * sqrt(2) <= d`.
pub open spec fn is_diagonal_share(d: int, c: int) -> bool {
    &&& 0 <= c
    &&& 2 * (c * c) <= d * d
    &&& d * d < 2 * ((c + 1) * (c + 1))
}

/// The share that each axis gets of a diagonal move of length `d`.
pub open spec fn diagonal_share(d: int) -> int {
    choose|c: int| is_diagonal_share(d, c)
}

/// Squares grow with their base.
pub proof fn lemma_square_monotone(a: int, b: int)
    by (nonlinear_arith)
    requires
        0 <= a <= b,
    ensures
        a * a <= b * b,
{
}

/// Only one number is the diagonal share of a length.
pub proof fn lemma_diagonal_share_unique(d: int, c1: int, c2: int)
    requires
        is_diagonal_share(d, c1),
        is_diagonal_share(d, c2),
    ensures
        c1 == c2,
{
    if c1 < c2 {
        lemma_square_monotone(c1 + 1, c2);
    } else if c2 < c1 {
        lemma_square_monotone(c2 + 1, c1);
    }
}

/// A diagonal share never exceeds the length it was taken from.
pub proof fn lemma_diagonal_share_bounded(d: int, c: int)
    requires
        0 <= d,
        is_diagonal_share(d, c),
    ensures
        c <= d,
{
    if d < c {
        lemma_square_monotone(d + 1, c);
        assert((d + 1) * (d + 1) == d * d + 2 * d + 1) by (nonlinear_arith);
        assert(0 <= c * c) by (nonlinear_arith);
    }
}

/// Brings a wide intermediate result into the range of a coordinate.
pub fn saturate_coord(v: i128) -> (r: i64)
    ensures
        r as int == saturate(v as int),
{
    if v < i64::MIN as i128 {
        i64::MIN
    } else if v > i64::MAX as i128 {
        i64::MAX
    } else {
        v as i64
    }
}

/// Holds `v` between `lo` and `hi`, the upper bound first.
pub fn clamp_wide(v: i128, lo: i128, hi: i128) -> (r: i128)
    ensures
        r as int == clamp(v as int, lo as int, hi as int),
{
    let capped: i128 = if v > hi { hi } else { v };
    if capped < lo { lo } else { capped }
}

/// The distance covered in `dt` microseconds at `speed` units per second.
pub fn travel_of(speed: u32, dt: u64) -> (d: i64)
    ensures
        d as int == travel(speed as int, dt as int),
        0 <= d,
{
    assert(speed as int * dt as int <= 0xFFFF_FFFF * 0xFFFF_FFFF_FFFF_FFFF) by (nonlinear_arith)
        requires
            0 <= speed as int <= 0xFFFF_FFFF,
            0 <= dt as int <= 0xFFFF_FFFF_FFFF_FFFF,
    ;
    assert(0 <= speed as int * dt as int) by (nonlinear_arith)
        requires
            0 <= speed as int,
            0 <= dt as int,
    ;
    let wide: u128 = (speed as u128) * (dt as u128);
    if wide > i64::MAX as u128 {
        i64::MAX
    } else {
        wide as i64
    }
}

/// The per-axis share of a diagonal move of length `d`.
pub fn diagonal_share_of(d: i64) -> (c: i64)
    requires
        0 <= d,
    ensures
        is_diagonal_share(d as int, c as int),
        c as int == diagonal_share(d as int),
        0 <= c <= d,
{
    let wide: u128 = d as u128;
    proof {
        lemma_square_monotone(d as int, 0x7FFF_FFFF_FFFF_FFFF);
        assert(0x7FFF_FFFF_FFFF_FFFF * 0x7FFF_FFFF_FFFF_FFFF
            == 0x3FFF_FFFF_FFFF_FFFF_0000_0000_0000_0001) by (nonlinear_arith);
        assert(0 <= d as int * d as int) by (nonlinear_arith);
    }
    let target: u128 = wide * wide;
    let mut lo: u128 = 0;
    let mut hi: u128 = wide + 1;
    proof {
        assert(d * d < 2 * ((d + 1) * (d + 1))) by (nonlinear_arith)
            requires
                0 <= d,
        ;
    }
    while hi - lo > 1
        invariant
            0 <= d,
            wide == d as u128,
            target as int == d as int * d as int,
            target <= 0x3FFF_FFFF_FFFF_FFFF_0000_0000_0000_0001,
            lo < hi <= wide + 1,
            2 * (lo as int * lo as int) <= target as int,
            (target as int) < 2 * (hi as int * hi as int),
        decreases hi - lo,
    {
        let mid: u128 = lo + (hi - lo) / 2;
        proof {
            lemma_square_monotone(mid as int, d as int);
            assert(0 <= mid as int * mid as int) by (nonlinear_arith);
        }
        let doubled: u128 = 2 * (mid * mid);
        if doubled <= target {
            lo = mid;
        } else {
            hi = mid;
        }
    }
    proof {
        assert(hi == lo + 1);
        assert(is_diagonal_share(d as int, lo as int));
        lemma_diagonal_share_unique(d as int, lo as int, diagonal_share(d as int));
    }
    lo as i64
}

} // verus!
