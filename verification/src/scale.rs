//! The zoom-to-scale transform.
//!
//! Zoom levels are exact integers counting hundredths of a logical zoom
//! unit, so the visible zoom range `[1.0, 17.0]` is `[100, 1700]`.  The
//! derived scale is the number of world units spanned by one pixel,
//! held in Q0.64 fixed point (the real value times 2^64).
//!
//! The ideal scale is `1 / (2^zoom * ZOOM_PIXELS_FACTOR)` with
//! `ZOOM_PIXELS_FACTOR = 200`: it halves for every whole zoom unit.  The
//! fixed-point realization is exact at whole zoom units and linearly
//! interpolated across the hundredths in between, which keeps the two
//! properties that the navigation math depends on: the scale is strictly
//! positive and strictly decreasing in the zoom level.

use vstd::prelude::*;
use vstd::arithmetic::div_mod::{
    lemma_div_by_self, lemma_div_denominator, lemma_div_is_ordered,
    lemma_div_is_ordered_by_denominator, lemma_div_multiples_vanish, lemma_div_plus_one,
    lemma_fundamental_div_mod, lemma_fundamental_div_mod_converse,
};
use vstd::arithmetic::power2::{
    lemma2_to64, lemma_pow2_adds, lemma_pow2_pos, lemma_pow2_strictly_increases, pow2,
};

verus! {

/// Lowest zoom level, in hundredths of a zoom unit (1.0).
pub const ZOOM_MIN_CENTI: i64 = 100;

/// Highest zoom level, in hundredths of a zoom unit (17.0).
pub const ZOOM_MAX_CENTI: i64 = 1700;

/// Zoom level at startup, in hundredths of a zoom unit (2.0).
pub const ZOOM_DEFAULT_CENTI: i64 = 200;

/// Largest value the Q0.64 scale ever takes on the zoom range: the scale
/// at zoom level 1.0, `floor(200 * 2^64 / 80000)`.
pub const SCALE_MAX_Q64: u64 = 46116860184273879;

/// The Q0.64 scale for a zoom level given in hundredths of a zoom unit.
///
/// Writing the level as `q` whole units plus `r` hundredths, the scale
/// interpolates linearly between `2^64 / (200 * 2^q)` at `r == 0` and
/// half of that at `r == 100`, i.e. it is
/// `(200 - r) * 2^64 / (40000 * 2^q)`; the denominator folds together
/// the 200-pixel calibration factor and the interpolation divisor 200.
pub open spec fn scale_q64_spec(zoom_centi: int) -> int
    recommends
        ZOOM_MIN_CENTI <= zoom_centi <= ZOOM_MAX_CENTI,
{
    ((200 - zoom_centi % 100) * pow2(64)) / (40000 * pow2((zoom_centi / 100) as nat) as int)
}

/// The scale is strictly positive and never exceeds `SCALE_MAX_Q64`
/// anywhere on the zoom range.
pub proof fn lemma_scale_q64_bounds(z: int)
    requires
        ZOOM_MIN_CENTI <= z <= ZOOM_MAX_CENTI,
    ensures
        0 < scale_q64_spec(z) <= SCALE_MAX_Q64,
{
    lemma2_to64();
    let q = z / 100;
    let r = z % 100;
    lemma_div_is_ordered(100, z, 100);
    lemma_div_is_ordered(z, 1700, 100);
    assert(1 <= q <= 17);
    assert(0 <= r < 100);
    lemma_pow2_pos(q as nat);
    if q < 17 {
        lemma_pow2_strictly_increases(q as nat, 17);
    }
    let p64: int = pow2(64) as int;
    let pq: int = pow2(q as nat) as int;
    assert(pq <= 0x20000);
    let d: int = 40000 * pq;
    let n: int = (200 - r) * p64;
    assert(0 < d <= 40000 * 0x20000);
    assert(n >= 101 * p64);
    assert(n >= d);
    lemma_div_is_ordered(d, n, d);
    lemma_div_by_self(d);
    assert(scale_q64_spec(z) >= 1);
    if 1 < q {
        lemma_pow2_strictly_increases(1, q as nat);
    }
    assert(pq >= 2);
    assert(d >= 80000);
    lemma_div_is_ordered_by_denominator(n, 80000, d);
    lemma_div_is_ordered(n, 200 * p64, 80000);
    lemma_fundamental_div_mod_converse(200 * p64, 80000, 46116860184273879, 3200);
    assert(scale_q64_spec(z) <= SCALE_MAX_Q64);
}

/// At a whole zoom unit the interpolation vanishes: the Q0.64 scale is
/// exactly `floor(2^64 / (200 * 2^q))`, the fixed-point image of the
/// ideal `1 / (2^zoom * ZOOM_PIXELS_FACTOR)`.
pub proof fn lemma_scale_exact_at_whole_units(q: int)
    requires
        1 <= q <= 17,
    ensures
        scale_q64_spec(100 * q) == pow2(64) as int / (200 * pow2(q as nat) as int),
{
    let p64: int = pow2(64) as int;
    let pq: int = pow2(q as nat) as int;
    lemma_pow2_pos(q as nat);
    lemma_fundamental_div_mod_converse(100 * q, 100, q, 0);
    assert(scale_q64_spec(100 * q) == (200 * p64) / (40000 * pq));
    lemma_div_denominator(200 * p64, 200, 200 * pq);
    lemma_div_multiples_vanish(p64, 200);
    assert((200 * p64) / 200 == p64);
    assert(200 * (200 * pq) == 40000 * pq);
}

/// If the numerator drops by at least the (positive) denominator, the
/// quotient drops strictly.
proof fn lemma_div_strictly_less(n1: int, n2: int, d: int)
    requires
        0 <= n1,
        0 < d,
        n1 + d <= n2,
    ensures
        n1 / d < n2 / d,
{
    lemma_div_plus_one(n1, d);
    lemma_div_is_ordered(d + n1, n2, d);
}

/// One hundredth of a zoom unit strictly shrinks the scale.
proof fn lemma_scale_step(z: int)
    requires
        ZOOM_MIN_CENTI <= z < ZOOM_MAX_CENTI,
    ensures
        scale_q64_spec(z + 1) < scale_q64_spec(z),
{
    lemma2_to64();
    let q = z / 100;
    let r = z % 100;
    lemma_fundamental_div_mod(z, 100);
    lemma_div_is_ordered(100, z, 100);
    lemma_div_is_ordered(z, 1699, 100);
    assert(1 <= q <= 16);
    assert(0 <= r < 100);
    lemma_pow2_pos(q as nat);
    if q < 16 {
        lemma_pow2_strictly_increases(q as nat, 16);
    }
    let p64: int = pow2(64) as int;
    let pq: int = pow2(q as nat) as int;
    assert(pq <= 0x10000);
    let d: int = 40000 * pq;
    assert(0 < d <= 40000 * 0x10000);
    assert(d < p64);
    if r < 99 {
        lemma_fundamental_div_mod_converse(z + 1, 100, q, r + 1);
        lemma_div_strictly_less((199 - r) * p64, (200 - r) * p64, d);
    } else {
        lemma_fundamental_div_mod_converse(z + 1, 100, q + 1, 0);
        lemma_pow2_adds(q as nat, 1);
        assert(40000 * pow2((q + 1) as nat) == 2 * d);
        lemma_div_denominator(200 * p64, 2, d);
        lemma_div_multiples_vanish(100 * p64, 2);
        assert(scale_q64_spec(z + 1) == (100 * p64) / d);
        lemma_div_strictly_less(100 * p64, 101 * p64, d);
    }
}

/// The scale is strictly decreasing in the zoom level: zooming in always
/// shrinks the world span of a pixel.
pub proof fn lemma_scale_strictly_decreasing(z1: int, z2: int)
    requires
        ZOOM_MIN_CENTI <= z1 < z2 <= ZOOM_MAX_CENTI,
    ensures
        scale_q64_spec(z2) < scale_q64_spec(z1),
    decreases z2 - z1,
{
    if z2 == z1 + 1 {
        lemma_scale_step(z1);
    } else {
        lemma_scale_step(z2 - 1);
        lemma_scale_strictly_decreasing(z1, z2 - 1);
    }
}

/// Computes the Q0.64 scale for a zoom level in hundredths of a unit.
pub fn scale_q64(zoom_centi: i64) -> (s: u64)
    requires
        ZOOM_MIN_CENTI <= zoom_centi <= ZOOM_MAX_CENTI,
    ensures
        s == scale_q64_spec(zoom_centi as int),
        0 < s <= SCALE_MAX_Q64,
{
    proof {
        lemma_scale_q64_bounds(zoom_centi as int);
        lemma2_to64();
    }
    let zc: u64 = zoom_centi as u64;
    let q: u64 = zc / 100;
    let r: u64 = zc % 100;
    let mut p: u128 = 1;
    let mut i: u64 = 0;
    while i < q
        invariant
            i <= q <= 17,
            p == pow2(i as nat),
        decreases q - i,
    {
        proof {
            lemma_pow2_strictly_increases(i as nat, 17);
            lemma2_to64();
            lemma_pow2_adds(i as nat, 1);
        }
        p = 2 * p;
        i = i + 1;
    }
    let denom: u128 = 40000 * p;
    let numer: u128 = (200 - (r as u128)) * 0x1_0000_0000_0000_0000u128;
    let wide: u128 = numer / denom;
    proof {
        lemma_pow2_pos(q as nat);
        assert(numer == (200 - zoom_centi as int % 100) * pow2(64));
        assert(denom == 40000 * pow2((zoom_centi as int / 100) as nat));
        assert(wide == scale_q64_spec(zoom_centi as int));
    }
    wide as u64
}

} // verus!
