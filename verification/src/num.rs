//! Scalar units and the fixed-point arithmetic the engine is built on.
//!
//! The engine works on integers throughout: lengths and coordinates are kept
//! in thousandths of a pixel, durations in milliseconds, angles in
//! thousandths of a degree.  Each helper here carries an exact contract over
//! the mathematical integers.

use vstd::prelude::*;

verus! {

/// Lengths, coordinates and speeds, in thousandths of a pixel
/// (speeds are per second).
pub type Pixels = i64;

/// Durations, in milliseconds.
pub type Millis = i64;

/// Angles, in thousandths of a degree; a full turn is `TURN`.
pub type Angle = i64;

/// Length units per pixel.
pub const PX: i64 = 1000;

/// Angle units in a full turn.
pub const TURN: i64 = 360000;

/// Angle units in half a turn.
pub const HALF_TURN: i64 = 180000;

/// Angle units in a quarter turn.
pub const QUARTER_TURN: i64 = 90000;

/// Scale of trigonometric values: `sin` and `cos` of this module range over
/// `-TRIG_ONE ..= TRIG_ONE`.
pub const TRIG_ONE: i64 = 10000;

/// Largest coordinate or vector-norm magnitude the engine works with
/// (ten million pixels).  Positions are clamped into this box so that all
/// later arithmetic stays in range.
pub const POS_BOUND: i64 = 10000000000;

/// Largest frame delta accepted by the update functions: one hour.
pub const DT_MAX: i64 = 3600000;

/// Magnitude of an integer.
pub open spec fn abs_i(a: int) -> int {
    if a >= 0 { a } else { -a }
}

/// Quotient rounded toward zero, as Rust's `/` computes it on machine
/// integers (spec `/` alone is Euclidean).
pub open spec fn tdiv(a: int, d: int) -> int {
    if a >= 0 { a / d } else { -((-a) / d) }
}

/// `a` limited to the interval `lo ..= hi`.
pub open spec fn clamp_i(a: int, lo: int, hi: int) -> int {
    if a < lo { lo } else if a > hi { hi } else { a }
}

/// Largest `r >= 0` with `r * r <= n` (0 for negative `n`).
pub open spec fn sqrt_floor(n: int) -> int
    decreases n,
{
    if n <= 0 {
        0
    } else {
        let p = sqrt_floor(n - 1);
        if (p + 1) * (p + 1) <= n { p + 1 } else { p }
    }
}

/// For bounded nonnegative factors the product is bounded by the product of
/// the bounds.
pub proof fn lemma_mul_le(x: int, y: int, xm: int, ym: int)
    by (nonlinear_arith)
    requires
        0 <= x <= xm,
        0 <= y <= ym,
    ensures
        x * y <= xm * ym,
{
}

/// Magnitudes multiply: `|a| * |b| == |a * b|`.
pub proof fn lemma_abs_mul(a: int, b: int)
    by (nonlinear_arith)
    ensures
        abs_i(a) * abs_i(b) == abs_i(a * b),
{
}

/// `sqrt_floor` really is the floor of the square root.
pub proof fn lemma_sqrt_floor(n: int)
    requires
        n >= 0,
    ensures
        0 <= sqrt_floor(n),
        sqrt_floor(n) * sqrt_floor(n) <= n,
        n < (sqrt_floor(n) + 1) * (sqrt_floor(n) + 1),
    decreases n,
{
    if n == 0 {
    } else {
        lemma_sqrt_floor(n - 1);
        let p = sqrt_floor(n - 1);
        if (p + 1) * (p + 1) <= n {
            assert(n == (p + 1) * (p + 1)) by (nonlinear_arith)
                requires
                    n - 1 < (p + 1) * (p + 1),
                    (p + 1) * (p + 1) <= n,
            ;
            assert((p + 1 + 1) * (p + 1 + 1) > n) by (nonlinear_arith)
                requires
                    0 <= p,
                    n == (p + 1) * (p + 1),
            ;
        }
    }
}

/// Any `r` with `r * r <= n < (r + 1) * (r + 1)` equals `sqrt_floor(n)`.
pub proof fn lemma_sqrt_floor_unique(n: int, r: int)
    requires
        n >= 0,
        0 <= r,
        r * r <= n,
        n < (r + 1) * (r + 1),
    ensures
        r == sqrt_floor(n),
{
    lemma_sqrt_floor(n);
    let s = sqrt_floor(n);
    assert(r == s) by (nonlinear_arith)
        requires
            0 <= r,
            0 <= s,
            r * r <= n,
            n < (r + 1) * (r + 1),
            s * s <= n,
            n < (s + 1) * (s + 1),
    ;
}

/// A truncated quotient is no larger in magnitude than `m` whenever the
/// dividend is at most `m * d` in magnitude.
pub proof fn lemma_tdiv_mag(a: int, d: int, m: int)
    requires
        1 <= d,
        0 <= m,
        abs_i(a) <= m * d,
    ensures
        abs_i(tdiv(a, d)) <= m,
{
    let n = abs_i(a);
    vstd::arithmetic::div_mod::lemma_div_is_ordered(n, m * d, d);
    vstd::arithmetic::div_mod::lemma_div_multiples_vanish(m, d);
    assert(m * d == d * m) by (nonlinear_arith);
    vstd::arithmetic::div_mod::lemma_div_pos_is_pos(n, d);
}

/// Magnitude of an `i64`, widened so that `i64::MIN` needs no special case.
pub fn mag(a: i64) -> (r: u128)
    ensures
        r as int == abs_i(a as int),
{
    if a >= 0 {
        a as u128
    } else {
        (-(a as i128)) as u128
    }
}

/// `a * b / d` rounded toward zero, for products that fit in an `i64`.
pub fn mul_div(a: i64, b: i64, d: i64) -> (r: i64)
    requires
        1 <= d,
        -0x7fffffffffffffff <= a as int * b as int <= 0x7fffffffffffffff,
    ensures
        r as int == tdiv(a as int * b as int, d as int),
{
    proof {
        lemma_abs_mul(a as int, b as int);
    }
    let ma: u128 = mag(a);
    let mb: u128 = mag(b);
    proof {
        lemma_mul_le(ma as int, mb as int, 0x8000000000000000, 0x8000000000000000);
    }
    let m: u128 = ma * mb;
    let q: u128 = m / (d as u128);
    let ghost p: int = a as int * b as int;
    proof {
        vstd::arithmetic::div_mod::lemma_div_nonincreasing(m as int, d as int);
        if (a < 0 && b > 0) || (a > 0 && b < 0) {
            assert(p < 0) by (nonlinear_arith)
                requires
                    p == a as int * b as int,
                    (a < 0 && b > 0) || (a > 0 && b < 0),
            ;
        } else {
            assert(p >= 0) by (nonlinear_arith)
                requires
                    p == a as int * b as int,
                    !((a < 0 && b > 0) || (a > 0 && b < 0)),
            ;
        }
    }
    if (a < 0 && b > 0) || (a > 0 && b < 0) {
        (-(q as i128)) as i64
    } else {
        q as i64
    }
}

/// Saturating translation: `a + b` clamped into the engine's coordinate box.
pub fn clamp_add(a: i64, b: i64) -> (r: i64)
    requires
        abs_i(a as int) <= 0x1000000000000000,
        abs_i(b as int) <= 0x1000000000000000,
    ensures
        r as int == clamp_i(a as int + b as int, -POS_BOUND as int, POS_BOUND as int),
{
    let s: i64 = a + b;
    if s < -POS_BOUND {
        -POS_BOUND
    } else if s > POS_BOUND {
        POS_BOUND
    } else {
        s
    }
}

/// Half of a nonnegative length.
pub fn half(a: i64) -> (r: i64)
    requires
        0 <= a,
    ensures
        r as int == a as int / 2,
{
    ((a as u64) / 2) as i64
}

/// Quotient of nonnegative machine integers.
pub fn div_nn(a: i64, d: i64) -> (r: i64)
    requires
        0 <= a,
        1 <= d,
    ensures
        r as int == a as int / d as int,
{
    ((a as u64) / (d as u64)) as i64
}

/// Floor of the square root of a 128-bit integer.
pub fn isqrt(n: u128) -> (r: u64)
    ensures
        r as int == sqrt_floor(n as int),
{
    let mut lo: u128 = 0;
    let mut hi: u128 = 0x10000000000000000;
    proof {
        assert((0x10000000000000000 as int) * (0x10000000000000000 as int) > n as int);
    }
    while lo + 1 < hi
        invariant
            0 <= lo < hi <= 0x10000000000000000,
            lo as int * lo as int <= n as int,
            (n as int) < hi as int * hi as int,
        decreases hi - lo,
    {
        let mid: u128 = lo + (hi - lo) / 2;
        proof {
            lemma_mul_le(mid as int, mid as int, 0xffffffffffffffff, 0xffffffffffffffff);
        }
        if mid * mid <= n {
            lo = mid;
        } else {
            hi = mid;
        }
    }
    proof {
        assert(lo < 0x10000000000000000) by (nonlinear_arith)
            requires
                lo as int * lo as int <= n as int,
                (n as int) < 0x100000000000000000000000000000000,
                0 <= lo as int,
                (n as int) < hi as int * hi as int,
                hi as int <= 0x10000000000000000,
                lo < hi,
        ;
        lemma_sqrt_floor_unique(n as int, lo as int);
    }
    lo as u64
}

} // verus!
