//! Integer trigonometry over the engine's angle units.
//!
//! Angles are thousandths of a degree.  `sin`/`cos` use a rational
//! approximation of the sine on a half turn, `atan2` a rational
//! approximation of the arctangent on the first octant; both are exact
//! with respect to the spec functions given here, which are the
//! definitions of the engine's trigonometry.

use vstd::prelude::*;
use crate::num::{Angle, div_nn, lemma_mul_le};

verus! {

/// `a` brought into `[0, TURN)`; the `%` here is the Euclidean remainder.
pub open spec fn norm_angle_spec(a: int) -> int {
    a % 360000
}

/// Sine on `[0, HALF_TURN]`, scaled by `TRIG_ONE`: the rational
/// approximation `4 p / (40500 * 10^6 - p)` with `p = x (HALF_TURN - x)`.
pub open spec fn sin_raw(x: int) -> int {
    (40000 * (x * (180000 - x))) / (40500000000 - x * (180000 - x))
}

/// Sine of any angle, scaled by `TRIG_ONE`.
pub open spec fn sin_spec(a: int) -> int {
    let n = norm_angle_spec(a);
    if n <= 180000 {
        sin_raw(n)
    } else {
        -sin_raw(n - 180000)
    }
}

/// Cosine of any angle, scaled by `TRIG_ONE`.
pub open spec fn cos_spec(a: int) -> int {
    sin_spec(a + 90000)
}

/// Arctangent of `n / d` for `0 <= n <= d`, in angle units: the rational
/// approximation `45 z + 1.564 z (1 - z)` of the first octant, with
/// `z = n / d` carried at scale `TRIG_ONE`.
pub open spec fn atan_frac_spec(n: int, d: int) -> int {
    let q = (n * 10000) / d;
    (45000 * q + (15640 * q * (10000 - q)) / 10000) / 10000
}

/// Direction of the vector `(x, y)` in `[0, TURN)`; zero for the zero
/// vector.
pub open spec fn atan2_spec(y: int, x: int) -> int {
    if x == 0 && y == 0 {
        0
    } else {
        let ax = if x >= 0 { x } else { -x };
        let ay = if y >= 0 { y } else { -y };
        let base = if ay <= ax {
            atan_frac_spec(ay, ax)
        } else {
            90000 - atan_frac_spec(ax, ay)
        };
        if x >= 0 && y >= 0 {
            base
        } else if x < 0 && y >= 0 {
            180000 - base
        } else if x < 0 && y < 0 {
            180000 + base
        } else {
            norm_angle_spec(360000 - base)
        }
    }
}

/// The normalized angle lies in `[0, TURN)`.
pub proof fn lemma_norm_angle_range(a: int)
    ensures
        0 <= norm_angle_spec(a) < 360000,
{
    vstd::arithmetic::div_mod::lemma_mod_division_less_than_divisor(a, 360000);
}

/// `a` brought into `[0, TURN)`.
pub fn norm_angle(a: Angle) -> (r: Angle)
    requires
        -4000000000 <= a <= 4000000000,
    ensures
        r as int == norm_angle_spec(a as int),
        0 <= r < 360000,
{
    let mut c: i64 = a;
    while c < 0 || c >= 360000
        invariant
            c as int % 360000 == a as int % 360000,
            -4000000000 <= c <= 4000000000,
        decreases (if c < 0 { 360000 - c as int } else { c as int }),
    {
        if c < 0 {
            proof {
                vstd::arithmetic::div_mod::lemma_mod_add_multiples_vanish(c as int, 360000);
            }
            c = c + 360000;
        } else {
            proof {
                vstd::arithmetic::div_mod::lemma_mod_sub_multiples_vanish(c as int, 360000);
            }
            c = c - 360000;
        }
    }
    proof {
        vstd::arithmetic::div_mod::lemma_small_mod(c as nat, 360000nat);
    }
    c
}

/// Sine on `[0, HALF_TURN]`.
fn sin_half(x: i64) -> (r: i64)
    requires
        0 <= x <= 180000,
    ensures
        r as int == sin_raw(x as int),
        0 <= r <= 10000,
{
    proof {
        assert(0 <= x as int * (180000 - x as int) <= 8100000000) by (nonlinear_arith)
            requires
                0 <= x as int <= 180000,
        ;
    }
    let p: i64 = x * (180000 - x);
    let num: i64 = 40000 * p;
    let den: i64 = 40500000000 - p;
    let r: i64 = div_nn(num, den);
    proof {
        assert(num <= 10000 * den);
        vstd::arithmetic::div_mod::lemma_div_is_ordered(num as int, 10000 * den as int, den as int);
        vstd::arithmetic::div_mod::lemma_div_multiples_vanish(10000, den as int);
        assert(den as int * 10000 == 10000 * den as int) by (nonlinear_arith);
    }
    r
}

/// Sine of any angle in `[-4e9, 4e9]`, scaled by `TRIG_ONE`.
pub fn sin_units(a: Angle) -> (r: i64)
    requires
        -4000000000 <= a <= 4000000000,
    ensures
        r as int == sin_spec(a as int),
        -10000 <= r <= 10000,
{
    let n: i64 = norm_angle(a);
    if n <= 180000 {
        sin_half(n)
    } else {
        -sin_half(n - 180000)
    }
}

/// Cosine of any angle in `[-4e9, 4e9 - QUARTER_TURN]`, scaled by
/// `TRIG_ONE`.
pub fn cos_units(a: Angle) -> (r: i64)
    requires
        -4000000000 <= a <= 3999910000,
    ensures
        r as int == cos_spec(a as int),
        -10000 <= r <= 10000,
{
    sin_units(a + 90000)
}

/// Arctangent of `n / d` for `0 <= n <= d`.
fn atan_frac(n: i64, d: i64) -> (r: i64)
    requires
        0 <= n <= d,
        1 <= d <= 100000000000,
    ensures
        r as int == atan_frac_spec(n as int, d as int),
        0 <= r <= 50000,
{
    let n4: i64 = n * 10000;
    let q: i64 = div_nn(n4, d);
    proof {
        assert(n as int * 10000 <= d as int * 10000);
        vstd::arithmetic::div_mod::lemma_div_is_ordered(
            n as int * 10000,
            d as int * 10000,
            d as int,
        );
        vstd::arithmetic::div_mod::lemma_div_multiples_vanish(10000, d as int);
        assert(d as int * 10000 == 10000 * d as int) by (nonlinear_arith);
        assert(0 <= q as int * (10000 - q as int) <= 25000000) by (nonlinear_arith)
            requires
                0 <= q as int <= 10000,
        ;
    }
    let t: i64 = 15640 * (q * (10000 - q));
    proof {
        assert(15640 * (q as int * (10000 - q as int)) == 15640 * q as int * (10000 - q as int))
            by (nonlinear_arith);
    }
    let tq: i64 = div_nn(t, 10000);
    proof {
        vstd::arithmetic::div_mod::lemma_div_is_ordered(t as int, 391000000000, 10000);
    }
    let u: i64 = 45000 * q + tq;
    let r: i64 = div_nn(u, 10000);
    proof {
        vstd::arithmetic::div_mod::lemma_div_is_ordered(u as int, 489100000, 10000);
        vstd::arithmetic::div_mod::lemma_div_pos_is_pos(u as int, 10000);
    }
    r
}

/// Direction of the vector `(x, y)` in `[0, TURN)`.
pub fn atan2_units(y: i64, x: i64) -> (r: Angle)
    requires
        -100000000000 <= y <= 100000000000,
        -100000000000 <= x <= 100000000000,
    ensures
        r as int == atan2_spec(y as int, x as int),
        0 <= r < 360000,
{
    if x == 0 && y == 0 {
        return 0;
    }
    let ax: i64 = if x >= 0 { x } else { -x };
    let ay: i64 = if y >= 0 { y } else { -y };
    let base: i64 = if ay <= ax {
        atan_frac(ay, ax)
    } else {
        90000 - atan_frac(ax, ay)
    };
    if x >= 0 && y >= 0 {
        base
    } else if x < 0 && y >= 0 {
        180000 - base
    } else if x < 0 && y < 0 {
        180000 + base
    } else {
        if base == 0 {
            proof {
                vstd::arithmetic::div_mod::lemma_mod_self_0(360000);
            }
            0
        } else {
            proof {
                vstd::arithmetic::div_mod::lemma_small_mod((360000 - base) as nat, 360000nat);
            }
            360000 - base
        }
    }
}

} // verus!
