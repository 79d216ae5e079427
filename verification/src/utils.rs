//! Cartesian points and polar vectors: the foundation of the geometry.
//!
//! A `Point` is a position or displacement in length units; a `Vector` is a
//! direction plus a nonnegative norm, the form in which velocities are kept
//! so that a bounce is a single rewrite of the angle.

use vstd::prelude::*;
use crate::num::{
    Pixels, Angle, POS_BOUND, TRIG_ONE, TURN, abs_i, tdiv, clamp_i, sqrt_floor,
    mag, mul_div, clamp_add, isqrt, lemma_mul_le, lemma_abs_mul, lemma_tdiv_mag,
    lemma_sqrt_floor,
};
use crate::trig::{
    norm_angle_spec, sin_spec, cos_spec, atan2_spec, norm_angle, sin_units, cos_units,
    atan2_units,
};

verus! {

/// A position or displacement in the plane, in length units.
#[derive(Clone, Copy, PartialEq, Eq, Structural, Debug)]
pub struct Point {
    pub x: Pixels,
    pub y: Pixels,
}

/// A polar vector: direction in angle units, nonnegative norm in length
/// units.
#[derive(Clone, Copy, PartialEq, Eq, Structural, Debug)]
pub struct Vector {
    pub angle: Angle,
    pub norm: Pixels,
}

/// Squared distance between `(ax, ay)` and `(bx, by)`.
pub open spec fn dist_sq(ax: int, ay: int, bx: int, by: int) -> int {
    (ax - bx) * (ax - bx) + (ay - by) * (ay - by)
}

/// Distance between two points, rounded down to whole length units.
pub open spec fn dist_spec(a: Point, b: Point) -> int {
    sqrt_floor(dist_sq(a.x as int, a.y as int, b.x as int, b.y as int))
}

/// Horizontal component of the polar vector `(angle, norm)`.
pub open spec fn vec_x(angle: int, norm: int) -> int {
    tdiv(norm * cos_spec(angle), TRIG_ONE as int)
}

/// Vertical component of the polar vector `(angle, norm)`.
pub open spec fn vec_y(angle: int, norm: int) -> int {
    tdiv(norm * sin_spec(angle), TRIG_ONE as int)
}

impl Point {
    /// The point lies in the engine's coordinate box.
    pub open spec fn wf(self) -> bool {
        &&& -POS_BOUND <= self.x <= POS_BOUND
        &&& -POS_BOUND <= self.y <= POS_BOUND
    }

    pub fn new(x: Pixels, y: Pixels) -> (r: Point)
        ensures
            r.x == x,
            r.y == y,
    {
        Point { x, y }
    }

    /// Translation, clamped into the coordinate box.
    pub fn plus(self, rhs: Point) -> (r: Point)
        requires
            abs_i(self.x as int) <= 0x1000000000000000,
            abs_i(self.y as int) <= 0x1000000000000000,
            abs_i(rhs.x as int) <= 0x1000000000000000,
            abs_i(rhs.y as int) <= 0x1000000000000000,
        ensures
            r.x as int == clamp_i(self.x + rhs.x, -POS_BOUND as int, POS_BOUND as int),
            r.y as int == clamp_i(self.y + rhs.y, -POS_BOUND as int, POS_BOUND as int),
            r.wf(),
    {
        Point { x: clamp_add(self.x, rhs.x), y: clamp_add(self.y, rhs.y) }
    }

    /// Exact difference; the result is a displacement and may leave the
    /// coordinate box.
    pub fn minus(self, rhs: Point) -> (r: Point)
        requires
            self.wf(),
            rhs.wf(),
        ensures
            r.x as int == self.x - rhs.x,
            r.y as int == self.y - rhs.y,
            abs_i(r.x as int) <= 2 * POS_BOUND,
            abs_i(r.y as int) <= 2 * POS_BOUND,
    {
        Point { x: self.x - rhs.x, y: self.y - rhs.y }
    }

    /// Scaling by a factor in thousandths, clamped into the coordinate box.
    pub fn times(self, k: i64) -> (r: Point)
        requires
            self.wf(),
            abs_i(k as int) <= 1000000,
        ensures
            r.x as int == clamp_i(tdiv(self.x * k, 1000), -POS_BOUND as int, POS_BOUND as int),
            r.y as int == clamp_i(tdiv(self.y * k, 1000), -POS_BOUND as int, POS_BOUND as int),
            r.wf(),
    {
        proof {
            lemma_abs_mul(self.x as int, k as int);
            lemma_abs_mul(self.y as int, k as int);
            lemma_mul_le(abs_i(self.x as int), abs_i(k as int), POS_BOUND as int, 1000000);
            lemma_mul_le(abs_i(self.y as int), abs_i(k as int), POS_BOUND as int, 1000000);
            lemma_tdiv_mag(self.x as int * k as int, 1000, 0x38d7ea4c68000);
            lemma_tdiv_mag(self.y as int * k as int, 1000, 0x38d7ea4c68000);
        }
        let x: i64 = mul_div(self.x, k, 1000);
        let y: i64 = mul_div(self.y, k, 1000);
        Point { x: clamp_add(x, 0), y: clamp_add(y, 0) }
    }

    /// Euclidean norm of the point taken as a displacement, rounded down.
    pub fn norm(&self) -> (r: Pixels)
        requires
            abs_i(self.x as int) <= 100000000000,
            abs_i(self.y as int) <= 100000000000,
        ensures
            r as int == sqrt_floor(self.x * self.x + self.y * self.y),
            0 <= r <= 150000000000,
    {
        let mx: u128 = mag(self.x);
        let my: u128 = mag(self.y);
        proof {
            lemma_abs_mul(self.x as int, self.x as int);
            lemma_abs_mul(self.y as int, self.y as int);
            lemma_mul_le(mx as int, mx as int, 100000000000, 100000000000);
            lemma_mul_le(my as int, my as int, 100000000000, 100000000000);
        }
        let sq: u128 = mx * mx + my * my;
        let r: u64 = isqrt(sq);
        proof {
            assert(abs_i(self.x * self.x) == self.x * self.x && abs_i(self.y * self.y)
                == self.y * self.y) by (nonlinear_arith);
            lemma_sqrt_floor(sq as int);
            assert(r as int <= 150000000000) by (nonlinear_arith)
                requires
                    r as int * r as int <= sq as int,
                    sq as int <= 20000000000000000000000,
                    0 <= r as int,
            ;
        }
        r as i64
    }

    /// Direction of the point taken as a displacement.
    pub fn angle(&self) -> (r: Angle)
        requires
            abs_i(self.x as int) <= 100000000000,
            abs_i(self.y as int) <= 100000000000,
        ensures
            r as int == atan2_spec(self.y as int, self.x as int),
            0 <= r < TURN,
    {
        atan2_units(self.y, self.x)
    }
}

impl Vector {
    /// The direction is normalized and the norm lies in the coordinate box.
    pub open spec fn wf(self) -> bool {
        &&& 0 <= self.angle < TURN
        &&& 0 <= self.norm <= POS_BOUND
    }

    pub fn new(angle: Angle, norm: Pixels) -> (r: Vector)
        ensures
            r.angle == angle,
            r.norm == norm,
    {
        Vector { angle, norm }
    }

    /// Cartesian form of the vector.
    pub fn to_point(&self) -> (r: Point)
        requires
            self.wf(),
        ensures
            r.x as int == vec_x(self.angle as int, self.norm as int),
            r.y as int == vec_y(self.angle as int, self.norm as int),
            abs_i(r.x as int) <= self.norm,
            abs_i(r.y as int) <= self.norm,
            r.wf(),
    {
        let c: i64 = cos_units(self.angle);
        let s: i64 = sin_units(self.angle);
        proof {
            lemma_abs_mul(self.norm as int, c as int);
            lemma_abs_mul(self.norm as int, s as int);
            lemma_mul_le(abs_i(self.norm as int), abs_i(c as int), self.norm as int, 10000);
            lemma_mul_le(abs_i(self.norm as int), abs_i(s as int), self.norm as int, 10000);
            lemma_tdiv_mag(self.norm as int * c as int, 10000, self.norm as int);
            lemma_tdiv_mag(self.norm as int * s as int, 10000, self.norm as int);
        }
        let x: i64 = mul_div(self.norm, c, 10000);
        let y: i64 = mul_div(self.norm, s, 10000);
        Point { x, y }
    }

    /// Polar form of a displacement; an out-of-box norm is clamped.
    pub fn from_point(p: Point) -> (r: Vector)
        requires
            abs_i(p.x as int) <= 100000000000,
            abs_i(p.y as int) <= 100000000000,
        ensures
            r.angle as int == atan2_spec(p.y as int, p.x as int),
            r.norm as int == clamp_i(
                sqrt_floor(p.x * p.x + p.y * p.y),
                0,
                POS_BOUND as int,
            ),
            r.wf(),
    {
        let n: i64 = p.norm();
        let norm: i64 = if n > POS_BOUND { POS_BOUND } else { n };
        Vector { angle: p.angle(), norm }
    }

    /// Sum of two vectors, computed by way of their Cartesian forms.
    pub fn plus(self, rhs: Vector) -> (r: Vector)
        requires
            self.wf(),
            rhs.wf(),
        ensures
            ({
                let sx = vec_x(self.angle as int, self.norm as int) + vec_x(
                    rhs.angle as int,
                    rhs.norm as int,
                );
                let sy = vec_y(self.angle as int, self.norm as int) + vec_y(
                    rhs.angle as int,
                    rhs.norm as int,
                );
                &&& r.angle as int == atan2_spec(sy, sx)
                &&& r.norm as int == clamp_i(sqrt_floor(sx * sx + sy * sy), 0, POS_BOUND as int)
            }),
            r.wf(),
    {
        let a: Point = self.to_point();
        let b: Point = rhs.to_point();
        let s: Point = Point { x: a.x + b.x, y: a.y + b.y };
        Vector::from_point(s)
    }

    /// Scaling of the norm by a factor in thousandths; the direction is
    /// kept.
    pub fn times(self, k: i64) -> (r: Vector)
        requires
            self.wf(),
            0 <= k <= 10000000,
        ensures
            r.angle == self.angle,
            r.norm as int == clamp_i(self.norm * k / 1000, 0, POS_BOUND as int),
            r.wf(),
    {
        proof {
            lemma_mul_le(self.norm as int, k as int, POS_BOUND as int, 10000000);
            assert(tdiv(self.norm as int * k as int, 1000) == self.norm as int * k as int / 1000);
            vstd::arithmetic::div_mod::lemma_div_pos_is_pos(self.norm as int * k as int, 1000);
        }
        let n: i64 = mul_div(self.norm, k, 1000);
        let norm: i64 = if n > POS_BOUND { POS_BOUND } else { n };
        Vector { angle: self.angle, norm }
    }

    /// The bounce rewrite: direction `a` reflected about the surface normal
    /// `n` is `-a + 2 n + HALF_TURN`, normalized.
    pub open spec fn reflect_spec(a: int, n: int) -> int {
        norm_angle_spec(-a + 2 * n + 180000)
    }

    /// Reflect the vector about a collision normal; the norm is kept and
    /// the new direction always lies in `[0, TURN)`.
    pub fn reflect(self, normal: Angle) -> (r: Vector)
        requires
            self.wf(),
            0 <= normal < TURN,
        ensures
            r.angle as int == Vector::reflect_spec(self.angle as int, normal as int),
            0 <= r.angle < TURN,
            r.norm == self.norm,
            r.wf(),
    {
        let a: i64 = norm_angle(-self.angle + 2 * normal + 180000);
        Vector { angle: a, norm: self.norm }
    }
}

/// The bounce rewrite always lands in `[0, TURN)`: whatever direction and
/// normal it is applied to, the result is a normalized angle.
pub proof fn lemma_reflect_in_range(a: int, n: int)
    ensures
        0 <= Vector::reflect_spec(a, n) < TURN,
{
    crate::trig::lemma_norm_angle_range(-a + 2 * n + 180000);
}

/// The direction a ball leaves with when it strikes the corner of a box,
/// by which quadrant of the corner the ball's center lies in.
pub open spec fn corner_bounce_spec(corner: Point, pos: Point, a: int) -> int {
    if pos.x < corner.x && pos.y < corner.y {
        90000 - (a + 180000)
    } else if pos.x < corner.x && pos.y >= corner.y {
        -(a + 90000)
    } else if pos.x >= corner.x && pos.y < corner.y {
        180000 - (a - 270000)
    } else {
        270000 - (a - 360000)
    }
}

/// The direction a ball leaves with when it strikes the corner of a box.
/// The result is exact and may lie outside `[0, TURN)`; normalize it
/// before storing it in a `Vector`.
pub fn angle_clsn_bnce_vect(corner: &Point, ball: &crate::ball::Ball) -> (r: Angle)
    requires
        corner.wf(),
        ball.wf(),
    ensures
        r as int == corner_bounce_spec(*corner, ball.position, ball.velocity.angle as int),
{
    let a: i64 = ball.velocity.angle;
    let p: Point = ball.position;
    if p.x < corner.x && p.y < corner.y {
        90000 - (a + 180000)
    } else if p.x < corner.x && p.y >= corner.y {
        -(a + 90000)
    } else if p.x >= corner.x && p.y < corner.y {
        180000 - (a - 270000)
    } else {
        270000 - (a - 360000)
    }
}

/// Distance between two points, rounded down to whole length units.
pub fn distance(p1: &Point, p2: &Point) -> (r: Pixels)
    requires
        abs_i(p1.x as int) <= 50000000000,
        abs_i(p1.y as int) <= 50000000000,
        abs_i(p2.x as int) <= 50000000000,
        abs_i(p2.y as int) <= 50000000000,
    ensures
        r as int == dist_spec(*p1, *p2),
        0 <= r <= 150000000000,
{
    let d: Point = Point { x: p1.x - p2.x, y: p1.y - p2.y };
    d.norm()
}

} // verus!
