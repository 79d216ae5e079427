//! The ball: a circle with a polar velocity, integrated every frame and
//! reflected off whatever it hits.

use vstd::prelude::*;
use crate::num::{Pixels, Millis, Angle, POS_BOUND, TURN, DT_MAX, abs_i, tdiv, clamp_i, mul_div};
use crate::trig::{norm_angle_spec, norm_angle, sin_units, cos_units};
use crate::utils::{Point, Vector, vec_x, vec_y};
use crate::shape::Circle;
use crate::traits::{Collision, Updatable};

verus! {

/// Radius of every ball.
pub const BALL_RADIUS: Pixels = 8000;

/// Base speed of a ball, per second.
pub const BALL_SPEED: Pixels = 400000;

/// How long a fresh ball stays glued to the paddle before it is released.
pub const BALL_HOLD: Millis = 3000;

/// An RGBA color.
#[derive(Clone, Copy, PartialEq, Eq, Structural, Debug)]
pub struct Color {
    pub r: u8,
    pub g: u8,
    pub b: u8,
    pub a: u8,
}

/// A moving ball.
#[derive(Clone, Copy, PartialEq, Eq, Structural, Debug)]
pub struct Ball {
    pub position: Point,
    pub velocity: Vector,
    pub color: Color,
    pub hold_timer: Millis,
}

impl Ball {
    /// Well-formedness: the position lies in the coordinate box, the
    /// velocity is a normalized polar vector, and the hold timer never
    /// strays outside the range the update step can produce.
    pub open spec fn wf(self) -> bool {
        &&& self.position.wf()
        &&& self.velocity.wf()
        &&& -DT_MAX <= self.hold_timer <= BALL_HOLD
    }

    pub fn new(position: Point, angle: Angle) -> (r: Ball)
        requires
            position.wf(),
            0 <= angle < TURN,
        ensures
            r.position == position,
            r.velocity.angle == angle,
            r.velocity.norm == BALL_SPEED,
            r.hold_timer == BALL_HOLD,
            r.color == (Color { r: 120, g: 120, b: 200, a: 230 }),
            r.wf(),
    {
        Ball {
            position,
            velocity: Vector { angle, norm: BALL_SPEED },
            hold_timer: BALL_HOLD,
            color: Color { r: 120, g: 120, b: 200, a: 230 },
        }
    }

    pub fn position(&self) -> (r: Point)
        ensures
            r == self.position,
    {
        self.position
    }

    pub fn color(&self) -> (r: Color)
        ensures
            r == self.color,
    {
        self.color
    }

    /// The ball's collision shape.
    pub open spec fn shape_spec(self) -> Circle {
        Circle { center: self.position, radius: BALL_RADIUS }
    }

    pub fn shape(&self) -> (r: Circle)
        requires
            self.wf(),
        ensures
            r == self.shape_spec(),
            r.wf(),
    {
        Circle { center: self.position, radius: BALL_RADIUS }
    }

    /// Reset the speed from the number of active slowing effects:
    /// `BALL_SPEED / (n + 1)`, the diminishing-returns stacking rule.
    pub fn speed(&mut self, n: usize)
        requires
            old(self).wf(),
        ensures
            final(self).velocity.norm as int == BALL_SPEED as int / (n + 1) as int,
            final(self).velocity.angle == old(self).velocity.angle,
            final(self).position == old(self).position,
            final(self).hold_timer == old(self).hold_timer,
            final(self).color == old(self).color,
            final(self).wf(),
    {
        let norm: i64 = ((BALL_SPEED as u128) / (n as u128 + 1)) as i64;
        proof {
            vstd::arithmetic::div_mod::lemma_div_is_ordered(
                norm as int,
                BALL_SPEED as int,
                1,
            );
        }
        self.velocity = Vector { angle: self.velocity.angle, norm };
    }

    /// Turn the velocity by `angle`, renormalizing the direction.
    pub fn rotate(&mut self, angle: Angle)
        requires
            old(self).wf(),
            -TURN <= angle <= TURN,
        ensures
            final(self).velocity.angle as int == norm_angle_spec(
                old(self).velocity.angle + angle,
            ),
            final(self).velocity.norm == old(self).velocity.norm,
            final(self).position == old(self).position,
            final(self).hold_timer == old(self).hold_timer,
            final(self).color == old(self).color,
            final(self).wf(),
    {
        let a: i64 = norm_angle(self.velocity.angle + angle);
        self.velocity = Vector { angle: a, norm: self.velocity.norm };
    }

    /// Reflect the velocity about the contact normal and push the ball out
    /// of penetration by the contact depth along that normal.
    pub fn bounce(&mut self, collision: Collision)
        requires
            old(self).wf(),
            0 <= collision.0 < TURN,
            0 <= collision.1 <= 4 * POS_BOUND,
        ensures
            final(self).velocity.angle as int == Vector::reflect_spec(
                old(self).velocity.angle as int,
                collision.0 as int,
            ),
            final(self).velocity.norm == old(self).velocity.norm,
            final(self).position.x as int == clamp_i(
                old(self).position.x + vec_x(collision.0 as int, collision.1 as int),
                -POS_BOUND as int,
                POS_BOUND as int,
            ),
            final(self).position.y as int == clamp_i(
                old(self).position.y + vec_y(collision.0 as int, collision.1 as int),
                -POS_BOUND as int,
                POS_BOUND as int,
            ),
            final(self).hold_timer == old(self).hold_timer,
            final(self).color == old(self).color,
            final(self).wf(),
    {
        let (normal, depth): (Angle, Pixels) = collision;
        self.velocity = self.velocity.reflect(normal);
        let c: i64 = cos_units(normal);
        let s: i64 = sin_units(normal);
        proof {
            crate::num::lemma_abs_mul(depth as int, c as int);
            crate::num::lemma_abs_mul(depth as int, s as int);
            crate::num::lemma_mul_le(abs_i(depth as int), abs_i(c as int), depth as int, 10000);
            crate::num::lemma_mul_le(abs_i(depth as int), abs_i(s as int), depth as int, 10000);
            crate::num::lemma_tdiv_mag(depth as int * c as int, 10000, depth as int);
            crate::num::lemma_tdiv_mag(depth as int * s as int, 10000, depth as int);
        }
        let dx: i64 = mul_div(depth, c, 10000);
        let dy: i64 = mul_div(depth, s, 10000);
        self.position = self.position.plus(Point { x: dx, y: dy });
    }

    pub fn set_position(&mut self, p: Point)
        requires
            old(self).wf(),
            p.wf(),
        ensures
            final(self).position == p,
            final(self).velocity == old(self).velocity,
            final(self).hold_timer == old(self).hold_timer,
            final(self).color == old(self).color,
            final(self).wf(),
    {
        self.position = p;
    }

    /// Whether the ball is still glued to the paddle.
    pub fn on_hold(&self) -> (r: bool)
        ensures
            r == (self.hold_timer > 0),
    {
        self.hold_timer > 0
    }
}

impl Updatable for Ball {
    open spec fn inv(&self) -> bool {
        self.wf()
    }

    /// A held ball only runs down its hold timer; a free ball moves by
    /// `velocity * dt`, clamped into the coordinate box.
    fn update(&mut self, dt: Millis)
        ensures
            old(self).hold_timer > 0 ==> {
                &&& final(self).hold_timer == old(self).hold_timer - dt
                &&& final(self).position == old(self).position
                &&& final(self).velocity == old(self).velocity
            },
            old(self).hold_timer <= 0 ==> {
                let sn = clamp_i(
                    old(self).velocity.norm as int * dt / 1000,
                    0,
                    POS_BOUND as int,
                );
                &&& final(self).position.x as int == clamp_i(
                    old(self).position.x + vec_x(old(self).velocity.angle as int, sn),
                    -POS_BOUND as int,
                    POS_BOUND as int,
                )
                &&& final(self).position.y as int == clamp_i(
                    old(self).position.y + vec_y(old(self).velocity.angle as int, sn),
                    -POS_BOUND as int,
                    POS_BOUND as int,
                )
                &&& final(self).velocity == old(self).velocity
                &&& final(self).hold_timer == old(self).hold_timer
            },
            final(self).color == old(self).color,
    {
        if self.hold_timer > 0 {
            self.hold_timer = self.hold_timer - dt;
        } else {
            let step: Vector = self.velocity.times(dt);
            let d: Point = step.to_point();
            self.position = self.position.plus(d);
        }
    }
}

} // verus!
