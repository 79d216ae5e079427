//! The paddle: one-dimensional motion along the bottom of the field,
//! driven by a steering input with acceleration and friction.

use vstd::prelude::*;
use crate::num::{
    Pixels, Millis, POS_BOUND, TURN, abs_i, tdiv, clamp_i, mul_div, clamp_add,
};
use crate::trig::cos_units;
use crate::utils::{Point, vec_x};
use crate::shape::Rect;
use crate::traits::{Collision, Updatable};

verus! {

/// Width of a fresh paddle.
pub const PLAYER_INITIAL_WIDTH: Pixels = 80000;

/// How much an expansion bonus widens the paddle.
pub const PLAYER_GROWTH: Pixels = 20000;

/// The widest the paddle ever grows.
pub const PLAYER_MAX_WIDTH: Pixels = 160000;

/// Height of the paddle.
pub const PLAYER_THICKNESS: Pixels = 16000;

/// Friction applied to the paddle's velocity, per second.
pub const PLAYER_FRICTION: i64 = 10;

/// Acceleration at full steering input, per second squared.
pub const PLAYER_ACCELERATION: Pixels = 5000000;

/// The paddle.
#[derive(Clone, Copy, PartialEq, Eq, Structural, Debug)]
pub struct Player {
    pub position: Point,
    pub velocity: Pixels,
    pub acceleration: i64,
    pub width: Pixels,
}

impl Player {
    /// Well-formedness: in-box position, bounded velocity, a steering
    /// input in thousandths, and a positive width no wider than the cap.
    pub open spec fn wf(self) -> bool {
        &&& self.position.wf()
        &&& -POS_BOUND <= self.velocity <= POS_BOUND
        &&& -1000 <= self.acceleration <= 1000
        &&& 0 < self.width <= PLAYER_MAX_WIDTH
    }

    pub fn new(position: Point) -> (r: Player)
        requires
            position.wf(),
        ensures
            r.position == position,
            r.velocity == 0,
            r.acceleration == 0,
            r.width == PLAYER_INITIAL_WIDTH,
            r.wf(),
    {
        Player { position, velocity: 0, acceleration: 0, width: PLAYER_INITIAL_WIDTH }
    }

    pub fn position(&self) -> (r: Point)
        ensures
            r == self.position,
    {
        self.position
    }

    pub fn width(&self) -> (r: Pixels)
        ensures
            r == self.width,
    {
        self.width
    }

    /// Widen the paddle by one growth step, capped at the maximum width.
    pub fn grow(&mut self)
        requires
            old(self).wf(),
        ensures
            final(self).width as int == if old(self).width + PLAYER_GROWTH <= PLAYER_MAX_WIDTH {
                old(self).width + PLAYER_GROWTH as int
            } else {
                PLAYER_MAX_WIDTH as int
            },
            final(self).position == old(self).position,
            final(self).velocity == old(self).velocity,
            final(self).acceleration == old(self).acceleration,
            final(self).wf(),
    {
        let w: i64 = self.width + PLAYER_GROWTH;
        self.width = if w <= PLAYER_MAX_WIDTH { w } else { PLAYER_MAX_WIDTH };
    }

    /// Set the steering input for the next update, in thousandths of full
    /// deflection.
    pub fn input(&mut self, input: i64)
        requires
            old(self).wf(),
            -1000 <= input <= 1000,
        ensures
            final(self).acceleration == input,
            final(self).position == old(self).position,
            final(self).velocity == old(self).velocity,
            final(self).width == old(self).width,
            final(self).wf(),
    {
        self.acceleration = input;
    }

    /// Invert the velocity and push the paddle out along the horizontal
    /// component of the contact normal.
    pub fn bounce(&mut self, collision: Collision)
        requires
            old(self).wf(),
            0 <= collision.0 < TURN,
            0 <= collision.1 <= 4 * POS_BOUND,
        ensures
            final(self).velocity == -old(self).velocity,
            final(self).position.x as int == clamp_i(
                old(self).position.x + vec_x(collision.0 as int, collision.1 as int),
                -POS_BOUND as int,
                POS_BOUND as int,
            ),
            final(self).position.y == old(self).position.y,
            final(self).acceleration == old(self).acceleration,
            final(self).width == old(self).width,
            final(self).wf(),
    {
        let (normal, depth): (i64, i64) = collision;
        self.velocity = -self.velocity;
        let c: i64 = cos_units(normal);
        proof {
            crate::num::lemma_abs_mul(depth as int, c as int);
            crate::num::lemma_mul_le(abs_i(depth as int), abs_i(c as int), depth as int, 10000);
            crate::num::lemma_tdiv_mag(depth as int * c as int, 10000, depth as int);
        }
        let dx: i64 = mul_div(depth, c, 10000);
        self.position = Point { x: clamp_add(self.position.x, dx), y: self.position.y };
    }

    /// The paddle's collision shape.
    pub open spec fn shape_spec(self) -> Rect {
        Rect { center: self.position, width: self.width, height: PLAYER_THICKNESS }
    }

    pub fn shape(&self) -> (r: Rect)
        requires
            self.wf(),
        ensures
            r == self.shape_spec(),
            r.wf(),
    {
        Rect { center: self.position, width: self.width, height: PLAYER_THICKNESS }
    }
}

/// The paddle after one frame: the exact acceleration/friction/snap rule
/// of `Player::update`, as a function of the old paddle.
pub open spec fn player_stepped(p: Player, dt: int) -> Player {
    let acc = tdiv(p.acceleration * PLAYER_ACCELERATION, 1000) - p.velocity * PLAYER_FRICTION;
    let v1 = clamp_i(p.velocity + tdiv(acc * dt, 1000), -POS_BOUND as int, POS_BOUND as int);
    let v2 = if -1000 < v1 < 1000 { 0int } else { v1 };
    Player {
        position: (Point {
            x: clamp_i(p.position.x + tdiv(v2 * dt, 1000), -POS_BOUND as int, POS_BOUND as int)
                as i64,
            y: p.position.y,
        }),
        velocity: v2 as i64,
        acceleration: p.acceleration,
        width: p.width,
    }
}

impl Updatable for Player {
    open spec fn inv(&self) -> bool {
        self.wf()
    }

    /// Accelerate from the steering input against friction, snap small
    /// velocities to rest, and move horizontally by `velocity * dt`.
    fn update(&mut self, dt: Millis)
        ensures
            ({
                let acc = tdiv(old(self).acceleration * PLAYER_ACCELERATION, 1000) - old(
                    self,
                ).velocity * PLAYER_FRICTION;
                let v1 = clamp_i(
                    old(self).velocity + tdiv(acc * dt, 1000),
                    -POS_BOUND as int,
                    POS_BOUND as int,
                );
                let v2 = if -1000 < v1 < 1000 { 0 } else { v1 };
                &&& final(self).velocity as int == v2
                &&& final(self).position.x as int == clamp_i(
                    old(self).position.x + tdiv(v2 * dt, 1000),
                    -POS_BOUND as int,
                    POS_BOUND as int,
                )
                &&& final(self).position.y == old(self).position.y
                &&& final(self).acceleration == old(self).acceleration
                &&& final(self).width == old(self).width
            }),
    {
        let drive: i64 = mul_div(self.acceleration, PLAYER_ACCELERATION, 1000);
        let acc: i64 = drive - self.velocity * PLAYER_FRICTION;
        proof {
            crate::num::lemma_abs_mul(acc as int, dt as int);
            crate::num::lemma_mul_le(
                abs_i(acc as int),
                abs_i(dt as int),
                105000000000,
                crate::num::DT_MAX as int,
            );
            crate::num::lemma_tdiv_mag(acc as int * dt as int, 1000, 378000000000000);
        }
        let dv: i64 = mul_div(acc, dt, 1000);
        let v1: i64 = clamp_add(self.velocity, dv);
        let v2: i64 = if -1000 < v1 && v1 < 1000 { 0 } else { v1 };
        self.velocity = v2;
        proof {
            crate::num::lemma_abs_mul(v2 as int, dt as int);
            crate::num::lemma_mul_le(
                abs_i(v2 as int),
                abs_i(dt as int),
                POS_BOUND as int,
                crate::num::DT_MAX as int,
            );
            crate::num::lemma_tdiv_mag(v2 as int * dt as int, 1000, 36000000000000);
        }
        let dx: i64 = mul_div(v2, dt, 1000);
        self.position = Point { x: clamp_add(self.position.x, dx), y: self.position.y };
    }
}

} // verus!
