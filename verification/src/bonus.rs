//! Bonuses: spawned when a brick breaks, falling toward the paddle, and,
//! once picked up, either applied on the spot or kept as a timed effect.

use vstd::prelude::*;
use crate::num::{Pixels, Millis, POS_BOUND, DT_MAX, tdiv, clamp_i, mul_div, clamp_add};
use crate::utils::Point;
use crate::shape::Circle;
use crate::ball::Color;
use crate::traits::Updatable;
use crate::random::RandomSource;
use crate::state::{State, MAX_BALLS};

verus! {

/// Radius of a falling bonus's pickup circle.
pub const BONUS_RADIUS: Pixels = 12000;

/// How fast a bonus falls, per second.
pub const BONUS_FALL_SPEED: Pixels = 200000;

/// How long a timed bonus stays active once picked up.
pub const BONUS_DURATION: Millis = 10000;

/// The kinds of bonus: `Slow` is a timed, stacking slow-down of every
/// ball; `Expand` widens the paddle on the spot; `Divide` fans every ball
/// out into three; `Life` grants an extra life.
#[derive(Clone, Copy, PartialEq, Eq, Structural, Debug, Hash)]
pub enum BonusType {
    Slow,
    Expand,
    Divide,
    Life,
}

impl BonusType {
    /// The bonus kind drawn for the draw index `i` of a uniform draw from
    /// four.
    pub open spec fn of_index_spec(i: u32) -> BonusType {
        if i == 0 {
            BonusType::Slow
        } else if i == 1 {
            BonusType::Expand
        } else if i == 2 {
            BonusType::Divide
        } else {
            BonusType::Life
        }
    }

    pub fn of_index(i: u32) -> (r: BonusType)
        ensures
            r == BonusType::of_index_spec(i),
    {
        if i == 0 {
            BonusType::Slow
        } else if i == 1 {
            BonusType::Expand
        } else if i == 2 {
            BonusType::Divide
        } else {
            BonusType::Life
        }
    }

    /// Apply this picked-up bonus to the game: `Slow` is queued as a
    /// timed effect, the other three act on the spot.
    pub fn activate(self, state: &mut State)
        requires
            old(state).wf(),
        ensures
            final(state).wf(),
            (final(state).player, final(state).lives, final(state).balls@, final(state).active_bonuses@)
                == crate::state::activated(
                old(state).player,
                old(state).lives,
                old(state).balls@,
                old(state).active_bonuses@,
                self,
            ),
            final(state).bricks == old(state).bricks,
            final(state).walls == old(state).walls,
            final(state).pit == old(state).pit,
            final(state).bonuses == old(state).bonuses,
            final(state).serve == old(state).serve,
            final(state).lives as int >= old(state).lives as int,
            self == BonusType::Expand ==> final(state).player == crate::state::grown_player(
                old(state).player,
            ) && final(state).lives == old(state).lives,
            self == BonusType::Life ==> final(state).player == old(state).player,
            self == BonusType::Slow ==> final(state).active_bonuses@ == old(
                state,
            ).active_bonuses@.push(ActiveBonus { bonus_type: BonusType::Slow, timer: BONUS_DURATION })
                && final(state).balls == old(state).balls && final(state).player == old(
                state,
            ).player && final(state).lives == old(state).lives,
            self != BonusType::Slow ==> final(state).active_bonuses == old(state).active_bonuses,
            self == BonusType::Expand || self == BonusType::Life ==> final(state).balls == old(
                state,
            ).balls,
            self == BonusType::Divide ==> ({
                let n = old(state).balls@.len() as int;
                let total = if 3 * n <= MAX_BALLS { 3 * n } else { MAX_BALLS as int };
                &&& final(state).balls@.len() == total
                &&& final(state).player == old(state).player
                &&& final(state).lives == old(state).lives
                &&& (forall|k: int|
                    0 <= k < total && k < n ==> #[trigger] final(state).balls@[k] == old(
                        state,
                    ).balls@[k])
                &&& (forall|k: int|
                    n <= k < total ==> crate::state::divide_clone_ok(
                        old(state).balls@,
                        k - n,
                        #[trigger] final(state).balls@[k],
                    ))
            }),
            self == BonusType::Life ==> final(state).lives as int == if old(state).lives < 255 {
                old(state).lives + 1
            } else {
                255int
            },
            final(state).balls@.len() >= old(state).balls@.len() || final(state).balls@.len()
                == MAX_BALLS,
            final(state).balls@.len() >= 1 || old(state).balls@.len() == 0,
    {
        state.activate_bonus(self);
    }

    /// Recompute this kind's stacking effect from the count of in-force
    /// instances: `Slow` resets every ball's speed to
    /// `BALL_SPEED / (count + 1)`.
    pub fn stack(self, state: &mut State, count: usize)
        requires
            old(state).wf(),
        ensures
            final(state).wf(),
            final(state).bricks == old(state).bricks,
            final(state).walls == old(state).walls,
            final(state).pit == old(state).pit,
            final(state).bonuses == old(state).bonuses,
            final(state).active_bonuses == old(state).active_bonuses,
            final(state).player == old(state).player,
            final(state).lives == old(state).lives,
            final(state).serve == old(state).serve,
            final(state).balls@.len() == old(state).balls@.len(),
            self == BonusType::Slow ==> final(state).balls@ == crate::state::slow_all(
                old(state).balls@,
                count as int,
            ),
            self == BonusType::Slow ==> forall|k: int|
                0 <= k < final(state).balls@.len() ==> {
                    &&& (#[trigger] final(state).balls@[k]).velocity.norm as int
                        == crate::ball::BALL_SPEED as int / (count + 1) as int
                    &&& final(state).balls@[k].velocity.angle == old(state).balls@[k].velocity.angle
                    &&& final(state).balls@[k].position == old(state).balls@[k].position
                    &&& final(state).balls@[k].hold_timer == old(state).balls@[k].hold_timer
                },
            self != BonusType::Slow ==> final(state).balls == old(state).balls,
    {
        state.bonus_stack(self, count);
    }

    /// The color a falling bonus of this kind is drawn with.
    pub fn color(self) -> (r: Color)
        ensures
            self == BonusType::Slow ==> r == (Color { r: 255, g: 0, b: 0, a: 255 }),
            self == BonusType::Expand ==> r == (Color { r: 0, g: 255, b: 0, a: 255 }),
            self == BonusType::Divide ==> r == (Color { r: 0, g: 0, b: 255, a: 255 }),
            self == BonusType::Life ==> r == (Color { r: 255, g: 255, b: 0, a: 255 }),
    {
        match self {
            BonusType::Slow => Color { r: 255, g: 0, b: 0, a: 255 },
            BonusType::Expand => Color { r: 0, g: 255, b: 0, a: 255 },
            BonusType::Divide => Color { r: 0, g: 0, b: 255, a: 255 },
            BonusType::Life => Color { r: 255, g: 255, b: 0, a: 255 },
        }
    }
}

/// A bonus dropping toward the paddle.
#[derive(Clone, Copy, PartialEq, Eq, Structural, Debug)]
pub struct FallingBonus {
    pub bonus_type: BonusType,
    pub position: Point,
}

impl FallingBonus {
    pub open spec fn wf(self) -> bool {
        self.position.wf()
    }

    /// A bonus of a uniformly drawn kind at the given position.
    pub fn random<R: RandomSource>(rng: &mut R, position: Point) -> (r: FallingBonus)
        requires
            position.wf(),
        ensures
            r.position == position,
            r.wf(),
    {
        let i: u32 = rng.below(4);
        FallingBonus { bonus_type: BonusType::of_index(i), position }
    }

    /// The bonus's pickup shape.
    pub open spec fn shape_spec(self) -> Circle {
        Circle { center: self.position, radius: BONUS_RADIUS }
    }

    pub fn shape(&self) -> (r: Circle)
        requires
            self.wf(),
        ensures
            r == self.shape_spec(),
            r.wf(),
    {
        Circle { center: self.position, radius: BONUS_RADIUS }
    }
}

impl Updatable for FallingBonus {
    open spec fn inv(&self) -> bool {
        self.wf()
    }

    /// Fall at the constant bonus speed.
    fn update(&mut self, dt: Millis)
        ensures
            final(self).position.y as int == clamp_i(
                old(self).position.y + tdiv(BONUS_FALL_SPEED * dt, 1000),
                -POS_BOUND as int,
                POS_BOUND as int,
            ),
            final(self).position.x == old(self).position.x,
            final(self).bonus_type == old(self).bonus_type,
    {
        let dy: i64 = mul_div(BONUS_FALL_SPEED, dt, 1000);
        self.position = Point { x: self.position.x, y: clamp_add(self.position.y, dy) };
    }
}

/// A timed effect currently in force.
#[derive(Clone, Copy, PartialEq, Eq, Structural, Debug)]
pub struct ActiveBonus {
    pub bonus_type: BonusType,
    pub timer: Millis,
}

impl ActiveBonus {
    pub open spec fn wf(self) -> bool {
        -DT_MAX <= self.timer <= BONUS_DURATION
    }

    /// Whether the effect is still in force.
    pub fn active(&self) -> (r: bool)
        ensures
            r == (self.timer > 0),
    {
        self.timer > 0
    }
}

impl From<BonusType> for ActiveBonus {
    fn from(bonus_type: BonusType) -> (r: ActiveBonus) {
        ActiveBonus { bonus_type, timer: BONUS_DURATION }
    }
}

impl vstd::std_specs::convert::FromSpecImpl<BonusType> for ActiveBonus {
    open spec fn obeys_from_spec() -> bool {
        true
    }

    open spec fn from_spec(bonus_type: BonusType) -> ActiveBonus {
        ActiveBonus { bonus_type, timer: BONUS_DURATION }
    }
}

impl Updatable for ActiveBonus {
    open spec fn inv(&self) -> bool {
        self.wf()
    }

    /// Run the effect's timer down, saturating at the lowest value the
    /// invariant admits (the simulation purges an effect the same frame it
    /// expires, so the floor is never reached on a stored effect).
    fn update(&mut self, dt: Millis)
        ensures
            final(self).timer as int == if old(self).timer - dt >= -DT_MAX {
                old(self).timer - dt
            } else {
                -DT_MAX as int
            },
            final(self).bonus_type == old(self).bonus_type,
    {
        let t: i64 = self.timer - dt;
        self.timer = if t >= -DT_MAX { t } else { -DT_MAX };
    }
}

} // verus!
