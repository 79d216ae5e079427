//! The simulation state and the fixed per-frame update step.

use vstd::prelude::*;
use crate::num::{Pixels, Millis, Angle, POS_BOUND, DT_MAX, clamp_i, tdiv};
use crate::trig::norm_angle_spec;
use crate::utils::{Point, Vector, vec_x, vec_y};
use crate::shape::{InfiniteWall, WallOrientation};
use crate::traits::{Collide, Updatable};
use crate::ball::{Ball, Color, BALL_SPEED, BALL_HOLD};
use crate::player::Player;
use crate::brick::{Brick, alive_spec, damaged_hp};
use crate::bonus::{BonusType, FallingBonus, ActiveBonus, BONUS_DURATION};
use crate::wall::{Wall, WALL_THICKNESS};
use crate::level::Level;
use crate::random::RandomSource;

verus! {

/// The largest number of balls in play at once.
pub const MAX_BALLS: usize = 16;

/// Distance from the bottom of the field to the paddle's center: the
/// wall thickness, half the paddle, and a ten-pixel gap.
pub const PLAYER_OFFSET: Pixels = 22000;

/// Distance from the bottom of the field to the serve position: the
/// paddle offset, half the paddle, and the ball radius.
pub const BALL_OFFSET: Pixels = 38000;

/// Direction a fresh ball is served with: up and to the right.
pub const SERVE_ANGLE: Angle = 315000;

pub open spec fn bricks_wf(s: Seq<Brick>) -> bool {
    forall|k: int| 0 <= k < s.len() ==> (#[trigger] s[k]).wf()
}

pub open spec fn balls_wf(s: Seq<Ball>) -> bool {
    forall|k: int| 0 <= k < s.len() ==> (#[trigger] s[k]).wf()
}

pub open spec fn bonuses_wf(s: Seq<FallingBonus>) -> bool {
    forall|k: int| 0 <= k < s.len() ==> (#[trigger] s[k]).wf()
}

pub open spec fn actives_wf(s: Seq<ActiveBonus>) -> bool {
    forall|k: int| 0 <= k < s.len() ==> (#[trigger] s[k]).wf()
}

pub open spec fn walls_wf(s: Seq<Wall>) -> bool {
    forall|k: int| 0 <= k < s.len() ==> (#[trigger] s[k]).wf()
}

/// The round is won once no brick on the field is breakable.
pub open spec fn won_spec(s: Seq<Brick>) -> bool {
    forall|k: int| 0 <= k < s.len() ==> !(#[trigger] s[k]).breakable
}

/// Whether any effect of kind `t` is on the books, expired or not.
pub open spec fn has_type(s: Seq<ActiveBonus>, t: BonusType) -> bool {
    exists|k: int| 0 <= k < s.len() && (#[trigger] s[k]).bonus_type == t
}

/// Whether any slowing effect is on the books, expired or not.
pub open spec fn has_slow(s: Seq<ActiveBonus>) -> bool {
    has_type(s, BonusType::Slow)
}

/// How many effects of kind `t` are still in force.
pub open spec fn active_count(s: Seq<ActiveBonus>, t: BonusType) -> int
    decreases s.len(),
{
    if s.len() == 0 {
        0
    } else {
        active_count(s.drop_last(), t) + if s.last().bonus_type == t && s.last().timer > 0 {
            1int
        } else {
            0
        }
    }
}

/// A state whose bricks are those of a level with no breakable brick is
/// won from the start: no update is needed.
pub proof fn lemma_win_at_construction(level: Level, s: State)
    requires
        won_spec(level.bricks@),
        s.bricks == level.bricks,
    ensures
        won_spec(s.bricks@),
{
}

/// A frame is deterministic given the frame delta and the bonuses the
/// generator spawned: two frames from the same state with the same delta
/// and the same drawn bonuses agree on every component of the result.
pub proof fn lemma_frame_deterministic(
    s0: State,
    a: State,
    b: State,
    dt: int,
    spawned: Seq<FallingBonus>,
)
    requires
        frame_ok(s0, a, dt, spawned),
        frame_ok(s0, b, dt, spawned),
    ensures
        a.bricks@ == b.bricks@,
        a.walls == b.walls,
        a.pit == b.pit,
        a.bonuses@ == b.bonuses@,
        a.active_bonuses@ == b.active_bonuses@,
        a.player == b.player,
        a.lives == b.lives,
        a.balls@ == b.balls@,
        a.serve == b.serve,
{
}

/// Filtering commutes with appending one element.
pub proof fn lemma_filter_push<A>(s: Seq<A>, x: A, pred: spec_fn(A) -> bool)
    ensures
        s.push(x).filter(pred) == if pred(x) {
            s.filter(pred).push(x)
        } else {
            s.filter(pred)
        },
{
    reveal(Seq::filter);
    assert(s.push(x).drop_last() =~= s);
    assert(s.push(x).last() == x);
}

/// The count of in-force effects of one kind, over one appended element.
pub proof fn lemma_active_count_push(s: Seq<ActiveBonus>, x: ActiveBonus, t: BonusType)
    ensures
        active_count(s.push(x), t) == active_count(s, t) + if x.bonus_type == t && x.timer > 0 {
            1int
        } else {
            0
        },
{
    assert(s.push(x).drop_last() =~= s);
    assert(s.push(x).last() == x);
}


/// What the `t`-th appended ball of a division looks like: a copy of the
/// source ball `t / 2`, turned an eighth of a half turn to one side or
/// the other.
pub open spec fn divide_clone_ok(orig: Seq<Ball>, t: int, b: Ball) -> bool {
    let q = t / 2;
    let delta = if t % 2 == 0 { 30000int } else { -30000int };
    &&& 0 <= q < orig.len()
    &&& b.velocity.angle as int == norm_angle_spec(orig[q].velocity.angle + delta)
    &&& b.velocity.norm == orig[q].velocity.norm
    &&& b.position == orig[q].position
    &&& b.hold_timer == orig[q].hold_timer
    &&& b.color == orig[q].color
}

/// Bricks that stay on the field after the damage pass.
pub open spec fn brick_alive_pred() -> spec_fn(Brick) -> bool {
    |b: Brick| alive_spec(b.breakable, b.hitpoints as int)
}

/// Whether a falling bonus currently overlaps the pit boundary.
pub open spec fn bonus_pit_hit(pit: InfiniteWall, b: FallingBonus) -> bool {
    crate::shape::wall_circle_spec(pit, b.shape_spec()) is Some
}

/// Whether a falling bonus currently overlaps the paddle.
pub open spec fn bonus_player_hit(p: Player, b: FallingBonus) -> bool {
    crate::shape::rect_circle_spec(p.shape_spec(), b.shape_spec()) is Some
}

/// Falling bonuses that survive the frame: they hit neither the pit nor
/// the paddle.  The pit check runs first, so a bonus overlapping both is
/// discarded.
pub open spec fn bonus_kept_pred(pit: InfiniteWall, p: Player) -> spec_fn(FallingBonus) -> bool {
    |b: FallingBonus| !bonus_pit_hit(pit, b) && !bonus_player_hit(p, b)
}

/// Falling bonuses picked up this frame: past the pit check, on the
/// paddle.
pub open spec fn bonus_picked_pred(pit: InfiniteWall, p: Player) -> spec_fn(FallingBonus) -> bool {
    |b: FallingBonus| !bonus_pit_hit(pit, b) && bonus_player_hit(p, b)
}

/// Timed effects still in force.
pub open spec fn active_pred() -> spec_fn(ActiveBonus) -> bool {
    |b: ActiveBonus| b.timer > 0
}

/// Whether a ball has fallen into the pit.
pub open spec fn ball_lost(pit: InfiniteWall, b: Ball) -> bool {
    crate::shape::wall_circle_spec(pit, b.shape_spec()) is Some
}

/// A ball after the pit settlement either was already in play before it
/// or is the freshly served ball: full speed, full hold timer.
pub open spec fn ball_from(bs: Seq<Ball>, b: Ball) -> bool {
    (exists|j: int| 0 <= j < bs.len() && b == bs[j]) || (b.velocity.norm == BALL_SPEED
        && b.hold_timer == BALL_HOLD)
}

/// Balls that stay in play: they do not overlap the pit.
pub open spec fn ball_kept_pred(pit: InfiniteWall) -> spec_fn(Ball) -> bool {
    |b: Ball| !ball_lost(pit, b)
}


/// The ball after one frame's integration: a held ball runs its timer
/// down and, while still held, sits on top of the paddle; a free ball
/// moves by `velocity * dt`, clamped into the coordinate box.
pub open spec fn ball_stepped(b: Ball, p: Player, dt: int) -> Ball {
    if b.hold_timer > 0 {
        Ball {
            position: if b.hold_timer - dt > 0 {
                (Point {
                    x: p.position.x,
                    y: clamp_i(p.position.y - 16000, -POS_BOUND as int, POS_BOUND as int) as i64,
                })
            } else {
                b.position
            },
            velocity: b.velocity,
            color: b.color,
            hold_timer: (b.hold_timer - dt) as i64,
        }
    } else {
        let sn = clamp_i(b.velocity.norm * dt / 1000, 0, POS_BOUND as int);
        Ball {
            position: (Point {
                x: clamp_i(
                    b.position.x + vec_x(b.velocity.angle as int, sn),
                    -POS_BOUND as int,
                    POS_BOUND as int,
                ) as i64,
                y: clamp_i(
                    b.position.y + vec_y(b.velocity.angle as int, sn),
                    -POS_BOUND as int,
                    POS_BOUND as int,
                ) as i64,
            }),
            velocity: b.velocity,
            color: b.color,
            hold_timer: b.hold_timer,
        }
    }
}

/// All balls after one frame's integration.
pub open spec fn step_balls_seq(balls: Seq<Ball>, p: Player, dt: int) -> Seq<Ball> {
    Seq::new(balls.len(), |k: int| ball_stepped(balls[k], p, dt))
}

/// The ball after a bounce off a contact: velocity reflected about the
/// normal, position pushed out by the depth along it.
pub open spec fn ball_bounced(b: Ball, normal: int, depth: int) -> Ball {
    Ball {
        position: (Point {
            x: clamp_i(
                b.position.x + vec_x(normal, depth),
                -POS_BOUND as int,
                POS_BOUND as int,
            ) as i64,
            y: clamp_i(
                b.position.y + vec_y(normal, depth),
                -POS_BOUND as int,
                POS_BOUND as int,
            ) as i64,
        }),
        velocity: (Vector {
            angle: Vector::reflect_spec(b.velocity.angle as int, normal) as i64,
            norm: b.velocity.norm,
        }),
        color: b.color,
        hold_timer: b.hold_timer,
    }
}

/// The brick after one hit.
pub open spec fn brick_damaged_spec(b: Brick) -> Brick {
    Brick {
        center: b.center,
        width: b.width,
        height: b.height,
        breakable: b.breakable,
        hitpoints: damaged_hp(b) as u8,
    }
}

/// One brick against the first `k` balls, in order: each colliding ball
/// bounces off the brick's current shape and wears it down by one hit.
pub open spec fn brick_row_pass(brick: Brick, balls: Seq<Ball>, k: int) -> (Brick, Seq<Ball>)
    decreases k,
{
    if k <= 0 {
        (brick, balls)
    } else {
        let r = brick_row_pass(brick, balls, k - 1);
        match crate::shape::rect_circle_spec(r.0.shape_spec(), balls[k - 1].shape_spec()) {
            Some(col) => (
                brick_damaged_spec(r.0),
                r.1.update(k - 1, ball_bounced(balls[k - 1], col.0, col.1)),
            ),
            None => r,
        }
    }
}

/// The first `i` bricks against all balls, in order: the damaged bricks
/// and the balls as they leave the pass.
pub open spec fn bricks_pass(bricks: Seq<Brick>, balls: Seq<Ball>, i: int) -> (
    Seq<Brick>,
    Seq<Ball>,
)
    decreases i,
{
    if i <= 0 {
        (Seq::empty(), balls)
    } else {
        let r = bricks_pass(bricks, balls, i - 1);
        let row = brick_row_pass(bricks[i - 1], r.1, r.1.len() as int);
        (r.0.push(row.0), row.1)
    }
}

/// Every bonus spawned during a brick pass sits at the center of a brick
/// that was alive before the pass and dead after it.
pub open spec fn spawned_ok(
    spawned: Seq<FallingBonus>,
    bricks0: Seq<Brick>,
    bricks1: Seq<Brick>,
) -> bool {
    forall|t: int| 0 <= t < spawned.len() ==> (#[trigger] spawned[t]).wf() && exists|i: int|
        0 <= i < bricks0.len() && spawned[t].position == bricks0[i].center && alive_spec(
            bricks0[i].breakable,
            bricks0[i].hitpoints as int,
        ) && i < bricks1.len() && !alive_spec(bricks1[i].breakable, bricks1[i].hitpoints as int)
}

/// All balls after the paddle pass: each ball overlapping the paddle
/// bounces off it.
pub open spec fn paddle_pass(balls: Seq<Ball>, p: Player) -> Seq<Ball> {
    Seq::new(
        balls.len(),
        |k: int|
            match crate::shape::rect_circle_spec(p.shape_spec(), balls[k].shape_spec()) {
                Some(col) => ball_bounced(balls[k], col.0, col.1),
                None => balls[k],
            },
    )
}

/// A falling bonus after one frame of its constant fall.
pub open spec fn bonus_stepped(b: FallingBonus, dt: int) -> FallingBonus {
    FallingBonus {
        bonus_type: b.bonus_type,
        position: (Point {
            x: b.position.x,
            y: clamp_i(
                b.position.y + tdiv(200000 * dt, 1000),
                -POS_BOUND as int,
                POS_BOUND as int,
            ) as i64,
        }),
    }
}

/// All falling bonuses after one frame of fall.
pub open spec fn bonuses_fall_seq(bonuses: Seq<FallingBonus>, dt: int) -> Seq<FallingBonus> {
    Seq::new(bonuses.len(), |k: int| bonus_stepped(bonuses[k], dt))
}

/// The paddle after one expansion bonus: one growth step, capped.
pub open spec fn grown_player(p: Player) -> Player {
    Player {
        position: p.position,
        velocity: p.velocity,
        acceleration: p.acceleration,
        width: if p.width + crate::player::PLAYER_GROWTH <= crate::player::PLAYER_MAX_WIDTH {
            (p.width + crate::player::PLAYER_GROWTH as int) as i64
        } else {
            crate::player::PLAYER_MAX_WIDTH
        },
    }
}

/// A ball turned by `delta`, direction renormalized.
pub open spec fn rotated_ball(b: Ball, delta: int) -> Ball {
    Ball {
        position: b.position,
        velocity: (Vector {
            angle: norm_angle_spec(b.velocity.angle + delta) as i64,
            norm: b.velocity.norm,
        }),
        color: b.color,
        hold_timer: b.hold_timer,
    }
}

/// The clones a division appends: for each ball, a copy turned one
/// twelfth of a turn each way.
pub open spec fn divide_clones(balls: Seq<Ball>) -> Seq<Ball> {
    Seq::new(
        2 * balls.len(),
        |t: int| rotated_ball(balls[t / 2], if t % 2 == 0 { 30000int } else { -30000 }),
    )
}

/// The balls after a division bonus: originals then clones, capped at
/// `MAX_BALLS`.
pub open spec fn divided_balls(balls: Seq<Ball>) -> Seq<Ball> {
    (balls + divide_clones(balls)).take(
        if 3 * balls.len() <= MAX_BALLS { 3 * balls.len() as int } else { MAX_BALLS as int },
    )
}

/// What activating one picked-up bonus does to the paddle, the lives, the
/// balls and the timed effects.
pub open spec fn activated(
    p: Player,
    lives: u8,
    balls: Seq<Ball>,
    actives: Seq<ActiveBonus>,
    kind: BonusType,
) -> (Player, u8, Seq<Ball>, Seq<ActiveBonus>) {
    match kind {
        BonusType::Slow => (
            p,
            lives,
            balls,
            actives.push(ActiveBonus { bonus_type: BonusType::Slow, timer: BONUS_DURATION }),
        ),
        BonusType::Expand => (grown_player(p), lives, balls, actives),
        BonusType::Divide => (p, lives, divided_balls(balls), actives),
        BonusType::Life => (
            p,
            if lives < 255 { (lives + 1) as u8 } else { 255u8 },
            balls,
            actives,
        ),
    }
}

/// The first `i` picked-up bonuses activated in order.
pub open spec fn activate_fold(
    p: Player,
    lives: u8,
    balls: Seq<Ball>,
    actives: Seq<ActiveBonus>,
    kinds: Seq<BonusType>,
    i: int,
) -> (Player, u8, Seq<Ball>, Seq<ActiveBonus>)
    decreases i,
{
    if i <= 0 {
        (p, lives, balls, actives)
    } else {
        let r = activate_fold(p, lives, balls, actives, kinds, i - 1);
        activated(r.0, r.1, r.2, r.3, kinds[i - 1])
    }
}

/// A timed effect after one frame's tick: the timer drops by `dt`,
/// saturating at the invariant's floor.
pub open spec fn ticked(a: ActiveBonus, dt: int) -> ActiveBonus {
    ActiveBonus {
        bonus_type: a.bonus_type,
        timer: (if a.timer - dt >= -DT_MAX { a.timer - dt } else { -DT_MAX as int }) as i64,
    }
}

/// All timed effects after one frame's tick.
pub open spec fn tick_seq(actives: Seq<ActiveBonus>, dt: int) -> Seq<ActiveBonus> {
    Seq::new(actives.len(), |k: int| ticked(actives[k], dt))
}

/// A ball re-slowed from the count of in-force slowing effects.
pub open spec fn slowed_ball(b: Ball, count: int) -> Ball {
    Ball {
        position: b.position,
        velocity: (Vector {
            angle: b.velocity.angle,
            norm: (BALL_SPEED as int / (count + 1)) as i64,
        }),
        color: b.color,
        hold_timer: b.hold_timer,
    }
}

/// All balls re-slowed from one count.
pub open spec fn slow_all(balls: Seq<Ball>, count: int) -> Seq<Ball> {
    Seq::new(balls.len(), |k: int| slowed_ball(balls[k], count))
}

/// The stacking pass: where any slowing effect is on the books, every
/// ball's speed is recomputed from the in-force count; otherwise the
/// balls are untouched.
pub open spec fn stacked_balls(balls: Seq<Ball>, actives: Seq<ActiveBonus>) -> Seq<Ball> {
    if has_type(actives, BonusType::Slow) {
        slow_all(balls, active_count(actives, BonusType::Slow))
    } else {
        balls
    }
}

/// The ball served after a life is lost: at the serve position, at full
/// speed, held.
pub open spec fn serve_ball_spec(p: Point) -> Ball {
    Ball {
        position: p,
        velocity: (Vector { angle: SERVE_ANGLE, norm: BALL_SPEED }),
        color: (Color { r: 120, g: 120, b: 200, a: 230 }),
        hold_timer: BALL_HOLD,
    }
}

/// The pit settlement: balls overlapping the pit are dropped; if none is
/// left, one life is spent (never below zero) and a fresh held ball is
/// served.
pub open spec fn settled(balls: Seq<Ball>, pit: InfiniteWall, lives: u8, serve: Point) -> (
    Seq<Ball>,
    u8,
) {
    let kept = balls.filter(ball_kept_pred(pit));
    if kept.len() > 0 {
        (kept, lives)
    } else {
        (
            Seq::empty().push(serve_ball_spec(serve)),
            if lives > 0 { (lives - 1) as u8 } else { 0u8 },
        )
    }
}

/// All balls bounced off one boundary line where they overlap it.
pub open spec fn wall_balls_pass(w: InfiniteWall, balls: Seq<Ball>) -> Seq<Ball> {
    Seq::new(
        balls.len(),
        |k: int|
            match crate::shape::wall_circle_spec(w, balls[k].shape_spec()) {
                Some(col) => ball_bounced(balls[k], col.0, col.1),
                None => balls[k],
            },
    )
}

/// The paddle after a wall contact: velocity inverted, pushed out along
/// the horizontal component of the normal.
pub open spec fn player_bounced(p: Player, normal: int, depth: int) -> Player {
    Player {
        position: (Point {
            x: clamp_i(
                p.position.x + vec_x(normal, depth),
                -POS_BOUND as int,
                POS_BOUND as int,
            ) as i64,
            y: p.position.y,
        }),
        velocity: (-p.velocity) as i64,
        acceleration: p.acceleration,
        width: p.width,
    }
}

/// One wall against the balls and the paddle: reflective walls bounce
/// both, the pit wall bounces nothing.
pub open spec fn wall_pass(w: Wall, balls: Seq<Ball>, p: Player) -> (Seq<Ball>, Player) {
    if w.shape.orientation is Bottom {
        (balls, p)
    } else {
        (
            wall_balls_pass(w.shape, balls),
            match crate::shape::wall_rect_spec(w.shape, p.shape_spec()) {
                Some(col) => player_bounced(p, col.0, col.1),
                None => p,
            },
        )
    }
}

/// The first `i` walls against the balls and the paddle, in order.
pub open spec fn walls_fold(walls: Seq<Wall>, balls: Seq<Ball>, p: Player, i: int) -> (
    Seq<Ball>,
    Player,
)
    decreases i,
{
    if i <= 0 {
        (balls, p)
    } else {
        let r = walls_fold(walls, balls, p, i - 1);
        wall_pass(walls[i - 1], r.0, r.1)
    }
}

/// One whole frame, as a function of the old state and the bonuses the
/// generator spawned: integrate balls and paddle, run the brick pass,
/// purge dead bricks, bounce off the paddle, drop and resolve the falling
/// bonuses (pit first), activate the picked kinds in order, tick, stack
/// and purge the timed effects, settle the pit, and bounce off the
/// reflective walls.
pub open spec fn frame_ok(s0: State, s1: State, dt: int, spawned: Seq<FallingBonus>) -> bool {
    let balls1 = step_balls_seq(s0.balls@, s0.player, dt);
    let player2 = crate::player::player_stepped(s0.player, dt);
    let hits = bricks_pass(s0.bricks@, balls1, s0.bricks@.len() as int);
    let bonuses3 = s0.bonuses@ + spawned;
    let bricks4 = hits.0.filter(brick_alive_pred());
    let balls5 = paddle_pass(hits.1, player2);
    let bonuses6 = bonuses_fall_seq(bonuses3, dt);
    let kept7 = bonuses6.filter(bonus_kept_pred(s0.pit.shape, player2));
    let picked7 = bonuses6.filter(bonus_picked_pred(s0.pit.shape, player2)).map_values(
        |b: FallingBonus| b.bonus_type,
    );
    let act = activate_fold(
        player2,
        s0.lives,
        balls5,
        s0.active_bonuses@,
        picked7,
        picked7.len() as int,
    );
    let actives9 = tick_seq(act.3, dt);
    let balls10 = stacked_balls(act.2, actives9);
    let actives11 = actives9.filter(active_pred());
    let set = settled(balls10, s0.pit.shape, act.1, s0.serve);
    let wp = walls_fold(s0.walls@, set.0, act.0, s0.walls@.len() as int);
    &&& spawned_ok(spawned, s0.bricks@, hits.0)
    &&& s1.bricks@ == bricks4
    &&& s1.walls == s0.walls
    &&& s1.pit == s0.pit
    &&& s1.bonuses@ == kept7
    &&& s1.active_bonuses@ == actives11
    &&& s1.player == wp.1
    &&& s1.lives == set.1
    &&& s1.balls@ == wp.0
    &&& s1.serve == s0.serve
}

/// The whole game at one instant.
pub struct State {
    pub bricks: Vec<Brick>,
    pub walls: Vec<Wall>,
    pub pit: Wall,
    pub bonuses: Vec<FallingBonus>,
    pub active_bonuses: Vec<ActiveBonus>,
    pub player: Player,
    pub lives: u8,
    pub balls: Vec<Ball>,
    pub serve: Point,
}

impl State {
    /// Well-formedness of every entity collection.
    pub open spec fn wf(self) -> bool {
        &&& bricks_wf(self.bricks@)
        &&& walls_wf(self.walls@)
        &&& self.pit.wf()
        &&& self.pit.shape.orientation == WallOrientation::Bottom
        &&& bonuses_wf(self.bonuses@)
        &&& actives_wf(self.active_bonuses@)
        &&& self.player.wf()
        &&& balls_wf(self.balls@)
        &&& self.serve.wf()
    }

    /// The opening state of a level: its bricks, the four boundaries, the
    /// paddle centered near the bottom, three lives, and one held ball at
    /// the serve position.
    pub fn new(level: Level) -> (r: State)
        requires
            level.wf(),
            PLAYER_OFFSET < level.height,
            BALL_OFFSET < level.height,
        ensures
            r.bricks == level.bricks,
            r.walls@.len() == 4,
            r.walls@[0].shape.orientation == WallOrientation::Top,
            r.walls@[0].shape.center.y == WALL_THICKNESS / 2,
            r.walls@[1].shape.orientation == WallOrientation::Left,
            r.walls@[1].shape.center.x == WALL_THICKNESS / 2,
            r.walls@[2].shape.orientation == WallOrientation::Right,
            r.walls@[2].shape.center.x as int == level.width - WALL_THICKNESS / 2,
            r.walls@[3].shape.orientation == WallOrientation::Bottom,
            r.walls@[3].shape.center.y as int == level.height - WALL_THICKNESS / 2,
            r.pit.shape.orientation == WallOrientation::Bottom,
            r.pit.shape.center.x as int == level.width as int / 2,
            r.pit.shape.center.y as int == level.height - WALL_THICKNESS / 2,
            r.bonuses@.len() == 0,
            r.active_bonuses@.len() == 0,
            r.player.position.x as int == level.width as int / 2,
            r.player.position.y == level.height - PLAYER_OFFSET,
            r.player.width == crate::player::PLAYER_INITIAL_WIDTH,
            r.player.velocity == 0,
            r.player.acceleration == 0,
            r.lives == 3,
            r.balls@.len() == 1,
            r.balls@[0].position == r.serve,
            r.balls@[0].velocity.angle == SERVE_ANGLE,
            r.balls@[0].velocity.norm == BALL_SPEED,
            r.balls@[0].hold_timer == BALL_HOLD,
            r.serve.x as int == level.width as int / 2,
            r.serve.y == level.height - BALL_OFFSET,
            r.wf(),
    {
        let half_w: Pixels = crate::num::half(level.width);
        let serve: Point = Point { x: half_w, y: level.height - BALL_OFFSET };
        let mut balls: Vec<Ball> = Vec::new();
        balls.push(Ball::new(serve, SERVE_ANGLE));
        State {
            bricks: level.bricks,
            walls: Wall::make_walls(level.height, level.width),
            pit: Wall::pit(level.height, level.width),
            bonuses: Vec::new(),
            active_bonuses: Vec::new(),
            player: Player::new(Point { x: half_w, y: level.height - PLAYER_OFFSET }),
            lives: 3,
            balls,
            serve,
        }
    }

    /// Whether the round is still going: lives remain.

    pub fn alive(&self) -> (r: bool)
        ensures
            r == (self.lives > 0),
    {
        self.lives > 0
    }

    /// Whether the round is won: no breakable brick remains.
    pub fn won(&self) -> (r: bool)
        ensures
            r == won_spec(self.bricks@),
    {
        let n: usize = self.bricks.len();
        let mut k: usize = 0;
        while k < n
            invariant
                n == self.bricks@.len(),
                k <= n,
                forall|m: int| 0 <= m < k ==> !(#[trigger] self.bricks@[m]).breakable,
            decreases n - k,
        {
            if self.bricks[k].breakable {
                return false;
            }
            k = k + 1;
        }
        true
    }

    /// Set the paddle's steering input for the next update.
    pub fn input(&mut self, input: i64)
        requires
            old(self).wf(),
            -1000 <= input <= 1000,
        ensures
            final(self).player.acceleration == input,
            final(self).player.position == old(self).player.position,
            final(self).player.velocity == old(self).player.velocity,
            final(self).player.width == old(self).player.width,
            final(self).bricks == old(self).bricks,
            final(self).walls == old(self).walls,
            final(self).pit == old(self).pit,
            final(self).bonuses == old(self).bonuses,
            final(self).active_bonuses == old(self).active_bonuses,
            final(self).lives == old(self).lives,
            final(self).balls == old(self).balls,
            final(self).serve == old(self).serve,
            final(self).wf(),
    {
        self.player.input(input);
    }

    /// Put a timed effect on the books.
    fn queue_bonus(&mut self, b: ActiveBonus)
        requires
            old(self).wf(),
            b.wf(),
        ensures
            final(self).active_bonuses@ == old(self).active_bonuses@.push(b),
            final(self).bricks == old(self).bricks,
            final(self).walls == old(self).walls,
            final(self).pit == old(self).pit,
            final(self).bonuses == old(self).bonuses,
            final(self).player == old(self).player,
            final(self).lives == old(self).lives,
            final(self).balls == old(self).balls,
            final(self).serve == old(self).serve,
            final(self).wf(),
    {
        self.active_bonuses.push(b);
    }

    /// Apply a picked-up bonus: `Slow` is queued as a timed effect, the
    /// other three act on the spot.
    pub(crate) fn activate_bonus(&mut self, bonus: BonusType)
        requires
            old(self).wf(),
        ensures
            final(self).wf(),
            (final(self).player, final(self).lives, final(self).balls@, final(self).active_bonuses@)
                == activated(
                old(self).player,
                old(self).lives,
                old(self).balls@,
                old(self).active_bonuses@,
                bonus,
            ),
            final(self).bricks == old(self).bricks,
            final(self).walls == old(self).walls,
            final(self).pit == old(self).pit,
            final(self).bonuses == old(self).bonuses,
            final(self).serve == old(self).serve,
            final(self).lives as int >= old(self).lives as int,
            bonus == BonusType::Expand ==> final(self).player == grown_player(old(self).player)
                && final(self).lives == old(self).lives,
            bonus == BonusType::Life ==> final(self).player == old(self).player,
            bonus == BonusType::Slow ==> final(self).active_bonuses@ == old(self).active_bonuses@.push(ActiveBonus { bonus_type: BonusType::Slow, timer: BONUS_DURATION })
                && final(self).balls == old(self).balls && final(self).player == old(self).player
                && final(self).lives == old(self).lives,
            bonus != BonusType::Slow ==> final(self).active_bonuses == old(self).active_bonuses,
            bonus == BonusType::Expand || bonus == BonusType::Life ==> final(self).balls == old(self).balls,
            bonus == BonusType::Divide ==> ({
                let n = old(self).balls@.len() as int;
                let total = if 3 * n <= MAX_BALLS { 3 * n } else { MAX_BALLS as int };
                &&& final(self).balls@.len() == total
                &&& final(self).player == old(self).player
                &&& final(self).lives == old(self).lives
                &&& (forall|k: int|
                    0 <= k < total && k < n ==> #[trigger] final(self).balls@[k] == old(self).balls@[k])
                &&& (forall|k: int|
                    n <= k < total ==> divide_clone_ok(
                        old(self).balls@,
                        k - n,
                        #[trigger] final(self).balls@[k],
                    ))
            }),
            bonus == BonusType::Life ==> final(self).lives as int == if old(self).lives < 255 {
                old(self).lives + 1
            } else {
                255int
            },
            final(self).balls@.len() >= old(self).balls@.len() || final(self).balls@.len()
                == MAX_BALLS,
            final(self).balls@.len() >= 1 || old(self).balls@.len() == 0,
    {
        match bonus {
            BonusType::Slow => {
                self.queue_bonus(ActiveBonus::from(BonusType::Slow));
            },
            BonusType::Expand => {
                self.player.grow();
                proof {
                    assert(self.player == grown_player(old(self).player));
                }
            },
            BonusType::Divide => {
                let ghost orig = self.balls@;
                let n: usize = self.balls.len();
                let mut add: Vec<Ball> = Vec::new();
                let mut k: usize = 0;
                while k < n
                    invariant
                        k <= n,
                        self.balls@ == orig,
                        n == orig.len(),
                        balls_wf(orig),
                        add@.len() == 2 * k,
                        balls_wf(add@),
                        forall|t: int| 0 <= t < add@.len() ==> #[trigger] add@[t]
                            == divide_clones(orig)[t],
                        forall|t: int| 0 <= t < add@.len() ==> divide_clone_ok(
                            orig,
                            t,
                            #[trigger] add@[t],
                        ),
                    decreases n - k,
                {
                    let mut a: Ball = self.balls[k];
                    a.rotate(30000);
                    add.push(a);
                    let mut b: Ball = self.balls[k];
                    b.rotate(-30000);
                    add.push(b);
                    proof {
                        vstd::arithmetic::div_mod::lemma_fundamental_div_mod_converse(
                            2 * k,
                            2,
                            k as int,
                            0,
                        );
                        vstd::arithmetic::div_mod::lemma_fundamental_div_mod_converse(
                            2 * k + 1,
                            2,
                            k as int,
                            1,
                        );
                        assert(add@[2 * k] == divide_clones(orig)[2 * k]);
                        assert(add@[2 * k + 1] == divide_clones(orig)[2 * k + 1]);
                    }
                    k = k + 1;
                }
                proof {
                    assert(add@ =~= divide_clones(orig));
                }
                self.balls.append(&mut add);
                self.balls.truncate(MAX_BALLS);
                proof {
                    assert(self.balls@ =~= divided_balls(orig));
                    assert(self.balls@.len() >= n || self.balls@.len() == MAX_BALLS);
                }
            },
            BonusType::Life => {
                if self.lives < 255 {
                    self.lives = self.lives + 1;
                }
            },
        }
    }

    /// Recompute a stacking effect from the count of in-force instances:
    /// `Slow` resets every ball's speed to `BALL_SPEED / (count + 1)`.
    pub(crate) fn bonus_stack(&mut self, bonus: BonusType, count: usize)
        requires
            old(self).wf(),
        ensures
            final(self).wf(),
            final(self).bricks == old(self).bricks,
            final(self).walls == old(self).walls,
            final(self).pit == old(self).pit,
            final(self).bonuses == old(self).bonuses,
            final(self).active_bonuses == old(self).active_bonuses,
            final(self).player == old(self).player,
            final(self).lives == old(self).lives,
            final(self).serve == old(self).serve,
            final(self).balls@.len() == old(self).balls@.len(),
            bonus == BonusType::Slow ==> final(self).balls@ == slow_all(
                old(self).balls@,
                count as int,
            ),
            bonus == BonusType::Slow ==> forall|k: int|
                0 <= k < final(self).balls@.len() ==> {
                    &&& (#[trigger] final(self).balls@[k]).velocity.norm as int == BALL_SPEED as int
                        / (count + 1) as int
                    &&& final(self).balls@[k].velocity.angle == old(self).balls@[k].velocity.angle
                    &&& final(self).balls@[k].position == old(self).balls@[k].position
                    &&& final(self).balls@[k].hold_timer == old(self).balls@[k].hold_timer
                },
            bonus != BonusType::Slow ==> final(self).balls == old(self).balls,
    {
        match bonus {
            BonusType::Slow => {
                let ghost balls0 = self.balls@;
                let n: usize = self.balls.len();
                let mut out: Vec<Ball> = Vec::new();
                let mut k: usize = 0;
                while k < n
                    invariant
                        k <= n,
                        self.balls@ == balls0,
                        n == balls0.len(),
                        balls_wf(balls0),
                        out@.len() == k,
                        balls_wf(out@),
                        forall|m: int| 0 <= m < k ==> #[trigger] out@[m] == slowed_ball(
                            balls0[m],
                            count as int,
                        ),
                    decreases n - k,
                {
                    let mut b: Ball = self.balls[k];
                    b.speed(count);
                    proof {
                        assert(b == slowed_ball(balls0[k as int], count as int));
                    }
                    out.push(b);
                    k = k + 1;
                }
                self.balls = out;
                proof {
                    assert(self.balls@ =~= slow_all(balls0, count as int));
                }
            },
            _ => {},
        }
    }

    /// Step 1: integrate every ball; held balls track the paddle.
    fn move_balls(&mut self, dt: Millis)
        requires
            old(self).wf(),
            0 <= dt <= DT_MAX,
        ensures
            final(self).wf(),
            final(self).balls@ == step_balls_seq(old(self).balls@, old(self).player, dt as int),
            final(self).balls@.len() == old(self).balls@.len(),
            final(self).bricks == old(self).bricks,
            final(self).walls == old(self).walls,
            final(self).pit == old(self).pit,
            final(self).bonuses == old(self).bonuses,
            final(self).active_bonuses == old(self).active_bonuses,
            final(self).player == old(self).player,
            final(self).lives == old(self).lives,
            final(self).serve == old(self).serve,
    {
        let ghost s0 = *self;
        let hold: Point = self.player.position().plus(Point { x: 0, y: -16000 });
        let n: usize = self.balls.len();
        let mut out: Vec<Ball> = Vec::new();
        let mut k: usize = 0;
        while k < n
            invariant
                k <= n,
                *self == s0,
                s0.wf(),
                0 <= dt <= DT_MAX,
                n == s0.balls@.len(),
                hold.x == s0.player.position.x,
                hold.y as int == clamp_i(
                    s0.player.position.y - 16000,
                    -POS_BOUND as int,
                    POS_BOUND as int,
                ),
                hold.wf(),
                out@.len() == k,
                balls_wf(out@),
                forall|m: int| 0 <= m < k ==> #[trigger] out@[m] == ball_stepped(
                    s0.balls@[m],
                    s0.player,
                    dt as int,
                ),
            decreases n - k,
        {
            let mut b: Ball = self.balls[k];
            b.update(dt);
            if b.on_hold() {
                b.set_position(hold);
            }
            proof {
                assert(b == ball_stepped(s0.balls@[k as int], s0.player, dt as int));
            }
            out.push(b);
            k = k + 1;
        }
        self.balls = out;
        proof {
            assert(self.balls@ =~= step_balls_seq(s0.balls@, s0.player, dt as int));
        }
    }

    /// Step 3: bounce balls off bricks, wear the bricks down, and roll
    /// the bonus-spawn chance for each brick that just broke.
    fn collide_bricks<R: RandomSource>(&mut self, rng: &mut R) -> (spawned: Ghost<
        Seq<FallingBonus>,
    >)
        requires
            old(self).wf(),
        ensures
            final(self).wf(),
            ({
                let r = bricks_pass(
                    old(self).bricks@,
                    old(self).balls@,
                    old(self).bricks@.len() as int,
                );
                &&& final(self).bricks@ == r.0
                &&& final(self).balls@ == r.1
                &&& spawned_ok(spawned@, old(self).bricks@, r.0)
                &&& final(self).bonuses@ == old(self).bonuses@ + spawned@
            }),
            final(self).bricks@.len() == old(self).bricks@.len(),
            forall|m: int| 0 <= m < final(self).bricks@.len() ==> {
                &&& (#[trigger] final(self).bricks@[m]).center == old(self).bricks@[m].center
                &&& final(self).bricks@[m].width == old(self).bricks@[m].width
                &&& final(self).bricks@[m].height == old(self).bricks@[m].height
                &&& final(self).bricks@[m].breakable == old(self).bricks@[m].breakable
                &&& final(self).bricks@[m].hitpoints <= old(self).bricks@[m].hitpoints
            },
            final(self).balls@.len() == old(self).balls@.len(),
            final(self).walls == old(self).walls,
            final(self).pit == old(self).pit,
            final(self).active_bonuses == old(self).active_bonuses,
            final(self).player == old(self).player,
            final(self).lives == old(self).lives,
            final(self).serve == old(self).serve,
    {
        let ghost s0 = *self;
        let ghost mut spw: Seq<FallingBonus> = Seq::empty();
        proof {
            assert(self.bonuses@ =~= s0.bonuses@ + spw);
        }
        let nb: usize = self.bricks.len();
        let mut bricks_out: Vec<Brick> = Vec::new();
        let mut bi: usize = 0;
        while bi < nb
            invariant
                bi <= nb,
                s0.wf(),
                nb == s0.bricks@.len(),
                self.bricks@ == s0.bricks@,
                self.walls == s0.walls,
                self.pit == s0.pit,
                self.active_bonuses == s0.active_bonuses,
                self.player == s0.player,
                self.lives == s0.lives,
                self.serve == s0.serve,
                self.balls@.len() == s0.balls@.len(),
                balls_wf(self.balls@),
                bonuses_wf(self.bonuses@),
                self.bonuses@ == s0.bonuses@ + spw,
                spawned_ok(spw, s0.bricks@, bricks_out@),
                bricks_out@.len() == bi,
                ({
                    let r = bricks_pass(s0.bricks@, s0.balls@, bi as int);
                    bricks_out@ == r.0 && self.balls@ == r.1
                }),
                forall|m: int| 0 <= m < bi ==> {
                    &&& (#[trigger] bricks_out@[m]).center == s0.bricks@[m].center
                    &&& bricks_out@[m].width == s0.bricks@[m].width
                    &&& bricks_out@[m].height == s0.bricks@[m].height
                    &&& bricks_out@[m].breakable == s0.bricks@[m].breakable
                    &&& bricks_out@[m].hitpoints <= s0.bricks@[m].hitpoints
                    &&& bricks_out@[m].wf()
                },
            decreases nb - bi,
        {
            let mut brick: Brick = self.bricks[bi];
            let ghost balls_e = self.balls@;
            let ghost spw0 = spw;
            let nk: usize = self.balls.len();
            let mut balls_out: Vec<Ball> = Vec::new();
            let mut ki: usize = 0;
            proof {
                assert(balls_out@ + balls_e.skip(0) =~= balls_e);
            }
            while ki < nk
                invariant
                    ki <= nk,
                    s0.wf(),
                    bi < nb,
                    nb == s0.bricks@.len(),
                    self.bricks@ == s0.bricks@,
                    self.walls == s0.walls,
                    self.pit == s0.pit,
                    self.active_bonuses == s0.active_bonuses,
                    self.player == s0.player,
                    self.lives == s0.lives,
                    self.serve == s0.serve,
                    nk == self.balls@.len(),
                    self.balls@ == balls_e,
                    self.balls@.len() == s0.balls@.len(),
                    balls_wf(self.balls@),
                    bonuses_wf(self.bonuses@),
                    self.bonuses@ == s0.bonuses@ + spw,
                    spw0.len() <= spw.len(),
                    spw0 == spw.take(spw0.len() as int),
                    spawned_ok(spw0, s0.bricks@, bricks_out@),
                    forall|t: int| spw0.len() <= t < spw.len() ==> {
                        &&& (#[trigger] spw[t]).wf()
                        &&& spw[t].position == s0.bricks@[bi as int].center
                        &&& alive_spec(
                            s0.bricks@[bi as int].breakable,
                            s0.bricks@[bi as int].hitpoints as int,
                        )
                        &&& !alive_spec(brick.breakable, brick.hitpoints as int)
                    },
                    brick.center == s0.bricks@[bi as int].center,
                    brick.width == s0.bricks@[bi as int].width,
                    brick.height == s0.bricks@[bi as int].height,
                    brick.breakable == s0.bricks@[bi as int].breakable,
                    brick.hitpoints <= s0.bricks@[bi as int].hitpoints,
                    brick.wf(),
                    balls_out@.len() == ki,
                    balls_wf(balls_out@),
                    ({
                        let row = brick_row_pass(s0.bricks@[bi as int], balls_e, ki as int);
                        brick == row.0 && balls_out@ + balls_e.skip(ki as int) =~= row.1
                    }),
                decreases nk - ki,
            {
                let ghost row_prev = brick_row_pass(s0.bricks@[bi as int], balls_e, ki as int);
                let mut ball: Ball = self.balls[ki];
                proof {
                    assert(ball == balls_e[ki as int]);
                }
                if let Some(col) = brick.shape().collide(&ball.shape()) {
                    let was_alive: bool = brick.alive();
                    ball.bounce(col);
                    brick.damage();
                    proof {
                        assert(ball == ball_bounced(
                            balls_e[ki as int],
                            col.0 as int,
                            col.1 as int,
                        ));
                        assert(brick == brick_damaged_spec(row_prev.0));
                    }
                    if was_alive && !brick.alive() {
                        if rng.below(4) == 0 {
                            let fb: FallingBonus = FallingBonus::random(rng, brick.center);
                            self.bonuses.push(fb);
                            proof {
                                spw = spw.push(fb);
                                assert(self.bonuses@ =~= s0.bonuses@ + spw);
                                assert(spw.take(spw0.len() as int) =~= spw0);
                            }
                        }
                    }
                }
                proof {
                    let row_next = brick_row_pass(s0.bricks@[bi as int], balls_e, ki + 1);
                    assert(balls_out@.push(ball) + balls_e.skip(ki + 1) =~= row_next.1);
                }
                balls_out.push(ball);
                ki = ki + 1;
            }
            proof {
                assert(balls_e.skip(nk as int) =~= Seq::empty());
                assert(balls_out@ + balls_e.skip(nk as int) =~= balls_out@);
                let row = brick_row_pass(s0.bricks@[bi as int], balls_e, nk as int);
                assert(balls_out@ =~= row.1);
            }
            self.balls = balls_out;
            bricks_out.push(brick);
            proof {
                assert forall|t: int| 0 <= t < spw.len() implies (#[trigger] spw[t]).wf()
                    && exists|i: int|
                    0 <= i < s0.bricks@.len() && spw[t].position == s0.bricks@[i].center
                        && alive_spec(s0.bricks@[i].breakable, s0.bricks@[i].hitpoints as int) && i
                        < bricks_out@.len() && !alive_spec(
                        bricks_out@[i].breakable,
                        bricks_out@[i].hitpoints as int,
                    ) by {
                    if t < spw0.len() {
                        assert(spw0[t] == spw[t]);
                        assert(spawned_ok(spw0, s0.bricks@, bricks_out@.drop_last()));
                        let i = choose|i: int|
                            0 <= i < s0.bricks@.len() && spw0[t].position == s0.bricks@[i].center
                                && alive_spec(
                                s0.bricks@[i].breakable,
                                s0.bricks@[i].hitpoints as int,
                            ) && i < bricks_out@.drop_last().len() && !alive_spec(
                                bricks_out@.drop_last()[i].breakable,
                                bricks_out@.drop_last()[i].hitpoints as int,
                            );
                        assert(bricks_out@[i] == bricks_out@.drop_last()[i]);
                    } else {
                        assert(spw[t].position == s0.bricks@[bi as int].center);
                        assert(bricks_out@[bi as int] == brick);
                    }
                }
            }
            bi = bi + 1;
        }
        self.bricks = bricks_out;
        Ghost(spw)
    }

    /// Step 4: remove the bricks that are no longer alive.
    fn purge_bricks(&mut self)
        requires
            old(self).wf(),
        ensures
            final(self).wf(),
            final(self).bricks@ == old(self).bricks@.filter(brick_alive_pred()),
            forall|m: int| 0 <= m < final(self).bricks@.len() ==> alive_spec(
                (#[trigger] final(self).bricks@[m]).breakable,
                final(self).bricks@[m].hitpoints as int,
            ),
            final(self).bricks@.len() <= old(self).bricks@.len(),
            won_spec(old(self).bricks@) ==> won_spec(final(self).bricks@),
            final(self).walls == old(self).walls,
            final(self).pit == old(self).pit,
            final(self).bonuses == old(self).bonuses,
            final(self).active_bonuses == old(self).active_bonuses,
            final(self).player == old(self).player,
            final(self).lives == old(self).lives,
            final(self).balls == old(self).balls,
            final(self).serve == old(self).serve,
    {
        let ghost s0 = *self;
        let n: usize = self.bricks.len();
        let mut out: Vec<Brick> = Vec::new();
        let mut k: usize = 0;
        while k < n
            invariant
                k <= n,
                *self == s0,
                s0.wf(),
                n == s0.bricks@.len(),
                out@ == s0.bricks@.take(k as int).filter(brick_alive_pred()),
                bricks_wf(out@),
                out@.len() <= k,
                forall|m: int| 0 <= m < out@.len() ==> alive_spec(
                    (#[trigger] out@[m]).breakable,
                    out@[m].hitpoints as int,
                ),
                won_spec(s0.bricks@) ==> won_spec(out@),
            decreases n - k,
        {
            let b: Brick = self.bricks[k];
            proof {
                assert(s0.bricks@.take(k + 1) =~= s0.bricks@.take(k as int).push(
                    s0.bricks@[k as int],
                ));
                lemma_filter_push(s0.bricks@.take(k as int), s0.bricks@[k as int], brick_alive_pred());
            }
            if b.alive() {
                out.push(b);
            }
            k = k + 1;
        }
        proof {
            assert(s0.bricks@.take(n as int) =~= s0.bricks@);
        }
        self.bricks = out;
    }

    /// Step 5: bounce each ball off the paddle where they overlap.
    fn collide_paddle(&mut self)
        requires
            old(self).wf(),
        ensures
            final(self).wf(),
            final(self).balls@ == paddle_pass(old(self).balls@, old(self).player),
            final(self).balls@.len() == old(self).balls@.len(),
            forall|m: int| 0 <= m < final(self).balls@.len() ==> {
                &&& (#[trigger] final(self).balls@[m]).velocity.norm == old(self).balls@[m].velocity.norm
                &&& final(self).balls@[m].hold_timer == old(self).balls@[m].hold_timer
            },
            final(self).bricks == old(self).bricks,
            final(self).walls == old(self).walls,
            final(self).pit == old(self).pit,
            final(self).bonuses == old(self).bonuses,
            final(self).active_bonuses == old(self).active_bonuses,
            final(self).player == old(self).player,
            final(self).lives == old(self).lives,
            final(self).serve == old(self).serve,
    {
        let ghost s0 = *self;
        let n: usize = self.balls.len();
        let mut out: Vec<Ball> = Vec::new();
        let mut k: usize = 0;
        while k < n
            invariant
                k <= n,
                *self == s0,
                s0.wf(),
                n == s0.balls@.len(),
                out@.len() == k,
                balls_wf(out@),
                forall|m: int| 0 <= m < k ==> #[trigger] out@[m] == paddle_pass(
                    s0.balls@,
                    s0.player,
                )[m],
                forall|m: int| 0 <= m < k ==> {
                    &&& (#[trigger] out@[m]).velocity.norm == s0.balls@[m].velocity.norm
                    &&& out@[m].hold_timer == s0.balls@[m].hold_timer
                },
            decreases n - k,
        {
            let mut ball: Ball = self.balls[k];
            if let Some(col) = self.player.shape().collide(&ball.shape()) {
                ball.bounce(col);
            }
            proof {
                assert(ball == paddle_pass(s0.balls@, s0.player)[k as int]);
            }
            out.push(ball);
            k = k + 1;
        }
        self.balls = out;
        proof {
            assert(self.balls@ =~= paddle_pass(s0.balls@, s0.player));
        }
    }

    /// Step 6a: let every falling bonus drop.
    fn move_bonuses(&mut self, dt: Millis)
        requires
            old(self).wf(),
            0 <= dt <= DT_MAX,
        ensures
            final(self).wf(),
            final(self).bonuses@.len() == old(self).bonuses@.len(),
            forall|m: int| 0 <= m < final(self).bonuses@.len() ==> {
                &&& (#[trigger] final(self).bonuses@[m]).bonus_type == old(self).bonuses@[m].bonus_type
                &&& final(self).bonuses@[m].position.x == old(self).bonuses@[m].position.x
                &&& final(self).bonuses@[m].position.y as int == clamp_i(
                    old(self).bonuses@[m].position.y + tdiv(200000 * dt, 1000),
                    -POS_BOUND as int,
                    POS_BOUND as int,
                )
            },
            final(self).bricks == old(self).bricks,
            final(self).walls == old(self).walls,
            final(self).pit == old(self).pit,
            final(self).active_bonuses == old(self).active_bonuses,
            final(self).player == old(self).player,
            final(self).lives == old(self).lives,
            final(self).balls == old(self).balls,
            final(self).serve == old(self).serve,
    {
        let ghost s0 = *self;
        let n: usize = self.bonuses.len();
        let mut out: Vec<FallingBonus> = Vec::new();
        let mut k: usize = 0;
        while k < n
            invariant
                k <= n,
                *self == s0,
                s0.wf(),
                0 <= dt <= DT_MAX,
                n == s0.bonuses@.len(),
                out@.len() == k,
                bonuses_wf(out@),
                forall|m: int| 0 <= m < k ==> #[trigger] out@[m] == bonus_stepped(
                    s0.bonuses@[m],
                    dt as int,
                ),
            decreases n - k,
        {
            let mut b: FallingBonus = self.bonuses[k];
            b.update(dt);
            proof {
                assert(b == bonus_stepped(s0.bonuses@[k as int], dt as int));
            }
            out.push(b);
            k = k + 1;
        }
        self.bonuses = out;
        proof {
            assert(self.bonuses@ =~= bonuses_fall_seq(s0.bonuses@, dt as int));
        }
    }

    /// Step 6b: discard bonuses that reach the pit, collect the kinds of
    /// those the paddle catches.  The pit check runs first.
    fn resolve_bonuses(&mut self) -> (picked: Vec<BonusType>)
        requires
            old(self).wf(),
        ensures
            final(self).wf(),
            final(self).bonuses@ == old(self).bonuses@.filter(
                bonus_kept_pred(old(self).pit.shape, old(self).player),
            ),
            picked@ == old(self).bonuses@.filter(
                bonus_picked_pred(old(self).pit.shape, old(self).player),
            ).map_values(|b: FallingBonus| b.bonus_type),
            final(self).bricks == old(self).bricks,
            final(self).walls == old(self).walls,
            final(self).pit == old(self).pit,
            final(self).active_bonuses == old(self).active_bonuses,
            final(self).player == old(self).player,
            final(self).lives == old(self).lives,
            final(self).balls == old(self).balls,
            final(self).serve == old(self).serve,
    {
        let ghost s0 = *self;
        let n: usize = self.bonuses.len();
        let mut kept: Vec<FallingBonus> = Vec::new();
        let mut picked: Vec<BonusType> = Vec::new();
        let mut k: usize = 0;
        while k < n
            invariant
                k <= n,
                *self == s0,
                s0.wf(),
                n == s0.bonuses@.len(),
                kept@ == s0.bonuses@.take(k as int).filter(
                    bonus_kept_pred(s0.pit.shape, s0.player),
                ),
                picked@ == s0.bonuses@.take(k as int).filter(
                    bonus_picked_pred(s0.pit.shape, s0.player),
                ).map_values(|b: FallingBonus| b.bonus_type),
                bonuses_wf(kept@),
            decreases n - k,
        {
            let b: FallingBonus = self.bonuses[k];
            proof {
                assert(s0.bonuses@.take(k + 1) =~= s0.bonuses@.take(k as int).push(
                    s0.bonuses@[k as int],
                ));
                lemma_filter_push(
                    s0.bonuses@.take(k as int),
                    s0.bonuses@[k as int],
                    bonus_kept_pred(s0.pit.shape, s0.player),
                );
                lemma_filter_push(
                    s0.bonuses@.take(k as int),
                    s0.bonuses@[k as int],
                    bonus_picked_pred(s0.pit.shape, s0.player),
                );
            }
            let pit_hit: bool = self.pit.shape.collide(&b.shape()).is_some();
            if pit_hit {
            } else if self.player.shape().collide(&b.shape()).is_some() {
                picked.push(b.bonus_type);
                proof {
                    let base = s0.bonuses@.take(k as int).filter(
                        bonus_picked_pred(s0.pit.shape, s0.player),
                    );
                    assert(base.push(s0.bonuses@[k as int]).map_values(
                        |bb: FallingBonus| bb.bonus_type,
                    ) =~= base.map_values(|bb: FallingBonus| bb.bonus_type).push(b.bonus_type));
                }
            } else {
                kept.push(b);
            }
            k = k + 1;
        }
        proof {
            assert(s0.bonuses@.take(n as int) =~= s0.bonuses@);
        }
        self.bonuses = kept;
        picked
    }

    /// Step 7a: run every effect timer down.
    fn tick_actives(&mut self, dt: Millis)
        requires
            old(self).wf(),
            0 <= dt <= DT_MAX,
        ensures
            final(self).wf(),
            final(self).active_bonuses@.len() == old(self).active_bonuses@.len(),
            forall|m: int| 0 <= m < final(self).active_bonuses@.len() ==> {
                &&& (#[trigger] final(self).active_bonuses@[m]).bonus_type == old(self).active_bonuses@[m].bonus_type
                &&& final(self).active_bonuses@[m].timer as int == if old(self).active_bonuses@[m].timer - dt >= -DT_MAX {
                    old(self).active_bonuses@[m].timer - dt
                } else {
                    -DT_MAX as int
                }
            },
            final(self).bricks == old(self).bricks,
            final(self).walls == old(self).walls,
            final(self).pit == old(self).pit,
            final(self).bonuses == old(self).bonuses,
            final(self).player == old(self).player,
            final(self).lives == old(self).lives,
            final(self).balls == old(self).balls,
            final(self).serve == old(self).serve,
    {
        let ghost s0 = *self;
        let n: usize = self.active_bonuses.len();
        let mut out: Vec<ActiveBonus> = Vec::new();
        let mut k: usize = 0;
        while k < n
            invariant
                k <= n,
                *self == s0,
                s0.wf(),
                0 <= dt <= DT_MAX,
                n == s0.active_bonuses@.len(),
                out@.len() == k,
                actives_wf(out@),
                forall|m: int| 0 <= m < k ==> #[trigger] out@[m] == ticked(
                    s0.active_bonuses@[m],
                    dt as int,
                ),
            decreases n - k,
        {
            let mut b: ActiveBonus = self.active_bonuses[k];
            b.update(dt);
            proof {
                assert(b == ticked(s0.active_bonuses@[k as int], dt as int));
            }
            out.push(b);
            k = k + 1;
        }
        self.active_bonuses = out;
        proof {
            assert(self.active_bonuses@ =~= tick_seq(s0.active_bonuses@, dt as int));
        }
    }

    /// The number of in-force effects of one kind.
    fn count_actives(&self, t: BonusType) -> (c: usize)
        ensures
            c as int == active_count(self.active_bonuses@, t),
    {
        let n: usize = self.active_bonuses.len();
        let mut c: usize = 0;
        let mut k: usize = 0;
        while k < n
            invariant
                k <= n,
                n == self.active_bonuses@.len(),
                c <= k,
                c as int == active_count(self.active_bonuses@.take(k as int), t),
            decreases n - k,
        {
            let b: ActiveBonus = self.active_bonuses[k];
            proof {
                assert(self.active_bonuses@.take(k + 1) =~= self.active_bonuses@.take(
                    k as int,
                ).push(self.active_bonuses@[k as int]));
                lemma_active_count_push(
                    self.active_bonuses@.take(k as int),
                    self.active_bonuses@[k as int],
                    t,
                );
            }
            if b.bonus_type == t && b.active() {
                c = c + 1;
            }
            k = k + 1;
        }
        proof {
            assert(self.active_bonuses@.take(n as int) =~= self.active_bonuses@);
        }
        c
    }

    /// Whether any effect of kind `t` is on the books.
    fn contains_type(&self, t: BonusType) -> (r: bool)
        ensures
            r == has_type(self.active_bonuses@, t),
    {
        let n: usize = self.active_bonuses.len();
        let mut k: usize = 0;
        while k < n
            invariant
                k <= n,
                n == self.active_bonuses@.len(),
                forall|m: int| 0 <= m < k ==> (#[trigger] self.active_bonuses@[m]).bonus_type != t,
            decreases n - k,
        {
            if self.active_bonuses[k].bonus_type == t {
                return true;
            }
            k = k + 1;
        }
        false
    }

    /// Step 7b, for one kind: where any effect of the kind is on the
    /// books, recompute its stacking from the in-force count.
    fn stack_one(&mut self, t: BonusType)
        requires
            old(self).wf(),
        ensures
            final(self).wf(),
            final(self).balls@.len() == old(self).balls@.len(),
            has_type(old(self).active_bonuses@, t) && t == BonusType::Slow ==> final(self).balls@
                == slow_all(
                old(self).balls@,
                active_count(old(self).active_bonuses@, BonusType::Slow),
            ),
            has_type(old(self).active_bonuses@, t) && t == BonusType::Slow ==> forall|m: int|
                0 <= m < final(self).balls@.len() ==> {
                    &&& (#[trigger] final(self).balls@[m]).velocity.norm as int == BALL_SPEED as int
                        / (active_count(old(self).active_bonuses@, BonusType::Slow) + 1)
                    &&& final(self).balls@[m].hold_timer == old(self).balls@[m].hold_timer
                },
            !(has_type(old(self).active_bonuses@, t) && t == BonusType::Slow) ==> final(self).balls
                == old(self).balls,
            final(self).bricks == old(self).bricks,
            final(self).walls == old(self).walls,
            final(self).pit == old(self).pit,
            final(self).bonuses == old(self).bonuses,
            final(self).active_bonuses == old(self).active_bonuses,
            final(self).player == old(self).player,
            final(self).lives == old(self).lives,
            final(self).serve == old(self).serve,
    {
        if self.contains_type(t) {
            let c: usize = self.count_actives(t);
            self.bonus_stack(t, c);
        }
    }

    /// Step 7c: purge effects whose timers have run out.
    fn purge_actives(&mut self)
        requires
            old(self).wf(),
        ensures
            final(self).wf(),
            final(self).active_bonuses@ == old(self).active_bonuses@.filter(active_pred()),
            forall|m: int| 0 <= m < final(self).active_bonuses@.len() ==> (#[trigger] final(self).active_bonuses@[m]).timer > 0,
            active_count(final(self).active_bonuses@, BonusType::Slow) == active_count(
                old(self).active_bonuses@,
                BonusType::Slow,
            ),
            final(self).bricks == old(self).bricks,
            final(self).walls == old(self).walls,
            final(self).pit == old(self).pit,
            final(self).bonuses == old(self).bonuses,
            final(self).player == old(self).player,
            final(self).lives == old(self).lives,
            final(self).balls == old(self).balls,
            final(self).serve == old(self).serve,
    {
        let ghost s0 = *self;
        let n: usize = self.active_bonuses.len();
        let mut out: Vec<ActiveBonus> = Vec::new();
        let mut k: usize = 0;
        while k < n
            invariant
                k <= n,
                *self == s0,
                s0.wf(),
                n == s0.active_bonuses@.len(),
                out@ == s0.active_bonuses@.take(k as int).filter(active_pred()),
                actives_wf(out@),
                forall|m: int| 0 <= m < out@.len() ==> (#[trigger] out@[m]).timer > 0,
                active_count(out@, BonusType::Slow) == active_count(
                    s0.active_bonuses@.take(k as int),
                    BonusType::Slow,
                ),
            decreases n - k,
        {
            let b: ActiveBonus = self.active_bonuses[k];
            proof {
                assert(s0.active_bonuses@.take(k + 1) =~= s0.active_bonuses@.take(k as int).push(
                    s0.active_bonuses@[k as int],
                ));
                lemma_filter_push(
                    s0.active_bonuses@.take(k as int),
                    s0.active_bonuses@[k as int],
                    active_pred(),
                );
                lemma_active_count_push(
                    s0.active_bonuses@.take(k as int),
                    s0.active_bonuses@[k as int],
                    BonusType::Slow,
                );
                if s0.active_bonuses@[k as int].timer > 0 {
                    lemma_active_count_push(
                        s0.active_bonuses@.take(k as int).filter(active_pred()),
                        s0.active_bonuses@[k as int],
                        BonusType::Slow,
                    );
                }
            }
            if b.active() {
                out.push(b);
            }
            k = k + 1;
        }
        proof {
            assert(s0.active_bonuses@.take(n as int) =~= s0.active_bonuses@);
        }
        self.active_bonuses = out;
    }

    /// Step 8: drop balls that fell into the pit; if none is left, lose a
    /// life and serve a fresh held ball.
    fn settle_pit(&mut self)
        requires
            old(self).wf(),
        ensures
            final(self).wf(),
            final(self).balls@.len() >= 1,
            final(self).lives as int >= old(self).lives as int - 1,
            (final(self).balls@, final(self).lives) == settled(
                old(self).balls@,
                old(self).pit.shape,
                old(self).lives,
                old(self).serve,
            ),
            ({
                let kept = old(self).balls@.filter(ball_kept_pred(old(self).pit.shape));
                &&& (kept.len() > 0 ==> final(self).balls@ == kept && final(self).lives == old(self).lives)
                &&& (kept.len() == 0 ==> {
                    &&& final(self).lives as int == if old(self).lives > 0 {
                        old(self).lives - 1
                    } else {
                        0int
                    }
                    &&& final(self).balls@.len() == 1
                    &&& final(self).balls@[0].position == old(self).serve
                    &&& final(self).balls@[0].velocity.angle == SERVE_ANGLE
                    &&& final(self).balls@[0].velocity.norm == BALL_SPEED
                    &&& final(self).balls@[0].hold_timer == BALL_HOLD
                })
            }),
            forall|m: int| 0 <= m < final(self).balls@.len() ==> ball_from(
                old(self).balls@,
                #[trigger] final(self).balls@[m],
            ),
            final(self).bricks == old(self).bricks,
            final(self).walls == old(self).walls,
            final(self).pit == old(self).pit,
            final(self).bonuses == old(self).bonuses,
            final(self).active_bonuses == old(self).active_bonuses,
            final(self).player == old(self).player,
            final(self).serve == old(self).serve,
    {
        let ghost s0 = *self;
        let n: usize = self.balls.len();
        let mut out: Vec<Ball> = Vec::new();
        let mut k: usize = 0;
        while k < n
            invariant
                k <= n,
                *self == s0,
                s0.wf(),
                n == s0.balls@.len(),
                out@ == s0.balls@.take(k as int).filter(ball_kept_pred(s0.pit.shape)),
                balls_wf(out@),
                forall|m: int| 0 <= m < out@.len() ==> ball_from(s0.balls@, #[trigger] out@[m]),
            decreases n - k,
        {
            let b: Ball = self.balls[k];
            proof {
                assert(s0.balls@.take(k + 1) =~= s0.balls@.take(k as int).push(
                    s0.balls@[k as int],
                ));
                lemma_filter_push(
                    s0.balls@.take(k as int),
                    s0.balls@[k as int],
                    ball_kept_pred(s0.pit.shape),
                );
            }
            if self.pit.shape.collide(&b.shape()).is_none() {
                out.push(b);
                proof {
                    assert(out@[out@.len() - 1] == s0.balls@[k as int]);
                }
            }
            k = k + 1;
        }
        proof {
            assert(s0.balls@.take(n as int) =~= s0.balls@);
        }
        self.balls = out;
        if self.balls.len() == 0 {
            if self.lives > 0 {
                self.lives = self.lives - 1;
            }
            let b: Ball = Ball::new(self.serve, SERVE_ANGLE);
            proof {
                assert(b == serve_ball_spec(self.serve));
            }
            self.balls.push(b);
            proof {
                assert(self.balls@ =~= Seq::empty().push(serve_ball_spec(self.serve)));
            }
        }
    }

    /// Step 9: bounce balls and the paddle off the reflective walls; the
    /// pit wall never reflects.
    fn collide_walls(&mut self)
        requires
            old(self).wf(),
        ensures
            final(self).wf(),
            (final(self).balls@, final(self).player) == walls_fold(
                old(self).walls@,
                old(self).balls@,
                old(self).player,
                old(self).walls@.len() as int,
            ),
            final(self).balls@.len() == old(self).balls@.len(),
            forall|m: int| 0 <= m < final(self).balls@.len() ==> {
                &&& (#[trigger] final(self).balls@[m]).velocity.norm == old(self).balls@[m].velocity.norm
                &&& final(self).balls@[m].hold_timer == old(self).balls@[m].hold_timer
            },
            final(self).bricks == old(self).bricks,
            final(self).walls == old(self).walls,
            final(self).pit == old(self).pit,
            final(self).bonuses == old(self).bonuses,
            final(self).active_bonuses == old(self).active_bonuses,
            final(self).lives == old(self).lives,
            final(self).serve == old(self).serve,
    {
        let ghost s0 = *self;
        let nw: usize = self.walls.len();
        let mut wi: usize = 0;
        while wi < nw
            invariant
                wi <= nw,
                s0.wf(),
                nw == s0.walls@.len(),
                self.walls == s0.walls,
                self.bricks == s0.bricks,
                self.pit == s0.pit,
                self.bonuses == s0.bonuses,
                self.active_bonuses == s0.active_bonuses,
                self.lives == s0.lives,
                self.serve == s0.serve,
                self.player.wf(),
                (self.balls@, self.player) == walls_fold(
                    s0.walls@,
                    s0.balls@,
                    s0.player,
                    wi as int,
                ),
                self.balls@.len() == s0.balls@.len(),
                balls_wf(self.balls@),
                forall|m: int| 0 <= m < self.balls@.len() ==> {
                    &&& (#[trigger] self.balls@[m]).velocity.norm == s0.balls@[m].velocity.norm
                    &&& self.balls@[m].hold_timer == s0.balls@[m].hold_timer
                },
            decreases nw - wi,
        {
            let wall: Wall = self.walls[wi];
            let reflective: bool = !matches!(wall.shape.orientation, WallOrientation::Bottom);
            let ghost balls1 = self.balls@;
            let n: usize = self.balls.len();
            let mut out: Vec<Ball> = Vec::new();
            let mut k: usize = 0;
            while k < n
                invariant
                    k <= n,
                    s0.wf(),
                    wi < nw,
                    nw == s0.walls@.len(),
                    wall == s0.walls@[wi as int],
                    n == self.balls@.len(),
                    self.balls@ == balls1,
                    balls_wf(balls1),
                    forall|m: int| 0 <= m < balls1.len() ==> {
                        &&& (#[trigger] balls1[m]).velocity.norm == s0.balls@[m].velocity.norm
                        &&& balls1[m].hold_timer == s0.balls@[m].hold_timer
                    },
                    self.balls@.len() == s0.balls@.len(),
                    out@.len() == k,
                    balls_wf(out@),
                    reflective == !(wall.shape.orientation is Bottom),
                    forall|m: int| 0 <= m < k ==> #[trigger] out@[m] == (if reflective {
                        wall_balls_pass(wall.shape, balls1)[m]
                    } else {
                        balls1[m]
                    }),
                    forall|m: int| 0 <= m < k ==> {
                        &&& (#[trigger] out@[m]).velocity.norm == s0.balls@[m].velocity.norm
                        &&& out@[m].hold_timer == s0.balls@[m].hold_timer
                    },
                decreases n - k,
            {
                let mut ball: Ball = self.balls[k];
                if let Some(col) = wall.shape.collide(&ball.shape()) {
                    if reflective {
                        ball.bounce(col);
                    }
                }
                proof {
                    if reflective {
                        assert(ball == wall_balls_pass(wall.shape, balls1)[k as int]);
                    } else {
                        assert(ball == balls1[k as int]);
                    }
                }
                out.push(ball);
                k = k + 1;
            }
            let ghost player1 = self.player;
            self.balls = out;
            if let Some(col) = wall.shape.collide(&self.player.shape()) {
                if reflective {
                    let mut p: Player = self.player;
                    p.bounce(col);
                    self.player = p;
                }
            }
            proof {
                if reflective {
                    assert(self.balls@ =~= wall_balls_pass(wall.shape, balls1));
                } else {
                    assert(self.balls@ =~= balls1);
                }
                assert((self.balls@, self.player) == wall_pass(wall, balls1, player1));
            }
            wi = wi + 1;
        }
    }

    /// One frame of the simulation, in the fixed order: integrate balls
    /// and paddle, resolve brick hits and brick removal, paddle hits,
    /// bonus motion and pickup, effect timers, stacking and expiry, pit
    /// losses with the serve of a fresh ball, and wall bounces.
    #[verifier::rlimit(60)]
    pub fn update<R: RandomSource>(&mut self, dt: Millis, rng: &mut R)
        requires
            old(self).wf(),
            0 <= dt <= DT_MAX,
        ensures
            final(self).wf(),
            final(self).balls@.len() >= 1,
            final(self).lives as int >= old(self).lives as int - 1,
            won_spec(old(self).bricks@) ==> won_spec(final(self).bricks@),
            final(self).bricks@.len() <= old(self).bricks@.len(),
            forall|m: int| 0 <= m < final(self).bricks@.len() ==> alive_spec(
                (#[trigger] final(self).bricks@[m]).breakable,
                final(self).bricks@[m].hitpoints as int,
            ),
            final(self).walls == old(self).walls,
            final(self).pit == old(self).pit,
            final(self).serve == old(self).serve,
            old(self).balls@.len() <= MAX_BALLS ==> final(self).balls@.len() <= MAX_BALLS,
            forall|m: int| 0 <= m < final(self).active_bonuses@.len() ==> (#[trigger] final(self).active_bonuses@[m]).timer > 0,
            exists|spawned: Seq<FallingBonus>| #[trigger] frame_ok(
                *old(self),
                *final(self),
                dt as int,
                spawned,
            ),
            has_slow(old(self).active_bonuses@) ==> forall|m: int|
                0 <= m < final(self).balls@.len() ==> ((#[trigger] final(self).balls@[m]).velocity.norm as int == BALL_SPEED as int / (active_count(
                    final(self).active_bonuses@,
                    BonusType::Slow,
                ) + 1)) || (final(self).balls@[m].velocity.norm == BALL_SPEED && final(self).balls@[m].hold_timer == BALL_HOLD),
    {
        let ghost s0 = *self;
        self.move_balls(dt);
        let ghost balls1 = self.balls@;
        self.player.update(dt);
        proof {
            assert(self.player == crate::player::player_stepped(s0.player, dt as int));
            assert(self.wf());
        }
        let ghost player2 = self.player;
        let spawned: Ghost<Seq<FallingBonus>> = self.collide_bricks(rng);
        let ghost hits = bricks_pass(s0.bricks@, balls1, s0.bricks@.len() as int);
        let ghost balls3 = self.balls@;
        let ghost bonuses3 = self.bonuses@;
        proof {
            assert(balls3 == hits.1);
            assert(bonuses3 == s0.bonuses@ + spawned@);
        }
        self.purge_bricks();
        self.collide_paddle();
        proof {
            assert(self.balls@ == paddle_pass(balls3, player2));
        }
        let ghost balls5 = self.balls@;
        self.move_bonuses(dt);
        proof {
            assert(self.bonuses@ == bonuses_fall_seq(bonuses3, dt as int));
        }
        let picked: Vec<BonusType> = self.resolve_bonuses();
        let ghost lives1 = self.lives;
        let ghost actives1 = self.active_bonuses@;
        let ghost bricks1 = self.bricks@;
        let ghost bonuses7 = self.bonuses@;
        let np: usize = picked.len();
        let mut pi: usize = 0;
        while pi < np
            invariant
                pi <= np,
                self.wf(),
                np == picked@.len(),
                self.lives as int >= lives1 as int,
                self.bricks@ == bricks1,
                self.walls == s0.walls,
                self.pit == s0.pit,
                self.serve == s0.serve,
                self.bonuses@ == bonuses7,
                (self.player, self.lives, self.balls@, self.active_bonuses@) == activate_fold(
                    player2,
                    lives1,
                    balls5,
                    actives1,
                    picked@,
                    pi as int,
                ),
                balls5.len() <= MAX_BALLS ==> self.balls@.len() <= MAX_BALLS,
                self.active_bonuses@.len() >= actives1.len(),
                forall|m: int| 0 <= m < actives1.len() ==> #[trigger] self.active_bonuses@[m]
                    == actives1[m],
            decreases np - pi,
        {
            self.activate_bonus(picked[pi]);
            pi = pi + 1;
        }
        let ghost act = activate_fold(player2, lives1, balls5, actives1, picked@, picked@.len() as int);
        proof {
            if has_slow(s0.active_bonuses@) {
                let k = choose|k: int|
                    0 <= k < actives1.len() && actives1[k].bonus_type == BonusType::Slow;
                assert(self.active_bonuses@[k].bonus_type == BonusType::Slow);
                assert(has_slow(self.active_bonuses@));
            }
        }
        let ghost actives2 = self.active_bonuses@;
        self.tick_actives(dt);
        proof {
            if has_slow(actives2) {
                let k = choose|k: int|
                    0 <= k < actives2.len() && actives2[k].bonus_type == BonusType::Slow;
                assert(self.active_bonuses@[k].bonus_type == BonusType::Slow);
                assert(has_slow(self.active_bonuses@));
            }
        }
        let ghost actives3 = self.active_bonuses@;
        let ghost balls8 = self.balls@;
        self.stack_one(BonusType::Slow);
        self.stack_one(BonusType::Expand);
        self.stack_one(BonusType::Divide);
        self.stack_one(BonusType::Life);
        proof {
            assert(self.balls@ == stacked_balls(balls8, actives3));
        }
        let ghost balls10 = self.balls@;
        self.purge_actives();
        self.settle_pit();
        let ghost balls12 = self.balls@;
        self.collide_walls();
        proof {
            let balls1g = step_balls_seq(s0.balls@, s0.player, dt as int);
            assert(balls1 == balls1g);
            let player2g = crate::player::player_stepped(s0.player, dt as int);
            assert(player2 == player2g);
            let hitsg = bricks_pass(s0.bricks@, balls1g, s0.bricks@.len() as int);
            assert(hits == hitsg);
            assert(spawned_ok(spawned@, s0.bricks@, hitsg.0));
            let bonuses3g = s0.bonuses@ + spawned@;
            let bricks4g = hitsg.0.filter(brick_alive_pred());
            assert(self.bricks@ == bricks4g);
            let balls5g = paddle_pass(hitsg.1, player2g);
            assert(balls5 == balls5g);
            let bonuses6g = bonuses_fall_seq(bonuses3g, dt as int);
            let kept7g = bonuses6g.filter(bonus_kept_pred(s0.pit.shape, player2g));
            let picked7g = bonuses6g.filter(bonus_picked_pred(s0.pit.shape, player2g)).map_values(
                |b: FallingBonus| b.bonus_type,
            );
            assert(self.bonuses@ == kept7g);
            assert(picked@ == picked7g);
            let actg = activate_fold(
                player2g,
                s0.lives,
                balls5g,
                s0.active_bonuses@,
                picked7g,
                picked7g.len() as int,
            );
            assert(act == actg);
            let actives9g = tick_seq(actg.3, dt as int);
            assert(actives3 == actives9g);
            let balls10g = stacked_balls(actg.2, actives9g);
            assert(balls10 == balls10g);
            let actives11g = actives9g.filter(active_pred());
            assert(self.active_bonuses@ == actives11g);
            let setg = settled(balls10g, s0.pit.shape, actg.1, s0.serve);
            assert((balls12, setg.1) == setg);
            assert(self.lives == setg.1);
            let wpg = walls_fold(s0.walls@, setg.0, actg.0, s0.walls@.len() as int);
            assert((self.balls@, self.player) == wpg);
            assert(frame_ok(s0, *self, dt as int, spawned@));
            if s0.balls@.len() <= MAX_BALLS {
                balls10.lemma_filter_len(ball_kept_pred(s0.pit.shape));
                assert(balls12.len() <= MAX_BALLS);
            }
        }
        proof {
            if has_slow(s0.active_bonuses@) {
                let target = BALL_SPEED as int / (active_count(
                    self.active_bonuses@,
                    BonusType::Slow,
                ) + 1);
                assert(active_count(self.active_bonuses@, BonusType::Slow) == active_count(
                    actives3,
                    BonusType::Slow,
                ));
                assert forall|m: int| 0 <= m < self.balls@.len() implies ((#[trigger] self.balls@[
                    m
                ]).velocity.norm as int == target) || (self.balls@[m].velocity.norm == BALL_SPEED
                    && self.balls@[m].hold_timer == BALL_HOLD) by {
                    assert(self.balls@[m].velocity.norm == balls12[m].velocity.norm);
                    assert(self.balls@[m].hold_timer == balls12[m].hold_timer);
                    assert(ball_from(balls10, balls12[m]));
                    if exists|j: int| 0 <= j < balls10.len() && balls12[m] == balls10[j] {
                        let j = choose|j: int| 0 <= j < balls10.len() && balls12[m] == balls10[j];
                        assert(balls10[j].velocity.norm as int == target);
                    }
                }
            }
        }
    }
}

impl Default for State {
    /// A fresh game on the built-in level.
    fn default() -> (r: State)
        ensures
            r.wf(),
            r.lives == 3,
            r.balls@.len() == 1,
            r.bricks@.len() == 325,
            !won_spec(r.bricks@),
    {
        let level: Level = Level::default();
        let st: State = State::new(level);
        proof {
            assert(st.bricks@[0].breakable);
        }
        st
    }
}

} // verus!
