use arkanoid::ball::{Ball, Color, BALL_HOLD, BALL_RADIUS, BALL_SPEED};
use arkanoid::bonus::{ActiveBonus, BonusType, FallingBonus, BONUS_RADIUS};
use arkanoid::brick::{Brick, BrickType};
use arkanoid::level::Level;
use arkanoid::player::{Player, PLAYER_INITIAL_WIDTH, PLAYER_MAX_WIDTH, PLAYER_THICKNESS};
use arkanoid::random::{RandomSource, SeededRandom, ThreadRandom};
use arkanoid::resize::Size;
use arkanoid::store::Store;
use arkanoid::textures::BrickSprite;
use arkanoid::traits::Updatable;
use arkanoid::utils::{Point, Vector};
use arkanoid::wall::{Wall, WALL_THICKNESS};
use arkanoid::shape::WallOrientation;

fn test_ball(x: i64, y: i64, angle: i64, norm: i64, hold: i64) -> Ball {
    Ball {
        position: Point { x, y },
        velocity: Vector { angle, norm },
        color: Color { r: 120, g: 120, b: 200, a: 230 },
        hold_timer: hold,
    }
}

#[test]
fn ball_new_is_held_at_full_speed() {
    let b = Ball::new(Point { x: 1000, y: 2000 }, 315000);
    assert_eq!(b.position, Point { x: 1000, y: 2000 });
    assert_eq!(b.velocity.norm, BALL_SPEED);
    assert_eq!(b.velocity.angle, 315000);
    assert_eq!(b.hold_timer, BALL_HOLD);
    assert!(b.on_hold());
    assert_eq!(b.shape().radius, BALL_RADIUS);
}

#[test]
fn held_ball_only_runs_its_timer_down() {
    let mut b = Ball::new(Point { x: 1000, y: 2000 }, 315000);
    b.update(10);
    assert_eq!(b.hold_timer, BALL_HOLD - 10);
    assert_eq!(b.position, Point { x: 1000, y: 2000 });
}

#[test]
fn free_ball_integrates_velocity() {
    let mut b = test_ball(100000, 350000, 0, 400000, 0);
    b.update(10);
    assert_eq!(b.position, Point { x: 104000, y: 350000 });
}

#[test]
fn ball_bounce_reflects_and_pushes_out() {
    let mut b = test_ball(50000, 50000, 45000, 400000, 0);
    b.bounce((270000, 1000));
    assert_eq!(b.velocity.angle, 315000);
    assert_eq!(b.velocity.norm, 400000);
    assert_eq!(b.position, Point { x: 50000, y: 49000 });
}

#[test]
fn ball_speed_follows_stacking_rule() {
    let mut b = test_ball(0, 0, 0, 400000, 0);
    b.speed(0);
    assert_eq!(b.velocity.norm, BALL_SPEED);
    b.speed(1);
    assert_eq!(b.velocity.norm, BALL_SPEED / 2);
    b.speed(3);
    assert_eq!(b.velocity.norm, BALL_SPEED / 4);
}

#[test]
fn ball_rotate_wraps() {
    let mut b = test_ball(0, 0, 350000, 400000, 0);
    b.rotate(30000);
    assert_eq!(b.velocity.angle, 20000);
    b.rotate(-30000);
    assert_eq!(b.velocity.angle, 350000);
}

#[test]
fn player_accelerates_and_coasts() {
    let mut p = Player::new(Point { x: 430000, y: 692000 });
    assert_eq!(p.width, PLAYER_INITIAL_WIDTH);
    p.input(1000);
    p.update(100);
    assert_eq!(p.velocity, 500000);
    assert_eq!(p.position.x, 480000);
    p.input(0);
    p.update(100);
    // Friction alone: dv = -500000 * 10 * 100 / 1000 = -500000.
    assert_eq!(p.velocity, 0);
}

#[test]
fn player_grow_caps_at_max_width() {
    let mut p = Player::new(Point { x: 0, y: 0 });
    p.grow();
    assert_eq!(p.width, 100000);
    for _ in 0..10 {
        p.grow();
    }
    assert_eq!(p.width, PLAYER_MAX_WIDTH);
}

#[test]
fn player_bounce_inverts_velocity() {
    let mut p = Player::new(Point { x: 10000, y: 692000 });
    p.input(1000);
    p.update(100);
    let v = p.velocity;
    p.bounce((0, 2000));
    assert_eq!(p.velocity, -v);
    assert_eq!(p.shape().height, PLAYER_THICKNESS);
}

#[test]
fn brick_kinds() {
    let c = Point { x: 0, y: 0 };
    let simple = Brick::new(BrickType::Simple, c, 32000, 16000);
    assert!(simple.breakable && simple.hitpoints == 1);
    let hard = Brick::new(BrickType::Hard, c, 32000, 16000);
    assert!(hard.breakable && hard.hitpoints == 2);
    let sup = Brick::new(BrickType::Super, c, 32000, 16000);
    assert!(!sup.breakable && sup.hitpoints == 0);
    assert!(sup.alive());
}

#[test]
fn brick_damage_is_monotone_and_kills() {
    let mut b = Brick::new(BrickType::Hard, Point { x: 0, y: 0 }, 32000, 16000);
    assert!(b.alive());
    b.damage();
    assert_eq!(b.hitpoints, 1);
    assert!(b.alive());
    b.damage();
    assert_eq!(b.hitpoints, 0);
    assert!(!b.alive());
    b.damage();
    assert_eq!(b.hitpoints, 0);

    let mut s = Brick::new(BrickType::Super, Point { x: 0, y: 0 }, 32000, 16000);
    s.damage();
    assert_eq!(s.hitpoints, 0);
    assert!(s.alive());
}

#[test]
fn brick_sprites_follow_hitpoints() {
    let mut b = Brick::new(BrickType::Hard, Point { x: 0, y: 0 }, 32000, 16000);
    assert!(matches!(b.sprite(), BrickSprite::Orange));
    b.damage();
    assert!(matches!(b.sprite(), BrickSprite::LightRed));
    b.damage();
    assert!(matches!(b.sprite(), BrickSprite::White));
}

#[test]
fn falling_bonus_falls_at_constant_speed() {
    let mut f = FallingBonus { bonus_type: BonusType::Life, position: Point { x: 1000, y: 2000 } };
    f.update(10);
    assert_eq!(f.position, Point { x: 1000, y: 4000 });
    assert_eq!(f.shape().radius, BONUS_RADIUS);
}

#[test]
fn active_bonus_expires() {
    let mut a = ActiveBonus::from(BonusType::Slow);
    assert!(a.active());
    a.update(9999);
    assert!(a.active());
    a.update(1);
    assert!(!a.active());
}

#[test]
fn bonus_colors_differ() {
    let kinds = [BonusType::Slow, BonusType::Expand, BonusType::Divide, BonusType::Life];
    for i in 0..kinds.len() {
        for j in 0..kinds.len() {
            if i != j {
                assert_ne!(kinds[i].color(), kinds[j].color());
            }
        }
    }
}

#[test]
fn random_bonus_takes_given_position() {
    let mut rng = ThreadRandom::new();
    let f = FallingBonus::random(&mut rng, Point { x: 7000, y: 8000 });
    assert_eq!(f.position, Point { x: 7000, y: 8000 });
}

#[test]
fn thread_random_draws_below_bound() {
    let mut rng = ThreadRandom::new();
    for _ in 0..200 {
        assert!(rng.below(4) < 4);
        assert!(rng.below(1) == 0);
    }
}

#[test]
fn seeded_random_is_reproducible() {
    let mut a = SeededRandom::new(42);
    let mut b = SeededRandom::new(42);
    for _ in 0..50 {
        assert_eq!(a.below(1000), b.below(1000));
        assert!(a.state == b.state);
    }
    let mut c = SeededRandom::new(43);
    let mut diff = false;
    for _ in 0..50 {
        if a.below(1000) != c.below(1000) {
            diff = true;
        }
    }
    assert!(diff);
}

#[test]
fn level_default_grid() {
    let level = Level::default();
    assert_eq!(level.bricks.len(), 325);
    assert_eq!(level.bricks[0].center, Point { x: 22000, y: 14000 });
    assert_eq!(level.bricks[1].center, Point { x: 22000, y: 32000 });
    assert_eq!(level.bricks[13].center, Point { x: 56000, y: 14000 });
    assert_eq!(level.bricks[0].hitpoints, 1);
    assert_eq!(level.bricks[13].hitpoints, 2);
    assert_eq!(level.width, 860000);
    assert_eq!(level.height, 714000);
    assert_eq!(level.width(), 860);
    assert_eq!(level.height(), 714);
}

#[test]
fn walls_cover_the_field() {
    let walls = Wall::make_walls(714000, 860000);
    assert_eq!(walls.len(), 4);
    assert!(matches!(walls[0].shape.orientation, WallOrientation::Top));
    assert!(matches!(walls[1].shape.orientation, WallOrientation::Left));
    assert!(matches!(walls[2].shape.orientation, WallOrientation::Right));
    assert!(matches!(walls[3].shape.orientation, WallOrientation::Bottom));
    assert_eq!(walls[0].shape.center, Point { x: 430000, y: WALL_THICKNESS / 2 });
    assert_eq!(walls[2].shape.center.x, 860000 - WALL_THICKNESS / 2);
    assert_eq!(walls[3].shape.center.y, 714000 - WALL_THICKNESS / 2);
}

#[test]
fn size_from_drawable() {
    let s = Size::new((800, 600));
    assert_eq!(s.width, 800);
    assert_eq!(s.height, 600);
}

enum CounterAction {
    Increment,
    Reset,
}

#[derive(Clone)]
struct Counter(u32);

fn counter_reduce(s: &Counter, a: CounterAction) -> Counter {
    match a {
        CounterAction::Increment => Counter(s.0 + 1),
        CounterAction::Reset => Counter(0),
    }
}

#[test]
fn simple_reducer() {
    let store = Store::new(counter_reduce, Counter(0));
    let mut store = store.start();
    assert!(store.get().0 == 0);

    store.send(CounterAction::Increment);
    assert!(store.get().0 == 1);

    store.send(CounterAction::Increment);
    store.send(CounterAction::Increment);
    store.send(CounterAction::Increment);
    assert!(store.get().0 == 4);

    store.send(CounterAction::Reset);
    assert!(store.get().0 == 0);
}

#[test]
fn active_bonus_timer_keeps_falling_after_expiry() {
    let mut a = ActiveBonus { bonus_type: BonusType::Slow, timer: 0 };
    a.update(10);
    assert_eq!(a.timer, -10);
    assert!(!a.active());
}
