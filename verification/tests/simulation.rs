use arkanoid::ball::{Ball, Color, BALL_SPEED};
use arkanoid::bonus::{ActiveBonus, BonusType, FallingBonus};
use arkanoid::brick::{Brick, BrickType};
use arkanoid::level::Level;
use arkanoid::random::SeededRandom;
use arkanoid::state::State;
use arkanoid::utils::{Point, Vector};

fn free_ball(x: i64, y: i64, angle: i64, norm: i64) -> Ball {
    Ball {
        position: Point { x, y },
        velocity: Vector { angle, norm },
        color: Color { r: 120, g: 120, b: 200, a: 230 },
        hold_timer: 0,
    }
}

#[test]
fn new_state_serves_one_held_ball() {
    let st = State::new(Level::default());
    assert_eq!(st.lives, 3);
    assert!(st.alive());
    assert!(!st.won());
    assert_eq!(st.balls.len(), 1);
    assert_eq!(st.balls[0].position, st.serve);
    assert_eq!(st.serve, Point { x: 430000, y: 676000 });
    assert_eq!(st.balls[0].velocity.angle, 315000);
    assert_eq!(st.walls.len(), 4);
    assert!(st.bonuses.is_empty());
    assert!(st.active_bonuses.is_empty());
}

#[test]
fn pure_integration_step() {
    let mut st = State::new(Level::default());
    st.balls = vec![free_ball(100000, 350000, 45000, 500000)];
    let mut rng = SeededRandom::new(1);
    st.update(10, &mut rng);
    let p = st.balls[0].position;
    assert!((p.x - 103540).abs() <= 60, "x was {}", p.x);
    assert!((p.y - 353540).abs() <= 60, "y was {}", p.y);
    assert_eq!(st.lives, 3);
    assert_eq!(st.bricks.len(), 325);
}

#[test]
fn ball_loss_costs_a_life_and_reserves() {
    let mut st = State::new(Level::default());
    st.balls = vec![free_ball(430000, 764000, 315000, 400000)];
    let mut rng = SeededRandom::new(1);
    st.update(10, &mut rng);
    assert_eq!(st.lives, 2);
    assert_eq!(st.balls.len(), 1);
    assert_eq!(st.balls[0].position, st.serve);
    assert_eq!(st.balls[0].velocity.angle, 315000);
    assert_eq!(st.balls[0].velocity.norm, BALL_SPEED);
    assert!(st.balls[0].on_hold());
}

#[test]
fn losing_the_last_life_ends_the_round() {
    let mut st = State::new(Level::default());
    st.lives = 1;
    st.balls = vec![free_ball(430000, 764000, 315000, 400000)];
    let mut rng = SeededRandom::new(1);
    st.update(10, &mut rng);
    assert_eq!(st.lives, 0);
    assert!(!st.alive());
}

#[test]
fn unbreakable_level_is_won_at_construction() {
    let bricks = vec![Brick::new(BrickType::Super, Point { x: 100000, y: 100000 }, 32000, 16000)];
    let level = Level::new(bricks, 860000, 714000);
    let st = State::new(level);
    assert!(st.won());
    assert!(st.alive());
}

#[test]
fn empty_level_is_won_at_construction() {
    let level = Level::new(Vec::new(), 860000, 714000);
    let st = State::new(level);
    assert!(st.won());
}

#[test]
fn slow_bonuses_stack_by_count() {
    let mut st = State::new(Level::default());
    st.balls = vec![free_ball(430000, 400000, 0, 400000)];
    st.active_bonuses = vec![
        ActiveBonus { bonus_type: BonusType::Slow, timer: 5000 },
        ActiveBonus { bonus_type: BonusType::Slow, timer: 5000 },
    ];
    let mut rng = SeededRandom::new(1);
    st.update(10, &mut rng);
    assert_eq!(st.balls[0].velocity.norm, BALL_SPEED / 3);
    assert_eq!(st.active_bonuses.len(), 2);

    // One of the two expires during the next frame: the very next update
    // recomputes the speed from the remaining count.
    st.active_bonuses = vec![
        ActiveBonus { bonus_type: BonusType::Slow, timer: 4980 },
        ActiveBonus { bonus_type: BonusType::Slow, timer: 5 },
    ];
    st.update(10, &mut rng);
    assert_eq!(st.balls[0].velocity.norm, BALL_SPEED / 2);
    assert_eq!(st.active_bonuses.len(), 1);
}

#[test]
fn last_slow_expiry_restores_full_speed() {
    let mut st = State::new(Level::default());
    st.balls = vec![free_ball(430000, 400000, 0, 200000)];
    st.active_bonuses = vec![ActiveBonus { bonus_type: BonusType::Slow, timer: 5 }];
    let mut rng = SeededRandom::new(1);
    st.update(10, &mut rng);
    assert_eq!(st.balls[0].velocity.norm, BALL_SPEED);
    assert!(st.active_bonuses.is_empty());
}

#[test]
fn brick_hit_bounces_ball_and_breaks_brick() {
    let mut st = State::new(Level::default());
    // Just below the twelfth brick of the first column, moving up.
    st.balls = vec![free_ball(22000, 244100, 270000, 10000)];
    let mut rng = SeededRandom::new(1);
    st.update(10, &mut rng);
    assert_eq!(st.bricks.len(), 324);
    // The removed brick was the first-column one; its right neighbour
    // moved into its index.
    assert_eq!(st.bricks[12].center, Point { x: 56000, y: 14000 });
    assert!(st.bonuses.len() <= 1);
}

#[test]
fn life_bonus_grants_a_life() {
    let mut st = State::new(Level::default());
    st.balls = vec![free_ball(430000, 400000, 0, 400000)];
    st.bonuses = vec![FallingBonus {
        bonus_type: BonusType::Life,
        position: Point { x: 430000, y: 680000 },
    }];
    let mut rng = SeededRandom::new(1);
    st.update(10, &mut rng);
    assert_eq!(st.lives, 4);
    assert!(st.bonuses.is_empty());
    assert!(st.active_bonuses.is_empty());
}

#[test]
fn expand_bonus_widens_the_paddle() {
    let mut st = State::new(Level::default());
    st.balls = vec![free_ball(430000, 400000, 0, 400000)];
    st.bonuses = vec![FallingBonus {
        bonus_type: BonusType::Expand,
        position: Point { x: 430000, y: 680000 },
    }];
    let mut rng = SeededRandom::new(1);
    let w0 = st.player.width;
    st.update(10, &mut rng);
    assert_eq!(st.player.width, w0 + 20000);
    assert!(st.bonuses.is_empty());
}

#[test]
fn divide_bonus_fans_balls_out() {
    let mut st = State::new(Level::default());
    st.balls = vec![free_ball(430000, 400000, 90000, 400000)];
    st.bonuses = vec![FallingBonus {
        bonus_type: BonusType::Divide,
        position: Point { x: 430000, y: 680000 },
    }];
    let mut rng = SeededRandom::new(1);
    st.update(10, &mut rng);
    assert_eq!(st.balls.len(), 3);
    assert_eq!(st.balls[1].velocity.angle, 120000);
    assert_eq!(st.balls[2].velocity.angle, 60000);
}

#[test]
fn divide_bonus_caps_ball_count() {
    let mut st = State::new(Level::default());
    let mut balls = Vec::new();
    let mut i = 0i64;
    while i < 6 {
        balls.push(free_ball(200000 + 40000 * i, 400000, 0, 400000));
        i += 1;
    }
    st.balls = balls;
    st.bonuses = vec![FallingBonus {
        bonus_type: BonusType::Divide,
        position: Point { x: 430000, y: 680000 },
    }];
    let mut rng = SeededRandom::new(1);
    st.update(10, &mut rng);
    assert_eq!(st.balls.len(), 16);
}

#[test]
fn slow_pickup_queues_a_timed_effect() {
    let mut st = State::new(Level::default());
    st.balls = vec![free_ball(430000, 400000, 0, 400000)];
    st.bonuses = vec![FallingBonus {
        bonus_type: BonusType::Slow,
        position: Point { x: 430000, y: 680000 },
    }];
    let mut rng = SeededRandom::new(1);
    st.update(10, &mut rng);
    assert_eq!(st.active_bonuses.len(), 1);
    assert_eq!(st.active_bonuses[0].timer, 9990);
    assert_eq!(st.balls[0].velocity.norm, BALL_SPEED / 2);
}

#[test]
fn pit_discards_bonus_before_the_paddle_sees_it() {
    let mut st = State::new(Level::default());
    st.balls = vec![free_ball(430000, 400000, 0, 400000)];
    st.bonuses = vec![FallingBonus {
        bonus_type: BonusType::Life,
        position: Point { x: 430000, y: 705000 },
    }];
    let mut rng = SeededRandom::new(1);
    st.update(10, &mut rng);
    assert_eq!(st.lives, 3);
    assert!(st.bonuses.is_empty());
    assert!(st.active_bonuses.is_empty());
}

#[test]
fn held_ball_tracks_the_paddle() {
    let mut st = State::new(Level::default());
    st.input(1000);
    let mut rng = SeededRandom::new(1);
    st.update(100, &mut rng);
    // The held ball was snapped onto the paddle's position as of the
    // start of the frame; the paddle itself then moved on.
    assert_eq!(st.balls.len(), 1);
    assert_eq!(st.balls[0].position, Point { x: 430000, y: 676000 });
    assert_eq!(st.player.position.x, 480000);
    assert!(st.balls[0].on_hold());
}

#[test]
fn wall_bounce_keeps_speed() {
    let mut st = State::new(Level::default());
    st.bricks = Vec::new();
    // Moving left, already past the left wall line.
    st.balls = vec![free_ball(10000, 400000, 180000, 400000)];
    let mut rng = SeededRandom::new(1);
    st.update(10, &mut rng);
    assert_eq!(st.balls[0].velocity.norm, 400000);
    // Reflected off the left wall: direction flips to the right.
    assert_eq!(st.balls[0].velocity.angle, 0);
}

#[test]
fn activate_applies_each_kind() {
    let mut st = State::new(Level::default());
    st.balls = vec![free_ball(430000, 400000, 90000, 400000)];

    BonusType::Life.activate(&mut st);
    assert_eq!(st.lives, 4);

    let w0 = st.player.width;
    BonusType::Expand.activate(&mut st);
    assert_eq!(st.player.width, w0 + 20000);

    BonusType::Slow.activate(&mut st);
    assert_eq!(st.active_bonuses.len(), 1);
    assert_eq!(st.active_bonuses[0].bonus_type, BonusType::Slow);
    assert_eq!(st.active_bonuses[0].timer, 10000);

    BonusType::Divide.activate(&mut st);
    assert_eq!(st.balls.len(), 3);
}

#[test]
fn stack_slow_resets_every_ball() {
    let mut st = State::new(Level::default());
    st.balls = vec![
        free_ball(200000, 400000, 0, 400000),
        free_ball(300000, 400000, 90000, 100000),
    ];
    BonusType::Slow.stack(&mut st, 3);
    assert_eq!(st.balls[0].velocity.norm, BALL_SPEED / 4);
    assert_eq!(st.balls[1].velocity.norm, BALL_SPEED / 4);
    assert_eq!(st.balls[1].velocity.angle, 90000);
    BonusType::Expand.stack(&mut st, 3);
    assert_eq!(st.balls[0].velocity.norm, BALL_SPEED / 4);
}

#[test]
fn update_is_reproducible_with_a_seeded_generator() {
    let mut a = State::new(Level::default());
    let mut b = State::new(Level::default());
    // A ball about to break a brick, so the spawn roll is exercised.
    a.balls = vec![free_ball(22000, 244100, 270000, 10000)];
    b.balls = vec![free_ball(22000, 244100, 270000, 10000)];
    let mut rng_a = SeededRandom::new(99);
    let mut rng_b = SeededRandom::new(99);
    let mut i = 0;
    while i < 20 {
        a.update(16, &mut rng_a);
        b.update(16, &mut rng_b);
        i += 1;
    }
    assert_eq!(a.lives, b.lives);
    assert_eq!(a.balls, b.balls);
    assert_eq!(a.bricks, b.bricks);
    assert_eq!(a.bonuses, b.bonuses);
    assert_eq!(a.active_bonuses, b.active_bonuses);
    assert_eq!(a.player, b.player);
}

#[test]
fn no_expired_effect_survives_a_frame() {
    let mut st = State::new(Level::default());
    st.balls = vec![free_ball(430000, 400000, 0, 400000)];
    st.active_bonuses = vec![
        ActiveBonus { bonus_type: BonusType::Slow, timer: 3 },
        ActiveBonus { bonus_type: BonusType::Expand, timer: 5000 },
        ActiveBonus { bonus_type: BonusType::Life, timer: 7 },
    ];
    let mut rng = SeededRandom::new(1);
    st.update(10, &mut rng);
    assert_eq!(st.active_bonuses.len(), 1);
    for e in st.active_bonuses.iter() {
        assert!(e.timer > 0);
    }
}
