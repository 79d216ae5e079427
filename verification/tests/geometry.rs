use arkanoid::ball::Ball;
use arkanoid::num::{isqrt, mul_div};
use arkanoid::shape::{Circle, InfiniteWall, Rect, WallOrientation};
use arkanoid::traits::Collide;
use arkanoid::trig::{atan2_units, cos_units, norm_angle, sin_units};
use arkanoid::utils::{angle_clsn_bnce_vect, distance, Point, Vector};

#[test]
fn test_distance() {
    let p1 = Point { x: 332, y: 434 };
    let p2 = Point { x: 143, y: 302 };
    assert_eq!(distance(&p1, &p2), 230);
}

#[test]
fn distance_zero_and_axis() {
    let o = Point { x: 0, y: 0 };
    assert_eq!(distance(&o, &o), 0);
    assert_eq!(distance(&Point { x: 3000, y: 0 }, &o), 3000);
    assert_eq!(distance(&Point { x: 3000, y: 4000 }, &o), 5000);
}

#[test]
fn isqrt_exact_bounds() {
    assert_eq!(isqrt(0), 0);
    assert_eq!(isqrt(1), 1);
    assert_eq!(isqrt(3), 1);
    assert_eq!(isqrt(4), 2);
    assert_eq!(isqrt(53145), 230);
    assert_eq!(isqrt(u64::MAX as u128), 4294967295);
}

#[test]
fn mul_div_rounds_toward_zero() {
    assert_eq!(mul_div(7, 3, 2), 10);
    assert_eq!(mul_div(-7, 3, 2), -10);
    assert_eq!(mul_div(7, -3, 2), -10);
    assert_eq!(mul_div(-7, -3, 2), 10);
}

#[test]
fn trig_cardinal_directions_are_exact() {
    assert_eq!(sin_units(0), 0);
    assert_eq!(sin_units(90000), 10000);
    assert_eq!(sin_units(180000), 0);
    assert_eq!(sin_units(270000), -10000);
    assert_eq!(cos_units(0), 10000);
    assert_eq!(cos_units(90000), 0);
    assert_eq!(cos_units(180000), -10000);
    assert_eq!(cos_units(270000), 0);
    assert_eq!(sin_units(30000), 5000);
}

#[test]
fn trig_diagonal_is_close() {
    let s = sin_units(45000);
    assert!((s - 7071).abs() <= 20, "sin 45 deg was {}", s);
}

#[test]
fn atan2_quadrants() {
    assert_eq!(atan2_units(0, 100), 0);
    assert_eq!(atan2_units(100, 0), 90000);
    assert_eq!(atan2_units(0, -100), 180000);
    assert_eq!(atan2_units(-100, 0), 270000);
    assert_eq!(atan2_units(100, 100), 45000);
    assert_eq!(atan2_units(0, 0), 0);
}

#[test]
fn norm_angle_wraps() {
    assert_eq!(norm_angle(-45000), 315000);
    assert_eq!(norm_angle(360000), 0);
    assert_eq!(norm_angle(725000), 5000);
    assert_eq!(norm_angle(123), 123);
}

#[test]
fn reflection_stays_in_angle_domain() {
    let angles = [0i64, 45000, 123456, 359999];
    let normals = [0i64, 90000, 180000, 270000, 15000];
    for &a in angles.iter() {
        for &n in normals.iter() {
            let v = Vector { angle: a, norm: 1000 };
            let r = v.reflect(n);
            assert!(0 <= r.angle && r.angle < 360000);
            assert_eq!(r.norm, 1000);
        }
    }
    let v = Vector { angle: 45000, norm: 100 };
    assert_eq!(v.reflect(90000).angle, 315000);
    assert_eq!(v.reflect(0).angle, 135000);
}

#[test]
fn circle_circle_overlap_iff_distance_below_radius_sum() {
    let a = Circle { center: Point { x: 25000, y: 0 }, radius: 10000 };
    let b = Circle { center: Point { x: 0, y: 0 }, radius: 20000 };
    let hit = a.collide(&b);
    assert_eq!(hit, Some((0, 5000)));

    let far = Circle { center: Point { x: 40000, y: 0 }, radius: 10000 };
    assert_eq!(far.collide(&b), None);

    // Touching exactly at the radius sum does not count as overlap.
    let touch = Circle { center: Point { x: 30000, y: 0 }, radius: 10000 };
    assert_eq!(touch.collide(&b), None);
}

#[test]
fn rect_point_tie_break_picks_up() {
    let r = Rect { center: Point { x: 0, y: 0 }, width: 20000, height: 20000 };
    let hit = r.collide(&Point { x: 0, y: 0 });
    assert_eq!(hit, Some((270000, 10000)));
}

#[test]
fn rect_point_each_face() {
    let r = Rect { center: Point { x: 0, y: 0 }, width: 20000, height: 20000 };
    assert_eq!(r.collide(&Point { x: 0, y: -8000 }), Some((270000, 2000)));
    assert_eq!(r.collide(&Point { x: 0, y: 8000 }), Some((90000, 2000)));
    assert_eq!(r.collide(&Point { x: 8000, y: 0 }), Some((180000, 2000)));
    assert_eq!(r.collide(&Point { x: -8000, y: 0 }), Some((0, 2000)));
    assert_eq!(r.collide(&Point { x: 0, y: 12000 }), None);
}

#[test]
fn rect_circle_face_hit_from_below() {
    let r = Rect { center: Point { x: 0, y: 0 }, width: 32000, height: 16000 };
    let c = Circle { center: Point { x: 0, y: 14000 }, radius: 8000 };
    assert_eq!(r.collide(&c), Some((90000, 2000)));
    // The symmetric delegation reports the same contact.
    assert_eq!(c.collide(&r), Some((90000, 2000)));
}

#[test]
fn rect_circle_rejects_distant_circle() {
    let r = Rect { center: Point { x: 0, y: 0 }, width: 32000, height: 16000 };
    let c = Circle { center: Point { x: 100000, y: 100000 }, radius: 8000 };
    assert_eq!(r.collide(&c), None);
}

#[test]
fn wall_contacts() {
    let top = InfiniteWall { orientation: WallOrientation::Top, center: Point { x: 430000, y: 2000 } };
    let c = Circle { center: Point { x: 100000, y: 5000 }, radius: 8000 };
    assert_eq!(top.collide(&c), Some((90000, 5000)));

    let right = InfiniteWall {
        orientation: WallOrientation::Right,
        center: Point { x: 858000, y: 357000 },
    };
    let c2 = Circle { center: Point { x: 855000, y: 300000 }, radius: 8000 };
    assert_eq!(right.collide(&c2), Some((180000, 5000)));

    let away = Circle { center: Point { x: 400000, y: 300000 }, radius: 8000 };
    assert_eq!(right.collide(&away), None);

    let r = Rect { center: Point { x: 430000, y: 690000 }, width: 80000, height: 16000 };
    let bottom = InfiniteWall {
        orientation: WallOrientation::Bottom,
        center: Point { x: 430000, y: 712000 },
    };
    assert_eq!(bottom.collide(&r), None);
}

#[test]
fn corner_bounce_quadrants() {
    let corner = Point { x: 100000, y: 100000 };
    let ball = Ball {
        position: Point { x: 90000, y: 90000 },
        velocity: Vector { angle: 45000, norm: 1000 },
        color: arkanoid::ball::Color { r: 0, g: 0, b: 0, a: 255 },
        hold_timer: 0,
    };
    assert_eq!(angle_clsn_bnce_vect(&corner, &ball), 90000 - (45000 + 180000));
    let ball2 = Ball { position: Point { x: 110000, y: 110000 }, ..ball };
    assert_eq!(angle_clsn_bnce_vect(&corner, &ball2), 270000 - (45000 - 360000));
}

#[test]
fn vector_point_round_trip_is_close() {
    let v = Vector { angle: 60000, norm: 100000 };
    let p = v.to_point();
    let back = Vector::from_point(p);
    assert!((back.norm - 100000).abs() <= 200);
    assert!((back.angle - 60000).abs() <= 300);
}

#[test]
fn vector_sum_of_opposites_is_zero() {
    let v = Vector { angle: 0, norm: 50000 };
    let w = Vector { angle: 180000, norm: 50000 };
    let s = v.plus(w);
    assert_eq!(s.norm, 0);
}

#[test]
fn point_arithmetic() {
    let a = Point { x: 1000, y: 2000 };
    let b = Point { x: 300, y: -500 };
    assert_eq!(a.plus(b), Point { x: 1300, y: 1500 });
    assert_eq!(a.minus(b), Point { x: 700, y: 2500 });
    assert_eq!(a.times(2000), Point { x: 2000, y: 4000 });
}

#[test]
fn corner_bounce_remaining_quadrants() {
    let corner = Point { x: 100000, y: 100000 };
    let ball = Ball {
        position: Point { x: 90000, y: 110000 },
        velocity: Vector { angle: 45000, norm: 1000 },
        color: arkanoid::ball::Color { r: 0, g: 0, b: 0, a: 255 },
        hold_timer: 0,
    };
    assert_eq!(angle_clsn_bnce_vect(&corner, &ball), -(45000 + 90000));
    let ball2 = Ball { position: Point { x: 110000, y: 90000 }, ..ball };
    assert_eq!(angle_clsn_bnce_vect(&corner, &ball2), 180000 - (45000 - 270000));
}
