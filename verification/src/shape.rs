//! The collision shapes and every pairwise collision algorithm.
//!
//! Each `Collide` implementation is specified exactly by a spec function
//! giving the contact (normal direction of separation, penetration depth)
//! as a mathematical function of the two shapes.

use vstd::prelude::*;
use crate::num::{Pixels, Angle, POS_BOUND, TURN, abs_i, sqrt_floor, half};
use crate::trig::atan2_spec;
use crate::utils::{Point, dist_sq, dist_spec, distance};
use crate::traits::{Collide, Collision};

verus! {

/// Normal direction pointing up the screen (negative `y`).
pub const DIR_UP: Angle = 270000;

/// Normal direction pointing down the screen (positive `y`).
pub const DIR_DOWN: Angle = 90000;

/// Normal direction pointing left (negative `x`).
pub const DIR_LEFT: Angle = 180000;

/// Normal direction pointing right (positive `x`).
pub const DIR_RIGHT: Angle = 0;

/// An axis-aligned rectangle given by its center and full extents.
#[derive(Clone, Copy, PartialEq, Eq, Structural, Debug)]
pub struct Rect {
    pub center: Point,
    pub width: Pixels,
    pub height: Pixels,
}

/// A circle given by its center and radius.
#[derive(Clone, Copy, PartialEq, Eq, Structural, Debug)]
pub struct Circle {
    pub center: Point,
    pub radius: Pixels,
}

/// Which play-field edge an infinite boundary line guards.
#[derive(Clone, Copy, PartialEq, Eq, Structural, Debug)]
pub enum WallOrientation {
    Top,
    Bottom,
    Right,
    Left,
}

/// An infinite boundary at a fixed coordinate on one axis, passing through
/// `center`.
#[derive(Clone, Copy, PartialEq, Eq, Structural, Debug)]
pub struct InfiniteWall {
    pub orientation: WallOrientation,
    pub center: Point,
}

/// The integer view of an optional contact.
pub open spec fn col_view(r: Option<Collision>) -> Option<(int, int)> {
    match r {
        Some(c) => Some((c.0 as int, c.1 as int)),
        None => None,
    }
}

impl Rect {
    pub open spec fn wf(self) -> bool {
        &&& self.center.wf()
        &&& 0 < self.width <= POS_BOUND
        &&& 0 < self.height <= POS_BOUND
    }

    pub fn new(center: Point, width: Pixels, height: Pixels) -> (r: Rect)
        ensures
            r.center == center,
            r.width == width,
            r.height == height,
    {
        Rect { center, width, height }
    }
}

impl Circle {
    pub open spec fn wf(self) -> bool {
        &&& self.center.wf()
        &&& 0 < self.radius <= POS_BOUND
    }

    pub fn new(center: Point, radius: Pixels) -> (r: Circle)
        ensures
            r.center == center,
            r.radius == radius,
    {
        Circle { center, radius }
    }
}

/// Contact of two circles: overlap iff the center distance is below the
/// radius sum; the normal points from `b`'s center toward `a`'s.
pub open spec fn circle_circle_spec(a: Circle, b: Circle) -> Option<(int, int)> {
    let dx = a.center.x - b.center.x;
    let dy = a.center.y - b.center.y;
    let d = sqrt_floor(dx * dx + dy * dy);
    let rr = a.radius + b.radius;
    if d < rr {
        Some((atan2_spec(dy, dx), rr - d))
    } else {
        None
    }
}

/// Contact of the circle at `(cx, cy)` with the given radius and the
/// point `(px, py)`: overlap iff the point lies strictly inside; the
/// normal points from the point toward the circle's center.
pub open spec fn circle_point_at(cx: int, cy: int, radius: int, px: int, py: int) -> Option<
    (int, int),
> {
    let dx = cx - px;
    let dy = cy - py;
    let d = sqrt_floor(dx * dx + dy * dy);
    if d < radius {
        Some((atan2_spec(dy, dx), radius - d))
    } else {
        None
    }
}

/// Contact of a circle and a point.
pub open spec fn circle_point_spec(c: Circle, p: Point) -> Option<(int, int)> {
    circle_point_at(c.center.x as int, c.center.y as int, c.radius as int, p.x as int, p.y as int)
}

/// Contact of a boundary line and a circle: overlap iff the circle's near
/// edge crosses the line; the normal is the fixed inward direction of the
/// wall's orientation.
pub open spec fn wall_circle_spec(w: InfiniteWall, c: Circle) -> Option<(int, int)> {
    match w.orientation {
        WallOrientation::Top => if c.center.y - c.radius < w.center.y {
            Some((DIR_DOWN as int, w.center.y - (c.center.y - c.radius)))
        } else {
            None
        },
        WallOrientation::Left => if c.center.x - c.radius < w.center.x {
            Some((DIR_RIGHT as int, w.center.x - (c.center.x - c.radius)))
        } else {
            None
        },
        WallOrientation::Bottom => if c.center.y + c.radius > w.center.y {
            Some((DIR_UP as int, c.center.y + c.radius - w.center.y))
        } else {
            None
        },
        WallOrientation::Right => if c.center.x + c.radius > w.center.x {
            Some((DIR_LEFT as int, c.center.x + c.radius - w.center.x))
        } else {
            None
        },
    }
}

/// Contact of a boundary line and a rectangle, by the rectangle's
/// half-extent on the wall's axis.
pub open spec fn wall_rect_spec(w: InfiniteWall, r: Rect) -> Option<(int, int)> {
    match w.orientation {
        WallOrientation::Top => if r.center.y - r.height / 2 < w.center.y {
            Some((DIR_DOWN as int, w.center.y - (r.center.y - r.height / 2)))
        } else {
            None
        },
        WallOrientation::Left => if r.center.x - r.width / 2 < w.center.x {
            Some((DIR_RIGHT as int, w.center.x - (r.center.x - r.width / 2)))
        } else {
            None
        },
        WallOrientation::Bottom => if r.center.y + r.height / 2 > w.center.y {
            Some((DIR_UP as int, r.center.y + r.height / 2 - w.center.y))
        } else {
            None
        },
        WallOrientation::Right => if r.center.x + r.width / 2 > w.center.x {
            Some((DIR_LEFT as int, r.center.x + r.width / 2 - w.center.x))
        } else {
            None
        },
    }
}

/// Contact of the axis-aligned rectangle centered at `(cx, cy)` with full
/// extents `w`, `h` and the point `(px, py)`: the point is inside iff its
/// four signed face distances are all positive; the smallest one names the
/// separating face, ties broken in the order top, bottom, right, left.
pub open spec fn rect_point_at(cx: int, cy: int, w: int, h: int, px: int, py: int) -> Option<
    (int, int),
> {
    let dx = px - cx;
    let dy = py - cy;
    let d_top = h / 2 + dy;
    let d_bottom = h / 2 - dy;
    let d_right = w / 2 + dx;
    let d_left = w / 2 - dx;
    if d_top > 0 && d_bottom > 0 && d_right > 0 && d_left > 0 {
        if d_top <= d_bottom && d_top <= d_right && d_top <= d_left {
            Some((DIR_UP as int, d_top))
        } else if d_bottom <= d_right && d_bottom <= d_left {
            Some((DIR_DOWN as int, d_bottom))
        } else if d_right <= d_left {
            Some((DIR_RIGHT as int, d_right))
        } else {
            Some((DIR_LEFT as int, d_left))
        }
    } else {
        None
    }
}

/// Contact of a rectangle and a point.
pub open spec fn rect_point_spec(rc: Rect, p: Point) -> Option<(int, int)> {
    rect_point_at(
        rc.center.x as int,
        rc.center.y as int,
        rc.width as int,
        rc.height as int,
        p.x as int,
        p.y as int,
    )
}

/// Contact of a rectangle and a circle: a fast distance rejection, then
/// the two capsule tests (the rectangle widened by the radius on one axis
/// at a time) against the circle's center, then the four corner circles,
/// in that order.
pub open spec fn rect_circle_spec(rc: Rect, c: Circle) -> Option<(int, int)> {
    let dx = rc.center.x - c.center.x;
    let dy = rc.center.y - c.center.y;
    let d = sqrt_floor(dx * dx + dy * dy);
    let outer = sqrt_floor((rc.width / 2) * (rc.width / 2) + (rc.height / 2) * (rc.height / 2));
    if d > outer + c.radius {
        None
    } else {
        let px = c.center.x as int;
        let py = c.center.y as int;
        let cx = rc.center.x as int;
        let cy = rc.center.y as int;
        let vcap = rect_point_at(cx, cy, rc.width as int, rc.height + 2 * c.radius, px, py);
        let hcap = rect_point_at(cx, cy, rc.width + 2 * c.radius, rc.height as int, px, py);
        if vcap is Some {
            vcap
        } else if hcap is Some {
            hcap
        } else {
            let w2 = rc.width as int / 2;
            let h2 = rc.height as int / 2;
            let tl = circle_point_at(cx - w2, cy - h2, c.radius as int, px, py);
            let tr = circle_point_at(cx + w2, cy - h2, c.radius as int, px, py);
            let bl = circle_point_at(cx - w2, cy + h2, c.radius as int, px, py);
            let br = circle_point_at(cx + w2, cy + h2, c.radius as int, px, py);
            if tl is Some {
                tl
            } else if tr is Some {
                tr
            } else if bl is Some {
                bl
            } else if br is Some {
                br
            } else {
                None
            }
        }
    }
}

impl Collide<Circle> for InfiniteWall {
    open spec fn collide_req(&self, other: &Circle) -> bool {
        &&& self.center.wf()
        &&& other.wf()
    }

    fn collide(&self, other: &Circle) -> (r: Option<Collision>)
        ensures
            col_view(r) == wall_circle_spec(*self, *other),
            r matches Some(c) ==> 0 <= c.0 < TURN && 0 <= c.1 <= 4 * POS_BOUND,
    {
        match self.orientation {
            WallOrientation::Top => {
                if other.center.y - other.radius < self.center.y {
                    Some((DIR_DOWN, self.center.y - (other.center.y - other.radius)))
                } else {
                    None
                }
            },
            WallOrientation::Left => {
                if other.center.x - other.radius < self.center.x {
                    Some((DIR_RIGHT, self.center.x - (other.center.x - other.radius)))
                } else {
                    None
                }
            },
            WallOrientation::Bottom => {
                if other.center.y + other.radius > self.center.y {
                    Some((DIR_UP, other.center.y + other.radius - self.center.y))
                } else {
                    None
                }
            },
            WallOrientation::Right => {
                if other.center.x + other.radius > self.center.x {
                    Some((DIR_LEFT, other.center.x + other.radius - self.center.x))
                } else {
                    None
                }
            },
        }
    }
}

impl Collide<Rect> for InfiniteWall {
    open spec fn collide_req(&self, other: &Rect) -> bool {
        &&& self.center.wf()
        &&& other.wf()
    }

    fn collide(&self, other: &Rect) -> (r: Option<Collision>)
        ensures
            col_view(r) == wall_rect_spec(*self, *other),
            r matches Some(c) ==> 0 <= c.0 < TURN && 0 <= c.1 <= 4 * POS_BOUND,
    {
        match self.orientation {
            WallOrientation::Top => {
                let h2: i64 = half(other.height);
                if other.center.y - h2 < self.center.y {
                    Some((DIR_DOWN, self.center.y - (other.center.y - h2)))
                } else {
                    None
                }
            },
            WallOrientation::Left => {
                let w2: i64 = half(other.width);
                if other.center.x - w2 < self.center.x {
                    Some((DIR_RIGHT, self.center.x - (other.center.x - w2)))
                } else {
                    None
                }
            },
            WallOrientation::Bottom => {
                let h2: i64 = half(other.height);
                if other.center.y + h2 > self.center.y {
                    Some((DIR_UP, other.center.y + h2 - self.center.y))
                } else {
                    None
                }
            },
            WallOrientation::Right => {
                let w2: i64 = half(other.width);
                if other.center.x + w2 > self.center.x {
                    Some((DIR_LEFT, other.center.x + w2 - self.center.x))
                } else {
                    None
                }
            },
        }
    }
}

impl Collide<Circle> for Circle {
    open spec fn collide_req(&self, other: &Circle) -> bool {
        &&& self.wf()
        &&& other.wf()
    }

    fn collide(&self, other: &Circle) -> (r: Option<Collision>)
        ensures
            col_view(r) == circle_circle_spec(*self, *other),
            r matches Some(c) ==> 0 <= c.0 < TURN && 0 <= c.1 <= 4 * POS_BOUND,
    {
        let d: i64 = distance(&self.center, &other.center);
        let rr: i64 = self.radius + other.radius;
        if d < rr {
            let diff: Point = self.center.minus(other.center);
            Some((diff.angle(), rr - d))
        } else {
            None
        }
    }
}

impl Collide<Point> for Circle {
    open spec fn collide_req(&self, other: &Point) -> bool {
        &&& abs_i(self.center.x as int) <= 2 * POS_BOUND
        &&& abs_i(self.center.y as int) <= 2 * POS_BOUND
        &&& 0 < self.radius <= POS_BOUND
        &&& other.wf()
    }

    fn collide(&self, other: &Point) -> (r: Option<Collision>)
        ensures
            col_view(r) == circle_point_spec(*self, *other),
            r matches Some(c) ==> 0 <= c.0 < TURN && 0 <= c.1 <= 4 * POS_BOUND,
    {
        let d: i64 = distance(&self.center, other);
        if d < self.radius {
            let dx: i64 = self.center.x - other.x;
            let dy: i64 = self.center.y - other.y;
            Some((crate::trig::atan2_units(dy, dx), self.radius - d))
        } else {
            None
        }
    }
}

impl Collide<Point> for Rect {
    open spec fn collide_req(&self, other: &Point) -> bool {
        &&& self.center.wf()
        &&& 0 < self.width <= 4 * POS_BOUND
        &&& 0 < self.height <= 4 * POS_BOUND
        &&& other.wf()
    }

    fn collide(&self, other: &Point) -> (r: Option<Collision>)
        ensures
            col_view(r) == rect_point_spec(*self, *other),
            r matches Some(c) ==> 0 <= c.0 < TURN && 0 <= c.1 <= 4 * POS_BOUND,
    {
        let dx: i64 = other.x - self.center.x;
        let dy: i64 = other.y - self.center.y;
        let h2: i64 = half(self.height);
        let w2: i64 = half(self.width);
        let d_top: i64 = h2 + dy;
        let d_bottom: i64 = h2 - dy;
        let d_right: i64 = w2 + dx;
        let d_left: i64 = w2 - dx;
        if d_top > 0 && d_bottom > 0 && d_right > 0 && d_left > 0 {
            if d_top <= d_bottom && d_top <= d_right && d_top <= d_left {
                Some((DIR_UP, d_top))
            } else if d_bottom <= d_right && d_bottom <= d_left {
                Some((DIR_DOWN, d_bottom))
            } else if d_right <= d_left {
                Some((DIR_RIGHT, d_right))
            } else {
                Some((DIR_LEFT, d_left))
            }
        } else {
            None
        }
    }
}

impl Collide<Circle> for Rect {
    open spec fn collide_req(&self, other: &Circle) -> bool {
        &&& self.wf()
        &&& other.wf()
    }

    fn collide(&self, other: &Circle) -> (r: Option<Collision>)
        ensures
            col_view(r) == rect_circle_spec(*self, *other),
            r matches Some(c) ==> 0 <= c.0 < TURN && 0 <= c.1 <= 4 * POS_BOUND,
    {
        let d: i64 = distance(&self.center, &other.center);
        let w2: i64 = half(self.width);
        let h2: i64 = half(self.height);
        let outer: i64 = Point { x: w2, y: h2 }.norm();
        if d > outer + other.radius {
            return None;
        }
        let vcap: Rect = Rect {
            center: self.center,
            width: self.width,
            height: self.height + 2 * other.radius,
        };
        if let Some(r) = vcap.collide(&other.center) {
            return Some(r);
        }
        let hcap: Rect = Rect {
            center: self.center,
            width: self.width + 2 * other.radius,
            height: self.height,
        };
        if let Some(r) = hcap.collide(&other.center) {
            return Some(r);
        }
        let tl: Circle = Circle {
            center: Point { x: self.center.x - w2, y: self.center.y - h2 },
            radius: other.radius,
        };
        if let Some(r) = tl.collide(&other.center) {
            return Some(r);
        }
        let tr: Circle = Circle {
            center: Point { x: self.center.x + w2, y: self.center.y - h2 },
            radius: other.radius,
        };
        if let Some(r) = tr.collide(&other.center) {
            return Some(r);
        }
        let bl: Circle = Circle {
            center: Point { x: self.center.x - w2, y: self.center.y + h2 },
            radius: other.radius,
        };
        if let Some(r) = bl.collide(&other.center) {
            return Some(r);
        }
        let br: Circle = Circle {
            center: Point { x: self.center.x + w2, y: self.center.y + h2 },
            radius: other.radius,
        };
        if let Some(r) = br.collide(&other.center) {
            return Some(r);
        }
        None
    }
}

impl Collide<Rect> for Circle {
    open spec fn collide_req(&self, other: &Rect) -> bool {
        &&& self.wf()
        &&& other.wf()
    }

    fn collide(&self, other: &Rect) -> (r: Option<Collision>)
        ensures
            col_view(r) == rect_circle_spec(*other, *self),
            r matches Some(c) ==> 0 <= c.0 < TURN && 0 <= c.1 <= 4 * POS_BOUND,
    {
        other.collide(self)
    }
}

/// Two circles collide exactly when the squared distance of their centers
/// is below the square of the radius sum, and the reported depth is then
/// the radius sum less the (rounded-down) center distance.
pub proof fn lemma_circle_circle_law(a: Circle, b: Circle)
    requires
        a.wf(),
        b.wf(),
    ensures
        circle_circle_spec(a, b) is Some <==> dist_sq(
            a.center.x as int,
            a.center.y as int,
            b.center.x as int,
            b.center.y as int,
        ) < (a.radius + b.radius) * (a.radius + b.radius),
        circle_circle_spec(a, b) matches Some(c) ==> c.1 == a.radius + b.radius - sqrt_floor(
            dist_sq(a.center.x as int, a.center.y as int, b.center.x as int, b.center.y as int),
        ),
{
    let dd = dist_sq(a.center.x as int, a.center.y as int, b.center.x as int, b.center.y as int);
    let rr = a.radius + b.radius;
    let dx = a.center.x - b.center.x;
    let dy = a.center.y - b.center.y;
    assert(dx * dx >= 0 && dy * dy >= 0) by (nonlinear_arith);
    assert(dd == dx * dx + dy * dy);
    crate::num::lemma_sqrt_floor(dd);
    let s = sqrt_floor(dd);
    if s < rr {
        assert(dd < rr * rr) by (nonlinear_arith)
            requires
                dd < (s + 1) * (s + 1),
                s + 1 <= rr,
                0 <= s,
        ;
    }
    if dd < rr * rr {
        assert(s < rr) by (nonlinear_arith)
            requires
                s * s <= dd,
                dd < rr * rr,
                0 <= s,
                0 <= rr,
        ;
    }
}

/// A point equally distant from all four faces of a rectangle separates
/// through the top face: the tie-break picks the upward normal.
pub proof fn lemma_rect_point_tie_break(rc: Rect, p: Point)
    requires
        rc.height / 2 + (p.y - rc.center.y) == rc.height / 2 - (p.y - rc.center.y),
        rc.width / 2 + (p.x - rc.center.x) == rc.width / 2 - (p.x - rc.center.x),
        rc.height / 2 + (p.y - rc.center.y) == rc.width / 2 + (p.x - rc.center.x),
        rc.height / 2 + (p.y - rc.center.y) > 0,
    ensures
        rect_point_spec(rc, p) == Some((DIR_UP as int, rc.height / 2 + (p.y - rc.center.y))),
{
}

} // verus!
