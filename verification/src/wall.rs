//! The four play-field boundaries: top, left and right reflect; the
//! bottom "pit" consumes what crosses it.

use vstd::prelude::*;
use crate::num::{Pixels, POS_BOUND, half};
use crate::utils::Point;
use crate::shape::{InfiniteWall, WallOrientation};

verus! {

/// Thickness the walls are drawn with.
pub const WALL_THICKNESS: Pixels = 4000;

/// One play-field boundary: its drawn extents and its collision line.
#[derive(Clone, Copy, PartialEq, Eq, Structural, Debug)]
pub struct Wall {
    pub width: Pixels,
    pub height: Pixels,
    pub shape: InfiniteWall,
}

impl Wall {
    pub open spec fn wf(self) -> bool {
        &&& self.shape.center.wf()
        &&& 0 < self.width <= POS_BOUND
        &&& 0 < self.height <= POS_BOUND
    }

    /// The wall along the top edge of a field `width` wide.
    pub fn top(width: Pixels) -> (r: Wall)
        requires
            0 < width <= POS_BOUND,
        ensures
            r.shape.orientation == WallOrientation::Top,
            r.shape.center.x as int == width / 2,
            r.shape.center.y == WALL_THICKNESS / 2,
            r.width == width,
            r.height == WALL_THICKNESS,
            r.wf(),
    {
        Wall {
            width,
            height: WALL_THICKNESS,
            shape: InfiniteWall {
                orientation: WallOrientation::Top,
                center: Point { x: half(width), y: WALL_THICKNESS / 2 },
            },
        }
    }

    /// The wall along the left edge of a field `height` tall.
    pub fn left(height: Pixels) -> (r: Wall)
        requires
            0 < height <= POS_BOUND,
        ensures
            r.shape.orientation == WallOrientation::Left,
            r.shape.center.x == WALL_THICKNESS / 2,
            r.shape.center.y as int == height / 2,
            r.width == WALL_THICKNESS,
            r.height == height,
            r.wf(),
    {
        Wall {
            width: WALL_THICKNESS,
            height,
            shape: InfiniteWall {
                orientation: WallOrientation::Left,
                center: Point { x: WALL_THICKNESS / 2, y: half(height) },
            },
        }
    }

    /// The wall along the right edge of a `width` by `height` field.
    pub fn right(height: Pixels, width: Pixels) -> (r: Wall)
        requires
            0 < width <= POS_BOUND,
            0 < height <= POS_BOUND,
        ensures
            r.shape.orientation == WallOrientation::Right,
            r.shape.center.x as int == width - WALL_THICKNESS / 2,
            r.shape.center.y as int == height / 2,
            r.width == WALL_THICKNESS,
            r.height == height,
            r.wf(),
    {
        Wall {
            width: WALL_THICKNESS,
            height,
            shape: InfiniteWall {
                orientation: WallOrientation::Right,
                center: Point { x: width - WALL_THICKNESS / 2, y: half(height) },
            },
        }
    }

    /// The pit along the bottom edge: the boundary that consumes balls
    /// and bonuses instead of reflecting them.
    pub fn pit(height: Pixels, width: Pixels) -> (r: Wall)
        requires
            0 < width <= POS_BOUND,
            0 < height <= POS_BOUND,
        ensures
            r.shape.orientation == WallOrientation::Bottom,
            r.shape.center.x as int == width / 2,
            r.shape.center.y as int == height - WALL_THICKNESS / 2,
            r.width == width,
            r.height == WALL_THICKNESS,
            r.wf(),
    {
        Wall {
            width,
            height: WALL_THICKNESS,
            shape: InfiniteWall {
                orientation: WallOrientation::Bottom,
                center: Point { x: half(width), y: height - WALL_THICKNESS / 2 },
            },
        }
    }

    /// The four boundaries of a `w` by `h` field, in the order top, left,
    /// right, pit.
    pub fn make_walls(h: Pixels, w: Pixels) -> (r: Vec<Wall>)
        requires
            0 < w <= POS_BOUND,
            0 < h <= POS_BOUND,
        ensures
            r@.len() == 4,
            r@[0].shape.orientation == WallOrientation::Top,
            r@[1].shape.orientation == WallOrientation::Left,
            r@[2].shape.orientation == WallOrientation::Right,
            r@[3].shape.orientation == WallOrientation::Bottom,
            r@[0].shape.center.x as int == w / 2 && r@[0].shape.center.y == WALL_THICKNESS / 2,
            r@[1].shape.center.x == WALL_THICKNESS / 2 && r@[1].shape.center.y as int == h / 2,
            r@[2].shape.center.x as int == w - WALL_THICKNESS / 2 && r@[2].shape.center.y as int
                == h / 2,
            r@[3].shape.center.x as int == w / 2 && r@[3].shape.center.y as int == h
                - WALL_THICKNESS / 2,
            forall|i: int| 0 <= i < 4 ==> #[trigger] r@[i].wf(),
    {
        let mut v: Vec<Wall> = Vec::new();
        v.push(Wall::top(w));
        v.push(Wall::left(h));
        v.push(Wall::right(h, w));
        v.push(Wall::pit(h, w));
        v
    }
}

} // verus!
