//! A level: the brick layout and the play-field extents.  Reading a level
//! from disk is the embedding program's concern; the default level is the
//! built-in grid.

use vstd::prelude::*;
use crate::num::{Pixels, POS_BOUND, div_nn};
use crate::utils::Point;
use crate::brick::{Brick, BrickType};

verus! {

/// Columns in the default grid.
pub const LEVEL_COLS: usize = 25;

/// Rows in the default grid.
pub const LEVEL_ROWS: usize = 13;

/// Extents of a default-grid brick and the padding between bricks.
pub const BRICK_WIDTH: Pixels = 32000;

pub const BRICK_HEIGHT: Pixels = 16000;

pub const BRICK_V_PAD: Pixels = 2000;

pub const BRICK_H_PAD: Pixels = 2000;

/// A level.
#[derive(Clone, PartialEq, Eq, Debug)]
pub struct Level {
    pub bricks: Vec<Brick>,
    pub height: Pixels,
    pub width: Pixels,
}

/// Center abscissa of the default-grid brick in column `i`.
pub open spec fn default_center_x(i: int) -> int {
    i * 34000 + 22000
}

/// Center ordinate of the default-grid brick in row `j`.
pub open spec fn default_center_y(j: int) -> int {
    j * 18000 + 14000
}

/// Hit points of the default-grid brick in column `i`: the columns
/// alternate between one-hit and two-hit bricks.
pub open spec fn default_hp(i: int) -> int {
    if i % 2 == 0 {
        1
    } else {
        2
    }
}

/// What the `k`-th brick of the default grid looks like.
pub open spec fn default_brick_ok(b: Brick, k: int) -> bool {
    let i = k / 13;
    let j = k % 13;
    &&& b.center.x == default_center_x(i)
    &&& b.center.y == default_center_y(j)
    &&& b.width == BRICK_WIDTH
    &&& b.height == BRICK_HEIGHT
    &&& b.breakable
    &&& b.hitpoints == default_hp(i)
}

impl Level {
    /// Well-formedness: positive in-box extents and well-formed bricks.
    pub open spec fn wf(self) -> bool {
        &&& 0 < self.width <= POS_BOUND
        &&& 0 < self.height <= POS_BOUND
        &&& forall|k: int| 0 <= k < self.bricks@.len() ==> (#[trigger] self.bricks@[k]).wf()
    }

    pub fn new(bricks: Vec<Brick>, width: Pixels, height: Pixels) -> (r: Level)
        requires
            0 < width <= POS_BOUND,
            0 < height <= POS_BOUND,
            forall|k: int| 0 <= k < bricks@.len() ==> (#[trigger] bricks@[k]).wf(),
        ensures
            r.bricks == bricks,
            r.width == width,
            r.height == height,
            r.wf(),
    {
        Level { bricks, width, height }
    }

    /// The field height in whole pixels.
    pub fn height(&self) -> (r: u32)
        requires
            self.wf(),
        ensures
            r as int == self.height as int / 1000,
    {
        div_nn(self.height, 1000) as u32
    }

    /// The field width in whole pixels.
    pub fn width(&self) -> (r: u32)
        requires
            self.wf(),
        ensures
            r as int == self.width as int / 1000,
    {
        div_nn(self.width, 1000) as u32
    }
}

impl Default for Level {
    /// The built-in grid: 25 columns by 13 rows of alternating one-hit
    /// and two-hit bricks, row-major along the columns.
    fn default() -> (r: Level)
        ensures
            r.bricks@.len() == 325,
            forall|k: int| 0 <= k < 325 ==> default_brick_ok(#[trigger] r.bricks@[k], k),
            r.width == 860000,
            r.height == 714000,
            r.wf(),
    {
        let mut bricks: Vec<Brick> = Vec::new();
        let mut i: usize = 0;
        while i < 25
            invariant
                i <= 25,
                bricks@.len() == i * 13,
                forall|k: int| 0 <= k < bricks@.len() ==> default_brick_ok(
                    #[trigger] bricks@[k],
                    k,
                ),
                forall|k: int| 0 <= k < bricks@.len() ==> (#[trigger] bricks@[k]).wf(),
            decreases 25 - i,
        {
            let mut j: usize = 0;
            while j < 13
                invariant
                    i < 25,
                    j <= 13,
                    bricks@.len() == i * 13 + j,
                    forall|k: int| 0 <= k < bricks@.len() ==> default_brick_ok(
                        #[trigger] bricks@[k],
                        k,
                    ),
                    forall|k: int| 0 <= k < bricks@.len() ==> (#[trigger] bricks@[k]).wf(),
                decreases 13 - j,
            {
                let cx: i64 = (i as i64) * 34000 + 22000;
                let cy: i64 = (j as i64) * 18000 + 14000;
                let kind: BrickType = if i % 2 == 0 {
                    BrickType::Simple
                } else {
                    BrickType::Hard
                };
                let b: Brick = Brick::new(kind, Point { x: cx, y: cy }, BRICK_WIDTH, BRICK_HEIGHT);
                bricks.push(b);
                proof {
                    vstd::arithmetic::div_mod::lemma_fundamental_div_mod_converse(
                        i * 13 + j,
                        13,
                        i as int,
                        j as int,
                    );
                }
                j = j + 1;
            }
            i = i + 1;
        }
        Level { bricks, width: 860000, height: 714000 }
    }
}

} // verus!
