//! Bricks: static rectangles with hit points; breakable ones are worn
//! down by ball hits and leave the field once destroyed.

use vstd::prelude::*;
use crate::num::{Pixels, POS_BOUND};
use crate::utils::Point;
use crate::shape::Rect;
use crate::textures::BrickSprite;

verus! {

/// The declarative kinds a level file places: one hit point, two hit
/// points, or an unbreakable block.
#[derive(Clone, Copy, PartialEq, Eq, Structural, Debug)]
pub enum BrickType {
    Simple,
    Hard,
    Super,
}

/// A brick on the field.
#[derive(Clone, Copy, PartialEq, Eq, Structural, Debug)]
pub struct Brick {
    pub center: Point,
    pub width: Pixels,
    pub height: Pixels,
    pub breakable: bool,
    pub hitpoints: u8,
}

/// Hit points after one `damage` call: one less when the brick is
/// breakable and still has any, unchanged otherwise.
pub open spec fn damaged_hp(b: Brick) -> int {
    if b.breakable && b.hitpoints > 0 {
        b.hitpoints - 1
    } else {
        b.hitpoints as int
    }
}

/// Whether a brick with these fields stays on the field.
pub open spec fn alive_spec(breakable: bool, hitpoints: int) -> bool {
    hitpoints > 0 || !breakable
}

/// The atlas cell a brick is drawn with, by its hit points.
pub open spec fn sprite_spec(hp: u8) -> BrickSprite {
    if hp == 0 {
        BrickSprite::White
    } else if hp == 1 {
        BrickSprite::LightRed
    } else if hp == 2 {
        BrickSprite::Orange
    } else if hp == 3 {
        BrickSprite::LightBlue
    } else if hp == 4 {
        BrickSprite::LightCyan
    } else if hp == 5 {
        BrickSprite::Magenta
    } else if hp == 6 {
        BrickSprite::LightGreen
    } else if hp == 7 {
        BrickSprite::Yellow
    } else if hp == 8 {
        BrickSprite::Blue
    } else if hp == 9 {
        BrickSprite::Red
    } else if hp == 10 {
        BrickSprite::Green
    } else if hp == 11 {
        BrickSprite::Cyan
    } else if hp == 12 {
        BrickSprite::Silver1
    } else if hp == 13 {
        BrickSprite::Silver2
    } else if hp == 14 {
        BrickSprite::Silver3
    } else if hp == 15 {
        BrickSprite::Silver4
    } else if hp == 16 {
        BrickSprite::Silver5
    } else if hp == 17 {
        BrickSprite::Silver6
    } else if hp == 18 {
        BrickSprite::Gold1
    } else if hp == 19 {
        BrickSprite::Gold2
    } else if hp == 20 {
        BrickSprite::Gold3
    } else if hp == 21 {
        BrickSprite::Gold4
    } else if hp == 22 {
        BrickSprite::Gold5
    } else {
        BrickSprite::Gold6
    }
}

impl Brick {
    /// Well-formedness: an in-box center and positive extents.
    pub open spec fn wf(self) -> bool {
        &&& self.center.wf()
        &&& 0 < self.width <= POS_BOUND
        &&& 0 < self.height <= POS_BOUND
    }

    /// Build a brick of the given kind: `Simple` has one hit point,
    /// `Hard` two, `Super` is unbreakable.
    pub fn new(brick_type: BrickType, center: Point, width: Pixels, height: Pixels) -> (r: Brick)
        requires
            center.wf(),
            0 < width <= POS_BOUND,
            0 < height <= POS_BOUND,
        ensures
            r.center == center,
            r.width == width,
            r.height == height,
            brick_type == BrickType::Simple ==> r.breakable && r.hitpoints == 1,
            brick_type == BrickType::Hard ==> r.breakable && r.hitpoints == 2,
            brick_type == BrickType::Super ==> !r.breakable && r.hitpoints == 0,
            r.wf(),
    {
        match brick_type {
            BrickType::Simple => Brick { center, width, height, breakable: true, hitpoints: 1 },
            BrickType::Hard => Brick { center, width, height, breakable: true, hitpoints: 2 },
            BrickType::Super => Brick { center, width, height, breakable: false, hitpoints: 0 },
        }
    }

    /// Whether the brick stays on the field.
    pub fn alive(&self) -> (r: bool)
        ensures
            r == alive_spec(self.breakable, self.hitpoints as int),
    {
        self.hitpoints > 0 || !self.breakable
    }

    /// The brick's collision shape.
    pub open spec fn shape_spec(self) -> Rect {
        Rect { center: self.center, width: self.width, height: self.height }
    }

    pub fn shape(&self) -> (r: Rect)
        requires
            self.wf(),
        ensures
            r == self.shape_spec(),
            r.wf(),
    {
        Rect { center: self.center, width: self.width, height: self.height }
    }

    /// Take one hit: a no-op on unbreakable or already-exhausted bricks.
    pub fn damage(&mut self)
        ensures
            final(self).hitpoints as int == damaged_hp(*old(self)),
            final(self).center == old(self).center,
            final(self).width == old(self).width,
            final(self).height == old(self).height,
            final(self).breakable == old(self).breakable,
    {
        if self.breakable && self.hitpoints > 0 {
            self.hitpoints = self.hitpoints - 1;
        }
    }

    /// The atlas cell the brick is drawn with.
    pub fn sprite(&self) -> (r: BrickSprite)
        ensures
            r == sprite_spec(self.hitpoints),
    {
        match self.hitpoints {
            0 => BrickSprite::White,
            1 => BrickSprite::LightRed,
            2 => BrickSprite::Orange,
            3 => BrickSprite::LightBlue,
            4 => BrickSprite::LightCyan,
            5 => BrickSprite::Magenta,
            6 => BrickSprite::LightGreen,
            7 => BrickSprite::Yellow,
            8 => BrickSprite::Blue,
            9 => BrickSprite::Red,
            10 => BrickSprite::Green,
            11 => BrickSprite::Cyan,
            12 => BrickSprite::Silver1,
            13 => BrickSprite::Silver2,
            14 => BrickSprite::Silver3,
            15 => BrickSprite::Silver4,
            16 => BrickSprite::Silver5,
            17 => BrickSprite::Silver6,
            18 => BrickSprite::Gold1,
            19 => BrickSprite::Gold2,
            20 => BrickSprite::Gold3,
            21 => BrickSprite::Gold4,
            22 => BrickSprite::Gold5,
            _ => BrickSprite::Gold6,
        }
    }
}

/// Damage never raises hit points, does nothing to unbreakable bricks,
/// and a breakable brick whose hit points reach zero is no longer alive.
pub proof fn lemma_damage_monotone(b: Brick)
    ensures
        damaged_hp(b) <= b.hitpoints,
        !b.breakable ==> damaged_hp(b) == b.hitpoints,
        b.breakable && damaged_hp(b) == 0 ==> !alive_spec(b.breakable, damaged_hp(b)),
{
}

} // verus!
