//! The sprite vocabulary of the renderer: which cell of the sprite atlas
//! each entity is drawn with.  Picking the cell is game logic (a brick's
//! sprite follows its hit points); the drawing itself is left to the
//! embedding program.

use vstd::prelude::*;

verus! {

#[derive(Clone, Copy, PartialEq, Eq, Structural, Debug)]
pub enum BrickSprite {
    White,
    LightRed,
    Orange,
    LightBlue,
    LightCyan,
    Magenta,
    LightGreen,
    Yellow,
    Blue,
    Red,
    Green,
    Cyan,
    Silver1,
    Silver2,
    Silver3,
    Silver4,
    Silver5,
    Silver6,
    Gold1,
    Gold2,
    Gold3,
    Gold4,
    Gold5,
    Gold6,
}

#[derive(Clone, Copy, PartialEq, Eq, Structural, Debug)]
pub enum BallSprite {
    Ball1,
    Ball2,
    Ball3,
    Ball4,
    Ball5,
    Ball6,
}

#[derive(Clone, Copy, PartialEq, Eq, Structural, Debug)]
pub enum VesselSprite {
    Size1,
    Size2,
    Size3,
    Size4,
    Size5,
    Size6,
    Size7,
    Size8,
}

#[derive(Clone, Copy, PartialEq, Eq, Structural, Debug)]
pub enum PowerUpSprite {
    Rot1,
    Rot2,
    Rot3,
    Rot4,
    Rot5,
    Rot6,
    Rot7,
    Rot8,
}

#[derive(Clone, Copy, PartialEq, Eq, Structural, Debug)]
pub enum PowerUpType {
    S,
    C,
    L,
    E,
    D,
    B,
    P,
}

#[derive(Clone, Copy, PartialEq, Eq, Structural, Debug)]
pub enum BackgroundSprite {
    Polygon,
    PolygonDark,
    Blue,
    BlueDark,
    Green,
    GreenDark,
    Red,
    RedDark,
    Orange,
    OrangeDark,
    Purple,
    PurpleDark,
}

#[derive(Clone, Copy, PartialEq, Eq, Structural, Debug)]
pub enum RocketSprite {
    Yellow,
    Blue,
}

#[derive(Clone, Copy, PartialEq, Eq, Structural, Debug)]
pub enum PropsSprite {
    Cone1,
    Pyramid1,
    Molecule1,
    Molecule17,
    Explosion1,
    Cone2,
    Pyramid2,
    Molecule2,
    Molecule18,
    Explosion2,
    Cone3,
    Pyramid3,
    Molecule3,
    Molecule19,
    Explosion3,
    Cone4,
    Pyramid4,
    Molecule4,
    Molecule20,
    Explosion4,
    Cone5,
    Pyramid5,
    Molecule5,
    Molecule21,
    Explosion5,
    Cone6,
    Pyramid6,
    Molecule6,
    Molecule22,
    Explosion6,
    Cone7,
    Pyramid7,
    Molecule7,
    Molecule23,
    Cone8,
    Pyramid8,
    Molecule8,
    Molecule24,
    Pyramid9,
    Pyramid10,
    Pyramid11,
    Molecule9,
    Molecule10,
    Molecule11,
    Molecule12,
    Molecule13,
    Molecule14,
    Molecule15,
    Molecule16,
}

} // verus!
