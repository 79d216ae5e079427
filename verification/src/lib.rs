//! A verified core for a breakout-style arcade game: 2-D fixed-point
//! geometry, a pairwise collision protocol, and the per-frame simulation
//! step that drives balls, paddle, bricks, walls and bonuses.
//!
//! All lengths are thousandths of a pixel, durations are milliseconds,
//! and angles are thousandths of a degree; `num` defines the units and
//! `trig` the integer trigonometry the geometry is built on.

pub mod num;
pub mod trig;
pub mod utils;
pub mod traits;
pub mod shape;
pub mod ball;
pub mod player;
pub mod textures;
pub mod brick;
pub mod random;
pub mod bonus;
pub mod wall;
pub mod level;
pub mod resize;
pub mod store;
pub mod state;
