//! A procedurally generated, infinite 2D tile world.
//!
//! The world is derived from deterministic, seeded noise fields: every tile
//! coordinate maps to a record of continuous terrain attributes, which a
//! biome classifier turns into one of five discrete terrain categories.
//! Around a moving viewpoint, a chunk streaming manager decides which
//! fixed-size blocks of tiles must be materialized and which must be evicted.
//!
//! All continuous quantities (heights, humidity, thresholds, blend weights)
//! are fixed-point numbers: an `i64` counting millionths of a unit, with
//! [`FP_ONE`] standing for 1.0. Comparisons between blended thresholds are
//! carried out on exact integer products, so classification follows the
//! strict less-than band semantics with no rounding at all.

pub mod biome;
pub mod camera;
pub mod game_map;
pub mod game_ui;
pub mod noise_generator;
pub mod tile_data;

use vstd::prelude::*;

verus! {

/// Fixed-point scale: the representation of 1.0. A fixed-point value `v`
/// stands for the real number `v / FP_ONE`.
pub const FP_ONE: i64 = 1_000_000;

/// A pair of integer coordinates: a tile position in absolute world space,
/// or a chunk position in chunk space, depending on context.
#[derive(Clone, Copy, PartialEq, Eq, Structural, Hash, Debug)]
pub struct IVec2 {
    pub x: i32,
    pub y: i32,
}

impl IVec2 {
    pub fn new(x: i32, y: i32) -> (v: IVec2)
        ensures
            v == (IVec2 { x, y }),
    {
        IVec2 { x, y }
    }
}

} // verus!
