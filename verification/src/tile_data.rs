//! Tile attribute records and the discrete terrain categories derived from
//! them.

use vstd::prelude::*;

use crate::biome::{Biome, BLEND_BOUND, HEIGHT_BOUND};
use crate::FP_ONE;

verus! {

/// The closed set of discrete terrain categories, in band order from the
/// lowest heights to the highest.
#[derive(Clone, Copy, PartialEq, Eq, Structural, Hash, Debug)]
pub enum TileType {
    DeepWater,
    Water,
    Sand,
    Grass,
    Stone,
}

/// Position of a category in the ordered band sequence
/// DeepWater, Water, Sand, Grass, Stone.
pub open spec fn category_rank(t: TileType) -> int {
    match t {
        TileType::DeepWater => 0,
        TileType::Water => 1,
        TileType::Sand => 2,
        TileType::Grass => 3,
        TileType::Stone => 4,
    }
}

/// The continuous attributes sampled for one tile coordinate, in fixed-point
/// millionths: `height` drives the terrain band and `biome` is the auxiliary
/// humidity scalar that blends between biome profiles. Nominal values lie in
/// `[-FP_ONE, FP_ONE]`.
#[derive(Clone, Copy, PartialEq, Eq, Structural, Debug)]
pub struct TileData {
    pub height: i64,
    pub biome: i64,
}

impl TileData {
    /// Both attributes within the bounds that blended classification accepts.
    pub open spec fn in_bounds(self) -> bool {
        &&& -HEIGHT_BOUND <= self.height <= HEIGHT_BOUND
        &&& -(BLEND_BOUND - FP_ONE) <= self.biome <= BLEND_BOUND - FP_ONE
    }

    /// The category this record classifies to: the regular profile is the
    /// pivot, blended toward the wet profile for negative humidity and
    /// toward the dry profile for non-negative humidity.
    pub open spec fn tile_type_spec(self) -> TileType {
        if self.biome < 0 {
            Biome::regular_spec().classify_blended_spec(
                Biome::wet_spec(),
                self.height as int,
                FP_ONE + self.biome,
            )
        } else {
            Biome::regular_spec().classify_blended_spec(
                Biome::dry_spec(),
                self.height as int,
                FP_ONE - self.biome,
            )
        }
    }

    /// Classify this record into a terrain category. A humidity of
    /// `-FP_ONE` gives the pure wet profile, `0` the pure regular profile,
    /// and `FP_ONE` the pure dry profile, with exact blends in between.
    pub fn get_tile_type(&self) -> (t: TileType)
        requires
            self.in_bounds(),
        ensures
            t == self.tile_type_spec(),
    {
        let regular = Biome::regular();
        if self.biome < 0 {
            regular.evaluate_multibiome(&Biome::wet(), self.height, FP_ONE + self.biome)
        } else {
            regular.evaluate_multibiome(&Biome::dry(), self.height, FP_ONE - self.biome)
        }
    }

    /// The green intensity used to shade a tile by its height, in fixed-point
    /// millionths: the height remapped from `[-FP_ONE, FP_ONE]` to
    /// `[0, FP_ONE]`.
    pub fn get_color(&self) -> (green: i64)
        requires
            -FP_ONE <= self.height <= FP_ONE,
        ensures
            green == (self.height + FP_ONE) / 2,
            0 <= green <= FP_ONE,
    {
        let shifted: u64 = (self.height + FP_ONE) as u64;
        (shifted / 2) as i64
    }
}

} // verus!
