//! Biome profiles: ascending height thresholds that partition the height
//! axis into terrain categories, with exact linear blending between two
//! profiles.

use vstd::prelude::*;

use crate::tile_data::{category_rank, TileType};
use crate::FP_ONE;

verus! {

/// Magnitude bound accepted for thresholds and blend weights, in fixed-point
/// millionths (one thousand whole units). Keeps every product taken during
/// blended classification well inside `i64`.
pub const BLEND_BOUND: i64 = 1_000_000_000;

/// Magnitude bound accepted for heights, in fixed-point millionths (one
/// million whole units).
pub const HEIGHT_BOUND: i64 = 1_000_000_000_000;

/// A biome profile: four height thresholds, in fixed-point millionths,
/// bounding the terrain bands from below. Heights below `deep_water` are
/// deep water; each following threshold opens the next band, and heights at
/// or above `grass` are stone. Every band is half-open: a height exactly
/// equal to a threshold belongs to the band above it.
#[derive(Clone, Copy, PartialEq, Eq, Structural, Debug)]
pub struct Biome {
    pub deep_water: i64,
    pub water: i64,
    pub sand: i64,
    pub grass: i64,
}

impl Biome {
    /// Well-formed thresholds: strictly ascending, so that no band is
    /// inverted, and within the magnitude bound of blended classification.
    pub open spec fn wf(self) -> bool {
        &&& self.deep_water < self.water < self.sand < self.grass
        &&& self.in_bounds()
    }

    /// All four thresholds within the magnitude bound of blended
    /// classification.
    pub open spec fn in_bounds(self) -> bool {
        &&& -BLEND_BOUND <= self.deep_water <= BLEND_BOUND
        &&& -BLEND_BOUND <= self.water <= BLEND_BOUND
        &&& -BLEND_BOUND <= self.sand <= BLEND_BOUND
        &&& -BLEND_BOUND <= self.grass <= BLEND_BOUND
    }

    /// Build a profile, rejecting thresholds that are not strictly ascending
    /// or that exceed the magnitude bound. Malformed thresholds would
    /// produce corrupted bands, so they fail fast here rather than at
    /// classification time.
    pub fn new(deep_water: i64, water: i64, sand: i64, grass: i64) -> (r: Option<Biome>)
        ensures
            r is Some <==> (Biome { deep_water, water, sand, grass }).wf(),
            r matches Some(b) ==> b == (Biome { deep_water, water, sand, grass }),
    {
        if deep_water < water && water < sand && sand < grass && -BLEND_BOUND <= deep_water
            && grass <= BLEND_BOUND {
            Some(Biome { deep_water, water, sand, grass })
        } else {
            None
        }
    }

    /// The wet canonical profile. Its `sand` and `grass` thresholds
    /// coincide, leaving the grass band empty: wet terrain goes straight
    /// from sand to stone.
    pub open spec fn wet_spec() -> Biome {
        Biome { deep_water: -100_000i64, water: 100_000i64, sand: 300_000i64, grass: 300_000i64 }
    }

    /// The regular canonical profile, the pivot of humidity blending.
    pub open spec fn regular_spec() -> Biome {
        Biome { deep_water: -400_000i64, water: -300_000i64, sand: -200_000i64, grass: 400_000i64 }
    }

    /// The dry canonical profile. Its `sand` and `grass` thresholds
    /// coincide, leaving the grass band empty: dry terrain goes straight
    /// from sand to stone.
    pub open spec fn dry_spec() -> Biome {
        Biome { deep_water: -600_000i64, water: -500_000i64, sand: 200_000i64, grass: 200_000i64 }
    }

    pub fn wet() -> (b: Biome)
        ensures
            b == Biome::wet_spec(),
    {
        Biome { deep_water: -100_000i64, water: 100_000i64, sand: 300_000i64, grass: 300_000i64 }
    }

    pub fn regular() -> (b: Biome)
        ensures
            b == Biome::regular_spec(),
    {
        Biome { deep_water: -400_000i64, water: -300_000i64, sand: -200_000i64, grass: 400_000i64 }
    }

    pub fn dry() -> (b: Biome)
        ensures
            b == Biome::dry_spec(),
    {
        Biome { deep_water: -600_000i64, water: -500_000i64, sand: 200_000i64, grass: 200_000i64 }
    }

    /// Sequential strict less-than classification against this profile's
    /// thresholds: the first band whose threshold exceeds the height wins,
    /// and heights at or above every threshold are stone.
    pub open spec fn classify_spec(self, h: int) -> TileType {
        if h < self.deep_water {
            TileType::DeepWater
        } else if h < self.water {
            TileType::Water
        } else if h < self.sand {
            TileType::Sand
        } else if h < self.grass {
            TileType::Grass
        } else {
            TileType::Stone
        }
    }

    /// Classification against the blend of this profile (weight `w`) with
    /// `other` (weight `FP_ONE - w`), band by band. Each comparison is the
    /// exact rational inequality `h < (a * w + b * (1 - w)) / FP_ONE`,
    /// cleared of its denominators.
    pub open spec fn classify_blended_spec(self, other: Biome, h: int, w: int) -> TileType {
        if blend_below(h, self.deep_water as int, other.deep_water as int, w) {
            TileType::DeepWater
        } else if blend_below(h, self.water as int, other.water as int, w) {
            TileType::Water
        } else if blend_below(h, self.sand as int, other.sand as int, w) {
            TileType::Sand
        } else if blend_below(h, self.grass as int, other.grass as int, w) {
            TileType::Grass
        } else {
            TileType::Stone
        }
    }

    /// Classify a height against this profile alone.
    pub fn evaluate(&self, height: i64) -> (t: TileType)
        ensures
            t == self.classify_spec(height as int),
    {
        if height < self.deep_water {
            return TileType::DeepWater;
        }
        if height < self.water {
            return TileType::Water;
        }
        if height < self.sand {
            return TileType::Sand;
        }
        if height < self.grass {
            return TileType::Grass;
        }
        TileType::Stone
    }

    /// Classify a height against the blend of this profile and `other`,
    /// where `strength_this` is this profile's weight in fixed-point
    /// millionths. Weights outside `[0, FP_ONE]` are taken as they are:
    /// the blend extrapolates rather than clamps.
    pub fn evaluate_multibiome(&self, other: &Biome, height: i64, strength_this: i64) -> (t:
        TileType)
        requires
            self.in_bounds(),
            other.in_bounds(),
            -HEIGHT_BOUND <= height <= HEIGHT_BOUND,
            -BLEND_BOUND <= strength_this <= BLEND_BOUND,
        ensures
            t == self.classify_blended_spec(*other, height as int, strength_this as int),
    {
        if blended_lt(height, self.deep_water, other.deep_water, strength_this) {
            return TileType::DeepWater;
        }
        if blended_lt(height, self.water, other.water, strength_this) {
            return TileType::Water;
        }
        if blended_lt(height, self.sand, other.sand, strength_this) {
            return TileType::Sand;
        }
        if blended_lt(height, self.grass, other.grass, strength_this) {
            return TileType::Grass;
        }
        TileType::Stone
    }
}

/// Whether height `h` lies strictly below the weight-`w` blend of
/// thresholds `a` and `b`, as an exact integer inequality with the
/// fixed-point denominators cleared.
pub open spec fn blend_below(h: int, a: int, b: int, w: int) -> bool {
    FP_ONE * h < a * w + b * (FP_ONE - w)
}

/// One band test of blended classification, on executable integers.
fn blended_lt(height: i64, a: i64, b: i64, w: i64) -> (r: bool)
    requires
        -HEIGHT_BOUND <= height <= HEIGHT_BOUND,
        -BLEND_BOUND <= a <= BLEND_BOUND,
        -BLEND_BOUND <= b <= BLEND_BOUND,
        -BLEND_BOUND <= w <= BLEND_BOUND,
    ensures
        r == blend_below(height as int, a as int, b as int, w as int),
{
    proof {
        assert(-1_000_000_000_000_000_000 <= FP_ONE * height <= 1_000_000_000_000_000_000) by (nonlinear_arith)
            requires
                -1_000_000_000_000i64 <= height <= 1_000_000_000_000i64,
        ;
        assert(-1_000_000_000_000_000_000 <= a * w <= 1_000_000_000_000_000_000) by (nonlinear_arith)
            requires
                -1_000_000_000i64 <= a <= 1_000_000_000i64,
                -1_000_000_000i64 <= w <= 1_000_000_000i64,
        ;
        assert(-1_001_000_000_000_000_000 <= b * (FP_ONE - w) <= 1_001_000_000_000_000_000) by (nonlinear_arith)
            requires
                -1_000_000_000i64 <= b <= 1_000_000_000i64,
                -999_000_000i64 <= FP_ONE - w <= 1_001_000_000i64,
        ;
    }
    FP_ONE * height < a * w + b * (FP_ONE - w)
}

/// Classification is monotonic in height: raising the height never moves
/// the result to an earlier category in the band order, whatever the
/// thresholds are.
pub proof fn lemma_classify_monotonic(b: Biome, h1: int, h2: int)
    requires
        h1 <= h2,
    ensures
        category_rank(b.classify_spec(h1)) <= category_rank(b.classify_spec(h2)),
{
}

/// At weight `FP_ONE` the blend is exactly the base profile; at weight `0`
/// it is exactly the secondary profile.
pub proof fn lemma_blend_endpoints(a: Biome, b: Biome, h: int)
    ensures
        a.classify_blended_spec(b, h, FP_ONE as int) == a.classify_spec(h),
        a.classify_blended_spec(b, h, 0) == b.classify_spec(h),
{
    lemma_blend_full(h, a.deep_water as int, b.deep_water as int);
    lemma_blend_full(h, a.water as int, b.water as int);
    lemma_blend_full(h, a.sand as int, b.sand as int);
    lemma_blend_full(h, a.grass as int, b.grass as int);
    lemma_blend_zero(h, a.deep_water as int, b.deep_water as int);
    lemma_blend_zero(h, a.water as int, b.water as int);
    lemma_blend_zero(h, a.sand as int, b.sand as int);
    lemma_blend_zero(h, a.grass as int, b.grass as int);
}

proof fn lemma_blend_full(h: int, a: int, b: int)
    ensures
        blend_below(h, a, b, FP_ONE as int) <==> h < a,
{
    assert(FP_ONE * h < a * (FP_ONE as int) + b * (FP_ONE - FP_ONE) <==> h < a)
        by (nonlinear_arith);
}

proof fn lemma_blend_zero(h: int, a: int, b: int)
    ensures
        blend_below(h, a, b, 0) <==> h < b,
{
    assert(FP_ONE * h < a * 0 + b * (FP_ONE - 0) <==> h < b) by (nonlinear_arith);
}

/// A height exactly equal to a threshold of a well-formed profile lands in
/// the band above that threshold, by the strict less-than rule.
pub proof fn lemma_boundary_in_higher_band(b: Biome)
    requires
        b.deep_water < b.water < b.sand < b.grass,
    ensures
        b.classify_spec(b.deep_water as int) == TileType::Water,
        b.classify_spec(b.water as int) == TileType::Sand,
        b.classify_spec(b.sand as int) == TileType::Grass,
        b.classify_spec(b.grass as int) == TileType::Stone,
{
}

} // verus!


