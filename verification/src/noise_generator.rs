//! The noise field sampler: deterministic, seeded, fixed-point noise over
//! world-space tile coordinates.
//!
//! Each attribute channel bilinearly interpolates pseudo-random lattice
//! values, so the field varies smoothly at the scale set by its resolution.
//! Sampling is a pure function of seed, channel, coordinate and resolution:
//! the world can always be regenerated without storing it.

use vstd::prelude::*;

use crate::game_map::CHUNK_SIZE;
use crate::tile_data::TileData;
use crate::{IVec2, FP_ONE};

verus! {

/// Largest world coordinate magnitude the sampler accepts. Any tile of any
/// chunk with 32-bit chunk coordinates lies well inside it.
pub const COORD_BOUND: i64 = 137_438_953_472;

/// Translation applied to world coordinates before scaling, so that every
/// accepted coordinate maps to a non-negative point of the noise field.
pub const COORD_OFFSET: i64 = 274_877_906_944;

/// Resolution of the humidity channel, in fixed-point millionths: fixed,
/// unlike the height channel's adjustable resolution.
pub const HUMIDITY_RESOLUTION: i64 = 22_000;

/// The height attribute's noise channel.
pub const HEIGHT_CHANNEL: u32 = 0;

/// The humidity attribute's noise channel.
pub const HUMIDITY_CHANNEL: u32 = 1;

/// Modulus of the lattice mixer, a prime.
pub const LATTICE_PRIME: u64 = 2_147_483_647;

/// Number of distinct lattice corner values: `2 * FP_ONE + 1`, covering
/// `[0, 2 * FP_ONE]` before the field is recentered around zero.
pub const LATTICE_SPAN: u64 = 2_000_001;

/// The runtime-adjustable sampling parameters: the resolution (frequency
/// scale) of the height channel, in fixed-point millionths. Changing it
/// affects only future samples.
#[derive(Clone, Copy, PartialEq, Eq, Structural, Debug)]
pub struct NoiseValues {
    pub resolution: i64,
}

impl NoiseValues {
    /// A usable resolution: positive and at most one lattice step per tile.
    pub open spec fn wf(self) -> bool {
        0 < self.resolution <= FP_ONE
    }
}

impl Default for NoiseValues {
    /// The default height resolution, 0.035 lattice steps per tile.
    fn default() -> (v: NoiseValues)
        ensures
            v.resolution == 35_000,
            v.wf(),
    {
        NoiseValues { resolution: 35_000 }
    }
}

/// The pseudo-random value of one lattice corner, in `[0, 2 * FP_ONE]`:
/// a keyed mix of the corner's cell coordinates, the seed and the channel,
/// folded twice through a quadratic congruence.
pub open spec fn corner_spec(seed: u32, channel: u32, cx: int, cy: int) -> int {
    let k = (cx * 73_856_093 + cy * 19_349_663 + seed * 83_492_791 + channel * 54_881_411)
        % (LATTICE_PRIME as int);
    let m = (k * k + 1_013_904_223) % (LATTICE_PRIME as int);
    let v = (m * k + 1_442_695_041) % (LATTICE_PRIME as int);
    v % (LATTICE_SPAN as int)
}

/// Fixed-point linear interpolation from `a` to `b` as `t` runs from `0`
/// to `FP_ONE`, rounded down.
pub open spec fn lerp_spec(a: int, b: int, t: int) -> int {
    (a * (FP_ONE - t) + b * t) / (FP_ONE as int)
}

/// The scaled, translated sampling point of one axis: which lattice cell a
/// coordinate falls in, and where inside that cell, both in fixed-point
/// millionths.
pub open spec fn scaled_axis_spec(x: int, resolution: int) -> int {
    (x + COORD_OFFSET) * resolution
}

/// The sampled noise value: bilinear interpolation of the four surrounding
/// lattice corner values, recentered to `[-FP_ONE, FP_ONE]`.
pub open spec fn sample_spec(seed: u32, channel: u32, x: int, y: int, resolution: int) -> int {
    let ux = scaled_axis_spec(x, resolution);
    let uy = scaled_axis_spec(y, resolution);
    let cx = ux / (FP_ONE as int);
    let fx = ux % (FP_ONE as int);
    let cy = uy / (FP_ONE as int);
    let fy = uy % (FP_ONE as int);
    let v00 = corner_spec(seed, channel, cx, cy);
    let v10 = corner_spec(seed, channel, cx + 1, cy);
    let v01 = corner_spec(seed, channel, cx, cy + 1);
    let v11 = corner_spec(seed, channel, cx + 1, cy + 1);
    lerp_spec(lerp_spec(v00, v10, fx), lerp_spec(v01, v11, fx), fy) - FP_ONE
}

/// One lattice corner value, on executable integers.
fn corner(seed: u32, channel: u32, cx: u64, cy: u64) -> (v: u64)
    requires
        cx <= 0x9000000000,
        cy <= 0x9000000000,
    ensures
        v == corner_spec(seed, channel, cx as int, cy as int),
        v < LATTICE_SPAN,
{
    let k: u128 = ((cx as u128) * 73_856_093 + (cy as u128) * 19_349_663 + (seed as u128)
        * 83_492_791 + (channel as u128) * 54_881_411) % (LATTICE_PRIME as u128);
    proof {
        assert(k * k + 1_013_904_223 < 0x100000000000000000000000000000000) by (nonlinear_arith)
            requires
                k < 2_147_483_647,
        ;
    }
    let m: u128 = (k * k + 1_013_904_223) % (LATTICE_PRIME as u128);
    proof {
        assert(m * k + 1_442_695_041 < 0x100000000000000000000000000000000) by (nonlinear_arith)
            requires
                k < 2_147_483_647,
                m < 2_147_483_647,
        ;
    }
    let v: u128 = (m * k + 1_442_695_041) % (LATTICE_PRIME as u128);
    (v % (LATTICE_SPAN as u128)) as u64
}

/// Fixed-point linear interpolation, on executable integers.
fn lerp(a: u64, b: u64, t: u64) -> (v: u64)
    requires
        a <= 2_000_000,
        b <= 2_000_000,
        t < 1_000_000,
    ensures
        v == lerp_spec(a as int, b as int, t as int),
        v <= 2_000_000,
{
    let f: u64 = FP_ONE as u64;
    proof {
        assert(a * (f - t) + b * t <= 2_000_000_000_000) by (nonlinear_arith)
            requires
                a <= 2_000_000,
                b <= 2_000_000,
                t < 1_000_000,
                f == 1_000_000,
        ;
        vstd::arithmetic::div_mod::lemma_div_is_ordered(
            (a * (f - t) + b * t) as int,
            2_000_000_000_000,
            1_000_000,
        );
    }
    (a * (f - t) + b * t) / f
}

/// The seeded sampler for all attribute channels. Height and humidity use
/// the same seed but distinct channels, so the two fields are decorrelated.
#[derive(Clone, Copy, PartialEq, Eq, Structural, Debug)]
pub struct NoiseGenerator {
    pub values: NoiseValues,
    pub seed: u32,
}

impl Default for NoiseGenerator {
    /// The default world: seed 42 with the default resolution.
    fn default() -> (g: NoiseGenerator)
        ensures
            g.seed == 42,
            g.values.resolution == 35_000,
            g.values.wf(),
    {
        NoiseGenerator { values: NoiseValues { resolution: 35_000 }, seed: 42 }
    }
}

impl NoiseGenerator {
    pub fn new(seed: u32, values: NoiseValues) -> (g: NoiseGenerator)
        ensures
            g == (NoiseGenerator { values, seed }),
    {
        NoiseGenerator { values, seed }
    }

    /// The attribute record owed to the tile at `tile_pos` within the chunk
    /// at `chunk_pos`: both channels sampled at the tile's absolute world
    /// coordinate.
    pub open spec fn tile_data_spec(self, chunk_pos: IVec2, tile_pos_x: u32, tile_pos_y: u32)
        -> TileData {
        let wx = chunk_pos.x * CHUNK_SIZE + tile_pos_x;
        let wy = chunk_pos.y * CHUNK_SIZE + tile_pos_y;
        TileData {
            height: sample_spec(
                self.seed,
                HEIGHT_CHANNEL,
                wx,
                wy,
                self.values.resolution as int,
            ) as i64,
            biome: sample_spec(
                self.seed,
                HUMIDITY_CHANNEL,
                wx,
                wy,
                HUMIDITY_RESOLUTION as int,
            ) as i64,
        }
    }

    /// Materialize the attribute record for one tile of one chunk: the
    /// absolute world coordinate is the chunk coordinate scaled by the chunk
    /// size plus the in-chunk offset, and each attribute is sampled there on
    /// its own channel.
    pub fn get_tile_data(&self, chunk_pos: IVec2, tile_pos_x: u32, tile_pos_y: u32) -> (d:
        TileData)
        requires
            self.values.wf(),
            tile_pos_x < CHUNK_SIZE,
            tile_pos_y < CHUNK_SIZE,
        ensures
            d == self.tile_data_spec(chunk_pos, tile_pos_x, tile_pos_y),
            -FP_ONE <= d.height <= FP_ONE,
            -FP_ONE <= d.biome <= FP_ONE,
            d.in_bounds(),
    {
        let x: i64 = (chunk_pos.x as i64) * (CHUNK_SIZE as i64) + (tile_pos_x as i64);
        let y: i64 = (chunk_pos.y as i64) * (CHUNK_SIZE as i64) + (tile_pos_y as i64);
        TileData {
            height: self.sample(HEIGHT_CHANNEL, x, y, self.values.resolution),
            biome: self.sample(HUMIDITY_CHANNEL, x, y, HUMIDITY_RESOLUTION),
        }
    }

    /// Sample one noise channel at a world coordinate. The result is a pure
    /// function of seed, channel, coordinate and resolution, and lies in
    /// `[-FP_ONE, FP_ONE]`.
    pub fn sample(&self, channel: u32, x: i64, y: i64, resolution: i64) -> (v: i64)
        requires
            -COORD_BOUND <= x <= COORD_BOUND,
            -COORD_BOUND <= y <= COORD_BOUND,
            0 < resolution <= FP_ONE,
        ensures
            v == sample_spec(self.seed, channel, x as int, y as int, resolution as int),
            -FP_ONE <= v <= FP_ONE,
    {
        let (cx, fx) = scaled_axis(x, resolution);
        let (cy, fy) = scaled_axis(y, resolution);
        let v00 = corner(self.seed, channel, cx, cy);
        let v10 = corner(self.seed, channel, cx + 1, cy);
        let v01 = corner(self.seed, channel, cx, cy + 1);
        let v11 = corner(self.seed, channel, cx + 1, cy + 1);
        let bottom = lerp(v00, v10, fx);
        let top = lerp(v01, v11, fx);
        let mixed = lerp(bottom, top, fy);
        (mixed as i64) - FP_ONE
    }
}

/// The lattice cell and in-cell position of one axis, on executable
/// integers.
fn scaled_axis(x: i64, resolution: i64) -> (r: (u64, u64))
    requires
        -COORD_BOUND <= x <= COORD_BOUND,
        0 < resolution <= FP_ONE,
    ensures
        r.0 == scaled_axis_spec(x as int, resolution as int) / (FP_ONE as int),
        r.1 == scaled_axis_spec(x as int, resolution as int) % (FP_ONE as int),
        r.0 <= 0x8000000000,
        r.1 < 1_000_000,
{
    let shifted: u64 = (x + COORD_OFFSET) as u64;
    proof {
        assert(shifted * resolution <= 0x8000000000 * 1_000_000) by (nonlinear_arith)
            requires
                shifted <= 0x6000000000,
                0 < resolution <= 1_000_000,
        ;
        assert(shifted * resolution == scaled_axis_spec(x as int, resolution as int));
        vstd::arithmetic::div_mod::lemma_div_is_ordered(
            (shifted * resolution) as int,
            0x8000000000int * 1_000_000int,
            1_000_000,
        );
        vstd::arithmetic::div_mod::lemma_div_by_multiple(0x8000000000int, 1_000_000int);
    }
    let u: u64 = shifted * (resolution as u64);
    (u / (FP_ONE as u64), u % (FP_ONE as u64))
}

/// Sampling is deterministic: two samples that agree on seed, channel,
/// coordinate and resolution are identical, bit for bit. The sampled value
/// is a mathematical function of those four inputs and of nothing else.
pub proof fn lemma_sampling_deterministic(
    seed: u32,
    channel: u32,
    x: int,
    y: int,
    resolution: int,
    v1: i64,
    v2: i64,
)
    requires
        v1 == sample_spec(seed, channel, x, y, resolution),
        v2 == sample_spec(seed, channel, x, y, resolution),
    ensures
        v1 == v2,
{
}

} // verus!
