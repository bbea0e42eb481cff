//! Chunk arithmetic, tile materialization, and the chunk streaming manager.
//!
//! The manager owns the authoritative set of spawned chunk coordinates and,
//! once per tick, decides at most one spawn and at most one despawn around
//! the viewpoint's chunk. The despawn threshold exceeds the spawn
//! half-extent by a margin of one chunk, so a chunk sitting exactly on the
//! spawn boundary is never evicted while the viewpoint stands still.

use vstd::prelude::*;

use crate::noise_generator::NoiseGenerator;
use crate::tile_data::{TileData, TileType};
use crate::IVec2;

verus! {

/// Side length of a chunk, in tiles: chunks are fixed-size square blocks.
pub const CHUNK_SIZE: u32 = 32;

/// Tag of the chunk that a materialized block of tiles belongs to.
#[derive(Clone, Copy, PartialEq, Eq, Structural, Debug)]
pub struct ChunkData {
    pub position: IVec2,
}

/// Everything the rendering collaborator needs for one tile of a freshly
/// spawned chunk: the in-chunk offset, the sampled attribute record, its
/// terrain category, and the texture slot that category maps to.
#[derive(Clone, Copy, PartialEq, Eq, Structural, Debug)]
pub struct TileRecord {
    pub tile_pos_x: u32,
    pub tile_pos_y: u32,
    pub data: TileData,
    pub tile_type: TileType,
    pub texture_index: u32,
}

/// The texture slot of each terrain category.
pub open spec fn texture_index_spec(t: TileType) -> int {
    match t {
        TileType::Water => 0,
        TileType::Sand => 1,
        TileType::Grass => 2,
        TileType::Stone => 3,
        TileType::DeepWater => 4,
    }
}

/// Map a terrain category to its texture slot.
pub fn tile_type_to_texture_index(tile_type: &TileType) -> (i: u32)
    ensures
        i == texture_index_spec(*tile_type),
{
    match tile_type {
        TileType::Water => 0,
        TileType::Sand => 1,
        TileType::Grass => 2,
        TileType::Stone => 3,
        TileType::DeepWater => 4,
    }
}

/// World tile coordinate of one axis to its chunk coordinate: floor
/// division by the chunk size, rounding toward negative infinity.
pub open spec fn world_to_chunk_spec(x: int) -> int {
    x / (CHUNK_SIZE as int)
}

/// In-chunk offset of one axis: the remainder left by the chunk, always in
/// `[0, CHUNK_SIZE)`.
pub open spec fn world_to_local_spec(x: int) -> int {
    x % (CHUNK_SIZE as int)
}

/// Absolute world coordinate of one axis rebuilt from a chunk coordinate
/// and an in-chunk offset.
pub open spec fn chunk_local_to_world_spec(c: int, l: int) -> int {
    c * (CHUNK_SIZE as int) + l
}

/// Splitting a world coordinate into chunk and local offset and rebuilding
/// it recovers the coordinate exactly, negative coordinates included, and
/// the offset always lies in `[0, CHUNK_SIZE)`.
pub proof fn lemma_world_chunk_roundtrip(x: int)
    ensures
        chunk_local_to_world_spec(world_to_chunk_spec(x), world_to_local_spec(x)) == x,
        0 <= world_to_local_spec(x) < CHUNK_SIZE,
{
    vstd::arithmetic::div_mod::lemma_fundamental_div_mod(x, CHUNK_SIZE as int);
    vstd::arithmetic::div_mod::lemma_mod_bound(x, CHUNK_SIZE as int);
    vstd::arithmetic::mul::lemma_mul_is_commutative(CHUNK_SIZE as int, world_to_chunk_spec(x));
}

/// World tile coordinate to chunk coordinate: floor division by the chunk
/// size per axis, so negative coordinates round toward negative infinity.
pub fn camera_pos_to_chunk_pos(camera_pos: IVec2) -> (c: IVec2)
    ensures
        c.x == world_to_chunk_spec(camera_pos.x as int),
        c.y == world_to_chunk_spec(camera_pos.y as int),
{
    IVec2 { x: floor_div_chunk(camera_pos.x), y: floor_div_chunk(camera_pos.y) }
}

/// In-chunk tile offset of a world coordinate, per axis.
pub fn world_pos_to_local_offset(world_pos: IVec2) -> (l: (u32, u32))
    ensures
        l.0 == world_to_local_spec(world_pos.x as int),
        l.1 == world_to_local_spec(world_pos.y as int),
        l.0 < CHUNK_SIZE,
        l.1 < CHUNK_SIZE,
{
    (floor_mod_chunk(world_pos.x), floor_mod_chunk(world_pos.y))
}

/// Rebuild the absolute world coordinate of a tile from its chunk
/// coordinate and in-chunk offset.
pub fn chunk_local_to_world(chunk_pos: IVec2, local_x: u32, local_y: u32) -> (w: IVec2)
    requires
        local_x < CHUNK_SIZE,
        local_y < CHUNK_SIZE,
        -67_108_864 <= chunk_pos.x <= 67_108_863,
        -67_108_864 <= chunk_pos.y <= 67_108_863,
    ensures
        w.x == chunk_local_to_world_spec(chunk_pos.x as int, local_x as int),
        w.y == chunk_local_to_world_spec(chunk_pos.y as int, local_y as int),
{
    IVec2 { x: chunk_pos.x * 32 + (local_x as i32), y: chunk_pos.y * 32 + (local_y as i32) }
}

/// Floor division of one world axis by the chunk size.
fn floor_div_chunk(a: i32) -> (q: i32)
    ensures
        q == world_to_chunk_spec(a as int),
{
    let b: u64 = CHUNK_SIZE as u64;
    if a >= 0 {
        let q64: u64 = (a as u64) / b;
        q64 as i32
    } else {
        let m: u64 = (-(a as i64)) as u64;
        let q64: u64 = (m + b - 1) / b;
        proof {
            lemma_neg_ceil_div(a as int, b as int);
        }
        -(q64 as i32)
    }
}

/// Remainder of one world axis by the chunk size, in `[0, CHUNK_SIZE)`.
fn floor_mod_chunk(a: i32) -> (r: u32)
    ensures
        r == world_to_local_spec(a as int),
        r < CHUNK_SIZE,
{
    let q: i32 = floor_div_chunk(a);
    proof {
        lemma_world_chunk_roundtrip(a as int);
    }
    let w: i64 = (a as i64) - (q as i64) * (CHUNK_SIZE as i64);
    w as u32
}

/// For `a < 0 < b`, the floor quotient `a / b` is the negated ceiling
/// quotient of the magnitudes: `a / b == -((-a + b - 1) / b)`.
proof fn lemma_neg_ceil_div(a: int, b: int)
    requires
        a < 0,
        0 < b,
    ensures
        a / b == -(((-a) + b - 1) / b),
{
    let m = -a;
    vstd::arithmetic::div_mod::lemma_fundamental_div_mod(a, b);
    vstd::arithmetic::div_mod::lemma_fundamental_div_mod(m + b - 1, b);
    vstd::arithmetic::div_mod::lemma_mod_bound(a, b);
    vstd::arithmetic::div_mod::lemma_mod_bound(m + b - 1, b);
    let q = a / b;
    let r = a % b;
    let qc = (m + b - 1) / b;
    let rc = (m + b - 1) % b;
    assert(a == b * q + r);
    assert(m + b - 1 == b * qc + rc);
    assert(b * qc == b * (-q) + (b - 1 - r - rc)) by (nonlinear_arith)
        requires
            a == b * q + r,
            m == -a,
            m + b - 1 == b * qc + rc,
    ;
    assert(qc == -q) by (nonlinear_arith)
        requires
            b * qc == b * (-q) + (b - 1 - r - rc),
            0 <= r < b,
            0 <= rc < b,
            0 < b,
    ;
}

/// The spawn half-extent implied by a visible area: half the visible
/// extent in tiles per axis, divided by the chunk size, plus a margin of
/// one chunk, so streaming tracks the viewport rather than a fixed radius.
pub fn calculate_ideal_chunk_spawn_distance(view_width: u32, view_height: u32) -> (d: IVec2)
    ensures
        d.x == view_width as int / (CHUNK_SIZE as int) + 1,
        d.y == view_height as int / (CHUNK_SIZE as int) + 1,
        1 <= d.x,
        1 <= d.y,
{
    IVec2 { x: (view_width / CHUNK_SIZE + 1) as i32, y: (view_height / CHUNK_SIZE + 1) as i32 }
}

/// The rectangular neighborhood of chunks that must be spawned around the
/// viewpoint's chunk: half-open per axis, from `camera - dist` inclusive to
/// `camera + dist` exclusive.
pub open spec fn in_spawn_region(p: IVec2, camera_chunk: IVec2, dist: IVec2) -> bool {
    &&& camera_chunk.x - dist.x <= p.x < camera_chunk.x + dist.x
    &&& camera_chunk.y - dist.y <= p.y < camera_chunk.y + dist.y
}

/// Row-major scan order over chunk coordinates: `p` is visited before `q`.
pub open spec fn scanned_before(p: IVec2, q: IVec2) -> bool {
    p.y < q.y || (p.y == q.y && p.x < q.x)
}

/// Distance between two chunk coordinates along one axis.
pub open spec fn axis_distance(a: int, b: int) -> int {
    if a >= b {
        a - b
    } else {
        b - a
    }
}

/// Whether a spawned chunk has drifted far enough from the viewpoint's
/// chunk to be evicted: strictly beyond the spawn half-extent plus a
/// margin of one chunk, on either axis.
pub open spec fn out_of_despawn_range(p: IVec2, camera_chunk: IVec2, dist: IVec2) -> bool {
    ||| axis_distance(p.x as int, camera_chunk.x as int) > dist.x + 1
    ||| axis_distance(p.y as int, camera_chunk.y as int) > dist.y + 1
}

/// Every chunk of the spawn region, and every chunk within the spawn
/// half-extent of the viewpoint's chunk on both axes, lies inside the
/// despawn threshold: the margin keeps boundary chunks from flapping.
pub proof fn lemma_spawn_region_within_despawn_threshold(p: IVec2, camera_chunk: IVec2, dist: IVec2)
    requires
        in_spawn_region(p, camera_chunk, dist) || (axis_distance(p.x as int, camera_chunk.x as int)
            <= dist.x && axis_distance(p.y as int, camera_chunk.y as int) <= dist.y),
    ensures
        !out_of_despawn_range(p, camera_chunk, dist),
{
}

/// The authoritative bookkeeping of which chunk coordinates currently have
/// a materialized chunk: a coordinate is in the view exactly while its
/// chunk exists in the world, and never twice.
pub struct ChunkManager {
    spawned_chunks: Vec<IVec2>,
}

impl View for ChunkManager {
    type V = Seq<IVec2>;

    closed spec fn view(&self) -> Seq<IVec2> {
        self.spawned_chunks@
    }
}

impl Default for ChunkManager {
    /// A world with nothing spawned yet.
    fn default() -> (m: ChunkManager)
        ensures
            m@ == Seq::<IVec2>::empty(),
            m.wf(),
    {
        ChunkManager { spawned_chunks: Vec::new() }
    }
}

impl ChunkManager {
    /// No chunk coordinate is recorded as spawned twice.
    pub open spec fn wf(self) -> bool {
        self@.no_duplicates()
    }

    /// A world with nothing spawned yet.
    pub fn new() -> (m: ChunkManager)
        ensures
            m@ == Seq::<IVec2>::empty(),
            m.wf(),
    {
        ChunkManager { spawned_chunks: Vec::new() }
    }

    /// How many chunks are currently spawned.
    pub fn spawned_count(&self) -> (n: usize)
        ensures
            n == self@.len(),
    {
        self.spawned_chunks.len()
    }

    /// The spawned chunk coordinate at one scan position.
    pub fn spawned_at(&self, i: usize) -> (p: IVec2)
        requires
            i < self@.len(),
        ensures
            p == self@[i as int],
    {
        self.spawned_chunks[i]
    }

    /// Whether a chunk coordinate is currently spawned.
    pub fn is_spawned(&self, pos: IVec2) -> (r: bool)
        ensures
            r == self@.contains(pos),
    {
        let n = self.spawned_chunks.len();
        let mut i: usize = 0;
        while i < n
            invariant
                i <= n,
                n == self@.len(),
                forall|j: int| 0 <= j < i ==> self@[j] != pos,
            decreases n - i,
        {
            if self.spawned_chunks[i] == pos {
                return true;
            }
            i = i + 1;
        }
        false
    }

    /// One spawn step of the per-tick streaming algorithm: scan the spawn
    /// region in row-major order and spawn the first chunk found missing,
    /// or report that the whole region is already spawned. At most one
    /// chunk spawns per tick, and never one that is already spawned.
    #[verifier::loop_isolation(false)]
    pub fn spawn_chunks_around_camera(
        &mut self,
        camera_chunk_pos: IVec2,
        chunk_spawn_distance: IVec2,
    ) -> (spawned: Option<IVec2>)
        requires
            old(self).wf(),
            0 <= chunk_spawn_distance.x,
            0 <= chunk_spawn_distance.y,
            i32::MIN <= camera_chunk_pos.x - chunk_spawn_distance.x,
            camera_chunk_pos.x + chunk_spawn_distance.x <= i32::MAX,
            i32::MIN <= camera_chunk_pos.y - chunk_spawn_distance.y,
            camera_chunk_pos.y + chunk_spawn_distance.y <= i32::MAX,
        ensures
            final(self).wf(),
            spawned is None ==> final(self)@ == old(self)@ && forall|p: IVec2|
                #[trigger] in_spawn_region(p, camera_chunk_pos, chunk_spawn_distance) ==> old(
                self,
            )@.contains(p),
            spawned matches Some(c) ==> {
                &&& in_spawn_region(c, camera_chunk_pos, chunk_spawn_distance)
                &&& !old(self)@.contains(c)
                &&& final(self)@ == old(self)@.push(c)
                &&& forall|p: IVec2|
                    #[trigger] in_spawn_region(p, camera_chunk_pos, chunk_spawn_distance)
                        && scanned_before(p, c) ==> old(self)@.contains(p)
            },
    {
        let x_lo: i32 = camera_chunk_pos.x - chunk_spawn_distance.x;
        let x_hi: i32 = camera_chunk_pos.x + chunk_spawn_distance.x;
        let y_lo: i32 = camera_chunk_pos.y - chunk_spawn_distance.y;
        let y_hi: i32 = camera_chunk_pos.y + chunk_spawn_distance.y;
        let mut y: i32 = y_lo;
        while y < y_hi
            invariant
                y_lo <= y <= y_hi,
                self == old(self),
                forall|p: IVec2|
                    #[trigger] in_spawn_region(p, camera_chunk_pos, chunk_spawn_distance) && p.y
                        < y ==> old(self)@.contains(p),
            decreases y_hi - y,
        {
            let mut x: i32 = x_lo;
            while x < x_hi
                invariant
                    x_lo <= x <= x_hi,
                    y_lo <= y < y_hi,
                    self == old(self),
                    forall|p: IVec2|
                        #[trigger] in_spawn_region(p, camera_chunk_pos, chunk_spawn_distance)
                            && p.y < y ==> old(self)@.contains(p),
                    forall|p: IVec2|
                        #[trigger] in_spawn_region(p, camera_chunk_pos, chunk_spawn_distance)
                            && p.y == y && p.x < x ==> old(self)@.contains(p),
                decreases x_hi - x,
            {
                let chunk = IVec2 { x, y };
                if !self.is_spawned(chunk) {
                    proof {
                        lemma_push_preserves(self@, chunk);
                    }
                    self.spawned_chunks.push(chunk);
                    return Some(chunk);
                }
                x = x + 1;
            }
            y = y + 1;
        }
        None
    }

    /// One despawn step of the per-tick streaming algorithm: scan the
    /// spawned chunks in order and evict the first one found strictly
    /// beyond the despawn threshold, or report that every spawned chunk is
    /// still in range. At most one chunk despawns per tick, and every chunk
    /// within the threshold survives.
    pub fn despawn_out_of_range_chunks(
        &mut self,
        camera_chunk_pos: IVec2,
        chunk_spawn_distance: IVec2,
    ) -> (despawned: Option<IVec2>)
        requires
            old(self).wf(),
        ensures
            final(self).wf(),
            despawned is None ==> final(self)@ == old(self)@ && forall|i: int|
                0 <= i < old(self)@.len() ==> !out_of_despawn_range(
                    #[trigger] old(self)@[i],
                    camera_chunk_pos,
                    chunk_spawn_distance,
                ),
            despawned matches Some(c) ==> {
                &&& out_of_despawn_range(c, camera_chunk_pos, chunk_spawn_distance)
                &&& old(self)@.contains(c)
                &&& exists|i: int|
                    {
                        &&& 0 <= i < old(self)@.len()
                        &&& old(self)@[i] == c
                        &&& final(self)@ == old(self)@.remove(i)
                        &&& forall|j: int| 0 <= j < i ==> !out_of_despawn_range(
                            #[trigger] old(self)@[j],
                            camera_chunk_pos,
                            chunk_spawn_distance,
                        )
                    }
            },
            forall|p: IVec2|
                old(self)@.contains(p) && !out_of_despawn_range(
                    p,
                    camera_chunk_pos,
                    chunk_spawn_distance,
                ) ==> #[trigger] final(self)@.contains(p),
            forall|p: IVec2| #[trigger] final(self)@.contains(p) ==> old(self)@.contains(p),
    {
        let n = self.spawned_chunks.len();
        let mut i: usize = 0;
        while i < n
            invariant
                i <= n,
                n == self@.len(),
                self == old(self),
                old(self).wf(),
                forall|j: int| 0 <= j < i ==> !out_of_despawn_range(
                    #[trigger] old(self)@[j],
                    camera_chunk_pos,
                    chunk_spawn_distance,
                ),
            decreases n - i,
        {
            let p = self.spawned_chunks[i];
            let dx: i64 = (p.x as i64) - (camera_chunk_pos.x as i64);
            let adx: i64 = if dx < 0 {
                -dx
            } else {
                dx
            };
            let dy: i64 = (p.y as i64) - (camera_chunk_pos.y as i64);
            let ady: i64 = if dy < 0 {
                -dy
            } else {
                dy
            };
            if adx > (chunk_spawn_distance.x as i64) + 1 || ady > (chunk_spawn_distance.y as i64)
                + 1 {
                proof {
                    lemma_remove_preserves(self@, i as int);
                }
                self.spawned_chunks.remove(i);
                return Some(p);
            }
            i = i + 1;
        }
        None
    }
}

impl ChunkManager {
    /// Spawn every missing chunk of the spawn region in one call: the batch
    /// variant of the spawn scan, trading the per-tick cost bound for
    /// immediate convergence. Afterwards the spawned set holds exactly what
    /// it held before plus the whole spawn region, and the returned list
    /// names each chunk that was actually spawned, once.
    #[verifier::loop_isolation(false)]
    pub fn spawn_all_chunks_around_camera(
        &mut self,
        camera_chunk_pos: IVec2,
        chunk_spawn_distance: IVec2,
    ) -> (newly: Vec<IVec2>)
        requires
            old(self).wf(),
            0 <= chunk_spawn_distance.x,
            0 <= chunk_spawn_distance.y,
            i32::MIN <= camera_chunk_pos.x - chunk_spawn_distance.x,
            camera_chunk_pos.x + chunk_spawn_distance.x <= i32::MAX,
            i32::MIN <= camera_chunk_pos.y - chunk_spawn_distance.y,
            camera_chunk_pos.y + chunk_spawn_distance.y <= i32::MAX,
        ensures
            final(self).wf(),
            forall|p: IVec2|
                #[trigger] final(self)@.contains(p) <==> old(self)@.contains(p) || in_spawn_region(
                    p,
                    camera_chunk_pos,
                    chunk_spawn_distance,
                ),
            newly@.no_duplicates(),
            forall|p: IVec2|
                #[trigger] newly@.contains(p) <==> in_spawn_region(
                    p,
                    camera_chunk_pos,
                    chunk_spawn_distance,
                ) && !old(self)@.contains(p),
    {
        let x_lo: i32 = camera_chunk_pos.x - chunk_spawn_distance.x;
        let x_hi: i32 = camera_chunk_pos.x + chunk_spawn_distance.x;
        let y_lo: i32 = camera_chunk_pos.y - chunk_spawn_distance.y;
        let y_hi: i32 = camera_chunk_pos.y + chunk_spawn_distance.y;
        let mut newly: Vec<IVec2> = Vec::new();
        let mut y: i32 = y_lo;
        while y < y_hi
            invariant
                y_lo <= y <= y_hi,
                self.wf(),
                newly@.no_duplicates(),
                forall|p: IVec2| old(self)@.contains(p) ==> #[trigger] self@.contains(p),
                forall|p: IVec2|
                    #[trigger] self@.contains(p) ==> old(self)@.contains(p) || (in_spawn_region(
                        p,
                        camera_chunk_pos,
                        chunk_spawn_distance,
                    ) && p.y < y),
                forall|p: IVec2|
                    #[trigger] in_spawn_region(p, camera_chunk_pos, chunk_spawn_distance) && p.y
                        < y ==> self@.contains(p),
                forall|p: IVec2|
                    #[trigger] newly@.contains(p) <==> (in_spawn_region(
                        p,
                        camera_chunk_pos,
                        chunk_spawn_distance,
                    ) && p.y < y && !old(self)@.contains(p)),
            decreases y_hi - y,
        {
            let mut x: i32 = x_lo;
            while x < x_hi
                invariant
                    x_lo <= x <= x_hi,
                    y_lo <= y < y_hi,
                    self.wf(),
                    newly@.no_duplicates(),
                    forall|p: IVec2| old(self)@.contains(p) ==> #[trigger] self@.contains(p),
                    forall|p: IVec2|
                        #[trigger] self@.contains(p) ==> old(self)@.contains(p) || (
                        in_spawn_region(p, camera_chunk_pos, chunk_spawn_distance)
                            && scanned_before(p, IVec2 { x, y })),
                    forall|p: IVec2|
                        #[trigger] in_spawn_region(p, camera_chunk_pos, chunk_spawn_distance)
                            && scanned_before(p, IVec2 { x, y }) ==> self@.contains(p),
                    forall|p: IVec2|
                        #[trigger] newly@.contains(p) <==> (in_spawn_region(
                            p,
                            camera_chunk_pos,
                            chunk_spawn_distance,
                        ) && scanned_before(p, IVec2 { x, y }) && !old(self)@.contains(p)),
                decreases x_hi - x,
            {
                let chunk = IVec2 { x, y };
                if !self.is_spawned(chunk) {
                    proof {
                        lemma_push_preserves(self@, chunk);
                        lemma_push_preserves(newly@, chunk);
                    }
                    self.spawned_chunks.push(chunk);
                    newly.push(chunk);
                }
                x = x + 1;
            }
            y = y + 1;
        }
        newly
    }

    /// Run the one-spawn-per-tick scan until it reports the spawn region
    /// complete: the throttled policy converges after at most one tick per
    /// region chunk, and the spawned set then includes the whole region
    /// while holding nothing it did not hold before beyond the region.
    #[verifier::loop_isolation(false)]
    pub fn spawn_until_region_complete(
        &mut self,
        camera_chunk_pos: IVec2,
        chunk_spawn_distance: IVec2,
    ) -> (ticks: u64)
        requires
            old(self).wf(),
            0 <= chunk_spawn_distance.x <= 1_000_000,
            0 <= chunk_spawn_distance.y <= 1_000_000,
            i32::MIN <= camera_chunk_pos.x - chunk_spawn_distance.x,
            camera_chunk_pos.x + chunk_spawn_distance.x <= i32::MAX,
            i32::MIN <= camera_chunk_pos.y - chunk_spawn_distance.y,
            camera_chunk_pos.y + chunk_spawn_distance.y <= i32::MAX,
        ensures
            final(self).wf(),
            forall|p: IVec2|
                #[trigger] in_spawn_region(p, camera_chunk_pos, chunk_spawn_distance)
                    ==> final(self)@.contains(p),
            forall|p: IVec2|
                #[trigger] final(self)@.contains(p) ==> old(self)@.contains(p) || in_spawn_region(
                    p,
                    camera_chunk_pos,
                    chunk_spawn_distance,
                ),
            forall|p: IVec2| old(self)@.contains(p) ==> #[trigger] final(self)@.contains(p),
            ticks <= 4 * chunk_spawn_distance.x * chunk_spawn_distance.y,
    {
        let ghost total: int = (2 * chunk_spawn_distance.x) * (2 * chunk_spawn_distance.y);
        let ghost mut frontier: int = 0;
        let mut ticks: u64 = 0;
        proof {
            assert(0 <= total <= 4_000_000_000_000int
                && total == 4 * chunk_spawn_distance.x * chunk_spawn_distance.y)
                by (nonlinear_arith)
                requires
                    0 <= chunk_spawn_distance.x <= 1_000_000,
                    0 <= chunk_spawn_distance.y <= 1_000_000,
                    total == (2 * chunk_spawn_distance.x) * (2 * chunk_spawn_distance.y),
            ;
        }
        loop
            invariant
                self.wf(),
                0 <= frontier <= total,
                ticks <= frontier,
                forall|p: IVec2|
                    #[trigger] in_spawn_region(p, camera_chunk_pos, chunk_spawn_distance)
                        && scan_index(p, camera_chunk_pos, chunk_spawn_distance) < frontier
                        ==> self@.contains(p),
                forall|p: IVec2|
                    #[trigger] self@.contains(p) ==> old(self)@.contains(p) || in_spawn_region(
                        p,
                        camera_chunk_pos,
                        chunk_spawn_distance,
                    ),
                forall|p: IVec2| old(self)@.contains(p) ==> #[trigger] self@.contains(p),
            decreases total - frontier,
        {
            let ghost pre = self@;
            match self.spawn_chunks_around_camera(camera_chunk_pos, chunk_spawn_distance) {
                Some(c) => {
                    proof {
                        lemma_scan_index_bounds(c, camera_chunk_pos, chunk_spawn_distance);
                        assert(frontier <= scan_index(c, camera_chunk_pos, chunk_spawn_distance));
                        assert forall|p: IVec2|
                            #[trigger] in_spawn_region(p, camera_chunk_pos, chunk_spawn_distance)
                                && scan_index(p, camera_chunk_pos, chunk_spawn_distance)
                                < scan_index(c, camera_chunk_pos, chunk_spawn_distance)
                                + 1 implies self@.contains(p) by {
                            lemma_push_preserves(pre, c);
                            if p != c {
                                lemma_scan_index_orders(
                                    p,
                                    c,
                                    camera_chunk_pos,
                                    chunk_spawn_distance,
                                );
                                lemma_scan_index_orders(
                                    c,
                                    p,
                                    camera_chunk_pos,
                                    chunk_spawn_distance,
                                );
                            }
                        }
                        frontier = scan_index(c, camera_chunk_pos, chunk_spawn_distance) + 1;
                        lemma_push_preserves(pre, c);
                    }
                    ticks = ticks + 1;
                }
                None => {
                    return ticks;
                }
            }
        }
    }
}

/// Position of a chunk coordinate in the row-major scan of the spawn
/// region: row offset times the region width, plus the column offset.
pub open spec fn scan_index(p: IVec2, camera_chunk: IVec2, dist: IVec2) -> int {
    (p.y - (camera_chunk.y - dist.y)) * (2 * dist.x) + (p.x - (camera_chunk.x - dist.x))
}

/// Within the spawn region, the row-major scan order agrees with the scan
/// index.
proof fn lemma_scan_index_orders(p: IVec2, q: IVec2, camera_chunk: IVec2, dist: IVec2)
    requires
        in_spawn_region(p, camera_chunk, dist),
        in_spawn_region(q, camera_chunk, dist),
    ensures
        scanned_before(p, q) <==> scan_index(p, camera_chunk, dist) < scan_index(
            q,
            camera_chunk,
            dist,
        ),
{
    let w = 2 * dist.x as int;
    let px = p.x - (camera_chunk.x - dist.x);
    let py = p.y - (camera_chunk.y - dist.y);
    let qx = q.x - (camera_chunk.x - dist.x);
    let qy = q.y - (camera_chunk.y - dist.y);
    assert((py < qy || (py == qy && px < qx)) <==> py * w + px < qy * w + qx) by (nonlinear_arith)
        requires
            0 <= px < w,
            0 <= qx < w,
    ;
}

/// A region chunk's scan index lies within the region's area.
proof fn lemma_scan_index_bounds(p: IVec2, camera_chunk: IVec2, dist: IVec2)
    requires
        in_spawn_region(p, camera_chunk, dist),
    ensures
        0 <= scan_index(p, camera_chunk, dist) < (2 * dist.x) * (2 * dist.y),
{
    let w = 2 * dist.x as int;
    let h = 2 * dist.y as int;
    let px = p.x - (camera_chunk.x - dist.x);
    let py = p.y - (camera_chunk.y - dist.y);
    assert(0 <= py * w + px < h * w) by (nonlinear_arith)
        requires
            0 <= px < w,
            0 <= py < h,
    ;
}

/// Streaming converges: starting from nothing spawned, one batch spawn
/// scan for a fixed viewpoint leaves the spawned set exactly equal to the
/// spawn region, and no chunk of it is beyond the despawn threshold, so
/// the following despawn scans evict nothing and the set is stable.
pub proof fn lemma_streaming_convergence(
    pre: Seq<IVec2>,
    post: Seq<IVec2>,
    camera_chunk: IVec2,
    dist: IVec2,
)
    requires
        pre.len() == 0,
        forall|p: IVec2|
            #[trigger] post.contains(p) <==> pre.contains(p) || in_spawn_region(
                p,
                camera_chunk,
                dist,
            ),
    ensures
        forall|p: IVec2| #[trigger] post.contains(p) <==> in_spawn_region(p, camera_chunk, dist),
        forall|p: IVec2| #[trigger] post.contains(p) ==> !out_of_despawn_range(
            p,
            camera_chunk,
            dist,
        ),
{
    assert forall|p: IVec2| #[trigger] post.contains(p) implies !out_of_despawn_range(
        p,
        camera_chunk,
        dist,
    ) by {
        lemma_spawn_region_within_despawn_threshold(p, camera_chunk, dist);
    }
}

/// No flapping: a chunk within the spawn half-extent plus the margin on
/// both axes — in particular one sitting exactly at the spawn-boundary
/// distance — is never beyond the despawn threshold, so a despawn scan
/// under the same viewpoint leaves it spawned.
pub proof fn lemma_no_flapping(camera_chunk: IVec2, dist: IVec2, p: IVec2)
    requires
        axis_distance(p.x as int, camera_chunk.x as int) <= dist.x + 1,
        axis_distance(p.y as int, camera_chunk.y as int) <= dist.y + 1,
    ensures
        !out_of_despawn_range(p, camera_chunk, dist),
{
}

/// The record owed to scan position `i` of a chunk's row-major tile scan.
pub open spec fn tile_record_spec(noise: NoiseGenerator, chunk_pos: IVec2, i: int) -> TileRecord {
    let x = i / (CHUNK_SIZE as int);
    let y = i % (CHUNK_SIZE as int);
    let data = noise.tile_data_spec(chunk_pos, x as u32, y as u32);
    TileRecord {
        tile_pos_x: x as u32,
        tile_pos_y: y as u32,
        data,
        tile_type: data.tile_type_spec(),
        texture_index: texture_index_spec(data.tile_type_spec()) as u32,
    }
}

/// Materialize one chunk: the attribute record, terrain category and
/// texture slot of every tile of the chunk, in row-major order of the
/// in-chunk offset. A pure function of the sampler and the chunk
/// coordinate, safe to run for different chunks in any order.
#[verifier::loop_isolation(false)]
pub fn spawn_chunk(noise: &NoiseGenerator, chunk_pos: IVec2) -> (tiles: Vec<TileRecord>)
    requires
        noise.values.wf(),
    ensures
        tiles@.len() == CHUNK_SIZE * CHUNK_SIZE,
        forall|i: int|
            0 <= i < tiles@.len() ==> #[trigger] tiles@[i] == tile_record_spec(
                *noise,
                chunk_pos,
                i,
            ),
{
    let mut tiles: Vec<TileRecord> = Vec::new();
    let mut x: u32 = 0;
    while x < CHUNK_SIZE
        invariant
            x <= CHUNK_SIZE,
            tiles@.len() == x * CHUNK_SIZE,
            forall|i: int|
                0 <= i < tiles@.len() ==> #[trigger] tiles@[i] == tile_record_spec(
                    *noise,
                    chunk_pos,
                    i,
                ),
        decreases CHUNK_SIZE - x,
    {
        let mut y: u32 = 0;
        while y < CHUNK_SIZE
            invariant
                y <= CHUNK_SIZE,
                x < CHUNK_SIZE,
                tiles@.len() == x * CHUNK_SIZE + y,
                forall|i: int|
                    0 <= i < tiles@.len() ==> #[trigger] tiles@[i] == tile_record_spec(
                        *noise,
                        chunk_pos,
                        i,
                    ),
            decreases CHUNK_SIZE - y,
        {
            let data = noise.get_tile_data(chunk_pos, x, y);
            let tile_type = data.get_tile_type();
            let texture_index = tile_type_to_texture_index(&tile_type);
            proof {
                vstd::arithmetic::div_mod::lemma_fundamental_div_mod_converse(
                    (x * CHUNK_SIZE + y) as int,
                    CHUNK_SIZE as int,
                    x as int,
                    y as int,
                );
            }
            tiles.push(TileRecord { tile_pos_x: x, tile_pos_y: y, data, tile_type, texture_index });
            y = y + 1;
        }
        x = x + 1;
    }
    tiles
}

/// How pushing a coordinate changes what a scan record contains: everything
/// already there stays, the new coordinate appears, nothing else does, and
/// a record without duplicates stays without duplicates when the coordinate
/// was not already present.
proof fn lemma_push_preserves(s: Seq<IVec2>, v: IVec2)
    ensures
        forall|p: IVec2| s.contains(p) ==> #[trigger] s.push(v).contains(p),
        s.push(v).contains(v),
        forall|p: IVec2| #[trigger] s.push(v).contains(p) ==> s.contains(p) || p == v,
        s.no_duplicates() && !s.contains(v) ==> s.push(v).no_duplicates(),
{
    assert forall|p: IVec2| s.contains(p) implies #[trigger] s.push(v).contains(p) by {
        let k = choose|k: int| 0 <= k < s.len() && s[k] == p;
        assert(s.push(v)[k] == p);
    }
    assert(s.push(v)[s.len() as int] == v);
    assert forall|p: IVec2| #[trigger] s.push(v).contains(p) implies s.contains(p) || p == v by {
        let k = choose|k: int| 0 <= k < s.push(v).len() && s.push(v)[k] == p;
        if k < s.len() {
            assert(s[k] == p);
        }
    }
    if s.no_duplicates() && !s.contains(v) {
        assert forall|i: int, j: int|
            0 <= i < s.push(v).len() && 0 <= j < s.push(v).len() && i != j implies s.push(v)[i]
            != s.push(v)[j] by {
            if i < s.len() && j < s.len() {
                assert(s.push(v)[i] == s[i] && s.push(v)[j] == s[j]);
            } else if j == s.len() {
                assert(s.push(v)[i] == s[i] && s.push(v)[j] == v);
                assert(s.contains(s[i]));
            } else {
                assert(s.push(v)[i] == v && s.push(v)[j] == s[j]);
                assert(s.contains(s[j]));
            }
        }
    }
}

/// How removing the entry at one index changes what a scan record
/// contains: entries at other indexes stay, nothing new appears, and a
/// record without duplicates stays without duplicates.
proof fn lemma_remove_preserves(s: Seq<IVec2>, i: int)
    requires
        0 <= i < s.len(),
        s.no_duplicates(),
    ensures
        s.remove(i).no_duplicates(),
        forall|p: IVec2| #[trigger] s.remove(i).contains(p) ==> s.contains(p),
        forall|p: IVec2| s.contains(p) && p != s[i] ==> #[trigger] s.remove(i).contains(p),
{
    s.remove_ensures(i);
    assert forall|p: IVec2| #[trigger] s.remove(i).contains(p) implies s.contains(p) by {
        let k = choose|k: int| 0 <= k < s.remove(i).len() && s.remove(i)[k] == p;
        if k < i {
            assert(s[k] == p);
        } else {
            assert(s[k + 1] == p);
        }
    }
    assert forall|p: IVec2| s.contains(p) && p != s[i] implies #[trigger] s.remove(i).contains(
        p,
    ) by {
        let k = choose|k: int| 0 <= k < s.len() && s[k] == p;
        if k < i {
            assert(s.remove(i)[k] == p);
        } else {
            assert(k != i);
            assert(s.remove(i)[k - 1] == p);
        }
    }
    assert forall|a: int, b: int|
        0 <= a < s.remove(i).len() && 0 <= b < s.remove(i).len() && a != b implies s.remove(i)[a]
        != s.remove(i)[b] by {
        let a0 = if a < i {
            a
        } else {
            a + 1
        };
        let b0 = if b < i {
            b
        } else {
            b + 1
        };
        assert(s.remove(i)[a] == s[a0]);
        assert(s.remove(i)[b] == s[b0]);
    }
}

} // verus!

