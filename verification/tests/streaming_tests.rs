use tileworld::game_map::{
    calculate_ideal_chunk_spawn_distance, camera_pos_to_chunk_pos, chunk_local_to_world,
    spawn_chunk, tile_type_to_texture_index, world_pos_to_local_offset, ChunkManager, CHUNK_SIZE,
};
use tileworld::noise_generator::{NoiseGenerator, NoiseValues};
use tileworld::tile_data::TileType;
use tileworld::IVec2;

#[test]
fn world_to_chunk_floors_toward_negative_infinity() {
    // world x = -1 with chunk size 32 is chunk -1, local offset 31
    let c = camera_pos_to_chunk_pos(IVec2 { x: -1, y: -1 });
    assert_eq!(c, IVec2 { x: -1, y: -1 });
    let l = world_pos_to_local_offset(IVec2 { x: -1, y: -1 });
    assert_eq!(l, (31, 31));

    assert_eq!(
        camera_pos_to_chunk_pos(IVec2 { x: -32, y: -33 }),
        IVec2 { x: -1, y: -2 }
    );
    assert_eq!(
        camera_pos_to_chunk_pos(IVec2 { x: 0, y: 65 }),
        IVec2 { x: 0, y: 2 }
    );
    assert_eq!(world_pos_to_local_offset(IVec2 { x: 65, y: -33 }), (1, 31));
}

#[test]
fn chunk_and_local_offset_rebuild_the_world_coordinate() {
    let samples = [-1_000_000, -33, -32, -31, -1, 0, 1, 31, 32, 33, 999_999];
    for &x in samples.iter() {
        for &y in samples.iter() {
            let p = IVec2 { x, y };
            let c = camera_pos_to_chunk_pos(p);
            let (lx, ly) = world_pos_to_local_offset(p);
            assert!(lx < CHUNK_SIZE && ly < CHUNK_SIZE);
            assert_eq!(chunk_local_to_world(c, lx, ly), p);
        }
    }
}

#[test]
fn spawn_distance_tracks_viewport() {
    assert_eq!(
        calculate_ideal_chunk_spawn_distance(100, 60),
        IVec2 { x: 4, y: 2 }
    );
    assert_eq!(
        calculate_ideal_chunk_spawn_distance(0, 0),
        IVec2 { x: 1, y: 1 }
    );
    assert_eq!(
        calculate_ideal_chunk_spawn_distance(32, 31),
        IVec2 { x: 2, y: 1 }
    );
}

#[test]
fn texture_indices_match_the_tile_atlas() {
    assert_eq!(tile_type_to_texture_index(&TileType::Water), 0);
    assert_eq!(tile_type_to_texture_index(&TileType::Sand), 1);
    assert_eq!(tile_type_to_texture_index(&TileType::Grass), 2);
    assert_eq!(tile_type_to_texture_index(&TileType::Stone), 3);
    assert_eq!(tile_type_to_texture_index(&TileType::DeepWater), 4);
}

#[test]
fn stepwise_spawning_converges_to_the_exact_region() {
    // viewpoint at chunk (0,0) with half-extent (3,3): the spawned set
    // converges to the 6x6 block from (-3,-3) to (2,2) inclusive
    let cam = IVec2 { x: 0, y: 0 };
    let dist = IVec2 { x: 3, y: 3 };
    let mut mgr = ChunkManager::new();
    let mut spawned = Vec::new();
    let mut ticks = 0;
    loop {
        match mgr.spawn_chunks_around_camera(cam, dist) {
            Some(c) => {
                // never the same chunk twice without an intervening despawn
                assert!(!spawned.contains(&c));
                spawned.push(c);
            }
            None => break,
        }
        ticks += 1;
        assert!(ticks <= 100, "spawning failed to converge");
    }
    assert_eq!(ticks, 36);
    assert_eq!(mgr.spawned_count(), 36);
    // the manager records the spawns in scan order
    for i in 0..36 {
        assert_eq!(mgr.spawned_at(i), spawned[i]);
    }
    // the first chunk found missing is the row-major first corner
    assert_eq!(spawned[0], IVec2 { x: -3, y: -3 });
    for y in -3..3 {
        for x in -3..3 {
            assert!(mgr.is_spawned(IVec2 { x, y }));
        }
    }
    assert!(!mgr.is_spawned(IVec2 { x: 3, y: 0 }));
    assert!(!mgr.is_spawned(IVec2 { x: 0, y: 3 }));

    // once converged, further ticks are idempotent and nothing is evicted
    assert_eq!(mgr.spawn_chunks_around_camera(cam, dist), None);
    assert_eq!(mgr.despawn_out_of_range_chunks(cam, dist), None);
    assert_eq!(mgr.spawned_count(), 36);
}

#[test]
fn batch_spawning_matches_the_stepwise_result() {
    let cam = IVec2 { x: 0, y: 0 };
    let dist = IVec2 { x: 3, y: 3 };
    let mut mgr = ChunkManager::new();
    let newly = mgr.spawn_all_chunks_around_camera(cam, dist);
    assert_eq!(newly.len(), 36);
    assert_eq!(mgr.spawned_count(), 36);
    for y in -3..3 {
        for x in -3..3 {
            assert!(mgr.is_spawned(IVec2 { x, y }));
            assert!(newly.contains(&IVec2 { x, y }));
        }
    }
    // spawning again around the same viewpoint adds nothing
    let again = mgr.spawn_all_chunks_around_camera(cam, dist);
    assert!(again.is_empty());
    assert_eq!(mgr.spawned_count(), 36);
}

#[test]
fn throttled_spawning_needs_one_tick_per_missing_chunk() {
    let cam = IVec2 { x: 0, y: 0 };
    let dist = IVec2 { x: 3, y: 3 };
    let mut mgr = ChunkManager::new();
    let ticks = mgr.spawn_until_region_complete(cam, dist);
    assert_eq!(ticks, 36);
    assert_eq!(mgr.spawned_count(), 36);

    // with part of the region already spawned, fewer ticks are needed
    let mut partial = ChunkManager::new();
    partial.spawn_all_chunks_around_camera(cam, IVec2 { x: 1, y: 1 });
    let remaining = partial.spawn_until_region_complete(cam, dist);
    assert_eq!(remaining, 32);
    assert_eq!(partial.spawned_count(), 36);
}

#[test]
fn boundary_chunks_do_not_flap() {
    // a chunk at the exact spawn-boundary distance survives the
    // immediately following despawn tick while the viewpoint is still
    let cam = IVec2 { x: 0, y: 0 };
    let dist = IVec2 { x: 2, y: 2 };
    let mut mgr = ChunkManager::new();
    mgr.spawn_all_chunks_around_camera(cam, dist);
    assert!(mgr.is_spawned(IVec2 { x: -2, y: -2 }));
    assert_eq!(mgr.despawn_out_of_range_chunks(cam, dist), None);
    assert!(mgr.is_spawned(IVec2 { x: -2, y: -2 }));
}

#[test]
fn distant_chunks_are_evicted_one_per_tick() {
    let mut mgr = ChunkManager::new();
    let dist = IVec2 { x: 1, y: 1 };
    mgr.spawn_all_chunks_around_camera(IVec2 { x: 0, y: 0 }, dist);
    assert_eq!(mgr.spawned_count(), 4);

    // the viewpoint jumps far away: the old chunks leave one per tick
    let far = IVec2 { x: 100, y: 100 };
    let mut evicted = Vec::new();
    let mut ticks = 0;
    loop {
        match mgr.despawn_out_of_range_chunks(far, dist) {
            Some(c) => evicted.push(c),
            None => break,
        }
        ticks += 1;
        assert!(ticks <= 10, "despawning failed to converge");
    }
    assert_eq!(ticks, 4);
    assert_eq!(evicted.len(), 4);
    assert_eq!(mgr.spawned_count(), 0);
}

#[test]
fn chunks_just_inside_the_threshold_survive_a_move() {
    let mut mgr = ChunkManager::new();
    let dist = IVec2 { x: 1, y: 1 };
    mgr.spawn_all_chunks_around_camera(IVec2 { x: 0, y: 0 }, dist);
    // chunks spawned: (-1,-1) .. (0,0); a move to (2,2) leaves (0,0) at
    // axis distance 2 == dist + 1, inside the threshold; (-1,-1) at 3 is out
    let cam = IVec2 { x: 2, y: 2 };
    let first = mgr.despawn_out_of_range_chunks(cam, dist);
    assert_eq!(first, Some(IVec2 { x: -1, y: -1 }));
    let second = mgr.despawn_out_of_range_chunks(cam, dist);
    assert_eq!(second, Some(IVec2 { x: 0, y: -1 }));
    let third = mgr.despawn_out_of_range_chunks(cam, dist);
    assert_eq!(third, Some(IVec2 { x: -1, y: 0 }));
    assert_eq!(mgr.despawn_out_of_range_chunks(cam, dist), None);
    assert!(mgr.is_spawned(IVec2 { x: 0, y: 0 }));
    assert_eq!(mgr.spawned_count(), 1);
}

#[test]
fn materialized_chunks_cover_every_tile_in_row_major_order() {
    let noise = NoiseGenerator::new(42, NoiseValues::default());
    let chunk = IVec2 { x: -1, y: 2 };
    let tiles = spawn_chunk(&noise, chunk);
    assert_eq!(tiles.len(), (CHUNK_SIZE * CHUNK_SIZE) as usize);
    for x in 0..CHUNK_SIZE {
        for y in 0..CHUNK_SIZE {
            let rec = &tiles[(x * CHUNK_SIZE + y) as usize];
            assert_eq!(rec.tile_pos_x, x);
            assert_eq!(rec.tile_pos_y, y);
            let data = noise.get_tile_data(chunk, x, y);
            assert_eq!(rec.data, data);
            assert_eq!(rec.tile_type, data.get_tile_type());
            assert_eq!(
                rec.texture_index,
                tile_type_to_texture_index(&rec.tile_type)
            );
        }
    }
}

#[test]
fn materialization_is_deterministic_per_chunk() {
    let noise = NoiseGenerator::new(7, NoiseValues::default());
    let a = spawn_chunk(&noise, IVec2 { x: 5, y: -9 });
    let b = spawn_chunk(&noise, IVec2 { x: 5, y: -9 });
    assert_eq!(a, b);
}
