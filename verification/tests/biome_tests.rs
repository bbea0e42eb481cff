use tileworld::biome::Biome;
use tileworld::tile_data::{TileData, TileType};
use tileworld::FP_ONE;

fn rank(t: &TileType) -> i32 {
    match t {
        TileType::DeepWater => 0,
        TileType::Water => 1,
        TileType::Sand => 2,
        TileType::Grass => 3,
        TileType::Stone => 4,
    }
}

#[test]
fn regular_profile_scenario() {
    // seed-independent classification against the regular profile:
    // heights -0.35 -> Water, 0.5 -> Stone, and exactly -0.4 -> Water
    // (the boundary lands in the higher band by strict less-than).
    let regular = Biome::regular();
    assert_eq!(regular.evaluate(-350_000), TileType::Water);
    assert_eq!(regular.evaluate(500_000), TileType::Stone);
    assert_eq!(regular.evaluate(-400_000), TileType::Water);
    assert_eq!(regular.evaluate(-400_001), TileType::DeepWater);
}

#[test]
fn boundary_heights_land_in_higher_band() {
    let b = Biome::new(-400_000, -300_000, -200_000, 400_000).unwrap();
    assert_eq!(b.evaluate(-400_000), TileType::Water);
    assert_eq!(b.evaluate(-300_000), TileType::Sand);
    assert_eq!(b.evaluate(-200_000), TileType::Grass);
    assert_eq!(b.evaluate(400_000), TileType::Stone);
}

#[test]
fn new_rejects_malformed_profiles() {
    assert!(Biome::new(-400_000, -300_000, -200_000, 400_000).is_some());
    // equal thresholds are not strictly ascending
    assert!(Biome::new(0, 0, 100_000, 200_000).is_none());
    // descending thresholds are rejected
    assert!(Biome::new(400_000, -200_000, -300_000, -400_000).is_none());
}

#[test]
fn classification_is_monotonic_in_height() {
    let profiles = [Biome::wet(), Biome::regular(), Biome::dry()];
    for b in profiles.iter() {
        let mut last_rank = -1;
        let mut h: i64 = -1_200_000;
        while h <= 1_200_000 {
            let r = rank(&b.evaluate(h));
            assert!(r >= last_rank, "rank fell as height rose");
            last_rank = r;
            h += 7_919;
        }
    }
}

#[test]
fn blend_weight_endpoints_match_pure_profiles() {
    let regular = Biome::regular();
    let wet = Biome::wet();
    let dry = Biome::dry();
    let mut h: i64 = -1_000_000;
    while h <= 1_000_000 {
        assert_eq!(
            regular.evaluate_multibiome(&wet, h, FP_ONE),
            regular.evaluate(h)
        );
        assert_eq!(regular.evaluate_multibiome(&wet, h, 0), wet.evaluate(h));
        assert_eq!(
            regular.evaluate_multibiome(&dry, h, FP_ONE),
            regular.evaluate(h)
        );
        assert_eq!(regular.evaluate_multibiome(&dry, h, 0), dry.evaluate(h));
        h += 13_337;
    }
}

#[test]
fn blend_midpoint_uses_effective_thresholds() {
    // halfway between regular (deep_water -0.4) and wet (deep_water -0.1)
    // the effective deep water threshold is -0.25
    let regular = Biome::regular();
    let wet = Biome::wet();
    let w = FP_ONE / 2;
    assert_eq!(
        regular.evaluate_multibiome(&wet, -250_001, w),
        TileType::DeepWater
    );
    assert_eq!(regular.evaluate_multibiome(&wet, -250_000, w), TileType::Water);
}

#[test]
fn blend_weight_extrapolates_outside_unit_interval() {
    // weights outside [0, 1] are legal and are not clamped: at weight 2
    // every effective threshold is 2 * regular - wet, so deep water ends at
    // 2 * -0.4 - -0.1 = -0.7, water and sand collapse onto the same value,
    // and grass ends at 2 * 0.4 - 0.3 = 0.5
    let regular = Biome::regular();
    let wet = Biome::wet();
    let w = 2 * FP_ONE;
    assert_eq!(
        regular.evaluate_multibiome(&wet, -700_001, w),
        TileType::DeepWater
    );
    assert_eq!(regular.evaluate_multibiome(&wet, -700_000, w), TileType::Grass);
    assert_eq!(regular.evaluate_multibiome(&wet, 499_999, w), TileType::Grass);
    assert_eq!(regular.evaluate_multibiome(&wet, 500_000, w), TileType::Stone);
}

#[test]
fn humidity_sign_picks_secondary_profile() {
    // pure wet at humidity -1, pure regular at 0, pure dry at +1
    let mut h: i64 = -1_000_000;
    while h <= 1_000_000 {
        let wet_like = TileData { height: h, biome: -FP_ONE };
        let regular_like = TileData { height: h, biome: 0 };
        let dry_like = TileData { height: h, biome: FP_ONE };
        assert_eq!(wet_like.get_tile_type(), Biome::wet().evaluate(h));
        assert_eq!(regular_like.get_tile_type(), Biome::regular().evaluate(h));
        assert_eq!(dry_like.get_tile_type(), Biome::dry().evaluate(h));
        h += 37_199;
    }
}

#[test]
fn tile_color_tracks_height() {
    assert_eq!(TileData { height: -FP_ONE, biome: 0 }.get_color(), 0);
    assert_eq!(TileData { height: 0, biome: 0 }.get_color(), FP_ONE / 2);
    assert_eq!(TileData { height: FP_ONE, biome: 0 }.get_color(), FP_ONE);
}
