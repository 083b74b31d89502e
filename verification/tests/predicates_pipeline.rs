//! Predicate identities, pipeline stage laws, and provider draws.

use worldgen::block::ChunkBlockState;
use worldgen::block::BLOCK_DIRT;
use worldgen::block::BLOCK_STONE;
use worldgen::block_predicate::AllOfBlockPredicate;
use worldgen::block_predicate::AnyOfBlockPredicate;
use worldgen::block_predicate::BlockPredicate;
use worldgen::block_predicate::MatchingBlocksBlockPredicate;
use worldgen::block_predicate::MatchingBlocksWrapper;
use worldgen::block_predicate::NotBlockPredicate;
use worldgen::block_predicate::OffsetBlocksBlockPredicate;
use worldgen::chunk::ProtoChunk;
use worldgen::int_provider::IntProvider;
use worldgen::math::BlockPos;
use worldgen::placed_features::CountPlacementModifier;
use worldgen::placed_features::PlacementModifier;
use worldgen::placed_features::RarityFilterPlacementModifier;
use worldgen::random::RandomGenerator;

fn empty_chunk() -> ProtoChunk {
    let air = ChunkBlockState::air();
    ProtoChunk::new(-64, 384, air, vec![vec![String::from("wells")]], 0)
}

fn pos(x: i32, y: i32, z: i32) -> BlockPos {
    BlockPos::new(x, y, z)
}

#[test]
fn all_of_empty_is_true() {
    let chunk = empty_chunk();
    let p = BlockPredicate::AllOfBlockPredicate(AllOfBlockPredicate { predicates: Vec::new() });
    assert!(p.test(&chunk, &pos(0, 0, 0)));
}

#[test]
fn any_of_empty_is_false() {
    let chunk = empty_chunk();
    let p = BlockPredicate::AnyOfBlockPredicate(AnyOfBlockPredicate { predicates: Vec::new() });
    assert!(!p.test(&chunk, &pos(0, 0, 0)));
}

#[test]
fn not_always_true_is_false() {
    let chunk = empty_chunk();
    let p = BlockPredicate::NotBlockPredicate(NotBlockPredicate {
        predicate: Box::new(BlockPredicate::AlwaysTrueBlockPredicate),
    });
    assert!(!p.test(&chunk, &pos(0, 0, 0)));
}

#[test]
fn matching_blocks_strips_namespace() {
    let mut chunk = empty_chunk();
    let dirt = ChunkBlockState::new("dirt").unwrap();
    chunk.set_block_state(&pos(1, 2, 3), dirt);
    let p = MatchingBlocksBlockPredicate {
        offset: OffsetBlocksBlockPredicate { offset: None },
        blocks: MatchingBlocksWrapper::Single(String::from("minecraft:dirt")),
    };
    assert!(p.test(&chunk, &pos(1, 2, 3)));
    assert!(!p.test(&chunk, &pos(0, 2, 3)));
    let multi = MatchingBlocksBlockPredicate {
        offset: OffsetBlocksBlockPredicate { offset: None },
        blocks: MatchingBlocksWrapper::Multiple(vec![
            String::from("minecraft:stone"),
            String::from("dirt"),
        ]),
    };
    assert!(multi.test(&chunk, &pos(1, 2, 3)));
}

#[test]
fn solid_and_replaceable_read_the_target_state() {
    let mut chunk = empty_chunk();
    let stone = ChunkBlockState::new("stone").unwrap();
    chunk.set_block_state(&pos(0, 0, 0), stone);
    let solid = worldgen::block_predicate::SolidBlockPredicate {
        offset: OffsetBlocksBlockPredicate { offset: None },
    };
    let replaceable = worldgen::block_predicate::ReplaceableBlockPredicate {
        offset: OffsetBlocksBlockPredicate { offset: None },
    };
    assert!(solid.test(&chunk, &pos(0, 0, 0)));
    assert!(!replaceable.test(&chunk, &pos(0, 0, 0)));
    // Air elsewhere: replaceable, not solid.
    assert!(!solid.test(&chunk, &pos(5, 0, 0)));
    assert!(replaceable.test(&chunk, &pos(5, 0, 0)));
}

#[test]
fn count_of_constant_zero_yields_empty_stream() {
    let chunk = empty_chunk();
    let m = PlacementModifier::Count(CountPlacementModifier { count: IntProvider::Constant(0) });
    let mut g = RandomGenerator::legacy_from_seed(3);
    let out = m.get_positions(&chunk, -64, 384, "wells", &mut g, pos(10, 70, 10));
    assert_eq!(out.unwrap().len(), 0);
}

#[test]
fn count_replicates_the_drawn_number() {
    let chunk = empty_chunk();
    let m = PlacementModifier::Count(CountPlacementModifier { count: IntProvider::Constant(3) });
    let mut g = RandomGenerator::legacy_from_seed(3);
    let out = m.get_positions(&chunk, -64, 384, "wells", &mut g, pos(10, 70, 10)).unwrap();
    assert_eq!(out.len(), 3);
    for p in out {
        assert_eq!(p, pos(10, 70, 10));
    }
}

#[test]
fn rarity_filter_chance_one_never_drops() {
    let chunk = empty_chunk();
    let m = PlacementModifier::RarityFilter(RarityFilterPlacementModifier { chance: 1 });
    for seed in 0..50u64 {
        let mut g = RandomGenerator::xoroshiro_from_seed(seed);
        let out = m.get_positions(&chunk, -64, 384, "wells", &mut g, pos(1, 2, 3));
        assert_eq!(out.unwrap(), vec![pos(1, 2, 3)]);
    }
}

#[test]
fn rarity_filter_should_place_matches_probability_shape() {
    // With a large chance the filter keeps only small fraction draws.
    let f = RarityFilterPlacementModifier { chance: 0x100_0000 };
    let mut kept = 0;
    for seed in 0..64u64 {
        let mut g = RandomGenerator::legacy_from_seed(seed);
        if f.should_place(&mut g) {
            kept += 1;
        }
    }
    assert!(kept <= 1);
}

#[test]
fn biome_filter_keeps_only_registered_features() {
    let chunk = empty_chunk();
    let m = PlacementModifier::Biome(worldgen::placed_features::BiomePlacementModifier);
    let mut g = RandomGenerator::legacy_from_seed(0);
    let kept = m.get_positions(&chunk, -64, 384, "wells", &mut g, pos(0, 0, 0));
    assert!(kept.is_some());
    let dropped = m.get_positions(&chunk, -64, 384, "huts", &mut g, pos(0, 0, 0));
    assert!(dropped.is_none());
}

#[test]
fn heightmap_projects_to_first_air_exposed_height() {
    let mut chunk = empty_chunk();
    let stone = ChunkBlockState::new("stone").unwrap();
    chunk.set_block_state(&pos(4, 9, 4), stone);
    let m = PlacementModifier::Heightmap(worldgen::placed_features::HeightmapPlacementModifier {
        heightmap: String::from("WORLD_SURFACE_WG"),
    });
    let mut g = RandomGenerator::legacy_from_seed(0);
    let out = m.get_positions(&chunk, -64, 384, "wells", &mut g, pos(4, 70, 4)).unwrap();
    assert_eq!(out, vec![pos(4, 10, 4)]);
    // An all-air column has no valid height: the candidate is dropped.
    let none = m.get_positions(&chunk, -64, 384, "wells", &mut g, pos(8, 70, 8));
    assert!(none.is_none());
}

#[test]
fn square_offset_stays_in_chunk_footprint() {
    let chunk = empty_chunk();
    let m = PlacementModifier::InSquare(worldgen::placed_features::SquarePlacementModifier);
    for seed in 0..20u64 {
        let mut g = RandomGenerator::xoroshiro_from_seed(seed);
        let out = m.get_positions(&chunk, -64, 384, "wells", &mut g, pos(32, 70, 48)).unwrap();
        assert_eq!(out.len(), 1);
        let p = out[0];
        assert!(p.0.x >= 32 && p.0.x < 48);
        assert!(p.0.z >= 48 && p.0.z < 64);
        assert_eq!(p.0.y, 70);
    }
}

#[test]
fn unrecognized_stage_passes_through() {
    let chunk = empty_chunk();
    let m = PlacementModifier::EnvironmentScan;
    let mut g = RandomGenerator::legacy_from_seed(0);
    let before = g;
    let out = m.get_positions(&chunk, -64, 384, "wells", &mut g, pos(7, 7, 7)).unwrap();
    assert_eq!(out, vec![pos(7, 7, 7)]);
    assert!(g == before);
}

#[test]
fn int_provider_bounds_and_draws() {
    let uniform = IntProvider::Object(worldgen::int_provider::NormalIntProvider::Uniform(
        worldgen::int_provider::UniformIntProvider { min_inclusive: 3, max_inclusive: 7 },
    ));
    assert_eq!(uniform.get_min(), 3);
    assert_eq!(uniform.get_max(), 7);
    let mut g = RandomGenerator::legacy_from_seed(11);
    for _ in 0..20 {
        let v = uniform.get(&mut g);
        assert!((3..=7).contains(&v));
    }
    let clamped = IntProvider::Object(worldgen::int_provider::NormalIntProvider::Clamped(
        worldgen::int_provider::ClampedIntProvider {
            source: Box::new(IntProvider::Constant(100)),
            min_inclusive: 0,
            max_inclusive: 5,
        },
    ));
    assert_eq!(clamped.get(&mut g), 5);
    // Bounds introspection intersects the clamp range with the source's.
    assert_eq!(clamped.get_min(), 100);
    assert_eq!(clamped.get_max(), 5);
    let biased = worldgen::int_provider::BiasedToBottomIntProvider {
        min_inclusive: 2,
        max_inclusive: 9,
    };
    assert_eq!(biased.get(), 2);
    assert_eq!(biased.get_min(), 2);
    assert_eq!(biased.get_max(), 9);
    let weighted = worldgen::int_provider::WeightedListIntProvider {};
    assert_eq!(weighted.get(), 0);
    assert_eq!(weighted.get_min(), 0);
    assert_eq!(weighted.get_max(), 0);
}

#[test]
fn dirt_name_without_prefix_does_not_match_stone() {
    let mut chunk = empty_chunk();
    let stone = ChunkBlockState::new("stone").unwrap();
    chunk.set_block_state(&pos(0, 0, 0), stone);
    let p = MatchingBlocksBlockPredicate {
        offset: OffsetBlocksBlockPredicate { offset: None },
        blocks: MatchingBlocksWrapper::Single(String::from("dirt")),
    };
    assert!(!p.test(&chunk, &pos(0, 0, 0)));
    assert_eq!(chunk.get_block_state(&pos(0, 0, 0)).block_id, BLOCK_STONE);
    assert!(BLOCK_DIRT != BLOCK_STONE);
}

#[test]
fn offset_lookup_applies_the_configured_shift() {
    let mut chunk = empty_chunk();
    let dirt = ChunkBlockState::new("dirt").unwrap();
    chunk.set_block_state(&pos(3, 4, 5), dirt);
    let shifted = OffsetBlocksBlockPredicate {
        offset: Some(worldgen::math::Vector3::new(1, 1, 1)),
    };
    assert_eq!(shifted.get(&pos(2, 3, 4)), pos(3, 4, 5));
    let block = shifted.get_block(&chunk, &pos(2, 3, 4)).unwrap();
    assert_eq!(block.id, BLOCK_DIRT);
    let state = shifted.get_state(&chunk, &pos(2, 3, 4)).unwrap();
    assert!(state.solid);
}

#[test]
fn random_offset_perturbs_within_provider_bounds() {
    let chunk = empty_chunk();
    let m = PlacementModifier::RandomOffset(
        worldgen::placed_features::RandomOffsetPlacementModifier {
            xz_spread: IntProvider::Constant(4),
            y_spread: IntProvider::Constant(-2),
        },
    );
    let mut g = RandomGenerator::legacy_from_seed(0);
    let out = m.get_positions(&chunk, -64, 384, "wells", &mut g, pos(10, 20, 30)).unwrap();
    assert_eq!(out, vec![pos(14, 18, 34)]);
}

#[test]
fn noise_threshold_count_follows_the_temperature() {
    let cold = ProtoChunk::new(-64, 384, ChunkBlockState::air(), vec![vec![]], -0x80_0000);
    let warm = ProtoChunk::new(-64, 384, ChunkBlockState::air(), vec![vec![]], 0x80_0000);
    let m = PlacementModifier::NoiseThresholdCount(
        worldgen::placed_features::NoiseThresholdCountPlacementModifier {
            noise_level: 0,
            below_noise: 2,
            above_noise: 5,
        },
    );
    let mut g = RandomGenerator::legacy_from_seed(0);
    let out = m.get_positions(&cold, -64, 384, "wells", &mut g, pos(0, 0, 0)).unwrap();
    assert_eq!(out.len(), 2);
    let out = m.get_positions(&warm, -64, 384, "wells", &mut g, pos(0, 0, 0)).unwrap();
    assert_eq!(out.len(), 5);
}

#[test]
fn would_survive_defaults_to_false() {
    let chunk = empty_chunk();
    let p = BlockPredicate::WouldSurviveBlockPredicate(
        worldgen::block_predicate::EmptyTODOStruct {},
    );
    assert!(!p.test(&chunk, &pos(0, 0, 0)));
}
