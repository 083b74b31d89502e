//! Feature generation: the desert well end to end, tree trunk height and
//! growth, height providers, block-state providers, and determinism of a
//! whole run.

use worldgen::block::ChunkBlockState;
use worldgen::block::BLOCK_SAND;
use worldgen::block::BLOCK_SANDSTONE;
use worldgen::block::BLOCK_SANDSTONE_SLAB;
use worldgen::block::BLOCK_STONE;
use worldgen::block::BLOCK_WATER;
use worldgen::block::BLOCK_OAK_LOG;
use worldgen::chunk::ProtoChunk;
use worldgen::desert_well::DesertWellFeature;
use worldgen::height_provider::HeightProvider;
use worldgen::height_provider::TrapezoidHeightProvider;
use worldgen::height_provider::UniformHeightProvider;
use worldgen::height_provider::YOffset;
use worldgen::math::BlockPos;
use worldgen::random::RandomGenerator;
use worldgen::tree::FeatureSize;
use worldgen::tree::TrunkPlacer;
use worldgen::tree::TrunkType;
use worldgen::tree::TreeFeature;

fn empty_chunk() -> ProtoChunk {
    let air = ChunkBlockState::air();
    ProtoChunk::new(-64, 384, air, vec![vec![String::from("wells")]], 0)
}

fn pos(x: i32, y: i32, z: i32) -> BlockPos {
    BlockPos::new(x, y, z)
}

#[test]
fn desert_well_places_on_sand_with_clear_foundation() {
    let mut chunk = empty_chunk();
    let sand = ChunkBlockState::new("sand").unwrap();
    let origin = pos(8, 70, 8);
    chunk.set_block_state(&origin, sand);
    let mut g = RandomGenerator::legacy_from_seed(0);
    let placed = DesertWellFeature.generate(&mut chunk, -64, 384, "well", &mut g, origin);
    assert!(placed);
    // Water at the basin center and its four horizontal neighbors.
    assert_eq!(chunk.get_block_state(&pos(8, 70, 8)).block_id, BLOCK_WATER);
    assert_eq!(chunk.get_block_state(&pos(9, 70, 8)).block_id, BLOCK_WATER);
    assert_eq!(chunk.get_block_state(&pos(7, 70, 8)).block_id, BLOCK_WATER);
    assert_eq!(chunk.get_block_state(&pos(8, 70, 9)).block_id, BLOCK_WATER);
    assert_eq!(chunk.get_block_state(&pos(8, 70, 7)).block_id, BLOCK_WATER);
    // Sand one level below those five cells.
    assert_eq!(chunk.get_block_state(&pos(8, 69, 8)).block_id, BLOCK_SAND);
    assert_eq!(chunk.get_block_state(&pos(9, 69, 8)).block_id, BLOCK_SAND);
    assert_eq!(chunk.get_block_state(&pos(7, 69, 8)).block_id, BLOCK_SAND);
    assert_eq!(chunk.get_block_state(&pos(8, 69, 9)).block_id, BLOCK_SAND);
    assert_eq!(chunk.get_block_state(&pos(8, 69, 7)).block_id, BLOCK_SAND);
    // Sandstone walls in the buried shell and the rim.
    assert_eq!(chunk.get_block_state(&pos(6, 70, 6)).block_id, BLOCK_SANDSTONE);
    assert_eq!(chunk.get_block_state(&pos(10, 68, 10)).block_id, BLOCK_SANDSTONE);
    assert_eq!(chunk.get_block_state(&pos(10, 71, 9)).block_id, BLOCK_SANDSTONE);
    assert_eq!(chunk.get_block_state(&pos(9, 73, 9)).block_id, BLOCK_SANDSTONE);
    // Four sandstone-slab corners at rim height.
    assert_eq!(chunk.get_block_state(&pos(10, 71, 8)).block_id, BLOCK_SANDSTONE_SLAB);
    assert_eq!(chunk.get_block_state(&pos(6, 71, 8)).block_id, BLOCK_SANDSTONE_SLAB);
    assert_eq!(chunk.get_block_state(&pos(8, 71, 10)).block_id, BLOCK_SANDSTONE_SLAB);
    assert_eq!(chunk.get_block_state(&pos(8, 71, 6)).block_id, BLOCK_SANDSTONE_SLAB);
    // The roof plate: slabs with a wall center.
    assert_eq!(chunk.get_block_state(&pos(8, 74, 8)).block_id, BLOCK_SANDSTONE);
    assert_eq!(chunk.get_block_state(&pos(9, 74, 8)).block_id, BLOCK_SANDSTONE_SLAB);
}

#[test]
fn desert_well_refuses_stone_with_zero_mutations() {
    let mut chunk = empty_chunk();
    let stone = ChunkBlockState::new("stone").unwrap();
    let origin = pos(8, 70, 8);
    chunk.set_block_state(&origin, stone);
    let writes_before = chunk.cells.len();
    let mut g = RandomGenerator::legacy_from_seed(0);
    let placed = DesertWellFeature.generate(&mut chunk, -64, 384, "well", &mut g, origin);
    assert!(!placed);
    assert_eq!(chunk.cells.len(), writes_before);
    assert_eq!(chunk.get_block_state(&origin).block_id, BLOCK_STONE);
}

#[test]
fn desert_well_is_deterministic_across_runs() {
    let mut c1 = empty_chunk();
    let mut c2 = empty_chunk();
    let sand = ChunkBlockState::new("sand").unwrap();
    let origin = pos(8, 70, 8);
    c1.set_block_state(&origin, sand);
    c2.set_block_state(&origin, sand);
    let mut g1 = RandomGenerator::xoroshiro_from_seed(77);
    let mut g2 = RandomGenerator::xoroshiro_from_seed(77);
    assert_eq!(
        DesertWellFeature.generate(&mut c1, -64, 384, "well", &mut g1, origin),
        DesertWellFeature.generate(&mut c2, -64, 384, "well", &mut g2, origin)
    );
    assert!(g1 == g2);
    assert_eq!(c1.cells.len(), c2.cells.len());
    for dx in -2..=2 {
        for dy in -2..=4 {
            for dz in -2..=2 {
                let p = pos(8 + dx, 70 + dy, 8 + dz);
                assert_eq!(
                    c1.get_block_state(&p).state_id,
                    c2.get_block_state(&p).state_id
                );
            }
        }
    }
}

#[test]
fn trunk_placer_fixed_height() {
    let placer = TrunkPlacer {
        base_height: 4,
        height_rand_a: 0,
        height_rand_b: 0,
        kind: TrunkType::Straight,
    };
    for seed in 0..10u64 {
        let mut g = RandomGenerator::legacy_from_seed(seed);
        assert_eq!(placer.get_height(&mut g), 4);
        let mut gx = RandomGenerator::xoroshiro_from_seed(seed);
        assert_eq!(placer.get_height(&mut gx), 4);
    }
}

#[test]
fn straight_trunk_stamps_logs_into_air() {
    let mut chunk = empty_chunk();
    let log = ChunkBlockState::new("oak_log").unwrap();
    let placer = TrunkPlacer {
        base_height: 4,
        height_rand_a: 0,
        height_rand_b: 0,
        kind: TrunkType::Straight,
    };
    let placed = placer.generate(4, pos(0, 10, 0), &mut chunk, &log);
    assert!(placed);
    for i in 0..4 {
        assert_eq!(chunk.get_block_state(&pos(0, 10 + i, 0)).block_id, BLOCK_OAK_LOG);
    }
    assert!(chunk.get_block_state(&pos(0, 14, 0)).is_air());
}

#[test]
fn unimplemented_trunk_shapes_fail_closed() {
    let mut chunk = empty_chunk();
    let log = ChunkBlockState::new("oak_log").unwrap();
    let placer = TrunkPlacer {
        base_height: 4,
        height_rand_a: 0,
        height_rand_b: 0,
        kind: TrunkType::Fancy,
    };
    let writes_before = chunk.cells.len();
    assert!(!placer.generate(4, pos(0, 10, 0), &mut chunk, &log));
    assert_eq!(chunk.cells.len(), writes_before);
}

#[test]
fn tree_generates_a_trunk_in_open_air() {
    let mut chunk = empty_chunk();
    let feature = TreeFeature {
        trunk_provider: worldgen::block_state_provider::BlockStateProvider::SimpleStateProvider(
            worldgen::block_state_provider::SimpleStateProvider {
                state: ChunkBlockState::new("oak_log").unwrap(),
            },
        ),
        trunk_placer: TrunkPlacer {
            base_height: 5,
            height_rand_a: 0,
            height_rand_b: 0,
            kind: TrunkType::Straight,
        },
        minimum_size: FeatureSize {
            min_clipped_height: None,
            limit: 1,
            lower_size: 0,
            upper_size: 1,
        },
        ignore_vines: false,
    };
    let mut g = RandomGenerator::legacy_from_seed(0);
    let placed = feature.generate(&mut chunk, -64, 384, "tree", &mut g, pos(0, 10, 0), 0);
    assert!(placed);
    assert_eq!(chunk.get_block_state(&pos(0, 10, 0)).block_id, BLOCK_OAK_LOG);
    assert_eq!(chunk.get_block_state(&pos(0, 14, 0)).block_id, BLOCK_OAK_LOG);
}

#[test]
fn uniform_height_provider_draws_inclusively() {
    let p = HeightProvider::Uniform(UniformHeightProvider {
        min_inclusive: YOffset::Absolute(10),
        max_inclusive: YOffset::Absolute(12),
    });
    let mut g = RandomGenerator::legacy_from_seed(5);
    for _ in 0..30 {
        let y = p.get(&mut g, -64, 384, );
        assert!((10..=12).contains(&y));
    }
}

#[test]
fn height_anchors_resolve_against_world_shape() {
    assert_eq!(YOffset::Absolute(30).get_y(-64, 384), 30);
    assert_eq!(YOffset::AboveBottom(6).get_y(-64, 384), -58);
    assert_eq!(YOffset::BelowTop(9).get_y(-64, 384), -64 + 384 - 1 - 9);
}

#[test]
fn trapezoid_degrades_on_empty_range() {
    let p = TrapezoidHeightProvider {
        min_inclusive: YOffset::Absolute(20),
        max_inclusive: YOffset::Absolute(10),
        plateau: None,
    };
    let mut g = RandomGenerator::legacy_from_seed(0);
    let before = g;
    assert_eq!(p.get(&mut g, -64, 384), 20);
    assert!(g == before);
}

#[test]
fn trapezoid_with_covering_plateau_is_uniform() {
    let p = TrapezoidHeightProvider {
        min_inclusive: YOffset::Absolute(10),
        max_inclusive: YOffset::Absolute(14),
        plateau: Some(100),
    };
    let mut g = RandomGenerator::legacy_from_seed(2);
    for _ in 0..20 {
        let y = p.get(&mut g, -64, 384);
        assert!((10..=14).contains(&y));
    }
}

#[test]
fn trapezoid_sums_two_bounded_draws() {
    let p = TrapezoidHeightProvider {
        min_inclusive: YOffset::Absolute(0),
        max_inclusive: YOffset::Absolute(10),
        plateau: Some(0),
    };
    let mut g = RandomGenerator::legacy_from_seed(2);
    for _ in 0..40 {
        let y = p.get(&mut g, -64, 384);
        assert!((0..=10).contains(&y));
    }
}
