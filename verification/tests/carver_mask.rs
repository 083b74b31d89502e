//! The carving mask's idempotence and the carver's integer decisions.

use worldgen::block::ChunkBlockState;
use worldgen::block::BLOCK_AIR;
use worldgen::block::BLOCK_LAVA;
use worldgen::carver::CaveCraver;
use worldgen::chunk::CarvingMask;
use worldgen::chunk::ProtoChunk;
use worldgen::height_provider::HeightProvider;
use worldgen::height_provider::UniformHeightProvider;
use worldgen::height_provider::YOffset;
use worldgen::math::BlockPos;
use worldgen::random::RandomGenerator;

fn carver() -> CaveCraver {
    CaveCraver {
        y: HeightProvider::Uniform(UniformHeightProvider {
            min_inclusive: YOffset::AboveBottom(8),
            max_inclusive: YOffset::Absolute(60),
        }),
        lava_level: YOffset::AboveBottom(8),
        probability: 0x40_0000,
    }
}

fn empty_chunk() -> ProtoChunk {
    let air = ChunkBlockState::air();
    ProtoChunk::new(-64, 384, air, vec![vec![String::from("wells")]], 0)
}

#[test]
fn mask_marking_twice_has_no_further_effect() {
    let mut mask = CarvingMask::new(-64, 384);
    assert!(!mask.get(3, 5, 10));
    mask.set(3, 5, 10);
    assert!(mask.get(3, 5, 10));
    let bits_before = mask.bits.clone();
    mask.set(3, 5, 10);
    assert!(mask.get(3, 5, 10));
    assert_eq!(mask.bits, bits_before);
    assert!(!mask.get(4, 5, 10));
}

#[test]
fn carve_cell_skips_a_masked_cell() {
    let c = carver();
    let mut chunk = empty_chunk();
    let mut mask = CarvingMask::new(-64, 384);
    let stone = ChunkBlockState::new("stone").unwrap();
    let p = BlockPos::new(3, 100, 5);
    chunk.set_block_state(&p, stone);
    let first = c.carve_cell(&mut chunk, &mut mask, &p, 3, 5, -64, 384, false);
    assert!(!first);
    assert_eq!(chunk.get_block_state(&p).block_id, BLOCK_AIR);
    // Re-fill the cell by hand; a second excavation must be skipped.
    chunk.set_block_state(&p, stone);
    let writes_before = chunk.cells.len();
    let second = c.carve_cell(&mut chunk, &mut mask, &p, 3, 5, -64, 384, false);
    assert!(!second);
    assert_eq!(chunk.cells.len(), writes_before);
    assert_eq!(chunk.get_block_state(&p).block_id, worldgen::block::BLOCK_STONE);
}

#[test]
fn carve_writes_lava_below_the_lava_level() {
    let c = carver();
    let mut chunk = empty_chunk();
    let mut mask = CarvingMask::new(-64, 384);
    let deep = BlockPos::new(0, -60, 0);
    c.carve_cell(&mut chunk, &mut mask, &deep, 0, 0, -64, 384, false);
    assert_eq!(chunk.get_block_state(&deep).block_id, BLOCK_LAVA);
    let state = c.get_state(&BlockPos::new(0, -56, 0), -64, 384);
    assert_eq!(state.block_id, BLOCK_LAVA);
    let state = c.get_state(&BlockPos::new(0, -55, 0), -64, 384);
    assert_eq!(state.block_id, BLOCK_AIR);
}

#[test]
fn carve_at_point_reports_disturbed_grass() {
    let c = carver();
    let mut chunk = empty_chunk();
    let grass = ChunkBlockState::new("grass_block").unwrap();
    let p = BlockPos::new(1, 80, 1);
    chunk.set_block_state(&p, grass);
    let saw = c.carve_at_point(&mut chunk, &p, -64, 384, false);
    assert!(saw);
    let saw_plain = c.carve_at_point(&mut chunk, &BlockPos::new(2, 80, 2), -64, 384, false);
    assert!(!saw_plain);
}

#[test]
fn cave_count_is_biased_and_bounded() {
    let c = carver();
    for seed in 0..50u64 {
        let mut g = RandomGenerator::legacy_from_seed(seed);
        let n = c.cave_count(&mut g);
        assert!(n < 15);
    }
    // Determinism: same seed, same count.
    let mut a = RandomGenerator::xoroshiro_from_seed(9);
    let mut b = RandomGenerator::xoroshiro_from_seed(9);
    assert_eq!(c.cave_count(&mut a), c.cave_count(&mut b));
}

#[test]
fn should_carve_follows_the_probability_fraction() {
    let never = CaveCraver { probability: 0, ..carver() };
    let always = CaveCraver { probability: 0xFF_FFFF, ..carver() };
    let mut hits = 0;
    for seed in 0..40u64 {
        let mut g = RandomGenerator::legacy_from_seed(seed);
        if never.should_carve(&mut g) {
            hits += 1;
        }
        let mut g = RandomGenerator::legacy_from_seed(seed);
        assert!(always.should_carve(&mut g));
    }
    assert!(hits <= 1);
}

#[test]
fn cave_origin_lies_in_the_chunk_footprint() {
    let c = carver();
    let mut g = RandomGenerator::legacy_from_seed(4);
    let origin = c.cave_origin(&mut g, 3, -2, -64, 384);
    assert!(origin.0.x >= 48 && origin.0.x < 64);
    assert!(origin.0.z >= -32 && origin.0.z < -16);
    assert!(origin.0.y >= -64 && origin.0.y < 320);
}
