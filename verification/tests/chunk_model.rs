//! The chunk model, the block-event record, and the piston movability
//! rule.

use worldgen::block::Block;
use worldgen::block::BlockStateInfo;
use worldgen::block::ChunkBlockState;
use worldgen::block_event::CBlockEvent;
use worldgen::block_event::VarInt;
use worldgen::chunk::ProtoChunk;
use worldgen::math::BlockPos;
use worldgen::math::Vector3;
use worldgen::piston::PistonBlock;

fn empty_chunk() -> ProtoChunk {
    let air = ChunkBlockState::air();
    ProtoChunk::new(-64, 384, air, vec![vec![String::from("wells")]], 0)
}

#[test]
fn chunk_reads_default_until_written_and_last_write_wins() {
    let mut chunk = empty_chunk();
    let p = BlockPos::new(3, 10, -5);
    assert!(chunk.get_block_state(&p).is_air());
    let stone = ChunkBlockState::new("stone").unwrap();
    let dirt = ChunkBlockState::new("dirt").unwrap();
    chunk.set_block_state(&p, stone);
    assert_eq!(chunk.get_block_state(&p).block_id, worldgen::block::BLOCK_STONE);
    chunk.set_block_state(&p, dirt);
    assert_eq!(chunk.get_block_state(&p).block_id, worldgen::block::BLOCK_DIRT);
    // A neighboring cell keeps its reading.
    assert!(chunk.get_block_state(&BlockPos::new(3, 11, -5)).is_air());
    assert_eq!(chunk.bottom_y(), -64);
}

#[test]
fn top_height_is_one_above_the_highest_block() {
    let mut chunk = empty_chunk();
    assert_eq!(chunk.top_block_height_exclusive(0, 0), -64);
    let stone = ChunkBlockState::new("stone").unwrap();
    chunk.set_block_state(&BlockPos::new(0, 12, 0), stone);
    chunk.set_block_state(&BlockPos::new(0, 3, 0), stone);
    assert_eq!(chunk.top_block_height_exclusive(0, 0), 13);
    assert_eq!(chunk.top_block_height_exclusive(1, 0), -64);
}

#[test]
fn position_offsets_compose() {
    let p = BlockPos::new(5, 6, 7);
    assert_eq!(p.up(), BlockPos::new(5, 7, 7));
    assert_eq!(p.down(), BlockPos::new(5, 5, 7));
    assert_eq!(p.offset(Vector3::new(-2, 1, 3)), BlockPos::new(3, 7, 10));
    assert_eq!(p.0.add_raw(1, 0, -1), Vector3::new(6, 6, 6));
}

#[test]
fn block_event_carries_its_fields() {
    let e = CBlockEvent::new(BlockPos::new(1, 2, 3), 0, 4, VarInt(33));
    assert_eq!(e.location, BlockPos::new(1, 2, 3));
    assert_eq!(e.kind, 0);
    assert_eq!(e.data, 4);
    assert_eq!(e.block_type, VarInt(33));
}

#[test]
fn pistons_move_air_and_ordinary_blocks_but_not_anchors() {
    let air_state = BlockStateInfo { air: true, solid: false, replaceable: true };
    let solid_state = BlockStateInfo { air: false, solid: true, replaceable: false };
    let plain = Block { id: 1, default_state_id: 1 };
    assert!(PistonBlock::is_movable(&plain, &air_state));
    assert!(PistonBlock::is_movable(&plain, &solid_state));
    let anchored = Block {
        id: worldgen::piston::BLOCK_IMMOVABLE_OBSIDIAN,
        default_state_id: worldgen::piston::BLOCK_IMMOVABLE_OBSIDIAN,
    };
    assert!(!PistonBlock::is_movable(&anchored, &solid_state));
    assert!(PistonBlock::is_movable(&anchored, &air_state));
}

#[test]
fn biome_feature_lookup_scans_the_first_step() {
    let chunk = ProtoChunk::new(
        -64,
        384,
        ChunkBlockState::air(),
        vec![vec![String::from("a"), String::from("b")], vec![String::from("c")]],
        0,
    );
    assert!(chunk.biome_has_feature("a"));
    assert!(chunk.biome_has_feature("b"));
    // Later steps are not the first step.
    assert!(!chunk.biome_has_feature("c"));
}
