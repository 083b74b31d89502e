use worldgen::block::ChunkBlockState;

#[test]
fn not_existing() {
    let result = ChunkBlockState::new("this_block_does_not_exist");
    assert!(result.is_none());
}

#[test]
fn does_exist() {
    let result = ChunkBlockState::new("dirt");
    assert!(result.is_some());
}

#[test]
fn state_equality_is_state_id_alone() {
    let a = ChunkBlockState { state_id: 4, block_id: 4, air: false };
    let b = ChunkBlockState { state_id: 4, block_id: 9, air: true };
    let c = ChunkBlockState { state_id: 5, block_id: 4, air: false };
    assert!(a == b);
    assert!(a != c);
}

#[test]
fn state_accessors() {
    let s = ChunkBlockState::new("sand").unwrap();
    assert_eq!(s.get_id(), worldgen::block::BLOCK_SAND);
    assert!(!s.is_air());
    assert!(s.of_block(worldgen::block::BLOCK_SAND));
    assert!(!s.of_block(worldgen::block::BLOCK_DIRT));
    let air = ChunkBlockState::new("air").unwrap();
    assert!(air.is_air());
}
