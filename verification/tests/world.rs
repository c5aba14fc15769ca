use quill_ecs::world::{chunk_relative_pos, BlockPosition, ChunkPosition};

#[test]
fn chunk_position_new_keeps_coordinates() {
    let p = ChunkPosition::new(3, -8);
    assert_eq!(p.x, 3);
    assert_eq!(p.z, -8);
}

#[test]
fn manhattan_distance_sums_absolute_differences() {
    let a = ChunkPosition::new(0, 0);
    let b = ChunkPosition::new(3, 4);
    assert_eq!(a.manhattan_distance(b), 7);
    assert_eq!(b.manhattan_distance(a), 7);
    let c = ChunkPosition::new(-5, 2);
    assert_eq!(a.manhattan_distance(c), 7);
    assert_eq!(a.manhattan_distance(a), 0);
}

#[test]
fn block_chunk_pos_floors_by_sixteen() {
    assert_eq!(BlockPosition::new(0, 0, 0).chunk_pos(), ChunkPosition::new(0, 0));
    assert_eq!(BlockPosition::new(15, 70, 15).chunk_pos(), ChunkPosition::new(0, 0));
    assert_eq!(BlockPosition::new(16, 70, 31).chunk_pos(), ChunkPosition::new(1, 1));
    // Negative coordinates floor downwards, not towards zero.
    assert_eq!(BlockPosition::new(-1, 0, -16).chunk_pos(), ChunkPosition::new(-1, -1));
    assert_eq!(BlockPosition::new(-17, 0, 5).chunk_pos(), ChunkPosition::new(-2, 0));
}

#[test]
fn block_positions_add_componentwise() {
    let p = BlockPosition::new(1, 2, 3) + BlockPosition::new(4, -5, 6);
    assert_eq!(p, BlockPosition::new(5, -3, 9));
}

#[test]
fn chunk_relative_pos_keeps_low_bits() {
    assert_eq!(chunk_relative_pos(BlockPosition::new(0, 0, 0)), (0, 0, 0));
    assert_eq!(chunk_relative_pos(BlockPosition::new(17, 63, 31)), (1, 63, 15));
    // A negative coordinate is relative to the floor of its chunk.
    assert_eq!(chunk_relative_pos(BlockPosition::new(-1, 2, -16)).0, 15);
    assert_eq!(chunk_relative_pos(BlockPosition::new(-1, 2, -16)).2, 0);
}
