use voxel::block::Block;
use voxel::chunk::Chunk;
use voxel::chunks::Chunks;
use voxel::game::GameState;
use voxel::types::{BlockPos, ChunkPos, Face, LocalPos};

#[test]
fn normalize_carries_overflow_into_next_chunk() {
    let (c, b) = GameState::normalize(ChunkPos::new(0, 0, 0), LocalPos::new(16, -1, 0));
    assert_eq!(c, ChunkPos::new(1, -1, 0));
    assert_eq!(b, BlockPos::new(0, 15, 0));
}

#[test]
fn normalize_handles_several_chunks_of_offset() {
    let (c, b) = GameState::normalize(ChunkPos::new(5, 5, 5), LocalPos::new(-33, 47, 0));
    assert_eq!(c, ChunkPos::new(2, 7, 5));
    assert_eq!(b, BlockPos::new(15, 15, 0));
    let (c, b) = GameState::normalize(ChunkPos::new(0, 0, 0), LocalPos::new(-128, 127, -16));
    assert_eq!(c, ChunkPos::new(-8, 7, -1));
    assert_eq!(b, BlockPos::new(0, 15, 0));
}

#[test]
fn normalize_keeps_absolute_position() {
    for chunk in [-3i32, 0, 2, 1000] {
        for local in -128i16..128 {
            let l = local as i8;
            let (c, b) = GameState::normalize(ChunkPos::new(chunk, -chunk, chunk), LocalPos::new(l, l, 0));
            assert!(b.x < 16 && b.y < 16 && b.z < 16);
            assert_eq!(c.x as i64 * 16 + b.x as i64, chunk as i64 * 16 + l as i64);
            assert_eq!(c.y as i64 * 16 + b.y as i64, -chunk as i64 * 16 + l as i64);
            assert_eq!(c.z, chunk);
            assert_eq!(b.z, 0);
        }
    }
}

#[test]
fn reading_absent_chunk_stores_nothing() {
    let chunks = Chunks::new();
    assert_eq!(chunks.len(), 0);
    let c = chunks.get(ChunkPos::new(3, -4, 5));
    assert!(!c.is_dirty());
    assert_eq!(c.get(BlockPos::new(1, 2, 3)), Block::Air);
    assert_eq!(chunks.len(), 0);
    assert!(!chunks.contains(ChunkPos::new(3, -4, 5)));
}

#[test]
fn writing_absent_chunk_stores_one_entry() {
    let mut chunks = Chunks::new();
    let pos = ChunkPos::new(-1, 2, 7);
    chunks.set_block(pos, BlockPos::new(15, 0, 9), Block::Dirt);
    assert_eq!(chunks.len(), 1);
    assert!(chunks.contains(pos));
    assert_eq!(chunks.get(pos).get(BlockPos::new(15, 0, 9)), Block::Dirt);
    assert_eq!(chunks.get(pos).get(BlockPos::new(15, 0, 8)), Block::Air);
    assert!(chunks.get(pos).is_dirty());
    chunks.set_block(pos, BlockPos::new(0, 0, 0), Block::Dirt);
    assert_eq!(chunks.len(), 1);
    chunks.set_block(ChunkPos::new(-1, 2, 8), BlockPos::new(0, 0, 0), Block::Dirt);
    assert_eq!(chunks.len(), 2);
    assert_eq!(chunks.get(ChunkPos::new(-1, 2, 8)).get(BlockPos::new(0, 0, 0)), Block::Dirt);
}

#[test]
fn clear_dirty_touches_only_stored_chunks() {
    let mut chunks = Chunks::new();
    chunks.clear_dirty(ChunkPos::new(0, 0, 0));
    assert_eq!(chunks.len(), 0);
    chunks.set_block(ChunkPos::new(0, 0, 0), BlockPos::new(1, 1, 1), Block::Dirt);
    chunks.clear_dirty(ChunkPos::new(0, 0, 0));
    assert!(!chunks.get(ChunkPos::new(0, 0, 0)).is_dirty());
    assert_eq!(chunks.get(ChunkPos::new(0, 0, 0)).get(BlockPos::new(1, 1, 1)), Block::Dirt);
}

#[test]
fn chunk_dirty_flag_follows_mutable_access() {
    let mut c = Chunk::new();
    assert!(!c.is_dirty());
    assert_eq!(c.get(BlockPos::new(0, 0, 0)), Block::Air);
    assert!(!c.is_dirty());
    *c.get_mut(BlockPos::new(4, 5, 6)) = Block::Dirt;
    assert!(c.is_dirty());
    assert_eq!(c.get(BlockPos::new(4, 5, 6)), Block::Dirt);
    c.clear_dirty();
    assert!(!c.is_dirty());
    assert_eq!(c.get(BlockPos::new(4, 5, 6)), Block::Dirt);
    let _ = c.get(BlockPos::new(4, 5, 6));
    assert!(!c.is_dirty());
    let _ = c.get_mut(BlockPos::new(0, 0, 0));
    assert!(c.is_dirty());
}

#[test]
fn new_with_fills_every_cell() {
    let c = Chunk::new_with(Block::Dirt);
    assert!(!c.is_dirty());
    assert_eq!(c.get(BlockPos::new(0, 0, 0)), Block::Dirt);
    assert_eq!(c.get(BlockPos::new(15, 15, 15)), Block::Dirt);
}

#[test]
fn around_radius_one_is_the_center() {
    let center = ChunkPos::new(4, -2, 9);
    assert_eq!(Chunks::around(1, center), vec![(center, ChunkPos::new(0, 0, 0))]);
    assert!(Chunks::around(0, center).is_empty());
}

#[test]
fn around_radius_two_lists_the_cube_in_order() {
    let center = ChunkPos::new(10, 0, -5);
    let r = Chunks::around(2, center);
    assert_eq!(r.len(), 27);
    assert_eq!(r[0], (ChunkPos::new(9, -1, -6), ChunkPos::new(-1, -1, -1)));
    assert_eq!(r[1], (ChunkPos::new(9, -1, -5), ChunkPos::new(-1, -1, 0)));
    assert_eq!(r[3], (ChunkPos::new(9, 0, -6), ChunkPos::new(-1, 0, -1)));
    assert_eq!(r[13], (center, ChunkPos::new(0, 0, 0)));
    assert_eq!(r[26], (ChunkPos::new(11, 1, -4), ChunkPos::new(1, 1, 1)));
    for (abs, rel) in &r {
        assert!(rel.x.abs() < 2 && rel.y.abs() < 2 && rel.z.abs() < 2);
        assert_eq!(*abs, ChunkPos::new(center.x + rel.x, center.y + rel.y, center.z + rel.z));
    }
    assert_eq!(Chunks::around(2, center), r);
    assert_eq!(Chunks::around(3, center).len(), 125);
}

#[test]
fn new_world_has_a_layer_of_dirt() {
    let game = GameState::new();
    assert!(game.get_selected_block().is_none());
    assert_eq!(game.chunk(ChunkPos::new(0, 0, 0)).get(BlockPos::new(7, 7, 7)), Block::Dirt);
    assert_eq!(game.chunk(ChunkPos::new(-10, 0, -10)).get(BlockPos::new(0, 0, 0)), Block::Dirt);
    assert_eq!(game.chunk(ChunkPos::new(9, 0, 9)).get(BlockPos::new(15, 15, 15)), Block::Dirt);
    assert_eq!(game.chunk(ChunkPos::new(10, 0, 0)).get(BlockPos::new(0, 0, 0)), Block::Air);
    assert_eq!(game.chunk(ChunkPos::new(0, 1, 0)).get(BlockPos::new(0, 0, 0)), Block::Air);
    assert!(!game.chunk(ChunkPos::new(0, 0, 0)).is_dirty());
}

#[test]
fn place_across_chunk_border_writes_next_chunk() {
    let mut game = GameState::new();
    game.set_selected_block(Some((ChunkPos::new(0, 0, 0), BlockPos::new(15, 0, 0), Face::East)));
    assert!(game.can_place());
    let mut fresh = GameState::new();
    fresh.set_selected_block(Some((ChunkPos::new(0, 1, 0), BlockPos::new(15, 0, 0), Face::East)));
    fresh.place();
    assert_eq!(fresh.chunk(ChunkPos::new(1, 1, 0)).get(BlockPos::new(0, 0, 0)), Block::Dirt);
    assert!(fresh.chunk(ChunkPos::new(1, 1, 0)).is_dirty());
    assert_eq!(fresh.chunk(ChunkPos::new(0, 1, 0)).get(BlockPos::new(15, 0, 0)), Block::Air);
}

#[test]
fn place_end_to_end_writes_dirt_into_neighbour_chunk() {
    let mut game = GameState::new();
    game.set_selected_block(Some((ChunkPos::new(1, 0, 0), BlockPos::new(0, 0, 0), Face::Top)));
    game.attack();
    assert_eq!(game.chunk(ChunkPos::new(1, 0, 0)).get(BlockPos::new(0, 0, 0)), Block::Air);
    game.set_selected_block(Some((ChunkPos::new(0, 0, 0), BlockPos::new(15, 0, 0), Face::East)));
    game.place();
    assert_eq!(game.chunk(ChunkPos::new(1, 0, 0)).get(BlockPos::new(0, 0, 0)), Block::Dirt);
    assert_eq!(
        game.get_selected_block(),
        Some((ChunkPos::new(0, 0, 0), BlockPos::new(15, 0, 0), Face::East))
    );
}

#[test]
fn place_below_bottom_moves_down_a_chunk() {
    let mut game = GameState::new();
    game.set_selected_block(Some((ChunkPos::new(2, 0, 3), BlockPos::new(4, 0, 6), Face::Bottom)));
    game.place();
    assert_eq!(game.chunk(ChunkPos::new(2, -1, 3)).get(BlockPos::new(4, 15, 6)), Block::Dirt);
}

#[test]
fn attack_removes_selected_block() {
    let mut game = GameState::new();
    game.set_selected_block(Some((ChunkPos::new(3, 0, 3), BlockPos::new(1, 2, 3), Face::Top)));
    game.attack();
    assert_eq!(game.chunk(ChunkPos::new(3, 0, 3)).get(BlockPos::new(1, 2, 3)), Block::Air);
    assert_eq!(game.chunk(ChunkPos::new(3, 0, 3)).get(BlockPos::new(1, 2, 4)), Block::Dirt);
    assert!(game.chunk(ChunkPos::new(3, 0, 3)).is_dirty());
}

#[test]
fn edits_without_selection_do_nothing() {
    let mut game = GameState::new();
    game.attack();
    game.place();
    assert!(!game.chunk(ChunkPos::new(0, 0, 0)).is_dirty());
    assert_eq!(game.chunk(ChunkPos::new(0, 1, 0)).get(BlockPos::new(0, 0, 0)), Block::Air);
}

#[test]
fn can_place_refuses_the_edge_of_the_grid() {
    let mut game = GameState::new();
    game.set_selected_block(Some((ChunkPos::new(i32::MAX, 0, 0), BlockPos::new(15, 0, 0), Face::East)));
    assert!(!game.can_place());
    game.set_selected_block(Some((ChunkPos::new(i32::MAX, 0, 0), BlockPos::new(14, 0, 0), Face::East)));
    assert!(game.can_place());
}
