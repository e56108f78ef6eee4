use voxel::block::Block;
use voxel::chunk::{Chunk, FaceVertex};
use voxel::chunk_buffer::ChunkBuffer;
use voxel::game::GameState;
use voxel::picking::{center_pixel, decode, decode_pixel, encode, to_absolute};
use voxel::types::{BlockPos, ChunkPos, Face};

#[test]
fn air_chunk_has_empty_mesh() {
    assert!(Chunk::new().as_faces().is_empty());
    assert!(Block::Air.as_faces().is_empty());
}

#[test]
fn dirt_block_shows_twelve_corners() {
    let faces = Block::Dirt.as_faces();
    assert_eq!(faces.len(), 12);
    assert_eq!(faces[0], (Face::Top, BlockPos::new(0, 1, 0)));
    assert_eq!(faces[1], (Face::Top, BlockPos::new(1, 1, 1)));
    assert_eq!(faces[6], (Face::East, BlockPos::new(1, 1, 1)));
    assert_eq!(faces[11], (Face::West, BlockPos::new(0, 0, 1)));
}

#[test]
fn single_block_mesh_has_twelve_records() {
    let mut c = Chunk::new();
    let p = BlockPos::new(3, 14, 5);
    *c.get_mut(p) = Block::Dirt;
    let mesh = c.as_faces();
    assert_eq!(mesh.len(), 12);
    assert!(mesh.iter().all(|v| v.pos == p));
    for f in Face::values() {
        assert_eq!(mesh.iter().filter(|v| v.face == f).count(), 2);
    }
    assert_eq!(mesh[2], FaceVertex { face: Face::Bottom, pos: p, corner: BlockPos::new(0, 0, 1) });
}

#[test]
fn mesh_follows_storage_order() {
    let mut c = Chunk::new();
    *c.get_mut(BlockPos::new(1, 0, 0)) = Block::Dirt;
    *c.get_mut(BlockPos::new(0, 0, 15)) = Block::Dirt;
    let mesh = c.as_faces();
    assert_eq!(mesh.len(), 24);
    assert_eq!(mesh[0].pos, BlockPos::new(0, 0, 15));
    assert_eq!(mesh[12].pos, BlockPos::new(1, 0, 0));
    assert_eq!(Chunk::new_with(Block::Dirt).as_faces().len(), 4096 * 12);
}

#[test]
fn pick_id_round_trips_over_whole_domain() {
    for ox in -1..=1 {
        for oy in -1..=1 {
            for oz in -1..=1 {
                for x in 0..16u8 {
                    for y in 0..16u8 {
                        for z in 0..16u8 {
                            for f in Face::values() {
                                let o = ChunkPos::new(ox, oy, oz);
                                let p = BlockPos::new(x, y, z);
                                let id = encode(o, p, f).unwrap();
                                assert!(id < 1 << 22);
                                assert_eq!(decode(id), (o, p, f));
                                assert_eq!(decode_pixel(id), Some((o, p, f)));
                            }
                        }
                    }
                }
            }
        }
    }
}

#[test]
fn pick_id_exact_layout() {
    let id = encode(ChunkPos::new(0, 0, 0), BlockPos::new(15, 0, 0), Face::East).unwrap();
    assert_eq!(id, 0x15F007);
    let id = encode(ChunkPos::new(-1, 1, 0), BlockPos::new(1, 2, 3), Face::West).unwrap();
    assert_eq!(id, (0 << 20) | (2 << 18) | (1 << 16) | (1 << 12) | (2 << 8) | (3 << 4) | (5 << 1) | 1);
}

#[test]
fn far_chunks_are_not_encoded() {
    assert_eq!(encode(ChunkPos::new(2, 0, 0), BlockPos::new(0, 0, 0), Face::Top), None);
    assert_eq!(encode(ChunkPos::new(0, -2, 0), BlockPos::new(0, 0, 0), Face::Top), None);
    assert_eq!(encode(ChunkPos::new(0, 0, 7), BlockPos::new(0, 0, 0), Face::Top), None);
}

#[test]
fn empty_pixel_is_no_hit() {
    assert_eq!(decode_pixel(0), None);
    assert_eq!(decode_pixel(0x15F006), None);
    assert_eq!(decode_pixel((6 << 1) | 1), None);
    assert_eq!(decode_pixel((7 << 1) | 1), None);
}

#[test]
fn center_pixel_of_window() {
    assert_eq!(center_pixel(1024, 768), Some((511, 385)));
    assert_eq!(center_pixel(4, 4), Some((1, 3)));
    assert_eq!(center_pixel(0, 0), None);
    assert_eq!(center_pixel(1, 1), None);
    assert_eq!(center_pixel(2, 2), None);
    assert_eq!(center_pixel(800, 0), None);
}

#[test]
fn hit_becomes_absolute_selection() {
    let hit = Some((ChunkPos::new(-1, 0, 1), BlockPos::new(2, 3, 4), Face::North));
    assert_eq!(
        to_absolute(ChunkPos::new(5, 6, 7), hit),
        Some((ChunkPos::new(4, 6, 8), BlockPos::new(2, 3, 4), Face::North))
    );
    assert_eq!(to_absolute(ChunkPos::new(5, 6, 7), None), None);
    assert_eq!(to_absolute(ChunkPos::new(i32::MIN, 0, 0), hit), None);
}

#[test]
fn second_update_rebuilds_nothing() {
    let mut game = GameState::new();
    let mut cache = ChunkBuffer::new(2);
    let center = ChunkPos::new(0, 0, 0);
    let first = cache.update(&mut game, center);
    assert_eq!(first.len(), 27);
    assert!(first.iter().all(|e| e.2));
    assert_eq!(first[0].0, ChunkPos::new(-1, -1, -1));
    assert_eq!(first[0].1, ChunkPos::new(-1, -1, -1));
    let second = cache.update(&mut game, center);
    assert_eq!(second.len(), 27);
    assert!(second.iter().all(|e| !e.2));
    assert_eq!(
        first.iter().map(|e| (e.0, e.1)).collect::<Vec<_>>(),
        second.iter().map(|e| (e.0, e.1)).collect::<Vec<_>>()
    );
}

#[test]
fn update_rebuilds_dirty_and_newly_visible_chunks() {
    let mut game = GameState::new();
    let mut cache = ChunkBuffer::new(2);
    cache.update(&mut game, ChunkPos::new(0, 0, 0));
    game.set_selected_block(Some((ChunkPos::new(1, 0, 0), BlockPos::new(0, 0, 0), Face::Top)));
    game.attack();
    assert!(game.chunk(ChunkPos::new(1, 0, 0)).is_dirty());
    let r = cache.update(&mut game, ChunkPos::new(0, 0, 0));
    let rebuilt: Vec<ChunkPos> = r.iter().filter(|e| e.2).map(|e| e.0).collect();
    assert_eq!(rebuilt, vec![ChunkPos::new(1, 0, 0)]);
    assert!(!game.chunk(ChunkPos::new(1, 0, 0)).is_dirty());
    let moved = cache.update(&mut game, ChunkPos::new(1, 0, 0));
    let rebuilt: Vec<ChunkPos> = moved.iter().filter(|e| e.2).map(|e| e.0).collect();
    assert_eq!(rebuilt.len(), 9);
    assert!(rebuilt.iter().all(|p| p.x == 2));
    let center = moved.iter().find(|e| e.1 == ChunkPos::new(0, 0, 0)).unwrap();
    assert_eq!(center.0, ChunkPos::new(1, 0, 0));
}

#[test]
fn update_leaves_far_chunks_dirty() {
    let mut game = GameState::new();
    game.set_selected_block(Some((ChunkPos::new(5, 0, 5), BlockPos::new(0, 0, 0), Face::Top)));
    game.attack();
    let mut cache = ChunkBuffer::new(2);
    cache.update(&mut game, ChunkPos::new(0, 0, 0));
    assert!(game.chunk(ChunkPos::new(5, 0, 5)).is_dirty());
}

#[test]
fn view_distance_is_at_least_two() {
    let mut cache = ChunkBuffer::new(3);
    assert_eq!(cache.get_view_dist(), 3);
    cache.set_view_dist(0);
    assert_eq!(cache.get_view_dist(), 2);
    cache.set_view_dist(1);
    assert_eq!(cache.get_view_dist(), 2);
    cache.set_view_dist(5);
    assert_eq!(cache.get_view_dist(), 5);
    let mut game = GameState::new();
    assert_eq!(cache.update(&mut game, ChunkPos::new(0, 0, 0)).len(), 729);
}
