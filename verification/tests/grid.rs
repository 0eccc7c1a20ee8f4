use minequad::block::{BlockSides, BlockType, RenderSides};
use minequad::chunk::{Chunk, CHUNK_D, CHUNK_H, CHUNK_VOLUME, CHUNK_W};
use std::cell::Cell;

/// Flat position of the voxel `(x, y, z)`, matching the chunk's layout.
fn fi(x: usize, y: usize, z: usize) -> usize {
    y * CHUNK_D * CHUNK_W + z * CHUNK_W + x
}

#[test]
fn block_ids_are_the_tile_indices() {
    assert_eq!(BlockType::Air.id(), 0);
    assert_eq!(BlockType::Stone.id(), 1);
    assert_eq!(BlockType::Grass.id(), 2);
    assert_eq!(BlockType::Bricks.id(), 3);
}

#[test]
fn only_air_is_not_solid() {
    assert!(!BlockType::Air.is_solid());
    assert!(BlockType::Stone.is_solid());
    assert!(BlockType::Grass.is_solid());
    assert!(BlockType::Bricks.is_solid());
}

#[test]
fn side_lights_are_distinct_and_ordered() {
    let sides = [
        BlockSides::Top,
        BlockSides::Bottom,
        BlockSides::Front,
        BlockSides::Back,
        BlockSides::Right,
        BlockSides::Left,
    ];
    for a in 0..sides.len() {
        for b in 0..a {
            assert_ne!(sides[a].light(), sides[b].light());
        }
    }
    for s in sides {
        assert!(BlockSides::Bottom.light() <= s.light());
        assert!(s.light() <= BlockSides::Top.light());
    }
}

#[test]
fn new_chunk_is_all_air() {
    let c = Chunk::new();
    assert_eq!(c.position(), (0, 0, 0));
    for y in 0..CHUNK_H {
        for z in 0..CHUNK_D {
            for x in 0..CHUNK_W {
                assert_eq!(c.get(x, y, z), BlockType::Air);
            }
        }
    }
}

#[test]
fn from_blocks_stores_every_voxel() {
    let mut ids = vec![BlockType::Air; CHUNK_VOLUME];
    ids[fi(3, 1, 2)] = BlockType::Stone;
    ids[fi(0, 15, 15)] = BlockType::Bricks;
    let c = Chunk::from_blocks((8, -16, 24), &ids);
    assert_eq!(c.position(), (8, -16, 24));
    assert_eq!(c.get(3, 1, 2), BlockType::Stone);
    assert_eq!(c.get(0, 15, 15), BlockType::Bricks);
    assert_eq!(c.get(3, 2, 2), BlockType::Air);
}

#[test]
fn populate_uses_world_coordinates() {
    let mut c = Chunk::new();
    // A flat platform: stone at world height four and below.
    let gen = |_x: i32, y: i32, _z: i32| {
        if y <= 4 {
            BlockType::Stone
        } else {
            BlockType::Air
        }
    };
    c.populate((32, 0, -16), &gen);
    assert_eq!(c.position(), (32, 0, -16));
    for y in 0..CHUNK_H {
        let expect = if y <= 4 { BlockType::Stone } else { BlockType::Air };
        for z in 0..CHUNK_D {
            for x in 0..CHUNK_W {
                assert_eq!(c.get(x, y, z), expect);
            }
        }
    }
    // Shift the origin up: the same generator now fills nothing.
    c.populate((0, 5, 0), &gen);
    assert_eq!(c.get(7, 0, 7), BlockType::Air);
}

#[test]
fn populate_visits_every_cell_once() {
    let calls = Cell::new(0usize);
    let gen = |_x: i32, _y: i32, _z: i32| {
        calls.set(calls.get() + 1);
        BlockType::Grass
    };
    let mut c = Chunk::new();
    c.populate((0, 0, 0), &gen);
    assert_eq!(calls.get(), CHUNK_VOLUME);
    assert_eq!(c.get(15, 15, 15), BlockType::Grass);
}

#[test]
fn out_of_bounds_neighbours_never_block() {
    let mut ids = vec![BlockType::Stone; CHUNK_VOLUME];
    ids[fi(8, 8, 8)] = BlockType::Air;
    let c = Chunk::from_blocks((0, 0, 0), &ids);
    assert!(!c.is_blocking(-1, 0, 0));
    assert!(!c.is_blocking(0, -1, 0));
    assert!(!c.is_blocking(0, 0, -1));
    assert!(!c.is_blocking(16, 0, 0));
    assert!(!c.is_blocking(0, 16, 0));
    assert!(!c.is_blocking(0, 0, 16));
    assert!(c.is_blocking(0, 0, 0));
    assert!(!c.is_blocking(8, 8, 8));
}

#[test]
fn visible_sides_of_an_isolated_voxel() {
    let mut ids = vec![BlockType::Air; CHUNK_VOLUME];
    ids[fi(5, 6, 7)] = BlockType::Stone;
    let c = Chunk::from_blocks((0, 0, 0), &ids);
    let sides = c.visible_sides(5, 6, 7);
    assert_eq!(sides, RenderSides::all());
}

#[test]
fn visible_sides_of_a_buried_voxel() {
    let ids = vec![BlockType::Stone; CHUNK_VOLUME];
    let c = Chunk::from_blocks((0, 0, 0), &ids);
    let sides = c.visible_sides(8, 8, 8);
    assert_eq!(sides, RenderSides::default());
    // A voxel on the floor still sees the boundary below it.
    let sides = c.visible_sides(8, 0, 8);
    assert_eq!(sides.bottom, Some(()));
    assert_eq!(sides.top, None);
}

#[test]
fn visible_sides_of_air_are_none() {
    let c = Chunk::new();
    assert_eq!(c.visible_sides(0, 0, 0), RenderSides::default());
}

#[test]
fn side_offsets_point_at_the_neighbour() {
    assert_eq!(BlockSides::Top.offset(), (0, 1, 0));
    assert_eq!(BlockSides::Bottom.offset(), (0, -1, 0));
    assert_eq!(BlockSides::Front.offset(), (0, 0, 1));
    assert_eq!(BlockSides::Back.offset(), (0, 0, -1));
    assert_eq!(BlockSides::Right.offset(), (1, 0, 0));
    assert_eq!(BlockSides::Left.offset(), (-1, 0, 0));
}
