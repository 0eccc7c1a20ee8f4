use minequad::block::BlockType;
use minequad::chunk::{Chunk, CHUNK_D, CHUNK_VOLUME, CHUNK_W};
use minequad::mesh::{index, Atlas, Vertex};
use minequad::mesher::ChunkRenderer;

/// Flat position of the voxel `(x, y, z)`, matching the chunk's layout.
fn fi(x: usize, y: usize, z: usize) -> usize {
    y * CHUNK_D * CHUNK_W + z * CHUNK_W + x
}

fn atlas() -> Atlas {
    Atlas { texture: 7, size: 8 }
}

fn build(ids: &Vec<BlockType>, position: (i32, i32, i32)) -> ChunkRenderer {
    let chunk = Chunk::from_blocks(position, ids);
    let mut renderer = ChunkRenderer::new();
    renderer.gen_mesh(&chunk, &atlas());
    renderer
}

#[test]
fn air_chunk_builds_empty_mesh() {
    let chunk = Chunk::new();
    let mut renderer = ChunkRenderer::new();
    renderer.gen_mesh(&chunk, &atlas());
    assert_eq!(renderer.mesh.vertices.len(), 0);
    assert_eq!(renderer.mesh.indices.len(), 0);
    assert_eq!(renderer.mesh.texture, 7);
    assert_eq!(renderer.mesh.atlas_size, 8);
}

#[test]
fn single_voxel_emits_six_faces() {
    let mut ids = vec![BlockType::Air; CHUNK_VOLUME];
    ids[fi(5, 5, 5)] = BlockType::Stone;
    let r = build(&ids, (0, 0, 0));
    assert_eq!(r.mesh.vertices.len(), 24);
    assert_eq!(r.mesh.indices.len(), 36);
}

#[test]
fn corner_voxel_still_emits_six_faces() {
    let mut ids = vec![BlockType::Air; CHUNK_VOLUME];
    ids[fi(0, 0, 0)] = BlockType::Stone;
    let r = build(&ids, (0, 0, 0));
    assert_eq!(r.mesh.vertices.len(), 24);
    assert_eq!(r.mesh.indices.len(), 36);
}

#[test]
fn two_adjacent_voxels_share_a_hidden_face() {
    let mut ids = vec![BlockType::Air; CHUNK_VOLUME];
    ids[fi(5, 5, 5)] = BlockType::Stone;
    ids[fi(6, 5, 5)] = BlockType::Stone;
    let r = build(&ids, (0, 0, 0));
    // Ten faces: six per voxel minus the two touching ones.
    assert_eq!(r.mesh.vertices.len(), 40);
    assert_eq!(r.mesh.indices.len(), 60);
}

#[test]
fn solid_two_cube_keeps_only_outer_faces() {
    let mut ids = vec![BlockType::Air; CHUNK_VOLUME];
    for y in 4..6 {
        for z in 4..6 {
            for x in 4..6 {
                ids[fi(x, y, z)] = BlockType::Bricks;
            }
        }
    }
    let r = build(&ids, (0, 0, 0));
    // Every inner face of the 2 x 2 x 2 block is culled: three exposed faces
    // per corner voxel, 24 in all.
    assert_eq!(r.mesh.vertices.len(), 24 * 4);
    assert_eq!(r.mesh.indices.len(), 24 * 6);
}

#[test]
fn full_chunk_keeps_only_the_shell() {
    let ids = vec![BlockType::Stone; CHUNK_VOLUME];
    let r = build(&ids, (0, 0, 0));
    // Six sides of 16 x 16 exposed faces; the whole interior is culled.
    assert_eq!(r.mesh.vertices.len(), 6 * 256 * 4);
    assert_eq!(r.mesh.indices.len(), 6 * 256 * 6);
}

#[test]
fn rebuilding_yields_the_identical_mesh() {
    let mut ids = vec![BlockType::Air; CHUNK_VOLUME];
    ids[fi(1, 2, 3)] = BlockType::Grass;
    ids[fi(1, 3, 3)] = BlockType::Stone;
    ids[fi(15, 0, 15)] = BlockType::Bricks;
    let chunk = Chunk::from_blocks((-32, 16, 48), &ids);
    let mut r1 = ChunkRenderer::new();
    let mut r2 = ChunkRenderer::new();
    r1.gen_mesh(&chunk, &atlas());
    r2.gen_mesh(&chunk, &atlas());
    assert_eq!(r1.mesh.vertices, r2.mesh.vertices);
    assert_eq!(r1.mesh.indices, r2.mesh.indices);
    assert_eq!(r1.mesh.texture, r2.mesh.texture);
    // Rebuilding with the same renderer changes nothing either.
    let before = r1.mesh.clone();
    r1.gen_mesh(&chunk, &atlas());
    assert_eq!(before, r1.mesh);
}

#[test]
fn indices_form_quads_over_fresh_vertices() {
    let mut ids = vec![BlockType::Air; CHUNK_VOLUME];
    ids[fi(5, 5, 5)] = BlockType::Stone;
    let r = build(&ids, (0, 0, 0));
    for face in 0..6u32 {
        let base = 4 * face;
        let quad = &r.mesh.indices[(6 * face) as usize..(6 * face + 6) as usize];
        assert_eq!(quad, &[base, base + 1, base + 2, base + 2, base + 3, base]);
    }
}

#[test]
fn index_appends_one_quad() {
    let mut indices: Vec<u32> = vec![9];
    let mut idx: u32 = 4;
    index(&mut indices, &mut idx);
    assert_eq!(indices, vec![9, 4, 5, 6, 6, 7, 4]);
    assert_eq!(idx, 8);
}

#[test]
fn face_order_and_lights_of_one_voxel() {
    let mut ids = vec![BlockType::Air; CHUNK_VOLUME];
    ids[fi(5, 5, 5)] = BlockType::Stone;
    let r = build(&ids, (0, 0, 0));
    // Faces come out in the fixed order top, bottom, front, back, right,
    // left, each with its own static light.
    let lights: Vec<u32> = r.mesh.vertices.iter().map(|v| v.light).collect();
    for corner in 0..4 {
        assert_eq!(lights[corner], 100);
        assert_eq!(lights[4 + corner], 75);
        assert_eq!(lights[8 + corner], 90);
        assert_eq!(lights[12 + corner], 80);
        assert_eq!(lights[16 + corner], 95);
        assert_eq!(lights[20 + corner], 85);
    }
}

#[test]
fn top_face_corners_of_one_voxel() {
    let mut ids = vec![BlockType::Air; CHUNK_VOLUME];
    ids[fi(0, 0, 0)] = BlockType::Stone;
    let r = build(&ids, (0, 0, 0));
    // Stone is tile one of an eight-wide atlas: left edge numerator one,
    // bottom edge numerator seven.
    let top: Vec<Vertex> = r.mesh.vertices[0..4].to_vec();
    let expect = [
        (-1, 1, 1, 1, 7),
        (1, 1, 1, 2, 7),
        (1, 1, -1, 2, 8),
        (-1, 1, -1, 1, 8),
    ];
    for (v, e) in top.iter().zip(expect.iter()) {
        assert_eq!((v.x2, v.y2, v.z2, v.u, v.v), *e);
        assert_eq!(v.light, 100);
    }
}

#[test]
fn chunk_origin_shifts_every_vertex() {
    let mut ids = vec![BlockType::Air; CHUNK_VOLUME];
    ids[fi(0, 0, 0)] = BlockType::Stone;
    let at_origin = build(&ids, (0, 0, 0));
    let shifted = build(&ids, (16, 0, 32));
    assert_eq!(at_origin.mesh.vertices.len(), shifted.mesh.vertices.len());
    for (a, b) in at_origin.mesh.vertices.iter().zip(shifted.mesh.vertices.iter()) {
        assert_eq!(a.x2 + 32, b.x2);
        assert_eq!(a.y2, b.y2);
        assert_eq!(a.z2 + 64, b.z2);
        assert_eq!((a.u, a.v, a.light), (b.u, b.v, b.light));
    }
}

#[test]
fn block_tiles_stay_inside_the_atlas_and_never_collide() {
    let kinds = [BlockType::Stone, BlockType::Grass, BlockType::Bricks];
    for size in [2u32, 8, 16] {
        let mut tiles = Vec::new();
        for kind in kinds {
            let id = kind.id();
            let u0 = id % size;
            let v0 = size - 1 - id / size;
            assert!(u0 + 1 <= size);
            assert!(v0 + 1 <= size);
            assert!(!tiles.contains(&(u0, v0)));
            tiles.push((u0, v0));
        }
    }
}

#[test]
fn emitted_uvs_match_the_block_tile() {
    for (kind, tile_u, tile_v) in [
        (BlockType::Stone, 1u32, 7u32),
        (BlockType::Grass, 2, 7),
        (BlockType::Bricks, 3, 7),
    ] {
        let mut ids = vec![BlockType::Air; CHUNK_VOLUME];
        ids[fi(2, 2, 2)] = kind;
        let r = build(&ids, (0, 0, 0));
        for v in &r.mesh.vertices {
            assert!(v.u == tile_u || v.u == tile_u + 1);
            assert!(v.v == tile_v || v.v == tile_v + 1);
        }
    }
}
