//! The mesh artifact and its building blocks: exact-integer vertices, the
//! texture-atlas description, and the quad index pattern.
//!
//! Geometry is stored without floating point. A position component is kept in
//! half-units (twice the world coordinate, so the corner offsets of half a
//! voxel stay integral), a texture coordinate as a numerator over the atlas
//! width, and the face light as a percentage.

use vstd::prelude::*;

verus! {

use vstd::arithmetic::div_mod::{lemma_div_is_ordered, lemma_fundamental_div_mod, lemma_mod_bound};

/// One mesh vertex. `x2`, `y2` and `z2` are twice the world coordinate;
/// `u` and `v` are numerators over the atlas size; `light` is a percentage.
#[derive(Clone, Copy, Debug, PartialEq, Eq, Structural)]
pub struct Vertex {
    pub x2: i32,
    pub y2: i32,
    pub z2: i32,
    pub u: u32,
    pub v: u32,
    pub light: u32,
}

/// A texture atlas: an opaque handle to the texture image, which the mesher
/// attaches to its output unchanged, and the number of tiles per row.
#[derive(Clone, Copy, Debug, PartialEq, Eq, Structural)]
pub struct Atlas {
    pub texture: u32,
    pub size: u32,
}

impl Atlas {
    /// The atlas must hold at least the four block tiles in its grid, and
    /// stay small enough for the numerator arithmetic to be exact.
    pub open spec fn wf(&self) -> bool {
        2 <= self.size <= 1024
    }
}

/// Numerator of the left edge of tile `id`: the tile column. The edge's
/// texture coordinate is this value divided by `size`.
pub open spec fn tile_u0(id: int, size: int) -> int {
    id % size
}

/// Numerator of the bottom edge of tile `id`. Atlas row 0 is the top of the
/// image while texture coordinates grow upward from the bottom, so the row
/// is flipped: the edge's coordinate is `1 - (1 + id / size) * (1 / size)`,
/// i.e. this numerator divided by `size`.
pub open spec fn tile_v0(id: int, size: int) -> int {
    size - 1 - id / size
}

/// The tile of every identifier on the atlas lies within the unit square,
/// and distinct identifiers get distinct, non-overlapping tiles: the tiles
/// sit on a grid of `1 / size` cells, so differing corner numerators mean
/// disjoint interiors.
pub proof fn lemma_atlas_tiles_distinct(size: int, a: int, b: int)
    requires
        1 <= size,
        0 <= a < size * size,
        0 <= b < size * size,
    ensures
        0 <= tile_u0(a, size) && tile_u0(a, size) + 1 <= size,
        0 <= tile_v0(a, size) && tile_v0(a, size) + 1 <= size,
        a != b ==> tile_u0(a, size) != tile_u0(b, size) || tile_v0(a, size) != tile_v0(b, size),
{
    lemma_mod_bound(a, size);
    lemma_mod_bound(b, size);
    lemma_fundamental_div_mod(a, size);
    lemma_fundamental_div_mod(b, size);
    assert(0 <= a / size < size) by {
        lemma_div_is_ordered(0, a, size);
        assert(a / size < size) by (nonlinear_arith)
            requires
                1 <= size,
                a < size * size,
                a == size * (a / size) + a % size,
                0 <= a % size,
        ;
    }
    assert(0 <= b / size < size) by {
        lemma_div_is_ordered(0, b, size);
        assert(b / size < size) by (nonlinear_arith)
            requires
                1 <= size,
                b < size * size,
                b == size * (b / size) + b % size,
                0 <= b % size,
        ;
    }
    if tile_u0(a, size) == tile_u0(b, size) && tile_v0(a, size) == tile_v0(b, size) {
        assert(a == b);
    }
}

/// The six indices of the two triangles of one quad whose four vertices
/// start at `base`: the fan `base, base + 1, base + 2, base + 2, base + 3,
/// base`.
pub open spec fn quad_indices(base: int) -> Seq<u32> {
    seq![
        base as u32,
        (base + 1) as u32,
        (base + 2) as u32,
        (base + 2) as u32,
        (base + 3) as u32,
        base as u32,
    ]
}

/// Append the two triangles of the quad whose vertices start at `*idx`, and
/// advance `*idx` past those four vertices.
pub fn index(indices: &mut Vec<u32>, idx: &mut u32)
    requires
        *old(idx) + 4 <= u32::MAX,
    ensures
        final(indices)@ == old(indices)@ + quad_indices(*old(idx) as int),
        *final(idx) == *old(idx) + 4,
{
    indices.push(*idx);
    indices.push(*idx + 1);
    indices.push(*idx + 2);
    indices.push(*idx + 2);
    indices.push(*idx + 3);
    indices.push(*idx);
    *idx = *idx + 4;
    proof {
        assert(indices@ =~= old(indices)@ + quad_indices(*old(idx) as int));
    }
}

/// The finished mesh of one chunk: the vertex and index buffers plus the
/// atlas they refer to. A derived, disposable artifact — rebuilt whole
/// whenever the chunk's contents change, never patched.
#[derive(Clone, Debug, PartialEq, Eq)]
pub struct ChunkMesh {
    pub vertices: Vec<Vertex>,
    pub indices: Vec<u32>,
    pub texture: u32,
    pub atlas_size: u32,
}

impl ChunkMesh {
    /// An empty mesh with no texture.
    pub fn new() -> (r: ChunkMesh)
        ensures
            r.vertices@ == Seq::<Vertex>::empty(),
            r.indices@ == Seq::<u32>::empty(),
            r.texture == 0,
            r.atlas_size == 0,
    {
        let r = ChunkMesh { vertices: Vec::new(), indices: Vec::new(), texture: 0, atlas_size: 0 };
        proof {
            assert(r.vertices@ =~= Seq::<Vertex>::empty());
            assert(r.indices@ =~= Seq::<u32>::empty());
        }
        r
    }
}

} // verus!
