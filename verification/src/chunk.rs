//! The voxel grid: a fixed 16 x 16 x 16 cuboid of block identifiers with a
//! world-space origin, stored flat in `y`-major, then `z`, then `x` order.

use vstd::prelude::*;

verus! {

use crate::block::{Block, BlockSides, BlockType, RenderSides};

/// Grid extent along the x axis.
pub const CHUNK_W: usize = 16;

/// Grid extent along the y axis.
pub const CHUNK_H: usize = 16;

/// Grid extent along the z axis.
pub const CHUNK_D: usize = 16;

/// Number of voxels in one chunk.
pub const CHUNK_VOLUME: usize = CHUNK_W * CHUNK_H * CHUNK_D;

/// Bound on the absolute value of each component of a chunk origin. It keeps
/// every derived vertex coordinate far away from the edges of `i32`.
pub const ORIGIN_LIMIT: i32 = 1000000;

/// True when `(x, y, z)` is a local coordinate inside the grid.
pub open spec fn in_chunk(x: int, y: int, z: int) -> bool {
    0 <= x < CHUNK_W && 0 <= y < CHUNK_H && 0 <= z < CHUNK_D
}

/// Position of the voxel `(x, y, z)` in the flat block array.
pub open spec fn flat_index(x: int, y: int, z: int) -> int {
    y * (CHUNK_D * CHUNK_W) as int + z * CHUNK_W as int + x
}

/// Local coordinates `(x, y, z)` of the voxel at flat position `k`; the
/// inverse of [`flat_index`] on the grid.
pub open spec fn coords_of(k: int) -> (int, int, int) {
    (
        k % CHUNK_W as int,
        k / (CHUNK_D * CHUNK_W) as int,
        (k / CHUNK_W as int) % CHUNK_D as int,
    )
}

/// The block stored at `(x, y, z)` of a chunk's contents `b`.
pub open spec fn block_at(b: Seq<BlockType>, x: int, y: int, z: int) -> BlockType {
    b[flat_index(x, y, z)]
}

/// A neighbour occludes a face iff it lies inside the grid and is solid;
/// coordinates outside the grid never block, so chunk boundaries always stay
/// exposed.
pub open spec fn blocking(b: Seq<BlockType>, x: int, y: int, z: int) -> bool {
    in_chunk(x, y, z) && block_at(b, x, y, z).spec_is_solid()
}

/// A face of the voxel `(x, y, z)` towards `d` belongs in the mesh iff the
/// voxel is solid and the neighbour on that side does not block.
pub open spec fn face_visible(b: Seq<BlockType>, x: int, y: int, z: int, d: BlockSides) -> bool {
    block_at(b, x, y, z).spec_is_solid() && !blocking(
        b,
        x + d.spec_offset().0,
        y + d.spec_offset().1,
        z + d.spec_offset().2,
    )
}

/// [`flat_index`] maps the grid one-to-one onto `0 ..= CHUNK_VOLUME - 1`,
/// and [`coords_of`] inverts it.
pub proof fn lemma_flat_index_bijective(x: int, y: int, z: int)
    requires
        in_chunk(x, y, z),
    ensures
        0 <= flat_index(x, y, z) < CHUNK_VOLUME,
        coords_of(flat_index(x, y, z)) == (x, y, z),
{
    let k = flat_index(x, y, z);
    assert(0 <= k < CHUNK_VOLUME) by (nonlinear_arith)
        requires
            in_chunk(x, y, z),
            k == y * 256 + z * 16 + x,
    ;
    assert(k % 16 == x && k / 256 == y && (k / 16) % 16 == z) by (nonlinear_arith)
        requires
            in_chunk(x, y, z),
            k == y * 256 + z * 16 + x,
    ;
}

/// Every flat position names a grid voxel: [`coords_of`] lands inside the
/// grid and [`flat_index`] takes it back.
pub proof fn lemma_coords_of_bijective(k: int)
    requires
        0 <= k < CHUNK_VOLUME,
    ensures
        in_chunk(coords_of(k).0, coords_of(k).1, coords_of(k).2),
        flat_index(coords_of(k).0, coords_of(k).1, coords_of(k).2) == k,
{
    let (x, y, z) = coords_of(k);
    assert(0 <= x < 16 && 0 <= y < 16 && 0 <= z < 16 && y * 256 + z * 16 + x == k)
        by (nonlinear_arith)
        requires
            0 <= k < 4096,
            x == k % 16,
            y == k / 256,
            z == (k / 16) % 16,
    ;
}

/// A fixed-size voxel grid plus the world-space origin that is added to every
/// local coordinate when the mesh is built.
pub struct Chunk {
    blocks: Vec<Block>,
    position: (i32, i32, i32),
}

impl View for Chunk {
    type V = Seq<BlockType>;

    /// The grid contents as a flat sequence of block identifiers, indexed by
    /// [`flat_index`].
    closed spec fn view(&self) -> Seq<BlockType> {
        self.blocks@.map_values(|b: Block| b.id)
    }
}

impl Chunk {
    /// The world-space origin of the chunk.
    pub closed spec fn spec_position(&self) -> (int, int, int) {
        (self.position.0 as int, self.position.1 as int, self.position.2 as int)
    }

    /// A chunk is well-formed when it holds exactly one block per voxel and
    /// its origin stays within [`ORIGIN_LIMIT`].
    pub open spec fn wf(&self) -> bool {
        &&& self@.len() == CHUNK_VOLUME
        &&& -ORIGIN_LIMIT <= self.spec_position().0 <= ORIGIN_LIMIT
        &&& -ORIGIN_LIMIT <= self.spec_position().1 <= ORIGIN_LIMIT
        &&& -ORIGIN_LIMIT <= self.spec_position().2 <= ORIGIN_LIMIT
    }

    /// A fresh chunk at the world origin with every voxel empty.
    pub fn new() -> (r: Chunk)
        ensures
            r.wf(),
            r.spec_position() == (0int, 0int, 0int),
            forall|k: int| 0 <= k < CHUNK_VOLUME ==> r@[k] == BlockType::Air,
    {
        let mut blocks: Vec<Block> = Vec::new();
        let mut k: usize = 0;
        while k < CHUNK_VOLUME
            invariant
                k == blocks@.len(),
                k <= CHUNK_VOLUME,
                forall|j: int| 0 <= j < k ==> blocks@[j].id == BlockType::Air,
            decreases CHUNK_VOLUME - k,
        {
            blocks.push(Block { id: BlockType::Air });
            k = k + 1;
        }
        Chunk { blocks, position: (0, 0, 0) }
    }

    /// The world-space position of the chunk origin.
    pub fn position(&self) -> (r: (i32, i32, i32))
        ensures
            (r.0 as int, r.1 as int, r.2 as int) == self.spec_position(),
    {
        self.position
    }

    /// Point query of the grid; the caller is responsible for the bounds, as
    /// the neighbour test [`Chunk::is_blocking`] is for out-of-range probes.
    pub fn get(&self, x: usize, y: usize, z: usize) -> (r: BlockType)
        requires
            self.wf(),
            in_chunk(x as int, y as int, z as int),
        ensures
            r == block_at(self@, x as int, y as int, z as int),
    {
        proof {
            lemma_flat_index_bijective(x as int, y as int, z as int);
        }
        self.blocks[y * (CHUNK_D * CHUNK_W) + z * CHUNK_W + x].id
    }

    /// The occlusion probe of the mesher: accepts any coordinate, and treats
    /// everything outside the grid as non-blocking.
    pub fn is_blocking(&self, x: i32, y: i32, z: i32) -> (r: bool)
        requires
            self.wf(),
        ensures
            r == blocking(self@, x as int, y as int, z as int),
    {
        if x >= 0 && x < CHUNK_W as i32 && y >= 0 && y < CHUNK_H as i32 && z >= 0
            && z < CHUNK_D as i32 {
            self.get(x as usize, y as usize, z as usize).is_solid()
        } else {
            false
        }
    }

    /// Which faces of the voxel `(x, y, z)` are exposed: a side is marked iff
    /// the voxel is solid and its neighbour on that side is absent or out of
    /// bounds.
    pub fn visible_sides(&self, x: usize, y: usize, z: usize) -> (r: RenderSides)
        requires
            self.wf(),
            in_chunk(x as int, y as int, z as int),
        ensures
            forall|d: BlockSides|
                (#[trigger] r.spec_side(d)) == if face_visible(self@, x as int, y as int, z as int, d) {
                    Some(())
                } else {
                    None::<()>
                },
    {
        let mut r = RenderSides::default();
        if self.get(x, y, z).is_solid() {
            let xi = x as i32;
            let yi = y as i32;
            let zi = z as i32;
            if !self.is_blocking(xi, yi + 1, zi) {
                r.top = Some(());
            }
            if !self.is_blocking(xi, yi - 1, zi) {
                r.bottom = Some(());
            }
            if !self.is_blocking(xi, yi, zi + 1) {
                r.front = Some(());
            }
            if !self.is_blocking(xi, yi, zi - 1) {
                r.back = Some(());
            }
            if !self.is_blocking(xi + 1, yi, zi) {
                r.right = Some(());
            }
            if !self.is_blocking(xi - 1, yi, zi) {
                r.left = Some(());
            }
        }
        proof {
            assert forall|d: BlockSides|
                (#[trigger] r.spec_side(d)) == if face_visible(
                    self@,
                    x as int,
                    y as int,
                    z as int,
                    d,
                ) {
                    Some(())
                } else {
                    None::<()>
                } by {
                let b = self@;
                let (xi, yi, zi) = (x as int, y as int, z as int);
                match d {
                    BlockSides::Top => assert(r.top == if face_visible(b, xi, yi, zi, d) {
                        Some(())
                    } else {
                        None::<()>
                    }),
                    BlockSides::Bottom => assert(r.bottom == if face_visible(b, xi, yi, zi, d) {
                        Some(())
                    } else {
                        None::<()>
                    }),
                    BlockSides::Front => assert(r.front == if face_visible(b, xi, yi, zi, d) {
                        Some(())
                    } else {
                        None::<()>
                    }),
                    BlockSides::Back => assert(r.back == if face_visible(b, xi, yi, zi, d) {
                        Some(())
                    } else {
                        None::<()>
                    }),
                    BlockSides::Right => assert(r.right == if face_visible(b, xi, yi, zi, d) {
                        Some(())
                    } else {
                        None::<()>
                    }),
                    BlockSides::Left => assert(r.left == if face_visible(b, xi, yi, zi, d) {
                        Some(())
                    } else {
                        None::<()>
                    }),
                }
            }
        }
        r
    }

    /// Re-populate the whole grid: store `position` as the new origin and,
    /// for every voxel, ask the generator for the block at the voxel's world
    /// coordinate. Every cell is visited exactly once, in the fixed flat
    /// order of the grid.
    pub fn populate<F: Fn(i32, i32, i32) -> BlockType>(
        &mut self,
        position: (i32, i32, i32),
        gen: &F,
    )
        requires
            -ORIGIN_LIMIT <= position.0 <= ORIGIN_LIMIT,
            -ORIGIN_LIMIT <= position.1 <= ORIGIN_LIMIT,
            -ORIGIN_LIMIT <= position.2 <= ORIGIN_LIMIT,
            forall|a: (i32, i32, i32)| #[trigger] gen.requires(a),
        ensures
            final(self).wf(),
            final(self).spec_position() == (
                position.0 as int,
                position.1 as int,
                position.2 as int,
            ),
            forall|x: int, y: int, z: int|
                in_chunk(x, y, z) ==> gen.ensures(
                    (
                        (position.0 + x) as i32,
                        (position.1 + y) as i32,
                        (position.2 + z) as i32,
                    ),
                    #[trigger] block_at(final(self)@, x, y, z),
                ),
    {
        let mut blocks: Vec<Block> = Vec::new();
        let mut k: usize = 0;
        while k < CHUNK_VOLUME
            invariant
                k == blocks@.len(),
                k <= CHUNK_VOLUME,
                -ORIGIN_LIMIT <= position.0 <= ORIGIN_LIMIT,
                -ORIGIN_LIMIT <= position.1 <= ORIGIN_LIMIT,
                -ORIGIN_LIMIT <= position.2 <= ORIGIN_LIMIT,
                forall|a: (i32, i32, i32)| #[trigger] gen.requires(a),
                forall|j: int|
                    0 <= j < k ==> gen.ensures(
                        (
                            (position.0 + coords_of(j).0) as i32,
                            (position.1 + coords_of(j).1) as i32,
                            (position.2 + coords_of(j).2) as i32,
                        ),
                        #[trigger] blocks@[j].id,
                    ),
            decreases CHUNK_VOLUME - k,
        {
            proof {
                lemma_coords_of_bijective(k as int);
            }
            let x = (k % CHUNK_W) as i32;
            let y = (k / (CHUNK_D * CHUNK_W)) as i32;
            let z = ((k / CHUNK_W) % CHUNK_D) as i32;
            let id = gen(position.0 + x, position.1 + y, position.2 + z);
            blocks.push(Block { id });
            k = k + 1;
        }
        self.blocks = blocks;
        self.position = position;
        proof {
            assert forall|x: int, y: int, z: int| in_chunk(x, y, z) implies gen.ensures(
                (
                    (position.0 + x) as i32,
                    (position.1 + y) as i32,
                    (position.2 + z) as i32,
                ),
                #[trigger] block_at(self@, x, y, z),
            ) by {
                lemma_flat_index_bijective(x, y, z);
            }
        }
    }

    /// Set the grid wholesale from a flat table of block identifiers, one per
    /// voxel in [`flat_index`] order.
    pub fn from_blocks(position: (i32, i32, i32), ids: &Vec<BlockType>) -> (r: Chunk)
        requires
            ids@.len() == CHUNK_VOLUME,
            -ORIGIN_LIMIT <= position.0 <= ORIGIN_LIMIT,
            -ORIGIN_LIMIT <= position.1 <= ORIGIN_LIMIT,
            -ORIGIN_LIMIT <= position.2 <= ORIGIN_LIMIT,
        ensures
            r.wf(),
            r.spec_position() == (position.0 as int, position.1 as int, position.2 as int),
            r@ == ids@,
    {
        let mut blocks: Vec<Block> = Vec::new();
        let mut k: usize = 0;
        while k < CHUNK_VOLUME
            invariant
                k == blocks@.len(),
                k <= CHUNK_VOLUME,
                ids@.len() == CHUNK_VOLUME,
                forall|j: int| 0 <= j < k ==> blocks@[j].id == ids@[j],
            decreases CHUNK_VOLUME - k,
        {
            blocks.push(Block { id: ids[k] });
            k = k + 1;
        }
        let r = Chunk { blocks, position };
        proof {
            assert(r@ =~= ids@);
        }
        r
    }
}

} // verus!
