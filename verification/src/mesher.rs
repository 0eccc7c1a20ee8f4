//! The mesh builder: one pass over the chunk that emits a quad for every
//! exposed voxel face and culls every face that a solid neighbour occludes.
//!
//! The whole output is pinned down by a specification-level construction:
//! [`chunk_faces`] lists the visible faces in the order the pass visits them,
//! and [`verts_of_faces`] / [`idxs_of`] spell out the exact buffers those
//! faces produce. [`ChunkRenderer::gen_mesh`] ensures its buffers equal that
//! construction, so every property of the mesh is a property of these
//! specification functions.

use vstd::prelude::*;

verus! {

use crate::block::{BlockSides, BlockType};
use crate::chunk::{
    block_at, blocking, coords_of, face_visible, flat_index, in_chunk, lemma_coords_of_bijective,
    lemma_flat_index_bijective, Chunk, CHUNK_D, CHUNK_VOLUME, CHUNK_W,
};
use crate::mesh::{index, quad_indices, tile_u0, tile_v0, Atlas, ChunkMesh, Vertex};

/// One exposed voxel face: the voxel's local coordinates and the side the
/// quad covers.
pub struct Face {
    pub x: int,
    pub y: int,
    pub z: int,
    pub side: BlockSides,
}

/// The face of voxel `(x, y, z)` towards `d`, as a sequence: a single face
/// when that side is visible, nothing otherwise.
pub open spec fn side_face(b: Seq<BlockType>, x: int, y: int, z: int, d: BlockSides) -> Seq<Face> {
    if face_visible(b, x, y, z, d) {
        seq![Face { x, y, z, side: d }]
    } else {
        Seq::empty()
    }
}

/// Every visible face of the voxel `(x, y, z)`, in the fixed side order
/// top, bottom, front, back, right, left. An `Air` voxel contributes
/// nothing.
pub open spec fn faces_of_cell(b: Seq<BlockType>, x: int, y: int, z: int) -> Seq<Face> {
    side_face(b, x, y, z, BlockSides::Top) + side_face(b, x, y, z, BlockSides::Bottom) + side_face(
        b,
        x,
        y,
        z,
        BlockSides::Front,
    ) + side_face(b, x, y, z, BlockSides::Back) + side_face(b, x, y, z, BlockSides::Right)
        + side_face(b, x, y, z, BlockSides::Left)
}

/// Every visible face of the voxels at flat positions `0 .. k`, in pass
/// order.
pub open spec fn faces_below(b: Seq<BlockType>, k: int) -> Seq<Face>
    decreases k,
{
    if k <= 0 {
        Seq::empty()
    } else {
        faces_below(b, k - 1) + faces_of_cell(
            b,
            coords_of(k - 1).0,
            coords_of(k - 1).1,
            coords_of(k - 1).2,
        )
    }
}

/// Every visible face of the chunk, in the order the building pass emits
/// them.
pub open spec fn chunk_faces(b: Seq<BlockType>) -> Seq<Face> {
    faces_below(b, CHUNK_VOLUME as int)
}

/// Corner `i` of the quad on side `d`, as an offset from the voxel centre in
/// half-units: each component is half a voxel towards one of the corners.
pub open spec fn corner_offset(d: BlockSides, i: int) -> (int, int, int) {
    match d {
        BlockSides::Top => seq![(-1, 1, 1), (1, 1, 1), (1, 1, -1), (-1, 1, -1)][i],
        BlockSides::Bottom => seq![(-1, -1, 1), (1, -1, 1), (1, -1, -1), (-1, -1, -1)][i],
        BlockSides::Front => seq![(-1, -1, 1), (1, -1, 1), (1, 1, 1), (-1, 1, 1)][i],
        BlockSides::Back => seq![(-1, -1, -1), (1, -1, -1), (1, 1, -1), (-1, 1, -1)][i],
        BlockSides::Right => seq![(1, -1, 1), (1, -1, -1), (1, 1, -1), (1, 1, 1)][i],
        BlockSides::Left => seq![(-1, -1, -1), (-1, -1, 1), (-1, 1, 1), (-1, 1, -1)][i],
    }
}

/// Texture numerators of corner `i` of the quad on side `d`, given the
/// corner numerators of the voxel's atlas tile. The rotation per side keeps
/// the tile upright relative to the quad's world-space winding.
pub open spec fn corner_uv(d: BlockSides, i: int, u0: int, v0: int) -> (int, int) {
    match d {
        BlockSides::Top => seq![(u0, v0), (u0 + 1, v0), (u0 + 1, v0 + 1), (u0, v0 + 1)][i],
        BlockSides::Bottom => seq![(u0, v0), (u0 + 1, v0), (u0 + 1, v0 + 1), (u0, v0 + 1)][i],
        BlockSides::Front => seq![(u0, v0 + 1), (u0 + 1, v0 + 1), (u0 + 1, v0), (u0, v0)][i],
        BlockSides::Back => seq![(u0, v0 + 1), (u0 + 1, v0 + 1), (u0 + 1, v0), (u0, v0)][i],
        BlockSides::Right => seq![(u0 + 1, v0 + 1), (u0, v0 + 1), (u0, v0), (u0 + 1, v0)][i],
        BlockSides::Left => seq![(u0, v0 + 1), (u0 + 1, v0 + 1), (u0 + 1, v0), (u0, v0)][i],
    }
}

/// Corner `i` of the quad for face `f`, fully evaluated: world position in
/// half-units from the chunk origin `pos`, texture numerators from the
/// voxel's tile on an atlas `asize` tiles wide, and the side's static light.
pub open spec fn face_vertex(
    b: Seq<BlockType>,
    pos: (int, int, int),
    asize: int,
    f: Face,
    i: int,
) -> Vertex {
    let id = block_at(b, f.x, f.y, f.z).spec_id() as int;
    let off = corner_offset(f.side, i);
    let uv = corner_uv(f.side, i, tile_u0(id, asize), tile_v0(id, asize));
    Vertex {
        x2: (2 * (pos.0 + f.x) + off.0) as i32,
        y2: (2 * (pos.1 + f.y) + off.1) as i32,
        z2: (2 * (pos.2 + f.z) + off.2) as i32,
        u: uv.0 as u32,
        v: uv.1 as u32,
        light: f.side.spec_light(),
    }
}

/// The four corners of the quad for face `f`.
pub open spec fn face_vertices(b: Seq<BlockType>, pos: (int, int, int), asize: int, f: Face) -> Seq<
    Vertex,
> {
    seq![
        face_vertex(b, pos, asize, f, 0),
        face_vertex(b, pos, asize, f, 1),
        face_vertex(b, pos, asize, f, 2),
        face_vertex(b, pos, asize, f, 3),
    ]
}

/// The vertex buffer produced by a sequence of faces: four corners per face,
/// in face order.
pub open spec fn verts_of_faces(
    b: Seq<BlockType>,
    pos: (int, int, int),
    asize: int,
    fs: Seq<Face>,
) -> Seq<Vertex>
    decreases fs.len(),
{
    if fs.len() == 0 {
        Seq::empty()
    } else {
        verts_of_faces(b, pos, asize, fs.drop_last()) + face_vertices(b, pos, asize, fs.last())
    }
}

/// The index buffer produced by `n` faces: one quad after another, each
/// referring to the four vertices appended for its own face.
pub open spec fn idxs_of(n: int) -> Seq<u32>
    decreases n,
{
    if n <= 0 {
        Seq::empty()
    } else {
        idxs_of(n - 1) + quad_indices(4 * (n - 1))
    }
}

/// Four vertices per face, for any face sequence.
pub proof fn lemma_verts_of_faces_len(b: Seq<BlockType>, pos: (int, int, int), asize: int, fs: Seq<Face>)
    ensures
        verts_of_faces(b, pos, asize, fs).len() == 4 * fs.len(),
    decreases fs.len(),
{
    if fs.len() > 0 {
        lemma_verts_of_faces_len(b, pos, asize, fs.drop_last());
    }
}

/// Six indices per face.
pub proof fn lemma_idxs_of_len(n: int)
    ensures
        idxs_of(n).len() == if n <= 0 { 0int } else { 6 * n },
    decreases n,
{
    if n > 0 {
        lemma_idxs_of_len(n - 1);
    }
}

/// A voxel contributes at most six faces, so the first `k` voxels contribute
/// at most `6 * k`.
pub proof fn lemma_faces_below_len(b: Seq<BlockType>, k: int)
    requires
        0 <= k,
    ensures
        faces_below(b, k).len() <= 6 * k,
    decreases k,
{
    if k > 0 {
        lemma_faces_below_len(b, k - 1);
    }
}

/// A single side's sequence holds exactly the one face of that voxel and
/// side, and only when that side is visible.
proof fn lemma_side_face_contains(b: Seq<BlockType>, x: int, y: int, z: int, d: BlockSides, f: Face)
    ensures
        side_face(b, x, y, z, d).contains(f) <==> (face_visible(b, x, y, z, d) && f == Face {
            x,
            y,
            z,
            side: d,
        }),
{
    if face_visible(b, x, y, z, d) {
        let g = Face { x, y, z, side: d };
        assert(side_face(b, x, y, z, d)[0] == g);
        if side_face(b, x, y, z, d).contains(f) {
            let i = choose|i: int| 0 <= i < side_face(b, x, y, z, d).len() && side_face(
                b,
                x,
                y,
                z,
                d,
            )[i] == f;
            assert(f == g);
        }
    }
}

/// A voxel's face list holds exactly its visible faces.
proof fn lemma_faces_of_cell_contains(b: Seq<BlockType>, cx: int, cy: int, cz: int, f: Face)
    ensures
        faces_of_cell(b, cx, cy, cz).contains(f) <==> (f.x == cx && f.y == cy && f.z == cz
            && face_visible(b, cx, cy, cz, f.side)),
{
    broadcast use vstd::seq_lib::lemma_seq_concat_contains_all_elements;

    lemma_side_face_contains(b, cx, cy, cz, BlockSides::Top, f);
    lemma_side_face_contains(b, cx, cy, cz, BlockSides::Bottom, f);
    lemma_side_face_contains(b, cx, cy, cz, BlockSides::Front, f);
    lemma_side_face_contains(b, cx, cy, cz, BlockSides::Back, f);
    lemma_side_face_contains(b, cx, cy, cz, BlockSides::Right, f);
    lemma_side_face_contains(b, cx, cy, cz, BlockSides::Left, f);
}

/// The faces of the first `k` voxels are exactly the visible faces whose
/// voxel's flat position lies below `k`.
proof fn lemma_faces_below_contains(b: Seq<BlockType>, k: int, f: Face)
    requires
        0 <= k <= CHUNK_VOLUME,
    ensures
        faces_below(b, k).contains(f) <==> (in_chunk(f.x, f.y, f.z) && flat_index(f.x, f.y, f.z)
            < k && face_visible(b, f.x, f.y, f.z, f.side)),
    decreases k,
{
    broadcast use vstd::seq_lib::lemma_seq_concat_contains_all_elements;

    if k > 0 {
        lemma_faces_below_contains(b, k - 1, f);
        let (cx, cy, cz) = coords_of(k - 1);
        lemma_coords_of_bijective(k - 1);
        lemma_faces_of_cell_contains(b, cx, cy, cz, f);
        if in_chunk(f.x, f.y, f.z) {
            lemma_flat_index_bijective(f.x, f.y, f.z);
        }
    }
}

/// Occlusion correctness: the mesh holds a face at voxel `(x, y, z)` towards
/// `d` iff the voxel lies in the grid and is solid, and its neighbour
/// towards `d` is `Air` or out of bounds.
pub proof fn lemma_face_emitted_iff_visible(
    b: Seq<BlockType>,
    x: int,
    y: int,
    z: int,
    d: BlockSides,
)
    ensures
        chunk_faces(b).contains(Face { x, y, z, side: d }) <==> (in_chunk(x, y, z)
            && face_visible(b, x, y, z, d)),
{
    lemma_faces_below_contains(b, CHUNK_VOLUME as int, Face { x, y, z, side: d });
    if in_chunk(x, y, z) {
        lemma_flat_index_bijective(x, y, z);
    }
}

/// A chunk of nothing but `Air` produces no faces at all.
pub proof fn lemma_air_chunk_no_faces(b: Seq<BlockType>)
    requires
        b.len() == CHUNK_VOLUME,
        forall|k: int| 0 <= k < b.len() ==> b[k] == BlockType::Air,
    ensures
        chunk_faces(b) == Seq::<Face>::empty(),
{
    lemma_air_faces_below(b, CHUNK_VOLUME as int);
    assert(chunk_faces(b) =~= Seq::<Face>::empty());
}

/// Helper for [`lemma_air_chunk_no_faces`]: no prefix of an all-`Air` chunk
/// contributes a face.
proof fn lemma_air_faces_below(b: Seq<BlockType>, k: int)
    requires
        b.len() == CHUNK_VOLUME,
        forall|j: int| 0 <= j < b.len() ==> b[j] == BlockType::Air,
        0 <= k <= CHUNK_VOLUME,
    ensures
        faces_below(b, k).len() == 0,
    decreases k,
{
    if k > 0 {
        lemma_air_faces_below(b, k - 1);
        let (cx, cy, cz) = coords_of(k - 1);
        lemma_coords_of_bijective(k - 1);
        assert(!block_at(b, cx, cy, cz).spec_is_solid());
        assert(faces_of_cell(b, cx, cy, cz).len() == 0);
    }
}

/// An all-`Air` chunk builds to an empty mesh: no vertices and no indices.
pub proof fn lemma_air_chunk_empty_mesh(
    b: Seq<BlockType>,
    pos: (int, int, int),
    atlas: Atlas,
    m: ChunkMesh,
)
    requires
        b.len() == CHUNK_VOLUME,
        forall|k: int| 0 <= k < b.len() ==> b[k] == BlockType::Air,
        is_mesh_of(b, pos, atlas, m),
    ensures
        m.vertices@.len() == 0,
        m.indices@.len() == 0,
{
    lemma_air_chunk_no_faces(b);
    lemma_verts_of_faces_len(b, pos, atlas.size as int, chunk_faces(b));
    lemma_idxs_of_len(chunk_faces(b).len() as int);
}

/// The index and vertex counts of any built mesh stand in the fixed quad
/// ratio to the number of emitted faces: four vertices and six indices per
/// face.
pub proof fn lemma_index_vertex_ratio(
    b: Seq<BlockType>,
    pos: (int, int, int),
    atlas: Atlas,
    m: ChunkMesh,
)
    requires
        is_mesh_of(b, pos, atlas, m),
    ensures
        m.vertices@.len() == 4 * chunk_faces(b).len(),
        m.indices@.len() == 6 * chunk_faces(b).len(),
{
    lemma_verts_of_faces_len(b, pos, atlas.size as int, chunk_faces(b));
    lemma_idxs_of_len(chunk_faces(b).len() as int);
}

/// Building twice from the same unmodified chunk and atlas yields identical
/// meshes: the same vertices in the same order, the same indices, the same
/// texture.
pub proof fn lemma_build_deterministic(
    b: Seq<BlockType>,
    pos: (int, int, int),
    atlas: Atlas,
    m1: ChunkMesh,
    m2: ChunkMesh,
)
    requires
        is_mesh_of(b, pos, atlas, m1),
        is_mesh_of(b, pos, atlas, m2),
    ensures
        m1.vertices@ == m2.vertices@,
        m1.indices@ == m2.indices@,
        m1.texture == m2.texture,
        m1.atlas_size == m2.atlas_size,
{
}

/// A solid voxel none of whose six neighbours blocks — a voxel alone in the
/// grid, or one at a corner with every neighbour out of bounds or empty —
/// contributes all six of its faces to the mesh.
pub proof fn lemma_exposed_voxel_all_faces(b: Seq<BlockType>, x: int, y: int, z: int)
    requires
        in_chunk(x, y, z),
        block_at(b, x, y, z).spec_is_solid(),
        forall|d: BlockSides|
            !blocking(
                b,
                x + (#[trigger] d.spec_offset()).0,
                y + d.spec_offset().1,
                z + d.spec_offset().2,
            ),
    ensures
        forall|d: BlockSides| chunk_faces(b).contains(Face { x, y, z, side: d }),
{
    assert forall|d: BlockSides| chunk_faces(b).contains(Face { x, y, z, side: d }) by {
        lemma_face_emitted_iff_visible(b, x, y, z, d);
    }
}

/// Appending one face appends exactly its four corners to the vertex buffer.
pub proof fn lemma_verts_of_faces_snoc(
    b: Seq<BlockType>,
    pos: (int, int, int),
    asize: int,
    fs: Seq<Face>,
    f: Face,
)
    ensures
        verts_of_faces(b, pos, asize, fs.push(f)) == verts_of_faces(b, pos, asize, fs)
            + face_vertices(b, pos, asize, f),
{
    assert(fs.push(f).drop_last() =~= fs);
    assert(fs.push(f).last() == f);
}

/// Append the quad for the face of voxel `(x, y, z)` towards `d`: its four
/// corner vertices and the six indices that tie them into two triangles.
fn emit_face(
    vertices: &mut Vec<Vertex>,
    indices: &mut Vec<u32>,
    idx: &mut u32,
    chunk: &Chunk,
    x: usize,
    y: usize,
    z: usize,
    d: BlockSides,
    atlas: &Atlas,
)
    requires
        chunk.wf(),
        atlas.wf(),
        in_chunk(x as int, y as int, z as int),
        *old(idx) + 4 <= u32::MAX,
    ensures
        final(vertices)@ == old(vertices)@ + face_vertices(
            chunk@,
            chunk.spec_position(),
            atlas.size as int,
            Face { x: x as int, y: y as int, z: z as int, side: d },
        ),
        final(indices)@ == old(indices)@ + quad_indices(*old(idx) as int),
        *final(idx) == *old(idx) + 4,
{
    let id: u32 = chunk.get(x, y, z).id();
    let asize: u32 = atlas.size;
    proof {
        assert(id / asize < asize) by (nonlinear_arith)
            requires
                2 <= asize,
                id < 4,
        ;
    }
    let u0: u32 = id % asize;
    let v0: u32 = asize - 1 - id / asize;
    let p = chunk.position();
    let cx: i32 = 2 * (p.0 + x as i32);
    let cy: i32 = 2 * (p.1 + y as i32);
    let cz: i32 = 2 * (p.2 + z as i32);
    let l: u32 = d.light();
    match d {
        BlockSides::Top => {
            vertices.push(Vertex { x2: cx - 1, y2: cy + 1, z2: cz + 1, u: u0, v: v0, light: l });
            vertices.push(
                Vertex { x2: cx + 1, y2: cy + 1, z2: cz + 1, u: u0 + 1, v: v0, light: l },
            );
            vertices.push(
                Vertex { x2: cx + 1, y2: cy + 1, z2: cz - 1, u: u0 + 1, v: v0 + 1, light: l },
            );
            vertices.push(
                Vertex { x2: cx - 1, y2: cy + 1, z2: cz - 1, u: u0, v: v0 + 1, light: l },
            );
        },
        BlockSides::Bottom => {
            vertices.push(Vertex { x2: cx - 1, y2: cy - 1, z2: cz + 1, u: u0, v: v0, light: l });
            vertices.push(
                Vertex { x2: cx + 1, y2: cy - 1, z2: cz + 1, u: u0 + 1, v: v0, light: l },
            );
            vertices.push(
                Vertex { x2: cx + 1, y2: cy - 1, z2: cz - 1, u: u0 + 1, v: v0 + 1, light: l },
            );
            vertices.push(
                Vertex { x2: cx - 1, y2: cy - 1, z2: cz - 1, u: u0, v: v0 + 1, light: l },
            );
        },
        BlockSides::Front => {
            vertices.push(
                Vertex { x2: cx - 1, y2: cy - 1, z2: cz + 1, u: u0, v: v0 + 1, light: l },
            );
            vertices.push(
                Vertex { x2: cx + 1, y2: cy - 1, z2: cz + 1, u: u0 + 1, v: v0 + 1, light: l },
            );
            vertices.push(
                Vertex { x2: cx + 1, y2: cy + 1, z2: cz + 1, u: u0 + 1, v: v0, light: l },
            );
            vertices.push(Vertex { x2: cx - 1, y2: cy + 1, z2: cz + 1, u: u0, v: v0, light: l });
        },
        BlockSides::Back => {
            vertices.push(
                Vertex { x2: cx - 1, y2: cy - 1, z2: cz - 1, u: u0, v: v0 + 1, light: l },
            );
            vertices.push(
                Vertex { x2: cx + 1, y2: cy - 1, z2: cz - 1, u: u0 + 1, v: v0 + 1, light: l },
            );
            vertices.push(
                Vertex { x2: cx + 1, y2: cy + 1, z2: cz - 1, u: u0 + 1, v: v0, light: l },
            );
            vertices.push(Vertex { x2: cx - 1, y2: cy + 1, z2: cz - 1, u: u0, v: v0, light: l });
        },
        BlockSides::Right => {
            vertices.push(
                Vertex { x2: cx + 1, y2: cy - 1, z2: cz + 1, u: u0 + 1, v: v0 + 1, light: l },
            );
            vertices.push(
                Vertex { x2: cx + 1, y2: cy - 1, z2: cz - 1, u: u0, v: v0 + 1, light: l },
            );
            vertices.push(Vertex { x2: cx + 1, y2: cy + 1, z2: cz - 1, u: u0, v: v0, light: l });
            vertices.push(
                Vertex { x2: cx + 1, y2: cy + 1, z2: cz + 1, u: u0 + 1, v: v0, light: l },
            );
        },
        BlockSides::Left => {
            vertices.push(
                Vertex { x2: cx - 1, y2: cy - 1, z2: cz - 1, u: u0, v: v0 + 1, light: l },
            );
            vertices.push(
                Vertex { x2: cx - 1, y2: cy - 1, z2: cz + 1, u: u0 + 1, v: v0 + 1, light: l },
            );
            vertices.push(
                Vertex { x2: cx - 1, y2: cy + 1, z2: cz + 1, u: u0 + 1, v: v0, light: l },
            );
            vertices.push(Vertex { x2: cx - 1, y2: cy + 1, z2: cz - 1, u: u0, v: v0, light: l });
        },
    }
    index(indices, idx);
    proof {
        assert(vertices@ =~= old(vertices)@ + face_vertices(
            chunk@,
            chunk.spec_position(),
            atlas.size as int,
            Face { x: x as int, y: y as int, z: z as int, side: d },
        ));
    }
}

/// Test one side of the voxel `(x, y, z)` and emit its quad when the side is
/// visible: the voxel solid and the neighbour towards `d` absent or out of
/// bounds. `fs0` is the face sequence the buffers held on entry.
fn mesh_side(
    vertices: &mut Vec<Vertex>,
    indices: &mut Vec<u32>,
    idx: &mut u32,
    chunk: &Chunk,
    x: usize,
    y: usize,
    z: usize,
    d: BlockSides,
    atlas: &Atlas,
    Ghost(fs0): Ghost<Seq<Face>>,
)
    requires
        chunk.wf(),
        atlas.wf(),
        in_chunk(x as int, y as int, z as int),
        old(vertices)@ == verts_of_faces(chunk@, chunk.spec_position(), atlas.size as int, fs0),
        old(indices)@ == idxs_of(fs0.len() as int),
        *old(idx) as int == 4 * fs0.len(),
        fs0.len() <= 6 * CHUNK_VOLUME + 5,
    ensures
        final(vertices)@ == verts_of_faces(
            chunk@,
            chunk.spec_position(),
            atlas.size as int,
            fs0 + side_face(chunk@, x as int, y as int, z as int, d),
        ),
        final(indices)@ == idxs_of(
            (fs0 + side_face(chunk@, x as int, y as int, z as int, d)).len() as int,
        ),
        *final(idx) as int == 4 * (fs0 + side_face(chunk@, x as int, y as int, z as int, d)).len(),
{
    let ghost b = chunk@;
    let ghost pos = chunk.spec_position();
    let ghost asize = atlas.size as int;
    let ghost (xi, yi, zi) = (x as int, y as int, z as int);
    let off = d.offset();
    let solid = chunk.get(x, y, z).is_solid();
    let blocked = chunk.is_blocking(x as i32 + off.0, y as i32 + off.1, z as i32 + off.2);
    if solid && !blocked {
        emit_face(vertices, indices, idx, chunk, x, y, z, d, atlas);
        proof {
            let f = Face { x: xi, y: yi, z: zi, side: d };
            lemma_verts_of_faces_snoc(b, pos, asize, fs0, f);
            assert(fs0 + side_face(b, xi, yi, zi, d) =~= fs0.push(f));
            assert(indices@ =~= idxs_of((fs0 + side_face(b, xi, yi, zi, d)).len() as int));
        }
    } else {
        proof {
            assert(!face_visible(b, xi, yi, zi, d));
            assert(fs0 + side_face(b, xi, yi, zi, d) =~= fs0);
        }
    }
}

/// Emit every visible face of the voxel `(x, y, z)`: test the six sides in
/// the fixed order and append a quad for each side whose neighbour does not
/// block. `fs0` is the face sequence the buffers held on entry.
#[verifier::rlimit(50)]
fn mesh_cell(
    vertices: &mut Vec<Vertex>,
    indices: &mut Vec<u32>,
    idx: &mut u32,
    chunk: &Chunk,
    x: usize,
    y: usize,
    z: usize,
    atlas: &Atlas,
    Ghost(fs0): Ghost<Seq<Face>>,
)
    requires
        chunk.wf(),
        atlas.wf(),
        in_chunk(x as int, y as int, z as int),
        old(vertices)@ == verts_of_faces(chunk@, chunk.spec_position(), atlas.size as int, fs0),
        old(indices)@ == idxs_of(fs0.len() as int),
        *old(idx) as int == 4 * fs0.len(),
        fs0.len() <= 6 * CHUNK_VOLUME,
    ensures
        final(vertices)@ == verts_of_faces(
            chunk@,
            chunk.spec_position(),
            atlas.size as int,
            fs0 + faces_of_cell(chunk@, x as int, y as int, z as int),
        ),
        final(indices)@ == idxs_of(
            (fs0 + faces_of_cell(chunk@, x as int, y as int, z as int)).len() as int,
        ),
        *final(idx) as int == 4 * (fs0 + faces_of_cell(
            chunk@,
            x as int,
            y as int,
            z as int,
        )).len(),
{
    let ghost b = chunk@;
    let ghost (xi, yi, zi) = (x as int, y as int, z as int);
    let ghost mut fs = fs0;
    mesh_side(vertices, indices, idx, chunk, x, y, z, BlockSides::Top, atlas, Ghost(fs));
    proof {
        fs = fs + side_face(b, xi, yi, zi, BlockSides::Top);
    }
    mesh_side(vertices, indices, idx, chunk, x, y, z, BlockSides::Bottom, atlas, Ghost(fs));
    proof {
        fs = fs + side_face(b, xi, yi, zi, BlockSides::Bottom);
    }
    mesh_side(vertices, indices, idx, chunk, x, y, z, BlockSides::Front, atlas, Ghost(fs));
    proof {
        fs = fs + side_face(b, xi, yi, zi, BlockSides::Front);
    }
    mesh_side(vertices, indices, idx, chunk, x, y, z, BlockSides::Back, atlas, Ghost(fs));
    proof {
        fs = fs + side_face(b, xi, yi, zi, BlockSides::Back);
    }
    mesh_side(vertices, indices, idx, chunk, x, y, z, BlockSides::Right, atlas, Ghost(fs));
    proof {
        fs = fs + side_face(b, xi, yi, zi, BlockSides::Right);
    }
    mesh_side(vertices, indices, idx, chunk, x, y, z, BlockSides::Left, atlas, Ghost(fs));
    proof {
        fs = fs + side_face(b, xi, yi, zi, BlockSides::Left);
        assert(fs =~= fs0 + faces_of_cell(b, xi, yi, zi));
    }
}

/// The mesh of one chunk at the time of the last build: every property of
/// the buffers is fixed by the chunk contents, origin and atlas alone.
pub open spec fn is_mesh_of(
    b: Seq<BlockType>,
    pos: (int, int, int),
    atlas: Atlas,
    m: ChunkMesh,
) -> bool {
    &&& m.vertices@ == verts_of_faces(b, pos, atlas.size as int, chunk_faces(b))
    &&& m.indices@ == idxs_of(chunk_faces(b).len() as int)
    &&& m.texture == atlas.texture
    &&& m.atlas_size == atlas.size
}

/// Owns the mesh built from one chunk, rebuilt on demand by
/// [`ChunkRenderer::gen_mesh`].
pub struct ChunkRenderer {
    pub mesh: ChunkMesh,
}

impl ChunkRenderer {
    /// A renderer holding an empty mesh.
    pub fn new() -> (r: ChunkRenderer)
        ensures
            r.mesh.vertices@ == Seq::<Vertex>::empty(),
            r.mesh.indices@ == Seq::<u32>::empty(),
    {
        ChunkRenderer { mesh: ChunkMesh::new() }
    }

    /// One full building pass over the chunk: visit every voxel in the fixed
    /// flat order, skip `Air`, and emit a quad for every face whose
    /// neighbour does not block. The finished buffers equal the
    /// specification-level construction exactly, so rebuilding from an
    /// unchanged chunk always reproduces the same mesh.
    pub fn gen_mesh(&mut self, chunk: &Chunk, atlas: &Atlas)
        requires
            chunk.wf(),
            atlas.wf(),
        ensures
            is_mesh_of(chunk@, chunk.spec_position(), *atlas, final(self).mesh),
            final(self).mesh.vertices@.len() == 4 * chunk_faces(chunk@).len(),
            final(self).mesh.indices@.len() == 6 * chunk_faces(chunk@).len(),
    {
        let mut vertices: Vec<Vertex> = Vec::new();
        let mut indices: Vec<u32> = Vec::new();
        let mut idx: u32 = 0;
        let ghost b = chunk@;
        let ghost pos = chunk.spec_position();
        let ghost asize = atlas.size as int;
        let ghost mut fs: Seq<Face> = Seq::empty();
        proof {
            assert(vertices@ =~= verts_of_faces(b, pos, asize, fs));
            assert(indices@ =~= idxs_of(fs.len() as int));
        }
        let mut k: usize = 0;
        while k < CHUNK_VOLUME
            invariant
                chunk.wf(),
                atlas.wf(),
                b == chunk@,
                pos == chunk.spec_position(),
                asize == atlas.size as int,
                k <= CHUNK_VOLUME,
                fs == faces_below(b, k as int),
                fs.len() <= 6 * k,
                vertices@ == verts_of_faces(b, pos, asize, fs),
                indices@ == idxs_of(fs.len() as int),
                idx as int == 4 * fs.len(),
            decreases CHUNK_VOLUME - k,
        {
            proof {
                lemma_coords_of_bijective(k as int);
            }
            let x = k % CHUNK_W;
            let y = k / (CHUNK_D * CHUNK_W);
            let z = (k / CHUNK_W) % CHUNK_D;
            mesh_cell(&mut vertices, &mut indices, &mut idx, chunk, x, y, z, atlas, Ghost(fs));
            proof {
                fs = fs + faces_of_cell(b, x as int, y as int, z as int);
                assert(fs == faces_below(b, (k + 1) as int));
            }
            k = k + 1;
        }
        proof {
            lemma_verts_of_faces_len(b, pos, asize, fs);
            lemma_idxs_of_len(fs.len() as int);
        }
        self.mesh = ChunkMesh {
            vertices,
            indices,
            texture: atlas.texture,
            atlas_size: atlas.size,
        };
    }
}

} // verus!
