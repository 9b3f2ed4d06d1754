//! Surface extraction: voxel grid in, triangle buffers out.
//!
//! Two strategies build the same [`MeshBuffers`] shape.  The cube mesher
//! emits an axis-aligned quad for every face of a non-air voxel whose
//! neighbour (possibly across the chunk seam) is air.  The marching-cubes
//! mesher walks every unit cell, classifies its eight corners against the
//! surface threshold and triangulates the isosurface from a fixed table,
//! interpolating each vertex along its crossing edge.  Both sample at most
//! one voxel beyond the chunk bounds, through the terrain field.

use vstd::prelude::*;

use crate::chunk::Chunk;
use crate::chunk::dec_x;
use crate::chunk::dec_y;
use crate::chunk::dec_z;
use crate::chunk::in_chunk_bounds;
use crate::chunk::lemma_dec_lin;
use crate::chunk::lemma_lin_dec;
use crate::chunk::sample_spec;
use crate::chunk::world_point;
use crate::coords::ChunkId;
use crate::coords::Vec3i;
use crate::coords::WORLD_BOUND;
use crate::coords::origin_of;
use crate::coords::wf_chunk_id;
use crate::mesh::MeshBuffers;
use crate::mesh::wf_mesh;
use crate::table::corner_bit_x;
use crate::table::corner_bit_y;
use crate::table::corner_bit_z;
use crate::table::edge_corners;
use crate::table::edge_corners_spec;
use crate::terrain::Terrain;
use crate::terrain::generated_seq;
use crate::terrain::lemma_generated_voxel;
use crate::voxel::VoxelType;
use crate::voxel::code_of;
use crate::voxel::density_of;

verus! {

/// Face numbering of a voxel's six axis-aligned faces.
pub type BlockFace = usize;

/// Face toward +z.
pub const FACE_FRONT: BlockFace = 0;

/// Face toward -z.
pub const FACE_BACK: BlockFace = 1;

/// Face toward +x.
pub const FACE_RIGHT: BlockFace = 2;

/// Face toward -x.
pub const FACE_LEFT: BlockFace = 3;

/// Face toward +y.
pub const FACE_TOP: BlockFace = 4;

/// Face toward -y.
pub const FACE_BOTTOM: BlockFace = 5;

/// Outward unit direction of face `f`: the neighbour a face is culled
/// against lies one step that way.
pub open spec fn face_normal_spec(f: int) -> Vec3i {
    if f == 0 {
        Vec3i { x: 0, y: 0, z: 1 }
    } else if f == 1 {
        Vec3i { x: 0, y: 0, z: -1i64 }
    } else if f == 2 {
        Vec3i { x: 1, y: 0, z: 0 }
    } else if f == 3 {
        Vec3i { x: -1i64, y: 0, z: 0 }
    } else if f == 4 {
        Vec3i { x: 0, y: 1, z: 0 }
    } else {
        Vec3i { x: 0, y: -1i64, z: 0 }
    }
}

/// Outward unit direction of face `f`.
pub fn face_normal(f: BlockFace) -> (r: Vec3i)
    requires
        f < 6,
    ensures
        r == face_normal_spec(f as int),
{
    if f == 0 {
        Vec3i { x: 0, y: 0, z: 1 }
    } else if f == 1 {
        Vec3i { x: 0, y: 0, z: -1 }
    } else if f == 2 {
        Vec3i { x: 1, y: 0, z: 0 }
    } else if f == 3 {
        Vec3i { x: -1, y: 0, z: 0 }
    } else if f == 4 {
        Vec3i { x: 0, y: 1, z: 0 }
    } else {
        Vec3i { x: 0, y: -1, z: 0 }
    }
}

/// Corner `i` of the counter-clockwise quad of face `f`, as a unit offset
/// from the voxel's low corner.
pub open spec fn face_vertex_spec(f: int, i: int) -> Vec3i {
    if f == 0 {
        if i == 0 {
            Vec3i { x: 0, y: 0, z: 1 }
        } else if i == 1 {
            Vec3i { x: 1, y: 0, z: 1 }
        } else if i == 2 {
            Vec3i { x: 1, y: 1, z: 1 }
        } else {
            Vec3i { x: 0, y: 1, z: 1 }
        }
    } else if f == 1 {
        if i == 0 {
            Vec3i { x: 0, y: 1, z: 0 }
        } else if i == 1 {
            Vec3i { x: 1, y: 1, z: 0 }
        } else if i == 2 {
            Vec3i { x: 1, y: 0, z: 0 }
        } else {
            Vec3i { x: 0, y: 0, z: 0 }
        }
    } else if f == 2 {
        if i == 0 {
            Vec3i { x: 1, y: 0, z: 0 }
        } else if i == 1 {
            Vec3i { x: 1, y: 1, z: 0 }
        } else if i == 2 {
            Vec3i { x: 1, y: 1, z: 1 }
        } else {
            Vec3i { x: 1, y: 0, z: 1 }
        }
    } else if f == 3 {
        if i == 0 {
            Vec3i { x: 0, y: 0, z: 1 }
        } else if i == 1 {
            Vec3i { x: 0, y: 1, z: 1 }
        } else if i == 2 {
            Vec3i { x: 0, y: 1, z: 0 }
        } else {
            Vec3i { x: 0, y: 0, z: 0 }
        }
    } else if f == 4 {
        if i == 0 {
            Vec3i { x: 1, y: 1, z: 0 }
        } else if i == 1 {
            Vec3i { x: 0, y: 1, z: 0 }
        } else if i == 2 {
            Vec3i { x: 0, y: 1, z: 1 }
        } else {
            Vec3i { x: 1, y: 1, z: 1 }
        }
    } else {
        if i == 0 {
            Vec3i { x: 1, y: 0, z: 1 }
        } else if i == 1 {
            Vec3i { x: 0, y: 0, z: 1 }
        } else if i == 2 {
            Vec3i { x: 0, y: 0, z: 0 }
        } else {
            Vec3i { x: 1, y: 0, z: 0 }
        }
    }
}

/// Corner `i` of the quad of face `f`.
pub fn face_vertex(f: BlockFace, i: usize) -> (r: Vec3i)
    requires
        f < 6,
        i < 4,
    ensures
        r == face_vertex_spec(f as int, i as int),
        0 <= r.x <= 1 && 0 <= r.y <= 1 && 0 <= r.z <= 1,
{
    let v = if f == 0 {
        [
            Vec3i { x: 0, y: 0, z: 1 },
            Vec3i { x: 1, y: 0, z: 1 },
            Vec3i { x: 1, y: 1, z: 1 },
            Vec3i { x: 0, y: 1, z: 1 },
        ]
    } else if f == 1 {
        [
            Vec3i { x: 0, y: 1, z: 0 },
            Vec3i { x: 1, y: 1, z: 0 },
            Vec3i { x: 1, y: 0, z: 0 },
            Vec3i { x: 0, y: 0, z: 0 },
        ]
    } else if f == 2 {
        [
            Vec3i { x: 1, y: 0, z: 0 },
            Vec3i { x: 1, y: 1, z: 0 },
            Vec3i { x: 1, y: 1, z: 1 },
            Vec3i { x: 1, y: 0, z: 1 },
        ]
    } else if f == 3 {
        [
            Vec3i { x: 0, y: 0, z: 1 },
            Vec3i { x: 0, y: 1, z: 1 },
            Vec3i { x: 0, y: 1, z: 0 },
            Vec3i { x: 0, y: 0, z: 0 },
        ]
    } else if f == 4 {
        [
            Vec3i { x: 1, y: 1, z: 0 },
            Vec3i { x: 0, y: 1, z: 0 },
            Vec3i { x: 0, y: 1, z: 1 },
            Vec3i { x: 1, y: 1, z: 1 },
        ]
    } else {
        [
            Vec3i { x: 1, y: 0, z: 1 },
            Vec3i { x: 0, y: 0, z: 1 },
            Vec3i { x: 0, y: 0, z: 0 },
            Vec3i { x: 1, y: 0, z: 0 },
        ]
    };
    v[i]
}

/// Atlas class of a face: tops, sides and bottoms may use different tiles.
pub open spec fn face_class_spec(f: int) -> int {
    if f == 4 {
        0
    } else if f == 5 {
        2
    } else {
        1
    }
}

/// Texture-atlas tile of voxel `v` seen on face `f`: three tiles per
/// material (top, side, bottom).
pub open spec fn texture_index_spec(v: VoxelType, f: int) -> int {
    3 * code_of(v) + face_class_spec(f)
}

/// Texture-atlas tile of voxel `v` seen on face `f`.
pub fn texture_index(v: &VoxelType, f: BlockFace) -> (r: u32)
    requires
        f < 6,
    ensures
        r == texture_index_spec(*v, f as int),
{
    let class: u32 = if f == 4 {
        0
    } else if f == 5 {
        2
    } else {
        1
    };
    3 * (v.index() as u32) + class
}

/// The world-bounds margin a mesher needs: every sample it takes, up to one
/// voxel beyond the chunk, stays inside the world.
pub open spec fn mesh_bounds(wp: Vec3i) -> bool {
    &&& -WORLD_BOUND <= wp.x - 1 && wp.x + 17 <= WORLD_BOUND
    &&& -WORLD_BOUND <= wp.y - 1 && wp.y + 17 <= WORLD_BOUND
    &&& -WORLD_BOUND <= wp.z - 1 && wp.z + 17 <= WORLD_BOUND
}

/// The terrain coverage a mesher needs: the chunk's footprint plus a
/// one-voxel ring.
pub open spec fn mesh_cover(t: Terrain, wp: Vec3i) -> bool {
    t.covers_rect(wp.x - 1, wp.z - 1, 18, 18)
}

/// Whether the cube mesher emits face `f` of the voxel at `(x, y, z)`: the
/// voxel is not air and the sample one step outward — taken from the chunk,
/// or from the terrain beyond the seam — is air.
pub open spec fn face_visible(c: Chunk, t: Terrain, wp: Vec3i, x: int, y: int, z: int, f: int) -> bool {
    let n = face_normal_spec(f);
    &&& c.voxel_at(x, y, z) != VoxelType::Air
    &&& sample_spec(
        c,
        t,
        wp,
        Vec3i { x: (x + n.x) as i64, y: (y + n.y) as i64, z: (z + n.z) as i64 },
    ) == VoxelType::Air
}

/// Flattened scan position of `(x, y, z, f)` in the cube mesher's
/// iteration order (`x` outermost, then `y`, `z`, `f`).
pub open spec fn fenc(x: int, y: int, z: int, f: int) -> int {
    6 * (256 * x + 16 * y + z) + f
}

/// Decoder of the flattened scan position: the face.
pub open spec fn fdec_f(m: int) -> int {
    m % 6
}

/// Decoder of the flattened scan position: local `z`.
pub open spec fn fdec_z(m: int) -> int {
    ((m / 6) % 256) % 16
}

/// Decoder of the flattened scan position: local `y`.
pub open spec fn fdec_y(m: int) -> int {
    ((m / 6) % 256) / 16
}

/// Decoder of the flattened scan position: local `x`.
pub open spec fn fdec_x(m: int) -> int {
    (m / 6) / 256
}

/// The decoders invert `fenc` on in-range coordinates.
pub proof fn lemma_fenc_dec(x: int, y: int, z: int, f: int)
    requires
        0 <= x < 16,
        0 <= y < 16,
        0 <= z < 16,
        0 <= f < 6,
    ensures
        0 <= fenc(x, y, z, f) < 24576,
        fdec_x(fenc(x, y, z, f)) == x,
        fdec_y(fenc(x, y, z, f)) == y,
        fdec_z(fenc(x, y, z, f)) == z,
        fdec_f(fenc(x, y, z, f)) == f,
{
    let q = 256 * x + 16 * y + z;
    let m = fenc(x, y, z, f);
    assert(m == 6 * q + f);
    assert(0 <= q < 4096);
    assert(m / 6 == q && m % 6 == f) by (nonlinear_arith)
        requires
            m == 6 * q + f,
            0 <= f < 6,
            0 <= q < 4096,
    ;
    assert(q == 256 * x + (16 * y + z));
    assert(0 <= 16 * y + z < 256);
    assert(q / 256 == x && q % 256 == 16 * y + z) by (nonlinear_arith)
        requires
            q == 256 * x + (16 * y + z),
            0 <= 16 * y + z < 256,
            0 <= x < 16,
    ;
}

/// How many visible faces the scan has passed before flattened position
/// `n`.
pub open spec fn visible_count(c: Chunk, t: Terrain, wp: Vec3i, n: nat) -> nat
    decreases n,
{
    if n == 0 {
        0
    } else {
        visible_count(c, t, wp, (n - 1) as nat) + if face_visible(
            c,
            t,
            wp,
            fdec_x(n - 1),
            fdec_y(n - 1),
            fdec_z(n - 1),
            fdec_f(n - 1),
        ) {
            1nat
        } else {
            0nat
        }
    }
}

/// At most one face per scan position.
pub proof fn lemma_visible_count_le(c: Chunk, t: Terrain, wp: Vec3i, n: nat)
    ensures
        visible_count(c, t, wp, n) <= n,
    decreases n,
{
    if n > 0 {
        lemma_visible_count_le(c, t, wp, (n - 1) as nat);
    }
}

/// In a chunk that holds only air, the cube mesher finds no visible face
/// anywhere in its scan.
pub proof fn lemma_air_chunk_no_faces(c: Chunk, t: Terrain, wp: Vec3i, n: nat)
    requires
        c.wf(),
        forall|x: int, y: int, z: int|
            0 <= x < 16 && 0 <= y < 16 && 0 <= z < 16 ==> #[trigger] c.voxel_at(x, y, z)
                == VoxelType::Air,
        n <= 24576,
    ensures
        visible_count(c, t, wp, n) == 0,
    decreases n,
{
    if n > 0 {
        lemma_air_chunk_no_faces(c, t, wp, (n - 1) as nat);
        let m = n - 1;
        assert(0 <= fdec_f(m) < 6 && 0 <= fdec_z(m) < 16 && 0 <= fdec_y(m) < 16 && 0 <= fdec_x(m)
            < 16) by {
            assert(0 <= m / 6 < 4096);
        }
    }
}


/// Vertex `i` of the quad of face `f` of the voxel at `(x, y, z)`, in
/// fixed point.
pub open spec fn quad_pos(x: int, y: int, z: int, f: int, i: int) -> Vec3i {
    let v = face_vertex_spec(f, i);
    Vec3i {
        x: (1000 * (x + v.x)) as i64,
        y: (1000 * (y + v.y)) as i64,
        z: (1000 * (z + v.z)) as i64,
    }
}

/// Texture coordinates of quad corner `i`: the unit square, fixed point.
pub open spec fn uv_spec(i: int) -> (i64, i64) {
    (
        if i == 1 || i == 2 {
            1000i64
        } else {
            0i64
        },
        if i == 2 || i == 3 {
            1000i64
        } else {
            0i64
        },
    )
}

/// Index `j` of a quad's two counter-clockwise triangles, relative to its
/// first vertex.
pub open spec fn index_pattern(j: int) -> int {
    if j == 1 {
        1
    } else if j == 2 || j == 3 {
        2
    } else if j == 4 {
        3
    } else {
        0
    }
}

/// The four vertex positions a visible face appends.
#[verifier::opaque]
pub open spec fn quad_positions(x: int, y: int, z: int, f: int) -> Seq<Vec3i> {
    Seq::new(4, |i: int| quad_pos(x, y, z, f, i))
}

/// The four normals a visible face appends.
#[verifier::opaque]
pub open spec fn quad_normals(f: int) -> Seq<Vec3i> {
    Seq::new(4, |i: int| face_normal_spec(f))
}

/// The four texture coordinates a visible face appends.
#[verifier::opaque]
pub open spec fn quad_uvs() -> Seq<(i64, i64)> {
    Seq::new(4, |i: int| uv_spec(i))
}

/// The four material indices a visible face appends.
#[verifier::opaque]
pub open spec fn quad_mats(v: VoxelType) -> Seq<u32> {
    Seq::new(4, |i: int| code_of(v) as u32)
}

/// The four atlas tiles a visible face appends.
#[verifier::opaque]
pub open spec fn quad_texs(v: VoxelType, f: int) -> Seq<u32> {
    Seq::new(4, |i: int| texture_index_spec(v, f) as u32)
}

/// The six triangle indices a visible face appends, on a quad starting at
/// vertex `base`.
#[verifier::opaque]
pub open spec fn quad_indices(base: int) -> Seq<u32> {
    Seq::new(6, |j: int| (base + index_pattern(j)) as u32)
}

/// The vertex positions the cube mesher has emitted before flattened scan
/// position `n`: one quad per visible face, in scan order.
pub open spec fn cube_positions_spec(c: Chunk, t: Terrain, wp: Vec3i, n: nat) -> Seq<Vec3i>
    decreases n,
{
    if n == 0 {
        Seq::empty()
    } else {
        let prev = cube_positions_spec(c, t, wp, (n - 1) as nat);
        if face_visible(c, t, wp, fdec_x(n - 1), fdec_y(n - 1), fdec_z(n - 1), fdec_f(n - 1)) {
            prev + quad_positions(fdec_x(n - 1), fdec_y(n - 1), fdec_z(n - 1), fdec_f(n - 1))
        } else {
            prev
        }
    }
}

/// The normals emitted before flattened scan position `n`.
pub open spec fn cube_normals_spec(c: Chunk, t: Terrain, wp: Vec3i, n: nat) -> Seq<Vec3i>
    decreases n,
{
    if n == 0 {
        Seq::empty()
    } else {
        let prev = cube_normals_spec(c, t, wp, (n - 1) as nat);
        if face_visible(c, t, wp, fdec_x(n - 1), fdec_y(n - 1), fdec_z(n - 1), fdec_f(n - 1)) {
            prev + quad_normals(fdec_f(n - 1))
        } else {
            prev
        }
    }
}

/// The texture coordinates emitted before flattened scan position `n`.
pub open spec fn cube_uvs_spec(c: Chunk, t: Terrain, wp: Vec3i, n: nat) -> Seq<(i64, i64)>
    decreases n,
{
    if n == 0 {
        Seq::empty()
    } else {
        let prev = cube_uvs_spec(c, t, wp, (n - 1) as nat);
        if face_visible(c, t, wp, fdec_x(n - 1), fdec_y(n - 1), fdec_z(n - 1), fdec_f(n - 1)) {
            prev + quad_uvs()
        } else {
            prev
        }
    }
}

/// The material indices emitted before flattened scan position `n`.
pub open spec fn cube_mats_spec(c: Chunk, t: Terrain, wp: Vec3i, n: nat) -> Seq<u32>
    decreases n,
{
    if n == 0 {
        Seq::empty()
    } else {
        let prev = cube_mats_spec(c, t, wp, (n - 1) as nat);
        if face_visible(c, t, wp, fdec_x(n - 1), fdec_y(n - 1), fdec_z(n - 1), fdec_f(n - 1)) {
            prev + quad_mats(c.voxel_at(fdec_x(n - 1), fdec_y(n - 1), fdec_z(n - 1)))
        } else {
            prev
        }
    }
}

/// The atlas tiles emitted before flattened scan position `n`.
pub open spec fn cube_texs_spec(c: Chunk, t: Terrain, wp: Vec3i, n: nat) -> Seq<u32>
    decreases n,
{
    if n == 0 {
        Seq::empty()
    } else {
        let prev = cube_texs_spec(c, t, wp, (n - 1) as nat);
        if face_visible(c, t, wp, fdec_x(n - 1), fdec_y(n - 1), fdec_z(n - 1), fdec_f(n - 1)) {
            prev + quad_texs(
                c.voxel_at(fdec_x(n - 1), fdec_y(n - 1), fdec_z(n - 1)),
                fdec_f(n - 1),
            )
        } else {
            prev
        }
    }
}

/// The triangle indices emitted before flattened scan position `n`.
pub open spec fn cube_indices_spec(c: Chunk, t: Terrain, wp: Vec3i, n: nat) -> Seq<u32>
    decreases n,
{
    if n == 0 {
        Seq::empty()
    } else {
        let prev = cube_indices_spec(c, t, wp, (n - 1) as nat);
        if face_visible(c, t, wp, fdec_x(n - 1), fdec_y(n - 1), fdec_z(n - 1), fdec_f(n - 1)) {
            prev + quad_indices(4 * (visible_count(c, t, wp, (n - 1) as nat) as int))
        } else {
            prev
        }
    }
}

/// Append one visible face: four vertices with their normals, texture
/// coordinates, material indices and atlas tiles, and the quad's six
/// triangle indices.
#[verifier::rlimit(100)]
#[verifier::spinoff_prover]
fn emit_face(
    x: usize,
    y: usize,
    z: usize,
    f: BlockFace,
    voxel_type: VoxelType,
    positions: &mut Vec<Vec3i>,
    normals: &mut Vec<Vec3i>,
    uvs: &mut Vec<(i64, i64)>,
    voxel_indices: &mut Vec<u32>,
    texture_indices: &mut Vec<u32>,
    indices: &mut Vec<u32>,
)
    requires
        x < 16,
        y < 16,
        z < 16,
        f < 6,
        old(positions)@.len() <= 98300,
    ensures
        final(positions)@ == old(positions)@ + quad_positions(x as int, y as int, z as int, f as int),
        final(normals)@ == old(normals)@ + quad_normals(f as int),
        final(uvs)@ == old(uvs)@ + quad_uvs(),
        final(voxel_indices)@ == old(voxel_indices)@ + quad_mats(voxel_type),
        final(texture_indices)@ == old(texture_indices)@ + quad_texs(voxel_type, f as int),
        final(indices)@ == old(indices)@ + quad_indices(old(positions)@.len() as int),
        final(positions)@.len() == old(positions)@.len() + 4,
        final(normals)@.len() == old(normals)@.len() + 4,
        final(uvs)@.len() == old(uvs)@.len() + 4,
        final(voxel_indices)@.len() == old(voxel_indices)@.len() + 4,
        final(texture_indices)@.len() == old(texture_indices)@.len() + 4,
        final(indices)@.len() == old(indices)@.len() + 6,
        forall|k: int|
            old(indices)@.len() <= k < final(indices)@.len() ==> (#[trigger] final(indices)@[k])
                < old(positions)@.len() + 4,
{
    let idx0 = positions.len() as u32;
    let px = x as i64;
    let py = y as i64;
    let pz = z as i64;
    let fv0 = face_vertex(f, 0);
    positions.push(Vec3i { x: (px + fv0.x) * 1000, y: (py + fv0.y) * 1000, z: (pz + fv0.z) * 1000 });
    let fv1 = face_vertex(f, 1);
    positions.push(Vec3i { x: (px + fv1.x) * 1000, y: (py + fv1.y) * 1000, z: (pz + fv1.z) * 1000 });
    let fv2 = face_vertex(f, 2);
    positions.push(Vec3i { x: (px + fv2.x) * 1000, y: (py + fv2.y) * 1000, z: (pz + fv2.z) * 1000 });
    let fv3 = face_vertex(f, 3);
    positions.push(Vec3i { x: (px + fv3.x) * 1000, y: (py + fv3.y) * 1000, z: (pz + fv3.z) * 1000 });
    let n = face_normal(f);
    normals.push(n);
    normals.push(n);
    normals.push(n);
    normals.push(n);
    uvs.push((0, 0));
    uvs.push((1000, 0));
    uvs.push((1000, 1000));
    uvs.push((0, 1000));
    let code = voxel_type.index() as u32;
    voxel_indices.push(code);
    voxel_indices.push(code);
    voxel_indices.push(code);
    voxel_indices.push(code);
    let tex = texture_index(&voxel_type, f);
    texture_indices.push(tex);
    texture_indices.push(tex);
    texture_indices.push(tex);
    texture_indices.push(tex);
    indices.push(idx0);
    indices.push(idx0 + 1);
    indices.push(idx0 + 2);
    indices.push(idx0 + 2);
    indices.push(idx0 + 3);
    indices.push(idx0);
    proof {
        reveal(quad_positions);
        reveal(quad_normals);
        reveal(quad_uvs);
        reveal(quad_mats);
        reveal(quad_texs);
        reveal(quad_indices);
        assert(final(positions)@ =~= old(positions)@ + quad_positions(
            x as int,
            y as int,
            z as int,
            f as int,
        ));
        assert(final(normals)@ =~= old(normals)@ + quad_normals(f as int));
        assert(final(uvs)@ =~= old(uvs)@ + quad_uvs());
        assert(final(voxel_indices)@ =~= old(voxel_indices)@ + quad_mats(voxel_type));
        assert(final(texture_indices)@ =~= old(texture_indices)@ + quad_texs(
            voxel_type,
            f as int,
        ));
        assert(final(indices)@ =~= old(indices)@ + quad_indices(old(positions)@.len() as int));
    }
}

/// The cube mesher's stated buffers hold four entries per visible face,
/// six indices per visible face.
pub proof fn lemma_cube_buffer_lens(c: Chunk, t: Terrain, wp: Vec3i, n: nat)
    ensures
        cube_positions_spec(c, t, wp, n).len() == 4 * visible_count(c, t, wp, n),
        cube_normals_spec(c, t, wp, n).len() == 4 * visible_count(c, t, wp, n),
        cube_uvs_spec(c, t, wp, n).len() == 4 * visible_count(c, t, wp, n),
        cube_mats_spec(c, t, wp, n).len() == 4 * visible_count(c, t, wp, n),
        cube_texs_spec(c, t, wp, n).len() == 4 * visible_count(c, t, wp, n),
        cube_indices_spec(c, t, wp, n).len() == 6 * visible_count(c, t, wp, n),
    decreases n,
{
    reveal(quad_positions);
    reveal(quad_normals);
    reveal(quad_uvs);
    reveal(quad_mats);
    reveal(quad_texs);
    reveal(quad_indices);
    if n > 0 {
        lemma_cube_buffer_lens(c, t, wp, (n - 1) as nat);
    }
}

/// The strategy interface: one `build` turning a chunk into buffers, `None`
/// exactly when the strategy finds no geometry to emit.  Each strategy
/// states, as spec functions, when it emits and what every buffer holds,
/// so swapping strategies keeps callers' guarantees intact.
pub trait ChunkMesher {
    /// Whether this strategy emits any geometry for the chunk.
    spec fn emits(chunk: Chunk, world_position: Vec3i, terrain: Terrain) -> bool;

    /// The vertex positions this strategy emits.
    spec fn positions_of(chunk: Chunk, world_position: Vec3i, terrain: Terrain) -> Seq<Vec3i>;

    /// The per-vertex normals this strategy emits.
    spec fn normals_of(chunk: Chunk, world_position: Vec3i, terrain: Terrain) -> Seq<Vec3i>;

    /// The per-vertex texture coordinates this strategy emits.
    spec fn uvs_of(chunk: Chunk, world_position: Vec3i, terrain: Terrain) -> Seq<(i64, i64)>;

    /// The per-vertex material indices this strategy emits.
    spec fn mats_of(chunk: Chunk, world_position: Vec3i, terrain: Terrain) -> Seq<u32>;

    /// The per-vertex texture-atlas tiles this strategy emits.
    spec fn texs_of(chunk: Chunk, world_position: Vec3i, terrain: Terrain) -> Seq<u32>;

    /// The triangle index list this strategy emits.
    spec fn indices_of(chunk: Chunk, world_position: Vec3i, terrain: Terrain) -> Seq<u32>;

    /// Build the surface of `chunk`, whose world origin is
    /// `world_position`, sampling across its seams through `terrain`: a
    /// mesh holding exactly the strategy's stated buffers when it emits,
    /// an explicit empty result when it does not.
    fn build(chunk: &Chunk, world_position: Vec3i, terrain: &Terrain) -> (r: Option<MeshBuffers>)
        requires
            chunk.wf(),
            terrain.wf(),
            mesh_bounds(world_position),
            mesh_cover(*terrain, world_position),
        ensures
            (r is Some) <==> Self::emits(*chunk, world_position, *terrain),
            match r {
                Some(m) => {
                    &&& wf_mesh(m)
                    &&& m.indices@.len() > 0
                    &&& m.positions@ == Self::positions_of(*chunk, world_position, *terrain)
                    &&& m.normals@ == Self::normals_of(*chunk, world_position, *terrain)
                    &&& m.uvs@ == Self::uvs_of(*chunk, world_position, *terrain)
                    &&& m.voxel_indices@ == Self::mats_of(*chunk, world_position, *terrain)
                    &&& m.texture_indices@ == Self::texs_of(*chunk, world_position, *terrain)
                    &&& m.indices@ == Self::indices_of(*chunk, world_position, *terrain)
                },
                None => true,
            },
    ;
}

/// The block mesher: one quad for every exposed face of a non-air voxel.
pub struct CubeChunkMesher {}

/// The isosurface mesher: marching cubes over the voxel density field.
pub struct MarchingChunkMesher {}

/// Build the cube mesh: scan every voxel and emit a quad (four vertices,
/// six indices) for each face whose outward neighbour is air.  The buffer
/// sizes are pinned to the number of visible faces of the scan, and a mesh
/// is returned exactly when there is at least one.
#[verifier::loop_isolation(false)]
#[verifier::rlimit(100)]
#[verifier::spinoff_prover]
pub fn build_cube_mesh(chunk: &Chunk, world_position: Vec3i, terrain: &Terrain) -> (r: Option<
    MeshBuffers>)
    requires
        chunk.wf(),
        terrain.wf(),
        mesh_bounds(world_position),
        mesh_cover(*terrain, world_position),
    ensures
        match r {
            Some(m) => {
                let faces = visible_count(*chunk, *terrain, world_position, 24576);
                &&& faces > 0
                &&& wf_mesh(m)
                &&& m.positions@.len() == 4 * faces
                &&& m.indices@.len() == 6 * faces
                &&& m.uvs@.len() == m.positions@.len()
                &&& m.texture_indices@.len() == m.positions@.len()
                &&& m.positions@ == cube_positions_spec(*chunk, *terrain, world_position, 24576)
                &&& m.normals@ == cube_normals_spec(*chunk, *terrain, world_position, 24576)
                &&& m.uvs@ == cube_uvs_spec(*chunk, *terrain, world_position, 24576)
                &&& m.voxel_indices@ == cube_mats_spec(*chunk, *terrain, world_position, 24576)
                &&& m.texture_indices@ == cube_texs_spec(*chunk, *terrain, world_position, 24576)
                &&& m.indices@ == cube_indices_spec(*chunk, *terrain, world_position, 24576)
            },
            None => visible_count(*chunk, *terrain, world_position, 24576) == 0,
        },
{
    let wp = world_position;
    let mut positions: Vec<Vec3i> = Vec::new();
    let mut normals: Vec<Vec3i> = Vec::new();
    let mut uvs: Vec<(i64, i64)> = Vec::new();
    let mut voxel_indices: Vec<u32> = Vec::new();
    let mut texture_indices: Vec<u32> = Vec::new();
    let mut indices: Vec<u32> = Vec::new();
    let mut index: u32 = 0;

    let mut x: usize = 0;
    while x < 16
        invariant
            x <= 16,
            positions@.len() == 4 * visible_count(*chunk, *terrain, wp, fenc(x as int, 0, 0, 0) as nat),
            positions@ == cube_positions_spec(*chunk, *terrain, wp, fenc(x as int, 0, 0, 0) as nat),
            normals@ == cube_normals_spec(*chunk, *terrain, wp, fenc(x as int, 0, 0, 0) as nat),
            uvs@ == cube_uvs_spec(*chunk, *terrain, wp, fenc(x as int, 0, 0, 0) as nat),
            voxel_indices@ == cube_mats_spec(*chunk, *terrain, wp, fenc(x as int, 0, 0, 0) as nat),
            texture_indices@ == cube_texs_spec(*chunk, *terrain, wp, fenc(x as int, 0, 0, 0) as nat),
            indices@ == cube_indices_spec(*chunk, *terrain, wp, fenc(x as int, 0, 0, 0) as nat),

            normals@.len() == positions@.len(),
            uvs@.len() == positions@.len(),
            voxel_indices@.len() == positions@.len(),
            texture_indices@.len() == positions@.len(),
            indices@.len() == 6 * visible_count(*chunk, *terrain, wp, fenc(x as int, 0, 0, 0) as nat),
            index == positions@.len(),
            forall|k: int| 0 <= k < indices@.len() ==> (#[trigger] indices@[k]) < positions@.len(),
        decreases 16 - x,
    {
        let mut y: usize = 0;
        while y < 16
            invariant
                x < 16,
                y <= 16,
                positions@.len() == 4 * visible_count(*chunk, *terrain, wp, fenc(x as int, y as int, 0, 0) as nat),
                positions@ == cube_positions_spec(*chunk, *terrain, wp, fenc(x as int, y as int, 0, 0) as nat),
                normals@ == cube_normals_spec(*chunk, *terrain, wp, fenc(x as int, y as int, 0, 0) as nat),
                uvs@ == cube_uvs_spec(*chunk, *terrain, wp, fenc(x as int, y as int, 0, 0) as nat),
                voxel_indices@ == cube_mats_spec(*chunk, *terrain, wp, fenc(x as int, y as int, 0, 0) as nat),
                texture_indices@ == cube_texs_spec(*chunk, *terrain, wp, fenc(x as int, y as int, 0, 0) as nat),
                indices@ == cube_indices_spec(*chunk, *terrain, wp, fenc(x as int, y as int, 0, 0) as nat),

                normals@.len() == positions@.len(),
                uvs@.len() == positions@.len(),
                voxel_indices@.len() == positions@.len(),
                texture_indices@.len() == positions@.len(),
                indices@.len() == 6 * visible_count(*chunk, *terrain, wp, fenc(x as int, y as int, 0, 0) as nat),
                index == positions@.len(),
                forall|k: int| 0 <= k < indices@.len() ==> (#[trigger] indices@[k]) < positions@.len(),
            decreases 16 - y,
        {
            let mut z: usize = 0;
            while z < 16
                invariant
                    x < 16,
                    y < 16,
                    z <= 16,
                    positions@.len() == 4 * visible_count(*chunk, *terrain, wp, fenc(x as int, y as int, z as int, 0) as nat),
                    positions@ == cube_positions_spec(*chunk, *terrain, wp, fenc(x as int, y as int, z as int, 0) as nat),
                    normals@ == cube_normals_spec(*chunk, *terrain, wp, fenc(x as int, y as int, z as int, 0) as nat),
                    uvs@ == cube_uvs_spec(*chunk, *terrain, wp, fenc(x as int, y as int, z as int, 0) as nat),
                    voxel_indices@ == cube_mats_spec(*chunk, *terrain, wp, fenc(x as int, y as int, z as int, 0) as nat),
                    texture_indices@ == cube_texs_spec(*chunk, *terrain, wp, fenc(x as int, y as int, z as int, 0) as nat),
                    indices@ == cube_indices_spec(*chunk, *terrain, wp, fenc(x as int, y as int, z as int, 0) as nat),

                    normals@.len() == positions@.len(),
                    uvs@.len() == positions@.len(),
                    voxel_indices@.len() == positions@.len(),
                    texture_indices@.len() == positions@.len(),
                    indices@.len() == 6 * visible_count(*chunk, *terrain, wp, fenc(x as int, y as int, z as int, 0) as nat),
                    index == positions@.len(),
                    forall|k: int| 0 <= k < indices@.len() ==> (#[trigger] indices@[k]) < positions@.len(),
                decreases 16 - z,
            {
                let position = Vec3i { x: x as i64, y: y as i64, z: z as i64 };
                let voxel_type = chunk.get_block(x, y, z);

                let mut f: usize = 0;
                while f < 6
                    invariant
                        x < 16,
                        y < 16,
                        z < 16,
                        f <= 6,
                        position == (Vec3i { x: x as i64, y: y as i64, z: z as i64 }),
                        voxel_type == chunk.voxel_at(x as int, y as int, z as int),
                        positions@.len() == 4 * visible_count(*chunk, *terrain, wp, fenc(x as int, y as int, z as int, f as int) as nat),
                        positions@ == cube_positions_spec(*chunk, *terrain, wp, fenc(x as int, y as int, z as int, f as int) as nat),
                        normals@ == cube_normals_spec(*chunk, *terrain, wp, fenc(x as int, y as int, z as int, f as int) as nat),
                        uvs@ == cube_uvs_spec(*chunk, *terrain, wp, fenc(x as int, y as int, z as int, f as int) as nat),
                        voxel_indices@ == cube_mats_spec(*chunk, *terrain, wp, fenc(x as int, y as int, z as int, f as int) as nat),
                        texture_indices@ == cube_texs_spec(*chunk, *terrain, wp, fenc(x as int, y as int, z as int, f as int) as nat),
                        indices@ == cube_indices_spec(*chunk, *terrain, wp, fenc(x as int, y as int, z as int, f as int) as nat),

                        normals@.len() == positions@.len(),
                        uvs@.len() == positions@.len(),
                        voxel_indices@.len() == positions@.len(),
                        texture_indices@.len() == positions@.len(),
                        indices@.len() == 6 * visible_count(*chunk, *terrain, wp, fenc(x as int, y as int, z as int, f as int) as nat),
                        index == positions@.len(),
                        forall|k: int| 0 <= k < indices@.len() ==> (#[trigger] indices@[k])
                            < positions@.len(),
                    decreases 6 - f,
                {
                    proof {
                        lemma_fenc_dec(x as int, y as int, z as int, f as int);
                        lemma_visible_count_le(*chunk, *terrain, wp, fenc(x as int, y as int, z as int, f as int) as nat);
                    }
                    let is_air = match voxel_type {
                        VoxelType::Air => true,
                        _ => false,
                    };
                    let visible = if is_air {
                        false
                    } else {
                        let n = face_normal(f);
                        let npos = Vec3i { x: position.x + n.x, y: position.y + n.y, z: position.z + n.z };
                        chunk.is_transparent(wp, npos, terrain)
                    };
                    proof {
                        assert(visible == face_visible(*chunk, *terrain, wp, x as int, y as int, z as int, f as int));
                    }
                    if visible {
                        emit_face(
                            x,
                            y,
                            z,
                            f,
                            voxel_type,
                            &mut positions,
                            &mut normals,
                            &mut uvs,
                            &mut voxel_indices,
                            &mut texture_indices,
                            &mut indices,
                        );
                        index = index + 4;
                    }
                    f = f + 1;
                    proof {
                        assert(fenc(x as int, y as int, z as int, f as int) == fenc(x as int, y as int, z as int, f as int - 1) + 1);
                    }
                }
                z = z + 1;
                proof {
                    assert(fenc(x as int, y as int, z as int, 0) == fenc(x as int, y as int, z as int - 1, 6));
                }
            }
            y = y + 1;
            proof {
                assert(fenc(x as int, y as int, 0, 0) == fenc(x as int, y as int - 1, 16, 0));
            }
        }
        x = x + 1;
        proof {
            assert(fenc(x as int, 0, 0, 0) == fenc(x as int - 1, 16, 0, 0));
        }
    }

    let index_count = indices.len();
    let mesh = MeshBuffers { positions, normals, uvs, voxel_indices, texture_indices, indices };
    if index_count > 0 {
        return Some(mesh);
    }
    None
}

impl ChunkMesher for CubeChunkMesher {
    /// The cube mesher emits when some face of a non-air voxel is exposed.
    open spec fn emits(chunk: Chunk, world_position: Vec3i, terrain: Terrain) -> bool {
        visible_count(chunk, terrain, world_position, 24576) > 0
    }

    open spec fn positions_of(chunk: Chunk, world_position: Vec3i, terrain: Terrain) -> Seq<
        Vec3i,
    > {
        cube_positions_spec(chunk, terrain, world_position, 24576)
    }

    open spec fn normals_of(chunk: Chunk, world_position: Vec3i, terrain: Terrain) -> Seq<Vec3i> {
        cube_normals_spec(chunk, terrain, world_position, 24576)
    }

    open spec fn uvs_of(chunk: Chunk, world_position: Vec3i, terrain: Terrain) -> Seq<(i64, i64)> {
        cube_uvs_spec(chunk, terrain, world_position, 24576)
    }

    open spec fn mats_of(chunk: Chunk, world_position: Vec3i, terrain: Terrain) -> Seq<u32> {
        cube_mats_spec(chunk, terrain, world_position, 24576)
    }

    open spec fn texs_of(chunk: Chunk, world_position: Vec3i, terrain: Terrain) -> Seq<u32> {
        cube_texs_spec(chunk, terrain, world_position, 24576)
    }

    open spec fn indices_of(chunk: Chunk, world_position: Vec3i, terrain: Terrain) -> Seq<u32> {
        cube_indices_spec(chunk, terrain, world_position, 24576)
    }

    fn build(chunk: &Chunk, world_position: Vec3i, terrain: &Terrain) -> (r: Option<MeshBuffers>) {
        build_cube_mesh(chunk, world_position, terrain)
    }
}

/// Cell corner `c` of the cell at `(x, y, z)`, as a lattice point.
pub open spec fn cell_corner(x: int, y: int, z: int, c: int) -> Vec3i {
    Vec3i {
        x: (x + corner_bit_x(c)) as i64,
        y: (y + corner_bit_y(c)) as i64,
        z: (z + corner_bit_z(c)) as i64,
    }
}

/// Sampled density (hundredths) at corner `c` of the cell at `(x, y, z)`.
pub open spec fn cell_density(ch: Chunk, t: Terrain, wp: Vec3i, x: int, y: int, z: int, c: int) -> int {
    density_of(sample_spec(ch, t, wp, cell_corner(x, y, z, c))) as int
}

/// Whether corner `c` samples below the surface threshold.
pub open spec fn corner_below(ch: Chunk, t: Terrain, wp: Vec3i, x: int, y: int, z: int, c: int) -> bool {
    cell_density(ch, t, wp, x, y, z, c) < 50
}

/// Configuration mask of the cell at `(x, y, z)`: bit `c` set when corner
/// `c` samples below the surface threshold.
#[verifier::opaque]
pub open spec fn cell_mask(ch: Chunk, t: Terrain, wp: Vec3i, x: int, y: int, z: int) -> int {
    (if corner_below(ch, t, wp, x, y, z, 0) { 1int } else { 0int })
        + (if corner_below(ch, t, wp, x, y, z, 1) { 2int } else { 0int })
        + (if corner_below(ch, t, wp, x, y, z, 2) { 4int } else { 0int })
        + (if corner_below(ch, t, wp, x, y, z, 3) { 8int } else { 0int })
        + (if corner_below(ch, t, wp, x, y, z, 4) { 16int } else { 0int })
        + (if corner_below(ch, t, wp, x, y, z, 5) { 32int } else { 0int })
        + (if corner_below(ch, t, wp, x, y, z, 6) { 64int } else { 0int })
        + (if corner_below(ch, t, wp, x, y, z, 7) { 128int } else { 0int })
}

/// Whether the surface crosses the cell at `(x, y, z)`: its corners are
/// neither all inside nor all outside.
pub open spec fn cell_straddles(ch: Chunk, t: Terrain, wp: Vec3i, x: int, y: int, z: int) -> bool {
    cell_mask(ch, t, wp, x, y, z) != 0 && cell_mask(ch, t, wp, x, y, z) != 255
}

/// Flattened scan position of cell `(x, y, z)` in the marching mesher's
/// iteration order (`x` outermost, `z` innermost).
pub open spec fn cenc(x: int, y: int, z: int) -> int {
    256 * x + 16 * y + z
}

/// Whether any cell before flattened scan position `n` straddles the
/// surface.
pub open spec fn straddle_before(ch: Chunk, t: Terrain, wp: Vec3i, n: nat) -> bool
    decreases n,
{
    if n == 0 {
        false
    } else {
        straddle_before(ch, t, wp, (n - 1) as nat) || cell_straddles(
            ch,
            t,
            wp,
            dec_z(n - 1),
            dec_y(n - 1),
            dec_x(n - 1),
        )
    }
}

/// Interpolation offset of the surface crossing along an edge whose
/// endpoint densities are `va` and `vb`, in fixed point `0..=1000` from the
/// `va` end: `(50 - va) / (vb - va)`, the midpoint when the densities are
/// equal (degenerate interpolation), clamped into the cell otherwise.
pub open spec fn interp_offset_spec(va: int, vb: int) -> int {
    if va == vb {
        500
    } else if vb > va {
        let num = if va >= 50 {
            0int
        } else {
            50 - va
        };
        let o = num * 1000 / (vb - va);
        if o > 1000 {
            1000int
        } else {
            o
        }
    } else {
        let num = if va <= 50 {
            0int
        } else {
            va - 50
        };
        let o = num * 1000 / (va - vb);
        if o > 1000 {
            1000int
        } else {
            o
        }
    }
}

/// Interpolation offset of the surface crossing along an edge.
pub fn interp_offset(va: u8, vb: u8) -> (off: i64)
    requires
        va <= 100,
        vb <= 100,
    ensures
        off == interp_offset_spec(va as int, vb as int),
        0 <= off <= 1000,
{
    if va == vb {
        500
    } else if vb > va {
        let num: u64 = if va >= 50 {
            0
        } else {
            (50 - va) as u64
        };
        let den: u64 = (vb - va) as u64;
        let o = num * 1000 / den;
        if o > 1000 {
            1000
        } else {
            o as i64
        }
    } else {
        let num: u64 = if va <= 50 {
            0
        } else {
            (va - 50) as u64
        };
        let den: u64 = (va - vb) as u64;
        let o = num * 1000 / den;
        if o > 1000 {
            1000
        } else {
            o as i64
        }
    }
}

/// Fixed-point step along one axis: `off` toward the high corner when the
/// edge spans this axis, nothing when it does not.
pub open spec fn axis_step(off: int, abit: int, bbit: int) -> int {
    if bbit > abit {
        off
    } else if bbit < abit {
        -off
    } else {
        0
    }
}

/// The fixed-point position of the surface crossing on edge `e` of the
/// cell at `(x, y, z)`, given the cell's eight corner densities.
#[verifier::opaque]
pub open spec fn edge_vertex_spec(x: int, y: int, z: int, e: int, ds: Seq<u8>) -> Vec3i {
    let a = edge_corners_spec(e).0;
    let b = edge_corners_spec(e).1;
    let off = interp_offset_spec(ds[a] as int, ds[b] as int);
    Vec3i {
        x: (1000 * (x + corner_bit_x(a)) + axis_step(off, corner_bit_x(a), corner_bit_x(b))) as i64,
        y: (1000 * (y + corner_bit_y(a)) + axis_step(off, corner_bit_y(a), corner_bit_y(b))) as i64,
        z: (1000 * (z + corner_bit_z(a)) + axis_step(off, corner_bit_z(a), corner_bit_z(b))) as i64,
    }
}

/// Compute the surface crossing on edge `e` of the cell at `(x, y, z)`.
pub fn edge_vertex(x: usize, y: usize, z: usize, e: u8, ds: &[u8; 8]) -> (r: Vec3i)
    requires
        x < 16,
        y < 16,
        z < 16,
        e < 12,
        forall|i: int| 0 <= i < 8 ==> ds@[i] <= 100,
    ensures
        r == edge_vertex_spec(x as int, y as int, z as int, e as int, ds@),
        0 <= r.x <= 17000,
        0 <= r.y <= 17000,
        0 <= r.z <= 17000,
{
    let (a, b) = edge_corners(e);
    let va = ds[a as usize];
    let vb = ds[b as usize];
    let off = interp_offset(va, vb);
    let ax = (a % 2) as i64;
    let ay = ((a / 2) % 2) as i64;
    let az = (a / 4) as i64;
    let bx = (b % 2) as i64;
    let by = ((b / 2) % 2) as i64;
    let bz = (b / 4) as i64;
    proof {
        reveal(edge_vertex_spec);
        assert(a as int == edge_corners_spec(e as int).0);
        assert(b as int == edge_corners_spec(e as int).1);
        assert(ax == corner_bit_x(a as int) && ay == corner_bit_y(a as int) && az == corner_bit_z(
            a as int,
        ));
        assert(bx == corner_bit_x(b as int) && by == corner_bit_y(b as int) && bz == corner_bit_z(
            b as int,
        ));
    }
    let ox: i64 = if bx > ax {
        off
    } else if bx < ax {
        -off
    } else {
        0
    };
    let oy: i64 = if by > ay {
        off
    } else if by < ay {
        -off
    } else {
        0
    };
    let oz: i64 = if bz > az {
        off
    } else if bz < az {
        -off
    } else {
        0
    };
    proof {
        assert(va == ds@[edge_corners_spec(e as int).0]);
        assert(vb == ds@[edge_corners_spec(e as int).1]);
        assert(off == interp_offset_spec(va as int, vb as int));
        assert(0 <= ax <= 1 && 0 <= ay <= 1 && 0 <= az <= 1);
        assert(0 <= bx <= 1 && 0 <= by <= 1 && 0 <= bz <= 1);
    }
    Vec3i {
        x: 1000 * (x as i64 + ax) + ox,
        y: 1000 * (y as i64 + ay) + oy,
        z: 1000 * (z as i64 + az) + oz,
    }
}

/// Flat normal of a triangle `(a, b, c)`: the cross product of its two
/// edge vectors from `a`, unnormalised.
pub open spec fn cross_spec(a: Vec3i, b: Vec3i, c: Vec3i) -> Vec3i {
    let ux = b.x - a.x;
    let uy = b.y - a.y;
    let uz = b.z - a.z;
    let vx = c.x - a.x;
    let vy = c.y - a.y;
    let vz = c.z - a.z;
    Vec3i {
        x: (uy * vz - uz * vy) as i64,
        y: (uz * vx - ux * vz) as i64,
        z: (ux * vy - uy * vx) as i64,
    }
}

/// Flat normal shared by the three vertices of the triangle that vertex
/// `k` belongs to.
pub open spec fn flat_normal_at(ps: Seq<Vec3i>, k: int) -> Vec3i {
    let t = 3 * (k / 3);
    cross_spec(ps[t], ps[t + 1], ps[t + 2])
}

/// All coordinates of every position lie in the fixed-point range of one
/// chunk.
pub open spec fn positions_in_range(ps: Seq<Vec3i>) -> bool {
    forall|i: int|
        0 <= i < ps.len() ==> 0 <= (#[trigger] ps[i]).x <= 17000 && 0 <= ps[i].y <= 17000 && 0
            <= ps[i].z <= 17000
}

/// Number of vertices the cell at `(x, y, z)` contributes: three per
/// triangle of its configuration.
pub open spec fn cell_vert_count(ch: Chunk, t: Terrain, wp: Vec3i, x: int, y: int, z: int) -> int {
    3 * (crate::table::cell_triangles_spec(cell_mask(ch, t, wp, x, y, z) as u8).len() as int)
}

/// The eight corner densities of the cell at `(x, y, z)`, in corner order.
#[verifier::opaque]
pub open spec fn cell_density_seq(ch: Chunk, t: Terrain, wp: Vec3i, x: int, y: int, z: int) -> Seq<
    u8,
> {
    Seq::new(8, |c: int| density_of(sample_spec(ch, t, wp, cell_corner(x, y, z, c))))
}

/// Edge `j` of triangle `tr`.
pub open spec fn triple_edge(tr: (u8, u8, u8), j: int) -> u8 {
    if j == 0 {
        tr.0
    } else if j == 1 {
        tr.1
    } else {
        tr.2
    }
}

/// The vertices emitted for triangle list `rows` of the cell at
/// `(x, y, z)` with corner densities `ds`: three interpolated edge
/// crossings per triangle, in order.
pub open spec fn triples_vertices_spec(x: int, y: int, z: int, rows: Seq<(u8, u8, u8)>, ds: Seq<
    u8,
>) -> Seq<Vec3i> {
    Seq::new(
        3 * rows.len(),
        |i: int| edge_vertex_spec(x, y, z, triple_edge(rows[i / 3], i % 3) as int, ds),
    )
}

/// The vertices the cell at `(x, y, z)` emits, in order: three interpolated
/// edge crossings per triangle of its configuration.
#[verifier::opaque]
pub open spec fn cell_vertices_spec(ch: Chunk, t: Terrain, wp: Vec3i, x: int, y: int, z: int) -> Seq<
    Vec3i,
> {
    triples_vertices_spec(
        x,
        y,
        z,
        crate::table::cell_triangles_spec(cell_mask(ch, t, wp, x, y, z) as u8),
        cell_density_seq(ch, t, wp, x, y, z),
    )
}

/// Append the vertices of `rows` — one interpolated crossing per listed
/// edge — with their material and running vertex indices.
#[verifier::loop_isolation(false)]
#[verifier::rlimit(100)]
#[verifier::spinoff_prover]
fn emit_triangles(
    x: usize,
    y: usize,
    z: usize,
    rows: &Vec<(u8, u8, u8)>,
    ds: &[u8; 8],
    code: u8,
    positions: &mut Vec<Vec3i>,
    voxel_indices: &mut Vec<u32>,
    indices: &mut Vec<u32>,
)
    requires
        x < 16,
        y < 16,
        z < 16,
        rows@.len() <= 5,
        forall|i: int| 0 <= i < rows@.len() ==> crate::table::wf_triple(#[trigger] rows@[i]),
        forall|i: int| 0 <= i < 8 ==> ds@[i] <= 100,
        old(positions)@.len() <= 245760,
        positions_in_range(old(positions)@),
        old(voxel_indices)@.len() == old(positions)@.len(),
        old(indices)@.len() == old(positions)@.len(),
        forall|k: int| 0 <= k < old(indices)@.len() ==> old(indices)@[k] == k as u32,
    ensures
        final(positions)@ == old(positions)@ + triples_vertices_spec(
            x as int,
            y as int,
            z as int,
            rows@,
            ds@,
        ),
        positions_in_range(final(positions)@),
        final(voxel_indices)@ == old(voxel_indices)@ + Seq::new(
            (3 * rows@.len()) as nat,
            |i: int| code as u32,
        ),
        final(voxel_indices)@.len() == final(positions)@.len(),
        final(indices)@.len() == final(positions)@.len(),
        forall|k: int| 0 <= k < final(indices)@.len() ==> final(indices)@[k] == k as u32,
{
    let ghost cvs = triples_vertices_spec(x as int, y as int, z as int, rows@, ds@);
    let ghost cms = Seq::new((3 * rows@.len()) as nat, |i: int| code as u32);
    let mut ti: usize = 0;
    while ti < rows.len()
        invariant
            ti <= rows@.len(),
            cvs.len() == 3 * rows@.len(),
            cms.len() == 3 * rows@.len(),
            positions@ == old(positions)@ + cvs.subrange(0, 3 * ti),
            voxel_indices@ == old(voxel_indices)@ + cms.subrange(0, 3 * ti),
            positions_in_range(positions@),
            voxel_indices@.len() == positions@.len(),
            indices@.len() == positions@.len(),
            forall|k: int| 0 <= k < indices@.len() ==> indices@[k] == k as u32,
        decreases rows@.len() - ti,
    {
        let (ea, eb, ec) = rows[ti];
        let idx0 = positions.len() as u32;
        positions.push(edge_vertex(x, y, z, ea, ds));
        voxel_indices.push(code as u32);
        indices.push(idx0);
        positions.push(edge_vertex(x, y, z, eb, ds));
        voxel_indices.push(code as u32);
        indices.push(idx0 + 1);
        positions.push(edge_vertex(x, y, z, ec, ds));
        voxel_indices.push(code as u32);
        indices.push(idx0 + 2);
        proof {
            let t3: int = 3 * ti;
            assert(t3 / 3 == ti as int && (t3 + 1) / 3 == ti as int && (t3 + 2) / 3 == ti as int);
            assert(t3 % 3 == 0 && (t3 + 1) % 3 == 1 && (t3 + 2) % 3 == 2);
            assert(cvs[t3] == edge_vertex_spec(x as int, y as int, z as int, ea as int, ds@));
            assert(cvs[t3 + 1] == edge_vertex_spec(x as int, y as int, z as int, eb as int, ds@));
            assert(cvs[t3 + 2] == edge_vertex_spec(x as int, y as int, z as int, ec as int, ds@));
            assert(positions@ =~= old(positions)@ + cvs.subrange(0, t3 + 3));
            assert(voxel_indices@ =~= old(voxel_indices)@ + cms.subrange(0, t3 + 3));
        }
        ti = ti + 1;
    }
    proof {
        assert(cvs.subrange(0, cvs.len() as int) =~= cvs);
        assert(cms.subrange(0, cms.len() as int) =~= cms);
    }
}

/// The material indices the cell at `(x, y, z)` emits: the cell's own
/// voxel's code, once per vertex.
#[verifier::opaque]
pub open spec fn cell_mats_spec(ch: Chunk, t: Terrain, wp: Vec3i, x: int, y: int, z: int) -> Seq<
    u32,
> {
    Seq::new(
        (3 * crate::table::cell_triangles_spec(cell_mask(ch, t, wp, x, y, z) as u8).len()) as nat,
        |i: int| code_of(ch.voxel_at(x, y, z)) as u32,
    )
}

/// The material indices the whole scan emits before flattened cell
/// position `n`.
pub open spec fn marching_mats_spec(ch: Chunk, t: Terrain, wp: Vec3i, n: nat) -> Seq<u32>
    decreases n,
{
    if n == 0 {
        Seq::empty()
    } else {
        marching_mats_spec(ch, t, wp, (n - 1) as nat) + cell_mats_spec(
            ch,
            t,
            wp,
            dec_z(n - 1),
            dec_y(n - 1),
            dec_x(n - 1),
        )
    }
}

/// The vertices the whole scan emits before flattened cell position `n`.
pub open spec fn marching_vertices_spec(ch: Chunk, t: Terrain, wp: Vec3i, n: nat) -> Seq<Vec3i>
    decreases n,
{
    if n == 0 {
        Seq::empty()
    } else {
        marching_vertices_spec(ch, t, wp, (n - 1) as nat) + cell_vertices_spec(
            ch,
            t,
            wp,
            dec_z(n - 1),
            dec_y(n - 1),
            dec_x(n - 1),
        )
    }
}

/// The isosurface mesher's stated buffers hold one material index per
/// vertex, in whole triangles.
pub proof fn lemma_marching_buffer_lens(c: Chunk, t: Terrain, wp: Vec3i, n: nat)
    ensures
        marching_mats_spec(c, t, wp, n).len() == marching_vertices_spec(c, t, wp, n).len(),
        marching_vertices_spec(c, t, wp, n).len() % 3 == 0,
    decreases n,
{
    reveal(cell_vertices_spec);
    reveal(cell_mats_spec);
    if n > 0 {
        lemma_marching_buffer_lens(c, t, wp, (n - 1) as nat);
    }
}


/// Triangulate one cell: sample its eight corners, look the configuration
/// up, and append one interpolated vertex (with material index and running
/// vertex index) per listed edge crossing.
#[verifier::loop_isolation(false)]
#[verifier::rlimit(100)]
#[verifier::spinoff_prover]
fn mesh_cell(
    chunk: &Chunk,
    wp: Vec3i,
    terrain: &Terrain,
    x: usize,
    y: usize,
    z: usize,
    positions: &mut Vec<Vec3i>,
    voxel_indices: &mut Vec<u32>,
    indices: &mut Vec<u32>,
)
    requires
        chunk.wf(),
        terrain.wf(),
        mesh_bounds(wp),
        mesh_cover(*terrain, wp),
        x < 16,
        y < 16,
        z < 16,
        old(positions)@.len() <= 245760,
        positions_in_range(old(positions)@),
        old(voxel_indices)@.len() == old(positions)@.len(),
        old(indices)@.len() == old(positions)@.len(),
        forall|k: int| 0 <= k < old(indices)@.len() ==> old(indices)@[k] == k as u32,
    ensures
        final(positions)@ == old(positions)@ + cell_vertices_spec(
            *chunk,
            *terrain,
            wp,
            x as int,
            y as int,
            z as int,
        ),
        final(voxel_indices)@ == old(voxel_indices)@ + cell_mats_spec(
            *chunk,
            *terrain,
            wp,
            x as int,
            y as int,
            z as int,
        ),
        final(positions)@.len() == old(positions)@.len() + cell_vert_count(
            *chunk,
            *terrain,
            wp,
            x as int,
            y as int,
            z as int,
        ),
        0 <= cell_vert_count(*chunk, *terrain, wp, x as int, y as int, z as int) <= 15,
        (cell_vert_count(*chunk, *terrain, wp, x as int, y as int, z as int) > 0)
            <==> cell_straddles(*chunk, *terrain, wp, x as int, y as int, z as int),
        positions_in_range(final(positions)@),
        final(voxel_indices)@.len() == final(positions)@.len(),
        final(indices)@.len() == final(positions)@.len(),
        forall|k: int| 0 <= k < final(indices)@.len() ==> final(indices)@[k] == k as u32,
{
    let position = Vec3i { x: x as i64, y: y as i64, z: z as i64 };
    let voxel_type = chunk.get_block(x, y, z);

    let d0 = chunk.get_t_block(wp, Vec3i { x: position.x, y: position.y, z: position.z }, terrain).density_hundredths();
    let d1 = chunk.get_t_block(wp, Vec3i { x: position.x + 1, y: position.y, z: position.z }, terrain).density_hundredths();
    let d2 = chunk.get_t_block(wp, Vec3i { x: position.x, y: position.y + 1, z: position.z }, terrain).density_hundredths();
    let d3 = chunk.get_t_block(wp, Vec3i { x: position.x + 1, y: position.y + 1, z: position.z }, terrain).density_hundredths();
    let d4 = chunk.get_t_block(wp, Vec3i { x: position.x, y: position.y, z: position.z + 1 }, terrain).density_hundredths();
    let d5 = chunk.get_t_block(wp, Vec3i { x: position.x + 1, y: position.y, z: position.z + 1 }, terrain).density_hundredths();
    let d6 = chunk.get_t_block(wp, Vec3i { x: position.x, y: position.y + 1, z: position.z + 1 }, terrain).density_hundredths();
    let d7 = chunk.get_t_block(wp, Vec3i { x: position.x + 1, y: position.y + 1, z: position.z + 1 }, terrain).density_hundredths();
    let ds: [u8; 8] = [d0, d1, d2, d3, d4, d5, d6, d7];

    let mask: u32 = (if d0 < 50 { 1u32 } else { 0u32 }) + (if d1 < 50 { 2 } else { 0 }) + (if d2
        < 50 { 4 } else { 0 }) + (if d3 < 50 { 8 } else { 0 }) + (if d4 < 50 { 16 } else { 0 }) + (
    if d5 < 50 { 32 } else { 0 }) + (if d6 < 50 { 64 } else { 0 }) + (if d7 < 50 { 128 } else { 0 });
    proof {
        reveal(cell_mask);
        assert(mask == cell_mask(*chunk, *terrain, wp, x as int, y as int, z as int));
    }

    proof {
        reveal(cell_density_seq);
        reveal(cell_vertices_spec);
        reveal(cell_mats_spec);
        assert(ds@ =~= cell_density_seq(*chunk, *terrain, wp, x as int, y as int, z as int)) by {
            assert(ds@[0] == d0 && ds@[1] == d1 && ds@[2] == d2 && ds@[3] == d3 && ds@[4] == d4
                && ds@[5] == d5 && ds@[6] == d6 && ds@[7] == d7);
        }
    }
    let rows = crate::table::cell_triangles(mask as u8);
    let code = voxel_type.index();
    emit_triangles(x, y, z, &rows, &ds, code, positions, voxel_indices, indices);
    proof {
        assert(voxel_indices@ =~= old(voxel_indices)@ + cell_mats_spec(
            *chunk,
            *terrain,
            wp,
            x as int,
            y as int,
            z as int,
        ));
    }
}

/// Build the isosurface mesh by marching cubes: for every unit cell, mask
/// the corners against the threshold, look up the triangulation, and
/// interpolate one vertex per listed edge crossing; flat normals are the
/// triangles' cross products.  A mesh comes back exactly when some cell
/// straddles the surface.
#[verifier::loop_isolation(false)]
#[verifier::rlimit(100)]
#[verifier::spinoff_prover]
pub fn build_marching_mesh(chunk: &Chunk, world_position: Vec3i, terrain: &Terrain) -> (r: Option<
    MeshBuffers>)
    requires
        chunk.wf(),
        terrain.wf(),
        mesh_bounds(world_position),
        mesh_cover(*terrain, world_position),
    ensures
        match r {
            Some(m) => {
                &&& straddle_before(*chunk, *terrain, world_position, 4096)
                &&& wf_mesh(m)
                &&& m.positions@ == marching_vertices_spec(*chunk, *terrain, world_position, 4096)
                &&& m.voxel_indices@ == marching_mats_spec(*chunk, *terrain, world_position, 4096)
                &&& positions_in_range(m.positions@)
                &&& m.positions@.len() > 0
                &&& m.positions@.len() % 3 == 0
                &&& m.indices@.len() == m.positions@.len()
                &&& forall|k: int| 0 <= k < m.indices@.len() ==> m.indices@[k] == k as u32
                &&& forall|k: int|
                    0 <= k < m.positions@.len() ==> m.normals@[k] == flat_normal_at(
                        m.positions@,
                        k,
                    )
                &&& m.uvs@.len() == 0
                &&& m.texture_indices@.len() == 0
            },
            None => !straddle_before(*chunk, *terrain, world_position, 4096),
        },
{
    let wp = world_position;
    let mut positions: Vec<Vec3i> = Vec::new();
    let mut normals: Vec<Vec3i> = Vec::new();
    let mut voxel_indices: Vec<u32> = Vec::new();
    let mut indices: Vec<u32> = Vec::new();

    let mut x: usize = 0;
    while x < 16
        invariant
            x <= 16,
            positions@ == marching_vertices_spec(*chunk, *terrain, wp, cenc(x as int, 0, 0) as nat),
            voxel_indices@ == marching_mats_spec(*chunk, *terrain, wp, cenc(x as int, 0, 0) as nat),
            positions@.len() % 3 == 0,
            positions@.len() <= 60 * cenc(x as int, 0, 0),
            (positions@.len() > 0) <==> straddle_before(*chunk, *terrain, wp, cenc(x as int, 0, 0) as nat),
            positions_in_range(positions@),
            voxel_indices@.len() == positions@.len(),
            indices@.len() == positions@.len(),
            forall|k: int| 0 <= k < indices@.len() ==> indices@[k] == k as u32,
        decreases 16 - x,
    {
        let mut y: usize = 0;
        while y < 16
            invariant
                x < 16,
                y <= 16,
                positions@ == marching_vertices_spec(*chunk, *terrain, wp, cenc(x as int, y as int, 0) as nat),
                voxel_indices@ == marching_mats_spec(*chunk, *terrain, wp, cenc(x as int, y as int, 0) as nat),
                positions@.len() % 3 == 0,
                positions@.len() <= 60 * cenc(x as int, y as int, 0),
                (positions@.len() > 0) <==> straddle_before(*chunk, *terrain, wp, cenc(x as int, y as int, 0) as nat),
                positions_in_range(positions@),
                voxel_indices@.len() == positions@.len(),
                indices@.len() == positions@.len(),
                forall|k: int| 0 <= k < indices@.len() ==> indices@[k] == k as u32,
            decreases 16 - y,
        {
            let mut z: usize = 0;
            while z < 16
                invariant
                    x < 16,
                    y < 16,
                    z <= 16,
                    positions@ == marching_vertices_spec(*chunk, *terrain, wp, cenc(x as int, y as int, z as int) as nat),
                    voxel_indices@ == marching_mats_spec(*chunk, *terrain, wp, cenc(x as int, y as int, z as int) as nat),
                    positions@.len() % 3 == 0,
                    positions@.len() <= 60 * cenc(x as int, y as int, z as int),
                    (positions@.len() > 0) <==> straddle_before(*chunk, *terrain, wp, cenc(x as int, y as int, z as int) as nat),
                    positions_in_range(positions@),
                    voxel_indices@.len() == positions@.len(),
                    indices@.len() == positions@.len(),
                    forall|k: int| 0 <= k < indices@.len() ==> indices@[k] == k as u32,
                decreases 16 - z,
            {
                mesh_cell(chunk, wp, terrain, x, y, z, &mut positions, &mut voxel_indices, &mut indices);

                z = z + 1;
                proof {
                    lemma_lin_dec(z as int - 1, y as int, x as int);
                    assert(cenc(x as int, y as int, z as int) == cenc(x as int, y as int, z as int - 1) + 1);
                }
            }
            y = y + 1;
            proof {
                assert(cenc(x as int, y as int, 0) == cenc(x as int, y as int - 1, 16));
            }
        }
        x = x + 1;
        proof {
            assert(cenc(x as int, 0, 0) == cenc(x as int - 1, 16, 0));
        }
    }

    if positions.len() == 0 {
        return None;
    }

    let mut t: usize = 0;
    let ntri = positions.len() / 3;
    while t < ntri
        invariant
            ntri == positions@.len() / 3,
            positions@.len() % 3 == 0,
            positions_in_range(positions@),
            t <= ntri,
            normals@.len() == 3 * t,
            forall|k: int| 0 <= k < 3 * t ==> normals@[k] == flat_normal_at(positions@, k),
        decreases ntri - t,
    {
        let a = positions[3 * t];
        let b = positions[3 * t + 1];
        let c = positions[3 * t + 2];
        let ux = b.x - a.x;
        let uy = b.y - a.y;
        let uz = b.z - a.z;
        let vx = c.x - a.x;
        let vy = c.y - a.y;
        let vz = c.z - a.z;
        proof {
            assert((-289000000 <= uy * vz <= 289000000) && (-289000000 <= uz * vy <= 289000000)
                && (-289000000 <= uz * vx <= 289000000) && (-289000000 <= ux * vz <= 289000000)
                && (-289000000 <= ux * vy <= 289000000) && (-289000000 <= uy * vx
                <= 289000000)) by (nonlinear_arith)
                requires
                    -17000 <= ux <= 17000,
                    -17000 <= uy <= 17000,
                    -17000 <= uz <= 17000,
                    -17000 <= vx <= 17000,
                    -17000 <= vy <= 17000,
                    -17000 <= vz <= 17000,
            ;
        }
        let n = Vec3i { x: uy * vz - uz * vy, y: uz * vx - ux * vz, z: ux * vy - uy * vx };
        normals.push(n);
        normals.push(n);
        normals.push(n);
        proof {
            assert((3 * t as int) / 3 == t as int);
            assert((3 * t as int + 1) / 3 == t as int);
            assert((3 * t as int + 2) / 3 == t as int);
        }
        t = t + 1;
    }

    Some(MeshBuffers {
        positions,
        normals,
        uvs: Vec::new(),
        voxel_indices,
        texture_indices: Vec::new(),
        indices,
    })
}

impl ChunkMesher for MarchingChunkMesher {
    /// The isosurface mesher emits when some cell straddles the surface.
    open spec fn emits(chunk: Chunk, world_position: Vec3i, terrain: Terrain) -> bool {
        straddle_before(chunk, terrain, world_position, 4096)
    }

    open spec fn positions_of(chunk: Chunk, world_position: Vec3i, terrain: Terrain) -> Seq<
        Vec3i,
    > {
        marching_vertices_spec(chunk, terrain, world_position, 4096)
    }

    /// One flat cross-product normal per triangle, shared by its vertices.
    open spec fn normals_of(chunk: Chunk, world_position: Vec3i, terrain: Terrain) -> Seq<Vec3i> {
        let ps = marching_vertices_spec(chunk, terrain, world_position, 4096);
        Seq::new(ps.len(), |k: int| flat_normal_at(ps, k))
    }

    /// The isosurface mesher emits no texture coordinates.
    open spec fn uvs_of(chunk: Chunk, world_position: Vec3i, terrain: Terrain) -> Seq<(i64, i64)> {
        Seq::empty()
    }

    open spec fn mats_of(chunk: Chunk, world_position: Vec3i, terrain: Terrain) -> Seq<u32> {
        marching_mats_spec(chunk, terrain, world_position, 4096)
    }

    /// The isosurface mesher emits no texture-atlas tiles.
    open spec fn texs_of(chunk: Chunk, world_position: Vec3i, terrain: Terrain) -> Seq<u32> {
        Seq::empty()
    }

    /// Vertices are emitted per triangle, so the index list is the
    /// identity.
    open spec fn indices_of(chunk: Chunk, world_position: Vec3i, terrain: Terrain) -> Seq<u32> {
        Seq::new(
            marching_vertices_spec(chunk, terrain, world_position, 4096).len(),
            |i: int| i as u32,
        )
    }

    fn build(chunk: &Chunk, world_position: Vec3i, terrain: &Terrain) -> (r: Option<MeshBuffers>) {
        let r = build_marching_mesh(chunk, world_position, terrain);
        proof {
            match &r {
                Some(m) => {
                    assert(m.indices@ =~= Seq::new(m.positions@.len(), |i: int| i as u32));
                    assert(m.normals@ =~= Seq::new(
                        m.positions@.len(),
                        |k: int| flat_normal_at(m.positions@, k),
                    ));
                },
                None => {},
            }
        }
        r
    }
}

impl Chunk {
    /// Build this chunk's isosurface mesh: the marching-cubes surface of
    /// its density field, or `None` when no cell of it straddles the
    /// surface.
    pub fn create_mesh(&self, world_position: Vec3i, terrain: &Terrain) -> (r: Option<MeshBuffers>)
        requires
            self.wf(),
            terrain.wf(),
            mesh_bounds(world_position),
            mesh_cover(*terrain, world_position),
        ensures
            match r {
                Some(m) => {
                    &&& straddle_before(*self, *terrain, world_position, 4096)
                    &&& wf_mesh(m)
                    &&& m.positions@ == marching_vertices_spec(
                        *self,
                        *terrain,
                        world_position,
                        4096,
                    )
                    &&& m.voxel_indices@ == marching_mats_spec(*self, *terrain, world_position, 4096)
                    &&& positions_in_range(m.positions@)
                    &&& m.positions@.len() > 0
                    &&& m.positions@.len() % 3 == 0
                    &&& m.indices@.len() == m.positions@.len()
                    &&& forall|k: int| 0 <= k < m.indices@.len() ==> m.indices@[k] == k as u32
                    &&& forall|k: int|
                        0 <= k < m.positions@.len() ==> m.normals@[k] == flat_normal_at(
                            m.positions@,
                            k,
                        )
                    &&& m.uvs@.len() == 0
                    &&& m.texture_indices@.len() == 0
                },
                None => !straddle_before(*self, *terrain, world_position, 4096),
            },
    {
        build_marching_mesh(self, world_position, terrain)
    }
}

/// In a region whose every sample — the chunk's own voxels and the ring
/// the cells reach one beyond them — is air, no cell straddles the
/// surface, so the isosurface mesher has nothing to emit.
pub proof fn lemma_air_region_no_surface(c: Chunk, t: Terrain, wp: Vec3i, n: nat)
    requires
        c.wf(),
        forall|p: Vec3i|
            0 <= p.x <= 16 && 0 <= p.y <= 16 && 0 <= p.z <= 16 ==> #[trigger] sample_spec(
                c,
                t,
                wp,
                p,
            ) == VoxelType::Air,
        n <= 4096,
    ensures
        !straddle_before(c, t, wp, n),
    decreases n,
{
    if n > 0 {
        lemma_air_region_no_surface(c, t, wp, (n - 1) as nat);
        let m = n - 1;
        lemma_dec_lin(m as int);
        let cx = dec_z(m as int);
        let cy = dec_y(m as int);
        let cz = dec_x(m as int);
        assert forall|cc: int| 0 <= cc < 8 implies corner_below(c, t, wp, cx, cy, cz, cc) by {
            assert(sample_spec(c, t, wp, cell_corner(cx, cy, cz, cc)) == VoxelType::Air);
        }
        assert(cell_mask(c, t, wp, cx, cy, cz) == 255) by {
            reveal(cell_mask);
        }
    }
}

/// The neighbour chunk that adjoins chunk `id` across horizontal face
/// `f`.  (The world index is a column map, so the vertical faces have no
/// neighbour chunk: samples beyond them resolve through the terrain by
/// definition of `sample_spec`.)
pub open spec fn seam_neighbor(id: ChunkId, f: int) -> ChunkId {
    if f == 0 {
        ChunkId { x: id.x, z: (id.z + 1) as i64 }
    } else if f == 1 {
        ChunkId { x: id.x, z: (id.z - 1) as i64 }
    } else if f == 2 {
        ChunkId { x: (id.x + 1) as i64, z: id.z }
    } else {
        ChunkId { x: (id.x - 1) as i64, z: id.z }
    }
}

/// The boundary voxel of the near chunk on horizontal face `f`, with free
/// coordinates `y` and `u` (the coordinate that runs along the seam).
pub open spec fn seam_near(f: int, y: int, u: int) -> Vec3i {
    if f == 0 {
        Vec3i { x: u as i64, y: y as i64, z: 15 }
    } else if f == 1 {
        Vec3i { x: u as i64, y: y as i64, z: 0 }
    } else if f == 2 {
        Vec3i { x: 15, y: y as i64, z: u as i64 }
    } else {
        Vec3i { x: 0, y: y as i64, z: u as i64 }
    }
}

/// The adjoining voxel of the neighbour chunk across face `f`.
pub open spec fn seam_far(f: int, y: int, u: int) -> Vec3i {
    if f == 0 {
        Vec3i { x: u as i64, y: y as i64, z: 0 }
    } else if f == 1 {
        Vec3i { x: u as i64, y: y as i64, z: 15 }
    } else if f == 2 {
        Vec3i { x: 0, y: y as i64, z: u as i64 }
    } else {
        Vec3i { x: 15, y: y as i64, z: u as i64 }
    }
}

/// Seam correctness, for every horizontal face: when the chunk adjoining
/// `a` across face `f` was generated from the same terrain field, a face
/// on `a`'s boundary toward it is emitted exactly when the adjoining voxel
/// of that neighbour chunk is air — and suppressed exactly when it is not.
/// (When no neighbour chunk is resident, the sample falls back to the
/// terrain's classification of the same world point by definition of
/// `face_visible`, so the two resolutions agree.)
pub proof fn lemma_seam_correctness(
    a: Chunk,
    b: Chunk,
    t: Terrain,
    ida: ChunkId,
    idb: ChunkId,
    f: int,
    y: int,
    u: int,
)
    requires
        a.wf(),
        b.wf(),
        b@ == generated_seq(t, origin_of(idb)),
        0 <= f < 4,
        idb == seam_neighbor(ida, f),
        wf_chunk_id(ida),
        wf_chunk_id(idb),
        0 <= y < 16,
        0 <= u < 16,
        ({
            let p = seam_near(f, y, u);
            a.voxel_at(p.x as int, p.y as int, p.z as int) != VoxelType::Air
        }),
    ensures
        ({
            let p = seam_near(f, y, u);
            let q = seam_far(f, y, u);
            face_visible(a, t, origin_of(ida), p.x as int, p.y as int, p.z as int, f)
                <==> b.voxel_at(q.x as int, q.y as int, q.z as int) == VoxelType::Air
        }),
{
    let p = seam_near(f, y, u);
    let q = seam_far(f, y, u);
    lemma_generated_voxel(t, origin_of(idb), b, q.x as int, q.y as int, q.z as int);
    let n = face_normal_spec(f);
    let s = Vec3i { x: (p.x + n.x) as i64, y: (p.y + n.y) as i64, z: (p.z + n.z) as i64 };
    assert(!in_chunk_bounds(s));
    if f == 0 {
        assert(origin_of(ida).z + 16 == origin_of(idb).z);
    } else if f == 1 {
        assert(origin_of(ida).z - 16 == origin_of(idb).z);
    } else if f == 2 {
        assert(origin_of(ida).x + 16 == origin_of(idb).x);
    } else {
        assert(origin_of(ida).x - 16 == origin_of(idb).x);
    }
    assert(world_point(origin_of(ida), s) == world_point(origin_of(idb), q));
}

} // verus!
