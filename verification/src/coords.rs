//! World-space lattice coordinates and chunk identifiers.
//!
//! World positions are integer voxel-lattice points.  A [`ChunkId`] is a pair
//! of chunk-space coordinates `(x, z)`; the chunk it names owns the world
//! column whose origin is `(x * CHUNK_XZ, 0, z * CHUNK_XZ)`.

use vstd::prelude::*;

verus! {

/// Horizontal edge length of a chunk, in voxels.
pub const CHUNK_XZ: usize = 16;

/// Vertical extent of a chunk, in voxels.
pub const CHUNK_Y: usize = 16;

/// Number of voxels a chunk owns.
pub const CHUNK_SZ: usize = 4096;

/// World coordinates a position may reach before chunk arithmetic could
/// leave `i64`; vastly larger than any world this pipeline streams.
pub const WORLD_BOUND: i64 = 0x100_0000_0000;

/// An integer point of the world lattice (or a lattice offset).
#[derive(Clone, Copy, Debug, PartialEq, Eq, Structural)]
pub struct Vec3i {
    pub x: i64,
    pub y: i64,
    pub z: i64,
}

/// All three coordinates lie within `WORLD_BOUND` of the origin.
pub open spec fn in_world(p: Vec3i) -> bool {
    -WORLD_BOUND <= p.x <= WORLD_BOUND && -WORLD_BOUND <= p.y <= WORLD_BOUND && -WORLD_BOUND
        <= p.z <= WORLD_BOUND
}

impl Vec3i {
    /// Build a point from its three coordinates.
    pub fn new(x: i64, y: i64, z: i64) -> (r: Vec3i)
        ensures
            r == (Vec3i { x, y, z }),
    {
        Vec3i { x, y, z }
    }

}

/// Floor of `a / CHUNK_XZ`: the chunk-space coordinate owning lattice
/// coordinate `a`.
pub open spec fn chunk_coord(a: int) -> int {
    (a - (a % 16 + 16) % 16) / 16
}

/// Floor division of a lattice coordinate by the chunk edge length.
pub fn floor_div_chunk(a: i64) -> (q: i64)
    ensures
        16 * q <= a < 16 * q + 16,
        q == chunk_coord(a as int),
{
    let q: i64 = if a >= 0 {
        (a as u64 / 16) as i64
    } else {
        -(((-(a + 1)) as u64 / 16) as i64) - 1
    };
    proof {
        assert(16 * q <= a < 16 * q + 16);
        lemma_chunk_coord_unique(a as int, q as int);
    }
    q
}

/// `chunk_coord` is the unique `q` with `16q <= a < 16q + 16`.
pub proof fn lemma_chunk_coord_unique(a: int, q: int)
    requires
        16 * q <= a < 16 * q + 16,
    ensures
        q == chunk_coord(a),
{
    let r = a - 16 * q;
    assert(a % 16 == r) by {
        assert(a == 16 * q + r);
        assert(0 <= r < 16);
    };
}

/// Identifies a chunk by its chunk-space horizontal coordinates; the chunk
/// spans world `x` in `[16x, 16x + 16)` and likewise in `z`, with `y` from 0.
#[derive(Clone, Copy, Debug, PartialEq, Eq, Structural, Hash)]
pub struct ChunkId {
    pub x: i64,
    pub z: i64,
}

/// World-space origin of the chunk `id` names.
pub open spec fn origin_of(id: ChunkId) -> Vec3i {
    Vec3i { x: (16 * id.x) as i64, y: 0, z: (16 * id.z) as i64 }
}

/// Chunk-space coordinates within `WORLD_BOUND / CHUNK_XZ`.
pub open spec fn wf_chunk_id(id: ChunkId) -> bool {
    -0x10_0000_0000 <= id.x <= 0x10_0000_0000 && -0x10_0000_0000 <= id.z <= 0x10_0000_0000
}

impl ChunkId {
    /// Build an id from chunk-space coordinates.
    pub fn new(x: i64, z: i64) -> (r: ChunkId)
        ensures
            r == (ChunkId { x, z }),
    {
        ChunkId { x, z }
    }

    /// World-space origin of this chunk.
    pub fn world_position(&self) -> (r: Vec3i)
        requires
            wf_chunk_id(*self),
        ensures
            r == origin_of(*self),
            in_world(r),
    {
        Vec3i { x: 16 * self.x, y: 0, z: 16 * self.z }
    }

    /// Local coordinates of a world point relative to this chunk's origin.
    pub fn world_position_to_local(&self, position: Vec3i) -> (r: Vec3i)
        requires
            wf_chunk_id(*self),
            in_world(position),
        ensures
            r.x == position.x - origin_of(*self).x,
            r.y == position.y,
            r.z == position.z - origin_of(*self).z,
    {
        Vec3i { x: position.x - 16 * self.x, y: position.y, z: position.z - 16 * self.z }
    }
}

/// The id of the chunk whose column contains the world point `p`.
pub open spec fn id_for_position(p: Vec3i) -> ChunkId {
    ChunkId { x: chunk_coord(p.x as int) as i64, z: chunk_coord(p.z as int) as i64 }
}

/// Given world coordinates, determine the chunk id whose column contains
/// them: floor division of `x` and `z` by the chunk edge length.
pub fn get_id_for_position(position: Vec3i) -> (r: ChunkId)
    requires
        in_world(position),
    ensures
        r == id_for_position(position),
        wf_chunk_id(r),
        origin_of(r).x <= position.x < origin_of(r).x + 16,
        origin_of(r).z <= position.z < origin_of(r).z + 16,
{
    ChunkId { x: floor_div_chunk(position.x), z: floor_div_chunk(position.z) }
}

} // verus!
