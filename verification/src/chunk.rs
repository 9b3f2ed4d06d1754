//! Dense voxel storage for one chunk.
//!
//! A chunk owns a flat array of `CHUNK_SZ` packed voxel words over the
//! region `[0, CHUNK_XZ) x [0, CHUNK_Y) x [0, CHUNK_XZ)`, linearised as
//! `idx = z * 256 + y * 16 + x`.  Reads outside the chunk either yield air
//! (`get_block`) or fall back to the terrain field (`get_t_block`), so a
//! mesher can sample one voxel beyond the chunk boundary and cull faces
//! correctly at chunk seams.

use vstd::prelude::*;

use crate::coords::CHUNK_SZ;
use crate::coords::Vec3i;
use crate::coords::WORLD_BOUND;
use crate::coords::in_world;
use crate::terrain::Terrain;
use crate::voxel::VoxelType;
use crate::voxel::pack_spec;
use crate::voxel::unpack_spec;
use crate::voxel::valid_packed;
use crate::voxel::voxel_to_internal;
use crate::voxel::internal_to_voxel;
use crate::voxel::wf_voxel;

verus! {

/// Packed word of a voxel, as stored.
pub open spec fn pack16(v: VoxelType) -> u16 {
    pack_spec(v) as u16
}

/// Linear index of local coordinates `(x, y, z)`.
pub open spec fn lin(x: int, y: int, z: int) -> int {
    z * 256 + y * 16 + x
}

/// Local `x` of linear index `i`.
pub open spec fn dec_x(i: int) -> int {
    (i % 256) % 16
}

/// Local `y` of linear index `i`.
pub open spec fn dec_y(i: int) -> int {
    (i % 256) / 16
}

/// Local `z` of linear index `i`.
pub open spec fn dec_z(i: int) -> int {
    i / 256
}

/// `lin` sends in-range local coordinates to `0..4096` and the decoders
/// invert it there.
pub proof fn lemma_lin_dec(x: int, y: int, z: int)
    requires
        0 <= x < 16,
        0 <= y < 16,
        0 <= z < 16,
    ensures
        0 <= lin(x, y, z) < 4096,
        dec_x(lin(x, y, z)) == x,
        dec_y(lin(x, y, z)) == y,
        dec_z(lin(x, y, z)) == z,
{
    let i = lin(x, y, z);
    assert(i == 256 * z + (16 * y + x));
    assert(0 <= 16 * y + x < 256);
    assert(i / 256 == z && i % 256 == 16 * y + x) by (nonlinear_arith)
        requires
            i == 256 * z + (16 * y + x),
            0 <= 16 * y + x < 256,
            0 <= z < 16,
    ;
}

/// Every linear index decodes to in-range local coordinates that `lin`
/// sends back to it.
pub proof fn lemma_dec_lin(i: int)
    requires
        0 <= i < 4096,
    ensures
        0 <= dec_x(i) < 16,
        0 <= dec_y(i) < 16,
        0 <= dec_z(i) < 16,
        lin(dec_x(i), dec_y(i), dec_z(i)) == i,
{
    assert(i == 256 * (i / 256) + i % 256);
    assert(i % 256 == 16 * ((i % 256) / 16) + (i % 256) % 16);
}

/// Whether a local offset lies inside the chunk's own bounds.
pub open spec fn in_chunk_bounds(p: Vec3i) -> bool {
    0 <= p.x < 16 && 0 <= p.y < 16 && 0 <= p.z < 16
}

/// The world point at local offset `p` from origin `wp` (coordinates small
/// enough that the sums stay in range).
pub open spec fn world_point(wp: Vec3i, p: Vec3i) -> Vec3i {
    Vec3i { x: (wp.x + p.x) as i64, y: (wp.y + p.y) as i64, z: (wp.z + p.z) as i64 }
}

/// Represents a single chunk of the world: a dense array of packed voxels.
pub struct Chunk {
    blocks: Vec<u16>,
}

impl Default for Chunk {
    /// A chunk of the correct internal voxel size, all air.
    fn default() -> (c: Chunk)
        ensures
            c.wf(),
            forall|i: int| 0 <= i < 4096 ==> c@[i] == 0u16,
    {
        Chunk::new()
    }
}

impl View for Chunk {
    type V = Seq<u16>;

    closed spec fn view(&self) -> Seq<u16> {
        self.blocks@
    }
}

/// What a mesher reads at local offset `p` of a chunk at `wp`: the chunk's
/// own voxel inside its bounds, the terrain's classification beyond them.
pub open spec fn sample_spec(c: Chunk, t: Terrain, wp: Vec3i, p: Vec3i) -> VoxelType {
    if in_chunk_bounds(p) {
        c.voxel_at(p.x as int, p.y as int, p.z as int)
    } else {
        t.voxel_of(world_point(wp, p))
    }
}

impl Chunk {
    /// The full array is present and every stored word is a valid packing.
    pub open spec fn wf(self) -> bool {
        self@.len() == 4096 && forall|i: int| 0 <= i < 4096 ==> valid_packed(#[trigger] self@[i] as int)
    }

    /// The voxel stored at in-range local coordinates.
    pub open spec fn voxel_at(self, x: int, y: int, z: int) -> VoxelType {
        unpack_spec(self@[lin(x, y, z)] as int)
    }

    /// Create a new chunk with the correct internal voxel size, all air.
    pub fn new() -> (c: Chunk)
        ensures
            c.wf(),
            c@.len() == 4096,
            forall|i: int| 0 <= i < 4096 ==> c@[i] == 0u16,
    {
        let mut blocks: Vec<u16> = Vec::new();
        let mut i: usize = 0;
        while i < CHUNK_SZ
            invariant
                i <= 4096,
                blocks@.len() == i,
                forall|j: int| 0 <= j < i ==> blocks@[j] == 0u16,
            decreases 4096 - i,
        {
            blocks.push(0u16);
            i = i + 1;
        }
        Chunk { blocks }
    }

    /// Set the block type at the provided position.
    pub fn set_block(&mut self, x: usize, y: usize, z: usize, voxel_type: VoxelType)
        requires
            old(self).wf(),
            x < 16,
            y < 16,
            z < 16,
            wf_voxel(voxel_type),
        ensures
            final(self).wf(),
            final(self)@ == old(self)@.update(lin(x as int, y as int, z as int), pack16(voxel_type)),
    {
        proof {
            lemma_lin_dec(x as int, y as int, z as int);
        }
        let idx: usize = z * 256 + y * 16 + x;
        let w = voxel_to_internal(voxel_type);
        self.blocks.set(idx, w);
    }

    /// Get the block type at the provided position; positions outside the
    /// chunk yield air.
    pub fn get_block(&self, x: usize, y: usize, z: usize) -> (r: VoxelType)
        requires
            self.wf(),
        ensures
            r == if x < 16 && y < 16 && z < 16 {
                self.voxel_at(x as int, y as int, z as int)
            } else {
                VoxelType::Air
            },
            wf_voxel(r),
    {
        if x >= 16 || y >= 16 || z >= 16 {
            return VoxelType::Air;
        }
        proof {
            lemma_lin_dec(x as int, y as int, z as int);
        }
        let idx: usize = z * 256 + y * 16 + x;
        internal_to_voxel(self.blocks[idx])
    }

    /// Get the block type at local offset `position` of a chunk whose
    /// origin is `world_position`, resolving positions beyond the chunk's
    /// bounds through the terrain field rather than returning air.
    pub fn get_t_block(&self, world_position: Vec3i, position: Vec3i, terrain: &Terrain) -> (r:
        VoxelType)
        requires
            self.wf(),
            terrain.wf(),
            -32 <= position.x <= 32,
            -32 <= position.y <= 32,
            -32 <= position.z <= 32,
            in_world(world_point(world_position, position)),
            -WORLD_BOUND <= world_position.x + position.x <= WORLD_BOUND,
            -WORLD_BOUND <= world_position.y + position.y <= WORLD_BOUND,
            -WORLD_BOUND <= world_position.z + position.z <= WORLD_BOUND,
            !in_chunk_bounds(position) ==> terrain.covers(
                world_position.x + position.x,
                world_position.z + position.z,
            ),
        ensures
            r == sample_spec(*self, *terrain, world_position, position),
            wf_voxel(r),
    {
        if position.x < 0 || position.y < 0 || position.z < 0 || position.x >= 16 || position.y
            >= 16 || position.z >= 16 {
            let p = Vec3i {
                x: world_position.x + position.x,
                y: world_position.y + position.y,
                z: world_position.z + position.z,
            };
            return terrain.get_block_type(p);
        }
        self.get_block(position.x as usize, position.y as usize, position.z as usize)
    }

    /// Returns whether the block at local offset `position` is transparent
    /// (air); used for face culling.
    pub fn is_transparent(&self, world_position: Vec3i, position: Vec3i, terrain: &Terrain) -> (r:
        bool)
        requires
            self.wf(),
            terrain.wf(),
            -32 <= position.x <= 32,
            -32 <= position.y <= 32,
            -32 <= position.z <= 32,
            -WORLD_BOUND <= world_position.x + position.x <= WORLD_BOUND,
            -WORLD_BOUND <= world_position.y + position.y <= WORLD_BOUND,
            -WORLD_BOUND <= world_position.z + position.z <= WORLD_BOUND,
            !in_chunk_bounds(position) ==> terrain.covers(
                world_position.x + position.x,
                world_position.z + position.z,
            ),
        ensures
            r == (sample_spec(*self, *terrain, world_position, position) == VoxelType::Air),
    {
        let b = self.get_t_block(world_position, position, terrain);
        match b {
            VoxelType::Air => true,
            _ => false,
        }
    }

    /// An independent copy of this chunk's voxel data, as handed to a
    /// remesh task so it never reads the live chunk.
    pub fn snapshot(&self) -> (r: Chunk)
        ensures
            r@ == self@,
    {
        let blocks = self.blocks.clone();
        proof {
            assert(blocks@ =~= self.blocks@);
        }
        Chunk { blocks }
    }
}

} // verus!
