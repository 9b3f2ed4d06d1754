//! The world index: the authoritative registry of chunk state.
//!
//! A chunk coordinate is absent until the scheduler requests it, `Pending`
//! while a generation task is out, and `Resident` once its voxel data is
//! installed.  A resident chunk carries two flags: `dirty` (its geometry is
//! stale relative to its voxels) and `meshing` (a remesh task holding a
//! snapshot of it is in flight), so at most one remesh is ever outstanding
//! per chunk.

use vstd::prelude::*;

use std::collections::HashMap;

use crate::chunk::Chunk;
use crate::chunk::lin;
use crate::chunk::pack16;
use crate::coords::ChunkId;
use crate::coords::Vec3i;
use crate::coords::get_id_for_position;
use crate::coords::id_for_position;
use crate::coords::in_world;
use crate::coords::origin_of;
use crate::voxel::VoxelType;
use crate::voxel::wf_voxel;

verus! {

broadcast use vstd::std_specs::hash::group_hash_axioms;

/// The lifecycle state of one requested chunk.
pub enum ChunkState {
    /// A generation task for this coordinate is outstanding.
    Pending,
    /// The chunk's voxel data is installed.  `dirty` marks geometry stale
    /// relative to the voxels; `meshing` marks an in-flight remesh task.
    Resident { chunk: Chunk, dirty: bool, meshing: bool },
}

/// The map key of a chunk id: its two coordinates packed into one integer.
pub open spec fn key_of(id: ChunkId) -> int {
    (id.x as u64 as u128) * 0x1_0000_0000_0000_0000 + (id.z as u64 as u128)
}

/// Distinct chunk ids have distinct keys.
pub proof fn lemma_key_injective(a: ChunkId, b: ChunkId)
    requires
        key_of(a) == key_of(b),
    ensures
        a == b,
{
    let ax = a.x as u64 as u128;
    let az = a.z as u64 as u128;
    let bx = b.x as u64 as u128;
    let bz = b.z as u64 as u128;
    assert(ax == bx && az == bz) by (nonlinear_arith)
        requires
            ax * 0x1_0000_0000_0000_0000 + az == bx * 0x1_0000_0000_0000_0000 + bz,
            az < 0x1_0000_0000_0000_0000,
            bz < 0x1_0000_0000_0000_0000,
    ;
    let p = a.x;
    let q = b.x;
    let m = a.z;
    let n = b.z;
    assert(p == q) by (bit_vector)
        requires
            p as u64 == q as u64,
    ;
    assert(m == n) by (bit_vector)
        requires
            m as u64 == n as u64,
    ;
}

/// Represents the streamed world: a sparse map from chunk coordinate to
/// chunk state.
pub struct World {
    /// The registry, keyed by the packed chunk coordinate.
    pub chunks: HashMap<u128, ChunkState>,
}

impl Default for World {
    /// An empty world: every chunk absent.
    fn default() -> (w: World)
        ensures
            forall|id: ChunkId| w.spec_get(id) is None,
    {
        World::new()
    }
}

impl World {
    /// The state registered for `id`: `None` while the chunk is absent.
    pub open spec fn spec_get(self, id: ChunkId) -> Option<ChunkState> {
        if self.chunks@.contains_key((key_of(id) as u128)) {
            Some(self.chunks@[key_of(id) as u128])
        } else {
            None
        }
    }

    /// An empty world: every chunk absent.
    pub fn new() -> (w: World)
        ensures
            forall|id: ChunkId| w.spec_get(id) is None,
    {
        World { chunks: HashMap::new() }
    }

    /// How many chunks are registered (pending or resident).
    pub fn len(&self) -> (n: usize)
        ensures
            n == self.chunks@.len(),
    {
        self.chunks.len()
    }

    /// The exec map key of a chunk id.
    fn key(id: ChunkId) -> (k: u128)
        ensures
            k == key_of(id),
    {
        proof {
            assert((id.x as u64 as u128) * 0x1_0000_0000_0000_0000 <= 0xFFFF_FFFF_FFFF_FFFF
                * 0x1_0000_0000_0000_0000) by (nonlinear_arith)
                requires
                    (id.x as u64 as u128) <= 0xFFFF_FFFF_FFFF_FFFF,
            ;
        }
        (id.x as u64 as u128) * 0x1_0000_0000_0000_0000 + (id.z as u64 as u128)
    }

    /// Whether `id` is registered at all.
    pub fn contains(&self, id: ChunkId) -> (r: bool)
        ensures
            r == (self.spec_get(id) is Some),
    {
        self.chunks.contains_key(&Self::key(id))
    }

    /// Register `id` as `Pending`: a generation task is about to be
    /// spawned for it.
    pub fn insert_pending(&mut self, id: ChunkId)
        ensures
            final(self).spec_get(id) == Some(ChunkState::Pending),
            forall|o: ChunkId| o != id ==> final(self).spec_get(o) == old(self).spec_get(o),
    {
        self.chunks.insert(Self::key(id), ChunkState::Pending);
        proof {
            assert forall|o: ChunkId| o != id implies final(self).spec_get(o) == old(
                self,
            ).spec_get(o) by {
                if key_of(o) == key_of(id) {
                    lemma_key_injective(o, id);
                }
            }
        }
    }

    /// Replace the whole state of `id`.
    pub fn put_state(&mut self, id: ChunkId, st: ChunkState)
        ensures
            final(self).spec_get(id) == Some(st),
            forall|o: ChunkId| o != id ==> final(self).spec_get(o) == old(self).spec_get(o),
    {
        self.chunks.insert(Self::key(id), st);
        proof {
            assert forall|o: ChunkId| o != id implies final(self).spec_get(o) == old(
                self,
            ).spec_get(o) by {
                if key_of(o) == key_of(id) {
                    lemma_key_injective(o, id);
                }
            }
        }
    }

    /// Take the whole state of `id` out of the registry.
    pub fn take_state(&mut self, id: ChunkId) -> (r: Option<ChunkState>)
        ensures
            r == old(self).spec_get(id),
            final(self).spec_get(id) is None,
            forall|o: ChunkId| o != id ==> final(self).spec_get(o) == old(self).spec_get(o),
    {
        let r = self.chunks.remove(&Self::key(id));
        proof {
            assert forall|o: ChunkId| o != id implies final(self).spec_get(o) == old(
                self,
            ).spec_get(o) by {
                if key_of(o) == key_of(id) {
                    lemma_key_injective(o, id);
                }
            }
        }
        r
    }

    /// The registered state of `id`, if any.
    pub fn get_state(&self, id: ChunkId) -> (r: Option<&ChunkState>)
        ensures
            match r {
                Some(st) => self.spec_get(id) == Some(*st),
                None => self.spec_get(id) is None,
            },
    {
        self.chunks.get(&Self::key(id))
    }

    /// The resident chunk registered for `id`, if any.
    pub fn get_chunk(&self, id: ChunkId) -> (r: Option<&Chunk>)
        ensures
            match self.spec_get(id) {
                Some(ChunkState::Resident { chunk, dirty, meshing }) => r == Some(&chunk),
                _ => r is None,
            },
    {
        match self.chunks.get(&Self::key(id)) {
            Some(ChunkState::Resident { chunk, dirty: _, meshing: _ }) => Some(chunk),
            _ => None,
        }
    }

    /// The voxel a world position reads: `None` while its chunk has no
    /// installed data, the stored voxel otherwise (air above or below the
    /// chunk's vertical extent).
    pub fn get_block(&self, position: Vec3i) -> (r: Option<VoxelType>)
        requires
            in_world(position),
            forall|id: ChunkId|
                match #[trigger] self.spec_get(id) {
                    Some(ChunkState::Resident { chunk, dirty, meshing }) => chunk.wf(),
                    _ => true,
                },
        ensures
            match self.spec_get(id_for_position(position)) {
                Some(ChunkState::Resident { chunk, dirty, meshing }) => {
                    r == Some(
                        if 0 <= position.y < 16 {
                            chunk.voxel_at(
                                position.x - origin_of(id_for_position(position)).x,
                                position.y as int,
                                position.z - origin_of(id_for_position(position)).z,
                            )
                        } else {
                            VoxelType::Air
                        },
                    )
                },
                _ => r is None,
            },
    {
        let id = get_id_for_position(position);
        let local = id.world_position_to_local(position);
        match self.get_chunk(id) {
            Some(chunk) => {
                if position.y < 0 || position.y >= 16 {
                    Some(VoxelType::Air)
                } else {
                    Some(
                        chunk.get_block(local.x as usize, local.y as usize, local.z as usize),
                    )
                }
            },
            None => None,
        }
    }

    /// Write `voxel_type` at a world position: updates the owning resident
    /// chunk in place and marks it dirty (its mesh is now stale), keeping
    /// any in-flight remesh marker.  Returns whether anything changed: a
    /// position whose chunk has no installed data, or outside the chunk's
    /// vertical extent, is left alone.
    pub fn set_block(&mut self, position: Vec3i, voxel_type: VoxelType) -> (r: bool)
        requires
            in_world(position),
            wf_voxel(voxel_type),
            forall|id: ChunkId|
                match #[trigger] old(self).spec_get(id) {
                    Some(ChunkState::Resident { chunk, dirty, meshing }) => chunk.wf(),
                    _ => true,
                },
        ensures
            forall|id: ChunkId|
                match #[trigger] final(self).spec_get(id) {
                    Some(ChunkState::Resident { chunk, dirty, meshing }) => chunk.wf(),
                    _ => true,
                },
            forall|o: ChunkId|
                o != id_for_position(position) ==> final(self).spec_get(o) == old(self).spec_get(
                    o,
                ),
            match old(self).spec_get(id_for_position(position)) {
                Some(ChunkState::Resident { chunk, dirty, meshing }) => {
                    if 0 <= position.y < 16 {
                        &&& r == true
                        &&& match final(self).spec_get(id_for_position(position)) {
                            Some(ChunkState::Resident { chunk: c2, dirty: d2, meshing: m2 }) => {
                                &&& c2@ == chunk@.update(
                                    lin(
                                        position.x - origin_of(id_for_position(position)).x,
                                        position.y as int,
                                        position.z - origin_of(id_for_position(position)).z,
                                    ),
                                    pack16(voxel_type),
                                )
                                &&& d2 == true
                                &&& m2 == meshing
                            },
                            _ => false,
                        }
                    } else {
                        r == false && final(self).spec_get(id_for_position(position)) == old(
                            self,
                        ).spec_get(id_for_position(position))
                    }
                },
                _ => r == false && final(self).spec_get(id_for_position(position)) == old(
                    self,
                ).spec_get(id_for_position(position)),
            },
    {
        let id = get_id_for_position(position);
        let local = id.world_position_to_local(position);
        if position.y < 0 || position.y >= 16 {
            return false;
        }
        match self.take_state(id) {
            Some(ChunkState::Resident { mut chunk, dirty: _, meshing }) => {
                chunk.set_block(local.x as usize, local.y as usize, local.z as usize, voxel_type);
                self.put_state(id, ChunkState::Resident { chunk, dirty: true, meshing });
                true
            },
            Some(st) => {
                self.put_state(id, st);
                false
            },
            None => false,
        }
    }

    /// Given world coordinates, determine the chunk id which contains
    /// these coordinates.
    pub fn get_id_for_position(position: Vec3i) -> (r: ChunkId)
        requires
            in_world(position),
        ensures
            r == id_for_position(position),
    {
        get_id_for_position(position)
    }
}

} // verus!
