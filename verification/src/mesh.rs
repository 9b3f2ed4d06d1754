//! Renderable mesh buffers in a layout-agnostic, integer form.
//!
//! Positions are fixed-point local coordinates with [`POS_SCALE`] units per
//! voxel.  Normals are unnormalised direction vectors (axis units for the
//! cube mesher, raw cross products for the isosurface mesher); the renderer
//! normalises them when it uploads the buffers.

use vstd::prelude::*;

use crate::coords::Vec3i;

verus! {

/// Fixed-point units per lattice unit in mesh positions.
pub const POS_SCALE: i64 = 1000;

/// Vertex, normal and index buffers for one chunk's surface, in the order
/// a triangle-list renderer consumes them.
pub struct MeshBuffers {
    /// One fixed-point position per vertex.
    pub positions: Vec<Vec3i>,
    /// One unnormalised normal per vertex.
    pub normals: Vec<Vec3i>,
    /// Texture coordinates per vertex, in fixed point (empty when a mesher
    /// does not emit them).
    pub uvs: Vec<(i64, i64)>,
    /// Material index per vertex.
    pub voxel_indices: Vec<u32>,
    /// Texture-atlas tile per vertex (empty when a mesher does not emit
    /// them).
    pub texture_indices: Vec<u32>,
    /// Triangle list: three vertex indices per triangle.
    pub indices: Vec<u32>,
}

/// Structural soundness of a mesh: whole triangles only, every index in
/// range, and one normal and one material index per vertex.
pub open spec fn wf_mesh(m: MeshBuffers) -> bool {
    &&& m.indices@.len() % 3 == 0
    &&& forall|k: int| 0 <= k < m.indices@.len() ==> (#[trigger] m.indices@[k]) < m.positions@.len()
    &&& m.normals@.len() == m.positions@.len()
    &&& m.voxel_indices@.len() == m.positions@.len()
}

} // verus!
