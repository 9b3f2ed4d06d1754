//! Voxel classification and its packed two-byte encoding.
//!
//! A voxel is `Air`, fully `Solid`, or `Partial` with a fractional density.
//! Densities are integers in hundredths: `Air` is 0, `Solid` is 100, and a
//! `Partial` voxel carries a density in `1..=99`.  The packed form stores the
//! density in the low byte and the material code in the high byte; density 0
//! packs to the single canonical word 0 (air), density 100 denotes solid.

use vstd::prelude::*;

verus! {

/// Material tag: the classification outcome of the terrain generator, also
/// used as the material index handed to the renderer.
#[derive(Clone, Copy, Debug, PartialEq, Eq, Structural)]
pub enum VoxelId {
    Stone,
    Sand,
    Grass,
    Snow,
    Water,
}

/// Numeric code of a material in the packed encoding; 0 is reserved for air.
pub open spec fn id_code(id: VoxelId) -> u8 {
    match id {
        VoxelId::Stone => 1,
        VoxelId::Sand => 2,
        VoxelId::Grass => 3,
        VoxelId::Snow => 4,
        VoxelId::Water => 5,
    }
}

/// The material whose code is `value`, if any.
pub open spec fn id_from_code(value: u8) -> Option<VoxelId> {
    match value {
        1u8 => Some(VoxelId::Stone),
        2u8 => Some(VoxelId::Sand),
        3u8 => Some(VoxelId::Grass),
        4u8 => Some(VoxelId::Snow),
        5u8 => Some(VoxelId::Water),
        _ => None,
    }
}

impl VoxelId {
    /// Decode a material code; codes outside `1..=5` have no material.
    pub fn from_u8(value: u8) -> (r: Option<VoxelId>)
        ensures
            r == id_from_code(value),
    {
        match value {
            1u8 => Some(VoxelId::Stone),
            2u8 => Some(VoxelId::Sand),
            3u8 => Some(VoxelId::Grass),
            4u8 => Some(VoxelId::Snow),
            5u8 => Some(VoxelId::Water),
            _ => None,
        }
    }

    /// The numeric code of this material.
    pub fn code(&self) -> (r: u8)
        ensures
            r == id_code(*self),
    {
        match self {
            VoxelId::Stone => 1,
            VoxelId::Sand => 2,
            VoxelId::Grass => 3,
            VoxelId::Snow => 4,
            VoxelId::Water => 5,
        }
    }
}

/// One voxel: air, fully solid, or a fractional surface-crossing cell.
#[derive(Clone, Copy, Debug, PartialEq, Eq, Structural)]
pub enum VoxelType {
    Air,
    Solid { id: VoxelId },
    Partial { id: VoxelId, density: u8 },
}

/// A well-formed voxel: a `Partial` density is strictly between air (0)
/// and solid (100).
pub open spec fn wf_voxel(v: VoxelType) -> bool {
    match v {
        VoxelType::Partial { id, density } => 1 <= density <= 99,
        _ => true,
    }
}

/// Density of a voxel in hundredths: air 0, solid 100.
pub open spec fn density_of(v: VoxelType) -> u8 {
    match v {
        VoxelType::Air => 0,
        VoxelType::Solid { id } => 100,
        VoxelType::Partial { id, density } => density,
    }
}

/// Material code of a voxel: 0 for air, else the material's code.
pub open spec fn code_of(v: VoxelType) -> u8 {
    match v {
        VoxelType::Air => 0,
        VoxelType::Solid { id } => id_code(id),
        VoxelType::Partial { id, density } => id_code(id),
    }
}

/// Packed form: density in the low byte, material code in the high byte.
pub open spec fn pack_spec(v: VoxelType) -> int {
    density_of(v) + 256 * code_of(v)
}

/// A packed word this crate can produce: the canonical zero word (air), or a
/// material code `1..=5` with a density `1..=100`.
pub open spec fn valid_packed(w: int) -> bool {
    let d = w % 256;
    let c = w / 256;
    (d == 0 && c == 0) || (1 <= c <= 5 && 1 <= d <= 100)
}

/// Logical voxel of a valid packed word: density 0 is air, 100 is solid,
/// anything between is a partial cell.
pub open spec fn unpack_spec(w: int) -> VoxelType {
    let d = w % 256;
    let c = w / 256;
    if d == 0 {
        VoxelType::Air
    } else if d == 100 {
        VoxelType::Solid { id: id_from_code(c as u8).unwrap() }
    } else {
        VoxelType::Partial { id: id_from_code(c as u8).unwrap(), density: d as u8 }
    }
}

impl VoxelType {
    /// Material index of this voxel: 0 for air, else the material code.
    pub fn index(&self) -> (r: u8)
        ensures
            r == code_of(*self),
    {
        match self {
            VoxelType::Air => 0,
            VoxelType::Solid { id } => id.code(),
            VoxelType::Partial { id, density: _ } => id.code(),
        }
    }

    /// Density of this voxel in hundredths of a unit: air is 0, solid is
    /// 100, a partial cell is its stored density.
    pub fn density_hundredths(&self) -> (r: u8)
        ensures
            r == density_of(*self),
    {
        match self {
            VoxelType::Air => 0,
            VoxelType::Solid { id: _ } => 100,
            VoxelType::Partial { id: _, density } => *density,
        }
    }
}

/// Pack a voxel into its two-byte word.
pub fn voxel_to_internal(voxel: VoxelType) -> (r: u16)
    requires
        wf_voxel(voxel),
    ensures
        r == pack_spec(voxel),
        valid_packed(r as int),
{
    let density: u8 = match voxel {
        VoxelType::Air => 0,
        VoxelType::Solid { id: _ } => 100,
        VoxelType::Partial { id: _, density } => density,
    };
    let code: u8 = match voxel {
        VoxelType::Air => 0,
        VoxelType::Solid { id } => id.code(),
        VoxelType::Partial { id, density: _ } => id.code(),
    };
    density as u16 + 256 * (code as u16)
}

/// Unpack a two-byte word back into the logical voxel it encodes.
pub fn internal_to_voxel(internal: u16) -> (r: VoxelType)
    requires
        valid_packed(internal as int),
    ensures
        r == unpack_spec(internal as int),
        wf_voxel(r),
{
    let density = (internal % 256) as u8;
    let code = (internal / 256) as u8;
    if density == 100 {
        VoxelType::Solid { id: VoxelId::from_u8(code).unwrap() }
    } else if density == 0 {
        VoxelType::Air
    } else {
        VoxelType::Partial { id: VoxelId::from_u8(code).unwrap(), density }
    }
}

/// Packing then unpacking a well-formed voxel yields it back unchanged.
pub proof fn lemma_pack_roundtrip(v: VoxelType)
    requires
        wf_voxel(v),
    ensures
        valid_packed(pack_spec(v)),
        unpack_spec(pack_spec(v)) == v,
{
}

/// Unpacking then packing a valid word yields it back unchanged: the packed
/// encoding is a bijection between valid words and well-formed voxels.
pub proof fn lemma_unpack_roundtrip(w: int)
    requires
        valid_packed(w),
    ensures
        wf_voxel(unpack_spec(w)),
        pack_spec(unpack_spec(w)) == w,
{
}

} // verus!
