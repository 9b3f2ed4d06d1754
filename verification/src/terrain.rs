//! Terrain classification over a sampled surface-height field.
//!
//! The terrain is driven by a seeded fractal coherent-noise field.  That
//! field is sampled outside this library (its interface is floating point);
//! what the classification logic reads from it — one surface height per
//! horizontal column, in hundredths of a lattice unit — is held here as a
//! [`Terrain`] value.  Classification compares a position's elevation with
//! the sampled height and with fixed elevation bands: at or below sea level
//! everything is water; a position more than a full unit under the surface
//! is solid, one in the one-unit boundary band is a partial cell whose
//! density is the depth below the surface in hundredths, and one above the
//! surface is air.

use vstd::prelude::*;

use crate::chunk::Chunk;
use crate::chunk::dec_x;
use crate::chunk::dec_y;
use crate::chunk::dec_z;
use crate::chunk::lemma_dec_lin;
use crate::chunk::lemma_lin_dec;
use crate::chunk::lin;
use crate::chunk::pack16;
use crate::chunk::world_point;
use crate::coords::Vec3i;
use crate::coords::WORLD_BOUND;
use crate::coords::in_world;
use crate::voxel::VoxelId;
use crate::voxel::VoxelType;
use crate::voxel::wf_voxel;

verus! {

/// Elevation at or below which every position classifies as water.
pub const SEA_LEVEL: i64 = 80;

/// Elevation at or below which shores are sand rather than grass.
pub const SAND_LEVEL: i64 = 90;

/// Elevation above which ground turns to stone.
pub const STONE_LEVEL: i64 = 150;

/// Elevation above which ground is snow-covered.
pub const SNOW_LEVEL: i64 = 160;

/// Material of ground at elevation `y`: snow above `SNOW_LEVEL`, stone
/// above `STONE_LEVEL`, sand at or below `SAND_LEVEL`, grass between.
pub open spec fn band_id(y: int) -> VoxelId {
    if y > SNOW_LEVEL {
        VoxelId::Snow
    } else if y > STONE_LEVEL {
        VoxelId::Stone
    } else if y <= SAND_LEVEL {
        VoxelId::Sand
    } else {
        VoxelId::Grass
    }
}

/// Classification of world position `p` when the surface height over its
/// column is `h` hundredths: water at or below sea level; otherwise solid a
/// full unit below the surface, a partial cell in the one-unit boundary
/// band (density = depth below surface, in hundredths), air above.
pub open spec fn classify_spec(p: Vec3i, h: int) -> VoxelType {
    if p.y <= SEA_LEVEL {
        VoxelType::Solid { id: VoxelId::Water }
    } else if h >= 100 * p.y + 100 {
        VoxelType::Solid { id: band_id(p.y as int) }
    } else if h > 100 * p.y {
        VoxelType::Partial { id: band_id(p.y as int), density: (h - 100 * p.y) as u8 }
    } else {
        VoxelType::Air
    }
}

/// A rectangle of sampled surface heights: one height per world column
/// `(x, z)`, for `width` columns starting at `origin_x` and `depth` columns
/// starting at `origin_z`.  Heights are hundredths of a lattice unit.
pub struct Terrain {
    pub origin_x: i64,
    pub origin_z: i64,
    pub width: usize,
    pub depth: usize,
    pub heights: Vec<i64>,
}

impl Terrain {
    /// One sampled height per column of the footprint.
    pub open spec fn wf(self) -> bool {
        &&& self.heights@.len() == self.width * self.depth
        &&& self.width <= 0x10000
        &&& self.depth <= 0x10000
        &&& -WORLD_BOUND <= self.origin_x <= WORLD_BOUND
        &&& -WORLD_BOUND <= self.origin_z <= WORLD_BOUND
    }

    /// Whether the footprint holds a height for world column `(x, z)`.
    pub open spec fn covers(self, x: int, z: int) -> bool {
        self.origin_x <= x < self.origin_x + self.width && self.origin_z <= z < self.origin_z
            + self.depth
    }

    /// Whether the footprint covers every column with `x` in
    /// `[x0, x0 + nx)` and `z` in `[z0, z0 + nz)`.
    pub open spec fn covers_rect(self, x0: int, z0: int, nx: int, nz: int) -> bool {
        forall|x: int, z: int|
            x0 <= x < x0 + nx && z0 <= z < z0 + nz ==> self.covers(x, z)
    }

    /// Sampled surface height of column `(x, z)`, in hundredths.
    pub open spec fn height_of(self, x: int, z: int) -> int {
        self.heights@[(z - self.origin_z) * self.width + (x - self.origin_x)] as int
    }

    /// Classification of world position `p` against this field.
    pub open spec fn voxel_of(self, p: Vec3i) -> VoxelType {
        classify_spec(p, self.height_of(p.x as int, p.z as int))
    }

    /// Build a terrain from its sampled heights, row-major with `x` minor:
    /// the height of column `(origin_x + dx, origin_z + dz)` is
    /// `heights[dz * width + dx]`.
    pub fn new(origin_x: i64, origin_z: i64, width: usize, depth: usize, heights: Vec<i64>) -> (
        r: Terrain)
        requires
            heights@.len() == width * depth,
            width <= 0x10000,
            depth <= 0x10000,
            -WORLD_BOUND <= origin_x <= WORLD_BOUND,
            -WORLD_BOUND <= origin_z <= WORLD_BOUND,
        ensures
            r.wf(),
            r == (Terrain { origin_x, origin_z, width, depth, heights }),
    {
        Terrain { origin_x, origin_z, width, depth, heights }
    }

    /// The sampled surface height over world column `(x, z)`.
    pub fn height_at(&self, x: i64, z: i64) -> (h: i64)
        requires
            self.wf(),
            self.covers(x as int, z as int),
        ensures
            h == self.height_of(x as int, z as int),
    {
        let dx = (x - self.origin_x) as usize;
        let dz = (z - self.origin_z) as usize;
        proof {
            assert(dz * self.width + dx < self.width * self.depth) by (nonlinear_arith)
                requires
                    dz < self.depth,
                    dx < self.width,
            ;
            assert(dz * self.width <= 0xFFFF_0000) by (nonlinear_arith)
                requires
                    dz <= 0xFFFF,
                    self.width <= 0x10000,
            ;
        }
        self.heights[dz * self.width + dx]
    }

    /// Gets the block type at this position.
    pub fn get_block_type(&self, position: Vec3i) -> (r: VoxelType)
        requires
            self.wf(),
            in_world(position),
            self.covers(position.x as int, position.z as int),
        ensures
            r == self.voxel_of(position),
            wf_voxel(r),
    {
        let h = self.height_at(position.x, position.z);
        block_type_at_height(position, h)
    }
}

/// Classification of `position` given the surface height `height` over its
/// column, exactly [`classify_spec`]; total in the height, so any sampled
/// value yields a well-formed voxel.
pub fn block_type_at_height(position: Vec3i, height: i64) -> (r: VoxelType)
    requires
        in_world(position),
    ensures
        r == classify_spec(position, height as int),
        wf_voxel(r),
{
    if position.y <= SEA_LEVEL {
        VoxelType::Solid { id: VoxelId::Water }
    } else {
        let id = if position.y > SNOW_LEVEL {
            VoxelId::Snow
        } else if position.y > STONE_LEVEL {
            VoxelId::Stone
        } else if position.y <= SAND_LEVEL {
            VoxelId::Sand
        } else {
            VoxelId::Grass
        };
        let floor: i64 = 100 * position.y;
        if height >= floor + 100 {
            VoxelType::Solid { id }
        } else if height > floor {
            VoxelType::Partial { id, density: (height - floor) as u8 }
        } else {
            VoxelType::Air
        }
    }
}

/// Packed word generation writes for the voxel at local offset
/// `(x, y, z)` of a chunk with origin `wp`.
pub open spec fn gen_at(t: Terrain, wp: Vec3i, x: int, y: int, z: int) -> u16 {
    pack16(t.voxel_of(world_point(wp, Vec3i { x: x as i64, y: y as i64, z: z as i64 })))
}

/// The packed contents of a chunk generated at origin `wp` from terrain
/// `t`: voxel `i` is the classification of the world point at its decoded
/// local coordinates.
pub open spec fn generated_seq(t: Terrain, wp: Vec3i) -> Seq<u16> {
    Seq::new(4096, |i: int| gen_at(t, wp, dec_x(i), dec_y(i), dec_z(i)))
}

/// A chunk's generation footprint: its origin and every voxel it writes
/// stay inside the world.
pub open spec fn gen_bounds(wp: Vec3i) -> bool {
    &&& -WORLD_BOUND <= wp.x && wp.x + 16 <= WORLD_BOUND
    &&& -WORLD_BOUND <= wp.y && wp.y + 16 <= WORLD_BOUND
    &&& -WORLD_BOUND <= wp.z && wp.z + 16 <= WORLD_BOUND
}

impl Terrain {
    /// Fill `chunk` with the classification of every local voxel of a
    /// chunk whose world origin is `world_position`.
    #[verifier::loop_isolation(false)]
    pub fn generate(&self, chunk: &mut Chunk, world_position: Vec3i)
        requires
            self.wf(),
            old(chunk).wf(),
            gen_bounds(world_position),
            self.covers_rect(world_position.x as int, world_position.z as int, 16, 16),
        ensures
            final(chunk).wf(),
            final(chunk)@ == generated_seq(*self, world_position),
    {
        let wp = world_position;
        let mut cx: usize = 0;
        while cx < 16
            invariant
                cx <= 16,
                chunk.wf(),
                forall|x: int, y: int, z: int|
                    0 <= x < cx && 0 <= y < 16 && 0 <= z < 16 ==> #[trigger] chunk@[lin(x, y, z)]
                        == gen_at(*self, wp, x, y, z),
            decreases 16 - cx,
        {
            let mut cy: usize = 0;
            while cy < 16
                invariant
                    cx < 16,
                    cy <= 16,
                    chunk.wf(),
                    forall|x: int, y: int, z: int|
                        0 <= x < cx && 0 <= y < 16 && 0 <= z < 16 ==> #[trigger] chunk@[lin(
                            x,
                            y,
                            z,
                        )] == gen_at(*self, wp, x, y, z),
                    forall|y: int, z: int|
                        0 <= y < cy && 0 <= z < 16 ==> #[trigger] chunk@[lin(cx as int, y, z)]
                            == gen_at(*self, wp, cx as int, y, z),
                decreases 16 - cy,
            {
                let mut cz: usize = 0;
                while cz < 16
                    invariant
                        cx < 16,
                        cy < 16,
                        cz <= 16,
                        chunk.wf(),
                        forall|x: int, y: int, z: int|
                            0 <= x < cx && 0 <= y < 16 && 0 <= z < 16 ==> #[trigger] chunk@[lin(
                                x,
                                y,
                                z,
                            )] == gen_at(*self, wp, x, y, z),
                        forall|y: int, z: int|
                            0 <= y < cy && 0 <= z < 16 ==> #[trigger] chunk@[lin(cx as int, y, z)]
                                == gen_at(*self, wp, cx as int, y, z),
                        forall|z: int|
                            0 <= z < cz ==> #[trigger] chunk@[lin(cx as int, cy as int, z)]
                                == gen_at(*self, wp, cx as int, cy as int, z),
                    decreases 16 - cz,
                {
                    let c_pos = Vec3i {
                        x: wp.x + cx as i64,
                        y: wp.y + cy as i64,
                        z: wp.z + cz as i64,
                    };
                    let block_type = self.get_block_type(c_pos);
                    chunk.set_block(cx, cy, cz, block_type);
                    proof {
                        lemma_lin_dec(cx as int, cy as int, cz as int);
                        assert forall|x: int, y: int, z: int|
                            0 <= x < 16 && 0 <= y < 16 && 0 <= z < 16 && (x != cx || y != cy || z
                                != cz) implies lin(x, y, z) != lin(cx as int, cy as int, cz as int) by {
                            lemma_lin_dec(x, y, z);
                        }
                    }
                    cz = cz + 1;
                }
                cy = cy + 1;
            }
            cx = cx + 1;
        }
        proof {
            assert forall|i: int| 0 <= i < 4096 implies chunk@[i] == generated_seq(
                *self,
                wp,
            )[i] by {
                lemma_dec_lin(i);
            }
            assert(chunk@ =~= generated_seq(*self, wp));
        }
    }

    /// Generate a fresh chunk for the given world origin.
    pub fn generate2(&self, world_position: Vec3i) -> (c: Chunk)
        requires
            self.wf(),
            gen_bounds(world_position),
            self.covers_rect(world_position.x as int, world_position.z as int, 16, 16),
        ensures
            c.wf(),
            c@ == generated_seq(*self, world_position),
    {
        let mut chunk = Chunk::new();
        self.generate(&mut chunk, world_position);
        chunk
    }
}

/// A generated chunk stores, at every local coordinate, exactly the
/// terrain's classification of the corresponding world point.
pub proof fn lemma_generated_voxel(t: Terrain, wp: Vec3i, c: Chunk, x: int, y: int, z: int)
    requires
        c@ == generated_seq(t, wp),
        0 <= x < 16,
        0 <= y < 16,
        0 <= z < 16,
    ensures
        c.voxel_at(x, y, z) == t.voxel_of(
            world_point(wp, Vec3i { x: x as i64, y: y as i64, z: z as i64 }),
        ),
        crate::voxel::wf_voxel(c.voxel_at(x, y, z)),
{
    lemma_lin_dec(x, y, z);
    let v = t.voxel_of(world_point(wp, Vec3i { x: x as i64, y: y as i64, z: z as i64 }));
    assert(c@[lin(x, y, z)] == pack16(v));
    assert(crate::voxel::wf_voxel(v));
    crate::voxel::lemma_pack_roundtrip(v);
}

/// Chunk generation is idempotent: two chunks generated at the same origin
/// from the same terrain hold bit-identical packed voxel contents.
pub proof fn lemma_generate_idempotent(t: Terrain, wp: Vec3i, c1: Chunk, c2: Chunk)
    requires
        c1@ == generated_seq(t, wp),
        c2@ == generated_seq(t, wp),
    ensures
        c1@ == c2@,
{
}

/// Classification is deterministic: it is a function of the position and
/// the sampled height alone, so two terrains that sampled the same heights
/// classify every covered position identically.
pub proof fn lemma_classify_deterministic(t1: Terrain, t2: Terrain, p: Vec3i)
    requires
        t1.origin_x == t2.origin_x,
        t1.origin_z == t2.origin_z,
        t1.width == t2.width,
        t1.depth == t2.depth,
        t1.heights@ == t2.heights@,
    ensures
        t1.voxel_of(p) == t2.voxel_of(p),
{
}

} // verus!
