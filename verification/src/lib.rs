//! Voxel chunk pipeline: seeded terrain classification, dense packed chunk
//! storage, surface extraction (block-cube and marching-cubes meshing), and
//! the scheduling that streams chunks around a moving viewer.
//!
//! World geometry is kept in integers: world coordinates are voxel-lattice
//! points and densities are hundredths in `0..=100`.

pub mod chunk;
pub mod coords;
pub mod engine;
pub mod mesh;
pub mod mesher;
pub mod table;
pub mod terrain;
pub mod voxel;
pub mod world;
