use bracket_noise::prelude::FastNoise;
use bracket_noise::prelude::FractalType;
use bracket_noise::prelude::NoiseType;

use titan::coords::Vec3i;
use titan::terrain::Terrain;
use titan::terrain::block_type_at_height;
use titan::voxel::VoxelId;
use titan::voxel::VoxelType;

/// Sample the seeded fractal noise field into a height rectangle: `width`
/// by `depth` columns starting at `(origin_x, origin_z)`, heights in
/// hundredths of a lattice unit.
fn sample_terrain(seed: u64, origin_x: i64, origin_z: i64, width: usize, depth: usize) -> Terrain {
    let mut noise = FastNoise::seeded(seed);
    noise.set_noise_type(NoiseType::SimplexFractal);
    noise.set_fractal_type(FractalType::FBM);
    noise.set_fractal_octaves(8);
    noise.set_fractal_gain(0.4);
    noise.set_fractal_lacunarity(2.0);
    noise.set_frequency(0.14);
    let mut heights: Vec<i64> = Vec::with_capacity(width * depth);
    for dz in 0..depth {
        for dx in 0..width {
            let x = origin_x + dx as i64;
            let z = origin_z + dz as i64;
            let n = noise.get_noise(x as f32 / 64.0 * 1.5 + 0.001, z as f32 / 64.0 * 1.5 + 0.001);
            let h = (128.0 + 128.0 * n) * 100.0;
            heights.push(h as i64);
        }
    }
    Terrain::new(origin_x, origin_z, width, depth, heights)
}

#[test]
fn classification_is_deterministic_per_seed() {
    let t1 = sample_terrain(42, -8, -8, 32, 32);
    let t2 = sample_terrain(42, -8, -8, 32, 32);
    for x in -8..24 {
        for z in -8..24 {
            for y in [0i64, 80, 81, 100, 127, 128, 129, 200] {
                let p = Vec3i::new(x, y, z);
                assert_eq!(t1.get_block_type(p), t2.get_block_type(p));
            }
        }
    }
}

#[test]
fn below_sea_level_is_water_above_local_height_is_air() {
    let t = sample_terrain(42, 0, 0, 16, 16);
    for x in 0..16 {
        for z in 0..16 {
            assert_eq!(
                t.get_block_type(Vec3i::new(x, 50, z)),
                VoxelType::Solid { id: VoxelId::Water }
            );
            assert_eq!(
                t.get_block_type(Vec3i::new(x, 80, z)),
                VoxelType::Solid { id: VoxelId::Water }
            );
            // far above the computed local surface height the world is air
            let h = t.height_at(x, z);
            let above = h / 100 + 2;
            if above > 80 {
                assert_eq!(t.get_block_type(Vec3i::new(x, above, z)), VoxelType::Air);
            }
            assert_eq!(t.get_block_type(Vec3i::new(x, 100000, z)), VoxelType::Air);
        }
    }
}

#[test]
fn band_materials_follow_elevation() {
    // a column whose surface sits well above the probe: solid ground
    assert_eq!(
        block_type_at_height(Vec3i::new(0, 85, 0), 100 * 300),
        VoxelType::Solid { id: VoxelId::Sand }
    );
    assert_eq!(
        block_type_at_height(Vec3i::new(0, 100, 0), 100 * 300),
        VoxelType::Solid { id: VoxelId::Grass }
    );
    assert_eq!(
        block_type_at_height(Vec3i::new(0, 155, 0), 100 * 300),
        VoxelType::Solid { id: VoxelId::Stone }
    );
    assert_eq!(
        block_type_at_height(Vec3i::new(0, 170, 0), 100 * 300),
        VoxelType::Solid { id: VoxelId::Snow }
    );
    // the one-unit boundary band yields a partial cell with the depth
    // below the surface as its density
    assert_eq!(
        block_type_at_height(Vec3i::new(0, 128, 0), 100 * 128 + 37),
        VoxelType::Partial { id: VoxelId::Grass, density: 37 }
    );
    // exactly one unit below the surface is fully solid
    assert_eq!(
        block_type_at_height(Vec3i::new(0, 128, 0), 100 * 129),
        VoxelType::Solid { id: VoxelId::Grass }
    );
    // at or above the surface is air
    assert_eq!(block_type_at_height(Vec3i::new(0, 128, 0), 100 * 128), VoxelType::Air);
}

#[test]
fn generate_is_idempotent() {
    let t = sample_terrain(42, 0, 0, 16, 16);
    let origin = Vec3i::new(0, 120, 0);
    let c1 = t.generate2(origin);
    let c2 = t.generate2(origin);
    for x in 0..16usize {
        for y in 0..16usize {
            for z in 0..16usize {
                assert_eq!(c1.get_block(x, y, z), c2.get_block(x, y, z));
            }
        }
    }
}

#[test]
fn generated_voxels_match_classification() {
    let t = sample_terrain(7, 0, 0, 16, 16);
    let origin = Vec3i::new(0, 120, 0);
    let c = t.generate2(origin);
    for x in 0..16usize {
        for y in 0..16usize {
            for z in 0..16usize {
                let world = Vec3i::new(x as i64, 120 + y as i64, z as i64);
                assert_eq!(c.get_block(x, y, z), t.get_block_type(world));
            }
        }
    }
}
