use bracket_noise::prelude::FastNoise;
use bracket_noise::prelude::FractalType;
use bracket_noise::prelude::NoiseType;

use titan::chunk::Chunk;
use titan::coords::Vec3i;
use titan::mesh::MeshBuffers;
use titan::mesher::ChunkMesher;
use titan::mesher::CubeChunkMesher;
use titan::mesher::MarchingChunkMesher;
use titan::mesher::build_cube_mesh;
use titan::mesher::build_marching_mesh;
use titan::terrain::Terrain;
use titan::voxel::VoxelId;
use titan::voxel::VoxelType;

/// Sample the seeded fractal noise field into a height rectangle.
fn sample_terrain(seed: u64, origin_x: i64, origin_z: i64, width: usize, depth: usize) -> Terrain {
    let mut noise = FastNoise::seeded(seed);
    noise.set_noise_type(NoiseType::SimplexFractal);
    noise.set_fractal_type(FractalType::FBM);
    noise.set_fractal_octaves(8);
    noise.set_fractal_gain(0.4);
    noise.set_fractal_lacunarity(2.0);
    noise.set_frequency(0.14);
    let mut heights: Vec<i64> = Vec::with_capacity(width * depth);
    for dz in 0..depth {
        for dx in 0..width {
            let x = origin_x + dx as i64;
            let z = origin_z + dz as i64;
            let n = noise.get_noise(x as f32 / 64.0 * 1.5 + 0.001, z as f32 / 64.0 * 1.5 + 0.001);
            let h = (128.0 + 128.0 * n) * 100.0;
            heights.push(h as i64);
        }
    }
    Terrain::new(origin_x, origin_z, width, depth, heights)
}

/// A flat zero-height field covering a chunk at `(ox, oz)` plus its ring:
/// every sample far above it is air.
fn air_terrain(ox: i64, oz: i64) -> Terrain {
    Terrain::new(ox - 1, oz - 1, 18, 18, vec![0i64; 18 * 18])
}

fn assert_sound(m: &MeshBuffers) {
    assert!(m.indices.len() % 3 == 0);
    assert!(m.indices.len() > 0);
    for &ix in &m.indices {
        assert!((ix as usize) < m.positions.len());
    }
    assert_eq!(m.normals.len(), m.positions.len());
    assert_eq!(m.voxel_indices.len(), m.positions.len());
}

#[test]
fn air_chunk_meshes_to_none_in_every_variant() {
    let origin = Vec3i::new(0, 10000, 0);
    let t = air_terrain(0, 0);
    let chunk = Chunk::new();
    assert!(build_cube_mesh(&chunk, origin, &t).is_none());
    assert!(build_marching_mesh(&chunk, origin, &t).is_none());
    assert!(CubeChunkMesher::build(&chunk, origin, &t).is_none());
    assert!(MarchingChunkMesher::build(&chunk, origin, &t).is_none());
}

#[test]
fn solid_two_cube_emits_exactly_the_exposed_faces() {
    // a fully solid 2x2x2 region surrounded by air: every voxel exposes
    // three faces, 24 quads in all
    let origin = Vec3i::new(0, 10000, 0);
    let t = air_terrain(0, 0);
    let mut chunk = Chunk::new();
    for x in 6..8usize {
        for y in 6..8usize {
            for z in 6..8usize {
                chunk.set_block(x, y, z, VoxelType::Solid { id: VoxelId::Stone });
            }
        }
    }
    let m = build_cube_mesh(&chunk, origin, &t).expect("solid region must mesh");
    assert_sound(&m);
    assert_eq!(m.positions.len(), 4 * 24);
    assert_eq!(m.indices.len(), 6 * 24);
}

#[test]
fn interior_voxel_of_three_cube_contributes_no_faces() {
    // 3x3x3 solid block: 54 exposed faces; the fully surrounded centre
    // voxel contributes none
    let origin = Vec3i::new(0, 10000, 0);
    let t = air_terrain(0, 0);
    let mut chunk = Chunk::new();
    for x in 6..9usize {
        for y in 6..9usize {
            for z in 6..9usize {
                chunk.set_block(x, y, z, VoxelType::Solid { id: VoxelId::Stone });
            }
        }
    }
    let m = build_cube_mesh(&chunk, origin, &t).expect("solid region must mesh");
    assert_sound(&m);
    assert_eq!(m.positions.len(), 4 * 54);
    assert_eq!(m.indices.len(), 6 * 54);
}

#[test]
fn lone_voxel_emits_six_faces() {
    let origin = Vec3i::new(0, 10000, 0);
    let t = air_terrain(0, 0);
    let mut chunk = Chunk::new();
    chunk.set_block(5, 5, 5, VoxelType::Solid { id: VoxelId::Grass });
    let m = build_cube_mesh(&chunk, origin, &t).expect("lone voxel must mesh");
    assert_sound(&m);
    assert_eq!(m.positions.len(), 4 * 6);
    assert_eq!(m.indices.len(), 6 * 6);
    // every vertex carries the grass material; the atlas tile depends on
    // the face: tops, sides and bottoms use different tiles
    for &v in &m.voxel_indices {
        assert_eq!(v, 3);
    }
    for f in 0..6usize {
        let expected = match f {
            4 => 3 * 3,      // top
            5 => 3 * 3 + 2,  // bottom
            _ => 3 * 3 + 1,  // sides
        };
        for i in 0..4 {
            assert_eq!(m.texture_indices[4 * f + i], expected);
        }
        // texture coordinates walk the unit square
        assert_eq!(m.uvs[4 * f], (0, 0));
        assert_eq!(m.uvs[4 * f + 1], (1000, 0));
        assert_eq!(m.uvs[4 * f + 2], (1000, 1000));
        assert_eq!(m.uvs[4 * f + 3], (0, 1000));
    }
    // each quad's two triangles reference its own four vertices
    for q in 0..6usize {
        let base = (4 * q) as u32;
        assert_eq!(
            &m.indices[6 * q..6 * q + 6],
            &[base, base + 1, base + 2, base + 2, base + 3, base]
        );
    }
}

#[test]
fn meshers_on_surface_chunk_emit_sound_buffers() {
    // a chunk straddling the terrain surface around elevation 128
    let t = sample_terrain(42, -1, -1, 18, 18);
    let origin = Vec3i::new(0, 120, 0);
    let chunk = t.generate2(origin);

    let cube = build_cube_mesh(&chunk, origin, &t).expect("surface chunk meshes (cube)");
    assert_sound(&cube);
    assert_eq!(cube.uvs.len(), cube.positions.len());
    assert_eq!(cube.texture_indices.len(), cube.positions.len());
    assert_eq!(cube.positions.len() % 4, 0);
    assert_eq!(cube.indices.len() / 6, cube.positions.len() / 4);

    let iso = build_marching_mesh(&chunk, origin, &t).expect("surface chunk meshes (marching)");
    assert_sound(&iso);
    assert_eq!(iso.positions.len() % 3, 0);
    assert_eq!(iso.indices.len(), iso.positions.len());
    for (k, &ix) in iso.indices.iter().enumerate() {
        assert_eq!(ix as usize, k);
    }
    // flat normals: one shared cross product per triangle
    for k in 0..iso.positions.len() / 3 {
        assert_eq!(iso.normals[3 * k], iso.normals[3 * k + 1]);
        assert_eq!(iso.normals[3 * k], iso.normals[3 * k + 2]);
    }
}

#[test]
fn seam_samples_agree_with_neighbour_chunk() {
    // two adjacent chunks generated from the same field: resolving one
    // voxel beyond chunk a's +x boundary through the terrain yields
    // exactly chunk b's boundary voxels, so face culling at the seam is
    // consistent
    let t = sample_terrain(42, -1, -1, 35, 19);
    let origin_a = Vec3i::new(0, 120, 0);
    let origin_b = Vec3i::new(16, 120, 0);
    let a = t.generate2(origin_a);
    let b = t.generate2(origin_b);
    for y in 0..16 {
        for z in 0..16 {
            let beyond = a.get_t_block(origin_a, Vec3i::new(16, y, z), &t);
            assert_eq!(beyond, b.get_block(0, y as usize, z as usize));
        }
    }
}

#[test]
fn strategy_interface_builds_match_the_concrete_meshers() {
    // calling through the strategy interface yields exactly what the
    // concrete builders yield, emitting and non-emitting cases alike
    let t = sample_terrain(42, -1, -1, 18, 18);
    let origin = Vec3i::new(0, 120, 0);
    let chunk = t.generate2(origin);

    let via_trait = CubeChunkMesher::build(&chunk, origin, &t).expect("cube strategy emits");
    let direct = build_cube_mesh(&chunk, origin, &t).expect("cube mesher emits");
    assert_eq!(via_trait.positions, direct.positions);
    assert_eq!(via_trait.indices, direct.indices);
    assert_eq!(via_trait.texture_indices, direct.texture_indices);

    let via_trait = MarchingChunkMesher::build(&chunk, origin, &t).expect("marching strategy emits");
    let direct = build_marching_mesh(&chunk, origin, &t).expect("marching mesher emits");
    assert_eq!(via_trait.positions, direct.positions);
    assert_eq!(via_trait.normals, direct.normals);
    assert_eq!(via_trait.voxel_indices, direct.voxel_indices);
}

#[test]
fn create_mesh_matches_the_marching_strategy() {
    let t = sample_terrain(42, -1, -1, 18, 18);
    let origin = Vec3i::new(0, 120, 0);
    let chunk = t.generate2(origin);
    let a = chunk.create_mesh(origin, &t).expect("surface chunk meshes");
    let b = build_marching_mesh(&chunk, origin, &t).expect("surface chunk meshes");
    assert_eq!(a.positions.len(), b.positions.len());
    for (p, q) in a.positions.iter().zip(b.positions.iter()) {
        assert_eq!(p, q);
    }
}

#[test]
fn marching_interpolation_places_vertices_on_crossing_edges() {
    // a single partial voxel against air: the cell below it crosses the
    // surface, and every emitted vertex stays inside the cell's bounds
    let origin = Vec3i::new(0, 10000, 0);
    let t = air_terrain(0, 0);
    let mut chunk = Chunk::new();
    chunk.set_block(8, 8, 8, VoxelType::Solid { id: VoxelId::Stone });
    let m = build_marching_mesh(&chunk, origin, &t).expect("isolated solid voxel must mesh");
    assert_sound(&m);
    for p in &m.positions {
        assert!(0 <= p.x && p.x <= 17000);
        assert!(0 <= p.y && p.y <= 17000);
        assert!(0 <= p.z && p.z <= 17000);
    }
}
