use titan::voxel::VoxelId;
use titan::voxel::VoxelType;
use titan::voxel::internal_to_voxel;
use titan::voxel::voxel_to_internal;

/// The canonical voxel of a material and a density in hundredths.
fn voxel_of_density(id: VoxelId, density: u8) -> VoxelType {
    if density == 0 {
        VoxelType::Air
    } else if density == 100 {
        VoxelType::Solid { id }
    } else {
        VoxelType::Partial { id, density }
    }
}

#[test]
fn pack_unpack_round_trips_every_density() {
    for density in 0..=100u8 {
        for id in [VoxelId::Stone, VoxelId::Sand, VoxelId::Grass, VoxelId::Snow, VoxelId::Water] {
            let v = voxel_of_density(id, density);
            let packed = voxel_to_internal(v);
            assert_eq!(internal_to_voxel(packed), v);
        }
    }
}

#[test]
fn packed_words_are_density_plus_code_times_256() {
    assert_eq!(voxel_to_internal(VoxelType::Air), 0);
    assert_eq!(voxel_to_internal(VoxelType::Solid { id: VoxelId::Stone }), 100 + 256);
    assert_eq!(
        voxel_to_internal(VoxelType::Partial { id: VoxelId::Water, density: 37 }),
        37 + 5 * 256
    );
    assert_eq!(voxel_to_internal(VoxelType::Solid { id: VoxelId::Water }), 100 + 5 * 256);
}

#[test]
fn from_u8_decodes_exactly_the_five_codes() {
    assert_eq!(VoxelId::from_u8(1), Some(VoxelId::Stone));
    assert_eq!(VoxelId::from_u8(2), Some(VoxelId::Sand));
    assert_eq!(VoxelId::from_u8(3), Some(VoxelId::Grass));
    assert_eq!(VoxelId::from_u8(4), Some(VoxelId::Snow));
    assert_eq!(VoxelId::from_u8(5), Some(VoxelId::Water));
    assert_eq!(VoxelId::from_u8(0), None);
    assert_eq!(VoxelId::from_u8(6), None);
    assert_eq!(VoxelId::from_u8(255), None);
}

#[test]
fn from_u8_inverts_code() {
    for id in [VoxelId::Stone, VoxelId::Sand, VoxelId::Grass, VoxelId::Snow, VoxelId::Water] {
        assert_eq!(VoxelId::from_u8(id.code()), Some(id));
    }
}

#[test]
fn voxel_index_is_material_code() {
    assert_eq!(VoxelType::Air.index(), 0);
    assert_eq!(VoxelType::Solid { id: VoxelId::Grass }.index(), 3);
    assert_eq!(VoxelType::Partial { id: VoxelId::Snow, density: 50 }.index(), 4);
}

#[test]
fn density_hundredths_spans_air_to_solid() {
    assert_eq!(VoxelType::Air.density_hundredths(), 0);
    assert_eq!(VoxelType::Solid { id: VoxelId::Stone }.density_hundredths(), 100);
    assert_eq!(
        VoxelType::Partial { id: VoxelId::Stone, density: 42 }.density_hundredths(),
        42
    );
}
