use titan::coords::ChunkId;
use titan::coords::Vec3i;
use titan::coords::get_id_for_position;

#[test]
fn positions_map_to_their_owning_chunk() {
    assert_eq!(get_id_for_position(Vec3i::new(0, 0, 0)), ChunkId::new(0, 0));
    assert_eq!(get_id_for_position(Vec3i::new(15, 3, 15)), ChunkId::new(0, 0));
    assert_eq!(get_id_for_position(Vec3i::new(16, 3, 31)), ChunkId::new(1, 1));
    // floor division: negative coordinates belong to the chunk below
    assert_eq!(get_id_for_position(Vec3i::new(-1, 0, -16)), ChunkId::new(-1, -1));
    assert_eq!(get_id_for_position(Vec3i::new(-17, 0, -32)), ChunkId::new(-2, -2));
}

#[test]
fn chunk_origin_and_local_coordinates_invert_each_other() {
    let id = ChunkId::new(-3, 7);
    let origin = id.world_position();
    assert_eq!((origin.x, origin.y, origin.z), (-48, 0, 112));
    let p = Vec3i::new(-41, 5, 120);
    let local = id.world_position_to_local(p);
    assert_eq!((local.x, local.y, local.z), (7, 5, 8));
    assert_eq!(get_id_for_position(p), id);
}
