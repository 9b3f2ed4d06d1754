use std::collections::HashSet;

use titan::chunk::Chunk;
use titan::coords::ChunkId;
use titan::coords::Vec3i;
use titan::engine::Engine;
use titan::engine::MeshOutcome;
use titan::voxel::VoxelId;
use titan::voxel::VoxelType;

fn drain_load_queue(e: &mut Engine) -> Vec<ChunkId> {
    let mut out = Vec::new();
    while let Some(id) = e.next_load_request() {
        out.push(id);
    }
    out
}

fn window_set(radius: i64) -> HashSet<(i64, i64)> {
    let mut s = HashSet::new();
    for x in -radius..radius {
        for z in -radius..radius {
            s.insert((x, z));
        }
    }
    s
}

#[test]
fn one_tick_schedules_exactly_the_missing_window() {
    let mut e = Engine::new(2, 1000);
    e.process_chunk_state_on_camera(Vec3i::new(0, 0, 0));
    let got = drain_load_queue(&mut e);
    assert_eq!(got.len(), 16);
    let mut seen = HashSet::new();
    for id in &got {
        assert!(seen.insert((id.x, id.z)), "load queue held a duplicate id");
        assert!(e.world.contains(*id), "every queued id is registered");
    }
    assert_eq!(seen, window_set(2));
}

#[test]
fn second_tick_adds_nothing_while_window_is_pending() {
    let mut e = Engine::new(2, 1000);
    e.process_chunk_state_on_camera(Vec3i::new(0, 0, 0));
    let first = drain_load_queue(&mut e);
    assert_eq!(first.len(), 16);
    e.process_chunk_state_on_camera(Vec3i::new(0, 0, 0));
    assert!(drain_load_queue(&mut e).is_empty());
}

#[test]
fn admission_cap_bounds_each_pass_and_loses_no_candidate() {
    let mut e = Engine::new(2, 5);
    let mut all: Vec<ChunkId> = Vec::new();
    for _ in 0..3 {
        e.process_chunk_state_on_camera(Vec3i::new(0, 0, 0));
        let batch = drain_load_queue(&mut e);
        assert!(batch.len() <= 5);
        all.extend(batch);
    }
    e.process_chunk_state_on_camera(Vec3i::new(0, 0, 0));
    let last = drain_load_queue(&mut e);
    assert_eq!(last.len(), 1);
    all.extend(last);
    let mut seen = HashSet::new();
    for id in &all {
        assert!(seen.insert((id.x, id.z)));
    }
    assert_eq!(seen, window_set(2));
}

#[test]
fn moving_viewer_schedules_the_newly_entered_column() {
    let mut e = Engine::new(2, 1000);
    e.process_chunk_state_on_camera(Vec3i::new(0, 0, 0));
    drain_load_queue(&mut e);
    // one chunk to the east: the window shifts by one column
    e.process_chunk_state_on_camera(Vec3i::new(16, 0, 0));
    let got = drain_load_queue(&mut e);
    assert_eq!(got.len(), 4);
    for id in &got {
        assert_eq!(id.x, 2);
    }
}

#[test]
fn generated_chunks_install_once_and_mark_for_meshing() {
    let mut e = Engine::new(1, 1000);
    e.process_chunk_state_on_camera(Vec3i::new(0, 0, 0));
    let ids = drain_load_queue(&mut e);
    assert_eq!(ids.len(), 4);

    let id = ids[0];
    assert!(e.install_generated(id, Chunk::new()));
    // a duplicate or out-of-window completion is discarded
    assert!(!e.install_generated(id, Chunk::new()));
    assert!(!e.install_generated(ChunkId::new(40, 40), Chunk::new()));

    // the freshly installed chunk needs a mesh
    let (mid, snap) = e.take_dirty().expect("installed chunk awaits meshing");
    assert_eq!((mid.x, mid.z), (id.x, id.z));
    for x in 0..16usize {
        for y in 0..16usize {
            for z in 0..16usize {
                assert_eq!(snap.get_block(x, y, z), VoxelType::Air);
            }
        }
    }
    // only one remesh may be outstanding per chunk
    assert!(e.take_dirty().is_none());
    assert_eq!(e.install_mesh(mid), MeshOutcome::Applied);
    assert!(e.take_dirty().is_none());
}

#[test]
fn edits_mark_dirty_and_supersede_inflight_remesh() {
    let mut e = Engine::new(1, 1000);
    e.process_chunk_state_on_camera(Vec3i::new(0, 0, 0));
    let ids = drain_load_queue(&mut e);
    let origin_id = ids
        .iter()
        .find(|id| id.x == 0 && id.z == 0)
        .copied()
        .expect("origin chunk scheduled");
    assert!(e.install_generated(origin_id, Chunk::new()));
    let (first, _snap) = e.take_dirty().expect("fresh chunk awaits meshing");
    assert_eq!((first.x, first.z), (0, 0));

    // an edit lands while the remesh task is in flight
    let pos = Vec3i::new(3, 4, 5);
    assert!(e.set_block(pos, VoxelType::Solid { id: VoxelId::Stone }));
    assert_eq!(e.world.get_block(pos), Some(VoxelType::Solid { id: VoxelId::Stone }));

    // the in-flight result is superseded and a fresh request queued
    assert_eq!(e.install_mesh(origin_id), MeshOutcome::Superseded);
    let (second, snap2) = e.take_dirty().expect("edited chunk awaits a fresh remesh");
    assert_eq!((second.x, second.z), (0, 0));
    assert_eq!(snap2.get_block(3, 4, 5), VoxelType::Solid { id: VoxelId::Stone });
    assert_eq!(e.install_mesh(origin_id), MeshOutcome::Applied);

    // a completion for a chunk not awaiting one is stale
    assert_eq!(e.install_mesh(origin_id), MeshOutcome::Stale);
    assert_eq!(e.install_mesh(ChunkId::new(40, 40)), MeshOutcome::Stale);
}

#[test]
fn edits_outside_installed_chunks_change_nothing() {
    let mut e = Engine::new(1, 1000);
    assert!(!e.set_block(Vec3i::new(3, 4, 5), VoxelType::Air));
    assert_eq!(e.world.get_block(Vec3i::new(3, 4, 5)), None);
}
