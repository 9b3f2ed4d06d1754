//! The driver of the chunk pipeline: scheduling, queues and completions.
//!
//! One `Engine` owns the world index and both queues; every mutation of
//! them happens through its methods, once per tick, on the driver thread.
//! Heavy work — generating a chunk's voxels and meshing them — is handed
//! out as self-contained tasks ([`run_generation_task`]); the driver only
//! decides what to request, installs what comes back, and discards results
//! that arrived too late.

use vstd::prelude::*;

use std::collections::VecDeque;

use crate::chunk::Chunk;
use crate::coords::ChunkId;
use crate::coords::Vec3i;
use crate::coords::get_id_for_position;
use crate::coords::id_for_position;
use crate::coords::in_world;
use crate::coords::wf_chunk_id;
use crate::mesh::MeshBuffers;
use crate::mesher::ChunkMesher;
use crate::mesher::mesh_bounds;
use crate::terrain::Terrain;
use crate::terrain::gen_bounds;
use crate::terrain::generated_seq;
use crate::voxel::VoxelType;
use crate::voxel::wf_voxel;
use crate::world::ChunkState;
use crate::world::World;

verus! {

/// How many chunks away from the viewer to keep resident (horizontally).
pub const RENDER_DISTANCE: usize = 20;

/// How many chunk requests one scheduling pass may admit.
pub const ADMISSION_CAP: usize = 1000;

/// A simple queue that keeps track of what chunks currently need to be
/// loaded into the world, by chunk id.
pub struct ChunkLoadQueue(pub VecDeque<ChunkId>);

/// A simple queue that keeps track of what chunks currently need to be
/// unloaded from the world, by chunk id.  Eviction is an extension point:
/// the state machine tolerates a later `Resident` to absent transition,
/// and this queue is where such requests would wait.
pub struct ChunkUnloadQueue(pub VecDeque<ChunkId>);

/// What became of a finished remesh task's geometry.
#[derive(Clone, Copy, Debug, PartialEq, Eq, Structural)]
pub enum MeshOutcome {
    /// The chunk was still clean: the caller should install the geometry.
    Applied,
    /// The chunk was edited again while the task ran: the result is stale,
    /// the caller should discard it; a fresh remesh request has been
    /// queued.
    Superseded,
    /// The chunk is no longer awaiting this mesh (evicted or never
    /// meshing): the caller should discard the result.
    Stale,
}

/// Chunk id number `i` of the scheduling window around viewer chunk `vc`
/// with radius `r`: the window spans `[vc.x - r, vc.x + r)` by
/// `[vc.z - r, vc.z + r)` in chunk space, scanned with `x` outermost.
pub open spec fn window_id(vc: ChunkId, r: int, i: int) -> ChunkId {
    ChunkId { x: (vc.x - r + i / (2 * r)) as i64, z: (vc.z - r + i % (2 * r)) as i64 }
}

/// The ids a scheduling pass admits, scanning the first `n` window
/// positions against world `w` with room for `cap` admissions: each absent
/// id in scan order, until the cap is reached.
pub open spec fn scheduled_ids(w: World, vc: ChunkId, r: int, n: nat, cap: int) -> Seq<ChunkId>
    decreases n,
{
    if n == 0 {
        Seq::empty()
    } else {
        let prev = scheduled_ids(w, vc, r, (n - 1) as nat, cap);
        let id = window_id(vc, r, n - 1);
        if w.spec_get(id) is None && prev.len() < cap {
            prev.push(id)
        } else {
            prev
        }
    }
}

/// A pass never admits more ids than the cap, nor than the scanned
/// positions.
pub proof fn lemma_admission_cap(w: World, vc: ChunkId, r: int, n: nat, cap: int)
    requires
        cap >= 0,
    ensures
        scheduled_ids(w, vc, r, n, cap).len() <= cap,
        scheduled_ids(w, vc, r, n, cap).len() <= n,
    decreases n,
{
    if n > 0 {
        lemma_admission_cap(w, vc, r, (n - 1) as nat, cap);
    }
}

/// Whatever a pass admits is an absent id of a scanned window position.
pub proof fn lemma_scheduled_members(w: World, vc: ChunkId, r: int, n: nat, cap: int)
    ensures
        forall|id: ChunkId|
            #[trigger] scheduled_ids(w, vc, r, n, cap).contains(id) ==> exists|i: int|
                0 <= i < n && window_id(vc, r, i) == id && w.spec_get(#[trigger] window_id(
                    vc,
                    r,
                    i,
                )) is None,
    decreases n,
{
    if n > 0 {
        lemma_scheduled_members(w, vc, r, (n - 1) as nat, cap);
        let prev = scheduled_ids(w, vc, r, (n - 1) as nat, cap);
        let id = window_id(vc, r, n - 1);
        if w.spec_get(id) is None && prev.len() < cap {
            assert forall|o: ChunkId| #[trigger]
                prev.push(id).contains(o) implies exists|i: int|
                0 <= i < n && window_id(vc, r, i) == o && w.spec_get(#[trigger] window_id(
                    vc,
                    r,
                    i,
                )) is None by {
                let k = choose|k: int| 0 <= k < prev.push(id).len() && prev.push(id)[k] == o;
                if k < prev.len() {
                    assert(prev[k] == o);
                    assert(prev.contains(o));
                } else {
                    assert(o == id);
                    assert(window_id(vc, r, n - 1) == o && w.spec_get(window_id(vc, r, n - 1)) is None);
                }
            }
        }
    }
}

/// A candidate a capped pass left out is still absent after the pass, so
/// no candidate is ever lost: a later pass with room admits it.
pub proof fn lemma_unadmitted_candidate_remains(
    w1: World,
    w2: World,
    vc: ChunkId,
    r: int,
    n: nat,
    cap: int,
    id: ChunkId,
)
    requires
        forall|o: ChunkId|
            #[trigger] w2.spec_get(o) == if scheduled_ids(w1, vc, r, n, cap).contains(o) {
                Some(crate::world::ChunkState::Pending)
            } else {
                w1.spec_get(o)
            },
        w1.spec_get(id) is None,
        !scheduled_ids(w1, vc, r, n, cap).contains(id),
    ensures
        w2.spec_get(id) is None,
{
}

/// Distinct scan positions of one window name distinct chunk ids.
pub proof fn lemma_window_id_injective(vc: ChunkId, r: int, i: int, j: int)
    requires
        wf_chunk_id(vc),
        0 < r <= 4096,
        0 <= i < 4 * r * r,
        0 <= j < 4 * r * r,
        i != j,
    ensures
        window_id(vc, r, i) != window_id(vc, r, j),
{
    assert(0 <= i / (2 * r) < 2 * r && 0 <= i % (2 * r) < 2 * r && i == (2 * r) * (i / (2 * r)) + i
        % (2 * r)) by (nonlinear_arith)
        requires
            0 < r,
            0 <= i < 4 * r * r,
    ;
    assert(0 <= j / (2 * r) < 2 * r && 0 <= j % (2 * r) < 2 * r && j == (2 * r) * (j / (2 * r)) + j
        % (2 * r)) by (nonlinear_arith)
        requires
            0 < r,
            0 <= j < 4 * r * r,
    ;
    if i / (2 * r) == j / (2 * r) && i % (2 * r) == j % (2 * r) {
        assert(i == j);
    }
}

/// With a cap at least the number of scanned positions, a pass admits
/// exactly the absent ids of the window, each once, in scan order.
pub proof fn lemma_schedule_window_exact(w: World, vc: ChunkId, r: int, n: nat, cap: int)
    requires
        wf_chunk_id(vc),
        0 < r <= 4096,
        n <= 4 * r * r,
        cap >= n,
    ensures
        forall|id: ChunkId|
            #[trigger] scheduled_ids(w, vc, r, n, cap).contains(id) <==> exists|i: int|
                0 <= i < n && window_id(vc, r, i) == id && w.spec_get(#[trigger] window_id(
                    vc,
                    r,
                    i,
                )) is None,
        scheduled_ids(w, vc, r, n, cap).no_duplicates(),
    decreases n,
{
    if n > 0 {
        lemma_schedule_window_exact(w, vc, r, (n - 1) as nat, cap);
        lemma_admission_cap(w, vc, r, (n - 1) as nat, cap);
        let prev = scheduled_ids(w, vc, r, (n - 1) as nat, cap);
        let id = window_id(vc, r, n - 1);
        if w.spec_get(id) is None {
            assert(prev.len() < cap);
            assert(!prev.contains(id)) by {
                if prev.contains(id) {
                    let i = choose|i: int|
                        0 <= i < n - 1 && window_id(vc, r, i) == id && w.spec_get(
                            #[trigger] window_id(vc, r, i),
                        ) is None;
                    lemma_window_id_injective(vc, r, i, n - 1);
                }
            }
            assert(scheduled_ids(w, vc, r, n, cap) == prev.push(id));
            assert forall|o: ChunkId| #[trigger]
                scheduled_ids(w, vc, r, n, cap).contains(o) implies exists|i: int|
                0 <= i < n && window_id(vc, r, i) == o && w.spec_get(#[trigger] window_id(
                    vc,
                    r,
                    i,
                )) is None by {
                if prev.contains(o) {
                } else {
                    assert(prev.push(id)[prev.len() as int] == id);
                    assert(o == id);
                    assert(window_id(vc, r, n - 1) == o && w.spec_get(window_id(vc, r, n - 1)) is None);
                }
            }
            assert forall|o: ChunkId|
                (exists|i: int|
                    0 <= i < n && window_id(vc, r, i) == o && w.spec_get(#[trigger] window_id(
                        vc,
                        r,
                        i,
                    )) is None) implies #[trigger] scheduled_ids(w, vc, r, n, cap).contains(
                o,
            ) by {
                let i = choose|i: int|
                    0 <= i < n && window_id(vc, r, i) == o && w.spec_get(#[trigger] window_id(
                        vc,
                        r,
                        i,
                    )) is None;
                if i < n - 1 {
                    assert(prev.contains(o));
                    assert(prev.push(id)[choose|k: int| 0 <= k < prev.len() && prev[k] == o]
                        == o);
                } else {
                    assert(prev.push(id)[prev.len() as int] == o);
                }
            }
        } else {
            assert forall|o: ChunkId|
                (exists|i: int|
                    0 <= i < n && window_id(vc, r, i) == o && w.spec_get(#[trigger] window_id(
                        vc,
                        r,
                        i,
                    )) is None) implies #[trigger] scheduled_ids(w, vc, r, n, cap).contains(
                o,
            ) by {
                let i = choose|i: int|
                    0 <= i < n && window_id(vc, r, i) == o && w.spec_get(#[trigger] window_id(
                        vc,
                        r,
                        i,
                    )) is None;
                assert(i < n - 1);
                assert(prev.contains(o));
            }
        }
    }
}

/// The driver: owns the world index and the queues, and makes every
/// scheduling, installation and remesh decision.
pub struct Engine {
    /// The world index.
    pub world: World,
    /// Chunk ids awaiting a generation task.
    pub load_queue: ChunkLoadQueue,
    /// Chunk ids awaiting a remesh task.
    pub remesh_queue: VecDeque<ChunkId>,
    /// Radius of the scheduling window, in chunk widths.
    pub render_distance: usize,
    /// Most chunk requests admitted per scheduling pass.
    pub admission_cap: usize,
}

impl Engine {
    /// Every resident chunk is well formed, every chunk whose geometry is
    /// stale and not being remeshed is queued for remeshing, and the
    /// window radius is sane.
    pub open spec fn wf(self) -> bool {
        &&& forall|id: ChunkId|
            match #[trigger] self.world.spec_get(id) {
                Some(ChunkState::Resident { chunk, dirty, meshing }) => chunk.wf(),
                _ => true,
            }
        &&& forall|id: ChunkId|
            (match #[trigger] self.world.spec_get(id) {
                Some(ChunkState::Resident { chunk, dirty, meshing }) => dirty && !meshing,
                _ => false,
            }) ==> self.remesh_queue@.contains(id)
        &&& 0 < self.render_distance <= 4096
    }

    /// A fresh driver around an empty world.
    pub fn new(render_distance: usize, admission_cap: usize) -> (e: Engine)
        requires
            0 < render_distance <= 4096,
        ensures
            e.wf(),
            forall|id: ChunkId| e.world.spec_get(id) is None,
            e.load_queue.0@ == Seq::<ChunkId>::empty(),
            e.remesh_queue@ == Seq::<ChunkId>::empty(),
            e.render_distance == render_distance,
            e.admission_cap == admission_cap,
    {
        Engine {
            world: World::new(),
            load_queue: ChunkLoadQueue(VecDeque::new()),
            remesh_queue: VecDeque::new(),
            render_distance,
            admission_cap,
        }
    }

    /// One scheduling pass: every chunk of the window around the viewer
    /// that is not yet requested is marked `Pending` and appended to the
    /// load queue, in scan order, up to the admission cap; candidates over
    /// the cap are left absent, to be admitted by a later pass.
    #[verifier::loop_isolation(false)]
    #[verifier::rlimit(100)]
    #[verifier::spinoff_prover]
    pub fn process_chunk_state_on_camera(&mut self, viewer: Vec3i)
        requires
            old(self).wf(),
            in_world(viewer),
        ensures
            final(self).wf(),
            final(self).render_distance == old(self).render_distance,
            final(self).admission_cap == old(self).admission_cap,
            final(self).remesh_queue == old(self).remesh_queue,
            ({
                let vc = id_for_position(viewer);
                let r = old(self).render_distance as int;
                let enq = scheduled_ids(
                    old(self).world,
                    vc,
                    r,
                    (4 * r * r) as nat,
                    old(self).admission_cap as int,
                );
                &&& final(self).load_queue.0@ == old(self).load_queue.0@ + enq
                &&& forall|id: ChunkId|
                    #[trigger] final(self).world.spec_get(id) == if enq.contains(id) {
                        Some(ChunkState::Pending)
                    } else {
                        old(self).world.spec_get(id)
                    }
            }),
    {
        let ghost w0 = self.world;
        let ghost q0 = self.load_queue.0@;
        let vc = get_id_for_position(viewer);
        let r = self.render_distance;
        let ghost ri = r as int;
        let cap = self.admission_cap;
        let width = 2 * r;
        let mut admitted: usize = 0;

        let mut ix: usize = 0;
        while ix < width
            invariant
                self.wf(),
                self.render_distance == r,
                self.admission_cap == cap,
                self.remesh_queue == old(self).remesh_queue,
                width == 2 * r,
                0 < r <= 4096,
                wf_chunk_id(vc),
                ix <= width,
                ({
                    let enq = scheduled_ids(w0, vc, ri, (2 * ri * ix) as nat, cap as int);
                    &&& admitted == enq.len()
                    &&& self.load_queue.0@ == q0 + enq
                    &&& forall|id: ChunkId|
                        #[trigger] self.world.spec_get(id) == if enq.contains(id) {
                            Some(ChunkState::Pending)
                        } else {
                            w0.spec_get(id)
                        }
                }),
            decreases width - ix,
        {
            let mut iz: usize = 0;
            while iz < width
                invariant
                    self.wf(),
                    self.render_distance == r,
                    self.admission_cap == cap,
                    self.remesh_queue == old(self).remesh_queue,
                    width == 2 * r,
                    0 < r <= 4096,
                    wf_chunk_id(vc),
                    ix < width,
                    iz <= width,
                    ({
                        let enq = scheduled_ids(
                            w0,
                            vc,
                            ri,
                            (2 * ri * ix + iz) as nat,
                            cap as int,
                        );
                        &&& admitted == enq.len()
                        &&& self.load_queue.0@ == q0 + enq
                        &&& forall|id: ChunkId|
                            #[trigger] self.world.spec_get(id) == if enq.contains(id) {
                                Some(ChunkState::Pending)
                            } else {
                                w0.spec_get(id)
                            }
                    }),
                decreases width - iz,
            {
                let ghost m = 2 * ri * ix + iz;
                let chunk_id = ChunkId::new(vc.x - r as i64 + ix as i64, vc.z - r as i64 + iz as i64);
                proof {
                    assert(m / (2 * ri) == ix && m % (2 * ri) == iz) by (nonlinear_arith)
                        requires
                            m == 2 * ri * ix + iz,
                            0 <= iz < 2 * ri,
                            0 <= ix < 2 * ri,
                            0 < ri,
                    ;
                    assert(window_id(vc, ri, m) == chunk_id);
                    assert(0 <= m < 4 * ri * ri) by (nonlinear_arith)
                        requires
                            m == 2 * ri * ix + iz,
                            0 <= iz < 2 * ri,
                            0 <= ix < 2 * ri,
                            0 < ri,
                    ;
                }
                let ghost enq_m = scheduled_ids(w0, vc, ri, m as nat, cap as int);
                proof {
                    lemma_scheduled_members(w0, vc, ri, m as nat, cap as int);
                    assert(!enq_m.contains(chunk_id)) by {
                        if enq_m.contains(chunk_id) {
                            let i = choose|i: int|
                                0 <= i < m && window_id(vc, ri, i) == chunk_id && w0.spec_get(
                                    #[trigger] window_id(vc, ri, i),
                                ) is None;
                            lemma_window_id_injective(vc, ri, i, m);
                        }
                    }
                }
                if !self.world.contains(chunk_id) && admitted < cap {
                    proof {
                        assert(self.world.spec_get(chunk_id) == w0.spec_get(chunk_id));
                        assert(w0.spec_get(chunk_id) is None);
                        assert(scheduled_ids(w0, vc, ri, (m + 1) as nat, cap as int) == enq_m.push(
                            chunk_id,
                        ));
                    }
                    let ghost wprev = self.world;
                    self.world.insert_pending(chunk_id);
                    self.load_queue.0.push_back(chunk_id);
                    admitted = admitted + 1;
                    proof {
                        let enq_n = enq_m.push(chunk_id);
                        assert(self.load_queue.0@ == q0 + enq_n) by {
                            assert((q0 + enq_m).push(chunk_id) =~= q0 + enq_n);
                        }
                        assert forall|id: ChunkId| #[trigger]
                            self.world.spec_get(id) == if enq_n.contains(id) {
                            Some(ChunkState::Pending)
                        } else {
                            w0.spec_get(id)
                        } by {
                            if id == chunk_id {
                                assert(enq_n[enq_n.len() - 1] == chunk_id);
                                assert(enq_n.contains(chunk_id));
                            } else {
                                assert(self.world.spec_get(id) == wprev.spec_get(id));
                                assert(enq_n.contains(id) <==> enq_m.contains(id)) by {
                                    if enq_n.contains(id) {
                                        let k = choose|k: int|
                                            0 <= k < enq_n.len() && enq_n[k] == id;
                                        assert(k < enq_m.len());
                                        assert(enq_m[k] == id);
                                    }
                                    if enq_m.contains(id) {
                                        let k = choose|k: int|
                                            0 <= k < enq_m.len() && enq_m[k] == id;
                                        assert(enq_n[k] == id);
                                    }
                                }
                            }
                        }
                    }
                } else {
                    proof {
                        assert(self.world.spec_get(chunk_id) == if enq_m.contains(chunk_id) {
                            Some(ChunkState::Pending)
                        } else {
                            w0.spec_get(chunk_id)
                        });
                        if w0.spec_get(chunk_id) is None && enq_m.len() < cap {
                            assert(self.world.spec_get(chunk_id) is None);
                            assert(false);
                        }
                        assert(scheduled_ids(w0, vc, ri, (m + 1) as nat, cap as int) == enq_m);
                    }
                }
                iz = iz + 1;
            }
            ix = ix + 1;
            proof {
                assert(2 * ri * ix == 2 * ri * (ix - 1) + 2 * ri) by (nonlinear_arith)
                    requires
                        0 < ri,
                        0 < ix,
                ;
            }
        }
        proof {
            assert(2 * ri * (2 * ri) == 4 * ri * ri) by (nonlinear_arith);
        }
    }

    /// The next chunk awaiting generation, in request order.
    pub fn next_load_request(&mut self) -> (r: Option<ChunkId>)
        requires
            old(self).wf(),
        ensures
            final(self).wf(),
            final(self).world == old(self).world,
            final(self).remesh_queue == old(self).remesh_queue,
            match r {
                Some(id) => old(self).load_queue.0@.len() > 0 && id == old(self).load_queue.0@[0]
                    && final(self).load_queue.0@ == old(self).load_queue.0@.subrange(
                    1,
                    old(self).load_queue.0@.len() as int,
                ),
                None => old(self).load_queue.0@.len() == 0 && final(self).load_queue.0@ == old(
                    self,
                ).load_queue.0@,
            },
    {
        self.load_queue.0.pop_front()
    }

    /// Install a finished generation task's chunk: a `Pending` coordinate
    /// becomes `Resident` with stale geometry and is queued for meshing.
    /// A completion for a coordinate that is no longer pending — it was
    /// never requested, or data is already installed — is discarded, and
    /// the call returns whether the chunk was installed.
    pub fn install_generated(&mut self, id: ChunkId, chunk: Chunk) -> (r: bool)
        requires
            old(self).wf(),
            chunk.wf(),
        ensures
            final(self).wf(),
            final(self).load_queue == old(self).load_queue,
            forall|o: ChunkId|
                o != id ==> final(self).world.spec_get(o) == old(self).world.spec_get(o),
            match old(self).world.spec_get(id) {
                Some(ChunkState::Pending) => r == true && final(self).world.spec_get(id) == Some(
                    ChunkState::Resident { chunk, dirty: true, meshing: false },
                ),
                _ => r == false && final(self).world.spec_get(id) == old(self).world.spec_get(id),
            },
    {
        let is_pending = match self.world.get_state(id) {
            Some(ChunkState::Pending) => true,
            _ => false,
        };
        if is_pending {
            self.world.put_state(id, ChunkState::Resident { chunk, dirty: true, meshing: false });
            self.remesh_queue.push_back(id);
            proof {
                assert forall|o: ChunkId|
                    (match #[trigger] self.world.spec_get(o) {
                        Some(ChunkState::Resident { chunk: c, dirty, meshing }) => dirty
                            && !meshing,
                        _ => false,
                    }) implies self.remesh_queue@.contains(o) by {
                    if o != id {
                        assert(old(self).remesh_queue@.contains(o));
                        let k = choose|k: int|
                            0 <= k < old(self).remesh_queue@.len() && old(self).remesh_queue@[k]
                                == o;
                        assert(self.remesh_queue@[k] == o);
                    } else {
                        assert(self.remesh_queue@[self.remesh_queue@.len() - 1] == id);
                    }
                }
            }
            true
        } else {
            false
        }
    }

    /// Write a voxel at a world position: the owning resident chunk is
    /// updated in place and marked dirty, and a remesh request for it is
    /// queued.  Returns whether anything changed.
    pub fn set_block(&mut self, position: Vec3i, voxel_type: VoxelType) -> (r: bool)
        requires
            old(self).wf(),
            in_world(position),
            wf_voxel(voxel_type),
        ensures
            final(self).wf(),
            final(self).load_queue == old(self).load_queue,
            forall|o: ChunkId|
                o != id_for_position(position) ==> final(self).world.spec_get(o) == old(
                    self,
                ).world.spec_get(o),
            match old(self).world.spec_get(id_for_position(position)) {
                Some(ChunkState::Resident { chunk, dirty, meshing }) => {
                    if 0 <= position.y < 16 {
                        &&& r == true
                        &&& match final(self).world.spec_get(id_for_position(position)) {
                            Some(ChunkState::Resident { chunk: c2, dirty: d2, meshing: m2 }) => {
                                &&& c2@ == chunk@.update(
                                    crate::chunk::lin(
                                        position.x - crate::coords::origin_of(
                                            id_for_position(position),
                                        ).x,
                                        position.y as int,
                                        position.z - crate::coords::origin_of(
                                            id_for_position(position),
                                        ).z,
                                    ),
                                    crate::chunk::pack16(voxel_type),
                                )
                                &&& d2 == true
                                &&& m2 == meshing
                            },
                            _ => false,
                        }
                    } else {
                        r == false
                    }
                },
                _ => r == false,
            },
    {
        let ghost wprev = self.world;
        let r = self.world.set_block(position, voxel_type);
        if r {
            let id = World::get_id_for_position(position);
            self.remesh_queue.push_back(id);
            proof {
                assert forall|o: ChunkId|
                    (match #[trigger] self.world.spec_get(o) {
                        Some(ChunkState::Resident { chunk: c, dirty, meshing }) => dirty
                            && !meshing,
                        _ => false,
                    }) implies self.remesh_queue@.contains(o) by {
                    if o == id {
                        assert(self.remesh_queue@[self.remesh_queue@.len() - 1] == id);
                    } else {
                        assert(wprev.spec_get(o) == self.world.spec_get(o));
                        assert(old(self).remesh_queue@.contains(o));
                        let k = choose|k: int|
                            0 <= k < old(self).remesh_queue@.len() && old(self).remesh_queue@[k]
                                == o;
                        assert(self.remesh_queue@[k] == o);
                    }
                }
            }
        }
        r
    }

    /// Pick the next chunk awaiting a remesh: its coordinate and an
    /// immutable snapshot of its voxel data, taken now, for the task to
    /// read.  The chunk's dirty flag is cleared and its in-flight marker
    /// set, so at most one remesh per chunk is ever outstanding; stale
    /// queue entries (already remeshing, or gone) are dropped.  `None`
    /// means no chunk awaits a remesh.
    pub fn take_dirty(&mut self) -> (r: Option<(ChunkId, Chunk)>)
        requires
            old(self).wf(),
        ensures
            final(self).wf(),
            final(self).load_queue == old(self).load_queue,
            match r {
                Some(p) => {
                    &&& (match old(self).world.spec_get(p.0) {
                        Some(ChunkState::Resident { chunk, dirty, meshing }) => {
                            &&& dirty == true
                            &&& meshing == false
                            &&& p.1@ == chunk@
                            &&& final(self).world.spec_get(p.0) == Some(
                                ChunkState::Resident { chunk, dirty: false, meshing: true },
                            )
                        },
                        _ => false,
                    })
                    &&& forall|o: ChunkId|
                        o != p.0 ==> final(self).world.spec_get(o) == old(self).world.spec_get(o)
                },
                None => {
                    &&& forall|o: ChunkId|
                        final(self).world.spec_get(o) == old(self).world.spec_get(o)
                    &&& forall|o: ChunkId|
                        !(match #[trigger] final(self).world.spec_get(o) {
                            Some(ChunkState::Resident { chunk, dirty, meshing }) => dirty
                                && !meshing,
                            _ => false,
                        })
                },
            },
    {
        loop
            invariant
                self.wf(),
                self.load_queue == old(self).load_queue,
                self.render_distance == old(self).render_distance,
                forall|o: ChunkId| self.world.spec_get(o) == old(self).world.spec_get(o),
            decreases self.remesh_queue@.len(),
        {
            let ghost qprev = self.remesh_queue@;
            let popped = self.remesh_queue.pop_front();
            match popped {
                None => {
                    return None;
                },
                Some(id) => {
                    let ghost wprev = self.world;
                    let taken = self.world.take_state(id);
                    match taken {
                        Some(ChunkState::Resident { chunk, dirty: true, meshing: false }) => {
                            let snap = chunk.snapshot();
                            self.world.put_state(
                                id,
                                ChunkState::Resident { chunk, dirty: false, meshing: true },
                            );
                            proof {
                                assert forall|o: ChunkId|
                                    (match #[trigger] self.world.spec_get(o) {
                                        Some(ChunkState::Resident { chunk: c, dirty, meshing }) =>
                                            dirty && !meshing,
                                        _ => false,
                                    }) implies self.remesh_queue@.contains(o) by {
                                    assert(o != id);
                                    assert(wprev.spec_get(o) == self.world.spec_get(o));
                                    assert(qprev.contains(o));
                                    let k = choose|k: int| 0 <= k < qprev.len() && qprev[k] == o;
                                    assert(qprev[0] == id);
                                    assert(k >= 1);
                                    assert(self.remesh_queue@[k - 1] == o);
                                }
                            }
                            return Some((id, snap));
                        },
                        Some(st) => {
                            self.world.put_state(id, st);
                            proof {
                                assert forall|o: ChunkId|
                                    self.world.spec_get(o) == wprev.spec_get(o) by {}
                                assert forall|o: ChunkId|
                                    (match #[trigger] self.world.spec_get(o) {
                                        Some(ChunkState::Resident { chunk: c, dirty, meshing }) =>
                                            dirty && !meshing,
                                        _ => false,
                                    }) implies self.remesh_queue@.contains(o) by {
                                    assert(qprev.contains(o));
                                    let k = choose|k: int| 0 <= k < qprev.len() && qprev[k] == o;
                                    if k == 0 {
                                        assert(o == id);
                                        assert(false);
                                    }
                                    assert(self.remesh_queue@[k - 1] == o);
                                }
                            }
                        },
                        None => {
                            proof {
                                assert forall|o: ChunkId|
                                    (match #[trigger] self.world.spec_get(o) {
                                        Some(ChunkState::Resident { chunk: c, dirty, meshing }) =>
                                            dirty && !meshing,
                                        _ => false,
                                    }) implies self.remesh_queue@.contains(o) by {
                                    assert(o != id);
                                    assert(qprev.contains(o));
                                    let k = choose|k: int| 0 <= k < qprev.len() && qprev[k] == o;
                                    assert(qprev[0] == id);
                                    assert(k >= 1);
                                    assert(self.remesh_queue@[k - 1] == o);
                                }
                            }
                        },
                    }
                },
            }
        }
    }

    /// Resolve a finished remesh task for `id`.  If the chunk was edited
    /// again while the task ran, the result is superseded: it should be
    /// discarded and a fresh remesh request is queued.  Otherwise the
    /// caller should install the geometry.  A completion for a chunk that
    /// is not awaiting one is stale and discarded; the world index state
    /// stays `Resident` throughout.
    pub fn install_mesh(&mut self, id: ChunkId) -> (r: MeshOutcome)
        requires
            old(self).wf(),
        ensures
            final(self).wf(),
            final(self).load_queue == old(self).load_queue,
            forall|o: ChunkId|
                o != id ==> final(self).world.spec_get(o) == old(self).world.spec_get(o),
            match old(self).world.spec_get(id) {
                Some(ChunkState::Resident { chunk, dirty, meshing }) => {
                    if meshing {
                        &&& final(self).world.spec_get(id) == Some(
                            ChunkState::Resident { chunk, dirty, meshing: false },
                        )
                        &&& r == if dirty {
                            MeshOutcome::Superseded
                        } else {
                            MeshOutcome::Applied
                        }
                    } else {
                        r == MeshOutcome::Stale && final(self).world.spec_get(id) == old(
                            self,
                        ).world.spec_get(id)
                    }
                },
                _ => r == MeshOutcome::Stale && final(self).world.spec_get(id) == old(
                    self,
                ).world.spec_get(id),
            },
    {
        let ghost wprev = self.world;
        let taken = self.world.take_state(id);
        match taken {
            Some(ChunkState::Resident { chunk, dirty, meshing: true }) => {
                self.world.put_state(
                    id,
                    ChunkState::Resident { chunk, dirty, meshing: false },
                );
                if dirty {
                    self.remesh_queue.push_back(id);
                    proof {
                        assert forall|o: ChunkId|
                            (match #[trigger] self.world.spec_get(o) {
                                Some(ChunkState::Resident { chunk: c, dirty: d, meshing: m }) => d
                                    && !m,
                                _ => false,
                            }) implies self.remesh_queue@.contains(o) by {
                            if o == id {
                                assert(self.remesh_queue@[self.remesh_queue@.len() - 1] == id);
                            } else {
                                assert(wprev.spec_get(o) == self.world.spec_get(o));
                                assert(old(self).remesh_queue@.contains(o));
                                let k = choose|k: int|
                                    0 <= k < old(self).remesh_queue@.len() && old(
                                        self,
                                    ).remesh_queue@[k] == o;
                                assert(self.remesh_queue@[k] == o);
                            }
                        }
                    }
                    MeshOutcome::Superseded
                } else {
                    proof {
                        assert forall|o: ChunkId|
                            (match #[trigger] self.world.spec_get(o) {
                                Some(ChunkState::Resident { chunk: c, dirty: d, meshing: m }) => d
                                    && !m,
                                _ => false,
                            }) implies self.remesh_queue@.contains(o) by {
                            assert(o != id);
                            assert(wprev.spec_get(o) == self.world.spec_get(o));
                        }
                    }
                    MeshOutcome::Applied
                }
            },
            Some(st) => {
                self.world.put_state(id, st);
                proof {
                    assert forall|o: ChunkId|
                        (match #[trigger] self.world.spec_get(o) {
                            Some(ChunkState::Resident { chunk: c, dirty: d, meshing: m }) => d
                                && !m,
                            _ => false,
                        }) implies self.remesh_queue@.contains(o) by {
                        assert(self.world.spec_get(o) == wprev.spec_get(o));
                    }
                }
                MeshOutcome::Stale
            },
            None => MeshOutcome::Stale,
        }
    }
}

/// One self-contained unit of background work: generate the chunk at
/// `world_position` from the terrain field, then immediately mesh it with
/// strategy `M`.  The task touches no shared state, so it can run on any
/// worker thread; generation always precedes meshing for the same chunk.
pub fn run_generation_task<M: ChunkMesher>(terrain: &Terrain, world_position: Vec3i) -> (r: (
    Chunk,
    Option<MeshBuffers>,
))
    requires
        terrain.wf(),
        gen_bounds(world_position),
        mesh_bounds(world_position),
        terrain.covers_rect(world_position.x - 1, world_position.z - 1, 18, 18),
    ensures
        r.0.wf(),
        r.0@ == generated_seq(*terrain, world_position),
        (r.1 is Some) <==> M::emits(r.0, world_position, *terrain),
        match r.1 {
            Some(m) => {
                &&& crate::mesh::wf_mesh(m)
                &&& m.indices@.len() > 0
                &&& m.positions@ == M::positions_of(r.0, world_position, *terrain)
                &&& m.normals@ == M::normals_of(r.0, world_position, *terrain)
                &&& m.uvs@ == M::uvs_of(r.0, world_position, *terrain)
                &&& m.voxel_indices@ == M::mats_of(r.0, world_position, *terrain)
                &&& m.texture_indices@ == M::texs_of(r.0, world_position, *terrain)
                &&& m.indices@ == M::indices_of(r.0, world_position, *terrain)
            },
            None => true,
        },
{
    let chunk = terrain.generate2(world_position);
    proof {
        assert(terrain.covers_rect(world_position.x as int, world_position.z as int, 16, 16));
    }
    let mesh = M::build(&chunk, world_position, terrain);
    (chunk, mesh)
}

} // verus!
