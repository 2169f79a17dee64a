use vstd::prelude::*;

use crate::cache::BufferCache;
use crate::descriptor::Descriptors;
use crate::handle::Handle;
use crate::keys::{MaterialKey, ModelMatrixKey, NormalMatrixKey, ProjMatrixKey, ViewMatrixKey};
use crate::swapchain::{Size2, Swapchain};
use crate::sync::{Fence, FenceStatus, Semaphore};

verus! {

/// Where a frame slot stands between acquisition and presentation.
#[derive(Clone, Copy, Debug, PartialEq, Eq, Structural)]
pub enum SlotState {
    /// Free to record into once acquired.
    Idle,
    /// Commands for one frame are being recorded.
    Recording,
    /// Handed to the device; its fence tracks the work.
    Submitted,
}

/// The camera a frame is drawn from.
#[derive(Clone, Copy, Debug, PartialEq, Eq, Structural)]
pub struct CameraDrawInfo {
    pub camera: Handle,
    pub node: Handle,
    pub model: Handle,
}

impl CameraDrawInfo {
    pub fn new(camera: Handle, node: Handle, model: Handle) -> (r: CameraDrawInfo)
        ensures
            r == (CameraDrawInfo { camera, node, model }),
    {
        CameraDrawInfo { camera, node, model }
    }
}

/// One primitive of one node to draw.
#[derive(Clone, Copy, Debug, PartialEq, Eq, Structural)]
pub struct DrawInfo {
    pub primitive: Handle,
    pub node: Handle,
    pub model: Handle,
}

impl DrawInfo {
    pub fn new(primitive: Handle, node: Handle, model: Handle) -> (r: DrawInfo)
        ensures
            r == (DrawInfo { primitive, node, model }),
    {
        DrawInfo { primitive, node, model }
    }
}

/// A primitive of a visible mesh and the shader its material selects.
#[derive(Clone, Copy, Debug, PartialEq, Eq, Structural)]
pub struct PrimitiveDraw {
    pub primitive: Handle,
    pub shader: u32,
}

/// One visible node of a model, as the scene walk hands it over.
pub struct SceneEntity {
    pub model: Handle,
    pub node: Handle,
    /// Whether the node holds a mesh.
    pub has_mesh: bool,
    /// The node's camera, or an invalid handle.
    pub camera: Handle,
    /// The primitives of the node's mesh, in mesh order; empty without a mesh.
    pub primitives: Vec<PrimitiveDraw>,
}

/// `new` is `old` with an entry under `key`: old entries kept as they were, and
/// on a miss one that `create` made.
pub open spec fn cached_one<K, B, F: Fn() -> B>(
    old: Map<K, B>,
    new: Map<K, B>,
    key: K,
    create: F,
) -> bool {
    &&& new.dom() == old.dom().insert(key)
    &&& forall|k: K| #[trigger] old.contains_key(k) ==> new[k] == old[k]
    &&& !old.contains_key(key) ==> create.ensures((), new[key])
}

proof fn lemma_cached_one<K, B, F: Fn() -> B>(old: Map<K, B>, key: K, v: B, create: F)
    requires
        old.contains_key(key) ==> v == old[key],
        !old.contains_key(key) ==> create.ensures((), v),
    ensures
        cached_one(old, old.insert(key, v), key, create),
{
    assert(old.insert(key, v).dom() =~= old.dom().insert(key));
}

/// The draws an entity adds, in primitive order.
pub open spec fn entity_draws(e: SceneEntity) -> Seq<(u32, DrawInfo)> {
    Seq::new(
        e.primitives@.len(),
        |i: int|
            (
                e.primitives@[i].shader,
                DrawInfo { primitive: e.primitives@[i].primitive, node: e.node, model: e.model },
            ),
    )
}

/// The draws of `shader`, in the order they were added.
pub open spec fn draws_of(draws: Seq<(u32, DrawInfo)>, shader: u32) -> Seq<DrawInfo>
    decreases draws.len(),
{
    if draws.len() == 0 {
        Seq::empty()
    } else {
        let prev = draws_of(draws.drop_last(), shader);
        if draws.last().0 == shader {
            prev.push(draws.last().1)
        } else {
            prev
        }
    }
}

/// The resources of one frame slot that survive the rebuilding of the surface.
pub struct FrameCache<B> {
    /// Uniform buffers for model matrices associated to nodes.
    pub model_buffers: BufferCache<ModelMatrixKey, B>,
    /// Uniform buffers for view matrices of nodes with cameras.
    pub view_buffers: BufferCache<ViewMatrixKey, B>,
    /// Uniform buffers for projection matrices of cameras.
    pub proj_buffers: BufferCache<ProjMatrixKey, B>,
    pub material_buffers: BufferCache<MaterialKey, B>,
    /// Uniform buffers for normal matrices of mesh nodes and camera nodes.
    pub normal_buffers: BufferCache<NormalMatrixKey, B>,
    pub descriptors: Descriptors,
    /// Raw handle of the command buffer the frame is recorded into.
    pub command_buffer: u64,
    pub fence: Fence,
    /// Signaled when the acquired image is ready to be rendered onto; the
    /// submission waits on it.
    pub image_ready: Semaphore,
    /// Signaled when rendering is finished; presentation waits on it.
    pub image_drawn: Semaphore,
}

impl<B> FrameCache<B> {
    pub open spec fn wf(&self) -> bool {
        &&& self.model_buffers.wf()
        &&& self.view_buffers.wf()
        &&& self.proj_buffers.wf()
        &&& self.material_buffers.wf()
        &&& self.normal_buffers.wf()
        &&& self.descriptors.wf()
        &&& self.fence.wf()
        &&& self.fence.status == FenceStatus::Signaled ==> self.fence.can_wait
    }

    /// Empty caches and a fence created signaled, so that the first use waits on nothing.
    pub fn new(
        command_buffer: u64,
        descriptor_pool: u64,
        fence: u64,
        image_ready: Semaphore,
        image_drawn: Semaphore,
    ) -> (r: FrameCache<B>)
        ensures
            r.wf(),
            r.model_buffers@ == Map::<ModelMatrixKey, B>::empty(),
            r.view_buffers@ == Map::<ViewMatrixKey, B>::empty(),
            r.proj_buffers@ == Map::<ProjMatrixKey, B>::empty(),
            r.material_buffers@ == Map::<MaterialKey, B>::empty(),
            r.normal_buffers@ == Map::<NormalMatrixKey, B>::empty(),
            r.descriptors.sets@.is_empty(),
            r.descriptors.pool == descriptor_pool,
            r.command_buffer == command_buffer,
            r.fence == (Fence { can_wait: true, fence, status: FenceStatus::Signaled }),
            r.image_ready == image_ready,
            r.image_drawn == image_drawn,
    {
        FrameCache {
            model_buffers: BufferCache::new(),
            view_buffers: BufferCache::new(),
            proj_buffers: BufferCache::new(),
            material_buffers: BufferCache::new(),
            normal_buffers: BufferCache::new(),
            descriptors: Descriptors::new(descriptor_pool),
            command_buffer,
            fence: Fence::signaled(fence),
            image_ready,
            image_drawn,
        }
    }

    /// Makes the command buffer safe to record again. Returns whether the caller
    /// must wait on the device fence and then reset it; the fence is then ready
    /// for the next submission.
    pub fn wait(&mut self) -> (r: bool)
        requires
            old(self).wf(),
        ensures
            final(self).wf(),
            r == old(self).fence.can_wait,
            final(self).fence == (if r {
                old(self).fence.waited().was_reset()
            } else {
                old(self).fence
            }),
            final(self).fence.status == FenceStatus::Unsignaled,
            *final(self) == (FrameCache { fence: final(self).fence, ..*old(self) }),
    {
        if self.fence.can_wait {
            self.fence.wait();
            self.fence.reset();
            true
        } else {
            false
        }
    }
}

/// What the device must be handed to run and show a recorded frame: the
/// command buffer, submitted after `wait` and signaling `signal` and `fence`,
/// then the presentation of `image_index` after `signal`.
#[derive(Clone, Copy, Debug, PartialEq, Eq, Structural)]
pub struct SubmitInfo {
    pub command_buffer: u64,
    pub wait: u64,
    pub signal: u64,
    pub fence: u64,
    pub image_index: u32,
}

/// One reusable slot: everything needed to record and submit one frame.
pub struct Frame<B> {
    /// The index of this slot, which is the index of its presentable image.
    pub id: usize,
    /// The number of slots in flight.
    pub in_flight_count: usize,
    /// The extent of the slot's attachments.
    pub extent: Size2,
    pub cache: FrameCache<B>,
    /// The surface transform the slot was made under.
    pub current_transform: u32,
    /// The draws of this frame with their shaders, in the order the update pass found them.
    pub draws: Vec<(u32, DrawInfo)>,
    pub state: SlotState,
}

impl<B> Frame<B> {
    pub open spec fn wf(&self) -> bool {
        &&& self.cache.wf()
        &&& self.id < self.in_flight_count
        &&& self.id <= u32::MAX
        &&& self.state == SlotState::Idle ==> self.cache.fence.status != FenceStatus::Pending
        &&& self.state == SlotState::Recording ==> self.cache.fence.status == FenceStatus::Unsignaled
        &&& self.state == SlotState::Submitted ==> self.cache.fence.status == FenceStatus::Pending
    }

    pub fn new(
        id: usize,
        in_flight_count: usize,
        extent: Size2,
        cache: FrameCache<B>,
        current_transform: u32,
    ) -> (r: Frame<B>)
        requires
            cache.wf(),
            cache.fence.status != FenceStatus::Pending,
            id < in_flight_count,
            id <= u32::MAX,
        ensures
            r.wf(),
            r == (Frame {
                id,
                in_flight_count,
                extent,
                cache,
                current_transform,
                draws: r.draws,
                state: SlotState::Idle,
            }),
            r.draws@.len() == 0,
    {
        Frame { id, in_flight_count, extent, cache, current_transform, draws: Vec::new(), state: SlotState::Idle }
    }

    pub fn get_size(&self) -> (r: Size2)
        ensures
            r == self.extent,
    {
        self.extent
    }

    /// Starts recording: the draws of the previous use of the slot are dropped,
    /// and the update pass may run.
    pub fn begin(&mut self)
        requires
            old(self).wf(),
            old(self).state == SlotState::Idle,
            old(self).cache.fence.status == FenceStatus::Unsignaled,
        ensures
            final(self).wf(),
            final(self).draws@.len() == 0,
            *final(self) == (Frame { state: SlotState::Recording, draws: final(self).draws, ..*old(self) }),
    {
        self.draws = Vec::new();
        self.state = SlotState::Recording;
    }

    /// The update pass for one visible node: its model matrix buffer when it
    /// holds a mesh or a camera, the view and projection buffers of its camera,
    /// and one draw per primitive of its mesh. Buffers found in the caches are
    /// kept as they are, to be uploaded again by the caller; missing ones are
    /// made by `create`.
    pub fn update_entity<F: Fn() -> B>(&mut self, entity: &SceneEntity, create: &F)
        requires
            old(self).wf(),
            old(self).state == SlotState::Recording,
            create.requires(()),
        ensures
            final(self).wf(),
            final(self).draws@ == old(self).draws@ + entity_draws(*entity),
            if entity.has_mesh || entity.camera.valid() {
                cached_one(
                    old(self).cache.model_buffers@,
                    final(self).cache.model_buffers@,
                    ModelMatrixKey { model: entity.model, node: entity.node },
                    *create,
                )
            } else {
                final(self).cache.model_buffers@ == old(self).cache.model_buffers@
            },
            if entity.camera.valid() {
                &&& cached_one(
                    old(self).cache.view_buffers@,
                    final(self).cache.view_buffers@,
                    ViewMatrixKey { model: entity.model, node: entity.node },
                    *create,
                )
                &&& cached_one(
                    old(self).cache.proj_buffers@,
                    final(self).cache.proj_buffers@,
                    ProjMatrixKey { model: entity.model, camera: entity.camera },
                    *create,
                )
            } else {
                &&& final(self).cache.view_buffers@ == old(self).cache.view_buffers@
                &&& final(self).cache.proj_buffers@ == old(self).cache.proj_buffers@
            },
            final(self).cache.material_buffers@ == old(self).cache.material_buffers@,
            final(self).cache.normal_buffers@ == old(self).cache.normal_buffers@,
            final(self).cache.descriptors == old(self).cache.descriptors,
            final(self).cache.fence == old(self).cache.fence,
            final(self).cache.image_ready == old(self).cache.image_ready,
            final(self).cache.image_drawn == old(self).cache.image_drawn,
            final(self).cache.command_buffer == old(self).cache.command_buffer,
            final(self).id == old(self).id,
            final(self).in_flight_count == old(self).in_flight_count,
            final(self).extent == old(self).extent,
            final(self).current_transform == old(self).current_transform,
            final(self).state == old(self).state,
    {
        let model = entity.model;
        let node = entity.node;
        if entity.has_mesh || entity.camera.is_valid() {
            let key = ModelMatrixKey { model, node };
            let ghost before = self.cache.model_buffers@;
            let b = self.cache.model_buffers.get_or_create(key, || -> (b: B)
                requires
                    create.requires(()),
                ensures
                    create.ensures((), b),
                { create() });
            proof {
                lemma_cached_one(before, key, *b, *create);
            }
            if entity.camera.is_valid() {
                let view_key = ViewMatrixKey { model, node };
                let ghost before = self.cache.view_buffers@;
            let vb = self.cache.view_buffers.get_or_create(view_key, || -> (b: B)
                    requires
                        create.requires(()),
                    ensures
                        create.ensures((), b),
                    { create() });
                proof {
                    lemma_cached_one(before, view_key, *vb, *create);
                }
                let proj_key = ProjMatrixKey { model, camera: entity.camera };
                let ghost before = self.cache.proj_buffers@;
            let pb = self.cache.proj_buffers.get_or_create(proj_key, || -> (b: B)
                    requires
                        create.requires(()),
                    ensures
                        create.ensures((), b),
                    { create() });
                proof {
                    lemma_cached_one(before, proj_key, *pb, *create);
                }
            }
        }
        let ghost start = self.draws@;
        let ghost before_draws = *self;
        let mut i: usize = 0;
        while i < entity.primitives.len()
            invariant
                0 <= i <= entity.primitives@.len(),
                *self == (Frame { draws: self.draws, ..before_draws }),
                node == entity.node,
                model == entity.model,
                self.draws@ == start + entity_draws(*entity).take(i as int),
            decreases entity.primitives@.len() - i,
        {
            let p = entity.primitives[i];
            assert(entity_draws(*entity).len() == entity.primitives@.len());
            assert(entity_draws(*entity)[i as int] == (
                p.shader,
                DrawInfo { primitive: p.primitive, node, model },
            ));
            self.draws.push((p.shader, DrawInfo::new(p.primitive, node, model)));
            i += 1;
            proof {
                assert(entity_draws(*entity).take(i as int) =~= entity_draws(*entity).take(
                    (i - 1) as int,
                ).push(entity_draws(*entity)[(i - 1) as int]));
            }
        }
        proof {
            assert(entity_draws(*entity).take(i as int) =~= entity_draws(*entity));
        }
    }

    /// The update pass for the materials of a model: a color buffer for each of
    /// its `material_count` materials, found or made by `create`.
    pub fn update_materials<F: Fn() -> B>(&mut self, model: Handle, material_count: u32, create: &F)
        requires
            old(self).wf(),
            old(self).state == SlotState::Recording,
            create.requires(()),
        ensures
            final(self).wf(),
            final(self).cache.material_buffers@.dom() == old(self).cache.material_buffers@.dom().union(
                Set::new(|k: MaterialKey| k.model == model && k.material.id < material_count),
            ),
            forall|k: MaterialKey| #[trigger]
                old(self).cache.material_buffers@.contains_key(k)
                    ==> final(self).cache.material_buffers@[k] == old(self).cache.material_buffers@[k],
            forall|k: MaterialKey| #[trigger]
                final(self).cache.material_buffers@.contains_key(k)
                    && !old(self).cache.material_buffers@.contains_key(k)
                    ==> create.ensures((), final(self).cache.material_buffers@[k]),
            *final(self) == (Frame {
                cache: FrameCache {
                    material_buffers: final(self).cache.material_buffers,
                    ..old(self).cache
                },
                ..*old(self)
            }),
    {
        let ghost start = self.cache.material_buffers@;
        let ghost snapshot = *self;
        let mut i: u32 = 0;
        while i < material_count
            invariant
                0 <= i <= material_count,
                self.wf(),
                *self == (Frame {
                    cache: FrameCache { material_buffers: self.cache.material_buffers, ..snapshot.cache },
                    ..snapshot
                }),
                create.requires(()),
                self.cache.material_buffers@.dom() == start.dom().union(
                    Set::new(|k: MaterialKey| k.model == model && k.material.id < i),
                ),
                forall|k: MaterialKey| #[trigger]
                    start.contains_key(k) ==> self.cache.material_buffers@[k] == start[k],
                forall|k: MaterialKey| #[trigger]
                    self.cache.material_buffers@.contains_key(k) && !start.contains_key(k)
                        ==> create.ensures((), self.cache.material_buffers@[k]),
            decreases material_count - i,
        {
            let key = MaterialKey { model, material: Handle::new(i) };
            let ghost before = self.cache.material_buffers@;
            let b = self.cache.material_buffers.get_or_create(key, || -> (b: B)
                requires
                    create.requires(()),
                ensures
                    create.ensures((), b),
                { create() });
            proof {
                lemma_cached_one(before, key, *b, *create);
            }
            i += 1;
            proof {
                assert(self.cache.material_buffers@.dom() =~= start.dom().union(
                    Set::new(|k: MaterialKey| k.model == model && k.material.id < i),
                ));
            }
        }
    }

    /// The shaders that this frame's draws use, each once, in the order they first appear.
    pub fn shaders(&self) -> (r: Vec<u32>)
        ensures
            r@.no_duplicates(),
            forall|s: u32| r@.contains(s) <==> exists|j: int| 0 <= j < self.draws@.len() && #[trigger] self.draws@[j].0 == s,
    {
        let mut r: Vec<u32> = Vec::new();
        let mut i: usize = 0;
        while i < self.draws.len()
            invariant
                0 <= i <= self.draws@.len(),
                r@.no_duplicates(),
                forall|s: u32| r@.contains(s) <==> exists|j: int| 0 <= j < i && #[trigger] self.draws@[j].0 == s,
            decreases self.draws@.len() - i,
        {
            let s = self.draws[i].0;
            let mut seen = false;
            let mut k: usize = 0;
            while k < r.len()
                invariant
                    0 <= k <= r@.len(),
                    seen <==> exists|m: int| 0 <= m < k && r@[m] == s,
                decreases r@.len() - k,
            {
                if r[k] == s {
                    seen = true;
                }
                k += 1;
            }
            let ghost old_r = r@;
            if !seen {
                r.push(s);
                proof {
                    assert forall|a: int, b: int| 0 <= a < r@.len() && 0 <= b < r@.len() && a != b implies r@[a] != r@[b] by {
                        if a == old_r.len() {
                            assert(!old_r.contains(s) || old_r[b] != s);
                        } else if b == old_r.len() {
                            assert(old_r[a] != s);
                        }
                    }
                    assert forall|t: u32| r@.contains(t) implies old_r.contains(t) || t == s by {
                        let m = choose|m: int| 0 <= m < r@.len() && r@[m] == t;
                        if m < old_r.len() {
                            assert(old_r[m] == t);
                        }
                    }
                    assert(r@[old_r.len() as int] == s);
                }
            }
            proof {
                assert(self.draws@[i as int].0 == s);
                assert forall|t: u32| r@.contains(t) <==> exists|j: int| 0 <= j < i + 1 && #[trigger] self.draws@[j].0 == t by {
                    if r@.contains(t) && t != s {
                        assert(old_r.contains(t));
                    }
                    if exists|j: int| 0 <= j < i + 1 && #[trigger] self.draws@[j].0 == t {
                        if t != s {
                            let j = choose|j: int| 0 <= j < i + 1 && #[trigger] self.draws@[j].0 == t;
                            assert(j < i);
                            assert(old_r.contains(t));
                            let m = choose|m: int| 0 <= m < old_r.len() && old_r[m] == t;
                            assert(r@[m] == t);
                        } else if seen {
                            let m = choose|m: int| 0 <= m < r@.len() && r@[m] == s;
                            assert(r@.contains(s));
                        } else {
                            assert(r@[old_r.len() as int] == s);
                        }
                    }
                }
            }
            i += 1;
        }
        r
    }

    /// The draws that use `shader`, in the order the update pass found them.
    pub fn draw_infos(&self, shader: u32) -> (r: Vec<DrawInfo>)
        ensures
            r@ == draws_of(self.draws@, shader),
    {
        let mut r: Vec<DrawInfo> = Vec::new();
        let mut i: usize = 0;
        while i < self.draws.len()
            invariant
                0 <= i <= self.draws@.len(),
                r@ == draws_of(self.draws@.take(i as int), shader),
            decreases self.draws@.len() - i,
        {
            let d = self.draws[i];
            if d.0 == shader {
                r.push(d.1);
            }
            proof {
                assert(self.draws@.take(i + 1).drop_last() =~= self.draws@.take(i as int));
            }
            i += 1;
        }
        proof {
            assert(self.draws@.take(i as int) =~= self.draws@);
        }
        r
    }

    /// Ends recording and hands the frame to the device: its fence becomes the
    /// completion token of the submission, which waits on the image-ready
    /// semaphore and signals the image-drawn one, and presentation of the
    /// slot's image waits on the latter.
    pub fn submit(&mut self) -> (r: SubmitInfo)
        requires
            old(self).wf(),
            old(self).state == SlotState::Recording,
        ensures
            final(self).wf(),
            r == (SubmitInfo {
                command_buffer: old(self).cache.command_buffer,
                wait: old(self).cache.image_ready.semaphore,
                signal: old(self).cache.image_drawn.semaphore,
                fence: old(self).cache.fence.fence,
                image_index: old(self).id as u32,
            }),
            final(self).cache.fence == (Fence {
                can_wait: true,
                fence: old(self).cache.fence.fence,
                status: FenceStatus::Pending,
            }),
            *final(self) == (Frame {
                state: SlotState::Submitted,
                cache: FrameCache { fence: final(self).cache.fence, ..old(self).cache },
                ..*old(self)
            }),
    {
        self.cache.fence.submit();
        self.state = SlotState::Submitted;
        SubmitInfo {
            command_buffer: self.cache.command_buffer,
            wait: self.cache.image_ready.semaphore,
            signal: self.cache.image_drawn.semaphore,
            fence: self.cache.fence.fence,
            image_index: self.id as u32,
        }
    }
}

/// The device result code of a surface that no longer matches its window.
pub const ERROR_OUT_OF_DATE: i32 = -1000001004;

/// Why no frame could be acquired, presented or rebuilt.
#[derive(Clone, Copy, Debug, PartialEq, Eq, Structural)]
pub enum FrameError {
    /// The surface is out of date or suboptimal: rebuild it, then retry the frame.
    RecreateNeeded,
    /// The slot of this image index is not in the pool: out of range, or
    /// acquired and never presented back.
    SlotUnavailable(u32),
    /// The rebuilt surface does not offer one image, and one new semaphore, per slot.
    SlotCountChanged,
    /// Any other device result code.
    Device(i32),
}

/// The error for a device result code reported by image acquisition.
pub open spec fn acquire_error(code: i32) -> FrameError {
    if code == ERROR_OUT_OF_DATE {
        FrameError::RecreateNeeded
    } else {
        FrameError::Device(code)
    }
}

/// The outcome of presentation, from what the device reported: `Ok(suboptimal)`
/// or an error code. A suboptimal or out-of-date surface asks for recreation.
pub open spec fn present_outcome_spec(result: Result<bool, i32>) -> Result<(), FrameError> {
    match result {
        Ok(false) => Ok(()),
        Ok(true) => Err(FrameError::RecreateNeeded),
        Err(code) => Err(acquire_error(code)),
    }
}

pub fn present_outcome(result: Result<bool, i32>) -> (r: Result<(), FrameError>)
    ensures
        r == present_outcome_spec(result),
{
    match result {
        Ok(false) => Ok(()),
        Ok(true) => Err(FrameError::RecreateNeeded),
        Err(code) => if code == ERROR_OUT_OF_DATE {
            Err(FrameError::RecreateNeeded)
        } else {
            Err(FrameError::Device(code))
        },
    }
}

/// A slot handed out by `next_frame`, with what the caller must do before
/// recording into it: wait on its fence and reset it when `wait_fence` holds,
/// and destroy the `retired` semaphore that the new one replaced. `blocking`
/// tells whether that wait is on a submission that may still be running.
pub struct NextFrame<B> {
    pub frame: Frame<B>,
    pub wait_fence: bool,
    pub blocking: bool,
    pub retired: Semaphore,
}

/// An acquisition that failed, with the semaphore made for it, left unused.
#[derive(Clone, Copy, Debug, PartialEq, Eq, Structural)]
pub struct AcquireFailure {
    pub error: FrameError,
    pub unused: Semaphore,
}

/// The frames of a presentation surface: one slot per presentable image. A slot
/// is empty while the frame it holds is handed out for recording.
pub struct SwapchainFrames<B> {
    pub frames: Vec<Option<Frame<B>>>,
    pub swapchain: Swapchain,
}

/// A slot at rest in the pool at index `i` of `n`: not being recorded.
pub open spec fn slot_ok<B>(f: Frame<B>, i: int, n: int) -> bool {
    &&& f.wf()
    &&& f.id == i
    &&& f.in_flight_count == n
    &&& f.state != SlotState::Recording
}

/// `f` is the frame `cache` started as, in slot `i` of `n` of `swapchain`.
pub open spec fn fresh_frame<B>(f: Frame<B>, i: int, n: int, swapchain: Swapchain, cache: FrameCache<B>) -> bool {
    &&& f.id == i
    &&& f.in_flight_count == n
    &&& f.extent == swapchain.extent
    &&& f.cache == cache
    &&& f.current_transform == swapchain.current_transform
    &&& f.draws@.len() == 0
    &&& f.state == SlotState::Idle
}

impl<B> SwapchainFrames<B> {
    pub open spec fn wf(&self) -> bool {
        &&& self.swapchain.image_count == self.frames@.len()
        &&& self.frames@.len() <= u32::MAX
        &&& forall|i: int| 0 <= i < self.frames@.len() && (#[trigger] self.frames@[i]).is_some()
            ==> slot_ok(self.frames@[i].unwrap(), i, self.frames@.len() as int)
    }

    /// Whether every slot is in the pool.
    pub open spec fn all_home(&self) -> bool {
        forall|i: int| 0 <= i < self.frames@.len() ==> (#[trigger] self.frames@[i]).is_some()
    }

    /// One slot per image of `swapchain`, each with its resources from `caches`.
    pub fn new(swapchain: Swapchain, caches: Vec<FrameCache<B>>) -> (r: SwapchainFrames<B>)
        requires
            caches@.len() == swapchain.image_count,
            caches@.len() <= u32::MAX,
            forall|i: int| 0 <= i < caches@.len() ==> (#[trigger] caches@[i]).wf()
                && caches@[i].fence.status != FenceStatus::Pending,
        ensures
            r.wf(),
            r.all_home(),
            r.swapchain == swapchain,
            r.frames@.len() == caches@.len(),
            forall|i: int| 0 <= i < caches@.len() ==> fresh_frame(
                #[trigger] r.frames@[i].unwrap(),
                i,
                caches@.len() as int,
                swapchain,
                caches@[i],
            ),
    {
        let n = caches.len();
        let ghost all = caches@;
        let mut caches = caches;
        let mut frames: Vec<Option<Frame<B>>> = Vec::new();
        let mut i: usize = 0;
        while i < n
            invariant
                0 <= i <= n,
                n == all.len(),
                n <= u32::MAX,
                caches@ == all.skip(i as int),
                frames@.len() == i,
                forall|k: int| 0 <= k < all.len() ==> (#[trigger] all[k]).wf()
                    && all[k].fence.status != FenceStatus::Pending,
                forall|k: int| 0 <= k < i ==> (#[trigger] frames@[k]).is_some()
                    && slot_ok(frames@[k].unwrap(), k, n as int)
                    && fresh_frame(frames@[k].unwrap(), k, n as int, swapchain, all[k]),
            decreases n - i,
        {
            assert(caches@[0] == all[i as int]);
            let cache = caches.remove(0);
            let frame = Frame::new(i, n, swapchain.extent, cache, swapchain.current_transform);
            frames.push(Some(frame));
            proof {
                assert(caches@ =~= all.skip(i + 1));
            }
            i += 1;
        }
        SwapchainFrames { frames, swapchain }
    }

    /// Hands out the slot of the image that acquisition returned, once its
    /// previous frame has completed on the device, with `image_ready` as the
    /// semaphore that the acquisition signals. A failed acquisition reports
    /// whether the surface must be rebuilt; nothing is done in place.
    pub fn next_frame(&mut self, acquired: Result<u32, i32>, image_ready: Semaphore) -> (r: Result<
        NextFrame<B>,
        AcquireFailure,
    >)
        requires
            old(self).wf(),
        ensures
            final(self).wf(),
            final(self).swapchain == old(self).swapchain,
            match acquired {
                Err(code) => {
                    &&& r == Err::<NextFrame<B>, AcquireFailure>(
                        AcquireFailure { error: acquire_error(code), unused: image_ready },
                    )
                    &&& final(self).frames@ == old(self).frames@
                },
                Ok(i) => if i < old(self).frames@.len() && old(self).frames@[i as int].is_some() {
                    let f = old(self).frames@[i as int].unwrap();
                    &&& r.is_ok()
                    &&& final(self).frames@ == old(self).frames@.update(i as int, None)
                    &&& r.unwrap().frame.wf()
                    &&& r.unwrap().wait_fence == f.cache.fence.can_wait
                    &&& f.cache.fence.status == FenceStatus::Pending ==> r.unwrap().wait_fence
                        && r.unwrap().blocking
                    &&& r.unwrap().blocking == f.cache.fence.blocks()
                    &&& r.unwrap().retired == f.cache.image_ready
                    &&& r.unwrap().frame.cache.fence == (if f.cache.fence.can_wait {
                        f.cache.fence.waited().was_reset()
                    } else {
                        f.cache.fence
                    })
                    &&& r.unwrap().frame.cache.fence.status == FenceStatus::Unsignaled
                    &&& r.unwrap().frame == (Frame {
                        state: SlotState::Idle,
                        cache: FrameCache {
                            fence: r.unwrap().frame.cache.fence,
                            image_ready,
                            ..f.cache
                        },
                        ..f
                    })
                } else {
                    &&& r == Err::<NextFrame<B>, AcquireFailure>(
                        AcquireFailure { error: FrameError::SlotUnavailable(i), unused: image_ready },
                    )
                    &&& final(self).frames@ == old(self).frames@
                },
            },
    {
        match acquired {
            Err(code) => {
                let error = if code == ERROR_OUT_OF_DATE {
                    FrameError::RecreateNeeded
                } else {
                    FrameError::Device(code)
                };
                Err(AcquireFailure { error, unused: image_ready })
            },
            Ok(index) => {
                let i = index as usize;
                if i >= self.frames.len() {
                    return Err(AcquireFailure { error: FrameError::SlotUnavailable(index), unused: image_ready });
                }
                let mut slot: Option<Frame<B>> = None;
                std::mem::swap(&mut slot, &mut self.frames[i]);
                match slot {
                    None => Err(AcquireFailure { error: FrameError::SlotUnavailable(index), unused: image_ready }),
                    Some(mut frame) => {
                        let ghost f = frame;
                        assert(slot_ok(f, i as int, self.frames@.len() as int));
                        let blocking = frame.cache.fence.can_wait && frame.cache.fence.status == FenceStatus::Pending;
                        let wait_fence = frame.cache.wait();
                        let retired = frame.cache.image_ready;
                        frame.cache.image_ready = image_ready;
                        frame.state = SlotState::Idle;
                        proof {
                            assert forall|k: int| 0 <= k < self.frames@.len() && (#[trigger] self.frames@[k]).is_some()
                                implies slot_ok(self.frames@[k].unwrap(), k, self.frames@.len() as int) by {
                                assert(k != i);
                                assert(self.frames@[k] == old(self).frames@[k]);
                            }
                        }
                        Ok(NextFrame { frame, wait_fence, blocking, retired })
                    },
                }
            },
        }
    }

    /// Puts a recorded frame back into its slot and hands it to the device.
    /// Returns what the caller submits and presents; the outcome of presentation
    /// is then read with `present_outcome`.
    pub fn present(&mut self, frame: Frame<B>) -> (r: SubmitInfo)
        requires
            old(self).wf(),
            frame.wf(),
            frame.state == SlotState::Recording,
            frame.in_flight_count == old(self).frames@.len(),
        ensures
            final(self).wf(),
            final(self).swapchain == old(self).swapchain,
            r == (SubmitInfo {
                command_buffer: frame.cache.command_buffer,
                wait: frame.cache.image_ready.semaphore,
                signal: frame.cache.image_drawn.semaphore,
                fence: frame.cache.fence.fence,
                image_index: frame.id as u32,
            }),
            final(self).frames@ == old(self).frames@.update(
                frame.id as int,
                Some(
                    Frame {
                        state: SlotState::Submitted,
                        cache: FrameCache {
                            fence: Fence {
                                can_wait: true,
                                fence: frame.cache.fence.fence,
                                status: FenceStatus::Pending,
                            },
                            ..frame.cache
                        },
                        ..frame
                    },
                ),
            ),
    {
        let mut frame = frame;
        let id = frame.id;
        let r = frame.submit();
        let ghost g = frame;
        self.frames.set(id, Some(frame));
        proof {
            assert forall|k: int| 0 <= k < self.frames@.len() && (#[trigger] self.frames@[k]).is_some()
                implies slot_ok(self.frames@[k].unwrap(), k, self.frames@.len() as int) by {
                if k != id {
                    assert(self.frames@[k] == old(self).frames@[k]);
                } else {
                    assert(self.frames@[k].unwrap() == g);
                }
            }
        }
        r
    }

    /// Rebuilds the slots for a new set of surface images, once the device is
    /// idle: each slot takes the new image extent and its new image-ready
    /// semaphore from `image_ready`, and keeps its caches, fence and image-drawn
    /// semaphore. Returns the replaced semaphores, for the caller to destroy.
    pub fn recreate_swapchain(&mut self, swapchain: Swapchain, image_ready: &Vec<Semaphore>) -> (r: Result<
        Vec<Semaphore>,
        FrameError,
    >)
        requires
            old(self).wf(),
        ensures
            final(self).wf(),
            (swapchain.image_count != old(self).frames@.len() || image_ready@.len()
                != old(self).frames@.len()) ==> r == Err::<Vec<Semaphore>, FrameError>(
                FrameError::SlotCountChanged,
            ),
            r.is_ok() <==> (swapchain.image_count == old(self).frames@.len() && image_ready@.len()
                == old(self).frames@.len() && old(self).all_home()),
            r.is_err() ==> *final(self) == *old(self),
            match r {
                Err(FrameError::SlotUnavailable(i)) => i < old(self).frames@.len()
                    && old(self).frames@[i as int].is_none(),
                Err(e) => e == FrameError::SlotCountChanged,
                Ok(retired) => {
                    &&& final(self).swapchain == swapchain
                    &&& final(self).frames@.len() == old(self).frames@.len()
                    &&& final(self).all_home()
                    &&& retired@.len() == old(self).frames@.len()
                    &&& forall|i: int| 0 <= i < old(self).frames@.len() ==> {
                        let f = old(self).frames@[i].unwrap();
                        &&& #[trigger] retired@[i] == f.cache.image_ready
                        &&& final(self).frames@[i] == Some(
                            Frame {
                                extent: swapchain.extent,
                                cache: FrameCache { image_ready: image_ready@[i], ..f.cache },
                                ..f
                            },
                        )
                    }
                },
            },
    {
        let n = self.frames.len();
        if swapchain.image_count != n || image_ready.len() != n {
            return Err(FrameError::SlotCountChanged);
        }
        let mut k: usize = 0;
        while k < n
            invariant
                0 <= k <= n,
                n == self.frames@.len(),
                n == swapchain.image_count,
                n == image_ready@.len(),
                n <= u32::MAX,
                *self == *old(self),
                old(self).wf(),
                forall|j: int| 0 <= j < k ==> (#[trigger] self.frames@[j]).is_some(),
            decreases n - k,
        {
            if self.frames[k].is_none() {
                return Err(FrameError::SlotUnavailable(k as u32));
            }
            k += 1;
        }
        let ghost start = self.frames@;
        let mut retired: Vec<Semaphore> = Vec::new();
        let mut i: usize = 0;
        while i < n
            invariant
                0 <= i <= n,
                n == self.frames@.len(),
                n == start.len(),
                n == image_ready@.len(),
                n <= u32::MAX,
                self.swapchain == old(self).swapchain,
                start == old(self).frames@,
                retired@.len() == i,
                forall|j: int| 0 <= j < n ==> (#[trigger] start[j]).is_some()
                    && slot_ok(start[j].unwrap(), j, n as int),
                forall|j: int| i <= j < n ==> #[trigger] self.frames@[j] == start[j],
                forall|j: int| 0 <= j < i ==> #[trigger] retired@[j] == start[j].unwrap().cache.image_ready,
                forall|j: int| 0 <= j < i ==> #[trigger] self.frames@[j] == Some(
                    Frame {
                        extent: swapchain.extent,
                        cache: FrameCache { image_ready: image_ready@[j], ..start[j].unwrap().cache },
                        ..start[j].unwrap()
                    },
                ),
            decreases n - i,
        {
            let mut slot: Option<Frame<B>> = None;
            std::mem::swap(&mut slot, &mut self.frames[i]);
            match slot {
                Some(mut frame) => {
                    retired.push(frame.cache.image_ready);
                    frame.cache.image_ready = image_ready[i];
                    frame.extent = swapchain.extent;
                    self.frames.set(i, Some(frame));
                },
                None => {
                    assert(start[i as int].is_some());
                },
            }
            i += 1;
        }
        self.swapchain = swapchain;
        proof {
            assert forall|j: int| 0 <= j < self.frames@.len() && (#[trigger] self.frames@[j]).is_some()
                implies slot_ok(self.frames@[j].unwrap(), j, self.frames@.len() as int) by {
                assert(slot_ok(start[j].unwrap(), j, n as int));
            }
            assert forall|j: int| 0 <= j < n implies {
                let f = old(self).frames@[j].unwrap();
                &&& #[trigger] retired@[j] == f.cache.image_ready
                &&& self.frames@[j] == Some(
                    Frame {
                        extent: swapchain.extent,
                        cache: FrameCache { image_ready: image_ready@[j], ..f.cache },
                        ..f
                    },
                )
            } by {
                assert(self.frames@[j] == Some(
                    Frame {
                        extent: swapchain.extent,
                        cache: FrameCache { image_ready: image_ready@[j], ..start[j].unwrap().cache },
                        ..start[j].unwrap()
                    },
                ));
            }
            assert forall|j: int| 0 <= j < n implies (#[trigger] self.frames@[j]).is_some() by {
                assert(self.frames@[j] == Some(
                    Frame {
                        extent: swapchain.extent,
                        cache: FrameCache { image_ready: image_ready@[j], ..start[j].unwrap().cache },
                        ..start[j].unwrap()
                    },
                ));
            }
        }
        Ok(retired)
    }
}

} // verus!
