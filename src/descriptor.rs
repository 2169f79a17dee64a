use vstd::prelude::*;

use crate::cache::{BufferCache, CacheKey};
use crate::handle::Handle;

verus! {

/// Identifies the descriptor sets that one pipeline binds for one scene entity.
#[derive(Clone, Copy, Debug, PartialEq, Eq, Structural, Hash)]
pub struct DescriptorKey {
    /// Unique per pipeline: the raw handle of its pipeline layout.
    pub layout: u64,
    /// Unique per model.
    pub model: Handle,
    /// Unique per node, for model transforms.
    pub node: Handle,
    /// Unique per material, for material buffers.
    pub material: Handle,
    /// Unique per camera, for view and projection matrices.
    pub camera: Handle,
}

impl CacheKey for DescriptorKey {
    fn same_key(&self, other: &Self) -> (r: bool) {
        *self == *other
    }
}

impl Default for DescriptorKey {
    fn default() -> (r: DescriptorKey)
        ensures
            r == (DescriptorKey {
                layout: 0,
                model: Handle { id: crate::handle::HANDLE_NONE },
                node: Handle { id: crate::handle::HANDLE_NONE },
                material: Handle { id: crate::handle::HANDLE_NONE },
                camera: Handle { id: crate::handle::HANDLE_NONE },
            }),
    {
        DescriptorKey {
            layout: 0,
            model: Handle::none(),
            node: Handle::none(),
            material: Handle::none(),
            camera: Handle::none(),
        }
    }
}

impl DescriptorKey {
    pub fn builder() -> (r: DescriptorKeyBuilder)
        ensures
            r.build_spec() == DescriptorKey::default_spec(),
    {
        DescriptorKeyBuilder::default()
    }

    /// The key with a null layout and no entity.
    pub open spec fn default_spec() -> DescriptorKey {
        DescriptorKey {
            layout: 0,
            model: Handle { id: crate::handle::HANDLE_NONE },
            node: Handle { id: crate::handle::HANDLE_NONE },
            material: Handle { id: crate::handle::HANDLE_NONE },
            camera: Handle { id: crate::handle::HANDLE_NONE },
        }
    }
}

/// Builds a `DescriptorKey` field by field; unset entities stay invalid.
pub struct DescriptorKeyBuilder {
    pub layout: u64,
    pub model: Handle,
    pub node: Handle,
    pub material: Handle,
    pub camera: Handle,
}

impl Default for DescriptorKeyBuilder {
    fn default() -> (r: DescriptorKeyBuilder)
        ensures
            r.build_spec() == DescriptorKey::default_spec(),
    {
        DescriptorKeyBuilder {
            layout: 0,
            model: Handle::none(),
            node: Handle::none(),
            material: Handle::none(),
            camera: Handle::none(),
        }
    }
}

impl DescriptorKeyBuilder {
    /// The key that `build` returns.
    pub open spec fn build_spec(self) -> DescriptorKey {
        DescriptorKey {
            layout: self.layout,
            model: self.model,
            node: self.node,
            material: self.material,
            camera: self.camera,
        }
    }

    pub fn layout(self, layout: u64) -> (r: Self)
        ensures
            r.build_spec() == (DescriptorKey { layout, ..self.build_spec() }),
    {
        DescriptorKeyBuilder { layout, ..self }
    }

    pub fn model(self, model: Handle) -> (r: Self)
        ensures
            r.build_spec() == (DescriptorKey { model, ..self.build_spec() }),
    {
        DescriptorKeyBuilder { model, ..self }
    }

    pub fn node(self, node: Handle) -> (r: Self)
        ensures
            r.build_spec() == (DescriptorKey { node, ..self.build_spec() }),
    {
        DescriptorKeyBuilder { node, ..self }
    }

    pub fn material(self, material: Handle) -> (r: Self)
        ensures
            r.build_spec() == (DescriptorKey { material, ..self.build_spec() }),
    {
        DescriptorKeyBuilder { material, ..self }
    }

    pub fn camera(self, camera: Handle) -> (r: Self)
        ensures
            r.build_spec() == (DescriptorKey { camera, ..self.build_spec() }),
    {
        DescriptorKeyBuilder { camera, ..self }
    }

    pub fn build(self) -> (r: DescriptorKey)
        ensures
            r == self.build_spec(),
    {
        DescriptorKey {
            layout: self.layout,
            model: self.model,
            node: self.node,
            material: self.material,
            camera: self.camera,
        }
    }
}

/// The descriptor sets of a key: found as a previous frame left them, or just
/// created and still to be written.
pub enum DescriptorEntry<'s> {
    Get(&'s Vec<u64>),
    Created(&'s Vec<u64>),
}

/// Per-frame descriptor sets, allocated from one pool and cached by key.
pub struct Descriptors {
    pub sets: BufferCache<DescriptorKey, Vec<u64>>,
    /// Raw handle of the descriptor pool the sets come from.
    pub pool: u64,
}

/// The number of sets a descriptor pool is made for: the sum of the device's
/// per-set limits on uniform buffers, sampled images and input attachments,
/// or `None` where that sum does not fit in 32 bits.
pub fn descriptor_pool_max_sets(
    uniform_buffers: u32,
    sampled_images: u32,
    input_attachments: u32,
) -> (r: Option<u32>)
    ensures
        uniform_buffers + sampled_images + input_attachments <= u32::MAX ==> r == Some(
            (uniform_buffers + sampled_images + input_attachments) as u32,
        ),
        uniform_buffers + sampled_images + input_attachments > u32::MAX ==> r.is_none(),
{
    let sum: u64 = uniform_buffers as u64 + sampled_images as u64 + input_attachments as u64;
    if sum <= u32::MAX as u64 {
        Some(sum as u32)
    } else {
        None
    }
}

impl Descriptors {
    pub open spec fn wf(&self) -> bool {
        self.sets.wf()
    }

    /// Descriptors allocated from the pool with raw handle `pool`; none cached yet.
    pub fn new(pool: u64) -> (r: Descriptors)
        ensures
            r.wf(),
            r.pool == pool,
            r.sets@ == Map::<DescriptorKey, Vec<u64>>::empty(),
    {
        Descriptors { sets: BufferCache::new(), pool }
    }

    /// The sets cached under `key`. On a miss `allocate` allocates them from the
    /// pool and they are cached and reported as created, to be written now; on a
    /// hit they are handed back as they are and `allocate` is not called.
    pub fn get_or_create<'a, F: FnOnce() -> Vec<u64>>(
        &'a mut self,
        key: DescriptorKey,
        allocate: F,
    ) -> (r: DescriptorEntry<'a>)
        requires
            old(self).wf(),
            !old(self).sets@.contains_key(key) ==> allocate.requires(()),
        ensures
            final(self).wf(),
            final(self).pool == old(self).pool,
            match r {
                DescriptorEntry::Get(s) => {
                    &&& old(self).sets@.contains_key(key)
                    &&& *s == old(self).sets@[key]
                    &&& final(self).sets@ == old(self).sets@
                },
                DescriptorEntry::Created(s) => {
                    &&& !old(self).sets@.contains_key(key)
                    &&& allocate.ensures((), *s)
                    &&& final(self).sets@ == old(self).sets@.insert(key, *s)
                },
            },
    {
        let found = self.sets.contains(&key);
        let sets = self.sets.get_or_create(key, allocate);
        if found {
            DescriptorEntry::Get(sets)
        } else {
            DescriptorEntry::Created(sets)
        }
    }
}

/// Once `get_or_create` has created the sets of `key`, a second call with an
/// equal key reports them as found, not created, and hands back the same sets.
pub proof fn lemma_descriptor_get_after_create(
    cached: Map<DescriptorKey, Vec<u64>>,
    key: DescriptorKey,
    sets: Vec<u64>,
)
    ensures
        cached.insert(key, sets).contains_key(key),
        cached.insert(key, sets)[key] == sets,
{
}

} // verus!
