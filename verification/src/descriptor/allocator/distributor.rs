//! Handing out allocated descriptor sets, and filling them.

use vstd::prelude::*;

use crate::descriptor::set::{ GsDescriptorSet, DescriptorSetConfig, DescriptorSet, BindingContent, spec_buffer_write_of, spec_image_write_of };
use crate::descriptor::binding::buffer::DescriptorBindingBufInfo;
use crate::descriptor::binding::image::DescriptorBindingImgInfo;
use crate::descriptor::pool::GsDescriptorPool;
use crate::descriptor::binding::content::{ DescriptorBufferWrite, DescriptorImageWrite };
use crate::descriptor::allocator::target::{ GsAssignIndex, IDescriptorSet };

verus! {

/// The allocated sets of a batch, with the configurations they were allocated for.
pub struct GsDescriptorDistributor {
    pub pool: GsDescriptorPool,
    pub sets: Vec<GsDescriptorSet>,
    pub configs: Vec<DescriptorSetConfig>,
    pub update_sets: Vec<usize>,
}

/// The sets and the pool they came from, kept until they are no longer used.
pub struct GsDescriptorRepository {
    pub pool: GsDescriptorPool,
    pub sets: Vec<GsDescriptorSet>,
}

impl GsDescriptorRepository {
    pub fn store(pool: GsDescriptorPool, sets: Vec<GsDescriptorSet>) -> (r: GsDescriptorRepository)
        ensures
            r.pool == pool,
            r.sets@ == sets@,
    {
        GsDescriptorRepository { pool, sets }
    }
}

impl GsDescriptorDistributor {
    pub fn new(pool: GsDescriptorPool, sets: Vec<GsDescriptorSet>, configs: Vec<DescriptorSetConfig>, update_sets: Vec<usize>) -> (r: GsDescriptorDistributor)
        ensures
            r.pool == pool,
            r.sets@ == sets@,
            r.configs@ == configs@,
            r.update_sets@ == update_sets@,
    {
        GsDescriptorDistributor { pool, sets, configs, update_sets }
    }

    /// The set assigned the given index.
    pub fn acquire(&self, index: GsAssignIndex<IDescriptorSet>) -> (r: DescriptorSet)
        requires
            index.assign_index < self.sets@.len(),
        ensures
            r.handle == self.sets@[index.assign_index as int].handle,
            r.layout == self.sets@[index.assign_index as int].layout,
            r.set_index == index.assign_index,
    {
        let set_index = index.assign_index;
        DescriptorSet::new(&self.sets[set_index], set_index)
    }

    /// The writes that fill every set to update with its configuration's
    /// bindings, set after set in the order they were assigned, each set's
    /// bindings in order: buffer writes and image writes apart.
    pub fn update_descriptors(&self) -> (r: (Vec<DescriptorBufferWrite>, Vec<DescriptorImageWrite>))
        requires
            forall|k: int| 0 <= k < self.update_sets@.len() ==> #[trigger] self.update_sets@[k] < self.configs@.len()
                && self.update_sets@[k] < self.sets@.len(),
        ensures
            r.0@.len() == spec_buffer_targets(self.configs@, self.sets@, self.update_sets@).len(),
            forall|k: int| 0 <= k < r.0@.len() ==> spec_buffer_write_of(
                #[trigger] r.0@[k],
                spec_buffer_targets(self.configs@, self.sets@, self.update_sets@)[k].0,
                spec_buffer_targets(self.configs@, self.sets@, self.update_sets@)[k].1,
            ),
            r.1@.len() == spec_image_targets(self.configs@, self.sets@, self.update_sets@).len(),
            forall|k: int| 0 <= k < r.1@.len() ==> spec_image_write_of(
                #[trigger] r.1@[k],
                spec_image_targets(self.configs@, self.sets@, self.update_sets@)[k].0,
                spec_image_targets(self.configs@, self.sets@, self.update_sets@)[k].1,
            ),
    {
        let ghost configs = self.configs@;
        let ghost sets = self.sets@;
        let mut buffers: Vec<DescriptorBufferWrite> = Vec::new();
        let mut images: Vec<DescriptorImageWrite> = Vec::new();
        let mut k: usize = 0;
        while k < self.update_sets.len()
            invariant
                k <= self.update_sets@.len(),
                configs == self.configs@,
                sets == self.sets@,
                forall|k: int| 0 <= k < self.update_sets@.len() ==> #[trigger] self.update_sets@[k] < self.configs@.len()
                    && self.update_sets@[k] < self.sets@.len(),
                buffers@.len() == spec_buffer_targets(configs, sets, self.update_sets@.take(k as int)).len(),
                forall|q: int| 0 <= q < buffers@.len() ==> spec_buffer_write_of(
                    #[trigger] buffers@[q],
                    spec_buffer_targets(configs, sets, self.update_sets@.take(k as int))[q].0,
                    spec_buffer_targets(configs, sets, self.update_sets@.take(k as int))[q].1,
                ),
                images@.len() == spec_image_targets(configs, sets, self.update_sets@.take(k as int)).len(),
                forall|q: int| 0 <= q < images@.len() ==> spec_image_write_of(
                    #[trigger] images@[q],
                    spec_image_targets(configs, sets, self.update_sets@.take(k as int))[q].0,
                    spec_image_targets(configs, sets, self.update_sets@.take(k as int))[q].1,
                ),
            decreases self.update_sets.len() - k,
        {
            let set_index = self.update_sets[k];
            let ghost prev = self.update_sets@.take(k as int);
            let ghost next = self.update_sets@.take(k + 1);
            assert(next.drop_last() =~= prev);
            assert(next.last() == set_index);
            let ghost bt0 = spec_buffer_targets(configs, sets, prev);
            let ghost it0 = spec_image_targets(configs, sets, prev);
            let config = &self.configs[set_index];
            let update_set = &self.sets[set_index];
            config.add_write_set(update_set, &mut buffers, &mut images);
            proof {
                let bt1 = spec_buffer_targets(configs, sets, next);
                let it1 = spec_image_targets(configs, sets, next);
                assert forall|q: int| 0 <= q < buffers@.len() implies spec_buffer_write_of(
                    #[trigger] buffers@[q],
                    bt1[q].0,
                    bt1[q].1,
                ) by {
                    if q >= bt0.len() {
                        let j = q - bt0.len();
                        assert(buffers@[bt0.len() + j] == buffers@[q]);
                    }
                }
                assert forall|q: int| 0 <= q < images@.len() implies spec_image_write_of(
                    #[trigger] images@[q],
                    it1[q].0,
                    it1[q].1,
                ) by {
                    if q >= it0.len() {
                        let j = q - it0.len();
                        assert(images@[it0.len() + j] == images@[q]);
                    }
                }
            }
            k = k + 1;
        }
        assert(self.update_sets@.take(self.update_sets.len() as int) =~= self.update_sets@);
        (buffers, images)
    }
}

/// The buffer bindings of the sets to update, each with the handle of the set
/// it goes into: set after set, each set's bindings in order.
pub open spec fn spec_buffer_targets(
    configs: Seq<DescriptorSetConfig>,
    sets: Seq<GsDescriptorSet>,
    update_sets: Seq<usize>,
) -> Seq<(u64, DescriptorBindingBufInfo)>
    decreases update_sets.len(),
{
    if update_sets.len() == 0 {
        seq![]
    } else {
        let i = update_sets.last() as int;
        spec_buffer_targets(configs, sets, update_sets.drop_last()) + configs[i].binding_bufs@.map_values(
            |b: BindingContent<DescriptorBindingBufInfo>| (sets[i].handle, b.info),
        )
    }
}

/// The image bindings of the sets to update, each with the handle of the set
/// it goes into: set after set, each set's bindings in order.
pub open spec fn spec_image_targets(
    configs: Seq<DescriptorSetConfig>,
    sets: Seq<GsDescriptorSet>,
    update_sets: Seq<usize>,
) -> Seq<(u64, DescriptorBindingImgInfo)>
    decreases update_sets.len(),
{
    if update_sets.len() == 0 {
        seq![]
    } else {
        let i = update_sets.last() as int;
        spec_image_targets(configs, sets, update_sets.drop_last()) + configs[i].binding_imgs@.map_values(
            |b: BindingContent<DescriptorBindingImgInfo>| (sets[i].handle, b.info),
        )
    }
}

} // verus!
