//! Collecting descriptor set configurations, and planning their allocation.

use vstd::prelude::*;

use crate::descriptor::types::GsDescriptorType;
use crate::descriptor::set::DescriptorSetConfig;
use crate::descriptor::layout::DescriptorSetLayoutCI;
use crate::descriptor::pool::{
    DescriptorPoolInfo, DescriptorPoolSize, spec_add_all, spec_type_count, spec_distinct_types, lemma_add_all,
};

verus! {

/// Where an assigned set will be found once allocated.
#[derive(Debug, Clone, Copy, PartialEq, Eq)]
pub struct IDescriptorSet {
    pub set_index: usize,
}

/// The index an allocator gives what is assigned to it, with what its user needs to know of it.
#[derive(Debug, Clone, Copy, PartialEq, Eq)]
pub struct GsAssignIndex<T> {
    pub convey_info: T,
    pub assign_index: usize,
}

/// Collects the configurations of descriptor sets to allocate together.
pub struct GsDescriptorAllocator {
    pub pool_flag: u32,
    pub set_configs: Vec<DescriptorSetConfig>,
    pub update_sets: Vec<usize>,
}

/// The pool and layouts that the allocation of a batch of sets needs.
pub struct DescriptorAllocation {
    pub pool_info: DescriptorPoolInfo,
    /// `layout_cis[k]` is the layout of the `k`-th configuration.
    pub layout_cis: Vec<DescriptorSetLayoutCI>,
}

/// The number of descriptors of type `t` over all the configurations.
pub open spec fn spec_configs_total(cs: Seq<DescriptorSetConfig>, t: GsDescriptorType) -> nat
    decreases cs.len(),
{
    if cs.len() == 0 {
        0
    } else {
        spec_configs_total(cs.drop_last(), t) + crate::descriptor::pool::spec_total(cs.last().spec_mirrors(), t)
    }
}

/// The descriptor counts per type, after counting the configurations in order.
pub open spec fn spec_pool_after(cs: Seq<DescriptorSetConfig>) -> Seq<(GsDescriptorType, u32)>
    decreases cs.len(),
{
    if cs.len() == 0 {
        seq![]
    } else {
        spec_add_all(spec_pool_after(cs.drop_last()), cs.last().spec_mirrors())
    }
}

/// The pool sizes of a batch hold, for each descriptor type used, exactly
/// the number of descriptors of that type over all the configurations, each
/// type once.
pub proof fn lemma_pool_sizes_count_all(cs: Seq<DescriptorSetConfig>)
    requires
        forall|t: GsDescriptorType| #[trigger] spec_configs_total(cs, t) <= u32::MAX,
    ensures
        spec_distinct_types(spec_pool_after(cs)),
        forall|t: GsDescriptorType| #[trigger] spec_type_count(spec_pool_after(cs), t) == spec_configs_total(cs, t),
    decreases cs.len(),
{
    if cs.len() > 0 {
        let p = cs.drop_last();
        assert forall|t: GsDescriptorType| #[trigger] spec_configs_total(p, t) <= u32::MAX by {
            assert(spec_configs_total(cs, t) >= spec_configs_total(p, t));
        }
        lemma_pool_sizes_count_all(p);
        assert forall|t: GsDescriptorType| spec_type_count(spec_pool_after(p), t) + #[trigger] crate::descriptor::pool::spec_total(cs.last().spec_mirrors(), t) <= u32::MAX by {
            assert(spec_configs_total(cs, t) == spec_configs_total(p, t) + crate::descriptor::pool::spec_total(cs.last().spec_mirrors(), t));
        }
        lemma_add_all(spec_pool_after(p), cs.last().spec_mirrors());
    }
}

impl GsDescriptorAllocator {
    /// An allocator with no pool flags and nothing assigned.
    pub fn create() -> (r: GsDescriptorAllocator)
        ensures
            r.pool_flag == 0,
            r.set_configs@.len() == 0,
            r.update_sets@.len() == 0,
    {
        GsDescriptorAllocator { pool_flag: 0, set_configs: Vec::new(), update_sets: Vec::new() }
    }

    pub fn with_flags(&mut self, flags: u32)
        ensures
            final(self).pool_flag == flags,
            final(self).set_configs@ == old(self).set_configs@,
            final(self).update_sets@ == old(self).update_sets@,
    {
        self.pool_flag = flags;
    }

    /// Takes a configuration: it gets the next index, and its set is to be filled
    /// once allocated.
    pub fn assign(&mut self, config: DescriptorSetConfig) -> (r: GsAssignIndex<IDescriptorSet>)
        ensures
            r.assign_index == old(self).set_configs@.len(),
            r.convey_info.set_index == r.assign_index,
            final(self).set_configs@ == old(self).set_configs@.push(config),
            final(self).update_sets@ == old(self).update_sets@.push(r.assign_index),
            final(self).pool_flag == old(self).pool_flag,
    {
        let set_index = self.set_configs.len();
        let dst_index = GsAssignIndex { convey_info: IDescriptorSet { set_index }, assign_index: set_index };
        self.set_configs.push(config);
        self.update_sets.push(set_index);
        dst_index
    }

    /// Forgets the configurations assigned so far.
    pub fn reset(&mut self)
        ensures
            final(self).set_configs@.len() == 0,
            final(self).update_sets@ == old(self).update_sets@,
            final(self).pool_flag == old(self).pool_flag,
    {
        self.set_configs.clear();
    }

    /// How many descriptors of each type the configurations use, each type
    /// once, in order of first use.
    pub fn pool_sizes(&self) -> (r: Vec<(GsDescriptorType, u32)>)
        requires
            forall|t: GsDescriptorType| #[trigger] spec_configs_total(self.set_configs@, t) <= u32::MAX,
        ensures
            r@ == spec_pool_after(self.set_configs@),
    {
        let ghost cs = self.set_configs@;
        let mut map: Vec<(GsDescriptorType, u32)> = Vec::new();
        let mut k: usize = 0;
        while k < self.set_configs.len()
            invariant
                k <= cs.len(),
                cs == self.set_configs@,
                forall|t: GsDescriptorType| #[trigger] spec_configs_total(cs, t) <= u32::MAX,
                map@ == spec_pool_after(cs.take(k as int)),
            decreases cs.len() - k,
        {
            let ghost p = cs.take(k as int);
            let ghost p1 = cs.take(k + 1);
            proof {
                assert(p1.drop_last() =~= p);
                assert(p1.last() == cs[k as int]);
                assert forall|t: GsDescriptorType| #[trigger] spec_configs_total(p1, t) <= u32::MAX by {
                    lemma_configs_total_prefix(cs, k + 1, t);
                }
                assert forall|t: GsDescriptorType| #[trigger] spec_configs_total(p, t) <= u32::MAX by {
                    lemma_configs_total_prefix(cs, k as int, t);
                }
                lemma_pool_sizes_count_all(p1);
                lemma_pool_sizes_count_all(p);
                assert forall|t: GsDescriptorType| spec_type_count(map@, t) + #[trigger] crate::descriptor::pool::spec_total(cs[k as int].spec_mirrors(), t) <= u32::MAX by {
                    assert(spec_configs_total(p1, t) == spec_configs_total(p, t) + crate::descriptor::pool::spec_total(cs[k as int].spec_mirrors(), t));
                }
            }
            self.set_configs[k].add_pool_size(&mut map);
            k = k + 1;
        }
        assert(cs.take(cs.len() as int) =~= cs);
        map
    }

    /// What the allocation of the batch needs: a pool with the flags and room
    /// for every descriptor, by type, and the layout of each configuration.
    pub fn allocate(&self) -> (r: DescriptorAllocation)
        requires
            forall|t: GsDescriptorType| #[trigger] spec_configs_total(self.set_configs@, t) <= u32::MAX,
        ensures
            r.pool_info.flags == self.pool_flag,
            r.pool_info.max_sets == 0,
            r.pool_info.pool_sizes@ == spec_pool_after(self.set_configs@).map_values(
                |p: (GsDescriptorType, u32)| DescriptorPoolSize { ty: p.0.spec_raw(), descriptor_count: p.1 },
            ),
            r.layout_cis@.len() == self.set_configs@.len(),
            forall|k: int| 0 <= k < r.layout_cis@.len() ==> {
                &&& (#[trigger] r.layout_cis@[k]).flags == self.set_configs@[k].layout_flags
                &&& r.layout_cis@[k].bindings@ == self.set_configs@[k].spec_layout_bindings()
            },
    {
        let sizes = self.pool_sizes();
        let mut pool_info = DescriptorPoolInfo::new(self.pool_flag);
        let mut k: usize = 0;
        while k < sizes.len()
            invariant
                k <= sizes@.len(),
                pool_info.flags == self.pool_flag,
                pool_info.max_sets == 0,
                pool_info.pool_sizes@ == sizes@.take(k as int).map_values(
                    |p: (GsDescriptorType, u32)| DescriptorPoolSize { ty: p.0.spec_raw(), descriptor_count: p.1 },
                ),
            decreases sizes.len() - k,
        {
            let (t, c) = sizes[k];
            pool_info.add_pool_size(t, c);
            assert(sizes@.take(k + 1) =~= sizes@.take(k as int).push(sizes@[k as int]));
            assert(pool_info.pool_sizes@ =~= sizes@.take(k + 1).map_values(
                |p: (GsDescriptorType, u32)| DescriptorPoolSize { ty: p.0.spec_raw(), descriptor_count: p.1 },
            ));
            k = k + 1;
        }
        assert(sizes@.take(sizes.len() as int) =~= sizes@);
        let mut layout_cis: Vec<DescriptorSetLayoutCI> = Vec::new();
        let mut k: usize = 0;
        while k < self.set_configs.len()
            invariant
                k <= self.set_configs@.len(),
                layout_cis@.len() == k,
                forall|q: int| 0 <= q < k ==> {
                    &&& (#[trigger] layout_cis@[q]).flags == self.set_configs@[q].layout_flags
                    &&& layout_cis@[q].bindings@ == self.set_configs@[q].spec_layout_bindings()
                },
            decreases self.set_configs.len() - k,
        {
            let ci = self.set_configs[k].to_layout_ci();
            layout_cis.push(ci);
            k = k + 1;
        }
        DescriptorAllocation { pool_info, layout_cis }
    }
}

proof fn lemma_configs_total_prefix(cs: Seq<DescriptorSetConfig>, n: int, t: GsDescriptorType)
    requires
        0 <= n <= cs.len(),
    ensures
        spec_configs_total(cs.take(n), t) <= spec_configs_total(cs, t),
    decreases cs.len(),
{
    if n < cs.len() {
        assert(cs.drop_last().take(n) =~= cs.take(n));
        lemma_configs_total_prefix(cs.drop_last(), n, t);
    } else {
        assert(cs.take(n) =~= cs);
    }
}

} // verus!
