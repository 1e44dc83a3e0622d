//! Descriptor pools, and how many descriptors of each type a pool must hold.

use vstd::prelude::*;

use crate::descriptor::types::GsDescriptorType;
use crate::descriptor::binding::traits::DescriptorMetaMirror;
use crate::descriptor::layout::GsDescriptorSetLayout;
use crate::descriptor::set::GsDescriptorSet;

verus! {

/// The position of the first entry of type `t`, or -1.
pub open spec fn spec_find_type(acc: Seq<(GsDescriptorType, u32)>, t: GsDescriptorType) -> int
    decreases acc.len(),
{
    if acc.len() == 0 {
        -1
    } else {
        let r = spec_find_type(acc.drop_last(), t);
        if r >= 0 {
            r
        } else if acc.last().0 == t {
            acc.len() - 1
        } else {
            -1
        }
    }
}

/// The count recorded for type `t` (0 when there is none).
pub open spec fn spec_type_count(acc: Seq<(GsDescriptorType, u32)>, t: GsDescriptorType) -> nat {
    let i = spec_find_type(acc, t);
    if i >= 0 { acc[i].1 as nat } else { 0 }
}

/// Each type is recorded at most once.
pub open spec fn spec_distinct_types(acc: Seq<(GsDescriptorType, u32)>) -> bool {
    forall|i: int, j: int| 0 <= i < j < acc.len() ==> acc[i].0 != acc[j].0
}

/// The record after counting the descriptors of `m`.
pub open spec fn spec_add_mirror(acc: Seq<(GsDescriptorType, u32)>, m: DescriptorMetaMirror) -> Seq<(GsDescriptorType, u32)> {
    let i = spec_find_type(acc, m.descriptor_type);
    if i >= 0 {
        acc.update(i, (m.descriptor_type, (acc[i].1 + m.count) as u32))
    } else {
        acc.push((m.descriptor_type, m.count))
    }
}

/// The record after counting the descriptors of each of `ms`, in order.
pub open spec fn spec_add_all(acc: Seq<(GsDescriptorType, u32)>, ms: Seq<DescriptorMetaMirror>) -> Seq<(GsDescriptorType, u32)>
    decreases ms.len(),
{
    if ms.len() == 0 {
        acc
    } else {
        spec_add_mirror(spec_add_all(acc, ms.drop_last()), ms.last())
    }
}

/// The number of descriptors of type `t` among `ms`.
pub open spec fn spec_total(ms: Seq<DescriptorMetaMirror>, t: GsDescriptorType) -> nat
    decreases ms.len(),
{
    if ms.len() == 0 {
        0
    } else {
        spec_total(ms.drop_last(), t) + if ms.last().descriptor_type == t { ms.last().count as nat } else { 0 }
    }
}

/// Whether some of `ms` is of type `t`.
pub open spec fn spec_has_type(ms: Seq<DescriptorMetaMirror>, t: GsDescriptorType) -> bool {
    exists|k: int| 0 <= k < ms.len() && (#[trigger] ms[k]).descriptor_type == t
}

proof fn lemma_find_type(acc: Seq<(GsDescriptorType, u32)>, t: GsDescriptorType)
    ensures
        -1 <= spec_find_type(acc, t) < acc.len(),
        spec_find_type(acc, t) >= 0 ==> acc[spec_find_type(acc, t)].0 == t,
        spec_find_type(acc, t) < 0 ==> forall|k: int| 0 <= k < acc.len() ==> acc[k].0 != t,
        spec_distinct_types(acc) ==> forall|k: int| 0 <= k < acc.len() && acc[k].0 == t ==> spec_find_type(acc, t) == k,
    decreases acc.len(),
{
    if acc.len() > 0 {
        let p = acc.drop_last();
        lemma_find_type(p, t);
        assert forall|k: int| 0 <= k < p.len() implies p[k] == acc[k] by {}
        if spec_find_type(acc, t) < 0 {
            assert forall|k: int| 0 <= k < acc.len() implies acc[k].0 != t by {
                if k < p.len() {
                    assert(p[k] == acc[k]);
                }
            }
        }
        if spec_distinct_types(acc) {
            assert(spec_distinct_types(p)) by {
                assert forall|i: int, j: int| 0 <= i < j < p.len() implies p[i].0 != p[j].0 by {
                    assert(p[i] == acc[i]);
                    assert(p[j] == acc[j]);
                }
            }
            assert forall|k: int| 0 <= k < acc.len() && acc[k].0 == t implies spec_find_type(acc, t) == k by {
                if k < p.len() {
                    assert(p[k] == acc[k]);
                } else {
                    if spec_find_type(p, t) >= 0 {
                        let i = spec_find_type(p, t);
                        assert(p[i] == acc[i]);
                        assert(acc[i].0 == t);
                    }
                }
            }
        }
    }
}

proof fn lemma_add_mirror(acc: Seq<(GsDescriptorType, u32)>, m: DescriptorMetaMirror)
    requires
        spec_distinct_types(acc),
        spec_type_count(acc, m.descriptor_type) + m.count <= u32::MAX,
    ensures
        spec_distinct_types(spec_add_mirror(acc, m)),
        forall|t: GsDescriptorType| #[trigger] spec_type_count(spec_add_mirror(acc, m), t) == spec_type_count(acc, t) + if m.descriptor_type == t { m.count as nat } else { 0 },
        forall|t: GsDescriptorType| (#[trigger] spec_find_type(spec_add_mirror(acc, m), t) >= 0) == (spec_find_type(acc, t) >= 0 || m.descriptor_type == t),
{
    let r = spec_add_mirror(acc, m);
    lemma_find_type(acc, m.descriptor_type);
    assert forall|t: GsDescriptorType| (#[trigger] spec_find_type(r, t) >= 0) == (spec_find_type(acc, t) >= 0 || m.descriptor_type == t) by {
        lemma_find_type(acc, t);
        lemma_find_type(r, t);
        if spec_find_type(acc, t) >= 0 {
            let i = spec_find_type(acc, t);
            assert(r[i].0 == t);
        } else if m.descriptor_type == t {
            assert(r[acc.len() as int].0 == t);
        } else {
            if spec_find_type(r, t) >= 0 {
                let i = spec_find_type(r, t);
                assert(r[i].0 == t);
                if i < acc.len() {
                    assert(acc[i].0 == r[i].0);
                }
            }
        }
    }
    assert(spec_distinct_types(r)) by {
        assert forall|i: int, j: int| 0 <= i < j < r.len() implies r[i].0 != r[j].0 by {
            if j == acc.len() {
                assert(r[i].0 == acc[i].0);
            } else {
                assert(r[i].0 == acc[i].0);
                assert(r[j].0 == acc[j].0);
            }
        }
    }
    assert forall|t: GsDescriptorType| #[trigger] spec_type_count(r, t) == spec_type_count(acc, t) + if m.descriptor_type == t { m.count as nat } else { 0 } by {
        lemma_find_type(acc, t);
        lemma_find_type(r, t);
        if spec_find_type(acc, t) >= 0 {
            let i = spec_find_type(acc, t);
            assert(r[i].0 == t);
        } else if m.descriptor_type == t {
            assert(r[acc.len() as int].0 == t);
        } else {
            if spec_find_type(r, t) >= 0 {
                let i = spec_find_type(r, t);
                assert(r[i].0 == t);
                if i < acc.len() {
                    assert(acc[i].0 == r[i].0);
                }
            }
        }
    }
}

/// Counting descriptors keeps one entry per type, and the entry of each type
/// is what was recorded before plus the number of descriptors of that type counted.
pub proof fn lemma_add_all(acc: Seq<(GsDescriptorType, u32)>, ms: Seq<DescriptorMetaMirror>)
    requires
        spec_distinct_types(acc),
        forall|t: GsDescriptorType| spec_type_count(acc, t) + #[trigger] spec_total(ms, t) <= u32::MAX,
    ensures
        spec_distinct_types(spec_add_all(acc, ms)),
        forall|t: GsDescriptorType| #[trigger] spec_type_count(spec_add_all(acc, ms), t) == spec_type_count(acc, t) + spec_total(ms, t),
        forall|t: GsDescriptorType| (#[trigger] spec_find_type(spec_add_all(acc, ms), t) >= 0) == (spec_find_type(acc, t) >= 0 || spec_has_type(ms, t)),
    decreases ms.len(),
{
    if ms.len() > 0 {
        let p = ms.drop_last();
        assert forall|t: GsDescriptorType| spec_type_count(acc, t) + #[trigger] spec_total(p, t) <= u32::MAX by {
            assert(spec_total(ms, t) >= spec_total(p, t));
        }
        lemma_add_all(acc, p);
        let mid = spec_add_all(acc, p);
        assert(spec_type_count(mid, ms.last().descriptor_type) + ms.last().count <= u32::MAX) by {
            assert(spec_total(ms, ms.last().descriptor_type) == spec_total(p, ms.last().descriptor_type) + ms.last().count);
        }
        lemma_add_mirror(mid, ms.last());
        assert forall|t: GsDescriptorType| (#[trigger] spec_find_type(spec_add_all(acc, ms), t) >= 0) == (spec_find_type(acc, t) >= 0 || spec_has_type(ms, t)) by {
            assert((spec_find_type(spec_add_mirror(mid, ms.last()), t) >= 0) == (spec_find_type(mid, t) >= 0 || ms.last().descriptor_type == t));
            if spec_has_type(p, t) {
                let k = choose|k: int| 0 <= k < p.len() && (#[trigger] p[k]).descriptor_type == t;
                assert(ms[k].descriptor_type == t);
            }
            if spec_has_type(ms, t) && ms.last().descriptor_type != t {
                let k = choose|k: int| 0 <= k < ms.len() && (#[trigger] ms[k]).descriptor_type == t;
                assert(k < ms.len() - 1);
                assert(p[k].descriptor_type == t);
            }
            if ms.last().descriptor_type == t {
                assert(ms[ms.len() - 1].descriptor_type == t);
            }
        }
    }
}

/// Counts the descriptors of `m` into the record `pool`.
pub fn add_mirror(pool: &mut Vec<(GsDescriptorType, u32)>, m: DescriptorMetaMirror)
    requires
        spec_type_count(old(pool)@, m.descriptor_type) + m.count <= u32::MAX,
    ensures
        final(pool)@ == spec_add_mirror(old(pool)@, m),
{
    proof {
        lemma_find_type(pool@, m.descriptor_type);
    }
    let mut k: usize = 0;
    while k < pool.len()
        invariant
            k <= pool@.len(),
            pool@ == old(pool)@,
            spec_type_count(old(pool)@, m.descriptor_type) + m.count <= u32::MAX,
            forall|q: int| 0 <= q < k ==> pool@[q].0 != m.descriptor_type,
        decreases pool.len() - k,
    {
        if pool[k].0 == m.descriptor_type {
            proof {
                lemma_find_type(pool@.take(k as int), m.descriptor_type);
                assert(spec_find_type(pool@, m.descriptor_type) == k) by {
                    lemma_find_prefix(pool@, m.descriptor_type, k as int);
                }
            }
            let c = pool[k].1;
            assert(spec_type_count(pool@, m.descriptor_type) == c as nat);
            pool.set(k, (m.descriptor_type, c + m.count));
            return;
        }
        k = k + 1;
    }
    pool.push((m.descriptor_type, m.count));
}

proof fn lemma_find_prefix(acc: Seq<(GsDescriptorType, u32)>, t: GsDescriptorType, k: int)
    requires
        0 <= k < acc.len(),
        acc[k].0 == t,
        forall|q: int| 0 <= q < k ==> acc[q].0 != t,
    ensures
        spec_find_type(acc, t) == k,
    decreases acc.len(),
{
    if k < acc.len() - 1 {
        lemma_find_prefix(acc.drop_last(), t, k);
    } else {
        lemma_find_type(acc.drop_last(), t);
    }
}

/// The size of one entry of a descriptor pool.
#[derive(Debug, Clone, Copy, PartialEq, Eq)]
pub struct DescriptorPoolSize {
    /// the `VkDescriptorType` value.
    pub ty: i32,
    pub descriptor_count: u32,
}

/// Descriptor pool create info under construction.
pub struct DescriptorPoolInfo {
    pub flags: u32,
    pub pool_sizes: Vec<DescriptorPoolSize>,
    /// the maximum number of sets; 0 leaves it to the number of pool sizes.
    pub max_sets: u32,
}

/// The values a descriptor pool is created with.
pub struct DescriptorPoolCreateInfo {
    pub flags: u32,
    pub max_sets: u32,
    pub pool_sizes: Vec<DescriptorPoolSize>,
}

/// A created descriptor pool.
#[derive(Debug, Clone, Copy, PartialEq, Eq)]
pub struct GsDescriptorPool {
    pub handle: u64,
}

impl GsDescriptorPool {
    /// Starts a pool with the given flags, no pool size, and no set maximum.
    pub fn new(flags: u32) -> (r: DescriptorPoolInfo)
        ensures
            r.flags == flags,
            r.pool_sizes@ == Seq::<DescriptorPoolSize>::empty(),
            r.max_sets == 0,
    {
        DescriptorPoolInfo::new(flags)
    }

    /// Pairs each layout with the set allocated for it, in order.
    pub fn allocate(&self, layouts: Vec<GsDescriptorSetLayout>, handles: Vec<u64>) -> (sets: Vec<GsDescriptorSet>)
        ensures
            sets@.len() == if layouts@.len() <= handles@.len() { layouts@.len() } else { handles@.len() },
            forall|k: int| 0 <= k < sets@.len() ==> #[trigger] sets@[k] == (GsDescriptorSet { handle: handles@[k], layout: layouts@[k] }),
    {
        let mut sets: Vec<GsDescriptorSet> = Vec::new();
        let mut k: usize = 0;
        while k < layouts.len() && k < handles.len()
            invariant
                k <= layouts@.len(),
                k <= handles@.len(),
                sets@.len() == k,
                forall|q: int| 0 <= q < k ==> #[trigger] sets@[q] == (GsDescriptorSet { handle: handles@[q], layout: layouts@[q] }),
            decreases layouts.len() - k,
        {
            sets.push(GsDescriptorSet::new(handles[k], layouts[k]));
            k = k + 1;
        }
        sets
    }
}

impl DescriptorPoolInfo {
    pub fn new(flags: u32) -> (r: DescriptorPoolInfo)
        ensures
            r.flags == flags,
            r.pool_sizes@ == Seq::<DescriptorPoolSize>::empty(),
            r.max_sets == 0,
    {
        DescriptorPoolInfo { flags, pool_sizes: Vec::new(), max_sets: 0 }
    }

    pub fn set_pool_size_max(&mut self, max_size: u32)
        ensures
            final(self).max_sets == max_size,
            final(self).flags == old(self).flags,
            final(self).pool_sizes@ == old(self).pool_sizes@,
    {
        self.max_sets = max_size;
    }

    /// Makes room in the pool for `count` descriptors of type `desc_type`.
    pub fn add_pool_size(&mut self, desc_type: GsDescriptorType, count: u32)
        ensures
            final(self).pool_sizes@ == old(self).pool_sizes@.push(DescriptorPoolSize { ty: desc_type.spec_raw(), descriptor_count: count }),
            final(self).flags == old(self).flags,
            final(self).max_sets == old(self).max_sets,
    {
        self.pool_sizes.push(DescriptorPoolSize { ty: desc_type.to_raw(), descriptor_count: count });
    }

    /// The values the pool is created with: without a set maximum, the pool
    /// holds as many sets as it has pool sizes.
    pub fn create_info(&self) -> (r: DescriptorPoolCreateInfo)
        ensures
            r.flags == self.flags,
            r.max_sets == if self.max_sets == 0 { self.pool_sizes@.len() as u32 } else { self.max_sets },
            r.pool_sizes@ == self.pool_sizes@,
    {
        let max_sets = if self.max_sets == 0 { self.pool_sizes.len() as u32 } else { self.max_sets };
        let mut pool_sizes: Vec<DescriptorPoolSize> = Vec::new();
        let mut k: usize = 0;
        while k < self.pool_sizes.len()
            invariant
                k <= self.pool_sizes@.len(),
                pool_sizes@ == self.pool_sizes@.take(k as int),
            decreases self.pool_sizes.len() - k,
        {
            pool_sizes.push(self.pool_sizes[k]);
            assert(pool_sizes@ =~= self.pool_sizes@.take(k + 1));
            k = k + 1;
        }
        assert(self.pool_sizes@.take(self.pool_sizes.len() as int) =~= self.pool_sizes@);
        DescriptorPoolCreateInfo { flags: self.flags, max_sets, pool_sizes }
    }
}

} // verus!
