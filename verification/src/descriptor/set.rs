//! Descriptor sets and their configuration.

use vstd::prelude::*;

use crate::descriptor::layout::{ GsDescriptorSetLayout, DescriptorSetLayoutCI, DescriptorSetLayoutBinding, spec_layout_binding };
use crate::descriptor::types::GsDescriptorType;
use crate::descriptor::binding::traits::{ DescriptorBindingCI, DescriptorMetaMirror };
use crate::descriptor::binding::buffer::DescriptorBindingBufInfo;
use crate::descriptor::binding::image::DescriptorBindingImgInfo;
use crate::descriptor::binding::content::{ DescriptorBufferWrite, DescriptorImageWrite, DescriptorBufferInfo, DescriptorImageInfo, WriteDescriptorSet };
use crate::descriptor::pool::{ add_mirror, spec_add_all, spec_type_count, spec_total, spec_distinct_types, lemma_add_all };

verus! {

/// An allocated descriptor set, with the layout it was allocated with.
#[derive(Debug, Clone, Copy, PartialEq, Eq)]
pub struct GsDescriptorSet {
    pub handle: u64,
    pub layout: GsDescriptorSetLayout,
}

impl GsDescriptorSet {
    pub fn new(handle: u64, layout: GsDescriptorSetLayout) -> (r: GsDescriptorSet)
        ensures
            r.handle == handle,
            r.layout == layout,
    {
        GsDescriptorSet { handle, layout }
    }
}

/// The shader stages of a pipeline (`VkShaderStageFlags` value).
#[derive(Debug, Clone, Copy, PartialEq, Eq)]
pub struct GsPipelineStage(pub u32);

/// Something that can be bound as an image descriptor.
pub trait DescriptorBindingImgTgt {
    spec fn spec_binding_info(&self) -> DescriptorBindingImgInfo;

    fn binding_info(&self) -> (r: DescriptorBindingImgInfo)
        ensures
            r == self.spec_binding_info(),
    ;
}

/// A binding, and the shader stages that access it.
#[derive(Debug, Clone, Copy, PartialEq, Eq)]
pub struct BindingContent<T> {
    pub info: T,
    pub stage_flags: u32,
}

/// `w` writes the buffer binding `b` into the set `set`: one descriptor, the
/// buffer from its start over one element.
pub open spec fn spec_buffer_write_of(w: DescriptorBufferWrite, set: u64, b: DescriptorBindingBufInfo) -> bool {
    &&& w.content@ == seq![DescriptorBufferInfo { buffer: b.buffer_handle, offset: 0, range: b.element_size }]
    &&& w.info == (WriteDescriptorSet {
        dst_set: set,
        dst_binding: b.meta.binding,
        dst_array_element: 0,
        descriptor_count: 1,
        descriptor_type: b.meta.descriptor_type.spec_raw(),
    })
}

/// `w` writes the image binding `b` into the set `set`: one descriptor, its
/// sampler, view and layout.
pub open spec fn spec_image_write_of(w: DescriptorImageWrite, set: u64, b: DescriptorBindingImgInfo) -> bool {
    &&& w.content@ == seq![DescriptorImageInfo { sampler: b.sampler_handle, image_view: b.view_handle, image_layout: b.dst_layout }]
    &&& w.info == (WriteDescriptorSet {
        dst_set: set,
        dst_binding: b.meta.binding,
        dst_array_element: 0,
        descriptor_count: 1,
        descriptor_type: b.meta.descriptor_type.spec_raw(),
    })
}

/// The bindings of a descriptor set: buffers first, then images.
pub struct DescriptorSetConfig {
    pub layout_flags: u32,
    pub binding_bufs: Vec<BindingContent<DescriptorBindingBufInfo>>,
    pub binding_imgs: Vec<BindingContent<DescriptorBindingImgInfo>>,
}

impl DescriptorSetConfig {
    /// The meta data of every binding, buffers first.
    pub open spec fn spec_mirrors(&self) -> Seq<DescriptorMetaMirror> {
        self.binding_bufs@.map_values(|b: BindingContent<DescriptorBindingBufInfo>| b.info.spec_meta_mirror())
            + self.binding_imgs@.map_values(|b: BindingContent<DescriptorBindingImgInfo>| b.info.spec_meta_mirror())
    }

    /// The layout entry of every binding, buffers first.
    pub open spec fn spec_layout_bindings(&self) -> Seq<DescriptorSetLayoutBinding> {
        self.binding_bufs@.map_values(
            |b: BindingContent<DescriptorBindingBufInfo>| spec_layout_binding(b.info.spec_meta_mirror(), b.stage_flags),
        ) + self.binding_imgs@.map_values(
            |b: BindingContent<DescriptorBindingImgInfo>| spec_layout_binding(b.info.spec_meta_mirror(), b.stage_flags),
        )
    }

    /// An empty configuration.
    pub fn new() -> (r: DescriptorSetConfig)
        ensures
            r.layout_flags == 0,
            r.binding_bufs@.len() == 0,
            r.binding_imgs@.len() == 0,
    {
        DescriptorSetConfig { layout_flags: 0, binding_bufs: Vec::new(), binding_imgs: Vec::new() }
    }

    /// Adds a buffer binding, accessed by `stage`.
    pub fn add_buffer_binding(&mut self, info: DescriptorBindingBufInfo, stage: GsPipelineStage)
        ensures
            final(self).binding_bufs@ == old(self).binding_bufs@.push(BindingContent { info, stage_flags: stage.0 }),
            final(self).binding_imgs@ == old(self).binding_imgs@,
            final(self).layout_flags == old(self).layout_flags,
    {
        self.binding_bufs.push(BindingContent { info, stage_flags: stage.0 });
    }

    /// Adds the image binding of `bind_target`, accessed by `stage`.
    pub fn add_image_binding<T: DescriptorBindingImgTgt>(&mut self, bind_target: &T, stage: GsPipelineStage)
        ensures
            final(self).binding_imgs@ == old(self).binding_imgs@.push(
                BindingContent { info: bind_target.spec_binding_info(), stage_flags: stage.0 },
            ),
            final(self).binding_bufs@ == old(self).binding_bufs@,
            final(self).layout_flags == old(self).layout_flags,
    {
        let info = bind_target.binding_info();
        self.binding_imgs.push(BindingContent { info, stage_flags: stage.0 });
    }

    pub fn set_flags(&mut self, flags: u32)
        ensures
            final(self).layout_flags == flags,
            final(self).binding_bufs@ == old(self).binding_bufs@,
            final(self).binding_imgs@ == old(self).binding_imgs@,
    {
        self.layout_flags = flags;
    }

    /// The layout of the set: its flags, and one entry per binding, buffers first.
    pub fn to_layout_ci(&self) -> (r: DescriptorSetLayoutCI)
        ensures
            r.flags == self.layout_flags,
            r.bindings@ == self.spec_layout_bindings(),
    {
        let binding_count = self.binding_bufs.len().saturating_add(self.binding_imgs.len());
        let mut layout_info = GsDescriptorSetLayout::new(binding_count);
        layout_info.set_flags(self.layout_flags);
        let mut k: usize = 0;
        while k < self.binding_bufs.len()
            invariant
                k <= self.binding_bufs@.len(),
                layout_info.flags == self.layout_flags,
                layout_info.bindings@ == self.binding_bufs@.take(k as int).map_values(
                    |b: BindingContent<DescriptorBindingBufInfo>| spec_layout_binding(b.info.spec_meta_mirror(), b.stage_flags),
                ),
            decreases self.binding_bufs.len() - k,
        {
            let binding = &self.binding_bufs[k];
            layout_info.add_binding(&binding.info, binding.stage_flags);
            assert(self.binding_bufs@.take(k + 1) =~= self.binding_bufs@.take(k as int).push(self.binding_bufs@[k as int]));
            assert(layout_info.bindings@ =~= self.binding_bufs@.take(k + 1).map_values(
                |b: BindingContent<DescriptorBindingBufInfo>| spec_layout_binding(b.info.spec_meta_mirror(), b.stage_flags),
            ));
            k = k + 1;
        }
        assert(self.binding_bufs@.take(self.binding_bufs.len() as int) =~= self.binding_bufs@);
        let ghost bufs_part = layout_info.bindings@;
        let mut k: usize = 0;
        while k < self.binding_imgs.len()
            invariant
                k <= self.binding_imgs@.len(),
                layout_info.flags == self.layout_flags,
                layout_info.bindings@ == bufs_part + self.binding_imgs@.take(k as int).map_values(
                    |b: BindingContent<DescriptorBindingImgInfo>| spec_layout_binding(b.info.spec_meta_mirror(), b.stage_flags),
                ),
            decreases self.binding_imgs.len() - k,
        {
            let binding = &self.binding_imgs[k];
            layout_info.add_binding(&binding.info, binding.stage_flags);
            assert(self.binding_imgs@.take(k + 1) =~= self.binding_imgs@.take(k as int).push(self.binding_imgs@[k as int]));
            assert(layout_info.bindings@ =~= bufs_part + self.binding_imgs@.take(k + 1).map_values(
                |b: BindingContent<DescriptorBindingImgInfo>| spec_layout_binding(b.info.spec_meta_mirror(), b.stage_flags),
            ));
            k = k + 1;
        }
        assert(self.binding_imgs@.take(self.binding_imgs.len() as int) =~= self.binding_imgs@);
        layout_info
    }

    /// Counts the descriptors of every binding of the set into `pool_map`.
    pub fn add_pool_size(&self, pool_map: &mut Vec<(GsDescriptorType, u32)>)
        requires
            spec_distinct_types(old(pool_map)@),
            forall|t: GsDescriptorType| spec_type_count(old(pool_map)@, t) + #[trigger] spec_total(self.spec_mirrors(), t) <= u32::MAX,
        ensures
            final(pool_map)@ == spec_add_all(old(pool_map)@, self.spec_mirrors()),
    {
        let ghost acc0 = pool_map@;
        let ghost ms = self.spec_mirrors();
        let ghost nb = self.binding_bufs@.len();
        let mut k: usize = 0;
        while k < self.binding_bufs.len()
            invariant
                k <= nb,
                ms == self.spec_mirrors(),
                nb == self.binding_bufs@.len(),
                ms.len() == self.binding_bufs@.len() + self.binding_imgs@.len(),
                spec_distinct_types(acc0),
                forall|t: GsDescriptorType| spec_type_count(acc0, t) + #[trigger] spec_total(ms, t) <= u32::MAX,
                pool_map@ == spec_add_all(acc0, ms.take(k as int)),
            decreases nb - k,
        {
            let meta = self.binding_bufs[k].info.meta_mirror();
            assert(meta == ms[k as int]);
            proof {
                lemma_count_step(acc0, ms, k as int);
            }
            add_mirror(pool_map, meta);
            k = k + 1;
        }
        let mut k: usize = 0;
        while k < self.binding_imgs.len()
            invariant
                k <= self.binding_imgs@.len(),
                ms == self.spec_mirrors(),
                nb == self.binding_bufs@.len(),
                ms.len() == self.binding_bufs@.len() + self.binding_imgs@.len(),
                spec_distinct_types(acc0),
                forall|t: GsDescriptorType| spec_type_count(acc0, t) + #[trigger] spec_total(ms, t) <= u32::MAX,
                pool_map@ == spec_add_all(acc0, ms.take(nb + k)),
            decreases self.binding_imgs@.len() - k,
        {
            let meta = self.binding_imgs[k].info.meta_mirror();
            assert(meta == ms[nb + k]);
            proof {
                lemma_count_step(acc0, ms, nb + k);
            }
            add_mirror(pool_map, meta);
            k = k + 1;
        }
        assert(ms.take(ms.len() as int) =~= ms);
    }

    /// The writes that fill `set` with the bindings: those of the buffers are
    /// appended to `buffers`, those of the images to `images`.
    pub fn add_write_set(&self, set: &GsDescriptorSet, buffers: &mut Vec<DescriptorBufferWrite>, images: &mut Vec<DescriptorImageWrite>)
        ensures
            final(buffers)@.len() == old(buffers)@.len() + self.binding_bufs@.len(),
            forall|k: int| 0 <= k < old(buffers)@.len() ==> #[trigger] final(buffers)@[k] == old(buffers)@[k],
            forall|k: int| 0 <= k < self.binding_bufs@.len() ==> spec_buffer_write_of(
                #[trigger] final(buffers)@[old(buffers)@.len() + k],
                set.handle,
                self.binding_bufs@[k].info,
            ),
            final(images)@.len() == old(images)@.len() + self.binding_imgs@.len(),
            forall|k: int| 0 <= k < old(images)@.len() ==> #[trigger] final(images)@[k] == old(images)@[k],
            forall|k: int| 0 <= k < self.binding_imgs@.len() ==> spec_image_write_of(
                #[trigger] final(images)@[old(images)@.len() + k],
                set.handle,
                self.binding_imgs@[k].info,
            ),
    {
        let ghost nb0 = buffers@.len();
        let mut k: usize = 0;
        while k < self.binding_bufs.len()
            invariant
                k <= self.binding_bufs@.len(),
                nb0 == old(buffers)@.len(),
                buffers@.len() == nb0 + k,
                forall|q: int| 0 <= q < nb0 ==> #[trigger] buffers@[q] == old(buffers)@[q],
                forall|q: int| 0 <= q < k ==> spec_buffer_write_of(#[trigger] buffers@[nb0 + q], set.handle, self.binding_bufs@[q].info),
            decreases self.binding_bufs.len() - k,
        {
            let w = self.binding_bufs[k].info.write_info(set);
            buffers.push(w);
            k = k + 1;
        }
        let ghost ni0 = images@.len();
        let mut k: usize = 0;
        while k < self.binding_imgs.len()
            invariant
                k <= self.binding_imgs@.len(),
                ni0 == old(images)@.len(),
                images@.len() == ni0 + k,
                forall|q: int| 0 <= q < ni0 ==> #[trigger] images@[q] == old(images)@[q],
                forall|q: int| 0 <= q < k ==> spec_image_write_of(#[trigger] images@[ni0 + q], set.handle, self.binding_imgs@[q].info),
            decreases self.binding_imgs.len() - k,
        {
            let w = self.binding_imgs[k].info.write_info(set);
            images.push(w);
            k = k + 1;
        }
    }
}

/// Counting the next descriptor of `ms` stays within bounds, and extends the
/// record of the prefix.
proof fn lemma_count_step(acc0: Seq<(GsDescriptorType, u32)>, ms: Seq<DescriptorMetaMirror>, k: int)
    requires
        0 <= k < ms.len(),
        spec_distinct_types(acc0),
        forall|t: GsDescriptorType| spec_type_count(acc0, t) + #[trigger] spec_total(ms, t) <= u32::MAX,
    ensures
        spec_type_count(spec_add_all(acc0, ms.take(k)), ms[k].descriptor_type) + ms[k].count <= u32::MAX,
        spec_add_all(acc0, ms.take(k + 1)) == crate::descriptor::pool::spec_add_mirror(spec_add_all(acc0, ms.take(k)), ms[k]),
{
    let p = ms.take(k);
    let p1 = ms.take(k + 1);
    assert(p1.drop_last() =~= p);
    assert forall|t: GsDescriptorType| spec_type_count(acc0, t) + #[trigger] spec_total(p1, t) <= u32::MAX by {
        lemma_total_prefix(ms, k + 1, t);
    }
    assert forall|t: GsDescriptorType| spec_type_count(acc0, t) + #[trigger] spec_total(p, t) <= u32::MAX by {
        lemma_total_prefix(ms, k, t);
    }
    lemma_add_all(acc0, p1);
    lemma_add_all(acc0, p);
    assert(spec_total(p1, ms[k].descriptor_type) == spec_total(p, ms[k].descriptor_type) + ms[k].count);
}

proof fn lemma_total_prefix(ms: Seq<DescriptorMetaMirror>, n: int, t: GsDescriptorType)
    requires
        0 <= n <= ms.len(),
    ensures
        spec_total(ms.take(n), t) <= spec_total(ms, t),
    decreases ms.len(),
{
    if n < ms.len() {
        assert(ms.drop_last().take(n) =~= ms.take(n));
        lemma_total_prefix(ms.drop_last(), n, t);
    } else {
        assert(ms.take(n) =~= ms);
    }
}

/// A descriptor set handed out to its user, with the `set` number shaders use for it.
pub struct DescriptorSet {
    pub handle: u64,
    pub layout: GsDescriptorSetLayout,
    /// `set_index` is the `set` value used in shader code, like
    /// `layout (set = 1, binding = 0) uniform UniformBlock { mat4 projection; }`.
    pub set_index: usize,
}

impl DescriptorSet {
    pub open spec fn spec_set_index(&self) -> usize {
        self.set_index
    }

    pub fn new(from: &GsDescriptorSet, set_index: usize) -> (r: DescriptorSet)
        ensures
            r.handle == from.handle,
            r.layout == from.layout,
            r.spec_set_index() == set_index,
    {
        DescriptorSet { handle: from.handle, layout: from.layout, set_index }
    }

    pub fn set_index(&self) -> (r: usize)
        ensures
            r == self.spec_set_index(),
    {
        self.set_index
    }
}

} // verus!
