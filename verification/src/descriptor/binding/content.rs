//! Descriptor bindings described by their content, and the writes they make.

use vstd::prelude::*;

use crate::descriptor::types::GsDescriptorType;
use crate::descriptor::set::GsDescriptorSet;

verus! {

#[derive(Debug, Clone, Copy, PartialEq, Eq)]
pub struct DescriptorBindingContent {
    /// the binding index used in shader for the descriptor.
    pub binding: u32,
    /// the total element count of each descriptor.
    pub count: u32,
    /// the type of descriptor.
    pub descriptor_type: GsDescriptorType,
}

/// The buffer range one descriptor refers to.
#[derive(Debug, Clone, Copy, PartialEq, Eq)]
pub struct DescriptorBufferInfo {
    pub buffer: u64,
    pub offset: u64,
    pub range: u64,
}

/// The sampler and image view one descriptor refers to.
#[derive(Debug, Clone, Copy, PartialEq, Eq)]
pub struct DescriptorImageInfo {
    pub sampler: u64,
    pub image_view: u64,
    pub image_layout: i32,
}

/// A write into a descriptor set: which binding, from which element, how many
/// descriptors, of which type (`VkDescriptorType` value).
#[derive(Debug, Clone, Copy, PartialEq, Eq)]
pub struct WriteDescriptorSet {
    pub dst_set: u64,
    pub dst_binding: u32,
    pub dst_array_element: u32,
    pub descriptor_count: u32,
    pub descriptor_type: i32,
}

/// A write together with the descriptor contents it writes.
pub struct VKWrapperPair<C, I> {
    pub content: C,
    pub info: I,
}

/// What a descriptor write writes: buffer ranges or image descriptors.
pub trait DescriptorWriteContent {}

impl DescriptorWriteContent for DescriptorBufferInfo {}

impl DescriptorWriteContent for DescriptorImageInfo {}

pub type DescriptorBufferWrite = VKWrapperPair<Vec<DescriptorBufferInfo>, WriteDescriptorSet>;

pub type DescriptorImageWrite = VKWrapperPair<Vec<DescriptorImageInfo>, WriteDescriptorSet>;

/// A binding of buffer elements: element `i` of the binding refers to the
/// `element_indices[i]`-th block of `element_size` bytes of the buffer.
pub struct DescriptorBufferBindingInfo {
    pub content: DescriptorBindingContent,
    /// the element index of each descriptor to update.
    pub element_indices: Vec<u32>,
    /// the size of each element of descriptor.
    pub element_size: u64,
    /// the handle of buffer where the descriptor data stores.
    pub buffer_handle: u64,
}

/// A binding of `content.count` descriptors, all referring to one sampler and image view.
pub struct DescriptorImageBindingInfo {
    pub content: DescriptorBindingContent,
    /// the handle of sampler.
    pub sampler_handle: u64,
    /// what the layout is for this descriptor in shader.
    pub dst_layout: i32,
    /// the handle of image view where the descriptor data stores.
    pub view_handle: u64,
}

impl DescriptorBufferBindingInfo {
    pub fn borrow_binding_content(&self) -> (r: &DescriptorBindingContent)
        ensures
            *r == self.content,
    {
        &self.content
    }

    /// The buffer range of the `k`-th element of the binding.
    pub open spec fn spec_element(&self, k: int) -> DescriptorBufferInfo {
        DescriptorBufferInfo {
            buffer: self.buffer_handle,
            offset: (self.element_indices@[k] * self.element_size) as u64,
            range: self.element_size,
        }
    }

    /// The write of every element into `set`, from the binding's first array element.
    pub fn write_set(&self, set: &GsDescriptorSet) -> (r: DescriptorBufferWrite)
        requires
            forall|k: int| 0 <= k < self.element_indices@.len() ==> #[trigger] self.element_indices@[k]
                * self.element_size <= u64::MAX,
            self.element_indices@.len() <= u32::MAX,
        ensures
            r.content@.len() == self.element_indices@.len(),
            forall|k: int| 0 <= k < r.content@.len() ==> #[trigger] r.content@[k] == self.spec_element(k),
            r.info == (WriteDescriptorSet {
                dst_set: set.handle,
                dst_binding: self.content.binding,
                dst_array_element: 0,
                descriptor_count: self.element_indices@.len() as u32,
                descriptor_type: self.content.descriptor_type.spec_raw(),
            }),
    {
        let mut infos: Vec<DescriptorBufferInfo> = Vec::new();
        let mut k: usize = 0;
        while k < self.element_indices.len()
            invariant
                k <= self.element_indices@.len(),
                forall|k: int| 0 <= k < self.element_indices@.len() ==> #[trigger] self.element_indices@[k]
                    * self.element_size <= u64::MAX,
                infos@.len() == k,
                forall|q: int| 0 <= q < k ==> #[trigger] infos@[q] == self.spec_element(q),
            decreases self.element_indices.len() - k,
        {
            let element_index = self.element_indices[k];
            assert(self.element_indices@[k as int] * self.element_size <= u64::MAX);
            let info = DescriptorBufferInfo {
                buffer: self.buffer_handle,
                offset: (element_index as u64) * self.element_size,
                range: self.element_size,
            };
            infos.push(info);
            k = k + 1;
        }
        let write = WriteDescriptorSet {
            dst_set: set.handle,
            dst_binding: self.content.binding,
            dst_array_element: 0,
            descriptor_count: infos.len() as u32,
            descriptor_type: self.content.descriptor_type.to_raw(),
        };
        VKWrapperPair { content: infos, info: write }
    }
}

impl DescriptorImageBindingInfo {
    pub fn borrow_binding_content(&self) -> (r: &DescriptorBindingContent)
        ensures
            *r == self.content,
    {
        &self.content
    }

    /// The write of `content.count` descriptors, each referring to the sampler
    /// and view, into `set` from the binding's first array element.
    pub fn write_set(&self, set: &GsDescriptorSet) -> (r: DescriptorImageWrite)
        ensures
            r.content@.len() == self.content.count,
            forall|k: int| 0 <= k < r.content@.len() ==> #[trigger] r.content@[k] == (DescriptorImageInfo {
                sampler: self.sampler_handle,
                image_view: self.view_handle,
                image_layout: self.dst_layout,
            }),
            r.info == (WriteDescriptorSet {
                dst_set: set.handle,
                dst_binding: self.content.binding,
                dst_array_element: 0,
                descriptor_count: self.content.count,
                descriptor_type: self.content.descriptor_type.spec_raw(),
            }),
    {
        let mut infos: Vec<DescriptorImageInfo> = Vec::new();
        let mut k: u32 = 0;
        while k < self.content.count
            invariant
                k <= self.content.count,
                infos@.len() == k,
                forall|q: int| 0 <= q < k ==> #[trigger] infos@[q] == (DescriptorImageInfo {
                    sampler: self.sampler_handle,
                    image_view: self.view_handle,
                    image_layout: self.dst_layout,
                }),
            decreases self.content.count - k,
        {
            infos.push(DescriptorImageInfo {
                sampler: self.sampler_handle,
                image_view: self.view_handle,
                image_layout: self.dst_layout,
            });
            k = k + 1;
        }
        let write = WriteDescriptorSet {
            dst_set: set.handle,
            dst_binding: self.content.binding,
            dst_array_element: 0,
            descriptor_count: self.content.count,
            descriptor_type: self.content.descriptor_type.to_raw(),
        };
        VKWrapperPair { content: infos, info: write }
    }
}

} // verus!
