//! Buffer bindings.

use vstd::prelude::*;

use crate::descriptor::set::GsDescriptorSet;
use crate::descriptor::binding::traits::{ DescriptorBindingCI, DescriptorMeta, DescriptorMetaMirror };
use crate::descriptor::binding::content::{ DescriptorBufferInfo, WriteDescriptorSet, VKWrapperPair, DescriptorBufferWrite };

verus! {

/// A binding of one buffer descriptor.
#[derive(Debug, Clone, Copy, PartialEq, Eq)]
pub struct DescriptorBindingBufInfo {
    pub meta: DescriptorMeta,
    /// the size of each element of descriptor.
    pub element_size: u64,
    /// the handle of buffer where the descriptor data stores.
    pub buffer_handle: u64,
}

impl DescriptorBindingCI for DescriptorBindingBufInfo {
    open spec fn spec_meta_mirror(&self) -> DescriptorMetaMirror {
        DescriptorMetaMirror { binding: self.meta.binding, count: 1, descriptor_type: self.meta.descriptor_type }
    }

    fn meta_mirror(&self) -> (r: DescriptorMetaMirror)
        ensures
            r == self.spec_meta_mirror(),
    {
        self.meta.mirror()
    }
}

impl DescriptorBindingBufInfo {

    /// The write of the descriptor into `set`: the buffer from its start, over one element.
    pub fn write_info(&self, set: &GsDescriptorSet) -> (r: DescriptorBufferWrite)
        ensures
            r.content@ == seq![DescriptorBufferInfo { buffer: self.buffer_handle, offset: 0, range: self.element_size }],
            r.info == (WriteDescriptorSet {
                dst_set: set.handle,
                dst_binding: self.meta.binding,
                dst_array_element: 0,
                descriptor_count: 1,
                descriptor_type: self.meta.descriptor_type.spec_raw(),
            }),
    {
        let mut contents: Vec<DescriptorBufferInfo> = Vec::new();
        contents.push(DescriptorBufferInfo { buffer: self.buffer_handle, offset: 0, range: self.element_size });
        let write = WriteDescriptorSet {
            dst_set: set.handle,
            dst_binding: self.meta.binding,
            dst_array_element: 0,
            descriptor_count: 1,
            descriptor_type: self.meta.descriptor_type.to_raw(),
        };
        VKWrapperPair { content: contents, info: write }
    }
}

} // verus!
