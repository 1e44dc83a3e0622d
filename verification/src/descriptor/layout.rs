//! Descriptor set layouts.

use vstd::prelude::*;

use crate::descriptor::binding::traits::{ DescriptorBindingCI, DescriptorMetaMirror };

verus! {

/// A created descriptor set layout.
#[derive(Debug, Clone, Copy, PartialEq, Eq)]
pub struct GsDescriptorSetLayout {
    pub handle: u64,
}

/// One binding of a layout: its number, type (`VkDescriptorType` value),
/// descriptor count, and the shader stages that access it.
#[derive(Debug, Clone, Copy, PartialEq, Eq)]
pub struct DescriptorSetLayoutBinding {
    pub binding: u32,
    pub descriptor_type: i32,
    pub descriptor_count: u32,
    pub stage_flags: u32,
}

/// Descriptor set layout create info.
pub struct DescriptorSetLayoutCI {
    pub flags: u32,
    pub bindings: Vec<DescriptorSetLayoutBinding>,
}

/// The layout entry of a binding with the given meta data, accessed by `stages`.
pub open spec fn spec_layout_binding(meta: DescriptorMetaMirror, stages: u32) -> DescriptorSetLayoutBinding {
    DescriptorSetLayoutBinding {
        binding: meta.binding,
        descriptor_type: meta.descriptor_type.spec_raw(),
        descriptor_count: meta.count,
        stage_flags: stages,
    }
}

impl GsDescriptorSetLayout {
    /// Starts a layout with no flags and no binding yet, with room for `binding_count` bindings.
    pub fn new(binding_count: usize) -> (r: DescriptorSetLayoutCI)
        ensures
            r.flags == 0,
            r.bindings@ == Seq::<DescriptorSetLayoutBinding>::empty(),
    {
        DescriptorSetLayoutCI { flags: 0, bindings: Vec::with_capacity(binding_count) }
    }
}

impl DescriptorSetLayoutCI {
    /// Appends the binding `info`, accessed by `stages`.
    pub fn add_binding<T: DescriptorBindingCI>(&mut self, info: &T, stages: u32)
        ensures
            final(self).flags == old(self).flags,
            final(self).bindings@ == old(self).bindings@.push(spec_layout_binding(info.spec_meta_mirror(), stages)),
    {
        let meta = info.meta_mirror();
        let binding = DescriptorSetLayoutBinding {
            binding: meta.binding,
            descriptor_type: meta.descriptor_type.to_raw(),
            descriptor_count: meta.count,
            stage_flags: stages,
        };
        self.bindings.push(binding);
    }

    pub fn set_flags(&mut self, flags: u32)
        ensures
            final(self).flags == flags,
            final(self).bindings@ == old(self).bindings@,
    {
        self.flags = flags;
    }
}

} // verus!
