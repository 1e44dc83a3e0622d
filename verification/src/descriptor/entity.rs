//! The handle a descriptor set user refers to.

use vstd::prelude::*;

use crate::descriptor::set::GsDescriptorSet;

verus! {

/// The handle of a descriptor set, with the binding indices it is used through.
#[derive(Debug, Clone)]
pub struct DescriptorSetEntity {
    pub handle: u64,
    pub binding_indices: Vec<u32>,
}

impl DescriptorSetEntity {
    pub fn new(set: &GsDescriptorSet, binding_indices: Vec<u32>) -> (r: DescriptorSetEntity)
        ensures
            r.handle == set.handle,
            r.binding_indices@ == binding_indices@,
    {
        DescriptorSetEntity { handle: set.handle, binding_indices }
    }
}

} // verus!
