//! The meta data of descriptors.

use vstd::prelude::*;
use vstd::std_specs::convert::FromSpecImpl;

use crate::descriptor::types::GsDescriptorType;

verus! {

/// The mirror meta data of a specific descriptor.
#[derive(Debug, Clone, Copy, PartialEq, Eq)]
pub struct DescriptorMetaMirror {
    /// the binding index used in shader for the descriptor.
    pub binding: u32,
    /// the total element count of each descriptor.
    pub count: u32,
    /// the type of descriptor.
    pub descriptor_type: GsDescriptorType,
}

/// The meta data of a specific descriptor.
#[derive(Debug, Clone, Copy, PartialEq, Eq)]
pub struct DescriptorMeta {
    pub binding: u32,
    pub descriptor_type: GsDescriptorType,
}

/// The meta data of a specific descriptor array.
#[derive(Debug, Clone, Copy, PartialEq, Eq)]
pub struct DescriptorArrayMeta {
    pub binding: u32,
    pub count: u32,
    pub descriptor_type: GsDescriptorType,
}

/// A binding that can be put in a descriptor set layout.
pub trait DescriptorBindingCI {
    /// What the layout records of the binding.
    spec fn spec_meta_mirror(&self) -> DescriptorMetaMirror;

    fn meta_mirror(&self) -> (r: DescriptorMetaMirror)
        ensures
            r == self.spec_meta_mirror(),
    ;
}

impl From<DescriptorMeta> for DescriptorMetaMirror {
    /// A single descriptor: its binding and type, with a count of 1.
    fn from(meta: DescriptorMeta) -> (r: DescriptorMetaMirror) {
        DescriptorMetaMirror { binding: meta.binding, count: 1, descriptor_type: meta.descriptor_type }
    }
}

impl FromSpecImpl<DescriptorMeta> for DescriptorMetaMirror {
    open spec fn obeys_from_spec() -> bool {
        true
    }

    open spec fn from_spec(meta: DescriptorMeta) -> DescriptorMetaMirror {
        DescriptorMetaMirror { binding: meta.binding, count: 1, descriptor_type: meta.descriptor_type }
    }
}

impl From<DescriptorArrayMeta> for DescriptorMetaMirror {
    /// An array of descriptors: its binding, count and type.
    fn from(meta: DescriptorArrayMeta) -> (r: DescriptorMetaMirror) {
        DescriptorMetaMirror { binding: meta.binding, count: meta.count, descriptor_type: meta.descriptor_type }
    }
}

impl FromSpecImpl<DescriptorArrayMeta> for DescriptorMetaMirror {
    open spec fn obeys_from_spec() -> bool {
        true
    }

    open spec fn from_spec(meta: DescriptorArrayMeta) -> DescriptorMetaMirror {
        DescriptorMetaMirror { binding: meta.binding, count: meta.count, descriptor_type: meta.descriptor_type }
    }
}

impl DescriptorMeta {
    /// The mirror of a single descriptor: its binding and type, with a count of 1.
    pub fn mirror(self) -> (r: DescriptorMetaMirror)
        ensures
            r == (DescriptorMetaMirror { binding: self.binding, count: 1, descriptor_type: self.descriptor_type }),
    {
        DescriptorMetaMirror::from(self)
    }
}

impl DescriptorArrayMeta {
    /// The mirror of an array of descriptors: its binding, count and type.
    pub fn mirror(self) -> (r: DescriptorMetaMirror)
        ensures
            r == (DescriptorMetaMirror { binding: self.binding, count: self.count, descriptor_type: self.descriptor_type }),
    {
        DescriptorMetaMirror::from(self)
    }
}

} // verus!
