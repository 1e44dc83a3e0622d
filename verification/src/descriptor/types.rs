//! The types of descriptors.

use vstd::prelude::*;

use crate::consts::{ DESCRIPTOR_TYPE_SAMPLER, DESCRIPTOR_TYPE_COMBINED_IMAGE_SAMPLER, DESCRIPTOR_TYPE_SAMPLED_IMAGE, DESCRIPTOR_TYPE_STORAGE_IMAGE, DESCRIPTOR_TYPE_UNIFORM_TEXEL_BUFFER, DESCRIPTOR_TYPE_STORAGE_TEXEL_BUFFER, DESCRIPTOR_TYPE_UNIFORM_BUFFER, DESCRIPTOR_TYPE_STORAGE_BUFFER, DESCRIPTOR_TYPE_UNIFORM_BUFFER_DYNAMIC, DESCRIPTOR_TYPE_STORAGE_BUFFER_DYNAMIC, DESCRIPTOR_TYPE_INPUT_ATTACHMENT };

verus! {

#[derive(Debug, Clone, Copy, PartialEq, Eq, Structural, Hash)]
pub enum ImageDescriptorType {
    /// Sampler specifies a sampler descriptor.
    Sampler,
    /// CombinedImageSampler specifies a combined image sampler descriptor.
    CombinedImageSampler,
    /// SampledImage specifies a sampled image descriptor.
    SampledImage,
    /// StorageImage specifies a storage image descriptor.
    StorageImage,
}

#[derive(Debug, Clone, Copy, PartialEq, Eq, Structural, Hash)]
pub enum BufferDescriptorType {
    /// `TexelUniformBuffer` specifies a uniform texel buffer descriptor.
    TexelUniformBuffer,
    /// `TexelStorageBuffer` specifies a storage texel buffer descriptor.
    TexelStorageBuffer,
    /// `UniformBuffer` specifies a uniform buffer descriptor.
    UniformBuffer,
    /// `StorageBuffer` specifies a storage buffer descriptor.
    StorageBuffer,
    /// `DynamicUniformBuffer` specifies a dynamic uniform buffer descriptor.
    DynamicUniformBuffer,
    /// `DynamicStorageBuffer` specifies a dynamic storage buffer descriptor.
    DynamicStorageBuffer,
    /// `InputAttachment` specifies a input attachment descriptor.
    InputAttachment,
}

#[derive(Debug, Clone, Copy, PartialEq, Eq, Structural, Hash)]
pub enum GsDescriptorType {
    Image(ImageDescriptorType),
    Buffer(BufferDescriptorType),
}

impl ImageDescriptorType {
    /// The `VkDescriptorType` value of this type.
    pub open spec fn spec_raw(self) -> i32 {
        match self {
            ImageDescriptorType::Sampler => DESCRIPTOR_TYPE_SAMPLER,
            ImageDescriptorType::CombinedImageSampler => DESCRIPTOR_TYPE_COMBINED_IMAGE_SAMPLER,
            ImageDescriptorType::SampledImage => DESCRIPTOR_TYPE_SAMPLED_IMAGE,
            ImageDescriptorType::StorageImage => DESCRIPTOR_TYPE_STORAGE_IMAGE,
        }
    }

    pub fn to_raw(self) -> (r: i32)
        ensures
            r == self.spec_raw(),
    {
        match self {
            ImageDescriptorType::Sampler => DESCRIPTOR_TYPE_SAMPLER,
            ImageDescriptorType::CombinedImageSampler => DESCRIPTOR_TYPE_COMBINED_IMAGE_SAMPLER,
            ImageDescriptorType::SampledImage => DESCRIPTOR_TYPE_SAMPLED_IMAGE,
            ImageDescriptorType::StorageImage => DESCRIPTOR_TYPE_STORAGE_IMAGE,
        }
    }
}

impl BufferDescriptorType {
    /// The `VkDescriptorType` value of this type.
    pub open spec fn spec_raw(self) -> i32 {
        match self {
            BufferDescriptorType::TexelUniformBuffer => DESCRIPTOR_TYPE_UNIFORM_TEXEL_BUFFER,
            BufferDescriptorType::TexelStorageBuffer => DESCRIPTOR_TYPE_STORAGE_TEXEL_BUFFER,
            BufferDescriptorType::UniformBuffer => DESCRIPTOR_TYPE_UNIFORM_BUFFER,
            BufferDescriptorType::StorageBuffer => DESCRIPTOR_TYPE_STORAGE_BUFFER,
            BufferDescriptorType::DynamicUniformBuffer => DESCRIPTOR_TYPE_UNIFORM_BUFFER_DYNAMIC,
            BufferDescriptorType::DynamicStorageBuffer => DESCRIPTOR_TYPE_STORAGE_BUFFER_DYNAMIC,
            BufferDescriptorType::InputAttachment => DESCRIPTOR_TYPE_INPUT_ATTACHMENT,
        }
    }

    pub fn to_raw(self) -> (r: i32)
        ensures
            r == self.spec_raw(),
    {
        match self {
            BufferDescriptorType::TexelUniformBuffer => DESCRIPTOR_TYPE_UNIFORM_TEXEL_BUFFER,
            BufferDescriptorType::TexelStorageBuffer => DESCRIPTOR_TYPE_STORAGE_TEXEL_BUFFER,
            BufferDescriptorType::UniformBuffer => DESCRIPTOR_TYPE_UNIFORM_BUFFER,
            BufferDescriptorType::StorageBuffer => DESCRIPTOR_TYPE_STORAGE_BUFFER,
            BufferDescriptorType::DynamicUniformBuffer => DESCRIPTOR_TYPE_UNIFORM_BUFFER_DYNAMIC,
            BufferDescriptorType::DynamicStorageBuffer => DESCRIPTOR_TYPE_STORAGE_BUFFER_DYNAMIC,
            BufferDescriptorType::InputAttachment => DESCRIPTOR_TYPE_INPUT_ATTACHMENT,
        }
    }
}

impl GsDescriptorType {
    /// The `VkDescriptorType` value of this type.
    pub open spec fn spec_raw(self) -> i32 {
        match self {
            GsDescriptorType::Image(i) => i.spec_raw(),
            GsDescriptorType::Buffer(b) => b.spec_raw(),
        }
    }

    pub fn to_raw(self) -> (r: i32)
        ensures
            r == self.spec_raw(),
    {
        match self {
            GsDescriptorType::Image(i) => i.to_raw(),
            GsDescriptorType::Buffer(b) => b.to_raw(),
        }
    }
}

/// Distinct descriptor types have distinct Vulkan values.
pub proof fn lemma_raw_injective(a: GsDescriptorType, b: GsDescriptorType)
    ensures
        a.spec_raw() == b.spec_raw() ==> a == b,
{
}

} // verus!
