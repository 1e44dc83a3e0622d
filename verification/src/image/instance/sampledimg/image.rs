//! Sampled images, once created.

use vstd::prelude::*;

use crate::consts::{ IMAGE_LAYOUT_SHADER_READ_ONLY_OPTIMAL, IMAGE_ASPECT_COLOR };
use crate::descriptor::binding::traits::DescriptorMeta;
use crate::descriptor::binding::image::DescriptorBindingImgInfo;
use crate::descriptor::set::DescriptorBindingImgTgt;
use crate::image::entity::ImageEntity;
use crate::image::copy::{ ImageCopiable, ImageFullCopyInfo };
use crate::image::instance::traits::{ ImageInstanceInfoDesc, IImageConveyor, ImageInstance, spec_instance_copy, instance_copy };
use crate::image::instance::sampler::GsSamplerMirror;

verus! {

/// Wrapper class of Sampled Image in Vulkan.
pub struct GsSampledImage {
    pub isi: ISampledImg,
    pub entity: ImageEntity,
    pub desc: ImageInstanceInfoDesc,
}

/// What a sampled image is handed: the descriptor it is bound as.
#[derive(Debug, Clone, Copy, PartialEq, Eq)]
pub struct ISampledImg {
    pub descriptor: DescriptorMeta,
}

impl ISampledImg {
    pub fn new(descriptor: DescriptorMeta) -> (r: ISampledImg)
        ensures
            r.descriptor == descriptor,
    {
        ISampledImg { descriptor }
    }
}

impl IImageConveyor for ISampledImg {
    /// A sampled image has no sampler of its own.
    open spec fn spec_sampler_mirror(&self) -> Option<GsSamplerMirror> {
        None
    }

    fn sampler_mirror(&self) -> (r: Option<GsSamplerMirror>) {
        None
    }
}

impl ImageInstance<ISampledImg> for GsSampledImage {
    open spec fn spec_conveyor(&self) -> ISampledImg {
        self.isi
    }

    open spec fn spec_entity(&self) -> ImageEntity {
        self.entity
    }

    open spec fn spec_desc(&self) -> ImageInstanceInfoDesc {
        self.desc
    }

    fn build(isi: ISampledImg, entity: ImageEntity, desc: ImageInstanceInfoDesc) -> (r: Self) {
        GsSampledImage { isi, entity, desc }
    }
}

impl DescriptorBindingImgTgt for GsSampledImage {
    /// The image view with no sampler, read in the shader-read layout.
    open spec fn spec_binding_info(&self) -> DescriptorBindingImgInfo {
        DescriptorBindingImgInfo {
            meta: self.isi.descriptor,
            sampler_handle: 0,
            view_handle: self.entity.view,
            dst_layout: IMAGE_LAYOUT_SHADER_READ_ONLY_OPTIMAL,
        }
    }

    fn binding_info(&self) -> (r: DescriptorBindingImgInfo) {
        DescriptorBindingImgInfo {
            meta: self.isi.descriptor,
            sampler_handle: 0,
            view_handle: self.entity.view,
            dst_layout: IMAGE_LAYOUT_SHADER_READ_ONLY_OPTIMAL,
        }
    }
}

impl ImageCopiable for GsSampledImage {
    /// The color of the single layer of the level.
    open spec fn spec_full_copy_mipmap(&self, copy_mip_level: u32) -> ImageFullCopyInfo {
        spec_instance_copy(self.entity, self.desc, copy_mip_level, IMAGE_ASPECT_COLOR, 1)
    }

    fn full_copy_mipmap(&self, copy_mip_level: u32) -> (r: ImageFullCopyInfo) {
        instance_copy(&self.entity, &self.desc, copy_mip_level, IMAGE_ASPECT_COLOR, 1)
    }
}

} // verus!
