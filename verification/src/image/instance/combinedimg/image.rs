//! Combined image samplers, once created.

use vstd::prelude::*;

use crate::consts::{ IMAGE_LAYOUT_SHADER_READ_ONLY_OPTIMAL, IMAGE_ASPECT_COLOR };
use crate::descriptor::binding::image::DescriptorBindingImgInfo;
use crate::descriptor::set::DescriptorBindingImgTgt;
use crate::image::entity::ImageEntity;
use crate::image::copy::{ ImageCopiable, ImageFullCopyInfo };
use crate::image::instance::traits::{ ImageInstanceInfoDesc, IImageConveyor, ImageInstance, spec_instance_copy, instance_copy };
use crate::image::instance::sampler::{ GsSampler, GsSamplerMirror };

verus! {

/// Wrapper class of Combined Image Sampler in Vulkan.
pub struct GsCombinedImgSampler {
    pub isi: ICombinedImg,
    pub entity: ImageEntity,
    pub desc: ImageInstanceInfoDesc,
}

/// What a combined image sampler is handed: its sampler, which the image
/// repository destroys.
#[derive(Debug, Clone, Copy, PartialEq, Eq)]
pub struct ICombinedImg {
    pub sampler: GsSampler,
}

impl ICombinedImg {
    pub fn new(sampler: GsSampler) -> (r: ICombinedImg)
        ensures
            r.sampler == sampler,
    {
        ICombinedImg { sampler }
    }
}

impl IImageConveyor for ICombinedImg {
    open spec fn spec_sampler_mirror(&self) -> Option<GsSamplerMirror> {
        Some(GsSamplerMirror(self.sampler.handle))
    }

    fn sampler_mirror(&self) -> (r: Option<GsSamplerMirror>) {
        Some(self.sampler.mirror())
    }
}

impl ImageInstance<ICombinedImg> for GsCombinedImgSampler {
    open spec fn spec_conveyor(&self) -> ICombinedImg {
        self.isi
    }

    open spec fn spec_entity(&self) -> ImageEntity {
        self.entity
    }

    open spec fn spec_desc(&self) -> ImageInstanceInfoDesc {
        self.desc
    }

    fn build(isi: ICombinedImg, entity: ImageEntity, desc: ImageInstanceInfoDesc) -> (r: Self) {
        GsCombinedImgSampler { isi, entity, desc }
    }
}

impl DescriptorBindingImgTgt for GsCombinedImgSampler {
    /// The sampler and the image view, read in the shader-read layout.
    open spec fn spec_binding_info(&self) -> DescriptorBindingImgInfo {
        DescriptorBindingImgInfo {
            meta: self.isi.sampler.descriptor,
            sampler_handle: self.isi.sampler.handle,
            view_handle: self.entity.view,
            dst_layout: IMAGE_LAYOUT_SHADER_READ_ONLY_OPTIMAL,
        }
    }

    fn binding_info(&self) -> (r: DescriptorBindingImgInfo) {
        DescriptorBindingImgInfo {
            meta: self.isi.sampler.descriptor,
            sampler_handle: self.isi.sampler.handle,
            view_handle: self.entity.view,
            dst_layout: IMAGE_LAYOUT_SHADER_READ_ONLY_OPTIMAL,
        }
    }
}

impl ImageCopiable for GsCombinedImgSampler {
    /// The color of the single layer of the level.
    open spec fn spec_full_copy_mipmap(&self, copy_mip_level: u32) -> ImageFullCopyInfo {
        spec_instance_copy(self.entity, self.desc, copy_mip_level, IMAGE_ASPECT_COLOR, 1)
    }

    fn full_copy_mipmap(&self, copy_mip_level: u32) -> (r: ImageFullCopyInfo) {
        instance_copy(&self.entity, &self.desc, copy_mip_level, IMAGE_ASPECT_COLOR, 1)
    }
}

} // verus!
