//! Sample images, once created.

use vstd::prelude::*;

use crate::consts::{ IMAGE_LAYOUT_SHADER_READ_ONLY_OPTIMAL, IMAGE_ASPECT_COLOR };
use crate::descriptor::binding::traits::DescriptorMeta;
use crate::descriptor::binding::content::DescriptorBindingContent;
use crate::descriptor::binding::image::DescriptorBindingImgInfo;
use crate::descriptor::set::DescriptorBindingImgTgt;
use crate::image::entity::ImageEntity;
use crate::image::copy::{ ImageCopiable, ImageFullCopyInfo };
use crate::image::instance::traits::{ ImageInstanceInfoDesc, IImageConveyor, ImageInstance, spec_instance_copy, instance_copy };
use crate::image::instance::sampler::{ GsSampler, GsSamplerMirror };

verus! {

/// Wrapper class of a sample image in Vulkan.
pub struct GsSampleImage {
    pub isi: ISampleImg,
    pub entity: ImageEntity,
    pub desc: ImageInstanceInfoDesc,
}

/// What a sample image is handed: its sampler and its binding.
#[derive(Debug, Clone, Copy, PartialEq, Eq)]
pub struct ISampleImg {
    pub sampler: GsSampler,
    pub binding: DescriptorBindingContent,
}

impl ISampleImg {
    pub fn new(sampler: GsSampler, binding: DescriptorBindingContent) -> (r: ISampleImg)
        ensures
            r.sampler == sampler,
            r.binding == binding,
    {
        ISampleImg { sampler, binding }
    }
}

impl IImageConveyor for ISampleImg {
    open spec fn spec_sampler_mirror(&self) -> Option<GsSamplerMirror> {
        Some(GsSamplerMirror(self.sampler.handle))
    }

    fn sampler_mirror(&self) -> (r: Option<GsSamplerMirror>) {
        Some(self.sampler.mirror())
    }
}

impl ImageInstance<ISampleImg> for GsSampleImage {
    open spec fn spec_conveyor(&self) -> ISampleImg {
        self.isi
    }

    open spec fn spec_entity(&self) -> ImageEntity {
        self.entity
    }

    open spec fn spec_desc(&self) -> ImageInstanceInfoDesc {
        self.desc
    }

    fn build(isi: ISampleImg, entity: ImageEntity, desc: ImageInstanceInfoDesc) -> (r: Self) {
        GsSampleImage { isi, entity, desc }
    }
}

impl GsSampleImage {
    /// The sampler the image owns, which is destroyed with the image.
    pub fn sampler_mirror(&self) -> (r: GsSamplerMirror)
        ensures
            r.0 == self.isi.sampler.handle,
    {
        self.isi.sampler.mirror()
    }
}

impl DescriptorBindingImgTgt for GsSampleImage {
    /// The sampler and the image view at the image's binding, read in the
    /// shader-read layout.
    open spec fn spec_binding_info(&self) -> DescriptorBindingImgInfo {
        DescriptorBindingImgInfo {
            meta: DescriptorMeta { binding: self.isi.binding.binding, descriptor_type: self.isi.binding.descriptor_type },
            sampler_handle: self.isi.sampler.handle,
            view_handle: self.entity.view,
            dst_layout: IMAGE_LAYOUT_SHADER_READ_ONLY_OPTIMAL,
        }
    }

    fn binding_info(&self) -> (r: DescriptorBindingImgInfo) {
        DescriptorBindingImgInfo {
            meta: DescriptorMeta { binding: self.isi.binding.binding, descriptor_type: self.isi.binding.descriptor_type },
            sampler_handle: self.isi.sampler.handle,
            view_handle: self.entity.view,
            dst_layout: IMAGE_LAYOUT_SHADER_READ_ONLY_OPTIMAL,
        }
    }
}

impl ImageCopiable for GsSampleImage {
    /// The color of the single layer of the level.
    open spec fn spec_full_copy_mipmap(&self, copy_mip_level: u32) -> ImageFullCopyInfo {
        spec_instance_copy(self.entity, self.desc, copy_mip_level, IMAGE_ASPECT_COLOR, 1)
    }

    fn full_copy_mipmap(&self, copy_mip_level: u32) -> (r: ImageFullCopyInfo) {
        instance_copy(&self.entity, &self.desc, copy_mip_level, IMAGE_ASPECT_COLOR, 1)
    }
}

} // verus!
