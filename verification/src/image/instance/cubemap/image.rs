//! Cube maps, once created.

use vstd::prelude::*;

use crate::consts::{ IMAGE_LAYOUT_SHADER_READ_ONLY_OPTIMAL, IMAGE_ASPECT_COLOR };
use crate::descriptor::binding::image::DescriptorBindingImgInfo;
use crate::descriptor::set::DescriptorBindingImgTgt;
use crate::image::entity::ImageEntity;
use crate::image::copy::{ ImageCopiable, ImageFullCopyInfo };
use crate::image::instance::traits::{ ImageInstanceInfoDesc, IImageConveyor, ImageInstance, spec_instance_copy, instance_copy };
use crate::image::instance::sampler::{ GsSampler, GsSamplerMirror };

verus! {

/// Wrapper class of a cube map image in Vulkan.
pub struct GsCubeMapImg {
    pub icm: ICubeMap,
    pub entity: ImageEntity,
    pub desc: ImageInstanceInfoDesc,
}

/// What a cube map is handed: its sampler, which the image
/// repository destroys.
#[derive(Debug, Clone, Copy, PartialEq, Eq)]
pub struct ICubeMap {
    pub sampler: GsSampler,
}

impl ICubeMap {
    pub fn new(sampler: GsSampler) -> (r: ICubeMap)
        ensures
            r.sampler == sampler,
    {
        ICubeMap { sampler }
    }
}

impl IImageConveyor for ICubeMap {
    open spec fn spec_sampler_mirror(&self) -> Option<GsSamplerMirror> {
        Some(GsSamplerMirror(self.sampler.handle))
    }

    fn sampler_mirror(&self) -> (r: Option<GsSamplerMirror>) {
        Some(self.sampler.mirror())
    }
}

impl ImageInstance<ICubeMap> for GsCubeMapImg {
    open spec fn spec_conveyor(&self) -> ICubeMap {
        self.icm
    }

    open spec fn spec_entity(&self) -> ImageEntity {
        self.entity
    }

    open spec fn spec_desc(&self) -> ImageInstanceInfoDesc {
        self.desc
    }

    fn build(isi: ICubeMap, entity: ImageEntity, desc: ImageInstanceInfoDesc) -> (r: Self) {
        GsCubeMapImg { icm: isi, entity, desc }
    }
}

impl DescriptorBindingImgTgt for GsCubeMapImg {
    /// The sampler and the image view, read in the shader-read layout.
    open spec fn spec_binding_info(&self) -> DescriptorBindingImgInfo {
        DescriptorBindingImgInfo {
            meta: self.icm.sampler.descriptor,
            sampler_handle: self.icm.sampler.handle,
            view_handle: self.entity.view,
            dst_layout: IMAGE_LAYOUT_SHADER_READ_ONLY_OPTIMAL,
        }
    }

    fn binding_info(&self) -> (r: DescriptorBindingImgInfo) {
        DescriptorBindingImgInfo {
            meta: self.icm.sampler.descriptor,
            sampler_handle: self.icm.sampler.handle,
            view_handle: self.entity.view,
            dst_layout: IMAGE_LAYOUT_SHADER_READ_ONLY_OPTIMAL,
        }
    }
}

impl ImageCopiable for GsCubeMapImg {
    /// The color of all six layers of the level.
    open spec fn spec_full_copy_mipmap(&self, copy_mip_level: u32) -> ImageFullCopyInfo {
        spec_instance_copy(self.entity, self.desc, copy_mip_level, IMAGE_ASPECT_COLOR, 6)
    }

    fn full_copy_mipmap(&self, copy_mip_level: u32) -> (r: ImageFullCopyInfo) {
        instance_copy(&self.entity, &self.desc, copy_mip_level, IMAGE_ASPECT_COLOR, 6)
    }
}

} // verus!
