//! Depth-stencil attachments, once created.

use vstd::prelude::*;

use crate::image::entity::ImageEntity;
use crate::image::format::GsImageFormat;
use crate::image::copy::{ ImageCopiable, ImageFullCopyInfo };
use crate::image::instance::traits::{ ImageInstanceInfoDesc, IImageConveyor, ImageInstance, spec_instance_copy, instance_copy };
use crate::image::instance::sampler::GsSamplerMirror;

verus! {

/// Wrapper class of a depth-stencil attachment in Vulkan.
pub struct GsDSAttachment {
    pub idsi: IDepthStencilImg,
    pub entity: ImageEntity,
    pub desc: ImageInstanceInfoDesc,
}

/// What a depth-stencil attachment is handed: the aspects it is viewed
/// through, and its format.
#[derive(Debug, Clone, Copy, PartialEq, Eq)]
pub struct IDepthStencilImg {
    pub aspect: u32,
    pub format: GsImageFormat,
}

/// What a render pass attaches of a depth-stencil attachment: its view and format.
#[derive(Debug, Clone, Copy, PartialEq, Eq)]
pub struct DepthStencilAttachmentRef {
    pub view: u64,
    pub format: GsImageFormat,
}

impl IDepthStencilImg {
    pub fn new(format: GsImageFormat, aspect: u32) -> (r: IDepthStencilImg)
        ensures
            r.format == format,
            r.aspect == aspect,
    {
        IDepthStencilImg { format, aspect }
    }
}

impl IImageConveyor for IDepthStencilImg {
    /// A depth-stencil attachment has no sampler.
    open spec fn spec_sampler_mirror(&self) -> Option<GsSamplerMirror> {
        None
    }

    fn sampler_mirror(&self) -> (r: Option<GsSamplerMirror>) {
        None
    }
}

impl ImageInstance<IDepthStencilImg> for GsDSAttachment {
    open spec fn spec_conveyor(&self) -> IDepthStencilImg {
        self.idsi
    }

    open spec fn spec_entity(&self) -> ImageEntity {
        self.entity
    }

    open spec fn spec_desc(&self) -> ImageInstanceInfoDesc {
        self.desc
    }

    fn build(isi: IDepthStencilImg, entity: ImageEntity, desc: ImageInstanceInfoDesc) -> (r: Self) {
        GsDSAttachment { idsi: isi, entity, desc }
    }
}

impl GsDSAttachment {
    /// The view and format a render pass attaches.
    pub fn attachment(&self) -> (r: DepthStencilAttachmentRef)
        ensures
            r.view == self.entity.view,
            r.format == self.idsi.format,
    {
        DepthStencilAttachmentRef { view: self.entity.view, format: self.idsi.format }
    }
}

impl ImageCopiable for GsDSAttachment {
    /// The attachment's aspects in the single layer of the level.
    open spec fn spec_full_copy_mipmap(&self, copy_mip_level: u32) -> ImageFullCopyInfo {
        spec_instance_copy(self.entity, self.desc, copy_mip_level, self.idsi.aspect, 1)
    }

    fn full_copy_mipmap(&self, copy_mip_level: u32) -> (r: ImageFullCopyInfo) {
        instance_copy(&self.entity, &self.desc, copy_mip_level, self.idsi.aspect, 1)
    }
}

} // verus!
