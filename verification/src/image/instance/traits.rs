//! What an image instance is built from, and what it hands out.

use vstd::prelude::*;

use crate::types::Dim3D;
use crate::image::view::ImageSubRange;
use crate::image::entity::ImageEntity;
use crate::image::copy::{ ImageFullCopyInfo, ImageSubresourceLayers, spec_mip_extent, mip_extent };
use crate::image::instance::sampler::GsSamplerMirror;

verus! {

/// The state and shape of an image when its instance is handed out.
#[derive(Debug, Clone, Copy, PartialEq, Eq)]
pub struct ImageInstanceInfoDesc {
    pub current_layout: i32,
    pub dimension: Dim3D,
    pub subrange: ImageSubRange,
}

/// What a create info hands to the image instance it becomes.
pub trait IImageConveyor {
    /// The sampler made for the image, if any.
    spec fn spec_sampler_mirror(&self) -> Option<GsSamplerMirror>;

    fn sampler_mirror(&self) -> (r: Option<GsSamplerMirror>)
        ensures
            r == self.spec_sampler_mirror(),
    ;
}

/// An image instance, put together from what its create info handed on,
/// its handles and its description.
pub trait ImageInstance<I>: Sized {
    spec fn spec_conveyor(&self) -> I;

    spec fn spec_entity(&self) -> ImageEntity;

    spec fn spec_desc(&self) -> ImageInstanceInfoDesc;

    fn build(isi: I, entity: ImageEntity, desc: ImageInstanceInfoDesc) -> (r: Self)
        ensures
            r.spec_conveyor() == isi,
            r.spec_entity() == entity,
            r.spec_desc() == desc,
    ;
}

/// The copy of a whole mip level of an image instance: `level` scales the
/// width and height down, with depth 1, from the first layer on.
pub open spec fn spec_instance_copy(
    entity: ImageEntity,
    desc: ImageInstanceInfoDesc,
    level: u32,
    aspect_mask: u32,
    layer_count: u32,
) -> ImageFullCopyInfo {
    ImageFullCopyInfo {
        handle: entity.image,
        layout: desc.current_layout,
        extent: Dim3D {
            width: spec_mip_extent(desc.dimension.width, level),
            height: spec_mip_extent(desc.dimension.height, level),
            depth: 1,
        },
        sub_resource_layers: ImageSubresourceLayers {
            aspect_mask,
            mip_level: level,
            base_array_layer: 0,
            layer_count,
        },
    }
}

pub fn instance_copy(
    entity: &ImageEntity,
    desc: &ImageInstanceInfoDesc,
    level: u32,
    aspect_mask: u32,
    layer_count: u32,
) -> (r: ImageFullCopyInfo)
    requires
        level < 32,
    ensures
        r == spec_instance_copy(*entity, *desc, level, aspect_mask, layer_count),
{
    ImageFullCopyInfo {
        handle: entity.image,
        layout: desc.current_layout,
        extent: Dim3D {
            width: mip_extent(desc.dimension.width, level),
            height: mip_extent(desc.dimension.height, level),
            depth: 1,
        },
        sub_resource_layers: ImageSubresourceLayers {
            aspect_mask,
            mip_level: level,
            base_array_layer: 0,
            layer_count,
        },
    }
}

} // verus!
