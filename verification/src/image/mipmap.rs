//! Mip-chain blits and the barriers around them.

use vstd::prelude::*;

use crate::consts::{ IMAGE_LAYOUT_UNDEFINED, IMAGE_LAYOUT_TRANSFER_SRC_OPTIMAL, IMAGE_LAYOUT_TRANSFER_DST_OPTIMAL, ACCESS_NONE, ACCESS_TRANSFER_READ, ACCESS_TRANSFER_WRITE, FILTER_LINEAR };
use crate::types::Offset3D;
use crate::image::copy::{ ImageSubresourceLayers, spec_mip_extent };
use crate::image::view::ImageSubRange;
use crate::image::barrier::{ ImageBarrierCI, spec_barrier, spec_moved, transition_barrier };
use crate::image::allocator::target::ImageAllotCI;

pub use crate::image::instance::sample::mipmap::{ MipmapMethod, FormatFeatureSupport };

verus! {

/// The source and destination regions of a blit.
#[derive(Debug, Clone, Copy, PartialEq, Eq)]
pub struct ImageBlit {
    pub src_subresource: ImageSubresourceLayers,
    pub src_offsets: (Offset3D, Offset3D),
    pub dst_subresource: ImageSubresourceLayers,
    pub dst_offsets: (Offset3D, Offset3D),
}

/// A blit of one mip level of an image down to the next.
#[derive(Debug, Clone, Copy, PartialEq, Eq)]
pub struct MipmapBlitInfo {
    pub image: u64,
    pub src_layout: i32,
    pub dst_layout: i32,
    pub filter: i32,
    pub blit: ImageBlit,
}

/// The far corner coordinate of mip level `level` of an extent: the extent
/// scaled down to the level, as a signed value, and at least 1.
pub open spec fn spec_blit_offset(extent: u32, level: u32) -> i32 {
    let v = extent >> level;
    if v <= 0x7fff_ffff && v >= 1 {
        v as i32
    } else {
        1
    }
}

pub fn blit_offset(extent: u32, level: u32) -> (r: i32)
    requires
        level < 32,
    ensures
        r == spec_blit_offset(extent, level),
        r >= 1,
{
    let v = extent >> level;
    if v <= 0x7fff_ffff && v >= 1 {
        v as i32
    } else {
        1
    }
}

/// The blit from mip level `round - 1` of the image down to level `round`,
/// over `layer_count` layers.
pub open spec fn spec_blit_info(info: ImageAllotCI, round: u32, layer_count: u32) -> MipmapBlitInfo {
    let dim = info.backend.image_ci.specific.dimension;
    let aspect = info.backend.view_ci.subrange.aspect_mask;
    MipmapBlitInfo {
        image: info.image.handle,
        src_layout: IMAGE_LAYOUT_TRANSFER_SRC_OPTIMAL,
        dst_layout: IMAGE_LAYOUT_TRANSFER_DST_OPTIMAL,
        filter: FILTER_LINEAR,
        blit: ImageBlit {
            src_subresource: ImageSubresourceLayers {
                aspect_mask: aspect,
                mip_level: (round - 1) as u32,
                base_array_layer: 0,
                layer_count,
            },
            src_offsets: (
                Offset3D { x: 0, y: 0, z: 0 },
                Offset3D {
                    x: spec_blit_offset(dim.width, (round - 1) as u32),
                    y: spec_blit_offset(dim.height, (round - 1) as u32),
                    z: 1,
                },
            ),
            dst_subresource: ImageSubresourceLayers {
                aspect_mask: aspect,
                mip_level: round,
                base_array_layer: 0,
                layer_count,
            },
            dst_offsets: (
                Offset3D { x: 0, y: 0, z: 0 },
                Offset3D {
                    x: spec_blit_offset(dim.width, round),
                    y: spec_blit_offset(dim.height, round),
                    z: 1,
                },
            ),
        },
    }
}

/// Each blit of a mip-chain reads the whole of level `round - 1` and writes
/// the whole of level `round`: the near corners are the origin, and the far
/// corners are the width and height of the two levels (as `mip_extent`
/// gives them, each from the image's own width or height), one texel deep.
/// It blits the image's own levels over all `layer_count` layers, reading the
/// level in the layout the barrier after the previous blit leaves it in and
/// writing the level in the layout the barrier before this blit leaves it in.
pub proof fn lemma_blit_covers_levels(info: ImageAllotCI, round: u32, layer_count: u32, subrange: ImageSubRange)
    requires
        1 <= round < 32,
        info.backend.image_ci.specific.dimension.width <= 0x7fff_ffff,
        info.backend.image_ci.specific.dimension.height <= 0x7fff_ffff,
    ensures
        ({
            let dim = info.backend.image_ci.specific.dimension;
            let b = spec_blit_info(info, round, layer_count);
            let blit = b.blit;
            &&& b.image == info.image.handle
            &&& b.src_layout == spec_blit_dst_barrier(info, subrange).new_layout
            &&& b.dst_layout == spec_blit_src_barrier(info, subrange).new_layout
            &&& blit.src_subresource.base_array_layer == 0 && blit.src_subresource.layer_count == layer_count
            &&& blit.dst_subresource.base_array_layer == 0 && blit.dst_subresource.layer_count == layer_count
            &&& blit.src_subresource.aspect_mask == blit.dst_subresource.aspect_mask
            &&& blit.src_subresource.mip_level == round - 1
            &&& blit.dst_subresource.mip_level == round
            &&& blit.src_offsets.0 == (Offset3D { x: 0, y: 0, z: 0 })
            &&& blit.dst_offsets.0 == (Offset3D { x: 0, y: 0, z: 0 })
            &&& blit.src_offsets.1.x == spec_mip_extent(dim.width, (round - 1) as u32)
            &&& blit.src_offsets.1.y == spec_mip_extent(dim.height, (round - 1) as u32)
            &&& blit.src_offsets.1.z == 1
            &&& blit.dst_offsets.1.x == spec_mip_extent(dim.width, round)
            &&& blit.dst_offsets.1.y == spec_mip_extent(dim.height, round)
            &&& blit.dst_offsets.1.z == 1
        }),
{
    let dim = info.backend.image_ci.specific.dimension;
    let w = dim.width;
    let h = dim.height;
    let p = (round - 1) as u32;
    assert(w >> p <= w) by (bit_vector);
    assert(h >> p <= h) by (bit_vector);
    assert(w >> round <= w) by (bit_vector);
    assert(h >> round <= h) by (bit_vector);
}

/// The blit that produces mip level `round`; the level must just have been
/// made ready to receive it.
pub fn blit_info(image_info: &ImageAllotCI, round: u32, layer_count: u32) -> (r: MipmapBlitInfo)
    requires
        1 <= round < 32,
        image_info.current_access == ACCESS_TRANSFER_WRITE,
        image_info.current_layout == IMAGE_LAYOUT_TRANSFER_DST_OPTIMAL,
    ensures
        r == spec_blit_info(*image_info, round, layer_count),
{
    let dim = image_info.backend.image_ci.specific.dimension;
    let aspect = image_info.backend.view_ci.subrange.aspect_mask;
    let blit = ImageBlit {
        src_subresource: ImageSubresourceLayers {
            aspect_mask: aspect,
            mip_level: round - 1,
            base_array_layer: 0,
            layer_count,
        },
        src_offsets: (
            Offset3D { x: 0, y: 0, z: 0 },
            Offset3D { x: blit_offset(dim.width, round - 1), y: blit_offset(dim.height, round - 1), z: 1 },
        ),
        dst_subresource: ImageSubresourceLayers {
            aspect_mask: aspect,
            mip_level: round,
            base_array_layer: 0,
            layer_count,
        },
        dst_offsets: (
            Offset3D { x: 0, y: 0, z: 0 },
            Offset3D { x: blit_offset(dim.width, round), y: blit_offset(dim.height, round), z: 1 },
        ),
    };
    MipmapBlitInfo {
        image: image_info.image.handle,
        src_layout: IMAGE_LAYOUT_TRANSFER_SRC_OPTIMAL,
        dst_layout: IMAGE_LAYOUT_TRANSFER_DST_OPTIMAL,
        filter: FILTER_LINEAR,
        blit,
    }
}

/// The barrier that makes a fresh mip level ready to be blitted into.
pub open spec fn spec_blit_src_barrier(info: ImageAllotCI, subrange: ImageSubRange) -> ImageBarrierCI {
    spec_barrier(
        info.image.handle,
        subrange,
        ACCESS_NONE,
        ACCESS_TRANSFER_WRITE,
        IMAGE_LAYOUT_UNDEFINED,
        IMAGE_LAYOUT_TRANSFER_DST_OPTIMAL,
    )
}

/// The barrier that makes a mip level just blitted into the source of the next blit.
pub open spec fn spec_blit_dst_barrier(info: ImageAllotCI, subrange: ImageSubRange) -> ImageBarrierCI {
    spec_barrier(
        info.image.handle,
        subrange,
        ACCESS_TRANSFER_WRITE,
        ACCESS_TRANSFER_READ,
        IMAGE_LAYOUT_TRANSFER_DST_OPTIMAL,
        IMAGE_LAYOUT_TRANSFER_SRC_OPTIMAL,
    )
}

/// Makes the next mip level ready to be blitted into; the previous level
/// must be a transfer source.
pub fn blit_src_barrier(info: &mut ImageAllotCI, subrange: ImageSubRange) -> (r: ImageBarrierCI)
    requires
        old(info).current_access == ACCESS_TRANSFER_READ,
        old(info).current_layout == IMAGE_LAYOUT_TRANSFER_SRC_OPTIMAL,
    ensures
        r == spec_blit_src_barrier(*old(info), subrange),
        *final(info) == spec_moved(*old(info), ACCESS_TRANSFER_WRITE, IMAGE_LAYOUT_TRANSFER_DST_OPTIMAL),
{
    let barrier = ImageBarrierCI::new(&info.image, subrange)
        .access_mask(ACCESS_NONE, ACCESS_TRANSFER_WRITE)
        .layout(IMAGE_LAYOUT_UNDEFINED, IMAGE_LAYOUT_TRANSFER_DST_OPTIMAL)
        .build();
    info.current_access = ACCESS_TRANSFER_WRITE;
    info.current_layout = IMAGE_LAYOUT_TRANSFER_DST_OPTIMAL;
    barrier
}

/// Makes the mip level just blitted into a transfer source.
pub fn blit_dst_barrier(info: &mut ImageAllotCI, subrange: ImageSubRange) -> (r: ImageBarrierCI)
    requires
        old(info).current_access == ACCESS_TRANSFER_WRITE,
        old(info).current_layout == IMAGE_LAYOUT_TRANSFER_DST_OPTIMAL,
    ensures
        r == spec_blit_dst_barrier(*old(info), subrange),
        *final(info) == spec_moved(*old(info), ACCESS_TRANSFER_READ, IMAGE_LAYOUT_TRANSFER_SRC_OPTIMAL),
{
    transition_barrier(info, subrange, ACCESS_TRANSFER_READ, IMAGE_LAYOUT_TRANSFER_SRC_OPTIMAL)
}

} // verus!
