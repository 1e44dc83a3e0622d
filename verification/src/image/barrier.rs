//! Image memory barriers, and the layout transitions of images being prepared.

use vstd::prelude::*;

use crate::consts::{ IMAGE_LAYOUT_UNDEFINED, IMAGE_LAYOUT_TRANSFER_SRC_OPTIMAL, IMAGE_LAYOUT_TRANSFER_DST_OPTIMAL, ACCESS_NONE, ACCESS_TRANSFER_READ, ACCESS_TRANSFER_WRITE, QUEUE_FAMILY_IGNORED };
use crate::image::target::GsImage;
use crate::image::view::ImageSubRange;
use crate::image::allocator::target::ImageAllotCI;

verus! {

/// The pipeline stages a batch of barriers waits for (`src`) and holds back
/// (`dst`) (`VkPipelineStageFlags` values).
#[derive(Debug, Clone, Copy, PartialEq, Eq)]
pub struct StageMasks {
    pub src: u32,
    pub dst: u32,
}

/// An image memory barrier: the access and layout an image range goes from and to.
#[derive(Debug, Clone, Copy, PartialEq, Eq)]
pub struct ImageBarrierCI {
    pub src_access_mask: u32,
    pub dst_access_mask: u32,
    pub old_layout: i32,
    pub new_layout: i32,
    pub src_queue_family_index: u32,
    pub dst_queue_family_index: u32,
    pub image: u64,
    pub subresource_range: ImageSubRange,
}

/// The barrier on `image`'s `subrange` from `(src_access, old_layout)` to
/// `(dst_access, new_layout)`, with no queue family ownership transfer.
pub open spec fn spec_barrier(
    image: u64,
    subrange: ImageSubRange,
    src_access: u32,
    dst_access: u32,
    old_layout: i32,
    new_layout: i32,
) -> ImageBarrierCI {
    ImageBarrierCI {
        src_access_mask: src_access,
        dst_access_mask: dst_access,
        old_layout,
        new_layout,
        src_queue_family_index: QUEUE_FAMILY_IGNORED,
        dst_queue_family_index: QUEUE_FAMILY_IGNORED,
        image,
        subresource_range: subrange,
    }
}

/// A barrier under construction.
#[derive(Debug, Clone, Copy, PartialEq, Eq)]
pub struct ImageBarrierBuilder(pub ImageBarrierCI);

impl ImageBarrierCI {
    /// The empty barrier: no access, undefined layouts, no ownership transfer,
    /// no image, the empty range.
    pub open spec fn spec_default() -> ImageBarrierCI {
        ImageBarrierCI {
            src_access_mask: ACCESS_NONE,
            dst_access_mask: ACCESS_NONE,
            old_layout: IMAGE_LAYOUT_UNDEFINED,
            new_layout: IMAGE_LAYOUT_UNDEFINED,
            src_queue_family_index: QUEUE_FAMILY_IGNORED,
            dst_queue_family_index: QUEUE_FAMILY_IGNORED,
            image: 0,
            subresource_range: ImageSubRange {
                aspect_mask: 0,
                base_mip_level: 0,
                level_count: 0,
                base_array_layer: 0,
                layer_count: 0,
            },
        }
    }

    pub fn default_ci() -> (r: ImageBarrierCI)
        ensures
            r == Self::spec_default(),
    {
        ImageBarrierCI {
            src_access_mask: ACCESS_NONE,
            dst_access_mask: ACCESS_NONE,
            old_layout: IMAGE_LAYOUT_UNDEFINED,
            new_layout: IMAGE_LAYOUT_UNDEFINED,
            src_queue_family_index: QUEUE_FAMILY_IGNORED,
            dst_queue_family_index: QUEUE_FAMILY_IGNORED,
            image: 0,
            subresource_range: ImageSubRange {
                aspect_mask: 0,
                base_mip_level: 0,
                level_count: 0,
                base_array_layer: 0,
                layer_count: 0,
            },
        }
    }

    /// Starts a barrier on the given range of `image`.
    pub fn new(image: &GsImage, subrange: ImageSubRange) -> (r: ImageBarrierBuilder)
        ensures
            r.0 == (ImageBarrierCI {
                image: image.handle,
                subresource_range: subrange,
                ..Self::spec_default()
            }),
    {
        let mut barrier = ImageBarrierCI::default_ci();
        barrier.image = image.handle;
        barrier.subresource_range = subrange;
        ImageBarrierBuilder(barrier)
    }

    /// The Vulkan barrier this describes (the same values).
    pub fn into_barrier(self) -> (r: ImageBarrierCI)
        ensures
            r == self,
    {
        self
    }
}

impl ImageBarrierBuilder {
    pub fn build(self) -> (r: ImageBarrierCI)
        ensures
            r == self.0,
    {
        self.0
    }

    /// Sets the access masks before and after the barrier.
    pub fn access_mask(self, from: u32, to: u32) -> (r: ImageBarrierBuilder)
        ensures
            r.0 == (ImageBarrierCI { src_access_mask: from, dst_access_mask: to, ..self.0 }),
    {
        let mut b = self;
        b.0.src_access_mask = from;
        b.0.dst_access_mask = to;
        b
    }

    /// Sets the layouts before and after the barrier.
    pub fn layout(self, from: i32, to: i32) -> (r: ImageBarrierBuilder)
        ensures
            r.0 == (ImageBarrierCI { old_layout: from, new_layout: to, ..self.0 }),
    {
        let mut b = self;
        b.0.old_layout = from;
        b.0.new_layout = to;
        b
    }

    /// Sets the queue families that give and take ownership.
    pub fn queue_family_index(self, from: u32, to: u32) -> (r: ImageBarrierBuilder)
        ensures
            r.0 == (ImageBarrierCI { src_queue_family_index: from, dst_queue_family_index: to, ..self.0 }),
    {
        let mut b = self;
        b.0.src_queue_family_index = from;
        b.0.dst_queue_family_index = to;
        b
    }
}

/// The image being prepared, moved to the given access and layout.
pub open spec fn spec_moved(info: ImageAllotCI, access: u32, layout: i32) -> ImageAllotCI {
    ImageAllotCI { current_access: access, current_layout: layout, ..info }
}

/// The barrier that moves `info` from its current state to `(access, layout)`.
pub open spec fn spec_transition_barrier(info: ImageAllotCI, subrange: ImageSubRange, access: u32, layout: i32) -> ImageBarrierCI {
    spec_barrier(info.image.handle, subrange, info.current_access, access, info.current_layout, layout)
}

/// Moves `info` from its current state to `(access, layout)`, and returns the barrier that does it.
pub fn transition_barrier(info: &mut ImageAllotCI, subrange: ImageSubRange, access: u32, layout: i32) -> (r: ImageBarrierCI)
    ensures
        r == spec_transition_barrier(*old(info), subrange, access, layout),
        *final(info) == spec_moved(*old(info), access, layout),
{
    let barrier = ImageBarrierCI::new(&info.image, subrange)
        .access_mask(info.current_access, access)
        .layout(info.current_layout, layout)
        .build();
    info.current_access = access;
    info.current_layout = layout;
    barrier
}

/// The barrier that prepares an image to receive transferred data.
pub fn transfer_dst_barrier(info: &mut ImageAllotCI, subrange: ImageSubRange) -> (r: ImageBarrierCI)
    ensures
        r == spec_transition_barrier(*old(info), subrange, ACCESS_TRANSFER_WRITE, IMAGE_LAYOUT_TRANSFER_DST_OPTIMAL),
        *final(info) == spec_moved(*old(info), ACCESS_TRANSFER_WRITE, IMAGE_LAYOUT_TRANSFER_DST_OPTIMAL),
{
    transition_barrier(info, subrange, ACCESS_TRANSFER_WRITE, IMAGE_LAYOUT_TRANSFER_DST_OPTIMAL)
}

/// The barrier that prepares an image to be the source of a transfer.
pub fn transfer_src_barrier(info: &mut ImageAllotCI, subrange: ImageSubRange) -> (r: ImageBarrierCI)
    ensures
        r == spec_transition_barrier(*old(info), subrange, ACCESS_TRANSFER_READ, IMAGE_LAYOUT_TRANSFER_SRC_OPTIMAL),
        *final(info) == spec_moved(*old(info), ACCESS_TRANSFER_READ, IMAGE_LAYOUT_TRANSFER_SRC_OPTIMAL),
{
    transition_barrier(info, subrange, ACCESS_TRANSFER_READ, IMAGE_LAYOUT_TRANSFER_SRC_OPTIMAL)
}

} // verus!
