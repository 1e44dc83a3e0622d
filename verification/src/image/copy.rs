//! Descriptions of image regions that data is copied to or from.

use vstd::prelude::*;

use crate::types::{ Dim3D, spec_max, max_u32 };

verus! {

/// The subresource layers of one mip level of an image.
#[derive(Debug, Clone, Copy, PartialEq, Eq)]
pub struct ImageSubresourceLayers {
    pub aspect_mask: u32,
    pub mip_level: u32,
    pub base_array_layer: u32,
    pub layer_count: u32,
}

pub struct ImageFullCopyInfo {
    /// `handle` is the handle of image whose data is copied from or copy to.
    pub handle: u64,
    /// the destination layout of the image if it receives the data, or its current layout if it is the source.
    pub layout: i32,
    /// the dimension of image, if the image is as the data destination, or `extent` will be ignored.
    pub extent: Dim3D,
    /// the subresources of the image used for the source or destination image data.
    pub sub_resource_layers: ImageSubresourceLayers,
}

pub struct ImageCopyRange {
    pub extent: Dim3D,
    pub sub_resource_layers: ImageSubresourceLayers,
}

pub struct ImageRangesCopyInfo {
    pub handle: u64,
    pub layout: i32,
    /// the sub ranges of image to be copied, one for each layer.
    pub ranges: Vec<ImageCopyRange>,
}

/// `extent >> level`, but at least 1: the extent of a mip level.
pub open spec fn spec_mip_extent(extent: u32, level: u32) -> u32
    recommends
        level < 32,
{
    spec_max((extent >> level) as int, 1) as u32
}

pub fn mip_extent(extent: u32, level: u32) -> (r: u32)
    requires
        level < 32,
    ensures
        r == spec_mip_extent(extent, level),
        r >= 1,
{
    max_u32(extent >> level, 1)
}

/// The copy range of one layer of a full copy of mip level `level`: the
/// region of the full copy, already the size of the level, one layer deep.
pub open spec fn spec_layer_range(full: ImageFullCopyInfo, level: u32, layer: u32) -> ImageCopyRange {
    ImageCopyRange {
        extent: Dim3D { width: full.extent.width, height: full.extent.height, depth: 1 },
        sub_resource_layers: ImageSubresourceLayers {
            aspect_mask: full.sub_resource_layers.aspect_mask,
            mip_level: level,
            base_array_layer: layer,
            layer_count: 1,
        },
    }
}

/// Splits a full copy of mip level `level` into one copy range per layer;
/// every layer shares the region of the full copy.
pub fn layer_ranges(full: ImageFullCopyInfo, level: u32) -> (r: ImageRangesCopyInfo)
    ensures
        r.handle == full.handle,
        r.layout == full.layout,
        r.ranges@.len() == full.sub_resource_layers.layer_count,
        forall|i: int| 0 <= i < r.ranges@.len() ==> #[trigger] r.ranges@[i] == spec_layer_range(full, level, i as u32),
{
    let layer_count = full.sub_resource_layers.layer_count;
    let mut ranges: Vec<ImageCopyRange> = Vec::new();
    let mut layer: u32 = 0;
    while layer < layer_count
        invariant
            layer <= layer_count,
            layer_count == full.sub_resource_layers.layer_count,
            ranges@.len() == layer,
            forall|i: int| 0 <= i < ranges@.len() ==> #[trigger] ranges@[i] == spec_layer_range(full, level, i as u32),
        decreases layer_count - layer,
    {
        let range = ImageCopyRange {
            extent: Dim3D { width: full.extent.width, height: full.extent.height, depth: 1 },
            sub_resource_layers: ImageSubresourceLayers {
                aspect_mask: full.sub_resource_layers.aspect_mask,
                mip_level: level,
                base_array_layer: layer,
                layer_count: 1,
            },
        };
        ranges.push(range);
        layer = layer + 1;
    }
    ImageRangesCopyInfo { handle: full.handle, layout: full.layout, ranges }
}

/// Where each layer's data starts in a block of `size` bytes at `offset` that
/// holds `parts` layers of equal size, one after the other.
pub fn split_block(offset: u64, size: u64, parts: u32) -> (r: Vec<u64>)
    requires
        parts > 0,
        offset + size <= u64::MAX,
    ensures
        r@.len() == parts,
        forall|i: int| 0 <= i < parts ==> #[trigger] r@[i] == offset + i * ((size as int) / (parts as int)),
{
    let part_size = size / (parts as u64);
    let mut r: Vec<u64> = Vec::new();
    let mut i: u32 = 0;
    while i < parts
        invariant
            i <= parts,
            parts > 0,
            offset + size <= u64::MAX,
            part_size == (size as int) / (parts as int),
            r@.len() == i,
            forall|q: int| 0 <= q < i ==> #[trigger] r@[q] == offset + q * ((size as int) / (parts as int)),
        decreases parts - i,
    {
        assert((i as int) * part_size <= size) by (nonlinear_arith)
            requires
                (i as int) < parts as int,
                part_size == (size as int) / (parts as int),
                parts > 0,
        {
            assert((i as int) * part_size <= (parts as int) * part_size);
            assert((parts as int) * ((size as int) / (parts as int)) <= size);
        }
        r.push(offset + (i as u64) * part_size);
        i = i + 1;
    }
    r
}

/// An image whose mip levels can be copied to or from as a whole.
pub trait ImageCopiable: Sized {
    spec fn spec_full_copy_mipmap(&self, copy_mip_level: u32) -> ImageFullCopyInfo;

    /// Copy all layers of a specific mipmap of an image.
    fn full_copy_mipmap(&self, copy_mip_level: u32) -> (r: ImageFullCopyInfo)
        requires
            copy_mip_level < 32,
        ensures
            r == self.spec_full_copy_mipmap(copy_mip_level),
    ;

    /// The copy of all layers of a mip level, one range per layer.
    fn full_copy_mipmap_layer_ranges(&self, copy_mip_level: u32) -> (r: ImageRangesCopyInfo)
        requires
            copy_mip_level < 32,
        ensures
            r.handle == self.spec_full_copy_mipmap(copy_mip_level).handle,
            r.layout == self.spec_full_copy_mipmap(copy_mip_level).layout,
            r.ranges@.len() == self.spec_full_copy_mipmap(copy_mip_level).sub_resource_layers.layer_count,
            forall|i: int| 0 <= i < r.ranges@.len() ==> #[trigger] r.ranges@[i] == spec_layer_range(
                self.spec_full_copy_mipmap(copy_mip_level),
                copy_mip_level,
                i as u32,
            ),
    {
        let full = self.full_copy_mipmap(copy_mip_level);
        layer_ranges(full, copy_mip_level)
    }
}

} // verus!
