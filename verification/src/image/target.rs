//! Image create settings.

use vstd::prelude::*;

use crate::consts::{ IMAGE_LAYOUT_UNDEFINED, IMAGE_TYPE_2D, IMAGE_TILING_OPTIMAL, SAMPLE_COUNT_1, FORMAT_R8G8B8A8_UNORM };
use crate::types::Dim3D;
use crate::image::format::GsImageFormat;
use crate::image::compress::ImageCompressType;
use crate::image::mipmap::MipmapMethod;

verus! {

/// A created image: its handle, and the memory size its requirements ask for.
#[derive(Debug, Clone, Copy, PartialEq, Eq)]
pub struct GsImage {
    pub handle: u64,
    pub alignment_size: u64,
}

/// The general properties of an image.
#[derive(Debug, Clone, Copy, PartialEq, Eq)]
pub struct ImagePropertyCI {
    pub flags: u32,
    pub image_type: i32,
    pub tiling: i32,
    pub usages: u32,
    pub initial_layout: i32,
    pub sample_count: u32,
    pub mip_levels: u32,
    pub array_layers: u32,
    pub mipmap: MipmapMethod,
}

impl ImagePropertyCI {
    /// The default properties: a 2D, optimally tiled, single-sampled image
    /// with one mip level and one layer, no usage yet, no mip-chain generation.
    pub open spec fn spec_default() -> ImagePropertyCI {
        ImagePropertyCI {
            flags: 0,
            image_type: IMAGE_TYPE_2D,
            tiling: IMAGE_TILING_OPTIMAL,
            usages: 0,
            initial_layout: IMAGE_LAYOUT_UNDEFINED,
            sample_count: SAMPLE_COUNT_1,
            mip_levels: 1,
            array_layers: 1,
            mipmap: MipmapMethod::Disable,
        }
    }

    pub fn default_ci() -> (r: ImagePropertyCI)
        ensures
            r == Self::spec_default(),
    {
        ImagePropertyCI {
            flags: 0,
            image_type: IMAGE_TYPE_2D,
            tiling: IMAGE_TILING_OPTIMAL,
            usages: 0,
            initial_layout: IMAGE_LAYOUT_UNDEFINED,
            sample_count: SAMPLE_COUNT_1,
            mip_levels: 1,
            array_layers: 1,
            mipmap: MipmapMethod::Disable,
        }
    }
}

/// The properties of an image that depend on its content.
#[derive(Debug, PartialEq, Eq)]
pub struct ImageSpecificCI {
    pub format: GsImageFormat,
    pub dimension: Dim3D,
    pub compression: ImageCompressType,
    /// the queue families that share the image; `None` for exclusive use.
    pub share_queue_families: Option<Vec<u32>>,
}

impl ImageSpecificCI {
    /// The default specific settings: the default format, an empty extent,
    /// no compression, exclusive use.
    pub open spec fn spec_default() -> ImageSpecificCI {
        ImageSpecificCI {
            format: GsImageFormat::Uncompressed(FORMAT_R8G8B8A8_UNORM),
            dimension: Dim3D { width: 0, height: 0, depth: 0 },
            compression: ImageCompressType::Uncompressed,
            share_queue_families: None,
        }
    }

    pub fn default_ci() -> (r: ImageSpecificCI)
        ensures
            r == Self::spec_default(),
    {
        ImageSpecificCI {
            format: GsImageFormat::default_format(),
            dimension: Dim3D { width: 0, height: 0, depth: 0 },
            compression: ImageCompressType::Uncompressed,
            share_queue_families: None,
        }
    }

    /// Shares the image between the given queue families (or none).
    pub fn share_queue_families(&mut self, families: Option<Vec<u32>>)
        ensures
            *final(self) == (ImageSpecificCI { share_queue_families: families, ..*old(self) }),
    {
        self.share_queue_families = families;
    }
}

/// Image create info.
#[derive(Debug, PartialEq, Eq)]
pub struct ImageTgtCI {
    pub property: ImagePropertyCI,
    pub specific: ImageSpecificCI,
}

} // verus!
