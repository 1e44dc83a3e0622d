//! Texture compression families.

use vstd::prelude::*;

use crate::consts::{ VK_TRUE };
use crate::image::format::CompressionFeatures;

verus! {

#[derive(Debug, Clone, Copy, PartialEq, Eq, Structural)]
pub enum ImageCompressType {
    Uncompressed,
    CompressionBC,
    CompressionASTCLdr,
    CompressionETC2,
}

impl ImageCompressType {
    /// Whether a device with the given enabled features supports this compression.
    pub open spec fn spec_is_support_by_device(self, features: CompressionFeatures) -> bool {
        match self {
            ImageCompressType::Uncompressed => true,
            ImageCompressType::CompressionBC => features.texture_compression_bc == VK_TRUE,
            ImageCompressType::CompressionASTCLdr => features.texture_compression_astc_ldr == VK_TRUE,
            ImageCompressType::CompressionETC2 => features.texture_compression_etc2 == VK_TRUE,
        }
    }

    pub fn is_support_by_device(&self, features: &CompressionFeatures) -> (r: bool)
        ensures
            r == self.spec_is_support_by_device(*features),
    {
        match self {
            ImageCompressType::Uncompressed => true,
            ImageCompressType::CompressionBC => features.texture_compression_bc == VK_TRUE,
            ImageCompressType::CompressionASTCLdr => features.texture_compression_astc_ldr == VK_TRUE,
            ImageCompressType::CompressionETC2 => features.texture_compression_etc2 == VK_TRUE,
        }
    }
}

} // verus!
