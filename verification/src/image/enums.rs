//! Kinds of image instances, pipeline stages and depth formats.

use vstd::prelude::*;

use crate::consts::{ IMAGE_ASPECT_DEPTH, IMAGE_ASPECT_STENCIL, PIPELINE_STAGE_VERTEX_SHADER, PIPELINE_STAGE_FRAGMENT_SHADER, FORMAT_D32_SFLOAT, FORMAT_D24_UNORM_S8_UINT, FORMAT_D32_SFLOAT_S8_UINT };
use crate::image::format::GsImageFormat;

verus! {

/// ImagePipelineStage indicate in which pipeline stage this image is used.
#[derive(Debug, Clone, Copy, PartialEq, Eq, Structural, Hash)]
pub enum ImagePipelineStage {
    VertexStage,
    FragmentStage,
}

impl ImagePipelineStage {
    /// The Vulkan pipeline stage bit of this stage.
    pub open spec fn spec_stage_flags(self) -> u32 {
        match self {
            ImagePipelineStage::VertexStage => PIPELINE_STAGE_VERTEX_SHADER,
            ImagePipelineStage::FragmentStage => PIPELINE_STAGE_FRAGMENT_SHADER,
        }
    }

    /// The Vulkan pipeline stage bit of this stage.
    pub fn stage_flags(self) -> (r: u32)
        ensures
            r == self.spec_stage_flags(),
    {
        match self {
            ImagePipelineStage::VertexStage => PIPELINE_STAGE_VERTEX_SHADER,
            ImagePipelineStage::FragmentStage => PIPELINE_STAGE_FRAGMENT_SHADER,
        }
    }
}

/// The kind of an image instance, which decides how its memory is prepared.
#[derive(Debug, Clone, Copy, PartialEq, Eq, Structural, Hash)]
pub enum ImageInstanceType {
    CombinedImageSampler { stage: ImagePipelineStage },
    SampledImage { stage: ImagePipelineStage },
    CubeMapImage { stage: ImagePipelineStage },
    DepthStencilAttachment,
    DepthStencilImage { format: i32, stage: ImagePipelineStage },
}

impl ImageInstanceType {
    /// The number of array layers of an image of this kind.
    pub open spec fn spec_layer_count(self) -> u32 {
        match self {
            ImageInstanceType::CubeMapImage { .. } => 6,
            _ => 1,
        }
    }

    pub fn layer_count(&self) -> (r: u32)
        ensures
            r == self.spec_layer_count(),
    {
        match self {
            ImageInstanceType::CubeMapImage { .. } => 6,
            _ => 1,
        }
    }

    /// Whether this kind holds sampled texture data (not a depth-stencil image).
    pub open spec fn is_sampled_kind(self) -> bool {
        match self {
            ImageInstanceType::CombinedImageSampler { .. } => true,
            ImageInstanceType::SampledImage { .. } => true,
            ImageInstanceType::CubeMapImage { .. } => true,
            _ => false,
        }
    }
}

#[derive(Debug, Clone, Copy, PartialEq, Eq, Structural, Hash)]
pub enum DepthStencilImageFormat {
    Depth32Bit,
    Depth32BitStencil8Bit,
    Depth24BitStencil8Bit,
}

impl DepthStencilImageFormat {
    /// The image format of this depth-stencil format.
    pub open spec fn spec_image_format(self) -> GsImageFormat {
        match self {
            DepthStencilImageFormat::Depth32Bit => GsImageFormat::Uncompressed(FORMAT_D32_SFLOAT),
            DepthStencilImageFormat::Depth24BitStencil8Bit => GsImageFormat::Uncompressed(FORMAT_D24_UNORM_S8_UINT),
            DepthStencilImageFormat::Depth32BitStencil8Bit => GsImageFormat::Uncompressed(FORMAT_D32_SFLOAT_S8_UINT),
        }
    }

    /// The image format of this depth-stencil format.
    pub fn image_format(self) -> (r: GsImageFormat)
        ensures
            r == self.spec_image_format(),
    {
        match self {
            DepthStencilImageFormat::Depth32Bit => GsImageFormat::Uncompressed(FORMAT_D32_SFLOAT),
            DepthStencilImageFormat::Depth24BitStencil8Bit => GsImageFormat::Uncompressed(FORMAT_D24_UNORM_S8_UINT),
            DepthStencilImageFormat::Depth32BitStencil8Bit => GsImageFormat::Uncompressed(FORMAT_D32_SFLOAT_S8_UINT),
        }
    }

    /// The aspects (depth, and stencil where present) of this format.
    pub open spec fn spec_aspect_mask(self) -> u32 {
        match self {
            DepthStencilImageFormat::Depth32Bit => IMAGE_ASPECT_DEPTH,
            _ => IMAGE_ASPECT_DEPTH | IMAGE_ASPECT_STENCIL,
        }
    }

    pub fn aspect_mask(&self) -> (r: u32)
        ensures
            r == self.spec_aspect_mask(),
    {
        match self {
            DepthStencilImageFormat::Depth32Bit => IMAGE_ASPECT_DEPTH,
            DepthStencilImageFormat::Depth24BitStencil8Bit | DepthStencilImageFormat::Depth32BitStencil8Bit =>
                IMAGE_ASPECT_DEPTH | IMAGE_ASPECT_STENCIL,
        }
    }
}

} // verus!
