//! The ways a mip-chain can be produced.

use vstd::prelude::*;

use crate::consts::{ IMAGE_TILING_OPTIMAL, IMAGE_TILING_LINEAR, FORMAT_FEATURE_BLIT_SRC, FORMAT_FEATURE_BLIT_DST };

verus! {

#[derive(Debug, Clone, Copy, PartialEq, Eq, Structural)]
pub enum MipmapMethod {
    /// `Disable` specifies program not to generate mip-map for the image.
    Disable,
    /// `StepBlit` specifies program to blit down the whole mip-chain from level n-1 to n.
    StepBlit,
    /// `BaseLevelBlit` specifies program to use the base image and blit down from that to all levels.
    BaseLevelBlit,
}

/// The format features of one format, for linear and for optimal tiling
/// (`VkFormatFeatureFlags` values, as the physical device reports them).
#[derive(Debug, Clone, Copy, PartialEq, Eq)]
pub struct FormatFeatureSupport {
    pub linear_tiling_features: u32,
    pub optimal_tiling_features: u32,
}

/// Whether `features` holds every bit of `required`.
pub open spec fn has_features(features: u32, required: u32) -> bool {
    features & required == required
}

/// The features of the format under the given tiling.
pub open spec fn tiling_features(tiling: i32, support: FormatFeatureSupport) -> u32 {
    if tiling == IMAGE_TILING_LINEAR {
        support.linear_tiling_features
    } else {
        support.optimal_tiling_features
    }
}

impl MipmapMethod {
    /// Whether the format can have its mip-chain generated this way: blitting
    /// needs the format to be a blit source and a blit destination.
    pub open spec fn spec_is_support_by_device(self, tiling: i32, support: FormatFeatureSupport) -> bool {
        match self {
            MipmapMethod::Disable => true,
            _ => has_features(
                tiling_features(tiling, support),
                FORMAT_FEATURE_BLIT_SRC | FORMAT_FEATURE_BLIT_DST,
            ),
        }
    }

    pub fn is_support_by_device(&self, tiling: i32, support: &FormatFeatureSupport) -> (r: bool)
        requires
            *self != MipmapMethod::Disable ==> (tiling == IMAGE_TILING_LINEAR || tiling == IMAGE_TILING_OPTIMAL),
        ensures
            r == self.spec_is_support_by_device(tiling, *support),
    {
        match self {
            MipmapMethod::Disable => true,
            MipmapMethod::StepBlit | MipmapMethod::BaseLevelBlit => {
                let required = FORMAT_FEATURE_BLIT_SRC | FORMAT_FEATURE_BLIT_DST;
                if tiling == IMAGE_TILING_LINEAR {
                    support.linear_tiling_features & required == required
                } else {
                    support.optimal_tiling_features & required == required
                }
            },
        }
    }
}

} // verus!
