//! Image view settings.

use vstd::prelude::*;

use crate::consts::{ IMAGE_ASPECT_COLOR, IMAGE_VIEW_TYPE_2D };

verus! {

/// The set of mip levels and array layers of an image that a view or a barrier covers.
#[derive(Debug, Clone, Copy, PartialEq, Eq)]
pub struct ImageSubRange {
    pub aspect_mask: u32,
    pub base_mip_level: u32,
    pub level_count: u32,
    pub base_array_layer: u32,
    pub layer_count: u32,
}

impl ImageSubRange {
    /// The same range, restricted to `level_count` mip levels from `base_mip_level`.
    pub open spec fn spec_with_mip_level(self, base_mip_level: u32, level_count: u32) -> ImageSubRange {
        ImageSubRange { base_mip_level, level_count, ..self }
    }

    /// The same range, restricted to `layer_count` array layers from `base_array_layer`.
    pub open spec fn spec_with_layer(self, base_array_layer: u32, layer_count: u32) -> ImageSubRange {
        ImageSubRange { base_array_layer, layer_count, ..self }
    }

    /// Selects `level_count` mip levels starting at `base_mip_level`.
    pub fn with_mip_level(self, base_mip_level: u32, level_count: u32) -> (r: ImageSubRange)
        ensures
            r == self.spec_with_mip_level(base_mip_level, level_count),
    {
        ImageSubRange { base_mip_level, level_count, ..self }
    }

    /// Selects `layer_count` array layers starting at `base_array_layer`.
    pub fn with_layer(self, base_array_layer: u32, layer_count: u32) -> (r: ImageSubRange)
        ensures
            r == self.spec_with_layer(base_array_layer, layer_count),
    {
        ImageSubRange { base_array_layer, layer_count, ..self }
    }
}

/// The swizzle applied to each colour component by a view (`VkComponentSwizzle` values).
#[derive(Debug, Clone, Copy, PartialEq, Eq)]
pub struct ComponentMapping {
    pub r: i32,
    pub g: i32,
    pub b: i32,
    pub a: i32,
}

/// Image view create info.
#[derive(Debug, Clone, Copy, PartialEq, Eq)]
pub struct ImageViewCI {
    pub view_type: i32,
    pub components: ComponentMapping,
    pub subrange: ImageSubRange,
}

impl ImageViewCI {
    /// The settings of a new view: the given type and aspect, identity swizzle,
    /// the base mip level and the base array layer.
    pub open spec fn spec_new(view_type: i32, aspect_mask: u32) -> ImageViewCI {
        ImageViewCI {
            view_type,
            components: ComponentMapping { r: 0, g: 0, b: 0, a: 0 },
            subrange: ImageSubRange {
                aspect_mask,
                base_mip_level: 0,
                level_count: 1,
                base_array_layer: 0,
                layer_count: 1,
            },
        }
    }

    pub fn new(view_type: i32, aspect_mask: u32) -> (r: ImageViewCI)
        ensures
            r == Self::spec_new(view_type, aspect_mask),
    {
        ImageViewCI {
            view_type,
            components: ComponentMapping { r: 0, g: 0, b: 0, a: 0 },
            subrange: ImageSubRange {
                aspect_mask,
                base_mip_level: 0,
                level_count: 1,
                base_array_layer: 0,
                layer_count: 1,
            },
        }
    }

    /// A 2D colour view of the base level and layer.
    pub fn default_ci() -> (r: ImageViewCI)
        ensures
            r == Self::spec_new(IMAGE_VIEW_TYPE_2D, IMAGE_ASPECT_COLOR),
    {
        Self::new(IMAGE_VIEW_TYPE_2D, IMAGE_ASPECT_COLOR)
    }
}

} // verus!
