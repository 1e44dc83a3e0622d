//! Image and view settings of a depth-stencil attachment, on their own.

use vstd::prelude::*;

use crate::consts::{ IMAGE_TYPE_2D, IMAGE_TILING_OPTIMAL, IMAGE_USAGE_DEPTH_STENCIL_ATTACHMENT, IMAGE_VIEW_TYPE_2D };
use crate::types::{ Dim2D, Dim3D };
use crate::image::target::{ ImageTgtCI, ImagePropertyCI, ImageSpecificCI };
use crate::image::view::ImageViewCI;
use crate::image::enums::DepthStencilImageFormat;

verus! {

/// The image and view settings of a depth-stencil attachment.
pub struct GsDSAttachmentInfo {
    pub image_ci: ImageTgtCI,
    pub view_ci: ImageViewCI,
}

impl GsDSAttachmentInfo {
    /// A single-layer 2D depth-stencil attachment of the given extent and
    /// format, viewed through the format's aspects.
    pub fn new(dimension: Dim2D, format: DepthStencilImageFormat) -> (r: GsDSAttachmentInfo)
        ensures
            r.image_ci.property == (ImagePropertyCI {
                image_type: IMAGE_TYPE_2D,
                tiling: IMAGE_TILING_OPTIMAL,
                usages: IMAGE_USAGE_DEPTH_STENCIL_ATTACHMENT,
                ..ImagePropertyCI::spec_default()
            }),
            r.image_ci.specific == (ImageSpecificCI {
                format: format.spec_image_format(),
                dimension: Dim3D { width: dimension.width, height: dimension.height, depth: 1 },
                ..ImageSpecificCI::spec_default()
            }),
            r.view_ci == ImageViewCI::spec_new(IMAGE_VIEW_TYPE_2D, format.spec_aspect_mask()),
    {
        let mut property = ImagePropertyCI::default_ci();
        property.image_type = IMAGE_TYPE_2D;
        property.tiling = IMAGE_TILING_OPTIMAL;
        property.usages = IMAGE_USAGE_DEPTH_STENCIL_ATTACHMENT;
        let mut specific = ImageSpecificCI::default_ci();
        specific.format = format.image_format();
        specific.dimension = Dim3D { width: dimension.width, height: dimension.height, depth: 1 };
        GsDSAttachmentInfo {
            image_ci: ImageTgtCI { property, specific },
            view_ci: ImageViewCI::new(IMAGE_VIEW_TYPE_2D, format.aspect_mask()),
        }
    }
}

} // verus!
