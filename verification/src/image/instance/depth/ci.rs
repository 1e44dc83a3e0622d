//! Create info of depth-stencil attachments.

use vstd::prelude::*;

use crate::consts::{
    IMAGE_TYPE_2D, IMAGE_TILING_LINEAR, IMAGE_TILING_OPTIMAL, IMAGE_USAGE_DEPTH_STENCIL_ATTACHMENT, IMAGE_VIEW_TYPE_2D,
    FORMAT_FEATURE_DEPTH_STENCIL_ATTACHMENT,
};
use crate::error::{ VkError, VkErrorKind };
use crate::types::{ Dim2D, Dim3D };
use crate::image::target::{ GsImage, ImageTgtCI, ImagePropertyCI, ImageSpecificCI };
use crate::image::view::ImageViewCI;
use crate::image::enums::{ DepthStencilImageFormat, ImageInstanceType };
use crate::image::storage::{ ImageStorageInfo, ImageSource };
use crate::image::mipmap::FormatFeatureSupport;
use crate::image::instance::sample::mipmap::{ has_features, tiling_features };
use crate::image::format::{ unsupported_format_message, spec_unsupported_format_message };
use crate::image::allocator::target::ImageAllotCI;
use crate::image::instance::api::{ ImageCIInheritApi, ImageCIApi };
use crate::image::instance::base::image::GsBackendImage;
use crate::image::instance::depth::image::{ GsDSAttachment, IDepthStencilImg };

verus! {

/// Depth Stencil Attachment Create Info.
pub struct DSAttachmentCI {
    pub backend: GsBackendImage,
}

/// The settings of a depth-stencil attachment of the given extent and
/// format: a single-layer 2D image with no content, used as a depth-stencil
/// attachment, viewed through the format's aspects.
pub open spec fn spec_depth_backend(dimension: Dim2D, format: DepthStencilImageFormat) -> GsBackendImage {
    let storage = ImageStorageInfo {
        source: ImageSource::NoSource,
        format: format.spec_image_format(),
        dimension: Dim3D { width: dimension.width, height: dimension.height, depth: 1 },
    };
    GsBackendImage {
        image_ci: ImageTgtCI {
            property: ImagePropertyCI {
                image_type: IMAGE_TYPE_2D,
                tiling: IMAGE_TILING_OPTIMAL,
                usages: IMAGE_USAGE_DEPTH_STENCIL_ATTACHMENT,
                ..ImagePropertyCI::spec_default()
            },
            specific: ImageSpecificCI {
                format: storage.format,
                dimension: storage.dimension,
                ..ImageSpecificCI::spec_default()
            },
        },
        view_ci: ImageViewCI::spec_new(IMAGE_VIEW_TYPE_2D, format.spec_aspect_mask()),
        storage,
    }
}

impl GsDSAttachment {
    /// A depth-stencil attachment of the given extent and format.
    pub fn new(dimension: Dim2D, format: DepthStencilImageFormat) -> (r: DSAttachmentCI)
        ensures
            r.backend == spec_depth_backend(dimension, format),
    {
        let storage = ImageStorageInfo {
            source: ImageSource::NoSource,
            format: format.image_format(),
            dimension: Dim3D { width: dimension.width, height: dimension.height, depth: 1 },
        };
        let mut backend = GsBackendImage::from_storage(storage);
        backend.image_ci.property.image_type = IMAGE_TYPE_2D;
        backend.image_ci.property.tiling = IMAGE_TILING_OPTIMAL;
        backend.image_ci.property.usages = IMAGE_USAGE_DEPTH_STENCIL_ATTACHMENT;
        backend.view_ci.view_type = IMAGE_VIEW_TYPE_2D;
        backend.view_ci.subrange.aspect_mask = format.aspect_mask();
        DSAttachmentCI { backend }
    }
}

impl DSAttachmentCI {
    /// Turns the create info into the image's place in a batch and what its
    /// instance is made of: its format and the aspects it is viewed through.
    pub fn refactor(self, image: GsImage) -> (r: (ImageAllotCI, IDepthStencilImg))
        ensures
            r.0 == ImageAllotCI::spec_new(ImageInstanceType::DepthStencilAttachment, image, self.backend),
            r.1.format == self.backend.image_ci.specific.format,
            r.1.aspect == self.backend.view_ci.subrange.aspect_mask,
    {
        let idsi = IDepthStencilImg::new(self.backend.image_ci.specific.format, self.backend.view_ci.subrange.aspect_mask);
        let allot = ImageAllotCI::new(ImageInstanceType::DepthStencilAttachment, image, self.backend);
        (allot, idsi)
    }
}

impl ImageCIInheritApi for DSAttachmentCI {
    open spec fn spec_backend(&self) -> GsBackendImage {
        self.backend
    }

    open spec fn spec_with_backend(&self, backend: GsBackendImage) -> Self {
        DSAttachmentCI { backend }
    }

    fn backend(&self) -> (r: &GsBackendImage) {
        &self.backend
    }

    fn backend_mut(&mut self) -> (r: &mut GsBackendImage) {
        &mut self.backend
    }
}

impl ImageCIApi for DSAttachmentCI {
    type IConveyor = IDepthStencilImg;

    /// The format's features are known for linear and optimal tiling only.
    open spec fn spec_support_checkable(&self) -> bool {
        self.backend.image_ci.property.tiling == IMAGE_TILING_LINEAR
            || self.backend.image_ci.property.tiling == IMAGE_TILING_OPTIMAL
    }

    /// Fails, naming the format, unless it can be a depth-stencil attachment
    /// under the chosen tiling.
    fn check_physical_support(&self, support: &FormatFeatureSupport) -> (r: Result<(), VkError>)
        ensures
            r is Ok <==> has_features(
                tiling_features(self.backend.image_ci.property.tiling, *support),
                FORMAT_FEATURE_DEPTH_STENCIL_ATTACHMENT,
            ),
            r matches Err(e) ==> (e.spec_kind() matches VkErrorKind::Other { description: d }
                && d@ == spec_unsupported_format_message(
                self.backend.image_ci.specific.format,
                "DepthStencil Attachment"@,
            )),
    {
        let features = if self.backend.image_ci.property.tiling == IMAGE_TILING_LINEAR {
            support.linear_tiling_features
        } else {
            support.optimal_tiling_features
        };
        if features & FORMAT_FEATURE_DEPTH_STENCIL_ATTACHMENT == FORMAT_FEATURE_DEPTH_STENCIL_ATTACHMENT {
            Ok(())
        } else {
            let msg = unsupported_format_message(&self.backend.image_ci.specific.format, "DepthStencil Attachment");
            Err(VkError::other(msg.as_str()))
        }
    }
}

} // verus!
