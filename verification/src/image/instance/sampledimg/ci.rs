//! Create info of sampled images.

use vstd::prelude::*;

use crate::consts::{ IMAGE_TILING_LINEAR, IMAGE_TILING_OPTIMAL };
use crate::error::{ VkError, VkErrorKind };
use crate::descriptor::binding::traits::DescriptorMeta;
use crate::descriptor::types::{ GsDescriptorType, ImageDescriptorType };
use crate::image::target::GsImage;
use crate::image::enums::{ ImagePipelineStage, ImageInstanceType };
use crate::image::storage::ImageStorageInfo;
use crate::image::mipmap::{ MipmapMethod, FormatFeatureSupport };
use crate::image::format::spec_unsupported_format_message;
use crate::image::allocator::target::ImageAllotCI;
use crate::image::instance::api::{ ImageCIInheritApi, ImageCIApi };
use crate::image::instance::base::image::GsBackendImage;
use crate::image::instance::sampledimg::image::{ GsSampledImage, ISampledImg };

verus! {

/// Sampled Image Create Info.
pub struct SampledImageCI {
    pub pipeline_stage: ImagePipelineStage,
    pub backend: GsBackendImage,
    pub descriptor: DescriptorMeta,
}

impl GsSampledImage {
    /// A 2D image holding `storage`, read at `pipeline_stage` and bound as a
    /// sampled image at `binding`.
    pub fn new(binding: u32, storage: ImageStorageInfo, pipeline_stage: ImagePipelineStage) -> (r: SampledImageCI)
        ensures
            r.pipeline_stage == pipeline_stage,
            r.backend == GsBackendImage::spec_sampled(storage),
            r.descriptor == (DescriptorMeta {
                binding,
                descriptor_type: GsDescriptorType::Image(ImageDescriptorType::SampledImage),
            }),
    {
        let backend = GsBackendImage::sampled(storage);
        let descriptor = DescriptorMeta {
            binding,
            descriptor_type: GsDescriptorType::Image(ImageDescriptorType::SampledImage),
        };
        SampledImageCI { pipeline_stage, backend, descriptor }
    }
}

impl SampledImageCI {
    /// Turns the create info into the image's place in a batch and what its
    /// instance is made of.
    pub fn refactor(self, image: GsImage) -> (r: (ImageAllotCI, ISampledImg))
        ensures
            r.0 == ImageAllotCI::spec_new(
                ImageInstanceType::SampledImage { stage: self.pipeline_stage },
                image,
                self.backend,
            ),
            r.1.descriptor == self.descriptor,
    {
        let isi = ISampledImg::new(self.descriptor);
        let allot = ImageAllotCI::new(
            ImageInstanceType::SampledImage { stage: self.pipeline_stage },
            image,
            self.backend,
        );
        (allot, isi)
    }
}

impl ImageCIInheritApi for SampledImageCI {
    open spec fn spec_backend(&self) -> GsBackendImage {
        self.backend
    }

    open spec fn spec_with_backend(&self, backend: GsBackendImage) -> Self {
        SampledImageCI { backend, ..*self }
    }

    fn backend(&self) -> (r: &GsBackendImage) {
        &self.backend
    }

    fn backend_mut(&mut self) -> (r: &mut GsBackendImage) {
        &mut self.backend
    }
}

impl ImageCIApi for SampledImageCI {
    type IConveyor = ISampledImg;

    open spec fn spec_support_checkable(&self) -> bool {
        self.backend.image_ci.property.mipmap != MipmapMethod::Disable ==> (self.backend.image_ci.property.tiling
            == IMAGE_TILING_LINEAR || self.backend.image_ci.property.tiling == IMAGE_TILING_OPTIMAL)
    }

    /// Fails, naming the format, when it cannot have its mip-chain produced as chosen.
    fn check_physical_support(&self, support: &FormatFeatureSupport) -> (r: Result<(), VkError>)
        ensures
            r is Ok <==> self.backend.spec_mipmap_supported(*support),
            r matches Err(e) ==> (e.spec_kind() matches VkErrorKind::Other { description: d }
                && d@ == spec_unsupported_format_message(self.backend.image_ci.specific.format, "mipmap generation"@)),
    {
        self.backend.check_mipmap_support(support)
    }
}

} // verus!
