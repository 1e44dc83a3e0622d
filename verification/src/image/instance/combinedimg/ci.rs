//! Create info of combined image samplers.

use vstd::prelude::*;

use crate::consts::{ IMAGE_TILING_LINEAR, IMAGE_TILING_OPTIMAL };
use crate::error::{ VkError, VkErrorKind };
use crate::descriptor::binding::traits::DescriptorMeta;
use crate::descriptor::types::{ GsDescriptorType, ImageDescriptorType };
use crate::image::target::GsImage;
use crate::image::enums::{ ImagePipelineStage, ImageInstanceType };
use crate::image::storage::ImageStorageInfo;
use crate::image::mipmap::{ MipmapMethod, FormatFeatureSupport };
use crate::image::format::spec_unsupported_format_message;
use crate::image::allocator::target::ImageAllotCI;
use crate::image::instance::api::{ ImageCIInheritApi, ImageCIApi };
use crate::image::instance::base::image::GsBackendImage;
use crate::image::instance::sampler::{ GsSampler, SamplerCI, SamplerCreateInfo };
use crate::image::instance::combinedimg::image::{ GsCombinedImgSampler, ICombinedImg };

verus! {

/// Combined Image Sampler Create Info.
pub struct CombinedImgSamplerCI {
    pub pipeline_stage: ImagePipelineStage,
    pub backend: GsBackendImage,
    pub sampler_ci: SamplerCI,
}

impl GsCombinedImgSampler {
    /// A 2D image holding `storage`, read at `pipeline_stage` through a
    /// default sampler bound as a combined image sampler at `binding`.
    pub fn new(binding: u32, storage: ImageStorageInfo, pipeline_stage: ImagePipelineStage) -> (r: CombinedImgSamplerCI)
        ensures
            r.pipeline_stage == pipeline_stage,
            r.backend == GsBackendImage::spec_sampled(storage),
            r.sampler_ci.descriptor == Some(DescriptorMeta {
                binding,
                descriptor_type: GsDescriptorType::Image(ImageDescriptorType::CombinedImageSampler),
            }),
            r.sampler_ci.ci == SamplerCreateInfo::spec_default(),
    {
        let backend = GsBackendImage::sampled(storage);
        let mut sampler_ci = GsSampler::new();
        sampler_ci.reset_descriptor(DescriptorMeta {
            binding,
            descriptor_type: GsDescriptorType::Image(ImageDescriptorType::CombinedImageSampler),
        });
        CombinedImgSamplerCI { pipeline_stage, backend, sampler_ci }
    }
}

impl CombinedImgSamplerCI {
    /// Takes the values of another sampler; the binding stays.
    pub fn reset_sampler(&mut self, sampler_ci: SamplerCI)
        ensures
            final(self).sampler_ci == (SamplerCI { ci: sampler_ci.ci, ..old(self).sampler_ci }),
            final(self).backend == old(self).backend,
            final(self).pipeline_stage == old(self).pipeline_stage,
    {
        self.sampler_ci.reset_ci(sampler_ci);
    }

    /// Turns the create info into the image's place in a batch and what its
    /// instance is made of, with `sampler_handle` the sampler created from
    /// `sampler_ci`. Fails when the sampler has no binding.
    pub fn refactor(self, image: GsImage, sampler_handle: u64) -> (r: Result<(ImageAllotCI, ICombinedImg), VkError>)
        ensures
            r is Ok <==> self.sampler_ci.descriptor is Some,
            r matches Err(e) ==> (e.spec_kind() matches VkErrorKind::Other { description: m }
                && m@ == "Descriptor binding must be set before creating vk::Sampler."@),
            r matches Ok((allot, isi)) ==> {
                &&& allot == ImageAllotCI::spec_new(
                    ImageInstanceType::CombinedImageSampler { stage: self.pipeline_stage },
                    image,
                    self.backend,
                )
                &&& isi.sampler == (GsSampler { handle: sampler_handle, descriptor: self.sampler_ci.descriptor.unwrap() })
            },
    {
        let descriptor = self.sampler_ci.build_descriptor()?;
        let isi = ICombinedImg::new(GsSampler { handle: sampler_handle, descriptor });
        let allot = ImageAllotCI::new(
            ImageInstanceType::CombinedImageSampler { stage: self.pipeline_stage },
            image,
            self.backend,
        );
        Ok((allot, isi))
    }
}

impl ImageCIInheritApi for CombinedImgSamplerCI {
    open spec fn spec_backend(&self) -> GsBackendImage {
        self.backend
    }

    open spec fn spec_with_backend(&self, backend: GsBackendImage) -> Self {
        CombinedImgSamplerCI { backend, ..*self }
    }

    fn backend(&self) -> (r: &GsBackendImage) {
        &self.backend
    }

    fn backend_mut(&mut self) -> (r: &mut GsBackendImage) {
        &mut self.backend
    }
}

impl ImageCIApi for CombinedImgSamplerCI {
    type IConveyor = ICombinedImg;

    open spec fn spec_support_checkable(&self) -> bool {
        self.backend.image_ci.property.mipmap != MipmapMethod::Disable ==> (self.backend.image_ci.property.tiling
            == IMAGE_TILING_LINEAR || self.backend.image_ci.property.tiling == IMAGE_TILING_OPTIMAL)
    }

    /// Fails, naming the format, when it cannot have its mip-chain produced as chosen.
    fn check_physical_support(&self, support: &FormatFeatureSupport) -> (r: Result<(), VkError>)
        ensures
            r is Ok <==> self.backend.spec_mipmap_supported(*support),
            r matches Err(e) ==> (e.spec_kind() matches VkErrorKind::Other { description: d }
                && d@ == spec_unsupported_format_message(self.backend.image_ci.specific.format, "mipmap generation"@)),
    {
        self.backend.check_mipmap_support(support)
    }
}

} // verus!
