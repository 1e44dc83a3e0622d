//! Settings of a sample image, kept apart from the ways of changing them.

use vstd::prelude::*;

use crate::descriptor::binding::traits::DescriptorMeta;
use crate::descriptor::binding::content::DescriptorBindingContent;
use crate::descriptor::types::{ GsDescriptorType, ImageDescriptorType };
use crate::image::target::GsImage;
use crate::image::enums::{ ImagePipelineStage, ImageInstanceType };
use crate::image::storage::ImageStorageInfo;
use crate::image::allocator::target::ImageAllotCI;
use crate::image::instance::base::image::GsBackendImage;
use crate::image::instance::sampler::{ GsSampler, SamplerCI, SamplerCreateInfo };
use crate::image::instance::sample::ci::spec_binding_sampler;
use crate::image::instance::sample::image::ISampleImg;

verus! {

/// The settings of a sample image.
pub struct GsSampleImgInfo {
    pub pipeline_stage: ImagePipelineStage,
    pub backend: GsBackendImage,
    pub sampler_ci: SamplerCI,
    pub binding: DescriptorBindingContent,
}

impl GsSampleImgInfo {
    /// A 2D image holding `storage`, read at `pipeline_stage` through a
    /// default sampler, bound as `count` combined image samplers at `binding`.
    pub fn new(binding: u32, count: u32, storage: ImageStorageInfo, pipeline_stage: ImagePipelineStage) -> (r: GsSampleImgInfo)
        ensures
            r.pipeline_stage == pipeline_stage,
            r.backend == GsBackendImage::spec_sampled(storage),
            r.sampler_ci.descriptor is None,
            r.sampler_ci.ci == SamplerCreateInfo::spec_default(),
            r.binding == (DescriptorBindingContent {
                binding,
                count,
                descriptor_type: GsDescriptorType::Image(ImageDescriptorType::CombinedImageSampler),
            }),
    {
        let backend = GsBackendImage::sampled(storage);
        let binding = DescriptorBindingContent {
            binding,
            count,
            descriptor_type: GsDescriptorType::Image(ImageDescriptorType::CombinedImageSampler),
        };
        GsSampleImgInfo { pipeline_stage, backend, sampler_ci: GsSampler::new(), binding }
    }

    /// Replaces the sampler's settings.
    pub fn reset_sampler(&mut self, ci: SamplerCI)
        ensures
            final(self).sampler_ci == ci,
            final(self).backend == old(self).backend,
            final(self).binding == old(self).binding,
            final(self).pipeline_stage == old(self).pipeline_stage,
    {
        self.sampler_ci = ci;
    }

    /// Turns the settings into the image's place in a batch and what its
    /// instance is made of, with `sampler_handle` the sampler created from
    /// `sampler_ci`.
    pub fn refactor(self, image: GsImage, sampler_handle: u64) -> (r: (ImageAllotCI, ISampleImg))
        ensures
            r.0 == ImageAllotCI::spec_new(
                ImageInstanceType::CombinedImageSampler { stage: self.pipeline_stage },
                image,
                self.backend,
            ),
            r.1.sampler == spec_binding_sampler(sampler_handle, self.binding),
            r.1.binding == self.binding,
    {
        let descriptor = DescriptorMeta { binding: self.binding.binding, descriptor_type: self.binding.descriptor_type };
        let isi = ISampleImg::new(GsSampler { handle: sampler_handle, descriptor }, self.binding);
        let allot = ImageAllotCI::new(
            ImageInstanceType::CombinedImageSampler { stage: self.pipeline_stage },
            image,
            self.backend,
        );
        (allot, isi)
    }
}

} // verus!
