//! Create info of sample images.

use vstd::prelude::*;

use crate::consts::{ IMAGE_TILING_LINEAR, IMAGE_TILING_OPTIMAL };
use crate::error::{ VkError, VkErrorKind };
use crate::descriptor::binding::traits::DescriptorMeta;
use crate::descriptor::binding::content::DescriptorBindingContent;
use crate::descriptor::types::{ GsDescriptorType, ImageDescriptorType };
use crate::image::target::GsImage;
use crate::image::enums::{ ImagePipelineStage, ImageInstanceType };
use crate::image::storage::ImageStorageInfo;
use crate::image::mipmap::{ MipmapMethod, FormatFeatureSupport };
use crate::image::format::spec_unsupported_format_message;
use crate::image::allocator::target::ImageAllotCI;
use crate::types::spec_max;
use crate::image::instance::base::image::{ GsBackendImage, spec_estimate_mip_levels, lemma_mip_level_count_u32 };
use crate::image::instance::sampler::{ GsSampler, SamplerCI, SamplerCreateInfo };
use crate::image::instance::sampler::ci::{ spec_f32_bits_of_u32, f32_bits_of_u32 };
use crate::image::instance::sample::image::{ GsSampleImage, ISampleImg };

verus! {

/// Sample Image Create Info.
pub struct SampleImageCI {
    pub pipeline_stage: ImagePipelineStage,
    pub backend: GsBackendImage,
    pub sampler_ci: SamplerCI,
    pub binding: DescriptorBindingContent,
}

/// The sampler an image of sample kind is read through, once created: bound
/// where the image's binding says.
pub open spec fn spec_binding_sampler(handle: u64, binding: DescriptorBindingContent) -> GsSampler {
    GsSampler { handle, descriptor: DescriptorMeta { binding: binding.binding, descriptor_type: binding.descriptor_type } }
}

/// The highest level of detail a sampler may reach on an image of
/// `levels` mip levels: 0 without a chain, else the number of levels.
pub open spec fn spec_max_lod_bits(method: MipmapMethod, levels: u32) -> u32 {
    if method == MipmapMethod::Disable {
        0
    } else {
        spec_f32_bits_of_u32(levels) as u32
    }
}

impl GsSampleImage {
    /// A 2D image holding `storage`, read at `pipeline_stage` through a
    /// default sampler, bound as `count` combined image samplers at `binding`.
    pub fn new(binding: u32, count: u32, storage: ImageStorageInfo, pipeline_stage: ImagePipelineStage) -> (r: SampleImageCI)
        ensures
            r.pipeline_stage == pipeline_stage,
            r.backend == GsBackendImage::spec_sampled(storage),
            r.sampler_ci.descriptor is None,
            r.sampler_ci.ci == SamplerCreateInfo::spec_default(),
            r.binding == (DescriptorBindingContent {
                binding,
                count,
                descriptor_type: GsDescriptorType::Image(ImageDescriptorType::CombinedImageSampler),
            }),
    {
        let backend = GsBackendImage::sampled(storage);
        let binding = DescriptorBindingContent {
            binding,
            count,
            descriptor_type: GsDescriptorType::Image(ImageDescriptorType::CombinedImageSampler),
        };
        SampleImageCI { pipeline_stage, backend, sampler_ci: GsSampler::new(), binding }
    }
}

impl SampleImageCI {
    /// Replaces the sampler's settings.
    pub fn reset_sampler(&mut self, sampler_ci: SamplerCI)
        ensures
            final(self).sampler_ci == sampler_ci,
            final(self).backend == old(self).backend,
            final(self).binding == old(self).binding,
            final(self).pipeline_stage == old(self).pipeline_stage,
    {
        self.sampler_ci = sampler_ci;
    }

    /// Chooses how the mip-chain is produced, as for any image, and lets the
    /// sampler reach every level of the chain.
    pub fn set_mipmap(&mut self, method: MipmapMethod)
        ensures
            final(self).backend == old(self).backend.spec_set_mipmap(method),
            final(self).sampler_ci == (SamplerCI {
                ci: SamplerCreateInfo {
                    max_lod_bits: spec_max_lod_bits(method, final(self).backend.image_ci.property.mip_levels),
                    ..old(self).sampler_ci.ci
                },
                ..old(self).sampler_ci
            }),
            final(self).binding == old(self).binding,
            final(self).pipeline_stage == old(self).pipeline_stage,
    {
        proof {
            let w = self.backend.image_ci.specific.dimension.width;
            let h = self.backend.image_ci.specific.dimension.height;
            let m: u32 = if w >= h { w } else { h };
            lemma_mip_level_count_u32(m);
            assert(spec_max(w as int, h as int) as nat == m as nat);
        }
        self.backend.set_mipmap(method);
        let levels = self.backend.image_ci.property.mip_levels;
        let max_lod_bits = match method {
            MipmapMethod::Disable => 0,
            MipmapMethod::StepBlit | MipmapMethod::BaseLevelBlit => f32_bits_of_u32(levels),
        };
        self.sampler_ci.ci.max_lod_bits = max_lod_bits;
    }

    /// The number of mip levels a full chain of the image has.
    pub fn estimate_mip_levels(&self) -> (r: u32)
        ensures
            r == spec_estimate_mip_levels(
                self.backend.image_ci.specific.dimension.width,
                self.backend.image_ci.specific.dimension.height,
            ),
    {
        self.backend.estimate_mip_levels()
    }

    /// Fails, naming the format, when it cannot have its mip-chain produced as chosen.
    pub fn check_physical_support(&self, support: &FormatFeatureSupport) -> (r: Result<(), VkError>)
        requires
            self.backend.image_ci.property.mipmap != MipmapMethod::Disable ==> (self.backend.image_ci.property.tiling
                == IMAGE_TILING_LINEAR || self.backend.image_ci.property.tiling == IMAGE_TILING_OPTIMAL),
        ensures
            r is Ok <==> self.backend.spec_mipmap_supported(*support),
            r matches Err(e) ==> (e.spec_kind() matches VkErrorKind::Other { description: d }
                && d@ == spec_unsupported_format_message(self.backend.image_ci.specific.format, "mipmap generation"@)),
    {
        self.backend.check_mipmap_support(support)
    }

    /// Turns the create info into the image's place in a batch and what its
    /// instance is made of, with `sampler_handle` the sampler created from
    /// `sampler_ci`.
    pub fn refactor(self, image: GsImage, sampler_handle: u64) -> (r: (ImageAllotCI, ISampleImg))
        ensures
            r.0 == ImageAllotCI::spec_new(
                ImageInstanceType::CombinedImageSampler { stage: self.pipeline_stage },
                image,
                self.backend,
            ),
            r.1.sampler == spec_binding_sampler(sampler_handle, self.binding),
            r.1.binding == self.binding,
    {
        let descriptor = DescriptorMeta { binding: self.binding.binding, descriptor_type: self.binding.descriptor_type };
        let isi = ISampleImg::new(GsSampler { handle: sampler_handle, descriptor }, self.binding);
        let allot = ImageAllotCI::new(
            ImageInstanceType::CombinedImageSampler { stage: self.pipeline_stage },
            image,
            self.backend,
        );
        (allot, isi)
    }
}

} // verus!
