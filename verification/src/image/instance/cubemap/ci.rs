//! Create info of cube maps.

use vstd::prelude::*;

use crate::consts::{ IMAGE_TILING_LINEAR, IMAGE_TILING_OPTIMAL, IMAGE_CREATE_CUBE_COMPATIBLE, IMAGE_VIEW_TYPE_CUBE };
use crate::error::{ VkError, VkErrorKind };
use crate::descriptor::binding::traits::DescriptorMeta;
use crate::descriptor::types::{ GsDescriptorType, ImageDescriptorType };
use crate::image::target::{ GsImage, ImageTgtCI, ImagePropertyCI };
use crate::image::view::{ ImageViewCI, ImageSubRange };
use crate::image::enums::{ ImagePipelineStage, ImageInstanceType };
use crate::image::storage::ImageStorageInfo;
use crate::image::mipmap::{ MipmapMethod, FormatFeatureSupport };
use crate::image::format::spec_unsupported_format_message;
use crate::image::allocator::target::ImageAllotCI;
use crate::image::instance::api::{ ImageCIInheritApi, ImageCIApi };
use crate::image::instance::base::image::GsBackendImage;
use crate::image::instance::sampler::{ GsSampler, SamplerCI, SamplerCreateInfo };
use crate::image::instance::cubemap::image::{ GsCubeMapImg, ICubeMap };

verus! {

/// Cube Map Image Create Info.
pub struct CubeMapImgCI {
    pub pipeline_stage: ImagePipelineStage,
    pub backend: GsBackendImage,
    pub sampler_ci: SamplerCI,
}

/// The settings of a cube map holding `storage`: a sampled 2D image of six
/// layers that can be viewed as a cube, and a cube view of all six layers.
pub open spec fn spec_cube_backend(storage: ImageStorageInfo) -> GsBackendImage {
    let sampled = GsBackendImage::spec_sampled(storage);
    GsBackendImage {
        image_ci: ImageTgtCI {
            property: ImagePropertyCI {
                flags: IMAGE_CREATE_CUBE_COMPATIBLE,
                array_layers: 6,
                ..sampled.image_ci.property
            },
            ..sampled.image_ci
        },
        view_ci: ImageViewCI {
            view_type: IMAGE_VIEW_TYPE_CUBE,
            subrange: ImageSubRange { layer_count: 6, ..sampled.view_ci.subrange },
            ..sampled.view_ci
        },
        ..sampled
    }
}

impl GsCubeMapImg {
    /// A cube map holding `storage` (one 2D image of six layers), read at
    /// `pipeline_stage` through a default sampler bound as a combined image
    /// sampler at `binding`.
    pub fn new(binding: u32, storage: ImageStorageInfo, pipeline_stage: ImagePipelineStage) -> (r: CubeMapImgCI)
        ensures
            r.pipeline_stage == pipeline_stage,
            r.backend == spec_cube_backend(storage),
            r.sampler_ci.descriptor == Some(DescriptorMeta {
                binding,
                descriptor_type: GsDescriptorType::Image(ImageDescriptorType::CombinedImageSampler),
            }),
            r.sampler_ci.ci == SamplerCreateInfo::spec_default(),
    {
        let mut backend = GsBackendImage::sampled(storage);
        backend.image_ci.property.flags = IMAGE_CREATE_CUBE_COMPATIBLE;
        backend.image_ci.property.array_layers = 6;
        backend.view_ci.view_type = IMAGE_VIEW_TYPE_CUBE;
        backend.view_ci.subrange.layer_count = 6;
        let mut sampler_ci = GsSampler::new();
        sampler_ci.reset_descriptor(DescriptorMeta {
            binding,
            descriptor_type: GsDescriptorType::Image(ImageDescriptorType::CombinedImageSampler),
        });
        CubeMapImgCI { pipeline_stage, backend, sampler_ci }
    }
}

impl CubeMapImgCI {
    /// Replaces the sampler, its binding included.
    pub fn reset_sampler(&mut self, sampler_ci: SamplerCI)
        ensures
            final(self).sampler_ci == sampler_ci,
            final(self).backend == old(self).backend,
            final(self).pipeline_stage == old(self).pipeline_stage,
    {
        self.sampler_ci = sampler_ci;
    }

    /// Turns the create info into the image's place in a batch (as a six-layer
    /// cube map) and what its instance is made of, with `sampler_handle`
    /// the sampler created from `sampler_ci`. Fails when the sampler has no binding.
    pub fn refactor(self, image: GsImage, sampler_handle: u64) -> (r: Result<(ImageAllotCI, ICubeMap), VkError>)
        ensures
            r is Ok <==> self.sampler_ci.descriptor is Some,
            r matches Err(e) ==> (e.spec_kind() matches VkErrorKind::Other { description: m }
                && m@ == "Descriptor binding must be set before creating vk::Sampler."@),
            r matches Ok((allot, icm)) ==> {
                &&& allot == ImageAllotCI::spec_new(
                    ImageInstanceType::CubeMapImage { stage: self.pipeline_stage },
                    image,
                    self.backend,
                )
                &&& icm.sampler == (GsSampler { handle: sampler_handle, descriptor: self.sampler_ci.descriptor.unwrap() })
            },
    {
        let descriptor = self.sampler_ci.build_descriptor()?;
        let icm = ICubeMap::new(GsSampler { handle: sampler_handle, descriptor });
        let allot = ImageAllotCI::new(
            ImageInstanceType::CubeMapImage { stage: self.pipeline_stage },
            image,
            self.backend,
        );
        Ok((allot, icm))
    }
}

impl ImageCIInheritApi for CubeMapImgCI {
    open spec fn spec_backend(&self) -> GsBackendImage {
        self.backend
    }

    open spec fn spec_with_backend(&self, backend: GsBackendImage) -> Self {
        CubeMapImgCI { backend, ..*self }
    }

    fn backend(&self) -> (r: &GsBackendImage) {
        &self.backend
    }

    fn backend_mut(&mut self) -> (r: &mut GsBackendImage) {
        &mut self.backend
    }
}

impl ImageCIApi for CubeMapImgCI {
    type IConveyor = ICubeMap;

    open spec fn spec_support_checkable(&self) -> bool {
        self.backend.image_ci.property.mipmap != MipmapMethod::Disable ==> (self.backend.image_ci.property.tiling
            == IMAGE_TILING_LINEAR || self.backend.image_ci.property.tiling == IMAGE_TILING_OPTIMAL)
    }

    /// Fails, naming the format, when it cannot have its mip-chain produced as chosen.
    fn check_physical_support(&self, support: &FormatFeatureSupport) -> (r: Result<(), VkError>)
        ensures
            r is Ok <==> self.backend.spec_mipmap_supported(*support),
            r matches Err(e) ==> (e.spec_kind() matches VkErrorKind::Other { description: d }
                && d@ == spec_unsupported_format_message(self.backend.image_ci.specific.format, "mipmap generation"@)),
    {
        self.backend.check_mipmap_support(support)
    }
}

} // verus!
