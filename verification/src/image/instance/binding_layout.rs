//! The layout an image instance is bound in is the layout its preparation leaves it in.

use vstd::prelude::*;

use crate::descriptor::set::DescriptorBindingImgTgt;
use crate::image::allocator::target::{ ImageAllotCI, spec_prepared };
use crate::image::instance::sample::GsSampleImage;
use crate::image::instance::sampledimg::GsSampledImage;
use crate::image::instance::combinedimg::GsCombinedImgSampler;
use crate::image::instance::cubemap::GsCubeMapImg;

verus! {

/// A sampled image is bound, for shaders to read it, in the layout the
/// preparation of a batch leaves every image of a sampled kind in.
pub proof fn lemma_sampled_image_bound_as_prepared(image: GsSampledImage, info: ImageAllotCI)
    requires
        info.typ.is_sampled_kind(),
    ensures
        image.spec_binding_info().dst_layout == spec_prepared(info).current_layout,
{
}

/// A combined image sampler is bound in the layout the preparation of a
/// batch leaves every image of a sampled kind in.
pub proof fn lemma_combined_image_bound_as_prepared(image: GsCombinedImgSampler, info: ImageAllotCI)
    requires
        info.typ.is_sampled_kind(),
    ensures
        image.spec_binding_info().dst_layout == spec_prepared(info).current_layout,
{
}

/// A cube map is bound in the layout the preparation of a batch leaves every
/// image of a sampled kind in.
pub proof fn lemma_cube_map_bound_as_prepared(image: GsCubeMapImg, info: ImageAllotCI)
    requires
        info.typ.is_sampled_kind(),
    ensures
        image.spec_binding_info().dst_layout == spec_prepared(info).current_layout,
{
}

/// A sample image is bound in the layout the preparation of a batch leaves
/// every image of a sampled kind in.
pub proof fn lemma_sample_image_bound_as_prepared(image: GsSampleImage, info: ImageAllotCI)
    requires
        info.typ.is_sampled_kind(),
    ensures
        image.spec_binding_info().dst_layout == spec_prepared(info).current_layout,
{
}

} // verus!
