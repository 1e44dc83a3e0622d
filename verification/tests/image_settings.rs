//! Image create infos: their defaults, their setters and the device checks.

use gensokyo_vulkan::consts::{
    IMAGE_USAGE_SAMPLED, IMAGE_USAGE_TRANSFER_DST, IMAGE_USAGE_TRANSFER_SRC, IMAGE_USAGE_DEPTH_STENCIL_ATTACHMENT,
    IMAGE_TILING_LINEAR, IMAGE_TILING_OPTIMAL, IMAGE_VIEW_TYPE_CUBE, IMAGE_CREATE_CUBE_COMPATIBLE, IMAGE_ASPECT_DEPTH,
    IMAGE_ASPECT_STENCIL, IMAGE_ASPECT_COLOR, FORMAT_R8G8B8A8_UNORM, FORMAT_D32_SFLOAT, FORMAT_FEATURE_BLIT_SRC,
    FORMAT_FEATURE_BLIT_DST, FORMAT_FEATURE_DEPTH_STENCIL_ATTACHMENT,
};
use gensokyo_vulkan::types::{ Dim2D, Dim3D };
use gensokyo_vulkan::image::GsImage;
use gensokyo_vulkan::image::enums::{ ImagePipelineStage, DepthStencilImageFormat };
use gensokyo_vulkan::image::format::GsImageFormat;
use gensokyo_vulkan::image::mipmap::{ MipmapMethod, FormatFeatureSupport };
use gensokyo_vulkan::image::storage::{ ImageStorageInfo, ImageSource };
use gensokyo_vulkan::image::view::ImageSubRange;
use gensokyo_vulkan::image::instance::api::{ ImageCIInheritApi, ImageCIApi };
use gensokyo_vulkan::image::instance::base::image::{ GsBackendImage, mip_level_count };
use gensokyo_vulkan::image::instance::combinedimg::GsCombinedImgSampler;
use gensokyo_vulkan::image::instance::cubemap::GsCubeMapImg;
use gensokyo_vulkan::image::instance::sampledimg::GsSampledImage;
use gensokyo_vulkan::image::instance::depth::{ GsDSAttachment, GsDSAttachmentInfo };
use gensokyo_vulkan::image::instance::sample::{ GsSampleImage, GsSampleImgInfo };
use gensokyo_vulkan::image::instance::sampler::GsSampler;
use gensokyo_vulkan::image::instance::sampler::ci::f32_bits_of_u32;

fn storage(width: u32, height: u32) -> ImageStorageInfo {
    ImageStorageInfo {
        source: ImageSource::NoSource,
        format: GsImageFormat::Uncompressed(FORMAT_R8G8B8A8_UNORM),
        dimension: Dim3D { width, height, depth: 1 },
    }
}

fn original_mip_levels(width: u32, height: u32) -> u32 {
    let max_extent = std::cmp::max(width, height) as f32;
    (max_extent.log2().floor() as u32) + 1
}

#[test]
fn mip_level_count_is_floor_log2_plus_one() {
    assert_eq!(mip_level_count(0), 1);
    assert_eq!(mip_level_count(1), 1);
    assert_eq!(mip_level_count(2), 2);
    assert_eq!(mip_level_count(3), 2);
    assert_eq!(mip_level_count(4), 3);
    assert_eq!(mip_level_count(1024), 11);
    assert_eq!(mip_level_count(1023), 10);
    assert_eq!(mip_level_count(u32::MAX), 32);
}

#[test]
fn estimated_mip_levels_match_the_float_formula() {
    for (w, h) in [(0u32, 0u32), (1, 1), (8, 8), (1024, 512), (300, 1000), (4096, 4096)] {
        let backend = GsBackendImage::from_storage(storage(w, h));
        assert_eq!(backend.estimate_mip_levels(), original_mip_levels(w, h), "extent {}x{}", w, h);
    }
    for x in 0u32..=(1 << 20) {
        assert_eq!(mip_level_count(x), original_mip_levels(x, 0), "extent {}", x);
    }
}

#[test]
fn set_mipmap_gives_a_full_chain_or_a_single_level() {
    let mut ci = GsCombinedImgSampler::new(0, storage(1024, 512), ImagePipelineStage::FragmentStage);
    assert_eq!(ci.backend.image_ci.property.mip_levels, 1);
    ci.set_mipmap(MipmapMethod::StepBlit);
    assert_eq!(ci.backend.image_ci.property.mip_levels, 11);
    assert_eq!(ci.backend.image_ci.property.usages, IMAGE_USAGE_SAMPLED | IMAGE_USAGE_TRANSFER_SRC | IMAGE_USAGE_TRANSFER_DST);
    assert_eq!(ci.backend.view_ci.subrange.base_mip_level, 0);
    assert_eq!(ci.backend.view_ci.subrange.level_count, 11);
    ci.set_mipmap(MipmapMethod::Disable);
    assert_eq!(ci.backend.image_ci.property.mip_levels, 1);
    assert_eq!(ci.backend.image_ci.property.usages, IMAGE_USAGE_SAMPLED | IMAGE_USAGE_TRANSFER_DST);
    assert_eq!(ci.backend.view_ci.subrange.level_count, 1);
}

#[test]
fn last_mipmap_choice_wins() {
    let mut once = GsBackendImage::from_storage(storage(64, 16));
    once.set_mipmap(MipmapMethod::BaseLevelBlit);
    let mut twice = GsBackendImage::from_storage(storage(64, 16));
    twice.set_mipmap(MipmapMethod::Disable);
    twice.set_mipmap(MipmapMethod::BaseLevelBlit);
    assert_eq!(once, twice);
    twice.set_mipmap(MipmapMethod::BaseLevelBlit);
    assert_eq!(once, twice);
}

#[test]
fn setters_change_only_their_setting() {
    let mut ci = GsSampledImage::new(2, storage(16, 16), ImagePipelineStage::VertexStage);
    let before = GsBackendImage::sampled(storage(16, 16));
    assert_eq!(ci.backend, before);
    ci.set_tiling(IMAGE_TILING_LINEAR);
    ci.set_samples(4, 2, 3);
    ci.set_mapping_component(1, 2, 3, 4);
    ci.set_share_queues(vec![0, 2]);
    let range = ImageSubRange { aspect_mask: IMAGE_ASPECT_COLOR, base_mip_level: 1, level_count: 1, base_array_layer: 0, layer_count: 2 };
    ci.set_subrange(range);
    assert_eq!(ci.backend.image_ci.property.tiling, IMAGE_TILING_LINEAR);
    assert_eq!(ci.backend.image_ci.property.sample_count, 4);
    assert_eq!(ci.backend.image_ci.property.mip_levels, 2);
    assert_eq!(ci.backend.image_ci.property.array_layers, 3);
    assert_eq!(ci.backend.view_ci.components.r, 1);
    assert_eq!(ci.backend.view_ci.components.a, 4);
    assert_eq!(ci.backend.image_ci.specific.share_queue_families, Some(vec![0, 2]));
    assert_eq!(ci.backend.view_ci.subrange, range);
    assert_eq!(ci.backend.image_ci.property.usages, before.image_ci.property.usages);
    assert_eq!(ci.backend.image_ci.specific.format, before.image_ci.specific.format);
    assert_eq!(ci.estimate_mip_levels(), 5);
}

#[test]
fn mipmap_support_needs_blit_features() {
    let mut ci = GsCombinedImgSampler::new(0, storage(16, 16), ImagePipelineStage::FragmentStage);
    let none = FormatFeatureSupport { linear_tiling_features: 0, optimal_tiling_features: 0 };
    assert!(ci.check_physical_support(&none).is_ok());
    ci.set_mipmap(MipmapMethod::StepBlit);
    match ci.check_physical_support(&none) {
        Err(e) => assert_eq!(e.message(), "vk::Format: Uncompressed(R8G8B8A8_UNORM) is not support for mipmap generation"),
        Ok(_) => panic!("a format without blit features cannot grow a chain"),
    }
    let optimal = FormatFeatureSupport {
        linear_tiling_features: 0,
        optimal_tiling_features: FORMAT_FEATURE_BLIT_SRC | FORMAT_FEATURE_BLIT_DST,
    };
    assert!(ci.check_physical_support(&optimal).is_ok());
    ci.set_tiling(IMAGE_TILING_LINEAR);
    assert!(ci.check_physical_support(&optimal).is_err());
    let only_src = FormatFeatureSupport { linear_tiling_features: FORMAT_FEATURE_BLIT_SRC, optimal_tiling_features: 0 };
    assert!(ci.check_physical_support(&only_src).is_err());
}

#[test]
fn depth_support_needs_the_attachment_feature() {
    let ci = GsDSAttachment::new(Dim2D { width: 800, height: 600 }, DepthStencilImageFormat::Depth32Bit);
    assert_eq!(ci.backend.image_ci.property.usages, IMAGE_USAGE_DEPTH_STENCIL_ATTACHMENT);
    assert_eq!(ci.backend.image_ci.property.tiling, IMAGE_TILING_OPTIMAL);
    assert_eq!(ci.backend.image_ci.specific.dimension, Dim3D { width: 800, height: 600, depth: 1 });
    assert_eq!(ci.backend.view_ci.subrange.aspect_mask, IMAGE_ASPECT_DEPTH);
    let none = FormatFeatureSupport { linear_tiling_features: FORMAT_FEATURE_DEPTH_STENCIL_ATTACHMENT, optimal_tiling_features: 0 };
    match ci.check_physical_support(&none) {
        Err(e) => assert_eq!(e.message(), "vk::Format: Uncompressed(D32_SFLOAT) is not support for DepthStencil Attachment"),
        Ok(_) => panic!("the optimal tiling lacks the feature"),
    }
    let good = FormatFeatureSupport { linear_tiling_features: 0, optimal_tiling_features: FORMAT_FEATURE_DEPTH_STENCIL_ATTACHMENT };
    assert!(ci.check_physical_support(&good).is_ok());
    let (allot, idsi) = ci.refactor(GsImage { handle: 3, alignment_size: 9 });
    assert_eq!(idsi.format, GsImageFormat::Uncompressed(FORMAT_D32_SFLOAT));
    assert_eq!(idsi.aspect, IMAGE_ASPECT_DEPTH);
    assert_eq!(allot.space, 9);
}

#[test]
fn depth_info_matches_the_attachment_settings() {
    let info = GsDSAttachmentInfo::new(Dim2D { width: 4, height: 2 }, DepthStencilImageFormat::Depth24BitStencil8Bit);
    let ci = GsDSAttachment::new(Dim2D { width: 4, height: 2 }, DepthStencilImageFormat::Depth24BitStencil8Bit);
    assert_eq!(info.image_ci, ci.backend.image_ci);
    assert_eq!(info.view_ci, ci.backend.view_ci);
    assert_eq!(info.view_ci.subrange.aspect_mask, IMAGE_ASPECT_DEPTH | IMAGE_ASPECT_STENCIL);
}

#[test]
fn cube_map_has_six_layers() {
    let ci = GsCubeMapImg::new(5, storage(32, 32), ImagePipelineStage::FragmentStage);
    assert_eq!(ci.backend.image_ci.property.flags, IMAGE_CREATE_CUBE_COMPATIBLE);
    assert_eq!(ci.backend.image_ci.property.array_layers, 6);
    assert_eq!(ci.backend.view_ci.view_type, IMAGE_VIEW_TYPE_CUBE);
    assert_eq!(ci.backend.view_ci.subrange.layer_count, 6);
    assert_eq!(ci.sampler_ci.descriptor.unwrap().binding, 5);
}

#[test]
fn sampler_without_binding_cannot_be_made() {
    let mut ci = GsCubeMapImg::new(5, storage(32, 32), ImagePipelineStage::FragmentStage);
    ci.reset_sampler(GsSampler::new());
    match ci.refactor(GsImage { handle: 1, alignment_size: 1 }, 2) {
        Err(e) => assert_eq!(e.message(), "Descriptor binding must be set before creating vk::Sampler."),
        Ok(_) => panic!("the sampler has no binding"),
    }
    let mut ci = GsCombinedImgSampler::new(6, storage(32, 32), ImagePipelineStage::FragmentStage);
    ci.reset_sampler(GsSampler::new().lod(0, 0, 0x4000_0000));
    assert_eq!(ci.sampler_ci.descriptor.unwrap().binding, 6);
    assert_eq!(ci.sampler_ci.ci.max_lod_bits, 0x4000_0000);
    let (_, isi) = ci.refactor(GsImage { handle: 1, alignment_size: 1 }, 2).unwrap();
    assert_eq!(isi.sampler.handle, 2);
}

#[test]
fn small_integers_as_single_precision_bits() {
    for n in 0u32..=4096 {
        assert_eq!(f32_bits_of_u32(n), (n as f32).to_bits(), "n = {}", n);
    }
    for n in [65_535u32, 1 << 20, 12_345_678, 16_777_215] {
        assert_eq!(f32_bits_of_u32(n), (n as f32).to_bits(), "n = {}", n);
    }
}

#[test]
fn sample_image_lets_the_sampler_reach_every_level() {
    let mut ci = GsSampleImage::new(1, 2, storage(256, 64), ImagePipelineStage::FragmentStage);
    assert_eq!(ci.binding.count, 2);
    assert_eq!(ci.estimate_mip_levels(), 9);
    ci.set_mipmap(MipmapMethod::StepBlit);
    assert_eq!(ci.backend.image_ci.property.mip_levels, 9);
    assert_eq!(ci.sampler_ci.ci.max_lod_bits, 9.0f32.to_bits());
    ci.set_mipmap(MipmapMethod::Disable);
    assert_eq!(ci.sampler_ci.ci.max_lod_bits, 0.0f32.to_bits());
    let (allot, isi) = ci.refactor(GsImage { handle: 7, alignment_size: 3 }, 70);
    assert_eq!(allot.image.handle, 7);
    assert_eq!(isi.sampler.handle, 70);
    assert_eq!(isi.sampler.descriptor.binding, 1);

    let mut info = GsSampleImgInfo::new(1, 2, storage(256, 64), ImagePipelineStage::FragmentStage);
    info.reset_sampler(GsSampler::new_descriptor(4));
    assert_eq!(info.sampler_ci.descriptor.unwrap().binding, 4);
    let (_, isi) = info.refactor(GsImage { handle: 7, alignment_size: 3 }, 71);
    assert_eq!(isi.binding.binding, 1);
}
