//! A batch of images, from create infos to handed-out instances.

use gensokyo_vulkan::consts::{
    ACCESS_SHADER_READ, ACCESS_TRANSFER_READ, ACCESS_TRANSFER_WRITE, ACCESS_DEPTH_STENCIL_ATTACHMENT_READ,
    ACCESS_DEPTH_STENCIL_ATTACHMENT_WRITE, IMAGE_LAYOUT_SHADER_READ_ONLY_OPTIMAL, IMAGE_LAYOUT_TRANSFER_DST_OPTIMAL,
    IMAGE_LAYOUT_TRANSFER_SRC_OPTIMAL, IMAGE_LAYOUT_UNDEFINED, IMAGE_LAYOUT_DEPTH_STENCIL_ATTACHMENT_OPTIMAL,
    PIPELINE_STAGE_FRAGMENT_SHADER, PIPELINE_STAGE_VERTEX_SHADER, FORMAT_R8G8B8A8_UNORM,
    PIPELINE_STAGE_TOP_OF_PIPE, PIPELINE_STAGE_TRANSFER, PIPELINE_STAGE_ALL_COMMANDS,
};
use gensokyo_vulkan::types::{ Dim2D, Dim3D };
use gensokyo_vulkan::image::GsImage;
use gensokyo_vulkan::image::enums::{ ImagePipelineStage, ImageInstanceType, DepthStencilImageFormat };
use gensokyo_vulkan::image::format::GsImageFormat;
use gensokyo_vulkan::image::mipmap::MipmapMethod;
use gensokyo_vulkan::image::storage::{ ImageStorageInfo, ImageSource, ImageSourceData };
use gensokyo_vulkan::image::allocator::target::{ GsImageAllocator, ImageStorageType, BundlePlan, group_by_type };
use gensokyo_vulkan::image::allocator::distributor::GsImageDistributor;
use gensokyo_vulkan::image::instance::api::ImageCIInheritApi;
use gensokyo_vulkan::image::instance::combinedimg::{ GsCombinedImgSampler, ICombinedImg };
use gensokyo_vulkan::image::instance::sampledimg::{ GsSampledImage, ISampledImg };
use gensokyo_vulkan::image::instance::depth::{ GsDSAttachment, IDepthStencilImg };
use gensokyo_vulkan::image::instance::traits::ImageInstance;
use gensokyo_vulkan::image::copy::ImageCopiable;
use gensokyo_vulkan::descriptor::set::DescriptorBindingImgTgt;

fn rgba_storage(width: u32, height: u32, with_data: bool) -> ImageStorageInfo {
    let source = if with_data {
        ImageSource::UploadData(ImageSourceData { data: vec![0u8; (width * height * 4) as usize] })
    } else {
        ImageSource::NoSource
    };
    ImageStorageInfo {
        source,
        format: GsImageFormat::Uncompressed(FORMAT_R8G8B8A8_UNORM),
        dimension: Dim3D { width, height, depth: 1 },
    }
}

#[test]
fn batch_is_prepared_and_handed_out() {
    let mut texture = GsCombinedImgSampler::new(0, rgba_storage(8, 8, true), ImagePipelineStage::FragmentStage);
    texture.set_mipmap(MipmapMethod::StepBlit);
    assert_eq!(texture.backend.image_ci.property.mip_levels, 4);
    let (texture_allot, texture_isi) = texture.refactor(GsImage { handle: 10, alignment_size: 256 }, 77).unwrap();

    let sampled = GsSampledImage::new(1, rgba_storage(4, 4, true), ImagePipelineStage::VertexStage);
    let (sampled_allot, sampled_isi) = sampled.refactor(GsImage { handle: 11, alignment_size: 128 });

    let depth = GsDSAttachment::new(Dim2D { width: 8, height: 8 }, DepthStencilImageFormat::Depth32Bit);
    let (depth_allot, depth_isi) = depth.refactor(GsImage { handle: 12, alignment_size: 64 });

    let mut allocator = GsImageAllocator::create(ImageStorageType::Device);
    let texture_index = allocator.assign_conveyed(texture_allot, texture_isi);
    let sampled_index = allocator.assign_conveyed(sampled_allot, sampled_isi);
    let depth_index = allocator.assign_conveyed(depth_allot, depth_isi);
    assert_eq!(texture_index.assign_index, 0);
    assert_eq!(sampled_index.assign_index, 1);
    assert_eq!(depth_index.assign_index, 2);
    assert_eq!(allocator.samplers.len(), 1);
    assert!(allocator.samplers.contains(&77));

    let memory = allocator.memory_plan().unwrap();
    assert_eq!(memory.total_space, 448);
    assert_eq!(memory.offsets, vec![0, 256, 384]);

    let plans = allocator.prepare_images().unwrap();
    assert_eq!(plans.len(), 3);
    match &plans[0] {
        BundlePlan::Sample(plan) => {
            assert_eq!(plan.transfer_dst.len(), 1);
            assert_eq!(plan.transfer_dst[0].old_layout, IMAGE_LAYOUT_UNDEFINED);
            assert_eq!(plan.transfer_dst[0].new_layout, IMAGE_LAYOUT_TRANSFER_DST_OPTIMAL);
            assert_eq!(plan.transfer_dst[0].dst_access_mask, ACCESS_TRANSFER_WRITE);
            assert_eq!(plan.copies.len(), 1);
            assert_eq!(plan.transfer_src.len(), 1);
            assert_eq!(plan.transfer_src[0].new_layout, IMAGE_LAYOUT_TRANSFER_SRC_OPTIMAL);
            assert_eq!(plan.transfer_src[0].dst_access_mask, ACCESS_TRANSFER_READ);
            assert_eq!(plan.mip_rounds.len(), 3);
            for (k, round) in plan.mip_rounds.iter().enumerate() {
                let level = (k + 1) as u32;
                assert_eq!(round.blits.len(), 1);
                let blit = &round.blits[0].blit;
                assert_eq!(blit.src_subresource.mip_level, level - 1);
                assert_eq!(blit.dst_subresource.mip_level, level);
                assert_eq!(blit.src_offsets.1.x, (8 >> (level - 1)) as i32);
                assert_eq!(blit.dst_offsets.1.x, (8 >> level) as i32);
                assert_eq!(round.prepare[0].subresource_range.base_mip_level, level);
                assert_eq!(round.finish[0].new_layout, IMAGE_LAYOUT_TRANSFER_SRC_OPTIMAL);
                assert_eq!((round.prepare_stages.src, round.prepare_stages.dst), (PIPELINE_STAGE_TOP_OF_PIPE, PIPELINE_STAGE_TRANSFER));
                assert_eq!((round.finish_stages.src, round.finish_stages.dst), (PIPELINE_STAGE_TRANSFER, PIPELINE_STAGE_TRANSFER));
            }
            assert_eq!(plan.shader_read.len(), 1);
            assert_eq!(plan.shader_read[0].subresource_range.level_count, 4);
            assert_eq!(plan.shader_read[0].new_layout, IMAGE_LAYOUT_SHADER_READ_ONLY_OPTIMAL);
            assert_eq!((plan.transfer_dst_stages.src, plan.transfer_dst_stages.dst), (PIPELINE_STAGE_TOP_OF_PIPE, PIPELINE_STAGE_TRANSFER));
            assert_eq!((plan.transfer_src_stages.src, plan.transfer_src_stages.dst), (PIPELINE_STAGE_TRANSFER, PIPELINE_STAGE_ALL_COMMANDS));
            assert_eq!((plan.shader_read_stages.src, plan.shader_read_stages.dst), (PIPELINE_STAGE_TRANSFER, PIPELINE_STAGE_FRAGMENT_SHADER));
        },
        BundlePlan::DepthStencil(_) => panic!("the first group is the combined image sampler"),
    }
    match &plans[1] {
        BundlePlan::Sample(plan) => {
            assert_eq!(plan.transfer_src.len(), 0);
            assert_eq!(plan.mip_rounds.len(), 0);
            assert_eq!(plan.shader_read[0].old_layout, IMAGE_LAYOUT_TRANSFER_DST_OPTIMAL);
            assert_eq!((plan.shader_read_stages.src, plan.shader_read_stages.dst), (PIPELINE_STAGE_TRANSFER, PIPELINE_STAGE_VERTEX_SHADER));
        },
        BundlePlan::DepthStencil(_) => panic!("the second group is the sampled image"),
    }
    match &plans[2] {
        BundlePlan::DepthStencil(plan) => {
            assert_eq!(plan.barriers.len(), 1);
            assert_eq!(plan.barriers[0].new_layout, IMAGE_LAYOUT_DEPTH_STENCIL_ATTACHMENT_OPTIMAL);
            assert_eq!(plan.barriers[0].dst_access_mask, ACCESS_DEPTH_STENCIL_ATTACHMENT_READ | ACCESS_DEPTH_STENCIL_ATTACHMENT_WRITE);
        },
        BundlePlan::Sample(_) => panic!("the third group is the depth attachment"),
    }

    assert_eq!(allocator.image_infos[0].current_layout, IMAGE_LAYOUT_SHADER_READ_ONLY_OPTIMAL);
    assert_eq!(allocator.image_infos[0].current_access, ACCESS_SHADER_READ);
    assert_eq!(allocator.image_infos[1].current_layout, IMAGE_LAYOUT_SHADER_READ_ONLY_OPTIMAL);
    assert_eq!(allocator.image_infos[2].current_layout, IMAGE_LAYOUT_DEPTH_STENCIL_ATTACHMENT_OPTIMAL);
    assert_eq!(allocator.image_infos[2].current_access, 0);

    let samplers = allocator.samplers.clone();
    let distributor = GsImageDistributor::new(allocator.image_infos, samplers, vec![100, 101, 102]);

    let texture: GsCombinedImgSampler = distributor.acquire(texture_index);
    let info = texture.binding_info();
    assert_eq!(info.sampler_handle, 77);
    assert_eq!(info.view_handle, 100);
    assert_eq!(info.dst_layout, IMAGE_LAYOUT_SHADER_READ_ONLY_OPTIMAL);
    assert_eq!(info.meta.binding, 0);
    let copy = texture.full_copy_mipmap(2);
    assert_eq!(copy.handle, 10);
    assert_eq!(copy.layout, IMAGE_LAYOUT_SHADER_READ_ONLY_OPTIMAL);
    assert_eq!((copy.extent.width, copy.extent.height, copy.extent.depth), (2, 2, 1));
    assert_eq!(copy.sub_resource_layers.mip_level, 2);

    let sampled: GsSampledImage = distributor.acquire(sampled_index);
    let info = sampled.binding_info();
    assert_eq!(info.sampler_handle, 0);
    assert_eq!(info.view_handle, 101);
    assert_eq!(info.meta.binding, 1);

    let depth: GsDSAttachment = distributor.acquire(depth_index);
    assert_eq!(depth.attachment().view, 102);
    assert_eq!(depth.attachment().format, DepthStencilImageFormat::Depth32Bit.image_format());

    let repository = distributor.into_repository();
    let handles: Vec<u64> = repository.images.iter().map(|image| image.handle).collect();
    assert_eq!(handles, vec![10, 11, 12]);
    assert_eq!(repository.views, vec![100, 101, 102]);
    assert!(repository.samplers.contains(&77));
}

#[test]
fn missing_upload_data_fails_and_touches_nothing() {
    let first = GsSampledImage::new(0, rgba_storage(4, 4, true), ImagePipelineStage::FragmentStage);
    let second = GsSampledImage::new(1, rgba_storage(4, 4, false), ImagePipelineStage::FragmentStage);
    let (a, _) = first.refactor(GsImage { handle: 1, alignment_size: 16 });
    let (b, _) = second.refactor(GsImage { handle: 2, alignment_size: 16 });
    let mut allocator = GsImageAllocator::create(ImageStorageType::Cached);
    allocator.assign(a, None);
    allocator.assign(b, None);
    let result = allocator.prepare_images();
    match result {
        Err(e) => assert_eq!(e.message(), "The data of sample image is missing."),
        Ok(_) => panic!("an image without data cannot be prepared"),
    }
    assert_eq!(allocator.image_infos[0].current_layout, IMAGE_LAYOUT_UNDEFINED);
    assert_eq!(allocator.image_infos[1].current_layout, IMAGE_LAYOUT_UNDEFINED);
}

#[test]
fn empty_batch_has_no_memory() {
    let allocator = GsImageAllocator::create(ImageStorageType::Device);
    match allocator.memory_plan() {
        Err(e) => assert_eq!(e.message(), "There must be images appended to allocator before allocate memory."),
        Ok(_) => panic!("an empty batch has no memory to allocate"),
    }
}

#[test]
fn groups_partition_the_batch_by_kind() {
    let fragment = ImagePipelineStage::FragmentStage;
    let mut allocator = GsImageAllocator::create(ImageStorageType::Device);
    for (k, kind) in [0u32, 1, 0, 2, 1].iter().enumerate() {
        let image = GsImage { handle: k as u64, alignment_size: 16 };
        let allot = match kind {
            0 => GsSampledImage::new(k as u32, rgba_storage(2, 2, true), fragment).refactor(image).0,
            1 => GsCombinedImgSampler::new(k as u32, rgba_storage(2, 2, true), fragment).refactor(image, 5).unwrap().0,
            _ => GsDSAttachment::new(Dim2D { width: 2, height: 2 }, DepthStencilImageFormat::Depth24BitStencil8Bit).refactor(image).0,
        };
        allocator.assign(allot, None);
    }
    let groups = group_by_type(&allocator.image_infos);
    assert_eq!(groups.len(), 3);
    assert_eq!(groups[0].0, ImageInstanceType::SampledImage { stage: fragment });
    assert_eq!(groups[0].1, vec![0, 2]);
    assert_eq!(groups[1].0, ImageInstanceType::CombinedImageSampler { stage: fragment });
    assert_eq!(groups[1].1, vec![1, 4]);
    assert_eq!(groups[2].0, ImageInstanceType::DepthStencilAttachment);
    assert_eq!(groups[2].1, vec![3]);
}

#[test]
fn instance_is_built_from_its_parts() {
    let isi = ISampledImg::new(gensokyo_vulkan::descriptor::DescriptorMeta {
        binding: 3,
        descriptor_type: gensokyo_vulkan::descriptor::GsDescriptorType::Image(
            gensokyo_vulkan::descriptor::ImageDescriptorType::SampledImage,
        ),
    });
    let entity = gensokyo_vulkan::image::entity::ImageEntity::new(&GsImage { handle: 4, alignment_size: 1 }, 9);
    assert_eq!(entity.handle(), 4);
    let desc = gensokyo_vulkan::image::instance::traits::ImageInstanceInfoDesc {
        current_layout: IMAGE_LAYOUT_SHADER_READ_ONLY_OPTIMAL,
        dimension: Dim3D { width: 16, height: 4, depth: 1 },
        subrange: gensokyo_vulkan::image::view::ImageViewCI::default_ci().subrange,
    };
    let image = GsSampledImage::build(isi, entity, desc);
    let ranges = image.full_copy_mipmap_layer_ranges(1);
    assert_eq!(ranges.ranges.len(), 1);
    assert_eq!(ranges.handle, 4);
    let depth = IDepthStencilImg::new(DepthStencilImageFormat::Depth32Bit.image_format(), 2);
    let depth = GsDSAttachment::build(depth, entity, desc);
    assert_eq!(depth.full_copy_mipmap(0).sub_resource_layers.aspect_mask, 2);
    let combined = ICombinedImg::new(gensokyo_vulkan::image::instance::sampler::GsSampler {
        handle: 8,
        descriptor: isi.descriptor,
    });
    let combined = GsCombinedImgSampler::build(combined, entity, desc);
    assert_eq!(combined.full_copy_mipmap(3).extent.width, 2);
    assert_eq!(combined.full_copy_mipmap(3).extent.height, 1);
}

#[test]
fn a_group_plan_ignores_the_other_images() {
    let fragment = ImagePipelineStage::FragmentStage;
    let texture = |handle: u64| {
        let mut ci = GsCombinedImgSampler::new(0, rgba_storage(16, 16, true), fragment);
        ci.set_mipmap(MipmapMethod::StepBlit);
        ci.refactor(GsImage { handle, alignment_size: 64 }, 3).unwrap().0
    };
    let mut alone = GsImageAllocator::create(ImageStorageType::Device);
    alone.assign(texture(30), None);
    let mut mixed = GsImageAllocator::create(ImageStorageType::Device);
    mixed.assign(GsSampledImage::new(1, rgba_storage(2, 2, true), fragment).refactor(GsImage { handle: 31, alignment_size: 8 }).0, None);
    mixed.assign(texture(30), None);
    let alone_plans = alone.prepare_images().unwrap();
    let mixed_plans = mixed.prepare_images().unwrap();
    let (a, b) = match (&alone_plans[0], &mixed_plans[1]) {
        (BundlePlan::Sample(a), BundlePlan::Sample(b)) => (a, b),
        _ => panic!("both are sampled groups"),
    };
    assert_eq!(a.transfer_dst, b.transfer_dst);
    assert_eq!(a.transfer_src, b.transfer_src);
    assert_eq!(a.shader_read, b.shader_read);
    assert_eq!(a.mip_rounds.len(), b.mip_rounds.len());
    for (x, y) in a.mip_rounds.iter().zip(b.mip_rounds.iter()) {
        assert_eq!(x.prepare, y.prepare);
        assert_eq!(x.blits, y.blits);
        assert_eq!(x.finish, y.finish);
    }
}

#[test]
fn cube_map_uploads_each_face() {
    let cube = gensokyo_vulkan::image::instance::cubemap::GsCubeMapImg::new(2, rgba_storage(8, 8, true), ImagePipelineStage::FragmentStage);
    let (allot, icm) = cube.refactor(GsImage { handle: 40, alignment_size: 64 }, 9).unwrap();
    assert_eq!(allot.typ, ImageInstanceType::CubeMapImage { stage: ImagePipelineStage::FragmentStage });
    assert_eq!(allot.typ.layer_count(), 6);
    assert_eq!(icm.sampler.handle, 9);
    let mut allocator = GsImageAllocator::create(ImageStorageType::Device);
    allocator.assign(allot, Some(gensokyo_vulkan::image::instance::sampler::GsSamplerMirror(9)));
    let plans = allocator.prepare_images().unwrap();
    assert_eq!(plans.len(), 1);
    match &plans[0] {
        BundlePlan::Sample(plan) => {
            assert_eq!(plan.transfer_dst[0].subresource_range.layer_count, 6);
            assert_eq!(plan.copies.len(), 1);
            match &plan.copies[0] {
                gensokyo_vulkan::image::instance::base::barrier::ImageUploadCopy::PerLayer(per_layer) => {
                    assert_eq!(per_layer.handle, 40);
                    assert_eq!(per_layer.ranges.len(), 6);
                    for (i, range) in per_layer.ranges.iter().enumerate() {
                        assert_eq!(range.sub_resource_layers.base_array_layer, i as u32);
                        assert_eq!(range.sub_resource_layers.layer_count, 1);
                        assert_eq!(range.sub_resource_layers.mip_level, 0);
                        assert_eq!((range.extent.width, range.extent.height, range.extent.depth), (8, 8, 1));
                    }
                },
                _ => panic!("a cube map is copied face by face"),
            }
            assert_eq!(plan.shader_read[0].subresource_range.layer_count, 6);
        },
        BundlePlan::DepthStencil(_) => panic!("a cube map is sampled"),
    }
    assert_eq!(allocator.image_infos[0].current_layout, IMAGE_LAYOUT_SHADER_READ_ONLY_OPTIMAL);
}

#[test]
fn missing_data_is_reported_before_any_chain_is_looked_at() {
    let fragment = ImagePipelineStage::FragmentStage;
    // a group without data and an unsupported chain: the data is checked first
    let mut lone = GsCombinedImgSampler::new(0, rgba_storage(8, 8, false), fragment);
    lone.set_mipmap(MipmapMethod::BaseLevelBlit);
    let mut allocator = GsImageAllocator::create(ImageStorageType::Device);
    allocator.assign(lone.refactor(GsImage { handle: 1, alignment_size: 16 }, 4).unwrap().0, None);
    match allocator.prepare_images() {
        Err(e) => assert_eq!(e.message(), "The data of sample image is missing."),
        Ok(_) => panic!("an image without data cannot be prepared"),
    }
    assert_eq!(allocator.image_infos[0].current_layout, IMAGE_LAYOUT_UNDEFINED);

    // a later group with an unsupported chain is never reached
    let missing = GsSampledImage::new(1, rgba_storage(4, 4, false), fragment);
    let mut later = GsCombinedImgSampler::new(2, rgba_storage(8, 8, true), fragment);
    later.set_mipmap(MipmapMethod::BaseLevelBlit);
    let mut allocator = GsImageAllocator::create(ImageStorageType::Device);
    allocator.assign(missing.refactor(GsImage { handle: 2, alignment_size: 16 }).0, None);
    allocator.assign(later.refactor(GsImage { handle: 3, alignment_size: 16 }, 5).unwrap().0, None);
    match allocator.prepare_images() {
        Err(e) => assert_eq!(e.message(), "The data of sample image is missing."),
        Ok(_) => panic!("an image without data cannot be prepared"),
    }
    assert_eq!(allocator.image_infos[0].current_layout, IMAGE_LAYOUT_UNDEFINED);
    assert_eq!(allocator.image_infos[1].current_layout, IMAGE_LAYOUT_UNDEFINED);
}
