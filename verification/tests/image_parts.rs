//! The smaller pieces of image handling: formats, samplers, barriers, copies.

use ash::vk;
use gensokyo_vulkan::consts::{ VK_TRUE, VK_FALSE, QUEUE_FAMILY_IGNORED, FORMAT_R8G8B8A8_UNORM, IMAGE_ASPECT_COLOR, IMAGE_LAYOUT_TRANSFER_DST_OPTIMAL, IMAGE_LAYOUT_UNDEFINED, IMAGE_LAYOUT_SHADER_READ_ONLY_OPTIMAL, ACCESS_TRANSFER_WRITE };
use gensokyo_vulkan::types::Dim3D;
use gensokyo_vulkan::image::GsImage;
use gensokyo_vulkan::image::format::{ GsImageFormat, CompressionFeatures, unsupported_format_message };
use gensokyo_vulkan::image::compress::ImageCompressType;
use gensokyo_vulkan::image::barrier::ImageBarrierCI;
use gensokyo_vulkan::image::view::{ ImageSubRange, ImageViewCI };
use gensokyo_vulkan::image::copy::{ mip_extent, split_block, ImageCopiable };
use gensokyo_vulkan::image::enums::{ ImageInstanceType, ImagePipelineStage, DepthStencilImageFormat };
use gensokyo_vulkan::image::entity::ImageEntity;
use gensokyo_vulkan::image::instance::traits::{ ImageInstanceInfoDesc, ImageInstance };
use gensokyo_vulkan::image::instance::cubemap::{ GsCubeMapImg, ICubeMap };
use gensokyo_vulkan::image::instance::base::mipmap::blit_layer_count;
use gensokyo_vulkan::image::instance::sampler::{ GsSampler, SamplerCreateInfo };
use gensokyo_vulkan::descriptor::{ DescriptorMeta, GsDescriptorType, ImageDescriptorType, BufferDescriptorType, DescriptorBindingContent };
use gensokyo_vulkan::descriptor::binding::DescriptorBufferBindingInfo;
use gensokyo_vulkan::descriptor::set::GsDescriptorSet;
use gensokyo_vulkan::descriptor::layout::GsDescriptorSetLayout;

#[test]
fn formats_are_described_by_family_and_vulkan_name() {
    assert_eq!(GsImageFormat::default_format(), GsImageFormat::Uncompressed(FORMAT_R8G8B8A8_UNORM));
    assert_eq!(GsImageFormat::Uncompressed(FORMAT_R8G8B8A8_UNORM).describe(), "Uncompressed(R8G8B8A8_UNORM)");
    let bc1 = GsImageFormat::CompressionBC(vk::Format::BC1_RGB_UNORM_BLOCK.as_raw());
    assert_eq!(bc1.describe(), "CompressionBC(BC1_RGB_UNORM_BLOCK)");
    assert_eq!(bc1.to_raw(), vk::Format::BC1_RGB_UNORM_BLOCK.as_raw());
    assert_eq!(unsupported_format_message(&bc1, "sampling"), "vk::Format: CompressionBC(BC1_RGB_UNORM_BLOCK) is not support for sampling");
}

#[test]
fn compression_support_follows_the_device_features() {
    let only_bc = CompressionFeatures { texture_compression_bc: VK_TRUE, texture_compression_astc_ldr: VK_FALSE, texture_compression_etc2: VK_FALSE };
    assert!(GsImageFormat::Uncompressed(FORMAT_R8G8B8A8_UNORM).is_support_by_device(&only_bc));
    assert!(GsImageFormat::CompressionBC(1).is_support_by_device(&only_bc));
    assert!(!GsImageFormat::CompressionASTCLdr(1).is_support_by_device(&only_bc));
    assert!(!GsImageFormat::CompressionETC2(1).is_support_by_device(&only_bc));
    assert!(ImageCompressType::Uncompressed.is_support_by_device(&only_bc));
    assert!(ImageCompressType::CompressionBC.is_support_by_device(&only_bc));
    assert!(!ImageCompressType::CompressionASTCLdr.is_support_by_device(&only_bc));
    assert!(!ImageCompressType::CompressionETC2.is_support_by_device(&only_bc));
}

#[test]
fn depth_formats_and_aspects() {
    assert_eq!(DepthStencilImageFormat::Depth32Bit.image_format(), GsImageFormat::Uncompressed(vk::Format::D32_SFLOAT.as_raw()));
    assert_eq!(DepthStencilImageFormat::Depth24BitStencil8Bit.image_format(), GsImageFormat::Uncompressed(vk::Format::D24_UNORM_S8_UINT.as_raw()));
    assert_eq!(DepthStencilImageFormat::Depth32BitStencil8Bit.image_format(), GsImageFormat::Uncompressed(vk::Format::D32_SFLOAT_S8_UINT.as_raw()));
    assert_eq!(DepthStencilImageFormat::Depth32Bit.aspect_mask(), vk::ImageAspectFlags::DEPTH.as_raw());
    assert_eq!(DepthStencilImageFormat::Depth32BitStencil8Bit.aspect_mask(), (vk::ImageAspectFlags::DEPTH | vk::ImageAspectFlags::STENCIL).as_raw());
}

#[test]
fn kinds_and_stages() {
    let fragment = ImagePipelineStage::FragmentStage;
    assert_eq!(fragment.stage_flags(), vk::PipelineStageFlags::FRAGMENT_SHADER.as_raw());
    assert_eq!(ImagePipelineStage::VertexStage.stage_flags(), vk::PipelineStageFlags::VERTEX_SHADER.as_raw());
    assert_eq!(ImageInstanceType::CubeMapImage { stage: fragment }.layer_count(), 6);
    assert_eq!(ImageInstanceType::SampledImage { stage: fragment }.layer_count(), 1);
    assert_eq!(blit_layer_count(&ImageInstanceType::CubeMapImage { stage: fragment }), 6);
    assert_eq!(blit_layer_count(&ImageInstanceType::CombinedImageSampler { stage: fragment }), 1);
}

#[test]
fn barrier_builder_sets_what_it_is_given() {
    let range = ImageSubRange { aspect_mask: IMAGE_ASPECT_COLOR, base_mip_level: 0, level_count: 1, base_array_layer: 0, layer_count: 1 };
    let default = ImageBarrierCI::default_ci();
    assert_eq!(default.src_queue_family_index, QUEUE_FAMILY_IGNORED);
    let barrier = ImageBarrierCI::new(&GsImage { handle: 3, alignment_size: 0 }, range)
        .access_mask(0, ACCESS_TRANSFER_WRITE)
        .layout(IMAGE_LAYOUT_UNDEFINED, IMAGE_LAYOUT_TRANSFER_DST_OPTIMAL)
        .queue_family_index(1, 2)
        .build();
    assert_eq!(barrier.image, 3);
    assert_eq!(barrier.subresource_range, range);
    assert_eq!(barrier.dst_access_mask, ACCESS_TRANSFER_WRITE);
    assert_eq!(barrier.old_layout, IMAGE_LAYOUT_UNDEFINED);
    assert_eq!(barrier.new_layout, IMAGE_LAYOUT_TRANSFER_DST_OPTIMAL);
    assert_eq!((barrier.src_queue_family_index, barrier.dst_queue_family_index), (1, 2));
}

#[test]
fn subranges_select_levels_and_layers() {
    let range = ImageViewCI::default_ci().subrange;
    let levels = range.with_mip_level(2, 3);
    assert_eq!((levels.base_mip_level, levels.level_count), (2, 3));
    assert_eq!(levels.layer_count, range.layer_count);
    let layers = range.with_layer(1, 4);
    assert_eq!((layers.base_array_layer, layers.layer_count), (1, 4));
    assert_eq!(layers.level_count, range.level_count);
}

#[test]
fn mip_extents_halve_down_to_one() {
    assert_eq!(mip_extent(1024, 0), 1024);
    assert_eq!(mip_extent(1024, 3), 128);
    assert_eq!(mip_extent(1024, 10), 1);
    assert_eq!(mip_extent(1024, 31), 1);
    assert_eq!(mip_extent(5, 1), 2);
}

#[test]
fn cube_map_copies_split_into_six_layers() {
    let descriptor = DescriptorMeta { binding: 0, descriptor_type: GsDescriptorType::Image(ImageDescriptorType::CombinedImageSampler) };
    let icm = ICubeMap::new(GsSampler { handle: 1, descriptor });
    let entity = ImageEntity::new(&GsImage { handle: 9, alignment_size: 0 }, 10);
    let desc = ImageInstanceInfoDesc {
        current_layout: IMAGE_LAYOUT_SHADER_READ_ONLY_OPTIMAL,
        dimension: Dim3D { width: 64, height: 64, depth: 1 },
        subrange: ImageViewCI::default_ci().subrange,
    };
    let cube = GsCubeMapImg::build(icm, entity, desc);
    let full = cube.full_copy_mipmap(1);
    assert_eq!(full.sub_resource_layers.layer_count, 6);
    assert_eq!((full.extent.width, full.extent.height), (32, 32));
    let ranges = cube.full_copy_mipmap_layer_ranges(1);
    assert_eq!(ranges.ranges.len(), 6);
    for (i, range) in ranges.ranges.iter().enumerate() {
        assert_eq!(range.sub_resource_layers.base_array_layer, i as u32);
        assert_eq!(range.sub_resource_layers.layer_count, 1);
        assert_eq!((range.extent.width, range.extent.height, range.extent.depth), (32, 32, 1));
    }
}

#[test]
fn sampler_settings() {
    let sampler = GsSampler::new()
        .filter(vk::Filter::NEAREST.as_raw(), vk::Filter::LINEAR.as_raw())
        .mipmap(vk::SamplerMipmapMode::NEAREST.as_raw(), 1, 2, 3)
        .anisotropy(Some(16.0f32.to_bits()))
        .compare_op(Some(vk::CompareOp::LESS.as_raw()))
        .border_color(vk::BorderColor::FLOAT_OPAQUE_WHITE.as_raw())
        .unnormalize_coordinates_enable(true);
    let ci: SamplerCreateInfo = sampler.take_ci();
    assert_eq!(ci.mag_filter, vk::Filter::NEAREST.as_raw());
    assert_eq!(ci.min_filter, vk::Filter::LINEAR.as_raw());
    assert_eq!(ci.mipmap_mode, vk::SamplerMipmapMode::NEAREST.as_raw());
    assert_eq!((ci.address_mode_u, ci.address_mode_v, ci.address_mode_w), (1, 2, 3));
    assert_eq!(ci.anisotropy_enable, VK_TRUE);
    assert_eq!(ci.max_anisotropy_bits, 16.0f32.to_bits());
    assert_eq!(ci.compare_enable, VK_TRUE);
    assert_eq!(ci.compare_op, vk::CompareOp::LESS.as_raw());
    assert_eq!(ci.border_color, vk::BorderColor::FLOAT_OPAQUE_WHITE.as_raw());
    assert_eq!(ci.unnormalized_coordinates, VK_TRUE);
    let off = GsSampler::new().anisotropy(None).compare_op(None).unnormalize_coordinates_enable(false).take_ci();
    assert_eq!(off.anisotropy_enable, VK_FALSE);
    assert_eq!(off.max_anisotropy_bits, 1.0f32.to_bits());
    assert_eq!(off.compare_enable, VK_FALSE);
    assert_eq!(off.unnormalized_coordinates, VK_FALSE);
    let defaults = GsSampler::new().take_ci();
    assert_eq!(defaults.mag_filter, vk::Filter::LINEAR.as_raw());
    assert_eq!(defaults.max_lod_bits, 0.0f32.to_bits());
    assert_eq!(defaults.border_color, vk::BorderColor::INT_OPAQUE_BLACK.as_raw());
}

#[test]
fn buffer_elements_are_written_at_their_offsets() {
    let info = DescriptorBufferBindingInfo {
        content: DescriptorBindingContent { binding: 2, count: 3, descriptor_type: GsDescriptorType::Buffer(BufferDescriptorType::UniformBuffer) },
        element_indices: vec![0, 4, 1],
        element_size: 256,
        buffer_handle: 77,
    };
    assert_eq!(info.borrow_binding_content().binding, 2);
    let set = GsDescriptorSet::new(5, GsDescriptorSetLayout { handle: 6 });
    let write = info.write_set(&set);
    let offsets: Vec<u64> = write.content.iter().map(|c| c.offset).collect();
    assert_eq!(offsets, vec![0, 1024, 256]);
    assert!(write.content.iter().all(|c| c.buffer == 77 && c.range == 256));
    assert_eq!(write.info.dst_set, 5);
    assert_eq!(write.info.dst_binding, 2);
    assert_eq!(write.info.descriptor_count, 3);
    assert_eq!(write.info.descriptor_type, vk::DescriptorType::UNIFORM_BUFFER.as_raw());
}

#[test]
fn staging_blocks_split_evenly_between_layers() {
    assert_eq!(split_block(100, 600, 6), vec![100, 200, 300, 400, 500, 600]);
    assert_eq!(split_block(0, 10, 3), vec![0, 3, 6]);
    assert_eq!(split_block(7, 5, 1), vec![7]);
    assert_eq!(split_block(0, 0, 4), vec![0, 0, 0, 0]);
}

#[test]
fn sampled_image_level_range_has_the_level_size() {
    let isi = gensokyo_vulkan::image::instance::sampledimg::ISampledImg::new(DescriptorMeta {
        binding: 0,
        descriptor_type: GsDescriptorType::Image(ImageDescriptorType::SampledImage),
    });
    let entity = ImageEntity::new(&GsImage { handle: 3, alignment_size: 0 }, 4);
    let desc = ImageInstanceInfoDesc {
        current_layout: IMAGE_LAYOUT_TRANSFER_DST_OPTIMAL,
        dimension: Dim3D { width: 8, height: 8, depth: 1 },
        subrange: ImageViewCI::default_ci().subrange,
    };
    let image = gensokyo_vulkan::image::instance::sampledimg::GsSampledImage::build(isi, entity, desc);
    let full = image.full_copy_mipmap(1);
    let ranges = image.full_copy_mipmap_layer_ranges(1);
    assert_eq!(ranges.ranges.len(), 1);
    let range = &ranges.ranges[0];
    assert_eq!((range.extent.width, range.extent.height, range.extent.depth), (4, 4, 1));
    assert_eq!(range.extent, full.extent);
    assert_eq!(range.sub_resource_layers.mip_level, 1);
    assert_eq!(range.sub_resource_layers.base_array_layer, 0);
    assert_eq!(range.sub_resource_layers.layer_count, 1);
}
