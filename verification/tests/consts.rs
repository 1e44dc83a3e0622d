//! The Vulkan numbers the library holds are those of the Vulkan headers.

use ash::vk;
use gensokyo_vulkan::consts;

#[test]
fn image_values_match_vulkan() {
    assert_eq!(consts::IMAGE_LAYOUT_UNDEFINED, vk::ImageLayout::UNDEFINED.as_raw());
    assert_eq!(consts::IMAGE_LAYOUT_DEPTH_STENCIL_ATTACHMENT_OPTIMAL, vk::ImageLayout::DEPTH_STENCIL_ATTACHMENT_OPTIMAL.as_raw());
    assert_eq!(consts::IMAGE_LAYOUT_SHADER_READ_ONLY_OPTIMAL, vk::ImageLayout::SHADER_READ_ONLY_OPTIMAL.as_raw());
    assert_eq!(consts::IMAGE_LAYOUT_TRANSFER_SRC_OPTIMAL, vk::ImageLayout::TRANSFER_SRC_OPTIMAL.as_raw());
    assert_eq!(consts::IMAGE_LAYOUT_TRANSFER_DST_OPTIMAL, vk::ImageLayout::TRANSFER_DST_OPTIMAL.as_raw());
    assert_eq!(consts::IMAGE_USAGE_TRANSFER_SRC, vk::ImageUsageFlags::TRANSFER_SRC.as_raw());
    assert_eq!(consts::IMAGE_USAGE_TRANSFER_DST, vk::ImageUsageFlags::TRANSFER_DST.as_raw());
    assert_eq!(consts::IMAGE_USAGE_SAMPLED, vk::ImageUsageFlags::SAMPLED.as_raw());
    assert_eq!(consts::IMAGE_USAGE_COLOR_ATTACHMENT, vk::ImageUsageFlags::COLOR_ATTACHMENT.as_raw());
    assert_eq!(consts::IMAGE_USAGE_DEPTH_STENCIL_ATTACHMENT, vk::ImageUsageFlags::DEPTH_STENCIL_ATTACHMENT.as_raw());
    assert_eq!(consts::IMAGE_ASPECT_COLOR, vk::ImageAspectFlags::COLOR.as_raw());
    assert_eq!(consts::IMAGE_ASPECT_DEPTH, vk::ImageAspectFlags::DEPTH.as_raw());
    assert_eq!(consts::IMAGE_ASPECT_STENCIL, vk::ImageAspectFlags::STENCIL.as_raw());
    assert_eq!(consts::IMAGE_TYPE_2D, vk::ImageType::TYPE_2D.as_raw());
    assert_eq!(consts::IMAGE_VIEW_TYPE_2D, vk::ImageViewType::TYPE_2D.as_raw());
    assert_eq!(consts::IMAGE_VIEW_TYPE_CUBE, vk::ImageViewType::CUBE.as_raw());
    assert_eq!(consts::IMAGE_TILING_OPTIMAL, vk::ImageTiling::OPTIMAL.as_raw());
    assert_eq!(consts::IMAGE_TILING_LINEAR, vk::ImageTiling::LINEAR.as_raw());
    assert_eq!(consts::IMAGE_CREATE_CUBE_COMPATIBLE, vk::ImageCreateFlags::CUBE_COMPATIBLE.as_raw());
}

#[test]
fn access_values_match_vulkan() {
    assert_eq!(consts::ACCESS_NONE, vk::AccessFlags::empty().as_raw());
    assert_eq!(consts::ACCESS_SHADER_READ, vk::AccessFlags::SHADER_READ.as_raw());
    assert_eq!(consts::ACCESS_DEPTH_STENCIL_ATTACHMENT_READ, vk::AccessFlags::DEPTH_STENCIL_ATTACHMENT_READ.as_raw());
    assert_eq!(consts::ACCESS_DEPTH_STENCIL_ATTACHMENT_WRITE, vk::AccessFlags::DEPTH_STENCIL_ATTACHMENT_WRITE.as_raw());
    assert_eq!(consts::ACCESS_TRANSFER_READ, vk::AccessFlags::TRANSFER_READ.as_raw());
    assert_eq!(consts::ACCESS_TRANSFER_WRITE, vk::AccessFlags::TRANSFER_WRITE.as_raw());
}

#[test]
fn pipeline_values_match_vulkan() {
    assert_eq!(consts::PIPELINE_STAGE_TOP_OF_PIPE, vk::PipelineStageFlags::TOP_OF_PIPE.as_raw());
    assert_eq!(consts::PIPELINE_STAGE_VERTEX_SHADER, vk::PipelineStageFlags::VERTEX_SHADER.as_raw());
    assert_eq!(consts::PIPELINE_STAGE_FRAGMENT_SHADER, vk::PipelineStageFlags::FRAGMENT_SHADER.as_raw());
    assert_eq!(consts::PIPELINE_STAGE_EARLY_FRAGMENT_TESTS, vk::PipelineStageFlags::EARLY_FRAGMENT_TESTS.as_raw());
    assert_eq!(consts::PIPELINE_STAGE_TRANSFER, vk::PipelineStageFlags::TRANSFER.as_raw());
    assert_eq!(consts::PIPELINE_STAGE_ALL_COMMANDS, vk::PipelineStageFlags::ALL_COMMANDS.as_raw());
}

#[test]
fn sample_values_match_vulkan() {
    assert_eq!(consts::SAMPLE_COUNT_1, vk::SampleCountFlags::TYPE_1.as_raw());
}

#[test]
fn format_values_match_vulkan() {
    assert_eq!(consts::FORMAT_FEATURE_DEPTH_STENCIL_ATTACHMENT, vk::FormatFeatureFlags::DEPTH_STENCIL_ATTACHMENT.as_raw());
    assert_eq!(consts::FORMAT_FEATURE_BLIT_SRC, vk::FormatFeatureFlags::BLIT_SRC.as_raw());
    assert_eq!(consts::FORMAT_FEATURE_BLIT_DST, vk::FormatFeatureFlags::BLIT_DST.as_raw());
    assert_eq!(consts::FORMAT_UNDEFINED, vk::Format::UNDEFINED.as_raw());
    assert_eq!(consts::FORMAT_R8G8B8A8_UNORM, vk::Format::R8G8B8A8_UNORM.as_raw());
    assert_eq!(consts::FORMAT_D32_SFLOAT, vk::Format::D32_SFLOAT.as_raw());
    assert_eq!(consts::FORMAT_D24_UNORM_S8_UINT, vk::Format::D24_UNORM_S8_UINT.as_raw());
    assert_eq!(consts::FORMAT_D32_SFLOAT_S8_UINT, vk::Format::D32_SFLOAT_S8_UINT.as_raw());
}

#[test]
fn filter_values_match_vulkan() {
    assert_eq!(consts::FILTER_LINEAR, vk::Filter::LINEAR.as_raw());
}

#[test]
fn sampler_values_match_vulkan() {
    assert_eq!(consts::SAMPLER_MIPMAP_MODE_LINEAR, vk::SamplerMipmapMode::LINEAR.as_raw());
    assert_eq!(consts::SAMPLER_ADDRESS_MODE_REPEAT, vk::SamplerAddressMode::REPEAT.as_raw());
}

#[test]
fn compare_values_match_vulkan() {
    assert_eq!(consts::COMPARE_OP_ALWAYS, vk::CompareOp::ALWAYS.as_raw());
}

#[test]
fn border_values_match_vulkan() {
    assert_eq!(consts::BORDER_COLOR_INT_OPAQUE_BLACK, vk::BorderColor::INT_OPAQUE_BLACK.as_raw());
}

#[test]
fn vk_values_match_vulkan() {
    assert_eq!(consts::VK_TRUE, vk::TRUE);
    assert_eq!(consts::VK_FALSE, vk::FALSE);
}

#[test]
fn queue_values_match_vulkan() {
    assert_eq!(consts::QUEUE_FAMILY_IGNORED, vk::QUEUE_FAMILY_IGNORED);
}

#[test]
fn sharing_values_match_vulkan() {
    assert_eq!(consts::SHARING_MODE_EXCLUSIVE, vk::SharingMode::EXCLUSIVE.as_raw());
    assert_eq!(consts::SHARING_MODE_CONCURRENT, vk::SharingMode::CONCURRENT.as_raw());
}

#[test]
fn composite_values_match_vulkan() {
    assert_eq!(consts::COMPOSITE_ALPHA_OPAQUE, vk::CompositeAlphaFlagsKHR::OPAQUE.as_raw());
}

#[test]
fn result_values_match_vulkan() {
    assert_eq!(consts::RESULT_TIMEOUT, vk::Result::TIMEOUT.as_raw());
    assert_eq!(consts::RESULT_ERROR_OUT_OF_DATE, vk::Result::ERROR_OUT_OF_DATE_KHR.as_raw());
}

#[test]
fn descriptor_values_match_vulkan() {
    assert_eq!(consts::DESCRIPTOR_TYPE_SAMPLER, vk::DescriptorType::SAMPLER.as_raw());
    assert_eq!(consts::DESCRIPTOR_TYPE_COMBINED_IMAGE_SAMPLER, vk::DescriptorType::COMBINED_IMAGE_SAMPLER.as_raw());
    assert_eq!(consts::DESCRIPTOR_TYPE_SAMPLED_IMAGE, vk::DescriptorType::SAMPLED_IMAGE.as_raw());
    assert_eq!(consts::DESCRIPTOR_TYPE_STORAGE_IMAGE, vk::DescriptorType::STORAGE_IMAGE.as_raw());
    assert_eq!(consts::DESCRIPTOR_TYPE_UNIFORM_TEXEL_BUFFER, vk::DescriptorType::UNIFORM_TEXEL_BUFFER.as_raw());
    assert_eq!(consts::DESCRIPTOR_TYPE_STORAGE_TEXEL_BUFFER, vk::DescriptorType::STORAGE_TEXEL_BUFFER.as_raw());
    assert_eq!(consts::DESCRIPTOR_TYPE_UNIFORM_BUFFER, vk::DescriptorType::UNIFORM_BUFFER.as_raw());
    assert_eq!(consts::DESCRIPTOR_TYPE_STORAGE_BUFFER, vk::DescriptorType::STORAGE_BUFFER.as_raw());
    assert_eq!(consts::DESCRIPTOR_TYPE_UNIFORM_BUFFER_DYNAMIC, vk::DescriptorType::UNIFORM_BUFFER_DYNAMIC.as_raw());
    assert_eq!(consts::DESCRIPTOR_TYPE_STORAGE_BUFFER_DYNAMIC, vk::DescriptorType::STORAGE_BUFFER_DYNAMIC.as_raw());
    assert_eq!(consts::DESCRIPTOR_TYPE_INPUT_ATTACHMENT, vk::DescriptorType::INPUT_ATTACHMENT.as_raw());
}

