//! Numeric values of the Vulkan enumerants and flag bits that the library
//! reads and writes. They are the values the Vulkan specification assigns.

use vstd::prelude::*;

verus! {

// VkImageLayout
pub const IMAGE_LAYOUT_UNDEFINED: i32 = 0;
pub const IMAGE_LAYOUT_DEPTH_STENCIL_ATTACHMENT_OPTIMAL: i32 = 3;
pub const IMAGE_LAYOUT_SHADER_READ_ONLY_OPTIMAL: i32 = 5;
pub const IMAGE_LAYOUT_TRANSFER_SRC_OPTIMAL: i32 = 6;
pub const IMAGE_LAYOUT_TRANSFER_DST_OPTIMAL: i32 = 7;

// VkAccessFlagBits
pub const ACCESS_NONE: u32 = 0;
pub const ACCESS_SHADER_READ: u32 = 0x20;
pub const ACCESS_DEPTH_STENCIL_ATTACHMENT_READ: u32 = 0x200;
pub const ACCESS_DEPTH_STENCIL_ATTACHMENT_WRITE: u32 = 0x400;
pub const ACCESS_TRANSFER_READ: u32 = 0x800;
pub const ACCESS_TRANSFER_WRITE: u32 = 0x1000;

// VkImageUsageFlagBits
pub const IMAGE_USAGE_TRANSFER_SRC: u32 = 0x1;
pub const IMAGE_USAGE_TRANSFER_DST: u32 = 0x2;
pub const IMAGE_USAGE_SAMPLED: u32 = 0x4;
pub const IMAGE_USAGE_COLOR_ATTACHMENT: u32 = 0x10;
pub const IMAGE_USAGE_DEPTH_STENCIL_ATTACHMENT: u32 = 0x20;

// VkImageAspectFlagBits
pub const IMAGE_ASPECT_COLOR: u32 = 0x1;
pub const IMAGE_ASPECT_DEPTH: u32 = 0x2;
pub const IMAGE_ASPECT_STENCIL: u32 = 0x4;

// VkPipelineStageFlagBits
pub const PIPELINE_STAGE_TOP_OF_PIPE: u32 = 0x1;
pub const PIPELINE_STAGE_VERTEX_SHADER: u32 = 0x8;
pub const PIPELINE_STAGE_FRAGMENT_SHADER: u32 = 0x80;
pub const PIPELINE_STAGE_EARLY_FRAGMENT_TESTS: u32 = 0x100;
pub const PIPELINE_STAGE_TRANSFER: u32 = 0x1000;
pub const PIPELINE_STAGE_ALL_COMMANDS: u32 = 0x10000;

// VkImageType / VkImageViewType / VkImageTiling / VkImageCreateFlagBits
pub const IMAGE_TYPE_2D: i32 = 1;
pub const IMAGE_VIEW_TYPE_2D: i32 = 1;
pub const IMAGE_VIEW_TYPE_CUBE: i32 = 3;
pub const IMAGE_TILING_OPTIMAL: i32 = 0;
pub const IMAGE_TILING_LINEAR: i32 = 1;
pub const IMAGE_CREATE_CUBE_COMPATIBLE: u32 = 0x10;
pub const SAMPLE_COUNT_1: u32 = 0x1;

// VkFormatFeatureFlagBits
pub const FORMAT_FEATURE_DEPTH_STENCIL_ATTACHMENT: u32 = 0x200;
pub const FORMAT_FEATURE_BLIT_SRC: u32 = 0x400;
pub const FORMAT_FEATURE_BLIT_DST: u32 = 0x800;

// VkFormat
pub const FORMAT_UNDEFINED: i32 = 0;
pub const FORMAT_R8G8B8A8_UNORM: i32 = 37;
pub const FORMAT_D32_SFLOAT: i32 = 126;
pub const FORMAT_D24_UNORM_S8_UINT: i32 = 129;
pub const FORMAT_D32_SFLOAT_S8_UINT: i32 = 130;

// Sampler state
pub const FILTER_LINEAR: i32 = 1;
pub const SAMPLER_MIPMAP_MODE_LINEAR: i32 = 1;
pub const SAMPLER_ADDRESS_MODE_REPEAT: i32 = 0;
pub const COMPARE_OP_ALWAYS: i32 = 7;
pub const BORDER_COLOR_INT_OPAQUE_BLACK: i32 = 3;
pub const VK_TRUE: u32 = 1;
pub const VK_FALSE: u32 = 0;

// Queues and sharing
pub const QUEUE_FAMILY_IGNORED: u32 = 0xFFFF_FFFF;
pub const SHARING_MODE_EXCLUSIVE: i32 = 0;
pub const SHARING_MODE_CONCURRENT: i32 = 1;

// Presentation
pub const COMPOSITE_ALPHA_OPAQUE: u32 = 0x1;

// VkResult codes met when acquiring swapchain images
pub const RESULT_TIMEOUT: i32 = 2;
pub const RESULT_ERROR_OUT_OF_DATE: i32 = -1000001004;

// VkDescriptorType
pub const DESCRIPTOR_TYPE_SAMPLER: i32 = 0;
pub const DESCRIPTOR_TYPE_COMBINED_IMAGE_SAMPLER: i32 = 1;
pub const DESCRIPTOR_TYPE_SAMPLED_IMAGE: i32 = 2;
pub const DESCRIPTOR_TYPE_STORAGE_IMAGE: i32 = 3;
pub const DESCRIPTOR_TYPE_UNIFORM_TEXEL_BUFFER: i32 = 4;
pub const DESCRIPTOR_TYPE_STORAGE_TEXEL_BUFFER: i32 = 5;
pub const DESCRIPTOR_TYPE_UNIFORM_BUFFER: i32 = 6;
pub const DESCRIPTOR_TYPE_STORAGE_BUFFER: i32 = 7;
pub const DESCRIPTOR_TYPE_UNIFORM_BUFFER_DYNAMIC: i32 = 8;
pub const DESCRIPTOR_TYPE_STORAGE_BUFFER_DYNAMIC: i32 = 9;
pub const DESCRIPTOR_TYPE_INPUT_ATTACHMENT: i32 = 10;

} // verus!
