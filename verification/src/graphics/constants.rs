//! Raw values of the Vulkan enumerants and flag bits that this renderer uses.

use vstd::prelude::*;

verus! {

// VkResult
pub const SUCCESS: i32 = 0;
pub const SUBOPTIMAL_KHR: i32 = 1_000_001_003;
pub const ERROR_OUT_OF_DATE_KHR: i32 = -1_000_001_004;

// VkQueueFlagBits
pub const QUEUE_GRAPHICS: u32 = 0x1;

// VkFormat
pub const FORMAT_R8G8B8A8_SRGB: i32 = 43;
pub const FORMAT_B8G8R8A8_SRGB: i32 = 50;
pub const FORMAT_R32G32_SFLOAT: i32 = 103;
pub const FORMAT_R32G32B32_SFLOAT: i32 = 106;

// VkColorSpaceKHR
pub const COLOR_SPACE_SRGB_NONLINEAR: i32 = 0;

// VkPresentModeKHR
pub const PRESENT_MODE_MAILBOX: i32 = 1;
pub const PRESENT_MODE_FIFO: i32 = 2;

// VkSharingMode
pub const SHARING_MODE_EXCLUSIVE: i32 = 0;
pub const SHARING_MODE_CONCURRENT: i32 = 1;

// VkImageUsageFlagBits
pub const IMAGE_USAGE_TRANSFER_DST: u32 = 0x2;
pub const IMAGE_USAGE_SAMPLED: u32 = 0x4;
pub const IMAGE_USAGE_COLOR_ATTACHMENT: u32 = 0x10;

// VkCompositeAlphaFlagBitsKHR
pub const COMPOSITE_ALPHA_OPAQUE: u32 = 0x1;

// VkImageType, VkImageViewType, VkImageTiling
pub const IMAGE_TYPE_2D: i32 = 1;
pub const IMAGE_VIEW_TYPE_2D: i32 = 1;
pub const IMAGE_TILING_OPTIMAL: i32 = 0;

// VkComponentSwizzle
pub const COMPONENT_SWIZZLE_IDENTITY: i32 = 0;

// VkImageAspectFlagBits
pub const IMAGE_ASPECT_COLOR: u32 = 0x1;

// VkBufferUsageFlagBits
pub const BUFFER_USAGE_TRANSFER_SRC: u32 = 0x1;
pub const BUFFER_USAGE_TRANSFER_DST: u32 = 0x2;
pub const BUFFER_USAGE_UNIFORM_BUFFER: u32 = 0x10;
pub const BUFFER_USAGE_INDEX_BUFFER: u32 = 0x40;
pub const BUFFER_USAGE_VERTEX_BUFFER: u32 = 0x80;

// VkMemoryPropertyFlagBits
pub const MEMORY_PROPERTY_DEVICE_LOCAL: u32 = 0x1;
pub const MEMORY_PROPERTY_HOST_VISIBLE: u32 = 0x2;
pub const MEMORY_PROPERTY_HOST_COHERENT: u32 = 0x4;

// VkDescriptorType
pub const DESCRIPTOR_TYPE_COMBINED_IMAGE_SAMPLER: i32 = 1;
pub const DESCRIPTOR_TYPE_UNIFORM_BUFFER: i32 = 6;

// VkShaderStageFlagBits
pub const SHADER_STAGE_VERTEX: u32 = 0x1;
pub const SHADER_STAGE_FRAGMENT: u32 = 0x10;

// VkImageLayout
pub const IMAGE_LAYOUT_UNDEFINED: i32 = 0;
pub const IMAGE_LAYOUT_COLOR_ATTACHMENT_OPTIMAL: i32 = 2;
pub const IMAGE_LAYOUT_SHADER_READ_ONLY_OPTIMAL: i32 = 5;
pub const IMAGE_LAYOUT_TRANSFER_DST_OPTIMAL: i32 = 7;
pub const IMAGE_LAYOUT_PRESENT_SRC_KHR: i32 = 1_000_001_002;

// VkAccessFlagBits
pub const ACCESS_SHADER_READ: u32 = 0x20;
pub const ACCESS_COLOR_ATTACHMENT_WRITE: u32 = 0x100;
pub const ACCESS_TRANSFER_WRITE: u32 = 0x1000;

// VkPipelineStageFlagBits
pub const PIPELINE_STAGE_TOP_OF_PIPE: u32 = 0x1;
pub const PIPELINE_STAGE_FRAGMENT_SHADER: u32 = 0x80;
pub const PIPELINE_STAGE_COLOR_ATTACHMENT_OUTPUT: u32 = 0x400;
pub const PIPELINE_STAGE_TRANSFER: u32 = 0x1000;

// VkSampleCountFlagBits
pub const SAMPLE_COUNT_1: u32 = 0x1;

// VkAttachmentLoadOp, VkAttachmentStoreOp
pub const ATTACHMENT_LOAD_OP_CLEAR: i32 = 1;
pub const ATTACHMENT_LOAD_OP_DONT_CARE: i32 = 2;
pub const ATTACHMENT_STORE_OP_STORE: i32 = 0;
pub const ATTACHMENT_STORE_OP_DONT_CARE: i32 = 1;

// VkPipelineBindPoint
pub const PIPELINE_BIND_POINT_GRAPHICS: i32 = 0;

/// Stands for the work before or after a render pass in a subpass dependency.
pub const SUBPASS_EXTERNAL: u32 = 0xFFFF_FFFF;

/// Marks a barrier that moves no ownership between queue families.
pub const QUEUE_FAMILY_IGNORED: u32 = 0xFFFF_FFFF;

// VkDynamicState
pub const DYNAMIC_STATE_VIEWPORT: i32 = 0;
pub const DYNAMIC_STATE_SCISSOR: i32 = 1;

// VkPolygonMode, VkCullModeFlagBits, VkFrontFace
pub const POLYGON_MODE_FILL: i32 = 0;
pub const CULL_MODE_BACK: u32 = 0x2;
pub const FRONT_FACE_CLOCKWISE: i32 = 1;

// VkColorComponentFlagBits
pub const COLOR_COMPONENT_R: u32 = 0x1;
pub const COLOR_COMPONENT_G: u32 = 0x2;
pub const COLOR_COMPONENT_B: u32 = 0x4;
pub const COLOR_COMPONENT_A: u32 = 0x8;

// VkBlendFactor, VkBlendOp
pub const BLEND_FACTOR_ZERO: i32 = 0;
pub const BLEND_FACTOR_ONE: i32 = 1;
pub const BLEND_OP_ADD: i32 = 0;

// VkVertexInputRate, VkPrimitiveTopology
pub const VERTEX_INPUT_RATE_VERTEX: i32 = 0;
pub const PRIMITIVE_TOPOLOGY_TRIANGLE_LIST: i32 = 3;

// VkCommandBufferLevel, VkCommandPoolCreateFlagBits, VkCommandBufferUsageFlagBits
pub const COMMAND_BUFFER_LEVEL_PRIMARY: i32 = 0;
pub const COMMAND_POOL_CREATE_RESET_COMMAND_BUFFER: u32 = 0x2;
pub const COMMAND_BUFFER_USAGE_ONE_TIME_SUBMIT: u32 = 0x1;

// VkFenceCreateFlagBits
pub const FENCE_CREATE_SIGNALED: u32 = 0x1;

// VkIndexType, VkSubpassContents
pub const INDEX_TYPE_UINT16: i32 = 0;
pub const SUBPASS_CONTENTS_INLINE: i32 = 0;

// VkFilter, VkSamplerAddressMode, VkSamplerMipmapMode, VkBorderColor, VkCompareOp
pub const FILTER_LINEAR: i32 = 1;
pub const SAMPLER_ADDRESS_MODE_REPEAT: i32 = 0;
pub const SAMPLER_MIPMAP_MODE_LINEAR: i32 = 1;
pub const BORDER_COLOR_INT_OPAQUE_BLACK: i32 = 3;
pub const COMPARE_OP_ALWAYS: i32 = 7;

// VkDebugUtilsMessageSeverityFlagBitsEXT
pub const DEBUG_SEVERITY_INFO: u32 = 0x10;
pub const DEBUG_SEVERITY_WARNING: u32 = 0x100;
pub const DEBUG_SEVERITY_ERROR: u32 = 0x1000;

// VkDebugUtilsMessageTypeFlagBitsEXT
pub const DEBUG_TYPE_GENERAL: u32 = 0x1;
pub const DEBUG_TYPE_VALIDATION: u32 = 0x2;
pub const DEBUG_TYPE_PERFORMANCE: u32 = 0x4;

} // verus!
