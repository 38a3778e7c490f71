//! Numbers of the Vulkan and SPIR-V interfaces, and the limits of the viewer.
//!
//! Enumerations are `i32` and flag sets are `u32`, as in the Vulkan headers.
use vstd::prelude::*;

verus! {

/// How many frames the CPU may prepare before it waits for the GPU.
pub const FRAMES_IN_FLIGHT: usize = 2;

/// First word of a SPIR-V module whose words are in the order of the reader.
pub const SPV_MAGIC_NUMBER_LE: u32 = 0x0723_0203;

/// First word of a SPIR-V module whose words are in the opposite byte order.
pub const SPV_MAGIC_NUMBER_BE: u32 = 0x0302_2307;

/// PNG code of the colour type with red, green and blue samples.
pub const PNG_COLOR_RGB: u8 = 2;

/// PNG code of the colour type with grey and alpha samples.
pub const PNG_COLOR_GRAYSCALE_ALPHA: u8 = 4;

/// PNG code of the colour type with red, green, blue and alpha samples.
pub const PNG_COLOR_RGBA: u8 = 6;

/// Bits of a byte-sized PNG sample.
pub const PNG_DEPTH_EIGHT: u8 = 8;

pub const VK_SUBPASS_EXTERNAL: u32 = 0xffff_ffff;

pub const VK_DESCRIPTOR_TYPE_COMBINED_IMAGE_SAMPLER: i32 = 1;

pub const VK_DESCRIPTOR_TYPE_UNIFORM_BUFFER: i32 = 6;

pub const VK_SHADER_STAGE_VERTEX_BIT: u32 = 0x1;

pub const VK_SHADER_STAGE_FRAGMENT_BIT: u32 = 0x10;

pub const VK_IMAGE_LAYOUT_UNDEFINED: i32 = 0;

pub const VK_IMAGE_LAYOUT_COLOR_ATTACHMENT_OPTIMAL: i32 = 2;

pub const VK_IMAGE_LAYOUT_SHADER_READ_ONLY_OPTIMAL: i32 = 5;

pub const VK_IMAGE_LAYOUT_TRANSFER_DST_OPTIMAL: i32 = 7;

pub const VK_IMAGE_LAYOUT_PRESENT_SRC_KHR: i32 = 1_000_001_002;

pub const VK_SAMPLE_COUNT_1_BIT: u32 = 0x1;

pub const VK_ATTACHMENT_LOAD_OP_CLEAR: i32 = 1;

pub const VK_ATTACHMENT_LOAD_OP_DONT_CARE: i32 = 2;

pub const VK_ATTACHMENT_STORE_OP_STORE: i32 = 0;

pub const VK_ATTACHMENT_STORE_OP_DONT_CARE: i32 = 1;

pub const VK_PIPELINE_BIND_POINT_GRAPHICS: i32 = 0;

pub const VK_PIPELINE_STAGE_COLOR_ATTACHMENT_OUTPUT_BIT: u32 = 0x400;

pub const VK_ACCESS_COLOR_ATTACHMENT_WRITE_BIT: u32 = 0x100;

pub const VK_PRIMITIVE_TOPOLOGY_TRIANGLE_LIST: i32 = 3;

pub const VK_DYNAMIC_STATE_VIEWPORT: i32 = 0;

pub const VK_DYNAMIC_STATE_SCISSOR: i32 = 1;

pub const VK_POLYGON_MODE_FILL: i32 = 0;

pub const VK_CULL_MODE_NONE: u32 = 0;

pub const VK_FRONT_FACE_COUNTER_CLOCKWISE: i32 = 0;

pub const VK_BLEND_OP_ADD: i32 = 0;

pub const VK_BLEND_FACTOR_ZERO: i32 = 0;

pub const VK_BLEND_FACTOR_ONE: i32 = 1;

pub const VK_LOGIC_OP_COPY: i32 = 3;

pub const VK_COLOR_COMPONENT_RGBA: u32 = 0xf;

pub const VK_SUBPASS_CONTENTS_INLINE: i32 = 0;

pub const VK_INDEX_TYPE_UINT32: i32 = 1;

pub const VK_BUFFER_USAGE_TRANSFER_SRC_BIT: u32 = 0x1;

pub const VK_BUFFER_USAGE_TRANSFER_DST_BIT: u32 = 0x2;

pub const VK_BUFFER_USAGE_UNIFORM_BUFFER_BIT: u32 = 0x10;

pub const VK_BUFFER_USAGE_INDEX_BUFFER_BIT: u32 = 0x40;

pub const VK_BUFFER_USAGE_VERTEX_BUFFER_BIT: u32 = 0x80;

pub const VK_MEMORY_PROPERTY_DEVICE_LOCAL_BIT: u32 = 0x1;

pub const VK_MEMORY_PROPERTY_HOST_VISIBLE_BIT: u32 = 0x2;

pub const VK_MEMORY_PROPERTY_HOST_COHERENT_BIT: u32 = 0x4;

pub const VK_FORMAT_R8G8B8A8_SRGB: i32 = 43;

pub const VK_IMAGE_TILING_OPTIMAL: i32 = 0;

pub const VK_IMAGE_USAGE_TRANSFER_DST_BIT: u32 = 0x2;

pub const VK_IMAGE_USAGE_SAMPLED_BIT: u32 = 0x4;

pub const VK_IMAGE_ASPECT_COLOR_BIT: u32 = 0x1;

pub const VK_FILTER_LINEAR: i32 = 1;

pub const VK_SAMPLER_MIPMAP_MODE_LINEAR: i32 = 1;

pub const VK_SAMPLER_ADDRESS_MODE_CLAMP_TO_BORDER: i32 = 3;

pub const VK_BORDER_COLOR_INT_OPAQUE_BLACK: i32 = 3;

pub const VK_COMPARE_OP_ALWAYS: i32 = 7;

pub const VK_FENCE_CREATE_SIGNALED_BIT: u32 = 0x1;

} // verus!
