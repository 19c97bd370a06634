//! The Vulkan side of the conversions: enums, structs and flag masks as the
//! Vulkan API defines them.  Every enum also carries the `_RANGE_SIZE` and
//! `_MAX_ENUM` values that the Vulkan headers define for it, so that the
//! conversions have to say what becomes of them.

use vstd::prelude::*;

verus! {

/// A Vulkan format, held as its numeric code (`VK_FORMAT_UNDEFINED` is 0,
/// the core formats run from 1 to 184, extensions add larger codes).
#[derive(Clone, Copy, Debug, PartialEq, Eq, Structural)]
pub struct VkFormat(pub u32);

/// The code of `VK_FORMAT_UNDEFINED`.
pub const VK_FORMAT_UNDEFINED: u32 = 0;

/// `VkFlags` and its aliases: a set of flag bits.
pub type VkFlags = u32;

pub type VkFormatFeatureFlags = VkFlags;

pub type VkImageAspectFlags = VkFlags;

pub type VkImageCreateFlags = VkFlags;

pub type VkImageUsageFlags = VkFlags;

pub type VkBufferUsageFlags = VkFlags;

pub type VkMemoryPropertyFlags = VkFlags;

pub type VkShaderStageFlags = VkFlags;

pub type VkPipelineStageFlags = VkFlags;

pub type VkAccessFlags = VkFlags;

// VkFormatFeatureFlagBits
pub const VK_FORMAT_FEATURE_SAMPLED_IMAGE_BIT: u32 = 0x1;

pub const VK_FORMAT_FEATURE_STORAGE_IMAGE_BIT: u32 = 0x2;

pub const VK_FORMAT_FEATURE_STORAGE_IMAGE_ATOMIC_BIT: u32 = 0x4;

pub const VK_FORMAT_FEATURE_UNIFORM_TEXEL_BUFFER_BIT: u32 = 0x8;

pub const VK_FORMAT_FEATURE_STORAGE_TEXEL_BUFFER_BIT: u32 = 0x10;

pub const VK_FORMAT_FEATURE_STORAGE_TEXEL_BUFFER_ATOMIC_BIT: u32 = 0x20;

pub const VK_FORMAT_FEATURE_VERTEX_BUFFER_BIT: u32 = 0x40;

pub const VK_FORMAT_FEATURE_COLOR_ATTACHMENT_BIT: u32 = 0x80;

pub const VK_FORMAT_FEATURE_COLOR_ATTACHMENT_BLEND_BIT: u32 = 0x100;

pub const VK_FORMAT_FEATURE_DEPTH_STENCIL_ATTACHMENT_BIT: u32 = 0x200;

pub const VK_FORMAT_FEATURE_BLIT_SRC_BIT: u32 = 0x400;

pub const VK_FORMAT_FEATURE_BLIT_DST_BIT: u32 = 0x800;

pub const VK_FORMAT_FEATURE_SAMPLED_IMAGE_FILTER_LINEAR_BIT: u32 = 0x1000;

// VkImageAspectFlagBits
pub const VK_IMAGE_ASPECT_COLOR_BIT: u32 = 0x1;

pub const VK_IMAGE_ASPECT_DEPTH_BIT: u32 = 0x2;

pub const VK_IMAGE_ASPECT_STENCIL_BIT: u32 = 0x4;

pub const VK_IMAGE_ASPECT_METADATA_BIT: u32 = 0x8;

// VkImageCreateFlagBits
pub const VK_IMAGE_CREATE_CUBE_COMPATIBLE_BIT: u32 = 0x10;

// VkImageUsageFlagBits
pub const VK_IMAGE_USAGE_TRANSFER_SRC_BIT: u32 = 0x1;

pub const VK_IMAGE_USAGE_TRANSFER_DST_BIT: u32 = 0x2;

pub const VK_IMAGE_USAGE_SAMPLED_BIT: u32 = 0x4;

pub const VK_IMAGE_USAGE_STORAGE_BIT: u32 = 0x8;

pub const VK_IMAGE_USAGE_COLOR_ATTACHMENT_BIT: u32 = 0x10;

pub const VK_IMAGE_USAGE_DEPTH_STENCIL_ATTACHMENT_BIT: u32 = 0x20;

pub const VK_IMAGE_USAGE_TRANSIENT_ATTACHMENT_BIT: u32 = 0x40;

pub const VK_IMAGE_USAGE_INPUT_ATTACHMENT_BIT: u32 = 0x80;

// VkBufferUsageFlagBits
pub const VK_BUFFER_USAGE_TRANSFER_SRC_BIT: u32 = 0x1;

pub const VK_BUFFER_USAGE_TRANSFER_DST_BIT: u32 = 0x2;

pub const VK_BUFFER_USAGE_UNIFORM_TEXEL_BUFFER_BIT: u32 = 0x4;

pub const VK_BUFFER_USAGE_STORAGE_TEXEL_BUFFER_BIT: u32 = 0x8;

pub const VK_BUFFER_USAGE_UNIFORM_BUFFER_BIT: u32 = 0x10;

pub const VK_BUFFER_USAGE_STORAGE_BUFFER_BIT: u32 = 0x20;

pub const VK_BUFFER_USAGE_INDEX_BUFFER_BIT: u32 = 0x40;

pub const VK_BUFFER_USAGE_VERTEX_BUFFER_BIT: u32 = 0x80;

pub const VK_BUFFER_USAGE_INDIRECT_BUFFER_BIT: u32 = 0x100;

// VkMemoryPropertyFlagBits
pub const VK_MEMORY_PROPERTY_DEVICE_LOCAL_BIT: u32 = 0x1;

pub const VK_MEMORY_PROPERTY_HOST_VISIBLE_BIT: u32 = 0x2;

pub const VK_MEMORY_PROPERTY_HOST_COHERENT_BIT: u32 = 0x4;

pub const VK_MEMORY_PROPERTY_HOST_CACHED_BIT: u32 = 0x8;

pub const VK_MEMORY_PROPERTY_LAZILY_ALLOCATED_BIT: u32 = 0x10;

// VkShaderStageFlagBits
pub const VK_SHADER_STAGE_VERTEX_BIT: u32 = 0x1;

pub const VK_SHADER_STAGE_TESSELLATION_CONTROL_BIT: u32 = 0x2;

pub const VK_SHADER_STAGE_TESSELLATION_EVALUATION_BIT: u32 = 0x4;

pub const VK_SHADER_STAGE_GEOMETRY_BIT: u32 = 0x8;

pub const VK_SHADER_STAGE_FRAGMENT_BIT: u32 = 0x10;

pub const VK_SHADER_STAGE_COMPUTE_BIT: u32 = 0x20;

pub const VK_SHADER_STAGE_ALL_GRAPHICS: u32 = 0x1f;

pub const VK_SHADER_STAGE_ALL: u32 = 0x7fff_ffff;

// VkPipelineStageFlagBits
pub const VK_PIPELINE_STAGE_TOP_OF_PIPE_BIT: u32 = 0x1;

pub const VK_PIPELINE_STAGE_HOST_BIT: u32 = 0x4000;

// VkAccessFlagBits
pub const VK_ACCESS_INPUT_ATTACHMENT_READ_BIT: u32 = 0x10;

pub const VK_ACCESS_SHADER_READ_BIT: u32 = 0x20;

pub const VK_ACCESS_SHADER_WRITE_BIT: u32 = 0x40;

pub const VK_ACCESS_COLOR_ATTACHMENT_READ_BIT: u32 = 0x80;

pub const VK_ACCESS_COLOR_ATTACHMENT_WRITE_BIT: u32 = 0x100;

pub const VK_ACCESS_DEPTH_STENCIL_ATTACHMENT_READ_BIT: u32 = 0x200;

pub const VK_ACCESS_DEPTH_STENCIL_ATTACHMENT_WRITE_BIT: u32 = 0x400;

pub const VK_ACCESS_TRANSFER_READ_BIT: u32 = 0x800;

pub const VK_ACCESS_TRANSFER_WRITE_BIT: u32 = 0x1000;

pub const VK_ACCESS_HOST_READ_BIT: u32 = 0x2000;

pub const VK_ACCESS_HOST_WRITE_BIT: u32 = 0x4000;

pub const VK_ACCESS_MEMORY_READ_BIT: u32 = 0x8000;

pub const VK_ACCESS_MEMORY_WRITE_BIT: u32 = 0x10000;

/// The features a format supports, per tiling and for buffers.
#[allow(non_snake_case)]
#[derive(Clone, Copy, Debug, PartialEq, Eq, Structural)]
pub struct VkFormatProperties {
    pub linearTilingFeatures: VkFormatFeatureFlags,
    pub optimalTilingFeatures: VkFormatFeatureFlags,
    pub bufferFeatures: VkFormatFeatureFlags,
}

#[derive(Clone, Copy, Debug, PartialEq, Eq, Structural)]
pub struct VkExtent2D {
    pub width: u32,
    pub height: u32,
}

#[derive(Clone, Copy, Debug, PartialEq, Eq, Structural)]
pub struct VkExtent3D {
    pub width: u32,
    pub height: u32,
    pub depth: u32,
}

/// Where a component of an image view reads from.
#[allow(non_camel_case_types)]
#[derive(Clone, Copy, Debug, PartialEq, Eq, Structural)]
pub enum VkComponentSwizzle {
    VK_COMPONENT_SWIZZLE_IDENTITY,
    VK_COMPONENT_SWIZZLE_ZERO,
    VK_COMPONENT_SWIZZLE_ONE,
    VK_COMPONENT_SWIZZLE_R,
    VK_COMPONENT_SWIZZLE_G,
    VK_COMPONENT_SWIZZLE_B,
    VK_COMPONENT_SWIZZLE_A,
    VK_COMPONENT_SWIZZLE_RANGE_SIZE,
    VK_COMPONENT_SWIZZLE_MAX_ENUM,
}

/// The swizzle of each of the four components of an image view.
#[derive(Clone, Copy, Debug, PartialEq, Eq, Structural)]
pub struct VkComponentMapping {
    pub r: VkComponentSwizzle,
    pub g: VkComponentSwizzle,
    pub b: VkComponentSwizzle,
    pub a: VkComponentSwizzle,
}

/// A range of mip levels and array layers of an image.
#[allow(non_snake_case)]
#[derive(Clone, Copy, Debug, PartialEq, Eq, Structural)]
pub struct VkImageSubresourceRange {
    pub aspectMask: VkImageAspectFlags,
    pub baseMipLevel: u32,
    pub levelCount: u32,
    pub baseArrayLayer: u32,
    pub layerCount: u32,
}

#[allow(non_camel_case_types)]
#[derive(Clone, Copy, Debug, PartialEq, Eq, Structural)]
pub enum VkImageType {
    VK_IMAGE_TYPE_1D,
    VK_IMAGE_TYPE_2D,
    VK_IMAGE_TYPE_3D,
    VK_IMAGE_TYPE_RANGE_SIZE,
    VK_IMAGE_TYPE_MAX_ENUM,
}

/// A number of samples per texel; each value is a single flag bit.
#[allow(non_camel_case_types)]
#[derive(Clone, Copy, Debug, PartialEq, Eq, Structural)]
pub enum VkSampleCountFlagBits {
    VK_SAMPLE_COUNT_1_BIT,
    VK_SAMPLE_COUNT_2_BIT,
    VK_SAMPLE_COUNT_4_BIT,
    VK_SAMPLE_COUNT_8_BIT,
    VK_SAMPLE_COUNT_16_BIT,
    VK_SAMPLE_COUNT_32_BIT,
    VK_SAMPLE_COUNT_64_BIT,
    VK_SAMPLE_COUNT_FLAG_BITS_MAX_ENUM,
}

/// The numeric value of a sample count flag, as the Vulkan headers define it.
pub open spec fn sample_count_value(samples: VkSampleCountFlagBits) -> u32 {
    match samples {
        VkSampleCountFlagBits::VK_SAMPLE_COUNT_1_BIT => 0x1,
        VkSampleCountFlagBits::VK_SAMPLE_COUNT_2_BIT => 0x2,
        VkSampleCountFlagBits::VK_SAMPLE_COUNT_4_BIT => 0x4,
        VkSampleCountFlagBits::VK_SAMPLE_COUNT_8_BIT => 0x8,
        VkSampleCountFlagBits::VK_SAMPLE_COUNT_16_BIT => 0x10,
        VkSampleCountFlagBits::VK_SAMPLE_COUNT_32_BIT => 0x20,
        VkSampleCountFlagBits::VK_SAMPLE_COUNT_64_BIT => 0x40,
        VkSampleCountFlagBits::VK_SAMPLE_COUNT_FLAG_BITS_MAX_ENUM => 0x7fff_ffff,
    }
}

impl VkSampleCountFlagBits {
    /// The numeric value of this flag.
    pub fn value(self) -> (r: u32)
        ensures
            r == sample_count_value(self),
    {
        match self {
            VkSampleCountFlagBits::VK_SAMPLE_COUNT_1_BIT => 0x1,
            VkSampleCountFlagBits::VK_SAMPLE_COUNT_2_BIT => 0x2,
            VkSampleCountFlagBits::VK_SAMPLE_COUNT_4_BIT => 0x4,
            VkSampleCountFlagBits::VK_SAMPLE_COUNT_8_BIT => 0x8,
            VkSampleCountFlagBits::VK_SAMPLE_COUNT_16_BIT => 0x10,
            VkSampleCountFlagBits::VK_SAMPLE_COUNT_32_BIT => 0x20,
            VkSampleCountFlagBits::VK_SAMPLE_COUNT_64_BIT => 0x40,
            VkSampleCountFlagBits::VK_SAMPLE_COUNT_FLAG_BITS_MAX_ENUM => 0x7fff_ffff,
        }
    }
}

#[allow(non_camel_case_types)]
#[derive(Clone, Copy, Debug, PartialEq, Eq, Structural)]
pub enum VkImageLayout {
    VK_IMAGE_LAYOUT_UNDEFINED,
    VK_IMAGE_LAYOUT_GENERAL,
    VK_IMAGE_LAYOUT_COLOR_ATTACHMENT_OPTIMAL,
    VK_IMAGE_LAYOUT_DEPTH_STENCIL_ATTACHMENT_OPTIMAL,
    VK_IMAGE_LAYOUT_DEPTH_STENCIL_READ_ONLY_OPTIMAL,
    VK_IMAGE_LAYOUT_SHADER_READ_ONLY_OPTIMAL,
    VK_IMAGE_LAYOUT_TRANSFER_SRC_OPTIMAL,
    VK_IMAGE_LAYOUT_TRANSFER_DST_OPTIMAL,
    VK_IMAGE_LAYOUT_PREINITIALIZED,
    VK_IMAGE_LAYOUT_PRESENT_SRC_KHR,
    VK_IMAGE_LAYOUT_SHARED_PRESENT_KHR,
    VK_IMAGE_LAYOUT_RANGE_SIZE,
    VK_IMAGE_LAYOUT_MAX_ENUM,
}

#[allow(non_camel_case_types)]
#[derive(Clone, Copy, Debug, PartialEq, Eq, Structural)]
pub enum VkDescriptorType {
    VK_DESCRIPTOR_TYPE_SAMPLER,
    VK_DESCRIPTOR_TYPE_COMBINED_IMAGE_SAMPLER,
    VK_DESCRIPTOR_TYPE_SAMPLED_IMAGE,
    VK_DESCRIPTOR_TYPE_STORAGE_IMAGE,
    VK_DESCRIPTOR_TYPE_UNIFORM_TEXEL_BUFFER,
    VK_DESCRIPTOR_TYPE_STORAGE_TEXEL_BUFFER,
    VK_DESCRIPTOR_TYPE_UNIFORM_BUFFER,
    VK_DESCRIPTOR_TYPE_STORAGE_BUFFER,
    VK_DESCRIPTOR_TYPE_UNIFORM_BUFFER_DYNAMIC,
    VK_DESCRIPTOR_TYPE_STORAGE_BUFFER_DYNAMIC,
    VK_DESCRIPTOR_TYPE_INPUT_ATTACHMENT,
    VK_DESCRIPTOR_TYPE_RANGE_SIZE,
    VK_DESCRIPTOR_TYPE_MAX_ENUM,
}

/// How the content of an attachment is treated at the start of a render pass.
#[allow(non_camel_case_types)]
#[derive(Clone, Copy, Debug, PartialEq, Eq, Structural)]
pub enum VkAttachmentLoadOp {
    VK_ATTACHMENT_LOAD_OP_LOAD,
    VK_ATTACHMENT_LOAD_OP_CLEAR,
    VK_ATTACHMENT_LOAD_OP_DONT_CARE,
    VK_ATTACHMENT_LOAD_OP_RANGE_SIZE,
    VK_ATTACHMENT_LOAD_OP_MAX_ENUM,
}

/// How the content of an attachment is treated at the end of a render pass.
#[allow(non_camel_case_types)]
#[derive(Clone, Copy, Debug, PartialEq, Eq, Structural)]
pub enum VkAttachmentStoreOp {
    VK_ATTACHMENT_STORE_OP_STORE,
    VK_ATTACHMENT_STORE_OP_DONT_CARE,
    VK_ATTACHMENT_STORE_OP_RANGE_SIZE,
    VK_ATTACHMENT_STORE_OP_MAX_ENUM,
}

/// The result codes of Vulkan commands.
#[allow(non_camel_case_types)]
#[derive(Clone, Copy, Debug, PartialEq, Eq, Structural)]
pub enum VkResult {
    VK_SUCCESS,
    VK_NOT_READY,
    VK_TIMEOUT,
    VK_EVENT_SET,
    VK_EVENT_RESET,
    VK_INCOMPLETE,
    VK_ERROR_OUT_OF_HOST_MEMORY,
    VK_ERROR_OUT_OF_DEVICE_MEMORY,
    VK_ERROR_INITIALIZATION_FAILED,
    VK_ERROR_DEVICE_LOST,
    VK_ERROR_MEMORY_MAP_FAILED,
    VK_ERROR_LAYER_NOT_PRESENT,
    VK_ERROR_EXTENSION_NOT_PRESENT,
    VK_ERROR_FEATURE_NOT_PRESENT,
    VK_ERROR_INCOMPATIBLE_DRIVER,
    VK_ERROR_TOO_MANY_OBJECTS,
    VK_ERROR_FORMAT_NOT_SUPPORTED,
    VK_ERROR_FRAGMENTED_POOL,
    VK_ERROR_SURFACE_LOST_KHR,
    VK_ERROR_NATIVE_WINDOW_IN_USE_KHR,
    VK_SUBOPTIMAL_KHR,
    VK_ERROR_OUT_OF_DATE_KHR,
    VK_RESULT_MAX_ENUM,
}

} // verus!
