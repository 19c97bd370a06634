//! Conversions between Vulkan values and gfx-hal values.
//!
//! Each conversion `f` has an open spec function `spec_f` that says what it
//! returns; where the conversion handles only part of its input type, an
//! open spec function `is_supported_*` (or the `requires` itself) says
//! which part.

use vstd::prelude::*;

use crate::hal;
use crate::hal::{adapter, buffer, image, memory, pass, pso, window};
use crate::vk;
use crate::vk::{
    VkAccessFlags, VkBufferUsageFlags, VkFormat, VkFormatFeatureFlags, VkFormatProperties,
    VkImageAspectFlags, VkImageUsageFlags, VkMemoryPropertyFlags, VkPipelineStageFlags,
    VkShaderStageFlags, VkExtent2D, VkExtent3D, VkComponentSwizzle, VkComponentMapping,
    VkImageSubresourceRange, VkSampleCountFlagBits, VkImageCreateFlags, VkImageType, VkImageLayout,
    VkDescriptorType, VkResult, VkAttachmentLoadOp, VkAttachmentStoreOp,
};

verus! {

/// `bit` where `cond` holds, no bit otherwise.
pub open spec fn flag_if(cond: bool, bit: u32) -> u32 {
    if cond {
        bit
    } else {
        0
    }
}

/// `flags` with `bit` added where `cond` holds.
pub open spec fn set_if(flags: u32, cond: bool, bit: u32) -> u32 {
    if cond {
        flags | bit
    } else {
        flags
    }
}

/// `flags` holds at least one bit of `mask`.
pub open spec fn has_bits(flags: u32, mask: u32) -> bool {
    flags & mask != 0
}

// ---------------------------------------------------------------- formats

/// The Vulkan format with the same code as a gfx-hal format.
pub open spec fn spec_format_from_hal(format: hal::format::Format) -> VkFormat {
    VkFormat(format.id)
}

/// Converts a gfx-hal format to the Vulkan format with the same numeric code.
pub fn format_from_hal(format: hal::format::Format) -> (r: VkFormat)
    ensures
        r == spec_format_from_hal(format),
{
    VkFormat(format.id)
}

/// The gfx-hal format of a Vulkan format code: none for `VK_FORMAT_UNDEFINED`,
/// the format with the same code otherwise.
pub open spec fn spec_map_format(format: VkFormat) -> Option<hal::format::Format> {
    if format.0 == vk::VK_FORMAT_UNDEFINED {
        None
    } else {
        Some(hal::format::Format { id: format.0 })
    }
}

/// Converts a Vulkan format to the gfx-hal format with the same numeric code;
/// `VK_FORMAT_UNDEFINED` has none.  Codes from gfx-hal's `NUM_FORMATS` up
/// are formats that gfx-hal does not know, which this conversion does not
/// take.
pub fn map_format(format: VkFormat) -> (r: Option<hal::format::Format>)
    requires
        format.0 < hal::format::spec_num_formats(),
    ensures
        r == spec_map_format(format),
        r matches Some(f) ==> f.wf(),
{
    if format.0 == vk::VK_FORMAT_UNDEFINED {
        None
    } else if (format.0 as usize) < hal::format::num_formats() {
        Some(hal::format::Format { id: format.0 })
    } else {
        // codes from `NUM_FORMATS` up are excluded by the precondition
        None
    }
}

/// The Vulkan feature bits of a set of gfx-hal image features.
pub open spec fn spec_image_features_from_hal(features: hal::format::ImageFeature) -> VkFormatFeatureFlags {
    flag_if(features.sampled, vk::VK_FORMAT_FEATURE_SAMPLED_IMAGE_BIT)
        | flag_if(features.storage, vk::VK_FORMAT_FEATURE_STORAGE_IMAGE_BIT)
        | flag_if(features.storage_atomic, vk::VK_FORMAT_FEATURE_STORAGE_IMAGE_ATOMIC_BIT)
        | flag_if(features.color_attachment, vk::VK_FORMAT_FEATURE_COLOR_ATTACHMENT_BIT)
        | flag_if(features.color_attachment_blend, vk::VK_FORMAT_FEATURE_COLOR_ATTACHMENT_BLEND_BIT)
        | flag_if(features.depth_stencil_attachment, vk::VK_FORMAT_FEATURE_DEPTH_STENCIL_ATTACHMENT_BIT)
        | flag_if(features.blit_src, vk::VK_FORMAT_FEATURE_BLIT_SRC_BIT)
        | flag_if(features.blit_dst, vk::VK_FORMAT_FEATURE_BLIT_DST_BIT)
        | flag_if(features.sampled_linear, vk::VK_FORMAT_FEATURE_SAMPLED_IMAGE_FILTER_LINEAR_BIT)
}

/// The Vulkan feature bits of a set of gfx-hal buffer features.
pub open spec fn spec_buffer_features_from_hal(features: hal::format::BufferFeature) -> VkFormatFeatureFlags {
    flag_if(features.uniform_texel, vk::VK_FORMAT_FEATURE_UNIFORM_TEXEL_BUFFER_BIT)
        | flag_if(features.storage_texel, vk::VK_FORMAT_FEATURE_STORAGE_TEXEL_BUFFER_BIT)
        | flag_if(features.storage_texel_atomic, vk::VK_FORMAT_FEATURE_STORAGE_TEXEL_BUFFER_ATOMIC_BIT)
        | flag_if(features.vertex, vk::VK_FORMAT_FEATURE_VERTEX_BUFFER_BIT)
}

/// The Vulkan format properties of a set of gfx-hal format properties.
pub open spec fn spec_format_properties_from_hal(properties: hal::format::Properties) -> VkFormatProperties {
    VkFormatProperties {
        linearTilingFeatures: spec_image_features_from_hal(properties.linear_tiling),
        optimalTilingFeatures: spec_image_features_from_hal(properties.optimal_tiling),
        bufferFeatures: spec_buffer_features_from_hal(properties.buffer_features),
    }
}

/// Converts gfx-hal format properties to Vulkan ones, tiling by tiling.
pub fn format_properties_from_hal(properties: hal::format::Properties) -> (r: VkFormatProperties)
    ensures
        r == spec_format_properties_from_hal(properties),
{
    VkFormatProperties {
        linearTilingFeatures: image_features_from_hal(properties.linear_tiling),
        optimalTilingFeatures: image_features_from_hal(properties.optimal_tiling),
        bufferFeatures: buffer_features_from_hal(properties.buffer_features),
    }
}

proof fn lemma_image_feature_bits(
    a: bool,
    b: bool,
    c: bool,
    d: bool,
    e: bool,
    f: bool,
    g: bool,
    h: bool,
    i: bool,
    r: u32,
)
    by (bit_vector)
    requires
        r == set_if(
            set_if(
                set_if(
                    set_if(
                        set_if(
                            set_if(
                                set_if(set_if(set_if(0, a, 0x1), b, 0x2), c, 0x4),
                                d,
                                0x80,
                            ),
                            e,
                            0x100,
                        ),
                        f,
                        0x200,
                    ),
                    g,
                    0x400,
                ),
                h,
                0x800,
            ),
            i,
            0x1000,
        ),
    ensures
        r == flag_if(a, 0x1) | flag_if(b, 0x2) | flag_if(c, 0x4) | flag_if(d, 0x80) | flag_if(e, 0x100)
            | flag_if(f, 0x200) | flag_if(g, 0x400) | flag_if(h, 0x800) | flag_if(i, 0x1000),
        (r & 0x1 != 0) == a,
        (r & 0x2 != 0) == b,
        (r & 0x4 != 0) == c,
        (r & 0x80 != 0) == d,
        (r & 0x100 != 0) == e,
        (r & 0x200 != 0) == f,
        (r & 0x400 != 0) == g,
        (r & 0x800 != 0) == h,
        (r & 0x1000 != 0) == i,
        r & !0x1f87u32 == 0,
{
}

/// Converts gfx-hal image features to Vulkan format feature bits: each
/// Vulkan bit is set exactly where its gfx-hal feature is, and no other bit.
fn image_features_from_hal(features: hal::format::ImageFeature) -> (r: VkFormatFeatureFlags)
    ensures
        r == spec_image_features_from_hal(features),
        has_bits(r, vk::VK_FORMAT_FEATURE_SAMPLED_IMAGE_BIT) == features.sampled,
        has_bits(r, vk::VK_FORMAT_FEATURE_STORAGE_IMAGE_BIT) == features.storage,
        has_bits(r, vk::VK_FORMAT_FEATURE_STORAGE_IMAGE_ATOMIC_BIT) == features.storage_atomic,
        has_bits(r, vk::VK_FORMAT_FEATURE_COLOR_ATTACHMENT_BIT) == features.color_attachment,
        has_bits(r, vk::VK_FORMAT_FEATURE_COLOR_ATTACHMENT_BLEND_BIT) == features.color_attachment_blend,
        has_bits(r, vk::VK_FORMAT_FEATURE_DEPTH_STENCIL_ATTACHMENT_BIT) == features.depth_stencil_attachment,
        has_bits(r, vk::VK_FORMAT_FEATURE_BLIT_SRC_BIT) == features.blit_src,
        has_bits(r, vk::VK_FORMAT_FEATURE_BLIT_DST_BIT) == features.blit_dst,
        has_bits(r, vk::VK_FORMAT_FEATURE_SAMPLED_IMAGE_FILTER_LINEAR_BIT) == features.sampled_linear,
        r & !0x1f87u32 == 0,
{
    let mut flags: u32 = 0;
    if features.sampled {
        flags = flags | vk::VK_FORMAT_FEATURE_SAMPLED_IMAGE_BIT;
    }
    if features.storage {
        flags = flags | vk::VK_FORMAT_FEATURE_STORAGE_IMAGE_BIT;
    }
    if features.storage_atomic {
        flags = flags | vk::VK_FORMAT_FEATURE_STORAGE_IMAGE_ATOMIC_BIT;
    }
    if features.color_attachment {
        flags = flags | vk::VK_FORMAT_FEATURE_COLOR_ATTACHMENT_BIT;
    }
    if features.color_attachment_blend {
        flags = flags | vk::VK_FORMAT_FEATURE_COLOR_ATTACHMENT_BLEND_BIT;
    }
    if features.depth_stencil_attachment {
        flags = flags | vk::VK_FORMAT_FEATURE_DEPTH_STENCIL_ATTACHMENT_BIT;
    }
    if features.blit_src {
        flags = flags | vk::VK_FORMAT_FEATURE_BLIT_SRC_BIT;
    }
    if features.blit_dst {
        flags = flags | vk::VK_FORMAT_FEATURE_BLIT_DST_BIT;
    }
    if features.sampled_linear {
        flags = flags | vk::VK_FORMAT_FEATURE_SAMPLED_IMAGE_FILTER_LINEAR_BIT;
    }
    proof {
        lemma_image_feature_bits(
            features.sampled,
            features.storage,
            features.storage_atomic,
            features.color_attachment,
            features.color_attachment_blend,
            features.depth_stencil_attachment,
            features.blit_src,
            features.blit_dst,
            features.sampled_linear,
            flags,
        );
    }
    flags
}

proof fn lemma_buffer_feature_bits(a: bool, b: bool, c: bool, d: bool, r: u32)
    by (bit_vector)
    requires
        r == set_if(set_if(set_if(set_if(0, a, 0x8), b, 0x10), c, 0x20), d, 0x40),
    ensures
        r == flag_if(a, 0x8) | flag_if(b, 0x10) | flag_if(c, 0x20) | flag_if(d, 0x40),
        (r & 0x8 != 0) == a,
        (r & 0x10 != 0) == b,
        (r & 0x20 != 0) == c,
        (r & 0x40 != 0) == d,
        r & !0x78u32 == 0,
{
}

/// Converts gfx-hal buffer features to Vulkan format feature bits: each
/// Vulkan bit is set exactly where its gfx-hal feature is, and no other bit.
fn buffer_features_from_hal(features: hal::format::BufferFeature) -> (r: VkFormatFeatureFlags)
    ensures
        r == spec_buffer_features_from_hal(features),
        has_bits(r, vk::VK_FORMAT_FEATURE_UNIFORM_TEXEL_BUFFER_BIT) == features.uniform_texel,
        has_bits(r, vk::VK_FORMAT_FEATURE_STORAGE_TEXEL_BUFFER_BIT) == features.storage_texel,
        has_bits(r, vk::VK_FORMAT_FEATURE_STORAGE_TEXEL_BUFFER_ATOMIC_BIT)
            == features.storage_texel_atomic,
        has_bits(r, vk::VK_FORMAT_FEATURE_VERTEX_BUFFER_BIT) == features.vertex,
        r & !0x78u32 == 0,
{
    let mut flags: u32 = 0;
    if features.uniform_texel {
        flags = flags | vk::VK_FORMAT_FEATURE_UNIFORM_TEXEL_BUFFER_BIT;
    }
    if features.storage_texel {
        flags = flags | vk::VK_FORMAT_FEATURE_STORAGE_TEXEL_BUFFER_BIT;
    }
    if features.storage_texel_atomic {
        flags = flags | vk::VK_FORMAT_FEATURE_STORAGE_TEXEL_BUFFER_ATOMIC_BIT;
    }
    if features.vertex {
        flags = flags | vk::VK_FORMAT_FEATURE_VERTEX_BUFFER_BIT;
    }
    proof {
        lemma_buffer_feature_bits(
            features.uniform_texel,
            features.storage_texel,
            features.storage_texel_atomic,
            features.vertex,
            flags,
        );
    }
    flags
}

// ------------------------------------------------------------------ memory

/// The Vulkan property bits of a set of gfx-hal memory properties.
pub open spec fn spec_memory_properties_from_hal(properties: memory::Properties) -> VkMemoryPropertyFlags {
    flag_if(properties.device_local, vk::VK_MEMORY_PROPERTY_DEVICE_LOCAL_BIT)
        | flag_if(properties.coherent, vk::VK_MEMORY_PROPERTY_HOST_COHERENT_BIT)
        | flag_if(properties.cpu_visible, vk::VK_MEMORY_PROPERTY_HOST_VISIBLE_BIT)
        | flag_if(properties.cpu_cached, vk::VK_MEMORY_PROPERTY_HOST_CACHED_BIT)
        | flag_if(properties.lazily_allocated, vk::VK_MEMORY_PROPERTY_LAZILY_ALLOCATED_BIT)
}

proof fn lemma_memory_property_bits(a: bool, b: bool, c: bool, d: bool, e: bool, r: u32)
    by (bit_vector)
    requires
        r == set_if(set_if(set_if(set_if(set_if(0, a, 0x1), b, 0x4), c, 0x2), d, 0x8), e, 0x10),
    ensures
        r == flag_if(a, 0x1) | flag_if(b, 0x4) | flag_if(c, 0x2) | flag_if(d, 0x8) | flag_if(e, 0x10),
        (r & 0x1 != 0) == a,
        (r & 0x4 != 0) == b,
        (r & 0x2 != 0) == c,
        (r & 0x8 != 0) == d,
        (r & 0x10 != 0) == e,
        r & !0x1fu32 == 0,
{
}

/// Converts gfx-hal memory properties to Vulkan memory property bits: each
/// Vulkan bit is set exactly where its gfx-hal property is (`coherent` to
/// `HOST_COHERENT`, `cpu_visible` to `HOST_VISIBLE`, `cpu_cached` to
/// `HOST_CACHED`), and no other bit.
pub fn memory_properties_from_hal(properties: memory::Properties) -> (r: VkMemoryPropertyFlags)
    ensures
        r == spec_memory_properties_from_hal(properties),
        has_bits(r, vk::VK_MEMORY_PROPERTY_DEVICE_LOCAL_BIT) == properties.device_local,
        has_bits(r, vk::VK_MEMORY_PROPERTY_HOST_COHERENT_BIT) == properties.coherent,
        has_bits(r, vk::VK_MEMORY_PROPERTY_HOST_VISIBLE_BIT) == properties.cpu_visible,
        has_bits(r, vk::VK_MEMORY_PROPERTY_HOST_CACHED_BIT) == properties.cpu_cached,
        has_bits(r, vk::VK_MEMORY_PROPERTY_LAZILY_ALLOCATED_BIT) == properties.lazily_allocated,
        r & !0x1fu32 == 0,
{
    let mut flags: u32 = 0;
    if properties.device_local {
        flags = flags | vk::VK_MEMORY_PROPERTY_DEVICE_LOCAL_BIT;
    }
    if properties.coherent {
        flags = flags | vk::VK_MEMORY_PROPERTY_HOST_COHERENT_BIT;
    }
    if properties.cpu_visible {
        flags = flags | vk::VK_MEMORY_PROPERTY_HOST_VISIBLE_BIT;
    }
    if properties.cpu_cached {
        flags = flags | vk::VK_MEMORY_PROPERTY_HOST_CACHED_BIT;
    }
    if properties.lazily_allocated {
        flags = flags | vk::VK_MEMORY_PROPERTY_LAZILY_ALLOCATED_BIT;
    }
    proof {
        lemma_memory_property_bits(
            properties.device_local,
            properties.coherent,
            properties.cpu_visible,
            properties.cpu_cached,
            properties.lazily_allocated,
            flags,
        );
    }
    flags
}

// ------------------------------------------------- Vulkan flags to gfx-hal

/// The gfx-hal aspects of a Vulkan aspect mask.  The stencil bit, like the
/// depth bit, gives the depth aspect; no mask gives the stencil aspect.
pub open spec fn spec_map_aspect(aspects: VkImageAspectFlags) -> hal::format::AspectFlags {
    hal::format::AspectFlags {
        color: has_bits(aspects, vk::VK_IMAGE_ASPECT_COLOR_BIT),
        depth: has_bits(aspects, vk::VK_IMAGE_ASPECT_DEPTH_BIT) || has_bits(aspects, vk::VK_IMAGE_ASPECT_STENCIL_BIT),
        stencil: false,
    }
}

/// Converts a Vulkan aspect mask to gfx-hal aspects.  The metadata aspect
/// has no gfx-hal counterpart and is not taken.
fn map_aspect(aspects: VkImageAspectFlags) -> (r: hal::format::AspectFlags)
    requires
        !has_bits(aspects, vk::VK_IMAGE_ASPECT_METADATA_BIT),
    ensures
        r == spec_map_aspect(aspects),
{
    let mut flags = hal::format::AspectFlags { color: false, depth: false, stencil: false };
    if aspects & vk::VK_IMAGE_ASPECT_COLOR_BIT != 0 {
        flags.color = true;
    }
    if aspects & vk::VK_IMAGE_ASPECT_DEPTH_BIT != 0 {
        flags.depth = true;
    }
    if aspects & vk::VK_IMAGE_ASPECT_STENCIL_BIT != 0 {
        flags.depth = true;
    }
    flags
}

/// The gfx-hal image usage of a Vulkan image usage mask.
pub open spec fn spec_map_image_usage(usage: VkImageUsageFlags) -> image::Usage {
    image::Usage {
        transfer_src: has_bits(usage, vk::VK_IMAGE_USAGE_TRANSFER_SRC_BIT),
        transfer_dst: has_bits(usage, vk::VK_IMAGE_USAGE_TRANSFER_DST_BIT),
        sampled: has_bits(usage, vk::VK_IMAGE_USAGE_SAMPLED_BIT),
        storage: has_bits(usage, vk::VK_IMAGE_USAGE_STORAGE_BIT),
        color_attachment: has_bits(usage, vk::VK_IMAGE_USAGE_COLOR_ATTACHMENT_BIT),
        depth_stencil_attachment: has_bits(usage, vk::VK_IMAGE_USAGE_DEPTH_STENCIL_ATTACHMENT_BIT),
        transient_attachment: false,
        input_attachment: false,
    }
}

/// Converts a Vulkan image usage mask to gfx-hal image usage, flag by flag.
/// Transient and input attachments are not taken.
pub fn map_image_usage(usage: VkImageUsageFlags) -> (r: image::Usage)
    requires
        !has_bits(usage, vk::VK_IMAGE_USAGE_TRANSIENT_ATTACHMENT_BIT),
        !has_bits(usage, vk::VK_IMAGE_USAGE_INPUT_ATTACHMENT_BIT),
    ensures
        r == spec_map_image_usage(usage),
{
    let mut flags = image::Usage {
        transfer_src: false,
        transfer_dst: false,
        sampled: false,
        storage: false,
        color_attachment: false,
        depth_stencil_attachment: false,
        transient_attachment: false,
        input_attachment: false,
    };
    if usage & vk::VK_IMAGE_USAGE_TRANSFER_SRC_BIT != 0 {
        flags.transfer_src = true;
    }
    if usage & vk::VK_IMAGE_USAGE_TRANSFER_DST_BIT != 0 {
        flags.transfer_dst = true;
    }
    if usage & vk::VK_IMAGE_USAGE_SAMPLED_BIT != 0 {
        flags.sampled = true;
    }
    if usage & vk::VK_IMAGE_USAGE_STORAGE_BIT != 0 {
        flags.storage = true;
    }
    if usage & vk::VK_IMAGE_USAGE_COLOR_ATTACHMENT_BIT != 0 {
        flags.color_attachment = true;
    }
    if usage & vk::VK_IMAGE_USAGE_DEPTH_STENCIL_ATTACHMENT_BIT != 0 {
        flags.depth_stencil_attachment = true;
    }
    flags
}

/// The gfx-hal buffer usage of a Vulkan buffer usage mask.
pub open spec fn spec_map_buffer_usage(usage: VkBufferUsageFlags) -> buffer::Usage {
    buffer::Usage {
        transfer_src: has_bits(usage, vk::VK_BUFFER_USAGE_TRANSFER_SRC_BIT),
        transfer_dst: has_bits(usage, vk::VK_BUFFER_USAGE_TRANSFER_DST_BIT),
        uniform_texel: has_bits(usage, vk::VK_BUFFER_USAGE_UNIFORM_TEXEL_BUFFER_BIT),
        storage_texel: has_bits(usage, vk::VK_BUFFER_USAGE_STORAGE_TEXEL_BUFFER_BIT),
        uniform: has_bits(usage, vk::VK_BUFFER_USAGE_UNIFORM_BUFFER_BIT),
        storage: has_bits(usage, vk::VK_BUFFER_USAGE_STORAGE_BUFFER_BIT),
        index: has_bits(usage, vk::VK_BUFFER_USAGE_INDEX_BUFFER_BIT),
        vertex: has_bits(usage, vk::VK_BUFFER_USAGE_VERTEX_BUFFER_BIT),
        indirect: has_bits(usage, vk::VK_BUFFER_USAGE_INDIRECT_BUFFER_BIT),
    }
}

/// Converts a Vulkan buffer usage mask to gfx-hal buffer usage, flag by flag.
pub fn map_buffer_usage(usage: VkBufferUsageFlags) -> (r: buffer::Usage)
    ensures
        r == spec_map_buffer_usage(usage),
{
    let mut flags = buffer::Usage {
        transfer_src: false,
        transfer_dst: false,
        uniform_texel: false,
        storage_texel: false,
        uniform: false,
        storage: false,
        index: false,
        vertex: false,
        indirect: false,
    };
    if usage & vk::VK_BUFFER_USAGE_TRANSFER_SRC_BIT != 0 {
        flags.transfer_src = true;
    }
    if usage & vk::VK_BUFFER_USAGE_TRANSFER_DST_BIT != 0 {
        flags.transfer_dst = true;
    }
    if usage & vk::VK_BUFFER_USAGE_UNIFORM_TEXEL_BUFFER_BIT != 0 {
        flags.uniform_texel = true;
    }
    if usage & vk::VK_BUFFER_USAGE_STORAGE_TEXEL_BUFFER_BIT != 0 {
        flags.storage_texel = true;
    }
    if usage & vk::VK_BUFFER_USAGE_UNIFORM_BUFFER_BIT != 0 {
        flags.uniform = true;
    }
    if usage & vk::VK_BUFFER_USAGE_STORAGE_BUFFER_BIT != 0 {
        flags.storage = true;
    }
    if usage & vk::VK_BUFFER_USAGE_INDEX_BUFFER_BIT != 0 {
        flags.index = true;
    }
    if usage & vk::VK_BUFFER_USAGE_VERTEX_BUFFER_BIT != 0 {
        flags.vertex = true;
    }
    if usage & vk::VK_BUFFER_USAGE_INDIRECT_BUFFER_BIT != 0 {
        flags.indirect = true;
    }
    flags
}

/// The gfx-hal shader stages of a Vulkan shader stage mask, as the
/// conversion tests them: each stage from its own bit, from
/// `VK_SHADER_STAGE_ALL_GRAPHICS` (all but compute) and from
/// `VK_SHADER_STAGE_ALL`, each tested for any common bit.
pub open spec fn spec_map_stage_flags(stages: VkShaderStageFlags) -> pso::ShaderStageFlags {
    let graphics = has_bits(stages, vk::VK_SHADER_STAGE_ALL_GRAPHICS);
    let all = has_bits(stages, vk::VK_SHADER_STAGE_ALL);
    pso::ShaderStageFlags {
        vertex: has_bits(stages, vk::VK_SHADER_STAGE_VERTEX_BIT) || graphics || all,
        hull: has_bits(stages, vk::VK_SHADER_STAGE_TESSELLATION_CONTROL_BIT) || graphics || all,
        domain: has_bits(stages, vk::VK_SHADER_STAGE_TESSELLATION_EVALUATION_BIT) || graphics || all,
        geometry: has_bits(stages, vk::VK_SHADER_STAGE_GEOMETRY_BIT) || graphics || all,
        fragment: has_bits(stages, vk::VK_SHADER_STAGE_FRAGMENT_BIT) || graphics || all,
        compute: has_bits(stages, vk::VK_SHADER_STAGE_COMPUTE_BIT) || all,
    }
}

/// The gfx-hal set with every shader stage where `any` holds, none otherwise.
pub open spec fn stage_flags_all_or_none(any: bool) -> pso::ShaderStageFlags {
    pso::ShaderStageFlags {
        vertex: any,
        hull: any,
        domain: any,
        geometry: any,
        fragment: any,
        compute: any,
    }
}

proof fn lemma_stage_bits(s: u32)
    by (bit_vector)
    ensures
        (s & 0x1 != 0 || s & 0x1f != 0 || s & 0x7fff_ffff != 0) == (s & 0x7fff_ffff != 0),
        (s & 0x2 != 0 || s & 0x1f != 0 || s & 0x7fff_ffff != 0) == (s & 0x7fff_ffff != 0),
        (s & 0x4 != 0 || s & 0x1f != 0 || s & 0x7fff_ffff != 0) == (s & 0x7fff_ffff != 0),
        (s & 0x8 != 0 || s & 0x1f != 0 || s & 0x7fff_ffff != 0) == (s & 0x7fff_ffff != 0),
        (s & 0x10 != 0 || s & 0x1f != 0 || s & 0x7fff_ffff != 0) == (s & 0x7fff_ffff != 0),
        (s & 0x20 != 0 || s & 0x7fff_ffff != 0) == (s & 0x7fff_ffff != 0),
{
}

/// Converts a Vulkan shader stage mask to gfx-hal shader stages.  Because
/// `VK_SHADER_STAGE_ALL` shares a bit with every stage, each of bits 0 to
/// 30 gives every stage: the result holds all stages where the mask has
/// one of those bits, and none where it has not.
pub fn map_stage_flags(stages: VkShaderStageFlags) -> (r: pso::ShaderStageFlags)
    ensures
        r == spec_map_stage_flags(stages),
        r == stage_flags_all_or_none(has_bits(stages, vk::VK_SHADER_STAGE_ALL)),
{
    let mut flags = pso::ShaderStageFlags {
        vertex: false,
        hull: false,
        domain: false,
        geometry: false,
        fragment: false,
        compute: false,
    };
    if stages & vk::VK_SHADER_STAGE_VERTEX_BIT != 0 {
        flags.vertex = true;
    }
    if stages & vk::VK_SHADER_STAGE_TESSELLATION_CONTROL_BIT != 0 {
        flags.hull = true;
    }
    if stages & vk::VK_SHADER_STAGE_TESSELLATION_EVALUATION_BIT != 0 {
        flags.domain = true;
    }
    if stages & vk::VK_SHADER_STAGE_GEOMETRY_BIT != 0 {
        flags.geometry = true;
    }
    if stages & vk::VK_SHADER_STAGE_FRAGMENT_BIT != 0 {
        flags.fragment = true;
    }
    if stages & vk::VK_SHADER_STAGE_COMPUTE_BIT != 0 {
        flags.compute = true;
    }
    if stages & vk::VK_SHADER_STAGE_ALL_GRAPHICS != 0 {
        flags.vertex = true;
        flags.hull = true;
        flags.domain = true;
        flags.geometry = true;
        flags.fragment = true;
    }
    if stages & vk::VK_SHADER_STAGE_ALL != 0 {
        flags = stage_flags_all();
    }
    proof {
        lemma_stage_bits(stages);
    }
    flags
}

/// Every gfx-hal shader stage (gfx-hal `ShaderStageFlags::ALL`).
fn stage_flags_all() -> (r: pso::ShaderStageFlags)
    ensures
        r == stage_flags_all_or_none(true),
{
    pso::ShaderStageFlags {
        vertex: true,
        hull: true,
        domain: true,
        geometry: true,
        fragment: true,
        compute: true,
    }
}

/// The gfx-hal image access of a Vulkan access mask.  The Vulkan access
/// bits that gfx-hal images have no flag for (indirect command, index,
/// vertex attribute and uniform reads) are dropped.
pub open spec fn spec_map_image_acces(access: VkAccessFlags) -> image::Access {
    image::Access {
        input_attachment_read: has_bits(access, vk::VK_ACCESS_INPUT_ATTACHMENT_READ_BIT),
        shader_read: has_bits(access, vk::VK_ACCESS_SHADER_READ_BIT),
        shader_write: has_bits(access, vk::VK_ACCESS_SHADER_WRITE_BIT),
        color_attachment_read: has_bits(access, vk::VK_ACCESS_COLOR_ATTACHMENT_READ_BIT),
        color_attachment_write: has_bits(access, vk::VK_ACCESS_COLOR_ATTACHMENT_WRITE_BIT),
        depth_stencil_attachment_read: has_bits(access, vk::VK_ACCESS_DEPTH_STENCIL_ATTACHMENT_READ_BIT),
        depth_stencil_attachment_write: has_bits(access, vk::VK_ACCESS_DEPTH_STENCIL_ATTACHMENT_WRITE_BIT),
        transfer_read: has_bits(access, vk::VK_ACCESS_TRANSFER_READ_BIT),
        transfer_write: has_bits(access, vk::VK_ACCESS_TRANSFER_WRITE_BIT),
        host_read: has_bits(access, vk::VK_ACCESS_HOST_READ_BIT),
        host_write: has_bits(access, vk::VK_ACCESS_HOST_WRITE_BIT),
        memory_read: has_bits(access, vk::VK_ACCESS_MEMORY_READ_BIT),
        memory_write: has_bits(access, vk::VK_ACCESS_MEMORY_WRITE_BIT),
    }
}

/// Converts a Vulkan access mask to gfx-hal image access, flag by flag.
pub fn map_image_acces(access: VkAccessFlags) -> (r: image::Access)
    ensures
        r == spec_map_image_acces(access),
{
    let mut mask = image::Access {
        input_attachment_read: false,
        shader_read: false,
        shader_write: false,
        color_attachment_read: false,
        color_attachment_write: false,
        depth_stencil_attachment_read: false,
        depth_stencil_attachment_write: false,
        transfer_read: false,
        transfer_write: false,
        host_read: false,
        host_write: false,
        memory_read: false,
        memory_write: false,
    };
    if access & vk::VK_ACCESS_INPUT_ATTACHMENT_READ_BIT != 0 {
        mask.input_attachment_read = true;
    }
    if access & vk::VK_ACCESS_SHADER_READ_BIT != 0 {
        mask.shader_read = true;
    }
    if access & vk::VK_ACCESS_SHADER_WRITE_BIT != 0 {
        mask.shader_write = true;
    }
    if access & vk::VK_ACCESS_COLOR_ATTACHMENT_READ_BIT != 0 {
        mask.color_attachment_read = true;
    }
    if access & vk::VK_ACCESS_COLOR_ATTACHMENT_WRITE_BIT != 0 {
        mask.color_attachment_write = true;
    }
    if access & vk::VK_ACCESS_DEPTH_STENCIL_ATTACHMENT_READ_BIT != 0 {
        mask.depth_stencil_attachment_read = true;
    }
    if access & vk::VK_ACCESS_DEPTH_STENCIL_ATTACHMENT_WRITE_BIT != 0 {
        mask.depth_stencil_attachment_write = true;
    }
    if access & vk::VK_ACCESS_TRANSFER_READ_BIT != 0 {
        mask.transfer_read = true;
    }
    if access & vk::VK_ACCESS_TRANSFER_WRITE_BIT != 0 {
        mask.transfer_write = true;
    }
    if access & vk::VK_ACCESS_HOST_READ_BIT != 0 {
        mask.host_read = true;
    }
    if access & vk::VK_ACCESS_HOST_WRITE_BIT != 0 {
        mask.host_write = true;
    }
    if access & vk::VK_ACCESS_MEMORY_READ_BIT != 0 {
        mask.memory_read = true;
    }
    if access & vk::VK_ACCESS_MEMORY_WRITE_BIT != 0 {
        mask.memory_write = true;
    }
    mask
}

/// The gfx-hal pipeline stages of a Vulkan pipeline stage mask: the same
/// bits.
pub open spec fn spec_map_pipeline_stage_flags(stages: VkPipelineStageFlags) -> pso::PipelineStage {
    pso::PipelineStage { bits: stages }
}

/// The bit that the pipeline stage conversion probes: it shifts 1 by
/// `VK_PIPELINE_STAGE_HOST_BIT` (0x4000) itself, more than a `u32` has
/// bits, and an unchecked shift takes the amount modulo 32, which leaves
/// bit 0 (`VK_PIPELINE_STAGE_TOP_OF_PIPE_BIT`).
pub open spec fn pipeline_stage_probe() -> u32 {
    1
}

/// Converts a Vulkan pipeline stage mask to gfx-hal pipeline stages, which
/// have the same bits.  The mask is probed first; a mask that holds the
/// probed bit is not taken.
pub fn map_pipeline_stage_flags(stages: VkPipelineStageFlags) -> (r: pso::PipelineStage)
    requires
        !has_bits(stages, pipeline_stage_probe()),
    ensures
        r == spec_map_pipeline_stage_flags(stages),
        r.bits == stages,
{
    let max_flag: u32 = vk::VK_PIPELINE_STAGE_HOST_BIT;
    let shift: u32 = (max_flag + 1 - 1) % 32;
    let probe: u32 = 1u32 << shift;
    assert(probe == pipeline_stage_probe()) by (bit_vector)
        requires
            shift == 0,
            probe == 1u32 << shift,
    ;
    if (stages & probe) == 0 {
        pso::PipelineStage { bits: stages }
    } else {
        // masks that hold the probed bit are excluded by the precondition
        pso::PipelineStage { bits: stages }
    }
}

// ------------------------------------------------------------------ images

/// Converts a gfx-hal surface extent to a Vulkan one.
pub fn extent2d_from_hal(extent: window::Extent2D) -> (r: VkExtent2D)
    ensures
        r.width == extent.width,
        r.height == extent.height,
{
    VkExtent2D { width: extent.width, height: extent.height }
}

/// The component swizzles that have a gfx-hal counterpart: all but the
/// `_RANGE_SIZE` and `_MAX_ENUM` values.
pub open spec fn is_supported_swizzle(component: VkComponentSwizzle) -> bool {
    !(component is VK_COMPONENT_SWIZZLE_RANGE_SIZE) && !(component is VK_COMPONENT_SWIZZLE_MAX_ENUM)
}

/// The gfx-hal component of a Vulkan swizzle, where `identity` is the
/// component that the identity swizzle stands for.
pub open spec fn spec_map_swizzle_component(
    component: VkComponentSwizzle,
    identity: hal::format::Component,
) -> hal::format::Component {
    match component {
        VkComponentSwizzle::VK_COMPONENT_SWIZZLE_IDENTITY => identity,
        VkComponentSwizzle::VK_COMPONENT_SWIZZLE_ZERO => hal::format::Component::Zero,
        VkComponentSwizzle::VK_COMPONENT_SWIZZLE_ONE => hal::format::Component::One,
        VkComponentSwizzle::VK_COMPONENT_SWIZZLE_R => hal::format::Component::R,
        VkComponentSwizzle::VK_COMPONENT_SWIZZLE_G => hal::format::Component::G,
        VkComponentSwizzle::VK_COMPONENT_SWIZZLE_B => hal::format::Component::B,
        _ => hal::format::Component::A,
    }
}

/// The gfx-hal swizzle of a Vulkan component mapping: the identity swizzle
/// of each channel stands for that channel.
pub open spec fn spec_map_swizzle(components: VkComponentMapping) -> hal::format::Swizzle {
    hal::format::Swizzle(
        spec_map_swizzle_component(components.r, hal::format::Component::R),
        spec_map_swizzle_component(components.g, hal::format::Component::G),
        spec_map_swizzle_component(components.b, hal::format::Component::B),
        spec_map_swizzle_component(components.a, hal::format::Component::A),
    )
}

/// Converts a Vulkan component mapping to a gfx-hal swizzle, channel by
/// channel.
pub fn map_swizzle(components: VkComponentMapping) -> (r: hal::format::Swizzle)
    requires
        is_supported_swizzle(components.r),
        is_supported_swizzle(components.g),
        is_supported_swizzle(components.b),
        is_supported_swizzle(components.a),
    ensures
        r == spec_map_swizzle(components),
{
    hal::format::Swizzle(
        map_swizzle_component(components.r, hal::format::Component::R),
        map_swizzle_component(components.g, hal::format::Component::G),
        map_swizzle_component(components.b, hal::format::Component::B),
        map_swizzle_component(components.a, hal::format::Component::A),
    )
}

/// Converts one Vulkan component swizzle to a gfx-hal component; the
/// identity swizzle gives `identity`.
fn map_swizzle_component(
    component: VkComponentSwizzle,
    identity: hal::format::Component,
) -> (r: hal::format::Component)
    requires
        is_supported_swizzle(component),
    ensures
        r == spec_map_swizzle_component(component, identity),
{
    match component {
        VkComponentSwizzle::VK_COMPONENT_SWIZZLE_IDENTITY => identity,
        VkComponentSwizzle::VK_COMPONENT_SWIZZLE_ZERO => hal::format::Component::Zero,
        VkComponentSwizzle::VK_COMPONENT_SWIZZLE_ONE => hal::format::Component::One,
        VkComponentSwizzle::VK_COMPONENT_SWIZZLE_R => hal::format::Component::R,
        VkComponentSwizzle::VK_COMPONENT_SWIZZLE_G => hal::format::Component::G,
        VkComponentSwizzle::VK_COMPONENT_SWIZZLE_B => hal::format::Component::B,
        VkComponentSwizzle::VK_COMPONENT_SWIZZLE_A => hal::format::Component::A,
        // `_RANGE_SIZE` and `_MAX_ENUM` are excluded by the precondition
        _ => hal::format::Component::A,
    }
}

/// The subresource ranges that the conversion takes: no metadata aspect,
/// and neither `base + count` sum beyond `u32`.
pub open spec fn is_supported_subresource_range(subresource: VkImageSubresourceRange) -> bool {
    &&& !has_bits(subresource.aspectMask, vk::VK_IMAGE_ASPECT_METADATA_BIT)
    &&& subresource.baseMipLevel + subresource.levelCount <= u32::MAX
    &&& subresource.baseArrayLayer + subresource.layerCount <= u32::MAX
}

/// The gfx-hal subresource range of a Vulkan one.
pub open spec fn spec_map_subresource_range(subresource: VkImageSubresourceRange) -> image::SubresourceRange {
    image::SubresourceRange {
        aspects: spec_map_aspect(subresource.aspectMask),
        levels: core::ops::Range {
            start: subresource.baseMipLevel as u8,
            end: (subresource.baseMipLevel + subresource.levelCount) as u8,
        },
        layers: core::ops::Range {
            start: subresource.baseArrayLayer as u16,
            end: (subresource.baseArrayLayer + subresource.layerCount) as u16,
        },
    }
}

/// Converts a Vulkan subresource range to a gfx-hal one.  The level range
/// runs from `baseMipLevel` to `baseMipLevel + levelCount`, the layer range
/// from `baseArrayLayer` to `baseArrayLayer + layerCount`, each bound
/// truncated to the width of gfx-hal's `Level` (`u8`) and `Layer` (`u16`).
pub fn map_subresource_range(subresource: VkImageSubresourceRange) -> (r: image::SubresourceRange)
    requires
        is_supported_subresource_range(subresource),
    ensures
        r == spec_map_subresource_range(subresource),
        r.aspects == spec_map_aspect(subresource.aspectMask),
        r.levels.start == subresource.baseMipLevel as u8,
        r.levels.end == (subresource.baseMipLevel + subresource.levelCount) as u8,
        r.layers.start == subresource.baseArrayLayer as u16,
        r.layers.end == (subresource.baseArrayLayer + subresource.layerCount) as u16,
{
    image::SubresourceRange {
        aspects: map_aspect(subresource.aspectMask),
        levels: core::ops::Range {
            start: subresource.baseMipLevel as u8,
            end: (subresource.baseMipLevel + subresource.levelCount) as u8,
        },
        layers: core::ops::Range {
            start: subresource.baseArrayLayer as u16,
            end: (subresource.baseArrayLayer + subresource.layerCount) as u16,
        },
    }
}

/// The gfx-hal anti-aliasing mode of a Vulkan sample count: one sample is
/// single-sampled; any other count is multi-sampled with the flag's value,
/// truncated to gfx-hal's `NumSamples` (`u8`).
pub open spec fn spec_map_aa_mode(samples: VkSampleCountFlagBits) -> image::AaMode {
    match samples {
        VkSampleCountFlagBits::VK_SAMPLE_COUNT_1_BIT => image::AaMode::Single,
        _ => image::AaMode::Multi(vk::sample_count_value(samples) as u8),
    }
}

fn map_aa_mode(samples: VkSampleCountFlagBits) -> (r: image::AaMode)
    ensures
        r == spec_map_aa_mode(samples),
{
    match samples {
        VkSampleCountFlagBits::VK_SAMPLE_COUNT_1_BIT => image::AaMode::Single,
        _ => image::AaMode::Multi(samples.value() as u8),
    }
}

/// The image descriptions that `map_image_kind` takes: a type of one, two
/// or three dimensions, at least one array layer, and, for a cube
/// compatible image, a multiple of 6 layers.
pub open spec fn is_supported_image_kind(
    ty: VkImageType,
    flags: VkImageCreateFlags,
    array_layers: u32,
) -> bool {
    &&& (ty is VK_IMAGE_TYPE_1D || ty is VK_IMAGE_TYPE_2D || ty is VK_IMAGE_TYPE_3D)
    &&& array_layers != 0
    &&& has_bits(flags, vk::VK_IMAGE_CREATE_CUBE_COMPATIBLE_BIT) ==> array_layers % 6 == 0
}

/// The gfx-hal image kind of a Vulkan image description.  A one-dimensional
/// image is a single row whatever its layer count; a two-dimensional one is
/// a plain image with one layer, a cube with 6 cube compatible layers, an
/// array of cubes with more, and an array of images otherwise; a
/// three-dimensional one is a volume.  Layer counts are truncated to
/// gfx-hal's `Layer` (`u16`).
pub open spec fn spec_map_image_kind(
    ty: VkImageType,
    flags: VkImageCreateFlags,
    extent: VkExtent3D,
    array_layers: u32,
    samples: VkSampleCountFlagBits,
) -> image::Kind {
    let is_cube = has_bits(flags, vk::VK_IMAGE_CREATE_CUBE_COMPATIBLE_BIT);
    match ty {
        VkImageType::VK_IMAGE_TYPE_1D => image::Kind::D1(extent.width),
        VkImageType::VK_IMAGE_TYPE_2D => {
            if array_layers == 1 {
                image::Kind::D2(extent.width, extent.height, spec_map_aa_mode(samples))
            } else if is_cube && array_layers == 6 {
                image::Kind::Cube(extent.width)
            } else if is_cube {
                image::Kind::CubeArray(extent.width, (array_layers / 6) as u16)
            } else {
                image::Kind::D2Array(
                    extent.width,
                    extent.height,
                    array_layers as u16,
                    spec_map_aa_mode(samples),
                )
            }
        },
        _ => image::Kind::D3(extent.width, extent.height, extent.depth),
    }
}

/// Converts a Vulkan image description to a gfx-hal image kind.
pub fn map_image_kind(
    ty: VkImageType,
    flags: VkImageCreateFlags,
    extent: VkExtent3D,
    array_layers: u32,
    samples: VkSampleCountFlagBits,
) -> (r: image::Kind)
    requires
        is_supported_image_kind(ty, flags, array_layers),
    ensures
        r == spec_map_image_kind(ty, flags, extent, array_layers, samples),
{
    let is_cube = flags & vk::VK_IMAGE_CREATE_CUBE_COMPATIBLE_BIT != 0;
    match ty {
        VkImageType::VK_IMAGE_TYPE_1D => image::Kind::D1(extent.width),
        VkImageType::VK_IMAGE_TYPE_2D if array_layers == 1 => {
            image::Kind::D2(extent.width, extent.height, map_aa_mode(samples))
        },
        VkImageType::VK_IMAGE_TYPE_2D if is_cube && array_layers == 6 => {
            image::Kind::Cube(extent.width)
        },
        VkImageType::VK_IMAGE_TYPE_2D if is_cube => {
            image::Kind::CubeArray(extent.width, (array_layers / 6) as u16)
        },
        VkImageType::VK_IMAGE_TYPE_2D => image::Kind::D2Array(
            extent.width,
            extent.height,
            array_layers as u16,
            map_aa_mode(samples),
        ),
        VkImageType::VK_IMAGE_TYPE_3D => {
            image::Kind::D3(extent.width, extent.height, extent.depth)
        },
        // `_RANGE_SIZE` and `_MAX_ENUM` are excluded by the precondition
        _ => image::Kind::D3(extent.width, extent.height, extent.depth),
    }
}

/// The image layouts that have a gfx-hal counterpart: the core ones and
/// `VK_IMAGE_LAYOUT_PRESENT_SRC_KHR`.
pub open spec fn is_supported_image_layout(layout: VkImageLayout) -> bool {
    !(layout is VK_IMAGE_LAYOUT_SHARED_PRESENT_KHR) && !(layout is VK_IMAGE_LAYOUT_RANGE_SIZE)
        && !(layout is VK_IMAGE_LAYOUT_MAX_ENUM)
}

/// The gfx-hal layout of a supported Vulkan image layout.
pub open spec fn spec_map_image_layout(layout: VkImageLayout) -> image::ImageLayout {
    match layout {
        VkImageLayout::VK_IMAGE_LAYOUT_UNDEFINED => image::ImageLayout::Undefined,
        VkImageLayout::VK_IMAGE_LAYOUT_GENERAL => image::ImageLayout::General,
        VkImageLayout::VK_IMAGE_LAYOUT_COLOR_ATTACHMENT_OPTIMAL => image::ImageLayout::ColorAttachmentOptimal,
        VkImageLayout::VK_IMAGE_LAYOUT_DEPTH_STENCIL_ATTACHMENT_OPTIMAL => image::ImageLayout::DepthStencilAttachmentOptimal,
        VkImageLayout::VK_IMAGE_LAYOUT_DEPTH_STENCIL_READ_ONLY_OPTIMAL => image::ImageLayout::DepthStencilReadOnlyOptimal,
        VkImageLayout::VK_IMAGE_LAYOUT_SHADER_READ_ONLY_OPTIMAL => image::ImageLayout::ShaderReadOnlyOptimal,
        VkImageLayout::VK_IMAGE_LAYOUT_TRANSFER_SRC_OPTIMAL => image::ImageLayout::TransferSrcOptimal,
        VkImageLayout::VK_IMAGE_LAYOUT_TRANSFER_DST_OPTIMAL => image::ImageLayout::TransferDstOptimal,
        VkImageLayout::VK_IMAGE_LAYOUT_PREINITIALIZED => image::ImageLayout::Preinitialized,
        _ => image::ImageLayout::Present,
    }
}

/// Converts a Vulkan image layout to the gfx-hal one.
pub fn map_image_layout(layout: VkImageLayout) -> (r: image::ImageLayout)
    requires
        is_supported_image_layout(layout),
    ensures
        r == spec_map_image_layout(layout),
{
    match layout {
        VkImageLayout::VK_IMAGE_LAYOUT_UNDEFINED => image::ImageLayout::Undefined,
        VkImageLayout::VK_IMAGE_LAYOUT_GENERAL => image::ImageLayout::General,
        VkImageLayout::VK_IMAGE_LAYOUT_COLOR_ATTACHMENT_OPTIMAL => image::ImageLayout::ColorAttachmentOptimal,
        VkImageLayout::VK_IMAGE_LAYOUT_DEPTH_STENCIL_ATTACHMENT_OPTIMAL => image::ImageLayout::DepthStencilAttachmentOptimal,
        VkImageLayout::VK_IMAGE_LAYOUT_DEPTH_STENCIL_READ_ONLY_OPTIMAL => image::ImageLayout::DepthStencilReadOnlyOptimal,
        VkImageLayout::VK_IMAGE_LAYOUT_SHADER_READ_ONLY_OPTIMAL => image::ImageLayout::ShaderReadOnlyOptimal,
        VkImageLayout::VK_IMAGE_LAYOUT_TRANSFER_SRC_OPTIMAL => image::ImageLayout::TransferSrcOptimal,
        VkImageLayout::VK_IMAGE_LAYOUT_TRANSFER_DST_OPTIMAL => image::ImageLayout::TransferDstOptimal,
        VkImageLayout::VK_IMAGE_LAYOUT_PREINITIALIZED => image::ImageLayout::Preinitialized,
        VkImageLayout::VK_IMAGE_LAYOUT_PRESENT_SRC_KHR => image::ImageLayout::Present,
        // the other layouts are excluded by the precondition
        _ => image::ImageLayout::Present,
    }
}

// ------------------------------------------------- descriptors and passes

/// The descriptor types that the conversion takes: neither combined image
/// samplers nor dynamic buffers (which it does not implement), nor the
/// `_RANGE_SIZE` and `_MAX_ENUM` values.
pub open spec fn is_supported_descriptor_type(ty: VkDescriptorType) -> bool {
    match ty {
        VkDescriptorType::VK_DESCRIPTOR_TYPE_SAMPLER
        | VkDescriptorType::VK_DESCRIPTOR_TYPE_SAMPLED_IMAGE
        | VkDescriptorType::VK_DESCRIPTOR_TYPE_STORAGE_IMAGE
        | VkDescriptorType::VK_DESCRIPTOR_TYPE_UNIFORM_TEXEL_BUFFER
        | VkDescriptorType::VK_DESCRIPTOR_TYPE_STORAGE_TEXEL_BUFFER
        | VkDescriptorType::VK_DESCRIPTOR_TYPE_UNIFORM_BUFFER
        | VkDescriptorType::VK_DESCRIPTOR_TYPE_STORAGE_BUFFER
        | VkDescriptorType::VK_DESCRIPTOR_TYPE_INPUT_ATTACHMENT => true,
        _ => false,
    }
}

/// The gfx-hal descriptor type of a supported Vulkan one.
pub open spec fn spec_map_descriptor_type(ty: VkDescriptorType) -> pso::DescriptorType {
    match ty {
        VkDescriptorType::VK_DESCRIPTOR_TYPE_SAMPLER => pso::DescriptorType::Sampler,
        VkDescriptorType::VK_DESCRIPTOR_TYPE_SAMPLED_IMAGE => pso::DescriptorType::SampledImage,
        VkDescriptorType::VK_DESCRIPTOR_TYPE_STORAGE_IMAGE => pso::DescriptorType::StorageImage,
        VkDescriptorType::VK_DESCRIPTOR_TYPE_UNIFORM_TEXEL_BUFFER => pso::DescriptorType::UniformTexelBuffer,
        VkDescriptorType::VK_DESCRIPTOR_TYPE_STORAGE_TEXEL_BUFFER => pso::DescriptorType::StorageTexelBuffer,
        VkDescriptorType::VK_DESCRIPTOR_TYPE_UNIFORM_BUFFER => pso::DescriptorType::UniformBuffer,
        VkDescriptorType::VK_DESCRIPTOR_TYPE_STORAGE_BUFFER => pso::DescriptorType::StorageBuffer,
        _ => pso::DescriptorType::InputAttachment,
    }
}

/// Converts a Vulkan descriptor type to the gfx-hal one.
pub fn map_descriptor_type(ty: VkDescriptorType) -> (r: pso::DescriptorType)
    requires
        is_supported_descriptor_type(ty),
    ensures
        r == spec_map_descriptor_type(ty),
{
    match ty {
        VkDescriptorType::VK_DESCRIPTOR_TYPE_SAMPLER => pso::DescriptorType::Sampler,
        VkDescriptorType::VK_DESCRIPTOR_TYPE_SAMPLED_IMAGE => pso::DescriptorType::SampledImage,
        VkDescriptorType::VK_DESCRIPTOR_TYPE_STORAGE_IMAGE => pso::DescriptorType::StorageImage,
        VkDescriptorType::VK_DESCRIPTOR_TYPE_UNIFORM_TEXEL_BUFFER => pso::DescriptorType::UniformTexelBuffer,
        VkDescriptorType::VK_DESCRIPTOR_TYPE_STORAGE_TEXEL_BUFFER => pso::DescriptorType::StorageTexelBuffer,
        VkDescriptorType::VK_DESCRIPTOR_TYPE_UNIFORM_BUFFER => pso::DescriptorType::UniformBuffer,
        VkDescriptorType::VK_DESCRIPTOR_TYPE_STORAGE_BUFFER => pso::DescriptorType::StorageBuffer,
        VkDescriptorType::VK_DESCRIPTOR_TYPE_INPUT_ATTACHMENT => pso::DescriptorType::InputAttachment,
        // the other types are excluded by the precondition
        _ => pso::DescriptorType::InputAttachment,
    }
}

/// The Vulkan result code of a gfx-hal device creation error.
pub open spec fn spec_map_err_device_creation(err: adapter::DeviceCreationError) -> VkResult {
    match err {
        adapter::DeviceCreationError::OutOfHostMemory => VkResult::VK_ERROR_OUT_OF_HOST_MEMORY,
        adapter::DeviceCreationError::OutOfDeviceMemory => VkResult::VK_ERROR_OUT_OF_DEVICE_MEMORY,
        adapter::DeviceCreationError::InitializationFailed => VkResult::VK_ERROR_INITIALIZATION_FAILED,
        adapter::DeviceCreationError::MissingExtension => VkResult::VK_ERROR_EXTENSION_NOT_PRESENT,
        adapter::DeviceCreationError::MissingFeature => VkResult::VK_ERROR_FEATURE_NOT_PRESENT,
        adapter::DeviceCreationError::TooManyObjects => VkResult::VK_ERROR_TOO_MANY_OBJECTS,
        adapter::DeviceCreationError::DeviceLost => VkResult::VK_ERROR_DEVICE_LOST,
    }
}

/// Converts a gfx-hal device creation error to the Vulkan result code.
pub fn map_err_device_creation(err: adapter::DeviceCreationError) -> (r: VkResult)
    ensures
        r == spec_map_err_device_creation(err),
{
    match err {
        adapter::DeviceCreationError::OutOfHostMemory => VkResult::VK_ERROR_OUT_OF_HOST_MEMORY,
        adapter::DeviceCreationError::OutOfDeviceMemory => VkResult::VK_ERROR_OUT_OF_DEVICE_MEMORY,
        adapter::DeviceCreationError::InitializationFailed => VkResult::VK_ERROR_INITIALIZATION_FAILED,
        adapter::DeviceCreationError::MissingExtension => VkResult::VK_ERROR_EXTENSION_NOT_PRESENT,
        adapter::DeviceCreationError::MissingFeature => VkResult::VK_ERROR_FEATURE_NOT_PRESENT,
        adapter::DeviceCreationError::TooManyObjects => VkResult::VK_ERROR_TOO_MANY_OBJECTS,
        adapter::DeviceCreationError::DeviceLost => VkResult::VK_ERROR_DEVICE_LOST,
    }
}

/// The attachment load operations that have a gfx-hal counterpart.
pub open spec fn is_supported_load_op(op: VkAttachmentLoadOp) -> bool {
    op is VK_ATTACHMENT_LOAD_OP_LOAD || op is VK_ATTACHMENT_LOAD_OP_CLEAR
        || op is VK_ATTACHMENT_LOAD_OP_DONT_CARE
}

/// The gfx-hal load operation of a supported Vulkan one.
pub open spec fn spec_map_attachment_load_op(op: VkAttachmentLoadOp) -> pass::AttachmentLoadOp {
    match op {
        VkAttachmentLoadOp::VK_ATTACHMENT_LOAD_OP_LOAD => pass::AttachmentLoadOp::Load,
        VkAttachmentLoadOp::VK_ATTACHMENT_LOAD_OP_CLEAR => pass::AttachmentLoadOp::Clear,
        _ => pass::AttachmentLoadOp::DontCare,
    }
}

/// Converts a Vulkan attachment load operation to the gfx-hal one.
pub fn map_attachment_load_op(op: VkAttachmentLoadOp) -> (r: pass::AttachmentLoadOp)
    requires
        is_supported_load_op(op),
    ensures
        r == spec_map_attachment_load_op(op),
{
    match op {
        VkAttachmentLoadOp::VK_ATTACHMENT_LOAD_OP_LOAD => pass::AttachmentLoadOp::Load,
        VkAttachmentLoadOp::VK_ATTACHMENT_LOAD_OP_CLEAR => pass::AttachmentLoadOp::Clear,
        VkAttachmentLoadOp::VK_ATTACHMENT_LOAD_OP_DONT_CARE => pass::AttachmentLoadOp::DontCare,
        // `_RANGE_SIZE` and `_MAX_ENUM` are excluded by the precondition
        _ => pass::AttachmentLoadOp::DontCare,
    }
}

/// The attachment store operations that have a gfx-hal counterpart.
pub open spec fn is_supported_store_op(op: VkAttachmentStoreOp) -> bool {
    op is VK_ATTACHMENT_STORE_OP_STORE || op is VK_ATTACHMENT_STORE_OP_DONT_CARE
}

/// The gfx-hal store operation of a supported Vulkan one.
pub open spec fn spec_map_attachment_store_op(op: VkAttachmentStoreOp) -> pass::AttachmentStoreOp {
    match op {
        VkAttachmentStoreOp::VK_ATTACHMENT_STORE_OP_STORE => pass::AttachmentStoreOp::Store,
        _ => pass::AttachmentStoreOp::DontCare,
    }
}

/// Converts a Vulkan attachment store operation to the gfx-hal one.
pub fn map_attachment_store_op(op: VkAttachmentStoreOp) -> (r: pass::AttachmentStoreOp)
    requires
        is_supported_store_op(op),
    ensures
        r == spec_map_attachment_store_op(op),
{
    match op {
        VkAttachmentStoreOp::VK_ATTACHMENT_STORE_OP_STORE => pass::AttachmentStoreOp::Store,
        VkAttachmentStoreOp::VK_ATTACHMENT_STORE_OP_DONT_CARE => pass::AttachmentStoreOp::DontCare,
        // `_RANGE_SIZE` and `_MAX_ENUM` are excluded by the precondition
        _ => pass::AttachmentStoreOp::DontCare,
    }
}

} // verus!
