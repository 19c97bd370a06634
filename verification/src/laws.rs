//! Properties that relate the conversions, stated over their spec functions.

use vstd::prelude::*;

use crate::conv::{
    flag_if, has_bits, is_supported_descriptor_type, is_supported_image_kind,
    is_supported_image_layout, is_supported_load_op, is_supported_store_op,
    is_supported_subresource_range, spec_buffer_features_from_hal, spec_format_from_hal,
    spec_image_features_from_hal, spec_map_aspect, spec_map_attachment_load_op,
    spec_map_attachment_store_op, spec_map_buffer_usage, spec_map_descriptor_type,
    spec_map_err_device_creation, spec_map_format, spec_map_image_acces, spec_map_image_kind,
    spec_map_image_layout, spec_map_image_usage, spec_map_stage_flags,
    spec_map_subresource_range, spec_memory_properties_from_hal, spec_format_properties_from_hal,
    spec_map_swizzle, is_supported_swizzle, spec_map_aa_mode,
};
use crate::hal;
use crate::hal::{adapter, image, memory, pass, pso};
use crate::vk;
use crate::vk::{
    VkAccessFlags, VkAttachmentLoadOp, VkAttachmentStoreOp, VkBufferUsageFlags, VkDescriptorType,
    VkExtent3D, VkFormat, VkImageAspectFlags, VkImageCreateFlags, VkImageLayout,
    VkImageSubresourceRange, VkImageType, VkImageUsageFlags, VkSampleCountFlagBits,
    VkShaderStageFlags, VkComponentMapping, VkComponentSwizzle, VkResult,
};

verus! {

// ------------------------------------------------------------------ formats

/// gfx-hal formats have the same numeric codes as Vulkan formats: a gfx-hal
/// format taken to Vulkan and back is the same format.
pub proof fn lemma_format_round_trip(format: hal::format::Format)
    requires
        format.wf(),
    ensures
        spec_map_format(spec_format_from_hal(format)) == Some(format),
{
}

/// gfx-hal formats have the same numeric codes as Vulkan formats: a Vulkan
/// format that gfx-hal knows, other than `VK_FORMAT_UNDEFINED`, taken to
/// gfx-hal and back is the same format.
pub proof fn lemma_vk_format_round_trip(format: VkFormat)
    requires
        format.0 != vk::VK_FORMAT_UNDEFINED,
        format.0 < hal::format::spec_num_formats(),
    ensures
        spec_map_format(format) matches Some(f) && f.wf() && spec_format_from_hal(f) == format,
{
}

// ---------------------------------------------------------- flag bit sets

/// A bit of `mask` is in the union of two masks exactly where it is in one
/// of them.
pub broadcast proof fn lemma_has_bits_union(a: u32, b: u32, mask: u32)
    ensures
        #[trigger] has_bits(a | b, mask) == (has_bits(a, mask) || has_bits(b, mask)),
{
    assert(((a | b) & mask != 0) == ((a & mask != 0) || (b & mask != 0))) by (bit_vector);
}

/// The image usage of the union of two Vulkan usage masks is the union of
/// their image usages.
pub proof fn lemma_map_image_usage_union(a: VkImageUsageFlags, b: VkImageUsageFlags)
    ensures
        spec_map_image_usage(a | b) == spec_map_image_usage(a).union(spec_map_image_usage(b)),
{
    broadcast use lemma_has_bits_union;

}

/// The buffer usage of the union of two Vulkan usage masks is the union of
/// their buffer usages.
pub proof fn lemma_map_buffer_usage_union(a: VkBufferUsageFlags, b: VkBufferUsageFlags)
    ensures
        spec_map_buffer_usage(a | b) == spec_map_buffer_usage(a).union(spec_map_buffer_usage(b)),
{
    broadcast use lemma_has_bits_union;

}

/// The image access of the union of two Vulkan access masks is the union of
/// their image accesses.
pub proof fn lemma_map_image_acces_union(a: VkAccessFlags, b: VkAccessFlags)
    ensures
        spec_map_image_acces(a | b) == spec_map_image_acces(a).union(spec_map_image_acces(b)),
{
    broadcast use lemma_has_bits_union;

}

/// The aspects of the union of two Vulkan aspect masks are the union of
/// their aspects.
pub proof fn lemma_map_aspect_union(a: VkImageAspectFlags, b: VkImageAspectFlags)
    ensures
        spec_map_aspect(a | b) == spec_map_aspect(a).union(spec_map_aspect(b)),
{
    broadcast use lemma_has_bits_union;

}

/// The shader stages of the union of two Vulkan stage masks are the union
/// of their shader stages.
pub proof fn lemma_map_stage_flags_union(a: VkShaderStageFlags, b: VkShaderStageFlags)
    ensures
        spec_map_stage_flags(a | b) == spec_map_stage_flags(a).union(spec_map_stage_flags(b)),
{
    broadcast use lemma_has_bits_union;

}

proof fn lemma_image_feature_bits_union(
    a1: bool,
    a2: bool,
    a3: bool,
    a4: bool,
    a5: bool,
    a6: bool,
    a7: bool,
    a8: bool,
    a9: bool,
    b1: bool,
    b2: bool,
    b3: bool,
    b4: bool,
    b5: bool,
    b6: bool,
    b7: bool,
    b8: bool,
    b9: bool,
)
    by (bit_vector)
    ensures
        flag_if(a1 || b1, 0x1) | flag_if(a2 || b2, 0x2) | flag_if(a3 || b3, 0x4) | flag_if(
            a4 || b4,
            0x80,
        ) | flag_if(a5 || b5, 0x100) | flag_if(a6 || b6, 0x200) | flag_if(a7 || b7, 0x400)
            | flag_if(a8 || b8, 0x800) | flag_if(a9 || b9, 0x1000) == (flag_if(a1, 0x1) | flag_if(
            a2,
            0x2,
        ) | flag_if(a3, 0x4) | flag_if(a4, 0x80) | flag_if(a5, 0x100) | flag_if(a6, 0x200)
            | flag_if(a7, 0x400) | flag_if(a8, 0x800) | flag_if(a9, 0x1000)) | (flag_if(b1, 0x1)
            | flag_if(b2, 0x2) | flag_if(b3, 0x4) | flag_if(b4, 0x80) | flag_if(b5, 0x100)
            | flag_if(b6, 0x200) | flag_if(b7, 0x400) | flag_if(b8, 0x800) | flag_if(b9, 0x1000)),
{
}

/// The Vulkan feature bits of the union of two sets of gfx-hal image
/// features are the union of their feature bits.
pub proof fn lemma_image_features_from_hal_union(
    a: hal::format::ImageFeature,
    b: hal::format::ImageFeature,
)
    ensures
        spec_image_features_from_hal(a.union(b)) == spec_image_features_from_hal(a)
            | spec_image_features_from_hal(b),
{
    lemma_image_feature_bits_union(
        a.sampled,
        a.storage,
        a.storage_atomic,
        a.color_attachment,
        a.color_attachment_blend,
        a.depth_stencil_attachment,
        a.blit_src,
        a.blit_dst,
        a.sampled_linear,
        b.sampled,
        b.storage,
        b.storage_atomic,
        b.color_attachment,
        b.color_attachment_blend,
        b.depth_stencil_attachment,
        b.blit_src,
        b.blit_dst,
        b.sampled_linear,
    );
}

proof fn lemma_buffer_feature_bits_union(
    a1: bool,
    a2: bool,
    a3: bool,
    a4: bool,
    b1: bool,
    b2: bool,
    b3: bool,
    b4: bool,
)
    by (bit_vector)
    ensures
        flag_if(a1 || b1, 0x8) | flag_if(a2 || b2, 0x10) | flag_if(a3 || b3, 0x20) | flag_if(
            a4 || b4,
            0x40,
        ) == (flag_if(a1, 0x8) | flag_if(a2, 0x10) | flag_if(a3, 0x20) | flag_if(a4, 0x40)) | (
        flag_if(b1, 0x8) | flag_if(b2, 0x10) | flag_if(b3, 0x20) | flag_if(b4, 0x40)),
{
}

/// The Vulkan feature bits of the union of two sets of gfx-hal buffer
/// features are the union of their feature bits.
pub proof fn lemma_buffer_features_from_hal_union(
    a: hal::format::BufferFeature,
    b: hal::format::BufferFeature,
)
    ensures
        spec_buffer_features_from_hal(a.union(b)) == spec_buffer_features_from_hal(a)
            | spec_buffer_features_from_hal(b),
{
    lemma_buffer_feature_bits_union(
        a.uniform_texel,
        a.storage_texel,
        a.storage_texel_atomic,
        a.vertex,
        b.uniform_texel,
        b.storage_texel,
        b.storage_texel_atomic,
        b.vertex,
    );
}

proof fn lemma_memory_property_bits_union(
    a1: bool,
    a2: bool,
    a3: bool,
    a4: bool,
    a5: bool,
    b1: bool,
    b2: bool,
    b3: bool,
    b4: bool,
    b5: bool,
)
    by (bit_vector)
    ensures
        flag_if(a1 || b1, 0x1) | flag_if(a2 || b2, 0x4) | flag_if(a3 || b3, 0x2) | flag_if(
            a4 || b4,
            0x8,
        ) | flag_if(a5 || b5, 0x10) == (flag_if(a1, 0x1) | flag_if(a2, 0x4) | flag_if(a3, 0x2)
            | flag_if(a4, 0x8) | flag_if(a5, 0x10)) | (flag_if(b1, 0x1) | flag_if(b2, 0x4)
            | flag_if(b3, 0x2) | flag_if(b4, 0x8) | flag_if(b5, 0x10)),
{
}

/// The Vulkan property bits of the union of two sets of gfx-hal memory
/// properties are the union of their property bits.
pub proof fn lemma_memory_properties_from_hal_union(a: memory::Properties, b: memory::Properties)
    ensures
        spec_memory_properties_from_hal(a.union(b)) == spec_memory_properties_from_hal(a)
            | spec_memory_properties_from_hal(b),
{
    lemma_memory_property_bits_union(
        a.device_local,
        a.coherent,
        a.cpu_visible,
        a.cpu_cached,
        a.lazily_allocated,
        b.device_local,
        b.coherent,
        b.cpu_visible,
        b.cpu_cached,
        b.lazily_allocated,
    );
}

// ------------------------------------------------ enums keep their values

/// Distinct supported Vulkan image layouts give distinct gfx-hal layouts.
pub proof fn lemma_map_image_layout_injective(a: VkImageLayout, b: VkImageLayout)
    requires
        is_supported_image_layout(a),
        is_supported_image_layout(b),
        spec_map_image_layout(a) == spec_map_image_layout(b),
    ensures
        a == b,
{
}

/// Distinct supported Vulkan descriptor types give distinct gfx-hal ones.
pub proof fn lemma_map_descriptor_type_injective(a: VkDescriptorType, b: VkDescriptorType)
    requires
        is_supported_descriptor_type(a),
        is_supported_descriptor_type(b),
        spec_map_descriptor_type(a) == spec_map_descriptor_type(b),
    ensures
        a == b,
{
}

/// Distinct gfx-hal device creation errors give distinct Vulkan result codes.
pub proof fn lemma_map_err_device_creation_injective(
    a: adapter::DeviceCreationError,
    b: adapter::DeviceCreationError,
)
    requires
        spec_map_err_device_creation(a) == spec_map_err_device_creation(b),
    ensures
        a == b,
{
}

/// Distinct supported Vulkan load operations give distinct gfx-hal ones.
pub proof fn lemma_map_attachment_load_op_injective(a: VkAttachmentLoadOp, b: VkAttachmentLoadOp)
    requires
        is_supported_load_op(a),
        is_supported_load_op(b),
        spec_map_attachment_load_op(a) == spec_map_attachment_load_op(b),
    ensures
        a == b,
{
}

/// Distinct supported Vulkan store operations give distinct gfx-hal ones.
pub proof fn lemma_map_attachment_store_op_injective(
    a: VkAttachmentStoreOp,
    b: VkAttachmentStoreOp,
)
    requires
        is_supported_store_op(a),
        is_supported_store_op(b),
        spec_map_attachment_store_op(a) == spec_map_attachment_store_op(b),
    ensures
        a == b,
{
}

// ---------------------------------------------------------------- images

/// The image kind holds as many layers as the image was described with,
/// where gfx-hal's `Layer` can count them and the image is not a
/// one-dimensional or three-dimensional one with more than one layer.
pub proof fn lemma_map_image_kind_layers(
    ty: VkImageType,
    flags: VkImageCreateFlags,
    extent: VkExtent3D,
    array_layers: u32,
    samples: VkSampleCountFlagBits,
)
    requires
        is_supported_image_kind(ty, flags, array_layers),
        array_layers <= 0xffff,
        !(ty is VK_IMAGE_TYPE_2D) ==> array_layers == 1,
    ensures
        spec_map_image_kind(ty, flags, extent, array_layers, samples).num_layers() == array_layers,
{
}

/// The level range starts at the base level and spans `levelCount` levels,
/// and the layer range starts at the base layer and spans `layerCount`
/// layers, where gfx-hal's `Level` and `Layer` can count them.
pub proof fn lemma_map_subresource_range_counts(subresource: VkImageSubresourceRange)
    requires
        is_supported_subresource_range(subresource),
        subresource.baseMipLevel + subresource.levelCount <= 0xff,
        subresource.baseArrayLayer + subresource.layerCount <= 0xffff,
    ensures
        ({
            let r = spec_map_subresource_range(subresource);
            &&& r.levels.start == subresource.baseMipLevel
            &&& r.levels.end - r.levels.start == subresource.levelCount
            &&& r.layers.start == subresource.baseArrayLayer
            &&& r.layers.end - r.layers.start == subresource.layerCount
        }),
{
}

// ------------------------------------------- what each conversion keeps

/// A conversion between formats keeps the numeric code: every Vulkan code
/// below gfx-hal's `NUM_FORMATS` other than 0 (`VK_FORMAT_UNDEFINED`) is the
/// gfx-hal format with that code, 0 is none, and every gfx-hal format is the
/// Vulkan format with its code.
pub proof fn lemma_formats_keep_their_code(v: VkFormat, f: hal::format::Format)
    ensures
        0 < v.0 < hal::format::spec_num_formats() ==> spec_map_format(v) == Some(
            hal::format::Format { id: v.0 },
        ),
        v.0 == 0 ==> spec_map_format(v) is None,
        spec_format_from_hal(f).0 == f.id,
{
}

proof fn lemma_image_feature_flag_bits(
    a: bool,
    b: bool,
    c: bool,
    d: bool,
    e: bool,
    f: bool,
    g: bool,
    h: bool,
    i: bool,
    r: u32,
)
    by (bit_vector)
    requires
        r == flag_if(a, 0x1) | flag_if(b, 0x2) | flag_if(c, 0x4) | flag_if(d, 0x80) | flag_if(
            e,
            0x100,
        ) | flag_if(f, 0x200) | flag_if(g, 0x400) | flag_if(h, 0x800) | flag_if(i, 0x1000),
    ensures
        (r & 0x1 != 0) == a,
        (r & 0x2 != 0) == b,
        (r & 0x4 != 0) == c,
        (r & 0x80 != 0) == d,
        (r & 0x100 != 0) == e,
        (r & 0x200 != 0) == f,
        (r & 0x400 != 0) == g,
        (r & 0x800 != 0) == h,
        (r & 0x1000 != 0) == i,
        r & !0x1f87u32 == 0,
{
}

proof fn lemma_buffer_feature_flag_bits(a: bool, b: bool, c: bool, d: bool, r: u32)
    by (bit_vector)
    requires
        r == flag_if(a, 0x8) | flag_if(b, 0x10) | flag_if(c, 0x20) | flag_if(d, 0x40),
    ensures
        (r & 0x8 != 0) == a,
        (r & 0x10 != 0) == b,
        (r & 0x20 != 0) == c,
        (r & 0x40 != 0) == d,
        r & !0x78u32 == 0,
{
}

/// The Vulkan feature bits (`VkFormatFeatureFlagBits`) of a set of gfx-hal
/// image features: each bit is set exactly where its feature is, and no
/// other bit is set.
pub open spec fn image_feature_bits_match(r: u32, f: hal::format::ImageFeature) -> bool {
    &&& (r & 0x1 != 0) == f.sampled  // SAMPLED_IMAGE
    &&& (r & 0x2 != 0) == f.storage  // STORAGE_IMAGE
    &&& (r & 0x4 != 0) == f.storage_atomic  // STORAGE_IMAGE_ATOMIC
    &&& (r & 0x80 != 0) == f.color_attachment  // COLOR_ATTACHMENT
    &&& (r & 0x100 != 0) == f.color_attachment_blend  // COLOR_ATTACHMENT_BLEND
    &&& (r & 0x200 != 0) == f.depth_stencil_attachment  // DEPTH_STENCIL_ATTACHMENT
    &&& (r & 0x400 != 0) == f.blit_src  // BLIT_SRC
    &&& (r & 0x800 != 0) == f.blit_dst  // BLIT_DST
    &&& (r & 0x1000 != 0) == f.sampled_linear  // SAMPLED_IMAGE_FILTER_LINEAR
    &&& r & !0x1f87u32 == 0
}

/// The Vulkan feature bits of a set of gfx-hal buffer features: each bit
/// is set exactly where its feature is, and no other bit is set.
pub open spec fn buffer_feature_bits_match(r: u32, f: hal::format::BufferFeature) -> bool {
    &&& (r & 0x8 != 0) == f.uniform_texel  // UNIFORM_TEXEL_BUFFER
    &&& (r & 0x10 != 0) == f.storage_texel  // STORAGE_TEXEL_BUFFER
    &&& (r & 0x20 != 0) == f.storage_texel_atomic  // STORAGE_TEXEL_BUFFER_ATOMIC
    &&& (r & 0x40 != 0) == f.vertex  // VERTEX_BUFFER
    &&& r & !0x78u32 == 0
}

/// The Vulkan bits of a set of gfx-hal image features match it feature by
/// feature.
pub proof fn lemma_image_features_feature_by_feature(f: hal::format::ImageFeature)
    ensures
        image_feature_bits_match(spec_image_features_from_hal(f), f),
{
    lemma_image_feature_flag_bits(
        f.sampled,
        f.storage,
        f.storage_atomic,
        f.color_attachment,
        f.color_attachment_blend,
        f.depth_stencil_attachment,
        f.blit_src,
        f.blit_dst,
        f.sampled_linear,
        spec_image_features_from_hal(f),
    );
}

/// The Vulkan bits of a set of gfx-hal buffer features match it feature by
/// feature.
pub proof fn lemma_buffer_features_feature_by_feature(f: hal::format::BufferFeature)
    ensures
        buffer_feature_bits_match(spec_buffer_features_from_hal(f), f),
{
    lemma_buffer_feature_flag_bits(
        f.uniform_texel,
        f.storage_texel,
        f.storage_texel_atomic,
        f.vertex,
        spec_buffer_features_from_hal(f),
    );
}

/// Format properties are converted feature by feature: in each of the
/// linear tiling, optimal tiling and buffer fields of the result, each
/// Vulkan feature bit is set exactly where the corresponding gfx-hal set
/// holds its feature, and no other bit is set.
pub proof fn lemma_format_properties_feature_by_feature(properties: hal::format::Properties)
    ensures
        image_feature_bits_match(
            spec_format_properties_from_hal(properties).linearTilingFeatures,
            properties.linear_tiling,
        ),
        image_feature_bits_match(
            spec_format_properties_from_hal(properties).optimalTilingFeatures,
            properties.optimal_tiling,
        ),
        buffer_feature_bits_match(
            spec_format_properties_from_hal(properties).bufferFeatures,
            properties.buffer_features,
        ),
{
    lemma_image_features_feature_by_feature(properties.linear_tiling);
    lemma_image_features_feature_by_feature(properties.optimal_tiling);
    lemma_buffer_features_feature_by_feature(properties.buffer_features);
}

proof fn lemma_memory_property_flag_bits(a: bool, b: bool, c: bool, d: bool, e: bool, r: u32)
    by (bit_vector)
    requires
        r == flag_if(a, 0x1) | flag_if(b, 0x4) | flag_if(c, 0x2) | flag_if(d, 0x8) | flag_if(e, 0x10),
    ensures
        (r & 0x1 != 0) == a,
        (r & 0x4 != 0) == b,
        (r & 0x2 != 0) == c,
        (r & 0x8 != 0) == d,
        (r & 0x10 != 0) == e,
        r & !0x1fu32 == 0,
{
}

/// Memory properties are converted property by property: `DEVICE_LOCAL`
/// (0x1) from `device_local`, `HOST_VISIBLE` (0x2) from `cpu_visible`,
/// `HOST_COHERENT` (0x4) from `coherent`, `HOST_CACHED` (0x8) from
/// `cpu_cached`, `LAZILY_ALLOCATED` (0x10) from `lazily_allocated`, and no
/// other bit.
pub proof fn lemma_memory_properties_property_by_property(p: memory::Properties)
    ensures
        ({
            let r = spec_memory_properties_from_hal(p);
            &&& (r & 0x1 != 0) == p.device_local
            &&& (r & 0x2 != 0) == p.cpu_visible
            &&& (r & 0x4 != 0) == p.coherent
            &&& (r & 0x8 != 0) == p.cpu_cached
            &&& (r & 0x10 != 0) == p.lazily_allocated
            &&& r & !0x1fu32 == 0
        }),
{
    lemma_memory_property_flag_bits(
        p.device_local,
        p.coherent,
        p.cpu_visible,
        p.cpu_cached,
        p.lazily_allocated,
        spec_memory_properties_from_hal(p),
    );
}

/// Aspects are converted bit by bit: color exactly where the mask has
/// `VK_IMAGE_ASPECT_COLOR_BIT` (0x1), depth exactly where it has
/// `VK_IMAGE_ASPECT_DEPTH_BIT` (0x2) or `VK_IMAGE_ASPECT_STENCIL_BIT` (0x4),
/// and never stencil; a subresource range carries the aspects of its mask.
pub proof fn lemma_aspects_bit_by_bit(mask: VkImageAspectFlags, subresource: VkImageSubresourceRange)
    ensures
        spec_map_aspect(mask).color == (mask & 0x1 != 0),
        spec_map_aspect(mask).depth == (mask & 0x2 != 0 || mask & 0x4 != 0),
        !spec_map_aspect(mask).stencil,
        spec_map_subresource_range(subresource).aspects.color == (subresource.aspectMask & 0x1 != 0),
        spec_map_subresource_range(subresource).aspects.depth == (subresource.aspectMask & 0x2 != 0
            || subresource.aspectMask & 0x4 != 0),
        !spec_map_subresource_range(subresource).aspects.stencil,
{
}

/// The level range runs from `baseMipLevel` to `baseMipLevel + levelCount`
/// and the layer range from `baseArrayLayer` to `baseArrayLayer +
/// layerCount`, each bound taken modulo 2^8 (levels) or 2^16 (layers).
pub proof fn lemma_subresource_range_bounds(subresource: VkImageSubresourceRange)
    requires
        is_supported_subresource_range(subresource),
    ensures
        ({
            let r = spec_map_subresource_range(subresource);
            &&& r.levels.start == subresource.baseMipLevel % 0x100
            &&& r.levels.end == (subresource.baseMipLevel + subresource.levelCount) % 0x100
            &&& r.layers.start == subresource.baseArrayLayer % 0x1_0000
            &&& r.layers.end == (subresource.baseArrayLayer + subresource.layerCount) % 0x1_0000
        }),
{
    let b = subresource.baseMipLevel;
    let c = subresource.levelCount;
    let l = subresource.baseArrayLayer;
    let k = subresource.layerCount;
    let e: u32 = (b + c) as u32;
    let f: u32 = (l + k) as u32;
    assert(b as u8 == b % 0x100 && e as u8 == e % 0x100 && l as u16 == l % 0x1_0000 && f as u16
        == f % 0x1_0000) by (bit_vector);
}

/// Image usage is converted flag by flag, each gfx-hal flag from its own
/// Vulkan bit: transfer source 0x1, transfer destination 0x2, sampled 0x4,
/// storage 0x8, color attachment 0x10, depth-stencil attachment 0x20; the
/// transient and input attachment flags are never set.
pub proof fn lemma_image_usage_flag_by_flag(usage: VkImageUsageFlags)
    ensures
        ({
            let r = spec_map_image_usage(usage);
            &&& r.transfer_src == (usage & 0x1 != 0)
            &&& r.transfer_dst == (usage & 0x2 != 0)
            &&& r.sampled == (usage & 0x4 != 0)
            &&& r.storage == (usage & 0x8 != 0)
            &&& r.color_attachment == (usage & 0x10 != 0)
            &&& r.depth_stencil_attachment == (usage & 0x20 != 0)
            &&& !r.transient_attachment
            &&& !r.input_attachment
        }),
{
}

/// Buffer usage is converted flag by flag, each gfx-hal flag from its own
/// Vulkan bit: transfer source 0x1, transfer destination 0x2, uniform texel
/// 0x4, storage texel 0x8, uniform 0x10, storage 0x20, index 0x40, vertex
/// 0x80, indirect 0x100.
pub proof fn lemma_buffer_usage_flag_by_flag(usage: VkBufferUsageFlags)
    ensures
        ({
            let r = spec_map_buffer_usage(usage);
            &&& r.transfer_src == (usage & 0x1 != 0)
            &&& r.transfer_dst == (usage & 0x2 != 0)
            &&& r.uniform_texel == (usage & 0x4 != 0)
            &&& r.storage_texel == (usage & 0x8 != 0)
            &&& r.uniform == (usage & 0x10 != 0)
            &&& r.storage == (usage & 0x20 != 0)
            &&& r.index == (usage & 0x40 != 0)
            &&& r.vertex == (usage & 0x80 != 0)
            &&& r.indirect == (usage & 0x100 != 0)
        }),
{
}

/// Image access is converted flag by flag, each gfx-hal flag from its own
/// Vulkan `VkAccessFlagBits` bit (input attachment read 0x10 up to memory
/// write 0x10000).
pub proof fn lemma_image_access_flag_by_flag(access: VkAccessFlags)
    ensures
        ({
            let r = spec_map_image_acces(access);
            &&& r.input_attachment_read == (access & 0x10 != 0)
            &&& r.shader_read == (access & 0x20 != 0)
            &&& r.shader_write == (access & 0x40 != 0)
            &&& r.color_attachment_read == (access & 0x80 != 0)
            &&& r.color_attachment_write == (access & 0x100 != 0)
            &&& r.depth_stencil_attachment_read == (access & 0x200 != 0)
            &&& r.depth_stencil_attachment_write == (access & 0x400 != 0)
            &&& r.transfer_read == (access & 0x800 != 0)
            &&& r.transfer_write == (access & 0x1000 != 0)
            &&& r.host_read == (access & 0x2000 != 0)
            &&& r.host_write == (access & 0x4000 != 0)
            &&& r.memory_read == (access & 0x8000 != 0)
            &&& r.memory_write == (access & 0x10000 != 0)
        }),
{
}

proof fn lemma_stage_mask_bits(s: u32)
    by (bit_vector)
    ensures
        (s & 0x1 != 0 || s & 0x1f != 0 || s & 0x7fff_ffff != 0) == (s & 0x7fff_ffff != 0),
        (s & 0x2 != 0 || s & 0x1f != 0 || s & 0x7fff_ffff != 0) == (s & 0x7fff_ffff != 0),
        (s & 0x4 != 0 || s & 0x1f != 0 || s & 0x7fff_ffff != 0) == (s & 0x7fff_ffff != 0),
        (s & 0x8 != 0 || s & 0x1f != 0 || s & 0x7fff_ffff != 0) == (s & 0x7fff_ffff != 0),
        (s & 0x10 != 0 || s & 0x1f != 0 || s & 0x7fff_ffff != 0) == (s & 0x7fff_ffff != 0),
        (s & 0x20 != 0 || s & 0x7fff_ffff != 0) == (s & 0x7fff_ffff != 0),
{
}

/// Every shader stage is set exactly where the Vulkan mask has one of bits
/// 0 to 30 (`VK_SHADER_STAGE_ALL`, 0x7fffffff, which shares a bit with
/// every stage).
pub proof fn lemma_stage_flags_from_mask(stages: VkShaderStageFlags)
    ensures
        ({
            let r = spec_map_stage_flags(stages);
            let any = stages & 0x7fff_ffff != 0;
            &&& r.vertex == any
            &&& r.hull == any
            &&& r.domain == any
            &&& r.geometry == any
            &&& r.fragment == any
            &&& r.compute == any
        }),
{
    lemma_stage_mask_bits(stages);
}

// ------------------------------------------------------ enum correspondences

/// Each supported Vulkan image layout becomes the gfx-hal layout of the
/// same name (`PRESENT_SRC_KHR` becomes `Present`).
pub proof fn lemma_image_layout_by_name(layout: VkImageLayout)
    ensures
        layout is VK_IMAGE_LAYOUT_UNDEFINED ==> spec_map_image_layout(layout) is Undefined,
        layout is VK_IMAGE_LAYOUT_GENERAL ==> spec_map_image_layout(layout) is General,
        layout is VK_IMAGE_LAYOUT_COLOR_ATTACHMENT_OPTIMAL ==> spec_map_image_layout(
            layout,
        ) is ColorAttachmentOptimal,
        layout is VK_IMAGE_LAYOUT_DEPTH_STENCIL_ATTACHMENT_OPTIMAL ==> spec_map_image_layout(
            layout,
        ) is DepthStencilAttachmentOptimal,
        layout is VK_IMAGE_LAYOUT_DEPTH_STENCIL_READ_ONLY_OPTIMAL ==> spec_map_image_layout(
            layout,
        ) is DepthStencilReadOnlyOptimal,
        layout is VK_IMAGE_LAYOUT_SHADER_READ_ONLY_OPTIMAL ==> spec_map_image_layout(
            layout,
        ) is ShaderReadOnlyOptimal,
        layout is VK_IMAGE_LAYOUT_TRANSFER_SRC_OPTIMAL ==> spec_map_image_layout(
            layout,
        ) is TransferSrcOptimal,
        layout is VK_IMAGE_LAYOUT_TRANSFER_DST_OPTIMAL ==> spec_map_image_layout(
            layout,
        ) is TransferDstOptimal,
        layout is VK_IMAGE_LAYOUT_PREINITIALIZED ==> spec_map_image_layout(layout) is Preinitialized,
        layout is VK_IMAGE_LAYOUT_PRESENT_SRC_KHR ==> spec_map_image_layout(layout) is Present,
{
}

/// Each supported Vulkan descriptor type becomes the gfx-hal type of the
/// same name.
pub proof fn lemma_descriptor_type_by_name(ty: VkDescriptorType)
    ensures
        ty is VK_DESCRIPTOR_TYPE_SAMPLER ==> spec_map_descriptor_type(ty) is Sampler,
        ty is VK_DESCRIPTOR_TYPE_SAMPLED_IMAGE ==> spec_map_descriptor_type(ty) is SampledImage,
        ty is VK_DESCRIPTOR_TYPE_STORAGE_IMAGE ==> spec_map_descriptor_type(ty) is StorageImage,
        ty is VK_DESCRIPTOR_TYPE_UNIFORM_TEXEL_BUFFER ==> spec_map_descriptor_type(
            ty,
        ) is UniformTexelBuffer,
        ty is VK_DESCRIPTOR_TYPE_STORAGE_TEXEL_BUFFER ==> spec_map_descriptor_type(
            ty,
        ) is StorageTexelBuffer,
        ty is VK_DESCRIPTOR_TYPE_UNIFORM_BUFFER ==> spec_map_descriptor_type(ty) is UniformBuffer,
        ty is VK_DESCRIPTOR_TYPE_STORAGE_BUFFER ==> spec_map_descriptor_type(ty) is StorageBuffer,
        ty is VK_DESCRIPTOR_TYPE_INPUT_ATTACHMENT ==> spec_map_descriptor_type(ty) is InputAttachment,
{
}

/// Each gfx-hal device creation error becomes the Vulkan error code that
/// names the same failure.
pub proof fn lemma_device_creation_error_by_name(err: adapter::DeviceCreationError)
    ensures
        err is OutOfHostMemory ==> spec_map_err_device_creation(err) is VK_ERROR_OUT_OF_HOST_MEMORY,
        err is OutOfDeviceMemory ==> spec_map_err_device_creation(
            err,
        ) is VK_ERROR_OUT_OF_DEVICE_MEMORY,
        err is InitializationFailed ==> spec_map_err_device_creation(
            err,
        ) is VK_ERROR_INITIALIZATION_FAILED,
        err is MissingExtension ==> spec_map_err_device_creation(
            err,
        ) is VK_ERROR_EXTENSION_NOT_PRESENT,
        err is MissingFeature ==> spec_map_err_device_creation(err) is VK_ERROR_FEATURE_NOT_PRESENT,
        err is TooManyObjects ==> spec_map_err_device_creation(err) is VK_ERROR_TOO_MANY_OBJECTS,
        err is DeviceLost ==> spec_map_err_device_creation(err) is VK_ERROR_DEVICE_LOST,
{
}

/// Each supported attachment load and store operation becomes the gfx-hal
/// operation of the same name.
pub proof fn lemma_attachment_ops_by_name(load: VkAttachmentLoadOp, store: VkAttachmentStoreOp)
    ensures
        load is VK_ATTACHMENT_LOAD_OP_LOAD ==> spec_map_attachment_load_op(load) is Load,
        load is VK_ATTACHMENT_LOAD_OP_CLEAR ==> spec_map_attachment_load_op(load) is Clear,
        load is VK_ATTACHMENT_LOAD_OP_DONT_CARE ==> spec_map_attachment_load_op(load) is DontCare,
        store is VK_ATTACHMENT_STORE_OP_STORE ==> spec_map_attachment_store_op(store) is Store,
        store is VK_ATTACHMENT_STORE_OP_DONT_CARE ==> spec_map_attachment_store_op(store) is DontCare,
{
}

/// The component that a swizzle reads for one channel: the channel itself
/// for the identity swizzle, the named source otherwise.
pub open spec fn swizzle_source(
    component: VkComponentSwizzle,
    channel: hal::format::Component,
) -> hal::format::Component {
    if component is VK_COMPONENT_SWIZZLE_IDENTITY {
        channel
    } else if component is VK_COMPONENT_SWIZZLE_ZERO {
        hal::format::Component::Zero
    } else if component is VK_COMPONENT_SWIZZLE_ONE {
        hal::format::Component::One
    } else if component is VK_COMPONENT_SWIZZLE_R {
        hal::format::Component::R
    } else if component is VK_COMPONENT_SWIZZLE_G {
        hal::format::Component::G
    } else if component is VK_COMPONENT_SWIZZLE_B {
        hal::format::Component::B
    } else {
        hal::format::Component::A
    }
}

/// A swizzle is converted channel by channel: red, green, blue and alpha
/// each read the source that their Vulkan swizzle names, and the identity
/// swizzle reads the channel itself.
pub proof fn lemma_swizzle_channel_by_channel(components: VkComponentMapping)
    requires
        is_supported_swizzle(components.r),
        is_supported_swizzle(components.g),
        is_supported_swizzle(components.b),
        is_supported_swizzle(components.a),
    ensures
        spec_map_swizzle(components).0 == swizzle_source(components.r, hal::format::Component::R),
        spec_map_swizzle(components).1 == swizzle_source(components.g, hal::format::Component::G),
        spec_map_swizzle(components).2 == swizzle_source(components.b, hal::format::Component::B),
        spec_map_swizzle(components).3 == swizzle_source(components.a, hal::format::Component::A),
{
}

/// A single sample gives a single-sampled image; any other count gives a
/// multi-sampled one with that many samples (the flag's value, modulo 2^8).
pub proof fn lemma_aa_mode_from_samples(samples: VkSampleCountFlagBits)
    ensures
        samples is VK_SAMPLE_COUNT_1_BIT ==> spec_map_aa_mode(samples) == image::AaMode::Single,
        samples is VK_SAMPLE_COUNT_2_BIT ==> spec_map_aa_mode(samples) == image::AaMode::Multi(2),
        samples is VK_SAMPLE_COUNT_4_BIT ==> spec_map_aa_mode(samples) == image::AaMode::Multi(4),
        samples is VK_SAMPLE_COUNT_8_BIT ==> spec_map_aa_mode(samples) == image::AaMode::Multi(8),
        samples is VK_SAMPLE_COUNT_16_BIT ==> spec_map_aa_mode(samples) == image::AaMode::Multi(16),
        samples is VK_SAMPLE_COUNT_32_BIT ==> spec_map_aa_mode(samples) == image::AaMode::Multi(32),
        samples is VK_SAMPLE_COUNT_64_BIT ==> spec_map_aa_mode(samples) == image::AaMode::Multi(64),
        samples is VK_SAMPLE_COUNT_FLAG_BITS_MAX_ENUM ==> spec_map_aa_mode(samples)
            == image::AaMode::Multi(0xff),
{
    assert(0x7fff_ffffu32 as u8 == 0xff) by (bit_vector);
}

/// The image kind follows the image's type, cube flag (0x10) and layer
/// count, and carries the extent it was given: a 1D image is a row of its
/// width; a 2D image with one layer is a plain image of its width, height
/// and samples; a cube compatible 2D image is a cube for 6 layers and an
/// array of `layers / 6` cubes for more; any other 2D image is an array
/// of its layers; a 3D image is a volume of its extent.
pub proof fn lemma_image_kind_by_description(
    ty: VkImageType,
    flags: VkImageCreateFlags,
    extent: VkExtent3D,
    array_layers: u32,
    samples: VkSampleCountFlagBits,
)
    requires
        is_supported_image_kind(ty, flags, array_layers),
    ensures
        ({
            let r = spec_map_image_kind(ty, flags, extent, array_layers, samples);
            let cube = flags & 0x10 != 0;
            &&& ty is VK_IMAGE_TYPE_1D ==> r == image::Kind::D1(extent.width)
            &&& ty is VK_IMAGE_TYPE_2D && array_layers == 1 ==> r == image::Kind::D2(
                extent.width,
                extent.height,
                spec_map_aa_mode(samples),
            )
            &&& ty is VK_IMAGE_TYPE_2D && cube && array_layers == 6 ==> r == image::Kind::Cube(
                extent.width,
            )
            &&& ty is VK_IMAGE_TYPE_2D && cube && array_layers > 6 ==> r == image::Kind::CubeArray(
                extent.width,
                ((array_layers / 6) % 0x1_0000) as u16,
            )
            &&& ty is VK_IMAGE_TYPE_2D && !cube && array_layers > 1 ==> r == image::Kind::D2Array(
                extent.width,
                extent.height,
                (array_layers % 0x1_0000) as u16,
                spec_map_aa_mode(samples),
            )
            &&& ty is VK_IMAGE_TYPE_3D ==> r == image::Kind::D3(
                extent.width,
                extent.height,
                extent.depth,
            )
        }),
{
    let q: u32 = array_layers / 6;
    assert(q as u16 == q % 0x1_0000 && array_layers as u16 == array_layers % 0x1_0000)
        by (bit_vector);
}

} // verus!
