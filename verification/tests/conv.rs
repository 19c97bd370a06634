use portability_gfx::conv::{
    extent2d_from_hal, format_from_hal, format_properties_from_hal, map_attachment_load_op,
    map_attachment_store_op, map_buffer_usage, map_descriptor_type, map_err_device_creation,
    map_format, map_image_acces, map_image_kind, map_image_layout, map_image_usage,
    map_pipeline_stage_flags, map_stage_flags, map_subresource_range, map_swizzle,
    memory_properties_from_hal,
};
use portability_gfx::hal::adapter::DeviceCreationError;
use portability_gfx::hal::format::{
    AspectFlags, BufferFeature, Component, Format, ImageFeature, Properties, Swizzle,
};
use portability_gfx::hal::image::{AaMode, ImageLayout, Kind};
use portability_gfx::hal::pass::{AttachmentLoadOp, AttachmentStoreOp};
use portability_gfx::hal::pso::{DescriptorType, ShaderStageFlags};
use portability_gfx::hal::{buffer, image, memory, window};
use portability_gfx::vk::{
    VkAttachmentLoadOp, VkAttachmentStoreOp, VkComponentMapping, VkComponentSwizzle,
    VkDescriptorType, VkExtent2D, VkExtent3D, VkFormat, VkFormatProperties,
    VkImageLayout, VkImageSubresourceRange, VkImageType, VkResult, VkSampleCountFlagBits,
};

fn extent(width: u32, height: u32, depth: u32) -> VkExtent3D {
    VkExtent3D { width, height, depth }
}

// ---------------------------------------------------------------- formats

#[test]
fn format_from_hal_keeps_the_code() {
    assert_eq!(format_from_hal(Format { id: 37 }), VkFormat(37));
    assert_eq!(format_from_hal(Format { id: 1 }), VkFormat(1));
    assert_eq!(format_from_hal(Format { id: 184 }), VkFormat(184));
}

#[test]
fn map_format_undefined_is_none() {
    assert_eq!(map_format(VkFormat(0)), None);
}

#[test]
fn map_format_keeps_the_code() {
    assert_eq!(map_format(VkFormat(1)), Some(Format { id: 1 }));
    assert_eq!(map_format(VkFormat(37)), Some(Format { id: 37 }));
}

#[test]
fn map_format_takes_the_last_hal_format() {
    // 184 (ASTC 12x12 sRGB) is the largest code below gfx-hal's NUM_FORMATS
    assert_eq!(map_format(VkFormat(184)), Some(Format { id: 184 }));
}

#[test]
fn format_round_trips() {
    for id in 1..185u32 {
        let f = Format { id };
        assert_eq!(map_format(format_from_hal(f)), Some(f));
        assert_eq!(format_from_hal(map_format(VkFormat(id)).unwrap()), VkFormat(id));
    }
}

#[test]
fn format_properties_convert_each_feature() {
    let properties = Properties {
        linear_tiling: ImageFeature { sampled: true, blit_src: true, ..Default::default() },
        optimal_tiling: ImageFeature {
            sampled: true,
            storage: true,
            storage_atomic: true,
            color_attachment: true,
            color_attachment_blend: true,
            depth_stencil_attachment: true,
            blit_src: true,
            blit_dst: true,
            sampled_linear: true,
        },
        buffer_features: BufferFeature { uniform_texel: true, vertex: true, ..Default::default() },
    };
    assert_eq!(
        format_properties_from_hal(properties),
        VkFormatProperties {
            linearTilingFeatures: 0x401,
            optimalTilingFeatures: 0x1f87,
            bufferFeatures: 0x48,
        }
    );
}

#[test]
fn format_properties_empty() {
    assert_eq!(
        format_properties_from_hal(Properties::default()),
        VkFormatProperties { linearTilingFeatures: 0, optimalTilingFeatures: 0, bufferFeatures: 0 }
    );
}

#[test]
fn format_properties_buffer_features() {
    let properties = Properties {
        buffer_features: BufferFeature {
            storage_texel: true,
            storage_texel_atomic: true,
            ..Default::default()
        },
        ..Default::default()
    };
    assert_eq!(format_properties_from_hal(properties).bufferFeatures, 0x30);
}

// ------------------------------------------------------------------ memory

#[test]
fn memory_properties_convert_each_property() {
    let p = memory::Properties { device_local: true, ..Default::default() };
    assert_eq!(memory_properties_from_hal(p), 0x1);
    let p = memory::Properties { coherent: true, ..Default::default() };
    assert_eq!(memory_properties_from_hal(p), 0x4);
    let p = memory::Properties { cpu_visible: true, ..Default::default() };
    assert_eq!(memory_properties_from_hal(p), 0x2);
    let p = memory::Properties { cpu_cached: true, ..Default::default() };
    assert_eq!(memory_properties_from_hal(p), 0x8);
    let p = memory::Properties { lazily_allocated: true, ..Default::default() };
    assert_eq!(memory_properties_from_hal(p), 0x10);
    assert_eq!(memory_properties_from_hal(memory::Properties::default()), 0);
}

#[test]
fn memory_properties_of_a_union_are_the_union() {
    let a = memory::Properties { device_local: true, cpu_cached: true, ..Default::default() };
    let b = memory::Properties { cpu_visible: true, coherent: true, ..Default::default() };
    let both = memory::Properties {
        device_local: true,
        cpu_visible: true,
        coherent: true,
        cpu_cached: true,
        lazily_allocated: false,
    };
    assert_eq!(memory_properties_from_hal(both), memory_properties_from_hal(a) | memory_properties_from_hal(b));
    assert_eq!(memory_properties_from_hal(both), 0xf);
}

// ------------------------------------------------------------------ images

#[test]
fn extent2d_copies_both_sides() {
    let e = extent2d_from_hal(window::Extent2D { width: 640, height: 480 });
    assert_eq!(e, VkExtent2D { width: 640, height: 480 });
}

#[test]
fn swizzle_identity_is_no_swizzle() {
    let identity = VkComponentSwizzle::VK_COMPONENT_SWIZZLE_IDENTITY;
    let mapping = VkComponentMapping { r: identity, g: identity, b: identity, a: identity };
    assert_eq!(map_swizzle(mapping), Swizzle(Component::R, Component::G, Component::B, Component::A));
}

#[test]
fn swizzle_maps_each_component() {
    let mapping = VkComponentMapping {
        r: VkComponentSwizzle::VK_COMPONENT_SWIZZLE_B,
        g: VkComponentSwizzle::VK_COMPONENT_SWIZZLE_ZERO,
        b: VkComponentSwizzle::VK_COMPONENT_SWIZZLE_R,
        a: VkComponentSwizzle::VK_COMPONENT_SWIZZLE_ONE,
    };
    assert_eq!(map_swizzle(mapping), Swizzle(Component::B, Component::Zero, Component::R, Component::One));
    let mapping = VkComponentMapping {
        r: VkComponentSwizzle::VK_COMPONENT_SWIZZLE_A,
        g: VkComponentSwizzle::VK_COMPONENT_SWIZZLE_G,
        b: VkComponentSwizzle::VK_COMPONENT_SWIZZLE_IDENTITY,
        a: VkComponentSwizzle::VK_COMPONENT_SWIZZLE_IDENTITY,
    };
    assert_eq!(map_swizzle(mapping), Swizzle(Component::A, Component::G, Component::B, Component::A));
}

#[test]
fn subresource_range_spans_the_counts() {
    let r = map_subresource_range(VkImageSubresourceRange {
        aspectMask: 0x1,
        baseMipLevel: 2,
        levelCount: 3,
        baseArrayLayer: 1,
        layerCount: 6,
    });
    assert_eq!(r.aspects, AspectFlags { color: true, depth: false, stencil: false });
    assert_eq!(r.levels, 2..5);
    assert_eq!(r.layers, 1..7);
}

#[test]
fn subresource_range_stencil_gives_depth() {
    let r = map_subresource_range(VkImageSubresourceRange {
        aspectMask: 0x4,
        baseMipLevel: 0,
        levelCount: 1,
        baseArrayLayer: 0,
        layerCount: 1,
    });
    assert_eq!(r.aspects, AspectFlags { color: false, depth: true, stencil: false });
    let r = map_subresource_range(VkImageSubresourceRange {
        aspectMask: 0x7,
        baseMipLevel: 0,
        levelCount: 1,
        baseArrayLayer: 0,
        layerCount: 1,
    });
    assert_eq!(r.aspects, AspectFlags { color: true, depth: true, stencil: false });
}

#[test]
fn subresource_range_truncates_to_hal_widths() {
    let r = map_subresource_range(VkImageSubresourceRange {
        aspectMask: 0,
        baseMipLevel: 300,
        levelCount: 1,
        baseArrayLayer: 0x1_0002,
        layerCount: 2,
    });
    assert_eq!(r.aspects, AspectFlags::default());
    assert_eq!(r.levels, 44..45);
    assert_eq!(r.layers, 2..4);
}

#[test]
fn image_kind_1d_ignores_layers() {
    let one = VkSampleCountFlagBits::VK_SAMPLE_COUNT_1_BIT;
    assert_eq!(map_image_kind(VkImageType::VK_IMAGE_TYPE_1D, 0, extent(256, 1, 1), 1, one), Kind::D1(256));
    assert_eq!(map_image_kind(VkImageType::VK_IMAGE_TYPE_1D, 0, extent(256, 1, 1), 4, one), Kind::D1(256));
}

#[test]
fn image_kind_2d() {
    let one = VkSampleCountFlagBits::VK_SAMPLE_COUNT_1_BIT;
    let four = VkSampleCountFlagBits::VK_SAMPLE_COUNT_4_BIT;
    let ty = VkImageType::VK_IMAGE_TYPE_2D;
    assert_eq!(map_image_kind(ty, 0, extent(64, 32, 1), 1, one), Kind::D2(64, 32, AaMode::Single));
    assert_eq!(map_image_kind(ty, 0, extent(64, 32, 1), 1, four), Kind::D2(64, 32, AaMode::Multi(4)));
    assert_eq!(map_image_kind(ty, 0, extent(64, 32, 1), 3, one), Kind::D2Array(64, 32, 3, AaMode::Single));
    assert_eq!(map_image_kind(ty, 0, extent(64, 32, 1), 6, four), Kind::D2Array(64, 32, 6, AaMode::Multi(4)));
}

#[test]
fn image_kind_cube() {
    let one = VkSampleCountFlagBits::VK_SAMPLE_COUNT_1_BIT;
    let ty = VkImageType::VK_IMAGE_TYPE_2D;
    assert_eq!(map_image_kind(ty, 0x10, extent(16, 16, 1), 6, one), Kind::Cube(16));
    assert_eq!(map_image_kind(ty, 0x10, extent(16, 16, 1), 12, one), Kind::CubeArray(16, 2));
    assert_eq!(map_image_kind(ty, 0x10 | 0x8, extent(16, 16, 1), 18, one), Kind::CubeArray(16, 3));
}

#[test]
fn image_kind_3d() {
    let one = VkSampleCountFlagBits::VK_SAMPLE_COUNT_1_BIT;
    assert_eq!(
        map_image_kind(VkImageType::VK_IMAGE_TYPE_3D, 0, extent(8, 4, 2), 1, one),
        Kind::D3(8, 4, 2)
    );
}

#[test]
fn image_kind_sample_counts() {
    let ty = VkImageType::VK_IMAGE_TYPE_2D;
    let cases = [
        (VkSampleCountFlagBits::VK_SAMPLE_COUNT_2_BIT, 2u8),
        (VkSampleCountFlagBits::VK_SAMPLE_COUNT_8_BIT, 8),
        (VkSampleCountFlagBits::VK_SAMPLE_COUNT_16_BIT, 16),
        (VkSampleCountFlagBits::VK_SAMPLE_COUNT_32_BIT, 32),
        (VkSampleCountFlagBits::VK_SAMPLE_COUNT_64_BIT, 64),
        (VkSampleCountFlagBits::VK_SAMPLE_COUNT_FLAG_BITS_MAX_ENUM, 0xff),
    ];
    for (samples, n) in cases.iter() {
        assert_eq!(map_image_kind(ty, 0, extent(4, 4, 1), 1, *samples), Kind::D2(4, 4, AaMode::Multi(*n)));
    }
}

#[test]
fn image_kind_layer_count_is_kept() {
    let one = VkSampleCountFlagBits::VK_SAMPLE_COUNT_1_BIT;
    let ty = VkImageType::VK_IMAGE_TYPE_2D;
    match map_image_kind(ty, 0x10, extent(16, 16, 1), 24, one) {
        Kind::CubeArray(_, n) => assert_eq!(6 * n as u32, 24),
        other => panic!("unexpected kind {:?}", other),
    }
    match map_image_kind(ty, 0, extent(16, 16, 1), 7, one) {
        Kind::D2Array(_, _, n, _) => assert_eq!(n as u32, 7),
        other => panic!("unexpected kind {:?}", other),
    }
}

#[test]
fn image_layouts() {
    let cases = [
        (VkImageLayout::VK_IMAGE_LAYOUT_UNDEFINED, ImageLayout::Undefined),
        (VkImageLayout::VK_IMAGE_LAYOUT_GENERAL, ImageLayout::General),
        (VkImageLayout::VK_IMAGE_LAYOUT_COLOR_ATTACHMENT_OPTIMAL, ImageLayout::ColorAttachmentOptimal),
        (VkImageLayout::VK_IMAGE_LAYOUT_DEPTH_STENCIL_ATTACHMENT_OPTIMAL, ImageLayout::DepthStencilAttachmentOptimal),
        (VkImageLayout::VK_IMAGE_LAYOUT_DEPTH_STENCIL_READ_ONLY_OPTIMAL, ImageLayout::DepthStencilReadOnlyOptimal),
        (VkImageLayout::VK_IMAGE_LAYOUT_SHADER_READ_ONLY_OPTIMAL, ImageLayout::ShaderReadOnlyOptimal),
        (VkImageLayout::VK_IMAGE_LAYOUT_TRANSFER_SRC_OPTIMAL, ImageLayout::TransferSrcOptimal),
        (VkImageLayout::VK_IMAGE_LAYOUT_TRANSFER_DST_OPTIMAL, ImageLayout::TransferDstOptimal),
        (VkImageLayout::VK_IMAGE_LAYOUT_PREINITIALIZED, ImageLayout::Preinitialized),
        (VkImageLayout::VK_IMAGE_LAYOUT_PRESENT_SRC_KHR, ImageLayout::Present),
    ];
    for (i, (vk, hal)) in cases.iter().enumerate() {
        assert_eq!(map_image_layout(*vk), *hal);
        for (j, (vk2, _)) in cases.iter().enumerate() {
            assert_eq!(map_image_layout(*vk) == map_image_layout(*vk2), i == j);
        }
    }
}

#[test]
fn image_usage_flags() {
    assert_eq!(map_image_usage(0), image::Usage::default());
    assert_eq!(
        map_image_usage(0x1 | 0x4 | 0x20),
        image::Usage { transfer_src: true, sampled: true, depth_stencil_attachment: true, ..Default::default() }
    );
    assert_eq!(
        map_image_usage(0x3f),
        image::Usage {
            transfer_src: true,
            transfer_dst: true,
            sampled: true,
            storage: true,
            color_attachment: true,
            depth_stencil_attachment: true,
            transient_attachment: false,
            input_attachment: false,
        }
    );
    // bits that are not image usage flags are ignored
    assert_eq!(map_image_usage(0x100 | 0x2), image::Usage { transfer_dst: true, ..Default::default() });
}

#[test]
fn image_usage_of_a_union_is_the_union() {
    let a = map_image_usage(0x1 | 0x10);
    let b = map_image_usage(0x8);
    let both = map_image_usage(0x1 | 0x10 | 0x8);
    assert_eq!(both.transfer_src, a.transfer_src || b.transfer_src);
    assert_eq!(both.storage, a.storage || b.storage);
    assert_eq!(both.color_attachment, a.color_attachment || b.color_attachment);
    assert_eq!(both.sampled, a.sampled || b.sampled);
}

#[test]
fn buffer_usage_flags() {
    assert_eq!(map_buffer_usage(0), buffer::Usage::default());
    assert_eq!(
        map_buffer_usage(0x1ff),
        buffer::Usage {
            transfer_src: true,
            transfer_dst: true,
            uniform_texel: true,
            storage_texel: true,
            uniform: true,
            storage: true,
            index: true,
            vertex: true,
            indirect: true,
        }
    );
    assert_eq!(
        map_buffer_usage(0x40 | 0x80 | 0x200),
        buffer::Usage { index: true, vertex: true, ..Default::default() }
    );
}

#[test]
fn stage_flags_are_all_or_none() {
    let all = ShaderStageFlags {
        vertex: true,
        hull: true,
        domain: true,
        geometry: true,
        fragment: true,
        compute: true,
    };
    assert_eq!(map_stage_flags(0), ShaderStageFlags::default());
    assert_eq!(map_stage_flags(0x1), all);
    assert_eq!(map_stage_flags(0x20), all);
    assert_eq!(map_stage_flags(0x1f), all);
    assert_eq!(map_stage_flags(0x7fff_ffff), all);
    // bit 31 is outside VK_SHADER_STAGE_ALL
    assert_eq!(map_stage_flags(0x8000_0000), ShaderStageFlags::default());
}

#[test]
fn pipeline_stage_flags_keep_their_bits() {
    assert_eq!(map_pipeline_stage_flags(0).bits, 0);
    assert_eq!(map_pipeline_stage_flags(0x4000).bits, 0x4000);
    assert_eq!(map_pipeline_stage_flags(0x2 | 0x8 | 0x400).bits, 0x40a);
}

#[test]
fn image_access_flags() {
    assert_eq!(map_image_acces(0), image::Access::default());
    // indirect command, index, vertex attribute and uniform reads are dropped
    assert_eq!(map_image_acces(0xf), image::Access::default());
    assert_eq!(
        map_image_acces(0x20 | 0x1000 | 0x10000),
        image::Access { shader_read: true, transfer_write: true, memory_write: true, ..Default::default() }
    );
    assert_eq!(
        map_image_acces(0x1fff0),
        image::Access {
            input_attachment_read: true,
            shader_read: true,
            shader_write: true,
            color_attachment_read: true,
            color_attachment_write: true,
            depth_stencil_attachment_read: true,
            depth_stencil_attachment_write: true,
            transfer_read: true,
            transfer_write: true,
            host_read: true,
            host_write: true,
            memory_read: true,
            memory_write: true,
        }
    );
}

// ------------------------------------------------- descriptors and passes

#[test]
fn descriptor_types() {
    let cases = [
        (VkDescriptorType::VK_DESCRIPTOR_TYPE_SAMPLER, DescriptorType::Sampler),
        (VkDescriptorType::VK_DESCRIPTOR_TYPE_SAMPLED_IMAGE, DescriptorType::SampledImage),
        (VkDescriptorType::VK_DESCRIPTOR_TYPE_STORAGE_IMAGE, DescriptorType::StorageImage),
        (VkDescriptorType::VK_DESCRIPTOR_TYPE_UNIFORM_TEXEL_BUFFER, DescriptorType::UniformTexelBuffer),
        (VkDescriptorType::VK_DESCRIPTOR_TYPE_STORAGE_TEXEL_BUFFER, DescriptorType::StorageTexelBuffer),
        (VkDescriptorType::VK_DESCRIPTOR_TYPE_UNIFORM_BUFFER, DescriptorType::UniformBuffer),
        (VkDescriptorType::VK_DESCRIPTOR_TYPE_STORAGE_BUFFER, DescriptorType::StorageBuffer),
        (VkDescriptorType::VK_DESCRIPTOR_TYPE_INPUT_ATTACHMENT, DescriptorType::InputAttachment),
    ];
    for (vk, hal) in cases.iter() {
        assert_eq!(map_descriptor_type(*vk), *hal);
    }
}

#[test]
fn device_creation_errors() {
    let cases = [
        (DeviceCreationError::OutOfHostMemory, VkResult::VK_ERROR_OUT_OF_HOST_MEMORY),
        (DeviceCreationError::OutOfDeviceMemory, VkResult::VK_ERROR_OUT_OF_DEVICE_MEMORY),
        (DeviceCreationError::InitializationFailed, VkResult::VK_ERROR_INITIALIZATION_FAILED),
        (DeviceCreationError::MissingExtension, VkResult::VK_ERROR_EXTENSION_NOT_PRESENT),
        (DeviceCreationError::MissingFeature, VkResult::VK_ERROR_FEATURE_NOT_PRESENT),
        (DeviceCreationError::TooManyObjects, VkResult::VK_ERROR_TOO_MANY_OBJECTS),
        (DeviceCreationError::DeviceLost, VkResult::VK_ERROR_DEVICE_LOST),
    ];
    for (err, result) in cases.iter() {
        assert_eq!(map_err_device_creation(*err), *result);
    }
}

#[test]
fn attachment_ops() {
    assert_eq!(map_attachment_load_op(VkAttachmentLoadOp::VK_ATTACHMENT_LOAD_OP_LOAD), AttachmentLoadOp::Load);
    assert_eq!(map_attachment_load_op(VkAttachmentLoadOp::VK_ATTACHMENT_LOAD_OP_CLEAR), AttachmentLoadOp::Clear);
    assert_eq!(
        map_attachment_load_op(VkAttachmentLoadOp::VK_ATTACHMENT_LOAD_OP_DONT_CARE),
        AttachmentLoadOp::DontCare
    );
    assert_eq!(
        map_attachment_store_op(VkAttachmentStoreOp::VK_ATTACHMENT_STORE_OP_STORE),
        AttachmentStoreOp::Store
    );
    assert_eq!(
        map_attachment_store_op(VkAttachmentStoreOp::VK_ATTACHMENT_STORE_OP_DONT_CARE),
        AttachmentStoreOp::DontCare
    );
}
