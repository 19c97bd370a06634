use vstd::prelude::*;

verus! {

/// The number that gfx-hal gives as `format::NUM_FORMATS`: one more than the
/// largest format code.
pub open spec fn spec_num_formats() -> usize {
    185
}

/// Reads `gfx_hal::format::NUM_FORMATS`.  The contract claims its value:
/// the crate's `formats!` list numbers its 184 formats from 1 and ends with
/// the hidden `__NumFormats`, whose code is the constant.
#[verifier::external_body]
pub(crate) fn num_formats() -> (n: usize)
    ensures
        n == spec_num_formats(),
{
    gfx_hal::format::NUM_FORMATS
}

/// A gfx-hal format, held as its numeric code.  gfx-hal numbers its formats
/// as Vulkan does: code 1 is `Rg4Unorm` (`VK_FORMAT_R4G4_UNORM_PACK8`), and
/// no format has code 0, which Vulkan uses for `VK_FORMAT_UNDEFINED`.
#[derive(Clone, Copy, Debug, PartialEq, Eq, Structural)]
pub struct Format {
    pub id: u32,
}

impl Format {
    /// The code names one of gfx-hal's formats.
    pub open spec fn wf(self) -> bool {
        0 < self.id && self.id < spec_num_formats()
    }
}

/// The features that an image of some format supports
/// (gfx-hal `format::ImageFeature`).
#[derive(Clone, Copy, Debug, Default, PartialEq, Eq, Structural)]
pub struct ImageFeature {
    pub sampled: bool,
    pub storage: bool,
    pub storage_atomic: bool,
    pub color_attachment: bool,
    pub color_attachment_blend: bool,
    pub depth_stencil_attachment: bool,
    pub blit_src: bool,
    pub blit_dst: bool,
    pub sampled_linear: bool,
}

impl ImageFeature {
    /// The set that holds the flags of either set.
    pub open spec fn union(self, other: Self) -> Self {
        ImageFeature {
            sampled: self.sampled || other.sampled,
            storage: self.storage || other.storage,
            storage_atomic: self.storage_atomic || other.storage_atomic,
            color_attachment: self.color_attachment || other.color_attachment,
            color_attachment_blend: self.color_attachment_blend || other.color_attachment_blend,
            depth_stencil_attachment: self.depth_stencil_attachment
                || other.depth_stencil_attachment,
            blit_src: self.blit_src || other.blit_src,
            blit_dst: self.blit_dst || other.blit_dst,
            sampled_linear: self.sampled_linear || other.sampled_linear,
        }
    }
}

/// The features that a buffer of some format supports
/// (gfx-hal `format::BufferFeature`).
#[derive(Clone, Copy, Debug, Default, PartialEq, Eq, Structural)]
pub struct BufferFeature {
    pub uniform_texel: bool,
    pub storage_texel: bool,
    pub storage_texel_atomic: bool,
    pub vertex: bool,
}

impl BufferFeature {
    /// The set that holds the flags of either set.
    pub open spec fn union(self, other: Self) -> Self {
        BufferFeature {
            uniform_texel: self.uniform_texel || other.uniform_texel,
            storage_texel: self.storage_texel || other.storage_texel,
            storage_texel_atomic: self.storage_texel_atomic || other.storage_texel_atomic,
            vertex: self.vertex || other.vertex,
        }
    }
}

/// The features of a format (gfx-hal `format::Properties`).
#[derive(Clone, Copy, Debug, Default, PartialEq, Eq, Structural)]
pub struct Properties {
    pub linear_tiling: ImageFeature,
    pub optimal_tiling: ImageFeature,
    pub buffer_features: BufferFeature,
}

/// The aspects of an image: color, depth, stencil.
#[derive(Clone, Copy, Debug, Default, PartialEq, Eq, Structural)]
pub struct AspectFlags {
    pub color: bool,
    pub depth: bool,
    pub stencil: bool,
}

impl AspectFlags {
    /// The set that holds the flags of either set.
    pub open spec fn union(self, other: Self) -> Self {
        AspectFlags {
            color: self.color || other.color,
            depth: self.depth || other.depth,
            stencil: self.stencil || other.stencil,
        }
    }
}

/// Source channel in a swizzle configuration.
#[derive(Clone, Copy, Debug, PartialEq, Eq, Structural)]
pub enum Component {
    /// Hardcoded zero.
    Zero,
    /// Hardcoded one.
    One,
    /// Red channel.
    R,
    /// Green channel.
    G,
    /// Blue channel.
    B,
    /// Alpha channel.
    A,
}

/// Channel swizzle configuration: the source of the red, green, blue and
/// alpha channels, in that order.
#[derive(Clone, Copy, Debug, PartialEq, Eq, Structural)]
pub struct Swizzle(pub Component, pub Component, pub Component, pub Component);

} // verus!
