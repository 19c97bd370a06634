use vstd::prelude::*;

use crate::hal::format::AspectFlags;

verus! {

/// Dimension size.
pub type Size = u32;

/// Number of samples per texel.
pub type NumSamples = u8;

/// Image array layer.
pub type Layer = u16;

/// Image mipmap level.
pub type Level = u8;

/// Anti-aliasing mode of an image.
#[derive(Clone, Copy, Debug, PartialEq, Eq, Structural)]
pub enum AaMode {
    /// One sample per texel.
    Single,
    /// The given number of samples per texel.
    Multi(NumSamples),
}

/// The kind of an image, with its dimensions.
#[derive(Clone, Copy, Debug, PartialEq, Eq, Structural)]
pub enum Kind {
    /// A single one-dimensional row of texels.
    D1(Size),
    /// An array of rows of texels.
    D1Array(Size, Layer),
    /// A traditional 2D image, with rows arranged contiguously.
    D2(Size, Size, AaMode),
    /// An array of 2D images.
    D2Array(Size, Size, Layer, AaMode),
    /// A volume image, with each 2D layer arranged contiguously.
    D3(Size, Size, Size),
    /// A set of 6 2D images, one for each face of a cube.
    Cube(Size),
    /// An array of cube sets.
    CubeArray(Size, Layer),
}

impl Kind {
    /// How many two-dimensional layers an image of this kind holds.
    pub open spec fn num_layers(self) -> int {
        match self {
            Kind::D1(_) => 1,
            Kind::D1Array(_, n) => n as int,
            Kind::D2(_, _, _) => 1,
            Kind::D2Array(_, _, n, _) => n as int,
            Kind::D3(_, _, _) => 1,
            Kind::Cube(_) => 6,
            Kind::CubeArray(_, n) => 6 * n,
        }
    }
}

/// The layout of an image in memory.
#[derive(Clone, Copy, Debug, PartialEq, Eq, Structural)]
pub enum ImageLayout {
    General,
    ColorAttachmentOptimal,
    DepthStencilAttachmentOptimal,
    DepthStencilReadOnlyOptimal,
    ShaderReadOnlyOptimal,
    TransferSrcOptimal,
    TransferDstOptimal,
    Undefined,
    Preinitialized,
    Present,
}

/// The ways an image may be used (gfx-hal `image::Usage`).
#[derive(Clone, Copy, Debug, Default, PartialEq, Eq, Structural)]
pub struct Usage {
    pub transfer_src: bool,
    pub transfer_dst: bool,
    pub sampled: bool,
    pub storage: bool,
    pub color_attachment: bool,
    pub depth_stencil_attachment: bool,
    pub transient_attachment: bool,
    pub input_attachment: bool,
}

impl Usage {
    /// The set that holds the flags of either set.
    pub open spec fn union(self, other: Self) -> Self {
        Usage {
            transfer_src: self.transfer_src || other.transfer_src,
            transfer_dst: self.transfer_dst || other.transfer_dst,
            sampled: self.sampled || other.sampled,
            storage: self.storage || other.storage,
            color_attachment: self.color_attachment || other.color_attachment,
            depth_stencil_attachment: self.depth_stencil_attachment
                || other.depth_stencil_attachment,
            transient_attachment: self.transient_attachment || other.transient_attachment,
            input_attachment: self.input_attachment || other.input_attachment,
        }
    }
}

/// The ways the memory of an image may be accessed (gfx-hal `image::Access`).
#[derive(Clone, Copy, Debug, Default, PartialEq, Eq, Structural)]
pub struct Access {
    pub input_attachment_read: bool,
    pub shader_read: bool,
    pub shader_write: bool,
    pub color_attachment_read: bool,
    pub color_attachment_write: bool,
    pub depth_stencil_attachment_read: bool,
    pub depth_stencil_attachment_write: bool,
    pub transfer_read: bool,
    pub transfer_write: bool,
    pub host_read: bool,
    pub host_write: bool,
    pub memory_read: bool,
    pub memory_write: bool,
}

impl Access {
    /// The set that holds the flags of either set.
    pub open spec fn union(self, other: Self) -> Self {
        Access {
            input_attachment_read: self.input_attachment_read || other.input_attachment_read,
            shader_read: self.shader_read || other.shader_read,
            shader_write: self.shader_write || other.shader_write,
            color_attachment_read: self.color_attachment_read || other.color_attachment_read,
            color_attachment_write: self.color_attachment_write || other.color_attachment_write,
            depth_stencil_attachment_read: self.depth_stencil_attachment_read
                || other.depth_stencil_attachment_read,
            depth_stencil_attachment_write: self.depth_stencil_attachment_write
                || other.depth_stencil_attachment_write,
            transfer_read: self.transfer_read || other.transfer_read,
            transfer_write: self.transfer_write || other.transfer_write,
            host_read: self.host_read || other.host_read,
            host_write: self.host_write || other.host_write,
            memory_read: self.memory_read || other.memory_read,
            memory_write: self.memory_write || other.memory_write,
        }
    }
}

/// A range of aspects, mip levels and array layers of an image.
#[derive(Debug, PartialEq, Eq)]
pub struct SubresourceRange {
    pub aspects: AspectFlags,
    pub levels: core::ops::Range<Level>,
    pub layers: core::ops::Range<Layer>,
}

} // verus!
