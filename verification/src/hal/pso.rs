use vstd::prelude::*;

verus! {

/// The type of a descriptor.
#[derive(Clone, Copy, Debug, PartialEq, Eq, Structural)]
pub enum DescriptorType {
    Sampler,
    CombinedImageSampler,
    SampledImage,
    StorageImage,
    UniformTexelBuffer,
    StorageTexelBuffer,
    UniformBuffer,
    StorageBuffer,
    UniformBufferDynamic,
    StorageBufferDynamic,
    InputAttachment,
}

/// The shader stages that may access a resource (gfx-hal `pso::ShaderStageFlags`).
/// gfx-hal's `GRAPHICS` is the first five flags, its `ALL` all six.
#[derive(Clone, Copy, Debug, Default, PartialEq, Eq, Structural)]
pub struct ShaderStageFlags {
    pub vertex: bool,
    pub hull: bool,
    pub domain: bool,
    pub geometry: bool,
    pub fragment: bool,
    pub compute: bool,
}

impl ShaderStageFlags {
    /// The set that holds the flags of either set.
    pub open spec fn union(self, other: Self) -> Self {
        ShaderStageFlags {
            vertex: self.vertex || other.vertex,
            hull: self.hull || other.hull,
            domain: self.domain || other.domain,
            geometry: self.geometry || other.geometry,
            fragment: self.fragment || other.fragment,
            compute: self.compute || other.compute,
        }
    }
}

/// A set of pipeline stages (gfx-hal `pso::PipelineStage`), held as its bits;
/// gfx-hal numbers the stages as Vulkan numbers its pipeline stage bits.
#[derive(Clone, Copy, Debug, PartialEq, Eq, Structural)]
pub struct PipelineStage {
    pub bits: u32,
}

} // verus!
