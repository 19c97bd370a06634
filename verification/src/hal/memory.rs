use vstd::prelude::*;

verus! {

/// Properties of a memory type (gfx-hal `memory::Properties`).
#[derive(Clone, Copy, Debug, Default, PartialEq, Eq, Structural)]
pub struct Properties {
    pub device_local: bool,
    pub cpu_visible: bool,
    pub coherent: bool,
    pub cpu_cached: bool,
    pub lazily_allocated: bool,
}

impl Properties {
    /// The set that holds the flags of either set.
    pub open spec fn union(self, other: Self) -> Self {
        Properties {
            device_local: self.device_local || other.device_local,
            cpu_visible: self.cpu_visible || other.cpu_visible,
            coherent: self.coherent || other.coherent,
            cpu_cached: self.cpu_cached || other.cpu_cached,
            lazily_allocated: self.lazily_allocated || other.lazily_allocated,
        }
    }
}

} // verus!
