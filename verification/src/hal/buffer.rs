use vstd::prelude::*;

verus! {

/// The ways a buffer may be used (gfx-hal `buffer::Usage`).
#[derive(Clone, Copy, Debug, Default, PartialEq, Eq, Structural)]
pub struct Usage {
    pub transfer_src: bool,
    pub transfer_dst: bool,
    pub uniform_texel: bool,
    pub storage_texel: bool,
    pub uniform: bool,
    pub storage: bool,
    pub index: bool,
    pub vertex: bool,
    pub indirect: bool,
}

impl Usage {
    /// The set that holds the flags of either set.
    pub open spec fn union(self, other: Self) -> Self {
        Usage {
            transfer_src: self.transfer_src || other.transfer_src,
            transfer_dst: self.transfer_dst || other.transfer_dst,
            uniform_texel: self.uniform_texel || other.uniform_texel,
            storage_texel: self.storage_texel || other.storage_texel,
            uniform: self.uniform || other.uniform,
            storage: self.storage || other.storage,
            index: self.index || other.index,
            vertex: self.vertex || other.vertex,
            indirect: self.indirect || other.indirect,
        }
    }
}

} // verus!
