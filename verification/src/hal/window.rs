use vstd::prelude::*;

use crate::hal::image::Size;

verus! {

/// Extent of a two-dimensional surface.
#[derive(Clone, Copy, Debug, PartialEq, Eq, Structural)]
pub struct Extent2D {
    pub width: Size,
    pub height: Size,
}

} // verus!
