//! Plain-value model of the gfx-hal types that the conversions produce or
//! read.  The submodules follow the layout of gfx-hal itself.  A gfx-hal
//! enum is modelled by an enum with the same variants; a gfx-hal flag set
//! (a `bitflags` type) by a struct with one `bool` per named flag, true
//! where the set contains that flag.

pub mod adapter;
pub mod buffer;
pub mod format;
pub mod image;
pub mod memory;
pub mod pass;
pub mod pso;
pub mod window;
