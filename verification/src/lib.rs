//! Conversions between the Vulkan types of the portability layer and the
//! gfx-hal types that back them.
//!
//! `vk` holds the Vulkan side: the enums, structs and flag masks of the
//! Vulkan API as the portability layer receives them.  `hal` holds a
//! plain-value model of the gfx-hal types that the conversions produce or
//! read.  `conv` holds the conversions themselves, each with a contract
//! over those models, and `laws` the properties that relate them.

pub mod conv;
pub mod laws;
pub mod hal;
pub mod vk;
