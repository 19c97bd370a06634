use vstd::prelude::*;

verus! {

/// The ways in which creating a logical device can fail.
#[derive(Clone, Copy, Debug, PartialEq, Eq, Structural)]
pub enum DeviceCreationError {
    /// Memory allocation on the host side failed.
    OutOfHostMemory,
    /// Memory allocation on the device side failed.
    OutOfDeviceMemory,
    /// Device initialization failed due to implementation specific errors.
    InitializationFailed,
    /// At least one of the requested extensions is not supported.
    MissingExtension,
    /// At least one of the requested features is not supported.
    MissingFeature,
    /// Too many logical devices have been created from this physical device.
    TooManyObjects,
    /// The logical or physical device was lost.
    DeviceLost,
}

} // verus!
