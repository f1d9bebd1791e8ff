use vstd::prelude::*;

verus! {

/// The error that the HID layer reports for a failed open, write or read.
#[verifier::external_type_specification]
#[verifier::external_body]
pub struct ExHidError(hidapi::HidError);

/// A device-related error.
#[derive(Debug)]
pub enum DeviceError {
    /// Tried to use a device that is not supported.
    Unsupported,
    /// The operation needs a capability that this model lacks.
    UnsupportedDeviceType,
    /// Tried to set a brightness outside the model's range.
    InvalidBrightness(u16),
    /// Tried to set a temperature outside the range or off the 100 K grid.
    InvalidTemperature(u16),
    /// Tried to use a percentage outside the accepted range.
    InvalidPercentage(u8),
    /// Tried to address a back-panel zone that does not exist.
    InvalidZone(u8),
    /// A status reply was too short to hold the value asked for; carries the
    /// number of bytes that were read.
    IncompleteResponse(usize),
    /// An operation of the HID layer failed.
    HidError(hidapi::HidError),
}

/// The result of a Litra device operation.
pub type DeviceResult<T> = Result<T, DeviceError>;

} // verus!
