//! Query and control Logitech Litra USB lights.
//!
//! The library holds the device protocol: which HID devices are supported
//! lights, the 20-byte reports that drive them, the decoding of their status
//! replies, and the checks and unit conversions that precede every command.
//! Opening devices and moving bytes over HID is left to the caller, which
//! writes the reports a [`DeviceHandle`] gives and decodes the replies with
//! [`decode_flag_response`] and [`decode_value_response`].

pub mod device;
pub mod discovery;
pub mod error;
pub mod range;
pub mod report;
pub mod session;

pub use device::{
    device_type_from_product_id, resolve_device_type, Device, DeviceDescriptor, DeviceType,
    Litra, MAXIMUM_TEMPERATURE_IN_KELVIN, MINIMUM_TEMPERATURE_IN_KELVIN, USAGE_PAGE, VENDOR_ID,
};
pub use discovery::{
    check_device_filters, get_connected_devices, get_is_on_emoji, get_is_on_text,
    matching_devices, serial_matches, validate_single_filter, DeviceInfo, DeviceStatus,
    SelectionError,
};
pub use error::{DeviceError, DeviceResult};
pub use range::{multiples_within_range, percentage_within_range};
pub use report::{
    decode_flag_response, decode_value_response, generate_commit_back_color_bytes,
    generate_get_back_brightness_bytes, generate_get_brightness_in_lumen_bytes,
    generate_get_temperature_in_kelvin_bytes, generate_is_back_on_bytes, generate_is_on_bytes,
    generate_set_back_brightness_percentage_bytes, generate_set_back_color_bytes,
    generate_set_back_on_bytes, generate_set_brightness_in_lumen_bytes, generate_set_on_bytes,
    generate_set_temperature_in_kelvin_bytes, REPORT_LENGTH,
};
pub use session::{DeviceHandle, BACK_ZONES};
