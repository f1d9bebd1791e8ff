use vstd::prelude::*;

use crate::device::{opcode_group, spec_opcode_group, DeviceType};
use crate::error::{DeviceError, DeviceResult};

verus! {

/// Length of every command and status report.
pub const REPORT_LENGTH: usize = 20;

/// Opcode of the power query.
pub const OPCODE_GET_ON: u8 = 0x01;
/// Opcode of the power command.
pub const OPCODE_SET_ON: u8 = 0x1c;
/// Opcode of the brightness query.
pub const OPCODE_GET_BRIGHTNESS: u8 = 0x31;
/// Opcode of the brightness command.
pub const OPCODE_SET_BRIGHTNESS: u8 = 0x4c;
/// Opcode of the colour temperature query.
pub const OPCODE_GET_TEMPERATURE: u8 = 0x81;
/// Opcode of the colour temperature command.
pub const OPCODE_SET_TEMPERATURE: u8 = 0x9c;

/// Group byte of the back panel's power and brightness operations.
pub const GROUP_BACK: u8 = 0x0a;
/// Group byte of the back panel's colour operations.
pub const GROUP_BACK_COLOR: u8 = 0x0c;
/// Opcode of the back panel power query.
pub const OPCODE_GET_BACK_ON: u8 = 0x3b;
/// Opcode of the back panel power command.
pub const OPCODE_SET_BACK_ON: u8 = 0x4b;
/// Opcode of the back panel brightness query.
pub const OPCODE_GET_BACK_BRIGHTNESS: u8 = 0x1b;
/// Opcode of the back panel brightness command.
pub const OPCODE_SET_BACK_BRIGHTNESS: u8 = 0x2b;
/// Opcode of the back panel zone colour command.
pub const OPCODE_SET_BACK_COLOR: u8 = 0x1b;
/// Opcode that applies the colours written to the back panel.
pub const OPCODE_COMMIT_BACK_COLOR: u8 = 0x7b;

/// A command report: the fixed header `0x11 0xff group opcode`, then the
/// argument bytes, then zeros up to 20 bytes.
pub open spec fn command_report(group: u8, opcode: u8, args: Seq<u8>) -> Seq<u8>
    recommends
        args.len() <= 16,
{
    seq![0x11u8, 0xffu8, group, opcode] + args + Seq::new((16 - args.len()) as nat, |i: int| 0u8)
}

/// The two bytes of `v`, most significant first.
pub open spec fn be_bytes(v: u16) -> Seq<u8> {
    seq![(v / 256) as u8, (v % 256) as u8]
}

/// The 16-bit value that a status reply carries big-endian in bytes 4 and 5.
pub open spec fn status_value(buffer: Seq<u8>) -> int {
    buffer[4] * 256 + buffer[5]
}

/// The flag that a status reply carries in byte 4.
pub open spec fn status_flag(buffer: Seq<u8>) -> bool {
    buffer[4] == 1
}

/// Builds a report with a header and up to four argument bytes.
fn frame(group: u8, opcode: u8, a: u8, b: u8, c: u8, d: u8) -> (r: [u8; 20])
    ensures
        r@ == command_report(group, opcode, seq![a, b, c, d]),
{
    let r = [
        0x11, 0xff, group, opcode, a, b, c, d, 0x00, 0x00, 0x00, 0x00, 0x00, 0x00, 0x00,
        0x00, 0x00, 0x00, 0x00, 0x00,
    ];
    assert(r@ =~= command_report(group, opcode, seq![a, b, c, d]));
    r
}

/// The power query for a model.
pub fn generate_is_on_bytes(device_type: &DeviceType) -> (r: [u8; 20])
    ensures
        r@ == command_report(spec_opcode_group(*device_type), OPCODE_GET_ON, seq![]),
{
    let r = frame(opcode_group(device_type), OPCODE_GET_ON, 0, 0, 0, 0);
    assert(r@ =~= command_report(spec_opcode_group(*device_type), OPCODE_GET_ON, seq![]));
    r
}

/// Builds a front-light report for a model: its group byte, `opcode`, and up
/// to two argument bytes.
fn front_report(device_type: &DeviceType, opcode: u8, a: u8, b: u8) -> (r: [u8; 20])
    ensures
        r@ == command_report(spec_opcode_group(*device_type), opcode, seq![a, b]),
{
    let r = frame(opcode_group(device_type), opcode, a, b, 0, 0);
    assert(r@ =~= command_report(spec_opcode_group(*device_type), opcode, seq![a, b]));
    r
}

/// The brightness query for a model.
pub fn generate_get_brightness_in_lumen_bytes(device_type: &DeviceType) -> (r: [u8; 20])
    ensures
        r@ == command_report(spec_opcode_group(*device_type), OPCODE_GET_BRIGHTNESS, seq![]),
{
    let r = front_report(device_type, OPCODE_GET_BRIGHTNESS, 0, 0);
    assert(r@ =~= command_report(spec_opcode_group(*device_type), OPCODE_GET_BRIGHTNESS, seq![]));
    r
}

/// The colour temperature query for a model.
pub fn generate_get_temperature_in_kelvin_bytes(device_type: &DeviceType) -> (r: [u8; 20])
    ensures
        r@ == command_report(spec_opcode_group(*device_type), OPCODE_GET_TEMPERATURE, seq![]),
{
    let r = front_report(device_type, OPCODE_GET_TEMPERATURE, 0, 0);
    assert(r@ =~= command_report(
        spec_opcode_group(*device_type),
        OPCODE_GET_TEMPERATURE,
        seq![],
    ));
    r
}

/// The power command for a model: byte 4 is 1 to switch on, 0 to switch off.
pub fn generate_set_on_bytes(device_type: &DeviceType, on: bool) -> (r: [u8; 20])
    ensures
        r@ == command_report(
            spec_opcode_group(*device_type),
            OPCODE_SET_ON,
            seq![if on { 1u8 } else { 0u8 }],
        ),
{
    let on_byte: u8 = if on { 0x01 } else { 0x00 };
    let r = front_report(device_type, OPCODE_SET_ON, on_byte, 0);
    assert(r@ =~= command_report(spec_opcode_group(*device_type), OPCODE_SET_ON, seq![on_byte]));
    r
}

/// The brightness command for a model, with the brightness in Lumen as two
/// big-endian bytes. Whether the value suits the model is checked by the
/// caller.
pub fn generate_set_brightness_in_lumen_bytes(
    device_type: &DeviceType,
    brightness_in_lumen: u16,
) -> (r: [u8; 20])
    ensures
        r@ == command_report(
            spec_opcode_group(*device_type),
            OPCODE_SET_BRIGHTNESS,
            be_bytes(brightness_in_lumen),
        ),
{
    let high = (brightness_in_lumen / 256) as u8;
    let low = (brightness_in_lumen % 256) as u8;
    let r = front_report(device_type, OPCODE_SET_BRIGHTNESS, high, low);
    assert(r@ =~= command_report(
        spec_opcode_group(*device_type),
        OPCODE_SET_BRIGHTNESS,
        be_bytes(brightness_in_lumen),
    ));
    r
}

/// The colour temperature command for a model, with the temperature in
/// Kelvin as two big-endian bytes. Whether the value suits the model is
/// checked by the caller.
pub fn generate_set_temperature_in_kelvin_bytes(
    device_type: &DeviceType,
    temperature_in_kelvin: u16,
) -> (r: [u8; 20])
    ensures
        r@ == command_report(
            spec_opcode_group(*device_type),
            OPCODE_SET_TEMPERATURE,
            be_bytes(temperature_in_kelvin),
        ),
{
    let high = (temperature_in_kelvin / 256) as u8;
    let low = (temperature_in_kelvin % 256) as u8;
    let r = front_report(device_type, OPCODE_SET_TEMPERATURE, high, low);
    assert(r@ =~= command_report(
        spec_opcode_group(*device_type),
        OPCODE_SET_TEMPERATURE,
        be_bytes(temperature_in_kelvin),
    ));
    r
}

/// The back panel power query.
pub fn generate_is_back_on_bytes() -> (r: [u8; 20])
    ensures
        r@ == command_report(GROUP_BACK, OPCODE_GET_BACK_ON, seq![]),
{
    let r = frame(GROUP_BACK, OPCODE_GET_BACK_ON, 0, 0, 0, 0);
    assert(r@ =~= command_report(GROUP_BACK, OPCODE_GET_BACK_ON, seq![]));
    r
}

/// The back panel power command: byte 4 is 1 to switch on, 0 to switch off.
pub fn generate_set_back_on_bytes(on: bool) -> (r: [u8; 20])
    ensures
        r@ == command_report(GROUP_BACK, OPCODE_SET_BACK_ON, seq![if on { 1u8 } else { 0u8 }]),
{
    let on_byte: u8 = if on { 0x01 } else { 0x00 };
    let r = frame(GROUP_BACK, OPCODE_SET_BACK_ON, on_byte, 0, 0, 0);
    assert(r@ =~= command_report(GROUP_BACK, OPCODE_SET_BACK_ON, seq![on_byte]));
    r
}

/// The back panel brightness query.
pub fn generate_get_back_brightness_bytes() -> (r: [u8; 20])
    ensures
        r@ == command_report(GROUP_BACK, OPCODE_GET_BACK_BRIGHTNESS, seq![]),
{
    let r = frame(GROUP_BACK, OPCODE_GET_BACK_BRIGHTNESS, 0, 0, 0, 0);
    assert(r@ =~= command_report(GROUP_BACK, OPCODE_GET_BACK_BRIGHTNESS, seq![]));
    r
}

/// The back panel brightness command, with the percentage as two big-endian
/// bytes.
pub fn generate_set_back_brightness_percentage_bytes(percentage: u8) -> (r: [u8; 20])
    ensures
        r@ == command_report(GROUP_BACK, OPCODE_SET_BACK_BRIGHTNESS, be_bytes(percentage as u16)),
{
    let r = frame(GROUP_BACK, OPCODE_SET_BACK_BRIGHTNESS, 0, percentage, 0, 0);
    assert(r@ =~= command_report(
        GROUP_BACK,
        OPCODE_SET_BACK_BRIGHTNESS,
        be_bytes(percentage as u16),
    ));
    r
}

/// The colour command for one back panel zone: zone, red, green and blue in
/// bytes 4 to 7, as given.
pub fn generate_set_back_color_bytes(zone: u8, red: u8, green: u8, blue: u8) -> (r: [u8; 20])
    ensures
        r@ == command_report(GROUP_BACK_COLOR, OPCODE_SET_BACK_COLOR, seq![zone, red, green, blue]),
{
    frame(GROUP_BACK_COLOR, OPCODE_SET_BACK_COLOR, zone, red, green, blue)
}

/// The report that applies the zone colours written before it.
pub fn generate_commit_back_color_bytes() -> (r: [u8; 20])
    ensures
        r@ == command_report(GROUP_BACK_COLOR, OPCODE_COMMIT_BACK_COLOR, seq![]),
{
    let r = frame(GROUP_BACK_COLOR, OPCODE_COMMIT_BACK_COLOR, 0, 0, 0, 0);
    assert(r@ =~= command_report(GROUP_BACK_COLOR, OPCODE_COMMIT_BACK_COLOR, seq![]));
    r
}

/// Reads the on/off flag of a status reply of which `bytes_read` bytes were
/// received.
pub fn decode_flag_response(buffer: &[u8; 20], bytes_read: usize) -> (r: DeviceResult<bool>)
    ensures
        bytes_read >= 5 ==> (r matches Ok(b) && b == status_flag(buffer@)),
        bytes_read < 5 ==> (r matches Err(DeviceError::IncompleteResponse(n)) && n == bytes_read),
{
    if bytes_read < 5 {
        return Err(DeviceError::IncompleteResponse(bytes_read));
    }
    Ok(buffer[4] == 1)
}

/// Reads the big-endian 16-bit value of a status reply of which `bytes_read`
/// bytes were received.
pub fn decode_value_response(buffer: &[u8; 20], bytes_read: usize) -> (r: DeviceResult<u16>)
    ensures
        bytes_read >= 6 ==> (r matches Ok(v) && v == status_value(buffer@)),
        bytes_read < 6 ==> (r matches Err(DeviceError::IncompleteResponse(n)) && n == bytes_read),
{
    if bytes_read < 6 {
        return Err(DeviceError::IncompleteResponse(bytes_read));
    }
    let high = buffer[4] as u16;
    let low = buffer[5] as u16;
    Ok(high * 256 + low)
}

/// A reply that carries `v` in bytes 4 and 5 decodes to `v`: reading a value
/// back undoes writing it.
pub proof fn lemma_value_round_trip(group: u8, opcode: u8, v: u16)
    ensures
        status_value(command_report(group, opcode, be_bytes(v))) == v,
{
    let r = command_report(group, opcode, be_bytes(v));
    assert(r[4] == (v / 256) as u8);
    assert(r[5] == (v % 256) as u8);
}

} // verus!
