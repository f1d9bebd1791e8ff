use vstd::prelude::*;

use crate::device::{
    has_back_side, max_lumen, min_lumen, spec_opcode_group, DeviceType,
    MAXIMUM_TEMPERATURE_IN_KELVIN, MINIMUM_TEMPERATURE_IN_KELVIN,
};
use crate::error::{DeviceError, DeviceResult};
use crate::range::{is_multiple_of, percentage_value, percentage_within_range};
use crate::report::{
    be_bytes, command_report, generate_commit_back_color_bytes, generate_get_back_brightness_bytes,
    generate_get_brightness_in_lumen_bytes, generate_get_temperature_in_kelvin_bytes,
    generate_is_back_on_bytes, generate_is_on_bytes, generate_set_back_brightness_percentage_bytes,
    generate_set_back_color_bytes, generate_set_back_on_bytes,
    generate_set_brightness_in_lumen_bytes, generate_set_on_bytes,
    generate_set_temperature_in_kelvin_bytes, GROUP_BACK, GROUP_BACK_COLOR,
    OPCODE_COMMIT_BACK_COLOR, OPCODE_GET_BACK_BRIGHTNESS, OPCODE_GET_BACK_ON, OPCODE_GET_BRIGHTNESS,
    OPCODE_GET_ON, OPCODE_GET_TEMPERATURE, OPCODE_SET_BACK_BRIGHTNESS, OPCODE_SET_BACK_ON, OPCODE_SET_BACK_COLOR,
    OPCODE_SET_BRIGHTNESS, OPCODE_SET_ON, OPCODE_SET_TEMPERATURE,
};

verus! {

/// Number of colour zones on a back panel.
pub const BACK_ZONES: u8 = 7;

/// Whether a brightness in Lumen lies in a model's range.
pub open spec fn valid_brightness(device_type: DeviceType, v: int) -> bool {
    min_lumen(device_type) <= v <= max_lumen(device_type)
}

/// Whether a colour temperature lies in the range and on the 100 K grid.
pub open spec fn valid_temperature(v: int) -> bool {
    MINIMUM_TEMPERATURE_IN_KELVIN <= v <= MAXIMUM_TEMPERATURE_IN_KELVIN && v % 100 == 0
}

/// The temperature check accepts exactly the multiples of 100 that lie
/// between the lowest and the highest temperature, the values that
/// `multiples_within_range(100, 2700, 6500)` lists.
pub proof fn lemma_temperature_check_matches_grid(v: u16)
    ensures
        valid_temperature(v as int) <==> (MINIMUM_TEMPERATURE_IN_KELVIN <= v
            <= MAXIMUM_TEMPERATURE_IN_KELVIN && is_multiple_of(v as int, 100)),
{
}

/// Whether a back panel brightness percentage is accepted: 1 to 100.
pub open spec fn valid_back_percentage(v: int) -> bool {
    1 <= v <= 100
}

/// A result that carries a report, seen as a result that carries its bytes.
pub open spec fn report_view(r: DeviceResult<[u8; 20]>) -> DeviceResult<Seq<u8>> {
    match r {
        Ok(report) => Ok(report@),
        Err(e) => Err(e),
    }
}

/// The outcome of asking a model for a brightness: the brightness command,
/// or `InvalidBrightness` off the model's range.
pub open spec fn brightness_outcome(device_type: DeviceType, v: u16) -> DeviceResult<Seq<u8>> {
    if valid_brightness(device_type, v as int) {
        Ok(command_report(spec_opcode_group(device_type), OPCODE_SET_BRIGHTNESS, be_bytes(v)))
    } else {
        Err(DeviceError::InvalidBrightness(v))
    }
}

/// The outcome of asking a model for a colour temperature: the temperature
/// command, or `InvalidTemperature` off the range or the 100 K grid.
pub open spec fn temperature_outcome(device_type: DeviceType, v: u16) -> DeviceResult<Seq<u8>> {
    if valid_temperature(v as int) {
        Ok(command_report(spec_opcode_group(device_type), OPCODE_SET_TEMPERATURE, be_bytes(v)))
    } else {
        Err(DeviceError::InvalidTemperature(v))
    }
}

/// The outcome of asking a model for a back panel brightness percentage.
pub open spec fn back_brightness_outcome(device_type: DeviceType, v: u8) -> DeviceResult<Seq<u8>> {
    if !has_back_side(device_type) {
        Err(DeviceError::UnsupportedDeviceType)
    } else if !valid_back_percentage(v as int) {
        Err(DeviceError::InvalidPercentage(v))
    } else {
        Ok(command_report(GROUP_BACK, OPCODE_SET_BACK_BRIGHTNESS, be_bytes(v as u16)))
    }
}

/// A colour channel as it is sent: at least 1, since the panel misbehaves on 0.
pub open spec fn channel(c: u8) -> u8 {
    if c == 0 {
        1
    } else {
        c
    }
}

/// `a + b`, held at `u16::MAX`.
pub open spec fn add_capped(a: u16, b: u16) -> u16 {
    if a + b > u16::MAX {
        u16::MAX
    } else {
        (a + b) as u16
    }
}

/// `a - b`, held at 0.
pub open spec fn sub_floored(a: u16, b: u16) -> u16 {
    if a < b {
        0
    } else {
        (a - b) as u16
    }
}

/// The Lumen that `percentage` percent of a model's brightness range stands
/// for, counted from the range's lower end.
pub open spec fn percentage_step(device_type: DeviceType, percentage: u8) -> u16 {
    (percentage_value(percentage as int, min_lumen(device_type) as int, max_lumen(device_type) as int)
        - min_lumen(device_type)) as u16
}

/// Adds with the result held at `u16::MAX`.
fn add_capped_u16(a: u16, b: u16) -> (r: u16)
    ensures
        r == add_capped(a, b),
{
    if a as u32 + b as u32 > 0xffff {
        0xffff
    } else {
        a + b
    }
}

/// Subtracts with the result held at 0.
fn sub_floored_u16(a: u16, b: u16) -> (r: u16)
    ensures
        r == sub_floored(a, b),
{
    if a < b {
        0
    } else {
        a - b
    }
}

/// The protocol side of an opened light. It knows the light's model, checks
/// every request against it, and gives the reports to send; the caller writes
/// them to the HID device it opened and hands back what the device replied.
/// A check that fails yields no report, so nothing is sent.
#[derive(Debug, Clone, Copy, PartialEq, Eq, Structural)]
pub struct DeviceHandle {
    device_type: DeviceType,
}

impl DeviceHandle {
    /// The model of the light.
    pub closed spec fn model(&self) -> DeviceType {
        self.device_type
    }

    /// The handle of an opened light of the given model.
    pub fn new(device_type: DeviceType) -> (r: DeviceHandle)
        ensures
            r.model() == device_type,
    {
        DeviceHandle { device_type }
    }

    /// The model of the light.
    pub fn device_type(&self) -> (r: DeviceType)
        ensures
            r == self.model(),
    {
        self.device_type
    }

    /// The lowest brightness of the light, in Lumen.
    pub fn minimum_brightness_in_lumen(&self) -> (r: u16)
        ensures
            r == min_lumen(self.model()),
    {
        match self.device_type {
            DeviceType::LitraGlow => 20,
            DeviceType::LitraBeam | DeviceType::LitraBeamLX => 30,
        }
    }

    /// The highest brightness of the light, in Lumen.
    pub fn maximum_brightness_in_lumen(&self) -> (r: u16)
        ensures
            r == max_lumen(self.model()),
    {
        match self.device_type {
            DeviceType::LitraGlow => 250,
            DeviceType::LitraBeam | DeviceType::LitraBeamLX => 400,
        }
    }

    /// The lowest colour temperature of the light, in Kelvin.
    pub fn minimum_temperature_in_kelvin(&self) -> (r: u16)
        ensures
            r == MINIMUM_TEMPERATURE_IN_KELVIN,
    {
        MINIMUM_TEMPERATURE_IN_KELVIN
    }

    /// The highest colour temperature of the light, in Kelvin.
    pub fn maximum_temperature_in_kelvin(&self) -> (r: u16)
        ensures
            r == MAXIMUM_TEMPERATURE_IN_KELVIN,
    {
        MAXIMUM_TEMPERATURE_IN_KELVIN
    }

    /// The report that asks whether the light is on.
    pub fn is_on_query(&self) -> (r: [u8; 20])
        ensures
            r@ == command_report(spec_opcode_group(self.model()), OPCODE_GET_ON, seq![]),
    {
        generate_is_on_bytes(&self.device_type)
    }

    /// The report that switches the light on or off.
    pub fn set_on(&self, on: bool) -> (r: [u8; 20])
        ensures
            r@ == command_report(
                spec_opcode_group(self.model()),
                OPCODE_SET_ON,
                seq![if on { 1u8 } else { 0u8 }],
            ),
    {
        generate_set_on_bytes(&self.device_type, on)
    }

    /// The report that asks for the brightness in Lumen.
    pub fn brightness_in_lumen_query(&self) -> (r: [u8; 20])
        ensures
            r@ == command_report(spec_opcode_group(self.model()), OPCODE_GET_BRIGHTNESS, seq![]),
    {
        generate_get_brightness_in_lumen_bytes(&self.device_type)
    }

    /// The report that sets the brightness in Lumen, or `InvalidBrightness`
    /// when the value lies outside the model's range.
    pub fn set_brightness_in_lumen(&self, brightness_in_lumen: u16) -> (r: DeviceResult<[u8; 20]>)
        ensures
            report_view(r) == brightness_outcome(self.model(), brightness_in_lumen),
    {
        if brightness_in_lumen < self.minimum_brightness_in_lumen()
            || brightness_in_lumen > self.maximum_brightness_in_lumen() {
            return Err(DeviceError::InvalidBrightness(brightness_in_lumen));
        }
        Ok(generate_set_brightness_in_lumen_bytes(&self.device_type, brightness_in_lumen))
    }

    /// The report that sets the brightness to `percentage` percent of the
    /// model's range; `InvalidPercentage` above 100.
    pub fn set_brightness_percentage(&self, percentage: u8) -> (r: DeviceResult<[u8; 20]>)
        ensures
            percentage <= 100 ==> report_view(r) == brightness_outcome(
                self.model(),
                percentage_value(
                    percentage as int,
                    min_lumen(self.model()) as int,
                    max_lumen(self.model()) as int,
                ) as u16,
            ),
            percentage > 100 ==> r == Err::<[u8; 20], _>(DeviceError::InvalidPercentage(percentage)),
    {
        if percentage > 100 {
            return Err(DeviceError::InvalidPercentage(percentage));
        }
        let min = self.minimum_brightness_in_lumen();
        let max = self.maximum_brightness_in_lumen();
        let v = percentage_within_range(percentage as u32, min as u32, max as u32);
        assert(v <= max) by {
            crate::range::lemma_percentage_monotonic(
                percentage as u32,
                100,
                min as u32,
                max as u32,
            );
            crate::range::lemma_percentage_endpoints(min as u32, max as u32);
        }
        self.set_brightness_in_lumen(v as u16)
    }

    /// The report that raises the brightness from `current` by `amount` Lumen.
    /// Going past the model's maximum is `InvalidBrightness`, not a clamp.
    pub fn brightness_up(&self, current: u16, amount: u16) -> (r: DeviceResult<[u8; 20]>)
        ensures
            report_view(r) == brightness_outcome(self.model(), add_capped(current, amount)),
    {
        self.set_brightness_in_lumen(add_capped_u16(current, amount))
    }

    /// The report that lowers the brightness from `current` by `amount` Lumen.
    /// Going below the model's minimum is `InvalidBrightness`, not a clamp.
    pub fn brightness_down(&self, current: u16, amount: u16) -> (r: DeviceResult<[u8; 20]>)
        ensures
            report_view(r) == brightness_outcome(self.model(), sub_floored(current, amount)),
    {
        self.set_brightness_in_lumen(sub_floored_u16(current, amount))
    }

    /// The Lumen that `percentage` percent of the model's range stands for,
    /// counted from its lower end.
    fn percentage_step(&self, percentage: u8) -> (r: u16)
        requires
            percentage <= 100,
        ensures
            r == percentage_step(self.model(), percentage),
    {
        let min = self.minimum_brightness_in_lumen();
        let max = self.maximum_brightness_in_lumen();
        let v = percentage_within_range(percentage as u32, min as u32, max as u32);
        proof {
            crate::range::lemma_percentage_monotonic(0, percentage as u32, min as u32, max as u32);
            crate::range::lemma_percentage_monotonic(percentage as u32, 100, min as u32, max as u32);
            crate::range::lemma_percentage_endpoints(min as u32, max as u32);
        }
        (v - min as u32) as u16
    }

    /// The report that raises the brightness from `current` by `percentage`
    /// percent of the model's range; `InvalidPercentage` above 100.
    pub fn brightness_up_percentage(&self, current: u16, percentage: u8) -> (r: DeviceResult<
        [u8; 20],
    >)
        ensures
            percentage <= 100 ==> report_view(r) == brightness_outcome(
                self.model(),
                add_capped(current, percentage_step(self.model(), percentage)),
            ),
            percentage > 100 ==> r == Err::<[u8; 20], _>(DeviceError::InvalidPercentage(percentage)),
    {
        if percentage > 100 {
            return Err(DeviceError::InvalidPercentage(percentage));
        }
        let step = self.percentage_step(percentage);
        self.brightness_up(current, step)
    }

    /// The report that lowers the brightness from `current` by `percentage`
    /// percent of the model's range; `InvalidPercentage` above 100.
    pub fn brightness_down_percentage(&self, current: u16, percentage: u8) -> (r: DeviceResult<
        [u8; 20],
    >)
        ensures
            percentage <= 100 ==> report_view(r) == brightness_outcome(
                self.model(),
                sub_floored(current, percentage_step(self.model(), percentage)),
            ),
            percentage > 100 ==> r == Err::<[u8; 20], _>(DeviceError::InvalidPercentage(percentage)),
    {
        if percentage > 100 {
            return Err(DeviceError::InvalidPercentage(percentage));
        }
        let step = self.percentage_step(percentage);
        self.brightness_down(current, step)
    }

    /// The report that asks for the colour temperature in Kelvin.
    pub fn temperature_in_kelvin_query(&self) -> (r: [u8; 20])
        ensures
            r@ == command_report(spec_opcode_group(self.model()), OPCODE_GET_TEMPERATURE, seq![]),
    {
        generate_get_temperature_in_kelvin_bytes(&self.device_type)
    }

    /// The report that sets the colour temperature in Kelvin, or
    /// `InvalidTemperature` when the value lies outside the range or is not a
    /// multiple of 100.
    pub fn set_temperature_in_kelvin(&self, temperature_in_kelvin: u16) -> (r: DeviceResult<
        [u8; 20],
    >)
        ensures
            report_view(r) == temperature_outcome(self.model(), temperature_in_kelvin),
    {
        if temperature_in_kelvin < self.minimum_temperature_in_kelvin()
            || temperature_in_kelvin > self.maximum_temperature_in_kelvin() || temperature_in_kelvin
            % 100 != 0 {
            return Err(DeviceError::InvalidTemperature(temperature_in_kelvin));
        }
        Ok(generate_set_temperature_in_kelvin_bytes(&self.device_type, temperature_in_kelvin))
    }

    /// The report that raises the colour temperature from `current` by
    /// `amount` Kelvin; past the maximum is `InvalidTemperature`.
    pub fn temperature_up(&self, current: u16, amount: u16) -> (r: DeviceResult<[u8; 20]>)
        ensures
            report_view(r) == temperature_outcome(self.model(), add_capped(current, amount)),
    {
        self.set_temperature_in_kelvin(add_capped_u16(current, amount))
    }

    /// The report that lowers the colour temperature from `current` by
    /// `amount` Kelvin; below the minimum is `InvalidTemperature`.
    pub fn temperature_down(&self, current: u16, amount: u16) -> (r: DeviceResult<[u8; 20]>)
        ensures
            report_view(r) == temperature_outcome(self.model(), sub_floored(current, amount)),
    {
        self.set_temperature_in_kelvin(sub_floored_u16(current, amount))
    }

    /// The report that asks whether the back panel is on;
    /// `UnsupportedDeviceType` on a model without one.
    pub fn is_back_on_query(&self) -> (r: DeviceResult<[u8; 20]>)
        ensures
            has_back_side(self.model()) ==> report_view(r) == Ok::<Seq<u8>, DeviceError>(
                command_report(GROUP_BACK, OPCODE_GET_BACK_ON, seq![]),
            ),
            !has_back_side(self.model()) ==> r == Err::<[u8; 20], _>(
                DeviceError::UnsupportedDeviceType,
            ),
    {
        if !self.device_type.has_back_side() {
            return Err(DeviceError::UnsupportedDeviceType);
        }
        Ok(generate_is_back_on_bytes())
    }

    /// The report that switches the back panel on or off;
    /// `UnsupportedDeviceType` on a model without one.
    pub fn set_back_on(&self, on: bool) -> (r: DeviceResult<[u8; 20]>)
        ensures
            has_back_side(self.model()) ==> report_view(r) == Ok::<Seq<u8>, DeviceError>(
                command_report(GROUP_BACK, OPCODE_SET_BACK_ON, seq![if on { 1u8 } else { 0u8 }]),
            ),
            !has_back_side(self.model()) ==> r == Err::<[u8; 20], _>(
                DeviceError::UnsupportedDeviceType,
            ),
    {
        if !self.device_type.has_back_side() {
            return Err(DeviceError::UnsupportedDeviceType);
        }
        Ok(generate_set_back_on_bytes(on))
    }

    /// The report that asks for the back panel brightness percentage;
    /// `UnsupportedDeviceType` on a model without a back panel.
    pub fn back_brightness_percentage_query(&self) -> (r: DeviceResult<[u8; 20]>)
        ensures
            has_back_side(self.model()) ==> report_view(r) == Ok::<Seq<u8>, DeviceError>(
                command_report(GROUP_BACK, OPCODE_GET_BACK_BRIGHTNESS, seq![]),
            ),
            !has_back_side(self.model()) ==> r == Err::<[u8; 20], _>(
                DeviceError::UnsupportedDeviceType,
            ),
    {
        if !self.device_type.has_back_side() {
            return Err(DeviceError::UnsupportedDeviceType);
        }
        Ok(generate_get_back_brightness_bytes())
    }

    /// The report that sets the back panel brightness percentage:
    /// `UnsupportedDeviceType` on a model without a back panel, else
    /// `InvalidPercentage` for 0 or above 100.
    pub fn set_back_brightness_percentage(&self, percentage: u8) -> (r: DeviceResult<[u8; 20]>)
        ensures
            report_view(r) == back_brightness_outcome(self.model(), percentage),
    {
        if !self.device_type.has_back_side() {
            return Err(DeviceError::UnsupportedDeviceType);
        }
        if percentage == 0 || percentage > 100 {
            return Err(DeviceError::InvalidPercentage(percentage));
        }
        Ok(generate_set_back_brightness_percentage_bytes(percentage))
    }

    /// The report that raises the back panel brightness from `current` by
    /// `amount` percentage points; past 100 is `InvalidPercentage`.
    pub fn back_brightness_up(&self, current: u8, amount: u8) -> (r: DeviceResult<[u8; 20]>)
        ensures
            report_view(r) == back_brightness_outcome(
                self.model(),
                if current + amount > u8::MAX { u8::MAX } else { (current + amount) as u8 },
            ),
    {
        let target: u8 = if current as u16 + amount as u16 > 0xff {
            0xff
        } else {
            current + amount
        };
        self.set_back_brightness_percentage(target)
    }

    /// The report that lowers the back panel brightness from `current` by
    /// `amount` percentage points; reaching 0 is `InvalidPercentage`.
    pub fn back_brightness_down(&self, current: u8, amount: u8) -> (r: DeviceResult<[u8; 20]>)
        ensures
            report_view(r) == back_brightness_outcome(
                self.model(),
                if current < amount { 0 } else { (current - amount) as u8 },
            ),
    {
        let target: u8 = if current < amount {
            0
        } else {
            current - amount
        };
        self.set_back_brightness_percentage(target)
    }

    /// The two reports that colour one back panel zone: the colour, with
    /// each channel raised to at least 1, then the commit that applies it.
    /// `UnsupportedDeviceType` on a model without a back panel, else
    /// `InvalidZone` outside zones 1 to 7.
    pub fn set_back_color(&self, zone: u8, red: u8, green: u8, blue: u8) -> (r: DeviceResult<
        ([u8; 20], [u8; 20]),
    >)
        ensures
            !has_back_side(self.model()) ==> r matches Err(DeviceError::UnsupportedDeviceType),
            has_back_side(self.model()) && !(1 <= zone <= BACK_ZONES) ==> (r matches Err(
                DeviceError::InvalidZone(z),
            ) && z == zone),
            has_back_side(self.model()) && 1 <= zone <= BACK_ZONES ==> (r matches Ok(reports)
                && reports.0@ == command_report(
                GROUP_BACK_COLOR,
                OPCODE_SET_BACK_COLOR,
                seq![zone, channel(red), channel(green), channel(blue)],
            ) && reports.1@ == command_report(GROUP_BACK_COLOR, OPCODE_COMMIT_BACK_COLOR, seq![])),
    {
        if !self.device_type.has_back_side() {
            return Err(DeviceError::UnsupportedDeviceType);
        }
        if zone == 0 || zone > BACK_ZONES {
            return Err(DeviceError::InvalidZone(zone));
        }
        let color = generate_set_back_color_bytes(
            zone,
            if red == 0 { 1 } else { red },
            if green == 0 { 1 } else { green },
            if blue == 0 { 1 } else { blue },
        );
        Ok((color, generate_commit_back_color_bytes()))
    }
}

} // verus!
