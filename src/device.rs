use vstd::prelude::*;

use crate::error::DeviceError;

verus! {

/// The model of a Litra light.
#[derive(Debug, Clone, Copy, PartialEq, Eq, Structural)]
pub enum DeviceType {
    /// Litra Glow streaming light.
    LitraGlow,
    /// Litra Beam streaming key light.
    LitraBeam,
    /// Litra Beam LX dual-sided light with a coloured back panel.
    LitraBeamLX,
}

/// The model that a product id stands for, if it is a supported light.
pub open spec fn model_of_product(product_id: u16) -> Option<DeviceType> {
    if product_id == 0xc900 {
        Some(DeviceType::LitraGlow)
    } else if product_id == 0xc901 || product_id == 0xb901 {
        Some(DeviceType::LitraBeam)
    } else if product_id == 0xc903 {
        Some(DeviceType::LitraBeamLX)
    } else {
        None
    }
}

/// Maps a product id to the model it identifies.
pub fn device_type_from_product_id(product_id: u16) -> (r: Option<DeviceType>)
    ensures
        r == model_of_product(product_id),
{
    match product_id {
        0xc900 => Some(DeviceType::LitraGlow),
        0xc901 => Some(DeviceType::LitraBeam),
        0xb901 => Some(DeviceType::LitraBeam),
        0xc903 => Some(DeviceType::LitraBeamLX),
        _ => None,
    }
}

/// The group byte that a model's front-light reports carry.
pub open spec fn spec_opcode_group(device_type: DeviceType) -> u8 {
    match device_type {
        DeviceType::LitraGlow | DeviceType::LitraBeam => 0x04,
        DeviceType::LitraBeamLX => 0x06,
    }
}

/// The group byte that a model's front-light reports carry.
pub fn opcode_group(device_type: &DeviceType) -> (r: u8)
    ensures
        r == spec_opcode_group(*device_type),
{
    match device_type {
        DeviceType::LitraGlow | DeviceType::LitraBeam => 0x04,
        DeviceType::LitraBeamLX => 0x06,
    }
}

/// Vendor id of Logitech.
pub const VENDOR_ID: u16 = 0x046d;
/// HID usage page of the lights' vendor-defined control channel.
pub const USAGE_PAGE: u16 = 0xff43;

/// Lowest colour temperature of every model, in Kelvin.
pub const MINIMUM_TEMPERATURE_IN_KELVIN: u16 = 2700;
/// Highest colour temperature of every model, in Kelvin.
pub const MAXIMUM_TEMPERATURE_IN_KELVIN: u16 = 6500;

/// The model of a supported light with the given ids, if any.
pub open spec fn model_of(vendor_id: u16, product_id: u16, usage_page: u16) -> Option<DeviceType> {
    if vendor_id == VENDOR_ID && usage_page == USAGE_PAGE {
        model_of_product(product_id)
    } else {
        None
    }
}

/// Lowest brightness of a model, in Lumen.
pub open spec fn min_lumen(device_type: DeviceType) -> u16 {
    match device_type {
        DeviceType::LitraGlow => 20,
        DeviceType::LitraBeam | DeviceType::LitraBeamLX => 30,
    }
}

/// Highest brightness of a model, in Lumen.
pub open spec fn max_lumen(device_type: DeviceType) -> u16 {
    match device_type {
        DeviceType::LitraGlow => 250,
        DeviceType::LitraBeam | DeviceType::LitraBeamLX => 400,
    }
}

/// Whether a model has a coloured back panel.
pub open spec fn has_back_side(device_type: DeviceType) -> bool {
    device_type == DeviceType::LitraBeamLX
}

/// The name a user gives for a model: `glow`, `beam` or `beam_lx`.
pub open spec fn model_named(name: Seq<char>) -> Option<DeviceType> {
    if name == "glow"@ {
        Some(DeviceType::LitraGlow)
    } else if name == "beam"@ {
        Some(DeviceType::LitraBeam)
    } else if name == "beam_lx"@ {
        Some(DeviceType::LitraBeamLX)
    } else {
        None
    }
}

/// The name under which a model is shown.
pub open spec fn display_name(device_type: DeviceType) -> Seq<char> {
    match device_type {
        DeviceType::LitraGlow => "Litra Glow"@,
        DeviceType::LitraBeam => "Litra Beam"@,
        DeviceType::LitraBeamLX => "Litra Beam LX"@,
    }
}

impl DeviceType {
    /// Whether this model has a coloured back panel.
    pub fn has_back_side(&self) -> (r: bool)
        ensures
            r == has_back_side(*self),
    {
        match self {
            DeviceType::LitraBeamLX => true,
            _ => false,
        }
    }

    /// The model that a user names: exactly `glow`, `beam` or `beam_lx`.
    pub fn from_name(name: &str) -> (r: Option<DeviceType>)
        ensures
            r == model_named(name@),
    {
        let name = name.to_owned();
        if name == "glow".to_owned() {
            Some(DeviceType::LitraGlow)
        } else if name == "beam".to_owned() {
            Some(DeviceType::LitraBeam)
        } else if name == "beam_lx".to_owned() {
            Some(DeviceType::LitraBeamLX)
        } else {
            None
        }
    }

    /// The name under which this model is shown, such as `Litra Glow`.
    pub fn to_string(&self) -> (r: String)
        ensures
            r@ == display_name(*self),
    {
        match self {
            DeviceType::LitraGlow => "Litra Glow".to_owned(),
            DeviceType::LitraBeam => "Litra Beam".to_owned(),
            DeviceType::LitraBeamLX => "Litra Beam LX".to_owned(),
        }
    }
}

/// Resolves the ids of a HID device to the model of a supported light:
/// `None` unless the vendor and usage page are Logitech's and the product id
/// is a known one.
pub fn resolve_device_type(vendor_id: u16, product_id: u16, usage_page: u16) -> (r: Option<
    DeviceType,
>)
    ensures
        r == model_of(vendor_id, product_id, usage_page),
{
    if vendor_id != VENDOR_ID || usage_page != USAGE_PAGE {
        return None;
    }
    device_type_from_product_id(product_id)
}

/// What enumeration tells of a HID device, before it is opened.
#[derive(Debug)]
pub struct DeviceDescriptor {
    /// USB vendor id.
    pub vendor_id: u16,
    /// USB product id.
    pub product_id: u16,
    /// HID usage page of the interface.
    pub usage_page: u16,
    /// Platform-specific path by which the device is opened.
    pub path: String,
    /// Serial number, where enumeration reports one.
    pub serial_number: Option<String>,
}

/// Copies an optional string.
fn clone_optional(s: &Option<String>) -> (r: Option<String>)
    ensures
        r == *s,
{
    match s {
        Some(v) => Some(v.clone()),
        None => None,
    }
}

impl Clone for DeviceDescriptor {
    fn clone(&self) -> (r: Self)
        ensures
            r == *self,
    {
        DeviceDescriptor {
            vendor_id: self.vendor_id,
            product_id: self.product_id,
            usage_page: self.usage_page,
            path: self.path.clone(),
            serial_number: clone_optional(&self.serial_number),
        }
    }
}

/// A supported light found by enumeration, not yet opened.
#[derive(Debug)]
pub struct Device {
    device_info: DeviceDescriptor,
    device_type: DeviceType,
}

impl Clone for Device {
    fn clone(&self) -> (r: Self)
        ensures
            r == *self,
    {
        Device { device_info: self.device_info.clone(), device_type: self.device_type }
    }
}

impl Device {
    /// What enumeration told of this device.
    pub closed spec fn info(&self) -> DeviceDescriptor {
        self.device_info
    }

    /// The model of this device.
    pub closed spec fn model(&self) -> DeviceType {
        self.device_type
    }

    /// Accepts a descriptor of a supported light, with the model its ids
    /// name; any other device is `Unsupported`.
    pub fn try_from(device_info: DeviceDescriptor) -> (r: Result<Device, DeviceError>)
        ensures
            model_of(device_info.vendor_id, device_info.product_id, device_info.usage_page)
                matches Some(t) ==> (r matches Ok(d) && d.info() == device_info && d.model() == t),
            model_of(device_info.vendor_id, device_info.product_id, device_info.usage_page)
                is None ==> r matches Err(DeviceError::Unsupported),
    {
        match resolve_device_type(
            device_info.vendor_id,
            device_info.product_id,
            device_info.usage_page,
        ) {
            Some(device_type) => Ok(Device { device_info, device_type }),
            None => Err(DeviceError::Unsupported),
        }
    }

    /// What enumeration told of this device.
    pub fn device_info(&self) -> (r: &DeviceDescriptor)
        ensures
            *r == self.info(),
    {
        &self.device_info
    }

    /// The model of this device.
    pub fn device_type(&self) -> (r: DeviceType)
        ensures
            r == self.model(),
    {
        self.device_type
    }

    /// The path by which this device is opened.
    pub fn device_path(&self) -> (r: &str)
        ensures
            r@ == self.info().path@,
    {
        self.device_info.path.as_str()
    }
}

/// The supported lights among enumerated devices, in enumeration order.
pub open spec fn supported_devices(infos: Seq<DeviceDescriptor>) -> Seq<(DeviceDescriptor, DeviceType)>
    decreases infos.len(),
{
    if infos.len() == 0 {
        seq![]
    } else {
        let last = infos.last();
        let rest = supported_devices(infos.drop_last());
        match model_of(last.vendor_id, last.product_id, last.usage_page) {
            Some(t) => rest.push((last, t)),
            None => rest,
        }
    }
}

/// The descriptor and model of each device of a sequence.
pub open spec fn device_views(devices: Seq<Device>) -> Seq<(DeviceDescriptor, DeviceType)> {
    devices.map_values(|d: Device| (d.info(), d.model()))
}

/// A snapshot of the HID devices that enumeration found.
#[derive(Debug)]
pub struct Litra {
    devices: Vec<DeviceDescriptor>,
}

impl View for Litra {
    type V = Seq<DeviceDescriptor>;

    closed spec fn view(&self) -> Seq<DeviceDescriptor> {
        self.devices@
    }
}

impl Litra {
    /// A context over the devices that one enumeration found.
    pub fn new(devices: Vec<DeviceDescriptor>) -> (r: Litra)
        ensures
            r@ == devices@,
    {
        Litra { devices }
    }

    /// The enumerated devices, supported or not.
    pub fn device_list(&self) -> (r: &Vec<DeviceDescriptor>)
        ensures
            r@ == self@,
    {
        &self.devices
    }

    /// The supported lights among the enumerated devices, in enumeration
    /// order.
    pub fn get_connected_devices(&self) -> (r: Vec<Device>)
        ensures
            device_views(r@) == supported_devices(self@),
    {
        let mut r: Vec<Device> = Vec::new();
        let mut i: usize = 0;
        while i < self.devices.len()
            invariant
                i <= self.devices@.len(),
                device_views(r@) == supported_devices(self.devices@.subrange(0, i as int)),
            decreases self.devices@.len() - i,
        {
            let info = self.devices[i].clone();
            let ghost prefix = self.devices@.subrange(0, i as int + 1);
            assert(prefix.drop_last() =~= self.devices@.subrange(0, i as int));
            assert(prefix.last() == info);
            match Device::try_from(info) {
                Ok(d) => {
                    r.push(d);
                    assert(device_views(r@) =~= supported_devices(prefix));
                },
                Err(_) => {},
            }
            i = i + 1;
        }
        assert(self.devices@.subrange(0, i as int) =~= self.devices@);
        r
    }
}

} // verus!
