use vstd::prelude::*;

use crate::device::{
    device_views, display_name, max_lumen, min_lumen, supported_devices, Device,
    DeviceDescriptor, DeviceType, Litra, MAXIMUM_TEMPERATURE_IN_KELVIN,
    MINIMUM_TEMPERATURE_IN_KELVIN,
};

verus! {

/// Why a set of device selectors picked no device to work on.
#[derive(Debug, Clone, Copy, PartialEq, Eq, Structural)]
pub enum SelectionError {
    /// More than one of serial number, path and model was given.
    MultipleFilterSpecified,
    /// No device matched.
    DeviceNotFound,
}

/// How many of the optional selectors are given.
pub open spec fn filter_count(
    serial_number: Option<&str>,
    device_path: Option<&str>,
    device_type: Option<&DeviceType>,
) -> int {
    (if serial_number is Some { 1int } else { 0 }) + (if device_path is Some { 1int } else { 0 }) + (
    if device_type is Some { 1int } else { 0 })
}

/// Whether an enumerated light passes the selectors that can be checked
/// before it is opened: a path, when given, decides alone; else a model,
/// when given, must match. A serial number is checked after opening.
pub open spec fn passes_filters(
    info: DeviceDescriptor,
    model: DeviceType,
    device_path: Option<&str>,
    device_type: Option<&DeviceType>,
) -> bool {
    match device_path {
        Some(p) => info.path@ == p@,
        None => match device_type {
            Some(t) => model == *t,
            None => true,
        },
    }
}

/// The lights of a sequence that pass the selectors, in order.
pub open spec fn filtered(
    devices: Seq<(DeviceDescriptor, DeviceType)>,
    device_path: Option<&str>,
    device_type: Option<&DeviceType>,
) -> Seq<(DeviceDescriptor, DeviceType)>
    decreases devices.len(),
{
    if devices.len() == 0 {
        seq![]
    } else {
        let rest = filtered(devices.drop_last(), device_path, device_type);
        let last = devices.last();
        if passes_filters(last.0, last.1, device_path, device_type) {
            rest.push(last)
        } else {
            rest
        }
    }
}

/// Rejects more than one selector at a time.
pub fn validate_single_filter(
    serial_number: Option<&str>,
    device_path: Option<&str>,
    device_type: Option<&DeviceType>,
) -> (r: Result<(), SelectionError>)
    ensures
        filter_count(serial_number, device_path, device_type) > 1 <==> r == Err::<(), _>(
            SelectionError::MultipleFilterSpecified,
        ),
        filter_count(serial_number, device_path, device_type) <= 1 <==> r is Ok,
{
    let filter_count: usize = (if serial_number.is_some() {
        1
    } else {
        0
    }) + (if device_path.is_some() {
        1
    } else {
        0
    }) + (if device_type.is_some() {
        1
    } else {
        0
    });
    if filter_count > 1 {
        Err(SelectionError::MultipleFilterSpecified)
    } else {
        Ok(())
    }
}

/// Whether an enumerated light passes the path and model selectors.
pub fn check_device_filters(
    device: &Device,
    device_path: Option<&str>,
    device_type: Option<&DeviceType>,
) -> (r: bool)
    ensures
        r == passes_filters(device.info(), device.model(), device_path, device_type),
{
    if let Some(path) = device_path {
        return device.device_path().to_owned() == path.to_owned();
    }
    if let Some(expected_type) = device_type {
        if device.device_type() != *expected_type {
            return false;
        }
    }
    true
}

/// The supported lights of a snapshot that pass the path and model
/// selectors, in enumeration order; `MultipleFilterSpecified` when more than
/// one selector is given. A serial number selector keeps every light here:
/// it is checked, with `serial_matches`, once a light is opened.
pub fn matching_devices(
    context: &Litra,
    serial_number: Option<&str>,
    device_path: Option<&str>,
    device_type: Option<&DeviceType>,
) -> (r: Result<Vec<Device>, SelectionError>)
    ensures
        filter_count(serial_number, device_path, device_type) > 1 ==> r == Err::<Vec<Device>, _>(
            SelectionError::MultipleFilterSpecified,
        ),
        filter_count(serial_number, device_path, device_type) <= 1 ==> (r matches Ok(v)
            && device_views(v@) == filtered(supported_devices(context@), device_path, device_type)),
{
    validate_single_filter(serial_number, device_path, device_type)?;
    let candidates = context.get_connected_devices();
    let ghost all = device_views(candidates@);
    let mut r: Vec<Device> = Vec::new();
    let mut i: usize = 0;
    while i < candidates.len()
        invariant
            i <= candidates@.len(),
            all == device_views(candidates@),
            device_views(r@) == filtered(all.subrange(0, i as int), device_path, device_type),
        decreases candidates@.len() - i,
    {
        let ghost prefix = all.subrange(0, i as int + 1);
        assert(prefix.drop_last() =~= all.subrange(0, i as int));
        if check_device_filters(&candidates[i], device_path, device_type) {
            r.push(candidates[i].clone());
            assert(device_views(r@) =~= filtered(prefix, device_path, device_type));
        }
        i = i + 1;
    }
    assert(all.subrange(0, i as int) =~= all);
    Ok(r)
}

/// Whether an opened light is kept for a serial number selector: always
/// when none is given, else only when the light reports that serial number.
pub fn serial_matches(requested: Option<&str>, actual: Option<&str>) -> (r: bool)
    ensures
        r == match requested {
            None => true,
            Some(s) => actual matches Some(a) && a@ == s@,
        },
{
    match requested {
        None => true,
        Some(s) => match actual {
            Some(a) => a.to_owned() == s.to_owned(),
            None => false,
        },
    }
}

/// What was learnt of an opened light by querying it: the serial number if
/// it has one, and each status value whose query succeeded.
#[derive(Debug)]
pub struct DeviceStatus {
    /// The light that was opened.
    pub device: Device,
    /// Its serial number, if it reported one.
    pub serial_number: Option<String>,
    /// Whether it is on, if the query succeeded.
    pub is_on: Option<bool>,
    /// Its brightness in Lumen, if the query succeeded.
    pub brightness_in_lumen: Option<u16>,
    /// Its colour temperature in Kelvin, if the query succeeded.
    pub temperature_in_kelvin: Option<u16>,
}

/// A light as the device listing shows it.
#[derive(Debug)]
pub struct DeviceInfo {
    /// Serial number, or `UNKNOWN`.
    pub serial_number: String,
    /// Path by which it is opened.
    pub device_path: String,
    /// Name of its model.
    pub device_type: String,
    /// Whether it is on.
    pub is_on: bool,
    /// Brightness in Lumen.
    pub brightness_in_lumen: u16,
    /// Colour temperature in Kelvin.
    pub temperature_in_kelvin: u16,
    /// Lowest brightness of the model.
    pub minimum_brightness_in_lumen: u16,
    /// Highest brightness of the model.
    pub maximum_brightness_in_lumen: u16,
    /// Lowest colour temperature of the model.
    pub minimum_temperature_in_kelvin: u16,
    /// Highest colour temperature of the model.
    pub maximum_temperature_in_kelvin: u16,
}

/// Whether every status query of a light succeeded.
pub open spec fn status_complete(s: DeviceStatus) -> bool {
    s.is_on is Some && s.brightness_in_lumen is Some && s.temperature_in_kelvin is Some
}

/// The lights whose status queries all succeeded, in order.
pub open spec fn complete_statuses(s: Seq<DeviceStatus>) -> Seq<DeviceStatus>
    decreases s.len(),
{
    if s.len() == 0 {
        seq![]
    } else {
        let rest = complete_statuses(s.drop_last());
        if status_complete(s.last()) {
            rest.push(s.last())
        } else {
            rest
        }
    }
}

/// Whether a listing entry shows a light's status.
pub open spec fn describes(info: DeviceInfo, s: DeviceStatus) -> bool {
    let model = s.device.model();
    &&& info.serial_number@ == match s.serial_number {
        Some(n) => n@,
        None => "UNKNOWN"@,
    }
    &&& info.device_path@ == s.device.info().path@
    &&& info.device_type@ == display_name(model)
    &&& Some(info.is_on) == s.is_on
    &&& Some(info.brightness_in_lumen) == s.brightness_in_lumen
    &&& Some(info.temperature_in_kelvin) == s.temperature_in_kelvin
    &&& info.minimum_brightness_in_lumen == min_lumen(model)
    &&& info.maximum_brightness_in_lumen == max_lumen(model)
    &&& info.minimum_temperature_in_kelvin == MINIMUM_TEMPERATURE_IN_KELVIN
    &&& info.maximum_temperature_in_kelvin == MAXIMUM_TEMPERATURE_IN_KELVIN
}

/// The listing entry of a light whose status queries all succeeded.
fn device_info_of(s: &DeviceStatus) -> (r: DeviceInfo)
    requires
        status_complete(*s),
    ensures
        describes(r, *s),
{
    let handle = crate::session::DeviceHandle::new(s.device.device_type());
    let serial_number = match &s.serial_number {
        Some(n) => n.clone(),
        None => "UNKNOWN".to_owned(),
    };
    DeviceInfo {
        serial_number,
        device_path: s.device.device_path().to_owned(),
        device_type: s.device.device_type().to_string(),
        is_on: s.is_on.unwrap(),
        brightness_in_lumen: s.brightness_in_lumen.unwrap(),
        temperature_in_kelvin: s.temperature_in_kelvin.unwrap(),
        minimum_brightness_in_lumen: handle.minimum_brightness_in_lumen(),
        maximum_brightness_in_lumen: handle.maximum_brightness_in_lumen(),
        minimum_temperature_in_kelvin: handle.minimum_temperature_in_kelvin(),
        maximum_temperature_in_kelvin: handle.maximum_temperature_in_kelvin(),
    }
}

/// The device listing: one entry for each opened light whose status
/// queries all succeeded, in order; a light with a failed query is left out.
pub fn get_connected_devices(statuses: &Vec<DeviceStatus>) -> (r: Vec<DeviceInfo>)
    ensures
        r@.len() == complete_statuses(statuses@).len(),
        forall|i: int|
            0 <= i < r@.len() ==> describes(#[trigger] r@[i], complete_statuses(statuses@)[i]),
{
    let mut r: Vec<DeviceInfo> = Vec::new();
    let mut i: usize = 0;
    while i < statuses.len()
        invariant
            i <= statuses@.len(),
            r@.len() == complete_statuses(statuses@.subrange(0, i as int)).len(),
            forall|j: int|
                0 <= j < r@.len() ==> describes(
                    #[trigger] r@[j],
                    complete_statuses(statuses@.subrange(0, i as int))[j],
                ),
        decreases statuses@.len() - i,
    {
        let ghost prefix = statuses@.subrange(0, i as int + 1);
        assert(prefix.drop_last() =~= statuses@.subrange(0, i as int));
        let s = &statuses[i];
        if s.is_on.is_some() && s.brightness_in_lumen.is_some() && s.temperature_in_kelvin.is_some() {
            let info = device_info_of(s);
            r.push(info);
        }
        i = i + 1;
    }
    assert(statuses@.subrange(0, i as int) =~= statuses@);
    r
}

/// How a power state is shown in words.
pub fn get_is_on_text(is_on: bool) -> (r: &'static str)
    ensures
        r@ == if is_on { "On"@ } else { "Off"@ },
{
    if is_on {
        "On"
    } else {
        "Off"
    }
}

/// How a power state is shown as a symbol: a lit bulb or a dark moon.
pub fn get_is_on_emoji(is_on: bool) -> (r: &'static str)
    ensures
        r@ == if is_on { "💡"@ } else { "🌑"@ },
{
    if is_on {
        "💡"
    } else {
        "🌑"
    }
}

} // verus!
