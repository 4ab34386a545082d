//! Input-device enumeration results and device selection.
//!
//! Selection: a non-empty requested id that matches an enumerated device
//! picks that device; otherwise the default input device is used; with no
//! default either, selection fails and no stream is created.

use vstd::prelude::*;
use crate::errors::DeviceError;
use crate::text::str_eq;

verus! {

/// One enumerated input device.
#[derive(Debug, Clone)]
pub struct AudioDevice {
    /// Stable identifier handed back on Start.
    pub id: String,
    /// Display name.
    pub name: String,
    /// Whether this is the system default input device.
    pub is_default: bool,
}

/// Mark the enumerated device names: each becomes a device whose id and
/// name are the reported name, flagged as default when it matches the
/// default device's name.
pub fn devices_from_names(names: &Vec<String>, default_name: &String) -> (devices: Vec<
    AudioDevice,
>)
    ensures
        devices@.len() == names@.len(),
        forall|i: int|
            0 <= i < names@.len() ==> {
                &&& (#[trigger] devices@[i]).id@ == names@[i]@
                &&& devices@[i].name@ == names@[i]@
                &&& devices@[i].is_default == (names@[i]@ == default_name@)
            },
{
    let mut devices: Vec<AudioDevice> = Vec::new();
    let mut i: usize = 0;
    while i < names.len()
        invariant
            i <= names@.len(),
            devices@.len() == i,
            forall|j: int|
                0 <= j < i ==> {
                    &&& (#[trigger] devices@[j]).id@ == names@[j]@
                    &&& devices@[j].name@ == names@[j]@
                    &&& devices@[j].is_default == (names@[j]@ == default_name@)
                },
        decreases names@.len() - i,
    {
        let name = &names[i];
        let is_default = str_eq(name.as_str(), default_name.as_str());
        devices.push(
            AudioDevice { id: name.clone(), name: name.clone(), is_default },
        );
        i = i + 1;
    }
    devices
}

/// Whether a non-empty id was requested and fails to match any
/// enumerated device name, so selection falls back to the default.
pub open spec fn spec_id_misses(device_id: &Option<String>, devices: Seq<AudioDevice>) -> bool {
    match *device_id {
        Option::Some(id) => id@.len() == 0 || forall|j: int|
            0 <= j < devices.len() ==> (#[trigger] devices[j]).name@ != id@,
        Option::None => true,
    }
}

/// Select the capture device: a non-empty requested id that matches an
/// enumerated device name picks the first such device; otherwise the
/// first default device; with no default either, selection fails and no
/// stream is created.
pub fn select_input_device(device_id: &Option<String>, devices: &Vec<AudioDevice>) -> (r: Result<
    usize,
    DeviceError,
>)
    ensures
        match r {
            Result::Ok(i) => i < devices@.len() && {
                ||| (match *device_id {
                    Option::Some(id) => id@.len() > 0 && devices@[i as int].name@ == id@ && forall|
                        j: int,
                    | 0 <= j < i ==> (#[trigger] devices@[j]).name@ != id@,
                    Option::None => false,
                })
                ||| (spec_id_misses(device_id, devices@) && devices@[i as int].is_default
                    && forall|j: int| 0 <= j < i ==> !(#[trigger] devices@[j]).is_default)
            },
            Result::Err(e) => e == DeviceError::NoInputDevice && spec_id_misses(
                device_id,
                devices@,
            ) && forall|j: int| 0 <= j < devices@.len() ==> !(#[trigger] devices@[j]).is_default,
        },
{
    if device_id.is_some() {
        let id: &String = device_id.as_ref().unwrap();
        if id.as_str().unicode_len() > 0 {
            let mut i: usize = 0;
            while i < devices.len()
                invariant
                    i <= devices@.len(),
                    *device_id == Option::Some(*id),
                    id@.len() > 0,
                    forall|j: int| 0 <= j < i ==> (#[trigger] devices@[j]).name@ != id@,
                decreases devices@.len() - i,
            {
                if str_eq(devices[i].name.as_str(), id.as_str()) {
                    return Result::Ok(i);
                }
                i = i + 1;
            }
        }
    }
    let mut i: usize = 0;
    while i < devices.len()
        invariant
            i <= devices@.len(),
            spec_id_misses(device_id, devices@),
            forall|j: int| 0 <= j < i ==> !(#[trigger] devices@[j]).is_default,
        decreases devices@.len() - i,
    {
        if devices[i].is_default {
            return Result::Ok(i);
        }
        i = i + 1;
    }
    Result::Err(DeviceError::NoInputDevice)
}

} // verus!
