//! Hardware device descriptions: the driver types and the meaning of
//! the engine's device enumeration status codes.

use vstd::prelude::*;

verus! {

/// Represents the type of an audio device.
#[derive(Debug, Clone, Copy, PartialEq, Eq)]
pub enum DeviceType {
    /// MME (Multimedia Extension) audio driver.
    Mme,
    /// WDM (Windows Driver Model) audio driver.
    Wdm,
    /// KS (Kernel Streaming) audio driver.
    Ks,
    /// ASIO (Audio Stream Input/Output) audio driver.
    Asio,
    /// Other audio device types not explicitly defined.
    Other(i32),
}

impl DeviceType {
    /// The device type for one of the engine's driver type codes:
    /// 1 is MME, 3 WDM, 4 KS, 5 ASIO.
    pub open spec fn spec_from_code(code: i32) -> DeviceType {
        if code == 1 {
            DeviceType::Mme
        } else if code == 3 {
            DeviceType::Wdm
        } else if code == 4 {
            DeviceType::Ks
        } else if code == 5 {
            DeviceType::Asio
        } else {
            DeviceType::Other(code)
        }
    }

    /// Decode a driver type code reported by the engine.
    pub fn from_code(code: i32) -> (r: DeviceType)
        ensures
            r == DeviceType::spec_from_code(code),
    {
        match code {
            1 => DeviceType::Mme,
            3 => DeviceType::Wdm,
            4 => DeviceType::Ks,
            5 => DeviceType::Asio,
            o => DeviceType::Other(o),
        }
    }
}

/// An audio input device.
#[derive(Debug, Clone, PartialEq, Eq)]
pub struct InputDevice {
    /// The type of the device.
    pub device_type: DeviceType,
    /// Device name.
    pub name: String,
    /// Hardware ID.
    pub hardware_id: String,
}

/// An audio output device.
#[derive(Debug, Clone, PartialEq, Eq)]
pub struct OutputDevice {
    /// The type of the device.
    pub device_type: DeviceType,
    /// Device name.
    pub name: String,
    /// Hardware ID.
    pub hardware_id: String,
}

/// Error when getting a device description.
#[derive(Debug, Clone, Copy, PartialEq, Eq, Structural)]
pub struct GetDeviceError(pub i32);

/// Error when counting the devices.
#[derive(Debug, Clone, Copy, PartialEq, Eq, Structural)]
pub struct GetTotalDeviceError(pub i32);

/// The meaning of the engine's answer when asked how many devices
/// exist: a non-negative answer is the count, a negative one an
/// error.
pub fn total_devices_outcome(code: i32) -> (r: Result<i32, GetTotalDeviceError>)
    ensures
        code >= 0 ==> r == Ok::<_, GetTotalDeviceError>(code),
        code < 0 ==> r == Err::<i32, _>(GetTotalDeviceError(code)),
{
    if code < 0 {
        Err(GetTotalDeviceError(code))
    } else {
        Ok(code)
    }
}

/// The meaning of the engine's answer when asked for one device's
/// description: 0 is success, anything else an error.
pub fn device_description_outcome(code: i32) -> (r: Result<(), GetDeviceError>)
    ensures
        code == 0 ==> r is Ok,
        code != 0 ==> r == Err::<(), _>(GetDeviceError(code)),
{
    match code {
        0 => Ok(()),
        s => Err(GetDeviceError(s)),
    }
}

} // verus!
