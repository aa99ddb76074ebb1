//! Errors of the string parameter interface.

use vstd::prelude::*;

use crate::types::{Device, VoicemeeterApplication, ZIndex};

verus! {

/// A parameter index is out of range for the current program.
#[derive(Debug, Clone, PartialEq, Eq)]
pub struct OutOfRangeError {
    /// Name of the parameter base, i.e. "Strip" or "Bus".
    pub name: String,
    /// The index that was out of range.
    pub index: ZIndex,
    /// The current program.
    pub program: VoicemeeterApplication,
}

/// A device is invalid for the current program and parameter.
#[derive(Debug, Clone, Copy, PartialEq, Eq, Structural)]
pub struct DeviceError {
    /// The current program.
    pub program: VoicemeeterApplication,
    /// The device that was invalid.
    pub device: Device,
}

/// Invalid strip/bus type for a specific parameter.
#[derive(Debug, Clone, PartialEq, Eq)]
pub enum InvalidTypeError {
    /// The parameter needs a physical strip or bus.
    ExpectedPhysical {
        /// Name of the parameter base, i.e. "Strip" or "Bus".
        name: String,
        /// The index that was used.
        strip_index: ZIndex,
        /// The parameter that expected a physical strip or bus.
        parameter: String,
    },
    /// The parameter needs a virtual strip or bus.
    ExpectedVirtual {
        /// Name of the parameter base, i.e. "Strip" or "Bus".
        name: String,
        /// The index that was used.
        strip_index: ZIndex,
        /// The parameter that expected a virtual strip or bus.
        parameter: String,
    },
    /// A strip was expected.
    ExpectedStrip {
        /// The device received instead.
        device: Device,
    },
    /// A bus was expected.
    ExpectedBus {
        /// The device received instead.
        device: Device,
    },
}

/// The parameter needs another Voicemeeter program.
#[derive(Debug, Clone, PartialEq, Eq)]
pub struct InvalidVoicemeeterVersion {
    /// The programs the parameter exists on.
    pub expected: Vec<VoicemeeterApplication>,
    /// The program that was found.
    pub found: VoicemeeterApplication,
    /// The parameter that was addressed.
    pub parameter: String,
}

/// Invalid parameter.
#[derive(Debug, Clone, PartialEq, Eq)]
pub enum ParameterError {
    /// The program is not compatible with the parameter.
    Version(InvalidVoicemeeterVersion),
    /// The strip or bus type is not compatible with the parameter.
    Type(InvalidTypeError),
    /// The parameter index is out of range.
    OutOfRange(OutOfRangeError),
    /// The device is invalid for the parameter.
    Device(DeviceError),
}

} // verus!
