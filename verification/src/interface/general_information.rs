//! General information about the running Voicemeeter instance: the
//! application type and the version, decoded from the engine's
//! answers.

use vstd::prelude::*;

use crate::types::VoicemeeterApplication;

verus! {

/// Version of the Voicemeeter instance, one byte per component,
/// most significant first.
#[derive(Debug, Clone, Copy, PartialEq, Eq, Structural)]
pub struct VoicemeeterVersion(pub u8, pub u8, pub u8, pub u8);

/// Errors that can happen when querying information from Voicemeeter.
#[derive(Debug, Clone, PartialEq, Eq)]
pub enum GetVoicemeeterInformationError {
    /// Cannot get client.
    CannotGetClient,
    /// No server found.
    NoServer,
    /// An unexpected error code occurred.
    Other(i32),
    /// Got an unexpected response.
    InvalidResponse(String),
}

/// The meaning of the engine's answer when asked for the application
/// type: on code 0 the reported value names the running application;
/// -1 means the client cannot be reached, -2 no server, anything
/// else is unexpected.
pub fn voicemeeter_type_outcome(code: i32, reported: i32) -> (r: Result<
    VoicemeeterApplication,
    GetVoicemeeterInformationError,
>)
    ensures
        code == 0 ==> r == Ok::<_, GetVoicemeeterInformationError>(
            VoicemeeterApplication::spec_from_code(reported),
        ),
        code == -1 ==> r == Err::<VoicemeeterApplication, _>(
            GetVoicemeeterInformationError::CannotGetClient,
        ),
        code == -2 ==> r == Err::<VoicemeeterApplication, _>(
            GetVoicemeeterInformationError::NoServer,
        ),
        (code != 0 && code != -1 && code != -2) ==> r == Err::<VoicemeeterApplication, _>(
            GetVoicemeeterInformationError::Other(code),
        ),
{
    match code {
        0 => Ok(VoicemeeterApplication::from_code(reported)),
        -1 => Err(GetVoicemeeterInformationError::CannotGetClient),
        -2 => Err(GetVoicemeeterInformationError::NoServer),
        s => Err(GetVoicemeeterInformationError::Other(s)),
    }
}

/// The version components packed into the engine's version word, one
/// byte each, most significant first.
pub open spec fn spec_version_of(raw: i32) -> VoicemeeterVersion {
    VoicemeeterVersion(
        ((raw as u32) >> 24) as u8,
        (((raw as u32) >> 16) & 0xff) as u8,
        (((raw as u32) >> 8) & 0xff) as u8,
        ((raw as u32) & 0xff) as u8,
    )
}

/// The meaning of the engine's answer when asked for its version: on
/// code 0 the raw word carries the four version components in its
/// bytes, most significant first; -1 means the client cannot be
/// reached, -2 no server, anything else is unexpected.
pub fn voicemeeter_version_outcome(code: i32, raw: i32) -> (r: Result<
    VoicemeeterVersion,
    GetVoicemeeterInformationError,
>)
    ensures
        code == 0 ==> r == Ok::<_, GetVoicemeeterInformationError>(spec_version_of(raw)),
        code == -1 ==> r == Err::<VoicemeeterVersion, _>(
            GetVoicemeeterInformationError::CannotGetClient,
        ),
        code == -2 ==> r == Err::<VoicemeeterVersion, _>(
            GetVoicemeeterInformationError::NoServer,
        ),
        (code != 0 && code != -1 && code != -2) ==> r == Err::<VoicemeeterVersion, _>(
            GetVoicemeeterInformationError::Other(code),
        ),
{
    match code {
        0 => {
            let w = code_word(raw);
            Ok(VoicemeeterVersion(
                (w >> 24) as u8,
                ((w >> 16) & 0xff) as u8,
                ((w >> 8) & 0xff) as u8,
                (w & 0xff) as u8,
            ))
        },
        -1 => Err(GetVoicemeeterInformationError::CannotGetClient),
        -2 => Err(GetVoicemeeterInformationError::NoServer),
        s => Err(GetVoicemeeterInformationError::Other(s)),
    }
}

/// The version word reinterpreted as an unsigned value.
fn code_word(raw: i32) -> (r: u32)
    ensures
        r == raw as u32,
{
    raw as u32
}

} // verus!
