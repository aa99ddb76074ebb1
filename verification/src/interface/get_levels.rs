//! Level and midi related decisions: which flat channel number a
//! level request addresses, and the meaning of the engine's level and
//! midi status codes.

use vstd::prelude::*;

pub use crate::types::{Device, LevelType};

verus! {

/// Errors that can happen when querying levels from Voicemeeter.
#[derive(Debug, Clone, PartialEq, Eq)]
pub enum GetLevelError {
    /// Cannot get client.
    CannotGetClient,
    /// No server found.
    NoServer,
    /// No level found.
    NoLevel,
    /// Level is out of range.
    OutOfRange,
    /// An unexpected error code occurred.
    Other(i32),
}

/// Errors that can happen when querying midi messages from
/// Voicemeeter.
#[derive(Debug, Clone, PartialEq, Eq)]
pub enum GetMidiMessageError {
    /// Cannot get client.
    CannotGetClient,
    /// No server found.
    NoServer,
    /// No midi data found.
    NoMidiData(i32),
    /// An unexpected error code occurred.
    Other(i32),
}

/// The meaning of the engine's level status code: 0 is success, -1
/// cannot get client, -2 no server, -3 no level, -4 out of range,
/// anything else unexpected. On success the level value the engine
/// wrote is meaningful.
pub fn level_outcome(code: i32) -> (r: Result<(), GetLevelError>)
    ensures
        code == 0 ==> r is Ok,
        code == -1 ==> r == Err::<(), _>(GetLevelError::CannotGetClient),
        code == -2 ==> r == Err::<(), _>(GetLevelError::NoServer),
        code == -3 ==> r == Err::<(), _>(GetLevelError::NoLevel),
        code == -4 ==> r == Err::<(), _>(GetLevelError::OutOfRange),
        (code != 0 && code != -1 && code != -2 && code != -3 && code != -4) ==> r == Err::<
            (),
            _,
        >(GetLevelError::Other(code)),
{
    match code {
        0 => Ok(()),
        -1 => Err(GetLevelError::CannotGetClient),
        -2 => Err(GetLevelError::NoServer),
        -3 => Err(GetLevelError::NoLevel),
        -4 => Err(GetLevelError::OutOfRange),
        s => Err(GetLevelError::Other(s)),
    }
}

/// The meaning of the engine's midi status code: a non-negative
/// answer is the number of bytes written, -1 cannot get client, -2
/// no server, -5 and -6 no midi data, anything else unexpected.
pub fn midi_message_outcome(code: i32) -> (r: Result<usize, GetMidiMessageError>)
    ensures
        code >= 0 ==> r == Ok::<_, GetMidiMessageError>(code as usize),
        code == -1 ==> r == Err::<usize, _>(GetMidiMessageError::CannotGetClient),
        code == -2 ==> r == Err::<usize, _>(GetMidiMessageError::NoServer),
        (code == -5 || code == -6) ==> r == Err::<usize, _>(GetMidiMessageError::NoMidiData(code)),
        (code < 0 && code != -1 && code != -2 && code != -5 && code != -6) ==> r == Err::<
            usize,
            _,
        >(GetMidiMessageError::Other(code)),
{
    if code >= 0 {
        Ok(code as usize)
    } else {
        match code {
            -1 => Err(GetMidiMessageError::CannotGetClient),
            -2 => Err(GetMidiMessageError::NoServer),
            -5 => Err(GetMidiMessageError::NoMidiData(-5)),
            -6 => Err(GetMidiMessageError::NoMidiData(-6)),
            s => Err(GetMidiMessageError::Other(s)),
        }
    }
}

} // verus!
