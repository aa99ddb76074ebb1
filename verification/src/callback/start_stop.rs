//! Starting and stopping the audio stream: the meaning of the
//! engine's status codes, applied to the lifecycle state machine.

use vstd::prelude::*;

use crate::callback::register::CallbackState;

verus! {

/// Errors that can occur while starting the audio stream.
#[derive(Debug, Clone, PartialEq, Eq)]
pub enum AudioCallbackStartError {
    /// No server.
    NoServer,
    /// No callback registered.
    NoCallbackRegistered,
    /// An unknown error code occurred.
    Unexpected(i32),
}

/// Errors that can occur while stopping the audio stream.
#[derive(Debug, Clone, PartialEq, Eq)]
pub enum AudioCallbackStopError {
    /// No server.
    NoServer,
    /// No callback registered.
    NoCallbackRegistered,
    /// An unknown error code occurred.
    Unexpected(i32),
}

impl CallbackState {
    /// Apply the engine's answer to a start call: code 0 is success,
    /// -1 no server, 1 no callback registered, anything else
    /// unexpected. Only success changes the state.
    pub fn start_outcome(&mut self, code: i32) -> (r: Result<(), AudioCallbackStartError>)
        ensures
            code == 0 ==> (r is Ok && *final(self) == CallbackState::Started),
            code != 0 ==> *final(self) == *old(self),
            code == -1 ==> r == Err::<(), _>(AudioCallbackStartError::NoServer),
            code == 1 ==> r == Err::<(), _>(AudioCallbackStartError::NoCallbackRegistered),
            (code != 0 && code != -1 && code != 1) ==> r == Err::<(), _>(
                AudioCallbackStartError::Unexpected(code),
            ),
    {
        match code {
            0 => {
                *self = CallbackState::Started;
                Ok(())
            },
            -1 => Err(AudioCallbackStartError::NoServer),
            1 => Err(AudioCallbackStartError::NoCallbackRegistered),
            s => Err(AudioCallbackStartError::Unexpected(s)),
        }
    }

    /// Apply the engine's answer to a stop call: code 0 is success,
    /// -1 no server, 1 no callback registered, anything else
    /// unexpected. Only success changes the state.
    pub fn stop_outcome(&mut self, code: i32) -> (r: Result<(), AudioCallbackStopError>)
        ensures
            code == 0 ==> (r is Ok && *final(self) == CallbackState::Stopped),
            code != 0 ==> *final(self) == *old(self),
            code == -1 ==> r == Err::<(), _>(AudioCallbackStopError::NoServer),
            code == 1 ==> r == Err::<(), _>(AudioCallbackStopError::NoCallbackRegistered),
            (code != 0 && code != -1 && code != 1) ==> r == Err::<(), _>(
                AudioCallbackStopError::Unexpected(code),
            ),
    {
        match code {
            0 => {
                *self = CallbackState::Stopped;
                Ok(())
            },
            -1 => Err(AudioCallbackStopError::NoServer),
            1 => Err(AudioCallbackStopError::NoCallbackRegistered),
            s => Err(AudioCallbackStopError::Unexpected(s)),
        }
    }
}

} // verus!
