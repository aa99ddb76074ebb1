//! Registration of the audio callback: the fixed-size application
//! name buffer, the registration mode mask, the lifecycle state
//! machine, and the meaning of the engine's registration status
//! codes.
//!
//! The native `Register`/`Unregister` calls themselves live outside
//! this crate; the caller performs them and hands the returned status
//! code to the functions here.

use vstd::prelude::*;
use vstd::string::StringSliceAdditionalSpecFns;

verus! {

/// The mode mask a callback is registered with: which buffer-carrying
/// commands the engine sends it.
#[derive(Debug, Clone, Copy, PartialEq, Eq, Structural)]
pub struct AudioCallbackMode(pub i32);

impl AudioCallbackMode {
    /// Receive input-mode buffers.
    pub fn audio_in() -> (r: Self)
        ensures
            r.0 == 1,
    {
        AudioCallbackMode(1)
    }

    /// Receive output-mode buffers.
    pub fn audio_out() -> (r: Self)
        ensures
            r.0 == 2,
    {
        AudioCallbackMode(2)
    }

    /// Receive main-mode buffers.
    pub fn audio_main() -> (r: Self)
        ensures
            r.0 == 4,
    {
        AudioCallbackMode(4)
    }

    /// The union of two mode masks.
    pub fn with(self, other: Self) -> (r: Self)
        ensures
            r.0 == self.0 | other.0,
    {
        AudioCallbackMode(self.0 | other.0)
    }
}

/// The exact 64-byte, null-padded application name buffer the
/// engine's registration call expects.
pub fn make_application_name(name: &str) -> (r: Vec<u8>)
    requires
        name.spec_bytes().len() <= 64,
    ensures
        r@.len() == 64,
        forall|i: int| 0 <= i < name.spec_bytes().len() ==> r@[i] == name.spec_bytes()[i],
        forall|i: int| name.spec_bytes().len() <= i < 64 ==> r@[i] == 0u8,
{
    let bytes = name.as_bytes();
    let mut r: Vec<u8> = Vec::new();
    let mut i: usize = 0;
    while i < bytes.len()
        invariant
            i <= bytes@.len(),
            bytes@.len() <= 64,
            r@.len() == i,
            forall|k: int| 0 <= k < i ==> r@[k] == bytes@[k],
        decreases bytes@.len() - i,
    {
        r.push(bytes[i]);
        i = i + 1;
    }
    while i < 64
        invariant
            bytes@.len() <= i <= 64,
            r@.len() == i,
            forall|k: int| 0 <= k < bytes@.len() ==> r@[k] == bytes@[k],
            forall|k: int| bytes@.len() <= k < i ==> r@[k] == 0u8,
        decreases 64 - i,
    {
        r.push(0u8);
        i = i + 1;
    }
    r
}

/// Errors that can occur while registering an audio callback.
#[derive(Debug, Clone, PartialEq, Eq)]
pub enum AudioCallbackRegisterError {
    /// No server.
    NoServer,
    /// An application with an overlapping mode is already registered;
    /// carries the name handed back by the engine.
    AlreadyRegistered(String),
    /// The application name holds an interior null byte, so no
    /// C-compatible string can be made of it.
    NulError,
    /// An unknown error code occurred.
    Unexpected(i32),
}

/// Errors that can occur while unregistering the audio callback.
#[derive(Debug, Clone, PartialEq, Eq)]
pub enum AudioCallbackUnregisterError {
    /// No server.
    NoServer,
    /// The callback is already unregistered.
    AlreadyUnregistered,
    /// An unknown error code occurred.
    Unexpected(i32),
}

/// The registration lifecycle of the audio callback.
///
/// `register` moves `Unregistered` to `Registered`; `start` and
/// `stop` move between `Started` and `Stopped`; `unregister` returns
/// to `Unregistered` from any state.
#[derive(Debug, Clone, Copy, PartialEq, Eq, Structural)]
pub enum CallbackState {
    /// No callback is registered.
    Unregistered,
    /// A callback is registered, the stream has not started.
    Registered,
    /// The audio stream is running.
    Started,
    /// The audio stream is stopped.
    Stopped,
}

impl CallbackState {
    /// Apply the engine's answer to a registration call: code 0 is
    /// success, -1 no server, 1 already registered (carrying the
    /// name), anything else unexpected. Only success changes the
    /// state.
    pub fn register_outcome(&mut self, code: i32, name: String) -> (r: Result<
        (),
        AudioCallbackRegisterError,
    >)
        ensures
            code == 0 ==> (r is Ok && *final(self) == CallbackState::Registered),
            code != 0 ==> *final(self) == *old(self),
            code == -1 ==> r == Err::<(), _>(AudioCallbackRegisterError::NoServer),
            code == 1 ==> r == Err::<(), _>(AudioCallbackRegisterError::AlreadyRegistered(name)),
            (code != 0 && code != -1 && code != 1) ==> r == Err::<(), _>(
                AudioCallbackRegisterError::Unexpected(code),
            ),
    {
        match code {
            0 => {
                *self = CallbackState::Registered;
                Ok(())
            },
            -1 => Err(AudioCallbackRegisterError::NoServer),
            1 => Err(AudioCallbackRegisterError::AlreadyRegistered(name)),
            s => Err(AudioCallbackRegisterError::Unexpected(s)),
        }
    }

    /// Apply the engine's answer to an unregistration call: code 0 is
    /// success, -1 no server, 1 already unregistered, anything else
    /// unexpected. Success returns the state to `Unregistered`.
    pub fn unregister_outcome(&mut self, code: i32) -> (r: Result<
        (),
        AudioCallbackUnregisterError,
    >)
        ensures
            code == 0 ==> (r is Ok && *final(self) == CallbackState::Unregistered),
            code != 0 ==> *final(self) == *old(self),
            code == -1 ==> r == Err::<(), _>(AudioCallbackUnregisterError::NoServer),
            code == 1 ==> r == Err::<(), _>(AudioCallbackUnregisterError::AlreadyUnregistered),
            (code != 0 && code != -1 && code != 1) ==> r == Err::<(), _>(
                AudioCallbackUnregisterError::Unexpected(code),
            ),
    {
        match code {
            0 => {
                *self = CallbackState::Unregistered;
                Ok(())
            },
            -1 => Err(AudioCallbackUnregisterError::NoServer),
            1 => Err(AudioCallbackUnregisterError::AlreadyUnregistered),
            s => Err(AudioCallbackUnregisterError::Unexpected(s)),
        }
    }
}

} // verus!
