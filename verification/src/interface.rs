//! The interface for Voicemeeter remote: the session state and the
//! meaning of every status code the engine's calls return.
//!
//! The native calls themselves (loading the remote library, logging
//! in and out, querying the engine) are performed by the embedding
//! program, which hands each returned code to the functions here.

use vstd::prelude::*;

pub mod communication_login_logout;
pub mod device;
pub mod general_information;
pub mod get_levels;
pub mod macro_buttons;

use crate::interface::general_information::GetVoicemeeterInformationError;
use crate::types::VoicemeeterApplication;

verus! {

/// Interface for voicemeeter: the decision state of one session.
#[derive(Debug, Clone, Copy, PartialEq, Eq, Structural)]
pub struct VoicemeeterRemote {
    /// The type of the running Voicemeeter instance.
    pub program: VoicemeeterApplication,
}

impl VoicemeeterRemote {
    /// A session whose program type is not yet known.
    pub fn from_raw() -> (r: Self)
        ensures
            r.program == VoicemeeterApplication::Other,
    {
        Self { program: VoicemeeterApplication::Other }
    }

    /// Apply a freshly fetched program type to the session: a
    /// successful fetch replaces the program; an unreachable engine
    /// means no program is running; any other error is handed back.
    pub fn update_program(&mut self, fetched: Result<
        VoicemeeterApplication,
        GetVoicemeeterInformationError,
    >) -> (r: Result<(), GetVoicemeeterInformationError>)
        ensures
            fetched matches Ok(t) ==> (r is Ok && final(self).program == t),
            fetched == Err::<VoicemeeterApplication, _>(
                GetVoicemeeterInformationError::NoServer,
            ) ==> (r is Ok && final(self).program == VoicemeeterApplication::NotRunning),
            fetched matches Err(e) ==> (e != GetVoicemeeterInformationError::NoServer ==> (r
                == Err::<(), _>(e) && *final(self) == *old(self))),
    {
        match fetched {
            Ok(t) => {
                self.program = t;
                Ok(())
            },
            Err(GetVoicemeeterInformationError::NoServer) => {
                self.program = VoicemeeterApplication::NotRunning;
                Ok(())
            },
            Err(e) => Err(e),
        }
    }
}

} // verus!
