//! Macro button decisions: the status type and the meaning of the
//! engine's macro button status codes.

use vstd::prelude::*;

use crate::types::LogicalButton;

verus! {

/// Status of a macro button: `true` when pressed.
#[derive(Debug, Clone, Copy, PartialEq, Eq, Structural)]
pub struct MacroButtonStatus(pub bool);

/// The mode word for setting a macro button's state: the default
/// triggers the button's requests, state-only changes only what is
/// displayed, and trigger addresses the trigger state.
#[derive(Debug, Clone, Copy, PartialEq, Eq, Structural)]
pub enum MacroButtonMode {
    /// Set the state and run the button's requests.
    Default,
    /// Set only the displayed state.
    StateOnly,
    /// Address the trigger state.
    Trigger,
}

impl MacroButtonMode {
    /// The numeric mode word the engine expects.
    pub open spec fn spec_code(self) -> i32 {
        match self {
            MacroButtonMode::Default => 0,
            MacroButtonMode::StateOnly => 2,
            MacroButtonMode::Trigger => 3,
        }
    }

    /// The numeric mode word the engine expects.
    pub fn code(&self) -> (r: i32)
        ensures
            r == self.spec_code(),
    {
        match self {
            MacroButtonMode::Default => 0,
            MacroButtonMode::StateOnly => 2,
            MacroButtonMode::Trigger => 3,
        }
    }
}

/// Errors that can happen when querying the macro button "dirty"
/// flag.
#[derive(Debug, Clone, PartialEq, Eq)]
pub enum IsMacroButtonDirtyError {
    /// Cannot get client.
    CannotGetClient,
    /// No server.
    NoServer,
    /// An unknown error code occurred.
    Other(i32),
}

/// Errors that can happen when getting a macro button status.
#[derive(Debug, Clone, PartialEq, Eq)]
pub enum GetMacroButtonStatusError {
    /// Cannot get client.
    CannotGetClient,
    /// No server.
    NoServer,
    /// Unknown parameter/button.
    UnknownParameter(LogicalButton),
    /// Structure mismatch between the button and the requested mode.
    StructureMismatch(LogicalButton, i32),
    /// An unknown error code occurred.
    Other(i32),
}

/// Errors that can happen when setting a macro button status.
#[derive(Debug, Clone, PartialEq, Eq)]
pub enum SetMacroButtonStatusError {
    /// Cannot get client.
    CannotGetClient,
    /// No server.
    NoServer,
    /// Unknown parameter/button.
    UnknownParameter(LogicalButton),
    /// Structure mismatch between the button and the requested mode.
    StructureMismatch(LogicalButton, i32),
    /// An unknown error code occurred.
    Other(i32),
}

/// The meaning of the engine's macro button dirty flag: 0 means
/// unchanged, a positive answer changed, -1 cannot get client, -2 no
/// server, anything else unexpected.
pub fn macrobutton_dirty_outcome(code: i32) -> (r: Result<bool, IsMacroButtonDirtyError>)
    ensures
        code == 0 ==> r == Ok::<_, IsMacroButtonDirtyError>(false),
        code > 0 ==> r == Ok::<_, IsMacroButtonDirtyError>(true),
        code == -1 ==> r == Err::<bool, _>(IsMacroButtonDirtyError::CannotGetClient),
        code == -2 ==> r == Err::<bool, _>(IsMacroButtonDirtyError::NoServer),
        (code < 0 && code != -1 && code != -2) ==> r == Err::<bool, _>(
            IsMacroButtonDirtyError::Other(code),
        ),
{
    if code == 0 {
        Ok(false)
    } else if code > 0 {
        Ok(true)
    } else {
        match code {
            -1 => Err(IsMacroButtonDirtyError::CannotGetClient),
            -2 => Err(IsMacroButtonDirtyError::NoServer),
            s => Err(IsMacroButtonDirtyError::Other(s)),
        }
    }
}

/// The meaning of the engine's answer when a macro button's status
/// was read: on code 0 `pressed` tells whether the engine reported
/// the exact value one; -1 cannot get client, -2 no server, -3 an
/// unknown button, -5 a structure mismatch for the given mode,
/// anything else unexpected.
pub fn get_macrobutton_outcome(code: i32, pressed: bool, button: LogicalButton, mode: i32) -> (r:
    Result<MacroButtonStatus, GetMacroButtonStatusError>)
    ensures
        code == 0 ==> r == Ok::<_, GetMacroButtonStatusError>(MacroButtonStatus(pressed)),
        code == -1 ==> r == Err::<MacroButtonStatus, _>(GetMacroButtonStatusError::CannotGetClient),
        code == -2 ==> r == Err::<MacroButtonStatus, _>(GetMacroButtonStatusError::NoServer),
        code == -3 ==> r == Err::<MacroButtonStatus, _>(
            GetMacroButtonStatusError::UnknownParameter(button),
        ),
        code == -5 ==> r == Err::<MacroButtonStatus, _>(
            GetMacroButtonStatusError::StructureMismatch(button, mode),
        ),
        (code != 0 && code != -1 && code != -2 && code != -3 && code != -5) ==> r == Err::<
            MacroButtonStatus,
            _,
        >(GetMacroButtonStatusError::Other(code)),
{
    match code {
        0 => Ok(MacroButtonStatus(pressed)),
        -1 => Err(GetMacroButtonStatusError::CannotGetClient),
        -2 => Err(GetMacroButtonStatusError::NoServer),
        -3 => Err(GetMacroButtonStatusError::UnknownParameter(button)),
        -5 => Err(GetMacroButtonStatusError::StructureMismatch(button, mode)),
        s => Err(GetMacroButtonStatusError::Other(s)),
    }
}

/// The meaning of the engine's answer when a macro button's status
/// was set: 0 is success; the error codes match the get case.
pub fn set_macrobutton_outcome(code: i32, button: LogicalButton, mode: i32) -> (r: Result<
    (),
    SetMacroButtonStatusError,
>)
    ensures
        code == 0 ==> r is Ok,
        code == -1 ==> r == Err::<(), _>(SetMacroButtonStatusError::CannotGetClient),
        code == -2 ==> r == Err::<(), _>(SetMacroButtonStatusError::NoServer),
        code == -3 ==> r == Err::<(), _>(SetMacroButtonStatusError::UnknownParameter(button)),
        code == -5 ==> r == Err::<(), _>(
            SetMacroButtonStatusError::StructureMismatch(button, mode),
        ),
        (code != 0 && code != -1 && code != -2 && code != -3 && code != -5) ==> r == Err::<
            (),
            _,
        >(SetMacroButtonStatusError::Other(code)),
{
    match code {
        0 => Ok(()),
        -1 => Err(SetMacroButtonStatusError::CannotGetClient),
        -2 => Err(SetMacroButtonStatusError::NoServer),
        -3 => Err(SetMacroButtonStatusError::UnknownParameter(button)),
        -5 => Err(SetMacroButtonStatusError::StructureMismatch(button, mode)),
        s => Err(SetMacroButtonStatusError::Other(s)),
    }
}

} // verus!
