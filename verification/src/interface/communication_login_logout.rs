//! Communication with and to Voicemeeter: the meaning of the login,
//! logout and run status codes.

use vstd::prelude::*;

use crate::types::VoicemeeterApplication;

verus! {

/// The status of the Voicemeeter instance at login.
#[derive(Debug, Clone, Copy, PartialEq, Eq, Structural)]
pub enum VoicemeeterStatus {
    /// Voicemeeter is launched.
    Launched,
    /// Voicemeeter is not launched.
    NotLaunched,
}

/// Errors that can happen when logging in.
#[derive(Debug, Clone, PartialEq, Eq)]
pub enum LoginError {
    /// The application has already logged in.
    AlreadyLoggedIn(VoicemeeterStatus),
    /// The login failed: a logout was expected before.
    LoginFailed,
    /// An unexpected error occurred.
    Unexpected(i32),
}

impl LoginError {
    /// Returns `true` if the login error is [`LoginFailed`](LoginError::LoginFailed).
    pub fn is_login_failed(&self) -> (r: bool)
        ensures
            r == (self matches LoginError::LoginFailed),
    {
        matches!(self, Self::LoginFailed)
    }

    /// Returns `true` if the login error is [`Unexpected`](LoginError::Unexpected).
    pub fn is_unexpected(&self) -> (r: bool)
        ensures
            r == (self matches LoginError::Unexpected(_)),
    {
        matches!(self, Self::Unexpected(..))
    }
}

/// Errors that can happen when logging out.
#[derive(Debug, Clone, PartialEq, Eq)]
pub enum LogoutError {
    /// Other remote handles still exist in this program, so the
    /// session must not log out yet.
    OtherRemotesExists,
    /// An unexpected error occurred.
    Unexpected(i32),
}

/// Errors that can happen when asking Voicemeeter to open.
#[derive(Debug, Clone, PartialEq, Eq)]
pub enum RunVoicemeeterError {
    /// Voicemeeter is not installed.
    NotInstalled,
    /// Unknown voicemeeter type.
    UnknownType,
    /// An unexpected error occurred.
    Other(i32),
}

/// The meaning of the engine's login status code: 0 means launched,
/// 1 not launched, -2 a failed login, anything else unexpected.
pub fn login_outcome(code: i32) -> (r: Result<VoicemeeterStatus, LoginError>)
    ensures
        code == 0 ==> r == Ok::<_, LoginError>(VoicemeeterStatus::Launched),
        code == 1 ==> r == Ok::<_, LoginError>(VoicemeeterStatus::NotLaunched),
        code == -2 ==> r == Err::<VoicemeeterStatus, _>(LoginError::LoginFailed),
        (code != 0 && code != 1 && code != -2) ==> r == Err::<VoicemeeterStatus, _>(
            LoginError::Unexpected(code),
        ),
{
    match code {
        0 => Ok(VoicemeeterStatus::Launched),
        1 => Ok(VoicemeeterStatus::NotLaunched),
        -2 => Err(LoginError::LoginFailed),
        s => Err(LoginError::Unexpected(s)),
    }
}

/// The meaning of the engine's logout status code: 0 means success,
/// anything else unexpected.
pub fn logout_outcome(code: i32) -> (r: Result<(), LogoutError>)
    ensures
        code == 0 ==> r is Ok,
        code != 0 ==> r == Err::<(), _>(LogoutError::Unexpected(code)),
{
    match code {
        0 => Ok(()),
        s => Err(LogoutError::Unexpected(s)),
    }
}

/// The meaning of the engine's answer when asked to open a
/// Voicemeeter application: 0 means success, -1 not installed, -2 an
/// unknown type, anything else unexpected.
pub fn run_voicemeeter_outcome(code: i32) -> (r: Result<(), RunVoicemeeterError>)
    ensures
        code == 0 ==> r is Ok,
        code == -1 ==> r == Err::<(), _>(RunVoicemeeterError::NotInstalled),
        code == -2 ==> r == Err::<(), _>(RunVoicemeeterError::UnknownType),
        (code != 0 && code != -1 && code != -2) ==> r == Err::<(), _>(
            RunVoicemeeterError::Other(code),
        ),
{
    match code {
        0 => Ok(()),
        -1 => Err(RunVoicemeeterError::NotInstalled),
        -2 => Err(RunVoicemeeterError::UnknownType),
        s => Err(RunVoicemeeterError::Other(s)),
    }
}

/// The numeric type code to hand the engine when asking it to open
/// the given application.
pub fn run_voicemeeter_code(program: VoicemeeterApplication) -> (r: i32)
    ensures
        r == program.spec_code(),
{
    program.code()
}

} // verus!
