//! The meaning of the engine's status codes when parameter values are
//! written.

use vstd::prelude::*;

use crate::parameters::ParameterName;

verus! {

/// Errors that can happen when setting a parameter.
#[derive(Debug, Clone, PartialEq, Eq)]
pub enum SetParameterError {
    /// Cannot get client.
    CannotGetClient,
    /// No server.
    NoServer,
    /// Unknown parameter; carries the name that was asked for.
    UnknownParameter(String),
    /// An unknown error code occurred.
    Other(i32),
}

/// Errors that can happen when setting parameters with a script.
#[derive(Debug, Clone, PartialEq, Eq)]
pub enum SetParametersError {
    /// A script error on the given line.
    ScriptError(usize),
    /// An error occurred when setting parameters.
    SetParameterError(SetParameterError),
}

/// The meaning of the engine's answer when a parameter value was
/// written: 0 is success, -1 cannot get client, -2 no server, -3 an
/// unknown parameter, anything else unexpected.
pub fn set_parameter_outcome(code: i32, param: &ParameterName) -> (r: Result<
    (),
    SetParameterError,
>)
    ensures
        code == 0 ==> r is Ok,
        code == -1 ==> r == Err::<(), _>(SetParameterError::CannotGetClient),
        code == -2 ==> r == Err::<(), _>(SetParameterError::NoServer),
        code == -3 ==> (r matches Err(e) && e matches SetParameterError::UnknownParameter(n) && n@
            == param@),
        (code != 0 && code != -1 && code != -2 && code != -3) ==> r == Err::<(), _>(
            SetParameterError::Other(code),
        ),
{
    match code {
        0 => Ok(()),
        -1 => Err(SetParameterError::CannotGetClient),
        -2 => Err(SetParameterError::NoServer),
        -3 => Err(SetParameterError::UnknownParameter(param.0.clone())),
        s => Err(SetParameterError::Other(s)),
    }
}

/// The meaning of the engine's answer to a parameter script: a
/// positive answer is the script line that failed, 0 is success, -1
/// cannot get client, -2 no server, anything else unexpected.
pub fn set_parameters_outcome(code: i32) -> (r: Result<(), SetParametersError>)
    ensures
        code == 0 ==> r is Ok,
        code > 0 ==> r == Err::<(), _>(SetParametersError::ScriptError(code as usize)),
        code == -1 ==> r == Err::<(), _>(
            SetParametersError::SetParameterError(SetParameterError::CannotGetClient),
        ),
        code == -2 ==> r == Err::<(), _>(
            SetParametersError::SetParameterError(SetParameterError::NoServer),
        ),
        (code < 0 && code != -1 && code != -2) ==> r == Err::<(), _>(
            SetParametersError::SetParameterError(SetParameterError::Other(code)),
        ),
{
    if code > 0 {
        Err(SetParametersError::ScriptError(code as usize))
    } else {
        match code {
            0 => Ok(()),
            -1 => Err(SetParametersError::SetParameterError(SetParameterError::CannotGetClient)),
            -2 => Err(SetParametersError::SetParameterError(SetParameterError::NoServer)),
            s => Err(SetParametersError::SetParameterError(SetParameterError::Other(s))),
        }
    }
}

} // verus!
