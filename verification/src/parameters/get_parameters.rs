//! The meaning of the engine's status codes when parameter values are
//! read.

use vstd::prelude::*;

use crate::parameters::ParameterName;

verus! {

/// Errors that can happen when getting a parameter.
#[derive(Debug, Clone, PartialEq, Eq)]
pub enum GetParameterError {
    /// The parameter name holds an interior null byte, so no
    /// C-compatible string can be made of it.
    NulError,
    /// Cannot get client.
    CannotGetClient,
    /// No server.
    NoServer,
    /// Unknown parameter; carries the name that was asked for.
    UnknownParameter(String),
    /// The parameter exists but does not have the requested shape;
    /// carries the name and the shape that was asked for.
    StructureMismatch(String, &'static str),
    /// An unknown error code occurred.
    Other(i32),
}

/// Errors that can happen when querying the parameter "dirty" flag.
#[derive(Debug, Clone, PartialEq, Eq)]
pub enum IsParametersDirtyError {
    /// Cannot get client.
    CannotGetClient,
    /// No server.
    NoServer,
    /// An unknown error code occurred.
    Other(i32),
}

/// The meaning of the engine's parameter dirty flag: 0 means
/// unchanged, 1 changed, -1 cannot get client, -2 no server,
/// anything else unexpected.
pub fn parameters_dirty_outcome(code: i32) -> (r: Result<bool, IsParametersDirtyError>)
    ensures
        code == 0 ==> r == Ok::<_, IsParametersDirtyError>(false),
        code == 1 ==> r == Ok::<_, IsParametersDirtyError>(true),
        code == -1 ==> r == Err::<bool, _>(IsParametersDirtyError::CannotGetClient),
        code == -2 ==> r == Err::<bool, _>(IsParametersDirtyError::NoServer),
        (code != 0 && code != 1 && code != -1 && code != -2) ==> r == Err::<bool, _>(
            IsParametersDirtyError::Other(code),
        ),
{
    match code {
        0 => Ok(false),
        1 => Ok(true),
        -1 => Err(IsParametersDirtyError::CannotGetClient),
        -2 => Err(IsParametersDirtyError::NoServer),
        s => Err(IsParametersDirtyError::Other(s)),
    }
}

/// The meaning of the engine's answer when a parameter value was
/// read: 0 is success and the value the engine wrote is meaningful;
/// -1 cannot get client, -2 no server, -3 an unknown parameter, -5 a
/// parameter of another shape than `kind`, anything else unexpected.
pub fn get_parameter_outcome(code: i32, param: &ParameterName, kind: &'static str) -> (r: Result<
    (),
    GetParameterError,
>)
    ensures
        code == 0 ==> r is Ok,
        code == -1 ==> r == Err::<(), _>(GetParameterError::CannotGetClient),
        code == -2 ==> r == Err::<(), _>(GetParameterError::NoServer),
        code == -3 ==> (r matches Err(e) && e matches GetParameterError::UnknownParameter(n) && n@
            == param@),
        code == -5 ==> (r matches Err(e) && e matches GetParameterError::StructureMismatch(n, k)
            && n@ == param@ && k == kind),
        (code != 0 && code != -1 && code != -2 && code != -3 && code != -5) ==> r == Err::<(), _>(
            GetParameterError::Other(code),
        ),
{
    match code {
        0 => Ok(()),
        -1 => Err(GetParameterError::CannotGetClient),
        -2 => Err(GetParameterError::NoServer),
        -3 => Err(GetParameterError::UnknownParameter(param.0.clone())),
        -5 => Err(GetParameterError::StructureMismatch(param.0.clone(), kind)),
        s => Err(GetParameterError::Other(s)),
    }
}

} // verus!
