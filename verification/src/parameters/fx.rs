//! Fx parameters.

use vstd::prelude::*;

use crate::interface::VoicemeeterRemote;
use crate::parameters::{plain_param, spec_plain_param, BoolParameter, ParameterName};

verus! {

/// Fx parameters. Their base carries the name of the recorder
/// section, as the engine expects.
pub struct VoicemeeterFx<'a> {
    /// The session the FX section belongs to.
    pub remote: &'a VoicemeeterRemote,
}

impl<'a> VoicemeeterFx<'a> {
    /// Bind the FX section to a session.
    pub fn new(remote: &'a VoicemeeterRemote) -> (r: Self)
        ensures
            r.remote == remote,
    {
        Self { remote }
    }

    /// Get the identifier for an FX parameter: `Recorder.{dot}`.
    pub fn param(&self, dot: &str) -> (r: ParameterName)
        ensures
            r@ == spec_plain_param("Recorder"@, dot@),
    {
        plain_param("Recorder", dot)
    }

    /// Reverb status.
    pub fn reverb_on(&self) -> (r: BoolParameter<'a, true, true>)
        ensures
            r.name@ == spec_plain_param("Recorder"@, "Reverb.On"@),
            r.remote == self.remote,
    {
        BoolParameter::new(self.param("Reverb.On"), self.remote)
    }

    /// Reverb A/B memory choice.
    pub fn reverb_ab(&self) -> (r: BoolParameter<'a, true, true>)
        ensures
            r.name@ == spec_plain_param("Recorder"@, "Reverb.AB"@),
            r.remote == self.remote,
    {
        BoolParameter::new(self.param("Reverb.AB"), self.remote)
    }

    /// Delay status.
    pub fn delay_on(&self) -> (r: BoolParameter<'a, true, true>)
        ensures
            r.name@ == spec_plain_param("Recorder"@, "Delay.On"@),
            r.remote == self.remote,
    {
        BoolParameter::new(self.param("Delay.On"), self.remote)
    }

    /// Delay A/B memory choice.
    pub fn delay_ab(&self) -> (r: BoolParameter<'a, true, true>)
        ensures
            r.name@ == spec_plain_param("Recorder"@, "Delay.AB"@),
            r.remote == self.remote,
    {
        BoolParameter::new(self.param("Delay.AB"), self.remote)
    }
}

} // verus!
