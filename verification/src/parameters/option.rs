//! Option parameters.

use vstd::prelude::*;

use crate::decimal::{spec_udecimal, usize_decimal};
use crate::interface::VoicemeeterRemote;
use crate::parameters::{
    plain_param, spec_plain_param, BoolParameter, FloatParameter, IntParameter, ParameterName,
};

verus! {

/// Option parameters for Voicemeeter.
pub struct VoicemeeterOption<'a> {
    /// The session the options belong to.
    pub remote: &'a VoicemeeterRemote,
}

impl<'a> VoicemeeterOption<'a> {
    /// Bind the option section to a session.
    pub fn new(remote: &'a VoicemeeterRemote) -> (r: Self)
        ensures
            r.remote == remote,
    {
        VoicemeeterOption { remote }
    }

    /// Get the identifier for an option: `Option.{dot}`.
    pub fn param(&self, dot: &str) -> (r: ParameterName)
        ensures
            r@ == spec_plain_param("Option"@, dot@),
    {
        plain_param("Option", dot)
    }

    /// Preferred samplerate.
    pub fn sr(&self) -> (r: FloatParameter<'a, true, true>)
        ensures
            r.name@ == spec_plain_param("Option"@, "sr"@),
            r.remote == self.remote,
    {
        FloatParameter::new(self.param("sr"), self.remote)
    }

    /// Whether the ASIO driver on output A1 follows the preferred
    /// samplerate.
    pub fn asio_sr(&self) -> (r: BoolParameter<'a, true, true>)
        ensures
            r.name@ == spec_plain_param("Option"@, "ASIOsr"@),
            r.remote == self.remote,
    {
        BoolParameter::new(self.param("ASIOsr"), self.remote)
    }

    /// Bus output delay.
    pub fn delay(&self, bus: usize) -> (r: IntParameter<'a, true, true>)
        ensures
            r.name@ == spec_plain_param(
                "Option"@,
                "delay["@ + spec_udecimal(bus as nat) + "]"@,
            ),
            r.remote == self.remote,
            r.range == Some((0i32, 500i32)),
    {
        let mut dot = String::from_str("delay[");
        let digits = usize_decimal(bus);
        dot.append(digits.as_str());
        dot.append("]");
        proof {
            assert(dot@ =~= "delay["@ + spec_udecimal(bus as nat) + "]"@);
        }
        IntParameter::new(self.param(dot.as_str()), self.remote, 0, 500)
    }

    /// MME buffer size.
    pub fn buffer_mme(&self) -> (r: IntParameter<'a, true, true>)
        ensures
            r.name@ == spec_plain_param("Option"@, "buffer.mme"@),
            r.remote == self.remote,
            r.range == Some((128i32, 2048i32)),
    {
        IntParameter::new(self.param("buffer.mme"), self.remote, 128, 2048)
    }

    /// WDM buffer size.
    pub fn buffer_wdm(&self) -> (r: IntParameter<'a, true, true>)
        ensures
            r.name@ == spec_plain_param("Option"@, "buffer.wdm"@),
            r.remote == self.remote,
            r.range == Some((128i32, 2048i32)),
    {
        IntParameter::new(self.param("buffer.wdm"), self.remote, 128, 2048)
    }

    /// KS buffer size.
    pub fn buffer_ks(&self) -> (r: IntParameter<'a, true, true>)
        ensures
            r.name@ == spec_plain_param("Option"@, "buffer.ks"@),
            r.remote == self.remote,
            r.range == Some((128i32, 2048i32)),
    {
        IntParameter::new(self.param("buffer.ks"), self.remote, 128, 2048)
    }

    /// ASIO buffer size.
    pub fn buffer_asio(&self) -> (r: IntParameter<'a, true, true>)
        ensures
            r.name@ == spec_plain_param("Option"@, "buffer.asio"@),
            r.remote == self.remote,
            r.range == Some((128i32, 2048i32)),
    {
        IntParameter::new(self.param("buffer.asio"), self.remote, 128, 2048)
    }

    /// WDM input exclusive mode.
    pub fn mode_exlusif(&self) -> (r: BoolParameter<'a, true, true>)
        ensures
            r.name@ == spec_plain_param("Option"@, "mode.exclusif"@),
            r.remote == self.remote,
    {
        BoolParameter::new(self.param("mode.exclusif"), self.remote)
    }

    /// WDM swift mode.
    pub fn mode_swift(&self) -> (r: BoolParameter<'a, true, true>)
        ensures
            r.name@ == spec_plain_param("Option"@, "mode.swift"@),
            r.remote == self.remote,
    {
        BoolParameter::new(self.param("mode.swift"), self.remote)
    }

    /// Monitor on SEL option.
    pub fn monitor_on_sel(&self) -> (r: BoolParameter<'a, true, true>)
        ensures
            r.name@ == spec_plain_param("Option"@, "MonitorOnSEL"@),
            r.remote == self.remote,
    {
        BoolParameter::new(self.param("MonitorOnSEL"), self.remote)
    }
}

} // verus!
