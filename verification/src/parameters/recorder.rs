//! Recorder parameters.

use vstd::prelude::*;

use crate::decimal::{i32_decimal, spec_decimal};
use crate::interface::VoicemeeterRemote;
use crate::parameters::errors::{DeviceError, InvalidTypeError, ParameterError};
use crate::parameters::{
    plain_param, spec_plain_param, BoolParameter, BusIndex, FloatParameter, IntParameter,
    ParameterName,
    StringParameter, StripIndex,
};
use crate::types::Device;

verus! {

/// Recorder parameters.
pub struct VoicemeeterRecorder<'a> {
    /// The session the recorder belongs to.
    pub remote: &'a VoicemeeterRemote,
}

impl<'a> VoicemeeterRecorder<'a> {
    /// Bind the recorder to a session.
    pub fn new(remote: &'a VoicemeeterRemote) -> (r: Self)
        ensures
            r.remote == remote,
    {
        VoicemeeterRecorder { remote }
    }

    /// Get the identifier for a recorder parameter: `Recorder.{dot}`.
    pub fn param(&self, dot: &str) -> (r: ParameterName)
        ensures
            r@ == spec_plain_param("Recorder"@, dot@),
    {
        plain_param("Recorder", dot)
    }

    /// Stop the recorder.
    pub fn stop(&self) -> (r: BoolParameter<'a, true, true>)
        ensures
            r.name@ == spec_plain_param("Recorder"@, "stop"@),
            r.remote == self.remote,
    {
        BoolParameter::new(self.param("stop"), self.remote)
    }

    /// Start playback.
    pub fn play(&self) -> (r: BoolParameter<'a, true, true>)
        ensures
            r.name@ == spec_plain_param("Recorder"@, "play"@),
            r.remote == self.remote,
    {
        BoolParameter::new(self.param("play"), self.remote)
    }

    /// Play from the current position.
    pub fn replay(&self) -> (r: BoolParameter<'a, true, true>)
        ensures
            r.name@ == spec_plain_param("Recorder"@, "replay"@),
            r.remote == self.remote,
    {
        BoolParameter::new(self.param("replay"), self.remote)
    }

    /// Fast forward.
    pub fn ff(&self) -> (r: BoolParameter<'a, true, true>)
        ensures
            r.name@ == spec_plain_param("Recorder"@, "ff"@),
            r.remote == self.remote,
    {
        BoolParameter::new(self.param("ff"), self.remote)
    }

    /// Rewind.
    pub fn rew(&self) -> (r: BoolParameter<'a, true, true>)
        ensures
            r.name@ == spec_plain_param("Recorder"@, "rew"@),
            r.remote == self.remote,
    {
        BoolParameter::new(self.param("rew"), self.remote)
    }

    /// Go to a position.
    pub fn goto(&self) -> (r: StringParameter<'a, true, true>)
        ensures
            r.name@ == spec_plain_param("Recorder"@, "goto"@),
            r.remote == self.remote,
    {
        StringParameter::new(self.param("goto"), self.remote)
    }

    /// The out-bus assignation flag of one bus.
    pub fn out_bus_assignation(&self, bus: &Device) -> (r: Result<
        BoolParameter<'a, true, true>,
        ParameterError,
    >)
        ensures
            !bus.spec_is_bus() ==> r == Err::<BoolParameter<'a, true, true>, _>(
                ParameterError::Type(InvalidTypeError::ExpectedBus { device: *bus }),
            ),
            (bus.spec_is_bus() && bus.spec_bus_index(self.remote.program) is None) ==> r == Err::<
                BoolParameter<'a, true, true>,
                _,
            >(
                ParameterError::Device(
                    DeviceError { program: self.remote.program, device: *bus },
                ),
            ),
            bus.spec_bus_index(self.remote.program) matches Some(z) ==> (bus.spec_is_bus() ==> (r
                matches Ok(p) && p.name@ == spec_plain_param(
                "Recorder"@,
                spec_decimal(z.0 as int),
            ) && p.remote == self.remote)),
    {
        if !bus.is_bus() {
            return Err(ParameterError::Type(InvalidTypeError::ExpectedBus { device: *bus }));
        }
        match bus.as_bus_index(&self.remote.program) {
            Some(z) => {
                let digits = i32_decimal(z.0);
                Ok(BoolParameter::new(self.param(digits.as_str()), self.remote))
            },
            Option::None => Err(
                ParameterError::Device(DeviceError { program: self.remote.program, device: *bus }),
            ),
        }
    }

    /// Record.
    pub fn record(&self) -> (r: BoolParameter<'a, true, true>)
        ensures
            r.name@ == spec_plain_param("Recorder"@, "record"@),
            r.remote == self.remote,
    {
        BoolParameter::new(self.param("record"), self.remote)
    }

    /// Pause.
    pub fn pause(&self) -> (r: BoolParameter<'a, true, true>)
        ensures
            r.name@ == spec_plain_param("Recorder"@, "pause"@),
            r.remote == self.remote,
    {
        BoolParameter::new(self.param("pause"), self.remote)
    }

    /// Load a file to play in the recorder.
    pub fn load(&self) -> (r: StringParameter<'a, true, false>)
        ensures
            r.name@ == spec_plain_param("Recorder"@, "load"@),
            r.remote == self.remote,
    {
        StringParameter::new(self.param("load"), self.remote)
    }

    /// Samplerate selector.
    pub fn samplerate(&self) -> (r: IntParameter<'a, true, true>)
        ensures
            r.name@ == spec_plain_param("Recorder"@, "samplerate"@),
            r.remote == self.remote,
            r.range == Some((0i32, 2i32)),
    {
        IntParameter::new(self.param("samplerate"), self.remote, 0, 2)
    }

    /// Arm a strip as pre-fader input (multiple strips can be armed).
    pub fn arm_strip<I: StripIndex>(&self, strip: I) -> (r: Result<
        BoolParameter<'a, true, true>,
        ParameterError,
    >)
        ensures
            strip.strip_index_spec(self.remote.program) matches Err(e) ==> r == Err::<
                BoolParameter<'a, true, true>,
                _,
            >(e),
            strip.strip_index_spec(self.remote.program) matches Ok(z) ==> (r matches Ok(p)
                && p.name@ == spec_plain_param(
                "Recorder"@,
                "ArmStrip("@ + spec_decimal(z.0 as int) + ")"@,
            ) && p.remote == self.remote),
    {
        let z = match strip.into_strip_index(&self.remote.program) {
            Ok(z) => z,
            Err(e) => {
                return Err(e);
            },
        };
        let mut dot = String::from_str("ArmStrip(");
        let digits = i32_decimal(z.0);
        dot.append(digits.as_str());
        dot.append(")");
        proof {
            assert(dot@ =~= "ArmStrip("@ + spec_decimal(z.0 as int) + ")"@);
        }
        Ok(BoolParameter::new(self.param(dot.as_str()), self.remote))
    }

    /// Arm a bus as post-fader output (a single bus).
    pub fn arm_bus<I: BusIndex>(&self, bus: I) -> (r: Result<
        BoolParameter<'a, true, true>,
        ParameterError,
    >)
        ensures
            bus.bus_index_spec(self.remote.program) matches Err(e) ==> r == Err::<
                BoolParameter<'a, true, true>,
                _,
            >(e),
            bus.bus_index_spec(self.remote.program) matches Ok(z) ==> (r matches Ok(p) && p.name@
                == spec_plain_param(
                "Recorder"@,
                "ArmBus("@ + spec_decimal(z.0 as int) + ")"@,
            ) && p.remote == self.remote),
    {
        let z = match bus.into_bus_index(&self.remote.program) {
            Ok(z) => z,
            Err(e) => {
                return Err(e);
            },
        };
        let mut dot = String::from_str("ArmBus(");
        let digits = i32_decimal(z.0);
        dot.append(digits.as_str());
        dot.append(")");
        proof {
            assert(dot@ =~= "ArmBus("@ + spec_decimal(z.0 as int) + ")"@);
        }
        Ok(BoolParameter::new(self.param(dot.as_str()), self.remote))
    }

    /// Mode options.
    pub fn mode(&self) -> (r: VoicemeeterRecorderMode<'a>)
        ensures
            r.remote == self.remote,
    {
        VoicemeeterRecorderMode::new(self.remote)
    }

    /// The bit resolution: one of 8, 16, 24 or 32.
    pub fn bit_resolution(&self) -> (r: IntParameter<'a, true, true>)
        ensures
            r.name@ == spec_plain_param("Recorder"@, "bitResolution"@),
            r.remote == self.remote,
            r.range == Some((8i32, 32i32)),
    {
        IntParameter::new(self.param("bitResolution"), self.remote, 8, 32)
    }

    /// Channels to record post-fader outputs with: 2, 4, 6 or 8.
    pub fn channel(&self) -> (r: IntParameter<'a, true, true>)
        ensures
            r.name@ == spec_plain_param("Recorder"@, "Channel"@),
            r.remote == self.remote,
            r.range == Some((1i32, 8i32)),
    {
        IntParameter::new(self.param("Channel"), self.remote, 1, 8)
    }

    /// The bitrate for mp3 recordings.
    pub fn kbps(&self) -> (r: IntParameter<'a, true, true>)
        ensures
            r.name@ == spec_plain_param("Recorder"@, "kbps"@),
            r.remote == self.remote,
            r.range == Some((32i32, 320i32)),
    {
        IntParameter::new(self.param("kbps"), self.remote, 32, 320)
    }

    /// The file type for recordings: 1 WAV, 2 AIFF, 3 BWF, 100 MP3.
    pub fn file_type(&self) -> (r: IntParameter<'a, true, true>)
        ensures
            r.name@ == spec_plain_param("Recorder"@, "FileType"@),
            r.remote == self.remote,
            r.range == Some((1i32, 100i32)),
    {
        IntParameter::new(self.param("FileType"), self.remote, 1, 100)
    }

    /// Playback gain.
    pub fn gain(&self) -> (r: FloatParameter<'a, true, true>)
        ensures
            r.name@ == spec_plain_param("Recorder"@, "gain"@),
            r.remote == self.remote,
    {
        FloatParameter::new(self.param("gain"), self.remote)
    }
}

/// Mode options of the recorder.
pub struct VoicemeeterRecorderMode<'a> {
    /// The session the recorder belongs to.
    pub remote: &'a VoicemeeterRemote,
}

impl<'a> VoicemeeterRecorderMode<'a> {
    /// Bind the recorder mode options to a session.
    pub fn new(remote: &'a VoicemeeterRemote) -> (r: Self)
        ensures
            r.remote == remote,
    {
        VoicemeeterRecorderMode { remote }
    }

    /// Get the identifier for a recorder mode option:
    /// `Recorder.mode.{dot}`.
    pub fn param(&self, dot: &str) -> (r: ParameterName)
        ensures
            r@ == spec_plain_param("Recorder"@, "mode."@ + dot@),
    {
        let mut full = String::from_str("mode.");
        full.append(dot);
        proof {
            assert(full@ =~= "mode."@ + dot@);
        }
        plain_param("Recorder", full.as_str())
    }

    /// Record the bus.
    pub fn recbus(&self) -> (r: BoolParameter<'a, true, true>)
        ensures
            r.name@ == spec_plain_param("Recorder"@, "mode."@ + "recbus"@),
            r.remote == self.remote,
    {
        BoolParameter::new(self.param("recbus"), self.remote)
    }

    /// Play on load.
    pub fn play_on_load(&self) -> (r: BoolParameter<'a, true, true>)
        ensures
            r.name@ == spec_plain_param("Recorder"@, "mode."@ + "PlayOnLoad"@),
            r.remote == self.remote,
    {
        BoolParameter::new(self.param("PlayOnLoad"), self.remote)
    }

    /// Loop playback.
    pub fn loop_(&self) -> (r: BoolParameter<'a, true, true>)
        ensures
            r.name@ == spec_plain_param("Recorder"@, "mode."@ + "Loop"@),
            r.remote == self.remote,
    {
        BoolParameter::new(self.param("Loop"), self.remote)
    }

    /// Multi-track recording.
    pub fn multi_track(&self) -> (r: BoolParameter<'a, true, true>)
        ensures
            r.name@ == spec_plain_param("Recorder"@, "mode."@ + "MultiTrack"@),
            r.remote == self.remote,
    {
        BoolParameter::new(self.param("MultiTrack"), self.remote)
    }
}

} // verus!
