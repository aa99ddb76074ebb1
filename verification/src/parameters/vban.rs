//! VBAN parameters.

use vstd::prelude::*;

use crate::decimal::{i32_decimal, spec_decimal};
use crate::interface::VoicemeeterRemote;
use crate::parameters::errors::{InvalidVoicemeeterVersion, OutOfRangeError, ParameterError};
use crate::parameters::{
    plain_param, spec_plain_param, BoolParameter, IntParameter, ParameterName, StringParameter,
};
use crate::types::{VoicemeeterApplication, ZIndex};

verus! {

/// VBAN parameters.
pub struct VoicemeeterVban<'a> {
    /// The session VBAN belongs to.
    pub remote: &'a VoicemeeterRemote,
}

/// The highest VBAN stream index of the given program, or `None`
/// where VBAN does not exist.
pub open spec fn vban_stream_limit(program: VoicemeeterApplication) -> Option<int> {
    match program {
        VoicemeeterApplication::Voicemeeter => Some(3int),
        VoicemeeterApplication::VoicemeeterBanana => Some(7int),
        VoicemeeterApplication::VoicemeeterPotato => Some(7int),
        VoicemeeterApplication::PotatoX64Bits => Some(7int),
        _ => None,
    }
}

impl<'a> VoicemeeterVban<'a> {
    /// Bind the VBAN section to a session.
    pub fn new(remote: &'a VoicemeeterRemote) -> (r: Self)
        ensures
            r.remote == remote,
    {
        Self { remote }
    }

    /// Get the identifier for a VBAN parameter: `vban.{dot}`.
    pub fn param(&self, dot: &str) -> (r: ParameterName)
        ensures
            r@ == spec_plain_param("vban"@, dot@),
    {
        plain_param("vban", dot)
    }

    /// Turn VBAN on or off.
    pub fn enable(&self) -> (r: BoolParameter<'a, true, true>)
        ensures
            r.name@ == spec_plain_param("vban"@, "Enable"@),
            r.remote == self.remote,
    {
        BoolParameter::new(self.param("Enable"), self.remote)
    }

    /// An incoming VBAN stream. Rejects indexes past the program's
    /// stream count, and programs without VBAN.
    pub fn incoming_stream(&self, index: ZIndex) -> (r: Result<
        VoicemeeterVbanStream<'a, true>,
        ParameterError,
    >)
        ensures
            vban_stream_limit(self.remote.program) is None ==> (r matches Err(e) && e matches
                ParameterError::Version(v) && v.found == self.remote.program && v.parameter@
                == "vban.instream"@ && v.expected@ == seq![
                VoicemeeterApplication::Voicemeeter,
                VoicemeeterApplication::VoicemeeterBanana,
                VoicemeeterApplication::VoicemeeterPotato,
                VoicemeeterApplication::PotatoX64Bits,
            ]),
            vban_stream_limit(self.remote.program) matches Some(limit) ==> (if 0 <= index.0
                <= limit {
                r matches Ok(s) && s.remote == self.remote && s.index == index
            } else {
                r matches Err(e) && e matches ParameterError::OutOfRange(o) && o.name@
                    == "vban.instream"@ && o.index == index && o.program == self.remote.program
            }),
    {
        let limit: i32 = match self.remote.program {
            VoicemeeterApplication::Voicemeeter => 3,
            VoicemeeterApplication::VoicemeeterBanana => 7,
            VoicemeeterApplication::VoicemeeterPotato => 7,
            VoicemeeterApplication::PotatoX64Bits => 7,
            _ => {
                let expected = vec![
                    VoicemeeterApplication::Voicemeeter,
                    VoicemeeterApplication::VoicemeeterBanana,
                    VoicemeeterApplication::VoicemeeterPotato,
                    VoicemeeterApplication::PotatoX64Bits,
                ];
                proof {
                    assert(expected@ =~= seq![
                        VoicemeeterApplication::Voicemeeter,
                        VoicemeeterApplication::VoicemeeterBanana,
                        VoicemeeterApplication::VoicemeeterPotato,
                        VoicemeeterApplication::PotatoX64Bits,
                    ]);
                }
                return Err(
                    ParameterError::Version(
                        InvalidVoicemeeterVersion {
                            expected,
                            found: self.remote.program,
                            parameter: String::from_str("vban.instream"),
                        },
                    ),
                );
            },
        };
        if 0 <= index.0 && index.0 <= limit {
            Ok(VoicemeeterVbanStream::new(self.remote, index))
        } else {
            Err(
                ParameterError::OutOfRange(
                    OutOfRangeError {
                        name: String::from_str("vban.instream"),
                        index,
                        program: self.remote.program,
                    },
                ),
            )
        }
    }

    /// An outgoing VBAN stream. Rejects indexes past the program's
    /// stream count, and programs without VBAN.
    pub fn outgoing_stream(&self, index: ZIndex) -> (r: Result<
        VoicemeeterVbanStream<'a, false>,
        ParameterError,
    >)
        ensures
            vban_stream_limit(self.remote.program) is None ==> (r matches Err(e) && e matches
                ParameterError::Version(v) && v.found == self.remote.program && v.parameter@
                == "vban.outstream"@ && v.expected@ == seq![
                VoicemeeterApplication::Voicemeeter,
                VoicemeeterApplication::VoicemeeterBanana,
                VoicemeeterApplication::VoicemeeterPotato,
                VoicemeeterApplication::PotatoX64Bits,
            ]),
            vban_stream_limit(self.remote.program) matches Some(limit) ==> (if 0 <= index.0
                <= limit {
                r matches Ok(s) && s.remote == self.remote && s.index == index
            } else {
                r matches Err(e) && e matches ParameterError::OutOfRange(o) && o.name@
                    == "vban.outstream"@ && o.index == index && o.program == self.remote.program
            }),
    {
        let limit: i32 = match self.remote.program {
            VoicemeeterApplication::Voicemeeter => 3,
            VoicemeeterApplication::VoicemeeterBanana => 7,
            VoicemeeterApplication::VoicemeeterPotato => 7,
            VoicemeeterApplication::PotatoX64Bits => 7,
            _ => {
                let expected = vec![
                    VoicemeeterApplication::Voicemeeter,
                    VoicemeeterApplication::VoicemeeterBanana,
                    VoicemeeterApplication::VoicemeeterPotato,
                    VoicemeeterApplication::PotatoX64Bits,
                ];
                proof {
                    assert(expected@ =~= seq![
                        VoicemeeterApplication::Voicemeeter,
                        VoicemeeterApplication::VoicemeeterBanana,
                        VoicemeeterApplication::VoicemeeterPotato,
                        VoicemeeterApplication::PotatoX64Bits,
                    ]);
                }
                return Err(
                    ParameterError::Version(
                        InvalidVoicemeeterVersion {
                            expected,
                            found: self.remote.program,
                            parameter: String::from_str("vban.outstream"),
                        },
                    ),
                );
            },
        };
        if 0 <= index.0 && index.0 <= limit {
            Ok(VoicemeeterVbanStream::new(self.remote, index))
        } else {
            Err(
                ParameterError::OutOfRange(
                    OutOfRangeError {
                        name: String::from_str("vban.outstream"),
                        index,
                        program: self.remote.program,
                    },
                ),
            )
        }
    }
}

/// A VBAN stream, incoming when `INPUT` holds and outgoing
/// otherwise.
pub struct VoicemeeterVbanStream<'a, const INPUT: bool> {
    /// The session the stream belongs to.
    pub remote: &'a VoicemeeterRemote,
    /// The stream's index.
    pub index: ZIndex,
}

/// The name of a parameter of one VBAN stream:
/// `vban.{in|out}stream[{index}].{dot}`.
pub open spec fn spec_vban_stream_param(input: bool, index: int, dot: Seq<char>) -> Seq<char> {
    "vban."@ + (if input {
        "in"@
    } else {
        "out"@
    }) + "stream["@ + spec_decimal(index) + "]."@ + dot
}

impl<'a, const INPUT: bool> VoicemeeterVbanStream<'a, INPUT> {
    /// Bind a stream index to a session.
    pub fn new(remote: &'a VoicemeeterRemote, index: ZIndex) -> (r: Self)
        ensures
            r.remote == remote,
            r.index == index,
    {
        Self { remote, index }
    }

    /// Get the identifier for a parameter on this stream:
    /// `vban.{in|out}stream[{index}].{dot}`.
    pub fn param(&self, dot: &str) -> (r: ParameterName)
        ensures
            r@ == spec_vban_stream_param(INPUT, self.index.0 as int, dot@),
    {
        let mut s = String::from_str("vban.");
        if INPUT {
            s.append("in");
        } else {
            s.append("out");
        }
        s.append("stream[");
        let digits = i32_decimal(self.index.0);
        s.append(digits.as_str());
        s.append("].");
        s.append(dot);
        ParameterName(s)
    }

    /// Stream on/off.
    pub fn on(&self) -> (r: BoolParameter<'a, true, true>)
        ensures
            r.name@ == spec_vban_stream_param(INPUT, self.index.0 as int, "on"@),
            r.remote == self.remote,
    {
        BoolParameter::new(self.param("on"), self.remote)
    }

    /// Stream name.
    pub fn name(&self) -> (r: StringParameter<'a, true, true>)
        ensures
            r.name@ == spec_vban_stream_param(INPUT, self.index.0 as int, "name"@),
            r.remote == self.remote,
    {
        StringParameter::new(self.param("name"), self.remote)
    }

    /// IP address.
    pub fn ip(&self) -> (r: StringParameter<'a, true, true>)
        ensures
            r.name@ == spec_vban_stream_param(INPUT, self.index.0 as int, "ip"@),
            r.remote == self.remote,
    {
        StringParameter::new(self.param("ip"), self.remote)
    }

    /// Port.
    pub fn port(&self) -> (r: IntParameter<'a, true, true>)
        ensures
            r.name@ == spec_vban_stream_param(INPUT, self.index.0 as int, "port"@),
            r.remote == self.remote,
            r.range == Some((0i32, 65535i32)),
    {
        IntParameter::new(self.param("port"), self.remote, 0, 65535)
    }

    /// Quality.
    pub fn quality(&self) -> (r: IntParameter<'a, true, true>)
        ensures
            r.name@ == spec_vban_stream_param(INPUT, self.index.0 as int, "quality"@),
            r.remote == self.remote,
            r.range == Some((0i32, 4i32)),
    {
        IntParameter::new(self.param("quality"), self.remote, 0, 4)
    }

    /// Strip or bus selector.
    pub fn route(&self) -> (r: IntParameter<'a, true, true>)
        ensures
            r.name@ == spec_vban_stream_param(INPUT, self.index.0 as int, "route"@),
            r.remote == self.remote,
            r.range == Some((0i32, 8i32)),
    {
        IntParameter::new(self.param("route"), self.remote, 0, 8)
    }

    /// Sample rate. Read-only on incoming streams.
    pub fn sample_rate(&self) -> (r: IntParameter<'a, true, true>)
        ensures
            r.name@ == spec_vban_stream_param(INPUT, self.index.0 as int, "sr"@),
            r.remote == self.remote,
            r.range == Some((11025i32, 96000i32)),
    {
        IntParameter::new(self.param("sr"), self.remote, 11025, 96000)
    }

    /// Channel count, 1 to 8. Read-only on incoming streams.
    pub fn channel(&self) -> (r: IntParameter<'a, true, true>)
        ensures
            r.name@ == spec_vban_stream_param(INPUT, self.index.0 as int, "channel"@),
            r.remote == self.remote,
            r.range == Some((1i32, 8i32)),
    {
        IntParameter::new(self.param("channel"), self.remote, 1, 8)
    }

    /// VBAN data type: 1 for 16 bit PCM, 2 for 24 bit PCM. Read-only
    /// on incoming streams.
    pub fn bit(&self) -> (r: IntParameter<'a, true, true>)
        ensures
            r.name@ == spec_vban_stream_param(INPUT, self.index.0 as int, "bit"@),
            r.remote == self.remote,
            r.range == Some((1i32, 2i32)),
    {
        IntParameter::new(self.param("bit"), self.remote, 1, 2)
    }
}

} // verus!
