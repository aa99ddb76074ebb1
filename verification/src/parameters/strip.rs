//! Strip parameters: a strip is a physical or virtual input.

use vstd::prelude::*;

use crate::decimal::spec_decimal;
use crate::interface::VoicemeeterRemote;
use crate::parameters::eq::{spec_eq_channel_name, EqChannelParameter};
use crate::parameters::errors::{InvalidTypeError, InvalidVoicemeeterVersion, ParameterError};
use crate::parameters::{
    indexed_param, spec_indexed_param, BoolParameter, FloatParameter, IntParameter, ParameterName,
    StringParameter, TupleParameter,
};
use crate::types::{VoicemeeterApplication, ZIndex};

verus! {

/// Parameters for a strip: a physical or virtual input.
pub struct Strip<'a> {
    /// The session the strip belongs to.
    pub remote: &'a VoicemeeterRemote,
    /// The strip's index.
    pub strip_index: ZIndex,
}

/// Whether the strip detail sections (compressor, gate, denoiser,
/// per-channel EQ) exist on the given program.
pub open spec fn strip_details_available(program: VoicemeeterApplication) -> bool {
    match program {
        VoicemeeterApplication::VoicemeeterPotato | VoicemeeterApplication::PotatoX64Bits => true,
        _ => false,
    }
}

impl<'a> Strip<'a> {
    /// Bind a strip index to a session.
    pub fn new(remote: &'a VoicemeeterRemote, strip_index: ZIndex) -> (r: Self)
        ensures
            r.remote == remote,
            r.strip_index == strip_index,
    {
        Strip { remote, strip_index }
    }

    /// Get the identifier for a parameter on this strip:
    /// `Strip[i].{dot}`.
    pub fn param(&self, dot: &str) -> (r: ParameterName)
        ensures
            r@ == spec_indexed_param("Strip"@, self.strip_index.0 as int, dot@),
    {
        indexed_param("Strip", self.strip_index, dot)
    }

    /// Whether this strip is one of the program's physical strips.
    pub open spec fn spec_is_physical(self) -> bool {
        match self.remote.program {
            VoicemeeterApplication::Voicemeeter => 0 <= self.strip_index.0 <= 1,
            VoicemeeterApplication::VoicemeeterBanana => 0 <= self.strip_index.0 <= 2,
            VoicemeeterApplication::VoicemeeterPotato => 0 <= self.strip_index.0 <= 4,
            VoicemeeterApplication::PotatoX64Bits => 0 <= self.strip_index.0 <= 4,
            _ => false,
        }
    }

    /// Whether this strip counts as virtual: not physical, on a known
    /// program.
    pub open spec fn spec_is_virtual(self) -> bool {
        !(self.spec_is_physical() || self.remote.program == VoicemeeterApplication::Other)
    }

    /// Strip is physical.
    pub fn is_physical(&self) -> (r: bool)
        ensures
            r == self.spec_is_physical(),
    {
        match self.remote.program {
            VoicemeeterApplication::Voicemeeter => 0 <= self.strip_index.0 && self.strip_index.0
                <= 1,
            VoicemeeterApplication::VoicemeeterBanana => 0 <= self.strip_index.0
                && self.strip_index.0 <= 2,
            VoicemeeterApplication::VoicemeeterPotato => 0 <= self.strip_index.0
                && self.strip_index.0 <= 4,
            VoicemeeterApplication::PotatoX64Bits => 0 <= self.strip_index.0 && self.strip_index.0
                <= 4,
            _ => false,
        }
    }

    /// Strip is virtual.
    pub fn is_virtual(&self) -> (r: bool)
        ensures
            r == self.spec_is_virtual(),
    {
        !(self.is_physical() || matches!(self.remote.program, VoicemeeterApplication::Other))
    }

    /// Mono button.
    pub fn mono(&self) -> (r: BoolParameter<'a, true, true>)
        ensures
            r.name@ == spec_indexed_param("Strip"@, self.strip_index.0 as int, "Mono"@),
            r.remote == self.remote,
    {
        BoolParameter::new(self.param("Mono"), self.remote)
    }

    /// Mute button.
    pub fn mute(&self) -> (r: BoolParameter<'a, true, true>)
        ensures
            r.name@ == spec_indexed_param("Strip"@, self.strip_index.0 as int, "Mute"@),
            r.remote == self.remote,
    {
        BoolParameter::new(self.param("Mute"), self.remote)
    }

    /// Solo button.
    pub fn solo(&self) -> (r: BoolParameter<'a, true, true>)
        ensures
            r.name@ == spec_indexed_param("Strip"@, self.strip_index.0 as int, "Solo"@),
            r.remote == self.remote,
    {
        BoolParameter::new(self.param("Solo"), self.remote)
    }

    /// Mute center button.
    pub fn mute_center(&self) -> (r: BoolParameter<'a, true, true>)
        ensures
            r.name@ == spec_indexed_param("Strip"@, self.strip_index.0 as int, "MC"@),
            r.remote == self.remote,
    {
        BoolParameter::new(self.param("MC"), self.remote)
    }

    /// Gain slider.
    pub fn gain(&self) -> (r: FloatParameter<'a, true, true>)
        ensures
            r.name@ == spec_indexed_param("Strip"@, self.strip_index.0 as int, "Gain"@),
            r.remote == self.remote,
    {
        FloatParameter::new(self.param("Gain"), self.remote)
    }

    /// Gain slider of one gain layer.
    pub fn gain_layer(&self, layer: ZIndex) -> (r: FloatParameter<'a, true, true>)
        ensures
            r.name@ == spec_indexed_param(
                "Strip"@,
                self.strip_index.0 as int,
                "GainLayer["@ + spec_decimal(layer.0 as int) + "]"@,
            ),
            r.remote == self.remote,
    {
        let mut dot = String::from_str("GainLayer[");
        let digits = crate::decimal::i32_decimal(layer.0);
        dot.append(digits.as_str());
        dot.append("]");
        proof {
            assert(dot@ =~= "GainLayer["@ + spec_decimal(layer.0 as int) + "]"@);
        }
        FloatParameter::new(self.param(dot.as_str()), self.remote)
    }

    /// Pan in the x direction.
    pub fn pan_x(&self) -> (r: FloatParameter<'a, true, true>)
        ensures
            r.name@ == spec_indexed_param("Strip"@, self.strip_index.0 as int, "Pan_x"@),
            r.remote == self.remote,
    {
        FloatParameter::new(self.param("Pan_x"), self.remote)
    }

    /// Pan in the y direction.
    pub fn pan_y(&self) -> (r: FloatParameter<'a, true, true>)
        ensures
            r.name@ == spec_indexed_param("Strip"@, self.strip_index.0 as int, "Pan_y"@),
            r.remote == self.remote,
    {
        FloatParameter::new(self.param("Pan_y"), self.remote)
    }

    /// Color of a physical strip in the x direction.
    pub fn color_x(&self) -> (r: Result<FloatParameter<'a, true, true>, InvalidTypeError>)
        ensures
            self.spec_is_virtual() ==> (r matches Err(e) && e matches
                InvalidTypeError::ExpectedPhysical { name, strip_index, parameter } && name@
                == "Strip"@ && strip_index == self.strip_index && parameter@ == "Color_x"@),
            !self.spec_is_virtual() ==> (r matches Ok(p) && p.name@ == spec_indexed_param(
                "Strip"@,
                self.strip_index.0 as int,
                "Color_x"@,
            ) && p.remote == self.remote),
    {
        if self.is_virtual() {
            Err(
                InvalidTypeError::ExpectedPhysical {
                    name: String::from_str("Strip"),
                    strip_index: self.strip_index,
                    parameter: String::from_str("Color_x"),
                },
            )
        } else {
            Ok(FloatParameter::new(self.param("Color_x"), self.remote))
        }
    }

    /// Color of a physical strip in the y direction.
    pub fn color_y(&self) -> (r: Result<FloatParameter<'a, true, true>, InvalidTypeError>)
        ensures
            self.spec_is_virtual() ==> (r matches Err(e) && e matches
                InvalidTypeError::ExpectedPhysical { name, strip_index, parameter } && name@
                == "Strip"@ && strip_index == self.strip_index && parameter@ == "Color_y"@),
            !self.spec_is_virtual() ==> (r matches Ok(p) && p.name@ == spec_indexed_param(
                "Strip"@,
                self.strip_index.0 as int,
                "Color_y"@,
            ) && p.remote == self.remote),
    {
        if self.is_virtual() {
            Err(
                InvalidTypeError::ExpectedPhysical {
                    name: String::from_str("Strip"),
                    strip_index: self.strip_index,
                    parameter: String::from_str("Color_y"),
                },
            )
        } else {
            Ok(FloatParameter::new(self.param("Color_y"), self.remote))
        }
    }

    /// FX position of a physical strip in the x direction.
    pub fn fx_x(&self) -> (r: Result<FloatParameter<'a, true, true>, InvalidTypeError>)
        ensures
            self.spec_is_virtual() ==> (r matches Err(e) && e matches
                InvalidTypeError::ExpectedPhysical { name, strip_index, parameter } && name@
                == "Strip"@ && strip_index == self.strip_index && parameter@ == "fx_x"@),
            !self.spec_is_virtual() ==> (r matches Ok(p) && p.name@ == spec_indexed_param(
                "Strip"@,
                self.strip_index.0 as int,
                "fx_x"@,
            ) && p.remote == self.remote),
    {
        if self.is_virtual() {
            Err(
                InvalidTypeError::ExpectedPhysical {
                    name: String::from_str("Strip"),
                    strip_index: self.strip_index,
                    parameter: String::from_str("fx_x"),
                },
            )
        } else {
            Ok(FloatParameter::new(self.param("fx_x"), self.remote))
        }
    }

    /// FX position of a physical strip in the y direction.
    pub fn fx_y(&self) -> (r: Result<FloatParameter<'a, true, true>, InvalidTypeError>)
        ensures
            self.spec_is_virtual() ==> (r matches Err(e) && e matches
                InvalidTypeError::ExpectedPhysical { name, strip_index, parameter } && name@
                == "Strip"@ && strip_index == self.strip_index && parameter@ == "fx_y"@),
            !self.spec_is_virtual() ==> (r matches Ok(p) && p.name@ == spec_indexed_param(
                "Strip"@,
                self.strip_index.0 as int,
                "fx_y"@,
            ) && p.remote == self.remote),
    {
        if self.is_virtual() {
            Err(
                InvalidTypeError::ExpectedPhysical {
                    name: String::from_str("Strip"),
                    strip_index: self.strip_index,
                    parameter: String::from_str("fx_y"),
                },
            )
        } else {
            Ok(FloatParameter::new(self.param("fx_y"), self.remote))
        }
    }

    /// Audibility knob.
    pub fn audability(&self) -> (r: FloatParameter<'a, true, true>)
        ensures
            r.name@ == spec_indexed_param("Strip"@, self.strip_index.0 as int, "Audability"@),
            r.remote == self.remote,
    {
        FloatParameter::new(self.param("Audability"), self.remote)
    }

    /// Compression knob.
    ///
    /// See also [`Strip::comp_detailed`] for detailed compressor
    /// settings.
    pub fn comp(&self) -> (r: FloatParameter<'a, true, true>)
        ensures
            r.name@ == spec_indexed_param("Strip"@, self.strip_index.0 as int, "Comp"@),
            r.remote == self.remote,
    {
        FloatParameter::new(self.param("Comp"), self.remote)
    }

    /// Detailed compressor settings; they exist only for physical
    /// strips of Voicemeeter Potato.
    pub fn comp_detailed(&self) -> (r: Result<StripCompressor<'a>, ParameterError>)
        ensures
            (strip_details_available(self.remote.program) && self.spec_is_physical()) ==> (r
                matches Ok(c) && c.remote == self.remote && c.strip_index == self.strip_index),
            (strip_details_available(self.remote.program) && !self.spec_is_physical()) ==> (r
                matches Err(e) && e matches ParameterError::Type(
                InvalidTypeError::ExpectedPhysical { name, strip_index, parameter },
            ) && name@ == "Strip"@ && strip_index == self.strip_index && parameter@ == "Comp"@),
            !strip_details_available(self.remote.program) ==> (r matches Err(e) && e matches
                ParameterError::Version(v) && v.found == self.remote.program && v.parameter@
                == spec_indexed_param("Strip"@, self.strip_index.0 as int, "Comp"@)
                && v.expected@ == seq![
                VoicemeeterApplication::VoicemeeterPotato,
                VoicemeeterApplication::PotatoX64Bits,
            ]),
    {
        let valid = match self.remote.program {
            VoicemeeterApplication::VoicemeeterPotato => true,
            VoicemeeterApplication::PotatoX64Bits => true,
            _ => false,
        };
        if valid {
            if self.is_physical() {
                Ok(StripCompressor::new(self.remote, self.strip_index))
            } else {
                Err(
                    ParameterError::Type(
                        InvalidTypeError::ExpectedPhysical {
                            name: String::from_str("Strip"),
                            strip_index: self.strip_index,
                            parameter: String::from_str("Comp"),
                        },
                    ),
                )
            }
        } else {
            let expected = vec![
                VoicemeeterApplication::VoicemeeterPotato,
                VoicemeeterApplication::PotatoX64Bits,
            ];
            proof {
                assert(expected@ =~= seq![
                    VoicemeeterApplication::VoicemeeterPotato,
                    VoicemeeterApplication::PotatoX64Bits,
                ]);
            }
            Err(
                ParameterError::Version(
                    InvalidVoicemeeterVersion {
                        expected,
                        found: self.remote.program,
                        parameter: self.param("Comp").0,
                    },
                ),
            )
        }
    }

    /// Gate knob.
    ///
    /// See also [`Strip::gate_detailed`] for detailed gate settings.
    pub fn gate(&self) -> (r: FloatParameter<'a, true, true>)
        ensures
            r.name@ == spec_indexed_param("Strip"@, self.strip_index.0 as int, "Gate"@),
            r.remote == self.remote,
    {
        FloatParameter::new(self.param("Gate"), self.remote)
    }

    /// Detailed gate settings; they exist only for physical strips of
    /// Voicemeeter Potato.
    pub fn gate_detailed(&self) -> (r: Result<StripGate<'a>, ParameterError>)
        ensures
            (strip_details_available(self.remote.program) && self.spec_is_physical()) ==> (r
                matches Ok(g) && g.remote == self.remote && g.strip_index == self.strip_index),
            (strip_details_available(self.remote.program) && !self.spec_is_physical()) ==> (r
                matches Err(e) && e matches ParameterError::Type(
                InvalidTypeError::ExpectedPhysical { name, strip_index, parameter },
            ) && name@ == "Strip"@ && strip_index == self.strip_index && parameter@ == "Gate"@),
            !strip_details_available(self.remote.program) ==> (r matches Err(e) && e matches
                ParameterError::Version(v) && v.found == self.remote.program && v.parameter@
                == spec_indexed_param("Strip"@, self.strip_index.0 as int, "Gate"@)
                && v.expected@ == seq![
                VoicemeeterApplication::VoicemeeterPotato,
                VoicemeeterApplication::PotatoX64Bits,
            ]),
    {
        let valid = match self.remote.program {
            VoicemeeterApplication::VoicemeeterPotato => true,
            VoicemeeterApplication::PotatoX64Bits => true,
            _ => false,
        };
        if valid {
            if self.is_physical() {
                Ok(StripGate::new(self.remote, self.strip_index))
            } else {
                Err(
                    ParameterError::Type(
                        InvalidTypeError::ExpectedPhysical {
                            name: String::from_str("Strip"),
                            strip_index: self.strip_index,
                            parameter: String::from_str("Gate"),
                        },
                    ),
                )
            }
        } else {
            let expected = vec![
                VoicemeeterApplication::VoicemeeterPotato,
                VoicemeeterApplication::PotatoX64Bits,
            ];
            proof {
                assert(expected@ =~= seq![
                    VoicemeeterApplication::VoicemeeterPotato,
                    VoicemeeterApplication::PotatoX64Bits,
                ]);
            }
            Err(
                ParameterError::Version(
                    InvalidVoicemeeterVersion {
                        expected,
                        found: self.remote.program,
                        parameter: self.param("Gate").0,
                    },
                ),
            )
        }
    }

    /// Denoiser knob; it exists only for physical strips of
    /// Voicemeeter Potato.
    pub fn denoiser(&self) -> (r: Result<FloatParameter<'a, true, true>, ParameterError>)
        ensures
            (strip_details_available(self.remote.program) && self.spec_is_physical()) ==> (r
                matches Ok(p) && p.name@ == spec_indexed_param(
                "Strip"@,
                self.strip_index.0 as int,
                "Denoiser"@,
            ) && p.remote == self.remote),
            (strip_details_available(self.remote.program) && !self.spec_is_physical()) ==> (r
                matches Err(e) && e matches ParameterError::Type(
                InvalidTypeError::ExpectedPhysical { name, strip_index, parameter },
            ) && name@ == "Strip"@ && strip_index == self.strip_index && parameter@ == "Gate"@),
            !strip_details_available(self.remote.program) ==> (r matches Err(e) && e matches
                ParameterError::Version(v) && v.found == self.remote.program && v.parameter@
                == spec_indexed_param("Strip"@, self.strip_index.0 as int, "Gate"@)
                && v.expected@ == seq![
                VoicemeeterApplication::VoicemeeterPotato,
                VoicemeeterApplication::PotatoX64Bits,
            ]),
    {
        let valid = match self.remote.program {
            VoicemeeterApplication::VoicemeeterPotato => true,
            VoicemeeterApplication::PotatoX64Bits => true,
            _ => false,
        };
        if valid {
            if self.is_physical() {
                Ok(FloatParameter::new(self.param("Denoiser"), self.remote))
            } else {
                Err(
                    ParameterError::Type(
                        InvalidTypeError::ExpectedPhysical {
                            name: String::from_str("Strip"),
                            strip_index: self.strip_index,
                            parameter: String::from_str("Gate"),
                        },
                    ),
                )
            }
        } else {
            let expected = vec![
                VoicemeeterApplication::VoicemeeterPotato,
                VoicemeeterApplication::PotatoX64Bits,
            ];
            proof {
                assert(expected@ =~= seq![
                    VoicemeeterApplication::VoicemeeterPotato,
                    VoicemeeterApplication::PotatoX64Bits,
                ]);
            }
            Err(
                ParameterError::Version(
                    InvalidVoicemeeterVersion {
                        expected,
                        found: self.remote.program,
                        parameter: self.param("Gate").0,
                    },
                ),
            )
        }
    }

    /// Karaoke mode.
    pub fn karaoke(&self) -> (r: IntParameter<'a, true, true>)
        ensures
            r.name@ == spec_indexed_param("Strip"@, self.strip_index.0 as int, "Karaoke"@),
            r.remote == self.remote,
            r.range == Some((0i32, 4i32)),
    {
        IntParameter::new(self.param("Karaoke"), self.remote, 0, 4)
    }

    /// Limiter.
    pub fn limit(&self) -> (r: IntParameter<'a, true, true>)
        ensures
            r.name@ == spec_indexed_param("Strip"@, self.strip_index.0 as int, "Limit"@),
            r.remote == self.remote,
            r.range == Some((-40i32, 12i32)),
    {
        IntParameter::new(self.param("Limit"), self.remote, -40, 12)
    }

    /// EQGain1 of a virtual strip.
    pub fn eq_gain1(&self) -> (r: Result<FloatParameter<'a, true, true>, InvalidTypeError>)
        ensures
            self.spec_is_physical() ==> (r matches Err(e) && e matches
                InvalidTypeError::ExpectedPhysical { name, strip_index, parameter } && name@
                == "Strip"@ && strip_index == self.strip_index && parameter@ == "EQGain1"@),
            !self.spec_is_physical() ==> (r matches Ok(p) && p.name@ == spec_indexed_param(
                "Strip"@,
                self.strip_index.0 as int,
                "EQGain1"@,
            ) && p.remote == self.remote),
    {
        if self.is_physical() {
            Err(
                InvalidTypeError::ExpectedPhysical {
                    name: String::from_str("Strip"),
                    strip_index: self.strip_index,
                    parameter: String::from_str("EQGain1"),
                },
            )
        } else {
            Ok(FloatParameter::new(self.param("EQGain1"), self.remote))
        }
    }

    /// EQGain2 of a virtual strip.
    pub fn eq_gain2(&self) -> (r: Result<FloatParameter<'a, true, true>, InvalidTypeError>)
        ensures
            self.spec_is_physical() ==> (r matches Err(e) && e matches
                InvalidTypeError::ExpectedPhysical { name, strip_index, parameter } && name@
                == "Strip"@ && strip_index == self.strip_index && parameter@ == "EQGain2"@),
            !self.spec_is_physical() ==> (r matches Ok(p) && p.name@ == spec_indexed_param(
                "Strip"@,
                self.strip_index.0 as int,
                "EQGain2"@,
            ) && p.remote == self.remote),
    {
        if self.is_physical() {
            Err(
                InvalidTypeError::ExpectedPhysical {
                    name: String::from_str("Strip"),
                    strip_index: self.strip_index,
                    parameter: String::from_str("EQGain2"),
                },
            )
        } else {
            Ok(FloatParameter::new(self.param("EQGain2"), self.remote))
        }
    }

    /// EQGain3 of a virtual strip.
    pub fn eq_gain3(&self) -> (r: Result<FloatParameter<'a, true, true>, InvalidTypeError>)
        ensures
            self.spec_is_physical() ==> (r matches Err(e) && e matches
                InvalidTypeError::ExpectedPhysical { name, strip_index, parameter } && name@
                == "Strip"@ && strip_index == self.strip_index && parameter@ == "EQGain3"@),
            !self.spec_is_physical() ==> (r matches Ok(p) && p.name@ == spec_indexed_param(
                "Strip"@,
                self.strip_index.0 as int,
                "EQGain3"@,
            ) && p.remote == self.remote),
    {
        if self.is_physical() {
            Err(
                InvalidTypeError::ExpectedPhysical {
                    name: String::from_str("Strip"),
                    strip_index: self.strip_index,
                    parameter: String::from_str("EQGain3"),
                },
            )
        } else {
            Ok(FloatParameter::new(self.param("EQGain3"), self.remote))
        }
    }

    /// Label.
    pub fn label(&self) -> (r: StringParameter<'a, true, true>)
        ensures
            r.name@ == spec_indexed_param("Strip"@, self.strip_index.0 as int, "Label"@),
            r.remote == self.remote,
    {
        StringParameter::new(self.param("Label"), self.remote)
    }

    /// Out bus assignation for A1.
    pub fn a1(&self) -> (r: BoolParameter<'a, true, true>)
        ensures
            r.name@ == spec_indexed_param("Strip"@, self.strip_index.0 as int, "A1"@),
            r.remote == self.remote,
    {
        BoolParameter::new(self.param("A1"), self.remote)
    }

    /// Out bus assignation for A2.
    pub fn a2(&self) -> (r: BoolParameter<'a, true, true>)
        ensures
            r.name@ == spec_indexed_param("Strip"@, self.strip_index.0 as int, "A2"@),
            r.remote == self.remote,
    {
        BoolParameter::new(self.param("A2"), self.remote)
    }

    /// Out bus assignation for A3.
    pub fn a3(&self) -> (r: BoolParameter<'a, true, true>)
        ensures
            r.name@ == spec_indexed_param("Strip"@, self.strip_index.0 as int, "A3"@),
            r.remote == self.remote,
    {
        BoolParameter::new(self.param("A3"), self.remote)
    }

    /// Out bus assignation for A4.
    pub fn a4(&self) -> (r: BoolParameter<'a, true, true>)
        ensures
            r.name@ == spec_indexed_param("Strip"@, self.strip_index.0 as int, "A4"@),
            r.remote == self.remote,
    {
        BoolParameter::new(self.param("A4"), self.remote)
    }

    /// Out bus assignation for A5.
    pub fn a5(&self) -> (r: BoolParameter<'a, true, true>)
        ensures
            r.name@ == spec_indexed_param("Strip"@, self.strip_index.0 as int, "A5"@),
            r.remote == self.remote,
    {
        BoolParameter::new(self.param("A5"), self.remote)
    }

    /// Out bus assignation for B1.
    pub fn b1(&self) -> (r: BoolParameter<'a, true, true>)
        ensures
            r.name@ == spec_indexed_param("Strip"@, self.strip_index.0 as int, "B1"@),
            r.remote == self.remote,
    {
        BoolParameter::new(self.param("B1"), self.remote)
    }

    /// Out bus assignation for B2.
    pub fn b2(&self) -> (r: BoolParameter<'a, true, true>)
        ensures
            r.name@ == spec_indexed_param("Strip"@, self.strip_index.0 as int, "B2"@),
            r.remote == self.remote,
    {
        BoolParameter::new(self.param("B2"), self.remote)
    }

    /// Out bus assignation for B3.
    pub fn b3(&self) -> (r: BoolParameter<'a, true, true>)
        ensures
            r.name@ == spec_indexed_param("Strip"@, self.strip_index.0 as int, "B3"@),
            r.remote == self.remote,
    {
        BoolParameter::new(self.param("B3"), self.remote)
    }

    /// EQ button.
    pub fn eq_on(&self) -> (r: BoolParameter<'a, true, true>)
        ensures
            r.name@ == spec_indexed_param("Strip"@, self.strip_index.0 as int, "EQ.on"@),
            r.remote == self.remote,
    {
        BoolParameter::new(self.param("EQ.on"), self.remote)
    }

    /// EQ memory slot.
    pub fn eq_ab(&self) -> (r: BoolParameter<'a, true, true>)
        ensures
            r.name@ == spec_indexed_param("Strip"@, self.strip_index.0 as int, "EQ.AB"@),
            r.remote == self.remote,
    {
        BoolParameter::new(self.param("EQ.AB"), self.remote)
    }

    /// EQ of one channel; it exists only for physical strips of
    /// Voicemeeter Potato.
    pub fn eq(&self, channel: usize) -> (r: Result<EqChannelParameter<'a>, ParameterError>)
        ensures
            (strip_details_available(self.remote.program) && self.spec_is_physical()) ==> (r
                matches Ok(eqp) && eqp.spec_base() == "Strip"@ && eqp.spec_index()
                == self.strip_index.0 as int && eqp.spec_channel() == channel as nat
                && eqp.spec_remote() == self.remote),
            (strip_details_available(self.remote.program) && !self.spec_is_physical()) ==> (r
                matches Err(e) && e matches ParameterError::Type(
                InvalidTypeError::ExpectedPhysical { name, strip_index, parameter },
            ) && name@ == "Strip"@ && strip_index == self.strip_index && parameter@
                == spec_eq_channel_name("Strip"@, self.strip_index.0 as int, channel as nat)),
            !strip_details_available(self.remote.program) ==> (r matches Err(e) && e matches
                ParameterError::Version(v) && v.found == self.remote.program && v.parameter@
                == spec_eq_channel_name("Strip"@, self.strip_index.0 as int, channel as nat)
                && v.expected@ == seq![
                VoicemeeterApplication::VoicemeeterPotato,
                VoicemeeterApplication::PotatoX64Bits,
            ]),
    {
        let eqp = EqChannelParameter::new_strip(self.remote, self.strip_index, channel);
        let valid = match self.remote.program {
            VoicemeeterApplication::VoicemeeterPotato => true,
            VoicemeeterApplication::PotatoX64Bits => true,
            _ => false,
        };
        if valid {
            if self.is_physical() {
                Ok(eqp)
            } else {
                Err(
                    ParameterError::Type(
                        InvalidTypeError::ExpectedPhysical {
                            name: String::from_str("Strip"),
                            strip_index: self.strip_index,
                            parameter: eqp.name(),
                        },
                    ),
                )
            }
        } else {
            let expected = vec![
                VoicemeeterApplication::VoicemeeterPotato,
                VoicemeeterApplication::PotatoX64Bits,
            ];
            proof {
                assert(expected@ =~= seq![
                    VoicemeeterApplication::VoicemeeterPotato,
                    VoicemeeterApplication::PotatoX64Bits,
                ]);
            }
            Err(
                ParameterError::Version(
                    InvalidVoicemeeterVersion {
                        expected,
                        found: self.remote.program,
                        parameter: eqp.name(),
                    },
                ),
            )
        }
    }

    /// Fade to a gain over a duration.
    pub fn fade_to(&self) -> (r: TupleParameter<'a, i32, usize, true, true>)
        ensures
            r.name@ == spec_indexed_param("Strip"@, self.strip_index.0 as int, "FadeTo"@),
            r.remote == self.remote,
    {
        TupleParameter::new(self.param("FadeTo"), self.remote)
    }

    /// Fade by a gain delta over a duration.
    pub fn fade_by(&self) -> (r: TupleParameter<'a, i32, usize, true, true>)
        ensures
            r.name@ == spec_indexed_param("Strip"@, self.strip_index.0 as int, "FadeBy"@),
            r.remote == self.remote,
    {
        TupleParameter::new(self.param("FadeBy"), self.remote)
    }

    /// Send level to reverb.
    pub fn reverb(&self) -> (r: FloatParameter<'a, true, true>)
        ensures
            r.name@ == spec_indexed_param("Strip"@, self.strip_index.0 as int, "Reverb"@),
            r.remote == self.remote,
    {
        FloatParameter::new(self.param("Reverb"), self.remote)
    }

    /// Send level to delay.
    pub fn delay(&self) -> (r: FloatParameter<'a, true, true>)
        ensures
            r.name@ == spec_indexed_param("Strip"@, self.strip_index.0 as int, "Delay"@),
            r.remote == self.remote,
    {
        FloatParameter::new(self.param("Delay"), self.remote)
    }

    /// Send level to external Fx1.
    pub fn fx1(&self) -> (r: FloatParameter<'a, true, true>)
        ensures
            r.name@ == spec_indexed_param("Strip"@, self.strip_index.0 as int, "Fx1"@),
            r.remote == self.remote,
    {
        FloatParameter::new(self.param("Fx1"), self.remote)
    }

    /// Send level to external Fx2.
    pub fn fx2(&self) -> (r: FloatParameter<'a, true, true>)
        ensures
            r.name@ == spec_indexed_param("Strip"@, self.strip_index.0 as int, "Fx2"@),
            r.remote == self.remote,
    {
        FloatParameter::new(self.param("Fx2"), self.remote)
    }

    /// Post reverb button.
    pub fn post_reverb(&self) -> (r: BoolParameter<'a, true, true>)
        ensures
            r.name@ == spec_indexed_param("Strip"@, self.strip_index.0 as int, "PostReverb"@),
            r.remote == self.remote,
    {
        BoolParameter::new(self.param("PostReverb"), self.remote)
    }

    /// Post delay button.
    pub fn post_delay(&self) -> (r: BoolParameter<'a, true, true>)
        ensures
            r.name@ == spec_indexed_param("Strip"@, self.strip_index.0 as int, "PostDelay"@),
            r.remote == self.remote,
    {
        BoolParameter::new(self.param("PostDelay"), self.remote)
    }

    /// Post Fx1 button.
    pub fn post_fx1(&self) -> (r: BoolParameter<'a, true, true>)
        ensures
            r.name@ == spec_indexed_param("Strip"@, self.strip_index.0 as int, "PostFx1"@),
            r.remote == self.remote,
    {
        BoolParameter::new(self.param("PostFx1"), self.remote)
    }

    /// Post Fx2 button.
    pub fn post_fx2(&self) -> (r: BoolParameter<'a, true, true>)
        ensures
            r.name@ == spec_indexed_param("Strip"@, self.strip_index.0 as int, "PostFx2"@),
            r.remote == self.remote,
    {
        BoolParameter::new(self.param("PostFx2"), self.remote)
    }

    /// Gain of one application routed through this strip.
    pub fn app_gain_indexed(&self, application_index: ZIndex) -> (r: FloatParameter<
        'a,
        true,
        false,
    >)
        ensures
            r.name@ == spec_indexed_param(
                "Strip"@,
                self.strip_index.0 as int,
                "App["@ + spec_decimal(application_index.0 as int) + "].Gain"@,
            ),
            r.remote == self.remote,
    {
        let mut dot = String::from_str("App[");
        let digits = crate::decimal::i32_decimal(application_index.0);
        dot.append(digits.as_str());
        dot.append("].Gain");
        proof {
            assert(dot@ =~= "App["@ + spec_decimal(application_index.0 as int) + "].Gain"@);
        }
        FloatParameter::new(self.param(dot.as_str()), self.remote)
    }

    /// Mute of one application routed through this strip.
    pub fn app_mute_indexed(&self, application_index: ZIndex) -> (r: BoolParameter<
        'a,
        true,
        false,
    >)
        ensures
            r.name@ == spec_indexed_param(
                "Strip"@,
                self.strip_index.0 as int,
                "App["@ + spec_decimal(application_index.0 as int) + "].Mute"@,
            ),
            r.remote == self.remote,
    {
        let mut dot = String::from_str("App[");
        let digits = crate::decimal::i32_decimal(application_index.0);
        dot.append(digits.as_str());
        dot.append("].Mute");
        proof {
            assert(dot@ =~= "App["@ + spec_decimal(application_index.0 as int) + "].Mute"@);
        }
        BoolParameter::new(self.param(dot.as_str()), self.remote)
    }

    /// Mute of one application routed through this strip, by name.
    pub fn app_mute(&self) -> (r: TupleParameter<'a, String, bool, true, false>)
        ensures
            r.name@ == spec_indexed_param("Strip"@, self.strip_index.0 as int, "AppMute"@),
            r.remote == self.remote,
    {
        TupleParameter::new(self.param("AppMute"), self.remote)
    }

    /// Audio device information of a physical strip.
    pub fn device(&self) -> (r: Result<StripDevice<'a>, InvalidTypeError>)
        ensures
            self.spec_is_virtual() ==> (r matches Err(e) && e matches
                InvalidTypeError::ExpectedPhysical { name, strip_index, parameter } && name@
                == "Strip"@ && strip_index == self.strip_index && parameter@ == "device"@),
            !self.spec_is_virtual() ==> (r matches Ok(d) && d.remote == self.remote
                && d.strip_index == self.strip_index),
    {
        if self.is_virtual() {
            Err(
                InvalidTypeError::ExpectedPhysical {
                    name: String::from_str("Strip"),
                    strip_index: self.strip_index,
                    parameter: String::from_str("device"),
                },
            )
        } else {
            Ok(StripDevice::new(self.remote, self.strip_index))
        }
    }
}

/// Strip device parameters.
pub struct StripDevice<'a> {
    /// The session the strip belongs to.
    pub remote: &'a VoicemeeterRemote,
    /// The strip's index.
    pub strip_index: ZIndex,
}

impl<'a> StripDevice<'a> {
    /// Bind a strip index to a session.
    pub fn new(remote: &'a VoicemeeterRemote, strip_index: ZIndex) -> (r: Self)
        ensures
            r.remote == remote,
            r.strip_index == strip_index,
    {
        Self { remote, strip_index }
    }

    /// Get the identifier for a device parameter on this strip:
    /// `Strip[i].device.{dot}`.
    pub fn param(&self, dot: &str) -> (r: ParameterName)
        ensures
            r@ == spec_indexed_param(
                "Strip"@,
                self.strip_index.0 as int,
                "device."@ + dot@,
            ),
    {
        let mut full = String::from_str("device.");
        full.append(dot);
        proof {
            assert(full@ =~= "device."@ + dot@);
        }
        indexed_param("Strip", self.strip_index, full.as_str())
    }

    /// Name of the device.
    pub fn name(&self) -> (r: StringParameter<'a, false, true>)
        ensures
            r.name@ == spec_indexed_param(
                "Strip"@,
                self.strip_index.0 as int,
                ("device."@ + "name"@),
            ),
            r.remote == self.remote,
    {
        StringParameter::new(self.param("name"), self.remote)
    }

    /// Samplerate of the device.
    pub fn sr(&self) -> (r: IntParameter<'a, false, true>)
        ensures
            r.name@ == spec_indexed_param("Strip"@, self.strip_index.0 as int, ("device."@ + "sr"@)),
            r.remote == self.remote,
            r.range is None,
    {
        IntParameter::new_unranged(self.param("sr"), self.remote)
    }

    /// Select the WDM device.
    pub fn wdm(&self) -> (r: StringParameter<'a, true, false>)
        ensures
            r.name@ == spec_indexed_param("Strip"@, self.strip_index.0 as int, ("device."@ + "wdm"@)),
            r.remote == self.remote,
    {
        StringParameter::new(self.param("wdm"), self.remote)
    }

    /// Select the KS device.
    pub fn ks(&self) -> (r: StringParameter<'a, true, false>)
        ensures
            r.name@ == spec_indexed_param("Strip"@, self.strip_index.0 as int, ("device."@ + "ks"@)),
            r.remote == self.remote,
    {
        StringParameter::new(self.param("ks"), self.remote)
    }

    /// Select the MME device.
    pub fn mme(&self) -> (r: StringParameter<'a, true, false>)
        ensures
            r.name@ == spec_indexed_param("Strip"@, self.strip_index.0 as int, ("device."@ + "mme"@)),
            r.remote == self.remote,
    {
        StringParameter::new(self.param("mme"), self.remote)
    }

    /// Select the ASIO device.
    pub fn asio(&self) -> (r: StringParameter<'a, true, false>)
        ensures
            r.name@ == spec_indexed_param("Strip"@, self.strip_index.0 as int, ("device."@ + "asio"@)),
            r.remote == self.remote,
    {
        StringParameter::new(self.param("asio"), self.remote)
    }
}

/// Detailed compressor settings; they exist only on Voicemeeter
/// Potato.
pub struct StripCompressor<'a> {
    /// The session the strip belongs to.
    pub remote: &'a VoicemeeterRemote,
    /// The strip's index.
    pub strip_index: ZIndex,
}

impl<'a> StripCompressor<'a> {
    /// Bind a strip index to a session.
    pub fn new(remote: &'a VoicemeeterRemote, strip_index: ZIndex) -> (r: Self)
        ensures
            r.remote == remote,
            r.strip_index == strip_index,
    {
        Self { remote, strip_index }
    }

    /// Get the identifier for a compressor parameter on this strip:
    /// `Strip[i].comp.{dot}`.
    pub fn param(&self, dot: &str) -> (r: ParameterName)
        ensures
            r@ == spec_indexed_param("Strip"@, self.strip_index.0 as int, "comp."@ + dot@),
    {
        let mut full = String::from_str("comp.");
        full.append(dot);
        proof {
            assert(full@ =~= "comp."@ + dot@);
        }
        indexed_param("Strip", self.strip_index, full.as_str())
    }

    /// Input gain, to control the gain before compression.
    pub fn gain_in(&self) -> (r: FloatParameter<'a, true, true>)
        ensures
            r.name@ == spec_indexed_param("Strip"@, self.strip_index.0 as int, ("comp."@ + "GainIn"@)),
            r.remote == self.remote,
    {
        FloatParameter::new(self.param("GainIn"), self.remote)
    }

    /// Compression ratio.
    pub fn ratio(&self) -> (r: FloatParameter<'a, true, true>)
        ensures
            r.name@ == spec_indexed_param("Strip"@, self.strip_index.0 as int, ("comp."@ + "Ratio"@)),
            r.remote == self.remote,
    {
        FloatParameter::new(self.param("Ratio"), self.remote)
    }

    /// Threshold where compression starts.
    pub fn threshold(&self) -> (r: FloatParameter<'a, true, true>)
        ensures
            r.name@ == spec_indexed_param(
                "Strip"@,
                self.strip_index.0 as int,
                ("comp."@ + "Threshold"@),
            ),
            r.remote == self.remote,
    {
        FloatParameter::new(self.param("Threshold"), self.remote)
    }

    /// Attack time in milliseconds.
    pub fn attack(&self) -> (r: FloatParameter<'a, true, true>)
        ensures
            r.name@ == spec_indexed_param("Strip"@, self.strip_index.0 as int, ("comp."@ + "Attack"@)),
            r.remote == self.remote,
    {
        FloatParameter::new(self.param("Attack"), self.remote)
    }

    /// Release time in milliseconds.
    pub fn release(&self) -> (r: FloatParameter<'a, true, true>)
        ensures
            r.name@ == spec_indexed_param(
                "Strip"@,
                self.strip_index.0 as int,
                ("comp."@ + "Release"@),
            ),
            r.remote == self.remote,
    {
        FloatParameter::new(self.param("Release"), self.remote)
    }

    /// Knee: the softness of the compression transition.
    pub fn knee(&self) -> (r: FloatParameter<'a, true, true>)
        ensures
            r.name@ == spec_indexed_param("Strip"@, self.strip_index.0 as int, ("comp."@ + "Knee"@)),
            r.remote == self.remote,
    {
        FloatParameter::new(self.param("Knee"), self.remote)
    }

    /// Output gain, to control the gain after compression.
    pub fn gain_out(&self) -> (r: FloatParameter<'a, true, true>)
        ensures
            r.name@ == spec_indexed_param(
                "Strip"@,
                self.strip_index.0 as int,
                ("comp."@ + "GainOut"@),
            ),
            r.remote == self.remote,
    {
        FloatParameter::new(self.param("GainOut"), self.remote)
    }

    /// Auto make-up option: compensate the compression automatically.
    pub fn make_up(&self) -> (r: BoolParameter<'a, true, true>)
        ensures
            r.name@ == spec_indexed_param("Strip"@, self.strip_index.0 as int, ("comp."@ + "MakeUp"@)),
            r.remote == self.remote,
    {
        BoolParameter::new(self.param("MakeUp"), self.remote)
    }
}

/// Detailed gate settings; they exist only on Voicemeeter Potato.
pub struct StripGate<'a> {
    /// The session the strip belongs to.
    pub remote: &'a VoicemeeterRemote,
    /// The strip's index.
    pub strip_index: ZIndex,
}

impl<'a> StripGate<'a> {
    /// Bind a strip index to a session.
    pub fn new(remote: &'a VoicemeeterRemote, strip_index: ZIndex) -> (r: Self)
        ensures
            r.remote == remote,
            r.strip_index == strip_index,
    {
        Self { remote, strip_index }
    }

    /// Get the identifier for a gate parameter on this strip:
    /// `Strip[i].Gate.{dot}`.
    pub fn param(&self, dot: &str) -> (r: ParameterName)
        ensures
            r@ == spec_indexed_param("Strip"@, self.strip_index.0 as int, "Gate."@ + dot@),
    {
        let mut full = String::from_str("Gate.");
        full.append(dot);
        proof {
            assert(full@ =~= "Gate."@ + dot@);
        }
        indexed_param("Strip", self.strip_index, full.as_str())
    }

    /// Threshold level at which the noise gate engages.
    pub fn threshold(&self) -> (r: FloatParameter<'a, true, true>)
        ensures
            r.name@ == spec_indexed_param(
                "Strip"@,
                self.strip_index.0 as int,
                ("Gate."@ + "Threshold"@),
            ),
            r.remote == self.remote,
    {
        FloatParameter::new(self.param("Threshold"), self.remote)
    }

    /// Damping max: limits the noise gate's gain reduction.
    pub fn damping(&self) -> (r: FloatParameter<'a, true, true>)
        ensures
            r.name@ == spec_indexed_param(
                "Strip"@,
                self.strip_index.0 as int,
                ("Gate."@ + "Damping"@),
            ),
            r.remote == self.remote,
    {
        FloatParameter::new(self.param("Damping"), self.remote)
    }

    /// Band pass sidechain frequency in hertz.
    pub fn bp_sidechain(&self) -> (r: FloatParameter<'a, true, true>)
        ensures
            r.name@ == spec_indexed_param(
                "Strip"@,
                self.strip_index.0 as int,
                ("Gate."@ + "BPSidechain"@),
            ),
            r.remote == self.remote,
    {
        FloatParameter::new(self.param("BPSidechain"), self.remote)
    }

    /// Attack time in milliseconds.
    pub fn attack(&self) -> (r: FloatParameter<'a, true, true>)
        ensures
            r.name@ == spec_indexed_param("Strip"@, self.strip_index.0 as int, ("Gate."@ + "Attack"@)),
            r.remote == self.remote,
    {
        FloatParameter::new(self.param("Attack"), self.remote)
    }

    /// Hold time in milliseconds: the minimal time the noise gate
    /// stays engaged.
    pub fn hold(&self) -> (r: FloatParameter<'a, true, true>)
        ensures
            r.name@ == spec_indexed_param("Strip"@, self.strip_index.0 as int, ("Gate."@ + "Hold"@)),
            r.remote == self.remote,
    {
        FloatParameter::new(self.param("Hold"), self.remote)
    }

    /// Release time in milliseconds: how quickly the noise gate's
    /// gain reduction returns.
    pub fn release(&self) -> (r: FloatParameter<'a, true, true>)
        ensures
            r.name@ == spec_indexed_param(
                "Strip"@,
                self.strip_index.0 as int,
                ("Gate."@ + "Release"@),
            ),
            r.remote == self.remote,
    {
        FloatParameter::new(self.param("Release"), self.remote)
    }
}

} // verus!
