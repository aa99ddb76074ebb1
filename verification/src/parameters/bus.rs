//! Bus parameters: a bus is an output.

use vstd::prelude::*;

use crate::decimal::{spec_udecimal, usize_decimal};
use crate::interface::VoicemeeterRemote;
use crate::parameters::{
    indexed_param, spec_indexed_param, BoolParameter, IntParameter, ParameterName,
    StringParameter, TupleParameter,
};
use crate::types::{BusMode, ZIndex};

verus! {

/// Parameters for a bus: an output. In the interface these are called
/// `A1`, `A2`, `B1` and so on.
pub struct Bus<'a> {
    /// The session the bus belongs to.
    pub remote: &'a VoicemeeterRemote,
    /// The bus's index.
    pub bus_index: ZIndex,
}

impl<'a> Bus<'a> {
    /// Bind a bus index to a session.
    pub fn new(remote: &'a VoicemeeterRemote, bus_index: ZIndex) -> (r: Self)
        ensures
            r.remote == remote,
            r.bus_index == bus_index,
    {
        Bus { remote, bus_index }
    }

    /// Get the identifier for a parameter on this bus: `Bus[i].{dot}`.
    pub fn param(&self, dot: &str) -> (r: ParameterName)
        ensures
            r@ == spec_indexed_param("Bus"@, self.bus_index.0 as int, dot@),
    {
        indexed_param("Bus", self.bus_index, dot)
    }

    /// Label.
    pub fn label(&self) -> (r: StringParameter<'a, true, true>)
        ensures
            r.name@ == spec_indexed_param("Bus"@, self.bus_index.0 as int, "Label"@),
            r.remote == self.remote,
    {
        StringParameter::new(self.param("Label"), self.remote)
    }

    /// Mono button.
    pub fn mono(&self) -> (r: IntParameter<'a, true, true>)
        ensures
            r.name@ == spec_indexed_param("Bus"@, self.bus_index.0 as int, "Mono"@),
            r.remote == self.remote,
            r.range == Some((0i32, 2i32)),
    {
        IntParameter::new(self.param("Mono"), self.remote, 0, 2)
    }

    /// Mute button.
    pub fn mute(&self) -> (r: BoolParameter<'a, true, true>)
        ensures
            r.name@ == spec_indexed_param("Bus"@, self.bus_index.0 as int, "Mute"@),
            r.remote == self.remote,
    {
        BoolParameter::new(self.param("Mute"), self.remote)
    }

    /// EQ button.
    pub fn eq_on(&self) -> (r: BoolParameter<'a, true, true>)
        ensures
            r.name@ == spec_indexed_param("Bus"@, self.bus_index.0 as int, "EQ.on"@),
            r.remote == self.remote,
    {
        BoolParameter::new(self.param("EQ.on"), self.remote)
    }

    /// EQ memory slot.
    pub fn eq_ab(&self) -> (r: BoolParameter<'a, true, true>)
        ensures
            r.name@ == spec_indexed_param("Bus"@, self.bus_index.0 as int, "EQ.AHB"@),
            r.remote == self.remote,
    {
        BoolParameter::new(self.param("EQ.AHB"), self.remote)
    }

    /// Gain slider.
    pub fn gain(&self) -> (r: IntParameter<'a, true, true>)
        ensures
            r.name@ == spec_indexed_param("Bus"@, self.bus_index.0 as int, "gain"@),
            r.remote == self.remote,
            r.range == Some((-60i32, 12i32)),
    {
        IntParameter::new(self.param("gain"), self.remote, -60, 12)
    }

    /// Bus mode.
    pub fn mode(&self) -> (r: BusModeParameter<'a>)
        ensures
            r.remote == self.remote,
            r.bus_index == self.bus_index,
    {
        BusModeParameter::new(self.remote, self.bus_index)
    }

    /// EQ on a channel.
    pub fn eq(&self, channel: usize) -> (r: EqChannelParameter<'a>)
        ensures
            r.remote == self.remote,
            r.bus_index == self.bus_index,
            r.channel == channel,
    {
        EqChannelParameter::new(self.remote, self.bus_index, channel)
    }

    /// Fade to a gain over a duration.
    pub fn fade_to(&self) -> (r: TupleParameter<'a, i32, usize, true, true>)
        ensures
            r.name@ == spec_indexed_param("Bus"@, self.bus_index.0 as int, "FadeTo"@),
            r.remote == self.remote,
    {
        TupleParameter::new(self.param("FadeTo"), self.remote)
    }

    /// Fade by a gain delta over a duration.
    pub fn fade_by(&self) -> (r: TupleParameter<'a, i32, usize, true, true>)
        ensures
            r.name@ == spec_indexed_param("Bus"@, self.bus_index.0 as int, "FadeBy"@),
            r.remote == self.remote,
    {
        TupleParameter::new(self.param("FadeBy"), self.remote)
    }

    /// Bus SEL button.
    pub fn sel(&self) -> (r: BoolParameter<'a, true, true>)
        ensures
            r.name@ == spec_indexed_param("Bus"@, self.bus_index.0 as int, "Sel"@),
            r.remote == self.remote,
    {
        BoolParameter::new(self.param("Sel"), self.remote)
    }

    /// Reverb return.
    pub fn return_reverb(&self) -> (r: IntParameter<'a, true, true>)
        ensures
            r.name@ == spec_indexed_param("Bus"@, self.bus_index.0 as int, "ReturnReverb"@),
            r.remote == self.remote,
            r.range == Some((0i32, 10i32)),
    {
        IntParameter::new(self.param("ReturnReverb"), self.remote, 0, 10)
    }

    /// Delay return.
    pub fn return_delay(&self) -> (r: IntParameter<'a, true, true>)
        ensures
            r.name@ == spec_indexed_param("Bus"@, self.bus_index.0 as int, "ReturnDelay"@),
            r.remote == self.remote,
            r.range == Some((0i32, 10i32)),
    {
        IntParameter::new(self.param("ReturnDelay"), self.remote, 0, 10)
    }

    /// Fx1 return.
    pub fn return_fx1(&self) -> (r: IntParameter<'a, true, true>)
        ensures
            r.name@ == spec_indexed_param("Bus"@, self.bus_index.0 as int, "ReturnFx1"@),
            r.remote == self.remote,
            r.range == Some((0i32, 10i32)),
    {
        IntParameter::new(self.param("ReturnFx1"), self.remote, 0, 10)
    }

    /// Fx2 return.
    pub fn return_fx2(&self) -> (r: IntParameter<'a, true, true>)
        ensures
            r.name@ == spec_indexed_param("Bus"@, self.bus_index.0 as int, "ReturnFx2"@),
            r.remote == self.remote,
            r.range == Some((0i32, 10i32)),
    {
        IntParameter::new(self.param("ReturnFx2"), self.remote, 0, 10)
    }

    /// Monitor button.
    pub fn monitor(&self) -> (r: BoolParameter<'a, true, true>)
        ensures
            r.name@ == spec_indexed_param("Bus"@, self.bus_index.0 as int, "Monitor"@),
            r.remote == self.remote,
    {
        BoolParameter::new(self.param("Monitor"), self.remote)
    }

    /// Audio device information.
    pub fn device(&self) -> (r: BusDevice<'a>)
        ensures
            r.remote == self.remote,
            r.bus_index == self.bus_index,
    {
        BusDevice::new(self.remote, self.bus_index)
    }
}

/// Parameters for the bus mode: which mixing mode the bus runs in.
pub struct BusModeParameter<'a> {
    /// The session the bus belongs to.
    pub remote: &'a VoicemeeterRemote,
    /// The bus's index.
    pub bus_index: ZIndex,
}

impl<'a> BusModeParameter<'a> {
    /// Bind a bus index to a session.
    pub fn new(remote: &'a VoicemeeterRemote, bus_index: ZIndex) -> (r: Self)
        ensures
            r.remote == remote,
            r.bus_index == bus_index,
    {
        Self { remote, bus_index }
    }

    /// Get the identifier for a bus mode parameter:
    /// `Bus[i].mode.{dot}`.
    pub fn param(&self, dot: &str) -> (r: ParameterName)
        ensures
            r@ == spec_indexed_param("Bus"@, self.bus_index.0 as int, "mode."@ + dot@),
    {
        let mut full = String::from_str("mode.");
        full.append(dot);
        proof {
            assert(full@ =~= "mode."@ + dot@);
        }
        indexed_param("Bus", self.bus_index, full.as_str())
    }

    /// The parameter name suffix that carries one bus mode.
    pub open spec fn spec_mode_dot(mode: BusMode) -> Seq<char> {
        match mode {
            BusMode::Normal => "normal"@,
            BusMode::Amix => "Amix"@,
            BusMode::Bmix => "Bmix"@,
            BusMode::Repeat => "Repeat"@,
            BusMode::Composite => "Composite"@,
            BusMode::TvMix => "TVMix"@,
            BusMode::UpMix21 => "UpMix21"@,
            BusMode::UpMix41 => "UpMix41"@,
            BusMode::UpMix61 => "UpMix61"@,
            BusMode::CenterOnly => "CenterOnly"@,
            BusMode::LfeOnly => "LFEOnly"@,
            BusMode::RearOnly => "RearOnly"@,
        }
    }

    /// The flag parameter that is one exactly when the bus runs in
    /// the given mode; setting it to one puts the bus in that mode.
    pub fn mode_flag(&self, mode: BusMode) -> (r: BoolParameter<'a, true, true>)
        ensures
            r.name@ == spec_indexed_param(
                "Bus"@,
                self.bus_index.0 as int,
                "mode."@ + Self::spec_mode_dot(mode),
            ),
            r.remote == self.remote,
    {
        let dot = match mode {
            BusMode::Normal => "normal",
            BusMode::Amix => "Amix",
            BusMode::Bmix => "Bmix",
            BusMode::Repeat => "Repeat",
            BusMode::Composite => "Composite",
            BusMode::TvMix => "TVMix",
            BusMode::UpMix21 => "UpMix21",
            BusMode::UpMix41 => "UpMix41",
            BusMode::UpMix61 => "UpMix61",
            BusMode::CenterOnly => "CenterOnly",
            BusMode::LfeOnly => "LFEOnly",
            BusMode::RearOnly => "RearOnly",
        };
        proof {
            assert(dot@ == Self::spec_mode_dot(mode));
        }
        BoolParameter::new(self.param(dot), self.remote)
    }

    /// The order in which the bus modes are probed when the current
    /// mode is read: the first one whose flag is set wins, and a bus
    /// with no flag set at all has no known mode.
    pub fn probe_order() -> (r: Vec<BusMode>)
        ensures
            r@ == seq![
                BusMode::Normal,
                BusMode::Amix,
                BusMode::Bmix,
                BusMode::Repeat,
                BusMode::Composite,
                BusMode::TvMix,
                BusMode::UpMix21,
                BusMode::UpMix41,
                BusMode::UpMix61,
                BusMode::CenterOnly,
                BusMode::LfeOnly,
                BusMode::RearOnly,
            ],
    {
        let r = vec![
            BusMode::Normal,
            BusMode::Amix,
            BusMode::Bmix,
            BusMode::Repeat,
            BusMode::Composite,
            BusMode::TvMix,
            BusMode::UpMix21,
            BusMode::UpMix41,
            BusMode::UpMix61,
            BusMode::CenterOnly,
            BusMode::LfeOnly,
            BusMode::RearOnly,
        ];
        proof {
            assert(r@ =~= seq![
                BusMode::Normal,
                BusMode::Amix,
                BusMode::Bmix,
                BusMode::Repeat,
                BusMode::Composite,
                BusMode::TvMix,
                BusMode::UpMix21,
                BusMode::UpMix41,
                BusMode::UpMix61,
                BusMode::CenterOnly,
                BusMode::LfeOnly,
                BusMode::RearOnly,
            ]);
        }
        r
    }

    /// The first probed mode whose flag the engine reported as set,
    /// in probe order; `None` when no flag was set.
    pub fn mode_from_flags(flags: &Vec<(BusMode, bool)>) -> (r: Option<BusMode>)
        ensures
            r matches Some(m) ==> exists|i: int|
                0 <= i < flags@.len() && flags@[i] == (m, true) && (forall|j: int|
                    0 <= j < i ==> !flags@[j].1),
            r is None ==> forall|j: int| 0 <= j < flags@.len() ==> !flags@[j].1,
    {
        let mut k: usize = 0;
        while k < flags.len()
            invariant
                k <= flags@.len(),
                forall|j: int| 0 <= j < k ==> !flags@[j].1,
            decreases flags@.len() - k,
        {
            if flags[k].1 {
                return Some(flags[k].0);
            }
            k = k + 1;
        }
        None
    }
}

/// Parameter for EQ on a specific channel of a bus.
pub struct EqChannelParameter<'a> {
    /// The session the bus belongs to.
    pub remote: &'a VoicemeeterRemote,
    /// The bus's index.
    pub bus_index: ZIndex,
    /// The equalizer channel addressed.
    pub channel: usize,
}

impl<'a> EqChannelParameter<'a> {
    /// Bind a bus index and channel to a session.
    pub fn new(remote: &'a VoicemeeterRemote, bus_index: ZIndex, channel: usize) -> (r: Self)
        ensures
            r.remote == remote,
            r.bus_index == bus_index,
            r.channel == channel,
    {
        Self { remote, bus_index, channel }
    }

    /// Get the identifier for a parameter on this equalizer:
    /// `Strip[i].EQ.channel[{channel}].cell[{cell}].{dot}`.
    pub fn param(&self, cell: usize, dot: &str) -> (r: ParameterName)
        ensures
            r@ == spec_indexed_param(
                "Strip"@,
                self.bus_index.0 as int,
                "EQ.channel["@ + spec_udecimal(self.channel as nat) + "].cell["@ + spec_udecimal(
                    cell as nat,
                ) + "]."@ + dot@,
            ),
    {
        let mut full = String::from_str("EQ.channel[");
        let channel_digits = usize_decimal(self.channel);
        full.append(channel_digits.as_str());
        full.append("].cell[");
        let cell_digits = usize_decimal(cell);
        full.append(cell_digits.as_str());
        full.append("].");
        full.append(dot);
        proof {
            assert(full@ =~= "EQ.channel["@ + spec_udecimal(self.channel as nat) + "].cell["@
                + spec_udecimal(cell as nat) + "]."@ + dot@);
        }
        indexed_param("Strip", self.bus_index, full.as_str())
    }

    /// Turn an EQ cell on or off.
    pub fn on(&self, cell: usize) -> (r: BoolParameter<'a, true, true>)
        ensures
            r.name@ == spec_indexed_param(
                "Strip"@,
                self.bus_index.0 as int,
                "EQ.channel["@ + spec_udecimal(self.channel as nat) + "].cell["@ + spec_udecimal(
                    cell as nat,
                ) + "]."@ + "on"@,
            ),
            r.remote == self.remote,
    {
        BoolParameter::new(self.param(cell, "on"), self.remote)
    }

    /// Type of the EQ filter.
    pub fn type_(&self, cell: usize) -> (r: IntParameter<'a, true, true>)
        ensures
            r.name@ == spec_indexed_param(
                "Strip"@,
                self.bus_index.0 as int,
                "EQ.channel["@ + spec_udecimal(self.channel as nat) + "].cell["@ + spec_udecimal(
                    cell as nat,
                ) + "]."@ + "type"@,
            ),
            r.remote == self.remote,
            r.range == Some((0i32, 6i32)),
    {
        IntParameter::new(self.param(cell, "type"), self.remote, 0, 6)
    }

    /// Gain of the EQ filter.
    pub fn gain(&self, cell: usize) -> (r: IntParameter<'a, true, true>)
        ensures
            r.name@ == spec_indexed_param(
                "Strip"@,
                self.bus_index.0 as int,
                "EQ.channel["@ + spec_udecimal(self.channel as nat) + "].cell["@ + spec_udecimal(
                    cell as nat,
                ) + "]."@ + "gain"@,
            ),
            r.remote == self.remote,
            r.range == Some((-12i32, 12i32)),
    {
        IntParameter::new(self.param(cell, "gain"), self.remote, -12, 12)
    }

    /// Quality of the EQ filter.
    pub fn q(&self, cell: usize) -> (r: IntParameter<'a, true, true>)
        ensures
            r.name@ == spec_indexed_param(
                "Strip"@,
                self.bus_index.0 as int,
                "EQ.channel["@ + spec_udecimal(self.channel as nat) + "].cell["@ + spec_udecimal(
                    cell as nat,
                ) + "]."@ + "q"@,
            ),
            r.remote == self.remote,
            r.range == Some((1i32, 100i32)),
    {
        IntParameter::new(self.param(cell, "q"), self.remote, 1, 100)
    }
}

/// Bus device parameters.
pub struct BusDevice<'a> {
    /// The session the bus belongs to.
    pub remote: &'a VoicemeeterRemote,
    /// The bus's index.
    pub bus_index: ZIndex,
}

impl<'a> BusDevice<'a> {
    /// Bind a bus index to a session.
    pub fn new(remote: &'a VoicemeeterRemote, bus_index: ZIndex) -> (r: Self)
        ensures
            r.remote == remote,
            r.bus_index == bus_index,
    {
        Self { remote, bus_index }
    }

    /// Get the identifier for a device parameter on this bus:
    /// `Strip[i].device.{dot}`.
    pub fn param(&self, dot: &str) -> (r: ParameterName)
        ensures
            r@ == spec_indexed_param("Strip"@, self.bus_index.0 as int, "device."@ + dot@),
    {
        let mut full = String::from_str("device.");
        full.append(dot);
        proof {
            assert(full@ =~= "device."@ + dot@);
        }
        indexed_param("Strip", self.bus_index, full.as_str())
    }

    /// Name of the device.
    pub fn name(&self) -> (r: StringParameter<'a, false, true>)
        ensures
            r.name@ == spec_indexed_param(
                "Strip"@,
                self.bus_index.0 as int,
                "device."@ + "name"@,
            ),
            r.remote == self.remote,
    {
        StringParameter::new(self.param("name"), self.remote)
    }

    /// Samplerate of the device.
    pub fn sr(&self) -> (r: IntParameter<'a, false, true>)
        ensures
            r.name@ == spec_indexed_param("Strip"@, self.bus_index.0 as int, "device."@ + "sr"@),
            r.remote == self.remote,
            r.range is None,
    {
        IntParameter::new_unranged(self.param("sr"), self.remote)
    }

    /// Select the WDM device.
    pub fn wdm(&self) -> (r: StringParameter<'a, true, false>)
        ensures
            r.name@ == spec_indexed_param(
                "Strip"@,
                self.bus_index.0 as int,
                "device."@ + "wdm"@,
            ),
            r.remote == self.remote,
    {
        StringParameter::new(self.param("wdm"), self.remote)
    }

    /// Select the KS device.
    pub fn ks(&self) -> (r: StringParameter<'a, true, false>)
        ensures
            r.name@ == spec_indexed_param("Strip"@, self.bus_index.0 as int, "device."@ + "ks"@),
            r.remote == self.remote,
    {
        StringParameter::new(self.param("ks"), self.remote)
    }

    /// Select the MME device.
    pub fn mme(&self) -> (r: StringParameter<'a, true, false>)
        ensures
            r.name@ == spec_indexed_param(
                "Strip"@,
                self.bus_index.0 as int,
                "device."@ + "mme"@,
            ),
            r.remote == self.remote,
    {
        StringParameter::new(self.param("mme"), self.remote)
    }

    /// Select the ASIO device.
    pub fn asio(&self) -> (r: StringParameter<'a, true, false>)
        ensures
            r.name@ == spec_indexed_param(
                "Strip"@,
                self.bus_index.0 as int,
                "device."@ + "asio"@,
            ),
            r.remote == self.remote,
    {
        StringParameter::new(self.param("asio"), self.remote)
    }
}

} // verus!
