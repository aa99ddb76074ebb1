//! Common structs for EQ.

use vstd::prelude::*;

use crate::decimal::{i32_decimal, spec_decimal, spec_udecimal, usize_decimal};
use crate::interface::VoicemeeterRemote;
use crate::parameters::{BoolParameter, FloatParameter, IntParameter, ParameterName};
use crate::types::ZIndex;

verus! {

/// Whether an equalizer sits on a strip or on a bus.
#[derive(Debug, Clone, Copy, PartialEq, Eq, Structural)]
enum Mode {
    Strip,
    Bus,
}

/// The name of an equalizer channel: `{base}[{index}].EQ.channel[{channel}]`.
pub open spec fn spec_eq_channel_name(base: Seq<char>, index: int, channel: nat) -> Seq<char> {
    base + "["@ + spec_decimal(index) + "].EQ.channel["@ + spec_udecimal(channel) + "]"@
}

/// The name of one cell parameter of an equalizer channel:
/// `{base}[{index}].EQ.channel[{channel}].cell[{cell}].{dot}`.
pub open spec fn spec_eq_cell_param(
    base: Seq<char>,
    index: int,
    channel: nat,
    cell: nat,
    dot: Seq<char>,
) -> Seq<char> {
    spec_eq_channel_name(base, index, channel) + ".cell["@ + spec_udecimal(cell) + "]."@ + dot
}

/// Parameter for EQ on a specific channel and input/output
/// (strip/bus).
pub struct EqChannelParameter<'a> {
    remote: &'a VoicemeeterRemote,
    mode: Mode,
    index: ZIndex,
    channel: usize,
}

impl<'a> EqChannelParameter<'a> {
    /// The base the equalizer's names start with: "Strip" or "Bus".
    pub closed spec fn spec_base(self) -> Seq<char> {
        match self.mode {
            Mode::Strip => "Strip"@,
            Mode::Bus => "Bus"@,
        }
    }

    /// The index of the strip or bus the equalizer sits on.
    pub closed spec fn spec_index(self) -> int {
        self.index.0 as int
    }

    /// The equalizer channel addressed.
    pub closed spec fn spec_channel(self) -> nat {
        self.channel as nat
    }

    /// The session the equalizer belongs to.
    pub closed spec fn spec_remote(self) -> &'a VoicemeeterRemote {
        self.remote
    }

    /// An equalizer channel of a bus.
    pub fn new_bus(remote: &'a VoicemeeterRemote, index: ZIndex, channel: usize) -> (r: Self)
        ensures
            r.spec_base() == "Bus"@,
            r.spec_index() == index.0 as int,
            r.spec_channel() == channel as nat,
            r.spec_remote() == remote,
    {
        Self { remote, mode: Mode::Bus, index, channel }
    }

    /// An equalizer channel of a strip.
    pub fn new_strip(remote: &'a VoicemeeterRemote, index: ZIndex, channel: usize) -> (r: Self)
        ensures
            r.spec_base() == "Strip"@,
            r.spec_index() == index.0 as int,
            r.spec_channel() == channel as nat,
            r.spec_remote() == remote,
    {
        Self { remote, mode: Mode::Strip, index, channel }
    }

    /// The equalizer channel's own name:
    /// `{base}[{index}].EQ.channel[{channel}]`.
    pub fn name(&self) -> (r: String)
        ensures
            r@ == spec_eq_channel_name(self.spec_base(), self.spec_index(), self.spec_channel()),
    {
        let mut s = match self.mode {
            Mode::Strip => String::from_str("Strip"),
            Mode::Bus => String::from_str("Bus"),
        };
        s.append("[");
        let digits = i32_decimal(self.index.0);
        s.append(digits.as_str());
        s.append("].EQ.channel[");
        let channel_digits = usize_decimal(self.channel);
        s.append(channel_digits.as_str());
        s.append("]");
        s
    }

    /// Get the identifier for a parameter on this equalizer:
    /// `{base}[{index}].EQ.channel[{channel}].cell[{cell}].{dot}`.
    pub fn param(&self, cell: usize, dot: &str) -> (r: ParameterName)
        ensures
            r@ == spec_eq_cell_param(
                self.spec_base(),
                self.spec_index(),
                self.spec_channel(),
                cell as nat,
                dot@,
            ),
    {
        let mut s = self.name();
        s.append(".cell[");
        let cell_digits = usize_decimal(cell);
        s.append(cell_digits.as_str());
        s.append("].");
        s.append(dot);
        ParameterName(s)
    }

    /// Turn an EQ cell on or off.
    pub fn on(&self, cell: usize) -> (r: BoolParameter<'a, true, true>)
        ensures
            r.name@ == spec_eq_cell_param(
                self.spec_base(),
                self.spec_index(),
                self.spec_channel(),
                cell as nat,
                "on"@,
            ),
            r.remote == self.spec_remote(),
    {
        BoolParameter::new(self.param(cell, "on"), self.remote)
    }

    /// Type of the EQ filter.
    pub fn type_(&self, cell: usize) -> (r: IntParameter<'a, true, true>)
        ensures
            r.name@ == spec_eq_cell_param(
                self.spec_base(),
                self.spec_index(),
                self.spec_channel(),
                cell as nat,
                "type"@,
            ),
            r.remote == self.spec_remote(),
            r.range == Some((0i32, 6i32)),
    {
        IntParameter::new(self.param(cell, "type"), self.remote, 0, 6)
    }

    /// Frequency of the EQ filter.
    pub fn f(&self, cell: usize) -> (r: FloatParameter<'a, true, true>)
        ensures
            r.name@ == spec_eq_cell_param(
                self.spec_base(),
                self.spec_index(),
                self.spec_channel(),
                cell as nat,
                "f"@,
            ),
            r.remote == self.spec_remote(),
    {
        FloatParameter::new(self.param(cell, "f"), self.remote)
    }

    /// Gain of the EQ filter.
    pub fn gain(&self, cell: usize) -> (r: FloatParameter<'a, true, true>)
        ensures
            r.name@ == spec_eq_cell_param(
                self.spec_base(),
                self.spec_index(),
                self.spec_channel(),
                cell as nat,
                "gain"@,
            ),
            r.remote == self.spec_remote(),
    {
        FloatParameter::new(self.param(cell, "gain"), self.remote)
    }

    /// Quality of the EQ filter.
    pub fn q(&self, cell: usize) -> (r: IntParameter<'a, true, true>)
        ensures
            r.name@ == spec_eq_cell_param(
                self.spec_base(),
                self.spec_index(),
                self.spec_channel(),
                cell as nat,
                "q"@,
            ),
            r.remote == self.spec_remote(),
            r.range == Some((1i32, 100i32)),
    {
        IntParameter::new(self.param(cell, "q"), self.remote, 1, 100)
    }
}

} // verus!
