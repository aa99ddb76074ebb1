//! Basic types: application variants, logical devices, channel index
//! ranges and the per-variant index table.

use vstd::prelude::*;

verus! {

/// A zero-indexed index.
#[derive(Debug, Clone, Copy, Hash, PartialEq, Eq, Structural)]
pub struct ZIndex(pub i32);

/// A macro button. Zero indexed.
#[derive(Debug, Clone, Copy, Hash, PartialEq, Eq, Structural)]
pub struct LogicalButton(pub ZIndex);

/// Voicemeeter application type.
///
/// Fixed per running engine instance; determines the channel topology
/// and which logical devices exist.
#[derive(Clone, Copy, PartialEq, Eq, Hash, Debug, Structural)]
pub enum VoicemeeterApplication {
    /// Standard "base" voicemeeter.
    Voicemeeter,
    /// Voicemeeter Banana.
    VoicemeeterBanana,
    /// Voicemeeter Potato.
    VoicemeeterPotato,
    /// Voicemeeter Potato x64.
    PotatoX64Bits,
    /// Unknown voicemeeter type.
    Other,
    /// No voicemeeter running.
    NotRunning,
}

impl VoicemeeterApplication {
    /// The numeric code the engine uses for this application type.
    pub open spec fn spec_code(self) -> i32 {
        match self {
            VoicemeeterApplication::Voicemeeter => 1,
            VoicemeeterApplication::VoicemeeterBanana => 2,
            VoicemeeterApplication::VoicemeeterPotato => 3,
            VoicemeeterApplication::PotatoX64Bits => 6,
            VoicemeeterApplication::Other => 7,
            VoicemeeterApplication::NotRunning => 255,
        }
    }

    /// The application type for a numeric code reported by the engine.
    pub open spec fn spec_from_code(code: i32) -> VoicemeeterApplication {
        if code == 1 {
            VoicemeeterApplication::Voicemeeter
        } else if code == 2 {
            VoicemeeterApplication::VoicemeeterBanana
        } else if code == 3 {
            VoicemeeterApplication::VoicemeeterPotato
        } else if code == 6 {
            VoicemeeterApplication::PotatoX64Bits
        } else {
            VoicemeeterApplication::Other
        }
    }

    /// Decode the application type from the engine's numeric code.
    pub fn from_code(code: i32) -> (r: VoicemeeterApplication)
        ensures
            r == VoicemeeterApplication::spec_from_code(code),
    {
        match code {
            1 => VoicemeeterApplication::Voicemeeter,
            2 => VoicemeeterApplication::VoicemeeterBanana,
            3 => VoicemeeterApplication::VoicemeeterPotato,
            6 => VoicemeeterApplication::PotatoX64Bits,
            _ => VoicemeeterApplication::Other,
        }
    }

    /// The numeric code the engine uses for this application type.
    pub fn code(&self) -> (r: i32)
        ensures
            r == self.spec_code(),
    {
        match self {
            VoicemeeterApplication::Voicemeeter => 1,
            VoicemeeterApplication::VoicemeeterBanana => 2,
            VoicemeeterApplication::VoicemeeterPotato => 3,
            VoicemeeterApplication::PotatoX64Bits => 6,
            VoicemeeterApplication::Other => 7,
            VoicemeeterApplication::NotRunning => 255,
        }
    }
}

/// Level type, used when reading channel levels.
#[derive(Clone, Copy, PartialEq, Eq, Hash, Debug, Structural)]
pub enum LevelType {
    /// Pre fader input levels.
    PreFaderInputLevels,
    /// Post fader input levels.
    PostFaderInputLevels,
    /// Post mute input levels.
    PostMuteInputLevels,
    /// Output levels.
    OutputLevels,
    /// Unknown level type.
    Other,
}

impl LevelType {
    /// The numeric code the engine uses for this level type.
    pub open spec fn spec_code(self) -> i32 {
        match self {
            LevelType::PreFaderInputLevels => 0,
            LevelType::PostFaderInputLevels => 1,
            LevelType::PostMuteInputLevels => 2,
            LevelType::OutputLevels => 3,
            LevelType::Other => 4,
        }
    }

    /// The level type for a numeric code.
    pub open spec fn spec_from_code(code: i32) -> LevelType {
        if code == 0 {
            LevelType::PreFaderInputLevels
        } else if code == 1 {
            LevelType::PostFaderInputLevels
        } else if code == 2 {
            LevelType::PostMuteInputLevels
        } else if code == 3 {
            LevelType::OutputLevels
        } else {
            LevelType::Other
        }
    }

    /// Decode the level type from its numeric code.
    pub fn from_code(code: i32) -> (r: LevelType)
        ensures
            r == LevelType::spec_from_code(code),
    {
        match code {
            0 => LevelType::PreFaderInputLevels,
            1 => LevelType::PostFaderInputLevels,
            2 => LevelType::PostMuteInputLevels,
            3 => LevelType::OutputLevels,
            _ => LevelType::Other,
        }
    }

    /// The numeric code the engine uses for this level type.
    pub fn code(&self) -> (r: i32)
        ensures
            r == self.spec_code(),
    {
        match self {
            LevelType::PreFaderInputLevels => 0,
            LevelType::PostFaderInputLevels => 1,
            LevelType::PostMuteInputLevels => 2,
            LevelType::OutputLevels => 3,
            LevelType::Other => 4,
        }
    }
}

/// A logical device: an input strip or an output bus.
///
/// Devices are variant-independent identities; not all of them exist
/// for all application variants.
#[derive(Debug, Clone, Copy, Eq, PartialEq, Structural)]
pub enum Device {
    /// Input strip 1. Available on all Voicemeeter versions.
    Strip1,
    /// Input strip 2. Available on all Voicemeeter versions.
    Strip2,
    /// Input strip 3. Available on Voicemeeter Banana and Potato.
    Strip3,
    /// Input strip 4. Available on Voicemeeter Potato.
    Strip4,
    /// Input strip 5. Available on Voicemeeter Potato.
    Strip5,
    /// Output A1. Available on all Voicemeeter versions.
    OutputA1,
    /// Output A2. Available on all Voicemeeter versions.
    OutputA2,
    /// Output A3. Available on Voicemeeter Banana and Potato.
    OutputA3,
    /// Output A4. Available on Voicemeeter Potato.
    OutputA4,
    /// Output A5. Available on Voicemeeter Potato.
    OutputA5,
    /// Virtual output B1. Available on all Voicemeeter versions.
    VirtualOutputB1,
    /// Virtual output B2. Available on Voicemeeter Banana and Potato.
    VirtualOutputB2,
    /// Virtual output B3. Available on Voicemeeter Potato.
    VirtualOutputB3,
    /// Virtual input. Available on all Voicemeeter versions.
    VirtualInput,
    /// Virtual input aux. Available on Voicemeeter Banana and Potato.
    VirtualInputAux,
    /// Virtual input 8. Available on Voicemeeter Potato.
    VirtualInput8,
}

/// Index range in the flat buffers for a device's channels:
/// the contiguous channels `start .. start + size`.
#[derive(Debug, Clone, Copy, PartialEq, Eq, Structural)]
pub struct ChannelIndex {
    /// First channel index.
    pub start: usize,
    /// Number of channels.
    pub size: usize,
}

impl ChannelIndex {
    /// Create a new index range.
    pub fn new(start: usize, size: usize) -> (r: Self)
        ensures
            r.start == start && r.size == size,
    {
        Self { start, size }
    }

    /// The flat index of the `channel`-th channel of this range,
    /// or `None` when the range has fewer channels.
    pub fn get(&self, channel: usize) -> (r: Option<usize>)
        requires
            self.start + self.size <= usize::MAX,
        ensures
            r == if channel < self.size {
                Some((self.start + channel) as usize)
            } else {
                None::<usize>
            },
    {
        if channel < self.size {
            Some(self.start + channel)
        } else {
            None
        }
    }
}

/// Shorthand used by the index table below.
pub open spec fn ci(start: usize, size: usize) -> Option<ChannelIndex> {
    Some(ChannelIndex { start, size })
}

/// The index table for main mode: for every variant and device, the
/// read range and the write range in the flat buffers, or `None` on
/// each side where the device is absent.
///
/// Inputs have only a read range; outputs have a read range (the
/// pre-existing bus content) and a write range (the mixed output).
pub open spec fn main_ranges(program: VoicemeeterApplication, device: Device) -> (Option<
    ChannelIndex,
>, Option<ChannelIndex>) {
    match program {
        VoicemeeterApplication::Voicemeeter => match device {
            Device::Strip1 => (ci(0, 2), None),
            Device::Strip2 => (ci(2, 2), None),
            Device::OutputA1 => (ci(12, 8), ci(0, 8)),
            Device::VirtualOutputB1 => (ci(20, 8), ci(8, 8)),
            Device::VirtualInput => (ci(4, 8), None),
            _ => (None, None),
        },
        VoicemeeterApplication::VoicemeeterBanana => match device {
            Device::Strip1 => (ci(0, 2), None),
            Device::Strip2 => (ci(2, 2), None),
            Device::Strip3 => (ci(4, 2), None),
            Device::OutputA1 => (ci(22, 8), ci(0, 8)),
            Device::OutputA2 => (ci(30, 8), ci(8, 8)),
            Device::OutputA3 => (ci(38, 8), ci(16, 8)),
            Device::VirtualOutputB1 => (ci(46, 8), ci(24, 8)),
            Device::VirtualOutputB2 => (ci(54, 8), ci(32, 8)),
            Device::VirtualInput => (ci(6, 8), None),
            Device::VirtualInputAux => (ci(14, 8), None),
            _ => (None, None),
        },
        VoicemeeterApplication::VoicemeeterPotato | VoicemeeterApplication::PotatoX64Bits => {
            match device {
                Device::Strip1 => (ci(0, 2), None),
                Device::Strip2 => (ci(2, 2), None),
                Device::Strip3 => (ci(4, 2), None),
                Device::Strip4 => (ci(6, 2), None),
                Device::Strip5 => (ci(8, 2), None),
                Device::OutputA1 => (ci(34, 8), ci(0, 8)),
                Device::OutputA2 => (ci(42, 8), ci(8, 8)),
                Device::OutputA3 => (ci(50, 8), ci(16, 8)),
                Device::OutputA4 => (ci(58, 8), ci(24, 8)),
                Device::OutputA5 => (ci(66, 8), ci(32, 8)),
                Device::VirtualOutputB1 => (ci(74, 8), ci(40, 8)),
                Device::VirtualOutputB2 => (ci(82, 8), ci(48, 8)),
                Device::VirtualOutputB3 => (ci(90, 8), ci(56, 8)),
                Device::VirtualInput => (ci(10, 8), None),
                Device::VirtualInputAux => (ci(18, 8), None),
                Device::VirtualInput8 => (ci(26, 8), None),
            }
        },
        _ => (None, None),
    }
}

/// The read range of a device in input mode: the main-mode read range
/// for inputs, and `None` for outputs.
pub open spec fn input_range(program: VoicemeeterApplication, device: Device) -> Option<
    ChannelIndex,
> {
    if device.spec_is_bus() {
        None
    } else {
        main_ranges(program, device).0
    }
}

/// The range of a device in output mode: the same range as its
/// main-mode write range, addressing both the read and the write side.
pub open spec fn output_range(program: VoicemeeterApplication, device: Device) -> Option<
    ChannelIndex,
> {
    main_ranges(program, device).1
}

impl Device {
    /// Whether this device is an input strip (physical or virtual).
    pub open spec fn spec_is_strip(self) -> bool {
        match self {
            Device::Strip1
            | Device::Strip2
            | Device::Strip3
            | Device::Strip4
            | Device::Strip5
            | Device::VirtualInput
            | Device::VirtualInputAux
            | Device::VirtualInput8 => true,
            _ => false,
        }
    }

    /// Whether this device is an output bus (physical or virtual).
    pub open spec fn spec_is_bus(self) -> bool {
        !self.spec_is_strip()
    }

    /// Whether this device is an input strip (physical or virtual).
    pub fn is_strip(&self) -> (r: bool)
        ensures
            r == self.spec_is_strip(),
    {
        match self {
            Device::Strip1
            | Device::Strip2
            | Device::Strip3
            | Device::Strip4
            | Device::Strip5
            | Device::VirtualInput
            | Device::VirtualInputAux
            | Device::VirtualInput8 => true,
            _ => false,
        }
    }

    /// Whether this device is an output bus (physical or virtual).
    pub fn is_bus(&self) -> (r: bool)
        ensures
            r == self.spec_is_bus(),
    {
        !self.is_strip()
    }

    /// The channel index ranges (read side, write side) of this device
    /// in the buffers of a main-mode invocation, where available in the
    /// given program.
    pub fn main(&self, program: &VoicemeeterApplication) -> (r: (
        Option<ChannelIndex>,
        Option<ChannelIndex>,
    ))
        ensures
            r == main_ranges(*program, *self),
    {
        match program {
            VoicemeeterApplication::Voicemeeter => match self {
                Device::Strip1 => (Some(ChannelIndex::new(0, 2)), None),
                Device::Strip2 => (Some(ChannelIndex::new(2, 2)), None),
                Device::OutputA1 => (Some(ChannelIndex::new(12, 8)), Some(ChannelIndex::new(0, 8))),
                Device::VirtualOutputB1 => (
                    Some(ChannelIndex::new(20, 8)),
                    Some(ChannelIndex::new(8, 8)),
                ),
                Device::VirtualInput => (Some(ChannelIndex::new(4, 8)), None),
                _ => (None, None),
            },
            VoicemeeterApplication::VoicemeeterBanana => match self {
                Device::Strip1 => (Some(ChannelIndex::new(0, 2)), None),
                Device::Strip2 => (Some(ChannelIndex::new(2, 2)), None),
                Device::Strip3 => (Some(ChannelIndex::new(4, 2)), None),
                Device::OutputA1 => (Some(ChannelIndex::new(22, 8)), Some(ChannelIndex::new(0, 8))),
                Device::OutputA2 => (Some(ChannelIndex::new(30, 8)), Some(ChannelIndex::new(8, 8))),
                Device::OutputA3 => (
                    Some(ChannelIndex::new(38, 8)),
                    Some(ChannelIndex::new(16, 8)),
                ),
                Device::VirtualOutputB1 => (
                    Some(ChannelIndex::new(46, 8)),
                    Some(ChannelIndex::new(24, 8)),
                ),
                Device::VirtualOutputB2 => (
                    Some(ChannelIndex::new(54, 8)),
                    Some(ChannelIndex::new(32, 8)),
                ),
                Device::VirtualInput => (Some(ChannelIndex::new(6, 8)), None),
                Device::VirtualInputAux => (Some(ChannelIndex::new(14, 8)), None),
                _ => (None, None),
            },
            VoicemeeterApplication::VoicemeeterPotato | VoicemeeterApplication::PotatoX64Bits => {
                match self {
                    Device::Strip1 => (Some(ChannelIndex::new(0, 2)), None),
                    Device::Strip2 => (Some(ChannelIndex::new(2, 2)), None),
                    Device::Strip3 => (Some(ChannelIndex::new(4, 2)), None),
                    Device::Strip4 => (Some(ChannelIndex::new(6, 2)), None),
                    Device::Strip5 => (Some(ChannelIndex::new(8, 2)), None),
                    Device::OutputA1 => (
                        Some(ChannelIndex::new(34, 8)),
                        Some(ChannelIndex::new(0, 8)),
                    ),
                    Device::OutputA2 => (
                        Some(ChannelIndex::new(42, 8)),
                        Some(ChannelIndex::new(8, 8)),
                    ),
                    Device::OutputA3 => (
                        Some(ChannelIndex::new(50, 8)),
                        Some(ChannelIndex::new(16, 8)),
                    ),
                    Device::OutputA4 => (
                        Some(ChannelIndex::new(58, 8)),
                        Some(ChannelIndex::new(24, 8)),
                    ),
                    Device::OutputA5 => (
                        Some(ChannelIndex::new(66, 8)),
                        Some(ChannelIndex::new(32, 8)),
                    ),
                    Device::VirtualOutputB1 => (
                        Some(ChannelIndex::new(74, 8)),
                        Some(ChannelIndex::new(40, 8)),
                    ),
                    Device::VirtualOutputB2 => (
                        Some(ChannelIndex::new(82, 8)),
                        Some(ChannelIndex::new(48, 8)),
                    ),
                    Device::VirtualOutputB3 => (
                        Some(ChannelIndex::new(90, 8)),
                        Some(ChannelIndex::new(56, 8)),
                    ),
                    Device::VirtualInput => (Some(ChannelIndex::new(10, 8)), None),
                    Device::VirtualInputAux => (Some(ChannelIndex::new(18, 8)), None),
                    Device::VirtualInput8 => (Some(ChannelIndex::new(26, 8)), None),
                }
            },
            _ => (None, None),
        }
    }

    /// The channel index range of this device in the buffers of an
    /// input-mode invocation, where available in the given program.
    pub fn input(&self, program: &VoicemeeterApplication) -> (r: Option<ChannelIndex>)
        ensures
            r == input_range(*program, *self),
    {
        if self.is_bus() {
            None
        } else {
            self.main(program).0
        }
    }

    /// The channel index range of this device in the buffers of an
    /// output-mode invocation, where available in the given program.
    pub fn output(&self, program: &VoicemeeterApplication) -> (r: Option<ChannelIndex>)
        ensures
            r == output_range(*program, *self),
    {
        self.main(program).1
    }

    /// The strip index of this device in the given program, used by
    /// the string parameter interface.
    pub open spec fn spec_strip_index(self, program: VoicemeeterApplication) -> Option<ZIndex> {
        match program {
            VoicemeeterApplication::Voicemeeter => match self {
                Device::Strip1 => Some(ZIndex(0)),
                Device::Strip2 => Some(ZIndex(1)),
                Device::VirtualInput => Some(ZIndex(2)),
                _ => None,
            },
            VoicemeeterApplication::VoicemeeterBanana => match self {
                Device::Strip1 => Some(ZIndex(0)),
                Device::Strip2 => Some(ZIndex(1)),
                Device::Strip3 => Some(ZIndex(2)),
                Device::VirtualInput => Some(ZIndex(3)),
                Device::VirtualInputAux => Some(ZIndex(4)),
                _ => None,
            },
            VoicemeeterApplication::VoicemeeterPotato | VoicemeeterApplication::PotatoX64Bits => {
                match self {
                    Device::Strip1 => Some(ZIndex(0)),
                    Device::Strip2 => Some(ZIndex(1)),
                    Device::Strip3 => Some(ZIndex(2)),
                    Device::Strip4 => Some(ZIndex(3)),
                    Device::Strip5 => Some(ZIndex(4)),
                    Device::VirtualInput => Some(ZIndex(5)),
                    Device::VirtualInputAux => Some(ZIndex(6)),
                    Device::VirtualInput8 => Some(ZIndex(7)),
                    _ => None,
                }
            },
            _ => None,
        }
    }

    /// The bus index of this device in the given program, used by the
    /// string parameter interface.
    pub open spec fn spec_bus_index(self, program: VoicemeeterApplication) -> Option<ZIndex> {
        match program {
            VoicemeeterApplication::Voicemeeter => match self {
                Device::OutputA1 => Some(ZIndex(0)),
                Device::OutputA2 => Some(ZIndex(1)),
                Device::VirtualOutputB1 => Some(ZIndex(2)),
                _ => None,
            },
            VoicemeeterApplication::VoicemeeterBanana => match self {
                Device::OutputA1 => Some(ZIndex(0)),
                Device::OutputA2 => Some(ZIndex(1)),
                Device::OutputA3 => Some(ZIndex(2)),
                Device::VirtualOutputB1 => Some(ZIndex(3)),
                Device::VirtualOutputB2 => Some(ZIndex(4)),
                _ => None,
            },
            VoicemeeterApplication::VoicemeeterPotato | VoicemeeterApplication::PotatoX64Bits => {
                match self {
                    Device::OutputA1 => Some(ZIndex(0)),
                    Device::OutputA2 => Some(ZIndex(1)),
                    Device::OutputA3 => Some(ZIndex(2)),
                    Device::OutputA4 => Some(ZIndex(3)),
                    Device::OutputA5 => Some(ZIndex(4)),
                    Device::VirtualOutputB1 => Some(ZIndex(5)),
                    Device::VirtualOutputB2 => Some(ZIndex(6)),
                    Device::VirtualOutputB3 => Some(ZIndex(7)),
                    _ => None,
                }
            },
            _ => None,
        }
    }

    /// The strip index of this device in the current program.
    pub fn as_strip_index(&self, program: &VoicemeeterApplication) -> (r: Option<ZIndex>)
        ensures
            r == self.spec_strip_index(*program),
    {
        match program {
            VoicemeeterApplication::Voicemeeter => match self {
                Device::Strip1 => Some(ZIndex(0)),
                Device::Strip2 => Some(ZIndex(1)),
                Device::VirtualInput => Some(ZIndex(2)),
                _ => None,
            },
            VoicemeeterApplication::VoicemeeterBanana => match self {
                Device::Strip1 => Some(ZIndex(0)),
                Device::Strip2 => Some(ZIndex(1)),
                Device::Strip3 => Some(ZIndex(2)),
                Device::VirtualInput => Some(ZIndex(3)),
                Device::VirtualInputAux => Some(ZIndex(4)),
                _ => None,
            },
            VoicemeeterApplication::VoicemeeterPotato | VoicemeeterApplication::PotatoX64Bits => {
                match self {
                    Device::Strip1 => Some(ZIndex(0)),
                    Device::Strip2 => Some(ZIndex(1)),
                    Device::Strip3 => Some(ZIndex(2)),
                    Device::Strip4 => Some(ZIndex(3)),
                    Device::Strip5 => Some(ZIndex(4)),
                    Device::VirtualInput => Some(ZIndex(5)),
                    Device::VirtualInputAux => Some(ZIndex(6)),
                    Device::VirtualInput8 => Some(ZIndex(7)),
                    _ => None,
                }
            },
            _ => None,
        }
    }

    /// The bus index of this device in the current program.
    pub fn as_bus_index(&self, program: &VoicemeeterApplication) -> (r: Option<ZIndex>)
        ensures
            r == self.spec_bus_index(*program),
    {
        match program {
            VoicemeeterApplication::Voicemeeter => match self {
                Device::OutputA1 => Some(ZIndex(0)),
                Device::OutputA2 => Some(ZIndex(1)),
                Device::VirtualOutputB1 => Some(ZIndex(2)),
                _ => None,
            },
            VoicemeeterApplication::VoicemeeterBanana => match self {
                Device::OutputA1 => Some(ZIndex(0)),
                Device::OutputA2 => Some(ZIndex(1)),
                Device::OutputA3 => Some(ZIndex(2)),
                Device::VirtualOutputB1 => Some(ZIndex(3)),
                Device::VirtualOutputB2 => Some(ZIndex(4)),
                _ => None,
            },
            VoicemeeterApplication::VoicemeeterPotato | VoicemeeterApplication::PotatoX64Bits => {
                match self {
                    Device::OutputA1 => Some(ZIndex(0)),
                    Device::OutputA2 => Some(ZIndex(1)),
                    Device::OutputA3 => Some(ZIndex(2)),
                    Device::OutputA4 => Some(ZIndex(3)),
                    Device::OutputA5 => Some(ZIndex(4)),
                    Device::VirtualOutputB1 => Some(ZIndex(5)),
                    Device::VirtualOutputB2 => Some(ZIndex(6)),
                    Device::VirtualOutputB3 => Some(ZIndex(7)),
                    _ => None,
                }
            },
            _ => None,
        }
    }

    /// The flat channel number this device's `channel`-th channel has
    /// for the given level type in the given program.
    pub open spec fn spec_level_device_num(
        self,
        program: VoicemeeterApplication,
        level_type: LevelType,
        channel: usize,
    ) -> Option<usize> {
        let range = match level_type {
            LevelType::PreFaderInputLevels
            | LevelType::PostFaderInputLevels
            | LevelType::PostMuteInputLevels => input_range(program, self),
            LevelType::OutputLevels => output_range(program, self),
            LevelType::Other => None,
        };
        match range {
            Some(idx) => if channel < idx.size {
                Some((idx.start + channel) as usize)
            } else {
                None
            },
            None => None,
        }
    }

    /// The device number to hand the engine when reading the level of
    /// this device's `channel`-th channel.
    pub fn as_level_device_num(
        &self,
        program: &VoicemeeterApplication,
        level_type: LevelType,
        channel: usize,
    ) -> (r: Option<usize>)
        ensures
            r == self.spec_level_device_num(*program, level_type, channel),
    {
        proof {
            lemma_table_ranges_bounded(*program, *self);
        }
        let range = match level_type {
            LevelType::PreFaderInputLevels
            | LevelType::PostFaderInputLevels
            | LevelType::PostMuteInputLevels => self.input(program),
            LevelType::OutputLevels => self.output(program),
            LevelType::Other => None,
        };
        match range {
            Some(idx) => idx.get(channel),
            None => None,
        }
    }

    /// All devices, in their canonical order.
    pub open spec fn all_spec() -> Seq<Device> {
        seq![
            Device::Strip1,
            Device::Strip2,
            Device::Strip3,
            Device::Strip4,
            Device::Strip5,
            Device::OutputA1,
            Device::OutputA2,
            Device::OutputA3,
            Device::OutputA4,
            Device::OutputA5,
            Device::VirtualOutputB1,
            Device::VirtualOutputB2,
            Device::VirtualOutputB3,
            Device::VirtualInput,
            Device::VirtualInputAux,
            Device::VirtualInput8,
        ]
    }

    /// All devices, in their canonical order.
    pub fn all() -> (r: Vec<Device>)
        ensures
            r@ == Device::all_spec(),
    {
        let r = vec![
            Device::Strip1,
            Device::Strip2,
            Device::Strip3,
            Device::Strip4,
            Device::Strip5,
            Device::OutputA1,
            Device::OutputA2,
            Device::OutputA3,
            Device::OutputA4,
            Device::OutputA5,
            Device::VirtualOutputB1,
            Device::VirtualOutputB2,
            Device::VirtualOutputB3,
            Device::VirtualInput,
            Device::VirtualInputAux,
            Device::VirtualInput8,
        ];
        proof {
            assert(r@ =~= Device::all_spec());
        }
        r
    }
}

/// Which side of an invocation's buffers a range addresses.
#[derive(Debug, Clone, Copy, PartialEq, Eq, Structural)]
pub enum BufferSide {
    /// The read side (`nbi` channels).
    Read,
    /// The write side (`nbo` channels).
    Write,
}

/// The mode of a buffer-carrying callback invocation.
#[derive(Debug, Clone, Copy, PartialEq, Eq, Structural)]
pub enum BufferMode {
    /// Input mode: pre-processing input strips.
    Input,
    /// Output mode: post-processing output buses.
    Output,
    /// Main mode: all inputs plus bus returns, with the mix writable.
    Main,
}

/// The channel index range a device addresses on the given side of the
/// buffers, for one mode.
///
/// In main mode the two sides differ; in input and output mode a
/// device addresses the same range on both sides.
pub open spec fn side_range(
    program: VoicemeeterApplication,
    mode: BufferMode,
    side: BufferSide,
    device: Device,
) -> Option<ChannelIndex> {
    match mode {
        BufferMode::Main => match side {
            BufferSide::Read => main_ranges(program, device).0,
            BufferSide::Write => main_ranges(program, device).1,
        },
        BufferMode::Input => input_range(program, device),
        BufferMode::Output => output_range(program, device),
    }
}

/// The number of channels the engine declares on the given side of the
/// buffers for one mode (its `nbi` for the read side, its `nbo` for
/// the write side).
pub open spec fn declared_count(
    program: VoicemeeterApplication,
    mode: BufferMode,
    side: BufferSide,
) -> usize {
    match program {
        VoicemeeterApplication::Voicemeeter => match mode {
            BufferMode::Main => if side == BufferSide::Read {
                28usize
            } else {
                16usize
            },
            BufferMode::Input => 12usize,
            BufferMode::Output => 16usize,
        },
        VoicemeeterApplication::VoicemeeterBanana => match mode {
            BufferMode::Main => if side == BufferSide::Read {
                62usize
            } else {
                40usize
            },
            BufferMode::Input => 22usize,
            BufferMode::Output => 40usize,
        },
        VoicemeeterApplication::VoicemeeterPotato | VoicemeeterApplication::PotatoX64Bits => {
            match mode {
                BufferMode::Main => if side == BufferSide::Read {
                    98usize
                } else {
                    64usize
                },
                BufferMode::Input => 34usize,
                BufferMode::Output => 64usize,
            }
        },
        _ => 0usize,
    }
}

/// The channel counts the engine declares for one mode: read side
/// and write side.
pub fn declared_counts(program: &VoicemeeterApplication, mode: BufferMode) -> (r: (usize, usize))
    ensures
        r.0 == declared_count(*program, mode, BufferSide::Read),
        r.1 == declared_count(*program, mode, BufferSide::Write),
{
    match program {
        VoicemeeterApplication::Voicemeeter => match mode {
            BufferMode::Main => (28, 16),
            BufferMode::Input => (12, 12),
            BufferMode::Output => (16, 16),
        },
        VoicemeeterApplication::VoicemeeterBanana => match mode {
            BufferMode::Main => (62, 40),
            BufferMode::Input => (22, 22),
            BufferMode::Output => (40, 40),
        },
        VoicemeeterApplication::VoicemeeterPotato | VoicemeeterApplication::PotatoX64Bits => {
            match mode {
                BufferMode::Main => (98, 64),
                BufferMode::Input => (34, 34),
                BufferMode::Output => (64, 64),
            }
        },
        _ => (0, 0),
    }
}

/// Every range of the index table lies within the largest channel
/// count any variant declares, so flat indexes computed from the table
/// never overflow.
pub proof fn lemma_table_ranges_bounded(program: VoicemeeterApplication, device: Device)
    ensures
        main_ranges(program, device).0 matches Some(idx) ==> idx.start + idx.size <= 98,
        main_ranges(program, device).1 matches Some(idx) ==> idx.start + idx.size <= 98,
        input_range(program, device) matches Some(idx) ==> idx.start + idx.size <= 98,
        output_range(program, device) matches Some(idx) ==> idx.start + idx.size <= 98,
{
}

impl VoicemeeterApplication {
    /// All devices that exist for this application variant, in their
    /// canonical order.
    pub open spec fn devices_spec(self) -> Seq<Device> {
        match self {
            VoicemeeterApplication::Voicemeeter => seq![
                Device::Strip1,
                Device::Strip2,
                Device::VirtualInput,
                Device::OutputA1,
                Device::OutputA2,
                Device::VirtualOutputB1,
            ],
            VoicemeeterApplication::VoicemeeterBanana => seq![
                Device::Strip1,
                Device::Strip2,
                Device::Strip3,
                Device::VirtualInput,
                Device::VirtualInputAux,
                Device::OutputA1,
                Device::OutputA2,
                Device::OutputA3,
                Device::VirtualOutputB1,
                Device::VirtualOutputB2,
            ],
            VoicemeeterApplication::VoicemeeterPotato | VoicemeeterApplication::PotatoX64Bits => {
                Device::all_spec()
            },
            _ => Seq::empty(),
        }
    }

    /// All devices that exist for this application variant.
    pub fn devices(&self) -> (r: Vec<Device>)
        ensures
            r@ == self.devices_spec(),
    {
        match self {
            VoicemeeterApplication::Voicemeeter => {
                let r = vec![
                    Device::Strip1,
                    Device::Strip2,
                    Device::VirtualInput,
                    Device::OutputA1,
                    Device::OutputA2,
                    Device::VirtualOutputB1,
                ];
                proof {
                    assert(r@ =~= self.devices_spec());
                }
                r
            },
            VoicemeeterApplication::VoicemeeterBanana => {
                let r = vec![
                    Device::Strip1,
                    Device::Strip2,
                    Device::Strip3,
                    Device::VirtualInput,
                    Device::VirtualInputAux,
                    Device::OutputA1,
                    Device::OutputA2,
                    Device::OutputA3,
                    Device::VirtualOutputB1,
                    Device::VirtualOutputB2,
                ];
                proof {
                    assert(r@ =~= self.devices_spec());
                }
                r
            },
            VoicemeeterApplication::VoicemeeterPotato | VoicemeeterApplication::PotatoX64Bits => {
                Device::all()
            },
            _ => {
                let r = Vec::new();
                proof {
                    assert(r@ =~= self.devices_spec());
                }
                r
            },
        }
    }
}

/// Bus mode.
#[derive(Debug, Clone, Copy, PartialEq, Eq, Structural)]
pub enum BusMode {
    /// Bus mode normal.
    Normal,
    /// Bus mode Amix.
    Amix,
    /// Bus mode Bmix.
    Bmix,
    /// Bus mode Repeat.
    Repeat,
    /// Bus mode Composite.
    Composite,
    /// Bus mode TVMix.
    TvMix,
    /// Bus mode UpMix21.
    UpMix21,
    /// Bus mode UpMix41.
    UpMix41,
    /// Bus mode UpMix61.
    UpMix61,
    /// Bus mode CenterOnly.
    CenterOnly,
    /// Bus mode LFEOnly.
    LfeOnly,
    /// Bus mode RearOnly.
    RearOnly,
}

} // verus!
