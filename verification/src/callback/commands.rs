//! Callback command types: what the engine hands a registered
//! callback on each invocation.

use vstd::prelude::*;

use crate::callback::buffer_abstraction::{chans_view, spec_extract};
use crate::callback::data::{AudioBuffer, BufferInData, BufferMainData, BufferOutData};
use crate::types::{
    declared_count, input_range, main_ranges, output_range, BufferMode, BufferSide, Device,
    VoicemeeterApplication,
};

verus! {

/// The kind of command a raw command code names: 1 starting, 2
/// ending, 3 change, 10 input buffers, 11 output buffers, 20 main
/// buffers; everything else is unknown.
#[derive(Debug, Clone, Copy, PartialEq, Eq, Structural)]
pub enum CommandKind {
    /// The stream is starting.
    Starting,
    /// The stream is ending.
    Ending,
    /// The stream configuration changed.
    Change,
    /// An input-mode buffer invocation.
    BufferIn,
    /// An output-mode buffer invocation.
    BufferOut,
    /// A main-mode buffer invocation.
    BufferMain,
    /// A command this crate does not model.
    Other,
}

impl CommandKind {
    /// The command kind a raw command code names.
    pub open spec fn spec_from_code(code: i32) -> CommandKind {
        if code == 1 {
            CommandKind::Starting
        } else if code == 2 {
            CommandKind::Ending
        } else if code == 3 {
            CommandKind::Change
        } else if code == 10 {
            CommandKind::BufferIn
        } else if code == 11 {
            CommandKind::BufferOut
        } else if code == 20 {
            CommandKind::BufferMain
        } else {
            CommandKind::Other
        }
    }

    /// Classify a raw command code.
    pub fn from_code(code: i32) -> (r: CommandKind)
        ensures
            r == CommandKind::spec_from_code(code),
    {
        match code {
            1 => CommandKind::Starting,
            2 => CommandKind::Ending,
            3 => CommandKind::Change,
            10 => CommandKind::BufferIn,
            11 => CommandKind::BufferOut,
            20 => CommandKind::BufferMain,
            _ => CommandKind::Other,
        }
    }

    /// Whether this command's pointer addresses stream information.
    pub fn carries_audio_info(&self) -> (r: bool)
        ensures
            r == (self matches CommandKind::Starting || self matches CommandKind::Ending
                || self matches CommandKind::Change),
    {
        matches!(self, CommandKind::Starting | CommandKind::Ending | CommandKind::Change)
    }

    /// Whether this command's pointer addresses an audio buffer, and
    /// which mode's views it carries.
    pub fn buffer_mode(&self) -> (r: Option<BufferMode>)
        ensures
            self matches CommandKind::BufferIn ==> r == Some(BufferMode::Input),
            self matches CommandKind::BufferOut ==> r == Some(BufferMode::Output),
            self matches CommandKind::BufferMain ==> r == Some(BufferMode::Main),
            (self matches CommandKind::Starting || self matches CommandKind::Ending
                || self matches CommandKind::Change || self matches CommandKind::Other) ==> r
                is None,
    {
        match self {
            CommandKind::BufferIn => Some(BufferMode::Input),
            CommandKind::BufferOut => Some(BufferMode::Output),
            CommandKind::BufferMain => Some(BufferMode::Main),
            _ => None,
        }
    }
}

/// Stream information handed to the starting, ending and change
/// commands.
#[derive(Debug, Clone, Copy, PartialEq, Eq, Structural)]
pub struct AudioInfo {
    /// Sample rate.
    pub samplerate: i32,
    /// Samples per channel per invocation.
    pub nb_sample_per_frame: i32,
}

/// Callback command with audio info. Used to abstract away the
/// command type in client code.
pub trait HasAudioInfo {
    /// Get the audio info.
    fn get(&self) -> &AudioInfo;
}

/// Starting command.
#[derive(Debug)]
pub struct Starting<'a> {
    /// Audio info.
    pub info: &'a AudioInfo,
}

impl<'a> Starting<'a> {
    /// Create a new `Starting` command.
    pub fn new(info: &'a AudioInfo) -> (r: Self)
        ensures
            r.info == info,
    {
        Self { info }
    }
}

impl HasAudioInfo for Starting<'_> {
    fn get(&self) -> &AudioInfo {
        self.info
    }
}

/// Ending command.
#[derive(Debug)]
pub struct Ending<'a> {
    /// Audio info.
    pub info: &'a AudioInfo,
}

impl<'a> Ending<'a> {
    /// Create a new `Ending` command.
    pub fn new(info: &'a AudioInfo) -> (r: Self)
        ensures
            r.info == info,
    {
        Self { info }
    }
}

impl HasAudioInfo for Ending<'_> {
    fn get(&self) -> &AudioInfo {
        self.info
    }
}

/// Change command.
#[derive(Debug)]
pub struct Change<'a> {
    /// Audio info.
    pub info: &'a AudioInfo,
}

impl<'a> Change<'a> {
    /// Create a new `Change` command.
    pub fn new(info: &'a AudioInfo) -> (r: Self)
        ensures
            r.info == info,
    {
        Self { info }
    }
}

impl HasAudioInfo for Change<'_> {
    fn get(&self) -> &AudioInfo {
        self.info
    }
}

/// Data for input mode.
pub struct BufferIn<S> {
    /// Buffer data for input mode.
    pub buffer: BufferInData<S>,
    /// Sample rate.
    pub sr: usize,
    /// Number of samples per frame.
    pub nbs: usize,
    /// Total number of inputs in the buffer.
    pub nbi: usize,
    /// Total number of outputs in the buffer.
    pub nbo: usize,
}

impl<S: Copy> BufferIn<S> {
    /// Build the input-mode command data over one buffer.
    pub fn new(program: VoicemeeterApplication, buffer: &AudioBuffer<S>) -> (r: Self)
        requires
            buffer.wf(),
            declared_count(program, BufferMode::Input, BufferSide::Read) <= buffer.read@.len(),
            declared_count(program, BufferMode::Input, BufferSide::Write) <= buffer.write@.len(),
        ensures
            r.sr == buffer.samplerate,
            r.nbs == buffer.nbs,
            r.nbi == buffer.read@.len(),
            r.nbo == buffer.write@.len(),
            forall|d: Device| #[trigger]
                r.buffer.read.device_model(d) == spec_extract(
                    chans_view(buffer.read),
                    input_range(program, d),
                ),
            forall|d: Device| #[trigger]
                r.buffer.write.device_model(d) == spec_extract(
                    chans_view(buffer.write),
                    input_range(program, d),
                ),
    {
        Self {
            sr: buffer.samplerate as usize,
            nbs: buffer.nbs,
            nbi: buffer.nbi(),
            nbo: buffer.nbo(),
            buffer: BufferInData::new(program, buffer),
        }
    }
}

/// Data for output mode.
pub struct BufferOut<S> {
    /// Sample rate.
    pub sr: usize,
    /// Buffer data for output mode.
    pub buffer: BufferOutData<S>,
    /// Number of samples per frame.
    pub nbs: usize,
    /// Total number of inputs in the buffer.
    pub nbi: usize,
    /// Total number of outputs in the buffer.
    pub nbo: usize,
}

impl<S: Copy> BufferOut<S> {
    /// Build the output-mode command data over one buffer.
    pub fn new(program: VoicemeeterApplication, buffer: &AudioBuffer<S>) -> (r: Self)
        requires
            buffer.wf(),
            declared_count(program, BufferMode::Output, BufferSide::Read) <= buffer.read@.len(),
            declared_count(program, BufferMode::Output, BufferSide::Write) <= buffer.write@.len(),
        ensures
            r.sr == buffer.samplerate,
            r.nbs == buffer.nbs,
            r.nbi == buffer.read@.len(),
            r.nbo == buffer.write@.len(),
            forall|d: Device| #[trigger]
                r.buffer.read.device_model(d) == spec_extract(
                    chans_view(buffer.read),
                    output_range(program, d),
                ),
            forall|d: Device| #[trigger]
                r.buffer.write.device_model(d) == spec_extract(
                    chans_view(buffer.write),
                    output_range(program, d),
                ),
    {
        Self {
            sr: buffer.samplerate as usize,
            nbs: buffer.nbs,
            nbi: buffer.nbi(),
            nbo: buffer.nbo(),
            buffer: BufferOutData::new(program, buffer),
        }
    }
}

/// Data for main mode.
pub struct BufferMain<S> {
    /// Buffer data for main mode.
    pub buffer: BufferMainData<S>,
    /// Sample rate.
    pub sr: usize,
    /// Number of samples per frame.
    pub nbs: usize,
    /// Total number of inputs in the buffer.
    pub nbi: usize,
    /// Total number of outputs in the buffer.
    pub nbo: usize,
}

impl<S: Copy> BufferMain<S> {
    /// Build the main-mode command data over one buffer.
    pub fn new(program: VoicemeeterApplication, buffer: &AudioBuffer<S>) -> (r: Self)
        requires
            buffer.wf(),
            declared_count(program, BufferMode::Main, BufferSide::Read) <= buffer.read@.len(),
            declared_count(program, BufferMode::Main, BufferSide::Write) <= buffer.write@.len(),
        ensures
            r.sr == buffer.samplerate,
            r.nbs == buffer.nbs,
            r.nbi == buffer.read@.len(),
            r.nbo == buffer.write@.len(),
            forall|d: Device| #[trigger]
                r.buffer.read.device_model(d) == spec_extract(
                    chans_view(buffer.read),
                    main_ranges(program, d).0,
                ),
            forall|d: Device| #[trigger]
                r.buffer.write.device_model(d) == spec_extract(
                    chans_view(buffer.write),
                    main_ranges(program, d).1,
                ),
    {
        Self {
            sr: buffer.samplerate as usize,
            nbs: buffer.nbs,
            nbi: buffer.nbi(),
            nbo: buffer.nbo(),
            buffer: BufferMainData::new(program, buffer),
        }
    }
}

/// Callback command passed to the audio callback. `Other` carries the
/// raw command code of a command this crate does not model.
pub enum CallbackCommand<'a, S> {
    /// Starting command.
    Starting(Starting<'a>),
    /// Ending command.
    Ending(Ending<'a>),
    /// Change command.
    Change(Change<'a>),
    /// BufferIn command.
    BufferIn(BufferIn<S>),
    /// BufferOut command.
    BufferOut(BufferOut<S>),
    /// BufferMain command.
    BufferMain(BufferMain<S>),
    /// Other, unknown command.
    Other(i32),
}

impl<'a, S> CallbackCommand<'a, S> {
    /// Get the command "name".
    pub fn name(&self) -> (r: Option<&'static str>)
        ensures
            self matches CallbackCommand::Starting(_) ==> (r matches Some(n) && n@
                == "Starting"@),
            self matches CallbackCommand::Ending(_) ==> (r matches Some(n) && n@ == "Ending"@),
            self matches CallbackCommand::Change(_) ==> (r matches Some(n) && n@ == "Change"@),
            self matches CallbackCommand::BufferIn(_) ==> (r matches Some(n) && n@
                == "BufferIn"@),
            self matches CallbackCommand::BufferOut(_) ==> (r matches Some(n) && n@
                == "BufferOut"@),
            self matches CallbackCommand::BufferMain(_) ==> (r matches Some(n) && n@
                == "BufferMain"@),
            self matches CallbackCommand::Other(_) ==> r is None,
    {
        match self {
            Self::Starting(_) => Some("Starting"),
            Self::Ending(_) => Some("Ending"),
            Self::Change(_) => Some("Change"),
            Self::BufferIn(_) => Some("BufferIn"),
            Self::BufferOut(_) => Some("BufferOut"),
            Self::BufferMain(_) => Some("BufferMain"),
            Self::Other(_) => None,
        }
    }
}

} // verus!
