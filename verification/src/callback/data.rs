//! The per-invocation audio buffer and the typed views over it, one
//! per callback mode.

use vstd::prelude::*;

use crate::callback::buffer_abstraction::{chans_view, copy_compatible, spec_extract};
use crate::callback::{input, main, output};
use crate::laws::lemma_read_write_sizes_match;
use crate::types::{
    declared_count, input_range, main_ranges, output_range, BufferMode, BufferSide, Device,
    VoicemeeterApplication,
};

verus! {

broadcast use vstd::std_specs::vec::group_vec_axioms;

/// One invocation's audio buffer, bounded to its declared channel
/// counts: `read` holds the `nbi` readable channels, `write` the
/// `nbo` writable ones, each channel `nbs` samples long.
pub struct AudioBuffer<S> {
    /// Sample rate.
    pub samplerate: i32,
    /// Frame length: samples per channel in this invocation.
    pub nbs: usize,
    /// The read-side channels.
    pub read: Vec<Vec<S>>,
    /// The write-side channels.
    pub write: Vec<Vec<S>>,
}

impl<S> AudioBuffer<S> {
    /// A well-formed buffer: a non-negative sample rate and every
    /// channel on both sides exactly `nbs` samples long.
    pub open spec fn wf(self) -> bool {
        &&& self.samplerate >= 0
        &&& forall|i: int| 0 <= i < self.read@.len() ==> self.read@[i]@.len() == self.nbs
        &&& forall|i: int| 0 <= i < self.write@.len() ==> self.write@[i]@.len() == self.nbs
    }

    /// The number of readable channels this buffer declares.
    pub fn nbi(&self) -> (r: usize)
        ensures
            r == self.read@.len(),
    {
        self.read.len()
    }

    /// The number of writable channels this buffer declares.
    pub fn nbo(&self) -> (r: usize)
        ensures
            r == self.write@.len(),
    {
        self.write.len()
    }

    /// The read-side and write-side channels, already bounded to the
    /// declared counts.
    pub fn read_write_buffer(&self) -> (r: (&Vec<Vec<S>>, &Vec<Vec<S>>))
        ensures
            r.0 == &self.read,
            r.1 == &self.write,
    {
        (&self.read, &self.write)
    }
}

/// Buffer views for main mode: what a callback sees of one
/// main-mode invocation.
pub struct BufferMainData<S> {
    /// Read devices.
    pub read: main::ReadDevices<S>,
    /// Write devices.
    pub write: main::WriteDevices<S>,
}

impl<S: Copy> BufferMainData<S> {
    /// Build both main-mode views over one buffer.
    pub fn new(program: VoicemeeterApplication, data: &AudioBuffer<S>) -> (r: Self)
        requires
            data.wf(),
            declared_count(program, BufferMode::Main, BufferSide::Read) <= data.read@.len(),
            declared_count(program, BufferMode::Main, BufferSide::Write) <= data.write@.len(),
        ensures
            forall|d: Device| #[trigger]
                r.read.device_model(d) == spec_extract(
                    chans_view(data.read),
                    main_ranges(program, d).0,
                ),
            forall|d: Device| #[trigger]
                r.write.device_model(d) == spec_extract(
                    chans_view(data.write),
                    main_ranges(program, d).1,
                ),
            forall|d: Device| #[trigger]
                copy_compatible(r.write.device_model(d), r.read.device_model(d)),
    {
        let (read_data, write_data) = data.read_write_buffer();
        let r = Self {
            read: main::ReadDevices::new(&program, read_data),
            write: main::WriteDevices::new(&program, write_data),
        };
        proof {
            assert forall|d: Device| #[trigger]
                copy_compatible(r.write.device_model(d), r.read.device_model(d)) by {
                lemma_read_write_sizes_match(program, BufferMode::Main, d);
            }
        }
        r
    }

    /// Convenience function to get the read and write views.
    pub fn get_buffers(self) -> (r: (main::ReadDevices<S>, main::WriteDevices<S>))
        ensures
            r.0 == self.read,
            r.1 == self.write,
    {
        (self.read, self.write)
    }
}

/// Buffer views for output mode.
pub struct BufferOutData<S> {
    /// Read devices.
    pub read: output::ReadDevices<S>,
    /// Write devices.
    pub write: output::WriteDevices<S>,
}

impl<S: Copy> BufferOutData<S> {
    /// Build both output-mode views over one buffer.
    pub fn new(program: VoicemeeterApplication, data: &AudioBuffer<S>) -> (r: Self)
        requires
            data.wf(),
            declared_count(program, BufferMode::Output, BufferSide::Read) <= data.read@.len(),
            declared_count(program, BufferMode::Output, BufferSide::Write) <= data.write@.len(),
        ensures
            forall|d: Device| #[trigger]
                r.read.device_model(d) == spec_extract(
                    chans_view(data.read),
                    output_range(program, d),
                ),
            forall|d: Device| #[trigger]
                r.write.device_model(d) == spec_extract(
                    chans_view(data.write),
                    output_range(program, d),
                ),
            forall|d: Device| #[trigger]
                copy_compatible(r.write.device_model(d), r.read.device_model(d)),
    {
        let (read_data, write_data) = data.read_write_buffer();
        let r = Self {
            read: output::ReadDevices::new(&program, read_data),
            write: output::WriteDevices::new(&program, write_data),
        };
        r
    }

    /// Convenience function to get the read and write views.
    pub fn get_buffers(self) -> (r: (output::ReadDevices<S>, output::WriteDevices<S>))
        ensures
            r.0 == self.read,
            r.1 == self.write,
    {
        (self.read, self.write)
    }
}

/// Buffer views for input mode.
pub struct BufferInData<S> {
    /// Read devices.
    pub read: input::ReadDevices<S>,
    /// Write devices.
    pub write: input::WriteDevices<S>,
}

impl<S: Copy> BufferInData<S> {
    /// Build both input-mode views over one buffer.
    pub fn new(program: VoicemeeterApplication, data: &AudioBuffer<S>) -> (r: Self)
        requires
            data.wf(),
            declared_count(program, BufferMode::Input, BufferSide::Read) <= data.read@.len(),
            declared_count(program, BufferMode::Input, BufferSide::Write) <= data.write@.len(),
        ensures
            forall|d: Device| #[trigger]
                r.read.device_model(d) == spec_extract(
                    chans_view(data.read),
                    input_range(program, d),
                ),
            forall|d: Device| #[trigger]
                r.write.device_model(d) == spec_extract(
                    chans_view(data.write),
                    input_range(program, d),
                ),
            forall|d: Device| #[trigger]
                copy_compatible(r.write.device_model(d), r.read.device_model(d)),
    {
        let (read_data, write_data) = data.read_write_buffer();
        let r = Self {
            read: input::ReadDevices::new(&program, read_data),
            write: input::WriteDevices::new(&program, write_data),
        };
        r
    }

    /// Convenience function to get the read and write views.
    pub fn get_buffers(self) -> (r: (input::ReadDevices<S>, input::WriteDevices<S>))
        ensures
            r.0 == self.read,
            r.1 == self.write,
    {
        (self.read, self.write)
    }
}

} // verus!
