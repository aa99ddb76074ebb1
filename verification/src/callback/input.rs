//! Per-device views for input mode: the pre-processing insert on each
//! input strip, readable and writable on the same channels.

use vstd::prelude::*;

use crate::callback::buffer_abstraction::{
    bulk_copy_contents, chans_view, copy_compatible, copy_field, device_contents,
    device_contents_ref, extract_channels, requested_in, spec_extract, DeviceBuffer,
};
use crate::laws::lemma_ranges_contained_all;
use crate::types::{
    declared_count, input_range, BufferMode, BufferSide, Device, VoicemeeterApplication,
};

verus! {

broadcast use vstd::std_specs::vec::group_vec_axioms;

/// Read interface for input mode: one buffer per device.
pub struct ReadDevices<S> {
    /// Channel read buffer for [`Strip1`](Device::Strip1).
    pub strip1: DeviceBuffer<Vec<Vec<S>>>,
    /// Channel read buffer for [`Strip2`](Device::Strip2).
    pub strip2: DeviceBuffer<Vec<Vec<S>>>,
    /// Channel read buffer for [`Strip3`](Device::Strip3).
    pub strip3: DeviceBuffer<Vec<Vec<S>>>,
    /// Channel read buffer for [`Strip4`](Device::Strip4).
    pub strip4: DeviceBuffer<Vec<Vec<S>>>,
    /// Channel read buffer for [`Strip5`](Device::Strip5).
    pub strip5: DeviceBuffer<Vec<Vec<S>>>,
    /// Channel read buffer for [`VirtualInput`](Device::VirtualInput).
    pub virtual_input: DeviceBuffer<Vec<Vec<S>>>,
    /// Channel read buffer for [`VirtualInputAux`](Device::VirtualInputAux).
    pub virtual_input_aux: DeviceBuffer<Vec<Vec<S>>>,
    /// Channel read buffer for [`VirtualInput8`](Device::VirtualInput8).
    pub virtual_input8: DeviceBuffer<Vec<Vec<S>>>,
}

impl<S> ReadDevices<S> {
    /// The contents of one device's read buffer, or `None` where the
    /// device is absent.
    pub open spec fn device_model(self, device: Device) -> Option<Seq<Seq<S>>> {
        match device {
            Device::Strip1 => device_contents(self.strip1),
            Device::Strip2 => device_contents(self.strip2),
            Device::Strip3 => device_contents(self.strip3),
            Device::Strip4 => device_contents(self.strip4),
            Device::Strip5 => device_contents(self.strip5),
            Device::VirtualInput => device_contents(self.virtual_input),
            Device::VirtualInputAux => device_contents(self.virtual_input_aux),
            Device::VirtualInput8 => device_contents(self.virtual_input8),
            _ => None,
        }
    }
}

impl<S: Copy> ReadDevices<S> {
    /// Build the read-side view over an input-mode read buffer: each
    /// device holds a copy of the channel block its table range
    /// addresses, or is absent.
    pub fn new(program: &VoicemeeterApplication, data: &Vec<Vec<S>>) -> (r: Self)
        requires
            declared_count(*program, BufferMode::Input, BufferSide::Read) <= data@.len(),
        ensures
            forall|d: Device| #[trigger]
                r.device_model(d) == spec_extract(chans_view(*data), input_range(*program, d)),
    {
        proof {
            lemma_ranges_contained_all(*program);
        }
        let r = Self {
            strip1: extract_channels(data, &Device::Strip1.input(program)),
            strip2: extract_channels(data, &Device::Strip2.input(program)),
            strip3: extract_channels(data, &Device::Strip3.input(program)),
            strip4: extract_channels(data, &Device::Strip4.input(program)),
            strip5: extract_channels(data, &Device::Strip5.input(program)),
            virtual_input: extract_channels(data, &Device::VirtualInput.input(program)),
            virtual_input_aux: extract_channels(data, &Device::VirtualInputAux.input(program)),
            virtual_input8: extract_channels(data, &Device::VirtualInput8.input(program)),
        };
        r
    }

    /// The read buffer of a specific device; `Absent` where the device
    /// does not exist for the current variant and mode.
    pub fn device(&self, device: &Device) -> (r: DeviceBuffer<&Vec<Vec<S>>>)
        ensures
            device_contents_ref(r) == self.device_model(*device),
    {
        match device {
            Device::Strip1 => self.strip1.as_ref(),
            Device::Strip2 => self.strip2.as_ref(),
            Device::Strip3 => self.strip3.as_ref(),
            Device::Strip4 => self.strip4.as_ref(),
            Device::Strip5 => self.strip5.as_ref(),
            Device::VirtualInput => self.virtual_input.as_ref(),
            Device::VirtualInputAux => self.virtual_input_aux.as_ref(),
            Device::VirtualInput8 => self.virtual_input8.as_ref(),
            _ => DeviceBuffer::Absent,
        }
    }
}

/// Write interface for input mode.
pub struct WriteDevices<S> {
    /// Channel write buffer for [`Strip1`](Device::Strip1).
    pub strip1: DeviceBuffer<Vec<Vec<S>>>,
    /// Channel write buffer for [`Strip2`](Device::Strip2).
    pub strip2: DeviceBuffer<Vec<Vec<S>>>,
    /// Channel write buffer for [`Strip3`](Device::Strip3).
    pub strip3: DeviceBuffer<Vec<Vec<S>>>,
    /// Channel write buffer for [`Strip4`](Device::Strip4).
    pub strip4: DeviceBuffer<Vec<Vec<S>>>,
    /// Channel write buffer for [`Strip5`](Device::Strip5).
    pub strip5: DeviceBuffer<Vec<Vec<S>>>,
    /// Channel write buffer for [`VirtualInput`](Device::VirtualInput).
    pub virtual_input: DeviceBuffer<Vec<Vec<S>>>,
    /// Channel write buffer for [`VirtualInputAux`](Device::VirtualInputAux).
    pub virtual_input_aux: DeviceBuffer<Vec<Vec<S>>>,
    /// Channel write buffer for [`VirtualInput8`](Device::VirtualInput8).
    pub virtual_input8: DeviceBuffer<Vec<Vec<S>>>,
}

impl<S> WriteDevices<S> {
    /// The contents of one device's write buffer, or `None` where the
    /// device is absent.
    pub open spec fn device_model(self, device: Device) -> Option<Seq<Seq<S>>> {
        match device {
            Device::Strip1 => device_contents(self.strip1),
            Device::Strip2 => device_contents(self.strip2),
            Device::Strip3 => device_contents(self.strip3),
            Device::Strip4 => device_contents(self.strip4),
            Device::Strip5 => device_contents(self.strip5),
            Device::VirtualInput => device_contents(self.virtual_input),
            Device::VirtualInputAux => device_contents(self.virtual_input_aux),
            Device::VirtualInput8 => device_contents(self.virtual_input8),
            _ => None,
        }
    }
}

impl<S: Copy> WriteDevices<S> {
    /// Build the write-side view over an input-mode write buffer.
    pub fn new(program: &VoicemeeterApplication, data: &Vec<Vec<S>>) -> (r: Self)
        requires
            declared_count(*program, BufferMode::Input, BufferSide::Write) <= data@.len(),
        ensures
            forall|d: Device| #[trigger]
                r.device_model(d) == spec_extract(chans_view(*data), input_range(*program, d)),
    {
        proof {
            lemma_ranges_contained_all(*program);
        }
        let r = Self {
            strip1: extract_channels(data, &Device::Strip1.input(program)),
            strip2: extract_channels(data, &Device::Strip2.input(program)),
            strip3: extract_channels(data, &Device::Strip3.input(program)),
            strip4: extract_channels(data, &Device::Strip4.input(program)),
            strip5: extract_channels(data, &Device::Strip5.input(program)),
            virtual_input: extract_channels(data, &Device::VirtualInput.input(program)),
            virtual_input_aux: extract_channels(data, &Device::VirtualInputAux.input(program)),
            virtual_input8: extract_channels(data, &Device::VirtualInput8.input(program)),
        };
        r
    }

    /// The write buffer of a specific device, mutably; `Absent` where
    /// the device is absent or has no write side in this mode.
    pub fn device_mut(&mut self, device: &Device) -> (r: DeviceBuffer<&mut Vec<Vec<S>>>)
        ensures
            old(self).device_model(*device) is None ==> (r matches DeviceBuffer::Absent
                && *final(self) == *old(self)),
            old(self).device_model(*device) matches Some(c) ==> (r matches DeviceBuffer::Present(
                m,
            ) && chans_view(*m) == c && final(self).device_model(*device) == Some(
                chans_view(*final(m)),
            ) && (forall|d: Device| d != *device ==> final(self).device_model(d) == old(
                self,
            ).device_model(d))),
    {
        match device {
            Device::Strip1 => self.strip1.as_mut(),
            Device::Strip2 => self.strip2.as_mut(),
            Device::Strip3 => self.strip3.as_mut(),
            Device::Strip4 => self.strip4.as_mut(),
            Device::Strip5 => self.strip5.as_mut(),
            Device::VirtualInput => self.virtual_input.as_mut(),
            Device::VirtualInputAux => self.virtual_input_aux.as_mut(),
            Device::VirtualInput8 => self.virtual_input8.as_mut(),
            _ => DeviceBuffer::Absent,
        }
    }

    /// Copies each requested device's read-side channels over its own,
    /// element-wise, skipping silently every device that is absent on
    /// either side.
    pub fn copy_device_from(&mut self, read: &ReadDevices<S>, devices: &[Device])
        requires
            forall|i: int| 0 <= i < devices@.len() ==> copy_compatible(
                old(self).device_model(devices@[i]),
                read.device_model(devices@[i]),
            ),
        ensures
            forall|d: Device| #[trigger]
                final(self).device_model(d) == bulk_copy_contents(
                    old(self).device_model(d),
                    read.device_model(d),
                    devices@.contains(d),
                ),
    {
        let mut k: usize = 0;
        while k < devices.len()
            invariant
                k <= devices@.len(),
                forall|i: int| 0 <= i < devices@.len() ==> copy_compatible(
                    old(self).device_model(devices@[i]),
                    read.device_model(devices@[i]),
                ),
                forall|d: Device| #[trigger]
                    self.device_model(d) == bulk_copy_contents(
                        old(self).device_model(d),
                        read.device_model(d),
                        requested_in(devices@, k as int, d),
                    ),
            decreases devices@.len() - k,
        {
            let d = devices[k];
            let src = read.device(&d);
            let ghost self0 = *self;
            proof {
                assert(devices@[k as int] == d);
                assert(copy_compatible(self.device_model(d), read.device_model(d)));
            }
            match d {
                Device::Strip1 => copy_field(&mut self.strip1, src),
                Device::Strip2 => copy_field(&mut self.strip2, src),
                Device::Strip3 => copy_field(&mut self.strip3, src),
                Device::Strip4 => copy_field(&mut self.strip4, src),
                Device::Strip5 => copy_field(&mut self.strip5, src),
                Device::VirtualInput => copy_field(&mut self.virtual_input, src),
                Device::VirtualInputAux => copy_field(&mut self.virtual_input_aux, src),
                Device::VirtualInput8 => copy_field(&mut self.virtual_input8, src),
                _ => {},
            }
            proof {
                assert forall|dd: Device| #[trigger] self.device_model(dd) == bulk_copy_contents(
                    old(self).device_model(dd),
                    read.device_model(dd),
                    requested_in(devices@, k + 1, dd),
                ) by {
                    assert(self0.device_model(dd) == bulk_copy_contents(
                        old(self).device_model(dd),
                        read.device_model(dd),
                        requested_in(devices@, k as int, dd),
                    ));
                    if dd == d {
                        assert(requested_in(devices@, k + 1, dd)) by {
                            assert(0 <= k < k + 1 && devices@[k as int] == dd);
                        }
                    } else {
                        assert(requested_in(devices@, k + 1, dd) == requested_in(
                            devices@,
                            k as int,
                            dd,
                        )) by {
                            if requested_in(devices@, k as int, dd) {
                                let i = choose|i: int| 0 <= i < k && devices@[i] == dd;
                                assert(0 <= i < k + 1 && devices@[i] == dd);
                            }
                            if requested_in(devices@, k + 1, dd) {
                                let i = choose|i: int| 0 <= i < k + 1 && devices@[i] == dd;
                                assert(i != k);
                                assert(0 <= i < k && devices@[i] == dd);
                            }
                        }
                    }
                }
            }
            k = k + 1;
        }
        proof {
            assert forall|dd: Device|
                requested_in(devices@, devices@.len() as int, dd) == devices@.contains(dd) by {}
        }
    }
}

} // verus!
