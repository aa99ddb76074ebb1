//! Per-device views for output mode: the post-processing insert on
//! each output bus, readable and writable on the same channels.

use vstd::prelude::*;

use crate::callback::buffer_abstraction::{
    bulk_copy_contents, chans_view, copy_compatible, copy_field, device_contents,
    device_contents_ref, extract_channels, requested_in, spec_extract, DeviceBuffer,
};
use crate::laws::lemma_ranges_contained_all;
use crate::types::{
    declared_count, output_range, BufferMode, BufferSide, Device, VoicemeeterApplication,
};

verus! {

broadcast use vstd::std_specs::vec::group_vec_axioms;

/// Read interface for output mode: one buffer per device.
pub struct ReadDevices<S> {
    /// Channel read buffer for [`OutputA1`](Device::OutputA1).
    pub output_a1: DeviceBuffer<Vec<Vec<S>>>,
    /// Channel read buffer for [`OutputA2`](Device::OutputA2).
    pub output_a2: DeviceBuffer<Vec<Vec<S>>>,
    /// Channel read buffer for [`OutputA3`](Device::OutputA3).
    pub output_a3: DeviceBuffer<Vec<Vec<S>>>,
    /// Channel read buffer for [`OutputA4`](Device::OutputA4).
    pub output_a4: DeviceBuffer<Vec<Vec<S>>>,
    /// Channel read buffer for [`OutputA5`](Device::OutputA5).
    pub output_a5: DeviceBuffer<Vec<Vec<S>>>,
    /// Channel read buffer for [`VirtualOutputB1`](Device::VirtualOutputB1).
    pub virtual_output_b1: DeviceBuffer<Vec<Vec<S>>>,
    /// Channel read buffer for [`VirtualOutputB2`](Device::VirtualOutputB2).
    pub virtual_output_b2: DeviceBuffer<Vec<Vec<S>>>,
    /// Channel read buffer for [`VirtualOutputB3`](Device::VirtualOutputB3).
    pub virtual_output_b3: DeviceBuffer<Vec<Vec<S>>>,
}

impl<S> ReadDevices<S> {
    /// The contents of one device's read buffer, or `None` where the
    /// device is absent.
    pub open spec fn device_model(self, device: Device) -> Option<Seq<Seq<S>>> {
        match device {
            Device::OutputA1 => device_contents(self.output_a1),
            Device::OutputA2 => device_contents(self.output_a2),
            Device::OutputA3 => device_contents(self.output_a3),
            Device::OutputA4 => device_contents(self.output_a4),
            Device::OutputA5 => device_contents(self.output_a5),
            Device::VirtualOutputB1 => device_contents(self.virtual_output_b1),
            Device::VirtualOutputB2 => device_contents(self.virtual_output_b2),
            Device::VirtualOutputB3 => device_contents(self.virtual_output_b3),
            _ => None,
        }
    }
}

impl<S: Copy> ReadDevices<S> {
    /// Build the read-side view over an output-mode read buffer: each
    /// device holds a copy of the channel block its table range
    /// addresses, or is absent.
    pub fn new(program: &VoicemeeterApplication, data: &Vec<Vec<S>>) -> (r: Self)
        requires
            declared_count(*program, BufferMode::Output, BufferSide::Read) <= data@.len(),
        ensures
            forall|d: Device| #[trigger]
                r.device_model(d) == spec_extract(chans_view(*data), output_range(*program, d)),
    {
        proof {
            lemma_ranges_contained_all(*program);
        }
        let r = Self {
            output_a1: extract_channels(data, &Device::OutputA1.output(program)),
            output_a2: extract_channels(data, &Device::OutputA2.output(program)),
            output_a3: extract_channels(data, &Device::OutputA3.output(program)),
            output_a4: extract_channels(data, &Device::OutputA4.output(program)),
            output_a5: extract_channels(data, &Device::OutputA5.output(program)),
            virtual_output_b1: extract_channels(data, &Device::VirtualOutputB1.output(program)),
            virtual_output_b2: extract_channels(data, &Device::VirtualOutputB2.output(program)),
            virtual_output_b3: extract_channels(data, &Device::VirtualOutputB3.output(program)),
        };
        r
    }

    /// The read buffer of a specific device; `Absent` where the device
    /// does not exist for the current variant and mode.
    pub fn device(&self, device: &Device) -> (r: DeviceBuffer<&Vec<Vec<S>>>)
        ensures
            device_contents_ref(r) == self.device_model(*device),
    {
        match device {
            Device::OutputA1 => self.output_a1.as_ref(),
            Device::OutputA2 => self.output_a2.as_ref(),
            Device::OutputA3 => self.output_a3.as_ref(),
            Device::OutputA4 => self.output_a4.as_ref(),
            Device::OutputA5 => self.output_a5.as_ref(),
            Device::VirtualOutputB1 => self.virtual_output_b1.as_ref(),
            Device::VirtualOutputB2 => self.virtual_output_b2.as_ref(),
            Device::VirtualOutputB3 => self.virtual_output_b3.as_ref(),
            _ => DeviceBuffer::Absent,
        }
    }
}

/// Write interface for output mode.
pub struct WriteDevices<S> {
    /// Channel write buffer for [`OutputA1`](Device::OutputA1).
    pub output_a1: DeviceBuffer<Vec<Vec<S>>>,
    /// Channel write buffer for [`OutputA2`](Device::OutputA2).
    pub output_a2: DeviceBuffer<Vec<Vec<S>>>,
    /// Channel write buffer for [`OutputA3`](Device::OutputA3).
    pub output_a3: DeviceBuffer<Vec<Vec<S>>>,
    /// Channel write buffer for [`OutputA4`](Device::OutputA4).
    pub output_a4: DeviceBuffer<Vec<Vec<S>>>,
    /// Channel write buffer for [`OutputA5`](Device::OutputA5).
    pub output_a5: DeviceBuffer<Vec<Vec<S>>>,
    /// Channel write buffer for [`VirtualOutputB1`](Device::VirtualOutputB1).
    pub virtual_output_b1: DeviceBuffer<Vec<Vec<S>>>,
    /// Channel write buffer for [`VirtualOutputB2`](Device::VirtualOutputB2).
    pub virtual_output_b2: DeviceBuffer<Vec<Vec<S>>>,
    /// Channel write buffer for [`VirtualOutputB3`](Device::VirtualOutputB3).
    pub virtual_output_b3: DeviceBuffer<Vec<Vec<S>>>,
}

impl<S> WriteDevices<S> {
    /// The contents of one device's write buffer, or `None` where the
    /// device is absent.
    pub open spec fn device_model(self, device: Device) -> Option<Seq<Seq<S>>> {
        match device {
            Device::OutputA1 => device_contents(self.output_a1),
            Device::OutputA2 => device_contents(self.output_a2),
            Device::OutputA3 => device_contents(self.output_a3),
            Device::OutputA4 => device_contents(self.output_a4),
            Device::OutputA5 => device_contents(self.output_a5),
            Device::VirtualOutputB1 => device_contents(self.virtual_output_b1),
            Device::VirtualOutputB2 => device_contents(self.virtual_output_b2),
            Device::VirtualOutputB3 => device_contents(self.virtual_output_b3),
            _ => None,
        }
    }
}

impl<S: Copy> WriteDevices<S> {
    /// Build the write-side view over an output-mode write buffer.
    pub fn new(program: &VoicemeeterApplication, data: &Vec<Vec<S>>) -> (r: Self)
        requires
            declared_count(*program, BufferMode::Output, BufferSide::Write) <= data@.len(),
        ensures
            forall|d: Device| #[trigger]
                r.device_model(d) == spec_extract(chans_view(*data), output_range(*program, d)),
    {
        proof {
            lemma_ranges_contained_all(*program);
        }
        let r = Self {
            output_a1: extract_channels(data, &Device::OutputA1.output(program)),
            output_a2: extract_channels(data, &Device::OutputA2.output(program)),
            output_a3: extract_channels(data, &Device::OutputA3.output(program)),
            output_a4: extract_channels(data, &Device::OutputA4.output(program)),
            output_a5: extract_channels(data, &Device::OutputA5.output(program)),
            virtual_output_b1: extract_channels(data, &Device::VirtualOutputB1.output(program)),
            virtual_output_b2: extract_channels(data, &Device::VirtualOutputB2.output(program)),
            virtual_output_b3: extract_channels(data, &Device::VirtualOutputB3.output(program)),
        };
        r
    }

    /// The write buffer of a specific device, mutably; `Absent` where
    /// the device is absent or has no write side in this mode.
    pub fn device_mut(&mut self, device: &Device) -> (r: DeviceBuffer<&mut Vec<Vec<S>>>)
        ensures
            old(self).device_model(*device) is None ==> (r matches DeviceBuffer::Absent
                && *final(self) == *old(self)),
            old(self).device_model(*device) matches Some(c) ==> (r matches DeviceBuffer::Present(
                m,
            ) && chans_view(*m) == c && final(self).device_model(*device) == Some(
                chans_view(*final(m)),
            ) && (forall|d: Device| d != *device ==> final(self).device_model(d) == old(
                self,
            ).device_model(d))),
    {
        match device {
            Device::OutputA1 => self.output_a1.as_mut(),
            Device::OutputA2 => self.output_a2.as_mut(),
            Device::OutputA3 => self.output_a3.as_mut(),
            Device::OutputA4 => self.output_a4.as_mut(),
            Device::OutputA5 => self.output_a5.as_mut(),
            Device::VirtualOutputB1 => self.virtual_output_b1.as_mut(),
            Device::VirtualOutputB2 => self.virtual_output_b2.as_mut(),
            Device::VirtualOutputB3 => self.virtual_output_b3.as_mut(),
            _ => DeviceBuffer::Absent,
        }
    }

    /// Copies each requested device's read-side channels over its own,
    /// element-wise, skipping silently every device that is absent on
    /// either side.
    pub fn copy_device_from(&mut self, read: &ReadDevices<S>, devices: &[Device])
        requires
            forall|i: int| 0 <= i < devices@.len() ==> copy_compatible(
                old(self).device_model(devices@[i]),
                read.device_model(devices@[i]),
            ),
        ensures
            forall|d: Device| #[trigger]
                final(self).device_model(d) == bulk_copy_contents(
                    old(self).device_model(d),
                    read.device_model(d),
                    devices@.contains(d),
                ),
    {
        let mut k: usize = 0;
        while k < devices.len()
            invariant
                k <= devices@.len(),
                forall|i: int| 0 <= i < devices@.len() ==> copy_compatible(
                    old(self).device_model(devices@[i]),
                    read.device_model(devices@[i]),
                ),
                forall|d: Device| #[trigger]
                    self.device_model(d) == bulk_copy_contents(
                        old(self).device_model(d),
                        read.device_model(d),
                        requested_in(devices@, k as int, d),
                    ),
            decreases devices@.len() - k,
        {
            let d = devices[k];
            let src = read.device(&d);
            let ghost self0 = *self;
            proof {
                assert(devices@[k as int] == d);
                assert(copy_compatible(self.device_model(d), read.device_model(d)));
            }
            match d {
                Device::OutputA1 => copy_field(&mut self.output_a1, src),
                Device::OutputA2 => copy_field(&mut self.output_a2, src),
                Device::OutputA3 => copy_field(&mut self.output_a3, src),
                Device::OutputA4 => copy_field(&mut self.output_a4, src),
                Device::OutputA5 => copy_field(&mut self.output_a5, src),
                Device::VirtualOutputB1 => copy_field(&mut self.virtual_output_b1, src),
                Device::VirtualOutputB2 => copy_field(&mut self.virtual_output_b2, src),
                Device::VirtualOutputB3 => copy_field(&mut self.virtual_output_b3, src),
                _ => {},
            }
            proof {
                assert forall|dd: Device| #[trigger] self.device_model(dd) == bulk_copy_contents(
                    old(self).device_model(dd),
                    read.device_model(dd),
                    requested_in(devices@, k + 1, dd),
                ) by {
                    assert(self0.device_model(dd) == bulk_copy_contents(
                        old(self).device_model(dd),
                        read.device_model(dd),
                        requested_in(devices@, k as int, dd),
                    ));
                    if dd == d {
                        assert(requested_in(devices@, k + 1, dd)) by {
                            assert(0 <= k < k + 1 && devices@[k as int] == dd);
                        }
                    } else {
                        assert(requested_in(devices@, k + 1, dd) == requested_in(
                            devices@,
                            k as int,
                            dd,
                        )) by {
                            if requested_in(devices@, k as int, dd) {
                                let i = choose|i: int| 0 <= i < k && devices@[i] == dd;
                                assert(0 <= i < k + 1 && devices@[i] == dd);
                            }
                            if requested_in(devices@, k + 1, dd) {
                                let i = choose|i: int| 0 <= i < k + 1 && devices@[i] == dd;
                                assert(i != k);
                                assert(0 <= i < k && devices@[i] == dd);
                            }
                        }
                    }
                }
            }
            k = k + 1;
        }
        proof {
            assert forall|dd: Device|
                requested_in(devices@, devices@.len() as int, dd) == devices@.contains(dd) by {}
        }
    }
}

} // verus!
