//! The per-invocation buffer views: extraction, offsets, bulk copy
//! and its policies.

use voicemeeter::callback::buffer_abstraction::DeviceBuffer;
use voicemeeter::callback::commands::{AudioInfo, BufferMain, CallbackCommand, CommandKind};
use voicemeeter::callback::data::{AudioBuffer, BufferInData, BufferMainData, BufferOutData};
use voicemeeter::types::{declared_counts, BufferMode, Device, VoicemeeterApplication};

/// A synthetic buffer: channel `c` of the read side holds samples
/// `c * 10_000 + i`, the write side is all zero.
fn synthetic_buffer(nbi: usize, nbo: usize, nbs: usize) -> AudioBuffer<f32> {
    let read: Vec<Vec<f32>> = (0..nbi)
        .map(|c| (0..nbs).map(|i| (c * 10_000 + i) as f32).collect())
        .collect();
    let write: Vec<Vec<f32>> = (0..nbo).map(|_| vec![0.0f32; nbs]).collect();
    AudioBuffer {
        samplerate: 44100,
        nbs,
        read,
        write,
    }
}

fn present<'a>(b: &'a DeviceBuffer<Vec<Vec<f32>>>) -> &'a Vec<Vec<f32>> {
    match b {
        DeviceBuffer::Present(v) => v,
        DeviceBuffer::Absent => panic!("expected a present device"),
    }
}

#[test]
fn test_audio_info() {
    let info = AudioInfo {
        samplerate: 44100,
        nb_sample_per_frame: 512,
    };
    assert_eq!(info.samplerate, 44100);
    assert_eq!(info.nb_sample_per_frame, 512);
}

#[test]
fn test_audio_buffer() {
    let buffer = synthetic_buffer(64, 64, 512);
    assert_eq!(buffer.samplerate, 44100);
    assert_eq!(buffer.nbs, 512);
    assert_eq!(buffer.nbi(), 64);
    assert_eq!(buffer.nbo(), 64);
}

#[test]
fn callback_stuff() {
    let buffer = synthetic_buffer(98, 64, 512);
    let command: CallbackCommand<f32> = CallbackCommand::BufferMain(BufferMain::new(
        VoicemeeterApplication::PotatoX64Bits,
        &buffer,
    ));
    match command {
        CallbackCommand::BufferMain(data) => {
            let (read, mut write) = data.buffer.get_buffers();
            // Copy `OutputA1` sample by sample.
            write
                .output_a1
                .apply_all_samples(&read.output_a1, |_ch, r, _w| r);
            // The write views have a convenience method to copy data
            // for specified devices.
            write.copy_device_from(
                &read,
                &[
                    Device::OutputA2,
                    Device::OutputA3,
                    Device::OutputA4,
                    Device::OutputA5,
                    Device::VirtualOutputB1,
                    Device::VirtualOutputB2,
                    Device::VirtualOutputB3,
                ],
            );
            // Each bus output now carries its own bus return.
            let a1 = present(&write.output_a1);
            assert_eq!(a1[0][0], 34.0 * 10_000.0);
            let a2 = present(&write.output_a2);
            assert_eq!(a2[0][0], 42.0 * 10_000.0);
        }
        _ => panic!("should not be hit"),
    }
}

#[test]
fn main_mode_write_view_offsets() {
    // Potato main mode with nbi = 98 and nbo = 64, all channels
    // distinct: requesting OutputA1's write view yields exactly 8
    // distinct 512-sample channels at write offsets 0..8.
    let mut buffer = synthetic_buffer(98, 64, 512);
    for (c, channel) in buffer.write.iter_mut().enumerate() {
        for (i, s) in channel.iter_mut().enumerate() {
            *s = (1_000_000 + c * 10_000 + i) as f32;
        }
    }
    let data = BufferMainData::new(VoicemeeterApplication::VoicemeeterPotato, &buffer);
    let a1 = present(&data.write.output_a1);
    assert_eq!(a1.len(), 8);
    for (j, channel) in a1.iter().enumerate() {
        assert_eq!(channel.len(), 512);
        // Channel j of the view is write channel 0 + j of the buffer.
        assert_eq!(channel, &buffer.write[j]);
    }
    // The 8 channels are pairwise distinct.
    for j in 0..8 {
        for k in j + 1..8 {
            assert_ne!(a1[j], a1[k]);
        }
    }
    // The read view of OutputA1 sits at read offsets 34..42.
    let a1_read = present(&data.read.output_a1);
    assert_eq!(a1_read.len(), 8);
    for (j, channel) in a1_read.iter().enumerate() {
        assert_eq!(channel, &buffer.read[34 + j]);
    }
}

#[test]
fn absent_devices_are_absent_and_skipped() {
    // Strip3 does not exist on the standard edition: requesting it
    // yields Absent, and the bulk copy skips it silently.
    let buffer = synthetic_buffer(28, 16, 16);
    let data = BufferMainData::new(VoicemeeterApplication::Voicemeeter, &buffer);
    let (read, mut write) = data.get_buffers();
    assert!(read.strip3.is_none());
    assert!(read.device(&Device::Strip3).is_none());
    assert!(read.strip1.is_buffer());
    // Output A2 has no channels on standard; B1 has.
    assert!(write.output_a2.is_none());
    assert!(write.virtual_output_b1.is_buffer());
    let before = present(&write.virtual_output_b1).clone();
    write.copy_device_from(&read, &[Device::Strip3, Device::OutputA2]);
    assert_eq!(present(&write.virtual_output_b1), &before);
    assert!(write.output_a2.is_none());
}

#[test]
fn bulk_copy_is_idempotent() {
    let buffer = synthetic_buffer(28, 16, 32);
    let data = BufferMainData::new(VoicemeeterApplication::Voicemeeter, &buffer);
    let (read, mut write) = data.get_buffers();
    let devices = Device::all();
    write.copy_device_from(&read, &devices);
    let once_a1 = present(&write.output_a1).clone();
    let once_b1 = present(&write.virtual_output_b1).clone();
    write.copy_device_from(&read, &devices);
    assert_eq!(present(&write.output_a1), &once_a1);
    assert_eq!(present(&write.virtual_output_b1), &once_b1);
    // And the copy really brought over the read side.
    assert_eq!(once_a1[0][3], (12 * 10_000 + 3) as f32);
    assert_eq!(once_b1[7][0], (27 * 10_000) as f32);
}

#[test]
fn output_mode_views() {
    let buffer = synthetic_buffer(64, 64, 8);
    let data = BufferOutData::new(VoicemeeterApplication::VoicemeeterPotato, &buffer);
    let (read, mut write) = data.get_buffers();
    // In output mode a bus reads and writes the same channel numbers.
    let a3 = present(&read.output_a3);
    assert_eq!(a3.len(), 8);
    assert_eq!(a3[0], buffer.read[16]);
    write.copy_device_from(&read, &[Device::OutputA3]);
    assert_eq!(present(&write.output_a3)[0], buffer.read[16]);
    // Strips have no place in output mode.
    assert!(read.device(&Device::Strip1).is_none());
}

#[test]
fn input_mode_views() {
    let buffer = synthetic_buffer(34, 34, 8);
    let data = BufferInData::new(VoicemeeterApplication::VoicemeeterPotato, &buffer);
    let (read, mut write) = data.get_buffers();
    let s4 = present(&read.strip4);
    assert_eq!(s4.len(), 2);
    assert_eq!(s4[0], buffer.read[6]);
    let vi8 = present(&read.virtual_input8);
    assert_eq!(vi8.len(), 8);
    assert_eq!(vi8[0], buffer.read[26]);
    write.copy_device_from(&read, &[Device::Strip4]);
    assert_eq!(present(&write.strip4)[1], buffer.read[7]);
    assert!(read.device(&Device::OutputA1).is_none());
}

#[test]
fn device_buffer_accessors() {
    let mut present_buf: DeviceBuffer<Vec<Vec<f32>>> = DeviceBuffer::Present(vec![vec![1.0]]);
    let mut absent_buf: DeviceBuffer<Vec<Vec<f32>>> = DeviceBuffer::Absent;
    assert!(present_buf.is_buffer());
    assert!(!present_buf.is_none());
    assert!(absent_buf.is_none());
    assert!(!absent_buf.is_buffer());
    assert_eq!(present_buf.as_opt_ref(), Some(&vec![vec![1.0f32]]));
    assert_eq!(absent_buf.as_opt_ref(), None);
    if let Some(inner) = present_buf.as_opt_mut() {
        inner[0][0] = 2.0;
    }
    assert_eq!(present_buf.as_opt_ref().unwrap()[0][0], 2.0);
    assert!(absent_buf.as_opt_mut().is_none());
    assert!(matches!(present_buf.as_ref(), DeviceBuffer::Present(_)));
    assert!(matches!(absent_buf.as_mut(), DeviceBuffer::Absent));
    let default_buf: DeviceBuffer<Vec<Vec<f32>>> = Default::default();
    assert!(default_buf.is_none());
}

#[test]
fn empty_frames_and_empty_requests() {
    // A zero-length frame is handled like any other.
    let buffer = synthetic_buffer(28, 16, 0);
    let data = BufferMainData::new(VoicemeeterApplication::Voicemeeter, &buffer);
    let (read, mut write) = data.get_buffers();
    assert_eq!(present(&read.strip1).len(), 2);
    assert_eq!(present(&read.strip1)[0].len(), 0);
    // Copying no devices changes nothing.
    let before = present(&write.output_a1).clone();
    write.copy_device_from(&read, &[]);
    assert_eq!(present(&write.output_a1), &before);
    write.copy_device_from(&read, &[Device::OutputA1]);
    assert_eq!(present(&write.output_a1).len(), 8);
}

#[test]
fn unknown_variants_have_no_buffers() {
    let buffer = synthetic_buffer(4, 4, 8);
    let data = BufferMainData::new(VoicemeeterApplication::NotRunning, &buffer);
    let (read, mut write) = data.get_buffers();
    for d in Device::all() {
        assert!(read.device(&d).is_none());
    }
    // The bulk copy over a fully absent catalog is a no-op.
    write.copy_device_from(&read, &Device::all());
    assert!(write.output_a1.is_none());
}

#[test]
fn apply_all_samples_maps_every_sample() {
    let buffer = synthetic_buffer(28, 16, 8);
    let data = BufferMainData::new(VoicemeeterApplication::Voicemeeter, &buffer);
    let (read, mut write) = data.get_buffers();
    // Copy the bus return into the output, sample by sample.
    write
        .output_a1
        .apply_all_samples(&read.output_a1, |_c, r, _w| r);
    let a1 = present(&write.output_a1);
    for (c, channel) in a1.iter().enumerate() {
        assert_eq!(channel, &buffer.read[12 + c]);
    }
    // A computed map sees both sides.
    write
        .virtual_output_b1
        .apply_all_samples(&read.virtual_output_b1, |c, r, w| r + w + c as f32);
    let b1 = present(&write.virtual_output_b1);
    assert_eq!(b1[2][5], buffer.read[22][5] + 2.0);
    // An absent side leaves everything untouched.
    let before = present(&write.output_a1).clone();
    write
        .output_a1
        .apply_all_samples(&DeviceBuffer::Absent, |_c, r: f32, _w| r);
    assert_eq!(present(&write.output_a1), &before);
    let mut absent: DeviceBuffer<Vec<Vec<f32>>> = DeviceBuffer::Absent;
    absent.apply_all_samples(&read.output_a1, |_c, r, _w| r);
    assert!(absent.is_none());
}

#[test]
fn device_mut_gives_write_access() {
    let buffer = synthetic_buffer(28, 16, 4);
    let data = BufferMainData::new(VoicemeeterApplication::Voicemeeter, &buffer);
    let (read, mut write) = data.get_buffers();
    match write.device_mut(&Device::VirtualOutputB1) {
        DeviceBuffer::Present(channels) => {
            channels[3][1] = 123.5;
        }
        DeviceBuffer::Absent => panic!("B1 has a write side on the standard edition"),
    }
    assert_eq!(present(&write.virtual_output_b1)[3][1], 123.5);
    // A strip has no write side in main mode; an absent bus is absent.
    assert!(matches!(
        write.device_mut(&Device::Strip1),
        DeviceBuffer::Absent
    ));
    assert!(matches!(
        write.device_mut(&Device::OutputA3),
        DeviceBuffer::Absent
    ));
    assert!(read.device(&Device::Strip1).is_buffer());
}

#[test]
fn command_kind_classification() {
    assert_eq!(CommandKind::from_code(1), CommandKind::Starting);
    assert_eq!(CommandKind::from_code(2), CommandKind::Ending);
    assert_eq!(CommandKind::from_code(3), CommandKind::Change);
    assert_eq!(CommandKind::from_code(10), CommandKind::BufferIn);
    assert_eq!(CommandKind::from_code(11), CommandKind::BufferOut);
    assert_eq!(CommandKind::from_code(20), CommandKind::BufferMain);
    assert_eq!(CommandKind::from_code(12), CommandKind::Other);
    assert!(CommandKind::Starting.carries_audio_info());
    assert!(!CommandKind::BufferMain.carries_audio_info());
    assert_eq!(CommandKind::BufferIn.buffer_mode(), Some(BufferMode::Input));
    assert_eq!(CommandKind::BufferOut.buffer_mode(), Some(BufferMode::Output));
    assert_eq!(CommandKind::BufferMain.buffer_mode(), Some(BufferMode::Main));
    assert_eq!(CommandKind::Change.buffer_mode(), None);
    assert_eq!(CommandKind::Other.buffer_mode(), None);
}

#[test]
fn declared_count_accessor() {
    let potato = VoicemeeterApplication::VoicemeeterPotato;
    assert_eq!(declared_counts(&potato, BufferMode::Main), (98, 64));
    assert_eq!(declared_counts(&potato, BufferMode::Input), (34, 34));
    assert_eq!(declared_counts(&potato, BufferMode::Output), (64, 64));
    assert_eq!(
        declared_counts(&VoicemeeterApplication::Voicemeeter, BufferMode::Main),
        (28, 16)
    );
    assert_eq!(
        declared_counts(&VoicemeeterApplication::VoicemeeterBanana, BufferMode::Main),
        (62, 40)
    );
    assert_eq!(
        declared_counts(&VoicemeeterApplication::NotRunning, BufferMode::Main),
        (0, 0)
    );
}

#[test]
fn command_names() {
    let buffer = synthetic_buffer(28, 16, 4);
    let command: CallbackCommand<f32> = CallbackCommand::BufferMain(BufferMain::new(
        VoicemeeterApplication::Voicemeeter,
        &buffer,
    ));
    assert_eq!(command.name(), Some("BufferMain"));
    let other: CallbackCommand<f32> = CallbackCommand::Other(77);
    assert_eq!(other.name(), None);
    let info = AudioInfo {
        samplerate: 48000,
        nb_sample_per_frame: 256,
    };
    let starting: CallbackCommand<f32> = CallbackCommand::Starting(
        voicemeeter::callback::commands::Starting::new(&info),
    );
    assert_eq!(starting.name(), Some("Starting"));
}
