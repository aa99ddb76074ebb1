//! The per-variant index table: exact offsets, containment,
//! non-overlap and the device catalogs.

use voicemeeter::types::{ChannelIndex, Device, LevelType, VoicemeeterApplication, ZIndex};

const ALL_PROGRAMS: [VoicemeeterApplication; 6] = [
    VoicemeeterApplication::Voicemeeter,
    VoicemeeterApplication::VoicemeeterBanana,
    VoicemeeterApplication::VoicemeeterPotato,
    VoicemeeterApplication::PotatoX64Bits,
    VoicemeeterApplication::Other,
    VoicemeeterApplication::NotRunning,
];

fn declared_counts(program: VoicemeeterApplication) -> (usize, usize) {
    // Main-mode read and write channel counts per variant.
    match program {
        VoicemeeterApplication::Voicemeeter => (28, 16),
        VoicemeeterApplication::VoicemeeterBanana => (62, 40),
        VoicemeeterApplication::VoicemeeterPotato | VoicemeeterApplication::PotatoX64Bits => {
            (98, 64)
        }
        _ => (0, 0),
    }
}

#[test]
fn potato_main_offsets() {
    let p = VoicemeeterApplication::VoicemeeterPotato;
    assert_eq!(
        Device::OutputA1.main(&p),
        (
            Some(ChannelIndex { start: 34, size: 8 }),
            Some(ChannelIndex { start: 0, size: 8 })
        )
    );
    assert_eq!(
        Device::VirtualOutputB3.main(&p),
        (
            Some(ChannelIndex { start: 90, size: 8 }),
            Some(ChannelIndex { start: 56, size: 8 })
        )
    );
    assert_eq!(
        Device::Strip5.main(&p),
        (Some(ChannelIndex { start: 8, size: 2 }), None)
    );
    assert_eq!(
        Device::VirtualInput8.main(&p),
        (Some(ChannelIndex { start: 26, size: 8 }), None)
    );
}

#[test]
fn standard_main_offsets() {
    let p = VoicemeeterApplication::Voicemeeter;
    assert_eq!(
        Device::OutputA1.main(&p),
        (
            Some(ChannelIndex { start: 12, size: 8 }),
            Some(ChannelIndex { start: 0, size: 8 })
        )
    );
    assert_eq!(
        Device::VirtualOutputB1.main(&p),
        (
            Some(ChannelIndex { start: 20, size: 8 }),
            Some(ChannelIndex { start: 8, size: 8 })
        )
    );
    // Output A2 has no buffer channels on the standard edition.
    assert_eq!(Device::OutputA2.main(&p), (None, None));
    assert_eq!(Device::Strip3.main(&p), (None, None));
}

#[test]
fn output_mode_aliases_main_write_range() {
    // An output addresses the same channels in out mode as on the
    // main-mode write side.
    for p in ALL_PROGRAMS {
        for d in Device::all() {
            assert_eq!(d.output(&p), d.main(&p).1);
        }
    }
}

#[test]
fn input_mode_rejects_buses() {
    for p in ALL_PROGRAMS {
        assert_eq!(Device::OutputA1.input(&p), None);
        assert_eq!(Device::VirtualOutputB2.input(&p), None);
        assert_eq!(Device::Strip1.input(&p), Device::Strip1.main(&p).0);
    }
}

#[test]
fn read_write_sizes_match() {
    // Wherever both sides exist, the sizes agree.
    for p in ALL_PROGRAMS {
        for d in Device::all() {
            let (read, write) = d.main(&p);
            if let (Some(r), Some(w)) = (read, write) {
                assert_eq!(r.size, w.size, "sizes differ for {:?} on {:?}", d, p);
            }
        }
    }
}

#[test]
fn ranges_contained_and_disjoint() {
    for p in ALL_PROGRAMS {
        let (nbi, nbo) = declared_counts(p);
        let devices = Device::all();
        for side in [0, 1] {
            let count = if side == 0 { nbi } else { nbo };
            let ranges: Vec<(Device, ChannelIndex)> = devices
                .iter()
                .filter_map(|d| {
                    let pair = d.main(&p);
                    let r = if side == 0 { pair.0 } else { pair.1 };
                    r.map(|r| (*d, r))
                })
                .collect();
            for (d, r) in &ranges {
                assert!(
                    r.start + r.size <= count,
                    "range of {:?} leaves 0..{} on {:?}",
                    d,
                    count,
                    p
                );
            }
            for (i, (d1, r1)) in ranges.iter().enumerate() {
                for (d2, r2) in &ranges[i + 1..] {
                    assert!(
                        r1.start + r1.size <= r2.start || r2.start + r2.size <= r1.start,
                        "{:?} and {:?} overlap on {:?}",
                        d1,
                        d2,
                        p
                    );
                }
            }
        }
    }
}

#[test]
fn devices_counts_per_variant() {
    let strips = |d: &Device| {
        matches!(
            d,
            Device::Strip1 | Device::Strip2 | Device::Strip3 | Device::Strip4 | Device::Strip5
        )
    };
    let virtual_inputs = |d: &Device| {
        matches!(
            d,
            Device::VirtualInput | Device::VirtualInputAux | Device::VirtualInput8
        )
    };
    let outputs = |d: &Device| {
        matches!(
            d,
            Device::OutputA1 | Device::OutputA2 | Device::OutputA3 | Device::OutputA4 | Device::OutputA5
        )
    };
    let virtual_outputs = |d: &Device| {
        matches!(
            d,
            Device::VirtualOutputB1 | Device::VirtualOutputB2 | Device::VirtualOutputB3
        )
    };
    let count = |p: VoicemeeterApplication, f: &dyn Fn(&Device) -> bool| {
        p.devices().iter().filter(|d| f(d)).count()
    };

    // Standard: 2 strips, 1 virtual input, 2 outputs, 1 virtual output bus.
    let v = VoicemeeterApplication::Voicemeeter;
    assert_eq!(count(v, &strips), 2);
    assert_eq!(count(v, &virtual_inputs), 1);
    assert_eq!(count(v, &outputs), 2);
    assert_eq!(count(v, &virtual_outputs), 1);

    let b = VoicemeeterApplication::VoicemeeterBanana;
    assert_eq!(count(b, &strips), 3);
    assert_eq!(count(b, &virtual_inputs), 2);
    assert_eq!(count(b, &outputs), 3);
    assert_eq!(count(b, &virtual_outputs), 2);

    // Potato: 5 strips, 3 virtual inputs, 5 outputs, 3 virtual output buses.
    for p in [
        VoicemeeterApplication::VoicemeeterPotato,
        VoicemeeterApplication::PotatoX64Bits,
    ] {
        assert_eq!(count(p, &strips), 5);
        assert_eq!(count(p, &virtual_inputs), 3);
        assert_eq!(count(p, &outputs), 5);
        assert_eq!(count(p, &virtual_outputs), 3);
        assert_eq!(p.devices().len(), 16);
    }

    assert!(VoicemeeterApplication::Other.devices().is_empty());
    assert!(VoicemeeterApplication::NotRunning.devices().is_empty());
}

#[test]
fn strip_and_bus_indexes() {
    let p = VoicemeeterApplication::VoicemeeterBanana;
    assert_eq!(Device::Strip3.as_strip_index(&p), Some(ZIndex(2)));
    assert_eq!(Device::VirtualInputAux.as_strip_index(&p), Some(ZIndex(4)));
    assert_eq!(Device::VirtualInput8.as_strip_index(&p), None);
    assert_eq!(Device::OutputA1.as_strip_index(&p), None);
    assert_eq!(Device::VirtualOutputB2.as_bus_index(&p), Some(ZIndex(4)));
    assert_eq!(Device::VirtualOutputB3.as_bus_index(&p), None);
    assert_eq!(
        Device::VirtualOutputB3
            .as_bus_index(&VoicemeeterApplication::VoicemeeterPotato),
        Some(ZIndex(7))
    );
    assert_eq!(
        Device::OutputA2.as_bus_index(&VoicemeeterApplication::Voicemeeter),
        Some(ZIndex(1))
    );
}

#[test]
fn channel_index_get() {
    let idx = ChannelIndex::new(34, 8);
    assert_eq!(idx.get(0), Some(34));
    assert_eq!(idx.get(7), Some(41));
    assert_eq!(idx.get(8), None);
}

#[test]
fn level_device_numbers() {
    let p = VoicemeeterApplication::VoicemeeterPotato;
    assert_eq!(
        Device::Strip2.as_level_device_num(&p, LevelType::PreFaderInputLevels, 1),
        Some(3)
    );
    assert_eq!(
        Device::OutputA2.as_level_device_num(&p, LevelType::OutputLevels, 0),
        Some(8)
    );
    assert_eq!(
        Device::OutputA2.as_level_device_num(&p, LevelType::PreFaderInputLevels, 0),
        None
    );
    assert_eq!(
        Device::Strip1.as_level_device_num(&p, LevelType::OutputLevels, 0),
        None
    );
    assert_eq!(
        Device::Strip1.as_level_device_num(&p, LevelType::PostMuteInputLevels, 5),
        None
    );
}

#[test]
fn application_codes() {
    assert_eq!(
        VoicemeeterApplication::from_code(1),
        VoicemeeterApplication::Voicemeeter
    );
    assert_eq!(
        VoicemeeterApplication::from_code(6),
        VoicemeeterApplication::PotatoX64Bits
    );
    assert_eq!(
        VoicemeeterApplication::from_code(42),
        VoicemeeterApplication::Other
    );
    assert_eq!(VoicemeeterApplication::VoicemeeterPotato.code(), 3);
    assert_eq!(LevelType::from_code(2), LevelType::PostMuteInputLevels);
    assert_eq!(LevelType::OutputLevels.code(), 3);
}
