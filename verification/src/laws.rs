//! Global properties of the index table, proved once for every
//! variant, device and mode.

use vstd::prelude::*;

use crate::types::{
    declared_count, side_range, BufferMode, BufferSide, Device, VoicemeeterApplication,
};

verus! {

/// Wherever a device has both a read range and a write range in one
/// mode, the two ranges have the same number of channels.
pub proof fn lemma_read_write_sizes_match(
    program: VoicemeeterApplication,
    mode: BufferMode,
    device: Device,
)
    ensures
        side_range(program, mode, BufferSide::Read, device) matches Some(r) ==> (side_range(
            program,
            mode,
            BufferSide::Write,
            device,
        ) matches Some(w) ==> r.size == w.size),
{
}

/// Every device range lies inside the channel count the engine
/// declares for that variant, mode and side.
pub proof fn lemma_ranges_contained(
    program: VoicemeeterApplication,
    mode: BufferMode,
    side: BufferSide,
    device: Device,
)
    ensures
        side_range(program, mode, side, device) matches Some(idx) ==> idx.start + idx.size
            <= declared_count(program, mode, side),
{
}

/// Containment, quantified over every mode, side and device at once.
pub proof fn lemma_ranges_contained_all(program: VoicemeeterApplication)
    ensures
        forall|mode: BufferMode, side: BufferSide, device: Device| #[trigger]
            side_range(program, mode, side, device) matches Some(idx) ==> idx.start + idx.size
                <= declared_count(program, mode, side),
{
    assert forall|mode: BufferMode, side: BufferSide, device: Device|
        (#[trigger] side_range(program, mode, side, device) matches Some(idx) ==> idx.start
            + idx.size <= declared_count(program, mode, side)) by {
        lemma_ranges_contained(program, mode, side, device);
    }
}

/// Two distinct devices never overlap on one side of the buffers: the
/// index table partitions each side's channels.
pub proof fn lemma_ranges_disjoint(
    program: VoicemeeterApplication,
    mode: BufferMode,
    side: BufferSide,
    d1: Device,
    d2: Device,
)
    requires
        d1 != d2,
    ensures
        side_range(program, mode, side, d1) matches Some(r1) ==> (side_range(
            program,
            mode,
            side,
            d2,
        ) matches Some(r2) ==> (r1.start + r1.size <= r2.start || r2.start + r2.size <= r1.start)),
{
}

/// A device with channels in any mode belongs to the variant's
/// catalog; a device outside the catalog is absent everywhere, so
/// requesting it never finds a buffer.
pub proof fn lemma_catalog_covers_ranges(
    program: VoicemeeterApplication,
    mode: BufferMode,
    side: BufferSide,
    device: Device,
)
    ensures
        side_range(program, mode, side, device) is Some ==> program.devices_spec().contains(
            device,
        ),
{
    if side_range(program, mode, side, device) is Some {
        let catalog = program.devices_spec();
        match program {
            VoicemeeterApplication::Voicemeeter => {
                match device {
                    Device::Strip1 => assert(catalog[0] == device),
                    Device::Strip2 => assert(catalog[1] == device),
                    Device::VirtualInput => assert(catalog[2] == device),
                    Device::OutputA1 => assert(catalog[3] == device),
                    Device::VirtualOutputB1 => assert(catalog[5] == device),
                    _ => assert(false),
                }
            },
            VoicemeeterApplication::VoicemeeterBanana => {
                match device {
                    Device::Strip1 => assert(catalog[0] == device),
                    Device::Strip2 => assert(catalog[1] == device),
                    Device::Strip3 => assert(catalog[2] == device),
                    Device::VirtualInput => assert(catalog[3] == device),
                    Device::VirtualInputAux => assert(catalog[4] == device),
                    Device::OutputA1 => assert(catalog[5] == device),
                    Device::OutputA2 => assert(catalog[6] == device),
                    Device::OutputA3 => assert(catalog[7] == device),
                    Device::VirtualOutputB1 => assert(catalog[8] == device),
                    Device::VirtualOutputB2 => assert(catalog[9] == device),
                    _ => assert(false),
                }
            },
            VoicemeeterApplication::VoicemeeterPotato | VoicemeeterApplication::PotatoX64Bits => {
                match device {
                    Device::Strip1 => assert(catalog[0] == device),
                    Device::Strip2 => assert(catalog[1] == device),
                    Device::Strip3 => assert(catalog[2] == device),
                    Device::Strip4 => assert(catalog[3] == device),
                    Device::Strip5 => assert(catalog[4] == device),
                    Device::OutputA1 => assert(catalog[5] == device),
                    Device::OutputA2 => assert(catalog[6] == device),
                    Device::OutputA3 => assert(catalog[7] == device),
                    Device::OutputA4 => assert(catalog[8] == device),
                    Device::OutputA5 => assert(catalog[9] == device),
                    Device::VirtualOutputB1 => assert(catalog[10] == device),
                    Device::VirtualOutputB2 => assert(catalog[11] == device),
                    Device::VirtualOutputB3 => assert(catalog[12] == device),
                    Device::VirtualInput => assert(catalog[13] == device),
                    Device::VirtualInputAux => assert(catalog[14] == device),
                    Device::VirtualInput8 => assert(catalog[15] == device),
                }
            },
            _ => {
                assert(false);
            },
        }
    }
}

/// How many devices of a sequence satisfy a predicate.
pub open spec fn count_matching(s: Seq<Device>, f: spec_fn(Device) -> bool) -> nat
    decreases s.len(),
{
    if s.len() == 0 {
        0
    } else {
        count_matching(s.drop_last(), f) + if f(s.last()) {
            1nat
        } else {
            0nat
        }
    }
}

/// Whether a device is a physical input strip.
pub open spec fn is_physical_strip(d: Device) -> bool {
    d matches Device::Strip1 || d matches Device::Strip2 || d matches Device::Strip3
        || d matches Device::Strip4 || d matches Device::Strip5
}

/// Whether a device is a virtual input.
pub open spec fn is_virtual_input(d: Device) -> bool {
    d matches Device::VirtualInput || d matches Device::VirtualInputAux
        || d matches Device::VirtualInput8
}

/// Whether a device is a physical output bus.
pub open spec fn is_physical_bus(d: Device) -> bool {
    d matches Device::OutputA1 || d matches Device::OutputA2 || d matches Device::OutputA3
        || d matches Device::OutputA4 || d matches Device::OutputA5
}

/// Whether a device is a virtual output bus.
pub open spec fn is_virtual_bus(d: Device) -> bool {
    d matches Device::VirtualOutputB1 || d matches Device::VirtualOutputB2
        || d matches Device::VirtualOutputB3
}

/// Each variant's device catalog holds exactly the documented number
/// of physical strips, virtual inputs, physical output buses and
/// virtual output buses, with no device listed twice.
pub proof fn lemma_devices_counts(program: VoicemeeterApplication)
    ensures
        count_matching(program.devices_spec(), |d: Device| is_physical_strip(d)) == match program {
            VoicemeeterApplication::Voicemeeter => 2nat,
            VoicemeeterApplication::VoicemeeterBanana => 3nat,
            VoicemeeterApplication::VoicemeeterPotato
            | VoicemeeterApplication::PotatoX64Bits => 5nat,
            _ => 0nat,
        },
        count_matching(program.devices_spec(), |d: Device| is_virtual_input(d)) == match program {
            VoicemeeterApplication::Voicemeeter => 1nat,
            VoicemeeterApplication::VoicemeeterBanana => 2nat,
            VoicemeeterApplication::VoicemeeterPotato
            | VoicemeeterApplication::PotatoX64Bits => 3nat,
            _ => 0nat,
        },
        count_matching(program.devices_spec(), |d: Device| is_physical_bus(d)) == match program {
            VoicemeeterApplication::Voicemeeter => 2nat,
            VoicemeeterApplication::VoicemeeterBanana => 3nat,
            VoicemeeterApplication::VoicemeeterPotato
            | VoicemeeterApplication::PotatoX64Bits => 5nat,
            _ => 0nat,
        },
        count_matching(program.devices_spec(), |d: Device| is_virtual_bus(d)) == match program {
            VoicemeeterApplication::Voicemeeter => 1nat,
            VoicemeeterApplication::VoicemeeterBanana => 2nat,
            VoicemeeterApplication::VoicemeeterPotato
            | VoicemeeterApplication::PotatoX64Bits => 3nat,
            _ => 0nat,
        },
        program.devices_spec().no_duplicates(),
{
    reveal_with_fuel(count_matching, 18);
}

} // verus!
