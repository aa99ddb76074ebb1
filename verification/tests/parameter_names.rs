//! The string parameter interface: exact names and per-variant
//! validation.

use voicemeeter::interface::VoicemeeterRemote;
use voicemeeter::parameters::bus::BusModeParameter;
use voicemeeter::parameters::errors::{InvalidTypeError, ParameterError};
use voicemeeter::types::{BusMode, Device, VoicemeeterApplication, ZIndex};

fn remote(program: VoicemeeterApplication) -> VoicemeeterRemote {
    VoicemeeterRemote { program }
}

#[test]
fn strip_parameter_names() {
    let r = remote(VoicemeeterApplication::VoicemeeterPotato);
    let p = r.parameters();
    let s = p.strip(0).unwrap();
    assert_eq!(s.mute().name.as_str(), "Strip[0].Mute");
    assert_eq!(s.mono().name.as_str(), "Strip[0].Mono");
    assert_eq!(s.solo().name.as_str(), "Strip[0].Solo");
    assert_eq!(s.mute_center().name.as_str(), "Strip[0].MC");
    assert_eq!(s.gain().name.as_str(), "Strip[0].Gain");
    assert_eq!(
        s.gain_layer(ZIndex(3)).name.as_str(),
        "Strip[0].GainLayer[3]"
    );
    assert_eq!(
        s.gain_layer(ZIndex(-1)).name.as_str(),
        "Strip[0].GainLayer[-1]"
    );
    assert_eq!(s.label().name.as_str(), "Strip[0].Label");
    assert_eq!(s.a1().name.as_str(), "Strip[0].A1");
    assert_eq!(s.b3().name.as_str(), "Strip[0].B3");
    assert_eq!(s.eq_on().name.as_str(), "Strip[0].EQ.on");
    assert_eq!(s.eq_ab().name.as_str(), "Strip[0].EQ.AB");
    assert_eq!(s.karaoke().name.as_str(), "Strip[0].Karaoke");
    assert_eq!(s.limit().name.as_str(), "Strip[0].Limit");
    assert_eq!(s.fade_to().name.as_str(), "Strip[0].FadeTo");
    assert_eq!(s.fade_by().name.as_str(), "Strip[0].FadeBy");
    assert_eq!(s.post_reverb().name.as_str(), "Strip[0].PostReverb");
    assert_eq!(s.post_fx2().name.as_str(), "Strip[0].PostFx2");
    assert_eq!(s.comp().name.as_str(), "Strip[0].Comp");
    assert_eq!(s.gate().name.as_str(), "Strip[0].Gate");
    assert_eq!(s.reverb().name.as_str(), "Strip[0].Reverb");
    assert_eq!(s.fx1().name.as_str(), "Strip[0].Fx1");
    assert_eq!(s.audability().name.as_str(), "Strip[0].Audability");
    assert_eq!(s.pan_x().name.as_str(), "Strip[0].Pan_x");
    assert_eq!(
        s.app_mute_indexed(ZIndex(2)).name.as_str(),
        "Strip[0].App[2].Mute"
    );
    assert_eq!(
        s.app_gain_indexed(ZIndex(1)).name.as_str(),
        "Strip[0].App[1].Gain"
    );
    assert_eq!(s.app_mute().name.as_str(), "Strip[0].AppMute");
    let s7 = p.strip(7).unwrap();
    assert_eq!(s7.mute().name.as_str(), "Strip[7].Mute");
}

#[test]
fn strip_physical_gating() {
    let r = remote(VoicemeeterApplication::VoicemeeterPotato);
    let p = r.parameters();
    let physical = p.strip(4).unwrap();
    let virtual_strip = p.strip(5).unwrap();
    assert!(physical.is_physical());
    assert!(!physical.is_virtual());
    assert!(!virtual_strip.is_physical());
    assert!(virtual_strip.is_virtual());

    assert_eq!(
        physical.color_x().unwrap().name.as_str(),
        "Strip[4].Color_x"
    );
    assert!(matches!(
        virtual_strip.color_x(),
        Err(InvalidTypeError::ExpectedPhysical { .. })
    ));
    // EQ gains exist on virtual strips only; the rejection still
    // reports the expected-physical variant.
    assert_eq!(
        virtual_strip.eq_gain1().unwrap().name.as_str(),
        "Strip[5].EQGain1"
    );
    assert!(matches!(
        physical.eq_gain1(),
        Err(InvalidTypeError::ExpectedPhysical { .. })
    ));

    let comp = physical.comp_detailed().unwrap();
    assert_eq!(comp.gain_in().name.as_str(), "Strip[4].comp.GainIn");
    assert_eq!(comp.make_up().name.as_str(), "Strip[4].comp.MakeUp");
    assert_eq!(comp.threshold().name.as_str(), "Strip[4].comp.Threshold");
    assert!(matches!(
        virtual_strip.comp_detailed(),
        Err(ParameterError::Type(_))
    ));

    let gate = physical.gate_detailed().unwrap();
    assert_eq!(gate.threshold().name.as_str(), "Strip[4].Gate.Threshold");
    assert_eq!(
        gate.bp_sidechain().name.as_str(),
        "Strip[4].Gate.BPSidechain"
    );
    assert_eq!(
        physical.denoiser().unwrap().name.as_str(),
        "Strip[4].Denoiser"
    );

    // The details exist only on Potato.
    let banana = remote(VoicemeeterApplication::VoicemeeterBanana);
    let bp = banana.parameters();
    let bs = bp.strip(0).unwrap();
    assert!(matches!(bs.comp_detailed(), Err(ParameterError::Version(_))));
    assert!(matches!(bs.gate_detailed(), Err(ParameterError::Version(_))));
    assert!(matches!(bs.denoiser(), Err(ParameterError::Version(_))));
    assert!(matches!(bs.eq(0), Err(ParameterError::Version(_))));
}

#[test]
fn strip_eq_names() {
    let r = remote(VoicemeeterApplication::VoicemeeterPotato);
    let p = r.parameters();
    let s = p.strip(1).unwrap();
    let eq = s.eq(3).unwrap();
    assert_eq!(
        eq.on(2).name.as_str(),
        "Strip[1].EQ.channel[3].cell[2].on"
    );
    assert_eq!(
        eq.type_(0).name.as_str(),
        "Strip[1].EQ.channel[3].cell[0].type"
    );
    assert_eq!(eq.f(1).name.as_str(), "Strip[1].EQ.channel[3].cell[1].f");
    assert_eq!(
        eq.gain(5).name.as_str(),
        "Strip[1].EQ.channel[3].cell[5].gain"
    );
    assert_eq!(eq.q(4).name.as_str(), "Strip[1].EQ.channel[3].cell[4].q");
    // A virtual strip's EQ is rejected as needing a physical strip.
    let v = p.strip(6).unwrap();
    assert!(matches!(v.eq(0), Err(ParameterError::Type(_))));
}

#[test]
fn strip_device_names() {
    let r = remote(VoicemeeterApplication::VoicemeeterBanana);
    let p = r.parameters();
    let s = p.strip(1).unwrap();
    let d = s.device().unwrap();
    assert_eq!(d.name().name.as_str(), "Strip[1].device.name");
    assert_eq!(d.sr().name.as_str(), "Strip[1].device.sr");
    assert_eq!(d.wdm().name.as_str(), "Strip[1].device.wdm");
    assert_eq!(d.ks().name.as_str(), "Strip[1].device.ks");
    assert_eq!(d.mme().name.as_str(), "Strip[1].device.mme");
    assert_eq!(d.asio().name.as_str(), "Strip[1].device.asio");
    // Virtual strips have no hardware device.
    let v = p.strip(3).unwrap();
    assert!(matches!(
        v.device(),
        Err(InvalidTypeError::ExpectedPhysical { .. })
    ));
}

#[test]
fn strip_index_validation() {
    let r = remote(VoicemeeterApplication::Voicemeeter);
    let p = r.parameters();
    assert!(p.strip(2).is_ok());
    assert!(matches!(p.strip(3), Err(ParameterError::OutOfRange(o)) if o.name == "Strip"));
    assert!(matches!(p.strip(-1), Err(ParameterError::OutOfRange(_))));
    // A device can name a strip too.
    assert_eq!(
        p.strip(Device::VirtualInput).unwrap().mute().name.as_str(),
        "Strip[2].Mute"
    );
    assert!(matches!(
        p.strip(Device::OutputA1),
        Err(ParameterError::Type(InvalidTypeError::ExpectedStrip { .. }))
    ));
    assert!(matches!(
        p.strip(Device::Strip4),
        Err(ParameterError::Device(_))
    ));
    // No program, no strips.
    let none = remote(VoicemeeterApplication::NotRunning);
    assert!(matches!(
        none.parameters().strip(0),
        Err(ParameterError::OutOfRange(_))
    ));
}

#[test]
fn bus_parameter_names() {
    let r = remote(VoicemeeterApplication::VoicemeeterPotato);
    let p = r.parameters();
    let b = p.bus(1).unwrap();
    assert_eq!(b.label().name.as_str(), "Bus[1].Label");
    assert_eq!(b.mono().name.as_str(), "Bus[1].Mono");
    assert_eq!(b.mute().name.as_str(), "Bus[1].Mute");
    assert_eq!(b.eq_on().name.as_str(), "Bus[1].EQ.on");
    assert_eq!(b.eq_ab().name.as_str(), "Bus[1].EQ.AHB");
    assert_eq!(b.gain().name.as_str(), "Bus[1].gain");
    assert_eq!(b.sel().name.as_str(), "Bus[1].Sel");
    assert_eq!(b.monitor().name.as_str(), "Bus[1].Monitor");
    assert_eq!(b.return_reverb().name.as_str(), "Bus[1].ReturnReverb");
    assert_eq!(b.return_fx2().name.as_str(), "Bus[1].ReturnFx2");
    assert_eq!(b.fade_to().name.as_str(), "Bus[1].FadeTo");
    // The bus device and bus EQ names start with "Strip", exactly as
    // the engine's parameter catalog spells them here.
    assert_eq!(b.device().name().name.as_str(), "Strip[1].device.name");
    assert_eq!(
        b.eq(2).on(0).name.as_str(),
        "Strip[1].EQ.channel[2].cell[0].on"
    );
    assert_eq!(
        b.eq(2).gain(1).name.as_str(),
        "Strip[1].EQ.channel[2].cell[1].gain"
    );
}

#[test]
fn bus_mode_parameters() {
    let r = remote(VoicemeeterApplication::VoicemeeterBanana);
    let p = r.parameters();
    let mode = p.bus(0).unwrap().mode();
    assert_eq!(
        mode.mode_flag(BusMode::Normal).name.as_str(),
        "Bus[0].mode.normal"
    );
    assert_eq!(
        mode.mode_flag(BusMode::Amix).name.as_str(),
        "Bus[0].mode.Amix"
    );
    assert_eq!(
        mode.mode_flag(BusMode::TvMix).name.as_str(),
        "Bus[0].mode.TVMix"
    );
    assert_eq!(
        mode.mode_flag(BusMode::LfeOnly).name.as_str(),
        "Bus[0].mode.LFEOnly"
    );
    assert_eq!(
        mode.mode_flag(BusMode::UpMix61).name.as_str(),
        "Bus[0].mode.UpMix61"
    );
}

#[test]
fn bus_mode_probing() {
    let order = BusModeParameter::probe_order();
    assert_eq!(order.len(), 12);
    assert_eq!(order[0], BusMode::Normal);
    assert_eq!(order[11], BusMode::RearOnly);
    // The first set flag in probe order wins.
    let flags: Vec<(BusMode, bool)> = order.iter().map(|m| (*m, *m == BusMode::Bmix)).collect();
    assert_eq!(BusModeParameter::mode_from_flags(&flags), Some(BusMode::Bmix));
    let none: Vec<(BusMode, bool)> = order.iter().map(|m| (*m, false)).collect();
    assert_eq!(BusModeParameter::mode_from_flags(&none), None);
    let two: Vec<(BusMode, bool)> = order
        .iter()
        .map(|m| (*m, *m == BusMode::Amix || *m == BusMode::Repeat))
        .collect();
    assert_eq!(BusModeParameter::mode_from_flags(&two), Some(BusMode::Amix));
}

#[test]
fn bus_index_validation() {
    let r = remote(VoicemeeterApplication::Voicemeeter);
    let p = r.parameters();
    assert!(p.bus(1).is_ok());
    // The standard edition has three buses: A1, A2 and the virtual B1.
    assert_eq!(p.bus(2).unwrap().mute().name.as_str(), "Bus[2].Mute");
    assert!(matches!(p.bus(3), Err(ParameterError::OutOfRange(o)) if o.name == "Bus"));
    assert!(matches!(p.bus(-1), Err(ParameterError::OutOfRange(_))));
    assert_eq!(
        p.bus(Device::OutputA2).unwrap().mute().name.as_str(),
        "Bus[1].Mute"
    );
    assert_eq!(
        p.bus(Device::VirtualOutputB1).unwrap().mute().name.as_str(),
        "Bus[2].Mute"
    );
    assert!(matches!(
        p.bus(Device::Strip1),
        Err(ParameterError::Type(InvalidTypeError::ExpectedBus { .. }))
    ));
    assert!(matches!(
        p.bus(Device::VirtualOutputB2),
        Err(ParameterError::Device(_))
    ));
}

#[test]
fn option_parameter_names() {
    let r = remote(VoicemeeterApplication::VoicemeeterBanana);
    let o = r.parameters().option();
    assert_eq!(o.sr().name.as_str(), "Option.sr");
    assert_eq!(o.asio_sr().name.as_str(), "Option.ASIOsr");
    assert_eq!(o.delay(2).name.as_str(), "Option.delay[2]");
    assert_eq!(o.buffer_mme().name.as_str(), "Option.buffer.mme");
    assert_eq!(o.buffer_asio().name.as_str(), "Option.buffer.asio");
    assert_eq!(o.mode_exlusif().name.as_str(), "Option.mode.exclusif");
    assert_eq!(o.mode_swift().name.as_str(), "Option.mode.swift");
    assert_eq!(o.monitor_on_sel().name.as_str(), "Option.MonitorOnSEL");
}

#[test]
fn recorder_parameter_names() {
    let r = remote(VoicemeeterApplication::VoicemeeterPotato);
    let p = r.parameters();
    let rec = p.recorder().unwrap();
    assert_eq!(rec.stop().name.as_str(), "Recorder.stop");
    assert_eq!(rec.play().name.as_str(), "Recorder.play");
    assert_eq!(rec.replay().name.as_str(), "Recorder.replay");
    assert_eq!(rec.ff().name.as_str(), "Recorder.ff");
    assert_eq!(rec.rew().name.as_str(), "Recorder.rew");
    assert_eq!(rec.goto().name.as_str(), "Recorder.goto");
    assert_eq!(rec.record().name.as_str(), "Recorder.record");
    assert_eq!(rec.pause().name.as_str(), "Recorder.pause");
    assert_eq!(rec.load().name.as_str(), "Recorder.load");
    assert_eq!(rec.samplerate().name.as_str(), "Recorder.samplerate");
    assert_eq!(rec.bit_resolution().name.as_str(), "Recorder.bitResolution");
    assert_eq!(rec.channel().name.as_str(), "Recorder.Channel");
    assert_eq!(rec.kbps().name.as_str(), "Recorder.kbps");
    assert_eq!(rec.file_type().name.as_str(), "Recorder.FileType");
    assert_eq!(rec.gain().name.as_str(), "Recorder.gain");
    assert_eq!(
        rec.arm_strip(2).unwrap().name.as_str(),
        "Recorder.ArmStrip(2)"
    );
    assert_eq!(rec.arm_bus(1).unwrap().name.as_str(), "Recorder.ArmBus(1)");
    assert_eq!(
        rec.out_bus_assignation(&Device::OutputA3)
            .unwrap()
            .name
            .as_str(),
        "Recorder.2"
    );
    assert!(matches!(
        rec.out_bus_assignation(&Device::Strip1),
        Err(ParameterError::Type(_))
    ));
    let mode = rec.mode();
    assert_eq!(mode.recbus().name.as_str(), "Recorder.mode.recbus");
    assert_eq!(mode.play_on_load().name.as_str(), "Recorder.mode.PlayOnLoad");
    assert_eq!(mode.loop_().name.as_str(), "Recorder.mode.Loop");
    assert_eq!(mode.multi_track().name.as_str(), "Recorder.mode.MultiTrack");
    // The recorder needs Banana or Potato; the error names them.
    let standard = remote(VoicemeeterApplication::Voicemeeter);
    match standard.parameters().recorder() {
        Err(ParameterError::Version(v)) => {
            assert_eq!(
                v.expected,
                vec![
                    VoicemeeterApplication::VoicemeeterBanana,
                    VoicemeeterApplication::VoicemeeterPotato,
                    VoicemeeterApplication::PotatoX64Bits,
                ]
            );
            assert_eq!(v.found, VoicemeeterApplication::Voicemeeter);
            assert_eq!(v.parameter, "Recorder");
        }
        _ => panic!("the standard edition has no recorder"),
    }
}

#[test]
fn fx_parameter_names() {
    let r = remote(VoicemeeterApplication::PotatoX64Bits);
    let fx = r.parameters().fx().unwrap();
    // The FX names are addressed under the recorder base, exactly as
    // the engine's parameter catalog spells them here.
    assert_eq!(fx.reverb_on().name.as_str(), "Recorder.Reverb.On");
    assert_eq!(fx.reverb_ab().name.as_str(), "Recorder.Reverb.AB");
    assert_eq!(fx.delay_on().name.as_str(), "Recorder.Delay.On");
    assert_eq!(fx.delay_ab().name.as_str(), "Recorder.Delay.AB");
    let banana = remote(VoicemeeterApplication::VoicemeeterBanana);
    match banana.parameters().fx() {
        Err(ParameterError::Version(v)) => {
            assert_eq!(
                v.expected,
                vec![
                    VoicemeeterApplication::VoicemeeterPotato,
                    VoicemeeterApplication::PotatoX64Bits,
                ]
            );
            assert_eq!(v.found, VoicemeeterApplication::VoicemeeterBanana);
        }
        _ => panic!("the FX section needs Potato"),
    }
}

#[test]
fn vban_parameter_names() {
    let r = remote(VoicemeeterApplication::Voicemeeter);
    let vban = r.parameters().vban();
    assert_eq!(vban.enable().name.as_str(), "vban.Enable");
    let incoming = vban.incoming_stream(ZIndex(1)).unwrap();
    assert_eq!(incoming.on().name.as_str(), "vban.instream[1].on");
    assert_eq!(incoming.name().name.as_str(), "vban.instream[1].name");
    assert_eq!(incoming.ip().name.as_str(), "vban.instream[1].ip");
    assert_eq!(incoming.port().name.as_str(), "vban.instream[1].port");
    assert_eq!(incoming.sample_rate().name.as_str(), "vban.instream[1].sr");
    assert_eq!(incoming.channel().name.as_str(), "vban.instream[1].channel");
    assert_eq!(incoming.bit().name.as_str(), "vban.instream[1].bit");
    assert_eq!(incoming.quality().name.as_str(), "vban.instream[1].quality");
    assert_eq!(incoming.route().name.as_str(), "vban.instream[1].route");
    let outgoing = vban.outgoing_stream(ZIndex(3)).unwrap();
    assert_eq!(outgoing.on().name.as_str(), "vban.outstream[3].on");
    // The standard edition has four streams per direction.
    assert!(matches!(
        vban.incoming_stream(ZIndex(4)),
        Err(ParameterError::OutOfRange(o)) if o.name == "vban.instream"
    ));
    assert!(matches!(
        vban.outgoing_stream(ZIndex(-1)),
        Err(ParameterError::OutOfRange(_))
    ));
    let potato = remote(VoicemeeterApplication::VoicemeeterPotato);
    assert!(potato.parameters().vban().incoming_stream(ZIndex(7)).is_ok());
    let none = remote(VoicemeeterApplication::NotRunning);
    assert!(matches!(
        none.parameters().vban().incoming_stream(ZIndex(0)),
        Err(ParameterError::Version(_))
    ));
}
