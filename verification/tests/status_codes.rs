//! Interpretation of the engine's status codes, and the callback
//! lifecycle state machine.

use voicemeeter::callback::register::{
    make_application_name, AudioCallbackMode, AudioCallbackRegisterError,
    AudioCallbackUnregisterError, CallbackState,
};
use voicemeeter::callback::start_stop::{AudioCallbackStartError, AudioCallbackStopError};
use voicemeeter::decimal::{i32_decimal, u64_decimal, usize_decimal};
use voicemeeter::interface::communication_login_logout::{
    login_outcome, logout_outcome, run_voicemeeter_code, run_voicemeeter_outcome, LoginError,
    LogoutError, RunVoicemeeterError, VoicemeeterStatus,
};
use voicemeeter::interface::device::{
    device_description_outcome, total_devices_outcome, DeviceType, GetDeviceError,
    GetTotalDeviceError,
};
use voicemeeter::interface::general_information::{
    voicemeeter_type_outcome, voicemeeter_version_outcome, GetVoicemeeterInformationError,
    VoicemeeterVersion,
};
use voicemeeter::interface::get_levels::{
    level_outcome, midi_message_outcome, GetLevelError, GetMidiMessageError,
};
use voicemeeter::interface::macro_buttons::{
    get_macrobutton_outcome, macrobutton_dirty_outcome, set_macrobutton_outcome,
    GetMacroButtonStatusError, IsMacroButtonDirtyError, MacroButtonMode, MacroButtonStatus,
    SetMacroButtonStatusError,
};
use voicemeeter::interface::VoicemeeterRemote;
use voicemeeter::parameters::get_parameters::{
    get_parameter_outcome, parameters_dirty_outcome, GetParameterError, IsParametersDirtyError,
};
use voicemeeter::parameters::set_parameters::{
    set_parameter_outcome, set_parameters_outcome, SetParameterError, SetParametersError,
};
use voicemeeter::parameters::ParameterName;
use voicemeeter::types::{LogicalButton, VoicemeeterApplication, ZIndex};

#[test]
fn decimal_rendering() {
    assert_eq!(u64_decimal(0).as_str(), "0");
    assert_eq!(u64_decimal(7).as_str(), "7");
    assert_eq!(u64_decimal(10).as_str(), "10");
    assert_eq!(u64_decimal(65535).as_str(), "65535");
    assert_eq!(usize_decimal(1204).as_str(), "1204");
    assert_eq!(i32_decimal(0).as_str(), "0");
    assert_eq!(i32_decimal(42).as_str(), "42");
    assert_eq!(i32_decimal(-8).as_str(), "-8");
    assert_eq!(i32_decimal(i32::MIN).as_str(), "-2147483648");
    assert_eq!(i32_decimal(i32::MAX).as_str(), "2147483647");
}

#[test]
fn login_codes() {
    assert_eq!(login_outcome(0), Ok(VoicemeeterStatus::Launched));
    assert_eq!(login_outcome(1), Ok(VoicemeeterStatus::NotLaunched));
    assert_eq!(login_outcome(-2), Err(LoginError::LoginFailed));
    assert_eq!(login_outcome(-7), Err(LoginError::Unexpected(-7)));
    assert!(LoginError::LoginFailed.is_login_failed());
    assert!(!LoginError::LoginFailed.is_unexpected());
    assert!(LoginError::Unexpected(3).is_unexpected());
    assert!(!LoginError::AlreadyLoggedIn(VoicemeeterStatus::Launched).is_login_failed());
}

#[test]
fn logout_and_run_codes() {
    assert_eq!(logout_outcome(0), Ok(()));
    assert_eq!(logout_outcome(4), Err(LogoutError::Unexpected(4)));
    assert_eq!(run_voicemeeter_outcome(0), Ok(()));
    assert_eq!(
        run_voicemeeter_outcome(-1),
        Err(RunVoicemeeterError::NotInstalled)
    );
    assert_eq!(
        run_voicemeeter_outcome(-2),
        Err(RunVoicemeeterError::UnknownType)
    );
    assert_eq!(run_voicemeeter_outcome(9), Err(RunVoicemeeterError::Other(9)));
    assert_eq!(
        run_voicemeeter_code(VoicemeeterApplication::VoicemeeterBanana),
        2
    );
    assert_eq!(run_voicemeeter_code(VoicemeeterApplication::PotatoX64Bits), 6);
}

#[test]
fn information_codes() {
    assert_eq!(
        voicemeeter_type_outcome(0, 3),
        Ok(VoicemeeterApplication::VoicemeeterPotato)
    );
    assert_eq!(
        voicemeeter_type_outcome(0, 9),
        Ok(VoicemeeterApplication::Other)
    );
    assert_eq!(
        voicemeeter_type_outcome(-1, 0),
        Err(GetVoicemeeterInformationError::CannotGetClient)
    );
    assert_eq!(
        voicemeeter_type_outcome(-2, 0),
        Err(GetVoicemeeterInformationError::NoServer)
    );
    assert_eq!(
        voicemeeter_type_outcome(5, 0),
        Err(GetVoicemeeterInformationError::Other(5))
    );
    assert_eq!(
        voicemeeter_version_outcome(0, 0x02010508),
        Ok(VoicemeeterVersion(2, 1, 5, 8))
    );
    assert_eq!(
        voicemeeter_version_outcome(0, 0x03000700),
        Ok(VoicemeeterVersion(3, 0, 7, 0))
    );
    assert_eq!(
        voicemeeter_version_outcome(-2, 0),
        Err(GetVoicemeeterInformationError::NoServer)
    );
}

#[test]
fn update_program_applies_fetched_type() {
    let mut remote = VoicemeeterRemote::from_raw();
    assert_eq!(remote.program, VoicemeeterApplication::Other);
    assert_eq!(
        remote.update_program(Ok(VoicemeeterApplication::VoicemeeterBanana)),
        Ok(())
    );
    assert_eq!(remote.program, VoicemeeterApplication::VoicemeeterBanana);
    // An unreachable engine means no program is running.
    assert_eq!(
        remote.update_program(Err(GetVoicemeeterInformationError::NoServer)),
        Ok(())
    );
    assert_eq!(remote.program, VoicemeeterApplication::NotRunning);
    // Any other error is handed back, the program unchanged.
    assert_eq!(
        remote.update_program(Err(GetVoicemeeterInformationError::Other(8))),
        Err(GetVoicemeeterInformationError::Other(8))
    );
    assert_eq!(remote.program, VoicemeeterApplication::NotRunning);
}

#[test]
fn device_codes() {
    assert_eq!(total_devices_outcome(12), Ok(12));
    assert_eq!(total_devices_outcome(0), Ok(0));
    assert_eq!(total_devices_outcome(-3), Err(GetTotalDeviceError(-3)));
    assert_eq!(device_description_outcome(0), Ok(()));
    assert_eq!(device_description_outcome(-1), Err(GetDeviceError(-1)));
    assert!(matches!(DeviceType::from_code(1), DeviceType::Mme));
    assert!(matches!(DeviceType::from_code(3), DeviceType::Wdm));
    assert!(matches!(DeviceType::from_code(4), DeviceType::Ks));
    assert!(matches!(DeviceType::from_code(5), DeviceType::Asio));
    assert!(matches!(DeviceType::from_code(2), DeviceType::Other(2)));
}

#[test]
fn level_and_midi_codes() {
    assert_eq!(level_outcome(0), Ok(()));
    assert_eq!(level_outcome(-1), Err(GetLevelError::CannotGetClient));
    assert_eq!(level_outcome(-2), Err(GetLevelError::NoServer));
    assert_eq!(level_outcome(-3), Err(GetLevelError::NoLevel));
    assert_eq!(level_outcome(-4), Err(GetLevelError::OutOfRange));
    assert_eq!(level_outcome(-9), Err(GetLevelError::Other(-9)));
    assert_eq!(midi_message_outcome(24), Ok(24));
    assert_eq!(midi_message_outcome(0), Ok(0));
    assert_eq!(
        midi_message_outcome(-1),
        Err(GetMidiMessageError::CannotGetClient)
    );
    assert_eq!(midi_message_outcome(-2), Err(GetMidiMessageError::NoServer));
    assert_eq!(
        midi_message_outcome(-5),
        Err(GetMidiMessageError::NoMidiData(-5))
    );
    assert_eq!(
        midi_message_outcome(-6),
        Err(GetMidiMessageError::NoMidiData(-6))
    );
    assert_eq!(midi_message_outcome(-9), Err(GetMidiMessageError::Other(-9)));
}

#[test]
fn macro_button_codes() {
    let button = LogicalButton(ZIndex(4));
    assert_eq!(macrobutton_dirty_outcome(0), Ok(false));
    assert_eq!(macrobutton_dirty_outcome(3), Ok(true));
    assert_eq!(
        macrobutton_dirty_outcome(-1),
        Err(IsMacroButtonDirtyError::CannotGetClient)
    );
    assert_eq!(
        macrobutton_dirty_outcome(-2),
        Err(IsMacroButtonDirtyError::NoServer)
    );
    assert_eq!(
        macrobutton_dirty_outcome(-4),
        Err(IsMacroButtonDirtyError::Other(-4))
    );
    assert_eq!(
        get_macrobutton_outcome(0, true, button, 0),
        Ok(MacroButtonStatus(true))
    );
    assert_eq!(
        get_macrobutton_outcome(0, false, button, 3),
        Ok(MacroButtonStatus(false))
    );
    assert_eq!(
        get_macrobutton_outcome(-3, false, button, 0),
        Err(GetMacroButtonStatusError::UnknownParameter(button))
    );
    assert_eq!(
        get_macrobutton_outcome(-5, false, button, 3),
        Err(GetMacroButtonStatusError::StructureMismatch(button, 3))
    );
    assert_eq!(
        get_macrobutton_outcome(-2, false, button, 0),
        Err(GetMacroButtonStatusError::NoServer)
    );
    assert_eq!(
        get_macrobutton_outcome(-9, false, button, 0),
        Err(GetMacroButtonStatusError::Other(-9))
    );
    assert_eq!(set_macrobutton_outcome(0, button, 0), Ok(()));
    assert_eq!(
        set_macrobutton_outcome(-1, button, 0),
        Err(SetMacroButtonStatusError::CannotGetClient)
    );
    assert_eq!(
        set_macrobutton_outcome(-3, button, 2),
        Err(SetMacroButtonStatusError::UnknownParameter(button))
    );
    assert_eq!(
        set_macrobutton_outcome(-5, button, 2),
        Err(SetMacroButtonStatusError::StructureMismatch(button, 2))
    );
    assert_eq!(MacroButtonMode::Default.code(), 0);
    assert_eq!(MacroButtonMode::StateOnly.code(), 2);
    assert_eq!(MacroButtonMode::Trigger.code(), 3);
}

#[test]
fn parameter_codes() {
    let name = ParameterName("Strip[0].Mute".to_string());
    assert_eq!(parameters_dirty_outcome(0), Ok(false));
    assert_eq!(parameters_dirty_outcome(1), Ok(true));
    assert_eq!(
        parameters_dirty_outcome(-1),
        Err(IsParametersDirtyError::CannotGetClient)
    );
    assert_eq!(
        parameters_dirty_outcome(-2),
        Err(IsParametersDirtyError::NoServer)
    );
    assert_eq!(
        parameters_dirty_outcome(7),
        Err(IsParametersDirtyError::Other(7))
    );
    assert_eq!(get_parameter_outcome(0, &name, "float"), Ok(()));
    assert_eq!(
        get_parameter_outcome(-3, &name, "float"),
        Err(GetParameterError::UnknownParameter(
            "Strip[0].Mute".to_string()
        ))
    );
    assert_eq!(
        get_parameter_outcome(-5, &name, "float"),
        Err(GetParameterError::StructureMismatch(
            "Strip[0].Mute".to_string(),
            "float"
        ))
    );
    assert_eq!(
        get_parameter_outcome(-1, &name, "float"),
        Err(GetParameterError::CannotGetClient)
    );
    assert_eq!(
        get_parameter_outcome(-2, &name, "float"),
        Err(GetParameterError::NoServer)
    );
    assert_eq!(
        get_parameter_outcome(-9, &name, "float"),
        Err(GetParameterError::Other(-9))
    );
    assert_eq!(set_parameter_outcome(0, &name), Ok(()));
    assert_eq!(
        set_parameter_outcome(-3, &name),
        Err(SetParameterError::UnknownParameter(
            "Strip[0].Mute".to_string()
        ))
    );
    assert_eq!(
        set_parameter_outcome(-2, &name),
        Err(SetParameterError::NoServer)
    );
    assert_eq!(
        set_parameter_outcome(-1, &name),
        Err(SetParameterError::CannotGetClient)
    );
    assert_eq!(
        set_parameter_outcome(-8, &name),
        Err(SetParameterError::Other(-8))
    );
    assert_eq!(set_parameters_outcome(0), Ok(()));
    assert_eq!(
        set_parameters_outcome(3),
        Err(SetParametersError::ScriptError(3))
    );
    assert_eq!(
        set_parameters_outcome(-2),
        Err(SetParametersError::SetParameterError(
            SetParameterError::NoServer
        ))
    );
    assert_eq!(
        set_parameters_outcome(-9),
        Err(SetParametersError::SetParameterError(
            SetParameterError::Other(-9)
        ))
    );
}

#[test]
fn application_name_buffer() {
    let buf = make_application_name("hello");
    assert_eq!(buf.len(), 64);
    assert_eq!(&buf[..5], b"hello");
    assert!(buf[5..].iter().all(|b| *b == 0));
    let exact = make_application_name(&"x".repeat(64));
    assert_eq!(exact.len(), 64);
    assert!(exact.iter().all(|b| *b == b'x'));
    let empty = make_application_name("");
    assert!(empty.iter().all(|b| *b == 0));
}

#[test]
fn callback_modes() {
    assert_eq!(AudioCallbackMode::audio_in().0, 1);
    assert_eq!(AudioCallbackMode::audio_out().0, 2);
    assert_eq!(AudioCallbackMode::audio_main().0, 4);
    assert_eq!(
        AudioCallbackMode::audio_in()
            .with(AudioCallbackMode::audio_out())
            .0,
        3
    );
    assert_eq!(
        AudioCallbackMode::audio_main()
            .with(AudioCallbackMode::audio_in())
            .0,
        5
    );
}

#[test]
fn callback_lifecycle() {
    let mut state = CallbackState::Unregistered;
    // A failed registration leaves the state alone.
    assert_eq!(
        state.register_outcome(-1, "app".to_string()),
        Err(AudioCallbackRegisterError::NoServer)
    );
    assert_eq!(state, CallbackState::Unregistered);
    assert_eq!(
        state.register_outcome(1, "app".to_string()),
        Err(AudioCallbackRegisterError::AlreadyRegistered("app".to_string()))
    );
    assert_eq!(
        state.register_outcome(7, "app".to_string()),
        Err(AudioCallbackRegisterError::Unexpected(7))
    );
    assert_eq!(state, CallbackState::Unregistered);
    // Success walks the whole lifecycle.
    assert_eq!(state.register_outcome(0, "app".to_string()), Ok(()));
    assert_eq!(state, CallbackState::Registered);
    assert_eq!(state.start_outcome(0), Ok(()));
    assert_eq!(state, CallbackState::Started);
    assert_eq!(state.stop_outcome(0), Ok(()));
    assert_eq!(state, CallbackState::Stopped);
    assert_eq!(state.start_outcome(0), Ok(()));
    assert_eq!(state, CallbackState::Started);
    assert_eq!(state.unregister_outcome(0), Ok(()));
    assert_eq!(state, CallbackState::Unregistered);
    // Error codes of start, stop and unregister.
    assert_eq!(
        state.start_outcome(1),
        Err(AudioCallbackStartError::NoCallbackRegistered)
    );
    assert_eq!(state.start_outcome(-1), Err(AudioCallbackStartError::NoServer));
    assert_eq!(
        state.start_outcome(-9),
        Err(AudioCallbackStartError::Unexpected(-9))
    );
    assert_eq!(
        state.stop_outcome(1),
        Err(AudioCallbackStopError::NoCallbackRegistered)
    );
    assert_eq!(state.stop_outcome(-1), Err(AudioCallbackStopError::NoServer));
    assert_eq!(
        state.stop_outcome(5),
        Err(AudioCallbackStopError::Unexpected(5))
    );
    assert_eq!(
        state.unregister_outcome(1),
        Err(AudioCallbackUnregisterError::AlreadyUnregistered)
    );
    assert_eq!(
        state.unregister_outcome(-1),
        Err(AudioCallbackUnregisterError::NoServer)
    );
    assert_eq!(
        state.unregister_outcome(8),
        Err(AudioCallbackUnregisterError::Unexpected(8))
    );
    assert_eq!(state, CallbackState::Unregistered);
}
