use mutenix::emulator::{
    build_version_report, version_report, ButtonState, DeviceEmulator, EmulatorState, LedState,
    WsMessage,
};
use mutenix::hid_commands::{
    HardwareType, HidInputMessage, HidOutputCommand, LedColor, OutboundCommand, SetLed,
    SimpleCommand, Status, UpdateConfig, VersionInfo,
};

#[test]
fn test_new_emulator() {
    let emulator = DeviceEmulator::new(HardwareType::FiveButtonUsb);
    let state = emulator.get_state();
    assert_eq!(state.version, "1.0.0");
    assert_eq!(state.hardware_type, 0x03);
    assert_eq!(state.serial_number, "EMULATOR001");
    assert_eq!(state.leds, (0..5).map(LedState::new).collect::<Vec<_>>());
    assert_eq!(state.buttons, (0..5).map(ButtonState::new).collect::<Vec<_>>());
    assert_eq!(DeviceEmulator::new(HardwareType::TenButtonBt).get_state().buttons.len(), 10);
    assert_eq!(DeviceEmulator::new(HardwareType::TenButtonUsb).get_state().leds.len(), 10);
    assert_eq!(DeviceEmulator::new(HardwareType::Unknown).get_state().leds.len(), 5);
    assert_eq!(DeviceEmulator::new(HardwareType::FiveButtonBt).get_state().leds.len(), 5);
    let state = EmulatorState::new(HardwareType::FiveButtonUsbV1, 3);
    assert_eq!((state.leds.len(), state.buttons.len(), state.hardware_type), (3, 3, 0x02));
    assert_eq!(EmulatorState::new(HardwareType::Unknown, 0).leds.len(), 0);
}

#[test]
fn test_led_state() {
    let mut led = LedState::new(4);
    assert_eq!(led, LedState { id: 4, r: 0, g: 0, b: 0, w: 0 });
    led.set_rgbw([1, 2, 3, 4]);
    assert_eq!(led, LedState { id: 4, r: 1, g: 2, b: 3, w: 4 });
    assert_eq!(ButtonState::new(2), ButtonState { button: 2, pressed: false });
}

#[test]
fn test_set_led_command() {
    let mut emulator = DeviceEmulator::new(HardwareType::FiveButtonUsb);
    let report = OutboundCommand::SetLed(SetLed::new(2, LedColor::Orange)).report();
    assert_eq!(emulator.process_command(&report), Ok(Vec::new()));
    let state = emulator.get_state();
    assert_eq!(state.leds[2], LedState { id: 2, r: 0x0A, g: 0x08, b: 0, w: 0 });
    assert_eq!(state.leds[1], LedState::new(1));
    // An LED that the device does not have is passed over.
    let report = OutboundCommand::SetLed(SetLed::new(7, LedColor::Red)).report();
    assert_eq!(emulator.process_command(&report), Ok(Vec::new()));
    assert_eq!(emulator.get_state().leds, state.leds);
}

#[test]
fn test_other_commands() {
    let mut emulator = DeviceEmulator::new(HardwareType::FiveButtonUsb);
    let before = emulator.get_state();
    let ping = OutboundCommand::Simple(SimpleCommand::ping(3)).report();
    assert_eq!(emulator.process_command(&ping), Ok(Vec::new()));
    let config = OutboundCommand::UpdateConfig(UpdateConfig::new()).report();
    assert_eq!(emulator.process_command(&config), Ok(Vec::new()));
    let reset = OutboundCommand::Simple(SimpleCommand::reset()).report();
    assert_eq!(emulator.process_command(&reset), Ok(Vec::new()));
    assert_eq!(emulator.process_command(&[1, 0x77]), Ok(Vec::new()));
    let after = emulator.get_state();
    assert_eq!((after.leds, after.buttons), (before.leds, before.buttons));
}

#[test]
fn test_short_commands_are_refused() {
    let mut emulator = DeviceEmulator::new(HardwareType::FiveButtonUsb);
    assert_eq!(emulator.process_command(&[]), Err("Buffer too short".to_string()));
    assert_eq!(emulator.process_command(&[1]), Err("Buffer too short".to_string()));
    assert_eq!(
        emulator.process_command(&[1, 0x01, 0, 1, 1, 1, 1, 0]),
        Err("SetLed buffer too short".to_string())
    );
    assert_eq!(
        emulator.process_command(&[1, 0xF0]),
        Err("Ping buffer too short".to_string())
    );
    assert_eq!(
        emulator.process_command(&[1, 0xE2, 0, 0, 0, 0, 0, 0]),
        Err("UpdateConfig buffer too short".to_string())
    );
    assert_eq!(emulator.get_state().leds[0], LedState::new(0));
}

#[test]
fn test_buttons() {
    let mut emulator = DeviceEmulator::new(HardwareType::FiveButtonUsb);
    let report = emulator.press_button(3).unwrap();
    assert_eq!(report, vec![1, 0x01, 3, 1, 0, 1, 0, 0]);
    assert!(emulator.get_state().buttons[3].pressed);
    let status = Status::from_buffer(&report[2..]).unwrap();
    assert!(status.triggered() && status.pressed() && !status.released());
    let report = emulator.release_button(3).unwrap();
    assert_eq!(report, vec![1, 0x01, 3, 0, 0, 0, 1, 0]);
    assert!(!emulator.get_state().buttons[3].pressed);
    assert_eq!(emulator.press_button(5), Err("Button 5 not found".to_string()));
    assert_eq!(emulator.release_button(200), Err("Button 200 not found".to_string()));
}

#[test]
fn test_version_report() {
    let emulator = DeviceEmulator::new(HardwareType::TenButtonUsb);
    let report = emulator.get_version_info();
    assert_eq!(report, vec![1, 0x99, 1, 0, 0, 0x05, 0, 0]);
    let version = VersionInfo::from_buffer(&report[2..]).unwrap();
    assert_eq!(version.version(), "1.0.0");
    assert_eq!(version.hardware_type(), HardwareType::TenButtonUsb);
}

#[test]
fn test_version_texts() {
    assert_eq!(version_report("1.0.0", 3), vec![1, 0x99, 1, 0, 0, 3, 0, 0]);
    assert_eq!(version_report("7.8.9", 0), vec![1, 0x99, 7, 8, 9, 0, 0, 0]);
    assert_eq!(version_report("12.255.3.99", 6), vec![1, 0x99, 12, 255, 3, 6, 0, 0]);
    // A part that is missing or is no number gets its default.
    assert_eq!(version_report("2", 0), vec![1, 0x99, 2, 0, 0, 0, 0, 0]);
    assert_eq!(version_report("2.5", 0), vec![1, 0x99, 2, 5, 0, 0, 0, 0]);
    assert_eq!(version_report("", 0), vec![1, 0x99, 1, 0, 0, 0, 0, 0]);
    assert_eq!(version_report("x.y.z", 0), vec![1, 0x99, 1, 0, 0, 0, 0, 0]);
    assert_eq!(version_report("..4", 0), vec![1, 0x99, 1, 0, 4, 0, 0, 0]);
    assert_eq!(version_report("3.256.1", 0), vec![1, 0x99, 3, 0, 1, 0, 0, 0]);
    assert_eq!(version_report("+3.-1.1 ", 0), vec![1, 0x99, 3, 0, 0, 0, 0, 0]);
    assert_eq!(version_report("1.", 0), vec![1, 0x99, 1, 0, 0, 0, 0, 0]);
    assert_eq!(
        build_version_report(Some(Some(4)), Some(None), None, 9),
        vec![1, 0x99, 4, 0, 0, 9, 0, 0]
    );
    assert_eq!(
        build_version_report(None, Some(Some(5)), Some(Some(6)), 9),
        vec![1, 0x99, 1, 5, 6, 9, 0, 0]
    );
}

#[test]
fn test_messages_of_the_page() {
    let mut emulator = DeviceEmulator::new(HardwareType::FiveButtonUsb);
    let data = OutboundCommand::SetLed(SetLed::new(0, LedColor::White)).report();
    let replies = emulator.handle_message(WsMessage::Command { data }).unwrap();
    assert_eq!(replies.len(), 1);
    match &replies[0] {
        WsMessage::State { state } => assert_eq!(state.leds[0].w, 0x0A),
        other => panic!("unexpected {:?}", other),
    }
    let replies = emulator.handle_message(WsMessage::Button { button: 1, pressed: true }).unwrap();
    assert_eq!(replies.len(), 2);
    match (&replies[0], &replies[1]) {
        (WsMessage::Response { data }, WsMessage::State { state }) => {
            assert_eq!(data, &vec![1, 0x01, 1, 1, 0, 1, 0, 0]);
            assert!(state.buttons[1].pressed);
        }
        other => panic!("unexpected {:?}", other),
    }
    let replies =
        emulator.handle_message(WsMessage::Button { button: 1, pressed: false }).unwrap();
    match &replies[0] {
        WsMessage::Response { data } => assert_eq!(data, &vec![1, 0x01, 1, 0, 0, 0, 1, 0]),
        other => panic!("unexpected {:?}", other),
    }
    let replies = emulator.handle_message(WsMessage::GetVersion).unwrap();
    assert_eq!(replies.len(), 1);
    match &replies[0] {
        WsMessage::Response { data } => assert_eq!(data, &vec![1, 0x99, 1, 0, 0, 3, 0, 0]),
        other => panic!("unexpected {:?}", other),
    }
    assert_eq!(
        emulator.handle_message(WsMessage::Button { button: 9, pressed: true }).unwrap_err(),
        "Button 9 not found"
    );
    assert_eq!(
        emulator.handle_message(WsMessage::Command { data: vec![1] }).unwrap_err(),
        "Buffer too short"
    );
    assert!(emulator
        .handle_message(WsMessage::Error { message: "x".to_string() })
        .unwrap()
        .is_empty());
    assert!(emulator.handle_message(WsMessage::Response { data: vec![1] }).unwrap().is_empty());
}

#[test]
fn test_raw_commands() {
    let mut emulator = DeviceEmulator::new(HardwareType::FiveButtonUsb);
    let data = OutboundCommand::SetLed(SetLed::new(4, LedColor::Blue)).report();
    let state = emulator.handle_binary(&data).unwrap();
    assert_eq!(state.leds[4].b, 0x0A);
    assert_eq!(emulator.handle_binary(&[]).unwrap_err(), "Buffer too short");
    let command = SetLed::new(4, LedColor::Blue);
    assert_eq!(command.to_buffer()[1], 4);
}
