use mutenix::hid_commands::{
    HidOutputCommand, LedColor, OutboundCommand, SetLed, SimpleCommand, UpdateConfig,
};
use mutenix::hid_device::{
    after_failed_attempt, is_mutenix_product, lowercase_names_mutenix, on_read, search_exhausted,
    write_outcome, Candidate, ConnectionState, DeviceInfo, DeviceMessage, HardwareState, HidDevice,
    HidError, OpenAttempt, ReadAction, ReadResult, WriteAction, WriteResult,
    NOT_CONNECTED_SLEEP_MILLIS, PING_INTERVAL_MILLIS, READ_CAPACITY, READ_TIMEOUT_MILLIS,
    SEARCH_INTERVAL_MILLIS,
};

fn candidate(vendor: u16, product_id: u16, serial: Option<&str>, product: Option<&str>) -> Candidate {
    Candidate {
        vendor_id: vendor,
        product_id,
        serial_number: serial.map(|s| s.to_string()),
        product: product.map(|s| s.to_string()),
    }
}

fn info(vendor: u16, product_id: u16, serial: Option<&str>) -> DeviceInfo {
    DeviceInfo { vendor_id: vendor, product_id, serial_number: serial.map(|s| s.to_string()) }
}

#[test]
fn test_new_link_is_disconnected() {
    let link = HidDevice::new_auto();
    let state = link.state();
    assert_eq!(state.connection_status, ConnectionState::Disconnected);
    assert!(state.serial_number.is_none());
    assert!(state.manufacturer.is_none());
    assert!(state.product.is_none());
    assert!(link.is_running());
    assert_eq!(link.queued(), 0);
    let state = HardwareState::default();
    assert_eq!(state.connection_status, ConnectionState::Disconnected);
}

#[test]
fn test_connection_is_noted() {
    let mut link = HidDevice::new(vec![info(7504, 24969, None)]);
    link.on_connected(Some("S1".to_string()), Some("m".to_string()), None);
    let state = link.state();
    assert_eq!(state.connection_status, ConnectionState::Connected);
    assert_eq!(state.serial_number, Some("S1".to_string()));
    assert_eq!(state.manufacturer, Some("m".to_string()));
    assert_eq!(state.product, None);
    link.begin_search();
    let state = link.state();
    assert_eq!(state.connection_status, ConnectionState::Disconnected);
    assert_eq!(state.serial_number, Some("S1".to_string()));
}

#[test]
fn test_product_names() {
    assert!(is_mutenix_product("Mutenix Macropad"));
    assert!(is_mutenix_product("MUTENIX"));
    assert!(is_mutenix_product("the mUtEnIx five"));
    assert!(!is_mutenix_product("Macropad"));
    assert!(!is_mutenix_product("muteni"));
    assert!(!is_mutenix_product(""));
    assert!(lowercase_names_mutenix("xmutenixx"));
    assert!(!lowercase_names_mutenix("MUTENIX"));
    assert!(!lowercase_names_mutenix("mutemutenimutenx"));
    assert!(lowercase_names_mutenix("mumutenix"));
}

#[test]
fn test_search_without_configured_devices() {
    let link = HidDevice::new_auto();
    let candidates = vec![
        candidate(1, 2, None, None),
        candidate(1, 3, Some("a"), Some("Keyboard")),
        candidate(7504, 24969, Some("b"), Some("Mutenix Macropad")),
        candidate(7504, 24969, Some("c"), Some("mutenix two")),
    ];
    assert_eq!(
        link.plan_search(&candidates),
        vec![OpenAttempt::Listed { index: 2, last: true }]
    );
    assert_eq!(link.plan_search(&candidates[..2].to_vec()), vec![]);
    assert_eq!(link.plan_search(&Vec::new()), vec![]);
}

#[test]
fn test_search_for_configured_devices() {
    let link = HidDevice::new(vec![
        info(0, 0, Some("zz")),
        info(0, 0, None),
        info(7504, 24969, None),
        info(0, 0, Some("b")),
        info(4617, 1, Some("x")),
        info(0, 5, None),
    ]);
    let candidates = vec![
        candidate(1, 2, None, Some("Mutenix")),
        candidate(1, 3, Some("b"), None),
        candidate(1, 4, Some("b"), None),
    ];
    assert_eq!(
        link.plan_search(&candidates),
        vec![
            OpenAttempt::ByIds { vendor_id: 7504, product_id: 24969, serial_number: None },
            OpenAttempt::Listed { index: 1, last: false },
            OpenAttempt::ByIds {
                vendor_id: 4617,
                product_id: 1,
                serial_number: Some("x".to_string())
            },
            OpenAttempt::ByIds { vendor_id: 0, product_id: 5, serial_number: None },
        ]
    );
}

#[test]
fn test_failed_attempts() {
    let listed = OpenAttempt::Listed { index: 0, last: true };
    assert_eq!(
        after_failed_attempt(&listed, "denied".to_string()),
        Some(HidError::HidApiError("denied".to_string()))
    );
    let listed = OpenAttempt::Listed { index: 0, last: false };
    assert_eq!(after_failed_attempt(&listed, "denied".to_string()), None);
    let by_ids = OpenAttempt::ByIds { vendor_id: 1, product_id: 2, serial_number: None };
    assert_eq!(after_failed_attempt(&by_ids, "denied".to_string()), None);
    assert_eq!(search_exhausted(), HidError::NotConnected);
}

#[test]
fn test_only_status_reaches_the_subscribers() {
    let read = |bytes: &[u8], size: usize| on_read(ReadResult::Data { buffer: bytes.to_vec(), size });
    let mut buffer = vec![1u8, 0x01, 4, 1, 0, 1, 0, 0];
    buffer.resize(64, 0);
    match read(&buffer, 8) {
        ReadAction::Forward(DeviceMessage::Status(status)) => {
            assert_eq!(status.button(), 4);
            assert!(status.triggered() && status.pressed());
            assert!(!status.longpressed() && !status.released());
        }
        other => panic!("unexpected {:?}", other),
    }
    assert!(matches!(
        read(&[1, 0x02], 2),
        ReadAction::Forward(DeviceMessage::StatusRequest(_))
    ));
    // A version report is decoded, but not forwarded.
    assert!(matches!(read(&[1, 0x99, 1, 2, 3, 4, 0, 0], 8), ReadAction::Continue));
    // An unknown command and a short report are passed over.
    assert!(matches!(read(&[1, 0x55, 1, 2, 3, 4, 0, 0], 8), ReadAction::Continue));
    assert!(matches!(read(&[1, 0x01, 1, 2, 3, 4, 0, 0], 7), ReadAction::Continue));
    assert!(matches!(read(&[1], 1), ReadAction::Continue));
    // Nothing was read.
    assert!(matches!(read(&buffer, 0), ReadAction::Continue));
    // The size counts, not the buffer.
    assert!(matches!(read(&[1, 0x01, 1, 2, 3, 4, 0, 0], 100), ReadAction::Forward(_)));
    match on_read(ReadResult::NotConnected) {
        ReadAction::Sleep(millis) => assert_eq!(millis, NOT_CONNECTED_SLEEP_MILLIS),
        other => panic!("unexpected {:?}", other),
    }
    match on_read(ReadResult::Failed("gone".to_string())) {
        ReadAction::Reconnect(error) => {
            assert_eq!(error, HidError::ReadFailed("gone".to_string()))
        }
        other => panic!("unexpected {:?}", other),
    }
}

#[test]
fn test_commands_are_written_in_order() {
    let mut link = HidDevice::new_auto();
    assert!(matches!(link.next_write(), WriteAction::Idle));
    let first = link
        .send_command(OutboundCommand::SetLed(SetLed::new(1, LedColor::Green)))
        .unwrap();
    let second = link
        .send_command(OutboundCommand::UpdateConfig(UpdateConfig::new().activate_filesystem(true)))
        .unwrap();
    assert_eq!((first, second), (0, 1));
    assert_eq!(link.queued(), 2);
    match link.next_write() {
        WriteAction::Write { ticket, report } => {
            assert_eq!(ticket, first);
            assert_eq!(report, vec![1, 0x01, 1, 0, 0x0A, 0, 0, 0, 0]);
        }
        other => panic!("unexpected {:?}", other),
    }
    match link.next_write() {
        WriteAction::Write { ticket, report } => {
            assert_eq!(ticket, second);
            assert_eq!(report, vec![1, 0xE2, 0, 2, 0, 0, 0, 0, 0]);
        }
        other => panic!("unexpected {:?}", other),
    }
    assert!(matches!(link.next_write(), WriteAction::Idle));
    link.send_command(OutboundCommand::Simple(SimpleCommand::reset())).unwrap();
    link.stop();
    assert!(!link.is_running());
    assert!(matches!(link.next_write(), WriteAction::Stop));
    assert_eq!(link.queued(), 1);
}

#[test]
fn test_send_on_a_closed_queue_fails() {
    let mut link = HidDevice::new_auto();
    link.close();
    let result = link.send_command(OutboundCommand::Simple(SimpleCommand::ping(1)));
    assert_eq!(result, Err(HidError::NotConnected));
    assert_eq!(link.queue_ping(), Err(HidError::NotConnected));
    assert_eq!(link.queued(), 0);
}

#[test]
fn test_pings_count_up_and_wrap() {
    let mut link = HidDevice::new_auto();
    assert_eq!(link.next_ping().to_buffer(), vec![0xF0, 0, 0, 0, 0, 0, 0, 0]);
    assert_eq!(link.next_ping().to_buffer(), vec![0xF0, 0, 0, 0, 0, 0, 0, 1]);
    for _ in 2..255 {
        link.next_ping();
    }
    assert_eq!(link.next_ping().to_buffer(), vec![0xF0, 0, 0, 0, 0, 0, 0, 255]);
    assert_eq!(link.queue_ping(), Ok(0));
    match link.next_write() {
        WriteAction::Write { report, .. } => {
            assert_eq!(report, vec![1, 0xF0, 0, 0, 0, 0, 0, 0, 0])
        }
        other => panic!("unexpected {:?}", other),
    }
    assert_eq!(link.next_ping().to_buffer()[7], 1);
    assert_eq!(PING_INTERVAL_MILLIS, 4000);
    assert_eq!(SEARCH_INTERVAL_MILLIS, 1000);
    assert_eq!(READ_TIMEOUT_MILLIS, 100);
    assert_eq!(READ_CAPACITY, 64);
}

#[test]
fn test_write_outcomes() {
    assert_eq!(write_outcome(WriteResult::Written(9)), Ok(9));
    assert_eq!(write_outcome(WriteResult::NotConnected), Err(HidError::NotConnected));
    assert_eq!(
        write_outcome(WriteResult::Failed("stall".to_string())),
        Err(HidError::WriteFailed("stall".to_string()))
    );
}

#[test]
fn test_subscribers_are_added() {
    let mut link = HidDevice::new_auto();
    assert!(link.subscribers().is_empty());
    let first = link.register_callback();
    let second = link.register_callback();
    assert_eq!(link.subscribers(), &vec![first, second]);
    assert_ne!(first, second);
}

#[test]
fn test_hid_error_texts() {
    assert_eq!(HidError::NotConnected.to_string(), "Device not connected");
    assert_eq!(
        HidError::WriteFailed("a".to_string()).to_string(),
        "Failed to write to device: a"
    );
    assert_eq!(
        HidError::ReadFailed("b".to_string()).to_string(),
        "Failed to read from device: b"
    );
    assert_eq!(HidError::Disconnected.to_string(), "Device disconnected");
    assert_eq!(HidError::HidApiError("c".to_string()).to_string(), "HID API error: c");
}
