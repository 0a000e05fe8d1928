use mutenix::device_messages::{
    parse_hid_update_message, ChunkAck, HidUpdateMessage, LogLevel, LogMessage, UpdateError,
};

#[test]
fn test_chunk_ack_str_valid() {
    let mut data = b"AK".to_vec();
    data.extend(&(1u16).to_le_bytes()); // id
    data.extend(&(2u16).to_le_bytes()); // package
    data.push(3); // type

    let chunk_ack = ChunkAck::from_bytes(&data);

    assert!(chunk_ack.is_valid());
    assert_eq!(chunk_ack.to_string(), "File: 1, Type: 3, Package: 2");
}

#[test]
fn test_chunk_ack_str_invalid() {
    let mut data = b"XX".to_vec();
    data.extend(&(1u16).to_le_bytes());
    data.extend(&(2u16).to_le_bytes());
    data.push(3);

    let chunk_ack = ChunkAck::from_bytes(&data);

    assert!(!chunk_ack.is_valid());
    assert_eq!(chunk_ack.to_string(), "Invalid Request");
}

#[test]
fn test_chunk_ack_fields() {
    let mut data = b"AK".to_vec();
    data.extend(&(1u16).to_le_bytes()); // id
    data.extend(&(2u16).to_le_bytes()); // package
    data.push(3); // type

    let chunk_ack = ChunkAck::from_bytes(&data);

    assert_eq!(chunk_ack.id, 1);
    assert_eq!(chunk_ack.package, 2);
    assert_eq!(chunk_ack.type_, 3);
}

#[test]
fn test_update_error_str_valid() {
    let mut data = b"ER".to_vec();
    data.push(5); // length
    data.extend(b"Error");

    let update_error = UpdateError::from_bytes(&data);

    assert!(update_error.is_valid());
    assert_eq!(update_error.to_string(), "Error: Error");
}

#[test]
fn test_update_error_str_invalid() {
    let mut data = b"XX".to_vec();
    data.push(5);
    data.extend(b"Error");

    let update_error = UpdateError::from_bytes(&data);

    assert!(!update_error.is_valid());
    assert_eq!(update_error.to_string(), "Invalid Request");
}

#[test]
fn test_log_message_debug() {
    let mut data = b"LD".to_vec();
    data.extend(b"Debug message\0");

    let log_msg = LogMessage::from_bytes(&data);

    assert!(log_msg.is_valid());
    assert_eq!(log_msg.level, LogLevel::Debug);
    assert_eq!(log_msg.message, "Debug message");
    assert_eq!(log_msg.to_string(), "debug: Debug message");
}

#[test]
fn test_log_message_error() {
    let mut data = b"LE".to_vec();
    data.extend(b"Error message\0");

    let log_msg = LogMessage::from_bytes(&data);

    assert!(log_msg.is_valid());
    assert_eq!(log_msg.level, LogLevel::Error);
    assert_eq!(log_msg.message, "Error message");
    assert_eq!(log_msg.to_string(), "error: Error message");
}

#[test]
fn test_parse_hid_update_message_chunk_ack() {
    let mut data = b"AK".to_vec();
    data.extend(&(1u16).to_le_bytes());
    data.extend(&(2u16).to_le_bytes());
    data.push(3);

    let msg = parse_hid_update_message(&data);

    assert!(msg.is_some());
    match msg.unwrap() {
        HidUpdateMessage::ChunkAck(ack) => {
            assert_eq!(ack.id, 1);
            assert_eq!(ack.package, 2);
            assert_eq!(ack.type_, 3);
        }
        _ => panic!("Expected ChunkAck"),
    }
}

#[test]
fn test_parse_hid_update_message_error() {
    let mut data = b"ER".to_vec();
    data.push(5);
    data.extend(b"Error");

    let msg = parse_hid_update_message(&data);

    assert!(msg.is_some());
    match msg.unwrap() {
        HidUpdateMessage::Error(err) => {
            assert_eq!(err.info, "Error");
        }
        _ => panic!("Expected Error"),
    }
}

#[test]
fn test_parse_hid_update_message_log() {
    let mut data = b"LD".to_vec();
    data.extend(b"Debug message\0");

    let msg = parse_hid_update_message(&data);

    assert!(msg.is_some());
    match msg.unwrap() {
        HidUpdateMessage::Log(log) => {
            assert_eq!(log.level, LogLevel::Debug);
            assert_eq!(log.message, "Debug message");
        }
        _ => panic!("Expected Log"),
    }
}

#[test]
fn test_parse_hid_update_message_invalid() {
    let data = b"XX";

    let msg = parse_hid_update_message(data);

    assert!(msg.is_none());
}

#[test]
fn test_parse_hid_update_message_too_short() {
    let data = b"A";

    let msg = parse_hid_update_message(data);

    assert!(msg.is_none());
}

#[test]
fn test_chunk_ack_short_data_gives_zero_fields() {
    let ack = ChunkAck::from_bytes(b"AK\x07");
    assert!(ack.is_valid());
    assert_eq!((ack.id, ack.package, ack.type_), (0, 0, 0));
    let ack = ChunkAck::from_bytes(b"AK\x07\x01\x09");
    assert_eq!((ack.id, ack.package, ack.type_), (0x0107, 0, 0));
    let ack = ChunkAck::from_bytes(b"AK\x07\x01\x09\x02");
    assert_eq!((ack.id, ack.package, ack.type_), (0x0107, 0x0209, 0));
    let ack = ChunkAck::from_bytes(b"");
    assert!(!ack.is_valid());
    assert_eq!(ack.identifier, "");
}

#[test]
fn test_identifier_is_decoded_leniently() {
    let ack = ChunkAck::from_bytes(&[0xFF, 0x41, 1, 0, 2, 0, 3]);
    assert!(!ack.is_valid());
    assert_eq!(ack.identifier, "\u{FFFD}A");
    assert_eq!((ack.id, ack.package, ack.type_), (0, 0, 0));
    let log = LogMessage::from_bytes(b"xy text");
    assert_eq!(log.identifier, "xy");
    assert_eq!(log.message, "");
    assert_eq!(log.level, LogLevel::Debug);
}

#[test]
fn test_update_error_length_is_floored() {
    // The length byte says 2, but at least 33 bytes of text are read.
    let mut data = b"ER".to_vec();
    data.push(2);
    data.extend(b"0123456789012345678901234567890123456789");
    let error = UpdateError::from_bytes(&data);
    assert_eq!(error.info, "012345678901234567890123456789012");
    // A larger length byte is taken as it is.
    data[2] = 35;
    let error = UpdateError::from_bytes(&data);
    assert_eq!(error.info, "01234567890123456789012345678901234");
    // Without text after the length byte the error has none.
    let error = UpdateError::from_bytes(b"ER\x05");
    assert!(error.is_valid());
    assert_eq!(error.info, "");
}

#[test]
fn test_log_message_without_terminator_takes_the_rest() {
    let log = LogMessage::from_bytes(b"LEno end");
    assert_eq!(log.message, "no end");
    let log = LogMessage::from_bytes(b"LDfirst\0second\0");
    assert_eq!(log.message, "first");
    let log = LogMessage::from_bytes(&[b'L', b'D', b'a', 0xFF, b'b']);
    assert_eq!(log.message, "a\u{FFFD}b");
}
