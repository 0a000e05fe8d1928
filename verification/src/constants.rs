//! Sizes, report identifiers and timings of the device protocol.

use vstd::prelude::*;

verus! {

/// Number of header bytes in front of a chunk's content.
pub const HEADER_SIZE: usize = 8;

/// Number of content bytes that one chunk carries.
pub const MAX_CHUNK_SIZE: usize = 60 - HEADER_SIZE;

/// Number of bytes of a chunk packet on the wire.
pub const PACKET_SIZE: usize = HEADER_SIZE + MAX_CHUNK_SIZE;

/// Number of payload bytes of an outbound command.
pub const COMMAND_SIZE: usize = 8;

/// Pause between data transfers, in milliseconds.
pub const DATA_TRANSFER_SLEEP_MILLIS: u64 = 1000;

/// Pause after a change of the device's state, in milliseconds.
pub const STATE_CHANGE_SLEEP_MILLIS: u64 = 500;

/// Pause while waiting for requests, in milliseconds.
pub const WAIT_FOR_REQUESTS_SLEEP_MILLIS: u64 = STATE_CHANGE_SLEEP_MILLIS;

/// Report identifier of the command channel.
pub const HID_REPORT_ID_COMMUNICATION: u8 = 1;

/// Report identifier of the transfer channel.
pub const HID_REPORT_ID_TRANSFER: u8 = 2;

/// Command byte that puts the device into update mode.
pub const HID_COMMAND_PREPARE_UPDATE: u8 = 0xE0;

/// Command byte that resets the device.
pub const HID_COMMAND_RESET: u8 = 0xE1;

/// Seconds between two keepalive pings.
pub const PING_LOOP_TIME_SECONDS: u64 = 4;

} // verus!
