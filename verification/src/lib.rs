//! Verified core of the Mutenix macropad bridge.
//!
//! The crate holds the wire formats and the decision logic of the two
//! connection clients: the HID device link with its command codec and its
//! chunked firmware transfer, and the meeting-service client with its
//! message codec and its state merge. Around them stand the configuration,
//! the decisions of the action execution, the device emulator and the state
//! of the dashboard.
//!
//! The library performs no input or output. Where a procedure alternates
//! between outside work and decisions, the decisions are a machine of
//! states here, and a driver performs the work. Every function is verified;
//! calls into other crates are confined to a few trusted wrappers, each of
//! which documents what is believed of the code behind it.

pub mod app_state;
pub mod chunks;
pub mod config;
pub mod constants;
pub mod device_messages;
pub mod device_update;
pub mod emulator;
pub mod executor;
pub mod hid_commands;
pub mod hid_device;
pub mod state;
pub mod teams_json;
pub mod teams_messages;
pub mod text;
pub mod types;
pub mod update_run;
pub mod websocket_client;

pub use chunks::{Chunk, ChunkType, Completed, FileChunk, FileDelete, FileEnd, FileStart};
pub use device_messages::{ChunkAck, HidUpdateMessage, LogMessage};
pub use device_update::TransferFile;
pub use emulator::DeviceEmulator;
pub use hid_commands::{
    HardwareType, HidInputMessage, HidOutCommand, HidOutputCommand, LedColor, SetLed,
    SimpleCommand, Status, UpdateConfig, VersionInfo,
};
pub use hid_device::{DeviceInfo, DeviceMessage, HardwareState, HidDevice, HidError};
pub use state::TeamsState;
pub use teams_messages::{
    ClientMessage, ClientMessageParameter, ClientMessageParameterType, MeetingAction,
    MeetingPermissions, MeetingState, MeetingUpdate, ServerMessage,
};
pub use websocket_client::{Identifier, TeamsWebSocketClient, WebSocketError};
