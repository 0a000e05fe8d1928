//! What the dashboard shows: the status of the device and of the meeting
//! service, and the latest messages of each.

use crate::hid_device::{ConnectionState as DeviceConnectionState, HardwareState};
use crate::state::ConnectionState as TeamsConnectionState;
use crate::teams_messages::MeetingState;
use vstd::prelude::*;
use vstd::string::StringExecFns;

verus! {

/// Number of messages that are kept for each of the two logs.
pub const MAX_LOG_ENTRIES: usize = 100;

/// How serious a message is.
#[derive(Debug, Clone, Copy, PartialEq, Eq, Structural)]
pub enum LogLevel {
    Info,
    Warn,
    Error,
    Debug,
}

impl LogLevel {
    /// The name of the level in capitals.
    pub open spec fn name(self) -> Seq<char> {
        match self {
            LogLevel::Info => "INFO"@,
            LogLevel::Warn => "WARN"@,
            LogLevel::Error => "ERROR"@,
            LogLevel::Debug => "DEBUG"@,
        }
    }

    pub fn as_str(&self) -> (s: &'static str)
        ensures
            s@ == self.name(),
    {
        match self {
            LogLevel::Info => "INFO",
            LogLevel::Warn => "WARN",
            LogLevel::Error => "ERROR",
            LogLevel::Debug => "DEBUG",
        }
    }
}

/// A message of a log, with the time of day at which it was written.
#[derive(Debug, Clone)]
pub struct LogEntry {
    pub timestamp: String,
    pub level: LogLevel,
    pub message: String,
}

impl LogEntry {
    /// A message that was written at the given time of day.
    pub fn new(timestamp: String, level: LogLevel, message: String) -> (r: Self)
        ensures
            r == (LogEntry { timestamp, level, message }),
    {
        LogEntry { timestamp, level, message }
    }

    /// A copy of the message.
    pub fn duplicate(&self) -> (r: Self)
        ensures
            r == *self,
    {
        LogEntry {
            timestamp: self.timestamp.clone(),
            level: self.level,
            message: self.message.clone(),
        }
    }
}

/// A copy of an optional string.
fn copy_text(s: &Option<String>) -> (r: Option<String>)
    ensures
        r == *s,
{
    match s {
        Some(s) => Some(s.clone()),
        None => None,
    }
}

/// What the dashboard shows of the device.
#[derive(Debug, Clone)]
pub struct DeviceStatus {
    pub connected: bool,
    pub manufacturer: Option<String>,
    pub product: Option<String>,
    pub serial_number: Option<String>,
}

impl Default for DeviceStatus {
    fn default() -> (r: Self)
        ensures
            r == (DeviceStatus {
                connected: false,
                manufacturer: None,
                product: None,
                serial_number: None,
            }),
    {
        DeviceStatus { connected: false, manufacturer: None, product: None, serial_number: None }
    }
}

impl DeviceStatus {
    /// What is shown for the given state of the hardware: the names of the
    /// device while it is connected, and none while it is not.
    pub open spec fn shown_for(hardware: HardwareState) -> DeviceStatus {
        if hardware.connection_status == DeviceConnectionState::Connected {
            DeviceStatus {
                connected: true,
                manufacturer: hardware.manufacturer,
                product: hardware.product,
                serial_number: hardware.serial_number,
            }
        } else {
            DeviceStatus {
                connected: false,
                manufacturer: None,
                product: None,
                serial_number: None,
            }
        }
    }

    /// Decides what is shown for the given state of the hardware.
    pub fn from_hardware(hardware: &HardwareState) -> (r: Self)
        ensures
            r == Self::shown_for(*hardware),
    {
        if hardware.connection_status == DeviceConnectionState::Connected {
            DeviceStatus {
                connected: true,
                manufacturer: copy_text(&hardware.manufacturer),
                product: copy_text(&hardware.product),
                serial_number: copy_text(&hardware.serial_number),
            }
        } else {
            DeviceStatus {
                connected: false,
                manufacturer: None,
                product: None,
                serial_number: None,
            }
        }
    }

    /// A copy of the status.
    pub fn duplicate(&self) -> (r: Self)
        ensures
            r == *self,
    {
        DeviceStatus {
            connected: self.connected,
            manufacturer: copy_text(&self.manufacturer),
            product: copy_text(&self.product),
            serial_number: copy_text(&self.serial_number),
        }
    }
}

/// What the dashboard shows of the meeting service.
#[derive(Debug, Clone, Copy, PartialEq, Eq, Structural)]
pub struct TeamsStatus {
    pub connected: bool,
    pub in_meeting: bool,
    pub is_muted: bool,
    pub is_video_on: bool,
    pub is_hand_raised: bool,
    pub is_recording: bool,
}

impl Default for TeamsStatus {
    fn default() -> (r: Self)
        ensures
            r == (TeamsStatus {
                connected: false,
                in_meeting: false,
                is_muted: false,
                is_video_on: false,
                is_hand_raised: false,
                is_recording: false,
            }),
    {
        TeamsStatus {
            connected: false,
            in_meeting: false,
            is_muted: false,
            is_video_on: false,
            is_hand_raised: false,
            is_recording: false,
        }
    }
}

impl TeamsStatus {
    /// What is shown for the given state of the connection and of the
    /// meeting.
    pub open spec fn shown_for(connection: TeamsConnectionState, meeting: MeetingState) -> TeamsStatus {
        TeamsStatus {
            connected: connection == TeamsConnectionState::Connected,
            in_meeting: meeting.is_in_meeting,
            is_muted: meeting.is_muted,
            is_video_on: meeting.is_video_on,
            is_hand_raised: meeting.is_hand_raised,
            is_recording: meeting.is_recording_on,
        }
    }

    /// Decides what is shown for the given state of the connection and of
    /// the meeting.
    pub fn from_state(connection: TeamsConnectionState, meeting: &MeetingState) -> (r: Self)
        ensures
            r == Self::shown_for(connection, *meeting),
    {
        TeamsStatus {
            connected: connection == TeamsConnectionState::Connected,
            in_meeting: meeting.is_in_meeting,
            is_muted: meeting.is_muted,
            is_video_on: meeting.is_video_on,
            is_hand_raised: meeting.is_hand_raised,
            is_recording: meeting.is_recording_on,
        }
    }
}

/// A log after a message was added: the message stands last, and the
/// oldest message is dropped if the log would hold more than it may.
pub open spec fn appended(log: Seq<LogEntry>, entry: LogEntry) -> Seq<LogEntry> {
    if log.len() + 1 > MAX_LOG_ENTRIES {
        log.push(entry).drop_first()
    } else {
        log.push(entry)
    }
}

/// The position of the first message that a window of the given height
/// shows: the window shows the latest messages, and two of its lines are
/// its frame.
pub open spec fn window_start_of(total: nat, height: nat) -> nat {
    if total > height - 2 {
        (total - (height - 2)) as nat
    } else {
        0
    }
}

/// Finds the position of the first message that a window of the given
/// height shows.
pub fn window_start(total: usize, height: u16) -> (start: usize)
    requires
        height >= 2,
    ensures
        start == window_start_of(total as nat, height as nat),
        start <= total,
{
    let lines = (height - 2) as usize;
    if total > lines {
        total - lines
    } else {
        0
    }
}

/// What the dashboard holds, as plain values.
pub struct AppModel {
    pub device_status: DeviceStatus,
    pub teams_status: TeamsStatus,
    pub device_logs: Seq<LogEntry>,
    pub teams_logs: Seq<LogEntry>,
    pub version: Seq<char>,
}

/// What the dashboard holds.
#[derive(Debug, Clone)]
pub struct AppState {
    device_status: DeviceStatus,
    teams_status: TeamsStatus,
    device_logs: Vec<LogEntry>,
    teams_logs: Vec<LogEntry>,
    version: String,
}

impl View for AppState {
    type V = AppModel;

    closed spec fn view(&self) -> AppModel {
        AppModel {
            device_status: self.device_status,
            teams_status: self.teams_status,
            device_logs: self.device_logs@,
            teams_logs: self.teams_logs@,
            version: self.version@,
        }
    }
}

/// Adds a message to a log.
fn append(log: &mut Vec<LogEntry>, entry: LogEntry)
    ensures
        final(log)@ == appended(old(log)@, entry),
{
    log.push(entry);
    if log.len() > MAX_LOG_ENTRIES {
        let _ = log.remove(0);
    }
}

/// Copies a log.
fn copy_log(log: &Vec<LogEntry>) -> (r: Vec<LogEntry>)
    ensures
        r@ == log@,
{
    let mut r: Vec<LogEntry> = Vec::new();
    let mut i: usize = 0;
    while i < log.len()
        invariant
            i <= log@.len(),
            r@ == log@.subrange(0, i as int),
        decreases log@.len() - i,
    {
        r.push(log[i].duplicate());
        i += 1;
    }
    r
}

impl AppState {
    /// The dashboard of a program of the given version: nothing is
    /// connected and nothing is logged.
    pub fn new(version: String) -> (r: Self)
        ensures
            r@ == (AppModel {
                device_status: DeviceStatus {
                    connected: false,
                    manufacturer: None,
                    product: None,
                    serial_number: None,
                },
                teams_status: TeamsStatus {
                    connected: false,
                    in_meeting: false,
                    is_muted: false,
                    is_video_on: false,
                    is_hand_raised: false,
                    is_recording: false,
                },
                device_logs: Seq::empty(),
                teams_logs: Seq::empty(),
                version: version@,
            }),
    {
        AppState {
            device_status: DeviceStatus::default(),
            teams_status: TeamsStatus::default(),
            device_logs: Vec::new(),
            teams_logs: Vec::new(),
            version,
        }
    }

    pub fn get_device_status(&self) -> (r: DeviceStatus)
        ensures
            r == self@.device_status,
    {
        self.device_status.duplicate()
    }

    /// Replaces what is shown of the device.
    pub fn update_device_status(&mut self, status: DeviceStatus)
        ensures
            final(self)@ == (AppModel { device_status: status, ..old(self)@ }),
    {
        self.device_status = status;
    }

    pub fn get_teams_status(&self) -> (r: TeamsStatus)
        ensures
            r == self@.teams_status,
    {
        self.teams_status
    }

    /// Replaces what is shown of the meeting service.
    pub fn update_teams_status(&mut self, status: TeamsStatus)
        ensures
            final(self)@ == (AppModel { teams_status: status, ..old(self)@ }),
    {
        self.teams_status = status;
    }

    /// Adds a message to the log of the device.
    pub fn add_device_log(&mut self, entry: LogEntry)
        ensures
            final(self)@ == (AppModel {
                device_logs: appended(old(self)@.device_logs, entry),
                ..old(self)@
            }),
    {
        append(&mut self.device_logs, entry);
    }

    /// Adds a message to the log of the meeting service.
    pub fn add_teams_log(&mut self, entry: LogEntry)
        ensures
            final(self)@ == (AppModel {
                teams_logs: appended(old(self)@.teams_logs, entry),
                ..old(self)@
            }),
    {
        append(&mut self.teams_logs, entry);
    }

    pub fn get_device_logs(&self) -> (r: Vec<LogEntry>)
        ensures
            r@ == self@.device_logs,
    {
        copy_log(&self.device_logs)
    }

    pub fn get_teams_logs(&self) -> (r: Vec<LogEntry>)
        ensures
            r@ == self@.teams_logs,
    {
        copy_log(&self.teams_logs)
    }

    pub fn version(&self) -> (r: &str)
        ensures
            r@ == self@.version,
    {
        self.version.as_str()
    }
}

/// A log never holds more messages than it may, and the message that was
/// added last stands last.
pub proof fn lemma_log_is_bounded(log: Seq<LogEntry>, entry: LogEntry)
    requires
        log.len() <= MAX_LOG_ENTRIES,
    ensures
        appended(log, entry).len() <= MAX_LOG_ENTRIES,
        appended(log, entry).len() >= 1,
        appended(log, entry).last() == entry,
        log.len() < MAX_LOG_ENTRIES ==> appended(log, entry) == log.push(entry),
        log.len() == MAX_LOG_ENTRIES ==> appended(log, entry).len() == MAX_LOG_ENTRIES && forall|
            i: int,
        |
            0 <= i < log.len() - 1 ==> appended(log, entry)[i] == log[i + 1],
{
}

} // verus!
