//! The link to the device: which device it looks for, what it knows of the
//! one it has found, and what it decides while it runs.
//!
//! The link itself performs no input or output. Its driver opens, reads and
//! writes; the link decides which devices to try, which inbound messages
//! reach the subscribers, what is written next, and when to look for the
//! device again.

use crate::constants::PING_LOOP_TIME_SECONDS;
use crate::hid_commands::{
    parse_input_message, parse_input_spec, HidInCommand, HidMessageError, HidOutCommand,
    InboundMessage, OutboundCommand, SimpleCommand, Status, StatusRequest,
};
use crate::text::{
    contains_run, first_index, lowercased, str_contains, str_equals, to_lowercase,
};
use vstd::prelude::*;
use vstd::slice::slice_subrange;
use vstd::string::StringExecFns;

verus! {

/// How long the driver waits before it looks for the device again, in
/// milliseconds.
pub const SEARCH_INTERVAL_MILLIS: u64 = 1000;

/// How long one read waits for a report, in milliseconds.
pub const READ_TIMEOUT_MILLIS: i32 = 100;

/// Number of bytes that the driver reads at once.
pub const READ_CAPACITY: usize = 64;

/// How long the reader pauses while no device is open, in milliseconds.
pub const NOT_CONNECTED_SLEEP_MILLIS: u64 = 100;

/// Milliseconds between two keepalive pings.
pub const PING_INTERVAL_MILLIS: u64 = PING_LOOP_TIME_SECONDS * 1000;

/// By what a device is told from others. With a vendor and product of zero
/// the serial number alone decides.
#[derive(Debug, Clone)]
pub struct DeviceInfo {
    pub vendor_id: u16,
    pub product_id: u16,
    pub serial_number: Option<String>,
}

/// The state of the connection to the device.
#[derive(Debug, Clone, Copy, PartialEq, Eq, Structural)]
pub enum ConnectionState {
    Disconnected,
    Connected,
    Error,
}

/// What is known of the hardware.
#[derive(Debug, Clone)]
pub struct HardwareState {
    pub connection_status: ConnectionState,
    pub serial_number: Option<String>,
    pub manufacturer: Option<String>,
    pub product: Option<String>,
}

impl Default for HardwareState {
    fn default() -> (r: Self)
        ensures
            r.connection_status == ConnectionState::Disconnected,
            r.serial_number is None,
            r.manufacturer is None,
            r.product is None,
    {
        HardwareState {
            connection_status: ConnectionState::Disconnected,
            serial_number: None,
            manufacturer: None,
            product: None,
        }
    }
}

/// A message that is forwarded to the subscribers.
#[derive(Debug, Clone)]
pub enum DeviceMessage {
    Status(Status),
    StatusRequest(StatusRequest),
}

/// Why an operation on the link failed.
#[derive(Debug, Clone, PartialEq, Eq)]
pub enum HidError {
    NotConnected,
    WriteFailed(String),
    ReadFailed(String),
    Disconnected,
    HidApiError(String),
}

impl HidError {
    /// The text of the error.
    pub open spec fn text(&self) -> Seq<char> {
        match self {
            HidError::NotConnected => "Device not connected"@,
            HidError::WriteFailed(m) => "Failed to write to device: "@ + m@,
            HidError::ReadFailed(m) => "Failed to read from device: "@ + m@,
            HidError::Disconnected => "Device disconnected"@,
            HidError::HidApiError(m) => "HID API error: "@ + m@,
        }
    }

    /// The display form of the error.
    pub fn to_string(&self) -> (s: String)
        ensures
            s@ == self.text(),
    {
        match self {
            HidError::NotConnected => String::from_str("Device not connected"),
            HidError::WriteFailed(m) => String::from_str("Failed to write to device: ").concat(
                m.as_str(),
            ),
            HidError::ReadFailed(m) => String::from_str("Failed to read from device: ").concat(
                m.as_str(),
            ),
            HidError::Disconnected => String::from_str("Device disconnected"),
            HidError::HidApiError(m) => String::from_str("HID API error: ").concat(m.as_str()),
        }
    }
}

/// Whether a product name in lower case is that of a Mutenix device.
pub open spec fn names_mutenix(lower: Seq<char>) -> bool {
    contains_run(lower, "mutenix"@)
}

/// Whether a product name that was put into lower case is that of a
/// Mutenix device: it holds the word `mutenix`.
pub fn lowercase_names_mutenix(lower: &str) -> (b: bool)
    ensures
        b == names_mutenix(lower@),
{
    str_contains(lower, "mutenix")
}

/// Whether a product name is that of a Mutenix device: in lower case it
/// holds the word `mutenix`.
pub fn is_mutenix_product(product: &str) -> (b: bool)
    ensures
        b == names_mutenix(lowercased(product@)),
{
    let lower = to_lowercase(product);
    lowercase_names_mutenix(lower.as_str())
}

/// A device that the system lists.
#[derive(Debug, Clone)]
pub struct Candidate {
    pub vendor_id: u16,
    pub product_id: u16,
    pub serial_number: Option<String>,
    pub product: Option<String>,
}

/// One attempt to open a device.
#[derive(Debug, Clone, PartialEq, Eq)]
pub enum OpenAttempt {
    /// Open the listed device at this position. If `last` is set and the
    /// attempt fails, the search ends with the failure.
    Listed { index: usize, last: bool },
    /// Open the device with this vendor and product, and with this serial
    /// number if one is given.
    ByIds { vendor_id: u16, product_id: u16, serial_number: Option<String> },
}

/// What one attempt is, as plain values.
pub enum AttemptModel {
    Listed { index: int, last: bool },
    ByIds { vendor_id: u16, product_id: u16, serial_number: Option<Seq<char>> },
}

impl View for OpenAttempt {
    type V = AttemptModel;

    open spec fn view(&self) -> AttemptModel {
        match self {
            OpenAttempt::Listed { index, last } => AttemptModel::Listed {
                index: *index as int,
                last: *last,
            },
            OpenAttempt::ByIds { vendor_id, product_id, serial_number } => AttemptModel::ByIds {
                vendor_id: *vendor_id,
                product_id: *product_id,
                serial_number: match serial_number {
                    Some(s) => Some(s@),
                    None => None,
                },
            },
        }
    }
}

/// Whether a listed device is a Mutenix device by its product name.
pub open spec fn is_mutenix(candidate: Candidate) -> bool {
    candidate.product is Some && names_mutenix(lowercased(candidate.product->0@))
}

/// Whether a listed device carries the serial number.
pub open spec fn has_serial(candidate: Candidate, serial: Seq<char>) -> bool {
    candidate.serial_number is Some && candidate.serial_number->0@ == serial
}

/// The attempts for a search without configured devices: the first listed
/// Mutenix device, and no other.
pub open spec fn auto_attempts(candidates: Seq<Candidate>) -> Seq<AttemptModel> {
    let k = first_index(candidates, |c: Candidate| is_mutenix(c), 0);
    if k < candidates.len() {
        seq![AttemptModel::Listed { index: k, last: true }]
    } else {
        Seq::empty()
    }
}

/// The attempts for one configured device: by its serial number among the
/// listed devices if it has neither vendor nor product, else by its vendor
/// and product.
pub open spec fn attempts_for(info: DeviceInfo, candidates: Seq<Candidate>) -> Seq<AttemptModel> {
    if info.vendor_id == 0 && info.product_id == 0 {
        match info.serial_number {
            Some(serial) => {
                let k = first_index(candidates, |c: Candidate| has_serial(c, serial@), 0);
                if k < candidates.len() {
                    seq![AttemptModel::Listed { index: k, last: false }]
                } else {
                    Seq::empty()
                }
            },
            None => Seq::empty(),
        }
    } else {
        seq![
            AttemptModel::ByIds {
                vendor_id: info.vendor_id,
                product_id: info.product_id,
                serial_number: match info.serial_number {
                    Some(s) => Some(s@),
                    None => None,
                },
            },
        ]
    }
}

/// The attempts for the first `n` configured devices, in their order.
pub open spec fn configured_attempts(
    infos: Seq<DeviceInfo>,
    candidates: Seq<Candidate>,
    n: nat,
) -> Seq<AttemptModel>
    decreases n,
{
    if n == 0 || n > infos.len() {
        Seq::empty()
    } else {
        configured_attempts(infos, candidates, (n - 1) as nat) + attempts_for(
            infos[n - 1],
            candidates,
        )
    }
}

/// The attempts of a search: the configured devices in their order, or, if
/// none is configured, any listed Mutenix device.
pub open spec fn search_attempts(infos: Seq<DeviceInfo>, candidates: Seq<Candidate>) -> Seq<
    AttemptModel,
> {
    if infos.len() == 0 {
        auto_attempts(candidates)
    } else {
        configured_attempts(infos, candidates, infos.len())
    }
}

/// The models of a sequence of attempts, one by one.
pub open spec fn attempt_models(attempts: Seq<OpenAttempt>) -> Seq<AttemptModel> {
    attempts.map_values(|a: OpenAttempt| a@)
}

/// What the reader has got from one read.
#[derive(Debug)]
pub enum ReadResult {
    /// No device is open.
    NotConnected,
    /// The read returned with `size` bytes in the buffer.
    Data { buffer: Vec<u8>, size: usize },
    /// The read failed; the text is the transport's message.
    Failed(String),
}

/// What the reader is to do after a read.
#[derive(Debug)]
pub enum ReadAction {
    /// Hand the message to every subscriber, in the order in which they
    /// subscribed, and read on.
    Forward(DeviceMessage),
    /// Read on.
    Continue,
    /// Pause for the given number of milliseconds, then read on.
    Sleep(u64),
    /// The device is lost: look for it again.
    Reconnect(HidError),
}

/// What the writer is to do.
#[derive(Debug)]
pub enum WriteAction {
    /// Write the report for the command with this ticket.
    Write { ticket: u64, report: Vec<u8> },
    /// No command is queued.
    Idle,
    /// The link no longer runs: end.
    Stop,
}

/// The report bytes that the reader has got: the first `size` bytes of the
/// buffer, or all of it if it holds fewer.
pub open spec fn report_read(buffer: Seq<u8>, size: usize) -> Seq<u8> {
    if size <= buffer.len() {
        buffer.subrange(0, size as int)
    } else {
        buffer
    }
}

/// Whether an inbound report is forwarded to the subscribers: only a
/// status and a status request are.
pub open spec fn is_forwarded(report: Seq<u8>) -> bool {
    match parse_input_spec(report) {
        Ok((command, _)) => command == HidInCommand::Status || command
            == HidInCommand::StatusRequest,
        Err(_) => false,
    }
}

/// Whether the action forwards the message that the report holds.
pub open spec fn forwards(action: ReadAction, report: Seq<u8>) -> bool {
    match action {
        ReadAction::Forward(DeviceMessage::Status(status)) => parse_input_spec(report) == Ok::<
            (HidInCommand, Seq<u8>),
            HidMessageError,
        >((HidInCommand::Status, status@)),
        ReadAction::Forward(DeviceMessage::StatusRequest(_)) => parse_input_spec(report) is Ok
            && parse_input_spec(report)->Ok_0.0 == HidInCommand::StatusRequest,
        _ => false,
    }
}

/// What the reader does after a read. Without a device it pauses; a
/// failed read makes the link look for the device again; a report that
/// holds a status or a status request is forwarded, and any other report,
/// or none, is passed over.
pub open spec fn read_outcome(result: ReadResult, action: ReadAction) -> bool {
    match result {
        ReadResult::NotConnected => action matches ReadAction::Sleep(millis) && millis
            == NOT_CONNECTED_SLEEP_MILLIS,
        ReadResult::Failed(message) => action matches ReadAction::Reconnect(
            HidError::ReadFailed(m),
        ) && m == message,
        ReadResult::Data { buffer, size } => if size > 0 && is_forwarded(
            report_read(buffer@, size),
        ) {
            forwards(action, report_read(buffer@, size))
        } else {
            action is Continue
        },
    }
}

/// Decides what the reader does after a read.
pub fn on_read(result: ReadResult) -> (action: ReadAction)
    ensures
        read_outcome(result, action),
{
    match result {
        ReadResult::NotConnected => ReadAction::Sleep(NOT_CONNECTED_SLEEP_MILLIS),
        ReadResult::Failed(message) => ReadAction::Reconnect(HidError::ReadFailed(message)),
        ReadResult::Data { buffer, size } => {
            if size == 0 {
                return ReadAction::Continue;
            }
            let end = if size <= buffer.len() {
                size
            } else {
                buffer.len()
            };
            let report = slice_subrange(buffer.as_slice(), 0, end);
            assert(report@ =~= report_read(buffer@, size));
            match parse_input_message(report) {
                Ok(InboundMessage::Status(status)) => ReadAction::Forward(
                    DeviceMessage::Status(status),
                ),
                Ok(InboundMessage::StatusRequest(request)) => ReadAction::Forward(
                    DeviceMessage::StatusRequest(request),
                ),
                Ok(InboundMessage::VersionInfo(_)) => ReadAction::Continue,
                Err(_) => ReadAction::Continue,
            }
        },
    }
}

/// What the writer has got from one write.
#[derive(Debug)]
pub enum WriteResult {
    /// No device is open.
    NotConnected,
    /// The report was written; the number is that of the bytes written.
    Written(usize),
    /// The write failed; the text is the transport's message.
    Failed(String),
}

/// The outcome of a write as the submitter of the command gets it: the
/// number of bytes written, or the reason for which nothing was.
pub open spec fn submitter_outcome(result: WriteResult) -> Result<usize, HidError> {
    match result {
        WriteResult::NotConnected => Err(HidError::NotConnected),
        WriteResult::Written(n) => Ok(n),
        WriteResult::Failed(message) => Err(HidError::WriteFailed(message)),
    }
}

/// Decides what the submitter of a command is told of its write.
pub fn write_outcome(result: WriteResult) -> (r: Result<usize, HidError>)
    ensures
        r == submitter_outcome(result),
{
    match result {
        WriteResult::NotConnected => Err(HidError::NotConnected),
        WriteResult::Written(n) => Ok(n),
        WriteResult::Failed(message) => Err(HidError::WriteFailed(message)),
    }
}

/// What a search does after an attempt has failed: it ends with the failure
/// if the attempt was marked as the last, else it goes on.
pub open spec fn ends_search(attempt: AttemptModel) -> bool {
    attempt matches AttemptModel::Listed { last, .. } && last
}

/// Decides whether a search ends after an attempt has failed, and with what
/// error.
pub fn after_failed_attempt(attempt: &OpenAttempt, message: String) -> (r: Option<HidError>)
    ensures
        r == if ends_search(attempt@) {
            Some(HidError::HidApiError(message))
        } else {
            None
        },
{
    match attempt {
        OpenAttempt::Listed { index: _, last } => if *last {
            Some(HidError::HidApiError(message))
        } else {
            None
        },
        OpenAttempt::ByIds { .. } => None,
    }
}

/// The error of a search in which no attempt has opened a device.
pub fn search_exhausted() -> (e: HidError)
    ensures
        e == HidError::NotConnected,
{
    HidError::NotConnected
}

/// A command that waits to be written, with the ticket of its submitter.
#[derive(Debug, Clone)]
pub struct Pending {
    pub ticket: u64,
    pub command: OutboundCommand,
}

/// What the link holds, as plain values.
pub struct LinkModel {
    pub connection_status: ConnectionState,
    pub serial_number: Option<Seq<char>>,
    pub manufacturer: Option<Seq<char>>,
    pub product: Option<Seq<char>>,
    pub device_info: Seq<DeviceInfo>,
    /// The tickets of the commands that wait to be written, with the report
    /// of each.
    pub queue: Seq<(u64, Seq<u8>)>,
    pub next_ticket: u64,
    pub ping_counter: u8,
    pub running: bool,
    pub accepting: bool,
    /// The subscribers, in the order in which they subscribed.
    pub subscribers: Seq<u64>,
}

/// The text of an optional string.
pub open spec fn text_of(s: Option<String>) -> Option<Seq<char>> {
    match s {
        Some(s) => Some(s@),
        None => None,
    }
}

/// The link to the device.
pub struct HidDevice {
    state: HardwareState,
    device_info: Vec<DeviceInfo>,
    queue: Vec<Pending>,
    next_ticket: u64,
    ping_counter: u8,
    running: bool,
    accepting: bool,
    subscribers: Vec<u64>,
}

impl View for HidDevice {
    type V = LinkModel;

    closed spec fn view(&self) -> LinkModel {
        LinkModel {
            connection_status: self.state.connection_status,
            serial_number: text_of(self.state.serial_number),
            manufacturer: text_of(self.state.manufacturer),
            product: text_of(self.state.product),
            device_info: self.device_info@,
            queue: self.queue@.map_values(|p: Pending| (p.ticket, p.command.report_spec())),
            next_ticket: self.next_ticket,
            ping_counter: self.ping_counter,
            running: self.running,
            accepting: self.accepting,
            subscribers: self.subscribers@,
        }
    }
}

/// A copy of an optional string.
fn copy_text(s: &Option<String>) -> (r: Option<String>)
    ensures
        r == *s,
{
    match s {
        Some(s) => Some(s.clone()),
        None => None,
    }
}

impl HidDevice {
    /// Creates a link that looks for the given devices, in their order.
    /// The link runs and accepts commands, but no device is open.
    pub fn new(device_info: Vec<DeviceInfo>) -> (r: Self)
        ensures
            r@ == (LinkModel {
                connection_status: ConnectionState::Disconnected,
                serial_number: None,
                manufacturer: None,
                product: None,
                device_info: device_info@,
                queue: Seq::empty(),
                next_ticket: 0,
                ping_counter: 0,
                running: true,
                accepting: true,
                subscribers: Seq::empty(),
            }),
    {
        let r = HidDevice {
            state: HardwareState::default(),
            device_info,
            queue: Vec::new(),
            next_ticket: 0,
            ping_counter: 0,
            running: true,
            accepting: true,
            subscribers: Vec::new(),
        };
        assert(r@.queue =~= Seq::empty());
        r
    }

    /// Creates a link that looks for any Mutenix device.
    pub fn new_auto() -> (r: Self)
        ensures
            r@ == (LinkModel {
                connection_status: ConnectionState::Disconnected,
                serial_number: None,
                manufacturer: None,
                product: None,
                device_info: Seq::empty(),
                queue: Seq::empty(),
                next_ticket: 0,
                ping_counter: 0,
                running: true,
                accepting: true,
                subscribers: Seq::empty(),
            }),
    {
        Self::new(Vec::new())
    }

    /// Gets the current hardware state.
    pub fn state(&self) -> (r: HardwareState)
        ensures
            r.connection_status == self@.connection_status,
            text_of(r.serial_number) == self@.serial_number,
            text_of(r.manufacturer) == self@.manufacturer,
            text_of(r.product) == self@.product,
    {
        HardwareState {
            connection_status: self.state.connection_status,
            serial_number: copy_text(&self.state.serial_number),
            manufacturer: copy_text(&self.state.manufacturer),
            product: copy_text(&self.state.product),
        }
    }

    /// Registers a subscriber for the messages of the device and returns
    /// the number that stands for it. Subscribers are added, never
    /// replaced: each message goes to all of them, in the order in which
    /// they subscribed.
    pub fn register_callback(&mut self) -> (id: u64)
        ensures
            id == old(self)@.subscribers.len(),
            final(self)@ == (LinkModel {
                subscribers: old(self)@.subscribers.push(id),
                ..old(self)@
            }),
    {
        let id = self.subscribers.len() as u64;
        self.subscribers.push(id);
        id
    }

    /// The subscribers, in the order in which they subscribed.
    pub fn subscribers(&self) -> (r: &Vec<u64>)
        ensures
            r@ == self@.subscribers,
    {
        &self.subscribers
    }

    /// Checks whether the link runs.
    pub fn is_running(&self) -> (b: bool)
        ensures
            b == self@.running,
    {
        self.running
    }

    /// Number of commands that wait to be written.
    pub fn queued(&self) -> (n: usize)
        ensures
            n == self@.queue.len(),
    {
        self.queue.len()
    }

    /// Asks the link to stop. Its loops see it at their next step.
    pub fn stop(&mut self)
        ensures
            final(self)@ == (LinkModel { running: false, ..old(self)@ }),
    {
        self.running = false;
    }

    /// Shuts the queue: commands that are sent from now on are refused.
    pub fn close(&mut self)
        ensures
            final(self)@ == (LinkModel { accepting: false, ..old(self)@ }),
    {
        self.accepting = false;
    }

    /// Queues a command and returns the ticket under which its outcome is
    /// reported. Fails with `NotConnected` if the queue has been shut.
    pub fn send_command(&mut self, command: OutboundCommand) -> (r: Result<u64, HidError>)
        ensures
            !old(self)@.accepting ==> r == Err::<u64, HidError>(HidError::NotConnected)
                && final(self)@ == old(self)@,
            old(self)@.accepting ==> r == Ok::<u64, HidError>(old(self)@.next_ticket)
                && final(self)@ == (LinkModel {
                queue: old(self)@.queue.push((old(self)@.next_ticket, command.report_spec())),
                next_ticket: if old(self)@.next_ticket == u64::MAX {
                    0
                } else {
                    (old(self)@.next_ticket + 1) as u64
                },
                ..old(self)@
            }),
    {
        if !self.accepting {
            return Err(HidError::NotConnected);
        }
        let ticket = self.next_ticket;
        self.next_ticket = ticket.wrapping_add(1);
        self.queue.push(Pending { ticket, command });
        assert(self@.queue =~= old(self)@.queue.push((ticket, command.report_spec())));
        Ok(ticket)
    }

    /// The link begins to look for the device: it is disconnected.
    pub fn begin_search(&mut self)
        ensures
            final(self)@ == (LinkModel {
                connection_status: ConnectionState::Disconnected,
                ..old(self)@
            }),
    {
        self.state.connection_status = ConnectionState::Disconnected;
    }

    /// A device was opened: the link is connected, and it notes what the
    /// device says of itself.
    pub fn on_connected(
        &mut self,
        serial_number: Option<String>,
        manufacturer: Option<String>,
        product: Option<String>,
    )
        ensures
            final(self)@ == (LinkModel {
                connection_status: ConnectionState::Connected,
                serial_number: text_of(serial_number),
                manufacturer: text_of(manufacturer),
                product: text_of(product),
                ..old(self)@
            }),
    {
        self.state.serial_number = serial_number;
        self.state.manufacturer = manufacturer;
        self.state.product = product;
        self.state.connection_status = ConnectionState::Connected;
    }

    /// Decides which devices to try to open, and in which order. The
    /// driver tries them one after the other and stops at the first that
    /// opens; if none does, no device is connected.
    pub fn plan_search(&self, candidates: &Vec<Candidate>) -> (attempts: Vec<OpenAttempt>)
        ensures
            attempt_models(attempts@) == search_attempts(self@.device_info, candidates@),
    {
        let mut attempts: Vec<OpenAttempt> = Vec::new();
        if self.device_info.len() == 0 {
            let ghost p = |c: Candidate| is_mutenix(c);
            let mut k: usize = 0;
            while k < candidates.len() && !candidate_is_mutenix(&candidates[k])
                invariant
                    k <= candidates@.len(),
                    p == |c: Candidate| is_mutenix(c),
                    first_index(candidates@, p, 0) == first_index(candidates@, p, k as int),
                decreases candidates@.len() - k,
            {
                k += 1;
            }
            if k < candidates.len() {
                attempts.push(OpenAttempt::Listed { index: k, last: true });
            }
            return attempts;
        }
        let mut i: usize = 0;
        while i < self.device_info.len()
            invariant
                i <= self.device_info@.len(),
                attempt_models(attempts@) == configured_attempts(
                    self@.device_info,
                    candidates@,
                    i as nat,
                ),
            decreases self.device_info@.len() - i,
        {
            let info = &self.device_info[i];
            if info.vendor_id == 0 && info.product_id == 0 {
                match &info.serial_number {
                    Some(serial) => {
                        let ghost p = |c: Candidate| has_serial(c, serial@);
                        let mut k: usize = 0;
                        while k < candidates.len() && !candidate_has_serial(
                            &candidates[k],
                            serial.as_str(),
                        )
                            invariant
                                k <= candidates@.len(),
                                p == |c: Candidate| has_serial(c, serial@),
                                first_index(candidates@, p, 0) == first_index(
                                    candidates@,
                                    p,
                                    k as int,
                                ),
                            decreases candidates@.len() - k,
                        {
                            k += 1;
                        }
                        if k < candidates.len() {
                            attempts.push(OpenAttempt::Listed { index: k, last: false });
                        }
                    },
                    None => {},
                }
            } else {
                attempts.push(
                    OpenAttempt::ByIds {
                        vendor_id: info.vendor_id,
                        product_id: info.product_id,
                        serial_number: copy_text(&info.serial_number),
                    },
                );
            }
            i += 1;
        }
        attempts
    }

    /// Decides what the writer does next: while the link runs it writes
    /// the command that was queued first.
    pub fn next_write(&mut self) -> (action: WriteAction)
        ensures
            !old(self)@.running ==> action is Stop && final(self)@ == old(self)@,
            old(self)@.running && old(self)@.queue.len() == 0 ==> action is Idle && final(self)@
                == old(self)@,
            old(self)@.running && old(self)@.queue.len() > 0 ==> {
                &&& action matches WriteAction::Write { ticket, report }
                &&& (ticket, report@) == old(self)@.queue[0]
                &&& final(self)@ == (LinkModel {
                    queue: old(self)@.queue.drop_first(),
                    ..old(self)@
                })
            },
    {
        if !self.running {
            WriteAction::Stop
        } else if self.queue.len() == 0 {
            WriteAction::Idle
        } else {
            let pending = self.queue.remove(0);
            assert(self@.queue =~= old(self)@.queue.drop_first());
            WriteAction::Write { ticket: pending.ticket, report: pending.command.report() }
        }
    }

    /// Queues the next keepalive ping as `send_command` queues a command.
    pub fn queue_ping(&mut self) -> (r: Result<u64, HidError>)
        ensures
            final(self)@.ping_counter == if old(self)@.ping_counter == 255 {
                0
            } else {
                (old(self)@.ping_counter + 1) as u8
            },
            !old(self)@.accepting ==> r == Err::<u64, HidError>(HidError::NotConnected)
                && final(self)@.queue == old(self)@.queue,
            old(self)@.accepting ==> r == Ok::<u64, HidError>(old(self)@.next_ticket)
                && final(self)@.queue == old(self)@.queue.push(
                (
                    old(self)@.next_ticket,
                    seq![1u8, 0xF0u8, 0u8, 0u8, 0u8, 0u8, 0u8, 0u8, old(self)@.ping_counter],
                ),
            ),
    {
        let ping = self.next_ping();
        let command = OutboundCommand::Simple(ping);
        assert(command.report_spec() =~= seq![
            1u8,
            0xF0u8,
            0u8,
            0u8,
            0u8,
            0u8,
            0u8,
            0u8,
            old(self)@.ping_counter,
        ]);
        self.send_command(command)
    }

    /// The next keepalive ping: it carries the ping counter, which then
    /// moves on by one and starts again after 255.
    pub fn next_ping(&mut self) -> (ping: SimpleCommand)
        ensures
            ping.spec_command() == HidOutCommand::Ping,
            ping.spec_counter() == old(self)@.ping_counter,
            final(self)@ == (LinkModel {
                ping_counter: if old(self)@.ping_counter == 255 {
                    0
                } else {
                    (old(self)@.ping_counter + 1) as u8
                },
                ..old(self)@
            }),
    {
        let ping = SimpleCommand::ping(self.ping_counter);
        self.ping_counter = self.ping_counter.wrapping_add(1);
        ping
    }
}

/// Whether a listed device is a Mutenix device by its product name.
fn candidate_is_mutenix(candidate: &Candidate) -> (b: bool)
    ensures
        b == is_mutenix(*candidate),
{
    match &candidate.product {
        Some(product) => is_mutenix_product(product.as_str()),
        None => false,
    }
}

/// Whether a listed device carries the serial number.
fn candidate_has_serial(candidate: &Candidate, serial: &str) -> (b: bool)
    ensures
        b == has_serial(*candidate, serial@),
{
    match &candidate.serial_number {
        Some(own) => str_equals(own.as_str(), serial),
        None => false,
    }
}

/// Only a status and a status request reach the subscribers: whatever else
/// the device sends, and whatever cannot be decoded, is passed over.
pub proof fn lemma_only_status_is_forwarded(result: ReadResult, action: ReadAction)
    requires
        read_outcome(result, action),
        action is Forward,
    ensures
        result matches ReadResult::Data { buffer, size } && size > 0 && report_read(
            buffer@,
            size,
        ).len() >= 2 && (report_read(buffer@, size)[1] == 0x01 || report_read(buffer@, size)[1]
            == 0x02),
{
}

/// Commands are written in the order in which they were sent, each under
/// the ticket that its submitter holds: a command that is sent while others
/// wait is written after them.
pub proof fn lemma_writes_keep_order(queue: Seq<(u64, Seq<u8>)>, sent: (u64, Seq<u8>))
    requires
        queue.len() > 0,
    ensures
        queue.push(sent)[0] == queue[0],
        queue.push(sent).drop_first() == queue.drop_first().push(sent),
        queue.push(sent).last() == sent,
{
    assert(queue.push(sent).drop_first() =~= queue.drop_first().push(sent));
}

} // verus!
