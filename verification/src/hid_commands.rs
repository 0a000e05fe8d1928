//! The binary command codec: fixed-size reports exchanged with the device on
//! the command channel.
//!
//! Inbound reports carry a report identifier, a command byte and a payload.
//! Outbound commands encode to exactly eight bytes; the link puts the report
//! identifier in front of them.

use crate::text::{decimal, hexadecimal, push_decimal, push_hexadecimal};
use vstd::prelude::*;
use vstd::slice::slice_subrange;
use vstd::string::StringExecFns;

verus! {

/// Hardware variants of the macropad.
#[derive(Debug, Clone, Copy, PartialEq, Eq, Structural)]
pub enum HardwareType {
    Unknown,
    FiveButtonUsbV1,
    FiveButtonUsb,
    FiveButtonBt,
    TenButtonUsb,
    TenButtonBt,
}

impl HardwareType {
    /// The byte that stands for this variant on the wire.
    pub open spec fn spec_code(self) -> u8 {
        match self {
            HardwareType::Unknown => 0x00,
            HardwareType::FiveButtonUsbV1 => 0x02,
            HardwareType::FiveButtonUsb => 0x03,
            HardwareType::FiveButtonBt => 0x04,
            HardwareType::TenButtonUsb => 0x05,
            HardwareType::TenButtonBt => 0x06,
        }
    }

    /// The variant that a wire byte stands for; bytes outside the table are
    /// `Unknown`.
    pub open spec fn of_code(val: u8) -> HardwareType {
        if val == 0x02 {
            HardwareType::FiveButtonUsbV1
        } else if val == 0x03 {
            HardwareType::FiveButtonUsb
        } else if val == 0x04 {
            HardwareType::FiveButtonBt
        } else if val == 0x05 {
            HardwareType::TenButtonUsb
        } else if val == 0x06 {
            HardwareType::TenButtonBt
        } else {
            HardwareType::Unknown
        }
    }

    /// The readable name of the variant.
    pub open spec fn name(self) -> Seq<char> {
        match self {
            HardwareType::Unknown => "Unknown"@,
            HardwareType::FiveButtonUsbV1 => "Five Button USB V1"@,
            HardwareType::FiveButtonUsb => "Five Button USB"@,
            HardwareType::FiveButtonBt => "Five Button BT"@,
            HardwareType::TenButtonUsb => "Ten Button USB"@,
            HardwareType::TenButtonBt => "Ten Button BT"@,
        }
    }

    /// Number of buttons on a device of this variant.
    pub open spec fn spec_button_count(self) -> u8 {
        match self {
            HardwareType::TenButtonUsb | HardwareType::TenButtonBt => 10,
            _ => 5,
        }
    }

    #[verifier::when_used_as_spec(spec_code)]
    pub fn code(self) -> (c: u8)
        ensures
            c == self.spec_code(),
    {
        match self {
            HardwareType::Unknown => 0x00,
            HardwareType::FiveButtonUsbV1 => 0x02,
            HardwareType::FiveButtonUsb => 0x03,
            HardwareType::FiveButtonBt => 0x04,
            HardwareType::TenButtonUsb => 0x05,
            HardwareType::TenButtonBt => 0x06,
        }
    }

    #[verifier::when_used_as_spec(spec_button_count)]
    pub fn button_count(self) -> (n: u8)
        ensures
            n == self.spec_button_count(),
    {
        match self {
            HardwareType::TenButtonUsb | HardwareType::TenButtonBt => 10,
            _ => 5,
        }
    }

    fn name_str(self) -> (s: &'static str)
        ensures
            s@ == self.name(),
    {
        match self {
            HardwareType::Unknown => "Unknown",
            HardwareType::FiveButtonUsbV1 => "Five Button USB V1",
            HardwareType::FiveButtonUsb => "Five Button USB",
            HardwareType::FiveButtonBt => "Five Button BT",
            HardwareType::TenButtonUsb => "Ten Button USB",
            HardwareType::TenButtonBt => "Ten Button BT",
        }
    }

    /// The display form: the readable name.
    pub fn to_string(&self) -> (s: String)
        ensures
            s@ == self.name(),
    {
        String::from_str(self.name_str())
    }
}

impl From<u8> for HardwareType {
    fn from(val: u8) -> (r: Self) {
        match val {
            0x02 => HardwareType::FiveButtonUsbV1,
            0x03 => HardwareType::FiveButtonUsb,
            0x04 => HardwareType::FiveButtonBt,
            0x05 => HardwareType::TenButtonUsb,
            0x06 => HardwareType::TenButtonBt,
            _ => HardwareType::Unknown,
        }
    }
}

impl vstd::std_specs::convert::FromSpecImpl<u8> for HardwareType {
    open spec fn obeys_from_spec() -> bool {
        true
    }

    open spec fn from_spec(val: u8) -> Self {
        HardwareType::of_code(val)
    }
}

/// Every variant is found again from its wire byte.
pub proof fn lemma_hardware_type_code_roundtrip(t: HardwareType)
    ensures
        HardwareType::of_code(t.spec_code()) == t,
{
}

/// Command bytes of inbound reports.
#[derive(Debug, Clone, Copy, PartialEq, Eq, Structural)]
pub enum HidInCommand {
    VersionInfo,
    Status,
    StatusRequest,
}

impl HidInCommand {
    pub open spec fn spec_code(self) -> u8 {
        match self {
            HidInCommand::VersionInfo => 0x99,
            HidInCommand::Status => 0x01,
            HidInCommand::StatusRequest => 0x02,
        }
    }

    /// The command that a byte names, if it names one.
    pub open spec fn spec_of_code(val: u8) -> Option<HidInCommand> {
        if val == 0x99 {
            Some(HidInCommand::VersionInfo)
        } else if val == 0x01 {
            Some(HidInCommand::Status)
        } else if val == 0x02 {
            Some(HidInCommand::StatusRequest)
        } else {
            None
        }
    }

    #[verifier::when_used_as_spec(spec_code)]
    pub fn code(self) -> (c: u8)
        ensures
            c == self.spec_code(),
    {
        match self {
            HidInCommand::VersionInfo => 0x99,
            HidInCommand::Status => 0x01,
            HidInCommand::StatusRequest => 0x02,
        }
    }

    #[verifier::when_used_as_spec(spec_of_code)]
    pub fn of_code(val: u8) -> (r: Option<HidInCommand>)
        ensures
            r == Self::spec_of_code(val),
    {
        if val == 0x99 {
            Some(HidInCommand::VersionInfo)
        } else if val == 0x01 {
            Some(HidInCommand::Status)
        } else if val == 0x02 {
            Some(HidInCommand::StatusRequest)
        } else {
            None
        }
    }
}

/// Command bytes of outbound commands.
#[derive(Debug, Clone, Copy, PartialEq, Eq, Structural)]
pub enum HidOutCommand {
    SetLed,
    Ping,
    PrepareUpdate,
    Reset,
    UpdateConfig,
}

impl HidOutCommand {
    pub open spec fn spec_code(self) -> u8 {
        match self {
            HidOutCommand::SetLed => 0x01,
            HidOutCommand::Ping => 0xF0,
            HidOutCommand::PrepareUpdate => 0xE0,
            HidOutCommand::Reset => 0xE1,
            HidOutCommand::UpdateConfig => 0xE2,
        }
    }

    /// The name of the command.
    pub open spec fn name(self) -> Seq<char> {
        match self {
            HidOutCommand::SetLed => "SetLed"@,
            HidOutCommand::Ping => "Ping"@,
            HidOutCommand::PrepareUpdate => "PrepareUpdate"@,
            HidOutCommand::Reset => "Reset"@,
            HidOutCommand::UpdateConfig => "UpdateConfig"@,
        }
    }

    #[verifier::when_used_as_spec(spec_code)]
    pub fn code(self) -> (c: u8)
        ensures
            c == self.spec_code(),
    {
        match self {
            HidOutCommand::SetLed => 0x01,
            HidOutCommand::Ping => 0xF0,
            HidOutCommand::PrepareUpdate => 0xE0,
            HidOutCommand::Reset => 0xE1,
            HidOutCommand::UpdateConfig => 0xE2,
        }
    }

    fn name_str(self) -> (s: &'static str)
        ensures
            s@ == self.name(),
    {
        match self {
            HidOutCommand::SetLed => "SetLed",
            HidOutCommand::Ping => "Ping",
            HidOutCommand::PrepareUpdate => "PrepareUpdate",
            HidOutCommand::Reset => "Reset",
            HidOutCommand::UpdateConfig => "UpdateConfig",
        }
    }
}

/// Why an inbound report could not be decoded.
#[derive(Debug, Clone, Copy, PartialEq, Eq, Structural)]
pub enum HidMessageError {
    /// The buffer holds fewer bytes than the message's fixed size.
    InvalidLength { expected: usize, actual: usize },
    /// The command byte names no known message.
    UnknownCommand(u8),
    InvalidData,
}

impl HidMessageError {
    /// The text of the error.
    pub open spec fn message(self) -> Seq<char> {
        match self {
            HidMessageError::InvalidLength { expected, actual } => {
                "Invalid buffer length: expected at least "@ + decimal(expected as nat) + ", got "@
                    + decimal(actual as nat)
            },
            HidMessageError::UnknownCommand(cmd) => {
                "Unknown command: 0x"@ + hexadecimal(cmd as nat)
            },
            HidMessageError::InvalidData => "Invalid data"@,
        }
    }

    /// The display form of the error.
    pub fn to_string(&self) -> (s: String)
        ensures
            s@ == self.message(),
    {
        match *self {
            HidMessageError::InvalidLength { expected, actual } => {
                let mut s = String::from_str("Invalid buffer length: expected at least ");
                push_decimal(&mut s, expected as u64);
                s.append(", got ");
                push_decimal(&mut s, actual as u64);
                s
            },
            HidMessageError::UnknownCommand(cmd) => {
                let mut s = String::from_str("Unknown command: 0x");
                push_hexadecimal(&mut s, cmd as u64);
                s
            },
            HidMessageError::InvalidData => String::from_str("Invalid data"),
        }
    }
}

/// A message that is decoded from the payload of an inbound report.
pub trait HidInputMessage: Sized {
    /// Number of payload bytes that the message reads.
    spec fn fixed_size() -> nat;

    /// The payload bytes that the message holds.
    spec fn payload(&self) -> Seq<u8>;

    /// Decodes the message from the bytes that follow the command byte.
    /// Fails with `InvalidLength` exactly when the buffer is shorter than
    /// the fixed size; otherwise the message holds the buffer's first bytes.
    fn from_buffer(buffer: &[u8]) -> (r: Result<Self, HidMessageError>)
        ensures
            buffer@.len() < Self::fixed_size() ==> r == Err::<Self, HidMessageError>(
                HidMessageError::InvalidLength {
                    expected: Self::fixed_size() as usize,
                    actual: buffer@.len() as usize,
                },
            ),
            buffer@.len() >= Self::fixed_size() ==> r is Ok && r->Ok_0.payload()
                == buffer@.subrange(0, Self::fixed_size() as int),
    ;
}

/// The text of a flag as the display forms print it.
pub open spec fn bool_text(b: bool) -> Seq<char> {
    if b {
        "true"@
    } else {
        "false"@
    }
}

fn bool_str(b: bool) -> (s: &'static str)
    ensures
        s@ == bool_text(b),
{
    if b {
        "true"
    } else {
        "false"
    }
}

/// Copies the first six bytes of a buffer.
fn first_six(buffer: &[u8]) -> (out: [u8; 6])
    requires
        buffer@.len() >= 6,
    ensures
        out@ == buffer@.subrange(0, 6),
{
    let out = [buffer[0], buffer[1], buffer[2], buffer[3], buffer[4], buffer[5]];
    out
}

/// The state of one button, as the device reports it.
#[derive(Debug, Clone)]
pub struct Status {
    buffer: [u8; 6],
}

impl View for Status {
    type V = Seq<u8>;

    /// The six payload bytes: button, triggered, long press, pressed,
    /// released, reserved.
    closed spec fn view(&self) -> Seq<u8> {
        self.buffer@
    }
}

impl Status {
    /// Every status holds six bytes.
    pub proof fn lemma_len(&self)
        ensures
            self@.len() == 6,
    {
    }

    /// The text of the status.
    pub open spec fn text(&self) -> Seq<char> {
        "Status { button: "@ + decimal(self@[0] as nat) + ", triggered: "@ + bool_text(
            self@[1] != 0,
        ) + ", longpress: "@ + bool_text(self@[2] != 0) + ", pressed: "@ + bool_text(self@[3] != 0)
            + ", released: "@ + bool_text(self@[4] != 0) + " }"@
    }

    /// The status of a button that was triggered and released.
    pub fn trigger_button(button: u8) -> (r: Self)
        ensures
            r@ == seq![button, 1u8, 0u8, 0u8, 1u8, 0u8],
    {
        let r = Self { buffer: [button, 1, 0, 0, 1, 0] };
        r
    }

    pub fn button(&self) -> (b: u8)
        ensures
            b == self@[0],
    {
        self.buffer[0]
    }

    pub fn triggered(&self) -> (b: bool)
        ensures
            b == (self@[1] != 0),
    {
        self.buffer[1] != 0
    }

    pub fn longpressed(&self) -> (b: bool)
        ensures
            b == (self@[2] != 0),
    {
        self.buffer[2] != 0
    }

    pub fn pressed(&self) -> (b: bool)
        ensures
            b == (self@[3] != 0),
    {
        self.buffer[3] != 0
    }

    pub fn released(&self) -> (b: bool)
        ensures
            b == (self@[4] != 0),
    {
        self.buffer[4] != 0
    }

    /// The display form of the status.
    pub fn to_string(&self) -> (s: String)
        ensures
            s@ == self.text(),
    {
        let mut s = String::from_str("Status { button: ");
        push_decimal(&mut s, self.button() as u64);
        s.append(", triggered: ");
        s.append(bool_str(self.triggered()));
        s.append(", longpress: ");
        s.append(bool_str(self.longpressed()));
        s.append(", pressed: ");
        s.append(bool_str(self.pressed()));
        s.append(", released: ");
        s.append(bool_str(self.released()));
        s.append(" }");
        s
    }
}

impl HidInputMessage for Status {
    open spec fn fixed_size() -> nat {
        6
    }

    open spec fn payload(&self) -> Seq<u8> {
        self@
    }

    fn from_buffer(buffer: &[u8]) -> (r: Result<Self, HidMessageError>) {
        if buffer.len() < 6 {
            return Err(HidMessageError::InvalidLength { expected: 6, actual: buffer.len() });
        }
        Ok(Self { buffer: first_six(buffer) })
    }
}

/// The firmware version and hardware variant that the device reports.
#[derive(Debug, Clone)]
pub struct VersionInfo {
    buffer: [u8; 6],
}

impl View for VersionInfo {
    type V = Seq<u8>;

    /// The six payload bytes: major, minor, patch, hardware type and two
    /// reserved bytes.
    closed spec fn view(&self) -> Seq<u8> {
        self.buffer@
    }
}

impl VersionInfo {
    /// Every version report holds six bytes.
    pub proof fn lemma_len(&self)
        ensures
            self@.len() == 6,
    {
    }

    /// The dotted version text.
    pub open spec fn version_text(&self) -> Seq<char> {
        decimal(self@[0] as nat) + "."@ + decimal(self@[1] as nat) + "."@ + decimal(
            self@[2] as nat,
        )
    }

    /// The text of the version report.
    pub open spec fn text(&self) -> Seq<char> {
        "Version Info: "@ + self.version_text() + ", type "@ + HardwareType::of_code(
            self@[3],
        ).name()
    }

    /// The version as `major.minor.patch`.
    pub fn version(&self) -> (s: String)
        ensures
            s@ == self.version_text(),
    {
        let mut s = String::new();
        push_decimal(&mut s, self.buffer[0] as u64);
        s.append(".");
        push_decimal(&mut s, self.buffer[1] as u64);
        s.append(".");
        push_decimal(&mut s, self.buffer[2] as u64);
        s
    }

    pub fn hardware_type(&self) -> (t: HardwareType)
        ensures
            t == HardwareType::of_code(self@[3]),
    {
        HardwareType::from(self.buffer[3])
    }

    /// The display form of the version report.
    pub fn to_string(&self) -> (s: String)
        ensures
            s@ == self.text(),
    {
        let mut s = String::from_str("Version Info: ");
        let version = self.version();
        s.append(version.as_str());
        s.append(", type ");
        let hardware = self.hardware_type().to_string();
        s.append(hardware.as_str());
        s
    }
}

impl HidInputMessage for VersionInfo {
    open spec fn fixed_size() -> nat {
        6
    }

    open spec fn payload(&self) -> Seq<u8> {
        self@
    }

    fn from_buffer(buffer: &[u8]) -> (r: Result<Self, HidMessageError>) {
        if buffer.len() < 6 {
            return Err(HidMessageError::InvalidLength { expected: 6, actual: buffer.len() });
        }
        Ok(Self { buffer: first_six(buffer) })
    }
}

/// The device asks for the current status.
#[derive(Debug, Clone, Copy, PartialEq, Eq, Structural)]
pub struct StatusRequest;

impl StatusRequest {
    /// The display form of the request.
    pub fn to_string(&self) -> (s: String)
        ensures
            s@ == "Status Request"@,
    {
        String::from_str("Status Request")
    }
}

impl HidInputMessage for StatusRequest {
    open spec fn fixed_size() -> nat {
        0
    }

    open spec fn payload(&self) -> Seq<u8> {
        Seq::empty()
    }

    fn from_buffer(buffer: &[u8]) -> (r: Result<Self, HidMessageError>) {
        Ok(StatusRequest)
    }
}

/// An inbound report of the command channel, decoded.
#[derive(Debug, Clone)]
pub enum InboundMessage {
    VersionInfo(VersionInfo),
    Status(Status),
    StatusRequest(StatusRequest),
}

impl InboundMessage {
    /// The command byte that announces this message.
    pub open spec fn command(&self) -> HidInCommand {
        match self {
            InboundMessage::VersionInfo(_) => HidInCommand::VersionInfo,
            InboundMessage::Status(_) => HidInCommand::Status,
            InboundMessage::StatusRequest(_) => HidInCommand::StatusRequest,
        }
    }

    /// The payload bytes that the message holds.
    pub open spec fn payload(&self) -> Seq<u8> {
        match self {
            InboundMessage::VersionInfo(v) => v@,
            InboundMessage::Status(s) => s@,
            InboundMessage::StatusRequest(_) => Seq::empty(),
        }
    }

    /// The status, if this is one.
    pub fn status(&self) -> (r: Option<&Status>)
        ensures
            match *self {
                InboundMessage::Status(s) => r == Some(&s),
                _ => r is None,
            },
    {
        match self {
            InboundMessage::Status(s) => Some(s),
            _ => None,
        }
    }

    /// The version report, if this is one.
    pub fn version_info(&self) -> (r: Option<&VersionInfo>)
        ensures
            match *self {
                InboundMessage::VersionInfo(v) => r == Some(&v),
                _ => r is None,
            },
    {
        match self {
            InboundMessage::VersionInfo(v) => Some(v),
            _ => None,
        }
    }

    /// The status request, if this is one.
    pub fn status_request(&self) -> (r: Option<&StatusRequest>)
        ensures
            match *self {
                InboundMessage::StatusRequest(q) => r == Some(&q),
                _ => r is None,
            },
    {
        match self {
            InboundMessage::StatusRequest(q) => Some(q),
            _ => None,
        }
    }
}

/// Number of payload bytes that follow a command byte.
pub open spec fn payload_size(command: HidInCommand) -> nat {
    match command {
        HidInCommand::VersionInfo => 6,
        HidInCommand::Status => 6,
        HidInCommand::StatusRequest => 0,
    }
}

/// What an inbound report decodes to: the command and its payload bytes, or
/// the reason for which it is refused.
pub open spec fn parse_input_spec(buffer: Seq<u8>) -> Result<(HidInCommand, Seq<u8>), HidMessageError> {
    if buffer.len() < 2 {
        Err(HidMessageError::InvalidLength { expected: 2, actual: buffer.len() as usize })
    } else {
        match HidInCommand::spec_of_code(buffer[1]) {
            None => Err(HidMessageError::UnknownCommand(buffer[1])),
            Some(command) => if buffer.len() - 2 < payload_size(command) {
                Err(
                    HidMessageError::InvalidLength {
                        expected: payload_size(command) as usize,
                        actual: (buffer.len() - 2) as usize,
                    },
                )
            } else {
                Ok((command, buffer.subrange(2, (2 + payload_size(command)) as int)))
            },
        }
    }
}

/// Decodes an inbound report: a report identifier, which is ignored, a
/// command byte and the payload.
pub fn parse_input_message(buffer: &[u8]) -> (r: Result<InboundMessage, HidMessageError>)
    ensures
        match parse_input_spec(buffer@) {
            Ok((command, payload)) => r is Ok && r->Ok_0.command() == command
                && r->Ok_0.payload() == payload,
            Err(e) => r == Err::<InboundMessage, HidMessageError>(e),
        },
{
    if buffer.len() < 2 {
        return Err(HidMessageError::InvalidLength { expected: 2, actual: buffer.len() });
    }
    let rest = slice_subrange(buffer, 2, buffer.len());
    match HidInCommand::of_code(buffer[1]) {
        None => Err(HidMessageError::UnknownCommand(buffer[1])),
        Some(HidInCommand::VersionInfo) => match VersionInfo::from_buffer(rest) {
            Ok(v) => {
                Ok(InboundMessage::VersionInfo(v))
            },
            Err(e) => Err(e),
        },
        Some(HidInCommand::Status) => match Status::from_buffer(rest) {
            Ok(s) => {
                Ok(InboundMessage::Status(s))
            },
            Err(e) => Err(e),
        },
        Some(HidInCommand::StatusRequest) => match StatusRequest::from_buffer(rest) {
            Ok(q) => {
                Ok(InboundMessage::StatusRequest(q))
            },
            Err(e) => Err(e),
        },
    }
}

/// The colours that an LED can show.
#[derive(Debug, Clone, Copy, PartialEq, Eq, Structural)]
pub enum LedColor {
    Red,
    Green,
    Blue,
    White,
    Black,
    Yellow,
    Cyan,
    Magenta,
    Orange,
    Purple,
}

impl LedColor {
    /// The red, green, blue and white intensities of the colour.
    pub open spec fn rgbw(self) -> Seq<u8> {
        match self {
            LedColor::Red => seq![0x0Au8, 0x00u8, 0x00u8, 0x00u8],
            LedColor::Green => seq![0x00u8, 0x0Au8, 0x00u8, 0x00u8],
            LedColor::Blue => seq![0x00u8, 0x00u8, 0x0Au8, 0x00u8],
            LedColor::White => seq![0x00u8, 0x00u8, 0x00u8, 0x0Au8],
            LedColor::Black => seq![0x00u8, 0x00u8, 0x00u8, 0x00u8],
            LedColor::Yellow => seq![0x0Au8, 0x0Au8, 0x00u8, 0x00u8],
            LedColor::Cyan => seq![0x00u8, 0x0Au8, 0x0Au8, 0x00u8],
            LedColor::Magenta => seq![0x0Au8, 0x00u8, 0x0Au8, 0x00u8],
            LedColor::Orange => seq![0x0Au8, 0x08u8, 0x00u8, 0x00u8],
            LedColor::Purple => seq![0x09u8, 0x00u8, 0x09u8, 0x00u8],
        }
    }

    /// The name of the colour.
    pub open spec fn name(self) -> Seq<char> {
        match self {
            LedColor::Red => "Red"@,
            LedColor::Green => "Green"@,
            LedColor::Blue => "Blue"@,
            LedColor::White => "White"@,
            LedColor::Black => "Black"@,
            LedColor::Yellow => "Yellow"@,
            LedColor::Cyan => "Cyan"@,
            LedColor::Magenta => "Magenta"@,
            LedColor::Orange => "Orange"@,
            LedColor::Purple => "Purple"@,
        }
    }

    /// Returns the RGBW values of the colour.
    pub fn to_rgbw(&self) -> (out: [u8; 4])
        ensures
            out@ == self.rgbw(),
    {
        let out: [u8; 4] = match self {
            LedColor::Red => [0x0A, 0x00, 0x00, 0x00],
            LedColor::Green => [0x00, 0x0A, 0x00, 0x00],
            LedColor::Blue => [0x00, 0x00, 0x0A, 0x00],
            LedColor::White => [0x00, 0x00, 0x00, 0x0A],
            LedColor::Black => [0x00, 0x00, 0x00, 0x00],
            LedColor::Yellow => [0x0A, 0x0A, 0x00, 0x00],
            LedColor::Cyan => [0x00, 0x0A, 0x0A, 0x00],
            LedColor::Magenta => [0x0A, 0x00, 0x0A, 0x00],
            LedColor::Orange => [0x0A, 0x08, 0x00, 0x00],
            LedColor::Purple => [0x09, 0x00, 0x09, 0x00],
        };
        out
    }

    fn name_str(self) -> (s: &'static str)
        ensures
            s@ == self.name(),
    {
        match self {
            LedColor::Red => "Red",
            LedColor::Green => "Green",
            LedColor::Blue => "Blue",
            LedColor::White => "White",
            LedColor::Black => "Black",
            LedColor::Yellow => "Yellow",
            LedColor::Cyan => "Cyan",
            LedColor::Magenta => "Magenta",
            LedColor::Orange => "Orange",
            LedColor::Purple => "Purple",
        }
    }
}

/// A command that is sent to the device.
pub trait HidOutputCommand {
    /// The eight payload bytes of the command.
    spec fn encoding(&self) -> Seq<u8>;

    /// Encodes the command: always eight bytes, unused ones zero.
    fn to_buffer(&self) -> (out: Vec<u8>)
        ensures
            out@ == self.encoding(),
            out@.len() == 8,
    ;

    /// The report identifier under which the command travels.
    fn report_id(&self) -> (id: u8)
        ensures
            id == 1,
    ;
}

/// Sets the colour of one LED.
#[derive(Debug, Clone)]
pub struct SetLed {
    id: u8,
    color: LedColor,
    counter: u8,
}

impl SetLed {
    pub closed spec fn spec_id(&self) -> u8 {
        self.id
    }

    pub closed spec fn spec_color(&self) -> LedColor {
        self.color
    }

    pub closed spec fn spec_counter(&self) -> u8 {
        self.counter
    }

    /// The text of the command.
    pub open spec fn text(&self) -> Seq<char> {
        "SetLed { id: "@ + decimal(self.spec_id() as nat) + ", color: "@ + self.spec_color().name()
            + " }"@
    }

    pub fn new(id: u8, color: LedColor) -> (r: Self)
        ensures
            r.spec_id() == id,
            r.spec_color() == color,
            r.spec_counter() == 0,
    {
        Self { id, color, counter: 0 }
    }

    pub fn with_counter(self, counter: u8) -> (r: Self)
        ensures
            r.spec_id() == self.spec_id(),
            r.spec_color() == self.spec_color(),
            r.spec_counter() == counter,
    {
        Self { id: self.id, color: self.color, counter }
    }

    /// The display form of the command.
    pub fn to_string(&self) -> (s: String)
        ensures
            s@ == self.text(),
    {
        let mut s = String::from_str("SetLed { id: ");
        push_decimal(&mut s, self.id as u64);
        s.append(", color: ");
        s.append(self.color.name_str());
        s.append(" }");
        s
    }
}

impl HidOutputCommand for SetLed {
    open spec fn encoding(&self) -> Seq<u8> {
        seq![HidOutCommand::SetLed.spec_code(), self.spec_id()] + self.spec_color().rgbw()
            + seq![0u8, self.spec_counter()]
    }

    fn to_buffer(&self) -> (out: Vec<u8>) {
        let color = self.color.to_rgbw();
        let out = vec![
            HidOutCommand::SetLed.code(),
            self.id,
            color[0],
            color[1],
            color[2],
            color[3],
            0,
            self.counter,
        ];
        out
    }

    fn report_id(&self) -> (id: u8) {
        1
    }
}

/// Switches the device's serial console and file system on or off.
#[derive(Debug, Clone)]
pub struct UpdateConfig {
    activate_debug: u8,
    activate_filesystem: u8,
    counter: u8,
}

/// The byte of a switch that was set: 2 for on, 1 for off. A switch that
/// was never set is 0.
pub open spec fn flag_byte(activate: bool) -> u8 {
    if activate {
        2
    } else {
        1
    }
}

impl UpdateConfig {
    pub closed spec fn spec_debug(&self) -> u8 {
        self.activate_debug
    }

    pub closed spec fn spec_filesystem(&self) -> u8 {
        self.activate_filesystem
    }

    pub closed spec fn spec_counter(&self) -> u8 {
        self.counter
    }

    /// The text of the command.
    pub open spec fn text(&self) -> Seq<char> {
        "UpdateConfig { debug: "@ + decimal(self.spec_debug() as nat) + ", filesystem: "@ + decimal(
            self.spec_filesystem() as nat,
        ) + " }"@
    }

    pub fn new() -> (r: Self)
        ensures
            r.spec_debug() == 0,
            r.spec_filesystem() == 0,
            r.spec_counter() == 0,
    {
        Self { activate_debug: 0, activate_filesystem: 0, counter: 0 }
    }

    pub fn activate_serial_console(self, activate: bool) -> (r: Self)
        ensures
            r.spec_debug() == flag_byte(activate),
            r.spec_filesystem() == self.spec_filesystem(),
            r.spec_counter() == self.spec_counter(),
    {
        Self {
            activate_debug: if activate {
                2
            } else {
                1
            },
            activate_filesystem: self.activate_filesystem,
            counter: self.counter,
        }
    }

    pub fn activate_filesystem(self, activate: bool) -> (r: Self)
        ensures
            r.spec_debug() == self.spec_debug(),
            r.spec_filesystem() == flag_byte(activate),
            r.spec_counter() == self.spec_counter(),
    {
        Self {
            activate_debug: self.activate_debug,
            activate_filesystem: if activate {
                2
            } else {
                1
            },
            counter: self.counter,
        }
    }

    pub fn with_counter(self, counter: u8) -> (r: Self)
        ensures
            r.spec_debug() == self.spec_debug(),
            r.spec_filesystem() == self.spec_filesystem(),
            r.spec_counter() == counter,
    {
        Self {
            activate_debug: self.activate_debug,
            activate_filesystem: self.activate_filesystem,
            counter,
        }
    }

    /// The display form of the command.
    pub fn to_string(&self) -> (s: String)
        ensures
            s@ == self.text(),
    {
        let mut s = String::from_str("UpdateConfig { debug: ");
        push_decimal(&mut s, self.activate_debug as u64);
        s.append(", filesystem: ");
        push_decimal(&mut s, self.activate_filesystem as u64);
        s.append(" }");
        s
    }
}

impl Default for UpdateConfig {
    fn default() -> (r: Self)
        ensures
            r.spec_debug() == 0,
            r.spec_filesystem() == 0,
            r.spec_counter() == 0,
    {
        Self::new()
    }
}

impl HidOutputCommand for UpdateConfig {
    open spec fn encoding(&self) -> Seq<u8> {
        seq![
            HidOutCommand::UpdateConfig.spec_code(),
            self.spec_debug(),
            self.spec_filesystem(),
            0u8,
            0u8,
            0u8,
            0u8,
            self.spec_counter(),
        ]
    }

    fn to_buffer(&self) -> (out: Vec<u8>) {
        let out = vec![
            HidOutCommand::UpdateConfig.code(),
            self.activate_debug,
            self.activate_filesystem,
            0,
            0,
            0,
            0,
            self.counter,
        ];
        out
    }

    fn report_id(&self) -> (id: u8) {
        1
    }
}

/// A command without arguments: ping, prepare update, reset.
#[derive(Debug, Clone)]
pub struct SimpleCommand {
    command: HidOutCommand,
    counter: u8,
}

impl SimpleCommand {
    pub closed spec fn spec_command(&self) -> HidOutCommand {
        self.command
    }

    pub closed spec fn spec_counter(&self) -> u8 {
        self.counter
    }

    pub fn new(command: HidOutCommand) -> (r: Self)
        ensures
            r.spec_command() == command,
            r.spec_counter() == 0,
    {
        Self { command, counter: 0 }
    }

    pub fn with_counter(self, counter: u8) -> (r: Self)
        ensures
            r.spec_command() == self.spec_command(),
            r.spec_counter() == counter,
    {
        Self { command: self.command, counter }
    }

    pub fn ping(ping_counter: u8) -> (r: Self)
        ensures
            r.spec_command() == HidOutCommand::Ping,
            r.spec_counter() == ping_counter,
    {
        Self::new(HidOutCommand::Ping).with_counter(ping_counter)
    }

    pub fn prepare_update() -> (r: Self)
        ensures
            r.spec_command() == HidOutCommand::PrepareUpdate,
            r.spec_counter() == 0,
    {
        Self::new(HidOutCommand::PrepareUpdate)
    }

    pub fn reset() -> (r: Self)
        ensures
            r.spec_command() == HidOutCommand::Reset,
            r.spec_counter() == 0,
    {
        Self::new(HidOutCommand::Reset)
    }

    /// The display form of the command: the command's name.
    pub fn to_string(&self) -> (s: String)
        ensures
            s@ == self.spec_command().name(),
    {
        String::from_str(self.command.name_str())
    }
}

impl HidOutputCommand for SimpleCommand {
    open spec fn encoding(&self) -> Seq<u8> {
        seq![self.spec_command().spec_code(), 0u8, 0u8, 0u8, 0u8, 0u8, 0u8, self.spec_counter()]
    }

    fn to_buffer(&self) -> (out: Vec<u8>) {
        let out = vec![self.command.code(), 0, 0, 0, 0, 0, 0, self.counter];
        out
    }

    fn report_id(&self) -> (id: u8) {
        1
    }
}

/// The outbound commands as one closed set.
#[derive(Debug, Clone)]
pub enum OutboundCommand {
    SetLed(SetLed),
    UpdateConfig(UpdateConfig),
    Simple(SimpleCommand),
}

impl OutboundCommand {
    /// The report that carries the command: the report identifier, then the
    /// eight payload bytes.
    pub open spec fn report_spec(&self) -> Seq<u8> {
        seq![1u8] + self.encoding()
    }

    /// Builds the report that the link writes for this command.
    pub fn report(&self) -> (out: Vec<u8>)
        ensures
            out@ == self.report_spec(),
            out@.len() == 9,
    {
        let mut out: Vec<u8> = Vec::new();
        out.push(self.report_id());
        let mut payload = self.to_buffer();
        out.append(&mut payload);
        out
    }

    /// The display form of the command.
    pub fn to_string(&self) -> (s: String)
        ensures
            s@ == match *self {
                OutboundCommand::SetLed(c) => c.text(),
                OutboundCommand::UpdateConfig(c) => c.text(),
                OutboundCommand::Simple(c) => c.spec_command().name(),
            },
    {
        match self {
            OutboundCommand::SetLed(c) => c.to_string(),
            OutboundCommand::UpdateConfig(c) => c.to_string(),
            OutboundCommand::Simple(c) => c.to_string(),
        }
    }
}

impl HidOutputCommand for OutboundCommand {
    open spec fn encoding(&self) -> Seq<u8> {
        match self {
            OutboundCommand::SetLed(c) => c.encoding(),
            OutboundCommand::UpdateConfig(c) => c.encoding(),
            OutboundCommand::Simple(c) => c.encoding(),
        }
    }

    fn to_buffer(&self) -> (out: Vec<u8>) {
        match self {
            OutboundCommand::SetLed(c) => c.to_buffer(),
            OutboundCommand::UpdateConfig(c) => c.to_buffer(),
            OutboundCommand::Simple(c) => c.to_buffer(),
        }
    }

    fn report_id(&self) -> (id: u8) {
        1
    }
}

/// Every command encodes to eight bytes whose first is the command byte
/// and whose last is the rolling counter.
pub proof fn lemma_encoding_shape(command: OutboundCommand)
    ensures
        command.encoding().len() == 8,
        match command {
            OutboundCommand::SetLed(c) => command.encoding()[0] == 0x01 && command.encoding()[7]
                == c.spec_counter(),
            OutboundCommand::UpdateConfig(c) => command.encoding()[0] == 0xE2
                && command.encoding()[7] == c.spec_counter(),
            OutboundCommand::Simple(c) => command.encoding()[0] == c.spec_command().spec_code()
                && command.encoding()[7] == c.spec_counter(),
        },
{
}

} // verus!
