//! An emulated device for development: it keeps the state of virtual LEDs
//! and buttons, takes the commands of the command channel, and answers as
//! the device would.

use crate::hid_commands::HardwareType;
use crate::text::{decimal, first_index, lemma_first_index, push_decimal};
use vstd::prelude::*;
use vstd::slice::{slice_subrange, slice_to_vec};
use vstd::string::{StrSliceExecFns, StringExecFns};

verus! {

/// The state of a virtual LED.
#[derive(Debug, Clone, Copy, PartialEq, Eq, Structural)]
pub struct LedState {
    pub id: u8,
    pub r: u8,
    pub g: u8,
    pub b: u8,
    pub w: u8,
}

impl LedState {
    /// An LED that is off.
    pub fn new(id: u8) -> (led: Self)
        ensures
            led == (LedState { id, r: 0, g: 0, b: 0, w: 0 }),
    {
        LedState { id, r: 0, g: 0, b: 0, w: 0 }
    }

    pub fn set_rgbw(&mut self, rgbw: [u8; 4])
        ensures
            *final(self) == (LedState {
                id: old(self).id,
                r: rgbw@[0],
                g: rgbw@[1],
                b: rgbw@[2],
                w: rgbw@[3],
            }),
    {
        self.r = rgbw[0];
        self.g = rgbw[1];
        self.b = rgbw[2];
        self.w = rgbw[3];
    }
}

/// The state of a virtual button.
#[derive(Debug, Clone, Copy, PartialEq, Eq, Structural)]
pub struct ButtonState {
    pub button: u8,
    pub pressed: bool,
}

impl ButtonState {
    /// A button that is not pressed.
    pub fn new(button: u8) -> (state: Self)
        ensures
            state == (ButtonState { button, pressed: false }),
    {
        ButtonState { button, pressed: false }
    }
}

/// The state of the emulated device.
#[derive(Debug, Clone)]
pub struct EmulatorState {
    pub version: String,
    pub hardware_type: u8,
    pub leds: Vec<LedState>,
    pub buttons: Vec<ButtonState>,
    pub serial_number: String,
}

/// What the state of the emulated device holds, as plain values.
pub struct EmulatorModel {
    pub version: Seq<char>,
    pub hardware_type: u8,
    pub leds: Seq<LedState>,
    pub buttons: Seq<ButtonState>,
    pub serial_number: Seq<char>,
}

impl View for EmulatorState {
    type V = EmulatorModel;

    open spec fn view(&self) -> EmulatorModel {
        EmulatorModel {
            version: self.version@,
            hardware_type: self.hardware_type,
            leds: self.leds@,
            buttons: self.buttons@,
            serial_number: self.serial_number@,
        }
    }
}

impl EmulatorState {
    /// The state of a device of the given kind with the given number of
    /// buttons, each with an LED: every LED is off and no button is
    /// pressed.
    pub open spec fn initial(hardware_type: HardwareType, num_buttons: u8) -> EmulatorModel {
        EmulatorModel {
            version: "1.0.0"@,
            hardware_type: hardware_type.spec_code(),
            leds: Seq::new(num_buttons as nat, |i: int| LedState { id: i as u8, r: 0, g: 0, b: 0, w: 0 }),
            buttons: Seq::new(
                num_buttons as nat,
                |i: int| ButtonState { button: i as u8, pressed: false },
            ),
            serial_number: "EMULATOR001"@,
        }
    }

    pub fn new(hardware_type: HardwareType, num_buttons: u8) -> (r: Self)
        ensures
            r@ == Self::initial(hardware_type, num_buttons),
    {
        let mut leds: Vec<LedState> = Vec::new();
        let mut buttons: Vec<ButtonState> = Vec::new();
        let mut i: u8 = 0;
        while i < num_buttons
            invariant
                i <= num_buttons,
                leds@ == Seq::new(i as nat, |k: int| LedState { id: k as u8, r: 0, g: 0, b: 0, w: 0 }),
                buttons@ == Seq::new(
                    i as nat,
                    |k: int| ButtonState { button: k as u8, pressed: false },
                ),
            decreases num_buttons - i,
        {
            leds.push(LedState::new(i));
            buttons.push(ButtonState::new(i));
            i += 1;
        }
        EmulatorState {
            version: String::from_str("1.0.0"),
            hardware_type: hardware_type.code(),
            leds,
            buttons,
            serial_number: String::from_str("EMULATOR001"),
        }
    }

    /// A copy of the state.
    pub fn duplicate(&self) -> (r: Self)
        ensures
            r@ == self@,
    {
        EmulatorState {
            version: self.version.clone(),
            hardware_type: self.hardware_type,
            leds: slice_to_vec(self.leds.as_slice()),
            buttons: slice_to_vec(self.buttons.as_slice()),
            serial_number: self.serial_number.clone(),
        }
    }
}

/// The value of a decimal digit, if the character is one.
pub open spec fn digit_value(c: char) -> Option<nat> {
    if '0' <= c <= '9' {
        Some((c as nat - '0' as nat) as nat)
    } else {
        None
    }
}

/// The number that the first `n` characters of a text spell in decimal, if
/// all of them are digits. No character spells zero.
pub open spec fn digits_value(text: Seq<char>, n: nat) -> Option<nat>
    decreases n,
{
    if n == 0 || n > text.len() {
        Some(0)
    } else {
        match (digits_value(text, (n - 1) as nat), digit_value(text[n - 1])) {
            (Some(v), Some(d)) => Some(10 * v + d),
            _ => None,
        }
    }
}

/// The number that a text spells as `u8`: decimal digits, with a plus sign
/// in front of them or without, that spell a number of at most 255.
pub open spec fn parsed_u8(text: Seq<char>) -> Option<u8> {
    let body = if text.len() > 0 && text[0] == '+' {
        text.drop_first()
    } else {
        text
    };
    if body.len() == 0 {
        None
    } else {
        match digits_value(body, body.len()) {
            Some(v) => if v <= 255 {
                Some(v as u8)
            } else {
                None
            },
            None => None,
        }
    }
}

/// Reads a number from the characters of a text between two positions.
fn parse_u8(text: &str, from: usize, to: usize) -> (r: Option<u8>)
    requires
        from <= to <= text@.len(),
    ensures
        r == parsed_u8(text@.subrange(from as int, to as int)),
{
    let ghost whole = text@.subrange(from as int, to as int);
    let start = if from < to && text.get_char(from) == '+' {
        from + 1
    } else {
        from
    };
    let ghost body = text@.subrange(start as int, to as int);
    if start == to {
        return None;
    }
    // The number so far, held at 256 once it is larger than a byte.
    let mut value: u32 = 0;
    let mut i: usize = start;
    while i < to
        invariant
            from <= start <= i <= to,
            to <= text@.len(),
            whole == text@.subrange(from as int, to as int),
            body == text@.subrange(start as int, to as int),
            body == if whole.len() > 0 && whole[0] == '+' {
                whole.drop_first()
            } else {
                whole
            },
            start < to,
            value <= 256,
            match digits_value(body, (i - start) as nat) {
                Some(v) => value == if v > 255 {
                    256
                } else {
                    v
                },
                None => false,
            },
        decreases to - i,
    {
        let c = text.get_char(i);
        if c < '0' || c > '9' {
            proof {
                lemma_digits_stay_invalid(body, (i - start + 1) as nat, body.len());
            }
            return None;
        }
        let digit = c as u32 - '0' as u32;
        let next = 10 * value + digit;
        value = if next > 255 {
            256
        } else {
            next
        };
        i += 1;
    }
    if value > 255 {
        None
    } else {
        Some(value as u8)
    }
}

/// Once a character is no digit, no longer run of the text spells a number.
proof fn lemma_digits_stay_invalid(text: Seq<char>, n: nat, m: nat)
    requires
        n <= m <= text.len(),
        digits_value(text, n) is None,
    ensures
        digits_value(text, m) is None,
    decreases m,
{
    if m > n {
        lemma_digits_stay_invalid(text, n, (m - 1) as nat);
    }
}

/// The position of the first dot at or after `from`, or the length of the
/// text if there is none.
pub open spec fn next_dot(text: Seq<char>, from: int) -> int {
    first_index(text, |c: char| c == '.', from)
}

/// The part of a dotted text with the given index that starts at `from`,
/// if the text has that many parts.
pub open spec fn segment_from(text: Seq<char>, from: int, index: nat) -> Option<Seq<char>>
    decreases index,
{
    if from < 0 || from > text.len() {
        None
    } else if index == 0 {
        Some(text.subrange(from, next_dot(text, from)))
    } else if next_dot(text, from) >= text.len() {
        None
    } else {
        segment_from(text, next_dot(text, from) + 1, (index - 1) as nat)
    }
}

/// The number of a part of a version, from what the part has been read as:
/// the number that was read, or the default if there is no such part or it
/// is no number.
pub open spec fn part_or(read: Option<Option<u8>>, default: u8) -> u8 {
    match read {
        Some(Some(n)) => n,
        _ => default,
    }
}

/// The numbers of a version text: major, minor and patch. A part that is
/// missing or is no number counts as 1 for major and as 0 for the others.
pub open spec fn version_numbers(version: Seq<char>) -> (u8, u8, u8) {
    (
        part_or(
            match segment_from(version, 0, 0) {
                Some(s) => Some(parsed_u8(s)),
                None => None,
            },
            1,
        ),
        part_or(
            match segment_from(version, 0, 1) {
                Some(s) => Some(parsed_u8(s)),
                None => None,
            },
            0,
        ),
        part_or(
            match segment_from(version, 0, 2) {
                Some(s) => Some(parsed_u8(s)),
                None => None,
            },
            0,
        ),
    )
}

/// Finds the first dot at or after `from`.
fn find_dot(text: &str, from: usize) -> (k: usize)
    requires
        from <= text@.len(),
    ensures
        k == next_dot(text@, from as int),
        from <= k <= text@.len(),
{
    let n = text.unicode_len();
    let ghost p = |c: char| c == '.';
    let mut k: usize = from;
    while k < n && text.get_char(k) != '.'
        invariant
            from <= k <= n,
            n == text@.len(),
            p == |c: char| c == '.',
            first_index(text@, p, from as int) == first_index(text@, p, k as int),
        decreases n - k,
    {
        k += 1;
    }
    k
}

/// Reads the part of a dotted text with the given index as a number.
fn read_part(text: &str, index: usize) -> (r: Option<Option<u8>>)
    ensures
        r == match segment_from(text@, 0, index as nat) {
            Some(s) => Some(parsed_u8(s)),
            None => None,
        },
{
    let n = text.unicode_len();
    let mut from: usize = 0;
    let mut left: usize = index;
    while left > 0
        invariant
            from <= n,
            n == text@.len(),
            segment_from(text@, 0, index as nat) == segment_from(text@, from as int, left as nat),
        decreases left,
    {
        let dot = find_dot(text, from);
        if dot >= n {
            return None;
        }
        from = dot + 1;
        left -= 1;
    }
    let dot = find_dot(text, from);
    Some(parse_u8(text, from, dot))
}

/// The report of a button's status as the device sends it.
pub open spec fn button_report(button: u8, pressed: bool) -> Seq<u8> {
    if pressed {
        seq![1u8, 0x01u8, button, 1u8, 0u8, 1u8, 0u8, 0u8]
    } else {
        seq![1u8, 0x01u8, button, 0u8, 0u8, 0u8, 1u8, 0u8]
    }
}

/// The position of the first LED with the given id, or the number of LEDs
/// if there is none.
pub open spec fn led_position(leds: Seq<LedState>, id: u8) -> int {
    first_index(leds, |l: LedState| l.id == id, 0)
}

/// The position of the first button with the given number, or the number
/// of buttons if there is none.
pub open spec fn button_position(buttons: Seq<ButtonState>, button: u8) -> int {
    first_index(buttons, |b: ButtonState| b.button == button, 0)
}

/// The text that no button of the number was found.
pub open spec fn not_found_text(button: u8) -> Seq<char> {
    "Button "@ + decimal(button as nat) + " not found"@
}

impl EmulatorModel {
    /// The state after a command that sets an LED: the first LED with the
    /// id shows the colour; without such an LED nothing changes.
    pub open spec fn with_led(self, id: u8, r: u8, g: u8, b: u8, w: u8) -> EmulatorModel {
        let k = led_position(self.leds, id);
        if k < self.leds.len() {
            EmulatorModel { leds: self.leds.update(k, LedState { id, r, g, b, w }), ..self }
        } else {
            self
        }
    }

    /// The state after the first button with the number was pressed or
    /// released.
    pub open spec fn with_button(self, button: u8, pressed: bool) -> EmulatorModel {
        let k = button_position(self.buttons, button);
        if k < self.buttons.len() {
            EmulatorModel {
                buttons: self.buttons.update(k, ButtonState { button, pressed }),
                ..self
            }
        } else {
            self
        }
    }

    /// What a command does to the state, or why it is refused. The buffer
    /// holds the report identifier, the command byte and seven bytes of
    /// payload; a command that the emulator does not know does nothing.
    pub open spec fn after_command(self, buffer: Seq<u8>) -> Result<EmulatorModel, Seq<char>> {
        if buffer.len() < 2 {
            Err("Buffer too short"@)
        } else if buffer[1] == 0x01 {
            if buffer.len() < 9 {
                Err("SetLed buffer too short"@)
            } else {
                Ok(self.with_led(buffer[2], buffer[3], buffer[4], buffer[5], buffer[6]))
            }
        } else if buffer[1] == 0xF0 {
            if buffer.len() < 9 {
                Err("Ping buffer too short"@)
            } else {
                Ok(self)
            }
        } else if buffer[1] == 0xE2 {
            if buffer.len() < 9 {
                Err("UpdateConfig buffer too short"@)
            } else {
                Ok(self)
            }
        } else {
            Ok(self)
        }
    }

    /// The report of the version: the numbers of the version text and the
    /// kind of hardware.
    pub open spec fn version_report(self) -> Seq<u8> {
        version_report_of(version_numbers(self.version), self.hardware_type)
    }
}

/// The report of a version with the given numbers for the given kind of
/// hardware.
pub open spec fn version_report_of(numbers: (u8, u8, u8), hardware_type: u8) -> Seq<u8> {
    seq![1u8, 0x99u8, numbers.0, numbers.1, numbers.2, hardware_type, 0u8, 0u8]
}

/// Builds the report of a version from what its three parts have been read
/// as. A part that is missing or is no number counts as 1 for major and as
/// 0 for the others.
pub fn build_version_report(
    major: Option<Option<u8>>,
    minor: Option<Option<u8>>,
    patch: Option<Option<u8>>,
    hardware_type: u8,
) -> (r: Vec<u8>)
    ensures
        r@ == version_report_of(
            (part_or(major, 1), part_or(minor, 0), part_or(patch, 0)),
            hardware_type,
        ),
{
    let major = match major {
        Some(Some(n)) => n,
        _ => 1,
    };
    let minor = match minor {
        Some(Some(n)) => n,
        _ => 0,
    };
    let patch = match patch {
        Some(Some(n)) => n,
        _ => 0,
    };
    let r = vec![1u8, 0x99u8, major, minor, patch, hardware_type, 0u8, 0u8];
    r
}

/// Builds the report of the version that a dotted text spells, for the
/// given kind of hardware.
pub fn version_report(version: &str, hardware_type: u8) -> (r: Vec<u8>)
    ensures
        r@ == version_report_of(version_numbers(version@), hardware_type),
{
    build_version_report(
        read_part(version, 0),
        read_part(version, 1),
        read_part(version, 2),
        hardware_type,
    )
}

/// The emulated device.
pub struct DeviceEmulator {
    state: EmulatorState,
}

impl View for DeviceEmulator {
    type V = EmulatorModel;

    closed spec fn view(&self) -> EmulatorModel {
        self.state@
    }
}

impl DeviceEmulator {
    /// Creates the emulation of a device of the given kind.
    pub fn new(hardware_type: HardwareType) -> (r: Self)
        ensures
            r@ == EmulatorState::initial(hardware_type, hardware_type.spec_button_count()),
    {
        let num_buttons = hardware_type.button_count();
        DeviceEmulator { state: EmulatorState::new(hardware_type, num_buttons) }
    }

    /// Gets a copy of the current state.
    pub fn get_state(&self) -> (r: EmulatorState)
        ensures
            r@ == self@,
    {
        self.state.duplicate()
    }

    /// Processes a command of the command channel. The emulator answers no
    /// command with data: the answer is empty.
    pub fn process_command(&mut self, buffer: &[u8]) -> (r: Result<Vec<u8>, String>)
        ensures
            match r {
                Ok(answer) => answer@.len() == 0 && old(self)@.after_command(buffer@) == Ok::<
                    EmulatorModel,
                    Seq<char>,
                >(final(self)@),
                Err(reason) => old(self)@.after_command(buffer@) == Err::<EmulatorModel, Seq<char>>(
                    reason@,
                ) && final(self)@ == old(self)@,
            },
    {
        if buffer.len() < 2 {
            return Err(String::from_str("Buffer too short"));
        }
        let command_id = buffer[1];
        let rest = slice_subrange(buffer, 1, buffer.len());
        if command_id == 0x01 {
            self.handle_set_led(rest)
        } else if command_id == 0xF0 {
            self.handle_ping(rest)
        } else if command_id == 0xE2 {
            self.handle_update_config(rest)
        } else {
            Ok(Vec::new())
        }
    }

    /// Handles the command that sets an LED.
    fn handle_set_led(&mut self, buffer: &[u8]) -> (r: Result<Vec<u8>, String>)
        ensures
            buffer@.len() < 8 ==> r is Err && r->Err_0@ == "SetLed buffer too short"@ && final(self)@ == old(self)@,
            buffer@.len() >= 8 ==> r is Ok && r->Ok_0@.len() == 0 && final(self)@ == old(self)@.with_led(buffer@[1], buffer@[2], buffer@[3], buffer@[4], buffer@[5]),
    {
        if buffer.len() < 8 {
            return Err(String::from_str("SetLed buffer too short"));
        }
        let led_id = buffer[1];
        let ghost p = |l: LedState| l.id == led_id;
        let mut k: usize = 0;
        while k < self.state.leds.len() && self.state.leds[k].id != led_id
            invariant
                k <= self.state.leds@.len(),
                *self == *old(self),
                p == |l: LedState| l.id == led_id,
                first_index(self.state.leds@, p, 0) == first_index(self.state.leds@, p, k as int),
            decreases self.state.leds@.len() - k,
        {
            k += 1;
        }
        if k < self.state.leds.len() {
            self.state.leds[k].set_rgbw([buffer[2], buffer[3], buffer[4], buffer[5]]);
        }
        Ok(Vec::new())
    }

    /// Handles a ping.
    fn handle_ping(&mut self, buffer: &[u8]) -> (r: Result<Vec<u8>, String>)
        ensures
            final(self)@ == old(self)@,
            buffer@.len() < 8 ==> r is Err && r->Err_0@ == "Ping buffer too short"@,
            buffer@.len() >= 8 ==> r is Ok && r->Ok_0@.len() == 0,
    {
        if buffer.len() < 8 {
            return Err(String::from_str("Ping buffer too short"));
        }
        Ok(Vec::new())
    }

    /// Handles the command that updates the configuration.
    fn handle_update_config(&mut self, buffer: &[u8]) -> (r: Result<Vec<u8>, String>)
        ensures
            final(self)@ == old(self)@,
            buffer@.len() < 8 ==> r is Err && r->Err_0@ == "UpdateConfig buffer too short"@,
            buffer@.len() >= 8 ==> r is Ok && r->Ok_0@.len() == 0,
    {
        if buffer.len() < 8 {
            return Err(String::from_str("UpdateConfig buffer too short"));
        }
        Ok(Vec::new())
    }

    /// Sets whether the first button with the number is pressed.
    fn set_button(&mut self, button: u8, pressed: bool) -> (r: Result<Vec<u8>, String>)
        ensures
            ({
                let k = button_position(old(self)@.buttons, button);
                if k < old(self)@.buttons.len() {
                    r is Ok && r->Ok_0@ == button_report(button, pressed) && final(self)@ == old(self)@.with_button(button, pressed)
                } else {
                    r is Err && r->Err_0@ == not_found_text(button) && final(self)@ == old(self)@
                }
            }),
    {
        let ghost p = |b: ButtonState| b.button == button;
        let mut k: usize = 0;
        while k < self.state.buttons.len() && self.state.buttons[k].button != button
            invariant
                k <= self.state.buttons@.len(),
                *self == *old(self),
                p == |b: ButtonState| b.button == button,
                first_index(self.state.buttons@, p, 0) == first_index(
                    self.state.buttons@,
                    p,
                    k as int,
                ),
            decreases self.state.buttons@.len() - k,
        {
            k += 1;
        }
        if k < self.state.buttons.len() {
            self.state.buttons[k].pressed = pressed;
            let report = if pressed {
                vec![1u8, 0x01u8, button, 1u8, 0u8, 1u8, 0u8, 0u8]
            } else {
                vec![1u8, 0x01u8, button, 0u8, 0u8, 0u8, 1u8, 0u8]
            };
            Ok(report)
        } else {
            let mut reason = String::from_str("Button ");
            push_decimal(&mut reason, button as u64);
            reason.append(" not found");
            Err(reason)
        }
    }

    /// Simulates the press of a button and returns the status report that
    /// the device would send.
    pub fn press_button(&mut self, button: u8) -> (r: Result<Vec<u8>, String>)
        ensures
            ({
                let k = button_position(old(self)@.buttons, button);
                if k < old(self)@.buttons.len() {
                    r is Ok && r->Ok_0@ == button_report(button, true) && final(self)@ == old(self)@.with_button(button, true)
                } else {
                    r is Err && r->Err_0@ == not_found_text(button) && final(self)@ == old(self)@
                }
            }),
    {
        self.set_button(button, true)
    }

    /// Simulates the release of a button and returns the status report
    /// that the device would send.
    pub fn release_button(&mut self, button: u8) -> (r: Result<Vec<u8>, String>)
        ensures
            ({
                let k = button_position(old(self)@.buttons, button);
                if k < old(self)@.buttons.len() {
                    r is Ok && r->Ok_0@ == button_report(button, false) && final(self)@ == old(self)@.with_button(button, false)
                } else {
                    r is Err && r->Err_0@ == not_found_text(button) && final(self)@ == old(self)@
                }
            }),
    {
        self.set_button(button, false)
    }

    /// Gets the report of the version.
    pub fn get_version_info(&self) -> (r: Vec<u8>)
        ensures
            r@ == self@.version_report(),
    {
        version_report(self.state.version.as_str(), self.state.hardware_type)
    }
}

/// A message between the emulator and the page that shows it.
#[derive(Debug, Clone)]
pub enum WsMessage {
    /// A command for the emulated device.
    Command { data: Vec<u8> },
    /// What the emulated device answers.
    Response { data: Vec<u8> },
    /// The state of the emulated device.
    State { state: EmulatorState },
    /// A button was pressed or released on the page.
    Button { button: u8, pressed: bool },
    /// The page asks for the version.
    GetVersion,
    Error { message: String },
}

/// What the emulator replies to a message, as plain values.
pub enum ReplyModel {
    Response(Seq<u8>),
    State(EmulatorModel),
}

/// What a reply holds, if it is one that the emulator gives.
pub open spec fn reply_model(message: WsMessage) -> Option<ReplyModel> {
    match message {
        WsMessage::Response { data } => Some(ReplyModel::Response(data@)),
        WsMessage::State { state } => Some(ReplyModel::State(state@)),
        _ => None,
    }
}

/// Whether the replies are the expected ones, one by one.
pub open spec fn replies_are(replies: Seq<WsMessage>, expected: Seq<ReplyModel>) -> bool {
    replies.len() == expected.len() && forall|i: int|
        0 <= i < replies.len() ==> reply_model(#[trigger] replies[i]) == Some(expected[i])
}

impl DeviceEmulator {
    /// Handles a message of the page and returns the replies, in the order
    /// in which they are to be sent. A command is answered with the state
    /// after it; a button with the status report and the state; a request
    /// for the version with the version report. Other messages get no
    /// reply.
    pub fn handle_message(&mut self, message: WsMessage) -> (r: Result<Vec<WsMessage>, String>)
        ensures
            match message {
                WsMessage::Command { data } => match old(self)@.after_command(data@) {
                    Ok(after) => r is Ok && final(self)@ == after && replies_are(
                        r->Ok_0@,
                        seq![ReplyModel::State(after)],
                    ),
                    Err(reason) => r is Err && r->Err_0@ == reason && final(self)@ == old(self)@,
                },
                WsMessage::Button { button, pressed } => if button_position(
                    old(self)@.buttons,
                    button,
                ) < old(self)@.buttons.len() {
                    r is Ok && final(self)@ == old(self)@.with_button(button, pressed)
                        && replies_are(
                        r->Ok_0@,
                        seq![
                            ReplyModel::Response(button_report(button, pressed)),
                            ReplyModel::State(final(self)@),
                        ],
                    )
                } else {
                    r is Err && r->Err_0@ == not_found_text(button) && final(self)@ == old(self)@
                },
                WsMessage::GetVersion => r is Ok && final(self)@ == old(self)@ && replies_are(
                    r->Ok_0@,
                    seq![ReplyModel::Response(old(self)@.version_report())],
                ),
                _ => r is Ok && r->Ok_0@.len() == 0 && final(self)@ == old(self)@,
            },
    {
        let mut replies: Vec<WsMessage> = Vec::new();
        match message {
            WsMessage::Command { data } => {
                match self.process_command(data.as_slice()) {
                    Ok(answer) => {
                        if answer.len() > 0 {
                            replies.push(WsMessage::Response { data: answer });
                        }
                        replies.push(WsMessage::State { state: self.get_state() });
                        Ok(replies)
                    },
                    Err(reason) => Err(reason),
                }
            },
            WsMessage::Button { button, pressed } => {
                let outcome = if pressed {
                    self.press_button(button)
                } else {
                    self.release_button(button)
                };
                match outcome {
                    Ok(report) => {
                        replies.push(WsMessage::Response { data: report });
                        replies.push(WsMessage::State { state: self.get_state() });
                        Ok(replies)
                    },
                    Err(reason) => Err(reason),
                }
            },
            WsMessage::GetVersion => {
                replies.push(WsMessage::Response { data: self.get_version_info() });
                Ok(replies)
            },
            _ => Ok(replies),
        }
    }

    /// Handles a command that came as raw bytes, and returns the state
    /// after it.
    pub fn handle_binary(&mut self, data: &[u8]) -> (r: Result<EmulatorState, String>)
        ensures
            match old(self)@.after_command(data@) {
                Ok(after) => r is Ok && final(self)@ == after && r->Ok_0@ == after,
                Err(reason) => r is Err && r->Err_0@ == reason && final(self)@ == old(self)@,
            },
    {
        match self.process_command(data) {
            Ok(_) => Ok(self.get_state()),
            Err(reason) => Err(reason),
        }
    }
}

/// A command changes nothing but the colour of one LED: the buttons, the
/// version and the number of LEDs stay as they are.
pub proof fn lemma_commands_only_set_leds(state: EmulatorModel, buffer: Seq<u8>)
    ensures
        match state.after_command(buffer) {
            Ok(after) => after.buttons == state.buttons && after.version == state.version
                && after.leds.len() == state.leds.len() && after.hardware_type
                == state.hardware_type && (buffer.len() < 2 || buffer[1] != 0x01 ==> after
                == state),
            Err(_) => true,
        },
{
    if buffer.len() >= 9 {
        lemma_first_index(state.leds, |l: LedState| l.id == buffer[2], 0);
    }
}

} // verus!
