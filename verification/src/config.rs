//! The configuration: which devices to look for, what each button does, and
//! what each LED shows.

use crate::hid_commands::{LedColor, SetLed};
use crate::hid_device::DeviceInfo;
use crate::teams_messages::MeetingState;
use crate::text::first_index;
use crate::types::{Action, ButtonAction, MeetingActionType, ReactionType, TeamsReact};
use vstd::prelude::*;
use vstd::string::StringExecFns;

verus! {

/// How long a button is held at least for a long press, in milliseconds:
/// a press of more than this counts as long.
pub const LONG_PRESS_MILLIS: u64 = 500;

/// The configuration.
#[derive(Debug, Clone)]
pub struct Config {
    pub version: u32,
    pub device_identifications: Vec<DeviceIdentification>,
    pub actions: Vec<ButtonAction>,
    pub longpress_action: Vec<ButtonAction>,
    pub led_status: Vec<LedStatus>,
    pub logging: LoggingConfig,
    pub virtual_keypad: VirtualKeypadConfig,
}

/// A device by its vendor and its product.
#[derive(Debug, Clone, Copy, PartialEq, Eq, Structural)]
pub struct DeviceIdentification {
    pub vendor_id: u16,
    pub product_id: u16,
}

/// What the LED of a button shows.
#[derive(Debug, Clone)]
pub struct LedStatus {
    pub button_id: u8,
    pub teams_state: Option<TeamsStateConfig>,
    pub result_command: Option<LedStatusResultCommand>,
    pub color_command: Option<LedStatusColorCommand>,
    pub webhook: bool,
}

/// A command whose result decides between two colours.
#[derive(Debug, Clone)]
pub struct LedStatusResultCommand {
    pub command: String,
    /// Milliseconds between two runs of the command.
    pub interval_millis: u64,
    /// Milliseconds after which a run is given up.
    pub timeout_millis: u64,
    pub color_on: Option<LedColorConfig>,
    pub color_off: Option<LedColorConfig>,
}

/// A command whose output names the colour.
#[derive(Debug, Clone)]
pub struct LedStatusColorCommand {
    pub command: String,
    /// Milliseconds between two runs of the command.
    pub interval_millis: u64,
    /// Milliseconds after which a run is given up.
    pub timeout_millis: u64,
}

/// Milliseconds between two runs of a command for which none are
/// configured.
pub fn default_interval() -> (millis: u64)
    ensures
        millis == 5000,
{
    5000
}

/// Milliseconds after which a run of a command is given up if none are
/// configured.
pub fn default_timeout() -> (millis: u64)
    ensures
        millis == 500,
{
    500
}

/// A part of the meeting's state that an LED shows, with the colours for
/// when it holds and when it does not.
#[derive(Debug, Clone, Copy, PartialEq, Eq, Structural)]
pub struct TeamsStateConfig {
    pub teams_state: TeamsStateType,
    pub color_on: Option<LedColorConfig>,
    pub color_off: Option<LedColorConfig>,
}

/// The parts of the meeting's state that an LED can show.
#[derive(Debug, Clone, Copy, PartialEq, Eq, Structural)]
pub enum TeamsStateType {
    IsMuted,
    IsHandRaised,
    IsVideoOn,
    IsInMeeting,
    IsRecordingOn,
    IsBackgroundBlurred,
    IsSharing,
    HasUnreadMessages,
}

impl TeamsStateType {
    /// Whether this part of the state holds in the given state.
    pub open spec fn holds_in(self, state: MeetingState) -> bool {
        match self {
            TeamsStateType::IsMuted => state.is_muted,
            TeamsStateType::IsVideoOn => state.is_video_on,
            TeamsStateType::IsHandRaised => state.is_hand_raised,
            TeamsStateType::IsInMeeting => state.is_in_meeting,
            TeamsStateType::IsRecordingOn => state.is_recording_on,
            TeamsStateType::IsBackgroundBlurred => state.is_background_blurred,
            TeamsStateType::IsSharing => state.is_sharing,
            TeamsStateType::HasUnreadMessages => state.has_unread_messages,
        }
    }

    /// Checks whether this part of the state holds in the given state.
    pub fn is_active(&self, state: &MeetingState) -> (b: bool)
        ensures
            b == self.holds_in(*state),
    {
        match self {
            TeamsStateType::IsMuted => state.is_muted,
            TeamsStateType::IsVideoOn => state.is_video_on,
            TeamsStateType::IsHandRaised => state.is_hand_raised,
            TeamsStateType::IsInMeeting => state.is_in_meeting,
            TeamsStateType::IsRecordingOn => state.is_recording_on,
            TeamsStateType::IsBackgroundBlurred => state.is_background_blurred,
            TeamsStateType::IsSharing => state.is_sharing,
            TeamsStateType::HasUnreadMessages => state.has_unread_messages,
        }
    }
}

/// The colours as the configuration names them.
#[derive(Debug, Clone, Copy, PartialEq, Eq, Structural)]
pub enum LedColorConfig {
    Black,
    Red,
    Green,
    Blue,
    Yellow,
    Cyan,
    Magenta,
    White,
    Orange,
    Purple,
}

impl LedColorConfig {
    /// The colour of the device that the configured colour stands for.
    pub open spec fn spec_led_color(self) -> LedColor {
        match self {
            LedColorConfig::Black => LedColor::Black,
            LedColorConfig::Red => LedColor::Red,
            LedColorConfig::Green => LedColor::Green,
            LedColorConfig::Blue => LedColor::Blue,
            LedColorConfig::Yellow => LedColor::Yellow,
            LedColorConfig::Cyan => LedColor::Cyan,
            LedColorConfig::Magenta => LedColor::Magenta,
            LedColorConfig::White => LedColor::White,
            LedColorConfig::Orange => LedColor::Orange,
            LedColorConfig::Purple => LedColor::Purple,
        }
    }

    pub fn to_led_color(&self) -> (c: LedColor)
        ensures
            c == self.spec_led_color(),
    {
        match self {
            LedColorConfig::Black => LedColor::Black,
            LedColorConfig::Red => LedColor::Red,
            LedColorConfig::Green => LedColor::Green,
            LedColorConfig::Blue => LedColor::Blue,
            LedColorConfig::Yellow => LedColor::Yellow,
            LedColorConfig::Cyan => LedColor::Cyan,
            LedColorConfig::Magenta => LedColor::Magenta,
            LedColorConfig::White => LedColor::White,
            LedColorConfig::Orange => LedColor::Orange,
            LedColorConfig::Purple => LedColor::Purple,
        }
    }
}

impl TeamsStateConfig {
    /// The colour that the LED shows in the given state: the colour for
    /// when the part holds, or green if none is configured; the colour for
    /// when it does not, or black if none is configured.
    pub open spec fn color_in(self, state: MeetingState) -> LedColor {
        if self.teams_state.holds_in(state) {
            match self.color_on {
                Some(c) => c.spec_led_color(),
                None => LedColor::Green,
            }
        } else {
            match self.color_off {
                Some(c) => c.spec_led_color(),
                None => LedColor::Black,
            }
        }
    }

    /// Decides the colour that the LED shows in the given state.
    pub fn led_color(&self, state: &MeetingState) -> (c: LedColor)
        ensures
            c == self.color_in(*state),
    {
        if self.teams_state.is_active(state) {
            match self.color_on {
                Some(c) => c.to_led_color(),
                None => LedColor::Green,
            }
        } else {
            match self.color_off {
                Some(c) => c.to_led_color(),
                None => LedColor::Black,
            }
        }
    }
}

/// A level for a part of the program.
#[derive(Debug, Clone, PartialEq, Eq)]
pub struct SubmoduleLevel {
    pub name: String,
    pub level: String,
}

/// How the program logs.
#[derive(Debug, Clone)]
pub struct LoggingConfig {
    pub level: String,
    pub console_enabled: bool,
    pub console_level: String,
    pub file_enabled: bool,
    pub file_level: String,
    pub file_max_size: usize,
    pub file_backup_count: u32,
    pub submodules: Vec<SubmoduleLevel>,
}

impl Default for LoggingConfig {
    fn default() -> (r: Self)
        ensures
            r.level@ == "info"@,
            r.console_enabled,
            r.console_level@ == "info"@,
            r.file_enabled,
            r.file_level@ == "info"@,
            r.file_max_size == 3145728,
            r.file_backup_count == 5,
            r.submodules@.len() == 0,
    {
        LoggingConfig {
            level: default_log_level(),
            console_enabled: default_true(),
            console_level: default_log_level(),
            file_enabled: default_true(),
            file_level: default_log_level(),
            file_max_size: default_file_max_size(),
            file_backup_count: default_file_backup_count(),
            submodules: Vec::new(),
        }
    }
}

pub fn default_log_level() -> (s: String)
    ensures
        s@ == "info"@,
{
    String::from_str("info")
}

pub fn default_true() -> (b: bool)
    ensures
        b,
{
    true
}

pub fn default_file_max_size() -> (n: usize)
    ensures
        n == 3145728,
{
    3145728
}

pub fn default_file_backup_count() -> (n: u32)
    ensures
        n == 5,
{
    5
}

/// Where the virtual keypad listens.
#[derive(Debug, Clone)]
pub struct VirtualKeypadConfig {
    pub bind_address: String,
    pub bind_port: u16,
}

impl Default for VirtualKeypadConfig {
    fn default() -> (r: Self)
        ensures
            r.bind_address@ == "127.0.0.1"@,
            r.bind_port == 12909,
    {
        VirtualKeypadConfig { bind_address: default_bind_address(), bind_port: default_bind_port() }
    }
}

pub fn default_bind_address() -> (s: String)
    ensures
        s@ == "127.0.0.1"@,
{
    String::from_str("127.0.0.1")
}

pub fn default_bind_port() -> (n: u16)
    ensures
        n == 12909,
{
    12909
}

/// Whether the action does nothing but what the three arguments say.
pub open spec fn is_plain_action(
    action: Action,
    meeting_action: Option<MeetingActionType>,
    reaction: Option<ReactionType>,
    activate_teams: bool,
) -> bool {
    &&& action.webhook is None
    &&& action.keyboard is None
    &&& action.mouse is None
    &&& action.command is None
    &&& action.meeting_action == meeting_action
    &&& action.teams_reaction == match reaction {
        Some(r) => Some(TeamsReact { reaction: r }),
        None => None,
    }
    &&& action.activate_teams == activate_teams
}

/// Whether the button has the one action that the arguments say.
pub open spec fn is_plain_button(
    button: ButtonAction,
    button_id: u8,
    meeting_action: Option<MeetingActionType>,
    reaction: Option<ReactionType>,
    activate_teams: bool,
) -> bool {
    &&& button.button_id == button_id
    &&& button.actions@.len() == 1
    &&& is_plain_action(button.actions@[0], meeting_action, reaction, activate_teams)
}

/// Whether the LED shows the given part of the meeting's state in the given
/// colours, and nothing else.
pub open spec fn is_state_led(
    led: LedStatus,
    button_id: u8,
    teams_state: TeamsStateType,
    color_on: LedColorConfig,
    color_off: LedColorConfig,
) -> bool {
    &&& led.button_id == button_id
    &&& led.teams_state == Some(
        TeamsStateConfig { teams_state, color_on: Some(color_on), color_off: Some(color_off) },
    )
    &&& led.result_command is None
    &&& led.color_command is None
    &&& !led.webhook
}

/// Whether the configuration is the one that is written when none is
/// found.
pub open spec fn is_default_config(config: Config) -> bool {
    &&& config.version == 1
    &&& config.device_identifications@ == seq![
        DeviceIdentification { vendor_id: 7504, product_id: 24969 },
        DeviceIdentification { vendor_id: 7504, product_id: 24774 },
        DeviceIdentification { vendor_id: 4617, product_id: 1 },
    ]
    &&& config.actions@.len() == 5
    &&& is_plain_button(config.actions@[0], 1, Some(MeetingActionType::ToggleMute), None, false)
    &&& is_plain_button(config.actions@[1], 2, Some(MeetingActionType::ToggleHand), None, false)
    &&& is_plain_button(config.actions@[2], 3, None, None, true)
    &&& is_plain_button(config.actions@[3], 4, None, Some(ReactionType::Like), false)
    &&& is_plain_button(config.actions@[4], 5, Some(MeetingActionType::LeaveCall), None, false)
    &&& config.longpress_action@.len() == 1
    &&& is_plain_button(
        config.longpress_action@[0],
        3,
        Some(MeetingActionType::ToggleVideo),
        None,
        false,
    )
    &&& config.led_status@.len() == 4
    &&& is_state_led(
        config.led_status@[0],
        1,
        TeamsStateType::IsMuted,
        LedColorConfig::Green,
        LedColorConfig::Red,
    )
    &&& is_state_led(
        config.led_status@[1],
        2,
        TeamsStateType::IsHandRaised,
        LedColorConfig::Yellow,
        LedColorConfig::Black,
    )
    &&& is_state_led(
        config.led_status@[2],
        3,
        TeamsStateType::IsVideoOn,
        LedColorConfig::Green,
        LedColorConfig::Red,
    )
    &&& is_state_led(
        config.led_status@[3],
        5,
        TeamsStateType::IsInMeeting,
        LedColorConfig::Green,
        LedColorConfig::Black,
    )
    &&& config.logging.level@ == "info"@
    &&& config.logging.console_enabled
    &&& config.logging.console_level@ == "info"@
    &&& config.logging.file_enabled
    &&& config.logging.file_level@ == "info"@
    &&& config.logging.file_max_size == 3145728
    &&& config.logging.file_backup_count == 5
    &&& config.logging.submodules@.len() == 0
    &&& config.virtual_keypad.bind_address@ == "127.0.0.1"@
    &&& config.virtual_keypad.bind_port == 12909
}

/// A button with one action that does nothing but what the arguments say.
fn plain_button(
    button_id: u8,
    meeting_action: Option<MeetingActionType>,
    reaction: Option<ReactionType>,
    activate_teams: bool,
) -> (r: ButtonAction)
    ensures
        is_plain_button(r, button_id, meeting_action, reaction, activate_teams),
{
    let action = Action {
        webhook: None,
        keyboard: None,
        mouse: None,
        teams_reaction: match reaction {
            Some(r) => Some(TeamsReact { reaction: r }),
            None => None,
        },
        meeting_action,
        activate_teams,
        command: None,
    };
    let mut actions: Vec<Action> = Vec::new();
    actions.push(action);
    ButtonAction { button_id, actions }
}

/// An LED that shows a part of the meeting's state.
fn state_led(
    button_id: u8,
    teams_state: TeamsStateType,
    color_on: LedColorConfig,
    color_off: LedColorConfig,
) -> (r: LedStatus)
    ensures
        is_state_led(r, button_id, teams_state, color_on, color_off),
{
    LedStatus {
        button_id,
        teams_state: Some(
            TeamsStateConfig { teams_state, color_on: Some(color_on), color_off: Some(color_off) },
        ),
        result_command: None,
        color_command: None,
        webhook: false,
    }
}

/// Whether a button is the one with the given number.
pub open spec fn is_button(button: ButtonAction, button_id: u8) -> bool {
    button.button_id == button_id
}

/// The position of the first button with the given number, or the number
/// of buttons if there is none.
pub open spec fn button_index(buttons: Seq<ButtonAction>, button_id: u8) -> int {
    first_index(buttons, |b: ButtonAction| is_button(b, button_id), 0)
}

/// The position of the first LED of the button with the given number, or
/// the number of LEDs if there is none.
pub open spec fn led_index(leds: Seq<LedStatus>, button_id: u8) -> int {
    first_index(leds, |l: LedStatus| l.button_id == button_id, 0)
}

/// The LEDs among the first `n` that show a part of the meeting's state,
/// each with the number of its button and its colour in the given state.
pub open spec fn led_colors(leds: Seq<LedStatus>, state: MeetingState, n: nat) -> Seq<
    (u8, LedColor),
>
    decreases n,
{
    if n == 0 || n > leds.len() {
        Seq::empty()
    } else {
        let before = led_colors(leds, state, (n - 1) as nat);
        match leds[n - 1].teams_state {
            Some(config) => before.push((leds[n - 1].button_id, config.color_in(state))),
            None => before,
        }
    }
}

/// Finds the first button with the given number.
fn find_button(buttons: &Vec<ButtonAction>, button_id: u8) -> (r: Option<&ButtonAction>)
    ensures
        match r {
            Some(b) => button_index(buttons@, button_id) < buttons@.len() && *b
                == buttons@[button_index(buttons@, button_id)],
            None => button_index(buttons@, button_id) == buttons@.len(),
        },
{
    let ghost p = |b: ButtonAction| is_button(b, button_id);
    let mut k: usize = 0;
    while k < buttons.len() && buttons[k].button_id != button_id
        invariant
            k <= buttons@.len(),
            p == |b: ButtonAction| is_button(b, button_id),
            first_index(buttons@, p, 0) == first_index(buttons@, p, k as int),
        decreases buttons@.len() - k,
    {
        k += 1;
    }
    if k < buttons.len() {
        Some(&buttons[k])
    } else {
        None
    }
}

/// Whether a press of the given length is a long press.
pub fn is_long_press(press_millis: u64) -> (b: bool)
    ensures
        b == (press_millis > LONG_PRESS_MILLIS),
{
    press_millis > LONG_PRESS_MILLIS
}

impl Config {
    /// Creates the configuration that is written when none is found.
    pub fn default_config() -> (r: Self)
        ensures
            is_default_config(r),
    {
        let mut device_identifications: Vec<DeviceIdentification> = Vec::new();
        device_identifications.push(DeviceIdentification { vendor_id: 7504, product_id: 24969 });
        device_identifications.push(DeviceIdentification { vendor_id: 7504, product_id: 24774 });
        device_identifications.push(DeviceIdentification { vendor_id: 4617, product_id: 1 });
        assert(device_identifications@ =~= seq![
            DeviceIdentification { vendor_id: 7504, product_id: 24969 },
            DeviceIdentification { vendor_id: 7504, product_id: 24774 },
            DeviceIdentification { vendor_id: 4617, product_id: 1 },
        ]);
        let mut actions: Vec<ButtonAction> = Vec::new();
        // Button 1: toggle mute
        actions.push(plain_button(1, Some(MeetingActionType::ToggleMute), None, false));
        // Button 2: toggle hand
        actions.push(plain_button(2, Some(MeetingActionType::ToggleHand), None, false));
        // Button 3: activate the meeting application
        actions.push(plain_button(3, None, None, true));
        // Button 4: like reaction
        actions.push(plain_button(4, None, Some(ReactionType::Like), false));
        // Button 5: leave call
        actions.push(plain_button(5, Some(MeetingActionType::LeaveCall), None, false));
        let mut longpress_action: Vec<ButtonAction> = Vec::new();
        // Button 3, long press: toggle video
        longpress_action.push(plain_button(3, Some(MeetingActionType::ToggleVideo), None, false));
        let mut led_status: Vec<LedStatus> = Vec::new();
        // Button 1: green when muted, red when not
        led_status.push(
            state_led(1, TeamsStateType::IsMuted, LedColorConfig::Green, LedColorConfig::Red),
        );
        // Button 2: yellow when the hand is raised, off when not
        led_status.push(
            state_led(
                2,
                TeamsStateType::IsHandRaised,
                LedColorConfig::Yellow,
                LedColorConfig::Black,
            ),
        );
        // Button 3: green when the video is on, red when not
        led_status.push(
            state_led(3, TeamsStateType::IsVideoOn, LedColorConfig::Green, LedColorConfig::Red),
        );
        // Button 5: green when in a meeting, off when not
        led_status.push(
            state_led(5, TeamsStateType::IsInMeeting, LedColorConfig::Green, LedColorConfig::Black),
        );
        Config {
            version: 1,
            device_identifications,
            actions,
            longpress_action,
            led_status,
            logging: LoggingConfig::default(),
            virtual_keypad: VirtualKeypadConfig::default(),
        }
    }

    /// Finds the action of a button by the button's number.
    pub fn find_button_action(&self, button_id: u8) -> (r: Option<&ButtonAction>)
        ensures
            match r {
                Some(b) => button_index(self.actions@, button_id) < self.actions@.len() && *b
                    == self.actions@[button_index(self.actions@, button_id)],
                None => button_index(self.actions@, button_id) == self.actions@.len(),
            },
    {
        find_button(&self.actions, button_id)
    }

    /// Finds the long-press action of a button by the button's number.
    pub fn find_longpress_action(&self, button_id: u8) -> (r: Option<&ButtonAction>)
        ensures
            match r {
                Some(b) => button_index(self.longpress_action@, button_id)
                    < self.longpress_action@.len() && *b == self.longpress_action@[button_index(
                    self.longpress_action@,
                    button_id,
                )],
                None => button_index(self.longpress_action@, button_id)
                    == self.longpress_action@.len(),
            },
    {
        find_button(&self.longpress_action, button_id)
    }

    /// Finds the action for a press of the given kind: the long-press
    /// action for a long press, else the action. There is no falling back
    /// from the one to the other.
    pub fn find_action_for(&self, button_id: u8, long_press: bool) -> (r: Option<&ButtonAction>)
        ensures
            ({
                let buttons = if long_press {
                    self.longpress_action@
                } else {
                    self.actions@
                };
                match r {
                    Some(b) => button_index(buttons, button_id) < buttons.len() && *b
                        == buttons[button_index(buttons, button_id)],
                    None => button_index(buttons, button_id) == buttons.len(),
                }
            }),
    {
        if long_press {
            self.find_longpress_action(button_id)
        } else {
            self.find_button_action(button_id)
        }
    }

    /// Finds what the LED of a button shows by the button's number.
    pub fn find_led_status(&self, button_id: u8) -> (r: Option<&LedStatus>)
        ensures
            match r {
                Some(l) => led_index(self.led_status@, button_id) < self.led_status@.len() && *l
                    == self.led_status@[led_index(self.led_status@, button_id)],
                None => led_index(self.led_status@, button_id) == self.led_status@.len(),
            },
    {
        let ghost p = |l: LedStatus| l.button_id == button_id;
        let mut k: usize = 0;
        while k < self.led_status.len() && self.led_status[k].button_id != button_id
            invariant
                k <= self.led_status@.len(),
                p == |l: LedStatus| l.button_id == button_id,
                first_index(self.led_status@, p, 0) == first_index(self.led_status@, p, k as int),
            decreases self.led_status@.len() - k,
        {
            k += 1;
        }
        if k < self.led_status.len() {
            Some(&self.led_status[k])
        } else {
            None
        }
    }

    /// Gets the devices that the link is to look for: the configured
    /// devices in their order, each without a serial number.
    pub fn get_device_info(&self) -> (r: Vec<DeviceInfo>)
        ensures
            r@.len() == self.device_identifications@.len(),
            forall|i: int|
                0 <= i < r@.len() ==> (#[trigger] r@[i]).vendor_id
                    == self.device_identifications@[i].vendor_id && r@[i].product_id
                    == self.device_identifications@[i].product_id && r@[i].serial_number is None,
    {
        let mut r: Vec<DeviceInfo> = Vec::new();
        let mut i: usize = 0;
        while i < self.device_identifications.len()
            invariant
                i <= self.device_identifications@.len(),
                r@.len() == i,
                forall|j: int|
                    0 <= j < i ==> (#[trigger] r@[j]).vendor_id
                        == self.device_identifications@[j].vendor_id && r@[j].product_id
                        == self.device_identifications@[j].product_id && r@[j].serial_number
                        is None,
            decreases self.device_identifications@.len() - i,
        {
            let d = self.device_identifications[i];
            r.push(
                DeviceInfo { vendor_id: d.vendor_id, product_id: d.product_id, serial_number: None },
            );
            i += 1;
        }
        r
    }

    /// The commands that set the LEDs for the given state of the meeting:
    /// one for each LED that shows a part of that state, in the order of
    /// the configuration.
    pub fn led_commands(&self, state: &MeetingState) -> (r: Vec<SetLed>)
        ensures
            r@.len() == led_colors(self.led_status@, *state, self.led_status@.len()).len(),
            forall|i: int|
                0 <= i < r@.len() ==> (#[trigger] r@[i]).spec_id() == led_colors(
                    self.led_status@,
                    *state,
                    self.led_status@.len(),
                )[i].0 && r@[i].spec_color() == led_colors(
                    self.led_status@,
                    *state,
                    self.led_status@.len(),
                )[i].1 && r@[i].spec_counter() == 0,
    {
        let mut r: Vec<SetLed> = Vec::new();
        let mut i: usize = 0;
        while i < self.led_status.len()
            invariant
                i <= self.led_status@.len(),
                r@.len() == led_colors(self.led_status@, *state, i as nat).len(),
                forall|j: int|
                    0 <= j < r@.len() ==> (#[trigger] r@[j]).spec_id() == led_colors(
                        self.led_status@,
                        *state,
                        i as nat,
                    )[j].0 && r@[j].spec_color() == led_colors(
                        self.led_status@,
                        *state,
                        i as nat,
                    )[j].1 && r@[j].spec_counter() == 0,
            decreases self.led_status@.len() - i,
        {
            match self.led_status[i].teams_state {
                Some(config) => {
                    r.push(SetLed::new(self.led_status[i].button_id, config.led_color(state)));
                },
                None => {},
            }
            i += 1;
        }
        r
    }
}

/// With the default configuration a muted meeting makes the first LED
/// green, and an unmuted one makes it red.
pub proof fn lemma_default_mute_led(config: Config, state: MeetingState)
    requires
        is_default_config(config),
    ensures
        config.led_status@[0].teams_state->0.color_in(state) == if state.is_muted {
            LedColor::Green
        } else {
            LedColor::Red
        },
{
}

} // verus!
