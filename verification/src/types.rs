//! What a button can be configured to do.

use crate::teams_messages::{ClientMessageParameterType, MeetingAction};
use vstd::prelude::*;
use vstd::string::StringExecFns;

verus! {

/// The actions of one button.
#[derive(Debug, Clone)]
pub struct ButtonAction {
    pub button_id: u8,
    pub actions: Vec<Action>,
}

/// One action that a button triggers. Each part that is present is carried
/// out, in the order of the fields.
#[derive(Debug, Clone)]
pub struct Action {
    pub webhook: Option<WebhookAction>,
    pub keyboard: Option<Keyboard>,
    pub mouse: Option<Mouse>,
    pub teams_reaction: Option<TeamsReact>,
    pub meeting_action: Option<MeetingActionType>,
    pub activate_teams: bool,
    pub command: Option<String>,
}

impl Action {
    pub fn should_activate_teams(&self) -> (b: bool)
        ensures
            b == self.activate_teams,
    {
        self.activate_teams
    }

    /// The action for the meeting service, if the action has one.
    pub fn to_teams_action(&self) -> (r: Option<MeetingAction>)
        ensures
            r == match self.meeting_action {
                Some(a) => Some(a.spec_meeting_action()),
                None => None,
            },
    {
        match self.meeting_action {
            Some(a) => Some(a.to_meeting_action()),
            None => None,
        }
    }

    /// The reaction for the meeting service, if the action has one.
    pub fn to_teams_reaction(&self) -> (r: Option<ClientMessageParameterType>)
        ensures
            r == match self.teams_reaction {
                Some(t) => Some(t.reaction.spec_parameter_type()),
                None => None,
            },
    {
        match self.teams_reaction {
            Some(t) => Some(t.reaction.to_parameter_type()),
            None => None,
        }
    }
}

/// A header of a web request.
#[derive(Debug, Clone, PartialEq, Eq)]
pub struct Header {
    pub name: String,
    pub value: String,
}

/// A web request that an action sends.
#[derive(Debug, Clone)]
pub struct WebhookAction {
    pub url: String,
    pub method: String,
    pub headers: Vec<Header>,
    /// The body of the request as JSON text, if it has one.
    pub data: Option<String>,
}

/// The method of a web request for which none is configured.
pub fn default_http_method() -> (s: String)
    ensures
        s@ == "GET"@,
{
    String::from_str("GET")
}

/// What an action does with the keyboard.
#[derive(Debug, Clone)]
pub struct Keyboard {
    pub press: Option<Key>,
    pub release: Option<Key>,
    pub tap: Option<KeyTap>,
    pub key_type: Option<KeyType>,
}

/// A key to press or to release.
#[derive(Debug, Clone)]
pub struct Key {
    pub key: Option<String>,
}

/// A key to tap while modifiers are held.
#[derive(Debug, Clone)]
pub struct KeyTap {
    pub key: Option<String>,
    pub modifiers: Option<Vec<String>>,
}

/// A text to type.
#[derive(Debug, Clone)]
pub struct KeyType {
    pub string: Option<String>,
}

/// What an action does with the mouse.
#[derive(Debug, Clone)]
pub struct Mouse {
    pub mouse_move: Option<MousePosition>,
    pub set: Option<MousePosition>,
    pub click: Option<MouseButton>,
    pub press: Option<MouseButton>,
    pub release: Option<MouseButton>,
}

/// A position of the mouse, or a distance to move it by.
#[derive(Debug, Clone, Copy, PartialEq, Eq, Structural)]
pub struct MousePosition {
    pub x: i32,
    pub y: i32,
}

/// A button of the mouse, by its name.
#[derive(Debug, Clone)]
pub struct MouseButton {
    pub button: String,
}

/// A reaction to send to the meeting.
#[derive(Debug, Clone, Copy, PartialEq, Eq, Structural)]
pub struct TeamsReact {
    pub reaction: ReactionType,
}

/// The meeting actions as the configuration names them.
#[derive(Debug, Clone, Copy, PartialEq, Eq, Structural)]
pub enum MeetingActionType {
    NoAction,
    QueryState,
    Mute,
    Unmute,
    ToggleMute,
    HideVideo,
    ShowVideo,
    ToggleVideo,
    UnblurBackground,
    BlurBackground,
    ToggleBackgroundBlur,
    LowerHand,
    RaiseHand,
    ToggleHand,
    LeaveCall,
    SendReaction,
    ToggleUi,
    StopSharing,
}

impl MeetingActionType {
    /// The action of the service that the configured action stands for.
    pub open spec fn spec_meeting_action(self) -> MeetingAction {
        match self {
            MeetingActionType::NoAction => MeetingAction::NoneAction,
            MeetingActionType::QueryState => MeetingAction::QueryMeetingState,
            MeetingActionType::Mute => MeetingAction::Mute,
            MeetingActionType::Unmute => MeetingAction::Unmute,
            MeetingActionType::ToggleMute => MeetingAction::ToggleMute,
            MeetingActionType::HideVideo => MeetingAction::HideVideo,
            MeetingActionType::ShowVideo => MeetingAction::ShowVideo,
            MeetingActionType::ToggleVideo => MeetingAction::ToggleVideo,
            MeetingActionType::UnblurBackground => MeetingAction::UnblurBackground,
            MeetingActionType::BlurBackground => MeetingAction::BlurBackground,
            MeetingActionType::ToggleBackgroundBlur => MeetingAction::ToggleBackgroundBlur,
            MeetingActionType::LowerHand => MeetingAction::LowerHand,
            MeetingActionType::RaiseHand => MeetingAction::RaiseHand,
            MeetingActionType::ToggleHand => MeetingAction::ToggleHand,
            MeetingActionType::LeaveCall => MeetingAction::LeaveCall,
            MeetingActionType::SendReaction => MeetingAction::React,
            MeetingActionType::ToggleUi => MeetingAction::ToggleUi,
            MeetingActionType::StopSharing => MeetingAction::StopSharing,
        }
    }

    pub fn to_meeting_action(&self) -> (r: MeetingAction)
        ensures
            r == self.spec_meeting_action(),
    {
        match self {
            MeetingActionType::NoAction => MeetingAction::NoneAction,
            MeetingActionType::QueryState => MeetingAction::QueryMeetingState,
            MeetingActionType::Mute => MeetingAction::Mute,
            MeetingActionType::Unmute => MeetingAction::Unmute,
            MeetingActionType::ToggleMute => MeetingAction::ToggleMute,
            MeetingActionType::HideVideo => MeetingAction::HideVideo,
            MeetingActionType::ShowVideo => MeetingAction::ShowVideo,
            MeetingActionType::ToggleVideo => MeetingAction::ToggleVideo,
            MeetingActionType::UnblurBackground => MeetingAction::UnblurBackground,
            MeetingActionType::BlurBackground => MeetingAction::BlurBackground,
            MeetingActionType::ToggleBackgroundBlur => MeetingAction::ToggleBackgroundBlur,
            MeetingActionType::LowerHand => MeetingAction::LowerHand,
            MeetingActionType::RaiseHand => MeetingAction::RaiseHand,
            MeetingActionType::ToggleHand => MeetingAction::ToggleHand,
            MeetingActionType::LeaveCall => MeetingAction::LeaveCall,
            MeetingActionType::SendReaction => MeetingAction::React,
            MeetingActionType::ToggleUi => MeetingAction::ToggleUi,
            MeetingActionType::StopSharing => MeetingAction::StopSharing,
        }
    }
}

/// The reactions and interface parts as the configuration names them.
#[derive(Debug, Clone, Copy, PartialEq, Eq, Structural)]
pub enum ReactionType {
    Applause,
    Laugh,
    Like,
    Love,
    Wow,
    Chat,
    SharingTray,
}

impl ReactionType {
    /// The parameter of the service that the configured name stands for.
    pub open spec fn spec_parameter_type(self) -> ClientMessageParameterType {
        match self {
            ReactionType::Like => ClientMessageParameterType::ReactLike,
            ReactionType::Love => ClientMessageParameterType::ReactLove,
            ReactionType::Applause => ClientMessageParameterType::ReactApplause,
            ReactionType::Laugh => ClientMessageParameterType::ReactLaugh,
            ReactionType::Wow => ClientMessageParameterType::ReactWow,
            ReactionType::Chat => ClientMessageParameterType::ToggleUiChat,
            ReactionType::SharingTray => ClientMessageParameterType::ToggleUiSharing,
        }
    }

    pub fn to_parameter_type(&self) -> (r: ClientMessageParameterType)
        ensures
            r == self.spec_parameter_type(),
    {
        match self {
            ReactionType::Like => ClientMessageParameterType::ReactLike,
            ReactionType::Love => ClientMessageParameterType::ReactLove,
            ReactionType::Applause => ClientMessageParameterType::ReactApplause,
            ReactionType::Laugh => ClientMessageParameterType::ReactLaugh,
            ReactionType::Wow => ClientMessageParameterType::ReactWow,
            ReactionType::Chat => ClientMessageParameterType::ToggleUiChat,
            ReactionType::SharingTray => ClientMessageParameterType::ToggleUiSharing,
        }
    }
}

/// The configured actions and the actions of the service stand for each
/// other one for one: two configured actions that differ give different
/// actions of the service, and the same holds of the reactions.
pub proof fn lemma_configured_names_are_distinct(
    a: MeetingActionType,
    b: MeetingActionType,
    r: ReactionType,
    s: ReactionType,
)
    ensures
        a.spec_meeting_action() == b.spec_meeting_action() ==> a == b,
        r.spec_parameter_type() == s.spec_parameter_type() ==> r == s,
{
}

} // verus!
