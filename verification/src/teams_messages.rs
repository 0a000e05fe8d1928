//! The service message codec: the actions that the client sends to the
//! meeting service, the state that the service reports, and the rule by
//! which reports are merged.
//!
//! A report of the service is sparse: every field may be absent. Merging
//! keeps, field by field, the newer value where there is one. The two parts
//! of a meeting update are merged each for itself.

use crate::text::{decimal, push_decimal, str_equals};
use vstd::prelude::*;
use vstd::string::StringExecFns;

verus! {

/// What the user may currently do in the meeting.
#[derive(Debug, Clone, Copy, PartialEq, Eq, Structural)]
pub struct MeetingPermissions {
    pub can_toggle_mute: bool,
    pub can_toggle_video: bool,
    pub can_toggle_hand: bool,
    pub can_toggle_blur: bool,
    pub can_leave: bool,
    pub can_react: bool,
    pub can_toggle_share_tray: bool,
    pub can_toggle_chat: bool,
    pub can_stop_sharing: bool,
    pub can_pair: bool,
}

impl MeetingPermissions {
    /// The permissions with nothing allowed.
    pub open spec fn none() -> MeetingPermissions {
        MeetingPermissions {
            can_toggle_mute: false,
            can_toggle_video: false,
            can_toggle_hand: false,
            can_toggle_blur: false,
            can_leave: false,
            can_react: false,
            can_toggle_share_tray: false,
            can_toggle_chat: false,
            can_stop_sharing: false,
            can_pair: false,
        }
    }
}

impl Default for MeetingPermissions {
    fn default() -> (r: Self)
        ensures
            r == MeetingPermissions::none(),
    {
        MeetingPermissions {
            can_toggle_mute: false,
            can_toggle_video: false,
            can_toggle_hand: false,
            can_toggle_blur: false,
            can_leave: false,
            can_react: false,
            can_toggle_share_tray: false,
            can_toggle_chat: false,
            can_stop_sharing: false,
            can_pair: false,
        }
    }
}

/// The state of the current meeting.
#[derive(Debug, Clone, Copy, PartialEq, Eq, Structural)]
pub struct MeetingState {
    pub is_muted: bool,
    pub is_hand_raised: bool,
    pub is_in_meeting: bool,
    pub is_recording_on: bool,
    pub is_background_blurred: bool,
    pub is_sharing: bool,
    pub has_unread_messages: bool,
    pub is_video_on: bool,
}

impl MeetingState {
    /// The state in which nothing holds.
    pub open spec fn none() -> MeetingState {
        MeetingState {
            is_muted: false,
            is_hand_raised: false,
            is_in_meeting: false,
            is_recording_on: false,
            is_background_blurred: false,
            is_sharing: false,
            has_unread_messages: false,
            is_video_on: false,
        }
    }
}

impl Default for MeetingState {
    fn default() -> (r: Self)
        ensures
            r == MeetingState::none(),
    {
        MeetingState {
            is_muted: false,
            is_hand_raised: false,
            is_in_meeting: false,
            is_recording_on: false,
            is_background_blurred: false,
            is_sharing: false,
            has_unread_messages: false,
            is_video_on: false,
        }
    }
}

/// An update of the meeting: its state, the permissions, or both.
#[derive(Debug, Clone, Copy, PartialEq, Eq, Structural)]
pub struct MeetingUpdate {
    pub meeting_permissions: Option<MeetingPermissions>,
    pub meeting_state: Option<MeetingState>,
}

impl Default for MeetingUpdate {
    fn default() -> (r: Self)
        ensures
            r == (MeetingUpdate { meeting_permissions: None, meeting_state: None }),
    {
        MeetingUpdate { meeting_permissions: None, meeting_state: None }
    }
}

/// The newer of two optional values: the update where it is present, else
/// the base.
pub open spec fn newer<T>(base: Option<T>, update: Option<T>) -> Option<T> {
    if update is Some {
        update
    } else {
        base
    }
}

/// Two meeting updates merged: each part for itself.
pub open spec fn merge_updates(base: Option<MeetingUpdate>, update: Option<MeetingUpdate>) -> Option<
    MeetingUpdate,
> {
    match (base, update) {
        (_, None) => base,
        (None, Some(u)) => Some(u),
        (Some(b), Some(u)) => Some(
            MeetingUpdate {
                meeting_permissions: newer(b.meeting_permissions, u.meeting_permissions),
                meeting_state: newer(b.meeting_state, u.meeting_state),
            },
        ),
    }
}

/// A message of the service: a sparse record in which every field may be
/// absent.
#[derive(Debug, Clone)]
pub struct ServerMessage {
    pub request_id: Option<u32>,
    pub response: Option<String>,
    pub error_msg: Option<String>,
    pub token_refresh: Option<String>,
    pub meeting_update: Option<MeetingUpdate>,
}

/// What a message of the service holds, as plain values.
pub struct ServerMessageModel {
    pub request_id: Option<u32>,
    pub response: Option<Seq<char>>,
    pub error_msg: Option<Seq<char>>,
    pub token_refresh: Option<Seq<char>>,
    pub meeting_update: Option<MeetingUpdate>,
}

/// The text of an optional string.
pub open spec fn text_of(s: Option<String>) -> Option<Seq<char>> {
    match s {
        Some(s) => Some(s@),
        None => None,
    }
}

impl ServerMessageModel {
    /// The message without any information.
    pub open spec fn empty() -> ServerMessageModel {
        ServerMessageModel {
            request_id: None,
            response: None,
            error_msg: None,
            token_refresh: None,
            meeting_update: None,
        }
    }

    /// The base with the update merged into it: for each field the update's
    /// value where it is present, else the base's.
    pub open spec fn merged(self, update: ServerMessageModel) -> ServerMessageModel {
        ServerMessageModel {
            request_id: newer(self.request_id, update.request_id),
            response: newer(self.response, update.response),
            error_msg: newer(self.error_msg, update.error_msg),
            token_refresh: newer(self.token_refresh, update.token_refresh),
            meeting_update: merge_updates(self.meeting_update, update.meeting_update),
        }
    }
}

impl View for ServerMessage {
    type V = ServerMessageModel;

    open spec fn view(&self) -> ServerMessageModel {
        ServerMessageModel {
            request_id: self.request_id,
            response: text_of(self.response),
            error_msg: text_of(self.error_msg),
            token_refresh: text_of(self.token_refresh),
            meeting_update: self.meeting_update,
        }
    }
}

impl Default for ServerMessage {
    fn default() -> (r: Self)
        ensures
            r@ == ServerMessageModel::empty(),
    {
        ServerMessage {
            request_id: None,
            response: None,
            error_msg: None,
            token_refresh: None,
            meeting_update: None,
        }
    }
}

/// A copy of an optional string.
fn copy_text(s: &Option<String>) -> (r: Option<String>)
    ensures
        r == *s,
{
    match s {
        Some(s) => Some(s.clone()),
        None => None,
    }
}

impl ServerMessage {
    /// Merges another message into this one: every field that the other
    /// message holds replaces this one's, and the two parts of a meeting
    /// update are merged each for itself.
    pub fn merge(&mut self, other: &ServerMessage)
        ensures
            final(self)@ == old(self)@.merged(other@),
    {
        if other.request_id.is_some() {
            self.request_id = other.request_id;
        }
        if other.response.is_some() {
            self.response = copy_text(&other.response);
        }
        if other.error_msg.is_some() {
            self.error_msg = copy_text(&other.error_msg);
        }
        if other.token_refresh.is_some() {
            self.token_refresh = copy_text(&other.token_refresh);
        }
        match other.meeting_update {
            Some(update) => {
                match self.meeting_update {
                    Some(mine) => {
                        self.meeting_update = Some(
                            MeetingUpdate {
                                meeting_permissions: if update.meeting_permissions.is_some() {
                                    update.meeting_permissions
                                } else {
                                    mine.meeting_permissions
                                },
                                meeting_state: if update.meeting_state.is_some() {
                                    update.meeting_state
                                } else {
                                    mine.meeting_state
                                },
                            },
                        );
                    },
                    None => {
                        self.meeting_update = Some(update);
                    },
                }
            },
            None => {},
        }
    }

    /// A copy of the message.
    pub fn duplicate(&self) -> (r: Self)
        ensures
            r@ == self@,
    {
        ServerMessage {
            request_id: self.request_id,
            response: copy_text(&self.response),
            error_msg: copy_text(&self.error_msg),
            token_refresh: copy_text(&self.token_refresh),
            meeting_update: self.meeting_update,
        }
    }

    /// The meeting state that the message holds, or the state in which
    /// nothing holds.
    pub fn meeting_state_or_default(&self) -> (r: MeetingState)
        ensures
            r == match self.meeting_update {
                Some(MeetingUpdate { meeting_state: Some(state), .. }) => state,
                _ => MeetingState::none(),
            },
    {
        match self.meeting_update {
            Some(update) => match update.meeting_state {
                Some(state) => state,
                None => MeetingState::default(),
            },
            None => MeetingState::default(),
        }
    }
}

/// Merging is idempotent: to merge the same update a second time changes
/// nothing.
pub proof fn lemma_merge_idempotent(a: ServerMessageModel, b: ServerMessageModel)
    ensures
        a.merged(b).merged(b) == a.merged(b),
{
}

/// Merging is right-biased for each field: a field that the update holds
/// is taken from the update, and one that it lacks stays as it was. Within a
/// meeting update the same holds of each of the two parts.
pub proof fn lemma_merge_right_biased(a: ServerMessageModel, b: ServerMessageModel)
    ensures
        b.request_id is Some ==> a.merged(b).request_id == b.request_id,
        b.request_id is None ==> a.merged(b).request_id == a.request_id,
        b.response is Some ==> a.merged(b).response == b.response,
        b.response is None ==> a.merged(b).response == a.response,
        b.error_msg is Some ==> a.merged(b).error_msg == b.error_msg,
        b.error_msg is None ==> a.merged(b).error_msg == a.error_msg,
        b.token_refresh is Some ==> a.merged(b).token_refresh == b.token_refresh,
        b.token_refresh is None ==> a.merged(b).token_refresh == a.token_refresh,
        b.meeting_update is None ==> a.merged(b).meeting_update == a.meeting_update,
        b.meeting_update is Some ==> a.merged(b).meeting_update is Some,
        b.meeting_update is Some && b.meeting_update->0.meeting_state is Some ==> a.merged(
            b,
        ).meeting_update->0.meeting_state == b.meeting_update->0.meeting_state,
        b.meeting_update is Some && b.meeting_update->0.meeting_permissions is Some ==> a.merged(
            b,
        ).meeting_update->0.meeting_permissions == b.meeting_update->0.meeting_permissions,
        a.meeting_update is Some && b.meeting_update is Some
            && b.meeting_update->0.meeting_state is None ==> a.merged(
            b,
        ).meeting_update->0.meeting_state == a.meeting_update->0.meeting_state,
        a.meeting_update is Some && b.meeting_update is Some
            && b.meeting_update->0.meeting_permissions is None ==> a.merged(
            b,
        ).meeting_update->0.meeting_permissions == a.meeting_update->0.meeting_permissions,
{
}

/// Merging is associative, and the empty message is neutral on both sides:
/// a state that is built from a run of updates does not depend on how the
/// run is grouped.
pub proof fn lemma_merge_associative(
    a: ServerMessageModel,
    b: ServerMessageModel,
    c: ServerMessageModel,
)
    ensures
        a.merged(b).merged(c) == a.merged(b.merged(c)),
        a.merged(ServerMessageModel::empty()) == a,
        ServerMessageModel::empty().merged(a) == a,
{
}

/// What a reaction or a toggle of the interface refers to.
#[derive(Debug, Clone, Copy, PartialEq, Eq, Structural)]
pub enum ClientMessageParameterType {
    ReactApplause,
    ReactLaugh,
    ReactLike,
    ReactLove,
    ReactWow,
    ToggleUiChat,
    ToggleUiSharing,
}

impl ClientMessageParameterType {
    /// The name of the parameter type on the wire.
    pub open spec fn wire_name(self) -> Seq<char> {
        match self {
            ClientMessageParameterType::ReactApplause => "applause"@,
            ClientMessageParameterType::ReactLaugh => "laugh"@,
            ClientMessageParameterType::ReactLike => "like"@,
            ClientMessageParameterType::ReactLove => "love"@,
            ClientMessageParameterType::ReactWow => "wow"@,
            ClientMessageParameterType::ToggleUiChat => "chat"@,
            ClientMessageParameterType::ToggleUiSharing => "sharing-tray"@,
        }
    }

    /// The JSON text of the parameter type: its wire name as a JSON string.
    pub open spec fn json(self) -> Seq<char> {
        "\""@ + self.wire_name() + "\""@
    }

    /// Serializes the parameter type to its JSON text.
    pub fn to_json(&self) -> (s: String)
        ensures
            s@ == self.json(),
    {
        let mut s = String::from_str("\"");
        s.append(self.wire_str());
        s.append("\"");
        s
    }

    /// The name of the parameter type on the wire.
    pub fn wire_str(self) -> (s: &'static str)
        ensures
            s@ == self.wire_name(),
    {
        match self {
            ClientMessageParameterType::ReactApplause => "applause",
            ClientMessageParameterType::ReactLaugh => "laugh",
            ClientMessageParameterType::ReactLike => "like",
            ClientMessageParameterType::ReactLove => "love",
            ClientMessageParameterType::ReactWow => "wow",
            ClientMessageParameterType::ToggleUiChat => "chat",
            ClientMessageParameterType::ToggleUiSharing => "sharing-tray",
        }
    }
}

/// The parameter type that a wire name stands for.
pub open spec fn parameter_type_named(name: Seq<char>) -> Option<ClientMessageParameterType> {
    if name == "applause"@ {
        Some(ClientMessageParameterType::ReactApplause)
    } else if name == "laugh"@ {
        Some(ClientMessageParameterType::ReactLaugh)
    } else if name == "like"@ {
        Some(ClientMessageParameterType::ReactLike)
    } else if name == "love"@ {
        Some(ClientMessageParameterType::ReactLove)
    } else if name == "wow"@ {
        Some(ClientMessageParameterType::ReactWow)
    } else if name == "chat"@ {
        Some(ClientMessageParameterType::ToggleUiChat)
    } else if name == "sharing-tray"@ {
        Some(ClientMessageParameterType::ToggleUiSharing)
    } else {
        None
    }
}

impl ClientMessageParameterType {
    /// Finds the parameter type that a wire name stands for.
    pub fn from_wire_name(name: &str) -> (r: Option<ClientMessageParameterType>)
        ensures
            r == parameter_type_named(name@),
    {
        if str_equals(name, "applause") {
            Some(ClientMessageParameterType::ReactApplause)
        } else if str_equals(name, "laugh") {
            Some(ClientMessageParameterType::ReactLaugh)
        } else if str_equals(name, "like") {
            Some(ClientMessageParameterType::ReactLike)
        } else if str_equals(name, "love") {
            Some(ClientMessageParameterType::ReactLove)
        } else if str_equals(name, "wow") {
            Some(ClientMessageParameterType::ReactWow)
        } else if str_equals(name, "chat") {
            Some(ClientMessageParameterType::ToggleUiChat)
        } else if str_equals(name, "sharing-tray") {
            Some(ClientMessageParameterType::ToggleUiSharing)
        } else {
            None
        }
    }
}

/// Every parameter type is found again from its wire name: no two types
/// share a name.
pub proof fn lemma_parameter_type_names_are_distinct(kind: ClientMessageParameterType)
    ensures
        parameter_type_named(kind.wire_name()) == Some(kind),
{
    reveal_strlit("applause");
    reveal_strlit("laugh");
    reveal_strlit("like");
    reveal_strlit("love");
    reveal_strlit("wow");
    reveal_strlit("chat");
    reveal_strlit("sharing-tray");
    // Each name is told from the others by its length and its first two
    // characters.
    assert("applause"@.len() == 8 && "applause"@[0] == 'a' && "applause"@[1] == 'p');
    assert("laugh"@.len() == 5 && "laugh"@[0] == 'l' && "laugh"@[1] == 'a');
    assert("like"@.len() == 4 && "like"@[0] == 'l' && "like"@[1] == 'i');
    assert("love"@.len() == 4 && "love"@[0] == 'l' && "love"@[1] == 'o');
    assert("wow"@.len() == 3 && "wow"@[0] == 'w' && "wow"@[1] == 'o');
    assert("chat"@.len() == 4 && "chat"@[0] == 'c' && "chat"@[1] == 'h');
    assert("sharing-tray"@.len() == 12 && "sharing-tray"@[0] == 's' && "sharing-tray"@[1] == 'h');
}

/// The parameters of a client message.
#[derive(Debug, Clone, Copy, PartialEq, Eq, Structural)]
pub struct ClientMessageParameter {
    pub type_: ClientMessageParameterType,
}

/// The actions that the client can ask of the meeting service.
#[derive(Debug, Clone, Copy, PartialEq, Eq, Structural)]
pub enum MeetingAction {
    NoneAction,
    QueryMeetingState,
    Mute,
    Unmute,
    ToggleMute,
    HideVideo,
    ShowVideo,
    ToggleVideo,
    UnblurBackground,
    BlurBackground,
    ToggleBackgroundBlur,
    LowerHand,
    RaiseHand,
    ToggleHand,
    LeaveCall,
    React,
    ToggleUi,
    StopSharing,
}

impl MeetingAction {
    /// The name of the action on the wire.
    pub open spec fn wire_name(self) -> Seq<char> {
        match self {
            MeetingAction::NoneAction => "none"@,
            MeetingAction::QueryMeetingState => "query-state"@,
            MeetingAction::Mute => "mute"@,
            MeetingAction::Unmute => "unmute"@,
            MeetingAction::ToggleMute => "toggle-mute"@,
            MeetingAction::HideVideo => "hide-video"@,
            MeetingAction::ShowVideo => "show-video"@,
            MeetingAction::ToggleVideo => "toggle-video"@,
            MeetingAction::UnblurBackground => "unblur-background"@,
            MeetingAction::BlurBackground => "blur-background"@,
            MeetingAction::ToggleBackgroundBlur => "toggle-background-blur"@,
            MeetingAction::LowerHand => "lower-hand"@,
            MeetingAction::RaiseHand => "raise-hand"@,
            MeetingAction::ToggleHand => "toggle-hand"@,
            MeetingAction::LeaveCall => "leave-call"@,
            MeetingAction::React => "send-reaction"@,
            MeetingAction::ToggleUi => "toggle-ui"@,
            MeetingAction::StopSharing => "stop-sharing"@,
        }
    }

    /// The JSON text of the action: its wire name as a JSON string.
    pub open spec fn json(self) -> Seq<char> {
        "\""@ + self.wire_name() + "\""@
    }

    /// Serializes the action to its JSON text.
    pub fn to_json(&self) -> (s: String)
        ensures
            s@ == self.json(),
    {
        let mut s = String::from_str("\"");
        s.append(self.wire_str());
        s.append("\"");
        s
    }

    /// The name of the action on the wire.
    pub fn wire_str(self) -> (s: &'static str)
        ensures
            s@ == self.wire_name(),
    {
        match self {
            MeetingAction::NoneAction => "none",
            MeetingAction::QueryMeetingState => "query-state",
            MeetingAction::Mute => "mute",
            MeetingAction::Unmute => "unmute",
            MeetingAction::ToggleMute => "toggle-mute",
            MeetingAction::HideVideo => "hide-video",
            MeetingAction::ShowVideo => "show-video",
            MeetingAction::ToggleVideo => "toggle-video",
            MeetingAction::UnblurBackground => "unblur-background",
            MeetingAction::BlurBackground => "blur-background",
            MeetingAction::ToggleBackgroundBlur => "toggle-background-blur",
            MeetingAction::LowerHand => "lower-hand",
            MeetingAction::RaiseHand => "raise-hand",
            MeetingAction::ToggleHand => "toggle-hand",
            MeetingAction::LeaveCall => "leave-call",
            MeetingAction::React => "send-reaction",
            MeetingAction::ToggleUi => "toggle-ui",
            MeetingAction::StopSharing => "stop-sharing",
        }
    }
}

/// The action that a wire name stands for.
pub open spec fn action_named(name: Seq<char>) -> Option<MeetingAction> {
    if name == "none"@ {
        Some(MeetingAction::NoneAction)
    } else if name == "query-state"@ {
        Some(MeetingAction::QueryMeetingState)
    } else if name == "mute"@ {
        Some(MeetingAction::Mute)
    } else if name == "unmute"@ {
        Some(MeetingAction::Unmute)
    } else if name == "toggle-mute"@ {
        Some(MeetingAction::ToggleMute)
    } else if name == "hide-video"@ {
        Some(MeetingAction::HideVideo)
    } else if name == "show-video"@ {
        Some(MeetingAction::ShowVideo)
    } else if name == "toggle-video"@ {
        Some(MeetingAction::ToggleVideo)
    } else if name == "unblur-background"@ {
        Some(MeetingAction::UnblurBackground)
    } else if name == "blur-background"@ {
        Some(MeetingAction::BlurBackground)
    } else if name == "toggle-background-blur"@ {
        Some(MeetingAction::ToggleBackgroundBlur)
    } else if name == "lower-hand"@ {
        Some(MeetingAction::LowerHand)
    } else if name == "raise-hand"@ {
        Some(MeetingAction::RaiseHand)
    } else if name == "toggle-hand"@ {
        Some(MeetingAction::ToggleHand)
    } else if name == "leave-call"@ {
        Some(MeetingAction::LeaveCall)
    } else if name == "send-reaction"@ {
        Some(MeetingAction::React)
    } else if name == "toggle-ui"@ {
        Some(MeetingAction::ToggleUi)
    } else if name == "stop-sharing"@ {
        Some(MeetingAction::StopSharing)
    } else {
        None
    }
}

impl MeetingAction {
    /// Finds the action that a wire name stands for.
    pub fn from_wire_name(name: &str) -> (r: Option<MeetingAction>)
        ensures
            r == action_named(name@),
    {
        if str_equals(name, "none") {
            Some(MeetingAction::NoneAction)
        } else if str_equals(name, "query-state") {
            Some(MeetingAction::QueryMeetingState)
        } else if str_equals(name, "mute") {
            Some(MeetingAction::Mute)
        } else if str_equals(name, "unmute") {
            Some(MeetingAction::Unmute)
        } else if str_equals(name, "toggle-mute") {
            Some(MeetingAction::ToggleMute)
        } else if str_equals(name, "hide-video") {
            Some(MeetingAction::HideVideo)
        } else if str_equals(name, "show-video") {
            Some(MeetingAction::ShowVideo)
        } else if str_equals(name, "toggle-video") {
            Some(MeetingAction::ToggleVideo)
        } else if str_equals(name, "unblur-background") {
            Some(MeetingAction::UnblurBackground)
        } else if str_equals(name, "blur-background") {
            Some(MeetingAction::BlurBackground)
        } else if str_equals(name, "toggle-background-blur") {
            Some(MeetingAction::ToggleBackgroundBlur)
        } else if str_equals(name, "lower-hand") {
            Some(MeetingAction::LowerHand)
        } else if str_equals(name, "raise-hand") {
            Some(MeetingAction::RaiseHand)
        } else if str_equals(name, "toggle-hand") {
            Some(MeetingAction::ToggleHand)
        } else if str_equals(name, "leave-call") {
            Some(MeetingAction::LeaveCall)
        } else if str_equals(name, "send-reaction") {
            Some(MeetingAction::React)
        } else if str_equals(name, "toggle-ui") {
            Some(MeetingAction::ToggleUi)
        } else if str_equals(name, "stop-sharing") {
            Some(MeetingAction::StopSharing)
        } else {
            None
        }
    }
}

/// Every action is found again from its wire name: no two actions share a
/// name.
pub proof fn lemma_action_names_are_distinct(action: MeetingAction)
    ensures
        action_named(action.wire_name()) == Some(action),
{
    reveal_strlit("none");
    reveal_strlit("query-state");
    reveal_strlit("mute");
    reveal_strlit("unmute");
    reveal_strlit("toggle-mute");
    reveal_strlit("hide-video");
    reveal_strlit("show-video");
    reveal_strlit("toggle-video");
    reveal_strlit("unblur-background");
    reveal_strlit("blur-background");
    reveal_strlit("toggle-background-blur");
    reveal_strlit("lower-hand");
    reveal_strlit("raise-hand");
    reveal_strlit("toggle-hand");
    reveal_strlit("leave-call");
    reveal_strlit("send-reaction");
    reveal_strlit("toggle-ui");
    reveal_strlit("stop-sharing");
    // Each name is told from the others by its length, its first two
    // characters and its eighth.
    assert("none"@.len() == 4 && "none"@[0] == 'n' && "none"@[1] == 'o');
    assert("query-state"@.len() == 11 && "query-state"@[0] == 'q' && "query-state"@[1] == 'u' && "query-state"@[7] == 't');
    assert("mute"@.len() == 4 && "mute"@[0] == 'm' && "mute"@[1] == 'u');
    assert("unmute"@.len() == 6 && "unmute"@[0] == 'u' && "unmute"@[1] == 'n');
    assert("toggle-mute"@.len() == 11 && "toggle-mute"@[0] == 't' && "toggle-mute"@[1] == 'o' && "toggle-mute"@[7] == 'm');
    assert("hide-video"@.len() == 10 && "hide-video"@[0] == 'h' && "hide-video"@[1] == 'i' && "hide-video"@[7] == 'd');
    assert("show-video"@.len() == 10 && "show-video"@[0] == 's' && "show-video"@[1] == 'h' && "show-video"@[7] == 'd');
    assert("toggle-video"@.len() == 12 && "toggle-video"@[0] == 't' && "toggle-video"@[1] == 'o' && "toggle-video"@[7] == 'v');
    assert("unblur-background"@.len() == 17 && "unblur-background"@[0] == 'u' && "unblur-background"@[1] == 'n' && "unblur-background"@[7] == 'b');
    assert("blur-background"@.len() == 15 && "blur-background"@[0] == 'b' && "blur-background"@[1] == 'l' && "blur-background"@[7] == 'c');
    assert("toggle-background-blur"@.len() == 22 && "toggle-background-blur"@[0] == 't' && "toggle-background-blur"@[1] == 'o' && "toggle-background-blur"@[7] == 'b');
    assert("lower-hand"@.len() == 10 && "lower-hand"@[0] == 'l' && "lower-hand"@[1] == 'o' && "lower-hand"@[7] == 'a');
    assert("raise-hand"@.len() == 10 && "raise-hand"@[0] == 'r' && "raise-hand"@[1] == 'a' && "raise-hand"@[7] == 'a');
    assert("toggle-hand"@.len() == 11 && "toggle-hand"@[0] == 't' && "toggle-hand"@[1] == 'o' && "toggle-hand"@[7] == 'h');
    assert("leave-call"@.len() == 10 && "leave-call"@[0] == 'l' && "leave-call"@[1] == 'e' && "leave-call"@[7] == 'a');
    assert("send-reaction"@.len() == 13 && "send-reaction"@[0] == 's' && "send-reaction"@[1] == 'e' && "send-reaction"@[7] == 'a');
    assert("toggle-ui"@.len() == 9 && "toggle-ui"@[0] == 't' && "toggle-ui"@[1] == 'o' && "toggle-ui"@[7] == 'u');
    assert("stop-sharing"@.len() == 12 && "stop-sharing"@[0] == 's' && "stop-sharing"@[1] == 't' && "stop-sharing"@[7] == 'a');
}

/// The source of request ids: a counter that every client message draws
/// from. The ids serve the caller's own correlation only.
#[derive(Debug)]
pub struct RequestIdCounter {
    next: u32,
}

impl View for RequestIdCounter {
    type V = u32;

    /// The id that the next message gets.
    closed spec fn view(&self) -> u32 {
        self.next
    }
}

/// The id that follows another: one more, and zero after the largest.
pub open spec fn following_id(id: u32) -> u32 {
    if id == u32::MAX {
        0
    } else {
        (id + 1) as u32
    }
}

impl RequestIdCounter {
    /// A counter that starts at zero.
    pub fn new() -> (r: Self)
        ensures
            r@ == 0,
    {
        RequestIdCounter { next: 0 }
    }

    /// A counter that starts at the given id.
    pub fn starting_at(next: u32) -> (r: Self)
        ensures
            r@ == next,
    {
        RequestIdCounter { next }
    }

    /// Draws an id: the counter's value, which then moves on by one.
    pub fn draw(&mut self) -> (id: u32)
        ensures
            id == old(self)@,
            final(self)@ == following_id(old(self)@),
    {
        let id = self.next;
        self.next = id.wrapping_add(1);
        id
    }
}

/// A message from the client to the meeting service.
#[derive(Debug, Clone, Copy, PartialEq, Eq, Structural)]
pub struct ClientMessage {
    pub action: MeetingAction,
    pub parameters: Option<ClientMessageParameter>,
    pub request_id: u32,
}

impl ClientMessage {
    /// Creates a client message with the next request id of the counter.
    pub fn create(
        counter: &mut RequestIdCounter,
        action: MeetingAction,
        parameters: Option<ClientMessageParameter>,
    ) -> (r: Self)
        ensures
            r == (ClientMessage { action, parameters, request_id: old(counter)@ }),
            final(counter)@ == following_id(old(counter)@),
    {
        let request_id = counter.draw();
        ClientMessage { action, parameters, request_id }
    }

    /// Creates a message for an action without parameters.
    pub fn action(counter: &mut RequestIdCounter, action: MeetingAction) -> (r: Self)
        ensures
            r == (ClientMessage { action, parameters: None, request_id: old(counter)@ }),
            final(counter)@ == following_id(old(counter)@),
    {
        Self::create(counter, action, None)
    }

    /// Creates a message that sends a reaction.
    pub fn reaction(counter: &mut RequestIdCounter, reaction_type: ClientMessageParameterType) -> (r:
        Self)
        ensures
            r == (ClientMessage {
                action: MeetingAction::React,
                parameters: Some(ClientMessageParameter { type_: reaction_type }),
                request_id: old(counter)@,
            }),
            final(counter)@ == following_id(old(counter)@),
    {
        Self::create(
            counter,
            MeetingAction::React,
            Some(ClientMessageParameter { type_: reaction_type }),
        )
    }

    /// Creates a message that toggles a part of the interface.
    pub fn toggle_ui(counter: &mut RequestIdCounter, ui_type: ClientMessageParameterType) -> (r:
        Self)
        ensures
            r == (ClientMessage {
                action: MeetingAction::ToggleUi,
                parameters: Some(ClientMessageParameter { type_: ui_type }),
                request_id: old(counter)@,
            }),
            final(counter)@ == following_id(old(counter)@),
    {
        Self::create(counter, MeetingAction::ToggleUi, Some(ClientMessageParameter { type_: ui_type }))
    }

    /// The JSON text of the message: the action under its wire name, the
    /// parameters if there are any, and the request id.
    pub open spec fn json(self) -> Seq<char> {
        "{\"action\":\""@ + self.action.wire_name() + "\""@ + match self.parameters {
            Some(p) => ",\"parameters\":{\"type\":\""@ + p.type_.wire_name() + "\"}"@,
            None => Seq::empty(),
        } + ",\"requestId\":"@ + decimal(self.request_id as nat) + "}"@
    }

    /// Serializes the message to its JSON text.
    pub fn to_json(&self) -> (s: String)
        ensures
            s@ == self.json(),
    {
        let mut s = String::from_str("{\"action\":\"");
        s.append(self.action.wire_str());
        s.append("\"");
        if let Some(p) = self.parameters {
            s.append(",\"parameters\":{\"type\":\"");
            s.append(p.type_.wire_str());
            s.append("\"}");
        }
        s.append(",\"requestId\":");
        push_decimal(&mut s, self.request_id as u64);
        s.append("}");
        s
    }
}

/// Two messages that are created one after the other carry increasing
/// request ids, unless the counter has reached its end in between.
pub proof fn lemma_request_ids_increase(first: u32)
    requires
        first < u32::MAX,
    ensures
        following_id(first) > first,
        following_id(first) == first + 1,
{
}

} // verus!
