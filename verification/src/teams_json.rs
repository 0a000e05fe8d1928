//! Reading the service's messages from JSON text.
//!
//! The text is parsed by `serde_json`; what it parses to is held as a tree
//! of plain values, and the message is read from that tree by the rules of
//! the protocol: every field may be absent or null, unknown fields are
//! passed over, and a field of the wrong type makes the whole message
//! unreadable.

use crate::teams_messages::{
    MeetingPermissions, MeetingState, MeetingUpdate, ServerMessage, ServerMessageModel,
};
use crate::text::{first_index, str_equals};
use vstd::prelude::*;

verus! {

/// A number of a JSON text: its value if it is a whole number that is not
/// negative, and the way it is written.
#[derive(Debug, PartialEq, Eq)]
pub struct JsonNumber {
    pub unsigned: Option<u64>,
    pub text: String,
}

/// A member of a JSON object.
#[derive(Debug, PartialEq, Eq)]
pub struct JsonMember {
    pub name: String,
    pub value: JsonValue,
}

/// A value of a JSON text.
#[derive(Debug, PartialEq, Eq)]
pub enum JsonValue {
    Null,
    Bool(bool),
    Number(JsonNumber),
    Text(String),
    Array(Vec<JsonValue>),
    Object(Vec<JsonMember>),
}

/// Why a text is not a message of the service.
#[derive(Debug, Clone, PartialEq, Eq)]
pub enum JsonError {
    /// The text is not JSON; the message is the parser's.
    Syntax(String),
    /// The text is JSON, but not an object.
    NotAnObject,
    /// A field of the message holds a value of the wrong type.
    InvalidField,
}

#[verifier::external_type_specification]
#[verifier::external_body]
pub struct ExJsonTree(serde_json::Value);

/// What a text parses to as JSON: the tree of its values, or the parser's
/// message if it is not JSON.
pub uninterp spec fn json_parsed(text: Seq<char>) -> Result<JsonValue, String>;

/// Copies a tree of `serde_json` into the library's own type, one value for
/// one: `Value::Null`, `Bool`, `Number`, `String`, `Array` and `Object` each
/// become the variant of the same kind. A number is kept with what
/// `Number::as_u64` says of it and as `Number::to_string` writes it; the
/// members of an object come in the order in which `Map::iter` gives them.
/// Nothing is claimed of the result.
#[verifier::external_body]
fn json_from_tree(tree: &serde_json::Value) -> JsonValue {
    match tree {
        serde_json::Value::Null => JsonValue::Null,
        serde_json::Value::Bool(b) => JsonValue::Bool(*b),
        serde_json::Value::Number(n) => JsonValue::Number(
            JsonNumber { unsigned: n.as_u64(), text: n.to_string() },
        ),
        serde_json::Value::String(s) => JsonValue::Text(s.clone()),
        serde_json::Value::Array(items) => JsonValue::Array(
            items.iter().map(json_from_tree).collect(),
        ),
        serde_json::Value::Object(members) => JsonValue::Object(
            members.iter().map(|(k, v)| JsonMember { name: k.clone(), value: json_from_tree(v) }).collect(),
        ),
    }
}

/// Parses a text with `serde_json::from_str`.
///
/// Believed of `serde_json`: what the parser returns depends on the text
/// alone. Nothing else is claimed: the result is named, not described.
#[verifier::external_body]
fn parse_json(text: &str) -> (r: Result<JsonValue, String>)
    ensures
        r == json_parsed(text@),
{
    match serde_json::from_str::<serde_json::Value>(text) {
        Ok(tree) => Ok(json_from_tree(&tree)),
        Err(error) => Err(error.to_string()),
    }
}

/// The value of the member with the given name: that of the first such
/// member, if there is one.
pub open spec fn member(members: Seq<JsonMember>, name: Seq<char>) -> Option<JsonValue> {
    let k = first_index(members, |m: JsonMember| m.name@ == name, 0);
    if k < members.len() {
        Some(members[k].value)
    } else {
        None
    }
}

/// What a field holds: nothing if it is absent or null.
pub open spec fn present(value: Option<JsonValue>) -> Option<JsonValue> {
    match value {
        Some(JsonValue::Null) => None,
        other => other,
    }
}

/// An optional number of 32 bits: a whole number in range, or nothing.
pub open spec fn decode_number(value: Option<JsonValue>) -> Result<Option<u32>, JsonError> {
    match present(value) {
        None => Ok(None),
        Some(JsonValue::Number(n)) => if n.unsigned is Some && n.unsigned->0 <= u32::MAX {
            Ok(Some(n.unsigned->0 as u32))
        } else {
            Err(JsonError::InvalidField)
        },
        Some(_) => Err(JsonError::InvalidField),
    }
}

/// An optional text.
pub open spec fn decode_text(value: Option<JsonValue>) -> Result<Option<Seq<char>>, JsonError> {
    match present(value) {
        None => Ok(None),
        Some(JsonValue::Text(t)) => Ok(Some(t@)),
        Some(_) => Err(JsonError::InvalidField),
    }
}

/// A flag: false if it is absent. Null is not a flag.
pub open spec fn decode_flag(value: Option<JsonValue>) -> Result<bool, JsonError> {
    match value {
        None => Ok(false),
        Some(JsonValue::Bool(b)) => Ok(b),
        Some(_) => Err(JsonError::InvalidField),
    }
}

/// The flag of the given name among the members of an object.
pub open spec fn flag(members: Seq<JsonMember>, name: Seq<char>) -> Result<bool, JsonError> {
    decode_flag(member(members, name))
}

/// Whether every flag of a meeting state can be read.
pub open spec fn state_readable(m: Seq<JsonMember>) -> bool {
    &&& flag(m, "isMuted"@) is Ok
    &&& flag(m, "isHandRaised"@) is Ok
    &&& flag(m, "isInMeeting"@) is Ok
    &&& flag(m, "isRecordingOn"@) is Ok
    &&& flag(m, "isBackgroundBlurred"@) is Ok
    &&& flag(m, "isSharing"@) is Ok
    &&& flag(m, "hasUnreadMessages"@) is Ok
    &&& flag(m, "isVideoOn"@) is Ok
}

/// The meeting state that an object holds.
pub open spec fn decode_state(value: JsonValue) -> Result<MeetingState, JsonError> {
    match value {
        JsonValue::Object(members) => {
            let m = members@;
            if state_readable(m) {
                Ok(
                    MeetingState {
                        is_muted: flag(m, "isMuted"@)->Ok_0,
                        is_hand_raised: flag(m, "isHandRaised"@)->Ok_0,
                        is_in_meeting: flag(m, "isInMeeting"@)->Ok_0,
                        is_recording_on: flag(m, "isRecordingOn"@)->Ok_0,
                        is_background_blurred: flag(m, "isBackgroundBlurred"@)->Ok_0,
                        is_sharing: flag(m, "isSharing"@)->Ok_0,
                        has_unread_messages: flag(m, "hasUnreadMessages"@)->Ok_0,
                        is_video_on: flag(m, "isVideoOn"@)->Ok_0,
                    },
                )
            } else {
                Err(JsonError::InvalidField)
            }
        },
        _ => Err(JsonError::InvalidField),
    }
}

/// Whether every flag of the meeting permissions can be read.
pub open spec fn permissions_readable(m: Seq<JsonMember>) -> bool {
    &&& flag(m, "canToggleMute"@) is Ok
    &&& flag(m, "canToggleVideo"@) is Ok
    &&& flag(m, "canToggleHand"@) is Ok
    &&& flag(m, "canToggleBlur"@) is Ok
    &&& flag(m, "canLeave"@) is Ok
    &&& flag(m, "canReact"@) is Ok
    &&& flag(m, "canToggleShareTray"@) is Ok
    &&& flag(m, "canToggleChat"@) is Ok
    &&& flag(m, "canStopSharing"@) is Ok
    &&& flag(m, "canPair"@) is Ok
}

/// The meeting permissions that an object holds.
pub open spec fn decode_permissions(value: JsonValue) -> Result<MeetingPermissions, JsonError> {
    match value {
        JsonValue::Object(members) => {
            let m = members@;
            if permissions_readable(m) {
                Ok(
                    MeetingPermissions {
                        can_toggle_mute: flag(m, "canToggleMute"@)->Ok_0,
                        can_toggle_video: flag(m, "canToggleVideo"@)->Ok_0,
                        can_toggle_hand: flag(m, "canToggleHand"@)->Ok_0,
                        can_toggle_blur: flag(m, "canToggleBlur"@)->Ok_0,
                        can_leave: flag(m, "canLeave"@)->Ok_0,
                        can_react: flag(m, "canReact"@)->Ok_0,
                        can_toggle_share_tray: flag(m, "canToggleShareTray"@)->Ok_0,
                        can_toggle_chat: flag(m, "canToggleChat"@)->Ok_0,
                        can_stop_sharing: flag(m, "canStopSharing"@)->Ok_0,
                        can_pair: flag(m, "canPair"@)->Ok_0,
                    },
                )
            } else {
                Err(JsonError::InvalidField)
            }
        },
        _ => Err(JsonError::InvalidField),
    }
}

/// The optional meeting state of a meeting update.
pub open spec fn decode_optional_state(value: Option<JsonValue>) -> Result<
    Option<MeetingState>,
    JsonError,
> {
    match present(value) {
        None => Ok(None),
        Some(v) => match decode_state(v) {
            Ok(state) => Ok(Some(state)),
            Err(e) => Err(e),
        },
    }
}

/// The optional permissions of a meeting update.
pub open spec fn decode_optional_permissions(value: Option<JsonValue>) -> Result<
    Option<MeetingPermissions>,
    JsonError,
> {
    match present(value) {
        None => Ok(None),
        Some(v) => match decode_permissions(v) {
            Ok(permissions) => Ok(Some(permissions)),
            Err(e) => Err(e),
        },
    }
}

/// The optional meeting update of a message.
pub open spec fn decode_update(value: Option<JsonValue>) -> Result<Option<MeetingUpdate>, JsonError> {
    match present(value) {
        None => Ok(None),
        Some(JsonValue::Object(members)) => {
            let permissions = decode_optional_permissions(member(members@, "meetingPermissions"@));
            let state = decode_optional_state(member(members@, "meetingState"@));
            if permissions is Ok && state is Ok {
                Ok(
                    Some(
                        MeetingUpdate {
                            meeting_permissions: permissions->Ok_0,
                            meeting_state: state->Ok_0,
                        },
                    ),
                )
            } else {
                Err(JsonError::InvalidField)
            }
        },
        Some(_) => Err(JsonError::InvalidField),
    }
}

/// The message that a JSON value holds. The value must be an object; each
/// of its known fields must be absent, null or of the field's type.
pub open spec fn decode_message(value: JsonValue) -> Result<ServerMessageModel, JsonError> {
    match value {
        JsonValue::Object(members) => {
            let m = members@;
            let request_id = decode_number(member(m, "requestId"@));
            let response = decode_text(member(m, "response"@));
            let error_msg = decode_text(member(m, "errorMsg"@));
            let token_refresh = decode_text(member(m, "tokenRefresh"@));
            let meeting_update = decode_update(member(m, "meetingUpdate"@));
            if request_id is Ok && response is Ok && error_msg is Ok && token_refresh is Ok
                && meeting_update is Ok {
                Ok(
                    ServerMessageModel {
                        request_id: request_id->Ok_0,
                        response: response->Ok_0,
                        error_msg: error_msg->Ok_0,
                        token_refresh: token_refresh->Ok_0,
                        meeting_update: meeting_update->Ok_0,
                    },
                )
            } else {
                Err(JsonError::InvalidField)
            }
        },
        _ => Err(JsonError::NotAnObject),
    }
}

/// The message that a parsed text holds.
pub open spec fn decode_parsed(parsed: Result<JsonValue, String>) -> Result<
    ServerMessageModel,
    JsonError,
> {
    match parsed {
        Ok(value) => decode_message(value),
        Err(message) => Err(JsonError::Syntax(message)),
    }
}

/// Whether a result of reading is the one that the rules give.
pub open spec fn reads_as(
    r: Result<ServerMessage, JsonError>,
    expected: Result<ServerMessageModel, JsonError>,
) -> bool {
    match r {
        Ok(message) => expected == Ok::<ServerMessageModel, JsonError>(message@),
        Err(e) => expected == Err::<ServerMessageModel, JsonError>(e),
    }
}

/// Finds the member with the given name.
fn find_member<'a>(members: &'a Vec<JsonMember>, name: &str) -> (r: Option<&'a JsonValue>)
    ensures
        match r {
            Some(value) => member(members@, name@) == Some(*value),
            None => member(members@, name@) is None,
        },
{
    let ghost p = |m: JsonMember| m.name@ == name@;
    let mut k: usize = 0;
    while k < members.len() && !str_equals(members[k].name.as_str(), name)
        invariant
            k <= members@.len(),
            p == |m: JsonMember| m.name@ == name@,
            first_index(members@, p, 0) == first_index(members@, p, k as int),
        decreases members@.len() - k,
    {
        k += 1;
    }
    if k < members.len() {
        Some(&members[k].value)
    } else {
        None
    }
}

fn read_number(value: Option<&JsonValue>) -> (r: Result<Option<u32>, JsonError>)
    ensures
        r == decode_number(
            match value {
                Some(v) => Some(*v),
                None => None,
            },
        ),
{
    match value {
        None => Ok(None),
        Some(JsonValue::Null) => Ok(None),
        Some(JsonValue::Number(n)) => match n.unsigned {
            Some(u) => if u <= u32::MAX as u64 {
                Ok(Some(u as u32))
            } else {
                Err(JsonError::InvalidField)
            },
            None => Err(JsonError::InvalidField),
        },
        Some(_) => Err(JsonError::InvalidField),
    }
}

fn read_text(value: Option<&JsonValue>) -> (r: Result<Option<String>, JsonError>)
    ensures
        match r {
            Ok(Some(t)) => decode_text(
                match value {
                    Some(v) => Some(*v),
                    None => None,
                },
            ) == Ok::<Option<Seq<char>>, JsonError>(Some(t@)),
            Ok(None) => decode_text(
                match value {
                    Some(v) => Some(*v),
                    None => None,
                },
            ) == Ok::<Option<Seq<char>>, JsonError>(None),
            Err(e) => decode_text(
                match value {
                    Some(v) => Some(*v),
                    None => None,
                },
            ) == Err::<Option<Seq<char>>, JsonError>(e),
        },
{
    match value {
        None => Ok(None),
        Some(JsonValue::Null) => Ok(None),
        Some(JsonValue::Text(t)) => Ok(Some(t.clone())),
        Some(_) => Err(JsonError::InvalidField),
    }
}

fn read_flag(members: &Vec<JsonMember>, name: &str) -> (r: Result<bool, JsonError>)
    ensures
        r == flag(members@, name@),
{
    match find_member(members, name) {
        None => Ok(false),
        Some(JsonValue::Bool(b)) => Ok(*b),
        Some(_) => Err(JsonError::InvalidField),
    }
}

fn read_state(value: &JsonValue) -> (r: Result<MeetingState, JsonError>)
    ensures
        r == decode_state(*value),
{
    match value {
        JsonValue::Object(m) => {
            let is_muted = read_flag(m, "isMuted");
            let is_hand_raised = read_flag(m, "isHandRaised");
            let is_in_meeting = read_flag(m, "isInMeeting");
            let is_recording_on = read_flag(m, "isRecordingOn");
            let is_background_blurred = read_flag(m, "isBackgroundBlurred");
            let is_sharing = read_flag(m, "isSharing");
            let has_unread_messages = read_flag(m, "hasUnreadMessages");
            let is_video_on = read_flag(m, "isVideoOn");
            match (
                is_muted,
                is_hand_raised,
                is_in_meeting,
                is_recording_on,
                is_background_blurred,
                is_sharing,
                has_unread_messages,
                is_video_on,
            ) {
                (Ok(a), Ok(b), Ok(c), Ok(d), Ok(e), Ok(f), Ok(g), Ok(h)) => Ok(
                    MeetingState {
                        is_muted: a,
                        is_hand_raised: b,
                        is_in_meeting: c,
                        is_recording_on: d,
                        is_background_blurred: e,
                        is_sharing: f,
                        has_unread_messages: g,
                        is_video_on: h,
                    },
                ),
                _ => Err(JsonError::InvalidField),
            }
        },
        _ => Err(JsonError::InvalidField),
    }
}

fn read_permissions(value: &JsonValue) -> (r: Result<MeetingPermissions, JsonError>)
    ensures
        r == decode_permissions(*value),
{
    match value {
        JsonValue::Object(m) => {
            let can_toggle_mute = read_flag(m, "canToggleMute");
            let can_toggle_video = read_flag(m, "canToggleVideo");
            let can_toggle_hand = read_flag(m, "canToggleHand");
            let can_toggle_blur = read_flag(m, "canToggleBlur");
            let can_leave = read_flag(m, "canLeave");
            let can_react = read_flag(m, "canReact");
            let can_toggle_share_tray = read_flag(m, "canToggleShareTray");
            let can_toggle_chat = read_flag(m, "canToggleChat");
            let can_stop_sharing = read_flag(m, "canStopSharing");
            let can_pair = read_flag(m, "canPair");
            match (
                can_toggle_mute,
                can_toggle_video,
                can_toggle_hand,
                can_toggle_blur,
                can_leave,
                can_react,
                can_toggle_share_tray,
                can_toggle_chat,
                can_stop_sharing,
                can_pair,
            ) {
                (Ok(a), Ok(b), Ok(c), Ok(d), Ok(e), Ok(f), Ok(g), Ok(h), Ok(i), Ok(j)) => Ok(
                    MeetingPermissions {
                        can_toggle_mute: a,
                        can_toggle_video: b,
                        can_toggle_hand: c,
                        can_toggle_blur: d,
                        can_leave: e,
                        can_react: f,
                        can_toggle_share_tray: g,
                        can_toggle_chat: h,
                        can_stop_sharing: i,
                        can_pair: j,
                    },
                ),
                _ => Err(JsonError::InvalidField),
            }
        },
        _ => Err(JsonError::InvalidField),
    }
}

fn read_update(value: Option<&JsonValue>) -> (r: Result<Option<MeetingUpdate>, JsonError>)
    ensures
        r == decode_update(
            match value {
                Some(v) => Some(*v),
                None => None,
            },
        ),
{
    match value {
        None => Ok(None),
        Some(JsonValue::Null) => Ok(None),
        Some(JsonValue::Object(m)) => {
            let permissions = match find_member(m, "meetingPermissions") {
                None => Ok(None),
                Some(JsonValue::Null) => Ok(None),
                Some(v) => match read_permissions(v) {
                    Ok(p) => Ok(Some(p)),
                    Err(e) => Err(e),
                },
            };
            let state = match find_member(m, "meetingState") {
                None => Ok(None),
                Some(JsonValue::Null) => Ok(None),
                Some(v) => match read_state(v) {
                    Ok(s) => Ok(Some(s)),
                    Err(e) => Err(e),
                },
            };
            match (permissions, state) {
                (Ok(meeting_permissions), Ok(meeting_state)) => Ok(
                    Some(MeetingUpdate { meeting_permissions, meeting_state }),
                ),
                _ => Err(JsonError::InvalidField),
            }
        },
        Some(_) => Err(JsonError::InvalidField),
    }
}

impl ServerMessage {
    /// Reads a message from a JSON value. The value must be an object;
    /// fields that are absent or null carry no information, unknown fields
    /// are passed over, and a field of the wrong type is an error.
    pub fn from_json_value(value: &JsonValue) -> (r: Result<ServerMessage, JsonError>)
        ensures
            reads_as(r, decode_message(*value)),
    {
        match value {
            JsonValue::Object(m) => {
                let request_id = read_number(find_member(m, "requestId"));
                let response = read_text(find_member(m, "response"));
                let error_msg = read_text(find_member(m, "errorMsg"));
                let token_refresh = read_text(find_member(m, "tokenRefresh"));
                let meeting_update = read_update(find_member(m, "meetingUpdate"));
                match (request_id, response, error_msg, token_refresh, meeting_update) {
                    (
                        Ok(request_id),
                        Ok(response),
                        Ok(error_msg),
                        Ok(token_refresh),
                        Ok(meeting_update),
                    ) => Ok(
                        ServerMessage {
                            request_id,
                            response,
                            error_msg,
                            token_refresh,
                            meeting_update,
                        },
                    ),
                    _ => Err(JsonError::InvalidField),
                }
            },
            _ => Err(JsonError::NotAnObject),
        }
    }

    /// Reads a message from what a text has parsed to.
    pub fn from_parsed(parsed: Result<JsonValue, String>) -> (r: Result<ServerMessage, JsonError>)
        ensures
            reads_as(r, decode_parsed(parsed)),
    {
        match parsed {
            Ok(value) => Self::from_json_value(&value),
            Err(message) => Err(JsonError::Syntax(message)),
        }
    }

    /// Reads a message from JSON text.
    pub fn from_json(text: &str) -> (r: Result<ServerMessage, JsonError>)
        ensures
            reads_as(r, decode_parsed(json_parsed(text@))),
    {
        Self::from_parsed(parse_json(text))
    }
}

/// A message in which every known field is absent or null is the empty
/// message, whatever else the object holds.
pub proof fn lemma_unknown_fields_are_passed_over(members: Seq<JsonMember>, value: JsonValue)
    requires
        value matches JsonValue::Object(m) && m@ == members,
        present(member(members, "requestId"@)) is None,
        present(member(members, "response"@)) is None,
        present(member(members, "errorMsg"@)) is None,
        present(member(members, "tokenRefresh"@)) is None,
        present(member(members, "meetingUpdate"@)) is None,
    ensures
        decode_message(value) == Ok::<ServerMessageModel, JsonError>(ServerMessageModel::empty()),
{
}

} // verus!
