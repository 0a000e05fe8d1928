use mutenix::state::{ConnectionState, TeamsState};
use mutenix::teams_json::{JsonError, JsonMember, JsonNumber, JsonValue};
use mutenix::teams_messages::{
    ClientMessage, ClientMessageParameter, ClientMessageParameterType, MeetingAction,
    MeetingPermissions, MeetingState, MeetingUpdate, RequestIdCounter, ServerMessage,
};

#[test]
fn integration_tests_test_server_message_deserialization() {
    let json = r#"{
        "requestId": 1,
        "response": "success",
        "meetingUpdate": {
            "meetingState": {
                "isMuted": true,
                "isInMeeting": true,
                "isHandRaised": false,
                "isRecordingOn": false,
                "isBackgroundBlurred": false,
                "isSharing": false,
                "hasUnreadMessages": true,
                "isVideoOn": false
            },
            "meetingPermissions": {
                "canToggleMute": true,
                "canToggleVideo": true,
                "canToggleHand": true,
                "canToggleBlur": false,
                "canLeave": true,
                "canReact": true,
                "canToggleShareTray": false,
                "canToggleChat": true,
                "canStopSharing": false,
                "canPair": false
            }
        }
    }"#;

    let message: ServerMessage = ServerMessage::from_json(json).unwrap();

    assert_eq!(message.request_id, Some(1));
    assert_eq!(message.response, Some("success".to_string()));

    let update = message.meeting_update.unwrap();
    let state = update.meeting_state.unwrap();
    assert!(state.is_muted);
    assert!(state.is_in_meeting);
    assert!(!state.is_hand_raised);
    assert!(state.has_unread_messages);

    let permissions = update.meeting_permissions.unwrap();
    assert!(permissions.can_toggle_mute);
    assert!(permissions.can_leave);
    assert!(!permissions.can_toggle_blur);
}

#[test]
fn integration_tests_test_client_message_serialization() {
    let mut counter = RequestIdCounter::new();
    let message = ClientMessage::create(&mut counter, MeetingAction::ToggleMute, None);
    let json = message.to_json();

    assert!(json.contains("\"action\":\"toggle-mute\""));
    assert!(json.contains("\"requestId\":"));
}

#[test]
fn test_client_message_with_parameters() {
    let mut counter = RequestIdCounter::new();
    let message = ClientMessage::reaction(&mut counter, ClientMessageParameterType::ReactLike);
    let json = message.to_json();

    assert!(json.contains("\"action\":\"send-reaction\""));
    assert!(json.contains("\"parameters\""));
    assert!(json.contains("\"type\":\"like\""));
}

#[test]
fn test_meeting_action_serialization() {
    let actions = vec![
        (MeetingAction::Mute, "\"mute\""),
        (MeetingAction::Unmute, "\"unmute\""),
        (MeetingAction::ToggleMute, "\"toggle-mute\""),
        (MeetingAction::RaiseHand, "\"raise-hand\""),
        (MeetingAction::LowerHand, "\"lower-hand\""),
        (MeetingAction::LeaveCall, "\"leave-call\""),
        (MeetingAction::QueryMeetingState, "\"query-state\""),
        (MeetingAction::ToggleBackgroundBlur, "\"toggle-background-blur\""),
    ];

    for (action, expected_json) in actions {
        let json = action.to_json();
        assert_eq!(json, expected_json);
    }
}

#[test]
fn integration_tests_test_state_management() {
    let mut state = TeamsState::new();

    // Initial state
    assert_eq!(state.connection_status(), ConnectionState::Disconnected);

    // Update state
    state.set_connection_status(ConnectionState::Connected);
    assert_eq!(state.connection_status(), ConnectionState::Connected);

    // Test message state updates
    let message = ServerMessage {
        request_id: Some(1),
        response: Some("test".to_string()),
        error_msg: None,
        token_refresh: None,
        meeting_update: Some(MeetingUpdate {
            meeting_state: Some(MeetingState {
                is_muted: true,
                is_in_meeting: true,
                ..Default::default()
            }),
            meeting_permissions: None,
        }),
    };

    state.update_state(&message);
    let current_state = state.state();

    assert_eq!(current_state.request_id, Some(1));
    assert!(current_state.meeting_update.is_some());

    if let Some(update) = current_state.meeting_update {
        if let Some(meeting_state) = update.meeting_state {
            assert!(meeting_state.is_muted);
            assert!(meeting_state.is_in_meeting);
        }
    }
}

#[test]
fn integration_tests_test_server_message_merge() {
    let mut msg1 = ServerMessage {
        request_id: Some(1),
        response: Some("response1".to_string()),
        error_msg: None,
        token_refresh: None,
        meeting_update: Some(MeetingUpdate {
            meeting_state: Some(MeetingState {
                is_muted: true,
                ..Default::default()
            }),
            meeting_permissions: None,
        }),
    };

    let msg2 = ServerMessage {
        request_id: Some(2),
        response: Some("response2".to_string()),
        error_msg: Some("error".to_string()),
        token_refresh: None,
        meeting_update: Some(MeetingUpdate {
            meeting_state: Some(MeetingState {
                is_hand_raised: true,
                ..Default::default()
            }),
            meeting_permissions: Some(MeetingPermissions {
                can_toggle_mute: true,
                ..Default::default()
            }),
        }),
    };

    msg1.merge(&msg2);

    assert_eq!(msg1.request_id, Some(2));
    assert_eq!(msg1.response, Some("response2".to_string()));
    assert_eq!(msg1.error_msg, Some("error".to_string()));

    if let Some(update) = msg1.meeting_update {
        assert!(update.meeting_state.is_some());
        assert!(update.meeting_permissions.is_some());
    }
}

#[test]
fn test_request_id_counter() {
    let mut counter = RequestIdCounter::new();
    let msg1 = ClientMessage::action(&mut counter, MeetingAction::Mute);
    let msg2 = ClientMessage::action(&mut counter, MeetingAction::Unmute);
    let msg3 = ClientMessage::action(&mut counter, MeetingAction::RaiseHand);

    // Request IDs should be unique and incrementing
    assert!(msg2.request_id > msg1.request_id);
    assert!(msg3.request_id > msg2.request_id);
}

#[test]
fn test_default_values() {
    let permissions = MeetingPermissions::default();
    assert!(!permissions.can_toggle_mute);
    assert!(!permissions.can_leave);

    let state = MeetingState::default();
    assert!(!state.is_muted);
    assert!(!state.is_in_meeting);
    assert!(!state.is_hand_raised);
}

fn sample(
    request_id: Option<u32>,
    response: Option<&str>,
    state: Option<bool>,
    permissions: Option<bool>,
    with_update: bool,
) -> ServerMessage {
    ServerMessage {
        request_id,
        response: response.map(|s| s.to_string()),
        error_msg: None,
        token_refresh: response.map(|s| format!("{}-token", s)),
        meeting_update: if with_update {
            Some(MeetingUpdate {
                meeting_state: state.map(|b| MeetingState {
                    is_muted: b,
                    ..Default::default()
                }),
                meeting_permissions: permissions.map(|b| MeetingPermissions {
                    can_leave: b,
                    ..Default::default()
                }),
            })
        } else {
            None
        },
    }
}

fn same(a: &ServerMessage, b: &ServerMessage) -> bool {
    a.request_id == b.request_id
        && a.response == b.response
        && a.error_msg == b.error_msg
        && a.token_refresh == b.token_refresh
        && a.meeting_update == b.meeting_update
}

#[test]
fn test_merge_is_right_biased_and_idempotent() {
    let samples = vec![
        sample(None, None, None, None, false),
        sample(Some(1), Some("a"), Some(true), None, true),
        sample(Some(2), None, None, Some(true), true),
        sample(None, Some("b"), Some(false), Some(false), true),
        sample(Some(3), Some("c"), None, None, true),
        sample(Some(4), None, None, None, false),
    ];
    for a in &samples {
        for b in &samples {
            let mut once = a.duplicate();
            once.merge(b);
            let mut twice = once.duplicate();
            twice.merge(b);
            assert!(same(&once, &twice));
            assert_eq!(once.request_id, b.request_id.or(a.request_id));
            assert_eq!(once.response, b.response.clone().or(a.response.clone()));
            let a_state = a.meeting_update.and_then(|u| u.meeting_state);
            let b_state = b.meeting_update.and_then(|u| u.meeting_state);
            let a_perm = a.meeting_update.and_then(|u| u.meeting_permissions);
            let b_perm = b.meeting_update.and_then(|u| u.meeting_permissions);
            assert_eq!(once.meeting_update.and_then(|u| u.meeting_state), b_state.or(a_state));
            assert_eq!(
                once.meeting_update.and_then(|u| u.meeting_permissions),
                b_perm.or(a_perm)
            );
            assert_eq!(
                once.meeting_update.is_some(),
                a.meeting_update.is_some() || b.meeting_update.is_some()
            );
        }
    }
}

#[test]
fn test_update_with_state_only_keeps_permissions() {
    let mut base = sample(Some(1), None, Some(true), Some(true), true);
    let update = sample(None, None, Some(false), None, true);
    base.merge(&update);
    let merged = base.meeting_update.unwrap();
    assert_eq!(merged.meeting_state.unwrap().is_muted, false);
    assert_eq!(merged.meeting_permissions.unwrap().can_leave, true);
    assert_eq!(base.request_id, Some(1));
}

#[test]
fn test_every_action_has_its_wire_name() {
    let names = [
        (MeetingAction::NoneAction, "none"),
        (MeetingAction::QueryMeetingState, "query-state"),
        (MeetingAction::Mute, "mute"),
        (MeetingAction::Unmute, "unmute"),
        (MeetingAction::ToggleMute, "toggle-mute"),
        (MeetingAction::HideVideo, "hide-video"),
        (MeetingAction::ShowVideo, "show-video"),
        (MeetingAction::ToggleVideo, "toggle-video"),
        (MeetingAction::UnblurBackground, "unblur-background"),
        (MeetingAction::BlurBackground, "blur-background"),
        (MeetingAction::ToggleBackgroundBlur, "toggle-background-blur"),
        (MeetingAction::LowerHand, "lower-hand"),
        (MeetingAction::RaiseHand, "raise-hand"),
        (MeetingAction::ToggleHand, "toggle-hand"),
        (MeetingAction::LeaveCall, "leave-call"),
        (MeetingAction::React, "send-reaction"),
        (MeetingAction::ToggleUi, "toggle-ui"),
        (MeetingAction::StopSharing, "stop-sharing"),
    ];
    for (action, name) in names {
        assert_eq!(action.wire_str(), name);
        assert_eq!(MeetingAction::from_wire_name(name), Some(action));
    }
    assert_eq!(MeetingAction::from_wire_name("Mute"), None);
    assert_eq!(MeetingAction::from_wire_name("toggle_mute"), None);
    assert_eq!(MeetingAction::from_wire_name(""), None);
    let types = [
        (ClientMessageParameterType::ReactApplause, "applause"),
        (ClientMessageParameterType::ReactLaugh, "laugh"),
        (ClientMessageParameterType::ReactLike, "like"),
        (ClientMessageParameterType::ReactLove, "love"),
        (ClientMessageParameterType::ReactWow, "wow"),
        (ClientMessageParameterType::ToggleUiChat, "chat"),
        (ClientMessageParameterType::ToggleUiSharing, "sharing-tray"),
    ];
    assert_eq!(ClientMessageParameterType::from_wire_name("sharing"), None);
    for (kind, name) in types {
        assert_eq!(kind.wire_str(), name);
        assert_eq!(ClientMessageParameterType::from_wire_name(name), Some(kind));
        assert_eq!(kind.to_json(), format!("\"{}\"", name));
    }
}

#[test]
fn test_client_message_exact_json() {
    let mut counter = RequestIdCounter::starting_at(41);
    let message = ClientMessage::action(&mut counter, MeetingAction::ToggleMute);
    assert_eq!(message.to_json(), "{\"action\":\"toggle-mute\",\"requestId\":41}");
    let message = ClientMessage::toggle_ui(&mut counter, ClientMessageParameterType::ToggleUiSharing);
    assert_eq!(
        message.to_json(),
        "{\"action\":\"toggle-ui\",\"parameters\":{\"type\":\"sharing-tray\"},\"requestId\":42}"
    );
    // The text is JSON that a parser reads back.
    let parsed: serde_json::Value = serde_json::from_str(&message.to_json()).unwrap();
    assert_eq!(parsed["action"], "toggle-ui");
    assert_eq!(parsed["parameters"]["type"], "sharing-tray");
    assert_eq!(parsed["requestId"], 42);
    let message = ClientMessage {
        action: MeetingAction::NoneAction,
        parameters: Some(ClientMessageParameter { type_: ClientMessageParameterType::ReactWow }),
        request_id: u32::MAX,
    };
    assert_eq!(
        message.to_json(),
        "{\"action\":\"none\",\"parameters\":{\"type\":\"wow\"},\"requestId\":4294967295}"
    );
}

#[test]
fn test_two_actions_share_the_name_and_not_the_id() {
    let mut counter = RequestIdCounter::new();
    let first = ClientMessage::action(&mut counter, MeetingAction::ToggleMute);
    let second = ClientMessage::action(&mut counter, MeetingAction::ToggleMute);
    assert!(second.request_id > first.request_id);
    assert_eq!((first.request_id, second.request_id), (0, 1));
    assert_eq!(first.action.to_json(), "\"toggle-mute\"");
    assert_eq!(first.action.to_json(), second.action.to_json());
}

#[test]
fn test_request_id_wraps_at_the_end() {
    let mut counter = RequestIdCounter::starting_at(u32::MAX);
    assert_eq!(counter.draw(), u32::MAX);
    assert_eq!(counter.draw(), 0);
    assert_eq!(counter.draw(), 1);
}

#[test]
fn test_server_message_shapes() {
    assert_eq!(ServerMessage::from_json("[]").unwrap_err(), JsonError::NotAnObject);
    assert_eq!(ServerMessage::from_json("null").unwrap_err(), JsonError::NotAnObject);
    assert_eq!(ServerMessage::from_json("17").unwrap_err(), JsonError::NotAnObject);
    assert!(matches!(ServerMessage::from_json("{"), Err(JsonError::Syntax(_))));
    assert!(matches!(ServerMessage::from_json(""), Err(JsonError::Syntax(_))));
    for text in [
        r#"{"requestId": "1"}"#,
        r#"{"requestId": -1}"#,
        r#"{"requestId": 1.5}"#,
        r#"{"requestId": 4294967296}"#,
        r#"{"response": 5}"#,
        r#"{"errorMsg": []}"#,
        r#"{"tokenRefresh": true}"#,
        r#"{"meetingUpdate": 1}"#,
        r#"{"meetingUpdate": {"meetingState": 1}}"#,
        r#"{"meetingUpdate": {"meetingState": {"isMuted": 1}}}"#,
        r#"{"meetingUpdate": {"meetingState": {"isMuted": null}}}"#,
        r#"{"meetingUpdate": {"meetingPermissions": {"canPair": "yes"}}}"#,
    ] {
        assert_eq!(ServerMessage::from_json(text).unwrap_err(), JsonError::InvalidField);
    }
    let message = ServerMessage::from_json(
        r#"{"requestId": 4294967295, "response": null, "other": [1, {"a": 2}],
            "meetingUpdate": {"meetingState": {}, "meetingPermissions": null, "x": 1}}"#,
    )
    .unwrap();
    assert_eq!(message.request_id, Some(u32::MAX));
    assert_eq!(message.response, None);
    let update = message.meeting_update.unwrap();
    assert_eq!(update.meeting_state, Some(MeetingState::default()));
    assert_eq!(update.meeting_permissions, None);
    let message = ServerMessage::from_json("{}").unwrap();
    assert!(message.request_id.is_none() && message.meeting_update.is_none());
    let message = ServerMessage::from_json(r#"{"meetingUpdate": {}}"#).unwrap();
    assert_eq!(
        message.meeting_update,
        Some(MeetingUpdate { meeting_permissions: None, meeting_state: None })
    );
    let message = ServerMessage::from_json(r#"{"tokenRefresh": "täst \"x\""}"#).unwrap();
    assert_eq!(message.token_refresh, Some("täst \"x\"".to_string()));
}

#[test]
fn test_message_from_a_tree_built_by_hand() {
    let member = |name: &str, value: JsonValue| JsonMember { name: name.to_string(), value };
    let tree = JsonValue::Object(vec![
        member(
            "requestId",
            JsonValue::Number(JsonNumber { unsigned: Some(7), text: "7".to_string() }),
        ),
        member("errorMsg", JsonValue::Text("bad".to_string())),
        member("response", JsonValue::Null),
        member(
            "meetingUpdate",
            JsonValue::Object(vec![member(
                "meetingPermissions",
                JsonValue::Object(vec![
                    member("canReact", JsonValue::Bool(true)),
                    member("unknown", JsonValue::Array(vec![JsonValue::Null])),
                ]),
            )]),
        ),
    ]);
    let message = ServerMessage::from_json_value(&tree).unwrap();
    assert_eq!(message.request_id, Some(7));
    assert_eq!(message.error_msg, Some("bad".to_string()));
    assert_eq!(message.response, None);
    let permissions = message.meeting_update.unwrap().meeting_permissions.unwrap();
    assert!(permissions.can_react && !permissions.can_leave);
    // The first of two members of one name counts.
    let tree = JsonValue::Object(vec![
        member("response", JsonValue::Text("first".to_string())),
        member("response", JsonValue::Bool(true)),
    ]);
    assert_eq!(
        ServerMessage::from_json_value(&tree).unwrap().response,
        Some("first".to_string())
    );
    let number = JsonValue::Number(JsonNumber { unsigned: None, text: "-3".to_string() });
    let tree = JsonValue::Object(vec![member("requestId", number)]);
    assert_eq!(ServerMessage::from_json_value(&tree).unwrap_err(), JsonError::InvalidField);
    assert_eq!(
        ServerMessage::from_json_value(&JsonValue::Text("x".to_string())).unwrap_err(),
        JsonError::NotAnObject
    );
    assert_eq!(
        ServerMessage::from_parsed(Err("broken".to_string())).unwrap_err(),
        JsonError::Syntax("broken".to_string())
    );
}

#[test]
fn test_meeting_state_or_default() {
    let message = sample(None, None, Some(true), None, true);
    assert!(message.meeting_state_or_default().is_muted);
    let message = sample(None, None, None, Some(true), true);
    assert_eq!(message.meeting_state_or_default(), MeetingState::default());
    assert_eq!(ServerMessage::default().meeting_state_or_default(), MeetingState::default());
    assert_eq!(MeetingUpdate::default().meeting_state, None);
}
