use mutenix::config::{
    default_bind_address, default_bind_port, default_file_backup_count, default_file_max_size,
    default_interval, default_log_level, default_timeout, default_true, is_long_press, Config,
    LedColorConfig, LedStatus, LoggingConfig, TeamsStateConfig, TeamsStateType,
    VirtualKeypadConfig, LONG_PRESS_MILLIS,
};
use mutenix::hid_commands::{HidOutputCommand, LedColor};
use mutenix::teams_messages::{ClientMessageParameterType, MeetingAction, MeetingState};
use mutenix::types::{
    default_http_method, Action, ButtonAction, MeetingActionType, ReactionType, TeamsReact,
};

fn action(meeting_action: Option<MeetingActionType>, reaction: Option<ReactionType>) -> Action {
    Action {
        webhook: None,
        keyboard: None,
        mouse: None,
        teams_reaction: reaction.map(|reaction| TeamsReact { reaction }),
        meeting_action,
        activate_teams: false,
        command: None,
    }
}

#[test]
fn test_default_config() {
    let config = Config::default_config();
    assert_eq!(config.version, 1);
    let devices: Vec<(u16, u16)> =
        config.device_identifications.iter().map(|d| (d.vendor_id, d.product_id)).collect();
    assert_eq!(devices, vec![(7504, 24969), (7504, 24774), (4617, 1)]);
    let buttons: Vec<u8> = config.actions.iter().map(|a| a.button_id).collect();
    assert_eq!(buttons, vec![1, 2, 3, 4, 5]);
    let first = &config.find_button_action(1).unwrap().actions;
    assert_eq!(first.len(), 1);
    assert_eq!(first[0].to_teams_action(), Some(MeetingAction::ToggleMute));
    assert_eq!(first[0].to_teams_reaction(), None);
    assert!(!first[0].should_activate_teams());
    let third = &config.find_button_action(3).unwrap().actions[0];
    assert!(third.should_activate_teams());
    assert_eq!(third.to_teams_action(), None);
    let fourth = &config.find_button_action(4).unwrap().actions[0];
    assert_eq!(fourth.to_teams_reaction(), Some(ClientMessageParameterType::ReactLike));
    let fifth = &config.find_button_action(5).unwrap().actions[0];
    assert_eq!(fifth.to_teams_action(), Some(MeetingAction::LeaveCall));
    assert!(config.find_button_action(6).is_none());
    let long = config.find_longpress_action(3).unwrap();
    assert_eq!(long.actions[0].to_teams_action(), Some(MeetingAction::ToggleVideo));
    assert!(config.find_longpress_action(1).is_none());
    let leds: Vec<u8> = config.led_status.iter().map(|l| l.button_id).collect();
    assert_eq!(leds, vec![1, 2, 3, 5]);
    let led = config.find_led_status(2).unwrap();
    assert_eq!(
        led.teams_state,
        Some(TeamsStateConfig {
            teams_state: TeamsStateType::IsHandRaised,
            color_on: Some(LedColorConfig::Yellow),
            color_off: Some(LedColorConfig::Black),
        })
    );
    assert!(led.result_command.is_none() && led.color_command.is_none() && !led.webhook);
    assert!(config.find_led_status(4).is_none());
    assert_eq!(config.logging.level, "info");
    assert_eq!(config.virtual_keypad.bind_port, 12909);
    assert_eq!(config.longpress_action.len(), 1);
}

#[test]
fn test_defaults() {
    assert_eq!(default_log_level(), "info");
    assert!(default_true());
    assert_eq!(default_file_max_size(), 3145728);
    assert_eq!(default_file_backup_count(), 5);
    assert_eq!(default_bind_address(), "127.0.0.1");
    assert_eq!(default_bind_port(), 12909);
    assert_eq!(default_interval(), 5000);
    assert_eq!(default_timeout(), 500);
    assert_eq!(default_http_method(), "GET");
    let logging = LoggingConfig::default();
    assert!(logging.console_enabled && logging.file_enabled);
    assert_eq!(logging.console_level, "info");
    assert_eq!(logging.file_level, "info");
    assert_eq!(logging.file_max_size, 3145728);
    assert_eq!(logging.file_backup_count, 5);
    assert!(logging.submodules.is_empty());
    let keypad = VirtualKeypadConfig::default();
    assert_eq!(keypad.bind_address, "127.0.0.1");
}

#[test]
fn test_find_takes_the_first_of_a_number() {
    let mut config = Config::default_config();
    config.actions.push(ButtonAction {
        button_id: 2,
        actions: vec![action(Some(MeetingActionType::Mute), None)],
    });
    let found = config.find_button_action(2).unwrap();
    assert_eq!(found.actions[0].to_teams_action(), Some(MeetingAction::ToggleHand));
    assert_eq!(
        config.find_action_for(3, true).unwrap().actions[0].to_teams_action(),
        Some(MeetingAction::ToggleVideo)
    );
    assert!(config.find_action_for(3, false).unwrap().actions[0].should_activate_teams());
    assert!(config.find_action_for(1, true).is_none());
}

#[test]
fn test_device_info_from_the_configuration() {
    let info = Config::default_config().get_device_info();
    assert_eq!(info.len(), 3);
    assert_eq!((info[1].vendor_id, info[1].product_id), (7504, 24774));
    assert!(info.iter().all(|i| i.serial_number.is_none()));
}

#[test]
fn test_long_press() {
    assert_eq!(LONG_PRESS_MILLIS, 500);
    assert!(!is_long_press(0));
    assert!(!is_long_press(500));
    assert!(is_long_press(501));
}

#[test]
fn test_led_colours_follow_the_meeting() {
    let config = Config::default_config();
    let state = MeetingState { is_muted: true, is_in_meeting: true, ..Default::default() };
    let commands = config.led_commands(&state);
    let buffers: Vec<Vec<u8>> = commands.iter().map(|c| c.to_buffer()).collect();
    assert_eq!(
        buffers,
        vec![
            vec![0x01, 1, 0x00, 0x0A, 0x00, 0x00, 0, 0],
            vec![0x01, 2, 0x00, 0x00, 0x00, 0x00, 0, 0],
            vec![0x01, 3, 0x0A, 0x00, 0x00, 0x00, 0, 0],
            vec![0x01, 5, 0x00, 0x0A, 0x00, 0x00, 0, 0],
        ]
    );
    let mut config = config;
    config.led_status.insert(
        1,
        LedStatus {
            button_id: 9,
            teams_state: None,
            result_command: None,
            color_command: None,
            webhook: true,
        },
    );
    assert_eq!(config.led_commands(&MeetingState::default()).len(), 4);
}

#[test]
fn test_led_colour_defaults() {
    let config = TeamsStateConfig {
        teams_state: TeamsStateType::IsSharing,
        color_on: None,
        color_off: None,
    };
    let sharing = MeetingState { is_sharing: true, ..Default::default() };
    assert_eq!(config.led_color(&sharing), LedColor::Green);
    assert_eq!(config.led_color(&MeetingState::default()), LedColor::Black);
    let config = TeamsStateConfig {
        teams_state: TeamsStateType::HasUnreadMessages,
        color_on: Some(LedColorConfig::Purple),
        color_off: Some(LedColorConfig::Orange),
    };
    let unread = MeetingState { has_unread_messages: true, ..Default::default() };
    assert_eq!(config.led_color(&unread), LedColor::Purple);
    assert_eq!(config.led_color(&sharing), LedColor::Orange);
    for (kind, state) in [
        (TeamsStateType::IsMuted, MeetingState { is_muted: true, ..Default::default() }),
        (TeamsStateType::IsHandRaised, MeetingState { is_hand_raised: true, ..Default::default() }),
        (TeamsStateType::IsVideoOn, MeetingState { is_video_on: true, ..Default::default() }),
        (TeamsStateType::IsInMeeting, MeetingState { is_in_meeting: true, ..Default::default() }),
        (
            TeamsStateType::IsRecordingOn,
            MeetingState { is_recording_on: true, ..Default::default() },
        ),
        (
            TeamsStateType::IsBackgroundBlurred,
            MeetingState { is_background_blurred: true, ..Default::default() },
        ),
    ] {
        assert!(kind.is_active(&state));
        assert!(!kind.is_active(&MeetingState::default()));
    }
}

#[test]
fn test_configured_names() {
    for (name, colour) in [
        (LedColorConfig::Black, LedColor::Black),
        (LedColorConfig::Red, LedColor::Red),
        (LedColorConfig::Green, LedColor::Green),
        (LedColorConfig::Blue, LedColor::Blue),
        (LedColorConfig::Yellow, LedColor::Yellow),
        (LedColorConfig::Cyan, LedColor::Cyan),
        (LedColorConfig::Magenta, LedColor::Magenta),
        (LedColorConfig::White, LedColor::White),
        (LedColorConfig::Orange, LedColor::Orange),
        (LedColorConfig::Purple, LedColor::Purple),
    ] {
        assert_eq!(name.to_led_color(), colour);
    }
    for (name, action) in [
        (MeetingActionType::NoAction, MeetingAction::NoneAction),
        (MeetingActionType::QueryState, MeetingAction::QueryMeetingState),
        (MeetingActionType::Mute, MeetingAction::Mute),
        (MeetingActionType::Unmute, MeetingAction::Unmute),
        (MeetingActionType::ToggleMute, MeetingAction::ToggleMute),
        (MeetingActionType::HideVideo, MeetingAction::HideVideo),
        (MeetingActionType::ShowVideo, MeetingAction::ShowVideo),
        (MeetingActionType::ToggleVideo, MeetingAction::ToggleVideo),
        (MeetingActionType::UnblurBackground, MeetingAction::UnblurBackground),
        (MeetingActionType::BlurBackground, MeetingAction::BlurBackground),
        (MeetingActionType::ToggleBackgroundBlur, MeetingAction::ToggleBackgroundBlur),
        (MeetingActionType::LowerHand, MeetingAction::LowerHand),
        (MeetingActionType::RaiseHand, MeetingAction::RaiseHand),
        (MeetingActionType::ToggleHand, MeetingAction::ToggleHand),
        (MeetingActionType::LeaveCall, MeetingAction::LeaveCall),
        (MeetingActionType::SendReaction, MeetingAction::React),
        (MeetingActionType::ToggleUi, MeetingAction::ToggleUi),
        (MeetingActionType::StopSharing, MeetingAction::StopSharing),
    ] {
        assert_eq!(name.to_meeting_action(), action);
    }
    for (name, kind) in [
        (ReactionType::Applause, ClientMessageParameterType::ReactApplause),
        (ReactionType::Laugh, ClientMessageParameterType::ReactLaugh),
        (ReactionType::Like, ClientMessageParameterType::ReactLike),
        (ReactionType::Love, ClientMessageParameterType::ReactLove),
        (ReactionType::Wow, ClientMessageParameterType::ReactWow),
        (ReactionType::Chat, ClientMessageParameterType::ToggleUiChat),
        (ReactionType::SharingTray, ClientMessageParameterType::ToggleUiSharing),
    ] {
        assert_eq!(name.to_parameter_type(), kind);
    }
}
