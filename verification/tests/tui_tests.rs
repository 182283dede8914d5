use rustyroom::audio::AudioDeviceInfo;
use rustyroom::resc::{ChannelInfo, ChannelType, MessageType, ServerInfo, ServerWithChannels, UserStatus};
use rustyroom::tui_state::{
    clock_label, react_to_message, server_host, ChatMessageType, Key, KeyAction, Notification, NotificationType,
    TuiChatClient, UIUpdate,
};
use rustyroom::resc::Message;

fn device(name: &str, is_default: bool) -> AudioDeviceInfo {
    AudioDeviceInfo { name: name.to_string(), is_input: true, is_default }
}

fn channel(id: u16, server_id: u16, name: &str, t: ChannelType) -> ChannelInfo {
    ChannelInfo {
        id,
        server_id,
        name: name.to_string(),
        description: String::new(),
        channel_type: t,
        is_password_protected: false,
    }
}

fn client() -> TuiChatClient {
    let mut c = TuiChatClient::new("127.0.0.1:8080".to_string(), vec![device("a", false), device("b", true)], vec![]);
    c.on_connected();
    c.take_outbox();
    c.handle_ui_update_at(UIUpdate::AuthSuccess { user_id: 3 }, 0);
    c
}

fn join(c: &mut TuiChatClient, id: u16, name: &str, channels: Vec<ChannelInfo>) {
    c.handle_ui_update_at(
        UIUpdate::ServerJoined { server_id: id, name: name.to_string(), description: String::new(), channels },
        1_000,
    );
}

fn sent(c: &mut TuiChatClient) -> Vec<MessageType> {
    c.take_outbox().into_iter().map(|m| m.message_type).collect()
}

#[test]
fn new_client_selects_default_devices() {
    let c = TuiChatClient::new("h:1".to_string(), vec![device("a", false), device("b", true), device("c", true)], vec![device("x", false)]);
    assert_eq!(c.audio_settings.selected_input_index, 1);
    assert_eq!(c.audio_settings.selected_output_index, 0);
    assert_eq!(c.selected_input_device(), Some("b"));
    assert_eq!(c.selected_output_device(), Some("x"));
    assert!(!c.authenticated);
    assert!(c.outbox.is_empty());
}

#[test]
fn connecting_asks_for_users() {
    let mut c = TuiChatClient::new("h:1".to_string(), vec![], vec![]);
    c.on_connected();
    let out = c.take_outbox();
    assert_eq!(out.len(), 1);
    assert_eq!(out[0].sender_id, 0);
    assert!(matches!(out[0].message_type, MessageType::RequestUserList));
}

#[test]
fn login_takes_the_typed_name() {
    let mut c = TuiChatClient::new("h:1".to_string(), vec![], vec![]);
    c.on_connected();
    c.take_outbox();
    for ch in "ann".chars() {
        c.handle_key_event_at(Key::Char(ch), 0);
    }
    c.handle_key_event_at(Key::Tab, 0);
    for ch in "pwx".chars() {
        c.handle_key_event_at(Key::Char(ch), 0);
    }
    c.handle_key_event_at(Key::Backspace, 0);
    assert_eq!(c.auth_password, "pw");
    assert_eq!(c.handle_key_event_at(Key::Enter, 0), KeyAction::Continue);
    match sent(&mut c).as_slice() {
        [MessageType::Login { username, password }] => {
            assert_eq!(username, "ann");
            assert_eq!(password, "pw");
        }
        other => panic!("unexpected {:?}", other),
    }
    c.handle_ui_update_at(UIUpdate::AuthSuccess { user_id: 9 }, 0);
    assert!(c.authenticated);
    assert_eq!(c.user_id, 9);
    assert_eq!(c.username, "ann");
    assert_eq!(c.auth_password, "");
}

#[test]
fn joining_a_server_opens_its_first_text_channel() {
    let mut c = client();
    join(&mut c, 5, "guild", vec![channel(50, 5, "voice", ChannelType::Voice), channel(51, 5, "general", ChannelType::Text)]);
    assert_eq!(c.current_server, Some(5));
    assert_eq!(c.current_channel, Some(51));
    match sent(&mut c).as_slice() {
        [MessageType::JoinChannel { channel_id: 51, password: None }] => {}
        other => panic!("unexpected {:?}", other),
    }
    assert_eq!(c.notifications.last().unwrap().message, "Joined server 'guild'");
    assert_eq!(c.servers[&5].channel_messages.len(), 2);
    // A second server does not change the open one.
    join(&mut c, 2, "other", vec![channel(20, 2, "chat", ChannelType::Text)]);
    assert_eq!(c.current_server, Some(5));
    assert!(c.take_outbox().is_empty());
    assert_eq!(c.joined_server_ids(), vec![2, 5]);
}

#[test]
fn channel_messages_land_in_their_channel() {
    let mut c = client();
    join(&mut c, 5, "guild", vec![channel(51, 5, "general", ChannelType::Text)]);
    c.handle_ui_update_at(
        UIUpdate::ChannelMessage { channel_id: 51, sender: "bob".to_string(), content: "hi".to_string() },
        3_661_000,
    );
    let list = &c.servers[&5].channel_messages[&51];
    assert_eq!(list.len(), 1);
    assert_eq!(list[0].sender, "bob");
    assert_eq!(list[0].content, "hi");
    assert_eq!(list[0].timestamp, "01:01");
    assert_eq!(list[0].message_type, ChatMessageType::User);
    // A channel that no joined server has is ignored.
    c.handle_ui_update_at(UIUpdate::ChannelMessage { channel_id: 99, sender: "x".to_string(), content: "y".to_string() }, 0);
    assert_eq!(c.servers[&5].channel_messages.len(), 1);
}

#[test]
fn server_text_becomes_notification_and_line() {
    let mut c = client();
    join(&mut c, 5, "guild", vec![channel(51, 5, "general", ChannelType::Text)]);
    c.handle_ui_update_at(UIUpdate::ServerMessage { content: "Nope".to_string(), is_error: true }, 0);
    let n = c.notifications.last().unwrap();
    assert_eq!(n.message, "Nope");
    assert_eq!(n.notification_type, NotificationType::Error);
    let line = c.servers[&5].channel_messages[&51].last().unwrap();
    assert_eq!(line.sender, "System");
    assert_eq!(line.message_type, ChatMessageType::Error);
}

#[test]
fn at_most_five_notifications() {
    let mut c = client();
    for i in 0..8u64 {
        c.add_notification(format!("n{}", i), NotificationType::Info, i);
    }
    assert_eq!(c.notifications.len(), 5);
    assert_eq!(c.notifications[0].message, "n3");
    assert_eq!(c.notifications[4].message, "n7");
    c.prune_notifications(3_005);
    assert_eq!(c.notifications.len(), 3);
    assert!(Notification::new_at("x".to_string(), NotificationType::Info, 10).is_expired_at(3_011));
    assert!(!Notification::new_at("x".to_string(), NotificationType::Info, 10).is_expired_at(3_010));
}

#[test]
fn leaving_the_open_server_opens_another() {
    let mut c = client();
    join(&mut c, 5, "guild", vec![channel(51, 5, "general", ChannelType::Text)]);
    join(&mut c, 2, "other", vec![channel(20, 2, "chat", ChannelType::Text)]);
    c.handle_ui_update_at(UIUpdate::ServerLeft { server_id: 5 }, 0);
    assert_eq!(c.current_server, Some(2));
    assert_eq!(c.current_channel, Some(20));
    assert_eq!(c.notifications.last().unwrap().message, "Left server 'guild'");
    c.handle_ui_update_at(UIUpdate::ServerLeft { server_id: 2 }, 0);
    assert_eq!(c.current_server, None);
    assert_eq!(c.current_channel, None);
}

#[test]
fn servers_sync_opens_a_server() {
    let mut c = client();
    let info = ServerInfo { id: 8, name: "s".to_string(), description: "d".to_string(), owner_id: 1, member_count: 2 };
    c.handle_ui_update_at(
        UIUpdate::ServersSync { servers: vec![ServerWithChannels { server: info, channels: vec![channel(80, 8, "g", ChannelType::Text)] }] },
        0,
    );
    assert_eq!(c.current_server, Some(8));
    assert_eq!(c.current_channel, Some(80));
    assert_eq!(c.servers[&8].name, "s");
}

#[test]
fn commands_become_requests() {
    let mut c = client();
    c.input = "/join 12".to_string();
    c.handle_command(0);
    assert!(matches!(sent(&mut c).as_slice(), [MessageType::JoinServer { server_id: 12 }]));

    c.input = "/join twelve".to_string();
    c.handle_command(0);
    assert!(c.take_outbox().is_empty());
    assert_eq!(c.notifications.last().unwrap().message, "Invalid server ID");

    c.input = "/server Home a cosy  place".to_string();
    c.handle_command(0);
    match sent(&mut c).as_slice() {
        [MessageType::CreateServer { name, description }] => {
            assert_eq!(name, "Home");
            assert_eq!(description, "a cosy place");
        }
        other => panic!("unexpected {:?}", other),
    }

    c.input = "/channel talk chat VOICE".to_string();
    c.handle_command(0);
    assert_eq!(c.notifications.last().unwrap().message, "Select a server first");

    join(&mut c, 5, "guild", vec![]);
    c.input = "/channel talk chat VOICE".to_string();
    c.handle_command(0);
    assert!(matches!(
        sent(&mut c).as_slice(),
        [MessageType::CreateChannel { server_id: 5, channel_type: ChannelType::Voice, password: None, .. }]
    ));

    c.input = "/pm 4 see you".to_string();
    c.handle_command(7_200_000);
    assert!(matches!(sent(&mut c).as_slice(), [MessageType::PrivateMessage { to_user_id: 4, .. }]));
    assert_eq!(c.private_conversations[&4][0].content, "see you");
    assert_eq!(c.private_conversations[&4][0].timestamp, "02:00");

    c.input = "/dance".to_string();
    c.handle_command(0);
    assert_eq!(c.notifications.last().unwrap().message, "Unknown command. Press F1 for help.");
    assert_eq!(c.notifications.last().unwrap().notification_type, NotificationType::Warning);
}

#[test]
fn enter_sends_the_line_to_the_open_channel() {
    let mut c = client();
    join(&mut c, 5, "guild", vec![channel(51, 5, "general", ChannelType::Text)]);
    c.take_outbox();
    for ch in "héllox".chars() {
        c.handle_key_event_at(Key::Char(ch), 0);
        c.cursor_position = c.input.len();
    }
    c.handle_key_event_at(Key::Backspace, 0);
    assert_eq!(c.input, "héllo");
    c.handle_key_event_at(Key::Home, 0);
    assert_eq!(c.cursor_position, 0);
    c.handle_key_event_at(Key::End, 0);
    assert_eq!(c.cursor_position, 6);
    c.handle_key_event_at(Key::Enter, 0);
    match sent(&mut c).as_slice() {
        [MessageType::ChannelMessage { channel_id: 51, content, .. }] => assert_eq!(content, "héllo"),
        other => panic!("unexpected {:?}", other),
    }
    assert_eq!(c.input, "");
    assert_eq!(c.cursor_position, 0);
}

#[test]
fn keys_move_and_toggle() {
    let mut c = client();
    assert_eq!(c.handle_key_event_at(Key::F(4), 0), KeyAction::RefreshDevices);
    assert!(c.show_settings);
    c.handle_key_event_at(Key::Down, 0);
    c.handle_key_event_at(Key::Down, 0);
    c.handle_key_event_at(Key::Right, 0);
    assert_eq!(c.audio_settings.input_volume, 100);
    c.handle_key_event_at(Key::Left, 0);
    assert_eq!(c.audio_settings.input_volume, 95);
    c.handle_key_event_at(Key::Up, 0);
    c.handle_key_event_at(Key::Up, 0);
    c.handle_key_event_at(Key::Enter, 0);
    assert_eq!(c.audio_settings.selected_input_index, 0);
    assert_eq!(c.notifications.last().unwrap().message, "Input: a");
    assert_eq!(c.handle_key_event_at(Key::Esc, 0), KeyAction::Continue);
    assert!(!c.show_settings);
    assert_eq!(c.handle_key_event_at(Key::Esc, 0), KeyAction::Quit);
}

#[test]
fn voice_key_asks_for_a_voice_channel() {
    let mut c = client();
    c.handle_key_event_at(Key::F(5), 0);
    assert_eq!(c.notifications.last().unwrap().message, "No voice channel available");
    join(&mut c, 5, "guild", vec![channel(51, 5, "general", ChannelType::Text), channel(52, 5, "talk", ChannelType::Voice)]);
    c.take_outbox();
    assert_eq!(c.find_voice_channel_to_join(), Some(52));
    c.handle_key_event_at(Key::F(5), 0);
    assert!(matches!(sent(&mut c).as_slice(), [MessageType::RequestVoice { channel_id: 52 }]));
    assert_eq!(c.voice_channel_id, Some(52));
    c.handle_ui_update_at(UIUpdate::VoiceStatus { connected: true, message: "up".to_string() }, 0);
    assert!(c.voice_connected);
    c.handle_key_event_at(Key::F(6), 0);
    assert!(c.voice_muted);
    assert_eq!(c.notifications.last().unwrap().message, "Microphone muted");
    c.handle_key_event_at(Key::F(5), 0);
    assert!(!c.voice_connected);
    assert_eq!(c.voice_channel_id, None);
}

#[test]
fn tab_cycles_servers_in_id_order() {
    let mut c = client();
    join(&mut c, 5, "five", vec![channel(51, 5, "g", ChannelType::Text)]);
    join(&mut c, 2, "two", vec![]);
    join(&mut c, 9, "nine", vec![channel(91, 9, "g", ChannelType::Text)]);
    c.take_outbox();
    c.handle_key_event_at(Key::Tab, 0);
    assert_eq!(c.current_server, Some(9));
    assert_eq!(c.current_channel, Some(91));
    c.handle_key_event_at(Key::Tab, 0);
    assert_eq!(c.current_server, Some(2));
    assert_eq!(c.current_channel, None);
    c.handle_key_event_at(Key::Tab, 0);
    assert_eq!(c.current_server, Some(5));
    assert_eq!(sent(&mut c).len(), 2);
}

#[test]
fn private_user_selection_skips_oneself() {
    let mut c = client();
    let user = |id: u16, name: &str| UserStatus { user_id: id, username: name.to_string(), is_online: true, last_seen: String::new() };
    c.handle_ui_update_at(UIUpdate::UserListUpdate { users: vec![user(3, "me"), user(4, "ann"), user(6, "bob")] }, 0);
    c.handle_key_event_at(Key::F(3), 0);
    assert_eq!(c.selected_private_user, Some(4));
    c.handle_key_event_at(Key::Down, 0);
    assert_eq!(c.selected_private_user, Some(6));
    c.handle_key_event_at(Key::Down, 0);
    assert_eq!(c.selected_private_user, Some(6));
}

#[test]
fn server_replies_become_updates() {
    let r = react_to_message(Message::new(
        0,
        MessageType::VoiceCredentials { token: "tok".to_string(), udp_port: 8081, channel_id: 3 },
    ));
    match r.update {
        Some(UIUpdate::ServerMessage { content, is_error: false }) => assert_eq!(content, "Connecting to voice channel 3..."),
        other => panic!("unexpected {:?}", other),
    }
    assert_eq!(r.voice, Some((8081, "tok".to_string())));
    let r = react_to_message(Message::new(0, MessageType::VoiceError { message: "busy".to_string() }));
    assert!(matches!(r.update, Some(UIUpdate::ServerMessage { ref content, is_error: true }) if content == "Voice error: busy"));
    let r = react_to_message(Message::new(
        4,
        MessageType::PrivateMessage { to_user_id: 3, sender_username: "ann".to_string(), content: "hey".to_string() },
    ));
    assert!(matches!(r.update, Some(UIUpdate::PrivateMessage { from_user_id: 4, .. })));
    assert!(react_to_message(Message::new(0, MessageType::ListServers)).update.is_none());
}

#[test]
fn host_and_clock() {
    assert_eq!(server_host("127.0.0.1:8080"), "127.0.0.1");
    assert_eq!(server_host("example.org"), "example.org");
    assert_eq!(clock_label(0), "00:00");
    assert_eq!(clock_label(86_399), "23:59");
    assert_eq!(clock_label(90_061), "01:01");
}
