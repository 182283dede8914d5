use rustyroom::text::{decimal_string, parse_u16};
use rustyroom::tui_state::{Key, NotificationType, TuiChatClient, UIUpdate};
use rustyroom::resc::{ChannelInfo, ChannelType};

#[test]
fn ids_read_back_from_their_decimal_form() {
    for id in [0u16, 1, 9, 10, 99, 100, 1000, 65535] {
        assert_eq!(parse_u16(&decimal_string(id as u64)), Some(id));
    }
}

#[test]
fn a_disconnected_client_sends_nothing() {
    let mut c = TuiChatClient::new("h:1".to_string(), vec![], vec![]);
    c.handle_ui_update_at(UIUpdate::AuthSuccess { user_id: 1 }, 0);
    let ch = ChannelInfo {
        id: 10, server_id: 1, name: "g".to_string(), description: String::new(),
        channel_type: ChannelType::Text, is_password_protected: false,
    };
    c.handle_ui_update_at(UIUpdate::ServerJoined { server_id: 1, name: "s".to_string(), description: String::new(), channels: vec![ch] }, 0);
    c.input = "/join 3".to_string();
    c.handle_key_event_at(Key::Enter, 0);
    c.handle_key_event_at(Key::F(2), 0);
    c.handle_key_event_at(Key::Tab, 0);
    assert!(c.outbox.is_empty());
}

#[test]
fn notifications_never_exceed_five() {
    let mut c = TuiChatClient::new("h:1".to_string(), vec![], vec![]);
    for i in 0..20u64 {
        c.add_notification(format!("{}", i), NotificationType::Success, i);
        assert!(c.notifications.len() <= 5);
        assert_eq!(c.notifications.last().unwrap().message, format!("{}", i));
    }
}
