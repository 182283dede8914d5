use rustyroom::cli::{display_lines, parse_command, parse_quoted_args, request_message, CliRequest, OutMessage};
use rustyroom::protocol::{Message, MessageType, RoomInfo};

#[test]
fn quoted_arguments() {
    assert_eq!(
        parse_quoted_args("/create \"General Chat\" \"A place for general discussion\" pw"),
        Some(vec![
            "/create".to_string(),
            "General Chat".to_string(),
            "A place for general discussion".to_string(),
            "pw".to_string()
        ])
    );
    assert_eq!(parse_quoted_args("   "), None);
    assert_eq!(parse_quoted_args("a  \"\"  b"), Some(vec!["a".to_string(), "b".to_string()]));
}

#[test]
fn auth_commands() {
    let out = parse_command(0, "/login ann pw", false);
    assert!(matches!(out.request, Some(CliRequest::Login { ref username, ref password }) if username == "ann" && password == "pw"));
    assert_eq!(out.sender_id, 0);
    assert!(out.lines.is_empty());
    let out = parse_command(0, "/register ann", false);
    assert!(out.request.is_none());
    assert_eq!(out.lines, vec!["Usage: /register <username> <password>".to_string()]);
    let out = parse_command(5, "/login ann pw", true);
    assert_eq!(out.lines, vec!["You are already logged in!".to_string()]);
}

#[test]
fn room_commands() {
    let out = parse_command(5, "/join 12 secret", true);
    assert!(matches!(out.request, Some(CliRequest::Join { room_id: 12, password: Some(ref p) }) if p == "secret"));
    assert_eq!(out.sender_id, 5);
    assert!(parse_command(5, "/join x", true).request.is_none());
    assert_eq!(parse_command(5, "/join 1", false).lines, vec!["Please login or register first!".to_string()]);
    let out = parse_command(5, "/msg 3 hello  world", true);
    assert!(matches!(out.request, Some(CliRequest::RoomMessage { room_id: 3, ref content }) if content == "hello world"));
    let out = parse_command(5, "/create 7 \"My Room\" \"Cool place\"", true);
    assert!(matches!(out.request, Some(CliRequest::CreateRoom { room_id: 7, ref name, ref description, password: None })
        if name == "My Room" && description == "Cool place"));
    let out = parse_command(5, "/create 7 Solo", true);
    assert_eq!(out.lines[0], "Usage: /create <room_id> <name> <description> [password]");
    assert!(parse_command(5, "/create x a b", true).request.is_none());
    assert!(matches!(parse_command(5, "/rooms", true).request, Some(CliRequest::ListRooms)));
    assert!(matches!(parse_command(5, "/users", true).request, Some(CliRequest::ListUsers)));
    assert_eq!(parse_command(0, "/rooms", false).lines, vec!["Please login or register first!".to_string()]);
    let out = parse_command(5, "/voice", true);
    assert!(matches!(out.request, Some(CliRequest::RequestVoice)));
    assert_eq!(out.lines, vec!["[Command] Requesting voice connection...".to_string()]);
    let out = parse_command(5, "/fly", true);
    assert_eq!(out.lines[0], "Unknown command: /fly");
    assert_eq!(out.lines[1], "Available commands: /join, /leave, /create, /msg, /private, /rooms, /users, /voice, /quit");
    assert!(parse_command(5, "   ", true).request.is_none());
}

#[test]
fn server_messages_print() {
    let lines = display_lines(&Message::new(
        0,
        MessageType::RoomMessage { room_id: 2, sender_username: "ann".to_string(), content: "hi".to_string() },
    ));
    assert_eq!(lines, vec!["[Room 2] ann: hi".to_string()]);
    let lines = display_lines(&Message::new(
        0,
        MessageType::RoomList {
            rooms: vec![RoomInfo { id: 1, name: "General".to_string(), description: "all".to_string(), is_password_protected: false }],
        },
    ));
    assert_eq!(lines, vec!["Available rooms:".to_string(), "  [1] General - all".to_string()]);
    let lines = display_lines(&Message::new(0, MessageType::RoomJoined { room_id: 1, name: "General".to_string(), description: "y".to_string() }));
    assert_eq!(lines, vec!["[SUCCESS] Joined room 1: General".to_string()]);
    let lines = display_lines(&Message::new(0, MessageType::ServerResponse { success: false, content: "no".to_string() }));
    assert_eq!(lines, vec!["[Server Error]: no".to_string()]);
}

#[test]
fn requests_become_protocol_messages() {
    match request_message(5, CliRequest::RoomMessage { room_id: 3, content: "hi".to_string() }) {
        OutMessage::Room(m) => {
            assert_eq!(m.sender_id, 5);
            assert!(matches!(m.message_type, MessageType::RoomMessage { room_id: 3, ref sender_username, ref content }
                if sender_username.is_empty() && content == "hi"));
        }
        OutMessage::Guild(_) => panic!("room message sent as a guild message"),
    }
    match request_message(5, CliRequest::CreateRoom { room_id: 9, name: "a".to_string(), description: "b".to_string(), password: None }) {
        OutMessage::Room(m) => assert!(matches!(m.message_type, MessageType::CreateRoom { room_id: 9, .. })),
        OutMessage::Guild(_) => panic!("create sent as a guild message"),
    }
    match request_message(5, CliRequest::ListUsers) {
        OutMessage::Room(m) => assert!(matches!(m.message_type, MessageType::RequestUserList)),
        OutMessage::Guild(_) => panic!("user list sent as a guild message"),
    }
    match request_message(5, CliRequest::RequestVoice) {
        OutMessage::Guild(m) => {
            assert_eq!(m.sender_id, 5);
            assert!(matches!(m.message_type, rustyroom::resc::MessageType::RequestVoice { channel_id: 0 }));
        }
        OutMessage::Room(_) => panic!("voice request sent as a room message"),
    }
}
