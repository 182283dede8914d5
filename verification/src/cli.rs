//! The command-line client's reading of what the user types: quoted
//! arguments and the slash commands, each answered by a request for the
//! server or by lines of help printed back.

use vstd::prelude::*;
use crate::protocol::{Message, MessageType, RoomInfo, UserStatus};
use crate::resc;
use crate::text::{decimal, push_decimal, words, split_words, join_words, join_from, texts, parse_u16, parse_u16_spec, trim_str, trim_spec,
    str_equals, push_text, opt_text};

verus! {

/// The arguments of `s` after those in `done`, with `cur` being read and
/// `in_quotes` telling whether a quote is open: a double quote opens or
/// closes a quoted run and is dropped, a space outside quotes ends an
/// argument, any other character belongs to the argument; each argument is
/// kept without surrounding white space.
pub open spec fn quoted_from(s: Seq<char>, done: Seq<Seq<char>>, cur: Seq<char>, in_quotes: bool) -> Seq<Seq<char>>
    decreases s.len(),
{
    if s.len() == 0 {
        if cur.len() > 0 { done.push(trim_spec(cur)) } else { done }
    } else if s[0] == '"' {
        quoted_from(s.drop_first(), done, cur, !in_quotes)
    } else if s[0] == ' ' && !in_quotes {
        if cur.len() > 0 {
            quoted_from(s.drop_first(), done.push(trim_spec(cur)), Seq::empty(), in_quotes)
        } else {
            quoted_from(s.drop_first(), done, cur, in_quotes)
        }
    } else {
        quoted_from(s.drop_first(), done, cur.push(s[0]), in_quotes)
    }
}

/// The arguments of `s` (see `quoted_from`), none when there are none.
pub open spec fn quoted_args_spec(s: Seq<char>) -> Option<Seq<Seq<char>>> {
    let args = quoted_from(s, Seq::empty(), Seq::empty(), false);
    if args.len() == 0 { None } else { Some(args) }
}

/// Split a line into arguments, keeping quoted runs together (see
/// `quoted_from`); none when the line holds no argument.
pub fn parse_quoted_args(input: &str) -> (r: Option<Vec<String>>)
    ensures
        match r {
            Some(v) => quoted_args_spec(input@) == Some(texts(v@)),
            None => quoted_args_spec(input@) is None,
        },
{
    let mut args: Vec<String> = Vec::new();
    let mut cur = String::new();
    let mut in_quotes = false;
    let ghost full = input@;
    assert(full.skip(0) =~= full);
    assert(texts(args@) =~= Seq::<Seq<char>>::empty());
    for ch in it: input.chars()
        invariant
            it.seq() == full,
            full == input@,
            0 <= it.index() <= full.len(),
            quoted_from(full.skip(it.index() as int), texts(args@), cur@, in_quotes)
                == quoted_from(full, Seq::empty(), Seq::empty(), false),
    {
        let ghost i = it.index();
        proof {
            assert(full.skip(i as int)[0] == ch);
            assert(full.skip(i as int).drop_first() =~= full.skip(i + 1));
        }
        if ch == '"' {
            in_quotes = !in_quotes;
        } else if ch == ' ' && !in_quotes {
            if !cur.as_str().is_empty() {
                let ghost d0 = texts(args@);
                let ghost c0 = cur@;
                let arg = trim_str(cur.as_str()).to_string();
                args.push(arg);
                cur = String::new();
                proof {
                    assert(texts(args@) =~= d0.push(trim_spec(c0)));
                }
            }
        } else {
            cur.push(ch);
        }
    }
    proof {
        assert(full.skip(full.len() as int) =~= Seq::<char>::empty());
    }
    if !cur.as_str().is_empty() {
        let ghost d0 = texts(args@);
        let arg = trim_str(cur.as_str()).to_string();
        args.push(arg);
        proof {
            assert(texts(args@) =~= d0.push(args@.last()@));
        }
    }
    if args.len() == 0 {
        None
    } else {
        Some(args)
    }
}


/// A request that the command-line client sends to the server.
#[derive(Debug)]
pub enum CliRequest {
    Register { username: String, password: String },
    Login { username: String, password: String },
    Join { room_id: u16, password: Option<String> },
    Leave { room_id: u16 },
    CreateRoom { room_id: u16, name: String, description: String, password: Option<String> },
    RoomMessage { room_id: u16, content: String },
    PrivateMessage { to_user_id: u16, content: String },
    RequestVoice,
    ListRooms,
    ListUsers,
}

/// A request as texts and numbers.
pub enum CliRequestView {
    Register(Seq<char>, Seq<char>),
    Login(Seq<char>, Seq<char>),
    Join(u16, Option<Seq<char>>),
    Leave(u16),
    CreateRoom(u16, Seq<char>, Seq<char>, Option<Seq<char>>),
    RoomMessage(u16, Seq<char>),
    PrivateMessage(u16, Seq<char>),
    RequestVoice,
    ListRooms,
    ListUsers,
}

/// A request as texts and numbers.
pub open spec fn request_view(r: CliRequest) -> CliRequestView {
    match r {
        CliRequest::Register { username, password } => CliRequestView::Register(username@, password@),
        CliRequest::Login { username, password } => CliRequestView::Login(username@, password@),
        CliRequest::Join { room_id, password } => CliRequestView::Join(room_id, opt_text(password)),
        CliRequest::Leave { room_id } => CliRequestView::Leave(room_id),
        CliRequest::CreateRoom { room_id, name, description, password } =>
            CliRequestView::CreateRoom(room_id, name@, description@, opt_text(password)),
        CliRequest::RoomMessage { room_id, content } => CliRequestView::RoomMessage(room_id, content@),
        CliRequest::PrivateMessage { to_user_id, content } => CliRequestView::PrivateMessage(to_user_id, content@),
        CliRequest::RequestVoice => CliRequestView::RequestVoice,
        CliRequest::ListRooms => CliRequestView::ListRooms,
        CliRequest::ListUsers => CliRequestView::ListUsers,
    }
}

/// What a typed line gives: the sender id and request to send, if any, and
/// the lines to print.
#[derive(Debug)]
pub struct CliOutcome {
    pub sender_id: u16,
    pub request: Option<CliRequest>,
    pub lines: Vec<String>,
}

/// What `/create <room_id> <name> <description> [password]` asks for, the
/// arguments read with quotes: a usage note when fewer than three are given,
/// nothing when the room id is not a number.
pub open spec fn create_room_spec(input: Seq<char>) -> (Option<CliRequestView>, Seq<Seq<char>>) {
    match quoted_args_spec(input) {
        None => (None, Seq::empty()),
        Some(args) => if args.len() < 4 {
            (None, seq![
                "Usage: /create <room_id> <name> <description> [password]"@,
                "Example: /create 2 \"General Chat\" \"A place for general discussion\" [password]"@
            ])
        } else {
            match parse_u16_spec(args[1]) {
                None => (None, Seq::empty()),
                Some(id) => (
                    Some(CliRequestView::CreateRoom(id, args[2], args[3], if args.len() > 4 { Some(args[4]) } else { None })),
                    Seq::empty(),
                ),
            }
        },
    }
}

/// The request that a line asks for, and the lines printed back, for a user
/// who is logged in or not.
pub open spec fn cli_parse_spec(input: Seq<char>, auth: bool) -> (Option<CliRequestView>, Seq<Seq<char>>) {
    let ws = words(input);
    if ws.len() == 0 {
        (None, Seq::empty())
    } else if ws[0] == "/register"@ || ws[0] == "/login"@ {
        if auth {
            (None, seq!["You are already logged in!"@])
        } else if ws.len() < 3 {
            (None, seq![if ws[0] == "/register"@ { "Usage: /register <username> <password>"@ } else { "Usage: /login <username> <password>"@ }])
        } else if ws[0] == "/register"@ {
            (Some(CliRequestView::Register(ws[1], ws[2])), Seq::empty())
        } else {
            (Some(CliRequestView::Login(ws[1], ws[2])), Seq::empty())
        }
    } else if ws[0] == "/join"@ || ws[0] == "/leave"@ || ws[0] == "/msg"@ || ws[0] == "/private"@ || ws[0] == "/create"@ {
        if !auth {
            (None, seq!["Please login or register first!"@])
        } else if ws[0] == "/create"@ {
            create_room_spec(input)
        } else if ws[0] == "/join"@ {
            if ws.len() < 2 {
                (None, seq!["Usage: /join <room_id> [password]"@])
            } else {
                match parse_u16_spec(ws[1]) {
                    None => (None, Seq::empty()),
                    Some(id) => (Some(CliRequestView::Join(id, if ws.len() > 2 { Some(ws[2]) } else { None })), Seq::empty()),
                }
            }
        } else if ws[0] == "/leave"@ {
            if ws.len() < 2 {
                (None, seq!["Usage: /leave <room_id>"@])
            } else {
                match parse_u16_spec(ws[1]) {
                    None => (None, Seq::empty()),
                    Some(id) => (Some(CliRequestView::Leave(id)), Seq::empty()),
                }
            }
        } else {
            if ws.len() < 3 {
                (None, seq![if ws[0] == "/msg"@ { "Usage: /msg <room_id> <message>"@ } else { "Usage: /private <user_id> <message>"@ }])
            } else {
                match parse_u16_spec(ws[1]) {
                    None => (None, Seq::empty()),
                    Some(id) => if ws[0] == "/msg"@ {
                        (Some(CliRequestView::RoomMessage(id, join_words(ws.skip(2)))), Seq::empty())
                    } else {
                        (Some(CliRequestView::PrivateMessage(id, join_words(ws.skip(2)))), Seq::empty())
                    },
                }
            }
        }
    } else if ws[0] == "/rooms"@ || ws[0] == "/users"@ {
        if !auth {
            (None, seq!["Please login or register first!"@])
        } else if ws[0] == "/rooms"@ {
            (Some(CliRequestView::ListRooms), Seq::empty())
        } else {
            (Some(CliRequestView::ListUsers), Seq::empty())
        }
    } else if ws[0] == "/voice"@ {
        if !auth {
            (None, seq!["Please login first!"@])
        } else {
            (Some(CliRequestView::RequestVoice), seq!["[Command] Requesting voice connection..."@])
        }
    } else {
        (None, seq![
            "Unknown command: "@ + input,
            if !auth { "Available commands: /register, /login, /quit"@ } else {
                "Available commands: /join, /leave, /create, /msg, /private, /rooms, /users, /voice, /quit"@
            }
        ])
    }
}

/// The id a request is sent under: none (0) for registration and login,
/// the user's id otherwise.
pub open spec fn request_sender(r: CliRequestView, user_id: u16) -> u16 {
    match r {
        CliRequestView::Register(_, _) | CliRequestView::Login(_, _) => 0,
        _ => user_id,
    }
}

/// The lines held by `v`.
fn one_line(t: &str) -> (r: Vec<String>)
    ensures
        texts(r@) == seq![t@],
{
    let mut v: Vec<String> = Vec::new();
    v.push(t.to_string());
    assert(texts(v@) =~= seq![t@]);
    v
}

/// Read a line typed by the user `user_id`, logged in or not (see
/// `cli_parse_spec`).
pub fn parse_command(user_id: u16, input: &str, is_authenticated: bool) -> (r: CliOutcome)
    ensures
        ({
            let (req, lines) = cli_parse_spec(input@, is_authenticated);
            &&& texts(r.lines@) == lines
            &&& match r.request {
                Some(q) => req == Some(request_view(q)) && r.sender_id == request_sender(request_view(q), user_id),
                None => req is None,
            }
        }),
{
    let parts = split_words(input);
    let ghost ws = words(input@);
    assert(texts(parts@) == ws);
    assert(parts@.len() == ws.len());
    let none: Vec<String> = Vec::new();
    assert(texts(none@) =~= Seq::<Seq<char>>::empty());
    if parts.len() == 0 {
        return CliOutcome { sender_id: user_id, request: None, lines: none };
    }
    assert(ws[0] == parts@[0]@);
    let cmd = parts[0].as_str();
    let is_register = str_equals(cmd, "/register");
    if is_register || str_equals(cmd, "/login") {
        if is_authenticated {
            return CliOutcome { sender_id: user_id, request: None, lines: one_line("You are already logged in!") };
        }
        if parts.len() < 3 {
            let usage = if is_register { one_line("Usage: /register <username> <password>") } else {
                one_line("Usage: /login <username> <password>")
            };
            return CliOutcome { sender_id: user_id, request: None, lines: usage };
        }
        assert(ws[1] == parts@[1]@ && ws[2] == parts@[2]@);
        let username = parts[1].clone();
        let password = parts[2].clone();
        let request = if is_register { CliRequest::Register { username, password } } else { CliRequest::Login { username, password } };
        return CliOutcome { sender_id: 0, request: Some(request), lines: none };
    }
    let is_join = str_equals(cmd, "/join");
    let is_leave = str_equals(cmd, "/leave");
    let is_msg = str_equals(cmd, "/msg");
    let is_private = str_equals(cmd, "/private");
    let is_create = str_equals(cmd, "/create");
    if is_join || is_leave || is_msg || is_private || is_create {
        if !is_authenticated {
            return CliOutcome { sender_id: user_id, request: None, lines: one_line("Please login or register first!") };
        }
        if is_create {
            return create_room_command(user_id, input);
        }
        if is_join || is_leave {
            if parts.len() < 2 {
                let usage = if is_join { one_line("Usage: /join <room_id> [password]") } else { one_line("Usage: /leave <room_id>") };
                return CliOutcome { sender_id: user_id, request: None, lines: usage };
            }
            assert(ws[1] == parts@[1]@);
            let room_id = match parse_u16(parts[1].as_str()) {
                Some(id) => id,
                None => return CliOutcome { sender_id: user_id, request: None, lines: none },
            };
            let request = if is_join {
                let password = if parts.len() > 2 {
                    assert(ws[2] == parts@[2]@);
                    Some(parts[2].clone())
                } else {
                    None
                };
                CliRequest::Join { room_id, password }
            } else {
                CliRequest::Leave { room_id }
            };
            return CliOutcome { sender_id: user_id, request: Some(request), lines: none };
        }
        if parts.len() < 3 {
            let usage = if is_msg { one_line("Usage: /msg <room_id> <message>") } else { one_line("Usage: /private <user_id> <message>") };
            return CliOutcome { sender_id: user_id, request: None, lines: usage };
        }
        assert(ws[1] == parts@[1]@);
        let id = match parse_u16(parts[1].as_str()) {
            Some(id) => id,
            None => return CliOutcome { sender_id: user_id, request: None, lines: none },
        };
        let content = join_from(&parts, 2);
        let request = if is_msg { CliRequest::RoomMessage { room_id: id, content } } else {
            CliRequest::PrivateMessage { to_user_id: id, content }
        };
        return CliOutcome { sender_id: user_id, request: Some(request), lines: none };
    }
    let is_rooms = str_equals(cmd, "/rooms");
    if is_rooms || str_equals(cmd, "/users") {
        if !is_authenticated {
            return CliOutcome { sender_id: user_id, request: None, lines: one_line("Please login or register first!") };
        }
        let request = if is_rooms { CliRequest::ListRooms } else { CliRequest::ListUsers };
        return CliOutcome { sender_id: user_id, request: Some(request), lines: none };
    }
    if str_equals(cmd, "/voice") {
        if !is_authenticated {
            return CliOutcome { sender_id: user_id, request: None, lines: one_line("Please login first!") };
        }
        return CliOutcome {
            sender_id: user_id,
            request: Some(CliRequest::RequestVoice),
            lines: one_line("[Command] Requesting voice connection..."),
        };
    }
    let mut first = "Unknown command: ".to_string();
    push_text(&mut first, input);
    let second = if !is_authenticated { "Available commands: /register, /login, /quit".to_string() } else {
        "Available commands: /join, /leave, /create, /msg, /private, /rooms, /users, /voice, /quit".to_string()
    };
    let mut lines: Vec<String> = Vec::new();
    lines.push(first);
    lines.push(second);
    proof {
        assert(texts(lines@) =~= cli_parse_spec(input@, is_authenticated).1);
    }
    CliOutcome { sender_id: user_id, request: None, lines }
}

/// `/create <room_id> <name> <description> [password]`, with quoted
/// arguments (see `create_room_spec`).
fn create_room_command(user_id: u16, input: &str) -> (r: CliOutcome)
    ensures
        ({
            let expected = create_room_spec(input@);
            &&& texts(r.lines@) == expected.1
            &&& r.sender_id == user_id
            &&& match r.request {
                Some(q) => expected.0 == Some(request_view(q)),
                None => expected.0 is None,
            }
        }),
{
    let none: Vec<String> = Vec::new();
    assert(texts(none@) =~= Seq::<Seq<char>>::empty());
    let args = match parse_quoted_args(input) {
        Some(a) => a,
        None => return CliOutcome { sender_id: user_id, request: None, lines: none },
    };
    if args.len() < 4 {
        let mut lines: Vec<String> = Vec::new();
        lines.push("Usage: /create <room_id> <name> <description> [password]".to_string());
        lines.push("Example: /create 2 \"General Chat\" \"A place for general discussion\" [password]".to_string());
        assert(texts(lines@) =~= seq![
            "Usage: /create <room_id> <name> <description> [password]"@,
            "Example: /create 2 \"General Chat\" \"A place for general discussion\" [password]"@
        ]);
        return CliOutcome { sender_id: user_id, request: None, lines };
    }
    let ghost a = texts(args@);
    assert(a[1] == args@[1]@ && a[2] == args@[2]@ && a[3] == args@[3]@);
    let room_id = match parse_u16(args[1].as_str()) {
        Some(id) => id,
        None => return CliOutcome { sender_id: user_id, request: None, lines: none },
    };
    let name = args[2].clone();
    let description = args[3].clone();
    let password = if args.len() > 4 {
        assert(a[4] == args@[4]@);
        Some(args[4].clone())
    } else {
        None
    };
    CliOutcome {
        sender_id: user_id,
        request: Some(CliRequest::CreateRoom { room_id, name, description, password }),
        lines: none,
    }
}


/// A message that the command-line client sends: one of the room protocol,
/// or the voice request, which only the guild protocol has.
#[derive(Debug)]
pub enum OutMessage {
    Room(Message),
    Guild(resc::Message),
}

/// `r` is the message that carries `request` from `sender_id`: each request
/// goes out as the room message of the same name and fields; a room is
/// created under the id typed; room and private messages leave the sender's
/// name empty for the server to fill in; `/rooms` asks for the room list,
/// `/users` for the user list; the voice request goes out for channel 0,
/// the server choosing the channel.
pub open spec fn is_request_message(sender_id: u16, request: CliRequest, r: OutMessage) -> bool {
    match request {
        CliRequest::Register { username, password } =>
            r == OutMessage::Room(Message { sender_id, message_type: MessageType::Register { username, password } }),
        CliRequest::Login { username, password } =>
            r == OutMessage::Room(Message { sender_id, message_type: MessageType::Login { username, password } }),
        CliRequest::Join { room_id, password } =>
            r == OutMessage::Room(Message { sender_id, message_type: MessageType::Join { room_id, password } }),
        CliRequest::Leave { room_id } =>
            r == OutMessage::Room(Message { sender_id, message_type: MessageType::Leave { room_id } }),
        CliRequest::CreateRoom { room_id, name, description, password } => r == OutMessage::Room(
            Message { sender_id, message_type: MessageType::CreateRoom { room_id, name, description, password } },
        ),
        CliRequest::RoomMessage { room_id, content } => {
            &&& r is Room
            &&& r->Room_0.sender_id == sender_id
            &&& r->Room_0.message_type is RoomMessage
            &&& r->Room_0.message_type->RoomMessage_room_id == room_id
            &&& r->Room_0.message_type->RoomMessage_sender_username@ == Seq::<char>::empty()
            &&& r->Room_0.message_type->RoomMessage_content == content
        },
        CliRequest::PrivateMessage { to_user_id, content } => {
            &&& r is Room
            &&& r->Room_0.sender_id == sender_id
            &&& r->Room_0.message_type is PrivateMessage
            &&& r->Room_0.message_type->PrivateMessage_to_user_id == to_user_id
            &&& r->Room_0.message_type->PrivateMessage_sender_username@ == Seq::<char>::empty()
            &&& r->Room_0.message_type->PrivateMessage_content == content
        },
        CliRequest::ListRooms =>
            r == OutMessage::Room(Message { sender_id, message_type: MessageType::ListRooms }),
        CliRequest::ListUsers =>
            r == OutMessage::Room(Message { sender_id, message_type: MessageType::RequestUserList }),
        CliRequest::RequestVoice =>
            r == OutMessage::Guild(resc::Message { sender_id, message_type: resc::MessageType::RequestVoice { channel_id: 0 } }),
    }
}

/// The message that carries a request from `sender_id` (see `is_request_message`).
pub fn request_message(sender_id: u16, request: CliRequest) -> (r: OutMessage)
    ensures
        is_request_message(sender_id, request, r),
{
    match request {
        CliRequest::Register { username, password } =>
            OutMessage::Room(Message::new(sender_id, MessageType::Register { username, password })),
        CliRequest::Login { username, password } =>
            OutMessage::Room(Message::new(sender_id, MessageType::Login { username, password })),
        CliRequest::Join { room_id, password } =>
            OutMessage::Room(Message::new(sender_id, MessageType::Join { room_id, password })),
        CliRequest::Leave { room_id } => OutMessage::Room(Message::new(sender_id, MessageType::Leave { room_id })),
        CliRequest::CreateRoom { room_id, name, description, password } =>
            OutMessage::Room(Message::new(sender_id, MessageType::CreateRoom { room_id, name, description, password })),
        CliRequest::RoomMessage { room_id, content } => OutMessage::Room(
            Message::new(sender_id, MessageType::RoomMessage { room_id, sender_username: String::new(), content }),
        ),
        CliRequest::PrivateMessage { to_user_id, content } => OutMessage::Room(
            Message::new(sender_id, MessageType::PrivateMessage { to_user_id, sender_username: String::new(), content }),
        ),
        CliRequest::ListRooms => OutMessage::Room(Message::new(sender_id, MessageType::ListRooms)),
        CliRequest::ListUsers => OutMessage::Room(Message::new(sender_id, MessageType::RequestUserList)),
        CliRequest::RequestVoice => OutMessage::Guild(
            resc::Message::new(sender_id, resc::MessageType::RequestVoice { channel_id: 0 }),
        ),
    }
}

/// The line that lists a room: `  [id] name - description`.
pub open spec fn room_line(r: RoomInfo) -> Seq<char> {
    "  ["@ + decimal(r.id as nat) + "] "@ + r.name@ + " - "@ + r.description@
}

/// The line that lists a user: a full dot when online, an empty one when
/// not, then the name.
pub open spec fn user_line(u: UserStatus) -> Seq<char> {
    "  "@ + (if u.is_online { "●"@ } else { "○"@ }) + " "@ + u.username@
}

/// The lines printed for a message from the server.
pub open spec fn display_spec(m: Message) -> Seq<Seq<char>> {
    match m.message_type {
        MessageType::AuthSuccess { user_id, message } =>
            seq!["[SUCCESS] "@ + message@, "Your user ID is: "@ + decimal(user_id as nat)],
        MessageType::AuthFailure { reason } => seq!["[ERROR] "@ + reason@],
        MessageType::RoomMessage { room_id, sender_username, content } =>
            seq!["[Room "@ + decimal(room_id as nat) + "] "@ + sender_username@ + ": "@ + content@],
        MessageType::PrivateMessage { to_user_id: _, sender_username, content } =>
            seq!["[Private from "@ + sender_username@ + "]: "@ + content@],
        MessageType::ServerResponse { success, content } =>
            seq![(if success { "[Server]: "@ } else { "[Server Error]: "@ }) + content@],
        MessageType::RoomCreated { room_id, name, description } => seq![
            "[SUCCESS] Room '"@ + name@ + "' (ID: "@ + decimal(room_id as nat) + ") created successfully!"@,
            "         Description: "@ + description@
        ],
        MessageType::RoomJoined { room_id, name, description: _ } =>
            seq!["[SUCCESS] Joined room "@ + decimal(room_id as nat) + ": "@ + name@],
        MessageType::RoomNotFound { room_id } => seq![
            "[INFO] Room "@ + decimal(room_id as nat) + " doesn't exist yet."@,
            "       Would you like to create it? Use:"@,
            "       /create <room_id> <name> <description> [password]"@,
            "       Example: /create "@ + decimal(room_id as nat) + " \"General Chat\" \"A place for general discussion\""@
        ],
        MessageType::Register { .. } | MessageType::Login { .. } => seq!["[Debug] Received unexpected auth message"@],
        MessageType::Join { .. } | MessageType::Leave { .. } | MessageType::CreateRoom { .. } =>
            seq!["[Debug] Received unexpected room action message"@],
        MessageType::ListRooms => seq!["[Debug] Received ListRooms request"@],
        MessageType::RoomList { rooms } => seq!["Available rooms:"@] + rooms@.map_values(|r: RoomInfo| room_line(r)),
        MessageType::UserStatusUpdate { user_id, username, is_online } => seq![
            "User "@ + username@ + " ("@ + decimal(user_id as nat) + ") is now "@ + (if is_online { "online"@ } else { "offline"@ })
        ],
        MessageType::UserListUpdate { users } => seq!["Online users:"@] + users@.map_values(|u: UserStatus| user_line(u)),
        MessageType::RequestUserList => seq!["[Debug] Received RequestUserList"@],
        _ => seq!["[Debug] Received other message type"@],
    }
}

/// The lines printed for a message from the server (see `display_spec`).
pub fn display_lines(m: &Message) -> (r: Vec<String>)
    ensures
        texts(r@) == display_spec(*m),
{
    let mut out: Vec<String> = Vec::new();
    match &m.message_type {
        MessageType::AuthSuccess { user_id, message } => {
            let mut a = "[SUCCESS] ".to_string();
            push_text(&mut a, message.as_str());
            let mut b = "Your user ID is: ".to_string();
            push_decimal(&mut b, *user_id as u64);
            out.push(a);
            out.push(b);
        },
        MessageType::AuthFailure { reason } => {
            let mut a = "[ERROR] ".to_string();
            push_text(&mut a, reason.as_str());
            out.push(a);
        },
        MessageType::RoomMessage { room_id, sender_username, content } => {
            let mut a = "[Room ".to_string();
            push_decimal(&mut a, *room_id as u64);
            push_text(&mut a, "] ");
            push_text(&mut a, sender_username.as_str());
            push_text(&mut a, ": ");
            push_text(&mut a, content.as_str());
            out.push(a);
        },
        MessageType::PrivateMessage { to_user_id: _, sender_username, content } => {
            let mut a = "[Private from ".to_string();
            push_text(&mut a, sender_username.as_str());
            push_text(&mut a, "]: ");
            push_text(&mut a, content.as_str());
            out.push(a);
        },
        MessageType::ServerResponse { success, content } => {
            let mut a = if *success { "[Server]: ".to_string() } else { "[Server Error]: ".to_string() };
            push_text(&mut a, content.as_str());
            out.push(a);
        },
        MessageType::RoomCreated { room_id, name, description } => {
            let mut a = "[SUCCESS] Room '".to_string();
            push_text(&mut a, name.as_str());
            push_text(&mut a, "' (ID: ");
            push_decimal(&mut a, *room_id as u64);
            push_text(&mut a, ") created successfully!");
            let mut b = "         Description: ".to_string();
            push_text(&mut b, description.as_str());
            out.push(a);
            out.push(b);
        },
        MessageType::RoomJoined { room_id, name, description: _ } => {
            let mut a = "[SUCCESS] Joined room ".to_string();
            push_decimal(&mut a, *room_id as u64);
            push_text(&mut a, ": ");
            push_text(&mut a, name.as_str());
            out.push(a);
        },
        MessageType::RoomNotFound { room_id } => {
            let mut a = "[INFO] Room ".to_string();
            push_decimal(&mut a, *room_id as u64);
            push_text(&mut a, " doesn't exist yet.");
            out.push(a);
            out.push("       Would you like to create it? Use:".to_string());
            out.push("       /create <room_id> <name> <description> [password]".to_string());
            let mut e = "       Example: /create ".to_string();
            push_decimal(&mut e, *room_id as u64);
            push_text(&mut e, " \"General Chat\" \"A place for general discussion\"");
            out.push(e);
        },
        MessageType::Register { .. } | MessageType::Login { .. } => {
            out.push("[Debug] Received unexpected auth message".to_string());
        },
        MessageType::Join { .. } | MessageType::Leave { .. } | MessageType::CreateRoom { .. } => {
            out.push("[Debug] Received unexpected room action message".to_string());
        },
        MessageType::ListRooms => {
            out.push("[Debug] Received ListRooms request".to_string());
        },
        MessageType::RoomList { rooms } => {
            out.push("Available rooms:".to_string());
            let mut i: usize = 0;
            while i < rooms.len()
                invariant
                    i <= rooms@.len(),
                    texts(out@) == seq!["Available rooms:"@] + rooms@.take(i as int).map_values(|r: RoomInfo| room_line(r)),
                decreases rooms@.len() - i,
            {
                let r = &rooms[i];
                let mut line = "  [".to_string();
                push_decimal(&mut line, r.id as u64);
                push_text(&mut line, "] ");
                push_text(&mut line, r.name.as_str());
                push_text(&mut line, " - ");
                push_text(&mut line, r.description.as_str());
                let ghost before = texts(out@);
                out.push(line);
                proof {
                    assert(texts(out@) =~= before.push(room_line(rooms@[i as int])));
                    assert(rooms@.take(i + 1).map_values(|r: RoomInfo| room_line(r))
                        =~= rooms@.take(i as int).map_values(|r: RoomInfo| room_line(r)).push(room_line(rooms@[i as int])));
                }
                i = i + 1;
            }
            assert(rooms@.take(rooms@.len() as int) =~= rooms@);
        },
        MessageType::UserStatusUpdate { user_id, username, is_online } => {
            let mut a = "User ".to_string();
            push_text(&mut a, username.as_str());
            push_text(&mut a, " (");
            push_decimal(&mut a, *user_id as u64);
            push_text(&mut a, ") is now ");
            push_text(&mut a, if *is_online { "online" } else { "offline" });
            out.push(a);
        },
        MessageType::UserListUpdate { users } => {
            out.push("Online users:".to_string());
            let mut i: usize = 0;
            while i < users.len()
                invariant
                    i <= users@.len(),
                    texts(out@) == seq!["Online users:"@] + users@.take(i as int).map_values(|u: UserStatus| user_line(u)),
                decreases users@.len() - i,
            {
                let u = &users[i];
                let mut line = "  ".to_string();
                push_text(&mut line, if u.is_online { "●" } else { "○" });
                push_text(&mut line, " ");
                push_text(&mut line, u.username.as_str());
                let ghost before = texts(out@);
                out.push(line);
                proof {
                    assert(texts(out@) =~= before.push(user_line(users@[i as int])));
                    assert(users@.take(i + 1).map_values(|u: UserStatus| user_line(u))
                        =~= users@.take(i as int).map_values(|u: UserStatus| user_line(u)).push(user_line(users@[i as int])));
                }
                i = i + 1;
            }
            assert(users@.take(users@.len() as int) =~= users@);
        },
        MessageType::RequestUserList => {
            out.push("[Debug] Received RequestUserList".to_string());
        },
        _ => {
            out.push("[Debug] Received other message type".to_string());
        },
    }
    proof {
        assert(texts(out@) =~= display_spec(*m));
    }
    out
}

} // verus!
