//! Decisions of the chat server: how each request is answered, given what
//! the database holds, and how voice credentials are issued.

use vstd::prelude::*;
use sha2::{Digest, Sha256};
use crate::text::{push_text, push_decimal, decimal};
use crate::resc::{Account, Channel, ChannelInfo, ChannelType, Message, MessageType, Server, UserStatus, password_admits};

verus! {

/// Severity and topic of a server log line.
#[derive(Debug, Clone, Copy, PartialEq, Eq, Structural)]
pub enum LogLevel {
    Info,
    Warn,
    Error,
    Debug,
    Voice,
    Auth,
    Server,
    Channel,
}

impl LogLevel {
    /// The tag printed before a log line of this level.
    pub fn prefix(&self) -> (r: &'static str)
        ensures
            r@ == log_prefix(*self),
    {
        match self {
            LogLevel::Info => "INFO",
            LogLevel::Warn => "WARN",
            LogLevel::Error => "ERROR",
            LogLevel::Debug => "DEBUG",
            LogLevel::Voice => "VOICE",
            LogLevel::Auth => "AUTH",
            LogLevel::Server => "SERVER",
            LogLevel::Channel => "CHANNEL",
        }
    }
}

/// The tag of each log level.
pub open spec fn log_prefix(l: LogLevel) -> Seq<char> {
    match l {
        LogLevel::Info => "INFO"@,
        LogLevel::Warn => "WARN"@,
        LogLevel::Error => "ERROR"@,
        LogLevel::Debug => "DEBUG"@,
        LogLevel::Voice => "VOICE"@,
        LogLevel::Auth => "AUTH"@,
        LogLevel::Server => "SERVER"@,
        LogLevel::Channel => "CHANNEL"@,
    }
}

/// The SHA-256 digest of `data`.
pub uninterp spec fn spec_sha256(data: Seq<u8>) -> Seq<u8>;

/// `sha2::Sha256::digest`: the SHA-256 digest of `data`. The contract names the
/// result, a function of the bytes alone, and states that it is 32 bytes long.
#[verifier::external_body]
fn sha256_digest(data: &[u8]) -> (r: Vec<u8>)
    ensures
        r@ == spec_sha256(data@),
        r@.len() == 32,
{
    Sha256::digest(data).to_vec()
}

/// The lower-case hexadecimal digit of a value below 16.
pub open spec fn hex_digit(v: int) -> char {
    if v < 10 {
        ((48 + v) as u8) as char
    } else {
        ((87 + v) as u8) as char
    }
}

/// Two lower-case hexadecimal digits per byte, high digit first.
pub open spec fn hex_lower(bytes: Seq<u8>) -> Seq<char>
    decreases bytes.len(),
{
    if bytes.len() == 0 {
        Seq::empty()
    } else {
        hex_lower(bytes.drop_last()) + seq![hex_digit(bytes.last() as int / 16), hex_digit(bytes.last() as int % 16)]
    }
}

fn hex_char(v: u8) -> (r: char)
    requires
        v < 16,
    ensures
        r == hex_digit(v as int),
{
    if v < 10 {
        (48u8 + v) as char
    } else {
        (87u8 + v) as char
    }
}

/// Lower-case hexadecimal text of `bytes`.
pub fn to_hex_lower(bytes: &[u8]) -> (r: String)
    ensures
        r@ == hex_lower(bytes@),
{
    let mut s = String::new();
    let mut i: usize = 0;
    while i < bytes.len()
        invariant
            i <= bytes@.len(),
            s@ == hex_lower(bytes@.subrange(0, i as int)),
        decreases bytes@.len() - i,
    {
        let b = bytes[i];
        s.push(hex_char(b / 16));
        s.push(hex_char(b % 16));
        proof {
            let t = bytes@.subrange(0, i + 1);
            assert(t.drop_last() =~= bytes@.subrange(0, i as int));
        }
        i = i + 1;
    }
    assert(bytes@.subrange(0, bytes@.len() as int) =~= bytes@);
    s
}

/// The stored hash of a password: SHA-256 of its UTF-8 bytes, in lower-case hex.
pub open spec fn password_hash_spec(password: Seq<char>) -> Seq<char> {
    hex_lower(spec_sha256(vstd::utf8::encode_utf8(password)))
}

/// Hash a password the way the server stores it.
pub fn hash_password(password: &str) -> (r: String)
    ensures
        r@ == password_hash_spec(password@),
{
    let digest = sha256_digest(password.as_bytes());
    to_hex_lower(digest.as_slice())
}

/// The UDP port on which the voice listener runs.
pub const VOICE_UDP_PORT: u16 = 8081;

/// The length of an issued voice token.
pub const VOICE_TOKEN_LEN: usize = 16;

/// A reply from the server (sender id 0) that says the request failed, with `text`.
pub open spec fn is_failure_response(m: Message, text: Seq<char>) -> bool {
    &&& m.sender_id == 0
    &&& m.message_type matches MessageType::ServerResponse { success, content } && !success && content@ == text
}

/// `m` is a channel message from `sender_id` in channel `cid`, shown as
/// coming from `sender`, with text `content`.
pub open spec fn is_channel_message(m: Message, sender_id: u16, cid: u16, sender: Seq<char>, content: Seq<char>) -> bool {
    &&& m.sender_id == sender_id
    &&& m.message_type matches MessageType::ChannelMessage { channel_id, sender_username, content: c }
        && channel_id == cid && sender_username@ == sender && c@ == content
}

/// A server reply that a request failed, with the given text.
pub fn failure_response(text: String) -> (r: Message)
    ensures
        is_failure_response(r, text@),
{
    Message::new(0, MessageType::ServerResponse { success: false, content: text })
}

/// The replies to a registration of `username`: `created` is the id of the
/// new account, or nothing when the name was taken. A new user is welcomed
/// and gets an empty list of servers.
pub fn register_replies(username: &str, created: Option<u16>) -> (r: Vec<Message>)
    ensures
        match created {
            Some(id) => {
                &&& r@.len() == 2
                &&& r@[0].sender_id == 0
                &&& r@[0].message_type matches MessageType::AuthSuccess { user_id, message }
                    && user_id == id && message@ == "Registration successful! Welcome, "@ + username@
                &&& r@[1].sender_id == 0
                &&& r@[1].message_type matches MessageType::UserServersSync { servers } && servers@.len() == 0
            },
            None => {
                &&& r@.len() == 1
                &&& r@[0].sender_id == 0
                &&& r@[0].message_type matches MessageType::AuthFailure { reason } && reason@ == "Username already exists"@
            },
        },
{
    let mut out: Vec<Message> = Vec::new();
    match created {
        Some(id) => {
            let mut text = String::new();
            push_text(&mut text, "Registration successful! Welcome, ");
            push_text(&mut text, username);
            out.push(Message::new(0, MessageType::AuthSuccess { user_id: id, message: text }));
            out.push(Message::new(0, MessageType::UserServersSync { servers: Vec::new() }));
        },
        None => {
            let mut reason = String::new();
            push_text(&mut reason, "Username already exists");
            out.push(Message::new(0, MessageType::AuthFailure { reason }));
        },
    }
    out
}

/// What the server decides on a login attempt.
#[derive(Debug)]
pub enum LoginDecision {
    /// No account has that user name.
    NoAccount,
    /// The password does not hash to the stored hash.
    WrongPassword,
    /// The user is logged in under this id.
    Accepted { user_id: u16 },
}

/// Decide a login, given the account stored under the user name, if any: it
/// is accepted when the password hashes to the account's stored hash.
pub fn decide_login(account: &Option<Account>, password: &str) -> (r: LoginDecision)
    ensures
        match account {
            None => r is NoAccount,
            Some(a) => if a.hash@ == password_hash_spec(password@) {
                r matches LoginDecision::Accepted { user_id } && user_id == a.user_id
            } else {
                r is WrongPassword
            },
        },
{
    match account {
        None => LoginDecision::NoAccount,
        Some(a) => {
            let hash = hash_password(password);
            if a.hash == hash {
                LoginDecision::Accepted { user_id: a.user_id }
            } else {
                LoginDecision::WrongPassword
            }
        },
    }
}

/// The reply to a login of `username`.
pub fn login_reply(decision: &LoginDecision, username: &str) -> (r: Message)
    ensures
        r.sender_id == 0,
        match decision {
            LoginDecision::NoAccount => r.message_type matches MessageType::AuthFailure { reason }
                && reason@ == "Account does not exist"@,
            LoginDecision::WrongPassword => r.message_type matches MessageType::AuthFailure { reason }
                && reason@ == "Invalid password"@,
            LoginDecision::Accepted { user_id } => r.message_type matches MessageType::AuthSuccess { user_id: id, message }
                && id == user_id && message@ == "Login successful! Welcome back, "@ + username@,
        },
{
    match decision {
        LoginDecision::NoAccount => {
            let mut reason = String::new();
            push_text(&mut reason, "Account does not exist");
            Message::new(0, MessageType::AuthFailure { reason })
        },
        LoginDecision::WrongPassword => {
            let mut reason = String::new();
            push_text(&mut reason, "Invalid password");
            Message::new(0, MessageType::AuthFailure { reason })
        },
        LoginDecision::Accepted { user_id } => {
            let mut message = String::new();
            push_text(&mut message, "Login successful! Welcome back, ");
            push_text(&mut message, username);
            Message::new(0, MessageType::AuthSuccess { user_id: *user_id, message })
        },
    }
}

/// The name under which a request's sender appears: the account's user
/// name, or `Unknown` when there is no such account.
pub fn sender_name(account: &Option<Account>) -> (r: String)
    ensures
        r@ == match account {
            Some(a) => a.username@,
            None => "Unknown"@,
        },
{
    match account {
        Some(a) => a.username.clone(),
        None => {
            let mut s = String::new();
            push_text(&mut s, "Unknown");
            s
        },
    }
}

/// The channels a new server starts with: `general` (text) and
/// `General Voice` (voice), with their descriptions.
pub fn default_channels() -> (r: Vec<(String, String, ChannelType)>)
    ensures
        r@.len() == 2,
        r@[0].0@ == "general"@ && r@[0].1@ == "General discussion"@ && r@[0].2 == ChannelType::Text,
        r@[1].0@ == "General Voice"@ && r@[1].1@ == "Voice chat"@ && r@[1].2 == ChannelType::Voice,
{
    let mut out: Vec<(String, String, ChannelType)> = Vec::new();
    let mut n1 = String::new();
    push_text(&mut n1, "general");
    let mut d1 = String::new();
    push_text(&mut d1, "General discussion");
    out.push((n1, d1, ChannelType::Text));
    let mut n2 = String::new();
    push_text(&mut n2, "General Voice");
    let mut d2 = String::new();
    push_text(&mut d2, "Voice chat");
    out.push((n2, d2, ChannelType::Voice));
    out
}

/// The replies to the creator of a new server: that it was created, then
/// that they joined it, with its channels.
pub fn server_created_replies(server_id: u16, name: &str, description: &str, channels: Vec<ChannelInfo>) -> (r: Vec<Message>)
    ensures
        r@.len() == 2,
        r@[0].sender_id == 0,
        r@[0].message_type matches MessageType::ServerCreated { server_id: id, name: n, description: d }
            && id == server_id && n@ == name@ && d@ == description@,
        r@[1].sender_id == 0,
        r@[1].message_type matches MessageType::ServerJoined { server_id: id, name: n, description: d, channels: c }
            && id == server_id && n@ == name@ && d@ == description@ && c@ == channels@,
{
    let mut out: Vec<Message> = Vec::new();
    out.push(Message::new(0, MessageType::ServerCreated { server_id, name: name.to_owned(), description: description.to_owned() }));
    out.push(Message::new(0, MessageType::ServerJoined { server_id, name: name.to_owned(), description: description.to_owned(), channels }));
    out
}

/// The reply when a server could not be created; `error` is the reason given.
pub fn create_server_failure(error: &str) -> (r: Message)
    ensures
        is_failure_response(r, "Failed to create server: "@ + error@),
{
    let mut text = String::new();
    push_text(&mut text, "Failed to create server: ");
    push_text(&mut text, error);
    failure_response(text)
}

/// What the server decides when a user asks to join a server.
#[derive(Debug, Clone, Copy, PartialEq, Eq, Structural)]
pub enum JoinServerDecision {
    NotFound,
    AlreadyMember,
    Join,
}

/// Decide a request to join a server, given whether the server exists and
/// whether the user is a member already.
pub fn decide_join_server(server: &Option<Server>, already_member: bool) -> (r: JoinServerDecision)
    ensures
        r == (if server is None {
            JoinServerDecision::NotFound
        } else if already_member {
            JoinServerDecision::AlreadyMember
        } else {
            JoinServerDecision::Join
        }),
{
    match server {
        None => JoinServerDecision::NotFound,
        Some(_) => if already_member {
            JoinServerDecision::AlreadyMember
        } else {
            JoinServerDecision::Join
        },
    }
}

/// The reply that refuses a request to join server `server_id`, if it is refused.
pub fn join_server_refusal(server_id: u16, decision: JoinServerDecision) -> (r: Option<Message>)
    ensures
        match decision {
            JoinServerDecision::NotFound => r matches Some(m)
                && is_failure_response(m, "Server "@ + decimal(server_id as nat) + " not found"@),
            JoinServerDecision::AlreadyMember => r matches Some(m)
                && is_failure_response(m, "You are already a member of this server"@),
            JoinServerDecision::Join => r is None,
        },
{
    match decision {
        JoinServerDecision::NotFound => {
            let mut text = String::new();
            push_text(&mut text, "Server ");
            push_decimal(&mut text, server_id as u64);
            push_text(&mut text, " not found");
            Some(failure_response(text))
        },
        JoinServerDecision::AlreadyMember => {
            let mut text = String::new();
            push_text(&mut text, "You are already a member of this server");
            Some(failure_response(text))
        },
        JoinServerDecision::Join => None,
    }
}

/// The id of the first text channel in `channels`, if there is one.
pub open spec fn first_text_channel(channels: Seq<ChannelInfo>) -> Option<u16>
    decreases channels.len(),
{
    if channels.len() == 0 {
        None
    } else if channels[0].channel_type == ChannelType::Text {
        Some(channels[0].id)
    } else {
        first_text_channel(channels.drop_first())
    }
}

/// The id of the first text channel of a list, if any.
pub fn find_first_text_channel(channels: &Vec<ChannelInfo>) -> (r: Option<u16>)
    ensures
        r == first_text_channel(channels@),
{
    let mut i: usize = 0;
    assert(channels@.subrange(0, channels@.len() as int) =~= channels@);
    while i < channels.len()
        invariant
            i <= channels@.len(),
            first_text_channel(channels@) == first_text_channel(channels@.subrange(i as int, channels@.len() as int)),
        decreases channels@.len() - i,
    {
        let ghost rest = channels@.subrange(i as int, channels@.len() as int);
        if channels[i].channel_type == ChannelType::Text {
            return Some(channels[i].id);
        }
        assert(rest.drop_first() =~= channels@.subrange(i + 1, channels@.len() as int));
        i = i + 1;
    }
    None
}

/// The announcement, in the server's first text channel, that `username`
/// joined it; nothing when the server has no text channel.
pub fn join_announcement(username: &str, channels: &Vec<ChannelInfo>) -> (r: Option<Message>)
    ensures
        match first_text_channel(channels@) {
            None => r is None,
            Some(cid) => r matches Some(m) && is_channel_message(m, 0, cid, "System"@, username@ + " joined the server"@),
        },
{
    match find_first_text_channel(channels) {
        None => None,
        Some(channel_id) => {
            let mut sender_username = String::new();
            push_text(&mut sender_username, "System");
            let mut content = String::new();
            push_text(&mut content, username);
            push_text(&mut content, " joined the server");
            Some(Message::new(0, MessageType::ChannelMessage { channel_id, sender_username, content }))
        },
    }
}

/// The refusal of a request to create a channel by someone who is not a
/// member of the server; nothing when the creator is a member.
pub fn create_channel_refusal(is_member: bool) -> (r: Option<Message>)
    ensures
        is_member ==> r is None,
        !is_member ==> (r matches Some(m) && is_failure_response(m, "You must be a member of the server to create channels"@)),
{
    if is_member {
        None
    } else {
        let mut text = String::new();
        push_text(&mut text, "You must be a member of the server to create channels");
        Some(failure_response(text))
    }
}

/// The reply when a channel could not be created; `error` is the reason given.
pub fn create_channel_failure(error: &str) -> (r: Message)
    ensures
        is_failure_response(r, "Failed to create channel: "@ + error@),
{
    let mut text = String::new();
    push_text(&mut text, "Failed to create channel: ");
    push_text(&mut text, error);
    failure_response(text)
}

/// The password hash stored for a new channel: the hash of its password, if it has one.
pub fn channel_password_hash(password: &Option<String>) -> (r: Option<String>)
    ensures
        match password {
            Some(p) => r matches Some(h) && h@ == password_hash_spec(p@),
            None => r is None,
        },
{
    match password {
        Some(p) => Some(hash_password(p.as_str())),
        None => None,
    }
}

/// What the server decides when a user asks to join a channel.
#[derive(Debug, Clone, Copy, PartialEq, Eq, Structural)]
pub enum JoinChannelDecision {
    NotFound,
    NotMember,
    BadPassword,
    Join,
}

/// The decision on a request to join a channel (see `decide_join_channel`).
pub open spec fn join_channel_decision(channel: Option<Channel>, is_member: bool, password: Option<String>) -> JoinChannelDecision {
    match channel {
        None => JoinChannelDecision::NotFound,
        Some(c) => if !is_member {
            JoinChannelDecision::NotMember
        } else if c.password_hash is Some && match password {
            Some(p) => !password_admits(c.password_hash, password_hash_spec(p@)),
            None => true,
        } {
            JoinChannelDecision::BadPassword
        } else {
            JoinChannelDecision::Join
        },
    }
}

/// Decide a request to join a channel, given the channel (if it exists),
/// whether the user is a member of its server, and the password given: a
/// protected channel asks for a password whose hash is the stored one.
pub fn decide_join_channel(channel: &Option<Channel>, is_member: bool, password: &Option<String>) -> (r: JoinChannelDecision)
    ensures
        r == join_channel_decision(*channel, is_member, *password),
{
    match channel {
        None => JoinChannelDecision::NotFound,
        Some(c) => {
            if !is_member {
                return JoinChannelDecision::NotMember;
            }
            if c.is_password_protected() {
                let valid = match password {
                    Some(p) => {
                        let h = hash_password(p.as_str());
                        c.verify_password(h.as_str())
                    },
                    None => false,
                };
                if !valid {
                    return JoinChannelDecision::BadPassword;
                }
            }
            JoinChannelDecision::Join
        },
    }
}

/// The replies to a request to join channel `channel_id`: a refusal, or the
/// confirmation with the channel's details.
pub fn join_channel_reply(channel_id: u16, channel: &Option<Channel>, decision: JoinChannelDecision) -> (r: Message)
    requires
        decision == JoinChannelDecision::Join ==> channel is Some,
    ensures
        match decision {
            JoinChannelDecision::NotFound => is_failure_response(r, "Channel "@ + decimal(channel_id as nat) + " not found"@),
            JoinChannelDecision::NotMember => is_failure_response(r, "You must join the server first"@),
            JoinChannelDecision::BadPassword => is_failure_response(r, "Invalid channel password"@),
            JoinChannelDecision::Join => {
                let c = channel.unwrap();
                &&& r.sender_id == 0
                &&& r.message_type matches MessageType::ChannelJoined { server_id, channel_id: id, name, description, channel_type }
                    && server_id == c.server_id && id == channel_id && name@ == c.name@
                    && description@ == c.description@ && channel_type == c.channel_type
            },
        },
{
    match decision {
        JoinChannelDecision::NotFound => {
            let mut text = String::new();
            push_text(&mut text, "Channel ");
            push_decimal(&mut text, channel_id as u64);
            push_text(&mut text, " not found");
            failure_response(text)
        },
        JoinChannelDecision::NotMember => {
            let mut text = String::new();
            push_text(&mut text, "You must join the server first");
            failure_response(text)
        },
        JoinChannelDecision::BadPassword => {
            let mut text = String::new();
            push_text(&mut text, "Invalid channel password");
            failure_response(text)
        },
        JoinChannelDecision::Join => {
            let c = channel.as_ref().unwrap();
            Message::new(0, MessageType::ChannelJoined {
                server_id: c.server_id,
                channel_id,
                name: c.name.clone(),
                description: c.description.clone(),
                channel_type: c.channel_type,
            })
        },
    }
}

/// A stored message of a channel's history, replayed to a user who joins:
/// its content is prefixed with the time it was sent (`HH:MM`) in brackets.
pub fn history_message(channel_id: u16, sender_id: u16, sender_username: String, time_hm: &str, content: &str) -> (r: Message)
    ensures
        is_channel_message(r, sender_id, channel_id, sender_username@, "["@ + time_hm@ + "] "@ + content@),
{
    let mut text = String::new();
    push_text(&mut text, "[");
    push_text(&mut text, time_hm);
    push_text(&mut text, "] ");
    push_text(&mut text, content);
    Message::new(sender_id, MessageType::ChannelMessage { channel_id, sender_username, content: text })
}

/// The line that ends a replayed history.
pub fn history_end(channel_id: u16) -> (r: Message)
    ensures
        is_channel_message(r, 0, channel_id, "System"@, "── end of message history ──"@),
{
    let mut u = String::new();
    push_text(&mut u, "System");
    let mut c = String::new();
    push_text(&mut c, "── end of message history ──");
    Message::new(0, MessageType::ChannelMessage { channel_id, sender_username: u, content: c })
}

/// The reply to a request to leave channel `channel_id`.
pub fn leave_channel_reply(channel_id: u16) -> (r: Message)
    ensures
        r.sender_id == 0,
        r.message_type matches MessageType::ServerResponse { success, content }
            && success && content@ == "Left channel "@ + decimal(channel_id as nat),
{
    let mut text = String::new();
    push_text(&mut text, "Left channel ");
    push_decimal(&mut text, channel_id as u64);
    Message::new(0, MessageType::ServerResponse { success: true, content: text })
}

/// The members of a server as listed to clients: for each member id in
/// order, the first status with that user id; members without a status are
/// left out.
pub open spec fn member_statuses(member_ids: Seq<u16>, statuses: Seq<UserStatus>) -> Seq<UserStatus>
    decreases member_ids.len(),
{
    if member_ids.len() == 0 {
        Seq::empty()
    } else {
        let rest = member_statuses(member_ids.drop_last(), statuses);
        match first_status_of(statuses, member_ids.last()) {
            Some(s) => rest.push(s),
            None => rest,
        }
    }
}

/// The first status in `statuses` with user id `uid`, if any.
pub open spec fn first_status_of(statuses: Seq<UserStatus>, uid: u16) -> Option<UserStatus>
    decreases statuses.len(),
{
    if statuses.len() == 0 {
        None
    } else if statuses[0].user_id == uid {
        Some(statuses[0])
    } else {
        first_status_of(statuses.drop_first(), uid)
    }
}

fn find_status(statuses: &Vec<UserStatus>, uid: u16) -> (r: Option<UserStatus>)
    ensures
        r == first_status_of(statuses@, uid),
{
    let mut i: usize = 0;
    assert(statuses@.subrange(0, statuses@.len() as int) =~= statuses@);
    while i < statuses.len()
        invariant
            i <= statuses@.len(),
            first_status_of(statuses@, uid) == first_status_of(statuses@.subrange(i as int, statuses@.len() as int), uid),
        decreases statuses@.len() - i,
    {
        let ghost rest = statuses@.subrange(i as int, statuses@.len() as int);
        if statuses[i].user_id == uid {
            return Some(statuses[i].clone());
        }
        assert(rest.drop_first() =~= statuses@.subrange(i + 1, statuses@.len() as int));
        i = i + 1;
    }
    None
}

/// The listed members of a server (see `member_statuses`).
pub fn select_members(member_ids: &Vec<u16>, statuses: &Vec<UserStatus>) -> (r: Vec<UserStatus>)
    ensures
        r@ == member_statuses(member_ids@, statuses@),
{
    let mut out: Vec<UserStatus> = Vec::new();
    let mut i: usize = 0;
    while i < member_ids.len()
        invariant
            i <= member_ids@.len(),
            out@ == member_statuses(member_ids@.subrange(0, i as int), statuses@),
        decreases member_ids@.len() - i,
    {
        let found = find_status(statuses, member_ids[i]);
        proof {
            assert(member_ids@.subrange(0, i + 1).drop_last() =~= member_ids@.subrange(0, i as int));
        }
        match found {
            Some(s) => out.push(s),
            None => {},
        }
        i = i + 1;
    }
    assert(member_ids@.subrange(0, member_ids@.len() as int) =~= member_ids@);
    out
}

/// Whom a relayed chat message goes to.
#[derive(Debug, Clone, Copy, PartialEq, Eq, Structural)]
pub enum RelayTarget {
    /// Every member of the server.
    ServerMembers(u16),
    /// One user.
    User(u16),
}

/// A chat message as it is stored: the channel (0 for a private message),
/// the sender, the name shown, the text and its kind (`user` or `private`).
#[derive(Debug)]
pub struct StoredMessage {
    pub channel_id: u16,
    pub sender_id: u16,
    pub sender_username: String,
    pub content: String,
    pub kind: String,
}

/// What the server does with a chat message: the row it stores, whom it
/// sends to, and what it sends.
#[derive(Debug)]
pub struct Relay {
    pub store: StoredMessage,
    pub target: RelayTarget,
    pub message: Message,
}

/// A message to a channel from `sender_id`, shown under `sender_username`:
/// nothing happens when the channel does not exist; otherwise it is stored
/// as a `user` message of the channel and sent to every member of the
/// channel's server, under the sender's name.
pub fn relay_channel_message(
    sender_id: u16,
    sender_username: String,
    channel_id: u16,
    channel: &Option<Channel>,
    content: String,
) -> (r: Option<Relay>)
    ensures
        channel is None ==> r is None,
        channel matches Some(c) ==> r matches Some(x) && {
            &&& x.store.channel_id == channel_id
            &&& x.store.sender_id == sender_id
            &&& x.store.sender_username == sender_username
            &&& x.store.content == content
            &&& x.store.kind@ == "user"@
            &&& x.target == RelayTarget::ServerMembers(c.server_id)
            &&& x.message == (Message {
                sender_id,
                message_type: MessageType::ChannelMessage { channel_id, sender_username, content },
            })
        },
{
    match channel {
        None => None,
        Some(c) => {
            let store = StoredMessage {
                channel_id,
                sender_id,
                sender_username: sender_username.clone(),
                content: content.clone(),
                kind: "user".to_string(),
            };
            let message = Message::new(sender_id, MessageType::ChannelMessage { channel_id, sender_username, content });
            Some(Relay { store, target: RelayTarget::ServerMembers(c.server_id), message })
        },
    }
}

/// A private message from `sender_id` to `to_user_id`, shown under
/// `sender_username`: stored as a `private` message under channel 0 and sent
/// to that user alone.
pub fn relay_private_message(sender_id: u16, sender_username: String, to_user_id: u16, content: String) -> (r: Relay)
    ensures
        r.store.channel_id == 0,
        r.store.sender_id == sender_id,
        r.store.sender_username == sender_username,
        r.store.content == content,
        r.store.kind@ == "private"@,
        r.target == RelayTarget::User(to_user_id),
        r.message == (Message {
            sender_id,
            message_type: MessageType::PrivateMessage { to_user_id, sender_username, content },
        }),
{
    let store = StoredMessage {
        channel_id: 0,
        sender_id,
        sender_username: sender_username.clone(),
        content: content.clone(),
        kind: "private".to_string(),
    };
    let message = Message::new(sender_id, MessageType::PrivateMessage { to_user_id, sender_username, content });
    Relay { store, target: RelayTarget::User(to_user_id), message }
}

} // verus!
