//! Core data of the chat system: users, accounts, servers (guilds),
//! channels, and the messages exchanged between clients and the server.

use vstd::prelude::*;
use crate::net::PeerAddr;
use crate::text::str_equals;

verus! {

/// A connected user in the chat system.
#[derive(Debug)]
pub struct User {
    pub id: u16,
    pub username: String,
    pub hash: String,
    pub address: PeerAddr,
    pub is_auth: bool,
}

impl User {
    pub fn new(id: u16, username: String, hash: String, address: PeerAddr, is_auth: bool) -> (r: Self)
        ensures
            r == (User { id, username, hash, address, is_auth }),
    {
        User { id, username, hash, address, is_auth }
    }

    /// Mark the user as authenticated.
    pub fn authed(&mut self)
        ensures
            *final(self) == (User { is_auth: true, ..*old(self) }),
    {
        self.is_auth = true;
    }
}

/// Persistent user account stored in the database.
#[derive(Debug)]
pub struct Account {
    pub username: String,
    pub hash: String,
    pub user_id: u16,
}

impl Clone for Account {
    fn clone(&self) -> (r: Self)
        ensures
            r == *self,
    {
        Account { username: self.username.clone(), hash: self.hash.clone(), user_id: self.user_id }
    }
}

impl Account {
    pub fn new(username: String, hash: String, user_id: u16) -> (r: Self)
        ensures
            r == (Account { username, hash, user_id }),
    {
        Account { username, hash, user_id }
    }
}

/// A server (guild) that contains channels and members.
#[derive(Debug)]
pub struct Server {
    pub id: u16,
    pub name: String,
    pub description: String,
    pub owner_id: u16,
}

impl Clone for Server {
    fn clone(&self) -> (r: Self)
        ensures
            r == *self,
    {
        Server { id: self.id, name: self.name.clone(), description: self.description.clone(), owner_id: self.owner_id }
    }
}

impl Server {
    pub fn new(id: u16, name: String, description: String, owner_id: u16) -> (r: Self)
        ensures
            r == (Server { id, name, description, owner_id }),
    {
        Server { id, name, description, owner_id }
    }
}

/// The type of a channel within a server.
#[derive(Debug, Clone, Copy, PartialEq, Eq, Structural)]
pub enum ChannelType {
    Text,
    Voice,
}

/// The name under which a channel type is stored.
pub open spec fn channel_type_name(t: ChannelType) -> Seq<char> {
    match t {
        ChannelType::Text => seq!['t', 'e', 'x', 't'],
        ChannelType::Voice => seq!['v', 'o', 'i', 'c', 'e'],
    }
}

/// The channel type a stored name stands for: `voice` is a voice channel,
/// anything else a text channel.
pub open spec fn channel_type_from_name(s: Seq<char>) -> ChannelType {
    if s == seq!['v', 'o', 'i', 'c', 'e'] {
        ChannelType::Voice
    } else {
        ChannelType::Text
    }
}

impl ChannelType {
    pub fn as_str(&self) -> (r: &'static str)
        ensures
            r@ == channel_type_name(*self),
    {
        match self {
            ChannelType::Text => {
                proof {
                    reveal_strlit("text");
                    assert("text"@ =~= seq!['t', 'e', 'x', 't']);
                }
                "text"
            },
            ChannelType::Voice => {
                proof {
                    reveal_strlit("voice");
                    assert("voice"@ =~= seq!['v', 'o', 'i', 'c', 'e']);
                }
                "voice"
            },
        }
    }

    pub fn from_str(s: &str) -> (r: Self)
        ensures
            r == channel_type_from_name(s@),
    {
        proof {
            reveal_strlit("voice");
            assert("voice"@ =~= seq!['v', 'o', 'i', 'c', 'e']);
        }
        if str_equals(s, "voice") {
            ChannelType::Voice
        } else {
            ChannelType::Text
        }
    }
}

/// Reading back the stored name of a channel type gives the type.
pub proof fn lemma_channel_type_name_roundtrip(t: ChannelType)
    ensures
        channel_type_from_name(channel_type_name(t)) == t,
{
    if t is Text {
        assert(seq!['t', 'e', 'x', 't'] != seq!['v', 'o', 'i', 'c', 'e']) by {
            assert(seq!['t', 'e', 'x', 't'].len() != seq!['v', 'o', 'i', 'c', 'e'].len());
        }
    }
}

/// A channel within a server.
#[derive(Debug)]
pub struct Channel {
    pub id: u16,
    pub server_id: u16,
    pub name: String,
    pub description: String,
    pub channel_type: ChannelType,
    pub password_hash: Option<String>,
}

/// Whether a channel whose stored password hash is `stored` admits `given`:
/// an open channel admits anything, a protected one only its hash.
pub open spec fn password_admits(stored: Option<String>, given: Seq<char>) -> bool {
    match stored {
        Some(h) => h@ == given,
        None => true,
    }
}

impl Channel {
    pub fn new(id: u16, server_id: u16, name: String, description: String, channel_type: ChannelType) -> (r: Self)
        ensures
            r == (Channel { id, server_id, name, description, channel_type, password_hash: None }),
    {
        Channel { id, server_id, name, description, channel_type, password_hash: None }
    }

    pub fn new_with_password(
        id: u16,
        server_id: u16,
        name: String,
        description: String,
        channel_type: ChannelType,
        password_hash: String,
    ) -> (r: Self)
        ensures
            r == (Channel { id, server_id, name, description, channel_type, password_hash: Some(password_hash) }),
    {
        Channel { id, server_id, name, description, channel_type, password_hash: Some(password_hash) }
    }

    pub fn is_password_protected(&self) -> (r: bool)
        ensures
            r == self.password_hash is Some,
    {
        self.password_hash.is_some()
    }

    pub fn verify_password(&self, password_hash: &str) -> (r: bool)
        ensures
            r == password_admits(self.password_hash, password_hash@),
    {
        match &self.password_hash {
            Some(hash) => str_equals(hash.as_str(), password_hash),
            None => true,
        }
    }
}

/// Voice state of a user, as listed to the clients of a voice room.
#[derive(Debug, Clone)]
pub struct VoiceUserInfo {
    pub user_id: u16,
    pub username: String,
    pub is_muted: bool,
    pub is_deafened: bool,
    pub is_speaking: bool,
}

/// A server as listed to clients.
#[derive(Debug)]
pub struct ServerInfo {
    pub id: u16,
    pub name: String,
    pub description: String,
    pub owner_id: u16,
    pub member_count: u32,
}

impl Clone for ServerInfo {
    fn clone(&self) -> (r: Self)
        ensures
            r == *self,
    {
        ServerInfo {
            id: self.id,
            name: self.name.clone(),
            description: self.description.clone(),
            owner_id: self.owner_id,
            member_count: self.member_count,
        }
    }
}

/// A channel as listed to clients.
#[derive(Debug)]
pub struct ChannelInfo {
    pub id: u16,
    pub server_id: u16,
    pub name: String,
    pub description: String,
    pub channel_type: ChannelType,
    pub is_password_protected: bool,
}

impl Clone for ChannelInfo {
    fn clone(&self) -> (r: Self)
        ensures
            r == *self,
    {
        ChannelInfo {
            id: self.id,
            server_id: self.server_id,
            name: self.name.clone(),
            description: self.description.clone(),
            channel_type: self.channel_type,
            is_password_protected: self.is_password_protected,
        }
    }
}

/// A server together with its channels.
#[derive(Debug, Clone)]
pub struct ServerWithChannels {
    pub server: ServerInfo,
    pub channels: Vec<ChannelInfo>,
}

/// A user's presence, as listed to clients.
#[derive(Debug)]
pub struct UserStatus {
    pub user_id: u16,
    pub username: String,
    pub is_online: bool,
    pub last_seen: String,
}

impl Clone for UserStatus {
    fn clone(&self) -> (r: Self)
        ensures
            r == *self,
    {
        UserStatus {
            user_id: self.user_id,
            username: self.username.clone(),
            is_online: self.is_online,
            last_seen: self.last_seen.clone(),
        }
    }
}

/// The messages of the chat protocol.
///
/// The packet loss of a voice quality report is carried as the bits of its
/// 32-bit floating-point value.
#[derive(Debug, Clone)]
pub enum MessageType {
    // --- Authentication ---
    Register { username: String, password: String },
    Login { username: String, password: String },
    AuthSuccess { user_id: u16, message: String },
    AuthFailure { reason: String },
    // --- Server (Guild) Management ---
    CreateServer { name: String, description: String },
    ServerCreated { server_id: u16, name: String, description: String },
    JoinServer { server_id: u16 },
    LeaveServer { server_id: u16 },
    ServerJoined { server_id: u16, name: String, description: String, channels: Vec<ChannelInfo> },
    ServerLeft { server_id: u16 },
    ListServers,
    ServerList { servers: Vec<ServerInfo> },
    /// Full sync of user's servers + channels (sent after login)
    UserServersSync { servers: Vec<ServerWithChannels> },
    // --- Channel Management ---
    CreateChannel {
        server_id: u16,
        name: String,
        description: String,
        channel_type: ChannelType,
        password: Option<String>,
    },
    ChannelCreated {
        server_id: u16,
        channel_id: u16,
        name: String,
        description: String,
        channel_type: ChannelType,
    },
    JoinChannel { channel_id: u16, password: Option<String> },
    LeaveChannel { channel_id: u16 },
    ChannelJoined {
        server_id: u16,
        channel_id: u16,
        name: String,
        description: String,
        channel_type: ChannelType,
    },
    ListChannels { server_id: u16 },
    ChannelList { server_id: u16, channels: Vec<ChannelInfo> },
    // --- Messaging ---
    ChannelMessage { channel_id: u16, sender_username: String, content: String },
    PrivateMessage { to_user_id: u16, sender_username: String, content: String },
    ServerResponse { success: bool, content: String },
    // --- User Queries ---
    RequestUserList,
    UserListUpdate { users: Vec<UserStatus> },
    RequestServerMembers { server_id: u16 },
    ServerMemberList { server_id: u16, members: Vec<UserStatus> },
    // --- Voice Chat ---
    RequestVoice { channel_id: u16 },
    VoiceCredentials { token: String, udp_port: u16, channel_id: u16 },
    VoiceError { message: String },
    VoiceConnect { channel_id: u16 },
    VoiceDisconnect { channel_id: u16 },
    VoiceConnected { channel_id: u16, udp_port: u16, token: String },
    VoiceStateUpdate { is_muted: bool, is_deafened: bool },
    VoiceSpeaking { user_id: u16, is_speaking: bool },
    VoiceRoomState { channel_id: u16, users: Vec<VoiceUserInfo> },
    VoiceQualityReport { latency_ms: u32, packet_loss_bits: u32, jitter_ms: u32 },
}

/// A message of the protocol with the id of its sender (0 for the server).
#[derive(Debug, Clone)]
pub struct Message {
    pub sender_id: u16,
    pub message_type: MessageType,
}

impl Message {
    pub fn new(sender_id: u16, message_type: MessageType) -> (r: Self)
        ensures
            r == (Message { sender_id, message_type }),
    {
        Message { sender_id, message_type }
    }
}

} // verus!
