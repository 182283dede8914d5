//! Messages of the room-based chat protocol.

use vstd::prelude::*;

verus! {

/// The messages of the room-based protocol.
#[derive(Debug, Clone)]
pub enum MessageType {
    Register { username: String, password: String },
    Login { username: String, password: String },
    AuthSuccess { user_id: u16, message: String },
    AuthFailure { reason: String },
    Join { room_id: u16, password: Option<String> },
    Leave { room_id: u16 },
    CreateRoom { room_id: u16, name: String, description: String, password: Option<String> },
    RoomCreated { room_id: u16, name: String, description: String },
    RoomJoined { room_id: u16, name: String, description: String },
    RoomNotFound { room_id: u16 },
    RoomMessage { room_id: u16, sender_username: String, content: String },
    PrivateMessage { to_user_id: u16, sender_username: String, content: String },
    ServerResponse { success: bool, content: String },
    ListRooms,
    RoomList { rooms: Vec<RoomInfo> },
    UserStatusUpdate { user_id: u16, username: String, is_online: bool },
    UserListUpdate { users: Vec<UserStatus> },
    RequestUserList,
    VoiceChannelJoin { room_id: u16 },
    VoiceChannelLeave { room_id: u16 },
    VoiceChannelJoined { room_id: u16, ssrc: u32, udp_port: u16 },
    VoiceChannelLeft { room_id: u16 },
    VoiceUserSpeaking { user_id: u16, room_id: u16, ssrc: u32, speaking: bool },
    VoiceUserJoined { user_id: u16, username: String, room_id: u16, ssrc: u32 },
    VoiceUserLeft { user_id: u16, room_id: u16 },
}

/// A room as listed to clients.
#[derive(Debug, Clone)]
pub struct RoomInfo {
    pub id: u16,
    pub name: String,
    pub description: String,
    pub is_password_protected: bool,
}

/// A user's presence, as listed to clients.
#[derive(Debug, Clone)]
pub struct UserStatus {
    pub user_id: u16,
    pub username: String,
    pub is_online: bool,
    pub last_seen: String,
}

/// A message with the id of its sender (0 for the server).
#[derive(Debug, Clone)]
pub struct Message {
    pub sender_id: u16,
    pub message_type: MessageType,
}

impl Message {
    pub fn new(sender_id: u16, message_type: MessageType) -> (r: Self)
        ensures
            r == (Message { sender_id, message_type }),
    {
        Message { sender_id, message_type }
    }
}

} // verus!
