//! The state of the terminal chat client and the rules by which it changes:
//! what the client does with each update from the server, each key press and
//! each command typed in the input line. Drawing and the network live around
//! it; what the client sends is collected in its outbox.

use vstd::prelude::*;
use std::collections::HashMap;
use vstd::std_specs::iter::IteratorSpec;
use crate::audio::AudioDeviceInfo;
use crate::clock::now_millis;
use crate::resc::{ChannelInfo, ChannelType, Message, MessageType, ServerInfo, ServerWithChannels, UserStatus};
use crate::server::{first_text_channel, find_first_text_channel};
use crate::text::{digit_char, push_text, decimal, push_decimal, words, split_words, join_words, join_from, texts,
    parse_u16, parse_u16_spec, lowercase, lowercase_spec, str_equals};
use crate::server::is_channel_message;
use vstd::utf8::{encode_utf8, is_char_boundary};

verus! {

broadcast use vstd::std_specs::hash::group_hash_axioms;

/// How long a notification stays on screen, in milliseconds.
pub const NOTIFICATION_DURATION_MS: u64 = 3000;

/// How many notifications are kept at most.
pub const MAX_NOTIFICATIONS: usize = 5;

/// Types of toast notifications displayed in the UI.
#[derive(Debug, Clone, Copy, PartialEq, Eq, Structural)]
pub enum NotificationType {
    /// Operation completed successfully (green)
    Success,
    /// Informational message (blue)
    Info,
    /// Warning that requires attention (yellow)
    Warning,
    /// Error or failure (red)
    Error,
}

/// A toast notification displayed for a while, from `created_at_ms` on.
#[derive(Debug)]
pub struct Notification {
    pub message: String,
    pub notification_type: NotificationType,
    pub created_at_ms: u64,
    pub duration_ms: u64,
}

impl Clone for Notification {
    fn clone(&self) -> (r: Self)
        ensures
            r == *self,
    {
        Notification {
            message: self.message.clone(),
            notification_type: self.notification_type,
            created_at_ms: self.created_at_ms,
            duration_ms: self.duration_ms,
        }
    }
}

/// Whether a notification created at `created` and shown for `duration`
/// milliseconds is over at `now`: more than `duration` has passed.
pub open spec fn expired_at(created: u64, duration: u64, now: u64) -> bool {
    now >= created && now - created > duration
}

impl Notification {
    /// A notification created at `now_ms`, shown for three seconds.
    pub fn new_at(message: String, notification_type: NotificationType, now_ms: u64) -> (r: Self)
        ensures
            r == (Notification { message, notification_type, created_at_ms: now_ms, duration_ms: NOTIFICATION_DURATION_MS }),
    {
        Notification { message, notification_type, created_at_ms: now_ms, duration_ms: NOTIFICATION_DURATION_MS }
    }

    /// A notification created now, shown for three seconds.
    pub fn new(message: String, notification_type: NotificationType) -> (r: Self)
        ensures
            r.message == message,
            r.notification_type == notification_type,
            r.duration_ms == NOTIFICATION_DURATION_MS,
    {
        Notification::new_at(message, notification_type, now_millis())
    }

    /// Whether the notification is over at `now_ms`.
    pub fn is_expired_at(&self, now_ms: u64) -> (r: bool)
        ensures
            r == expired_at(self.created_at_ms, self.duration_ms, now_ms),
    {
        now_ms >= self.created_at_ms && now_ms - self.created_at_ms > self.duration_ms
    }

    /// Whether the notification is over now.
    pub fn is_expired(&self) -> (r: bool)
        ensures
            exists|now_ms: u64| r == #[trigger] expired_at(self.created_at_ms, self.duration_ms, now_ms),
    {
        self.is_expired_at(now_millis())
    }
}

/// Types of chat messages, for styling.
#[derive(Debug, Clone, Copy, PartialEq, Eq, Structural)]
pub enum ChatMessageType {
    User,
    System,
    Private,
    Error,
}

/// A single chat message displayed in the message list.
#[derive(Debug)]
pub struct ChatMessage {
    pub timestamp: String,
    pub sender: String,
    pub content: String,
    pub message_type: ChatMessageType,
}

impl Clone for ChatMessage {
    fn clone(&self) -> (r: Self)
        ensures
            r == *self,
    {
        ChatMessage {
            timestamp: self.timestamp.clone(),
            sender: self.sender.clone(),
            content: self.content.clone(),
            message_type: self.message_type,
        }
    }
}

/// Two decimal digits of `n` (below 100), with a leading zero.
pub open spec fn two_digits(n: nat) -> Seq<char> {
    seq![digit_char(n / 10), digit_char(n % 10)]
}

/// The time of day, `HH:MM` in UTC, of the second `secs` since the epoch.
pub open spec fn clock_label_spec(secs: nat) -> Seq<char> {
    two_digits((secs / 3600) % 24) + seq![':'] + two_digits((secs / 60) % 60)
}

/// The time of day, `HH:MM` in UTC, of the second `secs` since the epoch.
pub fn clock_label(secs: u64) -> (r: String)
    ensures
        r@ == clock_label_spec(secs as nat),
{
    let hours: u64 = (secs / 3600) % 24;
    let minutes: u64 = (secs / 60) % 60;
    let mut s = String::new();
    s.push((48u8 + (hours / 10) as u8) as char);
    s.push((48u8 + (hours % 10) as u8) as char);
    s.push(':');
    s.push((48u8 + (minutes / 10) as u8) as char);
    s.push((48u8 + (minutes % 10) as u8) as char);
    assert(s@ =~= clock_label_spec(secs as nat));
    s
}

/// The time of day now, `HH:MM` in UTC.
pub fn current_time() -> (r: String)
    ensures
        exists|secs: nat| r@ == clock_label_spec(secs),
{
    let secs = now_millis() / 1000;
    clock_label(secs)
}

/// Whether `m` is a chat line stamped at `now_ms`, from `sender`, saying
/// `content`, of type `t`.
pub open spec fn is_chat_line(m: ChatMessage, now_ms: u64, sender: Seq<char>, content: Seq<char>, t: ChatMessageType) -> bool {
    &&& m.timestamp@ == clock_label_spec((now_ms / 1000) as nat)
    &&& m.sender@ == sender
    &&& m.content@ == content
    &&& m.message_type == t
}

/// A chat line stamped at `now_ms`.
pub fn chat_line(now_ms: u64, sender: String, content: String, message_type: ChatMessageType) -> (r: ChatMessage)
    ensures
        is_chat_line(r, now_ms, sender@, content@, message_type),
        r.sender == sender,
        r.content == content,
{
    ChatMessage { timestamp: clock_label(now_ms / 1000), sender, content, message_type }
}

/// The messages kept under `k`, none when there is no list for `k`.
pub open spec fn messages_of(m: Map<u16, Vec<ChatMessage>>, k: u16) -> Seq<ChatMessage> {
    if m.contains_key(k) {
        m[k]@
    } else {
        Seq::empty()
    }
}

/// `new` is `old` with one message appended to the list under `k` (created
/// empty first when missing); the other lists are as they were.
pub open spec fn appended_one(old: Map<u16, Vec<ChatMessage>>, new: Map<u16, Vec<ChatMessage>>, k: u16) -> bool {
    &&& new.dom() == old.dom().insert(k)
    &&& forall|j: u16| #[trigger] old.contains_key(j) && j != k ==> new[j] == old[j]
    &&& new[k]@.len() == messages_of(old, k).len() + 1
    &&& new[k]@.take(messages_of(old, k).len() as int) == messages_of(old, k)
}

/// Append `msg` to the list under `k`, creating the list when missing.
pub fn append_message(lists: &mut HashMap<u16, Vec<ChatMessage>>, k: u16, msg: ChatMessage)
    ensures
        appended_one(old(lists)@, final(lists)@, k),
        final(lists)@[k]@.last() == msg,
{
    let ghost before = messages_of(lists@, k);
    let mut list = match lists.remove(&k) {
        Some(v) => v,
        None => Vec::new(),
    };
    assert(list@ == before);
    list.push(msg);
    lists.insert(k, list);
    assert(lists@.dom() =~= old(lists)@.dom().insert(k));
    assert(lists@[k]@.take(before.len() as int) =~= before);
}

/// Make sure there is a list under `k`, leaving an existing one as it is.
pub fn ensure_list(lists: &mut HashMap<u16, Vec<ChatMessage>>, k: u16)
    ensures
        final(lists)@.dom() == old(lists)@.dom().insert(k),
        forall|j: u16| #[trigger] old(lists)@.contains_key(j) ==> final(lists)@[j] == old(lists)@[j],
        !old(lists)@.contains_key(k) ==> final(lists)@[k]@ == Seq::<ChatMessage>::empty(),
{
    if !lists.contains_key(&k) {
        lists.insert(k, Vec::new());
    }
    assert(lists@.dom() =~= old(lists)@.dom().insert(k));
}

/// The ids of a list of channels.
pub open spec fn channel_ids(channels: Seq<ChannelInfo>) -> Set<u16> {
    Set::new(|k: u16| exists|i: int| 0 <= i < channels.len() && channels[i].id == k)
}

/// A server (guild) with its channels and the message history of each.
#[derive(Debug)]
pub struct ServerData {
    pub id: u16,
    pub name: String,
    pub description: String,
    pub channels: Vec<ChannelInfo>,
    pub channel_messages: HashMap<u16, Vec<ChatMessage>>,
}

/// Whether `sd` is a server just joined: the given id, name, description and
/// channels, and an empty history for each of the channels.
pub open spec fn is_fresh_server(sd: ServerData, id: u16, name: Seq<char>, description: Seq<char>, channels: Seq<ChannelInfo>) -> bool {
    &&& sd.id == id
    &&& sd.name@ == name
    &&& sd.description@ == description
    &&& sd.channels@ == channels
    &&& sd.channel_messages@.dom() == channel_ids(channels)
    &&& forall|k: u16| #[trigger] sd.channel_messages@.contains_key(k) ==> sd.channel_messages@[k]@ == Seq::<ChatMessage>::empty()
}

impl ServerData {
    /// A server just joined, with an empty history for each channel.
    pub fn fresh(id: u16, name: String, description: String, channels: Vec<ChannelInfo>) -> (r: Self)
        ensures
            is_fresh_server(r, id, name@, description@, channels@),
            r.name == name,
            r.description == description,
            r.channels == channels,
    {
        let mut channel_messages: HashMap<u16, Vec<ChatMessage>> = HashMap::new();
        let mut i: usize = 0;
        while i < channels.len()
            invariant
                i <= channels@.len(),
                channel_messages@.dom() == channel_ids(channels@.subrange(0, i as int)),
                forall|k: u16| #[trigger] channel_messages@.contains_key(k) ==> channel_messages@[k]@ == Seq::<ChatMessage>::empty(),
            decreases channels@.len() - i,
        {
            let ghost prev = channels@.subrange(0, i as int);
            let ghost cur = channels@.subrange(0, i + 1);
            channel_messages.insert(channels[i].id, Vec::new());
            assert(channel_messages@.dom() =~= channel_ids(cur)) by {
                assert forall|k: u16| channel_ids(cur).contains(k) implies channel_messages@.dom().contains(k) by {
                    let w = choose|w: int| 0 <= w < cur.len() && cur[w].id == k;
                    if w < prev.len() {
                        assert(prev[w].id == k);
                    }
                }
                assert forall|k: u16| channel_messages@.dom().contains(k) implies channel_ids(cur).contains(k) by {
                    if k != channels@[i as int].id {
                        let w = choose|w: int| 0 <= w < prev.len() && prev[w].id == k;
                        assert(cur[w].id == k);
                    } else {
                        assert(cur[i as int].id == k);
                    }
                }
            }
            i = i + 1;
        }
        assert(channels@.subrange(0, channels@.len() as int) =~= channels@);
        ServerData { id, name, description, channels, channel_messages }
    }
}


/// Updates of the interface state, as the network side hands them over.
///
/// The voice level is carried as the bits of its 32-bit floating-point value.
#[derive(Debug)]
pub enum UIUpdate {
    AuthSuccess { user_id: u16 },
    AuthFailure { reason: String },
    ServerCreated { server_id: u16, name: String, description: String },
    ServerJoined { server_id: u16, name: String, description: String, channels: Vec<ChannelInfo> },
    ServerLeft { server_id: u16 },
    ChannelCreated { server_id: u16, channel_id: u16, name: String, description: String, channel_type: ChannelType },
    ChannelJoined { server_id: u16, channel_id: u16, name: String, description: String, channel_type: ChannelType },
    ChannelMessage { channel_id: u16, sender: String, content: String },
    ServerMessage { content: String, is_error: bool },
    UserListUpdate { users: Vec<UserStatus> },
    ServerList { servers: Vec<ServerInfo> },
    ChannelList { server_id: u16, channels: Vec<ChannelInfo> },
    ServersSync { servers: Vec<ServerWithChannels> },
    PrivateMessage { from_user_id: u16, sender: String, content: String },
    VoiceStatus { connected: bool, message: String },
    VoiceLevel { level_bits: u32 },
    ServerMemberList { server_id: u16, members: Vec<UserStatus> },
}

/// Tab selection for the settings screen.
#[derive(Debug, Clone, Copy, PartialEq, Eq, Structural)]
pub enum SettingsTab {
    Audio,
    Voice,
    Interface,
}

/// Audio device configuration and volume settings.
#[derive(Debug)]
pub struct AudioSettings {
    pub input_devices: Vec<AudioDeviceInfo>,
    pub output_devices: Vec<AudioDeviceInfo>,
    pub selected_input_index: usize,
    pub selected_output_index: usize,
    pub input_volume: u8,
    pub output_volume: u8,
}

impl Default for AudioSettings {
    fn default() -> (r: Self)
        ensures
            r.input_devices@ == Seq::<AudioDeviceInfo>::empty(),
            r.output_devices@ == Seq::<AudioDeviceInfo>::empty(),
            r.selected_input_index == 0,
            r.selected_output_index == 0,
            r.input_volume == 100,
            r.output_volume == 100,
    {
        AudioSettings {
            input_devices: Vec::new(),
            output_devices: Vec::new(),
            selected_input_index: 0,
            selected_output_index: 0,
            input_volume: 100,
            output_volume: 100,
        }
    }
}

/// Authentication screen mode selection.
#[derive(Debug, Clone, Copy, PartialEq, Eq, Structural)]
pub enum AuthMode {
    Login,
    Register,
}

/// The field of the authentication form being typed into.
#[derive(Debug, Clone, Copy, PartialEq, Eq, Structural)]
pub enum AuthField {
    Username,
    Password,
}

/// Whether `i` is where a list of devices starts out selected: the first
/// default device, or the first device when none is the default.
pub open spec fn is_default_index(devices: Seq<AudioDeviceInfo>, i: int) -> bool {
    ||| 0 <= i < devices.len() && devices[i].is_default && forall|j: int| 0 <= j < i ==> !(#[trigger] devices[j]).is_default
    ||| i == 0 && forall|j: int| 0 <= j < devices.len() ==> !(#[trigger] devices[j]).is_default
}

/// The index of the first default device, or 0 when there is none.
pub fn default_device_index(devices: &Vec<AudioDeviceInfo>) -> (r: usize)
    ensures
        is_default_index(devices@, r as int),
{
    let mut i: usize = 0;
    while i < devices.len()
        invariant
            i <= devices@.len(),
            forall|j: int| 0 <= j < i ==> !(#[trigger] devices@[j]).is_default,
        decreases devices@.len() - i,
    {
        if devices[i].is_default {
            return i;
        }
        i = i + 1;
    }
    0
}

/// The notifications kept after one more was added: the oldest goes when
/// there are more than five.
pub open spec fn capped(s: Seq<Notification>) -> Seq<Notification> {
    if s.len() > MAX_NOTIFICATIONS {
        s.drop_first()
    } else {
        s
    }
}

/// Whether a notification is still shown at `now`.
pub open spec fn is_live(n: Notification, now: u64) -> bool {
    !expired_at(n.created_at_ms, n.duration_ms, now)
}

/// The main state of the terminal chat client.
///
/// `connected` tells whether the connection to the server is up; messages to
/// the server are only produced then, and are collected in `outbox`.
#[derive(Debug)]
pub struct TuiChatClient {
    pub server_address: String,
    // Authentication state
    pub authenticated: bool,
    pub user_id: u16,
    pub username: String,
    // Chat state
    pub input: String,
    pub current_server: Option<u16>,
    pub current_channel: Option<u16>,
    pub servers: HashMap<u16, ServerData>,
    // UI state
    pub show_help: bool,
    pub show_server_browser: bool,
    pub show_settings: bool,
    pub show_private_messages: bool,
    pub cursor_position: usize,
    // Server browser state
    pub available_servers: Vec<ServerInfo>,
    pub selected_server_index: usize,
    // Sidebar channel selection index
    pub sidebar_channel_index: usize,
    // Private messages state
    pub private_conversations: HashMap<u16, Vec<ChatMessage>>,
    pub selected_private_user: Option<u16>,
    pub selected_user_index: usize,
    // Auth form state
    pub auth_mode: AuthMode,
    pub auth_username: String,
    pub auth_password: String,
    pub auth_field: AuthField,
    pub auth_error: Option<String>,
    // Network state
    pub connected: bool,
    pub outbox: Vec<Message>,
    pub online_users: Vec<UserStatus>,
    // Voice state
    pub voice_connected: bool,
    pub voice_muted: bool,
    pub voice_deafened: bool,
    pub voice_level_bits: u32,
    pub voice_channel_id: Option<u16>,
    // Audio settings
    pub audio_settings: AudioSettings,
    pub settings_tab: SettingsTab,
    pub settings_field: usize,
    // Notifications
    pub notifications: Vec<Notification>,
    // Message scroll state
    pub message_scroll_offset: usize,
}

/// Whether `new` is `old` with one more message produced for the server:
/// the message is queued when the client is connected, dropped otherwise.
pub open spec fn queued(old: Seq<Message>, new: Seq<Message>, connected: bool, m: Message) -> bool {
    if connected {
        new == old.push(m)
    } else {
        new == old
    }
}

/// The message that joins a text channel, without a password.
pub open spec fn join_channel_msg(user_id: u16, channel_id: u16) -> Message {
    Message { sender_id: user_id, message_type: MessageType::JoinChannel { channel_id, password: None } }
}

/// Whether every server of `old` but `sid` is kept in `new`, and `sid` keeps
/// its id, name, description and channels, one message having been added to
/// the history of channel `cid`.
pub open spec fn server_gets_line(old: Map<u16, ServerData>, new: Map<u16, ServerData>, sid: u16, cid: u16) -> bool {
    &&& old.contains_key(sid)
    &&& new.dom() == old.dom()
    &&& forall|j: u16| #[trigger] old.contains_key(j) && j != sid ==> new[j] == old[j]
    &&& new[sid].id == old[sid].id
    &&& new[sid].name == old[sid].name
    &&& new[sid].description == old[sid].description
    &&& new[sid].channels == old[sid].channels
    &&& appended_one(old[sid].channel_messages@, new[sid].channel_messages@, cid)
}

/// Add `msg` to the history of channel `cid` of server `sid`.
pub fn push_server_line(servers: &mut HashMap<u16, ServerData>, sid: u16, cid: u16, msg: ChatMessage)
    requires
        old(servers)@.contains_key(sid),
    ensures
        server_gets_line(old(servers)@, final(servers)@, sid, cid),
        final(servers)@[sid].channel_messages@[cid]@.last() == msg,
{
    let ghost before = servers@;
    let mut sd = servers.remove(&sid).unwrap();
    append_message(&mut sd.channel_messages, cid, msg);
    servers.insert(sid, sd);
    assert(servers@.dom() =~= before.dom());
}

impl TuiChatClient {
    /// A client that is not logged in, for the server at `server_address`,
    /// with the audio devices found; the first default device of each list
    /// starts out selected.
    pub fn new(server_address: String, input_devices: Vec<AudioDeviceInfo>, output_devices: Vec<AudioDeviceInfo>) -> (r: Self)
        ensures
            r.server_address == server_address,
            !r.authenticated,
            r.user_id == 0,
            r.username@ == Seq::<char>::empty(),
            r.input@ == Seq::<char>::empty(),
            r.current_server is None,
            r.current_channel is None,
            r.servers@ == Map::<u16, ServerData>::empty(),
            !r.show_help && !r.show_server_browser && !r.show_settings && !r.show_private_messages,
            r.cursor_position == 0,
            r.available_servers@ == Seq::<ServerInfo>::empty(),
            r.selected_server_index == 0,
            r.sidebar_channel_index == 0,
            r.private_conversations@ == Map::<u16, Vec<ChatMessage>>::empty(),
            r.selected_private_user is None,
            r.selected_user_index == 0,
            r.auth_mode == AuthMode::Login,
            r.auth_username@ == Seq::<char>::empty(),
            r.auth_password@ == Seq::<char>::empty(),
            r.auth_field == AuthField::Username,
            r.auth_error is None,
            !r.connected,
            r.outbox@ == Seq::<Message>::empty(),
            r.online_users@ == Seq::<UserStatus>::empty(),
            !r.voice_connected && !r.voice_muted && !r.voice_deafened,
            r.voice_level_bits == 0,
            r.voice_channel_id is None,
            r.audio_settings.input_devices == input_devices,
            r.audio_settings.output_devices == output_devices,
            is_default_index(input_devices@, r.audio_settings.selected_input_index as int),
            is_default_index(output_devices@, r.audio_settings.selected_output_index as int),
            r.audio_settings.input_volume == 100,
            r.audio_settings.output_volume == 100,
            r.settings_tab == SettingsTab::Audio,
            r.settings_field == 0,
            r.notifications@ == Seq::<Notification>::empty(),
            r.message_scroll_offset == 0,
    {
        let selected_input_index = default_device_index(&input_devices);
        let selected_output_index = default_device_index(&output_devices);
        TuiChatClient {
            server_address,
            authenticated: false,
            user_id: 0,
            username: String::new(),
            input: String::new(),
            current_server: None,
            current_channel: None,
            servers: HashMap::new(),
            show_help: false,
            show_server_browser: false,
            show_settings: false,
            show_private_messages: false,
            cursor_position: 0,
            available_servers: Vec::new(),
            selected_server_index: 0,
            sidebar_channel_index: 0,
            private_conversations: HashMap::new(),
            selected_private_user: None,
            selected_user_index: 0,
            auth_mode: AuthMode::Login,
            auth_username: String::new(),
            auth_password: String::new(),
            auth_field: AuthField::Username,
            auth_error: None,
            connected: false,
            outbox: Vec::new(),
            online_users: Vec::new(),
            voice_connected: false,
            voice_muted: false,
            voice_deafened: false,
            voice_level_bits: 0,
            voice_channel_id: None,
            audio_settings: AudioSettings {
                input_devices,
                output_devices,
                selected_input_index,
                selected_output_index,
                input_volume: 100,
                output_volume: 100,
            },
            settings_tab: SettingsTab::Audio,
            settings_field: 0,
            notifications: Vec::new(),
            message_scroll_offset: 0,
        }
    }

    /// Queue a message for the server, when connected.
    pub fn send(&mut self, m: Message)
        ensures
            queued(old(self).outbox@, final(self).outbox@, old(self).connected, m),
            *final(self) == (TuiChatClient { outbox: final(self).outbox, ..*old(self) }),
    {
        if self.connected {
            self.outbox.push(m);
        }
    }

    /// Show a notification created at `now_ms`; only the five newest are kept.
    pub fn add_notification(&mut self, message: String, notification_type: NotificationType, now_ms: u64)
        ensures
            final(self).notifications@ == capped(old(self).notifications@.push(
                Notification { message, notification_type, created_at_ms: now_ms, duration_ms: NOTIFICATION_DURATION_MS },
            )),
            *final(self) == (TuiChatClient { notifications: final(self).notifications, ..*old(self) }),
    {
        self.notifications.push(Notification::new_at(message, notification_type, now_ms));
        if self.notifications.len() > MAX_NOTIFICATIONS {
            self.notifications.remove(0);
            assert(self.notifications@ =~= capped(old(self).notifications@.push(
                Notification { message, notification_type, created_at_ms: now_ms, duration_ms: NOTIFICATION_DURATION_MS },
            )));
        }
    }

    /// Drop the notifications that are over at `now_ms`, keeping the order of the others.
    pub fn prune_notifications(&mut self, now_ms: u64)
        ensures
            final(self).notifications@ == old(self).notifications@.filter(|n: Notification| is_live(n, now_ms)),
            *final(self) == (TuiChatClient { notifications: final(self).notifications, ..*old(self) }),
    {
        let mut kept: Vec<Notification> = Vec::new();
        let mut i: usize = 0;
        while i < self.notifications.len()
            invariant
                i <= self.notifications@.len(),
                self.notifications == old(self).notifications,
                kept@ == self.notifications@.take(i as int).filter(|n: Notification| is_live(n, now_ms)),
            decreases self.notifications@.len() - i,
        {
            let n = &self.notifications[i];
            proof {
                reveal(Seq::filter);
                assert(self.notifications@.take(i + 1).drop_last() =~= self.notifications@.take(i as int));
            }
            if !n.is_expired_at(now_ms) {
                kept.push(n.clone());
            }
            i = i + 1;
        }
        assert(self.notifications@.take(self.notifications@.len() as int) =~= self.notifications@);
        self.notifications = kept;
    }

    /// Take up newly listed audio devices; a selection past the end of its
    /// list goes back to the first device.
    pub fn refresh_audio_devices(&mut self, input_devices: Vec<AudioDeviceInfo>, output_devices: Vec<AudioDeviceInfo>)
        ensures
            final(self).audio_settings.input_devices == input_devices,
            final(self).audio_settings.output_devices == output_devices,
            final(self).audio_settings.selected_input_index == if old(self).audio_settings.selected_input_index
                >= input_devices@.len() { 0 } else { old(self).audio_settings.selected_input_index },
            final(self).audio_settings.selected_output_index == if old(self).audio_settings.selected_output_index
                >= output_devices@.len() { 0 } else { old(self).audio_settings.selected_output_index },
            final(self).audio_settings.input_volume == old(self).audio_settings.input_volume,
            final(self).audio_settings.output_volume == old(self).audio_settings.output_volume,
            *final(self) == (TuiChatClient { audio_settings: final(self).audio_settings, ..*old(self) }),
    {
        self.audio_settings.input_devices = input_devices;
        self.audio_settings.output_devices = output_devices;
        if self.audio_settings.selected_input_index >= self.audio_settings.input_devices.len() {
            self.audio_settings.selected_input_index = 0;
        }
        if self.audio_settings.selected_output_index >= self.audio_settings.output_devices.len() {
            self.audio_settings.selected_output_index = 0;
        }
    }

    /// The name of the selected input device, if the selection is in range.
    pub fn selected_input_device(&self) -> (r: Option<&str>)
        ensures
            match r {
                Some(name) => self.audio_settings.selected_input_index < self.audio_settings.input_devices@.len()
                    && name@ == self.audio_settings.input_devices@[self.audio_settings.selected_input_index as int].name@,
                None => self.audio_settings.selected_input_index >= self.audio_settings.input_devices@.len(),
            },
    {
        let i = self.audio_settings.selected_input_index;
        if i < self.audio_settings.input_devices.len() {
            Some(self.audio_settings.input_devices[i].name.as_str())
        } else {
            None
        }
    }

    /// The name of the selected output device, if the selection is in range.
    pub fn selected_output_device(&self) -> (r: Option<&str>)
        ensures
            match r {
                Some(name) => self.audio_settings.selected_output_index < self.audio_settings.output_devices@.len()
                    && name@ == self.audio_settings.output_devices@[self.audio_settings.selected_output_index as int].name@,
                None => self.audio_settings.selected_output_index >= self.audio_settings.output_devices@.len(),
            },
    {
        let i = self.audio_settings.selected_output_index;
        if i < self.audio_settings.output_devices.len() {
            Some(self.audio_settings.output_devices[i].name.as_str())
        } else {
            None
        }
    }

    /// The ids of the joined servers, in increasing order.
    pub fn joined_server_ids(&self) -> (r: Vec<u16>)
        ensures
            forall|i: int, j: int| 0 <= i < j < r@.len() ==> r@[i] < r@[j],
            forall|k: u16| r@.contains(k) <==> self.servers@.contains_key(k),
    {
        let mut ids: Vec<u16> = Vec::new();
        let ghost m = self.servers@;
        for k in it: self.servers.keys()
            invariant
                m == self.servers@,
                it.seq() == vstd::std_specs::hash::spec_keys_iter(&self.servers).remaining(),
                0 <= it.index() <= it.seq().len(),
                it.seq().no_duplicates(),
                forall|a: int, b: int| 0 <= a < b < ids@.len() ==> ids@[a] < ids@[b],
                forall|x: u16| ids@.contains(x) <==> exists|j: int| 0 <= j < it.index() && *(#[trigger] it.seq()[j]) == x,
        {
            let ghost idx = it.index();
            let ghost v = it.seq();
            proof {
                assert(*k == *v[idx]);
                if ids@.contains(*k) {
                    let j = choose|j: int| 0 <= j < idx && *(#[trigger] v[j]) == *k;
                    assert(v[j] == v[idx]);
                }
            }
            insert_sorted(&mut ids, *k);
            proof {
                assert forall|x: u16| ids@.contains(x) <==> exists|j: int| 0 <= j < idx + 1 && *(#[trigger] v[j]) == x by {
                    if x == *k {
                        assert(*v[idx] == x);
                    }
                }
            }
        }
        proof {
            let v = vstd::std_specs::hash::spec_keys_iter(&self.servers).remaining();
            let u = v.unref();
            assert(u.to_set() == m.dom());
            assert forall|x: u16| ids@.contains(x) <==> m.contains_key(x) by {
                if m.contains_key(x) {
                    assert(u.to_set().contains(x));
                    let j = choose|j: int| 0 <= j < u.len() && u[j] == x;
                    assert(*v[j] == x);
                }
                if ids@.contains(x) {
                    let j = choose|j: int| 0 <= j < v.len() && *(#[trigger] v[j]) == x;
                    assert(u[j] == x);
                    assert(u.to_set().contains(x));
                }
            }
        }
        ids
    }

    /// Add a line from `System` to the open channel of the open server, when
    /// both are set and the server is joined.
    pub fn add_system_message(&mut self, content: String, msg_type: ChatMessageType, now_ms: u64)
        ensures
            match (old(self).current_channel, old(self).current_server) {
                (Some(cid), Some(sid)) => if old(self).servers@.contains_key(sid) {
                    &&& server_gets_line(old(self).servers@, final(self).servers@, sid, cid)
                    &&& is_chat_line(final(self).servers@[sid].channel_messages@[cid]@.last(), now_ms, "System"@, content@, msg_type)
                } else {
                    final(self).servers@ == old(self).servers@
                },
                _ => final(self).servers@ == old(self).servers@,
            },
            *final(self) == (TuiChatClient { servers: final(self).servers, ..*old(self) }),
    {
        if let Some(channel_id) = self.current_channel {
            if let Some(server_id) = self.current_server {
                if self.servers.contains_key(&server_id) {
                    let mut sender = String::new();
                    push_text(&mut sender, "System");
                    let line = chat_line(now_ms, sender, content, msg_type);
                    push_server_line(&mut self.servers, server_id, channel_id, line);
                }
            }
        }
    }
}

/// Insert `k` into an increasing list that lacks it, keeping it increasing.
fn insert_sorted(v: &mut Vec<u16>, k: u16)
    requires
        forall|a: int, b: int| 0 <= a < b < old(v)@.len() ==> old(v)@[a] < old(v)@[b],
        !old(v)@.contains(k),
    ensures
        forall|a: int, b: int| 0 <= a < b < final(v)@.len() ==> final(v)@[a] < final(v)@[b],
        forall|x: u16| final(v)@.contains(x) <==> old(v)@.contains(x) || x == k,
{
    let mut i: usize = 0;
    while i < v.len() && v[i] < k
        invariant
            i <= v@.len(),
            v@ == old(v)@,
            forall|a: int| 0 <= a < i ==> v@[a] < k,
        decreases v@.len() - i,
    {
        i = i + 1;
    }
    proof {
        if i < v@.len() {
            assert(v@[i as int] != k);
        }
    }
    v.insert(i, k);
    proof {
        let o = old(v)@;
        assert forall|a: int, b: int| 0 <= a < b < v@.len() implies v@[a] < v@[b] by {
            if b < i {
                assert(v@[a] == o[a] && v@[b] == o[b]);
            } else if b == i {
                assert(v@[a] == o[a]);
            } else if a < i {
                assert(v@[a] == o[a] && v@[b] == o[b - 1]);
                assert(o[b - 1] >= o[i as int] || b - 1 == i);
            } else if a == i {
                assert(v@[b] == o[b - 1]);
                assert(o[i as int] > k);
                assert(o[b - 1] >= o[i as int] || b - 1 == i);
            } else {
                assert(v@[a] == o[a - 1] && v@[b] == o[b - 1]);
            }
        }
        assert forall|x: u16| v@.contains(x) <==> o.contains(x) || x == k by {
            if v@.contains(x) {
                let w = choose|w: int| 0 <= w < v@.len() && v@[w] == x;
                if w < i {
                    assert(o[w] == x);
                } else if w > i {
                    assert(o[w - 1] == x);
                }
            }
            if o.contains(x) {
                let w = choose|w: int| 0 <= w < o.len() && o[w] == x;
                if w < i {
                    assert(v@[w] == x);
                } else {
                    assert(v@[w + 1] == x);
                }
            }
            if x == k {
                assert(v@[i as int] == k);
            }
        }
    }
}


/// Whether `new` is `old` after one notification with the given text, type
/// and creation time was added (see `capped`).
pub open spec fn notified(old: Seq<Notification>, new: Seq<Notification>, text: Seq<char>, t: NotificationType, now: u64) -> bool {
    &&& new.len() > 0
    &&& new == capped(old.push(new.last()))
    &&& new.last().message@ == text
    &&& new.last().notification_type == t
    &&& new.last().created_at_ms == now
    &&& new.last().duration_ms == NOTIFICATION_DURATION_MS
}

/// Whether `c` describes the channel `id` of server `sid` with the given
/// name, description and type, without a password.
pub open spec fn is_channel(c: ChannelInfo, id: u16, sid: u16, name: Seq<char>, description: Seq<char>, t: ChannelType) -> bool {
    &&& c.id == id
    &&& c.server_id == sid
    &&& c.name@ == name
    &&& c.description@ == description
    &&& c.channel_type == t
    &&& !c.is_password_protected
}

/// Whether the servers `new` are those of `o` after a line from `System`
/// went to the open channel of the open server (when both are set and the
/// server is joined).
pub open spec fn system_line_added(o: TuiChatClient, new: Map<u16, ServerData>, content: Seq<char>, t: ChatMessageType, now: u64) -> bool {
    match (o.current_channel, o.current_server) {
        (Some(cid), Some(sid)) => if o.servers@.contains_key(sid) {
            &&& server_gets_line(o.servers@, new, sid, cid)
            &&& is_chat_line(new[sid].channel_messages@[cid]@.last(), now, "System"@, content, t)
        } else {
            new == o.servers@
        },
        _ => new == o.servers@,
    }
}

/// The server whose id is `k` among `list`, the last one when several are.
pub open spec fn last_with_id(list: Seq<ServerWithChannels>, k: u16) -> Option<int>
    decreases list.len(),
{
    if list.len() == 0 {
        None
    } else if list.last().server.id == k {
        Some(list.len() - 1)
    } else {
        last_with_id(list.drop_last(), k)
    }
}

proof fn lemma_last_with_id(list: Seq<ServerWithChannels>, k: u16)
    ensures
        match last_with_id(list, k) {
            Some(w) => 0 <= w < list.len() && list[w].server.id == k,
            None => true,
        },
    decreases list.len(),
{
    if list.len() > 0 && list.last().server.id != k {
        lemma_last_with_id(list.drop_last(), k);
    }
}

/// Whether `new` holds the servers of `old` and those of `list`, a server of
/// `list` replacing the one with its id (the last of `list` winning).
pub open spec fn synced(old: Map<u16, ServerData>, new: Map<u16, ServerData>, list: Seq<ServerWithChannels>) -> bool {
    forall|k: u16| #![trigger new.contains_key(k)] #![trigger old.contains_key(k)] match last_with_id(list, k) {
        Some(i) => new.contains_key(k) && is_fresh_server(new[k], k, list[i].server.name@,
            list[i].server.description@, list[i].channels@),
        None => new.contains_key(k) == old.contains_key(k) && (old.contains_key(k) ==> new[k] == old[k]),
    }
}

impl TuiChatClient {
    /// A login or registration was accepted: the user is in, under the name
    /// typed in the form, and the password typed is forgotten.
    fn on_auth_success(&mut self, user_id: u16)
        ensures
            auth_success_applied(*old(self), *final(self), user_id),
    {
        self.authenticated = true;
        self.user_id = user_id;
        self.username = self.auth_username.clone();
        self.auth_error = None;
        self.auth_password = String::new();
    }

    /// A server was created: say so.
    fn on_server_created(&mut self, server_id: u16, name: String, now_ms: u64)
        ensures
            server_created_applied(*old(self), *final(self), server_id, name, now_ms),
    {
        let mut text = String::new();
        push_text(&mut text, "Server '");
        push_text(&mut text, name.as_str());
        push_text(&mut text, "' created (ID: ");
        push_decimal(&mut text, server_id as u64);
        push_text(&mut text, ")");
        self.add_notification(text, NotificationType::Success, now_ms);
    }

    /// The user joined a server: keep it with an empty history per channel;
    /// when no server is open, open it and its first text channel (asking the
    /// server to join that channel); say so.
    fn on_server_joined(&mut self, server_id: u16, name: String, description: String, channels: Vec<ChannelInfo>, now_ms: u64)
        ensures
            server_joined_applied(*old(self), *final(self), server_id, name, description, channels, now_ms),
    {
        let first_text = find_first_text_channel(&channels);
        let mut text = String::new();
        push_text(&mut text, "Joined server '");
        push_text(&mut text, name.as_str());
        push_text(&mut text, "'");
        let server_data = ServerData::fresh(server_id, name, description, channels);
        self.servers.insert(server_id, server_data);
        if self.current_server.is_none() {
            self.current_server = Some(server_id);
            self.sidebar_channel_index = 0;
            if let Some(channel_id) = first_text {
                self.current_channel = Some(channel_id);
                let m = Message::new(self.user_id, MessageType::JoinChannel { channel_id, password: None });
                self.send(m);
            }
        }
        self.add_notification(text, NotificationType::Success, now_ms);
    }

    /// The user left a server: forget it and say so; when it was open, open
    /// another joined server, if any, and its first text channel.
    fn on_server_left(&mut self, server_id: u16, now_ms: u64)
        ensures
            server_left_applied(*old(self), *final(self), server_id, now_ms),
    {
        if let Some(server) = self.servers.remove(&server_id) {
            let mut text = String::new();
            push_text(&mut text, "Left server '");
            push_text(&mut text, server.name.as_str());
            push_text(&mut text, "'");
            self.add_notification(text, NotificationType::Info, now_ms);
        }
        if self.current_server == Some(server_id) {
            self.current_server = some_server_id(&self.servers);
            self.current_channel = None;
            self.sidebar_channel_index = 0;
            if let Some(sid) = self.current_server {
                if let Some(server) = self.servers.get(&sid) {
                    self.current_channel = find_first_text_channel(&server.channels);
                }
            }
        }
    }
}

/// The id of some joined server, the first met when walking the map; none
/// when no server is joined.
pub fn some_server_id(servers: &HashMap<u16, ServerData>) -> (r: Option<u16>)
    ensures
        match r {
            Some(k) => servers@.contains_key(k),
            None => servers@.dom().is_empty(),
        },
{
    let mut r: Option<u16> = None;
    let ghost m = servers@;
    for k in it: servers.keys()
        invariant
            m == servers@,
            it.seq() == vstd::std_specs::hash::spec_keys_iter(servers).remaining(),
            0 <= it.index() <= it.seq().len(),
            match r {
                Some(x) => m.contains_key(x),
                None => it.index() == 0,
            },
    {
        proof {
            let v = it.seq();
            let u = v.unref();
            assert(u.to_set() == m.dom());
            assert(u[it.index() as int] == *k);
            assert(u.to_set().contains(*k));
        }
        if r.is_none() {
            r = Some(*k);
        }
    }
    proof {
        if r is None {
            let u = vstd::std_specs::hash::spec_keys_iter(servers).remaining().unref();
            assert(u.to_set() == m.dom());
            assert(u.len() == 0);
            assert(m.dom() =~= Set::<u16>::empty()) by {
                assert forall|x: u16| !m.dom().contains(x) by {
                    if m.dom().contains(x) {
                        assert(u.to_set().contains(x));
                    }
                }
            }
        }
    }
    r
}


/// Whether a channel with id `cid` is among `channels`.
pub fn has_channel(channels: &Vec<ChannelInfo>, cid: u16) -> (r: bool)
    ensures
        r == channel_ids(channels@).contains(cid),
{
    let mut i: usize = 0;
    while i < channels.len()
        invariant
            i <= channels@.len(),
            forall|j: int| 0 <= j < i ==> (#[trigger] channels@[j]).id != cid,
        decreases channels@.len() - i,
    {
        if channels[i].id == cid {
            return true;
        }
        i = i + 1;
    }
    false
}

/// Whether `new` is the server `old` with its channels and histories
/// changed only: same id, name and description.
pub open spec fn same_server_header(old: ServerData, new: ServerData) -> bool {
    new.id == old.id && new.name == old.name && new.description == old.description
}

impl TuiChatClient {
    /// A channel was created in a server: add it with an empty history to
    /// the server, when joined; say so.
    fn on_channel_created(&mut self, server_id: u16, channel_id: u16, name: String, description: String,
        channel_type: ChannelType, now_ms: u64)
        ensures
            channel_created_applied(*old(self), *final(self), server_id, channel_id, name, description, channel_type, now_ms),
    {
        let mut text = String::new();
        push_text(&mut text, "Channel '");
        push_text(&mut text, name.as_str());
        push_text(&mut text, "' created");
        if self.servers.contains_key(&server_id) {
            let ghost before = self.servers@;
            let mut server = self.servers.remove(&server_id).unwrap();
            server.channels.push(ChannelInfo {
                id: channel_id,
                server_id,
                name,
                description,
                channel_type,
                is_password_protected: false,
            });
            server.channel_messages.insert(channel_id, Vec::new());
            self.servers.insert(server_id, server);
            proof {
                let o = before[server_id];
                let n = self.servers@[server_id];
                assert(n.channels@.drop_last() =~= o.channels@);
                assert(n.channel_messages@.dom() =~= o.channel_messages@.dom().insert(channel_id));
                assert(self.servers@ =~= before.insert(server_id, n));
            }
        }
        self.add_notification(text, NotificationType::Success, now_ms);
    }

    /// The user joined a channel: record it in its server, when joined, if
    /// not there yet, and make sure it has a history.
    fn on_channel_joined(&mut self, server_id: u16, channel_id: u16, name: String, description: String,
        channel_type: ChannelType)
        ensures
            channel_joined_applied(*old(self), *final(self), server_id, channel_id, name, description, channel_type),
    {
        if self.servers.contains_key(&server_id) {
            let ghost before = self.servers@;
            let mut server = self.servers.remove(&server_id).unwrap();
            if !has_channel(&server.channels, channel_id) {
                server.channels.push(ChannelInfo {
                    id: channel_id,
                    server_id,
                    name,
                    description,
                    channel_type,
                    is_password_protected: false,
                });
            }
            ensure_list(&mut server.channel_messages, channel_id);
            self.servers.insert(server_id, server);
            proof {
                let o = before[server_id];
                let n = self.servers@[server_id];
                if !channel_ids(o.channels@).contains(channel_id) {
                    assert(n.channels@.drop_last() =~= o.channels@);
                }
                assert(self.servers@ =~= before.insert(server_id, n));
            }
        }
    }

    /// A message arrived in a channel: add it to the history of that channel
    /// in a joined server that has it, if any.
    fn on_channel_message(&mut self, channel_id: u16, sender: String, content: String, now_ms: u64)
        ensures
            channel_message_applied(*old(self), *final(self), channel_id, sender, content, now_ms),
    {
        let ids = self.joined_server_ids();
        let ghost m = self.servers@;
        let mut i: usize = 0;
        while i < ids.len()
            invariant
                i <= ids@.len(),
                *self == *old(self),
                m == old(self).servers@,
                forall|k: u16| ids@.contains(k) <==> m.contains_key(k),
                forall|j: int| 0 <= j < i ==> !channel_ids(m[#[trigger] ids@[j]].channels@).contains(channel_id),
            decreases ids@.len() - i,
        {
            let sid = ids[i];
            assert(ids@.contains(sid));
            let found = match self.servers.get(&sid) {
                Some(server) => has_channel(&server.channels, channel_id),
                None => false,
            };
            if found {
                let line = chat_line(now_ms, sender, content, ChatMessageType::User);
                push_server_line(&mut self.servers, sid, channel_id, line);
                return;
            }
            i = i + 1;
        }
        proof {
            assert forall|k: u16| #[trigger] m.contains_key(k) implies !channel_ids(m[k].channels@).contains(channel_id) by {
                assert(ids@.contains(k));
                let j = choose|j: int| 0 <= j < ids@.len() && ids@[j] == k;
            }
        }
    }

    /// The channels of a joined server were listed: keep existing histories,
    /// start one for each new channel, and take the list as the server's channels.
    fn on_channel_list(&mut self, server_id: u16, channels: Vec<ChannelInfo>)
        ensures
            channel_list_applied(*old(self), *final(self), server_id, channels),
    {
        if self.servers.contains_key(&server_id) {
            let ghost before = self.servers@;
            let mut server = self.servers.remove(&server_id).unwrap();
            let ghost o = server;
            let mut i: usize = 0;
            while i < channels.len()
                invariant
                    i <= channels@.len(),
                    same_server_header(o, server),
                    server.channels == o.channels,
                    server.channel_messages@.dom() == o.channel_messages@.dom().union(channel_ids(channels@.subrange(0, i as int))),
                    forall|j: u16| #[trigger] o.channel_messages@.contains_key(j) ==> server.channel_messages@[j] == o.channel_messages@[j],
                    forall|j: u16| #[trigger] server.channel_messages@.contains_key(j) && !o.channel_messages@.contains_key(j)
                        ==> server.channel_messages@[j]@ == Seq::<ChatMessage>::empty(),
                decreases channels@.len() - i,
            {
                let ghost prev = channels@.subrange(0, i as int);
                let ghost cur = channels@.subrange(0, i + 1);
                let ghost lists0 = server.channel_messages@;
                ensure_list(&mut server.channel_messages, channels[i].id);
                proof {
                    assert forall|j: u16| #[trigger] o.channel_messages@.contains_key(j)
                        implies server.channel_messages@[j] == o.channel_messages@[j] by {
                        assert(lists0.contains_key(j));
                    }
                    assert forall|j: u16| #[trigger] server.channel_messages@.contains_key(j) && !o.channel_messages@.contains_key(j)
                        implies server.channel_messages@[j]@ == Seq::<ChatMessage>::empty() by {
                        if lists0.contains_key(j) {
                            assert(server.channel_messages@[j] == lists0[j]);
                        }
                    }
                    assert forall|k: u16| channel_ids(cur).contains(k) <==> channel_ids(prev).contains(k) || k == channels@[i as int].id by {
                        if channel_ids(cur).contains(k) {
                            let w = choose|w: int| 0 <= w < cur.len() && cur[w].id == k;
                            if w < prev.len() {
                                assert(prev[w].id == k);
                            }
                        }
                        if channel_ids(prev).contains(k) {
                            let w = choose|w: int| 0 <= w < prev.len() && prev[w].id == k;
                            assert(cur[w].id == k);
                        }
                        if k == channels@[i as int].id {
                            assert(cur[i as int].id == k);
                        }
                    }
                    assert(server.channel_messages@.dom() =~= o.channel_messages@.dom().union(channel_ids(cur)));
                }
                i = i + 1;
            }
            assert(channels@.subrange(0, channels@.len() as int) =~= channels@);
            server.channels = channels;
            self.servers.insert(server_id, server);
            proof {
                assert(self.servers@ =~= before.insert(server_id, self.servers@[server_id]));
            }
        }
    }

    /// A private message arrived: add it to the conversation with its sender.
    fn on_private_message(&mut self, from_user_id: u16, sender: String, content: String, now_ms: u64)
        ensures
            private_message_applied(*old(self), *final(self), from_user_id, sender, content, now_ms),
    {
        let line = chat_line(now_ms, sender, content, ChatMessageType::Private);
        append_message(&mut self.private_conversations, from_user_id, line);
    }

    /// A server reply with a text: show it as a notification (an error when
    /// it reports a failure) and as a line in the open channel.
    fn on_server_message(&mut self, content: String, is_error: bool, now_ms: u64)
        ensures
            server_message_applied(*old(self), *final(self), content, is_error, now_ms),
    {
        if is_error {
            self.add_notification(content.clone(), NotificationType::Error, now_ms);
        } else {
            self.add_notification(content.clone(), NotificationType::Info, now_ms);
        }
        let msg_type = if is_error { ChatMessageType::Error } else { ChatMessageType::System };
        self.add_system_message(content, msg_type, now_ms);
    }

    /// The voice connection changed: record it, say so when it went up or
    /// down (forgetting the voice channel when it went down), and show the
    /// message as a line in the open channel.
    fn on_voice_status(&mut self, connected: bool, message: String, now_ms: u64)
        ensures
            voice_status_applied(*old(self), *final(self), connected, message, now_ms),
    {
        let was_connected = self.voice_connected;
        self.voice_connected = connected;
        if connected && !was_connected {
            let text = "Voice connected!".to_string();
                        self.add_notification(text, NotificationType::Success, now_ms);
        } else if !connected && was_connected {
            let text = "Voice disconnected".to_string();
                        self.add_notification(text, NotificationType::Info, now_ms);
            self.voice_channel_id = None;
        }
        self.add_system_message(message, ChatMessageType::System, now_ms);
    }
}


/// The effect of `TuiChatClient::on_auth_success` on a client `o`, giving `n`.
pub open spec fn auth_success_applied(o: TuiChatClient, n: TuiChatClient, user_id: u16) -> bool {
    &&& n.username@ == o.auth_username@
    &&& n.auth_password@ == Seq::<char>::empty()
    &&& n == (TuiChatClient {
            authenticated: true,
            user_id,
            username: n.username,
            auth_error: None,
            auth_password: n.auth_password,
            ..o
    })
}

/// The effect of `TuiChatClient::on_server_created` on a client `o`, giving `n`.
pub open spec fn server_created_applied(o: TuiChatClient, n: TuiChatClient, server_id: u16, name: String, now_ms: u64) -> bool {
    &&& notified(o.notifications@, n.notifications@,
            "Server '"@ + name@ + "' created (ID: "@ + decimal(server_id as nat) + ")"@, NotificationType::Success, now_ms)
    &&& n == (TuiChatClient { notifications: n.notifications, ..o })
}

/// The effect of `TuiChatClient::on_server_joined` on a client `o`, giving `n`.
pub open spec fn server_joined_applied(o: TuiChatClient, n: TuiChatClient, server_id: u16, name: String, description: String, channels: Vec<ChannelInfo>, now_ms: u64) -> bool {
    &&& n.servers@ == o.servers@.insert(server_id, n.servers@[server_id])
    &&& is_fresh_server(n.servers@[server_id], server_id, name@, description@, channels@)
    &&& o.current_server is None ==> {
            &&& n.current_server == Some(server_id)
            &&& n.sidebar_channel_index == 0
            &&& match first_text_channel(channels@) {
                Some(c) => n.current_channel == Some(c)
                    && queued(o.outbox@, n.outbox@, o.connected, join_channel_msg(o.user_id, c)),
                None => n.current_channel == o.current_channel && n.outbox == o.outbox,
            }
    }
    &&& o.current_server is Some ==> {
            &&& n.current_server == o.current_server
            &&& n.sidebar_channel_index == o.sidebar_channel_index
            &&& n.current_channel == o.current_channel
            &&& n.outbox == o.outbox
    }
    &&& notified(o.notifications@, n.notifications@, "Joined server '"@ + name@ + "'"@,
            NotificationType::Success, now_ms)
    &&& n == (TuiChatClient {
            servers: n.servers,
            current_server: n.current_server,
            sidebar_channel_index: n.sidebar_channel_index,
            current_channel: n.current_channel,
            outbox: n.outbox,
            notifications: n.notifications,
            ..o
    })
}

/// The effect of `TuiChatClient::on_server_left` on a client `o`, giving `n`.
pub open spec fn server_left_applied(o: TuiChatClient, n: TuiChatClient, server_id: u16, now_ms: u64) -> bool {
    &&& n.servers@ == o.servers@.remove(server_id)
    &&& o.servers@.contains_key(server_id) ==> notified(o.notifications@, n.notifications@,
            "Left server '"@ + o.servers@[server_id].name@ + "'"@, NotificationType::Info, now_ms)
    &&& !o.servers@.contains_key(server_id) ==> n.notifications == o.notifications
    &&& o.current_server == Some(server_id) ==> {
            &&& n.sidebar_channel_index == 0
            &&& match n.current_server {
                None => n.servers@.dom().is_empty() && n.current_channel is None,
                Some(k) => n.servers@.contains_key(k)
                    && n.current_channel == first_text_channel(n.servers@[k].channels@),
            }
    }
    &&& o.current_server != Some(server_id) ==> {
            &&& n.current_server == o.current_server
            &&& n.current_channel == o.current_channel
            &&& n.sidebar_channel_index == o.sidebar_channel_index
    }
    &&& n == (TuiChatClient {
            servers: n.servers,
            notifications: n.notifications,
            current_server: n.current_server,
            current_channel: n.current_channel,
            sidebar_channel_index: n.sidebar_channel_index,
            ..o
    })
}

/// The effect of `TuiChatClient::on_channel_created` on a client `o`, giving `n`.
pub open spec fn channel_created_applied(o: TuiChatClient, n: TuiChatClient, server_id: u16, channel_id: u16, name: String, description: String, channel_type: ChannelType, now_ms: u64) -> bool {
    &&& o.servers@.contains_key(server_id) ==> {
            let so = o.servers@[server_id];
            let sn = n.servers@[server_id];
            &&& n.servers@ == o.servers@.insert(server_id, sn)
            &&& same_server_header(so, sn)
            &&& sn.channels@.len() == so.channels@.len() + 1
            &&& sn.channels@.drop_last() == so.channels@
            &&& is_channel(sn.channels@.last(), channel_id, server_id, name@, description@, channel_type)
            &&& sn.channel_messages@.dom() == so.channel_messages@.dom().insert(channel_id)
            &&& forall|j: u16| #[trigger] so.channel_messages@.contains_key(j) && j != channel_id
                ==> sn.channel_messages@[j] == so.channel_messages@[j]
            &&& sn.channel_messages@[channel_id]@ == Seq::<ChatMessage>::empty()
    }
    &&& !o.servers@.contains_key(server_id) ==> n.servers == o.servers
    &&& notified(o.notifications@, n.notifications@, "Channel '"@ + name@ + "' created"@,
            NotificationType::Success, now_ms)
    &&& n == (TuiChatClient {
            servers: n.servers,
            notifications: n.notifications,
            ..o
    })
}

/// The effect of `TuiChatClient::on_channel_joined` on a client `o`, giving `n`.
pub open spec fn channel_joined_applied(o: TuiChatClient, n: TuiChatClient, server_id: u16, channel_id: u16, name: String, description: String, channel_type: ChannelType) -> bool {
    &&& o.servers@.contains_key(server_id) ==> {
            let so = o.servers@[server_id];
            let sn = n.servers@[server_id];
            &&& n.servers@ == o.servers@.insert(server_id, sn)
            &&& same_server_header(so, sn)
            &&& channel_ids(so.channels@).contains(channel_id) ==> sn.channels == so.channels
            &&& !channel_ids(so.channels@).contains(channel_id) ==> {
                &&& sn.channels@.len() == so.channels@.len() + 1
                &&& sn.channels@.drop_last() == so.channels@
                &&& is_channel(sn.channels@.last(), channel_id, server_id, name@, description@, channel_type)
            }
            &&& sn.channel_messages@.dom() == so.channel_messages@.dom().insert(channel_id)
            &&& forall|j: u16| #[trigger] so.channel_messages@.contains_key(j) ==> sn.channel_messages@[j] == so.channel_messages@[j]
            &&& !so.channel_messages@.contains_key(channel_id) ==> sn.channel_messages@[channel_id]@ == Seq::<ChatMessage>::empty()
    }
    &&& !o.servers@.contains_key(server_id) ==> n.servers == o.servers
    &&& n == (TuiChatClient { servers: n.servers, ..o })
}

/// The effect of `TuiChatClient::on_channel_message` on a client `o`, giving `n`.
pub open spec fn channel_message_applied(o: TuiChatClient, n: TuiChatClient, channel_id: u16, sender: String, content: String, now_ms: u64) -> bool {
    &&& (forall|k: u16| #[trigger] o.servers@.contains_key(k)
            ==> !channel_ids(o.servers@[k].channels@).contains(channel_id))
            ==> n.servers == o.servers
    &&& (exists|k: u16| #[trigger] o.servers@.contains_key(k)
            && channel_ids(o.servers@[k].channels@).contains(channel_id)) ==> exists|sid: u16| {
            &&& #[trigger] o.servers@.contains_key(sid)
            &&& channel_ids(o.servers@[sid].channels@).contains(channel_id)
            &&& server_gets_line(o.servers@, n.servers@, sid, channel_id)
            &&& is_chat_line(n.servers@[sid].channel_messages@[channel_id]@.last(), now_ms, sender@,
                content@, ChatMessageType::User)
    }
    &&& n == (TuiChatClient { servers: n.servers, ..o })
}

/// The effect of `TuiChatClient::on_channel_list` on a client `o`, giving `n`.
pub open spec fn channel_list_applied(o: TuiChatClient, n: TuiChatClient, server_id: u16, channels: Vec<ChannelInfo>) -> bool {
    &&& o.servers@.contains_key(server_id) ==> {
            let so = o.servers@[server_id];
            let sn = n.servers@[server_id];
            &&& n.servers@ == o.servers@.insert(server_id, sn)
            &&& same_server_header(so, sn)
            &&& sn.channels == channels
            &&& sn.channel_messages@.dom() == so.channel_messages@.dom().union(channel_ids(channels@))
            &&& forall|j: u16| #[trigger] so.channel_messages@.contains_key(j) ==> sn.channel_messages@[j] == so.channel_messages@[j]
            &&& forall|j: u16| #[trigger] sn.channel_messages@.contains_key(j) && !so.channel_messages@.contains_key(j)
                ==> sn.channel_messages@[j]@ == Seq::<ChatMessage>::empty()
    }
    &&& !o.servers@.contains_key(server_id) ==> n.servers == o.servers
    &&& n == (TuiChatClient { servers: n.servers, ..o })
}

/// The effect of `TuiChatClient::on_private_message` on a client `o`, giving `n`.
pub open spec fn private_message_applied(o: TuiChatClient, n: TuiChatClient, from_user_id: u16, sender: String, content: String, now_ms: u64) -> bool {
    &&& appended_one(o.private_conversations@, n.private_conversations@, from_user_id)
    &&& is_chat_line(n.private_conversations@[from_user_id]@.last(), now_ms, sender@, content@,
            ChatMessageType::Private)
    &&& n == (TuiChatClient { private_conversations: n.private_conversations, ..o })
}

/// The effect of `TuiChatClient::on_server_message` on a client `o`, giving `n`.
pub open spec fn server_message_applied(o: TuiChatClient, n: TuiChatClient, content: String, is_error: bool, now_ms: u64) -> bool {
    &&& notified(o.notifications@, n.notifications@, content@,
            if is_error { NotificationType::Error } else { NotificationType::Info }, now_ms)
    &&& system_line_added(o, n.servers@, content@,
            if is_error { ChatMessageType::Error } else { ChatMessageType::System }, now_ms)
    &&& n == (TuiChatClient {
            servers: n.servers,
            notifications: n.notifications,
            ..o
    })
}

/// The effect of `TuiChatClient::on_voice_status` on a client `o`, giving `n`.
pub open spec fn voice_status_applied(o: TuiChatClient, n: TuiChatClient, connected: bool, message: String, now_ms: u64) -> bool {
    &&& n.voice_connected == connected
    &&& connected && !o.voice_connected ==> notified(o.notifications@, n.notifications@,
            "Voice connected!"@, NotificationType::Success, now_ms) && n.voice_channel_id == o.voice_channel_id
    &&& !connected && o.voice_connected ==> notified(o.notifications@, n.notifications@,
            "Voice disconnected"@, NotificationType::Info, now_ms) && n.voice_channel_id is None
    &&& connected == o.voice_connected ==> n.notifications == o.notifications
            && n.voice_channel_id == o.voice_channel_id
    &&& system_line_added(o, n.servers@, message@, ChatMessageType::System, now_ms)
    &&& n == (TuiChatClient {
            voice_connected: connected,
            voice_channel_id: n.voice_channel_id,
            servers: n.servers,
            notifications: n.notifications,
            ..o
    })
}


/// The effect of `TuiChatClient::on_servers_sync` on a client `o`, giving `n`.
pub open spec fn servers_sync_applied(o: TuiChatClient, n: TuiChatClient, list: Seq<ServerWithChannels>) -> bool {
    let opens = o.current_server is None && !n.servers@.dom().is_empty();
    &&& synced(o.servers@, n.servers@, list)
    &&& opens ==> match n.current_server {
        Some(k) => {
            &&& n.servers@.contains_key(k)
            &&& n.sidebar_channel_index == 0
            &&& match first_text_channel(n.servers@[k].channels@) {
                Some(c) => n.current_channel == Some(c)
                    && queued(o.outbox@, n.outbox@, o.connected, join_channel_msg(o.user_id, c)),
                None => n.current_channel == o.current_channel && n.outbox == o.outbox,
            }
        },
        None => false,
    }
    &&& !opens ==> {
        &&& n.current_server == o.current_server
        &&& n.sidebar_channel_index == o.sidebar_channel_index
        &&& n.current_channel == o.current_channel
        &&& n.outbox == o.outbox
    }
    &&& n == (TuiChatClient {
        servers: n.servers,
        current_server: n.current_server,
        sidebar_channel_index: n.sidebar_channel_index,
        current_channel: n.current_channel,
        outbox: n.outbox,
        ..o
    })
}

/// The effect of one update from the network side on a client `o` at time
/// `now_ms`, giving `n`.
pub open spec fn ui_update_applied(o: TuiChatClient, n: TuiChatClient, update: UIUpdate, now_ms: u64) -> bool {
    match update {
        UIUpdate::AuthSuccess { user_id } => auth_success_applied(o, n, user_id),
        UIUpdate::AuthFailure { reason } => n == (TuiChatClient { auth_error: Some(reason), ..o }),
        UIUpdate::UserListUpdate { users } => n == (TuiChatClient { online_users: users, ..o }),
        UIUpdate::ServerList { servers } => n == (TuiChatClient { available_servers: servers, selected_server_index: 0, ..o }),
        UIUpdate::ServerCreated { server_id, name, description: _ } => server_created_applied(o, n, server_id, name, now_ms),
        UIUpdate::ServerJoined { server_id, name, description, channels } =>
            server_joined_applied(o, n, server_id, name, description, channels, now_ms),
        UIUpdate::ServerLeft { server_id } => server_left_applied(o, n, server_id, now_ms),
        UIUpdate::ChannelCreated { server_id, channel_id, name, description, channel_type } =>
            channel_created_applied(o, n, server_id, channel_id, name, description, channel_type, now_ms),
        UIUpdate::ChannelJoined { server_id, channel_id, name, description, channel_type } =>
            channel_joined_applied(o, n, server_id, channel_id, name, description, channel_type),
        UIUpdate::ChannelMessage { channel_id, sender, content } =>
            channel_message_applied(o, n, channel_id, sender, content, now_ms),
        UIUpdate::ChannelList { server_id, channels } => channel_list_applied(o, n, server_id, channels),
        UIUpdate::ServersSync { servers } => servers_sync_applied(o, n, servers@),
        UIUpdate::PrivateMessage { from_user_id, sender, content } =>
            private_message_applied(o, n, from_user_id, sender, content, now_ms),
        UIUpdate::ServerMessage { content, is_error } => server_message_applied(o, n, content, is_error, now_ms),
        UIUpdate::VoiceStatus { connected, message } => voice_status_applied(o, n, connected, message, now_ms),
        UIUpdate::VoiceLevel { level_bits } => n == (TuiChatClient { voice_level_bits: level_bits, ..o }),
        UIUpdate::ServerMemberList { server_id: _, members } => n == (TuiChatClient { online_users: members, ..o }),
    }
}

impl TuiChatClient {
    /// The user's servers were synchronized after login: take each of them
    /// up with an empty history; when no server is open, open one of them and
    /// its first text channel (asking the server to join that channel).
    fn on_servers_sync(&mut self, servers: Vec<ServerWithChannels>)
        ensures
            servers_sync_applied(*old(self), *final(self), servers@),
    {
        let mut list = servers;
        let ghost orig = list@;
        let ghost m0 = self.servers@;
        let ghost mut i: int = 0;
        while list.len() > 0
            invariant
                0 <= i <= orig.len(),
                list@ == orig.skip(i),
                synced(m0, self.servers@, orig.take(i)),
                *self == (TuiChatClient { servers: self.servers, ..*old(self) }),
                m0 == old(self).servers@,
            decreases list@.len(),
        {
            let swc = list.remove(0);
            assert(swc == orig[i]);
            let ghost before = self.servers@;
            let ServerWithChannels { server, channels } = swc;
            let sid = server.id;
            let sd = ServerData::fresh(sid, server.name, server.description, channels);
            self.servers.insert(sid, sd);
            proof {
                let t = orig.take(i + 1);
                assert(t.drop_last() =~= orig.take(i));
                assert(t.last() == orig[i]);
                assert forall|k: u16| #![trigger self.servers@.contains_key(k)] #![trigger m0.contains_key(k)]
                    match last_with_id(t, k) {
                        Some(w) => self.servers@.contains_key(k) && is_fresh_server(self.servers@[k], k, t[w].server.name@,
                            t[w].server.description@, t[w].channels@),
                        None => self.servers@.contains_key(k) == m0.contains_key(k) && (m0.contains_key(k) ==> self.servers@[k] == m0[k]),
                    } by {
                    if k != sid {
                        assert(before.contains_key(k) == m0.contains_key(k) || last_with_id(orig.take(i), k) is Some);
                        lemma_last_with_id(orig.take(i), k);
                        match last_with_id(orig.take(i), k) {
                            Some(w) => {
                                assert(before.contains_key(k));
                                assert(t[w] == orig.take(i)[w]);
                            },
                            None => {
                                assert(before.contains_key(k) == m0.contains_key(k));
                            },
                        }
                    }
                }
                i = i + 1;
                assert(list@ =~= orig.skip(i));
            }
        }
        proof {
            assert(orig.take(i) =~= orig);
        }
        if self.current_server.is_none() {
            if let Some(first_id) = some_server_id(&self.servers) {
                self.current_server = Some(first_id);
                self.sidebar_channel_index = 0;
                let first_text = match self.servers.get(&first_id) {
                    Some(server) => find_first_text_channel(&server.channels),
                    None => None,
                };
                if let Some(channel_id) = first_text {
                    self.current_channel = Some(channel_id);
                    let m = Message::new(self.user_id, MessageType::JoinChannel { channel_id, password: None });
                    self.send(m);
                }
            }
        }
    }

    /// Apply an update from the network side at time `now_ms`.
    pub fn handle_ui_update_at(&mut self, update: UIUpdate, now_ms: u64)
        ensures
            ui_update_applied(*old(self), *final(self), update, now_ms),
    {
        match update {
            UIUpdate::AuthSuccess { user_id } => self.on_auth_success(user_id),
            UIUpdate::AuthFailure { reason } => {
                self.auth_error = Some(reason);
            },
            UIUpdate::UserListUpdate { users } => {
                self.online_users = users;
            },
            UIUpdate::ServerList { servers } => {
                self.available_servers = servers;
                self.selected_server_index = 0;
            },
            UIUpdate::ServerCreated { server_id, name, description: _ } => self.on_server_created(server_id, name, now_ms),
            UIUpdate::ServerJoined { server_id, name, description, channels } =>
                self.on_server_joined(server_id, name, description, channels, now_ms),
            UIUpdate::ServerLeft { server_id } => self.on_server_left(server_id, now_ms),
            UIUpdate::ChannelCreated { server_id, channel_id, name, description, channel_type } =>
                self.on_channel_created(server_id, channel_id, name, description, channel_type, now_ms),
            UIUpdate::ChannelJoined { server_id, channel_id, name, description, channel_type } =>
                self.on_channel_joined(server_id, channel_id, name, description, channel_type),
            UIUpdate::ChannelMessage { channel_id, sender, content } =>
                self.on_channel_message(channel_id, sender, content, now_ms),
            UIUpdate::ChannelList { server_id, channels } => self.on_channel_list(server_id, channels),
            UIUpdate::ServersSync { servers } => self.on_servers_sync(servers),
            UIUpdate::PrivateMessage { from_user_id, sender, content } =>
                self.on_private_message(from_user_id, sender, content, now_ms),
            UIUpdate::ServerMessage { content, is_error } => self.on_server_message(content, is_error, now_ms),
            UIUpdate::VoiceStatus { connected, message } => self.on_voice_status(connected, message, now_ms),
            UIUpdate::VoiceLevel { level_bits } => {
                self.voice_level_bits = level_bits;
            },
            UIUpdate::ServerMemberList { server_id: _, members } => {
                self.online_users = members;
            },
        }
    }

    /// Apply an update from the network side now.
    pub fn handle_ui_update(&mut self, update: UIUpdate)
        ensures
            exists|now_ms: u64| ui_update_applied(*old(self), *final(self), update, now_ms),
    {
        let now_ms = now_millis();
        self.handle_ui_update_at(update, now_ms);
    }
}


/// The first voice channel of a list, if any.
pub open spec fn first_voice_channel(channels: Seq<ChannelInfo>) -> Option<u16>
    decreases channels.len(),
{
    if channels.len() == 0 {
        None
    } else if channels[0].channel_type == ChannelType::Voice {
        Some(channels[0].id)
    } else {
        first_voice_channel(channels.drop_first())
    }
}

/// The id of the first voice channel of a list, if any.
pub fn find_first_voice_channel(channels: &Vec<ChannelInfo>) -> (r: Option<u16>)
    ensures
        r == first_voice_channel(channels@),
{
    let mut i: usize = 0;
    assert(channels@.subrange(0, channels@.len() as int) =~= channels@);
    while i < channels.len()
        invariant
            i <= channels@.len(),
            first_voice_channel(channels@) == first_voice_channel(channels@.subrange(i as int, channels@.len() as int)),
        decreases channels@.len() - i,
    {
        let ghost rest = channels@.subrange(i as int, channels@.len() as int);
        if channels[i].channel_type == ChannelType::Voice {
            return Some(channels[i].id);
        }
        assert(rest.drop_first() =~= channels@.subrange(i + 1, channels@.len() as int));
        i = i + 1;
    }
    None
}

/// The voice channel that the client would join: the channel selected in the
/// sidebar when it is a voice channel, else the first voice channel of the
/// open server.
pub open spec fn voice_channel_to_join(c: TuiChatClient) -> Option<u16> {
    match c.current_server {
        None => None,
        Some(sid) => if !c.servers@.contains_key(sid) {
            None
        } else {
            let chs = c.servers@[sid].channels@;
            if c.sidebar_channel_index < chs.len() && chs[c.sidebar_channel_index as int].channel_type == ChannelType::Voice {
                Some(chs[c.sidebar_channel_index as int].id)
            } else {
                first_voice_channel(chs)
            }
        },
    }
}

/// The users other than oneself among those listed, in order.
pub open spec fn other_users(users: Seq<UserStatus>, me: u16) -> Seq<UserStatus> {
    users.filter(|u: UserStatus| u.user_id != me)
}

/// The number of entries of the last setting field on each settings tab.
pub open spec fn max_settings_field(t: SettingsTab) -> usize {
    match t {
        SettingsTab::Audio => 3,
        SettingsTab::Voice => 2,
        SettingsTab::Interface => 1,
    }
}

/// The settings tab after `t`, round robin.
pub open spec fn next_tab(t: SettingsTab) -> SettingsTab {
    match t {
        SettingsTab::Audio => SettingsTab::Voice,
        SettingsTab::Voice => SettingsTab::Interface,
        SettingsTab::Interface => SettingsTab::Audio,
    }
}

/// The index after `i` in a list of `n` entries, wrapping around.
pub open spec fn next_index(i: usize, n: usize) -> usize {
    ((i + 1) % (n as int)) as usize
}

/// The index before `i` in a list of `n` entries, wrapping around.
pub open spec fn prev_index(i: usize, n: usize) -> usize {
    if i > 0 { (i - 1) as usize } else { (n - 1) as usize }
}

impl TuiChatClient {
    /// The voice channel to join (see `voice_channel_to_join`).
    pub fn find_voice_channel_to_join(&self) -> (r: Option<u16>)
        ensures
            r == voice_channel_to_join(*self),
    {
        let server_id = match self.current_server {
            Some(sid) => sid,
            None => return None,
        };
        let server = match self.servers.get(&server_id) {
            Some(s) => s,
            None => return None,
        };
        if self.sidebar_channel_index < server.channels.len() {
            let ch = &server.channels[self.sidebar_channel_index];
            if ch.channel_type == ChannelType::Voice {
                return Some(ch.id);
            }
        }
        find_first_voice_channel(&server.channels)
    }

    /// Select the other user at `selected_user_index` for private messages,
    /// or nobody when the index is past the other users.
    pub fn update_selected_private_user(&mut self)
        ensures
            ({
                let others = other_users(old(self).online_users@, old(self).user_id);
                final(self).selected_private_user == if old(self).selected_user_index < others.len() {
                    Some(others[old(self).selected_user_index as int].user_id)
                } else {
                    None
                }
            }),
            *final(self) == (TuiChatClient { selected_private_user: final(self).selected_private_user, ..*old(self) }),
    {
        let ghost others = other_users(self.online_users@, self.user_id);
        let mut seen: usize = 0;
        let mut i: usize = 0;
        let mut found: Option<u16> = None;
        while i < self.online_users.len()
            invariant
                i <= self.online_users@.len(),
                *self == *old(self),
                others == other_users(self.online_users@, self.user_id),
                seen == other_users(self.online_users@.take(i as int), self.user_id).len(),
                seen <= i,
                found is None ==> seen <= self.selected_user_index,
                found == if self.selected_user_index < seen {
                    Some(other_users(self.online_users@.take(i as int), self.user_id)[self.selected_user_index as int].user_id)
                } else {
                    None::<u16>
                },
            decreases self.online_users@.len() - i,
        {
            let ghost pre = self.online_users@.take(i as int);
            let ghost post = self.online_users@.take(i + 1);
            proof {
                reveal(Seq::filter);
                assert(post.drop_last() =~= pre);
                assert(post.last() == self.online_users@[i as int]);
                pre.lemma_filter_len(|u: UserStatus| u.user_id != self.user_id);
            }
            if self.online_users[i].user_id != self.user_id {
                if found.is_none() && seen == self.selected_user_index {
                    found = Some(self.online_users[i].user_id);
                }
                seen = seen + 1;
            }
            i = i + 1;
        }
        proof {
            assert(self.online_users@.take(self.online_users@.len() as int) =~= self.online_users@);
        }
        self.selected_private_user = found;
    }

    /// Move the sidebar selection up one channel, when there is one above,
    /// and open it if it is a text channel.
    pub fn navigate_sidebar_up(&mut self)
        ensures
            sidebar_up_applied(*old(self), *final(self)),
    {
        if let Some(server_id) = self.current_server {
            let go = match self.servers.get(&server_id) {
                Some(server) => server.channels.len() > 0 && self.sidebar_channel_index > 0,
                None => false,
            };
            if go {
                self.sidebar_channel_index = self.sidebar_channel_index - 1;
                self.select_sidebar_channel();
            }
        }
    }

    /// Move the sidebar selection down one channel, when there is one below,
    /// and open it if it is a text channel.
    pub fn navigate_sidebar_down(&mut self)
        ensures
            sidebar_down_applied(*old(self), *final(self)),
    {
        if let Some(server_id) = self.current_server {
            let go = match self.servers.get(&server_id) {
                Some(server) => server.channels.len() > 0 && self.sidebar_channel_index < server.channels.len() - 1,
                None => false,
            };
            if go {
                self.sidebar_channel_index = self.sidebar_channel_index + 1;
                self.select_sidebar_channel();
            }
        }
    }

    /// Open the channel selected in the sidebar, when it is a text channel:
    /// the view scrolls back to the newest messages, and the server is asked
    /// to join the channel when it was not already the open one.
    pub fn select_sidebar_channel(&mut self)
        ensures
            sidebar_opened(*old(self), *final(self)),
    {
        if let Some(server_id) = self.current_server {
            let picked = match self.servers.get(&server_id) {
                Some(server) => if self.sidebar_channel_index < server.channels.len()
                    && server.channels[self.sidebar_channel_index].channel_type == ChannelType::Text {
                    Some(server.channels[self.sidebar_channel_index].id)
                } else {
                    None
                },
                None => None,
            };
            if let Some(channel_id) = picked {
                let old_channel = self.current_channel;
                self.current_channel = Some(channel_id);
                self.message_scroll_offset = 0;
                if old_channel != Some(channel_id) {
                    let m = Message::new(self.user_id, MessageType::JoinChannel { channel_id, password: None });
                    self.send(m);
                }
            }
        }
    }

    /// Open the next joined server (by increasing id, wrapping around; the
    /// first one when none or an unknown one is open), select its first
    /// channel in the sidebar, and open its first text channel (asking the
    /// server to join it), or no channel when it has none.
    pub fn switch_server(&mut self)
        ensures
            switched_server(*old(self), *final(self)),
    {
        let ids = self.joined_server_ids();
        if ids.len() == 0 {
            proof {
                assert(self.servers@.dom() =~= Set::<u16>::empty()) by {
                    assert forall|k: u16| !self.servers@.dom().contains(k) by {
                        if self.servers@.contains_key(k) {
                            assert(ids@.contains(k));
                        }
                    }
                }
            }
            return;
        }
        let next = next_in_ring(&ids, self.current_server);
        proof {
            assert(next == next_server_id(ids@, self.current_server));
            assert(sorted_key_list(ids@, self.servers@.dom()));
            assert(self.servers@.contains_key(next)) by {
                assert(ids@.contains(next));
            }
        }
        self.current_server = Some(next);
        self.sidebar_channel_index = 0;
        self.message_scroll_offset = 0;
        let first_text = match self.servers.get(&next) {
            Some(server) => Some(find_first_text_channel(&server.channels)),
            None => None,
        };
        match first_text {
            Some(Some(channel_id)) => {
                self.current_channel = Some(channel_id);
                let m = Message::new(self.user_id, MessageType::JoinChannel { channel_id, password: None });
                self.send(m);
            },
            Some(None) => {
                self.current_channel = None;
            },
            None => {},
        }
    }
}

/// The id after `current` in an increasing list of ids, wrapping around;
/// the first one when `current` is none or not listed.
pub fn next_in_ring(ids: &Vec<u16>, current: Option<u16>) -> (r: u16)
    requires
        ids@.len() > 0,
        forall|i: int, j: int| 0 <= i < j < ids@.len() ==> ids@[i] < ids@[j],
    ensures
        r == next_server_id(ids@, current),
        ids@.contains(r),
{
    let pos = match current {
        Some(c) => position_of(ids, c),
        None => None,
    };
    let next = match pos {
        Some(i) => if i < ids.len() - 1 { ids[i + 1] } else { ids[0] },
        None => ids[0],
    };
    proof {
        match pos {
            Some(i) => {
                if i < ids@.len() - 1 {
                    vstd::arithmetic::div_mod::lemma_small_mod((i + 1) as nat, ids@.len());
                } else {
                    vstd::arithmetic::div_mod::lemma_mod_self_0(ids@.len() as int);
                }
            },
            None => {},
        }
        match current {
            Some(c) => {
                if exists|i: int| 0 <= i < ids@.len() && ids@[i] == c {
                    let w = choose|i: int| 0 <= i < ids@.len() && ids@[i] == c;
                    let i = pos.unwrap() as int;
                    if w < i {
                        assert(ids@[w] < ids@[i]);
                    } else if w > i {
                        assert(ids@[i] < ids@[w]);
                    }
                } else {
                    if pos is Some {
                        assert(ids@[pos.unwrap() as int] == c);
                    }
                }
            },
            None => {},
        }
        match pos {
            Some(i) => assert(ids@[(i + 1) % (ids@.len() as int)] == next),
            None => assert(ids@[0] == next),
        }
    }
    next
}

/// Where `x` first stands in `v`, if it does.
pub fn position_of(v: &Vec<u16>, x: u16) -> (r: Option<usize>)
    ensures
        match r {
            Some(i) => i < v@.len() && v@[i as int] == x && forall|j: int| 0 <= j < i ==> v@[j] != x,
            None => forall|j: int| 0 <= j < v@.len() ==> v@[j] != x,
        },
{
    let mut i: usize = 0;
    while i < v.len()
        invariant
            i <= v@.len(),
            forall|j: int| 0 <= j < i ==> v@[j] != x,
        decreases v@.len() - i,
    {
        if v[i] == x {
            return Some(i);
        }
        i = i + 1;
    }
    None
}

/// The effect of opening the sidebar selection (see `select_sidebar_channel`).
pub open spec fn sidebar_opened(o: TuiChatClient, n: TuiChatClient) -> bool {
    let picked = match o.current_server {
        Some(sid) => if o.servers@.contains_key(sid) && o.sidebar_channel_index < o.servers@[sid].channels@.len()
            && o.servers@[sid].channels@[o.sidebar_channel_index as int].channel_type == ChannelType::Text {
            Some(o.servers@[sid].channels@[o.sidebar_channel_index as int].id)
        } else {
            None
        },
        None => None,
    };
    match picked {
        Some(cid) => {
            &&& n.current_channel == Some(cid)
            &&& n.message_scroll_offset == 0
            &&& if o.current_channel != Some(cid) {
                queued(o.outbox@, n.outbox@, o.connected, join_channel_msg(o.user_id, cid))
            } else {
                n.outbox == o.outbox
            }
            &&& n == (TuiChatClient { current_channel: n.current_channel, message_scroll_offset: 0, outbox: n.outbox, ..o })
        },
        None => n == o,
    }
}

/// The effect of moving the sidebar selection to `i` and opening it.
pub open spec fn sidebar_selected(o: TuiChatClient, n: TuiChatClient, i: usize) -> bool {
    sidebar_opened(TuiChatClient { sidebar_channel_index: i, ..o }, n)
}

/// The server after `current` among increasing ids, wrapping around; the
/// first id when `current` is none or not among them.
pub open spec fn next_server_id(ids: Seq<u16>, current: Option<u16>) -> u16 {
    match current {
        Some(c) => if exists|i: int| 0 <= i < ids.len() && ids[i] == c {
            let i = choose|i: int| 0 <= i < ids.len() && ids[i] == c;
            ids[(i + 1) % (ids.len() as int)]
        } else {
            ids[0]
        },
        None => ids[0],
    }
}

/// Whether `ids` lists the keys `keys` in increasing order.
pub open spec fn sorted_key_list(ids: Seq<u16>, keys: Set<u16>) -> bool {
    &&& forall|i: int, j: int| 0 <= i < j < ids.len() ==> ids[i] < ids[j]
    &&& forall|k: u16| #[trigger] ids.contains(k) <==> keys.contains(k)
}

/// The effect of `switch_server`.
pub open spec fn switched_server(o: TuiChatClient, n: TuiChatClient) -> bool {
    if o.servers@.dom().is_empty() {
        n == o
    } else {
        exists|ids: Seq<u16>| {
            &&& #[trigger] sorted_key_list(ids, o.servers@.dom())
            &&& {
                let next = next_server_id(ids, o.current_server);
                &&& n.current_server == Some(next)
                &&& n.sidebar_channel_index == 0
                &&& n.message_scroll_offset == 0
                &&& match first_text_channel(o.servers@[next].channels@) {
                    Some(cid) => n.current_channel == Some(cid)
                        && queued(o.outbox@, n.outbox@, o.connected, join_channel_msg(o.user_id, cid)),
                    None => n.current_channel is None && n.outbox == o.outbox,
                }
                &&& n == (TuiChatClient {
                    current_server: n.current_server,
                    sidebar_channel_index: 0,
                    message_scroll_offset: 0,
                    current_channel: n.current_channel,
                    outbox: n.outbox,
                    ..o
                })
            }
        }
    }
}


/// `String::insert`: puts `c` into the text at byte position `idx`, which
/// must lie on a character boundary (the call panics otherwise).
#[verifier::external_body]
fn string_insert(s: &mut String, idx: usize, c: char)
    requires
        is_char_boundary(encode_utf8(old(s)@), idx as int),
    ensures
        encode_utf8(final(s)@) == encode_utf8(old(s)@).take(idx as int) + char_bytes(c) + encode_utf8(old(s)@).skip(idx as int),
{
    s.insert(idx, c)
}

/// The UTF-8 bytes of one character.
pub open spec fn char_bytes(c: char) -> Seq<u8> {
    encode_utf8(seq![c])
}

/// `String::remove`: takes out the character that starts at byte position
/// `idx`, which must be before the end and on a character boundary (the
/// call panics otherwise), and returns it.
#[verifier::external_body]
fn string_remove(s: &mut String, idx: usize) -> (r: char)
    requires
        is_char_boundary(encode_utf8(old(s)@), idx as int),
        idx < encode_utf8(old(s)@).len(),
    ensures
        encode_utf8(old(s)@).subrange(idx as int, idx + char_bytes(r).len()) == char_bytes(r),
        encode_utf8(final(s)@) == encode_utf8(old(s)@).take(idx as int) + encode_utf8(old(s)@).skip(idx + char_bytes(r).len()),
{
    s.remove(idx)
}

/// `String::pop`: takes off the last character, if any, and returns it.
#[verifier::external_body]
fn string_pop(s: &mut String) -> (r: Option<char>)
    ensures
        match r {
            Some(c) => old(s)@.len() > 0 && c == old(s)@.last() && final(s)@ == old(s)@.drop_last(),
            None => old(s)@.len() == 0 && final(s)@ == old(s)@,
        },
{
    s.pop()
}

/// Whether `s` starts with the character `c`.
pub fn starts_with_char(s: &str, c: char) -> (r: bool)
    ensures
        r == (s@.len() > 0 && s@[0] == c),
{
    for ch in it: s.chars()
        invariant
            it.seq() == s@,
            it.index() == 0,
    {
        return ch == c;
    }
    false
}

/// The byte length of a text in UTF-8.
pub open spec fn byte_len(s: Seq<char>) -> nat {
    encode_utf8(s).len()
}

/// `m` asks, from `uid`, to create a server with the given name and description.
pub open spec fn is_create_server(m: Message, uid: u16, name: Seq<char>, description: Seq<char>) -> bool {
    &&& m.sender_id == uid
    &&& match m.message_type {
        MessageType::CreateServer { name: nm, description: d } => nm@ == name && d@ == description,
        _ => false,
    }
}

/// `m` asks, from `uid`, to create a channel of server `sid`, without a password.
pub open spec fn is_create_channel(m: Message, uid: u16, sid: u16, name: Seq<char>, description: Seq<char>, t: ChannelType) -> bool {
    &&& m.sender_id == uid
    &&& match m.message_type {
        MessageType::CreateChannel { server_id, name: nm, description: d, channel_type, password } =>
            server_id == sid && nm@ == name && d@ == description && channel_type == t && password is None,
        _ => false,
    }
}

/// `m` is a private message from `uid` to `to`, signed `sender`, saying `content`.
pub open spec fn is_private_message(m: Message, uid: u16, to: u16, sender: Seq<char>, content: Seq<char>) -> bool {
    &&& m.sender_id == uid
    &&& match m.message_type {
        MessageType::PrivateMessage { to_user_id, sender_username, content: c } =>
            to_user_id == to && sender_username@ == sender && c@ == content,
        _ => false,
    }
}

/// Whether `new` is `old` with one message at the end, and `new` is nonempty.
pub open spec fn pushed_one(old: Seq<Message>, new: Seq<Message>) -> bool {
    new.len() == old.len() + 1 && new.drop_last() == old
}

/// A warning shown to the user, nothing else changing.
pub open spec fn warned(o: TuiChatClient, n: TuiChatClient, text: Seq<char>, now: u64) -> bool {
    &&& notified(o.notifications@, n.notifications@, text, NotificationType::Warning, now)
    &&& n == (TuiChatClient { notifications: n.notifications, ..o })
}

/// A message queued for the server, nothing else changing.
pub open spec fn sent_only(o: TuiChatClient, n: TuiChatClient) -> bool {
    &&& pushed_one(o.outbox@, n.outbox@)
    &&& n == (TuiChatClient { outbox: n.outbox, ..o })
}

/// The effect of `/server <name> <description...>`.
pub open spec fn server_cmd_applied(o: TuiChatClient, n: TuiChatClient, ws: Seq<Seq<char>>, now: u64) -> bool {
    if ws.len() >= 3 {
        sent_only(o, n) && is_create_server(n.outbox@.last(), o.user_id, ws[1], join_words(ws.skip(2)))
    } else {
        warned(o, n, "Usage: /server <name> <description>"@, now)
    }
}

/// The effect of `/channel <name> <desc> [text|voice]`.
pub open spec fn channel_cmd_applied(o: TuiChatClient, n: TuiChatClient, ws: Seq<Seq<char>>, now: u64) -> bool {
    match o.current_server {
        Some(sid) => if ws.len() >= 3 {
            sent_only(o, n) && is_create_channel(n.outbox@.last(), o.user_id, sid, ws[1], ws[2],
                if ws.len() > 3 && lowercase_spec(ws[3]) == "voice"@ { ChannelType::Voice } else { ChannelType::Text })
        } else {
            warned(o, n, "Usage: /channel <name> <desc> [text|voice]"@, now)
        },
        None => warned(o, n, "Select a server first"@, now),
    }
}

/// The effect of `/join <server id>`.
pub open spec fn join_cmd_applied(o: TuiChatClient, n: TuiChatClient, ws: Seq<Seq<char>>, now: u64) -> bool {
    if ws.len() >= 2 {
        match parse_u16_spec(ws[1]) {
            Some(id) => n == (TuiChatClient { outbox: n.outbox, ..o })
                && n.outbox@ == o.outbox@.push(Message { sender_id: o.user_id, message_type: MessageType::JoinServer { server_id: id } }),
            None => warned(o, n, "Invalid server ID"@, now),
        }
    } else {
        warned(o, n, "Usage: /join <server_id>"@, now)
    }
}

/// The effect of `/leave`.
pub open spec fn leave_cmd_applied(o: TuiChatClient, n: TuiChatClient, now: u64) -> bool {
    match o.current_server {
        Some(sid) => n == (TuiChatClient { outbox: n.outbox, ..o })
            && n.outbox@ == o.outbox@.push(Message { sender_id: o.user_id, message_type: MessageType::LeaveServer { server_id: sid } }),
        None => warned(o, n, "Not in any server"@, now),
    }
}

/// The effect of `/msg <user id> <message...>` (or `/pm`).
pub open spec fn msg_cmd_applied(o: TuiChatClient, n: TuiChatClient, ws: Seq<Seq<char>>, now: u64) -> bool {
    if ws.len() >= 3 {
        match parse_u16_spec(ws[1]) {
            Some(to) => {
                let content = join_words(ws.skip(2));
                &&& pushed_one(o.outbox@, n.outbox@)
                &&& is_private_message(n.outbox@.last(), o.user_id, to, o.username@, content)
                &&& appended_one(o.private_conversations@, n.private_conversations@, to)
                &&& is_chat_line(n.private_conversations@[to]@.last(), now, o.username@, content, ChatMessageType::Private)
                &&& n == (TuiChatClient { outbox: n.outbox, private_conversations: n.private_conversations, ..o })
            },
            None => n == o,
        }
    } else {
        warned(o, n, "Usage: /msg <user_id> <message>"@, now)
    }
}

/// The effect of `/members`.
pub open spec fn members_cmd_applied(o: TuiChatClient, n: TuiChatClient) -> bool {
    match o.current_server {
        Some(sid) => n == (TuiChatClient { outbox: n.outbox, ..o })
            && n.outbox@ == o.outbox@.push(Message { sender_id: o.user_id, message_type: MessageType::RequestServerMembers { server_id: sid } }),
        None => n == o,
    }
}

/// The effect of a command typed in the input line (see `handle_command`).
pub open spec fn command_applied(o: TuiChatClient, n: TuiChatClient, now: u64) -> bool {
    let ws = words(o.input@);
    if !o.connected {
        n == o
    } else if ws.len() == 0 {
        warned(o, n, "Unknown command. Press F1 for help."@, now)
    } else if ws[0] == "/server"@ {
        server_cmd_applied(o, n, ws, now)
    } else if ws[0] == "/channel"@ {
        channel_cmd_applied(o, n, ws, now)
    } else if ws[0] == "/join"@ {
        join_cmd_applied(o, n, ws, now)
    } else if ws[0] == "/leave"@ {
        leave_cmd_applied(o, n, now)
    } else if ws[0] == "/msg"@ || ws[0] == "/pm"@ {
        msg_cmd_applied(o, n, ws, now)
    } else if ws[0] == "/members"@ {
        members_cmd_applied(o, n)
    } else {
        warned(o, n, "Unknown command. Press F1 for help."@, now)
    }
}

/// The effect of sending the input line (see `send_message`).
pub open spec fn send_message_applied(o: TuiChatClient, n: TuiChatClient, now: u64) -> bool {
    if !o.connected {
        n == o
    } else if o.input@.len() > 0 && o.input@[0] == '/' {
        command_applied(o, n, now)
    } else {
        match o.current_channel {
            Some(cid) => sent_only(o, n) && is_channel_message(n.outbox@.last(), o.user_id, cid, o.username@, o.input@),
            None => n == o,
        }
    }
}

impl TuiChatClient {
    /// Carry out a command typed in the input line, when connected:
    /// `/server <name> <description...>` creates a server, `/channel <name>
    /// <desc> [text|voice]` a channel in the open server, `/join <id>` joins a
    /// server, `/leave` leaves the open one, `/msg` or `/pm <user id>
    /// <message...>` sends a private message (kept in the conversation),
    /// `/members` asks for the members of the open server. Mistakes are
    /// reported as warnings.
    pub fn handle_command(&mut self, now_ms: u64)
        ensures
            command_applied(*old(self), *final(self), now_ms),
    {
        if !self.connected {
            return;
        }
        let parts = split_words(self.input.as_str());
        let ghost ws = words(self.input@);
        assert(texts(parts@) == ws);
        assert(parts@.len() == ws.len());
        if parts.len() == 0 {
            let text = "Unknown command. Press F1 for help.".to_string();
            self.add_notification(text, NotificationType::Warning, now_ms);
            return;
        }
        assert(ws[0] == parts@[0]@);
        let cmd = parts[0].as_str();
        if str_equals(cmd, "/server") {
            self.server_command(&parts, now_ms);
        } else if str_equals(cmd, "/channel") {
            self.channel_command(&parts, now_ms);
        } else if str_equals(cmd, "/join") {
            self.join_command(&parts, now_ms);
        } else if str_equals(cmd, "/leave") {
            match self.current_server {
                Some(server_id) => {
                    self.outbox.push(Message::new(self.user_id, MessageType::LeaveServer { server_id }));
                },
                None => {
                    let text = "Not in any server".to_string();
                    self.add_notification(text, NotificationType::Warning, now_ms);
                },
            }
        } else if str_equals(cmd, "/msg") || str_equals(cmd, "/pm") {
            self.msg_command(&parts, now_ms);
        } else if str_equals(cmd, "/members") {
            if let Some(server_id) = self.current_server {
                self.outbox.push(Message::new(self.user_id, MessageType::RequestServerMembers { server_id }));
            }
        } else {
            let text = "Unknown command. Press F1 for help.".to_string();
            self.add_notification(text, NotificationType::Warning, now_ms);
        }
    }

    fn server_command(&mut self, parts: &Vec<String>, now_ms: u64)
        ensures
            server_cmd_applied(*old(self), *final(self), texts(parts@), now_ms),
    {
        let ghost ws = texts(parts@);
        if parts.len() >= 3 {
            let name = parts[1].clone();
            let description = join_from(parts, 2);
            assert(ws[1] == parts@[1]@);
            let m = Message::new(self.user_id, MessageType::CreateServer { name, description });
            self.outbox.push(m);
            assert(self.outbox@.drop_last() =~= old(self).outbox@);
        } else {
            let text = "Usage: /server <name> <description>".to_string();
            self.add_notification(text, NotificationType::Warning, now_ms);
        }
    }

    fn channel_command(&mut self, parts: &Vec<String>, now_ms: u64)
        ensures
            channel_cmd_applied(*old(self), *final(self), texts(parts@), now_ms),
    {
        let ghost ws = texts(parts@);
        match self.current_server {
            Some(server_id) => {
                if parts.len() >= 3 {
                    let name = parts[1].clone();
                    let description = parts[2].clone();
                    let channel_type = if parts.len() > 3 && str_equals(lowercase(parts[3].as_str()).as_str(), "voice") {
                        ChannelType::Voice
                    } else {
                        ChannelType::Text
                    };
                    proof {
                        assert(ws[1] == parts@[1]@);
                        assert(ws[2] == parts@[2]@);
                        if parts@.len() > 3 {
                            assert(ws[3] == parts@[3]@);
                        }
                    }
                    let m = Message::new(self.user_id, MessageType::CreateChannel {
                        server_id,
                        name,
                        description,
                        channel_type,
                        password: None,
                    });
                    self.outbox.push(m);
                    assert(self.outbox@.drop_last() =~= old(self).outbox@);
                } else {
                    let text = "Usage: /channel <name> <desc> [text|voice]".to_string();
                    self.add_notification(text, NotificationType::Warning, now_ms);
                }
            },
            None => {
                let text = "Select a server first".to_string();
                self.add_notification(text, NotificationType::Warning, now_ms);
            },
        }
    }

    fn join_command(&mut self, parts: &Vec<String>, now_ms: u64)
        ensures
            join_cmd_applied(*old(self), *final(self), texts(parts@), now_ms),
    {
        let ghost ws = texts(parts@);
        if parts.len() >= 2 {
            assert(ws[1] == parts@[1]@);
            match parse_u16(parts[1].as_str()) {
                Some(server_id) => {
                    self.outbox.push(Message::new(self.user_id, MessageType::JoinServer { server_id }));
                },
                None => {
                    let text = "Invalid server ID".to_string();
                    self.add_notification(text, NotificationType::Warning, now_ms);
                },
            }
        } else {
            let text = "Usage: /join <server_id>".to_string();
            self.add_notification(text, NotificationType::Warning, now_ms);
        }
    }

    fn msg_command(&mut self, parts: &Vec<String>, now_ms: u64)
        ensures
            msg_cmd_applied(*old(self), *final(self), texts(parts@), now_ms),
    {
        let ghost ws = texts(parts@);
        if parts.len() >= 3 {
            assert(ws[1] == parts@[1]@);
            match parse_u16(parts[1].as_str()) {
                Some(to_user_id) => {
                    let content = join_from(parts, 2);
                    let m = Message::new(self.user_id, MessageType::PrivateMessage {
                        to_user_id,
                        sender_username: self.username.clone(),
                        content: content.clone(),
                    });
                    self.outbox.push(m);
                    assert(self.outbox@.drop_last() =~= old(self).outbox@);
                    let line = chat_line(now_ms, self.username.clone(), content, ChatMessageType::Private);
                    append_message(&mut self.private_conversations, to_user_id, line);
                },
                None => {},
            }
        } else {
            let text = "Usage: /msg <user_id> <message>".to_string();
            self.add_notification(text, NotificationType::Warning, now_ms);
        }
    }

    /// Send the input line, when connected: a line starting with `/` is a
    /// command; any other goes to the open channel, if one is open.
    pub fn send_message(&mut self, now_ms: u64)
        ensures
            send_message_applied(*old(self), *final(self), now_ms),
    {
        if self.connected {
            if starts_with_char(self.input.as_str(), '/') {
                self.handle_command(now_ms);
            } else if let Some(channel_id) = self.current_channel {
                let m = Message::new(self.user_id, MessageType::ChannelMessage {
                    channel_id,
                    sender_username: self.username.clone(),
                    content: self.input.clone(),
                });
                self.outbox.push(m);
                proof {
                    assert(self.outbox@.drop_last() =~= old(self).outbox@);
                }
            }
        }
    }
}


/// The index after `i` among `n` entries, wrapping around, computed without overflow.
fn wrap_next(i: usize, n: usize) -> (r: usize)
    requires
        n > 0,
        i < usize::MAX,
    ensures
        r == next_index(i, n),
{
    let r = (i + 1) % n;
    r
}

/// Whether the settings action at hand cannot overflow: a device selection
/// to advance is below the largest index, a volume to raise is at most 250.
pub open spec fn settings_ok(o: TuiChatClient) -> bool {
    o.settings_tab == SettingsTab::Audio ==> {
        &&& o.settings_field == 0 && o.audio_settings.input_devices@.len() > 0 ==> o.audio_settings.selected_input_index < usize::MAX
        &&& o.settings_field == 1 && o.audio_settings.output_devices@.len() > 0 ==> o.audio_settings.selected_output_index < usize::MAX
        &&& o.settings_field == 2 ==> o.audio_settings.input_volume <= 250
        &&& o.settings_field == 3 ==> o.audio_settings.output_volume <= 250
    }
}

/// The effect of Enter on the settings screen.
pub open spec fn settings_enter_applied(o: TuiChatClient, n: TuiChatClient, now: u64) -> bool {
    let a = o.audio_settings;
    if o.settings_tab == SettingsTab::Audio && o.settings_field == 0 && a.input_devices@.len() > 0 {
        let i = next_index(a.selected_input_index, a.input_devices@.len() as usize);
        &&& n.audio_settings == (AudioSettings { selected_input_index: i, ..a })
        &&& notified(o.notifications@, n.notifications@, "Input: "@ + a.input_devices@[i as int].name@, NotificationType::Info, now)
        &&& n == (TuiChatClient { audio_settings: n.audio_settings, notifications: n.notifications, ..o })
    } else if o.settings_tab == SettingsTab::Audio && o.settings_field == 1 && a.output_devices@.len() > 0 {
        let i = next_index(a.selected_output_index, a.output_devices@.len() as usize);
        &&& n.audio_settings == (AudioSettings { selected_output_index: i, ..a })
        &&& notified(o.notifications@, n.notifications@, "Output: "@ + a.output_devices@[i as int].name@, NotificationType::Info, now)
        &&& n == (TuiChatClient { audio_settings: n.audio_settings, notifications: n.notifications, ..o })
    } else {
        n == o
    }
}

/// The effect of Left on the settings screen.
pub open spec fn settings_left_applied(o: TuiChatClient, n: TuiChatClient) -> bool {
    let a = o.audio_settings;
    let na = if o.settings_tab != SettingsTab::Audio {
        a
    } else if o.settings_field == 0 {
        if a.input_devices@.len() > 0 {
            AudioSettings { selected_input_index: prev_index(a.selected_input_index, a.input_devices@.len() as usize), ..a }
        } else {
            a
        }
    } else if o.settings_field == 1 {
        if a.output_devices@.len() > 0 {
            AudioSettings { selected_output_index: prev_index(a.selected_output_index, a.output_devices@.len() as usize), ..a }
        } else {
            a
        }
    } else if o.settings_field == 2 {
        AudioSettings { input_volume: if a.input_volume >= 5 { (a.input_volume - 5) as u8 } else { 0 }, ..a }
    } else if o.settings_field == 3 {
        AudioSettings { output_volume: if a.output_volume >= 5 { (a.output_volume - 5) as u8 } else { 0 }, ..a }
    } else {
        a
    };
    n == (TuiChatClient { audio_settings: na, ..o })
}

/// The effect of Right on the settings screen.
pub open spec fn settings_right_applied(o: TuiChatClient, n: TuiChatClient) -> bool {
    let a = o.audio_settings;
    let na = if o.settings_tab != SettingsTab::Audio {
        a
    } else if o.settings_field == 0 {
        if a.input_devices@.len() > 0 {
            AudioSettings { selected_input_index: next_index(a.selected_input_index, a.input_devices@.len() as usize), ..a }
        } else {
            a
        }
    } else if o.settings_field == 1 {
        if a.output_devices@.len() > 0 {
            AudioSettings { selected_output_index: next_index(a.selected_output_index, a.output_devices@.len() as usize), ..a }
        } else {
            a
        }
    } else if o.settings_field == 2 {
        AudioSettings { input_volume: if a.input_volume + 5 <= 100 { (a.input_volume + 5) as u8 } else { 100 }, ..a }
    } else if o.settings_field == 3 {
        AudioSettings { output_volume: if a.output_volume + 5 <= 100 { (a.output_volume + 5) as u8 } else { 100 }, ..a }
    } else {
        a
    };
    n == (TuiChatClient { audio_settings: na, ..o })
}

/// The effect of F5: leave voice when connected, else ask for the voice
/// channel to join (see `voice_channel_to_join`), or warn that there is none.
pub open spec fn toggle_voice_applied(o: TuiChatClient, n: TuiChatClient, now: u64) -> bool {
    if o.voice_connected {
        &&& notified(o.notifications@, n.notifications@, "Voice disconnected"@, NotificationType::Info, now)
        &&& n == (TuiChatClient { voice_connected: false, voice_channel_id: None, notifications: n.notifications, ..o })
    } else {
        match voice_channel_to_join(o) {
            Some(cid) => if o.connected {
                &&& n.outbox@ == o.outbox@.push(Message { sender_id: o.user_id, message_type: MessageType::RequestVoice { channel_id: cid } })
                &&& n == (TuiChatClient { outbox: n.outbox, voice_channel_id: Some(cid), ..o })
            } else {
                n == o
            },
            None => {
                &&& notified(o.notifications@, n.notifications@, "No voice channel available"@, NotificationType::Warning, now)
                &&& n == (TuiChatClient { notifications: n.notifications, ..o })
            },
        }
    }
}

/// The effect of selecting other user `i` for private messages.
pub open spec fn private_user_selected(o: TuiChatClient, n: TuiChatClient) -> bool {
    let others = other_users(o.online_users@, o.user_id);
    n == (TuiChatClient {
        selected_private_user: if o.selected_user_index < others.len() {
            Some(others[o.selected_user_index as int].user_id)
        } else {
            None
        },
        ..o
    })
}

impl TuiChatClient {
    /// Enter on the settings screen: on the audio tab, the first two fields
    /// step to the next input or output device and name it.
    pub fn handle_settings_enter(&mut self, now_ms: u64)
        requires
            settings_ok(*old(self)),
        ensures
            settings_enter_applied(*old(self), *final(self), now_ms),
    {
        if self.settings_tab == SettingsTab::Audio {
            if self.settings_field == 0 {
                if self.audio_settings.input_devices.len() > 0 {
                    self.step_input_device(now_ms);
                }
            } else if self.settings_field == 1 {
                if self.audio_settings.output_devices.len() > 0 {
                    self.step_output_device(now_ms);
                }
            }
        }
    }

    fn step_input_device(&mut self, now_ms: u64)
        requires
            old(self).audio_settings.input_devices@.len() > 0,
            old(self).audio_settings.selected_input_index < usize::MAX,
        ensures
            ({
                let a = old(self).audio_settings;
                let i = next_index(a.selected_input_index, a.input_devices@.len() as usize);
                &&& final(self).audio_settings == (AudioSettings { selected_input_index: i, ..a })
                &&& notified(old(self).notifications@, final(self).notifications@, "Input: "@ + a.input_devices@[i as int].name@,
                    NotificationType::Info, now_ms)
                &&& *final(self) == (TuiChatClient { audio_settings: final(self).audio_settings, notifications: final(self).notifications, ..*old(self) })
            }),
    {
        let n = self.audio_settings.input_devices.len();
        self.audio_settings.selected_input_index = wrap_next(self.audio_settings.selected_input_index, n);
        let i = self.audio_settings.selected_input_index;
        let mut text = "Input: ".to_string();
        push_text(&mut text, self.audio_settings.input_devices[i].name.as_str());
        self.add_notification(text, NotificationType::Info, now_ms);
    }

    fn step_output_device(&mut self, now_ms: u64)
        requires
            old(self).audio_settings.output_devices@.len() > 0,
            old(self).audio_settings.selected_output_index < usize::MAX,
        ensures
            ({
                let a = old(self).audio_settings;
                let i = next_index(a.selected_output_index, a.output_devices@.len() as usize);
                &&& final(self).audio_settings == (AudioSettings { selected_output_index: i, ..a })
                &&& notified(old(self).notifications@, final(self).notifications@, "Output: "@ + a.output_devices@[i as int].name@,
                    NotificationType::Info, now_ms)
                &&& *final(self) == (TuiChatClient { audio_settings: final(self).audio_settings, notifications: final(self).notifications, ..*old(self) })
            }),
    {
        let n = self.audio_settings.output_devices.len();
        self.audio_settings.selected_output_index = wrap_next(self.audio_settings.selected_output_index, n);
        let i = self.audio_settings.selected_output_index;
        let mut text = "Output: ".to_string();
        push_text(&mut text, self.audio_settings.output_devices[i].name.as_str());
        self.add_notification(text, NotificationType::Info, now_ms);
    }

    /// Left on the settings screen: on the audio tab, step back through the
    /// devices (wrapping around) or lower a volume by 5 (not below 0).
    pub fn handle_settings_left(&mut self)
        ensures
            settings_left_applied(*old(self), *final(self)),
    {
        if self.settings_tab == SettingsTab::Audio {
            if self.settings_field == 0 {
                if self.audio_settings.input_devices.len() > 0 {
                    if self.audio_settings.selected_input_index > 0 {
                        self.audio_settings.selected_input_index = self.audio_settings.selected_input_index - 1;
                    } else {
                        self.audio_settings.selected_input_index = self.audio_settings.input_devices.len() - 1;
                    }
                }
            } else if self.settings_field == 1 {
                if self.audio_settings.output_devices.len() > 0 {
                    if self.audio_settings.selected_output_index > 0 {
                        self.audio_settings.selected_output_index = self.audio_settings.selected_output_index - 1;
                    } else {
                        self.audio_settings.selected_output_index = self.audio_settings.output_devices.len() - 1;
                    }
                }
            } else if self.settings_field == 2 {
                self.audio_settings.input_volume = self.audio_settings.input_volume.saturating_sub(5);
            } else if self.settings_field == 3 {
                self.audio_settings.output_volume = self.audio_settings.output_volume.saturating_sub(5);
            }
        }
    }

    /// Right on the settings screen: on the audio tab, step forward through
    /// the devices (wrapping around) or raise a volume by 5 (not above 100).
    pub fn handle_settings_right(&mut self)
        requires
            settings_ok(*old(self)),
        ensures
            settings_right_applied(*old(self), *final(self)),
    {
        if self.settings_tab == SettingsTab::Audio {
            if self.settings_field == 0 {
                if self.audio_settings.input_devices.len() > 0 {
                    let n = self.audio_settings.input_devices.len();
                    self.audio_settings.selected_input_index = wrap_next(self.audio_settings.selected_input_index, n);
                }
            } else if self.settings_field == 1 {
                if self.audio_settings.output_devices.len() > 0 {
                    let n = self.audio_settings.output_devices.len();
                    self.audio_settings.selected_output_index = wrap_next(self.audio_settings.selected_output_index, n);
                }
            } else if self.settings_field == 2 {
                let v = self.audio_settings.input_volume + 5;
                self.audio_settings.input_volume = if v <= 100 { v } else { 100 };
            } else if self.settings_field == 3 {
                let v = self.audio_settings.output_volume + 5;
                self.audio_settings.output_volume = if v <= 100 { v } else { 100 };
            }
        }
    }

    /// F5: leave voice when connected; otherwise ask for the voice channel to
    /// join, or warn that there is none.
    pub fn toggle_voice(&mut self, now_ms: u64)
        ensures
            toggle_voice_applied(*old(self), *final(self), now_ms),
    {
        if self.voice_connected {
            self.voice_connected = false;
            self.voice_channel_id = None;
            let text = "Voice disconnected".to_string();
            self.add_notification(text, NotificationType::Info, now_ms);
        } else {
            match self.find_voice_channel_to_join() {
                Some(channel_id) => {
                    if self.connected {
                        self.outbox.push(Message::new(self.user_id, MessageType::RequestVoice { channel_id }));
                        self.voice_channel_id = Some(channel_id);
                    }
                },
                None => {
                    let text = "No voice channel available".to_string();
                    self.add_notification(text, NotificationType::Warning, now_ms);
                },
            }
        }
    }
}


/// The effect of `TuiChatClient::navigate_sidebar_up` on a client `o`, giving `n`.
pub open spec fn sidebar_up_applied(o: TuiChatClient, n: TuiChatClient) -> bool {
    ({
        let moves = match o.current_server {
            Some(sid) => o.servers@.contains_key(sid) && o.servers@[sid].channels@.len() > 0
                && o.sidebar_channel_index > 0,
            None => false,
        };
        &&& moves ==> sidebar_selected(o, n, (o.sidebar_channel_index - 1) as usize)
        &&& !moves ==> n == o
    })
}

/// The effect of `TuiChatClient::navigate_sidebar_down` on a client `o`, giving `n`.
pub open spec fn sidebar_down_applied(o: TuiChatClient, n: TuiChatClient) -> bool {
    ({
        let moves = match o.current_server {
            Some(sid) => o.servers@.contains_key(sid)
                && o.sidebar_channel_index + 1 < o.servers@[sid].channels@.len(),
            None => false,
        };
        &&& moves ==> sidebar_selected(o, n, (o.sidebar_channel_index + 1) as usize)
        &&& !moves ==> n == o
    })
}


/// A key pressed in the terminal.
#[derive(Debug, Clone, Copy, PartialEq, Eq, Structural)]
pub enum Key {
    Esc,
    F(u8),
    Enter,
    Backspace,
    Left,
    Right,
    Up,
    Down,
    PageUp,
    PageDown,
    Home,
    End,
    Tab,
    Char(char),
    Other,
}

/// What the loop around the client does after a key press.
#[derive(Debug, Clone, Copy, PartialEq, Eq, Structural)]
pub enum KeyAction {
    /// Keep going.
    Continue,
    /// Leave the program.
    Quit,
    /// Keep going, after listing the audio devices again and handing them to
    /// `refresh_audio_devices` (the settings screen was opened).
    RefreshDevices,
}

/// The effect of Left.
pub open spec fn left_applied(o: TuiChatClient, n: TuiChatClient) -> bool {
    if o.show_settings {
        settings_left_applied(o, n)
    } else if o.show_server_browser {
        n == (TuiChatClient {
            selected_server_index: if o.selected_server_index > 0 { (o.selected_server_index - 1) as usize } else { 0 },
            ..o
        })
    } else {
        n == (TuiChatClient {
            cursor_position: if o.cursor_position > 0 { (o.cursor_position - 1) as usize } else { 0 },
            ..o
        })
    }
}

/// The effect of Right.
pub open spec fn right_applied(o: TuiChatClient, n: TuiChatClient) -> bool {
    if o.show_settings {
        settings_right_applied(o, n)
    } else if o.show_server_browser {
        n == (TuiChatClient {
            selected_server_index: if o.selected_server_index + 1 < o.available_servers@.len() {
                (o.selected_server_index + 1) as usize
            } else {
                o.selected_server_index
            },
            ..o
        })
    } else {
        n == (TuiChatClient {
            cursor_position: if o.cursor_position < (byte_len(o.input@) as usize) { (o.cursor_position + 1) as usize } else { o.cursor_position },
            ..o
        })
    }
}

/// The effect of Up.
pub open spec fn up_applied(o: TuiChatClient, n: TuiChatClient) -> bool {
    if o.show_settings {
        n == (TuiChatClient { settings_field: if o.settings_field > 0 { (o.settings_field - 1) as usize } else { 0 }, ..o })
    } else if o.show_server_browser {
        n == (TuiChatClient {
            selected_server_index: if o.selected_server_index > 0 { (o.selected_server_index - 1) as usize } else { 0 },
            ..o
        })
    } else if o.show_private_messages {
        if o.selected_user_index > 0 {
            private_user_selected(TuiChatClient { selected_user_index: (o.selected_user_index - 1) as usize, ..o }, n)
        } else {
            n == o
        }
    } else {
        sidebar_up_applied(o, n)
    }
}

/// The effect of Down.
pub open spec fn down_applied(o: TuiChatClient, n: TuiChatClient) -> bool {
    if o.show_settings {
        n == (TuiChatClient {
            settings_field: if o.settings_field < max_settings_field(o.settings_tab) { (o.settings_field + 1) as usize } else { o.settings_field },
            ..o
        })
    } else if o.show_server_browser {
        n == (TuiChatClient {
            selected_server_index: if o.selected_server_index + 1 < o.available_servers@.len() {
                (o.selected_server_index + 1) as usize
            } else {
                o.selected_server_index
            },
            ..o
        })
    } else if o.show_private_messages {
        if o.selected_user_index + 1 < other_users(o.online_users@, o.user_id).len() {
            private_user_selected(TuiChatClient { selected_user_index: (o.selected_user_index + 1) as usize, ..o }, n)
        } else {
            n == o
        }
    } else {
        sidebar_down_applied(o, n)
    }
}

/// The effect of Enter.
pub open spec fn enter_applied(o: TuiChatClient, n: TuiChatClient, now: u64) -> bool {
    if o.show_settings {
        settings_enter_applied(o, n, now)
    } else if o.show_server_browser {
        if o.selected_server_index < o.available_servers@.len() {
            &&& queued(o.outbox@, n.outbox@, o.connected, Message {
                sender_id: o.user_id,
                message_type: MessageType::JoinServer { server_id: o.available_servers@[o.selected_server_index as int].id },
            })
            &&& n == (TuiChatClient { outbox: n.outbox, show_server_browser: false, ..o })
        } else {
            n == o
        }
    } else if o.show_private_messages {
        if o.input@.len() > 0 {
            match o.selected_private_user {
                Some(to) => {
                    &&& n.input@ == Seq::<char>::empty()
                    &&& n.cursor_position == 0
                    &&& o.connected ==> {
                        &&& pushed_one(o.outbox@, n.outbox@)
                        &&& is_private_message(n.outbox@.last(), o.user_id, to, o.username@, o.input@)
                        &&& appended_one(o.private_conversations@, n.private_conversations@, to)
                        &&& is_chat_line(n.private_conversations@[to]@.last(), now, o.username@, o.input@, ChatMessageType::Private)
                    }
                    &&& !o.connected ==> n.outbox == o.outbox && n.private_conversations == o.private_conversations
                    &&& n == (TuiChatClient {
                        input: n.input,
                        cursor_position: 0,
                        outbox: n.outbox,
                        private_conversations: n.private_conversations,
                        ..o
                    })
                },
                None => n == o,
            }
        } else {
            private_user_selected(o, n)
        }
    } else if o.input@.len() > 0 {
        &&& send_message_applied(o, TuiChatClient { input: o.input, cursor_position: o.cursor_position, ..n }, now)
        &&& n.input@ == Seq::<char>::empty()
        &&& n.cursor_position == 0
    } else {
        n == o
    }
}

/// Whether a key can be handled without a panic of the text operations or
/// an overflow: a character goes in at a character boundary, Backspace
/// removes a whole character, the settings actions cannot overflow.
pub open spec fn key_ok(o: TuiChatClient, key: Key) -> bool {
    o.authenticated ==> match key {
        Key::Char(_) => is_char_boundary(encode_utf8(o.input@), o.cursor_position as int) && o.cursor_position < usize::MAX,
        Key::Backspace => o.cursor_position > 0 ==> is_char_boundary(encode_utf8(o.input@), o.cursor_position - 1)
            && o.cursor_position - 1 < byte_len(o.input@),
        Key::Right => o.show_settings ==> settings_ok(o),
        Key::Enter => o.show_settings ==> settings_ok(o),
        _ => true,
    }
}

/// The effect of a key on the login form.
pub open spec fn auth_key_applied(o: TuiChatClient, n: TuiChatClient, key: Key, r: KeyAction) -> bool {
    match key {
        Key::Esc => r == KeyAction::Quit && n == o,
        Key::Tab => r == KeyAction::Continue && n == (TuiChatClient {
            auth_field: match o.auth_field { AuthField::Username => AuthField::Password, AuthField::Password => AuthField::Username },
            ..o
        }),
        Key::F(2) => r == KeyAction::Continue && n == (TuiChatClient {
            auth_mode: match o.auth_mode { AuthMode::Login => AuthMode::Register, AuthMode::Register => AuthMode::Login },
            auth_error: None,
            ..o
        }),
        Key::Enter => r == KeyAction::Continue && if o.auth_username@.len() > 0 && o.auth_password@.len() > 0 {
            auth_sent(o, n)
        } else {
            n == o
        },
        Key::Backspace => r == KeyAction::Continue && match o.auth_field {
            AuthField::Username => n == (TuiChatClient { auth_username: n.auth_username, ..o })
                && n.auth_username@ == if o.auth_username@.len() > 0 { o.auth_username@.drop_last() } else { o.auth_username@ },
            AuthField::Password => n == (TuiChatClient { auth_password: n.auth_password, ..o })
                && n.auth_password@ == if o.auth_password@.len() > 0 { o.auth_password@.drop_last() } else { o.auth_password@ },
        },
        Key::Char(c) => r == KeyAction::Continue && match o.auth_field {
            AuthField::Username => n == (TuiChatClient { auth_username: n.auth_username, ..o }) && n.auth_username@ == o.auth_username@.push(c),
            AuthField::Password => n == (TuiChatClient { auth_password: n.auth_password, ..o }) && n.auth_password@ == o.auth_password@.push(c),
        },
        _ => r == KeyAction::Continue && n == o,
    }
}

/// The login or registration request sent from the form, when connected.
pub open spec fn auth_sent(o: TuiChatClient, n: TuiChatClient) -> bool {
    if o.connected {
        &&& pushed_one(o.outbox@, n.outbox@)
        &&& n.outbox@.last().sender_id == 0
        &&& match (o.auth_mode, n.outbox@.last().message_type) {
            (AuthMode::Login, MessageType::Login { username, password }) =>
                username@ == o.auth_username@ && password@ == o.auth_password@,
            (AuthMode::Register, MessageType::Register { username, password }) =>
                username@ == o.auth_username@ && password@ == o.auth_password@,
            _ => false,
        }
        &&& n == (TuiChatClient { outbox: n.outbox, ..o })
    } else {
        n == o
    }
}

/// The effect of a key press on a client `o` at time `now`, giving `n`, and
/// what the loop around it does next.
pub open spec fn key_applied(o: TuiChatClient, n: TuiChatClient, key: Key, now: u64, r: KeyAction) -> bool {
    if !o.authenticated {
        auth_key_applied(o, n, key, r)
    } else {
        match key {
            Key::Esc => if o.show_help || o.show_server_browser || o.show_settings || o.show_private_messages {
                r == KeyAction::Continue && n == (TuiChatClient {
                    show_help: false,
                    show_server_browser: false,
                    show_settings: false,
                    show_private_messages: false,
                    ..o
                })
            } else {
                r == KeyAction::Quit && n == o
            },
            Key::F(1) => r == KeyAction::Continue && n == (TuiChatClient { show_help: !o.show_help, ..o }),
            Key::F(2) => r == KeyAction::Continue && if o.show_server_browser {
                n == (TuiChatClient { show_server_browser: false, ..o })
            } else {
                &&& queued(o.outbox@, n.outbox@, o.connected, Message { sender_id: o.user_id, message_type: MessageType::ListServers })
                &&& n == (TuiChatClient { show_server_browser: true, outbox: n.outbox, ..o })
            },
            Key::F(3) => r == KeyAction::Continue && if o.show_private_messages {
                n == (TuiChatClient { show_private_messages: false, ..o })
            } else {
                private_user_selected(TuiChatClient { show_private_messages: true, selected_user_index: 0, ..o }, n)
            },
            Key::F(4) => if o.show_settings {
                r == KeyAction::Continue && n == (TuiChatClient { show_settings: false, ..o })
            } else {
                r == KeyAction::RefreshDevices && n == (TuiChatClient { show_settings: true, settings_field: 0, ..o })
            },
            Key::F(5) => r == KeyAction::Continue && toggle_voice_applied(o, n, now),
            Key::F(6) => r == KeyAction::Continue && if o.voice_connected {
                &&& notified(o.notifications@, n.notifications@,
                    if !o.voice_muted { "Microphone muted"@ } else { "Microphone unmuted"@ }, NotificationType::Info, now)
                &&& n == (TuiChatClient { voice_muted: !o.voice_muted, notifications: n.notifications, ..o })
            } else {
                n == o
            },
            Key::F(7) => r == KeyAction::Continue && if o.voice_connected {
                &&& notified(o.notifications@, n.notifications@,
                    if !o.voice_deafened { "Audio deafened"@ } else { "Audio undeafened"@ }, NotificationType::Info, now)
                &&& n == (TuiChatClient { voice_deafened: !o.voice_deafened, notifications: n.notifications, ..o })
            } else {
                n == o
            },
            Key::Enter => r == KeyAction::Continue && enter_applied(o, n, now),
            Key::Backspace => r == KeyAction::Continue && if o.cursor_position > 0 {
                let b = encode_utf8(o.input@);
                let i = o.cursor_position - 1;
                &&& exists|c: char| #![trigger char_bytes(c)] b.subrange(i, i + char_bytes(c).len()) == char_bytes(c)
                    && encode_utf8(n.input@) == b.take(i) + b.skip(i + char_bytes(c).len())
                &&& n == (TuiChatClient { input: n.input, cursor_position: (o.cursor_position - 1) as usize, ..o })
            } else {
                n == o
            },
            Key::Left => r == KeyAction::Continue && left_applied(o, n),
            Key::Right => r == KeyAction::Continue && right_applied(o, n),
            Key::Up => r == KeyAction::Continue && up_applied(o, n),
            Key::Down => r == KeyAction::Continue && down_applied(o, n),
            Key::PageUp => r == KeyAction::Continue && n == (TuiChatClient {
                message_scroll_offset: if o.message_scroll_offset + 10 <= usize::MAX {
                    (o.message_scroll_offset + 10) as usize
                } else {
                    usize::MAX
                },
                ..o
            }),
            Key::PageDown => r == KeyAction::Continue && n == (TuiChatClient {
                message_scroll_offset: if o.message_scroll_offset >= 10 { (o.message_scroll_offset - 10) as usize } else { 0 },
                ..o
            }),
            Key::Home => r == KeyAction::Continue && n == (TuiChatClient { cursor_position: 0, ..o }),
            Key::End => r == KeyAction::Continue && n == (TuiChatClient { cursor_position: byte_len(o.input@) as usize, ..o }),
            Key::Tab => r == KeyAction::Continue && if o.show_settings {
                n == (TuiChatClient { settings_tab: next_tab(o.settings_tab), settings_field: 0, ..o })
            } else {
                switched_server(o, n)
            },
            Key::Char(c) => r == KeyAction::Continue && {
                let b = encode_utf8(o.input@);
                &&& encode_utf8(n.input@) == b.take(o.cursor_position as int) + char_bytes(c) + b.skip(o.cursor_position as int)
                &&& n == (TuiChatClient { input: n.input, cursor_position: (o.cursor_position + 1) as usize, ..o })
            },
            _ => r == KeyAction::Continue && n == o,
        }
    }
}

impl TuiChatClient {
    /// Left: settings, server browser, or the cursor of the input line.
    pub fn handle_left(&mut self)
        ensures
            left_applied(*old(self), *final(self)),
    {
        if self.show_settings {
            self.handle_settings_left();
        } else if self.show_server_browser {
            if self.selected_server_index > 0 {
                self.selected_server_index = self.selected_server_index - 1;
            }
        } else if self.cursor_position > 0 {
            self.cursor_position = self.cursor_position - 1;
        }
    }

    /// Right: settings, server browser, or the cursor of the input line (up
    /// to the byte length of the line).
    pub fn handle_right(&mut self)
        requires
            old(self).show_settings ==> settings_ok(*old(self)),
        ensures
            right_applied(*old(self), *final(self)),
    {
        if self.show_settings {
            self.handle_settings_right();
        } else if self.show_server_browser {
            if self.selected_server_index < self.available_servers.len().saturating_sub(1) {
                self.selected_server_index = self.selected_server_index + 1;
            }
        } else {
            let len = self.input.as_str().len();
            assert(len == (byte_len(self.input@) as usize));
            if self.cursor_position < len {
                self.cursor_position = self.cursor_position + 1;
            }
        }
    }

    /// Up: settings field, server browser, private message user, or sidebar.
    pub fn handle_up(&mut self)
        ensures
            up_applied(*old(self), *final(self)),
    {
        if self.show_settings {
            if self.settings_field > 0 {
                self.settings_field = self.settings_field - 1;
            }
        } else if self.show_server_browser {
            if self.selected_server_index > 0 {
                self.selected_server_index = self.selected_server_index - 1;
            }
        } else if self.show_private_messages {
            if self.selected_user_index > 0 {
                self.selected_user_index = self.selected_user_index - 1;
                self.update_selected_private_user();
            }
        } else {
            self.navigate_sidebar_up();
        }
    }

    /// How many listed users are not oneself.
    fn other_user_count(&self) -> (r: usize)
        ensures
            r == other_users(self.online_users@, self.user_id).len(),
    {
        let mut count: usize = 0;
        let mut i: usize = 0;
        while i < self.online_users.len()
            invariant
                i <= self.online_users@.len(),
                count == other_users(self.online_users@.take(i as int), self.user_id).len(),
                count <= i,
            decreases self.online_users@.len() - i,
        {
            proof {
                reveal(Seq::filter);
                assert(self.online_users@.take(i + 1).drop_last() =~= self.online_users@.take(i as int));
            }
            if self.online_users[i].user_id != self.user_id {
                count = count + 1;
            }
            i = i + 1;
        }
        assert(self.online_users@.take(self.online_users@.len() as int) =~= self.online_users@);
        count
    }

    /// Down: settings field, server browser, private message user, or sidebar.
    pub fn handle_down(&mut self)
        ensures
            down_applied(*old(self), *final(self)),
    {
        if self.show_settings {
            let max_field: usize = match self.settings_tab {
                SettingsTab::Audio => 3,
                SettingsTab::Voice => 2,
                SettingsTab::Interface => 1,
            };
            if self.settings_field < max_field {
                self.settings_field = self.settings_field + 1;
            }
        } else if self.show_server_browser {
            if self.selected_server_index < self.available_servers.len().saturating_sub(1) {
                self.selected_server_index = self.selected_server_index + 1;
            }
        } else if self.show_private_messages {
            let user_count = self.other_user_count();
            if self.selected_user_index < user_count.saturating_sub(1) {
                self.selected_user_index = self.selected_user_index + 1;
                self.update_selected_private_user();
            }
        } else {
            self.navigate_sidebar_down();
        }
    }

    /// Enter: act on the settings screen, join the server picked in the
    /// browser, send a private message to the selected user, or send the
    /// input line; the input line is cleared once sent.
    pub fn handle_enter(&mut self, now_ms: u64)
        requires
            old(self).show_settings ==> settings_ok(*old(self)),
        ensures
            enter_applied(*old(self), *final(self), now_ms),
    {
        if self.show_settings {
            self.handle_settings_enter(now_ms);
        } else if self.show_server_browser {
            if self.available_servers.len() > 0 && self.selected_server_index < self.available_servers.len() {
                let server_id = self.available_servers[self.selected_server_index].id;
                self.send(Message::new(self.user_id, MessageType::JoinServer { server_id }));
                self.show_server_browser = false;
            }
        } else if self.show_private_messages {
            if !self.input.as_str().is_empty() {
                if let Some(to_user) = self.selected_private_user {
                    if self.connected {
                        let m = Message::new(self.user_id, MessageType::PrivateMessage {
                            to_user_id: to_user,
                            sender_username: self.username.clone(),
                            content: self.input.clone(),
                        });
                        self.outbox.push(m);
                        assert(self.outbox@.drop_last() =~= old(self).outbox@);
                        let line = chat_line(now_ms, self.username.clone(), self.input.clone(), ChatMessageType::Private);
                        append_message(&mut self.private_conversations, to_user, line);
                    }
                    self.input = String::new();
                    self.cursor_position = 0;
                }
            } else {
                self.update_selected_private_user();
            }
        } else if !self.input.as_str().is_empty() {
            self.send_message(now_ms);
            self.input = String::new();
            self.cursor_position = 0;
        }
    }

    /// Send the login or registration typed in the form, when connected.
    pub fn send_auth_message(&mut self)
        ensures
            auth_sent(*old(self), *final(self)),
    {
        if self.connected {
            let message = match self.auth_mode {
                AuthMode::Login => Message::new(0, MessageType::Login {
                    username: self.auth_username.clone(),
                    password: self.auth_password.clone(),
                }),
                AuthMode::Register => Message::new(0, MessageType::Register {
                    username: self.auth_username.clone(),
                    password: self.auth_password.clone(),
                }),
            };
            self.outbox.push(message);
            assert(self.outbox@.drop_last() =~= old(self).outbox@);
        }
    }

    /// A key on the login form: Esc quits, Tab switches field, F2 switches
    /// between login and registration, Enter sends the form when both fields
    /// are filled, Backspace and characters edit the field.
    pub fn handle_auth_key_event(&mut self, key: Key) -> (r: KeyAction)
        ensures
            auth_key_applied(*old(self), *final(self), key, r),
    {
        match key {
            Key::Esc => KeyAction::Quit,
            Key::Tab => {
                self.auth_field = match self.auth_field {
                    AuthField::Username => AuthField::Password,
                    AuthField::Password => AuthField::Username,
                };
                KeyAction::Continue
            },
            Key::F(2) => {
                self.auth_mode = match self.auth_mode {
                    AuthMode::Login => AuthMode::Register,
                    AuthMode::Register => AuthMode::Login,
                };
                self.auth_error = None;
                KeyAction::Continue
            },
            Key::Enter => {
                if !self.auth_username.as_str().is_empty() && !self.auth_password.as_str().is_empty() {
                    self.send_auth_message();
                }
                KeyAction::Continue
            },
            Key::Backspace => {
                match self.auth_field {
                    AuthField::Username => {
                        string_pop(&mut self.auth_username);
                    },
                    AuthField::Password => {
                        string_pop(&mut self.auth_password);
                    },
                }
                KeyAction::Continue
            },
            Key::Char(c) => {
                match self.auth_field {
                    AuthField::Username => self.auth_username.push(c),
                    AuthField::Password => self.auth_password.push(c),
                }
                KeyAction::Continue
            },
            _ => KeyAction::Continue,
        }
    }

    /// Handle a key press at time `now_ms`: the login form before login,
    /// else the main screen's keys (see `key_applied`).
    #[verifier::rlimit(60)]
    pub fn handle_key_event_at(&mut self, key: Key, now_ms: u64) -> (r: KeyAction)
        requires
            key_ok(*old(self), key),
        ensures
            key_applied(*old(self), *final(self), key, now_ms, r),
    {
        if !self.authenticated {
            return self.handle_auth_key_event(key);
        }
        match key {
            Key::Esc => {
                if self.show_help || self.show_server_browser || self.show_settings || self.show_private_messages {
                    self.show_help = false;
                    self.show_server_browser = false;
                    self.show_settings = false;
                    self.show_private_messages = false;
                } else {
                    return KeyAction::Quit;
                }
            },
            Key::F(1) => self.show_help = !self.show_help,
            Key::F(2) => {
                self.show_server_browser = !self.show_server_browser;
                if self.show_server_browser {
                    self.send(Message::new(self.user_id, MessageType::ListServers));
                }
            },
            Key::F(3) => {
                self.show_private_messages = !self.show_private_messages;
                if self.show_private_messages {
                    self.selected_user_index = 0;
                    self.update_selected_private_user();
                }
            },
            Key::F(4) => {
                self.show_settings = !self.show_settings;
                if self.show_settings {
                    self.settings_field = 0;
                    return KeyAction::RefreshDevices;
                }
            },
            Key::F(5) => self.toggle_voice(now_ms),
            Key::F(6) => {
                if self.voice_connected {
                    self.voice_muted = !self.voice_muted;
                    let text = if self.voice_muted { "Microphone muted".to_string() } else { "Microphone unmuted".to_string() };
                    self.add_notification(text, NotificationType::Info, now_ms);
                }
            },
            Key::F(7) => {
                if self.voice_connected {
                    self.voice_deafened = !self.voice_deafened;
                    let text = if self.voice_deafened { "Audio deafened".to_string() } else { "Audio undeafened".to_string() };
                    self.add_notification(text, NotificationType::Info, now_ms);
                }
            },
            Key::Enter => self.handle_enter(now_ms),
            Key::Backspace => {
                if self.cursor_position > 0 {
                    let removed = string_remove(&mut self.input, self.cursor_position - 1);
                    self.cursor_position = self.cursor_position - 1;
                    proof {
                        assert(char_bytes(removed) == char_bytes(removed));
                    }
                }
            },
            Key::Left => self.handle_left(),
            Key::Right => self.handle_right(),
            Key::Up => self.handle_up(),
            Key::Down => self.handle_down(),
            Key::PageUp => self.message_scroll_offset = self.message_scroll_offset.saturating_add(10),
            Key::PageDown => self.message_scroll_offset = self.message_scroll_offset.saturating_sub(10),
            Key::Home => self.cursor_position = 0,
            Key::End => self.cursor_position = self.input.as_str().len(),
            Key::Tab => {
                if self.show_settings {
                    self.settings_tab = match self.settings_tab {
                        SettingsTab::Audio => SettingsTab::Voice,
                        SettingsTab::Voice => SettingsTab::Interface,
                        SettingsTab::Interface => SettingsTab::Audio,
                    };
                    self.settings_field = 0;
                } else {
                    self.switch_server();
                }
            },
            Key::Char(c) => {
                string_insert(&mut self.input, self.cursor_position, c);
                self.cursor_position = self.cursor_position + 1;
            },
            _ => {},
        }
        KeyAction::Continue
    }

    /// Handle a key press now.
    pub fn handle_key_event(&mut self, key: Key) -> (r: KeyAction)
        requires
            key_ok(*old(self), key),
        ensures
            exists|now_ms: u64| key_applied(*old(self), *final(self), key, now_ms, r),
    {
        let now_ms = now_millis();
        self.handle_key_event_at(key, now_ms)
    }
}


/// What the client does with a message from the server: the interface
/// update it makes, if any, and, for voice credentials, the voice port and
/// token with which to start the voice connection.
#[derive(Debug)]
pub struct Reaction {
    pub update: Option<UIUpdate>,
    pub voice: Option<(u16, String)>,
}

/// Whether `u` is a server text shown to the user, `text`, an error or not.
pub open spec fn is_server_text(u: Option<UIUpdate>, text: Seq<char>, is_error: bool) -> bool {
    match u {
        Some(UIUpdate::ServerMessage { content, is_error: e }) => content@ == text && e == is_error,
        _ => false,
    }
}

/// The update that a message from the server makes, for the messages whose
/// update is a plain copy of their fields (see `react_to_message`).
pub open spec fn copied_update(m: Message) -> Option<UIUpdate> {
    match m.message_type {
        MessageType::AuthSuccess { user_id, message: _ } => Some(UIUpdate::AuthSuccess { user_id }),
        MessageType::AuthFailure { reason } => Some(UIUpdate::AuthFailure { reason }),
        MessageType::ServerCreated { server_id, name, description } =>
            Some(UIUpdate::ServerCreated { server_id, name, description }),
        MessageType::ServerJoined { server_id, name, description, channels } =>
            Some(UIUpdate::ServerJoined { server_id, name, description, channels }),
        MessageType::ServerLeft { server_id } => Some(UIUpdate::ServerLeft { server_id }),
        MessageType::ChannelCreated { server_id, channel_id, name, description, channel_type } =>
            Some(UIUpdate::ChannelCreated { server_id, channel_id, name, description, channel_type }),
        MessageType::ChannelJoined { server_id, channel_id, name, description, channel_type } =>
            Some(UIUpdate::ChannelJoined { server_id, channel_id, name, description, channel_type }),
        MessageType::ChannelMessage { channel_id, sender_username, content } =>
            Some(UIUpdate::ChannelMessage { channel_id, sender: sender_username, content }),
        MessageType::UserListUpdate { users } => Some(UIUpdate::UserListUpdate { users }),
        MessageType::ServerList { servers } => Some(UIUpdate::ServerList { servers }),
        MessageType::ChannelList { server_id, channels } => Some(UIUpdate::ChannelList { server_id, channels }),
        MessageType::UserServersSync { servers } => Some(UIUpdate::ServersSync { servers }),
        MessageType::PrivateMessage { to_user_id: _, sender_username, content } =>
            Some(UIUpdate::PrivateMessage { from_user_id: m.sender_id, sender: sender_username, content }),
        MessageType::ServerResponse { success, content } => Some(UIUpdate::ServerMessage { content, is_error: !success }),
        MessageType::ServerMemberList { server_id, members } => Some(UIUpdate::ServerMemberList { server_id, members }),
        _ => None,
    }
}

/// What the client does with a message from the server: most messages
/// become the matching interface update; voice credentials announce the
/// connection to the voice channel and start it; a voice error is shown as
/// an error; other messages are ignored.
pub fn react_to_message(message: Message) -> (r: Reaction)
    ensures
        match message.message_type {
            MessageType::VoiceCredentials { token, udp_port, channel_id } => {
                &&& is_server_text(r.update, "Connecting to voice channel "@ + decimal(channel_id as nat) + "..."@, false)
                &&& r.voice == Some((udp_port, token))
            },
            MessageType::VoiceError { message: msg } => {
                &&& is_server_text(r.update, "Voice error: "@ + msg@, true)
                &&& r.voice is None
            },
            _ => r.update == copied_update(message) && r.voice is None,
        },
{
    let sender_id = message.sender_id;
    let update = match message.message_type {
        MessageType::AuthSuccess { user_id, message: _ } => Some(UIUpdate::AuthSuccess { user_id }),
        MessageType::AuthFailure { reason } => Some(UIUpdate::AuthFailure { reason }),
        MessageType::ServerCreated { server_id, name, description } =>
            Some(UIUpdate::ServerCreated { server_id, name, description }),
        MessageType::ServerJoined { server_id, name, description, channels } =>
            Some(UIUpdate::ServerJoined { server_id, name, description, channels }),
        MessageType::ServerLeft { server_id } => Some(UIUpdate::ServerLeft { server_id }),
        MessageType::ChannelCreated { server_id, channel_id, name, description, channel_type } =>
            Some(UIUpdate::ChannelCreated { server_id, channel_id, name, description, channel_type }),
        MessageType::ChannelJoined { server_id, channel_id, name, description, channel_type } =>
            Some(UIUpdate::ChannelJoined { server_id, channel_id, name, description, channel_type }),
        MessageType::ChannelMessage { channel_id, sender_username, content } =>
            Some(UIUpdate::ChannelMessage { channel_id, sender: sender_username, content }),
        MessageType::UserListUpdate { users } => Some(UIUpdate::UserListUpdate { users }),
        MessageType::ServerList { servers } => Some(UIUpdate::ServerList { servers }),
        MessageType::ChannelList { server_id, channels } => Some(UIUpdate::ChannelList { server_id, channels }),
        MessageType::UserServersSync { servers } => Some(UIUpdate::ServersSync { servers }),
        MessageType::PrivateMessage { to_user_id: _, sender_username, content } =>
            Some(UIUpdate::PrivateMessage { from_user_id: sender_id, sender: sender_username, content }),
        MessageType::ServerResponse { success, content } => Some(UIUpdate::ServerMessage { content, is_error: !success }),
        MessageType::VoiceCredentials { token, udp_port, channel_id } => {
            let mut content = "Connecting to voice channel ".to_string();
            push_decimal(&mut content, channel_id as u64);
            push_text(&mut content, "...");
            return Reaction {
                update: Some(UIUpdate::ServerMessage { content, is_error: false }),
                voice: Some((udp_port, token)),
            };
        },
        MessageType::VoiceError { message: msg } => {
            let mut content = "Voice error: ".to_string();
            push_text(&mut content, msg.as_str());
            Some(UIUpdate::ServerMessage { content, is_error: true })
        },
        MessageType::ServerMemberList { server_id, members } => Some(UIUpdate::ServerMemberList { server_id, members }),
        _ => None,
    };
    Reaction { update, voice: None }
}

/// The host part of a `host:port` address: the text before the first `:`
/// (all of it when there is none).
pub open spec fn host_part(address: Seq<char>) -> Seq<char>
    decreases address.len(),
{
    if address.len() == 0 {
        Seq::empty()
    } else if address[0] == ':' {
        Seq::empty()
    } else {
        seq![address[0]] + host_part(address.drop_first())
    }
}

/// The host part of a `host:port` address (see `host_part`).
pub fn server_host(address: &str) -> (r: String)
    ensures
        r@ == host_part(address@),
{
    let mut out = String::new();
    let ghost full = address@;
    assert(full.skip(0) =~= full);
    assert(out@ + host_part(full) =~= host_part(full));
    for c in it: address.chars()
        invariant
            it.seq() == full,
            full == address@,
            0 <= it.index() <= full.len(),
            out@ + host_part(full.skip(it.index() as int)) == host_part(full),
            forall|j: int| 0 <= j < it.index() ==> full[j] != ':',
    {
        let ghost i = it.index();
        proof {
            assert(full.skip(i as int)[0] == c);
            assert(full.skip(i as int).drop_first() =~= full.skip(i + 1));
        }
        if c == ':' {
            proof {
                assert(host_part(full.skip(i as int)) == Seq::<char>::empty());
                assert(out@ =~= out@ + Seq::<char>::empty());
            }
            return out;
        }
        out.push(c);
        proof {
            assert(host_part(full.skip(i as int)) == seq![c] + host_part(full.skip(i + 1)));
        }
    }
    proof {
        assert(full.skip(full.len() as int) =~= Seq::<char>::empty());
        assert(out@ + Seq::<char>::empty() =~= out@);
    }
    out
}

impl TuiChatClient {
    /// The connection to the server is up: messages can be sent from now on,
    /// and the list of online users is asked for.
    pub fn on_connected(&mut self)
        ensures
            final(self).outbox@ == old(self).outbox@.push(Message { sender_id: 0, message_type: MessageType::RequestUserList }),
            *final(self) == (TuiChatClient { connected: true, outbox: final(self).outbox, ..*old(self) }),
    {
        self.connected = true;
        self.outbox.push(Message::new(0, MessageType::RequestUserList));
    }

    /// The periodic refresh of the user list: asked for once logged in and connected.
    pub fn refresh_user_list(&mut self)
        ensures
            old(self).authenticated ==> queued(old(self).outbox@, final(self).outbox@, old(self).connected,
                Message { sender_id: old(self).user_id, message_type: MessageType::RequestUserList }),
            !old(self).authenticated ==> final(self).outbox == old(self).outbox,
            *final(self) == (TuiChatClient { outbox: final(self).outbox, ..*old(self) }),
    {
        if self.authenticated {
            self.send(Message::new(self.user_id, MessageType::RequestUserList));
        }
    }

    /// Take the messages queued for the server, leaving none.
    pub fn take_outbox(&mut self) -> (r: Vec<Message>)
        ensures
            r@ == old(self).outbox@,
            final(self).outbox@ == Seq::<Message>::empty(),
            *final(self) == (TuiChatClient { outbox: final(self).outbox, ..*old(self) }),
    {
        let mut out: Vec<Message> = Vec::new();
        std::mem::swap(&mut out, &mut self.outbox);
        out
    }
}

} // verus!
