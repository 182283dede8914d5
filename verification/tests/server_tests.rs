use rustyroom::net::PeerAddr;
use rustyroom::resc::{Account, Channel, ChannelType, Message, MessageType};
use rustyroom::server::{
    decide_join_channel, decide_login, hash_password, relay_channel_message, relay_private_message, JoinChannelDecision,
    LogLevel, LoginDecision, RelayTarget,
};
use rustyroom::tables::TokenTable;
use rustyroom::voice::{PacketType, VoicePacket, VoicePacketHeader};
use rustyroom::voice_listener::{decide_voice_request, issue_voice_credentials, voice_refusal, UdpVoiceRouter, VoiceDecision};
use rustyroom::voice_server::VoiceServerState;

const ABC_SHA256: &str = "ba7816bf8f01cfea414140de5dae2223b00361a396177a9cb410ff61f20015ad";

#[test]
fn password_hash_is_sha256_hex() {
    assert_eq!(hash_password("abc"), ABC_SHA256);
    assert_eq!(
        hash_password(""),
        "e3b0c44298fc1c149afbf4c8996fb92427ae41e4649b934ca495991b7852b855"
    );
}

#[test]
fn log_level_prefixes() {
    assert_eq!(LogLevel::Info.prefix(), "INFO");
    assert_eq!(LogLevel::Voice.prefix(), "VOICE");
    assert_eq!(LogLevel::Channel.prefix(), "CHANNEL");
}

#[test]
fn login_decisions() {
    let account = Account::new("bob".to_string(), hash_password("secret"), 7);
    assert!(matches!(decide_login(&Some(account.clone()), "secret"), LoginDecision::Accepted { user_id: 7 }));
    assert!(matches!(decide_login(&Some(account), "wrong"), LoginDecision::WrongPassword));
    assert!(matches!(decide_login(&None, "secret"), LoginDecision::NoAccount));
}

fn vip() -> Channel {
    Channel::new_with_password(3, 1, "vip".to_string(), "members only".to_string(), ChannelType::Text, hash_password("pw"))
}

#[test]
fn channel_password_admits_its_password() {
    assert!(vip().is_password_protected());
    assert!(vip().verify_password(&hash_password("pw")));
    assert!(!vip().verify_password(&hash_password("nope")));
    assert_eq!(decide_join_channel(&Some(vip()), true, &Some("pw".to_string())), JoinChannelDecision::Join);
    assert_eq!(decide_join_channel(&Some(vip()), true, &Some("nope".to_string())), JoinChannelDecision::BadPassword);
    assert_eq!(decide_join_channel(&Some(vip()), true, &None), JoinChannelDecision::BadPassword);
    assert_eq!(decide_join_channel(&Some(vip()), false, &Some("pw".to_string())), JoinChannelDecision::NotMember);
    let open = Channel::new(4, 1, "general".to_string(), String::new(), ChannelType::Text);
    assert!(!open.is_password_protected());
    assert_eq!(decide_join_channel(&Some(open), true, &Some("anything".to_string())), JoinChannelDecision::Join);
    assert_eq!(decide_join_channel(&None, true, &None), JoinChannelDecision::NotFound);
}

#[test]
fn channel_type_names() {
    assert_eq!(ChannelType::Text.as_str(), "text");
    assert_eq!(ChannelType::Voice.as_str(), "voice");
    assert_eq!(ChannelType::from_str("voice"), ChannelType::Voice);
    assert_eq!(ChannelType::from_str("text"), ChannelType::Text);
    assert_eq!(ChannelType::from_str("other"), ChannelType::Text);
}

#[test]
fn voice_requests_are_refused_or_granted() {
    let voice = Channel::new(9, 1, "talk".to_string(), String::new(), ChannelType::Voice);
    let text = Channel::new(8, 1, "chat".to_string(), String::new(), ChannelType::Text);
    assert_eq!(decide_voice_request(&Some(voice)), VoiceDecision::Grant);
    assert_eq!(decide_voice_request(&Some(text)), VoiceDecision::NotVoice);
    assert_eq!(decide_voice_request(&None), VoiceDecision::NotFound);
    match voice_refusal(12, VoiceDecision::NotFound) {
        Some(Message { sender_id: 0, message_type: MessageType::VoiceError { message } }) => {
            assert_eq!(message, "Channel 12 not found")
        }
        _ => panic!("expected a voice error"),
    }
    match voice_refusal(12, VoiceDecision::NotVoice) {
        Some(Message { message_type: MessageType::VoiceError { message }, .. }) => assert_eq!(message, "Not a voice channel"),
        _ => panic!("expected a voice error"),
    }
    assert!(voice_refusal(12, VoiceDecision::Grant).is_none());
}

fn credentials(tokens: &mut TokenTable, user: u16, channel: u16) -> String {
    match issue_voice_credentials(tokens, user, channel).message_type {
        MessageType::VoiceCredentials { token, udp_port, channel_id } => {
            assert_eq!(udp_port, 8081);
            assert_eq!(channel_id, channel);
            token
        }
        _ => panic!("expected credentials"),
    }
}

#[test]
fn voice_tokens_are_random_and_alphanumeric() {
    let mut tokens = TokenTable::new();
    let a = credentials(&mut tokens, 1, 5);
    let b = credentials(&mut tokens, 2, 5);
    assert_eq!(a.len(), 16);
    assert!(a.chars().all(|c| c.is_ascii_alphanumeric()));
    assert_ne!(a, b);
    assert_eq!(tokens.len(), 2);
    assert_eq!(tokens.get(&a), Some((1, 5)));
}

#[test]
fn udp_router_redeems_tokens_once_and_relays() {
    let mut tokens = TokenTable::new();
    let ta = credentials(&mut tokens, 1, 5);
    let tb = credentials(&mut tokens, 2, 5);
    let pa = PeerAddr::v4(0x7f000001, 4000);
    let pb = PeerAddr::v4(0x7f000001, 4001);
    let mut router = UdpVoiceRouter::new();

    let out = router.handle_datagram(&mut tokens, format!("{}\n", ta).as_bytes(), pa);
    assert_eq!(out.len(), 1);
    assert_eq!(out[0].to, pa);
    assert_eq!(out[0].bytes, b"VOICE_CONNECTED".to_vec());
    let out = router.handle_datagram(&mut tokens, tb.as_bytes(), pb);
    assert_eq!(out[0].bytes, b"VOICE_CONNECTED".to_vec());
    assert_eq!(tokens.len(), 0);

    // Audio from A goes to B only, unchanged.
    let audio = VoicePacket::new(VoicePacketHeader::new_audio(1, 5, 1, 960, 3), vec![9, 9, 9]).encode();
    let out = router.handle_datagram(&mut tokens, &audio, pa);
    assert_eq!(out.len(), 1);
    assert_eq!(out[0].to, pb);
    assert_eq!(out[0].bytes, audio);

    // A heartbeat is relayed and answered.
    let beat = VoicePacketHeader::new_heartbeat(2, 5).encode();
    let out = router.handle_datagram(&mut tokens, &beat, pb);
    assert_eq!(out.len(), 2);
    assert_eq!(out[0].to, pa);
    assert_eq!(out[1].to, pb);
    let ack = VoicePacketHeader::decode(&out[1].bytes).unwrap();
    assert_eq!(ack.packet_type, PacketType::Heartbeat);
    assert_eq!((ack.user_id, ack.room_id), (2, 5));

    // A used token is no longer accepted; an unknown sender gets nothing.
    let stranger = PeerAddr::v4(0x0a000001, 9);
    assert!(router.handle_datagram(&mut tokens, ta.as_bytes(), stranger).is_empty());
}

#[test]
fn voice_server_token_flow() {
    let mut state = VoiceServerState::new();
    state.register_token("tok123".to_string(), 4, 2);
    let peer = PeerAddr::v4(0x7f000001, 5000);
    let stranger = PeerAddr::v4(0x7f000002, 5001);
    assert!(state.handle_datagram(&[0xff, 0xfe], stranger, 1_000).is_empty());
    let out = state.handle_datagram(b" tok123 ", peer, 1_000);
    assert_eq!(out.len(), 1);
    assert_eq!(out[0].bytes, b"VOICE_CONNECTED".to_vec());
    assert_eq!(state.validate_token("tok123"), None);
    state.register_token("again".to_string(), 4, 2);
    assert_eq!(state.validate_token("again"), Some((4, 2)));
    assert_eq!(state.validate_token("again"), None);
}

#[test]
fn chat_messages_are_stored_and_relayed() {
    let none = relay_channel_message(3, "ann".to_string(), 7, &None, "hi".to_string());
    assert!(none.is_none());
    let ch = Channel::new(7, 2, "general".to_string(), String::new(), ChannelType::Text);
    let r = relay_channel_message(3, "ann".to_string(), 7, &Some(ch), "hi".to_string()).unwrap();
    assert_eq!((r.store.channel_id, r.store.sender_id), (7, 3));
    assert_eq!((r.store.sender_username.as_str(), r.store.content.as_str(), r.store.kind.as_str()), ("ann", "hi", "user"));
    assert_eq!(r.target, RelayTarget::ServerMembers(2));
    assert_eq!(r.message.sender_id, 3);
    assert!(matches!(r.message.message_type,
        MessageType::ChannelMessage { channel_id: 7, ref sender_username, ref content } if sender_username == "ann" && content == "hi"));
    let p = relay_private_message(3, "ann".to_string(), 9, "psst".to_string());
    assert_eq!((p.store.channel_id, p.store.kind.as_str()), (0, "private"));
    assert_eq!(p.target, RelayTarget::User(9));
    assert!(matches!(p.message.message_type,
        MessageType::PrivateMessage { to_user_id: 9, ref content, .. } if content == "psst"));
}
