use rustyroom::voice::{PacketType, VoicePacket, VoicePacketHeader};
use rustyroom::voice_client::VoiceClientState;

#[test]
fn client_numbers_and_stamps_packets() {
    let mut client = VoiceClientState::new(7, 3);
    client.sequence = u16::MAX;
    client.timestamp = u32::MAX - 100;
    let p = client.make_packet(vec![1, 2, 3], 960);
    assert_eq!(p.header.sequence, u16::MAX);
    assert_eq!(p.header.timestamp, u32::MAX - 100);
    assert_eq!(p.header.payload_length, 3);
    assert_eq!(p.header.user_id, 7);
    assert_eq!(p.header.room_id, 3);
    assert_eq!(p.header.packet_type, PacketType::Audio);
    assert_eq!(p.payload, vec![1, 2, 3]);
    assert_eq!(client.sequence, 0);
    assert_eq!(client.timestamp, 859);
    let q = client.make_packet(vec![], 960);
    assert_eq!(q.header.sequence, 0);
    assert_eq!(q.header.timestamp, 859);
}

#[test]
fn client_transmit_rules() {
    let mut client = VoiceClientState::new(1, 1);
    assert!(client.should_transmit());
    client.push_to_talk = true;
    assert!(!client.should_transmit());
    client.ptt_active = true;
    assert!(client.should_transmit());
    client.is_muted = true;
    assert!(!client.should_transmit());
}

#[test]
fn deafened_client_drops_incoming() {
    let mut client = VoiceClientState::new(1, 1);
    client.is_deafened = true;
    let header = VoicePacketHeader::new_audio(2, 1, 0, 0, 1);
    let out = client.accept_incoming(VoicePacket::new(header, vec![9]));
    assert!(out.is_none());
    assert_eq!(client.get_stats(), (0, 0));
    client.is_deafened = false;
    let header = VoicePacketHeader::new_audio(2, 1, 0, 0, 1);
    let _ = client.accept_incoming(VoicePacket::new(header, vec![9]));
    assert_eq!(client.get_stats().0, 1);
    client.reset();
    assert_eq!(client.sequence, 0);
    assert_eq!(client.get_stats().0, 1);
}
