use rustyroom::voice::{PacketType, VoicePacket, VoicePacketHeader, HEADER_SIZE};
use rustyroom::jitter::JitterBuffer;

#[test]
fn test_packet_encode_decode() {
    let header = VoicePacketHeader::new_audio(1, 2, 42, 1234, 100);
    let payload = vec![1u8; 100];
    let packet = VoicePacket::new(header, payload.clone());

    let encoded = packet.encode();
    let decoded = VoicePacket::decode(&encoded).unwrap();

    assert_eq!(decoded.header.user_id, 1);
    assert_eq!(decoded.header.room_id, 2);
    assert_eq!(decoded.header.sequence, 42);
    assert_eq!(decoded.header.timestamp, 1234);
    assert_eq!(decoded.payload, payload);
}

#[test]
fn test_jitter_buffer() {
    let mut buffer = JitterBuffer::new(0, 10);

    let header1 = VoicePacketHeader::new_audio(1, 1, 0, 0, 10);
    let header2 = VoicePacketHeader::new_audio(1, 1, 1, 960, 10);

    // Insert out of order
    buffer.push(VoicePacket::new(header2.clone(), vec![2; 10]));
    buffer.push(VoicePacket::new(header1.clone(), vec![1; 10]));

    // Should come out in order
    let p1 = buffer.pop().unwrap();
    assert_eq!(p1.header.sequence, 0);

    let p2 = buffer.pop().unwrap();
    assert_eq!(p2.header.sequence, 1);
}

#[test]
fn header_bytes_are_big_endian() {
    let header = VoicePacketHeader::new_audio(0x0102, 0x0304, 0x0506, 0x0708090a, 0x0b0c);
    let bytes = header.encode();
    assert_eq!(bytes.len(), HEADER_SIZE);
    assert_eq!(bytes, vec![1, 0, 1, 2, 3, 4, 5, 6, 7, 8, 9, 10, 11, 12]);
}

#[test]
fn heartbeat_header_round_trips() {
    let header = VoicePacketHeader::new_heartbeat(7, 9);
    let back = VoicePacketHeader::decode(&header.encode()).unwrap();
    assert_eq!(back, header);
    assert_eq!(back.packet_type, PacketType::Heartbeat);
    assert_eq!(back.payload_length, 0);
    assert_eq!(back.sequence, 0);
}

#[test]
fn short_data_is_no_packet() {
    assert!(VoicePacketHeader::decode(&[1, 0, 0]).is_none());
    assert!(VoicePacket::decode(&[]).is_none());
    // A header that announces more payload than there is.
    let header = VoicePacketHeader::new_audio(1, 1, 1, 1, 5);
    let mut bytes = header.encode();
    bytes.extend_from_slice(&[1, 2]);
    assert!(VoicePacket::decode(&bytes).is_none());
}

#[test]
fn packet_type_codes() {
    assert_eq!(PacketType::from(0u8), PacketType::Audio);
    assert_eq!(PacketType::from(1u8), PacketType::Heartbeat);
    assert_eq!(PacketType::from(5u8), PacketType::Ack);
    assert_eq!(PacketType::from(200u8), PacketType::Audio);
    assert_eq!(PacketType::Speaking.code(), 3);
}

#[test]
fn jitter_drops_late_packets() {
    let mut buffer = JitterBuffer::new(0, 10);
    buffer.push(VoicePacket::new(VoicePacketHeader::new_audio(1, 1, 5, 0, 0), vec![]));
    let p = buffer.pop().unwrap();
    assert_eq!(p.header.sequence, 5);
    buffer.push(VoicePacket::new(VoicePacketHeader::new_audio(1, 1, 3, 0, 0), vec![]));
    assert_eq!(buffer.depth(), 0);
    assert_eq!(buffer.get_stats(), (2, 1));
}

#[test]
fn jitter_drops_oldest_when_full() {
    let mut buffer = JitterBuffer::new(0, 2);
    for seq in [4u16, 2, 3] {
        buffer.push(VoicePacket::new(VoicePacketHeader::new_audio(1, 1, seq, 0, 0), vec![]));
    }
    assert_eq!(buffer.depth(), 2);
    assert_eq!(buffer.get_stats(), (3, 1));
    assert_eq!(buffer.pop().unwrap().header.sequence, 3);
    assert_eq!(buffer.pop().unwrap().header.sequence, 4);
    assert!(buffer.pop().is_none());
    buffer.clear();
    assert_eq!(buffer.depth(), 0);
}

fn audio(seq: u16) -> VoicePacket {
    VoicePacket::new(VoicePacketHeader::new_audio(1, 1, seq, 0, 0), vec![])
}

#[test]
fn cleared_buffer_takes_any_sequence() {
    let mut b = JitterBuffer::new(0, 4);
    b.push_at(audio(100), 0);
    assert_eq!(b.pop_at(0).unwrap().header.sequence, 100);
    b.push_at(audio(100 + 40000), 0);
    assert_eq!(b.depth(), 0);
    assert_eq!(b.get_stats(), (2, 1));
    b.clear();
    assert_eq!(b.get_stats(), (2, 1));
    assert!(b.pop_at(0).is_none());
    b.push_at(audio(100 + 40000), 0);
    assert_eq!(b.depth(), 1);
}

#[test]
fn overflow_drops_lowest_sequence() {
    let mut b = JitterBuffer::new(0, 2);
    b.push_at(audio(5), 0);
    b.push_at(audio(3), 0);
    b.push_at(audio(9), 0);
    assert_eq!(b.depth(), 2);
    assert_eq!(b.get_stats(), (3, 1));
    assert_eq!(b.pop_at(0).unwrap().header.sequence, 5);
    assert_eq!(b.pop_at(0).unwrap().header.sequence, 9);
    assert!(b.pop().is_none());
}
