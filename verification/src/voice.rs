//! Voice packets: the binary format exchanged over UDP, with its laws.

use vstd::prelude::*;
use crate::bytes_be::{be16, be32, from_be16, from_be32, append_u16_be, append_u32_be, read_u16_be, read_u32_be, lemma_be16_roundtrip, lemma_be32_roundtrip, lemma_from_be16_roundtrip, lemma_from_be32_roundtrip};

verus! {

/// Audio sample rate in Hz (standard for Opus).
pub const SAMPLE_RATE: u32 = 48000;

/// Frame size in samples (20ms at 48kHz).
pub const FRAME_SIZE: usize = 960;

/// Number of audio channels (mono).
pub const CHANNELS: usize = 1;

/// Maximum packet size for UDP transmission.
pub const MAX_PACKET_SIZE: usize = 4096;

/// Opus bitrate in bits per second.
pub const OPUS_BITRATE: i32 = 48000;

/// Jitter buffer target latency in milliseconds.
pub const JITTER_BUFFER_TARGET_MS: u64 = 60;

/// Silence frames before stopping transmission (about 500ms at 20ms frames).
pub const SILENCE_FRAMES_THRESHOLD: u32 = 25;

/// Size of an encoded voice packet header in bytes.
pub const HEADER_SIZE: usize = 14;

/// Packet types of the voice protocol.
#[derive(Debug, Clone, Copy, PartialEq, Eq, Structural)]
pub enum PacketType {
    /// Audio data packet
    Audio,
    /// Heartbeat/keepalive packet
    Heartbeat,
    /// Voice state update (mute/deafen)
    StateUpdate,
    /// Speaking indicator
    Speaking,
    /// Authentication token
    Auth,
    /// Connection acknowledgment
    Ack,
}

/// The wire code of a packet type.
pub open spec fn packet_type_code(t: PacketType) -> u8 {
    match t {
        PacketType::Audio => 0,
        PacketType::Heartbeat => 1,
        PacketType::StateUpdate => 2,
        PacketType::Speaking => 3,
        PacketType::Auth => 4,
        PacketType::Ack => 5,
    }
}

/// The packet type that a wire code stands for; unknown codes read as audio.
pub open spec fn packet_type_from_code(v: u8) -> PacketType {
    if v == 1 {
        PacketType::Heartbeat
    } else if v == 2 {
        PacketType::StateUpdate
    } else if v == 3 {
        PacketType::Speaking
    } else if v == 4 {
        PacketType::Auth
    } else if v == 5 {
        PacketType::Ack
    } else {
        PacketType::Audio
    }
}

impl PacketType {
    /// The wire code of this packet type.
    pub fn code(&self) -> (r: u8)
        ensures
            r == packet_type_code(*self),
            r <= 5,
    {
        match self {
            PacketType::Audio => 0,
            PacketType::Heartbeat => 1,
            PacketType::StateUpdate => 2,
            PacketType::Speaking => 3,
            PacketType::Auth => 4,
            PacketType::Ack => 5,
        }
    }
}

impl From<u8> for PacketType {
    fn from(v: u8) -> (r: PacketType) {
        if v == 1 {
            PacketType::Heartbeat
        } else if v == 2 {
            PacketType::StateUpdate
        } else if v == 3 {
            PacketType::Speaking
        } else if v == 4 {
            PacketType::Auth
        } else if v == 5 {
            PacketType::Ack
        } else {
            PacketType::Audio
        }
    }
}

impl vstd::std_specs::convert::FromSpecImpl<u8> for PacketType {
    open spec fn obeys_from_spec() -> bool {
        true
    }

    open spec fn from_spec(v: u8) -> PacketType {
        packet_type_from_code(v)
    }
}

/// Reading the code of a packet type gives the packet type back.
pub proof fn lemma_packet_type_code_roundtrip(t: PacketType)
    ensures
        packet_type_from_code(packet_type_code(t)) == t,
{
}

/// Voice packet header.
///
/// Layout (14 bytes, integers big-endian): version (1), type (1), user id (2),
/// room id (2), sequence (2), timestamp (4), payload length (2).
#[derive(Debug, Clone, Copy, PartialEq, Eq, Structural)]
pub struct VoicePacketHeader {
    pub version: u8,
    pub packet_type: PacketType,
    pub user_id: u16,
    pub room_id: u16,
    pub sequence: u16,
    pub timestamp: u32,
    pub payload_length: u16,
}

/// The 14 bytes that encode a header.
pub open spec fn header_bytes(h: VoicePacketHeader) -> Seq<u8> {
    seq![h.version, packet_type_code(h.packet_type)] + be16(h.user_id) + be16(h.room_id)
        + be16(h.sequence) + be32(h.timestamp) + be16(h.payload_length)
}

/// The header that the first 14 bytes of `d` encode.
pub open spec fn header_from_bytes(d: Seq<u8>) -> VoicePacketHeader {
    VoicePacketHeader {
        version: d[0],
        packet_type: packet_type_from_code(d[1]),
        user_id: from_be16(d[2], d[3]),
        room_id: from_be16(d[4], d[5]),
        sequence: from_be16(d[6], d[7]),
        timestamp: from_be32(d[8], d[9], d[10], d[11]),
        payload_length: from_be16(d[12], d[13]),
    }
}

/// What decoding a header from `d` gives: nothing when fewer than 14 bytes arrived.
pub open spec fn decode_header_spec(d: Seq<u8>) -> Option<VoicePacketHeader> {
    if d.len() < 14 {
        None
    } else {
        Some(header_from_bytes(d))
    }
}

impl VoicePacketHeader {
    /// Header size in bytes.
    pub const SIZE: usize = 14;

    /// Create a new audio packet header.
    pub fn new_audio(user_id: u16, room_id: u16, sequence: u16, timestamp: u32, payload_len: u16) -> (r: Self)
        ensures
            r == (VoicePacketHeader {
                version: 1,
                packet_type: PacketType::Audio,
                user_id,
                room_id,
                sequence,
                timestamp,
                payload_length: payload_len,
            }),
    {
        VoicePacketHeader {
            version: 1,
            packet_type: PacketType::Audio,
            user_id,
            room_id,
            sequence,
            timestamp,
            payload_length: payload_len,
        }
    }

    /// Create a heartbeat packet header.
    pub fn new_heartbeat(user_id: u16, room_id: u16) -> (r: Self)
        ensures
            r == (VoicePacketHeader {
                version: 1,
                packet_type: PacketType::Heartbeat,
                user_id,
                room_id,
                sequence: 0,
                timestamp: 0,
                payload_length: 0,
            }),
    {
        VoicePacketHeader {
            version: 1,
            packet_type: PacketType::Heartbeat,
            user_id,
            room_id,
            sequence: 0,
            timestamp: 0,
            payload_length: 0,
        }
    }

    /// Serialize the header to its 14 bytes.
    pub fn encode(&self) -> (r: Vec<u8>)
        ensures
            r@ == header_bytes(*self),
            r@.len() == 14,
    {
        let mut buf: Vec<u8> = Vec::with_capacity(14);
        buf.push(self.version);
        buf.push(self.packet_type.code());
        append_u16_be(&mut buf, self.user_id);
        append_u16_be(&mut buf, self.room_id);
        append_u16_be(&mut buf, self.sequence);
        append_u32_be(&mut buf, self.timestamp);
        append_u16_be(&mut buf, self.payload_length);
        buf
    }

    /// Deserialize a header from the first 14 bytes of `data`; `None` when fewer arrived.
    pub fn decode(data: &[u8]) -> (r: Option<Self>)
        ensures
            r == decode_header_spec(data@),
    {
        if data.len() < 14 {
            return None;
        }
        let version = data[0];
        let packet_type = PacketType::from(data[1]);
        let user_id = read_u16_be(data, 2);
        let room_id = read_u16_be(data, 4);
        let sequence = read_u16_be(data, 6);
        let timestamp = read_u32_be(data, 8);
        let payload_length = read_u16_be(data, 12);
        Some(VoicePacketHeader { version, packet_type, user_id, room_id, sequence, timestamp, payload_length })
    }
}

/// Decoding the encoding of a header gives the header back.
pub proof fn lemma_header_roundtrip(h: VoicePacketHeader)
    ensures
        header_bytes(h).len() == 14,
        decode_header_spec(header_bytes(h)) == Some(h),
{
    let b = header_bytes(h);
    lemma_be16_roundtrip(h.user_id);
    lemma_be16_roundtrip(h.room_id);
    lemma_be16_roundtrip(h.sequence);
    lemma_be32_roundtrip(h.timestamp);
    lemma_be16_roundtrip(h.payload_length);
    lemma_packet_type_code_roundtrip(h.packet_type);
    assert(b[2] == be16(h.user_id)[0] && b[3] == be16(h.user_id)[1]);
    assert(b[4] == be16(h.room_id)[0] && b[5] == be16(h.room_id)[1]);
    assert(b[6] == be16(h.sequence)[0] && b[7] == be16(h.sequence)[1]);
    assert(b[8] == be32(h.timestamp)[0] && b[9] == be32(h.timestamp)[1]);
    assert(b[10] == be32(h.timestamp)[2] && b[11] == be32(h.timestamp)[3]);
    assert(b[12] == be16(h.payload_length)[0] && b[13] == be16(h.payload_length)[1]);
    assert(header_from_bytes(b) == h);
}

/// Encoding the header read from 14 bytes gives those bytes back, provided
/// the type byte is a known packet type code (unknown codes read as audio).
pub proof fn lemma_header_bytes_roundtrip(d: Seq<u8>)
    requires
        d.len() >= 14,
        d[1] <= 5,
    ensures
        header_bytes(header_from_bytes(d)) == d.subrange(0, 14),
{
    lemma_from_be16_roundtrip(d[2], d[3]);
    lemma_from_be16_roundtrip(d[4], d[5]);
    lemma_from_be16_roundtrip(d[6], d[7]);
    lemma_from_be32_roundtrip(d[8], d[9], d[10], d[11]);
    lemma_from_be16_roundtrip(d[12], d[13]);
    assert(header_bytes(header_from_bytes(d)) =~= d.subrange(0, 14));
}

/// Complete voice packet: header and audio payload.
#[derive(Debug)]
pub struct VoicePacket {
    pub header: VoicePacketHeader,
    pub payload: Vec<u8>,
}

impl Clone for VoicePacket {
    fn clone(&self) -> (r: Self)
        ensures
            r@ == self@,
    {
        let mut payload: Vec<u8> = Vec::with_capacity(self.payload.len());
        append_bytes(&mut payload, self.payload.as_slice());
        VoicePacket { header: self.header, payload }
    }
}

/// The bytes of a whole packet: header bytes, then the payload as it is.
pub open spec fn packet_bytes(header: VoicePacketHeader, payload: Seq<u8>) -> Seq<u8> {
    header_bytes(header) + payload
}

/// What decoding a packet from `d` gives: the header, and the `payload_length`
/// bytes that follow it; nothing when the header or the payload is cut short.
pub open spec fn decode_packet_spec(d: Seq<u8>) -> Option<(VoicePacketHeader, Seq<u8>)> {
    match decode_header_spec(d) {
        None => None,
        Some(h) => if d.len() < 14 + h.payload_length {
            None
        } else {
            Some((h, d.subrange(14, 14 + h.payload_length)))
        },
    }
}

impl View for VoicePacket {
    type V = (VoicePacketHeader, Seq<u8>);

    open spec fn view(&self) -> (VoicePacketHeader, Seq<u8>) {
        (self.header, self.payload@)
    }
}

/// Appends the bytes of `src` to `dst`.
pub fn append_bytes(dst: &mut Vec<u8>, src: &[u8])
    ensures
        final(dst)@ == old(dst)@ + src@,
{
    let mut i: usize = 0;
    while i < src.len()
        invariant
            i <= src@.len(),
            dst@ == old(dst)@ + src@.subrange(0, i as int),
        decreases src@.len() - i,
    {
        dst.push(src[i]);
        i = i + 1;
        assert(dst@ =~= old(dst)@ + src@.subrange(0, i as int));
    }
    assert(src@.subrange(0, i as int) =~= src@);
}

/// A fresh vector holding the bytes of `src`.
pub fn copy_bytes(src: &[u8]) -> (r: Vec<u8>)
    ensures
        r@ == src@,
{
    let mut r: Vec<u8> = Vec::with_capacity(src.len());
    append_bytes(&mut r, src);
    assert(r@ =~= src@);
    r
}

impl VoicePacket {
    /// Create a new voice packet.
    pub fn new(header: VoicePacketHeader, payload: Vec<u8>) -> (r: Self)
        ensures
            r.header == header,
            r.payload@ == payload@,
    {
        VoicePacket { header, payload }
    }

    /// Encode the packet to bytes for transmission.
    pub fn encode(&self) -> (r: Vec<u8>)
        ensures
            r@ == packet_bytes(self.header, self.payload@),
    {
        let mut buf = self.header.encode();
        append_bytes(&mut buf, self.payload.as_slice());
        buf
    }

    /// Decode a packet from received bytes.
    pub fn decode(data: &[u8]) -> (r: Option<Self>)
        ensures
            match r {
                None => decode_packet_spec(data@) is None,
                Some(p) => decode_packet_spec(data@) == Some(p@),
            },
    {
        let header = match VoicePacketHeader::decode(data) {
            Some(h) => h,
            None => return None,
        };
        let len = header.payload_length as usize;
        if data.len() < 14 + len {
            return None;
        }
        let mut payload: Vec<u8> = Vec::with_capacity(len);
        let end: usize = 14 + len;
        let mut i: usize = 14;
        while i < end
            invariant
                end == 14 + len,
                14 <= i <= end <= data@.len(),
                payload@ == data@.subrange(14, i as int),
            decreases end - i,
        {
            payload.push(data[i]);
            i = i + 1;
            assert(payload@ =~= data@.subrange(14, i as int));
        }
        Some(VoicePacket { header, payload })
    }
}

/// Decoding an encoded packet gives it back, whenever its header's payload
/// length is the length of its payload.
pub proof fn lemma_packet_roundtrip(h: VoicePacketHeader, payload: Seq<u8>)
    requires
        h.payload_length == payload.len(),
    ensures
        decode_packet_spec(packet_bytes(h, payload)) == Some((h, payload)),
{
    let b = packet_bytes(h, payload);
    lemma_header_roundtrip(h);
    assert(b.subrange(0, 14) =~= header_bytes(h));
    assert(header_from_bytes(b) == header_from_bytes(header_bytes(h))) by {
        assert forall|i: int| 0 <= i < 14 implies b[i] == header_bytes(h)[i] by {}
    }
    assert(b.subrange(14, 14 + h.payload_length) =~= payload);
}

/// Encoding a decoded packet gives back the bytes it was read from (up to the
/// end of its payload), provided the type byte is a known packet type code.
pub proof fn lemma_packet_bytes_roundtrip(d: Seq<u8>)
    requires
        decode_packet_spec(d) is Some,
        d[1] <= 5,
    ensures
        ({
            let (h, payload) = decode_packet_spec(d).unwrap();
            packet_bytes(h, payload) == d.subrange(0, 14 + h.payload_length)
        }),
{
    let (h, payload) = decode_packet_spec(d).unwrap();
    lemma_header_bytes_roundtrip(d);
    assert(packet_bytes(h, payload) =~= d.subrange(0, 14 + h.payload_length));
}

} // verus!
