//! The voice client's packet bookkeeping: when it may transmit, how its
//! outgoing packets are numbered and stamped, and how incoming packets pass
//! through the jitter buffer. Encoding, decoding and voice detection work on
//! samples around it.

use vstd::prelude::*;
use crate::jitter::{EntryView, JitterBuffer};
use crate::voice::{VoicePacket, VoicePacketHeader, PacketType, JITTER_BUFFER_TARGET_MS};

verus! {

/// The most packets the client's jitter buffer holds.
pub const CLIENT_JITTER_CAPACITY: usize = 50;

/// Whether a client may transmit: not muted, and, in push-to-talk mode,
/// only while the key is held.
pub open spec fn may_transmit(is_muted: bool, push_to_talk: bool, ptt_active: bool) -> bool {
    !is_muted && (!push_to_talk || ptt_active)
}

/// The state of a voice connection on the client side.
pub struct VoiceClientState {
    pub is_muted: bool,
    pub is_deafened: bool,
    /// Push-to-talk mode
    pub push_to_talk: bool,
    pub ptt_active: bool,
    pub user_id: u16,
    pub room_id: u16,
    /// Sequence number of the next packet sent
    pub sequence: u16,
    /// Timestamp (in samples) of the next packet sent
    pub timestamp: u32,
    /// Jitter buffer for playback
    pub jitter_buffer: JitterBuffer,
}

impl VoiceClientState {
    /// The sequence number of the next packet sent.
    pub open spec fn next_seq(&self) -> u16 {
        self.sequence
    }

    /// The timestamp (in samples) of the next packet sent.
    pub open spec fn next_timestamp(&self) -> u32 {
        self.timestamp
    }

    /// The jitter buffer's entries, in playing order.
    pub open spec fn buffered(&self) -> Seq<EntryView> {
        self.jitter_buffer.entries()
    }

    /// The packet counts of the jitter buffer: received and dropped.
    pub open spec fn counts(&self) -> (u64, u64) {
        (self.jitter_buffer.received(), self.jitter_buffer.dropped())
    }

    /// What holds of the state: its jitter buffer is well formed.
    pub open spec fn wf(&self) -> bool {
        self.jitter_buffer.wf()
    }

    /// A connection for a user in a room: not muted, not deafened, voice
    /// activated, counters at zero, an empty jitter buffer of 50 packets.
    pub fn new(user_id: u16, room_id: u16) -> (r: Self)
        ensures
            !r.is_muted && !r.is_deafened && !r.push_to_talk && !r.ptt_active,
            r.user_id == user_id,
            r.room_id == room_id,
            r.next_seq() == 0,
            r.next_timestamp() == 0,
            r.buffered() == Seq::<EntryView>::empty(),
            r.counts() == (0u64, 0u64),
            r.wf(),
    {
        VoiceClientState {
            is_muted: false,
            is_deafened: false,
            push_to_talk: false,
            ptt_active: false,
            user_id,
            room_id,
            sequence: 0,
            timestamp: 0,
            jitter_buffer: JitterBuffer::new(JITTER_BUFFER_TARGET_MS, CLIENT_JITTER_CAPACITY),
        }
    }

    /// Whether the client may transmit now (see `may_transmit`).
    pub fn should_transmit(&self) -> (r: bool)
        ensures
            r == may_transmit(self.is_muted, self.push_to_talk, self.ptt_active),
    {
        !self.is_muted && (!self.push_to_talk || self.ptt_active)
    }

    /// The next sequence number; the counter moves on, wrapping around.
    pub fn next_sequence(&mut self) -> (r: u16)
        ensures
            r == old(self).next_seq(),
            final(self).next_seq() == (if r == u16::MAX { 0 } else { (r + 1) as u16 }),
            final(self).next_timestamp() == old(self).next_timestamp(),
            final(self).buffered() == old(self).buffered(),
            final(self).counts() == old(self).counts(),
            final(self).user_id == old(self).user_id && final(self).room_id == old(self).room_id,
            final(self).jitter_buffer == old(self).jitter_buffer,
    {
        let seq = self.sequence;
        self.sequence = self.sequence.wrapping_add(1);
        seq
    }

    /// The audio packet that carries `encoded`, made from `sample_count`
    /// samples: numbered and stamped with the counters, which move on (the
    /// timestamp by the number of samples, both wrapping around). The payload
    /// length field holds the length in 16 bits.
    pub fn make_packet(&mut self, encoded: Vec<u8>, sample_count: usize) -> (r: VoicePacket)
        ensures
            r.header == (VoicePacketHeader {
                version: 1,
                packet_type: PacketType::Audio,
                user_id: old(self).user_id,
                room_id: old(self).room_id,
                sequence: old(self).next_seq(),
                timestamp: old(self).next_timestamp(),
                payload_length: encoded@.len() as u16,
            }),
            r.payload@ == encoded@,
            final(self).next_seq() == (if old(self).next_seq() == u16::MAX { 0 } else { (old(self).next_seq() + 1) as u16 }),
            final(self).next_timestamp() == ((old(self).next_timestamp() + (sample_count as u32)) % 0x1_0000_0000) as u32,
            final(self).jitter_buffer == old(self).jitter_buffer,
            final(self).user_id == old(self).user_id && final(self).room_id == old(self).room_id,
    {
        let length = #[verifier::truncate] (encoded.len() as u16);
        let sequence = self.next_sequence();
        let header = VoicePacketHeader::new_audio(self.user_id, self.room_id, sequence, self.timestamp, length);
        self.timestamp = self.timestamp.wrapping_add(sample_count as u32);
        VoicePacket::new(header, encoded)
    }

    /// Take an incoming packet: none while deafened (the packet is dropped
    /// unseen); otherwise it goes into the jitter buffer and the next packet
    /// due, if any, comes out.
    pub fn accept_incoming(&mut self, packet: VoicePacket) -> (r: Option<VoicePacket>)
        requires
            old(self).wf(),
            !old(self).is_deafened ==> old(self).counts().0 < u64::MAX,
        ensures
            final(self).wf(),
            old(self).is_deafened ==> r is None && final(self).buffered() == old(self).buffered()
                && final(self).counts() == old(self).counts(),
            !old(self).is_deafened ==> final(self).counts().0 == old(self).counts().0 + 1,
            final(self).next_seq() == old(self).next_seq(),
            final(self).next_timestamp() == old(self).next_timestamp(),
    {
        if self.is_deafened {
            return None;
        }
        self.jitter_buffer.push(packet);
        self.jitter_buffer.pop()
    }

    /// Packet statistics of the jitter buffer: (received, dropped).
    pub fn get_stats(&self) -> (r: (u64, u64))
        ensures
            r == self.counts(),
    {
        self.jitter_buffer.get_stats()
    }

    /// Start over after a reconnect: empty jitter buffer, counters at zero.
    pub fn reset(&mut self)
        requires
            old(self).wf(),
        ensures
            final(self).wf(),
            final(self).buffered() == Seq::<EntryView>::empty(),
            final(self).next_seq() == 0,
            final(self).next_timestamp() == 0,
            final(self).counts() == old(self).counts(),
    {
        self.jitter_buffer.clear();
        self.sequence = 0;
        self.timestamp = 0;
    }
}

} // verus!
