//! The chat server's UDP voice listener: voice tokens issued over TCP are
//! redeemed here, after which each datagram from a member of a voice channel
//! is relayed to the channel's other members.

use vstd::prelude::*;
use std::collections::HashMap;
use crate::net::PeerAddr;
use crate::tables::{TokenTable, AddrTable};
use crate::text::{utf8_text, trim_str, push_text, push_decimal, decimal};
use crate::voice::{VoicePacket, VoicePacketHeader, PacketType, decode_packet_spec, header_bytes, copy_bytes};
use crate::voice_server::{Outgoing, voice_connected_ack, voice_connected_bytes, datagram_token};
use crate::resc::{Channel, ChannelType, Message, MessageType};
use crate::server::VOICE_UDP_PORT;

verus! {

broadcast use vstd::std_specs::hash::group_hash_axioms;

/// Whether `c` is an ASCII letter or digit.
pub open spec fn is_ascii_alphanumeric(c: char) -> bool {
    ('0' <= c <= '9') || ('A' <= c <= 'Z') || ('a' <= c <= 'z')
}

/// `rand::distributions::DistString::sample_string` for `Alphanumeric` with the
/// thread-local generator: `len` characters, each drawn from `A-Z`, `a-z`, `0-9`.
/// Nothing else is claimed of the characters, which are random.
#[verifier::external_body]
fn random_alphanumeric(len: usize) -> (r: String)
    ensures
        r@.len() == len,
        forall|i: int| 0 <= i < len ==> is_ascii_alphanumeric(#[trigger] r@[i]),
{
    rand::distributions::DistString::sample_string(&rand::distributions::Alphanumeric, &mut rand::thread_rng(), len)
}

/// What the server decides when a user asks to talk in a voice channel.
#[derive(Debug, Clone, Copy, PartialEq, Eq, Structural)]
pub enum VoiceDecision {
    NotFound,
    NotVoice,
    Grant,
}

/// Decide a request for voice in a channel, given the channel if it exists.
pub fn decide_voice_request(channel: &Option<Channel>) -> (r: VoiceDecision)
    ensures
        r == match channel {
            None => VoiceDecision::NotFound,
            Some(c) => if c.channel_type == ChannelType::Voice { VoiceDecision::Grant } else { VoiceDecision::NotVoice },
        },
{
    match channel {
        None => VoiceDecision::NotFound,
        Some(c) => if c.channel_type == ChannelType::Voice {
            VoiceDecision::Grant
        } else {
            VoiceDecision::NotVoice
        },
    }
}

/// Whether `r` is a voice error from the server whose text is `text`.
pub open spec fn is_voice_error(r: Option<Message>, text: Seq<char>) -> bool {
    match r {
        Some(m) => m.sender_id == 0 && match m.message_type {
            MessageType::VoiceError { message } => message@ == text,
            _ => false,
        },
        None => false,
    }
}

/// The voice error that refuses a request for voice in `channel_id`, if refused.
pub fn voice_refusal(channel_id: u16, decision: VoiceDecision) -> (r: Option<Message>)
    ensures
        match decision {
            VoiceDecision::NotFound => is_voice_error(r, "Channel "@ + decimal(channel_id as nat) + " not found"@),
            VoiceDecision::NotVoice => is_voice_error(r, "Not a voice channel"@),
            VoiceDecision::Grant => r is None,
        },
{
    match decision {
        VoiceDecision::NotFound => {
            let mut message = String::new();
            push_text(&mut message, "Channel ");
            push_decimal(&mut message, channel_id as u64);
            push_text(&mut message, " not found");
            Some(Message::new(0, MessageType::VoiceError { message }))
        },
        VoiceDecision::NotVoice => {
            let mut message = String::new();
            push_text(&mut message, "Not a voice channel");
            Some(Message::new(0, MessageType::VoiceError { message }))
        },
        VoiceDecision::Grant => None,
    }
}

/// Issue a fresh voice token for a user and channel: a random string of 16
/// letters and digits, stored as pending, and sent back with the voice port.
pub fn issue_voice_credentials(tokens: &mut TokenTable, user_id: u16, channel_id: u16) -> (r: Message)
    ensures
        r.sender_id == 0,
        match r.message_type {
            MessageType::VoiceCredentials { token, udp_port, channel_id: c } => {
                &&& udp_port == VOICE_UDP_PORT
                &&& c == channel_id
                &&& token@.len() == 16
                &&& forall|i: int| 0 <= i < 16 ==> is_ascii_alphanumeric(#[trigger] token@[i])
                &&& final(tokens)@ == old(tokens)@.insert(token@, (user_id, channel_id))
            },
            _ => false,
        },
{
    let token = random_alphanumeric(16);
    tokens.insert(token.clone(), (user_id, channel_id));
    Message::new(0, MessageType::VoiceCredentials { token, udp_port: VOICE_UDP_PORT, channel_id })
}

/// The members of a channel that a datagram from `peer` is relayed to: the
/// others, in order, that have a session.
pub open spec fn relay_targets(members: Seq<PeerAddr>, peer: PeerAddr, sessions: Map<PeerAddr, (u16, u16)>) -> Seq<PeerAddr>
    decreases members.len(),
{
    if members.len() == 0 {
        Seq::empty()
    } else {
        let rest = relay_targets(members.drop_last(), peer, sessions);
        let m = members.last();
        if m != peer && sessions.contains_key(m) {
            rest.push(m)
        } else {
            rest
        }
    }
}

/// The members of voice channels and their sessions, as the UDP listener keeps them.
#[derive(Debug)]
pub struct UdpVoiceRouter {
    /// Active voice sessions: address to (user id, channel id)
    pub sessions: AddrTable,
    /// Channel membership: channel id to the addresses that joined it
    pub channel_members: HashMap<u16, Vec<PeerAddr>>,
}

impl UdpVoiceRouter {
    /// No sessions, no members.
    pub fn new() -> (r: Self)
        ensures
            r.sessions@ == Map::<PeerAddr, (u16, u16)>::empty(),
            r.channel_members@ == Map::<u16, Vec<PeerAddr>>::empty(),
    {
        UdpVoiceRouter { sessions: AddrTable::new(), channel_members: HashMap::new() }
    }

    /// Answer a datagram from `peer`.
    ///
    /// A datagram whose text, trimmed, is a pending token redeems it: the
    /// address gets a session for the token's user and channel, joins the
    /// channel's members, and `VOICE_CONNECTED` is sent back. Any other
    /// datagram from an address with a session is relayed as it came to the
    /// channel's other members that have a session; a heartbeat packet is
    /// also answered with a heartbeat for the sender's user and channel.
    pub fn handle_datagram(&mut self, tokens: &mut TokenTable, data: &[u8], peer: PeerAddr) -> (r: Vec<Outgoing>)
        ensures
            ({
                let tok = datagram_token(data@);
                let accepted = tok is Some && old(tokens)@.contains_key(tok.unwrap());
                &&& accepted ==> {
                    let (uid, cid) = old(tokens)@[tok.unwrap()];
                    let before = if old(self).channel_members@.contains_key(cid) {
                        old(self).channel_members@[cid]@
                    } else {
                        Seq::<PeerAddr>::empty()
                    };
                    &&& final(tokens)@ == old(tokens)@.remove(tok.unwrap())
                    &&& final(self).sessions@ == old(self).sessions@.insert(peer, (uid, cid))
                    &&& final(self).channel_members@.contains_key(cid)
                    &&& final(self).channel_members@[cid]@ == before.push(peer)
                    &&& final(self).channel_members@.remove(cid) == old(self).channel_members@.remove(cid)
                    &&& r@.len() == 1
                    &&& r@[0].to == peer
                    &&& r@[0].bytes@ == voice_connected_bytes()
                }
                &&& !accepted ==> {
                    &&& final(tokens)@ == old(tokens)@
                    &&& final(self).sessions@ == old(self).sessions@
                    &&& final(self).channel_members@ == old(self).channel_members@
                    &&& match old(self).sessions@.get(peer) {
                        None => r@.len() == 0,
                        Some((uid, cid)) => {
                            let targets = if old(self).channel_members@.contains_key(cid) {
                                relay_targets(old(self).channel_members@[cid]@, peer, old(self).sessions@)
                            } else {
                                Seq::<PeerAddr>::empty()
                            };
                            let heartbeat = match decode_packet_spec(data@) {
                                Some((h, _)) => h.packet_type == PacketType::Heartbeat,
                                None => false,
                            };
                            &&& r@.len() == targets.len() + if heartbeat { 1int } else { 0int }
                            &&& forall|i: int| 0 <= i < targets.len() ==> (#[trigger] r@[i]).to == targets[i]
                                && r@[i].bytes@ == data@
                            &&& heartbeat ==> {
                                &&& r@.last().to == peer
                                &&& r@.last().bytes@ == header_bytes(VoicePacketHeader {
                                    version: 1,
                                    packet_type: PacketType::Heartbeat,
                                    user_id: uid,
                                    room_id: cid,
                                    sequence: 0,
                                    timestamp: 0,
                                    payload_length: 0,
                                })
                            }
                        },
                    }
                }
            }),
    {
        let mut out: Vec<Outgoing> = Vec::new();
        if let Some(text) = utf8_text(data) {
            let token = trim_str(text).to_owned();
            if let Some((user_id, channel_id)) = tokens.remove(&token) {
                self.sessions.insert(peer, (user_id, channel_id));
                let ghost members0 = self.channel_members@;
                let mut members = match self.channel_members.remove(&channel_id) {
                    Some(v) => v,
                    None => Vec::new(),
                };
                members.push(peer);
                self.channel_members.insert(channel_id, members);
                assert(self.channel_members@.remove(channel_id) =~= members0.remove(channel_id));
                out.push(Outgoing { to: peer, bytes: voice_connected_ack() });
                return out;
            }
        }
        match self.sessions.get(peer) {
            None => {},
            Some((user_id, channel_id)) => {
                match self.channel_members.get(&channel_id) {
                    Some(members) => {
                        let mut i: usize = 0;
                        while i < members.len()
                            invariant
                                i <= members@.len(),
                                forall|j: int| 0 <= j < out@.len() ==> (#[trigger] out@[j]).bytes@ == data@,
                                out@.len() == relay_targets(members@.subrange(0, i as int), peer, self.sessions@).len(),
                                forall|j: int| 0 <= j < out@.len() ==> (#[trigger] out@[j]).to
                                    == relay_targets(members@.subrange(0, i as int), peer, self.sessions@)[j],
                            decreases members@.len() - i,
                        {
                            let m = members[i];
                            proof {
                                assert(members@.subrange(0, i + 1).drop_last() =~= members@.subrange(0, i as int));
                            }
                            if m != peer && self.sessions.get(m).is_some() {
                                out.push(Outgoing { to: m, bytes: copy_bytes(data) });
                            }
                            i = i + 1;
                        }
                        assert(members@.subrange(0, members@.len() as int) =~= members@);
                    },
                    None => {},
                }
                match VoicePacket::decode(data) {
                    Some(packet) => {
                        if packet.header.packet_type == PacketType::Heartbeat {
                            let ack = VoicePacketHeader::new_heartbeat(user_id, channel_id);
                            out.push(Outgoing { to: peer, bytes: ack.encode() });
                        }
                    },
                    None => {},
                }
            },
        }
        out
    }
}

} // verus!
