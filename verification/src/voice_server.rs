//! The voice server's routing state: which tokens are pending, which address
//! belongs to which user and room, and how each datagram is answered.

use vstd::prelude::*;
use std::collections::HashMap;
use vstd::std_specs::iter::IteratorSpec;
use crate::net::PeerAddr;
use crate::tables::{TokenTable, AddrTable};
use crate::text::{utf8_text, trim_str, push_text, push_decimal, trim_spec, decimal};
use crate::voice::{VoicePacket, decode_packet_spec, packet_bytes, copy_bytes};
use crate::voice_room::{VoiceRoom, VoiceUserState, recipient_listing, live_users, stale_addrs};

verus! {

broadcast use vstd::std_specs::hash::group_hash_axioms;

/// A datagram to send: the address it goes to and its bytes.
#[derive(Debug)]
pub struct Outgoing {
    pub to: PeerAddr,
    pub bytes: Vec<u8>,
}

/// The bytes of the text `VOICE_CONNECTED`, sent to acknowledge a token.
pub open spec fn voice_connected_bytes() -> Seq<u8> {
    seq![86u8, 79, 73, 67, 69, 95, 67, 79, 78, 78, 69, 67, 84, 69, 68]
}

/// The acknowledgment sent when a token is accepted.
pub fn voice_connected_ack() -> (r: Vec<u8>)
    ensures
        r@ == voice_connected_bytes(),
{
    let r: Vec<u8> = vec![86u8, 79, 73, 67, 69, 95, 67, 79, 78, 78, 69, 67, 84, 69, 68];
    assert(r@ =~= voice_connected_bytes());
    r
}

/// The token that a datagram carries, if its bytes are UTF-8 text: the text
/// without surrounding white space.
pub open spec fn datagram_token(data: Seq<u8>) -> Option<Seq<char>> {
    if vstd::utf8::valid_utf8(data) {
        Some(trim_spec(vstd::utf8::decode_utf8(data)))
    } else {
        None
    }
}

/// The name given to a user who connects to voice: `User_` and the user id.
pub open spec fn voice_user_label(user_id: u16) -> Seq<char> {
    seq!['U', 's', 'e', 'r', '_'] + decimal(user_id as nat)
}

/// The bytes forwarded for a datagram from a registered sender: a voice
/// packet is forwarded re-encoded, anything else as it came.
pub open spec fn forwarded_bytes(data: Seq<u8>) -> Seq<u8> {
    match decode_packet_spec(data) {
        Some((h, p)) => packet_bytes(h, p),
        None => data,
    }
}

/// The addresses that datagrams go to, in order.
pub open spec fn destinations(out: Seq<Outgoing>) -> Seq<PeerAddr> {
    out.map_values(|o: Outgoing| o.to)
}

/// `out` sends `bytes` to each recipient in `room` of audio from `sender`, once each.
pub open spec fn sends_to_recipients(room: VoiceRoom, sender: u16, bytes: Seq<u8>, out: Seq<Outgoing>) -> bool {
    &&& exists|ids: Seq<u16>| #[trigger] recipient_listing(room.users@, sender, ids, destinations(out))
    &&& forall|i: int| 0 <= i < out.len() ==> (#[trigger] out[i]).bytes@ == bytes
}

/// `u` is the session of a user who just connected from `peer` at time `now`.
pub open spec fn fresh_session(u: VoiceUserState, user_id: u16, room_id: u16, peer: PeerAddr, now: u64) -> bool {
    &&& u.user_id == user_id
    &&& u.username@ == voice_user_label(user_id)
    &&& u.room_id == room_id
    &&& !u.is_muted && !u.is_deafened && !u.is_speaking
    &&& u.socket_addr == Some(peer)
    &&& u.last_heartbeat_ms == now
    &&& u.sequence_number == 0
    &&& u.audio_timestamp == 0
}

/// The addresses of the stale sessions of every room.
pub open spec fn all_stale_addrs(rooms: Map<u16, VoiceRoom>, now: u64, timeout_ms: u64) -> Set<PeerAddr> {
    Set::new(|a: PeerAddr| exists|rid: u16| #[trigger] rooms.contains_key(rid) && stale_addrs(rooms[rid].users@, now, timeout_ms).contains(a))
}

/// `new` is `old` after the sessions stale at `now` were dropped: their
/// addresses are forgotten, the other sessions stay, rooms left empty close,
/// and the pending tokens are untouched.
pub open spec fn cleaned_up(old: &VoiceServerState, new: &VoiceServerState, now: u64, timeout_ms: u64) -> bool {
    &&& new.pending_tokens@ == old.pending_tokens@
    &&& new.addr_to_user@ == old.addr_to_user@.remove_keys(all_stale_addrs(old.rooms@, now, timeout_ms))
    &&& forall|rid: u16| #[trigger] new.rooms@.contains_key(rid) <==> (old.rooms@.contains_key(rid)
        && live_users(old.rooms@[rid].users@, now, timeout_ms) != Map::<u16, VoiceUserState>::empty())
    &&& forall|rid: u16| #[trigger] new.rooms@.contains_key(rid) ==> {
        &&& new.rooms@[rid].users@ == live_users(old.rooms@[rid].users@, now, timeout_ms)
        &&& new.rooms@[rid].room_id == old.rooms@[rid].room_id
    }
}

/// Voice server state shared across handlers.
#[derive(Debug)]
pub struct VoiceServerState {
    /// Active voice rooms
    pub rooms: HashMap<u16, VoiceRoom>,
    /// Token to (user id, room id)
    pub pending_tokens: TokenTable,
    /// Socket address to (user id, room id)
    pub addr_to_user: AddrTable,
}

impl VoiceServerState {
    /// Create an empty voice server state.
    pub fn new() -> (r: Self)
        ensures
            r.rooms@ == Map::<u16, VoiceRoom>::empty(),
            r.pending_tokens@ == Map::<Seq<char>, (u16, u16)>::empty(),
            r.addr_to_user@ == Map::<PeerAddr, (u16, u16)>::empty(),
    {
        VoiceServerState { rooms: HashMap::new(), pending_tokens: TokenTable::new(), addr_to_user: AddrTable::new() }
    }

    /// Register a pending voice token for a user and room.
    pub fn register_token(&mut self, token: String, user_id: u16, room_id: u16)
        ensures
            final(self).pending_tokens@ == old(self).pending_tokens@.insert(token@, (user_id, room_id)),
            final(self).rooms == old(self).rooms,
            final(self).addr_to_user == old(self).addr_to_user,
    {
        self.pending_tokens.insert(token, (user_id, room_id));
    }

    /// Validate and consume a token: the user and room it was issued for, if
    /// it is pending; it is pending no more.
    pub fn validate_token(&mut self, token: &str) -> (r: Option<(u16, u16)>)
        ensures
            r == old(self).pending_tokens@.get(token@),
            final(self).pending_tokens@ == old(self).pending_tokens@.remove(token@),
            final(self).rooms == old(self).rooms,
            final(self).addr_to_user == old(self).addr_to_user,
    {
        let t = token.to_owned();
        self.pending_tokens.remove(&t)
    }

    /// Answer a datagram from `peer` received at time `now_ms`.
    ///
    /// A datagram whose text, trimmed, is a pending token consumes the token:
    /// the user joins the token's room (created if needed) under the name
    /// `User_<id>`, the address is registered, and `VOICE_CONNECTED` is sent
    /// back. Any other datagram from a registered address is forwarded to the
    /// other users of the sender's room who are not deafened: a voice packet
    /// re-encoded, anything else as it came. Datagrams from unknown addresses
    /// are ignored.
    pub fn handle_datagram(&mut self, data: &[u8], peer: PeerAddr, now_ms: u64) -> (r: Vec<Outgoing>)
        ensures
            ({
                let tok = datagram_token(data@);
                let accepted = tok is Some && old(self).pending_tokens@.contains_key(tok.unwrap());
                &&& accepted ==> {
                    let (uid, rid) = old(self).pending_tokens@[tok.unwrap()];
                    let existed = old(self).rooms@.contains_key(rid);
                    let base = if existed { old(self).rooms@[rid].users@ } else { Map::<u16, VoiceUserState>::empty() };
                    let room = final(self).rooms@[rid];
                    &&& final(self).pending_tokens@ == old(self).pending_tokens@.remove(tok.unwrap())
                    &&& final(self).addr_to_user@ == old(self).addr_to_user@.insert(peer, (uid, rid))
                    &&& final(self).rooms@.contains_key(rid)
                    &&& final(self).rooms@.remove(rid) == old(self).rooms@.remove(rid)
                    &&& room.room_id == (if existed { old(self).rooms@[rid].room_id } else { rid })
                    &&& room.users@.contains_key(uid)
                    &&& fresh_session(room.users@[uid], uid, rid, peer, now_ms)
                    &&& room.users@.remove(uid) == base.remove(uid)
                    &&& r@.len() == 1
                    &&& r@[0].to == peer
                    &&& r@[0].bytes@ == voice_connected_bytes()
                }
                &&& !accepted ==> {
                    &&& final(self).rooms@ == old(self).rooms@
                    &&& final(self).pending_tokens@ == old(self).pending_tokens@
                    &&& final(self).addr_to_user@ == old(self).addr_to_user@
                    &&& match old(self).addr_to_user@.get(peer) {
                        Some((uid, rid)) => if old(self).rooms@.contains_key(rid) {
                            sends_to_recipients(old(self).rooms@[rid], uid, forwarded_bytes(data@), r@)
                        } else {
                            r@.len() == 0
                        },
                        None => r@.len() == 0,
                    }
                }
            }),
    {
        let mut out: Vec<Outgoing> = Vec::new();
        if let Some(text) = utf8_text(data) {
            let token = trim_str(text);
            if let Some((user_id, room_id)) = self.validate_token(token) {
                let ghost base = if self.rooms@.contains_key(room_id) { self.rooms@[room_id].users@ } else { Map::<u16, VoiceUserState>::empty() };
                let ghost rooms0 = self.rooms@;
                let mut room = match self.rooms.remove(&room_id) {
                    Some(r) => r,
                    None => VoiceRoom::new(room_id),
                };
                let mut name = String::new();
                push_text(&mut name, "User_");
                push_decimal(&mut name, user_id as u64);
                proof {
                    reveal_strlit("User_");
                    assert(name@ =~= voice_user_label(user_id));
                }
                let state = VoiceUserState::new_at(user_id, name, room_id, peer, now_ms);
                room.add_user(state);
                self.rooms.insert(room_id, room);
                self.addr_to_user.insert(peer, (user_id, room_id));
                assert(self.rooms@.remove(room_id) =~= rooms0.remove(room_id));
                assert(self.rooms@[room_id].users@.remove(user_id) =~= base.remove(user_id));
                out.push(Outgoing { to: peer, bytes: voice_connected_ack() });
                return out;
            }
        }
        let bytes = match VoicePacket::decode(data) {
            Some(p) => p.encode(),
            None => copy_bytes(data),
        };
        match self.addr_to_user.get(peer) {
            Some((user_id, room_id)) => {
                match self.rooms.get(&room_id) {
                    Some(room) => {
                        let recipients = room.get_recipient_addrs(user_id);
                        let mut i: usize = 0;
                        while i < recipients.len()
                            invariant
                                i <= recipients@.len(),
                                out@.len() == i,
                                forall|j: int| 0 <= j < i ==> (#[trigger] out@[j]).to == recipients@[j]
                                    && out@[j].bytes@ == bytes@,
                            decreases recipients@.len() - i,
                        {
                            out.push(Outgoing { to: recipients[i], bytes: copy_bytes(bytes.as_slice()) });
                            i = i + 1;
                        }
                        assert(destinations(out@) =~= recipients@);
                    },
                    None => {},
                }
            },
            None => {},
        }
        out
    }


    /// Drop the sessions that are stale at `now_ms` (more than `timeout_ms`
    /// since their last heartbeat, and holding an address), forget their
    /// addresses, and close every room that is left empty.
    pub fn cleanup_expired_at(&mut self, now_ms: u64, timeout_ms: u64)
        ensures
            cleaned_up(old(self), final(self), now_ms, timeout_ms),
    {
        let ghost old_rooms = self.rooms@;
        let ghost old_addrs = self.addr_to_user@;
        // The ids of all rooms, each once.
        let mut keys: Vec<u16> = Vec::new();
        for rid in it: self.rooms.keys()
            invariant
                old_rooms == self.rooms@,
                it.seq() == vstd::std_specs::hash::spec_keys_iter(&self.rooms).remaining(),
                it.seq().no_duplicates(),
                0 <= it.index() <= it.seq().len(),
                keys@.len() == it.index(),
                forall|j: int| 0 <= j < it.index() ==> keys@[j] == *it.seq()[j],
        {
            keys.push(*rid);
        }
        proof {
            let v = vstd::std_specs::hash::spec_keys_iter(&self.rooms).remaining();
            assert(keys@ =~= v.map_values(|r: &u16| *r));
            assert forall|j: int, l: int| 0 <= j < keys@.len() && 0 <= l < keys@.len() && j != l implies keys@[j] != keys@[l] by {
                assert(v[j] != v[l]);
            }
            assert forall|rid: u16| old_rooms.contains_key(rid) <==> keys@.contains(rid) by {
                if old_rooms.contains_key(rid) {
                    assert(v.unref().to_set().contains(rid));
                    let j = choose|j: int| 0 <= j < v.unref().len() && v.unref()[j] == rid;
                    assert(keys@[j] == rid);
                }
                if keys@.contains(rid) {
                    let j = choose|j: int| 0 <= j < keys@.len() && keys@[j] == rid;
                    assert(v.unref()[j] == rid);
                    assert(v.unref().to_set().contains(rid));
                }
            }
        }
        let mut i: usize = 0;
        while i < keys.len()
            invariant
                i <= keys@.len(),
                forall|j: int, l: int| 0 <= j < keys@.len() && 0 <= l < keys@.len() && j != l ==> keys@[j] != keys@[l],
                forall|rid: u16| old_rooms.contains_key(rid) <==> keys@.contains(rid),
                self.pending_tokens@ == old(self).pending_tokens@,
                forall|j: int| #![trigger keys@[j]] i <= j < keys@.len() ==> self.rooms@.contains_key(keys@[j])
                    && self.rooms@[keys@[j]] == old_rooms[keys@[j]],
                forall|j: int| #![trigger keys@[j]] 0 <= j < i ==> {
                    let rid = keys@[j];
                    &&& (self.rooms@.contains_key(rid) <==> live_users(old_rooms[rid].users@, now_ms, timeout_ms)
                        != Map::<u16, VoiceUserState>::empty())
                    &&& self.rooms@.contains_key(rid) ==> {
                        &&& self.rooms@[rid].users@ == live_users(old_rooms[rid].users@, now_ms, timeout_ms)
                        &&& self.rooms@[rid].room_id == old_rooms[rid].room_id
                    }
                },
                forall|rid: u16| #[trigger] self.rooms@.contains_key(rid) ==> keys@.contains(rid),
                self.addr_to_user@ == old_addrs.remove_keys(Set::new(|a: PeerAddr| exists|j: int|
                    0 <= j < i && #[trigger] stale_addrs(old_rooms[keys@[j]].users@, now_ms, timeout_ms).contains(a))),
            decreases keys@.len() - i,
        {
            let rid = keys[i];
            assert(keys@[i as int] == rid);
            let mut room = self.rooms.remove(&rid).unwrap();
            let ghost addrs_before = self.addr_to_user@;
            let ghost rooms_before = self.rooms@;
            let stale = room.remove_expired_at(now_ms, timeout_ms);
            let mut t: usize = 0;
            while t < stale.len()
                invariant
                    t <= stale@.len(),
                    self.rooms@ == rooms_before,
                    self.pending_tokens@ == old(self).pending_tokens@,
                    self.addr_to_user@ == addrs_before.remove_keys(Set::new(|a: PeerAddr| exists|w: int| 0 <= w < t && stale@[w] == a)),
                decreases stale@.len() - t,
            {
                let ghost before = self.addr_to_user@;
                self.addr_to_user.remove(stale[t]);
                t = t + 1;
                assert(self.addr_to_user@ =~= addrs_before.remove_keys(Set::new(|a: PeerAddr| exists|w: int| 0 <= w < t && stale@[w] == a)));
            }
            let ghost removed = Set::new(|a: PeerAddr| exists|w: int| 0 <= w < stale@.len() && stale@[w] == a);
            assert(removed =~= stale_addrs(old_rooms[rid].users@, now_ms, timeout_ms)) by {
                assert forall|a: PeerAddr| removed.contains(a) <==> stale@.contains(a) by {}
            }
            let ghost rooms_mid = self.rooms@;
            if !room.is_empty() {
                self.rooms.insert(rid, room);
            }
            proof {
                if room.users@.len() == 0 {
                    vstd::set_lib::lemma_set_empty_equivalency_len(room.users@.dom());
                    assert(room.users@ =~= Map::<u16, VoiceUserState>::empty());
                } else {
                    if room.users@ == Map::<u16, VoiceUserState>::empty() {
                        assert(room.users@.dom() =~= Set::<u16>::empty());
                    }
                }
                let p_old = Set::new(|a: PeerAddr| exists|j: int|
                    0 <= j < i && #[trigger] stale_addrs(old_rooms[keys@[j]].users@, now_ms, timeout_ms).contains(a));
                let p_new = Set::new(|a: PeerAddr| exists|j: int|
                    0 <= j < i + 1 && #[trigger] stale_addrs(old_rooms[keys@[j]].users@, now_ms, timeout_ms).contains(a));
                assert(p_new =~= p_old.union(removed));
                assert(self.addr_to_user@ =~= old_addrs.remove_keys(p_new));
                assert forall|rid2: u16| #[trigger] self.rooms@.contains_key(rid2) implies keys@.contains(rid2) by {
                    if rid2 != rid {
                        assert(rooms_mid.contains_key(rid2));
                    }
                }
            }
            i = i + 1;
        }
        proof {
            let p = Set::new(|a: PeerAddr| exists|j: int|
                0 <= j < keys@.len() && #[trigger] stale_addrs(old_rooms[keys@[j]].users@, now_ms, timeout_ms).contains(a));
            assert forall|a: PeerAddr| p.contains(a) <==> all_stale_addrs(old_rooms, now_ms, timeout_ms).contains(a) by {
                if p.contains(a) {
                    let j = choose|j: int| 0 <= j < keys@.len() && #[trigger] stale_addrs(old_rooms[keys@[j]].users@, now_ms, timeout_ms).contains(a);
                    assert(keys@.contains(keys@[j]));
                }
                if all_stale_addrs(old_rooms, now_ms, timeout_ms).contains(a) {
                    let rid = choose|rid: u16| #[trigger] old_rooms.contains_key(rid) && stale_addrs(old_rooms[rid].users@, now_ms, timeout_ms).contains(a);
                    assert(keys@.contains(rid));
                    let j = choose|j: int| 0 <= j < keys@.len() && keys@[j] == rid;
                    assert(stale_addrs(old_rooms[keys@[j]].users@, now_ms, timeout_ms).contains(a));
                }
            }
            assert(p =~= all_stale_addrs(old_rooms, now_ms, timeout_ms));
            assert forall|rid: u16| #[trigger] self.rooms@.contains_key(rid) <==> (old_rooms.contains_key(rid)
                && live_users(old_rooms[rid].users@, now_ms, timeout_ms) != Map::<u16, VoiceUserState>::empty()) by {
                if old_rooms.contains_key(rid) {
                    let j = choose|j: int| 0 <= j < keys@.len() && keys@[j] == rid;
                }
            }
            assert forall|rid: u16| #[trigger] self.rooms@.contains_key(rid) implies {
                &&& self.rooms@[rid].users@ == live_users(old_rooms[rid].users@, now_ms, timeout_ms)
                &&& self.rooms@[rid].room_id == old_rooms[rid].room_id
            } by {
                let j = choose|j: int| 0 <= j < keys@.len() && keys@[j] == rid;
            }
        }
    }

    /// Drop the sessions that are stale now (see `cleanup_expired_at`).
    pub fn cleanup_expired_sessions(&mut self, timeout_ms: u64)
        ensures
            exists|now: u64| #[trigger] cleaned_up(old(self), final(self), now, timeout_ms),
    {
        let now = crate::clock::now_millis();
        self.cleanup_expired_at(now, timeout_ms);
    }

}

} // verus!
