//! Voice sessions on the server: the users of a voice room and their state.

use vstd::prelude::*;
use std::collections::HashMap;
use vstd::std_specs::iter::IteratorSpec;
use crate::net::PeerAddr;
use crate::clock::now_millis;
use crate::jitter::waited;

verus! {

broadcast use vstd::std_specs::hash::group_hash_axioms;

/// Voice state of a user in a room.
#[derive(Debug)]
pub struct VoiceUserState {
    pub user_id: u16,
    pub username: String,
    pub room_id: u16,
    pub is_muted: bool,
    pub is_deafened: bool,
    pub is_speaking: bool,
    pub socket_addr: Option<PeerAddr>,
    /// Time of the last heartbeat, in milliseconds.
    pub last_heartbeat_ms: u64,
    pub sequence_number: u16,
    pub audio_timestamp: u32,
}

impl Clone for VoiceUserState {
    fn clone(&self) -> (r: Self)
        ensures
            r == *self,
    {
        VoiceUserState {
            user_id: self.user_id,
            username: self.username.clone(),
            room_id: self.room_id,
            is_muted: self.is_muted,
            is_deafened: self.is_deafened,
            is_speaking: self.is_speaking,
            socket_addr: self.socket_addr,
            last_heartbeat_ms: self.last_heartbeat_ms,
            sequence_number: self.sequence_number,
            audio_timestamp: self.audio_timestamp,
        }
    }
}

/// A session that last heard from its user at `last` has expired at `now`
/// when more than `timeout_ms` passed since.
pub open spec fn expired(last: u64, now: u64, timeout_ms: u64) -> bool {
    waited(last, now) > timeout_ms
}

impl VoiceUserState {
    /// A fresh session for a user who connected from `socket_addr` at time `now_ms`:
    /// not muted, not deafened, not speaking, counters at zero.
    pub fn new_at(user_id: u16, username: String, room_id: u16, socket_addr: PeerAddr, now_ms: u64) -> (r: Self)
        ensures
            r.user_id == user_id,
            r.username@ == username@,
            r.room_id == room_id,
            !r.is_muted,
            !r.is_deafened,
            !r.is_speaking,
            r.socket_addr == Some(socket_addr),
            r.last_heartbeat_ms == now_ms,
            r.sequence_number == 0,
            r.audio_timestamp == 0,
    {
        VoiceUserState {
            user_id,
            username,
            room_id,
            is_muted: false,
            is_deafened: false,
            is_speaking: false,
            socket_addr: Some(socket_addr),
            last_heartbeat_ms: now_ms,
            sequence_number: 0,
            audio_timestamp: 0,
        }
    }

    /// A fresh session, stamped with the current time (see `new_at`).
    pub fn new(user_id: u16, username: String, room_id: u16, socket_addr: PeerAddr) -> (r: Self)
        ensures
            r.user_id == user_id,
            r.username@ == username@,
            r.room_id == room_id,
            !r.is_muted,
            !r.is_deafened,
            !r.is_speaking,
            r.socket_addr == Some(socket_addr),
            r.sequence_number == 0,
            r.audio_timestamp == 0,
    {
        let now = now_millis();
        Self::new_at(user_id, username, room_id, socket_addr, now)
    }

    /// Record a heartbeat at time `now_ms`.
    pub fn heartbeat_at(&mut self, now_ms: u64)
        ensures
            *final(self) == (VoiceUserState { last_heartbeat_ms: now_ms, ..*old(self) }),
    {
        self.last_heartbeat_ms = now_ms;
    }

    /// Record a heartbeat now.
    pub fn heartbeat(&mut self)
        ensures
            *final(self) == (VoiceUserState { last_heartbeat_ms: final(self).last_heartbeat_ms, ..*old(self) }),
    {
        let now = now_millis();
        self.heartbeat_at(now);
    }

    /// Whether the session has expired at time `now_ms`: more than `timeout_ms`
    /// passed since the last heartbeat.
    pub fn is_expired_at(&self, now_ms: u64, timeout_ms: u64) -> (r: bool)
        ensures
            r == expired(self.last_heartbeat_ms, now_ms, timeout_ms),
    {
        now_ms.saturating_sub(self.last_heartbeat_ms) > timeout_ms
    }

    /// Whether the session has expired now (see `is_expired_at`).
    pub fn is_expired(&self, timeout_ms: u64) -> (r: bool)
        ensures
            exists|t: u64| r == #[trigger] expired(self.last_heartbeat_ms, t, timeout_ms),
    {
        let now = now_millis();
        self.is_expired_at(now, timeout_ms)
    }

    /// The next sequence number: the current one, after which the counter
    /// advances by one, wrapping around at 2^16.
    pub fn next_sequence(&mut self) -> (r: u16)
        ensures
            r == old(self).sequence_number,
            final(self).sequence_number == (if old(self).sequence_number == u16::MAX { 0 } else { old(self).sequence_number + 1 }),
            *final(self) == (VoiceUserState { sequence_number: final(self).sequence_number, ..*old(self) }),
    {
        let seq = self.sequence_number;
        self.sequence_number = self.sequence_number.wrapping_add(1);
        seq
    }

    /// Advance the audio timestamp by `samples`, wrapping around at 2^32.
    pub fn advance_timestamp(&mut self, samples: u32)
        ensures
            final(self).audio_timestamp as int == (old(self).audio_timestamp as int + samples as int) % 0x1_0000_0000,
            *final(self) == (VoiceUserState { audio_timestamp: final(self).audio_timestamp, ..*old(self) }),
    {
        self.audio_timestamp = self.audio_timestamp.wrapping_add(samples);
    }
}

/// Whether the user under `id` receives audio sent by `exclude`: another user,
/// not deafened, with a known address.
pub open spec fn is_recipient(id: u16, u: VoiceUserState, exclude: u16) -> bool {
    id != exclude && !u.is_deafened && u.socket_addr is Some
}

/// `addrs` lists the recipients in `m` of audio from `exclude`: `ids` names,
/// once each, every user that receives it, and `addrs[i]` is the address of
/// user `ids[i]`.
pub open spec fn recipient_listing(
    m: Map<u16, VoiceUserState>,
    exclude: u16,
    ids: Seq<u16>,
    addrs: Seq<PeerAddr>,
) -> bool {
    &&& ids.no_duplicates()
    &&& ids.len() == addrs.len()
    &&& forall|i: int| #![trigger ids[i]] 0 <= i < ids.len() ==> {
        &&& m.contains_key(ids[i])
        &&& is_recipient(ids[i], m[ids[i]], exclude)
        &&& addrs[i] == m[ids[i]].socket_addr.unwrap()
    }
    &&& forall|k: u16| #[trigger] m.contains_key(k) && is_recipient(k, m[k], exclude) ==> ids.contains(k)
}

/// A session is stale at `now` when it has expired and has an address to forget.
pub open spec fn stale(u: VoiceUserState, now: u64, timeout_ms: u64) -> bool {
    expired(u.last_heartbeat_ms, now, timeout_ms) && u.socket_addr is Some
}

/// The sessions of `m` that are not stale.
pub open spec fn live_users(m: Map<u16, VoiceUserState>, now: u64, timeout_ms: u64) -> Map<u16, VoiceUserState> {
    Map::new(|k: u16| m.contains_key(k) && !stale(m[k], now, timeout_ms), |k: u16| m[k])
}

/// The addresses of the stale sessions of `m`.
pub open spec fn stale_addrs(m: Map<u16, VoiceUserState>, now: u64, timeout_ms: u64) -> Set<PeerAddr> {
    Set::new(|a: PeerAddr| exists|k: u16| #[trigger] m.contains_key(k) && stale(m[k], now, timeout_ms) && m[k].socket_addr == Some(a))
}

/// Manages voice sessions for a single room.
#[derive(Debug)]
pub struct VoiceRoom {
    pub room_id: u16,
    pub users: HashMap<u16, VoiceUserState>,
}

/// `HashMap::get_mut`: a mutable reference to the value under `k`, if any.
/// The contract claims that the reference starts out at the stored value and
/// that whatever it holds at the end is what the map then holds under `k`.
#[verifier::external_body]
fn users_get_mut<'a>(m: &'a mut HashMap<u16, VoiceUserState>, k: u16) -> (r: Option<&'a mut VoiceUserState>)
    ensures
        match r {
            Some(v) => {
                &&& old(m)@.contains_key(k)
                &&& *v == old(m)@[k]
                &&& final(m)@ == old(m)@.insert(k, *final(v))
            },
            None => !old(m)@.contains_key(k) && final(m)@ == old(m)@,
        },
{
    m.get_mut(&k)
}

impl VoiceRoom {
    /// Create an empty voice room.
    pub fn new(room_id: u16) -> (r: Self)
        ensures
            r.room_id == room_id,
            r.users@ == Map::<u16, VoiceUserState>::empty(),
    {
        VoiceRoom { room_id, users: HashMap::new() }
    }

    /// Add a user to the room, replacing any session under the same user id.
    pub fn add_user(&mut self, state: VoiceUserState)
        ensures
            final(self).room_id == old(self).room_id,
            final(self).users@ == old(self).users@.insert(state.user_id, state),
    {
        self.users.insert(state.user_id, state);
    }

    /// Remove a user from the room, handing back the session if there was one.
    pub fn remove_user(&mut self, user_id: u16) -> (r: Option<VoiceUserState>)
        ensures
            final(self).room_id == old(self).room_id,
            final(self).users@ == old(self).users@.remove(user_id),
            r == (if old(self).users@.contains_key(user_id) { Some(old(self).users@[user_id]) } else { None }),
    {
        self.users.remove(&user_id)
    }

    /// The session of a user, if present.
    pub fn get_user(&self, user_id: u16) -> (r: Option<&VoiceUserState>)
        ensures
            r == (if self.users@.contains_key(user_id) { Some(&self.users@[user_id]) } else { None }),
    {
        self.users.get(&user_id)
    }

    /// The session of a user, to change in place, if present.
    pub fn get_user_mut(&mut self, user_id: u16) -> (r: Option<&mut VoiceUserState>)
        ensures
            final(self).room_id == old(self).room_id,
            match r {
                Some(v) => {
                    &&& old(self).users@.contains_key(user_id)
                    &&& *v == old(self).users@[user_id]
                    &&& final(self).users@ == old(self).users@.insert(user_id, *final(v))
                },
                None => !old(self).users@.contains_key(user_id) && final(self).users@ == old(self).users@,
            },
    {
        users_get_mut(&mut self.users, user_id)
    }

    /// The addresses of all users who receive audio from `exclude_user_id`:
    /// every other user that is not deafened and has an address, each once,
    /// in the order in which the room's users are visited.
    pub fn get_recipient_addrs(&self, exclude_user_id: u16) -> (r: Vec<PeerAddr>)
        ensures
            exists|ids: Seq<u16>| #[trigger] recipient_listing(self.users@, exclude_user_id, ids, r@),
    {
        let mut out: Vec<PeerAddr> = Vec::new();
        let ghost mut ids: Seq<u16> = Seq::empty();
        let ghost mut pos: Seq<int> = Seq::empty();
        let ghost m = self.users@;
        for (id, state) in it: self.users.iter()
            invariant
                m == self.users@,
                it.seq() == vstd::std_specs::hash::spec_hash_map_iter(&self.users).remaining(),
                ids.no_duplicates(),
                ids.len() == out@.len(),
                forall|i: int| #![trigger ids[i]] 0 <= i < ids.len() ==> {
                    &&& m.contains_key(ids[i])
                    &&& is_recipient(ids[i], m[ids[i]], exclude_user_id)
                    &&& out@[i] == m[ids[i]].socket_addr.unwrap()
                },
                it.seq().no_duplicates(),
                0 <= it.index() <= it.seq().len(),
                pos.len() == ids.len(),
                forall|i: int| 0 <= i < pos.len() ==> 0 <= #[trigger] pos[i] < it.index(),
                forall|i: int| #![trigger ids[i]] 0 <= i < ids.len() ==> *it.seq()[pos[i]].0 == ids[i],
                forall|j: int| 0 <= j < it.index() && is_recipient(*(#[trigger] it.seq()[j]).0, m[*it.seq()[j].0], exclude_user_id)
                    ==> ids.contains(*it.seq()[j].0),
        {
            let ghost k = it.index();
            let ghost ids0 = ids;
            assert(it.index() < it.seq().len());
            assert(*id == *it.seq()[k].0);
            proof {
                let v = it.seq();
                assert(m.contains_key(*v[k].0) && m[*v[k].0] == *v[k].1);
            }
            if *id != exclude_user_id && !state.is_deafened && state.socket_addr.is_some() {
                proof {
                    let v = it.seq();
                    // The key was not listed before: keys do not repeat in the iteration.
                    if ids.contains(*id) {
                        let i = choose|i: int| 0 <= i < ids.len() && ids[i] == *id;
                        let j = pos[i];
                        assert(m[*v[j].0] == *v[j].1);
                        assert(v[j] == v[k]);
                    }
                    ids = ids.push(*id);
                    pos = pos.push(k);
                }
                out.push(state.socket_addr.unwrap());
            }
            proof {
                let v = it.seq();
                assert forall|j: int| 0 <= j <= k && is_recipient(*(#[trigger] v[j]).0, m[*v[j].0], exclude_user_id)
                    implies ids.contains(*v[j].0) by {
                    if j < k {
                        assert(ids0.contains(*v[j].0));
                        let w = choose|w: int| 0 <= w < ids0.len() && ids0[w] == *v[j].0;
                        assert(ids[w] == ids0[w]);
                    } else {
                        assert(ids[ids.len() - 1] == *v[k].0);
                    }
                }
            }
        }
        proof {
            let v = vstd::std_specs::hash::spec_hash_map_iter(&self.users).remaining();
            assert forall|kk: u16| #[trigger] m.contains_key(kk) && is_recipient(kk, m[kk], exclude_user_id)
                implies ids.contains(kk) by {
                assert(v.contains((&kk, &m[kk])));
                let j = choose|j: int| 0 <= j < v.len() && v[j] == (&kk, &m[kk]);
                assert(*v[j].0 == kk);
            }
            assert(recipient_listing(self.users@, exclude_user_id, ids, out@));
        }
        out
    }

    /// Drop the sessions that are stale at `now_ms`, handing back the
    /// addresses they held.
    pub fn remove_expired_at(&mut self, now_ms: u64, timeout_ms: u64) -> (r: Vec<PeerAddr>)
        ensures
            final(self).room_id == old(self).room_id,
            final(self).users@ == live_users(old(self).users@, now_ms, timeout_ms),
            forall|a: PeerAddr| r@.contains(a) <==> stale_addrs(old(self).users@, now_ms, timeout_ms).contains(a),
    {
        let mut kept: HashMap<u16, VoiceUserState> = HashMap::new();
        let mut addrs: Vec<PeerAddr> = Vec::new();
        let ghost m = self.users@;
        for (id, state) in it: self.users.iter()
            invariant
                m == self.users@,
                it.seq() == vstd::std_specs::hash::spec_hash_map_iter(&self.users).remaining(),
                0 <= it.index() <= it.seq().len(),
                forall|k: u16| #[trigger] kept@.contains_key(k) <==> (m.contains_key(k) && !stale(m[k], now_ms, timeout_ms)
                    && exists|j: int| 0 <= j < it.index() && *(#[trigger] it.seq()[j]).0 == k),
                forall|k: u16| #[trigger] kept@.contains_key(k) ==> kept@[k] == m[k],
                forall|a: PeerAddr| addrs@.contains(a) <==> exists|j: int| 0 <= j < it.index()
                    && stale(*(#[trigger] it.seq()[j]).1, now_ms, timeout_ms) && it.seq()[j].1.socket_addr == Some(a),
        {
            let ghost k = it.index();
            let ghost v = it.seq();
            proof {
                assert(m.contains_key(*v[k].0) && m[*v[k].0] == *v[k].1);
            }
            let ghost addrs0 = addrs@;
            let ghost kept0 = kept@;
            if state.is_expired_at(now_ms, timeout_ms) && state.socket_addr.is_some() {
                addrs.push(state.socket_addr.unwrap());
            } else {
                kept.insert(*id, state.clone());
            }
            proof {
                assert forall|a: PeerAddr| addrs@.contains(a) <==> exists|j: int| 0 <= j < k + 1
                    && stale(*(#[trigger] v[j]).1, now_ms, timeout_ms) && v[j].1.socket_addr == Some(a) by {
                    if addrs@.contains(a) {
                        if addrs0.contains(a) {
                            let j = choose|j: int| 0 <= j < k && stale(*(#[trigger] v[j]).1, now_ms, timeout_ms) && v[j].1.socket_addr == Some(a);
                            assert(0 <= j < k + 1);
                        } else {
                            assert(addrs@.last() == a) by {
                                let w = choose|w: int| 0 <= w < addrs@.len() && addrs@[w] == a;
                                if w < addrs0.len() {
                                    assert(addrs0[w] == a);
                                }
                            }
                            assert(stale(*v[k].1, now_ms, timeout_ms) && v[k].1.socket_addr == Some(a));
                        }
                    }
                    if exists|j: int| 0 <= j < k + 1 && stale(*(#[trigger] v[j]).1, now_ms, timeout_ms) && v[j].1.socket_addr == Some(a) {
                        let j = choose|j: int| 0 <= j < k + 1 && stale(*(#[trigger] v[j]).1, now_ms, timeout_ms) && v[j].1.socket_addr == Some(a);
                        if j < k {
                            assert(addrs0.contains(a));
                            let w = choose|w: int| 0 <= w < addrs0.len() && addrs0[w] == a;
                            assert(addrs@[w] == a);
                        } else {
                            assert(addrs@[addrs@.len() - 1] == a);
                        }
                    }
                }
                assert forall|kk: u16| #[trigger] kept@.contains_key(kk) <==> (m.contains_key(kk) && !stale(m[kk], now_ms, timeout_ms)
                    && exists|j: int| 0 <= j < k + 1 && *(#[trigger] v[j]).0 == kk) by {
                    if kept@.contains_key(kk) && kk != *v[k].0 {
                        assert(kept0.contains_key(kk));
                    }
                    if m.contains_key(kk) && !stale(m[kk], now_ms, timeout_ms) && exists|j: int| 0 <= j < k + 1 && *(#[trigger] v[j]).0 == kk {
                        let j = choose|j: int| 0 <= j < k + 1 && *(#[trigger] v[j]).0 == kk;
                        if j < k {
                            assert(kept0.contains_key(kk));
                        }
                    }
                }
            }
        }
        proof {
            let v = vstd::std_specs::hash::spec_hash_map_iter(&self.users).remaining();
            assert forall|kk: u16| m.contains_key(kk) implies exists|j: int| 0 <= j < v.len() && *(#[trigger] v[j]).0 == kk by {
                assert(v.contains((&kk, &m[kk])));
                let j = choose|j: int| 0 <= j < v.len() && v[j] == (&kk, &m[kk]);
                assert(*v[j].0 == kk);
            }
            assert(kept@ =~= live_users(m, now_ms, timeout_ms));
            assert forall|a: PeerAddr| addrs@.contains(a) <==> stale_addrs(m, now_ms, timeout_ms).contains(a) by {
                if addrs@.contains(a) {
                    let j = choose|j: int| 0 <= j < v.len() && stale(*(#[trigger] v[j]).1, now_ms, timeout_ms) && v[j].1.socket_addr == Some(a);
                    assert(m.contains_key(*v[j].0) && m[*v[j].0] == *v[j].1);
                }
                if stale_addrs(m, now_ms, timeout_ms).contains(a) {
                    let kk = choose|kk: u16| #[trigger] m.contains_key(kk) && stale(m[kk], now_ms, timeout_ms) && m[kk].socket_addr == Some(a);
                    assert(v.contains((&kk, &m[kk])));
                    let j = choose|j: int| 0 <= j < v.len() && v[j] == (&kk, &m[kk]);
                    assert(stale(*v[j].1, now_ms, timeout_ms) && v[j].1.socket_addr == Some(a));
                }
            }
        }
        self.users = kept;
        addrs
    }

    /// Whether the room is empty.
    pub fn is_empty(&self) -> (r: bool)
        ensures
            r == (self.users@.len() == 0),
    {
        self.users.is_empty()
    }

    /// Number of users in the room.
    pub fn user_count(&self) -> (r: usize)
        ensures
            r == self.users@.len(),
    {
        self.users.len()
    }
}

} // verus!
