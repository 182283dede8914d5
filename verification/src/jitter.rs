//! Jitter buffer: reorders incoming voice packets by sequence number and
//! holds each one for a target latency before it is played.

use vstd::prelude::*;
use std::collections::VecDeque;
use crate::voice::{VoicePacket, VoicePacketHeader};
use crate::clock::now_millis;

verus! {

/// Jitter buffer entry: a packet and the time it arrived.
#[derive(Debug)]
struct JitterBufferEntry {
    packet: VoicePacket,
    arrival_ms: u64,
}

/// What the buffer holds of one entry: the packet's header, its payload and
/// its arrival time in milliseconds.
pub type EntryView = (VoicePacketHeader, Seq<u8>, u64);

/// The sequence number of an entry.
pub open spec fn entry_seq(e: EntryView) -> u16 {
    e.0.sequence
}

/// Entries are ordered by sequence number (equal numbers may repeat).
pub open spec fn sorted_by_sequence(s: Seq<EntryView>) -> bool {
    forall|i: int, j: int| 0 <= i <= j < s.len() ==> entry_seq(s[i]) <= entry_seq(s[j])
}

/// Where a packet with sequence number `q` goes: before the first entry with a
/// greater sequence number, or at the end when there is none.
pub open spec fn insert_pos(s: Seq<EntryView>, q: u16) -> int
    decreases s.len(),
{
    if s.len() == 0 {
        0
    } else if entry_seq(s[0]) > q {
        0
    } else {
        1 + insert_pos(s.drop_first(), q)
    }
}

/// How far `q` is ahead of `last`, counting modulo 2^16 (`q.wrapping_sub(last)`).
pub open spec fn seq_distance(q: u16, last: u16) -> int {
    if q >= last {
        q - last
    } else {
        q - last + 65536
    }
}

/// A packet is late when, counting modulo 2^16, it lies more than half the
/// sequence space ahead of the last packet played: it belongs before it.
pub open spec fn is_late(last: Option<u16>, q: u16) -> bool {
    match last {
        Some(l) => seq_distance(q, l) > 32768,
        None => false,
    }
}

/// How long an entry that arrived at `arrival` has waited at time `now`
/// (no wait when the clock went back).
pub open spec fn waited(arrival: u64, now: u64) -> int {
    if now < arrival {
        0
    } else {
        now - arrival
    }
}

/// The entries after a packet arriving at `arrival` is accepted: inserted in
/// sequence order, then the oldest entry is dropped if the buffer overflowed.
pub open spec fn accepted_entries(s: Seq<EntryView>, e: EntryView, max_size: usize) -> Seq<EntryView> {
    let inserted = s.insert(insert_pos(s, entry_seq(e)), e);
    if inserted.len() > max_size {
        inserted.drop_first()
    } else {
        inserted
    }
}

proof fn lemma_insert_pos_bounds(s: Seq<EntryView>, q: u16)
    ensures
        0 <= insert_pos(s, q) <= s.len(),
        forall|i: int| 0 <= i < insert_pos(s, q) ==> entry_seq(s[i]) <= q,
        insert_pos(s, q) < s.len() ==> entry_seq(s[insert_pos(s, q)]) > q,
    decreases s.len(),
{
    if s.len() > 0 && entry_seq(s[0]) <= q {
        lemma_insert_pos_bounds(s.drop_first(), q);
        assert forall|i: int| 0 <= i < insert_pos(s, q) implies entry_seq(s[i]) <= q by {
            if i > 0 {
                assert(s[i] == s.drop_first()[i - 1]);
            }
        }
    }
}

proof fn lemma_insert_keeps_sorted(s: Seq<EntryView>, e: EntryView)
    requires
        sorted_by_sequence(s),
    ensures
        sorted_by_sequence(s.insert(insert_pos(s, entry_seq(e)), e)),
{
    let q = entry_seq(e);
    let p = insert_pos(s, q);
    lemma_insert_pos_bounds(s, q);
    let t = s.insert(p, e);
    assert forall|i: int, j: int| 0 <= i <= j < t.len() implies entry_seq(t[i]) <= entry_seq(t[j]) by {
        if i < p && j < p {
        } else if i < p && j == p {
        } else if i < p {
            assert(t[j] == s[j - 1]);
        } else if i == p && j == p {
        } else if i == p {
            assert(t[j] == s[j - 1]);
            assert(entry_seq(s[p]) > q);
        } else {
            assert(t[i] == s[i - 1]);
            assert(t[j] == s[j - 1]);
        }
    }
}

/// After a clear nothing is late any more: the next packet pushed, whatever
/// its sequence number, is buffered as the only entry when the capacity is at
/// least one.
pub proof fn law_cleared_buffer_takes_any_packet(e: EntryView, max_size: usize)
    ensures
        !is_late(None, entry_seq(e)),
        max_size >= 1 ==> accepted_entries(Seq::<EntryView>::empty(), e, max_size) == seq![e],
{
    if max_size >= 1 {
        assert(Seq::<EntryView>::empty().insert(0, e) =~= seq![e]);
    }
}

/// Accepting a packet into a full, ordered buffer keeps it ordered and within
/// its capacity, and the entry pushed out has the lowest sequence number.
pub proof fn law_overflow_drops_lowest(s: Seq<EntryView>, e: EntryView, max_size: usize)
    requires
        sorted_by_sequence(s),
        s.len() <= max_size,
    ensures
        sorted_by_sequence(accepted_entries(s, e, max_size)),
        accepted_entries(s, e, max_size).len() <= max_size,
        s.len() + 1 > max_size ==> {
            let inserted = s.insert(insert_pos(s, entry_seq(e)), e);
            forall|i: int| 0 <= i < accepted_entries(s, e, max_size).len()
                ==> entry_seq(inserted[0]) <= entry_seq(#[trigger] accepted_entries(s, e, max_size)[i])
        },
{
    lemma_insert_pos_bounds(s, entry_seq(e));
    lemma_insert_keeps_sorted(s, e);
    let inserted = s.insert(insert_pos(s, entry_seq(e)), e);
    let r = accepted_entries(s, e, max_size);
    if inserted.len() > max_size {
        assert forall|i: int, j: int| 0 <= i <= j < r.len() implies entry_seq(r[i]) <= entry_seq(r[j]) by {
            assert(r[i] == inserted[i + 1] && r[j] == inserted[j + 1]);
        }
        assert forall|i: int| 0 <= i < r.len() implies entry_seq(inserted[0]) <= entry_seq(#[trigger] r[i]) by {
            assert(r[i] == inserted[i + 1]);
        }
    }
}

/// Adaptive jitter buffer for smooth audio playback.
///
/// Handles network jitter by buffering packets and reordering them by
/// sequence number.
#[derive(Debug)]
pub struct JitterBuffer {
    /// Buffer storage ordered by sequence number
    buffer: VecDeque<JitterBufferEntry>,
    /// Target latency in milliseconds
    target_latency_ms: u64,
    /// Last played sequence number
    last_sequence: Option<u16>,
    /// Maximum buffer size
    max_size: usize,
    /// Statistics: total packets received
    packets_received: u64,
    /// Statistics: packets dropped due to late arrival or overflow
    packets_dropped: u64,
}

/// What taking the next packet at time `now_ms` does (see `pop_at`): from an
/// empty buffer, or before the first entry has waited the target latency,
/// nothing comes out and nothing changes; otherwise the first entry comes out
/// and becomes the last played.
pub open spec fn popped_at(o: JitterBuffer, n: JitterBuffer, r: Option<VoicePacket>, now_ms: u64) -> bool {
    if o.entries().len() == 0 || waited(o.entries()[0].2, now_ms) < o.latency() {
        &&& r is None
        &&& n.entries() == o.entries()
        &&& n.last_played() == o.last_played()
    } else {
        &&& r is Some
        &&& r.unwrap()@ == (o.entries()[0].0, o.entries()[0].1)
        &&& n.entries() == o.entries().drop_first()
        &&& n.last_played() == Some(o.entries()[0].0.sequence)
    }
}

impl JitterBuffer {
    /// The buffered entries, in playing order.
    pub closed spec fn entries(&self) -> Seq<EntryView> {
        self.buffer@.map_values(|e: JitterBufferEntry| (e.packet.header, e.packet.payload@, e.arrival_ms))
    }

    /// Target latency in milliseconds.
    pub closed spec fn latency(&self) -> u64 {
        self.target_latency_ms
    }

    /// The sequence number of the last packet played, if any.
    pub closed spec fn last_played(&self) -> Option<u16> {
        self.last_sequence
    }

    /// The most entries the buffer holds.
    pub closed spec fn capacity(&self) -> usize {
        self.max_size
    }

    /// Packets received so far.
    pub closed spec fn received(&self) -> u64 {
        self.packets_received
    }

    /// Packets dropped so far (late, or pushed out by overflow).
    pub closed spec fn dropped(&self) -> u64 {
        self.packets_dropped
    }

    /// What holds of every jitter buffer: its entries are in sequence order,
    /// there are at most `capacity` of them, and no more packets were dropped
    /// than received.
    pub closed spec fn wf(&self) -> bool {
        &&& sorted_by_sequence(self.entries())
        &&& self.entries().len() <= self.max_size
        &&& self.packets_dropped <= self.packets_received
    }

    /// Create a new jitter buffer.
    pub fn new(target_latency_ms: u64, max_size: usize) -> (r: Self)
        ensures
            r.entries() == Seq::<EntryView>::empty(),
            r.latency() == target_latency_ms,
            r.capacity() == max_size,
            r.last_played() is None,
            r.received() == 0,
            r.dropped() == 0,
            r.wf(),
    {
        let r = JitterBuffer {
            buffer: VecDeque::new(),
            target_latency_ms,
            last_sequence: None,
            max_size,
            packets_received: 0,
            packets_dropped: 0,
        };
        assert(r.entries() =~= Seq::<EntryView>::empty());
        r
    }

    /// Insert a packet that arrived at time `arrival_ms` (milliseconds).
    ///
    /// A packet that lies before the last packet played is dropped; any other
    /// is inserted in sequence order, after the entries with the same or a
    /// smaller sequence number, and when the buffer then holds more than its
    /// capacity its first entry is dropped.
    pub fn push_at(&mut self, packet: VoicePacket, arrival_ms: u64)
        requires
            old(self).wf(),
            old(self).received() < u64::MAX,
        ensures
            final(self).wf(),
            final(self).received() == old(self).received() + 1,
            final(self).latency() == old(self).latency(),
            final(self).capacity() == old(self).capacity(),
            final(self).last_played() == old(self).last_played(),
            is_late(old(self).last_played(), packet.header.sequence) ==> {
                &&& final(self).entries() == old(self).entries()
                &&& final(self).dropped() == old(self).dropped() + 1
            },
            !is_late(old(self).last_played(), packet.header.sequence) ==> {
                let e = (packet.header, packet.payload@, arrival_ms);
                &&& final(self).entries() == accepted_entries(old(self).entries(), e, old(self).capacity())
                &&& final(self).dropped() == old(self).dropped()
                    + if old(self).entries().len() + 1 > old(self).capacity() { 1int } else { 0int }
            },
    {
        self.packets_received = self.packets_received + 1;
        let sequence = packet.header.sequence;
        let ghost e = (packet.header, packet.payload@, arrival_ms);
        let ghost s = self.entries();

        match self.last_sequence {
            Some(last_seq) => {
                let seq_diff = sequence.wrapping_sub(last_seq);
                if seq_diff > 32768 {
                    self.packets_dropped = self.packets_dropped + 1;
                    return;
                }
            },
            None => {},
        }

        let n = self.buffer.len();
        let mut insert_at: usize = 0;
        while insert_at < n && self.buffer[insert_at].packet.header.sequence <= sequence
            invariant
                n == self.buffer@.len(),
                s == self.entries(),
                0 <= insert_at <= n,
                sorted_by_sequence(s),
                forall|i: int| 0 <= i < insert_at ==> entry_seq(#[trigger] s[i]) <= sequence,
            decreases n - insert_at,
        {
            insert_at = insert_at + 1;
        }
        proof {
            lemma_insert_pos_bounds(s, sequence);
            if insert_at < n {
                assert(entry_seq(s[insert_at as int]) > sequence);
            }
            // Both positions are the first entry with a greater sequence number.
            if insert_pos(s, sequence) < insert_at {
                assert(entry_seq(s[insert_pos(s, sequence)]) > sequence);
            }
            if insert_pos(s, sequence) > insert_at {
                assert(entry_seq(s[insert_at as int]) <= sequence);
            }
            assert(insert_pos(s, sequence) == insert_at);
            lemma_insert_keeps_sorted(s, e);
        }

        self.buffer.insert(insert_at, JitterBufferEntry { packet, arrival_ms });
        assert(self.entries() =~= s.insert(insert_at as int, e));

        if self.buffer.len() > self.max_size {
            let _ = self.buffer.pop_front();
            self.packets_dropped = self.packets_dropped + 1;
            assert(self.entries() =~= s.insert(insert_at as int, e).drop_first());
        }
    }

    /// Insert a packet, stamped with the current time.
    pub fn push(&mut self, packet: VoicePacket)
        requires
            old(self).wf(),
            old(self).received() < u64::MAX,
        ensures
            final(self).wf(),
            final(self).received() == old(self).received() + 1,
            final(self).latency() == old(self).latency(),
            final(self).capacity() == old(self).capacity(),
            final(self).last_played() == old(self).last_played(),
            is_late(old(self).last_played(), packet.header.sequence) ==> {
                &&& final(self).entries() == old(self).entries()
                &&& final(self).dropped() == old(self).dropped() + 1
            },
            !is_late(old(self).last_played(), packet.header.sequence) ==> exists|t: u64|
                #[trigger] accepted_entries(old(self).entries(), (packet.header, packet.payload@, t), old(self).capacity())
                    == final(self).entries(),
            !is_late(old(self).last_played(), packet.header.sequence) ==> final(self).dropped()
                == old(self).dropped() + if old(self).entries().len() + 1 > old(self).capacity() { 1int } else { 0int },
    {
        let now = now_millis();
        self.push_at(packet, now);
    }

    /// The next packet to play at time `now_ms`, if any: the first entry, once
    /// it has waited at least the target latency (a clock that went back
    /// counts as no wait). It leaves the buffer and becomes the last played.
    pub fn pop_at(&mut self, now_ms: u64) -> (r: Option<VoicePacket>)
        requires
            old(self).wf(),
        ensures
            final(self).wf(),
            final(self).latency() == old(self).latency(),
            final(self).capacity() == old(self).capacity(),
            final(self).received() == old(self).received(),
            final(self).dropped() == old(self).dropped(),
            old(self).entries().len() == 0 ==> r is None && final(self).entries() == old(self).entries()
                && final(self).last_played() == old(self).last_played(),
            old(self).entries().len() > 0 ==> {
                let first = old(self).entries()[0];
                if waited(first.2, now_ms) < old(self).latency() {
                    &&& r is None
                    &&& final(self).entries() == old(self).entries()
                    &&& final(self).last_played() == old(self).last_played()
                } else {
                    &&& r is Some
                    &&& r.unwrap()@ == (first.0, first.1)
                    &&& final(self).entries() == old(self).entries().drop_first()
                    &&& final(self).last_played() == Some(first.0.sequence)
                }
            },
            // What comes out first has the smallest sequence number in the buffer.
            r is Some ==> forall|i: int| 0 <= i < final(self).entries().len()
                ==> r.unwrap().header.sequence <= entry_seq(#[trigger] final(self).entries()[i]),
    {
        if self.buffer.len() == 0 {
            return None;
        }
        let arrival = self.buffer[0].arrival_ms;
        let elapsed = now_ms.saturating_sub(arrival);
        if elapsed < self.target_latency_ms {
            return None;
        }
        let ghost s = self.entries();
        let ghost first = self.buffer@[0];
        assert(s[0] == (first.packet.header, first.packet.payload@, first.arrival_ms));
        let entry = self.buffer.pop_front().unwrap();
        assert(entry == first);
        assert(self.entries() =~= s.drop_first());
        self.last_sequence = Some(entry.packet.header.sequence);
        assert(entry.packet.header == s[0].0);
        assert forall|i: int| 0 <= i < self.entries().len() implies
            entry.packet.header.sequence <= entry_seq(#[trigger] self.entries()[i]) by {
            assert(self.entries()[i] == s[i + 1]);
        }
        Some(entry.packet)
    }

    /// The next packet to play now, if any (see `pop_at`).
    pub fn pop(&mut self) -> (r: Option<VoicePacket>)
        requires
            old(self).wf(),
        ensures
            final(self).wf(),
            final(self).latency() == old(self).latency(),
            final(self).capacity() == old(self).capacity(),
            final(self).received() == old(self).received(),
            final(self).dropped() == old(self).dropped(),
            r is None ==> final(self).entries() == old(self).entries()
                && final(self).last_played() == old(self).last_played(),
            r is Some ==> {
                &&& old(self).entries().len() > 0
                &&& r.unwrap()@ == (old(self).entries()[0].0, old(self).entries()[0].1)
                &&& final(self).entries() == old(self).entries().drop_first()
                &&& final(self).last_played() == Some(old(self).entries()[0].0.sequence)
            },
            old(self).entries().len() == 0 ==> r is None,
            exists|now_ms: u64| #[trigger] popped_at(*old(self), *final(self), r, now_ms),
            old(self).entries().len() > 0 && old(self).latency() == 0 ==> r is Some,
    {
        let now = now_millis();
        let r = self.pop_at(now);
        assert(popped_at(*old(self), *self, r, now));
        r
    }

    /// Current buffer depth in packets.
    pub fn depth(&self) -> (r: usize)
        ensures
            r == self.entries().len(),
    {
        proof {
            assert(self.entries().len() == self.buffer@.len());
        }
        self.buffer.len()
    }

    /// Packet statistics: (received, dropped).
    pub fn get_stats(&self) -> (r: (u64, u64))
        ensures
            r == (self.received(), self.dropped()),
    {
        (self.packets_received, self.packets_dropped)
    }

    /// Clear the buffer and forget the last played packet.
    pub fn clear(&mut self)
        requires
            old(self).wf(),
        ensures
            final(self).wf(),
            final(self).entries() == Seq::<EntryView>::empty(),
            final(self).last_played() is None,
            final(self).latency() == old(self).latency(),
            final(self).capacity() == old(self).capacity(),
            final(self).received() == old(self).received(),
            final(self).dropped() == old(self).dropped(),
    {
        self.buffer.clear();
        self.last_sequence = None;
        assert(self.entries() =~= Seq::<EntryView>::empty());
    }

    /// What every well-formed jitter buffer keeps, whatever pushes, pops and
    /// clears led to it: its entries are in sequence order, it holds at most
    /// its capacity, and it has dropped no more packets than it received.
    pub proof fn law_buffer_invariant(&self)
        requires
            self.wf(),
        ensures
            sorted_by_sequence(self.entries()),
            self.entries().len() <= self.capacity(),
            self.dropped() <= self.received(),
    {
    }

}

} // verus!
