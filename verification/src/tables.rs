//! Small keyed tables held as vectors of distinct keys: tokens by text and
//! values by peer address.

use vstd::prelude::*;
use crate::net::PeerAddr;

verus! {

/// The value stored under `k` in `s`, if a pair with key `k` is there.
pub open spec fn seq_lookup<K, V>(s: Seq<(K, V)>, k: K) -> Option<V> {
    if exists|i: int| 0 <= i < s.len() && s[i].0 == k {
        Some(s[choose|i: int| 0 <= i < s.len() && s[i].0 == k].1)
    } else {
        None
    }
}

/// No key occurs twice.
pub open spec fn distinct_keys<K, V>(s: Seq<(K, V)>) -> bool {
    forall|i: int, j: int| 0 <= i < s.len() && 0 <= j < s.len() && i != j ==> s[i].0 != s[j].0
}

/// The map that pairs with distinct keys stand for.
pub open spec fn seq_to_map<K, V>(s: Seq<(K, V)>) -> Map<K, V> {
    Map::new(|k: K| seq_lookup(s, k) is Some, |k: K| seq_lookup(s, k).unwrap())
}

proof fn lemma_lookup_at<K, V>(s: Seq<(K, V)>, i: int)
    requires
        distinct_keys(s),
        0 <= i < s.len(),
    ensures
        seq_lookup(s, s[i].0) == Some(s[i].1),
{
    let j = choose|j: int| 0 <= j < s.len() && s[j].0 == s[i].0;
    assert(j == i);
}

proof fn lemma_push_new<K, V>(s: Seq<(K, V)>, k: K, v: V)
    requires
        distinct_keys(s),
        seq_lookup(s, k) is None,
    ensures
        distinct_keys(s.push((k, v))),
        seq_to_map(s.push((k, v))) == seq_to_map(s).insert(k, v),
{
    let t = s.push((k, v));
    assert forall|i: int, j: int| 0 <= i < t.len() && 0 <= j < t.len() && i != j implies t[i].0 != t[j].0 by {
        if i == s.len() {
            assert(t[j] == s[j]);
        } else if j == s.len() {
            assert(t[i] == s[i]);
        } else {
            assert(t[i] == s[i] && t[j] == s[j]);
        }
    }
    assert forall|q: K| #[trigger] seq_lookup(t, q) == seq_to_map(s).insert(k, v).get(q) by {
        if q == k {
            lemma_lookup_at(t, s.len() as int);
        } else if seq_lookup(s, q) is Some {
            let i = choose|i: int| 0 <= i < s.len() && s[i].0 == q;
            lemma_lookup_at(s, i);
            assert(t[i] == s[i]);
            lemma_lookup_at(t, i);
        } else {
            if exists|i: int| 0 <= i < t.len() && t[i].0 == q {
                let i = choose|i: int| 0 <= i < t.len() && t[i].0 == q;
                assert(t[i] == s[i]);
            }
        }
    }
    assert(seq_to_map(t) =~= seq_to_map(s).insert(k, v));
}

proof fn lemma_update_at<K, V>(s: Seq<(K, V)>, i: int, v: V)
    requires
        distinct_keys(s),
        0 <= i < s.len(),
    ensures
        distinct_keys(s.update(i, (s[i].0, v))),
        seq_to_map(s.update(i, (s[i].0, v))) == seq_to_map(s).insert(s[i].0, v),
{
    let k = s[i].0;
    let t = s.update(i, (k, v));
    assert forall|a: int, b: int| 0 <= a < t.len() && 0 <= b < t.len() && a != b implies t[a].0 != t[b].0 by {
        assert(t[a].0 == s[a].0 && t[b].0 == s[b].0);
    }
    assert forall|q: K| #[trigger] seq_lookup(t, q) == seq_to_map(s).insert(k, v).get(q) by {
        if q == k {
            lemma_lookup_at(t, i);
        } else if seq_lookup(s, q) is Some {
            let j = choose|j: int| 0 <= j < s.len() && s[j].0 == q;
            lemma_lookup_at(s, j);
            assert(t[j] == s[j]);
            lemma_lookup_at(t, j);
        } else {
            if exists|j: int| 0 <= j < t.len() && t[j].0 == q {
                let j = choose|j: int| 0 <= j < t.len() && t[j].0 == q;
                assert(t[j].0 == s[j].0);
            }
        }
    }
    assert(seq_to_map(t) =~= seq_to_map(s).insert(k, v));
}

proof fn lemma_remove_at<K, V>(s: Seq<(K, V)>, i: int)
    requires
        distinct_keys(s),
        0 <= i < s.len(),
    ensures
        distinct_keys(s.remove(i)),
        seq_to_map(s.remove(i)) == seq_to_map(s).remove(s[i].0),
{
    let k = s[i].0;
    let t = s.remove(i);
    assert forall|a: int, b: int| 0 <= a < t.len() && 0 <= b < t.len() && a != b implies t[a].0 != t[b].0 by {
        let a2 = if a < i { a } else { a + 1 };
        let b2 = if b < i { b } else { b + 1 };
        assert(t[a] == s[a2] && t[b] == s[b2]);
    }
    assert forall|q: K| #[trigger] seq_lookup(t, q) == seq_to_map(s).remove(k).get(q) by {
        if q == k {
            if exists|j: int| 0 <= j < t.len() && t[j].0 == q {
                let j = choose|j: int| 0 <= j < t.len() && t[j].0 == q;
                let j2 = if j < i { j } else { j + 1 };
                assert(t[j] == s[j2]);
            }
        } else if seq_lookup(s, q) is Some {
            let j = choose|j: int| 0 <= j < s.len() && s[j].0 == q;
            lemma_lookup_at(s, j);
            let j2 = if j < i { j } else { j - 1 };
            assert(t[j2] == s[j]);
            lemma_lookup_at(t, j2);
        } else {
            if exists|j: int| 0 <= j < t.len() && t[j].0 == q {
                let j = choose|j: int| 0 <= j < t.len() && t[j].0 == q;
                let j2 = if j < i { j } else { j + 1 };
                assert(t[j] == s[j2]);
            }
        }
    }
    assert(seq_to_map(t) =~= seq_to_map(s).remove(k));
}

/// Pairs of ids stored under text tokens; each token appears at most once.
#[derive(Debug)]
pub struct TokenTable {
    entries: Vec<(String, (u16, u16))>,
}

impl TokenTable {
    /// The pairs held, keys taken by their text.
    pub closed spec fn pairs(&self) -> Seq<(Seq<char>, (u16, u16))> {
        self.entries@.map_values(|e: (String, (u16, u16))| (e.0@, e.1))
    }

    /// The table as a map from token text to value.
    pub closed spec fn view(&self) -> Map<Seq<char>, (u16, u16)> {
        seq_to_map(self.pairs())
    }

    /// Every token table holds each token at most once.
    #[verifier::type_invariant]
    closed spec fn wf(&self) -> bool {
        distinct_keys(self.pairs())
    }

    /// An empty table.
    pub fn new() -> (r: Self)
        ensures
            r@ == Map::<Seq<char>, (u16, u16)>::empty(),
    {
        let r = TokenTable { entries: Vec::new() };
        assert(r.pairs() =~= Seq::<(Seq<char>, (u16, u16))>::empty());
        assert(r@ =~= Map::<Seq<char>, (u16, u16)>::empty());
        r
    }

    /// The position of `token`, if it is held.
    fn position(&self, token: &String) -> (r: Option<usize>)
        ensures
            match r {
                Some(i) => i < self.pairs().len() && self.pairs()[i as int].0 == token@,
                None => seq_lookup(self.pairs(), token@) is None,
            },
    {
        proof {
            use_type_invariant(self);
        }
        let mut i: usize = 0;
        while i < self.entries.len()
            invariant
                i <= self.entries@.len(),
                self.pairs().len() == self.entries@.len(),
                forall|j: int| 0 <= j < i ==> self.pairs()[j].0 != token@,
            decreases self.entries@.len() - i,
        {
            if self.entries[i].0 == *token {
                return Some(i);
            }
            i = i + 1;
        }
        None
    }

    /// Store `value` under `token`, replacing any value stored there.
    pub fn insert(&mut self, token: String, value: (u16, u16))
        ensures
            final(self)@ == old(self)@.insert(token@, value),
    {
        proof {
            use_type_invariant(&*self);
        }
        match self.position(&token) {
            Some(i) => {
                proof {
                    lemma_update_at(self.pairs(), i as int, value);
                }
                let ghost old_pairs = self.pairs();
                let mut entries: Vec<(String, (u16, u16))> = Vec::new();
                std::mem::swap(&mut entries, &mut self.entries);
                entries.set(i, (token, value));
                assert(entries@.map_values(|e: (String, (u16, u16))| (e.0@, e.1)) =~= old_pairs.update(i as int, (old_pairs[i as int].0, value)));
                self.entries = entries;
            },
            None => {
                proof {
                    lemma_push_new(self.pairs(), token@, value);
                }
                let ghost old_pairs = self.pairs();
                let ghost k = token@;
                let mut entries: Vec<(String, (u16, u16))> = Vec::new();
                std::mem::swap(&mut entries, &mut self.entries);
                entries.push((token, value));
                assert(entries@.map_values(|e: (String, (u16, u16))| (e.0@, e.1)) =~= old_pairs.push((k, value)));
                self.entries = entries;
            },
        }
    }

    /// Take out the value stored under `token`, if any: the token is then gone.
    pub fn remove(&mut self, token: &String) -> (r: Option<(u16, u16)>)
        ensures
            final(self)@ == old(self)@.remove(token@),
            r == old(self)@.get(token@),
    {
        proof {
            use_type_invariant(&*self);
        }
        match self.position(token) {
            Some(i) => {
                proof {
                    lemma_remove_at(self.pairs(), i as int);
                    lemma_lookup_at(self.pairs(), i as int);
                }
                let ghost old_pairs = self.pairs();
                let mut entries: Vec<(String, (u16, u16))> = Vec::new();
                std::mem::swap(&mut entries, &mut self.entries);
                let (_, v) = entries.remove(i);
                assert(entries@.map_values(|e: (String, (u16, u16))| (e.0@, e.1)) =~= old_pairs.remove(i as int));
                self.entries = entries;
                Some(v)
            },
            None => {
                assert(self@ =~= self@.remove(token@));
                None
            },
        }
    }

    /// The value stored under `token`, if any.
    pub fn get(&self, token: &String) -> (r: Option<(u16, u16)>)
        ensures
            r == self@.get(token@),
    {
        proof {
            use_type_invariant(self);
        }
        match self.position(token) {
            Some(i) => {
                proof {
                    lemma_lookup_at(self.pairs(), i as int);
                }
                Some(self.entries[i].1)
            },
            None => None,
        }
    }

    /// Number of tokens held.
    pub fn len(&self) -> (r: usize)
        ensures
            r == self@.len(),
    {
        proof {
            use_type_invariant(self);
        }
        proof {
            lemma_distinct_len(self.pairs());
        }
        self.entries.len()
    }
}

/// Pairs of ids stored under peer addresses; each address appears at most once.
#[derive(Debug)]
pub struct AddrTable {
    entries: Vec<(PeerAddr, (u16, u16))>,
}

impl AddrTable {
    /// The pairs held.
    pub closed spec fn pairs(&self) -> Seq<(PeerAddr, (u16, u16))> {
        self.entries@
    }

    /// The table as a map from address to value.
    pub closed spec fn view(&self) -> Map<PeerAddr, (u16, u16)> {
        seq_to_map(self.entries@)
    }

    /// Every address table holds each address at most once.
    #[verifier::type_invariant]
    closed spec fn wf(&self) -> bool {
        distinct_keys(self.entries@)
    }

    /// An empty table.
    pub fn new() -> (r: Self)
        ensures
            r@ == Map::<PeerAddr, (u16, u16)>::empty(),
    {
        let r = AddrTable { entries: Vec::new() };
        assert(r@ =~= Map::<PeerAddr, (u16, u16)>::empty());
        r
    }

    fn position(&self, addr: PeerAddr) -> (r: Option<usize>)
        ensures
            match r {
                Some(i) => i < self.entries@.len() && self.entries@[i as int].0 == addr,
                None => seq_lookup(self.entries@, addr) is None,
            },
    {
        proof {
            use_type_invariant(self);
        }
        let mut i: usize = 0;
        while i < self.entries.len()
            invariant
                i <= self.entries@.len(),
                forall|j: int| 0 <= j < i ==> self.entries@[j].0 != addr,
            decreases self.entries@.len() - i,
        {
            if self.entries[i].0 == addr {
                return Some(i);
            }
            i = i + 1;
        }
        None
    }

    /// Store `value` under `addr`, replacing any value stored there.
    pub fn insert(&mut self, addr: PeerAddr, value: (u16, u16))
        ensures
            final(self)@ == old(self)@.insert(addr, value),
    {
        proof {
            use_type_invariant(&*self);
        }
        match self.position(addr) {
            Some(i) => {
                proof {
                    lemma_update_at(self.entries@, i as int, value);
                }
                let mut entries: Vec<(PeerAddr, (u16, u16))> = Vec::new();
                std::mem::swap(&mut entries, &mut self.entries);
                entries.set(i, (addr, value));
                self.entries = entries;
            },
            None => {
                proof {
                    lemma_push_new(self.entries@, addr, value);
                }
                let mut entries: Vec<(PeerAddr, (u16, u16))> = Vec::new();
                std::mem::swap(&mut entries, &mut self.entries);
                entries.push((addr, value));
                self.entries = entries;
            },
        }
    }

    /// Take out the value stored under `addr`, if any.
    pub fn remove(&mut self, addr: PeerAddr) -> (r: Option<(u16, u16)>)
        ensures
            final(self)@ == old(self)@.remove(addr),
            r == old(self)@.get(addr),
    {
        proof {
            use_type_invariant(&*self);
        }
        match self.position(addr) {
            Some(i) => {
                proof {
                    lemma_remove_at(self.entries@, i as int);
                    lemma_lookup_at(self.entries@, i as int);
                }
                let mut entries: Vec<(PeerAddr, (u16, u16))> = Vec::new();
                std::mem::swap(&mut entries, &mut self.entries);
                let (_, v) = entries.remove(i);
                self.entries = entries;
                Some(v)
            },
            None => {
                assert(self@ =~= self@.remove(addr));
                None
            },
        }
    }

    /// The value stored under `addr`, if any.
    pub fn get(&self, addr: PeerAddr) -> (r: Option<(u16, u16)>)
        ensures
            r == self@.get(addr),
    {
        proof {
            use_type_invariant(self);
        }
        match self.position(addr) {
            Some(i) => {
                proof {
                    lemma_lookup_at(self.entries@, i as int);
                }
                Some(self.entries[i].1)
            },
            None => None,
        }
    }

    /// Number of addresses held.
    pub fn len(&self) -> (r: usize)
        ensures
            r == self@.len(),
    {
        proof {
            use_type_invariant(self);
        }
        proof {
            lemma_distinct_len(self.entries@);
        }
        self.entries.len()
    }
}

proof fn lemma_distinct_len<K, V>(s: Seq<(K, V)>)
    requires
        distinct_keys(s),
    ensures
        seq_to_map(s).dom().finite(),
        seq_to_map(s).len() == s.len(),
    decreases s.len(),
{
    if s.len() == 0 {
        assert(seq_to_map(s) =~= Map::<K, V>::empty());
    } else {
        let t = s.drop_last();
        assert forall|i: int, j: int| 0 <= i < t.len() && 0 <= j < t.len() && i != j implies t[i].0 != t[j].0 by {
            assert(t[i] == s[i] && t[j] == s[j]);
        }
        lemma_distinct_len(t);
        let (k, v) = s.last();
        if exists|i: int| 0 <= i < t.len() && t[i].0 == k {
            let i = choose|i: int| 0 <= i < t.len() && t[i].0 == k;
            assert(s[i].0 == s[s.len() - 1].0);
        }
        lemma_push_new(t, k, v);
        assert(t.push((k, v)) =~= s);
        assert(!seq_to_map(t).dom().contains(k));
    }
}

} // verus!
