//! The pool-client registry: one client per pool, created once.
use vstd::prelude::*;

use crate::key::Key;

verus! {

/// What a caller does after looking a pool up: use the client it found, or
/// fetch the pool and offer a new client with `admit_created`.
pub enum Lookup<'a, V> {
    Found(&'a V),
    Fetch,
}

/// Maps pool keys to their clients. Each key holds at most one client and
/// an entry, once made, is never replaced.
pub struct Registry<V> {
    entries: Vec<(Key, V)>,
    contents: Ghost<Map<Seq<u8>, V>>,
}

/// Keys are distinct, and the entries hold exactly the map's pairs.
spec fn entries_match<V>(entries: Seq<(Key, V)>, contents: Map<Seq<u8>, V>) -> bool {
    &&& forall|i: int, j: int| 0 <= i < j < entries.len() ==> entries[i].0@ != entries[j].0@
    &&& forall|i: int|
        0 <= i < entries.len() ==> #[trigger] contents.contains_key(entries[i].0@)
            && contents[entries[i].0@] == entries[i].1
    &&& forall|k: Seq<u8>|
        #[trigger] contents.contains_key(k) ==> exists|i: int|
            0 <= i < entries.len() && entries[i].0@ == k
}

impl<V> Registry<V> {
    /// The clients by pool key.
    pub closed spec fn view(&self) -> Map<Seq<u8>, V> {
        self.contents@
    }

    #[verifier::type_invariant]
    closed spec fn wf(&self) -> bool {
        entries_match(self.entries@, self.contents@)
    }

    pub fn new() -> (r: Registry<V>)
        ensures
            r@ == Map::<Seq<u8>, V>::empty(),
    {
        Registry { entries: Vec::new(), contents: Ghost(Map::empty()) }
    }

    pub fn len(&self) -> (r: usize)
        ensures
            r == self@.dom().len(),
    {
        proof {
            use_type_invariant(self);
            self.lemma_len();
        }
        self.entries.len()
    }

    proof fn lemma_len(&self)
        requires
            self.wf(),
        ensures
            self.entries@.len() == self@.dom().len(),
        decreases self.entries@.len(),
    {
        let keys = self.entries@.map_values(|e: (Key, V)| e.0@);
        assert forall|i: int, j: int| 0 <= i < j < keys.len() implies keys[i] != keys[j] by {}
        keys.unique_seq_to_set();
        assert(keys.to_set() =~= self@.dom()) by {
            assert forall|k: Seq<u8>| self@.dom().contains(k) implies keys.contains(k) by {
                let i = choose|i: int| 0 <= i < self.entries@.len() && self.entries@[i].0@ == k;
                assert(keys[i] == k);
            }
            assert forall|k: Seq<u8>| keys.contains(k) implies self@.dom().contains(k) by {
                let i = choose|i: int| 0 <= i < keys.len() && keys[i] == k;
                assert(self.contents@.contains_key(self.entries@[i].0@));
            }
        }
    }

    /// The read-only look-up: the client already made for `key`, or the
    /// instruction to fetch.
    pub fn lookup(&self, key: &Key) -> (r: Lookup<'_, V>)
        ensures
            self@.contains_key(key@) <==> r is Found,
            r matches Lookup::Found(v) ==> *v == self@[key@],
    {
        proof {
            use_type_invariant(self);
        }
        let mut i: usize = 0;
        while i < self.entries.len()
            invariant
                self.wf(),
                i <= self.entries@.len(),
                forall|j: int| 0 <= j < i ==> self.entries@[j].0@ != key@,
            decreases self.entries@.len() - i,
        {
            if self.entries[i].0 == *key {
                assert(self.contents@.contains_key(self.entries@[i as int].0@));
                return Lookup::Found(&self.entries[i].1);
            }
            i = i + 1;
        }
        Lookup::Fetch
    }

    /// Offers a client made for `key` after a fetch. Where another caller
    /// already admitted one, that one stays and `created` is dropped; the
    /// result says whether `created` was admitted.
    pub fn admit_created(&mut self, key: Key, created: V) -> (admitted: bool)
        ensures
            admitted == !old(self)@.contains_key(key@),
            admitted ==> final(self)@ == old(self)@.insert(key@, created),
            !admitted ==> final(self)@ == old(self)@,
            (final(self)@, final(self)@[key@], admitted) == serve(old(self)@, key@, created),
    {
        if let Lookup::Found(_) = self.lookup(&key) {
            return false;
        }
        let mut taken = Registry::new();
        std::mem::swap(&mut taken, self);
        proof {
            use_type_invariant(&taken);
        }
        let Registry { mut entries, contents } = taken;
        let ghost before = entries@;
        entries.push((key, created));
        let grown_map: Ghost<Map<Seq<u8>, V>> = Ghost(contents@.insert(key@, created));
        let ghost grown = grown_map@;
        assert(!contents@.contains_key(key@));
        assert forall|i: int| 0 <= i < before.len() implies #[trigger] before[i].0@ != key@ by {
            assert(contents@.contains_key(before[i].0@));
        }
        assert forall|i: int| 0 <= i < entries@.len() implies #[trigger] grown.contains_key(
            entries@[i].0@,
        ) && grown[entries@[i].0@] == entries@[i].1 by {
            if i < before.len() {
                assert(entries@[i] == before[i]);
                assert(contents@.contains_key(before[i].0@));
            }
        }
        assert forall|k: Seq<u8>| #[trigger] grown.contains_key(k) implies exists|i: int|
            0 <= i < entries@.len() && entries@[i].0@ == k by {
            if k != key@ {
                let i = choose|i: int| 0 <= i < before.len() && before[i].0@ == k;
                assert(entries@[i] == before[i]);
            } else {
                assert(entries@[before.len() as int].0@ == k);
            }
        }
        assert forall|i: int, j: int| 0 <= i < j < entries@.len() implies entries@[i].0@
            != entries@[j].0@ by {
            assert(entries@[i] == before[i]);
            if j < before.len() {
                assert(entries@[j] == before[j]);
            }
        }
        assert(entries_match(entries@, grown));
        *self = Registry { entries, contents: grown_map };
        true
    }
}

/// What a caller of the look-up-or-create protocol is handed, and whether it
/// fetched, given the registry it found when it took the exclusive hold.
pub open spec fn serve<V>(m: Map<Seq<u8>, V>, key: Seq<u8>, fresh: V) -> (Map<Seq<u8>, V>, V, bool) {
    if m.contains_key(key) {
        (m, m[key], false)
    } else {
        (m.insert(key, fresh), fresh, true)
    }
}

/// The registry after `n` callers asked for `key` one after another.
pub open spec fn served_map<V>(m: Map<Seq<u8>, V>, key: Seq<u8>, fresh: Seq<V>, n: nat) -> Map<Seq<u8>, V>
    decreases n,
{
    if n == 0 {
        m
    } else {
        serve(served_map(m, key, fresh, (n - 1) as nat), key, fresh[n - 1]).0
    }
}

/// How many of the first `n` callers fetched.
pub open spec fn fetch_count<V>(m: Map<Seq<u8>, V>, key: Seq<u8>, fresh: Seq<V>, n: nat) -> nat
    decreases n,
{
    if n == 0 {
        0
    } else {
        fetch_count(m, key, fresh, (n - 1) as nat) + if serve(
            served_map(m, key, fresh, (n - 1) as nat),
            key,
            fresh[n - 1],
        ).2 {
            1nat
        } else {
            0nat
        }
    }
}

/// Callers racing on a pool that is not yet registered: whatever the number
/// of callers, exactly one fetches, and every caller is handed the client
/// that the first one created.
pub proof fn lemma_single_creation<V>(m: Map<Seq<u8>, V>, key: Seq<u8>, fresh: Seq<V>, n: nat)
    requires
        !m.contains_key(key),
        1 <= n <= fresh.len(),
    ensures
        fetch_count(m, key, fresh, n) == 1,
        served_map(m, key, fresh, n) == m.insert(key, fresh[0]),
        forall|c: nat|
            c < n ==> #[trigger] serve(served_map(m, key, fresh, c), key, fresh[c as int]).1
                == fresh[0],
    decreases n,
{
    if n > 1 {
        lemma_single_creation(m, key, fresh, (n - 1) as nat);
        assert(served_map(m, key, fresh, (n - 1) as nat).contains_key(key));
        assert(!serve(served_map(m, key, fresh, (n - 1) as nat), key, fresh[n - 1]).2);
        assert forall|c: nat| c < n implies #[trigger] serve(
            served_map(m, key, fresh, c),
            key,
            fresh[c as int],
        ).1 == fresh[0] by {
            if c == n - 1 {
            }
        }
    } else {
        assert(served_map(m, key, fresh, 0) == m);
        assert(fetch_count(m, key, fresh, 0) == 0);
        assert(serve(m, key, fresh[0]).2);
        assert forall|c: nat| c < n implies #[trigger] serve(
            served_map(m, key, fresh, c),
            key,
            fresh[c as int],
        ).1 == fresh[0] by {
            assert(c == 0);
        }
    }
}

} // verus!
