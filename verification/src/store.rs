//! The nonce store: a key-value store with per-entry expiry.
//!
//! Every outstanding token lives here and nowhere else. The store never
//! materializes more than "present" or "absent": consumption is deletion,
//! and an expired key behaves exactly like a key that was never set.
//!
//! The abstract content is a `Map<Seq<char>, u64>` from each key to the
//! instant (in seconds) at which it expires. Time is not read from a
//! clock: every operation that depends on it takes the current instant
//! as an argument, so expiry is enforced uniformly and can be reasoned
//! about (and tested) at any simulated time.

use vstd::prelude::*;

verus! {

/// A key is live at `now` when the store holds it and its expiry instant
/// has not yet been reached.
pub open spec fn live(m: Map<Seq<char>, u64>, key: Seq<char>, now: u64) -> bool {
    m.contains_key(key) && now < m[key]
}

/// The map described by a sequence of `(key, expires_at)` entries,
/// later entries taking precedence.
spec fn map_of(entries: Seq<(String, u64)>) -> Map<Seq<char>, u64>
    decreases entries.len(),
{
    if entries.len() == 0 {
        Map::empty()
    } else {
        map_of(entries.drop_last()).insert(entries.last().0@, entries.last().1)
    }
}

/// No two entries carry the same key.
spec fn keys_distinct(entries: Seq<(String, u64)>) -> bool {
    forall|i: int, j: int|
        0 <= i < j < entries.len() ==> entries[i].0@ != entries[j].0@
}

proof fn lemma_map_of_contains(entries: Seq<(String, u64)>, key: Seq<char>)
    ensures
        map_of(entries).contains_key(key) <==> exists|i: int|
            0 <= i < entries.len() && entries[i].0@ == key,
    decreases entries.len(),
{
    if entries.len() > 0 {
        lemma_map_of_contains(entries.drop_last(), key);
        if entries.last().0@ == key {
            assert(entries[entries.len() - 1].0@ == key);
        } else {
            if exists|i: int| 0 <= i < entries.len() && entries[i].0@ == key {
                let i = choose|i: int| 0 <= i < entries.len() && entries[i].0@ == key;
                assert(entries.drop_last()[i].0@ == key);
            }
            if map_of(entries).contains_key(key) {
                let i = choose|i: int|
                    0 <= i < entries.drop_last().len() && entries.drop_last()[i].0@ == key;
                assert(entries[i].0@ == key);
            }
        }
    }
}

proof fn lemma_map_of_value(entries: Seq<(String, u64)>, i: int)
    requires
        keys_distinct(entries),
        0 <= i < entries.len(),
    ensures
        map_of(entries).contains_key(entries[i].0@),
        map_of(entries)[entries[i].0@] == entries[i].1,
    decreases entries.len(),
{
    if i < entries.len() - 1 {
        assert(keys_distinct(entries.drop_last()));
        lemma_map_of_value(entries.drop_last(), i);
        assert(entries[i].0@ != entries.last().0@);
    }
}

proof fn lemma_distinct_remove(entries: Seq<(String, u64)>, i: int)
    requires
        keys_distinct(entries),
        0 <= i < entries.len(),
    ensures
        keys_distinct(entries.remove(i)),
{
    assert forall|p: int, q: int|
        0 <= p < q < entries.remove(i).len() implies entries.remove(i)[p].0@
        != entries.remove(i)[q].0@ by {
        let p0: int = if p < i {
            p
        } else {
            p + 1
        };
        let q0: int = if q < i {
            q
        } else {
            q + 1
        };
        assert(entries.remove(i)[p] == entries[p0]);
        assert(entries.remove(i)[q] == entries[q0]);
    }
}

proof fn lemma_map_of_remove(entries: Seq<(String, u64)>, i: int)
    requires
        keys_distinct(entries),
        0 <= i < entries.len(),
    ensures
        map_of(entries.remove(i)) =~= map_of(entries).remove(entries[i].0@),
    decreases entries.len(),
{
    let key = entries[i].0@;
    if i == entries.len() - 1 {
        assert(entries.remove(i) =~= entries.drop_last());
        lemma_map_of_contains(entries.drop_last(), key);
        assert(!map_of(entries.drop_last()).contains_key(key));
        assert(map_of(entries.drop_last()) =~= map_of(entries.drop_last()).insert(
            key,
            entries[i].1,
        ).remove(key));
    } else {
        let shorter = entries.drop_last();
        let removed = entries.remove(i);
        assert(keys_distinct(shorter));
        lemma_map_of_remove(shorter, i);
        assert(removed.last() == entries.last());
        assert(removed.drop_last() =~= shorter.remove(i));
        assert(map_of(removed) == map_of(shorter.remove(i)).insert(
            entries.last().0@,
            entries.last().1,
        ));
        assert(entries.last().0@ != key);
        assert(map_of(shorter).remove(key).insert(entries.last().0@, entries.last().1)
            =~= map_of(shorter).insert(entries.last().0@, entries.last().1).remove(key));
    }
}

/// A key-value store with per-entry expiry: the authoritative record of
/// every outstanding nonce. `self@` is the map from each stored key to
/// its expiry instant.
pub struct NonceStore {
    entries: Vec<(String, u64)>,
}

impl View for NonceStore {
    type V = Map<Seq<char>, u64>;

    closed spec fn view(&self) -> Map<Seq<char>, u64> {
        map_of(self.entries@)
    }
}

impl NonceStore {
    /// The store holds at most one entry per key.
    pub closed spec fn wf(&self) -> bool {
        keys_distinct(self.entries@)
    }

    /// An empty store: no key is outstanding.
    pub fn new() -> (store: NonceStore)
        ensures
            store.wf(),
            store@ == Map::<Seq<char>, u64>::empty(),
    {
        NonceStore { entries: Vec::new() }
    }

    /// Atomic create with auto-expiry: after the call the key is held
    /// with expiry instant `now + ttl_seconds`, replacing any earlier
    /// entry under the same key.
    pub fn set_with_expiry(&mut self, key: String, ttl_seconds: u64, now: u64)
        requires
            old(self).wf(),
            now + ttl_seconds <= u64::MAX,
        ensures
            final(self).wf(),
            final(self)@ == old(self)@.insert(key@, (now + ttl_seconds) as u64),
    {
        let ghost key_view = key@;
        self.delete(&key);
        proof {
            lemma_map_of_contains(self.entries@, key_view);
        }
        let expires_at = now + ttl_seconds;
        let ghost before = self.entries@;
        self.entries.push((key, expires_at));
        proof {
            assert(self.entries@.drop_last() =~= before);
            assert(self@ == map_of(before).insert(key_view, expires_at));
            assert(self@ =~= old(self)@.insert(key_view, expires_at));
            assert forall|p: int, q: int|
                0 <= p < q < self.entries@.len() implies self.entries@[p].0@
                != self.entries@[q].0@ by {
                if q == self.entries@.len() - 1 {
                    assert(before[p].0@ != key_view);
                }
            }
        }
    }

    /// Existence check that reflects expiry: an expired key answers
    /// exactly as a key that was never set.
    pub fn present(&self, key: &String, now: u64) -> (r: bool)
        requires
            self.wf(),
        ensures
            r == live(self@, key@, now),
    {
        let n = self.entries.len();
        let mut i: usize = 0;
        while i < n
            invariant
                self.wf(),
                n == self.entries@.len(),
                i <= n,
                forall|j: int| 0 <= j < i ==> self.entries@[j].0@ != key@,
            decreases n - i,
        {
            if self.entries[i].0 == *key {
                let expires_at = self.entries[i].1;
                proof {
                    lemma_map_of_value(self.entries@, i as int);
                }
                return now < expires_at;
            }
            i += 1;
        }
        proof {
            lemma_map_of_contains(self.entries@, key@);
        }
        false
    }

    /// Removes the key if it is held; a key that is absent stays absent.
    pub fn delete(&mut self, key: &String)
        requires
            old(self).wf(),
        ensures
            final(self).wf(),
            final(self)@ == old(self)@.remove(key@),
    {
        let n = self.entries.len();
        let mut i: usize = 0;
        while i < n
            invariant
                *self == *old(self),
                self.wf(),
                n == self.entries@.len(),
                i <= n,
                forall|j: int| 0 <= j < i ==> self.entries@[j].0@ != key@,
            decreases n - i,
        {
            if self.entries[i].0 == *key {
                proof {
                    lemma_map_of_remove(self.entries@, i as int);
                    lemma_distinct_remove(self.entries@, i as int);
                }
                self.entries.remove(i);
                proof {
                    assert(self@ =~= old(self)@.remove(key@));
                }
                return;
            }
            i += 1;
        }
        proof {
            lemma_map_of_contains(self.entries@, key@);
            assert(self@ =~= old(self)@.remove(key@));
        }
    }
}

} // verus!
