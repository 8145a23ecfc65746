//! The shared world: long-lived services available to commands.
//!
//! Entries are keyed by an application-chosen `u64` service key, written when
//! the runtime is built, and read or mutated while commands execute. There is
//! no removal: an entry lives as long as the runtime.

use vstd::prelude::*;

verus! {

/// The mathematical content of an association list: later entries win, which
/// matches in-place replacement when keys stay unique.
pub open spec fn map_of<S>(s: Seq<(u64, S)>) -> Map<u64, S>
    decreases s.len(),
{
    if s.len() == 0 {
        Map::empty()
    } else {
        map_of(s.drop_last()).insert(s.last().0, s.last().1)
    }
}

/// No two entries share a key.
pub open spec fn keys_unique<S>(s: Seq<(u64, S)>) -> bool {
    forall|i: int, j: int| 0 <= i < j < s.len() ==> s[i].0 != s[j].0
}

/// A key is in the map exactly when some entry carries it.
proof fn lemma_map_of_contains<S>(s: Seq<(u64, S)>, k: u64)
    ensures
        map_of(s).contains_key(k) <==> exists|i: int| 0 <= i < s.len() && s[i].0 == k,
    decreases s.len(),
{
    if s.len() > 0 {
        lemma_map_of_contains(s.drop_last(), k);
        if s.last().0 == k {
            assert(s[s.len() - 1].0 == k);
        } else if map_of(s).contains_key(k) {
            let i = choose|i: int| 0 <= i < s.drop_last().len() && s.drop_last()[i].0 == k;
            assert(s[i].0 == k);
        } else if exists|i: int| 0 <= i < s.len() && s[i].0 == k {
            let i = choose|i: int| 0 <= i < s.len() && s[i].0 == k;
            assert(s.drop_last()[i].0 == k);
        }
    }
}

/// With unique keys, the entry that carries a key gives the map's value there.
proof fn lemma_map_of_index<S>(s: Seq<(u64, S)>, i: int)
    requires
        keys_unique(s),
        0 <= i < s.len(),
    ensures
        map_of(s).contains_key(s[i].0),
        map_of(s)[s[i].0] == s[i].1,
    decreases s.len(),
{
    if i == s.len() - 1 {
    } else {
        assert(s.drop_last()[i] == s[i]);
        lemma_map_of_index(s.drop_last(), i);
        assert(s[i].0 != s.last().0);
    }
}

/// Replacing the value of one entry in place is a map insert at its key.
proof fn lemma_map_of_update<S>(s: Seq<(u64, S)>, i: int, v: S)
    requires
        keys_unique(s),
        0 <= i < s.len(),
    ensures
        map_of(s.update(i, (s[i].0, v))) == map_of(s).insert(s[i].0, v),
    decreases s.len(),
{
    let t = s.update(i, (s[i].0, v));
    if i == s.len() - 1 {
        assert(t.drop_last() =~= s.drop_last());
        assert(map_of(t) =~= map_of(s).insert(s[i].0, v));
    } else {
        assert(t.drop_last() =~= s.drop_last().update(i, (s[i].0, v)));
        assert(s.drop_last()[i] == s[i]);
        lemma_map_of_update(s.drop_last(), i, v);
        assert(s[i].0 != s.last().0);
        assert(map_of(t) =~= map_of(s).insert(s[i].0, v));
    }
}

/// The type-keyed container of shared services.
pub struct World<S> {
    entries: Vec<(u64, S)>,
}

impl<S> View for World<S> {
    type V = Map<u64, S>;

    closed spec fn view(&self) -> Map<u64, S> {
        map_of(self.entries@)
    }
}

impl<S> World<S> {
    /// Well-formed: the backing list never repeats a key.
    pub closed spec fn wf(self) -> bool {
        keys_unique(self.entries@)
    }

    /// An empty world.
    pub fn new() -> (r: Self)
        ensures
            r.wf(),
            r@ == Map::<u64, S>::empty(),
    {
        World { entries: Vec::new() }
    }

    /// The position of the entry carrying `key`, if any.
    fn position(&self, key: u64) -> (r: Option<usize>)
        ensures
            match r {
                Some(i) => i < self.entries@.len() && self.entries@[i as int].0 == key,
                None => forall|i: int| 0 <= i < self.entries@.len() ==> self.entries@[i].0 != key,
            },
    {
        let mut i: usize = 0;
        while i < self.entries.len()
            invariant
                0 <= i <= self.entries@.len(),
                forall|j: int| 0 <= j < i ==> self.entries@[j].0 != key,
            decreases self.entries@.len() - i,
        {
            if self.entries[i].0 == key {
                return Some(i);
            }
            i = i + 1;
        }
        None
    }

    /// Adds or replaces the service stored under `key`; part of building the
    /// runtime's world.
    pub fn add_with(self, key: u64, service: S) -> (r: Self)
        requires
            self.wf(),
        ensures
            r.wf(),
            r@ == self@.insert(key, service),
    {
        let found = self.position(key);
        let World { mut entries } = self;
        let ghost s0 = entries@;
        match found {
            Some(i) => {
                let e = &mut entries[i];
                *e = (key, service);
                proof {
                    lemma_map_of_update(s0, i as int, service);
                    assert forall|a: int, b: int|
                        0 <= a < b < entries@.len() implies entries@[a].0 != entries@[b].0 by {
                        assert(entries@[a].0 == s0[a].0);
                        assert(entries@[b].0 == s0[b].0);
                    }
                }
                World { entries }
            },
            None => {
                entries.push((key, service));
                proof {
                    assert(entries@.drop_last() =~= s0);
                    assert(keys_unique(entries@));
                }
                World { entries }
            },
        }
    }

    /// Whether a service is stored under `key`.
    pub fn contains_key(&self, key: u64) -> (r: bool)
        ensures
            r == self@.contains_key(key),
    {
        proof {
            lemma_map_of_contains(self.entries@, key);
        }
        self.position(key).is_some()
    }

    /// The service stored under `key`, if any.
    pub fn try_get(&self, key: u64) -> (r: Option<&S>)
        requires
            self.wf(),
        ensures
            match r {
                Some(v) => self@.contains_key(key) && *v == self@[key],
                None => !self@.contains_key(key),
            },
    {
        proof {
            lemma_map_of_contains(self.entries@, key);
        }
        match self.position(key) {
            Some(i) => {
                proof {
                    lemma_map_of_index(self.entries@, i as int);
                }
                Some(&self.entries[i].1)
            },
            None => None,
        }
    }

    /// The service stored under `key`; the key must be present.
    pub fn get(&self, key: u64) -> (r: &S)
        requires
            self.wf(),
            self@.contains_key(key),
        ensures
            *r == self@[key],
    {
        match self.try_get(key) {
            Some(v) => v,
            None => unreached(),
        }
    }

    /// Exclusive access to the service stored under `key`, if any.
    pub fn try_get_mut(&mut self, key: u64) -> (r: Option<&mut S>)
        requires
            old(self).wf(),
        ensures
            final(self).wf(),
            match r {
                Some(v) => old(self)@.contains_key(key) && *v == old(self)@[key] && final(self)@
                    == old(self)@.insert(key, *final(v)),
                None => !old(self)@.contains_key(key) && final(self)@ == old(self)@,
            },
    {
        proof {
            lemma_map_of_contains(self.entries@, key);
        }
        let ghost s0 = self.entries@;
        match self.position(key) {
            Some(i) => {
                proof {
                    lemma_map_of_index(s0, i as int);
                }
                let e = &mut self.entries[i];
                let r = &mut e.1;
                proof {
                    lemma_map_of_update(s0, i as int, *final(r));
                    assert(keys_unique(s0.update(i as int, (key, *final(r)))));
                }
                Some(r)
            },
            None => None,
        }
    }

    /// Exclusive access to the service stored under `key`; the key must be
    /// present.
    pub fn get_mut(&mut self, key: u64) -> (r: &mut S)
        requires
            old(self).wf(),
            old(self)@.contains_key(key),
        ensures
            final(self).wf(),
            *r == old(self)@[key],
            final(self)@ == old(self)@.insert(key, *final(r)),
    {
        match self.try_get_mut(key) {
            Some(v) => v,
            None => unreached(),
        }
    }
}

} // verus!
