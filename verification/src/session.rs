//! The sessions that a connect layer keeps for resumption: a bounded store
//! that gives up its oldest entry when it is full.

use vstd::prelude::*;
use crate::layer::HttpsLayerSettings;

verus! {

/// The peer that a session belongs to.
#[derive(Debug, Clone, PartialEq, Eq, Hash)]
pub struct SessionKey {
    pub host: String,
    pub port: u16,
}

impl SessionKey {
    /// The two keys name the same peer.
    pub open spec fn spec_same(self, other: SessionKey) -> bool {
        self.host@ == other.host@ && self.port == other.port
    }

    /// Whether the two keys name the same peer.
    pub fn same(&self, other: &SessionKey) -> (same: bool)
        ensures
            same == self.spec_same(*other),
    {
        self.port == other.port && self.host == other.host
    }
}

/// Whether some entry of `entries` belongs to the peer of `key`.
pub open spec fn spec_holds<S>(entries: Seq<(SessionKey, S)>, key: SessionKey) -> bool {
    exists|i: int| 0 <= i < entries.len() && (#[trigger] entries[i]).0.spec_same(key)
}

/// The position of an entry of `entries` that belongs to the peer of `key`.
pub open spec fn spec_position<S>(entries: Seq<(SessionKey, S)>, key: SessionKey) -> int {
    choose|i: int| 0 <= i < entries.len() && (#[trigger] entries[i]).0.spec_same(key)
}

/// No two entries belong to the same peer.
pub open spec fn spec_distinct<S>(entries: Seq<(SessionKey, S)>) -> bool {
    forall|i: int, j: int|
        0 <= i < j < entries.len() ==> !(#[trigger] entries[i]).0.spec_same(
            (#[trigger] entries[j]).0,
        )
}

/// `entries` without the entry of the peer of `key`, if it holds one.
pub open spec fn spec_without<S>(entries: Seq<(SessionKey, S)>, key: SessionKey) -> Seq<
    (SessionKey, S),
> {
    if spec_holds(entries, key) {
        entries.remove(spec_position(entries, key))
    } else {
        entries
    }
}

/// `entries` after a session was put in for a peer: an older session of the
/// same peer is gone; if there is no room left, so is the oldest entry; the
/// new entry is the youngest. A store without capacity stays empty.
pub open spec fn spec_insert<S>(
    entries: Seq<(SessionKey, S)>,
    capacity: nat,
    key: SessionKey,
    session: S,
) -> Seq<(SessionKey, S)> {
    if capacity == 0 {
        entries
    } else {
        let kept = spec_without(entries, key);
        let room = if kept.len() >= capacity {
            kept.drop_first()
        } else {
            kept
        };
        room.push((key, session))
    }
}

/// A bounded store of sessions, oldest first, with one session per peer.
#[derive(Debug)]
pub struct SessionCache<S> {
    entries: Vec<(SessionKey, S)>,
    capacity: usize,
}

impl<S> View for SessionCache<S> {
    type V = Seq<(SessionKey, S)>;

    closed spec fn view(&self) -> Seq<(SessionKey, S)> {
        self.entries@
    }
}

impl<S> SessionCache<S> {
    #[verifier::type_invariant]
    spec fn well_formed(self) -> bool {
        self.entries@.len() <= self.capacity && spec_distinct(self.entries@)
    }

    /// How many sessions the store holds at most.
    pub closed spec fn spec_capacity(self) -> nat {
        self.capacity as nat
    }

    /// An empty store for at most `capacity` sessions.
    pub fn with_capacity(capacity: usize) -> (cache: SessionCache<S>)
        ensures
            cache@ == Seq::<(SessionKey, S)>::empty(),
            cache.spec_capacity() == capacity,
    {
        SessionCache { entries: Vec::new(), capacity }
    }

    /// The store of a connect layer: none unless the layer caches sessions,
    /// else an empty store of the layer's capacity.
    pub fn for_layer(settings: HttpsLayerSettings) -> (cache: Option<SessionCache<S>>)
        ensures
            cache is Some <==> settings.session_cache,
            cache matches Some(store) ==> store@ == Seq::<(SessionKey, S)>::empty()
                && store.spec_capacity() == settings.session_cache_capacity,
    {
        if settings.session_cache {
            Some(SessionCache::with_capacity(settings.session_cache_capacity))
        } else {
            None
        }
    }

    /// How many sessions the store holds at most.
    pub fn capacity(&self) -> (capacity: usize)
        ensures
            capacity == self.spec_capacity(),
    {
        self.capacity
    }

    /// How many sessions the store holds: never more than its capacity.
    pub fn len(&self) -> (len: usize)
        ensures
            len == self@.len(),
            len <= self.spec_capacity(),
            spec_distinct(self@),
    {
        proof {
            use_type_invariant(self);
        }
        self.entries.len()
    }

    fn position(&self, key: &SessionKey) -> (at: Option<usize>)
        ensures
            at is Some <==> spec_holds(self@, *key),
            at matches Some(i) ==> i == spec_position(self@, *key) && i < self@.len(),
    {
        proof {
            use_type_invariant(self);
        }
        let mut i: usize = 0;
        while i < self.entries.len()
            invariant
                i <= self.entries.len(),
                spec_distinct(self.entries@),
                forall|k: int| 0 <= k < i ==> !(#[trigger] self.entries@[k]).0.spec_same(*key),
            decreases self.entries.len() - i,
        {
            if self.entries[i].0.same(key) {
                proof {
                    let found = spec_position(self@, *key);
                    assert(self.entries@[i as int].0.spec_same(*key));
                    if found < i {
                        assert(!self.entries@[found].0.spec_same(self.entries@[i as int].0));
                    } else if found > i {
                        assert(!self.entries@[i as int].0.spec_same(self.entries@[found].0));
                    }
                }
                return Some(i);
            }
            i += 1;
        }
        None
    }

    /// The session kept for the peer of `key`, if there is one.
    pub fn get(&self, key: &SessionKey) -> (session: Option<&S>)
        ensures
            session is Some <==> spec_holds(self@, *key),
            session matches Some(found) ==> *found == self@[spec_position(self@, *key)].1,
    {
        match self.position(key) {
            Some(i) => Some(&self.entries[i].1),
            None => None,
        }
    }

    /// Takes the session kept for the peer of `key` out of the store.
    pub fn remove(&mut self, key: &SessionKey) -> (session: Option<S>)
        ensures
            final(self)@ == spec_without(old(self)@, *key),
            final(self).spec_capacity() == old(self).spec_capacity(),
            session is Some <==> spec_holds(old(self)@, *key),
            session matches Some(taken) ==> taken == old(self)@[spec_position(old(self)@, *key)].1,
            !spec_holds(final(self)@, *key),
    {
        proof {
            use_type_invariant(&*self);
        }
        match self.position(key) {
            Some(i) => {
                let mut entries: Vec<(SessionKey, S)> = Vec::new();
                std::mem::swap(&mut self.entries, &mut entries);
                let entry = entries.remove(i);
                proof {
                    lemma_remove_keeps_distinct(old(self).entries@, i as int);
                    lemma_without_lacks(old(self).entries@, *key);
                }
                std::mem::swap(&mut self.entries, &mut entries);
                Some(entry.1)
            },
            None => None,
        }
    }

    /// Puts a session in for the peer of `key`. An older session of the same
    /// peer is replaced; if the store is full, its oldest entry makes room. A
    /// store without capacity keeps nothing.
    pub fn insert(&mut self, key: SessionKey, session: S)
        ensures
            final(self)@ == spec_insert(old(self)@, old(self).spec_capacity(), key, session),
            final(self).spec_capacity() == old(self).spec_capacity(),
            final(self)@.len() <= final(self).spec_capacity(),
            final(self).spec_capacity() > 0 ==> final(self)@.last() == (key, session),
            final(self).spec_capacity() > 0 ==> spec_holds(final(self)@, key),
    {
        proof {
            use_type_invariant(&*self);
        }
        if self.capacity == 0 {
            return ;
        }
        let ghost before = self.entries@;
        let found = self.position(&key);
        let mut entries: Vec<(SessionKey, S)> = Vec::new();
        std::mem::swap(&mut self.entries, &mut entries);
        match found {
            Some(i) => {
                entries.remove(i);
                proof {
                    lemma_remove_keeps_distinct(before, i as int);
                }
            },
            None => {},
        }
        let ghost kept = entries@;
        proof {
            lemma_without_lacks(before, key);
            assert(kept == spec_without(before, key));
        }
        if entries.len() >= self.capacity {
            entries.remove(0);
            proof {
                lemma_remove_keeps_distinct(kept, 0);
                assert(kept.remove(0) =~= kept.drop_first());
            }
        }
        let ghost room = entries@;
        proof {
            assert forall|k: int| 0 <= k < room.len() implies !(#[trigger] room[k]).0.spec_same(
                key,
            ) by {
                if room.len() == kept.len() {
                    assert(room[k] == kept[k]);
                } else {
                    assert(room[k] == kept[k + 1]);
                }
            }
        }
        entries.push((key, session));
        proof {
            let after = entries@;
            assert(after[after.len() - 1] == (key, session));
            assert(after[after.len() - 1].0.spec_same(key));
            assert forall|i: int, j: int| 0 <= i < j < after.len() implies !(
            #[trigger] after[i]).0.spec_same((#[trigger] after[j]).0) by {
                assert(after[i] == room[i]);
                if j < room.len() {
                    assert(after[j] == room[j]);
                }
            }
        }
        std::mem::swap(&mut self.entries, &mut entries);
    }
}

/// Taking one entry out leaves the others distinct.
pub proof fn lemma_remove_keeps_distinct<S>(entries: Seq<(SessionKey, S)>, at: int)
    requires
        spec_distinct(entries),
        0 <= at < entries.len(),
    ensures
        spec_distinct(entries.remove(at)),
{
    let rest = entries.remove(at);
    assert forall|i: int, j: int| 0 <= i < j < rest.len() implies !(#[trigger] rest[i]).0.spec_same(
        (#[trigger] rest[j]).0,
    ) by {
        let from_i = if i < at {
            i
        } else {
            i + 1
        };
        let from_j = if j < at {
            j
        } else {
            j + 1
        };
        assert(rest[i] == entries[from_i]);
        assert(rest[j] == entries[from_j]);
    }
}

/// Among distinct entries, what is left without a peer's entry holds none of that peer.
pub proof fn lemma_without_lacks<S>(entries: Seq<(SessionKey, S)>, key: SessionKey)
    requires
        spec_distinct(entries),
    ensures
        !spec_holds(spec_without(entries, key), key),
{
    if spec_holds(entries, key) {
        let at = spec_position(entries, key);
        let rest = entries.remove(at);
        assert forall|k: int| 0 <= k < rest.len() implies !(#[trigger] rest[k]).0.spec_same(key) by {
            let from = if k < at {
                k
            } else {
                k + 1
            };
            assert(rest[k] == entries[from]);
            if entries[from].0.spec_same(key) {
                if from < at {
                    assert(!entries[from].0.spec_same(entries[at].0));
                } else {
                    assert(!entries[at].0.spec_same(entries[from].0));
                }
            }
        }
    }
}

} // verus!
