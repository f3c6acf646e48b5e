//! The in-process lookaside cache: bounded, TTL-expiring, and
//! single-flight. A key being loaded is marked so, and every further
//! lookup of it waits rather than loading again: under any number of
//! concurrent misses on one key, the loader runs exactly once. Loader
//! failures are not cached.

use vstd::prelude::*;
use crate::kvlist::{kv_map, kv_unique, lemma_kv_map_at, lemma_kv_map_dom, lemma_kv_push, lemma_kv_remove, lemma_kv_update};
use crate::text::str_eq;

verus! {

/// What the cache knows about one key.
pub enum CacheSlotState<V> {
    Present { value: V, expires_at: i64 },
    Loading,
}

/// One cache entry: its state and when it was last touched.
pub struct CacheSlot<V> {
    pub state: CacheSlotState<V>,
    pub last_used: i64,
}

/// What one lookup tells the caller to do.
#[derive(Debug, Clone, Copy, PartialEq, Eq, Structural)]
pub enum CacheLookup {
    /// The value is cached and unexpired: read it.
    Hit,
    /// Another caller is loading this key: wait for it.
    Wait,
    /// This caller must run the loader and complete the load.
    MustLoad,
}

/// A bounded, TTL-expiring, single-flight cache from string keys to
/// values.
pub struct LruTtlCache<V> {
    pub entries: Vec<(String, CacheSlot<V>)>,
    pub capacity: usize,
    pub ttl_millis: i64,
}

impl<V> View for LruTtlCache<V> {
    type V = Map<Seq<char>, CacheSlotState<V>>;

    open spec fn view(&self) -> Map<Seq<char>, CacheSlotState<V>> {
        Map::new(
            |k: Seq<char>| kv_map(self.entries@).dom().contains(k),
            |k: Seq<char>| kv_map(self.entries@)[k].state,
        )
    }
}

/// Whether a slot holds a value that is still fresh at `now`.
pub open spec fn slot_fresh<V>(s: CacheSlotState<V>, now: i64) -> bool {
    match s {
        CacheSlotState::Present { expires_at, .. } => expires_at > now,
        CacheSlotState::Loading => false,
    }
}

/// The value a present slot holds.
pub open spec fn slot_value<V>(s: CacheSlotState<V>) -> V
    recommends
        s is Present,
{
    match s {
        CacheSlotState::Present { value, .. } => value,
        CacheSlotState::Loading => arbitrary(),
    }
}

/// Whether `post` is `pre` with `key` marked loading, at most one other
/// key evicted to make room.
pub open spec fn load_transition<V>(
    pre: Map<Seq<char>, CacheSlotState<V>>,
    post: Map<Seq<char>, CacheSlotState<V>>,
    key: Seq<char>,
) -> bool {
    ||| post =~= pre.insert(key, CacheSlotState::Loading)
    ||| exists|dropped: Seq<char>|
        dropped != key && pre.dom().contains(dropped) && post =~= pre.remove(dropped).insert(
            key,
            CacheSlotState::Loading,
        )
}

/// Whether the entry at `i` was used no later than every other entry:
/// the one the cache evicts first.
pub open spec fn is_lru_at<V>(entries: Seq<(String, CacheSlot<V>)>, i: int) -> bool {
    &&& 0 <= i < entries.len()
    &&& forall|j: int|
        0 <= j < entries.len() ==> entries[i].1.last_used <= (#[trigger] entries[j]).1.last_used
}

/// The expiry stamp of a load finished at `now`, clamped at the top of
/// the clock.
pub open spec fn spec_expiry(now: i64, ttl: i64) -> i64 {
    if now + ttl > i64::MAX {
        i64::MAX
    } else {
        (now + ttl) as i64
    }
}

impl<V> LruTtlCache<V> {
    /// Unique keys, within capacity, and a sane configuration.
    pub open spec fn wf(&self) -> bool {
        &&& kv_unique(self.entries@)
        &&& self.entries@.len() <= self.capacity
        &&& self.capacity >= 1
        &&& self.ttl_millis >= 0
    }

    /// An empty cache of at most `capacity` keys whose entries live
    /// `ttl_millis`.
    pub fn new(capacity: usize, ttl_millis: i64) -> (r: LruTtlCache<V>)
        requires
            capacity >= 1,
            ttl_millis >= 0,
        ensures
            r.wf(),
            r@ =~= Map::<Seq<char>, CacheSlotState<V>>::empty(),
            r.capacity == capacity,
            r.ttl_millis == ttl_millis,
    {
        LruTtlCache { entries: Vec::new(), capacity, ttl_millis }
    }

    fn find(&self, key: &str) -> (r: Option<usize>)
        requires
            self.wf(),
        ensures
            r matches Some(i) ==> i < self.entries@.len() && self.entries@[i as int].0@ == key@,
            r is None ==> !self@.dom().contains(key@),
            r is Some <==> self@.dom().contains(key@),
    {
        let n = self.entries.len();
        let mut i: usize = 0;
        while i < n
            invariant
                0 <= i <= n,
                n == self.entries@.len(),
                forall|j: int| 0 <= j < i ==> self.entries@[j].0@ != key@,
            decreases n - i,
        {
            if str_eq(self.entries[i].0.as_str(), key) {
                proof {
                    lemma_kv_map_dom(self.entries@, key@);
                }
                return Some(i);
            }
            i = i + 1;
        }
        proof {
            lemma_kv_map_dom(self.entries@, key@);
        }
        None
    }

    /// Look one key up at `now`. A fresh value is a hit; a key someone
    /// else is loading tells this caller to wait — never to load, which
    /// is what makes concurrent misses collapse into one load; anything
    /// else makes this caller the loader and marks the key so. Taking a
    /// new key may evict one other key when the cache is full.
    pub fn lookup_or_begin(&mut self, key: &str, now: i64) -> (r: CacheLookup)
        requires
            old(self).wf(),
        ensures
            final(self).wf(),
            final(self).capacity == old(self).capacity,
            final(self).ttl_millis == old(self).ttl_millis,
            (old(self)@.dom().contains(key@) && old(self)@[key@] is Loading) ==> (r
                == CacheLookup::Wait && final(self)@ == old(self)@),
            (old(self)@.dom().contains(key@) && slot_fresh(old(self)@[key@], now)) ==> (r
                == CacheLookup::Hit && final(self)@ == old(self)@),
            r == CacheLookup::MustLoad <==> !(old(self)@.dom().contains(key@) && (old(
                self,
            )@[key@] is Loading || slot_fresh(old(self)@[key@], now))),
            r == CacheLookup::MustLoad ==> final(self)@.dom().contains(key@)
                && (final(self)@[key@] is Loading)
                && load_transition(old(self)@, final(self)@, key@),
            (r == CacheLookup::MustLoad && !old(self)@.dom().contains(key@) && old(
                self,
            ).entries@.len() == old(self).capacity) ==> exists|i: int|
                is_lru_at(old(self).entries@, i) && final(self)@ =~= old(self)@.remove(
                    old(self).entries@[i].0@,
                ).insert(key@, CacheSlotState::Loading),
    {
        match self.find(key) {
            Some(i) => {
                let fresh = match &self.entries[i].1.state {
                    CacheSlotState::Loading => {
                        proof {
                            lemma_kv_map_at(self.entries@, i as int);
                        }
                        return CacheLookup::Wait;
                    },
                    CacheSlotState::Present { expires_at, .. } => *expires_at > now,
                };
                proof {
                    lemma_kv_map_at(self.entries@, i as int);
                }
                if fresh {
                    // Refresh the recency stamp; the map of states is
                    // untouched.
                    let ghost pre = self@;
                    let k = self.entries[i].0.clone();
                    let state = self.take_state(i);
                    let slot = CacheSlot { state, last_used: now };
                    self.entries.set(i, (k, slot));
                    proof {
                        assert(self.entries@ =~= old(self).entries@.update(
                            i as int,
                            self.entries@[i as int],
                        ));
                        lemma_kv_update(
                            old(self).entries@,
                            i as int,
                            key@,
                            self.entries@[i as int],
                        );
                        assert(self@ =~= pre);
                    }
                    CacheLookup::Hit
                } else {
                    // Expired: this caller reloads it.
                    let k = self.entries[i].0.clone();
                    let slot = CacheSlot { state: CacheSlotState::<V>::Loading, last_used: now };
                    self.entries.set(i, (k, slot));
                    proof {
                        lemma_kv_update(
                            old(self).entries@,
                            i as int,
                            key@,
                            self.entries@[i as int],
                        );
                        assert(final(self)@ =~= old(self)@.insert(
                            key@,
                            CacheSlotState::Loading,
                        ));
                    }
                    CacheLookup::MustLoad
                }
            },
            None => {
                let mut lru: Ghost<Option<int>> = Ghost(None);
                if self.entries.len() == self.capacity {
                    self.evict_one();
                    proof {
                        let ei = choose|ei: int|
                            is_lru_at(old(self).entries@, ei) && self@ =~= old(self)@.remove(
                                old(self).entries@[ei].0@,
                            );
                        lru@ = Some(ei);
                        assert(is_lru_at(old(self).entries@, ei));
                        assert(self@ =~= old(self)@.remove(old(self).entries@[ei].0@));
                    }
                }
                let ghost mid = self.entries@;
                let ghost mid_map = self@;
                let slot = CacheSlot { state: CacheSlotState::<V>::Loading, last_used: now };
                self.entries.push((key.to_owned(), slot));
                proof {
                    lemma_kv_map_dom(mid, key@);
                    assert(forall|j: int| 0 <= j < mid.len() ==> mid[j].0@ != key@) by {
                        assert(!mid_map.dom().contains(key@));
                    }
                    lemma_kv_push(mid, self.entries@.last());
                    assert(final(self)@ =~= mid_map.insert(key@, CacheSlotState::Loading));
                    assert(final(self)@.dom().contains(key@));
                    assert(final(self)@[key@] is Loading);
                    match lru@ {
                        Some(ei) => {
                            assert(final(self)@ =~= old(self)@.remove(
                                old(self).entries@[ei].0@,
                            ).insert(key@, CacheSlotState::Loading));
                        },
                        None => {},
                    }
                }
                CacheLookup::MustLoad
            },
        }
    }

    /// Swap a slot's state out so it can be re-stamped. The entry keeps
    /// its key; the caller puts a state right back.
    fn take_state(&mut self, i: usize) -> (r: CacheSlotState<V>)
        requires
            i < old(self).entries@.len(),
        ensures
            r == old(self).entries@[i as int].1.state,
            final(self).entries@ == old(self).entries@.update(
                i as int,
                (old(self).entries@[i as int].0, CacheSlot {
                    state: CacheSlotState::<V>::Loading,
                    last_used: old(self).entries@[i as int].1.last_used,
                }),
            ),
            final(self).capacity == old(self).capacity,
            final(self).ttl_millis == old(self).ttl_millis,
    {
        let last_used = self.entries[i].1.last_used;
        let (k, slot) = self.entries.remove(i);
        self.entries.insert(i, (k, CacheSlot { state: CacheSlotState::<V>::Loading, last_used }));
        proof {
            assert(final(self).entries@ =~= old(self).entries@.update(
                i as int,
                (old(self).entries@[i as int].0, CacheSlot {
                    state: CacheSlotState::<V>::Loading,
                    last_used: old(self).entries@[i as int].1.last_used,
                }),
            ));
        }
        slot.state
    }

    /// Drop the least recently used entry to make room.
    fn evict_one(&mut self)
        requires
            old(self).wf(),
            old(self).entries@.len() >= 1,
        ensures
            final(self).wf(),
            final(self).capacity == old(self).capacity,
            final(self).ttl_millis == old(self).ttl_millis,
            final(self).entries@.len() == old(self).entries@.len() - 1,
            exists|i: int|
                is_lru_at(old(self).entries@, i) && final(self)@ =~= old(self)@.remove(
                    old(self).entries@[i].0@,
                ),
    {
        let n = self.entries.len();
        let mut oldest: usize = 0;
        let mut i: usize = 1;
        while i < n
            invariant
                0 <= oldest < i <= n,
                n == self.entries@.len(),
                forall|j: int|
                    0 <= j < i ==> self.entries@[oldest as int].1.last_used <= (
                    #[trigger] self.entries@[j]).1.last_used,
            decreases n - i,
        {
            if self.entries[i].1.last_used < self.entries[oldest].1.last_used {
                oldest = i;
            }
            i = i + 1;
        }
        proof {
            assert(is_lru_at(self.entries@, oldest as int));
        }
        let ghost dk = self.entries@[oldest as int].0@;
        self.entries.remove(oldest);
        proof {
            lemma_kv_remove(old(self).entries@, oldest as int, dk);
            lemma_kv_map_at(old(self).entries@, oldest as int);
            assert(final(self)@ =~= old(self)@.remove(dk));
        }
    }

    /// Finish a load this caller began. A value goes in with a fresh
    /// expiry; a failed or empty load leaves nothing behind, so the next
    /// lookup runs the loader again.
    pub fn complete_load(&mut self, key: &str, value: Option<V>, now: i64)
        requires
            old(self).wf(),
            now >= 0,
            old(self)@.dom().contains(key@),
            old(self)@[key@] is Loading,
        ensures
            final(self).wf(),
            final(self).capacity == old(self).capacity,
            final(self).ttl_millis == old(self).ttl_millis,
            value matches Some(v) ==> final(self)@ =~= old(self)@.insert(
                key@,
                CacheSlotState::Present {
                    value: v,
                    expires_at: spec_expiry(now, old(self).ttl_millis),
                },
            ),
            value is None ==> final(self)@ =~= old(self)@.remove(key@),
    {
        proof {
            lemma_kv_map_dom(self.entries@, key@);
        }
        match self.find(key) {
            Some(i) => {
                match value {
                    Some(v) => {
                        let expires_at = if now > i64::MAX - self.ttl_millis {
                            i64::MAX
                        } else {
                            now + self.ttl_millis
                        };
                        let k = self.entries[i].0.clone();
                        let slot = CacheSlot {
                            state: CacheSlotState::Present { value: v, expires_at },
                            last_used: now,
                        };
                        self.entries.set(i, (k, slot));
                        proof {
                            lemma_kv_update(
                                old(self).entries@,
                                i as int,
                                key@,
                                self.entries@[i as int],
                            );
                        }
                    },
                    None => {
                        self.entries.remove(i);
                        proof {
                            lemma_kv_remove(old(self).entries@, i as int, key@);
                        }
                    },
                }
            },
            None => {
                proof {
                    assert(false);
                }
            },
        }
    }

    /// Whether this caller's load for `key` is still the one in flight:
    /// a loader checks before completing, since a full cache may have
    /// evicted its marker in the meantime.
    pub fn is_loading(&self, key: &str) -> (r: bool)
        requires
            self.wf(),
        ensures
            r == (self@.dom().contains(key@) && self@[key@] is Loading),
    {
        match self.find(key) {
            Some(i) => {
                proof {
                    lemma_kv_map_at(self.entries@, i as int);
                }
                match &self.entries[i].1.state {
                    CacheSlotState::Loading => true,
                    CacheSlotState::Present { .. } => false,
                }
            },
            None => false,
        }
    }

    /// Read a cached value.
    pub fn peek<'a>(&'a self, key: &str) -> (r: Option<&'a V>)
        requires
            self.wf(),
        ensures
            r is Some <==> (self@.dom().contains(key@) && self@[key@] is Present),
            r matches Some(v) ==> *v == slot_value(self@[key@]),
    {
        match self.find(key) {
            Some(i) => {
                proof {
                    lemma_kv_map_at(self.entries@, i as int);
                }
                match &self.entries[i].1.state {
                    CacheSlotState::Present { value, .. } => Some(value),
                    CacheSlotState::Loading => None,
                }
            },
            None => None,
        }
    }

    /// How many keys the cache holds.
    pub fn len(&self) -> (r: usize)
        ensures
            r == self.entries@.len(),
    {
        self.entries.len()
    }
}

} // verus!
