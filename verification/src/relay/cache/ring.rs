//! A cache of recent shreds that one owner reads and writes.
use crate::bytes::share_bytes;
use crate::reassembly::fragment::capped;
use crate::relay::cache::key::{cached_key, make_cached_shred_key, same_key, CachedShredKey};
use crate::relay::cache::{
    answer, check_request, copy_packets, expired, fit_count, in_range, packet_views, refusal,
    shared_views, CacheInsertOutcome, RelayRangeLimits, RelayRangeQueryError, RelayRangeRequest,
};
use crate::shred::ParsedShredHeader;
use crate::time::{Duration, Instant};
use std::collections::VecDeque;
use std::sync::Arc;
use vstd::prelude::*;

verus! {

/// A cached packet.
#[derive(Debug)]
pub struct CachedShred {
    key: CachedShredKey,
    seen_at: u128,
    bytes: Arc<[u8]>,
}

impl CachedShred {
    /// What tells it apart.
    pub closed spec fn key(self) -> CachedShredKey {
        self.key
    }

    /// When it was seen, and its bytes.
    pub closed spec fn cached(self) -> (u128, Seq<u8>) {
        (self.seen_at, self.bytes@)
    }

    pub(crate) fn parts(&self) -> (r: (CachedShredKey, u128, Arc<[u8]>))
        ensures
            r.0 == self.key(),
            self.cached() == (r.1, r.2@),
    {
        (self.key, self.seen_at, self.bytes.clone())
    }
}

/// Packets by key.
pub open spec fn cached_map(shreds: Seq<CachedShred>) -> Map<CachedShredKey, (u128, Seq<u8>)>
    decreases shreds.len(),
{
    if shreds.len() == 0 {
        Map::empty()
    } else {
        cached_map(shreds.drop_last()).insert(shreds.last().key(), shreds.last().cached())
    }
}

/// Whether no two packets have one key.
pub open spec fn distinct_keys(shreds: Seq<CachedShred>) -> bool {
    forall|i: int, j: int|
        0 <= i < j < shreds.len() ==> (#[trigger] shreds[i]).key() != (#[trigger] shreds[j]).key()
}

/// Each packet of a list stands under its key, and nothing else does.
pub proof fn cached_map_holds_the_list(shreds: Seq<CachedShred>)
    requires
        distinct_keys(shreds),
    ensures
        cached_map(shreds).dom().finite(),
        cached_map(shreds).len() == shreds.len(),
        forall|i: int|
            0 <= i < shreds.len() ==> {
                &&& cached_map(shreds).contains_key((#[trigger] shreds[i]).key())
                &&& cached_map(shreds)[shreds[i].key()] == shreds[i].cached()
            },
        forall|key: CachedShredKey| #[trigger]
            cached_map(shreds).contains_key(key) ==> exists|i: int|
                0 <= i < shreds.len() && (#[trigger] shreds[i]).key() == key,
    decreases shreds.len(),
{
    if shreds.len() > 0 {
        let fewer = shreds.drop_last();
        let last = shreds.last();
        assert(distinct_keys(fewer));
        cached_map_holds_the_list(fewer);
        assert(!cached_map(fewer).contains_key(last.key())) by {
            if cached_map(fewer).contains_key(last.key()) {
                let i = choose|i: int| 0 <= i < fewer.len() && (#[trigger] fewer[i]).key() == last.key();
                assert(shreds[i].key() != shreds[shreds.len() - 1].key());
            }
        }
        assert(cached_map(shreds).dom() =~= cached_map(fewer).dom().insert(last.key()));
        assert forall|i: int| 0 <= i < shreds.len() implies {
            &&& cached_map(shreds).contains_key((#[trigger] shreds[i]).key())
            &&& cached_map(shreds)[shreds[i].key()] == shreds[i].cached()
        } by {
            if i < fewer.len() {
                assert(fewer[i] == shreds[i]);
                assert(shreds[i].key() != shreds[shreds.len() - 1].key());
            }
        }
        assert forall|key: CachedShredKey| #[trigger] cached_map(shreds).contains_key(key) implies exists|i: int|
            0 <= i < shreds.len() && (#[trigger] shreds[i]).key() == key by {
            if key == last.key() {
                assert(shreds[shreds.len() - 1].key() == key);
            } else {
                let i = choose|i: int| 0 <= i < fewer.len() && (#[trigger] fewer[i]).key() == key;
                assert(shreds[i].key() == key);
            }
        }
    }
}

proof fn cached_map_without(shreds: Seq<CachedShred>, at: int)
    requires
        distinct_keys(shreds),
        0 <= at < shreds.len(),
    ensures
        distinct_keys(shreds.remove(at)),
        cached_map(shreds.remove(at)) == cached_map(shreds).remove(shreds[at].key()),
{
    let left = shreds.remove(at);
    assert forall|i: int, j: int| 0 <= i < j < left.len() implies (#[trigger] left[i]).key() != (
    #[trigger] left[j]).key() by {
        let a = if i < at {
            i
        } else {
            i + 1
        };
        let b = if j < at {
            j
        } else {
            j + 1
        };
        assert(left[i] == shreds[a] && left[j] == shreds[b]);
    }
    cached_map_holds_the_list(shreds);
    cached_map_holds_the_list(left);
    let gone = cached_map(shreds).remove(shreds[at].key());
    assert forall|key: CachedShredKey| cached_map(left).contains_key(key) <==> gone.contains_key(key) by {
        if cached_map(left).contains_key(key) {
            let i = choose|i: int| 0 <= i < left.len() && (#[trigger] left[i]).key() == key;
            let a = if i < at {
                i
            } else {
                i + 1
            };
            assert(left[i] == shreds[a]);
            if a < at {
                assert(shreds[a].key() != shreds[at].key());
            } else {
                assert(shreds[at].key() != shreds[a].key());
            }
        }
        if gone.contains_key(key) {
            let i = choose|i: int| 0 <= i < shreds.len() && (#[trigger] shreds[i]).key() == key;
            let a = if i < at {
                i
            } else {
                i - 1
            };
            assert(left[a] == shreds[i]);
        }
    }
    assert forall|key: CachedShredKey| cached_map(left).contains_key(key) implies cached_map(left)[key]
        == gone[key] by {
        let i = choose|i: int| 0 <= i < left.len() && (#[trigger] left[i]).key() == key;
        let a = if i < at {
            i
        } else {
            i + 1
        };
        assert(left[i] == shreds[a]);
        assert(cached_map(left)[left[i].key()] == left[i].cached());
        assert(cached_map(shreds)[shreds[a].key()] == shreds[a].cached());
    }
    assert(cached_map(left) =~= gone);
}

proof fn cached_map_with(shreds: Seq<CachedShred>, new: CachedShred)
    requires
        distinct_keys(shreds),
        !cached_map(shreds).contains_key(new.key()),
    ensures
        distinct_keys(shreds.push(new)),
        cached_map(shreds.push(new)) == cached_map(shreds).insert(new.key(), new.cached()),
{
    cached_map_holds_the_list(shreds);
    let grown = shreds.push(new);
    assert(grown.drop_last() =~= shreds);
    assert forall|i: int, j: int| 0 <= i < j < grown.len() implies (#[trigger] grown[i]).key() != (
    #[trigger] grown[j]).key() by {
        assert(grown[i] == shreds[i]);
        if j < shreds.len() {
            assert(grown[j] == shreds[j]);
        }
    }
}

/// A cache in specifications.
pub struct RingView {
    /// Packets by key, each with the time at which it was seen last.
    pub entries: Map<CachedShredKey, (u128, Seq<u8>)>,
    /// Every time at which a packet came, in the order of arrival.
    pub order: Seq<(u128, CachedShredKey)>,
    /// For how long a packet is kept, in nanoseconds.
    pub ttl: nat,
    /// How many packets are kept.
    pub capacity: usize,
}

impl RingView {
    /// Whether each packet stands in the order of arrival with the time at which it was seen last.
    pub open spec fn is_recorded(self) -> bool {
        forall|key: CachedShredKey| #[trigger]
            self.entries.contains_key(key) ==> self.order.contains((self.entries[key].0, key))
    }

    /// The cache after its oldest arrival was looked at and left: its packet goes, unless it was
    /// seen again since.
    pub open spec fn without_oldest(self) -> Self {
        let (seen, key) = self.order[0];
        RingView {
            entries: if self.entries.contains_key(key) && self.entries[key].0 == seen {
                self.entries.remove(key)
            } else {
                self.entries
            },
            order: self.order.skip(1),
            ..self
        }
    }

    /// The cache after the oldest arrivals left, as long as the oldest one was kept long enough
    /// or there are too many packets.
    pub open spec fn evicted(self, now: u128) -> Self
        decreases self.order.len(),
    {
        if self.order.len() == 0 {
            self
        } else if !expired(now, self.order[0].0, self.ttl) && self.entries.len() <= self.capacity {
            self
        } else {
            self.without_oldest().evicted(now)
        }
    }

    /// The cache with a packet put in.
    pub open spec fn with_packet(self, key: CachedShredKey, packet: Seq<u8>, now: u128) -> Self {
        RingView {
            entries: self.entries.insert(key, (now, packet)),
            order: self.order.push((now, key)),
            ..self
        }
    }

    /// The cache after a packet was offered.
    pub open spec fn offered(self, packet: Seq<u8>, header: ParsedShredHeader, now: u128) -> Self {
        match cached_key(packet, header) {
            Some(key) => self.evicted(now).with_packet(key, packet, now).evicted(now),
            None => self.evicted(now),
        }
    }

    /// What became of the packet that was offered.
    pub open spec fn outcome(self, packet: Seq<u8>, header: ParsedShredHeader, now: u128) -> CacheInsertOutcome {
        let first = self.evicted(now);
        let early = self.entries.len() - first.entries.len();
        match cached_key(packet, header) {
            Some(key) => {
                let second = first.with_packet(key, packet, now);
                CacheInsertOutcome {
                    inserted: !first.entries.contains_key(key),
                    replaced: first.entries.contains_key(key),
                    evicted: capped(
                        (early + second.entries.len() - second.evicted(now).entries.len()) as nat,
                    ),
                }
            },
            None => CacheInsertOutcome { inserted: false, replaced: false, evicted: early as usize },
        }
    }

    /// Whether a row of keys holds the keys in a requested range, by ascending index. Keys with
    /// one index can stand in either order.
    pub open spec fn is_row(self, request: RelayRangeRequest, row: Seq<CachedShredKey>) -> bool {
        &&& row.no_duplicates()
        &&& forall|key: CachedShredKey| #[trigger]
            row.contains(key) <==> self.entries.contains_key(key) && in_range(key, request)
        &&& forall|i: int, j: int|
            0 <= i < j < row.len() ==> (#[trigger] row[i]).5 <= (#[trigger] row[j]).5
    }

    /// The packets of a row of keys.
    pub open spec fn packets(self, row: Seq<CachedShredKey>) -> Seq<Seq<u8>> {
        row.map_values(|key: CachedShredKey| self.entries[key].1)
    }

    /// Whether a packet has a slot and an index.
    pub open spec fn has_at(self, key: CachedShredKey, slot: u64, index: u32) -> bool {
        self.entries.contains_key(key) && key.4 == slot && key.5 == index
    }

    /// Whether a packet has the highest index of a slot above `min`, and none with that index was
    /// seen later.
    pub open spec fn is_highest_above(self, key: CachedShredKey, slot: u64, min: u32) -> bool {
        &&& self.entries.contains_key(key)
        &&& key.4 == slot
        &&& key.5 > min
        &&& forall|other: CachedShredKey| #[trigger]
            self.entries.contains_key(other) && other.4 == slot && other.5 > min ==> other.5 < key.5 || (
            other.5 == key.5 && self.entries[other].0 <= self.entries[key].0)
    }
}

proof fn oldest_leaves_records(cache: RingView)
    requires
        cache.is_recorded(),
        cache.order.len() > 0,
    ensures
        cache.without_oldest().is_recorded(),
{
    let left = cache.without_oldest();
    assert forall|key: CachedShredKey| #[trigger] left.entries.contains_key(key) implies left.order.contains(
        (left.entries[key].0, key),
    ) by {
        assert(cache.entries.contains_key(key));
        let record = (cache.entries[key].0, key);
        let i = choose|i: int| 0 <= i < cache.order.len() && cache.order[i] == record;
        assert(i > 0);
        assert(left.order[i - 1] == record);
    }
}

/// A cache of recent shreds.
#[derive(Debug)]
pub struct RecentShredRingBuffer {
    entries: Vec<CachedShred>,
    order: VecDeque<(u128, CachedShredKey)>,
    ttl: Duration,
    capacity: usize,
}

impl View for RecentShredRingBuffer {
    type V = RingView;

    closed spec fn view(&self) -> RingView {
        RingView {
            entries: cached_map(self.entries@),
            order: self.order@,
            ttl: self.ttl.nanos(),
            capacity: self.capacity,
        }
    }
}

impl RecentShredRingBuffer {
    /// Whether no two packets have one key, and each stands in the order of arrival.
    pub closed spec fn well_formed(self) -> bool {
        distinct_keys(self.entries@) && self@.is_recorded()
    }

    /// A cache that keeps `capacity` packets at most, each for the span `ttl`.
    #[must_use]
    pub fn new(capacity: usize, ttl: Duration) -> (r: Self)
        ensures
            r.well_formed(),
            r@ == (RingView { entries: Map::empty(), order: Seq::empty(), ttl: ttl.nanos(), capacity }),
    {
        RecentShredRingBuffer { entries: Vec::new(), order: VecDeque::new(), ttl, capacity }
    }

    /// How many packets there are.
    #[must_use]
    pub fn len(&self) -> (r: usize)
        requires
            self.well_formed(),
        ensures
            r == self@.entries.len(),
    {
        proof {
            cached_map_holds_the_list(self.entries@);
        }
        self.entries.len()
    }

    /// Whether there are no packets.
    #[must_use]
    pub fn is_empty(&self) -> (r: bool)
        requires
            self.well_formed(),
        ensures
            r == (self@.entries.len() == 0),
    {
        self.len() == 0
    }

    fn position(&self, key: CachedShredKey) -> (r: Option<usize>)
        requires
            self.well_formed(),
        ensures
            match r {
                Some(at) => at < self.entries@.len() && self.entries@[at as int].key() == key,
                None => !self@.entries.contains_key(key),
            },
    {
        let mut i: usize = 0;
        while i < self.entries.len()
            invariant
                i <= self.entries@.len(),
                forall|k: int| 0 <= k < i ==> (#[trigger] self.entries@[k]).key() != key,
            decreases self.entries@.len() - i,
        {
            if same_key(self.entries[i].key, key) {
                return Some(i);
            }
            i += 1;
        }
        proof {
            cached_map_holds_the_list(self.entries@);
        }
        None
    }

    fn remove_at(&mut self, at: usize)
        requires
            old(self).well_formed(),
            at < old(self).entries@.len(),
        ensures
            final(self).well_formed(),
            final(self)@ == (RingView {
                entries: old(self)@.entries.remove(old(self).entries@[at as int].key()),
                ..old(self)@
            }),
            final(self).order == old(self).order,
            final(self).ttl == old(self).ttl,
            final(self).capacity == old(self).capacity,
    {
        let ghost before = self.entries@;
        proof {
            cached_map_without(before, at as int);
        }
        let ghost recorded = self@;
        let _removed = self.entries.remove(at);
        proof {
            assert forall|key: CachedShredKey| #[trigger] self@.entries.contains_key(key) implies self@.order.contains(
                (self@.entries[key].0, key),
            ) by {
                assert(recorded.entries.contains_key(key));
            }
        }
    }

    fn evict(&mut self, now: u128) -> (r: usize)
        requires
            old(self).well_formed(),
        ensures
            final(self).well_formed(),
            final(self)@ == old(self)@.evicted(now),
            r == old(self)@.entries.len() - final(self)@.entries.len(),
    {
        let ghost before = self@;
        let mut evicted: usize = 0;
        let mut settled: bool = false;
        proof {
            cached_map_holds_the_list(self.entries@);
        }
        let total: usize = self.entries.len();
        while !settled
            invariant
                self.well_formed(),
                self@.entries.dom().finite(),
                !settled ==> self@.evicted(now) == before.evicted(now),
                settled ==> self@ == before.evicted(now),
                evicted + self@.entries.len() == before.entries.len(),
                before.entries.len() == total,
            decreases self.order@.len() + (if settled {
                0int
            } else {
                1int
            }),
        {
            proof {
                cached_map_holds_the_list(self.entries@);
            }
            if self.order.len() == 0 {
                settled = true;
            } else {
                let (seen_at, key) = self.order[0];
                let seen_for: u128 = now.saturating_sub(seen_at);
                let is_expired: bool = seen_for >= self.ttl.as_nanos();
                assert(is_expired == expired(now, seen_at, self@.ttl));
                if !is_expired && self.entries.len() <= self.capacity {
                    settled = true;
                } else {
                    let ghost stage = self@;
                    let at = self.position(key);
                    let mut gone: bool = false;
                    match at {
                        Some(at) => {
                            if self.entries[at].seen_at == seen_at {
                                self.remove_at(at);
                                gone = true;
                            }
                        },
                        None => {},
                    }
                    let _oldest = self.order.pop_front();
                    if gone {
                        evicted += 1;
                    }
                    proof {
                        assert(self@.order =~= stage.order.skip(1));
                        assert(self@ == stage.without_oldest());
                        oldest_leaves_records(stage);
                    }
                }
            }
        }
        evicted
    }

    /// Offers a packet to the cache.
    pub fn insert(&mut self, packet: &[u8], parsed_shred: &ParsedShredHeader, now: Instant) -> (r:
        CacheInsertOutcome)
        requires
            old(self).well_formed(),
        ensures
            final(self).well_formed(),
            final(self)@ == old(self)@.offered(packet@, *parsed_shred, now.nanos() as u128),
            r == old(self)@.outcome(packet@, *parsed_shred, now.nanos() as u128),
            final(self)@.entries.len() <= final(self)@.capacity,
    {
        let now: u128 = now.as_nanos();
        proof {
            cache_is_recorded(*self);
            evicted_cache_fits(self@, now);
            eviction_settles(self@, now);
        }
        let early: usize = self.evict(now);
        let key: CachedShredKey = match make_cached_shred_key(packet, parsed_shred) {
            Some(key) => key,
            None => {
                return CacheInsertOutcome { inserted: false, replaced: false, evicted: early };
            },
        };
        let bytes = share_bytes(vstd::slice::slice_to_vec(packet));
        let replaced: bool = self.put(CachedShred { key, seen_at: now, bytes });
        proof {
            cache_is_recorded(*self);
            evicted_cache_fits(self@, now);
            eviction_settles(self@, now);
        }
        let late: usize = self.evict(now);
        CacheInsertOutcome { inserted: !replaced, replaced, evicted: early.saturating_add(late) }
    }

    fn put(&mut self, new: CachedShred) -> (r: bool)
        requires
            old(self).well_formed(),
        ensures
            final(self).well_formed(),
            final(self)@ == old(self)@.with_packet(new.key(), new.cached().1, new.cached().0),
            r == old(self)@.entries.contains_key(new.key()),
    {
        let ghost before = self@;
        let key: CachedShredKey = new.key;
        let seen_at: u128 = new.seen_at;
        let at = self.position(key);
        let replaced: bool = at.is_some();
        match at {
            Some(at) => {
                proof {
                    cached_map_holds_the_list(self.entries@);
                }
                self.remove_at(at);
            },
            None => {},
        }
        proof {
            cached_map_with(self.entries@, new);
        }
        self.entries.push(new);
        self.order.push_back((seen_at, key));
        proof {
            assert(self@.entries =~= before.entries.insert(key, new.cached()));
            assert(self@ == before.with_packet(key, new.cached().1, new.cached().0));
            assert forall|other: CachedShredKey| #[trigger] self@.entries.contains_key(other) implies self@.order.contains(
                (self@.entries[other].0, other),
            ) by {
                if other == key {
                    assert(self@.order[before.order.len() as int] == (seen_at, key));
                } else {
                    assert(before.entries.contains_key(other));
                    let record = (before.entries[other].0, other);
                    let i = choose|i: int| 0 <= i < before.order.len() && before.order[i] == record;
                    assert(self@.order[i] == record);
                }
            }
        }
        replaced
    }

    fn pick_range(&self, request: RelayRangeRequest) -> (r: Vec<usize>)
        requires
            self.well_formed(),
        ensures
            forall|a: int| 0 <= a < r@.len() ==> (#[trigger] r@[a]) < self.entries@.len(),
            self@.is_row(request, r@.map_values(|p: usize| self.entries@[p as int].key())),
    {
        let mut picked: Vec<usize> = Vec::new();
        let mut i: usize = 0;
        while i < self.entries.len()
            invariant
                i <= self.entries@.len(),
                forall|a: int| 0 <= a < picked@.len() ==> (#[trigger] picked@[a]) < i,
                forall|a: int|
                    0 <= a < picked@.len() ==> in_range(
                        self.entries@[(#[trigger] picked@[a]) as int].key(),
                        request,
                    ),
                forall|a: int, b: int|
                    0 <= a < b < picked@.len() ==> (#[trigger] picked@[a]) != (#[trigger] picked@[b])
                        && self.entries@[picked@[a] as int].key().5 <= self.entries@[picked@[b] as int].key().5,
                forall|e: int|
                    0 <= e < i && in_range((#[trigger] self.entries@[e]).key(), request)
                        ==> picked@.contains(e as usize),
            decreases self.entries@.len() - i,
        {
            let key: CachedShredKey = self.entries[i].key;
            let ghost before = picked@;
            if key.4 == request.slot && key.5 >= request.start_index && key.5 <= request.end_index {
                let mut at: usize = picked.len();
                while at > 0 && self.entries[picked[at - 1]].key.5 > key.5
                    invariant
                        at <= picked@.len(),
                        i < self.entries@.len(),
                        forall|a: int| 0 <= a < picked@.len() ==> (#[trigger] picked@[a]) < i,
                        forall|a: int|
                            at <= a < picked@.len() ==> self.entries@[(#[trigger] picked@[a]) as int].key().5
                                > key.5,
                    decreases at,
                {
                    at -= 1;
                }
                picked.insert(at, i);
                proof {
                    let after = picked@;
                    assert(after =~= before.insert(at as int, i));
                    assert forall|a: int, b: int| 0 <= a < b < after.len() implies (#[trigger] after[a]) != (
                    #[trigger] after[b]) && self.entries@[after[a] as int].key().5 <= self.entries@[after[b] as int].key().5 by {
                        let x = if a < at {
                            a
                        } else {
                            a - 1
                        };
                        let y = if b < at {
                            b
                        } else {
                            b - 1
                        };
                        if a == at {
                            assert(after[b] == before[y]);
                        } else if b == at {
                            assert(after[a] == before[x]);
                            if at > 0 {
                                assert(before[x] == before[x] && before[at - 1] == before[at - 1]);
                                assert(self.entries@[before[at - 1] as int].key().5 <= key.5);
                            }
                        } else {
                            assert(after[a] == before[x] && after[b] == before[y]);
                        }
                    }
                    assert forall|a: int| 0 <= a < after.len() implies (#[trigger] after[a]) < i + 1 && in_range(
                        self.entries@[after[a] as int].key(),
                        request,
                    ) by {
                        let x = if a < at {
                            a
                        } else {
                            a - 1
                        };
                        if a != at {
                            assert(after[a] == before[x]);
                        }
                    }
                    assert forall|e: int| 0 <= e < i + 1 && in_range((#[trigger] self.entries@[e]).key(), request) implies after.contains(
                        e as usize,
                    ) by {
                        if e == i {
                            assert(after[at as int] == i);
                        } else {
                            let x = choose|x: int| 0 <= x < before.len() && before[x] == e as usize;
                            if x < at {
                                assert(after[x] == before[x]);
                            } else {
                                assert(after[x + 1] == before[x]);
                            }
                        }
                    }
                }
            }
            i += 1;
        }
        proof {
            let row = picked@.map_values(|p: usize| self.entries@[p as int].key());
            cached_map_holds_the_list(self.entries@);
            assert forall|a: int, b: int| 0 <= a < row.len() && 0 <= b < row.len() && a != b implies row[a] != row[b] by {
                let (p, q) = (picked@[a] as int, picked@[b] as int);
                if a < b {
                    assert(picked@[a] != picked@[b]);
                } else {
                    assert(picked@[b] != picked@[a]);
                }
                if p < q {
                    assert(self.entries@[p].key() != self.entries@[q].key());
                } else {
                    assert(self.entries@[q].key() != self.entries@[p].key());
                }
            }
            assert forall|key: CachedShredKey| #[trigger] row.contains(key) <==> self@.entries.contains_key(key)
                && in_range(key, request) by {
                if row.contains(key) {
                    let a = choose|a: int| 0 <= a < row.len() && row[a] == key;
                    assert(self.entries@[picked@[a] as int].key() == key);
                }
                if self@.entries.contains_key(key) && in_range(key, request) {
                    let e = choose|e: int| 0 <= e < self.entries@.len() && (#[trigger] self.entries@[e]).key() == key;
                    assert(picked@.contains(e as usize));
                    let a = choose|a: int| 0 <= a < picked@.len() && picked@[a] == e as usize;
                    assert(row[a] == key);
                }
            }
            assert forall|a: int, b: int| 0 <= a < b < row.len() implies (#[trigger] row[a]).5 <= (#[trigger] row[b]).5 by {
                assert(picked@[a] != picked@[b]);
            }
        }
        picked
    }

    /// The packets of a slot from one index to another, by ascending index, as far as the limits
    /// allow.
    pub fn query_range(
        &mut self,
        request: RelayRangeRequest,
        limits: RelayRangeLimits,
        now: Instant,
    ) -> (r: Result<Vec<Vec<u8>>, RelayRangeQueryError>)
        requires
            old(self).well_formed(),
        ensures
            final(self).well_formed(),
            final(self)@ == old(self)@.evicted(now.nanos() as u128),
            match r {
                Ok(packets) => {
                    &&& refusal(request, limits) is None
                    &&& exists|row: Seq<CachedShredKey>| #[trigger]
                        final(self)@.is_row(request, row) && packet_views(packets@) == answer(
                            final(self)@.packets(row),
                            limits,
                        )
                },
                Err(error) => refusal(request, limits) == Some(error),
            },
    {
        let now: u128 = now.as_nanos();
        let _evicted: usize = self.evict(now);
        match check_request(request, limits) {
            Some(error) => {
                return Err(error);
            },
            None => {},
        }
        let picked = self.pick_range(request);
        let ghost row = picked@.map_values(|p: usize| self.entries@[p as int].key());
        let ghost packets = self@.packets(row);
        proof {
            cached_map_holds_the_list(self.entries@);
            assert forall|a: int| 0 <= a < picked@.len() implies #[trigger] packets[a]
                == self.entries@[picked@[a] as int].cached().1 by {
                assert(picked@[a] < self.entries@.len());
            }
        }
        let mut response: Vec<Arc<[u8]>> = Vec::new();
        let mut response_bytes: usize = 0;
        let mut full: bool = false;
        while !full
            invariant
                response@.len() <= picked@.len(),
                packets.len() == picked@.len(),
                forall|a: int| 0 <= a < picked@.len() ==> (#[trigger] picked@[a]) < self.entries@.len(),
                forall|a: int|
                    0 <= a < picked@.len() ==> #[trigger] packets[a] == self.entries@[picked@[a] as int].cached().1,
                forall|a: int| 0 <= a < response@.len() ==> (#[trigger] response@[a])@ == packets[a],
                !full ==> fit_count(packets, limits, response@.len(), response_bytes) == fit_count(
                    packets,
                    limits,
                    0,
                    0,
                ),
                full ==> response@.len() == fit_count(packets, limits, 0, 0),
            decreases picked@.len() - response@.len() + (if full {
                0int
            } else {
                1int
            }),
        {
            let count: usize = response.len();
            if count >= picked.len() || count >= limits.max_response_shreds {
                full = true;
            } else {
                assert(picked@[count as int] < self.entries@.len());
                let bytes = self.entries[picked[count]].bytes.clone();
                assert(bytes@ == packets[count as int]);
                let next_bytes: usize = response_bytes.saturating_add(bytes.len());
                assert(next_bytes == capped(response_bytes as nat + packets[count as int].len()));
                if next_bytes > limits.max_response_bytes {
                    full = true;
                } else {
                    response_bytes = next_bytes;
                    response.push(bytes);
                }
            }
        }
        proof {
            assert(shared_views(response@) =~= answer(packets, limits));
        }
        Ok(copy_packets(&response))
    }

    /// A packet of a slot with an index.
    #[must_use]
    pub fn query_exact(&mut self, slot: u64, index: u32, now: Instant) -> (r: Option<Vec<u8>>)
        requires
            old(self).well_formed(),
        ensures
            final(self).well_formed(),
            final(self)@ == old(self)@.evicted(now.nanos() as u128),
            match r {
                Some(packet) => exists|key: CachedShredKey| #[trigger]
                    final(self)@.has_at(key, slot, index) && packet@ == final(self)@.entries[key].1,
                None => forall|key: CachedShredKey| !#[trigger] final(self)@.has_at(key, slot, index),
            },
    {
        let _evicted: usize = self.evict(now.as_nanos());
        let mut i: usize = 0;
        while i < self.entries.len()
            invariant
                self.well_formed(),
                self@ == old(self)@.evicted(now.nanos() as u128),
                i <= self.entries@.len(),
                forall|k: int|
                    0 <= k < i ==> !((#[trigger] self.entries@[k]).key().4 == slot && self.entries@[k].key().5
                        == index),
            decreases self.entries@.len() - i,
        {
            let key: CachedShredKey = self.entries[i].key;
            if key.4 == slot && key.5 == index {
                proof {
                    cached_map_holds_the_list(self.entries@);
                    assert(self.entries@[i as int].key() == key);
                    assert(self@.has_at(key, slot, index));
                }
                return Some(vstd::slice::slice_to_vec(&self.entries[i].bytes));
            }
            i += 1;
        }
        proof {
            cached_map_holds_the_list(self.entries@);
            assert forall|key: CachedShredKey| !#[trigger] self@.has_at(key, slot, index) by {
                if self@.entries.contains_key(key) {
                    let k = choose|k: int| 0 <= k < self.entries@.len() && (#[trigger] self.entries@[k]).key() == key;
                    assert(self.entries@[k].key() == key);
                }
            }
        }
        None
    }

    /// A packet of a slot with the highest index above `min_index_exclusive`, one that was seen
    /// last.
    #[must_use]
    pub fn query_highest_above(&mut self, slot: u64, min_index_exclusive: u32, now: Instant) -> (r: Option<
        (u32, Vec<u8>),
    >)
        requires
            old(self).well_formed(),
        ensures
            final(self).well_formed(),
            final(self)@ == old(self)@.evicted(now.nanos() as u128),
            match r {
                Some((index, packet)) => exists|key: CachedShredKey| #[trigger]
                    final(self)@.is_highest_above(key, slot, min_index_exclusive) && index == key.5
                        && packet@ == final(self)@.entries[key].1,
                None => forall|key: CachedShredKey| #[trigger]
                    final(self)@.entries.contains_key(key) ==> !(key.4 == slot && key.5
                        > min_index_exclusive),
            },
    {
        let now: u128 = now.as_nanos();
        let _evicted: usize = self.evict(now);
        let mut best: Option<usize> = None;
        let mut i: usize = 0;
        while i < self.entries.len()
            invariant
                i <= self.entries@.len(),
                best matches Some(b) ==> {
                    &&& b < i
                    &&& self.entries@[b as int].key().4 == slot
                    &&& self.entries@[b as int].key().5 > min_index_exclusive
                },
                forall|k: int|
                    0 <= k < i && (#[trigger] self.entries@[k]).key().4 == slot && self.entries@[k].key().5
                        > min_index_exclusive ==> {
                        &&& best is Some
                        &&& self.entries@[k].key().5 < self.entries@[best->0 as int].key().5 || (
                        self.entries@[k].key().5 == self.entries@[best->0 as int].key().5
                            && self.entries@[k].cached().0 <= self.entries@[best->0 as int].cached().0)
                    },
            decreases self.entries@.len() - i,
        {
            let key: CachedShredKey = self.entries[i].key;
            if key.4 == slot && key.5 > min_index_exclusive {
                let better: bool = match best {
                    Some(b) => {
                        let known: CachedShredKey = self.entries[b].key;
                        key.5 > known.5 || (key.5 == known.5 && self.entries[i].seen_at >= self.entries[b].seen_at)
                    },
                    None => true,
                };
                if better {
                    best = Some(i);
                }
            }
            i += 1;
        }
        proof {
            cached_map_holds_the_list(self.entries@);
        }
        match best {
            Some(b) => {
                proof {
                    let key = self.entries@[b as int].key();
                    assert forall|other: CachedShredKey| #[trigger] self@.entries.contains_key(other) && other.4 == slot
                        && other.5 > min_index_exclusive implies other.5 < key.5 || (other.5 == key.5
                        && self@.entries[other].0 <= self@.entries[key].0) by {
                        let k = choose|k: int| 0 <= k < self.entries@.len() && (#[trigger] self.entries@[k]).key() == other;
                        assert(self.entries@[k].key() == other);
                    }
                    assert(self@.is_highest_above(key, slot, min_index_exclusive));
                }
                Some((self.entries[b].key.5, vstd::slice::slice_to_vec(&self.entries[b].bytes)))
            },
            None => {
                proof {
                    assert forall|key: CachedShredKey| #[trigger] self@.entries.contains_key(key) implies !(key.4
                        == slot && key.5 > min_index_exclusive) by {
                        let k = choose|k: int| 0 <= k < self.entries@.len() && (#[trigger] self.entries@[k]).key() == key;
                        assert(self.entries@[k].key() == key);
                    }
                }
                None
            },
        }
    }

    /// Takes the cache apart: its packets, for how long and how many of them are kept.
    pub(crate) fn into_parts(self) -> (r: (Vec<CachedShred>, Duration, usize))
        requires
            self.well_formed(),
        ensures
            distinct_keys(r.0@),
            cached_map(r.0@) == self@.entries,
            r.1.nanos() == self@.ttl,
            r.2 == self@.capacity,
    {
        (self.entries, self.ttl, self.capacity)
    }
}

/// A cache holds finitely many packets, and each of them stands in the order of arrival.
pub proof fn cache_is_recorded(cache: RecentShredRingBuffer)
    requires
        cache.well_formed(),
    ensures
        cache@.is_recorded(),
        cache@.entries.dom().finite(),
{
    cached_map_holds_the_list(cache.entries@);
}

/// After the oldest arrivals left, no more packets are there than are kept.
pub proof fn evicted_cache_fits(cache: RingView, now: u128)
    requires
        cache.is_recorded(),
        cache.entries.dom().finite(),
    ensures
        cache.evicted(now).entries.len() <= cache.capacity,
        cache.evicted(now).is_recorded(),
        cache.evicted(now).entries.dom().finite(),
    decreases cache.order.len(),
{
    if cache.order.len() == 0 {
        assert(cache.entries.dom() =~= Set::<CachedShredKey>::empty()) by {
            assert forall|key: CachedShredKey| !cache.entries.dom().contains(key) by {
                if cache.entries.contains_key(key) {
                    assert(cache.order.contains((cache.entries[key].0, key)));
                }
            }
        }
    } else if expired(now, cache.order[0].0, cache.ttl) || cache.entries.len() > cache.capacity {
        oldest_leaves_records(cache);
        evicted_cache_fits(cache.without_oldest(), now);
    }
}

/// Where packets came in the order of their times, none is left that was kept long enough.
pub proof fn evicted_cache_is_fresh(cache: RingView, now: u128)
    requires
        cache.is_recorded(),
        forall|i: int, j: int|
            0 <= i < j < cache.order.len() ==> (#[trigger] cache.order[i]).0 <= (#[trigger] cache.order[j]).0,
    ensures
        forall|key: CachedShredKey| #[trigger]
            cache.evicted(now).entries.contains_key(key) ==> !expired(
                now,
                cache.evicted(now).entries[key].0,
                cache.ttl,
            ),
    decreases cache.order.len(),
{
    if cache.order.len() == 0 {
        assert forall|key: CachedShredKey| !#[trigger] cache.entries.contains_key(key) by {
            if cache.entries.contains_key(key) {
                assert(cache.order.contains((cache.entries[key].0, key)));
            }
        }
    } else if expired(now, cache.order[0].0, cache.ttl) || cache.entries.len() > cache.capacity {
        oldest_leaves_records(cache);
        let left = cache.without_oldest();
        assert forall|i: int, j: int| 0 <= i < j < left.order.len() implies (#[trigger] left.order[i]).0 <= (
        #[trigger] left.order[j]).0 by {
            assert(left.order[i] == cache.order[i + 1] && left.order[j] == cache.order[j + 1]);
        }
        evicted_cache_is_fresh(left, now);
        assert(cache.evicted(now) == left.evicted(now));
    } else {
        assert(cache.evicted(now) == cache);
        assert forall|key: CachedShredKey| #[trigger] cache.entries.contains_key(key) implies !expired(
            now,
            cache.entries[key].0,
            cache.ttl,
        ) by {
            let record = (cache.entries[key].0, key);
            assert(cache.order.contains(record));
            let i = choose|i: int| 0 <= i < cache.order.len() && cache.order[i] == record;
            assert(cache.order[i].0 == record.0);
            if i > 0 {
                assert(cache.order[0].0 <= cache.order[i].0);
            }
        }
    }
}

proof fn evicting_again_changes_nothing(cache: RingView, now: u128)
    ensures
        cache.evicted(now).evicted(now) == cache.evicted(now),
    decreases cache.order.len(),
{
    if cache.order.len() > 0 && (expired(now, cache.order[0].0, cache.ttl) || cache.entries.len()
        > cache.capacity) {
        evicting_again_changes_nothing(cache.without_oldest(), now);
    }
}

proof fn eviction_settles(cache: RingView, now: u128)
    ensures
        cache.evicted(now).ttl == cache.ttl,
        cache.evicted(now).capacity == cache.capacity,
        cache.evicted(now).order.len() > 0 ==> !expired(now, cache.evicted(now).order[0].0, cache.ttl)
            && cache.evicted(now).entries.len() <= cache.capacity,
    decreases cache.order.len(),
{
    if cache.order.len() > 0 && (expired(now, cache.order[0].0, cache.ttl) || cache.entries.len()
        > cache.capacity) {
        eviction_settles(cache.without_oldest(), now);
    }
}

proof fn eviction_adds_nothing(cache: RingView, now: u128)
    ensures
        forall|key: CachedShredKey| #[trigger]
            cache.evicted(now).entries.contains_key(key) ==> cache.entries.contains_key(key),
    decreases cache.order.len(),
{
    if cache.order.len() > 0 && (expired(now, cache.order[0].0, cache.ttl) || cache.entries.len()
        > cache.capacity) {
        let left = cache.without_oldest();
        eviction_adds_nothing(left, now);
        assert(cache.evicted(now) == left.evicted(now));
        assert forall|key: CachedShredKey| #[trigger] cache.evicted(now).entries.contains_key(key) implies cache.entries.contains_key(
            key,
        ) by {
            assert(left.entries.contains_key(key));
        }
    }
}

proof fn newest_stays(cache: RingView, now: u128, key: CachedShredKey)
    requires
        cache.is_recorded(),
        cache.entries.dom().finite(),
        cache.capacity > 0,
        cache.ttl > 0,
        cache.order.len() > 0,
        cache.order.last() == (now, key),
        forall|i: int| 0 <= i < cache.order.len() - 1 ==> #[trigger] cache.order[i] != (now, key),
        cache.entries.contains_key(key),
        cache.entries[key].0 == now,
    ensures
        cache.evicted(now).entries.contains_key(key),
        cache.evicted(now).entries[key] == cache.entries[key],
    decreases cache.order.len(),
{
    if cache.order.len() == 1 {
        assert forall|other: CachedShredKey| #[trigger] cache.entries.contains_key(other) implies other == key by {
            assert(cache.order.contains((cache.entries[other].0, other)));
        }
        assert(cache.entries.dom() =~= Set::<CachedShredKey>::empty().insert(key));
    } else if expired(now, cache.order[0].0, cache.ttl) || cache.entries.len() > cache.capacity {
        oldest_leaves_records(cache);
        let left = cache.without_oldest();
        assert(cache.order[0] != (now, key));
        assert forall|i: int| 0 <= i < left.order.len() - 1 implies #[trigger] left.order[i] != (now, key) by {
            assert(left.order[i] == cache.order[i + 1]);
        }
        assert(left.order.last() == cache.order.last());
        newest_stays(left, now, key);
    }
}

/// A packet that was put into a cache is there to be read at that time: it stands under its key,
/// with its bytes, and answers a query for its slot and index, as does no other packet that was
/// not there before. Something is kept for some time, and what is kept when the packet comes holds
/// the packet already, or has room for it, or has no record of it from this very instant.
pub proof fn cached_packet_is_read_back(
    cache: RingView,
    packet: Seq<u8>,
    header: ParsedShredHeader,
    now: u128,
)
    requires
        cache.is_recorded(),
        cache.entries.dom().finite(),
        cache.capacity > 0,
        cache.ttl > 0,
        cached_key(packet, header) is Some,
        ({
            let key = cached_key(packet, header)->0;
            let kept = cache.evicted(now);
            ||| kept.entries.contains_key(key)
            ||| kept.entries.len() < cache.capacity
            ||| !kept.order.contains((now, key))
        }),
    ensures
        ({
            let key = cached_key(packet, header)->0;
            let after = cache.offered(packet, header, now);
            &&& after.evicted(now) == after
            &&& after.entries.contains_key(key)
            &&& after.entries[key] == (now, packet)
            &&& after.has_at(key, key.4, key.5)
            &&& forall|found: CachedShredKey| #[trigger]
                after.has_at(found, key.4, key.5) && found != key ==> cache.has_at(found, key.4, key.5)
        }),
{
    let key = cached_key(packet, header)->0;
    eviction_adds_nothing(cache, now);
    eviction_adds_nothing(cache.evicted(now).with_packet(key, packet, now), now);
    evicted_cache_fits(cache, now);
    eviction_settles(cache, now);
    let first = cache.evicted(now);
    let second = first.with_packet(key, packet, now);
    assert forall|other: CachedShredKey| #[trigger] second.entries.contains_key(other) implies second.order.contains(
        (second.entries[other].0, other),
    ) by {
        if other == key {
            assert(second.order[first.order.len() as int] == (now, key));
        } else {
            let record = (first.entries[other].0, other);
            assert(first.entries.contains_key(other));
            let i = choose|i: int| 0 <= i < first.order.len() && first.order[i] == record;
            assert(second.order[i] == record);
        }
    }
    if first.order.contains((now, key)) {
        assert(second.entries.len() <= cache.capacity);
        assert(first.order.len() > 0 && second.order[0] == first.order[0]);
        assert(second.evicted(now) == second);
    } else {
        assert forall|i: int| 0 <= i < second.order.len() - 1 implies #[trigger] second.order[i] != (now, key) by {
            assert(second.order[i] == first.order[i]);
        }
        newest_stays(second, now, key);
    }
    evicting_again_changes_nothing(second, now);
}

} // verus!
