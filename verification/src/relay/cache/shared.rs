//! A cache of recent shreds over ordered maps: packets by key, the order in which they were seen,
//! and where in their slots they belong.
use crate::bytes::share_bytes;
use crate::reassembly::fragment::capped;
use crate::relay::cache::key::{cached_key, key_less, make_cached_shred_key, CachedShredKey};
use crate::relay::cache::ring::{
    cached_map, cached_map_holds_the_list, distinct_keys, CachedShred, RecentShredRingBuffer,
};
use crate::relay::cache::{
    answer, check_request, copy_packets, expired, fit_count, in_range, packet_views, refusal,
    shared_views, CacheInsertOutcome, RelayRangeLimits, RelayRangeQueryError, RelayRangeRequest,
};
use crate::shred::ParsedShredHeader;
use crate::time::{Duration, Instant};
use crossbeam_skiplist::SkipMap;
use std::sync::Arc;
use vstd::prelude::*;

verus! {

/// The ordered map of `crossbeam_skiplist`.
#[verifier::external_type_specification]
#[verifier::external_body]
#[verifier::reject_recursive_types(K)]
#[verifier::reject_recursive_types(V)]
pub struct ExSkipMap<K, V>(SkipMap<K, V>);

/// A key with two numbers in front, by which it is ordered first.
pub type IndexKey = (u128, u32, CachedShredKey);

/// Whether an index key comes before another one.
pub open spec fn index_less(a: IndexKey, b: IndexKey) -> bool {
    if a.0 != b.0 {
        a.0 < b.0
    } else if a.1 != b.1 {
        a.1 < b.1
    } else {
        key_less(a.2, b.2)
    }
}

/// Whether index keys stand in ascending order.
pub open spec fn keys_ascend(keys: Seq<IndexKey>) -> bool {
    forall|i: int, j: int|
        0 <= i < j < keys.len() ==> index_less(#[trigger] keys[i], #[trigger] keys[j])
}

/// Whether a list holds the index keys of a set from `low` to `high` and no others.
pub open spec fn are_keys_between(
    keys: Seq<IndexKey>,
    all: Set<IndexKey>,
    low: IndexKey,
    high: IndexKey,
) -> bool {
    forall|key: IndexKey| #[trigger]
        keys.contains(key) <==> all.contains(key) && !index_less(key, low) && !index_less(high, key)
}

/// The packets that a map holds, with the time at which each was seen.
pub uninterp spec fn held_packets(map: SkipMap<CachedShredKey, (u128, Arc<[u8]>)>) -> Map<
    CachedShredKey,
    (u128, Seq<u8>),
>;

/// The index keys that a map holds.
pub uninterp spec fn held_keys(map: SkipMap<IndexKey, ()>) -> Set<IndexKey>;

/// Makes a map through `SkipMap::new`: it is empty.
#[verifier::external_body]
fn new_packet_map() -> (r: SkipMap<CachedShredKey, (u128, Arc<[u8]>)>)
    ensures
        held_packets(r).dom() == Set::<CachedShredKey>::empty(),
{
    SkipMap::new()
}

/// Puts a packet in through `SkipMap::insert`: it stands under its key, in place of one that stood
/// there before, and all others stay.
#[verifier::external_body]
fn put_packet(
    map: &mut SkipMap<CachedShredKey, (u128, Arc<[u8]>)>,
    key: CachedShredKey,
    seen: u128,
    bytes: Arc<[u8]>,
)
    ensures
        held_packets(*final(map)) == held_packets(*old(map)).insert(key, (seen, bytes@)),
{
    let _entry = map.insert(key, (seen, bytes));
}

/// Takes a packet out through `SkipMap::remove` and hands it back, if one stood under the key; all
/// others stay.
#[verifier::external_body]
fn take_packet(map: &mut SkipMap<CachedShredKey, (u128, Arc<[u8]>)>, key: CachedShredKey) -> (r: Option<
    (u128, Arc<[u8]>),
>)
    ensures
        held_packets(*final(map)) == held_packets(*old(map)).remove(key),
        match r {
            Some(packet) => held_packets(*old(map)).contains_key(key) && held_packets(*old(map))[key] == (
                packet.0,
                packet.1@,
            ),
            None => !held_packets(*old(map)).contains_key(key),
        },
{
    map.remove(&key).map(|entry| entry.value().clone())
}

/// Looks a packet up through `SkipMap::get`.
#[verifier::external_body]
fn find_packet(map: &SkipMap<CachedShredKey, (u128, Arc<[u8]>)>, key: CachedShredKey) -> (r: Option<
    (u128, Arc<[u8]>),
>)
    ensures
        match r {
            Some(packet) => held_packets(*map).contains_key(key) && held_packets(*map)[key] == (
                packet.0,
                packet.1@,
            ),
            None => !held_packets(*map).contains_key(key),
        },
{
    map.get(&key).map(|entry| entry.value().clone())
}

/// Makes a map of index keys through `SkipMap::new`: it is empty.
#[verifier::external_body]
fn new_key_map() -> (r: SkipMap<IndexKey, ()>)
    ensures
        held_keys(r) == Set::<IndexKey>::empty(),
{
    SkipMap::new()
}

/// Puts an index key in through `SkipMap::insert`; all others stay.
#[verifier::external_body]
fn put_key(map: &mut SkipMap<IndexKey, ()>, key: IndexKey)
    ensures
        held_keys(*final(map)) == held_keys(*old(map)).insert(key),
{
    let _entry = map.insert(key, ());
}

/// Takes an index key out through `SkipMap::remove`, if it is there; all others stay.
#[verifier::external_body]
fn drop_key(map: &mut SkipMap<IndexKey, ()>, key: IndexKey)
    ensures
        held_keys(*final(map)) == held_keys(*old(map)).remove(key),
{
    let _entry = map.remove(&key);
}

/// Finds the least index key through `SkipMap::front`, if there is any.
#[verifier::external_body]
fn first_key(map: &SkipMap<IndexKey, ()>) -> (r: Option<IndexKey>)
    ensures
        match r {
            Some(key) => held_keys(*map).contains(key) && forall|other: IndexKey| #[trigger]
                held_keys(*map).contains(other) ==> !index_less(other, key),
            None => held_keys(*map) == Set::<IndexKey>::empty(),
        },
{
    map.front().map(|entry| *entry.key())
}

/// Lists the index keys from `low` to `high`, in ascending order, through `SkipMap::range`.
#[verifier::external_body]
fn keys_between(map: &SkipMap<IndexKey, ()>, low: IndexKey, high: IndexKey) -> (r: Vec<IndexKey>)
    requires
        !index_less(high, low),
    ensures
        are_keys_between(r@, held_keys(*map), low, high),
        keys_ascend(r@),
{
    map.range(low..=high).map(|entry| *entry.key()).collect()
}

/// Whether a packet was seen before another one; of two seen at one time, the one with the lesser
/// key counts.
pub open spec fn seen_before(
    entries: Map<CachedShredKey, (u128, Seq<u8>)>,
    a: CachedShredKey,
    b: CachedShredKey,
) -> bool {
    entries[a].0 < entries[b].0 || (entries[a].0 == entries[b].0 && key_less(a, b))
}

/// The packets that were seen after a given one.
pub open spec fn seen_after(entries: Map<CachedShredKey, (u128, Seq<u8>)>, key: CachedShredKey) -> Set<
    CachedShredKey,
> {
    entries.dom().filter(|other: CachedShredKey| seen_before(entries, key, other))
}

/// A shared cache in specifications.
pub struct SharedView {
    /// Packets by key, each with the time at which it was seen last.
    pub entries: Map<CachedShredKey, (u128, Seq<u8>)>,
    /// For how long a packet is kept, in nanoseconds.
    pub ttl: nat,
    /// How many packets are kept.
    pub capacity: usize,
}

impl SharedView {
    /// Whether a packet stays: it was not kept long enough yet, and fewer packets were seen after
    /// it than are kept.
    pub open spec fn stays(self, key: CachedShredKey, now: u128) -> bool {
        &&& !expired(now, self.entries[key].0, self.ttl)
        &&& seen_after(self.entries, key).len() < self.capacity
    }

    /// The cache with only the packets that stay.
    pub open spec fn evicted(self, now: u128) -> Self {
        SharedView {
            entries: self.entries.restrict(Set::new(|key: CachedShredKey| self.stays(key, now))),
            ..self
        }
    }

    /// The cache with a packet put in.
    pub open spec fn with_packet(self, key: CachedShredKey, packet: Seq<u8>, now: u128) -> Self {
        SharedView { entries: self.entries.insert(key, (now, packet)), ..self }
    }

    /// The cache after a packet was offered.
    pub open spec fn offered(self, packet: Seq<u8>, header: ParsedShredHeader, now: u128) -> Self {
        match cached_key(packet, header) {
            Some(key) => self.evicted(now).with_packet(key, packet, now).evicted(now),
            None => self.evicted(now),
        }
    }

    /// What became of the packet that was offered.
    pub open spec fn outcome(self, packet: Seq<u8>, header: ParsedShredHeader, now: u128) -> CacheInsertOutcome {
        let first = self.evicted(now);
        let early = self.entries.len() - first.entries.len();
        match cached_key(packet, header) {
            Some(key) => {
                let second = first.with_packet(key, packet, now);
                CacheInsertOutcome {
                    inserted: !first.entries.contains_key(key),
                    replaced: first.entries.contains_key(key),
                    evicted: capped(
                        (early + second.entries.len() - second.evicted(now).entries.len()) as nat,
                    ),
                }
            },
            None => CacheInsertOutcome { inserted: false, replaced: false, evicted: early as usize },
        }
    }

    /// Whether a row of keys holds the keys in a requested range, by ascending index; keys with
    /// one index stand in their own order.
    pub open spec fn is_row(self, request: RelayRangeRequest, row: Seq<CachedShredKey>) -> bool {
        &&& forall|key: CachedShredKey| #[trigger]
            row.contains(key) <==> self.entries.contains_key(key) && in_range(key, request)
        &&& forall|i: int, j: int|
            0 <= i < j < row.len() ==> (#[trigger] row[i]).5 < (#[trigger] row[j]).5 || (row[i].5 == row[j].5
                && key_less(row[i], row[j]))
    }

    /// The packets of a row of keys.
    pub open spec fn packets(self, row: Seq<CachedShredKey>) -> Seq<Seq<u8>> {
        row.map_values(|key: CachedShredKey| self.entries[key].1)
    }

    /// Whether a packet has a slot and an index.
    pub open spec fn has_at(self, key: CachedShredKey, slot: u64, index: u32) -> bool {
        self.entries.contains_key(key) && key.4 == slot && key.5 == index
    }

    /// Whether a packet is the one of its slot and index that was seen last; of those seen at one
    /// time, the one with the least key.
    pub open spec fn is_latest_at(self, key: CachedShredKey, slot: u64, index: u32) -> bool {
        &&& self.has_at(key, slot, index)
        &&& forall|other: CachedShredKey| #[trigger]
            self.has_at(other, slot, index) ==> self.entries[other].0 < self.entries[key].0 || (
            self.entries[other].0 == self.entries[key].0 && !key_less(other, key))
    }

    /// Whether a packet of a slot has an index above `min`.
    pub open spec fn has_above(self, key: CachedShredKey, slot: u64, min: u32) -> bool {
        self.entries.contains_key(key) && key.4 == slot && key.5 > min
    }

    /// Whether a packet is the one with the highest index of a slot above `min` that was seen last;
    /// of those seen at one time, the one with the greatest key.
    pub open spec fn is_highest_above(self, key: CachedShredKey, slot: u64, min: u32) -> bool {
        &&& self.has_above(key, slot, min)
        &&& forall|other: CachedShredKey| #[trigger]
            self.has_above(other, slot, min) ==> other.5 < key.5 || (other.5 == key.5 && (
            self.entries[other].0 < self.entries[key].0 || (self.entries[other].0 == self.entries[key].0
                && !key_less(key, other))))
    }
}

/// A cache of recent shreds over ordered maps.
#[derive(Debug)]
pub struct SharedRelayCache {
    entries: SkipMap<CachedShredKey, (u128, Arc<[u8]>)>,
    order: SkipMap<IndexKey, ()>,
    slot_index: SkipMap<IndexKey, ()>,
    ttl: Duration,
    capacity: usize,
    len: usize,
}

spec fn ordered_keys(entries: Map<CachedShredKey, (u128, Seq<u8>)>) -> Set<IndexKey> {
    Set::new(|at: IndexKey| at.1 == 0 && entries.contains_key(at.2) && entries[at.2].0 == at.0)
}

spec fn placed_keys(entries: Map<CachedShredKey, (u128, Seq<u8>)>) -> Set<IndexKey> {
    Set::new(|at: IndexKey| entries.contains_key(at.2) && at.0 == at.2.4 && at.1 == at.2.5)
}

impl View for SharedRelayCache {
    type V = SharedView;

    closed spec fn view(&self) -> SharedView {
        SharedView {
            entries: held_packets(self.entries),
            ttl: self.ttl.nanos(),
            capacity: self.capacity,
        }
    }
}

impl SharedRelayCache {
    /// Whether both orders hold the keys of the packets and no others, and the packets are
    /// counted.
    pub closed spec fn well_formed(self) -> bool {
        &&& self@.entries.dom().finite()
        &&& held_keys(self.order) == ordered_keys(self@.entries)
        &&& held_keys(self.slot_index) == placed_keys(self@.entries)
        &&& self.len == self@.entries.len()
    }

    /// Takes over the packets of a cache.
    #[must_use]
    pub fn new(cache: RecentShredRingBuffer) -> (r: Self)
        requires
            cache.well_formed(),
        ensures
            r.well_formed(),
            r@ == (SharedView {
                entries: cache@.entries,
                ttl: cache@.ttl,
                capacity: cache@.capacity,
            }),
    {
        let (shreds, ttl, capacity) = cache.into_parts();
        let mut shared = SharedRelayCache {
            entries: new_packet_map(),
            order: new_key_map(),
            slot_index: new_key_map(),
            ttl,
            capacity,
            len: 0,
        };
        let mut i: usize = 0;
        proof {
            assert(shared@.entries =~= Map::<CachedShredKey, (u128, Seq<u8>)>::empty());
            assert(shreds@.take(0) =~= Seq::<CachedShred>::empty());
            assert(held_keys(shared.order) =~= ordered_keys(shared@.entries));
            assert(held_keys(shared.slot_index) =~= placed_keys(shared@.entries));
        }
        while i < shreds.len()
            invariant
                i <= shreds@.len(),
                distinct_keys(shreds@),
                shared.well_formed(),
                shared@.ttl == ttl.nanos(),
                shared@.capacity == capacity,
                shared@.entries == cached_map(shreds@.take(i as int)),
                shared@.entries.len() == i,
            decreases shreds@.len() - i,
        {
            let (key, seen, bytes) = shreds[i].parts();
            proof {
                let longer = shreds@.take(i + 1);
                assert(longer.drop_last() =~= shreds@.take(i as int));
                assert(longer.last() == shreds@[i as int]);
                assert(distinct_keys(longer));
                assert(distinct_keys(longer.drop_last()));
                cached_map_holds_the_list(longer);
                cached_map_holds_the_list(longer.drop_last());
                if cached_map(longer.drop_last()).contains_key(key) {
                    let k = choose|k: int|
                        0 <= k < longer.drop_last().len() && (#[trigger] longer.drop_last()[k]).key() == key;
                    assert(longer[k].key() != longer[i as int].key());
                }
            }
            shared.add_new(key, seen, bytes);
            i += 1;
        }
        proof {
            assert(shreds@.take(i as int) =~= shreds@);
        }
        shared
    }

    fn add_new(&mut self, key: CachedShredKey, seen: u128, bytes: Arc<[u8]>)
        requires
            old(self).well_formed(),
            !old(self)@.entries.contains_key(key),
            old(self)@.entries.len() < usize::MAX,
        ensures
            final(self).well_formed(),
            final(self)@ == old(self)@.with_packet(key, bytes@, seen),
            final(self)@.entries.len() == old(self)@.entries.len() + 1,
    {
        put_packet(&mut self.entries, key, seen, bytes);
        put_key(&mut self.order, (seen, 0, key));
        put_key(&mut self.slot_index, (key.4 as u128, key.5, key));
        self.len += 1;
        proof {
            assert(held_keys(self.order) =~= ordered_keys(self@.entries));
            assert(held_keys(self.slot_index) =~= placed_keys(self@.entries));
            assert(self@.entries.dom() =~= old(self)@.entries.dom().insert(key));
        }
    }

    fn drop_packet(&mut self, key: CachedShredKey, seen: u128)
        requires
            old(self).well_formed(),
            old(self)@.entries.contains_key(key),
            old(self)@.entries[key].0 == seen,
        ensures
            final(self).well_formed(),
            final(self)@ == (SharedView { entries: old(self)@.entries.remove(key), ..old(self)@ }),
            final(self)@.entries.len() == old(self)@.entries.len() - 1,
    {
        proof {
            assert(self@.entries.dom().len() > 0) by {
                assert(self@.entries.dom().contains(key));
                vstd::set_lib::lemma_len_subset(
                    Set::<CachedShredKey>::empty().insert(key),
                    self@.entries.dom(),
                );
            }
        }
        drop_key(&mut self.order, (seen, 0, key));
        let _packet = take_packet(&mut self.entries, key);
        drop_key(&mut self.slot_index, (key.4 as u128, key.5, key));
        self.len -= 1;
        proof {
            assert(held_keys(self.order) =~= ordered_keys(self@.entries));
            assert(held_keys(self.slot_index) =~= placed_keys(self@.entries));
            assert(self@.entries.dom() =~= old(self)@.entries.dom().remove(key));
        }
    }

    /// How many packets there are.
    #[must_use]
    pub fn len(&self) -> (r: usize)
        requires
            self.well_formed(),
        ensures
            r == self@.entries.len(),
    {
        self.len
    }

    /// Whether there are no packets.
    #[must_use]
    pub fn is_empty(&self) -> (r: bool)
        requires
            self.well_formed(),
        ensures
            r == (self@.entries.len() == 0),
    {
        self.len() == 0
    }

    fn evict(&mut self, now: u128) -> (r: usize)
        requires
            old(self).well_formed(),
        ensures
            final(self).well_formed(),
            final(self)@ == old(self)@.evicted(now),
            r == old(self)@.entries.len() - final(self)@.entries.len(),
    {
        let ghost before = self@;
        let total: usize = self.len;
        let mut evicted: usize = 0;
        let mut settled: bool = false;
        while !settled
            invariant
                self.well_formed(),
                before.entries.dom().finite(),
                before.entries.len() == total,
                self@.ttl == before.ttl,
                self@.capacity == before.capacity,
                evicted + self@.entries.len() == total,
                forall|key: CachedShredKey| #[trigger]
                    self@.entries.contains_key(key) ==> before.entries.contains_key(key)
                        && self@.entries[key] == before.entries[key],
                forall|gone: CachedShredKey, kept: CachedShredKey|
                    before.entries.contains_key(gone) && !#[trigger] self@.entries.contains_key(gone)
                        && #[trigger] self@.entries.contains_key(kept) ==> seen_before(
                        before.entries,
                        gone,
                        kept,
                    ),
                forall|gone: CachedShredKey|
                    before.entries.contains_key(gone) && !#[trigger] self@.entries.contains_key(gone)
                        ==> !before.stays(gone, now),
                settled ==> forall|key: CachedShredKey| #[trigger]
                    self@.entries.contains_key(key) ==> !expired(now, self@.entries[key].0, self@.ttl)
                        && self@.entries.len() <= self@.capacity,
            decreases self@.entries.len() + (if settled {
                0int
            } else {
                1int
            }),
        {
            match first_key(&self.order) {
                None => {
                    settled = true;
                    assert forall|key: CachedShredKey| !#[trigger] self@.entries.contains_key(key) by {
                        if self@.entries.contains_key(key) {
                            assert(ordered_keys(self@.entries).contains((self@.entries[key].0, 0u32, key)));
                        }
                    }
                },
                Some(front) => {
                    let (seen_at, _zero, key) = front;
                    proof {
                        assert(ordered_keys(self@.entries).contains(front));
                        assert forall|other: CachedShredKey| #[trigger] self@.entries.contains_key(other) && other
                            != key implies seen_before(self@.entries, key, other) by {
                            let at = (self@.entries[other].0, 0u32, other);
                            assert(ordered_keys(self@.entries).contains(at));
                            assert(held_keys(self.order).contains(at));
                            assert(!index_less(at, front));
                        }
                    }
                    let is_expired: bool = now.saturating_sub(seen_at) >= self.ttl.as_nanos();
                    assert(is_expired == expired(now, seen_at, self@.ttl));
                    if !is_expired && self.len <= self.capacity {
                        settled = true;
                    } else {
                        let ghost stage = self@;
                        self.drop_packet(key, seen_at);
                        evicted += 1;
                        proof {
                            if !is_expired {
                                let later = seen_after(before.entries, key);
                                let others = stage.entries.dom().remove(key);
                                assert forall|other: CachedShredKey| #[trigger] others.contains(other) implies later.contains(
                                    other,
                                ) by {
                                    assert(stage.entries.contains_key(other));
                                    assert(seen_before(stage.entries, key, other));
                                }
                                vstd::set_lib::lemma_len_subset(others, later);
                            }
                            assert(!before.stays(key, now));
                            assert forall|gone: CachedShredKey, kept: CachedShredKey|
                                before.entries.contains_key(gone) && !#[trigger] self@.entries.contains_key(gone)
                                    && #[trigger] self@.entries.contains_key(kept) implies seen_before(
                                before.entries,
                                gone,
                                kept,
                            ) by {
                                assert(stage.entries.contains_key(kept));
                                if stage.entries.contains_key(gone) {
                                    assert(gone == key);
                                    assert(seen_before(stage.entries, key, kept));
                                }
                            }
                        }
                    }
                },
            }
        }
        proof {
            let goal = before.evicted(now);
            assert forall|key: CachedShredKey| #[trigger] self@.entries.contains_key(key) implies before.stays(key, now) by {
                let later = seen_after(before.entries, key);
                let others = self@.entries.dom().remove(key);
                assert forall|other: CachedShredKey| #[trigger] later.contains(other) implies others.contains(other) by {
                    if !self@.entries.contains_key(other) {
                        assert(seen_before(before.entries, other, key));
                    }
                }
                vstd::set_lib::lemma_len_subset(later, others);
            }
            assert(self@.entries =~= goal.entries);
        }
        evicted
    }

    /// Offers a packet to the cache.
    pub fn insert(&mut self, packet: &[u8], parsed_shred: &ParsedShredHeader, now: Instant) -> (r:
        CacheInsertOutcome)
        requires
            old(self).well_formed(),
            old(self)@.entries.len() < usize::MAX,
        ensures
            final(self).well_formed(),
            final(self)@ == old(self)@.offered(packet@, *parsed_shred, now.nanos() as u128),
            r == old(self)@.outcome(packet@, *parsed_shred, now.nanos() as u128),
            final(self)@.entries.len() <= final(self)@.capacity,
    {
        let now: u128 = now.as_nanos();
        proof {
            evicted_shared_cache_fits(self@, now);
        }
        let early: usize = self.evict(now);
        let key: CachedShredKey = match make_cached_shred_key(packet, parsed_shred) {
            Some(key) => key,
            None => {
                return CacheInsertOutcome { inserted: false, replaced: false, evicted: early };
            },
        };
        let ghost first = self@;
        let mut replaced: bool = false;
        if let Some(previous) = find_packet(&self.entries, key) {
            replaced = true;
            self.drop_packet(key, previous.0);
        }
        let bytes = share_bytes(vstd::slice::slice_to_vec(packet));
        self.add_new(key, now, bytes);
        proof {
            assert(self@.entries =~= first.with_packet(key, packet@, now).entries);
        }
        proof {
            evicted_shared_cache_fits(self@, now);
        }
        let late: usize = self.evict(now);
        CacheInsertOutcome { inserted: !replaced, replaced, evicted: early.saturating_add(late) }
    }

    fn keys_in_range(&self, slot: u64, start_index: u32, end_index: u32) -> (r: Vec<CachedShredKey>)
        requires
            self.well_formed(),
            start_index <= end_index,
        ensures
            self@.is_row(RelayRangeRequest { slot, start_index, end_index }, r@),
    {
        let low = slot_index_range_start(slot, start_index);
        let high = slot_index_range_end(slot, end_index);
        let found = keys_between(&self.slot_index, low, high);
        let ghost request = RelayRangeRequest { slot, start_index, end_index };
        let mut row: Vec<CachedShredKey> = Vec::with_capacity(found.len());
        let mut i: usize = 0;
        while i < found.len()
            invariant
                i <= found@.len(),
                row@.len() == i,
                forall|k: int| 0 <= k < i ==> #[trigger] row@[k] == found@[k].2,
            decreases found@.len() - i,
        {
            row.push(found[i].2);
            i += 1;
        }
        proof {
            assert forall|k: int| 0 <= k < found@.len() implies placed_keys(self@.entries).contains(
                #[trigger] found@[k],
            ) && in_range(found@[k].2, request) by {
                assert(found@.contains(found@[k]));
                least_and_greatest_key(found@[k].2);
            }
            assert forall|key: CachedShredKey| #[trigger] row@.contains(key) <==> self@.entries.contains_key(key)
                && in_range(key, request) by {
                if row@.contains(key) {
                    let k = choose|k: int| 0 <= k < row@.len() && row@[k] == key;
                    assert(found@[k].2 == key);
                }
                if self@.entries.contains_key(key) && in_range(key, request) {
                    let at = (key.4 as u128, key.5, key);
                    assert(placed_keys(self@.entries).contains(at));
                    least_and_greatest_key(key);
                    assert(found@.contains(at));
                    let k = choose|k: int| 0 <= k < found@.len() && found@[k] == at;
                    assert(row@[k] == key);
                }
            }
            assert forall|i: int, j: int| 0 <= i < j < row@.len() implies (#[trigger] row@[i]).5 < (
            #[trigger] row@[j]).5 || (row@[i].5 == row@[j].5 && key_less(row@[i], row@[j])) by {
                assert(index_less(found@[i], found@[j]));
            }
        }
        row
    }

    /// The packets of a slot from one index to another, by ascending index, as far as the limits
    /// allow.
    pub fn query_range(
        &mut self,
        request: RelayRangeRequest,
        limits: RelayRangeLimits,
        now: Instant,
    ) -> (r: Result<Vec<Vec<u8>>, RelayRangeQueryError>)
        requires
            old(self).well_formed(),
        ensures
            final(self).well_formed(),
            final(self)@ == old(self)@.evicted(now.nanos() as u128),
            match r {
                Ok(packets) => {
                    &&& refusal(request, limits) is None
                    &&& exists|row: Seq<CachedShredKey>| #[trigger]
                        final(self)@.is_row(request, row) && packet_views(packets@) == answer(
                            final(self)@.packets(row),
                            limits,
                        )
                },
                Err(error) => refusal(request, limits) == Some(error),
            },
    {
        match self.query_range_shared(request, limits, now) {
            Ok(response) => Ok(copy_packets(&response)),
            Err(error) => Err(error),
        }
    }

    /// The packets of a slot from one index to another, by ascending index, as far as the limits
    /// allow, without copying them.
    pub fn query_range_shared(
        &mut self,
        request: RelayRangeRequest,
        limits: RelayRangeLimits,
        now: Instant,
    ) -> (r: Result<Vec<Arc<[u8]>>, RelayRangeQueryError>)
        requires
            old(self).well_formed(),
        ensures
            final(self).well_formed(),
            final(self)@ == old(self)@.evicted(now.nanos() as u128),
            match r {
                Ok(packets) => {
                    &&& refusal(request, limits) is None
                    &&& exists|row: Seq<CachedShredKey>| #[trigger]
                        final(self)@.is_row(request, row) && shared_views(packets@) == answer(
                            final(self)@.packets(row),
                            limits,
                        )
                },
                Err(error) => refusal(request, limits) == Some(error),
            },
    {
        let _evicted: usize = self.evict(now.as_nanos());
        match check_request(request, limits) {
            Some(error) => {
                return Err(error);
            },
            None => {},
        }
        let row = self.keys_in_range(request.slot, request.start_index, request.end_index);
        let ghost packets = self@.packets(row@);
        let mut response: Vec<Arc<[u8]>> = Vec::new();
        let mut response_bytes: usize = 0;
        let mut full: bool = false;
        while !full
            invariant
                self@.is_row(request, row@),
                packets == self@.packets(row@),
                response@.len() <= row@.len(),
                forall|a: int| 0 <= a < response@.len() ==> (#[trigger] response@[a])@ == packets[a],
                !full ==> fit_count(packets, limits, response@.len(), response_bytes) == fit_count(
                    packets,
                    limits,
                    0,
                    0,
                ),
                full ==> response@.len() == fit_count(packets, limits, 0, 0),
            decreases row@.len() - response@.len() + (if full {
                0int
            } else {
                1int
            }),
        {
            let count: usize = response.len();
            if count >= row.len() || count >= limits.max_response_shreds {
                full = true;
            } else {
                proof {
                    assert(row@.contains(row@[count as int]));
                }
                match find_packet(&self.entries, row[count]) {
                    Some((_seen, bytes)) => {
                        assert(bytes@ == packets[count as int]);
                        let next_bytes: usize = response_bytes.saturating_add(bytes.len());
                        assert(next_bytes == capped(response_bytes as nat + packets[count as int].len()));
                        if next_bytes > limits.max_response_bytes {
                            full = true;
                        } else {
                            response_bytes = next_bytes;
                            response.push(bytes);
                        }
                    },
                    None => {
                        assert(false);
                    },
                }
            }
        }
        proof {
            assert(shared_views(response@) =~= answer(packets, limits));
        }
        Ok(response)
    }

    /// The packet of a slot with an index that was seen last.
    #[must_use]
    pub fn query_exact(&mut self, slot: u64, index: u32, now: Instant) -> (r: Option<Vec<u8>>)
        requires
            old(self).well_formed(),
        ensures
            final(self).well_formed(),
            final(self)@ == old(self)@.evicted(now.nanos() as u128),
            match r {
                Some(packet) => exists|key: CachedShredKey| #[trigger]
                    final(self)@.is_latest_at(key, slot, index) && packet@ == final(self)@.entries[key].1,
                None => forall|key: CachedShredKey| !#[trigger] final(self)@.has_at(key, slot, index),
            },
    {
        match self.query_exact_shared(slot, index, now) {
            Some(bytes) => Some(vstd::slice::slice_to_vec(&bytes)),
            None => None,
        }
    }

    /// The packet of a slot with an index that was seen last, without copying it.
    #[must_use]
    pub fn query_exact_shared(&mut self, slot: u64, index: u32, now: Instant) -> (r: Option<Arc<[u8]>>)
        requires
            old(self).well_formed(),
        ensures
            final(self).well_formed(),
            final(self)@ == old(self)@.evicted(now.nanos() as u128),
            match r {
                Some(packet) => exists|key: CachedShredKey| #[trigger]
                    final(self)@.is_latest_at(key, slot, index) && packet@ == final(self)@.entries[key].1,
                None => forall|key: CachedShredKey| !#[trigger] final(self)@.has_at(key, slot, index),
            },
    {
        let _evicted: usize = self.evict(now.as_nanos());
        let row = self.keys_in_range(slot, index, index);
        let ghost request = RelayRangeRequest { slot, start_index: index, end_index: index };
        let mut best: Option<(usize, u128, Arc<[u8]>)> = None;
        let mut i: usize = 0;
        while i < row.len()
            invariant
                i <= row@.len(),
                request == (RelayRangeRequest { slot, start_index: index, end_index: index }),
                self@.is_row(request, row@),
                i > 0 ==> best is Some,
                best matches Some((at, seen, bytes)) ==> {
                    &&& at < i
                    &&& self@.entries[row@[at as int]] == (seen, bytes@)
                    &&& forall|k: int|
                        0 <= k < i ==> self@.entries[#[trigger] row@[k]].0 < seen || (
                        self@.entries[row@[k]].0 == seen && k >= at)
                },
            decreases row@.len() - i,
        {
            proof {
                assert(row@.contains(row@[i as int]));
            }
            match find_packet(&self.entries, row[i]) {
                Some((seen, bytes)) => {
                    let later: bool = match &best {
                        Some((_at, known, _bytes)) => seen > *known,
                        None => true,
                    };
                    if later {
                        best = Some((i, seen, bytes));
                    }
                },
                None => {
                    assert(false);
                },
            }
            i += 1;
        }
        match best {
            Some((at, _seen, bytes)) => {
                proof {
                    let key = row@[at as int];
                    assert(row@.contains(key));
                    assert forall|other: CachedShredKey| #[trigger] self@.has_at(other, slot, index) implies self@.entries[other].0
                        < self@.entries[key].0 || (self@.entries[other].0 == self@.entries[key].0 && !key_less(
                        other,
                        key,
                    )) by {
                        assert(in_range(other, request));
                        assert(row@.contains(other));
                        let k = choose|k: int| 0 <= k < row@.len() && row@[k] == other;
                        if k > at {
                            assert(key_less(row@[at as int], row@[k]));
                            order_is_total(key, other);
                        } else {
                            assert(k <= at);
                            order_is_total(key, other);
                        }
                    }
                    assert(self@.is_latest_at(key, slot, index));
                }
                Some(bytes)
            },
            None => {
                proof {
                    assert forall|key: CachedShredKey| !#[trigger] self@.has_at(key, slot, index) by {
                        if self@.has_at(key, slot, index) {
                            assert(in_range(key, request));
                            assert(row@.contains(key));
                        }
                    }
                }
                None
            },
        }
    }

    /// The packet with the highest index of a slot above `min_index_exclusive` that was seen last.
    #[must_use]
    pub fn query_highest_above(&mut self, slot: u64, min_index_exclusive: u32, now: Instant) -> (r: Option<
        (u32, Vec<u8>),
    >)
        requires
            old(self).well_formed(),
        ensures
            final(self).well_formed(),
            final(self)@ == old(self)@.evicted(now.nanos() as u128),
            match r {
                Some((index, packet)) => exists|key: CachedShredKey| #[trigger]
                    final(self)@.is_highest_above(key, slot, min_index_exclusive) && index == key.5
                        && packet@ == final(self)@.entries[key].1,
                None => forall|key: CachedShredKey| !#[trigger]
                    final(self)@.has_above(key, slot, min_index_exclusive),
            },
    {
        match self.query_highest_above_shared(slot, min_index_exclusive, now) {
            Some((index, bytes)) => Some((index, vstd::slice::slice_to_vec(&bytes))),
            None => None,
        }
    }

    /// The packet with the highest index of a slot above `min_index_exclusive` that was seen last,
    /// without copying it.
    #[must_use]
    pub fn query_highest_above_shared(&mut self, slot: u64, min_index_exclusive: u32, now: Instant) -> (r: Option<
        (u32, Arc<[u8]>),
    >)
        requires
            old(self).well_formed(),
        ensures
            final(self).well_formed(),
            final(self)@ == old(self)@.evicted(now.nanos() as u128),
            match r {
                Some((index, packet)) => exists|key: CachedShredKey| #[trigger]
                    final(self)@.is_highest_above(key, slot, min_index_exclusive) && index == key.5
                        && packet@ == final(self)@.entries[key].1,
                None => forall|key: CachedShredKey| !#[trigger]
                    final(self)@.has_above(key, slot, min_index_exclusive),
            },
    {
        let _evicted: usize = self.evict(now.as_nanos());
        if min_index_exclusive == u32::MAX {
            return None;
        }
        let first: u32 = min_index_exclusive + 1;
        let row = self.keys_in_range(slot, first, u32::MAX);
        let ghost request = RelayRangeRequest { slot, start_index: first, end_index: u32::MAX };
        if row.len() == 0 {
            proof {
                assert forall|key: CachedShredKey| !#[trigger] self@.has_above(key, slot, min_index_exclusive) by {
                    if self@.has_above(key, slot, min_index_exclusive) {
                        assert(in_range(key, request));
                        assert(row@.contains(key));
                    }
                }
            }
            return None;
        }
        let top: u32 = row[row.len() - 1].5;
        let mut best: Option<(usize, u128, Arc<[u8]>)> = None;
        let mut i: usize = row.len();
        while i > 0 && row[i - 1].5 == top
            invariant
                i <= row@.len(),
                row@.len() > 0,
                top == row@[row@.len() - 1].5,
                self@.is_row(request, row@),
                i < row@.len() ==> best is Some,
                best matches Some((at, seen, bytes)) ==> {
                    &&& i <= at < row@.len()
                    &&& row@[at as int].5 == top
                    &&& self@.entries[row@[at as int]] == (seen, bytes@)
                    &&& forall|k: int|
                        i <= k < row@.len() ==> self@.entries[#[trigger] row@[k]].0 < seen || (
                        self@.entries[row@[k]].0 == seen && k <= at)
                },
            decreases i,
        {
            i -= 1;
            proof {
                assert(row@.contains(row@[i as int]));
            }
            match find_packet(&self.entries, row[i]) {
                Some((seen, bytes)) => {
                    let later: bool = match &best {
                        Some((_at, known, _bytes)) => seen > *known,
                        None => true,
                    };
                    if later {
                        best = Some((i, seen, bytes));
                    }
                },
                None => {
                    assert(false);
                },
            }
        }
        match best {
            Some((at, _seen, bytes)) => {
                proof {
                    let key = row@[at as int];
                    assert(row@.contains(key));
                    assert forall|other: CachedShredKey| #[trigger] self@.has_above(other, slot, min_index_exclusive) implies other.5
                        < key.5 || (other.5 == key.5 && (self@.entries[other].0 < self@.entries[key].0 || (
                    self@.entries[other].0 == self@.entries[key].0 && !key_less(key, other)))) by {
                        assert(in_range(other, request));
                        assert(row@.contains(other));
                        let k = choose|k: int| 0 <= k < row@.len() && row@[k] == other;
                        if k < row@.len() - 1 {
                            assert(row@[k].5 <= row@[row@.len() - 1].5);
                        }
                        if k < i {
                            if k < i - 1 {
                                assert(row@[k].5 <= row@[i - 1].5);
                            }
                            assert(row@[i - 1].5 != top);
                            if i - 1 < row@.len() - 1 {
                                assert(row@[i - 1].5 <= row@[row@.len() - 1].5);
                            }
                        } else {
                            if k < at {
                                assert(row@[k].5 <= row@[at as int].5);
                                assert(row@[k].5 < row@[at as int].5 || key_less(row@[k], row@[at as int]));
                            }
                            order_is_total(key, other);
                        }
                    }
                    assert(self@.is_highest_above(key, slot, min_index_exclusive));
                }
                Some((top, bytes))
            },
            None => {
                assert(false);
                None
            },
        }
    }
}

/// The least index key of an index in a slot.
fn slot_index_range_start(slot: u64, index: u32) -> (r: IndexKey)
    ensures
        r == (slot as u128, index, (0u128, 0u128, 0u128, 0u128, 0u64, 0u32, 0u32, 0u16, 0u8)),
{
    (slot as u128, index, (0, 0, 0, 0, 0, 0, 0, 0, 0))
}

/// The greatest index key of an index in a slot.
fn slot_index_range_end(slot: u64, index: u32) -> (r: IndexKey)
    ensures
        r == (
            slot as u128,
            index,
            (
                u128::MAX,
                u128::MAX,
                u128::MAX,
                u128::MAX,
                u64::MAX,
                u32::MAX,
                u32::MAX,
                u16::MAX,
                u8::MAX,
            ),
        ),
{
    (
        slot as u128,
        index,
        (
            u128::MAX,
            u128::MAX,
            u128::MAX,
            u128::MAX,
            u64::MAX,
            u32::MAX,
            u32::MAX,
            u16::MAX,
            u8::MAX,
        ),
    )
}

proof fn least_and_greatest_key(key: CachedShredKey)
    ensures
        !key_less(key, (0u128, 0u128, 0u128, 0u128, 0u64, 0u32, 0u32, 0u16, 0u8)),
        !key_less(
            (
                u128::MAX,
                u128::MAX,
                u128::MAX,
                u128::MAX,
                u64::MAX,
                u32::MAX,
                u32::MAX,
                u16::MAX,
                u8::MAX,
            ),
            key,
        ),
{
}

proof fn order_is_total(a: CachedShredKey, b: CachedShredKey)
    ensures
        a != b ==> key_less(a, b) || key_less(b, a),
        !(key_less(a, b) && key_less(b, a)),
{
}

spec fn is_first_seen(
    entries: Map<CachedShredKey, (u128, Seq<u8>)>,
    keys: Set<CachedShredKey>,
    key: CachedShredKey,
) -> bool {
    &&& keys.contains(key)
    &&& forall|other: CachedShredKey| #[trigger]
        keys.contains(other) && other != key ==> seen_before(entries, key, other)
}

proof fn first_seen_exists(
    entries: Map<CachedShredKey, (u128, Seq<u8>)>,
    keys: Set<CachedShredKey>,
)
    requires
        keys.finite(),
        keys.len() > 0,
    ensures
        exists|key: CachedShredKey| is_first_seen(entries, keys, key),
    decreases keys.len(),
{
    let some = keys.choose();
    let rest = keys.remove(some);
    if rest.len() == 0 {
        assert(rest =~= Set::<CachedShredKey>::empty());
        assert forall|other: CachedShredKey| #[trigger] keys.contains(other) && other != some implies seen_before(
            entries,
            some,
            other,
        ) by {
            assert(rest.contains(other));
        }
        assert(is_first_seen(entries, keys, some));
    } else {
        first_seen_exists(entries, rest);
        let low = choose|key: CachedShredKey| is_first_seen(entries, rest, key);
        order_is_total(some, low);
        let best = if seen_before(entries, some, low) {
            some
        } else {
            low
        };
        assert forall|other: CachedShredKey| #[trigger] keys.contains(other) && other != best implies seen_before(
            entries,
            best,
            other,
        ) by {
            if other != some {
                assert(rest.contains(other));
            }
            assert(rest.contains(low));
        }
        assert(is_first_seen(entries, keys, best));
    }
}

/// A shared cache holds finitely many packets.
pub proof fn shared_cache_is_finite(cache: SharedRelayCache)
    requires
        cache.well_formed(),
    ensures
        cache@.entries.dom().finite(),
{
}

/// After those that do not stay have left, no more packets are there than are kept, and none is
/// left that was kept long enough.
pub proof fn evicted_shared_cache_fits(cache: SharedView, now: u128)
    requires
        cache.entries.dom().finite(),
    ensures
        cache.evicted(now).entries.len() <= cache.capacity,
        forall|key: CachedShredKey| #[trigger]
            cache.evicted(now).entries.contains_key(key) ==> !expired(
                now,
                cache.evicted(now).entries[key].0,
                cache.ttl,
            ),
{
    let kept = cache.evicted(now).entries.dom();
    assert(kept.subset_of(cache.entries.dom()));
    vstd::set_lib::lemma_len_subset(kept, cache.entries.dom());
    if kept.len() > 0 {
        first_seen_exists(cache.entries, kept);
        let first = choose|key: CachedShredKey| is_first_seen(cache.entries, kept, key);
        let others = kept.remove(first);
        let later = seen_after(cache.entries, first);
        assert forall|other: CachedShredKey| #[trigger] others.contains(other) implies later.contains(other) by {
            assert(kept.contains(other));
        }
        vstd::set_lib::lemma_len_subset(others, later);
        assert(cache.evicted(now).entries.contains_key(first));
        assert(cache.stays(first, now));
    }
}

/// A packet that was put into a shared cache is what a query for its slot and index gives at that
/// time. Something is kept for some time, fewer packets than are kept count as seen after it, and
/// none of its slot and index does, or was seen at the same time with a lesser key.
pub proof fn shared_packet_is_read_back(
    cache: SharedView,
    packet: Seq<u8>,
    header: ParsedShredHeader,
    now: u128,
    found: CachedShredKey,
)
    requires
        cache.entries.dom().finite(),
        cache.ttl > 0,
        cached_key(packet, header) is Some,
        ({
            let key = cached_key(packet, header)->0;
            let with = cache.evicted(now).with_packet(key, packet, now);
            &&& seen_after(with.entries, key).len() < cache.capacity
            &&& forall|other: CachedShredKey| #[trigger]
                with.has_at(other, key.4, key.5) ==> with.entries[other].0 < now || (with.entries[other].0 == now
                    && !key_less(other, key))
        }),
    ensures
        ({
            let key = cached_key(packet, header)->0;
            let after = cache.offered(packet, header, now).evicted(now);
            &&& after.entries.contains_key(key)
            &&& after.entries[key] == (now, packet)
            &&& after.is_latest_at(found, key.4, key.5) ==> found == key
            &&& after.is_latest_at(key, key.4, key.5)
        }),
{
    let key = cached_key(packet, header)->0;
    let first = cache.evicted(now);
    let second = first.with_packet(key, packet, now);
    let third = second.evicted(now);
    let after = third.evicted(now);
    assert(second.stays(key, now));
    let later = seen_after(third.entries, key);
    assert(first.entries.dom().subset_of(cache.entries.dom()));
    vstd::set_lib::lemma_len_subset(first.entries.dom(), cache.entries.dom());
    vstd::set_lib::lemma_len_subset(seen_after(second.entries, key), second.entries.dom());
    assert forall|other: CachedShredKey| #[trigger] later.contains(other) implies seen_after(
        second.entries,
        key,
    ).contains(other) by {
        assert(third.entries.contains_key(other));
    }
    vstd::set_lib::lemma_len_subset(later, seen_after(second.entries, key));
    assert(third.stays(key, now));
    assert forall|other: CachedShredKey| #[trigger] after.has_at(other, key.4, key.5) implies after.entries[other].0
        < after.entries[key].0 || (after.entries[other].0 == after.entries[key].0 && !key_less(other, key)) by {
        assert(second.has_at(other, key.4, key.5));
    }
    if after.is_latest_at(found, key.4, key.5) && found != key {
        assert(after.has_at(key, key.4, key.5));
        assert(after.has_at(found, key.4, key.5));
        order_is_total(key, found);
    }
}

} // verus!
