//! What holds of the caches of recent shreds.
use crate::relay::cache::key::{cached_key, key_less, keys_are_ordered, CachedShredKey};
use crate::relay::cache::ring::{evicted_cache_fits, RingView};
use crate::relay::cache::shared::SharedView;
use crate::relay::cache::{packets_expire_after_their_span, RelayRangeRequest};
use crate::shred::ParsedShredHeader;
use vstd::prelude::*;

verus! {

/// Whether a packet is still there once the first `count` arrivals have left: none of them is the
/// arrival at which it was seen last.
pub open spec fn outlasts(cache: RingView, count: int, key: CachedShredKey) -> bool {
    cache.entries.contains_key(key) && forall|i: int|
        0 <= i < count ==> #[trigger] cache.order[i] != (cache.entries[key].0, key)
}

/// How many packets are still there once the first `count` arrivals have left.
pub open spec fn left_after(cache: RingView, count: int) -> nat {
    Set::new(|key: CachedShredKey| outlasts(cache, count, key)).len()
}

/// Whether the time of an arrival is up: its span has passed.
pub open spec fn is_up(cache: RingView, now: u128, i: int) -> bool {
    cache.ttl == 0 || now >= cache.order[i].0 + cache.ttl
}

/// Whether a cache is left by its first `count` arrivals and no more.
pub open spec fn is_left_by(cache: RingView, now: u128, after: RingView, count: int) -> bool {
    &&& 0 <= count <= cache.order.len()
    &&& after.order == cache.order.skip(count)
    &&& after.ttl == cache.ttl
    &&& after.capacity == cache.capacity
    &&& forall|key: CachedShredKey| #[trigger] after.entries.contains_key(key) <==> outlasts(cache, count, key)
    &&& forall|key: CachedShredKey| #[trigger]
        after.entries.contains_key(key) ==> after.entries[key] == cache.entries[key]
    &&& forall|i: int| 0 <= i < count ==> #[trigger] is_up(cache, now, i) || left_after(cache, i) > cache.capacity
    &&& count < cache.order.len() ==> !is_up(cache, now, count) && left_after(cache, count) <= cache.capacity
}

proof fn first_arrivals_leave(cache: RingView, now: u128) -> (count: int)
    ensures
        is_left_by(cache, now, cache.evicted(now), count),
    decreases cache.order.len(),
{
    assert(Set::new(|key: CachedShredKey| outlasts(cache, 0, key)) =~= cache.entries.dom());
    if cache.order.len() == 0 {
        assert(cache.order.skip(0) =~= cache.order);
        0
    } else {
        packets_expire_after_their_span(now, cache.order[0].0, cache.ttl);
        if !is_up(cache, now, 0) && cache.entries.len() <= cache.capacity {
            assert(cache.order.skip(0) =~= cache.order);
            0
        } else {
            let left = cache.without_oldest();
            let fewer = first_arrivals_leave(left, now);
            let count = fewer + 1;
            let after = cache.evicted(now);
            assert(after == left.evicted(now));
            assert(left.order.skip(fewer) =~= cache.order.skip(count));
            assert forall|key: CachedShredKey, n: int| 0 <= n <= left.order.len() implies outlasts(left, n, key)
                == #[trigger] outlasts(cache, n + 1, key) by {
                if outlasts(left, n, key) {
                    assert forall|i: int| 0 <= i < n + 1 implies #[trigger] cache.order[i] != (
                        cache.entries[key].0,
                        key,
                    ) by {
                        if i > 0 {
                            assert(left.order[i - 1] == cache.order[i]);
                        }
                    }
                }
                if outlasts(cache, n + 1, key) {
                    assert(cache.order[0] != (cache.entries[key].0, key));
                    assert forall|i: int| 0 <= i < n implies #[trigger] left.order[i] != (
                        left.entries[key].0,
                        key,
                    ) by {
                        assert(left.order[i] == cache.order[i + 1]);
                    }
                }
            }
            assert forall|n: int| 0 <= n <= left.order.len() implies left_after(left, n) == #[trigger] left_after(
                cache,
                n + 1,
            ) by {
                assert forall|key: CachedShredKey| outlasts(left, n, key) == outlasts(cache, n + 1, key) by {}
                assert(Set::new(|key: CachedShredKey| outlasts(left, n, key)) =~= Set::new(
                    |key: CachedShredKey| outlasts(cache, n + 1, key),
                ));
            }
            assert forall|key: CachedShredKey| #[trigger] after.entries.contains_key(key) <==> outlasts(
                cache,
                count,
                key,
            ) by {
                assert(outlasts(left, fewer, key) == outlasts(cache, fewer + 1, key));
            }
            assert forall|i: int| 0 <= i < count implies #[trigger] is_up(cache, now, i) || left_after(cache, i)
                > cache.capacity by {
                if i > 0 {
                    assert(is_up(left, now, i - 1) == is_up(cache, now, i)) by {
                        assert(left.order[i - 1] == cache.order[i]);
                    }
                    assert(left_after(left, i - 1) == left_after(cache, (i - 1) + 1));
                } else {
                    assert(left_after(cache, 0) == cache.entries.dom().len());
                }
            }
            if count < cache.order.len() {
                assert(left.order[fewer] == cache.order[count]);
                assert(left_after(left, fewer) == left_after(cache, fewer + 1));
            }
            count
        }
    }
}

/// Arrivals leave in the order in which they came, each because its span has passed or because there
/// are too many packets, until neither holds of the first one that is left. A packet is gone exactly if
/// the arrival at which it was seen last has left; what stays, stays as it was.
pub proof fn arrivals_leave_in_order(cache: RingView, now: u128)
    ensures
        exists|count: int| #[trigger] is_left_by(cache, now, cache.evicted(now), count),
{
    let count = first_arrivals_leave(cache, now);
}

/// Putting a packet in sets it under its key with the time, counts as an arrival behind all others, and
/// changes no other packet.
pub proof fn packet_takes_its_place(cache: RingView, key: CachedShredKey, packet: Seq<u8>, now: u128)
    ensures
        ({
            let with = cache.with_packet(key, packet, now);
            &&& with.entries.contains_key(key)
            &&& with.entries[key] == (now, packet)
            &&& forall|other: CachedShredKey|
                other != key ==> (#[trigger] with.entries.contains_key(other)
                    <==> cache.entries.contains_key(other))
            &&& forall|other: CachedShredKey|
                other != key ==> #[trigger] with.entries[other] == cache.entries[other]
            &&& with.order.len() == cache.order.len() + 1
            &&& with.order.last() == (now, key)
            &&& with.order.drop_last() == cache.order
            &&& with.ttl == cache.ttl
            &&& with.capacity == cache.capacity
        }),
{
    assert(cache.with_packet(key, packet, now).order.drop_last() =~= cache.order);
}

/// What an insert says adds up. A packet with a key is either new or takes the place of one; one without
/// a key is neither. The packets before, and one more if it is new, are those that were dropped and
/// those that are there afterwards.
pub proof fn insert_outcome_adds_up(cache: RingView, packet: Seq<u8>, header: ParsedShredHeader, now: u128)
    requires
        cache.is_recorded(),
        cache.entries.dom().finite(),
        cache.entries.len() < usize::MAX,
    ensures
        ({
            let outcome = cache.outcome(packet, header, now);
            let after = cache.offered(packet, header, now);
            &&& cached_key(packet, header) is Some ==> outcome.inserted != outcome.replaced
            &&& cached_key(packet, header) is None ==> !outcome.inserted && !outcome.replaced
            &&& cached_key(packet, header) is Some ==> (outcome.replaced <==> cache.evicted(
                now,
            ).entries.contains_key(cached_key(packet, header)->0))
            &&& cache.entries.len() + (if outcome.inserted {
                1int
            } else {
                0int
            }) == outcome.evicted + after.entries.len()
        }),
{
    let first = cache.evicted(now);
    evicted_cache_fits(cache, now);
    arrivals_leave_in_order(cache, now);
    assert(first.entries.dom().subset_of(cache.entries.dom()));
    vstd::set_lib::lemma_len_subset(first.entries.dom(), cache.entries.dom());
    if let Some(key) = cached_key(packet, header) {
        let second = first.with_packet(key, packet, now);
        assert(second.entries.dom() =~= first.entries.dom().insert(key));
        arrivals_leave_in_order(second, now);
        let third = second.evicted(now);
        assert(third.entries.dom().subset_of(second.entries.dom()));
        vstd::set_lib::lemma_len_subset(third.entries.dom(), second.entries.dom());
    }
}

/// A row for a request holds each packet of the requested slot whose index is in the requested range
/// once, and no other, by ascending index.
pub proof fn rows_answer_requests(
    cache: RingView,
    request: RelayRangeRequest,
    row: Seq<CachedShredKey>,
    key: CachedShredKey,
)
    requires
        cache.is_row(request, row),
    ensures
        row.contains(key) <==> cache.entries.contains_key(key) && key.4 == request.slot && key.5
            >= request.start_index && key.5 <= request.end_index,
        row.no_duplicates(),
        forall|i: int, j: int| 0 <= i < j < row.len() ==> (#[trigger] row[i]).5 <= (#[trigger] row[j]).5,
        cache.packets(row).len() == row.len(),
        forall|i: int| 0 <= i < row.len() ==> #[trigger] cache.packets(row)[i] == cache.entries[row[i]].1,
{
}

/// The packet with the highest index above a bound is of the slot and above the bound; none of the slot
/// has a higher index, and none with that index was seen later.
pub proof fn highest_packet_is_the_highest(
    cache: RingView,
    key: CachedShredKey,
    slot: u64,
    min: u32,
    other: CachedShredKey,
)
    requires
        cache.is_highest_above(key, slot, min),
    ensures
        cache.entries.contains_key(key),
        key.4 == slot,
        key.5 > min,
        cache.entries.contains_key(other) && other.4 == slot ==> other.5 <= key.5,
        cache.entries.contains_key(other) && other.4 == slot && other.5 == key.5 ==> cache.entries[other].0
            <= cache.entries[key].0,
{
}

/// A packet is at a slot and an index exactly if it is there and its key says so.
pub proof fn packets_are_where_their_keys_say(cache: RingView, key: CachedShredKey, slot: u64, index: u32)
    ensures
        cache.has_at(key, slot, index) ==> cache.entries.contains_key(key) && key.4 == slot && key.5 == index,
        cache.entries.contains_key(key) ==> cache.has_at(key, key.4, key.5),
        index != key.5 || slot != key.4 ==> !cache.has_at(key, slot, index),
{
}

/// Whether a packet counts as seen after another: at a later time, or at the same time with a greater
/// key.
pub open spec fn counts_later(cache: SharedView, a: CachedShredKey, b: CachedShredKey) -> bool {
    cache.entries[a].0 > cache.entries[b].0 || (cache.entries[a].0 == cache.entries[b].0 && key_less(b, a))
}

/// A packet of a shared cache stays exactly if its span has not passed and fewer packets than are kept
/// count as seen after it; what stays, stays as it was.
pub proof fn shared_packets_leave_for_a_reason(cache: SharedView, now: u128, key: CachedShredKey)
    requires
        cache.entries.contains_key(key),
    ensures
        cache.evicted(now).entries.contains_key(key) <==> cache.ttl > 0 && now < cache.entries[key].0 + cache.ttl
            && Set::new(
            |other: CachedShredKey| cache.entries.contains_key(other) && counts_later(cache, other, key),
        ).len() < cache.capacity,
        cache.evicted(now).entries.contains_key(key) ==> cache.evicted(now).entries[key]
            == cache.entries[key],
        cache.evicted(now).ttl == cache.ttl,
        cache.evicted(now).capacity == cache.capacity,
{
    packets_expire_after_their_span(now, cache.entries[key].0, cache.ttl);
    assert(crate::relay::cache::shared::seen_after(cache.entries, key) =~= Set::new(
        |other: CachedShredKey| cache.entries.contains_key(other) && counts_later(cache, other, key),
    ));
}

/// Putting a packet into a shared cache sets it under its key with the time and changes no other.
pub proof fn shared_packet_takes_its_place(cache: SharedView, key: CachedShredKey, packet: Seq<u8>, now: u128)
    ensures
        ({
            let with = cache.with_packet(key, packet, now);
            &&& with.entries.contains_key(key)
            &&& with.entries[key] == (now, packet)
            &&& forall|other: CachedShredKey|
                other != key ==> (#[trigger] with.entries.contains_key(other)
                    <==> cache.entries.contains_key(other))
            &&& forall|other: CachedShredKey|
                other != key ==> #[trigger] with.entries[other] == cache.entries[other]
            &&& with.ttl == cache.ttl
            &&& with.capacity == cache.capacity
        }),
{
}

/// What an insert into a shared cache says adds up: a packet with a key is either new or takes the place
/// of one, and the packets before, and one more if it is new, are those that were dropped and those that
/// are there afterwards.
pub proof fn shared_insert_outcome_adds_up(
    cache: SharedView,
    packet: Seq<u8>,
    header: ParsedShredHeader,
    now: u128,
)
    requires
        cache.entries.dom().finite(),
        cache.entries.len() < usize::MAX,
    ensures
        ({
            let outcome = cache.outcome(packet, header, now);
            let after = cache.offered(packet, header, now);
            &&& cached_key(packet, header) is Some ==> outcome.inserted != outcome.replaced
            &&& cached_key(packet, header) is None ==> !outcome.inserted && !outcome.replaced
            &&& cached_key(packet, header) is Some ==> (outcome.replaced <==> cache.evicted(
                now,
            ).entries.contains_key(cached_key(packet, header)->0))
            &&& cache.entries.len() + (if outcome.inserted {
                1int
            } else {
                0int
            }) == outcome.evicted + after.entries.len()
        }),
{
    let first = cache.evicted(now);
    assert(first.entries.dom().subset_of(cache.entries.dom()));
    vstd::set_lib::lemma_len_subset(first.entries.dom(), cache.entries.dom());
    if let Some(key) = cached_key(packet, header) {
        let second = first.with_packet(key, packet, now);
        assert(second.entries.dom() =~= first.entries.dom().insert(key));
        let third = second.evicted(now);
        assert(third.entries.dom().subset_of(second.entries.dom()));
        vstd::set_lib::lemma_len_subset(third.entries.dom(), second.entries.dom());
    }
}

/// A row for a request to a shared cache holds each packet of the requested slot whose index is in the
/// requested range, and no other, by ascending index.
pub proof fn shared_rows_answer_requests(
    cache: SharedView,
    request: RelayRangeRequest,
    row: Seq<CachedShredKey>,
    key: CachedShredKey,
)
    requires
        cache.is_row(request, row),
    ensures
        row.contains(key) <==> cache.entries.contains_key(key) && key.4 == request.slot && key.5
            >= request.start_index && key.5 <= request.end_index,
        row.no_duplicates(),
        forall|i: int, j: int| 0 <= i < j < row.len() ==> (#[trigger] row[i]).5 <= (#[trigger] row[j]).5,
        cache.packets(row).len() == row.len(),
        forall|i: int| 0 <= i < row.len() ==> #[trigger] cache.packets(row)[i] == cache.entries[row[i]].1,
{
    assert forall|i: int, j: int| 0 <= i < j < row.len() implies #[trigger] row[i] != #[trigger] row[j] by {
        keys_are_ordered(row[i], row[i], row[i]);
    }
}

/// The packet that a query of a shared cache for a slot and an index gives is of that slot and index, and
/// none of the same was seen later. The one that a query for the highest index above a bound gives is of
/// the slot and above the bound, none of the slot has a higher index, and none with that index was seen
/// later.
pub proof fn shared_queries_give_the_latest(
    cache: SharedView,
    key: CachedShredKey,
    slot: u64,
    index: u32,
    min: u32,
    other: CachedShredKey,
)
    requires
        cache.entries.contains_key(other),
        other.4 == slot,
    ensures
        cache.is_latest_at(key, slot, index) ==> cache.entries.contains_key(key) && key.4 == slot && key.5
            == index,
        cache.is_latest_at(key, slot, index) && other.5 == index ==> cache.entries[other].0
            <= cache.entries[key].0,
        cache.is_highest_above(key, slot, min) ==> cache.entries.contains_key(key) && key.4 == slot && key.5
            > min && other.5 <= key.5,
        cache.is_highest_above(key, slot, min) && other.5 == key.5 ==> cache.entries[other].0
            <= cache.entries[key].0,
        other.5 == index ==> cache.has_at(other, slot, index),
        other.5 > min ==> cache.has_above(other, slot, min),
        cache.has_above(key, slot, min) ==> cache.entries.contains_key(key) && key.4 == slot && key.5 > min,
{
    if cache.is_latest_at(key, slot, index) && other.5 == index {
        assert(cache.has_at(other, slot, index));
    }
    if cache.is_highest_above(key, slot, min) && other.5 > min {
        assert(cache.has_above(other, slot, min));
    }
}

} // verus!
