//! Tables keyed by slot: finding the oldest slot and dropping old ones.
use std::collections::HashMap;
use vstd::prelude::*;

verus! {

broadcast use vstd::std_specs::hash::group_hash_axioms;

/// The entries of slots at or above `floor`.
pub open spec fn slots_from<V>(table: Map<u64, V>, floor: u64) -> Map<u64, V> {
    table.restrict(Set::new(|slot: u64| slot >= floor))
}

/// Whether `slot` is the lowest of some slots.
pub open spec fn is_oldest(slots: Set<u64>, slot: u64) -> bool {
    slots.contains(slot) && forall|other: u64| #[trigger] slots.contains(other) ==> slot <= other
}

/// The lowest of some slots, where there are any.
pub open spec fn oldest(slots: Set<u64>) -> u64 {
    choose|slot: u64| is_oldest(slots, slot)
}

/// The table after room was made for `incoming`: where `limit` slots or more are there and
/// `incoming` is none of them, the oldest one is dropped.
pub open spec fn with_room_for<V>(table: Map<u64, V>, incoming: u64, limit: nat) -> Map<u64, V> {
    if table.len() < limit || table.contains_key(incoming) || table.is_empty() {
        table
    } else {
        table.remove(oldest(table.dom()))
    }
}

/// Most slots that a table with a limit holds: the limit, or one where it is zero, since the slot
/// of a shred that came in is held.
pub open spec fn most_slots(limit: nat) -> nat {
    if limit == 0 {
        1
    } else {
        limit
    }
}

/// There is only one oldest slot.
pub proof fn oldest_is_unique(slots: Set<u64>, slot: u64)
    requires
        is_oldest(slots, slot),
    ensures
        oldest(slots) == slot,
{
    let chosen = oldest(slots);
    assert(is_oldest(slots, chosen));
    assert(slots.contains(chosen) && slots.contains(slot));
}

/// The slots of a table, in no particular order.
pub(crate) fn slot_list<V>(table: &HashMap<u64, V>) -> (r: Vec<u64>)
    ensures
        forall|slot: u64| #[trigger] r@.contains(slot) <==> table@.contains_key(slot),
{
    let mut slots: Vec<u64> = Vec::new();
    for slot in it: table.keys()
        invariant
            it.seq().unref().to_set() == table@.dom(),
            slots@ == it.seq().unref().take(it.index() as int),
            it.index() == it.seq().len() ==> slots@.to_set() == table@.dom(),
    {
        slots.push(*slot);
        assert(it.index() + 1 == it.seq().len() ==> slots@ =~= it.seq().unref());
    }
    proof {
        assert forall|slot: u64| #[trigger] slots@.contains(slot) <==> table@.contains_key(slot) by {
            assert(slots@.to_set().contains(slot) <==> table@.dom().contains(slot));
        }
    }
    slots
}

/// Finds the lowest slot of a table.
pub(crate) fn oldest_slot<V>(table: &HashMap<u64, V>) -> (r: Option<u64>)
    ensures
        match r {
            Some(slot) => is_oldest(table@.dom(), slot),
            None => table@.is_empty(),
        },
{
    let slots = slot_list(table);
    if slots.len() == 0 {
        proof {
            assert forall|slot: u64| !table@.contains_key(slot) by {
                assert(!slots@.contains(slot));
            }
            assert(table@.dom() =~= Set::empty());
        }
        return None;
    }
    let mut lowest: u64 = slots[0];
    let mut i: usize = 1;
    while i < slots.len()
        invariant
            1 <= i <= slots@.len(),
            slots@.contains(lowest),
            forall|j: int| 0 <= j < i ==> lowest <= #[trigger] slots@[j],
        decreases slots@.len() - i,
    {
        if slots[i] < lowest {
            lowest = slots[i];
        }
        i += 1;
    }
    proof {
        assert forall|other: u64| #[trigger] table@.dom().contains(other) implies lowest <= other by {
            assert(table@.contains_key(other));
            assert(slots@.contains(other));
        }
    }
    Some(lowest)
}

/// Drops the entries of slots below `floor`.
pub(crate) fn drop_slots_below<V>(table: &mut HashMap<u64, V>, floor: u64)
    ensures
        final(table)@ == slots_from(old(table)@, floor),
{
    let ghost before = table@;
    let slots = slot_list(table);
    let mut i: usize = 0;
    while i < slots.len()
        invariant
            i <= slots@.len(),
            forall|slot: u64| #[trigger] slots@.contains(slot) <==> before.contains_key(slot),
            forall|slot: u64| #[trigger]
                table@.contains_key(slot) ==> before.contains_key(slot) && table@[slot] == before[slot],
            forall|slot: u64| #[trigger] before.contains_key(slot) && slot >= floor ==> table@.contains_key(slot),
            forall|j: int| 0 <= j < i && (#[trigger] slots@[j]) < floor ==> !table@.contains_key(slots@[j]),
        decreases slots@.len() - i,
    {
        let slot: u64 = slots[i];
        if slot < floor {
            table.remove(&slot);
        }
        i += 1;
    }
    proof {
        assert forall|slot: u64| table@.contains_key(slot) implies slot >= floor by {
            if slot < floor {
                assert(slots@.contains(slot));
                let j = choose|j: int| 0 <= j < slots@.len() && slots@[j] == slot;
                assert(slots@[j] < floor);
            }
        }
        assert(table@ =~= slots_from(before, floor));
    }
}

/// Makes room for `incoming`.
pub(crate) fn make_room_for<V>(table: &mut HashMap<u64, V>, incoming: u64, limit: usize)
    ensures
        final(table)@ == with_room_for(old(table)@, incoming, limit as nat),
{
    if table.len() < limit || table.contains_key(&incoming) {
        return;
    }
    match oldest_slot(table) {
        Some(slot) => {
            proof {
                oldest_is_unique(table@.dom(), slot);
            }
            table.remove(&slot);
        },
        None => {},
    }
}

/// Dropping slots below a floor twice is dropping them below the higher floor.
pub proof fn floors_combine<V>(table: Map<u64, V>, a: u64, b: u64)
    ensures
        slots_from(slots_from(table, a), b) == slots_from(
            table,
            if a >= b {
                a
            } else {
                b
            },
        ),
{
    assert(slots_from(slots_from(table, a), b) =~= slots_from(
        table,
        if a >= b {
            a
        } else {
            b
        },
    ));
}

/// A table with room for a slot holds fewer slots than it may, or that slot already, if it held no
/// more than it may.
pub proof fn room_is_made<V>(table: Map<u64, V>, incoming: u64, limit: nat)
    requires
        table.dom().finite(),
        table.len() <= most_slots(limit),
    ensures
        with_room_for(table, incoming, limit).contains_key(incoming) || with_room_for(
            table,
            incoming,
            limit,
        ).len() < most_slots(limit),
        with_room_for(table, incoming, limit).len() <= most_slots(limit),
        table.contains_key(incoming) ==> with_room_for(table, incoming, limit) == table,
{
    if table.is_empty() {
        assert(table.dom() =~= Set::<u64>::empty());
    } else if !(table.len() < limit || table.contains_key(incoming)) {
        assert(table.dom().len() > 0) by {
            if table.dom().len() == 0 {
                assert(table.dom() =~= Set::<u64>::empty());
            }
        }
        oldest_exists(table.dom());
        assert(is_oldest(table.dom(), oldest(table.dom())));
        assert(table.remove(oldest(table.dom())).dom() =~= table.dom().remove(oldest(table.dom())));
    }
}

proof fn oldest_exists(slots: Set<u64>)
    requires
        slots.finite(),
        slots.len() > 0,
    ensures
        exists|slot: u64| is_oldest(slots, slot),
    decreases slots.len(),
{
    let some = slots.choose();
    let rest = slots.remove(some);
    if rest.len() == 0 {
        assert forall|other: u64| #[trigger] slots.contains(other) implies some <= other by {
            if other != some {
                assert(rest.contains(other));
                assert(rest =~= Set::empty());
            }
        }
        assert(is_oldest(slots, some));
    } else {
        oldest_exists(rest);
        let low = choose|slot: u64| is_oldest(rest, slot);
        let best = if some <= low {
            some
        } else {
            low
        };
        assert forall|other: u64| #[trigger] slots.contains(other) implies best <= other by {
            if other != some {
                assert(rest.contains(other));
            }
        }
        assert(is_oldest(slots, best));
    }
}

/// Making room for a slot takes out one slot at most, the least of all; none where the slot is held
/// already or the limit is not reached; and it changes no other.
pub proof fn room_drops_only_the_oldest<V>(table: Map<u64, V>, incoming: u64, limit: nat, other: u64)
    requires
        table.dom().finite(),
        table.contains_key(other),
    ensures
        with_room_for(table, incoming, limit).contains_key(other) ==> with_room_for(table, incoming, limit)[other]
            == table[other],
        !with_room_for(table, incoming, limit).contains_key(other) <==> {
            &&& !table.contains_key(incoming)
            &&& table.len() >= limit
            &&& forall|slot: u64| #[trigger] table.contains_key(slot) ==> other <= slot
        },
        forall|slot: u64| #[trigger]
            with_room_for(table, incoming, limit).contains_key(slot) ==> table.contains_key(slot),
{
    assert(table.dom().contains(other));
    assert(table.dom().len() > 0) by {
        if table.dom().len() == 0 {
            assert(table.dom() =~= Set::<u64>::empty());
        }
    }
    oldest_exists(table.dom());
    let least = oldest(table.dom());
    assert(is_oldest(table.dom(), least));
    assert(table.dom().contains(least));
    if !table.contains_key(incoming) && table.len() >= limit && (forall|slot: u64| #[trigger]
        table.contains_key(slot) ==> other <= slot) {
        assert(table.contains_key(least));
    }
}

/// Dropping slots below a floor keeps every other slot as it is and nothing else.
pub proof fn floor_keeps_what_is_above<V>(table: Map<u64, V>, floor: u64, slot: u64)
    ensures
        slots_from(table, floor).contains_key(slot) <==> table.contains_key(slot) && slot >= floor,
        slots_from(table, floor).contains_key(slot) ==> slots_from(table, floor)[slot] == table[slot],
{
}

} // verus!
