//! What holds of open data sets and of the slots that they are read from.
use crate::reassembly::dataset::default_slot_lag;
use crate::reassembly::fragment::{capped, total_bytes};
use crate::reassembly::index_set::{finite_set_is_listed, listed};
use crate::reassembly::inline::fec::{data_shred_readies_a_full_set, forgotten_shreds_are_gone, is_known_end};
use crate::reassembly::inline::stream::InlineStreamView;
use crate::reassembly::inline::{InlineReassemblerView, SinkCall};
use crate::reassembly::run::{anchored_starts, run_goes_on, run_is_longest};
use crate::slots::room_drops_only_the_oldest;
use crate::time::Instant;
use vstd::prelude::*;

verus! {

/// What noting a data shred changes. Its index is held from then on with the payload and the time
/// that came first, and ends a data set from then on if it is said to end one or the slot; no other
/// index is touched, and no forward error correction set but its own. The last index of the slot is
/// the highest one that was ever said to be it.
pub proof fn data_shred_is_noted(
    stream: InlineStreamView,
    index: u32,
    fec_set_index: u32,
    data_complete: bool,
    last_in_slot: bool,
    payload: Seq<u8>,
    observed_at: Instant,
)
    ensures
        ({
            let after = stream.with_data(
                index,
                fec_set_index,
                data_complete,
                last_in_slot,
                payload,
                observed_at,
            );
            let known = stream.fragments.contains_key(index);
            &&& after.slot == stream.slot
            &&& after.finished == stream.finished
            &&& forall|b: u32|
                b != index ==> (#[trigger] after.boundaries.contains(b) <==> stream.boundaries.contains(b))
            &&& after.boundaries.contains(index) <==> stream.boundaries.contains(index) || data_complete
                || last_in_slot
            &&& forall|x: u32|
                x != index ==> (#[trigger] after.fragments.contains_key(x) <==> stream.fragments.contains_key(x))
            &&& forall|x: u32| x != index ==> #[trigger] after.fragments[x] == stream.fragments[x]
            &&& after.fragments.contains_key(index)
            &&& known ==> after.fragments[index] == stream.fragments[index]
            &&& !known ==> after.fragments[index].bytes == payload && after.fragments[index].observed_at
                == observed_at
            &&& !last_in_slot ==> after.last_index == stream.last_index
            &&& last_in_slot ==> {
                &&& after.last_index is Some
                &&& after.last_index->0 >= index
                &&& stream.last_index is Some ==> after.last_index->0 >= stream.last_index->0
                &&& after.last_index->0 == index || after.last_index == stream.last_index
            }
            &&& after.fec_sets.contains_key(fec_set_index)
            &&& after.fec_sets[fec_set_index].observed.contains(index)
            &&& forall|key: u32|
                key != fec_set_index ==> (#[trigger] after.fec_sets.contains_key(key)
                    <==> stream.fec_sets.contains_key(key))
            &&& forall|key: u32|
                key != fec_set_index ==> #[trigger] after.fec_sets[key] == stream.fec_sets[key]
        }),
{
}

/// A data shred reports its forward error correction set as ready exactly if the set was not reported
/// before, and then every data shred of the set was observed, from the first one to the last one,
/// which is known then.
pub proof fn ready_report_is_right(
    stream: InlineStreamView,
    index: u32,
    fec_set_index: u32,
    data_complete: bool,
    last_in_slot: bool,
    payload: Seq<u8>,
    observed_at: Instant,
)
    ensures
        ({
            let after = stream.with_data(
                index,
                fec_set_index,
                data_complete,
                last_in_slot,
                payload,
                observed_at,
            );
            let set = after.fec_sets[fec_set_index];
            let reports = stream.fec_set_with_data(
                index,
                fec_set_index,
                data_complete,
                last_in_slot,
            ).becomes_ready();
            &&& data_complete || last_in_slot ==> set.terminal is Some && set.terminal->0 <= index
            &&& reports ==> {
                &&& !(stream.fec_sets.contains_key(fec_set_index) && stream.fec_sets[fec_set_index].ready)
                &&& exists|end: int| #[trigger]
                    is_known_end(set, end) && forall|x: u32|
                        set.first <= x <= end ==> #[trigger] set.observed.contains(x)
            }
            &&& !(stream.fec_sets.contains_key(fec_set_index) && stream.fec_sets[fec_set_index].ready) && (
            exists|end: int| #[trigger]
                is_known_end(set, end) && forall|x: u32|
                    set.first <= x <= end ==> #[trigger] set.observed.contains(x)) ==> reports
            &&& !stream.fec_sets.contains_key(fec_set_index) ==> set.first == fec_set_index && forall|x: u32|
                #[trigger] set.observed.contains(x) ==> x == index
        }),
{
    data_shred_readies_a_full_set(stream.fec_set(fec_set_index), index, data_complete || last_in_slot);
}

/// Being done with a stretch of shreds forgets those and no others, leaves every boundary, and
/// finishes the slot if its last index is known and no shred is left.
pub proof fn retired_shreds_are_gone(stream: InlineStreamView, start: u32, end: u32)
    ensures
        ({
            let left = stream.without(start, end);
            &&& left.slot == stream.slot
            &&& left.boundaries == stream.boundaries
            &&& left.last_index == stream.last_index
            &&& forall|x: u32| #[trigger]
                left.fragments.contains_key(x) <==> stream.fragments.contains_key(x) && !(start <= x <= end)
            &&& forall|x: u32| #[trigger]
                left.fragments.contains_key(x) ==> left.fragments[x] == stream.fragments[x]
            &&& left.finished <==> stream.finished || (stream.last_index is Some && forall|x: u32|
                !#[trigger] left.fragments.contains_key(x))
            &&& forall|key: u32| #[trigger]
                left.fec_sets.contains_key(key) <==> stream.fec_sets.contains_key(key) && exists|x: u32|
                    #[trigger] stream.fec_sets[key].observed.contains(x) && !(start <= x <= end)
            &&& forall|key: u32, x: u32|
                left.fec_sets.contains_key(key) ==> (#[trigger] left.fec_sets[key].observed.contains(x)
                    <==> stream.fec_sets[key].observed.contains(x) && !(start <= x <= end))
        }),
{
    let left = stream.without(start, end);
    assert forall|key: u32| #[trigger]
        left.fec_sets.contains_key(key) <==> stream.fec_sets.contains_key(key) && exists|x: u32|
            #[trigger] stream.fec_sets[key].observed.contains(x) && !(start <= x <= end) by {
        let set = stream.fec_sets[key];
        forgotten_shreds_are_gone(set, start, end);
        if exists|x: u32| #[trigger] set.observed.contains(x) && !(start <= x <= end) {
            let x = choose|x: u32| #[trigger] set.observed.contains(x) && !(start <= x <= end);
            assert(set.without(start, end).observed.contains(x));
        } else {
            assert(set.without(start, end).observed =~= Set::<u32>::empty());
        }
    }
    if forall|x: u32| !#[trigger] left.fragments.contains_key(x) {
        assert(left.fragments.dom() =~= Set::<u32>::empty());
    }
}

/// An open data set runs from its start to the last shred before the first one that is missing, with
/// the payload and the time of each, in order.
pub proof fn inline_set_is_a_run(stream: InlineStreamView, start: u32)
    requires
        stream.fragments.contains_key(start),
    ensures
        ({
            let run = stream.run_from(start);
            &&& run.slot == stream.slot
            &&& run.start_index == start
            &&& run.end_index >= start
            &&& run.end_index < u32::MAX ==> !stream.fragments.contains_key((run.end_index + 1) as u32)
            &&& run.fragments.len() == run.end_index - start + 1
            &&& run.observed_ats.len() == run.fragments.len()
            &&& forall|x: u32|
                start <= x <= run.end_index ==> #[trigger] stream.fragments.contains_key(x)
                    && run.fragments[x - start] == stream.fragments[x].bytes && run.observed_ats[x - start]
                    == stream.fragments[x].observed_at
        }),
{
    run_is_longest(stream.fragments, start);
}

/// The open data sets are listed by ascending start: each shred that is held and starts the slot or
/// follows a boundary starts one, and nothing else does. The sizes that are told with them are those
/// of their payloads.
pub proof fn inline_sets_are_listed(stream: InlineStreamView)
    requires
        stream.fragments.dom().finite(),
    ensures
        stream.open_runs().len() == stream.starts().len(),
        stream.sized_runs().len() == stream.starts().len(),
        forall|i: int|
            0 <= i < stream.starts().len() ==> {
                &&& stream.fragments.contains_key(#[trigger] stream.starts()[i])
                &&& stream.starts()[i] == 0 || stream.boundaries.contains((stream.starts()[i] - 1) as u32)
                &&& stream.open_runs()[i] == stream.run_from(stream.starts()[i])
                &&& stream.sized_runs()[i].run == stream.run_from(stream.starts()[i])
                &&& stream.sized_runs()[i].total_payload_len == capped(
                    total_bytes(stream.run_from(stream.starts()[i]).fragments),
                )
            },
        forall|i: int, j: int|
            0 <= i < j < stream.starts().len() ==> (#[trigger] stream.starts()[i]) < (
            #[trigger] stream.starts()[j]),
        forall|start: u32| #[trigger]
            stream.fragments.contains_key(start) && (start == 0 || stream.boundaries.contains(
                (start - 1) as u32,
            )) ==> stream.starts().contains(start),
{
    let starts = anchored_starts(stream.fragments, stream.boundaries);
    assert(starts.subset_of(stream.fragments.dom()));
    vstd::set_lib::lemma_set_subset_finite(stream.fragments.dom(), starts);
    finite_set_is_listed(starts);
    let list = listed(starts);
    assert forall|i: int| 0 <= i < list.len() implies starts.contains(#[trigger] list[i]) by {
        assert(list.to_set().contains(list[i]));
    }
    assert forall|start: u32| #[trigger]
        stream.fragments.contains_key(start) && (start == 0 || stream.boundaries.contains(
            (start - 1) as u32,
        )) implies list.contains(start) by {
        assert(starts.contains(start));
        assert(list.to_set().contains(start));
    }
}

/// A sink is told to drop what it holds exactly if it holds something and the last shred that it
/// should hold is not there any more. Then, if the run that it follows has anything, it is told once
/// how much is to come, and given the shreds it lacks one by one, in order, each with its time.
pub proof fn sink_is_told_in_turn(stream: InlineStreamView, start: u32, held: usize)
    ensures
        ({
            let calls = stream.sync_calls(start, held);
            let anew = held > 0 && (start + held - 1 > u32::MAX || !stream.fragments.contains_key(
                (start + held - 1) as u32,
            ));
            let kept = if anew {
                0
            } else {
                held as int
            };
            let new = stream.new_fragments(start, held).fragments;
            let times = stream.new_fragments(start, held).observed_ats;
            let skipped: int = if anew {
                1
            } else {
                0
            };
            &&& anew <==> calls.len() > 0 && calls[0] == SinkCall::Reset
            &&& kept + new.len() == 0 ==> calls.len() == skipped
            &&& kept + new.len() > 0 ==> {
                &&& calls.len() == skipped + 1 + new.len()
                &&& calls[skipped] == (SinkCall::Reserve {
                    fragments: capped(new.len()),
                    bytes: capped(total_bytes(new)),
                })
                &&& forall|i: int|
                    0 <= i < new.len() ==> calls[skipped + 1 + i] == (SinkCall::Append {
                        bytes: #[trigger] new[i],
                        observed_at: times[i],
                    })
            }
        }),
{
}

/// What is said of a run after a sink that holds a start of it was brought up to date: the run from
/// its start to its end, with all its shreds and with the bytes that the sink said it held and those
/// that it was given.
pub proof fn synced_run_is_described(stream: InlineStreamView, start: u32, held: usize, held_bytes: usize)
    requires
        stream.fragments.contains_key(start),
        stream.run_from(start).end_index < u32::MAX,
        held <= stream.run_from(start).fragments.len(),
    ensures
        ({
            let run = stream.run_from(start);
            let meta = stream.synced_meta(start, held, held_bytes);
            &&& meta is Some
            &&& meta->0.slot == stream.slot
            &&& meta->0.start_index == start
            &&& meta->0.end_index == run.end_index
            &&& meta->0.fragment_count == run.fragments.len()
            &&& meta->0.total_payload_len == capped(
                held_bytes as nat + total_bytes(run.fragments.skip(held as int)),
            )
        }),
{
    run_is_longest(stream.fragments, start);
    let run = stream.run_from(start);
    let end = run.end_index;
    if held > 0 {
        assert(stream.fragments.contains_key((start + held - 1) as u32));
    }
    assert(!stream.starts_anew(start, held));
    let first = (start + held) as u32;
    assert(stream.first_new(start, held) == first);
    let new = stream.new_fragments(start, held);
    if held == run.fragments.len() {
        assert(first == end + 1);
        assert(run.fragments.skip(held as int) =~= Seq::<Seq<u8>>::empty());
        assert(new.fragments =~= Seq::<Seq<u8>>::empty());
    } else {
        assert(stream.fragments.contains_key(first));
        run_goes_on(stream.fragments, start, first);
        assert(new.fragments =~= run.fragments.skip(held as int));
    }
}

/// A slot is dropped when a shred of another one comes only for one of two reasons: it lies more
/// than the lag behind, or it is the oldest one that is left and there is no room. One that lies more
/// than the lag behind is dropped whenever the floor rises by that. What stays, stays as it was.
pub proof fn inline_slots_are_dropped_for_a_reason(before: InlineReassemblerView, slot: u64, other: u64)
    requires
        other != slot,
        before.slots.contains_key(other),
        before.slots.dom().finite(),
    ensures
        !before.ready_for(slot).slots.contains_key(other) ==> other + before.lag < slot || {
            &&& !before.slots.contains_key(slot)
            &&& before.slots.len() >= before.max_slots
            &&& forall|held: u64| #[trigger]
                before.slots.contains_key(held) ==> held >= other || held + before.lag < slot
        },
        other + before.lag < slot && slot - before.lag > before.floor ==> !before.ready_for(
            slot,
        ).slots.contains_key(other),
        before.ready_for(slot).slots.contains_key(other) ==> before.ready_for(slot).slots[other]
            == before.slots[other],
        before.ready_for(slot).lag == before.lag,
        before.ready_for(slot).max_slots == before.max_slots,
{
    let floor = if slot > before.lag {
        (slot - before.lag) as u64
    } else {
        0
    };
    let kept = before.purged(floor);
    assert(kept.slots.dom().subset_of(before.slots.dom()));
    vstd::set_lib::lemma_len_subset(kept.slots.dom(), before.slots.dom());
    if other + before.lag >= slot {
        assert(kept.slots.contains_key(other));
        room_drops_only_the_oldest(kept.slots, slot, kept.max_slots as nat, other);
        if !before.ready_for(slot).slots.contains_key(other) {
            assert(!before.slots.contains_key(slot)) by {
                if before.slots.contains_key(slot) {
                    assert(kept.slots.contains_key(slot));
                }
            }
            assert forall|held: u64| #[trigger] before.slots.contains_key(held) implies held >= other || held
                + before.lag < slot by {
                if held + before.lag >= slot {
                    assert(kept.slots.contains_key(held));
                }
            }
        }
    }
}

/// Purging drops the slots below a floor that is above the last one, and no others; the floor never
/// falls.
pub proof fn inline_floor_only_rises(before: InlineReassemblerView, floor: u64, slot: u64)
    ensures
        before.purged(floor).floor >= before.floor,
        before.purged(floor).floor >= floor,
        before.purged(floor).slots.contains_key(slot) <==> before.slots.contains_key(slot) && (slot >= floor
            || floor <= before.floor),
        before.purged(floor).slots.contains_key(slot) ==> before.purged(floor).slots[slot]
            == before.slots[slot],
{
}

/// Being done with shreds of a slot changes no other slot, and drops the slot exactly if nothing is
/// left to come.
pub proof fn retiring_touches_one_slot(
    before: InlineReassemblerView,
    slot: u64,
    start: u32,
    end: u32,
    other: u64,
)
    ensures
        ({
            let after = before.retired(slot, start, end);
            &&& other != slot ==> (after.slots.contains_key(other) <==> before.slots.contains_key(other))
            &&& other != slot ==> after.slots[other] == before.slots[other]
            &&& after.slots.contains_key(slot) <==> before.slots.contains_key(slot)
                && !before.slots[slot].without(start, end).finished
            &&& after.slots.contains_key(slot) ==> after.slots[slot] == before.slots[slot].without(start, end)
            &&& after.floor == before.floor
            &&& after.lag == before.lag
            &&& after.max_slots == before.max_slots
        }),
{
}

/// An inline reassembler starts without slots, with the lag of a reassembler of data sets of the same
/// size; a slot of which nothing is known is empty.
pub proof fn inline_reassembler_starts_empty(max_slots: usize, slot: u64)
    ensures
        InlineReassemblerView::empty(max_slots).lag == default_slot_lag(max_slots),
        InlineReassemblerView::empty(max_slots).max_slots == max_slots,
        InlineReassemblerView::empty(max_slots).floor == 0,
        !InlineReassemblerView::empty(max_slots).slots.contains_key(slot),
        InlineReassemblerView::empty(max_slots).stream(slot).slot == slot,
        forall|x: u32|
            !#[trigger] InlineReassemblerView::empty(max_slots).stream(slot).fragments.contains_key(x),
        forall|b: u32|
            !#[trigger] InlineReassemblerView::empty(max_slots).stream(slot).boundaries.contains(b),
        InlineReassemblerView::empty(max_slots).stream(slot).last_index is None,
        !InlineReassemblerView::empty(max_slots).stream(slot).finished,
{
}

} // verus!
