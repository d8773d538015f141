//! Data sets: the stretches of a slot's data shreds that are decoded together.
pub mod history;
pub mod stream;

use crate::reassembly::dataset::stream::{
    dataset_views, inline_views, storing_order_does_not_matter, undrained_stream_stays, SlotStream,
    StreamView,
};
use crate::reassembly::fragment::{PayloadFragmentBatch, SharedPayloadFragment};
use crate::slots::{
    drop_slots_below, make_room_for, most_slots, room_drops_only_the_oldest, room_is_made, slots_from,
    with_room_for,
};
use crate::time::Instant;
use std::collections::HashMap;
use vstd::prelude::*;

verus! {

broadcast use vstd::std_specs::hash::group_hash_axioms;

/// A complete data set.
#[derive(Debug, PartialEq, Eq)]
pub struct CompletedDataSet {
    /// The slot.
    pub slot: u64,
    /// First shred.
    pub start_index: u32,
    /// Last shred.
    pub end_index: u32,
    /// Payloads in order.
    pub payload_fragments: PayloadFragmentBatch,
    /// Whether it ends the slot.
    pub last_in_slot: bool,
    /// When its first shred was observed.
    pub first_shred_observed_at: Instant,
    /// When its last shred was observed.
    pub last_shred_observed_at: Instant,
}

/// A complete data set in specifications.
pub struct DataSetView {
    /// The slot.
    pub slot: u64,
    /// First shred.
    pub start_index: u32,
    /// Last shred.
    pub end_index: u32,
    /// Payloads in order.
    pub fragments: Seq<Seq<u8>>,
    /// Whether it ends the slot.
    pub last_in_slot: bool,
    /// When its first shred was observed.
    pub first_observed: Instant,
    /// When its last shred was observed.
    pub last_observed: Instant,
}

impl View for CompletedDataSet {
    type V = DataSetView;

    open spec fn view(&self) -> DataSetView {
        DataSetView {
            slot: self.slot,
            start_index: self.start_index,
            end_index: self.end_index,
            fragments: self.payload_fragments@,
            last_in_slot: self.last_in_slot,
            first_observed: self.first_shred_observed_at,
            last_observed: self.last_shred_observed_at,
        }
    }
}

impl Clone for CompletedDataSet {
    fn clone(&self) -> (r: Self)
        ensures
            r@ == self@,
    {
        CompletedDataSet { payload_fragments: self.payload_fragments.clone(), ..*self }
    }
}

/// A data set that is still open: a run of shreds from a known start on.
#[derive(Debug, PartialEq, Eq)]
pub struct InlineContiguousDataSet {
    /// The slot.
    pub slot: u64,
    /// First shred.
    pub start_index: u32,
    /// Last shred so far.
    pub end_index: u32,
    /// Payloads in order.
    pub payload_fragments: PayloadFragmentBatch,
    /// When each shred was observed.
    pub fragment_observed_ats: Vec<Instant>,
}

/// An open data set in specifications.
pub struct InlineView {
    /// The slot.
    pub slot: u64,
    /// First shred.
    pub start_index: u32,
    /// Last shred so far.
    pub end_index: u32,
    /// Payloads in order.
    pub fragments: Seq<Seq<u8>>,
    /// When each shred was observed.
    pub observed_ats: Seq<Instant>,
}

impl View for InlineContiguousDataSet {
    type V = InlineView;

    open spec fn view(&self) -> InlineView {
        InlineView {
            slot: self.slot,
            start_index: self.start_index,
            end_index: self.end_index,
            fragments: self.payload_fragments@,
            observed_ats: self.fragment_observed_ats@,
        }
    }
}

/// Reassembles data sets from the data shreds of several slots.
#[derive(Debug)]
pub struct DataSetReassembler {
    /// Slots with shreds.
    pub slots: HashMap<u64, SlotStream>,
    /// Most slots held at once.
    pub max_tracked_slots: usize,
    /// How far behind the newest shred a slot is still kept.
    pub retained_slot_lag: u64,
    /// Slots below were dropped.
    pub last_pruned_floor: u64,
    /// Fewest shreds of a data set whose start is not known.
    pub tail_min_shreds_without_anchor: usize,
}

/// A reassembler in specifications.
pub struct ReassemblerView {
    /// Slots with shreds.
    pub slots: Map<u64, StreamView>,
    /// Most slots held at once.
    pub max_slots: usize,
    /// How far behind the newest shred a slot is still kept.
    pub lag: u64,
    /// Slots below were dropped.
    pub floor: u64,
    /// Fewest shreds of a data set whose start is not known.
    pub tail_min: usize,
}

/// Slots in specifications.
pub open spec fn stream_map(slots: Map<u64, SlotStream>) -> Map<u64, StreamView> {
    slots.map_values(|stream: SlotStream| stream@)
}

impl View for DataSetReassembler {
    type V = ReassemblerView;

    open spec fn view(&self) -> ReassemblerView {
        ReassemblerView {
            slots: stream_map(self.slots@),
            max_slots: self.max_tracked_slots,
            lag: self.retained_slot_lag,
            floor: self.last_pruned_floor,
            tail_min: self.tail_min_shreds_without_anchor,
        }
    }
}

/// A data shred in specifications.
pub struct ShredView {
    /// Its slot.
    pub slot: u64,
    /// Its index in the slot.
    pub index: u32,
    /// Whether it ends a data set.
    pub data_complete: bool,
    /// Whether it ends the slot.
    pub last_in_slot: bool,
    /// Its payload.
    pub payload: Seq<u8>,
}

/// The slots kept by default behind the newest one.
pub open spec fn default_slot_lag(max_tracked_slots: usize) -> u64 {
    if max_tracked_slots / 4 < 64 {
        64
    } else if max_tracked_slots / 4 > 256 {
        256
    } else {
        (max_tracked_slots / 4) as u64
    }
}

impl ReassemblerView {
    /// A reassembler without slots.
    pub open spec fn empty(max_slots: usize) -> Self {
        ReassemblerView {
            slots: Map::empty(),
            max_slots,
            lag: default_slot_lag(max_slots),
            floor: 0,
            tail_min: 2,
        }
    }

    /// The reassembler after slots below `floor` were dropped. A floor that is not above the last
    /// one changes nothing.
    pub open spec fn purged(self, floor: u64) -> Self {
        if floor <= self.floor {
            self
        } else {
            ReassemblerView { slots: slots_from(self.slots, floor), floor, ..self }
        }
    }

    /// The reassembler when the slot of a shred is about to be looked up: old slots are dropped,
    /// and room is made.
    pub open spec fn ready_for(self, slot: u64) -> Self {
        let kept = self.purged(
            if slot > self.lag {
                (slot - self.lag) as u64
            } else {
                0
            },
        );
        ReassemblerView { slots: with_room_for(kept.slots, slot, kept.max_slots as nat), ..kept }
    }

    /// The slot of a shred after the shred was stored.
    pub open spec fn stream_with(self, shred: ShredView, observed_at: Instant) -> StreamView {
        let ready = self.ready_for(shred.slot);
        let stream = if ready.slots.contains_key(shred.slot) {
            ready.slots[shred.slot]
        } else {
            StreamView::empty(shred.slot, self.tail_min)
        };
        stream.with_shred(
            shred.index,
            shred.data_complete,
            shred.last_in_slot,
            shred.payload,
            observed_at,
        )
    }

    /// The data sets that a shred completes.
    pub open spec fn completed_by(self, shred: ShredView, observed_at: Instant) -> Seq<DataSetView> {
        self.stream_with(shred, observed_at).drained()
    }

    /// The reassembler after a shred. A finished slot is dropped.
    pub open spec fn after(self, shred: ShredView, observed_at: Instant) -> Self {
        let ready = self.ready_for(shred.slot);
        let stream = self.stream_with(shred, observed_at).after_drain();
        ReassemblerView {
            slots: if stream.finished {
                ready.slots.remove(shred.slot)
            } else {
                ready.slots.insert(shred.slot, stream)
            },
            ..ready
        }
    }
}

impl Default for DataSetReassembler {
    fn default() -> (r: Self)
        ensures
            r@ == (ReassemblerView { slots: Map::empty(), max_slots: 0, lag: 0, floor: 0, tail_min: 0 }),
    {
        let reassembler = DataSetReassembler {
            slots: HashMap::new(),
            max_tracked_slots: 0,
            retained_slot_lag: 0,
            last_pruned_floor: 0,
            tail_min_shreds_without_anchor: 0,
        };
        assert(reassembler@.slots =~= Map::<u64, StreamView>::empty());
        reassembler
    }
}

impl DataSetReassembler {
    /// A reassembler that holds `max_tracked_slots` slots at most.
    #[must_use]
    pub fn new(max_tracked_slots: usize) -> (r: Self)
        ensures
            r@ == ReassemblerView::empty(max_tracked_slots),
    {
        let quarter: usize = max_tracked_slots / 4;
        let retained_slot_lag: u64 = if quarter < 64 {
            64
        } else if quarter > 256 {
            256
        } else {
            quarter as u64
        };
        let reassembler = DataSetReassembler {
            slots: HashMap::new(),
            max_tracked_slots,
            retained_slot_lag,
            last_pruned_floor: 0,
            tail_min_shreds_without_anchor: 2,
        };
        assert(reassembler@.slots =~= Map::<u64, StreamView>::empty());
        reassembler
    }

    /// Sets how far behind the newest shred a slot is still kept; at least one slot.
    #[must_use]
    pub fn with_retained_slot_lag(self, retained_slot_lag: u64) -> (r: Self)
        ensures
            r@ == (ReassemblerView {
                lag: if retained_slot_lag == 0 {
                    1
                } else {
                    retained_slot_lag
                },
                ..self@
            }),
    {
        let lag: u64 = if retained_slot_lag == 0 {
            1
        } else {
            retained_slot_lag
        };
        DataSetReassembler { retained_slot_lag: lag, ..self }
    }

    /// Sets how many shreds a data set whose start is not known must have; at least one.
    #[must_use]
    pub fn with_tail_min_shreds_without_anchor(self, min_shreds: usize) -> (r: Self)
        ensures
            r@ == (ReassemblerView {
                tail_min: if min_shreds == 0 {
                    1
                } else {
                    min_shreds
                },
                ..self@
            }),
    {
        let fewest: usize = if min_shreds == 0 {
            1
        } else {
            min_shreds
        };
        DataSetReassembler { tail_min_shreds_without_anchor: fewest, ..self }
    }

    /// Takes in a data shred that is observed now, and gives the data sets that it completes.
    pub fn ingest_data_shred_meta(
        &mut self,
        slot: u64,
        index: u32,
        data_complete: bool,
        last_in_slot: bool,
        payload_fragment: SharedPayloadFragment,
    ) -> (r: Vec<CompletedDataSet>)
        ensures
            exists|now: Instant| #[trigger]
                ingested_at(
                    old(self)@,
                    ShredView { slot, index, data_complete, last_in_slot, payload: payload_fragment@ },
                    now,
                    dataset_views(r@),
                    final(self)@,
                ),
    {
        let now = Instant::now();
        let ghost before = self@;
        let ghost payload = payload_fragment@;
        let completed = self.ingest_data_shred_meta_at(
            slot,
            index,
            data_complete,
            last_in_slot,
            payload_fragment,
            now,
        );
        assert(ingested_at(
            before,
            ShredView { slot, index, data_complete, last_in_slot, payload },
            now,
            dataset_views(completed@),
            self@,
        ));
        completed
    }

    /// Takes in a data shred that was observed at a given time, and gives the data sets that it
    /// completes.
    pub fn ingest_data_shred_meta_at(
        &mut self,
        slot: u64,
        index: u32,
        data_complete: bool,
        last_in_slot: bool,
        payload_fragment: SharedPayloadFragment,
        observed_at: Instant,
    ) -> (r: Vec<CompletedDataSet>)
        ensures
            ingested_at(
                old(self)@,
                ShredView { slot, index, data_complete, last_in_slot, payload: payload_fragment@ },
                observed_at,
                dataset_views(r@),
                final(self)@,
            ),
    {
        let ghost before = self@;
        let ghost shred = ShredView { slot, index, data_complete, last_in_slot, payload: payload_fragment@ };
        let _purged = self.purge_older_than(slot.saturating_sub(self.retained_slot_lag));
        self.evict_if_needed(slot);
        let ghost ready = self@;
        let ghost stored = self.slots@;
        let mut stream = match self.slots.remove(&slot) {
            Some(stream) => stream,
            None => SlotStream::new(slot, self.tail_min_shreds_without_anchor),
        };
        stream.insert(index, data_complete, last_in_slot, payload_fragment, observed_at);
        assert(stream@ == before.stream_with(shred, observed_at));
        let completed = stream.drain_contiguous_datasets();
        if !stream.finished {
            self.slots.insert(slot, stream);
        }
        proof {
            assert(self@.slots =~= before.after(shred, observed_at).slots);
        }
        completed
    }

    fn evict_if_needed(&mut self, incoming_slot: u64)
        ensures
            final(self)@ == (ReassemblerView {
                slots: with_room_for(old(self)@.slots, incoming_slot, old(self)@.max_slots as nat),
                ..old(self)@
            }),
    {
        let ghost before = self.slots@;
        make_room_for(&mut self.slots, incoming_slot, self.max_tracked_slots);
        proof {
            assert(stream_map(before).dom() =~= before.dom());
            assert(stream_map(self.slots@) =~= with_room_for(
                stream_map(before),
                incoming_slot,
                self.max_tracked_slots as nat,
            ));
        }
    }

    /// Drops slots below `slot_floor`, and says how many there were.
    pub fn purge_older_than(&mut self, slot_floor: u64) -> (r: usize)
        ensures
            final(self)@ == old(self)@.purged(slot_floor),
            r == old(self)@.slots.len() - final(self)@.slots.len(),
    {
        if slot_floor <= self.last_pruned_floor {
            return 0;
        }
        let ghost slots = self.slots@;
        let before: usize = self.slots.len();
        drop_slots_below(&mut self.slots, slot_floor);
        self.last_pruned_floor = slot_floor;
        proof {
            assert(stream_map(slots).dom() =~= slots.dom());
            assert(stream_map(self.slots@).dom() =~= self.slots@.dom());
            assert(stream_map(self.slots@) =~= slots_from(stream_map(slots), slot_floor));
            assert(self.slots@.dom().subset_of(slots.dom()));
            vstd::set_lib::lemma_len_subset(self.slots@.dom(), slots.dom());
        }
        before - self.slots.len()
    }

    /// How many slots are held.
    #[must_use]
    pub fn tracked_slots(&self) -> (r: usize)
        ensures
            r == self@.slots.len(),
    {
        assert(self@.slots.dom() =~= self.slots@.dom());
        self.slots.len()
    }

    /// The open data set of a slot that starts first.
    #[must_use]
    pub fn inline_contiguous_dataset(&self, slot: u64) -> (r: Option<InlineContiguousDataSet>)
        ensures
            match r {
                Some(run) => {
                    &&& self@.slots.contains_key(slot)
                    &&& self@.slots[slot].open_runs().len() > 0
                    &&& run@ == self@.slots[slot].open_runs()[0]
                },
                None => self@.slots.contains_key(slot) ==> self@.slots[slot].open_runs().len() == 0,
            },
    {
        match self.slots.get(&slot) {
            Some(stream) => stream.inline_contiguous_dataset(),
            None => None,
        }
    }

    /// The open data sets of a slot, in order of their starts.
    #[must_use]
    pub fn inline_contiguous_datasets(&self, slot: u64) -> (r: Vec<InlineContiguousDataSet>)
        ensures
            inline_views(r@) == if self@.slots.contains_key(slot) {
                self@.slots[slot].open_runs()
            } else {
                Seq::empty()
            },
    {
        match self.slots.get(&slot) {
            Some(stream) => stream.inline_contiguous_datasets(),
            None => {
                let none: Vec<InlineContiguousDataSet> = Vec::new();
                assert(inline_views(none@) =~= Seq::<InlineView>::empty());
                none
            },
        }
    }
}

/// Whether a shred observed at a time completed some data sets and left a reassembler.
pub open spec fn ingested_at(
    before: ReassemblerView,
    shred: ShredView,
    observed_at: Instant,
    completed: Seq<DataSetView>,
    after: ReassemblerView,
) -> bool {
    &&& completed == before.completed_by(shred, observed_at)
    &&& after == before.after(shred, observed_at)
}

/// A reassembler that holds no more slots than it may never holds more than it may, or than one
/// if it may hold none.
pub proof fn held_slots_are_bounded(before: ReassemblerView, shred: ShredView, observed_at: Instant)
    requires
        before.slots.dom().finite(),
        before.slots.len() <= most_slots(before.max_slots as nat),
    ensures
        before.after(shred, observed_at).slots.dom().finite(),
        before.after(shred, observed_at).slots.len() <= most_slots(before.max_slots as nat),
        before.after(shred, observed_at).max_slots == before.max_slots,
{
    let floor = if shred.slot > before.lag {
        (shred.slot - before.lag) as u64
    } else {
        0
    };
    let kept = before.purged(floor);
    assert(kept.slots.dom().subset_of(before.slots.dom()));
    vstd::set_lib::lemma_len_subset(kept.slots.dom(), before.slots.dom());
    room_is_made(kept.slots, shred.slot, before.max_slots as nat);
    let ready = before.ready_for(shred.slot);
    assert(ready.slots.dom().subset_of(kept.slots.dom()));
    assert(ready.slots.dom().finite());
    let stream = before.stream_with(shred, observed_at).after_drain();
    assert(ready.slots.insert(shred.slot, stream).dom() =~= ready.slots.dom().insert(shred.slot));
    assert(ready.slots.remove(shred.slot).dom() =~= ready.slots.dom().remove(shred.slot));
}

/// A shred changes no other slot: each one is held afterwards as it was, or dropped.
pub proof fn other_slots_stay(
    before: ReassemblerView,
    shred: ShredView,
    observed_at: Instant,
    other: u64,
)
    requires
        other != shred.slot,
        before.after(shred, observed_at).slots.contains_key(other),
    ensures
        before.slots.contains_key(other),
        before.after(shred, observed_at).slots[other] == before.slots[other],
{
}

/// The floor below which slots were dropped never falls in a purge, a purge that raises it leaves no
/// slot below it, and the same purge once more changes nothing.
pub proof fn floor_only_rises(before: ReassemblerView, floor: u64)
    ensures
        before.purged(floor).floor >= before.floor,
        before.purged(floor).floor >= floor,
        floor > before.floor ==> forall|slot: u64| #[trigger]
            before.purged(floor).slots.contains_key(slot) ==> slot >= floor,
        before.purged(floor).purged(floor) == before.purged(floor),
{
}

/// No finished slot is held: a shred that finishes its slot takes it out.
pub proof fn held_slots_are_unfinished(before: ReassemblerView, shred: ShredView, observed_at: Instant)
    requires
        forall|slot: u64| #[trigger]
            before.slots.contains_key(slot) ==> !before.slots[slot].finished,
    ensures
        forall|slot: u64| #[trigger]
            before.after(shred, observed_at).slots.contains_key(slot) ==> !before.after(
                shred,
                observed_at,
            ).slots[slot].finished,
{
    assert forall|slot: u64| #[trigger]
        before.after(shred, observed_at).slots.contains_key(slot) implies !before.after(
        shred,
        observed_at,
    ).slots[slot].finished by {
        if slot != shred.slot {
            assert(before.slots.contains_key(slot));
        }
    }
}

/// Two shreds of one slot and of different indexes complete the same data sets and leave the same
/// reassembler in either order, if neither of them completes a data set when it comes first.
pub proof fn shred_order_does_not_matter(
    before: ReassemblerView,
    a: ShredView,
    a_observed_at: Instant,
    b: ShredView,
    b_observed_at: Instant,
)
    requires
        before.slots.contains_key(a.slot) ==> !before.slots[a.slot].finished,
        a.slot == b.slot,
        a.index != b.index,
        before.completed_by(a, a_observed_at).len() == 0,
        before.completed_by(b, b_observed_at).len() == 0,
    ensures
        before.after(a, a_observed_at).completed_by(b, b_observed_at) == before.after(
            b,
            b_observed_at,
        ).completed_by(a, a_observed_at),
        before.after(a, a_observed_at).after(b, b_observed_at) == before.after(b, b_observed_at).after(
            a,
            a_observed_at,
        ),
{
    incomplete_shred_is_stored(before, a, a_observed_at);
    incomplete_shred_is_stored(before, b, b_observed_at);
    let ready = before.ready_for(a.slot);
    let stream = if ready.slots.contains_key(a.slot) {
        ready.slots[a.slot]
    } else {
        StreamView::empty(a.slot, before.tail_min)
    };
    storing_order_does_not_matter(
        stream,
        a.index,
        a.data_complete,
        a.last_in_slot,
        a.payload,
        a_observed_at,
        b.index,
        b.data_complete,
        b.last_in_slot,
        b.payload,
        b_observed_at,
    );
    let after_a = before.after(a, a_observed_at);
    let after_b = before.after(b, b_observed_at);
    assert(after_a.ready_for(a.slot) == after_a);
    assert(after_b.ready_for(a.slot) == after_b);
    let both = after_a.stream_with(b, b_observed_at);
    assert(both == after_b.stream_with(a, a_observed_at));
    assert(ready.slots.insert(a.slot, before.stream_with(a, a_observed_at)).insert(a.slot, both.after_drain())
        =~= ready.slots.insert(a.slot, before.stream_with(b, b_observed_at)).insert(
        a.slot,
        both.after_drain(),
    ));
    assert(ready.slots.insert(a.slot, before.stream_with(a, a_observed_at)).remove(a.slot)
        =~= ready.slots.insert(a.slot, before.stream_with(b, b_observed_at)).remove(a.slot));
}

proof fn incomplete_shred_is_stored(before: ReassemblerView, shred: ShredView, observed_at: Instant)
    requires
        before.slots.contains_key(shred.slot) ==> !before.slots[shred.slot].finished,
        before.completed_by(shred, observed_at).len() == 0,
    ensures
        before.after(shred, observed_at).slots == before.ready_for(shred.slot).slots.insert(
            shred.slot,
            before.stream_with(shred, observed_at),
        ),
{
    let stream = before.stream_with(shred, observed_at);
    undrained_stream_stays(stream);
    assert(stream.fragments.contains_key(shred.index));
    assert(!stream.fragments.is_empty());
}

/// Another slot is dropped by a shred only for one of two reasons: it lies more than the lag behind
/// the slot of the shred, or it is the oldest one that is left and there is no room for the slot of
/// the shred. A slot that lies more than the lag behind is dropped whenever the floor rises by that.
pub proof fn slots_are_dropped_for_a_reason(
    before: ReassemblerView,
    shred: ShredView,
    observed_at: Instant,
    other: u64,
)
    requires
        other != shred.slot,
        before.slots.contains_key(other),
        before.slots.dom().finite(),
    ensures
        !before.after(shred, observed_at).slots.contains_key(other) ==> other + before.lag < shred.slot || {
            &&& !before.slots.contains_key(shred.slot)
            &&& before.slots.len() >= before.max_slots
            &&& forall|held: u64| #[trigger]
                before.slots.contains_key(held) ==> held >= other || held + before.lag < shred.slot
        },
        other + before.lag < shred.slot && shred.slot - before.lag > before.floor ==> !before.after(
            shred,
            observed_at,
        ).slots.contains_key(other),
        before.after(shred, observed_at).lag == before.lag,
        before.after(shred, observed_at).tail_min == before.tail_min,
        before.after(shred, observed_at).max_slots == before.max_slots,
{
    let floor = if shred.slot > before.lag {
        (shred.slot - before.lag) as u64
    } else {
        0
    };
    let kept = before.purged(floor);
    assert(kept.slots.dom().subset_of(before.slots.dom()));
    vstd::set_lib::lemma_len_subset(kept.slots.dom(), before.slots.dom());
    if other + before.lag >= shred.slot {
        assert(kept.slots.contains_key(other));
        room_drops_only_the_oldest(kept.slots, shred.slot, kept.max_slots as nat, other);
        if !before.after(shred, observed_at).slots.contains_key(other) {
            assert(!before.slots.contains_key(shred.slot)) by {
                if before.slots.contains_key(shred.slot) {
                    assert(kept.slots.contains_key(shred.slot));
                }
            }
            assert forall|held: u64| #[trigger] before.slots.contains_key(held) implies held >= other || held
                + before.lag < shred.slot by {
                if held + before.lag >= shred.slot {
                    assert(kept.slots.contains_key(held));
                }
            }
        }
    }
}

/// By default a quarter of the slots that are held lies between the newest one and the oldest one
/// that is kept, but no fewer than 64 and no more than 256.
pub proof fn default_lag_is_a_quarter(max_slots: usize)
    ensures
        64 <= default_slot_lag(max_slots) <= 256,
        256 <= max_slots <= 1024 ==> default_slot_lag(max_slots) == max_slots / 4,
        max_slots < 256 ==> default_slot_lag(max_slots) == 64,
        max_slots > 1024 ==> default_slot_lag(max_slots) == 256,
        ReassemblerView::empty(max_slots).lag == default_slot_lag(max_slots),
        ReassemblerView::empty(max_slots).tail_min == 2,
        ReassemblerView::empty(max_slots).floor == 0,
        forall|slot: u64| !#[trigger] ReassemblerView::empty(max_slots).slots.contains_key(slot),
{
}

/// The slot of a shred holds the shred afterwards, beside what it held before, or has given it out.
/// A slot that was not held starts without anything but the shred.
pub proof fn shred_joins_its_slot(before: ReassemblerView, shred: ShredView, observed_at: Instant)
    ensures
        ({
            let stream = before.stream_with(shred, observed_at);
            let ready = before.ready_for(shred.slot);
            let held = ready.slots.contains_key(shred.slot);
            &&& stream.fragments.contains_key(shred.index)
            &&& shred.data_complete || shred.last_in_slot ==> stream.boundaries.contains(shred.index)
            &&& forall|x: u32|
                x != shred.index ==> (#[trigger] stream.fragments.contains_key(x) <==> held
                    && ready.slots[shred.slot].fragments.contains_key(x))
            &&& forall|b: u32|
                b != shred.index ==> (#[trigger] stream.boundaries.contains(b) <==> held
                    && ready.slots[shred.slot].boundaries.contains(b))
            &&& !held ==> stream.fragments[shred.index].bytes == shred.payload && stream.tail_min
                == before.tail_min && stream.slot == shred.slot && stream.next_start == 0
            &&& before.completed_by(shred, observed_at) == stream.drained()
            &&& before.after(shred, observed_at).slots.contains_key(shred.slot)
                <==> !stream.after_drain().finished
            &&& !stream.after_drain().finished ==> before.after(shred, observed_at).slots[shred.slot]
                == stream.after_drain()
        }),
{
}

} // verus!
