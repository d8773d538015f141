//! Whole slots: the payload of a slot, once every data shred of it is there.
use crate::slots::{make_room_for, most_slots, room_drops_only_the_oldest, room_is_made, with_room_for};
use std::collections::HashMap;
use vstd::prelude::*;

verus! {

broadcast use vstd::std_specs::hash::group_hash_axioms;

/// A slot that is complete.
#[derive(Debug, Clone, PartialEq, Eq)]
pub struct CompletedSlot {
    /// The slot.
    pub slot: u64,
    /// Its last shred.
    pub last_index: u32,
    /// The payloads of its shreds, one behind the other.
    pub payload: Vec<u8>,
}

/// A stored data shred.
#[derive(Debug)]
pub struct SlotFragment {
    /// Its payload.
    pub payload: Vec<u8>,
    /// Whether it ends a data set.
    pub data_complete: bool,
}

/// A stored data shred in specifications.
pub struct SlotFragmentView {
    /// Its payload.
    pub payload: Seq<u8>,
    /// Whether it ends a data set.
    pub data_complete: bool,
}

impl View for SlotFragment {
    type V = SlotFragmentView;

    open spec fn view(&self) -> SlotFragmentView {
        SlotFragmentView { payload: self.payload@, data_complete: self.data_complete }
    }
}

/// The shreds of a slot.
#[derive(Debug)]
pub struct SlotAccumulator {
    /// The slot.
    pub slot: u64,
    /// Stored shreds by index.
    pub data_by_index: HashMap<u32, SlotFragment>,
    /// The shred that was last said to end the slot.
    pub last_index: Option<u32>,
}

/// The shreds of a slot in specifications.
pub struct AccumulatorView {
    /// The slot.
    pub slot: u64,
    /// Stored shreds by index.
    pub data: Map<u32, SlotFragmentView>,
    /// The shred that was last said to end the slot.
    pub last_index: Option<u32>,
}

/// Shreds in specifications.
pub open spec fn slot_fragment_map(data: Map<u32, SlotFragment>) -> Map<u32, SlotFragmentView> {
    data.map_values(|fragment: SlotFragment| fragment@)
}

impl View for SlotAccumulator {
    type V = AccumulatorView;

    open spec fn view(&self) -> AccumulatorView {
        AccumulatorView {
            slot: self.slot,
            data: slot_fragment_map(self.data_by_index@),
            last_index: self.last_index,
        }
    }
}

/// The payloads of the first `count` shreds, one behind the other.
pub open spec fn joined_payload(data: Map<u32, SlotFragmentView>, count: nat) -> Seq<u8>
    decreases count,
{
    if count == 0 {
        Seq::empty()
    } else {
        joined_payload(data, (count - 1) as nat) + data[(count - 1) as u32].payload
    }
}

impl AccumulatorView {
    /// A slot without shreds.
    pub open spec fn empty(slot: u64) -> Self {
        AccumulatorView { slot, data: Map::empty(), last_index: None }
    }

    /// The slot with a shred stored. The first one for an index stays.
    pub open spec fn with_shred(
        self,
        index: u32,
        data_complete: bool,
        last_in_slot: bool,
        payload: Seq<u8>,
    ) -> Self {
        AccumulatorView {
            last_index: if last_in_slot {
                Some(index)
            } else {
                self.last_index
            },
            data: if self.data.contains_key(index) {
                self.data
            } else {
                self.data.insert(index, SlotFragmentView { payload, data_complete })
            },
            ..self
        }
    }

    /// Whether the slot is complete: its last shred is known and ends a data set, and all shreds
    /// up to it are there. The last index there is ends no slot.
    pub open spec fn is_complete(self) -> bool {
        &&& self.last_index is Some
        &&& self.last_index->0 < u32::MAX
        &&& forall|index: u32| index <= self.last_index->0 ==> #[trigger] self.data.contains_key(index)
        &&& self.data[self.last_index->0].data_complete
    }

    /// The payload of the complete slot.
    pub open spec fn payload(self) -> Seq<u8> {
        joined_payload(self.data, (self.last_index->0 + 1) as nat)
    }
}

impl SlotAccumulator {
    /// A slot without shreds.
    pub fn new(slot: u64) -> (r: Self)
        ensures
            r@ == AccumulatorView::empty(slot),
    {
        let accumulator = SlotAccumulator { slot, data_by_index: HashMap::new(), last_index: None };
        assert(accumulator@.data =~= Map::<u32, SlotFragmentView>::empty());
        accumulator
    }

    /// Stores a shred.
    pub fn insert(&mut self, index: u32, data_complete: bool, last_in_slot: bool, payload: Vec<u8>)
        ensures
            final(self)@ == old(self)@.with_shred(index, data_complete, last_in_slot, payload@),
    {
        let ghost before = self@;
        let ghost bytes = payload@;
        if last_in_slot {
            self.last_index = Some(index);
        }
        if !self.data_by_index.contains_key(&index) {
            self.data_by_index.insert(index, SlotFragment { payload, data_complete });
        }
        assert(self@.data =~= before.with_shred(index, data_complete, last_in_slot, bytes).data);
    }

    /// The slot, if it is complete.
    pub fn try_complete(&self) -> (r: Option<CompletedSlot>)
        ensures
            match r {
                Some(done) => {
                    &&& self@.is_complete()
                    &&& done.slot == self@.slot
                    &&& self@.last_index == Some(done.last_index)
                    &&& done.payload@ == self@.payload()
                },
                None => !self@.is_complete(),
            },
    {
        let last_index: u32 = match self.last_index {
            Some(last_index) => last_index,
            None => {
                return None;
            },
        };
        if last_index == u32::MAX {
            return None;
        }
        let ghost data = self@.data;
        let mut payload: Vec<u8> = Vec::new();
        let mut index: u32 = 0;
        while index <= last_index
            invariant
                last_index < u32::MAX,
                self.last_index == Some(last_index),
                data == slot_fragment_map(self.data_by_index@),
                index <= last_index + 1,
                payload@ == joined_payload(data, index as nat),
                forall|seen: u32| seen < index ==> #[trigger] data.contains_key(seen),
            decreases last_index + 1 - index,
        {
            match self.data_by_index.get(&index) {
                Some(fragment) => {
                    assert(fragment@ == data[index]);
                    payload.extend_from_slice(fragment.payload.as_slice());
                    assert(payload@ =~= joined_payload(data, (index + 1) as nat));
                },
                None => {
                    assert(!self@.data.contains_key(index));
                    return None;
                },
            }
            index += 1;
        }
        assert(data.contains_key(last_index));
        let ends: bool = match self.data_by_index.get(&last_index) {
            Some(last) => last.data_complete,
            None => false,
        };
        if !ends {
            return None;
        }
        Some(CompletedSlot { slot: self.slot, last_index, payload })
    }
}

/// Reassembles whole slots.
#[derive(Debug)]
pub struct SlotReassembler {
    /// Slots with shreds.
    pub slots: HashMap<u64, SlotAccumulator>,
    /// Most slots held at once.
    pub max_tracked_slots: usize,
}

/// A slot reassembler in specifications.
pub struct SlotReassemblerView {
    /// Slots with shreds.
    pub slots: Map<u64, AccumulatorView>,
    /// Most slots held at once.
    pub max_slots: usize,
}

/// Slots in specifications.
pub open spec fn accumulator_map(slots: Map<u64, SlotAccumulator>) -> Map<u64, AccumulatorView> {
    slots.map_values(|slot: SlotAccumulator| slot@)
}

impl View for SlotReassembler {
    type V = SlotReassemblerView;

    open spec fn view(&self) -> SlotReassemblerView {
        SlotReassemblerView { slots: accumulator_map(self.slots@), max_slots: self.max_tracked_slots }
    }
}

impl SlotReassemblerView {
    /// The slots when a shred of `slot` is about to be stored: room is made.
    pub open spec fn ready_for(self, slot: u64) -> Map<u64, AccumulatorView> {
        with_room_for(self.slots, slot, self.max_slots as nat)
    }

    /// The slot of a shred after the shred was stored.
    pub open spec fn slot_with(
        self,
        slot: u64,
        index: u32,
        data_complete: bool,
        last_in_slot: bool,
        payload: Seq<u8>,
    ) -> AccumulatorView {
        let known = if self.ready_for(slot).contains_key(slot) {
            self.ready_for(slot)[slot]
        } else {
            AccumulatorView::empty(slot)
        };
        known.with_shred(index, data_complete, last_in_slot, payload)
    }

    /// The slots after a shred. A complete slot is dropped.
    pub open spec fn after(self, slot: u64, stored: AccumulatorView) -> Self {
        SlotReassemblerView {
            slots: if stored.is_complete() {
                self.ready_for(slot).remove(slot)
            } else {
                self.ready_for(slot).insert(slot, stored)
            },
            ..self
        }
    }
}

impl Default for SlotReassembler {
    fn default() -> (r: Self)
        ensures
            r@ == (SlotReassemblerView { slots: Map::empty(), max_slots: 0 }),
    {
        SlotReassembler::new(0)
    }
}

impl SlotReassembler {
    /// A reassembler that holds `max_tracked_slots` slots at most.
    #[must_use]
    pub fn new(max_tracked_slots: usize) -> (r: Self)
        ensures
            r@ == (SlotReassemblerView { slots: Map::empty(), max_slots: max_tracked_slots }),
    {
        let reassembler = SlotReassembler { slots: HashMap::new(), max_tracked_slots };
        assert(reassembler@.slots =~= Map::<u64, AccumulatorView>::empty());
        reassembler
    }

    /// Takes in a data shred, and gives the slot if that completes it.
    pub fn ingest_data_shred_meta(
        &mut self,
        slot: u64,
        index: u32,
        data_complete: bool,
        last_in_slot: bool,
        payload: Vec<u8>,
    ) -> (r: Option<CompletedSlot>)
        ensures
            ({
                let stored = old(self)@.slot_with(slot, index, data_complete, last_in_slot, payload@);
                &&& final(self)@ == old(self)@.after(slot, stored)
                &&& match r {
                    Some(done) => {
                        &&& stored.is_complete()
                        &&& done.slot == stored.slot
                        &&& stored.last_index == Some(done.last_index)
                        &&& done.payload@ == stored.payload()
                    },
                    None => !stored.is_complete(),
                }
            }),
    {
        let ghost before = self@;
        let ghost bytes = payload@;
        self.evict_if_needed(slot);
        let ghost ready = self@.slots;
        let mut entry = match self.slots.remove(&slot) {
            Some(entry) => entry,
            None => SlotAccumulator::new(slot),
        };
        entry.insert(index, data_complete, last_in_slot, payload);
        let ghost stored = before.slot_with(slot, index, data_complete, last_in_slot, bytes);
        assert(entry@ == stored);
        match entry.try_complete() {
            Some(completed) => {
                assert(self@.slots =~= ready.remove(slot));
                Some(completed)
            },
            None => {
                self.slots.insert(slot, entry);
                assert(self@.slots =~= ready.insert(slot, stored));
                None
            },
        }
    }

    fn evict_if_needed(&mut self, incoming_slot: u64)
        ensures
            final(self)@ == (SlotReassemblerView {
                slots: old(self)@.ready_for(incoming_slot),
                ..old(self)@
            }),
    {
        let ghost before = self.slots@;
        make_room_for(&mut self.slots, incoming_slot, self.max_tracked_slots);
        proof {
            assert(accumulator_map(before).dom() =~= before.dom());
            assert(accumulator_map(self.slots@) =~= with_room_for(
                accumulator_map(before),
                incoming_slot,
                self.max_tracked_slots as nat,
            ));
        }
    }
}

/// A slot reassembler that holds no more slots than it may never holds more than it may, or than
/// one if it may hold none.
pub proof fn slots_in_assembly_are_bounded(
    before: SlotReassemblerView,
    slot: u64,
    stored: AccumulatorView,
)
    requires
        before.slots.dom().finite(),
        before.slots.len() <= most_slots(before.max_slots as nat),
    ensures
        before.after(slot, stored).slots.dom().finite(),
        before.after(slot, stored).slots.len() <= most_slots(before.max_slots as nat),
{
    room_is_made(before.slots, slot, before.max_slots as nat);
    let ready = before.ready_for(slot);
    assert(ready.dom().subset_of(before.slots.dom()));
    assert(ready.insert(slot, stored).dom() =~= ready.dom().insert(slot));
    assert(ready.remove(slot).dom() =~= ready.dom().remove(slot));
}

/// A repeated shred does not change what a slot holds, and shreds of different indexes can be
/// stored in either order, unless both are said to end the slot.
pub proof fn arrival_order_does_not_matter(
    slot: AccumulatorView,
    a: u32,
    a_complete: bool,
    a_last: bool,
    a_payload: Seq<u8>,
    b: u32,
    b_complete: bool,
    b_last: bool,
    b_payload: Seq<u8>,
)
    requires
        a != b,
        !(a_last && b_last),
    ensures
        slot.with_shred(a, a_complete, a_last, a_payload).with_shred(b, b_complete, b_last, b_payload)
            == slot.with_shred(b, b_complete, b_last, b_payload).with_shred(
            a,
            a_complete,
            a_last,
            a_payload,
        ),
        slot.with_shred(a, a_complete, a_last, a_payload).with_shred(a, a_complete, a_last, b_payload)
            == slot.with_shred(a, a_complete, a_last, a_payload),
{
    let ab = slot.with_shred(a, a_complete, a_last, a_payload).with_shred(
        b,
        b_complete,
        b_last,
        b_payload,
    );
    let ba = slot.with_shred(b, b_complete, b_last, b_payload).with_shred(
        a,
        a_complete,
        a_last,
        a_payload,
    );
    assert(ab.data =~= ba.data);
}

/// The number of payload bytes in the shreds of a slot before an index.
pub open spec fn bytes_before(data: Map<u32, SlotFragmentView>, index: nat) -> nat
    decreases index,
{
    if index == 0 {
        0
    } else {
        bytes_before(data, (index - 1) as nat) + data[(index - 1) as u32].payload.len()
    }
}

proof fn joined_payload_holds_each(data: Map<u32, SlotFragmentView>, count: nat, index: nat)
    requires
        index < count,
    ensures
        joined_payload(data, count).len() == bytes_before(data, count),
        bytes_before(data, index) + data[index as u32].payload.len() <= bytes_before(data, count),
        joined_payload(data, count).subrange(
            bytes_before(data, index) as int,
            (bytes_before(data, index) + data[index as u32].payload.len()) as int,
        ) == data[index as u32].payload,
    decreases count,
{
    let fewer = (count - 1) as nat;
    if fewer == 0 {
        assert(joined_payload(data, 0).len() == 0);
        assert(joined_payload(data, 1) =~= data[0u32].payload);
    } else {
        joined_payload_holds_each(
            data,
            fewer,
            if index < fewer {
                index
            } else {
                0
            },
        );
    }
    let start = bytes_before(data, index) as int;
    let end = start + data[index as u32].payload.len();
    assert(joined_payload(data, count).subrange(start, end) =~= data[index as u32].payload) by {
        if index < fewer {
            assert(joined_payload(data, count).subrange(start, end) =~= joined_payload(data, fewer).subrange(
                start,
                end,
            ));
        }
    }
}

/// The payload of a complete slot holds the payload of every shred from the first to the last one,
/// each right behind the payloads of the shreds before it, and nothing else, whichever of the shreds
/// end data sets.
pub proof fn slot_payload_holds_every_shred(slot: AccumulatorView, index: u32)
    requires
        slot.is_complete(),
        index <= slot.last_index->0,
    ensures
        slot.payload().len() == bytes_before(slot.data, (slot.last_index->0 + 1) as nat),
        bytes_before(slot.data, index as nat) + slot.data[index].payload.len() <= slot.payload().len(),
        slot.payload().subrange(
            bytes_before(slot.data, index as nat) as int,
            (bytes_before(slot.data, index as nat) + slot.data[index].payload.len()) as int,
        ) == slot.data[index].payload,
{
    joined_payload_holds_each(slot.data, (slot.last_index->0 + 1) as nat, index as nat);
}

/// A slot is complete exactly if the shred that ends it is known, ends a data set too, and is there
/// with every shred before it; a slot does not end with the last index there is.
pub proof fn complete_slots_lack_nothing(slot: AccumulatorView)
    ensures
        slot.is_complete() <==> exists|last: u32|
            slot.last_index == Some(last) && last < u32::MAX && slot.data.contains_key(last)
                && slot.data[last].data_complete && forall|x: u32|
                x < last ==> #[trigger] slot.data.contains_key(x),
{
    if slot.last_index is Some {
        let last = slot.last_index->0;
        if slot.data.contains_key(last) && (forall|x: u32| x < last ==> #[trigger] slot.data.contains_key(x)) {
            assert forall|x: u32| x <= last implies #[trigger] slot.data.contains_key(x) by {}
        }
    }
}

/// Storing a shred keeps the payload that came first for its index and touches no other index; the
/// shred that was last said to end the slot is the one that does.
pub proof fn stored_slot_shred_is_noted(
    slot: AccumulatorView,
    index: u32,
    data_complete: bool,
    last_in_slot: bool,
    payload: Seq<u8>,
)
    ensures
        ({
            let after = slot.with_shred(index, data_complete, last_in_slot, payload);
            &&& after.slot == slot.slot
            &&& after.data.contains_key(index)
            &&& slot.data.contains_key(index) ==> after.data[index] == slot.data[index]
            &&& !slot.data.contains_key(index) ==> after.data[index].payload == payload
                && after.data[index].data_complete == data_complete
            &&& forall|x: u32|
                x != index ==> (#[trigger] after.data.contains_key(x) <==> slot.data.contains_key(x))
            &&& forall|x: u32| x != index ==> #[trigger] after.data[x] == slot.data[x]
            &&& last_in_slot ==> after.last_index == Some(index)
            &&& !last_in_slot ==> after.last_index == slot.last_index
        }),
{
}

/// A shred joins what its slot holds, or starts the slot. A slot that it completes is dropped; one
/// that it does not complete is held. Another slot is dropped only if it is the oldest and there is
/// no room for the slot of the shred, and stays as it was otherwise.
pub proof fn shred_joins_its_whole_slot(
    before: SlotReassemblerView,
    slot: u64,
    index: u32,
    data_complete: bool,
    last_in_slot: bool,
    payload: Seq<u8>,
    other: u64,
)
    requires
        before.slots.dom().finite(),
    ensures
        ({
            let stored = before.slot_with(slot, index, data_complete, last_in_slot, payload);
            let after = before.after(slot, stored);
            &&& after.max_slots == before.max_slots
            &&& after.slots.contains_key(slot) <==> !stored.is_complete()
            &&& !stored.is_complete() ==> after.slots[slot] == stored
            &&& stored.data.contains_key(index)
            &&& before.slots.contains_key(slot) ==> stored == before.slots[slot].with_shred(
                index,
                data_complete,
                last_in_slot,
                payload,
            )
            &&& !before.slots.contains_key(slot) ==> {
                &&& stored.slot == slot
                &&& stored.data[index].payload == payload
                &&& forall|x: u32| #[trigger] stored.data.contains_key(x) ==> x == index
                &&& stored.last_index is Some ==> last_in_slot
            }
            &&& other != slot && after.slots.contains_key(other) ==> before.slots.contains_key(other)
                && after.slots[other] == before.slots[other]
            &&& other != slot && before.slots.contains_key(other) ==> (!after.slots.contains_key(other) <==> {
                &&& !before.slots.contains_key(slot)
                &&& before.slots.len() >= before.max_slots
                &&& forall|held: u64| #[trigger] before.slots.contains_key(held) ==> other <= held
            })
        }),
{
    if before.slots.contains_key(slot) {
        room_drops_only_the_oldest(before.slots, slot, before.max_slots as nat, slot);
    }
    if before.slots.contains_key(other) {
        room_drops_only_the_oldest(before.slots, slot, before.max_slots as nat, other);
    }
}

} // verus!
