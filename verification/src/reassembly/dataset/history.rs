//! What a reassembler goes through, and what the data sets that it gives out hold because of it.
use crate::reassembly::dataset::stream::{covered, drained_sets_are_cut, taken_sets_carry_the_slot};
use crate::reassembly::dataset::{DataSetReassembler, DataSetView, ReassemblerView, ShredView};
use crate::reassembly::index_set::{index_set_is_finite, listed};
use crate::time::Instant;
use vstd::prelude::*;

verus! {

/// What changes the slots of a reassembler.
pub enum ReassemblyStep {
    /// A shred comes in.
    Shred {
        /// The shred.
        shred: ShredView,
        /// When it was observed.
        observed_at: Instant,
    },
    /// Slots below a floor are dropped.
    Purge {
        /// The floor.
        floor: u64,
    },
}

/// The payload, if `step` brings one for an index of a slot, unless one is known already.
pub open spec fn noted(known: Option<Seq<u8>>, step: ReassemblyStep, slot: u64, index: u32) -> Option<Seq<u8>> {
    match step {
        ReassemblyStep::Shred { shred, .. } => if known is None && shred.slot == slot && shred.index == index {
            Some(shred.payload)
        } else {
            known
        },
        ReassemblyStep::Purge { .. } => known,
    }
}

/// Whether some data set holds the shred with an index of a slot.
pub open spec fn given_out(sets: Seq<DataSetView>, slot: u64, index: u32) -> bool {
    exists|i: int|
        0 <= i < sets.len() && (#[trigger] sets[i]).slot == slot && sets[i].start_index <= index
            <= sets[i].end_index
}

impl ReassemblerView {
    /// Whether each slot stands under its number, ends finitely many data sets, and has something
    /// left to come.
    pub open spec fn well_kept(self) -> bool {
        forall|slot: u64| #[trigger]
            self.slots.contains_key(slot) ==> {
                &&& self.slots[slot].slot == slot
                &&& self.slots[slot].boundaries.finite()
                &&& !self.slots[slot].finished
            }
    }

    /// The reassembler after a step.
    pub open spec fn stepped(self, step: ReassemblyStep) -> Self {
        match step {
            ReassemblyStep::Shred { shred, observed_at } => self.after(shred, observed_at),
            ReassemblyStep::Purge { floor } => self.purged(floor),
        }
    }

    /// The data sets that a step gives out.
    pub open spec fn gives(self, step: ReassemblyStep) -> Seq<DataSetView> {
        match step {
            ReassemblyStep::Shred { shred, observed_at } => self.completed_by(shred, observed_at),
            ReassemblyStep::Purge { .. } => Seq::empty(),
        }
    }

    /// Whether a step finds a slot tracked, after it has dropped what it drops.
    pub open spec fn goes_on_with(self, step: ReassemblyStep, slot: u64) -> bool {
        match step {
            ReassemblyStep::Shred { shred, .. } => self.ready_for(shred.slot).slots.contains_key(slot),
            ReassemblyStep::Purge { floor } => self.purged(floor).slots.contains_key(slot),
        }
    }

    /// The reassembler after some steps.
    pub open spec fn after_steps(self, steps: Seq<ReassemblyStep>) -> Self
        decreases steps.len(),
    {
        if steps.len() == 0 {
            self
        } else {
            self.after_steps(steps.drop_last()).stepped(steps.last())
        }
    }

    /// The payload that is held for an index of a slot.
    pub open spec fn held_payload(self, slot: u64, index: u32) -> Option<Seq<u8>> {
        if self.slots.contains_key(slot) && self.slots[slot].fragments.contains_key(index) {
            Some(self.slots[slot].fragments[index].bytes)
        } else {
            None
        }
    }

    /// After some steps, the first payload that came for an index of a slot since the index was last
    /// given out in a data set or the slot became tracked; what was held at the beginning counts as
    /// having come.
    pub open spec fn first_payload(self, steps: Seq<ReassemblyStep>, slot: u64, index: u32) -> Option<Seq<u8>>
        decreases steps.len(), 0nat,
    {
        if steps.len() == 0 {
            self.held_payload(slot, index)
        } else if given_out(self.after_steps(steps.drop_last()).gives(steps.last()), slot, index) {
            None
        } else {
            self.first_payload_with(steps.drop_last(), steps.last(), slot, index)
        }
    }

    /// The same in the middle of one more step: the step has dropped what it drops and brought what
    /// it brings, and has given out nothing yet.
    pub open spec fn first_payload_with(
        self,
        steps: Seq<ReassemblyStep>,
        step: ReassemblyStep,
        slot: u64,
        index: u32,
    ) -> Option<Seq<u8>>
        decreases steps.len(), 1nat,
    {
        noted(
            if self.after_steps(steps).goes_on_with(step, slot) {
                self.first_payload(steps, slot, index)
            } else {
                None
            },
            step,
            slot,
            index,
        )
    }
}

/// A slot that a reassembler holds ends finitely many data sets that are not complete.
pub proof fn held_boundaries_are_finite(reassembler: DataSetReassembler, slot: u64)
    requires
        reassembler@.slots.contains_key(slot),
    ensures
        reassembler@.slots[slot].boundaries.finite(),
{
    index_set_is_finite(reassembler.slots@[slot].dataset_boundaries);
}

/// A reassembler without slots is well kept, and a step leaves a well-kept one so.
pub proof fn reassembler_stays_well_kept(before: ReassemblerView, step: ReassemblyStep, max_slots: usize)
    ensures
        ReassemblerView::empty(max_slots).well_kept(),
        before.well_kept() ==> before.stepped(step).well_kept(),
{
    if before.well_kept() {
        if let ReassemblyStep::Shred { shred, observed_at } = step {
            let stream = before.stream_with(shred, observed_at);
            taken_sets_carry_the_slot(stream, listed(stream.boundaries));
            let after = before.after(shred, observed_at);
            assert forall|slot: u64| #[trigger] after.slots.contains_key(slot) implies {
                &&& after.slots[slot].slot == slot
                &&& after.slots[slot].boundaries.finite()
                &&& !after.slots[slot].finished
            } by {
                if slot != shred.slot {
                    assert(before.slots.contains_key(slot));
                }
            }
        }
    }
}

proof fn shred_leaves_first_payloads(
    before: ReassemblerView,
    shred: ShredView,
    observed_at: Instant,
    slot: u64,
    index: u32,
)
    requires
        before.well_kept(),
    ensures
        ({
            let step = ReassemblyStep::Shred { shred, observed_at };
            let known = if before.goes_on_with(step, slot) {
                before.held_payload(slot, index)
            } else {
                None
            };
            before.stepped(step).held_payload(slot, index) == if given_out(before.gives(step), slot, index) {
                None
            } else {
                noted(known, step, slot, index)
            }
        }),
{
    let step = ReassemblyStep::Shred { shred, observed_at };
    let stream = before.stream_with(shred, observed_at);
    let sets = stream.drained();
    let list = listed(stream.boundaries);
    taken_sets_carry_the_slot(stream, list);
    drained_sets_are_cut(stream);
    if slot == shred.slot {
        assert(given_out(sets, slot, index) == covered(sets, index)) by {
            if covered(sets, index) {
                let i = choose|i: int|
                    0 <= i < sets.len() && (#[trigger] sets[i]).start_index <= index <= sets[i].end_index;
                assert(sets[i].slot == slot);
            }
        }
        let rest = stream.after_drain();
        assert(rest.fragments == stream.after_boundaries(list).fragments);
        if rest.finished {
            assert(!rest.fragments.contains_key(index));
        }
        assert(stream.fragments.contains_key(index) ==> rest.fragments.contains_key(index) || covered(
            sets,
            index,
        ));
    } else {
        assert(!given_out(sets, slot, index));
    }
}

/// What a well-kept reassembler holds after any steps is, for each index of each slot, the first
/// payload that came for it since it was last given out or the slot became tracked, and the
/// reassembler is still well kept.
pub proof fn held_payloads_came_first(start: ReassemblerView, steps: Seq<ReassemblyStep>)
    requires
        start.well_kept(),
    ensures
        start.after_steps(steps).well_kept(),
        forall|slot: u64, index: u32| #[trigger]
            start.after_steps(steps).held_payload(slot, index) == start.first_payload(steps, slot, index),
    decreases steps.len(),
{
    if steps.len() > 0 {
        let fewer = steps.drop_last();
        let step = steps.last();
        let before = start.after_steps(fewer);
        held_payloads_came_first(start, fewer);
        reassembler_stays_well_kept(before, step, 0);
        assert forall|slot: u64, index: u32| #[trigger]
            start.after_steps(steps).held_payload(slot, index) == start.first_payload(steps, slot, index) by {
            assert(before.held_payload(slot, index) == start.first_payload(fewer, slot, index));
            match step {
                ReassemblyStep::Shred { shred, observed_at } => {
                    shred_leaves_first_payloads(before, shred, observed_at, slot, index);
                },
                ReassemblyStep::Purge { floor } => {},
            }
        }
    }
}

/// Whatever a reassembler went through, each data set that a shred completes is of the slot of the
/// shred and holds, for every index from its first to its last, the first payload that came for that
/// index since it was last given out or the slot became tracked; and each data set ends before the
/// next one starts, so that no shred is in two of them.
pub proof fn completed_sets_hold_first_payloads(
    start: ReassemblerView,
    steps: Seq<ReassemblyStep>,
    shred: ShredView,
    observed_at: Instant,
)
    requires
        start.well_kept(),
    ensures
        ({
            let step = ReassemblyStep::Shred { shred, observed_at };
            let sets = start.after_steps(steps).completed_by(shred, observed_at);
            &&& forall|i: int|
                0 <= i < sets.len() ==> {
                    &&& (#[trigger] sets[i]).slot == shred.slot
                    &&& sets[i].start_index <= sets[i].end_index
                    &&& sets[i].fragments.len() == sets[i].end_index - sets[i].start_index + 1
                }
            &&& forall|i: int, k: int|
                0 <= i < sets.len() && 0 <= k < sets[i].fragments.len() ==> Some(
                    #[trigger] sets[i].fragments[k],
                ) == start.first_payload_with(steps, step, shred.slot, (sets[i].start_index + k) as u32)
            &&& forall|i: int, j: int|
                0 <= i < j < sets.len() ==> (#[trigger] sets[i]).end_index < (#[trigger] sets[j]).start_index
        }),
{
    let step = ReassemblyStep::Shred { shred, observed_at };
    let before = start.after_steps(steps);
    held_payloads_came_first(start, steps);
    let stream = before.stream_with(shred, observed_at);
    let sets = stream.drained();
    taken_sets_carry_the_slot(stream, listed(stream.boundaries));
    drained_sets_are_cut(stream);
    assert forall|i: int, k: int| 0 <= i < sets.len() && 0 <= k < sets[i].fragments.len() implies Some(
        #[trigger] sets[i].fragments[k],
    ) == start.first_payload_with(steps, step, shred.slot, (sets[i].start_index + k) as u32) by {
        let index = (sets[i].start_index + k) as u32;
        assert(stream.fragments.contains_key(index));
        assert(sets[i].fragments[k] == stream.fragments[index].bytes);
        assert(before.held_payload(shred.slot, index) == start.first_payload(steps, shred.slot, index));
    }
}

} // verus!
