//! Open data sets: what can be read of a slot before its data sets are complete.
pub mod fec;
pub mod laws;
pub mod stream;

use crate::reassembly::dataset::stream::inline_views;
use crate::reassembly::dataset::{default_slot_lag, InlineContiguousDataSet, InlineView};
use crate::reassembly::fragment::{capped, fragment_views, total_bytes, SharedPayloadFragment};
use crate::reassembly::inline::stream::{scratch_views, synced, InlineSlotStream, InlineStreamView};
use crate::reassembly::run::{
    anchored_starts, run_end, run_goes_on, run_is_longest, run_needs_only_what_follows,
};
use crate::slots::{
    drop_slots_below, make_room_for, most_slots, room_is_made, slots_from, with_room_for,
};
use crate::time::Instant;
use std::collections::HashMap;
use vstd::prelude::*;

verus! {

broadcast use vstd::std_specs::hash::group_hash_axioms;

/// What a data shred brought about.
#[derive(Debug, Clone, Copy, PartialEq, Eq, Structural)]
pub struct InlineDataObservation {
    /// Whether its forward error correction set became ready.
    pub fec_set_became_ready: bool,
}

impl Default for InlineDataObservation {
    fn default() -> (r: Self)
        ensures
            !r.fec_set_became_ready,
    {
        InlineDataObservation { fec_set_became_ready: false }
    }
}

/// What a code shred brought about.
#[derive(Debug, Clone, Copy, PartialEq, Eq, Structural)]
pub struct InlineCodeObservation {
    /// Whether its forward error correction set became ready.
    pub fec_set_became_ready: bool,
}

impl Default for InlineCodeObservation {
    fn default() -> (r: Self)
        ensures
            !r.fec_set_became_ready,
    {
        InlineCodeObservation { fec_set_became_ready: false }
    }
}

/// An open data set with its size, in a place that is written again and again.
#[derive(Debug)]
pub struct InlineContiguousDataSetScratch {
    /// The slot.
    pub slot: u64,
    /// First shred.
    pub start_index: u32,
    /// Last shred so far.
    pub end_index: u32,
    /// Payloads in order.
    pub payload_fragments: Vec<SharedPayloadFragment>,
    /// When each shred was observed.
    pub fragment_observed_ats: Vec<Instant>,
    /// The number of payload bytes, capped at what a `usize` holds.
    pub total_payload_len: usize,
}

/// An open data set with its size, in specifications.
pub struct ScratchView {
    /// The open data set.
    pub run: InlineView,
    /// The number of payload bytes.
    pub total_payload_len: usize,
}

impl View for InlineContiguousDataSetScratch {
    type V = ScratchView;

    open spec fn view(&self) -> ScratchView {
        ScratchView {
            run: InlineView {
                slot: self.slot,
                start_index: self.start_index,
                end_index: self.end_index,
                fragments: fragment_views(self.payload_fragments@),
                observed_ats: self.fragment_observed_ats@,
            },
            total_payload_len: self.total_payload_len,
        }
    }
}

impl Default for InlineContiguousDataSetScratch {
    fn default() -> (r: Self)
        ensures
            r@ == (ScratchView {
                run: InlineView {
                    slot: 0,
                    start_index: 0,
                    end_index: 0,
                    fragments: Seq::empty(),
                    observed_ats: Seq::empty(),
                },
                total_payload_len: 0,
            }),
    {
        let scratch = InlineContiguousDataSetScratch {
            slot: 0,
            start_index: 0,
            end_index: 0,
            payload_fragments: Vec::new(),
            fragment_observed_ats: Vec::new(),
            total_payload_len: 0,
        };
        assert(scratch@.run.fragments =~= Seq::<Seq<u8>>::empty());
        scratch
    }
}

/// What is said of an open data set that a sink was brought up to date with.
#[derive(Debug, Clone, Copy, PartialEq, Eq, Structural)]
pub struct InlineContiguousDataSetMeta {
    /// The slot.
    pub slot: u64,
    /// First shred.
    pub start_index: u32,
    /// Last shred so far.
    pub end_index: u32,
    /// The number of shreds.
    pub fragment_count: usize,
    /// The number of payload bytes, capped at what a `usize` holds.
    pub total_payload_len: usize,
}

/// A call that changes a sink.
pub enum SinkCall {
    /// Everything that it holds is dropped.
    Reset,
    /// Room is made.
    Reserve {
        /// For how many shreds.
        fragments: usize,
        /// For how many bytes.
        bytes: usize,
    },
    /// A shred is added.
    Append {
        /// Its payload.
        bytes: Seq<u8>,
        /// When it was observed.
        observed_at: Instant,
    },
}

/// A place that collects the shreds of an open data set. What an implementation does with a call
/// is its own affair: only the row of calls that it got is spoken of.
pub trait InlineContiguousDataSetSink {
    /// The calls so far that change the sink. A verified implementation says how it keeps them.
    closed spec fn calls(&self) -> Seq<SinkCall> {
        vstd::pervasive::arbitrary()
    }

    /// The number of shreds that are held.
    fn existing_fragments(&self) -> usize;

    /// The number of payload bytes that are held.
    fn payload_len(&self) -> usize;

    /// Drops everything that is held.
    fn reset_inline_contiguous_dataset(&mut self)
        ensures
            final(self).calls() == old(self).calls().push(SinkCall::Reset),
    ;

    /// Makes room.
    fn reserve_inline_contiguous_dataset(&mut self, additional_fragments: usize, additional_bytes: usize)
        ensures
            final(self).calls() == old(self).calls().push(
                SinkCall::Reserve { fragments: additional_fragments, bytes: additional_bytes },
            ),
    ;

    /// Adds a shred.
    fn append_inline_contiguous_fragment(&mut self, fragment: &SharedPayloadFragment, observed_at: Instant)
        ensures
            final(self).calls() == old(self).calls().push(
                SinkCall::Append { bytes: fragment@, observed_at },
            ),
    ;
}

/// The payloads that a sink holds after some calls, if it does what the calls say.
pub open spec fn collected(held: Seq<Seq<u8>>, calls: Seq<SinkCall>) -> Seq<Seq<u8>>
    decreases calls.len(),
{
    if calls.len() == 0 {
        held
    } else {
        let so_far = collected(held, calls.drop_last());
        match calls.last() {
            SinkCall::Reset => Seq::empty(),
            SinkCall::Reserve { .. } => so_far,
            SinkCall::Append { bytes, .. } => so_far.push(bytes),
        }
    }
}

/// Observes the shreds of several slots.
#[derive(Debug)]
pub struct InlineDataReassembler {
    /// Slots with shreds.
    pub slots: HashMap<u64, InlineSlotStream>,
    /// Most slots held at once.
    pub max_tracked_slots: usize,
    /// How far behind the newest shred a slot is still kept.
    pub retained_slot_lag: u64,
    /// Slots below were dropped.
    pub last_pruned_floor: u64,
}

/// An inline reassembler in specifications.
pub struct InlineReassemblerView {
    /// Slots with shreds.
    pub slots: Map<u64, InlineStreamView>,
    /// Most slots held at once.
    pub max_slots: usize,
    /// How far behind the newest shred a slot is still kept.
    pub lag: u64,
    /// Slots below were dropped.
    pub floor: u64,
}

/// Slots in specifications.
pub open spec fn inline_stream_map(slots: Map<u64, InlineSlotStream>) -> Map<u64, InlineStreamView> {
    slots.map_values(|stream: InlineSlotStream| stream@)
}

impl View for InlineDataReassembler {
    type V = InlineReassemblerView;

    open spec fn view(&self) -> InlineReassemblerView {
        InlineReassemblerView {
            slots: inline_stream_map(self.slots@),
            max_slots: self.max_tracked_slots,
            lag: self.retained_slot_lag,
            floor: self.last_pruned_floor,
        }
    }
}

impl InlineReassemblerView {
    /// An inline reassembler without slots.
    pub open spec fn empty(max_slots: usize) -> Self {
        InlineReassemblerView {
            slots: Map::empty(),
            max_slots,
            lag: default_slot_lag(max_slots),
            floor: 0,
        }
    }

    /// The inline reassembler after slots below `floor` were dropped. A floor that is not above the
    /// last one changes nothing.
    pub open spec fn purged(self, floor: u64) -> Self {
        if floor <= self.floor {
            self
        } else {
            InlineReassemblerView { slots: slots_from(self.slots, floor), floor, ..self }
        }
    }

    /// The inline reassembler when the slot of a shred is about to be looked up: old slots are
    /// dropped, and room is made.
    pub open spec fn ready_for(self, slot: u64) -> Self {
        let kept = self.purged(
            if slot > self.lag {
                (slot - self.lag) as u64
            } else {
                0
            },
        );
        InlineReassemblerView {
            slots: with_room_for(kept.slots, slot, kept.max_slots as nat),
            ..kept
        }
    }

    /// A slot, empty if nothing is known of it.
    pub open spec fn stream(self, slot: u64) -> InlineStreamView {
        if self.slots.contains_key(slot) {
            self.slots[slot]
        } else {
            InlineStreamView::empty(slot)
        }
    }

    /// The inline reassembler with a slot replaced.
    pub open spec fn with_stream(self, slot: u64, stream: InlineStreamView) -> Self {
        InlineReassemblerView { slots: self.slots.insert(slot, stream), ..self }
    }

    /// The inline reassembler after shreds of a slot were done with. A finished slot is dropped.
    pub open spec fn retired(self, slot: u64, start: u32, end: u32) -> Self {
        if !self.slots.contains_key(slot) {
            self
        } else {
            let stream = self.slots[slot].without(start, end);
            InlineReassemblerView {
                slots: if stream.finished {
                    self.slots.remove(slot)
                } else {
                    self.slots.insert(slot, stream)
                },
                ..self
            }
        }
    }
}

impl Default for InlineDataReassembler {
    fn default() -> (r: Self)
        ensures
            r@ == (InlineReassemblerView { slots: Map::empty(), max_slots: 0, lag: 0, floor: 0 }),
    {
        let reassembler = InlineDataReassembler {
            slots: HashMap::new(),
            max_tracked_slots: 0,
            retained_slot_lag: 0,
            last_pruned_floor: 0,
        };
        assert(reassembler@.slots =~= Map::<u64, InlineStreamView>::empty());
        reassembler
    }
}

impl InlineDataReassembler {
    /// An inline reassembler that holds `max_tracked_slots` slots at most.
    #[must_use]
    pub fn new(max_tracked_slots: usize) -> (r: Self)
        ensures
            r@ == InlineReassemblerView::empty(max_tracked_slots),
    {
        let quarter: usize = max_tracked_slots / 4;
        let retained_slot_lag: u64 = if quarter < 64 {
            64
        } else if quarter > 256 {
            256
        } else {
            quarter as u64
        };
        let reassembler = InlineDataReassembler {
            slots: HashMap::new(),
            max_tracked_slots,
            retained_slot_lag,
            last_pruned_floor: 0,
        };
        assert(reassembler@.slots =~= Map::<u64, InlineStreamView>::empty());
        reassembler
    }

    /// Sets how far behind the newest shred a slot is still kept; at least one slot.
    #[must_use]
    pub fn with_retained_slot_lag(self, retained_slot_lag: u64) -> (r: Self)
        ensures
            r@ == (InlineReassemblerView {
                lag: if retained_slot_lag == 0 {
                    1
                } else {
                    retained_slot_lag
                },
                ..self@
            }),
    {
        let lag: u64 = if retained_slot_lag == 0 {
            1
        } else {
            retained_slot_lag
        };
        InlineDataReassembler { retained_slot_lag: lag, ..self }
    }

    /// Notes a data shred that was observed at a given time.
    pub fn observe_data_shred_meta_at(
        &mut self,
        slot: u64,
        index: u32,
        fec_set_index: u32,
        data_complete: bool,
        last_in_slot: bool,
        payload_fragment: SharedPayloadFragment,
        observed_at: Instant,
    ) -> (r: InlineDataObservation)
        ensures
            final(self)@ == old(self)@.ready_for(slot).with_stream(
                slot,
                old(self)@.ready_for(slot).stream(slot).with_data(
                    index,
                    fec_set_index,
                    data_complete,
                    last_in_slot,
                    payload_fragment@,
                    observed_at,
                ),
            ),
            r.fec_set_became_ready == old(self)@.ready_for(slot).stream(slot).fec_set_with_data(
                index,
                fec_set_index,
                data_complete,
                last_in_slot,
            ).becomes_ready(),
    {
        let ghost payload = payload_fragment@;
        let mut stream = self.take_ready_stream(slot);
        let ghost ready = self@;
        let observation = stream.observe_data_shred(
            index,
            fec_set_index,
            data_complete,
            last_in_slot,
            payload_fragment,
            observed_at,
        );
        let ghost noted = stream@;
        self.slots.insert(slot, stream);
        assert(self@.slots =~= ready.slots.insert(slot, noted));
        assert(self@.slots =~= old(self)@.ready_for(slot).slots.insert(slot, noted));
        observation
    }

    /// Notes a code shred.
    pub fn observe_code_shred(&mut self, slot: u64, fec_set_index: u32, num_data_shreds: u16) -> (r:
        InlineCodeObservation)
        ensures
            final(self)@ == old(self)@.ready_for(slot).with_stream(
                slot,
                old(self)@.ready_for(slot).stream(slot).with_code(fec_set_index, num_data_shreds),
            ),
            r.fec_set_became_ready == old(self)@.ready_for(slot).stream(slot).fec_set(
                fec_set_index,
            ).with_code(num_data_shreds).becomes_ready(),
    {
        let mut stream = self.take_ready_stream(slot);
        let ghost ready = self@;
        let observation = stream.observe_code_shred(fec_set_index, num_data_shreds);
        let ghost noted = stream@;
        self.slots.insert(slot, stream);
        assert(self@.slots =~= ready.slots.insert(slot, noted));
        assert(self@.slots =~= old(self)@.ready_for(slot).slots.insert(slot, noted));
        observation
    }

    fn take_ready_stream(&mut self, slot: u64) -> (r: InlineSlotStream)
        ensures
            r@ == old(self)@.ready_for(slot).stream(slot),
            final(self)@ == (InlineReassemblerView {
                slots: old(self)@.ready_for(slot).slots.remove(slot),
                ..old(self)@.ready_for(slot)
            }),
    {
        self.purge_older_than(slot.saturating_sub(self.retained_slot_lag));
        self.evict_if_needed(slot);
        let ghost ready = self@;
        let taken = match self.slots.remove(&slot) {
            Some(stream) => stream,
            None => InlineSlotStream::new(slot),
        };
        assert(self@.slots =~= ready.slots.remove(slot));
        taken
    }

    /// The open data sets of a slot, in order of their starts.
    #[must_use]
    pub fn inline_contiguous_datasets(&self, slot: u64) -> (r: Vec<InlineContiguousDataSet>)
        ensures
            inline_views(r@) == if self@.slots.contains_key(slot) {
                self@.slots[slot].open_runs()
            } else {
                Seq::empty()
            },
    {
        match self.slots.get(&slot) {
            Some(stream) => stream.inline_contiguous_datasets(),
            None => {
                let none: Vec<InlineContiguousDataSet> = Vec::new();
                assert(inline_views(none@) =~= Seq::<InlineView>::empty());
                none
            },
        }
    }

    /// Writes down the open data sets of a slot, in order of their starts.
    pub fn fill_inline_contiguous_datasets(
        &self,
        slot: u64,
        out: &mut Vec<InlineContiguousDataSetScratch>,
    )
        ensures
            scratch_views(final(out)@) == if self@.slots.contains_key(slot) {
                self@.slots[slot].sized_runs()
            } else {
                Seq::empty()
            },
    {
        match self.slots.get(&slot) {
            Some(stream) => stream.fill_inline_contiguous_datasets(out),
            None => {
                out.clear();
                assert(scratch_views(out@) =~= Seq::<ScratchView>::empty());
            },
        }
    }

    /// Writes down where the open data sets of a slot start.
    pub fn fill_inline_contiguous_dataset_starts(&self, slot: u64, out: &mut Vec<u32>)
        ensures
            final(out)@ == if self@.slots.contains_key(slot) {
                self@.slots[slot].starts()
            } else {
                Seq::empty()
            },
    {
        match self.slots.get(&slot) {
            Some(stream) => stream.fill_inline_contiguous_dataset_starts(out),
            None => {
                out.clear();
            },
        }
    }

    /// Brings a sink up to date with a run of a slot.
    pub fn sync_inline_contiguous_dataset<S: InlineContiguousDataSetSink>(
        &self,
        slot: u64,
        start_index: u32,
        sink: &mut S,
    ) -> (r: Option<InlineContiguousDataSetMeta>)
        ensures
            self@.slots.contains_key(slot) ==> exists|held: usize, held_bytes: usize|
                call_ensures(S::existing_fragments, (&*old(sink),), held) && call_ensures(
                    S::payload_len,
                    (&*old(sink),),
                    held_bytes,
                ) && #[trigger] synced(
                    self@.slots[slot],
                    start_index,
                    held,
                    held_bytes,
                    old(sink).calls(),
                    final(sink).calls(),
                    r,
                ),
            !self@.slots.contains_key(slot) ==> r is None && *final(sink) == *old(sink),
    {
        match self.slots.get(&slot) {
            Some(stream) => {
                assert(stream@ == self@.slots[slot]);
                stream.sync_inline_contiguous_dataset(start_index, sink)
            },
            None => None,
        }
    }

    /// Forgets the shreds of a slot from `start_index` to `end_index`.
    pub fn retire_range(&mut self, slot: u64, start_index: u32, end_index: u32)
        ensures
            final(self)@ == old(self)@.retired(slot, start_index, end_index),
    {
        let ghost before = self@;
        match self.slots.remove(&slot) {
            Some(stream) => {
                let mut stream = stream;
                stream.retire_range(start_index, end_index);
                if !stream.finished {
                    self.slots.insert(slot, stream);
                }
            },
            None => {},
        }
        assert(self@.slots =~= before.retired(slot, start_index, end_index).slots);
    }

    /// Drops slots below `slot_floor`.
    pub fn purge_older_than(&mut self, slot_floor: u64)
        ensures
            final(self)@ == old(self)@.purged(slot_floor),
    {
        if slot_floor <= self.last_pruned_floor {
            return;
        }
        let ghost slots = self.slots@;
        drop_slots_below(&mut self.slots, slot_floor);
        self.last_pruned_floor = slot_floor;
        assert(inline_stream_map(self.slots@) =~= slots_from(inline_stream_map(slots), slot_floor));
    }

    fn evict_if_needed(&mut self, incoming_slot: u64)
        ensures
            final(self)@ == (InlineReassemblerView {
                slots: with_room_for(old(self)@.slots, incoming_slot, old(self)@.max_slots as nat),
                ..old(self)@
            }),
    {
        let ghost before = self.slots@;
        make_room_for(&mut self.slots, incoming_slot, self.max_tracked_slots);
        proof {
            assert(inline_stream_map(before).dom() =~= before.dom());
            assert(inline_stream_map(self.slots@) =~= with_room_for(
                inline_stream_map(before),
                incoming_slot,
                self.max_tracked_slots as nat,
            ));
        }
    }
}

proof fn collected_in_turn(held: Seq<Seq<u8>>, first: Seq<SinkCall>, second: Seq<SinkCall>)
    ensures
        collected(held, first + second) == collected(collected(held, first), second),
    decreases second.len(),
{
    if second.len() == 0 {
        assert(first + second =~= first);
    } else {
        assert((first + second).drop_last() =~= first + second.drop_last());
        assert((first + second).last() == second.last());
        collected_in_turn(held, first, second.drop_last());
    }
}

proof fn appended_are_collected(held: Seq<Seq<u8>>, payloads: Seq<Seq<u8>>, times: Seq<Instant>)
    ensures
        collected(
            held,
            Seq::new(
                payloads.len(),
                |i: int| SinkCall::Append { bytes: payloads[i], observed_at: times[i] },
            ),
        ) == held + payloads,
    decreases payloads.len(),
{
    let calls = Seq::new(
        payloads.len(),
        |i: int| SinkCall::Append { bytes: payloads[i], observed_at: times[i] },
    );
    if payloads.len() == 0 {
        assert(held + payloads =~= held);
    } else {
        let fewer = payloads.drop_last();
        assert(calls.drop_last() =~= Seq::new(
            fewer.len(),
            |i: int| SinkCall::Append { bytes: fewer[i], observed_at: times[i] },
        ));
        appended_are_collected(held, fewer, times);
        assert(held + payloads =~= (held + fewer).push(payloads.last()));
    }
}

/// A sink that holds the first shreds of a run, or none, holds the whole run after it was brought
/// up to date, and is given only what it lacks. A run that reaches the last index there is stays
/// out.
pub proof fn synced_sink_holds_the_run(stream: InlineStreamView, start: u32, held: Seq<Seq<u8>>)
    requires
        stream.fragments.contains_key(start),
        run_end(stream.fragments, start) < u32::MAX,
        held.len() <= run_end(stream.fragments, start) - start + 1,
        held.len() <= usize::MAX,
        held == stream.run_from(start).fragments.take(held.len() as int),
    ensures
        collected(held, stream.sync_calls(start, held.len() as usize)) == stream.run_from(start).fragments,
        stream.new_fragments(start, held.len() as usize).fragments == stream.run_from(start).fragments.skip(
            held.len() as int,
        ),
{
    let count = held.len() as usize;
    let end = run_end(stream.fragments, start);
    let run = stream.run_from(start);
    run_is_longest(stream.fragments, start);
    assert(!stream.starts_anew(start, count));
    let first = stream.first_new(start, count);
    assert(first == start + count);
    let new = stream.new_fragments(start, count);
    if count == run.fragments.len() {
        assert(first == end + 1);
        assert(!stream.fragments.contains_key(first));
    } else {
        assert(first <= end);
        assert(stream.fragments.contains_key(first));
        run_goes_on(stream.fragments, start, first);
    }
    assert(new.fragments =~= run.fragments.skip(count as int));
    let reserve = seq![
        SinkCall::Reserve {
            fragments: capped(new.fragments.len()),
            bytes: capped(total_bytes(new.fragments)),
        },
    ];
    let appends = Seq::new(
        new.fragments.len(),
        |i: int| SinkCall::Append { bytes: new.fragments[i], observed_at: new.observed_ats[i] },
    );
    assert(stream.sync_calls(start, count) =~= reserve + appends);
    collected_in_turn(held, reserve, appends);
    assert(reserve.drop_last() =~= Seq::<SinkCall>::empty());
    assert(reserve.last() is Reserve);
    assert(collected(held, reserve.drop_last()) == held);
    assert(collected(held, reserve) == held);
    appended_are_collected(held, new.fragments, new.observed_ats);
    assert(held + new.fragments =~= run.fragments);
}

/// A sink that holds a shred which is not stored any more starts anew, and holds the whole run
/// afterwards.
pub proof fn outdated_sink_starts_anew(stream: InlineStreamView, start: u32, held: Seq<Seq<u8>>)
    requires
        stream.fragments.contains_key(start),
        held.len() <= usize::MAX,
        stream.starts_anew(start, held.len() as usize),
    ensures
        collected(held, stream.sync_calls(start, held.len() as usize)) == stream.run_from(start).fragments,
{
    let count = held.len() as usize;
    run_is_longest(stream.fragments, start);
    let new = stream.new_fragments(start, count);
    let reset = seq![SinkCall::Reset];
    let reserve = seq![
        SinkCall::Reserve {
            fragments: capped(new.fragments.len()),
            bytes: capped(total_bytes(new.fragments)),
        },
    ];
    let appends = Seq::new(
        new.fragments.len(),
        |i: int| SinkCall::Append { bytes: new.fragments[i], observed_at: new.observed_ats[i] },
    );
    assert(stream.sync_calls(start, count) =~= reset + reserve + appends);
    collected_in_turn(held, reset + reserve, appends);
    collected_in_turn(held, reset, reserve);
    let nothing = Seq::<Seq<u8>>::empty();
    assert(reset.last() is Reset);
    assert(collected(held, reset) == nothing);
    assert(reserve.drop_last() =~= Seq::<SinkCall>::empty());
    assert(reserve.last() is Reserve);
    assert(collected(nothing, reserve.drop_last()) == nothing);
    assert(collected(nothing, reserve) == nothing);
    appended_are_collected(nothing, new.fragments, new.observed_ats);
    assert(nothing + new.fragments =~= new.fragments);
}

/// Open data sets behind a retired range stay: they still start where they did, and hold the same
/// shreds.
pub proof fn retiring_keeps_later_runs(stream: InlineStreamView, start: u32, end: u32, later: u32)
    requires
        later > end,
        anchored_starts(stream.fragments, stream.boundaries).contains(later),
    ensures
        anchored_starts(
            stream.without(start, end).fragments,
            stream.without(start, end).boundaries,
        ).contains(later),
        stream.without(start, end).run_from(later) == stream.run_from(later),
{
    let left = stream.without(start, end);
    assert forall|index: u32| index > later implies (#[trigger] left.fragments.contains_key(index)
        <==> stream.fragments.contains_key(index)) by {}
    run_needs_only_what_follows(left.fragments, stream.fragments, later);
    run_is_longest(stream.fragments, later);
    let last = run_end(stream.fragments, later);
    assert(left.run_from(later).fragments =~= stream.run_from(later).fragments);
    assert(left.run_from(later).observed_ats =~= stream.run_from(later).observed_ats);
}

/// An inline reassembler that holds no more slots than it may never holds more than it may, or than
/// one if it may hold none.
pub proof fn inline_slots_are_bounded(before: InlineReassemblerView, slot: u64, stream: InlineStreamView)
    requires
        before.slots.dom().finite(),
        before.slots.len() <= most_slots(before.max_slots as nat),
    ensures
        before.ready_for(slot).with_stream(slot, stream).slots.dom().finite(),
        before.ready_for(slot).with_stream(slot, stream).slots.len() <= most_slots(before.max_slots as nat),
        before.ready_for(slot).with_stream(slot, stream).max_slots == before.max_slots,
{
    let floor = if slot > before.lag {
        (slot - before.lag) as u64
    } else {
        0
    };
    let kept = before.purged(floor);
    assert(kept.slots.dom().subset_of(before.slots.dom()));
    vstd::set_lib::lemma_len_subset(kept.slots.dom(), before.slots.dom());
    room_is_made(kept.slots, slot, before.max_slots as nat);
    let ready = before.ready_for(slot);
    assert(ready.slots.dom().subset_of(kept.slots.dom()));
    assert(ready.slots.insert(slot, stream).dom() =~= ready.slots.dom().insert(slot));
}

/// Two data shreds of different indexes leave the same open data sets in whichever order they come.
pub proof fn open_runs_forget_order(
    stream: InlineStreamView,
    a: u32,
    a_set: u32,
    a_complete: bool,
    a_last: bool,
    a_payload: Seq<u8>,
    a_observed_at: Instant,
    b: u32,
    b_set: u32,
    b_complete: bool,
    b_last: bool,
    b_payload: Seq<u8>,
    b_observed_at: Instant,
)
    requires
        a != b,
    ensures
        ({
            let ab = stream.with_data(a, a_set, a_complete, a_last, a_payload, a_observed_at).with_data(
                b,
                b_set,
                b_complete,
                b_last,
                b_payload,
                b_observed_at,
            );
            let ba = stream.with_data(b, b_set, b_complete, b_last, b_payload, b_observed_at).with_data(
                a,
                a_set,
                a_complete,
                a_last,
                a_payload,
                a_observed_at,
            );
            &&& ab.open_runs() == ba.open_runs()
            &&& ab.fragments == ba.fragments
            &&& ab.boundaries == ba.boundaries
            &&& ab.last_index == ba.last_index
        }),
{
    let ab = stream.with_data(a, a_set, a_complete, a_last, a_payload, a_observed_at).with_data(
        b,
        b_set,
        b_complete,
        b_last,
        b_payload,
        b_observed_at,
    );
    let ba = stream.with_data(b, b_set, b_complete, b_last, b_payload, b_observed_at).with_data(
        a,
        a_set,
        a_complete,
        a_last,
        a_payload,
        a_observed_at,
    );
    assert(ab.fragments =~= ba.fragments);
    assert(ab.boundaries =~= ba.boundaries);
    assert(ab.open_runs() =~= ba.open_runs());
}

} // verus!
