//! The open data sets of one slot.
use crate::reassembly::dataset::{InlineContiguousDataSet, InlineView};
use crate::reassembly::dataset::stream::inline_views;
use crate::reassembly::fragment::{
    capped, fragment_views, total_bytes, PayloadFragmentBatch, SharedPayloadFragment,
};
use crate::reassembly::index_set::{listed, lists_ascending, IndexSet};
use crate::reassembly::inline::fec::{FecView, InlineFecSetState};
use crate::reassembly::inline::{
    InlineCodeObservation, InlineContiguousDataSetMeta, InlineContiguousDataSetScratch,
    InlineContiguousDataSetSink, InlineDataObservation, ScratchView, SinkCall,
};
use crate::reassembly::run::{
    anchored_starts, drop_range, find_anchored_starts, find_run_end, has_all, run_end, run_is_longest,
    runs_need_only_indexes, without_range,
};
use crate::time::Instant;
use std::collections::HashMap;
use vstd::prelude::*;

verus! {

broadcast use vstd::std_specs::hash::group_hash_axioms;

/// A stored data shred.
#[derive(Debug)]
pub struct InlineDataFragment {
    /// Its payload.
    pub payload_fragment: SharedPayloadFragment,
    /// When it was observed.
    pub observed_at: Instant,
}

/// A stored data shred in specifications.
pub struct InlineFragmentView {
    /// Its payload.
    pub bytes: Seq<u8>,
    /// When it was observed.
    pub observed_at: Instant,
}

impl View for InlineDataFragment {
    type V = InlineFragmentView;

    open spec fn view(&self) -> InlineFragmentView {
        InlineFragmentView { bytes: self.payload_fragment@, observed_at: self.observed_at }
    }
}

/// One slot in specifications.
pub struct InlineStreamView {
    /// The slot.
    pub slot: u64,
    /// Stored shreds by index.
    pub fragments: Map<u32, InlineFragmentView>,
    /// Indexes that end a data set.
    pub boundaries: Set<u32>,
    /// Forward error correction sets by their first index.
    pub fec_sets: Map<u32, FecView>,
    /// Highest index known to be the last of the slot.
    pub last_index: Option<u32>,
    /// Whether nothing is left to come.
    pub finished: bool,
}

/// Shreds in specifications.
pub open spec fn inline_fragment_map(fragments: Map<u32, InlineDataFragment>) -> Map<u32, InlineFragmentView> {
    fragments.map_values(|fragment: InlineDataFragment| fragment@)
}

/// Forward error correction sets in specifications.
pub open spec fn fec_map(sets: Map<u32, InlineFecSetState>) -> Map<u32, FecView> {
    sets.map_values(|set: InlineFecSetState| set@)
}

/// The payloads of the shreds from `start` to `end`.
pub open spec fn inline_payloads(
    fragments: Map<u32, InlineFragmentView>,
    start: u32,
    end: u32,
) -> Seq<Seq<u8>> {
    Seq::new((end - start + 1) as nat, |i: int| fragments[(start + i) as u32].bytes)
}

/// The times at which the shreds from `start` to `end` were observed.
pub open spec fn inline_times(
    fragments: Map<u32, InlineFragmentView>,
    start: u32,
    end: u32,
) -> Seq<Instant> {
    Seq::new((end - start + 1) as nat, |i: int| fragments[(start + i) as u32].observed_at)
}

/// Forward error correction sets without the data shreds from `start` to `end`; those that have
/// none left are dropped.
pub open spec fn fec_sets_without(sets: Map<u32, FecView>, start: u32, end: u32) -> Map<u32, FecView> {
    Map::new(
        |key: u32| sets.contains_key(key) && !sets[key].without(start, end).observed.is_empty(),
        |key: u32| sets[key].without(start, end),
    )
}

impl InlineStreamView {
    /// A slot without shreds.
    pub open spec fn empty(slot: u64) -> Self {
        InlineStreamView {
            slot,
            fragments: Map::empty(),
            boundaries: Set::empty(),
            fec_sets: Map::empty(),
            last_index: None,
            finished: false,
        }
    }

    /// A forward error correction set, empty if nothing is known of it.
    pub open spec fn fec_set(self, fec_set_index: u32) -> FecView {
        if self.fec_sets.contains_key(fec_set_index) {
            self.fec_sets[fec_set_index]
        } else {
            FecView::empty(fec_set_index)
        }
    }

    /// The forward error correction set of a data shred, with the shred noted.
    pub open spec fn fec_set_with_data(
        self,
        index: u32,
        fec_set_index: u32,
        data_complete: bool,
        last_in_slot: bool,
    ) -> FecView {
        self.fec_set(fec_set_index).with_data(index, data_complete || last_in_slot)
    }

    /// The slot after a data shred. The first payload for an index stays.
    pub open spec fn with_data(
        self,
        index: u32,
        fec_set_index: u32,
        data_complete: bool,
        last_in_slot: bool,
        payload: Seq<u8>,
        observed_at: Instant,
    ) -> Self {
        InlineStreamView {
            boundaries: if data_complete || last_in_slot {
                self.boundaries.insert(index)
            } else {
                self.boundaries
            },
            last_index: if last_in_slot {
                match self.last_index {
                    Some(known) if known > index => Some(known),
                    _ => Some(index),
                }
            } else {
                self.last_index
            },
            fragments: if self.fragments.contains_key(index) {
                self.fragments
            } else {
                self.fragments.insert(index, InlineFragmentView { bytes: payload, observed_at })
            },
            fec_sets: self.fec_sets.insert(
                fec_set_index,
                self.fec_set_with_data(index, fec_set_index, data_complete, last_in_slot).settled(),
            ),
            ..self
        }
    }

    /// The slot after a code shred.
    pub open spec fn with_code(self, fec_set_index: u32, count: u16) -> Self {
        InlineStreamView {
            fec_sets: self.fec_sets.insert(
                fec_set_index,
                self.fec_set(fec_set_index).with_code(count).settled(),
            ),
            ..self
        }
    }

    /// The slot after the shreds from `start` to `end` were done with. It is finished when its
    /// last shred is known and no shred is left.
    pub open spec fn without(self, start: u32, end: u32) -> Self {
        let left = without_range(self.fragments, start, end);
        InlineStreamView {
            fragments: left,
            fec_sets: fec_sets_without(self.fec_sets, start, end),
            finished: self.finished || (self.last_index is Some && left.is_empty()),
            ..self
        }
    }

    /// Where open data sets start.
    pub open spec fn starts(self) -> Seq<u32> {
        listed(anchored_starts(self.fragments, self.boundaries))
    }

    /// The run of shreds that starts at `start`.
    pub open spec fn run_from(self, start: u32) -> InlineView {
        let end = run_end(self.fragments, start);
        InlineView {
            slot: self.slot,
            start_index: start,
            end_index: end,
            fragments: inline_payloads(self.fragments, start, end),
            observed_ats: inline_times(self.fragments, start, end),
        }
    }

    /// The open data sets, in order of their starts.
    pub open spec fn open_runs(self) -> Seq<InlineView> {
        self.starts().map_values(|start: u32| self.run_from(start))
    }

    /// The open data sets, each with its size.
    pub open spec fn sized_runs(self) -> Seq<ScratchView> {
        self.starts().map_values(
            |start: u32|
                ScratchView {
                    run: self.run_from(start),
                    total_payload_len: capped(total_bytes(self.run_from(start).fragments)),
                },
        )
    }

    /// Whether a sink that holds `held` shreds from `start` on has to start anew: the last shred
    /// that it should hold is not stored any more.
    pub open spec fn starts_anew(self, start: u32, held: usize) -> bool {
        held > 0 && (start + held - 1 > u32::MAX || !self.fragments.contains_key(
            (start + held - 1) as u32,
        ))
    }

    /// The shreds that a sink keeps.
    pub open spec fn kept(self, start: u32, held: usize) -> usize {
        if self.starts_anew(start, held) {
            0
        } else {
            held
        }
    }

    /// The first shred that a sink lacks.
    pub open spec fn first_new(self, start: u32, held: usize) -> u32 {
        if start + self.kept(start, held) <= u32::MAX {
            (start + self.kept(start, held)) as u32
        } else {
            start
        }
    }

    /// The shreds that a sink is given, with the times at which they were observed.
    pub open spec fn new_fragments(self, start: u32, held: usize) -> InlineView {
        let first = self.first_new(start, held);
        if self.fragments.contains_key(first) {
            self.run_from(first)
        } else {
            InlineView {
                slot: self.slot,
                start_index: first,
                end_index: first,
                fragments: Seq::empty(),
                observed_ats: Seq::empty(),
            }
        }
    }

    /// What is said of the run after a sink has it, if there is any.
    pub open spec fn synced_meta(
        self,
        start: u32,
        held: usize,
        held_bytes: usize,
    ) -> Option<InlineContiguousDataSetMeta> {
        let new = self.new_fragments(start, held);
        let kept = self.kept(start, held);
        let kept_bytes = if self.starts_anew(start, held) {
            0
        } else {
            held_bytes
        };
        if kept + new.fragments.len() == 0 {
            None
        } else {
            Some(
                InlineContiguousDataSetMeta {
                    slot: self.slot,
                    start_index: start,
                    end_index: if new.fragments.len() > 0 {
                        new.end_index
                    } else {
                        (start + kept - 1) as u32
                    },
                    fragment_count: capped((kept + new.fragments.len()) as nat),
                    total_payload_len: capped(kept_bytes as nat + total_bytes(new.fragments)),
                },
            )
        }
    }

    /// The calls that bring a sink up to date.
    pub open spec fn sync_calls(self, start: u32, held: usize) -> Seq<SinkCall> {
        let new = self.new_fragments(start, held);
        let reset = if self.starts_anew(start, held) {
            seq![SinkCall::Reset]
        } else {
            Seq::empty()
        };
        if self.kept(start, held) + new.fragments.len() == 0 {
            reset
        } else {
            reset + seq![
                SinkCall::Reserve {
                    fragments: capped(new.fragments.len()),
                    bytes: capped(total_bytes(new.fragments)),
                },
            ] + Seq::new(
                new.fragments.len(),
                |i: int|
                    SinkCall::Append { bytes: new.fragments[i], observed_at: new.observed_ats[i] },
            )
        }
    }
}

/// Whether a sink with the calls `before` was brought up to date, for some counts that it gave of
/// what it holds.
pub open spec fn synced(
    stream: InlineStreamView,
    start: u32,
    held: usize,
    held_bytes: usize,
    before: Seq<SinkCall>,
    after: Seq<SinkCall>,
    meta: Option<InlineContiguousDataSetMeta>,
) -> bool {
    &&& after == before + stream.sync_calls(start, held)
    &&& meta == stream.synced_meta(start, held, held_bytes)
}

/// One slot.
#[derive(Debug)]
pub struct InlineSlotStream {
    /// The slot.
    pub slot: u64,
    /// Stored shreds by index.
    pub fragments: HashMap<u32, InlineDataFragment>,
    /// Indexes that end a data set.
    pub completed_boundaries: IndexSet,
    /// Forward error correction sets by their first index.
    pub fec_sets: HashMap<u32, InlineFecSetState>,
    /// Highest index known to be the last of the slot.
    pub last_index: Option<u32>,
    /// Whether nothing is left to come.
    pub finished: bool,
}

impl View for InlineSlotStream {
    type V = InlineStreamView;

    open spec fn view(&self) -> InlineStreamView {
        InlineStreamView {
            slot: self.slot,
            fragments: inline_fragment_map(self.fragments@),
            boundaries: self.completed_boundaries@,
            fec_sets: fec_map(self.fec_sets@),
            last_index: self.last_index,
            finished: self.finished,
        }
    }
}

impl InlineSlotStream {
    /// A slot without shreds.
    pub fn new(slot: u64) -> (r: Self)
        ensures
            r@ == InlineStreamView::empty(slot),
    {
        let stream = InlineSlotStream {
            slot,
            fragments: HashMap::new(),
            completed_boundaries: IndexSet::new(),
            fec_sets: HashMap::new(),
            last_index: None,
            finished: false,
        };
        assert(stream@.fragments =~= Map::<u32, InlineFragmentView>::empty());
        assert(stream@.fec_sets =~= Map::<u32, FecView>::empty());
        stream
    }

    /// Notes a data shred.
    pub fn observe_data_shred(
        &mut self,
        index: u32,
        fec_set_index: u32,
        data_complete: bool,
        last_in_slot: bool,
        payload_fragment: SharedPayloadFragment,
        observed_at: Instant,
    ) -> (r: InlineDataObservation)
        ensures
            final(self)@ == old(self)@.with_data(
                index,
                fec_set_index,
                data_complete,
                last_in_slot,
                payload_fragment@,
                observed_at,
            ),
            r.fec_set_became_ready == old(self)@.fec_set_with_data(
                index,
                fec_set_index,
                data_complete,
                last_in_slot,
            ).becomes_ready(),
    {
        let ghost before = self@;
        let ghost payload = payload_fragment@;
        let boundary: bool = data_complete || last_in_slot;
        if boundary {
            self.completed_boundaries.insert(index);
        }
        if last_in_slot {
            self.last_index = match self.last_index {
                Some(known) => if known > index {
                    Some(known)
                } else {
                    Some(index)
                },
                None => Some(index),
            };
        }
        if !self.fragments.contains_key(&index) {
            self.fragments.insert(index, InlineDataFragment { payload_fragment, observed_at });
        }
        let mut fec_state = self.take_fec_set(fec_set_index);
        let fec_set_became_ready: bool = fec_state.observe_data_shred(index, boundary);
        let ghost others = self@.fec_sets;
        let ghost noted = fec_state@;
        self.fec_sets.insert(fec_set_index, fec_state);
        proof {
            assert(self@.fec_sets =~= others.insert(fec_set_index, noted));
            let after = before.with_data(
                index,
                fec_set_index,
                data_complete,
                last_in_slot,
                payload,
                observed_at,
            );
            assert(self@.fragments =~= after.fragments);
            assert(self@.fec_sets =~= after.fec_sets);
        }
        InlineDataObservation { fec_set_became_ready }
    }

    fn take_fec_set(&mut self, fec_set_index: u32) -> (r: InlineFecSetState)
        ensures
            r@ == old(self)@.fec_set(fec_set_index),
            final(self)@ == (InlineStreamView {
                fec_sets: old(self)@.fec_sets.remove(fec_set_index),
                ..old(self)@
            }),
    {
        let ghost before = self@;
        let taken = match self.fec_sets.remove(&fec_set_index) {
            Some(set) => set,
            None => InlineFecSetState::new(fec_set_index),
        };
        assert(self@.fec_sets =~= before.fec_sets.remove(fec_set_index));
        taken
    }

    /// Notes a code shred.
    pub fn observe_code_shred(&mut self, fec_set_index: u32, num_data_shreds: u16) -> (r: InlineCodeObservation)
        ensures
            final(self)@ == old(self)@.with_code(fec_set_index, num_data_shreds),
            r.fec_set_became_ready == old(self)@.fec_set(fec_set_index).with_code(
                num_data_shreds,
            ).becomes_ready(),
    {
        let ghost before = self@;
        let mut fec_state = self.take_fec_set(fec_set_index);
        let fec_set_became_ready: bool = fec_state.observe_code_shred(num_data_shreds);
        let ghost others = self@.fec_sets;
        let ghost noted = fec_state@;
        self.fec_sets.insert(fec_set_index, fec_state);
        assert(self@.fec_sets =~= others.insert(fec_set_index, noted));
        assert(self@.fec_sets =~= before.with_code(fec_set_index, num_data_shreds).fec_sets);
        InlineCodeObservation { fec_set_became_ready }
    }

    fn run_end_from(&self, start: u32) -> (r: u32)
        requires
            self@.fragments.contains_key(start),
        ensures
            r == run_end(self@.fragments, start),
            start <= r,
            has_all(self@.fragments, start, r),
    {
        proof {
            run_is_longest(self@.fragments, start);
            assert(self@.fragments.dom() =~= self.fragments@.dom());
            runs_need_only_indexes(self@.fragments, self.fragments@, start);
        }
        find_run_end(&self.fragments, start)
    }

    fn collect_run(&self, start: u32, end: u32) -> (r: (Vec<SharedPayloadFragment>, Vec<Instant>))
        requires
            start <= end,
            has_all(self@.fragments, start, end),
        ensures
            fragment_views(r.0@) == inline_payloads(self@.fragments, start, end),
            r.1@ == inline_times(self@.fragments, start, end),
    {
        let ghost fragments = self@.fragments;
        let mut payloads: Vec<SharedPayloadFragment> = Vec::new();
        let mut times: Vec<Instant> = Vec::new();
        let mut cursor: u32 = start;
        let mut open: bool = true;
        while open
            invariant
                fragments == inline_fragment_map(self.fragments@),
                has_all(fragments, start, end),
                start <= cursor <= end,
                payloads@.len() == cursor - start + (if open {
                    0int
                } else {
                    1int
                }),
                times@.len() == payloads@.len(),
                !open ==> cursor == end,
                forall|i: int|
                    0 <= i < payloads@.len() ==> (#[trigger] payloads@[i])@ == fragments[(start + i) as u32].bytes,
                forall|i: int|
                    0 <= i < times@.len() ==> #[trigger] times@[i] == fragments[(start + i) as u32].observed_at,
            decreases (end - cursor) + (if open {
                1int
            } else {
                0int
            }),
        {
            assert(fragments.contains_key(cursor));
            match self.fragments.get(&cursor) {
                Some(fragment) => {
                    let shared = fragment.payload_fragment.clone();
                    payloads.push(shared);
                    times.push(fragment.observed_at);
                },
                None => {
                    assert(false);
                },
            }
            if cursor < end {
                cursor += 1;
            } else {
                open = false;
            }
        }
        proof {
            assert(fragment_views(payloads@) =~= inline_payloads(fragments, start, end));
            assert(times@ =~= inline_times(fragments, start, end));
        }
        (payloads, times)
    }

    fn start_list(&self) -> (r: Vec<u32>)
        ensures
            r@ == self@.starts(),
            lists_ascending(r@, anchored_starts(self@.fragments, self@.boundaries)),
    {
        let starts = find_anchored_starts(&self.fragments, &self.completed_boundaries);
        assert(anchored_starts(self@.fragments, self@.boundaries) =~= starts@);
        starts.indices()
    }

    /// The open data sets, in order of their starts.
    pub fn inline_contiguous_datasets(&self) -> (r: Vec<InlineContiguousDataSet>)
        ensures
            inline_views(r@) == self@.open_runs(),
    {
        let starts = self.start_list();
        let mut runs: Vec<InlineContiguousDataSet> = Vec::new();
        let mut i: usize = 0;
        while i < starts.len()
            invariant
                i <= starts@.len(),
                lists_ascending(starts@, anchored_starts(self@.fragments, self@.boundaries)),
                runs@.len() == i,
                forall|k: int| 0 <= k < i ==> (#[trigger] runs@[k])@ == self@.run_from(starts@[k]),
            decreases starts@.len() - i,
        {
            let start_index: u32 = starts[i];
            proof {
                assert(starts@.to_set().contains(start_index));
            }
            let run = self.inline_contiguous_dataset_from(start_index);
            runs.push(run);
            i += 1;
        }
        assert(inline_views(runs@) =~= self@.open_runs());
        runs
    }

    /// Writes down where open data sets start.
    pub fn fill_inline_contiguous_dataset_starts(&self, out: &mut Vec<u32>)
        ensures
            final(out)@ == self@.starts(),
    {
        *out = self.start_list();
    }

    /// Writes down the open data sets, in order of their starts.
    pub fn fill_inline_contiguous_datasets(&self, out: &mut Vec<InlineContiguousDataSetScratch>)
        ensures
            scratch_views(final(out)@) == self@.sized_runs(),
    {
        out.clear();
        let starts = self.start_list();
        let mut i: usize = 0;
        while i < starts.len()
            invariant
                i <= starts@.len(),
                lists_ascending(starts@, anchored_starts(self@.fragments, self@.boundaries)),
                out@.len() == i,
                forall|k: int|
                    0 <= k < i ==> (#[trigger] out@[k])@ == (ScratchView {
                        run: self@.run_from(starts@[k]),
                        total_payload_len: capped(total_bytes(self@.run_from(starts@[k]).fragments)),
                    }),
            decreases starts@.len() - i,
        {
            let start_index: u32 = starts[i];
            proof {
                assert(starts@.to_set().contains(start_index));
            }
            let candidate = self.fill_inline_contiguous_dataset_from(start_index);
            out.push(candidate);
            i += 1;
        }
        assert(scratch_views(out@) =~= self@.sized_runs());
    }

    fn inline_contiguous_dataset_from(&self, start_index: u32) -> (r: InlineContiguousDataSet)
        requires
            self@.fragments.contains_key(start_index),
        ensures
            r@ == self@.run_from(start_index),
    {
        let end_index: u32 = self.run_end_from(start_index);
        let (payload_fragments, fragment_observed_ats) = self.collect_run(start_index, end_index);
        InlineContiguousDataSet {
            slot: self.slot,
            start_index,
            end_index,
            payload_fragments: PayloadFragmentBatch::new(payload_fragments),
            fragment_observed_ats,
        }
    }

    fn fill_inline_contiguous_dataset_from(&self, start_index: u32) -> (r: InlineContiguousDataSetScratch)
        requires
            self@.fragments.contains_key(start_index),
        ensures
            r@ == (ScratchView {
                run: self@.run_from(start_index),
                total_payload_len: capped(total_bytes(self@.run_from(start_index).fragments)),
            }),
    {
        let end_index: u32 = self.run_end_from(start_index);
        let (payload_fragments, fragment_observed_ats) = self.collect_run(start_index, end_index);
        let total_payload_len: usize = add_lengths(0, &payload_fragments);
        InlineContiguousDataSetScratch {
            slot: self.slot,
            start_index,
            end_index,
            payload_fragments,
            fragment_observed_ats,
            total_payload_len,
        }
    }

    /// Brings a sink up to date with the run that starts at `start_index`: the sink says how many
    /// shreds and bytes it holds, and is given the shreds that it lacks.
    pub fn sync_inline_contiguous_dataset<S: InlineContiguousDataSetSink>(
        &self,
        start_index: u32,
        sink: &mut S,
    ) -> (r: Option<InlineContiguousDataSetMeta>)
        ensures
            exists|held: usize, held_bytes: usize|
                call_ensures(S::existing_fragments, (&*old(sink),), held) && call_ensures(
                    S::payload_len,
                    (&*old(sink),),
                    held_bytes,
                ) && #[trigger] synced(
                    self@,
                    start_index,
                    held,
                    held_bytes,
                    old(sink).calls(),
                    final(sink).calls(),
                    r,
                ),
    {
        let held: usize = sink.existing_fragments();
        let held_bytes: usize = sink.payload_len();
        self.sync_held(start_index, held, held_bytes, sink)
    }

    /// Brings a sink up to date that holds `held` shreds of `held_bytes` bytes from `start_index`
    /// on.
    pub fn sync_held<S: InlineContiguousDataSetSink>(
        &self,
        start_index: u32,
        held: usize,
        held_bytes: usize,
        sink: &mut S,
    ) -> (r: Option<InlineContiguousDataSetMeta>)
        ensures
            synced(
                self@,
                start_index,
                held,
                held_bytes,
                old(sink).calls(),
                final(sink).calls(),
                r,
            ),
    {
        let ghost before = sink.calls();
        let ghost stream = self@;
        let anew: bool = held > 0 && (held - 1 > 0xffff_ffff || (held - 1) as u32 > u32::MAX - start_index
            || !self.fragments.contains_key(&(start_index + (held - 1) as u32)));
        assert(anew == stream.starts_anew(start_index, held));
        let kept: usize = if anew {
            0
        } else {
            held
        };
        let kept_bytes: usize = if anew {
            0
        } else {
            held_bytes
        };
        if anew {
            sink.reset_inline_contiguous_dataset();
        }
        let first: u32 = if kept <= 0xffff_ffff && kept as u32 <= u32::MAX - start_index {
            start_index + kept as u32
        } else {
            start_index
        };
        assert(first == stream.first_new(start_index, held));
        let ghost reset = if anew {
            seq![SinkCall::Reset]
        } else {
            Seq::empty()
        };
        assert(sink.calls() =~= before + reset);
        if !self.fragments.contains_key(&first) {
            if kept == 0 {
                return None;
            }
            sink.reserve_inline_contiguous_dataset(0, 0);
            proof {
                assert(sink.calls() =~= before + stream.sync_calls(start_index, held));
            }
            return Some(
                InlineContiguousDataSetMeta {
                    slot: self.slot,
                    start_index,
                    end_index: start_index + (kept - 1) as u32,
                    fragment_count: kept,
                    total_payload_len: kept_bytes,
                },
            );
        }
        let end_index: u32 = self.run_end_from(first);
        let (payload_fragments, fragment_observed_ats) = self.collect_run(first, end_index);
        let ghost new = stream.new_fragments(start_index, held);
        let additional_fragments: usize = payload_fragments.len();
        let additional_bytes: usize = add_lengths(0, &payload_fragments);
        let total_payload_len: usize = add_lengths(kept_bytes, &payload_fragments);
        sink.reserve_inline_contiguous_dataset(additional_fragments, additional_bytes);
        let ghost reserved = sink.calls();
        let mut i: usize = 0;
        while i < payload_fragments.len()
            invariant
                i <= payload_fragments@.len(),
                fragment_views(payload_fragments@) == new.fragments,
                fragment_observed_ats@ == new.observed_ats,
                new.observed_ats.len() == new.fragments.len(),
                sink.calls() == reserved + Seq::new(
                    i as nat,
                    |k: int|
                        SinkCall::Append { bytes: new.fragments[k], observed_at: new.observed_ats[k] },
                ),
            decreases payload_fragments@.len() - i,
        {
            let ghost so_far = sink.calls();
            sink.append_inline_contiguous_fragment(&payload_fragments[i], fragment_observed_ats[i]);
            proof {
                assert(fragment_views(payload_fragments@)[i as int] == payload_fragments@[i as int]@);
                assert(sink.calls() =~= reserved + Seq::new(
                    (i + 1) as nat,
                    |k: int|
                        SinkCall::Append { bytes: new.fragments[k], observed_at: new.observed_ats[k] },
                ));
            }
            i += 1;
        }
        proof {
            assert(sink.calls() =~= before + stream.sync_calls(start_index, held));
        }
        Some(
            InlineContiguousDataSetMeta {
                slot: self.slot,
                start_index,
                end_index,
                fragment_count: kept.saturating_add(additional_fragments),
                total_payload_len,
            },
        )
    }

    /// Forgets the shreds from `start_index` to `end_index`.
    pub fn retire_range(&mut self, start_index: u32, end_index: u32)
        ensures
            final(self)@ == old(self)@.without(start_index, end_index),
    {
        let ghost before = self@;
        drop_range(&mut self.fragments, start_index, end_index);
        assert(self@.fragments =~= without_range(before.fragments, start_index, end_index));
        retain_fec_sets(&mut self.fec_sets, start_index, end_index);
        if self.last_index.is_some() && self.fragments.is_empty() {
            self.finished = true;
        }
        proof {
            if self.fragments@.is_empty() {
                assert(self@.fragments =~= Map::<u32, InlineFragmentView>::empty());
            }
            if self@.fragments.is_empty() {
                assert(self.fragments@.dom() =~= Set::<u32>::empty());
            }
        }
    }
}

fn fec_set_keys(sets: &HashMap<u32, InlineFecSetState>) -> (r: Vec<u32>)
    ensures
        forall|key: u32| #[trigger] r@.contains(key) <==> sets@.contains_key(key),
        r@.no_duplicates(),
{
    let mut found = IndexSet::new();
    for key in it: sets.keys()
        invariant
            it.seq().unref().to_set() == sets@.dom(),
            found@ == it.seq().unref().take(it.index() as int).to_set(),
            it.index() == it.seq().len() ==> found@ == sets@.dom(),
    {
        found.insert(*key);
        proof {
            let all = it.seq().unref();
            let done = it.index() as int;
            assert(all.take(done + 1) =~= all.take(done).push(all[done]));
            assert(found@ =~= all.take(done + 1).to_set()) by {
                assert forall|x: u32| found@.contains(x) <==> all.take(done + 1).to_set().contains(x) by {
                    if all.take(done).contains(x) {
                        let k = choose|k: int| 0 <= k < done && #[trigger] all.take(done)[k] == x;
                        assert(all.take(done + 1)[k] == x);
                    }
                    if x == all[done] {
                        assert(all.take(done + 1)[done] == x);
                    }
                    if all.take(done + 1).contains(x) {
                        let k = choose|k: int| 0 <= k < done + 1 && #[trigger] all.take(done + 1)[k] == x;
                        if k < done {
                            assert(all.take(done)[k] == x);
                        }
                    }
                }
            }
            assert(done + 1 == all.len() ==> all.take(done + 1) =~= all);
        }
    }
    let keys = found.indices();
    proof {
        assert forall|key: u32| #[trigger] keys@.contains(key) <==> sets@.contains_key(key) by {
            assert(keys@.to_set().contains(key) <==> sets@.dom().contains(key));
        }
    }
    keys
}

fn retain_fec_sets(sets: &mut HashMap<u32, InlineFecSetState>, start_index: u32, end_index: u32)
    ensures
        fec_map(final(sets)@) == fec_sets_without(fec_map(old(sets)@), start_index, end_index),
{
    let ghost before = fec_map(sets@);
    let ghost goal = fec_sets_without(before, start_index, end_index);
    let keys = fec_set_keys(sets);
    let mut i: usize = 0;
    proof {
        assert forall|k: int| 0 <= k < keys@.len() implies before.contains_key(#[trigger] keys@[k]) by {
            assert(keys@.contains(keys@[k]));
        }
    }
    while i < keys.len()
        invariant
            i <= keys@.len(),
            keys@.no_duplicates(),
            goal == fec_sets_without(before, start_index, end_index),
            forall|key: u32| #[trigger] keys@.contains(key) <==> before.contains_key(key),
            forall|key: u32| #[trigger]
                fec_map(sets@).contains_key(key) ==> before.contains_key(key),
            forall|k: int|
                0 <= k < i ==> {
                    &&& goal.contains_key(#[trigger] keys@[k]) <==> fec_map(sets@).contains_key(keys@[k])
                    &&& goal.contains_key(keys@[k]) ==> fec_map(sets@)[keys@[k]] == goal[keys@[k]]
                },
            forall|k: int|
                i <= k < keys@.len() ==> {
                    &&& fec_map(sets@).contains_key(#[trigger] keys@[k])
                    &&& fec_map(sets@)[keys@[k]] == before[keys@[k]]
                },
        decreases keys@.len() - i,
    {
        let key: u32 = keys[i];
        let ghost stage = fec_map(sets@);
        let ghost raw = sets@;
        proof {
            assert(stage.contains_key(keys@[i as int]));
            assert(keys@.contains(key));
        }
        match sets.remove(&key) {
            Some(set) => {
                assert(set@ == before[key]) by {
                    assert(fec_map(raw)[key] == raw[key]@);
                }
                let mut set = set;
                set.retain_outside_range(start_index, end_index);
                if !set.observed_indices.is_empty() {
                    sets.insert(key, set);
                }
            },
            None => {
                assert(false);
            },
        }
        proof {
            assert forall|other: u32| #[trigger] fec_map(sets@).contains_key(other) implies before.contains_key(
                other,
            ) by {
                if other != key {
                    assert(stage.contains_key(other));
                }
            }
            assert forall|k: int| 0 <= k < keys@.len() && k != i implies {
                &&& fec_map(sets@).contains_key(#[trigger] keys@[k]) <==> stage.contains_key(keys@[k])
                &&& stage.contains_key(keys@[k]) ==> fec_map(sets@)[keys@[k]] == stage[keys@[k]]
            } by {
                assert(keys@[k] != key);
            }
        }
        i += 1;
    }
    proof {
        assert forall|key: u32| fec_map(sets@).contains_key(key) <==> goal.contains_key(key) by {
            if before.contains_key(key) {
                assert(keys@.contains(key));
                let k = choose|k: int| 0 <= k < keys@.len() && keys@[k] == key;
                assert(keys@[k] == key);
            }
        }
        assert forall|key: u32| goal.contains_key(key) implies fec_map(sets@)[key] == goal[key] by {
            assert(keys@.contains(key));
            let k = choose|k: int| 0 <= k < keys@.len() && keys@[k] == key;
            assert(keys@[k] == key);
        }
        assert(fec_map(sets@) =~= goal);
    }
}

/// Scratch values in specifications.
pub open spec fn scratch_views(scratch: Seq<InlineContiguousDataSetScratch>) -> Seq<ScratchView> {
    scratch.map_values(|one: InlineContiguousDataSetScratch| one@)
}

fn add_lengths(base: usize, fragments: &Vec<SharedPayloadFragment>) -> (r: usize)
    ensures
        r == capped(base as nat + total_bytes(fragment_views(fragments@))),
{
    let ghost views = fragment_views(fragments@);
    let mut total: usize = base;
    let mut i: usize = 0;
    proof {
        assert(views.skip(0) =~= views);
    }
    while i < fragments.len()
        invariant
            i <= fragments@.len(),
            views == fragment_views(fragments@),
            capped(total as nat + total_bytes(views.skip(i as int))) == capped(
                base as nat + total_bytes(views),
            ),
        decreases fragments@.len() - i,
    {
        proof {
            assert(views.skip(i as int).skip(1) =~= views.skip(i + 1));
            assert(views.skip(i as int)[0] == fragments@[i as int]@);
        }
        total = total.saturating_add(fragments[i].len());
        i += 1;
    }
    proof {
        assert(views.skip(i as int) =~= Seq::<Seq<u8>>::empty());
    }
    total
}

} // verus!
