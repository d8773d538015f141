//! The data shreds of one slot, and the data sets that they complete.
use crate::reassembly::dataset::{CompletedDataSet, DataSetView, InlineContiguousDataSet, InlineView};
use crate::reassembly::fragment::{PayloadFragmentBatch, SharedPayloadFragment};
use crate::reassembly::index_set::{
    ascending, finite_set_is_listed, is_predecessor, listed, listing_is_unique, lists_ascending,
    IndexSet,
};
use crate::reassembly::run::{
    anchored_starts, find_anchored_starts, has_all, run_end, run_is_longest, run_start,
    run_starts_behind_a_gap, without_range,
};
use crate::time::{earlier, later, Instant};
use std::collections::HashMap;
use vstd::prelude::*;

verus! {

broadcast use vstd::std_specs::hash::group_hash_axioms;

/// A stored data shred.
#[derive(Debug)]
pub struct DataFragment {
    /// Its payload.
    pub payload_fragment: SharedPayloadFragment,
    /// Whether it is the last of its slot.
    pub last_in_slot: bool,
    /// When it was observed.
    pub observed_at: Instant,
}

/// A stored data shred in specifications.
pub struct FragmentView {
    /// Its payload.
    pub bytes: Seq<u8>,
    /// Whether it is the last of its slot.
    pub last_in_slot: bool,
    /// When it was observed.
    pub observed_at: Instant,
}

impl View for DataFragment {
    type V = FragmentView;

    open spec fn view(&self) -> FragmentView {
        FragmentView {
            bytes: self.payload_fragment@,
            last_in_slot: self.last_in_slot,
            observed_at: self.observed_at,
        }
    }
}

/// The data shreds of one slot in specifications.
pub struct StreamView {
    /// The slot.
    pub slot: u64,
    /// Fewest shreds of a data set whose start is not known.
    pub tail_min: usize,
    /// Stored shreds by index.
    pub fragments: Map<u32, FragmentView>,
    /// Indexes that end a data set which is not complete yet.
    pub boundaries: Set<u32>,
    /// Index behind the data set completed last.
    pub next_start: u32,
    /// Highest index known to be the last of the slot.
    pub last_index: Option<u32>,
    /// Whether nothing is left to come.
    pub finished: bool,
}

/// Shreds in specifications, from shreds.
pub open spec fn fragment_map(fragments: Map<u32, DataFragment>) -> Map<u32, FragmentView> {
    fragments.map_values(|fragment: DataFragment| fragment@)
}

/// The payloads of the shreds from `start` to `end`.
pub open spec fn payloads(fragments: Map<u32, FragmentView>, start: u32, end: u32) -> Seq<Seq<u8>> {
    Seq::new((end - start + 1) as nat, |i: int| fragments[(start + i) as u32].bytes)
}

/// The times at which the shreds from `start` to `end` were observed.
pub open spec fn times(fragments: Map<u32, FragmentView>, start: u32, end: u32) -> Seq<Instant> {
    Seq::new((end - start + 1) as nat, |i: int| fragments[(start + i) as u32].observed_at)
}

/// The earliest time at which a shred from `start` to `end` was observed.
pub open spec fn first_observed(fragments: Map<u32, FragmentView>, start: u32, end: u32) -> Instant
    decreases end - start,
{
    if end <= start {
        fragments[start].observed_at
    } else {
        earlier(first_observed(fragments, start, (end - 1) as u32), fragments[end].observed_at)
    }
}

/// The latest time at which a shred from `start` to `end` was observed.
pub open spec fn last_observed(fragments: Map<u32, FragmentView>, start: u32, end: u32) -> Instant
    decreases end - start,
{
    if end <= start {
        fragments[start].observed_at
    } else {
        later(last_observed(fragments, start, (end - 1) as u32), fragments[end].observed_at)
    }
}

impl StreamView {
    /// A slot without shreds.
    pub open spec fn empty(slot: u64, tail_min: usize) -> Self {
        StreamView {
            slot,
            tail_min,
            fragments: Map::empty(),
            boundaries: Set::empty(),
            next_start: 0,
            last_index: None,
            finished: false,
        }
    }

    /// The slot after a shred was stored. The first payload for an index stays; a repeated shred
    /// can still make it the last of the slot.
    pub open spec fn with_shred(
        self,
        index: u32,
        data_complete: bool,
        last_in_slot: bool,
        payload: Seq<u8>,
        observed_at: Instant,
    ) -> Self {
        StreamView {
            boundaries: if data_complete || last_in_slot {
                self.boundaries.insert(index)
            } else {
                self.boundaries
            },
            last_index: if last_in_slot {
                match self.last_index {
                    Some(known) if known > index => Some(known),
                    _ => Some(index),
                }
            } else {
                self.last_index
            },
            fragments: if !self.fragments.contains_key(index) {
                self.fragments.insert(index, FragmentView { bytes: payload, last_in_slot, observed_at })
            } else if last_in_slot {
                self.fragments.insert(
                    index,
                    FragmentView {
                        last_in_slot: true,
                        observed_at: later(self.fragments[index].observed_at, observed_at),
                        ..self.fragments[index]
                    },
                )
            } else {
                self.fragments
            },
            ..self
        }
    }

    /// Where the data set that ends at `boundary` starts: behind the boundary before it, or, where
    /// none is known, at the start of the run of shreds that reaches it, provided that the run
    /// starts the slot or is long enough.
    pub open spec fn start_for(self, boundary: u32) -> Option<u32> {
        if exists|p: u32| is_predecessor(self.boundaries, boundary, p) {
            let p = choose|p: u32| is_predecessor(self.boundaries, boundary, p);
            Some((p + 1) as u32)
        } else {
            let start = run_start(self.fragments, boundary);
            if start > 0 && boundary - start + 1 < self.tail_min {
                None
            } else {
                Some(start)
            }
        }
    }

    /// Whether the data set that ends at `boundary` is complete.
    pub open spec fn completes(self, boundary: u32) -> bool {
        self.start_for(boundary) matches Some(start) && has_all(self.fragments, start, boundary)
    }

    /// The data set from `start` to `end`.
    pub open spec fn dataset(self, start: u32, end: u32) -> DataSetView {
        DataSetView {
            slot: self.slot,
            start_index: start,
            end_index: end,
            fragments: payloads(self.fragments, start, end),
            last_in_slot: exists|index: u32|
                start <= index <= end && (#[trigger] self.fragments[index]).last_in_slot,
            first_observed: first_observed(self.fragments, start, end),
            last_observed: last_observed(self.fragments, start, end),
        }
    }

    /// The slot after the data set that ends at `boundary` was taken out, if it is complete.
    pub open spec fn after_boundary(self, boundary: u32) -> Self {
        if self.completes(boundary) {
            StreamView {
                fragments: without_range(self.fragments, self.start_for(boundary)->0, boundary),
                boundaries: self.boundaries.remove(boundary),
                next_start: if boundary < u32::MAX {
                    (boundary + 1) as u32
                } else {
                    boundary
                },
                ..self
            }
        } else {
            self
        }
    }

    /// The slot after the data sets that end at some boundaries were taken out in turn.
    pub open spec fn after_boundaries(self, boundaries: Seq<u32>) -> Self
        decreases boundaries.len(),
    {
        if boundaries.len() == 0 {
            self
        } else {
            self.after_boundaries(boundaries.drop_last()).after_boundary(boundaries.last())
        }
    }

    /// The data sets that are taken out in turn.
    pub open spec fn taken(self, boundaries: Seq<u32>) -> Seq<DataSetView>
        decreases boundaries.len(),
    {
        if boundaries.len() == 0 {
            Seq::empty()
        } else {
            let before = self.after_boundaries(boundaries.drop_last());
            let boundary = boundaries.last();
            if before.completes(boundary) {
                self.taken(boundaries.drop_last()).push(before.dataset(before.start_for(boundary)->0, boundary))
            } else {
                self.taken(boundaries.drop_last())
            }
        }
    }

    /// The data sets that are complete, in order of their boundaries.
    pub open spec fn drained(self) -> Seq<DataSetView> {
        self.taken(listed(self.boundaries))
    }

    /// The slot after its complete data sets were taken out. It is finished when nothing is left
    /// and the last data set of the slot is among those taken.
    pub open spec fn after_drain(self) -> Self {
        let rest = self.after_boundaries(listed(self.boundaries));
        StreamView {
            finished: rest.finished || (rest.last_index is Some && !rest.boundaries.contains(
                rest.last_index->0,
            ) && rest.fragments.is_empty()),
            ..rest
        }
    }

    /// Indexes at which an open data set starts: the start of the slot, the index behind the data
    /// set completed last, and the indexes behind known boundaries, as far as a shred is there.
    pub open spec fn open_starts(self) -> Set<u32> {
        let anchored = anchored_starts(self.fragments, self.boundaries);
        if self.fragments.contains_key(self.next_start) {
            anchored.insert(self.next_start)
        } else {
            anchored
        }
    }

    /// The run of shreds that starts at `start`.
    pub open spec fn run_from(self, start: u32) -> InlineView {
        let end = run_end(self.fragments, start);
        InlineView {
            slot: self.slot,
            start_index: start,
            end_index: end,
            fragments: payloads(self.fragments, start, end),
            observed_ats: times(self.fragments, start, end),
        }
    }

    /// The open data sets, in order of their starts.
    pub open spec fn open_runs(self) -> Seq<InlineView> {
        listed(self.open_starts()).map_values(|start: u32| self.run_from(start))
    }
}

/// The data shreds of one slot.
#[derive(Debug)]
pub struct SlotStream {
    /// The slot.
    pub slot: u64,
    /// Fewest shreds of a data set whose start is not known.
    pub tail_min_shreds_without_anchor: usize,
    /// Stored shreds by index.
    pub fragments: HashMap<u32, DataFragment>,
    /// Indexes that end a data set which is not complete yet.
    pub dataset_boundaries: IndexSet,
    /// Index behind the data set completed last.
    pub next_dataset_start: u32,
    /// Highest index known to be the last of the slot.
    pub last_index: Option<u32>,
    /// Whether nothing is left to come.
    pub finished: bool,
}

impl View for SlotStream {
    type V = StreamView;

    open spec fn view(&self) -> StreamView {
        StreamView {
            slot: self.slot,
            tail_min: self.tail_min_shreds_without_anchor,
            fragments: fragment_map(self.fragments@),
            boundaries: self.dataset_boundaries@,
            next_start: self.next_dataset_start,
            last_index: self.last_index,
            finished: self.finished,
        }
    }
}

impl SlotStream {
    /// A slot without shreds.
    pub fn new(slot: u64, tail_min_shreds_without_anchor: usize) -> (r: Self)
        ensures
            r@ == StreamView::empty(slot, tail_min_shreds_without_anchor),
    {
        let stream = SlotStream {
            slot,
            tail_min_shreds_without_anchor,
            fragments: HashMap::new(),
            dataset_boundaries: IndexSet::new(),
            next_dataset_start: 0,
            last_index: None,
            finished: false,
        };
        assert(stream@.fragments =~= Map::<u32, FragmentView>::empty());
        stream
    }

    /// Stores a shred.
    pub fn insert(
        &mut self,
        index: u32,
        data_complete: bool,
        last_in_slot: bool,
        payload_fragment: SharedPayloadFragment,
        observed_at: Instant,
    )
        ensures
            final(self)@ == old(self)@.with_shred(
                index,
                data_complete,
                last_in_slot,
                payload_fragment@,
                observed_at,
            ),
    {
        let ghost before = self@;
        if data_complete || last_in_slot {
            self.dataset_boundaries.insert(index);
        }
        if last_in_slot {
            self.last_index = match self.last_index {
                Some(known) => if known > index {
                    Some(known)
                } else {
                    Some(index)
                },
                None => Some(index),
            };
        }
        match self.fragments.remove(&index) {
            None => {
                self.fragments.insert(index, DataFragment { payload_fragment, last_in_slot, observed_at });
            },
            Some(stored) => {
                let mut stored = stored;
                if last_in_slot {
                    stored.last_in_slot = true;
                    stored.observed_at = stored.observed_at.later_of(observed_at);
                }
                self.fragments.insert(index, stored);
            },
        }
        proof {
            let after = before.with_shred(
                index,
                data_complete,
                last_in_slot,
                payload_fragment@,
                observed_at,
            );
            assert(self@.fragments =~= after.fragments);
        }
    }

    fn start_index_for_boundary(&self, complete_index: u32) -> (r: Option<u32>)
        ensures
            r == self@.start_for(complete_index),
            r matches Some(start) ==> start <= complete_index,
    {
        let previous = self.dataset_boundaries.predecessor(complete_index);
        if let Some(p) = previous {
            proof {
                assert(is_predecessor(self@.boundaries, complete_index, p));
                let q = choose|q: u32| is_predecessor(self@.boundaries, complete_index, q);
                assert(is_predecessor(self@.boundaries, complete_index, q));
                assert(self@.boundaries.contains(p) && self@.boundaries.contains(q));
            }
            return Some(p + 1);
        }
        proof {
            assert forall|p: u32| !is_predecessor(self@.boundaries, complete_index, p) by {
                if self@.boundaries.contains(p) {
                    assert(p >= complete_index);
                }
            }
        }
        let ghost fragments = self@.fragments;
        let mut start: u32 = complete_index;
        while start > 0 && self.fragments.contains_key(&(start - 1))
            invariant
                fragments == fragment_map(self.fragments@),
                start <= complete_index,
                run_start(fragments, start) == run_start(fragments, complete_index),
            decreases start,
        {
            start = start - 1;
        }
        if start > 0 {
            let contiguous: u32 = complete_index - start + 1;
            if (contiguous as u64) < self.tail_min_shreds_without_anchor as u64 {
                return None;
            }
        }
        Some(start)
    }

    fn has_full_range(&self, start_index: u32, end_index: u32) -> (r: bool)
        ensures
            r == has_all(self@.fragments, start_index, end_index),
    {
        if start_index > end_index {
            return true;
        }
        let mut index: u32 = start_index;
        loop
            invariant
                start_index <= index <= end_index,
                forall|seen: u32|
                    start_index <= seen < index ==> #[trigger] self@.fragments.contains_key(seen),
            decreases end_index - index,
        {
            if !self.fragments.contains_key(&index) {
                assert(!self@.fragments.contains_key(index));
                return false;
            }
            if index == end_index {
                return true;
            }
            index += 1;
        }
    }

    fn take_dataset(&mut self, start_index: u32, complete_index: u32) -> (r: CompletedDataSet)
        requires
            start_index <= complete_index,
            has_all(old(self)@.fragments, start_index, complete_index),
        ensures
            r@ == old(self)@.dataset(start_index, complete_index),
            final(self)@ == (StreamView {
                fragments: without_range(old(self)@.fragments, start_index, complete_index),
                ..old(self)@
            }),
    {
        let ghost before = self@.fragments;
        let ghost whole = self@;
        let mut fragments: Vec<SharedPayloadFragment> = Vec::new();
        let mut last_in_slot: bool = false;
        let mut first: Option<Instant> = None;
        let mut last: Option<Instant> = None;
        let mut index: u32 = start_index;
        let mut done: bool = false;
        proof {
            assert(self@.fragments =~= before.restrict(
                Set::new(|seen: u32| seen < start_index || seen >= index),
            ));
        }
        while !done
            invariant
                start_index <= index <= complete_index,
                whole == old(self)@,
                before == whole.fragments,
                has_all(before, start_index, complete_index),
                self@ == (StreamView { fragments: self@.fragments, ..whole }),
                !done ==> {
                    &&& self@.fragments =~= before.restrict(
                        Set::new(|seen: u32| seen < start_index || seen >= index),
                    )
                    &&& fragments@.len() == index - start_index
                    &&& last_in_slot == exists|seen: u32|
                        start_index <= seen < index && (#[trigger] before[seen]).last_in_slot
                    &&& index == start_index ==> first is None && last is None
                    &&& index > start_index ==> first == Some(
                        first_observed(before, start_index, (index - 1) as u32),
                    ) && last == Some(last_observed(before, start_index, (index - 1) as u32))
                },
                done ==> {
                    &&& self@.fragments =~= without_range(before, start_index, complete_index)
                    &&& fragments@.len() == complete_index - start_index + 1
                    &&& last_in_slot == exists|seen: u32|
                        start_index <= seen <= complete_index && (#[trigger] before[seen]).last_in_slot
                    &&& first == Some(first_observed(before, start_index, complete_index))
                    &&& last == Some(last_observed(before, start_index, complete_index))
                },
                forall|i: int|
                    0 <= i < fragments@.len() ==> (#[trigger] fragments@[i])@ == before[(start_index + i) as u32].bytes,
            decreases (complete_index - index) + (if done { 0int } else { 1int }),
        {
            let ghost current = self@.fragments;
            let ghost stored = self.fragments@;
            assert(before.contains_key(index));
            assert(current.contains_key(index));
            match self.fragments.remove(&index) {
                Some(fragment) => {
                    assert(fragment@ == before[index]) by {
                        assert(fragment_map(stored)[index] == stored[index]@);
                        assert(current[index] == before[index]);
                    }
                    if fragment.last_in_slot {
                        last_in_slot = true;
                    }
                    first = match first {
                        Some(known) => Some(known.earlier_of(fragment.observed_at)),
                        None => Some(fragment.observed_at),
                    };
                    last = match last {
                        Some(known) => Some(known.later_of(fragment.observed_at)),
                        None => Some(fragment.observed_at),
                    };
                    fragments.push(fragment.payload_fragment);
                },
                None => {
                    assert(false);
                },
            }
            proof {
                assert(self@.fragments =~= current.remove(index));
                assert(last_in_slot == exists|seen: u32|
                    start_index <= seen <= index && (#[trigger] before[seen]).last_in_slot) by {
                    assert(before[index] == before[index]);
                }
            }
            if index == complete_index {
                done = true;
            } else {
                index += 1;
            }
        }
        let dataset = CompletedDataSet {
            slot: self.slot,
            start_index,
            end_index: complete_index,
            payload_fragments: PayloadFragmentBatch::new(fragments),
            last_in_slot,
            first_shred_observed_at: first.unwrap(),
            last_shred_observed_at: last.unwrap(),
        };
        proof {
            assert(dataset@.fragments =~= payloads(before, start_index, complete_index));
        }
        dataset
    }

    /// Takes out the data sets that are complete.
    pub fn drain_contiguous_datasets(&mut self) -> (r: Vec<CompletedDataSet>)
        ensures
            dataset_views(r@) == old(self)@.drained(),
            final(self)@ == old(self)@.after_drain(),
    {
        let ghost before = self@;
        let boundaries = self.dataset_boundaries.indices();
        let mut completed: Vec<CompletedDataSet> = Vec::new();
        let mut i: usize = 0;
        proof {
            assert(boundaries@.take(0) =~= Seq::<u32>::empty());
            assert(dataset_views(completed@) =~= before.taken(boundaries@.take(0)));
        }
        while i < boundaries.len()
            invariant
                i <= boundaries@.len(),
                self@ == before.after_boundaries(boundaries@.take(i as int)),
                dataset_views(completed@) == before.taken(boundaries@.take(i as int)),
            decreases boundaries@.len() - i,
        {
            let complete_index: u32 = boundaries[i];
            let ghost stage = self@;
            proof {
                assert(boundaries@.take(i + 1).drop_last() =~= boundaries@.take(i as int));
                assert(boundaries@.take(i + 1).last() == complete_index);
            }
            i += 1;
            let start = self.start_index_for_boundary(complete_index);
            if let Some(start_index) = start {
                if self.has_full_range(start_index, complete_index) {
                    let dataset = self.take_dataset(start_index, complete_index);
                    self.dataset_boundaries.remove(complete_index);
                    self.next_dataset_start = complete_index.saturating_add(1);
                    let ghost earlier_sets = completed@;
                    completed.push(dataset);
                    proof {
                        assert(dataset_views(completed@) =~= dataset_views(earlier_sets).push(dataset@));
                        assert(self@ == stage.after_boundary(complete_index));
                    }
                }
            }
        }
        proof {
            assert(boundaries@.take(i as int) =~= boundaries@);
        }
        let ghost rest = self@;
        let last_taken: bool = match self.last_index {
            Some(last_index) => !self.dataset_boundaries.contains(last_index),
            None => false,
        };
        if last_taken && self.fragments.is_empty() {
            self.finished = true;
        }
        proof {
            if self.fragments@.is_empty() {
                assert(rest.fragments =~= Map::<u32, FragmentView>::empty());
            }
            if rest.fragments.is_empty() {
                assert(self.fragments@.dom() =~= Set::<u32>::empty());
            }
        }
        completed
    }

    fn inline_contiguous_dataset_from(&self, start_index: u32) -> (r: InlineContiguousDataSet)
        requires
            self@.fragments.contains_key(start_index),
        ensures
            r@ == self@.run_from(start_index),
    {
        let ghost fragments = self@.fragments;
        let mut payload_fragments: Vec<SharedPayloadFragment> = Vec::new();
        let mut fragment_observed_ats: Vec<Instant> = Vec::new();
        let mut cursor: u32 = start_index;
        let mut open: bool = true;
        while open
            invariant
                fragments == fragment_map(self.fragments@),
                start_index <= cursor,
                run_end(fragments, cursor) == run_end(fragments, start_index),
                fragments.contains_key(cursor),
                payload_fragments@.len() == cursor - start_index + (if open {
                    0int
                } else {
                    1int
                }),
                fragment_observed_ats@.len() == payload_fragments@.len(),
                !open ==> cursor == run_end(fragments, start_index),
                forall|i: int|
                    0 <= i < payload_fragments@.len() ==> (#[trigger] payload_fragments@[i])@
                        == fragments[(start_index + i) as u32].bytes,
                forall|i: int|
                    0 <= i < fragment_observed_ats@.len() ==> #[trigger] fragment_observed_ats@[i]
                        == fragments[(start_index + i) as u32].observed_at,
            decreases (u32::MAX - cursor) + (if open { 1int } else { 0int }),
        {
            match self.fragments.get(&cursor) {
                Some(fragment) => {
                    let shared = fragment.payload_fragment.clone();
                    payload_fragments.push(shared);
                    fragment_observed_ats.push(fragment.observed_at);
                },
                None => {
                    assert(false);
                },
            }
            if cursor < u32::MAX && self.fragments.contains_key(&(cursor + 1)) {
                cursor += 1;
            } else {
                open = false;
            }
        }
        let run = InlineContiguousDataSet {
            slot: self.slot,
            start_index,
            end_index: cursor,
            payload_fragments: PayloadFragmentBatch::new(payload_fragments),
            fragment_observed_ats,
        };
        proof {
            assert(run@.fragments =~= payloads(fragments, start_index, cursor));
            assert(run@.observed_ats =~= times(fragments, start_index, cursor));
        }
        run
    }

    /// The open data set that starts first.
    pub fn inline_contiguous_dataset(&self) -> (r: Option<InlineContiguousDataSet>)
        ensures
            match r {
                Some(run) => self@.open_runs().len() > 0 && run@ == self@.open_runs()[0],
                None => self@.open_runs().len() == 0,
            },
    {
        let starts = self.open_starts();
        if starts.len() == 0 {
            return None;
        }
        proof {
            assert(starts@.to_set().contains(starts@[0]));
        }
        Some(self.inline_contiguous_dataset_from(starts[0]))
    }

    fn open_starts(&self) -> (r: Vec<u32>)
        ensures
            r@ == listed(self@.open_starts()),
            lists_ascending(r@, self@.open_starts()),
    {
        let mut starts = find_anchored_starts(&self.fragments, &self.dataset_boundaries);
        if self.fragments.contains_key(&self.next_dataset_start) {
            starts.insert(self.next_dataset_start);
        }
        assert(starts@ =~= self@.open_starts());
        starts.indices()
    }

    /// The open data sets, in order of their starts.
    pub fn inline_contiguous_datasets(&self) -> (r: Vec<InlineContiguousDataSet>)
        ensures
            inline_views(r@) == self@.open_runs(),
    {
        let starts = self.open_starts();
        let mut runs: Vec<InlineContiguousDataSet> = Vec::new();
        let mut i: usize = 0;
        while i < starts.len()
            invariant
                i <= starts@.len(),
                lists_ascending(starts@, self@.open_starts()),
                runs@.len() == i,
                forall|k: int| 0 <= k < i ==> (#[trigger] runs@[k])@ == self@.run_from(starts@[k]),
            decreases starts@.len() - i,
        {
            proof {
                assert(starts@.to_set().contains(starts@[i as int]));
                assert(self@.open_starts().contains(starts@[i as int]));
            }
            let run = self.inline_contiguous_dataset_from(starts[i]);
            runs.push(run);
            i += 1;
        }
        proof {
            assert(inline_views(runs@) =~= self@.open_runs());
        }
        runs
    }
}

/// Data sets in specifications.
pub open spec fn dataset_views(datasets: Seq<CompletedDataSet>) -> Seq<DataSetView> {
    datasets.map_values(|dataset: CompletedDataSet| dataset@)
}

/// Open data sets in specifications.
pub open spec fn inline_views(runs: Seq<InlineContiguousDataSet>) -> Seq<InlineView> {
    runs.map_values(|run: InlineContiguousDataSet| run@)
}

/// Whether `sets` are what was cut out of the shreds `before`, leaving the shreds `after`: each
/// set holds stored payloads in order, sets follow each other without overlap, and a shred is
/// left exactly if no set covers it.
pub open spec fn is_cut(
    before: Map<u32, FragmentView>,
    sets: Seq<DataSetView>,
    after: Map<u32, FragmentView>,
) -> bool {
    &&& forall|i: int|
        0 <= i < sets.len() ==> {
            &&& (#[trigger] sets[i]).start_index <= sets[i].end_index
            &&& has_all(before, sets[i].start_index, sets[i].end_index)
            &&& sets[i].fragments == payloads(before, sets[i].start_index, sets[i].end_index)
        }
    &&& forall|i: int, j: int|
        0 <= i < j < sets.len() ==> (#[trigger] sets[i]).end_index < (#[trigger] sets[j]).start_index
    &&& forall|index: u32| #[trigger]
        after.contains_key(index) ==> before.contains_key(index) && after[index] == before[index]
            && !covered(sets, index)
    &&& forall|index: u32| #[trigger]
        before.contains_key(index) ==> after.contains_key(index) || covered(sets, index)
}

/// Whether some data set covers a shred.
pub open spec fn covered(sets: Seq<DataSetView>, index: u32) -> bool {
    exists|i: int|
        0 <= i < sets.len() && (#[trigger] sets[i]).start_index <= index <= sets[i].end_index
}

proof fn cut_step(
    before: Map<u32, FragmentView>,
    sets: Seq<DataSetView>,
    after: Map<u32, FragmentView>,
    set: DataSetView,
)
    requires
        is_cut(before, sets, after),
        set.start_index <= set.end_index,
        has_all(after, set.start_index, set.end_index),
        set.fragments == payloads(after, set.start_index, set.end_index),
        forall|i: int| 0 <= i < sets.len() ==> (#[trigger] sets[i]).end_index < set.end_index,
    ensures
        is_cut(before, sets.push(set), without_range(after, set.start_index, set.end_index)),
{
    let grown = sets.push(set);
    assert forall|i: int| 0 <= i < sets.len() implies (#[trigger] sets[i]).end_index < set.start_index by {
        if sets[i].end_index >= set.start_index {
            assert(after.contains_key(sets[i].end_index));
            assert(covered(sets, sets[i].end_index));
        }
    }
    assert(has_all(before, set.start_index, set.end_index)) by {
        assert forall|index: u32| set.start_index <= index <= set.end_index implies #[trigger] before.contains_key(
            index,
        ) by {
            assert(after.contains_key(index));
        }
    }
    assert(set.fragments =~= payloads(before, set.start_index, set.end_index)) by {
        assert forall|i: int| 0 <= i <= set.end_index - set.start_index implies #[trigger] payloads(
            after,
            set.start_index,
            set.end_index,
        )[i] == payloads(before, set.start_index, set.end_index)[i] by {
            assert(after.contains_key((set.start_index + i) as u32));
        }
    }
    assert forall|i: int, j: int| 0 <= i < j < grown.len() implies (#[trigger] grown[i]).end_index < (
    #[trigger] grown[j]).start_index by {
        assert(grown[i] == sets[i]);
        if j < sets.len() {
            assert(grown[j] == sets[j]);
        }
    }
    assert forall|i: int| 0 <= i < grown.len() implies {
        &&& (#[trigger] grown[i]).start_index <= grown[i].end_index
        &&& has_all(before, grown[i].start_index, grown[i].end_index)
        &&& grown[i].fragments == payloads(before, grown[i].start_index, grown[i].end_index)
    } by {
        if i < sets.len() {
            assert(grown[i] == sets[i]);
        }
    }
    let left = without_range(after, set.start_index, set.end_index);
    assert forall|index: u32| #[trigger] left.contains_key(index) implies before.contains_key(index) && left[index]
        == before[index] && !covered(grown, index) by {
        assert(after.contains_key(index));
        if covered(grown, index) {
            let i = choose|i: int|
                0 <= i < grown.len() && (#[trigger] grown[i]).start_index <= index <= grown[i].end_index;
            if i < sets.len() {
                assert(grown[i] == sets[i]);
                assert(covered(sets, index));
            }
        }
    }
    assert forall|index: u32| #[trigger] before.contains_key(index) implies left.contains_key(index) || covered(
        grown,
        index,
    ) by {
        if !left.contains_key(index) {
            if after.contains_key(index) {
                assert(grown[sets.len() as int] == set);
            } else {
                let i = choose|i: int|
                    0 <= i < sets.len() && (#[trigger] sets[i]).start_index <= index <= sets[i].end_index;
                assert(grown[i] == sets[i]);
            }
        }
    }
}

proof fn start_is_not_behind(stream: StreamView, boundary: u32)
    ensures
        stream.start_for(boundary) matches Some(start) ==> start <= boundary,
{
    run_start_is_not_behind(stream.fragments, boundary);
}

proof fn run_start_is_not_behind(fragments: Map<u32, FragmentView>, index: u32)
    ensures
        run_start(fragments, index) <= index,
    decreases index,
{
    if index > 0 && fragments.contains_key((index - 1) as u32) {
        run_start_is_not_behind(fragments, (index - 1) as u32);
    }
}

proof fn taken_sets_are_cut(stream: StreamView, boundaries: Seq<u32>)
    requires
        ascending(boundaries),
    ensures
        is_cut(
            stream.fragments,
            stream.taken(boundaries),
            stream.after_boundaries(boundaries).fragments,
        ),
        forall|i: int|
            0 <= i < stream.taken(boundaries).len() ==> boundaries.contains(
                (#[trigger] stream.taken(boundaries)[i]).end_index,
            ),
    decreases boundaries.len(),
{
    if boundaries.len() > 0 {
        let fewer = boundaries.drop_last();
        let boundary = boundaries.last();
        assert(ascending(fewer));
        taken_sets_are_cut(stream, fewer);
        let before = stream.after_boundaries(fewer);
        start_is_not_behind(before, boundary);
        let sets = stream.taken(fewer);
        assert forall|i: int| 0 <= i < sets.len() implies (#[trigger] sets[i]).end_index < boundary
            && boundaries.contains(sets[i].end_index) by {
            assert(fewer.contains(sets[i].end_index));
            let k = choose|k: int| 0 <= k < fewer.len() && fewer[k] == sets[i].end_index;
            assert(boundaries[k] == sets[i].end_index);
            assert(boundaries[k] < boundaries[boundaries.len() - 1]);
        }
        if before.completes(boundary) {
            let set = before.dataset(before.start_for(boundary)->0, boundary);
            cut_step(stream.fragments, sets, before.fragments, set);
            let grown = sets.push(set);
            assert forall|i: int| 0 <= i < grown.len() implies boundaries.contains(
                (#[trigger] grown[i]).end_index,
            ) by {
                if i < sets.len() {
                    assert(grown[i] == sets[i]);
                } else {
                    assert(boundaries[boundaries.len() - 1] == boundary);
                }
            }
        }
    }
}

/// The complete data sets of a slot are cut out of its shreds: each shred goes into one data set
/// at most, with its payload and in its place, and every other shred stays as it was.
pub proof fn drained_sets_are_cut(stream: StreamView)
    requires
        stream.boundaries.finite(),
    ensures
        is_cut(stream.fragments, stream.drained(), stream.after_drain().fragments),
{
    finite_set_is_listed(stream.boundaries);
    taken_sets_are_cut(stream, listed(stream.boundaries));
}

proof fn run_start_needs_only_what_is_below(
    a: Map<u32, FragmentView>,
    b: Map<u32, FragmentView>,
    index: u32,
)
    requires
        forall|below: u32| below <= index ==> (#[trigger] a.contains_key(below) <==> b.contains_key(below)),
    ensures
        run_start(a, index) == run_start(b, index),
    decreases index,
{
    if index > 0 {
        assert(a.contains_key((index - 1) as u32) <==> b.contains_key((index - 1) as u32));
        run_start_needs_only_what_is_below(a, b, (index - 1) as u32);
    }
}

proof fn predecessor_exists(set: Set<u32>, index: u32, lower: u32)
    requires
        set.contains(lower),
        lower < index,
    ensures
        exists|p: u32| is_predecessor(set, index, p),
    decreases index - lower,
{
    if exists|between: u32| set.contains(between) && lower < between < index {
        let between = choose|between: u32| set.contains(between) && lower < between < index;
        predecessor_exists(set, index, between);
    } else {
        assert(is_predecessor(set, index, lower));
    }
}

proof fn taking_out_keeps_lower_boundaries_open(stream: StreamView, taken: u32, lower: u32)
    requires
        stream.boundaries.contains(lower),
        lower < taken,
        !stream.completes(lower),
    ensures
        !stream.after_boundary(taken).completes(lower),
{
    let after = stream.after_boundary(taken);
    if stream.completes(taken) {
        let start = stream.start_for(taken)->0;
        assert(start > lower) by {
            if exists|p: u32| is_predecessor(stream.boundaries, taken, p) {
                let p = choose|p: u32| is_predecessor(stream.boundaries, taken, p);
                assert(stream.boundaries.contains(p));
            } else {
                predecessor_exists(stream.boundaries, taken, lower);
            }
        }
        assert forall|p: u32| is_predecessor(after.boundaries, lower, p) <==> is_predecessor(
            stream.boundaries,
            lower,
            p,
        ) by {
            if is_predecessor(after.boundaries, lower, p) {
                assert forall|other: u32| #[trigger] stream.boundaries.contains(other) && other < lower implies other
                    <= p by {
                    assert(after.boundaries.contains(other));
                }
            }
        }
        assert forall|below: u32| below <= lower implies (#[trigger] stream.fragments.contains_key(below)
            <==> after.fragments.contains_key(below)) by {}
        run_start_needs_only_what_is_below(stream.fragments, after.fragments, lower);
        if exists|p: u32| is_predecessor(stream.boundaries, lower, p) {
            let p = choose|p: u32| is_predecessor(stream.boundaries, lower, p);
            let q = choose|q: u32| is_predecessor(after.boundaries, lower, q);
            assert(is_predecessor(after.boundaries, lower, p));
            assert(is_predecessor(stream.boundaries, lower, q));
            assert(stream.boundaries.contains(p) && stream.boundaries.contains(q));
            assert(p == q);
        } else {
            assert(!exists|p: u32| is_predecessor(after.boundaries, lower, p)) by {
                if exists|p: u32| is_predecessor(after.boundaries, lower, p) {
                    let p = choose|p: u32| is_predecessor(after.boundaries, lower, p);
                    assert(is_predecessor(stream.boundaries, lower, p));
                }
            }
        }
        assert(after.start_for(lower) == stream.start_for(lower));
        if stream.start_for(lower) is Some {
            let from = stream.start_for(lower)->0;
            assert(!has_all(stream.fragments, from, lower));
            let missing = choose|index: u32|
                from <= index <= lower && !#[trigger] stream.fragments.contains_key(index);
            assert(!after.fragments.contains_key(missing));
        }
    }
}

proof fn taken_boundaries_are_settled(stream: StreamView, boundaries: Seq<u32>)
    requires
        ascending(boundaries),
    ensures
        forall|b: u32| #[trigger]
            stream.after_boundaries(boundaries).boundaries.contains(b) ==> stream.boundaries.contains(b),
        forall|b: u32| #[trigger]
            boundaries.contains(b) && stream.after_boundaries(boundaries).boundaries.contains(b)
                ==> !stream.after_boundaries(boundaries).completes(b),
    decreases boundaries.len(),
{
    if boundaries.len() > 0 {
        let fewer = boundaries.drop_last();
        let boundary = boundaries.last();
        assert(ascending(fewer));
        taken_boundaries_are_settled(stream, fewer);
        let before = stream.after_boundaries(fewer);
        let after = stream.after_boundaries(boundaries);
        assert forall|b: u32| #[trigger] boundaries.contains(b) && after.boundaries.contains(b) implies !after.completes(
            b,
        ) by {
            let k = choose|k: int| 0 <= k < boundaries.len() && boundaries[k] == b;
            if k < fewer.len() {
                assert(fewer[k] == b);
                assert(fewer.contains(b));
                assert(boundaries[k] < boundaries[boundaries.len() - 1]);
                assert(before.boundaries.contains(b));
                taking_out_keeps_lower_boundaries_open(before, boundary, b);
            }
        }
    }
}

/// Taking out the complete data sets leaves none: a second time nothing comes out, and the slot
/// stays as it is.
pub proof fn drained_slot_has_nothing_complete(stream: StreamView)
    requires
        stream.boundaries.finite(),
    ensures
        stream.after_drain().drained() == Seq::<DataSetView>::empty(),
        stream.after_drain().after_drain() == stream.after_drain(),
{
    let list = listed(stream.boundaries);
    finite_set_is_listed(stream.boundaries);
    taken_boundaries_are_settled(stream, list);
    boundaries_only_leave(stream, list);
    let rest = stream.after_boundaries(list);
    let drained = stream.after_drain();
    assert(drained.boundaries == rest.boundaries);
    finite_set_is_listed(rest.boundaries);
    let left = listed(rest.boundaries);
    assert forall|b: u32| left.contains(b) implies !drained.completes(b) by {
        assert(left.to_set().contains(b));
        assert(stream.boundaries.contains(b));
        assert(list.to_set().contains(b));
        assert(!rest.completes(b));
        assert(drained.start_for(b) == rest.start_for(b));
    }
    nothing_is_taken(drained, left);
}

proof fn boundaries_only_leave(stream: StreamView, boundaries: Seq<u32>)
    requires
        stream.boundaries.finite(),
    ensures
        stream.after_boundaries(boundaries).boundaries.finite(),
    decreases boundaries.len(),
{
    if boundaries.len() > 0 {
        boundaries_only_leave(stream, boundaries.drop_last());
    }
}

proof fn nothing_is_taken(stream: StreamView, boundaries: Seq<u32>)
    requires
        forall|b: u32| #[trigger] boundaries.contains(b) ==> !stream.completes(b),
    ensures
        stream.after_boundaries(boundaries) == stream,
        stream.taken(boundaries) == Seq::<DataSetView>::empty(),
    decreases boundaries.len(),
{
    if boundaries.len() > 0 {
        let fewer = boundaries.drop_last();
        assert forall|b: u32| #[trigger] fewer.contains(b) implies !stream.completes(b) by {
            let k = choose|k: int| 0 <= k < fewer.len() && fewer[k] == b;
            assert(boundaries[k] == b);
            assert(boundaries.contains(b));
        }
        nothing_is_taken(stream, fewer);
        assert(boundaries[boundaries.len() - 1] == boundaries.last());
        assert(boundaries.contains(boundaries.last()));
    }
}

/// The first payload stored for an index stays, whatever is stored later, and storing a shred
/// changes no other index.
pub proof fn first_payload_stays(
    stream: StreamView,
    index: u32,
    data_complete: bool,
    last_in_slot: bool,
    payload: Seq<u8>,
    observed_at: Instant,
    other: u32,
)
    requires
        stream.fragments.contains_key(other),
    ensures
        ({
            let after = stream.with_shred(index, data_complete, last_in_slot, payload, observed_at);
            &&& after.fragments.contains_key(other)
            &&& after.fragments[other].bytes == stream.fragments[other].bytes
            &&& other != index ==> after.fragments[other] == stream.fragments[other]
        }),
{
}

/// Two shreds of different indexes leave the same slot in whichever order they are stored.
pub proof fn storing_order_does_not_matter(
    stream: StreamView,
    a: u32,
    a_complete: bool,
    a_last: bool,
    a_payload: Seq<u8>,
    a_observed_at: Instant,
    b: u32,
    b_complete: bool,
    b_last: bool,
    b_payload: Seq<u8>,
    b_observed_at: Instant,
)
    requires
        a != b,
    ensures
        stream.with_shred(a, a_complete, a_last, a_payload, a_observed_at).with_shred(
            b,
            b_complete,
            b_last,
            b_payload,
            b_observed_at,
        ) == stream.with_shred(b, b_complete, b_last, b_payload, b_observed_at).with_shred(
            a,
            a_complete,
            a_last,
            a_payload,
            a_observed_at,
        ),
{
    let ab = stream.with_shred(a, a_complete, a_last, a_payload, a_observed_at).with_shred(
        b,
        b_complete,
        b_last,
        b_payload,
        b_observed_at,
    );
    let ba = stream.with_shred(b, b_complete, b_last, b_payload, b_observed_at).with_shred(
        a,
        a_complete,
        a_last,
        a_payload,
        a_observed_at,
    );
    assert(ab.boundaries =~= ba.boundaries);
    assert(ab.fragments =~= ba.fragments);
}

/// Where no data set comes out, nothing is taken out of the slot.
pub(crate) proof fn undrained_stream_stays(stream: StreamView)
    requires
        stream.drained().len() == 0,
    ensures
        stream.after_boundaries(listed(stream.boundaries)) == stream,
{
    nothing_leaves_untaken(stream, listed(stream.boundaries));
}

proof fn nothing_leaves_untaken(stream: StreamView, boundaries: Seq<u32>)
    requires
        stream.taken(boundaries).len() == 0,
    ensures
        stream.after_boundaries(boundaries) == stream,
    decreases boundaries.len(),
{
    if boundaries.len() > 0 {
        nothing_leaves_untaken(stream, boundaries.drop_last());
    }
}

/// The complete data set with the lowest boundary comes out, and comes out first, with the payloads
/// that the slot holds for it, in order of their indexes.
pub proof fn first_complete_set_comes_out(stream: StreamView, boundary: u32)
    requires
        stream.boundaries.finite(),
        stream.boundaries.contains(boundary),
        forall|other: u32| #[trigger] stream.boundaries.contains(other) ==> boundary <= other,
        stream.completes(boundary),
    ensures
        stream.drained().len() > 0,
        stream.drained()[0] == stream.dataset(stream.start_for(boundary)->0, boundary),
{
    let list = listed(stream.boundaries);
    finite_set_is_listed(stream.boundaries);
    assert(list.to_set().contains(boundary));
    let k = choose|k: int| 0 <= k < list.len() && list[k] == boundary;
    assert(list.to_set().contains(list[0]));
    assert(list[0] == boundary);
    first_taken_comes_first(stream, list);
}

proof fn first_taken_comes_first(stream: StreamView, boundaries: Seq<u32>)
    requires
        boundaries.len() > 0,
        stream.completes(boundaries[0]),
    ensures
        stream.taken(boundaries).len() > 0,
        stream.taken(boundaries)[0] == stream.dataset(stream.start_for(boundaries[0])->0, boundaries[0]),
    decreases boundaries.len(),
{
    let fewer = boundaries.drop_last();
    if fewer.len() > 0 {
        first_taken_comes_first(stream, fewer);
    } else {
        assert(stream.after_boundaries(fewer) == stream);
        assert(stream.taken(fewer) == Seq::<DataSetView>::empty());
    }
}

/// Where every shred up to the only boundary is held, exactly one data set comes out: the whole run
/// from the first shred of the slot, in order of the indexes.
pub proof fn whole_run_comes_out(stream: StreamView, boundary: u32)
    requires
        stream.boundaries == Set::<u32>::empty().insert(boundary),
        has_all(stream.fragments, 0, boundary),
    ensures
        stream.drained() == seq![stream.dataset(0, boundary)],
        stream.after_drain().fragments == without_range(stream.fragments, 0, boundary),
{
    full_run_starts_the_slot(stream.fragments, boundary);
    assert(!exists|p: u32| is_predecessor(stream.boundaries, boundary, p)) by {
        if exists|p: u32| is_predecessor(stream.boundaries, boundary, p) {
            let p = choose|p: u32| is_predecessor(stream.boundaries, boundary, p);
            assert(stream.boundaries.contains(p));
        }
    }
    assert(stream.start_for(boundary) == Some(0u32));
    assert(stream.completes(boundary));
    let list = listed(stream.boundaries);
    finite_set_is_listed(stream.boundaries);
    assert(seq![boundary].to_set() =~= stream.boundaries) by {
        assert(seq![boundary][0] == boundary);
    }
    listing_is_unique(list, seq![boundary]);
    assert(list.drop_last() =~= Seq::<u32>::empty());
    assert(stream.after_boundaries(list.drop_last()) == stream);
    assert(stream.taken(list.drop_last()) == Seq::<DataSetView>::empty());
    assert(stream.drained() =~= seq![stream.dataset(0, boundary)]);
}

proof fn full_run_starts_the_slot(fragments: Map<u32, FragmentView>, index: u32)
    requires
        has_all(fragments, 0, index),
    ensures
        run_start(fragments, index) == 0,
    decreases index,
{
    if index > 0 {
        assert(fragments.contains_key((index - 1) as u32));
        full_run_starts_the_slot(fragments, (index - 1) as u32);
    }
}

/// Taking data sets out of a slot changes neither its number nor whether it is finished, and they all
/// carry its number.
pub(crate) proof fn taken_sets_carry_the_slot(stream: StreamView, boundaries: Seq<u32>)
    ensures
        stream.after_boundaries(boundaries).slot == stream.slot,
        stream.after_boundaries(boundaries).finished == stream.finished,
        stream.boundaries.finite() ==> stream.after_boundaries(boundaries).boundaries.finite(),
        forall|i: int|
            0 <= i < stream.taken(boundaries).len() ==> (#[trigger] stream.taken(boundaries)[i]).slot
                == stream.slot,
    decreases boundaries.len(),
{
    if boundaries.len() > 0 {
        let fewer = boundaries.drop_last();
        taken_sets_carry_the_slot(stream, fewer);
        let sets = stream.taken(boundaries);
        assert forall|i: int| 0 <= i < sets.len() implies (#[trigger] sets[i]).slot == stream.slot by {
            if i < stream.taken(fewer).len() {
                assert(sets[i] == stream.taken(fewer)[i]);
            }
        }
    }
}

/// Whether one of the first `count` data sets ends at an index.
pub open spec fn ends_one(sets: Seq<DataSetView>, count: int, index: u32) -> bool {
    exists|j: int| 0 <= j < count && (#[trigger] sets[j]).end_index == index
}

/// Whether a boundary of a slot was still open when the `i`-th of some data sets came out.
pub open spec fn open_before(stream: StreamView, sets: Seq<DataSetView>, i: int, boundary: u32) -> bool {
    stream.boundaries.contains(boundary) && !ends_one(sets, i, boundary)
}

/// Whether the `i`-th of the data sets that came out of a slot starts where it should. With an open
/// boundary below its end it starts right behind the greatest of them. Without one it starts the
/// slot, or nothing is left right before it and it is long enough.
pub open spec fn starts_rightly(stream: StreamView, sets: Seq<DataSetView>, i: int) -> bool {
    let set = sets[i];
    &&& stream.boundaries.contains(set.end_index)
    &&& if exists|p: u32| p < set.end_index && #[trigger] open_before(stream, sets, i, p) {
        &&& set.start_index > 0
        &&& open_before(stream, sets, i, (set.start_index - 1) as u32)
        &&& forall|p: u32|
            p < set.end_index && #[trigger] open_before(stream, sets, i, p) ==> p < set.start_index
    } else {
        set.start_index == 0 || {
            &&& !stream.fragments.contains_key((set.start_index - 1) as u32) || exists|j: int|
                0 <= j < i && (#[trigger] sets[j]).start_index <= set.start_index - 1 <= sets[j].end_index
            &&& set.end_index - set.start_index + 1 >= stream.tail_min
        }
    }
}

proof fn starts_rightly_among_more(stream: StreamView, sets: Seq<DataSetView>, more: DataSetView, i: int)
    requires
        0 <= i < sets.len(),
        starts_rightly(stream, sets, i),
    ensures
        starts_rightly(stream, sets.push(more), i),
{
    let grown = sets.push(more);
    assert(grown[i] == sets[i]);
    assert forall|p: u32| open_before(stream, sets, i, p) == #[trigger] open_before(stream, grown, i, p) by {
        if ends_one(sets, i, p) {
            let j = choose|j: int| 0 <= j < i && (#[trigger] sets[j]).end_index == p;
            assert(grown[j].end_index == p);
        }
        if ends_one(grown, i, p) {
            let j = choose|j: int| 0 <= j < i && (#[trigger] grown[j]).end_index == p;
            assert(sets[j].end_index == p);
        }
    }
    let set = sets[i];
    if exists|p: u32| p < set.end_index && #[trigger] open_before(stream, sets, i, p) {
        let p = choose|p: u32| p < set.end_index && #[trigger] open_before(stream, sets, i, p);
        assert(open_before(stream, grown, i, p));
    } else {
        assert forall|p: u32| p < set.end_index implies !#[trigger] open_before(stream, grown, i, p) by {
            assert(!open_before(stream, sets, i, p));
        }
        if set.start_index > 0 && stream.fragments.contains_key((set.start_index - 1) as u32) {
            let j = choose|j: int|
                0 <= j < i && (#[trigger] sets[j]).start_index <= set.start_index - 1 <= sets[j].end_index;
            assert(grown[j] == sets[j]);
        }
    }
}

proof fn taken_sets_start_rightly(stream: StreamView, boundaries: Seq<u32>)
    requires
        ascending(boundaries),
        forall|b: u32| #[trigger] boundaries.contains(b) ==> stream.boundaries.contains(b),
    ensures
        stream.after_boundaries(boundaries).tail_min == stream.tail_min,
        stream.after_boundaries(boundaries).last_index == stream.last_index,
        forall|p: u32| #[trigger]
            stream.after_boundaries(boundaries).boundaries.contains(p) <==> open_before(
                stream,
                stream.taken(boundaries),
                stream.taken(boundaries).len() as int,
                p,
            ),
        stream.taken(boundaries).len() == 0 ==> stream.after_boundaries(boundaries).next_start
            == stream.next_start,
        stream.taken(boundaries).len() > 0 ==> stream.after_boundaries(boundaries).next_start == (
        if stream.taken(boundaries).last().end_index < u32::MAX {
            stream.taken(boundaries).last().end_index + 1
        } else {
            u32::MAX as int
        }),
        forall|i: int|
            0 <= i < stream.taken(boundaries).len() ==> #[trigger] starts_rightly(
                stream,
                stream.taken(boundaries),
                i,
            ),
    decreases boundaries.len(),
{
    if boundaries.len() > 0 {
        let fewer = boundaries.drop_last();
        let boundary = boundaries.last();
        assert(ascending(fewer));
        assert(boundaries[boundaries.len() - 1] == boundary);
        assert(boundaries.contains(boundary));
        assert forall|b: u32| #[trigger] fewer.contains(b) implies stream.boundaries.contains(b) by {
            let k = choose|k: int| 0 <= k < fewer.len() && fewer[k] == b;
            assert(boundaries[k] == b);
            assert(boundaries.contains(b));
        }
        taken_sets_start_rightly(stream, fewer);
        taken_sets_are_cut(stream, fewer);
        let before = stream.after_boundaries(fewer);
        let sets = stream.taken(fewer);
        if before.completes(boundary) {
            let start = before.start_for(boundary)->0;
            let set = before.dataset(start, boundary);
            let grown = sets.push(set);
            let n = sets.len() as int;
            assert forall|p: u32| open_before(stream, sets, n, p) == #[trigger] open_before(stream, grown, n, p) by {
                if ends_one(sets, n, p) {
                    let j = choose|j: int| 0 <= j < n && (#[trigger] sets[j]).end_index == p;
                    assert(grown[j].end_index == p);
                }
                if ends_one(grown, n, p) {
                    let j = choose|j: int| 0 <= j < n && (#[trigger] grown[j]).end_index == p;
                    assert(sets[j].end_index == p);
                }
            }
            assert forall|p: u32| #[trigger]
                stream.after_boundaries(boundaries).boundaries.contains(p) <==> open_before(stream, grown, n + 1, p) by {
                assert(before.boundaries.contains(p) <==> open_before(stream, grown, n, p));
                if ends_one(grown, n, p) {
                    let j = choose|j: int| 0 <= j < n && (#[trigger] grown[j]).end_index == p;
                    assert(ends_one(grown, n + 1, p));
                }
                if ends_one(grown, n + 1, p) && p != boundary {
                    let j = choose|j: int| 0 <= j < n + 1 && (#[trigger] grown[j]).end_index == p;
                    assert(j < n);
                    assert(ends_one(grown, n, p));
                }
                assert(grown[n].end_index == boundary);
                assert(ends_one(grown, n + 1, boundary));
            }
            run_starts_behind_a_gap(before.fragments, boundary);
            assert(starts_rightly(stream, grown, n)) by {
                if exists|p: u32| is_predecessor(before.boundaries, boundary, p) {
                    let p = choose|p: u32| is_predecessor(before.boundaries, boundary, p);
                    assert(before.boundaries.contains(p));
                    assert(open_before(stream, grown, n, p));
                    assert forall|q: u32| q < boundary && #[trigger] open_before(stream, grown, n, q) implies q < start by {
                        assert(before.boundaries.contains(q));
                    }
                } else {
                    assert forall|p: u32| p < boundary implies !#[trigger] open_before(stream, grown, n, p) by {
                        if open_before(stream, grown, n, p) {
                            assert(before.boundaries.contains(p));
                            predecessor_exists(before.boundaries, boundary, p);
                        }
                    }
                    if start > 0 && stream.fragments.contains_key((start - 1) as u32) {
                        let gap = (start - 1) as u32;
                        assert(!before.fragments.contains_key(gap));
                        assert(covered(sets, gap));
                        let j = choose|j: int|
                            0 <= j < sets.len() && (#[trigger] sets[j]).start_index <= gap <= sets[j].end_index;
                        assert(grown[j] == sets[j]);
                    }
                }
            }
            assert forall|i: int| 0 <= i < grown.len() implies #[trigger] starts_rightly(stream, grown, i) by {
                if i < n {
                    assert(starts_rightly(stream, sets, i));
                    starts_rightly_among_more(stream, sets, set, i);
                }
            }
            assert(grown.last() == set);
        }
    }
}

/// A data set never starts in the middle. Each one that comes out of a slot ends at a known boundary.
/// If a boundary below is still open, the data set starts right behind the greatest of those. If none
/// is, it starts with the first shred of the slot, or right behind a shred that is not there, and
/// then it has as many shreds as a data set without a known start must have. The boundaries at which
/// data sets ended are settled, and all others stay open.
pub proof fn sets_start_rightly(stream: StreamView)
    requires
        stream.boundaries.finite(),
    ensures
        forall|i: int|
            0 <= i < stream.drained().len() ==> #[trigger] starts_rightly(stream, stream.drained(), i),
        forall|p: u32| #[trigger]
            stream.after_drain().boundaries.contains(p) <==> stream.boundaries.contains(p) && forall|i: int|
                0 <= i < stream.drained().len() ==> (#[trigger] stream.drained()[i]).end_index != p,
        stream.drained().len() == 0 ==> stream.after_drain().next_start == stream.next_start,
        stream.drained().len() > 0 && stream.drained().last().end_index < u32::MAX
            ==> stream.after_drain().next_start == stream.drained().last().end_index + 1,
        stream.after_drain().last_index == stream.last_index,
        stream.after_drain().tail_min == stream.tail_min,
{
    let list = listed(stream.boundaries);
    finite_set_is_listed(stream.boundaries);
    assert forall|b: u32| #[trigger] list.contains(b) implies stream.boundaries.contains(b) by {
        assert(list.to_set().contains(b));
    }
    taken_sets_start_rightly(stream, list);
    let sets = stream.drained();
    assert forall|p: u32| #[trigger]
        stream.after_drain().boundaries.contains(p) <==> stream.boundaries.contains(p) && forall|i: int|
            0 <= i < sets.len() ==> (#[trigger] sets[i]).end_index != p by {
        assert(stream.after_boundaries(list).boundaries.contains(p) <==> open_before(
            stream,
            sets,
            sets.len() as int,
            p,
        ));
    }
}

/// A boundary that stays open when the complete data sets are taken out lacks something. Some shred
/// behind the greatest open boundary below it, up to itself, is not there; or, with no open boundary
/// below, its own shred is not there, or the shreds that reach it neither start the slot nor are
/// enough.
pub proof fn open_boundaries_lack_something(stream: StreamView, boundary: u32)
    requires
        stream.boundaries.finite(),
        stream.after_drain().boundaries.contains(boundary),
    ensures
        ({
            let left = stream.after_drain();
            &&& forall|p: u32|
                p < boundary && #[trigger] left.boundaries.contains(p) && (forall|q: u32|
                    q < boundary && #[trigger] left.boundaries.contains(q) ==> q <= p) ==> exists|x: u32|
                    p < x <= boundary && !#[trigger] left.fragments.contains_key(x)
            &&& (forall|p: u32| #[trigger] left.boundaries.contains(p) ==> p >= boundary)
                ==> !left.fragments.contains_key(boundary) || exists|start: u32|
                0 < start <= boundary && boundary - start + 1 < stream.tail_min
                    && !#[trigger] left.fragments.contains_key((start - 1) as u32) && forall|x: u32|
                    start <= x <= boundary ==> #[trigger] left.fragments.contains_key(x)
        }),
{
    let list = listed(stream.boundaries);
    finite_set_is_listed(stream.boundaries);
    taken_boundaries_are_settled(stream, list);
    sets_start_rightly(stream);
    let rest = stream.after_boundaries(list);
    let left = stream.after_drain();
    assert(stream.boundaries.contains(boundary));
    assert(list.to_set().contains(boundary));
    assert(!rest.completes(boundary));
    assert(left.start_for(boundary) == rest.start_for(boundary));
    assert forall|p: u32|
        p < boundary && #[trigger] left.boundaries.contains(p) && (forall|q: u32|
            q < boundary && #[trigger] left.boundaries.contains(q) ==> q <= p) implies exists|x: u32|
        p < x <= boundary && !#[trigger] left.fragments.contains_key(x) by {
        assert(is_predecessor(rest.boundaries, boundary, p));
        let chosen = choose|c: u32| is_predecessor(rest.boundaries, boundary, c);
        assert(rest.boundaries.contains(chosen));
        assert(chosen == p);
        assert(!has_all(rest.fragments, (p + 1) as u32, boundary));
    }
    if forall|p: u32| #[trigger] left.boundaries.contains(p) ==> p >= boundary {
        assert(!exists|p: u32| is_predecessor(rest.boundaries, boundary, p)) by {
            if exists|p: u32| is_predecessor(rest.boundaries, boundary, p) {
                let p = choose|p: u32| is_predecessor(rest.boundaries, boundary, p);
                assert(left.boundaries.contains(p));
            }
        }
        run_starts_behind_a_gap(rest.fragments, boundary);
        let start = run_start(rest.fragments, boundary);
        if left.fragments.contains_key(boundary) {
            assert(has_all(rest.fragments, start, boundary));
            assert(!left.fragments.contains_key((start - 1) as u32));
        }
    }
}

/// What storing a shred changes. Its index is held from then on, and ends a data set from then on if
/// it is said to end one or the slot; no other index is touched. The first payload and time stay;
/// being the last of the slot is noted even later, with the later of the two times. The last index of
/// the slot is the highest one that was ever said to be it.
pub proof fn stored_shred_is_noted(
    stream: StreamView,
    index: u32,
    data_complete: bool,
    last_in_slot: bool,
    payload: Seq<u8>,
    observed_at: Instant,
)
    ensures
        ({
            let after = stream.with_shred(index, data_complete, last_in_slot, payload, observed_at);
            let known = stream.fragments.contains_key(index);
            &&& after.slot == stream.slot
            &&& after.tail_min == stream.tail_min
            &&& after.next_start == stream.next_start
            &&& after.finished == stream.finished
            &&& forall|b: u32|
                b != index ==> (#[trigger] after.boundaries.contains(b) <==> stream.boundaries.contains(b))
            &&& after.boundaries.contains(index) <==> stream.boundaries.contains(index) || data_complete
                || last_in_slot
            &&& forall|x: u32|
                x != index ==> (#[trigger] after.fragments.contains_key(x) <==> stream.fragments.contains_key(x))
            &&& forall|x: u32| x != index ==> #[trigger] after.fragments[x] == stream.fragments[x]
            &&& after.fragments.contains_key(index)
            &&& !known ==> after.fragments[index].bytes == payload && after.fragments[index].observed_at
                == observed_at
            &&& known ==> after.fragments[index].bytes == stream.fragments[index].bytes
            &&& after.fragments[index].last_in_slot == (last_in_slot || (known
                && stream.fragments[index].last_in_slot))
            &&& known && !last_in_slot ==> after.fragments[index].observed_at
                == stream.fragments[index].observed_at
            &&& known && last_in_slot ==> {
                let at = after.fragments[index].observed_at;
                &&& at == observed_at || at == stream.fragments[index].observed_at
                &&& at.nanos() >= observed_at.nanos()
                &&& at.nanos() >= stream.fragments[index].observed_at.nanos()
            }
            &&& !last_in_slot ==> after.last_index == stream.last_index
            &&& last_in_slot ==> {
                &&& after.last_index is Some
                &&& after.last_index->0 >= index
                &&& stream.last_index matches Some(last) ==> after.last_index->0 >= last
                &&& after.last_index->0 == index || after.last_index == stream.last_index
            }
        }),
{
}

/// Whether a data set says of its shreds what holds of them: it ends the slot if one of them does,
/// and its times are the earliest and the latest of theirs.
pub open spec fn tells_of_its_shreds(fragments: Map<u32, FragmentView>, set: DataSetView) -> bool {
    &&& set.last_in_slot <==> exists|x: u32|
        set.start_index <= x <= set.end_index && (#[trigger] fragments[x]).last_in_slot
    &&& forall|x: u32|
        set.start_index <= x <= set.end_index ==> set.first_observed.nanos() <= (
        #[trigger] fragments[x]).observed_at.nanos() <= set.last_observed.nanos()
    &&& exists|x: u32|
        set.start_index <= x <= set.end_index && (#[trigger] fragments[x]).observed_at == set.first_observed
    &&& exists|x: u32|
        set.start_index <= x <= set.end_index && (#[trigger] fragments[x]).observed_at == set.last_observed
}

proof fn observed_times_are_bounds(fragments: Map<u32, FragmentView>, start: u32, end: u32)
    requires
        start <= end,
    ensures
        forall|x: u32|
            start <= x <= end ==> first_observed(fragments, start, end).nanos() <= (
            #[trigger] fragments[x]).observed_at.nanos() <= last_observed(fragments, start, end).nanos(),
        exists|x: u32|
            start <= x <= end && (#[trigger] fragments[x]).observed_at == first_observed(fragments, start, end),
        exists|x: u32|
            start <= x <= end && (#[trigger] fragments[x]).observed_at == last_observed(fragments, start, end),
    decreases end - start,
{
    if start < end {
        let less = (end - 1) as u32;
        observed_times_are_bounds(fragments, start, less);
        let a = choose|x: u32|
            start <= x <= less && (#[trigger] fragments[x]).observed_at == first_observed(fragments, start, less);
        let b = choose|x: u32|
            start <= x <= less && (#[trigger] fragments[x]).observed_at == last_observed(fragments, start, less);
        let first = first_observed(fragments, start, end);
        let last = last_observed(fragments, start, end);
        assert(fragments[a].observed_at == first || fragments[end].observed_at == first);
        assert(fragments[b].observed_at == last || fragments[end].observed_at == last);
        assert forall|x: u32| start <= x <= end implies first.nanos() <= (
        #[trigger] fragments[x]).observed_at.nanos() <= last.nanos() by {
            if x < end {
                assert(x <= less);
            }
        }
    } else {
        assert(fragments[start].observed_at == first_observed(fragments, start, end));
        assert(fragments[start].observed_at == last_observed(fragments, start, end));
    }
}

proof fn taken_sets_tell_of_their_shreds(stream: StreamView, boundaries: Seq<u32>)
    requires
        ascending(boundaries),
    ensures
        forall|i: int|
            0 <= i < stream.taken(boundaries).len() ==> tells_of_its_shreds(
                stream.fragments,
                #[trigger] stream.taken(boundaries)[i],
            ),
    decreases boundaries.len(),
{
    if boundaries.len() > 0 {
        let fewer = boundaries.drop_last();
        let boundary = boundaries.last();
        assert(ascending(fewer));
        taken_sets_tell_of_their_shreds(stream, fewer);
        taken_sets_are_cut(stream, fewer);
        let before = stream.after_boundaries(fewer);
        let sets = stream.taken(fewer);
        if before.completes(boundary) {
            start_is_not_behind(before, boundary);
            let start = before.start_for(boundary)->0;
            let set = before.dataset(start, boundary);
            observed_times_are_bounds(before.fragments, start, boundary);
            assert forall|x: u32| start <= x <= boundary implies #[trigger] before.fragments[x] == stream.fragments[x] by {
                assert(before.fragments.contains_key(x));
            }
            assert(tells_of_its_shreds(stream.fragments, set)) by {
                let a = choose|x: u32|
                    start <= x <= boundary && (#[trigger] before.fragments[x]).observed_at == set.first_observed;
                let b = choose|x: u32|
                    start <= x <= boundary && (#[trigger] before.fragments[x]).observed_at == set.last_observed;
                assert(stream.fragments[a].observed_at == set.first_observed);
                assert(stream.fragments[b].observed_at == set.last_observed);
                if set.last_in_slot {
                    let c = choose|x: u32|
                        start <= x <= boundary && (#[trigger] before.fragments[x]).last_in_slot;
                    assert(stream.fragments[c].last_in_slot);
                }
                if exists|x: u32| start <= x <= boundary && (#[trigger] stream.fragments[x]).last_in_slot {
                    let c = choose|x: u32|
                        start <= x <= boundary && (#[trigger] stream.fragments[x]).last_in_slot;
                    assert(before.fragments[c].last_in_slot);
                }
                assert forall|x: u32| start <= x <= boundary implies set.first_observed.nanos() <= (
                #[trigger] stream.fragments[x]).observed_at.nanos() <= set.last_observed.nanos() by {
                    assert(before.fragments[x] == stream.fragments[x]);
                }
            }
            let grown = sets.push(set);
            assert forall|i: int| 0 <= i < grown.len() implies tells_of_its_shreds(
                stream.fragments,
                #[trigger] grown[i],
            ) by {
                if i < sets.len() {
                    assert(grown[i] == sets[i]);
                }
            }
        }
    }
}

/// A data set that comes out ends the slot exactly if one of its shreds does, and its two times are
/// the earliest and the latest at which its shreds were observed. A slot is finished from then on if
/// its last index is known, no data set that ends there is open, and no shred is left.
pub proof fn drained_sets_tell_of_their_shreds(stream: StreamView)
    requires
        stream.boundaries.finite(),
    ensures
        forall|i: int|
            0 <= i < stream.drained().len() ==> tells_of_its_shreds(
                stream.fragments,
                #[trigger] stream.drained()[i],
            ),
        stream.after_drain().finished <==> stream.finished || {
            &&& stream.last_index is Some
            &&& !stream.after_drain().boundaries.contains(stream.last_index->0)
            &&& forall|x: u32| !#[trigger] stream.after_drain().fragments.contains_key(x)
        },
{
    let list = listed(stream.boundaries);
    finite_set_is_listed(stream.boundaries);
    taken_sets_tell_of_their_shreds(stream, list);
    taken_sets_carry_the_slot(stream, list);
    sets_start_rightly(stream);
    let left = stream.after_drain();
    if forall|x: u32| !#[trigger] left.fragments.contains_key(x) {
        assert(left.fragments.dom() =~= Set::<u32>::empty());
        assert(left.fragments =~= Map::<u32, FragmentView>::empty());
    }
}

/// Open data sets start exactly at the shreds that are held and start the slot, or stand behind the
/// data set completed last, or behind an index that ends a data set.
pub proof fn open_sets_start_at_anchors(stream: StreamView, start: u32)
    ensures
        stream.open_starts().contains(start) <==> stream.fragments.contains_key(start) && (start == 0
            || start == stream.next_start || (start > 0 && stream.boundaries.contains((start - 1) as u32))),
{
    if start > 0 && stream.boundaries.contains((start - 1) as u32) {
        assert((start - 1) as u32 + 1 == start);
    }
}

/// An open data set runs from its start to the last shred before the first one that is missing, with
/// the payload and the time of each, in order.
pub proof fn open_set_is_a_run(stream: StreamView, start: u32)
    requires
        stream.fragments.contains_key(start),
    ensures
        ({
            let run = stream.run_from(start);
            &&& run.slot == stream.slot
            &&& run.start_index == start
            &&& run.end_index >= start
            &&& run.end_index < u32::MAX ==> !stream.fragments.contains_key((run.end_index + 1) as u32)
            &&& run.fragments.len() == run.end_index - start + 1
            &&& run.observed_ats.len() == run.fragments.len()
            &&& forall|x: u32|
                start <= x <= run.end_index ==> #[trigger] stream.fragments.contains_key(x)
                    && run.fragments[x - start] == stream.fragments[x].bytes && run.observed_ats[x - start]
                    == stream.fragments[x].observed_at
        }),
{
    run_is_longest(stream.fragments, start);
}

/// The open data sets are listed by ascending start, each start once, and none is left out.
pub proof fn open_sets_are_listed(stream: StreamView)
    requires
        stream.fragments.dom().finite(),
    ensures
        forall|i: int, j: int|
            0 <= i < j < stream.open_runs().len() ==> (#[trigger] stream.open_runs()[i]).start_index < (
            #[trigger] stream.open_runs()[j]).start_index,
        forall|i: int|
            0 <= i < stream.open_runs().len() ==> {
                &&& stream.fragments.contains_key((#[trigger] stream.open_runs()[i]).start_index)
                &&& stream.open_runs()[i] == stream.run_from(stream.open_runs()[i].start_index)
            },
        forall|start: u32| #[trigger]
            stream.fragments.contains_key(start) && (start == 0 || start == stream.next_start
                || stream.boundaries.contains((start - 1) as u32)) ==> exists|i: int|
                0 <= i < stream.open_runs().len() && (#[trigger] stream.open_runs()[i]).start_index == start,
{
    let starts = stream.open_starts();
    assert(starts.subset_of(stream.fragments.dom())) by {
        assert forall|start: u32| #[trigger] starts.contains(start) implies stream.fragments.contains_key(start) by {
            open_sets_start_at_anchors(stream, start);
        }
    }
    vstd::set_lib::lemma_set_subset_finite(stream.fragments.dom(), starts);
    finite_set_is_listed(starts);
    let list = listed(starts);
    let runs = stream.open_runs();
    assert forall|i: int| 0 <= i < runs.len() implies {
        &&& stream.fragments.contains_key((#[trigger] runs[i]).start_index)
        &&& runs[i] == stream.run_from(runs[i].start_index)
    } by {
        assert(list.to_set().contains(list[i]));
        open_sets_start_at_anchors(stream, list[i]);
    }
    assert forall|start: u32| #[trigger]
        stream.fragments.contains_key(start) && (start == 0 || start == stream.next_start
            || stream.boundaries.contains((start - 1) as u32)) implies exists|i: int|
        0 <= i < runs.len() && (#[trigger] runs[i]).start_index == start by {
        open_sets_start_at_anchors(stream, start);
        assert(list.to_set().contains(start));
        let i = choose|i: int| 0 <= i < list.len() && list[i] == start;
        assert(runs[i].start_index == start);
    }
}

} // verus!
