use sof::reassembly::fragment::{PayloadFragmentBatch, SharedPayloadFragment};
use sof::reassembly::index_set::IndexSet;
use sof::reassembly::inline::{
    InlineContiguousDataSetScratch, InlineContiguousDataSetSink, InlineDataReassembler,
};
use sof::time::{Duration, Instant};

#[derive(Default)]
struct RecordingSink {
    payload: Vec<u8>,
    fragment_count: usize,
    append_calls: usize,
    reset_calls: usize,
}

impl InlineContiguousDataSetSink for RecordingSink {
    fn existing_fragments(&self) -> usize {
        self.fragment_count
    }

    fn payload_len(&self) -> usize {
        self.payload.len()
    }

    fn reset_inline_contiguous_dataset(&mut self) {
        self.payload.clear();
        self.fragment_count = 0;
        self.reset_calls = self.reset_calls.saturating_add(1);
    }

    fn reserve_inline_contiguous_dataset(
        &mut self,
        additional_fragments: usize,
        additional_bytes: usize,
    ) {
        self.payload.reserve(additional_bytes);
        let _ = additional_fragments;
    }

    fn append_inline_contiguous_fragment(
        &mut self,
        fragment: &SharedPayloadFragment,
        _observed_at: Instant,
    ) {
        self.payload.extend_from_slice(fragment.as_slice());
        self.fragment_count = self.fragment_count.saturating_add(1);
        self.append_calls = self.append_calls.saturating_add(1);
    }
}

#[test]
fn exposes_late_prefix_and_boundary_anchored_tail() {
    let mut reassembler = InlineDataReassembler::new(16);
    let first = Instant::now();
    let Some(second) = first.checked_add(Duration::from_millis(1)) else {
        panic!("expected later instant");
    };
    let Some(third) = second.checked_add(Duration::from_millis(1)) else {
        panic!("expected later instant");
    };
    let Some(fourth) = third.checked_add(Duration::from_millis(1)) else {
        panic!("expected later instant");
    };

    let _ = reassembler.observe_data_shred_meta_at(
        9,
        2,
        0,
        false,
        false,
        SharedPayloadFragment::owned(vec![2]),
        first,
    );
    let _ = reassembler.observe_data_shred_meta_at(
        9,
        3,
        0,
        true,
        false,
        SharedPayloadFragment::owned(vec![3]),
        second,
    );
    let _ = reassembler.observe_data_shred_meta_at(
        9,
        4,
        4,
        false,
        false,
        SharedPayloadFragment::owned(vec![4]),
        third,
    );
    let _ = reassembler.observe_data_shred_meta_at(
        9,
        0,
        0,
        false,
        false,
        SharedPayloadFragment::owned(vec![0]),
        fourth,
    );

    let inline = reassembler.inline_contiguous_datasets(9);
    assert_eq!(inline.len(), 2);
    assert_eq!(inline[0].start_index, 0);
    assert_eq!(inline[0].end_index, 0);
    assert_eq!(
        inline[0].payload_fragments,
        PayloadFragmentBatch::from_owned_fragments(vec![vec![0]])
    );
    assert_eq!(inline[1].start_index, 4);
    assert_eq!(inline[1].end_index, 4);
    assert_eq!(
        inline[1].payload_fragments,
        PayloadFragmentBatch::from_owned_fragments(vec![vec![4]])
    );
}

#[test]
fn retire_range_preserves_following_boundary_anchor() {
    let mut reassembler = InlineDataReassembler::new(16);
    let now = Instant::now();
    let _ = reassembler.observe_data_shred_meta_at(
        11,
        0,
        0,
        false,
        false,
        SharedPayloadFragment::owned(vec![0]),
        now,
    );
    let _ = reassembler.observe_data_shred_meta_at(
        11,
        1,
        0,
        true,
        false,
        SharedPayloadFragment::owned(vec![1]),
        now,
    );
    let _ = reassembler.observe_data_shred_meta_at(
        11,
        2,
        0,
        false,
        false,
        SharedPayloadFragment::owned(vec![2]),
        now,
    );

    reassembler.retire_range(11, 0, 1);

    let inline = reassembler.inline_contiguous_datasets(11);
    assert_eq!(inline.len(), 1);
    assert_eq!(inline[0].start_index, 2);
    assert_eq!(inline[0].end_index, 2);
}

#[test]
fn fec_set_becomes_ready_after_code_and_all_data_arrive() {
    let mut reassembler = InlineDataReassembler::new(16);
    let now = Instant::now();
    assert!(
        !reassembler
            .observe_code_shred(13, 8, 3)
            .fec_set_became_ready
    );
    assert!(
        !reassembler
            .observe_data_shred_meta_at(
                13,
                8,
                8,
                false,
                false,
                SharedPayloadFragment::owned(vec![8]),
                now,
            )
            .fec_set_became_ready
    );
    assert!(
        !reassembler
            .observe_data_shred_meta_at(
                13,
                10,
                8,
                false,
                false,
                SharedPayloadFragment::owned(vec![10]),
                now,
            )
            .fec_set_became_ready
    );
    assert!(
        reassembler
            .observe_data_shred_meta_at(
                13,
                9,
                8,
                false,
                false,
                SharedPayloadFragment::owned(vec![9]),
                now,
            )
            .fec_set_became_ready
    );
}

#[test]
fn boundary_marks_fec_ready_without_code_metadata() {
    let mut reassembler = InlineDataReassembler::new(16);
    let now = Instant::now();
    assert!(
        !reassembler
            .observe_data_shred_meta_at(
                15,
                4,
                4,
                false,
                false,
                SharedPayloadFragment::owned(vec![4]),
                now,
            )
            .fec_set_became_ready
    );
    assert!(
        reassembler
            .observe_data_shred_meta_at(
                15,
                5,
                4,
                true,
                false,
                SharedPayloadFragment::owned(vec![5]),
                now,
            )
            .fec_set_became_ready
    );
}

#[test]
fn sync_inline_contiguous_dataset_appends_only_new_suffix() {
    let mut reassembler = InlineDataReassembler::new(16);
    let now = Instant::now();
    let _ = reassembler.observe_data_shred_meta_at(
        17,
        0,
        0,
        false,
        false,
        SharedPayloadFragment::owned(vec![0, 1]),
        now,
    );
    let _ = reassembler.observe_data_shred_meta_at(
        17,
        1,
        0,
        false,
        false,
        SharedPayloadFragment::owned(vec![2, 3]),
        now,
    );

    let Some(stream) = reassembler.slots.get(&17) else {
        panic!("slot stream present");
    };
    let mut sink = RecordingSink::default();
    let Some(first) = stream.sync_inline_contiguous_dataset(0, &mut sink) else {
        panic!("first sync should exist");
    };
    assert_eq!(first.fragment_count, 2);
    assert_eq!(sink.payload, vec![0, 1, 2, 3]);
    assert_eq!(sink.append_calls, 2);
    assert_eq!(sink.reset_calls, 0);

    let _ = reassembler.observe_data_shred_meta_at(
        17,
        2,
        0,
        true,
        false,
        SharedPayloadFragment::owned(vec![4, 5]),
        now,
    );
    let Some(updated_stream) = reassembler.slots.get(&17) else {
        panic!("slot stream present");
    };
    let Some(second) = updated_stream.sync_inline_contiguous_dataset(0, &mut sink) else {
        panic!("second sync should exist");
    };
    assert_eq!(second.fragment_count, 3);
    assert_eq!(sink.payload, vec![0, 1, 2, 3, 4, 5]);
    assert_eq!(sink.append_calls, 3);
    assert_eq!(sink.reset_calls, 0);
}

fn observe(reassembler: &mut InlineDataReassembler, slot: u64, index: u32, fec: u32, complete: bool, last: bool) -> bool {
    reassembler
        .observe_data_shred_meta_at(
            slot,
            index,
            fec,
            complete,
            last,
            SharedPayloadFragment::owned(vec![index as u8, 0]),
            Instant::from_nanos(u64::from(index)),
        )
        .fec_set_became_ready
}

#[test]
fn filled_scratch_holds_the_same_runs() {
    let mut reassembler = InlineDataReassembler::new(16);
    for index in [0, 1, 3, 4, 7] {
        let _ = observe(&mut reassembler, 5, index, 0, index == 1 || index == 3, false);
    }
    let runs = reassembler.inline_contiguous_datasets(5);
    let mut scratch = vec![InlineContiguousDataSetScratch::default()];
    reassembler.fill_inline_contiguous_datasets(5, &mut scratch);
    let mut starts = vec![99];
    reassembler.fill_inline_contiguous_dataset_starts(5, &mut starts);
    assert_eq!(starts, vec![0, 4]);
    assert_eq!(runs.len(), 2);
    assert_eq!(scratch.len(), 2);
    for (run, filled) in runs.iter().zip(scratch.iter()) {
        assert_eq!(run.slot, filled.slot);
        assert_eq!(run.start_index, filled.start_index);
        assert_eq!(run.end_index, filled.end_index);
        assert_eq!(run.fragment_observed_ats, filled.fragment_observed_ats);
        assert_eq!(run.payload_fragments.total_len(), filled.total_payload_len);
    }
    assert_eq!(scratch[0].total_payload_len, 4);
    reassembler.fill_inline_contiguous_datasets(6, &mut scratch);
    reassembler.fill_inline_contiguous_dataset_starts(6, &mut starts);
    assert!(scratch.is_empty());
    assert!(starts.is_empty());
}

#[test]
fn ready_set_is_reported_once() {
    let mut reassembler = InlineDataReassembler::new(16);
    assert!(observe(&mut reassembler, 5, 4, 4, true, false));
    assert!(!observe(&mut reassembler, 5, 4, 4, true, false));
    assert!(!reassembler.observe_code_shred(5, 4, 1).fec_set_became_ready);
    reassembler.retire_range(5, 4, 4);
    assert!(observe(&mut reassembler, 5, 4, 4, true, false));
}

#[test]
fn code_count_past_the_last_index_never_readies() {
    let mut reassembler = InlineDataReassembler::new(16);
    assert!(!reassembler.observe_code_shred(5, u32::MAX, 2).fec_set_became_ready);
    assert!(!observe(&mut reassembler, 5, u32::MAX, u32::MAX, false, false));
    assert!(!reassembler.observe_code_shred(5, u32::MAX, 0).fec_set_became_ready);
    assert!(reassembler.observe_code_shred(5, u32::MAX, 1).fec_set_became_ready);
}

#[test]
fn retired_slot_is_dropped_when_its_end_is_known() {
    let mut reassembler = InlineDataReassembler::new(16);
    let _ = observe(&mut reassembler, 5, 0, 0, false, false);
    let _ = observe(&mut reassembler, 5, 1, 0, false, true);
    reassembler.retire_range(5, 0, 0);
    assert!(reassembler.slots.contains_key(&5));
    reassembler.retire_range(5, 1, 1);
    assert!(!reassembler.slots.contains_key(&5));
}

#[test]
fn outdated_sink_is_reset() {
    let mut reassembler = InlineDataReassembler::new(16);
    for index in 0..3 {
        let _ = observe(&mut reassembler, 5, index, 0, false, false);
    }
    let mut sink = RecordingSink::default();
    let first = reassembler.sync_inline_contiguous_dataset(5, 0, &mut sink).expect("run");
    assert_eq!(first.end_index, 2);
    assert_eq!(first.total_payload_len, 6);
    reassembler.retire_range(5, 2, 2);
    let second = reassembler.sync_inline_contiguous_dataset(5, 0, &mut sink).expect("run");
    assert_eq!(second.fragment_count, 2);
    assert_eq!(second.end_index, 1);
    assert_eq!(sink.reset_calls, 1);
    assert_eq!(sink.payload, vec![0, 0, 1, 0]);
    assert!(reassembler.sync_inline_contiguous_dataset(6, 0, &mut sink).is_none());
    assert_eq!(sink.fragment_count, 2);
}

#[test]
fn inline_slots_stay_within_their_number() {
    let mut reassembler = InlineDataReassembler::new(2);
    for slot in [7, 5, 6] {
        let _ = observe(&mut reassembler, slot, 0, 0, false, false);
    }
    assert_eq!(reassembler.slots.len(), 2);
    assert!(!reassembler.slots.contains_key(&5));
    reassembler.purge_older_than(7);
    assert_eq!(reassembler.slots.len(), 1);
}

#[test]
fn index_set_is_ordered() {
    let mut set = IndexSet::new();
    for index in [5, 1, 9, 5, 3] {
        set.insert(index);
    }
    assert_eq!(set.indices(), vec![1, 3, 5, 9]);
    assert_eq!(set.predecessor(5), Some(3));
    assert_eq!(set.predecessor(1), None);
    set.remove(3);
    set.remove(4);
    assert!(!set.contains(3));
    assert_eq!(set.predecessor(9), Some(5));
    set.remove_range(2, 8);
    assert_eq!(set.indices(), vec![1, 9]);
    assert!(!set.is_empty());
}

#[test]
fn fragments_share_and_count_their_bytes() {
    let bytes = std::sync::Arc::from(vec![1_u8, 2, 3, 4]);
    let part = SharedPayloadFragment::borrowed(bytes, 1, 2).expect("inside");
    assert_eq!(part.as_slice(), &[2, 3]);
    assert_eq!(part.len(), 2);
    assert!(!part.is_empty());
    let short = std::sync::Arc::from(vec![1_u8]);
    assert!(SharedPayloadFragment::borrowed(short, 1, 1).is_none());
    let batch = PayloadFragmentBatch::from_owned_fragments(vec![vec![1, 2], vec![], vec![3]]);
    assert_eq!(batch.len(), 3);
    assert!(!batch.is_empty());
    assert_eq!(batch.total_len(), 3);
    assert_eq!(batch.total_len_from(1), Some(1));
    assert_eq!(batch.total_len_from(3), None);
    assert_eq!(batch.fragment_len(0), Some(2));
    assert_eq!(batch.fragment_len(3), None);
    assert_eq!(batch.slice_from(1).map(|rest| rest.len()), Some(2));
    assert!(batch.slice_from(4).is_none());
    assert!(batch.single_fragment_from(1).is_none());
    assert_eq!(batch.single_fragment_from(2).map(|one| one.as_slice().to_vec()), Some(vec![3]));
    assert!(PayloadFragmentBatch::default().is_empty());
}

#[test]
fn open_runs_are_the_same_in_either_order() {
    let mut forwards = InlineDataReassembler::new(16);
    let mut backwards = InlineDataReassembler::new(16);
    for index in [0_u32, 1, 2] {
        let _ = observe(&mut forwards, 5, index, 0, false, false);
    }
    for index in [2_u32, 1, 0] {
        let _ = observe(&mut backwards, 5, index, 0, false, false);
    }
    let one = forwards.inline_contiguous_datasets(5);
    let two = backwards.inline_contiguous_datasets(5);
    assert_eq!(one.len(), 1);
    assert_eq!(two.len(), 1);
    assert_eq!((one[0].start_index, one[0].end_index), (0, 2));
    assert_eq!((two[0].start_index, two[0].end_index), (0, 2));
    assert_eq!(one[0].payload_fragments, two[0].payload_fragments);
}
