use sof::reassembly::dataset::{CompletedDataSet, DataSetReassembler};
use sof::reassembly::dataset::stream::SlotStream;
use sof::reassembly::fragment::{PayloadFragmentBatch, SharedPayloadFragment};
use sof::time::{Duration, Instant};

#[test]
fn completes_dataset_on_data_complete() {
    let mut reassembler = DataSetReassembler::new(16);
    let out0 = ingest(&mut reassembler, 7, 0, false, false, vec![0]);
    assert!(out0.is_empty());
    let out1 = ingest(&mut reassembler, 7, 1, true, false, vec![1]);
    assert_eq!(out1.len(), 1);
    assert_eq!(
        out1[0].payload_fragments,
        PayloadFragmentBatch::from_owned_fragments(vec![vec![0], vec![1]])
    );
    assert_eq!(out1[0].start_index, 0);
    assert_eq!(out1[0].end_index, 1);
}

#[test]
fn handles_out_of_order_fragments() {
    let mut reassembler = DataSetReassembler::new(16);
    let out0 = ingest(&mut reassembler, 9, 1, true, false, vec![1]);
    assert!(out0.is_empty());
    let out1 = ingest(&mut reassembler, 9, 0, false, false, vec![0]);
    assert_eq!(out1.len(), 1);
    assert_eq!(out1[0].start_index, 0);
    assert_eq!(out1[0].end_index, 1);
    assert_eq!(
        out1[0].payload_fragments,
        PayloadFragmentBatch::from_owned_fragments(vec![vec![0], vec![1]])
    );
}

#[test]
fn suppresses_single_shred_tail_without_anchor() {
    let mut reassembler = DataSetReassembler::new(16);
    let out = ingest(&mut reassembler, 10, 1, true, false, vec![1]);
    assert!(out.is_empty());
}

#[test]
fn reanchors_after_late_prefix_arrival() {
    let mut reassembler = DataSetReassembler::new(16);
    let _ = ingest(&mut reassembler, 11, 1, true, false, vec![1]);
    let out = ingest(&mut reassembler, 11, 0, false, false, vec![0]);
    assert_eq!(out.len(), 1);
    assert_eq!(out[0].start_index, 0);
    assert_eq!(out[0].end_index, 1);
    assert_eq!(
        out[0].payload_fragments,
        PayloadFragmentBatch::from_owned_fragments(vec![vec![0], vec![1]])
    );
}

#[test]
fn reanchors_on_consecutive_completed_boundaries() {
    let mut reassembler = DataSetReassembler::new(16);
    let out0 = ingest(&mut reassembler, 12, 2, false, false, vec![2]);
    assert!(out0.is_empty());
    let out1 = ingest(&mut reassembler, 12, 3, true, false, vec![3]);
    assert_eq!(out1.len(), 1);
    assert_eq!(out1[0].start_index, 2);
    assert_eq!(out1[0].end_index, 3);
    assert_eq!(
        out1[0].payload_fragments,
        PayloadFragmentBatch::from_owned_fragments(vec![vec![2], vec![3]])
    );

    let out2 = ingest(&mut reassembler, 12, 0, false, false, vec![0]);
    assert!(out2.is_empty());
    let out3 = ingest(&mut reassembler, 12, 1, true, false, vec![1]);
    assert_eq!(out3.len(), 1);
    assert_eq!(out3[0].start_index, 0);
    assert_eq!(out3[0].end_index, 1);
    assert_eq!(
        out3[0].payload_fragments,
        PayloadFragmentBatch::from_owned_fragments(vec![vec![0], vec![1]])
    );
}

#[test]
fn emits_tail_without_known_boundary_anchor() {
    let mut reassembler = DataSetReassembler::new(16);
    let out0 = ingest(&mut reassembler, 15, 5, false, false, vec![5]);
    assert!(out0.is_empty());
    let out1 = ingest(&mut reassembler, 15, 6, true, false, vec![6]);
    assert_eq!(out1.len(), 1);
    assert_eq!(out1[0].start_index, 5);
    assert_eq!(out1[0].end_index, 6);
    assert_eq!(
        out1[0].payload_fragments,
        PayloadFragmentBatch::from_owned_fragments(vec![vec![5], vec![6]])
    );
}

#[test]
fn emits_following_dataset_with_missing_prefix_dataset() {
    let mut reassembler = DataSetReassembler::new(16);
    let out0 = ingest(&mut reassembler, 30, 1, true, false, vec![1]);
    assert!(out0.is_empty());
    let out1 = ingest(&mut reassembler, 30, 2, false, false, vec![2]);
    assert!(out1.is_empty());
    let out2 = ingest(&mut reassembler, 30, 3, true, false, vec![3]);
    assert_eq!(out2.len(), 1);
    assert_eq!(out2[0].start_index, 2);
    assert_eq!(out2[0].end_index, 3);
    assert_eq!(
        out2[0].payload_fragments,
        PayloadFragmentBatch::from_owned_fragments(vec![vec![2], vec![3]])
    );
}

#[test]
fn emits_missing_prefix_dataset_if_gap_arrives_later() {
    let mut reassembler = DataSetReassembler::new(16);
    let _ = ingest(&mut reassembler, 31, 1, true, false, vec![1]);
    let _ = ingest(&mut reassembler, 31, 2, false, false, vec![2]);
    let _ = ingest(&mut reassembler, 31, 3, true, false, vec![3]);

    let out = ingest(&mut reassembler, 31, 0, false, false, vec![0]);
    assert_eq!(out.len(), 1);
    assert_eq!(out[0].start_index, 0);
    assert_eq!(out[0].end_index, 1);
    assert_eq!(
        out[0].payload_fragments,
        PayloadFragmentBatch::from_owned_fragments(vec![vec![0], vec![1]])
    );
}

#[test]
fn late_prefix_after_last_boundary_still_finishes_slot() {
    let mut reassembler = DataSetReassembler::new(16);
    let _ = ingest(&mut reassembler, 40, 1, true, false, vec![1]);
    let tail_out = ingest(&mut reassembler, 40, 2, false, true, vec![2]);
    assert_eq!(tail_out.len(), 1);
    assert_eq!(tail_out[0].start_index, 2);
    assert_eq!(tail_out[0].end_index, 2);
    assert_eq!(reassembler.tracked_slots(), 1);

    let prefix_out = ingest(&mut reassembler, 40, 0, false, false, vec![0]);
    assert_eq!(prefix_out.len(), 1);
    assert_eq!(prefix_out[0].start_index, 0);
    assert_eq!(prefix_out[0].end_index, 1);
    assert_eq!(reassembler.tracked_slots(), 0);
}

#[test]
fn completed_dataset_tracks_first_and_last_shred_observed_times() {
    let mut reassembler = DataSetReassembler::new(16);
    let first = Instant::now();
    let Some(second) = first.checked_add(Duration::from_millis(2)) else {
        panic!("expected later instant");
    };
    let out0 = reassembler.ingest_data_shred_meta_at(
        50,
        0,
        false,
        false,
        SharedPayloadFragment::owned(vec![0]),
        first,
    );
    assert!(out0.is_empty());
    let out1 = reassembler.ingest_data_shred_meta_at(
        50,
        1,
        true,
        false,
        SharedPayloadFragment::owned(vec![1]),
        second,
    );
    assert_eq!(out1.len(), 1);
    assert_eq!(out1[0].first_shred_observed_at, first);
    assert_eq!(out1[0].last_shred_observed_at, second);
}

#[test]
fn inline_contiguous_dataset_tracks_open_prefix_after_completed_boundary() {
    let mut reassembler = DataSetReassembler::new(16);
    let first = Instant::now();
    let Some(second) = first.checked_add(Duration::from_millis(1)) else {
        panic!("expected later instant");
    };
    let Some(third) = second.checked_add(Duration::from_millis(1)) else {
        panic!("expected later instant");
    };
    let Some(fourth) = third.checked_add(Duration::from_millis(1)) else {
        panic!("expected later instant");
    };

    let out0 = reassembler.ingest_data_shred_meta_at(
        60,
        0,
        false,
        false,
        SharedPayloadFragment::owned(vec![0]),
        first,
    );
    assert!(out0.is_empty());
    let out1 = reassembler.ingest_data_shred_meta_at(
        60,
        1,
        true,
        false,
        SharedPayloadFragment::owned(vec![1]),
        second,
    );
    assert_eq!(out1.len(), 1);

    let out2 = reassembler.ingest_data_shred_meta_at(
        60,
        2,
        false,
        false,
        SharedPayloadFragment::owned(vec![2]),
        third,
    );
    assert!(out2.is_empty());
    let out3 = reassembler.ingest_data_shred_meta_at(
        60,
        3,
        false,
        false,
        SharedPayloadFragment::owned(vec![3]),
        fourth,
    );
    assert!(out3.is_empty());

    let inline = reassembler
        .inline_contiguous_dataset(60)
        .expect("inline contiguous dataset");
    assert_eq!(inline.start_index, 2);
    assert_eq!(inline.end_index, 3);
    assert_eq!(
        inline.payload_fragments,
        PayloadFragmentBatch::from_owned_fragments(vec![vec![2], vec![3]])
    );
    assert_eq!(inline.fragment_observed_ats, vec![third, fourth]);
}

#[test]
fn inline_contiguous_dataset_requires_anchor() {
    let mut reassembler = DataSetReassembler::new(16);
    let _ = ingest(&mut reassembler, 61, 2, false, false, vec![2]);
    let _ = ingest(&mut reassembler, 61, 3, false, false, vec![3]);
    assert!(reassembler.inline_contiguous_datasets(61).is_empty());
}

#[test]
fn inline_contiguous_datasets_include_following_chain_after_known_boundary() {
    let mut reassembler = DataSetReassembler::new(16);
    let _ = ingest(&mut reassembler, 62, 1, true, false, vec![1]);
    let _ = ingest(&mut reassembler, 62, 2, false, false, vec![2]);
    let _ = ingest(&mut reassembler, 62, 3, false, false, vec![3]);

    let inline = reassembler.inline_contiguous_datasets(62);
    assert_eq!(inline.len(), 1);
    assert_eq!(inline[0].start_index, 2);
    assert_eq!(inline[0].end_index, 3);
    assert_eq!(
        inline[0].payload_fragments,
        PayloadFragmentBatch::from_owned_fragments(vec![vec![2], vec![3]])
    );
}

#[test]
fn inline_contiguous_datasets_track_late_prefix_and_current_chain() {
    let mut reassembler = DataSetReassembler::new(16);
    let _ = ingest(&mut reassembler, 63, 2, false, false, vec![2]);
    let _ = ingest(&mut reassembler, 63, 3, true, false, vec![3]);
    let _ = ingest(&mut reassembler, 63, 4, false, false, vec![4]);
    let _ = ingest(&mut reassembler, 63, 5, false, false, vec![5]);
    let _ = ingest(&mut reassembler, 63, 0, false, false, vec![0]);

    let inline = reassembler.inline_contiguous_datasets(63);
    assert_eq!(inline.len(), 2);
    assert_eq!(inline[0].start_index, 0);
    assert_eq!(inline[0].end_index, 0);
    assert_eq!(
        inline[0].payload_fragments,
        PayloadFragmentBatch::from_owned_fragments(vec![vec![0]])
    );
    assert_eq!(inline[1].start_index, 4);
    assert_eq!(inline[1].end_index, 5);
    assert_eq!(
        inline[1].payload_fragments,
        PayloadFragmentBatch::from_owned_fragments(vec![vec![4], vec![5]])
    );
}

fn ingest(
    reassembler: &mut DataSetReassembler,
    slot: u64,
    index: u32,
    data_complete: bool,
    last_in_slot: bool,
    serialized_shred: Vec<u8>,
) -> Vec<CompletedDataSet> {
    reassembler.ingest_data_shred_meta(
        slot,
        index,
        data_complete,
        last_in_slot,
        SharedPayloadFragment::owned(serialized_shred),
    )
}

#[test]
fn purge_older_than_removes_old_slot_streams() {
    let mut reassembler = DataSetReassembler::new(16).with_retained_slot_lag(64);
    let _ = reassembler.slots.insert(100, SlotStream::new(100, 2));
    let _ = reassembler.slots.insert(120, SlotStream::new(120, 2));
    let _ = reassembler.slots.insert(140, SlotStream::new(140, 2));

    let purged = reassembler.purge_older_than(121);

    assert_eq!(purged, 2);
    assert_eq!(reassembler.tracked_slots(), 1);
    assert!(reassembler.slots.contains_key(&140));
}

#[test]
fn late_floor_does_not_fall_again() {
    let mut reassembler = DataSetReassembler::new(16).with_retained_slot_lag(64);
    let _ = ingest(&mut reassembler, 100, 0, false, false, vec![0]);
    let _ = ingest(&mut reassembler, 120, 0, false, false, vec![0]);
    assert_eq!(reassembler.purge_older_than(110), 1);
    assert_eq!(reassembler.purge_older_than(110), 0);
    assert_eq!(reassembler.purge_older_than(50), 0);
    assert_eq!(reassembler.tracked_slots(), 1);
    assert_eq!(reassembler.last_pruned_floor, 110);
}

#[test]
fn oldest_slot_makes_room() {
    let mut reassembler = DataSetReassembler::new(2);
    let _ = ingest(&mut reassembler, 7, 0, false, false, vec![0]);
    let _ = ingest(&mut reassembler, 5, 0, false, false, vec![0]);
    let _ = ingest(&mut reassembler, 6, 0, false, false, vec![0]);
    assert_eq!(reassembler.tracked_slots(), 2);
    assert!(!reassembler.slots.contains_key(&5));
    assert!(reassembler.slots.contains_key(&6));
    assert!(reassembler.slots.contains_key(&7));
}

#[test]
fn old_slots_leave_with_a_newer_shred() {
    let mut reassembler = DataSetReassembler::new(16).with_retained_slot_lag(10);
    let _ = ingest(&mut reassembler, 100, 0, false, false, vec![0]);
    let _ = ingest(&mut reassembler, 110, 0, false, false, vec![0]);
    assert_eq!(reassembler.tracked_slots(), 2);
    let _ = ingest(&mut reassembler, 111, 0, false, false, vec![0]);
    assert_eq!(reassembler.tracked_slots(), 2);
    assert!(!reassembler.slots.contains_key(&100));
}

#[test]
fn default_lag_is_a_quarter_within_bounds() {
    assert_eq!(DataSetReassembler::new(16).retained_slot_lag, 64);
    assert_eq!(DataSetReassembler::new(400).retained_slot_lag, 100);
    assert_eq!(DataSetReassembler::new(10_000).retained_slot_lag, 256);
    assert_eq!(DataSetReassembler::new(16).with_retained_slot_lag(0).retained_slot_lag, 1);
    assert_eq!(
        DataSetReassembler::new(16)
            .with_tail_min_shreds_without_anchor(0)
            .tail_min_shreds_without_anchor,
        1
    );
    assert_eq!(DataSetReassembler::default().retained_slot_lag, 0);
}

#[test]
fn single_shred_tail_is_enough_where_one_is() {
    let mut reassembler = DataSetReassembler::new(16).with_tail_min_shreds_without_anchor(1);
    let out = ingest(&mut reassembler, 10, 5, true, false, vec![1]);
    assert_eq!(out.len(), 1);
    assert_eq!(out[0].start_index, 5);
    assert_eq!(out[0].end_index, 5);
    assert_eq!(out[0].slot, 10);
    assert!(!out[0].last_in_slot);
}

#[test]
fn first_payload_for_an_index_stays() {
    let mut reassembler = DataSetReassembler::new(16);
    let _ = ingest(&mut reassembler, 9, 0, false, false, vec![1]);
    let _ = ingest(&mut reassembler, 9, 0, false, false, vec![2]);
    let out = ingest(&mut reassembler, 9, 1, true, false, vec![3]);
    assert_eq!(
        out[0].payload_fragments,
        PayloadFragmentBatch::from_owned_fragments(vec![vec![1], vec![3]])
    );
}

#[test]
fn repeated_last_shred_marks_the_data_set() {
    let mut stream = SlotStream::new(3, 2);
    let early = Instant::from_nanos(10);
    let late = Instant::from_nanos(20);
    stream.insert(0, false, false, SharedPayloadFragment::owned(vec![1]), early);
    stream.insert(0, false, true, SharedPayloadFragment::owned(vec![9]), late);
    let out = stream.drain_contiguous_datasets();
    assert_eq!(out.len(), 1);
    assert!(out[0].last_in_slot);
    assert_eq!(out[0].first_shred_observed_at, late);
    assert_eq!(out[0].payload_fragments, PayloadFragmentBatch::from_owned_fragments(vec![vec![1]]));
    assert!(stream.finished);
}

#[test]
fn drained_slot_gives_nothing_more() {
    let mut stream = SlotStream::new(3, 2);
    let now = Instant::from_nanos(10);
    for index in 0..4 {
        let complete = index % 2 == 1;
        stream.insert(index, complete, false, SharedPayloadFragment::owned(vec![index as u8]), now);
    }
    stream.insert(5, true, false, SharedPayloadFragment::owned(vec![5]), now);
    let out = stream.drain_contiguous_datasets();
    assert_eq!(out.len(), 2);
    assert_eq!((out[0].start_index, out[0].end_index), (0, 1));
    assert_eq!((out[1].start_index, out[1].end_index), (2, 3));
    assert!(stream.drain_contiguous_datasets().is_empty());
    assert_eq!(stream.fragments.len(), 1);
    assert_eq!(stream.next_dataset_start, 4);
}

#[test]
fn run_at_the_last_index_ends() {
    let mut stream = SlotStream::new(3, 2);
    let now = Instant::from_nanos(10);
    stream.insert(u32::MAX - 1, true, false, SharedPayloadFragment::owned(vec![1]), now);
    stream.insert(u32::MAX, false, false, SharedPayloadFragment::owned(vec![2]), now);
    let runs = stream.inline_contiguous_datasets();
    assert_eq!(runs.len(), 1);
    assert_eq!((runs[0].start_index, runs[0].end_index), (u32::MAX, u32::MAX));
}

#[test]
fn either_order_completes_the_same_data_set() {
    let mut forwards = DataSetReassembler::new(16);
    let mut backwards = DataSetReassembler::new(16);
    assert!(ingest(&mut forwards, 4, 0, false, false, vec![1]).is_empty());
    assert!(ingest(&mut forwards, 4, 1, false, false, vec![2]).is_empty());
    let one = ingest(&mut forwards, 4, 2, true, false, vec![3]);
    assert!(ingest(&mut backwards, 4, 1, false, false, vec![2]).is_empty());
    assert!(ingest(&mut backwards, 4, 0, false, false, vec![1]).is_empty());
    let two = ingest(&mut backwards, 4, 2, true, false, vec![3]);
    assert_eq!(one.len(), 1);
    assert_eq!(two.len(), 1);
    assert_eq!((one[0].start_index, one[0].end_index), (0, 2));
    assert_eq!((two[0].start_index, two[0].end_index), (0, 2));
    assert_eq!(one[0].payload_fragments, two[0].payload_fragments);
    assert_eq!(
        one[0].payload_fragments,
        PayloadFragmentBatch::from_owned_fragments(vec![vec![1], vec![2], vec![3]])
    );
}

#[test]
fn finished_slot_is_not_held() {
    let mut reassembler = DataSetReassembler::new(16);
    assert!(ingest(&mut reassembler, 4, 0, false, false, vec![1]).is_empty());
    assert_eq!(reassembler.tracked_slots(), 1);
    assert_eq!(ingest(&mut reassembler, 4, 1, true, true, vec![2]).len(), 1);
    assert_eq!(reassembler.tracked_slots(), 0);
}

#[test]
fn one_slot_is_held_where_none_may_be() {
    let mut reassembler = DataSetReassembler::new(0);
    assert!(ingest(&mut reassembler, 4, 0, false, false, vec![1]).is_empty());
    assert_eq!(reassembler.tracked_slots(), 1);
    assert!(ingest(&mut reassembler, 5, 0, false, false, vec![1]).is_empty());
    assert_eq!(reassembler.tracked_slots(), 1);
    assert!(reassembler.slots.contains_key(&5));
}

#[test]
fn cloned_data_set_is_the_same() {
    let mut reassembler = DataSetReassembler::new(16);
    assert!(ingest(&mut reassembler, 4, 0, false, false, vec![1]).is_empty());
    let out = ingest(&mut reassembler, 4, 1, true, false, vec![2, 3]);
    assert_eq!(out.len(), 1);
    let copy = out[0].clone();
    assert_eq!(copy, out[0]);
    assert_eq!(copy.payload_fragments.total_len(), 3);
    assert_eq!(
        copy.payload_fragments.clone(),
        PayloadFragmentBatch::from_owned_fragments(vec![vec![1], vec![2, 3]])
    );
}

#[test]
fn huge_tail_minimum_is_not_cut_short() {
    let Ok(huge) = usize::try_from(1_u64 << 32) else {
        return;
    };
    let mut reassembler = DataSetReassembler::new(16).with_tail_min_shreds_without_anchor(huge);
    assert!(ingest(&mut reassembler, 4, 5, false, false, vec![1]).is_empty());
    assert!(ingest(&mut reassembler, 4, 6, true, false, vec![2]).is_empty());
}

#[test]
fn payload_may_come_anew_once_it_was_given_out() {
    let mut reassembler = DataSetReassembler::new(16);
    assert!(ingest(&mut reassembler, 4, 0, false, false, vec![1]).is_empty());
    assert!(ingest(&mut reassembler, 4, 0, false, false, vec![9]).is_empty());
    let first = ingest(&mut reassembler, 4, 1, true, false, vec![2]);
    assert_eq!(first.len(), 1);
    assert_eq!(first[0].slot, 4);
    assert_eq!(
        first[0].payload_fragments,
        PayloadFragmentBatch::from_owned_fragments(vec![vec![1], vec![2]])
    );
    assert!(ingest(&mut reassembler, 4, 0, false, false, vec![7]).is_empty());
    let second = ingest(&mut reassembler, 4, 1, true, false, vec![8]);
    assert_eq!(second.len(), 1);
    assert_eq!(
        second[0].payload_fragments,
        PayloadFragmentBatch::from_owned_fragments(vec![vec![7], vec![8]])
    );
    reassembler.purge_older_than(5);
    assert_eq!(reassembler.tracked_slots(), 0);
    assert!(ingest(&mut reassembler, 4, 0, false, false, vec![5]).is_empty());
    let third = ingest(&mut reassembler, 4, 1, true, false, vec![6]);
    assert_eq!(
        third[0].payload_fragments,
        PayloadFragmentBatch::from_owned_fragments(vec![vec![5], vec![6]])
    );
}
