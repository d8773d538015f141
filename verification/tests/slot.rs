use sof::reassembly::slot::SlotReassembler;

#[test]
fn completes_slot_when_contiguous_and_last_arrives() {
    let mut reassembler = SlotReassembler::new(128);

    let _ = reassembler.ingest_data_shred_meta(1, 0, false, false, b"aa".to_vec());
    let _ = reassembler.ingest_data_shred_meta(1, 1, false, false, b"bb".to_vec());
    let completed = reassembler.ingest_data_shred_meta(1, 2, true, true, b"cc".to_vec());

    let completed = completed.expect("slot should be complete");
    assert_eq!(completed.slot, 1);
    assert_eq!(completed.last_index, 2);
    assert_eq!(completed.payload, b"aabbcc");
}

#[test]
fn waits_for_missing_middle_shred() {
    let mut reassembler = SlotReassembler::new(128);

    let _ = reassembler.ingest_data_shred_meta(9, 0, false, false, b"aa".to_vec());
    let pending = reassembler.ingest_data_shred_meta(9, 2, true, true, b"cc".to_vec());
    assert!(pending.is_none());

    let completed = reassembler.ingest_data_shred_meta(9, 1, false, false, b"bb".to_vec());
    let completed = completed.expect("slot should become complete once gap is filled");
    assert_eq!(completed.payload, b"aabbcc");
}

#[test]
fn end_that_completes_no_data_set_does_not_complete_the_slot() {
    let mut reassembler = SlotReassembler::new(128);
    assert!(reassembler.ingest_data_shred_meta(1, 0, false, true, b"aa".to_vec()).is_none());
    assert!(reassembler.ingest_data_shred_meta(1, 0, true, true, b"bb".to_vec()).is_none());
    assert_eq!(reassembler.slots.len(), 1);
}

#[test]
fn last_index_there_is_ends_no_slot() {
    let mut reassembler = SlotReassembler::new(128);
    assert!(reassembler.ingest_data_shred_meta(1, u32::MAX, true, true, b"aa".to_vec()).is_none());
}

#[test]
fn repeated_shred_keeps_its_first_payload() {
    let mut reassembler = SlotReassembler::new(128);
    let _ = reassembler.ingest_data_shred_meta(1, 0, false, false, b"aa".to_vec());
    let _ = reassembler.ingest_data_shred_meta(1, 0, false, false, b"xx".to_vec());
    let done = reassembler.ingest_data_shred_meta(1, 1, true, true, b"bb".to_vec());
    assert_eq!(done.map(|slot| slot.payload), Some(b"aabb".to_vec()));
    assert!(reassembler.slots.is_empty());
}

#[test]
fn slot_reassembler_drops_its_oldest_slot() {
    let mut reassembler = SlotReassembler::new(2);
    for slot in [4, 2, 3] {
        let _ = reassembler.ingest_data_shred_meta(slot, 0, false, false, b"aa".to_vec());
    }
    assert_eq!(reassembler.slots.len(), 2);
    assert!(!reassembler.slots.contains_key(&2));
}
