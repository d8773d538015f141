use sof::ingest::config::{
    busy_poll_options, is_on_word, read_bool_env, read_udp_batch_max_wait_ms, read_udp_batch_size,
    read_udp_idle_wait_ms, read_udp_rcvbuf_bytes, read_udp_receiver_core, read_udp_track_rxq_ovfl,
    receiver_core_slot,
};
use sof::ingest::queue::{
    is_known_queue_mode, is_known_queue_mode_name, named_queue_mode, read_ingest_queue_capacity,
    read_ingest_queue_mode, IngestQueueMode,
    LockFreeBatchQueue, ReceiveStep, SendStep,
};
use sof::ingest::receiver::address::{
    sockaddr_storage_to_socket_addr, RawSocketAddress, SourceAddress, AF_INET, AF_INET6,
    SIZE_OF_SOCKADDR_IN, SIZE_OF_SOCKADDR_IN6,
};
use sof::ingest::receiver::batch::{
    RawPacketBatch, RawPacketBatchRecycler, RawPacketIngress, UdpReceiverError,
};
use sof::ingest::receiver::telemetry::ReceiverTelemetry;
use sof::ingest::receiver::udp::{
    CoalesceAction, CoalescedReceive, ReceiverAction, ReceiverEvent, ReceiverSettings, UdpReceiver,
};
use sof::time::{Duration, Instant};

fn local(port: u16) -> SourceAddress {
    SourceAddress::V4 { octets: [127, 0, 0, 1], port }
}

fn at(millis: u64) -> Instant {
    Instant::from_nanos(millis * 1_000_000)
}

#[test]
fn recvmmsg_source_address_rejects_truncated_name() {
    let storage = RawSocketAddress {
        family: AF_INET,
        port: [0; 2],
        v4: [0; 4],
        v6: [0; 16],
        flowinfo: 0,
        scope_id: 0,
    };
    let truncated = SIZE_OF_SOCKADDR_IN.saturating_sub(1);
    assert!(sockaddr_storage_to_socket_addr(storage, truncated).is_none());
}

#[test]
fn source_addresses_are_read() {
    let storage = RawSocketAddress {
        family: AF_INET,
        port: [0x1f, 0x90],
        v4: [10, 0, 0, 7],
        v6: [3; 16],
        flowinfo: 1,
        scope_id: 2,
    };
    assert_eq!(
        sockaddr_storage_to_socket_addr(storage, SIZE_OF_SOCKADDR_IN),
        Some(SourceAddress::V4 { octets: [10, 0, 0, 7], port: 8080 })
    );
    let six = RawSocketAddress { family: AF_INET6, ..storage };
    assert_eq!(sockaddr_storage_to_socket_addr(six, SIZE_OF_SOCKADDR_IN6 - 1), None);
    assert_eq!(
        sockaddr_storage_to_socket_addr(six, SIZE_OF_SOCKADDR_IN6),
        Some(SourceAddress::V6 { octets: [3; 16], port: 8080, flowinfo: 1, scope_id: 2 })
    );
    let other = RawSocketAddress { family: 1, ..storage };
    assert_eq!(sockaddr_storage_to_socket_addr(other, 128), None);
}

#[test]
fn switches_are_read_whatever_their_case() {
    for word in ["1", " TRUE ", "Yes", "on\n"] {
        assert!(read_bool_env(Some(word), false));
    }
    for word in ["0", "off", "", "yess", "tru e"] {
        assert!(!read_bool_env(Some(word), true));
    }
    assert!(read_bool_env(None, true));
    assert!(!read_udp_track_rxq_ovfl(None));
}

#[test]
fn numbers_fall_back_to_their_defaults() {
    assert_eq!(read_udp_batch_size(Some("128")), 128);
    assert_eq!(read_udp_batch_size(Some("+5")), 5);
    assert_eq!(read_udp_batch_size(Some("0")), 64);
    assert_eq!(read_udp_batch_size(Some("-1")), 64);
    assert_eq!(read_udp_batch_size(Some(" 5")), 64);
    assert_eq!(read_udp_batch_size(Some("99999999999999999999999")), 64);
    assert_eq!(read_udp_batch_size(None), 64);
    assert_eq!(read_udp_rcvbuf_bytes(None), Some(64 * 1024 * 1024));
    assert_eq!(read_udp_rcvbuf_bytes(Some("4096")), Some(4096));
    assert_eq!(read_udp_batch_max_wait_ms(None), 1);
    assert_eq!(read_udp_batch_max_wait_ms(Some("7")), 7);
    assert_eq!(read_udp_idle_wait_ms(Some("")), 100);
    assert_eq!(read_udp_idle_wait_ms(Some("18446744073709551615")), u64::MAX);
    assert_eq!(read_udp_idle_wait_ms(Some("18446744073709551616")), 100);
}

#[test]
fn receiver_core_prefers_the_setting_over_the_port() {
    assert_eq!(read_udp_receiver_core(Some("0"), Some("on"), 9000), Some(0));
    assert_eq!(read_udp_receiver_core(Some("x"), Some("on"), 9000), Some(9000));
    assert_eq!(read_udp_receiver_core(None, Some("off"), 9000), None);
    assert_eq!(read_udp_receiver_core(None, None, 9000), None);
    assert_eq!(receiver_core_slot(9000, 16), Some(8));
    assert_eq!(receiver_core_slot(9000, 0), None);
}

#[test]
fn busy_polling_sets_what_is_asked_for() {
    assert!(busy_poll_options(None, false, None).is_empty());
    assert_eq!(
        busy_poll_options(Some(50), true, Some(8)),
        vec![(46, 50), (69, 1), (70, 8)]
    );
    assert_eq!(busy_poll_options(None, true, None), vec![(69, 1)]);
    assert_eq!(busy_poll_options(Some(u32::MAX), false, None), vec![(46, -1)]);
}

#[test]
fn queue_modes_have_several_names() {
    for (text, mode) in [
        ("bounded", IngestQueueMode::Bounded),
        ("Tokio-Bounded", IngestQueueMode::Bounded),
        ("tokio_bounded", IngestQueueMode::Bounded),
        ("unbounded ", IngestQueueMode::Unbounded),
        ("tokio-unbounded", IngestQueueMode::Unbounded),
        ("TOKIO_UNBOUNDED", IngestQueueMode::Unbounded),
        ("lockfree", IngestQueueMode::LockFree),
        ("lock-free", IngestQueueMode::LockFree),
        ("ring", IngestQueueMode::LockFree),
        ("arrayqueue", IngestQueueMode::LockFree),
    ] {
        assert_eq!(read_ingest_queue_mode(Some(text)), mode);
        assert!(is_known_queue_mode(text));
    }
    assert_eq!(read_ingest_queue_mode(Some("mpsc")), IngestQueueMode::Bounded);
    assert!(!is_known_queue_mode("mpsc"));
    assert_eq!(read_ingest_queue_mode(None), IngestQueueMode::Bounded);
    assert_eq!(IngestQueueMode::Bounded.as_str(), "bounded");
    assert_eq!(IngestQueueMode::Unbounded.as_str(), "unbounded");
    assert_eq!(IngestQueueMode::LockFree.as_str(), "lockfree");
    assert_eq!(read_ingest_queue_capacity(None), 16_384);
    assert_eq!(read_ingest_queue_capacity(Some("12")), 12);
    assert_eq!(read_ingest_queue_capacity(Some("0")), 16_384);
}

fn batch_with(byte: u8) -> RawPacketBatch {
    let mut batch = RawPacketBatch::with_capacity(1);
    batch.push_packet(local(1), RawPacketIngress::Udp, &[byte]).expect("push");
    batch
}

fn first_byte(batch: &RawPacketBatch) -> u8 {
    batch.packet_bytes(batch.packets()[0])[0]
}

#[test]
fn ring_gives_batches_in_order_and_refuses_when_full() {
    let mut queue = LockFreeBatchQueue::new(2);
    assert!(matches!(queue.recv(), ReceiveStep::Wait));
    assert!(matches!(queue.send_batch(batch_with(1), true), SendStep::Sent));
    assert!(matches!(queue.send_batch(batch_with(2), false), SendStep::Sent));
    assert!(matches!(queue.send_batch(batch_with(3), true), SendStep::Refused));
    let back = match queue.send_batch(batch_with(4), false) {
        SendStep::Retry(batch) => batch,
        other => panic!("{other:?}"),
    };
    assert_eq!(first_byte(&back), 4);
    for expected in [1, 2] {
        match queue.recv() {
            ReceiveStep::Batch(batch) => assert_eq!(first_byte(&batch), expected),
            other => panic!("{other:?}"),
        }
    }
}

#[test]
fn ring_closes_with_its_last_sender_and_runs_empty() {
    let mut queue = LockFreeBatchQueue::new(4);
    queue.sender_added();
    assert!(!queue.sender_dropped());
    assert!(matches!(queue.send_batch(batch_with(1), true), SendStep::Sent));
    assert!(queue.sender_dropped());
    assert!(matches!(queue.send_batch(batch_with(2), false), SendStep::Refused));
    assert!(matches!(queue.recv(), ReceiveStep::Batch(_)));
    assert!(matches!(queue.recv(), ReceiveStep::Closed));
    let mut other = LockFreeBatchQueue::new(4);
    other.receiver_dropped();
    assert!(matches!(other.send_batch(batch_with(2), false), SendStep::Refused));
}

#[test]
fn batches_hold_and_give_back_packets() {
    let mut batch = RawPacketBatch::default();
    assert!(batch.is_empty());
    assert_eq!(batch.buffer_count(), 1);
    batch.push_packet_bytes(local(1), RawPacketIngress::Udp, b"first").expect("push");
    batch.push_packet_bytes(local(2), RawPacketIngress::Udp, b"second").expect("push");
    assert_eq!(batch.len(), 2);
    assert_eq!(batch.buffer_count(), 2);
    let packets = batch.packets().to_vec();
    assert_eq!(batch.packet_bytes(packets[0]), b"first");
    assert_eq!(batch.packet_bytes(packets[1]), b"second");
    assert_eq!(packets[1].source, local(2));
    assert_eq!(packets[1].buffer_index, 1);
    let error = batch
        .push_packet_bytes(local(3), RawPacketIngress::Udp, &[0; 2049])
        .expect_err("too long");
    assert_eq!(error, UdpReceiverError::InvalidPacketLength { len: 2049, capacity: 2048 });
    assert_eq!(error.to_text(), "invalid udp packet length 2049; buffer capacity 2048");
    assert!(batch.push_packet(local(3), RawPacketIngress::Udp, &[0; 2048]).is_ok());
    let sent = batch.take_for_send();
    assert_eq!(sent.len(), 3);
    assert!(batch.is_empty());
    assert_eq!(batch.buffer_count(), 3);
    batch.reserve(5);
    assert_eq!(batch.buffer_count(), 5);
    assert_eq!(batch.ensure_receive_slots(2), 0);
    assert_eq!(batch.buffer_count(), 5);
}

#[test]
fn received_packets_are_noted_up_to_the_first_bad_one() {
    let mut batch = RawPacketBatch::with_capacity(4);
    let start = batch.ensure_receive_slots(3);
    batch.receive_buffer_mut(1).expect("buffer")[0] = 9;
    assert!(batch.receive_buffer_mut(4).is_none());
    let good = vec![(Some(local(1)), 0), (Some(local(2)), 1)];
    assert_eq!(batch.record_received(start, &good), Ok(2));
    assert_eq!(batch.packet_bytes(batch.packets()[1]), &[9]);
    let unknown = vec![(Some(local(1)), 3), (None, 3)];
    assert_eq!(batch.record_received(2, &unknown), Err(UdpReceiverError::UnknownSource));
    assert_eq!(batch.len(), 3);
    assert_eq!(
        UdpReceiverError::UnknownSource.to_text(),
        "udp recvmmsg source address is not inet/inet6"
    );
    let long = vec![(Some(local(1)), 2049)];
    assert_eq!(
        batch.record_received(3, &long),
        Err(UdpReceiverError::InvalidPacketLength { len: 2049, capacity: 2048 })
    );
    batch.clear();
    assert!(batch.is_empty());
    assert_eq!(batch.buffer_count(), 4);
}

#[test]
fn recycled_batches_come_back_empty() {
    let mut recycler = RawPacketBatchRecycler::new(0);
    let fresh = recycler.allocate();
    assert_eq!(fresh.buffer_count(), 1);
    let mut used = RawPacketBatch::with_capacity(3);
    used.push_packet(local(1), RawPacketIngress::Udp, b"x").expect("push");
    recycler.recycle(used);
    let again = recycler.allocate();
    assert!(again.is_empty());
    assert_eq!(again.buffer_count(), 3);
    for _ in 0..300 {
        recycler.recycle(RawPacketBatch::with_capacity(2));
    }
    for _ in 0..256 {
        assert_eq!(recycler.allocate().buffer_count(), 2);
    }
    assert_eq!(recycler.allocate().buffer_count(), 1);
}

#[test]
fn telemetry_counts_and_wraps() {
    let mut telemetry = ReceiverTelemetry::default();
    telemetry.record_packet();
    telemetry.record_packets_at(4, 77);
    assert_eq!(telemetry.snapshot(), (5, 77));
    telemetry.record_packets(1);
    assert!(telemetry.snapshot().1 > 77);
    telemetry.record_flush(true, 3);
    telemetry.record_flush(false, 2);
    telemetry.record_sent_batch(1);
    telemetry.record_dropped_batch(1);
    assert_eq!(telemetry.sent_batches(), 2);
    assert_eq!(telemetry.sent_packets(), 4);
    assert_eq!(telemetry.dropped_batches(), 2);
    assert_eq!(telemetry.dropped_packets(), 3);
    telemetry.record_rxq_ovfl_drops(u64::MAX);
    telemetry.record_rxq_ovfl_drops(3);
    assert_eq!(telemetry.rxq_ovfl_drops(), 2);
}

fn settings() -> ReceiverSettings {
    ReceiverSettings::new(2, 5, 100)
}

#[test]
fn idle_receiver_waits_at_least_as_long_as_a_batch_is_open() {
    assert_eq!(settings().idle_wait, Duration::from_millis(100));
    assert_eq!(ReceiverSettings::new(2, 50, 10).idle_wait, Duration::from_millis(50));
}

#[test]
fn receiver_of_single_packets_opens_fills_and_sends_batches() {
    let (mut receiver, setup) = UdpReceiver::start(settings(), false, true);
    let idle = Duration::from_millis(100);
    let open = Duration::from_millis(5);
    assert_eq!(
        setup,
        vec![ReceiverAction::SetNonblocking(false), ReceiverAction::SetReadTimeout(idle)]
    );
    assert_eq!(
        receiver.on_event(ReceiverEvent::Turn { shutdown: false }),
        vec![ReceiverAction::ReceivePacket]
    );
    let packet = |counter: Option<u64>, millis: u64| ReceiverEvent::Packet {
        len: 100,
        rxq_ovfl_counter: counter,
        now: at(millis),
    };
    assert_eq!(
        receiver.on_event(packet(Some(10), 1)),
        vec![
            ReceiverAction::SetReadTimeout(open),
            ReceiverAction::CountPackets(1),
            ReceiverAction::AddPacket
        ]
    );
    assert!(receiver.on_event(ReceiverEvent::Added { now: at(2) }).is_empty());
    assert_eq!(
        receiver.on_event(packet(Some(13), 3)),
        vec![
            ReceiverAction::CountKernelDrops(3),
            ReceiverAction::CountPackets(1),
            ReceiverAction::AddPacket
        ]
    );
    assert_eq!(
        receiver.on_event(ReceiverEvent::Added { now: at(3) }),
        vec![ReceiverAction::Flush, ReceiverAction::SetReadTimeout(idle)]
    );
    let _ = receiver.on_event(packet(Some(13), 10));
    assert_eq!(
        receiver.on_event(ReceiverEvent::Added { now: at(15) }),
        vec![ReceiverAction::Flush, ReceiverAction::SetReadTimeout(idle)]
    );
    assert_eq!(
        receiver.on_event(ReceiverEvent::Idle { shutdown: false }),
        vec![ReceiverAction::Flush]
    );
    let _ = receiver.on_event(packet(None, 20));
    assert_eq!(
        receiver.on_event(ReceiverEvent::Idle { shutdown: true }),
        vec![
            ReceiverAction::Flush,
            ReceiverAction::SetReadTimeout(idle),
            ReceiverAction::Stop
        ]
    );
    assert_eq!(
        receiver.on_event(ReceiverEvent::Packet {
            len: 2049,
            rxq_ovfl_counter: None,
            now: at(30)
        }),
        vec![ReceiverAction::FailLength { len: 2049, capacity: 2048 }]
    );
    assert_eq!(receiver.on_event(ReceiverEvent::Failed), vec![ReceiverAction::FailReceive]);
    assert_eq!(
        receiver.on_event(ReceiverEvent::Turn { shutdown: true }),
        vec![ReceiverAction::Flush, ReceiverAction::Stop]
    );
}

#[test]
fn receiver_of_batches_counts_and_sends_them() {
    let (mut receiver, setup) = UdpReceiver::start(settings(), true, true);
    assert_eq!(setup, vec![ReceiverAction::SetNonblocking(true)]);
    assert_eq!(
        receiver.on_event(ReceiverEvent::Turn { shutdown: false }),
        vec![ReceiverAction::ReceiveBatch]
    );
    assert!(receiver.on_event(ReceiverEvent::BatchReceived { received: 0 }).is_empty());
    assert_eq!(
        receiver.on_event(ReceiverEvent::BatchReceived { received: 7 }),
        vec![ReceiverAction::CountPackets(7), ReceiverAction::Flush]
    );
    assert!(receiver.on_event(ReceiverEvent::BatchIdle { shutdown: false }).is_empty());
    assert_eq!(
        receiver.on_event(ReceiverEvent::BatchIdle { shutdown: true }),
        vec![ReceiverAction::Stop]
    );
    let (mut silent, _) = UdpReceiver::start(settings(), true, false);
    assert_eq!(
        silent.on_event(ReceiverEvent::BatchReceived { received: 7 }),
        vec![ReceiverAction::Flush]
    );
}

#[test]
fn coalesced_receive_waits_for_more_until_its_deadline() {
    let idle = Duration::from_millis(100);
    let open = Duration::from_millis(5);
    let (mut state, first) = CoalescedReceive::start(8, idle, open, at(0));
    assert_eq!(first, CoalesceAction::Receive(8));
    assert_eq!(state.on_blocked(at(0)), CoalesceAction::Wait(idle));
    assert_eq!(state.on_waited(false), CoalesceAction::WouldBlock);
    assert_eq!(state.on_waited(true), CoalesceAction::Receive(8));
    assert_eq!(state.on_received(3, at(2)), CoalesceAction::Wait(Duration::from_millis(3)));
    assert_eq!(state.on_waited(false), CoalesceAction::Done(3));
    assert_eq!(state.on_waited(true), CoalesceAction::Receive(5));
    assert_eq!(state.on_blocked(at(4)), CoalesceAction::Wait(Duration::from_millis(1)));
    assert_eq!(state.on_blocked(at(5)), CoalesceAction::Done(3));
    assert_eq!(state.on_received(1, at(9)), CoalesceAction::Done(4));
    assert_eq!(state.on_received(4, at(1)), CoalesceAction::Done(8));
    assert_eq!(state.on_waited(true), CoalesceAction::Done(8));
    let (_, none) = CoalescedReceive::start(0, idle, open, at(0));
    assert_eq!(none, CoalesceAction::Done(0));
    let (mut hasty, _) = CoalescedReceive::start(1, Duration::from_millis(0), open, at(0));
    assert_eq!(hasty.on_blocked(at(0)), CoalesceAction::WouldBlock);
    assert_eq!(hasty.on_received(0, at(0)), CoalesceAction::Wait(open));
    assert_eq!(hasty.on_waited(false), CoalesceAction::Done(0));
}

#[test]
fn words_without_blanks_are_read_as_they_stand() {
    assert_eq!(named_queue_mode("LockFree"), IngestQueueMode::LockFree);
    assert_eq!(named_queue_mode(" lockfree"), IngestQueueMode::Bounded);
    assert_eq!(read_ingest_queue_mode(Some(" lockfree")), IngestQueueMode::LockFree);
    assert!(is_known_queue_mode_name("tokio-bounded"));
    assert!(!is_known_queue_mode_name("tokio-bounded "));
    assert!(is_known_queue_mode("tokio-bounded "));
    assert!(is_on_word("YES"));
    assert!(!is_on_word("yes "));
    assert!(read_bool_env(Some("yes "), false));
}

#[test]
fn white_space_of_every_kind_is_trimmed() {
    let blanks = [
        '\t', '\n', '\u{b}', '\u{c}', '\r', ' ', '\u{85}', '\u{a0}', '\u{1680}', '\u{2000}', '\u{2001}', '\u{2002}',
        '\u{2003}', '\u{2004}', '\u{2005}', '\u{2006}', '\u{2007}', '\u{2008}', '\u{2009}', '\u{200a}', '\u{2028}',
        '\u{2029}', '\u{202f}', '\u{205f}', '\u{3000}',
    ];
    for blank in blanks {
        let text = format!("{blank}{blank}ring{blank}");
        assert_eq!(read_ingest_queue_mode(Some(text.as_str())), IngestQueueMode::LockFree);
    }
    for other in ['\u{8}', '\u{e}', '\u{1f}', '\u{180e}', '\u{200b}', '\u{2060}', '\u{feff}'] {
        let text = format!("{other}ring");
        assert_eq!(read_ingest_queue_mode(Some(text.as_str())), IngestQueueMode::Bounded);
    }
    assert!(!read_bool_env(Some(" \u{3000} "), true));
}
