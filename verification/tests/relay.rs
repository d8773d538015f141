use sof::protocol::shred_wire::{
    OFFSET_FEC_SET_INDEX, OFFSET_INDEX, OFFSET_SHRED_VARIANT, OFFSET_SLOT, OFFSET_VERSION,
    SHRED_KIND_MASK, SIZE_OF_DATA_SHRED_HEADERS, SIZE_OF_DATA_SHRED_PAYLOAD, VARIANT_MERKLE_DATA,
};
use sof::relay::cache::key::make_cached_shred_key;
use sof::relay::cache::ring::RecentShredRingBuffer;
use sof::relay::cache::shared::SharedRelayCache;
use sof::relay::cache::{
    CacheInsertOutcome, RelayRangeLimits, RelayRangeQueryError, RelayRangeRequest,
};
use sof::relay::server::{frame_packet, MAX_FRAME_SIZE};
use sof::shred::{ParsedDataShredHeader, ParsedShredHeader, ShredCommonHeader};
use sof::time::{Duration, Instant};

fn after(start: Instant, millis: u64) -> Instant {
    start.checked_add(Duration::from_millis(millis)).expect("later instant")
}

fn parse_shred_header(packet: &[u8]) -> Option<ParsedShredHeader> {
    if packet.len() < SIZE_OF_DATA_SHRED_HEADERS
        || packet[OFFSET_SHRED_VARIANT] & SHRED_KIND_MASK != VARIANT_MERKLE_DATA
    {
        return None;
    }
    let number = |at: usize, len: usize| {
        (0..len).fold(0_u64, |sum, i| sum | u64::from(packet[at + i]) << (8 * i))
    };
    Some(ParsedShredHeader::Data(ParsedDataShredHeader {
        common: ShredCommonHeader {
            slot: number(OFFSET_SLOT, 8),
            index: number(OFFSET_INDEX, 4) as u32,
            version: number(OFFSET_VERSION, 2) as u16,
            fec_set_index: number(OFFSET_FEC_SET_INDEX, 4) as u32,
        },
    }))
}

#[test]
fn cache_insert_replaces_existing_key_without_growing_len() {
    let packet = build_data_shred_packet(42, 7, 1, 9, b"hello");
    let parsed = parse_shred_header(&packet).expect("valid test shred");
    let mut cache = RecentShredRingBuffer::new(16, Duration::from_secs(2));

    let first = cache.insert(&packet, &parsed, Instant::now());
    assert!(first.inserted);
    assert!(!first.replaced);
    assert_eq!(cache.len(), 1);

    let second = cache.insert(&packet, &parsed, Instant::now());
    assert!(!second.inserted);
    assert!(second.replaced);
    assert_eq!(cache.len(), 1);
}

#[test]
fn cache_evicts_by_capacity() {
    let p1 = build_data_shred_packet(100, 1, 1, 0, b"a");
    let p2 = build_data_shred_packet(100, 2, 2, 0, b"b");
    let p3 = build_data_shred_packet(100, 3, 3, 0, b"c");
    let h1 = parse_shred_header(&p1).expect("valid");
    let h2 = parse_shred_header(&p2).expect("valid");
    let h3 = parse_shred_header(&p3).expect("valid");
    let mut cache = RecentShredRingBuffer::new(2, Duration::from_secs(10));
    let t0 = Instant::now();

    let _ = cache.insert(&p1, &h1, t0);
    let _ = cache.insert(&p2, &h2, after(t0, 1));
    let outcome = cache.insert(&p3, &h3, after(t0, 2));

    assert_eq!(cache.len(), 2);
    assert_eq!(outcome.evicted, 1);
}

#[test]
fn cache_evicts_by_ttl() {
    let packet = build_data_shred_packet(200, 9, 4, 0, b"payload");
    let header = parse_shred_header(&packet).expect("valid");
    let mut cache = RecentShredRingBuffer::new(8, Duration::from_millis(5));
    let base = Instant::now();

    let _ = cache.insert(&packet, &header, base);
    assert_eq!(cache.len(), 1);

    let newer_packet = build_data_shred_packet(200, 10, 5, 0, b"newer");
    let newer_header = parse_shred_header(&newer_packet).expect("valid");
    let outcome = cache.insert(
        &newer_packet,
        &newer_header,
        after(base, 6),
    );

    assert_eq!(outcome.evicted, 1);
    assert_eq!(cache.len(), 1);
}

#[test]
fn query_range_returns_sorted_indices_with_limits() {
    let p1 = build_data_shred_packet(9, 4, 1, 0, b"a");
    let p2 = build_data_shred_packet(9, 6, 2, 0, b"bbb");
    let p3 = build_data_shred_packet(9, 5, 3, 0, b"cc");
    let h1 = parse_shred_header(&p1).expect("valid");
    let h2 = parse_shred_header(&p2).expect("valid");
    let h3 = parse_shred_header(&p3).expect("valid");
    let mut cache = RecentShredRingBuffer::new(16, Duration::from_secs(2));
    let now = Instant::now();
    let _ = cache.insert(&p1, &h1, now);
    let _ = cache.insert(&p2, &h2, now);
    let _ = cache.insert(&p3, &h3, now);

    let request = RelayRangeRequest {
        slot: 9,
        start_index: 4,
        end_index: 6,
    };
    let limits = RelayRangeLimits {
        max_request_span: 32,
        max_response_shreds: 2,
        max_response_bytes: p1.len().saturating_add(p3.len()),
    };
    let result = cache
        .query_range(request, limits, now)
        .expect("query succeeds");
    assert_eq!(result.len(), 2);
    assert_eq!(result[0], p1);
    assert_eq!(result[1], p3);
}

#[test]
fn query_range_respects_max_response_bytes_budget() {
    let p1 = build_data_shred_packet(9, 4, 1, 0, b"a");
    let p2 = build_data_shred_packet(9, 5, 2, 0, b"bbb");
    let p3 = build_data_shred_packet(9, 6, 3, 0, b"cc");
    let h1 = parse_shred_header(&p1).expect("valid");
    let h2 = parse_shred_header(&p2).expect("valid");
    let h3 = parse_shred_header(&p3).expect("valid");
    let mut cache = RecentShredRingBuffer::new(16, Duration::from_secs(2));
    let now = Instant::now();
    let _ = cache.insert(&p1, &h1, now);
    let _ = cache.insert(&p2, &h2, now);
    let _ = cache.insert(&p3, &h3, now);

    let request = RelayRangeRequest {
        slot: 9,
        start_index: 4,
        end_index: 6,
    };
    let limits = RelayRangeLimits {
        max_request_span: 32,
        max_response_shreds: 8,
        max_response_bytes: p1.len(),
    };
    let result = cache
        .query_range(request, limits, now)
        .expect("query succeeds");
    assert_eq!(result, vec![p1]);
}

#[test]
fn query_exact_returns_matching_shred() {
    let p1 = build_data_shred_packet(10, 1, 1, 0, b"a");
    let p2 = build_data_shred_packet(10, 2, 1, 0, b"b");
    let h1 = parse_shred_header(&p1).expect("valid");
    let h2 = parse_shred_header(&p2).expect("valid");
    let mut cache = RecentShredRingBuffer::new(16, Duration::from_secs(2));
    let now = Instant::now();
    let _ = cache.insert(&p1, &h1, now);
    let _ = cache.insert(&p2, &h2, now);

    let found = cache.query_exact(10, 2, now).expect("exact match");
    assert_eq!(found, p2);
}

#[test]
fn query_highest_above_returns_greatest_index() {
    let p1 = build_data_shred_packet(11, 5, 1, 0, b"a");
    let p2 = build_data_shred_packet(11, 9, 1, 0, b"b");
    let p3 = build_data_shred_packet(11, 7, 1, 0, b"c");
    let h1 = parse_shred_header(&p1).expect("valid");
    let h2 = parse_shred_header(&p2).expect("valid");
    let h3 = parse_shred_header(&p3).expect("valid");
    let mut cache = RecentShredRingBuffer::new(16, Duration::from_secs(2));
    let now = Instant::now();
    let _ = cache.insert(&p1, &h1, now);
    let _ = cache.insert(&p2, &h2, after(now, 1));
    let _ = cache.insert(&p3, &h3, after(now, 2));

    let (index, found) = cache
        .query_highest_above(11, 6, after(now, 3))
        .expect("highest above threshold");
    assert_eq!(index, 9);
    assert_eq!(found, p2);
}

#[test]
fn query_range_rejects_span_above_limit() {
    let mut cache = RecentShredRingBuffer::new(4, Duration::from_secs(2));
    let request = RelayRangeRequest {
        slot: 1,
        start_index: 1,
        end_index: 4,
    };
    let limits = RelayRangeLimits {
        max_request_span: 2,
        max_response_shreds: 64,
        max_response_bytes: 1_000_000,
    };
    let error = cache
        .query_range(request, limits, Instant::now())
        .expect_err("span should fail");
    assert!(matches!(error, RelayRangeQueryError::SpanTooLarge { .. }));
}

#[test]
fn shared_query_exact_prefers_latest_seen_at_for_same_slot_and_index() {
    let packet_old = build_data_shred_packet(12, 42, 1, 0, b"old");
    let packet_new = build_data_shred_packet(12, 42, 2, 0, b"new");
    let header_old = parse_shred_header(&packet_old).expect("valid");
    let header_new = parse_shred_header(&packet_new).expect("valid");
    let mut cache = SharedRelayCache::new(RecentShredRingBuffer::new(16, Duration::from_secs(2)));
    let now = Instant::now();
    assert!(cache.insert(&packet_old, &header_old, now).inserted);
    assert!(
        cache
            .insert(&packet_new, &header_new, after(now, 1))
            .inserted
    );

    let found = cache
        .query_exact(12, 42, after(now, 2))
        .expect("exact match");
    assert_eq!(found, packet_new);
}

#[test]
fn shared_query_highest_above_prefers_highest_index_then_latest_seen_at() {
    let packet_mid = build_data_shred_packet(13, 7, 1, 0, b"mid");
    let packet_old_top = build_data_shred_packet(13, 9, 1, 0, b"old-top");
    let packet_new_top = build_data_shred_packet(13, 9, 2, 0, b"new-top");
    let header_mid = parse_shred_header(&packet_mid).expect("valid");
    let header_old_top = parse_shred_header(&packet_old_top).expect("valid");
    let header_new_top = parse_shred_header(&packet_new_top).expect("valid");
    let mut cache = SharedRelayCache::new(RecentShredRingBuffer::new(16, Duration::from_secs(2)));
    let now = Instant::now();
    assert!(cache.insert(&packet_mid, &header_mid, now).inserted);
    assert!(
        cache
            .insert(
                &packet_old_top,
                &header_old_top,
                after(now, 1),
            )
            .inserted
    );
    assert!(
        cache
            .insert(
                &packet_new_top,
                &header_new_top,
                after(now, 2),
            )
            .inserted
    );

    let (index, found) = cache
        .query_highest_above(13, 6, after(now, 3))
        .expect("highest above threshold");
    assert_eq!(index, 9);
    assert_eq!(found, packet_new_top);
}

fn build_data_shred_packet(
    slot: u64,
    index: u32,
    fec_set_index: u32,
    parent_offset: u16,
    payload: &[u8],
) -> Vec<u8> {
    let total = SIZE_OF_DATA_SHRED_HEADERS.saturating_add(payload.len());
    let size = u16::try_from(total).expect("test packet too large");
    let mut packet = vec![0_u8; SIZE_OF_DATA_SHRED_PAYLOAD];

    // Distinguish signatures across test packets without constructing real signatures.
    packet[0..8].copy_from_slice(&slot.to_le_bytes());
    packet[8..12].copy_from_slice(&index.to_le_bytes());
    packet[12..16].copy_from_slice(&fec_set_index.to_le_bytes());
    packet[64] = VARIANT_MERKLE_DATA;
    packet[65..73].copy_from_slice(&slot.to_le_bytes());
    packet[73..77].copy_from_slice(&index.to_le_bytes());
    packet[77..79].copy_from_slice(&1_u16.to_le_bytes());
    packet[79..83].copy_from_slice(&fec_set_index.to_le_bytes());
    packet[83..85].copy_from_slice(&parent_offset.to_le_bytes());
    packet[85] = 0b0100_0000;
    packet[86..88].copy_from_slice(&size.to_le_bytes());
    let end = 88usize.saturating_add(payload.len());
    packet[88..end].copy_from_slice(payload);
    packet
}

#[test]
fn short_packet_is_not_cached() {
    let packet = build_data_shred_packet(1, 2, 3, 0, b"x");
    let header = parse_shred_header(&packet).expect("valid");
    let mut cache = RecentShredRingBuffer::new(4, Duration::from_secs(2));
    let outcome = cache.insert(&packet[..64], &header, Instant::now());
    assert_eq!(outcome, CacheInsertOutcome::default());
    assert!(cache.is_empty());
    assert!(make_cached_shred_key(&packet[..65], &header).is_some());
}

#[test]
fn key_spells_the_signature_from_its_high_byte() {
    let mut packet = vec![0_u8; 65];
    packet[0] = 1;
    packet[15] = 2;
    packet[16] = 3;
    packet[63] = 4;
    packet[64] = 5;
    let header = ParsedShredHeader::Data(ParsedDataShredHeader {
        common: ShredCommonHeader { slot: 6, index: 7, version: 8, fec_set_index: 9 },
    });
    let key = make_cached_shred_key(&packet, &header);
    assert_eq!(key, Some(((1 << 120) + 2, 3 << 120, 0, 4, 6, 7, 9, 8, 5)));
}

#[test]
fn reversed_range_is_refused() {
    let limits = RelayRangeLimits {
        max_request_span: 2,
        max_response_shreds: 1,
        max_response_bytes: 1,
    };
    let request = RelayRangeRequest { slot: 1, start_index: 4, end_index: 3 };
    let mut cache = RecentShredRingBuffer::new(4, Duration::from_secs(2));
    let error = cache.query_range(request, limits, Instant::now()).expect_err("reversed");
    assert_eq!(error, RelayRangeQueryError::InvalidRange { start_index: 4, end_index: 3 });
    assert_eq!(
        error.to_text(),
        "invalid relay range request; start_index=4 end_index=3"
    );
    let span = RelayRangeQueryError::SpanTooLarge { span: 4, max_request_span: 2 };
    assert_eq!(
        span.to_text(),
        "relay range span 4 exceeds configured max_request_span 2"
    );
    let whole = RelayRangeRequest { slot: 1, start_index: 0, end_index: u32::MAX };
    let wide = RelayRangeLimits { max_request_span: u32::MAX, ..limits };
    assert!(cache.query_range(whole, wide, Instant::now()).is_ok());
}

#[test]
fn shared_cache_takes_over_and_answers_alike() {
    let base = Instant::from_nanos(1_000);
    let mut ring = RecentShredRingBuffer::new(16, Duration::from_secs(2));
    let mut packets = Vec::new();
    for (at, index) in [(0_u64, 6_u32), (1, 4), (2, 5)] {
        let packet = build_data_shred_packet(9, index, 1, 0, b"abc");
        let header = parse_shred_header(&packet).expect("valid");
        assert!(ring.insert(&packet, &header, after(base, at)).inserted);
        packets.push(packet);
    }
    let mut shared = SharedRelayCache::new(ring);
    assert_eq!(shared.len(), 3);
    assert!(!shared.is_empty());
    let now = after(base, 3);
    let request = RelayRangeRequest { slot: 9, start_index: 0, end_index: 9 };
    let limits = RelayRangeLimits {
        max_request_span: 32,
        max_response_shreds: 2,
        max_response_bytes: 1_000_000,
    };
    let found = shared.query_range(request, limits, now).expect("range");
    assert_eq!(found, vec![packets[1].clone(), packets[2].clone()]);
    assert_eq!(shared.query_exact(9, 6, now), Some(packets[0].clone()));
    assert_eq!(shared.query_exact(9, 7, now), None);
    assert_eq!(shared.query_highest_above(9, 5, now), Some((6, packets[0].clone())));
    assert_eq!(shared.query_highest_above(9, 6, now), None);
    assert_eq!(shared.query_highest_above_shared(9, 4, now).map(|(index, _)| index), Some(6));
}

#[test]
fn shared_cache_drops_old_and_surplus_packets() {
    let base = Instant::from_nanos(0);
    let mut shared = SharedRelayCache::new(RecentShredRingBuffer::new(2, Duration::from_millis(5)));
    let packet = |index: u32| build_data_shred_packet(9, index, 1, 0, b"abc");
    let offer = |cache: &mut SharedRelayCache, index: u32, at: u64| {
        let bytes = packet(index);
        let header = parse_shred_header(&bytes).expect("valid");
        cache.insert(&bytes, &header, after(base, at))
    };
    assert_eq!(offer(&mut shared, 1, 0).evicted, 0);
    assert_eq!(offer(&mut shared, 2, 1).evicted, 0);
    let third = offer(&mut shared, 3, 2);
    assert_eq!((third.inserted, third.replaced, third.evicted), (true, false, 1));
    assert_eq!(shared.query_exact(9, 1, after(base, 2)), None);
    let again = offer(&mut shared, 2, 3);
    assert_eq!((again.inserted, again.replaced, again.evicted), (false, true, 0));
    let late = offer(&mut shared, 4, 7);
    assert_eq!((late.inserted, late.evicted), (true, 1));
    assert_eq!(shared.query_exact(9, 3, after(base, 7)), None);
    assert_eq!(shared.query_exact(9, 2, after(base, 7)), Some(packet(2)));
    assert_eq!(shared.query_exact(9, 2, after(base, 8)), None);
    assert_eq!(shared.len(), 1);
}

#[test]
fn shared_range_honours_its_byte_limit() {
    let base = Instant::from_nanos(0);
    let mut shared = SharedRelayCache::new(RecentShredRingBuffer::new(8, Duration::from_secs(5)));
    for index in 0..3 {
        let packet = build_data_shred_packet(9, index, 1, 0, b"abc");
        let header = parse_shred_header(&packet).expect("valid");
        let _ = shared.insert(&packet, &header, after(base, u64::from(index)));
    }
    let request = RelayRangeRequest { slot: 9, start_index: 0, end_index: 2 };
    let limits = RelayRangeLimits {
        max_request_span: 3,
        max_response_shreds: 9,
        max_response_bytes: 2 * SIZE_OF_DATA_SHRED_PAYLOAD,
    };
    let found = shared.query_range_shared(request, limits, after(base, 3)).expect("range");
    assert_eq!(found.len(), 2);
    let narrow = RelayRangeLimits { max_request_span: 2, ..limits };
    assert!(shared.query_range(request, narrow, after(base, 3)).is_err());
}

#[test]
fn cached_packet_is_found_at_once() {
    let packet = build_data_shred_packet(9, 1, 1, 0, b"abc");
    let header = parse_shred_header(&packet).expect("valid");
    let now = Instant::from_nanos(77);
    let mut ring = RecentShredRingBuffer::new(1, Duration::from_nanos(1));
    let _ = ring.insert(&packet, &header, now);
    assert_eq!(ring.query_exact(9, 1, now), Some(packet.clone()));
    let mut shared = SharedRelayCache::new(RecentShredRingBuffer::new(1, Duration::from_nanos(1)));
    let _ = shared.insert(&packet, &header, now);
    assert_eq!(shared.query_exact_shared(9, 1, now).map(|bytes| bytes.to_vec()), Some(packet));
}

#[test]
fn frames_start_with_their_length() {
    assert_eq!(frame_packet(b"abc", MAX_FRAME_SIZE), Some(b"\x00\x03abc".to_vec()));
    assert_eq!(frame_packet(b"", MAX_FRAME_SIZE), None);
    let long = vec![7_u8; 300];
    let framed = frame_packet(&long, MAX_FRAME_SIZE).expect("frame");
    assert_eq!(framed[..2], [1, 44]);
    assert_eq!(framed.len(), 302);
    assert_eq!(frame_packet(&long, 299), None);
    assert_eq!(frame_packet(&vec![0_u8; 65_536], MAX_FRAME_SIZE), None);
    assert_eq!(
        frame_packet(&vec![0_u8; 65_535], MAX_FRAME_SIZE).map(|bytes| (bytes[0], bytes[1])),
        Some((255, 255))
    );
}

#[test]
fn nothing_is_above_the_last_index() {
    let now = Instant::from_nanos(5);
    let packet = build_data_shred_packet(9, u32::MAX, 1, 0, b"abc");
    let header = parse_shred_header(&packet).expect("valid");
    let mut ring = RecentShredRingBuffer::new(4, Duration::from_secs(1));
    assert!(ring.insert(&packet, &header, now).inserted);
    assert_eq!(ring.query_highest_above(9, u32::MAX, now), None);
    assert_eq!(ring.query_highest_above(9, u32::MAX - 1, now), Some((u32::MAX, packet.clone())));
    let mut shared = SharedRelayCache::new(ring);
    assert_eq!(shared.query_highest_above(9, u32::MAX, now), None);
    assert_eq!(shared.query_highest_above(9, u32::MAX - 1, now), Some((u32::MAX, packet)));
}

#[test]
fn insert_never_leaves_more_than_the_capacity() {
    let mut ring = RecentShredRingBuffer::new(2, Duration::from_secs(1));
    let mut shared = SharedRelayCache::new(RecentShredRingBuffer::new(2, Duration::from_secs(1)));
    for index in 0..5_u32 {
        let packet = build_data_shred_packet(9, index, 1, 0, b"abc");
        let header = parse_shred_header(&packet).expect("valid");
        let now = Instant::from_nanos(u64::from(index));
        let _ = ring.insert(&packet, &header, now);
        let _ = shared.insert(&packet, &header, now);
        assert!(ring.len() <= 2);
        assert!(shared.len() <= 2);
    }
}
