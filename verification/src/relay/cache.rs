//! A cache of recent shreds.
pub mod key;
pub mod laws;
pub mod ring;
pub mod shared;

use crate::reassembly::fragment::{capped, total_bytes, total_bytes_splits};
use crate::relay::cache::key::CachedShredKey;
use crate::text::{decimal, decimal_text, joined, joined3};
use std::sync::Arc;
use vstd::prelude::*;

verus! {

/// A request for the shreds of a slot from one index to another.
#[derive(Debug, Clone, Copy, PartialEq, Eq, Structural)]
pub struct RelayRangeRequest {
    /// Slot.
    pub slot: u64,
    /// First index.
    pub start_index: u32,
    /// Last index.
    pub end_index: u32,
}

/// Bounds on requests and answers.
#[derive(Debug, Clone, Copy, PartialEq, Eq, Structural)]
pub struct RelayRangeLimits {
    /// Most indexes in a request.
    pub max_request_span: u32,
    /// Most shreds in an answer.
    pub max_response_shreds: usize,
    /// Most bytes in an answer.
    pub max_response_bytes: usize,
}

/// Why a request is refused.
#[derive(Debug, Clone, Copy, PartialEq, Eq, Structural)]
pub enum RelayRangeQueryError {
    /// It ends before it starts.
    InvalidRange {
        /// First index.
        start_index: u32,
        /// Last index.
        end_index: u32,
    },
    /// It asks for too many indexes.
    SpanTooLarge {
        /// How many it asks for.
        span: u32,
        /// How many are allowed.
        max_request_span: u32,
    },
}

impl RelayRangeQueryError {
    /// What the error says.
    pub open spec fn text(self) -> Seq<char> {
        match self {
            RelayRangeQueryError::InvalidRange { start_index, end_index } => {
                "invalid relay range request; start_index="@ + (decimal_text(start_index as nat)
                    + " end_index="@ + decimal_text(end_index as nat))
            },
            RelayRangeQueryError::SpanTooLarge { span, max_request_span } => {
                "relay range span "@ + (decimal_text(span as nat)
                    + " exceeds configured max_request_span "@ + decimal_text(max_request_span as nat))
            },
        }
    }

    /// What the error says.
    pub fn to_text(&self) -> (r: String)
        ensures
            r@ == self.text(),
    {
        match self {
            RelayRangeQueryError::InvalidRange { start_index, end_index } => {
                let start = decimal(*start_index as u64);
                let end = decimal(*end_index as u64);
                let tail = joined3(start.as_str(), " end_index=", end.as_str());
                joined("invalid relay range request; start_index=", tail.as_str())
            },
            RelayRangeQueryError::SpanTooLarge { span, max_request_span } => {
                let span = decimal(*span as u64);
                let max = decimal(*max_request_span as u64);
                let tail = joined3(span.as_str(), " exceeds configured max_request_span ", max.as_str());
                joined("relay range span ", tail.as_str())
            },
        }
    }
}

/// What became of a packet that was offered to a cache.
#[derive(Debug, Clone, Copy, PartialEq, Eq, Structural)]
pub struct CacheInsertOutcome {
    /// Whether it is new.
    pub inserted: bool,
    /// Whether it took the place of one with the same key.
    pub replaced: bool,
    /// How many others were dropped.
    pub evicted: usize,
}

impl Default for CacheInsertOutcome {
    fn default() -> (r: Self)
        ensures
            r == (CacheInsertOutcome { inserted: false, replaced: false, evicted: 0 }),
    {
        CacheInsertOutcome { inserted: false, replaced: false, evicted: 0 }
    }
}

/// Whether a packet seen at one time has been kept for the span `ttl` at another.
pub open spec fn expired(now: u128, seen: u128, ttl: nat) -> bool {
    (if now >= seen {
        now - seen
    } else {
        0
    }) >= ttl
}

/// The number of indexes in a request that does not end before it starts.
pub open spec fn request_span(request: RelayRangeRequest) -> u32 {
    if request.end_index - request.start_index + 1 <= u32::MAX {
        (request.end_index - request.start_index + 1) as u32
    } else {
        u32::MAX
    }
}

/// Why a request is refused, if it is.
pub open spec fn refusal(request: RelayRangeRequest, limits: RelayRangeLimits) -> Option<RelayRangeQueryError> {
    if request.start_index > request.end_index {
        Some(
            RelayRangeQueryError::InvalidRange {
                start_index: request.start_index,
                end_index: request.end_index,
            },
        )
    } else if request_span(request) > limits.max_request_span {
        Some(
            RelayRangeQueryError::SpanTooLarge {
                span: request_span(request),
                max_request_span: limits.max_request_span,
            },
        )
    } else {
        None
    }
}

/// Says why a request is refused, if it is.
pub fn check_request(request: RelayRangeRequest, limits: RelayRangeLimits) -> (r: Option<RelayRangeQueryError>)
    ensures
        r == refusal(request, limits),
{
    if request.start_index > request.end_index {
        return Some(
            RelayRangeQueryError::InvalidRange {
                start_index: request.start_index,
                end_index: request.end_index,
            },
        );
    }
    let span: u32 = (request.end_index - request.start_index).saturating_add(1);
    if span > limits.max_request_span {
        return Some(
            RelayRangeQueryError::SpanTooLarge { span, max_request_span: limits.max_request_span },
        );
    }
    None
}

/// Whether a key lies in a requested range.
pub open spec fn in_range(key: CachedShredKey, request: RelayRangeRequest) -> bool {
    key.4 == request.slot && request.start_index <= key.5 <= request.end_index
}

/// How many packets of a row an answer holds: packets are added until there are enough of them,
/// or the next one would make too many bytes.
pub open spec fn fit_count(row: Seq<Seq<u8>>, limits: RelayRangeLimits, count: nat, bytes: usize) -> nat
    decreases row.len() - count,
{
    if count >= row.len() || count >= limits.max_response_shreds || capped(
        bytes as nat + row[count as int].len(),
    ) > limits.max_response_bytes {
        count
    } else {
        fit_count(row, limits, count + 1, capped(bytes as nat + row[count as int].len()))
    }
}

/// The packets of a row that an answer holds.
pub open spec fn answer(row: Seq<Seq<u8>>, limits: RelayRangeLimits) -> Seq<Seq<u8>> {
    row.take(fit_count(row, limits, 0, 0) as int)
}

/// The views of shared packets.
pub open spec fn shared_views(packets: Seq<Arc<[u8]>>) -> Seq<Seq<u8>> {
    packets.map_values(|packet: Arc<[u8]>| packet@)
}

/// The views of packets.
pub open spec fn packet_views(packets: Seq<Vec<u8>>) -> Seq<Seq<u8>> {
    packets.map_values(|packet: Vec<u8>| packet@)
}

/// Copies shared packets.
pub(crate) fn copy_packets(packets: &Vec<Arc<[u8]>>) -> (r: Vec<Vec<u8>>)
    ensures
        packet_views(r@) == shared_views(packets@),
{
    let mut copies: Vec<Vec<u8>> = Vec::with_capacity(packets.len());
    let mut i: usize = 0;
    while i < packets.len()
        invariant
            i <= packets@.len(),
            copies@.len() == i,
            forall|k: int| 0 <= k < i ==> (#[trigger] copies@[k])@ == packets@[k]@,
        decreases packets@.len() - i,
    {
        copies.push(vstd::slice::slice_to_vec(&packets[i]));
        i += 1;
    }
    assert(packet_views(copies@) =~= shared_views(packets@));
    copies
}

proof fn fit_count_goes_as_far_as_it_can(
    row: Seq<Seq<u8>>,
    limits: RelayRangeLimits,
    count: nat,
    bytes: usize,
)
    requires
        count <= row.len(),
        count <= limits.max_response_shreds,
        bytes == capped(total_bytes(row.take(count as int))),
        bytes <= limits.max_response_bytes,
    ensures
        ({
            let n = fit_count(row, limits, count, bytes);
            &&& count <= n <= row.len()
            &&& n <= limits.max_response_shreds
            &&& capped(total_bytes(row.take(n as int))) <= limits.max_response_bytes
            &&& n < row.len() && n < limits.max_response_shreds ==> capped(
                total_bytes(row.take((n + 1) as int)),
            ) > limits.max_response_bytes
        }),
    decreases row.len() - count,
{
    if count < row.len() {
        let longer = row.take((count + 1) as int);
        total_bytes_splits(longer, count as int);
        assert(longer.take(count as int) =~= row.take(count as int));
        let tail = longer.skip(count as int);
        assert(tail.len() == 1 && tail[0] == row[count as int]);
        assert(tail.skip(1) =~= Seq::<Seq<u8>>::empty());
        assert(total_bytes(tail.skip(1)) == 0);
        assert(total_bytes(tail) == row[count as int].len());
        assert(capped(bytes as nat + row[count as int].len()) == capped(total_bytes(longer)));
        if count < limits.max_response_shreds && capped(bytes as nat + row[count as int].len())
            <= limits.max_response_bytes {
            fit_count_goes_as_far_as_it_can(
                row,
                limits,
                count + 1,
                capped(bytes as nat + row[count as int].len()),
            );
        }
    }
}

/// An answer is the longest start of the row that stays within the limits: it holds no more
/// packets and no more bytes than allowed, and with one packet more it would, unless there is
/// none.
pub proof fn answer_is_the_longest_fit(row: Seq<Seq<u8>>, limits: RelayRangeLimits)
    ensures
        ({
            let n = answer(row, limits).len() as int;
            &&& n <= row.len()
            &&& answer(row, limits) == row.take(n)
            &&& n <= limits.max_response_shreds
            &&& capped(total_bytes(row.take(n))) <= limits.max_response_bytes
            &&& n < row.len() && n < limits.max_response_shreds ==> capped(total_bytes(row.take(n + 1)))
                > limits.max_response_bytes
        }),
{
    assert(row.take(0) =~= Seq::<Seq<u8>>::empty());
    assert(total_bytes(row.take(0)) == 0);
    fit_count_goes_as_far_as_it_can(row, limits, 0, 0);
}

/// A packet has been kept long enough once the span has passed since it was seen, and not before.
pub proof fn packets_expire_after_their_span(now: u128, seen: u128, ttl: nat)
    ensures
        expired(now, seen, ttl) <==> ttl == 0 || now >= seen + ttl,
{
}

/// A request is refused exactly if it ends before it starts or asks for more indexes than allowed,
/// and the error says with which numbers.
pub proof fn requests_are_refused_for_a_reason(request: RelayRangeRequest, limits: RelayRangeLimits)
    ensures
        refusal(request, limits) is None <==> request.start_index <= request.end_index && (request.end_index
            - request.start_index < limits.max_request_span || limits.max_request_span == u32::MAX),
        request.start_index > request.end_index ==> refusal(request, limits) == Some(
            RelayRangeQueryError::InvalidRange {
                start_index: request.start_index,
                end_index: request.end_index,
            },
        ),
        refusal(request, limits) matches Some(RelayRangeQueryError::SpanTooLarge { span, max_request_span })
            ==> max_request_span == limits.max_request_span && span > max_request_span && (span
            == request.end_index - request.start_index + 1 || span == u32::MAX),
{
}

/// A key lies in a requested range exactly if its slot is the requested one and its index is neither
/// before the first nor behind the last requested one.
pub proof fn requested_keys_are_in_range(key: CachedShredKey, request: RelayRangeRequest)
    ensures
        in_range(key, request) ==> key.4 == request.slot,
        key.4 == request.slot && key.5 >= request.start_index && key.5 <= request.end_index ==> in_range(
            key,
            request,
        ),
        in_range(key, request) ==> !(key.5 < request.start_index) && !(key.5 > request.end_index),
{
}

} // verus!
