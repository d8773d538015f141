//! What a receiver counts.
use crate::time::current_unix_ms;
use vstd::prelude::*;

verus! {

/// The counters of a receiver. They wrap around. There is no copy of them that would count on its
/// own: whoever counts or reads shares the one value.
#[derive(Debug)]
pub struct ReceiverTelemetry {
    packets: u64,
    last_packet_unix_ms: u64,
    dropped_packets: u64,
    dropped_batches: u64,
    sent_batches: u64,
    sent_packets: u64,
    rxq_ovfl_drops: u64,
}

/// The counters of a receiver in specifications.
pub struct TelemetryView {
    /// Packets that came.
    pub packets: u64,
    /// When the last one came, in milliseconds of Unix time.
    pub last_packet_unix_ms: u64,
    /// Packets in batches that were dropped.
    pub dropped_packets: u64,
    /// Batches that were dropped.
    pub dropped_batches: u64,
    /// Batches that were sent on.
    pub sent_batches: u64,
    /// Packets in batches that were sent on.
    pub sent_packets: u64,
    /// Packets that the kernel dropped.
    pub rxq_ovfl_drops: u64,
}

impl View for ReceiverTelemetry {
    type V = TelemetryView;

    closed spec fn view(&self) -> TelemetryView {
        TelemetryView {
            packets: self.packets,
            last_packet_unix_ms: self.last_packet_unix_ms,
            dropped_packets: self.dropped_packets,
            dropped_batches: self.dropped_batches,
            sent_batches: self.sent_batches,
            sent_packets: self.sent_packets,
            rxq_ovfl_drops: self.rxq_ovfl_drops,
        }
    }
}

/// A counter that wraps around, some more.
pub open spec fn counted_up(count: u64, more: nat) -> u64 {
    ((count + more) % 0x1_0000_0000_0000_0000) as u64
}

impl TelemetryView {
    /// The counters after packets came.
    pub open spec fn with_packets(self, count: usize, unix_ms: u64) -> Self {
        TelemetryView {
            packets: counted_up(self.packets, count as nat),
            last_packet_unix_ms: unix_ms,
            ..self
        }
    }

    /// The counters after a batch was sent on, or dropped.
    pub open spec fn with_batch(self, sent: bool, count: usize) -> Self {
        if sent {
            TelemetryView {
                sent_batches: counted_up(self.sent_batches, 1),
                sent_packets: counted_up(self.sent_packets, count as nat),
                ..self
            }
        } else {
            TelemetryView {
                dropped_batches: counted_up(self.dropped_batches, 1),
                dropped_packets: counted_up(self.dropped_packets, count as nat),
                ..self
            }
        }
    }
}

impl Default for ReceiverTelemetry {
    fn default() -> (r: Self)
        ensures
            r@ == (TelemetryView {
                packets: 0,
                last_packet_unix_ms: 0,
                dropped_packets: 0,
                dropped_batches: 0,
                sent_batches: 0,
                sent_packets: 0,
                rxq_ovfl_drops: 0,
            }),
    {
        ReceiverTelemetry {
            packets: 0,
            last_packet_unix_ms: 0,
            dropped_packets: 0,
            dropped_batches: 0,
            sent_batches: 0,
            sent_packets: 0,
            rxq_ovfl_drops: 0,
        }
    }
}

fn count_up(count: u64, more: u64) -> (r: u64)
    ensures
        r == counted_up(count, more as nat),
{
    count.wrapping_add(more)
}

impl ReceiverTelemetry {
    /// How many packets came, and when the last one did, in milliseconds of Unix time.
    #[must_use]
    pub fn snapshot(&self) -> (r: (u64, u64))
        ensures
            r == (self@.packets, self@.last_packet_unix_ms),
    {
        (self.packets, self.last_packet_unix_ms)
    }

    /// Packets in batches that were dropped.
    #[must_use]
    pub fn dropped_packets(&self) -> (r: u64)
        ensures
            r == self@.dropped_packets,
    {
        self.dropped_packets
    }

    /// Batches that were dropped.
    #[must_use]
    pub fn dropped_batches(&self) -> (r: u64)
        ensures
            r == self@.dropped_batches,
    {
        self.dropped_batches
    }

    /// Packets in batches that were sent on.
    #[must_use]
    pub fn sent_packets(&self) -> (r: u64)
        ensures
            r == self@.sent_packets,
    {
        self.sent_packets
    }

    /// Batches that were sent on.
    #[must_use]
    pub fn sent_batches(&self) -> (r: u64)
        ensures
            r == self@.sent_batches,
    {
        self.sent_batches
    }

    /// Packets that the kernel dropped.
    #[must_use]
    pub fn rxq_ovfl_drops(&self) -> (r: u64)
        ensures
            r == self@.rxq_ovfl_drops,
    {
        self.rxq_ovfl_drops
    }

    /// Counts a packet that came now.
    pub fn record_packet(&mut self)
        ensures
            exists|unix_ms: u64| final(self)@ == #[trigger] old(self)@.with_packets(1, unix_ms),
    {
        self.record_packets(1);
    }

    /// Counts packets that came now.
    pub fn record_packets(&mut self, packet_count: usize)
        ensures
            exists|unix_ms: u64|
                final(self)@ == #[trigger] old(self)@.with_packets(packet_count, unix_ms),
    {
        let now: u64 = current_unix_ms();
        self.record_packets_at(packet_count, now);
    }

    /// Counts packets that came at a time, in milliseconds of Unix time.
    pub fn record_packets_at(&mut self, packet_count: usize, unix_ms: u64)
        ensures
            final(self)@ == old(self)@.with_packets(packet_count, unix_ms),
    {
        self.packets = count_up(self.packets, packet_count as u64);
        self.last_packet_unix_ms = unix_ms;
    }

    /// Counts a batch that was sent on.
    pub fn record_sent_batch(&mut self, packet_count: usize)
        ensures
            final(self)@ == old(self)@.with_batch(true, packet_count),
    {
        self.sent_batches = count_up(self.sent_batches, 1);
        self.sent_packets = count_up(self.sent_packets, packet_count as u64);
    }

    /// Counts a batch that was dropped.
    pub fn record_dropped_batch(&mut self, packet_count: usize)
        ensures
            final(self)@ == old(self)@.with_batch(false, packet_count),
    {
        self.dropped_batches = count_up(self.dropped_batches, 1);
        self.dropped_packets = count_up(self.dropped_packets, packet_count as u64);
    }

    /// Counts a batch that was sent on, or dropped.
    pub fn record_flush(&mut self, sent: bool, packet_count: usize)
        ensures
            final(self)@ == old(self)@.with_batch(sent, packet_count),
    {
        if sent {
            self.record_sent_batch(packet_count);
        } else {
            self.record_dropped_batch(packet_count);
        }
    }

    /// Counts packets that the kernel dropped.
    pub fn record_rxq_ovfl_drops(&mut self, drop_count: u64)
        ensures
            final(self)@ == (TelemetryView {
                rxq_ovfl_drops: counted_up(old(self)@.rxq_ovfl_drops, drop_count as nat),
                ..old(self)@
            }),
    {
        self.rxq_ovfl_drops = count_up(self.rxq_ovfl_drops, drop_count);
    }
}

/// Every packet of a batch is counted once, as sent or as dropped, as long as no counter wraps
/// around.
pub proof fn batches_are_counted_once(before: TelemetryView, sent: bool, count: usize)
    requires
        before.sent_packets + count <= u64::MAX,
        before.dropped_packets + count <= u64::MAX,
        before.sent_batches < u64::MAX,
        before.dropped_batches < u64::MAX,
    ensures
        before.with_batch(sent, count).sent_packets + before.with_batch(sent, count).dropped_packets
            == before.sent_packets + before.dropped_packets + count,
        before.with_batch(sent, count).sent_batches + before.with_batch(sent, count).dropped_batches
            == before.sent_batches + before.dropped_batches + 1,
{
}

/// A counter goes up by what is counted; past the most it can hold it goes on from zero.
pub proof fn counters_go_up(count: u64, more: nat)
    requires
        more <= u64::MAX,
    ensures
        count + more <= u64::MAX ==> counted_up(count, more) == count + more,
        count + more > u64::MAX ==> counted_up(count, more) == count + more - u64::MAX - 1,
{
}

/// What is counted where: packets that came in the packets, with the time of the last; the packets of a
/// batch that was sent on, and the batch, in the sent ones; those of one that was dropped in the dropped
/// ones; and nothing else changes.
pub proof fn counters_count_their_own(before: TelemetryView, count: usize, unix_ms: u64)
    ensures
        ({
            let came = before.with_packets(count, unix_ms);
            &&& came.packets == counted_up(before.packets, count as nat)
            &&& came.last_packet_unix_ms == unix_ms
            &&& came.sent_packets == before.sent_packets && came.sent_batches == before.sent_batches
            &&& came.dropped_packets == before.dropped_packets && came.dropped_batches
                == before.dropped_batches
            &&& came.rxq_ovfl_drops == before.rxq_ovfl_drops
        }),
        ({
            let sent = before.with_batch(true, count);
            &&& sent.sent_packets == counted_up(before.sent_packets, count as nat)
            &&& sent.sent_batches == counted_up(before.sent_batches, 1)
            &&& sent.dropped_packets == before.dropped_packets && sent.dropped_batches
                == before.dropped_batches
            &&& sent.packets == before.packets && sent.last_packet_unix_ms == before.last_packet_unix_ms
            &&& sent.rxq_ovfl_drops == before.rxq_ovfl_drops
        }),
        ({
            let dropped = before.with_batch(false, count);
            &&& dropped.dropped_packets == counted_up(before.dropped_packets, count as nat)
            &&& dropped.dropped_batches == counted_up(before.dropped_batches, 1)
            &&& dropped.sent_packets == before.sent_packets && dropped.sent_batches == before.sent_batches
            &&& dropped.packets == before.packets && dropped.last_packet_unix_ms
                == before.last_packet_unix_ms
            &&& dropped.rxq_ovfl_drops == before.rxq_ovfl_drops
        }),
{
}

} // verus!
