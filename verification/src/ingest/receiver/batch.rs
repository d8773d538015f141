//! Batches of packets.
use crate::ingest::receiver::address::SourceAddress;
use crate::text::{decimal, decimal_text, joined, joined3};
use crossbeam_queue::ArrayQueue;
use vstd::prelude::*;

verus! {

/// How a packet came in.
#[derive(Debug, Clone, Copy, PartialEq, Eq, Structural)]
pub enum RawPacketIngress {
    /// Over UDP.
    Udp,
}

/// The bytes that a packet buffer holds.
pub const UDP_PACKET_BUFFER_BYTES: usize = 2048;

/// How many emptied batches are kept for reuse.
pub const RAW_PACKET_BATCH_RECYCLER_CAPACITY: usize = 256;

/// A packet of a batch.
#[derive(Debug, Clone, Copy)]
pub struct RawPacket {
    /// Where it came from.
    pub source: SourceAddress,
    /// How it came in.
    pub ingress: RawPacketIngress,
    /// The buffer that holds it.
    pub buffer_index: usize,
    /// Its length.
    pub len: usize,
}

/// Why a packet is refused.
#[derive(Debug, Clone, Copy, PartialEq, Eq, Structural)]
pub enum UdpReceiverError {
    /// It is longer than a buffer.
    InvalidPacketLength {
        /// Its length.
        len: usize,
        /// What a buffer holds.
        capacity: usize,
    },
    /// It did not come from an internet address.
    UnknownSource,
}

impl UdpReceiverError {
    /// What the error says.
    pub open spec fn text(self) -> Seq<char> {
        match self {
            UdpReceiverError::InvalidPacketLength { len, capacity } => {
                "invalid udp packet length "@ + (decimal_text(len as nat) + "; buffer capacity "@
                    + decimal_text(capacity as nat))
            },
            UdpReceiverError::UnknownSource => "udp recvmmsg source address is not inet/inet6"@,
        }
    }

    /// What the error says.
    pub fn to_text(&self) -> (r: String)
        ensures
            r@ == self.text(),
    {
        match self {
            UdpReceiverError::InvalidPacketLength { len, capacity } => {
                let len = decimal(*len as u64);
                let capacity = decimal(*capacity as u64);
                let tail = joined3(len.as_str(), "; buffer capacity ", capacity.as_str());
                joined("invalid udp packet length ", tail.as_str())
            },
            UdpReceiverError::UnknownSource => {
                "udp recvmmsg source address is not inet/inet6".to_owned()
            },
        }
    }
}

/// A batch of packets, each in a buffer of its own.
#[derive(Debug)]
pub struct RawPacketBatch {
    buffers: Vec<[u8; 2048]>,
    packets: Vec<RawPacket>,
}

/// A batch of packets in specifications.
pub struct BatchView {
    /// Buffers.
    pub buffers: Seq<[u8; 2048]>,
    /// Packets.
    pub packets: Seq<RawPacket>,
}

impl View for RawPacketBatch {
    type V = BatchView;

    closed spec fn view(&self) -> BatchView {
        BatchView { buffers: self.buffers@, packets: self.packets@ }
    }
}

/// An empty buffer.
pub open spec fn is_blank(buffer: [u8; 2048]) -> bool {
    buffer@ == Seq::new(2048, |i: int| 0u8)
}

impl BatchView {
    /// Whether there are exactly `count` buffers, all of them blank, and no packets.
    pub open spec fn is_blank(self, count: nat) -> bool {
        &&& self.buffers.len() == count
        &&& forall|i: int| 0 <= i < count ==> is_blank(#[trigger] self.buffers[i])
        &&& self.packets.len() == 0
    }

    /// Whether a batch is this one with blank buffers added, so that there are `needed` of them.
    pub open spec fn grows_to(self, needed: nat, after: BatchView) -> bool {
        &&& after.packets == self.packets
        &&& after.buffers.len() == if needed > self.buffers.len() {
            needed
        } else {
            self.buffers.len()
        }
        &&& forall|i: int|
            0 <= i < self.buffers.len() ==> #[trigger] after.buffers[i] == self.buffers[i]
        &&& forall|i: int|
            self.buffers.len() <= i < after.buffers.len() ==> is_blank(#[trigger] after.buffers[i])
    }

    /// The bytes of a packet.
    pub open spec fn bytes_of(self, packet: RawPacket) -> Seq<u8> {
        self.buffers[packet.buffer_index as int]@.take(packet.len as int)
    }

    /// Whether each packet stands in the buffer with its own number, and fits it.
    pub open spec fn in_place(self) -> bool {
        &&& self.packets.len() <= self.buffers.len()
        &&& forall|i: int|
            0 <= i < self.packets.len() ==> (#[trigger] self.packets[i]).buffer_index == i
                && self.packets[i].len <= 2048
    }
}

/// The sum of two counts, capped at what a `usize` holds.
pub open spec fn capped_sum(a: nat, b: nat) -> nat {
    if a + b <= usize::MAX {
        a + b
    } else {
        usize::MAX as nat
    }
}

impl RawPacketBatch {
    /// A batch with buffers for `capacity` packets.
    #[must_use]
    pub fn with_capacity(capacity: usize) -> (r: Self)
        ensures
            r@.is_blank(capacity as nat),
    {
        let mut batch = RawPacketBatch { buffers: Vec::new(), packets: Vec::new() };
        batch.add_buffers(capacity);
        batch
    }

    fn add_buffers(&mut self, needed: usize)
        ensures
            old(self)@.grows_to(needed as nat, final(self)@),
    {
        let ghost before = self@;
        while self.buffers.len() < needed
            invariant
                self@.packets == before.packets,
                self.buffers@.len() >= before.buffers.len(),
                self.buffers@.len() <= needed || self.buffers@.len() == before.buffers.len(),
                forall|i: int|
                    0 <= i < before.buffers.len() ==> #[trigger] self.buffers@[i] == before.buffers[i],
                forall|i: int|
                    before.buffers.len() <= i < self.buffers@.len() ==> is_blank(#[trigger] self.buffers@[i]),
            decreases needed - self.buffers@.len(),
        {
            let blank: [u8; 2048] = [0u8; 2048];
            assert(blank@ =~= Seq::new(2048, |i: int| 0u8));
            self.buffers.push(blank);
        }
    }

    /// How many packets there are.
    #[must_use]
    pub fn len(&self) -> (r: usize)
        ensures
            r == self@.packets.len(),
    {
        self.packets.len()
    }

    /// Whether there are no packets.
    #[must_use]
    pub fn is_empty(&self) -> (r: bool)
        ensures
            r == (self@.packets.len() == 0),
    {
        self.packets.len() == 0
    }

    /// How many buffers there are.
    #[must_use]
    pub fn buffer_count(&self) -> (r: usize)
        ensures
            r == self@.buffers.len(),
    {
        self.buffers.len()
    }

    /// Forgets the packets and keeps the buffers.
    pub fn clear(&mut self)
        ensures
            final(self)@ == (BatchView { packets: Seq::empty(), ..old(self)@ }),
    {
        self.packets.clear();
    }

    /// Makes sure that there are buffers for some more packets.
    pub fn reserve(&mut self, additional: usize)
        ensures
            old(self)@.grows_to(
                capped_sum(old(self)@.packets.len(), additional as nat),
                final(self)@,
            ),
    {
        let needed: usize = self.packets.len().saturating_add(additional);
        self.add_buffers(needed);
    }

    /// Makes sure that there are buffers for some more packets, and says which one is the first.
    pub fn ensure_receive_slots(&mut self, additional: usize) -> (r: usize)
        ensures
            old(self)@.grows_to(
                capped_sum(old(self)@.packets.len(), additional as nat),
                final(self)@,
            ),
            r == old(self)@.packets.len(),
    {
        let start_index: usize = self.packets.len();
        self.reserve(additional);
        start_index
    }

    /// The buffer to receive a packet in.
    pub fn receive_buffer_mut(&mut self, buffer_index: usize) -> (r: Option<&mut [u8; 2048]>)
        ensures
            match r {
                Some(buffer) => {
                    &&& buffer_index < old(self)@.buffers.len()
                    &&& *buffer == old(self)@.buffers[buffer_index as int]
                    &&& final(self)@ == (BatchView {
                        buffers: old(self)@.buffers.update(buffer_index as int, *final(buffer)),
                        ..old(self)@
                    })
                },
                None => buffer_index >= old(self)@.buffers.len() && final(self)@ == old(self)@,
            },
    {
        if buffer_index < self.buffers.len() {
            Some(&mut self.buffers[buffer_index])
        } else {
            None
        }
    }

    /// Notes a packet that stands in a buffer.
    pub fn push_received_metadata(
        &mut self,
        source: SourceAddress,
        ingress: RawPacketIngress,
        buffer_index: usize,
        len: usize,
    ) -> (r: Result<(), UdpReceiverError>)
        ensures
            match r {
                Ok(()) => {
                    &&& len <= UDP_PACKET_BUFFER_BYTES
                    &&& final(self)@ == (BatchView {
                        packets: old(self)@.packets.push(
                            RawPacket { source, ingress, buffer_index, len },
                        ),
                        ..old(self)@
                    })
                },
                Err(error) => {
                    &&& len > UDP_PACKET_BUFFER_BYTES
                    &&& error == (UdpReceiverError::InvalidPacketLength {
                        len,
                        capacity: UDP_PACKET_BUFFER_BYTES,
                    })
                    &&& final(self)@ == old(self)@
                },
            },
    {
        if len > UDP_PACKET_BUFFER_BYTES {
            return Err(
                UdpReceiverError::InvalidPacketLength { len, capacity: UDP_PACKET_BUFFER_BYTES },
            );
        }
        self.packets.push(RawPacket { source, ingress, buffer_index, len });
        Ok(())
    }

    /// Adds a packet.
    pub fn push_packet_bytes(&mut self, source: SourceAddress, ingress: RawPacketIngress, bytes: &[u8]) -> (r:
        Result<(), UdpReceiverError>)
        requires
            old(self)@.packets.len() < usize::MAX,
        ensures
            match r {
                Ok(()) => old(self)@.takes(source, ingress, bytes@, final(self)@),
                Err(error) => {
                    &&& bytes@.len() > UDP_PACKET_BUFFER_BYTES
                    &&& error == (UdpReceiverError::InvalidPacketLength {
                        len: bytes@.len() as usize,
                        capacity: UDP_PACKET_BUFFER_BYTES,
                    })
                    &&& final(self)@ == old(self)@
                },
            },
    {
        self.push_packet(source, ingress, bytes)
    }

    /// Adds a packet.
    pub fn push_packet(&mut self, source: SourceAddress, ingress: RawPacketIngress, bytes: &[u8]) -> (r: Result<
        (),
        UdpReceiverError,
    >)
        requires
            old(self)@.packets.len() < usize::MAX,
        ensures
            match r {
                Ok(()) => old(self)@.takes(source, ingress, bytes@, final(self)@),
                Err(error) => {
                    &&& bytes@.len() > UDP_PACKET_BUFFER_BYTES
                    &&& error == (UdpReceiverError::InvalidPacketLength {
                        len: bytes@.len() as usize,
                        capacity: UDP_PACKET_BUFFER_BYTES,
                    })
                    &&& final(self)@ == old(self)@
                },
            },
    {
        if bytes.len() > UDP_PACKET_BUFFER_BYTES {
            return Err(
                UdpReceiverError::InvalidPacketLength {
                    len: bytes.len(),
                    capacity: UDP_PACKET_BUFFER_BYTES,
                },
            );
        }
        let ghost before = self@;
        let buffer_index: usize = self.ensure_receive_slots(1);
        let ghost grown = self@;
        let len: usize = bytes.len();
        let mut buffer: [u8; 2048] = self.buffers[buffer_index];
        let ghost blank = buffer@;
        let mut i: usize = 0;
        while i < len
            invariant
                i <= len,
                len == bytes@.len(),
                len <= 2048,
                buffer@.len() == 2048,
                blank.len() == 2048,
                forall|k: int| 0 <= k < i ==> #[trigger] buffer@[k] == bytes@[k],
                forall|k: int| i <= k < 2048 ==> #[trigger] buffer@[k] == blank[k],
            decreases len - i,
        {
            buffer[i] = bytes[i];
            i += 1;
        }
        self.buffers[buffer_index] = buffer;
        self.packets.push(RawPacket { source, ingress, buffer_index, len });
        proof {
            assert(buffer@ =~= bytes@ + blank.skip(len as int));
            assert(self@.buffers =~= grown.buffers.update(buffer_index as int, buffer));
            assert(self@.buffers[buffer_index as int]@.take(len as int) =~= bytes@);
            assert(self@.buffers[buffer_index as int]@.skip(len as int) =~= blank.skip(len as int));
            assert(before.takes(source, ingress, bytes@, self@));
        }
        Ok(())
    }

    /// The packets.
    #[must_use]
    pub fn packets(&self) -> (r: &[RawPacket])
        ensures
            r@ == self@.packets,
    {
        self.packets.as_slice()
    }

    /// The bytes of a packet.
    #[must_use]
    pub fn packet_bytes(&self, packet: RawPacket) -> (r: &[u8])
        requires
            packet.buffer_index < self@.buffers.len(),
            packet.len <= UDP_PACKET_BUFFER_BYTES,
        ensures
            r@ == self@.bytes_of(packet),
    {
        let buffer: &[u8] = &self.buffers[packet.buffer_index];
        let bytes = vstd::slice::slice_subrange(buffer, 0, packet.len);
        assert(bytes@ =~= self@.bytes_of(packet));
        bytes
    }

    /// Hands the batch over and goes on with a fresh one.
    pub fn replace_with(&mut self, fresh: RawPacketBatch) -> (r: Self)
        ensures
            r@ == old(self)@,
            final(self)@ == fresh@,
    {
        let mut taken = fresh;
        std::mem::swap(self, &mut taken);
        taken
    }

    /// Hands the batch over and goes on with a blank one of as many buffers, one at least.
    pub fn take_for_send(&mut self) -> (r: Self)
        ensures
            r@ == old(self)@,
            final(self)@.is_blank(
                if old(self)@.buffers.len() == 0 {
                    1
                } else {
                    old(self)@.buffers.len()
                },
            ),
    {
        let capacity: usize = if self.buffers.len() == 0 {
            1
        } else {
            self.buffers.len()
        };
        self.replace_with(RawPacketBatch::with_capacity(capacity))
    }

    /// Notes packets that were received into the buffers from `start_index` on, up to the first
    /// one that is refused.
    pub fn record_received(
        &mut self,
        start_index: usize,
        received: &Vec<(Option<SourceAddress>, usize)>,
    ) -> (r: Result<usize, UdpReceiverError>)
        ensures
            final(self)@ == (BatchView {
                packets: old(self)@.packets + noted(
                    start_index as nat,
                    received@.take(accepted(received@) as int),
                ),
                ..old(self)@
            }),
            match r {
                Ok(count) => accepted(received@) == received@.len() && count == received@.len(),
                Err(error) => accepted(received@) < received@.len() && Some(error) == packet_refusal(
                    received@[accepted(received@) as int],
                ),
            },
    {
        let ghost before = self@;
        let mut i: usize = 0;
        proof {
            assert(received@.take(0) =~= Seq::<(Option<SourceAddress>, usize)>::empty());
            assert(self@.packets =~= before.packets + noted(start_index as nat, received@.take(0)));
            accepted_from(received@, 0);
        }
        while i < received.len()
            invariant
                i <= received@.len(),
                before == old(self)@,
                accepted_after(received@, i as nat) == accepted(received@),
                self@ == (BatchView {
                    packets: before.packets + noted(start_index as nat, received@.take(i as int)),
                    ..before
                }),
            decreases received@.len() - i,
        {
            let (source, len) = received[i];
            let buffer_index: usize = start_index.saturating_add(i);
            match source {
                Some(source) => {
                    let pushed = self.push_received_metadata(
                        source,
                        RawPacketIngress::Udp,
                        buffer_index,
                        len,
                    );
                    match pushed {
                        Ok(()) => {
                            assert(self@.packets =~= before.packets + noted(
                                start_index as nat,
                                received@.take(i + 1),
                            ));
                        },
                        Err(error) => {
                            return Err(error);
                        },
                    }
                },
                None => {
                    return Err(UdpReceiverError::UnknownSource);
                },
            }
            i += 1;
        }
        proof {
            assert(received@.take(i as int) =~= received@);
        }
        Ok(i)
    }
}

/// Why a received packet is refused, if it is.
pub open spec fn packet_refusal(received: (Option<SourceAddress>, usize)) -> Option<UdpReceiverError> {
    if received.0 is None {
        Some(UdpReceiverError::UnknownSource)
    } else if received.1 > UDP_PACKET_BUFFER_BYTES {
        Some(
            UdpReceiverError::InvalidPacketLength {
                len: received.1,
                capacity: UDP_PACKET_BUFFER_BYTES,
            },
        )
    } else {
        None
    }
}

/// How many received packets are accepted, if the first `count` are.
pub open spec fn accepted_after(received: Seq<(Option<SourceAddress>, usize)>, count: nat) -> nat
    decreases received.len() - count,
{
    if count >= received.len() || packet_refusal(received[count as int]) is Some {
        count
    } else {
        accepted_after(received, count + 1)
    }
}

/// How many received packets come before the first one that is refused.
pub open spec fn accepted(received: Seq<(Option<SourceAddress>, usize)>) -> nat {
    accepted_after(received, 0)
}

/// The packets that are noted for what was received.
pub open spec fn noted(start: nat, received: Seq<(Option<SourceAddress>, usize)>) -> Seq<RawPacket> {
    Seq::new(
        received.len(),
        |i: int|
            RawPacket {
                source: received[i].0->0,
                ingress: RawPacketIngress::Udp,
                buffer_index: capped_sum(start, i as nat) as usize,
                len: received[i].1,
            },
    )
}

proof fn accepted_from(received: Seq<(Option<SourceAddress>, usize)>, count: nat)
    requires
        count <= received.len(),
    ensures
        count <= accepted_after(received, count) <= received.len(),
    decreases received.len() - count,
{
    if count < received.len() && packet_refusal(received[count as int]) is None {
        accepted_from(received, count + 1);
    }
}

impl BatchView {
    /// Whether a batch is this one with a packet added: it stands in the buffer behind the last
    /// packet, and no other buffer changes.
    pub open spec fn takes(
        self,
        source: SourceAddress,
        ingress: RawPacketIngress,
        bytes: Seq<u8>,
        after: BatchView,
    ) -> bool {
        let at = self.packets.len();
        &&& bytes.len() <= UDP_PACKET_BUFFER_BYTES
        &&& after.packets == self.packets.push(
            RawPacket { source, ingress, buffer_index: at as usize, len: bytes.len() as usize },
        )
        &&& after.buffers.len() == if at < self.buffers.len() {
            self.buffers.len()
        } else {
            at + 1
        }
        &&& after.buffers[at as int]@.take(bytes.len() as int) == bytes
        &&& at < self.buffers.len() ==> after.buffers[at as int]@.skip(bytes.len() as int)
            == self.buffers[at as int]@.skip(bytes.len() as int)
        &&& forall|i: int|
            0 <= i < self.buffers.len() && i != at ==> #[trigger] after.buffers[i] == self.buffers[i]
    }
}

/// A packet that was added is read back, and the packets before it stay as they were.
pub proof fn packets_are_read_back(
    before: BatchView,
    source: SourceAddress,
    ingress: RawPacketIngress,
    bytes: Seq<u8>,
    after: BatchView,
)
    requires
        before.in_place(),
        before.packets.len() < usize::MAX,
        before.takes(source, ingress, bytes, after),
    ensures
        after.in_place(),
        after.bytes_of(after.packets.last()) == bytes,
        forall|i: int|
            0 <= i < before.packets.len() ==> after.packets[i] == before.packets[i] && after.bytes_of(
                #[trigger] before.packets[i],
            ) == before.bytes_of(before.packets[i]),
{
    assert forall|i: int| 0 <= i < after.packets.len() implies (#[trigger] after.packets[i]).buffer_index == i
        && after.packets[i].len <= 2048 by {
        if i < before.packets.len() {
            assert(after.packets[i] == before.packets[i]);
        }
    }
    assert forall|i: int| 0 <= i < before.packets.len() implies after.packets[i] == before.packets[i]
        && after.bytes_of(#[trigger] before.packets[i]) == before.bytes_of(before.packets[i]) by {
        assert(before.packets[i].buffer_index == i);
        assert(after.buffers[i] == before.buffers[i]);
    }
}

impl Default for RawPacketBatch {
    fn default() -> (r: Self)
        ensures
            r@.is_blank(1),
    {
        RawPacketBatch::with_capacity(1)
    }
}

/// The bounded queue of `crossbeam_queue`.
#[verifier::external_type_specification]
#[verifier::external_body]
#[verifier::reject_recursive_types(T)]
pub struct ExArrayQueue<T>(ArrayQueue<T>);

/// The batches that a queue holds, the next one first.
pub uninterp spec fn queued(queue: ArrayQueue<RawPacketBatch>) -> Seq<RawPacketBatch>;

/// How many batches a queue can hold.
pub uninterp spec fn queue_room(queue: ArrayQueue<RawPacketBatch>) -> nat;

/// Makes a queue through `ArrayQueue::new`: it is empty and can hold `capacity` batches. That
/// function panics on no capacity, and where the memory cannot be addressed.
#[verifier::external_body]
pub(crate) fn new_batch_queue(capacity: usize) -> (r: ArrayQueue<RawPacketBatch>)
    requires
        0 < capacity,
        capacity * 128 <= isize::MAX,
    ensures
        queued(r).len() == 0,
        queue_room(r) == capacity,
{
    ArrayQueue::new(capacity)
}

/// Puts a batch in through `ArrayQueue::push`: behind the others if there is room; else it is
/// handed back and the queue stays.
#[verifier::external_body]
pub(crate) fn push_batch(queue: &mut ArrayQueue<RawPacketBatch>, batch: RawPacketBatch) -> (r: Option<
    RawPacketBatch,
>)
    ensures
        queue_room(*final(queue)) == queue_room(*old(queue)),
        match r {
            None => queued(*old(queue)).len() < queue_room(*old(queue)) && queued(*final(queue)) == queued(
                *old(queue),
            ).push(batch),
            Some(back) => queued(*old(queue)).len() >= queue_room(*old(queue)) && queued(*final(queue))
                == queued(*old(queue)) && back == batch,
        },
{
    queue.push(batch).err()
}

/// Takes the next batch out through `ArrayQueue::pop`, if there is any.
#[verifier::external_body]
pub(crate) fn pop_batch(queue: &mut ArrayQueue<RawPacketBatch>) -> (r: Option<RawPacketBatch>)
    ensures
        queue_room(*final(queue)) == queue_room(*old(queue)),
        match r {
            Some(batch) => queued(*old(queue)).len() > 0 && batch == queued(*old(queue))[0] && queued(
                *final(queue),
            ) == queued(*old(queue)).skip(1),
            None => queued(*old(queue)).len() == 0 && queued(*final(queue)) == queued(*old(queue)),
        },
{
    queue.pop()
}

/// Emptied batches, kept for reuse.
#[derive(Debug)]
pub struct RawPacketBatchRecycler {
    packet_capacity: usize,
    queue: ArrayQueue<RawPacketBatch>,
}

/// Emptied batches in specifications.
pub struct RecyclerView {
    /// How many buffers a new batch has.
    pub packet_capacity: usize,
    /// Emptied batches, the next one first.
    pub batches: Seq<RawPacketBatch>,
    /// How many are kept at most.
    pub room: nat,
}

impl View for RawPacketBatchRecycler {
    type V = RecyclerView;

    closed spec fn view(&self) -> RecyclerView {
        RecyclerView {
            packet_capacity: self.packet_capacity,
            batches: queued(self.queue),
            room: queue_room(self.queue),
        }
    }
}

impl RecyclerView {
    /// Whether all batches are empty.
    pub open spec fn are_empty(self) -> bool {
        forall|i: int| 0 <= i < self.batches.len() ==> (#[trigger] self.batches[i])@.packets.len() == 0
    }
}

impl RawPacketBatchRecycler {
    /// No batches yet; new ones have `packet_capacity` buffers, one at least.
    pub fn new(packet_capacity: usize) -> (r: Self)
        ensures
            r@.packet_capacity == if packet_capacity == 0 {
                1
            } else {
                packet_capacity
            },
            r@.batches.len() == 0,
            r@.are_empty(),
            r@.room == RAW_PACKET_BATCH_RECYCLER_CAPACITY,
    {
        let packet_capacity: usize = if packet_capacity == 0 {
            1
        } else {
            packet_capacity
        };
        RawPacketBatchRecycler {
            packet_capacity,
            queue: new_batch_queue(RAW_PACKET_BATCH_RECYCLER_CAPACITY),
        }
    }

    /// An emptied batch, or a blank one where there is none. Either way it holds no packets.
    pub fn allocate(&mut self) -> (r: RawPacketBatch)
        ensures
            old(self)@.are_empty() ==> r@.packets.len() == 0 && final(self)@.are_empty(),
            final(self)@.packet_capacity == old(self)@.packet_capacity,
            final(self)@.room == old(self)@.room,
            if old(self)@.batches.len() > 0 {
                r == old(self)@.batches[0] && final(self)@.batches == old(self)@.batches.skip(1)
            } else {
                r@.is_blank(old(self)@.packet_capacity as nat) && final(self)@.batches
                    == old(self)@.batches
            },
    {
        let ghost before = self@;
        let batch = match pop_batch(&mut self.queue) {
            Some(batch) => batch,
            None => RawPacketBatch::with_capacity(self.packet_capacity),
        };
        proof {
            if before.batches.len() > 0 {
                assert forall|i: int| 0 <= i < self@.batches.len() implies #[trigger] self@.batches[i]
                    == before.batches[i + 1] by {}
            }
        }
        batch
    }

    /// Empties a batch and keeps it, unless enough are kept.
    pub fn recycle(&mut self, batch: RawPacketBatch)
        ensures
            old(self)@.are_empty() ==> final(self)@.are_empty(),
            final(self)@.packet_capacity == old(self)@.packet_capacity,
            final(self)@.room == old(self)@.room,
            if old(self)@.batches.len() < old(self)@.room {
                &&& final(self)@.batches.len() == old(self)@.batches.len() + 1
                &&& final(self)@.batches.drop_last() == old(self)@.batches
                &&& final(self)@.batches.last()@ == (BatchView { packets: Seq::empty(), ..batch@ })
            } else {
                final(self)@.batches == old(self)@.batches
            },
    {
        let ghost before = self@;
        let mut batch = batch;
        batch.clear();
        let _back = push_batch(&mut self.queue, batch);
        assert(before.batches.len() < before.room ==> self@.batches.drop_last() =~= before.batches);
    }
}

/// A received packet is refused exactly if its source is not known or it is longer than a buffer, and
/// the error says which, with the two lengths.
pub proof fn packets_are_refused_for_a_reason(received: (Option<SourceAddress>, usize))
    ensures
        packet_refusal(received) is None <==> received.0 is Some && received.1 <= 2048,
        packet_refusal(received) == Some(UdpReceiverError::UnknownSource) <==> received.0 is None,
        packet_refusal(received) matches Some(UdpReceiverError::InvalidPacketLength { len, capacity }) ==> len
            == received.1 && capacity == 2048 && len > capacity,
{
}

/// Of a row of received packets those before the first one that is refused are accepted, all if none is.
/// Each is noted with its own source and length, and with the buffer as far behind the first one as the
/// packet is behind the first packet.
pub proof fn packets_are_accepted_up_to_the_first_refused(
    received: Seq<(Option<SourceAddress>, usize)>,
    start: nat,
)
    ensures
        accepted(received) <= received.len(),
        forall|i: int| 0 <= i < accepted(received) ==> packet_refusal(#[trigger] received[i]) is None,
        accepted(received) < received.len() ==> packet_refusal(received[accepted(received) as int]) is Some,
        noted(start, received).len() == received.len(),
        forall|i: int|
            0 <= i < received.len() ==> {
                &&& (#[trigger] noted(start, received)[i]).len == received[i].1
                &&& received[i].0 == Some(noted(start, received)[i].source) || received[i].0 is None
                &&& start + i <= usize::MAX ==> noted(start, received)[i].buffer_index == start + i
            },
{
    accepted_are_not_refused(received, 0);
}

proof fn accepted_are_not_refused(received: Seq<(Option<SourceAddress>, usize)>, count: nat)
    requires
        count <= received.len(),
    ensures
        count <= accepted_after(received, count) <= received.len(),
        forall|i: int|
            count <= i < accepted_after(received, count) ==> packet_refusal(#[trigger] received[i]) is None,
        accepted_after(received, count) < received.len() ==> packet_refusal(
            received[accepted_after(received, count) as int],
        ) is Some,
    decreases received.len() - count,
{
    if count < received.len() && packet_refusal(received[count as int]) is None {
        accepted_are_not_refused(received, count + 1);
    }
}

/// A packet that is added is noted behind the others with its source, its way in and its length; it fits
/// a buffer; and no more buffers are there afterwards than were, unless all were taken.
pub proof fn added_packet_is_noted(
    before: BatchView,
    source: SourceAddress,
    ingress: RawPacketIngress,
    bytes: Seq<u8>,
    after: BatchView,
)
    requires
        before.packets.len() < usize::MAX,
        before.takes(source, ingress, bytes, after),
    ensures
        bytes.len() <= 2048,
        after.packets.len() == before.packets.len() + 1,
        after.packets.last().source == source,
        after.packets.last().ingress == ingress,
        after.packets.last().len == bytes.len(),
        after.packets.last().buffer_index == before.packets.len(),
        forall|i: int| 0 <= i < before.packets.len() ==> #[trigger] after.packets[i] == before.packets[i],
        before.packets.len() < before.buffers.len() ==> after.buffers.len() == before.buffers.len(),
{
}

} // verus!
