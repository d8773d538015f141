//! The queue of packet batches between a receiver and what reads them.
use crate::ingest::config::{positive_size_in, read_positive_size, text_view};
use crate::ingest::receiver::batch::{
    new_batch_queue, pop_batch, push_batch, queue_room, queued, RawPacketBatch,
};
use crate::text::{ascii_lower, lower_text, same_text, trim_text, trimmed};
use crossbeam_queue::ArrayQueue;
use vstd::prelude::*;

verus! {

/// How many batches a queue holds by default.
pub const DEFAULT_INGEST_QUEUE_CAPACITY: usize = 16_384;

/// How long a sender waits before it tries a full queue again, in microseconds.
pub const SPIN_BACKOFF_MICROS: u64 = 50;

/// The kind of a queue.
#[derive(Debug, Clone, Copy, PartialEq, Eq, Structural)]
pub enum IngestQueueMode {
    /// A channel with a limit.
    Bounded,
    /// A channel without a limit.
    Unbounded,
    /// A ring without locks.
    LockFree,
}

impl IngestQueueMode {
    /// The name of the kind.
    pub open spec fn name(self) -> Seq<char> {
        match self {
            IngestQueueMode::Bounded => "bounded"@,
            IngestQueueMode::Unbounded => "unbounded"@,
            IngestQueueMode::LockFree => "lockfree"@,
        }
    }

    /// The name of the kind.
    pub fn as_str(self) -> (r: &'static str)
        ensures
            r@ == self.name(),
    {
        match self {
            IngestQueueMode::Bounded => "bounded",
            IngestQueueMode::Unbounded => "unbounded",
            IngestQueueMode::LockFree => "lockfree",
        }
    }
}

/// The kind that a word names, whatever its case; a channel with a limit where it names none.
pub open spec fn queue_mode_named(word: Seq<char>) -> IngestQueueMode {
    let word = word.map_values(|c: char| ascii_lower(c));
    if word == "unbounded"@ || word == "tokio-unbounded"@ || word == "tokio_unbounded"@ {
        IngestQueueMode::Unbounded
    } else if word == "lockfree"@ || word == "lock-free"@ || word == "ring"@ || word == "arrayqueue"@ {
        IngestQueueMode::LockFree
    } else {
        IngestQueueMode::Bounded
    }
}

/// The kind that a text names, whatever its case and the blanks around it; a channel with a limit
/// where it names none.
pub open spec fn queue_mode_in(text: Option<Seq<char>>) -> IngestQueueMode {
    match text {
        Some(text) => queue_mode_named(trimmed(text)),
        None => IngestQueueMode::Bounded,
    }
}

/// Reads the kind of a queue from a word without blanks around it.
pub fn named_queue_mode(word: &str) -> (r: IngestQueueMode)
    ensures
        r == queue_mode_named(word@),
{
    let word = lower_text(word);
    let word = word.as_str();
    if same_text(word, "unbounded") || same_text(word, "tokio-unbounded") || same_text(
        word,
        "tokio_unbounded",
    ) {
        IngestQueueMode::Unbounded
    } else if same_text(word, "lockfree") || same_text(word, "lock-free") || same_text(word, "ring") || same_text(
        word,
        "arrayqueue",
    ) {
        IngestQueueMode::LockFree
    } else {
        IngestQueueMode::Bounded
    }
}

/// Reads the kind of a queue.
pub fn read_ingest_queue_mode(value: Option<&str>) -> (r: IngestQueueMode)
    ensures
        r == queue_mode_in(text_view(value)),
{
    match value {
        Some(text) => named_queue_mode(trim_text(text)),
        None => IngestQueueMode::Bounded,
    }
}

/// Whether a word names a kind of queue, whatever its case.
pub open spec fn is_queue_mode_name(word: Seq<char>) -> bool {
    let lower = word.map_values(|c: char| ascii_lower(c));
    queue_mode_named(word) != IngestQueueMode::Bounded || lower == "bounded"@ || lower == "tokio-bounded"@
        || lower == "tokio_bounded"@
}

/// Whether a word without blanks around it names a kind of queue.
pub fn is_known_queue_mode_name(word: &str) -> (r: bool)
    ensures
        r == is_queue_mode_name(word@),
{
    let lower = lower_text(word);
    let lower = lower.as_str();
    let mode = named_queue_mode(word);
    mode != IngestQueueMode::Bounded || same_text(lower, "bounded") || same_text(lower, "tokio-bounded")
        || same_text(lower, "tokio_bounded")
}

/// Whether a text names a kind of queue.
pub fn is_known_queue_mode(value: &str) -> (r: bool)
    ensures
        r == is_queue_mode_name(trimmed(value@)),
{
    is_known_queue_mode_name(trim_text(value))
}

/// Reads how many batches a queue holds.
pub fn read_ingest_queue_capacity(value: Option<&str>) -> (r: usize)
    ensures
        r == positive_size_in(text_view(value), DEFAULT_INGEST_QUEUE_CAPACITY),
        r > 0,
{
    read_positive_size(value, DEFAULT_INGEST_QUEUE_CAPACITY)
}

/// A ring of batches, with what its ends know of each other.
#[derive(Debug)]
pub struct LockFreeBatchQueue {
    queue: ArrayQueue<RawPacketBatch>,
    closed: bool,
    sender_count: usize,
}

/// A ring of batches in specifications.
pub struct BatchQueueView {
    /// Batches, the next one first.
    pub batches: Seq<RawPacketBatch>,
    /// How many it holds at most.
    pub room: nat,
    /// Whether one of its ends is gone.
    pub closed: bool,
    /// How many senders there are.
    pub senders: usize,
}

impl View for LockFreeBatchQueue {
    type V = BatchQueueView;

    closed spec fn view(&self) -> BatchQueueView {
        BatchQueueView {
            batches: queued(self.queue),
            room: queue_room(self.queue),
            closed: self.closed,
            senders: self.sender_count,
        }
    }
}

/// What becomes of a batch that is sent.
#[derive(Debug)]
pub enum SendStep {
    /// It stands in the queue, and the receiver is to be woken.
    Sent,
    /// It is gone.
    Refused,
    /// The queue is full: after a short time it is to be tried again.
    Retry(RawPacketBatch),
}

/// What a receiver gets.
#[derive(Debug)]
pub enum ReceiveStep {
    /// The next batch.
    Batch(RawPacketBatch),
    /// Nothing, and nothing will come.
    Closed,
    /// Nothing yet: it is to be tried again when a sender has woken the receiver.
    Wait,
}

impl BatchQueueView {
    /// The queue after a batch was sent.
    pub open spec fn after_send(self, batch: RawPacketBatch) -> Self {
        if self.closed || self.batches.len() >= self.room {
            self
        } else {
            BatchQueueView { batches: self.batches.push(batch), ..self }
        }
    }

    /// What becomes of a batch that is sent.
    pub open spec fn send_step(self, batch: RawPacketBatch, drop_on_full: bool) -> SendStep {
        if self.closed {
            SendStep::Refused
        } else if self.batches.len() < self.room {
            SendStep::Sent
        } else if drop_on_full {
            SendStep::Refused
        } else {
            SendStep::Retry(batch)
        }
    }

    /// The queue after the receiver looked.
    pub open spec fn after_receive(self) -> Self {
        if self.batches.len() > 0 {
            BatchQueueView { batches: self.batches.skip(1), ..self }
        } else {
            self
        }
    }

    /// What the receiver gets. What was sent before the queue was closed still comes.
    pub open spec fn receive_step(self) -> ReceiveStep {
        if self.batches.len() > 0 {
            ReceiveStep::Batch(self.batches[0])
        } else if self.closed {
            ReceiveStep::Closed
        } else {
            ReceiveStep::Wait
        }
    }
}

impl LockFreeBatchQueue {
    /// An empty queue with one sender.
    pub fn new(capacity: usize) -> (r: Self)
        requires
            0 < capacity,
            capacity * 128 <= isize::MAX,
        ensures
            r@ == (BatchQueueView {
                batches: Seq::empty(),
                room: capacity as nat,
                closed: false,
                senders: 1,
            }),
    {
        let queue = LockFreeBatchQueue {
            queue: new_batch_queue(capacity),
            closed: false,
            sender_count: 1,
        };
        assert(queue@.batches =~= Seq::<RawPacketBatch>::empty());
        queue
    }

    /// Sends a batch.
    pub fn send_batch(&mut self, batch: RawPacketBatch, drop_on_full: bool) -> (r: SendStep)
        ensures
            final(self)@ == old(self)@.after_send(batch),
            r == old(self)@.send_step(batch, drop_on_full),
    {
        if self.closed {
            return SendStep::Refused;
        }
        match push_batch(&mut self.queue, batch) {
            None => SendStep::Sent,
            Some(back) => if drop_on_full {
                SendStep::Refused
            } else {
                SendStep::Retry(back)
            },
        }
    }

    /// Looks for a batch.
    pub fn recv(&mut self) -> (r: ReceiveStep)
        ensures
            final(self)@ == old(self)@.after_receive(),
            r == old(self)@.receive_step(),
    {
        match pop_batch(&mut self.queue) {
            Some(batch) => ReceiveStep::Batch(batch),
            None => if self.closed {
                ReceiveStep::Closed
            } else {
                ReceiveStep::Wait
            },
        }
    }

    /// Notes one more sender.
    pub fn sender_added(&mut self)
        ensures
            final(self)@ == (BatchQueueView {
                senders: if old(self)@.senders < usize::MAX {
                    (old(self)@.senders + 1) as usize
                } else {
                    0
                },
                ..old(self)@
            }),
    {
        self.sender_count = self.sender_count.wrapping_add(1);
    }

    /// Notes that a sender is gone. With the last one the queue is closed, and the receiver is to
    /// be woken.
    pub fn sender_dropped(&mut self) -> (r: bool)
        ensures
            r == (old(self)@.senders == 1),
            final(self)@ == (BatchQueueView {
                senders: if old(self)@.senders > 0 {
                    (old(self)@.senders - 1) as usize
                } else {
                    usize::MAX
                },
                closed: old(self)@.closed || old(self)@.senders == 1,
                ..old(self)@
            }),
    {
        let last: bool = self.sender_count == 1;
        self.sender_count = self.sender_count.wrapping_sub(1);
        if last {
            self.closed = true;
        }
        last
    }

    /// Notes that the receiver is gone: the queue is closed.
    pub fn receiver_dropped(&mut self)
        ensures
            final(self)@ == (BatchQueueView { closed: true, ..old(self)@ }),
    {
        self.closed = true;
    }
}

/// Batches come out in the order in which they went in: after one was sent, the receiver gets
/// those before it first, and then it.
pub proof fn batches_come_in_order(queue: BatchQueueView, batch: RawPacketBatch, drop_on_full: bool)
    requires
        queue.send_step(batch, drop_on_full) is Sent,
    ensures
        queue.batches.len() == 0 ==> queue.after_send(batch).receive_step() == ReceiveStep::Batch(batch)
            && queue.after_send(batch).after_receive() == queue,
        queue.batches.len() > 0 ==> queue.after_send(batch).receive_step() == queue.receive_step()
            && queue.after_send(batch).after_receive().batches
            == queue.after_receive().batches.push(batch),
{
    if queue.batches.len() == 0 {
        assert(queue.after_send(batch).after_receive().batches =~= queue.batches);
    } else {
        assert(queue.batches.push(batch).skip(1) =~= queue.batches.skip(1).push(batch));
    }
}

/// A closed queue takes nothing more and gives what it holds, batch by batch, until it is empty.
pub proof fn closed_queue_runs_empty(queue: BatchQueueView, batch: RawPacketBatch, drop_on_full: bool)
    requires
        queue.closed,
    ensures
        queue.send_step(batch, drop_on_full) is Refused,
        queue.after_send(batch) == queue,
        queue.batches.len() > 0 ==> queue.receive_step() is Batch,
        queue.batches.len() == 0 ==> queue.receive_step() is Closed,
        queue.after_receive().closed,
        queue.batches.len() > 0 ==> queue.after_receive().batches.len() < queue.batches.len(),
{
}

/// A batch is taken in exactly if the queue is open and has room. A full queue that is open hands it
/// back, or drops it where that is asked for; a closed one drops it. A queue that does not take a batch
/// in stays as it is.
pub proof fn batches_are_taken_while_there_is_room(queue: BatchQueueView, batch: RawPacketBatch, drop_on_full: bool)
    ensures
        queue.send_step(batch, drop_on_full) is Sent <==> !queue.closed && queue.batches.len() < queue.room,
        queue.send_step(batch, drop_on_full) is Retry <==> !queue.closed && queue.batches.len() >= queue.room
            && !drop_on_full,
        queue.send_step(batch, drop_on_full) matches SendStep::Retry(back) ==> back == batch,
        !(queue.send_step(batch, drop_on_full) is Sent) ==> queue.after_send(batch) == queue,
        queue.send_step(batch, drop_on_full) is Sent ==> queue.after_send(batch).batches.len()
            == queue.batches.len() + 1 && queue.after_send(batch).batches.last() == batch,
        queue.batches.len() <= queue.room ==> queue.after_send(batch).batches.len() <= queue.room,
{
}

/// A receiver waits exactly while the queue is open and empty; otherwise it gets the batch that came
/// first, or learns that nothing will come.
pub proof fn receivers_get_what_came_first(queue: BatchQueueView)
    ensures
        queue.receive_step() is Wait <==> !queue.closed && queue.batches.len() == 0,
        queue.receive_step() is Closed <==> queue.closed && queue.batches.len() == 0,
        queue.receive_step() matches ReceiveStep::Batch(batch) ==> batch == queue.batches[0],
        queue.batches.len() > 0 ==> queue.receive_step() is Batch && queue.after_receive().batches.len() + 1
            == queue.batches.len() && forall|i: int|
            0 <= i < queue.after_receive().batches.len() ==> #[trigger] queue.after_receive().batches[i]
                == queue.batches[i + 1],
        queue.after_receive().closed == queue.closed,
        queue.after_receive().room == queue.room,
        queue.after_receive().senders == queue.senders,
{
}

/// Each kind of queue is called by its name, and reading that name gives the kind again.
pub proof fn queue_modes_are_read_back(mode: IngestQueueMode)
    ensures
        queue_mode_named(mode.name()) == mode,
        is_queue_mode_name(mode.name()),
        mode is Bounded ==> mode.name() == "bounded"@,
        mode is Unbounded ==> mode.name() == "unbounded"@,
        mode is LockFree ==> mode.name() == "lockfree"@,
        queue_mode_in(None) is Bounded,
{
    reveal_strlit("bounded");
    reveal_strlit("unbounded");
    reveal_strlit("lockfree");
    let name = mode.name();
    let lower = name.map_values(|c: char| ascii_lower(c));
    assert(lower =~= name);
    reveal_strlit("tokio-unbounded");
    reveal_strlit("tokio_unbounded");
    reveal_strlit("lock-free");
    reveal_strlit("ring");
    reveal_strlit("arrayqueue");
    assert("bounded"@.len() == 7);
    assert("unbounded"@.len() == 9);
    assert("lockfree"@.len() == 8);
    assert("lock-free"@.len() == 9);
    assert("unbounded"@[0] == 'u' && "lock-free"@[0] == 'l');
}

/// The other names of queues: `tokio-bounded` and `tokio_bounded`, `tokio-unbounded` and
/// `tokio_unbounded`, and `lock-free`, `ring` and `arrayqueue` for the ring without locks; whatever their
/// case. A word that is none of the names is read as a queue with a limit.
pub proof fn other_queue_names(word: Seq<char>)
    ensures
        ({
            let lower = word.map_values(|c: char| ascii_lower(c));
            &&& queue_mode_named(word) is Unbounded <==> lower == "unbounded"@ || lower == "tokio-unbounded"@
                || lower == "tokio_unbounded"@
            &&& queue_mode_named(word) is LockFree <==> lower == "lockfree"@ || lower == "lock-free"@ || lower
                == "ring"@ || lower == "arrayqueue"@
            &&& is_queue_mode_name(word) && queue_mode_named(word) is Bounded <==> lower == "bounded"@ || lower
                == "tokio-bounded"@ || lower == "tokio_bounded"@
        }),
{
    reveal_strlit("bounded");
    reveal_strlit("tokio-bounded");
    reveal_strlit("tokio_bounded");
    reveal_strlit("unbounded");
    reveal_strlit("tokio-unbounded");
    reveal_strlit("tokio_unbounded");
    reveal_strlit("lockfree");
    reveal_strlit("lock-free");
    reveal_strlit("ring");
    reveal_strlit("arrayqueue");
    assert("bounded"@.len() == 7);
    assert("tokio-bounded"@.len() == 13);
    assert("tokio_bounded"@.len() == 13);
    assert("unbounded"@.len() == 9);
    assert("tokio-unbounded"@.len() == 15);
    assert("tokio_unbounded"@.len() == 15);
    assert("lockfree"@.len() == 8);
    assert("lock-free"@.len() == 9);
    assert("ring"@.len() == 4);
    assert("arrayqueue"@.len() == 10);
    assert("unbounded"@[0] == 'u' && "lock-free"@[0] == 'l');
}

} // verus!
