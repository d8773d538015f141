//! What a UDP receiver does next.
use crate::ingest::receiver::batch::UDP_PACKET_BUFFER_BYTES;
use crate::reassembly::fragment::capped;
use crate::time::{Duration, Instant, INSTANT_END_NANOS};
use vstd::prelude::*;

verus! {

/// The settings of a receiver.
#[derive(Debug, Clone, Copy, PartialEq, Eq, Structural)]
pub struct ReceiverSettings {
    /// How many packets a batch holds.
    pub batch_size: usize,
    /// How long a batch is held open.
    pub batch_max_wait: Duration,
    /// How long an idle receiver waits.
    pub idle_wait: Duration,
}

impl ReceiverSettings {
    /// The settings from their values in milliseconds. An idle receiver waits at least as long as
    /// a batch is held open.
    pub fn new(batch_size: usize, batch_max_wait_ms: u64, idle_wait_ms: u64) -> (r: Self)
        ensures
            r.batch_size == batch_size,
            r.batch_max_wait.nanos() == batch_max_wait_ms * 1_000_000,
            r.idle_wait.nanos() == if idle_wait_ms >= batch_max_wait_ms {
                idle_wait_ms * 1_000_000
            } else {
                batch_max_wait_ms * 1_000_000
            },
    {
        let batch_max_wait = Duration::from_millis(batch_max_wait_ms);
        let idle_wait = if idle_wait_ms >= batch_max_wait_ms {
            Duration::from_millis(idle_wait_ms)
        } else {
            batch_max_wait
        };
        ReceiverSettings { batch_size, batch_max_wait, idle_wait }
    }
}

/// What happened.
#[derive(Debug, Clone, Copy, PartialEq, Eq, Structural)]
pub enum ReceiverEvent {
    /// The receiver is at the top of its loop.
    Turn {
        /// Whether it is to stop.
        shutdown: bool,
    },
    /// Packets came in one go.
    BatchReceived {
        /// How many.
        received: usize,
    },
    /// No packets came in one go.
    BatchIdle {
        /// Whether the receiver is to stop.
        shutdown: bool,
    },
    /// A packet came.
    Packet {
        /// Its length.
        len: usize,
        /// How many packets the kernel dropped so far.
        rxq_ovfl_counter: Option<u64>,
        /// When.
        now: Instant,
    },
    /// The packet stands in the batch.
    Added {
        /// When.
        now: Instant,
    },
    /// No packet came.
    Idle {
        /// Whether the receiver is to stop.
        shutdown: bool,
    },
    /// Receiving failed.
    Failed,
}

/// What is to be done.
#[derive(Debug, Clone, Copy, PartialEq, Eq, Structural)]
pub enum ReceiverAction {
    /// Set whether the socket blocks.
    SetNonblocking(bool),
    /// Set how long the socket waits for a packet.
    SetReadTimeout(Duration),
    /// Receive packets in one go.
    ReceiveBatch,
    /// Receive a packet.
    ReceivePacket,
    /// Count packets that the kernel dropped.
    CountKernelDrops(u64),
    /// Count packets that came.
    CountPackets(usize),
    /// Add the packet to the batch.
    AddPacket,
    /// Send the batch on, if it holds packets.
    Flush,
    /// Stop.
    Stop,
    /// Stop, because a packet is longer than a buffer.
    FailLength {
        /// Its length.
        len: usize,
        /// What a buffer holds.
        capacity: usize,
    },
    /// Stop, because receiving failed.
    FailReceive,
}

/// What a receiver knows.
#[derive(Debug, Clone, Copy, PartialEq, Eq, Structural)]
pub struct UdpReceiver {
    /// Its settings.
    pub settings: ReceiverSettings,
    /// Whether packets are received in one go.
    pub batched: bool,
    /// Whether anything is counted.
    pub counts: bool,
    /// How long the socket waits for a packet.
    pub current_wait: Duration,
    /// When the first packet of the batch came.
    pub batch_started_at: Option<Instant>,
    /// How many packets the batch holds.
    pub held: usize,
    /// How many packets the kernel had dropped when the last one came.
    pub last_rxq_ovfl_counter: Option<u64>,
}

/// The actions to count packets that came, if anything is counted.
pub open spec fn counting(counts: bool, packets: usize) -> Seq<ReceiverAction> {
    if counts {
        seq![ReceiverAction::CountPackets(packets)]
    } else {
        Seq::empty()
    }
}

impl UdpReceiver {
    /// A receiver at its start.
    pub open spec fn started(settings: ReceiverSettings, batched: bool, counts: bool) -> Self {
        UdpReceiver {
            settings,
            batched,
            counts,
            current_wait: if batched {
                settings.batch_max_wait
            } else {
                settings.idle_wait
            },
            batch_started_at: None,
            held: 0,
            last_rxq_ovfl_counter: None,
        }
    }

    /// How the socket is set up.
    pub open spec fn setup(settings: ReceiverSettings, batched: bool) -> Seq<ReceiverAction> {
        if batched {
            seq![ReceiverAction::SetNonblocking(true)]
        } else {
            seq![ReceiverAction::SetNonblocking(false), ReceiverAction::SetReadTimeout(settings.idle_wait)]
        }
    }

    /// The receiver after the kernel's count of dropped packets was seen, with what to do.
    pub open spec fn with_kernel_count(self, counter: Option<u64>) -> (Self, Seq<ReceiverAction>) {
        match counter {
            Some(count) => if self.counts {
                (
                    UdpReceiver { last_rxq_ovfl_counter: Some(count), ..self },
                    match self.last_rxq_ovfl_counter {
                        Some(previous) => if count > previous {
                            seq![ReceiverAction::CountKernelDrops((count - previous) as u64)]
                        } else {
                            Seq::empty()
                        },
                        None => Seq::empty(),
                    },
                )
            } else {
                (self, Seq::empty())
            },
            None => (self, Seq::empty()),
        }
    }

    /// The receiver with a batch open, with what to do.
    pub open spec fn with_open_batch(self, now: Instant) -> (Self, Seq<ReceiverAction>) {
        if self.batch_started_at is Some {
            (self, Seq::empty())
        } else if self.current_wait == self.settings.batch_max_wait {
            (UdpReceiver { batch_started_at: Some(now), ..self }, Seq::empty())
        } else {
            (
                UdpReceiver {
                    batch_started_at: Some(now),
                    current_wait: self.settings.batch_max_wait,
                    ..self
                },
                seq![ReceiverAction::SetReadTimeout(self.settings.batch_max_wait)],
            )
        }
    }

    /// The receiver after the batch was sent on, with what to do.
    pub open spec fn flushed(self) -> (Self, Seq<ReceiverAction>) {
        let idle = UdpReceiver {
            batch_started_at: None,
            held: 0,
            current_wait: self.settings.idle_wait,
            ..self
        };
        if self.current_wait == self.settings.idle_wait {
            (idle, seq![ReceiverAction::Flush])
        } else {
            (
                idle,
                seq![ReceiverAction::Flush, ReceiverAction::SetReadTimeout(self.settings.idle_wait)],
            )
        }
    }

    /// Whether the batch is to be sent on: it is full, or was held open long enough.
    pub open spec fn is_due(self, now: Instant) -> bool {
        self.held >= self.settings.batch_size || (match self.batch_started_at {
            Some(started) => if now.nanos() >= started.nanos() {
                now.nanos() - started.nanos()
            } else {
                0
            },
            None => 0,
        }) >= self.settings.batch_max_wait.nanos()
    }

    /// What the receiver knows after an event, and what to do.
    pub open spec fn next(self, event: ReceiverEvent) -> (Self, Seq<ReceiverAction>) {
        match event {
            ReceiverEvent::Turn { shutdown } => if shutdown {
                (self, seq![ReceiverAction::Flush, ReceiverAction::Stop])
            } else if self.batched {
                (self, seq![ReceiverAction::ReceiveBatch])
            } else {
                (self, seq![ReceiverAction::ReceivePacket])
            },
            ReceiverEvent::BatchReceived { received } => if received == 0 {
                (self, Seq::empty())
            } else {
                (self, counting(self.counts, received) + seq![ReceiverAction::Flush])
            },
            ReceiverEvent::BatchIdle { shutdown } => (
                self,
                if shutdown {
                    seq![ReceiverAction::Stop]
                } else {
                    Seq::empty()
                },
            ),
            ReceiverEvent::Packet { len, rxq_ovfl_counter, now } => {
                let (counted, drops) = self.with_kernel_count(rxq_ovfl_counter);
                if len > UDP_PACKET_BUFFER_BYTES {
                    (
                        counted,
                        drops + seq![
                            ReceiverAction::FailLength { len, capacity: UDP_PACKET_BUFFER_BYTES },
                        ],
                    )
                } else {
                    let (open, timeout) = counted.with_open_batch(now);
                    (
                        UdpReceiver { held: capped((open.held + 1) as nat), ..open },
                        drops + timeout + counting(self.counts, 1) + seq![ReceiverAction::AddPacket],
                    )
                }
            },
            ReceiverEvent::Added { now } => if self.is_due(now) {
                self.flushed()
            } else {
                (self, Seq::empty())
            },
            ReceiverEvent::Idle { shutdown } => {
                let (idle, actions) = self.flushed();
                (
                    idle,
                    actions + (if shutdown {
                        seq![ReceiverAction::Stop]
                    } else {
                        Seq::empty()
                    }),
                )
            },
            ReceiverEvent::Failed => (self, seq![ReceiverAction::FailReceive]),
        }
    }

    /// A receiver at its start, and how the socket is set up.
    pub fn start(settings: ReceiverSettings, batched: bool, counts: bool) -> (r: (Self, Vec<ReceiverAction>))
        ensures
            r.0 == UdpReceiver::started(settings, batched, counts),
            r.1@ == UdpReceiver::setup(settings, batched),
    {
        let mut actions: Vec<ReceiverAction> = Vec::new();
        let current_wait = if batched {
            actions.push(ReceiverAction::SetNonblocking(true));
            settings.batch_max_wait
        } else {
            actions.push(ReceiverAction::SetNonblocking(false));
            actions.push(ReceiverAction::SetReadTimeout(settings.idle_wait));
            settings.idle_wait
        };
        let receiver = UdpReceiver {
            settings,
            batched,
            counts,
            current_wait,
            batch_started_at: None,
            held: 0,
            last_rxq_ovfl_counter: None,
        };
        assert(actions@ =~= UdpReceiver::setup(settings, batched));
        (receiver, actions)
    }

    /// Takes in an event, and says what to do.
    pub fn on_event(&mut self, event: ReceiverEvent) -> (r: Vec<ReceiverAction>)
        ensures
            *final(self) == old(self).next(event).0,
            r@ == old(self).next(event).1,
    {
        let ghost before = *self;
        let mut actions: Vec<ReceiverAction> = Vec::new();
        match event {
            ReceiverEvent::Turn { shutdown } => {
                if shutdown {
                    actions.push(ReceiverAction::Flush);
                    actions.push(ReceiverAction::Stop);
                } else if self.batched {
                    actions.push(ReceiverAction::ReceiveBatch);
                } else {
                    actions.push(ReceiverAction::ReceivePacket);
                }
            },
            ReceiverEvent::BatchReceived { received } => {
                if received > 0 {
                    if self.counts {
                        actions.push(ReceiverAction::CountPackets(received));
                    }
                    actions.push(ReceiverAction::Flush);
                }
            },
            ReceiverEvent::BatchIdle { shutdown } => {
                if shutdown {
                    actions.push(ReceiverAction::Stop);
                }
            },
            ReceiverEvent::Packet { len, rxq_ovfl_counter, now } => {
                self.see_kernel_count(rxq_ovfl_counter, &mut actions);
                if len > UDP_PACKET_BUFFER_BYTES {
                    actions.push(
                        ReceiverAction::FailLength { len, capacity: UDP_PACKET_BUFFER_BYTES },
                    );
                } else {
                    self.open_batch(now, &mut actions);
                    if self.counts {
                        actions.push(ReceiverAction::CountPackets(1));
                    }
                    self.held = self.held.saturating_add(1);
                    actions.push(ReceiverAction::AddPacket);
                }
            },
            ReceiverEvent::Added { now } => {
                let elapsed: u128 = match self.batch_started_at {
                    Some(started) => now.saturating_duration_since(started).as_nanos(),
                    None => 0,
                };
                if self.held >= self.settings.batch_size || elapsed >= self.settings.batch_max_wait.as_nanos() {
                    self.flush(&mut actions);
                }
            },
            ReceiverEvent::Idle { shutdown } => {
                self.flush(&mut actions);
                if shutdown {
                    actions.push(ReceiverAction::Stop);
                }
            },
            ReceiverEvent::Failed => {
                actions.push(ReceiverAction::FailReceive);
            },
        }
        assert(actions@ =~= before.next(event).1);
        actions
    }

    fn see_kernel_count(&mut self, counter: Option<u64>, actions: &mut Vec<ReceiverAction>)
        ensures
            *final(self) == old(self).with_kernel_count(counter).0,
            final(actions)@ == old(actions)@ + old(self).with_kernel_count(counter).1,
    {
        let ghost before = *self;
        let ghost so_far = actions@;
        if let Some(count) = counter {
            if self.counts {
                if let Some(previous) = self.last_rxq_ovfl_counter {
                    let dropped: u64 = count.saturating_sub(previous);
                    if dropped > 0 {
                        actions.push(ReceiverAction::CountKernelDrops(dropped));
                    }
                }
                self.last_rxq_ovfl_counter = Some(count);
            }
        }
        assert(actions@ =~= so_far + before.with_kernel_count(counter).1);
    }

    fn open_batch(&mut self, now: Instant, actions: &mut Vec<ReceiverAction>)
        ensures
            *final(self) == old(self).with_open_batch(now).0,
            final(actions)@ == old(actions)@ + old(self).with_open_batch(now).1,
    {
        let ghost before = *self;
        let ghost so_far = actions@;
        if self.batch_started_at.is_none() {
            self.batch_started_at = Some(now);
            if self.current_wait != self.settings.batch_max_wait {
                actions.push(ReceiverAction::SetReadTimeout(self.settings.batch_max_wait));
                self.current_wait = self.settings.batch_max_wait;
            }
        }
        assert(actions@ =~= so_far + before.with_open_batch(now).1);
    }

    fn flush(&mut self, actions: &mut Vec<ReceiverAction>)
        ensures
            *final(self) == old(self).flushed().0,
            final(actions)@ == old(actions)@ + old(self).flushed().1,
    {
        let ghost before = *self;
        let ghost so_far = actions@;
        actions.push(ReceiverAction::Flush);
        self.batch_started_at = None;
        self.held = 0;
        if self.current_wait != self.settings.idle_wait {
            actions.push(ReceiverAction::SetReadTimeout(self.settings.idle_wait));
            self.current_wait = self.settings.idle_wait;
        }
        assert(actions@ =~= so_far + before.flushed().1);
    }

    /// Whether the socket of a receiver of single packets waits as it should: for the rest of the
    /// batch while one is open, else for as long as an idle receiver waits.
    pub open spec fn waits_as_it_should(self) -> bool {
        !self.batched ==> self.current_wait == if self.batch_started_at is Some {
            self.settings.batch_max_wait
        } else {
            self.settings.idle_wait
        }
    }
}

/// How long the socket waits after some actions, if it waited for `wait` before.
pub open spec fn timeout_after(wait: Duration, actions: Seq<ReceiverAction>) -> Duration
    decreases actions.len(),
{
    if actions.len() == 0 {
        wait
    } else {
        match actions.last() {
            ReceiverAction::SetReadTimeout(set) => set,
            _ => timeout_after(wait, actions.drop_last()),
        }
    }
}

/// The socket of a receiver of single packets always waits as it should, and as the receiver
/// thinks it does.
pub proof fn socket_waits_as_it_should(receiver: UdpReceiver, event: ReceiverEvent)
    requires
        !receiver.batched,
        receiver.waits_as_it_should(),
    ensures
        receiver.next(event).0.waits_as_it_should(),
        timeout_after(receiver.current_wait, receiver.next(event).1) == receiver.next(event).0.current_wait,
{
    let wait = receiver.current_wait;
    let actions = receiver.next(event).1;
    reveal_with_fuel(timeout_after, 6);
    match event {
        ReceiverEvent::Packet { len, rxq_ovfl_counter, now } => {
            let (counted, drops) = receiver.with_kernel_count(rxq_ovfl_counter);
            timeout_after_more(wait, drops, Seq::empty());
            assert(timeout_after(wait, drops) == wait);
            if len > UDP_PACKET_BUFFER_BYTES {
                let fail = ReceiverAction::FailLength { len, capacity: UDP_PACKET_BUFFER_BYTES };
                timeout_after_more(wait, drops, seq![fail]);
            } else {
                let (open, timeout) = counted.with_open_batch(now);
                let tail = counting(receiver.counts, 1) + seq![ReceiverAction::AddPacket];
                assert(actions =~= drops + (timeout + tail));
                timeout_after_more(wait, drops, timeout + tail);
                timeout_after_more(wait, timeout, tail);
                if receiver.counts {
                    assert(tail.drop_last() =~= seq![ReceiverAction::CountPackets(1)]);
                } else {
                    assert(tail.drop_last() =~= Seq::<ReceiverAction>::empty());
                }
                assert(timeout_after(open.current_wait, tail) == open.current_wait);
            }
        },
        ReceiverEvent::Idle { shutdown } => {
            let flush = receiver.flushed().1;
            let tail = if shutdown {
                seq![ReceiverAction::Stop]
            } else {
                Seq::empty()
            };
            timeout_after_more(wait, flush, tail);
        },
        _ => {},
    }
}

proof fn timeout_after_more(wait: Duration, first: Seq<ReceiverAction>, second: Seq<ReceiverAction>)
    ensures
        timeout_after(wait, first + second) == timeout_after(timeout_after(wait, first), second),
    decreases second.len(),
{
    if second.len() == 0 {
        assert(first + second =~= first);
    } else {
        assert((first + second).drop_last() =~= first + second.drop_last());
        assert((first + second).last() == second.last());
        timeout_after_more(wait, first, second.drop_last());
    }
}

/// A batch never grows past its size: when a packet was added and looked at, fewer are held.
pub proof fn batches_stay_within_their_size(receiver: UdpReceiver, now: Instant)
    requires
        receiver.settings.batch_size > 0,
    ensures
        receiver.next(ReceiverEvent::Added { now }).0.held < receiver.settings.batch_size,
{
}

/// Asked to stop at the top of its loop, a receiver says to send the batch on and then to stop. One
/// that waited in vain says to send the batch on before anything else, and holds nothing then.
pub proof fn stopping_sends_the_batch_on(receiver: UdpReceiver, shutdown: bool)
    ensures
        receiver.next(ReceiverEvent::Turn { shutdown: true }).1 == seq![
            ReceiverAction::Flush,
            ReceiverAction::Stop,
        ],
        receiver.next(ReceiverEvent::Idle { shutdown }).1[0] == ReceiverAction::Flush,
        receiver.next(ReceiverEvent::Idle { shutdown }).0.held == 0,
{
}

/// What to do next to receive packets in one go.
#[derive(Debug, Clone, Copy, PartialEq, Eq, Structural)]
pub enum CoalesceAction {
    /// Receive some packets at most, without waiting.
    Receive(usize),
    /// Wait until the socket can be read, for a time at most.
    Wait(Duration),
    /// Done, with so many packets.
    Done(usize),
    /// Nothing came.
    WouldBlock,
}

/// What receiving packets in one go has come to.
#[derive(Debug, Clone, Copy, PartialEq, Eq, Structural)]
pub struct CoalescedReceive {
    /// How many packets are received at most.
    pub capacity: usize,
    /// How long to wait for the first one.
    pub idle_wait: Duration,
    /// When to stop waiting for more.
    pub deadline: Instant,
    /// How many packets came.
    pub total: usize,
    /// Whether the last try found nothing to read.
    pub blocked: bool,
}

/// The time from one point to another, none if it lies before.
pub open spec fn time_left(deadline: Instant, now: Instant) -> nat {
    if deadline.nanos() >= now.nanos() {
        (deadline.nanos() - now.nanos()) as nat
    } else {
        0
    }
}

impl CoalescedReceive {
    /// What to do when the socket may be read.
    pub open spec fn to_read(self) -> CoalesceAction {
        if self.total >= self.capacity {
            CoalesceAction::Done(self.total)
        } else {
            CoalesceAction::Receive((self.capacity - self.total) as usize)
        }
    }

    /// Whether to wait for a time is what is to be done, or to be done with what came where the
    /// time is up.
    pub open spec fn waits_for(self, nanos: nat, action: CoalesceAction) -> bool {
        if nanos == 0 {
            action == CoalesceAction::Done(self.total)
        } else {
            action matches CoalesceAction::Wait(span) && span.nanos() == nanos
        }
    }

    /// Starts to receive packets in one go.
    pub fn start(capacity: usize, idle_wait: Duration, batch_max_wait: Duration, now: Instant) -> (r: (
        Self,
        CoalesceAction,
    ))
        ensures
            r.0.capacity == capacity,
            r.0.idle_wait == idle_wait,
            r.0.deadline.nanos() == if now.nanos() + batch_max_wait.nanos() < INSTANT_END_NANOS {
                now.nanos() + batch_max_wait.nanos()
            } else {
                (INSTANT_END_NANOS - 1) as nat
            },
            r.0.total == 0,
            !r.0.blocked,
            r.1 == r.0.to_read(),
    {
        let deadline = match now.checked_add(batch_max_wait) {
            Some(deadline) => deadline,
            None => Instant::last(),
        };
        let state = CoalescedReceive { capacity, idle_wait, deadline, total: 0, blocked: false };
        let action = state.read_action();
        (state, action)
    }

    fn read_action(&self) -> (r: CoalesceAction)
        ensures
            r == self.to_read(),
    {
        if self.total >= self.capacity {
            CoalesceAction::Done(self.total)
        } else {
            CoalesceAction::Receive(self.capacity - self.total)
        }
    }

    /// Takes in that packets came: enough is enough, and until the time is up more are waited for.
    pub fn on_received(&mut self, count: usize, now: Instant) -> (r: CoalesceAction)
        ensures
            *final(self) == (CoalescedReceive {
                total: capped((old(self).total + count) as nat),
                blocked: false,
                ..*old(self)
            }),
            if final(self).total >= old(self).capacity {
                r == CoalesceAction::Done(final(self).total)
            } else {
                final(self).waits_for(time_left(old(self).deadline, now), r)
            },
    {
        self.total = self.total.saturating_add(count);
        self.blocked = false;
        if self.total >= self.capacity {
            return CoalesceAction::Done(self.total);
        }
        let left = self.deadline.saturating_duration_since(now);
        if left.as_nanos() == 0 {
            CoalesceAction::Done(self.total)
        } else {
            CoalesceAction::Wait(left)
        }
    }

    /// Takes in that there was nothing to read: the first packet is waited for longer than others.
    pub fn on_blocked(&mut self, now: Instant) -> (r: CoalesceAction)
        ensures
            *final(self) == (CoalescedReceive { blocked: true, ..*old(self) }),
            if old(self).total > 0 {
                final(self).waits_for(time_left(old(self).deadline, now), r)
            } else if old(self).idle_wait.nanos() == 0 {
                r == CoalesceAction::WouldBlock
            } else {
                r == CoalesceAction::Wait(old(self).idle_wait)
            },
    {
        self.blocked = true;
        if self.total > 0 {
            let left = self.deadline.saturating_duration_since(now);
            if left.as_nanos() == 0 {
                CoalesceAction::Done(self.total)
            } else {
                CoalesceAction::Wait(left)
            }
        } else if self.idle_wait.as_nanos() == 0 {
            CoalesceAction::WouldBlock
        } else {
            CoalesceAction::Wait(self.idle_wait)
        }
    }

    /// Takes in whether the socket can be read after the wait.
    pub fn on_waited(&self, readable: bool) -> (r: CoalesceAction)
        ensures
            r == if readable {
                self.to_read()
            } else if self.blocked && self.total == 0 {
                CoalesceAction::WouldBlock
            } else {
                CoalesceAction::Done(self.total)
            },
    {
        if readable {
            self.read_action()
        } else if self.blocked && self.total == 0 {
            CoalesceAction::WouldBlock
        } else {
            CoalesceAction::Done(self.total)
        }
    }
}

/// No more packets are received in one go than there is room for, if no try gives more than it was
/// asked for.
pub proof fn coalesced_packets_fit(state: CoalescedReceive, asked: usize, count: usize)
    requires
        state.to_read() == CoalesceAction::Receive(asked),
        count <= asked,
    ensures
        state.total + count <= state.capacity,
        capped((state.total + count) as nat) == state.total + count,
{
}

/// Once a packet was added, the batch is sent on exactly if it holds as many packets as a batch holds, or
/// was held open as long as it may be. What is sent on is forgotten; otherwise nothing changes.
pub proof fn batches_are_sent_when_due(receiver: UdpReceiver, now: Instant)
    ensures
        ({
            let (after, actions) = receiver.next(ReceiverEvent::Added { now });
            let due = receiver.held >= receiver.settings.batch_size || receiver.settings.batch_max_wait.nanos()
                == 0 || (receiver.batch_started_at is Some && now.nanos()
                >= receiver.batch_started_at->0.nanos() + receiver.settings.batch_max_wait.nanos());
            &&& due ==> actions.len() > 0 && actions[0] == ReceiverAction::Flush && after.held == 0
                && after.batch_started_at is None
            &&& !due ==> actions.len() == 0 && after == receiver
        }),
{
}

/// A packet that fits a buffer is added, is counted once if anything is counted, and opens the batch if
/// none is open; the time at which a batch was opened stays. A packet that does not fit stops the
/// receiver with the two lengths, and is not added.
pub proof fn packets_are_added(receiver: UdpReceiver, len: usize, counter: Option<u64>, now: Instant)
    requires
        receiver.held < usize::MAX,
    ensures
        ({
            let (after, actions) = receiver.next(
                ReceiverEvent::Packet { len, rxq_ovfl_counter: counter, now },
            );
            &&& actions.len() > 0
            &&& after.settings == receiver.settings && after.batched == receiver.batched && after.counts
                == receiver.counts
            &&& len <= 2048 ==> {
                &&& actions.last() == ReceiverAction::AddPacket
                &&& after.held == receiver.held + 1
                &&& after.batch_started_at == if receiver.batch_started_at is Some {
                    receiver.batch_started_at
                } else {
                    Some(now)
                }
                &&& receiver.counts ==> actions.contains(ReceiverAction::CountPackets(1))
            }
            &&& len > 2048 ==> {
                &&& actions.last() == (ReceiverAction::FailLength { len, capacity: 2048 })
                &&& !actions.contains(ReceiverAction::AddPacket)
                &&& after.held == receiver.held
            }
            &&& !receiver.counts ==> forall|n: usize| !(#[trigger] actions.contains(
                ReceiverAction::CountPackets(n),
            ))
        }),
{
    let (after, actions) = receiver.next(ReceiverEvent::Packet { len, rxq_ovfl_counter: counter, now });
    let (counted, drops) = receiver.with_kernel_count(counter);
    if len <= 2048 {
        let (open, timeout) = counted.with_open_batch(now);
        assert(actions == drops + timeout + counting(receiver.counts, 1) + seq![ReceiverAction::AddPacket]);
        if receiver.counts {
            assert(actions[(drops.len() + timeout.len()) as int] == ReceiverAction::CountPackets(1));
        }
    }
}

/// Packets that the kernel dropped are counted exactly if anything is counted and the kernel's count has
/// risen since the last packet, and then by as much as it has risen.
pub proof fn kernel_drops_are_counted(receiver: UdpReceiver, counter: Option<u64>, drops: u64)
    ensures
        ({
            let (after, actions) = receiver.with_kernel_count(counter);
            &&& actions.contains(ReceiverAction::CountKernelDrops(drops)) <==> receiver.counts && counter is Some
                && receiver.last_rxq_ovfl_counter is Some && counter->0 > receiver.last_rxq_ovfl_counter->0
                && drops == counter->0 - receiver.last_rxq_ovfl_counter->0
            &&& actions.len() <= 1
            &&& after.last_rxq_ovfl_counter == if receiver.counts && counter is Some {
                counter
            } else {
                receiver.last_rxq_ovfl_counter
            }
            &&& after.held == receiver.held && after.batch_started_at == receiver.batch_started_at
                && after.current_wait == receiver.current_wait
        }),
{
    let (after, actions) = receiver.with_kernel_count(counter);
    if actions.len() > 0 {
        assert(actions[0] == actions[0]);
        assert(actions.contains(actions[0]));
    }
}

/// What else a receiver does. At the top of its loop it receives, in one go or packet by packet, unless
/// it is to stop. Packets that came in one go are counted, if anything is, and sent on; none at all are
/// not. One that received nothing goes on unless it is to stop, and one that failed stops.
pub proof fn receivers_go_on_until_told(receiver: UdpReceiver, shutdown: bool, received: usize)
    ensures
        receiver.next(ReceiverEvent::Turn { shutdown: false }).1 == seq![
            if receiver.batched {
                ReceiverAction::ReceiveBatch
            } else {
                ReceiverAction::ReceivePacket
            },
        ],
        receiver.next(ReceiverEvent::Turn { shutdown }).0 == receiver,
        receiver.next(ReceiverEvent::BatchReceived { received }).0 == receiver,
        received == 0 ==> receiver.next(ReceiverEvent::BatchReceived { received }).1.len() == 0,
        received > 0 ==> receiver.next(ReceiverEvent::BatchReceived { received }).1.last()
            == ReceiverAction::Flush,
        received > 0 && receiver.counts ==> receiver.next(ReceiverEvent::BatchReceived { received }).1[0]
            == ReceiverAction::CountPackets(received),
        received > 0 && !receiver.counts ==> receiver.next(ReceiverEvent::BatchReceived { received }).1.len()
            == 1,
        receiver.next(ReceiverEvent::BatchIdle { shutdown }).1.contains(ReceiverAction::Stop) <==> shutdown,
        receiver.next(ReceiverEvent::BatchIdle { shutdown }).0 == receiver,
        receiver.next(ReceiverEvent::Idle { shutdown }).1.contains(ReceiverAction::Stop) <==> shutdown,
        receiver.next(ReceiverEvent::Idle { shutdown }).0.batch_started_at is None,
        receiver.next(ReceiverEvent::Failed).1 == seq![ReceiverAction::FailReceive],
{
    if shutdown {
        assert(receiver.next(ReceiverEvent::BatchIdle { shutdown }).1[0] == ReceiverAction::Stop);
        let idle = receiver.next(ReceiverEvent::Idle { shutdown }).1;
        assert(idle[idle.len() - 1] == ReceiverAction::Stop);
    }
}

/// A receiver starts with nothing held and no batch open. Its socket does not block where packets are
/// received in one go; otherwise it blocks, and waits as long as an idle receiver does.
pub proof fn receivers_start_idle(settings: ReceiverSettings, batched: bool, counts: bool)
    ensures
        UdpReceiver::started(settings, batched, counts).held == 0,
        UdpReceiver::started(settings, batched, counts).batch_started_at is None,
        UdpReceiver::started(settings, batched, counts).last_rxq_ovfl_counter is None,
        UdpReceiver::started(settings, batched, counts).settings == settings,
        UdpReceiver::started(settings, batched, counts).counts == counts,
        UdpReceiver::started(settings, batched, counts).batched == batched,
        UdpReceiver::started(settings, batched, counts).waits_as_it_should(),
        UdpReceiver::setup(settings, batched)[0] == ReceiverAction::SetNonblocking(batched),
        !batched ==> UdpReceiver::setup(settings, batched).last() == ReceiverAction::SetReadTimeout(
            settings.idle_wait,
        ),
        batched ==> UdpReceiver::setup(settings, batched).len() == 1,
{
}

/// In one go, packets are received until there are as many as there is room for, never more are asked
/// for than still fit, and a wait is for what is left of the time, with the end where none is.
pub proof fn coalescing_asks_for_what_fits(state: CoalescedReceive, now: Instant, action: CoalesceAction)
    ensures
        state.total < state.capacity ==> state.to_read() == CoalesceAction::Receive(
            (state.capacity - state.total) as usize,
        ),
        state.total >= state.capacity ==> state.to_read() == CoalesceAction::Done(state.total),
        state.waits_for(time_left(state.deadline, now), action) && now.nanos() >= state.deadline.nanos()
            ==> action == CoalesceAction::Done(state.total),
        state.waits_for(time_left(state.deadline, now), action) && now.nanos() < state.deadline.nanos()
            ==> action is Wait && action->Wait_0.nanos() == state.deadline.nanos() - now.nanos(),
{
}

} // verus!
