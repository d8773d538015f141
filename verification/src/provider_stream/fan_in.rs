//! Many sources feeding one queue: who may use which identity, what a reserved sender may send,
//! and how a stopped source is withdrawn.
use crate::provider_stream::source::{
    ProviderSourceHealthEvent, ProviderSourceHealthReason, ProviderSourceHealthStatus,
    ProviderSourceIdentity, ProviderSourceIdentityRegistrationError, ProviderSourceReadiness,
    ProviderSourceRef,
};
use crate::provider_stream::update::ProviderStreamUpdate;
use crate::time::Duration;
use vstd::prelude::*;

verus! {

/// The identities that are reserved for one queue.
#[derive(Debug)]
pub struct ProviderSourceRegistry {
    identities: Vec<ProviderSourceIdentity>,
}

/// Whether a source is among the reserved ones.
pub open spec fn is_reserved(reserved: Seq<ProviderSourceIdentity>, source: ProviderSourceIdentity) -> bool {
    exists|i: int| 0 <= i < reserved.len() && #[trigger] reserved[i].same_source(source)
}

/// No source is reserved twice.
pub open spec fn reserved_once(reserved: Seq<ProviderSourceIdentity>) -> bool {
    forall|i: int, j: int|
        0 <= i < j < reserved.len() ==> !(#[trigger] reserved[i]).same_source(#[trigger] reserved[j])
}

/// The reserved sources after `source` was asked for.
pub open spec fn after_reserve(
    reserved: Seq<ProviderSourceIdentity>,
    source: ProviderSourceIdentity,
) -> Seq<ProviderSourceIdentity> {
    if is_reserved(reserved, source) {
        reserved
    } else {
        reserved.push(source)
    }
}

/// The reserved sources after `source` was given back.
pub open spec fn after_release(
    reserved: Seq<ProviderSourceIdentity>,
    source: ProviderSourceIdentity,
) -> Seq<ProviderSourceIdentity>
    decreases reserved.len(),
{
    if reserved.len() == 0 {
        reserved
    } else if reserved.last().same_source(source) {
        after_release(reserved.drop_last(), source)
    } else {
        after_release(reserved.drop_last(), source).push(reserved.last())
    }
}

impl View for ProviderSourceRegistry {
    type V = Seq<ProviderSourceIdentity>;

    closed spec fn view(&self) -> Seq<ProviderSourceIdentity> {
        self.identities@
    }
}

impl ProviderSourceRegistry {
    /// Creates a registry with nothing reserved.
    pub fn new() -> (r: Self)
        ensures
            r@ == Seq::<ProviderSourceIdentity>::empty(),
            reserved_once(r@),
    {
        ProviderSourceRegistry { identities: Vec::new() }
    }

    /// Whether `source` is reserved.
    pub fn contains(&self, source: &ProviderSourceIdentity) -> (r: bool)
        ensures
            r == is_reserved(self@, *source),
    {
        let mut i: usize = 0;
        while i < self.identities.len()
            invariant
                i <= self.identities@.len(),
                forall|j: int| 0 <= j < i ==> !(#[trigger] self.identities@[j]).same_source(*source),
            decreases self.identities@.len() - i,
        {
            if self.identities[i] == *source {
                assert(self@[i as int].same_source(*source));
                return true;
            }
            i += 1;
        }
        false
    }

    /// Reserves an identity, or hands it back in an error if the same source is reserved.
    pub fn reserve_source_identity(
        &mut self,
        source: ProviderSourceIdentity,
    ) -> (r: Result<ProviderSourceIdentity, ProviderSourceIdentityRegistrationError>)
        requires
            reserved_once(old(self)@),
        ensures
            final(self)@ == after_reserve(old(self)@, source),
            reserved_once(final(self)@),
            match r {
                Ok(kept) => !is_reserved(old(self)@, source) && kept == source,
                Err(error) => is_reserved(old(self)@, source) && error.0 == source,
            },
    {
        if self.contains(&source) {
            return Err(ProviderSourceIdentityRegistrationError(source));
        }
        self.identities.push(source.clone());
        proof {
            let before = old(self)@;
            let after = self@;
            assert forall|i: int, j: int| 0 <= i < j < after.len() implies !(#[trigger] after[i]).same_source(
                #[trigger] after[j],
            ) by {
                assert(after[i] == before[i]);
                if j < before.len() {
                    assert(after[j] == before[j]);
                }
            }
        }
        Ok(source)
    }

    /// Gives an identity back.
    pub fn release_source_identity(&mut self, source: &ProviderSourceIdentity)
        requires
            reserved_once(old(self)@),
        ensures
            final(self)@ == after_release(old(self)@, *source),
            reserved_once(final(self)@),
    {
        let ghost before = self.identities@;
        let mut kept: Vec<ProviderSourceIdentity> = Vec::new();
        let mut i: usize = 0;
        while i < self.identities.len()
            invariant
                i <= self.identities@.len(),
                self.identities@ == before,
                kept@ == after_release(before.take(i as int), *source),
            decreases self.identities@.len() - i,
        {
            proof {
                assert(before.take(i + 1).drop_last() =~= before.take(i as int));
                assert(before.take(i + 1).last() == before[i as int]);
            }
            if !(self.identities[i] == *source) {
                kept.push(self.identities[i].clone());
            }
            i += 1;
        }
        proof {
            assert(before.take(before.len() as int) =~= before);
            release_keeps_once(before, *source);
        }
        self.identities = kept;
    }
}

proof fn release_keeps_members(
    reserved: Seq<ProviderSourceIdentity>,
    source: ProviderSourceIdentity,
    other: ProviderSourceIdentity,
)
    ensures
        is_reserved(after_release(reserved, source), other) <==> is_reserved(reserved, other)
            && exists|i: int|
                0 <= i < reserved.len() && (#[trigger] reserved[i]).same_source(other)
                    && !reserved[i].same_source(source),
    decreases reserved.len(),
{
    if reserved.len() > 0 {
        let front = reserved.drop_last();
        let rest = after_release(front, source);
        release_keeps_members(front, source, other);
        let all = after_release(reserved, source);
        if reserved.last().same_source(source) {
            if is_reserved(all, other) {
                let i = choose|i: int|
                    0 <= i < front.len() && (#[trigger] front[i]).same_source(other)
                        && !front[i].same_source(source);
                assert(reserved[i] == front[i]);
            }
            if exists|i: int|
                0 <= i < reserved.len() && (#[trigger] reserved[i]).same_source(other)
                    && !reserved[i].same_source(source) {
                let i = choose|i: int|
                    0 <= i < reserved.len() && (#[trigger] reserved[i]).same_source(other)
                        && !reserved[i].same_source(source);
                assert(front[i] == reserved[i]);
            }
        } else {
            if is_reserved(all, other) {
                let k = choose|k: int| 0 <= k < all.len() && (#[trigger] all[k]).same_source(other);
                if k < rest.len() {
                    assert(rest[k] == all[k]);
                    let i = choose|i: int|
                        0 <= i < front.len() && (#[trigger] front[i]).same_source(other)
                            && !front[i].same_source(source);
                    assert(reserved[i] == front[i]);
                } else {
                    assert(reserved[reserved.len() - 1].same_source(other));
                }
            }
            if exists|i: int|
                0 <= i < reserved.len() && (#[trigger] reserved[i]).same_source(other)
                    && !reserved[i].same_source(source) {
                let i = choose|i: int|
                    0 <= i < reserved.len() && (#[trigger] reserved[i]).same_source(other)
                        && !reserved[i].same_source(source);
                if i < front.len() {
                    assert(front[i] == reserved[i]);
                    let k = choose|k: int| 0 <= k < rest.len() && (#[trigger] rest[k]).same_source(other);
                    assert(all[k] == rest[k]);
                } else {
                    assert(all[all.len() - 1].same_source(other));
                }
            }
        }
    }
}

proof fn release_keeps_once(reserved: Seq<ProviderSourceIdentity>, source: ProviderSourceIdentity)
    requires
        reserved_once(reserved),
    ensures
        reserved_once(after_release(reserved, source)),
    decreases reserved.len(),
{
    if reserved.len() > 0 {
        let front = reserved.drop_last();
        assert forall|i: int, j: int| 0 <= i < j < front.len() implies !(#[trigger] front[i]).same_source(
            #[trigger] front[j],
        ) by {
            assert(front[i] == reserved[i] && front[j] == reserved[j]);
        }
        release_keeps_once(front, source);
        let rest = after_release(front, source);
        let all = after_release(reserved, source);
        if !reserved.last().same_source(source) {
            assert forall|i: int, j: int| 0 <= i < j < all.len() implies !(#[trigger] all[i]).same_source(
                #[trigger] all[j],
            ) by {
                assert(all[i] == rest[i]);
                if j < rest.len() {
                    assert(all[j] == rest[j]);
                } else if all[i].same_source(all[j]) {
                    release_keeps_members(front, source, all[j]);
                    assert(is_reserved(rest, all[j]));
                    let k = choose|k: int|
                        0 <= k < front.len() && (#[trigger] front[k]).same_source(all[j])
                            && !front[k].same_source(source);
                    assert(reserved[k].same_source(reserved[reserved.len() - 1]));
                }
            }
        }
    }
}

/// A source that is reserved cannot be reserved again, one that was given back can, and neither
/// step touches any other source.
pub proof fn reservations_are_exclusive(
    reserved: Seq<ProviderSourceIdentity>,
    source: ProviderSourceIdentity,
    other: ProviderSourceIdentity,
)
    requires
        !other.same_source(source),
    ensures
        is_reserved(after_reserve(reserved, source), source),
        !is_reserved(after_release(reserved, source), source),
        is_reserved(after_reserve(reserved, source), other) <==> is_reserved(reserved, other),
        is_reserved(after_release(reserved, source), other) <==> is_reserved(reserved, other),
{
    let pushed = after_reserve(reserved, source);
    if !is_reserved(reserved, source) {
        assert(pushed[pushed.len() - 1].same_source(source));
    }
    if is_reserved(reserved, other) {
        let i = choose|i: int| 0 <= i < reserved.len() && (#[trigger] reserved[i]).same_source(other);
        assert(pushed[i] == reserved[i]);
        assert(!reserved[i].same_source(source));
    }
    if is_reserved(pushed, other) {
        let i = choose|i: int| 0 <= i < pushed.len() && (#[trigger] pushed[i]).same_source(other);
        if i < reserved.len() {
            assert(reserved[i] == pushed[i]);
        }
    }
    release_keeps_members(reserved, source, source);
    release_keeps_members(reserved, source, other);
}

/// What a reserved sender does with an update.
#[derive(Debug)]
pub enum ReservedSend {
    /// Queue this update.
    Queue(ProviderStreamUpdate),
    /// Hand this update back to the producer.
    Refuse(ProviderStreamUpdate),
}

/// Whether an update withdraws its source.
pub open spec fn withdraws_source(update: ProviderStreamUpdate) -> bool {
    update matches ProviderStreamUpdate::Health(event) && event.status == ProviderSourceHealthStatus::Removed
}

/// Binds an update to the source that a sender was reserved for, whatever source it carries, and
/// refuses one that would withdraw that source while the sender lives.
pub fn bind_reserved_update(source: &ProviderSourceIdentity, update: ProviderStreamUpdate) -> (r: ReservedSend)
    ensures
        match r {
            ReservedSend::Queue(bound) => !withdraws_source(update) && exists|shared: ProviderSourceRef|
                *shared == *source && bound == #[trigger] update.tagged(shared),
            ReservedSend::Refuse(bound) => withdraws_source(update) && exists|shared: ProviderSourceRef|
                *shared == *source && bound == #[trigger] update.tagged(shared),
        },
{
    let removed: bool = match &update {
        ProviderStreamUpdate::Health(event) => event.status == ProviderSourceHealthStatus::Removed,
        _ => false,
    };
    let bound = update.with_provider_source(source.clone());
    if removed {
        ReservedSend::Refuse(bound)
    } else {
        ReservedSend::Queue(bound)
    }
}

/// The event that withdraws a source.
pub fn source_removed_event(
    source: &ProviderSourceIdentity,
    readiness: ProviderSourceReadiness,
    message: String,
) -> (r: ProviderSourceHealthEvent)
    ensures
        r.tells(
            *source,
            readiness,
            ProviderSourceHealthStatus::Removed,
            ProviderSourceHealthReason::SourceRemoved,
            message@,
        ),
{
    ProviderSourceHealthEvent::about(
        source,
        readiness,
        ProviderSourceHealthStatus::Removed,
        ProviderSourceHealthReason::SourceRemoved,
        message,
    )
}

/// The event that withdraws a generic source whose reserved sender was dropped.
pub fn reserved_sender_dropped_event(source: &ProviderSourceIdentity) -> (r: ProviderSourceHealthEvent)
    ensures
        r.tells(
            *source,
            ProviderSourceReadiness::Optional,
            ProviderSourceHealthStatus::Removed,
            ProviderSourceHealthReason::SourceRemoved,
            "reserved provider source sender dropped and was removed from tracking"@,
        ),
{
    source_removed_event(
        source,
        ProviderSourceReadiness::Optional,
        "reserved provider source sender dropped and was removed from tracking".to_owned(),
    )
}

/// How a queue answered an attempt to put an update in without waiting.
#[derive(Clone, Copy, Debug, PartialEq, Eq, Structural)]
pub enum QueueAnswer {
    /// The update is in the queue.
    Accepted,
    /// The queue has no room.
    Full,
    /// Nobody receives any more.
    Closed,
}

/// What is left to do to withdraw a source.
#[derive(Clone, Copy, Debug, PartialEq, Eq, Structural)]
pub enum RemovalStep {
    /// Give the identity back now.
    Release,
    /// Wait on the runtime for room in the queue, then give the identity back.
    AwaitRoomThenRelease,
    /// Try again from a thread, without a runtime.
    RetryWithoutRuntime,
    /// Sleep, then try once more.
    SleepThenRetry(Duration),
    /// Sleep, then give the identity back though the update is not in the queue.
    SleepThenRelease(Duration),
}

/// Attempts that are made without a runtime before an identity is given back anyway.
pub const SOURCE_REMOVED_NO_RUNTIME_RETRY_ATTEMPTS: usize = 64;

/// Milliseconds between two attempts without a runtime.
pub const SOURCE_REMOVED_NO_RUNTIME_RETRY_DELAY_MS: u64 = 5;

/// What follows the first attempt to queue a source's withdrawal.
pub fn emit_provider_source_removed(answer: QueueAnswer, has_runtime: bool) -> (r: RemovalStep)
    ensures
        r == match answer {
            QueueAnswer::Accepted | QueueAnswer::Closed => RemovalStep::Release,
            QueueAnswer::Full => if has_runtime {
                RemovalStep::AwaitRoomThenRelease
            } else {
                RemovalStep::RetryWithoutRuntime
            },
        },
{
    match answer {
        QueueAnswer::Accepted | QueueAnswer::Closed => RemovalStep::Release,
        QueueAnswer::Full => if has_runtime {
            RemovalStep::AwaitRoomThenRelease
        } else {
            RemovalStep::RetryWithoutRuntime
        },
    }
}

/// Retries of a withdrawal without a runtime.
#[derive(Debug)]
pub struct RemovalRetries {
    /// Attempts that found the queue full.
    pub refused: usize,
}

impl RemovalRetries {
    /// Starts with no attempt made.
    pub fn new() -> (r: Self)
        ensures
            r.refused == 0,
    {
        RemovalRetries { refused: 0 }
    }

    /// What follows an attempt: an accepted update or a closed queue ends the retries, a full
    /// queue is tried again after a pause until the attempts are used up.
    pub fn on_answer(&mut self, answer: QueueAnswer) -> (r: RemovalStep)
        requires
            old(self).refused < SOURCE_REMOVED_NO_RUNTIME_RETRY_ATTEMPTS,
        ensures
            match answer {
                QueueAnswer::Accepted | QueueAnswer::Closed => r == RemovalStep::Release && *final(self) == *old(
                    self,
                ),
                QueueAnswer::Full => {
                    &&& final(self).refused == old(self).refused + 1
                    &&& if final(self).refused < SOURCE_REMOVED_NO_RUNTIME_RETRY_ATTEMPTS {
                        r matches RemovalStep::SleepThenRetry(pause) && pause.nanos()
                            == SOURCE_REMOVED_NO_RUNTIME_RETRY_DELAY_MS * 1_000_000
                    } else {
                        r matches RemovalStep::SleepThenRelease(pause) && pause.nanos()
                            == SOURCE_REMOVED_NO_RUNTIME_RETRY_DELAY_MS * 1_000_000
                    }
                },
            },
    {
        match answer {
            QueueAnswer::Accepted | QueueAnswer::Closed => RemovalStep::Release,
            QueueAnswer::Full => {
                self.refused = self.refused + 1;
                let pause = Duration::from_millis(SOURCE_REMOVED_NO_RUNTIME_RETRY_DELAY_MS);
                if self.refused < SOURCE_REMOVED_NO_RUNTIME_RETRY_ATTEMPTS {
                    RemovalStep::SleepThenRetry(pause)
                } else {
                    RemovalStep::SleepThenRelease(pause)
                }
            },
        }
    }
}

/// Reserving a source keeps the others in their places and adds it behind them exactly if it is none of
/// them. Giving one back leaves exactly the others.
pub proof fn reservations_keep_the_others(
    reserved: Seq<ProviderSourceIdentity>,
    source: ProviderSourceIdentity,
    other: ProviderSourceIdentity,
)
    ensures
        forall|i: int| 0 <= i < reserved.len() ==> #[trigger] after_reserve(reserved, source)[i] == reserved[i],
        (exists|i: int| 0 <= i < reserved.len() && (#[trigger] reserved[i]).same_source(source)) ==> after_reserve(
            reserved,
            source,
        ).len() == reserved.len(),
        (forall|i: int| 0 <= i < reserved.len() ==> !(#[trigger] reserved[i]).same_source(source))
            ==> after_reserve(reserved, source).len() == reserved.len() + 1 && after_reserve(
            reserved,
            source,
        ).last() == source,
        after_release(reserved, source).contains(other) <==> reserved.contains(other) && !other.same_source(
            source,
        ),
        after_release(reserved, source).len() <= reserved.len(),
    decreases reserved.len(),
{
    if reserved.len() > 0 {
        let front = reserved.drop_last();
        reservations_keep_the_others(front, source, other);
        let rest = after_release(front, source);
        let all = after_release(reserved, source);
        if reserved.contains(other) {
            let i = choose|i: int| 0 <= i < reserved.len() && reserved[i] == other;
            if i < front.len() {
                assert(front[i] == other);
            }
        }
        if front.contains(other) {
            let i = choose|i: int| 0 <= i < front.len() && front[i] == other;
            assert(reserved[i] == other);
        }
        assert(reserved[reserved.len() - 1] == reserved.last());
        if !reserved.last().same_source(source) {
            assert(all == rest.push(reserved.last()));
            assert(all[all.len() - 1] == reserved.last());
            if rest.contains(other) {
                let i = choose|i: int| 0 <= i < rest.len() && rest[i] == other;
                assert(all[i] == other);
            }
            if all.contains(other) {
                let i = choose|i: int| 0 <= i < all.len() && all[i] == other;
                if i < rest.len() {
                    assert(rest[i] == other);
                }
            }
        }
    }
}

/// The updates that a reserved sender refuses are the health events that say the source is removed,
/// whichever source they carry.
pub proof fn only_removals_are_refused(update: ProviderStreamUpdate, source: ProviderSourceRef)
    ensures
        update matches ProviderStreamUpdate::Health(event) ==> (withdraws_source(update) <==> event.status
            == ProviderSourceHealthStatus::Removed),
        !(update is Health) ==> !withdraws_source(update),
        withdraws_source(update.tagged(source)) <==> withdraws_source(update),
{
}

/// A withdrawal without a runtime is given up after 64 full queues, 5 milliseconds apart: within a third
/// of a second.
pub proof fn removal_is_retried_briefly()
    ensures
        SOURCE_REMOVED_NO_RUNTIME_RETRY_ATTEMPTS == 64,
        SOURCE_REMOVED_NO_RUNTIME_RETRY_DELAY_MS == 5,
        SOURCE_REMOVED_NO_RUNTIME_RETRY_ATTEMPTS * SOURCE_REMOVED_NO_RUNTIME_RETRY_DELAY_MS <= 333,
{
}

} // verus!
