//! Updates that provider sources deliver.
use crate::framework::{
    AccountUpdateEvent, BlockMetaEvent, ClusterTopologyEvent, LeaderScheduleEvent,
    ObservedRecentBlockhashEvent, ReorgEvent, SerializedTransactionEvent, SlotStatusEvent,
    TransactionEvent, TransactionLogEvent, TransactionStatusEvent, TransactionViewBatchEvent,
};
use crate::provider_stream::source::{
    ProviderSourceHealthEvent, ProviderSourceIdentity, ProviderSourceRef,
};
use std::sync::Arc;
use vstd::prelude::*;
use vstd::std_specs::convert::FromSpecImpl;

verus! {

/// One update from a provider.
#[derive(Debug, Clone)]
pub enum ProviderStreamUpdate {
    /// A decoded transaction.
    Transaction(TransactionEvent),
    /// A transaction that is still serialized.
    SerializedTransaction(SerializedTransactionEvent),
    /// A transaction's log lines.
    TransactionLog(TransactionLogEvent),
    /// A transaction's outcome.
    TransactionStatus(TransactionStatusEvent),
    /// A batch of transaction views.
    TransactionViewBatch(TransactionViewBatchEvent),
    /// An account's new state.
    AccountUpdate(AccountUpdateEvent),
    /// A block's header data.
    BlockMeta(BlockMetaEvent),
    /// A recent block hash.
    RecentBlockhash(ObservedRecentBlockhashEvent),
    /// A change of a slot's status.
    SlotStatus(SlotStatusEvent),
    /// A change of the cluster topology.
    ClusterTopology(ClusterTopologyEvent),
    /// A change of the leader schedule.
    LeaderSchedule(LeaderScheduleEvent),
    /// A change of the canonical fork.
    Reorg(ReorgEvent),
    /// A change of a source's health.
    Health(ProviderSourceHealthEvent),
}

impl ProviderStreamUpdate {
    /// The update with `source` as the source that delivered it, all else unchanged.
    pub open spec fn tagged(self, source: ProviderSourceRef) -> Self {
        match self {
            ProviderStreamUpdate::Transaction(event) => ProviderStreamUpdate::Transaction(
                TransactionEvent { provider_source: Some(source), ..event },
            ),
            ProviderStreamUpdate::SerializedTransaction(event) => ProviderStreamUpdate::SerializedTransaction(
                SerializedTransactionEvent { provider_source: Some(source), ..event },
            ),
            ProviderStreamUpdate::TransactionLog(event) => ProviderStreamUpdate::TransactionLog(
                TransactionLogEvent { provider_source: Some(source), ..event },
            ),
            ProviderStreamUpdate::TransactionStatus(event) => ProviderStreamUpdate::TransactionStatus(
                TransactionStatusEvent { provider_source: Some(source), ..event },
            ),
            ProviderStreamUpdate::TransactionViewBatch(event) => ProviderStreamUpdate::TransactionViewBatch(
                TransactionViewBatchEvent { provider_source: Some(source), ..event },
            ),
            ProviderStreamUpdate::AccountUpdate(event) => ProviderStreamUpdate::AccountUpdate(
                AccountUpdateEvent { provider_source: Some(source), ..event },
            ),
            ProviderStreamUpdate::BlockMeta(event) => ProviderStreamUpdate::BlockMeta(
                BlockMetaEvent { provider_source: Some(source), ..event },
            ),
            ProviderStreamUpdate::RecentBlockhash(event) => ProviderStreamUpdate::RecentBlockhash(
                ObservedRecentBlockhashEvent { provider_source: Some(source), ..event },
            ),
            ProviderStreamUpdate::SlotStatus(event) => ProviderStreamUpdate::SlotStatus(
                SlotStatusEvent { provider_source: Some(source), ..event },
            ),
            ProviderStreamUpdate::ClusterTopology(event) => ProviderStreamUpdate::ClusterTopology(
                ClusterTopologyEvent { provider_source: Some(source), ..event },
            ),
            ProviderStreamUpdate::LeaderSchedule(event) => ProviderStreamUpdate::LeaderSchedule(
                LeaderScheduleEvent { provider_source: Some(source), ..event },
            ),
            ProviderStreamUpdate::Reorg(event) => ProviderStreamUpdate::Reorg(
                ReorgEvent { provider_source: Some(source), ..event },
            ),
            ProviderStreamUpdate::Health(event) => ProviderStreamUpdate::Health(
                ProviderSourceHealthEvent { source: *source, ..event },
            ),
        }
    }

    /// Tags the update with the source that delivered it.
    pub fn with_provider_source(self, source: ProviderSourceIdentity) -> (r: Self)
        ensures
            exists|shared: ProviderSourceRef| *shared == source && r == #[trigger] self.tagged(shared),
    {
        let shared = Arc::new(source);
        let tagged = self.with_provider_source_ref(&shared);
        assert(*shared == source && tagged == self.tagged(shared));
        tagged
    }

    /// Tags the update with a shared reference to the source that delivered it.
    pub fn with_provider_source_ref(self, source: &ProviderSourceRef) -> (r: Self)
        ensures
            r == self.tagged(*source),
    {
        match self {
            ProviderStreamUpdate::Transaction(event) => {
                let mut event = event;
                event.provider_source = Some(source.clone());
                ProviderStreamUpdate::Transaction(event)
            },
            ProviderStreamUpdate::SerializedTransaction(event) => {
                let mut event = event;
                event.provider_source = Some(source.clone());
                ProviderStreamUpdate::SerializedTransaction(event)
            },
            ProviderStreamUpdate::TransactionLog(event) => {
                let mut event = event;
                event.provider_source = Some(source.clone());
                ProviderStreamUpdate::TransactionLog(event)
            },
            ProviderStreamUpdate::TransactionStatus(event) => {
                let mut event = event;
                event.provider_source = Some(source.clone());
                ProviderStreamUpdate::TransactionStatus(event)
            },
            ProviderStreamUpdate::TransactionViewBatch(event) => {
                let mut event = event;
                event.provider_source = Some(source.clone());
                ProviderStreamUpdate::TransactionViewBatch(event)
            },
            ProviderStreamUpdate::AccountUpdate(event) => {
                let mut event = event;
                event.provider_source = Some(source.clone());
                ProviderStreamUpdate::AccountUpdate(event)
            },
            ProviderStreamUpdate::BlockMeta(event) => {
                let mut event = event;
                event.provider_source = Some(source.clone());
                ProviderStreamUpdate::BlockMeta(event)
            },
            ProviderStreamUpdate::RecentBlockhash(event) => {
                let mut event = event;
                event.provider_source = Some(source.clone());
                ProviderStreamUpdate::RecentBlockhash(event)
            },
            ProviderStreamUpdate::SlotStatus(event) => {
                let mut event = event;
                event.provider_source = Some(source.clone());
                ProviderStreamUpdate::SlotStatus(event)
            },
            ProviderStreamUpdate::ClusterTopology(event) => {
                let mut event = event;
                event.provider_source = Some(source.clone());
                ProviderStreamUpdate::ClusterTopology(event)
            },
            ProviderStreamUpdate::LeaderSchedule(event) => {
                let mut event = event;
                event.provider_source = Some(source.clone());
                ProviderStreamUpdate::LeaderSchedule(event)
            },
            ProviderStreamUpdate::Reorg(event) => {
                let mut event = event;
                event.provider_source = Some(source.clone());
                ProviderStreamUpdate::Reorg(event)
            },
            ProviderStreamUpdate::Health(event) => {
                let mut event = event;
                event.source = (**source).clone();
                ProviderStreamUpdate::Health(event)
            },
        }
    }
}

/// Tagging an update twice leaves the second source on it.
pub proof fn last_tag_wins(update: ProviderStreamUpdate, first: ProviderSourceRef, second: ProviderSourceRef)
    ensures
        update.tagged(first).tagged(second) == update.tagged(second),
{
}

impl From<TransactionEvent> for ProviderStreamUpdate {
    fn from(event: TransactionEvent) -> (r: Self) {
        ProviderStreamUpdate::Transaction(event)
    }
}

impl FromSpecImpl<TransactionEvent> for ProviderStreamUpdate {
    open spec fn obeys_from_spec() -> bool {
        true
    }

    open spec fn from_spec(event: TransactionEvent) -> Self {
        ProviderStreamUpdate::Transaction(event)
    }
}

impl From<SerializedTransactionEvent> for ProviderStreamUpdate {
    fn from(event: SerializedTransactionEvent) -> (r: Self) {
        ProviderStreamUpdate::SerializedTransaction(event)
    }
}

impl FromSpecImpl<SerializedTransactionEvent> for ProviderStreamUpdate {
    open spec fn obeys_from_spec() -> bool {
        true
    }

    open spec fn from_spec(event: SerializedTransactionEvent) -> Self {
        ProviderStreamUpdate::SerializedTransaction(event)
    }
}

impl From<TransactionLogEvent> for ProviderStreamUpdate {
    fn from(event: TransactionLogEvent) -> (r: Self) {
        ProviderStreamUpdate::TransactionLog(event)
    }
}

impl FromSpecImpl<TransactionLogEvent> for ProviderStreamUpdate {
    open spec fn obeys_from_spec() -> bool {
        true
    }

    open spec fn from_spec(event: TransactionLogEvent) -> Self {
        ProviderStreamUpdate::TransactionLog(event)
    }
}

impl From<TransactionStatusEvent> for ProviderStreamUpdate {
    fn from(event: TransactionStatusEvent) -> (r: Self) {
        ProviderStreamUpdate::TransactionStatus(event)
    }
}

impl FromSpecImpl<TransactionStatusEvent> for ProviderStreamUpdate {
    open spec fn obeys_from_spec() -> bool {
        true
    }

    open spec fn from_spec(event: TransactionStatusEvent) -> Self {
        ProviderStreamUpdate::TransactionStatus(event)
    }
}

impl From<TransactionViewBatchEvent> for ProviderStreamUpdate {
    fn from(event: TransactionViewBatchEvent) -> (r: Self) {
        ProviderStreamUpdate::TransactionViewBatch(event)
    }
}

impl FromSpecImpl<TransactionViewBatchEvent> for ProviderStreamUpdate {
    open spec fn obeys_from_spec() -> bool {
        true
    }

    open spec fn from_spec(event: TransactionViewBatchEvent) -> Self {
        ProviderStreamUpdate::TransactionViewBatch(event)
    }
}

impl From<AccountUpdateEvent> for ProviderStreamUpdate {
    fn from(event: AccountUpdateEvent) -> (r: Self) {
        ProviderStreamUpdate::AccountUpdate(event)
    }
}

impl FromSpecImpl<AccountUpdateEvent> for ProviderStreamUpdate {
    open spec fn obeys_from_spec() -> bool {
        true
    }

    open spec fn from_spec(event: AccountUpdateEvent) -> Self {
        ProviderStreamUpdate::AccountUpdate(event)
    }
}

impl From<BlockMetaEvent> for ProviderStreamUpdate {
    fn from(event: BlockMetaEvent) -> (r: Self) {
        ProviderStreamUpdate::BlockMeta(event)
    }
}

impl FromSpecImpl<BlockMetaEvent> for ProviderStreamUpdate {
    open spec fn obeys_from_spec() -> bool {
        true
    }

    open spec fn from_spec(event: BlockMetaEvent) -> Self {
        ProviderStreamUpdate::BlockMeta(event)
    }
}

impl From<ObservedRecentBlockhashEvent> for ProviderStreamUpdate {
    fn from(event: ObservedRecentBlockhashEvent) -> (r: Self) {
        ProviderStreamUpdate::RecentBlockhash(event)
    }
}

impl FromSpecImpl<ObservedRecentBlockhashEvent> for ProviderStreamUpdate {
    open spec fn obeys_from_spec() -> bool {
        true
    }

    open spec fn from_spec(event: ObservedRecentBlockhashEvent) -> Self {
        ProviderStreamUpdate::RecentBlockhash(event)
    }
}

impl From<SlotStatusEvent> for ProviderStreamUpdate {
    fn from(event: SlotStatusEvent) -> (r: Self) {
        ProviderStreamUpdate::SlotStatus(event)
    }
}

impl FromSpecImpl<SlotStatusEvent> for ProviderStreamUpdate {
    open spec fn obeys_from_spec() -> bool {
        true
    }

    open spec fn from_spec(event: SlotStatusEvent) -> Self {
        ProviderStreamUpdate::SlotStatus(event)
    }
}

impl From<ClusterTopologyEvent> for ProviderStreamUpdate {
    fn from(event: ClusterTopologyEvent) -> (r: Self) {
        ProviderStreamUpdate::ClusterTopology(event)
    }
}

impl FromSpecImpl<ClusterTopologyEvent> for ProviderStreamUpdate {
    open spec fn obeys_from_spec() -> bool {
        true
    }

    open spec fn from_spec(event: ClusterTopologyEvent) -> Self {
        ProviderStreamUpdate::ClusterTopology(event)
    }
}

impl From<LeaderScheduleEvent> for ProviderStreamUpdate {
    fn from(event: LeaderScheduleEvent) -> (r: Self) {
        ProviderStreamUpdate::LeaderSchedule(event)
    }
}

impl FromSpecImpl<LeaderScheduleEvent> for ProviderStreamUpdate {
    open spec fn obeys_from_spec() -> bool {
        true
    }

    open spec fn from_spec(event: LeaderScheduleEvent) -> Self {
        ProviderStreamUpdate::LeaderSchedule(event)
    }
}

impl From<ReorgEvent> for ProviderStreamUpdate {
    fn from(event: ReorgEvent) -> (r: Self) {
        ProviderStreamUpdate::Reorg(event)
    }
}

impl FromSpecImpl<ReorgEvent> for ProviderStreamUpdate {
    open spec fn obeys_from_spec() -> bool {
        true
    }

    open spec fn from_spec(event: ReorgEvent) -> Self {
        ProviderStreamUpdate::Reorg(event)
    }
}

impl From<ProviderSourceHealthEvent> for ProviderStreamUpdate {
    fn from(event: ProviderSourceHealthEvent) -> (r: Self) {
        ProviderStreamUpdate::Health(event)
    }
}

impl FromSpecImpl<ProviderSourceHealthEvent> for ProviderStreamUpdate {
    open spec fn obeys_from_spec() -> bool {
        true
    }

    open spec fn from_spec(event: ProviderSourceHealthEvent) -> Self {
        ProviderStreamUpdate::Health(event)
    }
}

/// Whether an update says that `source` delivered it.
pub open spec fn delivered_by(update: ProviderStreamUpdate, source: ProviderSourceRef) -> bool {
    match update {
        ProviderStreamUpdate::Transaction(event) => event.provider_source == Some(source),
        ProviderStreamUpdate::SerializedTransaction(event) => event.provider_source == Some(source),
        ProviderStreamUpdate::TransactionLog(event) => event.provider_source == Some(source),
        ProviderStreamUpdate::TransactionStatus(event) => event.provider_source == Some(source),
        ProviderStreamUpdate::TransactionViewBatch(event) => event.provider_source == Some(source),
        ProviderStreamUpdate::AccountUpdate(event) => event.provider_source == Some(source),
        ProviderStreamUpdate::BlockMeta(event) => event.provider_source == Some(source),
        ProviderStreamUpdate::RecentBlockhash(event) => event.provider_source == Some(source),
        ProviderStreamUpdate::SlotStatus(event) => event.provider_source == Some(source),
        ProviderStreamUpdate::ClusterTopology(event) => event.provider_source == Some(source),
        ProviderStreamUpdate::LeaderSchedule(event) => event.provider_source == Some(source),
        ProviderStreamUpdate::Reorg(event) => event.provider_source == Some(source),
        ProviderStreamUpdate::Health(event) => event.source == *source,
    }
}

/// A tagged update says who delivered it, an update that says so already stays as it is, and an update
/// whose former source is put back is the former update: the tag is all that changes.
pub proof fn tag_is_all_that_changes(update: ProviderStreamUpdate, source: ProviderSourceRef)
    ensures
        delivered_by(update.tagged(source), source),
        delivered_by(update, source) ==> update.tagged(source) == update,
        update matches ProviderStreamUpdate::Transaction(event) ==> update.tagged(source) is Transaction
            && (TransactionEvent { provider_source: event.provider_source, ..update.tagged(source)->Transaction_0 })
            == event,
        update matches ProviderStreamUpdate::SerializedTransaction(event) ==> update.tagged(source) is SerializedTransaction
            && (SerializedTransactionEvent { provider_source: event.provider_source, ..update.tagged(source)->SerializedTransaction_0 })
            == event,
        update matches ProviderStreamUpdate::TransactionLog(event) ==> update.tagged(source) is TransactionLog
            && (TransactionLogEvent { provider_source: event.provider_source, ..update.tagged(source)->TransactionLog_0 })
            == event,
        update matches ProviderStreamUpdate::TransactionStatus(event) ==> update.tagged(source) is TransactionStatus
            && (TransactionStatusEvent { provider_source: event.provider_source, ..update.tagged(source)->TransactionStatus_0 })
            == event,
        update matches ProviderStreamUpdate::TransactionViewBatch(event) ==> update.tagged(source) is TransactionViewBatch
            && (TransactionViewBatchEvent { provider_source: event.provider_source, ..update.tagged(source)->TransactionViewBatch_0 })
            == event,
        update matches ProviderStreamUpdate::AccountUpdate(event) ==> update.tagged(source) is AccountUpdate
            && (AccountUpdateEvent { provider_source: event.provider_source, ..update.tagged(source)->AccountUpdate_0 })
            == event,
        update matches ProviderStreamUpdate::BlockMeta(event) ==> update.tagged(source) is BlockMeta
            && (BlockMetaEvent { provider_source: event.provider_source, ..update.tagged(source)->BlockMeta_0 })
            == event,
        update matches ProviderStreamUpdate::RecentBlockhash(event) ==> update.tagged(source) is RecentBlockhash
            && (ObservedRecentBlockhashEvent { provider_source: event.provider_source, ..update.tagged(source)->RecentBlockhash_0 })
            == event,
        update matches ProviderStreamUpdate::SlotStatus(event) ==> update.tagged(source) is SlotStatus
            && (SlotStatusEvent { provider_source: event.provider_source, ..update.tagged(source)->SlotStatus_0 })
            == event,
        update matches ProviderStreamUpdate::ClusterTopology(event) ==> update.tagged(source) is ClusterTopology
            && (ClusterTopologyEvent { provider_source: event.provider_source, ..update.tagged(source)->ClusterTopology_0 })
            == event,
        update matches ProviderStreamUpdate::LeaderSchedule(event) ==> update.tagged(source) is LeaderSchedule
            && (LeaderScheduleEvent { provider_source: event.provider_source, ..update.tagged(source)->LeaderSchedule_0 })
            == event,
        update matches ProviderStreamUpdate::Reorg(event) ==> update.tagged(source) is Reorg
            && (ReorgEvent { provider_source: event.provider_source, ..update.tagged(source)->Reorg_0 })
            == event,
        update matches ProviderStreamUpdate::Health(event) ==> update.tagged(source) is Health
            && (ProviderSourceHealthEvent { source: event.source, ..update.tagged(source)->Health_0 }) == event,
{
}

} // verus!
