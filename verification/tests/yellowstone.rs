//! Yellowstone gRPC source.
use sof::bytes::PubkeyBytes;
use sof::event::{ForkSlotStatus, TxCommitmentStatus, TxKind};
use sof::provider_stream::grpc::{
    ping_request, prune_recent_slots, GrpcAccountInfo, GrpcAccountUpdate, GrpcAddressTableLookup, GrpcBlockMeta, GrpcInstruction,
    GrpcMessage, GrpcMessageHeader, GrpcSlotFilter, GrpcSlotUpdate, GrpcTransaction, GrpcTransactionInfo,
    GrpcTransactionStatus, GrpcUpdate,
};
use sof::provider_stream::source::{
    ProviderSourceHealthReason, ProviderSourceHealthStatus, ProviderSourceIdentity, ProviderSourceReadiness,
    ProviderSourceRole,
};
use sof::provider_stream::supervisor::{SourceAction, SourceSupervisor};
use sof::provider_stream::update::ProviderStreamUpdate;
use sof::provider_stream::watermarks::ProviderCommitmentWatermarks;
use sof::provider_stream::yellowstone::{
    account_update_event_from_yellowstone, convert_message, convert_transaction, slot_status_event_from_update,
    transaction_event_from_update, yellowstone_health_reason, YellowstoneGrpcCommitment, YellowstoneGrpcConfig,
    YellowstoneGrpcConfigError, YellowstoneGrpcConfigOption, YellowstoneGrpcError, YellowstoneGrpcProtocolError,
    YellowstoneGrpcSlotsConfig, YellowstoneGrpcStream, YellowstoneGrpcStreamKind, YellowstonePrimaryState,
    YellowstoneSessionAction, YellowstoneSessionEvent, YellowstoneSlotState, INTERNAL_SLOT_FILTER,
    SLOT_STATUS_PRUNE_THRESHOLD, SLOT_STATUS_RETAINED_LAG,
};
use sof::provider_stream::{ProviderReplayMode, ProviderStreamMode};
use sof::time::{Duration, Instant};
use std::collections::HashMap;
use std::sync::Arc;

fn by_commitment(name: &str) -> Option<(String, GrpcSlotFilter)> {
    Some((name.to_owned(), GrpcSlotFilter { filter_by_commitment: Some(true) }))
}

fn at(secs: u64) -> Instant {
    Instant::from_nanos(secs * 1_000_000_000)
}

fn base58(key: &PubkeyBytes) -> String {
    solana_pubkey::Pubkey::from(key.0).to_string()
}

fn message_with_programs(programs: &[[u8; 32]]) -> GrpcMessage {
    let mut account_keys = vec![vec![1_u8; 32]];
    let mut instructions = Vec::new();
    for (index, program) in programs.iter().enumerate() {
        account_keys.push(program.to_vec());
        instructions.push(GrpcInstruction { program_id_index: index as u32 + 1, accounts: vec![], data: vec![] });
    }
    GrpcMessage {
        header: Some(GrpcMessageHeader {
            num_required_signatures: 1,
            num_readonly_signed_accounts: 0,
            num_readonly_unsigned_accounts: programs.len() as u32,
        }),
        account_keys,
        recent_blockhash: vec![0_u8; 32],
        instructions,
        versioned: false,
        address_table_lookups: vec![],
    }
}

fn vote_id() -> [u8; 32] {
    solana_sdk_ids::vote::id().to_bytes()
}

fn system_id() -> [u8; 32] {
    solana_sdk_ids::system_program::id().to_bytes()
}

fn compute_budget_id() -> [u8; 32] {
    solana_sdk_ids::compute_budget::id().to_bytes()
}

fn sample_update() -> GrpcTransactionInfo {
    GrpcTransactionInfo {
        signature: vec![5_u8; 64],
        is_vote: false,
        transaction: Some(GrpcTransaction {
            signatures: vec![vec![5_u8; 64]],
            message: Some(message_with_programs(&[vote_id(), system_id(), compute_budget_id()])),
        }),
    }
}

fn sample_vote_update() -> GrpcTransactionInfo {
    GrpcTransactionInfo {
        signature: vec![6_u8; 64],
        is_vote: true,
        transaction: Some(GrpcTransaction {
            signatures: vec![vec![6_u8; 64]],
            message: Some(message_with_programs(&[vote_id(), compute_budget_id()])),
        }),
    }
}

fn sample_account_update(slot: u64, pubkey: PubkeyBytes, owner: PubkeyBytes) -> GrpcAccountUpdate {
    GrpcAccountUpdate {
        slot,
        is_startup: false,
        account: Some(GrpcAccountInfo {
            pubkey: pubkey.0.to_vec(),
            lamports: 42,
            owner: owner.0.to_vec(),
            executable: false,
            rent_epoch: 9,
            data: vec![1, 2, 3, 4],
            write_version: 11,
            txn_signature: None,
        }),
    }
}

#[test]
fn yellowstone_account_update_rejects_oversized_data() {
    let mut oversized = sample_account_update(92, PubkeyBytes([1; 32]), PubkeyBytes([2; 32]));
    let limit = usize::try_from(solana_system_interface::MAX_PERMITTED_DATA_LENGTH).expect("limit");
    oversized.account.as_mut().expect("account payload").data = vec![7_u8; limit + 1];
    let error = account_update_event_from_yellowstone(
        oversized,
        TxCommitmentStatus::Confirmed,
        ProviderCommitmentWatermarks::default(),
    )
    .expect_err("oversized account payload must fail");
    assert_eq!(error, "account data exceeds max permitted size");
}

#[test]
fn yellowstone_account_update_accepts_the_largest_data() {
    let mut largest = sample_account_update(92, PubkeyBytes([1; 32]), PubkeyBytes([2; 32]));
    let limit = usize::try_from(solana_system_interface::MAX_PERMITTED_DATA_LENGTH).expect("limit");
    largest.account.as_mut().expect("account payload").data = vec![7_u8; limit];
    let event = account_update_event_from_yellowstone(
        largest,
        TxCommitmentStatus::Confirmed,
        ProviderCommitmentWatermarks::default(),
    )
    .expect("largest account payload");
    assert_eq!(event.data.len(), limit);
}

#[test]
fn yellowstone_account_update_names_what_is_wrong() {
    let missing = GrpcAccountUpdate { slot: 1, is_startup: false, account: None };
    let marks = ProviderCommitmentWatermarks::default();
    assert_eq!(
        account_update_event_from_yellowstone(missing, TxCommitmentStatus::Processed, marks).unwrap_err(),
        "missing account payload"
    );
    let mut short_key = sample_account_update(1, PubkeyBytes([1; 32]), PubkeyBytes([2; 32]));
    short_key.account.as_mut().unwrap().pubkey = vec![1; 31];
    assert_eq!(
        account_update_event_from_yellowstone(short_key, TxCommitmentStatus::Processed, marks).unwrap_err(),
        "invalid account pubkey"
    );
    let mut long_owner = sample_account_update(1, PubkeyBytes([1; 32]), PubkeyBytes([2; 32]));
    long_owner.account.as_mut().unwrap().owner = vec![1; 33];
    assert_eq!(
        account_update_event_from_yellowstone(long_owner, TxCommitmentStatus::Processed, marks).unwrap_err(),
        "invalid account owner"
    );
}

#[test]
fn yellowstone_slot_state_pruning_evicts_old_slots() {
    let mut slot_states = HashMap::new();
    for slot in 0..=u64::try_from(SLOT_STATUS_PRUNE_THRESHOLD).unwrap_or(u64::MAX) {
        let _ = slot_states.insert(slot, ForkSlotStatus::Processed);
    }
    prune_recent_slots(&mut slot_states, 10_000, SLOT_STATUS_RETAINED_LAG, SLOT_STATUS_PRUNE_THRESHOLD);
    assert!(!slot_states.contains_key(&0), "old tracked slots should be pruned");
    assert!(
        slot_states.contains_key(&10_000_u64.saturating_sub(SLOT_STATUS_RETAINED_LAG)),
        "recent tracked slots should stay resident"
    );
    assert!(
        slot_states.len() <= usize::try_from(SLOT_STATUS_RETAINED_LAG + 1).unwrap_or(usize::MAX),
        "tracked slot state should stay bounded"
    );
}

#[test]
fn yellowstone_config_defaults_do_not_filter_vote_or_failed() {
    let request = YellowstoneGrpcConfig::new("http://127.0.0.1:10000").subscribe_request();
    let (name, filter) = request.transactions.expect("sof filter");
    assert_eq!(name, "sof");
    assert_eq!(filter.vote, None);
    assert_eq!(filter.failed, None);
}

#[test]
fn yellowstone_subscribe_request_tracks_slots_and_replay_cursor() {
    let request = YellowstoneGrpcConfig::new("http://127.0.0.1:10000")
        .with_replay_mode(ProviderReplayMode::FromSlot(200))
        .with_commitment(YellowstoneGrpcCommitment::Processed)
        .subscribe_request_with_state(0);
    assert_eq!(request.slots, by_commitment(INTERNAL_SLOT_FILTER));
    assert_eq!(request.from_slot, Some(200));
}

#[test]
fn yellowstone_subscribe_request_can_target_transaction_status() {
    let request = YellowstoneGrpcConfig::new("http://127.0.0.1:10000")
        .with_stream(YellowstoneGrpcStream::TransactionStatus)
        .subscribe_request_with_state(0);
    assert!(request.transactions.is_none());
    assert_eq!(request.transactions_status.expect("status filter").0, "sof");
    assert_eq!(request.slots, by_commitment(INTERNAL_SLOT_FILTER));
}

#[test]
fn yellowstone_subscribe_request_can_target_accounts() {
    let key = PubkeyBytes([11; 32]);
    let owner = PubkeyBytes([12; 32]);
    let request = YellowstoneGrpcConfig::new("http://127.0.0.1:10000")
        .with_stream(YellowstoneGrpcStream::Accounts)
        .with_accounts(vec![key])
        .with_owners(vec![owner])
        .require_transaction_signature()
        .subscribe_request_with_state(0);
    let (name, filter) = request.accounts.expect("accounts filter");
    assert_eq!(name, "sof");
    assert_eq!(filter.account, vec![base58(&key)]);
    assert_eq!(filter.owner, vec![base58(&owner)]);
    assert_eq!(filter.nonempty_txn_signature, Some(true));
    assert_eq!(request.slots, by_commitment(INTERNAL_SLOT_FILTER));
}

#[test]
fn yellowstone_account_stream_defaults_to_finalized_commitment() {
    let request = YellowstoneGrpcConfig::new("http://127.0.0.1:10000")
        .with_stream(YellowstoneGrpcStream::Accounts)
        .subscribe_request_with_state(0);
    assert_eq!(
        request.commitment,
        Some(yellowstone_grpc_proto::prelude::CommitmentLevel::Finalized as i32)
    );
}

#[test]
fn yellowstone_account_stream_preserves_explicit_processed_commitment() {
    let request = YellowstoneGrpcConfig::new("http://127.0.0.1:10000")
        .with_commitment(YellowstoneGrpcCommitment::Processed)
        .with_stream(YellowstoneGrpcStream::Accounts)
        .subscribe_request_with_state(0);
    assert_eq!(
        request.commitment,
        Some(yellowstone_grpc_proto::prelude::CommitmentLevel::Processed as i32)
    );
}

#[test]
fn yellowstone_subscribe_request_can_target_block_meta() {
    let request = YellowstoneGrpcConfig::new("http://127.0.0.1:10000")
        .with_stream(YellowstoneGrpcStream::BlockMeta)
        .subscribe_request_with_state(0);
    assert!(request.transactions.is_none());
    assert!(request.accounts.is_none());
    assert!(request.transactions_status.is_none());
    assert_eq!(request.blocks_meta.as_deref(), Some("sof"));
    assert_eq!(request.slots, by_commitment(INTERNAL_SLOT_FILTER));
}

#[test]
fn yellowstone_slot_subscribe_request_tracks_slots_and_replay_cursor() {
    let request = YellowstoneGrpcSlotsConfig::new("http://127.0.0.1:10000")
        .with_replay_mode(ProviderReplayMode::FromSlot(200))
        .with_commitment(YellowstoneGrpcCommitment::Processed)
        .subscribe_request_with_state(250);
    assert_eq!(request.slots, by_commitment("sof"));
    assert_eq!(request.from_slot, Some(219));
}

#[test]
fn yellowstone_from_slot_reconnect_resumes_from_tracked_slot() {
    let request = YellowstoneGrpcConfig::new("http://127.0.0.1:10000")
        .with_replay_mode(ProviderReplayMode::FromSlot(200))
        .with_commitment(YellowstoneGrpcCommitment::Processed)
        .subscribe_request_with_state(250);
    assert_eq!(request.from_slot, Some(219));
}

#[test]
fn yellowstone_live_mode_starts_at_stream_head() {
    let request = YellowstoneGrpcConfig::new("http://127.0.0.1:10000")
        .with_replay_mode(ProviderReplayMode::Live)
        .subscribe_request_with_state(500);
    assert_eq!(request.from_slot, None);
}

/// Opens a session of `config` and hands it `update`.
fn deliver(config: &YellowstoneGrpcConfig, update: GrpcUpdate) -> YellowstoneSessionAction {
    let source = config.resolved_source_identity(1);
    let mut state = YellowstonePrimaryState::new(at(1));
    let health = state.begin_session(config, &source, at(1));
    assert_eq!(health.status, ProviderSourceHealthStatus::Healthy);
    assert_eq!(health.reason, ProviderSourceHealthReason::SubscriptionAckReceived);
    assert!(state.session_established);
    state.on_event(config, &Arc::new(source), YellowstoneSessionEvent::Update { update, at: at(2) })
}

#[test]
fn yellowstone_local_source_delivers_transaction_update() {
    let config = YellowstoneGrpcConfig::new("http://127.0.0.1:1")
        .with_stream(YellowstoneGrpcStream::Transaction)
        .with_source_instance("yellowstone-primary")
        .with_max_reconnect_attempts(1)
        .with_reconnect_delay(Duration::from_millis(10))
        .with_connect_timeout(Duration::from_secs(2));
    assert_eq!(config.subscribe_request().transactions.expect("filter").0, "sof");
    let action = deliver(&config, GrpcUpdate::Transaction { slot: 91, transaction: Some(sample_update()) });
    let YellowstoneSessionAction::Emit(ProviderStreamUpdate::Transaction(event)) = action else {
        panic!("expected transaction update");
    };
    assert_eq!(event.slot, 91);
    assert_eq!(event.kind, TxKind::Mixed);
    assert!(event.signature.is_some());
    assert_eq!(event.provider_source.as_deref().expect("provider source").instance_str(), "yellowstone-primary");
}

#[test]
fn yellowstone_source_emits_initial_health_registration() {
    let config = YellowstoneGrpcConfig::new("http://127.0.0.1:1")
        .with_stream(YellowstoneGrpcStream::Transaction)
        .with_max_reconnect_attempts(1)
        .with_reconnect_delay(Duration::from_millis(10));
    let source = config.resolved_source_identity(3);
    assert_eq!(source.instance_str(), "yellowstone_grpc-3");
    let messages = config.messages(&source);
    let (_, action) = SourceSupervisor::announced(
        source,
        config.source.readiness,
        messages,
        config.max_reconnect_attempts,
        config.reconnect_delay,
    );
    let SourceAction::TryAnnounce(event) = action else {
        panic!("expected initial provider health update");
    };
    assert_eq!(event.status, ProviderSourceHealthStatus::Reconnecting);
    assert_eq!(event.reason, ProviderSourceHealthReason::InitialConnectPending);
}

#[test]
fn yellowstone_local_source_delivers_transaction_status_update() {
    let config = YellowstoneGrpcConfig::new("http://127.0.0.1:1").with_stream(YellowstoneGrpcStream::TransactionStatus);
    let action = deliver(
        &config,
        GrpcUpdate::TransactionStatus(GrpcTransactionStatus {
            slot: 91,
            signature: vec![5_u8; 64],
            is_vote: false,
            index: 7,
            err: None,
        }),
    );
    let YellowstoneSessionAction::Emit(ProviderStreamUpdate::TransactionStatus(event)) = action else {
        panic!("expected transaction-status update");
    };
    assert_eq!(event.slot, 91);
    assert!(!event.is_vote);
    assert_eq!(event.index, Some(7));
}

#[test]
fn yellowstone_local_source_delivers_account_update() {
    let pubkey = PubkeyBytes([31; 32]);
    let owner = PubkeyBytes([32; 32]);
    let config = YellowstoneGrpcConfig::new("http://127.0.0.1:1")
        .with_stream(YellowstoneGrpcStream::Accounts)
        .with_accounts(vec![pubkey])
        .with_owners(vec![owner]);
    let (_, filter) = config.subscribe_request().accounts.expect("expected Yellowstone accounts filter");
    assert!(filter.account.iter().any(|value| *value == base58(&pubkey)));
    assert!(filter.owner.iter().any(|value| *value == base58(&owner)));
    let action = deliver(&config, GrpcUpdate::Account(sample_account_update(92, pubkey, owner)));
    let YellowstoneSessionAction::Emit(ProviderStreamUpdate::AccountUpdate(event)) = action else {
        panic!("expected account update");
    };
    assert_eq!(event.slot, 92);
    assert_eq!(event.pubkey, pubkey);
    assert_eq!(event.owner, owner);
    assert_eq!(event.lamports, 42);
    assert_eq!(event.data.as_ref(), &[1, 2, 3, 4]);
}

#[test]
fn yellowstone_local_slot_source_delivers_slot_status_update() {
    let config = YellowstoneGrpcSlotsConfig::new("http://127.0.0.1:1");
    assert_eq!(config.subscribe_request_with_state(0).slots, by_commitment("sof"));
    let source = config.resolved_source_identity(1);
    let mut state = YellowstoneSlotState::new(at(1));
    state.begin_session(&config, &source, at(1));
    let action = state.on_event(
        &Arc::new(source),
        YellowstoneSessionEvent::Update {
            update: GrpcUpdate::Slot(GrpcSlotUpdate {
                slot: 93,
                parent: Some(92),
                status: yellowstone_grpc_proto::prelude::SlotStatus::SlotConfirmed as i32,
            }),
            at: at(2),
        },
    );
    let YellowstoneSessionAction::Emit(ProviderStreamUpdate::SlotStatus(event)) = action else {
        panic!("expected slot-status update");
    };
    assert_eq!(event.slot, 93);
    assert_eq!(event.parent_slot, Some(92));
    assert_eq!(event.status, ForkSlotStatus::Confirmed);
    assert_eq!(event.confirmed_slot, Some(93));
}

#[test]
fn yellowstone_local_source_delivers_block_meta_update() {
    let slot = 94_u64;
    let config = YellowstoneGrpcConfig::new("http://127.0.0.1:1").with_stream(YellowstoneGrpcStream::BlockMeta);
    let hash = [44_u8; 32];
    let parent_hash = [45_u8; 32];
    let action = deliver(
        &config,
        GrpcUpdate::BlockMeta(GrpcBlockMeta {
            slot,
            blockhash: solana_hash::Hash::new_from_array(hash).to_string(),
            parent_slot: slot.saturating_sub(1),
            parent_blockhash: solana_hash::Hash::new_from_array(parent_hash).to_string(),
            block_time: Some(1_700_000_000 + i64::try_from(slot).unwrap_or(0)),
            block_height: Some(9_000 + slot),
            executed_transaction_count: 12,
            entries_count: 5,
        }),
    );
    let YellowstoneSessionAction::Emit(ProviderStreamUpdate::BlockMeta(event)) = action else {
        panic!("expected block-meta update");
    };
    assert_eq!(event.slot, 94);
    assert_eq!(event.parent_slot, 93);
    assert_eq!(event.block_time, Some(1_700_000_094));
    assert_eq!(event.block_height, Some(9_094));
    assert_eq!(event.executed_transaction_count, 12);
    assert_eq!(event.entries_count, 5);
    assert_eq!(event.blockhash, hash);
    assert_eq!(event.parent_blockhash, parent_hash);
}

#[test]
fn yellowstone_transaction_event_from_update_decodes_transaction() {
    let event = transaction_event_from_update(
        55,
        Some(sample_update()),
        TxCommitmentStatus::Confirmed,
        ProviderCommitmentWatermarks::default(),
    )
    .expect("event");
    assert_eq!(event.slot, 55);
    assert_eq!(event.kind, TxKind::Mixed);
    assert!(event.signature.is_some());
}

#[test]
fn yellowstone_transaction_event_from_update_shortcuts_vote_only() {
    let event = transaction_event_from_update(
        56,
        Some(sample_vote_update()),
        TxCommitmentStatus::Confirmed,
        ProviderCommitmentWatermarks::default(),
    )
    .expect("event");
    assert_eq!(event.slot, 56);
    assert_eq!(event.kind, TxKind::VoteOnly);
    assert!(event.signature.is_some());
}

#[test]
fn yellowstone_spawn_rejects_transaction_filters_for_accounts_stream() {
    let config = YellowstoneGrpcConfig::new("http://127.0.0.1:1")
        .with_stream(YellowstoneGrpcStream::Accounts)
        .with_vote(true);
    let error = config.validate().expect_err("accounts stream should reject transaction filters");
    let YellowstoneGrpcConfigError::UnsupportedOption { stream, option } = error;
    assert_eq!(stream, YellowstoneGrpcStreamKind::Accounts);
    assert_eq!(option, YellowstoneGrpcConfigOption::VoteFilter);
}

#[test]
fn yellowstone_validation_follows_the_stream() {
    let url = "http://127.0.0.1:1";
    assert!(YellowstoneGrpcConfig::new(url).with_vote(true).validate().is_ok());
    let accounts = YellowstoneGrpcConfig::new(url).with_accounts(vec![PubkeyBytes([1; 32])]);
    let YellowstoneGrpcConfigError::UnsupportedOption { stream, option } = accounts.validate().unwrap_err();
    assert_eq!((stream, option), (YellowstoneGrpcStreamKind::Transaction, YellowstoneGrpcConfigOption::Accounts));
    let blocks = YellowstoneGrpcConfig::new(url)
        .with_stream(YellowstoneGrpcStream::BlockMeta)
        .with_owners(vec![PubkeyBytes([1; 32])]);
    let YellowstoneGrpcConfigError::UnsupportedOption { stream, option } = blocks.validate().unwrap_err();
    assert_eq!((stream, option), (YellowstoneGrpcStreamKind::BlockMeta, YellowstoneGrpcConfigOption::Owners));
}

#[test]
fn yellowstone_conversion_names_what_is_wrong() {
    let mut no_header = message_with_programs(&[vote_id()]);
    no_header.header = None;
    assert_eq!(convert_message(&no_header).unwrap_err(), "missing message header");
    let mut wide = message_with_programs(&[vote_id()]);
    wide.header.as_mut().unwrap().num_required_signatures = 256;
    assert_eq!(convert_message(&wide).unwrap_err(), "invalid num_required_signatures");
    let mut key = message_with_programs(&[vote_id()]);
    key.account_keys[0] = vec![1; 33];
    assert_eq!(convert_message(&key).unwrap_err(), "invalid account key");
    let mut hash = message_with_programs(&[vote_id()]);
    hash.recent_blockhash = vec![];
    assert_eq!(convert_message(&hash).unwrap_err(), "invalid recent blockhash");
    let mut program = message_with_programs(&[vote_id()]);
    program.instructions[0].program_id_index = 256;
    assert_eq!(convert_message(&program).unwrap_err(), "invalid compiled instruction program id index");
    let mut lookup = message_with_programs(&[vote_id()]);
    lookup.versioned = true;
    lookup.address_table_lookups.push(GrpcAddressTableLookup {
        account_key: vec![1; 5],
        writable_indexes: vec![],
        readonly_indexes: vec![],
    });
    assert_eq!(convert_message(&lookup).unwrap_err(), "invalid address table account key");
    let no_message = GrpcTransaction { signatures: vec![], message: None };
    assert_eq!(convert_transaction(&no_message, None).unwrap_err(), "missing transaction message");
    let marks = ProviderCommitmentWatermarks::default();
    assert_eq!(
        transaction_event_from_update(1, None, TxCommitmentStatus::Processed, marks).unwrap_err(),
        "missing transaction payload"
    );
    let mut bad_signature = sample_update();
    bad_signature.signature = vec![1; 63];
    assert_eq!(
        transaction_event_from_update(1, Some(bad_signature), TxCommitmentStatus::Processed, marks).unwrap_err(),
        "invalid signature"
    );
}

#[test]
fn yellowstone_versioned_message_keeps_its_lookups() {
    let mut message = message_with_programs(&[system_id()]);
    message.versioned = true;
    message.address_table_lookups.push(GrpcAddressTableLookup {
        account_key: vec![8; 32],
        writable_indexes: vec![1, 2],
        readonly_indexes: vec![3],
    });
    let converted = convert_message(&message).expect("message");
    let lookups = converted.address_table_lookups.expect("version zero");
    assert_eq!(lookups.len(), 1);
    assert_eq!(lookups[0].account_key, PubkeyBytes([8; 32]));
    assert_eq!(lookups[0].writable_indexes, vec![1, 2]);
    assert_eq!(lookups[0].readonly_indexes, vec![3]);
    assert_eq!(converted.header.num_required_signatures, 1);
    assert_eq!(converted.account_keys.len(), 2);
    assert!(convert_message(&message_with_programs(&[])).expect("legacy").address_table_lookups.is_none());
}

#[test]
fn yellowstone_slot_states_are_reported_once() {
    let mut marks = ProviderCommitmentWatermarks::default();
    let mut states = HashMap::new();
    let first = slot_status_event_from_update(10, Some(9), Some(ForkSlotStatus::Processed), &mut marks, &mut states)
        .expect("first status");
    assert_eq!(first.previous_status, None);
    assert!(
        slot_status_event_from_update(10, Some(9), Some(ForkSlotStatus::Processed), &mut marks, &mut states).is_none()
    );
    let second = slot_status_event_from_update(10, Some(9), Some(ForkSlotStatus::Finalized), &mut marks, &mut states)
        .expect("second status");
    assert_eq!(second.previous_status, Some(ForkSlotStatus::Processed));
    assert_eq!(second.finalized_slot, Some(10));
    assert!(slot_status_event_from_update(11, None, None, &mut marks, &mut states).is_none());
}

#[test]
fn yellowstone_session_stalls_pings_and_ends() {
    let config = YellowstoneGrpcConfig::new("http://127.0.0.1:1").with_stall_timeout(Duration::from_secs(30));
    let source = Arc::new(config.resolved_source_identity(1));
    let mut state = YellowstonePrimaryState::new(at(1));
    state.begin_session(&config, &source, at(5));
    assert_eq!(state.stall_deadline(&config), Some(at(35)));
    assert!(matches!(
        state.on_event(&config, &source, YellowstoneSessionEvent::PingDue),
        YellowstoneSessionAction::SendPing
    ));
    assert!(matches!(
        state.on_event(
            &config,
            &source,
            YellowstoneSessionEvent::Update { update: GrpcUpdate::Ping, at: at(9) }
        ),
        YellowstoneSessionAction::SendPing
    ));
    assert_eq!(state.stall_deadline(&config), Some(at(39)));
    assert!(matches!(
        state.on_event(&config, &source, YellowstoneSessionEvent::StreamEnded),
        YellowstoneSessionAction::End
    ));
    let action = state.on_event(&config, &source, YellowstoneSessionEvent::StallDeadlinePassed);
    let YellowstoneSessionAction::Fail(error) = action else {
        panic!("expected a stall");
    };
    assert_eq!(error.to_text(), "yellowstone transaction stream stalled without inbound progress");
    assert_eq!(yellowstone_health_reason(&error), ProviderSourceHealthReason::UpstreamProtocolFailure);
    let action = state.on_event(&config, &source, YellowstoneSessionEvent::StreamFailed("gone".to_owned()));
    let YellowstoneSessionAction::Fail(error) = action else {
        panic!("expected a failure");
    };
    assert_eq!(error.to_text(), "yellowstone stream status: gone");
    assert_eq!(yellowstone_health_reason(&error), ProviderSourceHealthReason::UpstreamTransportFailure);
}

#[test]
fn yellowstone_tracked_slot_moves_the_replay_cursor() {
    let config = YellowstoneGrpcConfig::new("http://127.0.0.1:1").with_replay_mode(ProviderReplayMode::Resume);
    let source = Arc::new(config.resolved_source_identity(1));
    let mut state = YellowstonePrimaryState::new(at(1));
    state.begin_session(&config, &source, at(1));
    assert_eq!(config.subscribe_request_with_state(state.tracked_slot).from_slot, None);
    state.on_event(
        &config,
        &source,
        YellowstoneSessionEvent::Update {
            update: GrpcUpdate::Slot(GrpcSlotUpdate { slot: 500, parent: None, status: 0 }),
            at: at(2),
        },
    );
    assert_eq!(state.tracked_slot, 500);
    assert_eq!(config.subscribe_request_with_state(state.tracked_slot).from_slot, Some(469));
}

#[test]
fn yellowstone_labels_and_errors_have_their_texts() {
    let config = YellowstoneGrpcConfig::new("http://127.0.0.1:1");
    assert_eq!(config.endpoint(), "http://127.0.0.1:1");
    assert_eq!(config.runtime_mode(), ProviderStreamMode::YellowstoneGrpc);
    assert!(config.source_identity().is_none());
    let config = config
        .with_source_instance("primary")
        .with_source_role(ProviderSourceRole::Fallback)
        .with_readiness(ProviderSourceReadiness::Required);
    let identity: ProviderSourceIdentity = config.source_identity().expect("stable identity");
    assert_eq!(identity.to_text(), "yellowstone_grpc:primary");
    assert_eq!(identity.priority(), ProviderSourceRole::Fallback.default_priority());
    let error = YellowstoneGrpcError::Config(YellowstoneGrpcConfigError::UnsupportedOption {
        stream: YellowstoneGrpcStreamKind::Accounts,
        option: YellowstoneGrpcConfigOption::VoteFilter,
    });
    assert_eq!(error.to_text(), "vote filter is not supported for yellowstone account streams");
    let error = YellowstoneGrpcError::Protocol(YellowstoneGrpcProtocolError::ReconnectBudgetExhausted { attempts: 4 });
    assert_eq!(error.to_text(), "exhausted yellowstone reconnect attempts after 4 failures");
}

#[test]
fn ping_carries_its_number_and_nothing_else() {
    let request = ping_request();
    assert_eq!(request.ping, Some(1));
    assert!(request.slots.is_none());
    assert!(request.transactions.is_none());
    assert!(request.transactions_status.is_none());
    assert!(request.accounts.is_none());
    assert!(request.blocks_meta.is_none());
    assert_eq!(request.commitment, None);
    assert_eq!(request.from_slot, None);
    assert_eq!(YellowstoneGrpcConfig::new("http://127.0.0.1:10000").subscribe_request().ping, None);
}
