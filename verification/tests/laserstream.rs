//! LaserStream source.
use sof::bytes::{PubkeyBytes, SignatureBytes};
use sof::event::{ForkSlotStatus, TxCommitmentStatus, TxKind};
use sof::provider_stream::grpc::{
    GrpcInstruction, GrpcMessage, GrpcMessageHeader, GrpcSlotFilter, GrpcSlotUpdate, GrpcTransaction,
    GrpcTransactionInfo, GrpcUpdate,
};
use sof::provider_stream::laserstream::{
    access_token, convert_transaction, laserstream_health_reason, transaction_event_from_update,
    LaserStreamChannelOptions, LaserStreamCommitment, LaserStreamConfig, LaserStreamError, LaserStreamPrimaryState,
    LaserStreamProtocolError, LaserStreamSessionAction, LaserStreamSessionEvent, LaserStreamSlotState,
    LaserStreamSlotsConfig, LaserStreamStream, INTERNAL_WATERMARK_SLOT_FILTER,
};
use sof::provider_stream::source::{ProviderSourceHealthReason, ProviderSourceHealthStatus};
use sof::provider_stream::update::ProviderStreamUpdate;
use sof::provider_stream::watermarks::ProviderCommitmentWatermarks;
use sof::provider_stream::yellowstone::{YellowstoneGrpcCommitment, YellowstoneGrpcConfig};
use sof::provider_stream::{ProviderReplayMode, ProviderStreamMode};
use sof::time::{Duration, Instant};
use std::sync::Arc;

const ENDPOINT: &str = "https://laserstream.example";

fn by_commitment(name: &str) -> Option<(String, GrpcSlotFilter)> {
    Some((name.to_owned(), GrpcSlotFilter { filter_by_commitment: Some(true) }))
}

fn at(secs: u64) -> Instant {
    Instant::from_nanos(secs * 1_000_000_000)
}

fn base58(key: &PubkeyBytes) -> String {
    solana_pubkey::Pubkey::from(key.0).to_string()
}

fn transaction_with_programs(signature: u8, programs: &[[u8; 32]]) -> GrpcTransaction {
    let mut account_keys = vec![vec![1_u8; 32]];
    let mut instructions = Vec::new();
    for (index, program) in programs.iter().enumerate() {
        account_keys.push(program.to_vec());
        instructions.push(GrpcInstruction { program_id_index: index as u32 + 1, accounts: vec![], data: vec![] });
    }
    GrpcTransaction {
        signatures: vec![vec![signature; 64]],
        message: Some(GrpcMessage {
            header: Some(GrpcMessageHeader {
                num_required_signatures: 1,
                num_readonly_signed_accounts: 0,
                num_readonly_unsigned_accounts: programs.len() as u32,
            }),
            account_keys,
            recent_blockhash: vec![0_u8; 32],
            instructions,
            versioned: false,
            address_table_lookups: vec![],
        }),
    }
}

fn sample_transaction() -> GrpcTransaction {
    transaction_with_programs(
        5,
        &[
            solana_sdk_ids::vote::id().to_bytes(),
            solana_sdk_ids::system_program::id().to_bytes(),
            solana_sdk_ids::compute_budget::id().to_bytes(),
        ],
    )
}

fn sample_update() -> GrpcTransactionInfo {
    GrpcTransactionInfo { signature: vec![5_u8; 64], is_vote: false, transaction: Some(sample_transaction()) }
}

fn sample_vote_update() -> GrpcTransactionInfo {
    GrpcTransactionInfo {
        signature: vec![6_u8; 64],
        is_vote: true,
        transaction: Some(transaction_with_programs(
            6,
            &[solana_sdk_ids::vote::id().to_bytes(), solana_sdk_ids::compute_budget::id().to_bytes()],
        )),
    }
}

#[test]
fn transaction_filter_shape_matches_yellowstone_config() {
    let signature = SignatureBytes([7_u8; 64]);
    let included = vec![PubkeyBytes([21; 32]), PubkeyBytes([22; 32])];
    let exclude = vec![PubkeyBytes([23; 32])];
    let required = vec![PubkeyBytes([24; 32])];
    let laser = LaserStreamConfig::new(ENDPOINT, "token")
        .with_commitment(LaserStreamCommitment::Confirmed)
        .with_vote(true)
        .with_failed(true)
        .with_signature(signature)
        .with_account_include(included.clone())
        .with_account_exclude(exclude.clone())
        .with_account_required(required.clone())
        .subscribe_request();
    let yellowstone = YellowstoneGrpcConfig::new("http://127.0.0.1:10000")
        .with_commitment(YellowstoneGrpcCommitment::Confirmed)
        .with_vote(true)
        .with_failed(true)
        .with_signature(signature)
        .with_account_include(included)
        .with_account_exclude(exclude)
        .with_account_required(required)
        .subscribe_request();
    assert_eq!(laser.commitment, yellowstone.commitment);
    let (laser_name, laser_filter) = laser.transactions.expect("laser filter");
    let (yellowstone_name, yellowstone_filter) = yellowstone.transactions.expect("ys filter");
    assert_eq!(laser_name, "sof");
    assert_eq!(yellowstone_name, "sof");
    assert_eq!(laser_filter.vote, yellowstone_filter.vote);
    assert_eq!(laser_filter.failed, yellowstone_filter.failed);
    assert_eq!(laser_filter.signature, yellowstone_filter.signature);
    assert_eq!(laser_filter.account_include, yellowstone_filter.account_include);
    assert_eq!(laser_filter.account_exclude, yellowstone_filter.account_exclude);
    assert_eq!(laser_filter.account_required, yellowstone_filter.account_required);
    assert_eq!(laser_filter.signature, Some(solana_signature::Signature::from([7_u8; 64]).to_string()));
    assert_eq!(
        laser_filter.account_include,
        vec![base58(&PubkeyBytes([21; 32])), base58(&PubkeyBytes([22; 32]))]
    );
}

#[test]
fn laserstream_config_defaults_do_not_filter_vote_or_failed() {
    let request = LaserStreamConfig::new(ENDPOINT, "token").subscribe_request();
    let (name, filter) = request.transactions.expect("sof filter");
    assert_eq!(name, "sof");
    assert_eq!(filter.vote, None);
    assert_eq!(filter.failed, None);
}

#[test]
fn laserstream_subscribe_request_tracks_slots_for_watermarks() {
    let request = LaserStreamConfig::new(ENDPOINT, "token").subscribe_request();
    assert_eq!(request.slots, by_commitment(INTERNAL_WATERMARK_SLOT_FILTER));
    assert_eq!(request.from_slot, None);
}

#[test]
fn laserstream_slot_subscribe_request_tracks_slots_and_replay_cursor() {
    let request = LaserStreamSlotsConfig::new(ENDPOINT, "token")
        .with_replay_mode(ProviderReplayMode::FromSlot(321))
        .subscribe_request_with_state(777);
    assert_eq!(request.slots, by_commitment("sof"));
    assert_eq!(request.from_slot, Some(777));
}

#[test]
fn laserstream_replay_mode_can_start_from_explicit_slot() {
    let request = LaserStreamConfig::new(ENDPOINT, "token")
        .with_replay_mode(ProviderReplayMode::FromSlot(321))
        .subscribe_request();
    assert_eq!(request.from_slot, Some(321));
}

#[test]
fn laserstream_live_mode_starts_at_stream_head() {
    let request =
        LaserStreamConfig::new(ENDPOINT, "token").with_replay_mode(ProviderReplayMode::Live).subscribe_request();
    assert_eq!(request.from_slot, None);
}

#[test]
fn laserstream_resume_replay_uses_tracked_slot() {
    let request = LaserStreamConfig::new(ENDPOINT, "token")
        .with_replay_mode(ProviderReplayMode::Resume)
        .subscribe_request_with_state(777);
    assert_eq!(request.from_slot, Some(777));
}

#[test]
fn laserstream_from_slot_reconnect_uses_tracked_slot() {
    let request = LaserStreamConfig::new(ENDPOINT, "token")
        .with_replay_mode(ProviderReplayMode::FromSlot(321))
        .subscribe_request_with_state(777);
    assert_eq!(request.from_slot, Some(777));
}

#[test]
fn laserstream_subscribe_request_can_target_transaction_status() {
    let request = LaserStreamConfig::new(ENDPOINT, "token")
        .with_stream(LaserStreamStream::TransactionStatus)
        .subscribe_request_with_state(0);
    assert!(request.transactions.is_none());
    assert_eq!(request.transactions_status.expect("status filter").0, "sof");
    assert_eq!(request.slots, by_commitment(INTERNAL_WATERMARK_SLOT_FILTER));
}

#[test]
fn laserstream_subscribe_request_can_target_accounts() {
    let key = PubkeyBytes([11; 32]);
    let owner = PubkeyBytes([12; 32]);
    let request = LaserStreamConfig::new(ENDPOINT, "token")
        .with_stream(LaserStreamStream::Accounts)
        .with_accounts(vec![key])
        .with_owners(vec![owner])
        .require_transaction_signature()
        .subscribe_request_with_state(0);
    let (name, filter) = request.accounts.expect("accounts filter");
    assert_eq!(name, "sof");
    assert_eq!(filter.account, vec![base58(&key)]);
    assert_eq!(filter.owner, vec![base58(&owner)]);
    assert_eq!(filter.nonempty_txn_signature, Some(true));
    assert_eq!(request.slots, by_commitment(INTERNAL_WATERMARK_SLOT_FILTER));
}

#[test]
fn laserstream_local_conversion_matches_sdk_baseline() {
    let tx = sample_transaction();
    let local = convert_transaction(&tx).expect("local tx");
    let message = tx.message.expect("message");
    let header = message.header.expect("header");
    assert_eq!(local.signatures.len(), tx.signatures.len());
    for (own, wire) in local.signatures.iter().zip(&tx.signatures) {
        let baseline = solana_signature::Signature::try_from(wire.as_slice()).expect("signature");
        assert_eq!(own.0.as_slice(), baseline.as_ref());
    }
    assert_eq!(
        u8::try_from(header.num_required_signatures).expect("count"),
        local.message.header.num_required_signatures
    );
    assert_eq!(
        u8::try_from(header.num_readonly_signed_accounts).expect("count"),
        local.message.header.num_readonly_signed_accounts
    );
    assert_eq!(
        u8::try_from(header.num_readonly_unsigned_accounts).expect("count"),
        local.message.header.num_readonly_unsigned_accounts
    );
    assert_eq!(local.message.account_keys.len(), message.account_keys.len());
    for (own, wire) in local.message.account_keys.iter().zip(&message.account_keys) {
        let baseline = solana_pubkey::Pubkey::try_from(wire.as_slice()).expect("key");
        assert_eq!(own.0, baseline.to_bytes());
    }
    assert_eq!(local.message.recent_blockhash.as_slice(), message.recent_blockhash.as_slice());
    assert_eq!(local.message.instructions.len(), message.instructions.len());
    for (own, wire) in local.message.instructions.iter().zip(&message.instructions) {
        assert_eq!(u32::from(own.program_id_index), wire.program_id_index);
        assert_eq!(own.accounts, wire.accounts);
        assert_eq!(own.data, wire.data);
    }
    assert!(local.message.address_table_lookups.is_none());
}

#[test]
fn laserstream_transaction_event_from_update_decodes_transaction() {
    let event = transaction_event_from_update(
        77,
        Some(sample_update()),
        TxCommitmentStatus::Confirmed,
        ProviderCommitmentWatermarks::default(),
    )
    .expect("event");
    assert_eq!(event.slot, 77);
    assert_eq!(event.kind, TxKind::Mixed);
    assert!(event.signature.is_some());
}

#[test]
fn laserstream_transaction_event_from_update_shortcuts_vote_only() {
    let event = transaction_event_from_update(
        78,
        Some(sample_vote_update()),
        TxCommitmentStatus::Confirmed,
        ProviderCommitmentWatermarks::default(),
    )
    .expect("event");
    assert_eq!(event.slot, 78);
    assert_eq!(event.kind, TxKind::VoteOnly);
    assert!(event.signature.is_some());
}

#[test]
fn laserstream_conversion_names_what_is_wrong() {
    let marks = ProviderCommitmentWatermarks::default();
    let missing = transaction_event_from_update(1, None, TxCommitmentStatus::Processed, marks);
    assert_eq!(missing.unwrap_err(), "missing transaction payload");
    let mut short = sample_update();
    short.signature = vec![1; 63];
    let short = transaction_event_from_update(1, Some(short), TxCommitmentStatus::Processed, marks);
    assert_eq!(short.unwrap_err(), "invalid signature");
    let mut empty = sample_update();
    empty.transaction = None;
    let empty = transaction_event_from_update(1, Some(empty), TxCommitmentStatus::Processed, marks);
    assert_eq!(empty.unwrap_err(), "missing versioned transaction");
    let mut listed = sample_transaction();
    listed.signatures.push(vec![1; 2]);
    assert_eq!(convert_transaction(&listed).unwrap_err(), "failed to parse transaction signature");
}

#[test]
fn laserstream_channel_plan_fills_in_defaults() {
    let open = LaserStreamChannelOptions {
        connect_timeout_secs: None,
        timeout_secs: None,
        max_decoding_message_size: None,
        max_encoding_message_size: None,
    };
    let plan = open.plan();
    assert_eq!(plan.connect_timeout_secs, 10);
    assert_eq!(plan.timeout_secs, 30);
    let config = LaserStreamConfig::new(ENDPOINT, "token")
        .with_connect_timeout(Duration::from_secs(3))
        .with_timeout(Duration::from_millis(4_900))
        .with_max_decoding_message_size(1_024);
    let client = config.client_config();
    assert_eq!(client.endpoint, ENDPOINT);
    assert_eq!(client.api_key, "token");
    let plan = client.channel.plan();
    assert_eq!(plan.connect_timeout_secs, 3);
    assert_eq!(plan.timeout_secs, 4);
    assert_eq!(plan.max_decoding_message_size, 1_024);
}

#[test]
fn laserstream_access_token_is_left_out_when_empty() {
    assert_eq!(access_token(""), None);
    assert_eq!(access_token("token"), Some("token"));
}

#[test]
fn laserstream_internal_slots_feed_the_watermarks() {
    let config = LaserStreamConfig::new(ENDPOINT, "token").with_replay_mode(ProviderReplayMode::Resume);
    let source = Arc::new(config.resolved_source_identity(2));
    let mut state = LaserStreamPrimaryState::new(at(1));
    let health = state.begin_session(&config, &source, at(1));
    assert_eq!(health.status, ProviderSourceHealthStatus::Healthy);
    let action = state.on_event(
        &config,
        &source,
        LaserStreamSessionEvent::Update {
            update: GrpcUpdate::Slot(GrpcSlotUpdate { slot: 40, parent: Some(39), status: 1 }),
            filters: vec![INTERNAL_WATERMARK_SLOT_FILTER.to_owned()],
            at: at(2),
        },
    );
    assert!(matches!(action, LaserStreamSessionAction::Continue));
    assert_eq!(state.watermarks.confirmed_slot, Some(40));
    let action = state.on_event(
        &config,
        &source,
        LaserStreamSessionEvent::Update {
            update: GrpcUpdate::Transaction { slot: 41, transaction: Some(sample_update()) },
            filters: vec!["sof".to_owned()],
            at: at(3),
        },
    );
    let LaserStreamSessionAction::Emit(ProviderStreamUpdate::Transaction(event)) = action else {
        panic!("expected transaction update");
    };
    assert_eq!(event.slot, 41);
    assert_eq!(event.confirmed_slot, Some(40));
    assert_eq!(event.provider_source.as_deref().expect("source").instance_str(), "laserstream-2");
    assert_eq!(config.subscribe_request_with_state(state.tracked_slot).from_slot, Some(41));
}

#[test]
fn laserstream_slot_source_reports_status_changes() {
    let config = LaserStreamSlotsConfig::new(ENDPOINT, "token");
    let source = Arc::new(config.resolved_source_identity(1));
    let mut state = LaserStreamSlotState::new(at(1));
    state.begin_session(&config, &source, at(1));
    let action = state.on_event(
        &source,
        LaserStreamSessionEvent::Update {
            update: GrpcUpdate::Slot(GrpcSlotUpdate { slot: 93, parent: Some(92), status: 1 }),
            filters: vec!["sof".to_owned()],
            at: at(2),
        },
    );
    let LaserStreamSessionAction::Emit(ProviderStreamUpdate::SlotStatus(event)) = action else {
        panic!("expected slot-status update");
    };
    assert_eq!(event.slot, 93);
    assert_eq!(event.status, ForkSlotStatus::Confirmed);
    assert_eq!(event.confirmed_slot, Some(93));
    let action = state.on_event(&source, LaserStreamSessionEvent::StallDeadlinePassed);
    let LaserStreamSessionAction::Fail(error) = action else {
        panic!("expected a stall");
    };
    assert!(matches!(error, LaserStreamError::Protocol(LaserStreamProtocolError::SlotStreamStalled)));
}

#[test]
fn laserstream_failures_have_their_reasons() {
    let config = LaserStreamConfig::new(ENDPOINT, "token");
    assert_eq!(config.runtime_mode(), ProviderStreamMode::LaserStream);
    let source = Arc::new(config.resolved_source_identity(1));
    let mut state = LaserStreamPrimaryState::new(at(1));
    let action = state.on_event(&config, &source, LaserStreamSessionEvent::StreamEnded);
    assert!(matches!(action, LaserStreamSessionAction::End));
    let action = state.on_event(&config, &source, LaserStreamSessionEvent::StreamFailed("gone".to_owned()));
    let LaserStreamSessionAction::Fail(error) = action else {
        panic!("expected a failure");
    };
    assert!(error.to_text().ends_with("gone"));
    let client = LaserStreamError::Client("down".to_owned());
    assert_eq!(laserstream_health_reason(&client), ProviderSourceHealthReason::UpstreamTransportFailure);
    let convert = LaserStreamError::Convert("invalid signature");
    assert_eq!(laserstream_health_reason(&convert), ProviderSourceHealthReason::UpstreamProtocolFailure);
}

#[test]
fn laserstream_subscribe_request_can_target_block_meta() {
    let config = LaserStreamConfig::new(ENDPOINT, "token").with_stream(LaserStreamStream::BlockMeta);
    let request = config.subscribe_request_with_state(0);
    assert!(request.transactions.is_none());
    assert!(request.accounts.is_none());
    assert_eq!(request.blocks_meta.as_deref(), Some("sof"));
    assert_eq!(config.runtime_mode(), ProviderStreamMode::LaserStreamBlockMeta);
}
