//! Provider sources, their registry and their supervision.
use sof::bytes::{PubkeyBytes, SignatureBytes};
use sof::event::{TxCommitmentStatus, TxKind};
use sof::framework::ObservedRecentBlockhashEvent;
use sof::provider_stream::fan_in::{
    bind_reserved_update, emit_provider_source_removed, reserved_sender_dropped_event, source_removed_event,
    ProviderSourceRegistry, QueueAnswer, RemovalRetries, RemovalStep, ReservedSend,
    SOURCE_REMOVED_NO_RUNTIME_RETRY_ATTEMPTS,
};
use sof::provider_stream::grpc::stall_deadline;
use sof::provider_stream::source::{
    ProviderSourceArbitrationMode, ProviderSourceHealthEvent, ProviderSourceHealthReason, ProviderSourceHealthStatus,
    ProviderSourceId, ProviderSourceIdentity, ProviderSourceReadiness, ProviderSourceRole,
};
use sof::provider_stream::supervisor::{
    SourceAction, SourceEvent, SourceExit, SourceFailure, SourceMessages, SourcePhase, SourceSupervisor,
    SOURCE_TASK_STOPPED,
};
use sof::provider_stream::update::ProviderStreamUpdate;
use sof::provider_stream::watermarks::{observe_non_transaction_commitment, ProviderCommitmentWatermarks};
use sof::provider_stream::{
    provider_stream_queue_capacity, replay_start_slot, ProviderReplayMode, ProviderStreamMode,
};
use sof::text::{decimal, parse_number, strip_text_prefix};
use sof::time::{current_unix_ms, unix_ms_from_reading, Duration, Instant};
use sof::transaction::{
    classify_provider_transaction_kind, classify_provider_transaction_kind_view, decode_transaction,
    CompiledInstruction, MessageHeader, VersionedMessage, VersionedTransaction,
};
use std::sync::Arc;

fn custom(label: &str, instance: &str) -> ProviderSourceIdentity {
    ProviderSourceIdentity::new(ProviderSourceId::Generic(Arc::<str>::from(label)), instance)
}

fn transaction_with_programs(programs: &[[u8; 32]]) -> VersionedTransaction {
    let mut account_keys = vec![PubkeyBytes([1; 32])];
    let mut instructions = Vec::new();
    for (index, program) in programs.iter().enumerate() {
        account_keys.push(PubkeyBytes(*program));
        instructions.push(CompiledInstruction { program_id_index: index as u8 + 1, accounts: vec![], data: vec![] });
    }
    VersionedTransaction {
        signatures: vec![SignatureBytes([1; 64])],
        message: VersionedMessage {
            header: MessageHeader {
                num_required_signatures: 1,
                num_readonly_signed_accounts: 0,
                num_readonly_unsigned_accounts: programs.len() as u8,
            },
            account_keys,
            recent_blockhash: [0; 32],
            instructions,
            address_table_lookups: None,
        },
    }
}

fn vote_id() -> [u8; 32] {
    solana_sdk_ids::vote::id().to_bytes()
}

fn compute_budget_id() -> [u8; 32] {
    solana_sdk_ids::compute_budget::id().to_bytes()
}

fn system_id() -> [u8; 32] {
    solana_sdk_ids::system_program::id().to_bytes()
}

#[test]
fn classify_provider_transaction_kind_detects_mixed() {
    let mut programs = vec![vote_id(), system_id()];
    for _ in 0..32 {
        programs.push(compute_budget_id());
    }
    let tx = transaction_with_programs(&programs);
    assert_eq!(classify_provider_transaction_kind(&tx), TxKind::Mixed);
}

#[test]
fn classify_provider_transaction_kind_tells_the_others_apart() {
    let votes = transaction_with_programs(&[vote_id(), compute_budget_id()]);
    assert_eq!(classify_provider_transaction_kind(&votes), TxKind::VoteOnly);
    let budget = transaction_with_programs(&[compute_budget_id()]);
    assert_eq!(classify_provider_transaction_kind(&budget), TxKind::NonVote);
    let empty = transaction_with_programs(&[]);
    assert_eq!(classify_provider_transaction_kind(&empty), TxKind::NonVote);
    let mut outside = transaction_with_programs(&[vote_id()]);
    outside.message.instructions[0].program_id_index = 9;
    assert_eq!(classify_provider_transaction_kind(&outside), TxKind::NonVote);
}

#[test]
fn viewed_transactions_are_classified_alike() {
    let programs = [
        vec![vote_id(), system_id(), compute_budget_id()],
        vec![vote_id(), compute_budget_id()],
        vec![system_id()],
        vec![compute_budget_id(), vote_id(), system_id()],
        vec![],
    ];
    let kinds = [TxKind::Mixed, TxKind::VoteOnly, TxKind::NonVote, TxKind::Mixed, TxKind::NonVote];
    for (programs, kind) in programs.iter().zip(kinds) {
        let keys: Vec<PubkeyBytes> = programs.iter().map(|program| PubkeyBytes(*program)).collect();
        assert_eq!(classify_provider_transaction_kind_view(&keys), kind);
        assert_eq!(classify_provider_transaction_kind(&transaction_with_programs(programs)), kind);
    }
}

#[test]
fn decoded_transaction_is_the_encoded_one() {
    let wire = solana_transaction::versioned::VersionedTransaction {
        signatures: vec![solana_signature::Signature::from([9_u8; 64])],
        message: solana_message::VersionedMessage::V0(solana_message::v0::Message {
            header: solana_message::MessageHeader {
                num_required_signatures: 1,
                num_readonly_signed_accounts: 0,
                num_readonly_unsigned_accounts: 1,
            },
            account_keys: vec![
                solana_pubkey::Pubkey::from([4_u8; 32]),
                solana_pubkey::Pubkey::from(vote_id()),
            ],
            recent_blockhash: solana_hash::Hash::new_from_array([6; 32]),
            instructions: vec![solana_message::compiled_instruction::CompiledInstruction {
                program_id_index: 1,
                accounts: vec![0],
                data: vec![1, 2],
            }],
            address_table_lookups: vec![solana_message::v0::MessageAddressTableLookup {
                account_key: solana_pubkey::Pubkey::from([7_u8; 32]),
                writable_indexes: vec![3],
                readonly_indexes: vec![4, 5],
            }],
        }),
    };
    let bytes = bincode::serialize(&wire).expect("serialize");
    let tx = decode_transaction(&bytes).expect("decode");
    assert_eq!(tx.signatures, vec![SignatureBytes([9; 64])]);
    assert_eq!(tx.message.account_keys, vec![PubkeyBytes([4; 32]), PubkeyBytes(vote_id())]);
    assert_eq!(tx.message.recent_blockhash, [6; 32]);
    assert_eq!(tx.message.instructions[0].program_id_index, 1);
    assert_eq!(tx.message.instructions[0].data, vec![1, 2]);
    let lookups = tx.message.address_table_lookups.as_ref().expect("version zero");
    assert_eq!(lookups[0].account_key, PubkeyBytes([7; 32]));
    assert_eq!(lookups[0].writable_indexes, vec![3]);
    assert_eq!(lookups[0].readonly_indexes, vec![4, 5]);
    assert_eq!(classify_provider_transaction_kind(&tx), TxKind::VoteOnly);
    assert!(decode_transaction(&[1, 2, 3]).is_none());
}

#[test]
fn reserved_provider_sender_binds_reserved_source_identity() {
    let mut registry = ProviderSourceRegistry::new();
    let source = registry.reserve_source_identity(custom("custom", "source-a")).expect("reserve source");
    let update = ProviderStreamUpdate::RecentBlockhash(ObservedRecentBlockhashEvent {
        slot: 7,
        recent_blockhash: [8; 32],
        dataset_tx_count: 0,
        provider_source: Some(Arc::new(custom("other", "source-b"))),
    });
    let ReservedSend::Queue(ProviderStreamUpdate::RecentBlockhash(event)) = bind_reserved_update(&source, update)
    else {
        panic!("expected recent blockhash update");
    };
    let source = event.provider_source.expect("bound provider source");
    assert_eq!(source.kind_str(), "custom");
    assert_eq!(source.instance_str(), "source-a");
    assert_eq!(event.slot, 7);
    assert_eq!(event.recent_blockhash, [8; 32]);
}

fn health(source: &ProviderSourceIdentity, status: ProviderSourceHealthStatus) -> ProviderStreamUpdate {
    ProviderStreamUpdate::Health(ProviderSourceHealthEvent {
        source: source.clone(),
        readiness: ProviderSourceReadiness::Required,
        status,
        reason: ProviderSourceHealthReason::SubscriptionAckReceived,
        message: "source subscription acknowledged".to_owned(),
    })
}

#[test]
fn reserved_provider_sender_emits_removed_health_on_drop() {
    let source = custom("custom", "source-a");
    let first = bind_reserved_update(&source, health(&source, ProviderSourceHealthStatus::Healthy));
    let ReservedSend::Queue(ProviderStreamUpdate::Health(first)) = first else {
        panic!("expected first health update");
    };
    assert_eq!(first.source, source);
    assert_eq!(first.status, ProviderSourceHealthStatus::Healthy);
    let second = reserved_sender_dropped_event(&source);
    assert_eq!(second.source, source);
    assert_eq!(second.status, ProviderSourceHealthStatus::Removed);
    assert_eq!(second.reason, ProviderSourceHealthReason::SourceRemoved);
}

#[test]
fn reserved_provider_sender_defers_identity_reuse_until_removed_is_enqueued() {
    let mut registry = ProviderSourceRegistry::new();
    let source = registry.reserve_source_identity(custom("custom", "source-a")).expect("reserve source");
    let step = emit_provider_source_removed(QueueAnswer::Full, true);
    assert_eq!(step, RemovalStep::AwaitRoomThenRelease);
    assert!(
        registry.reserve_source_identity(source.clone()).is_err(),
        "identity should stay reserved until removed is queued"
    );
    registry.release_source_identity(&source);
    assert!(
        registry.reserve_source_identity(source).is_ok(),
        "identity released after removed is enqueued"
    );
}

#[test]
fn reserved_provider_sender_rejects_removed_health_while_alive() {
    let source = custom("custom", "source-a");
    let sent = bind_reserved_update(&source, health(&source, ProviderSourceHealthStatus::Removed));
    let ReservedSend::Refuse(ProviderStreamUpdate::Health(removed)) = sent else {
        panic!("reserved sender should reject removed health while alive");
    };
    assert_eq!(removed.source, source);
    assert_eq!(removed.status, ProviderSourceHealthStatus::Removed);
}

#[test]
fn reserved_provider_sender_releases_identity_after_bounded_no_runtime_cleanup_retry() {
    assert_eq!(emit_provider_source_removed(QueueAnswer::Full, false), RemovalStep::RetryWithoutRuntime);
    let mut retries = RemovalRetries::new();
    for _ in 1..SOURCE_REMOVED_NO_RUNTIME_RETRY_ATTEMPTS {
        assert!(matches!(retries.on_answer(QueueAnswer::Full), RemovalStep::SleepThenRetry(_)));
    }
    let RemovalStep::SleepThenRelease(pause) = retries.on_answer(QueueAnswer::Full) else {
        panic!("identity released after bounded retries");
    };
    assert_eq!(pause.as_nanos(), 5_000_000);
    assert_eq!(SOURCE_REMOVED_NO_RUNTIME_RETRY_ATTEMPTS, 64);
}

#[test]
fn removal_that_is_queued_or_unheard_releases_at_once() {
    assert_eq!(emit_provider_source_removed(QueueAnswer::Accepted, true), RemovalStep::Release);
    assert_eq!(emit_provider_source_removed(QueueAnswer::Closed, false), RemovalStep::Release);
    let mut retries = RemovalRetries::new();
    assert!(matches!(retries.on_answer(QueueAnswer::Full), RemovalStep::SleepThenRetry(_)));
    assert_eq!(retries.on_answer(QueueAnswer::Accepted), RemovalStep::Release);
}

#[test]
fn provider_source_task_guard_emits_removed_health_on_drop() {
    let source = custom("custom", "source-a");
    let event =
        source_removed_event(&source, ProviderSourceReadiness::Required, SOURCE_TASK_STOPPED.to_owned());
    assert_eq!(event.source, source);
    assert_eq!(event.status, ProviderSourceHealthStatus::Removed);
    assert_eq!(event.reason, ProviderSourceHealthReason::SourceRemoved);
    assert_eq!(event.readiness, ProviderSourceReadiness::Required);
    assert_eq!(event.message, "provider source task stopped and was removed from tracking");
}

#[test]
fn registry_tells_identities_apart_by_all_their_parts() {
    let mut registry = ProviderSourceRegistry::new();
    let source = custom("custom", "source-a");
    registry.reserve_source_identity(source.clone()).expect("first");
    assert!(registry.contains(&source));
    assert!(!registry.contains(&custom("custom", "source-b")));
    let other_role = source.clone().with_role(ProviderSourceRole::Fallback);
    assert_eq!(registry.contains(&other_role), source == other_role);
    registry.release_source_identity(&source);
    assert!(!registry.contains(&source));
}

#[test]
fn source_identity_labels() {
    let source = custom("custom", "source-a")
        .with_role(ProviderSourceRole::ConfirmOnly)
        .with_arbitration(ProviderSourceArbitrationMode::FirstSeen);
    assert_eq!(source.to_text(), "custom:source-a");
    assert_eq!(source.role().as_str(), "confirm_only");
    assert_eq!(source.arbitration().as_str(), "first_seen");
    assert_eq!(source.priority(), ProviderSourceRole::ConfirmOnly.default_priority());
    let source = source.with_priority(9);
    assert_eq!(source.priority(), 9);
    let generated = ProviderSourceIdentity::generated(ProviderSourceId::LaserStream, None, 12);
    assert_eq!(generated.instance_str(), "laserstream-12");
    let labelled = ProviderSourceIdentity::generated(ProviderSourceId::LaserStream, Some("mine"), 12);
    assert_eq!(labelled.instance_str(), "mine");
    assert_eq!(ProviderSourceHealthReason::SourceRemoved.as_str(), "source_removed");
    assert_eq!(ProviderSourceReadiness::Required.as_str(), "required");
    assert_eq!(ProviderStreamMode::YellowstoneGrpc.as_str(), "yellowstone_grpc");
}

fn supervisor(budget: Option<u32>) -> SourceSupervisor {
    let messages = SourceMessages {
        waiting: "waiting".to_owned(),
        ended: "ended".to_owned(),
        exhausted: "exhausted after ".to_owned(),
    };
    let (supervisor, _) = SourceSupervisor::announced(
        custom("custom", "source-a"),
        ProviderSourceReadiness::Required,
        messages,
        budget,
        Duration::from_millis(7),
    );
    supervisor
}

fn failure() -> SourceFailure {
    SourceFailure { reason: ProviderSourceHealthReason::UpstreamTransportFailure, message: "reset".to_owned() }
}

#[test]
fn supervisor_gives_up_when_the_budget_is_used_up() {
    let mut source = supervisor(Some(2));
    source.on_event(SourceEvent::Queue(QueueAnswer::Accepted));
    source.on_event(SourceEvent::Connected);
    let Some(SourceAction::Report(report)) =
        source.on_event(SourceEvent::SessionFailed { established: false, failure: failure() })
    else {
        panic!("expected a health report");
    };
    assert_eq!(report.message, "reset");
    assert!(matches!(
        source.on_event(SourceEvent::Queue(QueueAnswer::Accepted)),
        Some(SourceAction::Wait(_))
    ));
    source.on_event(SourceEvent::Waited);
    source.on_event(SourceEvent::ConnectFailed(failure()));
    let Some(SourceAction::Report(report)) = source.on_event(SourceEvent::Queue(QueueAnswer::Accepted)) else {
        panic!("expected the last report");
    };
    assert_eq!(report.status, ProviderSourceHealthStatus::Unhealthy);
    assert_eq!(report.reason, ProviderSourceHealthReason::ReconnectBudgetExhausted);
    assert_eq!(report.message, "exhausted after 2 failures");
    let Some(SourceAction::Stop { exit, removal }) = source.on_event(SourceEvent::Queue(QueueAnswer::Accepted))
    else {
        panic!("expected the source to stop");
    };
    assert_eq!(exit, SourceExit::ReconnectBudgetExhausted { attempts: 2 });
    assert_eq!(removal.expect("removal").message, SOURCE_TASK_STOPPED);
    assert_eq!(source.phase, SourcePhase::Stopped);
    assert!(source.on_event(SourceEvent::Waited).is_none());
}

#[test]
fn supervisor_stops_when_nobody_listens() {
    let mut source = supervisor(None);
    let Some(SourceAction::Stop { exit, removal }) = source.on_event(SourceEvent::Queue(QueueAnswer::Closed)) else {
        panic!("expected the source to stop");
    };
    assert_eq!(exit, SourceExit::QueueClosed);
    assert!(removal.is_none());
    let mut source = supervisor(None);
    source.on_event(SourceEvent::Queue(QueueAnswer::Accepted));
    source.on_event(SourceEvent::Connected);
    let Some(SourceAction::Stop { exit, .. }) = source.on_event(SourceEvent::SessionQueueClosed) else {
        panic!("expected the source to stop");
    };
    assert_eq!(exit, SourceExit::QueueClosed);
}

#[test]
fn supervisor_announces_late_once_connected() {
    let mut source = supervisor(None);
    source.on_event(SourceEvent::Queue(QueueAnswer::Full));
    let Some(SourceAction::Report(report)) = source.on_event(SourceEvent::Connected) else {
        panic!("expected the late announcement");
    };
    assert_eq!(report.reason, ProviderSourceHealthReason::InitialConnectPending);
    assert_eq!(report.message, "waiting");
    assert!(matches!(source.on_event(SourceEvent::Queue(QueueAnswer::Accepted)), Some(SourceAction::Run)));
}

#[test]
fn watermarks_only_rise() {
    let mut marks = ProviderCommitmentWatermarks::default();
    marks.observe_transaction_commitment(10, TxCommitmentStatus::Processed);
    assert_eq!((marks.confirmed_slot, marks.finalized_slot), (None, None));
    marks.observe_transaction_commitment(10, TxCommitmentStatus::Confirmed);
    marks.observe_transaction_commitment(8, TxCommitmentStatus::Finalized);
    assert_eq!((marks.confirmed_slot, marks.finalized_slot), (Some(10), Some(8)));
    observe_non_transaction_commitment(&mut marks, 12, TxCommitmentStatus::Finalized);
    assert_eq!((marks.confirmed_slot, marks.finalized_slot), (Some(12), Some(12)));
    marks.observe_confirmed_slot(3);
    marks.observe_finalized_slot(4);
    assert_eq!((marks.confirmed_slot, marks.finalized_slot), (Some(12), Some(12)));
}

#[test]
fn replay_starts_where_the_mode_says() {
    assert_eq!(replay_start_slot(ProviderReplayMode::Live, 500, 31), None);
    assert_eq!(replay_start_slot(ProviderReplayMode::Resume, 0, 31), None);
    assert_eq!(replay_start_slot(ProviderReplayMode::Resume, 500, 31), Some(469));
    assert_eq!(replay_start_slot(ProviderReplayMode::FromSlot(200), 0, 31), Some(200));
    assert_eq!(provider_stream_queue_capacity(0), 1);
    assert_eq!(provider_stream_queue_capacity(9), 9);
}

#[test]
fn numbers_are_written_and_read() {
    assert_eq!(decimal(0), "0");
    assert_eq!(decimal(u64::MAX), "18446744073709551615");
    assert_eq!(parse_number("18446744073709551615", u64::MAX), Some(u64::MAX));
    assert_eq!(parse_number("18446744073709551616", u64::MAX), None);
    assert_eq!(parse_number("+7", u64::MAX), Some(7));
    assert_eq!(parse_number("-7", u64::MAX), None);
    assert_eq!(parse_number("", u64::MAX), None);
    assert_eq!(parse_number("256", 255), None);
    assert_eq!(strip_text_prefix("wss://host", "wss://"), Some("host"));
    assert_eq!(strip_text_prefix("ws://host", "wss://"), None);
}

#[test]
fn clocks_run_past_their_origins() {
    assert!(current_unix_ms() > 1_500_000_000_000);
    let start = Instant::now();
    assert!(start.as_nanos() > 0);
    assert!(Instant::now() >= start);
    let later = start.checked_add(Duration::from_secs(2)).expect("in range");
    assert_eq!(later.saturating_duration_since(start).as_nanos(), 2_000_000_000);
    assert_eq!(start.saturating_duration_since(later).as_nanos(), 0);
    assert_eq!(start.later_of(later), later);
    assert_eq!(start.earlier_of(later), start);
}

#[test]
fn readings_of_a_clock_are_counted_from_the_origin() {
    assert_eq!(Instant::from_reading(Some((3, 500))).as_nanos(), 3_000_000_500);
    assert_eq!(Instant::from_reading(Some((i64::MAX, 999_999_999))), Instant::last());
    assert_eq!(Instant::from_reading(Some((-1, 0))), Instant::from_nanos(0));
    assert_eq!(Instant::from_reading(Some((1, -1))), Instant::from_nanos(0));
    assert_eq!(Instant::from_reading(Some((1, 1_000_000_000))), Instant::from_nanos(0));
    assert_eq!(Instant::from_reading(None), Instant::from_nanos(0));
}

#[test]
fn instants_reach_past_centuries() {
    let start = Instant::from_nanos(7);
    let late = start.checked_add(Duration::from_millis(u64::MAX)).expect("in range");
    assert_eq!(late.as_nanos(), 7 + u128::from(u64::MAX) * 1_000_000);
    assert_eq!(stall_deadline(start, Some(Duration::from_millis(u64::MAX))), Some(late));
    assert_eq!(start.checked_add(Duration::from_secs(u64::MAX)), None);
    assert_eq!(stall_deadline(start, Some(Duration::from_secs(u64::MAX))), Some(start));
    assert_eq!(stall_deadline(start, None), None);
    assert_eq!(Instant::last().checked_add(Duration::from_nanos(1)), None);
    assert_eq!(Instant::last().checked_add(Duration::from_nanos(0)), Some(Instant::last()));
}

#[test]
fn unix_readings_are_counted_in_milliseconds() {
    assert_eq!(unix_ms_from_reading(None), 0);
    assert_eq!(unix_ms_from_reading(Some((0, 999_999))), 0);
    assert_eq!(unix_ms_from_reading(Some((3, 42_999_999))), 3_042);
    assert_eq!(unix_ms_from_reading(Some((20_000_000_000, 0))), 20_000_000_000_000);
    assert_eq!(unix_ms_from_reading(Some((18_446_744_073_709_551, 615_000_000))), u64::MAX);
    assert_eq!(unix_ms_from_reading(Some((18_446_744_073_709_551, 614_999_999))), u64::MAX - 1);
    assert_eq!(unix_ms_from_reading(Some((u64::MAX, 0))), u64::MAX);
}
