//! Geyser gRPC updates as plain values, and the events they stand for.
use crate::bytes::{
    bytes32_from_slice, hash_from_text, pubkey_base58, pubkey_bytes_from_slice, pubkey_text,
    share_bytes, signature_base58, signature_bytes_from_slice, signature_text, spelled_hash,
    PubkeyBytes, SignatureBytes,
};
use crate::event::{ForkSlotStatus, TxCommitmentStatus, TxKind};
use crate::framework::{
    AccountUpdateEvent, BlockMetaEvent, SlotStatusEvent, TransactionEvent, TransactionStatusEvent,
};
use crate::provider_stream::source::ProviderSourceRef;
use crate::provider_stream::watermarks::ProviderCommitmentWatermarks;
use crate::slots::drop_slots_below;
use crate::time::{Duration, Instant, INSTANT_END_NANOS};
use crate::transaction::{
    classify_provider_transaction_kind, kind_of, CompiledInstruction, InstructionView, LookupView,
    MessageAddressTableLookup, MessageHeader, MessageView, TransactionView,
    VersionedTransaction,
};
use std::collections::HashMap;
use std::sync::Arc;
use vstd::prelude::*;

verus! {

broadcast use vstd::std_specs::hash::group_hash_axioms;

/// Header of a message on the wire.
#[derive(Clone, Copy, Debug)]
pub struct GrpcMessageHeader {
    /// Signatures that the message needs.
    pub num_required_signatures: u32,
    /// Read-only accounts among the signers.
    pub num_readonly_signed_accounts: u32,
    /// Read-only accounts among the others.
    pub num_readonly_unsigned_accounts: u32,
}

/// Instruction on the wire.
#[derive(Clone, Debug)]
pub struct GrpcInstruction {
    /// Index of the program's key.
    pub program_id_index: u32,
    /// Indexes of the accounts.
    pub accounts: Vec<u8>,
    /// Input of the program.
    pub data: Vec<u8>,
}

/// Address table lookup on the wire.
#[derive(Clone, Debug)]
pub struct GrpcAddressTableLookup {
    /// Key of the table.
    pub account_key: Vec<u8>,
    /// Writable rows.
    pub writable_indexes: Vec<u8>,
    /// Read-only rows.
    pub readonly_indexes: Vec<u8>,
}

/// Message on the wire.
#[derive(Clone, Debug)]
pub struct GrpcMessage {
    /// Header counts.
    pub header: Option<GrpcMessageHeader>,
    /// Listed keys.
    pub account_keys: Vec<Vec<u8>>,
    /// Recent block hash.
    pub recent_blockhash: Vec<u8>,
    /// Instructions.
    pub instructions: Vec<GrpcInstruction>,
    /// Whether the message is of version zero rather than legacy.
    pub versioned: bool,
    /// Lookups of a message of version zero.
    pub address_table_lookups: Vec<GrpcAddressTableLookup>,
}

/// Transaction on the wire.
#[derive(Clone, Debug)]
pub struct GrpcTransaction {
    /// Signatures.
    pub signatures: Vec<Vec<u8>>,
    /// Message.
    pub message: Option<GrpcMessage>,
}

/// Transaction together with what the provider says about it.
#[derive(Clone, Debug)]
pub struct GrpcTransactionInfo {
    /// First signature.
    pub signature: Vec<u8>,
    /// Whether the provider calls it a vote.
    pub is_vote: bool,
    /// The transaction.
    pub transaction: Option<GrpcTransaction>,
}

/// Outcome of a transaction on the wire.
#[derive(Clone, Debug)]
pub struct GrpcTransactionStatus {
    /// Slot.
    pub slot: u64,
    /// Signature.
    pub signature: Vec<u8>,
    /// Whether the provider calls it a vote.
    pub is_vote: bool,
    /// Position in the block.
    pub index: u64,
    /// Error in readable form.
    pub err: Option<String>,
}

/// Account state on the wire.
#[derive(Clone, Debug)]
pub struct GrpcAccountInfo {
    /// Key.
    pub pubkey: Vec<u8>,
    /// Balance.
    pub lamports: u64,
    /// Owner.
    pub owner: Vec<u8>,
    /// Whether the account holds a program.
    pub executable: bool,
    /// Rent epoch.
    pub rent_epoch: u64,
    /// Data.
    pub data: Vec<u8>,
    /// Write version.
    pub write_version: u64,
    /// Signature of the transaction that wrote the account.
    pub txn_signature: Option<Vec<u8>>,
}

/// Account update on the wire.
#[derive(Clone, Debug)]
pub struct GrpcAccountUpdate {
    /// Slot.
    pub slot: u64,
    /// Whether the update is part of the start-up snapshot.
    pub is_startup: bool,
    /// The account.
    pub account: Option<GrpcAccountInfo>,
}

/// Block meta on the wire.
#[derive(Clone, Debug)]
pub struct GrpcBlockMeta {
    /// Slot.
    pub slot: u64,
    /// Hash in base58.
    pub blockhash: String,
    /// Slot of the parent.
    pub parent_slot: u64,
    /// Hash of the parent in base58.
    pub parent_blockhash: String,
    /// Unix time.
    pub block_time: Option<i64>,
    /// Height.
    pub block_height: Option<u64>,
    /// Transactions executed.
    pub executed_transaction_count: u64,
    /// Entries.
    pub entries_count: u64,
}

/// Slot status on the wire.
#[derive(Clone, Copy, Debug)]
pub struct GrpcSlotUpdate {
    /// Slot.
    pub slot: u64,
    /// Parent slot.
    pub parent: Option<u64>,
    /// Status code.
    pub status: i32,
}

/// One update on the wire.
#[derive(Clone, Debug)]
pub enum GrpcUpdate {
    /// A transaction.
    Transaction {
        /// Slot.
        slot: u64,
        /// The transaction.
        transaction: Option<GrpcTransactionInfo>,
    },
    /// A transaction's outcome.
    TransactionStatus(GrpcTransactionStatus),
    /// An account.
    Account(GrpcAccountUpdate),
    /// A block's header data.
    BlockMeta(GrpcBlockMeta),
    /// A slot's status.
    Slot(GrpcSlotUpdate),
    /// A ping that wants an answer.
    Ping,
    /// Anything else.
    Other,
}

/// The earlier of two possible errors.
pub open spec fn first_error(a: Option<&'static str>, b: Option<&'static str>) -> Option<&'static str> {
    if a is Some {
        a
    } else {
        b
    }
}

/// What is wrong with a header.
pub open spec fn header_error(header: Option<GrpcMessageHeader>) -> Option<&'static str> {
    match header {
        None => Some("missing message header"),
        Some(counts) => if counts.num_required_signatures > 255 {
            Some("invalid num_required_signatures")
        } else if counts.num_readonly_signed_accounts > 255 {
            Some("invalid num_readonly_signed_accounts")
        } else if counts.num_readonly_unsigned_accounts > 255 {
            Some("invalid num_readonly_unsigned_accounts")
        } else {
            None
        },
    }
}

/// What is wrong with account keys: one that is not thirty-two bytes long.
pub open spec fn keys_error(keys: Seq<Vec<u8>>) -> Option<&'static str> {
    if exists|i: int| 0 <= i < keys.len() && (#[trigger] keys[i])@.len() != 32 {
        Some("invalid account key")
    } else {
        None
    }
}

/// What is wrong with a block hash: not being thirty-two bytes long.
pub open spec fn blockhash_error(blockhash: Seq<u8>) -> Option<&'static str> {
    if blockhash.len() != 32 {
        Some("invalid recent blockhash")
    } else {
        None
    }
}

/// What is wrong with instructions: a program index that no message can hold.
pub open spec fn instructions_error(instructions: Seq<GrpcInstruction>) -> Option<&'static str> {
    if exists|i: int| 0 <= i < instructions.len() && (#[trigger] instructions[i]).program_id_index > 255 {
        Some("invalid compiled instruction program id index")
    } else {
        None
    }
}

/// What is wrong with the lookups of a message of version zero: a table key that is not
/// thirty-two bytes long.
pub open spec fn lookups_error(versioned: bool, lookups: Seq<GrpcAddressTableLookup>) -> Option<&'static str> {
    if versioned && exists|i: int| 0 <= i < lookups.len() && (#[trigger] lookups[i]).account_key@.len() != 32 {
        Some("invalid address table account key")
    } else {
        None
    }
}

/// What is wrong with signatures, the first one left out where it is known from elsewhere: one
/// that is not sixty-four bytes long.
pub open spec fn signatures_error(signatures: Seq<Vec<u8>>, first: Option<Seq<u8>>) -> Option<&'static str> {
    if exists|i: int|
        (if first is Some {
            1int
        } else {
            0int
        }) <= i < signatures.len() && (#[trigger] signatures[i])@.len() != 64 {
        Some("failed to parse transaction signature")
    } else {
        None
    }
}

/// The signatures that a transaction ends up with.
pub open spec fn signatures_view(signatures: Seq<Vec<u8>>, first: Option<Seq<u8>>) -> Seq<Seq<u8>> {
    Seq::new(
        signatures.len(),
        |i: int|
            if i == 0 && first is Some {
                first->0
            } else {
                signatures[i]@
            },
    )
}

/// The message that a faultless wire message stands for.
pub open spec fn message_view(message: GrpcMessage) -> MessageView {
    let counts = message.header->0;
    MessageView {
        header: MessageHeader {
            num_required_signatures: counts.num_required_signatures as u8,
            num_readonly_signed_accounts: counts.num_readonly_signed_accounts as u8,
            num_readonly_unsigned_accounts: counts.num_readonly_unsigned_accounts as u8,
        },
        account_keys: message.account_keys@.map_values(|key: Vec<u8>| key@),
        recent_blockhash: message.recent_blockhash@,
        instructions: message.instructions@.map_values(
            |one: GrpcInstruction|
                InstructionView {
                    program_id_index: one.program_id_index as u8,
                    accounts: one.accounts@,
                    data: one.data@,
                },
        ),
        address_table_lookups: if message.versioned {
            Some(
                message.address_table_lookups@.map_values(
                    |one: GrpcAddressTableLookup|
                        LookupView {
                            account_key: one.account_key@,
                            writable_indexes: one.writable_indexes@,
                            readonly_indexes: one.readonly_indexes@,
                        },
                ),
            )
        } else {
            None
        },
    }
}

/// Reads a header.
pub fn convert_header(header: Option<GrpcMessageHeader>) -> (r: Result<MessageHeader, &'static str>)
    ensures
        match r {
            Ok(counts) => {
                &&& header_error(header) is None
                &&& counts.num_required_signatures == header->0.num_required_signatures
                &&& counts.num_readonly_signed_accounts == header->0.num_readonly_signed_accounts
                &&& counts.num_readonly_unsigned_accounts == header->0.num_readonly_unsigned_accounts
            },
            Err(error) => header_error(header) == Some(error),
        },
{
    match header {
        None => Err("missing message header"),
        Some(counts) => if counts.num_required_signatures > 255 {
            Err("invalid num_required_signatures")
        } else if counts.num_readonly_signed_accounts > 255 {
            Err("invalid num_readonly_signed_accounts")
        } else if counts.num_readonly_unsigned_accounts > 255 {
            Err("invalid num_readonly_unsigned_accounts")
        } else {
            Ok(
                MessageHeader {
                    num_required_signatures: counts.num_required_signatures as u8,
                    num_readonly_signed_accounts: counts.num_readonly_signed_accounts as u8,
                    num_readonly_unsigned_accounts: counts.num_readonly_unsigned_accounts as u8,
                },
            )
        },
    }
}

/// Reads account keys.
pub fn convert_keys(keys: &Vec<Vec<u8>>) -> (r: Result<Vec<PubkeyBytes>, &'static str>)
    ensures
        match r {
            Ok(read) => keys_error(keys@) is None && read@.map_values(|key: PubkeyBytes| key@) == keys@.map_values(
                |key: Vec<u8>| key@,
            ),
            Err(error) => keys_error(keys@) == Some(error),
        },
{
    let mut read: Vec<PubkeyBytes> = Vec::with_capacity(keys.len());
    let mut i: usize = 0;
    while i < keys.len()
        invariant
            i <= keys@.len(),
            read@.len() == i,
            forall|j: int| 0 <= j < i ==> #[trigger] read@[j]@ == keys@[j]@ && keys@[j]@.len() == 32,
        decreases keys@.len() - i,
    {
        match pubkey_bytes_from_slice(keys[i].as_slice()) {
            Some(key) => read.push(key),
            None => {
                assert(keys@[i as int]@.len() != 32);
                return Err("invalid account key");
            },
        }
        i += 1;
    }
    proof {
        assert forall|j: int| 0 <= j < keys@.len() implies (#[trigger] keys@[j])@.len() == 32 by {
            assert(read@[j]@ == keys@[j]@);
        }
        assert(read@.map_values(|key: PubkeyBytes| key@) =~= keys@.map_values(|key: Vec<u8>| key@));
    }
    Ok(read)
}

/// Reads a block hash.
pub fn convert_blockhash(blockhash: &Vec<u8>) -> (r: Result<[u8; 32], &'static str>)
    ensures
        match r {
            Ok(read) => blockhash_error(blockhash@) is None && read@ == blockhash@,
            Err(error) => blockhash_error(blockhash@) == Some(error),
        },
{
    match bytes32_from_slice(blockhash.as_slice()) {
        Some(read) => Ok(read),
        None => Err("invalid recent blockhash"),
    }
}

/// Reads instructions.
pub fn convert_instructions(instructions: &Vec<GrpcInstruction>) -> (r: Result<
    Vec<CompiledInstruction>,
    &'static str,
>)
    ensures
        match r {
            Ok(read) => {
                &&& instructions_error(instructions@) is None
                &&& read@.map_values(|one: CompiledInstruction| one@) == instructions@.map_values(
                    |one: GrpcInstruction|
                        InstructionView {
                            program_id_index: one.program_id_index as u8,
                            accounts: one.accounts@,
                            data: one.data@,
                        },
                )
            },
            Err(error) => instructions_error(instructions@) == Some(error),
        },
{
    let mut read: Vec<CompiledInstruction> = Vec::with_capacity(instructions.len());
    let mut i: usize = 0;
    while i < instructions.len()
        invariant
            i <= instructions@.len(),
            read@.len() == i,
            forall|j: int| 0 <= j < i ==> (#[trigger] instructions@[j]).program_id_index <= 255,
            forall|j: int|
                0 <= j < i ==> {
                    &&& (#[trigger] read@[j]).program_id_index == instructions@[j].program_id_index
                    &&& read@[j].accounts@ == instructions@[j].accounts@
                    &&& read@[j].data@ == instructions@[j].data@
                },
        decreases instructions@.len() - i,
    {
        let one = &instructions[i];
        if one.program_id_index > 255 {
            assert(instructions@[i as int].program_id_index > 255);
            return Err("invalid compiled instruction program id index");
        }
        let converted = CompiledInstruction {
            program_id_index: one.program_id_index as u8,
            accounts: vstd::slice::slice_to_vec(one.accounts.as_slice()),
            data: vstd::slice::slice_to_vec(one.data.as_slice()),
        };
        read.push(converted);
        i += 1;
    }
    proof {
        assert(read@.map_values(|one: CompiledInstruction| one@) =~= instructions@.map_values(
            |one: GrpcInstruction|
                InstructionView {
                    program_id_index: one.program_id_index as u8,
                    accounts: one.accounts@,
                    data: one.data@,
                },
        ));
    }
    Ok(read)
}

/// Reads the lookups of a message of version zero; a legacy message has none.
pub fn convert_lookups(versioned: bool, lookups: &Vec<GrpcAddressTableLookup>) -> (r: Result<
    Option<Vec<MessageAddressTableLookup>>,
    &'static str,
>)
    ensures
        match r {
            Ok(None) => !versioned,
            Ok(Some(read)) => {
                &&& versioned
                &&& lookups_error(versioned, lookups@) is None
                &&& read@.map_values(|one: MessageAddressTableLookup| one@) == lookups@.map_values(
                    |one: GrpcAddressTableLookup|
                        LookupView {
                            account_key: one.account_key@,
                            writable_indexes: one.writable_indexes@,
                            readonly_indexes: one.readonly_indexes@,
                        },
                )
            },
            Err(error) => lookups_error(versioned, lookups@) == Some(error),
        },
{
    if !versioned {
        return Ok(None);
    }
    let mut read: Vec<MessageAddressTableLookup> = Vec::with_capacity(lookups.len());
    let mut i: usize = 0;
    while i < lookups.len()
        invariant
            i <= lookups@.len(),
            read@.len() == i,
            versioned,
            forall|j: int| 0 <= j < i ==> (#[trigger] lookups@[j]).account_key@.len() == 32,
            forall|j: int|
                0 <= j < i ==> {
                    &&& (#[trigger] read@[j]).account_key@ == lookups@[j].account_key@
                    &&& read@[j].writable_indexes@ == lookups@[j].writable_indexes@
                    &&& read@[j].readonly_indexes@ == lookups@[j].readonly_indexes@
                },
        decreases lookups@.len() - i,
    {
        let one = &lookups[i];
        match pubkey_bytes_from_slice(one.account_key.as_slice()) {
            Some(account_key) => {
                let converted = MessageAddressTableLookup {
                    account_key,
                    writable_indexes: vstd::slice::slice_to_vec(one.writable_indexes.as_slice()),
                    readonly_indexes: vstd::slice::slice_to_vec(one.readonly_indexes.as_slice()),
                };
                read.push(converted);
            },
            None => {
                assert(lookups@[i as int].account_key@.len() != 32);
                return Err("invalid address table account key");
            },
        }
        i += 1;
    }
    proof {
        assert(read@.map_values(|one: MessageAddressTableLookup| one@) =~= lookups@.map_values(
            |one: GrpcAddressTableLookup|
                LookupView {
                    account_key: one.account_key@,
                    writable_indexes: one.writable_indexes@,
                    readonly_indexes: one.readonly_indexes@,
                },
        ));
    }
    Ok(Some(read))
}

/// The bytes of a signature that may be absent.
pub open spec fn signature_view(signature: Option<SignatureBytes>) -> Option<Seq<u8>> {
    match signature {
        Some(known) => Some(known@),
        None => None,
    }
}

/// Reads signatures. A first signature that is known already takes the place of the first one.
pub fn convert_signatures(signatures: &Vec<Vec<u8>>, first: Option<SignatureBytes>) -> (r: Result<
    Vec<SignatureBytes>,
    &'static str,
>)
    ensures
        match r {
            Ok(read) => {
                &&& signatures_error(signatures@, signature_view(first)) is None
                &&& read@.map_values(|one: SignatureBytes| one@) == signatures_view(signatures@, signature_view(first))
            },
            Err(error) => signatures_error(signatures@, signature_view(first)) == Some(error),
        },
{
    let mut read: Vec<SignatureBytes> = Vec::with_capacity(signatures.len());
    let mut i: usize = 0;
    while i < signatures.len()
        invariant
            i <= signatures@.len(),
            read@.len() == i,
            forall|j: int| 0 <= j < i ==> #[trigger] read@[j]@ == signatures_view(signatures@, signature_view(first))[j],
            forall|j: int|
                (if first is Some {
                    1int
                } else {
                    0int
                }) <= j < i ==> (#[trigger] signatures@[j])@.len() == 64,
        decreases signatures@.len() - i,
    {
        let known: Option<SignatureBytes> = if i == 0 {
            first
        } else {
            None
        };
        match known {
            Some(signature) => read.push(signature),
            None => match signature_bytes_from_slice(signatures[i].as_slice()) {
                Some(signature) => read.push(signature),
                None => {
                    assert(signatures@[i as int]@.len() != 64);
                    return Err("failed to parse transaction signature");
                },
            },
        }
        i += 1;
    }
    proof {
        assert(read@.map_values(|one: SignatureBytes| one@) =~= signatures_view(signatures@, signature_view(first)));
    }
    Ok(read)
}

/// The status that a code stands for, none for an unknown code.
pub open spec fn slot_status_of(code: i32) -> Option<ForkSlotStatus> {
    if code == 0 || code == 3 || code == 4 || code == 5 {
        Some(ForkSlotStatus::Processed)
    } else if code == 1 {
        Some(ForkSlotStatus::Confirmed)
    } else if code == 2 {
        Some(ForkSlotStatus::Finalized)
    } else if code == 6 {
        Some(ForkSlotStatus::Orphaned)
    } else {
        None
    }
}

/// Reads a slot status code: processed, first shred received, completed and bank created count
/// as processed, a dead slot is orphaned.
pub fn slot_status_from_code(code: i32) -> (r: Option<ForkSlotStatus>)
    ensures
        r == slot_status_of(code),
{
    if code == 0 || code == 3 || code == 4 || code == 5 {
        Some(ForkSlotStatus::Processed)
    } else if code == 1 {
        Some(ForkSlotStatus::Confirmed)
    } else if code == 2 {
        Some(ForkSlotStatus::Finalized)
    } else if code == 6 {
        Some(ForkSlotStatus::Orphaned)
    } else {
        None
    }
}

/// The watermarks after a slot was seen in a status.
pub open spec fn marks_after_status(
    marks: ProviderCommitmentWatermarks,
    slot: u64,
    status: Option<ForkSlotStatus>,
) -> ProviderCommitmentWatermarks {
    match status {
        Some(ForkSlotStatus::Confirmed) => marks.observed(slot, TxCommitmentStatus::Confirmed),
        Some(ForkSlotStatus::Finalized) => marks.observed(slot, TxCommitmentStatus::Finalized),
        _ => marks,
    }
}

/// Raises the watermarks by a slot that was confirmed or finalized.
pub fn observe_slot_status(marks: &mut ProviderCommitmentWatermarks, slot: u64, status: Option<ForkSlotStatus>)
    ensures
        *final(marks) == marks_after_status(*old(marks), slot, status),
{
    match status {
        Some(ForkSlotStatus::Confirmed) => marks.observe_confirmed_slot(slot),
        Some(ForkSlotStatus::Finalized) => marks.observe_finalized_slot(slot),
        _ => {},
    }
}

/// The statuses that are left after old slots were dropped: all of them as long as there are no
/// more than `threshold`, otherwise those of slots no more than `lag` behind `current`.
pub open spec fn recent_slots<V>(states: Map<u64, V>, current: u64, lag: u64, threshold: nat) -> Map<u64, V> {
    if states.len() <= threshold {
        states
    } else {
        states.restrict(Set::new(|slot: u64| slot + lag >= current))
    }
}

/// Drops the statuses of old slots once there are many.
pub fn prune_recent_slots(states: &mut HashMap<u64, ForkSlotStatus>, current: u64, lag: u64, threshold: usize)
    ensures
        final(states)@ == recent_slots(old(states)@, current, lag, threshold as nat),
{
    if states.len() <= threshold {
        return;
    }
    let ghost before = states@;
    drop_slots_below(states, current.saturating_sub(lag));
    proof {
        assert(states@ =~= recent_slots(before, current, lag, threshold as nat));
    }
}

/// The larger of two slots.
pub open spec fn later_slot(a: u64, b: u64) -> u64 {
    if b > a {
        b
    } else {
        a
    }
}

/// Whether `event` tells of a wire transaction's slot and content what the wire says.
pub open spec fn tells_transaction(
    event: TransactionEvent,
    slot: u64,
    info: GrpcTransactionInfo,
    signatures: Seq<Seq<u8>>,
    commitment: TxCommitmentStatus,
    marks: ProviderCommitmentWatermarks,
    source: Option<ProviderSourceRef>,
) -> bool {
    let message = message_view(info.transaction->0.message->0);
    &&& event.slot == slot
    &&& event.commitment_status == commitment
    &&& event.confirmed_slot == marks.confirmed_slot
    &&& event.finalized_slot == marks.finalized_slot
    &&& signature_view(event.signature) == Some(info.signature@)
    &&& event.provider_source == source
    &&& event.kind == if info.is_vote {
        TxKind::VoteOnly
    } else {
        kind_of(message)
    }
    &&& (*event.tx)@ == TransactionView { signatures, message }
}

/// Makes the event of a converted transaction.
pub fn transaction_event(
    slot: u64,
    is_vote: bool,
    signature: SignatureBytes,
    tx: VersionedTransaction,
    commitment: TxCommitmentStatus,
    marks: ProviderCommitmentWatermarks,
) -> (r: TransactionEvent)
    ensures
        r.slot == slot,
        r.commitment_status == commitment,
        r.confirmed_slot == marks.confirmed_slot,
        r.finalized_slot == marks.finalized_slot,
        r.signature == Some(signature),
        r.provider_source is None,
        r.kind == if is_vote {
            TxKind::VoteOnly
        } else {
            kind_of(tx@.message)
        },
        *r.tx == tx,
{
    let kind = if is_vote {
        TxKind::VoteOnly
    } else {
        classify_provider_transaction_kind(&tx)
    };
    TransactionEvent {
        slot,
        commitment_status: commitment,
        confirmed_slot: marks.confirmed_slot,
        finalized_slot: marks.finalized_slot,
        signature: Some(signature),
        provider_source: None,
        kind,
        tx: Arc::new(tx),
    }
}

/// What is wrong with a transaction's outcome: a signature that is not sixty-four bytes long.
pub open spec fn status_error(update: GrpcTransactionStatus) -> Option<&'static str> {
    if update.signature@.len() != 64 {
        Some("invalid transaction-status signature")
    } else {
        None
    }
}

/// Whether `event` tells of a transaction's outcome what the wire says.
pub open spec fn tells_status(
    event: TransactionStatusEvent,
    update: GrpcTransactionStatus,
    commitment: TxCommitmentStatus,
    marks: ProviderCommitmentWatermarks,
    source: Option<ProviderSourceRef>,
) -> bool {
    &&& event.slot == update.slot
    &&& event.commitment_status == commitment
    &&& event.confirmed_slot == marks.confirmed_slot
    &&& event.finalized_slot == marks.finalized_slot
    &&& event.signature@ == update.signature@
    &&& event.is_vote == update.is_vote
    &&& event.index == Some(update.index)
    &&& event.err == update.err
    &&& event.provider_source == source
}

/// Makes the event of a transaction's outcome.
pub fn transaction_status_event_from_update(
    commitment_status: TxCommitmentStatus,
    watermarks: ProviderCommitmentWatermarks,
    update: GrpcTransactionStatus,
) -> (r: Result<TransactionStatusEvent, &'static str>)
    ensures
        match r {
            Ok(event) => status_error(update) is None && tells_status(
                event,
                update,
                commitment_status,
                watermarks,
                None,
            ),
            Err(error) => status_error(update) == Some(error),
        },
{
    match signature_bytes_from_slice(update.signature.as_slice()) {
        None => Err("invalid transaction-status signature"),
        Some(signature) => Ok(
            TransactionStatusEvent {
                slot: update.slot,
                commitment_status,
                confirmed_slot: watermarks.confirmed_slot,
                finalized_slot: watermarks.finalized_slot,
                signature,
                is_vote: update.is_vote,
                index: Some(update.index),
                err: update.err,
                provider_source: None,
            },
        ),
    }
}

/// What is wrong with an account update. `max_data_len` bounds the account data, if there is a
/// bound.
pub open spec fn account_error(update: GrpcAccountUpdate, max_data_len: Option<usize>) -> Option<&'static str> {
    match update.account {
        None => Some("missing account payload"),
        Some(account) => if account.pubkey@.len() != 32 {
            Some("invalid account pubkey")
        } else if account.owner@.len() != 32 {
            Some("invalid account owner")
        } else if account.txn_signature is Some && account.txn_signature->0@.len() != 64 {
            Some("invalid account txn signature")
        } else if max_data_len is Some && account.data@.len() > max_data_len->0 {
            Some("account data exceeds max permitted size")
        } else {
            None
        },
    }
}

/// Whether `event` tells of an account what the wire says.
pub open spec fn tells_account(
    event: AccountUpdateEvent,
    update: GrpcAccountUpdate,
    commitment: TxCommitmentStatus,
    marks: ProviderCommitmentWatermarks,
    source: Option<ProviderSourceRef>,
) -> bool {
    let account = update.account->0;
    &&& event.slot == update.slot
    &&& event.commitment_status == commitment
    &&& event.confirmed_slot == marks.confirmed_slot
    &&& event.finalized_slot == marks.finalized_slot
    &&& event.pubkey@ == account.pubkey@
    &&& event.owner@ == account.owner@
    &&& event.lamports == account.lamports
    &&& event.executable == account.executable
    &&& event.rent_epoch == account.rent_epoch
    &&& event.data@ == account.data@
    &&& event.write_version == Some(account.write_version)
    &&& match account.txn_signature {
        Some(bytes) => signature_view(event.txn_signature) == Some(bytes@),
        None => event.txn_signature is None,
    }
    &&& event.is_startup == update.is_startup
    &&& event.matched_filter is None
    &&& event.provider_source == source
}

/// Makes the event of an account update.
pub fn account_update_event(
    update: GrpcAccountUpdate,
    commitment_status: TxCommitmentStatus,
    watermarks: ProviderCommitmentWatermarks,
    max_data_len: Option<usize>,
) -> (r: Result<AccountUpdateEvent, &'static str>)
    ensures
        match r {
            Ok(event) => account_error(update, max_data_len) is None && tells_account(
                event,
                update,
                commitment_status,
                watermarks,
                None,
            ),
            Err(error) => account_error(update, max_data_len) == Some(error),
        },
{
    let account = match update.account {
        None => {
            return Err("missing account payload");
        },
        Some(account) => account,
    };
    let pubkey = match pubkey_bytes_from_slice(account.pubkey.as_slice()) {
        None => {
            return Err("invalid account pubkey");
        },
        Some(key) => key,
    };
    let owner = match pubkey_bytes_from_slice(account.owner.as_slice()) {
        None => {
            return Err("invalid account owner");
        },
        Some(key) => key,
    };
    let txn_signature = match &account.txn_signature {
        Some(bytes) => match signature_bytes_from_slice(bytes.as_slice()) {
            None => {
                return Err("invalid account txn signature");
            },
            Some(signature) => Some(signature),
        },
        None => None,
    };
    if let Some(most) = max_data_len {
        if account.data.len() > most {
            return Err("account data exceeds max permitted size");
        }
    }
    Ok(
        AccountUpdateEvent {
            slot: update.slot,
            commitment_status,
            confirmed_slot: watermarks.confirmed_slot,
            finalized_slot: watermarks.finalized_slot,
            pubkey,
            owner,
            lamports: account.lamports,
            executable: account.executable,
            rent_epoch: account.rent_epoch,
            data: share_bytes(account.data),
            write_version: Some(account.write_version),
            txn_signature,
            is_startup: update.is_startup,
            matched_filter: None,
            provider_source: None,
        },
    )
}

/// What is wrong with a block's header data, given what its two hashes read as.
pub open spec fn block_meta_error(blockhash: Option<Seq<u8>>, parent_blockhash: Option<Seq<u8>>) -> Option<&'static str> {
    if blockhash is None {
        Some("invalid block-meta blockhash")
    } else if parent_blockhash is None {
        Some("invalid parent blockhash")
    } else {
        None
    }
}

/// Whether `event` tells of a block what the wire says, given what its two hashes read as.
pub open spec fn tells_block_meta(
    event: BlockMetaEvent,
    update: GrpcBlockMeta,
    blockhash: Option<Seq<u8>>,
    parent_blockhash: Option<Seq<u8>>,
    commitment: TxCommitmentStatus,
    marks: ProviderCommitmentWatermarks,
    source: Option<ProviderSourceRef>,
) -> bool {
    &&& event.slot == update.slot
    &&& event.commitment_status == commitment
    &&& event.confirmed_slot == marks.confirmed_slot
    &&& event.finalized_slot == marks.finalized_slot
    &&& blockhash == Some(event.blockhash@)
    &&& event.parent_slot == update.parent_slot
    &&& parent_blockhash == Some(event.parent_blockhash@)
    &&& event.block_time == update.block_time
    &&& event.block_height == update.block_height
    &&& event.executed_transaction_count == update.executed_transaction_count
    &&& event.entries_count == update.entries_count
    &&& event.provider_source == source
}

/// The bytes of a hash that may be absent.
pub open spec fn hash_view(hash: Option<[u8; 32]>) -> Option<Seq<u8>> {
    match hash {
        Some(known) => Some(known@),
        None => None,
    }
}

/// Makes the event of a block's header data from what its two hashes read as.
pub fn block_meta_event(
    commitment_status: TxCommitmentStatus,
    watermarks: ProviderCommitmentWatermarks,
    update: &GrpcBlockMeta,
    blockhash: Option<[u8; 32]>,
    parent_blockhash: Option<[u8; 32]>,
) -> (r: Result<BlockMetaEvent, &'static str>)
    ensures
        match r {
            Ok(event) => block_meta_error(hash_view(blockhash), hash_view(parent_blockhash)) is None
                && tells_block_meta(
                event,
                *update,
                hash_view(blockhash),
                hash_view(parent_blockhash),
                commitment_status,
                watermarks,
                None,
            ),
            Err(error) => block_meta_error(hash_view(blockhash), hash_view(parent_blockhash)) == Some(error),
        },
{
    let blockhash = match blockhash {
        None => {
            return Err("invalid block-meta blockhash");
        },
        Some(hash) => hash,
    };
    let parent_blockhash = match parent_blockhash {
        None => {
            return Err("invalid parent blockhash");
        },
        Some(hash) => hash,
    };
    Ok(
        BlockMetaEvent {
            slot: update.slot,
            commitment_status,
            confirmed_slot: watermarks.confirmed_slot,
            finalized_slot: watermarks.finalized_slot,
            blockhash,
            parent_slot: update.parent_slot,
            parent_blockhash,
            block_time: update.block_time,
            block_height: update.block_height,
            executed_transaction_count: update.executed_transaction_count,
            entries_count: update.entries_count,
            provider_source: None,
        },
    )
}

/// Makes the event of a block's header data.
pub fn block_meta_event_from_update(
    commitment_status: TxCommitmentStatus,
    watermarks: ProviderCommitmentWatermarks,
    update: &GrpcBlockMeta,
) -> (r: Result<BlockMetaEvent, &'static str>)
    ensures
        ({
            let blockhash = spelled_hash(update.blockhash@);
            let parent_blockhash = spelled_hash(update.parent_blockhash@);
            match r {
                Ok(event) => block_meta_error(blockhash, parent_blockhash) is None && tells_block_meta(
                    event,
                    *update,
                    blockhash,
                    parent_blockhash,
                    commitment_status,
                    watermarks,
                    None,
                ),
                Err(error) => block_meta_error(blockhash, parent_blockhash) == Some(error),
            }
        }),
{
    let blockhash = hash_from_text(update.blockhash.as_str());
    let parent_blockhash = hash_from_text(update.parent_blockhash.as_str());
    block_meta_event(commitment_status, watermarks, update, blockhash, parent_blockhash)
}

/// The known statuses after a slot was seen in a status.
pub open spec fn states_after(
    states: Map<u64, ForkSlotStatus>,
    slot: u64,
    status: Option<ForkSlotStatus>,
) -> Map<u64, ForkSlotStatus> {
    match status {
        Some(seen) => states.insert(slot, seen),
        None => states,
    }
}

/// Whether a status is news: known, and not the one that the slot had.
pub open spec fn status_is_news(
    states: Map<u64, ForkSlotStatus>,
    slot: u64,
    status: Option<ForkSlotStatus>,
) -> bool {
    status is Some && !(states.contains_key(slot) && states[slot] == status->0)
}

/// Whether `event` tells of a slot's new status.
pub open spec fn tells_slot_status(
    event: SlotStatusEvent,
    states: Map<u64, ForkSlotStatus>,
    slot: u64,
    parent_slot: Option<u64>,
    status: Option<ForkSlotStatus>,
    marks: ProviderCommitmentWatermarks,
    source: Option<ProviderSourceRef>,
) -> bool {
    &&& event.slot == slot
    &&& event.parent_slot == parent_slot
    &&& event.previous_status == if states.contains_key(slot) {
        Some(states[slot])
    } else {
        None
    }
    &&& Some(event.status) == status
    &&& event.tip_slot is None
    &&& event.confirmed_slot == marks.confirmed_slot
    &&& event.finalized_slot == marks.finalized_slot
    &&& event.provider_source == source
}

/// Takes a slot's status in, and makes an event of it where the slot did not have it before.
pub fn slot_status_event(
    slot: u64,
    parent_slot: Option<u64>,
    status: Option<ForkSlotStatus>,
    watermarks: &mut ProviderCommitmentWatermarks,
    slot_states: &mut HashMap<u64, ForkSlotStatus>,
) -> (r: Option<SlotStatusEvent>)
    ensures
        *final(watermarks) == marks_after_status(*old(watermarks), slot, status),
        final(slot_states)@ == states_after(old(slot_states)@, slot, status),
        match r {
            Some(event) => status_is_news(old(slot_states)@, slot, status) && tells_slot_status(
                event,
                old(slot_states)@,
                slot,
                parent_slot,
                status,
                *final(watermarks),
                None,
            ),
            None => !status_is_news(old(slot_states)@, slot, status),
        },
{
    let seen = match status {
        None => {
            return None;
        },
        Some(seen) => seen,
    };
    observe_slot_status(watermarks, slot, status);
    let previous_status = slot_states.insert(slot, seen);
    if let Some(previous) = previous_status {
        if previous == seen {
            return None;
        }
    }
    Some(
        SlotStatusEvent {
            slot,
            parent_slot,
            previous_status,
            status: seen,
            tip_slot: None,
            confirmed_slot: watermarks.confirmed_slot,
            finalized_slot: watermarks.finalized_slot,
            provider_source: None,
        },
    )
}

/// The point at which a session counts as stalled: `timeout` after the last progress, or at once
/// where that point cannot be represented; never without a timeout.
pub open spec fn stall_point(last_progress: Instant, timeout: Option<Duration>, deadline: Option<Instant>) -> bool {
    match timeout {
        None => deadline is None,
        Some(span) => {
            &&& deadline is Some
            &&& if last_progress.nanos() + span.nanos() < INSTANT_END_NANOS {
                deadline->0.nanos() == last_progress.nanos() + span.nanos()
            } else {
                deadline->0 == last_progress
            }
        },
    }
}

/// Says when a session counts as stalled.
pub fn stall_deadline(last_progress: Instant, timeout: Option<Duration>) -> (r: Option<Instant>)
    ensures
        stall_point(last_progress, timeout, r),
{
    match timeout {
        None => None,
        Some(span) => match last_progress.checked_add(span) {
            Some(point) => Some(point),
            None => Some(last_progress),
        },
    }
}

/// Filter of a transaction subscription.
#[derive(Clone, Debug)]
pub struct GrpcTransactionFilter {
    /// Only votes, or none.
    pub vote: Option<bool>,
    /// Only failed transactions, or none.
    pub failed: Option<bool>,
    /// Only this signature, in base58.
    pub signature: Option<String>,
    /// Some of these keys must occur.
    pub account_include: Vec<String>,
    /// None of these keys may occur.
    pub account_exclude: Vec<String>,
    /// All of these keys must occur.
    pub account_required: Vec<String>,
}

/// Filter of an account subscription.
#[derive(Clone, Debug)]
pub struct GrpcAccountFilter {
    /// Account keys.
    pub account: Vec<String>,
    /// Owners.
    pub owner: Vec<String>,
    /// Whether updates must carry a transaction signature.
    pub nonempty_txn_signature: Option<bool>,
}

/// Filter of a slot subscription.
#[derive(Clone, Copy, Debug, PartialEq, Eq, Structural)]
pub struct GrpcSlotFilter {
    /// Whether only slots that reach the commitment of the request are reported.
    pub filter_by_commitment: Option<bool>,
}

/// A subscription request. Each filter stands under a name of its own.
#[derive(Clone, Debug)]
pub struct GrpcSubscribeRequest {
    /// Slot filter.
    pub slots: Option<(String, GrpcSlotFilter)>,
    /// Transaction filter.
    pub transactions: Option<(String, GrpcTransactionFilter)>,
    /// Transaction-status filter.
    pub transactions_status: Option<(String, GrpcTransactionFilter)>,
    /// Account filter.
    pub accounts: Option<(String, GrpcAccountFilter)>,
    /// Name of the block-meta filter.
    pub blocks_meta: Option<String>,
    /// Commitment code.
    pub commitment: Option<i32>,
    /// First slot to replay.
    pub from_slot: Option<u64>,
    /// Number of the ping that the request is.
    pub ping: Option<i32>,
}

impl GrpcSubscribeRequest {
    /// Whether the request asks for slots by commitment under a name.
    pub open spec fn asks_for_slots(self, name: Seq<char>) -> bool {
        self.slots matches Some(entry) && entry.0@ == name && entry.1 == (GrpcSlotFilter {
            filter_by_commitment: Some(true),
        })
    }
}

/// The number that a ping carries.
pub const PING_ID: i32 = 1;

/// The filter that reports slots by commitment, under a name.
pub(crate) fn slots_by_commitment(name: &str) -> (r: (String, GrpcSlotFilter))
    ensures
        r.0@ == name@,
        r.1 == (GrpcSlotFilter { filter_by_commitment: Some(true) }),
{
    (name.to_owned(), GrpcSlotFilter { filter_by_commitment: Some(true) })
}

/// The request that sends or answers a ping: it carries the number of the ping and nothing else.
pub fn ping_request() -> (r: GrpcSubscribeRequest)
    ensures
        r.ping == Some(PING_ID),
        r.slots is None,
        r.transactions is None,
        r.transactions_status is None,
        r.accounts is None,
        r.blocks_meta is None,
        r.commitment is None,
        r.from_slot is None,
{
    GrpcSubscribeRequest {
        slots: None,
        transactions: None,
        transactions_status: None,
        accounts: None,
        blocks_meta: None,
        commitment: None,
        from_slot: None,
        ping: Some(PING_ID),
    }
}

/// The name under which the filters of a source stand.
pub const SOURCE_FILTER: &'static str = "sof";

/// Whether texts are the base58 forms of keys.
pub open spec fn spells_keys(texts: Seq<String>, keys: Seq<PubkeyBytes>) -> bool {
    &&& texts.len() == keys.len()
    &&& forall|i: int| 0 <= i < texts.len() ==> (#[trigger] texts[i])@ == pubkey_base58(keys[i]@)
}

/// Writes keys in base58.
pub fn key_texts(keys: &Vec<PubkeyBytes>) -> (r: Vec<String>)
    ensures
        spells_keys(r@, keys@),
{
    let mut texts: Vec<String> = Vec::with_capacity(keys.len());
    let mut i: usize = 0;
    while i < keys.len()
        invariant
            i <= keys@.len(),
            texts@.len() == i,
            forall|j: int| 0 <= j < i ==> (#[trigger] texts@[j])@ == pubkey_base58(keys@[j]@),
        decreases keys@.len() - i,
    {
        let text = pubkey_text(&keys[i]);
        texts.push(text);
        i += 1;
    }
    texts
}

/// Whether a filter asks for what the arguments say.
pub open spec fn filters_transactions(
    filter: GrpcTransactionFilter,
    vote: Option<bool>,
    failed: Option<bool>,
    signature: Option<SignatureBytes>,
    account_include: Seq<PubkeyBytes>,
    account_exclude: Seq<PubkeyBytes>,
    account_required: Seq<PubkeyBytes>,
) -> bool {
    &&& filter.vote == vote
    &&& filter.failed == failed
    &&& match signature {
        Some(known) => filter.signature matches Some(text) && text@ == signature_base58(known@),
        None => filter.signature is None,
    }
    &&& spells_keys(filter.account_include@, account_include)
    &&& spells_keys(filter.account_exclude@, account_exclude)
    &&& spells_keys(filter.account_required@, account_required)
}

/// Makes a transaction filter.
pub fn transaction_filter(
    vote: Option<bool>,
    failed: Option<bool>,
    signature: Option<SignatureBytes>,
    account_include: &Vec<PubkeyBytes>,
    account_exclude: &Vec<PubkeyBytes>,
    account_required: &Vec<PubkeyBytes>,
) -> (r: GrpcTransactionFilter)
    ensures
        filters_transactions(
            r,
            vote,
            failed,
            signature,
            account_include@,
            account_exclude@,
            account_required@,
        ),
{
    GrpcTransactionFilter {
        vote,
        failed,
        signature: match signature {
            Some(known) => Some(signature_text(&known)),
            None => None,
        },
        account_include: key_texts(account_include),
        account_exclude: key_texts(account_exclude),
        account_required: key_texts(account_required),
    }
}

/// Whether a filter asks for what the arguments say.
pub open spec fn filters_accounts(
    filter: GrpcAccountFilter,
    accounts: Seq<PubkeyBytes>,
    owners: Seq<PubkeyBytes>,
    require_txn_signature: bool,
) -> bool {
    &&& spells_keys(filter.account@, accounts)
    &&& spells_keys(filter.owner@, owners)
    &&& filter.nonempty_txn_signature == Some(require_txn_signature)
}

/// Makes an account filter.
pub fn account_filter(
    accounts: &Vec<PubkeyBytes>,
    owners: &Vec<PubkeyBytes>,
    require_txn_signature: bool,
) -> (r: GrpcAccountFilter)
    ensures
        filters_accounts(r, accounts@, owners@, require_txn_signature),
{
    GrpcAccountFilter {
        account: key_texts(accounts),
        owner: key_texts(owners),
        nonempty_txn_signature: Some(require_txn_signature),
    }
}

/// What the codes of the protocol stand for: one is confirmed, two finalized, six, a dead slot,
/// orphaned; zero, three, four and five, which come before confirmation, are processed; no other code
/// is known.
pub proof fn slot_codes_are_read(code: i32)
    ensures
        slot_status_of(code) == Some(ForkSlotStatus::Confirmed) <==> code == 1,
        slot_status_of(code) == Some(ForkSlotStatus::Finalized) <==> code == 2,
        slot_status_of(code) == Some(ForkSlotStatus::Orphaned) <==> code == 6,
        slot_status_of(code) == Some(ForkSlotStatus::Processed) <==> (code == 0 || 3 <= code <= 5),
        slot_status_of(code) is None <==> code < 0 || code > 6,
{
}

/// Which watermarks a code of the protocol moves: that of a confirmed slot the confirmed one, that of a
/// finalized slot both, up to the slot at least; any other code moves none.
pub proof fn slot_codes_move_watermarks(marks: ProviderCommitmentWatermarks, slot: u64, code: i32)
    ensures
        ({
            let after = marks_after_status(marks, slot, slot_status_of(code));
            &&& code == 1 || code == 2 ==> after.confirmed_slot is Some && after.confirmed_slot->0 >= slot
                && (after.confirmed_slot == Some(slot) || after.confirmed_slot == marks.confirmed_slot)
            &&& code == 2 ==> after.finalized_slot is Some && after.finalized_slot->0 >= slot && (
            after.finalized_slot == Some(slot) || after.finalized_slot == marks.finalized_slot)
            &&& code != 2 ==> after.finalized_slot == marks.finalized_slot
            &&& code != 1 && code != 2 ==> after == marks
        }),
{
}

/// A status is told of a slot exactly if it is known and the slot did not have it just before; the
/// event says the status, the one before, the slot, its parent and the watermarks.
pub proof fn new_status_is_told(
    event: SlotStatusEvent,
    states: Map<u64, ForkSlotStatus>,
    slot: u64,
    parent_slot: Option<u64>,
    status: ForkSlotStatus,
    marks: ProviderCommitmentWatermarks,
    source: Option<ProviderSourceRef>,
)
    ensures
        !states.contains_key(slot) ==> status_is_news(states, slot, Some(status)),
        states.contains_key(slot) ==> (status_is_news(states, slot, Some(status)) <==> states[slot] != status),
        !status_is_news(states, slot, None),
        states_after(states, slot, Some(status)).contains_key(slot),
        states_after(states, slot, Some(status))[slot] == status,
        states_after(states, slot, None) == states,
        forall|other: u64|
            other != slot ==> (#[trigger] states_after(states, slot, Some(status)).contains_key(other)
                <==> states.contains_key(other)),
        forall|other: u64|
            other != slot ==> #[trigger] states_after(states, slot, Some(status))[other] == states[other],
        tells_slot_status(event, states, slot, parent_slot, Some(status), marks, source) ==> event.slot
            == slot && event.status == status && event.parent_slot == parent_slot && event.confirmed_slot
            == marks.confirmed_slot && event.finalized_slot == marks.finalized_slot
            && event.provider_source == source && event.tip_slot is None,
        tells_slot_status(event, states, slot, parent_slot, Some(status), marks, source)
            && states.contains_key(slot) ==> event.previous_status == Some(states[slot]),
        tells_slot_status(event, states, slot, parent_slot, Some(status), marks, source)
            && !states.contains_key(slot) ==> event.previous_status is None,
{
}

/// As long as there are no more statuses than the threshold, all are kept; above it, exactly those of
/// slots no further than the lag behind the current one, each as it was.
pub proof fn old_statuses_are_dropped<V>(states: Map<u64, V>, current: u64, lag: u64, threshold: nat, slot: u64)
    ensures
        recent_slots(states, current, lag, threshold).contains_key(slot) <==> states.contains_key(slot) && (
        states.len() <= threshold || current - slot <= lag),
        recent_slots(states, current, lag, threshold).contains_key(slot) ==> recent_slots(
            states,
            current,
            lag,
            threshold,
        )[slot] == states[slot],
{
}

/// The parts of a message are refused exactly if they cannot be held: a header that is missing or counts
/// past a byte, a key or a hash that is not 32 bytes, a program index past a byte, and, in a versioned
/// message only, a table key that is not 32 bytes. The first fault of the header is the one that is told.
pub proof fn message_parts_are_refused_for_a_reason(message: GrpcMessage)
    ensures
        header_error(message.header) is None <==> message.header is Some
            && message.header->0.num_required_signatures < 256
            && message.header->0.num_readonly_signed_accounts < 256
            && message.header->0.num_readonly_unsigned_accounts < 256,
        message.header is None ==> header_error(message.header) == Some("missing message header"),
        message.header is Some && message.header->0.num_required_signatures >= 256 ==> header_error(
            message.header,
        ) == Some("invalid num_required_signatures"),
        message.header is Some && message.header->0.num_required_signatures < 256
            && message.header->0.num_readonly_signed_accounts >= 256 ==> header_error(message.header) == Some(
            "invalid num_readonly_signed_accounts",
        ),
        message.header is Some && message.header->0.num_required_signatures < 256
            && message.header->0.num_readonly_signed_accounts < 256
            && message.header->0.num_readonly_unsigned_accounts >= 256 ==> header_error(message.header) == Some(
            "invalid num_readonly_unsigned_accounts",
        ),
        keys_error(message.account_keys@) is None <==> forall|i: int|
            0 <= i < message.account_keys@.len() ==> (#[trigger] message.account_keys@[i])@.len() == 32,
        keys_error(message.account_keys@) is Some ==> keys_error(message.account_keys@) == Some(
            "invalid account key",
        ),
        blockhash_error(message.recent_blockhash@) is None <==> message.recent_blockhash@.len() == 32,
        blockhash_error(message.recent_blockhash@) is Some ==> blockhash_error(message.recent_blockhash@)
            == Some("invalid recent blockhash"),
        instructions_error(message.instructions@) is None <==> forall|i: int|
            0 <= i < message.instructions@.len() ==> (#[trigger] message.instructions@[i]).program_id_index
                < 256,
        instructions_error(message.instructions@) is Some ==> instructions_error(message.instructions@) == Some(
            "invalid compiled instruction program id index",
        ),
        message.versioned ==> (lookups_error(message.versioned, message.address_table_lookups@) is None
            <==> forall|i: int|
            0 <= i < message.address_table_lookups@.len() ==> (
            #[trigger] message.address_table_lookups@[i]).account_key@.len() == 32),
        !message.versioned ==> lookups_error(message.versioned, message.address_table_lookups@) is None,
        lookups_error(message.versioned, message.address_table_lookups@) is Some ==> lookups_error(
            message.versioned,
            message.address_table_lookups@,
        ) == Some("invalid address table account key"),
{
}

/// Signatures are refused exactly if one is not 64 bytes; where the first is known already, its bytes are
/// the known ones, whatever the message holds there, and only the others are looked at.
pub proof fn signatures_are_taken_over(signatures: Seq<Vec<u8>>, first: Seq<u8>)
    ensures
        signatures_error(signatures, None) is None <==> forall|i: int|
            0 <= i < signatures.len() ==> (#[trigger] signatures[i])@.len() == 64,
        signatures_error(signatures, Some(first)) is None <==> forall|i: int|
            1 <= i < signatures.len() ==> (#[trigger] signatures[i])@.len() == 64,
        signatures_error(signatures, None) is Some ==> signatures_error(signatures, None) == Some(
            "failed to parse transaction signature",
        ),
        signatures_error(signatures, Some(first)) is Some ==> signatures_error(signatures, Some(first)) == Some(
            "failed to parse transaction signature",
        ),
        signatures_view(signatures, None).len() == signatures.len(),
        signatures_view(signatures, Some(first)).len() == signatures.len(),
        forall|i: int|
            0 <= i < signatures.len() ==> #[trigger] signatures_view(signatures, None)[i] == signatures[i]@,
        forall|i: int|
            1 <= i < signatures.len() ==> #[trigger] signatures_view(signatures, Some(first))[i]
                == signatures[i]@,
        signatures.len() > 0 ==> signatures_view(signatures, Some(first))[0] == first,
{
}

/// A message that none of the reasons refuses is carried over as it came: its counts, its keys, its hash,
/// its instructions and its tables, each in its place.
pub proof fn messages_are_carried_over(message: GrpcMessage, i: int)
    requires
        header_error(message.header) is None,
        instructions_error(message.instructions@) is None,
    ensures
        ({
            let view = message_view(message);
            let counts = message.header->0;
            &&& view.header.num_required_signatures == counts.num_required_signatures
            &&& view.header.num_readonly_signed_accounts == counts.num_readonly_signed_accounts
            &&& view.header.num_readonly_unsigned_accounts == counts.num_readonly_unsigned_accounts
            &&& view.recent_blockhash == message.recent_blockhash@
            &&& view.account_keys.len() == message.account_keys@.len()
            &&& 0 <= i < message.account_keys@.len() ==> view.account_keys[i] == message.account_keys@[i]@
            &&& view.instructions.len() == message.instructions@.len()
            &&& 0 <= i < message.instructions@.len() ==> {
                &&& view.instructions[i].program_id_index == message.instructions@[i].program_id_index
                &&& view.instructions[i].accounts == message.instructions@[i].accounts@
                &&& view.instructions[i].data == message.instructions@[i].data@
            }
            &&& view.address_table_lookups is Some <==> message.versioned
            &&& message.versioned ==> view.address_table_lookups->0.len()
                == message.address_table_lookups@.len()
            &&& message.versioned && 0 <= i < message.address_table_lookups@.len() ==> {
                let told = view.address_table_lookups->0[i];
                &&& told.account_key == message.address_table_lookups@[i].account_key@
                &&& told.writable_indexes == message.address_table_lookups@[i].writable_indexes@
                &&& told.readonly_indexes == message.address_table_lookups@[i].readonly_indexes@
            }
        }),
{
    if 0 <= i < message.instructions@.len() {
        assert(message.instructions@[i].program_id_index <= 255);
    }
}

/// A transaction is told with the slot it came in, the watermarks, its own signature and its own message,
/// and with the kind that its programs make it unless the provider calls it a vote.
pub proof fn told_transaction_is_the_received_one(
    event: TransactionEvent,
    slot: u64,
    info: GrpcTransactionInfo,
    signatures: Seq<Seq<u8>>,
    commitment: TxCommitmentStatus,
    marks: ProviderCommitmentWatermarks,
    source: Option<ProviderSourceRef>,
)
    requires
        tells_transaction(event, slot, info, signatures, commitment, marks, source),
    ensures
        event.slot == slot && event.commitment_status == commitment && event.provider_source == source,
        event.confirmed_slot == marks.confirmed_slot && event.finalized_slot == marks.finalized_slot,
        event.signature is Some && event.signature->0@ == info.signature@,
        info.is_vote ==> event.kind == TxKind::VoteOnly,
        !info.is_vote ==> event.kind == kind_of((*event.tx)@.message),
        (*event.tx)@.signatures == signatures,
        (*event.tx)@.message.recent_blockhash == info.transaction->0.message->0.recent_blockhash@,
{
}

/// A status is refused exactly if its signature is not 64 bytes, and told as it came otherwise.
pub proof fn told_status_is_the_received_one(
    event: TransactionStatusEvent,
    update: GrpcTransactionStatus,
    commitment: TxCommitmentStatus,
    marks: ProviderCommitmentWatermarks,
    source: Option<ProviderSourceRef>,
)
    ensures
        status_error(update) is None <==> update.signature@.len() == 64,
        status_error(update) is Some ==> status_error(update) == Some("invalid transaction-status signature"),
        tells_status(event, update, commitment, marks, source) ==> {
            &&& event.slot == update.slot && event.signature@ == update.signature@
            &&& event.is_vote == update.is_vote && event.index == Some(update.index) && event.err == update.err
            &&& event.commitment_status == commitment && event.provider_source == source
            &&& event.confirmed_slot == marks.confirmed_slot && event.finalized_slot == marks.finalized_slot
        },
{
}

/// An account is refused exactly if there is none, its key or its owner is not 32 bytes, its signature, if
/// there is one, is not 64 bytes, or its data is longer than it may be; in this order. It is told as it
/// came otherwise.
pub proof fn told_account_is_the_received_one(
    event: AccountUpdateEvent,
    update: GrpcAccountUpdate,
    max_data_len: Option<usize>,
    commitment: TxCommitmentStatus,
    marks: ProviderCommitmentWatermarks,
    source: Option<ProviderSourceRef>,
)
    ensures
        ({
            let error = account_error(update, max_data_len);
            let account = update.account->0;
            let keyed = account.pubkey@.len() == 32;
            let owned = account.owner@.len() == 32;
            let signed = account.txn_signature is None || account.txn_signature->0@.len() == 64;
            let fits = max_data_len is None || account.data@.len() <= max_data_len->0;
            &&& error is None <==> update.account is Some && keyed && owned && signed && fits
            &&& update.account is None ==> error == Some("missing account payload")
            &&& update.account is Some && !keyed ==> error == Some("invalid account pubkey")
            &&& update.account is Some && keyed && !owned ==> error == Some("invalid account owner")
            &&& update.account is Some && keyed && owned && !signed ==> error == Some(
                "invalid account txn signature",
            )
            &&& update.account is Some && keyed && owned && signed && !fits ==> error == Some(
                "account data exceeds max permitted size",
            )
            &&& tells_account(event, update, commitment, marks, source) ==> {
                &&& event.slot == update.slot && event.is_startup == update.is_startup
                &&& event.pubkey@ == account.pubkey@ && event.owner@ == account.owner@
                &&& event.lamports == account.lamports && event.executable == account.executable
                &&& event.rent_epoch == account.rent_epoch && event.data@ == account.data@
                &&& event.write_version == Some(account.write_version)
                &&& event.txn_signature is Some <==> account.txn_signature is Some
                &&& account.txn_signature is Some ==> event.txn_signature->0@ == account.txn_signature->0@
                &&& event.commitment_status == commitment && event.provider_source == source
                &&& event.confirmed_slot == marks.confirmed_slot && event.finalized_slot
                    == marks.finalized_slot
                &&& event.matched_filter is None
            }
        }),
{
}

/// A block is refused exactly if one of its hashes cannot be read, its own first, and told as it came
/// otherwise.
pub proof fn told_block_is_the_received_one(
    event: BlockMetaEvent,
    update: GrpcBlockMeta,
    blockhash: Option<Seq<u8>>,
    parent_blockhash: Option<Seq<u8>>,
    commitment: TxCommitmentStatus,
    marks: ProviderCommitmentWatermarks,
    source: Option<ProviderSourceRef>,
)
    ensures
        block_meta_error(blockhash, parent_blockhash) is None <==> blockhash is Some && parent_blockhash is Some,
        blockhash is None ==> block_meta_error(blockhash, parent_blockhash) == Some(
            "invalid block-meta blockhash",
        ),
        blockhash is Some && parent_blockhash is None ==> block_meta_error(blockhash, parent_blockhash) == Some(
            "invalid parent blockhash",
        ),
        tells_block_meta(event, update, blockhash, parent_blockhash, commitment, marks, source) ==> {
            &&& event.slot == update.slot && event.parent_slot == update.parent_slot
            &&& blockhash is Some && event.blockhash@ == blockhash->0
            &&& parent_blockhash is Some && event.parent_blockhash@ == parent_blockhash->0
            &&& event.block_time == update.block_time && event.block_height == update.block_height
            &&& event.executed_transaction_count == update.executed_transaction_count
            &&& event.entries_count == update.entries_count
            &&& event.commitment_status == commitment && event.provider_source == source
            &&& event.confirmed_slot == marks.confirmed_slot && event.finalized_slot == marks.finalized_slot
        },
{
}

/// A session without a timeout never stalls. With one it stalls as long after its last progress as the
/// timeout says, or at once where the clock does not reach that far.
pub proof fn sessions_stall_after_their_timeout(
    last_progress: Instant,
    timeout: Option<Duration>,
    deadline: Option<Instant>,
)
    requires
        stall_point(last_progress, timeout, deadline),
    ensures
        deadline is Some <==> timeout is Some,
        deadline is Some ==> deadline->0.nanos() >= last_progress.nanos(),
        deadline is Some && last_progress.nanos() + timeout->0.nanos() < INSTANT_END_NANOS
            ==> deadline->0.nanos() - last_progress.nanos() == timeout->0.nanos(),
        deadline is Some && last_progress.nanos() + timeout->0.nanos() >= INSTANT_END_NANOS ==> deadline->0
            == last_progress,
{
}

/// The later of two slots is one of them, and neither is after it.
pub proof fn later_slot_is_the_later(a: u64, b: u64)
    ensures
        later_slot(a, b) >= a,
        later_slot(a, b) >= b,
        later_slot(a, b) == a || later_slot(a, b) == b,
{
}

/// A filter that asks for transactions asks for each condition in its own field, and spells each key in
/// its place.
pub proof fn filters_ask_for_what_is_configured(
    filter: GrpcTransactionFilter,
    vote: Option<bool>,
    failed: Option<bool>,
    signature: Option<SignatureBytes>,
    account_include: Seq<PubkeyBytes>,
    account_exclude: Seq<PubkeyBytes>,
    account_required: Seq<PubkeyBytes>,
    i: int,
)
    requires
        filters_transactions(
            filter,
            vote,
            failed,
            signature,
            account_include,
            account_exclude,
            account_required,
        ),
    ensures
        filter.vote == vote,
        filter.failed == failed,
        filter.signature is Some <==> signature is Some,
        signature is Some ==> filter.signature->0@ == signature_base58(signature->0@),
        filter.account_include@.len() == account_include.len(),
        filter.account_exclude@.len() == account_exclude.len(),
        filter.account_required@.len() == account_required.len(),
        0 <= i < account_include.len() ==> filter.account_include@[i]@ == pubkey_base58(account_include[i]@),
        0 <= i < account_exclude.len() ==> filter.account_exclude@[i]@ == pubkey_base58(account_exclude[i]@),
        0 <= i < account_required.len() ==> filter.account_required@[i]@ == pubkey_base58(account_required[i]@),
{
}

/// A filter that asks for accounts spells the accounts and the owners, each in its place, and asks for
/// signatures exactly if that is configured.
pub proof fn account_filters_ask_for_what_is_configured(
    filter: GrpcAccountFilter,
    accounts: Seq<PubkeyBytes>,
    owners: Seq<PubkeyBytes>,
    require_txn_signature: bool,
    i: int,
)
    requires
        filters_accounts(filter, accounts, owners, require_txn_signature),
    ensures
        filter.account@.len() == accounts.len(),
        filter.owner@.len() == owners.len(),
        0 <= i < accounts.len() ==> filter.account@[i]@ == pubkey_base58(accounts[i]@),
        0 <= i < owners.len() ==> filter.owner@[i]@ == pubkey_base58(owners[i]@),
        filter.nonempty_txn_signature == Some(true) <==> require_txn_signature,
        filter.nonempty_txn_signature is Some,
{
}

} // verus!
