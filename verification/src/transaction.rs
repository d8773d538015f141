//! Versioned transactions and what they are about.
use crate::bytes::{same_bytes, PubkeyBytes, SignatureBytes};
use crate::event::TxKind;
use solana_transaction::versioned::VersionedTransaction as WireTransaction;
use vstd::prelude::*;

verus! {

/// Counts that say which account keys sign and which are read-only.
#[derive(Clone, Copy, Debug, PartialEq, Eq, Structural)]
pub struct MessageHeader {
    /// Signatures that the message needs.
    pub num_required_signatures: u8,
    /// Read-only accounts among the signers.
    pub num_readonly_signed_accounts: u8,
    /// Read-only accounts among the others.
    pub num_readonly_unsigned_accounts: u8,
}

/// One instruction, its program and accounts given by index.
#[derive(Clone, Debug, PartialEq, Eq)]
pub struct CompiledInstruction {
    /// Index of the program's key.
    pub program_id_index: u8,
    /// Indexes of the accounts that the program is handed.
    pub accounts: Vec<u8>,
    /// Input of the program.
    pub data: Vec<u8>,
}

/// Account keys that are loaded from an address table.
#[derive(Clone, Debug, PartialEq, Eq)]
pub struct MessageAddressTableLookup {
    /// Key of the table.
    pub account_key: PubkeyBytes,
    /// Table rows loaded as writable.
    pub writable_indexes: Vec<u8>,
    /// Table rows loaded as read-only.
    pub readonly_indexes: Vec<u8>,
}

/// The message of a transaction. A legacy message has no address table lookups, a message of
/// version zero has a list of them, which may be empty.
#[derive(Clone, Debug, PartialEq, Eq)]
pub struct VersionedMessage {
    /// Header counts.
    pub header: MessageHeader,
    /// Keys that the message itself lists.
    pub account_keys: Vec<PubkeyBytes>,
    /// Recent block hash.
    pub recent_blockhash: [u8; 32],
    /// Instructions in order of execution.
    pub instructions: Vec<CompiledInstruction>,
    /// Address table lookups of a message of version zero.
    pub address_table_lookups: Option<Vec<MessageAddressTableLookup>>,
}

/// A signed message.
#[derive(Clone, Debug, PartialEq, Eq)]
pub struct VersionedTransaction {
    /// Signatures, the fee payer's first.
    pub signatures: Vec<SignatureBytes>,
    /// What was signed.
    pub message: VersionedMessage,
}

/// One instruction as plain values.
pub struct InstructionView {
    /// Index of the program's key.
    pub program_id_index: u8,
    /// Indexes of the accounts.
    pub accounts: Seq<u8>,
    /// Input of the program.
    pub data: Seq<u8>,
}

/// One address table lookup as plain values.
pub struct LookupView {
    /// Key of the table.
    pub account_key: Seq<u8>,
    /// Writable rows.
    pub writable_indexes: Seq<u8>,
    /// Read-only rows.
    pub readonly_indexes: Seq<u8>,
}

/// A message as plain values.
pub struct MessageView {
    /// Header counts.
    pub header: MessageHeader,
    /// Listed keys.
    pub account_keys: Seq<Seq<u8>>,
    /// Recent block hash.
    pub recent_blockhash: Seq<u8>,
    /// Instructions.
    pub instructions: Seq<InstructionView>,
    /// Lookups of a message of version zero.
    pub address_table_lookups: Option<Seq<LookupView>>,
}

/// A transaction as plain values.
pub struct TransactionView {
    /// Signatures.
    pub signatures: Seq<Seq<u8>>,
    /// Message.
    pub message: MessageView,
}

impl View for CompiledInstruction {
    type V = InstructionView;

    open spec fn view(&self) -> InstructionView {
        InstructionView {
            program_id_index: self.program_id_index,
            accounts: self.accounts@,
            data: self.data@,
        }
    }
}

impl View for MessageAddressTableLookup {
    type V = LookupView;

    open spec fn view(&self) -> LookupView {
        LookupView {
            account_key: self.account_key@,
            writable_indexes: self.writable_indexes@,
            readonly_indexes: self.readonly_indexes@,
        }
    }
}

impl View for VersionedMessage {
    type V = MessageView;

    open spec fn view(&self) -> MessageView {
        MessageView {
            header: self.header,
            account_keys: self.account_keys@.map_values(|key: PubkeyBytes| key@),
            recent_blockhash: self.recent_blockhash@,
            instructions: self.instructions@.map_values(|one: CompiledInstruction| one@),
            address_table_lookups: match self.address_table_lookups {
                Some(all) => Some(all@.map_values(|one: MessageAddressTableLookup| one@)),
                None => None,
            },
        }
    }
}

impl View for VersionedTransaction {
    type V = TransactionView;

    open spec fn view(&self) -> TransactionView {
        TransactionView {
            signatures: self.signatures@.map_values(|one: SignatureBytes| one@),
            message: self.message@,
        }
    }
}

/// The transaction that `bincode` reads from the front of a byte string in Solana's wire
/// format, none where it refuses the bytes.
pub uninterp spec fn decoded_transaction(bytes: Seq<u8>) -> Option<TransactionView>;

/// The fields of a transaction, one for one: signatures, header counts, keys, block hash,
/// instructions and address table lookups.
pub type TransactionParts = (
    Vec<[u8; 64]>,
    (u8, u8, u8),
    Vec<[u8; 32]>,
    [u8; 32],
    Vec<(u8, Vec<u8>, Vec<u8>)>,
    Option<Vec<([u8; 32], Vec<u8>, Vec<u8>)>>,
);

/// The fields of a transaction as plain values.
pub open spec fn parts_view(parts: TransactionParts) -> TransactionView {
    TransactionView {
        signatures: parts.0@.map_values(|one: [u8; 64]| one@),
        message: MessageView {
            header: MessageHeader {
                num_required_signatures: parts.1.0,
                num_readonly_signed_accounts: parts.1.1,
                num_readonly_unsigned_accounts: parts.1.2,
            },
            account_keys: parts.2@.map_values(|one: [u8; 32]| one@),
            recent_blockhash: parts.3@,
            instructions: parts.4@.map_values(
                |one: (u8, Vec<u8>, Vec<u8>)|
                    InstructionView { program_id_index: one.0, accounts: one.1@, data: one.2@ },
            ),
            address_table_lookups: match parts.5 {
                Some(all) => Some(
                    all@.map_values(
                        |one: ([u8; 32], Vec<u8>, Vec<u8>)|
                            LookupView {
                                account_key: one.0@,
                                writable_indexes: one.1@,
                                readonly_indexes: one.2@,
                            },
                    ),
                ),
                None => None,
            },
        },
    }
}

/// Reads a transaction through `bincode::deserialize` into
/// `solana_transaction::versioned::VersionedTransaction`, and copies its fields over one for
/// one. Claimed of it: whether there is a transaction, and which, depends on the bytes alone.
#[verifier::external_body]
fn decode_parts(bytes: &[u8]) -> (r: Option<TransactionParts>)
    ensures
        (match r {
            Some(parts) => Some(parts_view(parts)),
            None => None,
        }) == decoded_transaction(bytes@),
{
    let tx: WireTransaction = bincode::deserialize(bytes).ok()?;
    let m = tx.message;
    let h = m.header();
    Some((
        tx.signatures.into_iter().map(Into::into).collect(),
        (h.num_required_signatures, h.num_readonly_signed_accounts, h.num_readonly_unsigned_accounts),
        m.static_account_keys().iter().map(|k| k.to_bytes()).collect(),
        m.recent_blockhash().to_bytes(),
        m.instructions().iter().cloned().map(|i| (i.program_id_index, i.accounts, i.data)).collect(),
        m.address_table_lookups().map(|all| all.iter().cloned().map(|l| (l.account_key.to_bytes(), l.writable_indexes, l.readonly_indexes)).collect()),
    ))
}

fn signature_list(all: &Vec<[u8; 64]>) -> (r: Vec<SignatureBytes>)
    ensures
        r@.map_values(|one: SignatureBytes| one@) == all@.map_values(|one: [u8; 64]| one@),
{
    let mut list: Vec<SignatureBytes> = Vec::with_capacity(all.len());
    let mut i: usize = 0;
    while i < all.len()
        invariant
            i <= all@.len(),
            list@.len() == i,
            forall|k: int| 0 <= k < i ==> (#[trigger] list@[k])@ == all@[k]@,
        decreases all@.len() - i,
    {
        list.push(SignatureBytes(all[i]));
        i += 1;
    }
    assert(list@.map_values(|one: SignatureBytes| one@) =~= all@.map_values(|one: [u8; 64]| one@));
    list
}

fn key_list(all: &Vec<[u8; 32]>) -> (r: Vec<PubkeyBytes>)
    ensures
        r@.map_values(|one: PubkeyBytes| one@) == all@.map_values(|one: [u8; 32]| one@),
{
    let mut list: Vec<PubkeyBytes> = Vec::with_capacity(all.len());
    let mut i: usize = 0;
    while i < all.len()
        invariant
            i <= all@.len(),
            list@.len() == i,
            forall|k: int| 0 <= k < i ==> (#[trigger] list@[k])@ == all@[k]@,
        decreases all@.len() - i,
    {
        list.push(PubkeyBytes(all[i]));
        i += 1;
    }
    assert(list@.map_values(|one: PubkeyBytes| one@) =~= all@.map_values(|one: [u8; 32]| one@));
    list
}

fn instruction_list(all: &Vec<(u8, Vec<u8>, Vec<u8>)>) -> (r: Vec<CompiledInstruction>)
    ensures
        r@.len() == all@.len(),
        forall|k: int|
            0 <= k < r@.len() ==> (#[trigger] r@[k])@ == (InstructionView {
                program_id_index: all@[k].0,
                accounts: all@[k].1@,
                data: all@[k].2@,
            }),
{
    let mut list: Vec<CompiledInstruction> = Vec::with_capacity(all.len());
    let mut i: usize = 0;
    while i < all.len()
        invariant
            i <= all@.len(),
            list@.len() == i,
            forall|k: int|
                0 <= k < i ==> (#[trigger] list@[k])@ == (InstructionView {
                    program_id_index: all@[k].0,
                    accounts: all@[k].1@,
                    data: all@[k].2@,
                }),
        decreases all@.len() - i,
    {
        let accounts = vstd::slice::slice_to_vec(all[i].1.as_slice());
        let data = vstd::slice::slice_to_vec(all[i].2.as_slice());
        list.push(CompiledInstruction { program_id_index: all[i].0, accounts, data });
        i += 1;
    }
    list
}

fn lookup_list(all: &Vec<([u8; 32], Vec<u8>, Vec<u8>)>) -> (r: Vec<MessageAddressTableLookup>)
    ensures
        r@.len() == all@.len(),
        forall|k: int|
            0 <= k < r@.len() ==> (#[trigger] r@[k])@ == (LookupView {
                account_key: all@[k].0@,
                writable_indexes: all@[k].1@,
                readonly_indexes: all@[k].2@,
            }),
{
    let mut list: Vec<MessageAddressTableLookup> = Vec::with_capacity(all.len());
    let mut i: usize = 0;
    while i < all.len()
        invariant
            i <= all@.len(),
            list@.len() == i,
            forall|k: int|
                0 <= k < i ==> (#[trigger] list@[k])@ == (LookupView {
                    account_key: all@[k].0@,
                    writable_indexes: all@[k].1@,
                    readonly_indexes: all@[k].2@,
                }),
        decreases all@.len() - i,
    {
        let writable_indexes = vstd::slice::slice_to_vec(all[i].1.as_slice());
        let readonly_indexes = vstd::slice::slice_to_vec(all[i].2.as_slice());
        list.push(
            MessageAddressTableLookup {
                account_key: PubkeyBytes(all[i].0),
                writable_indexes,
                readonly_indexes,
            },
        );
        i += 1;
    }
    list
}

/// Reads a transaction in Solana's wire format.
pub fn decode_transaction(bytes: &[u8]) -> (r: Option<VersionedTransaction>)
    ensures
        (match r {
            Some(tx) => Some(tx@),
            None => None,
        }) == decoded_transaction(bytes@),
{
    let parts = match decode_parts(bytes) {
        Some(parts) => parts,
        None => {
            return None;
        },
    };
    let address_table_lookups = match &parts.5 {
        Some(all) => Some(lookup_list(all)),
        None => None,
    };
    let tx = VersionedTransaction {
        signatures: signature_list(&parts.0),
        message: VersionedMessage {
            header: MessageHeader {
                num_required_signatures: parts.1.0,
                num_readonly_signed_accounts: parts.1.1,
                num_readonly_unsigned_accounts: parts.1.2,
            },
            account_keys: key_list(&parts.2),
            recent_blockhash: parts.3,
            instructions: instruction_list(&parts.4),
            address_table_lookups,
        },
    };
    proof {
        let view = parts_view(parts);
        assert(tx@.signatures =~= view.signatures);
        assert(tx@.message.account_keys =~= view.message.account_keys);
        assert(tx@.message.instructions =~= view.message.instructions);
        match parts.5 {
            Some(all) => {
                assert(tx@.message.address_table_lookups->0 =~= view.message.address_table_lookups->0);
            },
            None => {},
        }
        assert(tx@.message.address_table_lookups == view.message.address_table_lookups);
    }
    Some(tx)
}

/// The key of the vote program.
pub open spec fn vote_program() -> Seq<u8> {
    seq![
        7u8, 97u8, 72u8, 29u8, 53u8, 116u8, 116u8, 187u8, 124u8, 77u8, 118u8, 36u8, 235u8, 211u8,
        189u8, 179u8, 216u8, 53u8, 94u8, 115u8, 209u8, 16u8, 67u8, 252u8, 13u8, 163u8, 83u8, 128u8,
        0u8, 0u8, 0u8, 0u8,
    ]
}

/// The key of the compute-budget program.
pub open spec fn compute_budget_program() -> Seq<u8> {
    seq![
        3u8, 6u8, 70u8, 111u8, 229u8, 33u8, 23u8, 50u8, 255u8, 236u8, 173u8, 186u8, 114u8, 195u8,
        155u8, 231u8, 188u8, 140u8, 229u8, 187u8, 197u8, 247u8, 18u8, 107u8, 44u8, 67u8, 155u8,
        58u8, 64u8, 0u8, 0u8, 0u8,
    ]
}

/// The vote program's key from `solana_sdk_ids::vote::id`. Claimed of it: the thirty-two bytes
/// that the crate declares.
#[verifier::external_body]
fn vote_program_id() -> (r: PubkeyBytes)
    ensures
        r@ == vote_program(),
{
    PubkeyBytes(solana_sdk_ids::vote::id().to_bytes())
}

/// The compute-budget program's key from `solana_sdk_ids::compute_budget::id`. Claimed of it:
/// the thirty-two bytes that the crate declares.
#[verifier::external_body]
fn compute_budget_program_id() -> (r: PubkeyBytes)
    ensures
        r@ == compute_budget_program(),
{
    PubkeyBytes(solana_sdk_ids::compute_budget::id().to_bytes())
}

/// Whether instruction `i` invokes the vote program.
pub open spec fn invokes_vote(message: MessageView, i: int) -> bool {
    let program = message.instructions[i].program_id_index as int;
    program < message.account_keys.len() && message.account_keys[program] == vote_program()
}

/// Whether instruction `i` invokes a listed program that is neither the vote program nor the
/// compute-budget program.
pub open spec fn invokes_other(message: MessageView, i: int) -> bool {
    let program = message.instructions[i].program_id_index as int;
    &&& program < message.account_keys.len()
    &&& message.account_keys[program] != vote_program()
    &&& message.account_keys[program] != compute_budget_program()
}

/// The kind of a transaction: by whether some instruction votes and whether some instruction
/// invokes another program. Instructions whose program the message does not list count for
/// nothing.
pub open spec fn kind_of(message: MessageView) -> TxKind {
    let votes = exists|i: int| 0 <= i < message.instructions.len() && #[trigger] invokes_vote(message, i);
    let others = exists|i: int| 0 <= i < message.instructions.len() && #[trigger] invokes_other(message, i);
    if votes && others {
        TxKind::Mixed
    } else if votes {
        TxKind::VoteOnly
    } else {
        TxKind::NonVote
    }
}

/// Classifies a transaction by the programs that it invokes.
pub fn classify_provider_transaction_kind(tx: &VersionedTransaction) -> (r: TxKind)
    ensures
        r == kind_of(tx@.message),
{
    let ghost message = tx@.message;
    let vote = vote_program_id();
    let budget = compute_budget_program_id();
    let mut has_vote: bool = false;
    let mut has_other: bool = false;
    let mut i: usize = 0;
    while i < tx.message.instructions.len()
        invariant
            i <= tx.message.instructions@.len(),
            message == tx@.message,
            vote@ == vote_program(),
            budget@ == compute_budget_program(),
            has_vote == exists|j: int| 0 <= j < i && #[trigger] invokes_vote(message, j),
            has_other == exists|j: int| 0 <= j < i && #[trigger] invokes_other(message, j),
            !(has_vote && has_other),
        decreases tx.message.instructions@.len() - i,
    {
        let program: usize = tx.message.instructions[i].program_id_index as usize;
        assert(message.instructions[i as int].program_id_index == program);
        if program < tx.message.account_keys.len() {
            let key = &tx.message.account_keys[program];
            assert(message.account_keys[program as int] == key@);
            if same_bytes(&key.0, &vote.0) {
                assert(invokes_vote(message, i as int));
                assert(!invokes_other(message, i as int));
                has_vote = true;
                if has_other {
                    return TxKind::Mixed;
                }
            } else if !same_bytes(&key.0, &budget.0) {
                assert(invokes_other(message, i as int));
                assert(!invokes_vote(message, i as int));
                has_other = true;
                if has_vote {
                    return TxKind::Mixed;
                }
            }
        }
        i += 1;
    }
    if has_vote {
        TxKind::VoteOnly
    } else {
        TxKind::NonVote
    }
}

/// The kind of a transaction that invokes these programs: by whether one of them is the vote
/// program and whether one is neither that nor the compute-budget program.
pub open spec fn kind_of_programs(programs: Seq<Seq<u8>>) -> TxKind {
    let votes = programs.contains(vote_program());
    let others = exists|i: int|
        0 <= i < programs.len() && #[trigger] programs[i] != vote_program() && programs[i]
            != compute_budget_program();
    if votes && others {
        TxKind::Mixed
    } else if votes {
        TxKind::VoteOnly
    } else {
        TxKind::NonVote
    }
}

/// Classifies a transaction that is only viewed, by the program of each of its instructions.
pub fn classify_provider_transaction_kind_view(programs: &[PubkeyBytes]) -> (r: TxKind)
    ensures
        r == kind_of_programs(programs@.map_values(|key: PubkeyBytes| key@)),
{
    let ghost keys = programs@.map_values(|key: PubkeyBytes| key@);
    let vote = vote_program_id();
    let budget = compute_budget_program_id();
    let mut has_vote: bool = false;
    let mut has_other: bool = false;
    let mut i: usize = 0;
    while i < programs.len()
        invariant
            i <= programs@.len(),
            keys == programs@.map_values(|key: PubkeyBytes| key@),
            vote@ == vote_program(),
            budget@ == compute_budget_program(),
            has_vote == exists|j: int| 0 <= j < i && #[trigger] keys[j] == vote_program(),
            has_other == exists|j: int|
                0 <= j < i && #[trigger] keys[j] != vote_program() && keys[j] != compute_budget_program(),
            !(has_vote && has_other),
        decreases programs@.len() - i,
    {
        assert(keys[i as int] == programs@[i as int]@);
        if same_bytes(&programs[i].0, &vote.0) {
            has_vote = true;
            if has_other {
                assert(keys.contains(vote_program()));
                return TxKind::Mixed;
            }
        } else if !same_bytes(&programs[i].0, &budget.0) {
            has_other = true;
            if has_vote {
                assert(keys.contains(vote_program()));
                return TxKind::Mixed;
            }
        }
        i += 1;
    }
    assert(has_vote == keys.contains(vote_program()));
    if has_vote {
        TxKind::VoteOnly
    } else {
        TxKind::NonVote
    }
}

/// The programs that a message's instructions invoke, where each is listed.
pub open spec fn invoked_programs(message: MessageView) -> Seq<Seq<u8>> {
    Seq::new(
        message.instructions.len(),
        |i: int| message.account_keys[message.instructions[i].program_id_index as int],
    )
}

/// A message that lists all its programs is of the same kind whether it is read or only viewed.
pub proof fn both_classifications_agree(message: MessageView)
    requires
        forall|i: int|
            0 <= i < message.instructions.len() ==> (#[trigger] message.instructions[i]).program_id_index
                < message.account_keys.len(),
    ensures
        kind_of(message) == kind_of_programs(invoked_programs(message)),
{
    let programs = invoked_programs(message);
    assert forall|i: int| 0 <= i < message.instructions.len() implies #[trigger] invokes_vote(message, i) == (
    programs[i] == vote_program()) by {}
    assert forall|i: int| 0 <= i < message.instructions.len() implies #[trigger] invokes_other(message, i) == (
    programs[i] != vote_program() && programs[i] != compute_budget_program()) by {}
    if programs.contains(vote_program()) {
        let i = choose|i: int| 0 <= i < programs.len() && programs[i] == vote_program();
        assert(invokes_vote(message, i));
    }
    if exists|i: int|
        0 <= i < programs.len() && #[trigger] programs[i] != vote_program() && programs[i]
            != compute_budget_program() {
        let i = choose|i: int|
            0 <= i < programs.len() && #[trigger] programs[i] != vote_program() && programs[i]
                != compute_budget_program();
        assert(invokes_other(message, i));
    }
    if exists|i: int| 0 <= i < message.instructions.len() && #[trigger] invokes_vote(message, i) {
        let i = choose|i: int| 0 <= i < message.instructions.len() && #[trigger] invokes_vote(message, i);
        assert(programs[i] == vote_program());
    }
    if exists|i: int| 0 <= i < message.instructions.len() && #[trigger] invokes_other(message, i) {
        let i = choose|i: int| 0 <= i < message.instructions.len() && #[trigger] invokes_other(message, i);
        assert(programs[i] != vote_program());
    }
}

/// Whether some instruction of a message invokes a listed program with a key.
pub open spec fn invokes(message: MessageView, program: Seq<u8>) -> bool {
    exists|i: int|
        0 <= i < message.instructions.len() && (#[trigger] message.instructions[i]).program_id_index
            < message.account_keys.len()
            && message.account_keys[message.instructions[i].program_id_index as int] == program
}

/// What the kinds mean. Without an instruction that invokes the vote program a transaction is none of
/// votes. With one it is of votes only, unless an instruction invokes a listed program that is neither
/// the vote program nor the compute-budget program: then it is mixed.
pub proof fn kinds_are_told_by_programs(message: MessageView)
    ensures
        kind_of(message) is NonVote <==> !invokes(message, vote_program()),
        kind_of(message) is Mixed <==> invokes(message, vote_program()) && exists|program: Seq<u8>|
            program != vote_program() && program != compute_budget_program() && #[trigger] invokes(
                message,
                program,
            ),
        kind_of(message) is VoteOnly <==> invokes(message, vote_program()) && forall|program: Seq<u8>|
            #[trigger] invokes(message, program) ==> program == vote_program() || program
                == compute_budget_program(),
{
    if invokes(message, vote_program()) {
        let i = choose|i: int|
            0 <= i < message.instructions.len() && (#[trigger] message.instructions[i]).program_id_index
                < message.account_keys.len()
                && message.account_keys[message.instructions[i].program_id_index as int] == vote_program();
        assert(invokes_vote(message, i));
    }
    if exists|i: int| 0 <= i < message.instructions.len() && #[trigger] invokes_vote(message, i) {
        let i = choose|i: int| 0 <= i < message.instructions.len() && #[trigger] invokes_vote(message, i);
        assert(message.instructions[i].program_id_index < message.account_keys.len());
        assert(invokes(message, vote_program()));
    }
    if exists|i: int| 0 <= i < message.instructions.len() && #[trigger] invokes_other(message, i) {
        let i = choose|i: int| 0 <= i < message.instructions.len() && #[trigger] invokes_other(message, i);
        let program = message.account_keys[message.instructions[i].program_id_index as int];
        assert(message.instructions[i].program_id_index < message.account_keys.len());
        assert(invokes(message, program));
    }
    if exists|program: Seq<u8>|
        program != vote_program() && program != compute_budget_program() && #[trigger] invokes(message, program) {
        let program = choose|program: Seq<u8>|
            program != vote_program() && program != compute_budget_program() && #[trigger] invokes(
                message,
                program,
            );
        let i = choose|i: int|
            0 <= i < message.instructions.len() && (#[trigger] message.instructions[i]).program_id_index
                < message.account_keys.len()
                && message.account_keys[message.instructions[i].program_id_index as int] == program;
        assert(invokes_other(message, i));
    }
}

} // verus!
