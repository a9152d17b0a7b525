//! Transactions on their way to the Geyser plugins: sanitization and the
//! replica that the plugins are notified with.

use vstd::prelude::*;

use solana_message::compiled_instruction::CompiledInstruction as WireInstruction;
use solana_message::legacy::Message as LegacyMessage;
use solana_message::v0::Message as VersionZeroMessage;
use solana_message::v0::MessageAddressTableLookup as WireLookup;
use solana_message::MessageHeader as WireHeader;
use solana_message::{SimpleAddressLoader, VersionedMessage};
use solana_pubkey::Pubkey;
use solana_signature::Signature;
use solana_transaction::sanitized::{MessageHash, SanitizedTransaction};
use solana_transaction::versioned::VersionedTransaction;
use solana_transaction_error::TransactionError;
use solana_transaction_status::{Reward, TransactionTokenBalance};
use std::collections::HashSet;

verus! {

/// An account address, carried through unread.
#[verifier::external_type_specification]
#[verifier::external_body]
pub struct ExPubkey(Pubkey);

/// A blockhash, carried through unread.
#[verifier::external_type_specification]
#[verifier::external_body]
pub struct ExHash(solana_hash::Hash);

/// A transaction signature, carried through unread.
#[verifier::external_type_specification]
#[verifier::external_body]
pub struct ExSignature(Signature);

/// The error of turning a slice of another length into an array: it comes with
/// the conversions of [`Signature`].
#[verifier::external_type_specification]
#[verifier::external_body]
pub struct ExTryFromSliceError(core::array::TryFromSliceError);

/// A transaction that passed sanitization, carried through to the plugins.
#[verifier::external_type_specification]
#[verifier::external_body]
pub struct ExSanitizedTransaction(SanitizedTransaction);

/// The error of a failed transaction in its status.
#[verifier::external_type_specification]
#[verifier::external_body]
pub struct ExTransactionError(TransactionError);

/// A token balance in a transaction status.
#[verifier::external_type_specification]
#[verifier::external_body]
pub struct ExTransactionTokenBalance(TransactionTokenBalance);

/// A reward in a transaction status.
#[verifier::external_type_specification]
#[verifier::external_body]
pub struct ExReward(Reward);

/// How many of the account keys sign, and how many are read-only.
#[derive(Clone, Copy, Debug)]
pub struct MessageHeader {
    pub num_required_signatures: u8,
    pub num_readonly_signed_accounts: u8,
    pub num_readonly_unsigned_accounts: u8,
}

/// An instruction whose program and accounts are indexes into the account keys.
#[derive(Debug)]
pub struct CompiledInstruction {
    pub program_id_index: u8,
    pub accounts: Vec<u8>,
    pub data: Vec<u8>,
}

/// Accounts that a message takes from an on-chain lookup table.
#[derive(Debug)]
pub struct AddressTableLookup {
    pub account_key: Pubkey,
    pub writable_indexes: Vec<u8>,
    pub readonly_indexes: Vec<u8>,
}

/// A transaction as it was submitted. Only a message of version 0 has address
/// table lookups: `None` stands for a legacy message.
#[derive(Debug)]
pub struct Transaction {
    pub signatures: Vec<Signature>,
    pub header: MessageHeader,
    pub account_keys: Vec<Pubkey>,
    pub recent_blockhash: solana_hash::Hash,
    pub instructions: Vec<CompiledInstruction>,
    pub address_table_lookups: Option<Vec<AddressTableLookup>>,
}

/// What a [`CompiledInstruction`] holds.
pub ghost struct InstructionModel {
    pub program_id_index: u8,
    pub accounts: Seq<u8>,
    pub data: Seq<u8>,
}

/// What an [`AddressTableLookup`] holds.
pub ghost struct LookupModel {
    pub account_key: Pubkey,
    pub writable_indexes: Seq<u8>,
    pub readonly_indexes: Seq<u8>,
}

/// What a [`Transaction`] holds; `lookups` is `None` for a legacy message.
pub ghost struct TransactionModel {
    pub signatures: Seq<Signature>,
    pub header: MessageHeader,
    pub account_keys: Seq<Pubkey>,
    pub recent_blockhash: solana_hash::Hash,
    pub instructions: Seq<InstructionModel>,
    pub lookups: Option<Seq<LookupModel>>,
}

impl View for CompiledInstruction {
    type V = InstructionModel;

    open spec fn view(&self) -> InstructionModel {
        InstructionModel {
            program_id_index: self.program_id_index,
            accounts: self.accounts@,
            data: self.data@,
        }
    }
}

impl View for AddressTableLookup {
    type V = LookupModel;

    open spec fn view(&self) -> LookupModel {
        LookupModel {
            account_key: self.account_key,
            writable_indexes: self.writable_indexes@,
            readonly_indexes: self.readonly_indexes@,
        }
    }
}

impl View for Transaction {
    type V = TransactionModel;

    open spec fn view(&self) -> TransactionModel {
        TransactionModel {
            signatures: self.signatures@,
            header: self.header,
            account_keys: self.account_keys@,
            recent_blockhash: self.recent_blockhash,
            instructions: self.instructions@.map_values(|i: CompiledInstruction| i@),
            lookups: match self.address_table_lookups {
                None => None,
                Some(lookups) => Some(lookups@.map_values(|l: AddressTableLookup| l@)),
            },
        }
    }
}

impl Clone for CompiledInstruction {
    fn clone(&self) -> (copy: Self)
        ensures
            copy@ == self@,
            copy.program_id_index == self.program_id_index,
            copy.accounts@ == self.accounts@,
            copy.data@ == self.data@,
    {
        let (accounts, data) = (self.accounts.clone(), self.data.clone());
        assert(accounts@ =~= self.accounts@ && data@ =~= self.data@);
        CompiledInstruction { program_id_index: self.program_id_index, accounts, data }
    }
}

impl Clone for AddressTableLookup {
    fn clone(&self) -> (copy: Self)
        ensures
            copy@ == self@,
            copy.account_key == self.account_key,
            copy.writable_indexes@ == self.writable_indexes@,
            copy.readonly_indexes@ == self.readonly_indexes@,
    {
        let writable_indexes = self.writable_indexes.clone();
        let readonly_indexes = self.readonly_indexes.clone();
        assert(writable_indexes@ =~= self.writable_indexes@);
        assert(readonly_indexes@ =~= self.readonly_indexes@);
        AddressTableLookup { account_key: self.account_key, writable_indexes, readonly_indexes }
    }
}

/// The same items once more.
fn copied<T: Copy>(items: &Vec<T>) -> (copy: Vec<T>)
    ensures
        copy@ == items@,
{
    let mut copy: Vec<T> = Vec::new();
    for i in 0..items.len()
        invariant
            copy@ == items@.take(i as int),
    {
        copy.push(items[i]);
    }
    copy
}

impl Clone for Transaction {
    fn clone(&self) -> (copy: Self)
        ensures
            copy@ == self@,
            copy.signatures@ == self.signatures@,
            copy.header == self.header,
            copy.account_keys@ == self.account_keys@,
            copy.recent_blockhash == self.recent_blockhash,
            copy.instructions@.len() == self.instructions@.len(),
            copy.address_table_lookups is Some <==> self.address_table_lookups is Some,
    {
        let mut instructions: Vec<CompiledInstruction> = Vec::new();
        for i in 0..self.instructions.len()
            invariant
                instructions@.len() == i,
                forall|j: int|
                    0 <= j < i ==> (#[trigger] instructions@[j])@ == self.instructions@[j]@,
        {
            instructions.push(self.instructions[i].clone());
        }
        assert(instructions@.map_values(|i: CompiledInstruction| i@) =~= self@.instructions);
        let address_table_lookups = match &self.address_table_lookups {
            None => None,
            Some(lookups) => {
                let mut copy: Vec<AddressTableLookup> = Vec::new();
                for i in 0..lookups.len()
                    invariant
                        copy@.len() == i,
                        forall|j: int| 0 <= j < i ==> (#[trigger] copy@[j])@ == lookups@[j]@,
                {
                    copy.push(lookups[i].clone());
                }
                assert(copy@.map_values(|l: AddressTableLookup| l@) =~= lookups@.map_values(
                    |l: AddressTableLookup| l@,
                ));
                Some(copy)
            },
        };
        Transaction {
            signatures: copied(&self.signatures),
            header: self.header,
            account_keys: copied(&self.account_keys),
            recent_blockhash: self.recent_blockhash,
            instructions,
            address_table_lookups,
        }
    }
}

impl LookupModel {
    /// The number of accounts that the lookup loads.
    pub open spec fn len(self) -> nat {
        self.writable_indexes.len() + self.readonly_indexes.len()
    }
}

impl InstructionModel {
    /// The program is one of the `static_keys` account keys, though not the
    /// first, who pays; each account is one of the `keys` that can be addressed.
    pub open spec fn in_range(self, static_keys: nat, keys: nat) -> bool {
        &&& 0 < self.program_id_index < static_keys
        &&& forall|i: int| 0 <= i < self.accounts.len() ==> (#[trigger] self.accounts[i]) < keys
    }
}

impl TransactionModel {
    /// The number of accounts that the message can address: its own keys and
    /// those loaded by its lookups.
    pub open spec fn addressable_keys(self) -> nat {
        self.account_keys.len() + match self.lookups {
            None => 0,
            Some(lookups) => lookups.map_values(|l: LookupModel| l.len()).fold_left(
                0nat,
                |sum: nat, n: nat| sum + n,
            ),
        }
    }

    /// One signature for each required signer, a writable fee payer among the
    /// account keys, and no index out of range; in version 0, moreover, no
    /// empty lookup and no more accounts than an index of one byte can address.
    pub open spec fn is_sane(self) -> bool {
        &&& self.signatures.len() == self.header.num_required_signatures
        &&& self.header.num_required_signatures + self.header.num_readonly_unsigned_accounts
            <= self.account_keys.len()
        &&& self.header.num_readonly_signed_accounts < self.header.num_required_signatures
        &&& forall|i: int|
            0 <= i < self.instructions.len() ==> (#[trigger] self.instructions[i]).in_range(
                self.account_keys.len(),
                self.addressable_keys(),
            )
        &&& self.lookups matches Some(lookups) ==> {
            &&& forall|i: int| 0 <= i < lookups.len() ==> (#[trigger] lookups[i]).len() > 0
            &&& self.addressable_keys() <= 256
        }
    }

    /// Every list in the message is short enough for the wire format, which
    /// writes a length in 16 bits.
    pub open spec fn has_short_lists(self) -> bool {
        &&& self.account_keys.len() <= u16::MAX
        &&& self.instructions.len() <= u16::MAX
        &&& forall|i: int|
            0 <= i < self.instructions.len() ==> {
                &&& (#[trigger] self.instructions[i]).accounts.len() <= u16::MAX
                &&& self.instructions[i].data.len() <= u16::MAX
            }
        &&& self.lookups matches Some(lookups) ==> {
            &&& lookups.len() <= u16::MAX
            &&& forall|i: int|
                0 <= i < lookups.len() ==> {
                    &&& (#[trigger] lookups[i]).writable_indexes.len() <= u16::MAX
                    &&& lookups[i].readonly_indexes.len() <= u16::MAX
                }
        }
    }

    /// The message hash can be computed when it is called for: sanitization
    /// hashes the wire form of the messages that pass its checks.
    pub open spec fn can_be_sanitized(self) -> bool {
        self.is_sane() ==> self.has_short_lists()
    }

    /// Sanitization accepts the transaction: without an address loader no
    /// message of version 0 gets through.
    pub open spec fn is_accepted(self) -> bool {
        self.is_sane() && self.lookups is None
    }

    /// The error text for a transaction that sanitization does not accept.
    pub open spec fn rejection(self) -> Seq<char> {
        if self.is_sane() {
            "UnsupportedVersion"@
        } else {
            "SanitizeFailure"@
        }
    }
}

/// The sanitized form that `SanitizedTransaction::try_create` makes of a
/// transaction it accepts.
pub uninterp spec fn sanitized_form(transaction: TransactionModel) -> SanitizedTransaction;

/// Calls `solana_transaction::sanitized::SanitizedTransaction::try_create` on
/// the transaction, with the message hash computed, no word on whether it is a
/// vote, no address loader and no reserved keys. Its contract claims that
/// exactly the legacy transactions that are sane are accepted, that the form
/// they are given depends on the transaction alone, and that an error prints as
/// `UnsupportedVersion` for a sane message of version 0 and as
/// `SanitizeFailure` for all else. The hash is taken of the wire form, and
/// `try_create` panics where a list is too long to be written in it.
#[verifier::external_body]
fn sanitize(transaction: Transaction) -> (result: Result<SanitizedTransaction, String>)
    requires
        transaction@.can_be_sanitized(),
    ensures
        result is Ok <==> transaction@.is_accepted(),
        result matches Ok(sanitized) ==> sanitized == sanitized_form(transaction@),
        result matches Err(error) ==> error@ == transaction@.rejection(),
{
    let Transaction { signatures, header: MessageHeader { num_required_signatures, num_readonly_signed_accounts, num_readonly_unsigned_accounts },
        account_keys, recent_blockhash, instructions, address_table_lookups } = transaction;
    let header = WireHeader { num_required_signatures, num_readonly_signed_accounts, num_readonly_unsigned_accounts };
    let instructions = instructions.into_iter().map(|CompiledInstruction { program_id_index, accounts, data }|
        WireInstruction { program_id_index, accounts, data }).collect();
    let message = match address_table_lookups {
        None => VersionedMessage::Legacy(LegacyMessage { header, account_keys, recent_blockhash, instructions }),
        Some(lookups) => {
            let address_table_lookups = lookups.into_iter().map(|AddressTableLookup { account_key, writable_indexes, readonly_indexes }|
                WireLookup { account_key, writable_indexes, readonly_indexes }).collect();
            VersionedMessage::V0(VersionZeroMessage { header, account_keys, recent_blockhash, instructions, address_table_lookups })
        }
    };
    SanitizedTransaction::try_create(VersionedTransaction { signatures, message },
        MessageHash::Compute, None, SimpleAddressLoader::Disabled, &HashSet::new()).map_err(|e| format!("{e:?}"))
}

/// Calls `solana_transaction::versioned::VersionedTransaction::sanitize` on the
/// transaction. Its contract claims that it passes exactly the sane transactions,
/// of either version.
#[verifier::external_body]
fn passes_checks(transaction: Transaction) -> (passes: bool)
    ensures
        passes == transaction@.is_sane(),
{
    let Transaction { signatures, header: MessageHeader { num_required_signatures, num_readonly_signed_accounts, num_readonly_unsigned_accounts },
        account_keys, recent_blockhash, instructions, address_table_lookups } = transaction;
    let header = WireHeader { num_required_signatures, num_readonly_signed_accounts, num_readonly_unsigned_accounts };
    let instructions = instructions.into_iter().map(|CompiledInstruction { program_id_index, accounts, data }|
        WireInstruction { program_id_index, accounts, data }).collect();
    let message = match address_table_lookups {
        None => VersionedMessage::Legacy(LegacyMessage { header, account_keys, recent_blockhash, instructions }),
        Some(lookups) => {
            let address_table_lookups = lookups.into_iter().map(|AddressTableLookup { account_key, writable_indexes, readonly_indexes }|
                WireLookup { account_key, writable_indexes, readonly_indexes }).collect();
            VersionedMessage::V0(VersionZeroMessage { header, account_keys, recent_blockhash, instructions, address_table_lookups })
        }
    };
    VersionedTransaction { signatures, message }.sanitize().is_ok()
}

/// An instruction invoked by another, with the height of the call stack.
#[derive(Debug)]
pub struct InvokedInstruction {
    pub instruction: CompiledInstruction,
    pub stack_height: u8,
}

/// What a program handed back.
#[derive(Debug)]
pub struct TransactionReturnData {
    pub program_id: Pubkey,
    pub data: Vec<u8>,
}

/// What the virtual machine recorded of a transaction: `inner_instructions`
/// has an entry for each of its instructions.
#[derive(Debug)]
pub struct TransactionMetadata {
    pub signature: Signature,
    pub logs: Vec<String>,
    pub inner_instructions: Vec<Vec<InvokedInstruction>>,
    pub compute_units_consumed: u64,
    pub return_data: TransactionReturnData,
}

/// An inner instruction in a transaction status.
#[derive(Debug)]
pub struct InnerInstruction {
    pub instruction: CompiledInstruction,
    pub stack_height: Option<u32>,
}

/// The inner instructions of the transaction's instruction at `index`.
#[derive(Debug)]
pub struct InnerInstructions {
    pub index: u8,
    pub instructions: Vec<InnerInstruction>,
}

/// Accounts loaded from lookup tables.
#[derive(Debug)]
pub struct LoadedAddresses {
    pub writable: Vec<Pubkey>,
    pub readonly: Vec<Pubkey>,
}

/// The status of a transaction that the plugins are given.
#[derive(Debug)]
pub struct TransactionStatusMeta {
    pub status: Result<(), TransactionError>,
    pub fee: u64,
    pub pre_balances: Vec<u64>,
    pub post_balances: Vec<u64>,
    pub inner_instructions: Option<Vec<InnerInstructions>>,
    pub log_messages: Option<Vec<String>>,
    pub pre_token_balances: Option<Vec<TransactionTokenBalance>>,
    pub post_token_balances: Option<Vec<TransactionTokenBalance>>,
    pub rewards: Option<Vec<Reward>>,
    pub loaded_addresses: LoadedAddresses,
    pub return_data: Option<TransactionReturnData>,
    pub compute_units_consumed: Option<u64>,
}

/// What each plugin is notified with.
#[derive(Debug)]
pub struct TransactionReplica {
    pub signature: Signature,
    pub is_vote: bool,
    pub transaction: SanitizedTransaction,
    pub transaction_status_meta: TransactionStatusMeta,
    pub index: usize,
    pub slot: u64,
}

/// `listed` holds the `invoked` instructions in order, unchanged, each with its
/// stack height.
pub open spec fn lists_invocations(
    listed: Seq<InnerInstruction>,
    invoked: Seq<InvokedInstruction>,
) -> bool {
    &&& listed.len() == invoked.len()
    &&& forall|j: int|
        0 <= j < listed.len() ==> #[trigger] listed[j] == (InnerInstruction {
            instruction: invoked[j].instruction,
            stack_height: Some(invoked[j].stack_height as u32),
        })
}

/// `groups` holds a group for each entry of `recorded`, in order. A group's
/// index is the position of its entry in one byte: from the 257th entry on it
/// starts again at zero.
pub open spec fn groups_invocations(
    groups: Seq<InnerInstructions>,
    recorded: Seq<Vec<InvokedInstruction>>,
) -> bool {
    &&& groups.len() == recorded.len()
    &&& forall|i: int|
        0 <= i < groups.len() ==> {
            &&& (#[trigger] groups[i]).index == i % 256
            &&& lists_invocations(groups[i].instructions@, recorded[i]@)
        }
}

impl TransactionStatusMeta {
    /// The status of a transaction that went through at no fee, with what
    /// `metadata` recorded of it and nothing of balances, rewards or lookup
    /// tables.
    pub open spec fn reports(self, metadata: TransactionMetadata) -> bool {
        &&& self.status == Ok::<(), TransactionError>(())
        &&& self.fee == 0
        &&& self.pre_balances@.len() == 0
        &&& self.post_balances@.len() == 0
        &&& self.inner_instructions matches Some(groups)
        &&& groups_invocations(groups@, metadata.inner_instructions@)
        &&& self.log_messages == Some(metadata.logs)
        &&& self.pre_token_balances is None
        &&& self.post_token_balances is None
        &&& self.rewards is None
        &&& self.loaded_addresses.writable@.len() == 0
        &&& self.loaded_addresses.readonly@.len() == 0
        &&& self.return_data == Some(metadata.return_data)
        &&& self.compute_units_consumed == Some(metadata.compute_units_consumed)
    }
}

impl TransactionReplica {
    /// The replica shows `transaction`, first in its block and no vote, with
    /// the status that `metadata` reports.
    pub open spec fn shows(
        self,
        transaction: SanitizedTransaction,
        metadata: TransactionMetadata,
        slot: u64,
    ) -> bool {
        &&& self.signature == metadata.signature
        &&& !self.is_vote
        &&& self.transaction == transaction
        &&& self.transaction_status_meta.reports(metadata)
        &&& self.index == 0
        &&& self.slot == slot
    }
}

/// Lists one instruction's invocations in the form of a transaction status.
pub fn list_invocations(invoked: Vec<InvokedInstruction>) -> (listed: Vec<InnerInstruction>)
    ensures
        lists_invocations(listed@, invoked@),
        listed@.len() == invoked@.len(),
        forall|j: int|
            0 <= j < listed@.len() ==> {
                &&& (#[trigger] listed@[j]).instruction == invoked@[j].instruction
                &&& listed@[j].stack_height == Some(invoked@[j].stack_height as u32)
            },
{
    let mut listed: Vec<InnerInstruction> = Vec::new();
    for inner in it: invoked.into_iter()
        invariant
            it.seq() == invoked@,
            lists_invocations(listed@, invoked@.take(it.index() as int)),
    {
        listed.push(
            InnerInstruction {
                instruction: inner.instruction,
                stack_height: Some(inner.stack_height as u32),
            },
        );
    }
    listed
}

/// Groups the recorded invocations by the instruction that they came from.
pub fn group_invocations(recorded: Vec<Vec<InvokedInstruction>>) -> (groups: Vec<
    InnerInstructions,
>)
    ensures
        groups_invocations(groups@, recorded@),
        groups@.len() == recorded@.len(),
        forall|i: int|
            0 <= i < groups@.len() ==> {
                &&& (#[trigger] groups@[i]).index == i % 256
                &&& groups@[i].instructions@.len() == recorded@[i]@.len()
            },
        forall|i: int, j: int|
            0 <= i < groups@.len() && 0 <= j < recorded@[i]@.len() ==> {
                let listed = #[trigger] groups@[i].instructions@[j];
                &&& listed.instruction == recorded@[i]@[j].instruction
                &&& listed.stack_height == Some(recorded@[i]@[j].stack_height as u32)
            },
{
    let mut groups: Vec<InnerInstructions> = Vec::new();
    for invoked in it: recorded.into_iter()
        invariant
            it.seq() == recorded@,
            groups_invocations(groups@, recorded@.take(it.index() as int)),
    {
        let position: usize = groups.len();
        let index: u8 = #[verifier::truncate] (position as u8);
        assert(index == position % 256) by (bit_vector)
            requires
                index == position as u8,
        ;
        groups.push(InnerInstructions { index, instructions: list_invocations(invoked) });
    }
    groups
}

/// The status that the plugins are given of a transaction.
pub fn status_meta(metadata: TransactionMetadata) -> (meta: TransactionStatusMeta)
    ensures
        meta.reports(metadata),
        meta.status is Ok,
        meta.fee == 0,
        meta.pre_balances@.len() == 0 && meta.post_balances@.len() == 0,
        meta.inner_instructions is Some,
        meta.inner_instructions->0@.len() == metadata.inner_instructions@.len(),
        meta.log_messages == Some(metadata.logs),
        meta.pre_token_balances is None && meta.post_token_balances is None,
        meta.rewards is None,
        meta.loaded_addresses.writable@.len() == 0 && meta.loaded_addresses.readonly@.len() == 0,
        meta.return_data == Some(metadata.return_data),
        meta.compute_units_consumed == Some(metadata.compute_units_consumed),
{
    TransactionStatusMeta {
        status: Ok(()),
        fee: 0,
        pre_balances: Vec::new(),
        post_balances: Vec::new(),
        inner_instructions: Some(group_invocations(metadata.inner_instructions)),
        log_messages: Some(metadata.logs),
        pre_token_balances: None,
        post_token_balances: None,
        rewards: None,
        loaded_addresses: LoadedAddresses { writable: Vec::new(), readonly: Vec::new() },
        return_data: Some(metadata.return_data),
        compute_units_consumed: Some(metadata.compute_units_consumed),
    }
}

/// The replica of a sanitized transaction.
pub fn replicate(
    transaction: SanitizedTransaction,
    metadata: TransactionMetadata,
    slot: u64,
) -> (replica: TransactionReplica)
    ensures
        replica.shows(transaction, metadata, slot),
        replica.signature == metadata.signature,
        !replica.is_vote,
        replica.transaction == transaction,
        replica.index == 0,
        replica.slot == slot,
        replica.transaction_status_meta.log_messages == Some(metadata.logs),
        replica.transaction_status_meta.return_data == Some(metadata.return_data),
        replica.transaction_status_meta.compute_units_consumed == Some(
            metadata.compute_units_consumed,
        ),
{
    TransactionReplica {
        signature: metadata.signature,
        is_vote: false,
        transaction,
        transaction_status_meta: status_meta(metadata),
        index: 0,
        slot,
    }
}

/// Sanitizes a transaction and builds the replica that the plugins are notified
/// with; the error is the text of the sanitization error.
pub fn sanitize_and_replicate(
    transaction: Transaction,
    metadata: TransactionMetadata,
    slot: u64,
) -> (result: Result<TransactionReplica, String>)
    requires
        transaction@.can_be_sanitized(),
    ensures
        result is Ok <==> transaction@.is_accepted(),
        result matches Ok(replica) ==> replica.shows(
            sanitized_form(transaction@),
            metadata,
            slot,
        ),
        result matches Ok(replica) ==> {
            &&& replica.signature == metadata.signature
            &&& !replica.is_vote
            &&& replica.transaction == sanitized_form(transaction@)
            &&& replica.index == 0
            &&& replica.slot == slot
            &&& replica.transaction_status_meta.log_messages == Some(metadata.logs)
            &&& replica.transaction_status_meta.return_data == Some(metadata.return_data)
            &&& replica.transaction_status_meta.compute_units_consumed == Some(
                metadata.compute_units_consumed,
            )
        },
        result matches Err(error) ==> error@ == transaction@.rejection(),
{
    match sanitize(transaction) {
        Ok(sanitized) => Ok(replicate(sanitized, metadata, slot)),
        Err(error) => Err(error),
    }
}

/// The longest list that the wire format can write.
const MAX_LIST_LEN: usize = 65535;

impl Transaction {
    /// Whether the lists of the message can all be written in the wire format.
    pub fn lists_are_short(&self) -> (short: bool)
        ensures
            short == self@.has_short_lists(),
    {
        let ghost model = self@;
        if self.account_keys.len() > MAX_LIST_LEN || self.instructions.len() > MAX_LIST_LEN {
            return false;
        }
        for i in 0..self.instructions.len()
            invariant
                model == self@,
                forall|j: int|
                    0 <= j < i ==> {
                        &&& (#[trigger] model.instructions[j]).accounts.len() <= u16::MAX
                        &&& model.instructions[j].data.len() <= u16::MAX
                    },
        {
            assert(model.instructions[i as int] == self.instructions@[i as int]@);
            if self.instructions[i].accounts.len() > MAX_LIST_LEN
                || self.instructions[i].data.len() > MAX_LIST_LEN {
                return false;
            }
        }
        match &self.address_table_lookups {
            None => true,
            Some(lookups) => {
                if lookups.len() > MAX_LIST_LEN {
                    return false;
                }
                for i in 0..lookups.len()
                    invariant
                        model == self@,
                        self.address_table_lookups == Some(*lookups),
                        forall|j: int|
                            0 <= j < i ==> {
                                &&& (#[trigger] model.lookups->0[j]).writable_indexes.len()
                                    <= u16::MAX
                                &&& model.lookups->0[j].readonly_indexes.len() <= u16::MAX
                            },
                {
                    assert(model.lookups->0[i as int] == lookups@[i as int]@);
                    if lookups[i].writable_indexes.len() > MAX_LIST_LEN
                        || lookups[i].readonly_indexes.len() > MAX_LIST_LEN {
                        return false;
                    }
                }
                true
            },
        }
    }

    /// Whether the transaction may be handed to [`sanitize_and_replicate`]: it
    /// fails the checks, or its message can be hashed.
    pub fn can_be_sanitized(&self) -> (can: bool)
        ensures
            can == self@.can_be_sanitized(),
    {
        self.lists_are_short() || !passes_checks(self.clone())
    }
}

/// The invocations of an instruction are listed one for one and in order: the
/// instruction itself, and the height of the call stack at which it ran.
pub proof fn law_invocations_are_listed(
    listed: Seq<InnerInstruction>,
    invoked: Seq<InvokedInstruction>,
    j: int,
)
    requires
        lists_invocations(listed, invoked),
    ensures
        listed.len() == invoked.len(),
        0 <= j < invoked.len() ==> {
            &&& listed[j].instruction == invoked[j].instruction
            &&& listed[j].stack_height is Some
            &&& listed[j].stack_height->0 == invoked[j].stack_height
        },
{
}

/// The invocations are grouped by the instruction that they came from, a group for
/// each, in order and in full. A group is marked with the position of its
/// instruction, which comes round again after two hundred and fifty-six.
pub proof fn law_invocations_are_grouped(
    groups: Seq<InnerInstructions>,
    recorded: Seq<Vec<InvokedInstruction>>,
    i: int,
    j: int,
)
    requires
        groups_invocations(groups, recorded),
    ensures
        groups.len() == recorded.len(),
        0 <= i < recorded.len() && i < 256 ==> groups[i].index == i,
        256 <= i < recorded.len() ==> groups[i].index == groups[i - 256].index,
        0 <= i < recorded.len() ==> groups[i].instructions@.len() == recorded[i]@.len(),
        0 <= i < recorded.len() && 0 <= j < recorded[i]@.len() ==> {
            let listed = groups[i].instructions@[j];
            &&& listed.instruction == recorded[i]@[j].instruction
            &&& listed.stack_height is Some
            &&& listed.stack_height->0 == recorded[i]@[j].stack_height
        },
{
    if 0 <= i < recorded.len() {
        assert(groups[i].index == i % 256);
        law_invocations_are_listed(groups[i].instructions@, recorded[i]@, j);
    }
    if 256 <= i < recorded.len() {
        assert(groups[i - 256].index == (i - 256) % 256);
    }
}

/// The status that reports a transaction holds what the virtual machine recorded
/// of it, unchanged: the logs, what the program handed back, the compute units and
/// every invocation. It says that the transaction went through, at no fee, and
/// nothing of balances, rewards or lookup tables.
pub proof fn law_status_holds_what_was_recorded(
    meta: TransactionStatusMeta,
    metadata: TransactionMetadata,
    i: int,
    j: int,
)
    requires
        meta.reports(metadata),
    ensures
        meta.compute_units_consumed is Some,
        meta.compute_units_consumed->0 == metadata.compute_units_consumed,
        meta.log_messages is Some,
        meta.log_messages->0@ == metadata.logs@,
        meta.return_data is Some,
        meta.return_data->0.program_id == metadata.return_data.program_id,
        meta.return_data->0.data@ == metadata.return_data.data@,
        meta.status is Ok,
        meta.fee == 0,
        meta.pre_balances@.len() == 0 && meta.post_balances@.len() == 0,
        meta.pre_token_balances is None && meta.post_token_balances is None,
        meta.rewards is None,
        meta.loaded_addresses.writable@.len() == 0 && meta.loaded_addresses.readonly@.len() == 0,
        meta.inner_instructions is Some,
        meta.inner_instructions->0@.len() == metadata.inner_instructions@.len(),
        0 <= i < metadata.inner_instructions@.len() ==> {
            let group = meta.inner_instructions->0@[i];
            let invoked = metadata.inner_instructions@[i]@;
            &&& i < 256 ==> group.index == i
            &&& i >= 256 ==> group.index == meta.inner_instructions->0@[i - 256].index
            &&& group.instructions@.len() == invoked.len()
            &&& 0 <= j < invoked.len() ==> {
                &&& group.instructions@[j].instruction == invoked[j].instruction
                &&& group.instructions@[j].stack_height is Some
                &&& group.instructions@[j].stack_height->0 == invoked[j].stack_height
            }
        },
{
    law_invocations_are_grouped(
        meta.inner_instructions->0@,
        metadata.inner_instructions@,
        i,
        j,
    );
}

/// What the plugins are shown of a transaction is in the slot that came with it,
/// under the signature that was recorded, with the sanitized form that was made of
/// it and the status of what was recorded; it is no vote, and first in its block.
pub proof fn law_replica_is_of_its_event(
    replica: TransactionReplica,
    transaction: SanitizedTransaction,
    metadata: TransactionMetadata,
    slot: u64,
)
    requires
        replica.shows(transaction, metadata, slot),
    ensures
        replica.slot == slot,
        replica.signature == metadata.signature,
        replica.transaction == transaction,
        !replica.is_vote,
        replica.index == 0,
        replica.transaction_status_meta.reports(metadata),
        replica.transaction_status_meta.compute_units_consumed is Some,
        replica.transaction_status_meta.compute_units_consumed->0
            == metadata.compute_units_consumed,
{
}

/// The model of a transaction holds what the transaction holds.
pub proof fn law_model_holds_the_transaction(transaction: Transaction, i: int)
    ensures
        transaction@.signatures == transaction.signatures@,
        transaction@.header == transaction.header,
        transaction@.account_keys == transaction.account_keys@,
        transaction@.recent_blockhash == transaction.recent_blockhash,
        transaction@.instructions.len() == transaction.instructions@.len(),
        0 <= i < transaction.instructions@.len() ==> {
            let instruction = transaction.instructions@[i];
            &&& transaction@.instructions[i].program_id_index == instruction.program_id_index
            &&& transaction@.instructions[i].accounts == instruction.accounts@
            &&& transaction@.instructions[i].data == instruction.data@
        },
        transaction@.lookups is Some <==> transaction.address_table_lookups is Some,
        transaction.address_table_lookups is Some ==> {
            let lookups = transaction.address_table_lookups->0@;
            &&& transaction@.lookups->0.len() == lookups.len()
            &&& 0 <= i < lookups.len() ==> {
                &&& transaction@.lookups->0[i].account_key == lookups[i].account_key
                &&& transaction@.lookups->0[i].writable_indexes == lookups[i].writable_indexes@
                &&& transaction@.lookups->0[i].readonly_indexes == lookups[i].readonly_indexes@
            }
        },
{
}

/// A legacy message addresses its own keys; a message of version 0 addresses, for
/// each lookup, as many more as the lookup has indexes.
pub proof fn law_lookups_add_their_accounts(
    transaction: TransactionModel,
    lookups: Seq<LookupModel>,
    lookup: LookupModel,
)
    ensures
        (TransactionModel { lookups: None, ..transaction }).addressable_keys()
            == transaction.account_keys.len(),
        (TransactionModel { lookups: Some(Seq::empty()), ..transaction }).addressable_keys()
            == transaction.account_keys.len(),
        (TransactionModel { lookups: Some(lookups.push(lookup)), ..transaction }).addressable_keys()
            == (TransactionModel { lookups: Some(lookups), ..transaction }).addressable_keys()
            + lookup.writable_indexes.len() + lookup.readonly_indexes.len(),
{
    let len = |l: LookupModel| l.len();
    let add_up = |sum: nat, n: nat| sum + n;
    assert(lookups.push(lookup).map_values(len).drop_last() =~= lookups.map_values(len));
    assert(lookups.push(lookup).map_values(len).last() == lookup.len());
    reveal_with_fuel(Seq::fold_left, 2);
    assert(Seq::<LookupModel>::empty().map_values(len) =~= Seq::<nat>::empty());
}

/// The transactions that the plugins are shown are the legacy ones with a signature
/// for each required signer, signers and read-only accounts among the keys, a fee
/// payer that is writable, programs among the keys other than the fee payer, and
/// accounts among the keys.
pub proof fn law_what_is_accepted(transaction: TransactionModel)
    ensures
        transaction.is_accepted() <==> {
            &&& transaction.lookups is None
            &&& transaction.signatures.len() == transaction.header.num_required_signatures
            &&& transaction.header.num_required_signatures
                + transaction.header.num_readonly_unsigned_accounts
                <= transaction.account_keys.len()
            &&& transaction.header.num_readonly_signed_accounts
                < transaction.header.num_required_signatures
            &&& forall|i: int|
                0 <= i < transaction.instructions.len() ==> 0 < (
                #[trigger] transaction.instructions[i]).program_id_index
                    < transaction.account_keys.len()
            &&& forall|i: int, j: int|
                0 <= i < transaction.instructions.len() && 0 <= j
                    < transaction.instructions[i].accounts.len() ==> (
                #[trigger] transaction.instructions[i].accounts[j])
                    < transaction.account_keys.len()
        },
        transaction.lookups is None ==> (transaction.is_sane() <==> transaction.is_accepted()),
{
    let keys = transaction.account_keys.len();
    if transaction.is_accepted() {
        assert forall|i: int, j: int|
            0 <= i < transaction.instructions.len() && 0 <= j
                < transaction.instructions[i].accounts.len() implies (
        #[trigger] transaction.instructions[i].accounts[j]) < keys by {
            assert(transaction.instructions[i].in_range(keys, keys));
        }
    }
}

/// A transaction that is not accepted is called unsupported where it is of version
/// 0 and in order otherwise: signed, with its fee payer, its programs among its own
/// keys, its accounts among those and the ones that it looks up, no lookup empty
/// and no more accounts than a byte can tell apart. All others fail sanitization.
pub proof fn law_what_is_unsupported(transaction: TransactionModel)
    requires
        transaction.lookups is Some,
    ensures
        !transaction.is_accepted(),
        transaction.is_sane() <==> {
            let lookups = transaction.lookups->0;
            &&& transaction.signatures.len() == transaction.header.num_required_signatures
            &&& transaction.header.num_required_signatures
                + transaction.header.num_readonly_unsigned_accounts
                <= transaction.account_keys.len()
            &&& transaction.header.num_readonly_signed_accounts
                < transaction.header.num_required_signatures
            &&& forall|i: int|
                0 <= i < transaction.instructions.len() ==> 0 < (
                #[trigger] transaction.instructions[i]).program_id_index
                    < transaction.account_keys.len()
            &&& forall|i: int, j: int|
                0 <= i < transaction.instructions.len() && 0 <= j
                    < transaction.instructions[i].accounts.len() ==> (
                #[trigger] transaction.instructions[i].accounts[j])
                    < transaction.addressable_keys()
            &&& forall|i: int|
                0 <= i < lookups.len() ==> (#[trigger] lookups[i]).writable_indexes.len()
                    + lookups[i].readonly_indexes.len() > 0
            &&& transaction.addressable_keys() <= 256
        },
        transaction.is_sane() ==> transaction.rejection() == "UnsupportedVersion"@,
        !transaction.is_sane() ==> transaction.rejection() == "SanitizeFailure"@,
{
    let keys = transaction.account_keys.len();
    if transaction.is_sane() {
        assert forall|i: int, j: int|
            0 <= i < transaction.instructions.len() && 0 <= j
                < transaction.instructions[i].accounts.len() implies (
        #[trigger] transaction.instructions[i].accounts[j]) < transaction.addressable_keys() by {
            assert(transaction.instructions[i].in_range(keys, transaction.addressable_keys()));
        }
        assert forall|i: int| 0 <= i < transaction.lookups->0.len() implies (
        #[trigger] transaction.lookups->0[i]).writable_indexes.len()
            + transaction.lookups->0[i].readonly_indexes.len() > 0 by {
            assert(transaction.lookups->0[i].len() > 0);
        }
    }
}

/// A legacy transaction that is not accepted fails sanitization.
pub proof fn law_rejected_legacy_transaction(transaction: TransactionModel)
    requires
        transaction.lookups is None,
        !transaction.is_accepted(),
    ensures
        transaction.rejection() == "SanitizeFailure"@,
{
}

/// The lists of a message are short where none has more than 65535 items, which is
/// what a length of sixteen bits can tell; only a transaction that is in order
/// needs its lists to be.
pub proof fn law_short_lists(transaction: TransactionModel)
    ensures
        transaction.has_short_lists() <==> {
            &&& transaction.account_keys.len() <= 65535
            &&& transaction.instructions.len() <= 65535
            &&& forall|i: int|
                0 <= i < transaction.instructions.len() ==> {
                    &&& (#[trigger] transaction.instructions[i]).accounts.len() <= 65535
                    &&& transaction.instructions[i].data.len() <= 65535
                }
            &&& transaction.lookups is Some ==> transaction.lookups->0.len() <= 65535
            &&& transaction.lookups is Some ==> forall|i: int|
                0 <= i < transaction.lookups->0.len() ==> {
                    &&& (#[trigger] transaction.lookups->0[i]).writable_indexes.len() <= 65535
                    &&& transaction.lookups->0[i].readonly_indexes.len() <= 65535
                }
        },
        transaction.can_be_sanitized() <==> transaction.has_short_lists()
            || !transaction.is_sane(),
{
}

} // verus!
