use solana_message::legacy::Message as LegacyMessage;
use solana_message::VersionedMessage;
use solana_pubkey::Pubkey;
use solana_signature::Signature;
use surfnet_runloops::transaction::{
    group_invocations, list_invocations, replicate, sanitize_and_replicate, status_meta,
    AddressTableLookup, CompiledInstruction, InvokedInstruction, MessageHeader, Transaction,
    TransactionMetadata, TransactionReturnData,
};

fn key(byte: u8) -> Pubkey {
    Pubkey::new_from_array([byte; 32])
}

fn instruction(program_id_index: u8, accounts: Vec<u8>) -> CompiledInstruction {
    CompiledInstruction { program_id_index, accounts, data: vec![1, 2, 3] }
}

/// A payer, another account and a program, and one instruction.
fn legacy() -> Transaction {
    Transaction {
        signatures: vec![Signature::from([7; 64])],
        header: MessageHeader {
            num_required_signatures: 1,
            num_readonly_signed_accounts: 0,
            num_readonly_unsigned_accounts: 1,
        },
        account_keys: vec![key(1), key(2), key(3)],
        recent_blockhash: solana_hash::Hash::new_from_array([9; 32]),
        instructions: vec![instruction(2, vec![0, 1])],
        address_table_lookups: None,
    }
}

fn lookup(indexes: usize) -> AddressTableLookup {
    AddressTableLookup {
        account_key: key(4),
        writable_indexes: vec![0; indexes],
        readonly_indexes: vec![],
    }
}

fn version_zero(lookups: Vec<AddressTableLookup>) -> Transaction {
    Transaction { address_table_lookups: Some(lookups), ..legacy() }
}

fn invoked(program_id_index: u8, stack_height: u8) -> InvokedInstruction {
    InvokedInstruction { instruction: instruction(program_id_index, vec![4]), stack_height }
}

fn metadata(inner_instructions: Vec<Vec<InvokedInstruction>>) -> TransactionMetadata {
    TransactionMetadata {
        signature: Signature::from([8; 64]),
        logs: vec!["first".to_string(), "second".to_string()],
        inner_instructions,
        compute_units_consumed: 1400,
        return_data: TransactionReturnData { program_id: key(5), data: vec![6, 7] },
    }
}

fn rejection(transaction: Transaction) -> String {
    match sanitize_and_replicate(transaction, metadata(vec![]), 1) {
        Ok(_) => panic!("the transaction was accepted"),
        Err(error) => error,
    }
}

#[test]
fn a_sane_legacy_transaction_is_shown_to_the_plugins() {
    let replica = sanitize_and_replicate(legacy(), metadata(vec![]), 42).unwrap();
    assert_eq!(replica.slot, 42);
    assert_eq!(replica.index, 0);
    assert!(!replica.is_vote);
    assert_eq!(replica.signature, Signature::from([8; 64]));
    let sanitized = replica.transaction;
    assert_eq!(sanitized.signatures(), [Signature::from([7; 64])]);
    assert_eq!(sanitized.message().account_keys().len(), 3);
    assert_eq!(sanitized.message().instructions()[0].data, vec![1, 2, 3]);
    let message = LegacyMessage::new_with_compiled_instructions(
        1,
        0,
        1,
        vec![key(1), key(2), key(3)],
        solana_hash::Hash::new_from_array([9; 32]),
        sanitized.message().instructions().to_vec(),
    );
    assert_eq!(*sanitized.message_hash(), VersionedMessage::Legacy(message).hash());
}

#[test]
fn a_sane_message_of_version_zero_is_unsupported() {
    assert_eq!(rejection(version_zero(vec![])), "UnsupportedVersion");
    assert_eq!(rejection(version_zero(vec![lookup(2)])), "UnsupportedVersion");
}

#[test]
fn signatures_match_the_required_signers() {
    let few = Transaction { signatures: vec![], ..legacy() };
    assert_eq!(rejection(few), "SanitizeFailure");
    let many = Transaction { signatures: vec![Signature::default(); 2], ..legacy() };
    assert_eq!(rejection(many), "SanitizeFailure");
}

#[test]
fn signers_and_readonly_accounts_are_among_the_keys() {
    let header = MessageHeader { num_readonly_unsigned_accounts: 3, ..legacy().header };
    assert_eq!(rejection(Transaction { header, ..legacy() }), "SanitizeFailure");
    let header = MessageHeader { num_readonly_unsigned_accounts: 2, ..legacy().header };
    let edge = Transaction { header, ..legacy() };
    assert!(sanitize_and_replicate(edge, metadata(vec![]), 1).is_ok());
}

#[test]
fn the_fee_payer_is_writable() {
    let header = MessageHeader { num_readonly_signed_accounts: 1, ..legacy().header };
    assert_eq!(rejection(Transaction { header, ..legacy() }), "SanitizeFailure");
}

#[test]
fn programs_and_accounts_are_in_range() {
    for bad in [instruction(0, vec![]), instruction(3, vec![]), instruction(2, vec![3])] {
        let transaction = Transaction { instructions: vec![bad], ..legacy() };
        assert_eq!(rejection(transaction), "SanitizeFailure");
    }
    let edge = Transaction { instructions: vec![instruction(1, vec![2])], ..legacy() };
    assert!(sanitize_and_replicate(edge, metadata(vec![]), 1).is_ok());
}

#[test]
fn lookups_extend_the_accounts_of_version_zero() {
    let mut transaction = version_zero(vec![lookup(2)]);
    transaction.instructions = vec![instruction(2, vec![4])];
    assert_eq!(rejection(transaction), "UnsupportedVersion");
    let mut transaction = version_zero(vec![lookup(2)]);
    transaction.instructions = vec![instruction(2, vec![5])];
    assert_eq!(rejection(transaction), "SanitizeFailure");
    let mut transaction = version_zero(vec![lookup(2)]);
    transaction.instructions = vec![instruction(3, vec![])];
    assert_eq!(rejection(transaction), "SanitizeFailure");
}

#[test]
fn lookups_of_version_zero_are_not_empty() {
    assert_eq!(rejection(version_zero(vec![lookup(1), lookup(0)])), "SanitizeFailure");
}

#[test]
fn version_zero_addresses_as_many_accounts_as_a_byte() {
    assert_eq!(rejection(version_zero(vec![lookup(253)])), "UnsupportedVersion");
    assert_eq!(rejection(version_zero(vec![lookup(254)])), "SanitizeFailure");
}

#[test]
fn a_legacy_message_may_have_more_keys_than_a_byte_addresses() {
    let transaction = Transaction { account_keys: vec![key(1); 300], ..legacy() };
    assert!(sanitize_and_replicate(transaction, metadata(vec![]), 1).is_ok());
}

#[test]
fn lists_are_short_up_to_sixteen_bits() {
    assert!(legacy().lists_are_short());
    assert!(version_zero(vec![lookup(1)]).lists_are_short());
    assert!(version_zero(vec![lookup(65_535)]).lists_are_short());
    assert!(!version_zero(vec![lookup(65_536)]).lists_are_short());
    let mut transaction = legacy();
    transaction.instructions[0].data = vec![0; 65_535];
    assert!(transaction.lists_are_short());
    transaction.instructions[0].data.push(0);
    assert!(!transaction.lists_are_short());
    let mut transaction = legacy();
    transaction.instructions[0].accounts = vec![0; 65_536];
    assert!(!transaction.lists_are_short());
    let transaction = Transaction { account_keys: vec![key(1); 65_536], ..legacy() };
    assert!(!transaction.lists_are_short());
    let mut long = lookup(1);
    long.readonly_indexes = vec![0; 65_536];
    assert!(!version_zero(vec![long]).lists_are_short());
}

#[test]
fn a_rejected_transaction_may_have_long_lists() {
    let mut transaction = legacy();
    transaction.instructions[0].program_id_index = 0;
    transaction.instructions[0].data = vec![0; 65_536];
    assert_eq!(rejection(transaction), "SanitizeFailure");
}

#[test]
fn a_clone_holds_what_the_transaction_holds() {
    for transaction in [legacy(), version_zero(vec![lookup(2), lookup(1)])] {
        assert_eq!(format!("{:?}", transaction.clone()), format!("{transaction:?}"));
    }
}

fn with_long_data(transaction: Transaction) -> Transaction {
    let mut transaction = transaction;
    transaction.instructions[0].data = vec![0; 65_536];
    transaction
}

#[test]
fn short_lists_can_always_be_sanitized() {
    assert!(legacy().can_be_sanitized());
    assert!(version_zero(vec![lookup(2)]).can_be_sanitized());
    assert!(Transaction { signatures: vec![], ..legacy() }.can_be_sanitized());
}

#[test]
fn a_sane_transaction_with_a_long_list_cannot_be_sanitized() {
    assert!(!with_long_data(legacy()).can_be_sanitized());
    assert!(!with_long_data(version_zero(vec![])).can_be_sanitized());
    assert!(!with_long_data(version_zero(vec![lookup(253)])).can_be_sanitized());
    let transaction = Transaction { account_keys: vec![key(1); 65_536], ..legacy() };
    assert!(!transaction.can_be_sanitized());
}

#[test]
fn a_transaction_that_fails_the_checks_can_be_sanitized_with_a_long_list() {
    let unsigned = Transaction { signatures: vec![], ..legacy() };
    assert!(with_long_data(unsigned).can_be_sanitized());
    let header = MessageHeader { num_readonly_unsigned_accounts: 3, ..legacy().header };
    assert!(with_long_data(Transaction { header, ..legacy() }).can_be_sanitized());
    let header = MessageHeader { num_readonly_signed_accounts: 1, ..legacy().header };
    assert!(with_long_data(Transaction { header, ..legacy() }).can_be_sanitized());
    for bad in [instruction(0, vec![]), instruction(3, vec![]), instruction(2, vec![3])] {
        let transaction = Transaction { instructions: vec![bad], ..legacy() };
        assert!(with_long_data(transaction).can_be_sanitized());
    }
    assert!(with_long_data(version_zero(vec![lookup(0)])).can_be_sanitized());
    assert!(with_long_data(version_zero(vec![lookup(254)])).can_be_sanitized());
    assert!(version_zero(vec![lookup(65_536)]).can_be_sanitized());
}

#[test]
fn the_status_reports_what_was_recorded() {
    let meta = status_meta(metadata(vec![vec![], vec![invoked(1, 2), invoked(2, 255)]]));
    assert_eq!(meta.status, Ok(()));
    assert_eq!(meta.fee, 0);
    assert!(meta.pre_balances.is_empty() && meta.post_balances.is_empty());
    assert_eq!(meta.log_messages, Some(vec!["first".to_string(), "second".to_string()]));
    assert!(meta.pre_token_balances.is_none() && meta.post_token_balances.is_none());
    assert!(meta.rewards.is_none());
    assert!(meta.loaded_addresses.writable.is_empty());
    assert!(meta.loaded_addresses.readonly.is_empty());
    assert_eq!(meta.compute_units_consumed, Some(1400));
    let return_data = meta.return_data.unwrap();
    assert_eq!(return_data.program_id, key(5));
    assert_eq!(return_data.data, vec![6, 7]);
    let groups = meta.inner_instructions.unwrap();
    assert_eq!(groups.len(), 2);
    assert_eq!((groups[0].index, groups[0].instructions.len()), (0, 0));
    assert_eq!((groups[1].index, groups[1].instructions.len()), (1, 2));
    assert_eq!(groups[1].instructions[0].stack_height, Some(2));
    assert_eq!(groups[1].instructions[0].instruction.program_id_index, 1);
    assert_eq!(groups[1].instructions[1].stack_height, Some(255));
    assert_eq!(groups[1].instructions[1].instruction.accounts, vec![4]);
}

#[test]
fn invocations_are_listed_in_order() {
    let listed = list_invocations(vec![invoked(5, 1), invoked(6, 2), invoked(7, 3)]);
    let programs: Vec<u8> = listed.iter().map(|i| i.instruction.program_id_index).collect();
    assert_eq!(programs, [5, 6, 7]);
    assert!(list_invocations(vec![]).is_empty());
}

#[test]
fn group_indexes_start_again_behind_a_byte() {
    let mut recorded = vec![];
    for _ in 0..258 {
        recorded.push(vec![]);
    }
    let groups = group_invocations(recorded);
    assert_eq!(groups.len(), 258);
    assert_eq!(groups[255].index, 255);
    assert_eq!(groups[256].index, 0);
    assert_eq!(groups[257].index, 1);
}

#[test]
fn a_replica_shows_the_given_transaction() {
    let sanitized = sanitize_and_replicate(legacy(), metadata(vec![]), 1).unwrap().transaction;
    let replica = replicate(sanitized.clone(), metadata(vec![]), 7);
    assert_eq!(replica.transaction, sanitized);
    assert_eq!(replica.slot, 7);
}
