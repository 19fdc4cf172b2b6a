use playnet::ledger::{ConfirmedTransactionMeta, TransactionData, TransactionLedger};
use playnet::message::{MessageHeader, SanitizedMessage, SanitizedTransaction};

fn transaction(signature: u8) -> SanitizedTransaction {
    let header = MessageHeader {
        num_required_signatures: 1,
        num_readonly_signed_accounts: 0,
        num_readonly_unsigned_accounts: 0,
    };
    let message = SanitizedMessage::try_new(header, vec![[1u8; 32]], [0u8; 32], vec![]).unwrap();
    SanitizedTransaction::try_new(message, vec![[signature; 64]]).unwrap()
}

fn data(slot: u64, signature: u8) -> TransactionData {
    TransactionData::new(
        slot,
        transaction(signature),
        Some(ConfirmedTransactionMeta {
            fee: 3,
            inner_instructions: None,
            pre_balances: vec![5],
            post_balances: vec![4],
            log_messages: Some(vec!["log".to_string()]),
            err: None,
            compute_units_consumed: Some(9),
        }),
        Some(0),
    )
}

#[test]
fn a_record_holds_its_parts() {
    let record = data(4, 1);
    assert_eq!(record.slot, 4);
    assert_eq!(record.tx, transaction(1));
    assert_eq!(record.block_time, Some(0));
    assert_eq!(record.meta.unwrap().pre_balances, vec![5]);
}

#[test]
fn an_empty_ledger_holds_nothing() {
    let ledger = TransactionLedger::new();
    assert!(!ledger.contains(&[1u8; 64]));
    assert_eq!(ledger.get(&[1u8; 64]), None);
}

#[test]
fn what_was_recorded_is_found_by_its_signature() {
    let mut ledger = TransactionLedger::new();
    ledger.insert([1u8; 64], data(0, 1));
    ledger.insert([2u8; 64], data(1, 2));
    assert!(ledger.contains(&[1u8; 64]));
    assert!(ledger.contains(&[2u8; 64]));
    assert!(!ledger.contains(&[3u8; 64]));
    assert_eq!(ledger.get(&[1u8; 64]), Some(&data(0, 1)));
    assert_eq!(ledger.get(&[2u8; 64]), Some(&data(1, 2)));
}
