use payment_engine::error::{
    InsufficientFundsError, NonActionableTransactionError, UnknownTransactionError,
};
use payment_engine::transaction::{Transaction, TxType};

#[test]
fn keyword_deposit_is_deposit() {
    assert_eq!(Transaction::new("deposit", 1, 1, Some(10_000)).get_type(), TxType::Deposit);
}

#[test]
fn keyword_withdrawal_is_withdrawal() {
    assert_eq!(Transaction::new("withdrawal", 1, 1, Some(10_000)).get_type(), TxType::Withdrawal);
}

#[test]
fn keyword_dispute_is_dispute() {
    assert_eq!(Transaction::new("dispute", 1, 1, None).get_type(), TxType::Dispute);
}

#[test]
fn keyword_resolve_is_resolve() {
    assert_eq!(Transaction::new("resolve", 1, 1, None).get_type(), TxType::Resolve);
}

#[test]
fn keyword_chargeback_is_chargeback() {
    assert_eq!(Transaction::new("chargeback", 1, 1, None).get_type(), TxType::Chargeback);
}

#[test]
fn other_keywords_are_unknown() {
    assert_eq!(Transaction::new("transfer", 1, 1, Some(1)).get_type(), TxType::Unknown);
    assert_eq!(Transaction::new("", 1, 1, None).get_type(), TxType::Unknown);
    assert_eq!(Transaction::new("deposits", 1, 1, None).get_type(), TxType::Unknown);
    assert_eq!(Transaction::new("deposi", 1, 1, None).get_type(), TxType::Unknown);
    assert_eq!(Transaction::new("d\u{e9}posit", 1, 1, None).get_type(), TxType::Unknown);
}

#[test]
fn keywords_are_case_sensitive() {
    assert_eq!(Transaction::new("Deposit", 1, 1, Some(1)).get_type(), TxType::Unknown);
    assert_eq!(Transaction::new("WITHDRAWAL", 1, 1, Some(1)).get_type(), TxType::Unknown);
}

#[test]
fn keywords_are_not_trimmed_by_the_record() {
    assert_eq!(Transaction::new(" deposit", 1, 1, Some(1)).get_type(), TxType::Unknown);
    assert_eq!(Transaction::new("deposit ", 1, 1, Some(1)).get_type(), TxType::Unknown);
}

#[test]
fn getters_return_what_was_given() {
    let record = Transaction::new("withdrawal", 65535, 4_294_967_295, Some(-7));
    assert_eq!(record.get_client_id(), 65535);
    assert_eq!(record.get_tx_id(), 4_294_967_295);
    assert_eq!(*record.get_amount(), Some(-7));
    assert!(!record.is_disputed());
    let bare = Transaction::new("dispute", 0, 0, None);
    assert_eq!(*bare.get_amount(), None);
}

#[test]
fn set_dispute_changes_only_the_flag() {
    let mut record = Transaction::new("deposit", 3, 9, Some(15_000));
    record.set_dispute(true);
    assert!(record.is_disputed());
    assert_eq!(record.get_type(), TxType::Deposit);
    assert_eq!(record.get_client_id(), 3);
    assert_eq!(record.get_tx_id(), 9);
    assert_eq!(*record.get_amount(), Some(15_000));
    record.set_dispute(false);
    assert!(!record.is_disputed());
}

#[test]
fn clone_keeps_every_field() {
    let mut record = Transaction::new("deposit", 3, 9, Some(15_000));
    record.set_dispute(true);
    let copy = record.clone();
    assert_eq!(copy.get_type(), TxType::Deposit);
    assert_eq!(copy.get_client_id(), 3);
    assert_eq!(copy.get_tx_id(), 9);
    assert_eq!(*copy.get_amount(), Some(15_000));
    assert!(copy.is_disputed());
}

#[test]
fn transfer_with_positive_amount_is_valid() {
    assert!(Transaction::new("deposit", 1, 1, Some(1)).is_valid_transfer());
    assert!(Transaction::new("withdrawal", 1, 1, Some(i64::MAX)).is_valid_transfer());
}

#[test]
fn transfer_with_zero_negative_or_missing_amount_is_invalid() {
    assert!(!Transaction::new("deposit", 1, 1, Some(0)).is_valid_transfer());
    assert!(!Transaction::new("deposit", 1, 1, Some(-1)).is_valid_transfer());
    assert!(!Transaction::new("withdrawal", 1, 1, Some(i64::MIN)).is_valid_transfer());
    assert!(!Transaction::new("deposit", 1, 1, None).is_valid_transfer());
    assert!(!Transaction::new("withdrawal", 1, 1, None).is_valid_transfer());
}

#[test]
fn records_that_are_no_transfers_are_never_valid_transfers() {
    assert!(!Transaction::new("dispute", 1, 1, Some(5)).is_valid_transfer());
    assert!(!Transaction::new("resolve", 1, 1, Some(5)).is_valid_transfer());
    assert!(!Transaction::new("chargeback", 1, 1, Some(5)).is_valid_transfer());
    assert!(!Transaction::new("bogus", 1, 1, Some(5)).is_valid_transfer());
}

#[test]
fn errors_report_their_message() {
    let text = "References transaction cannot not be referrenced";
    assert_eq!(NonActionableTransactionError.to_string(), text);
    assert_eq!(UnknownTransactionError.to_string(), text);
    assert_eq!(InsufficientFundsError.to_string(), text);
}
