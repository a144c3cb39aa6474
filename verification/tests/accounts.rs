use payment_engine::account::Account;
use payment_engine::transaction::Transaction;

fn funded(amount: i64) -> Account {
    let mut account = Account::default();
    assert!(account.process_transfer(&Transaction::new("deposit", 0, 1, Some(amount))).is_ok());
    account
}

fn balances(account: &Account) -> (i128, i128, i128, bool) {
    (account.get_available(), account.get_held(), account.get_total(), account.is_locked())
}

#[test]
fn default_account_is_empty_and_unlocked() {
    let account = Account::default();
    assert_eq!(account.get_client_id(), 0);
    assert_eq!(balances(&account), (0, 0, 0, false));
}

#[test]
fn set_id_changes_only_the_client() {
    let mut account = funded(70_000);
    account.set_id(42);
    assert_eq!(account.get_client_id(), 42);
    assert_eq!(balances(&account), (70_000, 0, 70_000, false));
}

#[test]
fn deposit_adds_to_available_and_total() {
    let mut account = funded(100_000);
    assert!(account.process_transfer(&Transaction::new("deposit", 0, 2, Some(25_000))).is_ok());
    assert_eq!(balances(&account), (125_000, 0, 125_000, false));
}

#[test]
fn withdrawal_takes_from_available_and_total() {
    let mut account = funded(100_000);
    assert!(account.process_transfer(&Transaction::new("withdrawal", 0, 2, Some(30_000))).is_ok());
    assert_eq!(balances(&account), (70_000, 0, 70_000, false));
}

#[test]
fn withdrawal_of_all_that_is_available_succeeds() {
    let mut account = funded(100_000);
    assert!(account.process_transfer(&Transaction::new("withdrawal", 0, 2, Some(100_000))).is_ok());
    assert_eq!(balances(&account), (0, 0, 0, false));
}

#[test]
fn withdrawal_beyond_available_fails_and_changes_nothing() {
    let mut account = funded(500_000);
    let result = account.process_transfer(&Transaction::new("withdrawal", 0, 2, Some(750_000)));
    assert!(result.is_err());
    assert_eq!(balances(&account), (500_000, 0, 500_000, false));
}

#[test]
fn transfer_without_amount_moves_nothing() {
    let mut account = funded(10_000);
    assert!(account.process_transfer(&Transaction::new("deposit", 0, 2, None)).is_ok());
    assert!(account.process_transfer(&Transaction::new("withdrawal", 0, 3, None)).is_ok());
    assert_eq!(balances(&account), (10_000, 0, 10_000, false));
}

#[test]
fn dispute_of_deposit_moves_available_to_held() {
    let mut account = funded(100_000);
    let mut deposit = Transaction::new("deposit", 0, 1, Some(40_000));
    assert!(account.dispute_transaction(&mut deposit).is_ok());
    assert!(deposit.is_disputed());
    assert_eq!(balances(&account), (60_000, 40_000, 100_000, false));
}

#[test]
fn dispute_of_withdrawal_moves_held_to_available() {
    let mut account = funded(100_000);
    let mut withdrawal = Transaction::new("withdrawal", 0, 2, Some(40_000));
    assert!(account.dispute_transaction(&mut withdrawal).is_ok());
    assert!(withdrawal.is_disputed());
    assert_eq!(balances(&account), (140_000, -40_000, 100_000, false));
}

#[test]
fn dispute_of_a_record_that_is_no_transfer_fails_and_changes_nothing() {
    let mut account = funded(100_000);
    let mut record = Transaction::new("resolve", 0, 2, Some(40_000));
    assert!(account.dispute_transaction(&mut record).is_err());
    assert!(!record.is_disputed());
    assert_eq!(balances(&account), (100_000, 0, 100_000, false));
}

#[test]
fn resolve_of_deposit_moves_held_to_available() {
    let mut account = funded(100_000);
    let mut deposit = Transaction::new("deposit", 0, 1, Some(40_000));
    assert!(account.dispute_transaction(&mut deposit).is_ok());
    assert!(account.resolve_transaction(&mut deposit).is_ok());
    assert!(!deposit.is_disputed());
    assert_eq!(balances(&account), (100_000, 0, 100_000, false));
}

#[test]
fn resolve_of_withdrawal_moves_available_to_held() {
    let mut account = funded(100_000);
    let mut withdrawal = Transaction::new("withdrawal", 0, 2, Some(40_000));
    withdrawal.set_dispute(true);
    assert!(account.resolve_transaction(&mut withdrawal).is_ok());
    assert!(!withdrawal.is_disputed());
    assert_eq!(balances(&account), (60_000, 40_000, 100_000, false));
}

#[test]
fn resolve_of_a_record_that_is_no_transfer_fails_and_changes_nothing() {
    let mut account = funded(100_000);
    let mut record = Transaction::new("dispute", 0, 2, Some(40_000));
    record.set_dispute(true);
    assert!(account.resolve_transaction(&mut record).is_err());
    assert!(record.is_disputed());
    assert_eq!(balances(&account), (100_000, 0, 100_000, false));
}

#[test]
fn chargeback_of_deposit_takes_held_and_total_and_locks() {
    let mut account = funded(100_000);
    let mut deposit = Transaction::new("deposit", 0, 1, Some(40_000));
    assert!(account.dispute_transaction(&mut deposit).is_ok());
    assert!(account.chargeback_transaction(&mut deposit).is_ok());
    assert!(!deposit.is_disputed());
    assert_eq!(balances(&account), (60_000, 0, 60_000, true));
}

#[test]
fn chargeback_of_withdrawal_adds_to_held_and_total_and_locks() {
    let mut account = funded(100_000);
    let mut withdrawal = Transaction::new("withdrawal", 0, 2, Some(40_000));
    assert!(account.dispute_transaction(&mut withdrawal).is_ok());
    assert!(account.chargeback_transaction(&mut withdrawal).is_ok());
    assert!(!withdrawal.is_disputed());
    assert_eq!(balances(&account), (140_000, 0, 140_000, true));
}

#[test]
fn chargeback_of_a_record_that_is_no_transfer_fails_and_does_not_lock() {
    let mut account = funded(100_000);
    let mut record = Transaction::new("bogus", 0, 2, Some(40_000));
    record.set_dispute(true);
    assert!(account.chargeback_transaction(&mut record).is_err());
    assert!(record.is_disputed());
    assert_eq!(balances(&account), (100_000, 0, 100_000, false));
}

#[test]
fn total_is_available_plus_held_after_every_operation() {
    let mut account = Account::default();
    let mut deposit = Transaction::new("deposit", 0, 1, Some(90_000));
    let mut withdrawal = Transaction::new("withdrawal", 0, 2, Some(20_000));
    assert!(account.process_transfer(&deposit).is_ok());
    assert_eq!(account.get_total(), account.get_available() + account.get_held());
    assert!(account.process_transfer(&withdrawal).is_ok());
    assert_eq!(account.get_total(), account.get_available() + account.get_held());
    assert!(account.dispute_transaction(&mut withdrawal).is_ok());
    assert_eq!(account.get_total(), account.get_available() + account.get_held());
    assert!(account.dispute_transaction(&mut deposit).is_ok());
    assert_eq!(account.get_total(), account.get_available() + account.get_held());
    assert!(account.resolve_transaction(&mut withdrawal).is_ok());
    assert_eq!(account.get_total(), account.get_available() + account.get_held());
    assert!(account.chargeback_transaction(&mut deposit).is_ok());
    assert_eq!(account.get_total(), account.get_available() + account.get_held());
    assert_eq!(balances(&account), (-20_000, 0, -20_000, true));
}
